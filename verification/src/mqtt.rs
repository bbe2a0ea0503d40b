//! The shared state between the event translator and the publisher: two
//! state channels, the producer's handle on them and the consumer's
//! observers.

use vstd::prelude::*;
use crate::channel::{Channel, ChannelView, Observer};

verus! {

/// The only way a state update can fail: nobody observes the channel any
/// more, which means that the publishing side is gone.
#[derive(Clone, Copy, Debug, PartialEq, Eq, Structural)]
pub struct SendFailed;

impl SendFailed {
    /// What to tell the user.
    pub fn message(&self) -> (text: String)
        ensures
            text@ == "Failed to send message"@,
    {
        String::from_str("Failed to send message")
    }
}

/// The producer's side of the shared state.
#[derive(Debug)]
pub struct MqttHandle {
    /// Whether the headset is out of standby.
    pub active: Channel<bool>,
    /// Display name of the foreground application.
    pub application: Channel<String>,
}

/// The consumer's side of the shared state: its position on each channel.
#[derive(Debug)]
pub struct State {
    pub active: Observer,
    pub application: Observer,
}

impl MqttHandle {
    /// Publishes whether the headset is active. Fails, changing nothing,
    /// exactly when the `active` channel has no observer.
    pub fn set_active(&mut self, active: bool) -> (result: Result<(), SendFailed>)
        ensures
            final(self).application == old(self).application,
            old(self).active@.observers > 0 ==> result is Ok && final(self).active@ == old(
                self,
            ).active@.set(active),
            old(self).active@.observers == 0 ==> result is Err && final(self).active@ == old(
                self,
            ).active@,
    {
        match self.active.set(active) {
            Ok(()) => Ok(()),
            Err(_) => Err(SendFailed),
        }
    }

    /// Publishes the foreground application's display name. Fails, changing
    /// nothing, exactly when the `application` channel has no observer.
    pub fn set_application(&mut self, name: String) -> (result: Result<(), SendFailed>)
        ensures
            final(self).active == old(self).active,
            old(self).application@.observers > 0 ==> result is Ok && final(self).application@
                == old(self).application@.set(name),
            old(self).application@.observers == 0 ==> result is Err && final(self).application@
                == old(self).application@,
    {
        match self.application.set(name) {
            Ok(()) => Ok(()),
            Err(_) => Err(SendFailed),
        }
    }

    /// Records that the producer is done: both channels are closed. Values
    /// that are still pending stay observable.
    pub fn close(&mut self)
        ensures
            final(self).active@ == old(self).active@.closed(),
            final(self).application@ == old(self).application@.closed(),
    {
        self.active.close();
        self.application.close();
    }
}

impl State {
    /// Takes the consumer off both channels. From then on the producer's
    /// updates fail, unless another consumer is registered.
    pub fn detach(self, handle: &mut MqttHandle)
        ensures
            final(handle).active@ == old(handle).active@.unsubscribed(),
            final(handle).application@ == old(handle).application@.unsubscribed(),
    {
        handle.active.unsubscribe(self.active);
        handle.application.unsubscribe(self.application);
    }
}

/// The shared state at startup: the headset counts as active and no
/// application is known. Each channel has one observer, which has seen the
/// initial value.
pub fn shared_state() -> (ends: (MqttHandle, State))
    ensures
        ends.0.active@ == ChannelView::fresh(true).subscribed(),
        ends.0.application@.value@ == Seq::<char>::empty(),
        ends.0.application@.generation == 0,
        ends.0.application@.observers == 1,
        ends.0.application@.open,
        ends.1.active@ == 0,
        ends.1.application@ == 0,
{
    let mut active = Channel::new(true);
    let mut application = Channel::new(String::new());
    let state = State { active: active.subscribe(), application: application.subscribe() };
    (MqttHandle { active, application }, state)
}

} // verus!
