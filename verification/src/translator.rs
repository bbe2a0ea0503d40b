//! The event translator's decisions: what each reply of the VR runtime means
//! for the shared state, and what to ask the runtime next.
//!
//! The caller owns the runtime. It carries out a step, hands the runtime's
//! reply to `translate`, and gets the next step, until a step ends the loop.

use vstd::prelude::*;
use crate::channel::ChannelView;
use crate::mqtt::{MqttHandle, SendFailed};
use crate::openvr::VrEvent;

verus! {

/// How long to wait before polling again when no event was pending, in
/// milliseconds.
pub const POLL_INTERVAL_MILLIS: u64 = 20;

/// What the runtime answered to the last step.
#[derive(Debug)]
pub enum Reply {
    /// The poll's result: the type of the next event, if one was pending.
    Polled(Option<i32>),
    /// The process id of the foreground application; zero if there is none.
    Foreground(u32),
    /// The application key of the process asked for, if the lookup worked.
    Key(Option<Vec<u8>>),
    /// The display name of the application asked for, if the lookup worked.
    Name(Option<String>),
}

/// Which update of the shared state failed.
#[derive(Clone, Copy, Debug, PartialEq, Eq, Structural)]
pub enum TranslatorError {
    /// The `active` channel has no observer.
    StandbyUpdate,
    /// The `application` channel has no observer.
    ApplicationUpdate,
}

impl TranslatorError {
    /// What to tell the user.
    pub fn message(&self) -> (text: String)
        ensures
            text@ == match *self {
                TranslatorError::StandbyUpdate => "Failed to queue standby update"@,
                TranslatorError::ApplicationUpdate => "Failed to queue application update"@,
            },
    {
        match self {
            TranslatorError::StandbyUpdate => String::from_str("Failed to queue standby update"),
            TranslatorError::ApplicationUpdate => String::from_str(
                "Failed to queue application update",
            ),
        }
    }

    /// The failure underneath.
    pub fn source(&self) -> (failure: SendFailed)
        ensures
            failure == SendFailed,
    {
        SendFailed
    }
}

/// Mathematical model of a step.
pub ghost enum StepView {
    Poll,
    Sleep { millis: u64 },
    QueryForeground,
    QueryKey { process_id: u32 },
    QueryName { key: Seq<u8> },
    AcknowledgeQuit,
    Fail { error: TranslatorError },
}

/// What the translator's caller does next. The replies to the three queries
/// and to a poll go back to `translate`.
#[derive(Debug, PartialEq, Eq)]
pub enum Step {
    /// Poll the runtime for the next event.
    Poll,
    /// Wait `millis` milliseconds, then poll.
    Sleep { millis: u64 },
    /// Ask for the process id of the foreground application.
    QueryForeground,
    /// Ask for the application key of the process `process_id`.
    QueryKey { process_id: u32 },
    /// Ask for the display name of the application `key`.
    QueryName { key: Vec<u8> },
    /// Acknowledge the runtime's quit request and end the loop with success.
    AcknowledgeQuit,
    /// End the loop with this error.
    Fail { error: TranslatorError },
}

impl View for Step {
    type V = StepView;

    open spec fn view(&self) -> StepView {
        match self {
            Step::Poll => StepView::Poll,
            Step::Sleep { millis } => StepView::Sleep { millis: *millis },
            Step::QueryForeground => StepView::QueryForeground,
            Step::QueryKey { process_id } => StepView::QueryKey { process_id: *process_id },
            Step::QueryName { key } => StepView::QueryName { key: key@ },
            Step::AcknowledgeQuit => StepView::AcknowledgeQuit,
            Step::Fail { error } => StepView::Fail { error: *error },
        }
    }
}

impl StepView {
    /// Whether the step ends the translator's loop.
    pub open spec fn ends_loop(self) -> bool {
        self is AcknowledgeQuit || self is Fail
    }
}

impl Step {
    /// Whether the step ends the translator's loop.
    pub fn ends_loop(&self) -> (ends: bool)
        ensures
            ends == self@.ends_loop(),
    {
        match self {
            Step::AcknowledgeQuit => true,
            Step::Fail { .. } => true,
            _ => false,
        }
    }
}

/// The value that an event writes to the `active` channel, if it writes one:
/// `false` on entering standby, `true` on leaving it.
pub open spec fn standby_update(event: VrEvent) -> Option<bool> {
    match event {
        VrEvent::EnterStandbyMode => Some(false),
        VrEvent::LeaveStandbyMode => Some(true),
        _ => None,
    }
}

/// The step that follows a polled event.
pub open spec fn event_step(event: VrEvent, active_observers: nat) -> StepView {
    match event {
        VrEvent::SceneApplicationChanged => StepView::QueryForeground,
        VrEvent::SceneApplicationStateChanged => StepView::QueryForeground,
        VrEvent::EnterStandbyMode | VrEvent::LeaveStandbyMode => if active_observers > 0 {
            StepView::Poll
        } else {
            StepView::Fail { error: TranslatorError::StandbyUpdate }
        },
        VrEvent::Quit => StepView::AcknowledgeQuit,
        VrEvent::Other => StepView::Poll,
    }
}

/// The step that follows a reply, given how many observers the two channels
/// have.
pub open spec fn next_step(
    reply: Reply,
    active_observers: nat,
    application_observers: nat,
) -> StepView {
    match reply {
        Reply::Polled(None) => StepView::Sleep { millis: POLL_INTERVAL_MILLIS },
        Reply::Polled(Some(code)) => event_step(VrEvent::of_code(code), active_observers),
        Reply::Foreground(process_id) => if process_id == 0 {
            StepView::Poll
        } else {
            StepView::QueryKey { process_id }
        },
        Reply::Key(Some(key)) => StepView::QueryName { key: key@ },
        Reply::Key(None) => StepView::Poll,
        Reply::Name(Some(_)) => if application_observers > 0 {
            StepView::Poll
        } else {
            StepView::Fail { error: TranslatorError::ApplicationUpdate }
        },
        Reply::Name(None) => StepView::Poll,
    }
}

/// The `active` channel after a reply.
pub open spec fn active_after(active: ChannelView<bool>, reply: Reply) -> ChannelView<bool> {
    match reply {
        Reply::Polled(Some(code)) => match standby_update(VrEvent::of_code(code)) {
            Some(value) => if active.observers > 0 {
                active.set(value)
            } else {
                active
            },
            None => active,
        },
        _ => active,
    }
}

/// The `application` channel after a reply.
pub open spec fn application_after(
    application: ChannelView<String>,
    reply: Reply,
) -> ChannelView<String> {
    match reply {
        Reply::Name(Some(name)) => if application.observers > 0 {
            application.set(name)
        } else {
            application
        },
        _ => application,
    }
}

/// Publishes whether the headset is active and says how the loop goes on.
fn publish_active(handle: &mut MqttHandle, active: bool) -> (step: Step)
    ensures
        final(handle).application == old(handle).application,
        old(handle).active@.observers > 0 ==> step@ == StepView::Poll && final(handle).active@
            == old(handle).active@.set(active),
        old(handle).active@.observers == 0 ==> step@ == (StepView::Fail {
            error: TranslatorError::StandbyUpdate,
        }) && final(handle).active@ == old(handle).active@,
{
    match handle.set_active(active) {
        Ok(()) => Step::Poll,
        Err(_) => Step::Fail { error: TranslatorError::StandbyUpdate },
    }
}

/// Takes one reply of the runtime and says what to do next.
///
/// No pending event: wait 20 ms, then poll. A change of the scene application
/// or of its state: ask for the foreground process; if that is zero there is
/// no foreground application and nothing happens, else its key and then its
/// display name are asked for, and the name is written to the `application`
/// channel. A lookup that failed is dropped. Entering standby writes `false`
/// to the `active` channel, leaving it writes `true`. A quit request is
/// acknowledged and ends the loop. Any other event is passed over. A write to
/// a channel without observers ends the loop with an error and changes
/// nothing.
pub fn translate(handle: &mut MqttHandle, reply: Reply) -> (step: Step)
    ensures
        step@ == next_step(
            reply,
            old(handle).active@.observers,
            old(handle).application@.observers,
        ),
        final(handle).active@ == active_after(old(handle).active@, reply),
        final(handle).application@ == application_after(old(handle).application@, reply),
{
    match reply {
        Reply::Polled(None) => Step::Sleep { millis: POLL_INTERVAL_MILLIS },
        Reply::Polled(Some(code)) => match VrEvent::from_code(code) {
            VrEvent::SceneApplicationChanged => Step::QueryForeground,
            VrEvent::SceneApplicationStateChanged => Step::QueryForeground,
            VrEvent::EnterStandbyMode => publish_active(handle, false),
            VrEvent::LeaveStandbyMode => publish_active(handle, true),
            VrEvent::Quit => Step::AcknowledgeQuit,
            VrEvent::Other => Step::Poll,
        },
        Reply::Foreground(process_id) => if process_id == 0 {
            Step::Poll
        } else {
            Step::QueryKey { process_id }
        },
        Reply::Key(Some(key)) => Step::QueryName { key },
        Reply::Key(None) => Step::Poll,
        Reply::Name(Some(name)) => match handle.set_application(name) {
            Ok(()) => Step::Poll,
            Err(_) => Step::Fail { error: TranslatorError::ApplicationUpdate },
        },
        Reply::Name(None) => Step::Poll,
    }
}

/// Without a foreground application nothing is written: a reply that names
/// process zero leaves both channels as they are and leads back to polling.
pub proof fn lemma_no_foreground_no_update(
    active: ChannelView<bool>,
    application: ChannelView<String>,
)
    ensures
        active_after(active, Reply::Foreground(0)) == active,
        application_after(application, Reply::Foreground(0)) == application,
        next_step(Reply::Foreground(0), active.observers, application.observers) == StepView::Poll,
{
}

/// Only a display name that was looked up reaches the `application` channel,
/// and only a standby event reaches the `active` channel.
pub proof fn lemma_updates_have_one_source(
    active: ChannelView<bool>,
    application: ChannelView<String>,
    reply: Reply,
)
    ensures
        application_after(application, reply) != application ==> (reply matches Reply::Name(
            Some(_),
        )),
        active_after(active, reply) != active ==> (reply matches Reply::Polled(Some(code))
            && standby_update(VrEvent::of_code(code)) is Some),
{
}

/// A quit request is answered with the acknowledgement, which ends the
/// loop without an error, and touches no channel.
pub proof fn lemma_quit_ends_the_loop(
    active: ChannelView<bool>,
    application: ChannelView<String>,
    code: i32,
)
    requires
        VrEvent::of_code(code) == VrEvent::Quit,
    ensures
        next_step(Reply::Polled(Some(code)), active.observers, application.observers)
            == StepView::AcknowledgeQuit,
        StepView::AcknowledgeQuit.ends_loop(),
        active_after(active, Reply::Polled(Some(code))) == active,
        application_after(application, Reply::Polled(Some(code))) == application,
{
}

} // verus!
