//! The connection supervisor's decisions: what to do with each result of
//! polling the network client, and how long to hold back after a failure.

use vstd::prelude::*;

verus! {

/// The shortest time between two restarts of the retry timer, in
/// nanoseconds: one second.
pub const MIN_DELAY_NANOS: u64 = 1_000_000_000;

/// `rumqttc::Event`, what a successful poll of the client's event loop
/// yields. Nothing is claimed of what it holds.
#[verifier::external_type_specification]
#[verifier::external_body]
pub struct ExEvent(rumqttc::Event);

/// `rumqttc::ConnectionError`, what a failed poll of the client's event loop
/// yields. Nothing is claimed of what it holds.
#[verifier::external_type_specification]
#[verifier::external_body]
pub struct ExConnectionError(rumqttc::ConnectionError);

/// What one poll of the network client amounts to.
#[derive(Clone, Copy, Debug, PartialEq, Eq, Structural)]
pub enum LinkEvent {
    /// The broker accepted the connection.
    ConnectAccepted,
    /// The client's own disconnect went out.
    DisconnectSent,
    /// Any other traffic.
    Other,
    /// The poll failed.
    Failed,
}

/// What the supervisor does next.
#[derive(Clone, Copy, Debug, PartialEq, Eq, Structural)]
pub enum SupervisorAction {
    /// Tell the publisher that a connection was made, without waiting: if an
    /// earlier notice is still pending, this one is dropped. Then poll again.
    Notify,
    /// Poll again.
    Continue,
    /// Wait `delay_nanos` nanoseconds, restart the retry timer, poll again.
    Retry { delay_nanos: u64 },
    /// Leave the loop: the connection was taken down on purpose.
    Stop,
}

/// Time to wait after a failure that came `elapsed` nanoseconds after the
/// retry timer was last restarted: what is missing to a full second.
pub open spec fn backoff(elapsed: u128) -> u64 {
    if elapsed < MIN_DELAY_NANOS {
        (MIN_DELAY_NANOS - elapsed) as u64
    } else {
        0
    }
}

/// The supervisor's step: from whether it is stopping, an event and the retry
/// timer's reading to whether it is stopping afterwards and what it does.
pub open spec fn supervise(stopping: bool, event: LinkEvent, elapsed: u128) -> (
    bool,
    SupervisorAction,
) {
    match event {
        LinkEvent::ConnectAccepted => (stopping, SupervisorAction::Notify),
        LinkEvent::DisconnectSent => (true, SupervisorAction::Continue),
        LinkEvent::Other => (stopping, SupervisorAction::Continue),
        LinkEvent::Failed => if stopping {
            (stopping, SupervisorAction::Stop)
        } else {
            (stopping, SupervisorAction::Retry { delay_nanos: backoff(elapsed) })
        },
    }
}

/// Tells apart what `rumqttc::EventLoop::poll` returned, by the variants of
/// `rumqttc::Event`, `Packet`, `ConnectReturnCode` and `Outgoing`: a connect
/// acknowledgement with return code `Success`, an outgoing disconnect, any
/// other event, an error. The contract claims only that an error, and
/// nothing else, counts as a failure.
#[verifier::external_body]
fn link_event(polled: &Result<rumqttc::Event, rumqttc::ConnectionError>) -> (event: LinkEvent)
    ensures
        event is Failed <==> polled is Err,
{
    match polled {
        Ok(
            rumqttc::Event::Incoming(
                rumqttc::Packet::ConnAck(
                    rumqttc::ConnAck { code: rumqttc::ConnectReturnCode::Success, .. },
                ),
            ),
        ) => LinkEvent::ConnectAccepted,
        Ok(rumqttc::Event::Outgoing(rumqttc::Outgoing::Disconnect)) => LinkEvent::DisconnectSent,
        Ok(_) => LinkEvent::Other,
        Err(_) => LinkEvent::Failed,
    }
}

/// The connection supervisor's state.
#[derive(Clone, Copy, Debug, PartialEq, Eq, Structural)]
pub struct Supervisor {
    /// Whether the client's own disconnect has gone out.
    pub stopping: bool,
}

impl Supervisor {
    /// A supervisor that is not stopping.
    pub fn new() -> (supervisor: Supervisor)
        ensures
            !supervisor.stopping,
    {
        Supervisor { stopping: false }
    }

    /// Handles one event. `elapsed_nanos` is the retry timer's reading: the
    /// time since the loop started or, if later, since the last `Retry` was
    /// carried out.
    pub fn react(&mut self, event: LinkEvent, elapsed_nanos: u128) -> (action: SupervisorAction)
        ensures
            (final(self).stopping, action) == supervise(old(self).stopping, event, elapsed_nanos),
    {
        match event {
            LinkEvent::ConnectAccepted => SupervisorAction::Notify,
            LinkEvent::DisconnectSent => {
                self.stopping = true;
                SupervisorAction::Continue
            },
            LinkEvent::Other => SupervisorAction::Continue,
            LinkEvent::Failed => {
                if self.stopping {
                    SupervisorAction::Stop
                } else if elapsed_nanos < MIN_DELAY_NANOS as u128 {
                    SupervisorAction::Retry { delay_nanos: MIN_DELAY_NANOS - elapsed_nanos as u64 }
                } else {
                    SupervisorAction::Retry { delay_nanos: 0 }
                }
            },
        }
    }

    /// Handles what one poll of the network client returned. An error is
    /// handled as `LinkEvent::Failed`; anything else as one of the other
    /// events, by what the client reports.
    pub fn on_poll(
        &mut self,
        polled: &Result<rumqttc::Event, rumqttc::ConnectionError>,
        elapsed_nanos: u128,
    ) -> (action: SupervisorAction)
        ensures
            polled is Err ==> (final(self).stopping, action) == supervise(
                old(self).stopping,
                LinkEvent::Failed,
                elapsed_nanos,
            ),
            polled is Ok ==> exists|event: LinkEvent|
                event != LinkEvent::Failed && (final(self).stopping, action) == #[trigger] supervise(
                    old(self).stopping,
                    event,
                    elapsed_nanos,
                ),
    {
        let event = link_event(polled);
        self.react(event, elapsed_nanos)
    }
}

/// After a failure the supervisor never waits longer than a second, and
/// waits at all only if the retry timer shows less than a second.
pub proof fn lemma_backoff_bounds(elapsed: u128)
    ensures
        backoff(elapsed) <= MIN_DELAY_NANOS,
        backoff(elapsed) == 0 <==> elapsed >= MIN_DELAY_NANOS,
{
}

/// Retries are at least a second apart: if the retry timer was restarted at
/// `restart` and a failure is handled at `failure`, the timer is not
/// restarted again before `restart` plus one second, however soon the
/// failure came. All times are in nanoseconds.
pub proof fn lemma_retries_are_spaced(restart: nat, failure: nat)
    requires
        restart <= failure,
        failure - restart <= u128::MAX,
    ensures
        failure + backoff((failure - restart) as u128) >= restart + MIN_DELAY_NANOS,
        supervise(false, LinkEvent::Failed, (failure - restart) as u128).1
            == (SupervisorAction::Retry { delay_nanos: backoff((failure - restart) as u128) }),
{
}

/// What the publisher finds when it looks for a notice.
#[derive(Clone, Copy, Debug, PartialEq, Eq, Structural)]
pub enum Notice {
    /// A connection was made since the publisher last looked.
    Connected,
    /// No connection was made, and the supervisor is still at work.
    Nothing,
    /// No connection was made, and the supervisor has left.
    Closed,
}

/// The supervisor's notices to the publisher that a connection was made: a
/// queue of one, in which only presence counts.
#[derive(Clone, Copy, Debug, PartialEq, Eq, Structural)]
pub struct ConnectNotice {
    /// Whether a notice waits to be taken.
    pub pending: bool,
    /// Whether the supervisor has left.
    pub closed: bool,
}

impl ConnectNotice {
    /// What `take` finds.
    pub open spec fn found(self) -> Notice {
        if self.pending {
            Notice::Connected
        } else if self.closed {
            Notice::Closed
        } else {
            Notice::Nothing
        }
    }

    /// No notice pending, supervisor at work.
    pub fn new() -> (notice: ConnectNotice)
        ensures
            notice == (ConnectNotice { pending: false, closed: false }),
    {
        ConnectNotice { pending: false, closed: false }
    }

    /// Leaves a notice. Returns whether it was taken in: it is dropped if one
    /// is pending already.
    pub fn raise(&mut self) -> (accepted: bool)
        ensures
            final(self).pending,
            final(self).closed == old(self).closed,
            accepted == !old(self).pending,
    {
        let accepted = !self.pending;
        self.pending = true;
        accepted
    }

    /// Records that the supervisor has left. A pending notice stays.
    pub fn close(&mut self)
        ensures
            final(self).closed,
            final(self).pending == old(self).pending,
    {
        self.closed = true;
    }

    /// Takes the pending notice, if there is one. That the supervisor has
    /// left is reported only when no notice is pending.
    pub fn take(&mut self) -> (notice: Notice)
        ensures
            notice == old(self).found(),
            !final(self).pending,
            final(self).closed == old(self).closed,
    {
        let notice = if self.pending {
            Notice::Connected
        } else if self.closed {
            Notice::Closed
        } else {
            Notice::Nothing
        };
        self.pending = false;
        notice
    }
}

} // verus!
