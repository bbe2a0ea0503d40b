//! The telemetry publisher's decisions: what to send to the broker when a
//! connection was made or a state channel has news, and when to leave.

use vstd::prelude::*;
use crate::channel::{ChannelView, Observation};
use crate::discovery::{discovery, discovery_messages, publication_views};
use crate::message::{
    lemma_topics_distinct, on_payload, retained, switch_payload, switch_text, topics_of,
    Publication, PublicationView, Topics, TopicsView,
};
use crate::mqtt::{MqttHandle, State};
use crate::settings::Settings;
use crate::supervisor::Notice;

verus! {

/// What woke the publisher up.
#[derive(Clone, Copy, Debug, PartialEq, Eq, Structural)]
pub enum PublisherEvent {
    /// The supervisor reports a freshly made connection.
    Connected,
    /// The supervisor is gone and will report nothing more.
    SupervisorGone,
    /// The `active` channel may have news.
    ActiveSignal,
    /// The `application` channel may have news.
    ApplicationSignal,
}

impl PublisherEvent {
    /// The event that a look at the supervisor's notices amounts to, if any.
    pub open spec fn of_notice(notice: Notice) -> Option<PublisherEvent> {
        match notice {
            Notice::Connected => Some(PublisherEvent::Connected),
            Notice::Nothing => None,
            Notice::Closed => Some(PublisherEvent::SupervisorGone),
        }
    }

    /// The event that a look at the supervisor's notices amounts to: a
    /// connection that was made, the supervisor's leaving, or none.
    pub fn from_notice(notice: Notice) -> (event: Option<PublisherEvent>)
        ensures
            event == PublisherEvent::of_notice(notice),
    {
        match notice {
            Notice::Connected => Some(PublisherEvent::Connected),
            Notice::Nothing => None,
            Notice::Closed => Some(PublisherEvent::SupervisorGone),
        }
    }
}

/// Mathematical model of a publisher's action.
pub ghost enum PublisherActionView {
    Publish(PublicationView),
    Idle,
    Disconnect,
}

/// What the publisher does next.
#[derive(Debug, PartialEq, Eq)]
pub enum PublisherAction {
    /// Send this message; a failure to do so is fatal.
    Publish(Publication),
    /// Nothing to do: keep waiting.
    Idle,
    /// Disconnect in good order, let the supervisor finish, and return.
    Disconnect,
}

impl View for PublisherAction {
    type V = PublisherActionView;

    open spec fn view(&self) -> PublisherActionView {
        match self {
            PublisherAction::Publish(message) => PublisherActionView::Publish(message@),
            PublisherAction::Idle => PublisherActionView::Idle,
            PublisherAction::Disconnect => PublisherActionView::Disconnect,
        }
    }
}

/// The report on the `active` channel, for an observer that saw `seen` last.
pub open spec fn active_report(
    topics: TopicsView,
    active: ChannelView<bool>,
    seen: u64,
) -> PublisherActionView {
    match active.observe(seen) {
        Observation::Changed(on) => PublisherActionView::Publish(
            retained(topics.active, switch_payload(on)),
        ),
        Observation::Unchanged => PublisherActionView::Idle,
        Observation::Closed => PublisherActionView::Disconnect,
    }
}

/// The report on the `application` channel, for an observer that saw `seen`
/// last.
pub open spec fn application_report(
    topics: TopicsView,
    application: ChannelView<String>,
    seen: u64,
) -> PublisherActionView {
    match application.observe(seen) {
        Observation::Changed(name) => PublisherActionView::Publish(
            retained(topics.application, name@),
        ),
        Observation::Unchanged => PublisherActionView::Idle,
        Observation::Closed => PublisherActionView::Disconnect,
    }
}

/// The publisher's reaction to `event`, given the channels and what the
/// publisher has seen of them.
pub open spec fn reaction(
    topics: TopicsView,
    active: ChannelView<bool>,
    application: ChannelView<String>,
    seen_active: u64,
    seen_application: u64,
    event: PublisherEvent,
) -> PublisherActionView {
    match event {
        PublisherEvent::Connected => PublisherActionView::Publish(
            retained(topics.power, on_payload()),
        ),
        PublisherEvent::SupervisorGone => PublisherActionView::Disconnect,
        PublisherEvent::ActiveSignal => active_report(topics, active, seen_active),
        PublisherEvent::ApplicationSignal => application_report(
            topics,
            application,
            seen_application,
        ),
    }
}

/// The telemetry publisher: the topics it writes to and its position on the
/// shared state.
#[derive(Debug)]
pub struct Publisher {
    pub topics: Topics,
    pub state: State,
}

impl Publisher {
    /// A publisher for the topics that the settings name.
    pub fn new(settings: &Settings, state: State) -> (publisher: Publisher)
        ensures
            publisher.topics@ == topics_of(settings.prefix@, settings.id@),
            publisher.state == state,
    {
        Publisher { topics: Topics::new(settings), state }
    }

    /// The discovery messages to send once, before anything else: none if the
    /// discovery prefix is empty, else three.
    pub fn startup(&self, settings: &Settings) -> (messages: Vec<Publication>)
        ensures
            publication_views(messages@) == discovery(
                settings.hass_prefix@,
                settings.id@,
                settings.name@,
                self.topics@,
            ),
    {
        discovery_messages(settings, &self.topics)
    }

    /// Reacts to one event.
    ///
    /// A fresh connection is answered with `ON` on the power topic. A signal
    /// from a channel is answered with the channel's latest value if the
    /// publisher has not seen it yet (`ON` or `OFF` on the active topic, the
    /// name as it is on the application topic), with a disconnect if there is
    /// nothing new and the producer is gone, and with nothing otherwise. The
    /// channel that was looked at then counts as seen. Every message is
    /// retained and delivered at least once.
    pub fn react(&mut self, handle: &MqttHandle, event: PublisherEvent) -> (action:
        PublisherAction)
        ensures
            action@ == reaction(
                old(self).topics@,
                handle.active@,
                handle.application@,
                old(self).state.active@,
                old(self).state.application@,
                event,
            ),
            final(self).topics == old(self).topics,
            final(self).state.active@ == if event == PublisherEvent::ActiveSignal {
                handle.active@.generation
            } else {
                old(self).state.active@
            },
            final(self).state.application@ == if event == PublisherEvent::ApplicationSignal {
                handle.application@.generation
            } else {
                old(self).state.application@
            },
    {
        match event {
            PublisherEvent::Connected => PublisherAction::Publish(
                Publication::retained(self.topics.power.clone(), switch_text(true)),
            ),
            PublisherEvent::SupervisorGone => PublisherAction::Disconnect,
            PublisherEvent::ActiveSignal => match self.state.active.observe(&handle.active) {
                Observation::Changed(on) => PublisherAction::Publish(
                    Publication::retained(self.topics.active.clone(), switch_text(*on)),
                ),
                Observation::Unchanged => PublisherAction::Idle,
                Observation::Closed => PublisherAction::Disconnect,
            },
            PublisherEvent::ApplicationSignal => match self.state.application.observe(
                &handle.application,
            ) {
                Observation::Changed(name) => PublisherAction::Publish(
                    Publication::retained(self.topics.application.clone(), name.clone()),
                ),
                Observation::Unchanged => PublisherAction::Idle,
                Observation::Closed => PublisherAction::Disconnect,
            },
        }
    }
}

/// The publisher never writes `OFF`, or anything but `ON`, to the power
/// topic: whatever the event and the state, a message on that topic says
/// `ON`. Reporting power as off is left to the last will.
pub proof fn lemma_power_is_only_switched_on(
    prefix: Seq<char>,
    id: Seq<char>,
    active: ChannelView<bool>,
    application: ChannelView<String>,
    seen_active: u64,
    seen_application: u64,
    event: PublisherEvent,
)
    ensures
        reaction(
            topics_of(prefix, id),
            active,
            application,
            seen_active,
            seen_application,
            event,
        ) matches PublisherActionView::Publish(message) ==> (message.topic == topics_of(
            prefix,
            id,
        ).power ==> message.payload == on_payload()),
{
    lemma_topics_distinct(prefix, id);
}

/// A fresh connection is answered by exactly this: one retained `ON` on the
/// power topic, whatever the state.
pub proof fn lemma_fresh_connection_switches_power_on(
    topics: TopicsView,
    active: ChannelView<bool>,
    application: ChannelView<String>,
    seen_active: u64,
    seen_application: u64,
)
    ensures
        reaction(
            topics,
            active,
            application,
            seen_active,
            seen_application,
            PublisherEvent::Connected,
        ) == PublisherActionView::Publish(retained(topics.power, on_payload())),
{
}

} // verus!
