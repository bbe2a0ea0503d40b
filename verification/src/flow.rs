//! From the runtime's events to the broker: what holds of the translator and
//! the publisher together.

use vstd::prelude::*;
use crate::channel::ChannelView;
use crate::message::{retained, switch_payload, TopicsView};
use crate::openvr::VrEvent;
use crate::publisher::{reaction, PublisherActionView, PublisherEvent};
use crate::translator::{active_after, application_after, next_step, standby_update, Reply, StepView};

verus! {

/// A standby event is published exactly once: when the publisher, which had
/// seen everything before the event, next looks at the `active` channel, it
/// sends `OFF` for entering standby and `ON` for leaving it to the active
/// topic; when it looks again there is nothing to send.
pub proof fn lemma_standby_is_published(
    topics: TopicsView,
    active: ChannelView<bool>,
    application: ChannelView<String>,
    seen_application: u64,
    code: i32,
)
    requires
        active.observers > 0,
        standby_update(VrEvent::of_code(code)) is Some,
    ensures
        ({
            let written = active_after(active, Reply::Polled(Some(code)));
            let value = standby_update(VrEvent::of_code(code))->Some_0;
            &&& reaction(
                topics,
                written,
                application,
                active.generation,
                seen_application,
                PublisherEvent::ActiveSignal,
            ) == PublisherActionView::Publish(retained(topics.active, switch_payload(value)))
            &&& !(reaction(
                topics,
                written,
                application,
                written.generation,
                seen_application,
                PublisherEvent::ActiveSignal,
            ) is Publish)
        }),
{
}

/// A display name that was looked up is published exactly once, as it is:
/// when the publisher, which had seen everything before, next looks at the
/// `application` channel, it sends the name to the application topic; when it
/// looks again there is nothing to send.
pub proof fn lemma_application_is_published(
    topics: TopicsView,
    active: ChannelView<bool>,
    application: ChannelView<String>,
    seen_active: u64,
    name: String,
)
    requires
        application.observers > 0,
    ensures
        ({
            let written = application_after(application, Reply::Name(Some(name)));
            &&& reaction(
                topics,
                active,
                written,
                seen_active,
                application.generation,
                PublisherEvent::ApplicationSignal,
            ) == PublisherActionView::Publish(retained(topics.application, name@))
            &&& !(reaction(
                topics,
                active,
                written,
                seen_active,
                written.generation,
                PublisherEvent::ApplicationSignal,
            ) is Publish)
        }),
{
}

/// Replies that write nothing give the publisher nothing to send: if it had
/// seen everything before the reply, it stays idle or, once the producer is
/// gone, disconnects.
pub proof fn lemma_silent_replies_publish_nothing(
    topics: TopicsView,
    active: ChannelView<bool>,
    application: ChannelView<String>,
    reply: Reply,
    event: PublisherEvent,
)
    requires
        active_after(active, reply) == active,
        application_after(application, reply) == application,
        event == PublisherEvent::ActiveSignal || event == PublisherEvent::ApplicationSignal,
    ensures
        !(reaction(
            topics,
            active_after(active, reply),
            application_after(application, reply),
            active.generation,
            application.generation,
            event,
        ) is Publish),
{
}

/// The runtime's quit request, and nothing else, is answered with the
/// acknowledgement.
pub proof fn lemma_only_quit_is_acknowledged(
    reply: Reply,
    active_observers: nat,
    application_observers: nat,
)
    ensures
        next_step(reply, active_observers, application_observers) == StepView::AcknowledgeQuit
            <==> (reply matches Reply::Polled(Some(code)) && VrEvent::of_code(code)
            == VrEvent::Quit),
{
}

} // verus!
