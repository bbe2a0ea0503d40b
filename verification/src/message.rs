//! State topics and the messages published to them.

use vstd::prelude::*;
use crate::settings::Settings;

verus! {

/// Delivery guarantee of a publication.
#[derive(Clone, Copy, Debug, PartialEq, Eq, Structural)]
pub enum QoS {
    AtMostOnce,
    AtLeastOnce,
    ExactlyOnce,
}

/// Mathematical model of a publication.
pub ghost struct PublicationView {
    pub topic: Seq<char>,
    pub payload: Seq<char>,
    pub qos: QoS,
    pub retain: bool,
}

/// One message for the broker.
#[derive(Clone, Debug, PartialEq, Eq)]
pub struct Publication {
    pub topic: String,
    pub payload: String,
    pub qos: QoS,
    pub retain: bool,
}

impl View for Publication {
    type V = PublicationView;

    open spec fn view(&self) -> PublicationView {
        PublicationView {
            topic: self.topic@,
            payload: self.payload@,
            qos: self.qos,
            retain: self.retain,
        }
    }
}

/// The shape every message of the bridge has: retained, so that a new
/// subscriber sees the last known state at once, and delivered at least once.
pub open spec fn retained(topic: Seq<char>, payload: Seq<char>) -> PublicationView {
    PublicationView { topic, payload, qos: QoS::AtLeastOnce, retain: true }
}

impl Publication {
    /// A retained, at-least-once message.
    pub fn retained(topic: String, payload: String) -> (message: Publication)
        ensures
            message@ == retained(topic@, payload@),
    {
        Publication { topic, payload, qos: QoS::AtLeastOnce, retain: true }
    }
}

/// The text `prefix/id/leaf`.
pub open spec fn state_topic(prefix: Seq<char>, id: Seq<char>, leaf: Seq<char>) -> Seq<char> {
    prefix + "/"@ + id + "/"@ + leaf
}

/// Payload that reports a signal as on.
pub open spec fn on_payload() -> Seq<char> {
    "ON"@
}

/// Payload that reports a signal as off.
pub open spec fn off_payload() -> Seq<char> {
    "OFF"@
}

/// Payload of a two-valued signal.
pub open spec fn switch_payload(on: bool) -> Seq<char> {
    if on {
        on_payload()
    } else {
        off_payload()
    }
}

/// Payload of a two-valued signal: `ON` or `OFF`.
pub fn switch_text(on: bool) -> (payload: String)
    ensures
        payload@ == switch_payload(on),
{
    if on {
        String::from_str("ON")
    } else {
        String::from_str("OFF")
    }
}

/// Mathematical model of the three state topics.
pub ghost struct TopicsView {
    pub power: Seq<char>,
    pub active: Seq<char>,
    pub application: Seq<char>,
}

/// The three state topics of one instance.
#[derive(Clone, Debug, PartialEq, Eq)]
pub struct Topics {
    pub power: String,
    pub active: String,
    pub application: String,
}

impl View for Topics {
    type V = TopicsView;

    open spec fn view(&self) -> TopicsView {
        TopicsView { power: self.power@, active: self.active@, application: self.application@ }
    }
}

/// The state topics of the instance `id` under `prefix`.
pub open spec fn topics_of(prefix: Seq<char>, id: Seq<char>) -> TopicsView {
    TopicsView {
        power: state_topic(prefix, id, "power"@),
        active: state_topic(prefix, id, "active"@),
        application: state_topic(prefix, id, "application"@),
    }
}

/// Builds `prefix/id/leaf`.
fn join_topic(prefix: &str, id: &str, leaf: &str) -> (topic: String)
    ensures
        topic@ == state_topic(prefix@, id@, leaf@),
{
    let mut topic = String::from_str(prefix);
    topic.append("/");
    topic.append(id);
    topic.append("/");
    topic.append(leaf);
    topic
}

impl Topics {
    /// The state topics that the settings name: `prefix/id/power`,
    /// `prefix/id/active` and `prefix/id/application`.
    pub fn new(settings: &Settings) -> (topics: Topics)
        ensures
            topics@ == topics_of(settings.prefix@, settings.id@),
    {
        let prefix = settings.prefix.as_str();
        let id = settings.id.as_str();
        Topics {
            power: join_topic(prefix, id, "power"),
            active: join_topic(prefix, id, "active"),
            application: join_topic(prefix, id, "application"),
        }
    }
}

/// The three state topics of an instance are pairwise different, whatever the
/// prefix and the id.
pub proof fn lemma_topics_distinct(prefix: Seq<char>, id: Seq<char>)
    ensures
        topics_of(prefix, id).power != topics_of(prefix, id).active,
        topics_of(prefix, id).power != topics_of(prefix, id).application,
        topics_of(prefix, id).active != topics_of(prefix, id).application,
{
    reveal_strlit("power");
    reveal_strlit("active");
    reveal_strlit("application");
    let topics = topics_of(prefix, id);
    assert(topics.power.last() == 'r');
    assert(topics.active.last() == 'e');
    assert(topics.application.last() == 'n');
}

} // verus!
