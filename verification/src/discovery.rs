//! Discovery: the retained announcements that let a home-automation hub set
//! up the three signals as sensors.

use vstd::prelude::*;
use crate::json::{
    availability_json, availability_text, json_string, json_string_literal, sensor_json,
    sensor_text,
};
use crate::message::{off_payload, on_payload, retained, Publication, PublicationView, Topics, TopicsView};
use crate::settings::Settings;

verus! {

/// Mathematical model of an availability clause.
pub ghost struct AvailabilityView {
    pub topic: Seq<char>,
    pub payload_available: Seq<char>,
    pub payload_not_available: Seq<char>,
}

/// Says on which topic, and by which payloads, a sensor is known to be
/// available.
#[derive(Clone, Debug, PartialEq, Eq)]
pub struct Availability {
    pub topic: String,
    pub payload_available: String,
    pub payload_not_available: String,
}

impl View for Availability {
    type V = AvailabilityView;

    open spec fn view(&self) -> AvailabilityView {
        AvailabilityView {
            topic: self.topic@,
            payload_available: self.payload_available@,
            payload_not_available: self.payload_not_available@,
        }
    }
}

impl AvailabilityView {
    /// The clause as JSON text.
    pub open spec fn json(self) -> Seq<char> {
        availability_text(
            json_string_literal(self.topic),
            json_string_literal(self.payload_available),
            json_string_literal(self.payload_not_available),
        )
    }
}

impl Availability {
    /// The clause as JSON text.
    pub fn to_json(&self) -> (text: String)
        ensures
            text@ == self@.json(),
    {
        let topic = json_string(self.topic.as_str());
        let available = json_string(self.payload_available.as_str());
        let not_available = json_string(self.payload_not_available.as_str());
        availability_json(topic.as_str(), available.as_str(), not_available.as_str())
    }
}

/// Mathematical model of a sensor's configuration.
pub ghost struct SensorConfigView {
    pub name: Seq<char>,
    pub device_class: Option<Seq<char>>,
    pub state_topic: Seq<char>,
    pub availability: Option<AvailabilityView>,
}

/// What a hub needs to know of one sensor.
#[derive(Clone, Debug, PartialEq, Eq)]
pub struct SensorConfig {
    /// Human-readable name.
    pub name: String,
    /// Hint at what the sensor measures.
    pub device_class: Option<String>,
    /// Topic that carries the sensor's state.
    pub state_topic: String,
    pub availability: Option<Availability>,
}

impl View for SensorConfig {
    type V = SensorConfigView;

    open spec fn view(&self) -> SensorConfigView {
        SensorConfigView {
            name: self.name@,
            device_class: match self.device_class {
                Some(class) => Some(class@),
                None => None,
            },
            state_topic: self.state_topic@,
            availability: match self.availability {
                Some(availability) => Some(availability@),
                None => None,
            },
        }
    }
}

impl SensorConfigView {
    /// The configuration as JSON text.
    pub open spec fn json(self) -> Seq<char> {
        sensor_text(
            json_string_literal(self.name),
            match self.device_class {
                Some(class) => Some(json_string_literal(class)),
                None => None,
            },
            json_string_literal(self.state_topic),
            match self.availability {
                Some(availability) => Some(availability.json()),
                None => None,
            },
        )
    }
}

impl SensorConfig {
    /// The configuration as JSON text: one object, members in alphabetical
    /// order, no white space.
    pub fn to_json(&self) -> (text: String)
        ensures
            text@ == self@.json(),
    {
        let name = json_string(self.name.as_str());
        let state_topic = json_string(self.state_topic.as_str());
        let device_class = match &self.device_class {
            Some(class) => Some(json_string(class.as_str())),
            None => None,
        };
        let availability = match &self.availability {
            Some(availability) => Some(availability.to_json()),
            None => None,
        };
        sensor_json(
            name.as_str(),
            match &device_class {
                Some(class) => Some(class.as_str()),
                None => None,
            },
            state_topic.as_str(),
            match &availability {
                Some(availability) => Some(availability.as_str()),
                None => None,
            },
        )
    }
}

/// The text `hass_prefix/component/id_signal/config`.
pub open spec fn discovery_topic(
    hass_prefix: Seq<char>,
    component: Seq<char>,
    id: Seq<char>,
    signal: Seq<char>,
) -> Seq<char> {
    hass_prefix + "/"@ + component + "/"@ + id + "_"@ + signal + "/config"@
}

/// A sensor is available while the power topic says `ON`.
pub open spec fn powered(topics: TopicsView) -> AvailabilityView {
    AvailabilityView {
        topic: topics.power,
        payload_available: on_payload(),
        payload_not_available: off_payload(),
    }
}

/// The power sensor of the instance called `name`.
pub open spec fn power_sensor(name: Seq<char>, topics: TopicsView) -> SensorConfigView {
    SensorConfigView {
        name: name + " Power"@,
        device_class: Some("power"@),
        state_topic: topics.power,
        availability: None,
    }
}

/// The activity sensor of the instance called `name`.
pub open spec fn active_sensor(name: Seq<char>, topics: TopicsView) -> SensorConfigView {
    SensorConfigView {
        name: name + " Active"@,
        device_class: Some("moving"@),
        state_topic: topics.active,
        availability: Some(powered(topics)),
    }
}

/// The application sensor of the instance called `name`.
pub open spec fn application_sensor(name: Seq<char>, topics: TopicsView) -> SensorConfigView {
    SensorConfigView {
        name: name + " Application"@,
        device_class: None,
        state_topic: topics.application,
        availability: Some(powered(topics)),
    }
}

/// The announcements made at startup: none if the discovery prefix is empty,
/// else one retained message for each of power, activity and application.
pub open spec fn discovery(
    hass_prefix: Seq<char>,
    id: Seq<char>,
    name: Seq<char>,
    topics: TopicsView,
) -> Seq<PublicationView> {
    if hass_prefix.len() == 0 {
        Seq::empty()
    } else {
        seq![
            retained(
                discovery_topic(hass_prefix, "binary_sensor"@, id, "power"@),
                power_sensor(name, topics).json(),
            ),
            retained(
                discovery_topic(hass_prefix, "binary_sensor"@, id, "active"@),
                active_sensor(name, topics).json(),
            ),
            retained(
                discovery_topic(hass_prefix, "sensor"@, id, "application"@),
                application_sensor(name, topics).json(),
            ),
        ]
    }
}

/// The views of a list of messages, in order.
pub open spec fn publication_views(messages: Seq<Publication>) -> Seq<PublicationView> {
    messages.map_values(|message: Publication| message@)
}

/// Builds `hass_prefix/component/id_signal/config`.
fn join_discovery_topic(hass_prefix: &str, component: &str, id: &str, signal: &str) -> (topic:
    String)
    ensures
        topic@ == discovery_topic(hass_prefix@, component@, id@, signal@),
{
    let mut topic = String::from_str(hass_prefix);
    topic.append("/");
    topic.append(component);
    topic.append("/");
    topic.append(id);
    topic.append("_");
    topic.append(signal);
    topic.append("/config");
    topic
}

/// The instance's name followed by `suffix`.
fn sensor_name(name: &str, suffix: &str) -> (full: String)
    ensures
        full@ == name@ + suffix@,
{
    let mut full = String::from_str(name);
    full.append(suffix);
    full
}

/// The availability clause that points at the power topic.
fn powered_by(topics: &Topics) -> (availability: Availability)
    ensures
        availability@ == powered(topics@),
{
    Availability {
        topic: topics.power.clone(),
        payload_available: String::from_str("ON"),
        payload_not_available: String::from_str("OFF"),
    }
}

/// The announcements to publish at startup. With an empty discovery prefix
/// there are none. Otherwise there are three, all retained and delivered at
/// least once, in this order: the power sensor at
/// `<hass_prefix>/binary_sensor/<id>_power/config`, the activity sensor at
/// `<hass_prefix>/binary_sensor/<id>_active/config` and the application sensor
/// at `<hass_prefix>/sensor/<id>_application/config`.
pub fn discovery_messages(settings: &Settings, topics: &Topics) -> (messages: Vec<Publication>)
    ensures
        publication_views(messages@) == discovery(
            settings.hass_prefix@,
            settings.id@,
            settings.name@,
            topics@,
        ),
{
    let mut messages: Vec<Publication> = Vec::new();
    if !settings.discovery_enabled() {
        assert(publication_views(messages@) =~= Seq::<PublicationView>::empty());
        return messages;
    }
    let hass_prefix = settings.hass_prefix.as_str();
    let id = settings.id.as_str();
    let name = settings.name.as_str();

    let power = SensorConfig {
        name: sensor_name(name, " Power"),
        device_class: Some(String::from_str("power")),
        state_topic: topics.power.clone(),
        availability: None,
    };
    messages.push(
        Publication::retained(
            join_discovery_topic(hass_prefix, "binary_sensor", id, "power"),
            power.to_json(),
        ),
    );

    let active = SensorConfig {
        name: sensor_name(name, " Active"),
        device_class: Some(String::from_str("moving")),
        state_topic: topics.active.clone(),
        availability: Some(powered_by(topics)),
    };
    messages.push(
        Publication::retained(
            join_discovery_topic(hass_prefix, "binary_sensor", id, "active"),
            active.to_json(),
        ),
    );

    let application = SensorConfig {
        name: sensor_name(name, " Application"),
        device_class: None,
        state_topic: topics.application.clone(),
        availability: Some(powered_by(topics)),
    };
    messages.push(
        Publication::retained(
            join_discovery_topic(hass_prefix, "sensor", id, "application"),
            application.to_json(),
        ),
    );
    assert(publication_views(messages@) =~= discovery(
        settings.hass_prefix@,
        settings.id@,
        settings.name@,
        topics@,
    ));
    messages
}

} // verus!
