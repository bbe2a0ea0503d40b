use serde_json::Value;
use vr_status::discovery::{discovery_messages, Availability, SensorConfig};
use vr_status::json::{availability_json, sensor_json};
use vr_status::message::{QoS, Topics};
use vr_status::settings::{MqttSettings, MqttTransport, Settings};

fn settings(hass_prefix: &str, id: &str, name: &str) -> Settings {
    Settings {
        id: String::from(id),
        name: String::from(name),
        prefix: String::from("vr-status"),
        hass_prefix: String::from(hass_prefix),
        mqtt: MqttSettings {
            host: String::from("localhost"),
            port: None,
            transport: MqttTransport::Tls,
            credentials: None,
        },
    }
}

fn text(value: &str) -> Value {
    Value::String(String::from(value))
}

fn availability(power_topic: &str) -> Value {
    let mut clause = serde_json::Map::new();
    clause.insert(String::from("topic"), text(power_topic));
    clause.insert(String::from("payload_available"), text("ON"));
    clause.insert(String::from("payload_not_available"), text("OFF"));
    Value::Array(vec![Value::Object(clause)])
}

#[test]
fn discovery_announces_three_sensors() {
    let settings = settings("homeassistant", "foo", "Headset");
    let topics = Topics::new(&settings);
    let messages = discovery_messages(&settings, &topics);
    assert_eq!(messages.len(), 3);
    assert_eq!(messages[0].topic, "homeassistant/binary_sensor/foo_power/config");
    assert_eq!(messages[1].topic, "homeassistant/binary_sensor/foo_active/config");
    assert_eq!(messages[2].topic, "homeassistant/sensor/foo_application/config");
    for message in &messages {
        assert!(message.retain);
        assert_eq!(message.qos, QoS::AtLeastOnce);
    }
}

#[test]
fn discovery_payloads_are_exact() {
    let settings = settings("homeassistant", "foo", "Headset");
    let topics = Topics::new(&settings);
    let messages = discovery_messages(&settings, &topics);
    assert_eq!(
        messages[0].payload,
        "{\"device_class\":\"power\",\"name\":\"Headset Power\",\"state_topic\":\"vr-status/foo/power\"}"
    );
    assert_eq!(
        messages[1].payload,
        "{\"availability\":[{\"payload_available\":\"ON\",\"payload_not_available\":\"OFF\",\"topic\":\"vr-status/foo/power\"}],\"device_class\":\"moving\",\"name\":\"Headset Active\",\"state_topic\":\"vr-status/foo/active\"}"
    );
    assert_eq!(
        messages[2].payload,
        "{\"availability\":[{\"payload_available\":\"ON\",\"payload_not_available\":\"OFF\",\"topic\":\"vr-status/foo/power\"}],\"name\":\"Headset Application\",\"state_topic\":\"vr-status/foo/application\"}"
    );
}

#[test]
fn discovery_payloads_match_serde_json_documents() {
    let settings = settings("hass", "id-1", "Living \"room\"\n\\headset");
    let topics = Topics::new(&settings);
    let messages = discovery_messages(&settings, &topics);

    let mut power = serde_json::Map::new();
    power.insert(String::from("name"), text("Living \"room\"\n\\headset Power"));
    power.insert(String::from("device_class"), text("power"));
    power.insert(String::from("state_topic"), text("vr-status/id-1/power"));
    let power = Value::Object(power);

    let mut active = serde_json::Map::new();
    active.insert(String::from("name"), text("Living \"room\"\n\\headset Active"));
    active.insert(String::from("device_class"), text("moving"));
    active.insert(String::from("state_topic"), text("vr-status/id-1/active"));
    active.insert(String::from("availability"), availability("vr-status/id-1/power"));
    let active = Value::Object(active);

    let mut application = serde_json::Map::new();
    application.insert(String::from("name"), text("Living \"room\"\n\\headset Application"));
    application.insert(String::from("state_topic"), text("vr-status/id-1/application"));
    application.insert(String::from("availability"), availability("vr-status/id-1/power"));
    let application = Value::Object(application);

    let expected = [power, active, application];
    for (message, document) in messages.iter().zip(expected.iter()) {
        assert_eq!(message.payload, serde_json::to_string(document).unwrap());
        let parsed: Value = serde_json::from_str(&message.payload).unwrap();
        assert_eq!(&parsed, document);
    }
}

#[test]
fn empty_discovery_prefix_announces_nothing() {
    let settings = settings("", "foo", "Headset");
    let topics = Topics::new(&settings);
    assert!(discovery_messages(&settings, &topics).is_empty());
}

#[test]
fn sensor_config_escapes_strings() {
    let config = SensorConfig {
        name: String::from("a\"b"),
        device_class: None,
        state_topic: String::from("t\\u"),
        availability: None,
    };
    assert_eq!(config.to_json(), "{\"name\":\"a\\\"b\",\"state_topic\":\"t\\\\u\"}");
}

#[test]
fn sensor_config_with_all_members() {
    let config = SensorConfig {
        name: String::from("n"),
        device_class: Some(String::from("c")),
        state_topic: String::from("s"),
        availability: Some(Availability {
            topic: String::from("p"),
            payload_available: String::from("yes"),
            payload_not_available: String::from("no"),
        }),
    };
    assert_eq!(
        config.to_json(),
        "{\"availability\":[{\"payload_available\":\"yes\",\"payload_not_available\":\"no\",\"topic\":\"p\"}],\"device_class\":\"c\",\"name\":\"n\",\"state_topic\":\"s\"}"
    );
}

#[test]
fn availability_to_json_quotes_each_value() {
    let clause = Availability {
        topic: String::from("a/b"),
        payload_available: String::from("ON"),
        payload_not_available: String::from("OFF"),
    };
    assert_eq!(
        clause.to_json(),
        "[{\"payload_available\":\"ON\",\"payload_not_available\":\"OFF\",\"topic\":\"a/b\"}]"
    );
}

#[test]
fn availability_json_joins_literals() {
    assert_eq!(
        availability_json("1", "2", "3"),
        "[{\"payload_available\":2,\"payload_not_available\":3,\"topic\":1}]"
    );
}

#[test]
fn sensor_json_joins_literals() {
    assert_eq!(sensor_json("1", None, "2", None), "{\"name\":1,\"state_topic\":2}");
    assert_eq!(
        sensor_json("1", Some("3"), "2", None),
        "{\"device_class\":3,\"name\":1,\"state_topic\":2}"
    );
    assert_eq!(
        sensor_json("1", None, "2", Some("[]")),
        "{\"availability\":[],\"name\":1,\"state_topic\":2}"
    );
    assert_eq!(
        sensor_json("1", Some("3"), "2", Some("[]")),
        "{\"availability\":[],\"device_class\":3,\"name\":1,\"state_topic\":2}"
    );
}
