//! JSON text of discovery documents.
//!
//! String values are turned into JSON string literals by `serde_json`; this
//! module puts the literals together into the objects that are announced.

use vstd::prelude::*;

verus! {

/// The JSON string literal that stands for `text`: the text between double
/// quotes, with the escapes that JSON asks for.
pub uninterp spec fn json_string_literal(text: Seq<char>) -> Seq<char>;

/// Calls `serde_json::to_string` on a string slice. The contract gives the
/// result its name and claims that the call succeeds: serialising a string
/// slice involves no map key and no fallible `Serialize` impl, and writes to
/// memory only.
#[verifier::external_body]
pub(crate) fn json_string(text: &str) -> (literal: String)
    ensures
        literal@ == json_string_literal(text@),
{
    serde_json::to_string(text).unwrap()
}

/// The availability clause of a sensor: a list of one object. The three
/// arguments are JSON literals.
pub open spec fn availability_text(
    topic: Seq<char>,
    available: Seq<char>,
    not_available: Seq<char>,
) -> Seq<char> {
    "[{\"payload_available\":"@ + available + ",\"payload_not_available\":"@ + not_available
        + ",\"topic\":"@ + topic + "}]"@
}

/// The member `"key":value,` of an object if there is a value, else nothing.
/// `key` is the member's name with its quotes and colon.
pub open spec fn optional_member(key: Seq<char>, value: Option<Seq<char>>) -> Seq<char> {
    match value {
        Some(value) => key + value + ","@,
        None => Seq::empty(),
    }
}

/// The configuration object of a sensor, members in alphabetical order. The
/// arguments are JSON texts: literals for the name, the device class and the
/// state topic, a list for the availability.
pub open spec fn sensor_text(
    name: Seq<char>,
    device_class: Option<Seq<char>>,
    state_topic: Seq<char>,
    availability: Option<Seq<char>>,
) -> Seq<char> {
    "{"@ + optional_member("\"availability\":"@, availability) + optional_member(
        "\"device_class\":"@,
        device_class,
    ) + "\"name\":"@ + name + ",\"state_topic\":"@ + state_topic + "}"@
}

/// Puts an availability clause together from three JSON literals.
pub fn availability_json(topic: &str, available: &str, not_available: &str) -> (text: String)
    ensures
        text@ == availability_text(topic@, available@, not_available@),
{
    let mut text = String::from_str("[{\"payload_available\":");
    text.append(available);
    text.append(",\"payload_not_available\":");
    text.append(not_available);
    text.append(",\"topic\":");
    text.append(topic);
    text.append("}]");
    text
}

/// Appends the member `"key":value,` to `text` if there is a value.
fn append_optional_member(text: &mut String, key: &str, value: Option<&str>)
    ensures
        final(text)@ == old(text)@ + optional_member(key@, option_text(value)),
{
    match value {
        Some(value) => {
            let ghost before = text@;
            text.append(key);
            text.append(value);
            text.append(",");
            assert(text@ == before + (key@ + value@ + ","@));
        },
        None => {
            assert(text@ == text@ + Seq::<char>::empty());
        },
    }
}

/// The text behind an optional string slice.
pub open spec fn option_text(value: Option<&str>) -> Option<Seq<char>> {
    match value {
        Some(value) => Some(value@),
        None => None,
    }
}

/// Puts a sensor's configuration object together from JSON texts.
pub fn sensor_json(
    name: &str,
    device_class: Option<&str>,
    state_topic: &str,
    availability: Option<&str>,
) -> (text: String)
    ensures
        text@ == sensor_text(
            name@,
            option_text(device_class),
            state_topic@,
            option_text(availability),
        ),
{
    let mut text = String::from_str("{");
    append_optional_member(&mut text, "\"availability\":", availability);
    append_optional_member(&mut text, "\"device_class\":", device_class);
    text.append("\"name\":");
    text.append(name);
    text.append(",\"state_topic\":");
    text.append(state_topic);
    text.append("}");
    text
}

} // verus!
