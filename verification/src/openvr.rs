//! What the bridge decides about the VR runtime's replies: which events
//! matter, how names and keys are read out of the buffers that the runtime
//! fills, and when a buffer has to grow.

use vstd::prelude::*;
use vstd::utf8::{encode_utf8, valid_utf8};

verus! {

/// Event type: the headset went into standby.
pub const EVENT_ENTER_STANDBY_MODE: i32 = 106;

/// Event type: the headset came out of standby.
pub const EVENT_LEAVE_STANDBY_MODE: i32 = 107;

/// Event type: another application renders the scene.
pub const EVENT_SCENE_APPLICATION_CHANGED: i32 = 404;

/// Event type: the application that renders the scene changed its state.
pub const EVENT_SCENE_APPLICATION_STATE_CHANGED: i32 = 412;

/// Event type: the runtime is about to exit.
pub const EVENT_QUIT: i32 = 700;

/// Size of the buffer that an application key is read into.
pub const MAX_APPLICATION_KEY_LENGTH: u32 = 128;

/// An event of the VR runtime, as far as the bridge tells events apart.
#[derive(Clone, Copy, Debug, PartialEq, Eq, Structural)]
pub enum VrEvent {
    SceneApplicationChanged,
    SceneApplicationStateChanged,
    EnterStandbyMode,
    LeaveStandbyMode,
    Quit,
    /// Any event the bridge has no use for.
    Other,
}

impl VrEvent {
    /// The event that the runtime's event type `code` stands for.
    pub open spec fn of_code(code: i32) -> VrEvent {
        if code == EVENT_SCENE_APPLICATION_CHANGED {
            VrEvent::SceneApplicationChanged
        } else if code == EVENT_SCENE_APPLICATION_STATE_CHANGED {
            VrEvent::SceneApplicationStateChanged
        } else if code == EVENT_ENTER_STANDBY_MODE {
            VrEvent::EnterStandbyMode
        } else if code == EVENT_LEAVE_STANDBY_MODE {
            VrEvent::LeaveStandbyMode
        } else if code == EVENT_QUIT {
            VrEvent::Quit
        } else {
            VrEvent::Other
        }
    }

    /// The event that the runtime's event type `code` stands for.
    pub fn from_code(code: i32) -> (event: VrEvent)
        ensures
            event == VrEvent::of_code(code),
    {
        if code == EVENT_SCENE_APPLICATION_CHANGED {
            VrEvent::SceneApplicationChanged
        } else if code == EVENT_SCENE_APPLICATION_STATE_CHANGED {
            VrEvent::SceneApplicationStateChanged
        } else if code == EVENT_ENTER_STANDBY_MODE {
            VrEvent::EnterStandbyMode
        } else if code == EVENT_LEAVE_STANDBY_MODE {
            VrEvent::LeaveStandbyMode
        } else if code == EVENT_QUIT {
            VrEvent::Quit
        } else {
            VrEvent::Other
        }
    }
}

/// The bytes of `FnTable:`.
pub open spec fn fntable_prefix() -> Seq<u8> {
    seq![70u8, 110u8, 84u8, 97u8, 98u8, 108u8, 101u8, 58u8]
}

/// The name under which the runtime hands out the function table of the
/// interface `version`: `FnTable:` followed by the version. `version` ends
/// with a NUL byte, the result has none at its end.
pub fn fntable(version: &[u8]) -> (name: Vec<u8>)
    requires
        version@.len() > 1,
        forall|i: int| 0 <= i < version@.len() - 2 ==> version@[i] != 0,
        version@[version@.len() - 1] == 0,
    ensures
        name@ == fntable_prefix() + version@.drop_last(),
{
    let mut name: Vec<u8> = Vec::new();
    name.push(70);
    name.push(110);
    name.push(84);
    name.push(97);
    name.push(98);
    name.push(108);
    name.push(101);
    name.push(58);
    assert(name@ == fntable_prefix());
    let end: usize = version.len() - 1;
    let mut i: usize = 0;
    while i < end
        invariant
            end == version@.len() - 1,
            i <= end,
            name@ == fntable_prefix() + version@.take(i as int),
        decreases end - i,
    {
        name.push(version[i]);
        assert(version@.take(i + 1) == version@.take(i as int).push(version@[i as int]));
        i = i + 1;
    }
    assert(version@.take(end as int) == version@.drop_last());
    name
}

/// Whether `text` is the C string at the start of `buffer`: the bytes before
/// the first NUL, or all of them if there is none.
pub open spec fn is_c_string_of(text: Seq<u8>, buffer: Seq<u8>) -> bool {
    &&& text.len() <= buffer.len()
    &&& text == buffer.take(text.len() as int)
    &&& forall|i: int| 0 <= i < text.len() ==> text[i] != 0
    &&& text.len() < buffer.len() ==> buffer[text.len() as int] == 0
}

/// The C string at the start of `buffer`.
pub fn c_string(buffer: &[u8]) -> (text: Vec<u8>)
    ensures
        is_c_string_of(text@, buffer@),
{
    let mut text: Vec<u8> = Vec::new();
    let mut i: usize = 0;
    while i < buffer.len() && buffer[i] != 0
        invariant
            i <= buffer@.len(),
            text@ == buffer@.take(i as int),
            forall|j: int| 0 <= j < i ==> buffer@[j] != 0,
        decreases buffer@.len() - i,
    {
        text.push(buffer[i]);
        assert(buffer@.take(i + 1) == buffer@.take(i as int).push(buffer@[i as int]));
        i = i + 1;
    }
    text
}

/// A buffer holds at most one C string: the text is determined by the
/// buffer.
pub proof fn lemma_c_string_unique(a: Seq<u8>, b: Seq<u8>, buffer: Seq<u8>)
    requires
        is_c_string_of(a, buffer),
        is_c_string_of(b, buffer),
    ensures
        a == b,
{
    if a.len() < b.len() {
        assert(b[a.len() as int] == buffer[a.len() as int]);
    } else if b.len() < a.len() {
        assert(a[b.len() as int] == buffer[b.len() as int]);
    }
}

/// An error code of the runtime's application registry.
#[derive(Clone, Copy, Debug, PartialEq, Eq, Structural)]
pub struct ApplicationError {
    pub code: i32,
}

/// Reads the runtime's reply to a lookup of an application key: the key that
/// was written into `buffer`, or the error if `error` is not zero.
pub fn application_key(error: i32, buffer: &[u8]) -> (key: Result<Vec<u8>, ApplicationError>)
    ensures
        error == 0 ==> key is Ok && is_c_string_of(key->Ok_0@, buffer@),
        error != 0 ==> key == Err::<Vec<u8>, ApplicationError>(ApplicationError { code: error }),
{
    if error != 0 {
        Err(ApplicationError { code: error })
    } else {
        Ok(c_string(buffer))
    }
}

/// What to do after the runtime answered a request for a string property.
#[derive(Clone, Copy, Debug, PartialEq, Eq, Structural)]
pub enum FetchStep {
    /// The buffer was too small: ask again with room for `capacity` bytes.
    Grow { capacity: u32 },
    /// The buffer holds the text in its first `length` bytes.
    Done { length: u32 },
    /// The runtime reported an error.
    Failed { error: ApplicationError },
}

/// The step that follows a reply. `capacity` is the size of the buffer that
/// was offered, `needed` the number of bytes that the runtime needs for the
/// text and its terminating NUL, `error` its error code. A reply that needs
/// no byte at all stands for the empty text.
pub open spec fn fetch_step(capacity: u32, needed: u32, error: i32) -> FetchStep {
    if error != 0 {
        FetchStep::Failed { error: ApplicationError { code: error } }
    } else if needed > capacity {
        FetchStep::Grow { capacity: needed }
    } else if needed > 0 {
        FetchStep::Done { length: (needed - 1) as u32 }
    } else {
        FetchStep::Done { length: 0 }
    }
}

/// Decides what follows the runtime's reply to a request for a string
/// property: give up on an error, ask again with a larger buffer if the text
/// did not fit, else take the text without its terminating NUL.
pub fn string_property_step(capacity: u32, needed: u32, error: i32) -> (step: FetchStep)
    ensures
        step == fetch_step(capacity, needed, error),
{
    if error != 0 {
        FetchStep::Failed { error: ApplicationError { code: error } }
    } else if needed > capacity {
        FetchStep::Grow { capacity: needed }
    } else if needed > 0 {
        FetchStep::Done { length: needed - 1 }
    } else {
        FetchStep::Done { length: 0 }
    }
}

/// The request for a string property ends after at most two replies without
/// error, if the runtime needs the same number of bytes both times: the
/// buffer that the first reply asks for is large enough for the second.
pub proof fn lemma_fetch_settles(capacity: u32, needed: u32)
    ensures
        fetch_step(capacity, needed, 0) matches FetchStep::Grow { capacity: larger } ==> fetch_step(
            larger,
            needed,
            0,
        ) is Done,
{
}

/// Calls `String::from_utf8`. The contract says what std documents: the
/// conversion succeeds exactly on valid UTF-8, and the string then consists
/// of the bytes that were given.
#[verifier::external_body]
fn string_from_utf8(bytes: Vec<u8>) -> (text: Option<String>)
    ensures
        text is Some <==> valid_utf8(bytes@),
        text is Some ==> encode_utf8(text->Some_0@) == bytes@,
{
    String::from_utf8(bytes).ok()
}

/// The text in the first `length` bytes of `buffer`, if there are that many
/// and they are valid UTF-8.
pub fn string_property(buffer: &[u8], length: u32) -> (text: Option<String>)
    ensures
        text is Some <==> length <= buffer@.len() && valid_utf8(buffer@.take(length as int)),
        text is Some ==> encode_utf8(text->Some_0@) == buffer@.take(length as int),
{
    if length as usize > buffer.len() {
        return None;
    }
    let mut bytes: Vec<u8> = Vec::new();
    let mut i: usize = 0;
    while i < length as usize
        invariant
            length <= buffer@.len(),
            i <= length,
            bytes@ == buffer@.take(i as int),
        decreases length - i,
    {
        bytes.push(buffer[i]);
        assert(buffer@.take(i + 1) == buffer@.take(i as int).push(buffer@[i as int]));
        i = i + 1;
    }
    string_from_utf8(bytes)
}

} // verus!
