use vr_status::openvr::{
    application_key, c_string, fntable, string_property, string_property_step, ApplicationError,
    FetchStep, VrEvent, EVENT_ENTER_STANDBY_MODE, EVENT_LEAVE_STANDBY_MODE, EVENT_QUIT,
    EVENT_SCENE_APPLICATION_CHANGED, EVENT_SCENE_APPLICATION_STATE_CHANGED,
    MAX_APPLICATION_KEY_LENGTH,
};

#[test]
fn event_codes_are_told_apart() {
    assert_eq!(VrEvent::from_code(EVENT_SCENE_APPLICATION_CHANGED), VrEvent::SceneApplicationChanged);
    assert_eq!(
        VrEvent::from_code(EVENT_SCENE_APPLICATION_STATE_CHANGED),
        VrEvent::SceneApplicationStateChanged
    );
    assert_eq!(VrEvent::from_code(EVENT_ENTER_STANDBY_MODE), VrEvent::EnterStandbyMode);
    assert_eq!(VrEvent::from_code(EVENT_LEAVE_STANDBY_MODE), VrEvent::LeaveStandbyMode);
    assert_eq!(VrEvent::from_code(EVENT_QUIT), VrEvent::Quit);
}

#[test]
fn unknown_event_codes_are_other() {
    for code in [0, 1, 100, 105, 108, 403, 405, 411, 413, 699, 701, -1, i32::MAX, i32::MIN] {
        assert_eq!(VrEvent::from_code(code), VrEvent::Other);
    }
}

#[test]
fn fntable_prefixes_version_and_drops_terminator() {
    assert_eq!(fntable(b"IVRSystem_019\0"), b"FnTable:IVRSystem_019".to_vec());
    assert_eq!(fntable(b"IVRApplications_006\0"), b"FnTable:IVRApplications_006".to_vec());
}

#[test]
fn fntable_of_shortest_version() {
    assert_eq!(fntable(b"A\0"), b"FnTable:A".to_vec());
}

#[test]
fn c_string_stops_at_first_nul() {
    assert_eq!(c_string(b"steam.app.620980\0garbage\0"), b"steam.app.620980".to_vec());
    assert_eq!(c_string(b"\0abc"), Vec::<u8>::new());
}

#[test]
fn c_string_without_nul_takes_everything() {
    assert_eq!(c_string(b"abc"), b"abc".to_vec());
    assert_eq!(c_string(b""), Vec::<u8>::new());
}

#[test]
fn application_key_reads_key_from_full_size_buffer() {
    let mut buffer = vec![0xAAu8; MAX_APPLICATION_KEY_LENGTH as usize];
    buffer[..2].copy_from_slice(b"k\0");
    assert_eq!(application_key(0, &buffer), Ok(b"k".to_vec()));
}

#[test]
fn application_key_reports_error_code() {
    assert_eq!(application_key(114, b"k\0"), Err(ApplicationError { code: 114 }));
    assert_eq!(application_key(-1, b""), Err(ApplicationError { code: -1 }));
}

#[test]
fn string_property_grows_buffer_when_too_small() {
    assert_eq!(string_property_step(0, 5, 0), FetchStep::Grow { capacity: 5 });
    assert_eq!(string_property_step(4, 5, 0), FetchStep::Grow { capacity: 5 });
    assert_eq!(string_property_step(0, u32::MAX, 0), FetchStep::Grow { capacity: u32::MAX });
}

#[test]
fn string_property_is_done_when_text_fits() {
    assert_eq!(string_property_step(5, 5, 0), FetchStep::Done { length: 4 });
    assert_eq!(string_property_step(64, 5, 0), FetchStep::Done { length: 4 });
    assert_eq!(string_property_step(1, 1, 0), FetchStep::Done { length: 0 });
}

#[test]
fn string_property_without_bytes_is_empty() {
    assert_eq!(string_property_step(0, 0, 0), FetchStep::Done { length: 0 });
    assert_eq!(string_property_step(16, 0, 0), FetchStep::Done { length: 0 });
}

#[test]
fn string_property_error_wins() {
    assert_eq!(
        string_property_step(0, 5, 200),
        FetchStep::Failed { error: ApplicationError { code: 200 } }
    );
    assert_eq!(
        string_property_step(8, 5, -3),
        FetchStep::Failed { error: ApplicationError { code: -3 } }
    );
}

#[test]
fn string_property_fetch_settles_in_two_replies() {
    let needed = 5;
    let first = string_property_step(0, needed, 0);
    assert_eq!(first, FetchStep::Grow { capacity: 5 });
    assert_eq!(string_property_step(5, needed, 0), FetchStep::Done { length: 4 });
    assert_eq!(string_property(b"Game\0", 4), Some(String::from("Game")));
}

#[test]
fn string_property_decodes_utf8() {
    assert_eq!(string_property("Größe ✓\0".as_bytes(), 11), Some(String::from("Größe ✓")));
    assert_eq!(string_property(b"Game\0rest", 4), Some(String::from("Game")));
    assert_eq!(string_property(b"Game", 0), Some(String::new()));
}

#[test]
fn string_property_rejects_invalid_utf8() {
    assert_eq!(string_property(&[0x47, 0xFF, 0x00], 2), None);
    assert_eq!(string_property("ö".as_bytes(), 1), None);
}

#[test]
fn string_property_rejects_short_buffer() {
    assert_eq!(string_property(b"Game", 5), None);
    assert_eq!(string_property(b"", 1), None);
}
