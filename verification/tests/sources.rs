use eyetrackvr_server::android_serial_watcher::{
    after_permission_check, after_permission_request, claim_dispatcher, known_cameras,
    DispatcherRegistry, HotplugStep, PermissionCheck, PermissionRequest, SERIAL_READ_TIMEOUT,
};
use eyetrackvr_server::camera_manager::{camera_source_from_uri, parse_index, CameraSourceKind};
use eyetrackvr_server::camera_sources::http_camera_source::{
    boundary_of, multipart_boundary, ContentType, ContentTypeError, HttpCameraSource,
    HTTP_CONNECTION_TIMEOUT,
};
use eyetrackvr_server::camera_sources::uvc_camera_source::{
    UvcCameraSource, UVC_FRAME_HEIGHT, UVC_FRAME_RATE, UVC_FRAME_WIDTH,
};
use eyetrackvr_server::camera_sources::{
    next_action, FpsCounter, SourceAction, SourceEvent, RECONNECT_DELAY,
};
use eyetrackvr_server::desktop::DispatcherKind;
use eyetrackvr_server::structs::Eye;
use eyetrackvr_server::text::{starts_with, str_eq};

const SECOND: u64 = 1_000_000_000;

#[test]
fn strings_are_compared_character_by_character() {
    assert!(str_eq("", ""));
    assert!(str_eq("xrLocateSpace", "xrLocateSpace"));
    assert!(!str_eq("xrLocateSpace", "xrLocateSpaces"));
    assert!(!str_eq("a", "A"));
    assert!(str_eq("käfer€", "käfer€"));
    assert!(!str_eq("käfer", "kafer"));
    assert!(starts_with("http://x", "http://"));
    assert!(starts_with("COM", "COM"));
    assert!(!starts_with("CO", "COM"));
    assert!(!starts_with("xhttp://", "http://"));
    assert!(starts_with("anything", ""));
    assert!(starts_with("äöü", "äö"));
    assert!(!starts_with("aöü", "äö"));
}

#[test]
fn index_is_read_as_the_standard_library_reads_it() {
    let samples = [
        "0", "7", "42", "007", "+5", "+", "", "-1", "-0", "4294967295", "4294967296",
        "99999999999999999999", "12a", "a12", " 1", "1 ", "1_000", "+-1", "++1", "٣", "0x10",
        "+4294967295", "+4294967296", "000000000000000000001",
    ];
    for sample in samples {
        assert_eq!(parse_index(sample), sample.parse::<u32>().ok(), "{sample:?}");
    }
    assert_eq!(parse_index("120"), Some(120));
}

#[test]
fn uri_names_the_source() {
    match camera_source_from_uri("http://192.168.1.10:81/stream".to_string()) {
        Some(CameraSourceKind::Http(source)) => {
            assert_eq!(source.url(), "http://192.168.1.10:81/stream")
        },
        other => panic!("unexpected {other:?}"),
    }
    match camera_source_from_uri("uvc://3".to_string()) {
        Some(CameraSourceKind::Uvc(source)) => assert_eq!(source.uvc_index(), 3),
        other => panic!("unexpected {other:?}"),
    }
    assert!(matches!(camera_source_from_uri("COM4".to_string()), Some(CameraSourceKind::Serial(_))));
    assert!(matches!(
        camera_source_from_uri("COMhttp://".to_string()),
        Some(CameraSourceKind::Serial(_))
    ));
    for bad in ["", "https://x", "uvc://", "uvc://x", "uvc://-1", "uvc:/1", "Http://x", "com3", "ftp://x"] {
        assert!(camera_source_from_uri(bad.to_string()).is_none(), "{bad:?}");
    }
}

#[test]
fn sources_carry_what_they_were_made_of() {
    assert_eq!(HttpCameraSource::new("http://a".to_string()).url(), "http://a");
    assert_eq!(UvcCameraSource::new(9).uvc_index(), 9);
    assert_eq!((UVC_FRAME_WIDTH, UVC_FRAME_HEIGHT, UVC_FRAME_RATE), (320, 240, 120));
    assert_eq!(HTTP_CONNECTION_TIMEOUT, SECOND);
    assert_eq!(RECONNECT_DELAY, SECOND);
    assert_eq!(SERIAL_READ_TIMEOUT, 300_000_000);
}

#[test]
fn source_reconnects_on_failure_and_skips_bad_frames() {
    assert_eq!(next_action(SourceEvent::ConnectFailed), SourceAction::Reconnect);
    assert_eq!(next_action(SourceEvent::StreamFailed), SourceAction::Reconnect);
    assert_eq!(next_action(SourceEvent::FrameUndecodable), SourceAction::Skip);
    assert_eq!(next_action(SourceEvent::FrameDecoded), SourceAction::Dispatch);
}

#[test]
fn content_type_must_be_multipart_with_a_boundary() {
    assert_eq!(
        multipart_boundary("multipart/x-mixed-replace;boundary=123456789000000000000987654321"),
        Ok("123456789000000000000987654321".to_string())
    );
    assert_eq!(multipart_boundary("multipart/x-mixed-replace; boundary=ABCdef"), Ok("ABCdef".to_string()));
    assert_eq!(multipart_boundary("Multipart/Form-Data; boundary=\"a b\""), Ok("a b".to_string()));
    assert_eq!(multipart_boundary("image/jpeg"), Err(ContentTypeError::NotMultipart));
    assert_eq!(multipart_boundary("text/plain; boundary=x"), Err(ContentTypeError::NotMultipart));
    assert_eq!(multipart_boundary("multipart/x-mixed-replace"), Err(ContentTypeError::NoBoundary));
    assert_eq!(multipart_boundary("multipart/mixed; charset=utf-8"), Err(ContentTypeError::NoBoundary));
    assert_eq!(multipart_boundary("not a content type"), Err(ContentTypeError::Malformed));
    assert_eq!(multipart_boundary(""), Err(ContentTypeError::Malformed));
}

#[test]
fn boundary_of_parsed_content_types() {
    let parsed = |top: &str, boundary: Option<&str>| {
        Some(ContentType { top_level: top.to_string(), boundary: boundary.map(|b| b.to_string()) })
    };
    assert_eq!(boundary_of(None), Err(ContentTypeError::Malformed));
    assert_eq!(boundary_of(parsed("multipart", Some("b"))), Ok("b".to_string()));
    assert_eq!(boundary_of(parsed("multipart", None)), Err(ContentTypeError::NoBoundary));
    assert_eq!(boundary_of(parsed("image", Some("b"))), Err(ContentTypeError::NotMultipart));
    assert_eq!(boundary_of(parsed("Multipart", Some("b"))), Err(ContentTypeError::NotMultipart));
}

#[test]
fn frames_are_counted_second_by_second() {
    let mut counter = FpsCounter::new(10 * SECOND);
    assert_eq!((counter.last_second, counter.frames_since_last_second), (10 * SECOND, 0));
    for i in 0..60 {
        assert_eq!(counter.update_fps(10 * SECOND + i * 16_000_000), None);
    }
    assert_eq!(counter.frames_since_last_second, 60);
    assert_eq!(counter.update_fps(11 * SECOND - 1), None);
    assert_eq!(counter.update_fps(11 * SECOND), Some(61));
    assert_eq!((counter.last_second, counter.frames_since_last_second), (11 * SECOND, 1));
    // A clock that runs backwards does not end the second.
    assert_eq!(counter.update_fps(5 * SECOND), None);
    assert_eq!(counter.frames_since_last_second, 2);
    counter.frames_since_last_second = u32::MAX;
    assert_eq!(counter.update_fps(11 * SECOND + 1), None);
    assert_eq!(counter.frames_since_last_second, u32::MAX);
}

#[test]
fn dispatcher_is_taken_out_and_put_back() {
    let mut registry: DispatcherRegistry<&'static str> = DispatcherRegistry::new();
    assert_eq!(registry.len(), 0);
    assert_eq!(registry.insert("AA:BB:CC".to_string(), "left"), None);
    assert_eq!(registry.insert("11:22:33".to_string(), "right"), None);
    assert_eq!(registry.len(), 2);
    assert_eq!(registry.remove("aa:bb:cc"), None);
    assert_eq!(registry.remove("AA:BB:C"), None);
    assert_eq!(registry.len(), 2);
    assert_eq!(registry.remove("AA:BB:CC"), Some("left"));
    assert_eq!(registry.remove("AA:BB:CC"), None);
    assert_eq!(registry.len(), 1);
    assert_eq!(registry.insert("AA:BB:CC".to_string(), "left"), None);
    assert_eq!(registry.remove("AA:BB:CC"), Some("left"));
    assert_eq!(registry.remove("11:22:33"), Some("right"));
    assert_eq!(registry.len(), 0);
}

#[test]
fn later_registration_replaces_the_earlier() {
    let mut registry: DispatcherRegistry<u8> = DispatcherRegistry::new();
    assert_eq!(registry.insert("x".to_string(), 1), None);
    assert_eq!(registry.insert("x".to_string(), 2), Some(1));
    assert_eq!(registry.len(), 1);
    assert_eq!(registry.remove("x"), Some(2));
}

#[test]
fn unknown_device_is_passed_over() {
    let mut registry: DispatcherRegistry<u8> = DispatcherRegistry::new();
    registry.insert("known".to_string(), 7);
    assert_eq!(claim_dispatcher(&mut registry, None), None);
    assert_eq!(claim_dispatcher(&mut registry, Some("unknown")), None);
    assert_eq!(registry.len(), 1);
    registry.insert("other".to_string(), 8);
    assert_eq!(claim_dispatcher(&mut registry, Some("known")), Some(7));
    assert_eq!(registry.len(), 1);
    assert_eq!(claim_dispatcher(&mut registry, Some("known")), None);
    assert_eq!(registry.len(), 1);
    assert_eq!(claim_dispatcher(&mut registry, Some("other")), Some(8));
}

#[test]
fn device_needs_permission() {
    assert_eq!(after_permission_check(PermissionCheck::Granted), HotplugStep::ResolveSerial);
    assert_eq!(after_permission_check(PermissionCheck::NotGranted), HotplugStep::RequestPermission);
    assert_eq!(after_permission_check(PermissionCheck::Failed), HotplugStep::Skip);
    assert_eq!(after_permission_request(PermissionRequest::Allowed), HotplugStep::ResolveSerial);
    assert_eq!(after_permission_request(PermissionRequest::Denied), HotplugStep::Skip);
    assert_eq!(after_permission_request(PermissionRequest::Unavailable), HotplugStep::Skip);
    assert_eq!(after_permission_request(PermissionRequest::Failed), HotplugStep::Skip);
}

#[test]
fn cameras_of_the_headset() {
    let cameras: Vec<(&str, DispatcherKind)> =
        known_cameras().into_iter().map(|c| (c.serial, c.dispatcher)).collect();
    assert_eq!(
        cameras,
        vec![
            ("30:30:F9:33:DD:7C", DispatcherKind::MonoEye(Eye::L)),
            ("30:30:F9:17:F3:C4", DispatcherKind::MonoEye(Eye::R)),
            ("DC:DA:0C:18:32:34", DispatcherKind::MonoFace),
        ]
    );
    let mut registry = DispatcherRegistry::new();
    for camera in known_cameras() {
        assert_eq!(registry.insert(camera.serial.to_string(), camera.dispatcher), None);
    }
    assert_eq!(registry.remove("30:30:f9:33:dd:7c"), None);
    assert_eq!(registry.remove("30:30:F9:17:F3:C4"), Some(DispatcherKind::MonoEye(Eye::R)));
}
