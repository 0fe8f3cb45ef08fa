use eyetrackvr_server::camera::{Frame, Rect, RgbImage};
use eyetrackvr_server::camera_server::{
    route, serve_eye, serve_face, stream_content_type, MirroredCamera, CAMERA_SERVER_PORT,
    PART_BOUNDARY, PART_CONTENT_TYPE, STATUS_NOT_FOUND,
};
use eyetrackvr_server::desktop::{
    camera_wirings, start_desktop_tasks, Args, ArgsError, DispatcherKind, Stage,
    EXIT_CONFLICTING_CAMERAS,
};
use eyetrackvr_server::frame_server::{
    after_frame, capture_request, encode_view, eye_letter, image_path, message_path, on_message,
    parse_capture_request, views_to_capture, CaptureAction, CaptureError, CaptureRequest,
    CapturedView, MessageAction, ACKNOWLEDGEMENT, DATETIME_FORMAT, FRAMES_PER_CAPTURE,
    FRAME_SERVER_PORT,
};
use eyetrackvr_server::osc_sender::{
    vrcft_v2_messages, vrchat_native_messages, OscArgument, DEFAULT_OSC_ENDPOINT,
    EYELID_NEUTRAL_HUNDREDTHS,
};
use eyetrackvr_server::structs::{Eye, EyesFrame, EyesFrameType};

fn picture(width: u32, height: u32) -> RgbImage {
    let data: Vec<u8> = (0..width * height * 3).map(|i| (i % 253) as u8).collect();
    RgbImage::from_raw(width, height, data).unwrap()
}

fn frame_of(frame_type: EyesFrameType, width: u32, height: u32) -> EyesFrame {
    EyesFrame {
        frame_type,
        frame: Frame { raw_jpeg_data: None, decoded: picture(width, height), timestamp: 1 },
    }
}

#[test]
fn capture_message_names_its_views() {
    assert_eq!(
        parse_capture_request(r#"{"l": 1, "r": [0.5, 2]}"#),
        Some(CaptureRequest { need_l_view: true, need_r_view: true })
    );
    assert_eq!(
        parse_capture_request(r#"{"l": null}"#),
        Some(CaptureRequest { need_l_view: true, need_r_view: false })
    );
    assert_eq!(
        parse_capture_request(r#"{"R": 1, "x": {"r": 1}}"#),
        Some(CaptureRequest { need_l_view: false, need_r_view: false })
    );
    assert_eq!(
        parse_capture_request(r#"["l", "r"]"#),
        Some(CaptureRequest { need_l_view: false, need_r_view: false })
    );
    assert_eq!(parse_capture_request(r#"{"l": 1"#), None);
    assert_eq!(parse_capture_request(""), None);
    let message: serde_json::Value = serde_json::from_str(r#"{"r": true}"#).unwrap();
    assert_eq!(capture_request(&message), CaptureRequest { need_l_view: false, need_r_view: true });
}

#[test]
fn malformed_line_drops_the_connection() {
    assert_eq!(
        on_message(r#"{"l": 1}"#),
        MessageAction::Capture(CaptureRequest { need_l_view: true, need_r_view: false })
    );
    assert_eq!(
        on_message("7"),
        MessageAction::Capture(CaptureRequest { need_l_view: false, need_r_view: false })
    );
    assert_eq!(on_message(r#"{"l": 1"#), MessageAction::DropConnection);
    assert_eq!(on_message("capture!"), MessageAction::DropConnection);
    assert_eq!(on_message(""), MessageAction::DropConnection);
}

#[test]
fn three_stereo_frames_are_saved_and_then_acknowledged() {
    let both = frame_of(EyesFrameType::Both, 480, 240);
    assert_eq!(after_frame(FRAMES_PER_CAPTURE, &both), CaptureAction::Save { frames_left: 2 });
    assert_eq!(after_frame(2, &both), CaptureAction::Save { frames_left: 1 });
    assert_eq!(after_frame(1, &both), CaptureAction::SaveAndAcknowledge);
    assert_eq!(after_frame(0, &both), CaptureAction::SaveAndAcknowledge);
}

#[test]
fn mono_frame_ends_the_request_without_an_answer() {
    for mono in [EyesFrameType::Left, EyesFrameType::Rigth] {
        let frame = frame_of(mono, 480, 240);
        for frames_left in [3, 2, 1, 0] {
            assert_eq!(after_frame(frames_left, &frame), CaptureAction::Reject);
        }
    }
}

#[test]
fn capture_saves_the_views_of_stereo_frames_only() {
    let both = frame_of(EyesFrameType::Both, 480, 240);
    let left = CapturedView { eye: Eye::L, view: Rect { x: 0, y: 0, width: 240, height: 240 } };
    let right = CapturedView { eye: Eye::R, view: Rect { x: 240, y: 0, width: 240, height: 240 } };
    let request = |l, r| CaptureRequest { need_l_view: l, need_r_view: r };
    assert_eq!(views_to_capture(&request(true, true), &both), Ok(vec![left, right]));
    assert_eq!(views_to_capture(&request(true, false), &both), Ok(vec![left]));
    assert_eq!(views_to_capture(&request(false, true), &both), Ok(vec![right]));
    assert_eq!(views_to_capture(&request(false, false), &both), Ok(vec![]));
    for mono in [EyesFrameType::Left, EyesFrameType::Rigth] {
        let frame = frame_of(mono, 480, 240);
        assert_eq!(views_to_capture(&request(true, true), &frame), Err(CaptureError::MonoFrame));
    }
    assert_eq!(FRAMES_PER_CAPTURE, 3);
    assert_eq!(FRAME_SERVER_PORT, 7070);
    assert_eq!(ACKNOWLEDGEMENT, "k");
}

#[test]
fn captured_view_is_encoded_as_jpeg() {
    let image = picture(8, 4);
    let view = Rect { x: 4, y: 0, width: 4, height: 4 };
    let file = encode_view(&image, view).unwrap();
    assert_eq!(&file[..2], &[0xFF, 0xD8]);
    assert_eq!(Some(file.clone()), image.crop(view).unwrap().to_jpeg());
    let decoded = RgbImage::decode_jpeg(&file).unwrap();
    assert_eq!((decoded.width(), decoded.height()), (4, 4));
    assert!(encode_view(&image, Rect { x: 5, y: 0, width: 4, height: 4 }).is_none());
    // A view without pixels lies within the picture, but no JPEG file holds it.
    assert!(encode_view(&image, Rect { x: 2, y: 1, width: 0, height: 2 }).is_none());
}

#[test]
fn captured_files_are_named_by_the_time() {
    let stamp = "2024-03-09_17-05-42.123";
    assert_eq!(message_path(stamp), "./images/2024-03-09_17-05-42.123.json");
    assert_eq!(image_path(stamp, Eye::L), "./images/2024-03-09_17-05-42.123_L.jpg");
    assert_eq!(image_path(stamp, Eye::R), "./images/2024-03-09_17-05-42.123_R.jpg");
    assert_eq!(eye_letter(Eye::L), 'L');
    assert_eq!(eye_letter(Eye::R), 'R');
    assert_eq!(DATETIME_FORMAT, "%Y-%m-%d_%H-%M-%S%.3f");
}

#[test]
fn mirror_paths() {
    assert_eq!(route("/L"), Some(MirroredCamera::LeftEye));
    assert_eq!(route("/R"), Some(MirroredCamera::RightEye));
    assert_eq!(route("/F"), Some(MirroredCamera::Face));
    for path in ["/", "", "/l", "/L/", "/LR", "L", "/index.html"] {
        assert_eq!(route(path), None, "{path:?}");
    }
    assert_eq!(STATUS_NOT_FOUND, 404);
    assert_eq!(CAMERA_SERVER_PORT, 8881);
    assert_eq!(PART_CONTENT_TYPE, "image/jpeg");
    assert_eq!(
        stream_content_type(),
        "multipart/x-mixed-replace;boundary=123456789000000000000987654321"
    );
    assert_eq!(PART_BOUNDARY, "123456789000000000000987654321");
}

#[test]
fn mirror_sends_the_view_of_the_eye() {
    let both = frame_of(EyesFrameType::Both, 16, 8);
    let left = serve_eye(&both, Eye::L).unwrap();
    let right = serve_eye(&both, Eye::R).unwrap();
    let half = |x| both.frame.decoded.crop(Rect { x, y: 0, width: 8, height: 8 }).unwrap();
    assert_eq!(Some(left), half(0).to_jpeg());
    assert_eq!(Some(right.clone()), half(8).to_jpeg());
    let decoded = RgbImage::decode_jpeg(&right).unwrap();
    assert_eq!((decoded.width(), decoded.height()), (8, 8));
    let mono = frame_of(EyesFrameType::Left, 16, 8);
    assert_eq!(serve_eye(&mono, Eye::R), None);
    assert_eq!(serve_eye(&mono, Eye::L), mono.frame.decoded.to_jpeg());
    let empty = frame_of(EyesFrameType::Both, 1, 8);
    assert_eq!(serve_eye(&empty, Eye::L), None);
}

#[test]
fn mirror_sends_the_face_frame_as_it_came() {
    let mut kept = Frame { raw_jpeg_data: Some(vec![1, 2, 3]), decoded: picture(4, 4), timestamp: 1 };
    assert_eq!(serve_face(&mut kept), Some(vec![1, 2, 3]));
    let mut fresh = Frame { raw_jpeg_data: None, decoded: picture(4, 4), timestamp: 1 };
    let expected = picture(4, 4).to_jpeg();
    assert_eq!(serve_face(&mut fresh), expected);
    assert_eq!(fresh.raw_jpeg_data, expected);
}

fn address_list(messages: &[eyetrackvr_server::osc_sender::OscMessagePlan]) -> Vec<&'static str> {
    messages.iter().map(|m| m.address).collect()
}

#[test]
fn osc_schemas() {
    let native = vrchat_native_messages();
    assert_eq!(
        address_list(&native),
        vec!["/tracking/eye/LeftRightPitchYaw", "/tracking/eye/EyesClosedAmount"]
    );
    assert_eq!(
        native[0].arguments,
        vec![OscArgument::Pitch, OscArgument::LeftYaw, OscArgument::Pitch, OscArgument::RightYaw]
    );
    assert_eq!(native[1].arguments, vec![OscArgument::EyesClosedAmount]);
    let bundle = vrcft_v2_messages();
    assert_eq!(
        address_list(&bundle),
        vec![
            "/avatar/parameters/FT/v2/EyeY",
            "/avatar/parameters/FT/v2/EyeLeftX",
            "/avatar/parameters/FT/v2/EyeLeftY",
            "/avatar/parameters/FT/v2/EyeLidLeft",
            "/avatar/parameters/FT/v2/EyeRightX",
            "/avatar/parameters/FT/v2/EyeRightY",
            "/avatar/parameters/FT/v2/EyeLidRight",
        ]
    );
    let arguments: Vec<OscArgument> = bundle.iter().map(|m| m.arguments[0]).collect();
    assert!(bundle.iter().all(|m| m.arguments.len() == 1));
    assert_eq!(
        arguments,
        vec![
            OscArgument::NegatedSinPitch,
            OscArgument::SinLeftYaw,
            OscArgument::NegatedSinPitch,
            OscArgument::LeftEyelid,
            OscArgument::SinRightYaw,
            OscArgument::NegatedSinPitch,
            OscArgument::RightEyelid,
        ]
    );
    assert_eq!(DEFAULT_OSC_ENDPOINT, "localhost:9000");
    assert_eq!(EYELID_NEUTRAL_HUNDREDTHS, 75);
}

fn value_of(argument: OscArgument, pitch: f32, l_yaw: f32, r_yaw: f32, l_eyelid: f32, r_eyelid: f32) -> f32 {
    let neutral = EYELID_NEUTRAL_HUNDREDTHS as f32 / 100.0;
    match argument {
        OscArgument::Pitch => pitch,
        OscArgument::LeftYaw => l_yaw,
        OscArgument::RightYaw => r_yaw,
        OscArgument::EyesClosedAmount => {
            f32::clamp(1.0 - (l_eyelid + r_eyelid) / neutral / 2.0, 0.0, 1.0)
        },
        OscArgument::NegatedSinPitch => -pitch.to_radians().sin(),
        OscArgument::SinLeftYaw => l_yaw.to_radians().sin(),
        OscArgument::SinRightYaw => r_yaw.to_radians().sin(),
        OscArgument::LeftEyelid => l_eyelid,
        OscArgument::RightEyelid => r_eyelid,
    }
}

#[test]
fn neutral_gaze_on_the_wire() {
    let mut packets = Vec::new();
    for message in vrchat_native_messages() {
        let args = message
            .arguments
            .iter()
            .map(|a| rosc::OscType::Float(value_of(*a, 0.0, 0.0, 0.0, 0.75, 0.75)))
            .collect();
        let packet = rosc::OscPacket::Message(rosc::OscMessage { addr: message.address.to_string(), args });
        packets.push(rosc::encoder::encode(&packet).unwrap());
    }
    let mut first = b"/tracking/eye/LeftRightPitchYaw\0,ffff\0\0\0".to_vec();
    first.extend([0u8; 16]);
    assert_eq!(packets[0], first);
    let mut second = b"/tracking/eye/EyesClosedAmount\0\0,f\0\0".to_vec();
    second.extend([0u8; 4]);
    assert_eq!(packets[1], second);
}

fn url(text: &str) -> Option<String> {
    Some(text.to_string())
}

#[test]
fn default_arguments() {
    let args = Args::default();
    assert_eq!(args.osc_out_address, "localhost:9000");
    assert_eq!(args.model_path, "./model.onnx");
    assert_eq!(args.threads_per_eye, 1);
    assert!(!args.inference && !args.headless);
    assert!(args.l_camera_url.is_none() && args.r_camera_url.is_none());
    assert!(args.f_camera_url.is_none() && args.lr_camera_url.is_none());
    assert_eq!(EXIT_CONFLICTING_CAMERAS, 1);
}

#[test]
fn combined_camera_excludes_the_single_eye_cameras() {
    for (l, r) in [(true, false), (false, true), (true, true)] {
        let args = Args {
            lr_camera_url: url("http://lr"),
            l_camera_url: if l { url("http://l") } else { None },
            r_camera_url: if r { url("http://r") } else { None },
            f_camera_url: url("http://f"),
            ..Args::default()
        };
        assert!(matches!(camera_wirings(&args), Err(ArgsError::ConflictingCameras)));
    }
}

#[test]
fn cameras_are_wired_to_their_dispatchers() {
    let list = |args: &Args| -> Vec<(String, DispatcherKind)> {
        camera_wirings(args).unwrap().into_iter().map(|w| (w.url, w.dispatcher)).collect()
    };
    assert!(list(&Args::default()).is_empty());
    let stereo = Args { lr_camera_url: url("http://lr"), f_camera_url: url("uvc://0"), ..Args::default() };
    assert_eq!(
        list(&stereo),
        vec![
            ("http://lr".to_string(), DispatcherKind::StereoEyes),
            ("uvc://0".to_string(), DispatcherKind::MonoFace)
        ]
    );
    let mono = Args {
        r_camera_url: url("http://r"),
        l_camera_url: url("http://l"),
        ..Args::default()
    };
    assert_eq!(
        list(&mono),
        vec![
            ("http://l".to_string(), DispatcherKind::MonoEye(Eye::L)),
            ("http://r".to_string(), DispatcherKind::MonoEye(Eye::R))
        ]
    );
}

#[test]
fn stages_follow_the_flags() {
    let run = |inference, headless| {
        start_desktop_tasks(&Args { inference, headless, ..Args::default() })
    };
    assert_eq!(run(false, true), vec![Stage::FrameServer]);
    assert_eq!(run(false, false), vec![Stage::FrameServer, Stage::Ui]);
    assert_eq!(
        run(true, true),
        vec![Stage::FrameServer, Stage::Inference, Stage::GazeProcessing, Stage::OscSender]
    );
    assert_eq!(
        run(true, false),
        vec![Stage::FrameServer, Stage::Inference, Stage::GazeProcessing, Stage::OscSender, Stage::Ui]
    );
}
