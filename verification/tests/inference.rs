use eyetrackvr_server::camera::{Frame, Rect, RgbImage};
use eyetrackvr_server::inference::{
    collect_gaze, eye_input, eye_region, eyes_to_infer, model_input, EyeInputError, FRAME_CROP_H,
    FRAME_CROP_W, FRAME_CROP_X, FRAME_CROP_Y, FRAME_RESIZE_H, FRAME_RESIZE_W, MODEL_INPUT_LEN,
};
use eyetrackvr_server::structs::{Eye, EyesFrame, EyesFrameType, EyesGazeState};

fn picture(width: u32, height: u32) -> RgbImage {
    let mut data = Vec::new();
    for y in 0..height {
        for x in 0..width {
            data.push(((x * 7 + y * 3) % 256) as u8);
            data.push((x % 256) as u8);
            data.push((y % 256) as u8);
        }
    }
    RgbImage::from_raw(width, height, data).unwrap()
}

fn frame_of(frame_type: EyesFrameType, decoded: RgbImage) -> EyesFrame {
    EyesFrame { frame_type, frame: Frame { raw_jpeg_data: None, decoded, timestamp: 99 } }
}

#[test]
fn the_model_reads_a_region_of_180_resampled_to_64() {
    assert_eq!((FRAME_CROP_X, FRAME_CROP_Y, FRAME_CROP_W, FRAME_CROP_H), (30, 30, 180, 180));
    assert_eq!((FRAME_RESIZE_W, FRAME_RESIZE_H), (64, 64));
    assert_eq!(MODEL_INPUT_LEN, 64 * 64);
}

#[test]
fn left_eye_region_is_cut_from_the_left_edge() {
    let frame = frame_of(EyesFrameType::Left, picture(240, 240));
    let region = eye_region(&frame, Eye::L).unwrap();
    let expected =
        frame.frame.decoded.crop(Rect { x: 30, y: 30, width: 180, height: 180 }).unwrap();
    assert_eq!(region.as_raw(), expected.as_raw());
}

#[test]
fn right_eye_region_is_mirrored() {
    let frame = frame_of(EyesFrameType::Rigth, picture(240, 240));
    let region = eye_region(&frame, Eye::R).unwrap();
    let expected = frame
        .frame
        .decoded
        .flip_horizontal()
        .crop(Rect { x: 30, y: 30, width: 180, height: 180 })
        .unwrap();
    assert_eq!(region.as_raw(), expected.as_raw());
    // The first pixel of the region is the pixel 30 from the right edge.
    let raw = frame.frame.decoded.as_raw();
    let at = ((30 * 240 + (239 - 30)) * 3) as usize;
    assert_eq!(&region.as_raw()[..3], &raw[at..at + 3]);
}

#[test]
fn mirrored_right_eye_reads_as_the_left_eye() {
    let left = picture(240, 240);
    let right = left.flip_horizontal();
    let l = eye_input(&frame_of(EyesFrameType::Left, left), Eye::L).unwrap();
    let r = eye_input(&frame_of(EyesFrameType::Rigth, right), Eye::R).unwrap();
    assert_eq!(l.len(), 4096);
    assert_eq!(l, r);
}

#[test]
fn both_eyes_are_read_from_their_halves() {
    let left = picture(240, 240);
    let right = left.flip_horizontal();
    let mut data = Vec::new();
    for y in 0..240usize {
        data.extend_from_slice(&left.as_raw()[y * 720..(y + 1) * 720]);
        data.extend_from_slice(&right.as_raw()[y * 720..(y + 1) * 720]);
    }
    let both = frame_of(EyesFrameType::Both, RgbImage::from_raw(480, 240, data).unwrap());
    let l = eye_input(&both, Eye::L).unwrap();
    let r = eye_input(&both, Eye::R).unwrap();
    let alone = eye_input(&frame_of(EyesFrameType::Left, left), Eye::L).unwrap();
    assert_eq!(l, alone);
    assert_eq!(r, alone);
}

#[test]
fn eye_input_fails_without_a_view_or_with_too_small_a_view() {
    let left = frame_of(EyesFrameType::Left, picture(240, 240));
    assert_eq!(eye_input(&left, Eye::R), Err(EyeInputError::NoView));
    assert!(matches!(eye_region(&left, Eye::R), Err(EyeInputError::NoView)));
    let small = frame_of(EyesFrameType::Left, picture(209, 240));
    assert_eq!(eye_input(&small, Eye::L), Err(EyeInputError::ViewTooSmall));
    let low = frame_of(EyesFrameType::Rigth, picture(240, 209));
    assert_eq!(eye_input(&low, Eye::R), Err(EyeInputError::ViewTooSmall));
    let enough = frame_of(EyesFrameType::Left, picture(210, 210));
    assert_eq!(eye_input(&enough, Eye::L).unwrap().len(), 4096);
    // A side-by-side frame of 240 pixels has halves of 120: too small.
    let narrow = frame_of(EyesFrameType::Both, picture(240, 240));
    assert_eq!(eye_input(&narrow, Eye::L), Err(EyeInputError::ViewTooSmall));
}

#[test]
fn model_input_is_the_red_channel() {
    let image = RgbImage::from_raw(2, 2, vec![1, 0, 0, 2, 0, 0, 3, 0, 0, 4, 0, 0]).unwrap();
    assert_eq!(model_input(&image), vec![1, 2, 3, 4]);
}

#[test]
fn inference_runs_for_the_eyes_of_the_tag() {
    assert_eq!(eyes_to_infer(EyesFrameType::Left), (true, false));
    assert_eq!(eyes_to_infer(EyesFrameType::Rigth), (false, true));
    assert_eq!(eyes_to_infer(EyesFrameType::Both), (true, true));
}

#[test]
fn inference_keeps_the_tag_and_the_timestamp() {
    let (l, r) = ((1.0f32, 2.0f32, 0.5f32), (3.0f32, -4.0f32, 0.6f32));
    match collect_gaze(EyesFrameType::Both, Some(l), Some(r), 5) {
        Some(EyesGazeState::Both { l_state, r_state, timestamp }) => {
            assert_eq!((l_state, r_state, timestamp), (l, r, 5));
        },
        other => panic!("unexpected {other:?}"),
    }
    match collect_gaze(EyesFrameType::Left, Some(l), None, 6) {
        Some(EyesGazeState::Mono { eye, state, timestamp }) => {
            assert_eq!((eye, state, timestamp), (Eye::L, l, 6));
        },
        other => panic!("unexpected {other:?}"),
    }
    match collect_gaze(EyesFrameType::Rigth, Some(l), Some(r), 7) {
        Some(EyesGazeState::Mono { eye, state, timestamp }) => {
            assert_eq!((eye, state, timestamp), (Eye::R, r, 7));
        },
        other => panic!("unexpected {other:?}"),
    }
    assert!(collect_gaze(EyesFrameType::Both, Some(l), None, 8).is_none());
    assert!(collect_gaze(EyesFrameType::Left, None, Some(r), 8).is_none());
    assert!(collect_gaze::<(f32, f32, f32)>(EyesFrameType::Rigth, None, None, 8).is_none());
}
