//! Eye inference, up to and after the model: which part of a frame the
//! model is given for an eye, as what bytes, and how the model's answers
//! for a frame are put together.
//!
//! The model always sees a left eye: the picture of a right eye is mirrored
//! first. Of the eye's picture the region from (30, 30), 180 pixels wide and
//! high, is taken, resampled to 64 by 64 pixels, and its red channel is what
//! the model reads.

use vstd::prelude::*;
use crate::camera::{Rect, RgbImage};
use crate::structs::{eye_view, lemma_eye_views, Eye, EyesFrame, EyesFrameType, EyesGazeState, Timestamp};

verus! {

pub const FRAME_CROP_X: u32 = 30;

pub const FRAME_CROP_Y: u32 = 30;

pub const FRAME_CROP_W: u32 = 180;

pub const FRAME_CROP_H: u32 = 180;

pub const FRAME_RESIZE_W: u32 = 64;

pub const FRAME_RESIZE_H: u32 = 64;

/// The number of values that the model reads for one eye.
pub const MODEL_INPUT_LEN: usize = 4096;

/// Why a frame gives the model nothing to read for an eye.
#[derive(Debug, Clone, Copy, PartialEq, Eq, Structural)]
pub enum EyeInputError {
    /// The frame does not show the eye.
    NoView,
    /// The picture of the eye is too small to hold the region that the model
    /// is given.
    ViewTooSmall,
    /// The resampler did not return a picture of the size asked for. This
    /// does not happen: the resampler always does.
    ResizeFailed,
}

/// The region of an eye's picture that the model is given.
pub open spec fn crop_region() -> Rect {
    Rect { x: FRAME_CROP_X, y: FRAME_CROP_Y, width: FRAME_CROP_W, height: FRAME_CROP_H }
}

/// Whether the picture of an eye, `view`, holds the region that the model is
/// given.
pub open spec fn holds_crop_region(view: Rect) -> bool {
    FRAME_CROP_X + FRAME_CROP_W <= view.width && FRAME_CROP_Y + FRAME_CROP_H <= view.height
}

/// The column of the frame's picture that column `x` of the model's region
/// is taken from, for an eye with the picture `view`: counted from the left
/// edge for the left eye, and from the right edge for the right eye, whose
/// picture is mirrored.
pub open spec fn source_column(view: Rect, eye: Eye, x: int) -> int {
    match eye {
        Eye::L => view.x + FRAME_CROP_X + x,
        Eye::R => view.x + view.width - 1 - (FRAME_CROP_X + x),
    }
}

/// The region of the frame that the model is given for `eye`, before it is
/// resampled: 180 by 180 pixels, mirrored for the right eye.
pub fn eye_region(frame: &EyesFrame, eye: Eye) -> (region: Result<RgbImage, EyeInputError>)
    ensures
        ({
            let picture = frame.frame.decoded;
            let view = eye_view(frame.frame_type, picture.spec_width(), picture.spec_height(), eye);
            match region {
                Ok(cut) => {
                    &&& view matches Some(v)
                    &&& holds_crop_region(v)
                    &&& cut.spec_width() == FRAME_CROP_W
                    &&& cut.spec_height() == FRAME_CROP_H
                    &&& forall|x: int, y: int, c: int|
                        0 <= x < FRAME_CROP_W && 0 <= y < FRAME_CROP_H && 0 <= c < 3
                            ==> #[trigger] cut.channel(x, y, c) == picture.channel(
                            source_column(v, eye, x),
                            v.y + FRAME_CROP_Y + y,
                            c,
                        )
                },
                Err(EyeInputError::NoView) => view.is_none(),
                Err(EyeInputError::ViewTooSmall) => view matches Some(v) && !holds_crop_region(v),
                Err(EyeInputError::ResizeFailed) => false,
            }
        }),
{
    let picture = &frame.frame.decoded;
    proof {
        lemma_eye_views(frame.frame_type, picture.spec_width(), picture.spec_height());
    }
    let view = match frame.get_view(eye) {
        Some(view) => view,
        None => {
            return Err(EyeInputError::NoView);
        },
    };
    if view.width < FRAME_CROP_X + FRAME_CROP_W || view.height < FRAME_CROP_Y + FRAME_CROP_H {
        return Err(EyeInputError::ViewTooSmall);
    }
    let region = Rect { x: FRAME_CROP_X, y: FRAME_CROP_Y, width: FRAME_CROP_W, height: FRAME_CROP_H };
    let eye_picture = match picture.crop(view) {
        Some(eye_picture) => eye_picture,
        None => {
            return Err(EyeInputError::NoView);
        },
    };
    let upright = match eye {
        Eye::L => eye_picture,
        Eye::R => eye_picture.flip_horizontal(),
    };
    match upright.crop(region) {
        Some(cut) => {
            proof {
                assert forall|x: int, y: int, c: int|
                    0 <= x < FRAME_CROP_W && 0 <= y < FRAME_CROP_H && 0 <= c < 3 implies #[trigger] cut.channel(
                x, y, c) == picture.channel(source_column(view, eye, x), view.y + FRAME_CROP_Y + y, c) by {
                    assert(cut.channel(x, y, c) == upright.channel(
                        FRAME_CROP_X + x,
                        FRAME_CROP_Y + y,
                        c,
                    ));
                    match eye {
                        Eye::L => {
                            assert(upright.channel(FRAME_CROP_X + x, FRAME_CROP_Y + y, c)
                                == picture.channel(
                                view.x + (FRAME_CROP_X + x),
                                view.y + (FRAME_CROP_Y + y),
                                c,
                            ));
                        },
                        Eye::R => {
                            let mx = view.width - 1 - (FRAME_CROP_X + x);
                            assert(upright.channel(FRAME_CROP_X + x, FRAME_CROP_Y + y, c)
                                == eye_picture.channel(mx, FRAME_CROP_Y + y, c));
                            assert(eye_picture.channel(mx, FRAME_CROP_Y + y, c) == picture.channel(
                                view.x + mx,
                                view.y + (FRAME_CROP_Y + y),
                                c,
                            ));
                        },
                    }
                }
            }
            Ok(cut)
        },
        None => Err(EyeInputError::ViewTooSmall),
    }
}

/// The bytes that the model reads for a resampled region: the red channel
/// of its pixels, row by row.
pub fn model_input(resized: &RgbImage) -> (input: Vec<u8>)
    ensures
        input@.len() == resized.spec_width() * resized.spec_height(),
        forall|x: int, y: int|
            0 <= x < resized.spec_width() && 0 <= y < resized.spec_height() ==> input@[y
                * resized.spec_width() + x] == #[trigger] resized.channel(x, y, 0),
{
    resized.red_channel()
}

/// The bytes that the model reads for `eye` of a frame: 64 times 64 of
/// them. Fails exactly where the frame does not show the eye, or shows too
/// little of it.
pub fn eye_input(frame: &EyesFrame, eye: Eye) -> (input: Result<Vec<u8>, EyeInputError>)
    ensures
        ({
            let picture = frame.frame.decoded;
            let view = eye_view(frame.frame_type, picture.spec_width(), picture.spec_height(), eye);
            match input {
                Ok(bytes) => {
                    &&& bytes@.len() == MODEL_INPUT_LEN
                    &&& view matches Some(v)
                    &&& holds_crop_region(v)
                },
                Err(EyeInputError::NoView) => view.is_none(),
                Err(EyeInputError::ViewTooSmall) => view matches Some(v) && !holds_crop_region(v),
                Err(EyeInputError::ResizeFailed) => false,
            }
        }),
{
    let region = match eye_region(frame, eye) {
        Ok(region) => region,
        Err(error) => {
            return Err(error);
        },
    };
    match region.resize(FRAME_RESIZE_W, FRAME_RESIZE_H) {
        Some(resized) => Ok(model_input(&resized)),
        None => Err(EyeInputError::ResizeFailed),
    }
}

/// Which eyes the model is run for on a frame tagged `frame_type`.
pub fn eyes_to_infer(frame_type: EyesFrameType) -> (eyes: (bool, bool))
    ensures
        eyes.0 == (frame_type != EyesFrameType::Rigth),
        eyes.1 == (frame_type != EyesFrameType::Left),
{
    match frame_type {
        EyesFrameType::Left => (true, false),
        EyesFrameType::Rigth => (false, true),
        EyesFrameType::Both => (true, true),
    }
}

/// The result of inference for a frame tagged `frame_type` and captured at
/// `timestamp`, from the states that the model gave for its eyes. The tag
/// is kept: a frame of one eye gives the state of that eye, a frame of both
/// gives both states under the one capture time. `None` where a state that
/// the tag asks for is missing.
pub open spec fn gaze_of_frame<S>(
    frame_type: EyesFrameType,
    left: Option<S>,
    right: Option<S>,
    timestamp: Timestamp,
) -> Option<EyesGazeState<S>> {
    match frame_type {
        EyesFrameType::Left => match left {
            Some(state) => Some(EyesGazeState::Mono { eye: Eye::L, state, timestamp }),
            None => None,
        },
        EyesFrameType::Rigth => match right {
            Some(state) => Some(EyesGazeState::Mono { eye: Eye::R, state, timestamp }),
            None => None,
        },
        EyesFrameType::Both => match (left, right) {
            (Some(l_state), Some(r_state)) => Some(
                EyesGazeState::Both { l_state, r_state, timestamp },
            ),
            _ => None,
        },
    }
}

/// Puts the model's answers for a frame together.
pub fn collect_gaze<S>(frame_type: EyesFrameType, left: Option<S>, right: Option<S>, timestamp: Timestamp) -> (gaze: Option<EyesGazeState<S>>)
    ensures
        gaze == gaze_of_frame(frame_type, left, right, timestamp),
{
    match frame_type {
        EyesFrameType::Left => match left {
            Some(state) => Some(EyesGazeState::Mono { eye: Eye::L, state, timestamp }),
            None => None,
        },
        EyesFrameType::Rigth => match right {
            Some(state) => Some(EyesGazeState::Mono { eye: Eye::R, state, timestamp }),
            None => None,
        },
        EyesFrameType::Both => match (left, right) {
            (Some(l_state), Some(r_state)) => Some(
                EyesGazeState::Both { l_state, r_state, timestamp },
            ),
            _ => None,
        },
    }
}

/// Inference keeps the tag and the capture time of the frame: where every
/// state that the tag asks for is there, the result covers exactly the eyes
/// that the frame shows, and carries the frame's capture time.
pub proof fn lemma_inference_keeps_tag<S>(
    frame_type: EyesFrameType,
    left: Option<S>,
    right: Option<S>,
    timestamp: Timestamp,
)
    requires
        frame_type != EyesFrameType::Rigth ==> left.is_some(),
        frame_type != EyesFrameType::Left ==> right.is_some(),
    ensures
        gaze_of_frame(frame_type, left, right, timestamp) matches Some(gaze) && gaze.spec_timestamp()
            == timestamp && (gaze is Both <==> frame_type == EyesFrameType::Both) && (gaze.covers(
            Eye::L,
        ) <==> frame_type != EyesFrameType::Rigth) && (gaze.covers(Eye::R) <==> frame_type
            != EyesFrameType::Left),
{
}

} // verus!
