//! Shared data model: eye sides, frame tags and capture timestamps.

use vstd::prelude::*;
use crate::camera::{Frame, Rect};

verus! {

/// A capture time, in nanoseconds since the Unix epoch.
pub type Timestamp = u64;

/// The timestamp that every stream starts from, before any data has arrived.
pub const ZERO_TIMESTAMP: Timestamp = 0;

/// One of the two eyes.
#[derive(Debug, Clone, Copy, PartialEq, Eq, Structural)]
pub enum Eye {
    L,
    R,
}

/// What a camera frame shows: one eye, or both eyes side by side.
#[derive(Debug, Clone, Copy, PartialEq, Eq, Structural)]
pub enum EyesFrameType {
    Left,
    Rigth,
    /// Side-by-side: the left half is the left eye, the right half the right eye.
    Both,
}

impl EyesFrameType {
    /// The tag of a frame that shows only `eye`.
    pub fn of_eye(eye: Eye) -> (tag: EyesFrameType)
        ensures
            tag == match eye {
                Eye::L => EyesFrameType::Left,
                Eye::R => EyesFrameType::Rigth,
            },
    {
        match eye {
            Eye::L => EyesFrameType::Left,
            Eye::R => EyesFrameType::Rigth,
        }
    }
}

/// The output of eye inference for one frame.
///
/// `S` is the per-eye gaze state (pitch, yaw, eyelid); the library moves it
/// around without looking inside. The timestamp is the capture time of the
/// frame, not the time at which inference finished.
#[derive(Debug, Clone, Copy)]
pub enum EyesGazeState<S> {
    Mono { eye: Eye, state: S, timestamp: Timestamp },
    Both { l_state: S, r_state: S, timestamp: Timestamp },
}

impl<S> EyesGazeState<S> {
    /// The capture time that the result carries.
    pub open spec fn spec_timestamp(self) -> Timestamp {
        match self {
            EyesGazeState::Mono { timestamp, .. } => timestamp,
            EyesGazeState::Both { timestamp, .. } => timestamp,
        }
    }

    /// Whether the result says anything about `eye`.
    pub open spec fn covers(self, eye: Eye) -> bool {
        match self {
            EyesGazeState::Mono { eye: e, .. } => e == eye,
            EyesGazeState::Both { .. } => true,
        }
    }
}


/// A camera frame together with what it shows.
#[derive(Debug, Clone)]
pub struct EyesFrame {
    pub frame_type: EyesFrameType,
    pub frame: Frame,
}

/// The part of a picture of the given size, tagged `frame_type`, that shows
/// `eye`: all of it where the picture shows that eye alone, none of it where
/// it shows the other eye alone, and of a side-by-side picture the left half
/// for the left eye and the right half for the right eye. The halves are
/// `width / 2` wide, so the last column of a picture of odd width belongs to
/// neither.
pub open spec fn eye_view(frame_type: EyesFrameType, width: u32, height: u32, eye: Eye) -> Option<Rect> {
    match (frame_type, eye) {
        (EyesFrameType::Left, Eye::L) | (EyesFrameType::Rigth, Eye::R) => Some(
            Rect { x: 0, y: 0, width, height },
        ),
        (EyesFrameType::Left, Eye::R) | (EyesFrameType::Rigth, Eye::L) => None,
        (EyesFrameType::Both, Eye::L) => Some(Rect { x: 0, y: 0, width: width / 2, height }),
        (EyesFrameType::Both, Eye::R) => Some(
            Rect { x: width / 2, y: 0, width: width / 2, height },
        ),
    }
}

impl EyesFrame {
    /// The part of the picture that shows the left eye.
    pub fn get_left_view(&self) -> (view: Option<Rect>)
        ensures
            view == eye_view(
                self.frame_type,
                self.frame.decoded.spec_width(),
                self.frame.decoded.spec_height(),
                Eye::L,
            ),
    {
        let width = self.frame.decoded.width();
        let height = self.frame.decoded.height();
        match self.frame_type {
            EyesFrameType::Left => Some(Rect { x: 0, y: 0, width, height }),
            EyesFrameType::Rigth => None,
            EyesFrameType::Both => Some(Rect { x: 0, y: 0, width: width / 2, height }),
        }
    }

    /// The part of the picture that shows the right eye.
    pub fn get_right_view(&self) -> (view: Option<Rect>)
        ensures
            view == eye_view(
                self.frame_type,
                self.frame.decoded.spec_width(),
                self.frame.decoded.spec_height(),
                Eye::R,
            ),
    {
        let width = self.frame.decoded.width();
        let height = self.frame.decoded.height();
        match self.frame_type {
            EyesFrameType::Left => None,
            EyesFrameType::Rigth => Some(Rect { x: 0, y: 0, width, height }),
            EyesFrameType::Both => Some(Rect { x: width / 2, y: 0, width: width / 2, height }),
        }
    }

    /// The part of the picture that shows `eye`.
    pub fn get_view(&self, eye: Eye) -> (view: Option<Rect>)
        ensures
            view == eye_view(
                self.frame_type,
                self.frame.decoded.spec_width(),
                self.frame.decoded.spec_height(),
                eye,
            ),
    {
        match eye {
            Eye::L => self.get_left_view(),
            Eye::R => self.get_right_view(),
        }
    }
}

/// The view of an eye always lies within the picture, and the two views of
/// a side-by-side picture are of one size and do not overlap.
pub proof fn lemma_eye_views(frame_type: EyesFrameType, width: u32, height: u32)
    ensures
        forall|eye: Eye| #[trigger]
            eye_view(frame_type, width, height, eye) matches Some(view) ==> view.x + view.width
                <= width && view.y + view.height <= height,
        frame_type == EyesFrameType::Both ==> {
            let l = eye_view(frame_type, width, height, Eye::L).unwrap();
            let r = eye_view(frame_type, width, height, Eye::R).unwrap();
            l.width == r.width && l.height == r.height && l.x + l.width <= r.x
        },
        frame_type != EyesFrameType::Both ==> (eye_view(frame_type, width, height, Eye::L).is_some()
            != eye_view(frame_type, width, height, Eye::R).is_some()),
{
}

} // verus!

