//! Camera dispatchers: what a frame from a source is published as.
//!
//! A dispatcher does not touch the pixels. It passes the frame on as it is,
//! or tags it with what it shows; cutting the picture up is left to whoever
//! needs the pixels.

use vstd::prelude::*;
use crate::camera::Frame;
use crate::structs::{Eye, EyesFrame, EyesFrameType};

verus! {

/// Publishes the frames of a camera that shows both eyes side by side.
#[derive(Debug)]
pub struct StereoEyesCameraDispatcher {}

impl StereoEyesCameraDispatcher {
    pub fn new() -> StereoEyesCameraDispatcher {
        StereoEyesCameraDispatcher {  }
    }

    /// The frame as it is published: tagged as showing both eyes.
    pub fn dispatch(&self, frame: Frame) -> (published: EyesFrame)
        ensures
            published.frame == frame,
            published.frame_type == EyesFrameType::Both,
    {
        EyesFrame { frame, frame_type: EyesFrameType::Both }
    }
}

/// Publishes the frames of a camera that shows one eye.
#[derive(Debug)]
pub struct MonoEyeCameraDispatcher {
    eye: Eye,
}

impl MonoEyeCameraDispatcher {
    /// The eye that the camera shows.
    pub closed spec fn spec_eye(self) -> Eye {
        self.eye
    }

    pub fn new(eye: Eye) -> (dispatcher: MonoEyeCameraDispatcher)
        ensures
            dispatcher.spec_eye() == eye,
    {
        MonoEyeCameraDispatcher { eye }
    }

    /// The eye that the camera shows.
    pub fn eye(&self) -> (eye: Eye)
        ensures
            eye == self.spec_eye(),
    {
        self.eye
    }

    /// The frame as it is published: tagged with the eye it shows.
    pub fn dispatch(&self, frame: Frame) -> (published: EyesFrame)
        ensures
            published.frame == frame,
            published.frame_type == match self.spec_eye() {
                Eye::L => EyesFrameType::Left,
                Eye::R => EyesFrameType::Rigth,
            },
    {
        EyesFrame { frame, frame_type: EyesFrameType::of_eye(self.eye) }
    }
}

/// Publishes the frames of the face camera.
#[derive(Debug)]
pub struct MonoCameraDispatcher {}

impl MonoCameraDispatcher {
    pub fn new() -> MonoCameraDispatcher {
        MonoCameraDispatcher {  }
    }

    /// The frame as it is published: unchanged.
    pub fn dispatch(&self, frame: Frame) -> (published: Frame)
        ensures
            published == frame,
    {
        frame
    }
}

} // verus!
