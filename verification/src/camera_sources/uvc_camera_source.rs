//! The UVC camera source: a local camera, asked for MJPEG frames.

use vstd::prelude::*;

verus! {

/// The width of the frames that the camera is asked for.
pub const UVC_FRAME_WIDTH: u32 = 320;

/// The height of the frames that the camera is asked for.
pub const UVC_FRAME_HEIGHT: u32 = 240;

/// The frame rate that the camera is asked for.
pub const UVC_FRAME_RATE: u32 = 120;

/// A local camera, by its index.
#[derive(Clone, Debug)]
pub struct UvcCameraSource {
    uvc_index: u32,
}

impl UvcCameraSource {
    /// The index of the camera.
    pub closed spec fn spec_index(self) -> u32 {
        self.uvc_index
    }

    pub fn new(uvc_index: u32) -> (source: UvcCameraSource)
        ensures
            source.spec_index() == uvc_index,
    {
        UvcCameraSource { uvc_index }
    }

    /// The index of the camera.
    pub fn uvc_index(&self) -> (index: u32)
        ensures
            index == self.spec_index(),
    {
        self.uvc_index
    }
}

} // verus!
