//! The camera mirror server, without its sockets: which camera a request
//! path asks for, and what is sent for a frame.
//!
//! The paths `/L`, `/R` and `/F` stream the left eye, the right eye and the
//! face camera as `multipart/x-mixed-replace`, each part a JPEG file. Every
//! other path is not found.

use vstd::prelude::*;
use vstd::string::*;
use crate::camera::{jpeg_can_hold, jpeg_encoding, Frame, RgbImage};
use crate::structs::{eye_view, Eye, EyesFrame};
use crate::text::str_eq;

verus! {

/// The boundary between the parts of a stream, the same for all clients.
pub const PART_BOUNDARY: &'static str = "123456789000000000000987654321";

/// The port on which the server listens.
pub const CAMERA_SERVER_PORT: u16 = 8881;

/// The status of the answer to a path that names no camera.
pub const STATUS_NOT_FOUND: u16 = 404;

/// The content type of every part.
pub const PART_CONTENT_TYPE: &'static str = "image/jpeg";

/// A camera that the server mirrors.
#[derive(Debug, Clone, Copy, PartialEq, Eq, Structural)]
pub enum MirroredCamera {
    LeftEye,
    RightEye,
    Face,
}

/// The camera that a request path asks for.
pub open spec fn camera_at(path: Seq<char>) -> Option<MirroredCamera> {
    if path == "/L"@ {
        Some(MirroredCamera::LeftEye)
    } else if path == "/R"@ {
        Some(MirroredCamera::RightEye)
    } else if path == "/F"@ {
        Some(MirroredCamera::Face)
    } else {
        None
    }
}

/// The camera that the request path `path` asks for; `None` where the
/// answer is "not found".
pub fn route(path: &str) -> (camera: Option<MirroredCamera>)
    ensures
        camera == camera_at(path@),
{
    if str_eq(path, "/L") {
        Some(MirroredCamera::LeftEye)
    } else if str_eq(path, "/R") {
        Some(MirroredCamera::RightEye)
    } else if str_eq(path, "/F") {
        Some(MirroredCamera::Face)
    } else {
        None
    }
}

/// The content type of a stream.
pub fn stream_content_type() -> (content_type: String)
    ensures
        content_type@ == "multipart/x-mixed-replace;boundary="@ + PART_BOUNDARY@,
{
    let mut content_type = String::from_str("multipart/x-mixed-replace;boundary=");
    content_type.append(PART_BOUNDARY);
    content_type
}

/// The body of the part that is sent for a frame of the face camera: the
/// frame as a JPEG file.
pub fn serve_face(frame: &mut Frame) -> (body: Option<Vec<u8>>)
    ensures
        final(frame).decoded == old(frame).decoded,
        final(frame).timestamp == old(frame).timestamp,
        match old(frame).raw() {
            Some(kept) => body matches Some(bytes) && bytes@ == kept && final(frame).raw() == Some(
                kept,
            ),
            None => if jpeg_can_hold(
                old(frame).decoded.spec_width(),
                old(frame).decoded.spec_height(),
            ) {
                &&& body matches Some(bytes)
                &&& bytes@ == jpeg_encoding(
                    old(frame).decoded.spec_width(),
                    old(frame).decoded.spec_height(),
                    old(frame).decoded.bytes(),
                )
                &&& final(frame).raw() == Some(bytes@)
            } else {
                body.is_none() && final(frame).raw().is_none()
            },
        },
{
    frame.as_jpeg_bytes()
}

/// The body of the part that is sent for `eye` of a frame of the eye
/// cameras: the view of that eye, cut out and encoded as a JPEG file. `None`
/// where the frame does not show the eye, or the view is of a size that a
/// JPEG file cannot hold: nothing is sent for such a frame.
pub fn serve_eye(frame: &EyesFrame, eye: Eye) -> (body: Option<Vec<u8>>)
    ensures
        ({
            let picture = frame.frame.decoded;
            let view = eye_view(frame.frame_type, picture.spec_width(), picture.spec_height(), eye);
            &&& body.is_some() == (view matches Some(v) && jpeg_can_hold(v.width, v.height))
            &&& body matches Some(bytes) ==> exists|cut: RgbImage|
                picture.is_cut_to(view.unwrap(), cut) && bytes@ == jpeg_encoding(
                    view.unwrap().width,
                    view.unwrap().height,
                    cut.bytes(),
                )
        }),
{
    proof {
        crate::structs::lemma_eye_views(
            frame.frame_type,
            frame.frame.decoded.spec_width(),
            frame.frame.decoded.spec_height(),
        );
    }
    let view = match frame.get_view(eye) {
        Some(view) => view,
        None => {
            return None;
        },
    };
    match frame.frame.decoded.crop(view) {
        Some(cut) => {
            let body = cut.to_jpeg();
            proof {
                if body.is_some() {
                    assert(frame.frame.decoded.is_cut_to(view, cut));
                }
            }
            body
        },
        None => None,
    }
}

} // verus!
