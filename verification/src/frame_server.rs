//! The dataset capture server, without its sockets and files: what a
//! message asks for, which views of a frame are saved for it, and under
//! which names.
//!
//! A client sends one JSON message per line. A member `l` asks for the left
//! view, a member `r` for the right view. For each message the next three
//! frames are saved, each as the message itself and a picture per view, and
//! the client is then answered with `k`. Only frames of both eyes are
//! saved: a frame of one eye ends the request without an answer. A line that
//! is not JSON ends the connection.

use vstd::prelude::*;
use vstd::string::*;
use crate::camera::{jpeg_can_hold, jpeg_encoding, Rect, RgbImage};
use crate::structs::{eye_view, Eye, EyesFrame, EyesFrameType};

verus! {

/// How many frames are saved for one message, to let the sensor settle.
pub const FRAMES_PER_CAPTURE: u32 = 3;

/// The port on which the server listens.
pub const FRAME_SERVER_PORT: u16 = 7070;

/// The format of the time in the names of the saved files.
pub const DATETIME_FORMAT: &'static str = "%Y-%m-%d_%H-%M-%S%.3f";

/// What the client is sent when a message has been served.
pub const ACKNOWLEDGEMENT: &'static str = "k";

#[verifier::external_type_specification]
#[verifier::external_body]
pub struct ExJsonValue(serde_json::Value);

/// The names of the members of a JSON value: those of its object, and none
/// where the value is not an object.
pub uninterp spec fn json_members(value: serde_json::Value) -> Set<Seq<char>>;

/// What `serde_json` makes of a line: the names of the members of the JSON
/// value that the line writes, which are none where the value is not an
/// object; `None` where the line is not JSON.
pub uninterp spec fn parsed_members(line: Seq<char>) -> Option<Set<Seq<char>>>;

/// Parses a line as JSON with `serde_json::from_str`. `None` where the line
/// is not JSON. What comes back is a function of the line alone, and is
/// given its name here, the value by the names of its members.
#[verifier::external_body]
fn parse_json(line: &str) -> (value: Option<serde_json::Value>)
    ensures
        match value {
            Some(parsed) => parsed_members(line@) == Some(json_members(parsed)),
            None => parsed_members(line@).is_none(),
        },
{
    match serde_json::from_str::<serde_json::Value>(line) {
        Ok(value) => Some(value),
        Err(_) => None,
    }
}

/// Looks a member up with `serde_json::Value::get`, which finds it exactly
/// where the value is an object that has a member of this name.
#[verifier::external_body]
fn json_get<'a>(value: &'a serde_json::Value, name: &str) -> (member: Option<&'a serde_json::Value>)
    ensures
        member.is_some() == json_members(*value).contains(name@),
{
    value.get(name)
}

/// What a message asks to be saved.
#[derive(Debug, Clone, Copy, PartialEq, Eq, Structural)]
pub struct CaptureRequest {
    pub need_l_view: bool,
    pub need_r_view: bool,
}

/// What the message `message` asks for: the left view where it has a
/// member `l`, the right view where it has a member `r`.
pub fn capture_request(message: &serde_json::Value) -> (request: CaptureRequest)
    ensures
        request.need_l_view == json_members(*message).contains("l"@),
        request.need_r_view == json_members(*message).contains("r"@),
{
    CaptureRequest {
        need_l_view: json_get(message, "l").is_some(),
        need_r_view: json_get(message, "r").is_some(),
    }
}

/// What a message with the members `members` asks for; `None` where there
/// is no message.
pub open spec fn request_of(members: Option<Set<Seq<char>>>) -> Option<CaptureRequest> {
    match members {
        Some(names) => Some(
            CaptureRequest { need_l_view: names.contains("l"@), need_r_view: names.contains("r"@) },
        ),
        None => None,
    }
}

/// What the line `line` asks for: the left view where it writes a JSON
/// object with a member `l`, the right view where it writes one with a
/// member `r`. `None` where the line is not JSON.
pub fn parse_capture_request(line: &str) -> (request: Option<CaptureRequest>)
    ensures
        request == request_of(parsed_members(line@)),
{
    match parse_json(line) {
        Some(message) => Some(capture_request(&message)),
        None => None,
    }
}

/// What the server does with a line that a client has sent.
#[derive(Debug, Clone, Copy, PartialEq, Eq, Structural)]
pub enum MessageAction {
    /// The line is a message: the next frames are captured for it.
    Capture(CaptureRequest),
    /// The line is malformed: the connection is dropped.
    DropConnection,
}

/// What the server does with a line, given what `serde_json` made of it.
pub open spec fn message_action(members: Option<Set<Seq<char>>>) -> MessageAction {
    match request_of(members) {
        Some(request) => MessageAction::Capture(request),
        None => MessageAction::DropConnection,
    }
}

/// Decides what the server does with the line `line`: a line that is JSON
/// starts a capture, any other line ends the connection.
pub fn on_message(line: &str) -> (action: MessageAction)
    ensures
        action == message_action(parsed_members(line@)),
{
    match parse_capture_request(line) {
        Some(request) => MessageAction::Capture(request),
        None => MessageAction::DropConnection,
    }
}

/// What the server does with a frame that has arrived for a request.
#[derive(Debug, Clone, Copy, PartialEq, Eq, Structural)]
pub enum CaptureAction {
    /// The frame is saved, and the request waits for this many more frames.
    Save { frames_left: u32 },
    /// The frame is saved as the last one of the request, and the client is
    /// answered with `k`.
    SaveAndAcknowledge,
    /// The frame shows one eye only: nothing is saved of it, and the request
    /// ends without an answer.
    Reject,
}

/// What is done with a frame tagged `frame_type` when the request still
/// waits for `frames_left` frames, this one included.
pub open spec fn capture_action(frames_left: u32, frame_type: EyesFrameType) -> CaptureAction {
    if frame_type != EyesFrameType::Both {
        CaptureAction::Reject
    } else if frames_left <= 1 {
        CaptureAction::SaveAndAcknowledge
    } else {
        CaptureAction::Save { frames_left: (frames_left - 1) as u32 }
    }
}

/// Decides what is done with `frame` when the request still waits for
/// `frames_left` frames, this one included. A request starts with
/// [`FRAMES_PER_CAPTURE`].
pub fn after_frame(frames_left: u32, frame: &EyesFrame) -> (action: CaptureAction)
    ensures
        action == capture_action(frames_left, frame.frame_type),
{
    match frame.frame_type {
        EyesFrameType::Both => {
            if frames_left <= 1 {
                CaptureAction::SaveAndAcknowledge
            } else {
                CaptureAction::Save { frames_left: frames_left - 1 }
            }
        },
        _ => CaptureAction::Reject,
    }
}

/// What a run of frames comes to for a request that still waits for
/// `frames_left` frames: how many of them are saved, and whether the client
/// is answered with `k`. Frames behind the end of the request are not looked
/// at.
pub open spec fn capture_outcome(frames_left: u32, frame_types: Seq<EyesFrameType>) -> (nat, bool)
    decreases frame_types.len(),
{
    if frame_types.len() == 0 {
        (0, false)
    } else {
        match capture_action(frames_left, frame_types.first()) {
            CaptureAction::Reject => (0, false),
            CaptureAction::SaveAndAcknowledge => (1, true),
            CaptureAction::Save { frames_left } => {
                let rest = capture_outcome(frames_left, frame_types.drop_first());
                (rest.0 + 1, rest.1)
            },
        }
    }
}

/// A request is answered with `k` exactly when its three frames all show
/// both eyes, and all three are saved then. A frame of one eye among them
/// ends the request: it is not saved, nor any frame behind it, and no `k`
/// is sent.
pub proof fn lemma_acknowledged_iff_three_stereo_frames(frame_types: Seq<EyesFrameType>)
    requires
        frame_types.len() == FRAMES_PER_CAPTURE,
    ensures
        ({
            let all_stereo = forall|i: int|
                0 <= i < 3 ==> frame_types[i] == EyesFrameType::Both;
            let outcome = capture_outcome(FRAMES_PER_CAPTURE, frame_types);
            &&& outcome.1 == all_stereo
            &&& all_stereo ==> outcome.0 == 3
            &&& forall|i: int|
                0 <= i < 3 && frame_types[i] != EyesFrameType::Both && (forall|j: int|
                    0 <= j < i ==> frame_types[j] == EyesFrameType::Both) ==> outcome.0 == i
        }),
{
    reveal_with_fuel(capture_outcome, 4);
    let rest1 = frame_types.drop_first();
    let rest2 = rest1.drop_first();
    assert(rest1.first() == frame_types[1]);
    assert(rest2.first() == frame_types[2]);
    assert(rest1.len() == 2 && rest2.len() == 1);
}

/// Why nothing is saved of a frame.
#[derive(Debug, Clone, Copy, PartialEq, Eq, Structural)]
pub enum CaptureError {
    /// The frame shows one eye only; only frames of both eyes are saved.
    MonoFrame,
}

/// A view of a frame that is to be saved.
#[derive(Debug, Clone, Copy, PartialEq, Eq, Structural)]
pub struct CapturedView {
    pub eye: Eye,
    pub view: Rect,
}

/// The views that are saved of a picture of both eyes for `request`: the
/// left one first.
pub open spec fn captured_views(request: CaptureRequest, width: u32, height: u32) -> Seq<CapturedView> {
    let left = if request.need_l_view {
        seq![
            CapturedView {
                eye: Eye::L,
                view: eye_view(EyesFrameType::Both, width, height, Eye::L).unwrap(),
            },
        ]
    } else {
        Seq::empty()
    };
    let right = if request.need_r_view {
        seq![
            CapturedView {
                eye: Eye::R,
                view: eye_view(EyesFrameType::Both, width, height, Eye::R).unwrap(),
            },
        ]
    } else {
        Seq::empty()
    };
    left + right
}

/// The views of `frame` that are saved for `request`. A frame of one eye is
/// refused.
pub fn views_to_capture(request: &CaptureRequest, frame: &EyesFrame) -> (views: Result<Vec<CapturedView>, CaptureError>)
    ensures
        match views {
            Ok(list) => frame.frame_type == EyesFrameType::Both && list@ == captured_views(
                *request,
                frame.frame.decoded.spec_width(),
                frame.frame.decoded.spec_height(),
            ),
            Err(CaptureError::MonoFrame) => frame.frame_type != EyesFrameType::Both,
        },
{
    match frame.frame_type {
        EyesFrameType::Both => {},
        _ => {
            return Err(CaptureError::MonoFrame);
        },
    }
    let mut views: Vec<CapturedView> = Vec::new();
    if request.need_l_view {
        match frame.get_left_view() {
            Some(view) => views.push(CapturedView { eye: Eye::L, view }),
            None => {},
        }
    }
    let ghost left = views@;
    if request.need_r_view {
        match frame.get_right_view() {
            Some(view) => views.push(CapturedView { eye: Eye::R, view }),
            None => {},
        }
    }
    assert(views@ =~= captured_views(
        *request,
        frame.frame.decoded.spec_width(),
        frame.frame.decoded.spec_height(),
    ));
    Ok(views)
}

/// The picture file that is saved for a view of `picture`: the view, cut
/// out and encoded as a JPEG file. `None` where the view does not lie
/// within the picture, or is of a size that a JPEG file cannot hold.
pub fn encode_view(picture: &RgbImage, view: Rect) -> (file: Option<Vec<u8>>)
    ensures
        file.is_some() == (picture.holds(view) && jpeg_can_hold(view.width, view.height)),
        file matches Some(bytes) ==> exists|cut: RgbImage|
            picture.is_cut_to(view, cut) && bytes@ == jpeg_encoding(
                view.width,
                view.height,
                cut.bytes(),
            ),
{
    match picture.crop(view) {
        Some(cut) => {
            let file = cut.to_jpeg();
            proof {
                assert(picture.is_cut_to(view, cut));
            }
            file
        },
        None => None,
    }
}

/// The letter that marks the picture file of an eye.
pub fn eye_letter(eye: Eye) -> (letter: char)
    ensures
        letter == match eye {
            Eye::L => 'L',
            Eye::R => 'R',
        },
{
    match eye {
        Eye::L => 'L',
        Eye::R => 'R',
    }
}

/// The name under which the message of a capture is saved: the time of
/// the capture, formatted, in the directory `images`, ending in `.json`.
pub fn message_path(formatted_datetime: &str) -> (path: String)
    ensures
        path@ == "./images/"@ + formatted_datetime@ + ".json"@,
{
    let mut path = String::from_str("./images/");
    path.append(formatted_datetime);
    path.append(".json");
    path
}

/// The name under which the picture of an eye is saved: the time of the
/// capture, formatted, in the directory `images`, then `_L.jpg` or `_R.jpg`.
pub fn image_path(formatted_datetime: &str, eye: Eye) -> (path: String)
    ensures
        path@ == "./images/"@ + formatted_datetime@ + match eye {
            Eye::L => "_L.jpg"@,
            Eye::R => "_R.jpg"@,
        },
{
    let mut path = String::from_str("./images/");
    path.append(formatted_datetime);
    match eye {
        Eye::L => path.append("_L.jpg"),
        Eye::R => path.append("_R.jpg"),
    }
    path
}

} // verus!
