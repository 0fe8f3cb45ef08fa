//! The desktop program, without its runtime: what the command line asks
//! for, which camera is wired to which dispatcher, and which stages run.

use vstd::prelude::*;
use vstd::string::*;
use crate::structs::Eye;

verus! {

/// The status with which the program ends when its arguments contradict
/// each other.
pub const EXIT_CONFLICTING_CAMERAS: i32 = 1;

/// What the command line asks for.
pub struct Args {
    /// Left camera URL (`-l`).
    pub l_camera_url: Option<String>,
    /// Right camera URL (`-r`).
    pub r_camera_url: Option<String>,
    /// Face camera URL (`-f`).
    pub f_camera_url: Option<String>,
    /// Combined left and right eyes camera URL (`--lr`).
    pub lr_camera_url: Option<String>,
    /// Enable inference (`-I`).
    pub inference: bool,
    /// OSC output address (`-o`).
    pub osc_out_address: String,
    /// Path to the ONNX model (`-m`).
    pub model_path: String,
    /// Number of threads to use for inference per eye (`-t`).
    pub threads_per_eye: usize,
    /// Headless mode, no GUI (`-H`).
    pub headless: bool,
}

impl Default for Args {
    fn default() -> (args: Args)
        ensures
            args.l_camera_url.is_none(),
            args.r_camera_url.is_none(),
            args.f_camera_url.is_none(),
            args.lr_camera_url.is_none(),
            !args.inference,
            args.osc_out_address@ == "localhost:9000"@,
            args.model_path@ == "./model.onnx"@,
            args.threads_per_eye == 1,
            !args.headless,
    {
        Args {
            l_camera_url: None,
            r_camera_url: None,
            f_camera_url: None,
            lr_camera_url: None,
            inference: false,
            osc_out_address: String::from_str("localhost:9000"),
            model_path: String::from_str("./model.onnx"),
            threads_per_eye: 1,
            headless: false,
        }
    }
}

/// Why the arguments cannot be served.
#[derive(Debug, Clone, Copy, PartialEq, Eq, Structural)]
pub enum ArgsError {
    /// A combined camera and at least one single eye camera are given.
    ConflictingCameras,
}

/// What a camera is wired to.
#[derive(Debug, Clone, Copy, PartialEq, Eq, Structural)]
pub enum DispatcherKind {
    /// Both eyes side by side.
    StereoEyes,
    /// One eye.
    MonoEye(Eye),
    /// The face.
    MonoFace,
}

/// A camera and the dispatcher it is wired to.
pub struct CameraWiring {
    pub url: String,
    pub dispatcher: DispatcherKind,
}

/// A wiring as plain values.
pub struct CameraWiringView {
    pub url: Seq<char>,
    pub dispatcher: DispatcherKind,
}

impl View for CameraWiring {
    type V = CameraWiringView;

    open spec fn view(&self) -> CameraWiringView {
        CameraWiringView { url: self.url@, dispatcher: self.dispatcher }
    }
}

/// The wiring of one camera, if it is given.
pub open spec fn wiring_of(url: Option<String>, dispatcher: DispatcherKind) -> Seq<CameraWiringView> {
    match url {
        Some(url) => seq![CameraWiringView { url: url@, dispatcher }],
        None => Seq::empty(),
    }
}

/// Whether the arguments give a combined camera together with a single eye
/// camera.
pub open spec fn cameras_conflict(args: Args) -> bool {
    args.lr_camera_url.is_some() && (args.l_camera_url.is_some() || args.r_camera_url.is_some())
}

/// The cameras that the arguments give, each with its dispatcher: the
/// combined one, the left one, the right one, the face one.
pub open spec fn wirings_of(args: Args) -> Seq<CameraWiringView> {
    wiring_of(args.lr_camera_url, DispatcherKind::StereoEyes) + wiring_of(
        args.l_camera_url,
        DispatcherKind::MonoEye(Eye::L),
    ) + wiring_of(args.r_camera_url, DispatcherKind::MonoEye(Eye::R)) + wiring_of(
        args.f_camera_url,
        DispatcherKind::MonoFace,
    )
}

/// The views of a list of wirings.
pub open spec fn wiring_views(wirings: Seq<CameraWiring>) -> Seq<CameraWiringView> {
    Seq::new(wirings.len(), |i: int| wirings[i]@)
}

fn push_wiring(wirings: &mut Vec<CameraWiring>, url: &Option<String>, dispatcher: DispatcherKind)
    ensures
        wiring_views(final(wirings)@) == wiring_views(old(wirings)@) + wiring_of(*url, dispatcher),
{
    match url {
        Some(url) => {
            wirings.push(CameraWiring { url: url.clone(), dispatcher });
            assert(wiring_views(wirings@) =~= wiring_views(old(wirings)@) + seq![
                CameraWiringView { url: url@, dispatcher },
            ]);
        },
        None => {
            assert(wiring_views(wirings@) =~= wiring_views(old(wirings)@) + Seq::empty());
        },
    }
}

/// The cameras that the arguments give, each with its dispatcher. Fails
/// where a combined camera is given together with a single eye camera.
pub fn camera_wirings(args: &Args) -> (wirings: Result<Vec<CameraWiring>, ArgsError>)
    ensures
        match wirings {
            Ok(list) => !cameras_conflict(*args) && wiring_views(list@) == wirings_of(*args),
            Err(ArgsError::ConflictingCameras) => cameras_conflict(*args),
        },
{
    if args.lr_camera_url.is_some() && (args.l_camera_url.is_some() || args.r_camera_url.is_some()) {
        return Err(ArgsError::ConflictingCameras);
    }
    let mut wirings: Vec<CameraWiring> = Vec::new();
    assert(wiring_views(wirings@) =~= Seq::empty());
    push_wiring(&mut wirings, &args.lr_camera_url, DispatcherKind::StereoEyes);
    push_wiring(&mut wirings, &args.l_camera_url, DispatcherKind::MonoEye(Eye::L));
    push_wiring(&mut wirings, &args.r_camera_url, DispatcherKind::MonoEye(Eye::R));
    push_wiring(&mut wirings, &args.f_camera_url, DispatcherKind::MonoFace);
    assert(wiring_views(wirings@) =~= wirings_of(*args));
    Ok(wirings)
}

/// A stage of the pipeline that runs beside the cameras.
#[derive(Debug, Clone, Copy, PartialEq, Eq, Structural)]
pub enum Stage {
    /// The dataset capture server.
    FrameServer,
    /// Eye inference.
    Inference,
    /// Gaze fusion.
    GazeProcessing,
    /// The OSC sender.
    OscSender,
    /// The window with the camera feeds and the gaze plots.
    Ui,
}

/// The stages that run: the capture server always; inference, fusion and
/// the OSC sender where inference is enabled; the window unless the program
/// runs headless.
pub open spec fn stages_of(inference: bool, headless: bool) -> Seq<Stage> {
    seq![Stage::FrameServer] + (if inference {
        seq![Stage::Inference, Stage::GazeProcessing, Stage::OscSender]
    } else {
        Seq::empty()
    }) + (if headless {
        Seq::empty()
    } else {
        seq![Stage::Ui]
    })
}

/// The stages that run for the arguments.
pub fn start_desktop_tasks(args: &Args) -> (stages: Vec<Stage>)
    ensures
        stages@ == stages_of(args.inference, args.headless),
{
    let mut stages: Vec<Stage> = Vec::new();
    stages.push(Stage::FrameServer);
    if args.inference {
        stages.push(Stage::Inference);
        stages.push(Stage::GazeProcessing);
        stages.push(Stage::OscSender);
    }
    if !args.headless {
        stages.push(Stage::Ui);
    }
    assert(stages@ =~= stages_of(args.inference, args.headless));
    stages
}

} // verus!
