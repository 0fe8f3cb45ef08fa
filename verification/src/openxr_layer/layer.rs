//! The layer's answers to the calls it intercepts.
//!
//! The layer advertises three extensions that the runtime below may lack,
//! learns which action and space stand for the eye gaze, and answers pose
//! queries from the combined gaze. What is decided here works on plain
//! values: result codes, counts, structure types and handles as integers.

use vstd::prelude::*;
use vstd::string::*;
use vstd::utf8::*;
use crate::openxr_layer::action_spaces::{is_sole_subaction_path, ActionSpaces};
use crate::structs::{Eye, Timestamp};
use crate::text::str_eq;

verus! {

/// An OpenXR result code.
pub type XrResult = i32;

pub const SUCCESS: XrResult = 0;

pub const ERROR_VALIDATION_FAILURE: XrResult = -1;

pub const ERROR_SIZE_INSUFFICIENT: XrResult = -11;

pub const ERROR_HANDLE_INVALID: XrResult = -12;

/// The structure type of an entry of the extension enumeration.
pub const TYPE_EXTENSION_PROPERTIES: i32 = 2;

pub const TYPE_SYSTEM_EYE_GAZE_INTERACTION_PROPERTIES_EXT: i32 = 1000030000;

pub const TYPE_LOADER_INIT_INFO_ANDROID_KHR: i32 = 1000089000;

pub const TYPE_SYSTEM_EYE_TRACKING_PROPERTIES_FB: i32 = 1000202004;

pub const TYPE_SYSTEM_FACE_TRACKING_PROPERTIES2_FB: i32 = 1000287013;

/// The path that stands for "no subaction path".
pub const NULL_PATH: u64 = 0;

/// For how long a combined gaze counts as tracked: 50 ms.
pub const FRESHNESS_CUTOFF: u64 = 50_000_000;

/// How many extensions the layer adds to the runtime's list.
pub const ADVERTISED_EXTENSION_COUNT: u32 = 3;

/// An extension that the layer advertises.
pub struct Extension {
    pub name: &'static str,
    pub version: u32,
}

/// The names of the advertised extensions, in the order in which they are
/// appended to the runtime's list.
pub open spec fn advertised_names() -> Seq<Seq<char>> {
    seq![
        "XR_EXT_eye_gaze_interaction"@,
        "XR_FB_face_tracking2"@,
        "XR_FB_eye_tracking_social"@,
    ]
}

/// The extensions that the layer advertises whether or not the runtime has
/// them, each at version 1.
pub fn advertised_extensions() -> (list: Vec<Extension>)
    ensures
        list@.len() == ADVERTISED_EXTENSION_COUNT,
        forall|i: int|
            0 <= i < list@.len() ==> (#[trigger] list@[i]).name@ == advertised_names()[i]
                && list@[i].version == 1,
{
    let mut list: Vec<Extension> = Vec::new();
    list.push(Extension { name: "XR_EXT_eye_gaze_interaction", version: 1 });
    list.push(Extension { name: "XR_FB_face_tracking2", version: 1 });
    list.push(Extension { name: "XR_FB_eye_tracking_social", version: 1 });
    list
}

/// The size of the name of an extension in an entry of the enumeration, in
/// bytes.
pub const MAX_EXTENSION_NAME_SIZE: usize = 128;

/// The bytes of the name of an entry for an extension whose name has the
/// bytes `name`: the name, closed by a NUL, and NUL up to the end. `None`
/// where the name and its NUL are longer than an entry's name, or the name
/// holds a NUL itself.
pub open spec fn entry_name(name: Seq<u8>) -> Option<Seq<u8>> {
    if name.len() < MAX_EXTENSION_NAME_SIZE && forall|i: int| 0 <= i < name.len() ==> name[i] != 0 {
        Some(
            Seq::new(
                MAX_EXTENSION_NAME_SIZE as nat,
                |i: int|
                    if i < name.len() {
                        name[i]
                    } else {
                        0u8
                    },
            ),
        )
    } else {
        None
    }
}

/// The bytes to write as the name of an entry for the extension `name`.
pub fn extension_name_bytes(name: &str) -> (bytes: Option<Vec<u8>>)
    ensures
        match bytes {
            Some(written) => entry_name(name.spec_bytes()) == Some(written@),
            None => entry_name(name.spec_bytes()).is_none(),
        },
{
    let source = name.as_bytes();
    if source.len() >= MAX_EXTENSION_NAME_SIZE {
        return None;
    }
    let mut written: Vec<u8> = Vec::new();
    let mut i: usize = 0;
    while i < MAX_EXTENSION_NAME_SIZE
        invariant
            i <= MAX_EXTENSION_NAME_SIZE,
            source@ == name.spec_bytes(),
            source@.len() < MAX_EXTENSION_NAME_SIZE,
            written@.len() == i,
            forall|j: int| 0 <= j < i && j < source@.len() ==> source@[j] != 0,
            forall|j: int|
                0 <= j < i ==> written@[j] == if j < source@.len() {
                    source@[j]
                } else {
                    0u8
                },
        decreases MAX_EXTENSION_NAME_SIZE - i,
    {
        if i < source.len() {
            if source[i] == 0 {
                return None;
            }
            written.push(source[i]);
        } else {
            written.push(0);
        }
        i += 1;
    }
    assert(written@ =~= entry_name(name.spec_bytes()).unwrap());
    Some(written)
}

/// What is written into an entry of the enumeration for an extension.
pub struct ExtensionEntry {
    /// The bytes of the name, [`MAX_EXTENSION_NAME_SIZE`] of them.
    pub extension_name: Vec<u8>,
    pub extension_version: u32,
}

fn entry_of(extension: &Extension) -> (entry: ExtensionEntry)
    requires
        is_ascii(extension.name),
        extension.name@.len() < MAX_EXTENSION_NAME_SIZE,
        forall|i: int| 0 <= i < extension.name@.len() ==> extension.name@[i] != '\0',
    ensures
        entry_name(extension.name.spec_bytes()) == Some(entry.extension_name@),
        entry.extension_version == extension.version,
{
    proof {
        is_ascii_spec_bytes(extension.name);
    }
    match extension_name_bytes(extension.name) {
        Some(extension_name) => ExtensionEntry {
            extension_name,
            extension_version: extension.version,
        },
        None => ExtensionEntry { extension_name: Vec::new(), extension_version: extension.version },
    }
}

/// What is written into the entries for the advertised extensions, in their
/// order: for each its name, closed by a NUL, and its version, 1.
pub fn advertised_entries() -> (entries: Vec<ExtensionEntry>)
    ensures
        entries@.len() == ADVERTISED_EXTENSION_COUNT,
        forall|i: int|
            0 <= i < entries@.len() ==> entry_name(encode_utf8(advertised_names()[i])) == Some(
                (#[trigger] entries@[i]).extension_name@,
            ) && entries@[i].extension_version == 1,
{
    proof {
        reveal_strlit("XR_EXT_eye_gaze_interaction");
        reveal_strlit("XR_FB_face_tracking2");
        reveal_strlit("XR_FB_eye_tracking_social");
    }
    let mut entries: Vec<ExtensionEntry> = Vec::new();
    entries.push(entry_of(&Extension { name: "XR_EXT_eye_gaze_interaction", version: 1 }));
    entries.push(entry_of(&Extension { name: "XR_FB_face_tracking2", version: 1 }));
    entries.push(entry_of(&Extension { name: "XR_FB_eye_tracking_social", version: 1 }));
    entries
}

// ---------------------------------------------------------------------------
// Enumerating the instance extensions
// ---------------------------------------------------------------------------

/// The layer's answer to an enumeration of the instance extensions.
#[derive(Debug, Clone, Copy, PartialEq, Eq, Structural)]
pub struct ExtensionEnumeration {
    /// The result code to return.
    pub result: XrResult,
    /// The number of entries to report.
    pub count: u32,
    /// How many of the advertised extensions to write, in their order, into
    /// the caller's entries from index `count - 3` on, each as
    /// [`advertised_entries`] gives it.
    pub appended: u32,
}

/// How many of the three entries from `first` on are typed as extension
/// properties, counted up to the first that is not.
pub open spec fn accepted_entries(entry_types: Seq<i32>, first: int) -> nat {
    if entry_types[first] != TYPE_EXTENSION_PROPERTIES {
        0
    } else if entry_types[first + 1] != TYPE_EXTENSION_PROPERTIES {
        1
    } else if entry_types[first + 2] != TYPE_EXTENSION_PROPERTIES {
        2
    } else {
        3
    }
}

/// The answer to an enumeration: the runtime's count plus the three
/// advertised extensions is always reported. A failure of the runtime is
/// handed on unchanged. A size query (capacity zero) succeeds without
/// writing. Otherwise the caller's buffer must hold all entries, and the
/// advertised extensions are written behind the runtime's into entries that
/// are typed as extension properties.
pub open spec fn enumeration(
    runtime_result: XrResult,
    runtime_count: u32,
    capacity: u32,
    entry_types: Seq<i32>,
) -> ExtensionEnumeration {
    let count = (runtime_count + ADVERTISED_EXTENSION_COUNT) as u32;
    if runtime_result != SUCCESS {
        ExtensionEnumeration { result: runtime_result, count, appended: 0 }
    } else if capacity == 0 {
        ExtensionEnumeration { result: SUCCESS, count, appended: 0 }
    } else if capacity < count {
        ExtensionEnumeration { result: ERROR_SIZE_INSUFFICIENT, count, appended: 0 }
    } else {
        let accepted = accepted_entries(entry_types, runtime_count as int);
        ExtensionEnumeration {
            result: if accepted == 3 {
                SUCCESS
            } else {
                ERROR_VALIDATION_FAILURE
            },
            count,
            appended: accepted as u32,
        }
    }
}

impl OpenXRLayer {
    /// Answers an enumeration of the instance extensions, after the runtime has
    /// answered it with `runtime_result` and `runtime_count`. `capacity` is the
    /// size of the caller's buffer and `entry_types` the structure types of its
    /// entries.
    pub fn enumerate_instance_extension_properties(
        &self,
        runtime_result: XrResult,
        runtime_count: u32,
        capacity: u32,
        entry_types: &[i32],
    ) -> (answer: ExtensionEnumeration)
        requires
            runtime_count + ADVERTISED_EXTENSION_COUNT <= u32::MAX,
            entry_types@.len() == capacity,
        ensures
            answer == enumeration(runtime_result, runtime_count, capacity, entry_types@),
            answer.count == runtime_count + 3,
    {
        let count = runtime_count + ADVERTISED_EXTENSION_COUNT;
        if runtime_result != SUCCESS {
            return ExtensionEnumeration { result: runtime_result, count, appended: 0 };
        }
        if capacity == 0 {
            return ExtensionEnumeration { result: SUCCESS, count, appended: 0 };
        }
        if capacity < count {
            return ExtensionEnumeration { result: ERROR_SIZE_INSUFFICIENT, count, appended: 0 };
        }
        let first = runtime_count as usize;
        let appended: u32 = if entry_types[first] != TYPE_EXTENSION_PROPERTIES {
            0
        } else if entry_types[first + 1] != TYPE_EXTENSION_PROPERTIES {
            1
        } else if entry_types[first + 2] != TYPE_EXTENSION_PROPERTIES {
            2
        } else {
            3
        };
        let result = if appended == 3 {
            SUCCESS
        } else {
            ERROR_VALIDATION_FAILURE
        };
        ExtensionEnumeration { result, count, appended }
    }
}

// ---------------------------------------------------------------------------
// System properties: hiding the virtual structures from the runtime
// ---------------------------------------------------------------------------

/// What the layer fills in for a structure that the runtime does not know.
#[derive(Debug, Clone, Copy, PartialEq, Eq, Structural)]
pub enum VirtualProperty {
    /// Eye gaze interaction: supported.
    EyeGazeInteraction,
    /// Face tracking 2: visual tracking supported, audio tracking not.
    FaceTracking2,
    /// Social eye tracking: supported.
    EyeTrackingSocial,
}

/// The virtual property that a structure type stands for, if it is one of
/// the three that the layer answers in place of the runtime.
pub open spec fn virtual_property_of(ty: i32) -> Option<VirtualProperty> {
    if ty == TYPE_SYSTEM_EYE_GAZE_INTERACTION_PROPERTIES_EXT {
        Some(VirtualProperty::EyeGazeInteraction)
    } else if ty == TYPE_SYSTEM_FACE_TRACKING_PROPERTIES2_FB {
        Some(VirtualProperty::FaceTracking2)
    } else if ty == TYPE_SYSTEM_EYE_TRACKING_PROPERTIES_FB {
        Some(VirtualProperty::EyeTrackingSocial)
    } else {
        None
    }
}

/// The virtual property that a structure type stands for.
pub fn virtual_property(ty: i32) -> (property: Option<VirtualProperty>)
    ensures
        property == virtual_property_of(ty),
{
    if ty == TYPE_SYSTEM_EYE_GAZE_INTERACTION_PROPERTIES_EXT {
        Some(VirtualProperty::EyeGazeInteraction)
    } else if ty == TYPE_SYSTEM_FACE_TRACKING_PROPERTIES2_FB {
        Some(VirtualProperty::FaceTracking2)
    } else if ty == TYPE_SYSTEM_EYE_TRACKING_PROPERTIES_FB {
        Some(VirtualProperty::EyeTrackingSocial)
    } else {
        None
    }
}

/// Whether the structure at `index` of a chain with the types `chain` is
/// detached before the runtime sees the chain. The head of the chain, the
/// system properties themselves, always stays.
pub open spec fn is_hidden(chain: Seq<i32>, index: int) -> bool {
    1 <= index < chain.len() && virtual_property_of(chain[index]).is_some()
}

/// Whether `indices` lists, in rising order, exactly the positions below
/// `bound` of `chain` that are hidden (`hidden` true) or shown (`hidden` false).
pub open spec fn lists_positions(indices: Seq<usize>, chain: Seq<i32>, bound: int, hidden: bool) -> bool {
    &&& forall|a: int, b: int| 0 <= a < b < indices.len() ==> indices[a] < indices[b]
    &&& forall|a: int| 0 <= a < indices.len() ==> indices[a] < bound
    &&& forall|i: usize|
        i < bound ==> (is_hidden(chain, i as int) == hidden <==> #[trigger] indices.contains(i))
}

proof fn lemma_pushed_position(indices: Seq<usize>, chain: Seq<i32>, i: usize, hidden: bool)
    requires
        lists_positions(indices, chain, i as int, hidden),
        i < chain.len(),
        is_hidden(chain, i as int) == hidden,
    ensures
        lists_positions(indices.push(i), chain, i + 1, hidden),
{
    let pushed = indices.push(i);
    assert forall|j: usize| j < i + 1 implies (is_hidden(chain, j as int) == hidden
        <==> #[trigger] pushed.contains(j)) by {
        if j < i {
            if indices.contains(j) {
                let a = choose|a: int| 0 <= a < indices.len() && indices[a] == j;
                assert(pushed[a] == j);
            }
            if pushed.contains(j) {
                let a = choose|a: int| 0 <= a < pushed.len() && pushed[a] == j;
                assert(indices[a] == j);
            }
        } else {
            assert(pushed[pushed.len() - 1] == j);
        }
    }
}

proof fn lemma_skipped_position(indices: Seq<usize>, chain: Seq<i32>, i: usize, hidden: bool)
    requires
        lists_positions(indices, chain, i as int, hidden),
        i < chain.len(),
        is_hidden(chain, i as int) != hidden,
    ensures
        lists_positions(indices, chain, i + 1, hidden),
{
    assert forall|j: usize| j < i + 1 implies (is_hidden(chain, j as int) == hidden
        <==> #[trigger] indices.contains(j)) by {
        if indices.contains(j) {
            let a = choose|a: int| 0 <= a < indices.len() && indices[a] == j;
            assert(j < i);
        }
    }
}

/// How a chain of output structures is taken apart for the runtime.
pub struct PropertyChainSplit {
    /// The positions of the structures that the runtime gets to see, in
    /// the order of the chain.
    pub shown: Vec<usize>,
    /// The positions of the structures that are detached, in the order of
    /// the chain.
    pub hidden: Vec<usize>,
    /// The positions of all structures in the order in which the chain is
    /// linked again after a successful call: the order in which it came.
    pub rejoined: Vec<usize>,
}

/// The positions of a chain of `len` structures, in its order.
pub open spec fn chain_order(len: nat) -> Seq<usize> {
    Seq::new(len, |i: int| i as usize)
}

impl OpenXRLayer {
    /// Takes the chain of a system properties query apart: the structures of
    /// the three virtual types are hidden from the runtime, all others are
    /// shown. After the call the chain is put together as it came.
    pub fn get_system_properties(&self, chain: &[i32]) -> (split: PropertyChainSplit)
        ensures
            lists_positions(split.shown@, chain@, chain@.len() as int, false),
            lists_positions(split.hidden@, chain@, chain@.len() as int, true),
            split.shown@.len() + split.hidden@.len() == chain@.len(),
            split.rejoined@ == chain_order(chain@.len()),
    {
        let mut shown: Vec<usize> = Vec::new();
        let mut hidden: Vec<usize> = Vec::new();
        let mut rejoined: Vec<usize> = Vec::new();
        let mut i: usize = 0;
        while i < chain.len()
            invariant
                i <= chain@.len(),
                lists_positions(shown@, chain@, i as int, false),
                lists_positions(hidden@, chain@, i as int, true),
                shown@.len() + hidden@.len() == i,
                rejoined@ == chain_order(i as nat),
            decreases chain@.len() - i,
        {
            rejoined.push(i);
            assert(rejoined@ =~= chain_order((i + 1) as nat));
            let ghost old_shown = shown@;
            let ghost old_hidden = hidden@;
            if i >= 1 && virtual_property(chain[i]).is_some() {
                hidden.push(i);
                proof {
                    lemma_pushed_position(old_hidden, chain@, i, true);
                    lemma_skipped_position(shown@, chain@, i, false);
                }
            } else {
                shown.push(i);
                proof {
                    lemma_pushed_position(old_shown, chain@, i, false);
                    lemma_skipped_position(hidden@, chain@, i, true);
                }
            }
            i += 1;
        }
        PropertyChainSplit { shown, hidden, rejoined }
    }
}

/// What follows the runtime's answer to a system properties query: its
/// result is handed on unchanged, and the hidden structures are attached
/// again exactly when it succeeded.
pub fn reattach_after(runtime_result: XrResult) -> (reattach: bool)
    ensures
        reattach == (runtime_result == SUCCESS),
{
    runtime_result == SUCCESS
}

/// A chain that was taken apart and linked again holds every structure
/// where it stood: position for position the chain as it came. Each of its
/// structures was either shown to the runtime or hidden from it, never both.
pub proof fn lemma_rejoined_chain_is_the_chain(chain: Seq<i32>, split: PropertyChainSplit)
    requires
        chain.len() <= usize::MAX,
        lists_positions(split.shown@, chain, chain.len() as int, false),
        lists_positions(split.hidden@, chain, chain.len() as int, true),
        split.rejoined@ == chain_order(chain.len()),
    ensures
        split.rejoined@.len() == chain.len(),
        forall|i: int| 0 <= i < chain.len() ==> split.rejoined@[i] == i,
        forall|i: usize|
            i < chain.len() ==> (split.shown@.contains(i) != split.hidden@.contains(i)),
{
    assert forall|i: usize| i < chain.len() implies (split.shown@.contains(i)
        != split.hidden@.contains(i)) by {
        if is_hidden(chain, i as int) {
            assert(split.hidden@.contains(i));
            assert(!split.shown@.contains(i));
        } else {
            assert(split.shown@.contains(i));
            assert(!split.hidden@.contains(i));
        }
    }
}

// ---------------------------------------------------------------------------
// The layer's own state
// ---------------------------------------------------------------------------

/// The interaction profile under which the gaze binding is suggested.
pub const GAZE_INTERACTION_PROFILE: &'static str = "/interaction_profiles/ext/eye_gaze_interaction";

/// The binding path of the gaze pose.
pub const GAZE_POSE_BINDING: &'static str = "/user/eyes_ext/input/gaze_ext/pose";

/// Where the layer stands in the life of an instance and its session.
#[derive(Debug, Clone, Copy, PartialEq, Eq, Structural)]
pub enum LayerPhase {
    Uninitialized,
    InstanceCreated,
    SessionCreated,
    SessionDestroyed,
    InstanceDestroyed,
}

/// What moves the layer from one phase to the next.
#[derive(Debug, Clone, Copy, PartialEq, Eq, Structural)]
pub enum LayerEvent {
    InstanceCreated,
    SessionCreated,
    SessionDestroyed,
    InstanceDestroyed,
}

/// The phase after `event`. An event that does not follow from the phase
/// leaves it as it is.
pub open spec fn phase_after(phase: LayerPhase, event: LayerEvent) -> LayerPhase {
    match (phase, event) {
        (LayerPhase::Uninitialized, LayerEvent::InstanceCreated) => LayerPhase::InstanceCreated,
        (LayerPhase::InstanceCreated, LayerEvent::SessionCreated) => LayerPhase::SessionCreated,
        (LayerPhase::SessionCreated, LayerEvent::SessionDestroyed) => LayerPhase::SessionDestroyed,
        (LayerPhase::SessionDestroyed, LayerEvent::InstanceDestroyed) => LayerPhase::InstanceDestroyed,
        _ => phase,
    }
}

/// One binding that an application suggests: an action, and the binding
/// path as text.
pub struct SuggestedBinding {
    pub action: u64,
    pub binding: String,
}

/// Why the gaze space could not be told from a gaze binding.
#[derive(Debug, Clone, Copy, PartialEq, Eq, Structural)]
pub enum BindingError {
    /// Action spaces were created for the gaze action under more than one
    /// subaction path.
    SubactionPathsNotUnique,
    /// No action space was created for the gaze action.
    NoGazeActionSpace,
}

/// The layer's answer to a suggestion of bindings.
#[derive(Debug, Clone, Copy, PartialEq, Eq, Structural)]
pub enum BindingsAnswer {
    /// Another profile: the call goes to the runtime.
    Forward,
    /// The gaze profile: the layer has taken the bindings in and returns
    /// success without calling the runtime.
    Handled,
    /// The gaze profile, but the bindings and the action spaces do not fit
    /// together.
    Failed(BindingError),
}

/// The state of the layer, as plain values.
pub struct LayerState {
    pub phase: LayerPhase,
    /// The action spaces created so far, by action and subaction path.
    pub spaces: Map<(u64, u64), u64>,
    pub gaze_action: Option<u64>,
    pub gaze_space: Option<u64>,
}

/// Whether a space was created for `action`, for whatever subaction path.
pub open spec fn has_space(spaces: Map<(u64, u64), u64>, action: u64) -> bool {
    exists|path: u64| spaces.contains_key((action, path))
}

/// The state after the binding of `action` to the gaze pose was seen: the
/// action is the gaze action from now on. The one action space that was
/// created for it, whatever its subaction path, becomes the gaze space, and
/// the remembered action spaces are forgotten.
pub open spec fn bound_to_gaze(state: LayerState, action: u64) -> (LayerState, Option<BindingError>) {
    let marked = LayerState { gaze_action: Some(action), ..state };
    if exists|path: u64| is_sole_subaction_path(state.spaces, action, path) {
        let path = choose|path: u64| is_sole_subaction_path(state.spaces, action, path);
        (
            LayerState {
                gaze_action: Some(action),
                gaze_space: Some(state.spaces[(action, path)]),
                spaces: Map::empty(),
                ..state
            },
            None,
        )
    } else if !has_space(state.spaces, action) {
        (marked, Some(BindingError::NoGazeActionSpace))
    } else {
        (marked, Some(BindingError::SubactionPathsNotUnique))
    }
}

/// The state after the bindings from `from` on were gone through, and the
/// error that stopped it, if one did.
pub open spec fn suggested(state: LayerState, bindings: Seq<SuggestedBinding>, from: int) -> (
    LayerState,
    Option<BindingError>,
)
    decreases bindings.len() - from,
{
    if from < 0 || from >= bindings.len() {
        (state, None)
    } else if bindings[from].binding@ != GAZE_POSE_BINDING@ {
        suggested(state, bindings, from + 1)
    } else {
        let (next, error) = bound_to_gaze(state, bindings[from].action);
        if error.is_some() {
            (next, error)
        } else {
            suggested(next, bindings, from + 1)
        }
    }
}

/// Where exactly one action space was created for an action, under the
/// subaction path `path`, the binding of that action to the gaze pose makes
/// the action the gaze action and that space the gaze space, and empties
/// the memory of action spaces.
pub proof fn lemma_gaze_binding_finds_the_space(state: LayerState, action: u64, path: u64)
    requires
        is_sole_subaction_path(state.spaces, action, path),
    ensures
        bound_to_gaze(state, action) == (
            LayerState {
                gaze_action: Some(action),
                gaze_space: Some(state.spaces[(action, path)]),
                spaces: Map::empty(),
                ..state
            },
            None::<BindingError>,
        ),
{
    let chosen = choose|chosen: u64| is_sole_subaction_path(state.spaces, action, chosen);
    assert(chosen == path);
}

/// Whether a combined gaze captured at `latest` still counts as tracked at
/// `now`: there is one, and it is at most 50 ms old.
pub open spec fn is_fresh(latest: Option<Timestamp>, now: Timestamp) -> bool {
    latest matches Some(timestamp) && now - timestamp <= FRESHNESS_CUTOFF
}

/// The layer's answer to a query of an action's pose state.
#[derive(Debug, Clone, Copy, PartialEq, Eq, Structural)]
pub enum PoseStateAnswer {
    /// Another action than the gaze action: the call goes to the runtime.
    PassThrough,
    /// The layer answers: success, with this activity.
    Answered { is_active: bool },
}

/// Where a query for the location of a space goes.
#[derive(Debug, Clone, Copy, PartialEq, Eq, Structural)]
pub enum SpaceRoute {
    /// Another space than the gaze space: the call goes to the runtime.
    PassThrough,
    /// The gaze space, but no session has been created, so there is no view
    /// space to relate the gaze to: success, with nothing tracked.
    NotReady,
    /// The gaze space: the view space is located in the base space first.
    LocateView,
}

/// The layer's state: what it has learnt from the calls it has seen.
pub struct OpenXRLayer {
    phase: LayerPhase,
    possible_spaces: ActionSpaces,
    eye_gaze_action: Option<u64>,
    eye_gaze_space: Option<u64>,
}

impl View for OpenXRLayer {
    type V = LayerState;

    closed spec fn view(&self) -> LayerState {
        LayerState {
            phase: self.phase,
            spaces: self.possible_spaces@,
            gaze_action: self.eye_gaze_action,
            gaze_space: self.eye_gaze_space,
        }
    }
}

impl OpenXRLayer {
    /// A layer that has seen no call yet.
    pub fn new() -> (layer: OpenXRLayer)
        ensures
            layer@ == (LayerState {
                phase: LayerPhase::Uninitialized,
                spaces: Map::empty(),
                gaze_action: None,
                gaze_space: None,
            }),
    {
        OpenXRLayer {
            phase: LayerPhase::Uninitialized,
            possible_spaces: ActionSpaces::new(),
            eye_gaze_action: None,
            eye_gaze_space: None,
        }
    }

    /// The phase the layer is in.
    pub fn phase(&self) -> (phase: LayerPhase)
        ensures
            phase == self@.phase,
    {
        self.phase
    }

    /// The action that stands for the eye gaze, once known.
    pub fn eye_gaze_action(&self) -> (action: Option<u64>)
        ensures
            action == self@.gaze_action,
    {
        self.eye_gaze_action
    }

    /// The space that stands for the eye gaze, once known.
    pub fn eye_gaze_space(&self) -> (space: Option<u64>)
        ensures
            space == self@.gaze_space,
    {
        self.eye_gaze_space
    }

    /// Takes note of an event in the life of the instance and its session.
    pub fn advance(&mut self, event: LayerEvent)
        ensures
            final(self)@ == (LayerState { phase: phase_after(old(self)@.phase, event), ..old(self)@ }),
    {
        self.phase = match (self.phase, event) {
            (LayerPhase::Uninitialized, LayerEvent::InstanceCreated) => LayerPhase::InstanceCreated,
            (LayerPhase::InstanceCreated, LayerEvent::SessionCreated) => LayerPhase::SessionCreated,
            (LayerPhase::SessionCreated, LayerEvent::SessionDestroyed) => LayerPhase::SessionDestroyed,
            (LayerPhase::SessionDestroyed, LayerEvent::InstanceDestroyed) => LayerPhase::InstanceDestroyed,
            (phase, _) => phase,
        };
    }

    /// Follows the runtime's answer to the creation of a session: its result
    /// is handed on unchanged, and on success the session counts as created.
    pub fn create_session(&mut self, runtime_result: XrResult) -> (result: XrResult)
        ensures
            result == runtime_result,
            final(self)@ == if runtime_result == SUCCESS {
                LayerState {
                    phase: phase_after(old(self)@.phase, LayerEvent::SessionCreated),
                    ..old(self)@
                }
            } else {
                old(self)@
            },
    {
        if runtime_result == SUCCESS {
            self.advance(LayerEvent::SessionCreated);
        }
        runtime_result
    }

    /// Follows the runtime's answer to the creation of an action space: its
    /// result is handed on unchanged, and on success the space is remembered
    /// for its action and subaction path.
    pub fn create_action_space(
        &mut self,
        runtime_result: XrResult,
        action: u64,
        subaction_path: u64,
        space: u64,
    ) -> (result: XrResult)
        ensures
            result == runtime_result,
            final(self)@ == if runtime_result == SUCCESS {
                LayerState {
                    spaces: old(self)@.spaces.insert((action, subaction_path), space),
                    ..old(self)@
                }
            } else {
                old(self)@
            },
    {
        if runtime_result == SUCCESS {
            self.possible_spaces.insert(action, subaction_path, space);
        }
        runtime_result
    }

    /// Takes in the bindings that an application suggests for
    /// `interaction_profile`. Only the gaze profile concerns the layer: there
    /// the action bound to the gaze pose becomes the gaze action, and its
    /// action space the gaze space.
    pub fn suggest_interaction_profile_bindings(
        &mut self,
        interaction_profile: &str,
        bindings: &[SuggestedBinding],
    ) -> (answer: BindingsAnswer)
        ensures
            interaction_profile@ != GAZE_INTERACTION_PROFILE@ ==> answer == BindingsAnswer::Forward
                && final(self)@ == old(self)@,
            interaction_profile@ == GAZE_INTERACTION_PROFILE@ ==> final(self)@ == suggested(
                old(self)@,
                bindings@,
                0,
            ).0 && answer == match suggested(old(self)@, bindings@, 0).1 {
                Some(error) => BindingsAnswer::Failed(error),
                None => BindingsAnswer::Handled,
            },
    {
        if !str_eq(interaction_profile, GAZE_INTERACTION_PROFILE) {
            return BindingsAnswer::Forward;
        }
        let mut i: usize = 0;
        while i < bindings.len()
            invariant
                i <= bindings@.len(),
                interaction_profile@ == GAZE_INTERACTION_PROFILE@,
                suggested(self@, bindings@, i as int) == suggested(old(self)@, bindings@, 0),
            decreases bindings@.len() - i,
        {
            let binding = &bindings[i];
            if str_eq(binding.binding.as_str(), GAZE_POSE_BINDING) {
                let action = binding.action;
                let ghost before = self@;
                self.eye_gaze_action = Some(action);
                let space = match self.possible_spaces.sole_subaction_path(action) {
                    Some(path) => {
                        proof {
                            let chosen = choose|chosen: u64|
                                is_sole_subaction_path(before.spaces, action, chosen);
                            assert(chosen == path);
                        }
                        self.possible_spaces.get(action, path)
                    },
                    None => None,
                };
                match space {
                    Some(space) => {
                        self.eye_gaze_space = Some(space);
                        self.possible_spaces.clear();
                        assert(self@ == bound_to_gaze(before, action).0);
                    },
                    None => {
                        if self.possible_spaces.has_action(action) {
                            return BindingsAnswer::Failed(BindingError::SubactionPathsNotUnique);
                        }
                        return BindingsAnswer::Failed(BindingError::NoGazeActionSpace);
                    },
                }
            }
            i += 1;
        }
        BindingsAnswer::Handled
    }

    /// Answers a query of the pose state of `action`, at the time `now`,
    /// where `latest` is the capture time of the latest combined gaze. The
    /// layer answers for the gaze action only: its pose is active exactly
    /// while the gaze is fresh. A query for any other action, and every
    /// query while no gaze action is known, goes to the runtime.
    pub fn get_action_state_pose(&self, action: u64, latest: Option<Timestamp>, now: Timestamp) -> (answer: PoseStateAnswer)
        ensures
            answer == if self@.gaze_action == Some(action) {
                PoseStateAnswer::Answered { is_active: is_fresh(latest, now) }
            } else {
                PoseStateAnswer::PassThrough
            },
    {
        match self.eye_gaze_action {
            Some(gaze_action) if gaze_action == action => PoseStateAnswer::Answered {
                is_active: gaze_is_fresh(latest, now),
            },
            _ => PoseStateAnswer::PassThrough,
        }
    }

    /// Routes a query for the location of `space`. The layer locates the
    /// gaze space only. A query for any other space, and every query while
    /// no gaze space is known, goes to the runtime.
    pub fn locate_space(&self, space: u64) -> (route: SpaceRoute)
        ensures
            route == if self@.gaze_space != Some(space) {
                SpaceRoute::PassThrough
            } else if self@.phase != LayerPhase::SessionCreated {
                SpaceRoute::NotReady
            } else {
                SpaceRoute::LocateView
            },
    {
        match self.eye_gaze_space {
            Some(gaze_space) if gaze_space == space => match self.phase {
                LayerPhase::SessionCreated => SpaceRoute::LocateView,
                _ => SpaceRoute::NotReady,
            },
            _ => SpaceRoute::PassThrough,
        }
    }
}

/// Whether a combined gaze captured at `latest` still counts as tracked at
/// `now`.
pub fn gaze_is_fresh(latest: Option<Timestamp>, now: Timestamp) -> (fresh: bool)
    ensures
        fresh == is_fresh(latest, now),
{
    match latest {
        Some(timestamp) => now <= timestamp || now - timestamp <= FRESHNESS_CUTOFF,
        None => false,
    }
}

/// A pose is reported inactive exactly when no combined gaze has ever
/// arrived, or the latest one is more than 50 ms old.
pub proof fn lemma_inactive_iff_stale_or_missing(latest: Option<Timestamp>, now: Timestamp)
    ensures
        !is_fresh(latest, now) <==> (latest.is_none() || now - latest.unwrap() > FRESHNESS_CUTOFF),
{
}


// ---------------------------------------------------------------------------
// Locating the gaze space
// ---------------------------------------------------------------------------

/// The flag of a space location that says its orientation is actively tracked.
pub const ORIENTATION_TRACKED: u64 = 0x4;

/// The flag of a space location that says its position is actively tracked.
pub const POSITION_TRACKED: u64 = 0x8;

/// From what a pose is made. Its orientation is the direction that the two
/// angles give in the view space, brought into the base space. Its position
/// lies on the x axis of the view space.
#[derive(Debug, Clone, Copy, PartialEq, Eq, Structural)]
pub struct PoseSource {
    /// The quantity of the combined gaze that is the pitch of the direction.
    pub pitch: GazeQuantity,
    /// The quantity of the combined gaze that is the yaw of the direction.
    pub yaw: GazeQuantity,
    /// Where the position lies on the x axis, in tenths of a millimetre.
    pub origin_x: i32,
}

/// The pose of the gaze space: the direction used for interaction, from the
/// origin.
pub open spec fn gaze_pose() -> PoseSource {
    PoseSource { pitch: GazeQuantity::GazePitch, yaw: GazeQuantity::GazeYaw, origin_x: 0 }
}

/// The pose of the gaze of `eye`: the shared pitch and the yaw of that eye,
/// from the origin of that eye, which lies [`EYE_ORIGIN_OFFSET`] to the left
/// or to the right.
pub open spec fn eye_pose(eye: Eye) -> PoseSource {
    match eye {
        Eye::L => PoseSource {
            pitch: GazeQuantity::Pitch,
            yaw: GazeQuantity::LeftYaw,
            origin_x: (-EYE_ORIGIN_OFFSET) as i32,
        },
        Eye::R => PoseSource {
            pitch: GazeQuantity::Pitch,
            yaw: GazeQuantity::RightYaw,
            origin_x: EYE_ORIGIN_OFFSET,
        },
    }
}

/// What the layer writes into the location of the gaze space.
#[derive(Debug, Clone, Copy, PartialEq, Eq, Structural)]
pub struct GazeLocation {
    /// The result code to return.
    pub result: XrResult,
    /// The location flags to leave in the location.
    pub location_flags: u64,
    /// The pose to write, and from what it is made; `None` where no pose is
    /// written.
    pub pose: Option<PoseSource>,
}

/// The location of the gaze space, once the view space has been located
/// with `view_result`: a failure there is handed on unchanged and nothing
/// is written. Otherwise the call succeeds; with a combined gaze the two
/// tracked flags are set and the pose is written, without one they are
/// cleared. The other flags stay as they were.
pub open spec fn gaze_location(view_result: XrResult, has_gaze: bool, location_flags: u64) -> GazeLocation {
    if view_result != SUCCESS {
        GazeLocation { result: view_result, location_flags, pose: None }
    } else if has_gaze {
        GazeLocation {
            result: SUCCESS,
            location_flags: location_flags | POSITION_TRACKED | ORIENTATION_TRACKED,
            pose: Some(gaze_pose()),
        }
    } else {
        GazeLocation {
            result: SUCCESS,
            location_flags: location_flags & !POSITION_TRACKED & !ORIENTATION_TRACKED,
            pose: None,
        }
    }
}

/// Decides what is written into the location of the gaze space.
pub fn locate_gaze(view_result: XrResult, has_gaze: bool, location_flags: u64) -> (location: GazeLocation)
    ensures
        location == gaze_location(view_result, has_gaze, location_flags),
{
    if view_result != SUCCESS {
        GazeLocation { result: view_result, location_flags, pose: None }
    } else if has_gaze {
        GazeLocation {
            result: SUCCESS,
            location_flags: location_flags | POSITION_TRACKED | ORIENTATION_TRACKED,
            pose: Some(
                PoseSource {
                    pitch: GazeQuantity::GazePitch,
                    yaw: GazeQuantity::GazeYaw,
                    origin_x: 0,
                },
            ),
        }
    } else {
        GazeLocation {
            result: SUCCESS,
            location_flags: location_flags & !POSITION_TRACKED & !ORIENTATION_TRACKED,
            pose: None,
        }
    }
}

/// The location of the gaze space while no view space exists: success, with
/// the two tracked flags cleared and no pose.
pub fn gaze_not_ready(location_flags: u64) -> (location: GazeLocation)
    ensures
        location == gaze_location(SUCCESS, false, location_flags),
{
    locate_gaze(SUCCESS, false, location_flags)
}

/// A located gaze reports both tracked flags exactly when there is a
/// combined gaze, and leaves every other flag as it found it.
pub proof fn lemma_gaze_location_flags(has_gaze: bool, location_flags: u64)
    ensures
        ({
            let out = gaze_location(SUCCESS, has_gaze, location_flags).location_flags;
            &&& out & POSITION_TRACKED == (if has_gaze { POSITION_TRACKED } else { 0 })
            &&& out & ORIENTATION_TRACKED == (if has_gaze { ORIENTATION_TRACKED } else { 0 })
            &&& out & !(POSITION_TRACKED | ORIENTATION_TRACKED) == location_flags & !(
            POSITION_TRACKED | ORIENTATION_TRACKED)
        }),
{
    let f = location_flags;
    assert((f | 0x8 | 0x4) & 0x8 == 0x8) by (bit_vector);
    assert((f | 0x8 | 0x4) & 0x4 == 0x4) by (bit_vector);
    assert((f | 0x8 | 0x4) & !(0x8u64 | 0x4) == f & !(0x8u64 | 0x4)) by (bit_vector);
    assert((f & !0x8u64 & !0x4u64) & 0x8 == 0) by (bit_vector);
    assert((f & !0x8u64 & !0x4u64) & 0x4 == 0) by (bit_vector);
    assert((f & !0x8u64 & !0x4u64) & !(0x8u64 | 0x4) == f & !(0x8u64 | 0x4)) by (bit_vector);
}

// ---------------------------------------------------------------------------
// Face tracking 2: expression weights
// ---------------------------------------------------------------------------

/// The number of expression weights that a caller must make room for.
pub const FACE_EXPRESSION_COUNT: u32 = 70;

/// The number of confidences that a caller must make room for.
pub const FACE_CONFIDENCE_COUNT: u32 = 2;

/// The handle that stands for the layer's face tracker.
pub const FACE_TRACKER_HANDLE: u64 = 99999990;

/// The handle that stands for the layer's eye tracker.
pub const EYE_TRACKER_HANDLE: u64 = 99999991;

pub const EXPRESSION_EYES_CLOSED_L: u32 = 12;

pub const EXPRESSION_EYES_CLOSED_R: u32 = 13;

pub const EXPRESSION_EYES_LOOK_DOWN_L: u32 = 14;

pub const EXPRESSION_EYES_LOOK_DOWN_R: u32 = 15;

pub const EXPRESSION_EYES_LOOK_LEFT_L: u32 = 16;

pub const EXPRESSION_EYES_LOOK_LEFT_R: u32 = 17;

pub const EXPRESSION_EYES_LOOK_RIGHT_L: u32 = 18;

pub const EXPRESSION_EYES_LOOK_RIGHT_R: u32 = 19;

pub const EXPRESSION_EYES_LOOK_UP_L: u32 = 20;

pub const EXPRESSION_EYES_LOOK_UP_R: u32 = 21;

pub const EXPRESSION_UPPER_LID_RAISER_L: u32 = 59;

pub const EXPRESSION_UPPER_LID_RAISER_R: u32 = 60;

/// A quantity of the combined gaze.
#[derive(Debug, Clone, Copy, PartialEq, Eq, Structural)]
pub enum GazeQuantity {
    /// The shared pitch of the two eyes.
    Pitch,
    LeftYaw,
    RightYaw,
    LeftEyelid,
    RightEyelid,
    /// The pitch of the one direction that is used for interaction.
    GazePitch,
    /// The yaw of the one direction that is used for interaction.
    GazeYaw,
}

/// From what an expression weight is made: the quantity, and the range of it
/// that is mapped onto the weights from 0 to 1, in hundredths (of a degree
/// for angles, of the full opening for eyelids). Values beyond the range
/// give 0 or 1.
#[derive(Debug, Clone, Copy, PartialEq, Eq, Structural)]
pub struct ExpressionSource {
    pub quantity: GazeQuantity,
    /// The value that gives weight 0.
    pub zero_at: i32,
    /// The value that gives weight 1.
    pub one_at: i32,
}

/// The source of the expression weight at `index`. Only the weights that
/// follow the eyes have one: the upper lid raisers rise from the neutral
/// eyelid (0.75) to the wide open one (1.0), the closed eyes from the
/// neutral to the shut one (0.0), and the four looks of each eye from the
/// centre to 45 degrees: left and down towards the negative angles, right and
/// up towards the positive ones.
pub open spec fn expression_source_of(index: u32) -> Option<ExpressionSource> {
    if index == EXPRESSION_UPPER_LID_RAISER_L {
        Some(ExpressionSource { quantity: GazeQuantity::LeftEyelid, zero_at: 75, one_at: 100 })
    } else if index == EXPRESSION_UPPER_LID_RAISER_R {
        Some(ExpressionSource { quantity: GazeQuantity::RightEyelid, zero_at: 75, one_at: 100 })
    } else if index == EXPRESSION_EYES_CLOSED_L {
        Some(ExpressionSource { quantity: GazeQuantity::LeftEyelid, zero_at: 75, one_at: 0 })
    } else if index == EXPRESSION_EYES_CLOSED_R {
        Some(ExpressionSource { quantity: GazeQuantity::RightEyelid, zero_at: 75, one_at: 0 })
    } else if index == EXPRESSION_EYES_LOOK_LEFT_L {
        Some(ExpressionSource { quantity: GazeQuantity::LeftYaw, zero_at: 0, one_at: -4500i32 })
    } else if index == EXPRESSION_EYES_LOOK_RIGHT_L {
        Some(ExpressionSource { quantity: GazeQuantity::LeftYaw, zero_at: 0, one_at: 4500 })
    } else if index == EXPRESSION_EYES_LOOK_UP_L {
        Some(ExpressionSource { quantity: GazeQuantity::Pitch, zero_at: 0, one_at: 4500 })
    } else if index == EXPRESSION_EYES_LOOK_DOWN_L {
        Some(ExpressionSource { quantity: GazeQuantity::Pitch, zero_at: 0, one_at: -4500i32 })
    } else if index == EXPRESSION_EYES_LOOK_LEFT_R {
        Some(ExpressionSource { quantity: GazeQuantity::RightYaw, zero_at: 0, one_at: -4500i32 })
    } else if index == EXPRESSION_EYES_LOOK_RIGHT_R {
        Some(ExpressionSource { quantity: GazeQuantity::RightYaw, zero_at: 0, one_at: 4500 })
    } else if index == EXPRESSION_EYES_LOOK_UP_R {
        Some(ExpressionSource { quantity: GazeQuantity::Pitch, zero_at: 0, one_at: 4500 })
    } else if index == EXPRESSION_EYES_LOOK_DOWN_R {
        Some(ExpressionSource { quantity: GazeQuantity::Pitch, zero_at: 0, one_at: -4500i32 })
    } else {
        None
    }
}

/// The source of the expression weight at `index`; `None` for the weights
/// that stay 0.
pub fn expression_source(index: u32) -> (source: Option<ExpressionSource>)
    ensures
        source == expression_source_of(index),
{
    if index == EXPRESSION_UPPER_LID_RAISER_L {
        Some(ExpressionSource { quantity: GazeQuantity::LeftEyelid, zero_at: 75, one_at: 100 })
    } else if index == EXPRESSION_UPPER_LID_RAISER_R {
        Some(ExpressionSource { quantity: GazeQuantity::RightEyelid, zero_at: 75, one_at: 100 })
    } else if index == EXPRESSION_EYES_CLOSED_L {
        Some(ExpressionSource { quantity: GazeQuantity::LeftEyelid, zero_at: 75, one_at: 0 })
    } else if index == EXPRESSION_EYES_CLOSED_R {
        Some(ExpressionSource { quantity: GazeQuantity::RightEyelid, zero_at: 75, one_at: 0 })
    } else if index == EXPRESSION_EYES_LOOK_LEFT_L {
        Some(ExpressionSource { quantity: GazeQuantity::LeftYaw, zero_at: 0, one_at: -4500i32 })
    } else if index == EXPRESSION_EYES_LOOK_RIGHT_L {
        Some(ExpressionSource { quantity: GazeQuantity::LeftYaw, zero_at: 0, one_at: 4500 })
    } else if index == EXPRESSION_EYES_LOOK_UP_L {
        Some(ExpressionSource { quantity: GazeQuantity::Pitch, zero_at: 0, one_at: 4500 })
    } else if index == EXPRESSION_EYES_LOOK_DOWN_L {
        Some(ExpressionSource { quantity: GazeQuantity::Pitch, zero_at: 0, one_at: -4500i32 })
    } else if index == EXPRESSION_EYES_LOOK_LEFT_R {
        Some(ExpressionSource { quantity: GazeQuantity::RightYaw, zero_at: 0, one_at: -4500i32 })
    } else if index == EXPRESSION_EYES_LOOK_RIGHT_R {
        Some(ExpressionSource { quantity: GazeQuantity::RightYaw, zero_at: 0, one_at: 4500 })
    } else if index == EXPRESSION_EYES_LOOK_UP_R {
        Some(ExpressionSource { quantity: GazeQuantity::Pitch, zero_at: 0, one_at: 4500 })
    } else if index == EXPRESSION_EYES_LOOK_DOWN_R {
        Some(ExpressionSource { quantity: GazeQuantity::Pitch, zero_at: 0, one_at: -4500i32 })
    } else {
        None
    }
}

/// The layer's answer to a query of the expression weights.
#[derive(Debug, Clone, Copy, PartialEq, Eq, Structural)]
pub struct ExpressionWeightsAnswer {
    /// The result code to return.
    pub result: XrResult,
    /// Whether the weights are reported as valid.
    pub is_valid: bool,
    /// Whether weights and confidences are to be written: every confidence
    /// 1, every weight from its source, or 0 where it has none.
    pub fill: bool,
}

/// The answer to a query of the expression weights: the caller must have
/// made room for exactly the expected numbers of weights and of confidences,
/// else the query fails validation and nothing is written. With room, the
/// query succeeds, and the weights are valid and written exactly when there
/// is a combined gaze.
pub open spec fn expression_weights_answer(weight_count: u32, confidence_count: u32, has_gaze: bool) -> ExpressionWeightsAnswer {
    if weight_count != FACE_EXPRESSION_COUNT || confidence_count != FACE_CONFIDENCE_COUNT {
        ExpressionWeightsAnswer { result: ERROR_VALIDATION_FAILURE, is_valid: false, fill: false }
    } else {
        ExpressionWeightsAnswer { result: SUCCESS, is_valid: has_gaze, fill: has_gaze }
    }
}

impl OpenXRLayer {
    /// Answers a query of the expression weights.
    pub fn get_face_expression_weights2(&self, weight_count: u32, confidence_count: u32, has_gaze: bool) -> (answer: ExpressionWeightsAnswer)
        ensures
            answer == expression_weights_answer(weight_count, confidence_count, has_gaze),
    {
        if weight_count != FACE_EXPRESSION_COUNT {
            return ExpressionWeightsAnswer { result: ERROR_VALIDATION_FAILURE, is_valid: false, fill: false };
        }
        if confidence_count != FACE_CONFIDENCE_COUNT {
            return ExpressionWeightsAnswer { result: ERROR_VALIDATION_FAILURE, is_valid: false, fill: false };
        }
        ExpressionWeightsAnswer { result: SUCCESS, is_valid: has_gaze, fill: has_gaze }
    }
}

// ---------------------------------------------------------------------------
// Social eye tracking: per-eye gazes
// ---------------------------------------------------------------------------

/// Half the distance between the two eye origins, in tenths of a
/// millimetre: 32.5 mm.
pub const EYE_ORIGIN_OFFSET: i32 = 325;

/// Where the origin of the gaze of `eye` lies on the x axis of the view
/// space, in tenths of a millimetre: the left eye to the negative side.
pub fn eye_origin_x(eye: Eye) -> (x: i32)
    ensures
        x == match eye {
            Eye::L => -EYE_ORIGIN_OFFSET,
            Eye::R => EYE_ORIGIN_OFFSET as int,
        },
{
    match eye {
        Eye::L => -EYE_ORIGIN_OFFSET,
        Eye::R => EYE_ORIGIN_OFFSET,
    }
}

/// The pose of the gaze of `eye`.
pub fn eye_pose_of(eye: Eye) -> (pose: PoseSource)
    ensures
        pose == eye_pose(eye),
{
    PoseSource {
        pitch: GazeQuantity::Pitch,
        yaw: match eye {
            Eye::L => GazeQuantity::LeftYaw,
            Eye::R => GazeQuantity::RightYaw,
        },
        origin_x: eye_origin_x(eye),
    }
}

/// The layer's answer to a query of the per-eye gazes.
#[derive(Debug, Clone, Copy, PartialEq, Eq, Structural)]
pub struct EyeGazesAnswer {
    /// The result code to return.
    pub result: XrResult,
    /// Whether the validity of the two gazes is to be written at all.
    pub write: bool,
    /// The validity to write for both gazes. Valid gazes come with their
    /// poses, with confidence 1, and with the time that was asked for.
    pub is_valid: bool,
    /// The poses of the two gazes, and from what they are made; `None`
    /// where the gazes are not valid.
    pub poses: Option<EyePoses>,
}

/// The poses of the gazes of the two eyes.
#[derive(Debug, Clone, Copy, PartialEq, Eq, Structural)]
pub struct EyePoses {
    pub left: PoseSource,
    pub right: PoseSource,
}

/// The poses of the two valid gazes.
pub open spec fn eye_poses() -> EyePoses {
    EyePoses { left: eye_pose(Eye::L), right: eye_pose(Eye::R) }
}

/// The answer to a query of the per-eye gazes. `view_result` is the result
/// of locating the view space in the base space, `None` where there is no
/// view space yet. A failure to locate it is handed on unchanged and
/// nothing is written. Otherwise the query succeeds, and both gazes are
/// valid exactly when the view space was located and there is a combined
/// gaze.
pub open spec fn eye_gazes_answer(view_result: Option<XrResult>, has_gaze: bool) -> EyeGazesAnswer {
    match view_result {
        Some(result) if result != SUCCESS => EyeGazesAnswer {
            result,
            write: false,
            is_valid: false,
            poses: None,
        },
        Some(_) => EyeGazesAnswer {
            result: SUCCESS,
            write: true,
            is_valid: has_gaze,
            poses: if has_gaze {
                Some(eye_poses())
            } else {
                None
            },
        },
        None => EyeGazesAnswer { result: SUCCESS, write: true, is_valid: false, poses: None },
    }
}

impl OpenXRLayer {
    /// Whether the view space exists, which is created with the session.
    pub fn view_space_is_ready(&self) -> (ready: bool)
        ensures
            ready == (self@.phase == LayerPhase::SessionCreated),
    {
        match self.phase {
            LayerPhase::SessionCreated => true,
            _ => false,
        }
    }

    /// Answers a query of the per-eye gazes.
    pub fn get_eye_gazes_fb(&self, view_result: Option<XrResult>, has_gaze: bool) -> (answer: EyeGazesAnswer)
        ensures
            answer == eye_gazes_answer(view_result, has_gaze),
    {
        match view_result {
            Some(result) => {
                if result != SUCCESS {
                    EyeGazesAnswer { result, write: false, is_valid: false, poses: None }
                } else if has_gaze {
                    EyeGazesAnswer {
                        result: SUCCESS,
                        write: true,
                        is_valid: true,
                        poses: Some(
                            EyePoses { left: eye_pose_of(Eye::L), right: eye_pose_of(Eye::R) },
                        ),
                    }
                } else {
                    EyeGazesAnswer { result: SUCCESS, write: true, is_valid: false, poses: None }
                }
            },
            None => EyeGazesAnswer { result: SUCCESS, write: true, is_valid: false, poses: None },
        }
    }

    /// Creates the layer's face tracker: always succeeds, with the one
    /// handle that stands for it.
    pub fn create_face_tracker2(&self) -> (created: (XrResult, u64))
        ensures
            created == (SUCCESS, FACE_TRACKER_HANDLE),
    {
        (SUCCESS, FACE_TRACKER_HANDLE)
    }

    /// Destroys the layer's face tracker: always succeeds.
    pub fn destroy_face_tracker2(&self, face_tracker: u64) -> (result: XrResult)
        ensures
            result == SUCCESS,
    {
        SUCCESS
    }

    /// Creates the layer's eye tracker: always succeeds, with the one handle
    /// that stands for it.
    pub fn create_eye_tracker_fb(&self) -> (created: (XrResult, u64))
        ensures
            created == (SUCCESS, EYE_TRACKER_HANDLE),
    {
        (SUCCESS, EYE_TRACKER_HANDLE)
    }

    /// Destroys the layer's eye tracker: always succeeds.
    pub fn destroy_eye_tracker(&self, eye_tracker: u64) -> (result: XrResult)
        ensures
            result == SUCCESS,
    {
        SUCCESS
    }

    /// Follows the runtime's answer to the creation of a swapchain: its
    /// result is handed on unchanged.
    pub fn create_swapchain(&self, runtime_result: XrResult) -> (result: XrResult)
        ensures
            result == runtime_result,
    {
        runtime_result
    }

    /// Follows the runtime's answer to the beginning of a frame: its result
    /// is handed on unchanged.
    pub fn begin_frame(&self, runtime_result: XrResult) -> (result: XrResult)
        ensures
            result == runtime_result,
    {
        runtime_result
    }

    /// Follows the runtime's answer to the end of a frame: its result is
    /// handed on unchanged.
    pub fn end_frame(&self, runtime_result: XrResult) -> (result: XrResult)
        ensures
            result == runtime_result,
    {
        runtime_result
    }

    /// Answers the initialisation of the loader, which comes before any
    /// negotiation and so cannot be handed on: it succeeds where the
    /// initialisation is the one for Android, the only one the layer knows.
    /// `None` for any other.
    pub fn initalize_loader_khr(&self, structure_type: i32) -> (result: Option<XrResult>)
        ensures
            result == if structure_type == TYPE_LOADER_INIT_INFO_ANDROID_KHR {
                Some(SUCCESS)
            } else {
                None
            },
    {
        if structure_type == TYPE_LOADER_INIT_INFO_ANDROID_KHR {
            Some(SUCCESS)
        } else {
            None
        }
    }
}

} // verus!
