//! The entry points of the layer: negotiation with the loader, instance
//! creation, and the lookup of function addresses.
//!
//! A lookup is answered in three steps. First the layer decides whether the
//! name may be looked up at all, and whether the next layer is asked for it.
//! Then, unless the next layer failed, the layer saves the address it got
//! and puts its own function in its place, as the name demands.

use vstd::prelude::*;
use crate::openxr_layer::layer::{XrResult, ERROR_HANDLE_INVALID, SUCCESS};
use crate::text::str_eq;

verus! {

/// The version of the loader interface that the layer speaks.
pub const CURRENT_LOADER_API_LAYER_VERSION: u32 = 1;

/// A function of the layer that can stand in place of the runtime's.
#[derive(Debug, Clone, Copy, PartialEq, Eq, Structural)]
pub enum Hook {
    CreateSession,
    InitializeLoaderKHR,
    CreateSwapchain,
    BeginFrame,
    EndFrame,
    CreateReferenceSpace,
    EnumerateInstanceExtensionProperties,
    GetSystemProperties,
    SuggestInteractionProfileBindings,
    CreateActionSpace,
    GetActionStatePose,
    LocateSpace,
    CreateFaceTracker2FB,
    DestroyFaceTracker2FB,
    GetFaceExpressionWeights2FB,
    CreateEyeTrackerFB,
    DestroyEyeTrackerFB,
    GetEyeGazesFB,
}

/// The function of the layer that `name` concerns, if any.
pub open spec fn hook_of(name: Seq<char>) -> Option<Hook> {
    if name == "xrCreateSession"@ {
        Some(Hook::CreateSession)
    } else if name == "xrInitializeLoaderKHR"@ {
        Some(Hook::InitializeLoaderKHR)
    } else if name == "xrCreateSwapchain"@ {
        Some(Hook::CreateSwapchain)
    } else if name == "xrBeginFrame"@ {
        Some(Hook::BeginFrame)
    } else if name == "xrEndFrame"@ {
        Some(Hook::EndFrame)
    } else if name == "xrCreateReferenceSpace"@ {
        Some(Hook::CreateReferenceSpace)
    } else if name == "xrEnumerateInstanceExtensionProperties"@ {
        Some(Hook::EnumerateInstanceExtensionProperties)
    } else if name == "xrGetSystemProperties"@ {
        Some(Hook::GetSystemProperties)
    } else if name == "xrSuggestInteractionProfileBindings"@ {
        Some(Hook::SuggestInteractionProfileBindings)
    } else if name == "xrCreateActionSpace"@ {
        Some(Hook::CreateActionSpace)
    } else if name == "xrGetActionStatePose"@ {
        Some(Hook::GetActionStatePose)
    } else if name == "xrLocateSpace"@ {
        Some(Hook::LocateSpace)
    } else if name == "xrCreateFaceTracker2FB"@ {
        Some(Hook::CreateFaceTracker2FB)
    } else if name == "xrDestroyFaceTracker2FB"@ {
        Some(Hook::DestroyFaceTracker2FB)
    } else if name == "xrGetFaceExpressionWeights2FB"@ {
        Some(Hook::GetFaceExpressionWeights2FB)
    } else if name == "xrCreateEyeTrackerFB"@ {
        Some(Hook::CreateEyeTrackerFB)
    } else if name == "xrDestroyEyeTrackerFB"@ {
        Some(Hook::DestroyEyeTrackerFB)
    } else if name == "xrGetEyeGazesFB"@ {
        Some(Hook::GetEyeGazesFB)
    } else {
        None
    }
}

/// Whether the function behind `hook` exists only in the layer, so that the
/// next layer is never asked for it: the functions of face tracking and of
/// social eye tracking, which the layer offers whether or not the runtime
/// has them.
pub open spec fn is_virtual(hook: Hook) -> bool {
    hook is CreateFaceTracker2FB || hook is DestroyFaceTracker2FB
        || hook is GetFaceExpressionWeights2FB || hook is CreateEyeTrackerFB
        || hook is DestroyEyeTrackerFB || hook is GetEyeGazesFB
}

/// Whether the layer puts its own function in place of the address that
/// the next layer gave for `hook`. The creation of reference spaces is only
/// listened in on: the layer keeps the address for its own use.
pub open spec fn is_replaced(hook: Hook) -> bool {
    !(hook is CreateReferenceSpace)
}

/// Whether `name` may be looked up without an instance.
pub open spec fn allowed_without_instance(name: Seq<char>) -> bool {
    name == "xrEnumerateInstanceExtensionProperties"@ || name == "xrEnumerateApiLayerProperties"@
        || name == "xrCreateInstance"@
}

/// How a lookup of a function address begins.
#[derive(Debug, Clone, Copy, PartialEq, Eq, Structural)]
pub enum ProcAddrLookup {
    /// The lookup is refused with this result; nothing else happens.
    Refused(XrResult),
    /// The lookup goes on: the next layer is asked where `ask_next` says
    /// so, and `hook` is what the layer then does with the address.
    Proceed { ask_next: bool, hook: Option<Hook> },
}

/// The beginning of a lookup: without an instance only three names may be
/// looked up. The next layer is asked for every name but those of the
/// functions that exist only in the layer.
pub open spec fn lookup_of(instance_is_null: bool, name: Seq<char>) -> ProcAddrLookup {
    if instance_is_null && !allowed_without_instance(name) {
        ProcAddrLookup::Refused(ERROR_HANDLE_INVALID)
    } else {
        ProcAddrLookup::Proceed {
            ask_next: !(hook_of(name) matches Some(hook) && is_virtual(hook)),
            hook: hook_of(name),
        }
    }
}

/// What the layer does with the address of a function, once the next layer
/// has been asked where it had to be.
#[derive(Debug, Clone, Copy, PartialEq, Eq, Structural)]
pub enum ProcAddrOutcome {
    /// The next layer failed: its result is handed on unchanged.
    Failed(XrResult),
    /// The lookup succeeds. Where `save_next` holds, the layer keeps the
    /// address that the next layer gave under `hook`; where `replace` holds,
    /// it hands out its own function for `hook` instead.
    Resolved { hook: Option<Hook>, save_next: bool, replace: bool },
}

/// The outcome of a lookup that went on. `next_result` is the result of the
/// next layer where it was asked.
pub open spec fn outcome_of(hook: Option<Hook>, asked_next: bool, next_result: XrResult) -> ProcAddrOutcome {
    if asked_next && next_result != SUCCESS {
        ProcAddrOutcome::Failed(next_result)
    } else {
        match hook {
            Some(hook) => ProcAddrOutcome::Resolved {
                hook: Some(hook),
                save_next: !is_virtual(hook),
                replace: is_replaced(hook),
            },
            None => ProcAddrOutcome::Resolved { hook: None, save_next: false, replace: false },
        }
    }
}

/// The function of the layer that `name` concerns, if any.
pub fn hook_for(name: &str) -> (hook: Option<Hook>)
    ensures
        hook == hook_of(name@),
{
    if str_eq(name, "xrCreateSession") {
        Some(Hook::CreateSession)
    } else if str_eq(name, "xrInitializeLoaderKHR") {
        Some(Hook::InitializeLoaderKHR)
    } else if str_eq(name, "xrCreateSwapchain") {
        Some(Hook::CreateSwapchain)
    } else if str_eq(name, "xrBeginFrame") {
        Some(Hook::BeginFrame)
    } else if str_eq(name, "xrEndFrame") {
        Some(Hook::EndFrame)
    } else if str_eq(name, "xrCreateReferenceSpace") {
        Some(Hook::CreateReferenceSpace)
    } else if str_eq(name, "xrEnumerateInstanceExtensionProperties") {
        Some(Hook::EnumerateInstanceExtensionProperties)
    } else if str_eq(name, "xrGetSystemProperties") {
        Some(Hook::GetSystemProperties)
    } else if str_eq(name, "xrSuggestInteractionProfileBindings") {
        Some(Hook::SuggestInteractionProfileBindings)
    } else if str_eq(name, "xrCreateActionSpace") {
        Some(Hook::CreateActionSpace)
    } else if str_eq(name, "xrGetActionStatePose") {
        Some(Hook::GetActionStatePose)
    } else if str_eq(name, "xrLocateSpace") {
        Some(Hook::LocateSpace)
    } else if str_eq(name, "xrCreateFaceTracker2FB") {
        Some(Hook::CreateFaceTracker2FB)
    } else if str_eq(name, "xrDestroyFaceTracker2FB") {
        Some(Hook::DestroyFaceTracker2FB)
    } else if str_eq(name, "xrGetFaceExpressionWeights2FB") {
        Some(Hook::GetFaceExpressionWeights2FB)
    } else if str_eq(name, "xrCreateEyeTrackerFB") {
        Some(Hook::CreateEyeTrackerFB)
    } else if str_eq(name, "xrDestroyEyeTrackerFB") {
        Some(Hook::DestroyEyeTrackerFB)
    } else if str_eq(name, "xrGetEyeGazesFB") {
        Some(Hook::GetEyeGazesFB)
    } else {
        None
    }
}

/// Whether the function behind `hook` exists only in the layer.
pub fn hook_is_virtual(hook: Hook) -> (only_here: bool)
    ensures
        only_here == is_virtual(hook),
{
    match hook {
        Hook::CreateFaceTracker2FB | Hook::DestroyFaceTracker2FB | Hook::GetFaceExpressionWeights2FB => true,
        Hook::CreateEyeTrackerFB | Hook::DestroyEyeTrackerFB | Hook::GetEyeGazesFB => true,
        _ => false,
    }
}

/// Begins the lookup of the address of the function `api_name`.
pub fn xr_get_instance_proc_addr(instance_is_null: bool, api_name: &str) -> (lookup: ProcAddrLookup)
    ensures
        lookup == lookup_of(instance_is_null, api_name@),
{
    if instance_is_null && !(str_eq(api_name, "xrEnumerateInstanceExtensionProperties") || str_eq(
        api_name,
        "xrEnumerateApiLayerProperties",
    ) || str_eq(api_name, "xrCreateInstance")) {
        return ProcAddrLookup::Refused(ERROR_HANDLE_INVALID);
    }
    let hook = hook_for(api_name);
    let ask_next = match hook {
        Some(h) => !hook_is_virtual(h),
        None => true,
    };
    ProcAddrLookup::Proceed { ask_next, hook }
}

/// Ends a lookup that went on: `asked_next` says whether the next layer
/// was asked, and `next_result` is what it returned then.
pub fn resolve_proc_addr(hook: Option<Hook>, asked_next: bool, next_result: XrResult) -> (outcome: ProcAddrOutcome)
    ensures
        outcome == outcome_of(hook, asked_next, next_result),
{
    if asked_next && next_result != SUCCESS {
        return ProcAddrOutcome::Failed(next_result);
    }
    match hook {
        Some(h) => {
            let replace = match h {
                Hook::CreateReferenceSpace => false,
                _ => true,
            };
            ProcAddrOutcome::Resolved { hook: Some(h), save_next: !hook_is_virtual(h), replace }
        },
        None => ProcAddrOutcome::Resolved { hook: None, save_next: false, replace: false },
    }
}

/// A lookup that fails with the next layer hands on that layer's result,
/// whatever the name; a lookup that succeeds never replaces an address
/// without having saved the runtime's, except for the functions that exist
/// only in the layer.
pub proof fn lemma_lookup_keeps_or_hands_on(hook: Option<Hook>, asked_next: bool, next_result: XrResult)
    ensures
        asked_next && next_result != SUCCESS ==> outcome_of(hook, asked_next, next_result)
            == ProcAddrOutcome::Failed(next_result),
        outcome_of(hook, asked_next, next_result) matches ProcAddrOutcome::Resolved {
            hook: Some(h),
            save_next,
            replace,
        } ==> (save_next || is_virtual(h)) && (replace || h is CreateReferenceSpace),
{
}

// ---------------------------------------------------------------------------
// Negotiation and instance creation
// ---------------------------------------------------------------------------

/// The structure type of the loader's side of the negotiation.
pub const LOADER_INFO: i32 = 1;

/// The structure type of the layer's side of the negotiation.
pub const API_LAYER_REQUEST: i32 = 2;

/// The version of both structures of the negotiation.
pub const LOADER_STRUCT_VERSION: u32 = 1;

/// The head of a structure of the negotiation.
#[derive(Debug, Clone, Copy, PartialEq, Eq, Structural)]
pub struct LoaderStruct {
    pub struct_type: i32,
    pub struct_version: u32,
    pub struct_size: usize,
}

/// Checks the head of a structure of the negotiation: its type and size
/// must be the expected ones, and its version the one the layer knows.
pub fn accepts_struct(head: &LoaderStruct, expected_type: i32, expected_size: usize) -> (acceptable: bool)
    ensures
        acceptable == (head.struct_type == expected_type && head.struct_version
            == LOADER_STRUCT_VERSION && head.struct_size == expected_size),
{
    head.struct_type == expected_type && head.struct_version == LOADER_STRUCT_VERSION
        && head.struct_size == expected_size
}

/// The versions that the loader offers in the negotiation.
#[derive(Debug, Clone, Copy, PartialEq, Eq, Structural)]
pub struct LoaderOffer {
    pub min_interface_version: u32,
    pub max_interface_version: u32,
    pub min_api_version: u64,
    pub max_api_version: u64,
}

/// Whether the layer can work with what the loader offers: the layer's
/// interface version lies within the offered range and is its upper end,
/// and the layer's API version lies within the offered range.
pub open spec fn offer_is_acceptable(offer: LoaderOffer, layer_api_version: u64) -> bool {
    &&& offer.min_interface_version <= CURRENT_LOADER_API_LAYER_VERSION
    &&& offer.max_interface_version == CURRENT_LOADER_API_LAYER_VERSION
    &&& offer.min_api_version <= layer_api_version <= offer.max_api_version
}

/// Checks the offer of the loader against the layer's own versions.
pub fn accepts_offer(offer: &LoaderOffer, layer_api_version: u64) -> (acceptable: bool)
    ensures
        acceptable == offer_is_acceptable(*offer, layer_api_version),
{
    offer.min_interface_version <= CURRENT_LOADER_API_LAYER_VERSION && offer.max_interface_version
        >= CURRENT_LOADER_API_LAYER_VERSION && offer.max_interface_version
        <= CURRENT_LOADER_API_LAYER_VERSION && offer.max_api_version >= layer_api_version
        && offer.min_api_version <= layer_api_version
}

/// The part of the enabled extensions that is handed on to the next layer
/// at instance creation, as the index of its first entry and its length:
/// all but the first entry, which by convention names what only the layer
/// provides and the runtime would refuse. `None` where no extension is
/// enabled at all.
pub fn forwarded_extensions(enabled_extension_count: u32) -> (forwarded: Option<(u32, u32)>)
    ensures
        forwarded == if enabled_extension_count == 0 {
            None
        } else {
            Some((1u32, (enabled_extension_count - 1) as u32))
        },
{
    if enabled_extension_count == 0 {
        None
    } else {
        Some((1, enabled_extension_count - 1))
    }
}

/// Follows the answer of the next layer to the creation of the instance:
/// its result is handed on unchanged, and the layer takes the instance as
/// its own exactly when it succeeded.
pub fn xr_create_api_layer_instance(next_result: XrResult) -> (adopt: bool)
    ensures
        adopt == (next_result == SUCCESS),
{
    next_result == SUCCESS
}

} // verus!
