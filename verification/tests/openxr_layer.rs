use eyetrackvr_server::openxr_layer::layer::{
    advertised_extensions, expression_source, gaze_is_fresh, gaze_not_ready, locate_gaze,
    reattach_after, virtual_property, BindingError, BindingsAnswer, ExpressionSource,
    ExpressionWeightsAnswer, EyeGazesAnswer, GazeLocation, GazeQuantity, LayerEvent, LayerPhase,
    OpenXRLayer, PoseStateAnswer, SpaceRoute, SuggestedBinding, VirtualProperty,
    ADVERTISED_EXTENSION_COUNT, ERROR_HANDLE_INVALID, ERROR_SIZE_INSUFFICIENT,
    ERROR_VALIDATION_FAILURE, EYE_ORIGIN_OFFSET, EYE_TRACKER_HANDLE, FACE_CONFIDENCE_COUNT,
    FACE_EXPRESSION_COUNT, FACE_TRACKER_HANDLE, FRESHNESS_CUTOFF, GAZE_INTERACTION_PROFILE,
    GAZE_POSE_BINDING, NULL_PATH, ORIENTATION_TRACKED, POSITION_TRACKED, SUCCESS,
    TYPE_EXTENSION_PROPERTIES, TYPE_LOADER_INIT_INFO_ANDROID_KHR,
    TYPE_SYSTEM_EYE_GAZE_INTERACTION_PROPERTIES_EXT, TYPE_SYSTEM_EYE_TRACKING_PROPERTIES_FB,
    TYPE_SYSTEM_FACE_TRACKING_PROPERTIES2_FB,
};
use eyetrackvr_server::openxr_layer::layer::{
    advertised_entries, extension_name_bytes, eye_origin_x, eye_pose_of, EyePoses, PoseSource,
    MAX_EXTENSION_NAME_SIZE,
};
use eyetrackvr_server::structs::Eye;
use openxr_sys::{FaceConfidence2FB, FaceExpression2FB, SpaceLocationFlags, StructureType};

const MS: u64 = 1_000_000;
const RUNTIME_FAILURE: i32 = -2;

#[test]
fn constants_are_those_of_openxr() {
    assert_eq!(SUCCESS, openxr_sys::Result::SUCCESS.into_raw());
    assert_eq!(ERROR_VALIDATION_FAILURE, openxr_sys::Result::ERROR_VALIDATION_FAILURE.into_raw());
    assert_eq!(ERROR_SIZE_INSUFFICIENT, openxr_sys::Result::ERROR_SIZE_INSUFFICIENT.into_raw());
    assert_eq!(ERROR_HANDLE_INVALID, openxr_sys::Result::ERROR_HANDLE_INVALID.into_raw());
    assert_eq!(RUNTIME_FAILURE, openxr_sys::Result::ERROR_RUNTIME_FAILURE.into_raw());
    assert_eq!(TYPE_EXTENSION_PROPERTIES, StructureType::EXTENSION_PROPERTIES.into_raw());
    assert_eq!(
        TYPE_SYSTEM_EYE_GAZE_INTERACTION_PROPERTIES_EXT,
        StructureType::SYSTEM_EYE_GAZE_INTERACTION_PROPERTIES_EXT.into_raw()
    );
    assert_eq!(
        TYPE_SYSTEM_EYE_TRACKING_PROPERTIES_FB,
        StructureType::SYSTEM_EYE_TRACKING_PROPERTIES_FB.into_raw()
    );
    assert_eq!(
        TYPE_SYSTEM_FACE_TRACKING_PROPERTIES2_FB,
        StructureType::SYSTEM_FACE_TRACKING_PROPERTIES2_FB.into_raw()
    );
    assert_eq!(
        TYPE_LOADER_INIT_INFO_ANDROID_KHR,
        StructureType::LOADER_INIT_INFO_ANDROID_KHR.into_raw()
    );
    assert_eq!(NULL_PATH, openxr_sys::Path::NULL.into_raw());
    assert_eq!(ORIENTATION_TRACKED, SpaceLocationFlags::ORIENTATION_TRACKED.into_raw());
    assert_eq!(POSITION_TRACKED, SpaceLocationFlags::POSITION_TRACKED.into_raw());
    assert_eq!(FACE_EXPRESSION_COUNT as i32, FaceExpression2FB::COUNT.into_raw());
    assert_eq!(FACE_CONFIDENCE_COUNT as i32, FaceConfidence2FB::COUNT.into_raw());
    assert_eq!(FRESHNESS_CUTOFF, 50 * MS);
}

#[test]
fn three_extensions_are_advertised() {
    let list = advertised_extensions();
    assert_eq!(list.len(), ADVERTISED_EXTENSION_COUNT as usize);
    let names: Vec<&str> = list.iter().map(|e| e.name).collect();
    assert_eq!(
        names,
        vec!["XR_EXT_eye_gaze_interaction", "XR_FB_face_tracking2", "XR_FB_eye_tracking_social"]
    );
    assert!(list.iter().all(|e| e.version == 1));
    assert!(list.iter().all(|e| e.name.len() < openxr_sys::MAX_EXTENSION_NAME_SIZE));
}

#[test]
fn enumeration_reports_runtime_count_plus_three() {
    let layer = OpenXRLayer::new();
    for runtime_count in [0u32, 1, 17, 1000] {
        let query = layer.enumerate_instance_extension_properties(SUCCESS, runtime_count, 0, &[]);
        assert_eq!(query.count, runtime_count + 3);
        assert_eq!(query.result, SUCCESS);
        assert_eq!(query.appended, 0);

        let capacity = runtime_count + 3;
        let types = vec![TYPE_EXTENSION_PROPERTIES; capacity as usize];
        let filled =
            layer.enumerate_instance_extension_properties(SUCCESS, runtime_count, capacity, &types);
        assert_eq!(filled.count, runtime_count + 3);
        assert_eq!(filled.result, SUCCESS);
        assert_eq!(filled.appended, 3);
    }
}

#[test]
fn enumeration_rejects_a_buffer_that_is_too_small() {
    let layer = OpenXRLayer::new();
    let types = vec![TYPE_EXTENSION_PROPERTIES; 6];
    let answer = layer.enumerate_instance_extension_properties(SUCCESS, 4, 6, &types);
    assert_eq!(answer.result, ERROR_SIZE_INSUFFICIENT);
    assert_eq!(answer.count, 7);
    assert_eq!(answer.appended, 0);
}

#[test]
fn enumeration_checks_the_types_of_its_entries() {
    let layer = OpenXRLayer::new();
    let mut types = vec![TYPE_EXTENSION_PROPERTIES; 8];
    types[6] = 0;
    let answer = layer.enumerate_instance_extension_properties(SUCCESS, 5, 8, &types);
    assert_eq!(answer.result, ERROR_VALIDATION_FAILURE);
    assert_eq!(answer.count, 8);
    assert_eq!(answer.appended, 1);
    // An entry of the runtime's part is not looked at.
    let mut types = vec![TYPE_EXTENSION_PROPERTIES; 8];
    types[0] = 0;
    let answer = layer.enumerate_instance_extension_properties(SUCCESS, 5, 8, &types);
    assert_eq!((answer.result, answer.appended), (SUCCESS, 3));
}

#[test]
fn enumeration_hands_on_a_failure_of_the_runtime() {
    let layer = OpenXRLayer::new();
    let types = vec![TYPE_EXTENSION_PROPERTIES; 10];
    let answer = layer.enumerate_instance_extension_properties(RUNTIME_FAILURE, 2, 10, &types);
    assert_eq!(answer.result, RUNTIME_FAILURE);
    assert_eq!(answer.count, 5);
    assert_eq!(answer.appended, 0);
}

#[test]
fn virtual_structures_are_hidden_and_attached_again_in_order() {
    let layer = OpenXRLayer::new();
    let other_a = StructureType::SYSTEM_HAND_TRACKING_PROPERTIES_EXT.into_raw();
    let other_b = StructureType::SYSTEM_COLOR_SPACE_PROPERTIES_FB.into_raw();
    let chain = [
        StructureType::SYSTEM_PROPERTIES.into_raw(),
        TYPE_SYSTEM_EYE_GAZE_INTERACTION_PROPERTIES_EXT,
        other_a,
        TYPE_SYSTEM_FACE_TRACKING_PROPERTIES2_FB,
        TYPE_SYSTEM_EYE_TRACKING_PROPERTIES_FB,
        other_b,
    ];
    let split = layer.get_system_properties(&chain);
    assert_eq!(split.shown, vec![0, 2, 5]);
    assert_eq!(split.hidden, vec![1, 3, 4]);
    assert_eq!(split.rejoined, vec![0, 1, 2, 3, 4, 5]);
    assert!(reattach_after(SUCCESS));
    assert!(!reattach_after(RUNTIME_FAILURE));
    assert_eq!(
        virtual_property(chain[1]),
        Some(VirtualProperty::EyeGazeInteraction)
    );
    assert_eq!(virtual_property(chain[3]), Some(VirtualProperty::FaceTracking2));
    assert_eq!(virtual_property(chain[4]), Some(VirtualProperty::EyeTrackingSocial));
    assert_eq!(virtual_property(chain[0]), None);
    assert_eq!(virtual_property(other_a), None);
}

#[test]
fn head_of_the_chain_is_never_hidden() {
    let layer = OpenXRLayer::new();
    let split = layer.get_system_properties(&[TYPE_SYSTEM_EYE_TRACKING_PROPERTIES_FB]);
    assert_eq!(split.shown, vec![0]);
    assert!(split.hidden.is_empty());
    assert_eq!(split.rejoined, vec![0]);
    let empty = layer.get_system_properties(&[]);
    assert!(empty.shown.is_empty() && empty.hidden.is_empty() && empty.rejoined.is_empty());
    let middle = layer.get_system_properties(&[5, 7, TYPE_SYSTEM_EYE_TRACKING_PROPERTIES_FB, 9]);
    assert_eq!(middle.shown, vec![0, 1, 3]);
    assert_eq!(middle.hidden, vec![2]);
    assert_eq!(middle.rejoined, vec![0, 1, 2, 3]);
}

fn binding(action: u64, path: &str) -> SuggestedBinding {
    SuggestedBinding { action, binding: path.to_string() }
}

#[test]
fn gaze_binding_names_the_gaze_action_and_space() {
    let (action, space) = (0xA, 0x5);
    let mut layer = OpenXRLayer::new();
    assert_eq!(layer.create_action_space(SUCCESS, 0xB, 77, 0x6), SUCCESS);
    assert_eq!(layer.create_action_space(SUCCESS, action, NULL_PATH, space), SUCCESS);
    assert_eq!(layer.eye_gaze_action(), None);
    let answer = layer.suggest_interaction_profile_bindings(
        "/interaction_profiles/ext/eye_gaze_interaction",
        &[binding(0xB, "/user/hand/left/input/aim/pose"), binding(action, GAZE_POSE_BINDING)],
    );
    assert_eq!(answer, BindingsAnswer::Handled);
    assert_eq!(layer.eye_gaze_action(), Some(action));
    assert_eq!(layer.eye_gaze_space(), Some(space));
    layer.advance(LayerEvent::InstanceCreated);
    layer.advance(LayerEvent::SessionCreated);
    assert_eq!(layer.locate_space(space), SpaceRoute::LocateView);
    assert_eq!(layer.locate_space(0x6), SpaceRoute::PassThrough);
}

#[test]
fn other_profiles_go_to_the_runtime() {
    let mut layer = OpenXRLayer::new();
    layer.create_action_space(SUCCESS, 1, NULL_PATH, 2);
    let answer = layer.suggest_interaction_profile_bindings(
        "/interaction_profiles/khr/simple_controller",
        &[binding(1, GAZE_POSE_BINDING)],
    );
    assert_eq!(answer, BindingsAnswer::Forward);
    assert_eq!(layer.eye_gaze_action(), None);
    assert_eq!(layer.eye_gaze_space(), None);
    assert_eq!(GAZE_INTERACTION_PROFILE, "/interaction_profiles/ext/eye_gaze_interaction");
    assert_eq!(GAZE_POSE_BINDING, "/user/eyes_ext/input/gaze_ext/pose");
}

#[test]
fn gaze_binding_without_a_fitting_space_fails() {
    let mut layer = OpenXRLayer::new();
    let answer =
        layer.suggest_interaction_profile_bindings(GAZE_INTERACTION_PROFILE, &[binding(1, GAZE_POSE_BINDING)]);
    assert_eq!(answer, BindingsAnswer::Failed(BindingError::NoGazeActionSpace));
    assert_eq!(layer.eye_gaze_action(), Some(1));
    assert_eq!(layer.eye_gaze_space(), None);

    let mut layer = OpenXRLayer::new();
    layer.create_action_space(SUCCESS, 1, 10, 100);
    layer.create_action_space(SUCCESS, 1, 11, 101);
    let answer =
        layer.suggest_interaction_profile_bindings(GAZE_INTERACTION_PROFILE, &[binding(1, GAZE_POSE_BINDING)]);
    assert_eq!(answer, BindingsAnswer::Failed(BindingError::SubactionPathsNotUnique));
    assert_eq!(layer.eye_gaze_space(), None);
}

#[test]
fn gaze_space_is_the_one_space_of_the_action_whatever_its_path() {
    let mut layer = OpenXRLayer::new();
    layer.create_action_space(SUCCESS, 2, NULL_PATH, 200);
    layer.create_action_space(SUCCESS, 1, 10, 100);
    let answer =
        layer.suggest_interaction_profile_bindings(GAZE_INTERACTION_PROFILE, &[binding(1, GAZE_POSE_BINDING)]);
    assert_eq!(answer, BindingsAnswer::Handled);
    assert_eq!(layer.eye_gaze_action(), Some(1));
    assert_eq!(layer.eye_gaze_space(), Some(100));
}

#[test]
fn failed_creation_of_an_action_space_is_not_remembered() {
    let mut layer = OpenXRLayer::new();
    assert_eq!(layer.create_action_space(RUNTIME_FAILURE, 1, NULL_PATH, 9), RUNTIME_FAILURE);
    let answer =
        layer.suggest_interaction_profile_bindings(GAZE_INTERACTION_PROFILE, &[binding(1, GAZE_POSE_BINDING)]);
    assert_eq!(answer, BindingsAnswer::Failed(BindingError::NoGazeActionSpace));
    // A later creation for the same action and path replaces the earlier one.
    let mut layer = OpenXRLayer::new();
    layer.create_action_space(SUCCESS, 1, NULL_PATH, 9);
    layer.create_action_space(SUCCESS, 1, NULL_PATH, 10);
    layer.suggest_interaction_profile_bindings(GAZE_INTERACTION_PROFILE, &[binding(1, GAZE_POSE_BINDING)]);
    assert_eq!(layer.eye_gaze_space(), Some(10));
}

#[test]
fn pose_is_active_while_the_gaze_is_fresh() {
    let now = 10_000 * MS;
    assert!(!gaze_is_fresh(None, now));
    assert!(gaze_is_fresh(Some(now), now));
    assert!(gaze_is_fresh(Some(now - 50 * MS), now));
    assert!(!gaze_is_fresh(Some(now - 50 * MS - 1), now));
    assert!(!gaze_is_fresh(Some(0), now));
    assert!(gaze_is_fresh(Some(now + 1), now));
}

#[test]
fn pose_state_of_other_actions_goes_to_the_runtime() {
    let now = 10_000 * MS;
    let mut layer = OpenXRLayer::new();
    // While no gaze action is known, every query goes to the runtime.
    assert_eq!(layer.get_action_state_pose(3, Some(now), now), PoseStateAnswer::PassThrough);
    assert_eq!(layer.get_action_state_pose(1, Some(now), now), PoseStateAnswer::PassThrough);
    layer.create_action_space(SUCCESS, 1, NULL_PATH, 9);
    layer.suggest_interaction_profile_bindings(GAZE_INTERACTION_PROFILE, &[binding(1, GAZE_POSE_BINDING)]);
    assert_eq!(layer.get_action_state_pose(3, Some(now), now), PoseStateAnswer::PassThrough);
    assert_eq!(
        layer.get_action_state_pose(1, Some(now - 51 * MS), now),
        PoseStateAnswer::Answered { is_active: false }
    );
    assert_eq!(
        layer.get_action_state_pose(1, None, now),
        PoseStateAnswer::Answered { is_active: false }
    );
    assert_eq!(
        layer.get_action_state_pose(1, Some(now - 20 * MS), now),
        PoseStateAnswer::Answered { is_active: true }
    );
}

#[test]
fn gaze_space_is_not_located_before_the_session_exists() {
    let mut layer = OpenXRLayer::new();
    assert_eq!(layer.phase(), LayerPhase::Uninitialized);
    // While no gaze space is known, every query goes to the runtime.
    assert_eq!(layer.locate_space(5), SpaceRoute::PassThrough);
    layer.create_action_space(SUCCESS, 1, NULL_PATH, 5);
    layer.suggest_interaction_profile_bindings(GAZE_INTERACTION_PROFILE, &[binding(1, GAZE_POSE_BINDING)]);
    assert_eq!(layer.locate_space(5), SpaceRoute::NotReady);
    assert_eq!(layer.locate_space(6), SpaceRoute::PassThrough);
    assert!(!layer.view_space_is_ready());
    layer.advance(LayerEvent::SessionCreated);
    assert_eq!(layer.phase(), LayerPhase::Uninitialized);
    layer.advance(LayerEvent::InstanceCreated);
    assert_eq!(layer.create_session(RUNTIME_FAILURE), RUNTIME_FAILURE);
    assert_eq!(layer.phase(), LayerPhase::InstanceCreated);
    assert_eq!(layer.create_session(SUCCESS), SUCCESS);
    assert_eq!(layer.phase(), LayerPhase::SessionCreated);
    assert!(layer.view_space_is_ready());
    assert_eq!(layer.locate_space(5), SpaceRoute::LocateView);
    assert_eq!(layer.locate_space(6), SpaceRoute::PassThrough);
    layer.advance(LayerEvent::SessionDestroyed);
    assert_eq!(layer.locate_space(5), SpaceRoute::NotReady);
    layer.advance(LayerEvent::InstanceDestroyed);
    assert_eq!(layer.phase(), LayerPhase::InstanceDestroyed);
}

#[test]
fn located_gaze_sets_or_clears_the_tracked_flags() {
    let valid = SpaceLocationFlags::ORIENTATION_VALID.into_raw()
        | SpaceLocationFlags::POSITION_VALID.into_raw();
    let gaze = PoseSource { pitch: GazeQuantity::GazePitch, yaw: GazeQuantity::GazeYaw, origin_x: 0 };
    assert_eq!(
        locate_gaze(SUCCESS, true, valid),
        GazeLocation { result: SUCCESS, location_flags: valid | 0xC, pose: Some(gaze) }
    );
    assert_eq!(
        locate_gaze(SUCCESS, false, valid | 0xC),
        GazeLocation { result: SUCCESS, location_flags: valid, pose: None }
    );
    assert_eq!(
        locate_gaze(RUNTIME_FAILURE, true, 0xF),
        GazeLocation { result: RUNTIME_FAILURE, location_flags: 0xF, pose: None }
    );
    assert_eq!(
        gaze_not_ready(0xF),
        GazeLocation { result: SUCCESS, location_flags: 0x3, pose: None }
    );
}

#[test]
fn expression_weights_need_room_for_all_of_them() {
    let layer = OpenXRLayer::new();
    let invalid = ExpressionWeightsAnswer { result: ERROR_VALIDATION_FAILURE, is_valid: false, fill: false };
    assert_eq!(layer.get_face_expression_weights2(69, 2, true), invalid);
    assert_eq!(layer.get_face_expression_weights2(70, 3, true), invalid);
    assert_eq!(
        layer.get_face_expression_weights2(70, 2, false),
        ExpressionWeightsAnswer { result: SUCCESS, is_valid: false, fill: false }
    );
    assert_eq!(
        layer.get_face_expression_weights2(70, 2, true),
        ExpressionWeightsAnswer { result: SUCCESS, is_valid: true, fill: true }
    );
}

fn source(quantity: GazeQuantity, zero_at: i32, one_at: i32) -> Option<ExpressionSource> {
    Some(ExpressionSource { quantity, zero_at, one_at })
}

#[test]
fn only_the_eye_expressions_have_a_source() {
    let raw = |e: FaceExpression2FB| e.into_raw() as u32;
    let (left_eyelid, right_eyelid) = (GazeQuantity::LeftEyelid, GazeQuantity::RightEyelid);
    let (left_yaw, right_yaw, pitch) = (GazeQuantity::LeftYaw, GazeQuantity::RightYaw, GazeQuantity::Pitch);
    let expected = [
        (raw(FaceExpression2FB::UPPER_LID_RAISER_L), source(left_eyelid, 75, 100)),
        (raw(FaceExpression2FB::UPPER_LID_RAISER_R), source(right_eyelid, 75, 100)),
        (raw(FaceExpression2FB::EYES_CLOSED_L), source(left_eyelid, 75, 0)),
        (raw(FaceExpression2FB::EYES_CLOSED_R), source(right_eyelid, 75, 0)),
        (raw(FaceExpression2FB::EYES_LOOK_LEFT_L), source(left_yaw, 0, -4500)),
        (raw(FaceExpression2FB::EYES_LOOK_RIGHT_L), source(left_yaw, 0, 4500)),
        (raw(FaceExpression2FB::EYES_LOOK_UP_L), source(pitch, 0, 4500)),
        (raw(FaceExpression2FB::EYES_LOOK_DOWN_L), source(pitch, 0, -4500)),
        (raw(FaceExpression2FB::EYES_LOOK_LEFT_R), source(right_yaw, 0, -4500)),
        (raw(FaceExpression2FB::EYES_LOOK_RIGHT_R), source(right_yaw, 0, 4500)),
        (raw(FaceExpression2FB::EYES_LOOK_UP_R), source(pitch, 0, 4500)),
        (raw(FaceExpression2FB::EYES_LOOK_DOWN_R), source(pitch, 0, -4500)),
    ];
    let mut with_source = 0;
    for index in 0..FACE_EXPRESSION_COUNT + 5 {
        let found = expression_source(index);
        match expected.iter().find(|(i, _)| *i == index) {
            Some((_, wanted)) => {
                assert_eq!(found, *wanted, "index {index}");
                with_source += 1;
            },
            None => assert_eq!(found, None, "index {index}"),
        }
    }
    assert_eq!(with_source, 12);
}

#[test]
fn eye_gazes_are_valid_with_a_view_and_a_gaze() {
    let layer = OpenXRLayer::new();
    let left = PoseSource { pitch: GazeQuantity::Pitch, yaw: GazeQuantity::LeftYaw, origin_x: -325 };
    let right = PoseSource { pitch: GazeQuantity::Pitch, yaw: GazeQuantity::RightYaw, origin_x: 325 };
    assert_eq!(eye_pose_of(Eye::L), left);
    assert_eq!(eye_pose_of(Eye::R), right);
    assert_eq!(
        layer.get_eye_gazes_fb(Some(SUCCESS), true),
        EyeGazesAnswer {
            result: SUCCESS,
            write: true,
            is_valid: true,
            poses: Some(EyePoses { left, right })
        }
    );
    assert_eq!(
        layer.get_eye_gazes_fb(Some(SUCCESS), false),
        EyeGazesAnswer { result: SUCCESS, write: true, is_valid: false, poses: None }
    );
    assert_eq!(
        layer.get_eye_gazes_fb(Some(RUNTIME_FAILURE), true),
        EyeGazesAnswer { result: RUNTIME_FAILURE, write: false, is_valid: false, poses: None }
    );
    assert_eq!(
        layer.get_eye_gazes_fb(None, true),
        EyeGazesAnswer { result: SUCCESS, write: true, is_valid: false, poses: None }
    );
    assert_eq!(EYE_ORIGIN_OFFSET, 325);
    assert_eq!(eye_origin_x(Eye::L), -325);
    assert_eq!(eye_origin_x(Eye::R), 325);
    assert_eq!(eye_origin_x(Eye::L) as f32 / 10000.0, -0.0325f32);
}

#[test]
fn names_of_entries_are_closed_by_a_nul() {
    assert_eq!(MAX_EXTENSION_NAME_SIZE, openxr_sys::MAX_EXTENSION_NAME_SIZE);
    let entries = advertised_entries();
    let names = ["XR_EXT_eye_gaze_interaction", "XR_FB_face_tracking2", "XR_FB_eye_tracking_social"];
    assert_eq!(entries.len(), 3);
    for (entry, name) in entries.iter().zip(names) {
        assert_eq!(entry.extension_version, 1);
        assert_eq!(entry.extension_name.len(), 128);
        assert_eq!(&entry.extension_name[..name.len()], name.as_bytes());
        assert!(entry.extension_name[name.len()..].iter().all(|b| *b == 0));
        let end = entry.extension_name.iter().position(|b| *b == 0).unwrap();
        assert_eq!(&entry.extension_name[..end], name.as_bytes());
    }
    assert_eq!(extension_name_bytes(""), Some(vec![0; 128]));
    let longest = "x".repeat(127);
    let written = extension_name_bytes(&longest).unwrap();
    assert_eq!((written[126], written[127]), (b'x', 0));
    assert_eq!(extension_name_bytes(&"x".repeat(128)), None);
    assert_eq!(extension_name_bytes("XR_a\0b"), None);
}

#[test]
fn trackers_and_pass_through_calls() {
    let layer = OpenXRLayer::new();
    assert_eq!(layer.create_face_tracker2(), (SUCCESS, 99999990));
    assert_eq!(layer.create_eye_tracker_fb(), (SUCCESS, 99999991));
    assert_eq!(FACE_TRACKER_HANDLE, 99999990);
    assert_eq!(EYE_TRACKER_HANDLE, 99999991);
    assert_eq!(layer.destroy_face_tracker2(FACE_TRACKER_HANDLE), SUCCESS);
    assert_eq!(layer.destroy_eye_tracker(EYE_TRACKER_HANDLE), SUCCESS);
    for result in [SUCCESS, RUNTIME_FAILURE, ERROR_HANDLE_INVALID] {
        assert_eq!(layer.create_swapchain(result), result);
        assert_eq!(layer.begin_frame(result), result);
        assert_eq!(layer.end_frame(result), result);
    }
    assert_eq!(layer.initalize_loader_khr(TYPE_LOADER_INIT_INFO_ANDROID_KHR), Some(SUCCESS));
    assert_eq!(layer.initalize_loader_khr(0), None);
}
