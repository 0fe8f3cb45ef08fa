use eyetrackvr_server::openxr_layer::input::{
    ActiveHand, HandButtons, InputState, PointerButton, CLICK_THRESHOLD_TENTHS, COMBO_TOLERANCE,
    COMBO_WINDOW,
};

const MS: u64 = 1_000_000;
const IDLE: HandButtons = HandButtons { click: false, grip: false };
const CLICK: HandButtons = HandButtons { click: true, grip: false };
const COMBO: HandButtons = HandButtons { click: true, grip: true };
const DOWN: PointerButton = PointerButton { down: true };
const UP: PointerButton = PointerButton { down: false };

#[test]
fn input_starts_with_the_right_hand() {
    let state = InputState::default();
    assert_eq!(state.active_hand, ActiveHand::Right);
    assert_eq!(state.last_click_down, [false, false]);
    assert_eq!(state.last_grip_down, [false, false]);
    assert_eq!(state.last_combo_time, [None, None]);
    assert_eq!(state.combo_count, [0, 0]);
    assert_eq!(COMBO_WINDOW + COMBO_TOLERANCE, 220 * MS);
    assert_eq!(CLICK_THRESHOLD_TENTHS as f32 / 10.0, 0.8f32);
}

#[test]
fn click_of_the_cursor_hand_presses_and_releases() {
    let mut state = InputState::default();
    let frame = state.process_inputs([IDLE, CLICK], 0);
    assert_eq!(frame.active_hand, ActiveHand::Right);
    assert_eq!(frame.button_events, vec![DOWN]);
    let held = state.process_inputs([IDLE, CLICK], 10 * MS);
    assert!(held.button_events.is_empty());
    let released = state.process_inputs([IDLE, IDLE], 20 * MS);
    assert_eq!(released.button_events, vec![UP]);
}

#[test]
fn click_of_the_other_hand_makes_it_the_cursor() {
    let mut state = InputState::default();
    let frame = state.process_inputs([CLICK, IDLE], 0);
    assert_eq!(frame.active_hand, ActiveHand::Left);
    assert_eq!(state.active_hand, ActiveHand::Left);
    assert_eq!(frame.button_events, vec![DOWN]);
    // Both triggers go down at once: the right hand, looked at last, wins.
    let mut state = InputState::default();
    let frame = state.process_inputs([CLICK, CLICK], 0);
    assert_eq!(frame.active_hand, ActiveHand::Right);
    assert_eq!(frame.button_events, vec![DOWN]);
    let frame = state.process_inputs([IDLE, IDLE], 1);
    assert_eq!(frame.button_events, vec![UP, UP]);
}

#[test]
fn double_press_within_the_window_fires() {
    let mut state = InputState::default();
    let first = state.process_inputs([COMBO, IDLE], 1_000 * MS);
    assert_eq!(first.double_press, [false, false]);
    assert_eq!(state.last_combo_time, [Some(1_000 * MS), None]);
    assert_eq!(state.combo_count, [1, 0]);
    state.process_inputs([IDLE, IDLE], 1_050 * MS);
    let second = state.process_inputs([COMBO, IDLE], 1_220 * MS);
    assert_eq!(second.double_press, [true, false]);
    assert_eq!(state.last_combo_time, [None, None]);
    assert_eq!(state.combo_count, [0, 0]);
}

#[test]
fn double_press_after_the_window_starts_anew() {
    let mut state = InputState::default();
    state.process_inputs([IDLE, COMBO], 1_000 * MS);
    state.process_inputs([IDLE, IDLE], 1_100 * MS);
    let late = state.process_inputs([IDLE, COMBO], 1_221 * MS);
    assert_eq!(late.double_press, [false, false]);
    assert_eq!(state.last_combo_time, [None, Some(1_221 * MS)]);
    assert_eq!(state.combo_count, [0, 1]);
}

#[test]
fn held_grip_does_not_count_as_a_new_press() {
    let mut state = InputState::default();
    state.process_inputs([COMBO, IDLE], 0);
    // The trigger is let go and pulled again while the grip stays down.
    state.process_inputs([HandButtons { click: false, grip: true }, IDLE], 50 * MS);
    let again = state.process_inputs([COMBO, IDLE], 100 * MS);
    assert_eq!(again.double_press, [false, false]);
    assert_eq!(state.combo_count, [1, 0]);
    assert_eq!(state.last_grip_down, [true, false]);
    assert_eq!(state.last_click_down, [true, false]);
}
