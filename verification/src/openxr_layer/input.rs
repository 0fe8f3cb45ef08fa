//! Controller input for the overlay: which hand acts as the cursor, the
//! pointer button events that follow from the triggers, and the detection
//! of the double press of trigger and grip together.

use vstd::prelude::*;

verus! {

/// Two presses of trigger and grip together count as a double press when
/// the second follows the first within this time: 180 ms.
pub const COMBO_WINDOW: u64 = 180_000_000;

/// What is allowed on top of [`COMBO_WINDOW`]: 40 ms.
pub const COMBO_TOLERANCE: u64 = 40_000_000;

/// How far a trigger or a grip must be pulled to count as pressed, in tenths
/// of its full travel: more than 0.8.
pub const CLICK_THRESHOLD_TENTHS: u32 = 8;

/// Which hand currently acts as the UI cursor.
#[derive(Debug, Copy, Clone, PartialEq, Eq, Structural)]
pub enum ActiveHand {
    Left,
    Right,
}

/// What one hand does in a frame: whether its trigger and its grip are
/// pressed.
#[derive(Debug, Copy, Clone, PartialEq, Eq, Structural)]
pub struct HandButtons {
    pub click: bool,
    pub grip: bool,
}

/// A press or a release of the pointer button.
#[derive(Debug, Copy, Clone, PartialEq, Eq, Structural)]
pub struct PointerButton {
    pub down: bool,
}

/// What is kept from frame to frame, per hand where it is an array: the
/// left hand first.
#[derive(Debug)]
pub struct InputState {
    pub active_hand: ActiveHand,
    pub last_click_down: [bool; 2],
    pub last_grip_down: [bool; 2],
    /// The time of the first press of a possible double press, in
    /// nanoseconds of a monotonic clock.
    pub last_combo_time: [Option<u64>; 2],
    pub combo_count: [u8; 2],
}

impl Default for InputState {
    fn default() -> (state: InputState)
        ensures
            state.active_hand == ActiveHand::Right,
            state.last_click_down@ == seq![false, false],
            state.last_grip_down@ == seq![false, false],
            state.last_combo_time@ == seq![None::<u64>, None::<u64>],
            state.combo_count@ == seq![0u8, 0u8],
    {
        let state = InputState {
            active_hand: ActiveHand::Right,
            last_click_down: [false, false],
            last_grip_down: [false, false],
            last_combo_time: [None, None],
            combo_count: [0, 0],
        };
        assert(state.last_click_down@ =~= seq![false, false]);
        assert(state.last_grip_down@ =~= seq![false, false]);
        assert(state.last_combo_time@ =~= seq![None::<u64>, None::<u64>]);
        assert(state.combo_count@ =~= seq![0u8, 0u8]);
        state
    }
}

/// The hand that is the cursor after the triggers of a frame: a hand that
/// is not the cursor becomes it when its trigger goes down. The left hand
/// is looked at first.
pub open spec fn active_after(active: ActiveHand, last_click: Seq<bool>, clicks: Seq<bool>) -> ActiveHand {
    let after_left = if clicks[0] && !last_click[0] && active != ActiveHand::Left {
        ActiveHand::Left
    } else {
        active
    };
    if clicks[1] && !last_click[1] && after_left != ActiveHand::Right {
        ActiveHand::Right
    } else {
        after_left
    }
}

/// The pointer button events of one hand: a press when the trigger of the
/// cursor hand goes down, a release when the trigger of either hand goes up.
pub open spec fn hand_events(is_cursor: bool, last_click: bool, click: bool) -> Seq<PointerButton> {
    if click && !last_click && is_cursor {
        seq![PointerButton { down: true }]
    } else if !click && last_click {
        seq![PointerButton { down: false }]
    } else {
        Seq::empty()
    }
}

/// The memory of the double press of one hand after a frame. A press of
/// trigger and grip together counts when the grip was not down before.
/// The first press is noted with its time. A second press within the window
/// completes the double press and clears the memory; a later one starts anew.
pub open spec fn combo_after(
    last_time: Option<u64>,
    count: u8,
    last_grip: bool,
    buttons: HandButtons,
    now: u64,
) -> (Option<u64>, u8) {
    if buttons.click && buttons.grip && !last_grip {
        match last_time {
            None => (Some(now), 1u8),
            Some(previous) => {
                if now - previous <= COMBO_WINDOW + COMBO_TOLERANCE {
                    if count + 1 >= 2 {
                        (None, 0u8)
                    } else {
                        (last_time, 1u8)
                    }
                } else {
                    (Some(now), 1u8)
                }
            },
        }
    } else {
        (last_time, count)
    }
}

/// Whether a hand completes a double press in a frame.
pub open spec fn combo_fires(
    last_time: Option<u64>,
    count: u8,
    last_grip: bool,
    buttons: HandButtons,
    now: u64,
) -> bool {
    &&& buttons.click && buttons.grip && !last_grip
    &&& last_time matches Some(previous)
    &&& now - previous <= COMBO_WINDOW + COMBO_TOLERANCE
    &&& count + 1 >= 2
}

/// What a frame of input comes to.
pub struct InputFrame {
    /// The hand that is the cursor in this frame.
    pub active_hand: ActiveHand,
    /// The pointer button events, those of the left hand first.
    pub button_events: Vec<PointerButton>,
    /// Per hand, whether it has completed a double press of trigger and grip.
    pub double_press: [bool; 2],
}

fn combo_step(last_time: Option<u64>, count: u8, last_grip: bool, buttons: HandButtons, now: u64) -> (out: (Option<u64>, u8, bool))
    ensures
        (out.0, out.1) == combo_after(last_time, count, last_grip, buttons, now),
        out.2 == combo_fires(last_time, count, last_grip, buttons, now),
{
    if buttons.click && buttons.grip && !last_grip {
        match last_time {
            None => (Some(now), 1, false),
            Some(previous) => {
                let elapsed = if now >= previous {
                    now - previous
                } else {
                    0
                };
                if elapsed <= COMBO_WINDOW + COMBO_TOLERANCE {
                    if count >= 1 {
                        (None, 0, true)
                    } else {
                        (last_time, 1, false)
                    }
                } else {
                    (Some(now), 1, false)
                }
            },
        }
    } else {
        (last_time, count, false)
    }
}

impl InputState {
    /// Takes in the buttons of both hands, the left first, at the time
    /// `now`, in nanoseconds of a monotonic clock.
    pub fn process_inputs(&mut self, hands: [HandButtons; 2], now: u64) -> (frame: InputFrame)
        ensures
            final(self).active_hand == active_after(
                old(self).active_hand,
                old(self).last_click_down@,
                seq![hands[0].click, hands[1].click],
            ),
            frame.active_hand == final(self).active_hand,
            frame.button_events@ == hand_events(
                final(self).active_hand == ActiveHand::Left,
                old(self).last_click_down[0],
                hands[0].click,
            ) + hand_events(
                final(self).active_hand == ActiveHand::Right,
                old(self).last_click_down[1],
                hands[1].click,
            ),
            final(self).last_click_down@ == seq![hands[0].click, hands[1].click],
            final(self).last_grip_down@ == seq![hands[0].grip, hands[1].grip],
            forall|h: int|
                0 <= h < 2 ==> (
                #[trigger] final(self).last_combo_time[h], final(self).combo_count[h]) == combo_after(
                    old(self).last_combo_time[h],
                    old(self).combo_count[h],
                    old(self).last_grip_down[h],
                    hands[h],
                    now,
                ),
            forall|h: int|
                0 <= h < 2 ==> #[trigger] frame.double_press[h] == combo_fires(
                    old(self).last_combo_time[h],
                    old(self).combo_count[h],
                    old(self).last_grip_down[h],
                    hands[h],
                    now,
                ),
    {
        let left = hands[0];
        let right = hands[1];
        let last_left = self.last_click_down[0];
        let last_right = self.last_click_down[1];

        let mut active = self.active_hand;
        if left.click && !last_left && active != ActiveHand::Left {
            active = ActiveHand::Left;
        }
        if right.click && !last_right && active != ActiveHand::Right {
            active = ActiveHand::Right;
        }
        let mut events: Vec<PointerButton> = Vec::new();
        if left.click && !last_left && active == ActiveHand::Left {
            events.push(PointerButton { down: true });
        } else if !left.click && last_left {
            events.push(PointerButton { down: false });
        }
        let ghost left_events = events@;
        if right.click && !last_right && active == ActiveHand::Right {
            events.push(PointerButton { down: true });
        } else if !right.click && last_right {
            events.push(PointerButton { down: false });
        }
        assert(events@ =~= left_events + hand_events(
            active == ActiveHand::Right,
            last_right,
            right.click,
        ));
        assert(left_events =~= hand_events(active == ActiveHand::Left, last_left, left.click));

        let l = combo_step(
            self.last_combo_time[0],
            self.combo_count[0],
            self.last_grip_down[0],
            left,
            now,
        );
        let r = combo_step(
            self.last_combo_time[1],
            self.combo_count[1],
            self.last_grip_down[1],
            right,
            now,
        );
        self.active_hand = active;
        self.last_click_down = [left.click, right.click];
        self.last_grip_down = [left.grip, right.grip];
        self.last_combo_time = [l.0, r.0];
        self.combo_count = [l.1, r.1];
        assert(self.last_click_down@ =~= seq![hands[0].click, hands[1].click]);
        assert(self.last_grip_down@ =~= seq![hands[0].grip, hands[1].grip]);
        InputFrame { active_hand: active, button_events: events, double_press: [l.2, r.2] }
    }
}

} // verus!
