//! Gaze fusion: merges the per-eye results, which arrive independently, into
//! one decision per update on how the combined gaze is to be formed.
//!
//! The stage keeps the last state and capture time of each eye. When one eye
//! has fallen more than [`EYE_TIMEOUT`] behind the other, the fresh eye stands
//! for both sides; otherwise the two states are blended. Either way the
//! combined gaze carries the later of the two capture times.

use vstd::prelude::*;
use crate::structs::{Eye, EyesGazeState, Timestamp, ZERO_TIMESTAMP};

verus! {

/// How far one eye may fall behind the other before it is ignored: 50 ms.
pub const EYE_TIMEOUT: u64 = 50_000_000;

/// The least difference that is left between the yaws of the two eyes when
/// they are blended, in hundredths of a degree: 0.05 degrees. Eyes that would
/// be parallel, or cross, are set this far apart around their common yaw.
pub const CONVERGENCE_FLOOR_HUNDREDTHS: u32 = 5;

/// How the combined gaze is to be formed from what the stage remembers.
#[derive(Debug, Clone, Copy)]
pub enum FusedGaze<S> {
    /// The other eye has timed out: `state`, the state of `eye`, is mirrored
    /// onto both sides.
    Mirrored { eye: Eye, state: S, timestamp: Timestamp },
    /// Both eyes are current: their states are blended.
    Blended { l_state: S, r_state: S, timestamp: Timestamp },
}

impl<S> FusedGaze<S> {
    /// The capture time of the combined gaze.
    pub open spec fn spec_timestamp(self) -> Timestamp {
        match self {
            FusedGaze::Mirrored { timestamp, .. } => timestamp,
            FusedGaze::Blended { timestamp, .. } => timestamp,
        }
    }
}

impl<S: Copy> FusedGaze<S> {
    /// The capture time of the combined gaze.
    pub fn timestamp(&self) -> (t: Timestamp)
        ensures
            t == self.spec_timestamp(),
    {
        match self {
            FusedGaze::Mirrored { timestamp, .. } => *timestamp,
            FusedGaze::Blended { timestamp, .. } => *timestamp,
        }
    }
}

/// The later of two capture times.
pub open spec fn latest(a: Timestamp, b: Timestamp) -> Timestamp {
    if a >= b {
        a
    } else {
        b
    }
}

/// Whether an eye last seen at `stale` has timed out against one seen at `fresh`.
pub open spec fn timed_out(fresh: Timestamp, stale: Timestamp) -> bool {
    fresh > stale && fresh - stale > EYE_TIMEOUT
}

/// The memory of the fusion stage: the last state and capture time of each eye.
#[derive(Debug, Clone, Copy)]
pub struct GazeFusion<S> {
    pub l_state: S,
    pub l_time: Timestamp,
    pub r_state: S,
    pub r_time: Timestamp,
}

impl<S> GazeFusion<S> {
    /// The memory after `gaze` has been taken in: `Both` replaces both eyes
    /// with one shared capture time, `Mono` replaces only its own eye.
    pub open spec fn observed(self, gaze: EyesGazeState<S>) -> GazeFusion<S> {
        match gaze {
            EyesGazeState::Both { l_state, r_state, timestamp } => GazeFusion {
                l_state,
                l_time: timestamp,
                r_state,
                r_time: timestamp,
            },
            EyesGazeState::Mono { eye: Eye::L, state, timestamp } => GazeFusion {
                l_state: state,
                l_time: timestamp,
                ..self
            },
            EyesGazeState::Mono { eye: Eye::R, state, timestamp } => GazeFusion {
                r_state: state,
                r_time: timestamp,
                ..self
            },
        }
    }

    /// The combined gaze that the memory stands for.
    pub open spec fn fused(self) -> FusedGaze<S> {
        if timed_out(self.r_time, self.l_time) {
            FusedGaze::Mirrored { eye: Eye::R, state: self.r_state, timestamp: self.r_time }
        } else if timed_out(self.l_time, self.r_time) {
            FusedGaze::Mirrored { eye: Eye::L, state: self.l_state, timestamp: self.l_time }
        } else {
            FusedGaze::Blended {
                l_state: self.l_state,
                r_state: self.r_state,
                timestamp: latest(self.l_time, self.r_time),
            }
        }
    }
}

impl<S: Copy> GazeFusion<S> {
    /// A stage that has seen nothing yet: both eyes hold `initial`, at
    /// timestamp zero.
    pub fn new(initial: S) -> (fusion: GazeFusion<S>)
        ensures
            fusion == (GazeFusion {
                l_state: initial,
                l_time: ZERO_TIMESTAMP,
                r_state: initial,
                r_time: ZERO_TIMESTAMP,
            }),
    {
        GazeFusion { l_state: initial, l_time: ZERO_TIMESTAMP, r_state: initial, r_time: ZERO_TIMESTAMP }
    }

    /// Takes in one inference result.
    pub fn update(&mut self, gaze: EyesGazeState<S>)
        ensures
            *final(self) == old(self).observed(gaze),
    {
        match gaze {
            EyesGazeState::Both { l_state, r_state, timestamp } => {
                self.l_state = l_state;
                self.r_state = r_state;
                self.l_time = timestamp;
                self.r_time = timestamp;
            },
            EyesGazeState::Mono { eye, state, timestamp } => match eye {
                Eye::L => {
                    self.l_state = state;
                    self.l_time = timestamp;
                },
                Eye::R => {
                    self.r_state = state;
                    self.r_time = timestamp;
                },
            },
        }
    }

    /// Decides how the combined gaze is formed from the current memory.
    pub fn combine(&self) -> (out: FusedGaze<S>)
        ensures
            out == self.fused(),
            out.spec_timestamp() == latest(self.l_time, self.r_time),
    {
        if self.r_time > self.l_time && self.r_time - self.l_time > EYE_TIMEOUT {
            return FusedGaze::Mirrored { eye: Eye::R, state: self.r_state, timestamp: self.r_time };
        }
        if self.l_time > self.r_time && self.l_time - self.r_time > EYE_TIMEOUT {
            return FusedGaze::Mirrored { eye: Eye::L, state: self.l_state, timestamp: self.l_time };
        }
        let timestamp = if self.l_time >= self.r_time {
            self.l_time
        } else {
            self.r_time
        };
        FusedGaze::Blended { l_state: self.l_state, r_state: self.r_state, timestamp }
    }

    /// Takes in one inference result and decides the combined gaze that
    /// follows from it.
    pub fn process(&mut self, gaze: EyesGazeState<S>) -> (out: FusedGaze<S>)
        ensures
            *final(self) == old(self).observed(gaze),
            out == old(self).observed(gaze).fused(),
    {
        self.update(gaze);
        self.combine()
    }
}

/// Every combined gaze carries the later of the two capture times it was
/// formed from, so it is never older than both of its inputs.
pub proof fn lemma_fused_timestamp_is_latest<S>(fusion: GazeFusion<S>)
    ensures
        fusion.fused().spec_timestamp() == latest(fusion.l_time, fusion.r_time),
        fusion.fused().spec_timestamp() >= fusion.l_time,
        fusion.fused().spec_timestamp() >= fusion.r_time,
{
}

/// After an update the combined gaze is never older than the result that was
/// just taken in.
pub proof fn lemma_fused_timestamp_follows_update<S>(fusion: GazeFusion<S>, gaze: EyesGazeState<S>)
    ensures
        fusion.observed(gaze).fused().spec_timestamp() >= gaze.spec_timestamp(),
{
}

/// With one eye silent, the stream of the other eye alone decides the
/// outcome: while the active eye is at most [`EYE_TIMEOUT`] ahead of the
/// silent one the two are blended, and once it is further ahead the active
/// eye is mirrored onto both sides, with its own capture time.
pub proof fn lemma_single_eye_stream<S>(fusion: GazeFusion<S>, eye: Eye, state: S, timestamp: Timestamp)
    ensures
        ({
            let silent_time = match eye {
                Eye::L => fusion.r_time,
                Eye::R => fusion.l_time,
            };
            let out = fusion.observed(EyesGazeState::Mono { eye, state, timestamp }).fused();
            &&& timestamp - silent_time > EYE_TIMEOUT ==> out == (FusedGaze::Mirrored {
                eye,
                state,
                timestamp,
            })
            &&& 0 <= timestamp - silent_time <= EYE_TIMEOUT ==> out is Blended
                && out.spec_timestamp() == timestamp
        }),
{
}

impl<S> FusedGaze<S> {
    /// Whether every eye state that the combined gaze is formed from meets
    /// `holds`.
    pub open spec fn states_meet(self, holds: spec_fn(S) -> bool) -> bool {
        match self {
            FusedGaze::Mirrored { state, .. } => holds(state),
            FusedGaze::Blended { l_state, r_state, .. } => holds(l_state) && holds(r_state),
        }
    }
}

impl<S> EyesGazeState<S> {
    /// Whether every eye state of the result meets `holds`.
    pub open spec fn states_meet(self, holds: spec_fn(S) -> bool) -> bool {
        match self {
            EyesGazeState::Mono { state, .. } => holds(state),
            EyesGazeState::Both { l_state, r_state, .. } => holds(l_state) && holds(r_state),
        }
    }
}

/// Fusion hands out eye states as it was given them: whatever holds of the
/// states that went in, such as an eyelid between 0 and 1, holds of every
/// state that a combined gaze is formed from.
pub proof fn lemma_fusion_keeps_what_holds_of_states<S>(
    fusion: GazeFusion<S>,
    gaze: EyesGazeState<S>,
    holds: spec_fn(S) -> bool,
)
    requires
        holds(fusion.l_state),
        holds(fusion.r_state),
        gaze.states_meet(holds),
    ensures
        holds(fusion.observed(gaze).l_state),
        holds(fusion.observed(gaze).r_state),
        fusion.observed(gaze).fused().states_meet(holds),
{
}

/// A stereo result never triggers the fallback: both eyes share one capture
/// time, so their states are blended and the combined gaze carries that time.
pub proof fn lemma_stereo_is_blended<S>(fusion: GazeFusion<S>, l_state: S, r_state: S, timestamp: Timestamp)
    ensures
        fusion.observed(EyesGazeState::Both { l_state, r_state, timestamp }).fused() == (
        FusedGaze::Blended { l_state, r_state, timestamp }),
{
}

} // verus!
