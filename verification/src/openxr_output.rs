//! The output bridge: how the OpenXR layer gets at the latest combined
//! gaze.
//!
//! The bridge holds a receiver of the combined gaze channel and the last
//! value it has seen. A query takes what has arrived since the last one,
//! without waiting, and answers with the newest value, or with the last
//! one seen where nothing has arrived.

use vstd::prelude::*;

verus! {

#[verifier::external_type_specification]
#[verifier::external_body]
#[verifier::reject_recursive_types(T)]
pub struct ExReceiver<T>(async_broadcast::Receiver<T>);

#[verifier::external_type_specification]
#[verifier::external_body]
#[verifier::reject_recursive_types(T)]
pub struct ExInactiveReceiver<T>(async_broadcast::InactiveReceiver<T>);

/// What a receiver gives when it is asked without waiting.
#[derive(Debug, Clone, Copy)]
pub enum TryRecv<T> {
    /// The next value.
    Value(T),
    /// Values were dropped before the receiver could read them: this many.
    /// The receiver goes on from the oldest value that is still there.
    Overflowed(u64),
    /// Nothing has arrived.
    Empty,
    /// Nothing has arrived, and nothing will: the channel is closed.
    Closed,
}

/// Asks a receiver for its next value with `async_broadcast::Receiver::try_recv`,
/// which does not wait. An overflow is reported with the number of values
/// that the receiver has missed, which is at least one.
#[verifier::external_body]
fn try_recv<T: Clone>(receiver: &mut async_broadcast::Receiver<T>) -> (received: TryRecv<T>)
    ensures
        received matches TryRecv::Overflowed(missed) ==> missed >= 1,
{
    match receiver.try_recv() {
        Ok(value) => TryRecv::Value(value),
        Err(async_broadcast::TryRecvError::Overflowed(missed)) => TryRecv::Overflowed(missed),
        Err(async_broadcast::TryRecvError::Empty) => TryRecv::Empty,
        Err(async_broadcast::TryRecvError::Closed) => TryRecv::Closed,
    }
}

/// Makes an active receiver of an inactive one with
/// `async_broadcast::InactiveReceiver::activate_cloned`.
#[verifier::external_body]
fn activate_cloned<T>(receiver: &async_broadcast::InactiveReceiver<T>) -> (active: async_broadcast::Receiver<T>) {
    receiver.activate_cloned()
}

/// What the bridge does with what its receiver gave.
#[derive(Debug, Clone, Copy)]
pub enum BridgePoll<T> {
    /// Values were missed: the receiver is asked again.
    Again,
    /// The query is answered with this state.
    Answer(Option<T>),
}

/// The last state seen after the receiver gave `received`, and what the
/// bridge does: a value becomes the last state and the answer; an overflow
/// changes nothing and the receiver is asked again; where nothing has
/// arrived, the last state seen is the answer.
pub open spec fn absorbed<T>(last_state: Option<T>, received: TryRecv<T>) -> (Option<T>, BridgePoll<T>) {
    match received {
        TryRecv::Value(state) => (Some(state), BridgePoll::Answer(Some(state))),
        TryRecv::Overflowed(_) => (last_state, BridgePoll::Again),
        TryRecv::Empty | TryRecv::Closed => (last_state, BridgePoll::Answer(last_state)),
    }
}

/// The bridge between the gaze pipeline and the OpenXR layer.
#[verifier::reject_recursive_types(T)]
pub struct OpenXROutputBridge<T> {
    receiver: async_broadcast::Receiver<T>,
    last_state: Option<T>,
}

impl<T: Copy> OpenXROutputBridge<T> {
    /// The last state that the bridge has seen.
    pub closed spec fn last_state(self) -> Option<T> {
        self.last_state
    }

    /// A bridge that reads from the channel of `receiver` and has seen
    /// nothing yet.
    pub fn new(receiver: &async_broadcast::InactiveReceiver<T>) -> (bridge: OpenXROutputBridge<T>)
        ensures
            bridge.last_state().is_none(),
    {
        OpenXROutputBridge { receiver: activate_cloned(receiver), last_state: None }
    }

    /// Takes in what the receiver gave.
    pub fn absorb(&mut self, received: TryRecv<T>) -> (poll: BridgePoll<T>)
        ensures
            (final(self).last_state(), poll) == absorbed(old(self).last_state(), received),
    {
        match received {
            TryRecv::Value(state) => {
                self.last_state = Some(state);
                BridgePoll::Answer(Some(state))
            },
            TryRecv::Overflowed(_) => BridgePoll::Again,
            TryRecv::Empty | TryRecv::Closed => BridgePoll::Answer(self.last_state),
        }
    }

    /// The newest combined gaze: the value that has arrived since the last
    /// query, or the last one seen where none has. Never waits. The answer
    /// is what the bridge remembers from then on.
    pub fn get_eyes_state(&mut self) -> (state: Option<T>)
        ensures
            state == final(self).last_state(),
            state.is_none() ==> old(self).last_state().is_none(),
            state == old(self).last_state() || state.is_some(),
    {
        // Every report of an overflow stands for at least one value sent,
        // and a channel sends fewer than 2^64 values in its life.
        let mut budget: u64 = u64::MAX;
        loop
            invariant
                self.last_state() == old(self).last_state(),
            decreases budget,
        {
            let received = try_recv(&mut self.receiver);
            let missed = match received {
                TryRecv::Overflowed(missed) => missed,
                _ => 0,
            };
            match self.absorb(received) {
                BridgePoll::Answer(state) => {
                    return state;
                },
                BridgePoll::Again => {
                    if missed > budget {
                        return self.last_state;
                    }
                    budget = budget - missed;
                },
            }
        }
    }
}

} // verus!
