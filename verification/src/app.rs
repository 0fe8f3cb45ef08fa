//! The channels between the stages.
//!
//! Every stage reads the latest element of its input and may skip what it
//! has missed. A channel therefore holds one element and overflows: a send
//! always succeeds and replaces what was not read. Receivers are handed
//! around inactive, so that a channel nobody reads costs nothing, and are
//! activated by the stage that reads.

use vstd::prelude::*;

verus! {

/// How many elements a channel holds.
pub const CHANNEL_CAPACITY: usize = 1;

#[verifier::external_type_specification]
#[verifier::external_body]
#[verifier::reject_recursive_types(T)]
pub struct ExSender<T>(async_broadcast::Sender<T>);

/// Makes a channel with `async_broadcast::broadcast`, which panics where the
/// capacity is zero.
#[verifier::external_body]
fn broadcast<T>(capacity: usize) -> (channel: (async_broadcast::Sender<T>, async_broadcast::Receiver<T>))
    requires
        capacity > 0,
{
    async_broadcast::broadcast::<T>(capacity)
}

/// Sets the overflow mode of a channel with
/// `async_broadcast::Receiver::set_overflow`.
#[verifier::external_body]
fn set_overflow<T>(receiver: &mut async_broadcast::Receiver<T>, overflow: bool) {
    receiver.set_overflow(overflow)
}

/// Makes an inactive receiver of an active one with
/// `async_broadcast::Receiver::deactivate`.
#[verifier::external_body]
fn deactivate<T>(receiver: async_broadcast::Receiver<T>) -> (inactive: async_broadcast::InactiveReceiver<T>) {
    receiver.deactivate()
}

/// A channel of the pipeline: it holds one element, overflows, and its
/// receiver is inactive.
pub fn inactive_broadcast<T>() -> (channel: (
    async_broadcast::Sender<T>,
    async_broadcast::InactiveReceiver<T>,
)) {
    let (sender, mut receiver) = broadcast::<T>(CHANNEL_CAPACITY);
    set_overflow(&mut receiver, true);
    (sender, deactivate(receiver))
}

} // verus!
