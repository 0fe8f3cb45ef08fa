//! USB hotplug: which serial device feeds which dispatcher.
//!
//! Every camera is known by the serial number of its USB device. When a
//! device is plugged in and the process may use it, the dispatcher that is
//! registered for its serial number is taken out of the registry and given
//! to the reader of the device. When the device's stream ends, the
//! dispatcher goes back, so that the camera is wired up again when it is
//! plugged in the next time.

use vstd::prelude::*;
use vstd::string::*;
use crate::desktop::DispatcherKind;
use crate::structs::Eye;
use crate::text::str_eq;

verus! {

/// How long one read of the serial device may take: 300 ms.
pub const SERIAL_READ_TIMEOUT: u64 = 300_000_000;

/// A camera of the headset: the serial number of its device, and what it
/// is wired to.
pub struct KnownCamera {
    pub serial: &'static str,
    pub dispatcher: DispatcherKind,
}

/// The cameras of the headset: the left eye, the right eye and the face.
pub fn known_cameras() -> (cameras: Vec<KnownCamera>)
    ensures
        cameras@.len() == 3,
        cameras@[0].serial@ == "30:30:F9:33:DD:7C"@,
        cameras@[0].dispatcher == DispatcherKind::MonoEye(Eye::L),
        cameras@[1].serial@ == "30:30:F9:17:F3:C4"@,
        cameras@[1].dispatcher == DispatcherKind::MonoEye(Eye::R),
        cameras@[2].serial@ == "DC:DA:0C:18:32:34"@,
        cameras@[2].dispatcher == DispatcherKind::MonoFace,
{
    let mut cameras: Vec<KnownCamera> = Vec::new();
    cameras.push(
        KnownCamera { serial: "30:30:F9:33:DD:7C", dispatcher: DispatcherKind::MonoEye(Eye::L) },
    );
    cameras.push(
        KnownCamera { serial: "30:30:F9:17:F3:C4", dispatcher: DispatcherKind::MonoEye(Eye::R) },
    );
    cameras.push(KnownCamera { serial: "DC:DA:0C:18:32:34", dispatcher: DispatcherKind::MonoFace });
    cameras
}

/// A dispatcher, registered for the serial number of a device.
pub struct Registration<D> {
    pub serial: String,
    pub dispatcher: D,
}

/// Whether `entries` holds a registration for `serial` at `i`.
pub open spec fn registered_at<D>(entries: Seq<Registration<D>>, i: int, serial: Seq<char>) -> bool {
    0 <= i < entries.len() && entries[i].serial@ == serial
}

/// The dispatchers that wait for their device, by serial number. Serial
/// numbers are compared character by character: case matters.
pub struct DispatcherRegistry<D> {
    entries: Vec<Registration<D>>,
}

impl<D> DispatcherRegistry<D> {
    #[verifier::type_invariant]
    spec fn well_formed(self) -> bool {
        forall|i: int, j: int|
            0 <= i < j < self.entries@.len() ==> self.entries@[i].serial@ != self.entries@[j].serial@
    }

    /// Whether a dispatcher waits for the device `serial`.
    pub closed spec fn contains(self, serial: Seq<char>) -> bool {
        exists|i: int| registered_at(self.entries@, i, serial)
    }

    /// The dispatcher that waits for the device `serial`.
    pub closed spec fn dispatcher_of(self, serial: Seq<char>) -> D {
        self.entries@[choose|i: int| registered_at(self.entries@, i, serial)].dispatcher
    }

    /// How many dispatchers wait.
    pub closed spec fn spec_len(self) -> nat {
        self.entries@.len()
    }

    /// A registry in which no dispatcher waits.
    pub fn new() -> (registry: DispatcherRegistry<D>)
        ensures
            forall|serial: Seq<char>| !registry.contains(serial),
            registry.spec_len() == 0,
    {
        DispatcherRegistry { entries: Vec::new() }
    }

    /// How many dispatchers wait.
    pub fn len(&self) -> (len: usize)
        ensures
            len == self.spec_len(),
    {
        self.entries.len()
    }

    fn position(&self, serial: &str) -> (found: Option<usize>)
        ensures
            match found {
                Some(i) => registered_at(self.entries@, i as int, serial@),
                None => forall|i: int| !registered_at(self.entries@, i, serial@),
            },
    {
        let mut i: usize = 0;
        while i < self.entries.len()
            invariant
                i <= self.entries@.len(),
                forall|j: int| 0 <= j < i ==> self.entries@[j].serial@ != serial@,
            decreases self.entries@.len() - i,
        {
            if str_eq(self.entries[i].serial.as_str(), serial) {
                return Some(i);
            }
            i += 1;
        }
        None
    }

    /// Takes the dispatcher that waits for the device `serial` out of the
    /// registry. `None`, and nothing changes, where none waits for it.
    pub fn remove(&mut self, serial: &str) -> (dispatcher: Option<D>)
        ensures
            match dispatcher {
                Some(taken) => old(self).contains(serial@) && taken == old(self).dispatcher_of(
                    serial@,
                ) && final(self).spec_len() + 1 == old(self).spec_len(),
                None => !old(self).contains(serial@) && final(self).spec_len() == old(
                    self,
                ).spec_len(),
            },
            !final(self).contains(serial@),
            forall|other: Seq<char>|
                other != serial@ ==> (final(self).contains(other) == old(self).contains(other)) && (
                old(self).contains(other) ==> final(self).dispatcher_of(other) == old(
                    self,
                ).dispatcher_of(other)),
    {
        proof {
            use_type_invariant(&*self);
        }
        match self.position(serial) {
            None => None,
            Some(i) => {
                let ghost before = self.entries@;
                let mut entries: Vec<Registration<D>> = Vec::new();
                core::mem::swap(&mut entries, &mut self.entries);
                let taken = entries.remove(i);
                let ghost after = entries@;
                proof {
                    assert forall|a: int, b: int| 0 <= a < b < after.len() implies after[a].serial@
                        != after[b].serial@ by {
                        let a0 = if a < i { a } else { a + 1 };
                        let b0 = if b < i { b } else { b + 1 };
                        assert(after[a] == before[a0]);
                        assert(after[b] == before[b0]);
                    }
                }
                *self = DispatcherRegistry { entries };
                proof {
                    lemma_unique_choice(before, i as int, serial@);
                    assert forall|j: int| !registered_at(after, j, serial@) by {
                        if registered_at(after, j, serial@) {
                            let j0 = if j < i { j } else { j + 1 };
                            assert(after[j] == before[j0]);
                        }
                    }
                    assert(self.entries@ == after);
                    assert(old(self).entries@ == before);
                    assert forall|other: Seq<char>| other != serial@ implies (self.contains(other)
                        == old(self).contains(other)) && (old(self).contains(other)
                        ==> self.dispatcher_of(other) == old(self).dispatcher_of(other)) by {
                        if old(self).contains(other) {
                            let k = choose|k: int| registered_at(before, k, other);
                            assert(registered_at(before, k, other));
                            assert(k != i);
                            let k1 = if k < i { k } else { k - 1 };
                            assert(after[k1] == before[k]);
                            assert(registered_at(after, k1, other));
                            assert(self.contains(other));
                            lemma_unique_choice(before, k, other);
                            lemma_unique_choice(after, k1, other);
                        }
                        if self.contains(other) {
                            let k = choose|k: int| registered_at(after, k, other);
                            assert(registered_at(after, k, other));
                            let k0 = if k < i { k } else { k + 1 };
                            assert(after[k] == before[k0]);
                            assert(registered_at(before, k0, other));
                            assert(old(self).contains(other));
                        }
                    }
                }
                Some(taken.dispatcher)
            },
        }
    }

    /// Makes `dispatcher` wait for the device `serial`, in place of the one
    /// that waited for it before, which is returned.
    pub fn insert(&mut self, serial: String, dispatcher: D) -> (replaced: Option<D>)
        ensures
            final(self).contains(serial@),
            final(self).dispatcher_of(serial@) == dispatcher,
            match replaced {
                Some(previous) => old(self).contains(serial@) && previous == old(
                    self,
                ).dispatcher_of(serial@) && final(self).spec_len() == old(self).spec_len(),
                None => !old(self).contains(serial@) && final(self).spec_len() == old(
                    self,
                ).spec_len() + 1,
            },
            forall|other: Seq<char>|
                other != serial@ ==> (final(self).contains(other) == old(self).contains(other)) && (
                old(self).contains(other) ==> final(self).dispatcher_of(other) == old(
                    self,
                ).dispatcher_of(other)),
    {
        let replaced = self.remove(serial.as_str());
        proof {
            use_type_invariant(&*self);
        }
        let ghost before = self.entries@;
        let ghost middle = *self;
        let mut entries: Vec<Registration<D>> = Vec::new();
        core::mem::swap(&mut entries, &mut self.entries);
        entries.push(Registration { serial, dispatcher });
        let ghost after = entries@;
        proof {
            assert forall|a: int, b: int| 0 <= a < b < after.len() implies after[a].serial@
                != after[b].serial@ by {
                if b == after.len() - 1 {
                    assert(after[a] == before[a]);
                    assert(!registered_at(before, a, serial@));
                } else {
                    assert(after[a] == before[a]);
                    assert(after[b] == before[b]);
                }
            }
        }
        *self = DispatcherRegistry { entries };
        proof {
            let last = after.len() - 1;
            assert(self.entries@ == after);
            assert(after[last].serial@ == serial@);
            assert(registered_at(after, last, serial@));
            assert(self.contains(serial@));
            lemma_unique_choice(after, last, serial@);
            assert forall|other: Seq<char>| other != serial@ implies (self.contains(other)
                == middle.contains(other)) && (middle.contains(other) ==> self.dispatcher_of(other)
                == middle.dispatcher_of(other)) by {
                if middle.contains(other) {
                    let k = choose|k: int| registered_at(before, k, other);
                    assert(after[k] == before[k]);
                    assert(registered_at(after, k, other));
                    lemma_unique_choice(before, k, other);
                    lemma_unique_choice(after, k, other);
                }
                if self.contains(other) {
                    let k = choose|k: int| registered_at(after, k, other);
                    assert(after[k] == before[k]);
                    assert(registered_at(before, k, other));
                }
            }
        }
        replaced
    }
}

proof fn lemma_unique_choice<D>(entries: Seq<Registration<D>>, i: int, serial: Seq<char>)
    requires
        registered_at(entries, i, serial),
        forall|a: int, b: int| 0 <= a < b < entries.len() ==> entries[a].serial@ != entries[b].serial@,
    ensures
        (choose|k: int| registered_at(entries, k, serial)) == i,
{
    let k = choose|k: int| registered_at(entries, k, serial);
    if k < i {
        assert(entries[k].serial@ != entries[i].serial@);
    } else if i < k {
        assert(entries[i].serial@ != entries[k].serial@);
    }
}

// ---------------------------------------------------------------------------
// What happens when a device is plugged in
// ---------------------------------------------------------------------------

/// What the check for the permission to use a device gave.
#[derive(Debug, Clone, Copy, PartialEq, Eq, Structural)]
pub enum PermissionCheck {
    Granted,
    NotGranted,
    Failed,
}

/// What the request for the permission to use a device gave.
#[derive(Debug, Clone, Copy, PartialEq, Eq, Structural)]
pub enum PermissionRequest {
    /// The request could not be made.
    Failed,
    /// The system took no request.
    Unavailable,
    /// The user said no.
    Denied,
    /// The user said yes.
    Allowed,
}

/// What is done with a device that was plugged in.
#[derive(Debug, Clone, Copy, PartialEq, Eq, Structural)]
pub enum HotplugStep {
    /// The device is passed over.
    Skip,
    /// The permission is asked for; this waits until the user has answered.
    RequestPermission,
    /// The serial number of the device is looked up.
    ResolveSerial,
}

/// What follows the check for the permission.
pub fn after_permission_check(check: PermissionCheck) -> (step: HotplugStep)
    ensures
        step == match check {
            PermissionCheck::Granted => HotplugStep::ResolveSerial,
            PermissionCheck::NotGranted => HotplugStep::RequestPermission,
            PermissionCheck::Failed => HotplugStep::Skip,
        },
{
    match check {
        PermissionCheck::Granted => HotplugStep::ResolveSerial,
        PermissionCheck::NotGranted => HotplugStep::RequestPermission,
        PermissionCheck::Failed => HotplugStep::Skip,
    }
}

/// What follows the request for the permission: only a device that the
/// user has allowed is looked at further.
pub fn after_permission_request(request: PermissionRequest) -> (step: HotplugStep)
    ensures
        step == if request == PermissionRequest::Allowed {
            HotplugStep::ResolveSerial
        } else {
            HotplugStep::Skip
        },
{
    match request {
        PermissionRequest::Allowed => HotplugStep::ResolveSerial,
        _ => HotplugStep::Skip,
    }
}

/// Takes the dispatcher for a device with the serial number `serial` out
/// of the registry. A device without a serial number, or with one that no
/// dispatcher waits for, gets none and is passed over.
pub fn claim_dispatcher<D>(registry: &mut DispatcherRegistry<D>, serial: Option<&str>) -> (dispatcher: Option<D>)
    ensures
        match serial {
            Some(number) => {
                &&& dispatcher.is_some() == old(registry).contains(number@)
                &&& dispatcher matches Some(taken) ==> taken == old(registry).dispatcher_of(number@)
                &&& !final(registry).contains(number@)
                &&& final(registry).spec_len() == if old(registry).contains(number@) {
                    old(registry).spec_len() - 1
                } else {
                    old(registry).spec_len() as int
                }
                &&& forall|other: Seq<char>|
                    other != number@ ==> (final(registry).contains(other) == old(registry).contains(
                        other,
                    )) && (old(registry).contains(other) ==> final(registry).dispatcher_of(other)
                        == old(registry).dispatcher_of(other))
            },
            None => dispatcher.is_none() && *final(registry) == *old(registry),
        },
{
    match serial {
        Some(number) => registry.remove(number),
        None => None,
    }
}

/// Taking a dispatcher out for a device and putting it back when the
/// device's stream has ended leaves it waiting for that device again, and
/// every other dispatcher where it was.
pub proof fn lemma_returned_dispatcher_waits_again<D>(
    before: DispatcherRegistry<D>,
    taken_out: DispatcherRegistry<D>,
    after: DispatcherRegistry<D>,
    serial: Seq<char>,
    dispatcher: D,
)
    requires
        before.contains(serial),
        dispatcher == before.dispatcher_of(serial),
        !taken_out.contains(serial),
        forall|other: Seq<char>|
            other != serial ==> (taken_out.contains(other) == before.contains(other)) && (
            before.contains(other) ==> taken_out.dispatcher_of(other) == before.dispatcher_of(other)),
        after.contains(serial),
        after.dispatcher_of(serial) == dispatcher,
        forall|other: Seq<char>|
            other != serial ==> (after.contains(other) == taken_out.contains(other)) && (
            taken_out.contains(other) ==> after.dispatcher_of(other) == taken_out.dispatcher_of(
                other,
            )),
    ensures
        forall|any: Seq<char>|
            (after.contains(any) == before.contains(any)) && (before.contains(any)
                ==> after.dispatcher_of(any) == before.dispatcher_of(any)),
{
    assert forall|any: Seq<char>|
        (after.contains(any) == before.contains(any)) && (before.contains(any)
            ==> after.dispatcher_of(any) == before.dispatcher_of(any)) by {
        if any != serial {
            assert(taken_out.contains(any) == before.contains(any));
        }
    }
}

} // verus!
