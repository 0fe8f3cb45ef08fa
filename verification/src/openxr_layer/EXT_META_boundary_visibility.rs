//! The boundary visibility extension of Meta, as far as the layer names it.

use vstd::prelude::*;

verus! {

pub const META_boundary_visibility_SPEC_VERSION: u32 = 1;

pub const META_BOUNDARY_VISIBILITY_EXTENSION_NAME: &'static str = "XR_META_boundary_visibility";

/// The structure type of the system properties of the extension.
pub const TYPE_SYSTEM_BOUNDARY_VISIBILITY_PROPERTIES_META: i32 = 1000528000;

/// The structure type of the event that reports a change of visibility.
pub const TYPE_EVENT_DATA_BOUNDARY_VISIBILITY_CHANGED_META: i32 = 1000528001;

/// Whether the boundary is shown or suppressed, as the extension numbers it.
#[derive(Copy, Clone, Eq, PartialEq, Debug, Structural)]
pub struct BoundaryVisibilityMETA(pub i32);

impl BoundaryVisibilityMETA {
    /// The boundary is not suppressed.
    pub fn not_suppressed() -> (visibility: BoundaryVisibilityMETA)
        ensures
            visibility.0 == 1,
    {
        BoundaryVisibilityMETA(1)
    }

    /// The boundary is suppressed.
    pub fn suppressed() -> (visibility: BoundaryVisibilityMETA)
        ensures
            visibility.0 == 2,
    {
        BoundaryVisibilityMETA(2)
    }

    /// The number that stands for this visibility.
    pub fn into_raw(self) -> (raw: i32)
        ensures
            raw == self.0,
    {
        self.0
    }
}

} // verus!
