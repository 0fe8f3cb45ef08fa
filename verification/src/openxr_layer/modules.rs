//! Optional modules of the layer and their settings.

use vstd::prelude::*;

verus! {

/// Whether the layer overrides the local dimming of the display.
#[derive(Debug, Clone, Copy, PartialEq, Eq, Structural)]
pub enum LocalDimmingMode {
    DONT_MODIFY,
    OVERRIDE_ON,
    OVERRIDE_OFF,
}

impl Default for LocalDimmingMode {
    fn default() -> (mode: LocalDimmingMode)
        ensures
            mode == LocalDimmingMode::DONT_MODIFY,
    {
        LocalDimmingMode::DONT_MODIFY
    }
}

pub struct LocalDimmingModule {
    pub mode: LocalDimmingMode,
}

impl Default for LocalDimmingModule {
    fn default() -> (module: LocalDimmingModule)
        ensures
            module.mode == LocalDimmingMode::DONT_MODIFY,
    {
        LocalDimmingModule { mode: LocalDimmingMode::DONT_MODIFY }
    }
}

/// How far a request to show or suppress the boundary has come.
#[derive(Debug, Clone, Copy, PartialEq, Eq, Structural)]
pub enum BoundaryVisibilityStatus {
    STATUS_UNKNOWN,
    TO_REQUEST_VISIBILITY_SUPPRESSED,
    REQUESTED_VISIBILITY_SUPPRESSED,
    CONFIRMED_VISIBILITY_SUPPRESSED,
    TO_REQUEST_VISIBILITY_NOT_SUPPRESSED,
    REQUESTED_VISIBILITY_NOT_SUPPRESSED,
    CONFIRMED_VISIBILITY_NOT_SUPPRESSED,
}

impl Default for BoundaryVisibilityStatus {
    fn default() -> (status: BoundaryVisibilityStatus)
        ensures
            status == BoundaryVisibilityStatus::STATUS_UNKNOWN,
    {
        BoundaryVisibilityStatus::STATUS_UNKNOWN
    }
}

pub struct BoundaryVisibilityModule {
    pub supported_by_runtime: bool,
    pub status: BoundaryVisibilityStatus,
}

impl Default for BoundaryVisibilityModule {
    fn default() -> (module: BoundaryVisibilityModule)
        ensures
            !module.supported_by_runtime,
            module.status == BoundaryVisibilityStatus::STATUS_UNKNOWN,
    {
        BoundaryVisibilityModule {
            supported_by_runtime: false,
            status: BoundaryVisibilityStatus::STATUS_UNKNOWN,
        }
    }
}

pub struct PassthroughModule {
    pub supported_by_runtime: bool,
}

impl Default for PassthroughModule {
    fn default() -> (module: PassthroughModule)
        ensures
            !module.supported_by_runtime,
    {
        PassthroughModule { supported_by_runtime: false }
    }
}

/// The modules of the layer, each with its settings.
pub struct OpenXRModules {
    pub local_dimming: LocalDimmingModule,
    pub boundary_visibility: BoundaryVisibilityModule,
    pub passthrough: PassthroughModule,
}

impl Default for OpenXRModules {
    fn default() -> (modules: OpenXRModules)
        ensures
            modules.local_dimming.mode == LocalDimmingMode::DONT_MODIFY,
            !modules.boundary_visibility.supported_by_runtime,
            modules.boundary_visibility.status == BoundaryVisibilityStatus::STATUS_UNKNOWN,
            !modules.passthrough.supported_by_runtime,
    {
        OpenXRModules {
            local_dimming: LocalDimmingModule { mode: LocalDimmingMode::DONT_MODIFY },
            boundary_visibility: BoundaryVisibilityModule {
                supported_by_runtime: false,
                status: BoundaryVisibilityStatus::STATUS_UNKNOWN,
            },
            passthrough: PassthroughModule { supported_by_runtime: false },
        }
    }
}

} // verus!
