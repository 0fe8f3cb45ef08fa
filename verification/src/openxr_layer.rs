//! The decisions of the OpenXR API layer: what it advertises, which calls it
//! answers itself and how, and what it hands on to the runtime.

pub mod action_spaces;
pub mod dispatch;
pub mod input;
pub mod layer;
pub mod modules;

#[allow(non_snake_case)]
pub mod EXT_META_boundary_visibility;
