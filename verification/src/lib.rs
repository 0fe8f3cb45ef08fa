//! Eye-tracking runtime core: frame model, serial framing, gaze fusion and
//! the decisions of the OpenXR API layer, with machine-checked contracts.

pub mod android_serial_watcher;
pub mod app;
pub mod camera;
pub mod camera_dispatcher;
pub mod camera_manager;
pub mod camera_server;
pub mod camera_sources;
pub mod data_processing;
pub mod desktop;
pub mod frame_server;
pub mod inference;
pub mod openxr_layer;
pub mod openxr_output;
pub mod osc_sender;
pub mod structs;
pub mod text;
