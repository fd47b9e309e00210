//! Grabs of the input devices.

pub mod workspace_drag_grab;
