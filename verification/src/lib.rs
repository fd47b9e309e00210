//! The part of the compositor that serves remote desktop sessions, splits outputs into zones and
//! drags workspaces.
//!
//! Everything here decides and nothing here acts: functions take plain values, and return what is
//! to be done with sockets, outputs, the bus and the event loop.

pub mod dbus;
pub mod input;
pub mod niri;
pub mod remote_desktop;
pub mod utils;
pub mod zone;
