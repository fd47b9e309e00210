//! Server side of the `org.freedesktop.RemoteDesktop1` D-Bus API.
//!
//! The API is meant for remote desktop *services* driving a session where the primary mode of
//! access is remote. The object tree looks like this:
//!
//! ```text
//! /org/freedesktop/RemoteDesktop1                            RemoteDesktop1
//! /org/freedesktop/RemoteDesktop1/Session/u{n}               Session + ObjectManager
//! /org/freedesktop/RemoteDesktop1/Session/u{n}/Monitor/u{m}  Monitor
//! /org/freedesktop/RemoteDesktop1/Session/u{n}/Clipboard     Clipboard
//! ```
//!
//! Monitors are exposed under every live session, since a session also sees virtual monitors
//! created by other sessions. The `owned` attribute tells them apart.

pub mod call_laws;
pub mod calls;
pub mod clipboard;
pub mod laws;
pub mod messages;
pub mod monitor;
pub mod options;
pub mod paths;
pub mod registry;
pub mod service;
pub mod session;
pub mod view_laws;

use vstd::prelude::*;

verus! {

/// The name of the service on the bus.
pub const BUS_NAME: &'static str = "org.freedesktop.RemoteDesktop";

/// Version of every interface in this module.
pub const VERSION: u32 = 1;

} // verus!
