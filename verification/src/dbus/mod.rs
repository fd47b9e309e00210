//! What the compositor offers on the session bus.

pub mod remote_desktop;
