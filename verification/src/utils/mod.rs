//! Small verified helpers that the rest of the crate shares.

pub mod geometry;
pub mod id;
pub mod lists;
pub mod order;
pub mod text;

use vstd::prelude::*;

verus! {

/// Identifies one remote desktop session.
pub type RemoteDesktopSessionId = u64;

/// Identifies one virtual monitor.
pub type RemoteDesktopMonitorId = u64;

/// Identifies one screen cast session.
pub type CastSessionId = u64;

/// Identifies one stream of a screen cast session.
pub type CastStreamId = u64;

} // verus!
