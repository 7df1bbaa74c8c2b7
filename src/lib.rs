//! Verified core of a remote-display session bridge: frame conversion,
//! render geometry, input mapping and channel-event translation.

pub mod backend;
pub mod events;
pub mod geometry;
pub mod input;
pub mod pixels;
