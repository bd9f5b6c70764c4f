//! Verified core of a notification connection: the rules by which one
//! connection to a remote peer sends, receives, half-closes and shuts down.
pub mod connection;
pub mod event;
pub mod frame;
pub mod laws;
pub mod model;
pub mod poll_laws;
