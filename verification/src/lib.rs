//! Decides when a batch of repositories is due to be starred, and drives the
//! batch once it is.
//!
//! The crate holds the rules only: it never opens a file or a socket. A caller
//! reads the pending list and talks to the hosting service; what it read and
//! what the service answered come in as plain values.

pub mod batch;
pub mod error;
pub mod gate;
pub mod json;
pub mod pending;
pub mod request;
pub mod starred;
pub mod text;
