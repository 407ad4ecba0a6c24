//! Normalises the permissions of a GnuPG configuration directory.
//!
//! The library decides which directory to work on and which filesystem
//! operations bring it and its `gpg-agent.conf` to owner-only modes; a
//! caller performs the operations in order and stops at the first failure.
//! A model of the filesystem gives those operations a meaning, and the laws
//! of the run are proved over it.
pub mod error;
pub mod model;
pub mod ops;
pub mod paths;
