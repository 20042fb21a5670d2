//! Provisioning and catalog engine for a removable game-library volume.
//!
//! The crate decides; it performs no I/O of its own. Callers enumerate disks,
//! talk to the network, unpack archives and run the indexing tool, and hand the
//! outcomes to the functions here as plain values.

pub mod catalog;
pub mod download;
pub mod drives;
pub mod error;
pub mod platform;
pub mod provision;
pub mod text;
pub mod ui;
