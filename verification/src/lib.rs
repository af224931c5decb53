//! Core logic of a rootfs-switch pipeline: a strictly ordered sequence of
//! mount-table operations that gives the calling process an isolated
//! filesystem view rooted at a caller-supplied directory.
//!
//! The library decides; an unverified front end performs. Every mount,
//! unmount, namespace-detach and root-pivot operation is described here as a
//! plain value (a request or a plan step) with a verified construction, and
//! the front end only executes those values in the order this library fixes.

pub mod builder;
pub mod detacher;
pub mod driver;
pub mod error;
pub mod flags;
pub mod request;
pub mod step;
pub mod switcher;
