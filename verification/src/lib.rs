//! Planning and bookkeeping for a load test that pushes many synthetic
//! container images to an OCI registry at once.
//!
//! The crate decides what is pushed where and how the joined results of the
//! pushes are reported; the network work itself is left to the caller.

pub mod image;
pub mod outcome;
pub mod reference;
pub mod report;
pub mod task;
