//! Rounded chamfer cuts on the edges of an extruded solid.
//!
//! The work of this crate is the edge-reference resolution and
//! command-dispatch protocol: a list of user-supplied edge references
//! (opaque identifiers or symbolic path tags) is checked for duplicates,
//! each tag is resolved against the solid's recorded path segments, and
//! one edge-cut command per resolved edge is emitted for the external
//! modeling kernel, stopping at the first failure.
//!
//! The kernel itself is an external collaborator: commands are handed to
//! the caller as plain values, and the kernel's verdicts come back as
//! plain values. Everything the crate decides is stated in contracts.

pub mod dispatch;
pub mod model;
pub mod resolve;
pub mod types;
