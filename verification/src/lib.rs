//! Verified core of a single-host deployment pipeline.
//!
//! The library models the pure part of a deploy run: tokenizing the build
//! command, packaging local artifacts into archive entries, constructing the
//! ordered list of remote steps, and classifying every step's outcome. The
//! surrounding binary performs the actual process, network and filesystem
//! work and feeds the results back in as plain values.

pub mod archive;
pub mod descriptor;
pub mod encode;
pub mod outcome;
pub mod plan;
pub mod remote;
pub mod text;
