//! Configuration management for a distributed render farm.
//!
//! The crate models the configuration document (server name, filesystem
//! paths, upload limits, queue URL, cleanup policy, worker tuning), offers
//! round-tripping between the document and its human-editable text format,
//! and holds the decision logic of the interactive reconciliation wizard
//! that merges an existing document with a candidate field by field.
//! Terminal input and output, as well as file access, live outside this
//! library; every function here is deterministic in its arguments.

pub mod codec;
pub mod config;
pub mod escape;
pub mod laws;
pub mod line;
pub mod lines;
pub mod numtext;
pub mod present;
pub mod secret;
pub mod text;
pub mod wizard;

use vstd::prelude::*;

verus! {

/// Why an operation of this library failed.
#[derive(Clone, Copy, Debug, PartialEq, Eq, Structural)]
pub enum ConfigError {
    /// The stored document or an operator-entered value did not parse.
    Parse,
}

} // verus!
