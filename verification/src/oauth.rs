//! Side-channel configuration for the viewer's OAuth flow.
//!
//! A value of this type can be attached to the main configuration, but it is
//! never part of the serialized configuration or of the rendered page: it
//! exists for an OAuth-flow collaborator that does not shape the output.

use vstd::prelude::*;

verus! {

/// Configuration for the viewer's OAuth flow.
#[derive(Debug, Clone)]
pub struct Config {}

impl Config {
    /// A new, empty OAuth configuration.
    pub fn new() -> Self {
        Config {  }
    }
}

} // verus!
