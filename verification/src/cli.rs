//! Command line arguments.
use vstd::prelude::*;

verus! {

/// Cli args parsing
#[derive(Debug, Clone)]
pub struct Cli {
    /// Location of the config
    pub config: Option<String>,
}

} // verus!
