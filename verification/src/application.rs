//! The running app.
use vstd::prelude::*;
use crate::config::Config;

verus! {

/// The main app
#[derive(Debug)]
pub struct Application {
    pub config: Config,
}

impl Application {
    /// Create the application from its configuration
    pub fn new(config: Config) -> (app: Application)
        ensures
            app.config == config,
    {
        Application { config }
    }
}

} // verus!
