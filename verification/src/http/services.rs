//! What every handler is handed.

use std::sync::Arc;
use vstd::prelude::*;

use crate::config::AppConfig;

verus! {

/// The state shared by all handlers: the settings of the process, read-only.
#[derive(Clone)]
pub struct Services {
    pub config: Arc<AppConfig>,
}

impl Services {
    pub fn new(config: Arc<AppConfig>) -> (services: Self)
        ensures
            services.config == config,
    {
        Self { config }
    }
}

} // verus!
