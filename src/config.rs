use vstd::prelude::*;

verus! {

/// Settings read from the configuration file.
#[derive(Debug, Clone)]
pub struct AppConfig {
    pub log_level: Option<String>,
}

impl Default for AppConfig {
    /// No log level: the environment decides.
    fn default() -> (r: Self)
        ensures
            r.log_level is None,
    {
        Self { log_level: None }
    }
}

} // verus!
