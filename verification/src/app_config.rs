//! The settings of the command line tool itself.
use vstd::prelude::*;

verus! {

/// Uploading the logs of failed test runs to mclo.gs.
pub struct MCLogsService {
    pub enabled: bool,
}

impl Default for MCLogsService {
    fn default() -> (r: Self)
        ensures
            !r.enabled,
    {
        MCLogsService { enabled: false }
    }
}

/// The outside services the tool may use.
pub struct Services {
    pub mclogs: MCLogsService,
}

impl Default for Services {
    fn default() -> (r: Self)
        ensures
            !r.mclogs.enabled,
    {
        Services { mclogs: MCLogsService::default() }
    }
}

/// The settings of the tool.
pub struct AppConfig {
    /// The sources whose downloads are not cached.
    pub disable_cache: Vec<String>,
    pub services: Services,
    /// The java executable to run servers with.
    pub default_java: String,
}

impl Default for AppConfig {
    fn default() -> (r: Self)
        ensures
            r.disable_cache@.len() == 0,
            !r.services.mclogs.enabled,
            r.default_java@ == "java"@,
    {
        AppConfig {
            disable_cache: Vec::new(),
            services: Services::default(),
            default_java: "java".to_owned(),
        }
    }
}

} // verus!
