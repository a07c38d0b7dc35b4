//! Configuration data handed in by the configuration collaborator.
//!
//! Resolving and parsing a configuration file happen outside the library;
//! only the resolved values live here.

use vstd::prelude::*;

verus! {

/// One user-defined script offered alongside the discovered services.
#[derive(Clone, Debug)]
pub struct CustomScript {
    pub name: String,
    pub command: String,
}

/// The resolved configuration: path fragments the scan must ignore and
/// the user's own script definitions.
#[derive(Clone, Debug)]
pub struct AppConfig {
    pub ignore_paths: Vec<String>,
    pub custom_scripts: Vec<CustomScript>,
}

impl Default for AppConfig {
    /// The configuration used when no configuration file is found:
    /// nothing ignored, no custom scripts.
    fn default() -> (c: AppConfig)
        ensures
            c.ignore_paths@ == Seq::<String>::empty(),
            c.custom_scripts@ == Seq::<CustomScript>::empty(),
    {
        AppConfig { ignore_paths: Vec::new(), custom_scripts: Vec::new() }
    }
}

} // verus!
