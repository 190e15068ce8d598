//! The manager's configuration: the wallpaper source chosen last.
use vstd::prelude::*;
use crate::paths::{config_path, spec_config_path, Environment};

verus! {

/// The configuration that persists between runs.
pub struct AppConfig {
    /// The HTML file or directory chosen last, if any.
    pub selected_path: Option<String>,
}

impl Default for AppConfig {
    /// No selection.
    fn default() -> (r: AppConfig)
        ensures
            r.selected_path is None,
    {
        AppConfig { selected_path: None }
    }
}

impl AppConfig {
    /// A copy of the configuration.
    pub fn duplicate(&self) -> (r: AppConfig)
        ensures
            r == *self,
    {
        let selected_path = match &self.selected_path {
            Some(path) => Some(path.clone()),
            None => None,
        };
        AppConfig { selected_path }
    }
}

/// A configuration to be written, and the file that receives it.
pub struct ConfigWrite {
    pub path: String,
    pub config: AppConfig,
}

/// The configuration in effect at start-up: the stored one where it could be read
/// and parsed, else the default, which has no selection.
pub fn load(stored: Option<AppConfig>) -> (r: AppConfig)
    ensures
        match stored {
            Some(config) => r == config,
            None => r.selected_path is None,
        },
{
    match stored {
        Some(config) => config,
        None => AppConfig::default(),
    }
}

/// Saving a configuration writes it, whole, to the configuration file.
pub fn save(env: &Environment, config: &AppConfig) -> (r: ConfigWrite)
    ensures
        r.path@ == spec_config_path(*env),
        r.config == *config,
{
    ConfigWrite { path: config_path(env), config: config.duplicate() }
}

} // verus!
