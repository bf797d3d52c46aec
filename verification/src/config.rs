//! The defaults that are kept between runs, and the wishes of a project.

use vstd::prelude::*;

verus! {

/// The characters of an optional string.
pub open spec fn opt_text(value: Option<String>) -> Option<Seq<char>> {
    match value {
        Some(s) => Some(s@),
        None => None,
    }
}

/// Copies an optional string.
pub fn clone_opt(value: &Option<String>) -> (copy: Option<String>)
    ensures
        opt_text(copy) == opt_text(*value),
{
    match value {
        Some(s) => Some(s.clone()),
        None => None,
    }
}

/// The persisted configuration of the manager.
#[derive(Debug, Clone)]
pub struct Config {
    /// The `sop` version that is active.
    pub default_sop: Option<String>,
    /// The `go` version that goes with it; set by the manager, never by the user.
    pub default_go: Option<String>,
}

/// The mathematical value of a [`Config`].
pub struct ConfigValue {
    pub default_sop: Option<Seq<char>>,
    pub default_go: Option<Seq<char>>,
}

impl View for Config {
    type V = ConfigValue;

    open spec fn view(&self) -> ConfigValue {
        ConfigValue {
            default_sop: opt_text(self.default_sop),
            default_go: opt_text(self.default_go),
        }
    }
}

impl Default for Config {
    /// The configuration of a fresh installation: no default is set.
    fn default() -> (config: Config)
        ensures
            config@ == (ConfigValue { default_sop: None, default_go: None }),
    {
        Config { default_sop: None, default_go: None }
    }
}

impl Config {
    /// The configuration to work with, given what the configuration file
    /// held: what was stored, or that of a fresh installation where nothing
    /// could be read.
    pub fn load(stored: Option<Config>) -> (config: Config)
        ensures
            match stored {
                Some(found) => config == found,
                None => config@ == (ConfigValue { default_sop: None, default_go: None }),
            },
    {
        match stored {
            Some(found) => found,
            None => Config { default_sop: None, default_go: None },
        }
    }

    /// A copy of the configuration.
    pub fn copy(&self) -> (config: Config)
        ensures
            config@ == self@,
    {
        Config { default_sop: clone_opt(&self.default_sop), default_go: clone_opt(&self.default_go) }
    }
}

/// The versions that a project asks for in its `sop.mod`.
#[derive(Debug, Clone)]
pub struct ProjectConfig {
    /// The `go` version that the project needs.
    pub go: Option<String>,
    /// The `sop` version that the project needs.
    pub sop: Option<String>,
}

impl Default for ProjectConfig {
    /// A project that asks for nothing.
    fn default() -> (config: ProjectConfig)
        ensures
            config.go is None,
            config.sop is None,
    {
        ProjectConfig { go: None, sop: None }
    }
}

} // verus!
