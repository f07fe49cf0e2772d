//! What the tool remembers between runs: the registry last used.
use vstd::prelude::*;

use crate::error::Error;
use crate::text::concat3;

verus! {

/// The state file's content.
#[derive(Debug, Clone)]
pub struct AppState {
    pub version: u32,
    pub registry: Option<RegistryState>,
}

/// The registry last loaded, and where its copy lives.
#[derive(Debug, Clone)]
pub struct RegistryState {
    pub name: Option<String>,
    pub url: String,
    pub ref_name: String,
    pub section: Option<String>,
    pub resolved_commit: String,
    pub cache_path: String,
}

impl AppState {
    /// A state of the current version with no registry.
    pub fn new() -> (r: Self)
        ensures
            r.version == 1,
            r.registry is None,
    {
        AppState { version: 1, registry: None }
    }
}

impl AppState {
    /// The state read from the state file: a fresh state where there is no
    /// file (`None`), else what reading and parsing it gave.
    pub fn load(file: Option<Result<AppState, Error>>) -> (r: Result<AppState, Error>)
        ensures
            match file {
                None => r matches Ok(s) && s.version == 1 && s.registry is None,
                Some(x) => r == x,
            },
    {
        match file {
            None => Ok(AppState::new()),
            Some(x) => x,
        }
    }
}

impl Default for AppState {
    fn default() -> (r: Self)
        ensures
            r.version == 1,
            r.registry is None,
    {
        AppState::new()
    }
}

impl RegistryState {
    /// The state of a loaded registry.
    pub fn new(
        name: Option<String>,
        url: String,
        ref_name: String,
        section: Option<String>,
        resolved_commit: String,
        cache_path: String,
    ) -> (r: Self)
        ensures
            r.name == name,
            r.url == url,
            r.ref_name == ref_name,
            r.section == section,
            r.resolved_commit == resolved_commit,
            r.cache_path == cache_path,
    {
        RegistryState { name, url, ref_name, section, resolved_commit, cache_path }
    }
}

/// A registry chosen by name, URL, ref and section.
#[derive(Debug, Clone, PartialEq, Eq)]
pub struct RegistrySelection {
    pub name: Option<String>,
    pub url: String,
    pub ref_name: String,
    pub section: Option<String>,
}

impl RegistrySelection {
    /// The key its cached copy is stored under: `url#ref`.
    pub fn cache_key(&self) -> (r: String)
        ensures
            r@ == self.url@ + "#"@ + self.ref_name@,
    {
        concat3(self.url.as_str(), "#", self.ref_name.as_str())
    }
}

/// A selected registry with its local copy.
#[derive(Debug, Clone, PartialEq, Eq)]
pub struct MaterializedRegistry {
    pub selection: RegistrySelection,
    pub cache_path: String,
    pub resolved_commit: String,
}

/// The two files a registry provides.
#[derive(Debug, Clone)]
pub struct RegistryFiles {
    pub config_toml: String,
    pub rules_toml: String,
}

} // verus!
