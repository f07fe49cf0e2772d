//! Taking the settings and rules out of the documents that were read.
use vstd::prelude::*;

use crate::config::rules::RulesConfig;
use crate::config::schema::{ProjectConfig, StandardConfig};
use crate::config::types::BaseConfig;

verus! {

/// The settings of a settings file.
pub fn extract_config_from_standard_config(standard_config: StandardConfig) -> (r: BaseConfig)
    ensures
        r == standard_config.inner,
{
    standard_config.inner
}

/// The settings and the rules of a project file.
pub fn extract_configs_from_project_config(project_config: ProjectConfig) -> (r: (
    BaseConfig,
    Option<RulesConfig>,
))
    ensures
        r.0 == project_config.inner.config,
        r.1 == project_config.inner.rules,
{
    (project_config.inner.config, project_config.inner.rules)
}

/// The settings of a settings file that was read, if it was.
pub fn resolve_standard_configs(loaded: Option<StandardConfig>) -> (r: Option<BaseConfig>)
    ensures
        r == match loaded {
            Some(c) => Some(c.inner),
            None => None,
        },
{
    match loaded {
        Some(c) => Some(extract_config_from_standard_config(c)),
        None => None,
    }
}

/// The settings and rules of a project file that was read, if it was.
pub fn resolve_project_configs(loaded: Option<ProjectConfig>) -> (r: (
    Option<BaseConfig>,
    Option<RulesConfig>,
))
    ensures
        match loaded {
            Some(c) => r.0 == Some(c.inner.config) && r.1 == c.inner.rules,
            None => r.0 is None && r.1 is None,
        },
{
    match loaded {
        Some(c) => {
            let (base, rules) = extract_configs_from_project_config(c);
            (Some(base), rules)
        },
        None => (None, None),
    }
}

} // verus!
