//! Push policy.
use vstd::prelude::*;
use crate::config::types::BaseConfig;

use crate::runtime::ResolvedConfig;

verus! {

/// Push policy.
#[derive(Debug, Clone)]
pub struct PushModel {
    pub allow_protected: bool,
    pub allow_force_override: bool,
    pub check_commits: bool,
    pub check_branch_policy: bool,
}

impl Default for PushModel {
    fn default() -> (r: Self)
        ensures
            push_model_default(r),
    {
        PushModel {
            allow_protected: false,
            allow_force_override: false,
            check_commits: true,
            check_branch_policy: true,
        }
    }
}

impl PushModel {
    /// The push policy of a configuration.
    pub fn from_config(config: &ResolvedConfig) -> (r: Self)
        ensures
            push_model_of(r, config.base),
    {
        let base = &config.base;
        PushModel {
            allow_protected: base.push_allow_protected(),
            allow_force_override: base.push_allow_force(),
            check_commits: base.push_check_commits(),
            check_branch_policy: base.push_check_branch_policy(),
        }
    }
}

/// Whether a model holds what the settings `base` give.
pub open spec fn push_model_of(m: PushModel, base: BaseConfig) -> bool {
    &&& m.allow_protected == base.spec_push_allow_protected()
    &&& m.allow_force_override == base.spec_push_allow_force()
    &&& m.check_commits == base.spec_push_check_commits()
    &&& m.check_branch_policy == base.spec_push_check_branch_policy()
}

/// Whether a model holds the defaults.
pub open spec fn push_model_default(m: PushModel) -> bool {
    &&& !m.allow_protected
    &&& !m.allow_force_override
    &&& m.check_commits
    &&& m.check_branch_policy
}

} // verus!
