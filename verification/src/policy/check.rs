//! Commit-check policy.
use vstd::prelude::*;
use crate::config::types::BaseConfig;

use crate::enforcement::CommitEnforcementScope;
use crate::runtime::ResolvedConfig;

verus! {

/// On which branches commit checks are enforced.
#[derive(Debug, Clone, Copy, PartialEq, Eq, Structural)]
pub enum CommitCheckEnforcement {
    AllBranches,
    ProtectedBranches,
    NoBranches,
}

/// The enforcement a configured scope stands for.
pub open spec fn enforcement_of(v: CommitEnforcementScope) -> CommitCheckEnforcement {
    match v {
        CommitEnforcementScope::AllBranches => CommitCheckEnforcement::AllBranches,
        CommitEnforcementScope::ProtectedBranches => CommitCheckEnforcement::ProtectedBranches,
        CommitEnforcementScope::NoBranches => CommitCheckEnforcement::NoBranches,
    }
}

impl From<CommitEnforcementScope> for CommitCheckEnforcement {
    fn from(value: CommitEnforcementScope) -> (r: Self) {
        match value {
            CommitEnforcementScope::AllBranches => Self::AllBranches,
            CommitEnforcementScope::ProtectedBranches => Self::ProtectedBranches,
            CommitEnforcementScope::NoBranches => Self::NoBranches,
        }
    }
}

impl vstd::std_specs::convert::FromSpecImpl<CommitEnforcementScope> for CommitCheckEnforcement {
    open spec fn obeys_from_spec() -> bool {
        true
    }

    open spec fn from_spec(v: CommitEnforcementScope) -> Self {
        enforcement_of(v)
    }
}

/// Commit-check policy.
#[derive(Debug, Clone)]
pub struct CheckModel {
    pub require_conventional: bool,
    pub commits_enabled: bool,
    pub enforcement: CommitCheckEnforcement,
}

impl Default for CheckModel {
    fn default() -> (r: Self)
        ensures
            check_model_default(r),
    {
        CheckModel {
            require_conventional: true,
            commits_enabled: true,
            enforcement: CommitCheckEnforcement::ProtectedBranches,
        }
    }
}

impl CheckModel {
    /// The commit-check policy of a configuration.
    pub fn from_config(config: &ResolvedConfig) -> (r: Self)
        ensures
            check_model_of(r, config.base),
    {
        let base = &config.base;
        CheckModel {
            require_conventional: base.check_require_conventional(),
            commits_enabled: base.check_commits_enabled(),
            enforcement: CommitCheckEnforcement::from(base.check_commits_enforce_on()),
        }
    }
}

/// Whether a model holds what the settings `base` give.
pub open spec fn check_model_of(m: CheckModel, base: BaseConfig) -> bool {
    &&& m.require_conventional == base.spec_check_require_conventional()
    &&& m.commits_enabled == base.spec_check_commits_enabled()
    &&& m.enforcement == enforcement_of(base.spec_check_commits_enforce_on())
}

/// Whether a model holds the defaults.
pub open spec fn check_model_default(m: CheckModel) -> bool {
    &&& m.require_conventional
    &&& m.commits_enabled
    &&& m.enforcement == CommitCheckEnforcement::ProtectedBranches
}

} // verus!
