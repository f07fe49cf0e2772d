//! The policy: every rule the tool applies, built from the configuration.
pub mod ai;
pub mod branch;
pub mod changelog;
pub mod check;
pub mod commit;
pub mod hooks;
pub mod push;
pub mod release;

use vstd::prelude::*;

use crate::config::types::BaseConfig;
use crate::runtime::ResolvedConfig;
use crate::versioning::VersioningModel;

verus! {

/// The whole policy.
#[derive(Debug, Clone)]
pub struct Policy {
    pub commit: commit::CommitModel,
    pub branch: branch::BranchModel,
    pub check: check::CheckModel,
    pub push: push::PushModel,
    pub release: release::ReleaseModel,
    pub ai: ai::AiModel,
    pub changelog: changelog::ChangelogModel,
    pub hooks: hooks::HooksModel,
    pub versioning: VersioningModel,
}

impl Default for Policy {
    fn default() -> (r: Self)
        ensures
            policy_default(r),
    {
        Policy {
            commit: commit::CommitModel::default(),
            branch: branch::BranchModel::default(),
            check: check::CheckModel::default(),
            push: push::PushModel::default(),
            release: release::ReleaseModel::default(),
            ai: ai::AiModel::default(),
            changelog: changelog::ChangelogModel::default(),
            hooks: hooks::HooksModel::default(),
            versioning: VersioningModel::default(),
        }
    }
}

impl Policy {
    /// The policy of a configuration, section by section.
    pub fn from_config(config: &ResolvedConfig) -> (r: Self)
        ensures
            policy_of(r, config.base),
    {
        Policy {
            commit: commit::CommitModel::from_config(config),
            branch: branch::BranchModel::from_config(config),
            check: check::CheckModel::from_config(config),
            push: push::PushModel::from_config(config),
            release: release::ReleaseModel::from_config(config),
            ai: ai::AiModel::from_config(config),
            changelog: changelog::ChangelogModel::from_config(config),
            hooks: hooks::HooksModel::from_config(config),
            versioning: VersioningModel::from_config(config),
        }
    }
}

/// Whether every section of a policy holds what the settings `base` give.
pub open spec fn policy_of(p: Policy, base: BaseConfig) -> bool {
    &&& commit::commit_model_of(p.commit, base)
    &&& branch::branch_model_of(p.branch, base)
    &&& check::check_model_of(p.check, base)
    &&& push::push_model_of(p.push, base)
    &&& release::release_model_of(p.release, base)
    &&& ai::ai_model_of(p.ai, base)
    &&& changelog::changelog_model_of(p.changelog, base)
    &&& hooks::hooks_model_of(p.hooks, base)
    &&& crate::versioning::versioning_model_of(p.versioning, base)
}

/// Whether every section of a policy holds its defaults.
pub open spec fn policy_default(p: Policy) -> bool {
    &&& commit::commit_model_default(p.commit)
    &&& branch::branch_model_default(p.branch)
    &&& check::check_model_default(p.check)
    &&& push::push_model_default(p.push)
    &&& release::release_model_default(p.release)
    &&& ai::ai_model_default(p.ai)
    &&& changelog::changelog_model_default(p.changelog)
    &&& hooks::hooks_model_default(p.hooks)
    &&& crate::versioning::versioning_model_default(p.versioning)
}

} // verus!
