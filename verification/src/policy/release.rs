//! Release policy.
use vstd::prelude::*;
use crate::config::types::BaseConfig;

use crate::runtime::ResolvedConfig;
use crate::text::owned;

verus! {

/// Release preconditions.
#[derive(Debug, Clone)]
pub struct ReleaseValidationModel {
    pub require_clean_worktree: bool,
    pub fail_if_tag_exists: bool,
    pub fail_if_release_branch_exists: bool,
}

/// Release completion.
#[derive(Debug, Clone)]
pub struct ReleaseFinishModel {
    pub tag: bool,
    pub push: bool,
    pub backmerge_branch: String,
}

/// Release policy.
#[derive(Debug, Clone)]
pub struct ReleaseModel {
    pub enabled: bool,
    pub source_branch: String,
    pub target_branch: String,
    pub branch_format: String,
    pub hotfix_pattern: String,
    pub validation: ReleaseValidationModel,
    pub finish: ReleaseFinishModel,
}

impl Default for ReleaseModel {
    fn default() -> (r: Self)
        ensures
            release_model_default(r),
    {
        ReleaseModel {
            enabled: false,
            source_branch: owned("main"),
            target_branch: owned("main"),
            branch_format: owned("release/{version}"),
            hotfix_pattern: owned("hotfix/*"),
            validation: ReleaseValidationModel {
                require_clean_worktree: true,
                fail_if_tag_exists: true,
                fail_if_release_branch_exists: true,
            },
            finish: ReleaseFinishModel { tag: true, push: true, backmerge_branch: owned("main") },
        }
    }
}

impl ReleaseModel {
    /// The release policy of a configuration.
    pub fn from_config(config: &ResolvedConfig) -> (r: Self)
        ensures
            release_model_of(r, config.base),
    {
        let base = &config.base;
        ReleaseModel {
            enabled: base.release_enabled(),
            source_branch: base.release_source_branch(),
            target_branch: base.release_target_branch(),
            branch_format: base.release_branch_format(),
            hotfix_pattern: base.release_hotfix_pattern(),
            validation: ReleaseValidationModel {
                require_clean_worktree: base.release_require_clean_worktree(),
                fail_if_tag_exists: base.release_fail_if_tag_exists(),
                fail_if_release_branch_exists: base.release_fail_if_release_branch_exists(),
            },
            finish: ReleaseFinishModel {
                tag: base.release_finish_tag(),
                push: base.release_finish_push(),
                backmerge_branch: base.release_finish_backmerge_branch(),
            },
        }
    }
}

/// Whether a model holds what the settings `base` give.
pub open spec fn release_model_of(m: ReleaseModel, base: BaseConfig) -> bool {
    &&& m.enabled == base.spec_release_enabled()
    &&& m.source_branch@ == base.spec_release_source_branch()
    &&& m.target_branch@ == base.spec_release_target_branch()
    &&& m.branch_format@ == base.spec_release_branch_format()
    &&& m.hotfix_pattern@ == base.spec_release_hotfix_pattern()
    &&& m.validation.require_clean_worktree
            == base.spec_release_require_clean_worktree()
    &&& m.validation.fail_if_tag_exists == base.spec_release_fail_if_tag_exists()
    &&& m.validation.fail_if_release_branch_exists
            == base.spec_release_fail_if_release_branch_exists()
    &&& m.finish.tag == base.spec_release_finish_tag()
    &&& m.finish.push == base.spec_release_finish_push()
    &&& m.finish.backmerge_branch@ == base.spec_release_finish_backmerge_branch()
}

/// Whether a model holds the defaults.
pub open spec fn release_model_default(m: ReleaseModel) -> bool {
    &&& !m.enabled
    &&& m.source_branch@ == "main"@
    &&& m.target_branch@ == "main"@
    &&& m.branch_format@ == "release/{version}"@
    &&& m.hotfix_pattern@ == "hotfix/*"@
    &&& m.validation.require_clean_worktree && m.validation.fail_if_tag_exists
            && m.validation.fail_if_release_branch_exists
    &&& m.finish.tag && m.finish.push && m.finish.backmerge_branch@ == "main"@
}

} // verus!
