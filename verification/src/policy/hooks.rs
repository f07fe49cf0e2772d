//! Git hook policy.
use vstd::prelude::*;
use crate::config::types::BaseConfig;

use crate::runtime::ResolvedConfig;

verus! {

/// Which git hooks are on.
#[derive(Debug, Clone)]
pub struct HooksModel {
    pub pre_commit: bool,
    pub commit_msg: bool,
    pub pre_push: bool,
}

impl Default for HooksModel {
    fn default() -> (r: Self)
        ensures
            hooks_model_default(r),
    {
        HooksModel { pre_commit: false, commit_msg: false, pre_push: false }
    }
}

impl HooksModel {
    /// The hook policy of a configuration.
    pub fn from_config(config: &ResolvedConfig) -> (r: Self)
        ensures
            hooks_model_of(r, config.base),
    {
        let base = &config.base;
        HooksModel {
            pre_commit: base.hooks_pre_commit(),
            commit_msg: base.hooks_commit_msg(),
            pre_push: base.hooks_pre_push(),
        }
    }
}

/// Whether a model holds what the settings `base` give.
pub open spec fn hooks_model_of(m: HooksModel, base: BaseConfig) -> bool {
    &&& m.pre_commit == base.spec_hooks_pre_commit()
    &&& m.commit_msg == base.spec_hooks_commit_msg()
    &&& m.pre_push == base.spec_hooks_pre_push()
}

/// Whether a model holds the defaults.
pub open spec fn hooks_model_default(m: HooksModel) -> bool {
    &&& !m.pre_commit && !m.commit_msg && !m.pre_push
}

} // verus!
