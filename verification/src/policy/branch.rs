//! Branch policy: remote, protected patterns and naming.
use vstd::prelude::*;
use crate::config::types::BaseConfig;

use crate::check::texts;
use crate::config::defaults::default_protected_texts;
use crate::runtime::ResolvedConfig;
use crate::text::owned;

verus! {

/// Branch policy.
#[derive(Debug, Clone)]
pub struct BranchModel {
    pub remote: String,
    pub protected_patterns: Vec<String>,
    pub naming_pattern: String,
    pub enforce_naming: bool,
    pub allowed_targets: Option<Vec<String>>,
}

impl Default for BranchModel {
    fn default() -> (r: Self)
        ensures
            branch_model_default(r),
    {
        let mut p: Vec<String> = Vec::new();
        p.push(owned("main"));
        p.push(owned("master"));
        p.push(owned("release/*"));
        assert(texts(p@) =~= default_protected_texts());
        BranchModel {
            remote: owned("origin"),
            protected_patterns: p,
            naming_pattern: owned("feature/{issue}"),
            enforce_naming: false,
            allowed_targets: None,
        }
    }
}

impl BranchModel {
    /// The branch policy of a configuration.
    pub fn from_config(config: &ResolvedConfig) -> (r: Self)
        ensures
            branch_model_of(r, config.base),
    {
        let base = &config.base;
        let targets = base.branch_allowed_targets();
        BranchModel {
            remote: base.branch_remote(),
            protected_patterns: base.branch_protected_patterns(),
            naming_pattern: base.branch_naming_pattern(),
            enforce_naming: base.branch_naming_enforce(),
            allowed_targets: if targets.len() == 0 {
                None
            } else {
                Some(base.branch_allowed_targets())
            },
        }
    }

    /// Whether any protected pattern is configured.
    pub fn is_protected_pattern_configured(&self) -> (r: bool)
        ensures
            r == (self.protected_patterns@.len() > 0),
    {
        self.protected_patterns.len() != 0
    }
}

/// Whether a model holds what the settings `base` give.
pub open spec fn branch_model_of(m: BranchModel, base: BaseConfig) -> bool {
    &&& m.remote@ == base.spec_branch_remote()
    &&& texts(m.protected_patterns@) == base.spec_branch_protected_patterns()
    &&& m.naming_pattern@ == base.spec_branch_naming_pattern()
    &&& m.enforce_naming == crate::config::defaults::BRANCH_NAMING_ENFORCE
    &&& m.allowed_targets is None
}

/// Whether a model holds the defaults.
pub open spec fn branch_model_default(m: BranchModel) -> bool {
    &&& m.remote@ == "origin"@
    &&& texts(m.protected_patterns@) == default_protected_texts()
    &&& m.naming_pattern@ == "feature/{issue}"@
    &&& !m.enforce_naming
    &&& m.allowed_targets is None
}

} // verus!
