//! AI assistance policy.
use vstd::prelude::*;
use crate::config::types::BaseConfig;

use crate::enforcement::AiProvider;
use crate::runtime::ResolvedConfig;

verus! {

/// Which AI commands are on.
#[derive(Debug, Clone)]
pub struct AiCommandsModel {
    pub commit: bool,
    pub changelog: bool,
    pub release_prepare: bool,
}

/// AI assistance policy.
#[derive(Debug, Clone)]
pub struct AiModel {
    pub enabled: bool,
    pub provider: AiProvider,
    pub commands: AiCommandsModel,
}

impl Default for AiModel {
    fn default() -> (r: Self)
        ensures
            ai_model_default(r),
    {
        AiModel {
            enabled: false,
            provider: AiProvider::Copilot,
            commands: AiCommandsModel { commit: false, changelog: false, release_prepare: false },
        }
    }
}

impl AiModel {
    /// The AI policy of a configuration.
    pub fn from_config(config: &ResolvedConfig) -> (r: Self)
        ensures
            ai_model_of(r, config.base),
    {
        let base = &config.base;
        AiModel {
            enabled: base.ai_enabled(),
            provider: base.ai_provider(),
            commands: AiCommandsModel {
                commit: base.ai_commit_enabled(),
                changelog: base.ai_changelog_enabled(),
                release_prepare: base.ai_release_prepare_enabled(),
            },
        }
    }
}

/// Whether a model holds what the settings `base` give.
pub open spec fn ai_model_of(m: AiModel, base: BaseConfig) -> bool {
    &&& m.enabled == base.spec_ai_enabled()
    &&& m.provider == AiProvider::Copilot
    &&& m.commands.commit == base.spec_ai_commit_enabled()
    &&& m.commands.changelog == base.spec_ai_changelog_enabled()
    &&& m.commands.release_prepare == base.spec_ai_release_prepare_enabled()
}

/// Whether a model holds the defaults.
pub open spec fn ai_model_default(m: AiModel) -> bool {
    &&& !m.enabled
    &&& m.provider == AiProvider::Copilot
    &&& !m.commands.commit && !m.commands.changelog && !m.commands.release_prepare
}

} // verus!
