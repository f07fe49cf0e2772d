//! The settings file, section by section. Every setting is optional; the
//! accessors of `BaseConfig` supply the defaults. Tables keyed by name are
//! lists of `(name, value)` pairs in key order, each name at most once.
use vstd::prelude::*;

use crate::enforcement::{
    BumpLevel, ChangelogFormat, CommitEnforcementScope, EmojiMode, ScopeMode, TicketSource,
};

use crate::check::opt_view;
use crate::config::env::opt_texts;

verus! {

/// No name occurs twice among the keys of a table.
pub open spec fn keys_unique<T>(m: Seq<(String, T)>) -> bool {
    forall|i: int, j: int| 0 <= i < j < m.len() ==> (#[trigger] m[i]).0@ != (#[trigger] m[j]).0@
}

/// Commit settings.
#[derive(Debug, Clone)]
pub struct CommitConfig {
    pub subject_max_length: Option<u32>,
    pub use_emojis: Option<bool>,
    pub types: Option<Vec<(String, CommitTypeConfig)>>,
    pub scopes: Option<CommitScopesConfig>,
    pub breaking: Option<BreakingConfig>,
    pub protected: Option<CommitProtectedConfig>,
    pub ticket: Option<TicketConfig>,
}

/// One commit type: emoji, description, version bump and changelog section.
#[derive(Debug, Clone)]
pub struct CommitTypeConfig {
    pub emoji: Option<String>,
    pub description: Option<String>,
    pub bump: Option<BumpLevel>,
    pub section: Option<String>,
}

/// Scope settings.
#[derive(Debug, Clone)]
pub struct CommitScopesConfig {
    pub mode: Option<ScopeMode>,
    pub restrict_to_defined: Option<bool>,
    pub definitions: Option<Vec<(String, ScopeDefinition)>>,
}

/// One defined scope.
#[derive(Debug, Clone)]
pub struct ScopeDefinition {
    pub title: Option<String>,
    pub description: Option<String>,
    pub types: Option<Vec<String>>,
}

/// Breaking-change settings.
#[derive(Debug, Clone)]
pub struct BreakingConfig {
    pub require_header: Option<bool>,
    pub require_footer: Option<bool>,
    pub footer_key: Option<String>,
    pub footer_keys: Option<Vec<String>>,
    pub emoji: Option<String>,
    pub emoji_mode: Option<EmojiMode>,
}

/// Commits on protected branches.
#[derive(Debug, Clone)]
pub struct CommitProtectedConfig {
    pub allow: Option<bool>,
    pub force: Option<bool>,
    pub warn: Option<bool>,
}

/// Ticket reference settings.
#[derive(Debug, Clone)]
pub struct TicketConfig {
    pub required: Option<bool>,
    pub pattern: Option<String>,
    pub source: Option<TicketSource>,
    pub header_format: Option<String>,
}

/// Branch settings.
#[derive(Debug, Clone)]
pub struct BranchConfig {
    pub remote: Option<String>,
    pub protected: Option<Vec<String>>,
    pub naming: Option<BranchNamingConfig>,
}

/// Branch naming settings.
#[derive(Debug, Clone)]
pub struct BranchNamingConfig {
    pub pattern: Option<String>,
}

/// Pull-request settings.
#[derive(Debug, Clone)]
pub struct PrConfig {
    pub enabled: Option<bool>,
    pub title: Option<PrTitleConfig>,
    pub branch: Option<PrBranchConfig>,
}

/// Pull-request title settings.
#[derive(Debug, Clone)]
pub struct PrTitleConfig {
    pub require_conventional: Option<bool>,
    pub require_ticket: Option<bool>,
    pub scope_mode: Option<ScopeMode>,
}

/// Pull-request branch settings.
#[derive(Debug, Clone)]
pub struct PrBranchConfig {
    pub check_source: Option<bool>,
    pub check_target: Option<bool>,
    pub source_pattern: Option<String>,
    pub target_allowed: Option<Vec<String>>,
}

/// Check settings.
#[derive(Debug, Clone)]
pub struct CheckConfig {
    pub require_conventional: Option<bool>,
    pub commits: Option<CheckCommitsConfig>,
}

/// Commit check settings.
#[derive(Debug, Clone)]
pub struct CheckCommitsConfig {
    pub enabled: Option<bool>,
    pub enforce_on: Option<CommitEnforcementScope>,
}

/// Push settings.
#[derive(Debug, Clone)]
pub struct PushConfig {
    pub allow: Option<PushAllowConfig>,
    pub check: Option<PushCheckConfig>,
}

/// What a push may do.
#[derive(Debug, Clone)]
pub struct PushAllowConfig {
    pub protected: Option<bool>,
    pub force: Option<bool>,
}

/// What a push checks.
#[derive(Debug, Clone)]
pub struct PushCheckConfig {
    pub commits: Option<bool>,
    pub branch_policy: Option<bool>,
}

/// Versioning settings.
#[derive(Debug, Clone)]
pub struct VersioningConfig {
    pub tag_prefix: Option<String>,
}

/// Changelog settings.
#[derive(Debug, Clone)]
pub struct ChangelogConfig {
    pub output: Option<String>,
    pub format: Option<ChangelogFormat>,
    pub header: Option<ChangelogHeaderConfig>,
    pub layout: Option<ChangelogLayoutConfig>,
    pub sections: Option<Vec<(String, ChangelogSectionConfig)>>,
}

/// Changelog header settings.
#[derive(Debug, Clone)]
pub struct ChangelogHeaderConfig {
    pub use_header: Option<bool>,
    pub title: Option<String>,
    pub description: Option<String>,
}

/// One changelog section.
#[derive(Debug, Clone)]
pub struct ChangelogSectionConfig {
    pub title: Option<String>,
    pub order: Option<i32>,
}

/// Changelog layout settings.
#[derive(Debug, Clone)]
pub struct ChangelogLayoutConfig {
    pub group_by: Option<Vec<String>>,
    pub section_order: Option<Vec<String>>,
    pub scope_order: Option<Vec<String>>,
    pub show_scope: Option<bool>,
    pub show_empty_sections: Option<bool>,
    pub show_empty_scopes: Option<bool>,
    pub misc_section: Option<String>,
    pub unreleased_label: Option<String>,
    pub date_format: Option<String>,
}

/// Release settings.
#[derive(Debug, Clone)]
pub struct ReleaseConfig {
    pub enabled: Option<bool>,
    pub source_branch: Option<String>,
    pub target_branch: Option<String>,
    pub branch_format: Option<String>,
    pub hotfix_pattern: Option<String>,
    pub validation: Option<ReleaseValidationConfig>,
    pub finish: Option<ReleaseFinishConfig>,
}

/// Release preconditions.
#[derive(Debug, Clone)]
pub struct ReleaseValidationConfig {
    pub require_clean_worktree: Option<bool>,
    pub fail_if_tag_exists: Option<bool>,
    pub fail_if_release_branch_exists: Option<bool>,
}

/// Release completion settings.
#[derive(Debug, Clone)]
pub struct ReleaseFinishConfig {
    pub tag: Option<bool>,
    pub push: Option<bool>,
    pub backmerge_branch: Option<String>,
}

/// Git hook settings.
#[derive(Debug, Clone)]
pub struct HooksConfig {
    pub pre_commit: Option<bool>,
    pub commit_msg: Option<bool>,
    pub pre_push: Option<bool>,
}

/// AI settings.
#[derive(Debug, Clone)]
pub struct AiConfig {
    pub enabled: Option<bool>,
    pub provider: Option<String>,
    pub commands: Option<AiCommandsConfig>,
}

/// AI command switches.
#[derive(Debug, Clone)]
pub struct AiCommandsConfig {
    pub commit: Option<bool>,
    pub changelog: Option<bool>,
    pub release_prepare: Option<bool>,
}

/// The registry a project uses.
#[derive(Debug, Clone)]
pub struct RegistryConfig {
    pub use_registry: Option<String>,
    pub section: Option<String>,
}

/// A named registry.
#[derive(Debug, Clone)]
pub struct NamedRegistryConfig {
    pub url: Option<String>,
    pub ref_name: Option<String>,
    pub section: Option<String>,
    pub sections: Option<Vec<String>>,
}

/// The whole settings file.
#[derive(Debug, Clone)]
pub struct BaseConfig {
    pub commit: Option<CommitConfig>,
    pub branch: Option<BranchConfig>,
    pub pr: Option<PrConfig>,
    pub check: Option<CheckConfig>,
    pub push: Option<PushConfig>,
    pub versioning: Option<VersioningConfig>,
    pub changelog: Option<ChangelogConfig>,
    pub release: Option<ReleaseConfig>,
    pub hooks: Option<HooksConfig>,
    pub ai: Option<AiConfig>,
    pub registry: Option<RegistryConfig>,
    pub registries: Option<Vec<(String, NamedRegistryConfig)>>,
}

// ---------------------------------------------------------------------------
// Settings compared by what they hold
// ---------------------------------------------------------------------------
/// Whether two `CommitConfig` values hold the same settings.
pub open spec fn same_commit_config(a: CommitConfig, b: CommitConfig) -> bool {
    &&& a.subject_max_length == b.subject_max_length
    &&& a.use_emojis == b.use_emojis
    &&& same_commit_type_config_table(a.types, b.types)
    &&& same_opt_commit_scopes_config(a.scopes, b.scopes)
    &&& same_opt_breaking_config(a.breaking, b.breaking)
    &&& same_opt_commit_protected_config(a.protected, b.protected)
    &&& same_opt_ticket_config(a.ticket, b.ticket)
}

/// Whether two `CommitTypeConfig` values hold the same settings.
pub open spec fn same_commit_type_config(a: CommitTypeConfig, b: CommitTypeConfig) -> bool {
    &&& opt_view(a.emoji) == opt_view(b.emoji)
    &&& opt_view(a.description) == opt_view(b.description)
    &&& a.bump == b.bump
    &&& opt_view(a.section) == opt_view(b.section)
}

/// Whether two `CommitScopesConfig` values hold the same settings.
pub open spec fn same_commit_scopes_config(a: CommitScopesConfig, b: CommitScopesConfig) -> bool {
    &&& a.mode == b.mode
    &&& a.restrict_to_defined == b.restrict_to_defined
    &&& same_scope_definition_table(a.definitions, b.definitions)
}

/// Whether two `ScopeDefinition` values hold the same settings.
pub open spec fn same_scope_definition(a: ScopeDefinition, b: ScopeDefinition) -> bool {
    &&& opt_view(a.title) == opt_view(b.title)
    &&& opt_view(a.description) == opt_view(b.description)
    &&& opt_texts(a.types) == opt_texts(b.types)
}

/// Whether two `BreakingConfig` values hold the same settings.
pub open spec fn same_breaking_config(a: BreakingConfig, b: BreakingConfig) -> bool {
    &&& a.require_header == b.require_header
    &&& a.require_footer == b.require_footer
    &&& opt_view(a.footer_key) == opt_view(b.footer_key)
    &&& opt_texts(a.footer_keys) == opt_texts(b.footer_keys)
    &&& opt_view(a.emoji) == opt_view(b.emoji)
    &&& a.emoji_mode == b.emoji_mode
}

/// Whether two `CommitProtectedConfig` values hold the same settings.
pub open spec fn same_commit_protected_config(a: CommitProtectedConfig, b: CommitProtectedConfig) -> bool {
    &&& a.allow == b.allow
    &&& a.force == b.force
    &&& a.warn == b.warn
}

/// Whether two `TicketConfig` values hold the same settings.
pub open spec fn same_ticket_config(a: TicketConfig, b: TicketConfig) -> bool {
    &&& a.required == b.required
    &&& opt_view(a.pattern) == opt_view(b.pattern)
    &&& a.source == b.source
    &&& opt_view(a.header_format) == opt_view(b.header_format)
}

/// Whether two `BranchConfig` values hold the same settings.
pub open spec fn same_branch_config(a: BranchConfig, b: BranchConfig) -> bool {
    &&& opt_view(a.remote) == opt_view(b.remote)
    &&& opt_texts(a.protected) == opt_texts(b.protected)
    &&& same_opt_branch_naming_config(a.naming, b.naming)
}

/// Whether two `BranchNamingConfig` values hold the same settings.
pub open spec fn same_branch_naming_config(a: BranchNamingConfig, b: BranchNamingConfig) -> bool {
    &&& opt_view(a.pattern) == opt_view(b.pattern)
}

/// Whether two `PrConfig` values hold the same settings.
pub open spec fn same_pr_config(a: PrConfig, b: PrConfig) -> bool {
    &&& a.enabled == b.enabled
    &&& same_opt_pr_title_config(a.title, b.title)
    &&& same_opt_pr_branch_config(a.branch, b.branch)
}

/// Whether two `PrTitleConfig` values hold the same settings.
pub open spec fn same_pr_title_config(a: PrTitleConfig, b: PrTitleConfig) -> bool {
    &&& a.require_conventional == b.require_conventional
    &&& a.require_ticket == b.require_ticket
    &&& a.scope_mode == b.scope_mode
}

/// Whether two `PrBranchConfig` values hold the same settings.
pub open spec fn same_pr_branch_config(a: PrBranchConfig, b: PrBranchConfig) -> bool {
    &&& a.check_source == b.check_source
    &&& a.check_target == b.check_target
    &&& opt_view(a.source_pattern) == opt_view(b.source_pattern)
    &&& opt_texts(a.target_allowed) == opt_texts(b.target_allowed)
}

/// Whether two `CheckConfig` values hold the same settings.
pub open spec fn same_check_config(a: CheckConfig, b: CheckConfig) -> bool {
    &&& a.require_conventional == b.require_conventional
    &&& same_opt_check_commits_config(a.commits, b.commits)
}

/// Whether two `CheckCommitsConfig` values hold the same settings.
pub open spec fn same_check_commits_config(a: CheckCommitsConfig, b: CheckCommitsConfig) -> bool {
    &&& a.enabled == b.enabled
    &&& a.enforce_on == b.enforce_on
}

/// Whether two `PushConfig` values hold the same settings.
pub open spec fn same_push_config(a: PushConfig, b: PushConfig) -> bool {
    &&& same_opt_push_allow_config(a.allow, b.allow)
    &&& same_opt_push_check_config(a.check, b.check)
}

/// Whether two `PushAllowConfig` values hold the same settings.
pub open spec fn same_push_allow_config(a: PushAllowConfig, b: PushAllowConfig) -> bool {
    &&& a.protected == b.protected
    &&& a.force == b.force
}

/// Whether two `PushCheckConfig` values hold the same settings.
pub open spec fn same_push_check_config(a: PushCheckConfig, b: PushCheckConfig) -> bool {
    &&& a.commits == b.commits
    &&& a.branch_policy == b.branch_policy
}

/// Whether two `VersioningConfig` values hold the same settings.
pub open spec fn same_versioning_config(a: VersioningConfig, b: VersioningConfig) -> bool {
    &&& opt_view(a.tag_prefix) == opt_view(b.tag_prefix)
}

/// Whether two `ChangelogConfig` values hold the same settings.
pub open spec fn same_changelog_config(a: ChangelogConfig, b: ChangelogConfig) -> bool {
    &&& opt_view(a.output) == opt_view(b.output)
    &&& a.format == b.format
    &&& same_opt_changelog_header_config(a.header, b.header)
    &&& same_opt_changelog_layout_config(a.layout, b.layout)
    &&& same_changelog_section_config_table(a.sections, b.sections)
}

/// Whether two `ChangelogHeaderConfig` values hold the same settings.
pub open spec fn same_changelog_header_config(a: ChangelogHeaderConfig, b: ChangelogHeaderConfig) -> bool {
    &&& a.use_header == b.use_header
    &&& opt_view(a.title) == opt_view(b.title)
    &&& opt_view(a.description) == opt_view(b.description)
}

/// Whether two `ChangelogSectionConfig` values hold the same settings.
pub open spec fn same_changelog_section_config(a: ChangelogSectionConfig, b: ChangelogSectionConfig) -> bool {
    &&& opt_view(a.title) == opt_view(b.title)
    &&& a.order == b.order
}

/// Whether two `ChangelogLayoutConfig` values hold the same settings.
pub open spec fn same_changelog_layout_config(a: ChangelogLayoutConfig, b: ChangelogLayoutConfig) -> bool {
    &&& opt_texts(a.group_by) == opt_texts(b.group_by)
    &&& opt_texts(a.section_order) == opt_texts(b.section_order)
    &&& opt_texts(a.scope_order) == opt_texts(b.scope_order)
    &&& a.show_scope == b.show_scope
    &&& a.show_empty_sections == b.show_empty_sections
    &&& a.show_empty_scopes == b.show_empty_scopes
    &&& opt_view(a.misc_section) == opt_view(b.misc_section)
    &&& opt_view(a.unreleased_label) == opt_view(b.unreleased_label)
    &&& opt_view(a.date_format) == opt_view(b.date_format)
}

/// Whether two `ReleaseConfig` values hold the same settings.
pub open spec fn same_release_config(a: ReleaseConfig, b: ReleaseConfig) -> bool {
    &&& a.enabled == b.enabled
    &&& opt_view(a.source_branch) == opt_view(b.source_branch)
    &&& opt_view(a.target_branch) == opt_view(b.target_branch)
    &&& opt_view(a.branch_format) == opt_view(b.branch_format)
    &&& opt_view(a.hotfix_pattern) == opt_view(b.hotfix_pattern)
    &&& same_opt_release_validation_config(a.validation, b.validation)
    &&& same_opt_release_finish_config(a.finish, b.finish)
}

/// Whether two `ReleaseValidationConfig` values hold the same settings.
pub open spec fn same_release_validation_config(a: ReleaseValidationConfig, b: ReleaseValidationConfig) -> bool {
    &&& a.require_clean_worktree == b.require_clean_worktree
    &&& a.fail_if_tag_exists == b.fail_if_tag_exists
    &&& a.fail_if_release_branch_exists == b.fail_if_release_branch_exists
}

/// Whether two `ReleaseFinishConfig` values hold the same settings.
pub open spec fn same_release_finish_config(a: ReleaseFinishConfig, b: ReleaseFinishConfig) -> bool {
    &&& a.tag == b.tag
    &&& a.push == b.push
    &&& opt_view(a.backmerge_branch) == opt_view(b.backmerge_branch)
}

/// Whether two `HooksConfig` values hold the same settings.
pub open spec fn same_hooks_config(a: HooksConfig, b: HooksConfig) -> bool {
    &&& a.pre_commit == b.pre_commit
    &&& a.commit_msg == b.commit_msg
    &&& a.pre_push == b.pre_push
}

/// Whether two `AiConfig` values hold the same settings.
pub open spec fn same_ai_config(a: AiConfig, b: AiConfig) -> bool {
    &&& a.enabled == b.enabled
    &&& opt_view(a.provider) == opt_view(b.provider)
    &&& same_opt_ai_commands_config(a.commands, b.commands)
}

/// Whether two `AiCommandsConfig` values hold the same settings.
pub open spec fn same_ai_commands_config(a: AiCommandsConfig, b: AiCommandsConfig) -> bool {
    &&& a.commit == b.commit
    &&& a.changelog == b.changelog
    &&& a.release_prepare == b.release_prepare
}

/// Whether two optional `AiCommandsConfig` values are both unset, or both set to the same settings.
pub open spec fn same_opt_ai_commands_config(a: Option<AiCommandsConfig>, b: Option<AiCommandsConfig>) -> bool {
    match (a, b) {
        (None, None) => true,
        (Some(x), Some(y)) => same_ai_commands_config(x, y),
        _ => false,
    }
}

/// Whether two optional `AiConfig` values are both unset, or both set to the same settings.
pub open spec fn same_opt_ai_config(a: Option<AiConfig>, b: Option<AiConfig>) -> bool {
    match (a, b) {
        (None, None) => true,
        (Some(x), Some(y)) => same_ai_config(x, y),
        _ => false,
    }
}

/// Whether two optional `BranchConfig` values are both unset, or both set to the same settings.
pub open spec fn same_opt_branch_config(a: Option<BranchConfig>, b: Option<BranchConfig>) -> bool {
    match (a, b) {
        (None, None) => true,
        (Some(x), Some(y)) => same_branch_config(x, y),
        _ => false,
    }
}

/// Whether two optional `BranchNamingConfig` values are both unset, or both set to the same settings.
pub open spec fn same_opt_branch_naming_config(a: Option<BranchNamingConfig>, b: Option<BranchNamingConfig>) -> bool {
    match (a, b) {
        (None, None) => true,
        (Some(x), Some(y)) => same_branch_naming_config(x, y),
        _ => false,
    }
}

/// Whether two optional `BreakingConfig` values are both unset, or both set to the same settings.
pub open spec fn same_opt_breaking_config(a: Option<BreakingConfig>, b: Option<BreakingConfig>) -> bool {
    match (a, b) {
        (None, None) => true,
        (Some(x), Some(y)) => same_breaking_config(x, y),
        _ => false,
    }
}

/// Whether two optional `ChangelogConfig` values are both unset, or both set to the same settings.
pub open spec fn same_opt_changelog_config(a: Option<ChangelogConfig>, b: Option<ChangelogConfig>) -> bool {
    match (a, b) {
        (None, None) => true,
        (Some(x), Some(y)) => same_changelog_config(x, y),
        _ => false,
    }
}

/// Whether two optional `ChangelogHeaderConfig` values are both unset, or both set to the same settings.
pub open spec fn same_opt_changelog_header_config(a: Option<ChangelogHeaderConfig>, b: Option<ChangelogHeaderConfig>) -> bool {
    match (a, b) {
        (None, None) => true,
        (Some(x), Some(y)) => same_changelog_header_config(x, y),
        _ => false,
    }
}

/// Whether two optional `ChangelogLayoutConfig` values are both unset, or both set to the same settings.
pub open spec fn same_opt_changelog_layout_config(a: Option<ChangelogLayoutConfig>, b: Option<ChangelogLayoutConfig>) -> bool {
    match (a, b) {
        (None, None) => true,
        (Some(x), Some(y)) => same_changelog_layout_config(x, y),
        _ => false,
    }
}

/// Whether two optional `CheckCommitsConfig` values are both unset, or both set to the same settings.
pub open spec fn same_opt_check_commits_config(a: Option<CheckCommitsConfig>, b: Option<CheckCommitsConfig>) -> bool {
    match (a, b) {
        (None, None) => true,
        (Some(x), Some(y)) => same_check_commits_config(x, y),
        _ => false,
    }
}

/// Whether two optional `CheckConfig` values are both unset, or both set to the same settings.
pub open spec fn same_opt_check_config(a: Option<CheckConfig>, b: Option<CheckConfig>) -> bool {
    match (a, b) {
        (None, None) => true,
        (Some(x), Some(y)) => same_check_config(x, y),
        _ => false,
    }
}

/// Whether two optional `CommitConfig` values are both unset, or both set to the same settings.
pub open spec fn same_opt_commit_config(a: Option<CommitConfig>, b: Option<CommitConfig>) -> bool {
    match (a, b) {
        (None, None) => true,
        (Some(x), Some(y)) => same_commit_config(x, y),
        _ => false,
    }
}

/// Whether two optional `CommitProtectedConfig` values are both unset, or both set to the same settings.
pub open spec fn same_opt_commit_protected_config(a: Option<CommitProtectedConfig>, b: Option<CommitProtectedConfig>) -> bool {
    match (a, b) {
        (None, None) => true,
        (Some(x), Some(y)) => same_commit_protected_config(x, y),
        _ => false,
    }
}

/// Whether two optional `CommitScopesConfig` values are both unset, or both set to the same settings.
pub open spec fn same_opt_commit_scopes_config(a: Option<CommitScopesConfig>, b: Option<CommitScopesConfig>) -> bool {
    match (a, b) {
        (None, None) => true,
        (Some(x), Some(y)) => same_commit_scopes_config(x, y),
        _ => false,
    }
}

/// Whether two optional `HooksConfig` values are both unset, or both set to the same settings.
pub open spec fn same_opt_hooks_config(a: Option<HooksConfig>, b: Option<HooksConfig>) -> bool {
    match (a, b) {
        (None, None) => true,
        (Some(x), Some(y)) => same_hooks_config(x, y),
        _ => false,
    }
}

/// Whether two optional `PrBranchConfig` values are both unset, or both set to the same settings.
pub open spec fn same_opt_pr_branch_config(a: Option<PrBranchConfig>, b: Option<PrBranchConfig>) -> bool {
    match (a, b) {
        (None, None) => true,
        (Some(x), Some(y)) => same_pr_branch_config(x, y),
        _ => false,
    }
}

/// Whether two optional `PrConfig` values are both unset, or both set to the same settings.
pub open spec fn same_opt_pr_config(a: Option<PrConfig>, b: Option<PrConfig>) -> bool {
    match (a, b) {
        (None, None) => true,
        (Some(x), Some(y)) => same_pr_config(x, y),
        _ => false,
    }
}

/// Whether two optional `PrTitleConfig` values are both unset, or both set to the same settings.
pub open spec fn same_opt_pr_title_config(a: Option<PrTitleConfig>, b: Option<PrTitleConfig>) -> bool {
    match (a, b) {
        (None, None) => true,
        (Some(x), Some(y)) => same_pr_title_config(x, y),
        _ => false,
    }
}

/// Whether two optional `PushAllowConfig` values are both unset, or both set to the same settings.
pub open spec fn same_opt_push_allow_config(a: Option<PushAllowConfig>, b: Option<PushAllowConfig>) -> bool {
    match (a, b) {
        (None, None) => true,
        (Some(x), Some(y)) => same_push_allow_config(x, y),
        _ => false,
    }
}

/// Whether two optional `PushCheckConfig` values are both unset, or both set to the same settings.
pub open spec fn same_opt_push_check_config(a: Option<PushCheckConfig>, b: Option<PushCheckConfig>) -> bool {
    match (a, b) {
        (None, None) => true,
        (Some(x), Some(y)) => same_push_check_config(x, y),
        _ => false,
    }
}

/// Whether two optional `PushConfig` values are both unset, or both set to the same settings.
pub open spec fn same_opt_push_config(a: Option<PushConfig>, b: Option<PushConfig>) -> bool {
    match (a, b) {
        (None, None) => true,
        (Some(x), Some(y)) => same_push_config(x, y),
        _ => false,
    }
}

/// Whether two optional `ReleaseConfig` values are both unset, or both set to the same settings.
pub open spec fn same_opt_release_config(a: Option<ReleaseConfig>, b: Option<ReleaseConfig>) -> bool {
    match (a, b) {
        (None, None) => true,
        (Some(x), Some(y)) => same_release_config(x, y),
        _ => false,
    }
}

/// Whether two optional `ReleaseFinishConfig` values are both unset, or both set to the same settings.
pub open spec fn same_opt_release_finish_config(a: Option<ReleaseFinishConfig>, b: Option<ReleaseFinishConfig>) -> bool {
    match (a, b) {
        (None, None) => true,
        (Some(x), Some(y)) => same_release_finish_config(x, y),
        _ => false,
    }
}

/// Whether two optional `ReleaseValidationConfig` values are both unset, or both set to the same settings.
pub open spec fn same_opt_release_validation_config(a: Option<ReleaseValidationConfig>, b: Option<ReleaseValidationConfig>) -> bool {
    match (a, b) {
        (None, None) => true,
        (Some(x), Some(y)) => same_release_validation_config(x, y),
        _ => false,
    }
}

/// Whether two optional `TicketConfig` values are both unset, or both set to the same settings.
pub open spec fn same_opt_ticket_config(a: Option<TicketConfig>, b: Option<TicketConfig>) -> bool {
    match (a, b) {
        (None, None) => true,
        (Some(x), Some(y)) => same_ticket_config(x, y),
        _ => false,
    }
}

/// Whether two optional `VersioningConfig` values are both unset, or both set to the same settings.
pub open spec fn same_opt_versioning_config(a: Option<VersioningConfig>, b: Option<VersioningConfig>) -> bool {
    match (a, b) {
        (None, None) => true,
        (Some(x), Some(y)) => same_versioning_config(x, y),
        _ => false,
    }
}

/// Whether two optional `ChangelogSectionConfig` tables are both unset, or both set with the same
/// names in the same order and the same settings under each.
pub open spec fn same_changelog_section_config_table(a: Option<Vec<(String, ChangelogSectionConfig)>>, b: Option<Vec<(String, ChangelogSectionConfig)>>) -> bool {
    match (a, b) {
        (None, None) => true,
        (Some(x), Some(y)) => x@.len() == y@.len() && forall|i: int|
            0 <= i < x@.len() ==> (#[trigger] x@[i]).0@ == y@[i].0@ && same_changelog_section_config(x@[i].1, y@[i].1),
        _ => false,
    }
}

/// Whether two optional `CommitTypeConfig` tables are both unset, or both set with the same
/// names in the same order and the same settings under each.
pub open spec fn same_commit_type_config_table(a: Option<Vec<(String, CommitTypeConfig)>>, b: Option<Vec<(String, CommitTypeConfig)>>) -> bool {
    match (a, b) {
        (None, None) => true,
        (Some(x), Some(y)) => x@.len() == y@.len() && forall|i: int|
            0 <= i < x@.len() ==> (#[trigger] x@[i]).0@ == y@[i].0@ && same_commit_type_config(x@[i].1, y@[i].1),
        _ => false,
    }
}

/// Whether two optional `ScopeDefinition` tables are both unset, or both set with the same
/// names in the same order and the same settings under each.
pub open spec fn same_scope_definition_table(a: Option<Vec<(String, ScopeDefinition)>>, b: Option<Vec<(String, ScopeDefinition)>>) -> bool {
    match (a, b) {
        (None, None) => true,
        (Some(x), Some(y)) => x@.len() == y@.len() && forall|i: int|
            0 <= i < x@.len() ==> (#[trigger] x@[i]).0@ == y@[i].0@ && same_scope_definition(x@[i].1, y@[i].1),
        _ => false,
    }
}

/// Whether two settings files hold the same ten sections (all but the
/// registry choice and the registry table).
pub open spec fn same_sections(a: BaseConfig, b: BaseConfig) -> bool {
    &&& same_opt_commit_config(a.commit, b.commit)
    &&& same_opt_branch_config(a.branch, b.branch)
    &&& same_opt_pr_config(a.pr, b.pr)
    &&& same_opt_check_config(a.check, b.check)
    &&& same_opt_push_config(a.push, b.push)
    &&& same_opt_versioning_config(a.versioning, b.versioning)
    &&& same_opt_changelog_config(a.changelog, b.changelog)
    &&& same_opt_release_config(a.release, b.release)
    &&& same_opt_hooks_config(a.hooks, b.hooks)
    &&& same_opt_ai_config(a.ai, b.ai)
}

} // verus!
