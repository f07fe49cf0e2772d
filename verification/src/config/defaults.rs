//! Default values of every setting, and the preset settings files.
use vstd::prelude::*;

use crate::check::{opt_view, texts};
use crate::config::types::{
    keys_unique, AiCommandsConfig, AiConfig, BaseConfig, BranchConfig, BranchNamingConfig,
    BreakingConfig, ChangelogConfig, ChangelogLayoutConfig, CheckCommitsConfig, CheckConfig,
    CommitConfig, CommitProtectedConfig, CommitScopesConfig, CommitTypeConfig, HooksConfig,
    NamedRegistryConfig, PrConfig, PushAllowConfig, PushCheckConfig, PushConfig, RegistryConfig,
    ReleaseConfig, ReleaseFinishConfig, ReleaseValidationConfig, TicketConfig, VersioningConfig,
};
use crate::enforcement::{
    AiProvider, BumpLevel, ChangelogFormat, CommitEnforcementScope, ScopeMode, TicketSource,
};
use crate::text::owned;

verus! {

/// Version of the settings format.
pub const CONFIG_VERSION: u32 = 1;

/// Bump of a commit type that names none.
pub const DEFAULT_COMMIT_BUMP: BumpLevel = BumpLevel::Patch;

/// Default: commit subject max length.
pub const COMMIT_SUBJECT_MAX_LENGTH: u32 = 72;

/// Default: commit use emojis.
pub const COMMIT_USE_EMOJIS: bool = false;

/// Default: commit scope mode.
pub const COMMIT_SCOPE_MODE: ScopeMode = ScopeMode::Optional;

/// Default: commit scope restrict to defined.
pub const COMMIT_SCOPE_RESTRICT_TO_DEFINED: bool = false;

/// Default: commit breaking require header.
pub const COMMIT_BREAKING_REQUIRE_HEADER: bool = false;

/// Default: commit breaking require footer.
pub const COMMIT_BREAKING_REQUIRE_FOOTER: bool = false;

/// Default: commit breaking footer key.
pub const COMMIT_BREAKING_FOOTER_KEY: &'static str = "BREAKING CHANGE";

/// Default: commit ticket enabled.
pub const COMMIT_TICKET_ENABLED: bool = false;

/// Default: commit ticket required.
pub const COMMIT_TICKET_REQUIRED: bool = false;

/// Default: commit ticket source.
pub const COMMIT_TICKET_SOURCE: TicketSource = TicketSource::Disabled;

/// Default: commit protected allow.
pub const COMMIT_PROTECTED_ALLOW: bool = true;

/// Default: commit protected force.
pub const COMMIT_PROTECTED_FORCE: bool = false;

/// Default: commit protected warn.
pub const COMMIT_PROTECTED_WARN: bool = true;

/// Default: branch remote.
pub const BRANCH_REMOTE: &'static str = "origin";

/// Default: branch naming pattern.
pub const BRANCH_NAMING_PATTERN: &'static str = "feature/{issue}";

/// Default: branch naming enforce.
pub const BRANCH_NAMING_ENFORCE: bool = false;

/// Default: pr enabled.
pub const PR_ENABLED: bool = true;

/// Default: check require conventional.
pub const CHECK_REQUIRE_CONVENTIONAL: bool = true;

/// Default: check commits enabled.
pub const CHECK_COMMITS_ENABLED: bool = true;

/// Default: check commits enforce on.
pub const CHECK_COMMITS_ENFORCE_ON: CommitEnforcementScope = CommitEnforcementScope::ProtectedBranches;

/// Default: push allow protected.
pub const PUSH_ALLOW_PROTECTED: bool = false;

/// Default: push allow force.
pub const PUSH_ALLOW_FORCE: bool = false;

/// Default: push check commits.
pub const PUSH_CHECK_COMMITS: bool = true;

/// Default: push check branch policy.
pub const PUSH_CHECK_BRANCH_POLICY: bool = true;

/// Default: versioning tag prefix.
pub const VERSIONING_TAG_PREFIX: &'static str = "v";

/// Default: changelog output.
pub const CHANGELOG_OUTPUT: &'static str = "CHANGELOG.md";

/// Default: changelog format.
pub const CHANGELOG_FORMAT: ChangelogFormat = ChangelogFormat::Markdown;

/// Default: changelog show scope.
pub const CHANGELOG_SHOW_SCOPE: bool = true;

/// Default: changelog show empty sections.
pub const CHANGELOG_SHOW_EMPTY_SECTIONS: bool = false;

/// Default: changelog show empty scopes.
pub const CHANGELOG_SHOW_EMPTY_SCOPES: bool = false;

/// Default: changelog misc section.
pub const CHANGELOG_MISC_SECTION: &'static str = "Miscellaneous";

/// Default: release enabled.
pub const RELEASE_ENABLED: bool = false;

/// Default: release source branch.
pub const RELEASE_SOURCE_BRANCH: &'static str = "main";

/// Default: release target branch.
pub const RELEASE_TARGET_BRANCH: &'static str = "main";

/// Default: release branch format.
pub const RELEASE_BRANCH_FORMAT: &'static str = "release/{version}";

/// Default: release hotfix pattern.
pub const RELEASE_HOTFIX_PATTERN: &'static str = "hotfix/*";

/// Default: release require clean worktree.
pub const RELEASE_REQUIRE_CLEAN_WORKTREE: bool = true;

/// Default: release fail if tag exists.
pub const RELEASE_FAIL_IF_TAG_EXISTS: bool = true;

/// Default: release fail if release branch exists.
pub const RELEASE_FAIL_IF_RELEASE_BRANCH_EXISTS: bool = true;

/// Default: release finish tag.
pub const RELEASE_FINISH_TAG: bool = true;

/// Default: release finish push.
pub const RELEASE_FINISH_PUSH: bool = true;

/// Default: release finish backmerge branch.
pub const RELEASE_FINISH_BACKMERGE_BRANCH: &'static str = "main";

/// Default: hooks pre commit.
pub const HOOKS_PRE_COMMIT: bool = false;

/// Default: hooks commit msg.
pub const HOOKS_COMMIT_MSG: bool = false;

/// Default: hooks pre push.
pub const HOOKS_PRE_PUSH: bool = false;

/// Default: ai enabled.
pub const AI_ENABLED: bool = false;

/// Default: ai provider.
pub const AI_PROVIDER: AiProvider = AiProvider::Copilot;

/// Default: ai command commit.
pub const AI_COMMAND_COMMIT: bool = false;

/// Default: ai command changelog.
pub const AI_COMMAND_CHANGELOG: bool = false;

/// Default: ai command release prepare.
pub const AI_COMMAND_RELEASE_PREPARE: bool = false;

/// Default: registry default ref.
pub const REGISTRY_DEFAULT_REF: &'static str = "main";

// ---------------------------------------------------------------------------
// Lists and tables
// ---------------------------------------------------------------------------
/// Appends a copy of `s` to `v`.
fn push_text(v: &mut Vec<String>, s: &str)
    ensures
        texts(final(v)@) == texts(old(v)@).push(s@),
{
    v.push(owned(s));
    assert(texts(v@) =~= texts(old(v)@).push(s@));
}

/// Scopes allowed when none are defined: none.
pub fn default_commit_allowed_scopes() -> (r: Vec<String>)
    ensures
        r@.len() == 0,
{
    Vec::new()
}

/// A commit type table entry with all four settings.
pub open spec fn type_entry_is(
    e: (String, CommitTypeConfig),
    key: Seq<char>,
    emoji: Seq<char>,
    description: Seq<char>,
    bump: BumpLevel,
    section: Seq<char>,
) -> bool {
    &&& e.0@ == key
    &&& opt_view(e.1.emoji) == Some(emoji)
    &&& opt_view(e.1.description) == Some(description)
    &&& e.1.bump == Some(bump)
    &&& opt_view(e.1.section) == Some(section)
}

/// The default commit types, in key order.
pub open spec fn is_default_commit_types(m: Seq<(String, CommitTypeConfig)>) -> bool {
    &&& m.len() == 8
    &&& type_entry_is(m[0], "chore"@, "\u{1f527}"@, "Maintenance chores"@, BumpLevel::Patch, "Chores"@)
    &&& type_entry_is(m[1], "docs"@, "\u{1f4da}"@, "Documentation changes"@, BumpLevel::Patch, "Documentation"@)
    &&& type_entry_is(m[2], "feat"@, "\u{2728}"@, "A new feature"@, BumpLevel::Minor, "Features"@)
    &&& type_entry_is(m[3], "fix"@, "\u{1f41b}"@, "A bug fix"@, BumpLevel::Patch, "Bug Fixes"@)
    &&& type_entry_is(m[4], "perf"@, "\u{26a1}"@, "Performance improvements"@, BumpLevel::Patch, "Performance"@)
    &&& type_entry_is(m[5], "refactor"@, "\u{267b}\u{fe0f}"@, "Code refactoring"@, BumpLevel::Patch, "Refactoring"@)
    &&& type_entry_is(m[6], "style"@, "\u{1f3a8}"@, "Code style changes"@, BumpLevel::Patch, "Style"@)
    &&& type_entry_is(m[7], "test"@, "\u{2705}"@, "Test changes"@, BumpLevel::Patch, "Tests"@)
}

/// One commit type table entry.
fn type_entry(key: &str, emoji: &str, description: &str, bump: BumpLevel, section: &str) -> (r: (
    String,
    CommitTypeConfig,
))
    ensures
        type_entry_is(r, key@, emoji@, description@, bump, section@),
{
    (
        owned(key),
        CommitTypeConfig {
            emoji: Some(owned(emoji)),
            description: Some(owned(description)),
            bump: Some(bump),
            section: Some(owned(section)),
        },
    )
}

/// The default commit types: chore, docs, feat, fix, perf, refactor, style,
/// test, with their emoji, description, bump and changelog section.
pub fn default_commit_types() -> (r: Vec<(String, CommitTypeConfig)>)
    ensures
        is_default_commit_types(r@),
        keys_unique(r@),
{
    let mut m: Vec<(String, CommitTypeConfig)> = Vec::new();
    m.push(type_entry("chore", "\u{1f527}", "Maintenance chores", BumpLevel::Patch, "Chores"));
    m.push(type_entry("docs", "\u{1f4da}", "Documentation changes", BumpLevel::Patch, "Documentation"));
    m.push(type_entry("feat", "\u{2728}", "A new feature", BumpLevel::Minor, "Features"));
    m.push(type_entry("fix", "\u{1f41b}", "A bug fix", BumpLevel::Patch, "Bug Fixes"));
    m.push(type_entry("perf", "\u{26a1}", "Performance improvements", BumpLevel::Patch, "Performance"));
    m.push(type_entry("refactor", "\u{267b}\u{fe0f}", "Code refactoring", BumpLevel::Patch, "Refactoring"));
    m.push(type_entry("style", "\u{1f3a8}", "Code style changes", BumpLevel::Patch, "Style"));
    m.push(type_entry("test", "\u{2705}", "Test changes", BumpLevel::Patch, "Tests"));
    proof {
        reveal_strlit("chore");
        reveal_strlit("docs");
        reveal_strlit("feat");
        reveal_strlit("fix");
        reveal_strlit("perf");
        reveal_strlit("refactor");
        reveal_strlit("style");
        reveal_strlit("test");
        let k = m@.map_values(|e: (String, CommitTypeConfig)| e.0@);
        assert(k =~= seq!["chore"@, "docs"@, "feat"@, "fix"@, "perf"@, "refactor"@, "style"@, "test"@]);
        assert(k[2][1] != k[3][1]);
        assert forall|i: int, j: int| 0 <= i < j < m@.len() implies (#[trigger] m@[i]).0@ != (
        #[trigger] m@[j]).0@ by {
            assert(k[i] == m@[i].0@ && k[j] == m@[j].0@);
            if !(i == 2 && j == 3) {
                assert(k[i][0] != k[j][0]);
            }
        }
    }
    m
}

/// The default protected branch patterns: `main`, `master`, `release/*`.
pub open spec fn default_protected_texts() -> Seq<Seq<char>> {
    seq!["main"@, "master"@, "release/*"@]
}

/// The default changelog section order.
pub open spec fn default_section_order_texts() -> Seq<Seq<char>> {
    seq!["feat"@, "fix"@, "docs"@, "style"@, "refactor"@, "perf"@, "test"@, "chore"@]
}

/// Protected branch patterns: `main`, `master`, `release/*`.
pub fn default_branch_protected_patterns() -> (r: Vec<String>)
    ensures
        texts(r@) == default_protected_texts(),
{
    let mut v: Vec<String> = Vec::new();
    push_text(&mut v, "main");
    push_text(&mut v, "master");
    push_text(&mut v, "release/*");
    assert(texts(v@) =~= default_protected_texts());
    v
}

/// Allowed pull-request targets: none.
pub fn default_branch_allowed_targets() -> (r: Vec<String>)
    ensures
        r@.len() == 0,
{
    Vec::new()
}

/// Changelog grouping: by `type`.
pub fn default_changelog_group_by() -> (r: Vec<String>)
    ensures
        texts(r@) == seq!["type"@],
{
    let mut v: Vec<String> = Vec::new();
    push_text(&mut v, "type");
    assert(texts(v@) =~= seq!["type"@]);
    v
}

/// Changelog section order: feat, fix, docs, style, refactor, perf, test, chore.
pub fn default_changelog_section_order() -> (r: Vec<String>)
    ensures
        texts(r@) == default_section_order_texts(),
{
    let mut v: Vec<String> = Vec::new();
    push_text(&mut v, "feat");
    push_text(&mut v, "fix");
    push_text(&mut v, "docs");
    push_text(&mut v, "style");
    push_text(&mut v, "refactor");
    push_text(&mut v, "perf");
    push_text(&mut v, "test");
    push_text(&mut v, "chore");
    assert(texts(v@) =~= default_section_order_texts());
    v
}

/// Changelog scope order: none.
pub fn default_changelog_scope_order() -> (r: Vec<String>)
    ensures
        r@.len() == 0,
{
    Vec::new()
}

/// Named registries: none.
pub fn default_registries() -> (r: Vec<(String, NamedRegistryConfig)>)
    ensures
        r@.len() == 0,
{
    Vec::new()
}

// ---------------------------------------------------------------------------
// Sections
// ---------------------------------------------------------------------------
/// The default scope settings.
pub open spec fn is_default_scopes(c: CommitScopesConfig) -> bool {
    c.mode == Some(COMMIT_SCOPE_MODE) && c.restrict_to_defined == Some(
        COMMIT_SCOPE_RESTRICT_TO_DEFINED,
    ) && c.definitions is None
}

/// Scope settings with the default mode and no definitions.
pub fn default_commit_scopes_config() -> (r: CommitScopesConfig)
    ensures
        is_default_scopes(r),
{
    CommitScopesConfig {
        mode: Some(COMMIT_SCOPE_MODE),
        restrict_to_defined: Some(COMMIT_SCOPE_RESTRICT_TO_DEFINED),
        definitions: None,
    }
}

/// The default breaking-change settings.
pub open spec fn is_default_breaking(c: BreakingConfig) -> bool {
    &&& c.require_header == Some(COMMIT_BREAKING_REQUIRE_HEADER)
    &&& c.require_footer == Some(COMMIT_BREAKING_REQUIRE_FOOTER)
    &&& opt_view(c.footer_key) == Some(COMMIT_BREAKING_FOOTER_KEY@)
    &&& c.footer_keys is None
    &&& c.emoji is None
    &&& c.emoji_mode is None
}

/// Breaking-change settings with the default footer key.
pub fn default_commit_breaking_config() -> (r: BreakingConfig)
    ensures
        is_default_breaking(r),
{
    BreakingConfig {
        require_header: Some(COMMIT_BREAKING_REQUIRE_HEADER),
        require_footer: Some(COMMIT_BREAKING_REQUIRE_FOOTER),
        footer_key: Some(owned(COMMIT_BREAKING_FOOTER_KEY)),
        footer_keys: None,
        emoji: None,
        emoji_mode: None,
    }
}

/// The default ticket settings.
pub open spec fn is_default_ticket(c: TicketConfig) -> bool {
    c.required == Some(COMMIT_TICKET_REQUIRED) && c.pattern is None && c.source == Some(
        COMMIT_TICKET_SOURCE,
    ) && c.header_format is None
}

/// Ticket settings: not required, no pattern.
pub fn default_commit_ticket_config() -> (r: TicketConfig)
    ensures
        is_default_ticket(r),
{
    TicketConfig {
        required: Some(COMMIT_TICKET_REQUIRED),
        pattern: None,
        source: Some(COMMIT_TICKET_SOURCE),
        header_format: None,
    }
}

/// The default protected-branch commit settings.
pub open spec fn is_default_protected(c: CommitProtectedConfig) -> bool {
    c.allow == Some(COMMIT_PROTECTED_ALLOW) && c.force == Some(COMMIT_PROTECTED_FORCE) && c.warn
        == Some(COMMIT_PROTECTED_WARN)
}

/// Protected-branch commit settings: allowed, not forced, warned.
pub fn default_commit_protected_config() -> (r: CommitProtectedConfig)
    ensures
        is_default_protected(r),
{
    CommitProtectedConfig {
        allow: Some(COMMIT_PROTECTED_ALLOW),
        force: Some(COMMIT_PROTECTED_FORCE),
        warn: Some(COMMIT_PROTECTED_WARN),
    }
}

/// The default commit settings.
pub open spec fn is_default_commit(c: CommitConfig) -> bool {
    &&& c.subject_max_length == Some(COMMIT_SUBJECT_MAX_LENGTH)
    &&& c.use_emojis == Some(COMMIT_USE_EMOJIS)
    &&& c.types matches Some(t) && is_default_commit_types(t@)
    &&& c.scopes matches Some(s) && is_default_scopes(s)
    &&& c.breaking matches Some(b) && is_default_breaking(b)
    &&& c.protected matches Some(p) && is_default_protected(p)
    &&& c.ticket matches Some(t) && is_default_ticket(t)
}

/// Commit settings with every default filled in.
pub fn default_commit_config() -> (r: CommitConfig)
    ensures
        is_default_commit(r),
{
    CommitConfig {
        subject_max_length: Some(COMMIT_SUBJECT_MAX_LENGTH),
        use_emojis: Some(COMMIT_USE_EMOJIS),
        types: Some(default_commit_types()),
        scopes: Some(default_commit_scopes_config()),
        breaking: Some(default_commit_breaking_config()),
        protected: Some(default_commit_protected_config()),
        ticket: Some(default_commit_ticket_config()),
    }
}

/// Branch naming settings with the default pattern.
pub fn default_branch_naming_config() -> (r: BranchNamingConfig)
    ensures
        opt_view(r.pattern) == Some(BRANCH_NAMING_PATTERN@),
{
    BranchNamingConfig { pattern: Some(owned(BRANCH_NAMING_PATTERN)) }
}

/// The default branch settings.
pub open spec fn is_default_branch(c: BranchConfig) -> bool {
    &&& opt_view(c.remote) == Some(BRANCH_REMOTE@)
    &&& c.protected matches Some(p) && texts(p@) == default_protected_texts()
    &&& c.naming matches Some(n) && opt_view(n.pattern) == Some(BRANCH_NAMING_PATTERN@)
}

/// Branch settings: remote, protected patterns and naming pattern.
pub fn default_branch_config() -> (r: BranchConfig)
    ensures
        is_default_branch(r),
{
    BranchConfig {
        remote: Some(owned(BRANCH_REMOTE)),
        protected: Some(default_branch_protected_patterns()),
        naming: Some(default_branch_naming_config()),
    }
}

/// Pull-request settings: enabled, nothing else set.
pub fn default_pr_config() -> (r: PrConfig)
    ensures
        r.enabled == Some(PR_ENABLED) && r.title is None && r.branch is None,
{
    PrConfig { enabled: Some(PR_ENABLED), title: None, branch: None }
}

/// Commit check settings: enabled, on protected branches.
pub fn default_check_commits_config() -> (r: CheckCommitsConfig)
    ensures
        r.enabled == Some(CHECK_COMMITS_ENABLED) && r.enforce_on == Some(CHECK_COMMITS_ENFORCE_ON),
{
    CheckCommitsConfig {
        enabled: Some(CHECK_COMMITS_ENABLED),
        enforce_on: Some(CHECK_COMMITS_ENFORCE_ON),
    }
}

/// The default check settings.
pub open spec fn is_default_check(c: CheckConfig) -> bool {
    &&& c.require_conventional == Some(CHECK_REQUIRE_CONVENTIONAL)
    &&& c.commits matches Some(cc) && cc.enabled == Some(CHECK_COMMITS_ENABLED) && cc.enforce_on
        == Some(CHECK_COMMITS_ENFORCE_ON)
}

/// Check settings: conventional commits required, commit checks enabled.
pub fn default_check_config() -> (r: CheckConfig)
    ensures
        is_default_check(r),
{
    CheckConfig {
        require_conventional: Some(CHECK_REQUIRE_CONVENTIONAL),
        commits: Some(default_check_commits_config()),
    }
}

/// Push permissions: neither protected branches nor force.
pub fn default_push_allow_config() -> (r: PushAllowConfig)
    ensures
        r.protected == Some(PUSH_ALLOW_PROTECTED) && r.force == Some(PUSH_ALLOW_FORCE),
{
    PushAllowConfig { protected: Some(PUSH_ALLOW_PROTECTED), force: Some(PUSH_ALLOW_FORCE) }
}

/// Push checks: commits and branch policy.
pub fn default_push_check_config() -> (r: PushCheckConfig)
    ensures
        r.commits == Some(PUSH_CHECK_COMMITS) && r.branch_policy == Some(PUSH_CHECK_BRANCH_POLICY),
{
    PushCheckConfig {
        commits: Some(PUSH_CHECK_COMMITS),
        branch_policy: Some(PUSH_CHECK_BRANCH_POLICY),
    }
}

/// The default push settings.
pub open spec fn is_default_push(c: PushConfig) -> bool {
    &&& c.allow matches Some(a) && a.protected == Some(PUSH_ALLOW_PROTECTED) && a.force == Some(
        PUSH_ALLOW_FORCE,
    )
    &&& c.check matches Some(k) && k.commits == Some(PUSH_CHECK_COMMITS) && k.branch_policy
        == Some(PUSH_CHECK_BRANCH_POLICY)
}

/// Push settings with the default permissions and checks.
pub fn default_push_config() -> (r: PushConfig)
    ensures
        is_default_push(r),
{
    PushConfig { allow: Some(default_push_allow_config()), check: Some(default_push_check_config()) }
}

/// Versioning settings: tag prefix `v`.
pub fn default_versioning_config() -> (r: VersioningConfig)
    ensures
        opt_view(r.tag_prefix) == Some(VERSIONING_TAG_PREFIX@),
{
    VersioningConfig { tag_prefix: Some(owned(VERSIONING_TAG_PREFIX)) }
}

/// The default changelog layout.
pub open spec fn is_default_layout(c: ChangelogLayoutConfig) -> bool {
    &&& c.group_by matches Some(g) && texts(g@) == seq!["type"@]
    &&& c.section_order matches Some(s) && texts(s@) == default_section_order_texts()
    &&& c.scope_order matches Some(s) && s@.len() == 0
    &&& c.show_scope == Some(CHANGELOG_SHOW_SCOPE)
    &&& c.show_empty_sections == Some(CHANGELOG_SHOW_EMPTY_SECTIONS)
    &&& c.show_empty_scopes == Some(CHANGELOG_SHOW_EMPTY_SCOPES)
    &&& opt_view(c.misc_section) == Some(CHANGELOG_MISC_SECTION@)
    &&& c.unreleased_label is None
    &&& c.date_format is None
}

/// Changelog layout with the default grouping, orders and flags.
pub fn default_changelog_layout_config() -> (r: ChangelogLayoutConfig)
    ensures
        is_default_layout(r),
{
    ChangelogLayoutConfig {
        group_by: Some(default_changelog_group_by()),
        section_order: Some(default_changelog_section_order()),
        scope_order: Some(default_changelog_scope_order()),
        show_scope: Some(CHANGELOG_SHOW_SCOPE),
        show_empty_sections: Some(CHANGELOG_SHOW_EMPTY_SECTIONS),
        show_empty_scopes: Some(CHANGELOG_SHOW_EMPTY_SCOPES),
        misc_section: Some(owned(CHANGELOG_MISC_SECTION)),
        unreleased_label: None,
        date_format: None,
    }
}

/// The default changelog settings.
pub open spec fn is_default_changelog(c: ChangelogConfig) -> bool {
    &&& opt_view(c.output) == Some(CHANGELOG_OUTPUT@)
    &&& c.format == Some(CHANGELOG_FORMAT)
    &&& c.header is None
    &&& c.layout matches Some(l) && is_default_layout(l)
    &&& c.sections is None
}

/// Changelog settings: output file, format and layout.
pub fn default_changelog_config() -> (r: ChangelogConfig)
    ensures
        is_default_changelog(r),
{
    ChangelogConfig {
        output: Some(owned(CHANGELOG_OUTPUT)),
        format: Some(CHANGELOG_FORMAT),
        header: None,
        layout: Some(default_changelog_layout_config()),
        sections: None,
    }
}

/// Release preconditions: all on.
pub fn default_release_validation_config() -> (r: ReleaseValidationConfig)
    ensures
        r.require_clean_worktree == Some(RELEASE_REQUIRE_CLEAN_WORKTREE) && r.fail_if_tag_exists
            == Some(RELEASE_FAIL_IF_TAG_EXISTS) && r.fail_if_release_branch_exists == Some(
            RELEASE_FAIL_IF_RELEASE_BRANCH_EXISTS,
        ),
{
    ReleaseValidationConfig {
        require_clean_worktree: Some(RELEASE_REQUIRE_CLEAN_WORKTREE),
        fail_if_tag_exists: Some(RELEASE_FAIL_IF_TAG_EXISTS),
        fail_if_release_branch_exists: Some(RELEASE_FAIL_IF_RELEASE_BRANCH_EXISTS),
    }
}

/// Release completion: tag, push, merge back into `main`.
pub fn default_release_finish_config() -> (r: ReleaseFinishConfig)
    ensures
        r.tag == Some(RELEASE_FINISH_TAG) && r.push == Some(RELEASE_FINISH_PUSH) && opt_view(
            r.backmerge_branch,
        ) == Some(RELEASE_FINISH_BACKMERGE_BRANCH@),
{
    ReleaseFinishConfig {
        tag: Some(RELEASE_FINISH_TAG),
        push: Some(RELEASE_FINISH_PUSH),
        backmerge_branch: Some(owned(RELEASE_FINISH_BACKMERGE_BRANCH)),
    }
}

/// The default release settings.
pub open spec fn is_default_release(c: ReleaseConfig) -> bool {
    &&& c.enabled == Some(RELEASE_ENABLED)
    &&& opt_view(c.source_branch) == Some(RELEASE_SOURCE_BRANCH@)
    &&& opt_view(c.target_branch) == Some(RELEASE_TARGET_BRANCH@)
    &&& opt_view(c.branch_format) == Some(RELEASE_BRANCH_FORMAT@)
    &&& opt_view(c.hotfix_pattern) == Some(RELEASE_HOTFIX_PATTERN@)
    &&& c.validation matches Some(v) && v.require_clean_worktree == Some(
        RELEASE_REQUIRE_CLEAN_WORKTREE,
    ) && v.fail_if_tag_exists == Some(RELEASE_FAIL_IF_TAG_EXISTS)
        && v.fail_if_release_branch_exists == Some(RELEASE_FAIL_IF_RELEASE_BRANCH_EXISTS)
    &&& c.finish matches Some(f) && f.tag == Some(RELEASE_FINISH_TAG) && f.push == Some(
        RELEASE_FINISH_PUSH,
    ) && opt_view(f.backmerge_branch) == Some(RELEASE_FINISH_BACKMERGE_BRANCH@)
}

/// Release settings with every default filled in.
pub fn default_release_config() -> (r: ReleaseConfig)
    ensures
        is_default_release(r),
{
    ReleaseConfig {
        enabled: Some(RELEASE_ENABLED),
        source_branch: Some(owned(RELEASE_SOURCE_BRANCH)),
        target_branch: Some(owned(RELEASE_TARGET_BRANCH)),
        branch_format: Some(owned(RELEASE_BRANCH_FORMAT)),
        hotfix_pattern: Some(owned(RELEASE_HOTFIX_PATTERN)),
        validation: Some(default_release_validation_config()),
        finish: Some(default_release_finish_config()),
    }
}

/// The default hook settings.
pub open spec fn is_default_hooks(c: HooksConfig) -> bool {
    c.pre_commit == Some(HOOKS_PRE_COMMIT) && c.commit_msg == Some(HOOKS_COMMIT_MSG) && c.pre_push
        == Some(HOOKS_PRE_PUSH)
}

/// Hook settings: all off.
pub fn default_hooks_config() -> (r: HooksConfig)
    ensures
        is_default_hooks(r),
{
    HooksConfig {
        pre_commit: Some(HOOKS_PRE_COMMIT),
        commit_msg: Some(HOOKS_COMMIT_MSG),
        pre_push: Some(HOOKS_PRE_PUSH),
    }
}

/// AI command switches: all off.
pub fn default_ai_commands_config() -> (r: AiCommandsConfig)
    ensures
        r.commit == Some(AI_COMMAND_COMMIT) && r.changelog == Some(AI_COMMAND_CHANGELOG)
            && r.release_prepare == Some(AI_COMMAND_RELEASE_PREPARE),
{
    AiCommandsConfig {
        commit: Some(AI_COMMAND_COMMIT),
        changelog: Some(AI_COMMAND_CHANGELOG),
        release_prepare: Some(AI_COMMAND_RELEASE_PREPARE),
    }
}

/// The default AI settings.
pub open spec fn is_default_ai(c: AiConfig) -> bool {
    &&& c.enabled == Some(AI_ENABLED)
    &&& opt_view(c.provider) == Some("copilot"@)
    &&& c.commands matches Some(k) && k.commit == Some(AI_COMMAND_COMMIT) && k.changelog == Some(
        AI_COMMAND_CHANGELOG,
    ) && k.release_prepare == Some(AI_COMMAND_RELEASE_PREPARE)
}

/// AI settings: disabled, provider `copilot`, all commands off.
pub fn default_ai_config() -> (r: AiConfig)
    ensures
        is_default_ai(r),
{
    let provider = owned(AI_PROVIDER.as_str());
    AiConfig {
        enabled: Some(AI_ENABLED),
        provider: Some(provider),
        commands: Some(default_ai_commands_config()),
    }
}

/// Registry settings: an empty registry name and no section.
pub fn default_registry_config() -> (r: RegistryConfig)
    ensures
        opt_view(r.use_registry) == Some(Seq::<char>::empty()) && r.section is None,
{
    RegistryConfig { use_registry: Some(String::new()), section: None }
}

// ---------------------------------------------------------------------------
// Presets
// ---------------------------------------------------------------------------
/// The standard preset: every section but the registry ones at its defaults.
pub open spec fn is_standard_preset(c: BaseConfig) -> bool {
    &&& c.commit matches Some(x) && is_default_commit(x)
    &&& c.branch matches Some(x) && is_default_branch(x)
    &&& c.pr matches Some(x) && x.enabled == Some(PR_ENABLED) && x.title is None && x.branch is None
    &&& c.check matches Some(x) && is_default_check(x)
    &&& c.push matches Some(x) && is_default_push(x)
    &&& c.versioning matches Some(x) && opt_view(x.tag_prefix) == Some(VERSIONING_TAG_PREFIX@)
    &&& c.changelog matches Some(x) && is_default_changelog(x)
    &&& c.release matches Some(x) && is_default_release(x)
    &&& c.hooks matches Some(x) && is_default_hooks(x)
    &&& c.ai matches Some(x) && is_default_ai(x)
}

/// The empty settings file: no section set.
pub open spec fn is_empty_config(c: BaseConfig) -> bool {
    &&& c.commit is None
    &&& c.branch is None
    &&& c.pr is None
    &&& c.check is None
    &&& c.push is None
    &&& c.versioning is None
    &&& c.changelog is None
    &&& c.release is None
    &&& c.hooks is None
    &&& c.ai is None
    &&& c.registry is None
    &&& c.registries is None
}

/// The minimal preset: the empty settings file.
pub fn minimal_base_config() -> (r: BaseConfig)
    ensures
        is_empty_config(r),
{
    BaseConfig {
        commit: None,
        branch: None,
        pr: None,
        check: None,
        push: None,
        versioning: None,
        changelog: None,
        release: None,
        hooks: None,
        ai: None,
        registry: None,
        registries: None,
    }
}

/// The standard preset: every section at its defaults, no registry settings.
pub fn standard_base_config() -> (r: BaseConfig)
    ensures
        is_standard_preset(r),
        r.registry is None,
        r.registries is None,
{
    BaseConfig {
        commit: Some(default_commit_config()),
        branch: Some(default_branch_config()),
        pr: Some(default_pr_config()),
        check: Some(default_check_config()),
        push: Some(default_push_config()),
        versioning: Some(default_versioning_config()),
        changelog: Some(default_changelog_config()),
        release: Some(default_release_config()),
        hooks: Some(default_hooks_config()),
        ai: Some(default_ai_config()),
        registry: None,
        registries: None,
    }
}

/// The full preset: the standard one plus the default registry settings.
pub fn full_base_config() -> (r: BaseConfig)
    ensures
        is_standard_preset(r),
        r.registry matches Some(g) && opt_view(g.use_registry) == Some(Seq::<char>::empty())
            && g.section is None,
        r.registries matches Some(m) && m@.len() == 0,
{
    BaseConfig {
        commit: Some(default_commit_config()),
        branch: Some(default_branch_config()),
        pr: Some(default_pr_config()),
        check: Some(default_check_config()),
        push: Some(default_push_config()),
        versioning: Some(default_versioning_config()),
        changelog: Some(default_changelog_config()),
        release: Some(default_release_config()),
        hooks: Some(default_hooks_config()),
        ai: Some(default_ai_config()),
        registry: Some(default_registry_config()),
        registries: Some(default_registries()),
    }
}

} // verus!
