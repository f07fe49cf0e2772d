//! The settings file as a whole: merging layers, presets, and the accessors
//! that read one setting each and fall back to its default.
use vstd::prelude::*;

use crate::check::{opt_view, texts};
use crate::config::defaults::{
    AI_PROVIDER,     default_branch_protected_patterns, default_changelog_group_by,
    default_changelog_scope_order, default_changelog_section_order, default_commit_types,
    default_protected_texts, default_section_order_texts, full_base_config,
    is_default_commit_types, is_empty_config, is_standard_preset, minimal_base_config,
    standard_base_config, AI_COMMAND_CHANGELOG, AI_COMMAND_COMMIT, AI_COMMAND_RELEASE_PREPARE,
    AI_ENABLED, BRANCH_NAMING_ENFORCE, BRANCH_NAMING_PATTERN, BRANCH_REMOTE, CHANGELOG_FORMAT,
    CHANGELOG_MISC_SECTION, CHANGELOG_OUTPUT, CHANGELOG_SHOW_EMPTY_SCOPES,
    CHANGELOG_SHOW_EMPTY_SECTIONS, CHANGELOG_SHOW_SCOPE, CHECK_COMMITS_ENABLED,
    CHECK_COMMITS_ENFORCE_ON, CHECK_REQUIRE_CONVENTIONAL, COMMIT_BREAKING_FOOTER_KEY,
    COMMIT_BREAKING_REQUIRE_FOOTER, COMMIT_BREAKING_REQUIRE_HEADER, COMMIT_PROTECTED_ALLOW,
    COMMIT_PROTECTED_FORCE, COMMIT_PROTECTED_WARN, COMMIT_SCOPE_MODE,
    COMMIT_SCOPE_RESTRICT_TO_DEFINED, COMMIT_SUBJECT_MAX_LENGTH, COMMIT_TICKET_REQUIRED,
    COMMIT_TICKET_SOURCE, COMMIT_USE_EMOJIS, CONFIG_VERSION, HOOKS_COMMIT_MSG, HOOKS_PRE_COMMIT,
    HOOKS_PRE_PUSH, PR_ENABLED, PUSH_ALLOW_FORCE, PUSH_ALLOW_PROTECTED, PUSH_CHECK_BRANCH_POLICY,
    PUSH_CHECK_COMMITS, RELEASE_BRANCH_FORMAT, RELEASE_ENABLED,
    RELEASE_FAIL_IF_RELEASE_BRANCH_EXISTS, RELEASE_FAIL_IF_TAG_EXISTS,
    RELEASE_FINISH_BACKMERGE_BRANCH, RELEASE_FINISH_PUSH, RELEASE_FINISH_TAG,
    RELEASE_HOTFIX_PATTERN, RELEASE_REQUIRE_CLEAN_WORKTREE, RELEASE_SOURCE_BRANCH,
    RELEASE_TARGET_BRANCH, VERSIONING_TAG_PREFIX,
};
use crate::config::types::{
    BaseConfig, BreakingConfig, ChangelogSectionConfig, CommitConfig, CommitTypeConfig,
    NamedRegistryConfig, ScopeDefinition,
};
use crate::enforcement::{
    AiProvider, ChangelogFormat, CommitEnforcementScope, EmojiMode, ScopeMode, TicketSource,
};
use crate::policy::commit::{has_text, list_has_text};
use crate::text::{owned, str_to_chars, trim, trim_bounds};

verus! {

// ---------------------------------------------------------------------------
// Merging layers
// ---------------------------------------------------------------------------
/// `a` when it is set, else `b` (`Option::or`).
pub open spec fn or_opt<T>(a: Option<T>, b: Option<T>) -> Option<T> {
    match a {
        Some(x) => Some(x),
        None => b,
    }
}

/// `Option::or`.
fn or_else<T>(a: Option<T>, b: Option<T>) -> (r: Option<T>)
    ensures
        r == or_opt(a, b),
{
    match a {
        Some(x) => Some(x),
        None => b,
    }
}

/// Deep merge of commit sections: each setting of `high` wins over the one of
/// `low`; a missing section takes the other one whole.
pub open spec fn merge_commit_spec(high: Option<CommitConfig>, low: Option<CommitConfig>) -> Option<
    CommitConfig,
> {
    match (high, low) {
        (None, l) => l,
        (h, None) => h,
        (Some(h), Some(l)) => Some(
            CommitConfig {
                subject_max_length: or_opt(h.subject_max_length, l.subject_max_length),
                use_emojis: or_opt(h.use_emojis, l.use_emojis),
                types: or_opt(h.types, l.types),
                scopes: or_opt(h.scopes, l.scopes),
                breaking: or_opt(h.breaking, l.breaking),
                protected: or_opt(h.protected, l.protected),
                ticket: or_opt(h.ticket, l.ticket),
            },
        ),
    }
}

/// `high` over `low`: the commit sections are merged setting by setting, every
/// other section of `high` wins whole over the one of `low`.
pub open spec fn merged(high: BaseConfig, low: BaseConfig) -> BaseConfig {
    BaseConfig {
        commit: merge_commit_spec(high.commit, low.commit),
        branch: or_opt(high.branch, low.branch),
        pr: or_opt(high.pr, low.pr),
        check: or_opt(high.check, low.check),
        push: or_opt(high.push, low.push),
        versioning: or_opt(high.versioning, low.versioning),
        changelog: or_opt(high.changelog, low.changelog),
        release: or_opt(high.release, low.release),
        hooks: or_opt(high.hooks, low.hooks),
        ai: or_opt(high.ai, low.ai),
        registry: or_opt(high.registry, low.registry),
        registries: or_opt(high.registries, low.registries),
    }
}

/// Deep merge of two commit sections.
fn merge_commit_config(high: Option<CommitConfig>, low: Option<CommitConfig>) -> (r: Option<
    CommitConfig,
>)
    ensures
        r == merge_commit_spec(high, low),
{
    match (high, low) {
        (None, l) => l,
        (Some(h), None) => Some(h),
        (Some(h), Some(l)) => Some(
            CommitConfig {
                subject_max_length: or_else(h.subject_max_length, l.subject_max_length),
                use_emojis: or_else(h.use_emojis, l.use_emojis),
                types: or_else(h.types, l.types),
                scopes: or_else(h.scopes, l.scopes),
                breaking: or_else(h.breaking, l.breaking),
                protected: or_else(h.protected, l.protected),
                ticket: or_else(h.ticket, l.ticket),
            },
        ),
    }
}

// ---------------------------------------------------------------------------
// Copies
// ---------------------------------------------------------------------------
/// A copy of a list of strings.
pub fn copy_texts(v: &Vec<String>) -> (r: Vec<String>)
    ensures
        r@ == v@,
{
    let mut r: Vec<String> = Vec::new();
    let mut i: usize = 0;
    while i < v.len()
        invariant
            0 <= i <= v@.len(),
            r@ == v@.take(i as int),
        decreases v@.len() - i,
    {
        r.push(v[i].clone());
        i = i + 1;
        assert(r@ =~= v@.take(i as int));
    }
    assert(v@.take(i as int) =~= v@);
    r
}

/// A copy of an optional string.
fn copy_opt_text(o: &Option<String>) -> (r: Option<String>)
    ensures
        r == *o,
{
    match o {
        Some(s) => Some(s.clone()),
        None => None,
    }
}

/// A copy of a commit type table.
fn copy_type_table(m: &Vec<(String, CommitTypeConfig)>) -> (r: Vec<(String, CommitTypeConfig)>)
    ensures
        r@ == m@,
{
    let mut r: Vec<(String, CommitTypeConfig)> = Vec::new();
    let mut i: usize = 0;
    while i < m.len()
        invariant
            0 <= i <= m@.len(),
            r@ == m@.take(i as int),
        decreases m@.len() - i,
    {
        let e = &m[i];
        let c = CommitTypeConfig {
            emoji: copy_opt_text(&e.1.emoji),
            description: copy_opt_text(&e.1.description),
            bump: e.1.bump,
            section: copy_opt_text(&e.1.section),
        };
        r.push((e.0.clone(), c));
        i = i + 1;
        assert(r@ =~= m@.take(i as int));
    }
    assert(m@.take(i as int) =~= m@);
    r
}

/// A copy of a changelog section table.
fn copy_section_table(m: &Vec<(String, ChangelogSectionConfig)>) -> (r: Vec<
    (String, ChangelogSectionConfig),
>)
    ensures
        r@ == m@,
{
    let mut r: Vec<(String, ChangelogSectionConfig)> = Vec::new();
    let mut i: usize = 0;
    while i < m.len()
        invariant
            0 <= i <= m@.len(),
            r@ == m@.take(i as int),
        decreases m@.len() - i,
    {
        let e = &m[i];
        let c = ChangelogSectionConfig { title: copy_opt_text(&e.1.title), order: e.1.order };
        r.push((e.0.clone(), c));
        i = i + 1;
        assert(r@ =~= m@.take(i as int));
    }
    assert(m@.take(i as int) =~= m@);
    r
}

/// A copy of an optional list of strings.
fn copy_opt_texts(o: &Option<Vec<String>>) -> (r: Option<Vec<String>>)
    ensures
        match (r, *o) {
            (Some(a), Some(b)) => a@ == b@,
            (None, None) => true,
            _ => false,
        },
{
    match o {
        Some(v) => Some(copy_texts(v)),
        None => None,
    }
}

/// A copy of a named registry table.
fn copy_registry_table(m: &Vec<(String, NamedRegistryConfig)>) -> (r: Vec<
    (String, NamedRegistryConfig),
>)
    ensures
        r@.len() == m@.len(),
        forall|i: int|
            0 <= i < m@.len() ==> (#[trigger] r@[i]).0 == m@[i].0 && r@[i].1.url == m@[i].1.url
                && r@[i].1.ref_name == m@[i].1.ref_name && r@[i].1.section == m@[i].1.section
                && same_texts(r@[i].1.sections, m@[i].1.sections),
{
    let mut r: Vec<(String, NamedRegistryConfig)> = Vec::new();
    let mut i: usize = 0;
    while i < m.len()
        invariant
            0 <= i <= m@.len(),
            r@.len() == i,
            forall|j: int|
                0 <= j < i ==> (#[trigger] r@[j]).0 == m@[j].0 && r@[j].1.url == m@[j].1.url
                    && r@[j].1.ref_name == m@[j].1.ref_name && r@[j].1.section == m@[j].1.section
                    && same_texts(r@[j].1.sections, m@[j].1.sections),
        decreases m@.len() - i,
    {
        let e = &m[i];
        let c = NamedRegistryConfig {
            url: copy_opt_text(&e.1.url),
            ref_name: copy_opt_text(&e.1.ref_name),
            section: copy_opt_text(&e.1.section),
            sections: copy_opt_texts(&e.1.sections),
        };
        r.push((e.0.clone(), c));
        i = i + 1;
    }
    r
}

/// Two optional lists of strings with the same elements.
pub open spec fn same_texts(a: Option<Vec<String>>, b: Option<Vec<String>>) -> bool {
    match (a, b) {
        (Some(x), Some(y)) => x@ == y@,
        (None, None) => true,
        _ => false,
    }
}

/// Two registry tables with the same entries.
pub open spec fn same_registries(
    a: Seq<(String, NamedRegistryConfig)>,
    b: Seq<(String, NamedRegistryConfig)>,
) -> bool {
    &&& a.len() == b.len()
    &&& forall|i: int|
        0 <= i < a.len() ==> (#[trigger] a[i]).0 == b[i].0 && a[i].1.url == b[i].1.url
            && a[i].1.ref_name == b[i].1.ref_name && a[i].1.section == b[i].1.section
            && same_texts(a[i].1.sections, b[i].1.sections)
}

/// The names of a scope definition table.
pub open spec fn scope_names(d: Seq<(String, ScopeDefinition)>) -> Seq<Seq<char>> {
    d.map_values(|e: (String, ScopeDefinition)| e.0@)
}

// ---------------------------------------------------------------------------
// Breaking-change footer keys
// ---------------------------------------------------------------------------
/// `acc` with `k` added unless it is empty or already there.
pub open spec fn add_key(acc: Seq<Seq<char>>, k: Seq<char>) -> Seq<Seq<char>> {
    if k.len() > 0 && !acc.contains(k) {
        acc.push(k)
    } else {
        acc
    }
}

/// The non-empty keys of `l` added to `acc` in order, each once.
pub open spec fn add_keys(acc: Seq<Seq<char>>, l: Seq<Seq<char>>) -> Seq<Seq<char>>
    decreases l.len(),
{
    if l.len() == 0 {
        acc
    } else {
        add_key(add_keys(acc, l.drop_last()), l.last())
    }
}

/// The default breaking-change footer keys.
pub open spec fn default_footer_keys() -> Seq<Seq<char>> {
    seq!["BREAKING CHANGE"@, "BREAKING-CHANGE"@]
}

/// The breaking-change footer keys of a breaking section: its footer key,
/// then its footer key list, skipping empty and repeated keys; the defaults
/// when that leaves none.
pub open spec fn footer_keys_spec(b: Option<BreakingConfig>) -> Seq<Seq<char>> {
    match b {
        Some(b) => {
            let first: Seq<Seq<char>> = match b.footer_key {
                Some(k) => if k@.len() > 0 {
                    seq![k@]
                } else {
                    seq![]
                },
                None => seq![],
            };
            let keys = match b.footer_keys {
                Some(l) => add_keys(first, texts(l@)),
                None => first,
            };
            if keys.len() > 0 {
                keys
            } else {
                default_footer_keys()
            }
        },
        None => default_footer_keys(),
    }
}

/// `add_keys` keeps keys non-empty and distinct.
proof fn lemma_add_keys(acc: Seq<Seq<char>>, l: Seq<Seq<char>>)
    requires
        acc.no_duplicates(),
        forall|i: int| 0 <= i < acc.len() ==> (#[trigger] acc[i]).len() > 0,
    ensures
        add_keys(acc, l).no_duplicates(),
        forall|i: int|
            0 <= i < add_keys(acc, l).len() ==> (#[trigger] add_keys(acc, l)[i]).len() > 0,
    decreases l.len(),
{
    if l.len() > 0 {
        lemma_add_keys(acc, l.drop_last());
    }
}

/// Whether `keys` holds the text `k`, as a fact about their texts.
proof fn lemma_has_text_contains(keys: Seq<String>, k: Seq<char>)
    ensures
        has_text(keys, k) <==> texts(keys).contains(k),
{
    if has_text(keys, k) {
        let i = choose|i: int| 0 <= i < keys.len() && (#[trigger] keys[i])@ == k;
        assert(texts(keys)[i] == k);
    }
    if texts(keys).contains(k) {
        let i = choose|i: int| 0 <= i < texts(keys).len() && texts(keys)[i] == k;
        assert(keys[i]@ == k);
    }
}

/// The footer keys of a breaking section before the fallback to defaults.
fn breaking_keys(b: &BreakingConfig) -> (r: Vec<String>)
    ensures
        texts(r@) == ({
            let first: Seq<Seq<char>> = match b.footer_key {
                Some(k) => if k@.len() > 0 {
                    seq![k@]
                } else {
                    seq![]
                },
                None => seq![],
            };
            match b.footer_keys {
                Some(l) => add_keys(first, texts(l@)),
                None => first,
            }
        }),
        texts(r@).no_duplicates(),
        forall|i: int| 0 <= i < r@.len() ==> (#[trigger] r@[i])@.len() > 0,
{
    let mut keys: Vec<String> = Vec::new();
    if let Some(key) = &b.footer_key {
        if !key.as_str().is_empty() {
            keys.push(key.clone());
        }
    }
    let ghost first = texts(keys@);
    assert(first =~= match b.footer_key {
        Some(k) => if k@.len() > 0 {
            seq![k@]
        } else {
            seq![]
        },
        None => seq![],
    });
    if let Some(list) = &b.footer_keys {
        let mut i: usize = 0;
        while i < list.len()
            invariant
                0 <= i <= list@.len(),
                first.no_duplicates(),
                forall|j: int| 0 <= j < first.len() ==> (#[trigger] first[j]).len() > 0,
                texts(keys@) == add_keys(first, texts(list@).take(i as int)),
            decreases list@.len() - i,
        {
            let key = &list[i];
            let ghost before = texts(keys@);
            proof {
                let t = texts(list@).take(i + 1);
                assert(t.drop_last() =~= texts(list@).take(i as int));
                assert(t.last() == key@);
                lemma_has_text_contains(keys@, key@);
            }
            if !key.as_str().is_empty() && !list_has_text(&keys, key.as_str()) {
                keys.push(key.clone());
                assert(texts(keys@) =~= before.push(key@));
            }
            i = i + 1;
        }
        assert(texts(list@).take(i as int) =~= texts(list@));
        proof {
            lemma_add_keys(first, texts(list@));
        }
    }
    assert forall|i: int| 0 <= i < keys@.len() implies (#[trigger] keys@[i])@.len() > 0 by {
        assert(texts(keys@)[i] == keys@[i]@);
    }
    keys
}

// ---------------------------------------------------------------------------
// Accessors
// ---------------------------------------------------------------------------
impl BaseConfig {
    /// Maximum subject length (default 72).
    pub open spec fn spec_commit_subject_max_length(&self) -> u32 {
        match self.commit {
            Some(commit) => {
                commit.subject_max_length.unwrap_or(COMMIT_SUBJECT_MAX_LENGTH)
            },
            None => COMMIT_SUBJECT_MAX_LENGTH,
        }
    }

    /// Whether headers may carry emojis (default no).
    pub open spec fn spec_commit_use_emojis(&self) -> bool {
        match self.commit {
            Some(commit) => {
                commit.use_emojis.unwrap_or(COMMIT_USE_EMOJIS)
            },
            None => COMMIT_USE_EMOJIS,
        }
    }

    /// Scope mode (default optional).
    pub open spec fn spec_commit_scopes_mode(&self) -> ScopeMode {
        match self.commit {
            Some(commit) => {
                match commit.scopes {
                    Some(scopes) => {
                        scopes.mode.unwrap_or(COMMIT_SCOPE_MODE)
                    },
                    None => COMMIT_SCOPE_MODE,
                }
            },
            None => COMMIT_SCOPE_MODE,
        }
    }

    /// Whether only defined scopes are accepted (default no).
    pub open spec fn spec_commit_scope_restrict_to_defined(&self) -> bool {
        match self.commit {
            Some(commit) => {
                match commit.scopes {
                    Some(scopes) => {
                        scopes.restrict_to_defined.unwrap_or(COMMIT_SCOPE_RESTRICT_TO_DEFINED)
                    },
                    None => COMMIT_SCOPE_RESTRICT_TO_DEFINED,
                }
            },
            None => COMMIT_SCOPE_RESTRICT_TO_DEFINED,
        }
    }

    /// Whether a breaking footer needs the `!` marker (default no).
    pub open spec fn spec_commit_breaking_require_header(&self) -> bool {
        match self.commit {
            Some(commit) => {
                match commit.breaking {
                    Some(breaking) => {
                        breaking.require_header.unwrap_or(COMMIT_BREAKING_REQUIRE_HEADER)
                    },
                    None => COMMIT_BREAKING_REQUIRE_HEADER,
                }
            },
            None => COMMIT_BREAKING_REQUIRE_HEADER,
        }
    }

    /// Whether the `!` marker needs a breaking footer (default no).
    pub open spec fn spec_commit_breaking_require_footer(&self) -> bool {
        match self.commit {
            Some(commit) => {
                match commit.breaking {
                    Some(breaking) => {
                        breaking.require_footer.unwrap_or(COMMIT_BREAKING_REQUIRE_FOOTER)
                    },
                    None => COMMIT_BREAKING_REQUIRE_FOOTER,
                }
            },
            None => COMMIT_BREAKING_REQUIRE_FOOTER,
        }
    }

    /// Breaking-change footer key (default `BREAKING CHANGE`).
    pub open spec fn spec_commit_breaking_footer_key(&self) -> Seq<char> {
        match self.commit {
            Some(commit) => {
                match commit.breaking {
                    Some(breaking) => {
                        match breaking.footer_key {
                            Some(s) => s@,
                            None => COMMIT_BREAKING_FOOTER_KEY@,
                        }
                    },
                    None => COMMIT_BREAKING_FOOTER_KEY@,
                }
            },
            None => COMMIT_BREAKING_FOOTER_KEY@,
        }
    }

    /// Breaking-change emoji, if set.
    pub open spec fn spec_commit_breaking_emoji(&self) -> Option<Seq<char>> {
        match self.commit {
            Some(commit) => {
                match commit.breaking {
                    Some(breaking) => {
                        opt_view(breaking.emoji)
                    },
                    None => None,
                }
            },
            None => None,
        }
    }

    /// Whether a ticket is required (default no).
    pub open spec fn spec_commit_ticket_required(&self) -> bool {
        match self.commit {
            Some(commit) => {
                match commit.ticket {
                    Some(ticket) => {
                        ticket.required.unwrap_or(COMMIT_TICKET_REQUIRED)
                    },
                    None => COMMIT_TICKET_REQUIRED,
                }
            },
            None => COMMIT_TICKET_REQUIRED,
        }
    }

    /// Ticket pattern, if set.
    pub open spec fn spec_commit_ticket_pattern(&self) -> Option<Seq<char>> {
        match self.commit {
            Some(commit) => {
                match commit.ticket {
                    Some(ticket) => {
                        opt_view(ticket.pattern)
                    },
                    None => None,
                }
            },
            None => None,
        }
    }

    /// Ticket source (default disabled).
    pub open spec fn spec_commit_ticket_source(&self) -> TicketSource {
        match self.commit {
            Some(commit) => {
                match commit.ticket {
                    Some(ticket) => {
                        ticket.source.unwrap_or(COMMIT_TICKET_SOURCE)
                    },
                    None => COMMIT_TICKET_SOURCE,
                }
            },
            None => COMMIT_TICKET_SOURCE,
        }
    }

    /// Whether commits on protected branches are allowed (default yes).
    pub open spec fn spec_commit_protected_allow(&self) -> bool {
        match self.commit {
            Some(commit) => {
                match commit.protected {
                    Some(protected) => {
                        protected.allow.unwrap_or(COMMIT_PROTECTED_ALLOW)
                    },
                    None => COMMIT_PROTECTED_ALLOW,
                }
            },
            None => COMMIT_PROTECTED_ALLOW,
        }
    }

    /// Whether commits on protected branches are forced through (default no).
    pub open spec fn spec_commit_protected_force(&self) -> bool {
        match self.commit {
            Some(commit) => {
                match commit.protected {
                    Some(protected) => {
                        protected.force.unwrap_or(COMMIT_PROTECTED_FORCE)
                    },
                    None => COMMIT_PROTECTED_FORCE,
                }
            },
            None => COMMIT_PROTECTED_FORCE,
        }
    }

    /// Whether commits on protected branches warn (default yes).
    pub open spec fn spec_commit_protected_warn(&self) -> bool {
        match self.commit {
            Some(commit) => {
                match commit.protected {
                    Some(protected) => {
                        protected.warn.unwrap_or(COMMIT_PROTECTED_WARN)
                    },
                    None => COMMIT_PROTECTED_WARN,
                }
            },
            None => COMMIT_PROTECTED_WARN,
        }
    }

    /// Remote name (default `origin`).
    pub open spec fn spec_branch_remote(&self) -> Seq<char> {
        match self.branch {
            Some(branch) => {
                match branch.remote {
                    Some(s) => s@,
                    None => BRANCH_REMOTE@,
                }
            },
            None => BRANCH_REMOTE@,
        }
    }

    /// Protected branch patterns (default `main`, `master`, `release/*`).
    pub open spec fn spec_branch_protected_patterns(&self) -> Seq<Seq<char>> {
        match self.branch {
            Some(branch) => {
                match branch.protected {
                    Some(l) => texts(l@),
                    None => default_protected_texts(),
                }
            },
            None => default_protected_texts(),
        }
    }

    /// Branch naming pattern (default `feature/{issue}`).
    pub open spec fn spec_branch_naming_pattern(&self) -> Seq<char> {
        match self.branch {
            Some(branch) => {
                match branch.naming {
                    Some(naming) => {
                        match naming.pattern {
                            Some(s) => s@,
                            None => BRANCH_NAMING_PATTERN@,
                        }
                    },
                    None => BRANCH_NAMING_PATTERN@,
                }
            },
            None => BRANCH_NAMING_PATTERN@,
        }
    }

    /// Whether pull requests are enabled (default yes).
    pub open spec fn spec_pr_enabled(&self) -> bool {
        match self.pr {
            Some(pr) => {
                pr.enabled.unwrap_or(PR_ENABLED)
            },
            None => PR_ENABLED,
        }
    }

    /// Whether conventional commits are required (default yes).
    pub open spec fn spec_check_require_conventional(&self) -> bool {
        match self.check {
            Some(check) => {
                check.require_conventional.unwrap_or(CHECK_REQUIRE_CONVENTIONAL)
            },
            None => CHECK_REQUIRE_CONVENTIONAL,
        }
    }

    /// Whether commit checks run (default yes).
    pub open spec fn spec_check_commits_enabled(&self) -> bool {
        match self.check {
            Some(check) => {
                match check.commits {
                    Some(commits) => {
                        commits.enabled.unwrap_or(CHECK_COMMITS_ENABLED)
                    },
                    None => CHECK_COMMITS_ENABLED,
                }
            },
            None => CHECK_COMMITS_ENABLED,
        }
    }

    /// Where commit checks are enforced (default protected branches).
    pub open spec fn spec_check_commits_enforce_on(&self) -> CommitEnforcementScope {
        match self.check {
            Some(check) => {
                match check.commits {
                    Some(commits) => {
                        commits.enforce_on.unwrap_or(CHECK_COMMITS_ENFORCE_ON)
                    },
                    None => CHECK_COMMITS_ENFORCE_ON,
                }
            },
            None => CHECK_COMMITS_ENFORCE_ON,
        }
    }

    /// Whether pushes to protected branches are allowed (default no).
    pub open spec fn spec_push_allow_protected(&self) -> bool {
        match self.push {
            Some(push) => {
                match push.allow {
                    Some(allow) => {
                        allow.protected.unwrap_or(PUSH_ALLOW_PROTECTED)
                    },
                    None => PUSH_ALLOW_PROTECTED,
                }
            },
            None => PUSH_ALLOW_PROTECTED,
        }
    }

    /// Whether a force override is allowed (default no).
    pub open spec fn spec_push_allow_force(&self) -> bool {
        match self.push {
            Some(push) => {
                match push.allow {
                    Some(allow) => {
                        allow.force.unwrap_or(PUSH_ALLOW_FORCE)
                    },
                    None => PUSH_ALLOW_FORCE,
                }
            },
            None => PUSH_ALLOW_FORCE,
        }
    }

    /// Whether a push checks commits (default yes).
    pub open spec fn spec_push_check_commits(&self) -> bool {
        match self.push {
            Some(push) => {
                match push.check {
                    Some(check) => {
                        check.commits.unwrap_or(PUSH_CHECK_COMMITS)
                    },
                    None => PUSH_CHECK_COMMITS,
                }
            },
            None => PUSH_CHECK_COMMITS,
        }
    }

    /// Whether a push checks the branch policy (default yes).
    pub open spec fn spec_push_check_branch_policy(&self) -> bool {
        match self.push {
            Some(push) => {
                match push.check {
                    Some(check) => {
                        check.branch_policy.unwrap_or(PUSH_CHECK_BRANCH_POLICY)
                    },
                    None => PUSH_CHECK_BRANCH_POLICY,
                }
            },
            None => PUSH_CHECK_BRANCH_POLICY,
        }
    }

    /// Tag prefix (default `v`).
    pub open spec fn spec_versioning_tag_prefix(&self) -> Seq<char> {
        match self.versioning {
            Some(versioning) => {
                match versioning.tag_prefix {
                    Some(s) => s@,
                    None => VERSIONING_TAG_PREFIX@,
                }
            },
            None => VERSIONING_TAG_PREFIX@,
        }
    }

    /// Changelog file (default `CHANGELOG.md`).
    pub open spec fn spec_changelog_output(&self) -> Seq<char> {
        match self.changelog {
            Some(changelog) => {
                match changelog.output {
                    Some(s) => s@,
                    None => CHANGELOG_OUTPUT@,
                }
            },
            None => CHANGELOG_OUTPUT@,
        }
    }

    /// Changelog format (default Markdown).
    pub open spec fn spec_changelog_format(&self) -> ChangelogFormat {
        match self.changelog {
            Some(changelog) => {
                changelog.format.unwrap_or(CHANGELOG_FORMAT)
            },
            None => CHANGELOG_FORMAT,
        }
    }

    /// Changelog grouping (default `type`).
    pub open spec fn spec_changelog_group_by(&self) -> Seq<Seq<char>> {
        match self.changelog {
            Some(changelog) => {
                match changelog.layout {
                    Some(layout) => {
                        match layout.group_by {
                            Some(l) => texts(l@),
                            None => seq!["type"@],
                        }
                    },
                    None => seq!["type"@],
                }
            },
            None => seq!["type"@],
        }
    }

    /// Changelog section order.
    pub open spec fn spec_changelog_section_order(&self) -> Seq<Seq<char>> {
        match self.changelog {
            Some(changelog) => {
                match changelog.layout {
                    Some(layout) => {
                        match layout.section_order {
                            Some(l) => texts(l@),
                            None => default_section_order_texts(),
                        }
                    },
                    None => default_section_order_texts(),
                }
            },
            None => default_section_order_texts(),
        }
    }

    /// Changelog scope order (default none).
    pub open spec fn spec_changelog_scope_order(&self) -> Seq<Seq<char>> {
        match self.changelog {
            Some(changelog) => {
                match changelog.layout {
                    Some(layout) => {
                        match layout.scope_order {
                            Some(l) => texts(l@),
                            None => Seq::<Seq<char>>::empty(),
                        }
                    },
                    None => Seq::<Seq<char>>::empty(),
                }
            },
            None => Seq::<Seq<char>>::empty(),
        }
    }

    /// Whether scopes are shown (default yes).
    pub open spec fn spec_changelog_show_scope(&self) -> bool {
        match self.changelog {
            Some(changelog) => {
                match changelog.layout {
                    Some(layout) => {
                        layout.show_scope.unwrap_or(CHANGELOG_SHOW_SCOPE)
                    },
                    None => CHANGELOG_SHOW_SCOPE,
                }
            },
            None => CHANGELOG_SHOW_SCOPE,
        }
    }

    /// Whether empty sections are shown (default no); always set.
    pub open spec fn spec_changelog_show_empty_sections(&self) -> bool {
        match self.changelog {
            Some(changelog) => {
                match changelog.layout {
                    Some(layout) => {
                        layout.show_empty_sections.unwrap_or(CHANGELOG_SHOW_EMPTY_SECTIONS)
                    },
                    None => CHANGELOG_SHOW_EMPTY_SECTIONS,
                }
            },
            None => CHANGELOG_SHOW_EMPTY_SECTIONS,
        }
    }

    /// Whether empty scopes are shown (default no); always set.
    pub open spec fn spec_changelog_show_empty_scopes(&self) -> bool {
        match self.changelog {
            Some(changelog) => {
                match changelog.layout {
                    Some(layout) => {
                        layout.show_empty_scopes.unwrap_or(CHANGELOG_SHOW_EMPTY_SCOPES)
                    },
                    None => CHANGELOG_SHOW_EMPTY_SCOPES,
                }
            },
            None => CHANGELOG_SHOW_EMPTY_SCOPES,
        }
    }

    /// Section of unlisted types (default `Miscellaneous`); always set.
    pub open spec fn spec_changelog_misc_section(&self) -> Seq<char> {
        match self.changelog {
            Some(changelog) => {
                match changelog.layout {
                    Some(layout) => {
                        match layout.misc_section {
                            Some(s) => s@,
                            None => CHANGELOG_MISC_SECTION@,
                        }
                    },
                    None => CHANGELOG_MISC_SECTION@,
                }
            },
            None => CHANGELOG_MISC_SECTION@,
        }
    }

    /// Whether the changelog has a header (default yes).
    pub open spec fn spec_changelog_header_use(&self) -> bool {
        match self.changelog {
            Some(changelog) => {
                match changelog.header {
                    Some(header) => {
                        header.use_header.unwrap_or(true)
                    },
                    None => true,
                }
            },
            None => true,
        }
    }

    /// Changelog title (default `Changelog`).
    pub open spec fn spec_changelog_header_title(&self) -> Seq<char> {
        match self.changelog {
            Some(changelog) => {
                match changelog.header {
                    Some(header) => {
                        match header.title {
                            Some(s) => s@,
                            None => "Changelog"@,
                        }
                    },
                    None => "Changelog"@,
                }
            },
            None => "Changelog"@,
        }
    }

    /// Changelog description, if set.
    pub open spec fn spec_changelog_header_description(&self) -> Option<Seq<char>> {
        match self.changelog {
            Some(changelog) => {
                match changelog.header {
                    Some(header) => {
                        opt_view(header.description)
                    },
                    None => None,
                }
            },
            None => None,
        }
    }

    /// Label of unreleased changes (default `Unreleased`).
    pub open spec fn spec_changelog_unreleased_label(&self) -> Seq<char> {
        match self.changelog {
            Some(changelog) => {
                match changelog.layout {
                    Some(layout) => {
                        match layout.unreleased_label {
                            Some(s) => s@,
                            None => "Unreleased"@,
                        }
                    },
                    None => "Unreleased"@,
                }
            },
            None => "Unreleased"@,
        }
    }

    /// Date format, if set.
    pub open spec fn spec_changelog_date_format(&self) -> Option<Seq<char>> {
        match self.changelog {
            Some(changelog) => {
                match changelog.layout {
                    Some(layout) => {
                        opt_view(layout.date_format)
                    },
                    None => None,
                }
            },
            None => None,
        }
    }

    /// Whether releases are enabled (default no).
    pub open spec fn spec_release_enabled(&self) -> bool {
        match self.release {
            Some(release) => {
                release.enabled.unwrap_or(RELEASE_ENABLED)
            },
            None => RELEASE_ENABLED,
        }
    }

    /// Release source branch (default `main`).
    pub open spec fn spec_release_source_branch(&self) -> Seq<char> {
        match self.release {
            Some(release) => {
                match release.source_branch {
                    Some(s) => s@,
                    None => RELEASE_SOURCE_BRANCH@,
                }
            },
            None => RELEASE_SOURCE_BRANCH@,
        }
    }

    /// Release target branch (default `main`).
    pub open spec fn spec_release_target_branch(&self) -> Seq<char> {
        match self.release {
            Some(release) => {
                match release.target_branch {
                    Some(s) => s@,
                    None => RELEASE_TARGET_BRANCH@,
                }
            },
            None => RELEASE_TARGET_BRANCH@,
        }
    }

    /// Release branch format (default `release/{version}`).
    pub open spec fn spec_release_branch_format(&self) -> Seq<char> {
        match self.release {
            Some(release) => {
                match release.branch_format {
                    Some(s) => s@,
                    None => RELEASE_BRANCH_FORMAT@,
                }
            },
            None => RELEASE_BRANCH_FORMAT@,
        }
    }

    /// Hotfix branch pattern (default `hotfix/*`).
    pub open spec fn spec_release_hotfix_pattern(&self) -> Seq<char> {
        match self.release {
            Some(release) => {
                match release.hotfix_pattern {
                    Some(s) => s@,
                    None => RELEASE_HOTFIX_PATTERN@,
                }
            },
            None => RELEASE_HOTFIX_PATTERN@,
        }
    }

    /// Whether a release needs a clean worktree (default yes).
    pub open spec fn spec_release_require_clean_worktree(&self) -> bool {
        match self.release {
            Some(release) => {
                match release.validation {
                    Some(validation) => {
                        validation.require_clean_worktree.unwrap_or(RELEASE_REQUIRE_CLEAN_WORKTREE)
                    },
                    None => RELEASE_REQUIRE_CLEAN_WORKTREE,
                }
            },
            None => RELEASE_REQUIRE_CLEAN_WORKTREE,
        }
    }

    /// Whether an existing tag fails a release (default yes).
    pub open spec fn spec_release_fail_if_tag_exists(&self) -> bool {
        match self.release {
            Some(release) => {
                match release.validation {
                    Some(validation) => {
                        validation.fail_if_tag_exists.unwrap_or(RELEASE_FAIL_IF_TAG_EXISTS)
                    },
                    None => RELEASE_FAIL_IF_TAG_EXISTS,
                }
            },
            None => RELEASE_FAIL_IF_TAG_EXISTS,
        }
    }

    /// Whether an existing release branch fails a release (default yes).
    pub open spec fn spec_release_fail_if_release_branch_exists(&self) -> bool {
        match self.release {
            Some(release) => {
                match release.validation {
                    Some(validation) => {
                        validation.fail_if_release_branch_exists.unwrap_or(RELEASE_FAIL_IF_RELEASE_BRANCH_EXISTS)
                    },
                    None => RELEASE_FAIL_IF_RELEASE_BRANCH_EXISTS,
                }
            },
            None => RELEASE_FAIL_IF_RELEASE_BRANCH_EXISTS,
        }
    }

    /// Whether finishing a release tags it (default yes).
    pub open spec fn spec_release_finish_tag(&self) -> bool {
        match self.release {
            Some(release) => {
                match release.finish {
                    Some(finish) => {
                        finish.tag.unwrap_or(RELEASE_FINISH_TAG)
                    },
                    None => RELEASE_FINISH_TAG,
                }
            },
            None => RELEASE_FINISH_TAG,
        }
    }

    /// Whether finishing a release pushes (default yes).
    pub open spec fn spec_release_finish_push(&self) -> bool {
        match self.release {
            Some(release) => {
                match release.finish {
                    Some(finish) => {
                        finish.push.unwrap_or(RELEASE_FINISH_PUSH)
                    },
                    None => RELEASE_FINISH_PUSH,
                }
            },
            None => RELEASE_FINISH_PUSH,
        }
    }

    /// Branch a release merges back into (default `main`).
    pub open spec fn spec_release_finish_backmerge_branch(&self) -> Seq<char> {
        match self.release {
            Some(release) => {
                match release.finish {
                    Some(finish) => {
                        match finish.backmerge_branch {
                            Some(s) => s@,
                            None => RELEASE_FINISH_BACKMERGE_BRANCH@,
                        }
                    },
                    None => RELEASE_FINISH_BACKMERGE_BRANCH@,
                }
            },
            None => RELEASE_FINISH_BACKMERGE_BRANCH@,
        }
    }

    /// Whether the pre-commit hook is on (default no).
    pub open spec fn spec_hooks_pre_commit(&self) -> bool {
        match self.hooks {
            Some(hooks) => {
                hooks.pre_commit.unwrap_or(HOOKS_PRE_COMMIT)
            },
            None => HOOKS_PRE_COMMIT,
        }
    }

    /// Whether the commit-msg hook is on (default no).
    pub open spec fn spec_hooks_commit_msg(&self) -> bool {
        match self.hooks {
            Some(hooks) => {
                hooks.commit_msg.unwrap_or(HOOKS_COMMIT_MSG)
            },
            None => HOOKS_COMMIT_MSG,
        }
    }

    /// Whether the pre-push hook is on (default no).
    pub open spec fn spec_hooks_pre_push(&self) -> bool {
        match self.hooks {
            Some(hooks) => {
                hooks.pre_push.unwrap_or(HOOKS_PRE_PUSH)
            },
            None => HOOKS_PRE_PUSH,
        }
    }

    /// Whether AI assistance is on (default no).
    pub open spec fn spec_ai_enabled(&self) -> bool {
        match self.ai {
            Some(ai) => {
                ai.enabled.unwrap_or(AI_ENABLED)
            },
            None => AI_ENABLED,
        }
    }

    /// Whether AI commit messages are on (default no).
    pub open spec fn spec_ai_commit_enabled(&self) -> bool {
        match self.ai {
            Some(ai) => {
                match ai.commands {
                    Some(commands) => {
                        commands.commit.unwrap_or(AI_COMMAND_COMMIT)
                    },
                    None => AI_COMMAND_COMMIT,
                }
            },
            None => AI_COMMAND_COMMIT,
        }
    }

    /// Whether AI changelogs are on (default no).
    pub open spec fn spec_ai_changelog_enabled(&self) -> bool {
        match self.ai {
            Some(ai) => {
                match ai.commands {
                    Some(commands) => {
                        commands.changelog.unwrap_or(AI_COMMAND_CHANGELOG)
                    },
                    None => AI_COMMAND_CHANGELOG,
                }
            },
            None => AI_COMMAND_CHANGELOG,
        }
    }

    /// Whether AI release preparation is on (default no).
    pub open spec fn spec_ai_release_prepare_enabled(&self) -> bool {
        match self.ai {
            Some(ai) => {
                match ai.commands {
                    Some(commands) => {
                        commands.release_prepare.unwrap_or(AI_COMMAND_RELEASE_PREPARE)
                    },
                    None => AI_COMMAND_RELEASE_PREPARE,
                }
            },
            None => AI_COMMAND_RELEASE_PREPARE,
        }
    }
}

impl BaseConfig {
    /// The configured commit type table, if any.
    pub open spec fn spec_commit_types_table(&self) -> Option<Seq<(String, CommitTypeConfig)>> {
        match self.commit {
            Some(c) => match c.types {
                Some(t) => Some(t@),
                None => None,
            },
            None => None,
        }
    }

    /// The names of the defined scopes.
    pub open spec fn spec_commit_scope_allowed(&self) -> Seq<Seq<char>> {
        match self.commit {
            Some(c) => match c.scopes {
                Some(s) => match s.definitions {
                    Some(d) => scope_names(d@),
                    None => Seq::<Seq<char>>::empty(),
                },
                None => Seq::<Seq<char>>::empty(),
            },
            None => Seq::<Seq<char>>::empty(),
        }
    }

    /// The breaking-change footer keys.
    pub open spec fn spec_commit_breaking_footer_keys_normalized(&self) -> Seq<Seq<char>> {
        footer_keys_spec(
            match self.commit {
                Some(c) => c.breaking,
                None => None,
            },
        )
    }

    /// Where the breaking-change emoji goes (default prepend).
    pub open spec fn spec_commit_breaking_emoji_mode(&self) -> EmojiMode {
        match self.commit {
            Some(c) => match c.breaking {
                Some(b) => b.emoji_mode.unwrap_or(EmojiMode::Prepend),
                None => EmojiMode::Prepend,
            },
            None => EmojiMode::Prepend,
        }
    }

    /// The configured changelog section table (empty when unset).
    pub open spec fn spec_changelog_sections(&self) -> Seq<(String, ChangelogSectionConfig)> {
        match self.changelog {
            Some(c) => match c.sections {
                Some(s) => s@,
                None => Seq::empty(),
            },
            None => Seq::empty(),
        }
    }

    /// The registry the project uses, unless unset or blank.
    pub open spec fn spec_registry_use(&self) -> Option<Seq<char>> {
        match self.registry {
            Some(g) => match g.use_registry {
                Some(s) => if trim(s@).len() > 0 {
                    Some(s@)
                } else {
                    None
                },
                None => None,
            },
            None => None,
        }
    }
}

impl BaseConfig {
    /// A settings file with no section set.
    pub fn empty() -> (r: Self)
        ensures
            is_empty_config(r),
    {
        BaseConfig {
            commit: None,
            branch: None,
            pr: None,
            check: None,
            push: None,
            versioning: None,
            changelog: None,
            release: None,
            hooks: None,
            ai: None,
            registry: None,
            registries: None,
        }
    }

    /// `self` over `lower`: `self`'s sections win over `lower`'s, falling back
    /// to `lower` only where `self` has none; commit sections merge setting by
    /// setting.
    pub fn merge(self, lower: BaseConfig) -> (r: BaseConfig)
        ensures
            r == merged(self, lower),
    {
        BaseConfig {
            commit: merge_commit_config(self.commit, lower.commit),
            branch: or_else(self.branch, lower.branch),
            pr: or_else(self.pr, lower.pr),
            check: or_else(self.check, lower.check),
            push: or_else(self.push, lower.push),
            versioning: or_else(self.versioning, lower.versioning),
            changelog: or_else(self.changelog, lower.changelog),
            release: or_else(self.release, lower.release),
            hooks: or_else(self.hooks, lower.hooks),
            ai: or_else(self.ai, lower.ai),
            registry: or_else(self.registry, lower.registry),
            registries: or_else(self.registries, lower.registries),
        }
    }

    /// The minimal preset (empty).
    pub fn minimal() -> (r: Self)
        ensures
            is_empty_config(r),
    {
        minimal_base_config()
    }

    /// The standard preset.
    pub fn standard() -> (r: Self)
        ensures
            is_standard_preset(r),
            r.registry is None,
            r.registries is None,
    {
        standard_base_config()
    }

    /// The full preset.
    pub fn full() -> (r: Self)
        ensures
            is_standard_preset(r),
            r.registry matches Some(g) && opt_view(g.use_registry) == Some(Seq::<char>::empty())
                && g.section is None,
            r.registries matches Some(m) && m@.len() == 0,
    {
        full_base_config()
    }

    /// Version of the settings format.
    pub fn version(&self) -> (r: u32)
        ensures
            r == CONFIG_VERSION,
    {
        CONFIG_VERSION
    }

    /// The commit types: the configured table, else the default one.
    pub fn commit_types(&self) -> (r: Vec<(String, CommitTypeConfig)>)
        ensures
            match self.spec_commit_types_table() {
                Some(t) => r@ == t,
                None => is_default_commit_types(r@),
            },
    {
        match &self.commit {
            Some(c) => match &c.types {
                Some(t) => copy_type_table(t),
                None => default_commit_types(),
            },
            None => default_commit_types(),
        }
    }

    /// The names of the defined scopes (none when no definitions are set).
    pub fn commit_scope_allowed(&self) -> (r: Vec<String>)
        ensures
            texts(r@) == self.spec_commit_scope_allowed(),
    {
        let mut r: Vec<String> = Vec::new();
        match &self.commit {
            Some(c) => match &c.scopes {
                Some(s) => match &s.definitions {
                    Some(d) => {
                        let mut i: usize = 0;
                        while i < d.len()
                            invariant
                                0 <= i <= d@.len(),
                                texts(r@) == scope_names(d@.take(i as int)),
                            decreases d@.len() - i,
                        {
                            let ghost before = texts(r@);
                            r.push(d[i].0.clone());
                            assert(texts(r@) =~= before.push(d@[i as int].0@));
                            assert(scope_names(d@.take(i + 1)) =~= scope_names(
                                d@.take(i as int),
                            ).push(d@[i as int].0@));
                            i = i + 1;
                        }
                        assert(d@.take(i as int) =~= d@);
                    },
                    None => {
                        assert(texts(r@) =~= Seq::<Seq<char>>::empty());
                    },
                },
                None => {
                    assert(texts(r@) =~= Seq::<Seq<char>>::empty());
                },
            },
            None => {
                assert(texts(r@) =~= Seq::<Seq<char>>::empty());
            },
        }
        r
    }

    /// The breaking-change footer keys: the footer key, then the footer key
    /// list, without empty or repeated keys; `BREAKING CHANGE` and
    /// `BREAKING-CHANGE` when that leaves none.
    pub fn commit_breaking_footer_keys_normalized(&self) -> (r: Vec<String>)
        ensures
            texts(r@) == self.spec_commit_breaking_footer_keys_normalized(),
            texts(r@).no_duplicates(),
            forall|i: int| 0 <= i < r@.len() ==> (#[trigger] r@[i])@.len() > 0,
    {
        proof {
            reveal_strlit("BREAKING CHANGE");
            reveal_strlit("BREAKING-CHANGE");
            assert("BREAKING CHANGE"@[8] != "BREAKING-CHANGE"@[8]);
        }
        if let Some(c) = &self.commit {
            if let Some(b) = &c.breaking {
                let keys = breaking_keys(b);
                if keys.len() > 0 {
                    return keys;
                }
            }
        }
        let mut d: Vec<String> = Vec::new();
        d.push(owned("BREAKING CHANGE"));
        d.push(owned("BREAKING-CHANGE"));
        assert(texts(d@) =~= default_footer_keys());
        d
    }

    /// Maximum subject length (default 72).
    pub fn commit_subject_max_length(&self) -> (r: u32)
        ensures
            r == self.spec_commit_subject_max_length(),
    {
        match &self.commit {
            Some(commit) => {
                match commit.subject_max_length {
                    Some(x) => x,
                    None => COMMIT_SUBJECT_MAX_LENGTH,
                }
            },
            None => COMMIT_SUBJECT_MAX_LENGTH,
        }
    }

    /// Whether headers may carry emojis (default no).
    pub fn commit_use_emojis(&self) -> (r: bool)
        ensures
            r == self.spec_commit_use_emojis(),
    {
        match &self.commit {
            Some(commit) => {
                match commit.use_emojis {
                    Some(x) => x,
                    None => COMMIT_USE_EMOJIS,
                }
            },
            None => COMMIT_USE_EMOJIS,
        }
    }

    /// Scope mode (default optional).
    pub fn commit_scopes_mode(&self) -> (r: ScopeMode)
        ensures
            r == self.spec_commit_scopes_mode(),
    {
        match &self.commit {
            Some(commit) => {
                match &commit.scopes {
                    Some(scopes) => {
                        match scopes.mode {
                            Some(x) => x,
                            None => COMMIT_SCOPE_MODE,
                        }
                    },
                    None => COMMIT_SCOPE_MODE,
                }
            },
            None => COMMIT_SCOPE_MODE,
        }
    }

    /// Whether only defined scopes are accepted (default no).
    pub fn commit_scope_restrict_to_defined(&self) -> (r: bool)
        ensures
            r == self.spec_commit_scope_restrict_to_defined(),
    {
        match &self.commit {
            Some(commit) => {
                match &commit.scopes {
                    Some(scopes) => {
                        match scopes.restrict_to_defined {
                            Some(x) => x,
                            None => COMMIT_SCOPE_RESTRICT_TO_DEFINED,
                        }
                    },
                    None => COMMIT_SCOPE_RESTRICT_TO_DEFINED,
                }
            },
            None => COMMIT_SCOPE_RESTRICT_TO_DEFINED,
        }
    }

    /// Whether a breaking footer needs the `!` marker (default no).
    pub fn commit_breaking_require_header(&self) -> (r: bool)
        ensures
            r == self.spec_commit_breaking_require_header(),
    {
        match &self.commit {
            Some(commit) => {
                match &commit.breaking {
                    Some(breaking) => {
                        match breaking.require_header {
                            Some(x) => x,
                            None => COMMIT_BREAKING_REQUIRE_HEADER,
                        }
                    },
                    None => COMMIT_BREAKING_REQUIRE_HEADER,
                }
            },
            None => COMMIT_BREAKING_REQUIRE_HEADER,
        }
    }

    /// Whether the `!` marker needs a breaking footer (default no).
    pub fn commit_breaking_require_footer(&self) -> (r: bool)
        ensures
            r == self.spec_commit_breaking_require_footer(),
    {
        match &self.commit {
            Some(commit) => {
                match &commit.breaking {
                    Some(breaking) => {
                        match breaking.require_footer {
                            Some(x) => x,
                            None => COMMIT_BREAKING_REQUIRE_FOOTER,
                        }
                    },
                    None => COMMIT_BREAKING_REQUIRE_FOOTER,
                }
            },
            None => COMMIT_BREAKING_REQUIRE_FOOTER,
        }
    }

    /// Breaking-change footer key (default `BREAKING CHANGE`).
    pub fn commit_breaking_footer_key(&self) -> (r: String)
        ensures
            r@ == self.spec_commit_breaking_footer_key(),
    {
        match &self.commit {
            Some(commit) => {
                match &commit.breaking {
                    Some(breaking) => {
                        match &breaking.footer_key {
                            Some(s) => s.clone(),
                            None => owned(COMMIT_BREAKING_FOOTER_KEY),
                        }
                    },
                    None => owned(COMMIT_BREAKING_FOOTER_KEY),
                }
            },
            None => owned(COMMIT_BREAKING_FOOTER_KEY),
        }
    }

    /// Breaking-change emoji, if set.
    pub fn commit_breaking_emoji(&self) -> (r: Option<String>)
        ensures
            opt_view(r) == self.spec_commit_breaking_emoji(),
    {
        match &self.commit {
            Some(commit) => {
                match &commit.breaking {
                    Some(breaking) => {
                        match &breaking.emoji {
                            Some(s) => Some(s.clone()),
                            None => None,
                        }
                    },
                    None => None,
                }
            },
            None => None,
        }
    }

    /// Whether a ticket is required (default no).
    pub fn commit_ticket_required(&self) -> (r: bool)
        ensures
            r == self.spec_commit_ticket_required(),
    {
        match &self.commit {
            Some(commit) => {
                match &commit.ticket {
                    Some(ticket) => {
                        match ticket.required {
                            Some(x) => x,
                            None => COMMIT_TICKET_REQUIRED,
                        }
                    },
                    None => COMMIT_TICKET_REQUIRED,
                }
            },
            None => COMMIT_TICKET_REQUIRED,
        }
    }

    /// Ticket pattern, if set.
    pub fn commit_ticket_pattern(&self) -> (r: Option<String>)
        ensures
            opt_view(r) == self.spec_commit_ticket_pattern(),
    {
        match &self.commit {
            Some(commit) => {
                match &commit.ticket {
                    Some(ticket) => {
                        match &ticket.pattern {
                            Some(s) => Some(s.clone()),
                            None => None,
                        }
                    },
                    None => None,
                }
            },
            None => None,
        }
    }

    /// Ticket source (default disabled).
    pub fn commit_ticket_source(&self) -> (r: TicketSource)
        ensures
            r == self.spec_commit_ticket_source(),
    {
        match &self.commit {
            Some(commit) => {
                match &commit.ticket {
                    Some(ticket) => {
                        match ticket.source {
                            Some(x) => x,
                            None => COMMIT_TICKET_SOURCE,
                        }
                    },
                    None => COMMIT_TICKET_SOURCE,
                }
            },
            None => COMMIT_TICKET_SOURCE,
        }
    }

    /// Whether commits on protected branches are allowed (default yes).
    pub fn commit_protected_allow(&self) -> (r: bool)
        ensures
            r == self.spec_commit_protected_allow(),
    {
        match &self.commit {
            Some(commit) => {
                match &commit.protected {
                    Some(protected) => {
                        match protected.allow {
                            Some(x) => x,
                            None => COMMIT_PROTECTED_ALLOW,
                        }
                    },
                    None => COMMIT_PROTECTED_ALLOW,
                }
            },
            None => COMMIT_PROTECTED_ALLOW,
        }
    }

    /// Whether commits on protected branches are forced through (default no).
    pub fn commit_protected_force(&self) -> (r: bool)
        ensures
            r == self.spec_commit_protected_force(),
    {
        match &self.commit {
            Some(commit) => {
                match &commit.protected {
                    Some(protected) => {
                        match protected.force {
                            Some(x) => x,
                            None => COMMIT_PROTECTED_FORCE,
                        }
                    },
                    None => COMMIT_PROTECTED_FORCE,
                }
            },
            None => COMMIT_PROTECTED_FORCE,
        }
    }

    /// Whether commits on protected branches warn (default yes).
    pub fn commit_protected_warn(&self) -> (r: bool)
        ensures
            r == self.spec_commit_protected_warn(),
    {
        match &self.commit {
            Some(commit) => {
                match &commit.protected {
                    Some(protected) => {
                        match protected.warn {
                            Some(x) => x,
                            None => COMMIT_PROTECTED_WARN,
                        }
                    },
                    None => COMMIT_PROTECTED_WARN,
                }
            },
            None => COMMIT_PROTECTED_WARN,
        }
    }

    /// Remote name (default `origin`).
    pub fn branch_remote(&self) -> (r: String)
        ensures
            r@ == self.spec_branch_remote(),
    {
        match &self.branch {
            Some(branch) => {
                match &branch.remote {
                    Some(s) => s.clone(),
                    None => owned(BRANCH_REMOTE),
                }
            },
            None => owned(BRANCH_REMOTE),
        }
    }

    /// Protected branch patterns (default `main`, `master`, `release/*`).
    pub fn branch_protected_patterns(&self) -> (r: Vec<String>)
        ensures
            texts(r@) == self.spec_branch_protected_patterns(),
    {
        match &self.branch {
            Some(branch) => {
                match &branch.protected {
                    Some(l) => copy_texts(l),
                    None => default_branch_protected_patterns(),
                }
            },
            None => default_branch_protected_patterns(),
        }
    }

    /// Branch naming pattern (default `feature/{issue}`).
    pub fn branch_naming_pattern(&self) -> (r: String)
        ensures
            r@ == self.spec_branch_naming_pattern(),
    {
        match &self.branch {
            Some(branch) => {
                match &branch.naming {
                    Some(naming) => {
                        match &naming.pattern {
                            Some(s) => s.clone(),
                            None => owned(BRANCH_NAMING_PATTERN),
                        }
                    },
                    None => owned(BRANCH_NAMING_PATTERN),
                }
            },
            None => owned(BRANCH_NAMING_PATTERN),
        }
    }

    /// Whether pull requests are enabled (default yes).
    pub fn pr_enabled(&self) -> (r: bool)
        ensures
            r == self.spec_pr_enabled(),
    {
        match &self.pr {
            Some(pr) => {
                match pr.enabled {
                    Some(x) => x,
                    None => PR_ENABLED,
                }
            },
            None => PR_ENABLED,
        }
    }

    /// Whether conventional commits are required (default yes).
    pub fn check_require_conventional(&self) -> (r: bool)
        ensures
            r == self.spec_check_require_conventional(),
    {
        match &self.check {
            Some(check) => {
                match check.require_conventional {
                    Some(x) => x,
                    None => CHECK_REQUIRE_CONVENTIONAL,
                }
            },
            None => CHECK_REQUIRE_CONVENTIONAL,
        }
    }

    /// Whether commit checks run (default yes).
    pub fn check_commits_enabled(&self) -> (r: bool)
        ensures
            r == self.spec_check_commits_enabled(),
    {
        match &self.check {
            Some(check) => {
                match &check.commits {
                    Some(commits) => {
                        match commits.enabled {
                            Some(x) => x,
                            None => CHECK_COMMITS_ENABLED,
                        }
                    },
                    None => CHECK_COMMITS_ENABLED,
                }
            },
            None => CHECK_COMMITS_ENABLED,
        }
    }

    /// Where commit checks are enforced (default protected branches).
    pub fn check_commits_enforce_on(&self) -> (r: CommitEnforcementScope)
        ensures
            r == self.spec_check_commits_enforce_on(),
    {
        match &self.check {
            Some(check) => {
                match &check.commits {
                    Some(commits) => {
                        match commits.enforce_on {
                            Some(x) => x,
                            None => CHECK_COMMITS_ENFORCE_ON,
                        }
                    },
                    None => CHECK_COMMITS_ENFORCE_ON,
                }
            },
            None => CHECK_COMMITS_ENFORCE_ON,
        }
    }

    /// Whether pushes to protected branches are allowed (default no).
    pub fn push_allow_protected(&self) -> (r: bool)
        ensures
            r == self.spec_push_allow_protected(),
    {
        match &self.push {
            Some(push) => {
                match &push.allow {
                    Some(allow) => {
                        match allow.protected {
                            Some(x) => x,
                            None => PUSH_ALLOW_PROTECTED,
                        }
                    },
                    None => PUSH_ALLOW_PROTECTED,
                }
            },
            None => PUSH_ALLOW_PROTECTED,
        }
    }

    /// Whether a force override is allowed (default no).
    pub fn push_allow_force(&self) -> (r: bool)
        ensures
            r == self.spec_push_allow_force(),
    {
        match &self.push {
            Some(push) => {
                match &push.allow {
                    Some(allow) => {
                        match allow.force {
                            Some(x) => x,
                            None => PUSH_ALLOW_FORCE,
                        }
                    },
                    None => PUSH_ALLOW_FORCE,
                }
            },
            None => PUSH_ALLOW_FORCE,
        }
    }

    /// Whether a push checks commits (default yes).
    pub fn push_check_commits(&self) -> (r: bool)
        ensures
            r == self.spec_push_check_commits(),
    {
        match &self.push {
            Some(push) => {
                match &push.check {
                    Some(check) => {
                        match check.commits {
                            Some(x) => x,
                            None => PUSH_CHECK_COMMITS,
                        }
                    },
                    None => PUSH_CHECK_COMMITS,
                }
            },
            None => PUSH_CHECK_COMMITS,
        }
    }

    /// Whether a push checks the branch policy (default yes).
    pub fn push_check_branch_policy(&self) -> (r: bool)
        ensures
            r == self.spec_push_check_branch_policy(),
    {
        match &self.push {
            Some(push) => {
                match &push.check {
                    Some(check) => {
                        match check.branch_policy {
                            Some(x) => x,
                            None => PUSH_CHECK_BRANCH_POLICY,
                        }
                    },
                    None => PUSH_CHECK_BRANCH_POLICY,
                }
            },
            None => PUSH_CHECK_BRANCH_POLICY,
        }
    }

    /// Tag prefix (default `v`).
    pub fn versioning_tag_prefix(&self) -> (r: String)
        ensures
            r@ == self.spec_versioning_tag_prefix(),
    {
        match &self.versioning {
            Some(versioning) => {
                match &versioning.tag_prefix {
                    Some(s) => s.clone(),
                    None => owned(VERSIONING_TAG_PREFIX),
                }
            },
            None => owned(VERSIONING_TAG_PREFIX),
        }
    }

    /// Changelog file (default `CHANGELOG.md`).
    pub fn changelog_output(&self) -> (r: String)
        ensures
            r@ == self.spec_changelog_output(),
    {
        match &self.changelog {
            Some(changelog) => {
                match &changelog.output {
                    Some(s) => s.clone(),
                    None => owned(CHANGELOG_OUTPUT),
                }
            },
            None => owned(CHANGELOG_OUTPUT),
        }
    }

    /// Changelog format (default Markdown).
    pub fn changelog_format(&self) -> (r: ChangelogFormat)
        ensures
            r == self.spec_changelog_format(),
    {
        match &self.changelog {
            Some(changelog) => {
                match changelog.format {
                    Some(x) => x,
                    None => CHANGELOG_FORMAT,
                }
            },
            None => CHANGELOG_FORMAT,
        }
    }

    /// Changelog grouping (default `type`).
    pub fn changelog_group_by(&self) -> (r: Vec<String>)
        ensures
            texts(r@) == self.spec_changelog_group_by(),
    {
        match &self.changelog {
            Some(changelog) => {
                match &changelog.layout {
                    Some(layout) => {
                        match &layout.group_by {
                            Some(l) => copy_texts(l),
                            None => default_changelog_group_by(),
                        }
                    },
                    None => default_changelog_group_by(),
                }
            },
            None => default_changelog_group_by(),
        }
    }

    /// Changelog section order.
    pub fn changelog_section_order(&self) -> (r: Vec<String>)
        ensures
            texts(r@) == self.spec_changelog_section_order(),
    {
        match &self.changelog {
            Some(changelog) => {
                match &changelog.layout {
                    Some(layout) => {
                        match &layout.section_order {
                            Some(l) => copy_texts(l),
                            None => default_changelog_section_order(),
                        }
                    },
                    None => default_changelog_section_order(),
                }
            },
            None => default_changelog_section_order(),
        }
    }

    /// Changelog scope order (default none).
    pub fn changelog_scope_order(&self) -> (r: Vec<String>)
        ensures
            texts(r@) == self.spec_changelog_scope_order(),
    {
        match &self.changelog {
            Some(changelog) => {
                match &changelog.layout {
                    Some(layout) => {
                        match &layout.scope_order {
                            Some(l) => copy_texts(l),
                            None => default_changelog_scope_order(),
                        }
                    },
                    None => default_changelog_scope_order(),
                }
            },
            None => default_changelog_scope_order(),
        }
    }

    /// Whether scopes are shown (default yes).
    pub fn changelog_show_scope(&self) -> (r: bool)
        ensures
            r == self.spec_changelog_show_scope(),
    {
        match &self.changelog {
            Some(changelog) => {
                match &changelog.layout {
                    Some(layout) => {
                        match layout.show_scope {
                            Some(x) => x,
                            None => CHANGELOG_SHOW_SCOPE,
                        }
                    },
                    None => CHANGELOG_SHOW_SCOPE,
                }
            },
            None => CHANGELOG_SHOW_SCOPE,
        }
    }

    /// Whether empty sections are shown (default no); always set.
    pub fn changelog_show_empty_sections(&self) -> (r: Option<bool>)
        ensures
            r == Some(self.spec_changelog_show_empty_sections()),
    {
        Some(
            match &self.changelog {
                Some(changelog) => {
                    match &changelog.layout {
                        Some(layout) => {
                            match layout.show_empty_sections {
                                Some(x) => x,
                                None => CHANGELOG_SHOW_EMPTY_SECTIONS,
                            }
                        },
                        None => CHANGELOG_SHOW_EMPTY_SECTIONS,
                    }
                },
                None => CHANGELOG_SHOW_EMPTY_SECTIONS,
            }
        )
    }

    /// Whether empty scopes are shown (default no); always set.
    pub fn changelog_show_empty_scopes(&self) -> (r: Option<bool>)
        ensures
            r == Some(self.spec_changelog_show_empty_scopes()),
    {
        Some(
            match &self.changelog {
                Some(changelog) => {
                    match &changelog.layout {
                        Some(layout) => {
                            match layout.show_empty_scopes {
                                Some(x) => x,
                                None => CHANGELOG_SHOW_EMPTY_SCOPES,
                            }
                        },
                        None => CHANGELOG_SHOW_EMPTY_SCOPES,
                    }
                },
                None => CHANGELOG_SHOW_EMPTY_SCOPES,
            }
        )
    }

    /// Section of unlisted types (default `Miscellaneous`); always set.
    pub fn changelog_misc_section(&self) -> (r: Option<String>)
        ensures
            opt_view(r) == Some(self.spec_changelog_misc_section()),
    {
        Some(
            match &self.changelog {
                Some(changelog) => {
                    match &changelog.layout {
                        Some(layout) => {
                            match &layout.misc_section {
                                Some(s) => s.clone(),
                                None => owned(CHANGELOG_MISC_SECTION),
                            }
                        },
                        None => owned(CHANGELOG_MISC_SECTION),
                    }
                },
                None => owned(CHANGELOG_MISC_SECTION),
            }
        )
    }

    /// Whether the changelog has a header (default yes).
    pub fn changelog_header_use(&self) -> (r: bool)
        ensures
            r == self.spec_changelog_header_use(),
    {
        match &self.changelog {
            Some(changelog) => {
                match &changelog.header {
                    Some(header) => {
                        match header.use_header {
                            Some(x) => x,
                            None => true,
                        }
                    },
                    None => true,
                }
            },
            None => true,
        }
    }

    /// Changelog title (default `Changelog`).
    pub fn changelog_header_title(&self) -> (r: String)
        ensures
            r@ == self.spec_changelog_header_title(),
    {
        match &self.changelog {
            Some(changelog) => {
                match &changelog.header {
                    Some(header) => {
                        match &header.title {
                            Some(s) => s.clone(),
                            None => owned("Changelog"),
                        }
                    },
                    None => owned("Changelog"),
                }
            },
            None => owned("Changelog"),
        }
    }

    /// Changelog description, if set.
    pub fn changelog_header_description(&self) -> (r: Option<String>)
        ensures
            opt_view(r) == self.spec_changelog_header_description(),
    {
        match &self.changelog {
            Some(changelog) => {
                match &changelog.header {
                    Some(header) => {
                        match &header.description {
                            Some(s) => Some(s.clone()),
                            None => None,
                        }
                    },
                    None => None,
                }
            },
            None => None,
        }
    }

    /// Label of unreleased changes (default `Unreleased`).
    pub fn changelog_unreleased_label(&self) -> (r: String)
        ensures
            r@ == self.spec_changelog_unreleased_label(),
    {
        match &self.changelog {
            Some(changelog) => {
                match &changelog.layout {
                    Some(layout) => {
                        match &layout.unreleased_label {
                            Some(s) => s.clone(),
                            None => owned("Unreleased"),
                        }
                    },
                    None => owned("Unreleased"),
                }
            },
            None => owned("Unreleased"),
        }
    }

    /// Date format, if set.
    pub fn changelog_date_format(&self) -> (r: Option<String>)
        ensures
            opt_view(r) == self.spec_changelog_date_format(),
    {
        match &self.changelog {
            Some(changelog) => {
                match &changelog.layout {
                    Some(layout) => {
                        match &layout.date_format {
                            Some(s) => Some(s.clone()),
                            None => None,
                        }
                    },
                    None => None,
                }
            },
            None => None,
        }
    }

    /// Whether releases are enabled (default no).
    pub fn release_enabled(&self) -> (r: bool)
        ensures
            r == self.spec_release_enabled(),
    {
        match &self.release {
            Some(release) => {
                match release.enabled {
                    Some(x) => x,
                    None => RELEASE_ENABLED,
                }
            },
            None => RELEASE_ENABLED,
        }
    }

    /// Release source branch (default `main`).
    pub fn release_source_branch(&self) -> (r: String)
        ensures
            r@ == self.spec_release_source_branch(),
    {
        match &self.release {
            Some(release) => {
                match &release.source_branch {
                    Some(s) => s.clone(),
                    None => owned(RELEASE_SOURCE_BRANCH),
                }
            },
            None => owned(RELEASE_SOURCE_BRANCH),
        }
    }

    /// Release target branch (default `main`).
    pub fn release_target_branch(&self) -> (r: String)
        ensures
            r@ == self.spec_release_target_branch(),
    {
        match &self.release {
            Some(release) => {
                match &release.target_branch {
                    Some(s) => s.clone(),
                    None => owned(RELEASE_TARGET_BRANCH),
                }
            },
            None => owned(RELEASE_TARGET_BRANCH),
        }
    }

    /// Release branch format (default `release/{version}`).
    pub fn release_branch_format(&self) -> (r: String)
        ensures
            r@ == self.spec_release_branch_format(),
    {
        match &self.release {
            Some(release) => {
                match &release.branch_format {
                    Some(s) => s.clone(),
                    None => owned(RELEASE_BRANCH_FORMAT),
                }
            },
            None => owned(RELEASE_BRANCH_FORMAT),
        }
    }

    /// Hotfix branch pattern (default `hotfix/*`).
    pub fn release_hotfix_pattern(&self) -> (r: String)
        ensures
            r@ == self.spec_release_hotfix_pattern(),
    {
        match &self.release {
            Some(release) => {
                match &release.hotfix_pattern {
                    Some(s) => s.clone(),
                    None => owned(RELEASE_HOTFIX_PATTERN),
                }
            },
            None => owned(RELEASE_HOTFIX_PATTERN),
        }
    }

    /// Whether a release needs a clean worktree (default yes).
    pub fn release_require_clean_worktree(&self) -> (r: bool)
        ensures
            r == self.spec_release_require_clean_worktree(),
    {
        match &self.release {
            Some(release) => {
                match &release.validation {
                    Some(validation) => {
                        match validation.require_clean_worktree {
                            Some(x) => x,
                            None => RELEASE_REQUIRE_CLEAN_WORKTREE,
                        }
                    },
                    None => RELEASE_REQUIRE_CLEAN_WORKTREE,
                }
            },
            None => RELEASE_REQUIRE_CLEAN_WORKTREE,
        }
    }

    /// Whether an existing tag fails a release (default yes).
    pub fn release_fail_if_tag_exists(&self) -> (r: bool)
        ensures
            r == self.spec_release_fail_if_tag_exists(),
    {
        match &self.release {
            Some(release) => {
                match &release.validation {
                    Some(validation) => {
                        match validation.fail_if_tag_exists {
                            Some(x) => x,
                            None => RELEASE_FAIL_IF_TAG_EXISTS,
                        }
                    },
                    None => RELEASE_FAIL_IF_TAG_EXISTS,
                }
            },
            None => RELEASE_FAIL_IF_TAG_EXISTS,
        }
    }

    /// Whether an existing release branch fails a release (default yes).
    pub fn release_fail_if_release_branch_exists(&self) -> (r: bool)
        ensures
            r == self.spec_release_fail_if_release_branch_exists(),
    {
        match &self.release {
            Some(release) => {
                match &release.validation {
                    Some(validation) => {
                        match validation.fail_if_release_branch_exists {
                            Some(x) => x,
                            None => RELEASE_FAIL_IF_RELEASE_BRANCH_EXISTS,
                        }
                    },
                    None => RELEASE_FAIL_IF_RELEASE_BRANCH_EXISTS,
                }
            },
            None => RELEASE_FAIL_IF_RELEASE_BRANCH_EXISTS,
        }
    }

    /// Whether finishing a release tags it (default yes).
    pub fn release_finish_tag(&self) -> (r: bool)
        ensures
            r == self.spec_release_finish_tag(),
    {
        match &self.release {
            Some(release) => {
                match &release.finish {
                    Some(finish) => {
                        match finish.tag {
                            Some(x) => x,
                            None => RELEASE_FINISH_TAG,
                        }
                    },
                    None => RELEASE_FINISH_TAG,
                }
            },
            None => RELEASE_FINISH_TAG,
        }
    }

    /// Whether finishing a release pushes (default yes).
    pub fn release_finish_push(&self) -> (r: bool)
        ensures
            r == self.spec_release_finish_push(),
    {
        match &self.release {
            Some(release) => {
                match &release.finish {
                    Some(finish) => {
                        match finish.push {
                            Some(x) => x,
                            None => RELEASE_FINISH_PUSH,
                        }
                    },
                    None => RELEASE_FINISH_PUSH,
                }
            },
            None => RELEASE_FINISH_PUSH,
        }
    }

    /// Branch a release merges back into (default `main`).
    pub fn release_finish_backmerge_branch(&self) -> (r: String)
        ensures
            r@ == self.spec_release_finish_backmerge_branch(),
    {
        match &self.release {
            Some(release) => {
                match &release.finish {
                    Some(finish) => {
                        match &finish.backmerge_branch {
                            Some(s) => s.clone(),
                            None => owned(RELEASE_FINISH_BACKMERGE_BRANCH),
                        }
                    },
                    None => owned(RELEASE_FINISH_BACKMERGE_BRANCH),
                }
            },
            None => owned(RELEASE_FINISH_BACKMERGE_BRANCH),
        }
    }

    /// Whether the pre-commit hook is on (default no).
    pub fn hooks_pre_commit(&self) -> (r: bool)
        ensures
            r == self.spec_hooks_pre_commit(),
    {
        match &self.hooks {
            Some(hooks) => {
                match hooks.pre_commit {
                    Some(x) => x,
                    None => HOOKS_PRE_COMMIT,
                }
            },
            None => HOOKS_PRE_COMMIT,
        }
    }

    /// Whether the commit-msg hook is on (default no).
    pub fn hooks_commit_msg(&self) -> (r: bool)
        ensures
            r == self.spec_hooks_commit_msg(),
    {
        match &self.hooks {
            Some(hooks) => {
                match hooks.commit_msg {
                    Some(x) => x,
                    None => HOOKS_COMMIT_MSG,
                }
            },
            None => HOOKS_COMMIT_MSG,
        }
    }

    /// Whether the pre-push hook is on (default no).
    pub fn hooks_pre_push(&self) -> (r: bool)
        ensures
            r == self.spec_hooks_pre_push(),
    {
        match &self.hooks {
            Some(hooks) => {
                match hooks.pre_push {
                    Some(x) => x,
                    None => HOOKS_PRE_PUSH,
                }
            },
            None => HOOKS_PRE_PUSH,
        }
    }

    /// Whether AI assistance is on (default no).
    pub fn ai_enabled(&self) -> (r: bool)
        ensures
            r == self.spec_ai_enabled(),
    {
        match &self.ai {
            Some(ai) => {
                match ai.enabled {
                    Some(x) => x,
                    None => AI_ENABLED,
                }
            },
            None => AI_ENABLED,
        }
    }

    /// Whether AI commit messages are on (default no).
    pub fn ai_commit_enabled(&self) -> (r: bool)
        ensures
            r == self.spec_ai_commit_enabled(),
    {
        match &self.ai {
            Some(ai) => {
                match &ai.commands {
                    Some(commands) => {
                        match commands.commit {
                            Some(x) => x,
                            None => AI_COMMAND_COMMIT,
                        }
                    },
                    None => AI_COMMAND_COMMIT,
                }
            },
            None => AI_COMMAND_COMMIT,
        }
    }

    /// Whether AI changelogs are on (default no).
    pub fn ai_changelog_enabled(&self) -> (r: bool)
        ensures
            r == self.spec_ai_changelog_enabled(),
    {
        match &self.ai {
            Some(ai) => {
                match &ai.commands {
                    Some(commands) => {
                        match commands.changelog {
                            Some(x) => x,
                            None => AI_COMMAND_CHANGELOG,
                        }
                    },
                    None => AI_COMMAND_CHANGELOG,
                }
            },
            None => AI_COMMAND_CHANGELOG,
        }
    }

    /// Whether AI release preparation is on (default no).
    pub fn ai_release_prepare_enabled(&self) -> (r: bool)
        ensures
            r == self.spec_ai_release_prepare_enabled(),
    {
        match &self.ai {
            Some(ai) => {
                match &ai.commands {
                    Some(commands) => {
                        match commands.release_prepare {
                            Some(x) => x,
                            None => AI_COMMAND_RELEASE_PREPARE,
                        }
                    },
                    None => AI_COMMAND_RELEASE_PREPARE,
                }
            },
            None => AI_COMMAND_RELEASE_PREPARE,
        }
    }

    /// Where the breaking-change emoji goes (default prepend).
    pub fn commit_breaking_emoji_mode(&self) -> (r: EmojiMode)
        ensures
            r == self.spec_commit_breaking_emoji_mode(),
    {
        match &self.commit {
            Some(c) => match &c.breaking {
                Some(b) => match b.emoji_mode {
                    Some(m) => m,
                    None => EmojiMode::default(),
                },
                None => EmojiMode::default(),
            },
            None => EmojiMode::default(),
        }
    }

    /// Whether branch names are enforced: never, whatever the settings say.
    pub fn branch_naming_enforce(&self) -> (r: bool)
        ensures
            r == BRANCH_NAMING_ENFORCE,
    {
        BRANCH_NAMING_ENFORCE
    }

    /// Allowed pull-request targets: none, whatever the settings say.
    pub fn branch_allowed_targets(&self) -> (r: Vec<String>)
        ensures
            r@.len() == 0,
    {
        Vec::new()
    }

    /// The changelog section table (empty when unset).
    pub fn changelog_sections(&self) -> (r: Vec<(String, ChangelogSectionConfig)>)
        ensures
            r@ == self.spec_changelog_sections(),
    {
        match &self.changelog {
            Some(c) => match &c.sections {
                Some(s) => copy_section_table(s),
                None => Vec::new(),
            },
            None => Vec::new(),
        }
    }

    /// The AI provider: Copilot, whatever the settings name.
    pub fn ai_provider(&self) -> (r: AiProvider)
        ensures
            r == AiProvider::Copilot,
    {
        match &self.ai {
            Some(a) => match &a.provider {
                Some(p) => AiProvider::from_str(p.as_str()),
                None => AI_PROVIDER,
            },
            None => AI_PROVIDER,
        }
    }

    /// The registry the project uses, unless unset or blank.
    pub fn registry_use(&self) -> (r: Option<String>)
        ensures
            opt_view(r) == self.spec_registry_use(),
    {
        match &self.registry {
            Some(g) => match &g.use_registry {
                Some(s) => {
                    let v = str_to_chars(s.as_str());
                    let (a, b) = trim_bounds(&v);
                    if a < b {
                        Some(s.clone())
                    } else {
                        None
                    }
                },
                None => None,
            },
            None => None,
        }
    }

    /// The named registries (none when unset).
    pub fn registries_map(&self) -> (r: Vec<(String, NamedRegistryConfig)>)
        ensures
            match self.registries {
                Some(m) => same_registries(r@, m@),
                None => r@.len() == 0,
            },
    {
        match &self.registries {
            Some(m) => copy_registry_table(m),
            None => Vec::new(),
        }
    }
}

// ---------------------------------------------------------------------------
// Laws of merging
// ---------------------------------------------------------------------------
/// Merging over an empty settings file keeps the settings.
pub proof fn lemma_merge_empty_low(c: BaseConfig, e: BaseConfig)
    requires
        is_empty_config(e),
    ensures
        merged(c, e) == c,
{
}

/// Merging an empty settings file over others keeps the others.
pub proof fn lemma_merge_empty_high(e: BaseConfig, c: BaseConfig)
    requires
        is_empty_config(e),
    ensures
        merged(e, c) == c,
{
}

/// Merging settings over themselves changes nothing.
pub proof fn lemma_merge_idempotent(c: BaseConfig)
    ensures
        merged(c, c) == c,
{
}

/// Merging is associative: layering `a` over `b` and the result over `c` is
/// layering `a` over `b` layered over `c`.
pub proof fn lemma_merge_associative(a: BaseConfig, b: BaseConfig, c: BaseConfig)
    ensures
        merged(merged(a, b), c) == merged(a, merged(b, c)),
{
}

/// A setting of the higher layer survives a merge even where the lower layer
/// sets the same commit section: the subject limit comes from the higher
/// layer, the commit types fall through from the lower one when the higher
/// sets none.
pub proof fn lemma_merge_commit_settings(a: BaseConfig, b: BaseConfig)
    requires
        a.commit matches Some(ca) && ca.subject_max_length is Some && ca.types is None,
        b.commit matches Some(cb) && cb.types is Some,
    ensures
        merged(a, b).commit.unwrap().subject_max_length == a.commit.unwrap().subject_max_length,
        merged(a, b).commit.unwrap().types == b.commit.unwrap().types,
{
}


/// The standard preset spells the defaults out: every setting reads from it
/// as from the empty settings file, but for the commit type and changelog
/// section tables, which it writes out, and the breaking-footer keys, of which
/// it lists only the primary one.
pub proof fn lemma_standard_reads_as_defaults(s: BaseConfig, e: BaseConfig)
    requires
        is_standard_preset(s),
        s.registry is None,
        is_empty_config(e),
    ensures
        s.spec_commit_types_table() matches Some(t) && is_default_commit_types(t),
        e.spec_commit_types_table() is None,
        s.spec_changelog_sections() == e.spec_changelog_sections(),
        s.spec_commit_breaking_footer_keys_normalized() == seq![COMMIT_BREAKING_FOOTER_KEY@],
        s.spec_commit_subject_max_length() == e.spec_commit_subject_max_length(),
        s.spec_commit_use_emojis() == e.spec_commit_use_emojis(),
        s.spec_commit_scopes_mode() == e.spec_commit_scopes_mode(),
        s.spec_commit_scope_restrict_to_defined() == e.spec_commit_scope_restrict_to_defined(),
        s.spec_commit_breaking_require_header() == e.spec_commit_breaking_require_header(),
        s.spec_commit_breaking_require_footer() == e.spec_commit_breaking_require_footer(),
        s.spec_commit_breaking_footer_key() == e.spec_commit_breaking_footer_key(),
        s.spec_commit_breaking_emoji() == e.spec_commit_breaking_emoji(),
        s.spec_commit_ticket_required() == e.spec_commit_ticket_required(),
        s.spec_commit_ticket_pattern() == e.spec_commit_ticket_pattern(),
        s.spec_commit_ticket_source() == e.spec_commit_ticket_source(),
        s.spec_commit_protected_allow() == e.spec_commit_protected_allow(),
        s.spec_commit_protected_force() == e.spec_commit_protected_force(),
        s.spec_commit_protected_warn() == e.spec_commit_protected_warn(),
        s.spec_branch_remote() == e.spec_branch_remote(),
        s.spec_branch_protected_patterns() == e.spec_branch_protected_patterns(),
        s.spec_branch_naming_pattern() == e.spec_branch_naming_pattern(),
        s.spec_pr_enabled() == e.spec_pr_enabled(),
        s.spec_check_require_conventional() == e.spec_check_require_conventional(),
        s.spec_check_commits_enabled() == e.spec_check_commits_enabled(),
        s.spec_check_commits_enforce_on() == e.spec_check_commits_enforce_on(),
        s.spec_push_allow_protected() == e.spec_push_allow_protected(),
        s.spec_push_allow_force() == e.spec_push_allow_force(),
        s.spec_push_check_commits() == e.spec_push_check_commits(),
        s.spec_push_check_branch_policy() == e.spec_push_check_branch_policy(),
        s.spec_versioning_tag_prefix() == e.spec_versioning_tag_prefix(),
        s.spec_changelog_output() == e.spec_changelog_output(),
        s.spec_changelog_format() == e.spec_changelog_format(),
        s.spec_changelog_group_by() == e.spec_changelog_group_by(),
        s.spec_changelog_section_order() == e.spec_changelog_section_order(),
        s.spec_changelog_scope_order() == e.spec_changelog_scope_order(),
        s.spec_changelog_show_scope() == e.spec_changelog_show_scope(),
        s.spec_changelog_show_empty_sections() == e.spec_changelog_show_empty_sections(),
        s.spec_changelog_show_empty_scopes() == e.spec_changelog_show_empty_scopes(),
        s.spec_changelog_misc_section() == e.spec_changelog_misc_section(),
        s.spec_changelog_header_use() == e.spec_changelog_header_use(),
        s.spec_changelog_header_title() == e.spec_changelog_header_title(),
        s.spec_changelog_header_description() == e.spec_changelog_header_description(),
        s.spec_changelog_unreleased_label() == e.spec_changelog_unreleased_label(),
        s.spec_changelog_date_format() == e.spec_changelog_date_format(),
        s.spec_release_enabled() == e.spec_release_enabled(),
        s.spec_release_source_branch() == e.spec_release_source_branch(),
        s.spec_release_target_branch() == e.spec_release_target_branch(),
        s.spec_release_branch_format() == e.spec_release_branch_format(),
        s.spec_release_hotfix_pattern() == e.spec_release_hotfix_pattern(),
        s.spec_release_require_clean_worktree() == e.spec_release_require_clean_worktree(),
        s.spec_release_fail_if_tag_exists() == e.spec_release_fail_if_tag_exists(),
        s.spec_release_fail_if_release_branch_exists() == e.spec_release_fail_if_release_branch_exists(),
        s.spec_release_finish_tag() == e.spec_release_finish_tag(),
        s.spec_release_finish_push() == e.spec_release_finish_push(),
        s.spec_release_finish_backmerge_branch() == e.spec_release_finish_backmerge_branch(),
        s.spec_hooks_pre_commit() == e.spec_hooks_pre_commit(),
        s.spec_hooks_commit_msg() == e.spec_hooks_commit_msg(),
        s.spec_hooks_pre_push() == e.spec_hooks_pre_push(),
        s.spec_ai_enabled() == e.spec_ai_enabled(),
        s.spec_ai_commit_enabled() == e.spec_ai_commit_enabled(),
        s.spec_ai_changelog_enabled() == e.spec_ai_changelog_enabled(),
        s.spec_ai_release_prepare_enabled() == e.spec_ai_release_prepare_enabled(),
        s.spec_commit_scope_allowed() == e.spec_commit_scope_allowed(),
        s.spec_commit_breaking_emoji_mode() == e.spec_commit_breaking_emoji_mode(),
        s.spec_registry_use() == e.spec_registry_use(),
{
    reveal_strlit("BREAKING CHANGE");
}

/// The full preset reads as the standard one: it adds only an empty
/// registry choice and an empty registry table, and a blank registry name
/// reads as none.
pub proof fn lemma_full_reads_as_standard(f: BaseConfig, s: BaseConfig)
    requires
        is_standard_preset(f),
        f.registry matches Some(g) && opt_view(g.use_registry) == Some(Seq::<char>::empty())
            && g.section is None,
        is_standard_preset(s),
        s.registry is None,
    ensures
        f.spec_commit_subject_max_length() == s.spec_commit_subject_max_length(),
        f.spec_commit_use_emojis() == s.spec_commit_use_emojis(),
        f.spec_commit_scopes_mode() == s.spec_commit_scopes_mode(),
        f.spec_commit_scope_restrict_to_defined() == s.spec_commit_scope_restrict_to_defined(),
        f.spec_commit_breaking_require_header() == s.spec_commit_breaking_require_header(),
        f.spec_commit_breaking_require_footer() == s.spec_commit_breaking_require_footer(),
        f.spec_commit_breaking_footer_key() == s.spec_commit_breaking_footer_key(),
        f.spec_commit_breaking_emoji() == s.spec_commit_breaking_emoji(),
        f.spec_commit_ticket_required() == s.spec_commit_ticket_required(),
        f.spec_commit_ticket_pattern() == s.spec_commit_ticket_pattern(),
        f.spec_commit_ticket_source() == s.spec_commit_ticket_source(),
        f.spec_commit_protected_allow() == s.spec_commit_protected_allow(),
        f.spec_commit_protected_force() == s.spec_commit_protected_force(),
        f.spec_commit_protected_warn() == s.spec_commit_protected_warn(),
        f.spec_branch_remote() == s.spec_branch_remote(),
        f.spec_branch_protected_patterns() == s.spec_branch_protected_patterns(),
        f.spec_branch_naming_pattern() == s.spec_branch_naming_pattern(),
        f.spec_pr_enabled() == s.spec_pr_enabled(),
        f.spec_check_require_conventional() == s.spec_check_require_conventional(),
        f.spec_check_commits_enabled() == s.spec_check_commits_enabled(),
        f.spec_check_commits_enforce_on() == s.spec_check_commits_enforce_on(),
        f.spec_push_allow_protected() == s.spec_push_allow_protected(),
        f.spec_push_allow_force() == s.spec_push_allow_force(),
        f.spec_push_check_commits() == s.spec_push_check_commits(),
        f.spec_push_check_branch_policy() == s.spec_push_check_branch_policy(),
        f.spec_versioning_tag_prefix() == s.spec_versioning_tag_prefix(),
        f.spec_changelog_output() == s.spec_changelog_output(),
        f.spec_changelog_format() == s.spec_changelog_format(),
        f.spec_changelog_group_by() == s.spec_changelog_group_by(),
        f.spec_changelog_section_order() == s.spec_changelog_section_order(),
        f.spec_changelog_scope_order() == s.spec_changelog_scope_order(),
        f.spec_changelog_show_scope() == s.spec_changelog_show_scope(),
        f.spec_changelog_show_empty_sections() == s.spec_changelog_show_empty_sections(),
        f.spec_changelog_show_empty_scopes() == s.spec_changelog_show_empty_scopes(),
        f.spec_changelog_misc_section() == s.spec_changelog_misc_section(),
        f.spec_changelog_header_use() == s.spec_changelog_header_use(),
        f.spec_changelog_header_title() == s.spec_changelog_header_title(),
        f.spec_changelog_header_description() == s.spec_changelog_header_description(),
        f.spec_changelog_unreleased_label() == s.spec_changelog_unreleased_label(),
        f.spec_changelog_date_format() == s.spec_changelog_date_format(),
        f.spec_release_enabled() == s.spec_release_enabled(),
        f.spec_release_source_branch() == s.spec_release_source_branch(),
        f.spec_release_target_branch() == s.spec_release_target_branch(),
        f.spec_release_branch_format() == s.spec_release_branch_format(),
        f.spec_release_hotfix_pattern() == s.spec_release_hotfix_pattern(),
        f.spec_release_require_clean_worktree() == s.spec_release_require_clean_worktree(),
        f.spec_release_fail_if_tag_exists() == s.spec_release_fail_if_tag_exists(),
        f.spec_release_fail_if_release_branch_exists() == s.spec_release_fail_if_release_branch_exists(),
        f.spec_release_finish_tag() == s.spec_release_finish_tag(),
        f.spec_release_finish_push() == s.spec_release_finish_push(),
        f.spec_release_finish_backmerge_branch() == s.spec_release_finish_backmerge_branch(),
        f.spec_hooks_pre_commit() == s.spec_hooks_pre_commit(),
        f.spec_hooks_commit_msg() == s.spec_hooks_commit_msg(),
        f.spec_hooks_pre_push() == s.spec_hooks_pre_push(),
        f.spec_ai_enabled() == s.spec_ai_enabled(),
        f.spec_ai_commit_enabled() == s.spec_ai_commit_enabled(),
        f.spec_ai_changelog_enabled() == s.spec_ai_changelog_enabled(),
        f.spec_ai_release_prepare_enabled() == s.spec_ai_release_prepare_enabled(),
        f.spec_commit_types_table() matches Some(t) && is_default_commit_types(t),
        s.spec_commit_types_table() matches Some(t) && is_default_commit_types(t),
        f.spec_commit_scope_allowed() == s.spec_commit_scope_allowed(),
        f.spec_commit_breaking_footer_keys_normalized() == s.spec_commit_breaking_footer_keys_normalized(),
        f.spec_commit_breaking_emoji_mode() == s.spec_commit_breaking_emoji_mode(),
        f.spec_changelog_sections() == s.spec_changelog_sections(),
        f.spec_registry_use() == s.spec_registry_use(),
{
}

/// The full preset holds the standard preset's ten sections, setting for
/// setting: every section is set in both, and the two agree on every value.
pub proof fn lemma_full_sections_are_standard(f: BaseConfig, s: BaseConfig)
    requires
        is_standard_preset(f),
        is_standard_preset(s),
    ensures
        crate::config::types::same_sections(f, s),
        f.commit is Some && f.branch is Some && f.pr is Some && f.check is Some && f.push is Some,
        f.versioning is Some && f.changelog is Some && f.release is Some && f.hooks is Some
            && f.ai is Some,
{
    let fl = f.changelog.unwrap().layout.unwrap();
    let sl = s.changelog.unwrap().layout.unwrap();
    assert(texts(fl.scope_order.unwrap()@) =~= texts(sl.scope_order.unwrap()@));
}

} // verus!
