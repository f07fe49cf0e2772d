//! The environment layer: settings given by `CW_*` environment variables.
//! It sits between the command line and the project file; only the settings
//! whose variable is set are filled in, so lower layers still apply.
//!
//! The variables are read by the caller into `EnvVars` (an unset variable is
//! `None`); this module decides what they mean.
use vstd::prelude::*;

use crate::check::{opt_view, texts};
use crate::config::types::{
    BaseConfig, BranchConfig, BranchNamingConfig, CheckCommitsConfig, CheckConfig, CommitConfig,
    CommitScopesConfig, PrBranchConfig, PrConfig, PrTitleConfig, PushAllowConfig,
    PushCheckConfig, PushConfig, TicketConfig, VersioningConfig,
};
use crate::enforcement::{CommitEnforcementScope, ScopeMode, TicketSource};
use crate::text::{
    chars_eq, parse_u32, parse_u32_spec, split_chars, split_on, str_to_chars, trim, trim_bounds,
};

verus! {

/// The values of the environment variables the tool reads.
#[derive(Debug, Clone)]
pub struct EnvVars {
    pub allow_env_override: Option<String>,
    pub commit_subject_max_length: Option<String>,
    pub commit_scopes_mode: Option<String>,
    pub commit_scopes_restrict_to_defined: Option<String>,
    pub commit_ticket_required: Option<String>,
    pub commit_ticket_pattern: Option<String>,
    pub commit_ticket_source: Option<String>,
    pub branch_remote: Option<String>,
    pub branch_protected: Option<String>,
    pub branch_naming_pattern: Option<String>,
    pub pr_title_require_conventional: Option<String>,
    pub pr_title_require_ticket: Option<String>,
    pub pr_title_scope_mode: Option<String>,
    pub pr_branch_source_pattern: Option<String>,
    pub pr_branch_target_allowed: Option<String>,
    pub check_require_conventional: Option<String>,
    pub check_commits_enabled: Option<String>,
    pub check_commits_enforce_on: Option<String>,
    pub push_allow_protected: Option<String>,
    pub push_allow_force: Option<String>,
    pub push_check_commits: Option<String>,
    pub push_check_branch_policy: Option<String>,
    pub versioning_tag_prefix: Option<String>,
    pub registry_url: Option<String>,
    pub registry_ref: Option<String>,
    pub registry_section: Option<String>,
}

impl Default for EnvVars {
    /// No variable set.
    fn default() -> (r: Self)
        ensures
            r.allow_env_override is None,
            r.commit_subject_max_length is None,
            r.commit_scopes_mode is None,
            r.commit_scopes_restrict_to_defined is None,
            r.commit_ticket_required is None,
            r.commit_ticket_pattern is None,
            r.commit_ticket_source is None,
            r.branch_remote is None,
            r.branch_protected is None,
            r.branch_naming_pattern is None,
            r.pr_title_require_conventional is None,
            r.pr_title_require_ticket is None,
            r.pr_title_scope_mode is None,
            r.pr_branch_source_pattern is None,
            r.pr_branch_target_allowed is None,
            r.check_require_conventional is None,
            r.check_commits_enabled is None,
            r.check_commits_enforce_on is None,
            r.push_allow_protected is None,
            r.push_allow_force is None,
            r.push_check_commits is None,
            r.push_check_branch_policy is None,
            r.versioning_tag_prefix is None,
            r.registry_url is None,
            r.registry_ref is None,
            r.registry_section is None,
    {
        EnvVars {
            allow_env_override: None,
            commit_subject_max_length: None,
            commit_scopes_mode: None,
            commit_scopes_restrict_to_defined: None,
            commit_ticket_required: None,
            commit_ticket_pattern: None,
            commit_ticket_source: None,
            branch_remote: None,
            branch_protected: None,
            branch_naming_pattern: None,
            pr_title_require_conventional: None,
            pr_title_require_ticket: None,
            pr_title_scope_mode: None,
            pr_branch_source_pattern: None,
            pr_branch_target_allowed: None,
            check_require_conventional: None,
            check_commits_enabled: None,
            check_commits_enforce_on: None,
            push_allow_protected: None,
            push_allow_force: None,
            push_check_commits: None,
            push_check_branch_policy: None,
            versioning_tag_prefix: None,
            registry_url: None,
            registry_ref: None,
            registry_section: None,
        }
    }
}


// ---------------------------------------------------------------------------
// Reading one variable
// ---------------------------------------------------------------------------
/// ASCII upper case to lower case; other characters unchanged.
pub open spec fn lower_char(c: char) -> char {
    if 'A' <= c <= 'Z' {
        ((c as u8) + 32) as char
    } else {
        c
    }
}

/// A text in lower case. For the ASCII words compared below this gives the
/// same answer as Unicode lower-casing.
pub open spec fn lower(s: Seq<char>) -> Seq<char> {
    s.map_values(|c: char| lower_char(c))
}

/// A variable's value when it is set and not empty.
pub open spec fn env_str(o: Option<String>) -> Option<Seq<char>> {
    match o {
        Some(s) => if s@.len() > 0 {
            Some(s@)
        } else {
            None
        },
        None => None,
    }
}

/// A boolean word: true, 1, yes, on / false, 0, no, off, in any case.
pub open spec fn bool_word(s: Seq<char>) -> Option<bool> {
    let l = lower(s);
    if l == "true"@ || l == "1"@ || l == "yes"@ || l == "on"@ {
        Some(true)
    } else if l == "false"@ || l == "0"@ || l == "no"@ || l == "off"@ {
        Some(false)
    } else {
        None
    }
}

/// Whether a text, in lower case, is one of the words for false.
pub open spec fn false_word(s: Seq<char>) -> bool {
    let l = lower(s);
    l == "false"@ || l == "0"@ || l == "no"@ || l == "off"@
}

/// Whether a text, in lower case, is one of the words for true.
pub open spec fn true_word(s: Seq<char>) -> bool {
    let l = lower(s);
    l == "true"@ || l == "1"@ || l == "yes"@ || l == "on"@
}

/// The boolean words read as what they say, in any case: `false`, `0`, `no`
/// and `off` as false, `true`, `1`, `yes` and `on` as true, and nothing else
/// as a boolean.
pub proof fn lemma_bool_words(s: Seq<char>)
    ensures
        false_word(s) ==> bool_word(s) == Some(false),
        true_word(s) ==> bool_word(s) == Some(true),
        !false_word(s) && !true_word(s) ==> bool_word(s) is None,
{
    reveal_strlit("false");
    reveal_strlit("0");
    reveal_strlit("no");
    reveal_strlit("off");
    reveal_strlit("true");
    reveal_strlit("1");
    reveal_strlit("yes");
    reveal_strlit("on");
    let l = lower(s);
    if false_word(s) {
        assert(l != "true"@ && l != "1"@ && l != "yes"@ && l != "on"@) by {
            if l == "false"@ {
                assert(l.len() == 5);
            } else if l == "0"@ {
                assert(l[0] == '0');
            } else if l == "no"@ {
                assert(l.len() == 2 && l[0] == 'n');
            } else {
                assert(l.len() == 3 && l[0] == 'o');
            }
        }
    }
}

/// A scope mode word: disabled, optional, required, in any case.
pub open spec fn scope_word(s: Seq<char>) -> Option<ScopeMode> {
    let l = lower(s);
    if l == "disabled"@ {
        Some(ScopeMode::Disabled)
    } else if l == "optional"@ {
        Some(ScopeMode::Optional)
    } else if l == "required"@ {
        Some(ScopeMode::Required)
    } else {
        None
    }
}

/// A ticket source word: branch, prompt, branch_or_prompt, disabled.
pub open spec fn ticket_word(s: Seq<char>) -> Option<TicketSource> {
    let l = lower(s);
    if l == "branch"@ {
        Some(TicketSource::Branch)
    } else if l == "prompt"@ {
        Some(TicketSource::Prompt)
    } else if l == "branch_or_prompt"@ {
        Some(TicketSource::BranchOrPrompt)
    } else if l == "disabled"@ {
        Some(TicketSource::Disabled)
    } else {
        None
    }
}

/// An enforcement word: all_branches or all, protected_branches or
/// protected, none.
pub open spec fn enforcement_word(s: Seq<char>) -> Option<CommitEnforcementScope> {
    let l = lower(s);
    if l == "all_branches"@ || l == "all"@ {
        Some(CommitEnforcementScope::AllBranches)
    } else if l == "protected_branches"@ || l == "protected"@ {
        Some(CommitEnforcementScope::ProtectedBranches)
    } else if l == "none"@ {
        Some(CommitEnforcementScope::NoBranches)
    } else {
        None
    }
}

/// The trimmed, non-empty items of a comma-separated list.
pub open spec fn list_items(parts: Seq<Seq<char>>) -> Seq<Seq<char>>
    decreases parts.len(),
{
    if parts.len() == 0 {
        Seq::empty()
    } else {
        let r = list_items(parts.drop_last());
        let t = trim(parts.last());
        if t.len() > 0 {
            r.push(t)
        } else {
            r
        }
    }
}

/// A set variable read through `f`.
pub open spec fn env_with<T>(o: Option<String>, f: spec_fn(Seq<char>) -> Option<T>) -> Option<T> {
    match env_str(o) {
        Some(s) => f(s),
        None => None,
    }
}

/// A boolean variable.
pub open spec fn env_bool(o: Option<String>) -> Option<bool> {
    env_with(o, |s: Seq<char>| bool_word(s))
}

/// An unsigned variable.
pub open spec fn env_u32(o: Option<String>) -> Option<u32> {
    env_with(o, |s: Seq<char>| parse_u32_spec(s))
}

/// A list variable.
pub open spec fn env_list(o: Option<String>) -> Option<Seq<Seq<char>>> {
    match env_str(o) {
        Some(s) => Some(list_items(split_on(s, ','))),
        None => None,
    }
}

/// The texts of an optional list.
pub open spec fn opt_texts(o: Option<Vec<String>>) -> Option<Seq<Seq<char>>> {
    match o {
        Some(v) => Some(texts(v@)),
        None => None,
    }
}

/// A copy of a lower-cased text.
fn lowered(s: &str) -> (r: Vec<char>)
    ensures
        r@ == lower(s@),
{
    let v = str_to_chars(s);
    let mut r: Vec<char> = Vec::new();
    let mut i: usize = 0;
    while i < v.len()
        invariant
            0 <= i <= v@.len(),
            v@ == s@,
            r@ == lower(v@.take(i as int)),
        decreases v@.len() - i,
    {
        let c = v[i];
        let l = if 'A' <= c && c <= 'Z' {
            ((c as u8) + 32) as char
        } else {
            c
        };
        r.push(l);
        i = i + 1;
        assert(r@ =~= lower(v@.take(i as int)));
    }
    assert(v@.take(i as int) =~= v@);
    r
}

/// Whether a lower-cased text is the given word.
fn is_word(l: &Vec<char>, w: &str) -> (r: bool)
    ensures
        r == (l@ == w@),
{
    let wv = str_to_chars(w);
    chars_eq(l, &wv)
}

/// A variable's value when it is set and not empty.
fn get_string(v: &Option<String>) -> (r: Option<String>)
    ensures
        opt_view(r) == env_str(*v),
{
    match v {
        Some(s) => if s.as_str().is_empty() {
            None
        } else {
            Some(s.clone())
        },
        None => None,
    }
}

/// A boolean word (true/1/yes/on, false/0/no/off, in any case).
pub fn parse_bool_val(val: &str, key: &str) -> (r: Option<bool>)
    ensures
        r == bool_word(val@),
        false_word(val@) ==> r == Some(false),
        true_word(val@) ==> r == Some(true),
        !false_word(val@) && !true_word(val@) ==> r is None,
{
    proof {
        lemma_bool_words(val@);
    }
    let l = lowered(val);
    if is_word(&l, "true") || is_word(&l, "1") || is_word(&l, "yes") || is_word(&l, "on") {
        Some(true)
    } else if is_word(&l, "false") || is_word(&l, "0") || is_word(&l, "no") || is_word(&l, "off") {
        Some(false)
    } else {
        None
    }
}

/// A scope mode word.
pub fn parse_scope_mode(val: &str, key: &str) -> (r: Option<ScopeMode>)
    ensures
        r == scope_word(val@),
{
    let l = lowered(val);
    if is_word(&l, "disabled") {
        Some(ScopeMode::Disabled)
    } else if is_word(&l, "optional") {
        Some(ScopeMode::Optional)
    } else if is_word(&l, "required") {
        Some(ScopeMode::Required)
    } else {
        None
    }
}

/// A ticket source word.
pub fn parse_ticket_source(val: &str, key: &str) -> (r: Option<TicketSource>)
    ensures
        r == ticket_word(val@),
{
    let l = lowered(val);
    if is_word(&l, "branch") {
        Some(TicketSource::Branch)
    } else if is_word(&l, "prompt") {
        Some(TicketSource::Prompt)
    } else if is_word(&l, "branch_or_prompt") {
        Some(TicketSource::BranchOrPrompt)
    } else if is_word(&l, "disabled") {
        Some(TicketSource::Disabled)
    } else {
        None
    }
}

/// An enforcement word.
pub fn parse_enforcement_scope(val: &str, key: &str) -> (r: Option<CommitEnforcementScope>)
    ensures
        r == enforcement_word(val@),
{
    let l = lowered(val);
    if is_word(&l, "all_branches") || is_word(&l, "all") {
        Some(CommitEnforcementScope::AllBranches)
    } else if is_word(&l, "protected_branches") || is_word(&l, "protected") {
        Some(CommitEnforcementScope::ProtectedBranches)
    } else if is_word(&l, "none") {
        Some(CommitEnforcementScope::NoBranches)
    } else {
        None
    }
}

/// A boolean variable.
fn get_bool(v: &Option<String>) -> (r: Option<bool>)
    ensures
        r == env_bool(*v),
{
    match get_string(v) {
        Some(s) => parse_bool_val(s.as_str(), ""),
        None => None,
    }
}

/// An unsigned variable.
pub fn get_u32(v: &Option<String>) -> (r: Option<u32>)
    ensures
        r == env_u32(*v),
{
    match get_string(v) {
        Some(s) => {
            let c = str_to_chars(s.as_str());
            parse_u32(&c)
        },
        None => None,
    }
}

/// A comma-separated list variable: trimmed, empty items dropped.
pub fn get_list(v: &Option<String>) -> (r: Option<Vec<String>>)
    ensures
        opt_texts(r) == env_list(*v),
{
    match get_string(v) {
        Some(s) => {
            let c = str_to_chars(s.as_str());
            let parts = split_chars(&c, ',');
            let ghost ps = parts@.map_values(|x: String| x@);
            let mut items: Vec<String> = Vec::new();
            let mut i: usize = 0;
            while i < parts.len()
                invariant
                    0 <= i <= parts@.len(),
                    ps == parts@.map_values(|x: String| x@),
                    texts(items@) == list_items(ps.take(i as int)),
                decreases parts@.len() - i,
            {
                let pc = str_to_chars(parts[i].as_str());
                let (a, b) = trim_bounds(&pc);
                assert(ps.take(i + 1).drop_last() =~= ps.take(i as int));
                assert(ps.take(i + 1).last() == parts@[i as int]@);
                if a < b {
                    let t = crate::text::chars_to_string(&pc, a, b);
                    let ghost before = texts(items@);
                    items.push(t);
                    assert(texts(items@) =~= before.push(t@));
                }
                i = i + 1;
            }
            assert(ps.take(i as int) =~= ps);
            Some(items)
        },
        None => None,
    }
}

/// A scope mode variable.
fn get_scope_mode(v: &Option<String>) -> (r: Option<ScopeMode>)
    ensures
        r == env_with(*v, |s: Seq<char>| scope_word(s)),
{
    match get_string(v) {
        Some(s) => parse_scope_mode(s.as_str(), ""),
        None => None,
    }
}

// ---------------------------------------------------------------------------
// Sections
// ---------------------------------------------------------------------------
/// The commit section of the environment.
pub open spec fn commit_from_env(r: Option<CommitConfig>, v: EnvVars) -> bool {
    let len = env_u32(v.commit_subject_max_length);
    let mode = env_with(v.commit_scopes_mode, |s: Seq<char>| scope_word(s));
    let restrict = env_bool(v.commit_scopes_restrict_to_defined);
    let required = env_bool(v.commit_ticket_required);
    let pattern = env_str(v.commit_ticket_pattern);
    let source = env_with(v.commit_ticket_source, |s: Seq<char>| ticket_word(s));
    let has_scopes = mode is Some || restrict is Some;
    let has_ticket = required is Some || pattern is Some || source is Some;
    if len is Some || has_scopes || has_ticket {
        &&& r matches Some(c)
        &&& c.subject_max_length == len
        &&& c.use_emojis is None && c.types is None && c.breaking is None && c.protected is None
        &&& if has_scopes {
            c.scopes matches Some(s) && s.mode == mode && s.restrict_to_defined == restrict
                && s.definitions is None
        } else {
            c.scopes is None
        }
        &&& if has_ticket {
            c.ticket matches Some(t) && t.required == required && opt_view(t.pattern) == pattern
                && t.source == source && t.header_format is None
        } else {
            c.ticket is None
        }
    } else {
        r is None
    }
}

fn build_commit(v: &EnvVars) -> (r: Option<CommitConfig>)
    ensures
        commit_from_env(r, *v),
{
    let subject_max_length = get_u32(&v.commit_subject_max_length);
    let mode = get_scope_mode(&v.commit_scopes_mode);
    let restrict_to_defined = get_bool(&v.commit_scopes_restrict_to_defined);
    let scopes = if mode.is_some() || restrict_to_defined.is_some() {
        Some(CommitScopesConfig { mode, restrict_to_defined, definitions: None })
    } else {
        None
    };
    let required = get_bool(&v.commit_ticket_required);
    let pattern = get_string(&v.commit_ticket_pattern);
    let source = match get_string(&v.commit_ticket_source) {
        Some(s) => parse_ticket_source(s.as_str(), ""),
        None => None,
    };
    let ticket = if required.is_some() || pattern.is_some() || source.is_some() {
        Some(TicketConfig { required, pattern, source, header_format: None })
    } else {
        None
    };
    if subject_max_length.is_some() || scopes.is_some() || ticket.is_some() {
        Some(
            CommitConfig {
                subject_max_length,
                use_emojis: None,
                types: None,
                scopes,
                breaking: None,
                protected: None,
                ticket,
            },
        )
    } else {
        None
    }
}

/// The branch section of the environment.
pub open spec fn branch_from_env(r: Option<BranchConfig>, v: EnvVars) -> bool {
    let remote = env_str(v.branch_remote);
    let protected = env_list(v.branch_protected);
    let pattern = env_str(v.branch_naming_pattern);
    if remote is Some || protected is Some || pattern is Some {
        &&& r matches Some(b)
        &&& opt_view(b.remote) == remote
        &&& opt_texts(b.protected) == protected
        &&& match pattern {
            Some(p) => b.naming matches Some(n) && opt_view(n.pattern) == Some(p),
            None => b.naming is None,
        }
    } else {
        r is None
    }
}

fn build_branch(v: &EnvVars) -> (r: Option<BranchConfig>)
    ensures
        branch_from_env(r, *v),
{
    let remote = get_string(&v.branch_remote);
    let protected = get_list(&v.branch_protected);
    let naming = match get_string(&v.branch_naming_pattern) {
        Some(pattern) => Some(BranchNamingConfig { pattern: Some(pattern) }),
        None => None,
    };
    if remote.is_some() || protected.is_some() || naming.is_some() {
        Some(BranchConfig { remote, protected, naming })
    } else {
        None
    }
}

/// The pull-request section of the environment.
pub open spec fn pr_from_env(r: Option<PrConfig>, v: EnvVars) -> bool {
    let conv = env_bool(v.pr_title_require_conventional);
    let ticket = env_bool(v.pr_title_require_ticket);
    let mode = env_with(v.pr_title_scope_mode, |s: Seq<char>| scope_word(s));
    let source = env_str(v.pr_branch_source_pattern);
    let targets = env_list(v.pr_branch_target_allowed);
    let has_title = conv is Some || ticket is Some || mode is Some;
    let has_branch = source is Some || targets is Some;
    if has_title || has_branch {
        &&& r matches Some(p)
        &&& p.enabled is None
        &&& if has_title {
            p.title matches Some(t) && t.require_conventional == conv && t.require_ticket == ticket
                && t.scope_mode == mode
        } else {
            p.title is None
        }
        &&& if has_branch {
            p.branch matches Some(b) && b.check_source is None && b.check_target is None
                && opt_view(b.source_pattern) == source && opt_texts(b.target_allowed) == targets
        } else {
            p.branch is None
        }
    } else {
        r is None
    }
}

fn build_pr(v: &EnvVars) -> (r: Option<PrConfig>)
    ensures
        pr_from_env(r, *v),
{
    let require_conventional = get_bool(&v.pr_title_require_conventional);
    let require_ticket = get_bool(&v.pr_title_require_ticket);
    let scope_mode = get_scope_mode(&v.pr_title_scope_mode);
    let title = if require_conventional.is_some() || require_ticket.is_some()
        || scope_mode.is_some() {
        Some(PrTitleConfig { require_conventional, require_ticket, scope_mode })
    } else {
        None
    };
    let source_pattern = get_string(&v.pr_branch_source_pattern);
    let target_allowed = get_list(&v.pr_branch_target_allowed);
    let branch = if source_pattern.is_some() || target_allowed.is_some() {
        Some(
            PrBranchConfig {
                check_source: None,
                check_target: None,
                source_pattern,
                target_allowed,
            },
        )
    } else {
        None
    };
    if title.is_some() || branch.is_some() {
        Some(PrConfig { enabled: None, title, branch })
    } else {
        None
    }
}

/// The check section of the environment.
pub open spec fn check_from_env(r: Option<CheckConfig>, v: EnvVars) -> bool {
    let conv = env_bool(v.check_require_conventional);
    let enabled = env_bool(v.check_commits_enabled);
    let on = env_with(v.check_commits_enforce_on, |s: Seq<char>| enforcement_word(s));
    let has_commits = enabled is Some || on is Some;
    if conv is Some || has_commits {
        &&& r matches Some(c)
        &&& c.require_conventional == conv
        &&& if has_commits {
            c.commits matches Some(k) && k.enabled == enabled && k.enforce_on == on
        } else {
            c.commits is None
        }
    } else {
        r is None
    }
}

fn build_check(v: &EnvVars) -> (r: Option<CheckConfig>)
    ensures
        check_from_env(r, *v),
{
    let require_conventional = get_bool(&v.check_require_conventional);
    let enabled = get_bool(&v.check_commits_enabled);
    let enforce_on = match get_string(&v.check_commits_enforce_on) {
        Some(s) => parse_enforcement_scope(s.as_str(), ""),
        None => None,
    };
    let commits = if enabled.is_some() || enforce_on.is_some() {
        Some(CheckCommitsConfig { enabled, enforce_on })
    } else {
        None
    };
    if require_conventional.is_some() || commits.is_some() {
        Some(CheckConfig { require_conventional, commits })
    } else {
        None
    }
}

/// The push section of the environment.
pub open spec fn push_from_env(r: Option<PushConfig>, v: EnvVars) -> bool {
    let protected = env_bool(v.push_allow_protected);
    let force = env_bool(v.push_allow_force);
    let commits = env_bool(v.push_check_commits);
    let policy = env_bool(v.push_check_branch_policy);
    let has_allow = protected is Some || force is Some;
    let has_check = commits is Some || policy is Some;
    if has_allow || has_check {
        &&& r matches Some(p)
        &&& if has_allow {
            p.allow matches Some(a) && a.protected == protected && a.force == force
        } else {
            p.allow is None
        }
        &&& if has_check {
            p.check matches Some(c) && c.commits == commits && c.branch_policy == policy
        } else {
            p.check is None
        }
    } else {
        r is None
    }
}

fn build_push(v: &EnvVars) -> (r: Option<PushConfig>)
    ensures
        push_from_env(r, *v),
{
    let protected = get_bool(&v.push_allow_protected);
    let force = get_bool(&v.push_allow_force);
    let allow = if protected.is_some() || force.is_some() {
        Some(PushAllowConfig { protected, force })
    } else {
        None
    };
    let commits = get_bool(&v.push_check_commits);
    let branch_policy = get_bool(&v.push_check_branch_policy);
    let check = if commits.is_some() || branch_policy.is_some() {
        Some(PushCheckConfig { commits, branch_policy })
    } else {
        None
    };
    if allow.is_some() || check.is_some() {
        Some(PushConfig { allow, check })
    } else {
        None
    }
}

/// The versioning section of the environment.
pub open spec fn versioning_from_env(r: Option<VersioningConfig>, v: EnvVars) -> bool {
    match env_str(v.versioning_tag_prefix) {
        Some(p) => r matches Some(x) && opt_view(x.tag_prefix) == Some(p),
        None => r is None,
    }
}

fn build_versioning(v: &EnvVars) -> (r: Option<VersioningConfig>)
    ensures
        versioning_from_env(r, *v),
{
    match get_string(&v.versioning_tag_prefix) {
        Some(tag_prefix) => Some(VersioningConfig { tag_prefix: Some(tag_prefix) }),
        None => None,
    }
}

/// Some setting variable of the environment is set (and valid).
pub open spec fn env_sets_any(v: EnvVars) -> bool {
    ||| env_u32(v.commit_subject_max_length) is Some
    ||| env_with(v.commit_scopes_mode, |s: Seq<char>| scope_word(s)) is Some
    ||| env_bool(v.commit_scopes_restrict_to_defined) is Some
    ||| env_bool(v.commit_ticket_required) is Some
    ||| env_str(v.commit_ticket_pattern) is Some
    ||| env_with(v.commit_ticket_source, |s: Seq<char>| ticket_word(s)) is Some
    ||| env_str(v.branch_remote) is Some
    ||| env_list(v.branch_protected) is Some
    ||| env_str(v.branch_naming_pattern) is Some
    ||| env_bool(v.pr_title_require_conventional) is Some
    ||| env_bool(v.pr_title_require_ticket) is Some
    ||| env_with(v.pr_title_scope_mode, |s: Seq<char>| scope_word(s)) is Some
    ||| env_str(v.pr_branch_source_pattern) is Some
    ||| env_list(v.pr_branch_target_allowed) is Some
    ||| env_bool(v.check_require_conventional) is Some
    ||| env_bool(v.check_commits_enabled) is Some
    ||| env_with(v.check_commits_enforce_on, |s: Seq<char>| enforcement_word(s)) is Some
    ||| env_bool(v.push_allow_protected) is Some
    ||| env_bool(v.push_allow_force) is Some
    ||| env_bool(v.push_check_commits) is Some
    ||| env_bool(v.push_check_branch_policy) is Some
    ||| env_str(v.versioning_tag_prefix) is Some
}

/// The environment layer is switched off by `CW_ALLOW_ENV_OVERRIDE` set to a
/// false word.
pub open spec fn env_disabled(v: EnvVars) -> bool {
    match env_str(v.allow_env_override) {
        Some(s) => bool_word(s) == Some(false),
        None => false,
    }
}

/// The settings the environment gives: none when the layer is switched off
/// or no setting variable is set; else the commit, branch, pull-request,
/// check, push and versioning sections built from the variables.
pub fn build_env_config(vars: &EnvVars) -> (r: Option<BaseConfig>)
    ensures
        env_disabled(*vars) ==> r is None,
        (vars.allow_env_override matches Some(x) && false_word(x@)) ==> r is None,
        !env_disabled(*vars) ==> match r {
            Some(c) => {
                &&& commit_from_env(c.commit, *vars)
                &&& branch_from_env(c.branch, *vars)
                &&& pr_from_env(c.pr, *vars)
                &&& check_from_env(c.check, *vars)
                &&& push_from_env(c.push, *vars)
                &&& versioning_from_env(c.versioning, *vars)
                &&& (c.commit is Some || c.branch is Some || c.pr is Some || c.check is Some
                    || c.push is Some || c.versioning is Some)
                &&& c.changelog is None && c.release is None && c.ai is None && c.hooks is None
                &&& c.registry is None && c.registries is None
            },
            None => !env_sets_any(*vars),
        },
{
    proof {
        if vars.allow_env_override is Some {
            let x = vars.allow_env_override->Some_0;
            lemma_bool_words(x@);
            reveal_strlit("false");
            reveal_strlit("0");
            reveal_strlit("no");
            reveal_strlit("off");
            if false_word(x@) {
                assert(lower(x@).len() > 0);
            }
        }
    }
    if let Some(val) = get_string(&vars.allow_env_override) {
        let allowed = match parse_bool_val(val.as_str(), "") {
            Some(b) => b,
            None => true,
        };
        if !allowed {
            return None;
        }
    }
    let commit = build_commit(vars);
    let branch = build_branch(vars);
    let pr = build_pr(vars);
    let check = build_check(vars);
    let push = build_push(vars);
    let versioning = build_versioning(vars);
    if commit.is_none() && branch.is_none() && pr.is_none() && check.is_none() && push.is_none()
        && versioning.is_none() {
        return None;
    }
    Some(
        BaseConfig {
            commit,
            branch,
            pr,
            check,
            push,
            versioning,
            changelog: None,
            release: None,
            ai: None,
            hooks: None,
            registry: None,
            registries: None,
        },
    )
}

/// Registry parameters given by the environment.
#[derive(Debug, Clone)]
pub struct EnvRegistryParams {
    pub url: Option<String>,
    pub ref_name: Option<String>,
    pub section: Option<String>,
}

/// The registry URL, ref and section the environment gives (each when set
/// and not empty).
pub fn get_env_registry_params(vars: &EnvVars) -> (r: EnvRegistryParams)
    ensures
        opt_view(r.url) == env_str(vars.registry_url),
        opt_view(r.ref_name) == env_str(vars.registry_ref),
        opt_view(r.section) == env_str(vars.registry_section),
{
    EnvRegistryParams {
        url: get_string(&vars.registry_url),
        ref_name: get_string(&vars.registry_ref),
        section: get_string(&vars.registry_section),
    }
}

} // verus!
