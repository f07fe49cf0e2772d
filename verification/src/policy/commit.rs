//! Commit policy: allowed types and scopes, breaking-change and ticket rules.
use vstd::prelude::*;
use crate::config::types::BaseConfig;
use vstd::string::*;

use crate::check::{opt_view, texts};
use crate::config::defaults::is_default_commit_types;
use crate::config::types::CommitTypeConfig;
use crate::enforcement::{BumpLevel, EmojiMode, ScopeMode, TicketSource};
use crate::runtime::ResolvedConfig;
use crate::text::{owned, str_eq};

verus! {

/// Whether a scope is forbidden, optional or mandatory in a commit header.
#[derive(Debug, Clone, Copy, PartialEq, Eq, Structural)]
pub enum ScopeRequirement {
    Disabled,
    Optional,
    Required,
}

/// The requirement that a configured scope mode stands for.
pub open spec fn requirement_of(m: ScopeMode) -> ScopeRequirement {
    match m {
        ScopeMode::Disabled => ScopeRequirement::Disabled,
        ScopeMode::Optional => ScopeRequirement::Optional,
        ScopeMode::Required => ScopeRequirement::Required,
    }
}

impl From<ScopeMode> for ScopeRequirement {
    fn from(value: ScopeMode) -> (r: Self) {
        match value {
            ScopeMode::Disabled => Self::Disabled,
            ScopeMode::Optional => Self::Optional,
            ScopeMode::Required => Self::Required,
        }
    }
}

impl vstd::std_specs::convert::FromSpecImpl<ScopeMode> for ScopeRequirement {
    open spec fn obeys_from_spec() -> bool {
        true
    }

    open spec fn from_spec(v: ScopeMode) -> Self {
        requirement_of(v)
    }
}

/// One commit type of the policy.
#[derive(Debug, Clone)]
pub struct CommitTypeModel {
    pub key: String,
    pub emoji: Option<String>,
    pub description: Option<String>,
    pub bump: BumpLevel,
    pub section: String,
}

/// What commits on protected branches may do.
#[derive(Debug, Clone)]
pub struct CommitProtectedModel {
    pub allow: bool,
    pub force: bool,
    pub warn: bool,
}

/// Ticket reference rules.
#[derive(Debug, Clone)]
pub struct TicketPolicy {
    pub enabled: bool,
    pub required: bool,
    pub regex: Option<String>,
    pub source: TicketSource,
}

/// Header shape rules.
#[derive(Debug, Clone)]
pub struct HeaderFormatPolicy {
    pub require_scope: bool,
    pub allow_breaking_bang: bool,
}

/// The complete commit policy.
#[derive(Debug, Clone)]
pub struct CommitModel {
    pub subject_max_length: u32,
    pub use_emojis: bool,
    pub types: Vec<CommitTypeModel>,
    pub scope_requirement: ScopeRequirement,
    pub restrict_scopes_to_defined: bool,
    pub allowed_scopes: Option<Vec<String>>,
    pub require_conventional: bool,
    pub breaking_header_required: bool,
    pub breaking_footer_required: bool,
    pub breaking_footer_key: String,
    pub breaking_footer_keys: Vec<String>,
    pub breaking_emoji: Option<String>,
    pub breaking_emoji_mode: EmojiMode,
    pub ticket: TicketPolicy,
    pub header_format: HeaderFormatPolicy,
    pub protected: CommitProtectedModel,
}

/// Index of the first type of `types` whose key is `value`, or -1.
pub open spec fn type_index(types: Seq<CommitTypeModel>, value: Seq<char>) -> int
    decreases types.len(),
{
    if types.len() == 0 {
        -1
    } else if types[0].key@ == value {
        0
    } else {
        let r = type_index(types.drop_first(), value);
        if r < 0 {
            -1
        } else {
            r + 1
        }
    }
}

/// Some type of `types` has key `value`.
pub open spec fn has_type(types: Seq<CommitTypeModel>, value: Seq<char>) -> bool {
    exists|i: int| 0 <= i < types.len() && (#[trigger] types[i]).key@ == value
}

/// Some string of `list` has the text `value`.
pub open spec fn has_text(list: Seq<String>, value: Seq<char>) -> bool {
    exists|i: int| 0 <= i < list.len() && (#[trigger] list[i])@ == value
}

/// The policy accepts scope `value`: any scope when no list is set, else a listed one.
pub open spec fn scope_allowed(allowed: Option<Vec<String>>, value: Seq<char>) -> bool {
    match allowed {
        Some(v) => has_text(v@, value),
        None => true,
    }
}

/// Characterisation of `type_index`.
pub proof fn lemma_type_index(types: Seq<CommitTypeModel>, value: Seq<char>)
    ensures
        -1 <= type_index(types, value) < types.len(),
        type_index(types, value) >= 0 ==> types[type_index(types, value)].key@ == value,
        type_index(types, value) < 0 <==> !has_type(types, value),
        forall|j: int|
            0 <= j < type_index(types, value) ==> (#[trigger] types[j]).key@ != value,
    decreases types.len(),
{
    if types.len() > 0 && types[0].key@ != value {
        let rest = types.drop_first();
        lemma_type_index(rest, value);
        if has_type(types, value) {
            let i = choose|i: int| 0 <= i < types.len() && (#[trigger] types[i]).key@ == value;
            assert(rest[i - 1] == types[i]);
        }
        if has_type(rest, value) {
            let i = choose|i: int| 0 <= i < rest.len() && (#[trigger] rest[i]).key@ == value;
            assert(rest[i] == types[i + 1]);
        }
        assert forall|j: int| 0 <= j < type_index(types, value) implies (
        #[trigger] types[j]).key@ != value by {
            if j > 0 {
                assert(types[j] == rest[j - 1]);
            }
        }
    }
}

/// Whether some string of `list` has the text `value`.
pub fn list_has_text(list: &Vec<String>, value: &str) -> (r: bool)
    ensures
        r == has_text(list@, value@),
{
    let mut i: usize = 0;
    while i < list.len()
        invariant
            0 <= i <= list.len(),
            forall|j: int| 0 <= j < i ==> (#[trigger] list@[j])@ != value@,
        decreases list.len() - i,
    {
        if str_eq(list[i].as_str(), value) {
            return true;
        }
        i = i + 1;
    }
    false
}

/// A commit type model built from a type table entry: the bump defaults to
/// patch and the section to `Miscellaneous`.
pub open spec fn type_model_of(m: CommitTypeModel, e: (String, CommitTypeConfig)) -> bool {
    &&& m.key@ == e.0@
    &&& opt_view(m.emoji) == opt_view(e.1.emoji)
    &&& opt_view(m.description) == opt_view(e.1.description)
    &&& m.bump == e.1.bump.unwrap_or(BumpLevel::Patch)
    &&& m.section@ == match e.1.section {
        Some(s) => s@,
        None => "Miscellaneous"@,
    }
}

/// Commit type models built entry by entry from a type table.
pub open spec fn types_from(m: Seq<CommitTypeModel>, t: Seq<(String, CommitTypeConfig)>) -> bool {
    m.len() == t.len() && forall|i: int| 0 <= i < m.len() ==> type_model_of(#[trigger] m[i], t[i])
}

/// The commit type models of a type table.
fn type_models(t: &Vec<(String, CommitTypeConfig)>) -> (r: Vec<CommitTypeModel>)
    ensures
        types_from(r@, t@),
{
    let mut r: Vec<CommitTypeModel> = Vec::new();
    let mut i: usize = 0;
    while i < t.len()
        invariant
            0 <= i <= t@.len(),
            r@.len() == i,
            forall|j: int| 0 <= j < i ==> type_model_of(#[trigger] r@[j], t@[j]),
        decreases t@.len() - i,
    {
        let e = &t[i];
        let emoji = match &e.1.emoji {
            Some(x) => Some(x.clone()),
            None => None,
        };
        let description = match &e.1.description {
            Some(x) => Some(x.clone()),
            None => None,
        };
        let bump = match e.1.bump {
            Some(b) => b,
            None => BumpLevel::Patch,
        };
        let section = match &e.1.section {
            Some(x) => x.clone(),
            None => owned("Miscellaneous"),
        };
        r.push(CommitTypeModel { key: e.0.clone(), emoji, description, bump, section });
        i = i + 1;
    }
    r
}

impl Default for CommitModel {
    fn default() -> (r: Self)
        ensures
            commit_model_default(r),
    {
        let mut types: Vec<CommitTypeModel> = Vec::new();
        types.push(
            CommitTypeModel {
                key: owned("feat"),
                emoji: Some(owned("\u{2728}")),
                description: Some(owned("A new feature")),
                bump: BumpLevel::Minor,
                section: owned("Features"),
            },
        );
        types.push(
            CommitTypeModel {
                key: owned("fix"),
                emoji: Some(owned("\u{1f41b}")),
                description: Some(owned("A bug fix")),
                bump: BumpLevel::Patch,
                section: owned("Bug Fixes"),
            },
        );
        let mut keys: Vec<String> = Vec::new();
        keys.push(owned("BREAKING CHANGE"));
        keys.push(owned("BREAKING-CHANGE"));
        assert(texts(keys@) =~= seq!["BREAKING CHANGE"@, "BREAKING-CHANGE"@]);
        CommitModel {
            subject_max_length: 72,
            use_emojis: false,
            types,
            scope_requirement: ScopeRequirement::Optional,
            restrict_scopes_to_defined: false,
            allowed_scopes: None,
            require_conventional: true,
            breaking_header_required: false,
            breaking_footer_required: false,
            breaking_footer_key: owned("BREAKING CHANGE"),
            breaking_footer_keys: keys,
            breaking_emoji: None,
            breaking_emoji_mode: EmojiMode::Prepend,
            ticket: TicketPolicy {
                enabled: false,
                required: false,
                regex: None,
                source: TicketSource::Disabled,
            },
            header_format: HeaderFormatPolicy { require_scope: false, allow_breaking_bang: true },
            protected: CommitProtectedModel { allow: true, force: false, warn: true },
        }
    }
}

impl CommitModel {
    /// The commit policy of a configuration.
    pub fn from_config(config: &ResolvedConfig) -> (r: Self)
        ensures
            commit_model_of(r, config.base),
    {
        let base = &config.base;
        let table = base.commit_types();
        let types = type_models(&table);
        let allowed = base.commit_scope_allowed();
        let allowed_scopes = if allowed.len() == 0 {
            None
        } else {
            Some(allowed)
        };
        let mode = base.commit_scopes_mode();
        let ticket_required = base.commit_ticket_required();
        CommitModel {
            subject_max_length: base.commit_subject_max_length(),
            use_emojis: base.commit_use_emojis(),
            types,
            scope_requirement: ScopeRequirement::from(mode),
            restrict_scopes_to_defined: base.commit_scope_restrict_to_defined(),
            allowed_scopes,
            require_conventional: base.check_require_conventional(),
            breaking_header_required: base.commit_breaking_require_header(),
            breaking_footer_required: base.commit_breaking_require_footer(),
            breaking_footer_key: base.commit_breaking_footer_key(),
            breaking_footer_keys: base.commit_breaking_footer_keys_normalized(),
            breaking_emoji: base.commit_breaking_emoji(),
            breaking_emoji_mode: base.commit_breaking_emoji_mode(),
            ticket: TicketPolicy {
                enabled: ticket_required,
                required: ticket_required,
                regex: base.commit_ticket_pattern(),
                source: base.commit_ticket_source(),
            },
            header_format: HeaderFormatPolicy {
                require_scope: mode == ScopeMode::Required,
                allow_breaking_bang: true,
            },
            protected: CommitProtectedModel {
                allow: base.commit_protected_allow(),
                force: base.commit_protected_force(),
                warn: base.commit_protected_warn(),
            },
        }
    }

    /// Whether `value` is one of the policy's commit types.
    pub fn allows_type(&self, value: &str) -> (r: bool)
        ensures
            r == has_type(self.types@, value@),
    {
        match self.find_type(value) {
            Some(_) => true,
            None => false,
        }
    }

    /// The first commit type whose key is `value`.
    pub fn find_type(&self, value: &str) -> (r: Option<&CommitTypeModel>)
        ensures
            match r {
                Some(t) => type_index(self.types@, value@) >= 0 && *t == self.types@[type_index(
                    self.types@,
                    value@,
                )],
                None => type_index(self.types@, value@) < 0,
            },
            r is Some <==> has_type(self.types@, value@),
    {
        proof {
            lemma_type_index(self.types@, value@);
        }
        let mut i: usize = 0;
        while i < self.types.len()
            invariant
                0 <= i <= self.types.len(),
                forall|j: int| 0 <= j < i ==> (#[trigger] self.types@[j]).key@ != value@,
            decreases self.types.len() - i,
        {
            if str_eq(self.types[i].key.as_str(), value) {
                proof {
                    lemma_type_index(self.types@, value@);
                    let t = type_index(self.types@, value@);
                    if t < i {
                        assert(self.types@[t].key@ != value@);
                    }
                    if t > i || t < 0 {
                        assert(self.types@[i as int].key@ == value@);
                    }
                }
                return Some(&self.types[i]);
            }
            i = i + 1;
        }
        proof {
            assert(!has_type(self.types@, value@));
        }
        None
    }

    /// Whether scope `value` is accepted.
    pub fn allows_scope(&self, value: &str) -> (r: bool)
        ensures
            r == scope_allowed(self.allowed_scopes, value@),
    {
        match &self.allowed_scopes {
            Some(scopes) => list_has_text(scopes, value),
            None => true,
        }
    }
}

/// Whether a model holds what the settings `base` give.
pub open spec fn commit_model_of(m: CommitModel, base: BaseConfig) -> bool {
    &&& m.subject_max_length == base.spec_commit_subject_max_length()
    &&& m.use_emojis == base.spec_commit_use_emojis()
    &&& match base.spec_commit_types_table() {
            Some(t) => types_from(m.types@, t),
            None => exists|t: Seq<(String, CommitTypeConfig)>|
                is_default_commit_types(t) && types_from(m.types@, t)
        }
    &&& m.scope_requirement == requirement_of(base.spec_commit_scopes_mode())
    &&& m.restrict_scopes_to_defined == base.spec_commit_scope_restrict_to_defined()
    &&& match m.allowed_scopes {
            Some(a) => a@.len() > 0 && texts(a@) == base.spec_commit_scope_allowed(),
            None => base.spec_commit_scope_allowed().len() == 0
        }
    &&& m.require_conventional == base.spec_check_require_conventional()
    &&& m.breaking_header_required == base.spec_commit_breaking_require_header()
    &&& m.breaking_footer_required == base.spec_commit_breaking_require_footer()
    &&& m.breaking_footer_key@ == base.spec_commit_breaking_footer_key()
    &&& texts(m.breaking_footer_keys@)
            == base.spec_commit_breaking_footer_keys_normalized()
    &&& opt_view(m.breaking_emoji) == base.spec_commit_breaking_emoji()
    &&& m.breaking_emoji_mode == base.spec_commit_breaking_emoji_mode()
    &&& m.ticket.enabled == base.spec_commit_ticket_required()
    &&& m.ticket.required == base.spec_commit_ticket_required()
    &&& opt_view(m.ticket.regex) == base.spec_commit_ticket_pattern()
    &&& m.ticket.source == base.spec_commit_ticket_source()
    &&& m.header_format.require_scope == (base.spec_commit_scopes_mode()
            == ScopeMode::Required)
    &&& m.header_format.allow_breaking_bang
    &&& m.protected.allow == base.spec_commit_protected_allow()
    &&& m.protected.force == base.spec_commit_protected_force()
    &&& m.protected.warn == base.spec_commit_protected_warn()
}

/// Whether a model holds the defaults.
pub open spec fn commit_model_default(m: CommitModel) -> bool {
    &&& m.subject_max_length == 72
    &&& !m.use_emojis
    &&& m.types@.len() == 2
    &&& m.types@[0].key@ == "feat"@ && opt_view(m.types@[0].emoji) == Some("\u{2728}"@)
            && opt_view(m.types@[0].description) == Some("A new feature"@)
            && m.types@[0].bump == BumpLevel::Minor && m.types@[0].section@ == "Features"@
    &&& m.types@[1].key@ == "fix"@ && opt_view(m.types@[1].emoji) == Some("\u{1f41b}"@)
            && opt_view(m.types@[1].description) == Some("A bug fix"@)
            && m.types@[1].bump == BumpLevel::Patch && m.types@[1].section@ == "Bug Fixes"@
    &&& m.scope_requirement == ScopeRequirement::Optional
    &&& !m.restrict_scopes_to_defined
    &&& m.allowed_scopes is None
    &&& m.require_conventional
    &&& !m.breaking_header_required
    &&& !m.breaking_footer_required
    &&& m.breaking_footer_key@ == "BREAKING CHANGE"@
    &&& texts(m.breaking_footer_keys@) == seq!["BREAKING CHANGE"@, "BREAKING-CHANGE"@]
    &&& m.breaking_emoji is None
    &&& m.breaking_emoji_mode == EmojiMode::Prepend
    &&& !m.ticket.enabled && !m.ticket.required && m.ticket.regex is None && m.ticket.source
            == TicketSource::Disabled
    &&& !m.header_format.require_scope && m.header_format.allow_breaking_bang
    &&& m.protected.allow && !m.protected.force && m.protected.warn
}


// ---------------------------------------------------------------------------
// Conventional-commit pattern
// ---------------------------------------------------------------------------
/// Alternatives joined by `|`.
pub open spec fn alternation(types: Seq<Seq<char>>) -> Seq<char>
    decreases types.len(),
{
    if types.len() == 0 {
        Seq::empty()
    } else if types.len() == 1 {
        types[0]
    } else {
        alternation(types.drop_last()) + "|"@ + types.last()
    }
}

/// The pattern of a conventional header over the allowed types:
/// `^(t1|t2|...)(\([\w\-]+\))?(!)?: .+`.
pub open spec fn conventional_pattern(types: Seq<Seq<char>>) -> Seq<char> {
    "^("@ + alternation(types) + ")(\\([\\w\\-]+\\))?(!)?: .+"@
}

/// The pattern text for the allowed types.
pub fn conventional_pattern_text(allowed_types: &Vec<String>) -> (r: String)
    ensures
        r@ == conventional_pattern(texts(allowed_types@)),
{
    let mut alt = String::new();
    let mut i: usize = 0;
    while i < allowed_types.len()
        invariant
            0 <= i <= allowed_types@.len(),
            alt@ == alternation(texts(allowed_types@.take(i as int))),
        decreases allowed_types@.len() - i,
    {
        let ghost prev = texts(allowed_types@.take(i as int));
        assert(texts(allowed_types@.take(i + 1)).drop_last() =~= prev);
        assert(texts(allowed_types@.take(i + 1)).last() == allowed_types@[i as int]@);
        if i > 0 {
            alt = crate::text::concat2(alt.as_str(), "|");
        }
        alt = crate::text::concat2(alt.as_str(), allowed_types[i].as_str());
        proof {
            if i == 0 {
                assert(texts(allowed_types@.take(1)) =~= seq![allowed_types@[0]@]);
                assert(alt@ =~= allowed_types@[0]@);
            } else {
                assert(alt@ =~= alternation(prev) + "|"@ + allowed_types@[i as int]@);
            }
        }
        i = i + 1;
    }
    assert(allowed_types@.take(allowed_types@.len() as int) =~= allowed_types@);
    crate::text::concat3("^(", alt.as_str(), ")(\\([\\w\\-]+\\))?(!)?: .+")
}

/// Whether the trimmed `message` matches the conventional pattern over the
/// allowed types: `None` where the pattern does not compile (a type that is
/// no valid pattern text), else whether it matches.
pub fn is_valid_conventional_commit_message(message: &str, allowed_types: &Vec<String>) -> (r: Option<bool>)
    ensures
        r is Some <==> crate::check::regex_compiles(conventional_pattern(texts(allowed_types@))),
        r matches Some(b) ==> b == crate::check::regex_finds(
            conventional_pattern(texts(allowed_types@)),
            crate::text::trim(message@),
        ),
{
    let pattern = conventional_pattern_text(allowed_types);
    let chars = crate::text::str_to_chars(message);
    let (a, b) = crate::text::trim_bounds(&chars);
    let trimmed = crate::text::chars_to_string(&chars, a, b);
    crate::check::regex_search(pattern.as_str(), trimmed.as_str())
}

} // verus!
