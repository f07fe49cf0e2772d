//! Semantic versions: parsing tags, formatting, bumping, and the next release
//! version computed from the commits since the last tag.
use vstd::prelude::*;
use crate::config::types::BaseConfig;

use crate::check::{header_view, parse_header_spec, sub_vec, ParsedHeader};
use crate::enforcement::{bump_rank, BumpLevel};
use crate::git::CommitSummary;
use crate::runtime::ResolvedConfig;
use crate::policy::commit::{lemma_type_index, type_index, CommitModel};
use crate::text::{
    all_digits, char_free, chars_contains, chars_starts_with, concat2, dec, digits_value,
    find_char_from, is_digit, lemma_dec_digits, lemma_digits_char_free, lemma_split_cons,
    lemma_split_none, parse_u64, parse_u64_spec, parse_unsigned, seq_contains, seq_starts_with,
    split_on, str_to_chars, u64_to_string, unsigned_body,
};

verus! {

/// A semantic version `major.minor.patch`.
#[derive(Debug, Clone, Copy, PartialEq, Eq, Structural)]
pub struct Version {
    pub major: u64,
    pub minor: u64,
    pub patch: u64,
}

/// `major.minor.patch` in decimal.
pub open spec fn semver_text(v: Version) -> Seq<char> {
    dec(v.major as nat) + seq!['.'] + dec(v.minor as nat) + seq!['.'] + dec(v.patch as nat)
}

/// A text read as `major.minor.patch`: exactly three dot-separated parts, each
/// a `u64` as `str::parse` reads it.
pub open spec fn parse_semver_spec(s: Seq<char>) -> Option<Version> {
    let parts = split_on(s, '.');
    if parts.len() != 3 {
        None
    } else {
        match (parse_u64_spec(parts[0]), parse_u64_spec(parts[1]), parse_u64_spec(parts[2])) {
            (Some(a), Some(b), Some(c)) => Some(Version { major: a, minor: b, patch: c }),
            _ => None,
        }
    }
}

/// A tag read as a version: after the prefix when the tag has it and the
/// rest parses, else the whole tag.
pub open spec fn parse_version_spec(tag: Seq<char>, prefix: Seq<char>) -> Option<Version> {
    if seq_starts_with(tag, prefix) && parse_semver_spec(
        tag.subrange(prefix.len() as int, tag.len() as int),
    ) is Some {
        parse_semver_spec(tag.subrange(prefix.len() as int, tag.len() as int))
    } else {
        parse_semver_spec(tag)
    }
}

/// Whether bumping `v` by `b` stays within `u64`.
pub open spec fn bump_fits(v: Version, b: BumpLevel) -> bool {
    match b {
        BumpLevel::Major => v.major < u64::MAX,
        BumpLevel::Minor => v.minor < u64::MAX,
        BumpLevel::Patch => v.patch < u64::MAX,
        BumpLevel::NoBump => true,
    }
}

/// `v` bumped by `b`: a major bump resets minor and patch, a minor bump resets
/// patch, a patch bump increments patch, no bump keeps `v`.
pub open spec fn with_bump_spec(v: Version, b: BumpLevel) -> Version {
    match b {
        BumpLevel::Major => Version { major: (v.major + 1) as u64, minor: 0, patch: 0 },
        BumpLevel::Minor => Version { major: v.major, minor: (v.minor + 1) as u64, patch: 0 },
        BumpLevel::Patch => Version { major: v.major, minor: v.minor, patch: (v.patch + 1) as u64 },
        BumpLevel::NoBump => v,
    }
}

/// Strict precedence of versions (lexicographic on major, minor, patch).
pub open spec fn version_lt(a: Version, b: Version) -> bool {
    a.major < b.major || (a.major == b.major && (a.minor < b.minor || (a.minor == b.minor
        && a.patch < b.patch)))
}

/// The initial version used when no tag exists: `0.1.0`.
pub open spec fn initial_version() -> Version {
    Version { major: 0, minor: 1, patch: 0 }
}

impl Version {
    /// Parses a version from a tag with an optional prefix: first after the
    /// prefix, then, failing that, the whole tag.
    pub fn parse(tag_str: &str, tag_prefix: &str) -> (r: Option<Version>)
        ensures
            r == parse_version_spec(tag_str@, tag_prefix@),
    {
        let t = str_to_chars(tag_str);
        let p = str_to_chars(tag_prefix);
        if chars_starts_with(&t, &p) {
            let rest = sub_vec(&t, p.len(), t.len());
            let v = Self::parse_semver(&rest);
            if v.is_some() {
                return v;
            }
        }
        Self::parse_semver(&t)
    }

    /// Parses `major.minor.patch`.
    fn parse_semver(s: &Vec<char>) -> (r: Option<Version>)
        ensures
            r == parse_semver_spec(s@),
    {
        let n = s.len();
        let i = match find_char_from(s, '.', 0) {
            Some(i) => i,
            None => {
                proof {
                    assert(s@.subrange(0, n as int) =~= s@);
                    lemma_split_none(s@, '.');
                }
                return None;
            },
        };
        let ghost a = s@.subrange(0, i as int);
        let ghost tail = s@.subrange(i + 1, n as int);
        proof {
            assert(s@ =~= a + seq!['.'] + tail);
            lemma_split_cons(a, '.', tail);
        }
        let j = match find_char_from(s, '.', i + 1) {
            Some(j) => j,
            None => {
                proof {
                    lemma_split_none(tail, '.');
                }
                return None;
            },
        };
        let ghost b = s@.subrange(i + 1, j as int);
        let ghost c = s@.subrange(j + 1, n as int);
        proof {
            assert(tail =~= b + seq!['.'] + c);
            lemma_split_cons(b, '.', c);
        }
        match find_char_from(s, '.', j + 1) {
            Some(k) => {
                proof {
                    let d = s@.subrange(j + 1, k as int);
                    let e = s@.subrange(k + 1, n as int);
                    assert(c =~= d + seq!['.'] + e);
                    lemma_split_cons(d, '.', e);
                }
                return None;
            },
            None => {},
        }
        proof {
            lemma_split_none(c, '.');
            assert(split_on(s@, '.') =~= seq![a, b, c]);
        }
        let va = sub_vec(s, 0, i);
        let vb = sub_vec(s, i + 1, j);
        let vc = sub_vec(s, j + 1, n);
        match (parse_u64(&va), parse_u64(&vb), parse_u64(&vc)) {
            (Some(x), Some(y), Some(z)) => Some(Version { major: x, minor: y, patch: z }),
            _ => None,
        }
    }

    /// The version with the tag prefix in front, e.g. `v1.2.3`.
    pub fn format(&self, tag_prefix: &str) -> (r: String)
        ensures
            r@ == tag_prefix@ + semver_text(*self),
    {
        let s = self.to_semver();
        concat2(tag_prefix, s.as_str())
    }

    /// The version as `major.minor.patch`, e.g. `1.2.3`.
    pub fn to_semver(&self) -> (r: String)
        ensures
            r@ == semver_text(*self),
    {
        let a = u64_to_string(self.major);
        let b = u64_to_string(self.minor);
        let c = u64_to_string(self.patch);
        let mut r = a;
        r.append(".");
        r.append(b.as_str());
        r.append(".");
        r.append(c.as_str());
        proof {
            reveal_strlit(".");
            assert(r@ =~= semver_text(*self));
        }
        r
    }

    /// The version bumped by `bump`.
    pub fn with_bump(&self, bump: BumpLevel) -> (r: Version)
        requires
            bump_fits(*self, bump),
        ensures
            r == with_bump_spec(*self, bump),
    {
        match bump {
            BumpLevel::Major => Version { major: self.major + 1, minor: 0, patch: 0 },
            BumpLevel::Minor => Version { major: self.major, minor: self.minor + 1, patch: 0 },
            BumpLevel::Patch => Version {
                major: self.major,
                minor: self.minor,
                patch: self.patch + 1,
            },
            BumpLevel::NoBump => *self,
        }
    }
}

/// Versioning settings of the policy.
#[derive(Debug, Clone)]
pub struct VersioningModel {
    pub tag_prefix: String,
    pub initial_version: Version,
}

impl Default for VersioningModel {
    fn default() -> (r: Self)
        ensures
            versioning_model_default(r),
    {
        VersioningModel {
            tag_prefix: crate::text::owned("v"),
            initial_version: Version { major: 0, minor: 1, patch: 0 },
        }
    }
}

impl VersioningModel {
    /// The versioning policy of a configuration: its tag prefix, and `0.1.0`
    /// as the initial version.
    pub fn from_config(config: &ResolvedConfig) -> (r: Self)
        ensures
            versioning_model_of(r, config.base),
    {
        VersioningModel {
            tag_prefix: config.base.versioning_tag_prefix(),
            initial_version: Version { major: 0, minor: 1, patch: 0 },
        }
    }
}

// ---------------------------------------------------------------------------
// Laws
// ---------------------------------------------------------------------------
/// The decimal text of a `u64` parses back to it.
pub proof fn lemma_parse_dec(n: u64)
    ensures
        parse_u64_spec(dec(n as nat)) == Some(n),
        char_free(dec(n as nat), '.'),
{
    lemma_dec_digits(n as nat);
    let d = dec(n as nat);
    assert(is_digit(d[0]));
    assert(unsigned_body(d) == d);
    lemma_digits_char_free(d, '.');
}

/// `major.minor.patch` text parses back to the version.
pub proof fn lemma_parse_semver_text(v: Version)
    ensures
        parse_semver_spec(semver_text(v)) == Some(v),
{
    let a = dec(v.major as nat);
    let b = dec(v.minor as nat);
    let c = dec(v.patch as nat);
    lemma_parse_dec(v.major);
    lemma_parse_dec(v.minor);
    lemma_parse_dec(v.patch);
    let bc = b + seq!['.'] + c;
    assert(semver_text(v) =~= a + seq!['.'] + bc);
    lemma_split_cons(a, '.', bc);
    lemma_split_cons(b, '.', c);
    lemma_split_none(c, '.');
    assert(split_on(semver_text(v), '.') =~= seq![a, b, c]);
}

/// Parsing a formatted version with the same prefix gives the version back.
pub proof fn lemma_parse_format(v: Version, prefix: Seq<char>)
    ensures
        parse_version_spec(prefix + semver_text(v), prefix) == Some(v),
{
    let t = prefix + semver_text(v);
    assert(t.subrange(0, prefix.len() as int) =~= prefix);
    assert(t.subrange(prefix.len() as int, t.len() as int) =~= semver_text(v));
    lemma_parse_semver_text(v);
}

/// A real bump makes the version strictly greater.
pub proof fn lemma_bump_increases(v: Version, b: BumpLevel)
    requires
        bump_fits(v, b),
        b != BumpLevel::NoBump,
    ensures
        version_lt(v, with_bump_spec(v, b)),
{
}

// ---------------------------------------------------------------------------
// Next version
// ---------------------------------------------------------------------------
/// The bump level of a commit: major when the header has `!` or the full
/// message holds `<footer key>:`, else the bump the policy gives its type,
/// else (a type the policy does not list) patch; none when the summary is no
/// conventional header.
pub open spec fn classify_spec(c: CommitSummary, p: CommitModel) -> BumpLevel {
    match parse_header_spec(c.summary@) {
        None => BumpLevel::NoBump,
        Some(h) => {
            let footer = match c.full_message {
                Some(m) => seq_contains(m@, p.breaking_footer_key@ + seq![':']),
                None => false,
            };
            if h.2 || footer {
                BumpLevel::Major
            } else {
                let t = type_index(p.types@, h.0);
                if t >= 0 {
                    p.types@[t].bump
                } else {
                    BumpLevel::Patch
                }
            }
        },
    }
}

/// The highest bump of a list (none for an empty list).
pub open spec fn max_bump(s: Seq<BumpLevel>) -> BumpLevel
    decreases s.len(),
{
    if s.len() == 0 {
        BumpLevel::NoBump
    } else {
        let m = max_bump(s.drop_last());
        if bump_rank(s.last()) >= bump_rank(m) {
            s.last()
        } else {
            m
        }
    }
}

/// The highest bump of a list ranks at least as high as every bump in it,
/// and is one of them (no bump for an empty list).
pub proof fn lemma_max_bump_is_highest(s: Seq<BumpLevel>)
    ensures
        forall|i: int| 0 <= i < s.len() ==> bump_rank(#[trigger] s[i]) <= bump_rank(max_bump(s)),
        s.len() == 0 ==> max_bump(s) == BumpLevel::NoBump,
        s.len() > 0 ==> exists|i: int| 0 <= i < s.len() && s[i] == max_bump(s),
    decreases s.len(),
{
    if s.len() > 0 {
        let d = s.drop_last();
        lemma_max_bump_is_highest(d);
        assert forall|i: int| 0 <= i < s.len() implies bump_rank(#[trigger] s[i]) <= bump_rank(
            max_bump(s),
        ) by {
            if i < s.len() - 1 {
                assert(s[i] == d[i]);
            }
        }
        if bump_rank(s.last()) >= bump_rank(max_bump(d)) {
            assert(s[s.len() - 1] == max_bump(s));
        } else {
            let k = choose|k: int| 0 <= k < d.len() && d[k] == max_bump(d);
            assert(s[k] == d[k]);
        }
    }
}

/// The bump levels of classified commits.
pub open spec fn bumps_of(v: Seq<(CommitSummary, BumpLevel)>) -> Seq<BumpLevel> {
    v.map_values(|p: (CommitSummary, BumpLevel)| p.1)
}

/// The version a release starts from: the current one, else `0.1.0`.
pub open spec fn base_version(current: Option<Version>) -> Version {
    match current {
        Some(v) => v,
        None => initial_version(),
    }
}

/// A copy of a commit summary.
fn copy_summary(c: &CommitSummary) -> (r: CommitSummary)
    ensures
        r == *c,
{
    let full = match &c.full_message {
        Some(m) => Some(m.clone()),
        None => None,
    };
    CommitSummary { hash: c.hash.clone(), summary: c.summary.clone(), full_message: full }
}

/// The bump level of one commit.
fn classify_single_commit(commit: &CommitSummary, policy: &CommitModel) -> (r: BumpLevel)
    ensures
        r == classify_spec(*commit, *policy),
{
    match ParsedHeader::parse(commit.summary.as_str()) {
        Some(parsed) => {
            let is_breaking_footer = match &commit.full_message {
                Some(msg) => {
                    let key = concat2(policy.breaking_footer_key.as_str(), ":");
                    proof {
                        reveal_strlit(":");
                    }
                    let m = str_to_chars(msg.as_str());
                    let k = str_to_chars(key.as_str());
                    assert(k@ =~= policy.breaking_footer_key@ + seq![':']);
                    let found = chars_contains(&m, &k);
                    assert(commit.full_message == Some(*msg));
                    found
                },
                None => false,
            };
            assert(parse_header_spec(commit.summary@) == Some(header_view(parsed)));
            if parsed.is_breaking || is_breaking_footer {
                return BumpLevel::Major;
            }
            proof {
                lemma_type_index(policy.types@, parsed.type_key@);
            }
            match policy.find_type(parsed.type_key.as_str()) {
                Some(t) => t.bump,
                None => BumpLevel::Patch,
            }
        },
        None => BumpLevel::NoBump,
    }
}

/// Each commit with its bump level.
pub fn classify_commits(commits: &[CommitSummary], policy: &CommitModel) -> (r: Vec<
    (CommitSummary, BumpLevel),
>)
    ensures
        r@.len() == commits@.len(),
        forall|i: int|
            0 <= i < commits@.len() ==> (#[trigger] r@[i]).0 == commits@[i] && r@[i].1
                == classify_spec(commits@[i], *policy),
{
    let mut out: Vec<(CommitSummary, BumpLevel)> = Vec::new();
    let mut i: usize = 0;
    while i < commits.len()
        invariant
            0 <= i <= commits@.len(),
            out@.len() == i,
            forall|j: int|
                0 <= j < i ==> (#[trigger] out@[j]).0 == commits@[j] && out@[j].1
                    == classify_spec(commits@[j], *policy),
        decreases commits@.len() - i,
    {
        let bump = classify_single_commit(&commits[i], policy);
        out.push((copy_summary(&commits[i]), bump));
        i = i + 1;
    }
    out
}

/// The next version: the current version (or `0.1.0` without one) bumped by
/// the highest bump among the classified commits.
pub fn calculate_next_version(
    current_version: Option<Version>,
    classified_commits: &[(CommitSummary, BumpLevel)],
) -> (r: Version)
    requires
        bump_fits(base_version(current_version), max_bump(bumps_of(classified_commits@))),
    ensures
        r == with_bump_spec(base_version(current_version), max_bump(bumps_of(classified_commits@))),
        forall|i: int|
            0 <= i < classified_commits@.len() ==> bump_rank((#[trigger] classified_commits@[i]).1)
                <= bump_rank(max_bump(bumps_of(classified_commits@))),
        classified_commits@.len() == 0 ==> r == base_version(current_version),
        classified_commits@.len() > 0 ==> exists|i: int|
            0 <= i < classified_commits@.len() && (#[trigger] classified_commits@[i]).1 == max_bump(
                bumps_of(classified_commits@),
            ),
{
    proof {
        let s = bumps_of(classified_commits@);
        lemma_max_bump_is_highest(s);
        assert forall|i: int| 0 <= i < classified_commits@.len() implies bump_rank(
            (#[trigger] classified_commits@[i]).1,
        ) <= bump_rank(max_bump(s)) by {
            assert(s[i] == classified_commits@[i].1);
        }
        if classified_commits@.len() > 0 {
            let k = choose|k: int| 0 <= k < s.len() && s[k] == max_bump(s);
            assert(classified_commits@[k].1 == s[k]);
        }
    }
    let mut highest = BumpLevel::NoBump;
    let mut rank: u8 = 0;
    let mut i: usize = 0;
    while i < classified_commits.len()
        invariant
            0 <= i <= classified_commits@.len(),
            highest == max_bump(bumps_of(classified_commits@).take(i as int)),
            rank as int == bump_rank(highest),
        decreases classified_commits@.len() - i,
    {
        let b = classified_commits[i].1;
        let rb: u8 = match b {
            BumpLevel::Major => 3,
            BumpLevel::Minor => 2,
            BumpLevel::Patch => 1,
            BumpLevel::NoBump => 0,
        };
        proof {
            let s = bumps_of(classified_commits@);
            assert(s.take(i + 1).drop_last() =~= s.take(i as int));
            assert(s.take(i + 1).last() == b);
        }
        if rb >= rank {
            highest = b;
            rank = rb;
        }
        i = i + 1;
    }
    proof {
        assert(bumps_of(classified_commits@).take(i as int) =~= bumps_of(classified_commits@));
    }
    let base = match current_version {
        Some(v) => v,
        None => Version { major: 0, minor: 1, patch: 0 },
    };
    base.with_bump(highest)
}

/// Whether a model holds what the settings `base` give.
pub open spec fn versioning_model_of(m: VersioningModel, base: BaseConfig) -> bool {
    &&& m.tag_prefix@ == base.spec_versioning_tag_prefix()
    &&& m.initial_version == initial_version()
}

/// Whether a model holds the defaults.
pub open spec fn versioning_model_default(m: VersioningModel) -> bool {
    &&& m.tag_prefix@ == "v"@
    &&& m.initial_version == initial_version()
}

} // verus!
