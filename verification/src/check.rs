//! Conventional-commit validation: header grammar, body footers, and the
//! violations a commit message has against a commit policy.
use vstd::prelude::*;
use vstd::string::*;
use vstd::utf8::encode_utf8;

use crate::git::CommitSummary;
use crate::policy::commit::{
    has_type, scope_allowed, CommitModel, ScopeRequirement,
};
use crate::text::{
    char_free, chars_contains, chars_starts_with, chars_to_string, concat2, concat3, dec,
    find_char_from, first_index, first_index_exec, first_line, lemma_first_index, lemma_first_index_is,
    lemma_first_index_none, lines_of, owned, seq_contains, seq_starts_with, str_to_chars,
    strip_cr, trim, trim_bounds, u64_to_string,
};

verus! {

// ---------------------------------------------------------------------------
// Outside facts
// ---------------------------------------------------------------------------
/// Whether the regex crate counts `c` as a word character (`\w`).
pub uninterp spec fn unicode_word_char(c: char) -> bool;

/// ASCII word characters: `[_0-9a-zA-Z]`.
pub open spec fn ascii_word_char(c: char) -> bool {
    c == '_' || ('0' <= c <= '9') || ('a' <= c <= 'z') || ('A' <= c <= 'Z')
}

/// A word character (`\w`): the ASCII table below 128, the crate's Unicode
/// class above.
pub open spec fn word_char(c: char) -> bool {
    if (c as u32) < 128 {
        ascii_word_char(c)
    } else {
        unicode_word_char(c)
    }
}

/// `regex_syntax::try_is_word_character`: whether `c` belongs to the Unicode
/// word class that `\w` matches. Its contract names the answer and states the
/// ASCII part of the class as the crate's table gives it; the Unicode tables
/// themselves are not restated. Without the crate's Unicode tables the call
/// errs and the answer is `false`.
#[verifier::external_body]
fn is_word_char(c: char) -> (r: bool)
    ensures
        r == unicode_word_char(c),
        (c as u32) < 128 ==> (r <==> ascii_word_char(c)),
{
    regex_syntax::try_is_word_character(c).unwrap_or(false)
}

/// Whether `pattern` compiles as a regular expression of the regex crate.
pub uninterp spec fn regex_compiles(pattern: Seq<char>) -> bool;

/// Whether the compiled `pattern` matches somewhere in `text`.
pub uninterp spec fn regex_finds(pattern: Seq<char>, text: Seq<char>) -> bool;

/// `regex::Regex::new(pattern)` then `is_match(text)`: `None` when the pattern
/// does not compile, else whether it matches somewhere in the text. Both
/// answers are named, not restated.
#[verifier::external_body]
pub(crate) fn regex_search(pattern: &str, text: &str) -> (r: Option<bool>)
    ensures
        r is Some <==> regex_compiles(pattern@),
        r matches Some(b) ==> b == regex_finds(pattern@, text@),
{
    match regex::Regex::new(pattern) {
        Ok(re) => Some(re.is_match(text)),
        Err(_) => None,
    }
}

// ---------------------------------------------------------------------------
// Violations
// ---------------------------------------------------------------------------
/// A single violation in commit validation.
#[derive(Debug, Clone, PartialEq, Eq)]
pub enum CommitViolation {
    InvalidHeaderFormat,
    InvalidType(String),
    MissingScopeWhenRequired,
    ScopeNotAllowed(String),
    InvalidScope(String),
    EmptySubject,
    SubjectTooLong { length: usize, max: u32 },
    MissingBreakingHeader,
    MissingBreakingFooter,
    InvalidBreakingFooter,
    MissingTicket,
    InvalidTicketFormat(String),
    EmojiNotAllowed,
}

/// A violation with its texts as character sequences.
pub enum ViolationView {
    InvalidHeaderFormat,
    InvalidType(Seq<char>),
    MissingScopeWhenRequired,
    ScopeNotAllowed(Seq<char>),
    InvalidScope(Seq<char>),
    EmptySubject,
    SubjectTooLong { length: usize, max: u32 },
    MissingBreakingHeader,
    MissingBreakingFooter,
    InvalidBreakingFooter,
    MissingTicket,
    InvalidTicketFormat(Seq<char>),
    EmojiNotAllowed,
}

impl View for CommitViolation {
    type V = ViolationView;

    open spec fn view(&self) -> ViolationView {
        match self {
            CommitViolation::InvalidHeaderFormat => ViolationView::InvalidHeaderFormat,
            CommitViolation::InvalidType(t) => ViolationView::InvalidType(t@),
            CommitViolation::MissingScopeWhenRequired => ViolationView::MissingScopeWhenRequired,
            CommitViolation::ScopeNotAllowed(s) => ViolationView::ScopeNotAllowed(s@),
            CommitViolation::InvalidScope(s) => ViolationView::InvalidScope(s@),
            CommitViolation::EmptySubject => ViolationView::EmptySubject,
            CommitViolation::SubjectTooLong { length, max } => ViolationView::SubjectTooLong {
                length: *length,
                max: *max,
            },
            CommitViolation::MissingBreakingHeader => ViolationView::MissingBreakingHeader,
            CommitViolation::MissingBreakingFooter => ViolationView::MissingBreakingFooter,
            CommitViolation::InvalidBreakingFooter => ViolationView::InvalidBreakingFooter,
            CommitViolation::MissingTicket => ViolationView::MissingTicket,
            CommitViolation::InvalidTicketFormat(m) => ViolationView::InvalidTicketFormat(m@),
            CommitViolation::EmojiNotAllowed => ViolationView::EmojiNotAllowed,
        }
    }
}

/// The human-readable text of a violation.
pub open spec fn violation_message(v: ViolationView) -> Seq<char> {
    match v {
        ViolationView::InvalidHeaderFormat => "Header does not match conventional commit format"@,
        ViolationView::InvalidType(t) => "Type '"@ + t + "' is not allowed"@,
        ViolationView::MissingScopeWhenRequired => "Scope is required but not provided"@,
        ViolationView::ScopeNotAllowed(s) => "Scope '"@ + s
            + "' is not allowed (commit.scopes.mode = disabled)"@,
        ViolationView::InvalidScope(s) => "Scope '"@ + s + "' is not allowed"@,
        ViolationView::EmptySubject => "Subject must not be empty"@,
        ViolationView::SubjectTooLong { length, max } => "Subject is "@ + dec(length as nat)
            + " chars, but max is "@ + dec(max as nat),
        ViolationView::MissingBreakingHeader => "Breaking change marker '!' required in header"@,
        ViolationView::MissingBreakingFooter =>
            "Breaking change footer required (e.g., 'BREAKING CHANGE: ...')"@,
        ViolationView::InvalidBreakingFooter => "Breaking change footer format is invalid"@,
        ViolationView::MissingTicket => "Ticket is required but not provided"@,
        ViolationView::InvalidTicketFormat(m) => "Ticket format invalid: "@ + m,
        ViolationView::EmojiNotAllowed =>
            "Emoji prefix is not allowed (commit.use_emojis = false)"@,
    }
}

impl CommitViolation {
    /// The human-readable text of this violation.
    pub fn message(&self) -> (r: String)
        ensures
            r@ == violation_message(self@),
    {
        match self {
            Self::InvalidHeaderFormat => owned(
                "Header does not match conventional commit format",
            ),
            Self::InvalidType(t) => concat3("Type '", t.as_str(), "' is not allowed"),
            Self::MissingScopeWhenRequired => owned("Scope is required but not provided"),
            Self::ScopeNotAllowed(s) => concat3(
                "Scope '",
                s.as_str(),
                "' is not allowed (commit.scopes.mode = disabled)",
            ),
            Self::InvalidScope(s) => concat3("Scope '", s.as_str(), "' is not allowed"),
            Self::EmptySubject => owned("Subject must not be empty"),
            Self::SubjectTooLong { length, max } => {
                let a = u64_to_string(*length as u64);
                let b = u64_to_string(*max as u64);
                let mut r = concat3("Subject is ", a.as_str(), " chars, but max is ");
                r.append(b.as_str());
                r
            },
            Self::MissingBreakingHeader => owned("Breaking change marker '!' required in header"),
            Self::MissingBreakingFooter => owned(
                "Breaking change footer required (e.g., 'BREAKING CHANGE: ...')",
            ),
            Self::InvalidBreakingFooter => owned("Breaking change footer format is invalid"),
            Self::MissingTicket => owned("Ticket is required but not provided"),
            Self::InvalidTicketFormat(m) => concat2("Ticket format invalid: ", m.as_str()),
            Self::EmojiNotAllowed => owned(
                "Emoji prefix is not allowed (commit.use_emojis = false)",
            ),
        }
    }
}

// ---------------------------------------------------------------------------
// Header grammar: `[emoji ]type[(scope)][!]: subject`
// ---------------------------------------------------------------------------
/// Number of leading word characters of `s`.
pub open spec fn word_run(s: Seq<char>) -> nat
    decreases s.len(),
{
    if s.len() == 0 {
        0
    } else if word_char(s[0]) {
        1 + word_run(s.drop_first())
    } else {
        0
    }
}

/// The emoji heuristic: code points of the main emoji, miscellaneous-symbol
/// and miscellaneous-technical blocks.
pub open spec fn is_emoji_spec(c: char) -> bool {
    let u = c as u32;
    (0x1F300 <= u <= 0x1F9FF) || (0x2600 <= u <= 0x27BF) || (0x2300 <= u <= 0x23FF)
}

/// Header parts: type, scope, breaking marker, subject.
pub type HeaderBody = (Seq<char>, Option<Seq<char>>, bool, Seq<char>);

/// Header parts with the leading emoji, if any.
pub type HeaderParts = (Seq<char>, Option<Seq<char>>, bool, Seq<char>, Option<Seq<char>>);

/// The header after its emoji, read as `^(\w+)(?:\(([^)]+)\))?(!)?: (.+)$`:
/// a run of word characters, an optional non-empty scope in parentheses that
/// ends at the first `)`, an optional `!`, then `: ` and a non-empty subject
/// without line feed.
pub open spec fn header_body_spec(r: Seq<char>) -> Option<HeaderBody> {
    let n = word_run(r) as int;
    if n == 0 {
        None
    } else {
        let sc: Option<(Option<Seq<char>>, int)> = if n < r.len() && r[n] == '(' {
            let q = first_index(r.subrange(n + 1, r.len() as int), ')');
            if q <= 0 {
                None
            } else {
                Some((Some(r.subrange(n + 1, n + 1 + q)), n + q + 2))
            }
        } else {
            Some((None, n))
        };
        match sc {
            None => None,
            Some((scope, p)) => {
                let bang = p < r.len() && r[p] == '!';
                let p2 = if bang {
                    p + 1
                } else {
                    p
                };
                if p2 + 2 < r.len() && r[p2] == ':' && r[p2 + 1] == ' ' && char_free(
                    r.subrange(p2 + 2, r.len() as int),
                    '\n',
                ) {
                    Some((r.subrange(0, n), scope, bang, r.subrange(p2 + 2, r.len() as int)))
                } else {
                    None
                }
            },
        }
    }
}

/// A leading emoji and the text after the first space, or no emoji and `s`.
pub open spec fn split_emoji(s: Seq<char>) -> (Option<Seq<char>>, Seq<char>) {
    let k = first_index(s, ' ');
    if s.len() > 0 && is_emoji_spec(s[0]) && k >= 0 {
        (Some(s.subrange(0, k)), s.subrange(k + 1, s.len() as int))
    } else {
        (None, s)
    }
}

/// A header line read as a conventional-commit header after trimming.
pub open spec fn parse_header_spec(h: Seq<char>) -> Option<HeaderParts> {
    let (emoji, rest) = split_emoji(trim(h));
    match header_body_spec(rest) {
        Some((t, s, b, subj)) => Some((t, s, b, subj, emoji)),
        None => None,
    }
}

/// The text of an optional string.
pub open spec fn opt_view(o: Option<String>) -> Option<Seq<char>> {
    match o {
        Some(s) => Some(s@),
        None => None,
    }
}

/// Parsed components of a commit header.
#[derive(Debug, Clone)]
pub struct ParsedHeader {
    pub type_key: String,
    pub scope: Option<String>,
    pub is_breaking: bool,
    pub subject: String,
    pub emoji: Option<String>,
}

/// The parts of a parsed header as texts.
pub open spec fn header_view(p: ParsedHeader) -> HeaderParts {
    (p.type_key@, opt_view(p.scope), p.is_breaking, p.subject@, opt_view(p.emoji))
}

/// The emoji heuristic of header parsing.
pub fn is_emoji_char(c: char) -> (r: bool)
    ensures
        r == is_emoji_spec(c),
{
    let code = c as u32;
    (0x1F300 <= code && code <= 0x1F9FF) || (0x2600 <= code && code <= 0x27BF) || (0x2300 <= code
        && code <= 0x23FF)
}

/// A copy of `v[from..to]`.
pub fn sub_vec(v: &Vec<char>, from: usize, to: usize) -> (r: Vec<char>)
    requires
        from <= to <= v.len(),
    ensures
        r@ == v@.subrange(from as int, to as int),
{
    let mut r: Vec<char> = Vec::new();
    let mut i = from;
    while i < to
        invariant
            from <= i <= to <= v.len(),
            r@ == v@.subrange(from as int, i as int),
        decreases to - i,
    {
        r.push(v[i]);
        i = i + 1;
        assert(r@ =~= v@.subrange(from as int, i as int));
    }
    r
}

/// `word_run` given the position where the run stops.
proof fn lemma_word_run(s: Seq<char>, a: int)
    requires
        0 <= a <= s.len(),
        forall|j: int| 0 <= j < a ==> word_char(#[trigger] s[j]),
        a == s.len() || !word_char(s[a]),
    ensures
        word_run(s) == a,
    decreases a,
{
    if a > 0 {
        let t = s.drop_first();
        assert forall|j: int| 0 <= j < a - 1 implies word_char(#[trigger] t[j]) by {
            assert(t[j] == s[j + 1]);
        }
        if a < s.len() {
            assert(t[a - 1] == s[a]);
        }
        lemma_word_run(t, a - 1);
    }
}

/// Reads the header after its emoji (see `header_body_spec`).
fn parse_header_body(r: &Vec<char>) -> (res: Option<(String, Option<String>, bool, String)>)
    ensures
        match res {
            Some((t, s, b, subj)) => header_body_spec(r@) == Some((t@, opt_view(s), b, subj@)),
            None => header_body_spec(r@) is None,
        },
{
    let len = r.len();
    let mut n: usize = 0;
    while n < len && is_word_char(r[n])
        invariant
            0 <= n <= len == r.len(),
            forall|j: int| 0 <= j < n ==> word_char(#[trigger] r@[j]),
        decreases len - n,
    {
        n = n + 1;
    }
    proof {
        lemma_word_run(r@, n as int);
    }
    if n == 0 {
        return None;
    }
    let mut p: usize = n;
    let mut scope: Option<String> = None;
    if n < len && r[n] == '(' {
        let close = find_char_from(r, ')', n + 1);
        match close {
            None => {
                proof {
                    lemma_first_index_none(r@.subrange(n + 1, len as int), ')');
                }
                return None;
            },
            Some(c) => {
                proof {
                    let t = r@.subrange(n + 1, len as int);
                    assert(t[c - n - 1] == r@[c as int]);
                    assert(t.subrange(0, c - n - 1) =~= r@.subrange(n + 1, c as int));
                    lemma_first_index_is(t, ')', c - n - 1);
                }
                if c == n + 1 {
                    return None;
                }
                scope = Some(chars_to_string(r, n + 1, c));
                p = c + 1;
                assert(r@.subrange(n + 1, len as int).subrange(0, c - n - 1) =~= r@.subrange(
                    n + 1,
                    c as int,
                ));
            },
        }
    }
    let bang = p < len && r[p] == '!';
    let p2 = if bang {
        p + 1
    } else {
        p
    };
    if p2 < len && len - p2 > 2 && r[p2] == ':' && r[p2 + 1] == ' ' {
        match find_char_from(r, '\n', p2 + 2) {
            Some(k) => {
                proof {
                    assert(r@.subrange(p2 + 2, len as int)[k - (p2 + 2)] == r@[k as int]);
                }
                return None;
            },
            None => {
                let t = chars_to_string(r, 0, n);
                let subject = chars_to_string(r, p2 + 2, len);
                return Some((t, scope, bang, subject));
            },
        }
    }
    None
}

impl ParsedHeader {
    /// Parses a commit header: `type(scope)?: subject`, `type(scope)!: subject`,
    /// optionally preceded by an emoji and a space.
    pub fn parse(header: &str) -> (r: Option<ParsedHeader>)
        ensures
            match r {
                Some(p) => parse_header_spec(header@) == Some(header_view(p)),
                None => parse_header_spec(header@) is None,
            },
    {
        let v = str_to_chars(header);
        let (a, b) = trim_bounds(&v);
        let t = sub_vec(&v, a, b);
        let (emoji, rest) = Self::extract_emoji(&t);
        match parse_header_body(&rest) {
            Some((type_key, scope, is_breaking, subject)) => Some(
                ParsedHeader { type_key, scope, is_breaking, subject, emoji },
            ),
            None => None,
        }
    }

    /// A leading emoji (up to the first space) and the text after that space.
    pub fn extract_emoji(s: &Vec<char>) -> (r: (Option<String>, Vec<char>))
        ensures
            (opt_view(r.0), r.1@) == split_emoji(s@),
    {
        if s.len() == 0 {
            return (None, sub_vec(s, 0, 0));
        }
        if is_emoji_char(s[0]) {
            match first_index_exec(s, ' ') {
                Some(k) => {
                    proof {
                        lemma_first_index(s@, ' ');
                    }
                    let e = chars_to_string(s, 0, k);
                    let rest = sub_vec(s, k + 1, s.len());
                    return (Some(e), rest);
                },
                None => {},
            }
        }
        (None, sub_vec(s, 0, s.len()))
    }
}

// ---------------------------------------------------------------------------
// Body and footers
// ---------------------------------------------------------------------------
/// The lines that look like footers (`key: value`), in order.
pub open spec fn footer_filter(ls: Seq<Seq<char>>) -> Seq<Seq<char>>
    decreases ls.len(),
{
    if ls.len() == 0 {
        seq![]
    } else {
        let f = footer_filter(ls.drop_last());
        if seq_contains(ls.last(), ": "@) {
            f.push(ls.last())
        } else {
            f
        }
    }
}

/// The text after the first line feed, if there is one.
pub open spec fn body_text_spec(msg: Seq<char>) -> Seq<char> {
    let i = first_index(msg, '\n');
    if i < 0 {
        seq![]
    } else {
        msg.subrange(i + 1, msg.len() as int)
    }
}

/// The footer lines of a commit message: the lines after its first line that
/// contain `": "`.
pub open spec fn footers_spec(msg: Seq<char>) -> Seq<Seq<char>> {
    if first_index(msg, '\n') < 0 {
        seq![]
    } else {
        footer_filter(lines_of(body_text_spec(msg)))
    }
}

/// Some footer line begins with `key`.
pub open spec fn has_footer_spec(footers: Seq<Seq<char>>, key: Seq<char>) -> bool {
    exists|j: int| 0 <= j < footers.len() && seq_starts_with(#[trigger] footers[j], key)
}

/// The full body of a commit (body and footer sections).
#[derive(Debug, Clone)]
pub struct CommitBody {
    pub body_text: String,
    pub footer_lines: Vec<String>,
}

/// The texts of a list of strings.
pub open spec fn texts(v: Seq<String>) -> Seq<Seq<char>> {
    v.map_values(|s: String| s@)
}

/// Splitting off the first line of a non-empty text.
proof fn lemma_lines_step(s: Seq<char>, i: int)
    requires
        0 <= i < s.len(),
        s[i] == '\n',
        char_free(s.subrange(0, i), '\n'),
    ensures
        lines_of(s) == seq![strip_cr(s.subrange(0, i))] + lines_of(
            s.subrange(i + 1, s.len() as int),
        ),
{
    lemma_first_index_is(s, '\n', i);
}

/// The lines of `s[from..]` (`str::lines`).
pub fn lines_exec(s: &Vec<char>, from: usize) -> (r: Vec<Vec<char>>)
    requires
        from <= s.len(),
    ensures
        r@.map_values(|l: Vec<char>| l@) == lines_of(s@.subrange(from as int, s.len() as int)),
{
    let len = s.len();
    let mut out: Vec<Vec<char>> = Vec::new();
    let mut pos = from;
    while pos < len
        invariant
            from <= pos <= len == s.len(),
            out@.map_values(|l: Vec<char>| l@) + lines_of(s@.subrange(pos as int, len as int))
                == lines_of(s@.subrange(from as int, len as int)),
        decreases len - pos,
    {
        let ghost t = s@.subrange(pos as int, len as int);
        let ghost before = out@.map_values(|l: Vec<char>| l@);
        match find_char_from(s, '\n', pos) {
            None => {
                proof {
                    lemma_first_index_none(t, '\n');
                }
                let line = sub_vec(s, pos, len);
                out.push(line);
                proof {
                    assert(lines_of(t) == seq![t]);
                    assert(out@.map_values(|l: Vec<char>| l@) =~= before.push(t));
                    assert(lines_of(s@.subrange(len as int, len as int)) =~= Seq::<
                        Seq<char>,
                    >::empty()) by {
                        assert(s@.subrange(len as int, len as int).len() == 0);
                    }
                    assert(before + lines_of(t) =~= before.push(t));
                }
                pos = len;
                assert(out@.map_values(|l: Vec<char>| l@) + lines_of(
                    s@.subrange(pos as int, len as int),
                ) =~= out@.map_values(|l: Vec<char>| l@));
            },
            Some(i) => {
                proof {
                    assert(t[i - pos] == s@[i as int]);
                    assert(t.subrange(0, i - pos) =~= s@.subrange(pos as int, i as int));
                    lemma_lines_step(t, i - pos);
                    assert(t.subrange(i - pos + 1, t.len() as int) =~= s@.subrange(
                        i + 1,
                        len as int,
                    ));
                }
                let end = if i > pos && s[i - 1] == '\r' {
                    i - 1
                } else {
                    i
                };
                let line = sub_vec(s, pos, end);
                proof {
                    let seg = s@.subrange(pos as int, i as int);
                    if i > pos && s@[i - 1] == '\r' {
                        assert(seg.last() == s@[i - 1]);
                        assert(seg.drop_last() =~= s@.subrange(pos as int, end as int));
                    } else {
                        assert(seg =~= s@.subrange(pos as int, end as int));
                    }
                    assert(strip_cr(seg) == line@);
                }
                out.push(line);
                proof {
                    assert(out@.map_values(|l: Vec<char>| l@) =~= before.push(line@));
                    assert(seq![line@] + lines_of(s@.subrange(i + 1, len as int)) == lines_of(t));
                    assert(before.push(line@) + lines_of(s@.subrange(i + 1, len as int))
                        =~= before + (seq![line@] + lines_of(s@.subrange(i + 1, len as int))));
                }
                pos = i + 1;
            },
        }
    }
    proof {
        assert(lines_of(s@.subrange(pos as int, len as int)) =~= Seq::<Seq<char>>::empty()) by {
            assert(s@.subrange(pos as int, len as int).len() == 0);
        }
        assert(out@.map_values(|l: Vec<char>| l@) + Seq::<Seq<char>>::empty() =~= out@.map_values(
            |l: Vec<char>| l@,
        ));
    }
    out
}

impl CommitBody {
    /// Splits a commit message after its first line and collects the lines
    /// of the rest that contain `": "` as footer lines.
    pub fn parse(full_message: &str) -> (r: CommitBody)
        ensures
            r.body_text@ == body_text_spec(full_message@),
            texts(r.footer_lines@) == footers_spec(full_message@),
    {
        let v = str_to_chars(full_message);
        match first_index_exec(&v, '\n') {
            None => {
                let r = CommitBody { body_text: String::new(), footer_lines: Vec::new() };
                assert(texts(r.footer_lines@) =~= Seq::<Seq<char>>::empty());
                r
            },
            Some(i) => {
                proof {
                    lemma_first_index(v@, '\n');
                }
                let body_text = chars_to_string(&v, i + 1, v.len());
                let lines = lines_exec(&v, i + 1);
                let needle = str_to_chars(": ");
                let mut footer_lines: Vec<String> = Vec::new();
                let ghost ls = lines@.map_values(|l: Vec<char>| l@);
                let mut j: usize = 0;
                while j < lines.len()
                    invariant
                        0 <= j <= lines.len(),
                        ls == lines@.map_values(|l: Vec<char>| l@),
                        needle@ == ": "@,
                        texts(footer_lines@) == footer_filter(ls.subrange(0, j as int)),
                    decreases lines.len() - j,
                {
                    let ghost before = texts(footer_lines@);
                    assert(ls.subrange(0, j + 1).drop_last() =~= ls.subrange(0, j as int));
                    assert(ls.subrange(0, j + 1).last() == lines@[j as int]@);
                    if chars_contains(&lines[j], &needle) {
                        let line = chars_to_string(&lines[j], 0, lines[j].len());
                        assert(lines@[j as int]@.subrange(0, lines@[j as int]@.len() as int)
                            =~= lines@[j as int]@);
                        footer_lines.push(line);
                        assert(texts(footer_lines@) =~= before.push(lines@[j as int]@));
                    }
                    j = j + 1;
                }
                assert(ls.subrange(0, lines.len() as int) =~= ls);
                CommitBody { body_text, footer_lines }
            },
        }
    }

    /// Whether some footer line begins with `footer_key`.
    pub fn has_breaking_footer(&self, footer_key: &str) -> (r: bool)
        ensures
            r == has_footer_spec(texts(self.footer_lines@), footer_key@),
    {
        let key = str_to_chars(footer_key);
        let mut i: usize = 0;
        while i < self.footer_lines.len()
            invariant
                0 <= i <= self.footer_lines.len(),
                key@ == footer_key@,
                forall|j: int|
                    0 <= j < i ==> !seq_starts_with(
                        #[trigger] texts(self.footer_lines@)[j],
                        footer_key@,
                    ),
            decreases self.footer_lines.len() - i,
        {
            let line = str_to_chars(self.footer_lines[i].as_str());
            if chars_starts_with(&line, &key) {
                assert(texts(self.footer_lines@)[i as int] == line@);
                return true;
            }
            assert(texts(self.footer_lines@)[i as int] == line@);
            i = i + 1;
        }
        false
    }
}

// ---------------------------------------------------------------------------
// Validation
// ---------------------------------------------------------------------------
/// Byte length of a text in UTF-8.
pub open spec fn utf8_len(s: Seq<char>) -> nat {
    encode_utf8(s).len()
}

/// The ticket violations of a message (appended to `v`).
pub open spec fn ticket_violations(
    p: CommitModel,
    msg: Seq<char>,
    v: Seq<ViolationView>,
) -> Seq<ViolationView> {
    if !p.ticket.enabled {
        v
    } else {
        match p.ticket.regex {
            Some(re) => if !regex_compiles(re@) {
                v.push(ViolationView::InvalidTicketFormat("Invalid ticket regex pattern: "@ + re@))
            } else if p.ticket.required && !regex_finds(re@, msg) {
                v.push(ViolationView::InvalidTicketFormat("Does not match pattern: "@ + re@))
            } else {
                v
            },
            None => if p.ticket.required {
                v.push(ViolationView::MissingTicket)
            } else {
                v
            },
        }
    }
}

/// The emoji, type and scope violations of a parsed header.
pub open spec fn lead_violations(p: CommitModel, h: HeaderParts) -> Seq<ViolationView> {
    let (ty, scope, bang, subject, emoji) = h;
    let v1: Seq<ViolationView> = if emoji is Some && !p.use_emojis {
        seq![ViolationView::EmojiNotAllowed]
    } else {
        seq![]
    };
    let v2 = if !has_type(p.types@, ty) {
        v1.push(ViolationView::InvalidType(ty))
    } else {
        v1
    };
    match scope {
        Some(s) => if p.scope_requirement == ScopeRequirement::Disabled {
            v2.push(ViolationView::ScopeNotAllowed(s))
        } else if p.restrict_scopes_to_defined && !scope_allowed(p.allowed_scopes, s) {
            v2.push(ViolationView::InvalidScope(s))
        } else {
            v2
        },
        None => if p.scope_requirement == ScopeRequirement::Required {
            v2.push(ViolationView::MissingScopeWhenRequired)
        } else {
            v2
        },
    }
}

/// `v` followed by the subject violation, if any: an empty subject, or one
/// whose UTF-8 length exceeds the maximum.
pub open spec fn subject_step(p: CommitModel, subject: Seq<char>, v: Seq<ViolationView>) -> Seq<
    ViolationView,
> {
    let blen = utf8_len(subject) as usize;
    if subject.len() == 0 {
        v.push(ViolationView::EmptySubject)
    } else if (blen as u32) > p.subject_max_length {
        v.push(ViolationView::SubjectTooLong { length: blen, max: p.subject_max_length })
    } else {
        v
    }
}

/// `v` followed by the breaking-change violations: a breaking footer without
/// the `!` marker where the marker is required, and the marker without a
/// footer where the footer is required.
pub open spec fn breaking_step(
    p: CommitModel,
    msg: Seq<char>,
    bang: bool,
    v: Seq<ViolationView>,
) -> Seq<ViolationView> {
    let has_f = has_footer_spec(footers_spec(msg), p.breaking_footer_key@);
    let v1 = if p.breaking_header_required && !bang && has_f {
        v.push(ViolationView::MissingBreakingHeader)
    } else {
        v
    };
    if p.breaking_footer_required && bang && !has_f {
        v1.push(ViolationView::MissingBreakingFooter)
    } else {
        v1
    }
}

/// The violations of a message whose header parsed into `h` (emoji, type,
/// scope, subject, breaking markers), before the ticket rules.
pub open spec fn header_violations(p: CommitModel, msg: Seq<char>, h: HeaderParts) -> Seq<
    ViolationView,
> {
    breaking_step(p, msg, h.2, subject_step(p, h.3, lead_violations(p, h)))
}

/// The violations of a commit message against a policy, in the order the
/// checks run: header format, emoji, type, scope, subject, breaking markers,
/// ticket. Nothing is checked when conventional commits are not required.
pub open spec fn violations_spec(p: CommitModel, msg: Seq<char>) -> Seq<ViolationView> {
    if !p.require_conventional {
        seq![]
    } else {
        match parse_header_spec(first_line(msg)) {
            None => seq![ViolationView::InvalidHeaderFormat],
            Some(h) => ticket_violations(p, msg, header_violations(p, msg, h)),
        }
    }
}

/// Pushing onto a list keeps what it holds and adds the item.
proof fn lemma_push_contains(v: Seq<ViolationView>, x: ViolationView, y: ViolationView)
    ensures
        v.push(x).contains(y) <==> (v.contains(y) || x == y),
{
    if v.contains(y) {
        let i = choose|i: int| 0 <= i < v.len() && v[i] == y;
        assert(v.push(x)[i] == y);
    }
    if x == y {
        assert(v.push(x)[v.len() as int] == y);
    }
    if v.push(x).contains(y) {
        let i = choose|i: int| 0 <= i < v.push(x).len() && v.push(x)[i] == y;
        if i < v.len() {
            assert(v[i] == y);
        }
    }
}

/// The checks after the scope check add no missing-scope violation and
/// drop none.
proof fn lemma_later_checks_keep_missing_scope(p: CommitModel, msg: Seq<char>, h: HeaderParts)
    ensures
        ticket_violations(p, msg, header_violations(p, msg, h)).contains(
            ViolationView::MissingScopeWhenRequired,
        ) <==> lead_violations(p, h).contains(ViolationView::MissingScopeWhenRequired),
{
    let m = ViolationView::MissingScopeWhenRequired;
    let l = lead_violations(p, h);
    let blen = utf8_len(h.3) as usize;
    lemma_push_contains(l, ViolationView::EmptySubject, m);
    lemma_push_contains(l, ViolationView::SubjectTooLong { length: blen, max: p.subject_max_length }, m);
    let s1 = subject_step(p, h.3, l);
    lemma_push_contains(s1, ViolationView::MissingBreakingHeader, m);
    let has_f = has_footer_spec(footers_spec(msg), p.breaking_footer_key@);
    let b1 = if p.breaking_header_required && !h.2 && has_f {
        s1.push(ViolationView::MissingBreakingHeader)
    } else {
        s1
    };
    lemma_push_contains(b1, ViolationView::MissingBreakingFooter, m);
    let hv = header_violations(p, msg, h);
    lemma_push_contains(hv, ViolationView::MissingTicket, m);
    match p.ticket.regex {
        Some(re) => {
            lemma_push_contains(hv, ViolationView::InvalidTicketFormat("Invalid ticket regex pattern: "@ + re@), m);
            lemma_push_contains(hv, ViolationView::InvalidTicketFormat("Does not match pattern: "@ + re@), m);
        },
        None => {},
    }
}

/// Whether the first line of a message is a conventional header without a
/// scope.
pub open spec fn header_lacks_scope(msg: Seq<char>) -> bool {
    match parse_header_spec(first_line(msg)) {
        Some(h) => h.1 is None,
        None => false,
    }
}

/// A message whose header names no scope breaks a policy that requires one:
/// its violations include the missing scope. The missing-scope violation
/// comes only that way: with a scope in the header, or a policy that does not
/// require one, it is not among them.
pub proof fn lemma_required_scope(p: CommitModel, msg: Seq<char>)
    ensures
        p.require_conventional && p.scope_requirement == ScopeRequirement::Required
            && header_lacks_scope(msg) ==> violations_spec(p, msg).contains(
            ViolationView::MissingScopeWhenRequired,
        ),
        violations_spec(p, msg).contains(ViolationView::MissingScopeWhenRequired) ==> (
        p.scope_requirement == ScopeRequirement::Required && header_lacks_scope(msg)),
{
    let m = ViolationView::MissingScopeWhenRequired;
    if p.require_conventional {
        match parse_header_spec(first_line(msg)) {
            Some(h) => {
                lemma_later_checks_keep_missing_scope(p, msg, h);
                let v1: Seq<ViolationView> = if h.4 is Some && !p.use_emojis {
                    seq![ViolationView::EmojiNotAllowed]
                } else {
                    seq![]
                };
                let v2 = if !has_type(p.types@, h.0) {
                    v1.push(ViolationView::InvalidType(h.0))
                } else {
                    v1
                };
                assert(!v1.contains(m));
                lemma_push_contains(v1, ViolationView::InvalidType(h.0), m);
                lemma_push_contains(v2, m, m);
                match h.1 {
                    Some(sc) => {
                        lemma_push_contains(v2, ViolationView::ScopeNotAllowed(sc), m);
                        lemma_push_contains(v2, ViolationView::InvalidScope(sc), m);
                    },
                    None => {},
                }
            },
            None => {
                assert(seq![ViolationView::InvalidHeaderFormat][0] != m);
            },
        }
    }
}

/// The views of a list of violations.
pub open spec fn violation_views(v: Seq<CommitViolation>) -> Seq<ViolationView> {
    v.map_values(|x: CommitViolation| x@)
}

/// The first line of a message as a string.
fn first_line_exec(message: &str) -> (r: String)
    ensures
        r@ == first_line(message@),
{
    let v = str_to_chars(message);
    match first_index_exec(&v, '\n') {
        None => chars_to_string(&v, 0, v.len()),
        Some(i) => {
            proof {
                lemma_first_index(v@, '\n');
            }
            let end = if i > 0 && v[i - 1] == '\r' {
                i - 1
            } else {
                i
            };
            proof {
                let seg = v@.subrange(0, i as int);
                if i > 0 && v@[i - 1] == '\r' {
                    assert(seg.last() == v@[i - 1]);
                    assert(seg.drop_last() =~= v@.subrange(0, end as int));
                } else {
                    assert(seg =~= v@.subrange(0, end as int));
                }
            }
            chars_to_string(&v, 0, end)
        },
    }
}

/// The validator checks commit messages against a commit policy.
pub struct CommitValidator<'a> {
    policy: &'a CommitModel,
}

impl<'a> CommitValidator<'a> {
    /// The policy this validator applies.
    pub closed spec fn model(&self) -> CommitModel {
        *self.policy
    }

    /// A validator for `policy`.
    pub fn new(policy: &'a CommitModel) -> (r: Self)
        ensures
            r.model() == *policy,
    {
        Self { policy }
    }

    /// The violations of a single commit message.
    pub fn validate_message(&self, message: &str) -> (r: Vec<CommitViolation>)
        ensures
            violation_views(r@) == violations_spec(self.model(), message@),
            self.model().require_conventional && self.model().scope_requirement
                == ScopeRequirement::Required && header_lacks_scope(message@) ==> violation_views(
                r@,
            ).contains(ViolationView::MissingScopeWhenRequired),
    {
        proof {
            lemma_required_scope(self.model(), message@);
        }
        let policy = self.policy;
        if !policy.require_conventional {
            let violations: Vec<CommitViolation> = Vec::new();
            assert(violation_views(violations@) =~= Seq::<ViolationView>::empty());
            return violations;
        }
        let header_line = first_line_exec(message);
        match ParsedHeader::parse(header_line.as_str()) {
            Some(parsed) => {
                let mut violations = lead_checks(policy, &parsed);
                subject_checks(policy, &parsed.subject, &mut violations);
                breaking_checks(policy, message, parsed.is_breaking, &mut violations);
                ticket_checks(policy, message, &mut violations);
                violations
            },
            None => {
                let mut violations: Vec<CommitViolation> = Vec::new();
                violations.push(CommitViolation::InvalidHeaderFormat);
                assert(violation_views(violations@) =~= seq![ViolationView::InvalidHeaderFormat]);
                violations
            },
        }
    }
}

/// The emoji, type and scope checks of a parsed header.
fn lead_checks(policy: &CommitModel, parsed: &ParsedHeader) -> (r: Vec<CommitViolation>)
    ensures
        violation_views(r@) == lead_violations(*policy, header_view(*parsed)),
{
    let ghost h = header_view(*parsed);
    let ghost p = *policy;
    let mut violations: Vec<CommitViolation> = Vec::new();
    if parsed.emoji.is_some() && !policy.use_emojis {
        violations.push(CommitViolation::EmojiNotAllowed);
    }
    assert(violation_views(violations@) =~= (if h.4 is Some && !p.use_emojis {
        seq![ViolationView::EmojiNotAllowed]
    } else {
        seq![]
    }));
    let ghost v1 = violation_views(violations@);
    if !policy.allows_type(parsed.type_key.as_str()) {
        violations.push(CommitViolation::InvalidType(parsed.type_key.clone()));
        assert(violation_views(violations@) =~= v1.push(ViolationView::InvalidType(h.0)));
    }
    let ghost v2 = violation_views(violations@);
    match &parsed.scope {
        Some(scope) => {
            if policy.scope_requirement == ScopeRequirement::Disabled {
                violations.push(CommitViolation::ScopeNotAllowed(scope.clone()));
                assert(violation_views(violations@) =~= v2.push(
                    ViolationView::ScopeNotAllowed(scope@),
                ));
            } else if policy.restrict_scopes_to_defined && !policy.allows_scope(scope.as_str()) {
                violations.push(CommitViolation::InvalidScope(scope.clone()));
                assert(violation_views(violations@) =~= v2.push(ViolationView::InvalidScope(scope@)));
            }
        },
        None => {
            if policy.scope_requirement == ScopeRequirement::Required {
                violations.push(CommitViolation::MissingScopeWhenRequired);
                assert(violation_views(violations@) =~= v2.push(
                    ViolationView::MissingScopeWhenRequired,
                ));
            }
        },
    }
    violations
}

/// The subject check: appends the subject violation, if any.
fn subject_checks(policy: &CommitModel, subject: &String, violations: &mut Vec<CommitViolation>)
    ensures
        violation_views(final(violations)@) == subject_step(
            *policy,
            subject@,
            violation_views(old(violations)@),
        ),
{
    let ghost v0 = violation_views(violations@);
    let subject_len = subject.as_str().len();
    if subject.as_str().is_empty() {
        violations.push(CommitViolation::EmptySubject);
        assert(violation_views(violations@) =~= v0.push(ViolationView::EmptySubject));
    } else if subject_len as u32 > policy.subject_max_length {
        violations.push(
            CommitViolation::SubjectTooLong { length: subject_len, max: policy.subject_max_length },
        );
        assert(violation_views(violations@) =~= v0.push(
            ViolationView::SubjectTooLong { length: subject_len, max: policy.subject_max_length },
        ));
    } else {
        assert(violation_views(violations@) =~= v0);
    }
}

/// The breaking-change checks: appends the breaking-change violations.
fn breaking_checks(
    policy: &CommitModel,
    message: &str,
    is_breaking: bool,
    violations: &mut Vec<CommitViolation>,
)
    ensures
        violation_views(final(violations)@) == breaking_step(
            *policy,
            message@,
            is_breaking,
            violation_views(old(violations)@),
        ),
{
    let ghost v0 = violation_views(violations@);
    let body = CommitBody::parse(message);
    let has_footer = body.has_breaking_footer(policy.breaking_footer_key.as_str());
    if policy.breaking_header_required && !is_breaking && has_footer {
        violations.push(CommitViolation::MissingBreakingHeader);
        assert(violation_views(violations@) =~= v0.push(ViolationView::MissingBreakingHeader));
    } else {
        assert(violation_views(violations@) =~= v0);
    }
    let ghost v1 = violation_views(violations@);
    if policy.breaking_footer_required && is_breaking && !has_footer {
        violations.push(CommitViolation::MissingBreakingFooter);
        assert(violation_views(violations@) =~= v1.push(ViolationView::MissingBreakingFooter));
    }
}

/// The ticket checks: appends the ticket violation, if any.
fn ticket_checks(policy: &CommitModel, message: &str, violations: &mut Vec<CommitViolation>)
    ensures
        violation_views(final(violations)@) == ticket_violations(
            *policy,
            message@,
            violation_views(old(violations)@),
        ),
{
    let ghost v0 = violation_views(violations@);
    if !policy.ticket.enabled {
        return ;
    }
    match &policy.ticket.regex {
        Some(ticket_regex) => {
            match regex_search(ticket_regex.as_str(), message) {
                Some(found) => {
                    if policy.ticket.required && !found {
                        violations.push(
                            CommitViolation::InvalidTicketFormat(
                                concat2("Does not match pattern: ", ticket_regex.as_str()),
                            ),
                        );
                        assert(violation_views(violations@) =~= v0.push(
                            ViolationView::InvalidTicketFormat(
                                "Does not match pattern: "@ + ticket_regex@,
                            ),
                        ));
                    }
                },
                None => {
                    violations.push(
                        CommitViolation::InvalidTicketFormat(
                            concat2("Invalid ticket regex pattern: ", ticket_regex.as_str()),
                        ),
                    );
                    assert(violation_views(violations@) =~= v0.push(
                        ViolationView::InvalidTicketFormat(
                            "Invalid ticket regex pattern: "@ + ticket_regex@,
                        ),
                    ));
                },
            }
        },
        None => {
            if policy.ticket.required {
                violations.push(CommitViolation::MissingTicket);
                assert(violation_views(violations@) =~= v0.push(ViolationView::MissingTicket));
            }
        },
    }
}

// ---------------------------------------------------------------------------
// Validating many commits
// ---------------------------------------------------------------------------
/// The result of validating one commit.
#[derive(Debug, Clone)]
pub struct ValidatedCommit {
    pub hash: String,
    pub summary: String,
    pub valid: bool,
    pub violations: Vec<CommitViolation>,
}

/// The result of validating a list of commits.
#[derive(Debug, Clone)]
pub struct ValidateReport {
    pub total: usize,
    pub invalid_count: usize,
    pub commits: Vec<ValidatedCommit>,
}

/// The message a commit is validated by: its full message when fetched,
/// else its summary.
pub open spec fn message_of(c: CommitSummary) -> Seq<char> {
    match c.full_message {
        Some(m) => m@,
        None => c.summary@,
    }
}

/// How many validated commits are invalid.
pub open spec fn invalid_count_spec(v: Seq<ValidatedCommit>) -> nat
    decreases v.len(),
{
    if v.len() == 0 {
        0
    } else {
        invalid_count_spec(v.drop_last()) + if v.last().valid {
            0nat
        } else {
            1nat
        }
    }
}

/// There are no more invalid commits than commits.
pub proof fn lemma_invalid_count_le(v: Seq<ValidatedCommit>)
    ensures
        invalid_count_spec(v) <= v.len(),
    decreases v.len(),
{
    if v.len() > 0 {
        lemma_invalid_count_le(v.drop_last());
    }
}

/// A validated commit records the commit and the violations of its message.
pub open spec fn validated_from(v: ValidatedCommit, c: CommitSummary, p: CommitModel) -> bool {
    &&& v.hash == c.hash
    &&& v.summary == c.summary
    &&& violation_views(v.violations@) == violations_spec(p, message_of(c))
    &&& v.valid == (v.violations@.len() == 0)
}

/// Validates each commit by its full message (or its summary when the full
/// message was not fetched) and counts the invalid ones.
pub fn validate_commits(commits: Vec<CommitSummary>, policy: &CommitModel) -> (r: ValidateReport)
    ensures
        r.total == commits@.len(),
        r.commits@.len() == commits@.len(),
        forall|i: int|
            0 <= i < commits@.len() ==> validated_from(#[trigger] r.commits@[i], commits@[i], *policy),
        r.invalid_count == invalid_count_spec(r.commits@),
{
    let validator = CommitValidator::new(policy);
    let mut validated: Vec<ValidatedCommit> = Vec::new();
    let mut invalid_count: usize = 0;
    let mut i: usize = 0;
    while i < commits.len()
        invariant
            0 <= i <= commits@.len(),
            validator.model() == *policy,
            validated@.len() == i,
            forall|j: int|
                0 <= j < i ==> validated_from(#[trigger] validated@[j], commits@[j], *policy),
            invalid_count == invalid_count_spec(validated@),
            invalid_count <= i,
        decreases commits@.len() - i,
    {
        let commit = &commits[i];
        let violations = match &commit.full_message {
            Some(m) => validator.validate_message(m.as_str()),
            None => validator.validate_message(commit.summary.as_str()),
        };
        let valid = violations.len() == 0;
        if !valid {
            invalid_count = invalid_count + 1;
        }
        let ghost before = validated@;
        validated.push(
            ValidatedCommit {
                hash: commit.hash.clone(),
                summary: commit.summary.clone(),
                valid,
                violations,
            },
        );
        assert(validated@.drop_last() =~= before);
        i = i + 1;
    }
    ValidateReport { total: validated.len(), invalid_count, commits: validated }
}

} // verus!
