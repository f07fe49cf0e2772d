//! Character-level text utilities shared by the parsers and formatters.
//!
//! Strings are modelled by their sequence of characters (`s@`). Every helper
//! here states its result over that model, so callers can reason about the
//! exact text they build or inspect.
use vstd::prelude::*;
use vstd::string::*;

verus! {

// ---------------------------------------------------------------------------
// Specifications
// ---------------------------------------------------------------------------
/// `s` begins with `p`.
pub open spec fn seq_starts_with(s: Seq<char>, p: Seq<char>) -> bool {
    p.len() <= s.len() && s.subrange(0, p.len() as int) == p
}

/// `s` ends with `p`.
pub open spec fn seq_ends_with(s: Seq<char>, p: Seq<char>) -> bool {
    p.len() <= s.len() && s.subrange(s.len() - p.len(), s.len() as int) == p
}

/// `needle` occurs in `s` at position `i`.
pub open spec fn occurs_at(s: Seq<char>, needle: Seq<char>, i: int) -> bool {
    0 <= i && i + needle.len() <= s.len() && s.subrange(i, i + needle.len()) == needle
}

/// `needle` occurs somewhere in `s`.
pub open spec fn seq_contains(s: Seq<char>, needle: Seq<char>) -> bool {
    exists|i: int| #[trigger] occurs_at(s, needle, i)
}

/// `c` does not occur in `s`.
pub open spec fn char_free(s: Seq<char>, c: char) -> bool {
    forall|i: int| 0 <= i < s.len() ==> s[i] != c
}

/// Index of the first `c` in `s`, or -1 when there is none.
pub open spec fn first_index(s: Seq<char>, c: char) -> int
    decreases s.len(),
{
    if s.len() == 0 {
        -1
    } else if s[0] == c {
        0
    } else {
        let r = first_index(s.drop_first(), c);
        if r < 0 {
            -1
        } else {
            r + 1
        }
    }
}

/// The pieces of `s` between occurrences of `c` (`str::split` with a char).
pub open spec fn split_on(s: Seq<char>, c: char) -> Seq<Seq<char>>
    decreases s.len(),
{
    let i = first_index(s, c);
    if i < 0 {
        seq![s]
    } else {
        proof {
            lemma_first_index(s, c);
        }
        seq![s.subrange(0, i)] + split_on(s.subrange(i + 1, s.len() as int), c)
    }
}

/// Removes one trailing carriage return.
pub open spec fn strip_cr(s: Seq<char>) -> Seq<char> {
    if s.len() > 0 && s.last() == '\r' {
        s.drop_last()
    } else {
        s
    }
}

/// The lines of `s` as `str::lines` yields them.
pub open spec fn lines_of(s: Seq<char>) -> Seq<Seq<char>>
    decreases s.len(),
{
    if s.len() == 0 {
        seq![]
    } else {
        let i = first_index(s, '\n');
        if i < 0 {
            seq![s]
        } else {
            proof {
                lemma_first_index(s, '\n');
            }
            seq![strip_cr(s.subrange(0, i))] + lines_of(s.subrange(i + 1, s.len() as int))
        }
    }
}

/// The first line of `s`, or the empty text when `s` is empty
/// (`s.lines().next().unwrap_or("")`).
pub open spec fn first_line(s: Seq<char>) -> Seq<char> {
    let i = first_index(s, '\n');
    if i < 0 {
        s
    } else {
        strip_cr(s.subrange(0, i))
    }
}

/// Characters with the Unicode `White_Space` property (`char::is_whitespace`).
pub open spec fn is_ws(c: char) -> bool {
    let u = c as u32;
    (0x9 <= u <= 0xd) || u == 0x20 || u == 0x85 || u == 0xa0 || u == 0x1680 || (0x2000 <= u
        <= 0x200a) || u == 0x2028 || u == 0x2029 || u == 0x202f || u == 0x205f || u == 0x3000
}

/// Number of leading characters of `s` that satisfy `p`.
pub open spec fn lead_count(s: Seq<char>, p: spec_fn(char) -> bool) -> nat
    decreases s.len(),
{
    if s.len() == 0 {
        0
    } else if p(s[0]) {
        1 + lead_count(s.drop_first(), p)
    } else {
        0
    }
}

/// Number of trailing characters of `s` that satisfy `p`.
pub open spec fn trail_count(s: Seq<char>, p: spec_fn(char) -> bool) -> nat
    decreases s.len(),
{
    if s.len() == 0 {
        0
    } else if p(s.last()) {
        1 + trail_count(s.drop_last(), p)
    } else {
        0
    }
}

/// `s` without leading whitespace.
pub open spec fn trim_start(s: Seq<char>) -> Seq<char> {
    s.subrange(lead_count(s, |c: char| is_ws(c)) as int, s.len() as int)
}

/// `s` without trailing whitespace.
pub open spec fn trim_end(s: Seq<char>) -> Seq<char> {
    s.subrange(0, s.len() - trail_count(s, |c: char| is_ws(c)))
}

/// `s` without leading and trailing whitespace (`str::trim`).
pub open spec fn trim(s: Seq<char>) -> Seq<char> {
    trim_end(trim_start(s))
}

/// The decimal digit for `d < 10`.
pub open spec fn digit_char(d: nat) -> char {
    ((d + 48) as u32) as char
}

/// Decimal notation of `n` without leading zeros.
pub open spec fn dec(n: nat) -> Seq<char>
    decreases n,
{
    if n < 10 {
        seq![digit_char(n)]
    } else {
        dec(n / 10).push(digit_char(n % 10))
    }
}

/// `c` is an ASCII decimal digit.
pub open spec fn is_digit(c: char) -> bool {
    '0' <= c <= '9'
}

/// Every character of `s` is an ASCII digit.
pub open spec fn all_digits(s: Seq<char>) -> bool {
    forall|i: int| 0 <= i < s.len() ==> is_digit(#[trigger] s[i])
}

/// Value of a digit.
pub open spec fn digit_val(c: char) -> nat {
    ((c as u32) - 48) as nat
}

/// Value of a digit string (most significant digit first).
pub open spec fn digits_value(s: Seq<char>) -> nat
    decreases s.len(),
{
    if s.len() == 0 {
        0
    } else {
        digits_value(s.drop_last()) * 10 + digit_val(s.last())
    }
}

/// The digits that an unsigned integer parse reads: an optional `+` is dropped.
pub open spec fn unsigned_body(s: Seq<char>) -> Seq<char> {
    if s.len() > 0 && s[0] == '+' {
        s.drop_first()
    } else {
        s
    }
}

/// Mathematical value of an unsigned integer literal as `str::parse` reads it:
/// an optional `+` followed by one or more ASCII digits.
pub open spec fn parse_unsigned(s: Seq<char>) -> Option<nat> {
    let b = unsigned_body(s);
    if b.len() > 0 && all_digits(b) {
        Some(digits_value(b))
    } else {
        None
    }
}

/// Mathematical value of a signed integer literal as `str::parse` reads it:
/// an optional `+` or `-` followed by one or more ASCII digits.
pub open spec fn parse_signed(s: Seq<char>) -> Option<int> {
    if s.len() > 0 && s[0] == '-' {
        let b = s.drop_first();
        if b.len() > 0 && all_digits(b) {
            Some(-(digits_value(b) as int))
        } else {
            None
        }
    } else {
        match parse_unsigned(s) {
            Some(v) => Some(v as int),
            None => None,
        }
    }
}

/// `u64` parsing (`str::parse::<u64>`).
pub open spec fn parse_u64_spec(s: Seq<char>) -> Option<u64> {
    match parse_unsigned(s) {
        Some(v) => if v <= u64::MAX {
            Some(v as u64)
        } else {
            None
        },
        None => None,
    }
}

/// `u32` parsing (`str::parse::<u32>`).
pub open spec fn parse_u32_spec(s: Seq<char>) -> Option<u32> {
    match parse_unsigned(s) {
        Some(v) => if v <= u32::MAX {
            Some(v as u32)
        } else {
            None
        },
        None => None,
    }
}

/// `i64` parsing (`str::parse::<i64>`).
pub open spec fn parse_i64_spec(s: Seq<char>) -> Option<i64> {
    match parse_signed(s) {
        Some(v) => if i64::MIN <= v <= i64::MAX {
            Some(v as i64)
        } else {
            None
        },
        None => None,
    }
}

// ---------------------------------------------------------------------------
// Lemmas
// ---------------------------------------------------------------------------
/// Characterisation of `first_index`.
pub proof fn lemma_first_index(s: Seq<char>, c: char)
    ensures
        -1 <= first_index(s, c) < s.len(),
        first_index(s, c) >= 0 ==> s[first_index(s, c)] == c,
        forall|j: int|
            0 <= j < s.len() && (first_index(s, c) < 0 || j < first_index(s, c)) ==> s[j] != c,
    decreases s.len(),
{
    if s.len() > 0 && s[0] != c {
        lemma_first_index(s.drop_first(), c);
        assert forall|j: int|
            0 <= j < s.len() && (first_index(s, c) < 0 || j < first_index(s, c)) implies s[j]
            != c by {
            if j > 0 {
                assert(s[j] == s.drop_first()[j - 1]);
            }
        }
    }
}

/// The first index is the unique position of `c` that has no `c` before it.
pub proof fn lemma_first_index_is(s: Seq<char>, c: char, i: int)
    requires
        0 <= i < s.len(),
        s[i] == c,
        char_free(s.subrange(0, i), c),
    ensures
        first_index(s, c) == i,
{
    lemma_first_index(s, c);
    let f = first_index(s, c);
    if f < 0 || f > i {
    } else if f < i {
        assert(s.subrange(0, i)[f] == s[f]);
    }
}

/// A text without `c` has no first index of `c`.
pub proof fn lemma_first_index_none(s: Seq<char>, c: char)
    requires
        char_free(s, c),
    ensures
        first_index(s, c) == -1,
{
    lemma_first_index(s, c);
    if first_index(s, c) >= 0 {
        assert(s[first_index(s, c)] == c);
    }
}

/// Splitting `x + [c] + y` where `x` has no `c`.
pub proof fn lemma_split_cons(x: Seq<char>, c: char, y: Seq<char>)
    requires
        char_free(x, c),
    ensures
        split_on(x + seq![c] + y, c) == seq![x] + split_on(y, c),
{
    let s = x + seq![c] + y;
    assert(s[x.len() as int] == c);
    assert(s.subrange(0, x.len() as int) == x);
    lemma_first_index_is(s, c, x.len() as int);
    assert(s.subrange(x.len() as int + 1, s.len() as int) == y);
}

/// Splitting a text that has no `c`.
pub proof fn lemma_split_none(x: Seq<char>, c: char)
    requires
        char_free(x, c),
    ensures
        split_on(x, c) == seq![x],
{
    lemma_first_index_none(x, c);
}

/// Decimal notation is non-empty and made of digits.
pub proof fn lemma_dec_digits(n: nat)
    ensures
        dec(n).len() > 0,
        all_digits(dec(n)),
        digits_value(dec(n)) == n,
        n == 0 || dec(n)[0] != '0',
        n == 0 ==> dec(n) == seq!['0'],
    decreases n,
{
    lemma_digit_char(n % 10);
    if n >= 10 {
        if n / 10 < 10 {
            lemma_digit_char(n / 10);
            assert(dec(n / 10) == seq![digit_char(n / 10)]);
            assert(dec(n / 10)[0] != '0');
        }
        lemma_dec_digits(n / 10);
        let d = dec(n / 10);
        let s = d.push(digit_char(n % 10));
        assert(s.drop_last() == d);
        assert(s.last() == digit_char(n % 10));
        assert(n == (n / 10) * 10 + n % 10);
        assert(digits_value(s) == digits_value(d) * 10 + digit_val(digit_char(n % 10)));
        assert forall|i: int| 0 <= i < s.len() implies is_digit(#[trigger] s[i]) by {
            if i < d.len() {
                assert(s[i] == d[i]);
            }
        }
        assert(s[0] == d[0]);
        assert(dec(n) == s);
    } else {
        let s = dec(n);
        assert(s == seq![digit_char(n)]);
        assert(s.drop_last() =~= Seq::<char>::empty());
        assert(digits_value(s.drop_last()) == 0);
    }
}

/// Digit characters and their values.
pub proof fn lemma_digit_char(d: nat)
    requires
        d < 10,
    ensures
        is_digit(digit_char(d)),
        digit_val(digit_char(d)) == d,
        digit_char(d) == '0' <==> d == 0,
{
    assert(((d + 48) as u32) as char as u32 == d + 48);
}

/// A digit string has no `c` that is not a digit.
pub proof fn lemma_digits_char_free(s: Seq<char>, c: char)
    requires
        all_digits(s),
        !is_digit(c),
    ensures
        char_free(s, c),
{
    assert forall|i: int| 0 <= i < s.len() implies s[i] != c by {
        assert(is_digit(s[i]));
    }
}

/// The value of a digit string never decreases as digits are appended.
pub proof fn lemma_digits_value_mono(s: Seq<char>, j: int, k: int)
    requires
        0 <= j <= k <= s.len(),
    ensures
        digits_value(s.subrange(0, j)) <= digits_value(s.subrange(0, k)),
    decreases k - j,
{
    if j < k {
        lemma_digits_value_mono(s, j, k - 1);
        assert(s.subrange(0, k).drop_last() == s.subrange(0, k - 1));
    }
}

// ---------------------------------------------------------------------------
// Executable helpers
// ---------------------------------------------------------------------------
/// Appends one character to a string (`String::push`).
#[verifier::external_body]
pub(crate) fn push_char(s: &mut String, c: char)
    ensures
        final(s)@ == old(s)@.push(c),
{
    s.push(c);
}

/// The characters of a string slice, in order.
pub fn str_to_chars(s: &str) -> (v: Vec<char>)
    ensures
        v@ == s@,
{
    let mut v: Vec<char> = Vec::new();
    for c in it: s.chars()
        invariant
            v@ == it.seq().take(it.index() as int),
    {
        v.push(c);
    }
    v
}

/// The string made of the characters `v[from..to]`.
pub fn chars_to_string(v: &Vec<char>, from: usize, to: usize) -> (s: String)
    requires
        from <= to <= v.len(),
    ensures
        s@ == v@.subrange(from as int, to as int),
{
    let mut s = String::new();
    let mut i = from;
    while i < to
        invariant
            from <= i <= to <= v.len(),
            s@ == v@.subrange(from as int, i as int),
        decreases to - i,
    {
        push_char(&mut s, v[i]);
        i = i + 1;
        assert(s@ =~= v@.subrange(from as int, i as int));
    }
    s
}

/// A fresh string with the text of `s`.
pub fn owned(s: &str) -> (r: String)
    ensures
        r@ == s@,
{
    s.to_owned()
}

/// Concatenation of two texts.
pub fn concat2(a: &str, b: &str) -> (r: String)
    ensures
        r@ == a@ + b@,
{
    let mut r = a.to_owned();
    r.append(b);
    r
}

/// Concatenation of three texts.
pub fn concat3(a: &str, b: &str, c: &str) -> (r: String)
    ensures
        r@ == a@ + b@ + c@,
{
    let mut r = a.to_owned();
    r.append(b);
    r.append(c);
    r
}

/// Equality of two texts.
pub fn str_eq(a: &str, b: &str) -> (r: bool)
    ensures
        r == (a@ == b@),
{
    let x = a.to_owned();
    let y = b.to_owned();
    x == y
}

/// Equality of two character sequences.
pub fn chars_eq(a: &Vec<char>, b: &Vec<char>) -> (r: bool)
    ensures
        r == (a@ == b@),
{
    if a.len() != b.len() {
        return false;
    }
    let mut i: usize = 0;
    while i < a.len()
        invariant
            a.len() == b.len(),
            0 <= i <= a.len(),
            a@.subrange(0, i as int) == b@.subrange(0, i as int),
        decreases a.len() - i,
    {
        if a[i] != b[i] {
            assert(a@.subrange(0, i as int + 1)[i as int] == a@[i as int]);
            assert(b@.subrange(0, i as int + 1)[i as int] == b@[i as int]);
            assert(a@ != b@) by {
                if a@ == b@ {
                    assert(a@[i as int] == b@[i as int]);
                }
            }
            return false;
        }
        assert(a@.subrange(0, i as int + 1) =~= a@.subrange(0, i as int).push(a@[i as int]));
        assert(b@.subrange(0, i as int + 1) =~= b@.subrange(0, i as int).push(b@[i as int]));
        i = i + 1;
    }
    assert(a@ =~= a@.subrange(0, a.len() as int));
    assert(b@ =~= b@.subrange(0, b.len() as int));
    true
}

/// Whether `s[at..]` begins with `p`.
pub fn chars_match_at(s: &Vec<char>, at: usize, p: &Vec<char>) -> (r: bool)
    requires
        at <= s.len(),
    ensures
        r == occurs_at(s@, p@, at as int),
{
    if p.len() > s.len() - at {
        return false;
    }
    let mut i: usize = 0;
    while i < p.len()
        invariant
            at + p.len() <= s.len(),
            0 <= i <= p.len(),
            s@.subrange(at as int, at + i) == p@.subrange(0, i as int),
        decreases p.len() - i,
    {
        if s[at + i] != p[i] {
            assert(!occurs_at(s@, p@, at as int)) by {
                if occurs_at(s@, p@, at as int) {
                    assert(s@.subrange(at as int, at + p.len())[i as int] == s@[at + i]);
                }
            }
            return false;
        }
        assert(s@.subrange(at as int, at + i + 1) =~= s@.subrange(at as int, at + i).push(
            s@[at + i],
        ));
        assert(p@.subrange(0, i + 1) =~= p@.subrange(0, i as int).push(p@[i as int]));
        i = i + 1;
    }
    assert(p@ =~= p@.subrange(0, p.len() as int));
    true
}

/// Whether `s` begins with `p`.
pub fn chars_starts_with(s: &Vec<char>, p: &Vec<char>) -> (r: bool)
    ensures
        r == seq_starts_with(s@, p@),
{
    chars_match_at(s, 0, p)
}

/// Whether `p` occurs anywhere in `s`.
pub fn chars_contains(s: &Vec<char>, p: &Vec<char>) -> (r: bool)
    ensures
        r == seq_contains(s@, p@),
{
    let mut i: usize = 0;
    while i < s.len()
        invariant
            0 <= i <= s.len(),
            forall|j: int| 0 <= j < i ==> !occurs_at(s@, p@, j),
        decreases s.len() - i,
    {
        if chars_match_at(s, i, p) {
            return true;
        }
        i = i + 1;
    }
    if chars_match_at(s, i, p) {
        return true;
    }
    assert forall|j: int| !occurs_at(s@, p@, j) by {
        if 0 <= j < i {
        }
    }
    false
}

/// Index of the first `c` in `s` at or after `from`.
pub fn find_char_from(s: &Vec<char>, c: char, from: usize) -> (r: Option<usize>)
    requires
        from <= s.len(),
    ensures
        match r {
            Some(i) => from <= i < s.len() && s@[i as int] == c && char_free(
                s@.subrange(from as int, i as int),
                c,
            ),
            None => char_free(s@.subrange(from as int, s.len() as int), c),
        },
{
    let mut i = from;
    while i < s.len()
        invariant
            from <= i <= s.len(),
            char_free(s@.subrange(from as int, i as int), c),
        decreases s.len() - i,
    {
        if s[i] == c {
            return Some(i);
        }
        assert forall|j: int| 0 <= j < i + 1 - from implies #[trigger] s@.subrange(
            from as int,
            i + 1,
        )[j] != c by {
            if j < i - from {
                assert(s@.subrange(from as int, i + 1)[j] == s@.subrange(from as int, i as int)[j]);
            }
        }
        i = i + 1;
    }
    None
}

/// Position of the first `c` in `s` as `first_index` states it.
pub fn first_index_exec(s: &Vec<char>, c: char) -> (r: Option<usize>)
    ensures
        match r {
            Some(i) => first_index(s@, c) == i as int,
            None => first_index(s@, c) == -1,
        },
{
    let r = find_char_from(s, c, 0);
    match r {
        Some(i) => {
            proof {
                assert(s@.subrange(0, i as int) =~= s@.subrange(0 as int, i as int));
                lemma_first_index_is(s@, c, i as int);
            }
            Some(i)
        },
        None => {
            proof {
                assert(s@.subrange(0, s.len() as int) =~= s@);
                lemma_first_index_none(s@, c);
            }
            None
        },
    }
}

/// Whether `c` is whitespace (`char::is_whitespace`).
pub fn is_whitespace(c: char) -> (r: bool)
    ensures
        r == is_ws(c),
{
    let u = c as u32;
    (0x9 <= u && u <= 0xd) || u == 0x20 || u == 0x85 || u == 0xa0 || u == 0x1680 || (0x2000
        <= u && u <= 0x200a) || u == 0x2028 || u == 0x2029 || u == 0x202f || u == 0x205f || u
        == 0x3000
}

/// Bounds of the text left after trimming whitespace at both ends.
pub fn trim_bounds(s: &Vec<char>) -> (r: (usize, usize))
    ensures
        r.0 <= r.1 <= s.len(),
        s@.subrange(r.0 as int, r.1 as int) == trim(s@),
{
    let mut a: usize = 0;
    while a < s.len() && is_whitespace(s[a])
        invariant
            0 <= a <= s.len(),
            forall|j: int| 0 <= j < a ==> is_ws(#[trigger] s@[j]),
        decreases s.len() - a,
    {
        a = a + 1;
    }
    proof {
        lemma_lead_count(s@, a as int);
    }
    let ghost t = s@.subrange(a as int, s.len() as int);
    let mut b: usize = s.len();
    while b > a && is_whitespace(s[b - 1])
        invariant
            a <= b <= s.len(),
            forall|j: int| b <= j < s.len() ==> is_ws(#[trigger] s@[j]),
        decreases b,
    {
        b = b - 1;
    }
    proof {
        assert forall|j: int| (b - a) <= j < t.len() implies is_ws(#[trigger] t[j]) by {
            assert(t[j] == s@[j + a]);
        }
        if b > a {
            assert(t[b - a - 1] == s@[b - 1]);
        }
        lemma_trail_count(t, b - a);
        assert(s@.subrange(a as int, b as int) =~= t.subrange(0, b - a));
    }
    (a, b)
}

/// `lead_count` of whitespace given a whitespace prefix that stops at `a`.
pub proof fn lemma_lead_count(s: Seq<char>, a: int)
    requires
        0 <= a <= s.len(),
        forall|j: int| 0 <= j < a ==> is_ws(#[trigger] s[j]),
        a == s.len() || !is_ws(s[a]),
    ensures
        lead_count(s, |c: char| is_ws(c)) == a,
    decreases a,
{
    if a > 0 {
        let t = s.drop_first();
        assert forall|j: int| 0 <= j < a - 1 implies is_ws(#[trigger] t[j]) by {
            assert(t[j] == s[j + 1]);
        }
        if a < s.len() {
            assert(t[a - 1] == s[a]);
        }
        lemma_lead_count(t, a - 1);
    }
}

/// `trail_count` of whitespace given a whitespace suffix that starts at `b`.
pub proof fn lemma_trail_count(s: Seq<char>, b: int)
    requires
        0 <= b <= s.len(),
        forall|j: int| b <= j < s.len() ==> is_ws(#[trigger] s[j]),
        b == 0 || !is_ws(s[b - 1]),
    ensures
        trail_count(s, |c: char| is_ws(c)) == s.len() - b,
    decreases s.len() - b,
{
    if b < s.len() {
        let t = s.drop_last();
        assert forall|j: int| b <= j < t.len() implies is_ws(#[trigger] t[j]) by {
            assert(t[j] == s[j]);
        }
        if b > 0 {
            assert(t[b - 1] == s[b - 1]);
        }
        lemma_trail_count(t, b);
    }
}

/// Decimal notation of a number, as `to_string` writes it.
pub fn u64_to_dec(n: u64) -> (v: Vec<char>)
    ensures
        v@ == dec(n as nat),
    decreases n,
{
    if n < 10 {
        let c = char_from_digit(n);
        let mut v = Vec::new();
        v.push(c);
        v
    } else {
        let mut v = u64_to_dec(n / 10);
        let c = char_from_digit(n % 10);
        v.push(c);
        v
    }
}

/// The character of a decimal digit.
fn char_from_digit(d: u64) -> (c: char)
    requires
        d < 10,
    ensures
        c == digit_char(d as nat),
{
    if d == 0 {
        '0'
    } else if d == 1 {
        '1'
    } else if d == 2 {
        '2'
    } else if d == 3 {
        '3'
    } else if d == 4 {
        '4'
    } else if d == 5 {
        '5'
    } else if d == 6 {
        '6'
    } else if d == 7 {
        '7'
    } else if d == 8 {
        '8'
    } else {
        '9'
    }
}

/// Decimal notation of a number as a string.
pub fn u64_to_string(n: u64) -> (s: String)
    ensures
        s@ == dec(n as nat),
{
    let v = u64_to_dec(n);
    chars_to_string(&v, 0, v.len())
}

/// Parses `s[from..to]` as digits into a `u64`, `None` on a non-digit or overflow.
fn parse_digits_u64(s: &Vec<char>, from: usize, to: usize) -> (r: Option<u64>)
    requires
        from <= to <= s.len(),
    ensures
        ({
            let b = s@.subrange(from as int, to as int);
            match r {
                Some(v) => all_digits(b) && digits_value(b) == v,
                None => !all_digits(b) || digits_value(b) > u64::MAX,
            }
        }),
{
    let ghost b = s@.subrange(from as int, to as int);
    let mut acc: u64 = 0;
    let mut i = from;
    while i < to
        invariant
            from <= i <= to <= s.len(),
            b == s@.subrange(from as int, to as int),
            all_digits(b.subrange(0, i - from)),
            acc == digits_value(b.subrange(0, i - from)),
        decreases to - i,
    {
        let c = s[i];
        assert(b[i - from] == c);
        if !('0' <= c && c <= '9') {
            assert(!all_digits(b));
            return None;
        }
        let d = (c as u32 - 48) as u64;
        let ghost prefix = b.subrange(0, i - from + 1);
        assert(prefix.drop_last() =~= b.subrange(0, i - from));
        assert(prefix.last() == c);
        match acc.checked_mul(10) {
            Some(m) => match m.checked_add(d) {
                Some(n) => {
                    acc = n;
                },
                None => {
                    proof {
                        lemma_digits_value_mono(b, i - from + 1, b.len() as int);
                        assert(b.subrange(0, b.len() as int) =~= b);
                    }
                    return None;
                },
            },
            None => {
                proof {
                    lemma_digits_value_mono(b, i - from + 1, b.len() as int);
                    assert(b.subrange(0, b.len() as int) =~= b);
                }
                return None;
            },
        }
        assert forall|j: int| 0 <= j < prefix.len() implies is_digit(#[trigger] prefix[j]) by {
            if j < prefix.len() - 1 {
                assert(prefix[j] == b.subrange(0, i - from)[j]);
            }
        }
        i = i + 1;
    }
    assert(b.subrange(0, to - from) =~= b);
    Some(acc)
}

/// The pieces of `s` between occurrences of `c`, as strings (`str::split`).
pub fn split_chars(s: &Vec<char>, c: char) -> (r: Vec<String>)
    ensures
        r@.map_values(|x: String| x@) == split_on(s@, c),
{
    let mut r: Vec<String> = Vec::new();
    let mut start: usize = 0;
    assert(r@.map_values(|x: String| x@) =~= Seq::<Seq<char>>::empty());
    assert(s@.subrange(0, s@.len() as int) =~= s@);
    assert(Seq::<Seq<char>>::empty() + split_on(s@, c) =~= split_on(s@, c));
    loop
        invariant
            0 <= start <= s@.len(),
            r@.map_values(|x: String| x@) + split_on(s@.subrange(start as int, s@.len() as int), c)
                == split_on(s@, c),
        decreases s@.len() - start,
    {
        let ghost rest = s@.subrange(start as int, s@.len() as int);
        match find_char_from(s, c, start) {
            Some(i) => {
                let piece = chars_to_string(s, start, i);
                proof {
                    let x = s@.subrange(start as int, i as int);
                    let y = s@.subrange(i + 1, s@.len() as int);
                    assert(rest =~= x + seq![c] + y);
                    lemma_split_cons(x, c, y);
                }
                let ghost before = r@.map_values(|x: String| x@);
                r.push(piece);
                assert(r@.map_values(|x: String| x@) =~= before.push(piece@));
                start = i + 1;
            },
            None => {
                let piece = chars_to_string(s, start, s.len());
                proof {
                    lemma_split_none(rest, c);
                }
                let ghost before = r@.map_values(|x: String| x@);
                r.push(piece);
                assert(r@.map_values(|x: String| x@) =~= before.push(piece@));
                assert(before + split_on(rest, c) =~= before.push(piece@));
                return r;
            },
        }
    }
}

/// `str::parse::<u64>` over characters.
pub fn parse_u64(s: &Vec<char>) -> (r: Option<u64>)
    ensures
        r == parse_u64_spec(s@),
{
    let from: usize = if s.len() > 0 && s[0] == '+' {
        1
    } else {
        0
    };
    assert(unsigned_body(s@) =~= s@.subrange(from as int, s.len() as int));
    if from == s.len() {
        return None;
    }
    parse_digits_u64(s, from, s.len())
}

/// `str::parse::<u32>` over characters.
pub fn parse_u32(s: &Vec<char>) -> (r: Option<u32>)
    ensures
        r == parse_u32_spec(s@),
{
    match parse_u64(s) {
        Some(v) => if v <= 0xffff_ffff {
            Some(v as u32)
        } else {
            None
        },
        None => {
            None
        },
    }
}

/// `str::parse::<i64>` over characters.
pub fn parse_i64(s: &Vec<char>) -> (r: Option<i64>)
    ensures
        r == parse_i64_spec(s@),
{
    if s.len() > 0 && s[0] == '-' {
        if s.len() == 1 {
            return None;
        }
        assert(s@.drop_first() =~= s@.subrange(1, s.len() as int));
        match parse_digits_u64(s, 1, s.len()) {
            Some(v) => {
                if v <= 0x8000_0000_0000_0000 {
                    if v == 0x8000_0000_0000_0000 {
                        Some(i64::MIN)
                    } else {
                        Some(-(v as i64))
                    }
                } else {
                    None
                }
            },
            None => None,
        }
    } else {
        match parse_u64(s) {
            Some(v) => if v <= 0x7fff_ffff_ffff_ffff {
                Some(v as i64)
            } else {
                None
            },
            None => None,
        }
    }
}

} // verus!
