//! Sets of texts kept as strictly ascending lists, in the order of code
//! points (the order of `String` comparison, since UTF-8 preserves it).
use vstd::prelude::*;

use crate::check::texts;
use crate::text::{str_eq, str_to_chars};

verus! {

/// Lexicographic order of texts by code point.
pub open spec fn text_lt(a: Seq<char>, b: Seq<char>) -> bool
    decreases a.len(),
{
    if a.len() == 0 {
        b.len() > 0
    } else if b.len() == 0 {
        false
    } else if a[0] != b[0] {
        (a[0] as u32) < (b[0] as u32)
    } else {
        text_lt(a.drop_first(), b.drop_first())
    }
}

/// A character's code as a `u32` is its code.
proof fn lemma_char_code(c: char)
    ensures
        (c as u32) as int == c as int,
{
    assert(0 <= c as int <= 0x10FFFF);
}

/// The order is irreflexive.
pub proof fn lemma_text_lt_irreflexive(a: Seq<char>)
    ensures
        !text_lt(a, a),
    decreases a.len(),
{
    if a.len() > 0 {
        lemma_text_lt_irreflexive(a.drop_first());
    }
}

/// The order is transitive.
pub proof fn lemma_text_lt_transitive(a: Seq<char>, b: Seq<char>, c: Seq<char>)
    requires
        text_lt(a, b),
        text_lt(b, c),
    ensures
        text_lt(a, c),
    decreases a.len(),
{
    if a.len() > 0 && b.len() > 0 && c.len() > 0 && a[0] == b[0] && b[0] == c[0] {
        lemma_text_lt_transitive(a.drop_first(), b.drop_first(), c.drop_first());
    }
}

/// Any two texts are equal or ordered one way.
pub proof fn lemma_text_lt_total(a: Seq<char>, b: Seq<char>)
    ensures
        a == b || text_lt(a, b) || text_lt(b, a),
    decreases a.len(),
{
    if a.len() == 0 && b.len() == 0 {
        assert(a =~= b);
    } else if a.len() > 0 && b.len() > 0 && a[0] != b[0] {
        lemma_char_code(a[0]);
        lemma_char_code(b[0]);
    } else if a.len() > 0 && b.len() > 0 && a[0] == b[0] {
        lemma_text_lt_total(a.drop_first(), b.drop_first());
        if a.drop_first() == b.drop_first() {
            assert(a =~= seq![a[0]] + a.drop_first());
            assert(b =~= seq![b[0]] + b.drop_first());
        }
    }
}

/// The order is asymmetric.
pub proof fn lemma_text_lt_asymmetric(a: Seq<char>, b: Seq<char>)
    requires
        text_lt(a, b),
    ensures
        !text_lt(b, a),
{
    if text_lt(b, a) {
        lemma_text_lt_transitive(a, b, a);
        lemma_text_lt_irreflexive(a);
    }
}

/// Strictly ascending texts (so each at most once).
pub open spec fn strictly_sorted(s: Seq<Seq<char>>) -> bool {
    forall|i: int, j: int| 0 <= i < j < s.len() ==> text_lt(#[trigger] s[i], #[trigger] s[j])
}

/// Whether `a` comes before `b`.
pub fn text_less(a: &str, b: &str) -> (r: bool)
    ensures
        r == text_lt(a@, b@),
{
    let x = str_to_chars(a);
    let y = str_to_chars(b);
    let mut i: usize = 0;
    assert(x@.subrange(0, x@.len() as int) =~= x@);
    assert(y@.subrange(0, y@.len() as int) =~= y@);
    while i < x.len() && i < y.len()
        invariant
            x@ == a@,
            y@ == b@,
            0 <= i <= x@.len(),
            i <= y@.len(),
            text_lt(x@, y@) == text_lt(
                x@.subrange(i as int, x@.len() as int),
                y@.subrange(i as int, y@.len() as int),
            ),
        decreases x@.len() - i,
    {
        let ghost xs = x@.subrange(i as int, x@.len() as int);
        let ghost ys = y@.subrange(i as int, y@.len() as int);
        assert(xs.drop_first() =~= x@.subrange(i + 1, x@.len() as int));
        assert(ys.drop_first() =~= y@.subrange(i + 1, y@.len() as int));
        assert(xs[0] == x@[i as int] && ys[0] == y@[i as int]);
        let cx = x[i];
        let cy = y[i];
        if cx != cy {
            let ux = cx as u32;
            let uy = cy as u32;
            assert(ux == xs[0] as u32 && uy == ys[0] as u32);
            assert(text_lt(xs, ys) == (ux < uy));
            return ux < uy;
        }
        i = i + 1;
    }
    i < y.len()
}

/// Inserts a text into a strictly ascending list unless it is there already.
pub fn insert_sorted(v: &mut Vec<String>, x: String)
    requires
        strictly_sorted(texts(old(v)@)),
    ensures
        strictly_sorted(texts(final(v)@)),
        texts(final(v)@).to_set() == texts(old(v)@).to_set().insert(x@),
{
    let ghost s = texts(v@);
    let mut i: usize = 0;
    while i < v.len() && text_less(v[i].as_str(), x.as_str())
        invariant
            0 <= i <= v@.len(),
            s == texts(v@),
            strictly_sorted(s),
            forall|k: int| 0 <= k < i ==> text_lt(#[trigger] s[k], x@),
        decreases v@.len() - i,
    {
        i = i + 1;
    }
    if i < v.len() && str_eq(v[i].as_str(), x.as_str()) {
        assert(s.to_set().insert(x@) =~= s.to_set()) by {
            assert(s[i as int] == x@);
        }
        return ;
    }
    proof {
        if i < v@.len() {
            lemma_text_lt_total(s[i as int], x@);
        }
    }
    let ghost xv = x@;
    v.insert(i, x);
    let ghost t = texts(v@);
    assert(t =~= s.insert(i as int, xv));
    assert forall|a: int, b: int| 0 <= a < b < t.len() implies text_lt(
        #[trigger] t[a],
        #[trigger] t[b],
    ) by {
        if b < i {
        } else if b == i {
        } else if a < i {
            if i < s.len() {
                lemma_text_lt_transitive(t[a], xv, s[i as int]);
                if b - 1 > i {
                    lemma_text_lt_transitive(t[a], s[i as int], s[b - 1]);
                }
            }
        } else if a == i {
            if b - 1 > i {
                lemma_text_lt_transitive(xv, s[i as int], s[b - 1]);
            }
        } else {
        }
    }
    assert(t.to_set() =~= s.to_set().insert(xv)) by {
        assert forall|e: Seq<char>| t.to_set().contains(e) implies s.to_set().insert(
            xv,
        ).contains(e) by {
            let k = choose|k: int| 0 <= k < t.len() && t[k] == e;
            if k < i {
                assert(s[k] == e);
            } else if k > i {
                assert(s[k - 1] == e);
            }
        }
        assert forall|e: Seq<char>| s.to_set().insert(xv).contains(e) implies t.to_set().contains(
            e,
        ) by {
            if e == xv {
                assert(t[i as int] == e);
            } else {
                let k = choose|k: int| 0 <= k < s.len() && s[k] == e;
                if k < i {
                    assert(t[k] == e);
                } else {
                    assert(t[k + 1] == e);
                }
            }
        }
    }
}

/// Two strictly ascending lists with the same elements are the same list.
pub proof fn lemma_sorted_unique(a: Seq<Seq<char>>, b: Seq<Seq<char>>)
    requires
        strictly_sorted(a),
        strictly_sorted(b),
        a.to_set() == b.to_set(),
    ensures
        a == b,
    decreases a.len(),
{
    if a.len() == 0 {
        if b.len() > 0 {
            assert(b.to_set().contains(b[0]));
        }
        assert(a =~= b);
    } else if b.len() == 0 {
        assert(a.to_set().contains(a[0]));
    } else {
        // the least elements agree
        assert(a.to_set().contains(a[0]));
        assert(b.to_set().contains(b[0]));
        let ka = choose|k: int| 0 <= k < b.len() && b[k] == a[0];
        let kb = choose|k: int| 0 <= k < a.len() && a[k] == b[0];
        if ka > 0 {
            assert(text_lt(b[0], b[ka]));
            if kb > 0 {
                assert(text_lt(a[0], a[kb]));
                lemma_text_lt_asymmetric(a[0], b[0]);
            } else {
                lemma_text_lt_irreflexive(a[0]);
            }
        }
        assert(a[0] == b[0]);
        let a1 = a.drop_first();
        let b1 = b.drop_first();
        assert forall|e: Seq<char>| a1.to_set().contains(e) implies b1.to_set().contains(e) by {
            let k = choose|k: int| 0 <= k < a1.len() && a1[k] == e;
            assert(a[k + 1] == e);
            assert(b.to_set().contains(e));
            let m = choose|m: int| 0 <= m < b.len() && b[m] == e;
            if m == 0 {
                assert(text_lt(a[0], a[k + 1]));
                lemma_text_lt_irreflexive(e);
            }
            assert(b1[m - 1] == e);
        }
        assert forall|e: Seq<char>| b1.to_set().contains(e) implies a1.to_set().contains(e) by {
            let k = choose|k: int| 0 <= k < b1.len() && b1[k] == e;
            assert(b[k + 1] == e);
            assert(a.to_set().contains(e));
            let m = choose|m: int| 0 <= m < a.len() && a[m] == e;
            if m == 0 {
                assert(text_lt(b[0], b[k + 1]));
                lemma_text_lt_irreflexive(e);
            }
            assert(a1[m - 1] == e);
        }
        assert(a1.to_set() =~= b1.to_set());
        lemma_sorted_unique(a1, b1);
        assert(a =~= seq![a[0]] + a1);
        assert(b =~= seq![b[0]] + b1);
    }
}

} // verus!
