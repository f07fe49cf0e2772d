//! TOML documents as trees: reading, setting and removing the value under a
//! dotted key.
use vstd::prelude::*;

use crate::error::{context_view, Error, ErrorCode};
use crate::ordered::{text_less, text_lt};
use crate::text::{split_chars, split_on, str_eq, str_to_chars};

verus! {

/// A TOML value. A float is held by its IEEE-754 bits, a date-time by its
/// text. Tables are lists of `(key, value)` pairs in ascending key order,
/// each key at most once, as TOML's own tables keep them.
#[derive(Debug)]
pub enum TomlValue {
    String(String),
    Integer(i64),
    Float(u64),
    Boolean(bool),
    Datetime(String),
    Array(Vec<TomlValue>),
    Table(Vec<(String, TomlValue)>),
}

/// A TOML value as mathematics.
pub enum TomlView {
    Str(Seq<char>),
    Int(i64),
    Float(u64),
    Bool(bool),
    Datetime(Seq<char>),
    Array(Seq<TomlView>),
    Table(Seq<(Seq<char>, TomlView)>),
}

/// The mathematical value of a TOML value.
pub open spec fn tview(v: TomlValue) -> TomlView
    decreases v,
{
    match v {
        TomlValue::String(s) => TomlView::Str(s@),
        TomlValue::Integer(i) => TomlView::Int(i),
        TomlValue::Float(f) => TomlView::Float(f),
        TomlValue::Boolean(b) => TomlView::Bool(b),
        TomlValue::Datetime(d) => TomlView::Datetime(d@),
        TomlValue::Array(a) => TomlView::Array(
            Seq::new(
                a@.len(),
                |i: int|
                    if 0 <= i < a@.len() {
                        proof {
                            broadcast use vstd::std_specs::vec::axiom_vec_decreases_to_view;

                            assert(decreases_to!(a => a@));
                            assert(decreases_to!(a@ => a@[i]));
                        }
                        tview(a@[i])
                    } else {
                        TomlView::Int(0)
                    },
            ),
        ),
        TomlValue::Table(t) => TomlView::Table(
            Seq::new(
                t@.len(),
                |i: int|
                    if 0 <= i < t@.len() {
                        proof {
                            broadcast use vstd::std_specs::vec::axiom_vec_decreases_to_view;

                            assert(decreases_to!(t => t@));
                            assert(decreases_to!(t@ => t@[i]));
                            assert(decreases_to!(t@[i] => t@[i].1));
                        }
                        (t@[i].0@, tview(t@[i].1))
                    } else {
                        (Seq::empty(), TomlView::Int(0))
                    },
            ),
        ),
    }
}

/// The entries of a table as mathematics.
pub open spec fn entries_view(t: Seq<(String, TomlValue)>) -> Seq<(Seq<char>, TomlView)> {
    Seq::new(t.len(), |i: int| (t[i].0@, tview(t[i].1)))
}

/// The view of a table is the view of its entries.
pub proof fn lemma_table_view(t: Vec<(String, TomlValue)>)
    ensures
        tview(TomlValue::Table(t)) == TomlView::Table(entries_view(t@)),
{
    if let TomlView::Table(e) = tview(TomlValue::Table(t)) {
        assert(e =~= entries_view(t@));
    }
}

/// The view of an array is the view of its items.
pub proof fn lemma_array_view(a: Vec<TomlValue>)
    ensures
        tview(TomlValue::Array(a)) == TomlView::Array(Seq::new(a@.len(), |i: int| tview(a@[i]))),
{
    if let TomlView::Array(e) = tview(TomlValue::Array(a)) {
        assert(e =~= Seq::new(a@.len(), |i: int| tview(a@[i])));
    }
}

// ---------------------------------------------------------------------------
// Reading
// ---------------------------------------------------------------------------
/// The value under key `k` of table entries.
pub open spec fn tget(t: Seq<(Seq<char>, TomlView)>, k: Seq<char>) -> Option<TomlView>
    decreases t.len(),
{
    if t.len() == 0 {
        None
    } else if t[0].0 == k {
        Some(t[0].1)
    } else {
        tget(t.drop_first(), k)
    }
}

/// The value under key `k` of a value: only tables have keys.
pub open spec fn vget(v: TomlView, k: Seq<char>) -> Option<TomlView> {
    match v {
        TomlView::Table(t) => tget(t, k),
        _ => None,
    }
}

/// The value reached from `v` by the keys of `path`, one level each.
pub open spec fn tlookup(v: TomlView, path: Seq<Seq<char>>) -> Option<TomlView>
    decreases path.len(),
{
    if path.len() == 0 {
        Some(v)
    } else {
        match vget(v, path[0]) {
            Some(x) => tlookup(x, path.drop_first()),
            None => None,
        }
    }
}

/// The value a dotted key names.
pub open spec fn key_lookup(v: TomlView, key: Seq<char>) -> Option<TomlView> {
    tlookup(v, split_on(key, '.'))
}

/// `tget` finds the first entry with the key.
pub proof fn lemma_tget_first(t: Seq<(Seq<char>, TomlView)>, k: Seq<char>, i: int)
    requires
        0 <= i < t.len(),
        t[i].0 == k,
        forall|j: int| 0 <= j < i ==> (#[trigger] t[j]).0 != k,
    ensures
        tget(t, k) == Some(t[i].1),
    decreases i,
{
    if i > 0 {
        assert forall|j: int| 0 <= j < i - 1 implies (#[trigger] t.drop_first()[j]).0 != k by {
            assert(t.drop_first()[j] == t[j + 1]);
        }
        lemma_tget_first(t.drop_first(), k, i - 1);
    }
}

/// `tget` finds nothing when no entry has the key.
pub proof fn lemma_tget_none(t: Seq<(Seq<char>, TomlView)>, k: Seq<char>)
    requires
        forall|j: int| 0 <= j < t.len() ==> (#[trigger] t[j]).0 != k,
    ensures
        tget(t, k) is None,
    decreases t.len(),
{
    if t.len() > 0 {
        assert forall|j: int| 0 <= j < t.len() - 1 implies (#[trigger] t.drop_first()[j]).0 != k by {
            assert(t.drop_first()[j] == t[j + 1]);
        }
        lemma_tget_none(t.drop_first(), k);
    }
}

/// Position of the first entry with key `k`.
fn find_key(t: &Vec<(String, TomlValue)>, k: &str) -> (r: Option<usize>)
    ensures
        match r {
            Some(i) => i < t@.len() && t@[i as int].0@ == k@ && forall|j: int|
                0 <= j < i ==> (#[trigger] t@[j]).0@ != k@,
            None => forall|j: int| 0 <= j < t@.len() ==> (#[trigger] t@[j]).0@ != k@,
        },
{
    let mut i: usize = 0;
    while i < t.len()
        invariant
            0 <= i <= t@.len(),
            forall|j: int| 0 <= j < i ==> (#[trigger] t@[j]).0@ != k@,
        decreases t@.len() - i,
    {
        if str_eq(t[i].0.as_str(), k) {
            return Some(i);
        }
        i = i + 1;
    }
    None
}

/// What a key lookup in a table gives, from the position `find_key` found.
proof fn lemma_find_key_view(t: Seq<(String, TomlValue)>, k: Seq<char>, r: Option<usize>)
    requires
        match r {
            Some(i) => i < t.len() && t[i as int].0@ == k && forall|j: int|
                0 <= j < i ==> (#[trigger] t[j]).0@ != k,
            None => forall|j: int| 0 <= j < t.len() ==> (#[trigger] t[j]).0@ != k,
        },
    ensures
        match r {
            Some(i) => tget(entries_view(t), k) == Some(tview(t[i as int].1)),
            None => tget(entries_view(t), k) is None,
        },
{
    let e = entries_view(t);
    match r {
        Some(i) => {
            assert forall|j: int| 0 <= j < i implies (#[trigger] e[j]).0 != k by {
                assert(e[j].0 == t[j].0@);
            }
            lemma_tget_first(e, k, i as int);
        },
        None => {
            assert forall|j: int| 0 <= j < e.len() implies (#[trigger] e[j]).0 != k by {
                assert(e[j].0 == t[j].0@);
            }
            lemma_tget_none(e, k);
        },
    }
}

/// The value under key `k` of a value, by reference.
fn value_get<'a>(v: &'a TomlValue, k: &str) -> (r: Option<&'a TomlValue>)
    ensures
        match r {
            Some(x) => vget(tview(*v), k@) == Some(tview(*x)),
            None => vget(tview(*v), k@) is None,
        },
{
    match v {
        TomlValue::Table(t) => {
            let f = find_key(t, k);
            proof {
                lemma_table_view(*t);
                lemma_find_key_view(t@, k@, f);
            }
            match f {
                Some(i) => Some(&t[i].1),
                None => None,
            }
        },
        _ => None,
    }
}

/// The value a dotted key names, one table level per segment.
pub fn get_value<'a>(root: &'a TomlValue, key: &str) -> (r: Option<&'a TomlValue>)
    ensures
        match r {
            Some(x) => key_lookup(tview(*root), key@) == Some(tview(*x)),
            None => key_lookup(tview(*root), key@) is None,
        },
{
    let chars = str_to_chars(key);
    let segments = split_chars(&chars, '.');
    let ghost segs = segments@.map_values(|x: String| x@);
    let mut current: &TomlValue = root;
    let mut i: usize = 0;
    assert(segs.subrange(0, segs.len() as int) =~= segs);
    while i < segments.len()
        invariant
            0 <= i <= segments@.len(),
            segs == segments@.map_values(|x: String| x@),
            segs == split_on(key@, '.'),
            tlookup(tview(*root), segs) == tlookup(
                tview(*current),
                segs.subrange(i as int, segs.len() as int),
            ),
        decreases segments@.len() - i,
    {
        let ghost rest = segs.subrange(i as int, segs.len() as int);
        assert(rest[0] == segments@[i as int]@);
        assert(rest.drop_first() =~= segs.subrange(i + 1, segs.len() as int));
        match value_get(current, segments[i].as_str()) {
            Some(next) => {
                current = next;
            },
            None => {
                return None;
            },
        }
        i = i + 1;
    }
    assert(segs.subrange(i as int, segs.len() as int) =~= Seq::<Seq<char>>::empty());
    Some(current)
}

// ---------------------------------------------------------------------------
// Writing
// ---------------------------------------------------------------------------
/// Table entries with `k` set to `v`: the entry with key `k` gets the new
/// value, else a new entry goes before the first greater key.
pub open spec fn tput(t: Seq<(Seq<char>, TomlView)>, k: Seq<char>, v: TomlView) -> Seq<
    (Seq<char>, TomlView),
>
    decreases t.len(),
{
    if t.len() == 0 {
        seq![(k, v)]
    } else if t[0].0 == k {
        t.update(0, (k, v))
    } else if text_lt(k, t[0].0) {
        seq![(k, v)] + t
    } else {
        seq![t[0]] + tput(t.drop_first(), k, v)
    }
}

/// Table entries without the first entry with key `k`.
pub open spec fn tremove(t: Seq<(Seq<char>, TomlView)>, k: Seq<char>) -> Seq<(Seq<char>, TomlView)>
    decreases t.len(),
{
    if t.len() == 0 {
        t
    } else if t[0].0 == k {
        t.drop_first()
    } else {
        seq![t[0]] + tremove(t.drop_first(), k)
    }
}

/// Why a value cannot be set.
#[derive(Debug, Clone, Copy, PartialEq, Eq, Structural)]
pub enum SetFailure {
    /// The table that would hold the value is not a table.
    TargetParentNotTable,
    /// A value on the way to it is not a table.
    IntermediateNotTable,
}

/// `v` with the value at `path` set to `x`, missing tables on the way
/// created empty; fails, changing nothing, where a value on the way is not
/// a table.
pub open spec fn tset(v: TomlView, path: Seq<Seq<char>>, x: TomlView) -> Result<
    TomlView,
    SetFailure,
>
    decreases path.len(),
{
    match v {
        TomlView::Table(t) => if path.len() <= 1 {
            Ok(TomlView::Table(tput(t, path[0], x)))
        } else {
            let child = match tget(t, path[0]) {
                Some(c) => c,
                None => TomlView::Table(Seq::empty()),
            };
            match tset(child, path.drop_first(), x) {
                Ok(c2) => Ok(TomlView::Table(tput(t, path[0], c2))),
                Err(e) => Err(e),
            }
        },
        _ => if path.len() <= 1 {
            Err(SetFailure::TargetParentNotTable)
        } else {
            Err(SetFailure::IntermediateNotTable)
        },
    }
}

/// `v` with the value at `path` removed, and whether there was one; a
/// missing value on the way removes nothing; fails where the table that
/// would hold it is not a table.
pub open spec fn tunset(v: TomlView, path: Seq<Seq<char>>) -> Option<(TomlView, bool)>
    decreases path.len(),
{
    if path.len() <= 1 {
        match v {
            TomlView::Table(t) => Some(
                (TomlView::Table(tremove(t, path[0])), tget(t, path[0]) is Some),
            ),
            _ => None,
        }
    } else {
        match v {
            TomlView::Table(t) => match tget(t, path[0]) {
                Some(c) => match tunset(c, path.drop_first()) {
                    Some((c2, b)) => Some((TomlView::Table(tput(t, path[0], c2)), b)),
                    None => None,
                },
                None => Some((v, false)),
            },
            _ => Some((v, false)),
        }
    }
}

// ---------------------------------------------------------------------------
// Laws
// ---------------------------------------------------------------------------
/// Reading a key after setting it gives the value set.
pub proof fn lemma_tget_tput(t: Seq<(Seq<char>, TomlView)>, k: Seq<char>, v: TomlView)
    ensures
        tget(tput(t, k, v), k) == Some(v),
    decreases t.len(),
{
    if t.len() > 0 && t[0].0 != k && !text_lt(k, t[0].0) {
        lemma_tget_tput(t.drop_first(), k, v);
        assert((seq![t[0]] + tput(t.drop_first(), k, v)).drop_first() =~= tput(
            t.drop_first(),
            k,
            v,
        ));
    }
}

/// Setting a key leaves every other key's value.
pub proof fn lemma_tget_tput_other(
    t: Seq<(Seq<char>, TomlView)>,
    k: Seq<char>,
    v: TomlView,
    k2: Seq<char>,
)
    requires
        k2 != k,
    ensures
        tget(tput(t, k, v), k2) == tget(t, k2),
    decreases t.len(),
{
    let p = tput(t, k, v);
    if t.len() == 0 {
        assert(p[0].0 == k);
        assert(p.drop_first() =~= Seq::<(Seq<char>, TomlView)>::empty());
        assert(tget(p.drop_first(), k2) is None);
    } else if t[0].0 == k {
        assert(p[0].0 == k);
        assert(p.drop_first() =~= t.drop_first());
    } else if text_lt(k, t[0].0) {
        assert(p[0].0 == k);
        assert(p.drop_first() =~= t);
    } else {
        lemma_tget_tput_other(t.drop_first(), k, v, k2);
        assert(p[0] == t[0]);
        assert(p.drop_first() =~= tput(t.drop_first(), k, v));
    }
}

/// Reading a key after removing it gives nothing, when keys are distinct.
pub proof fn lemma_tget_tremove(t: Seq<(Seq<char>, TomlView)>, k: Seq<char>)
    requires
        forall|i: int, j: int| 0 <= i < j < t.len() ==> (#[trigger] t[i]).0 != (#[trigger] t[j]).0,
    ensures
        tget(tremove(t, k), k) is None,
    decreases t.len(),
{
    if t.len() > 0 {
        let d = t.drop_first();
        assert forall|i: int, j: int| 0 <= i < j < d.len() implies (#[trigger] d[i]).0 != (
        #[trigger] d[j]).0 by {
            assert(d[i] == t[i + 1] && d[j] == t[j + 1]);
        }
        if t[0].0 == k {
            assert forall|j: int| 0 <= j < d.len() implies (#[trigger] d[j]).0 != k by {
                assert(d[j] == t[j + 1]);
                assert(t[0].0 != t[j + 1].0);
            }
            lemma_tget_none(d, k);
        } else {
            lemma_tget_tremove(d, k);
            assert((seq![t[0]] + tremove(d, k)).drop_first() =~= tremove(d, k));
        }
    }
}

/// A dotted key reads back the value just set under it.
pub proof fn lemma_get_after_set(v: TomlView, path: Seq<Seq<char>>, x: TomlView)
    requires
        path.len() >= 1,
        tset(v, path, x) is Ok,
    ensures
        tlookup(tset(v, path, x)->Ok_0, path) == Some(x),
    decreases path.len(),
{
    let w = tset(v, path, x)->Ok_0;
    if let TomlView::Table(t) = v {
        if path.len() == 1 {
            lemma_tget_tput(t, path[0], x);
            assert(w == TomlView::Table(tput(t, path[0], x)));
            assert(vget(w, path[0]) == Some(x));
            assert(path.drop_first().len() == 0);
            assert(tlookup(x, path.drop_first()) == Some(x));
        } else {
            let child = match tget(t, path[0]) {
                Some(c) => c,
                None => TomlView::Table(Seq::empty()),
            };
            lemma_get_after_set(child, path.drop_first(), x);
            let c2 = tset(child, path.drop_first(), x)->Ok_0;
            lemma_tget_tput(t, path[0], c2);
            assert(w == TomlView::Table(tput(t, path[0], c2)));
            assert(vget(w, path[0]) == Some(c2));
        }
    }
}

/// Setting a value under one top-level key leaves what any other top-level
/// key reads.
pub proof fn lemma_set_keeps_other_keys(
    v: TomlView,
    path: Seq<Seq<char>>,
    x: TomlView,
    other: Seq<char>,
)
    requires
        path.len() >= 1,
        tset(v, path, x) is Ok,
        other != path[0],
    ensures
        vget(tset(v, path, x)->Ok_0, other) == vget(v, other),
{
    if let TomlView::Table(t) = v {
        if path.len() == 1 {
            lemma_tget_tput_other(t, path[0], x, other);
        } else {
            let child = match tget(t, path[0]) {
                Some(c) => c,
                None => TomlView::Table(Seq::empty()),
            };
            let c2 = tset(child, path.drop_first(), x)->Ok_0;
            lemma_tget_tput_other(t, path[0], c2, other);
        }
    }
}

// ---------------------------------------------------------------------------
// Writing, executably
// ---------------------------------------------------------------------------
/// Table keys in strictly ascending order.
pub open spec fn keys_sorted(t: Seq<(Seq<char>, TomlView)>) -> bool {
    forall|i: int, j: int| 0 <= i < j < t.len() ==> text_lt(#[trigger] t[i].0, #[trigger] t[j].0)
}

/// The tables along `path` keep their keys in ascending order, as TOML
/// tables do.
pub open spec fn path_sorted(v: TomlView, path: Seq<Seq<char>>) -> bool
    decreases path.len(),
{
    match v {
        TomlView::Table(t) => keys_sorted(t) && (path.len() <= 1 || match tget(t, path[0]) {
            Some(c) => path_sorted(c, path.drop_first()),
            None => true,
        }),
        _ => true,
    }
}

/// Where the scan of `tput` reaches position `i`, the entries before stay.
proof fn lemma_tput_skip(t: Seq<(Seq<char>, TomlView)>, k: Seq<char>, v: TomlView, i: int)
    requires
        0 <= i <= t.len(),
        forall|j: int| 0 <= j < i ==> (#[trigger] t[j]).0 != k && !text_lt(k, t[j].0),
    ensures
        tput(t, k, v) == t.take(i) + tput(t.skip(i), k, v),
    decreases i,
{
    if i > 0 {
        let d = t.drop_first();
        assert forall|j: int| 0 <= j < i - 1 implies (#[trigger] d[j]).0 != k && !text_lt(
            k,
            d[j].0,
        ) by {
            assert(d[j] == t[j + 1]);
        }
        lemma_tput_skip(d, k, v, i - 1);
        assert(d.skip(i - 1) =~= t.skip(i));
        assert(t.take(i) =~= seq![t[0]] + d.take(i - 1));
        assert(t[0].0 != k && !text_lt(k, t[0].0));
    } else {
        assert(t.skip(0) =~= t);
        assert(t.take(0) + tput(t, k, v) =~= tput(t, k, v));
    }
}

/// In a sorted table the entry with key `k` is updated in place.
proof fn lemma_tput_at(t: Seq<(Seq<char>, TomlView)>, k: Seq<char>, v: TomlView, i: int)
    requires
        keys_sorted(t),
        0 <= i < t.len(),
        t[i].0 == k,
    ensures
        tput(t, k, v) == t.update(i, (k, v)),
{
    assert forall|j: int| 0 <= j < i implies (#[trigger] t[j]).0 != k && !text_lt(k, t[j].0) by {
        assert(text_lt(t[j].0, t[i].0));
        crate::ordered::lemma_text_lt_asymmetric(t[j].0, k);
        crate::ordered::lemma_text_lt_irreflexive(k);
    }
    lemma_tput_skip(t, k, v, i);
    assert(t.skip(i)[0].0 == k);
    assert(t.take(i) + t.skip(i).update(0, (k, v)) =~= t.update(i, (k, v)));
}

/// In a sorted table the first entry with key `k` is the one removed.
proof fn lemma_tremove_at(t: Seq<(Seq<char>, TomlView)>, k: Seq<char>, i: int)
    requires
        0 <= i < t.len(),
        t[i].0 == k,
        forall|j: int| 0 <= j < i ==> (#[trigger] t[j]).0 != k,
    ensures
        tremove(t, k) == t.remove(i),
    decreases i,
{
    if i > 0 {
        let d = t.drop_first();
        assert forall|j: int| 0 <= j < i - 1 implies (#[trigger] d[j]).0 != k by {
            assert(d[j] == t[j + 1]);
        }
        lemma_tremove_at(d, k, i - 1);
        assert(seq![t[0]] + d.remove(i - 1) =~= t.remove(i));
    } else {
        assert(t.drop_first() =~= t.remove(0));
    }
}

/// Removing a key that no entry has changes nothing.
proof fn lemma_tremove_none(t: Seq<(Seq<char>, TomlView)>, k: Seq<char>)
    requires
        forall|j: int| 0 <= j < t.len() ==> (#[trigger] t[j]).0 != k,
    ensures
        tremove(t, k) == t,
    decreases t.len(),
{
    if t.len() > 0 {
        let d = t.drop_first();
        assert forall|j: int| 0 <= j < d.len() implies (#[trigger] d[j]).0 != k by {
            assert(d[j] == t[j + 1]);
        }
        lemma_tremove_none(d, k);
        assert(seq![t[0]] + d =~= t);
    }
}

/// Sets `k` to `v` in table entries.
fn put_entry(t: &mut Vec<(String, TomlValue)>, k: String, v: TomlValue)
    ensures
        entries_view(final(t)@) == tput(entries_view(old(t)@), k@, tview(v)),
{
    let ghost e0 = entries_view(t@);
    let ghost kv = k@;
    let ghost vv = tview(v);
    let mut i: usize = 0;
    while i < t.len()
        invariant
            0 <= i <= t@.len(),
            e0 == entries_view(t@),
            e0 == entries_view(old(t)@),
            kv == k@,
            vv == tview(v),
            forall|j: int| 0 <= j < i ==> (#[trigger] e0[j]).0 != kv && !text_lt(kv, e0[j].0),
        decreases t@.len() - i,
    {
        assert(e0[i as int].0 == t@[i as int].0@);
        if str_eq(t[i].0.as_str(), k.as_str()) {
            proof {
                lemma_tput_skip(e0, kv, vv, i as int);
                assert(e0.skip(i as int)[0].0 == kv);
                assert(tput(e0.skip(i as int), kv, vv) == e0.skip(i as int).update(0, (kv, vv)));
            }
            t.set(i, (k, v));
            assert(entries_view(t@) =~= e0.take(i as int) + e0.skip(i as int).update(0, (kv, vv)));
            return ;
        }
        if text_less(k.as_str(), t[i].0.as_str()) {
            proof {
                lemma_tput_skip(e0, kv, vv, i as int);
                assert(e0.skip(i as int)[0].0 == t@[i as int].0@);
                assert(tput(e0.skip(i as int), kv, vv) == seq![(kv, vv)] + e0.skip(i as int));
            }
            t.insert(i, (k, v));
            assert(entries_view(t@) =~= e0.take(i as int) + (seq![(kv, vv)] + e0.skip(i as int)));
            return ;
        }
        i = i + 1;
    }
    proof {
        lemma_tput_skip(e0, kv, vv, i as int);
        assert(e0.skip(i as int).len() == 0);
    }
    t.push((k, v));
    assert(entries_view(t@) =~= e0.take(i as int) + seq![(kv, vv)]);
}

/// The value with the value at `segs[i..]` set to `x`, and the failure, if
/// any (the value is then unchanged).
fn set_in(v: TomlValue, segs: &Vec<String>, i: usize, x: TomlValue) -> (r: (
    TomlValue,
    Option<SetFailure>,
))
    requires
        i < segs@.len(),
        path_sorted(tview(v), segs@.map_values(|s: String| s@).skip(i as int)),
    ensures
        match tset(tview(v), segs@.map_values(|s: String| s@).skip(i as int), tview(x)) {
            Ok(w) => r.1 is None && tview(r.0) == w,
            Err(e) => r.1 == Some(e) && tview(r.0) == tview(v),
        },
    decreases segs@.len() - i,
{
    let n = segs.len();
    let last = i == n - 1;
    let ghost path = segs@.map_values(|s: String| s@).skip(i as int);
    assert(path[0] == segs@[i as int]@);
    assert(path.drop_first() =~= segs@.map_values(|s: String| s@).skip(i + 1));
    match v {
        TomlValue::Table(mut t) => {
            proof {
                lemma_table_view(t);
            }
            let ghost e0 = entries_view(t@);
            if last {
                put_entry(&mut t, segs[i].clone(), x);
                proof {
                    lemma_table_view(t);
                }
                return (TomlValue::Table(t), None);
            }
            let f = find_key(&t, segs[i].as_str());
            proof {
                lemma_find_key_view(t@, segs@[i as int]@, f);
            }
            match f {
                Some(j) => {
                    let (k, child) = t.remove(j);
                    let ghost cv = tview(child);
                    assert(e0[j as int] == (k@, cv));
                    let (c2, err) = set_in(child, segs, i + 1, x);
                    let failed = err.is_some();
                    t.insert(j, (k, c2));
                    proof {
                        lemma_table_view(t);
                        if failed {
                            assert(entries_view(t@) =~= e0);
                        } else {
                            lemma_tput_at(e0, path[0], tview(c2), j as int);
                            assert(entries_view(t@) =~= e0.update(j as int, (path[0], tview(c2))));
                        }
                    }
                    (TomlValue::Table(t), err)
                },
                None => {
                    let fresh: Vec<(String, TomlValue)> = Vec::new();
                    proof {
                        lemma_table_view(fresh);
                        assert(entries_view(Seq::<(String, TomlValue)>::empty()) =~= Seq::<
                            (Seq<char>, TomlView),
                        >::empty());
                    }
                    let (c2, err) = set_in(TomlValue::Table(fresh), segs, i + 1, x);
                    if err.is_some() {
                        proof {
                            lemma_table_view(t);
                        }
                        return (TomlValue::Table(t), err);
                    }
                    put_entry(&mut t, segs[i].clone(), c2);
                    proof {
                        lemma_table_view(t);
                    }
                    (TomlValue::Table(t), None)
                },
            }
        },
        other => {
            let failure = if last {
                SetFailure::TargetParentNotTable
            } else {
                SetFailure::IntermediateNotTable
            };
            (other, Some(failure))
        },
    }
}

/// The value with the value at `segs[i..]` removed, and whether there was
/// one; `None` where the table that would hold it is not a table (the value
/// is then unchanged).
fn unset_in(v: TomlValue, segs: &Vec<String>, i: usize) -> (r: (TomlValue, Option<bool>))
    requires
        i < segs@.len(),
        path_sorted(tview(v), segs@.map_values(|s: String| s@).skip(i as int)),
    ensures
        match tunset(tview(v), segs@.map_values(|s: String| s@).skip(i as int)) {
            Some((w, b)) => r.1 == Some(b) && tview(r.0) == w,
            None => r.1 is None && tview(r.0) == tview(v),
        },
    decreases segs@.len() - i,
{
    let n = segs.len();
    let last = i == n - 1;
    let ghost path = segs@.map_values(|s: String| s@).skip(i as int);
    assert(path[0] == segs@[i as int]@);
    assert(path.drop_first() =~= segs@.map_values(|s: String| s@).skip(i + 1));
    match v {
        TomlValue::Table(mut t) => {
            proof {
                lemma_table_view(t);
            }
            let ghost e0 = entries_view(t@);
            let f = find_key(&t, segs[i].as_str());
            proof {
                lemma_find_key_view(t@, segs@[i as int]@, f);
            }
            match f {
                Some(j) => {
                    if last {
                        proof {
                            assert forall|m: int| 0 <= m < j implies (#[trigger] e0[m]).0
                                != path[0] by {
                                assert(e0[m].0 == t@[m].0@);
                            }
                            lemma_tremove_at(e0, path[0], j as int);
                        }
                        let _removed = t.remove(j);
                        proof {
                            lemma_table_view(t);
                            assert(entries_view(t@) =~= e0.remove(j as int));
                        }
                        return (TomlValue::Table(t), Some(true));
                    }
                    let (k, child) = t.remove(j);
                    let (c2, res) = unset_in(child, segs, i + 1);
                    let failed = res.is_none();
                    t.insert(j, (k, c2));
                    proof {
                        lemma_table_view(t);
                        if failed {
                            assert(entries_view(t@) =~= e0);
                        } else {
                            lemma_tput_at(e0, path[0], tview(c2), j as int);
                            assert(entries_view(t@) =~= e0.update(j as int, (path[0], tview(c2))));
                        }
                    }
                    (TomlValue::Table(t), res)
                },
                None => {
                    proof {
                        lemma_table_view(t);
                        if last {
                            assert forall|m: int| 0 <= m < e0.len() implies (#[trigger] e0[m]).0
                                != path[0] by {
                                assert(e0[m].0 == t@[m].0@);
                            }
                            lemma_tremove_none(e0, path[0]);
                        }
                    }
                    (TomlValue::Table(t), Some(false))
                },
            }
        },
        other => {
            if last {
                (other, None)
            } else {
                (other, Some(false))
            }
        },
    }
}

/// The segments of a dotted key.
pub open spec fn key_path(key: Seq<char>) -> Seq<Seq<char>> {
    split_on(key, '.')
}

/// The reason text of a failure to set a value.
pub open spec fn set_failure_reason(f: SetFailure) -> Seq<char> {
    match f {
        SetFailure::TargetParentNotTable => "target parent is not a table"@,
        SetFailure::IntermediateNotTable => "intermediate path is not a table"@,
    }
}

/// Splitting gives at least one segment.
pub proof fn lemma_split_nonempty(s: Seq<char>, c: char)
    ensures
        split_on(s, c).len() >= 1,
    decreases s.len(),
{
    crate::text::lemma_first_index(s, c);
}

/// Sets the value under a dotted key, creating missing tables on the way.
/// Where a value on the way is not a table the document is left as it was
/// and the error names the key and the reason.
pub fn set_value(root: &mut TomlValue, key: &str, value: TomlValue) -> (r: Result<(), Error>)
    requires
        path_sorted(tview(*old(root)), key_path(key@)),
    ensures
        match tset(tview(*old(root)), key_path(key@), tview(value)) {
            Ok(w) => r is Ok && tview(*final(root)) == w,
            Err(f) => r matches Err(e) && tview(*final(root)) == tview(*old(root)) && e.code
                == ErrorCode::ConfigInvalid && context_view(e) == seq![
                ("key"@, key@),
                ("reason"@, set_failure_reason(f)),
            ],
        },
{
    let chars = str_to_chars(key);
    let segs = split_chars(&chars, '.');
    proof {
        lemma_split_nonempty(key@, '.');
        assert(segs@.map_values(|s: String| s@).skip(0) =~= key_path(key@));
    }
    let mut v = TomlValue::Boolean(false);
    std::mem::swap(&mut v, root);
    let (w, failure) = set_in(v, &segs, 0, value);
    *root = w;
    match failure {
        None => Ok(()),
        Some(f) => {
            let reason = match f {
                SetFailure::TargetParentNotTable => "target parent is not a table",
                SetFailure::IntermediateNotTable => "intermediate path is not a table",
            };
            let e = ErrorCode::ConfigInvalid.error().with_context("key", key).with_context(
                "reason",
                reason,
            );
            assert(context_view(e) =~= seq![("key"@, key@), ("reason"@, set_failure_reason(f))]);
            Err(e)
        },
    }
}

/// Removes the value under a dotted key and tells whether there was one; a
/// missing table on the way removes nothing. Where the table that would hold
/// it is not a table the document is left as it was and the error names the
/// key and the reason.
pub fn unset_value(root: &mut TomlValue, key: &str) -> (r: Result<bool, Error>)
    requires
        path_sorted(tview(*old(root)), key_path(key@)),
    ensures
        match tunset(tview(*old(root)), key_path(key@)) {
            Some((w, b)) => r == Ok::<bool, Error>(b) && tview(*final(root)) == w,
            None => r matches Err(e) && tview(*final(root)) == tview(*old(root)) && e.code
                == ErrorCode::ConfigInvalid && context_view(e) == seq![
                ("key"@, key@),
                ("reason"@, "target parent is not a table"@),
            ],
        },
{
    let chars = str_to_chars(key);
    let segs = split_chars(&chars, '.');
    proof {
        lemma_split_nonempty(key@, '.');
        assert(segs@.map_values(|s: String| s@).skip(0) =~= key_path(key@));
    }
    let mut v = TomlValue::Boolean(false);
    std::mem::swap(&mut v, root);
    let (w, res) = unset_in(v, &segs, 0);
    *root = w;
    match res {
        Some(b) => Ok(b),
        None => {
            let e = ErrorCode::ConfigInvalid.error().with_context("key", key).with_context(
                "reason",
                "target parent is not a table",
            );
            assert(context_view(e) =~= seq![
                ("key"@, key@),
                ("reason"@, "target parent is not a table"@),
            ]);
            Err(e)
        },
    }
}

/// A removed value no longer reads back, when the table keys are distinct.
pub proof fn lemma_get_after_unset(v: TomlView, path: Seq<Seq<char>>)
    requires
        path.len() >= 1,
        tunset(v, path) is Some,
        path_sorted(v, path),
    ensures
        tlookup(tunset(v, path)->Some_0.0, path) is None,
    decreases path.len(),
{
    let w = tunset(v, path)->Some_0.0;
    if let TomlView::Table(t) = v {
        assert forall|i: int, j: int| 0 <= i < j < t.len() implies (#[trigger] t[i]).0 != (
        #[trigger] t[j]).0 by {
            crate::ordered::lemma_text_lt_irreflexive(t[i].0);
        }
        if path.len() == 1 {
            lemma_tget_tremove(t, path[0]);
        } else {
            match tget(t, path[0]) {
                Some(c) => {
                    lemma_get_after_unset(c, path.drop_first());
                    let c2 = tunset(c, path.drop_first())->Some_0.0;
                    lemma_tget_tput(t, path[0], c2);
                    assert(vget(w, path[0]) == Some(c2));
                },
                None => {
                    assert(vget(w, path[0]) is None);
                },
            }
        }
    }
}

/// Whether table entries keep their keys in strictly ascending order.
fn entries_sorted(t: &Vec<(String, TomlValue)>) -> (r: bool)
    ensures
        r == keys_sorted(entries_view(t@)),
{
    let ghost e = entries_view(t@);
    if t.len() == 0 {
        return true;
    }
    let mut i: usize = 1;
    while i < t.len()
        invariant
            1 <= i <= t@.len(),
            e == entries_view(t@),
            forall|a: int, b: int| 0 <= a < b < i ==> text_lt(#[trigger] e[a].0, #[trigger] e[b].0),
        decreases t@.len() - i,
    {
        assert(e[i - 1].0 == t@[i - 1].0@);
        assert(e[i as int].0 == t@[i as int].0@);
        if !text_less(t[i - 1].0.as_str(), t[i].0.as_str()) {
            assert(!text_lt(e[i - 1].0, e[i as int].0));
            return false;
        }
        proof {
            assert forall|a: int, b: int| 0 <= a < b < i + 1 implies text_lt(
                #[trigger] e[a].0,
                #[trigger] e[b].0,
            ) by {
                if b == i && a < i - 1 {
                    crate::ordered::lemma_text_lt_transitive(e[a].0, e[i - 1].0, e[b].0);
                }
            }
        }
        i = i + 1;
    }
    true
}

/// Whether the tables along the segments from `i` on keep their keys in order.
fn sorted_along(v: &TomlValue, segs: &Vec<String>, i: usize) -> (r: bool)
    requires
        i <= segs@.len(),
    ensures
        r == path_sorted(tview(*v), segs@.map_values(|s: String| s@).skip(i as int)),
    decreases segs@.len() - i,
{
    let ghost p = segs@.map_values(|s: String| s@).skip(i as int);
    match v {
        TomlValue::Table(t) => {
            proof {
                lemma_table_view(*t);
            }
            if !entries_sorted(t) {
                return false;
            }
            if segs.len() - i <= 1 {
                return true;
            }
            assert(p[0] == segs@[i as int]@);
            assert(p.drop_first() =~= segs@.map_values(|s: String| s@).skip(i + 1));
            match value_get(v, segs[i].as_str()) {
                Some(c) => sorted_along(c, segs, i + 1),
                None => true,
            }
        },
        _ => true,
    }
}

/// Whether the tables along a dotted key keep their keys in ascending order,
/// which setting and removing a value ask of a document.
pub fn is_path_sorted(root: &TomlValue, key: &str) -> (r: bool)
    ensures
        r == path_sorted(tview(*root), key_path(key@)),
{
    let chars = str_to_chars(key);
    let segs = split_chars(&chars, '.');
    assert(segs@.map_values(|s: String| s@).skip(0) =~= key_path(key@));
    sorted_along(root, &segs, 0)
}


/// The error of a document whose tables along a key are not in key order.
pub open spec fn unsorted_error(e: Error, key: Seq<char>) -> bool {
    e.code == ErrorCode::ConfigInvalid && context_view(e) == seq![
        ("key"@, key),
        ("reason"@, "table keys are not in order"@),
    ]
}

/// The error of a document whose tables along `key` are not in key order.
pub fn unsorted_key_error(key: &str) -> (e: Error)
    ensures
        unsorted_error(e, key@),
{
    let e = ErrorCode::ConfigInvalid.error().with_context("key", key).with_context(
        "reason",
        "table keys are not in order",
    );
    assert(context_view(e) =~= seq![("key"@, key@), ("reason"@, "table keys are not in order"@)]);
    e
}

/// `set_value` on any document: where the tables along `key` are not in key
/// order, an error and the document unchanged.
pub fn set_value_checked(root: &mut TomlValue, key: &str, value: TomlValue) -> (r: Result<(), Error>)
    ensures
        !path_sorted(tview(*old(root)), key_path(key@)) ==> (r matches Err(e) && unsorted_error(
            e,
            key@,
        ) && *final(root) == *old(root)),
        path_sorted(tview(*old(root)), key_path(key@)) ==> match tset(
            tview(*old(root)),
            key_path(key@),
            tview(value),
        ) {
            Ok(w) => r is Ok && tview(*final(root)) == w,
            Err(f) => r matches Err(e) && tview(*final(root)) == tview(*old(root)) && e.code
                == ErrorCode::ConfigInvalid && context_view(e) == seq![
                ("key"@, key@),
                ("reason"@, set_failure_reason(f)),
            ],
        },
{
    if !is_path_sorted(root, key) {
        return Err(unsorted_key_error(key));
    }
    set_value(root, key, value)
}

/// `unset_value` on any document: where the tables along `key` are not in
/// key order, an error and the document unchanged.
pub fn unset_value_checked(root: &mut TomlValue, key: &str) -> (r: Result<bool, Error>)
    ensures
        !path_sorted(tview(*old(root)), key_path(key@)) ==> (r matches Err(e) && unsorted_error(
            e,
            key@,
        ) && *final(root) == *old(root)),
        path_sorted(tview(*old(root)), key_path(key@)) ==> match tunset(
            tview(*old(root)),
            key_path(key@),
        ) {
            Some((w, b)) => r == Ok::<bool, Error>(b) && tview(*final(root)) == w,
            None => r matches Err(e) && tview(*final(root)) == tview(*old(root)) && e.code
                == ErrorCode::ConfigInvalid && context_view(e) == seq![
                ("key"@, key@),
                ("reason"@, "target parent is not a table"@),
            ],
        },
{
    if !is_path_sorted(root, key) {
        return Err(unsorted_key_error(key));
    }
    unset_value(root, key)
}

} // verus!
