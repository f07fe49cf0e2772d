//! Building lists of strings and string-keyed tables of string lists from
//! string literals.
use vstd::prelude::*;

use crate::check::texts;
use crate::ordered::{lemma_text_lt_total, strictly_sorted, text_less, text_lt};
use crate::text::{owned, str_eq};

verus! {

/// The texts of a list of string slices.
pub open spec fn str_texts(items: Seq<&str>) -> Seq<Seq<char>> {
    items.map_values(|s: &str| s@)
}

/// Owned strings with the texts of `items`, in order.
pub fn strings(items: &[&str]) -> (r: Vec<String>)
    ensures
        texts(r@) == str_texts(items@),
{
    let mut r: Vec<String> = Vec::new();
    let mut i: usize = 0;
    while i < items.len()
        invariant
            0 <= i <= items@.len(),
            texts(r@) == str_texts(items@.take(i as int)),
        decreases items@.len() - i,
    {
        let ghost before = texts(r@);
        r.push(owned(items[i]));
        assert(texts(r@) =~= before.push(items@[i as int]@));
        assert(str_texts(items@.take(i + 1)) =~= str_texts(items@.take(i as int)).push(
            items@[i as int]@,
        ));
        i = i + 1;
    }
    assert(items@.take(i as int) =~= items@);
    r
}

/// The keys of a table.
pub open spec fn table_keys(m: Seq<(String, Vec<String>)>) -> Seq<Seq<char>> {
    m.map_values(|e: (String, Vec<String>)| e.0@)
}

/// The table as a map from key texts to value texts.
pub open spec fn table_map(m: Seq<(String, Vec<String>)>) -> Map<Seq<char>, Seq<Seq<char>>>
    decreases m.len(),
{
    if m.len() == 0 {
        Map::empty()
    } else {
        table_map(m.drop_last()).insert(m.last().0@, texts(m.last().1@))
    }
}

/// The map built by inserting `entries` in order, a later entry replacing an
/// earlier one with the same key.
pub open spec fn entries_map(entries: Seq<(&str, &[&str])>) -> Map<Seq<char>, Seq<Seq<char>>>
    decreases entries.len(),
{
    if entries.len() == 0 {
        Map::empty()
    } else {
        entries_map(entries.drop_last()).insert(
            entries.last().0@,
            str_texts(entries.last().1@),
        )
    }
}

/// In a table with distinct keys, the map holds each entry.
proof fn lemma_table_map_entry(m: Seq<(String, Vec<String>)>, i: int)
    requires
        0 <= i < m.len(),
        table_keys(m).no_duplicates(),
    ensures
        table_map(m).contains_key(m[i].0@),
        table_map(m)[m[i].0@] == texts(m[i].1@),
    decreases m.len(),
{
    if i < m.len() - 1 {
        let init = m.drop_last();
        assert(table_keys(init) =~= table_keys(m).drop_last());
        assert(init[i] == m[i]);
        lemma_table_map_entry(init, i);
        assert(table_keys(m)[i] != table_keys(m)[m.len() - 1]);
    }
}

/// The keys of the map are the keys of the table.
proof fn lemma_table_map_keys(m: Seq<(String, Vec<String>)>)
    ensures
        table_map(m).dom() == table_keys(m).to_set(),
    decreases m.len(),
{
    if m.len() > 0 {
        let init = m.drop_last();
        lemma_table_map_keys(init);
        assert(table_keys(init) =~= table_keys(m).drop_last());
        assert(table_map(m).dom() =~= table_keys(m).to_set()) by {
            assert forall|k: Seq<char>| table_keys(m).to_set().contains(k) implies table_map(
                m,
            ).dom().contains(k) by {
                let j = choose|j: int| 0 <= j < table_keys(m).len() && table_keys(m)[j] == k;
                if j < m.len() - 1 {
                    assert(table_keys(init)[j] == k);
                }
            }
            assert forall|k: Seq<char>| table_map(m).dom().contains(k) implies table_keys(
                m,
            ).to_set().contains(k) by {
                if k != m.last().0@ {
                    let j = choose|j: int| 0 <= j < table_keys(init).len() && table_keys(init)[j] == k;
                    assert(table_keys(m)[j] == k);
                } else {
                    assert(table_keys(m)[m.len() - 1] == k);
                }
            }
        }
    }
}

/// A table sorted by strictly ascending keys has no repeated key.
proof fn lemma_sorted_no_dup(s: Seq<Seq<char>>)
    requires
        strictly_sorted(s),
    ensures
        s.no_duplicates(),
{
    assert forall|i: int, j: int| 0 <= i < s.len() && 0 <= j < s.len() && i != j implies s[i]
        != s[j] by {
        if i < j {
            assert(text_lt(s[i], s[j]));
        } else {
            assert(text_lt(s[j], s[i]));
        }
        crate::ordered::lemma_text_lt_irreflexive(s[i]);
    }
}

/// Sets the value of `key` in a table kept in ascending key order.
fn table_insert(m: &mut Vec<(String, Vec<String>)>, key: String, value: Vec<String>)
    requires
        strictly_sorted(table_keys(old(m)@)),
    ensures
        strictly_sorted(table_keys(final(m)@)),
        table_map(final(m)@) == table_map(old(m)@).insert(key@, texts(value@)),
{
    let ghost s = table_keys(m@);
    let ghost kv = key@;
    let ghost vv = texts(value@);
    proof {
        lemma_sorted_no_dup(s);
        lemma_table_map_keys(m@);
    }
    let mut i: usize = 0;
    while i < m.len() && text_less(m[i].0.as_str(), key.as_str())
        invariant
            0 <= i <= m@.len(),
            s == table_keys(m@),
            strictly_sorted(s),
            forall|k: int| 0 <= k < i ==> text_lt(#[trigger] s[k], kv),
            kv == key@,
        decreases m@.len() - i,
    {
        i = i + 1;
    }
    let ghost old_m = m@;
    if i < m.len() && str_eq(m[i].0.as_str(), key.as_str()) {
        m.set(i, (key, value));
        proof {
            assert(table_keys(m@) =~= s);
            assert(table_keys(m@).no_duplicates());
            lemma_table_map_keys(m@);
            assert(s[i as int] == kv);
            assert(table_map(m@).dom() =~= table_map(old_m).insert(kv, vv).dom());
            assert forall|k: Seq<char>| #[trigger] table_map(m@).contains_key(k) implies table_map(
                m@,
            )[k] == table_map(old_m).insert(kv, vv)[k] by {
                assert(table_keys(m@).to_set().contains(k));
                let j = choose|j: int| 0 <= j < table_keys(m@).len() && table_keys(m@)[j] == k;
                lemma_table_map_entry(m@, j);
                if j != i {
                    assert(m@[j] == old_m[j]);
                    lemma_table_map_entry(old_m, j);
                    assert(s[j] != s[i as int]);
                }
            }
            assert(table_map(m@) =~= table_map(old_m).insert(kv, vv));
        }
        return ;
    }
    proof {
        if i < old_m.len() {
            lemma_text_lt_total(s[i as int], kv);
        }
    }
    m.insert(i, (key, value));
    proof {
        let t = table_keys(m@);
        assert(t =~= s.insert(i as int, kv));
        assert forall|a: int, b: int| 0 <= a < b < t.len() implies text_lt(
            #[trigger] t[a],
            #[trigger] t[b],
        ) by {
            if b < i {
            } else if b == i {
            } else if a < i {
                if i < s.len() {
                    crate::ordered::lemma_text_lt_transitive(t[a], kv, s[i as int]);
                    if b - 1 > i {
                        crate::ordered::lemma_text_lt_transitive(t[a], s[i as int], s[b - 1]);
                    }
                }
            } else if a == i {
                if b - 1 > i {
                    crate::ordered::lemma_text_lt_transitive(kv, s[i as int], s[b - 1]);
                }
            }
        }
        lemma_sorted_no_dup(t);
        lemma_table_map_keys(m@);
        assert(!s.contains(kv)) by {
            if s.contains(kv) {
                let j = choose|j: int| 0 <= j < s.len() && s[j] == kv;
                if j < i {
                    crate::ordered::lemma_text_lt_irreflexive(kv);
                } else if j > i {
                    crate::ordered::lemma_text_lt_transitive(kv, s[i as int], s[j]);
                    crate::ordered::lemma_text_lt_irreflexive(kv);
                }
            }
        }
        assert(table_map(m@).dom() =~= table_map(old_m).insert(kv, vv).dom()) by {
            assert forall|k: Seq<char>| t.to_set().contains(k) <==> s.to_set().insert(kv).contains(
                k,
            ) by {
                if t.to_set().contains(k) {
                    let j = choose|j: int| 0 <= j < t.len() && t[j] == k;
                    if j < i {
                        assert(s[j] == k);
                    } else if j > i {
                        assert(s[j - 1] == k);
                    }
                }
                if s.to_set().contains(k) {
                    let j = choose|j: int| 0 <= j < s.len() && s[j] == k;
                    if j < i {
                        assert(t[j] == k);
                    } else {
                        assert(t[j + 1] == k);
                    }
                }
                if k == kv {
                    assert(t[i as int] == k);
                }
            }
        }
        assert(table_map(m@) =~= table_map(old_m).insert(kv, vv)) by {
            assert forall|k: Seq<char>| #[trigger] table_map(m@).contains_key(k) implies table_map(m@)[k]
                == table_map(old_m).insert(kv, vv)[k] by {
                let j = choose|j: int| 0 <= j < t.len() && t[j] == k;
                lemma_table_map_entry(m@, j);
                if j < i {
                    lemma_table_map_entry(old_m, j);
                    assert(old_m[j] == m@[j]);
                } else if j > i {
                    lemma_table_map_entry(old_m, j - 1);
                    assert(old_m[j - 1] == m@[j]);
                }
            }
        }
    }
}

/// A table from string literals: each key with its list of values, keys in
/// ascending order, a later entry replacing an earlier one with the same key.
pub fn string_vec_map(entries: &[(&str, &[&str])]) -> (r: Vec<(String, Vec<String>)>)
    ensures
        strictly_sorted(table_keys(r@)),
        table_map(r@) == entries_map(entries@),
{
    let mut m: Vec<(String, Vec<String>)> = Vec::new();
    let mut i: usize = 0;
    assert(table_keys(m@) =~= Seq::<Seq<char>>::empty());
    assert(table_map(m@) =~= entries_map(entries@.take(0)));
    while i < entries.len()
        invariant
            0 <= i <= entries@.len(),
            strictly_sorted(table_keys(m@)),
            table_map(m@) == entries_map(entries@.take(i as int)),
        decreases entries@.len() - i,
    {
        let (k, vs) = entries[i];
        let values = strings(vs);
        table_insert(&mut m, owned(k), values);
        assert(entries@.take(i + 1).drop_last() =~= entries@.take(i as int));
        i = i + 1;
    }
    assert(entries@.take(i as int) =~= entries@);
    m
}

} // verus!
