//! Staging: which changed paths a request names, which paths a view shows,
//! and which paths to stage or unstage so that the index matches a selection.
use vstd::prelude::*;

use crate::check::texts;
use crate::git::Change;
use crate::ordered::{insert_sorted, strictly_sorted};
use crate::policy::commit::{has_text, list_has_text};
use crate::text::{chars_eq, chars_starts_with, chars_to_string, seq_starts_with, str_to_chars};

verus! {

// ---------------------------------------------------------------------------
// Paths
// ---------------------------------------------------------------------------
/// Backslashes turned into slashes.
pub open spec fn unslash(s: Seq<char>) -> Seq<char> {
    s.map_values(|c: char| if c == '\\' { '/' } else { c })
}

/// `s` without leading slashes.
pub open spec fn strip_lead_slashes(s: Seq<char>) -> Seq<char>
    decreases s.len(),
{
    if s.len() > 0 && s[0] == '/' {
        strip_lead_slashes(s.drop_first())
    } else {
        s
    }
}

/// `s` without trailing slashes.
pub open spec fn strip_trail_slashes(s: Seq<char>) -> Seq<char>
    decreases s.len(),
{
    if s.len() > 0 && s.last() == '/' {
        strip_trail_slashes(s.drop_last())
    } else {
        s
    }
}

/// A path with slashes only, and none at either end.
pub open spec fn normalized(s: Seq<char>) -> Seq<char> {
    strip_trail_slashes(strip_lead_slashes(unslash(s)))
}

/// A changed path matches a requested one when, normalised, they are equal
/// or the request names a directory above it.
pub open spec fn path_matches(file: Seq<char>, want: Seq<char>) -> bool {
    normalized(file) == normalized(want) || seq_starts_with(
        normalized(file),
        normalized(want) + seq!['/'],
    )
}

/// Stripping leading slashes from a suffix that starts after some of them.
proof fn lemma_strip_lead(s: Seq<char>, a: int)
    requires
        0 <= a <= s.len(),
        forall|j: int| 0 <= j < a ==> s[j] == '/',
    ensures
        strip_lead_slashes(s) == strip_lead_slashes(s.subrange(a, s.len() as int)),
    decreases a,
{
    if a > 0 {
        assert(s.drop_first().subrange(a - 1, s.len() - 1) =~= s.subrange(a, s.len() as int));
        lemma_strip_lead(s.drop_first(), a - 1);
    } else {
        assert(s.subrange(0, s.len() as int) =~= s);
    }
}

/// Stripping trailing slashes from a prefix that ends before some of them.
proof fn lemma_strip_trail(s: Seq<char>, b: int)
    requires
        0 <= b <= s.len(),
        forall|j: int| b <= j < s.len() ==> s[j] == '/',
    ensures
        strip_trail_slashes(s) == strip_trail_slashes(s.subrange(0, b)),
    decreases s.len() - b,
{
    if b < s.len() {
        assert(s.drop_last().subrange(0, b) =~= s.subrange(0, b));
        lemma_strip_trail(s.drop_last(), b);
    } else {
        assert(s.subrange(0, b) =~= s);
    }
}

/// The normal form of a path: slashes for backslashes, none at either end.
fn normalize_path(value: &str) -> (r: Vec<char>)
    ensures
        r@ == normalized(value@),
{
    let v = str_to_chars(value);
    let mut w: Vec<char> = Vec::new();
    let mut i: usize = 0;
    while i < v.len()
        invariant
            0 <= i <= v@.len(),
            w@ == unslash(v@.take(i as int)),
        decreases v@.len() - i,
    {
        let c = if v[i] == '\\' {
            '/'
        } else {
            v[i]
        };
        w.push(c);
        i = i + 1;
        assert(w@ =~= unslash(v@.take(i as int)));
    }
    assert(v@.take(i as int) =~= v@);
    let n = w.len();
    let mut a: usize = 0;
    while a < n && w[a] == '/'
        invariant
            n == w@.len(),
            0 <= a <= n,
            forall|j: int| 0 <= j < a ==> w@[j] == '/',
        decreases n - a,
    {
        a = a + 1;
    }
    let ghost t = w@.subrange(a as int, n as int);
    proof {
        lemma_strip_lead(w@, a as int);
        if t.len() > 0 {
            assert(t[0] == w@[a as int]);
        }
        assert(strip_lead_slashes(t) == t);
    }
    let mut b: usize = n;
    while b > a && w[b - 1] == '/'
        invariant
            n == w@.len(),
            a <= b <= n,
            forall|j: int| b <= j < n ==> w@[j] == '/',
        decreases b,
    {
        b = b - 1;
    }
    proof {
        assert forall|j: int| b - a <= j < t.len() implies t[j] == '/' by {
            assert(t[j] == w@[j + a]);
        }
        lemma_strip_trail(t, b - a);
        let u = t.subrange(0, b - a);
        if u.len() > 0 {
            assert(u.last() == w@[b - 1]);
        }
        assert(strip_trail_slashes(u) == u);
        assert(u =~= w@.subrange(a as int, b as int));
    }
    let mut r: Vec<char> = Vec::new();
    let mut k: usize = a;
    while k < b
        invariant
            a <= k <= b <= n == w@.len(),
            r@ == w@.subrange(a as int, k as int),
        decreases b - k,
    {
        r.push(w[k]);
        k = k + 1;
        assert(r@ =~= w@.subrange(a as int, k as int));
    }
    r
}

/// Whether a changed path matches a requested one.
fn matches_path(file: &str, want: &str) -> (r: bool)
    ensures
        r == path_matches(file@, want@),
{
    let f = normalize_path(file);
    let mut w = normalize_path(want);
    if chars_eq(&f, &w) {
        return true;
    }
    let ghost w0 = w@;
    w.push('/');
    assert(w@ =~= w0 + seq!['/']);
    chars_starts_with(&f, &w)
}

// ---------------------------------------------------------------------------
// Sets of paths
// ---------------------------------------------------------------------------
/// The paths of the staged changes.
pub open spec fn staged_paths(changes: Seq<Change>) -> Set<Seq<char>> {
    Set::new(
        |p: Seq<char>|
            exists|i: int| 0 <= i < changes.len() && changes[i].staged && (#[trigger] changes[i]).path@ == p,
    )
}

/// The staged paths, ascending, each once.
fn staged_path_set(changes: &[Change]) -> (r: Vec<String>)
    ensures
        strictly_sorted(texts(r@)),
        texts(r@).to_set() == staged_paths(changes@),
{
    let mut r: Vec<String> = Vec::new();
    let mut i: usize = 0;
    assert(texts(r@).to_set() =~= staged_paths(changes@.take(0)));
    while i < changes.len()
        invariant
            0 <= i <= changes@.len(),
            strictly_sorted(texts(r@)),
            texts(r@).to_set() == staged_paths(changes@.take(i as int)),
        decreases changes@.len() - i,
    {
        let ghost before = staged_paths(changes@.take(i as int));
        let ghost after = staged_paths(changes@.take(i + 1));
        let ghost c = changes@[i as int];
        assert(changes@.take(i + 1)[i as int] == c);
        if changes[i].staged {
            insert_sorted(&mut r, changes[i].path.clone());
            assert(after =~= before.insert(c.path@)) by {
                assert forall|p: Seq<char>| after.contains(p) implies before.insert(
                    c.path@,
                ).contains(p) by {
                    let j = choose|j: int|
                        0 <= j < i + 1 && changes@.take(i + 1)[j].staged && (#[trigger] changes@.take(
                            i + 1,
                        )[j]).path@ == p;
                    if j < i {
                        assert(changes@.take(i as int)[j] == changes@.take(i + 1)[j]);
                    }
                }
                assert forall|p: Seq<char>| before.insert(c.path@).contains(p) implies after.contains(
                    p,
                ) by {
                    if p != c.path@ {
                        let j = choose|j: int|
                            0 <= j < i && changes@.take(i as int)[j].staged && (#[trigger] changes@.take(
                                i as int,
                            )[j]).path@ == p;
                        assert(changes@.take(i as int)[j] == changes@.take(i + 1)[j]);
                    }
                }
            }
        } else {
            assert(after =~= before) by {
                assert forall|p: Seq<char>| after.contains(p) implies before.contains(p) by {
                    let j = choose|j: int|
                        0 <= j < i + 1 && changes@.take(i + 1)[j].staged && (#[trigger] changes@.take(
                            i + 1,
                        )[j]).path@ == p;
                    assert(changes@.take(i as int)[j] == changes@.take(i + 1)[j]);
                }
                assert forall|p: Seq<char>| before.contains(p) implies after.contains(p) by {
                    let j = choose|j: int|
                        0 <= j < i && changes@.take(i as int)[j].staged && (#[trigger] changes@.take(
                            i as int,
                        )[j]).path@ == p;
                    assert(changes@.take(i as int)[j] == changes@.take(i + 1)[j]);
                }
            }
        }
        i = i + 1;
    }
    assert(changes@.take(i as int) =~= changes@);
    r
}

/// Membership in a list of strings, as a fact about its texts.
proof fn lemma_has_text_set(list: Seq<String>, k: Seq<char>)
    ensures
        has_text(list, k) <==> texts(list).to_set().contains(k),
{
    if has_text(list, k) {
        let i = choose|i: int| 0 <= i < list.len() && (#[trigger] list[i])@ == k;
        assert(texts(list)[i] == k);
    }
    if texts(list).to_set().contains(k) {
        let i = choose|i: int| 0 <= i < texts(list).len() && texts(list)[i] == k;
        assert(list[i]@ == k);
    }
}

/// The changed paths that some requested path matches.
pub open spec fn expanded(requested: Seq<String>, changes: Seq<Change>) -> Set<Seq<char>> {
    Set::new(
        |p: Seq<char>|
            exists|k: int, j: int|
                0 <= k < requested.len() && 0 <= j < changes.len() && #[trigger] path_matches(
                    changes[j].path@,
                    requested[k]@,
                ) && changes[j].path@ == p,
    )
}

/// The part of `expanded` found by the requests before `k`, and by request
/// `k` among the changes before `j`.
pub open spec fn expanded_upto(
    requested: Seq<String>,
    changes: Seq<Change>,
    k: int,
    j: int,
) -> Set<Seq<char>> {
    Set::new(
        |p: Seq<char>|
            exists|a: int, b: int|
                0 <= a <= k && 0 <= b < changes.len() && (a < k || b < j) && a < requested.len()
                    && #[trigger] path_matches(changes[b].path@, requested[a]@) && changes[b].path@
                    == p,
    )
}

/// The changed paths that the requested paths name, ascending, each once.
pub fn expand_target_paths(requested_paths: &[String], changes: &[Change]) -> (r: Vec<String>)
    ensures
        strictly_sorted(texts(r@)),
        texts(r@).to_set() == expanded(requested_paths@, changes@),
{
    let mut targets: Vec<String> = Vec::new();
    let mut k: usize = 0;
    assert(texts(targets@).to_set() =~= expanded_upto(requested_paths@, changes@, 0, 0));
    while k < requested_paths.len()
        invariant
            0 <= k <= requested_paths@.len(),
            strictly_sorted(texts(targets@)),
            texts(targets@).to_set() == expanded_upto(requested_paths@, changes@, k as int, 0),
        decreases requested_paths@.len() - k,
    {
        let mut j: usize = 0;
        while j < changes.len()
            invariant
                0 <= k < requested_paths@.len(),
                0 <= j <= changes@.len(),
                strictly_sorted(texts(targets@)),
                texts(targets@).to_set() == expanded_upto(
                    requested_paths@,
                    changes@,
                    k as int,
                    j as int,
                ),
            decreases changes@.len() - j,
        {
            let ghost before = expanded_upto(requested_paths@, changes@, k as int, j as int);
            let ghost after = expanded_upto(requested_paths@, changes@, k as int, j + 1);
            let ghost pj = changes@[j as int].path@;
            let m = matches_path(changes[j].path.as_str(), requested_paths[k].as_str());
            if m {
                insert_sorted(&mut targets, changes[j].path.clone());
            }
            assert(after =~= if m {
                before.insert(pj)
            } else {
                before
            }) by {
                assert forall|p: Seq<char>| after.contains(p) implies (if m {
                    before.insert(pj)
                } else {
                    before
                }).contains(p) by {
                    let (a, b) = choose|a: int, b: int|
                        0 <= a <= k && 0 <= b < changes@.len() && (a < k || b < j + 1) && a
                            < requested_paths@.len() && #[trigger] path_matches(
                            changes@[b].path@,
                            requested_paths@[a]@,
                        ) && changes@[b].path@ == p;
                    if !(a == k && b == j) {
                        assert(before.contains(p));
                    }
                }
                assert forall|p: Seq<char>| (if m {
                    before.insert(pj)
                } else {
                    before
                }).contains(p) implies after.contains(p) by {
                    if m && p == pj {
                        assert(path_matches(changes@[j as int].path@, requested_paths@[k as int]@));
                    } else {
                        let (a, b) = choose|a: int, b: int|
                            0 <= a <= k && 0 <= b < changes@.len() && (a < k || b < j) && a
                                < requested_paths@.len() && #[trigger] path_matches(
                                changes@[b].path@,
                                requested_paths@[a]@,
                            ) && changes@[b].path@ == p;
                        assert(path_matches(changes@[b].path@, requested_paths@[a]@));
                    }
                }
            }
            j = j + 1;
        }
        assert(expanded_upto(requested_paths@, changes@, k as int, changes@.len() as int)
            =~= expanded_upto(requested_paths@, changes@, k + 1, 0)) by {
            let s1 = expanded_upto(requested_paths@, changes@, k as int, changes@.len() as int);
            let s2 = expanded_upto(requested_paths@, changes@, k + 1, 0);
            assert forall|p: Seq<char>| s1.contains(p) implies s2.contains(p) by {
                let (a, b) = choose|a: int, b: int|
                    0 <= a <= k && 0 <= b < changes@.len() && (a < k || b < changes@.len()) && a
                        < requested_paths@.len() && #[trigger] path_matches(
                        changes@[b].path@,
                        requested_paths@[a]@,
                    ) && changes@[b].path@ == p;
                assert(path_matches(changes@[b].path@, requested_paths@[a]@));
            }
            assert forall|p: Seq<char>| s2.contains(p) implies s1.contains(p) by {
                let (a, b) = choose|a: int, b: int|
                    0 <= a <= k + 1 && 0 <= b < changes@.len() && (a < k + 1 || b < 0) && a
                        < requested_paths@.len() && #[trigger] path_matches(
                        changes@[b].path@,
                        requested_paths@[a]@,
                    ) && changes@[b].path@ == p;
                assert(path_matches(changes@[b].path@, requested_paths@[a]@));
            }
        }
        k = k + 1;
    }
    assert(expanded_upto(requested_paths@, changes@, k as int, 0) =~= expanded(
        requested_paths@,
        changes@,
    )) by {
        let s1 = expanded_upto(requested_paths@, changes@, k as int, 0);
        let s2 = expanded(requested_paths@, changes@);
        assert forall|p: Seq<char>| s1.contains(p) implies s2.contains(p) by {
            let (a, b) = choose|a: int, b: int|
                0 <= a <= k && 0 <= b < changes@.len() && (a < k || b < 0) && a
                    < requested_paths@.len() && #[trigger] path_matches(
                    changes@[b].path@,
                    requested_paths@[a]@,
                ) && changes@[b].path@ == p;
            assert(path_matches(changes@[b].path@, requested_paths@[a]@));
        }
        assert forall|p: Seq<char>| s2.contains(p) implies s1.contains(p) by {
            let (a, b) = choose|a: int, b: int|
                0 <= a < requested_paths@.len() && 0 <= b < changes@.len() && #[trigger] path_matches(
                    changes@[b].path@,
                    requested_paths@[a]@,
                ) && changes@[b].path@ == p;
            assert(path_matches(changes@[b].path@, requested_paths@[a]@));
        }
    }
    targets
}

/// All changed paths.
pub open spec fn change_paths(changes: Seq<Change>) -> Set<Seq<char>> {
    Set::new(
        |p: Seq<char>| exists|i: int| 0 <= i < changes.len() && (#[trigger] changes[i]).path@ == p,
    )
}

/// The paths a view shows: the unstaged ones when staged paths are excluded,
/// else the staged ones when unstaging, else all.
pub open spec fn view_set(changes: Seq<Change>, exclude_staged: bool, unstage: bool) -> Set<
    Seq<char>,
> {
    let staged = staged_paths(changes);
    Set::new(
        |p: Seq<char>|
            change_paths(changes).contains(p) && (if exclude_staged {
                !staged.contains(p)
            } else if unstage {
                staged.contains(p)
            } else {
                true
            }),
    )
}

/// The changed paths a view shows, ascending, each once.
pub fn view_paths(changes: &[Change], exclude_staged: bool, unstage: bool) -> (r: Vec<String>)
    ensures
        strictly_sorted(texts(r@)),
        texts(r@).to_set() == view_set(changes@, exclude_staged, unstage),
{
    let staged = staged_path_set(changes);
    let ghost sp = staged_paths(changes@);
    let ghost keep = |p: Seq<char>|
        if exclude_staged {
            !sp.contains(p)
        } else if unstage {
            sp.contains(p)
        } else {
            true
        };
    let mut r: Vec<String> = Vec::new();
    let mut i: usize = 0;
    assert(texts(r@).to_set() =~= Set::new(
        |p: Seq<char>|
            exists|j: int| 0 <= j < 0 && (#[trigger] changes@[j]).path@ == p && keep(p),
    ));
    while i < changes.len()
        invariant
            0 <= i <= changes@.len(),
            strictly_sorted(texts(staged@)),
            texts(staged@).to_set() == sp,
            sp == staged_paths(changes@),
            keep == (|p: Seq<char>|
                if exclude_staged {
                    !sp.contains(p)
                } else if unstage {
                    sp.contains(p)
                } else {
                    true
                }),
            strictly_sorted(texts(r@)),
            texts(r@).to_set() == Set::new(
                |p: Seq<char>|
                    exists|j: int| 0 <= j < i && (#[trigger] changes@[j]).path@ == p && keep(p),
            ),
        decreases changes@.len() - i,
    {
        let ghost before = texts(r@).to_set();
        let ghost pi = changes@[i as int].path@;
        let path = &changes[i].path;
        proof {
            lemma_has_text_set(staged@, pi);
        }
        let in_staged = list_has_text(&staged, path.as_str());
        let kept = if exclude_staged {
            !in_staged
        } else if unstage {
            in_staged
        } else {
            true
        };
        assert(kept == keep(pi));
        if kept {
            insert_sorted(&mut r, path.clone());
        }
        assert(texts(r@).to_set() =~= Set::new(
            |p: Seq<char>|
                exists|j: int| 0 <= j < i + 1 && (#[trigger] changes@[j]).path@ == p && keep(p),
        )) by {
            let s2 = Set::new(
                |p: Seq<char>|
                    exists|j: int| 0 <= j < i + 1 && (#[trigger] changes@[j]).path@ == p && keep(p),
            );
            assert forall|p: Seq<char>| texts(r@).to_set().contains(p) implies s2.contains(p) by {
                if kept && p == pi {
                    assert(changes@[i as int].path@ == p);
                } else {
                    let j = choose|j: int|
                        0 <= j < i && (#[trigger] changes@[j]).path@ == p && keep(p);
                    assert(changes@[j].path@ == p);
                }
            }
            assert forall|p: Seq<char>| s2.contains(p) implies texts(r@).to_set().contains(p) by {
                let j = choose|j: int| 0 <= j < i + 1 && (#[trigger] changes@[j]).path@ == p && keep(p);
                if j < i {
                    assert(before.contains(p));
                }
            }
        }
        i = i + 1;
    }
    assert(texts(r@).to_set() =~= view_set(changes@, exclude_staged, unstage)) by {
        let s1 = Set::new(
            |p: Seq<char>|
                exists|j: int| 0 <= j < i && (#[trigger] changes@[j]).path@ == p && keep(p),
        );
        assert forall|p: Seq<char>| s1.contains(p) implies view_set(
            changes@,
            exclude_staged,
            unstage,
        ).contains(p) by {
            let j = choose|j: int| 0 <= j < i && (#[trigger] changes@[j]).path@ == p && keep(p);
            assert(change_paths(changes@).contains(p));
        }
        assert forall|p: Seq<char>| view_set(changes@, exclude_staged, unstage).contains(
            p,
        ) implies s1.contains(p) by {
            let j = choose|j: int| 0 <= j < changes@.len() && (#[trigger] changes@[j]).path@ == p;
            assert(changes@[j].path@ == p && keep(p));
        }
    }
    r
}

/// How many of `ps` are in `staged`.
pub open spec fn count_in(ps: Seq<Seq<char>>, staged: Set<Seq<char>>) -> nat
    decreases ps.len(),
{
    if ps.len() == 0 {
        0
    } else {
        count_in(ps.drop_last(), staged) + if staged.contains(ps.last()) {
            1nat
        } else {
            0nat
        }
    }
}

/// At most as many as there are paths.
proof fn lemma_count_in_le(ps: Seq<Seq<char>>, staged: Set<Seq<char>>)
    ensures
        count_in(ps, staged) <= ps.len(),
    decreases ps.len(),
{
    if ps.len() > 0 {
        lemma_count_in_le(ps.drop_last(), staged);
    }
}

/// The number of `paths` that are staged and the number that are not.
pub fn staged_counts(paths: &[String], changes: &[Change]) -> (r: (usize, usize))
    ensures
        r.0 == count_in(texts(paths@), staged_paths(changes@)),
        r.0 + r.1 == paths@.len(),
{
    let staged = staged_path_set(changes);
    let ghost sp = staged_paths(changes@);
    let mut n: usize = 0;
    let mut i: usize = 0;
    while i < paths.len()
        invariant
            0 <= i <= paths@.len(),
            texts(staged@).to_set() == sp,
            n == count_in(texts(paths@).take(i as int), sp),
            n <= i,
        decreases paths@.len() - i,
    {
        proof {
            let t = texts(paths@).take(i + 1);
            assert(t.drop_last() =~= texts(paths@).take(i as int));
            assert(t.last() == paths@[i as int]@);
            lemma_has_text_set(staged@, paths@[i as int]@);
        }
        if list_has_text(&staged, paths[i].as_str()) {
            n = n + 1;
        }
        i = i + 1;
    }
    assert(texts(paths@).take(i as int) =~= texts(paths@));
    (n, paths.len() - n)
}

/// The paths of `ps` whose membership in `staged` is `want`, in order.
pub open spec fn filter_staged(ps: Seq<Seq<char>>, staged: Set<Seq<char>>, want: bool) -> Seq<
    Seq<char>,
>
    decreases ps.len(),
{
    if ps.len() == 0 {
        Seq::empty()
    } else {
        let r = filter_staged(ps.drop_last(), staged, want);
        if staged.contains(ps.last()) == want {
            r.push(ps.last())
        } else {
            r
        }
    }
}

/// The staged paths among `paths`, in order.
pub fn preselected_ids(paths: &[String], changes: &[Change]) -> (r: Vec<String>)
    ensures
        texts(r@) == filter_staged(texts(paths@), staged_paths(changes@), true),
{
    let staged = staged_path_set(changes);
    let ghost sp = staged_paths(changes@);
    let mut r: Vec<String> = Vec::new();
    let mut i: usize = 0;
    while i < paths.len()
        invariant
            0 <= i <= paths@.len(),
            texts(staged@).to_set() == sp,
            texts(r@) == filter_staged(texts(paths@).take(i as int), sp, true),
        decreases paths@.len() - i,
    {
        proof {
            let t = texts(paths@).take(i + 1);
            assert(t.drop_last() =~= texts(paths@).take(i as int));
            assert(t.last() == paths@[i as int]@);
            lemma_has_text_set(staged@, paths@[i as int]@);
        }
        if list_has_text(&staged, paths[i].as_str()) {
            let ghost before = texts(r@);
            r.push(paths[i].clone());
            assert(texts(r@) =~= before.push(paths@[i as int]@));
        }
        i = i + 1;
    }
    assert(texts(paths@).take(i as int) =~= texts(paths@));
    r
}

/// The paths of `ps` to stage (`stage`: selected and not staged) or to
/// unstage (not selected and staged), in order.
pub open spec fn transitions(
    ps: Seq<Seq<char>>,
    selected: Set<Seq<char>>,
    staged: Set<Seq<char>>,
    stage: bool,
) -> Seq<Seq<char>>
    decreases ps.len(),
{
    if ps.len() == 0 {
        Seq::empty()
    } else {
        let r = transitions(ps.drop_last(), selected, staged, stage);
        let p = ps.last();
        if (stage && selected.contains(p) && !staged.contains(p)) || (!stage && !selected.contains(
            p,
        ) && staged.contains(p)) {
            r.push(p)
        } else {
            r
        }
    }
}

/// The paths to stage and to unstage so that, among the visible paths, the
/// staged ones are the selected ones.
pub fn plan_transitions(visible_paths: &[String], selected_ids: &[String], changes: &[Change]) -> (r: (
    Vec<String>,
    Vec<String>,
))
    ensures
        texts(r.0@) == transitions(
            texts(visible_paths@),
            texts(selected_ids@).to_set(),
            staged_paths(changes@),
            true,
        ),
        texts(r.1@) == transitions(
            texts(visible_paths@),
            texts(selected_ids@).to_set(),
            staged_paths(changes@),
            false,
        ),
{
    let staged = staged_path_set(changes);
    let ghost sp = staged_paths(changes@);
    let ghost sel = texts(selected_ids@).to_set();
    let mut to_stage: Vec<String> = Vec::new();
    let mut to_unstage: Vec<String> = Vec::new();
    let mut i: usize = 0;
    while i < visible_paths.len()
        invariant
            0 <= i <= visible_paths@.len(),
            texts(staged@).to_set() == sp,
            sel == texts(selected_ids@).to_set(),
            texts(to_stage@) == transitions(texts(visible_paths@).take(i as int), sel, sp, true),
            texts(to_unstage@) == transitions(
                texts(visible_paths@).take(i as int),
                sel,
                sp,
                false,
            ),
        decreases visible_paths@.len() - i,
    {
        let path = &visible_paths[i];
        proof {
            let t = texts(visible_paths@).take(i + 1);
            assert(t.drop_last() =~= texts(visible_paths@).take(i as int));
            assert(t.last() == path@);
            lemma_has_text_set(staged@, path@);
            lemma_has_text_set(selected_ids@, path@);
        }
        let is_selected = list_has_text_slice(selected_ids, path.as_str());
        let is_staged = list_has_text(&staged, path.as_str());
        if is_selected && !is_staged {
            let ghost before = texts(to_stage@);
            to_stage.push(path.clone());
            assert(texts(to_stage@) =~= before.push(path@));
        } else if !is_selected && is_staged {
            let ghost before = texts(to_unstage@);
            to_unstage.push(path.clone());
            assert(texts(to_unstage@) =~= before.push(path@));
        }
        i = i + 1;
    }
    assert(texts(visible_paths@).take(i as int) =~= texts(visible_paths@));
    (to_stage, to_unstage)
}

/// Whether some string of a slice has the text `value`.
fn list_has_text_slice(list: &[String], value: &str) -> (r: bool)
    ensures
        r == has_text(list@, value@),
{
    let mut i: usize = 0;
    while i < list.len()
        invariant
            0 <= i <= list@.len(),
            forall|j: int| 0 <= j < i ==> (#[trigger] list@[j])@ != value@,
        decreases list@.len() - i,
    {
        if crate::text::str_eq(list[i].as_str(), value) {
            return true;
        }
        i = i + 1;
    }
    false
}

// ---------------------------------------------------------------------------
// Laws of staging plans
// ---------------------------------------------------------------------------
/// A path is planned for staging (unstaging) exactly when it is visible and
/// selected but not staged (not selected but staged).
pub proof fn lemma_transitions_contains(
    ps: Seq<Seq<char>>,
    selected: Set<Seq<char>>,
    staged: Set<Seq<char>>,
    stage: bool,
    p: Seq<char>,
)
    ensures
        transitions(ps, selected, staged, stage).contains(p) <==> ps.contains(p) && (if stage {
            selected.contains(p) && !staged.contains(p)
        } else {
            !selected.contains(p) && staged.contains(p)
        }),
    decreases ps.len(),
{
    if ps.len() > 0 {
        let init = ps.drop_last();
        lemma_transitions_contains(init, selected, staged, stage, p);
        let r = transitions(init, selected, staged, stage);
        assert(ps =~= init.push(ps.last()));
        if ps.contains(p) && p != ps.last() {
            let k = choose|k: int| 0 <= k < ps.len() && ps[k] == p;
            assert(init[k] == p);
        }
        if init.contains(p) {
            let k = choose|k: int| 0 <= k < init.len() && init[k] == p;
            assert(ps[k] == p);
        }
        if r.push(ps.last()).contains(p) && p != ps.last() {
            let k = choose|k: int| 0 <= k < r.push(ps.last()).len() && r.push(ps.last())[k] == p;
            assert(r[k] == p);
        }
        if r.contains(p) {
            let k = choose|k: int| 0 <= k < r.len() && r[k] == p;
            assert(r.push(ps.last())[k] == p);
        }
        assert(r.push(ps.last())[r.len() as int] == ps.last());
        assert(ps[ps.len() - 1] == ps.last());
    }
}

/// Carrying out a plan makes the staged visible paths exactly the selected
/// visible paths, and no path is both staged and unstaged by it.
pub proof fn lemma_plan_reaches_selection(
    visible: Seq<Seq<char>>,
    selected: Set<Seq<char>>,
    staged: Set<Seq<char>>,
    p: Seq<char>,
)
    requires
        visible.contains(p),
    ensures
        ({
            let add = transitions(visible, selected, staged, true);
            let remove = transitions(visible, selected, staged, false);
            &&& ((staged.contains(p) || add.contains(p)) && !remove.contains(p)) <==> selected.contains(p)
            &&& !(add.contains(p) && remove.contains(p))
        }),
{
    lemma_transitions_contains(visible, selected, staged, true, p);
    lemma_transitions_contains(visible, selected, staged, false, p);
}

} // verus!
