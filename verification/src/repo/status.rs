//! The working-tree status: what state each changed path is in, the list of
//! changes, and what staging a path does to the index.
use vstd::prelude::*;

use crate::git::{Change, FileStatus};
use crate::ordered::{lemma_text_lt_total, lemma_text_lt_transitive, strictly_sorted, text_less, text_lt};
use crate::text::{owned, str_eq};

verus! {

/// The status flags of one entry of the repository's status.
#[derive(Debug, Clone, Copy, PartialEq, Eq, Structural)]
pub struct StatusFlags {
    pub index_new: bool,
    pub index_modified: bool,
    pub index_deleted: bool,
    pub index_renamed: bool,
    pub index_typechange: bool,
    pub wt_new: bool,
    pub wt_modified: bool,
    pub wt_deleted: bool,
    pub wt_renamed: bool,
    pub wt_typechange: bool,
    pub ignored: bool,
}

/// One entry of the repository's status: its flags, its path (the new path
/// of its delta where there is one), and the old and new paths of its
/// rename delta where there is one.
#[derive(Debug, Clone)]
pub struct StatusEntry {
    pub flags: StatusFlags,
    pub path: Option<String>,
    pub renamed: Option<(String, String)>,
}

/// Whether anything of the entry is staged in the index.
pub open spec fn staged_spec(f: StatusFlags) -> bool {
    f.index_new || f.index_modified || f.index_deleted || f.index_renamed || f.index_typechange
}

/// Whether anything of the entry is staged in the index.
pub fn is_staged_bits(f: StatusFlags) -> (r: bool)
    ensures
        r == staged_spec(f),
{
    f.index_new || f.index_modified || f.index_deleted || f.index_renamed || f.index_typechange
}

/// The state of an entry: ignored entries are unknown; a new file that is
/// not staged is untracked; then renamed (with its paths; unknown without
/// them), deleted, type-changed, modified, added, in that order.
pub open spec fn status_spec(f: StatusFlags, renamed: Option<(String, String)>) -> FileStatus {
    if f.ignored {
        FileStatus::Unknown
    } else if f.wt_new && !staged_spec(f) {
        FileStatus::Untracked
    } else if f.index_renamed || f.wt_renamed {
        match renamed {
            Some((o, n)) => FileStatus::Renamed { old_path: o, new_path: n },
            None => FileStatus::Unknown,
        }
    } else if f.index_deleted || f.wt_deleted {
        FileStatus::Deleted
    } else if f.index_typechange || f.wt_typechange {
        FileStatus::TypeChange
    } else if f.index_modified || f.wt_modified {
        FileStatus::Modified
    } else if f.index_new || f.wt_new {
        FileStatus::Added
    } else {
        FileStatus::Unknown
    }
}

/// The state of an entry.
pub fn map_status(f: StatusFlags, renamed: &Option<(String, String)>) -> (r: FileStatus)
    ensures
        r == status_spec(f, *renamed),
{
    if f.ignored {
        FileStatus::Unknown
    } else if f.wt_new && !is_staged_bits(f) {
        FileStatus::Untracked
    } else if f.index_renamed || f.wt_renamed {
        match renamed {
            Some((o, n)) => FileStatus::Renamed { old_path: o.clone(), new_path: n.clone() },
            None => FileStatus::Unknown,
        }
    } else if f.index_deleted || f.wt_deleted {
        FileStatus::Deleted
    } else if f.index_typechange || f.wt_typechange {
        FileStatus::TypeChange
    } else if f.index_modified || f.wt_modified {
        FileStatus::Modified
    } else if f.index_new || f.wt_new {
        FileStatus::Added
    } else {
        FileStatus::Unknown
    }
}

/// The path a change is listed under: a rename's new path, else the entry's
/// path (empty where it has none).
pub open spec fn change_path_spec(e: StatusEntry) -> Seq<char> {
    match status_spec(e.flags, e.renamed) {
        FileStatus::Renamed { old_path: _, new_path: n } => n@,
        _ => match e.path {
            Some(p) => p@,
            None => Seq::empty(),
        },
    }
}

/// Whether a change is what an entry gives.
pub open spec fn change_from(c: Change, e: StatusEntry) -> bool {
    c.path@ == change_path_spec(e) && c.staged == staged_spec(e.flags) && c.status == status_spec(
        e.flags,
        e.renamed,
    )
}

/// The change an entry gives.
pub fn change_of(e: &StatusEntry) -> (r: Change)
    ensures
        change_from(r, *e),
{
    let status = map_status(e.flags, &e.renamed);
    let path = match &status {
        FileStatus::Renamed { old_path: _, new_path } => new_path.clone(),
        _ => match &e.path {
            Some(p) => p.clone(),
            None => String::new(),
        },
    };
    Change { path, staged: is_staged_bits(e.flags), status }
}

/// Index of the first entry listed under path `p`, or -1.
pub open spec fn first_entry(s: Seq<StatusEntry>, p: Seq<char>) -> int
    decreases s.len(),
{
    if s.len() == 0 {
        -1
    } else {
        let r = first_entry(s.drop_last(), p);
        if r >= 0 {
            r
        } else if change_path_spec(s.last()) == p {
            s.len() - 1
        } else {
            -1
        }
    }
}

/// The paths of changes.
pub open spec fn change_paths(v: Seq<Change>) -> Seq<Seq<char>> {
    v.map_values(|c: Change| c.path@)
}

/// The paths entries are listed under.
pub open spec fn entry_paths(s: Seq<StatusEntry>) -> Seq<Seq<char>> {
    s.map_values(|e: StatusEntry| change_path_spec(e))
}

/// Whether `out` lists the changes of `entries`: one per path, in ascending
/// path order, each as the first entry with that path gives it.
pub open spec fn lists_changes(out: Seq<Change>, entries: Seq<StatusEntry>) -> bool {
    &&& strictly_sorted(change_paths(out))
    &&& change_paths(out).to_set() == entry_paths(entries).to_set()
    &&& forall|k: int|
        0 <= k < out.len() ==> first_entry(entries, (#[trigger] out[k]).path@) >= 0 && change_from(
            out[k],
            entries[first_entry(entries, out[k].path@)],
        )
}

/// The first entry with a path is found exactly where the path occurs.
proof fn lemma_first_entry(s: Seq<StatusEntry>, p: Seq<char>)
    ensures
        first_entry(s, p) >= 0 <==> entry_paths(s).to_set().contains(p),
        first_entry(s, p) >= 0 ==> first_entry(s, p) < s.len() && change_path_spec(
            s[first_entry(s, p)],
        ) == p,
    decreases s.len(),
{
    if s.len() > 0 {
        let d = s.drop_last();
        lemma_first_entry(d, p);
        assert(entry_paths(s) =~= entry_paths(d).push(change_path_spec(s.last())));
        if first_entry(d, p) >= 0 {
            assert(s[first_entry(d, p)] == d[first_entry(d, p)]);
        }
        if entry_paths(s).to_set().contains(p) && first_entry(d, p) < 0 {
            let k = choose|k: int| 0 <= k < entry_paths(s).len() && entry_paths(s)[k] == p;
            if k < d.len() {
                assert(entry_paths(d)[k] == p);
                assert(entry_paths(d).to_set().contains(p));
            }
        }
        if first_entry(d, p) >= 0 {
            let k = choose|k: int| 0 <= k < entry_paths(d).len() && entry_paths(d)[k] == p;
            assert(entry_paths(s)[k] == p);
        }
        if first_entry(s, p) == s.len() - 1 {
            assert(entry_paths(s)[s.len() - 1] == p);
        }
    } else {
        assert(entry_paths(s).len() == 0);
    }
}

/// The elements of a sequence with one more element.
proof fn lemma_push_set(s: Seq<Seq<char>>, x: Seq<char>)
    ensures
        s.push(x).to_set() == s.to_set().insert(x),
{
    assert forall|e: Seq<char>| s.push(x).to_set().contains(e) implies s.to_set().insert(x).contains(
        e,
    ) by {
        let k = choose|k: int| 0 <= k < s.push(x).len() && s.push(x)[k] == e;
        if k < s.len() {
            assert(s[k] == e);
        }
    }
    assert forall|e: Seq<char>| s.to_set().insert(x).contains(e) implies s.push(x).to_set().contains(
        e,
    ) by {
        if e == x {
            assert(s.push(x)[s.len() as int] == e);
        } else {
            let k = choose|k: int| 0 <= k < s.len() && s[k] == e;
            assert(s.push(x)[k] == e);
        }
    }
    assert(s.push(x).to_set() =~= s.to_set().insert(x));
}

/// Inserts a change into a list in ascending path order, unless its path is
/// listed; gives where it went.
fn insert_change(out: &mut Vec<Change>, c: Change) -> (r: Option<usize>)
    requires
        strictly_sorted(change_paths(old(out)@)),
    ensures
        strictly_sorted(change_paths(final(out)@)),
        change_paths(final(out)@).to_set() == change_paths(old(out)@).to_set().insert(c.path@),
        match r {
            Some(i) => i <= old(out)@.len() && final(out)@ == old(out)@.insert(i as int, c)
                && !change_paths(old(out)@).to_set().contains(c.path@),
            None => final(out)@ == old(out)@ && change_paths(old(out)@).to_set().contains(c.path@),
        },
{
    let ghost s = change_paths(out@);
    let mut i: usize = 0;
    while i < out.len() && text_less(out[i].path.as_str(), c.path.as_str())
        invariant
            0 <= i <= out@.len(),
            s == change_paths(out@),
            strictly_sorted(s),
            forall|k: int| 0 <= k < i ==> text_lt(#[trigger] s[k], c.path@),
        decreases out@.len() - i,
    {
        i = i + 1;
    }
    if i < out.len() && str_eq(out[i].path.as_str(), c.path.as_str()) {
        assert(s[i as int] == c.path@);
        assert(s.to_set().contains(c.path@));
        assert(s.to_set().insert(c.path@) =~= s.to_set());
        return None;
    }
    proof {
        if i < out@.len() {
            lemma_text_lt_total(s[i as int], c.path@);
        }
        if s.to_set().contains(c.path@) {
            let k = choose|k: int| 0 <= k < s.len() && s[k] == c.path@;
            if k < i {
                crate::ordered::lemma_text_lt_irreflexive(c.path@);
            } else if k > i {
                lemma_text_lt_transitive(c.path@, s[i as int], s[k]);
                crate::ordered::lemma_text_lt_irreflexive(c.path@);
            }
        }
    }
    let ghost cv = c.path@;
    let ghost old_out = out@;
    out.insert(i, c);
    let ghost t = change_paths(out@);
    assert(t =~= s.insert(i as int, cv));
    assert forall|a: int, b: int| 0 <= a < b < t.len() implies text_lt(
        #[trigger] t[a],
        #[trigger] t[b],
    ) by {
        if b < i {
        } else if b == i {
        } else if a < i {
            if i < s.len() {
                lemma_text_lt_transitive(t[a], cv, s[i as int]);
                if b - 1 > i {
                    lemma_text_lt_transitive(t[a], s[i as int], s[b - 1]);
                }
            }
        } else if a == i {
            if b - 1 > i {
                lemma_text_lt_transitive(cv, s[i as int], s[b - 1]);
            }
        }
    }
    assert(t.to_set() =~= s.to_set().insert(cv)) by {
        assert forall|e: Seq<char>| t.to_set().contains(e) implies s.to_set().insert(cv).contains(
            e,
        ) by {
            let k = choose|k: int| 0 <= k < t.len() && t[k] == e;
            if k < i {
                assert(s[k] == e);
            } else if k > i {
                assert(s[k - 1] == e);
            }
        }
        assert forall|e: Seq<char>| s.to_set().insert(cv).contains(e) implies t.to_set().contains(
            e,
        ) by {
            if e == cv {
                assert(t[i as int] == e);
            } else {
                let k = choose|k: int| 0 <= k < s.len() && s[k] == e;
                if k < i {
                    assert(t[k] == e);
                } else {
                    assert(t[k + 1] == e);
                }
            }
        }
    }
    Some(i)
}

/// The changes of the repository's status: one per path, in ascending path
/// order; where several entries give the same path the first one counts.
pub fn collect_changes(entries: &Vec<StatusEntry>) -> (r: Vec<Change>)
    ensures
        lists_changes(r@, entries@),
{
    let mut out: Vec<Change> = Vec::new();
    let mut i: usize = 0;
    assert(change_paths(out@).to_set() =~= entry_paths(entries@.take(0)).to_set());
    while i < entries.len()
        invariant
            0 <= i <= entries@.len(),
            lists_changes(out@, entries@.take(i as int)),
        decreases entries@.len() - i,
    {
        let ghost pre = entries@.take(i as int);
        let ghost nxt = entries@.take(i + 1);
        assert(nxt.drop_last() =~= pre);
        assert(nxt.last() == entries@[i as int]);
        assert(entry_paths(nxt) =~= entry_paths(pre).push(change_path_spec(entries@[i as int])));
        proof {
            lemma_push_set(entry_paths(pre), change_path_spec(entries@[i as int]));
        }
        let c = change_of(&entries[i]);
        let ghost p = c.path@;
        let ghost old_out = out@;
        let pos = insert_change(&mut out, c);
        proof {
            assert forall|q: Seq<char>| entry_paths(pre).to_set().contains(q) implies first_entry(
                nxt,
                q,
            ) == first_entry(pre, q) by {
                lemma_first_entry(pre, q);
            }
            match pos {
                None => {
                    assert forall|k: int| 0 <= k < out@.len() implies first_entry(
                        nxt,
                        (#[trigger] out@[k]).path@,
                    ) >= 0 && change_from(out@[k], nxt[first_entry(nxt, out@[k].path@)]) by {
                        assert(change_paths(old_out)[k] == out@[k].path@);
                        assert(change_paths(old_out).to_set().contains(out@[k].path@));
                        lemma_first_entry(pre, out@[k].path@);
                        assert(nxt[first_entry(pre, out@[k].path@)] == pre[first_entry(
                            pre,
                            out@[k].path@,
                        )]);
                    }
                },
                Some(j) => {
                    lemma_first_entry(pre, p);
                    assert(first_entry(pre, p) < 0);
                    assert(first_entry(nxt, p) == i);
                    assert forall|k: int| 0 <= k < out@.len() implies first_entry(
                        nxt,
                        (#[trigger] out@[k]).path@,
                    ) >= 0 && change_from(out@[k], nxt[first_entry(nxt, out@[k].path@)]) by {
                        if k == j {
                            assert(out@[k] == c);
                        } else {
                            let k0 = if k < j {
                                k
                            } else {
                                k - 1
                            };
                            assert(out@[k] == old_out[k0]);
                            assert(change_paths(old_out)[k0] == out@[k].path@);
                            assert(change_paths(old_out).to_set().contains(out@[k].path@));
                            lemma_first_entry(pre, out@[k].path@);
                            assert(nxt[first_entry(pre, out@[k].path@)] == pre[first_entry(
                                pre,
                                out@[k].path@,
                            )]);
                        }
                    }
                },
            }
        }
        i = i + 1;
    }
    assert(entries@.take(entries@.len() as int) =~= entries@);
    out
}

// ---------------------------------------------------------------------------
// Staging
// ---------------------------------------------------------------------------
/// A change to the index.
#[derive(Debug, Clone, PartialEq, Eq)]
pub enum IndexOp {
    /// Add everything matching a pathspec.
    AddAll(String),
    /// Add one file.
    AddPath(String),
    /// Remove a path from the index.
    RemovePath(String),
}

/// The status of a path as staging sees it: its flags and, for a rename,
/// its old and new paths.
pub open spec fn info_of(e: StatusEntry) -> (StatusFlags, Option<(String, String)>) {
    (e.flags, if e.flags.index_renamed || e.flags.wt_renamed {
        e.renamed
    } else {
        None
    })
}

/// The path staging looks an entry up by: its path, empty where it has none.
pub open spec fn stage_key(e: StatusEntry) -> Seq<char> {
    match e.path {
        Some(p) => p@,
        None => Seq::empty(),
    }
}

/// Index of the last entry with that path, or -1 (a later entry replaces
/// an earlier one).
pub open spec fn last_entry(s: Seq<StatusEntry>, p: Seq<char>) -> int
    decreases s.len(),
{
    if s.len() == 0 {
        -1
    } else if stage_key(s.last()) == p {
        s.len() - 1
    } else {
        last_entry(s.drop_last(), p)
    }
}

/// What staging knows of a path from the status.
pub open spec fn status_info_spec(s: Seq<StatusEntry>, p: Seq<char>) -> Option<
    (StatusFlags, Option<(String, String)>),
> {
    let i = last_entry(s, p);
    if i >= 0 {
        Some(info_of(s[i]))
    } else {
        None
    }
}

/// A last entry found lies in the list.
proof fn lemma_last_entry(s: Seq<StatusEntry>, p: Seq<char>)
    ensures
        last_entry(s, p) < s.len(),
        last_entry(s, p) >= 0 ==> stage_key(s[last_entry(s, p)]) == p,
    decreases s.len(),
{
    if s.len() > 0 && stage_key(s.last()) != p {
        lemma_last_entry(s.drop_last(), p);
        let r = last_entry(s.drop_last(), p);
        if r >= 0 {
            assert(s[r] == s.drop_last()[r]);
        }
    }
}

/// What staging knows of a path from the status.
pub fn status_info(entries: &Vec<StatusEntry>, path: &str) -> (r: Option<
    (StatusFlags, Option<(String, String)>),
>)
    ensures
        r == status_info_spec(entries@, path@),
{
    let path_chars = crate::text::str_to_chars(path);
    let mut i: usize = entries.len();
    proof {
        lemma_last_entry(entries@, path@);
        assert(entries@.take(entries@.len() as int) =~= entries@);
    }
    while i > 0
        invariant
            0 <= i <= entries@.len(),
            last_entry(entries@, path@) == last_entry(entries@.take(i as int), path@),
            path_chars@ == path@,
        decreases i,
    {
        let ghost pre = entries@.take(i as int);
        assert(pre.last() == entries@[i - 1]);
        assert(pre.drop_last() =~= entries@.take(i - 1));
        let key_matches = match &entries[i - 1].path {
            Some(p) => str_eq(p.as_str(), path),
            None => path_chars.len() == 0,
        };
        proof {
            if entries@[i - 1].path is None {
                assert(path_chars@.len() == 0 <==> path@ =~= Seq::<char>::empty());
            }
        }
        if key_matches {
            let e = &entries[i - 1];
            let renamed = if e.flags.index_renamed || e.flags.wt_renamed {
                match &e.renamed {
                    Some((o, n)) => Some((o.clone(), n.clone())),
                    None => None,
                }
            } else {
                None
            };
            return Some((e.flags, renamed));
        }
        i = i - 1;
    }
    None
}

/// A change to the index as texts.
pub enum OpView {
    AddAll(Seq<char>),
    AddPath(Seq<char>),
    RemovePath(Seq<char>),
}

/// A change to the index as texts.
pub open spec fn op_view(o: IndexOp) -> OpView {
    match o {
        IndexOp::AddAll(p) => OpView::AddAll(p@),
        IndexOp::AddPath(p) => OpView::AddPath(p@),
        IndexOp::RemovePath(p) => OpView::RemovePath(p@),
    }
}

/// What staging a path does: a directory or an existing file is added; a
/// missing path is removed where the status has it deleted, moved where
/// the status has it renamed (its new path added as a directory, a file or
/// a pathspec, its old path removed), and otherwise added as a pathspec.
/// `new_is_dir` and `new_exists` tell what the rename's new path is.
pub open spec fn stage_ops_spec(
    p: Seq<char>,
    is_dir: bool,
    exists: bool,
    info: Option<(StatusFlags, Option<(String, String)>)>,
    new_is_dir: bool,
    new_exists: bool,
) -> Seq<OpView> {
    if is_dir {
        seq![OpView::AddAll(p)]
    } else if exists {
        seq![OpView::AddPath(p)]
    } else {
        match info {
            Some((f, renamed)) => if f.wt_deleted || f.index_deleted {
                seq![OpView::RemovePath(p)]
            } else {
                match renamed {
                    Some((o, n)) => seq![
                        if new_is_dir {
                            OpView::AddAll(n@)
                        } else if new_exists {
                            OpView::AddPath(n@)
                        } else {
                            OpView::AddAll(n@)
                        },
                        OpView::RemovePath(o@),
                    ],
                    None => seq![OpView::AddAll(p)],
                }
            },
            None => seq![OpView::AddAll(p)],
        }
    }
}

/// What staging a path does to the index.
pub fn stage_ops(
    p: &str,
    is_dir: bool,
    exists: bool,
    info: &Option<(StatusFlags, Option<(String, String)>)>,
    new_is_dir: bool,
    new_exists: bool,
) -> (r: Vec<IndexOp>)
    ensures
        r@.map_values(|o: IndexOp| op_view(o)) == stage_ops_spec(
            p@,
            is_dir,
            exists,
            *info,
            new_is_dir,
            new_exists,
        ),
{
    let mut v: Vec<IndexOp> = Vec::new();
    if is_dir {
        v.push(IndexOp::AddAll(owned(p)));
    } else if exists {
        v.push(IndexOp::AddPath(owned(p)));
    } else {
        match info {
            Some((f, renamed)) => {
                if f.wt_deleted || f.index_deleted {
                    v.push(IndexOp::RemovePath(owned(p)));
                } else {
                    match renamed {
                        Some((o, n)) => {
                            if new_is_dir {
                                v.push(IndexOp::AddAll(n.clone()));
                            } else if new_exists {
                                v.push(IndexOp::AddPath(n.clone()));
                            } else {
                                v.push(IndexOp::AddAll(n.clone()));
                            }
                            v.push(IndexOp::RemovePath(o.clone()));
                        },
                        None => v.push(IndexOp::AddAll(owned(p))),
                    }
                }
            },
            None => v.push(IndexOp::AddAll(owned(p))),
        }
    }
    assert(v@.map_values(|o: IndexOp| op_view(o)) =~= stage_ops_spec(
        p@,
        is_dir,
        exists,
        *info,
        new_is_dir,
        new_exists,
    ));
    v
}

} // verus!
