//! The Git commands the tool runs, what their output means, and the errors
//! they are reported with.
use vstd::prelude::*;

use crate::check::{lines_exec, sub_vec, texts};
use crate::error::{context_view, Error, ErrorCode};
use crate::git::CommitSummary;
use crate::text::{
    chars_to_string, concat2, lead_count, lines_of, owned, seq_ends_with, seq_starts_with, str_eq,
    str_to_chars, trim, trim_bounds,
};

verus! {

// ---------------------------------------------------------------------------
// Reading command output
// ---------------------------------------------------------------------------
/// A text without its leading `*` characters (`trim_start_matches('*')`).
pub open spec fn strip_stars(s: Seq<char>) -> Seq<char> {
    s.subrange(lead_count(s, |c: char| c == '*') as int, s.len() as int)
}

/// The branch name a line of `git branch` output shows.
pub open spec fn listed_branch(line: Seq<char>) -> Seq<char> {
    trim(strip_stars(trim(line)))
}

/// `lead_count` of stars given a star prefix that stops at `a`.
proof fn lemma_lead_stars(s: Seq<char>, a: int)
    requires
        0 <= a <= s.len(),
        forall|j: int| 0 <= j < a ==> #[trigger] s[j] == '*',
        a == s.len() || s[a] != '*',
    ensures
        lead_count(s, |c: char| c == '*') == a,
    decreases a,
{
    if a > 0 {
        let t = s.drop_first();
        assert forall|j: int| 0 <= j < a - 1 implies #[trigger] t[j] == '*' by {
            assert(t[j] == s[j + 1]);
        }
        if a < s.len() {
            assert(t[a - 1] == s[a]);
        }
        lemma_lead_stars(t, a - 1);
    }
}

/// A text without whitespace at either end.
fn trimmed(v: &Vec<char>) -> (r: Vec<char>)
    ensures
        r@ == trim(v@),
{
    let (a, b) = trim_bounds(v);
    sub_vec(v, a, b)
}

/// The branch name a line of `git branch` output shows.
fn branch_of_line(line: &Vec<char>) -> (r: Vec<char>)
    ensures
        r@ == listed_branch(line@),
{
    let t = trimmed(line);
    let mut a: usize = 0;
    while a < t.len() && t[a] == '*'
        invariant
            0 <= a <= t@.len(),
            forall|j: int| 0 <= j < a ==> #[trigger] t@[j] == '*',
        decreases t@.len() - a,
    {
        a = a + 1;
    }
    proof {
        lemma_lead_stars(t@, a as int);
    }
    let s = sub_vec(&t, a, t.len());
    trimmed(&s)
}

/// Whether `git branch --merged` output lists the branch.
pub fn branch_in_listing(stdout: &str, name: &str) -> (r: bool)
    ensures
        r == exists|i: int|
            0 <= i < lines_of(stdout@).len() && listed_branch(#[trigger] lines_of(stdout@)[i])
                == name@,
{
    let v = str_to_chars(stdout);
    let lines = lines_exec(&v, 0);
    let ghost ls = lines@.map_values(|l: Vec<char>| l@);
    assert(v@.subrange(0, v@.len() as int) =~= v@);
    let n = str_to_chars(name);
    let mut i: usize = 0;
    while i < lines.len()
        invariant
            0 <= i <= lines@.len(),
            ls == lines@.map_values(|l: Vec<char>| l@),
            ls == lines_of(stdout@),
            n@ == name@,
            forall|j: int| 0 <= j < i ==> listed_branch(#[trigger] ls[j]) != name@,
        decreases lines@.len() - i,
    {
        let b = branch_of_line(&lines[i]);
        assert(ls[i as int] == lines@[i as int]@);
        if crate::text::chars_eq(&b, &n) {
            return true;
        }
        i = i + 1;
    }
    false
}

/// The non-empty trimmed lines of a text, in order.
pub open spec fn nonempty_trimmed(ls: Seq<Seq<char>>) -> Seq<Seq<char>>
    decreases ls.len(),
{
    if ls.len() == 0 {
        Seq::empty()
    } else {
        let rest = nonempty_trimmed(ls.drop_last());
        if trim(ls.last()).len() > 0 {
            rest.push(trim(ls.last()))
        } else {
            rest
        }
    }
}

/// The tags `git tag --list` printed: its non-empty trimmed lines.
pub fn parse_tag_list(stdout: &str) -> (r: Vec<String>)
    ensures
        texts(r@) == nonempty_trimmed(lines_of(stdout@)),
{
    let v = str_to_chars(stdout);
    let lines = lines_exec(&v, 0);
    let ghost ls = lines@.map_values(|l: Vec<char>| l@);
    assert(v@.subrange(0, v@.len() as int) =~= v@);
    let mut out: Vec<String> = Vec::new();
    let mut i: usize = 0;
    while i < lines.len()
        invariant
            0 <= i <= lines@.len(),
            ls == lines@.map_values(|l: Vec<char>| l@),
            texts(out@) == nonempty_trimmed(ls.take(i as int)),
        decreases lines@.len() - i,
    {
        assert(ls.take(i + 1).drop_last() =~= ls.take(i as int));
        assert(ls.take(i + 1).last() == lines@[i as int]@);
        let t = trimmed(&lines[i]);
        if t.len() > 0 {
            let ghost before = texts(out@);
            out.push(chars_to_string(&t, 0, t.len()));
            assert(t@.subrange(0, t@.len() as int) =~= t@);
            assert(texts(out@) =~= before.push(t@));
        }
        i = i + 1;
    }
    assert(ls.take(lines@.len() as int) =~= ls);
    out
}

/// The tag `git describe` printed: its trimmed output, none where empty.
pub fn parse_describe(stdout: &str) -> (r: Option<String>)
    ensures
        match r {
            Some(t) => t@ == trim(stdout@) && t@.len() > 0,
            None => trim(stdout@).len() == 0,
        },
{
    let v = str_to_chars(stdout);
    let t = trimmed(&v);
    if t.len() == 0 {
        None
    } else {
        let s = chars_to_string(&t, 0, t.len());
        assert(t@.subrange(0, t@.len() as int) =~= t@);
        Some(s)
    }
}

/// Index of the tag with the latest time, the first of equal times; -1
/// without tags.
pub open spec fn latest_index(s: Seq<(String, i64)>) -> int
    decreases s.len(),
{
    if s.len() == 0 {
        -1
    } else {
        let r = latest_index(s.drop_last());
        if r < 0 || s.last().1 > s[r].1 {
            s.len() - 1
        } else {
            r
        }
    }
}

/// A latest index lies in the list.
proof fn lemma_latest_index(s: Seq<(String, i64)>)
    ensures
        s.len() > 0 <==> latest_index(s) >= 0,
        latest_index(s) < s.len(),
    decreases s.len(),
{
    if s.len() > 0 {
        lemma_latest_index(s.drop_last());
    }
}

/// The tag whose commit is latest, the first of equal times.
pub fn latest_by_time(tags: &Vec<(String, i64)>) -> (r: Option<String>)
    ensures
        match r {
            Some(t) => latest_index(tags@) >= 0 && t == tags@[latest_index(tags@)].0,
            None => tags@.len() == 0,
        },
{
    let mut best: Option<usize> = None;
    let mut i: usize = 0;
    while i < tags.len()
        invariant
            0 <= i <= tags@.len(),
            match best {
                Some(b) => b < i && latest_index(tags@.take(i as int)) == b,
                None => i == 0,
            },
        decreases tags@.len() - i,
    {
        assert(tags@.take(i + 1).drop_last() =~= tags@.take(i as int));
        assert(tags@.take(i + 1).last() == tags@[i as int]);
        proof {
            lemma_latest_index(tags@.take(i as int));
        }
        match best {
            Some(b) => {
                assert(tags@.take(i as int)[b as int] == tags@[b as int]);
                if tags[i].1 > tags[b].1 {
                    best = Some(i);
                }
            },
            None => {
                best = Some(i);
            },
        }
        i = i + 1;
    }
    assert(tags@.take(tags@.len() as int) =~= tags@);
    match best {
        Some(b) => Some(tags[b].0.clone()),
        None => None,
    }
}

// ---------------------------------------------------------------------------
// Commits grouped by tag
// ---------------------------------------------------------------------------
/// The commits between two tags: the range `(from, to]`.
#[derive(Debug, Clone)]
pub struct TagRange {
    /// The tag, or `Unreleased` for the commits after the last tag.
    pub label: String,
    pub from: Option<String>,
    pub to: String,
}

/// A tag and its commits.
#[derive(Debug, Clone)]
pub struct TaggedCommits {
    pub tag: String,
    pub commits: Vec<CommitSummary>,
}

/// A tag range as texts.
pub open spec fn range_view(r: TagRange) -> (Seq<char>, Option<Seq<char>>, Seq<char>) {
    (r.label@, crate::check::opt_view(r.from), r.to@)
}

/// The ranges of a history with tags in creation order: the unreleased
/// commits after the last tag up to `to`, then each tag from the newest,
/// from the tag before it (from the start for the first tag).
pub open spec fn tag_ranges_spec(tags: Seq<Seq<char>>, to: Seq<char>) -> Seq<
    (Seq<char>, Option<Seq<char>>, Seq<char>),
> {
    seq![
        (
            "Unreleased"@,
            if tags.len() > 0 {
                Some(tags.last())
            } else {
                None
            },
            to,
        ),
    ] + Seq::new(
        tags.len(),
        |k: int|
            {
                let idx = tags.len() - 1 - k;
                (
                    tags[idx],
                    if idx > 0 {
                        Some(tags[idx - 1])
                    } else {
                        None
                    },
                    tags[idx],
                )
            },
    )
}

/// The ranges the commits are grouped by.
pub fn tag_ranges(tags: &Vec<String>, to: &str) -> (r: Vec<TagRange>)
    ensures
        r@.map_values(|x: TagRange| range_view(x)) == tag_ranges_spec(texts(tags@), to@),
{
    let ghost t = texts(tags@);
    let mut out: Vec<TagRange> = Vec::new();
    let last = if tags.len() > 0 {
        Some(tags[tags.len() - 1].clone())
    } else {
        None
    };
    out.push(TagRange { label: owned("Unreleased"), from: last, to: owned(to) });
    let mut k: usize = 0;
    while k < tags.len()
        invariant
            0 <= k <= tags@.len(),
            t == texts(tags@),
            out@.len() == k + 1,
            range_view(out@[0]) == tag_ranges_spec(t, to@)[0],
            forall|j: int|
                1 <= j <= k ==> range_view(#[trigger] out@[j]) == tag_ranges_spec(t, to@)[j],
        decreases tags@.len() - k,
    {
        let idx = tags.len() - 1 - k;
        let from = if idx > 0 {
            Some(tags[idx - 1].clone())
        } else {
            None
        };
        out.push(TagRange { label: tags[idx].clone(), from, to: tags[idx].clone() });
        k = k + 1;
    }
    assert(out@.map_values(|x: TagRange| range_view(x)) =~= tag_ranges_spec(t, to@));
    out
}

/// The tags with commits, in the order of the ranges: ranges without
/// commits are left out.
pub open spec fn grouped_spec(labels: Seq<Seq<char>>, lists: Seq<Vec<CommitSummary>>) -> Seq<
    (Seq<char>, Vec<CommitSummary>),
>
    decreases labels.len(),
{
    if labels.len() == 0 || lists.len() == 0 {
        Seq::empty()
    } else {
        let rest = grouped_spec(labels.drop_last(), lists.drop_last());
        if lists.last()@.len() > 0 {
            rest.push((labels.last(), lists.last()))
        } else {
            rest
        }
    }
}

/// Pairs each range with the commits listed for it, leaving out the ranges
/// without commits.
pub fn group_by_tag(ranges: Vec<TagRange>, lists: Vec<Vec<CommitSummary>>) -> (r: Vec<TaggedCommits>)
    requires
        ranges@.len() == lists@.len(),
    ensures
        r@.map_values(|x: TaggedCommits| (x.tag@, x.commits)) == grouped_spec(
            ranges@.map_values(|x: TagRange| x.label@),
            lists@,
        ),
{
    let ghost labels = ranges@.map_values(|x: TagRange| x.label@);
    let ghost ls = lists@;
    let mut out: Vec<TaggedCommits> = Vec::new();
    let mut ranges = ranges;
    let mut lists = lists;
    let mut tail_r: Vec<TagRange> = Vec::new();
    let mut tail_l: Vec<Vec<CommitSummary>> = Vec::new();
    // take the ranges from the back, then emit from the front
    while ranges.len() > 0
        invariant
            ranges@.len() == lists@.len(),
            tail_r@.len() == tail_l@.len(),
            ranges@.map_values(|x: TagRange| x.label@) + tail_r@.reverse().map_values(
                |x: TagRange| x.label@,
            ) == labels,
            lists@ + tail_l@.reverse() == ls,
        decreases ranges@.len(),
    {
        let ghost r0 = ranges@;
        let ghost l0 = lists@;
        let ghost tr0 = tail_r@;
        let ghost tl0 = tail_l@;
        let x = ranges.pop().unwrap();
        let y = lists.pop().unwrap();
        tail_r.push(x);
        tail_l.push(y);
        assert(tail_r@.reverse() =~= seq![x] + tr0.reverse());
        assert(tail_l@.reverse() =~= seq![y] + tl0.reverse());
        assert(r0 =~= ranges@.push(x));
        assert(l0 =~= lists@.push(y));
        assert(ranges@.map_values(|x: TagRange| x.label@) + tail_r@.reverse().map_values(
            |x: TagRange| x.label@,
        ) =~= r0.map_values(|x: TagRange| x.label@) + tr0.reverse().map_values(
            |x: TagRange| x.label@,
        ));
        assert(lists@ + tail_l@.reverse() =~= l0 + tl0.reverse());
    }
    assert(tail_r@.reverse().map_values(|x: TagRange| x.label@) =~= labels);
    assert(tail_l@.reverse() =~= ls);
    assert(tail_l@.len() == ls.len());
    let total = tail_l.len();
    let ghost n = ls.len();
    let mut i: usize = 0;
    while tail_r.len() > 0
        invariant
            tail_r@.len() == tail_l@.len(),
            i + tail_r@.len() == n,
            n == total,
            labels.len() == n,
            ls.len() == n,
            forall|j: int|
                0 <= j < tail_r@.len() ==> (#[trigger] tail_r@[j]).label@ == labels[n - 1 - j],
            forall|j: int| 0 <= j < tail_l@.len() ==> #[trigger] tail_l@[j] == ls[n - 1 - j],
            out@.map_values(|x: TaggedCommits| (x.tag@, x.commits)) == grouped_spec(
                labels.take(i as int),
                ls.take(i as int),
            ),
        decreases tail_r@.len(),
    {
        let ghost before = out@.map_values(|x: TaggedCommits| (x.tag@, x.commits));
        let ghost k = tail_r@.len() - 1;
        let x = tail_r.pop().unwrap();
        let y = tail_l.pop().unwrap();
        assert(x.label@ == labels[i as int]);
        assert(y == ls[i as int]);
        assert(labels.take(i + 1).drop_last() =~= labels.take(i as int));
        assert(ls.take(i + 1).drop_last() =~= ls.take(i as int));
        assert(labels.take(i + 1).last() == labels[i as int]);
        assert(ls.take(i + 1).last() == ls[i as int]);
        if y.len() > 0 {
            out.push(TaggedCommits { tag: x.label, commits: y });
            assert(out@.map_values(|x: TaggedCommits| (x.tag@, x.commits)) =~= before.push(
                (labels[i as int], ls[i as int]),
            ));
        }
        i = i + 1;
    }
    assert(labels.take(n as int) =~= labels);
    assert(ls.take(n as int) =~= ls);
    out
}

// ---------------------------------------------------------------------------
// Remote URLs
// ---------------------------------------------------------------------------
/// A text with every trailing `.git` removed (`trim_end_matches(".git")`).
pub open spec fn strip_git(s: Seq<char>) -> Seq<char>
    decreases s.len(),
{
    if seq_ends_with(s, ".git"@) && s.len() >= 4 {
        strip_git(s.subrange(0, s.len() - 4))
    } else {
        s
    }
}

/// The web address of a GitHub remote: an SSH `git@github.com:` address
/// becomes `https://github.com/`, an HTTPS GitHub address stays; trailing
/// `.git` is dropped; other remotes have none.
pub open spec fn github_url_spec(url: Seq<char>) -> Option<Seq<char>> {
    if seq_starts_with(url, "git@github.com:"@) {
        Some(
            strip_git(
                "https://github.com/"@ + url.subrange("git@github.com:"@.len() as int, url.len() as int),
            ),
        )
    } else if seq_starts_with(url, "https://github.com/"@) {
        Some(strip_git(url))
    } else {
        None
    }
}

/// A text with every trailing `.git` removed.
fn strip_git_exec(v: &Vec<char>) -> (r: Vec<char>)
    ensures
        r@ == strip_git(v@),
{
    let suffix = str_to_chars(".git");
    let mut n: usize = v.len();
    proof {
        reveal_strlit(".git");
    }
    assert(v@.subrange(0, n as int) =~= v@);
    while n >= 4 && crate::text::chars_match_at(v, n - 4, &suffix)
        invariant
            0 <= n <= v@.len(),
            suffix@ == ".git"@,
            suffix@.len() == 4,
            strip_git(v@) == strip_git(v@.subrange(0, n as int)),
        decreases n,
    {
        let ghost s = v@.subrange(0, n as int);
        assert(s.subrange(s.len() - 4, s.len() as int) =~= v@.subrange(n - 4, n as int));
        assert(v@.subrange(n - 4, n as int) =~= suffix@);
        assert(seq_ends_with(s, ".git"@));
        assert(s.subrange(0, s.len() - 4) =~= v@.subrange(0, n - 4));
        n = n - 4;
    }
    proof {
        let s = v@.subrange(0, n as int);
        if n >= 4 {
            assert(s.subrange(s.len() - 4, s.len() as int) =~= v@.subrange(n - 4, n as int));
            if seq_ends_with(s, ".git"@) {
                assert(crate::text::occurs_at(v@, suffix@, n - 4));
            }
        }
        assert(!(seq_ends_with(s, ".git"@) && s.len() >= 4));
    }
    sub_vec(v, 0, n)
}

/// The web address of a remote, for GitHub remotes.
pub fn github_https_url(url: &str) -> (r: Option<String>)
    ensures
        crate::check::opt_view(r) == github_url_spec(url@),
{
    let v = str_to_chars(url);
    let ssh = str_to_chars("git@github.com:");
    let https = str_to_chars("https://github.com/");
    if crate::text::chars_starts_with(&v, &ssh) {
        let rest = sub_vec(&v, ssh.len(), v.len());
        let mut w = https.clone();
        let mut j: usize = 0;
        while j < rest.len()
            invariant
                0 <= j <= rest@.len(),
                w@ == https@ + rest@.subrange(0, j as int),
            decreases rest@.len() - j,
        {
            w.push(rest[j]);
            j = j + 1;
            assert(w@ =~= https@ + rest@.subrange(0, j as int));
        }
        assert(rest@.subrange(0, rest@.len() as int) =~= rest@);
        let t = strip_git_exec(&w);
        Some(chars_to_string(&t, 0, t.len()))
    } else if crate::text::chars_starts_with(&v, &https) {
        let t = strip_git_exec(&v);
        Some(chars_to_string(&t, 0, t.len()))
    } else {
        None
    }
}

// ---------------------------------------------------------------------------
// Unstaging in batches
// ---------------------------------------------------------------------------
/// How many paths one `git reset` is given at most.
pub const RESET_CHUNK_SIZE: usize = 200;

/// Whether `chunks` splits `paths` in order into runs of `size`, the last
/// possibly shorter and none empty.
pub open spec fn chunked(chunks: Seq<Seq<String>>, paths: Seq<String>, size: nat) -> bool {
    &&& chunks.len() == (if paths.len() == 0 {
        0
    } else {
        (paths.len() - 1) as nat / size + 1
    })
    &&& forall|k: int|
        0 <= k < chunks.len() ==> #[trigger] chunks[k] == paths.subrange(
            k * size,
            if (k + 1) * size < paths.len() {
                (k + 1) * size
            } else {
                paths.len() as int
            },
        )
}

/// The paths in runs of at most `size`, in order.
pub fn chunk_paths(paths: &Vec<String>, size: usize) -> (r: Vec<Vec<String>>)
    requires
        size > 0,
    ensures
        chunked(r@.map_values(|c: Vec<String>| c@), paths@, size as nat),
{
    let mut out: Vec<Vec<String>> = Vec::new();
    let mut cur: Vec<String> = Vec::new();
    let mut i: usize = 0;
    let ghost sz = size as int;
    assert(out@.len() * sz == 0) by (nonlinear_arith)
        requires
            out@.len() == 0,
    ;
    while i < paths.len()
        invariant
            0 <= i <= paths@.len(),
            sz == size as int,
            size > 0,
            i == out@.len() * sz + cur@.len(),
            cur@.len() < sz,
            cur@ == paths@.subrange(out@.len() * sz, i as int),
            forall|k: int|
                0 <= k < out@.len() ==> (#[trigger] out@[k])@ == paths@.subrange(
                    k * sz,
                    (k + 1) * sz,
                ),
        decreases paths@.len() - i,
    {
        let ghost c0 = cur@;
        cur.push(paths[i].clone());
        assert(cur@ =~= paths@.subrange(out@.len() * sz, i + 1));
        i = i + 1;
        if cur.len() >= size {
            let ghost k0 = out@.len();
            assert(i == (k0 + 1) * sz) by (nonlinear_arith)
                requires
                    i == k0 * sz + cur@.len(),
                    cur@.len() == sz,
            ;
            out.push(cur);
            cur = Vec::new();
            assert(i == out@.len() * sz + 0) by (nonlinear_arith)
                requires
                    i == (k0 + 1) * sz,
                    out@.len() == k0 + 1,
            ;
        }
    }
    let ghost full = out@.len();
    if cur.len() > 0 {
        out.push(cur);
    }
    proof {
        let ch = out@.map_values(|c: Vec<String>| c@);
        let n = paths@.len() as int;
        if n == 0 {
            assert(full == 0) by (nonlinear_arith)
                requires
                    0 == full * sz + 0,
                    sz > 0,
                    full >= 0,
            ;
        } else {
            assert(ch.len() == (n - 1) / sz + 1) by (nonlinear_arith)
                requires
                    n == full * sz + (n - full * sz),
                    0 <= n - full * sz < sz,
                    sz > 0,
                    full >= 0,
                    n > 0,
                    ch.len() == if n - full * sz > 0 {
                        full + 1
                    } else {
                        full
                    },
            ;
        }
        assert forall|k: int| 0 <= k < ch.len() implies #[trigger] ch[k] == paths@.subrange(
            k * sz,
            if (k + 1) * sz < n {
                (k + 1) * sz
            } else {
                n
            },
        ) by {
            if k < full {
                assert((k + 1) * sz <= full * sz) by (nonlinear_arith)
                    requires
                        k + 1 <= full,
                        sz > 0,
                ;
                assert(ch[k] == out@[k]@);
            } else {
                assert(k == full);
                assert(n < (k + 1) * sz) by (nonlinear_arith)
                    requires
                        n == full * sz + (n - full * sz),
                        n - full * sz < sz,
                        k == full,
                ;
            }
        }
    }
    out
}

/// The arguments of `git reset -q HEAD -- <paths>`.
pub fn reset_args(paths: &Vec<String>) -> (r: Vec<String>)
    ensures
        texts(r@) == seq!["reset"@, "-q"@, "HEAD"@, "--"@] + texts(paths@),
{
    let mut v: Vec<String> = Vec::new();
    v.push(owned("reset"));
    v.push(owned("-q"));
    v.push(owned("HEAD"));
    v.push(owned("--"));
    let mut i: usize = 0;
    while i < paths.len()
        invariant
            0 <= i <= paths@.len(),
            texts(v@) == seq!["reset"@, "-q"@, "HEAD"@, "--"@] + texts(paths@.take(i as int)),
        decreases paths@.len() - i,
    {
        let ghost before = texts(v@);
        v.push(paths[i].clone());
        assert(texts(v@) =~= before.push(paths@[i as int]@));
        assert(texts(paths@.take(i + 1)) =~= texts(paths@.take(i as int)).push(paths@[i as int]@));
        i = i + 1;
    }
    assert(paths@.take(paths@.len() as int) =~= paths@);
    v
}

/// Words joined by single spaces.
pub open spec fn join_words(w: Seq<Seq<char>>) -> Seq<char>
    decreases w.len(),
{
    if w.len() == 0 {
        Seq::empty()
    } else if w.len() == 1 {
        w[0]
    } else {
        join_words(w.drop_last()) + " "@ + w.last()
    }
}

/// How a command is shown: `git` and its arguments, joined by spaces.
pub open spec fn command_text_spec(args: Seq<Seq<char>>) -> Seq<char> {
    "git "@ + join_words(args)
}

/// How a command is shown in messages.
pub fn command_text(args: &Vec<String>) -> (r: String)
    ensures
        r@ == command_text_spec(texts(args@)),
{
    let mut s = owned("git ");
    let mut i: usize = 0;
    while i < args.len()
        invariant
            0 <= i <= args@.len(),
            s@ == "git "@ + join_words(texts(args@.take(i as int))),
        decreases args@.len() - i,
    {
        let ghost prev = texts(args@.take(i as int));
        assert(texts(args@.take(i + 1)).drop_last() =~= prev);
        assert(texts(args@.take(i + 1)).last() == args@[i as int]@);
        if i > 0 {
            s = concat2(s.as_str(), " ");
        }
        s = concat2(s.as_str(), args[i].as_str());
        proof {
            if i == 0 {
                assert(texts(args@.take(1)) =~= seq![args@[0]@]);
                assert(join_words(Seq::<Seq<char>>::empty()) =~= Seq::<char>::empty());
                assert(s@ =~= "git "@ + args@[0]@);
            } else {
                assert(s@ =~= "git "@ + join_words(prev) + " "@ + args@[i as int]@);
            }
        }
        i = i + 1;
    }
    assert(args@.take(args@.len() as int) =~= args@);
    s
}

// ---------------------------------------------------------------------------
// Errors
// ---------------------------------------------------------------------------
/// The error of a command that could not be run.
pub fn spawn_error(command: &str, cwd: &str) -> (e: Error)
    ensures
        e.code == ErrorCode::ProcessFailure,
        context_view(e) == seq![("command"@, command@), ("cwd"@, cwd@)],
{
    let e = ErrorCode::ProcessFailure.error().with_context("command", command).with_context(
        "cwd",
        cwd,
    );
    assert(context_view(e) =~= seq![("command"@, command@), ("cwd"@, cwd@)]);
    e
}

/// The error of a failed repository operation.
pub fn git2_error(operation: &str, cwd: &str, err: &str) -> (e: Error)
    ensures
        e.code == ErrorCode::ProcessFailure,
        context_view(e) == seq![("operation"@, operation@), ("cwd"@, cwd@), ("error"@, err@)],
{
    let e = ErrorCode::ProcessFailure.error().with_context("operation", operation).with_context(
        "cwd",
        cwd,
    ).with_context("error", err);
    assert(context_view(e) =~= seq![
        ("operation"@, operation@),
        ("cwd"@, cwd@),
        ("error"@, err@),
    ]);
    e
}

/// The error of a repository that could not be found.
pub fn repo_error(cwd: &str, err: &str) -> (e: Error)
    ensures
        e.code == ErrorCode::ProcessFailure,
        context_view(e) == seq![
            ("command"@, "git rev-parse --git-dir"@),
            ("cwd"@, cwd@),
            ("error"@, err@),
            ("reason"@, "failed to discover git repository"@),
        ],
{
    let e = ErrorCode::ProcessFailure.error().with_context("command", "git rev-parse --git-dir")
        .with_context("cwd", cwd).with_context("error", err).with_context(
        "reason",
        "failed to discover git repository",
    );
    assert(context_view(e) =~= seq![
        ("command"@, "git rev-parse --git-dir"@),
        ("cwd"@, cwd@),
        ("error"@, err@),
        ("reason"@, "failed to discover git repository"@),
    ]);
    e
}

/// The error of a revision that could not be resolved.
pub fn revparse_error(cwd: &str, rev: &str, err: &str) -> (e: Error)
    ensures
        e.code == ErrorCode::ProcessFailure,
        context_view(e) == seq![
            ("command"@, "git rev-parse <rev>"@),
            ("cwd"@, cwd@),
            ("rev"@, rev@),
            ("error"@, err@),
        ],
{
    let e = ErrorCode::ProcessFailure.error().with_context("command", "git rev-parse <rev>")
        .with_context("cwd", cwd).with_context("rev", rev).with_context("error", err);
    assert(context_view(e) =~= seq![
        ("command"@, "git rev-parse <rev>"@),
        ("cwd"@, cwd@),
        ("rev"@, rev@),
        ("error"@, err@),
    ]);
    e
}

/// The outcome of a command that ran: fine where it succeeded, else an
/// error with its exit status and its trimmed standard error.
pub fn ensure_success(command: &str, cwd: &str, success: bool, status: &str, stderr: &str) -> (r:
    Result<(), Error>)
    ensures
        success <==> r is Ok,
        r matches Err(e) ==> e.code == ErrorCode::ProcessFailure && context_view(e) == seq![
            ("command"@, command@),
            ("cwd"@, cwd@),
            ("status"@, status@),
            ("stderr"@, trim(stderr@)),
        ],
{
    if success {
        return Ok(());
    }
    let v = str_to_chars(stderr);
    let t = trimmed(&v);
    let ts = chars_to_string(&t, 0, t.len());
    assert(t@.subrange(0, t@.len() as int) =~= t@);
    let e = ErrorCode::ProcessFailure.error().with_context("command", command).with_context(
        "cwd",
        cwd,
    ).with_context("status", status).with_context("stderr", ts.as_str());
    assert(context_view(e) =~= seq![
        ("command"@, command@),
        ("cwd"@, cwd@),
        ("status"@, status@),
        ("stderr"@, trim(stderr@)),
    ]);
    Err(e)
}

/// What reading `HEAD` found: whether it is a branch, its short name and the
/// commit it points at, each where there is one.
#[derive(Debug, Clone)]
pub struct HeadInfo {
    pub is_branch: bool,
    pub shorthand: Option<String>,
    pub target: Option<String>,
}

/// The branch checked out: its short name; an error where `HEAD` could not
/// be read, has no name, or is detached (naming the commit, or `<unknown>`).
pub fn current_branch(cwd: &str, head: Result<HeadInfo, String>) -> (r: Result<String, Error>)
    ensures
        match head {
            Err(msg) => r matches Err(e) && e.code == ErrorCode::ProcessFailure && context_view(e)
                == seq![
                ("command"@, "git symbolic-ref --short HEAD"@),
                ("cwd"@, cwd@),
                ("error"@, msg@),
                ("reason"@, "failed to read HEAD"@),
            ],
            Ok(h) => if h.is_branch {
                match h.shorthand {
                    Some(s) => r matches Ok(b) && b@ == s@,
                    None => r matches Err(e) && e.code == ErrorCode::ProcessFailure
                        && context_view(e) == seq![
                        ("command"@, "git symbolic-ref --short HEAD"@),
                        ("cwd"@, cwd@),
                        ("reason"@, "unable to determine branch name from HEAD"@),
                    ],
                }
            } else {
                r matches Err(e) && e.code == ErrorCode::ProcessFailure && context_view(e) == seq![
                    ("command"@, "git symbolic-ref --short HEAD"@),
                    ("cwd"@, cwd@),
                    ("reason"@, "detached HEAD"@),
                    (
                        "head"@,
                        match h.target {
                            Some(t) => t@,
                            None => "<unknown>"@,
                        },
                    ),
                ]
            },
        },
{
    let cmd = "git symbolic-ref --short HEAD";
    match head {
        Err(msg) => {
            let e = ErrorCode::ProcessFailure.error().with_context("command", cmd).with_context(
                "cwd",
                cwd,
            ).with_context("error", msg.as_str()).with_context("reason", "failed to read HEAD");
            assert(context_view(e) =~= seq![
                ("command"@, cmd@),
                ("cwd"@, cwd@),
                ("error"@, msg@),
                ("reason"@, "failed to read HEAD"@),
            ]);
            Err(e)
        },
        Ok(h) => {
            if h.is_branch {
                match h.shorthand {
                    Some(s) => Ok(s),
                    None => {
                        let e = ErrorCode::ProcessFailure.error().with_context(
                            "command",
                            cmd,
                        ).with_context("cwd", cwd).with_context(
                            "reason",
                            "unable to determine branch name from HEAD",
                        );
                        assert(context_view(e) =~= seq![
                            ("command"@, cmd@),
                            ("cwd"@, cwd@),
                            ("reason"@, "unable to determine branch name from HEAD"@),
                        ]);
                        Err(e)
                    },
                }
            } else {
                let oid = match h.target {
                    Some(t) => t,
                    None => owned("<unknown>"),
                };
                let e = ErrorCode::ProcessFailure.error().with_context("command", cmd).with_context(
                    "cwd",
                    cwd,
                ).with_context("reason", "detached HEAD").with_context("head", oid.as_str());
                assert(context_view(e) =~= seq![
                    ("command"@, cmd@),
                    ("cwd"@, cwd@),
                    ("reason"@, "detached HEAD"@),
                    ("head"@, oid@),
                ]);
                Err(e)
            }
        },
    }
}

// ---------------------------------------------------------------------------
// The commands
// ---------------------------------------------------------------------------
/// A Git command the tool runs as a process.
#[derive(Debug, Clone)]
pub enum GitCommand {
    Version,
    Commit { allow_empty: bool },
    SignedTag { name: String, message: String },
    Checkout { name: String },
    RenameBranch { old_name: String, new_name: String },
    DeleteBranch { name: String, force: bool },
    Fetch { remote: String },
    Rebase { onto: String },
    Merge { branch: String },
    PruneRemote { remote: String },
    MergedBranches,
    PushBranch { remote: String, branch: String },
    PushTag { remote: String, tag: String },
    ListTags,
    Describe { rev: String },
}

/// The arguments of a command (a commit reads its message from standard
/// input).
pub open spec fn args_spec(c: GitCommand) -> Seq<Seq<char>> {
    match c {
        GitCommand::Version => seq!["--version"@],
        GitCommand::Commit { allow_empty } => if allow_empty {
            seq!["commit"@, "--allow-empty"@, "-F"@, "-"@]
        } else {
            seq!["commit"@, "-F"@, "-"@]
        },
        GitCommand::SignedTag { name, message } => seq!["tag"@, "-s"@, "-m"@, message@, name@],
        GitCommand::Checkout { name } => seq!["checkout"@, name@],
        GitCommand::RenameBranch { old_name, new_name } => seq![
            "branch"@,
            "-m"@,
            old_name@,
            new_name@,
        ],
        GitCommand::DeleteBranch { name, force } => seq![
            "branch"@,
            if force {
                "-D"@
            } else {
                "-d"@
            },
            name@,
        ],
        GitCommand::Fetch { remote } => seq!["fetch"@, remote@],
        GitCommand::Rebase { onto } => seq!["rebase"@, onto@],
        GitCommand::Merge { branch } => seq!["merge"@, branch@],
        GitCommand::PruneRemote { remote } => seq!["remote"@, "prune"@, remote@],
        GitCommand::MergedBranches => seq!["branch"@, "--merged"@],
        GitCommand::PushBranch { remote, branch } => seq!["push"@, remote@, branch@],
        GitCommand::PushTag { remote, tag } => seq!["push"@, remote@, tag@],
        GitCommand::ListTags => seq!["tag"@, "--list"@, "--sort=creatordate"@],
        GitCommand::Describe { rev } => seq!["describe"@, "--tags"@, "--abbrev=0"@, rev@],
    }
}

/// How a command is named in errors: its arguments with placeholders.
pub open spec fn label_spec(c: GitCommand) -> Seq<char> {
    match c {
        GitCommand::Version => "git --version"@,
        GitCommand::Commit { .. } => "git commit -F -"@,
        GitCommand::SignedTag { .. } => "git tag -s"@,
        GitCommand::Checkout { .. } => "git checkout <branch>"@,
        GitCommand::RenameBranch { .. } => "git branch -m <old> <new>"@,
        GitCommand::DeleteBranch { force, .. } => if force {
            "git branch -D <name>"@
        } else {
            "git branch -d <name>"@
        },
        GitCommand::Fetch { .. } => "git fetch <remote>"@,
        GitCommand::Rebase { .. } => "git rebase <onto>"@,
        GitCommand::Merge { .. } => "git merge <branch>"@,
        GitCommand::PruneRemote { .. } => "git remote prune <remote>"@,
        GitCommand::MergedBranches => "git branch --merged"@,
        GitCommand::PushBranch { .. } => "git push <remote> <branch>"@,
        GitCommand::PushTag { .. } => "git push <remote> <tag>"@,
        GitCommand::ListTags => "git tag --list --sort=creatordate"@,
        GitCommand::Describe { .. } => "git describe --tags --abbrev=0 <rev>"@,
    }
}

/// Texts as a list of strings.
fn strings_of(v: Vec<&str>) -> (r: Vec<String>)
    ensures
        texts(r@) == v@.map_values(|s: &str| s@),
{
    let mut out: Vec<String> = Vec::new();
    let mut i: usize = 0;
    while i < v.len()
        invariant
            0 <= i <= v@.len(),
            texts(out@) == v@.take(i as int).map_values(|s: &str| s@),
        decreases v@.len() - i,
    {
        let ghost before = texts(out@);
        out.push(owned(v[i]));
        assert(texts(out@) =~= before.push(v@[i as int]@));
        assert(v@.take(i + 1).map_values(|s: &str| s@) =~= v@.take(i as int).map_values(
            |s: &str| s@,
        ).push(v@[i as int]@));
        i = i + 1;
    }
    assert(v@.take(v@.len() as int) =~= v@);
    out
}

/// The arguments of a command.
pub fn git_args(c: &GitCommand) -> (r: Vec<String>)
    ensures
        texts(r@) == args_spec(*c),
{
    let v: Vec<&str> = match c {
        GitCommand::Version => vec!["--version"],
        GitCommand::Commit { allow_empty } => if *allow_empty {
            vec!["commit", "--allow-empty", "-F", "-"]
        } else {
            vec!["commit", "-F", "-"]
        },
        GitCommand::SignedTag { name, message } => vec![
            "tag",
            "-s",
            "-m",
            message.as_str(),
            name.as_str(),
        ],
        GitCommand::Checkout { name } => vec!["checkout", name.as_str()],
        GitCommand::RenameBranch { old_name, new_name } => vec![
            "branch",
            "-m",
            old_name.as_str(),
            new_name.as_str(),
        ],
        GitCommand::DeleteBranch { name, force } => vec![
            "branch",
            if *force {
                "-D"
            } else {
                "-d"
            },
            name.as_str(),
        ],
        GitCommand::Fetch { remote } => vec!["fetch", remote.as_str()],
        GitCommand::Rebase { onto } => vec!["rebase", onto.as_str()],
        GitCommand::Merge { branch } => vec!["merge", branch.as_str()],
        GitCommand::PruneRemote { remote } => vec!["remote", "prune", remote.as_str()],
        GitCommand::MergedBranches => vec!["branch", "--merged"],
        GitCommand::PushBranch { remote, branch } => vec!["push", remote.as_str(), branch.as_str()],
        GitCommand::PushTag { remote, tag } => vec!["push", remote.as_str(), tag.as_str()],
        GitCommand::ListTags => vec!["tag", "--list", "--sort=creatordate"],
        GitCommand::Describe { rev } => vec!["describe", "--tags", "--abbrev=0", rev.as_str()],
    };
    let r = strings_of(v);
    assert(texts(r@) =~= args_spec(*c));
    r
}

/// How a command is named in errors.
pub fn command_label(c: &GitCommand) -> (r: String)
    ensures
        r@ == label_spec(*c),
{
    let s = match c {
        GitCommand::Version => "git --version",
        GitCommand::Commit { .. } => "git commit -F -",
        GitCommand::SignedTag { .. } => "git tag -s",
        GitCommand::Checkout { .. } => "git checkout <branch>",
        GitCommand::RenameBranch { .. } => "git branch -m <old> <new>",
        GitCommand::DeleteBranch { force, .. } => if *force {
            "git branch -D <name>"
        } else {
            "git branch -d <name>"
        },
        GitCommand::Fetch { .. } => "git fetch <remote>",
        GitCommand::Rebase { .. } => "git rebase <onto>",
        GitCommand::Merge { .. } => "git merge <branch>",
        GitCommand::PruneRemote { .. } => "git remote prune <remote>",
        GitCommand::MergedBranches => "git branch --merged",
        GitCommand::PushBranch { .. } => "git push <remote> <branch>",
        GitCommand::PushTag { .. } => "git push <remote> <tag>",
        GitCommand::ListTags => "git tag --list --sort=creatordate",
        GitCommand::Describe { .. } => "git describe --tags --abbrev=0 <rev>",
    };
    owned(s)
}

// ---------------------------------------------------------------------------
// Tag dates
// ---------------------------------------------------------------------------
/// The UTC calendar date of a Unix time in seconds, written `%Y-%m-%d` as
/// chrono writes it; `None` where chrono's range of dates ends.
pub uninterp spec fn utc_date_of(seconds: i64) -> Option<Seq<char>>;

/// chrono's `DateTime::<Utc>::from_timestamp(seconds, 0)` written with
/// `format("%Y-%m-%d")`. The contract names the outcome as a function of
/// the seconds alone (the time zone is fixed to UTC); the calendar
/// arithmetic and the range of dates are chrono's and are not stated.
#[verifier::external_body]
fn utc_date_text(seconds: i64) -> (r: Option<String>)
    ensures
        crate::check::opt_view(r) == utc_date_of(seconds),
{
    match chrono::DateTime::<chrono::Utc>::from_timestamp(seconds, 0) {
        Some(dt) => Some(dt.format("%Y-%m-%d").to_string()),
        None => None,
    }
}

/// The date of a tag: the UTC date of its commit's time, where the tag and
/// its commit were found (`commit_seconds`) and the time is a date.
pub fn tag_date(commit_seconds: Option<i64>) -> (r: Option<String>)
    ensures
        match commit_seconds {
            Some(s) => crate::check::opt_view(r) == utc_date_of(s),
            None => r is None,
        },
{
    match commit_seconds {
        Some(s) => utc_date_text(s),
        None => None,
    }
}

} // verus!
