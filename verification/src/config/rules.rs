//! Rules: a tree of TOML values that settings refer to with `@rules.<path>`,
//! and the resolution of such references inside a TOML value.
use vstd::prelude::*;

use crate::check::sub_vec;
use crate::config::tree::{
    get_value, key_lookup, lemma_array_view, lemma_table_view, tview, TomlValue, TomlView,
};
use crate::error::{context_view, Error, ErrorCode};
use crate::policy::commit::{has_text, list_has_text};
use crate::text::{
    chars_starts_with, chars_to_string, concat2, dec, owned, seq_starts_with, str_to_chars,
    u64_to_string,
};

verus! {

/// The prefix that marks a rule reference.
pub const RULES_PREFIX: &'static str = "@rules.";

/// The rules: a TOML table.
#[derive(Debug)]
pub struct RulesConfig(pub TomlValue);

/// Whether a text is a rule reference.
pub open spec fn is_reference_spec(v: Seq<char>) -> bool {
    seq_starts_with(v, RULES_PREFIX@)
}

/// The value a reference names: the path after `@rules.` looked up in the
/// rules; none for a text that is no reference.
pub open spec fn resolve_ref_spec(rules: TomlView, reference: Seq<char>) -> Option<TomlView> {
    if is_reference_spec(reference) {
        key_lookup(
            rules,
            reference.subrange(RULES_PREFIX@.len() as int, reference.len() as int),
        )
    } else {
        None
    }
}

/// The text a possibly-referring string stands for: itself when it is no
/// reference, else the string the reference names.
pub open spec fn resolve_string_spec(rules: TomlView, value: Seq<char>) -> Option<Seq<char>> {
    if !is_reference_spec(value) {
        Some(value)
    } else {
        match resolve_ref_spec(rules, value) {
            Some(TomlView::Str(s)) => Some(s),
            _ => None,
        }
    }
}

impl Default for RulesConfig {
    fn default() -> (r: Self)
        ensures
            tview(r.0) == TomlView::Table(Seq::empty()),
    {
        let t: Vec<(String, TomlValue)> = Vec::new();
        proof {
            lemma_table_view(t);
        }
        let r = RulesConfig(TomlValue::Table(t));
        assert(crate::config::tree::entries_view(t@) =~= Seq::<(Seq<char>, TomlView)>::empty());
        r
    }
}

impl RulesConfig {
    /// The value a dotted path names, one table level per segment.
    pub fn get(&self, path: &str) -> (r: Option<&TomlValue>)
        ensures
            match r {
                Some(x) => key_lookup(tview(self.0), path@) == Some(tview(*x)),
                None => key_lookup(tview(self.0), path@) is None,
            },
    {
        get_value(&self.0, path)
    }

    /// The value a `@rules.<path>` reference names; none for other texts.
    pub fn resolve_ref(&self, reference: &str) -> (r: Option<&TomlValue>)
        ensures
            match r {
                Some(x) => resolve_ref_spec(tview(self.0), reference@) == Some(tview(*x)),
                None => resolve_ref_spec(tview(self.0), reference@) is None,
            },
    {
        if !Self::is_reference(reference) {
            return None;
        }
        let chars = str_to_chars(reference);
        let p = str_to_chars(RULES_PREFIX);
        let rest = sub_vec(&chars, p.len(), chars.len());
        let path = chars_to_string(&rest, 0, rest.len());
        assert(path@ =~= reference@.subrange(RULES_PREFIX@.len() as int, reference@.len() as int));
        self.get(path.as_str())
    }

    /// Whether `value` is a rule reference (starts with `@rules.`).
    pub fn is_reference(value: &str) -> (r: bool)
        ensures
            r == is_reference_spec(value@),
    {
        let v = str_to_chars(value);
        let p = str_to_chars(RULES_PREFIX);
        chars_starts_with(&v, &p)
    }

    /// The text a string stands for: itself, or for a reference the string it
    /// names. A reference that names nothing, or a value that is no string,
    /// is an invalid reference.
    pub fn resolve_string(&self, value: &str) -> (r: Result<String, Error>)
        ensures
            match r {
                Ok(s) => resolve_string_spec(tview(self.0), value@) == Some(s@),
                Err(e) => resolve_string_spec(tview(self.0), value@) is None && e.code
                    == ErrorCode::ConfigReferenceInvalid && context_view(e) == seq![
                    ("reference"@, value@),
                ],
            },
    {
        if Self::is_reference(value) {
            match self.resolve_ref(value) {
                Some(TomlValue::String(s)) => Ok(s.clone()),
                _ => {
                    let e = ErrorCode::ConfigReferenceInvalid.error().with_context(
                        "reference",
                        value,
                    );
                    assert(context_view(e) =~= seq![("reference"@, value@)]);
                    Err(e)
                },
            }
        } else {
            Ok(owned(value))
        }
    }
}

// ---------------------------------------------------------------------------
// Resolving references inside a value
// ---------------------------------------------------------------------------
/// Why a value's references cannot be resolved: a reference that names
/// nothing, or one met again while resolving itself; each with the reference
/// and the path of the value it was met at.
pub enum RefFailure {
    Missing(Seq<char>, Seq<char>),
    Cycle(Seq<char>, Seq<char>),
}

/// The path of an array item: `path[index]`.
pub open spec fn item_path(path: Seq<char>, index: nat) -> Seq<char> {
    path + seq!['['] + dec(index) + seq![']']
}

/// The path of a table entry: `path.key`.
pub open spec fn entry_path(path: Seq<char>, key: Seq<char>) -> Seq<char> {
    path + seq!['.'] + key
}

/// `v` with every rule reference replaced by the value it names, itself
/// resolved; `visiting` holds the references being resolved around `v`, and
/// `depth` bounds how many can nest. Array items and table entries are
/// resolved in order and the first failure stops.
pub open spec fn resolve_spec(
    rules: TomlView,
    v: TomlView,
    path: Seq<char>,
    visiting: Seq<Seq<char>>,
    depth: nat,
) -> Result<TomlView, RefFailure>
    decreases depth, v, 0nat,
{
    match v {
        TomlView::Str(s) => if is_reference_spec(s) {
            match resolve_ref_spec(rules, s) {
                None => Err(RefFailure::Missing(s, path)),
                Some(x) => if visiting.contains(s) || depth == 0 {
                    Err(RefFailure::Cycle(s, path))
                } else {
                    resolve_spec(rules, x, path, visiting.push(s), (depth - 1) as nat)
                },
            }
        } else {
            Ok(v)
        },
        TomlView::Array(a) => match resolve_items(rules, a, path, visiting, depth, 0) {
            Ok(b) => Ok(TomlView::Array(b)),
            Err(f) => Err(f),
        },
        TomlView::Table(t) => match resolve_entries(rules, t, path, visiting, depth, 0) {
            Ok(b) => Ok(TomlView::Table(b)),
            Err(f) => Err(f),
        },
        _ => Ok(v),
    }
}

/// The items of an array from index `i` on, resolved.
pub open spec fn resolve_items(
    rules: TomlView,
    a: Seq<TomlView>,
    path: Seq<char>,
    visiting: Seq<Seq<char>>,
    depth: nat,
    i: nat,
) -> Result<Seq<TomlView>, RefFailure>
    decreases depth, a, a.len() - i,
{
    if i >= a.len() {
        Ok(Seq::empty())
    } else {
        match resolve_spec(rules, a[i as int], item_path(path, i), visiting, depth) {
            Ok(x) => match resolve_items(rules, a, path, visiting, depth, i + 1) {
                Ok(b) => Ok(seq![x] + b),
                Err(f) => Err(f),
            },
            Err(f) => Err(f),
        }
    }
}

/// The entries of a table from index `i` on, resolved.
pub open spec fn resolve_entries(
    rules: TomlView,
    t: Seq<(Seq<char>, TomlView)>,
    path: Seq<char>,
    visiting: Seq<Seq<char>>,
    depth: nat,
    i: nat,
) -> Result<Seq<(Seq<char>, TomlView)>, RefFailure>
    decreases depth, t, t.len() - i,
{
    if i >= t.len() {
        Ok(Seq::empty())
    } else {
        match resolve_spec(rules, t[i as int].1, entry_path(path, t[i as int].0), visiting, depth) {
            Ok(x) => match resolve_entries(rules, t, path, visiting, depth, i + 1) {
                Ok(b) => Ok(seq![(t[i as int].0, x)] + b),
                Err(f) => Err(f),
            },
            Err(f) => Err(f),
        }
    }
}

/// What a value holds after a failed resolution: a reference string is left
/// as it was; in an array or a table the items before the failing one are
/// resolved, the failing one holds what its own failure left, and the items
/// after it are untouched.
pub open spec fn after_failure(
    rules: TomlView,
    v: TomlView,
    path: Seq<char>,
    visiting: Seq<Seq<char>>,
    depth: nat,
) -> TomlView
    decreases depth, v, 0nat,
{
    match v {
        TomlView::Array(a) => TomlView::Array(items_after(rules, a, path, visiting, depth, 0)),
        TomlView::Table(t) => TomlView::Table(entries_after(rules, t, path, visiting, depth, 0)),
        _ => v,
    }
}

/// The items of an array from index `i` on, after a failed resolution.
pub open spec fn items_after(
    rules: TomlView,
    a: Seq<TomlView>,
    path: Seq<char>,
    visiting: Seq<Seq<char>>,
    depth: nat,
    i: nat,
) -> Seq<TomlView>
    decreases depth, a, a.len() - i,
{
    if i >= a.len() {
        Seq::empty()
    } else {
        match resolve_spec(rules, a[i as int], item_path(path, i), visiting, depth) {
            Ok(x) => seq![x] + items_after(rules, a, path, visiting, depth, i + 1),
            Err(_) => seq![after_failure(rules, a[i as int], item_path(path, i), visiting, depth)]
                + a.subrange((i + 1) as int, a.len() as int),
        }
    }
}

/// The entries of a table from index `i` on, after a failed resolution.
pub open spec fn entries_after(
    rules: TomlView,
    t: Seq<(Seq<char>, TomlView)>,
    path: Seq<char>,
    visiting: Seq<Seq<char>>,
    depth: nat,
    i: nat,
) -> Seq<(Seq<char>, TomlView)>
    decreases depth, t, t.len() - i,
{
    if i >= t.len() {
        Seq::empty()
    } else {
        match resolve_spec(rules, t[i as int].1, entry_path(path, t[i as int].0), visiting, depth) {
            Ok(x) => seq![(t[i as int].0, x)] + entries_after(rules, t, path, visiting, depth, i + 1),
            Err(_) => seq![
                (
                    t[i as int].0,
                    after_failure(rules, t[i as int].1, entry_path(path, t[i as int].0), visiting, depth),
                ),
            ] + t.subrange((i + 1) as int, t.len() as int),
        }
    }
}

/// Whether no string in a value is a rule reference.
pub open spec fn ref_free(v: TomlView) -> bool
    decreases v, 0nat,
{
    match v {
        TomlView::Str(s) => !is_reference_spec(s),
        TomlView::Array(a) => items_ref_free(a),
        TomlView::Table(t) => entries_ref_free(t),
        _ => true,
    }
}

/// Whether no item of an array holds a rule reference.
pub open spec fn items_ref_free(a: Seq<TomlView>) -> bool
    decreases a, a.len(),
{
    if a.len() == 0 {
        true
    } else {
        ref_free(a[0]) && items_ref_free(a.drop_first())
    }
}

/// Whether no value of a table holds a rule reference.
pub open spec fn entries_ref_free(t: Seq<(Seq<char>, TomlView)>) -> bool
    decreases t, t.len(),
{
    if t.len() == 0 {
        true
    } else {
        ref_free(t[0].1) && entries_ref_free(t.drop_first())
    }
}

/// A value that resolves holds no rule reference afterwards.
proof fn lemma_resolved_ref_free(
    rules: TomlView,
    v: TomlView,
    path: Seq<char>,
    visiting: Seq<Seq<char>>,
    depth: nat,
)
    requires
        resolve_spec(rules, v, path, visiting, depth) is Ok,
    ensures
        ref_free(resolve_spec(rules, v, path, visiting, depth)->Ok_0),
    decreases depth, v, 0nat,
{
    match v {
        TomlView::Str(s) => {
            if is_reference_spec(s) {
                let x = resolve_ref_spec(rules, s)->Some_0;
                lemma_resolved_ref_free(rules, x, path, visiting.push(s), (depth - 1) as nat);
            }
        },
        TomlView::Array(a) => {
            lemma_items_ref_free(rules, a, path, visiting, depth, 0);
        },
        TomlView::Table(t) => {
            lemma_entries_ref_free(rules, t, path, visiting, depth, 0);
        },
        _ => {},
    }
}

/// Array items that resolve hold no rule reference afterwards.
proof fn lemma_items_ref_free(
    rules: TomlView,
    a: Seq<TomlView>,
    path: Seq<char>,
    visiting: Seq<Seq<char>>,
    depth: nat,
    i: nat,
)
    requires
        resolve_items(rules, a, path, visiting, depth, i) is Ok,
    ensures
        items_ref_free(resolve_items(rules, a, path, visiting, depth, i)->Ok_0),
    decreases depth, a, a.len() - i,
{
    if i < a.len() {
        lemma_resolved_ref_free(rules, a[i as int], item_path(path, i), visiting, depth);
        lemma_items_ref_free(rules, a, path, visiting, depth, i + 1);
        let x = resolve_spec(rules, a[i as int], item_path(path, i), visiting, depth)->Ok_0;
        let b = resolve_items(rules, a, path, visiting, depth, i + 1)->Ok_0;
        assert((seq![x] + b)[0] == x);
        assert((seq![x] + b).drop_first() =~= b);
    } else {
        assert(resolve_items(rules, a, path, visiting, depth, i)->Ok_0.len() == 0);
    }
}

/// Table entries that resolve hold no rule reference afterwards.
proof fn lemma_entries_ref_free(
    rules: TomlView,
    t: Seq<(Seq<char>, TomlView)>,
    path: Seq<char>,
    visiting: Seq<Seq<char>>,
    depth: nat,
    i: nat,
)
    requires
        resolve_entries(rules, t, path, visiting, depth, i) is Ok,
    ensures
        entries_ref_free(resolve_entries(rules, t, path, visiting, depth, i)->Ok_0),
    decreases depth, t, t.len() - i,
{
    if i < t.len() {
        lemma_resolved_ref_free(
            rules,
            t[i as int].1,
            entry_path(path, t[i as int].0),
            visiting,
            depth,
        );
        lemma_entries_ref_free(rules, t, path, visiting, depth, i + 1);
        let x = resolve_spec(rules, t[i as int].1, entry_path(path, t[i as int].0), visiting, depth)->Ok_0;
        let b = resolve_entries(rules, t, path, visiting, depth, i + 1)->Ok_0;
        assert((seq![(t[i as int].0, x)] + b)[0] == (t[i as int].0, x));
        assert((seq![(t[i as int].0, x)] + b).drop_first() =~= b);
    } else {
        assert(resolve_entries(rules, t, path, visiting, depth, i)->Ok_0.len() == 0);
    }
}

/// Resolution leaves no rule reference behind: where resolving the rule
/// references of a value succeeds, no string of the result is a `@rules.`
/// reference.
pub proof fn lemma_resolution_leaves_no_reference(rules: RulesConfig, before: TomlValue, after: TomlValue)
    requires
        resolve_spec(tview(rules.0), tview(before), seq!['$'], Seq::empty(), usize::MAX as nat)
            == Ok::<TomlView, RefFailure>(tview(after)),
    ensures
        ref_free(tview(after)),
{
    lemma_resolved_ref_free(tview(rules.0), tview(before), seq!['$'], Seq::empty(), usize::MAX as nat);
}

/// The size of a value: how many values it is made of, counting itself.
pub open spec fn tsize(v: TomlView) -> nat
    decreases v, 0nat,
{
    match v {
        TomlView::Array(a) => 2 + size_items(a),
        TomlView::Table(t) => 2 + size_entries(t),
        _ => 1,
    }
}

/// The sizes of the items of an array, summed.
pub open spec fn size_items(a: Seq<TomlView>) -> nat
    decreases a, a.len(),
{
    if a.len() == 0 {
        0
    } else {
        tsize(a[0]) + size_items(a.drop_first())
    }
}

/// The sizes of the values of a table, summed.
pub open spec fn size_entries(t: Seq<(Seq<char>, TomlView)>) -> nat
    decreases t, t.len(),
{
    if t.len() == 0 {
        0
    } else {
        tsize(t[0].1) + size_entries(t.drop_first())
    }
}

/// Every value has a positive size.
proof fn lemma_tsize_pos(v: TomlView)
    ensures
        tsize(v) >= 1,
{
}

/// The views of a list of values.
pub open spec fn views(a: Seq<TomlValue>) -> Seq<TomlView> {
    Seq::new(a.len(), |j: int| tview(a[j]))
}

/// The error a resolution failure is reported as.
pub open spec fn failure_error(f: RefFailure, e: Error) -> bool {
    e.code == ErrorCode::ConfigReferenceInvalid && match f {
        RefFailure::Missing(r, p) => context_view(e) == seq![
            ("reference"@, r),
            ("path"@, p),
        ],
        RefFailure::Cycle(r, p) => context_view(e) == seq![
            ("reference"@, r),
            ("path"@, p),
            ("reason"@, "cyclic reference detected"@),
        ],
    }
}

/// The texts of a list of strings.
pub open spec fn names(v: Seq<String>) -> Seq<Seq<char>> {
    v.map_values(|s: String| s@)
}

/// Membership of a text in a list of strings.
proof fn lemma_has_text_names(list: Seq<String>, k: Seq<char>)
    ensures
        has_text(list, k) <==> names(list).contains(k),
{
    if has_text(list, k) {
        let i = choose|i: int| 0 <= i < list.len() && (#[trigger] list[i])@ == k;
        assert(names(list)[i] == k);
    }
    if names(list).contains(k) {
        let i = choose|i: int| 0 <= i < names(list).len() && names(list)[i] == k;
        assert(list[i]@ == k);
    }
}

/// A copy of a value.
pub fn copy_value(v: &TomlValue) -> (r: TomlValue)
    ensures
        tview(r) == tview(*v),
    decreases v,
{
    match v {
        TomlValue::String(s) => TomlValue::String(s.clone()),
        TomlValue::Integer(i) => TomlValue::Integer(*i),
        TomlValue::Float(f) => TomlValue::Float(*f),
        TomlValue::Boolean(b) => TomlValue::Boolean(*b),
        TomlValue::Datetime(d) => TomlValue::Datetime(d.clone()),
        TomlValue::Array(a) => {
            let mut out: Vec<TomlValue> = Vec::new();
            let mut i: usize = 0;
            while i < a.len()
                invariant
                    *v == TomlValue::Array(*a),
                    0 <= i <= a@.len(),
                    out@.len() == i,
                    forall|j: int| 0 <= j < i ==> tview(#[trigger] out@[j]) == tview(a@[j]),
                decreases a@.len() - i,
            {
                proof {
                    broadcast use vstd::std_specs::vec::axiom_vec_decreases_to_view;

                    assert(decreases_to!(*v => (*v)->Array_0));
                    assert((*v)->Array_0 == *a);
                    assert(decreases_to!(*a => a@));
                    assert(decreases_to!(a@ => a@[i as int]));
                    assert(decreases_to!(*v => a@[i as int]));
                }
                let x = copy_value(&a[i]);
                out.push(x);
                i = i + 1;
            }
            proof {
                lemma_array_view(*a);
                lemma_array_view(out);
                assert(Seq::new(out@.len(), |j: int| tview(out@[j])) =~= Seq::new(
                    a@.len(),
                    |j: int| tview(a@[j]),
                ));
            }
            TomlValue::Array(out)
        },
        TomlValue::Table(t) => {
            let mut out: Vec<(String, TomlValue)> = Vec::new();
            let mut i: usize = 0;
            while i < t.len()
                invariant
                    *v == TomlValue::Table(*t),
                    0 <= i <= t@.len(),
                    out@.len() == i,
                    forall|j: int|
                        0 <= j < i ==> (#[trigger] out@[j]).0@ == t@[j].0@ && tview(out@[j].1)
                            == tview(t@[j].1),
                decreases t@.len() - i,
            {
                proof {
                    broadcast use vstd::std_specs::vec::axiom_vec_decreases_to_view;

                    assert(decreases_to!(*v => (*v)->Table_0));
                    assert((*v)->Table_0 == *t);
                    assert(decreases_to!(*t => t@));
                    assert(decreases_to!(t@ => t@[i as int]));
                    assert(decreases_to!(t@[i as int] => t@[i as int].1));
                    assert(decreases_to!(*v => t@[i as int].1));
                }
                let x = copy_value(&t[i].1);
                out.push((t[i].0.clone(), x));
                i = i + 1;
            }
            proof {
                lemma_table_view(*t);
                lemma_table_view(out);
                assert(crate::config::tree::entries_view(out@) =~= crate::config::tree::entries_view(
                    t@,
                ));
            }
            TomlValue::Table(out)
        },
    }
}

impl RulesConfig {
    /// Replaces every rule reference inside `value` by the value it names,
    /// resolved in turn. A reference that names nothing, or a cycle of
    /// references, is an invalid reference naming the reference and the
    /// path (`$`, `$.key`, `$[index]`) where it was met.
    pub fn resolve_value_refs(&self, value: &mut TomlValue) -> (r: Result<(), Error>)
        ensures
            match resolve_spec(
                tview(self.0),
                tview(*old(value)),
                seq!['$'],
                Seq::empty(),
                usize::MAX as nat,
            ) {
                Ok(w) => r is Ok && tview(*final(value)) == w,
                Err(f) => r matches Err(e) && failure_error(f, e) && tview(*final(value))
                    == after_failure(
                    tview(self.0),
                    tview(*old(value)),
                    seq!['$'],
                    Seq::empty(),
                    usize::MAX as nat,
                ),
            },
    {
        let mut visiting: Vec<String> = Vec::new();
        let mut v = TomlValue::Boolean(false);
        std::mem::swap(&mut v, value);
        let root = owned("$");
        proof {
            reveal_strlit("$");
            assert(names(visiting@) =~= Seq::<Seq<char>>::empty());
        }
        assert(root@ == seq!['$']);
        assert(v == *old(value));
        let (w, res) = self.resolve_value_refs_inner(v, &root, &mut visiting, usize::MAX);
        *value = w;
        res
    }

    /// Resolves the references inside `value`, met at `path`, with the
    /// references in `visiting` being resolved around it.
    fn resolve_value_refs_inner(
        &self,
        value: TomlValue,
        path: &String,
        visiting: &mut Vec<String>,
        depth: usize,
    ) -> (r: (TomlValue, Result<(), Error>))
        ensures
            match resolve_spec(tview(self.0), tview(value), path@, names(old(visiting)@), depth as nat) {
                Ok(w) => r.1 is Ok && tview(r.0) == w && names(final(visiting)@) == names(
                    old(visiting)@,
                ),
                Err(f) => r.1 matches Err(e) && failure_error(f, e) && tview(r.0) == after_failure(
                    tview(self.0),
                    tview(value),
                    path@,
                    names(old(visiting)@),
                    depth as nat,
                ),
            },
        decreases depth, tsize(tview(value)),
    {
        let ghost rules = tview(self.0);
        let ghost vis = names(visiting@);
        match value {
            TomlValue::String(s) => {
                if !Self::is_reference(s.as_str()) {
                    return (TomlValue::String(s), Ok(()));
                }
                let resolved = match self.resolve_ref(s.as_str()) {
                    Some(x) => copy_value(x),
                    None => {
                        let e = ErrorCode::ConfigReferenceInvalid.error().with_context(
                            "reference",
                            s.as_str(),
                        ).with_context("path", path.as_str());
                        assert(context_view(e) =~= seq![("reference"@, s@), ("path"@, path@)]);
                        return (TomlValue::String(s), Err(e));
                    },
                };
                proof {
                    lemma_has_text_names(visiting@, s@);
                }
                if list_has_text(visiting, s.as_str()) || depth == 0 {
                    let e = ErrorCode::ConfigReferenceInvalid.error().with_context(
                        "reference",
                        s.as_str(),
                    ).with_context("path", path.as_str()).with_context(
                        "reason",
                        "cyclic reference detected",
                    );
                    assert(context_view(e) =~= seq![
                        ("reference"@, s@),
                        ("path"@, path@),
                        ("reason"@, "cyclic reference detected"@),
                    ]);
                    return (TomlValue::String(s), Err(e));
                }
                visiting.push(s.clone());
                assert(names(visiting@) =~= vis.push(s@));
                let (w, res) = self.resolve_value_refs_inner(resolved, path, visiting, depth - 1);
                match res {
                    Ok(()) => {
                        let ghost before_pop = visiting@;
                        visiting.pop();
                        proof {
                            assert(visiting@ =~= before_pop.drop_last());
                            assert(names(before_pop) == vis.push(s@));
                            assert forall|j: int| 0 <= j < vis.len() implies names(visiting@)[j]
                                == vis[j] by {
                                assert(names(before_pop)[j] == vis.push(s@)[j]);
                            }
                            assert(names(visiting@) =~= vis);
                        }
                        (w, Ok(()))
                    },
                    Err(e) => (TomlValue::String(s), Err(e)),
                }
            },
            TomlValue::Array(a) => {
                proof {
                    lemma_array_view(a);
                    assert(views(a@) =~= Seq::new(a@.len(), |j: int| tview(a@[j])));
                }
                let ghost av = views(a@);
                let _n = a.len();
                let (b, res) = self.resolve_items_exec(a, Vec::new(), 0, path, visiting, depth);
                proof {
                    assert(av.skip(0) =~= av);
                    lemma_items_skip(tview(self.0), av, path@, vis, depth as nat, 0);
                    assert(Seq::new(0, |j: int| TomlView::Int(0)) + av =~= av);
                    lemma_array_view(b);
                    assert(views(b@) =~= Seq::new(b@.len(), |j: int| tview(b@[j])));
                }
                (TomlValue::Array(b), res)
            },
            TomlValue::Table(t) => {
                proof {
                    lemma_table_view(t);
                }
                let ghost tv = crate::config::tree::entries_view(t@);
                let _n = t.len();
                let (b, res) = self.resolve_entries_exec(t, Vec::new(), 0, path, visiting, depth);
                proof {
                    assert(tv.skip(0) =~= tv);
                    lemma_entries_skip(tview(self.0), tv, path@, vis, depth as nat, 0);
                    assert(Seq::new(0, |j: int| (Seq::<char>::empty(), TomlView::Int(0))) + tv =~= tv);
                    lemma_table_view(b);
                }
                (TomlValue::Table(b), res)
            },
            other => (other, Ok(())),
        }
    }
}

impl RulesConfig {
    /// Resolves the items `rest` (index `i` on) and appends them to `done`.
    fn resolve_items_exec(
        &self,
        rest: Vec<TomlValue>,
        done: Vec<TomlValue>,
        i: usize,
        path: &String,
        visiting: &mut Vec<String>,
        depth: usize,
    ) -> (r: (Vec<TomlValue>, Result<(), Error>))
        requires
            i + rest@.len() <= usize::MAX,
        ensures
            match resolve_items(
                tview(self.0),
                Seq::new(i as nat, |j: int| TomlView::Int(0)) + views(rest@),
                path@,
                names(old(visiting)@),
                depth as nat,
                i as nat,
            ) {
                Ok(b) => r.1 is Ok && views(r.0@) == views(done@) + b && names(final(visiting)@)
                    == names(old(visiting)@),
                Err(f) => r.1 matches Err(e) && failure_error(f, e) && views(r.0@) == views(done@)
                    + items_after(
                    tview(self.0),
                    Seq::new(i as nat, |j: int| TomlView::Int(0)) + views(rest@),
                    path@,
                    names(old(visiting)@),
                    depth as nat,
                    i as nat,
                ),
            },
        decreases depth, size_items(views(rest@)) + 1,
    {
        let ghost full = Seq::new(i as nat, |j: int| TomlView::Int(0)) + views(rest@);
        if rest.len() == 0 {
            assert(views(done@) + Seq::<TomlView>::empty() =~= views(done@));
            return (done, Ok(()));
        }
        let mut rest = rest;
        let ghost rv = views(rest@);
        let item = rest.remove(0);
        proof {
            assert(rv[0] == tview(item));
            assert(rv.drop_first() =~= views(rest@));
            lemma_tsize_pos(rv[0]);
            assert(full[i as int] == tview(item));
        }
        let p = item_path_exec(path, i);
        let (x, res) = self.resolve_value_refs_inner(item, &p, visiting, depth);
        let mut done = done;
        match res {
            Ok(()) => {
                let ghost before = views(done@);
                done.push(x);
                assert(views(done@) =~= before.push(tview(x)));
                let ghost full2 = Seq::new((i + 1) as nat, |j: int| TomlView::Int(0)) + views(
                    rest@,
                );
                proof {
                    lemma_items_same(tview(self.0), full, full2, path@, names(visiting@), depth as nat, (i + 1) as nat);
                    lemma_items_after_same(tview(self.0), full, full2, path@, names(visiting@), depth as nat, (i + 1) as nat);
                }
                let (b, res2) = self.resolve_items_exec(rest, done, i + 1, path, visiting, depth);
                proof {
                    match resolve_items(tview(self.0), full2, path@, names(old(visiting)@), depth as nat, (i + 1) as nat) {
                        Ok(bb) => {
                            assert(views(b@) =~= before + (seq![tview(x)] + bb));
                        },
                        Err(_) => {
                            let aa = items_after(tview(self.0), full2, path@, names(old(visiting)@), depth as nat, (i + 1) as nat);
                            assert(views(b@) =~= before + (seq![tview(x)] + aa));
                        },
                    }
                }
                (b, res2)
            },
            Err(e) => {
                let ghost before = views(done@);
                done.push(x);
                let ghost mid = views(done@);
                let ghost tail = views(rest@);
                done.append(&mut rest);
                proof {
                    assert(mid =~= before.push(tview(x)));
                    assert(tail =~= full.subrange(i + 1, full.len() as int));
                    assert(views(done@) =~= mid + tail);
                    assert(views(done@) =~= before + (seq![tview(x)] + full.subrange(
                        i + 1,
                        full.len() as int,
                    )));
                }
                (done, Err(e))
            },
        }
    }

    /// Resolves the entries `rest` (index `i` on) and appends them to `done`.
    fn resolve_entries_exec(
        &self,
        rest: Vec<(String, TomlValue)>,
        done: Vec<(String, TomlValue)>,
        i: usize,
        path: &String,
        visiting: &mut Vec<String>,
        depth: usize,
    ) -> (r: (Vec<(String, TomlValue)>, Result<(), Error>))
        requires
            i + rest@.len() <= usize::MAX,
        ensures
            match resolve_entries(
                tview(self.0),
                Seq::new(i as nat, |j: int| (Seq::<char>::empty(), TomlView::Int(0)))
                    + crate::config::tree::entries_view(rest@),
                path@,
                names(old(visiting)@),
                depth as nat,
                i as nat,
            ) {
                Ok(b) => r.1 is Ok && crate::config::tree::entries_view(r.0@)
                    == crate::config::tree::entries_view(done@) + b && names(final(visiting)@)
                    == names(old(visiting)@),
                Err(f) => r.1 matches Err(e) && failure_error(f, e)
                    && crate::config::tree::entries_view(r.0@) == crate::config::tree::entries_view(
                    done@,
                ) + entries_after(
                    tview(self.0),
                    Seq::new(i as nat, |j: int| (Seq::<char>::empty(), TomlView::Int(0)))
                        + crate::config::tree::entries_view(rest@),
                    path@,
                    names(old(visiting)@),
                    depth as nat,
                    i as nat,
                ),
            },
        decreases depth, size_entries(crate::config::tree::entries_view(rest@)) + 1,
    {
        let ghost full = Seq::new(i as nat, |j: int| (Seq::<char>::empty(), TomlView::Int(0)))
            + crate::config::tree::entries_view(rest@);
        if rest.len() == 0 {
            assert(crate::config::tree::entries_view(done@) + Seq::<(Seq<char>, TomlView)>::empty()
                =~= crate::config::tree::entries_view(done@));
            return (done, Ok(()));
        }
        let mut rest = rest;
        let ghost rv = crate::config::tree::entries_view(rest@);
        let (k, item) = rest.remove(0);
        proof {
            assert(rv[0] == (k@, tview(item)));
            assert(rv.drop_first() =~= crate::config::tree::entries_view(rest@));
            lemma_tsize_pos(rv[0].1);
            assert(full[i as int] == (k@, tview(item)));
        }
        let p = entry_path_exec(path, &k);
        let (x, res) = self.resolve_value_refs_inner(item, &p, visiting, depth);
        let mut done = done;
        match res {
            Ok(()) => {
                let ghost before = crate::config::tree::entries_view(done@);
                done.push((k, x));
                assert(crate::config::tree::entries_view(done@) =~= before.push((k@, tview(x))));
                let ghost full2 = Seq::new(
                    (i + 1) as nat,
                    |j: int| (Seq::<char>::empty(), TomlView::Int(0)),
                ) + crate::config::tree::entries_view(rest@);
                proof {
                    lemma_entries_same(tview(self.0), full, full2, path@, names(visiting@), depth as nat, (i + 1) as nat);
                    lemma_entries_after_same(tview(self.0), full, full2, path@, names(visiting@), depth as nat, (i + 1) as nat);
                }
                let (b, res2) = self.resolve_entries_exec(rest, done, i + 1, path, visiting, depth);
                proof {
                    match resolve_entries(tview(self.0), full2, path@, names(old(visiting)@), depth as nat, (i + 1) as nat) {
                        Ok(bb) => {
                            assert(crate::config::tree::entries_view(b@) =~= before + (seq![(k@, tview(x))] + bb));
                        },
                        Err(_) => {
                            let aa = entries_after(tview(self.0), full2, path@, names(old(visiting)@), depth as nat, (i + 1) as nat);
                            assert(crate::config::tree::entries_view(b@) =~= before + (seq![(k@, tview(x))] + aa));
                        },
                    }
                }
                (b, res2)
            },
            Err(e) => {
                let ghost before = crate::config::tree::entries_view(done@);
                let ghost kv = k@;
                done.push((k, x));
                let ghost mid = crate::config::tree::entries_view(done@);
                let ghost tail = crate::config::tree::entries_view(rest@);
                done.append(&mut rest);
                proof {
                    assert(mid =~= before.push((kv, tview(x))));
                    assert(tail =~= full.subrange(i + 1, full.len() as int));
                    assert(crate::config::tree::entries_view(done@) =~= mid + tail);
                    assert(crate::config::tree::entries_view(done@) =~= before + (seq![(kv, tview(x))] + full.subrange(
                        i + 1,
                        full.len() as int,
                    )));
                }
                (done, Err(e))
            },
        }
    }
}

/// Resolving items from index `i` reads only the items from `i` on.
proof fn lemma_items_same(
    rules: TomlView,
    a: Seq<TomlView>,
    b: Seq<TomlView>,
    path: Seq<char>,
    visiting: Seq<Seq<char>>,
    depth: nat,
    i: nat,
)
    requires
        a.len() == b.len(),
        forall|j: int| i <= j < a.len() ==> a[j] == b[j],
    ensures
        resolve_items(rules, a, path, visiting, depth, i) == resolve_items(
            rules,
            b,
            path,
            visiting,
            depth,
            i,
        ),
    decreases a.len() - i,
{
    if i < a.len() {
        lemma_items_same(rules, a, b, path, visiting, depth, i + 1);
    }
}

/// Resolving entries from index `i` reads only the entries from `i` on.
proof fn lemma_entries_same(
    rules: TomlView,
    a: Seq<(Seq<char>, TomlView)>,
    b: Seq<(Seq<char>, TomlView)>,
    path: Seq<char>,
    visiting: Seq<Seq<char>>,
    depth: nat,
    i: nat,
)
    requires
        a.len() == b.len(),
        forall|j: int| i <= j < a.len() ==> a[j] == b[j],
    ensures
        resolve_entries(rules, a, path, visiting, depth, i) == resolve_entries(
            rules,
            b,
            path,
            visiting,
            depth,
            i,
        ),
    decreases a.len() - i,
{
    if i < a.len() {
        lemma_entries_same(rules, a, b, path, visiting, depth, i + 1);
    }
}

/// What a failure leaves of an array from index `i` on depends only on the
/// items from `i` on.
proof fn lemma_items_after_same(
    rules: TomlView,
    a: Seq<TomlView>,
    b: Seq<TomlView>,
    path: Seq<char>,
    visiting: Seq<Seq<char>>,
    depth: nat,
    i: nat,
)
    requires
        a.len() == b.len(),
        forall|j: int| i <= j < a.len() ==> a[j] == b[j],
    ensures
        items_after(rules, a, path, visiting, depth, i) == items_after(
            rules,
            b,
            path,
            visiting,
            depth,
            i,
        ),
    decreases a.len() - i,
{
    if i < a.len() {
        lemma_items_after_same(rules, a, b, path, visiting, depth, i + 1);
        assert(a.subrange((i + 1) as int, a.len() as int) =~= b.subrange((i + 1) as int, b.len() as int));
    }
}

/// What a failure leaves of a table from index `i` on depends only on the
/// entries from `i` on.
proof fn lemma_entries_after_same(
    rules: TomlView,
    a: Seq<(Seq<char>, TomlView)>,
    b: Seq<(Seq<char>, TomlView)>,
    path: Seq<char>,
    visiting: Seq<Seq<char>>,
    depth: nat,
    i: nat,
)
    requires
        a.len() == b.len(),
        forall|j: int| i <= j < a.len() ==> a[j] == b[j],
    ensures
        entries_after(rules, a, path, visiting, depth, i) == entries_after(
            rules,
            b,
            path,
            visiting,
            depth,
            i,
        ),
    decreases a.len() - i,
{
    if i < a.len() {
        lemma_entries_after_same(rules, a, b, path, visiting, depth, i + 1);
        assert(a.subrange((i + 1) as int, a.len() as int) =~= b.subrange((i + 1) as int, b.len() as int));
    }
}

/// Starting at index 0 after a padding of length 0 is starting on the list.
proof fn lemma_items_skip(
    rules: TomlView,
    a: Seq<TomlView>,
    path: Seq<char>,
    visiting: Seq<Seq<char>>,
    depth: nat,
    i: nat,
)
    requires
        i == 0,
    ensures
        resolve_items(rules, Seq::new(0, |j: int| TomlView::Int(0)) + a, path, visiting, depth, 0)
            == resolve_items(rules, a, path, visiting, depth, 0),
{
    assert(Seq::new(0, |j: int| TomlView::Int(0)) + a =~= a);
}

/// Starting at index 0 after a padding of length 0 is starting on the table.
proof fn lemma_entries_skip(
    rules: TomlView,
    t: Seq<(Seq<char>, TomlView)>,
    path: Seq<char>,
    visiting: Seq<Seq<char>>,
    depth: nat,
    i: nat,
)
    requires
        i == 0,
    ensures
        resolve_entries(
            rules,
            Seq::new(0, |j: int| (Seq::<char>::empty(), TomlView::Int(0))) + t,
            path,
            visiting,
            depth,
            0,
        ) == resolve_entries(rules, t, path, visiting, depth, 0),
{
    assert(Seq::new(0, |j: int| (Seq::<char>::empty(), TomlView::Int(0))) + t =~= t);
}

/// The path of an array item.
fn item_path_exec(path: &String, index: usize) -> (r: String)
    ensures
        r@ == item_path(path@, index as nat),
{
    let n = u64_to_string(index as u64);
    let mut r = path.clone();
    r.append("[");
    r.append(n.as_str());
    r.append("]");
    proof {
        reveal_strlit("[");
        reveal_strlit("]");
        assert(r@ =~= item_path(path@, index as nat));
    }
    r
}

/// The path of a table entry.
fn entry_path_exec(path: &String, key: &String) -> (r: String)
    ensures
        r@ == entry_path(path@, key@),
{
    let mut r = path.clone();
    r.append(".");
    r.append(key.as_str());
    proof {
        reveal_strlit(".");
        assert(r@ =~= entry_path(path@, key@));
    }
    r
}

} // verus!
