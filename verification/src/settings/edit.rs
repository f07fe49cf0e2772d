//! Reading, setting and removing one setting of a settings file by its
//! dotted key. Only a fixed set of keys can be edited, each with its kind of
//! value.
use vstd::prelude::*;

use crate::config::rules::copy_value;
use crate::config::tree::{
    get_value, key_lookup, key_path, lemma_get_after_set, lemma_get_after_unset, lemma_split_nonempty,
    is_path_sorted, path_sorted, set_failure_reason, set_value, tset, tunset,
    tview, unsorted_error, unsorted_key_error, unset_value, TomlValue, TomlView,
};
use crate::error::{context_view, Error, ErrorCode};
use crate::paths::{join_spec, CONFIG_FILE_NAME, PROJECT_CONFIG_FILE_NAME};
use crate::settings::show::{missing_file_error, resolve_config_path, same_error, ConfigTarget};
use crate::text::{owned, parse_i64, parse_i64_spec, str_eq, str_to_chars};

verus! {

/// Asking for one setting.
#[derive(Debug, Clone)]
pub struct ConfigGetInput {
    pub cwd: String,
    pub target: ConfigTarget,
    pub explicit_path: Option<String>,
    pub key: String,
}

/// One setting and the file it was read from.
#[derive(Debug)]
pub struct ConfigGetOutput {
    pub path: String,
    pub key: String,
    pub value: TomlValue,
}

/// Asking to set one setting.
#[derive(Debug, Clone)]
pub struct ConfigSetInput {
    pub cwd: String,
    pub target: ConfigTarget,
    pub key: String,
    pub value: String,
    pub dry_run: bool,
    pub explicit_path: Option<String>,
}

/// The setting that was set and the file it was set in.
#[derive(Debug)]
pub struct ConfigSetOutput {
    pub path: String,
    pub key: String,
    pub value: TomlValue,
}

/// Asking to remove one setting.
#[derive(Debug, Clone)]
pub struct ConfigUnsetInput {
    pub cwd: String,
    pub target: ConfigTarget,
    pub key: String,
    pub dry_run: bool,
    pub explicit_path: Option<String>,
}

/// The setting that was removed, and whether it was there.
#[derive(Debug, Clone)]
pub struct ConfigUnsetOutput {
    pub path: String,
    pub key: String,
    pub removed: bool,
}

/// The kind of value an editable key holds.
#[derive(Debug, Clone, Copy, PartialEq, Eq, Structural)]
pub enum KeyKind {
    Integer,
    Boolean,
    Text,
}

/// The kind of an editable key; `None` for any other key.
pub open spec fn key_kind_spec(k: Seq<char>) -> Option<KeyKind> {
    if k == "commit.subject_max_length"@ {
        Some(KeyKind::Integer)
    } else if k == "commit.ticket.required"@ || k == "release.enabled"@ || k == "ai.enabled"@ {
        Some(KeyKind::Boolean)
    } else if k == "branch.remote"@ || k == "commit.ticket.pattern"@ || k
        == "commit.ticket.header_format"@ || k == "release.source_branch"@ || k
        == "release.target_branch"@ || k == "ai.provider"@ || k == "changelog.output"@ || k
        == "versioning.tag_prefix"@ {
        Some(KeyKind::Text)
    } else {
        None
    }
}

/// The kind of an editable key.
pub fn key_kind(key: &str) -> (r: Option<KeyKind>)
    ensures
        r == key_kind_spec(key@),
{
    if str_eq(key, "commit.subject_max_length") {
        Some(KeyKind::Integer)
    } else if str_eq(key, "commit.ticket.required") || str_eq(key, "release.enabled") || str_eq(
        key,
        "ai.enabled",
    ) {
        Some(KeyKind::Boolean)
    } else if str_eq(key, "branch.remote") || str_eq(key, "commit.ticket.pattern") || str_eq(
        key,
        "commit.ticket.header_format",
    ) || str_eq(key, "release.source_branch") || str_eq(key, "release.target_branch") || str_eq(
        key,
        "ai.provider",
    ) || str_eq(key, "changelog.output") || str_eq(key, "versioning.tag_prefix") {
        Some(KeyKind::Text)
    } else {
        None
    }
}

/// Whether a key can be edited.
pub fn is_supported_key(key: &str) -> (r: bool)
    ensures
        r == key_kind_spec(key@) is Some,
{
    key_kind(key).is_some()
}

/// The error for a key that cannot be edited.
fn unsupported_key_error(key: &str) -> (e: Error)
    ensures
        e.code == ErrorCode::ConfigInvalid,
        context_view(e) == seq![("key"@, key@), ("reason"@, "unsupported or unknown key"@)],
{
    let e = ErrorCode::ConfigInvalid.error().with_context("key", key).with_context(
        "reason",
        "unsupported or unknown key",
    );
    assert(context_view(e) =~= seq![
        ("key"@, key@),
        ("reason"@, "unsupported or unknown key"@),
    ]);
    e
}

/// Fails for a key that cannot be edited.
pub fn ensure_supported_key(key: &str) -> (r: Result<(), Error>)
    ensures
        key_kind_spec(key@) is Some <==> r is Ok,
        r matches Err(e) ==> e.code == ErrorCode::ConfigInvalid && context_view(e) == seq![
            ("key"@, key@),
            ("reason"@, "unsupported or unknown key"@),
        ],
{
    if is_supported_key(key) {
        Ok(())
    } else {
        Err(unsupported_key_error(key))
    }
}

/// A boolean as `str::parse::<bool>` reads it: exactly `true` or `false`.
pub open spec fn parse_bool_spec(s: Seq<char>) -> Option<bool> {
    if s == "true"@ {
        Some(true)
    } else if s == "false"@ {
        Some(false)
    } else {
        None
    }
}

/// The value a text gives for a key of a kind, if it reads as that kind.
pub open spec fn typed_value_spec(kind: KeyKind, raw: Seq<char>) -> Option<TomlView> {
    match kind {
        KeyKind::Integer => match parse_i64_spec(raw) {
            Some(i) => Some(TomlView::Int(i)),
            None => None,
        },
        KeyKind::Boolean => match parse_bool_spec(raw) {
            Some(b) => Some(TomlView::Bool(b)),
            None => None,
        },
        KeyKind::Text => Some(TomlView::Str(raw)),
    }
}

/// What a value that does not read as its kind is told.
pub open spec fn kind_reason(kind: KeyKind) -> Seq<char> {
    match kind {
        KeyKind::Integer => "expected integer"@,
        KeyKind::Boolean => "expected boolean"@,
        KeyKind::Text => Seq::empty(),
    }
}

/// Whether `r` is what parsing `raw` as the value of `key` gives: the typed
/// value; an error naming the key, the value and the expected kind; or, for
/// a key that cannot be edited, the error saying so.
pub open spec fn parsed_value_holds(key: Seq<char>, raw: Seq<char>, r: Result<TomlValue, Error>) -> bool {
    match key_kind_spec(key) {
        None => r matches Err(e) && e.code == ErrorCode::ConfigInvalid && context_view(e) == seq![
            ("key"@, key),
            ("reason"@, "unsupported or unknown key"@),
        ],
        Some(kind) => match typed_value_spec(kind, raw) {
            Some(v) => r matches Ok(x) && tview(x) == v,
            None => r matches Err(e) && e.code == ErrorCode::ConfigInvalid && context_view(e)
                == seq![("key"@, key), ("value"@, raw), ("reason"@, kind_reason(kind))],
        },
    }
}

/// Reads a text as the value of an editable key.
pub fn parse_value_for_key(key: &str, raw: &str) -> (r: Result<TomlValue, Error>)
    ensures
        parsed_value_holds(key@, raw@, r),
{
    match key_kind(key) {
        None => Err(unsupported_key_error(key)),
        Some(KeyKind::Text) => Ok(TomlValue::String(owned(raw))),
        Some(KeyKind::Integer) => {
            let chars = str_to_chars(raw);
            match parse_i64(&chars) {
                Some(i) => Ok(TomlValue::Integer(i)),
                None => {
                    let e = ErrorCode::ConfigInvalid.error().with_context("key", key).with_context(
                        "value",
                        raw,
                    ).with_context("reason", "expected integer");
                    assert(context_view(e) =~= seq![
                        ("key"@, key@),
                        ("value"@, raw@),
                        ("reason"@, "expected integer"@),
                    ]);
                    Err(e)
                },
            }
        },
        Some(KeyKind::Boolean) => {
            if str_eq(raw, "true") {
                Ok(TomlValue::Boolean(true))
            } else if str_eq(raw, "false") {
                Ok(TomlValue::Boolean(false))
            } else {
                let e = ErrorCode::ConfigInvalid.error().with_context("key", key).with_context(
                    "value",
                    raw,
                ).with_context("reason", "expected boolean");
                assert(context_view(e) =~= seq![
                    ("key"@, key@),
                    ("value"@, raw@),
                    ("reason"@, "expected boolean"@),
                ]);
                Err(e)
            }
        },
    }
}

/// The file an edit works on: the explicit path, else the target's file.
pub open spec fn edit_path_spec(
    explicit: Option<String>,
    target: ConfigTarget,
    cwd: Seq<char>,
    config_dir: Result<String, Error>,
) -> Result<Seq<char>, Error> {
    match explicit {
        Some(p) => Ok(p@),
        None => match target {
            ConfigTarget::Project => Ok(join_spec(cwd, PROJECT_CONFIG_FILE_NAME@)),
            ConfigTarget::Global => match config_dir {
                Ok(d) => Ok(join_spec(d@, CONFIG_FILE_NAME@)),
                Err(d) => Err(d),
            },
        },
    }
}

/// The file an edit works on.
pub fn edit_path(
    explicit: &Option<String>,
    target: ConfigTarget,
    cwd: &str,
    config_dir: &Result<String, Error>,
) -> (r: Result<String, Error>)
    ensures
        match edit_path_spec(*explicit, target, cwd@, *config_dir) {
            Ok(p) => r matches Ok(q) && q@ == p,
            Err(d) => r matches Err(e) && same_error(e, d),
        },
{
    match explicit {
        Some(p) => Ok(p.clone()),
        None => resolve_config_path(target, cwd, config_dir),
    }
}

/// Whether `r` is the outcome of reading a key: the errors in the order they
/// are met (a key that cannot be edited, the file's path, a missing file, a
/// file that could not be read, a key with no value), else the value.
pub open spec fn get_holds(
    input: ConfigGetInput,
    config_dir: Result<String, Error>,
    file: Option<Result<TomlValue, Error>>,
    r: Result<ConfigGetOutput, Error>,
) -> bool {
    if key_kind_spec(input.key@) is None {
        r matches Err(e) && e.code == ErrorCode::ConfigInvalid && context_view(e) == seq![
            ("key"@, input.key@),
            ("reason"@, "unsupported or unknown key"@),
        ]
    } else {
        match edit_path_spec(input.explicit_path, input.target, input.cwd@, config_dir) {
            Err(d) => r matches Err(e) && same_error(e, d),
            Ok(p) => match file {
                None => r matches Err(e) && e.code == ErrorCode::ConfigUnreadable && context_view(e)
                    == seq![("path"@, p), ("reason"@, "config file does not exist"@)],
                Some(Err(d)) => r matches Err(e) && same_error(e, d),
                Some(Ok(doc)) => match key_lookup(tview(doc), input.key@) {
                    Some(v) => r matches Ok(o) && o.path@ == p && o.key@ == input.key@ && tview(
                        o.value,
                    ) == v,
                    None => r matches Err(e) && e.code == ErrorCode::ConfigInvalid && context_view(
                        e,
                    ) == seq![("key"@, input.key@), ("reason"@, "unknown key"@)],
                },
            },
        }
    }
}

/// Reads one setting. `file` is `None` where the file does not exist, else
/// what reading and parsing it gave.
pub fn config_get(
    input: &ConfigGetInput,
    config_dir: &Result<String, Error>,
    file: Option<Result<TomlValue, Error>>,
) -> (r: Result<ConfigGetOutput, Error>)
    ensures
        get_holds(*input, *config_dir, file, r),
{
    let key = input.key.as_str();
    if let Err(e) = ensure_supported_key(key) {
        return Err(e);
    }
    let path = match edit_path(&input.explicit_path, input.target, input.cwd.as_str(), config_dir) {
        Ok(p) => p,
        Err(e) => return Err(e),
    };
    let doc = match file {
        None => return Err(missing_file_error(path.as_str())),
        Some(Err(e)) => return Err(e),
        Some(Ok(d)) => d,
    };
    match get_value(&doc, key) {
        Some(v) => Ok(ConfigGetOutput { path, key: input.key.clone(), value: copy_value(v) }),
        None => {
            let e = ErrorCode::ConfigInvalid.error().with_context("key", key).with_context(
                "reason",
                "unknown key",
            );
            assert(context_view(e) =~= seq![("key"@, key@), ("reason"@, "unknown key"@)]);
            Err(e)
        },
    }
}

/// Whether `r` is the outcome of setting a key: the errors in the order they
/// are met (a key that cannot be edited, the file's path, the document, the
/// value, a value on the way that is not a table), else the value set and
/// the new document.
pub open spec fn set_holds(
    input: ConfigSetInput,
    config_dir: Result<String, Error>,
    file: Result<TomlValue, Error>,
    r: Result<(ConfigSetOutput, TomlValue), Error>,
) -> bool {
    match key_kind_spec(input.key@) {
        None => r matches Err(e) && e.code == ErrorCode::ConfigInvalid && context_view(e) == seq![
            ("key"@, input.key@),
            ("reason"@, "unsupported or unknown key"@),
        ],
        Some(kind) => match edit_path_spec(input.explicit_path, input.target, input.cwd@, config_dir) {
            Err(d) => r matches Err(e) && same_error(e, d),
            Ok(p) => match file {
                Err(d) => r matches Err(e) && same_error(e, d),
                Ok(doc) => match typed_value_spec(kind, input.value@) {
                    None => r matches Err(e) && e.code == ErrorCode::ConfigInvalid && context_view(
                        e,
                    ) == seq![
                        ("key"@, input.key@),
                        ("value"@, input.value@),
                        ("reason"@, kind_reason(kind)),
                    ],
                    Some(v) => match tset(tview(doc), key_path(input.key@), v) {
                        Ok(w) => r matches Ok((o, d)) && o.path@ == p && o.key@ == input.key@
                            && tview(o.value) == v && tview(d) == w,
                        Err(f) => r matches Err(e) && e.code == ErrorCode::ConfigInvalid
                            && context_view(e) == seq![
                            ("key"@, input.key@),
                            ("reason"@, set_failure_reason(f)),
                        ],
                    },
                },
            },
        }
    }
}

/// Sets one setting in a document: `file` is the document read from the
/// file, or the empty document of the target where there is none. Gives the
/// value set and the new document, which the caller checks, renders and,
/// unless it is a dry run, writes.
pub fn config_set(
    input: &ConfigSetInput,
    config_dir: &Result<String, Error>,
    file: Result<TomlValue, Error>,
) -> (r: Result<(ConfigSetOutput, TomlValue), Error>)
    requires
        file matches Ok(d) ==> path_sorted(tview(d), key_path(input.key@)),
    ensures
        set_holds(*input, *config_dir, file, r),
{
    let key = input.key.as_str();
    if let Err(e) = ensure_supported_key(key) {
        return Err(e);
    }
    let path = match edit_path(&input.explicit_path, input.target, input.cwd.as_str(), config_dir) {
        Ok(p) => p,
        Err(e) => return Err(e),
    };
    let mut doc = match file {
        Err(e) => return Err(e),
        Ok(d) => d,
    };
    let value = match parse_value_for_key(key, input.value.as_str()) {
        Ok(v) => v,
        Err(e) => return Err(e),
    };
    let stored = copy_value(&value);
    match set_value(&mut doc, key, stored) {
        Ok(()) => Ok((ConfigSetOutput { path, key: input.key.clone(), value }, doc)),
        Err(e) => Err(e),
    }
}

/// Whether `r` is the outcome of removing a key: the errors in the order
/// they are met (a key that cannot be edited, the file's path, a missing
/// file, a file that could not be read, a parent that is not a table), else
/// whether the key was there and the new document.
pub open spec fn unset_holds(
    input: ConfigUnsetInput,
    config_dir: Result<String, Error>,
    file: Option<Result<TomlValue, Error>>,
    r: Result<(ConfigUnsetOutput, TomlValue), Error>,
) -> bool {
    if key_kind_spec(input.key@) is None {
        r matches Err(e) && e.code == ErrorCode::ConfigInvalid && context_view(e) == seq![
            ("key"@, input.key@),
            ("reason"@, "unsupported or unknown key"@),
        ]
    } else {
        match edit_path_spec(input.explicit_path, input.target, input.cwd@, config_dir) {
            Err(d) => r matches Err(e) && same_error(e, d),
            Ok(p) => match file {
                None => r matches Err(e) && e.code == ErrorCode::ConfigUnreadable && context_view(e)
                    == seq![("path"@, p), ("reason"@, "config file does not exist"@)],
                Some(Err(d)) => r matches Err(e) && same_error(e, d),
                Some(Ok(doc)) => match tunset(tview(doc), key_path(input.key@)) {
                    Some((w, b)) => r matches Ok((o, d)) && o.path@ == p && o.key@ == input.key@
                        && o.removed == b && tview(d) == w,
                    None => r matches Err(e) && e.code == ErrorCode::ConfigInvalid && context_view(
                        e,
                    ) == seq![("key"@, input.key@), ("reason"@, "target parent is not a table"@)],
                },
            },
        }
    }
}

/// Removes one setting from a document. `file` is `None` where the file does
/// not exist, else what reading and parsing it gave. Gives whether the
/// setting was there and the new document, which the caller checks, renders
/// and, unless it is a dry run, writes.
pub fn config_unset(
    input: &ConfigUnsetInput,
    config_dir: &Result<String, Error>,
    file: Option<Result<TomlValue, Error>>,
) -> (r: Result<(ConfigUnsetOutput, TomlValue), Error>)
    requires
        file matches Some(Ok(d)) ==> path_sorted(tview(d), key_path(input.key@)),
    ensures
        unset_holds(*input, *config_dir, file, r),
{
    let key = input.key.as_str();
    if let Err(e) = ensure_supported_key(key) {
        return Err(e);
    }
    let path = match edit_path(&input.explicit_path, input.target, input.cwd.as_str(), config_dir) {
        Ok(p) => p,
        Err(e) => return Err(e),
    };
    let mut doc = match file {
        None => return Err(missing_file_error(path.as_str())),
        Some(Err(e)) => return Err(e),
        Some(Ok(d)) => d,
    };
    match unset_value(&mut doc, key) {
        Ok(removed) => Ok((ConfigUnsetOutput { path, key: input.key.clone(), removed }, doc)),
        Err(e) => Err(e),
    }
}

/// `config_set` on any document: where the document's tables along the key
/// are not in key order, an error.
pub fn config_set_checked(
    input: &ConfigSetInput,
    config_dir: &Result<String, Error>,
    file: Result<TomlValue, Error>,
) -> (r: Result<(ConfigSetOutput, TomlValue), Error>)
    ensures
        match file {
            Ok(d) if !path_sorted(tview(d), key_path(input.key@)) => r matches Err(e)
                && unsorted_error(e, input.key@),
            _ => set_holds(*input, *config_dir, file, r),
        },
{
    if let Ok(d) = &file {
        if !is_path_sorted(d, input.key.as_str()) {
            return Err(unsorted_key_error(input.key.as_str()));
        }
    }
    config_set(input, config_dir, file)
}

/// `config_unset` on any document: where the document's tables along the
/// key are not in key order, an error.
pub fn config_unset_checked(
    input: &ConfigUnsetInput,
    config_dir: &Result<String, Error>,
    file: Option<Result<TomlValue, Error>>,
) -> (r: Result<(ConfigUnsetOutput, TomlValue), Error>)
    ensures
        match file {
            Some(Ok(d)) if !path_sorted(tview(d), key_path(input.key@)) => r matches Err(e)
                && unsorted_error(e, input.key@),
            _ => unset_holds(*input, *config_dir, file, r),
        },
{
    if let Some(Ok(d)) = &file {
        if !is_path_sorted(d, input.key.as_str()) {
            return Err(unsorted_key_error(input.key.as_str()));
        }
    }
    config_unset(input, config_dir, file)
}

/// A setting reads back as it was set: once `config_set` has set a key, reading
/// the same key of the same file from the new document gives the value set.
pub proof fn lemma_set_then_get(
    set_input: ConfigSetInput,
    get_input: ConfigGetInput,
    config_dir: Result<String, Error>,
    file: Result<TomlValue, Error>,
    out: ConfigSetOutput,
    doc: TomlValue,
    got: Result<ConfigGetOutput, Error>,
)
    requires
        set_holds(set_input, config_dir, file, Ok((out, doc))),
        get_input.key@ == set_input.key@,
        get_input.target == set_input.target,
        get_input.cwd@ == set_input.cwd@,
        crate::check::opt_view(get_input.explicit_path) == crate::check::opt_view(
            set_input.explicit_path,
        ),
        get_holds(get_input, config_dir, Some(Ok(doc)), got),
    ensures
        got matches Ok(g) && g.path@ == out.path@ && tview(g.value) == tview(out.value),
{
    let key = set_input.key@;
    lemma_split_nonempty(key, '.');
    assert(edit_path_spec(get_input.explicit_path, get_input.target, get_input.cwd@, config_dir)
        == edit_path_spec(set_input.explicit_path, set_input.target, set_input.cwd@, config_dir));
    let file_doc = file->Ok_0;
    let v = typed_value_spec(key_kind_spec(key)->Some_0, set_input.value@)->Some_0;
    lemma_get_after_set(tview(file_doc), key_path(key), v);
}

/// A removed setting no longer reads: once `config_unset` has removed a key
/// from a document whose tables keep their keys in order, reading the same
/// key of the same file from the new document fails with "unknown key".
pub proof fn lemma_unset_then_get(
    unset_input: ConfigUnsetInput,
    get_input: ConfigGetInput,
    config_dir: Result<String, Error>,
    file: TomlValue,
    out: ConfigUnsetOutput,
    doc: TomlValue,
    got: Result<ConfigGetOutput, Error>,
)
    requires
        path_sorted(tview(file), key_path(unset_input.key@)),
        unset_holds(unset_input, config_dir, Some(Ok(file)), Ok((out, doc))),
        get_input.key@ == unset_input.key@,
        get_input.target == unset_input.target,
        get_input.cwd@ == unset_input.cwd@,
        crate::check::opt_view(get_input.explicit_path) == crate::check::opt_view(
            unset_input.explicit_path,
        ),
        get_holds(get_input, config_dir, Some(Ok(doc)), got),
    ensures
        got matches Err(e) && e.code == ErrorCode::ConfigInvalid && context_view(e) == seq![
            ("key"@, get_input.key@),
            ("reason"@, "unknown key"@),
        ],
{
    let key = unset_input.key@;
    lemma_split_nonempty(key, '.');
    assert(edit_path_spec(get_input.explicit_path, get_input.target, get_input.cwd@, config_dir)
        == edit_path_spec(unset_input.explicit_path, unset_input.target, unset_input.cwd@, config_dir));
    lemma_get_after_unset(tview(file), key_path(key));
}

} // verus!
