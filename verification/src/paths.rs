//! File names and where the settings files live. Paths are texts joined with
//! `/`; whether a file exists is told by the caller, as the list of the
//! candidate paths that exist.
use vstd::prelude::*;

use crate::error::{context_view, Error, ErrorCode};
use crate::policy::commit::{has_text, list_has_text};
use crate::text::{concat3, owned, seq_ends_with, seq_starts_with, str_eq};

verus! {

/// The tool's name.
pub const APP_NAME: &'static str = "commit-wizard";

/// The command's name.
pub const BIN_NAME: &'static str = "cw";

/// The settings file of the global and registry layers.
pub const CONFIG_FILE_NAME: &'static str = "config.toml";

/// The rules file.
pub const RULES_FILE_NAME: &'static str = "rules.toml";

/// The state file.
pub const STATE_FILE_NAME: &'static str = "state.json";

/// The settings file of a registry.
pub const REGISTRY_BASE_CONFIG_FILE_NAME: &'static str = "config.toml";

/// The rules file of a registry.
pub const REGISTRY_RULES_CONFIG_FILE_NAME: &'static str = "rules.toml";

/// The project settings file.
pub const PROJECT_CONFIG_FILE_NAME: &'static str = "cwizard.toml";

/// The hidden project settings file.
pub const PROJECT_CONFIG_FILE_NAME_HIDDEN: &'static str = ".cwizard.toml";

/// The directory of the global settings.
pub const CONFIG_DIR_NAME: &'static str = "cwizard";

/// The file of a commit being fixed.
pub const COMMIT_FIX_FILE_NAME: &'static str = ".cw-fix.json";

/// The file of a fixing session.
pub const TEMP_FIX_FILE_NAME: &'static str = ".cw-fix-session.json";

/// The cache directory.
pub const CACHE_DIR_NAME: &'static str = "cwizard";

/// The state directory.
pub const STATE_DIR_NAME: &'static str = "cwizard";

/// The directory of cached registries.
pub const REGISTRIES_DIR_NAME: &'static str = "registries";

/// `name` under `base`, as a Unix path join does it: an absolute `name`
/// stands alone, and no separator is doubled.
pub open spec fn join_spec(base: Seq<char>, name: Seq<char>) -> Seq<char> {
    if seq_starts_with(name, seq!['/']) || base.len() == 0 {
        name
    } else if seq_ends_with(base, seq!['/']) {
        base + name
    } else {
        base + seq!['/'] + name
    }
}

/// `name` under `base`.
pub fn join(base: &str, name: &str) -> (r: String)
    ensures
        r@ == join_spec(base@, name@),
{
    let b = crate::text::str_to_chars(base);
    let n = crate::text::str_to_chars(name);
    let slash = crate::text::str_to_chars("/");
    proof {
        reveal_strlit("/");
        assert(slash@ =~= seq!['/']);
    }
    if crate::text::chars_starts_with(&n, &slash) || b.len() == 0 {
        return owned(name);
    }
    if b[b.len() - 1] == '/' {
        proof {
            assert(b@.subrange(b@.len() - 1, b@.len() as int) =~= seq!['/']);
        }
        let mut r = owned(base);
        r.append(name);
        return r;
    }
    proof {
        if seq_ends_with(b@, seq!['/']) {
            assert(b@.subrange(b@.len() - 1, b@.len() as int)[0] == b@[b@.len() - 1]);
        }
    }
    concat3(base, "/", name)
}

/// Whether `p` is among the existing paths.
pub open spec fn exists_in(existing: Seq<String>, p: Seq<char>) -> bool {
    has_text(existing, p)
}

/// The project settings file in a directory: the hidden one if it exists,
/// else the visible one if it exists.
pub open spec fn project_file_in(dir: Seq<char>, existing: Seq<String>) -> Option<Seq<char>> {
    let hidden = join_spec(dir, PROJECT_CONFIG_FILE_NAME_HIDDEN@);
    let visible = join_spec(dir, PROJECT_CONFIG_FILE_NAME@);
    if exists_in(existing, hidden) {
        Some(hidden)
    } else if exists_in(existing, visible) {
        Some(visible)
    } else {
        None
    }
}

/// The project settings file in a directory, if any.
pub fn find_project_config_in_dir(dir: &str, existing: &Vec<String>) -> (r: Option<String>)
    ensures
        crate::check::opt_view(r) == project_file_in(dir@, existing@),
{
    let hidden = join(dir, PROJECT_CONFIG_FILE_NAME_HIDDEN);
    if list_has_text(existing, hidden.as_str()) {
        return Some(hidden);
    }
    let visible = join(dir, PROJECT_CONFIG_FILE_NAME);
    if list_has_text(existing, visible.as_str()) {
        return Some(visible);
    }
    None
}

/// The project settings file of a directory to read: the hidden file if it
/// exists, else the visible one if it exists, else the hidden one.
pub fn resolve_repo_config_path(cwd: &str, existing: &Vec<String>) -> (r: String)
    ensures
        r@ == match project_file_in(cwd@, existing@) {
            Some(p) => p,
            None => join_spec(cwd@, PROJECT_CONFIG_FILE_NAME_HIDDEN@),
        },
{
    match find_project_config_in_dir(cwd, existing) {
        Some(p) => p,
        None => join(cwd, PROJECT_CONFIG_FILE_NAME_HIDDEN),
    }
}

/// The project settings file to create in a directory.
pub fn resolve_new_repo_config_path(cwd: &str, hidden: bool) -> (r: String)
    ensures
        r@ == join_spec(
            cwd@,
            if hidden {
                PROJECT_CONFIG_FILE_NAME_HIDDEN@
            } else {
                PROJECT_CONFIG_FILE_NAME@
            },
        ),
{
    if hidden {
        join(cwd, PROJECT_CONFIG_FILE_NAME_HIDDEN)
    } else {
        join(cwd, PROJECT_CONFIG_FILE_NAME)
    }
}

/// The global settings directory: `$XDG_CONFIG_HOME/cwizard`, else
/// `$HOME/.config/cwizard`; an error when neither is set.
pub open spec fn config_dir_spec(xdg: Option<Seq<char>>, home: Option<Seq<char>>) -> Option<
    Seq<char>,
> {
    match xdg {
        Some(x) => Some(join_spec(x, CONFIG_DIR_NAME@)),
        None => match home {
            Some(h) => Some(join_spec(join_spec(h, ".config"@), CONFIG_DIR_NAME@)),
            None => None,
        },
    }
}

/// The global settings directory from `XDG_CONFIG_HOME` and `HOME`.
pub fn app_config_dir(xdg_config_home: Option<&str>, home: Option<&str>) -> (r: Result<
    String,
    Error,
>)
    ensures
        match r {
            Ok(p) => config_dir_spec(
                match xdg_config_home {
                    Some(x) => Some(x@),
                    None => None,
                },
                match home {
                    Some(h) => Some(h@),
                    None => None,
                },
            ) == Some(p@),
            Err(e) => xdg_config_home is None && home is None && e.code == ErrorCode::ConfigInvalid
                && context_view(e) == seq![
                ("reason"@, "neither XDG_CONFIG_HOME nor HOME is set"@),
            ],
        },
{
    match xdg_config_home {
        Some(x) => Ok(join(x, CONFIG_DIR_NAME)),
        None => match home {
            Some(h) => {
                let c = join(h, ".config");
                Ok(join(c.as_str(), CONFIG_DIR_NAME))
            },
            None => {
                let e = ErrorCode::ConfigInvalid.error().with_context(
                    "reason",
                    "neither XDG_CONFIG_HOME nor HOME is set",
                );
                assert(context_view(e) =~= seq![
                    ("reason"@, "neither XDG_CONFIG_HOME nor HOME is set"@),
                ]);
                Err(e)
            },
        },
    }
}

/// The global state directory: `$XDG_STATE_HOME/cwizard`, else
/// `$HOME/.local/state/cwizard`.
pub fn app_state_dir(xdg_state_home: Option<&str>, home: Option<&str>) -> (r: Result<
    String,
    Error,
>)
    ensures
        match r {
            Ok(p) => match xdg_state_home {
                Some(x) => p@ == join_spec(x@, STATE_DIR_NAME@),
                None => home matches Some(h) && p@ == join_spec(
                    join_spec(join_spec(h@, ".local"@), "state"@),
                    STATE_DIR_NAME@,
                ),
            },
            Err(e) => xdg_state_home is None && home is None && e.code == ErrorCode::ConfigInvalid
                && context_view(e) == seq![
                ("reason"@, "neither XDG_STATE_HOME nor HOME is set"@),
            ],
        },
{
    match xdg_state_home {
        Some(x) => Ok(join(x, STATE_DIR_NAME)),
        None => match home {
            Some(h) => {
                let a = join(h, ".local");
                let b = join(a.as_str(), "state");
                Ok(join(b.as_str(), STATE_DIR_NAME))
            },
            None => {
                let e = ErrorCode::ConfigInvalid.error().with_context(
                    "reason",
                    "neither XDG_STATE_HOME nor HOME is set",
                );
                assert(context_view(e) =~= seq![
                    ("reason"@, "neither XDG_STATE_HOME nor HOME is set"@),
                ]);
                Err(e)
            },
        },
    }
}

/// The cache directory: `$XDG_CACHE_HOME/cwizard`, else
/// `$HOME/.cache/cwizard`.
pub fn app_cache_dir(xdg_cache_home: Option<&str>, home: Option<&str>) -> (r: Result<
    String,
    Error,
>)
    ensures
        match r {
            Ok(p) => match xdg_cache_home {
                Some(x) => p@ == join_spec(x@, CACHE_DIR_NAME@),
                None => home matches Some(h) && p@ == join_spec(
                    join_spec(h@, ".cache"@),
                    CACHE_DIR_NAME@,
                ),
            },
            Err(e) => xdg_cache_home is None && home is None && e.code == ErrorCode::ConfigInvalid
                && context_view(e) == seq![
                ("reason"@, "neither XDG_CACHE_HOME nor HOME is set"@),
            ],
        },
{
    match xdg_cache_home {
        Some(x) => Ok(join(x, CACHE_DIR_NAME)),
        None => match home {
            Some(h) => {
                let a = join(h, ".cache");
                Ok(join(a.as_str(), CACHE_DIR_NAME))
            },
            None => {
                let e = ErrorCode::ConfigInvalid.error().with_context(
                    "reason",
                    "neither XDG_CACHE_HOME nor HOME is set",
                );
                assert(context_view(e) =~= seq![
                    ("reason"@, "neither XDG_CACHE_HOME nor HOME is set"@),
                ]);
                Err(e)
            },
        },
    }
}

/// The global settings file under the global settings directory.
pub fn resolve_global_config_path(config_dir: &Result<String, Error>) -> (r: Result<String, Error>)
    ensures
        match (*config_dir, r) {
            (Ok(d), Ok(p)) => p@ == join_spec(d@, CONFIG_FILE_NAME@),
            (Err(d), Err(e)) => e.code == d.code && context_view(e) == context_view(d),
            _ => false,
        },
{
    match config_dir {
        Ok(d) => Ok(join(d.as_str(), CONFIG_FILE_NAME)),
        Err(d) => Err(copy_error(d)),
    }
}

/// The global rules file under the global settings directory.
pub fn resolve_global_rules_path(config_dir: &Result<String, Error>) -> (r: Result<String, Error>)
    ensures
        match (*config_dir, r) {
            (Ok(d), Ok(p)) => p@ == join_spec(d@, RULES_FILE_NAME@),
            (Err(d), Err(e)) => e.code == d.code && context_view(e) == context_view(d),
            _ => false,
        },
{
    match config_dir {
        Ok(d) => Ok(join(d.as_str(), RULES_FILE_NAME)),
        Err(d) => Err(copy_error(d)),
    }
}

/// A copy of an error.
pub fn copy_error(e: &Error) -> (r: Error)
    ensures
        r.code == e.code,
        context_view(r) == context_view(*e),
{
    let mut ctx: Vec<(String, String)> = Vec::new();
    let mut i: usize = 0;
    while i < e.context.len()
        invariant
            0 <= i <= e.context@.len(),
            ctx@.len() == i,
            forall|j: int|
                0 <= j < i ==> (#[trigger] ctx@[j]).0@ == e.context@[j].0@ && ctx@[j].1@
                    == e.context@[j].1@,
        decreases e.context@.len() - i,
    {
        ctx.push((e.context[i].0.clone(), e.context[i].1.clone()));
        i = i + 1;
    }
    let r = Error { code: e.code, context: ctx };
    assert(context_view(r) =~= context_view(*e));
    r
}

/// The project settings file to read: the explicit one, else the one in the
/// working directory, else, inside a repository whose root is elsewhere, the
/// one at the root.
pub open spec fn project_config_spec(
    cwd: Seq<char>,
    repo_root: Option<Seq<char>>,
    in_git_repo: bool,
    explicit: Option<Seq<char>>,
    existing: Seq<String>,
) -> Option<Seq<char>> {
    match explicit {
        Some(p) => Some(p),
        None => match project_file_in(cwd, existing) {
            Some(p) => Some(p),
            None => match repo_root {
                Some(root) => if in_git_repo && root != cwd {
                    project_file_in(root, existing)
                } else {
                    None
                },
                None => None,
            },
        },
    }
}

/// The project settings file to read, if any.
pub fn resolve_project_config_path(
    cwd: &str,
    repo_root: Option<&str>,
    in_git_repo: bool,
    explicit_config_path: Option<&str>,
    existing: &Vec<String>,
) -> (r: Option<String>)
    ensures
        crate::check::opt_view(r) == project_config_spec(
            cwd@,
            match repo_root {
                Some(x) => Some(x@),
                None => None,
            },
            in_git_repo,
            match explicit_config_path {
                Some(x) => Some(x@),
                None => None,
            },
            existing@,
        ),
{
    if let Some(path) = explicit_config_path {
        return Some(owned(path));
    }
    if let Some(path) = find_project_config_in_dir(cwd, existing) {
        return Some(path);
    }
    if in_git_repo {
        if let Some(root) = repo_root {
            if !str_eq(root, cwd) {
                return find_project_config_in_dir(root, existing);
            }
        }
    }
    None
}

/// The project settings file to create: the explicit one, else the hidden
/// or visible file at the repository root (inside a repository) or in the
/// working directory.
pub fn resolve_new_project_config_path(
    cwd: &str,
    repo_root: Option<&str>,
    in_git_repo: bool,
    explicit_config_path: Option<&str>,
    hidden: bool,
) -> (r: String)
    ensures
        r@ == match explicit_config_path {
            Some(p) => p@,
            None => join_spec(
                if in_git_repo {
                    match repo_root {
                        Some(root) => root@,
                        None => cwd@,
                    }
                } else {
                    cwd@
                },
                if hidden {
                    PROJECT_CONFIG_FILE_NAME_HIDDEN@
                } else {
                    PROJECT_CONFIG_FILE_NAME@
                },
            ),
        },
{
    if let Some(path) = explicit_config_path {
        return owned(path);
    }
    let base_dir = if in_git_repo {
        match repo_root {
            Some(root) => root,
            None => cwd,
        }
    } else {
        cwd
    };
    if hidden {
        join(base_dir, PROJECT_CONFIG_FILE_NAME_HIDDEN)
    } else {
        join(base_dir, PROJECT_CONFIG_FILE_NAME)
    }
}

} // verus!
