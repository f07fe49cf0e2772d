//! Where a settings file is and how it is shown.
use vstd::prelude::*;

use crate::error::{context_view, Error, ErrorCode};
use crate::paths::{
    join, join_spec, resolve_global_config_path, CONFIG_FILE_NAME,
    PROJECT_CONFIG_FILE_NAME,
};

verus! {

/// Which settings file a command works on.
#[derive(Debug, Clone, Copy, PartialEq, Eq, Structural)]
pub enum ConfigTarget {
    Project,
    Global,
}

/// How a settings file is shown.
#[derive(Debug, Clone, Copy, PartialEq, Eq, Structural)]
pub enum ConfigShowFormat {
    Human,
    Json,
    Toml,
}

/// Asking for a settings file's path.
#[derive(Debug, Clone)]
pub struct ConfigPathInput {
    pub cwd: String,
    pub target: ConfigTarget,
}

/// A settings file's path.
#[derive(Debug, Clone)]
pub struct ConfigPathOutput {
    pub path: String,
}

/// Asking to show a settings file.
#[derive(Debug, Clone)]
pub struct ConfigShowInput {
    pub cwd: String,
    pub target: ConfigTarget,
    pub explicit_path: Option<String>,
    pub format: ConfigShowFormat,
}

/// A shown settings file.
#[derive(Debug, Clone)]
pub struct ConfigShowOutput {
    pub path: String,
    pub exists: bool,
    pub content: String,
}

/// The text of a settings file that was read, and its JSON rendering where
/// one was asked for.
#[derive(Debug, Clone)]
pub struct ShowSource {
    pub raw: String,
    pub json: Option<String>,
}

/// The same error: same code, same context.
pub open spec fn same_error(a: Error, b: Error) -> bool {
    a.code == b.code && context_view(a) == context_view(b)
}

/// The path a target names: the project file in the working directory, or
/// the settings file in the global settings directory (whose lookup may
/// have failed).
pub open spec fn config_path_holds(
    target: ConfigTarget,
    cwd: Seq<char>,
    config_dir: Result<String, Error>,
    r: Result<String, Error>,
) -> bool {
    match target {
        ConfigTarget::Project => r matches Ok(p) && p@ == join_spec(cwd, PROJECT_CONFIG_FILE_NAME@),
        ConfigTarget::Global => match config_dir {
            Ok(d) => r matches Ok(p) && p@ == join_spec(d@, CONFIG_FILE_NAME@),
            Err(d) => r matches Err(e) && same_error(e, d),
        },
    }
}

/// The path of the settings file of a target.
pub fn resolve_config_path(target: ConfigTarget, cwd: &str, config_dir: &Result<String, Error>) -> (r:
    Result<String, Error>)
    ensures
        config_path_holds(target, cwd@, *config_dir, r),
{
    match target {
        ConfigTarget::Project => Ok(join(cwd, PROJECT_CONFIG_FILE_NAME)),
        ConfigTarget::Global => resolve_global_config_path(config_dir),
    }
}

/// The path of the settings file a command asks for.
pub fn config_path(input: &ConfigPathInput, config_dir: &Result<String, Error>) -> (r: Result<
    ConfigPathOutput,
    Error,
>)
    ensures
        config_path_holds(
            input.target,
            input.cwd@,
            *config_dir,
            match r {
                Ok(o) => Ok(o.path),
                Err(e) => Err(e),
            },
        ),
{
    match resolve_config_path(input.target, input.cwd.as_str(), config_dir) {
        Ok(path) => Ok(ConfigPathOutput { path }),
        Err(e) => Err(e),
    }
}

/// The error for a settings file that does not exist.
pub fn missing_file_error(path: &str) -> (e: Error)
    ensures
        e.code == ErrorCode::ConfigUnreadable,
        context_view(e) == seq![("path"@, path@), ("reason"@, "config file does not exist"@)],
{
    let e = ErrorCode::ConfigUnreadable.error().with_context("path", path).with_context(
        "reason",
        "config file does not exist",
    );
    assert(context_view(e) =~= seq![
        ("path"@, path@),
        ("reason"@, "config file does not exist"@),
    ]);
    e
}

/// What showing a settings file gives. The file is that of the target (an
/// explicit path is not consulted); `file` is `None` where it does not
/// exist, else what reading and parsing it gave. The content is the text
/// as read, or for JSON its rendering.
pub fn config_show(
    input: &ConfigShowInput,
    config_dir: &Result<String, Error>,
    file: Option<Result<ShowSource, Error>>,
) -> (r: Result<ConfigShowOutput, Error>)
    ensures
        ({
            let path = if input.target == ConfigTarget::Project {
                Ok::<Seq<char>, Error>(join_spec(input.cwd@, PROJECT_CONFIG_FILE_NAME@))
            } else {
                match *config_dir {
                    Ok(d) => Ok(join_spec(d@, CONFIG_FILE_NAME@)),
                    Err(d) => Err(d),
                }
            };
            match path {
                Err(d) => r matches Err(e) && same_error(e, d),
                Ok(p) => match file {
                    None => r matches Err(e) && e.code == ErrorCode::ConfigUnreadable
                        && context_view(e) == seq![
                        ("path"@, p),
                        ("reason"@, "config file does not exist"@),
                    ],
                    Some(Err(d)) => r matches Err(e) && same_error(e, d),
                    Some(Ok(f)) => r matches Ok(o) && o.path@ == p && o.exists && o.content@
                        == if input.format == ConfigShowFormat::Json {
                        match f.json {
                            Some(j) => j@,
                            None => f.raw@,
                        }
                    } else {
                        f.raw@
                    },
                },
            }
        }),
{
    let path = match resolve_config_path(input.target, input.cwd.as_str(), config_dir) {
        Ok(p) => p,
        Err(e) => return Err(e),
    };
    match file {
        None => Err(missing_file_error(path.as_str())),
        Some(Err(e)) => Err(e),
        Some(Ok(f)) => {
            let content = match input.format {
                ConfigShowFormat::Json => match f.json {
                    Some(j) => j,
                    None => f.raw,
                },
                _ => f.raw,
            };
            Ok(ConfigShowOutput { path, exists: true, content })
        },
    }
}

} // verus!
