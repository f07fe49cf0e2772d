//! The documents as they are written to disk: a settings file with an
//! optional schema version, and a project file that may also hold rules.
use vstd::prelude::*;

use crate::config::defaults::{is_empty_config, is_standard_preset};
use crate::config::rules::RulesConfig;
use crate::config::tree::{tview, TomlView};
use crate::config::types::BaseConfig;

verus! {

/// A document with an optional schema version beside its body.
#[derive(Debug)]
pub struct Versioned<T> {
    pub version: Option<u32>,
    pub inner: T,
}

/// The body of a project file: its settings and, optionally, its rules.
#[derive(Debug)]
pub struct ProjectBody {
    pub config: BaseConfig,
    pub rules: Option<RulesConfig>,
}

/// A global or registry settings file.
pub type StandardConfig = Versioned<BaseConfig>;

/// A project settings file.
pub type ProjectConfig = Versioned<ProjectBody>;

/// Which preset a fresh document holds.
#[derive(Debug, Clone, Copy, PartialEq, Eq, Structural)]
pub enum ConfigSpec {
    Minimal,
    Standard,
    Full,
}

/// The settings of a preset, as `BaseConfig`'s presets describe them.
pub open spec fn preset_holds(p: ConfigSpec, c: BaseConfig) -> bool {
    match p {
        ConfigSpec::Minimal => is_empty_config(c),
        ConfigSpec::Standard => is_standard_preset(c) && c.registry is None && c.registries is None,
        ConfigSpec::Full => is_standard_preset(c) && (c.registry matches Some(g)
            && crate::check::opt_view(g.use_registry) == Some(Seq::<char>::empty())
            && g.section is None) && (c.registries matches Some(m) && m@.len() == 0),
    }
}

/// The settings of a preset.
pub fn preset_config(p: ConfigSpec) -> (r: BaseConfig)
    ensures
        preset_holds(p, r),
{
    match p {
        ConfigSpec::Minimal => BaseConfig::minimal(),
        ConfigSpec::Standard => BaseConfig::standard(),
        ConfigSpec::Full => BaseConfig::full(),
    }
}

impl Versioned<BaseConfig> {
    /// The empty settings file, without a version.
    pub fn minimal() -> (r: Self)
        ensures
            r.version is None,
            preset_holds(ConfigSpec::Minimal, r.inner),
    {
        Versioned { version: None, inner: preset_config(ConfigSpec::Minimal) }
    }

    /// The standard settings file, without a version.
    pub fn standard() -> (r: Self)
        ensures
            r.version is None,
            preset_holds(ConfigSpec::Standard, r.inner),
    {
        Versioned { version: None, inner: preset_config(ConfigSpec::Standard) }
    }

    /// The full settings file, without a version.
    pub fn full() -> (r: Self)
        ensures
            r.version is None,
            preset_holds(ConfigSpec::Full, r.inner),
    {
        Versioned { version: None, inner: preset_config(ConfigSpec::Full) }
    }
}

impl Versioned<ProjectBody> {
    /// The empty project file: no version, no rules.
    pub fn minimal() -> (r: Self)
        ensures
            r.version is None,
            r.inner.rules is None,
            preset_holds(ConfigSpec::Minimal, r.inner.config),
    {
        Versioned {
            version: None,
            inner: ProjectBody { config: preset_config(ConfigSpec::Minimal), rules: None },
        }
    }

    /// The standard project file: no version, no rules.
    pub fn standard() -> (r: Self)
        ensures
            r.version is None,
            r.inner.rules is None,
            preset_holds(ConfigSpec::Standard, r.inner.config),
    {
        Versioned {
            version: None,
            inner: ProjectBody { config: preset_config(ConfigSpec::Standard), rules: None },
        }
    }

    /// The full project file: no version, no rules.
    pub fn full() -> (r: Self)
        ensures
            r.version is None,
            r.inner.rules is None,
            preset_holds(ConfigSpec::Full, r.inner.config),
    {
        Versioned {
            version: None,
            inner: ProjectBody { config: preset_config(ConfigSpec::Full), rules: None },
        }
    }
}

/// A project file of a preset, with empty rules when asked for.
pub fn project_document(p: ConfigSpec, with_rules: bool) -> (r: ProjectConfig)
    ensures
        r.version is None,
        preset_holds(p, r.inner.config),
        if with_rules {
            r.inner.rules matches Some(x) && tview(x.0) == TomlView::Table(Seq::empty())
        } else {
            r.inner.rules is None
        },
{
    let mut doc = match p {
        ConfigSpec::Minimal => ProjectConfig::minimal(),
        ConfigSpec::Standard => ProjectConfig::standard(),
        ConfigSpec::Full => ProjectConfig::full(),
    };
    if with_rules {
        doc.inner.rules = Some(RulesConfig::default());
    }
    doc
}

/// A settings file of a preset.
pub fn standard_document(p: ConfigSpec) -> (r: StandardConfig)
    ensures
        r.version is None,
        preset_holds(p, r.inner),
{
    match p {
        ConfigSpec::Minimal => StandardConfig::minimal(),
        ConfigSpec::Standard => StandardConfig::standard(),
        ConfigSpec::Full => StandardConfig::full(),
    }
}

} // verus!
