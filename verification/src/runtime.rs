//! What a run resolves: the available configuration layers, the registries
//! to load, the active configuration and the policy built from it.
use vstd::prelude::*;

use crate::check::opt_view;
use crate::config::base::merged;
use crate::config::defaults::is_empty_config;
use crate::config::env::EnvRegistryParams;
use crate::config::registry::{
    arg_view, reg_table, registry_spec_of, resolve_registry_spec, spec_view, RegistrySpec,
};
use crate::config::rules::{resolve_string_spec, RulesConfig};
use crate::config::tree::{tview, TomlView};
use crate::config::types::{BaseConfig, NamedRegistryConfig};
use crate::error::{context_view, Error};
use crate::policy::{policy_default, policy_of, Policy};
use crate::text::{concat2, concat3, owned, str_eq};

verus! {

/// The configuration a run uses.
#[derive(Debug)]
pub struct ResolvedConfig {
    /// The settings file that contributed to it, if any.
    pub path: Option<String>,
    /// The rules the settings were resolved with.
    pub rules: RulesConfig,
    /// The merged settings, rule references resolved.
    pub base: BaseConfig,
}

/// One configuration layer: its settings and its rules, each if present.
#[derive(Debug)]
pub struct AvailableConfig {
    pub rules: Option<RulesConfig>,
    pub base: Option<BaseConfig>,
}

/// A layer of the settings and rules found.
pub fn resolve_available_config(base: Option<BaseConfig>, rules: Option<RulesConfig>) -> (r:
    AvailableConfig)
    ensures
        r.base == base,
        r.rules == rules,
{
    AvailableConfig { rules, base }
}

/// A registry that was loaded.
#[derive(Debug)]
pub struct RegistryOptions {
    /// `url##ref`, or `url##ref/section` for a section.
    pub id: String,
    /// The name the settings give it (`cli` for one named only on the
    /// command line or in the environment).
    pub tag: String,
    pub url: String,
    pub ref_name: String,
    pub section: Option<String>,
    pub config: Option<AvailableConfig>,
    pub sections: Option<Vec<(String, AvailableConfig)>>,
    /// Whether this is the registry the run uses.
    pub is_active: bool,
}

/// Every configuration layer found.
#[derive(Debug)]
pub struct AvailableConfigOptions {
    pub cli_config: Option<AvailableConfig>,
    /// The layer the environment variables give.
    pub env_config: Option<AvailableConfig>,
    pub repo_config: Option<AvailableConfig>,
    pub global_config: Option<AvailableConfig>,
    pub registries: Vec<RegistryOptions>,
}

/// Whether no layer was found.
pub open spec fn no_layers(s: AvailableConfigOptions) -> bool {
    s.cli_config is None && s.env_config is None && s.repo_config is None && s.global_config is None
        && s.registries@.len() == 0
}

impl AvailableConfigOptions {
    /// No layer at all.
    pub fn new() -> (r: Self)
        ensures
            no_layers(r),
    {
        AvailableConfigOptions {
            cli_config: None,
            env_config: None,
            repo_config: None,
            global_config: None,
            registries: Vec::new(),
        }
    }

    /// Whether no layer was found.
    pub fn is_empty(&self) -> (r: bool)
        ensures
            r == no_layers(*self),
    {
        self.cli_config.is_none() && self.env_config.is_none() && self.repo_config.is_none()
            && self.global_config.is_none() && self.registries.len() == 0
    }

    /// Whether the command line named a settings file.
    pub fn has_cli_config(&self) -> (r: bool)
        ensures
            r == self.cli_config is Some,
    {
        self.cli_config.is_some()
    }

    /// Sets the layer of the settings file the command line named.
    pub fn set_cli_config(&mut self, config: AvailableConfig)
        ensures
            final(self).cli_config == Some(config),
            final(self).env_config == old(self).env_config,
            final(self).repo_config == old(self).repo_config,
            final(self).global_config == old(self).global_config,
            final(self).registries == old(self).registries,
    {
        self.cli_config = Some(config);
    }

    /// Whether a project settings file was found.
    pub fn has_repo_config(&self) -> (r: bool)
        ensures
            r == self.repo_config is Some,
    {
        self.repo_config.is_some()
    }

    /// Sets the layer of the project settings file.
    pub fn set_repo_config(&mut self, config: AvailableConfig)
        ensures
            final(self).repo_config == Some(config),
            final(self).cli_config == old(self).cli_config,
            final(self).env_config == old(self).env_config,
            final(self).global_config == old(self).global_config,
            final(self).registries == old(self).registries,
    {
        self.repo_config = Some(config);
    }

    /// Whether the global layer was looked up.
    pub fn has_global_config(&self) -> (r: bool)
        ensures
            r == self.global_config is Some,
    {
        self.global_config.is_some()
    }

    /// Sets the global layer.
    pub fn set_global_config(&mut self, config: AvailableConfig)
        ensures
            final(self).global_config == Some(config),
            final(self).cli_config == old(self).cli_config,
            final(self).env_config == old(self).env_config,
            final(self).repo_config == old(self).repo_config,
            final(self).registries == old(self).registries,
    {
        self.global_config = Some(config);
    }

    /// Whether any registry was loaded.
    pub fn has_registries(&self) -> (r: bool)
        ensures
            r == (self.registries@.len() > 0),
    {
        self.registries.len() > 0
    }

    /// How many registries were loaded.
    pub fn registry_count(&self) -> (r: usize)
        ensures
            r == self.registries@.len(),
    {
        self.registries.len()
    }
}

impl Default for AvailableConfigOptions {
    /// No layer at all.
    fn default() -> (r: Self)
        ensures
            no_layers(r),
    {
        Self::new()
    }
}

/// The global directories of the settings, the cache and the state.
#[derive(Debug, Clone)]
pub struct RuntimeGlobalPaths {
    pub config: String,
    pub cache: String,
    pub state: String,
}

impl RuntimeGlobalPaths {
    /// The three global directories, as they were looked up; the first
    /// lookup that failed fails the whole.
    pub fn new(
        config: Result<String, Error>,
        cache: Result<String, Error>,
        state: Result<String, Error>,
    ) -> (r: Result<Self, Error>)
        ensures
            match (config, cache, state) {
                (Ok(a), Ok(b), Ok(c)) => r matches Ok(p) && p.config == a && p.cache == b
                    && p.state == c,
                (Err(e), _, _) => r == Err::<Self, Error>(e),
                (Ok(_), Err(e), _) => r == Err::<Self, Error>(e),
                (Ok(_), Ok(_), Err(e)) => r == Err::<Self, Error>(e),
            },
    {
        let config = match config {
            Ok(c) => c,
            Err(e) => return Err(e),
        };
        let cache = match cache {
            Ok(c) => c,
            Err(e) => return Err(e),
        };
        let state = match state {
            Ok(c) => c,
            Err(e) => return Err(e),
        };
        Ok(RuntimeGlobalPaths { config, cache, state })
    }
}

/// Where a run takes place and what the command line named.
#[derive(Debug, Clone)]
pub struct RuntimePaths {
    pub cwd: String,
    pub global: RuntimeGlobalPaths,
    pub in_git_repo: bool,
    pub repo_root: Option<String>,
    pub explicit_config_path: Option<String>,
    pub explicit_registry: Option<String>,
    pub explicit_registry_ref: Option<String>,
    pub explicit_registry_section: Option<String>,
}

/// What a run resolved: the layers, the active configuration and the policy.
#[derive(Debug)]
pub struct RuntimeResolution {
    pub sources: AvailableConfigOptions,
    pub config: Option<ResolvedConfig>,
    pub policy: Policy,
}

impl RuntimeResolution {
    /// Nothing resolved yet: no layer, no configuration, the default policy.
    pub fn new() -> (r: Self)
        ensures
            no_layers(r.sources),
            r.config is None,
            policy_default(r.policy),
    {
        RuntimeResolution {
            sources: AvailableConfigOptions::new(),
            config: None,
            policy: Policy::default(),
        }
    }
}

/// The policy of the active configuration, or the default policy without one.
pub fn resolve_policy(config: Option<&ResolvedConfig>) -> (r: Policy)
    ensures
        match config {
            Some(c) => policy_of(r, c.base),
            None => policy_default(r),
        },
{
    match config {
        Some(c) => Policy::from_config(c),
        None => Policy::default(),
    }
}

// ---------------------------------------------------------------------------
// Layering settings
// ---------------------------------------------------------------------------
/// The settings of a layer, if any.
pub open spec fn base_of(a: Option<AvailableConfig>) -> Option<BaseConfig> {
    match a {
        Some(c) => c.base,
        None => None,
    }
}

/// The rules of a layer, if any.
pub open spec fn rules_of(a: Option<AvailableConfig>) -> Option<RulesConfig> {
    match a {
        Some(c) => c.rules,
        None => None,
    }
}

/// The empty settings.
pub open spec fn empty_base() -> BaseConfig {
    BaseConfig {
        commit: None,
        branch: None,
        pr: None,
        check: None,
        push: None,
        versioning: None,
        changelog: None,
        release: None,
        hooks: None,
        ai: None,
        registry: None,
        registries: None,
    }
}

/// Settings laid over lower ones, where there are any.
pub open spec fn layer(high: Option<BaseConfig>, low: BaseConfig) -> BaseConfig {
    match high {
        Some(h) => merged(h, low),
        None => low,
    }
}

/// The settings, or the empty settings.
pub open spec fn or_empty(b: Option<BaseConfig>) -> BaseConfig {
    match b {
        Some(x) => x,
        None => empty_base(),
    }
}

/// The empty settings.
fn empty_settings() -> (r: BaseConfig)
    ensures
        r == empty_base(),
{
    let r = BaseConfig::empty();
    assert(is_empty_config(r));
    r
}

/// Settings laid over lower ones.
fn layered(high: Option<BaseConfig>, low: BaseConfig) -> (r: BaseConfig)
    ensures
        r == layer(high, low),
{
    match high {
        Some(h) => h.merge(low),
        None => low,
    }
}

/// The settings a registry is chosen by: the global settings (or none)
/// under the project's, under the environment's, under the command line's.
pub open spec fn partial_base_spec(
    global: Option<BaseConfig>,
    env: Option<BaseConfig>,
    repo: Option<BaseConfig>,
    cli: Option<BaseConfig>,
) -> BaseConfig {
    layer(cli, layer(env, layer(repo, or_empty(global))))
}

/// The settings a registry is chosen by, from the settings of the global,
/// environment, project and command-line layers.
pub fn build_partial_config_for_registry(
    global: Option<BaseConfig>,
    env: Option<BaseConfig>,
    repo: Option<BaseConfig>,
    cli: Option<BaseConfig>,
) -> (r: BaseConfig)
    ensures
        r == partial_base_spec(global, env, repo, cli),
{
    let base = match global {
        Some(g) => g,
        None => empty_settings(),
    };
    let base = layered(repo, base);
    let base = layered(env, base);
    layered(cli, base)
}

/// The first rules of three that are present.
pub open spec fn first_rules(
    a: Option<RulesConfig>,
    b: Option<RulesConfig>,
    c: Option<RulesConfig>,
) -> Option<RulesConfig> {
    match a {
        Some(x) => Some(x),
        None => match b {
            Some(x) => Some(x),
            None => c,
        },
    }
}

/// The rules a registry URL is resolved with: the command line's, else the
/// project's, else the global ones.
pub fn build_partial_rules_for_registry(sources: &AvailableConfigOptions) -> (r: Option<
    &RulesConfig,
>)
    ensures
        match r {
            Some(x) => first_rules(
                rules_of(sources.cli_config),
                rules_of(sources.repo_config),
                rules_of(sources.global_config),
            ) == Some(*x),
            None => first_rules(
                rules_of(sources.cli_config),
                rules_of(sources.repo_config),
                rules_of(sources.global_config),
            ) is None,
        },
{
    if let Some(c) = &sources.cli_config {
        if let Some(r) = &c.rules {
            return Some(r);
        }
    }
    if let Some(c) = &sources.repo_config {
        if let Some(r) = &c.rules {
            return Some(r);
        }
    }
    if let Some(c) = &sources.global_config {
        if let Some(r) = &c.rules {
            return Some(r);
        }
    }
    None
}

// ---------------------------------------------------------------------------
// The registries to load
// ---------------------------------------------------------------------------
/// A registry by name: its name, URL, ref and section.
pub type NamedSpec = (Seq<char>, (Seq<char>, Seq<char>, Option<Seq<char>>));

/// A text with its rule reference resolved; `None` where it does not resolve.
pub open spec fn with_rules(rules: Option<RulesConfig>, u: Seq<char>) -> Option<Seq<char>> {
    match rules {
        Some(r) => resolve_string_spec(tview(r.0), u),
        None => Some(u),
    }
}

/// The registry an entry of a registry table gives: none without a URL or
/// where the URL's rule reference does not resolve; the ref is `HEAD` where
/// none is set, and only an explicit section counts.
pub open spec fn entry_spec(e: (String, NamedRegistryConfig), rules: Option<RulesConfig>) -> Option<
    NamedSpec,
> {
    match e.1.url {
        None => None,
        Some(u) => match with_rules(rules, u@) {
            None => None,
            Some(url) => Some(
                (
                    e.0@,
                    (
                        url,
                        match e.1.ref_name {
                            Some(x) => x@,
                            None => "HEAD"@,
                        },
                        opt_view(e.1.section),
                    ),
                ),
            ),
        },
    }
}

/// The registries a table gives, in its order.
pub open spec fn table_specs(t: Seq<(String, NamedRegistryConfig)>, rules: Option<RulesConfig>) -> Seq<
    NamedSpec,
>
    decreases t.len(),
{
    if t.len() == 0 {
        Seq::empty()
    } else {
        let rest = table_specs(t.drop_last(), rules);
        match entry_spec(t.last(), rules) {
            Some(x) => rest.push(x),
            None => rest,
        }
    }
}

/// The registries a layer's settings name.
pub open spec fn layer_specs(a: Option<AvailableConfig>) -> Seq<NamedSpec> {
    match a {
        Some(c) => match c.base {
            Some(b) => table_specs(reg_table(b), c.rules),
            None => Seq::empty(),
        },
        None => Seq::empty(),
    }
}

/// Whether a registry with that name and URL occurs among the first `n`.
pub open spec fn seen_before(s: Seq<NamedSpec>, n: int, name: Seq<char>, url: Seq<char>) -> bool {
    exists|j: int| 0 <= j < n && (#[trigger] s[j]).0 == name && s[j].1.0 == url
}

/// The registries with the first of each name and URL kept.
pub open spec fn dedup_specs(s: Seq<NamedSpec>) -> Seq<NamedSpec>
    decreases s.len(),
{
    if s.len() == 0 {
        s
    } else {
        let d = dedup_specs(s.drop_last());
        if seen_before(s, s.len() - 1, s.last().0, s.last().1.0) {
            d
        } else {
            d.push(s.last())
        }
    }
}

/// A registry by name as texts.
pub open spec fn named_view(e: (String, RegistrySpec)) -> NamedSpec {
    (e.0@, spec_view(e.1))
}

/// Registries by name as texts.
pub open spec fn named_views(v: Seq<(String, RegistrySpec)>) -> Seq<NamedSpec> {
    v.map_values(|e: (String, RegistrySpec)| named_view(e))
}

/// A name and URL occur after removing repeats exactly where they occurred.
proof fn lemma_dedup_seen(s: Seq<NamedSpec>, name: Seq<char>, url: Seq<char>)
    ensures
        seen_before(s, s.len() as int, name, url) <==> seen_before(
            dedup_specs(s),
            dedup_specs(s).len() as int,
            name,
            url,
        ),
    decreases s.len(),
{
    if s.len() > 0 {
        let p = s.drop_last();
        lemma_dedup_seen(p, name, url);
        let d = dedup_specs(p);
        if seen_before(s, s.len() as int, name, url) {
            let j = choose|j: int| 0 <= j < s.len() && (#[trigger] s[j]).0 == name && s[j].1.0 == url;
            if j < s.len() - 1 {
                assert(p[j] == s[j]);
                assert(seen_before(p, p.len() as int, name, url));
                let k = choose|k: int| 0 <= k < d.len() && (#[trigger] d[k]).0 == name && d[k].1.0 == url;
                if !seen_before(s, s.len() - 1, s.last().0, s.last().1.0) {
                    assert(d.push(s.last())[k] == d[k]);
                }
            } else {
                if seen_before(s, s.len() - 1, s.last().0, s.last().1.0) {
                    let i = choose|i: int| 0 <= i < s.len() - 1 && (#[trigger] s[i]).0 == s.last().0
                        && s[i].1.0 == s.last().1.0;
                    assert(p[i] == s[i]);
                    assert(seen_before(p, p.len() as int, name, url));
                } else {
                    let q = d.push(s.last());
                    assert(q[d.len() as int] == s.last());
                }
            }
        } else {
            if seen_before(p, p.len() as int, name, url) {
                let j = choose|j: int| 0 <= j < p.len() && (#[trigger] p[j]).0 == name && p[j].1.0 == url;
                assert(s[j] == p[j]);
            }
            if !seen_before(s, s.len() - 1, s.last().0, s.last().1.0) {
                let q = d.push(s.last());
                if seen_before(q, q.len() as int, name, url) {
                    let k = choose|k: int| 0 <= k < q.len() && (#[trigger] q[k]).0 == name && q[k].1.0 == url;
                    if k < d.len() {
                        assert(q[k] == d[k]);
                    } else {
                        assert(s[s.len() - 1] == s.last());
                    }
                }
            }
        }
    }
}

/// Removing repeats from a longer list extends the result for the shorter.
proof fn lemma_dedup_push(s: Seq<NamedSpec>, x: NamedSpec)
    ensures
        dedup_specs(s.push(x)) == if seen_before(s, s.len() as int, x.0, x.1.0) {
            dedup_specs(s)
        } else {
            dedup_specs(s).push(x)
        },
{
    let t = s.push(x);
    assert(t.drop_last() =~= s);
    assert(t.last() == x);
    if seen_before(s, s.len() as int, x.0, x.1.0) {
        let j = choose|j: int| 0 <= j < s.len() && (#[trigger] s[j]).0 == x.0 && s[j].1.0 == x.1.0;
        assert(t[j] == s[j]);
        assert(seen_before(t, t.len() - 1, t.last().0, t.last().1.0));
    } else {
        if seen_before(t, t.len() - 1, t.last().0, t.last().1.0) {
            let j = choose|j: int| 0 <= j < t.len() - 1 && (#[trigger] t[j]).0 == x.0 && t[j].1.0
                == x.1.0;
            assert(s[j] == t[j]);
        }
    }
}

/// The registry an entry gives.
fn entry_of(name: &String, reg: &NamedRegistryConfig, rules: &Option<RulesConfig>) -> (r: Option<
    (String, RegistrySpec),
>)
    ensures
        match r {
            Some(x) => entry_spec((*name, *reg), *rules) == Some(named_view(x)),
            None => entry_spec((*name, *reg), *rules) is None,
        },
{
    let u = match &reg.url {
        Some(u) => u,
        None => return None,
    };
    let url = match rules {
        Some(r) => match r.resolve_string(u.as_str()) {
            Ok(s) => s,
            Err(_) => return None,
        },
        None => u.clone(),
    };
    let ref_name = match &reg.ref_name {
        Some(x) => x.clone(),
        None => owned("HEAD"),
    };
    let section = match &reg.section {
        Some(x) => Some(x.clone()),
        None => None,
    };
    Some((name.clone(), RegistrySpec { url, ref_name, section }))
}

/// Whether a registry with that name and URL is already listed.
fn listed(out: &Vec<(String, RegistrySpec)>, name: &str, url: &str) -> (r: bool)
    ensures
        r == seen_before(named_views(out@), out@.len() as int, name@, url@),
{
    let ghost v = named_views(out@);
    let mut i: usize = 0;
    while i < out.len()
        invariant
            0 <= i <= out@.len(),
            v == named_views(out@),
            forall|j: int| 0 <= j < i ==> !((#[trigger] v[j]).0 == name@ && v[j].1.0 == url@),
        decreases out@.len() - i,
    {
        assert(v[i as int] == named_view(out@[i as int]));
        if str_eq(out[i].0.as_str(), name) && str_eq(out[i].1.url.as_str(), url) {
            assert(v[i as int].0 == name@ && v[i as int].1.0 == url@);
            return true;
        }
        i = i + 1;
    }
    false
}

/// Adds the registries of one layer, skipping a name and URL already listed.
fn add_layer_specs(
    out: &mut Vec<(String, RegistrySpec)>,
    layer_config: &Option<AvailableConfig>,
    Ghost(raw): Ghost<Seq<NamedSpec>>,
)
    requires
        named_views(old(out)@) == dedup_specs(raw),
    ensures
        named_views(final(out)@) == dedup_specs(raw + layer_specs(*layer_config)),
{
    let (table, rules) = match layer_config {
        Some(c) => match &c.base {
            Some(b) => match &b.registries {
                Some(t) => (t, &c.rules),
                None => {
                    assert(raw + layer_specs(*layer_config) =~= raw);
                    return ;
                },
            },
            None => {
                assert(raw + layer_specs(*layer_config) =~= raw);
                return ;
            },
        },
        None => {
            assert(raw + layer_specs(*layer_config) =~= raw);
            return ;
        },
    };
    let ghost rl = layer_config->Some_0.rules;
    assert(table@ == reg_table(layer_config->Some_0.base->Some_0));
    let mut i: usize = 0;
    assert(table@.take(0) =~= Seq::<(String, NamedRegistryConfig)>::empty());
    assert(raw + table_specs(table@.take(0), rl) =~= raw);
    while i < table.len()
        invariant
            0 <= i <= table@.len(),
            *rules == rl,
            named_views(out@) == dedup_specs(raw + table_specs(table@.take(i as int), rl)),
        decreases table@.len() - i,
    {
        let ghost before = raw + table_specs(table@.take(i as int), rl);
        assert(table@.take(i + 1).drop_last() =~= table@.take(i as int));
        assert(table@.take(i + 1).last() == table@[i as int]);
        match entry_of(&table[i].0, &table[i].1, rules) {
            Some(e) => {
                let seen = listed(out, e.0.as_str(), e.1.url.as_str());
                proof {
                    lemma_dedup_seen(before, e.0@, e.1.url@);
                    lemma_dedup_push(before, named_view(e));
                    assert(raw + table_specs(table@.take(i + 1), rl) =~= before.push(
                        named_view(e),
                    ));
                }
                if !seen {
                    let ghost old_out = out@;
                    out.push(e);
                    assert(named_views(out@) =~= named_views(old_out).push(named_view(e)));
                }
            },
            None => {
                assert(raw + table_specs(table@.take(i + 1), rl) =~= before);
            },
        }
        i = i + 1;
    }
    assert(table@.take(table@.len() as int) =~= table@);
}

/// The registries the global and then the project settings name, the first
/// of each name and URL kept.
pub fn collect_all_registry_specs(sources: &AvailableConfigOptions) -> (r: Vec<(String, RegistrySpec)>)
    ensures
        named_views(r@) == dedup_specs(
            layer_specs(sources.global_config) + layer_specs(sources.repo_config),
        ),
{
    let mut out: Vec<(String, RegistrySpec)> = Vec::new();
    assert(named_views(out@) =~= dedup_specs(Seq::<NamedSpec>::empty()));
    add_layer_specs(&mut out, &sources.global_config, Ghost(Seq::empty()));
    assert(Seq::<NamedSpec>::empty() + layer_specs(sources.global_config) =~= layer_specs(
        sources.global_config,
    ));
    add_layer_specs(&mut out, &sources.repo_config, Ghost(layer_specs(sources.global_config)));
    out
}

/// A registry spec as texts, by its parts.
pub type SpecTexts = (Seq<char>, Seq<char>, Option<Seq<char>>);

/// The registry the run uses, its URL's rule reference resolved where it
/// resolves.
pub open spec fn active_spec_of(
    cli_url: Option<Seq<char>>,
    cli_ref: Option<Seq<char>>,
    cli_section: Option<Seq<char>>,
    partial: BaseConfig,
    env: EnvRegistryParams,
    rules: Option<RulesConfig>,
) -> Option<SpecTexts> {
    match registry_spec_of(cli_url, cli_ref, cli_section, Some(partial), env) {
        None => None,
        Some((u, rf, sec)) => Some(
            (
                match with_rules(rules, u) {
                    Some(x) => x,
                    None => u,
                },
                rf,
                sec,
            ),
        ),
    }
}

/// Two registries with the same URL and ref.
pub open spec fn same_target(a: SpecTexts, b: SpecTexts) -> bool {
    a.0 == b.0 && a.1 == b.1
}

/// The registries to load: those the settings name, and the active one
/// under the name `cli` where none of them has its URL and ref.
pub open spec fn pool_spec(specs: Seq<NamedSpec>, active: Option<SpecTexts>) -> Seq<NamedSpec> {
    match active {
        None => specs,
        Some(a) => if exists|i: int| 0 <= i < specs.len() && same_target((#[trigger] specs[i]).1, a) {
            specs
        } else {
            specs.push(("cli"@, a))
        },
    }
}

/// The identifier of a registry: `url##ref`, or `url##ref/section`.
pub open spec fn registry_id_spec(s: SpecTexts) -> Seq<char> {
    match s.2 {
        Some(sec) => s.0 + "##"@ + s.1 + "/"@ + sec,
        None => s.0 + "##"@ + s.1,
    }
}

/// One registry to load: its name, what to load (the active registry's
/// fuller spec where it is that one), whether it is active, its identifier.
pub open spec fn planned_spec(e: NamedSpec, active: Option<SpecTexts>) -> (
    Seq<char>,
    SpecTexts,
    bool,
    Seq<char>,
) {
    let m = match active {
        Some(a) => same_target(e.1, a),
        None => false,
    };
    let load = if m {
        active->Some_0
    } else {
        e.1
    };
    (e.0, load, m, registry_id_spec(load))
}

/// A registry to load.
#[derive(Debug, Clone)]
pub struct PlannedRegistry {
    pub name: String,
    pub spec: RegistrySpec,
    pub is_active: bool,
    pub id: String,
}

/// A registry to load as texts.
pub open spec fn planned_view(p: PlannedRegistry) -> (Seq<char>, SpecTexts, bool, Seq<char>) {
    (p.name@, spec_view(p.spec), p.is_active, p.id@)
}

/// A copy of a registry spec.
fn copy_spec(s: &RegistrySpec) -> (r: RegistrySpec)
    ensures
        spec_view(r) == spec_view(*s),
{
    RegistrySpec {
        url: s.url.clone(),
        ref_name: s.ref_name.clone(),
        section: match &s.section {
            Some(x) => Some(x.clone()),
            None => None,
        },
    }
}

/// The identifier of a registry.
fn registry_id(s: &RegistrySpec) -> (r: String)
    ensures
        r@ == registry_id_spec(spec_view(*s)),
{
    let head = concat3(s.url.as_str(), "##", s.ref_name.as_str());
    match &s.section {
        Some(sec) => {
            let r = concat3(head.as_str(), "/", sec.as_str());
            assert(r@ =~= s.url@ + "##"@ + s.ref_name@ + "/"@ + sec@);
            r
        },
        None => head,
    }
}

/// The registry a run uses and every registry to load, in order: the
/// active one is chosen by the command line, the environment and the
/// `partial` settings; its URL's rule reference is resolved with the
/// highest-precedence rules where it resolves; the registries the global and
/// project settings name follow, the first of each name and URL kept, and
/// the active one is added as `cli` where none of them has its URL and ref.
pub fn plan_registry_loads(
    sources: &AvailableConfigOptions,
    partial: &BaseConfig,
    cli_url: Option<&str>,
    cli_ref: Option<&str>,
    cli_section: Option<&str>,
    env_params: &EnvRegistryParams,
) -> (r: (Option<RegistrySpec>, Vec<PlannedRegistry>))
    ensures
        ({
            let active = active_spec_of(
                arg_view(cli_url),
                arg_view(cli_ref),
                arg_view(cli_section),
                *partial,
                *env_params,
                first_rules(
                    rules_of(sources.cli_config),
                    rules_of(sources.repo_config),
                    rules_of(sources.global_config),
                ),
            );
            let pool = pool_spec(
                dedup_specs(layer_specs(sources.global_config) + layer_specs(sources.repo_config)),
                active,
            );
            &&& match r.0 {
                Some(s) => active == Some(spec_view(s)),
                None => active is None,
            }
            &&& r.1@.len() == pool.len()
            &&& forall|i: int|
                0 <= i < pool.len() ==> planned_view(#[trigger] r.1@[i]) == planned_spec(
                    pool[i],
                    active,
                )
        }),
{
    let rules = build_partial_rules_for_registry(sources);
    let ghost rules_v = first_rules(
        rules_of(sources.cli_config),
        rules_of(sources.repo_config),
        rules_of(sources.global_config),
    );
    let active = match resolve_registry_spec(
        cli_url,
        cli_ref,
        cli_section,
        Some(partial),
        env_params,
    ) {
        None => None,
        Some(mut spec) => {
            if let Some(r) = rules {
                if let Ok(resolved) = r.resolve_string(spec.url.as_str()) {
                    spec.url = resolved;
                }
            }
            Some(spec)
        },
    };
    let ghost active_v = active_spec_of(
        arg_view(cli_url),
        arg_view(cli_ref),
        arg_view(cli_section),
        *partial,
        *env_params,
        rules_v,
    );
    assert(match active {
        Some(s) => active_v == Some(spec_view(s)),
        None => active_v is None,
    });
    let mut specs = collect_all_registry_specs(sources);
    let ghost collected = named_views(specs@);
    if let Some(a) = &active {
        let mut present = false;
        let mut i: usize = 0;
        while i < specs.len()
            invariant
                0 <= i <= specs@.len(),
                collected == named_views(specs@),
                present <==> exists|j: int|
                    0 <= j < i && same_target((#[trigger] collected[j]).1, spec_view(*a)),
            decreases specs@.len() - i,
        {
            assert(collected[i as int] == named_view(specs@[i as int]));
            if str_eq(specs[i].1.url.as_str(), a.url.as_str()) && str_eq(
                specs[i].1.ref_name.as_str(),
                a.ref_name.as_str(),
            ) {
                present = true;
            }
            i = i + 1;
        }
        if !present {
            specs.push((owned("cli"), copy_spec(a)));
            assert(named_views(specs@) =~= collected.push(("cli"@, spec_view(*a))));
        }
    }
    let ghost pool = named_views(specs@);
    assert(pool == pool_spec(collected, active_v));
    let mut plans: Vec<PlannedRegistry> = Vec::new();
    let mut i: usize = 0;
    while i < specs.len()
        invariant
            0 <= i <= specs@.len(),
            pool == named_views(specs@),
            match active {
                Some(s) => active_v == Some(spec_view(s)),
                None => active_v is None,
            },
            plans@.len() == i,
            forall|j: int|
                0 <= j < i ==> planned_view(#[trigger] plans@[j]) == planned_spec(
                    pool[j],
                    active_v,
                ),
        decreases specs@.len() - i,
    {
        assert(pool[i as int] == named_view(specs@[i as int]));
        let (name, spec) = (&specs[i].0, &specs[i].1);
        let is_active = match &active {
            Some(a) => str_eq(spec.url.as_str(), a.url.as_str()) && str_eq(
                spec.ref_name.as_str(),
                a.ref_name.as_str(),
            ),
            None => false,
        };
        let load = if is_active {
            match &active {
                Some(a) => copy_spec(a),
                None => copy_spec(spec),
            }
        } else {
            copy_spec(spec)
        };
        let id = registry_id(&load);
        plans.push(PlannedRegistry { name: name.clone(), spec: load, is_active, id });
        i = i + 1;
    }
    (active, plans)
}

/// The entry of a registry that was loaded with its configuration.
pub fn registry_entry(plan: PlannedRegistry, config: AvailableConfig) -> (r: RegistryOptions)
    ensures
        r.id == plan.id,
        r.tag == plan.name,
        r.url == plan.spec.url,
        r.ref_name == plan.spec.ref_name,
        r.section == plan.spec.section,
        r.config == Some(config),
        r.sections is None,
        r.is_active == plan.is_active,
{
    RegistryOptions {
        id: plan.id,
        tag: plan.name,
        url: plan.spec.url,
        ref_name: plan.spec.ref_name,
        section: plan.spec.section,
        config: Some(config),
        sections: None,
        is_active: plan.is_active,
    }
}

/// The entry a planned registry gets once loaded with `config`.
pub open spec fn loaded_entry(plan: PlannedRegistry, config: AvailableConfig) -> RegistryOptions {
    RegistryOptions {
        id: plan.id,
        tag: plan.name,
        url: plan.spec.url,
        ref_name: plan.spec.ref_name,
        section: plan.spec.section,
        config: Some(config),
        sections: None,
        is_active: plan.is_active,
    }
}

/// The entries of the registries that loaded, in plan order; a registry
/// whose load failed (`None`) gets none.
pub open spec fn loaded_entries(
    plans: Seq<PlannedRegistry>,
    loads: Seq<Option<AvailableConfig>>,
) -> Seq<RegistryOptions>
    decreases plans.len(),
{
    if plans.len() == 0 || loads.len() == 0 {
        Seq::empty()
    } else {
        let rest = loaded_entries(plans.drop_first(), loads.drop_first());
        match loads[0] {
            Some(c) => seq![loaded_entry(plans[0], c)] + rest,
            None => rest,
        }
    }
}

/// Where the active registry of a plan loaded, the recorded entries hold an
/// active one.
pub proof fn lemma_loaded_active(plans: Seq<PlannedRegistry>, loads: Seq<Option<AvailableConfig>>, k: int)
    requires
        plans.len() == loads.len(),
        0 <= k < plans.len(),
        plans[k].is_active,
        loads[k] is Some,
    ensures
        exists|j: int|
            0 <= j < loaded_entries(plans, loads).len() && (#[trigger] loaded_entries(
                plans,
                loads,
            )[j]).is_active,
    decreases plans.len(),
{
    let rest = loaded_entries(plans.drop_first(), loads.drop_first());
    if k == 0 {
        assert(loaded_entries(plans, loads)[0].is_active);
    } else {
        lemma_loaded_active(plans.drop_first(), loads.drop_first(), k - 1);
        let j = choose|j: int| 0 <= j < rest.len() && (#[trigger] rest[j]).is_active;
        match loads[0] {
            Some(c) => {
                assert(loaded_entries(plans, loads)[j + 1] == rest[j]);
            },
            None => {
                assert(loaded_entries(plans, loads)[j] == rest[j]);
            },
        }
    }
}

/// Every recorded entry is the entry of a planned registry that loaded.
proof fn lemma_loaded_entries_from(plans: Seq<PlannedRegistry>, loads: Seq<Option<AvailableConfig>>)
    requires
        plans.len() == loads.len(),
    ensures
        forall|j: int|
            #![trigger loaded_entries(plans, loads)[j]]
            0 <= j < loaded_entries(plans, loads).len() ==> exists|k: int|
                0 <= k < plans.len() && (#[trigger] loads[k]) is Some && loaded_entries(
                    plans,
                    loads,
                )[j] == loaded_entry(plans[k], loads[k]->Some_0),
    decreases plans.len(),
{
    if plans.len() > 0 {
        let pt = plans.drop_first();
        let lt = loads.drop_first();
        lemma_loaded_entries_from(pt, lt);
        let rest = loaded_entries(pt, lt);
        let all = loaded_entries(plans, loads);
        assert forall|j: int| #![trigger all[j]] 0 <= j < all.len() implies exists|k: int|
            0 <= k < plans.len() && (#[trigger] loads[k]) is Some && all[j] == loaded_entry(
                plans[k],
                loads[k]->Some_0,
            ) by {
            match loads[0] {
                Some(c) => {
                    if j == 0 {
                        assert(loads[0] is Some && all[0] == loaded_entry(plans[0], loads[0]->Some_0));
                    } else {
                        assert(all[j] == rest[j - 1]);
                        let k = choose|k: int|
                            0 <= k < pt.len() && (#[trigger] lt[k]) is Some && rest[j - 1]
                                == loaded_entry(pt[k], lt[k]->Some_0);
                        assert(loads[k + 1] == lt[k] && plans[k + 1] == pt[k]);
                    }
                },
                None => {
                    assert(all[j] == rest[j]);
                    let k = choose|k: int|
                        0 <= k < pt.len() && (#[trigger] lt[k]) is Some && rest[j] == loaded_entry(
                            pt[k],
                            lt[k]->Some_0,
                        );
                    assert(loads[k + 1] == lt[k] && plans[k + 1] == pt[k]);
                },
            }
        }
    }
}

/// What a registry resolution ends with: the registries already known stay
/// first and unchanged, then one entry per registry that loaded, in plan
/// order. Each new entry carries its configuration and no sections; it is
/// active exactly where its URL and ref are the active registry's; its
/// identifier is `url##ref`, or `url##ref/section`. Where a registry is
/// active its plan holds an active entry, and where that one loaded, an
/// active entry is recorded. `plans` is the plan `plan_registry_loads` makes
/// of `pool` for the `active` registry, and `loads[i]` what loading
/// `plans[i]` gave.
pub proof fn lemma_registry_sources(
    known: Seq<RegistryOptions>,
    specs: Seq<NamedSpec>,
    active: Option<SpecTexts>,
    plans: Seq<PlannedRegistry>,
    loads: Seq<Option<AvailableConfig>>,
)
    requires
        plans.len() == pool_spec(specs, active).len(),
        loads.len() == plans.len(),
        forall|i: int|
            0 <= i < plans.len() ==> planned_view(#[trigger] plans[i]) == planned_spec(
                pool_spec(specs, active)[i],
                active,
            ),
    ensures
        ({
            let after = known + loaded_entries(plans, loads);
            &&& after.take(known.len() as int) == known
            &&& forall|j: int|
                known.len() <= j < after.len() ==> {
                    let e = #[trigger] after[j];
                    &&& e.config is Some
                    &&& e.sections is None
                    &&& e.is_active == (active matches Some(a) && e.url@ == a.0 && e.ref_name@
                        == a.1)
                    &&& e.id@ == registry_id_spec((e.url@, e.ref_name@, opt_view(e.section)))
                }
            &&& active is Some ==> exists|k: int| 0 <= k < plans.len() && (#[trigger] plans[k]).is_active
            &&& forall|k: int|
                0 <= k < plans.len() && (#[trigger] plans[k]).is_active && loads[k] is Some
                    ==> exists|j: int| known.len() <= j < after.len() && (#[trigger] after[j]).is_active
        }),
{
    let pool = pool_spec(specs, active);
    let added = loaded_entries(plans, loads);
    let after = known + added;
    lemma_loaded_entries_from(plans, loads);
    assert(after.take(known.len() as int) =~= known);
    assert forall|j: int| known.len() <= j < after.len() implies {
        let e = #[trigger] after[j];
        &&& e.config is Some
        &&& e.sections is None
        &&& e.is_active == (active matches Some(a) && e.url@ == a.0 && e.ref_name@ == a.1)
        &&& e.id@ == registry_id_spec((e.url@, e.ref_name@, opt_view(e.section)))
    } by {
        assert(after[j] == added[j - known.len()]);
        let k = choose|k: int|
            0 <= k < plans.len() && (#[trigger] loads[k]) is Some && added[j - known.len()]
                == loaded_entry(plans[k], loads[k]->Some_0);
        assert(planned_view(plans[k]) == planned_spec(pool[k], active));
    }
    if active is Some {
        let a = active->Some_0;
        let k = if exists|i: int| 0 <= i < specs.len() && same_target((#[trigger] specs[i]).1, a) {
            choose|i: int| 0 <= i < specs.len() && same_target((#[trigger] specs[i]).1, a)
        } else {
            specs.len() as int
        };
        assert(same_target(pool[k].1, a));
        assert(planned_view(plans[k]) == planned_spec(pool[k], active));
        assert(plans[k].is_active);
    }
    assert forall|k: int|
        0 <= k < plans.len() && (#[trigger] plans[k]).is_active && loads[k] is Some implies exists|j: int|
        known.len() <= j < after.len() && (#[trigger] after[j]).is_active by {
        lemma_loaded_active(plans, loads, k);
        let j = choose|j: int| 0 <= j < added.len() && (#[trigger] added[j]).is_active;
        assert(after[known.len() + j] == added[j]);
    }
}

/// Adds to the registry sources one entry per registry that loaded, in plan
/// order: `loads[i]` is what loading `plans[i]` gave (`None` for a failed
/// load); the sources already there stay first and unchanged.
pub fn record_loads(
    registries: &mut Vec<RegistryOptions>,
    plans: Vec<PlannedRegistry>,
    loads: Vec<Option<AvailableConfig>>,
)
    requires
        plans@.len() == loads@.len(),
    ensures
        final(registries)@ == old(registries)@ + loaded_entries(plans@, loads@),
{
    let ghost p0 = plans@;
    let ghost l0 = loads@;
    let mut plans = plans;
    let mut loads = loads;
    let ghost start = registries@;
    let n = plans.len();
    let mut done: usize = 0;
    while plans.len() > 0
        invariant
            p0.len() == n,
            plans@.len() == loads@.len(),
            done + plans@.len() == p0.len(),
            p0.len() == l0.len(),
            plans@ == p0.skip(done as int),
            loads@ == l0.skip(done as int),
            start + loaded_entries(p0, l0) == registries@ + loaded_entries(
                p0.skip(done as int),
                l0.skip(done as int),
            ),
        decreases plans@.len(),
    {
        let ghost ps = p0.skip(done as int);
        let ghost ls = l0.skip(done as int);
        let plan = plans.remove(0);
        let load = loads.remove(0);
        proof {
            assert(plan == ps[0]);
            assert(load == ls[0]);
            assert(ps.drop_first() =~= p0.skip(done + 1));
            assert(ls.drop_first() =~= l0.skip(done + 1));
            assert(plans@ =~= p0.skip(done + 1));
            assert(loads@ =~= l0.skip(done + 1));
        }
        let ghost before = registries@;
        match load {
            Some(c) => {
                registries.push(registry_entry(plan, c));
                proof {
                    assert(registries@ =~= before.push(loaded_entry(ps[0], ls[0]->Some_0)));
                    assert(before + loaded_entries(ps, ls) =~= registries@ + loaded_entries(
                        p0.skip(done + 1),
                        l0.skip(done + 1),
                    ));
                }
            },
            None => {},
        }
        done = done + 1;
    }
    proof {
        assert(p0.skip(done as int).len() == 0);
        assert(registries@ + loaded_entries(p0.skip(done as int), l0.skip(done as int))
            =~= registries@);
    }
}

// ---------------------------------------------------------------------------
// The active configuration
// ---------------------------------------------------------------------------
/// Index of the first active registry, or -1.
pub open spec fn active_index(regs: Seq<RegistryOptions>) -> int
    decreases regs.len(),
{
    if regs.len() == 0 {
        -1
    } else {
        let r = active_index(regs.drop_last());
        if r >= 0 {
            r
        } else if regs.last().is_active {
            regs.len() - 1
        } else {
            -1
        }
    }
}

/// The layer of the active registry, if any.
pub open spec fn active_layer(regs: Seq<RegistryOptions>) -> Option<AvailableConfig> {
    let i = active_index(regs);
    if i >= 0 {
        regs[i].config
    } else {
        None
    }
}

/// Whether `r` is the given rules, or empty rules where none are given.
pub open spec fn rules_or_empty(given: Option<RulesConfig>, r: RulesConfig) -> bool {
    match given {
        Some(x) => r == x,
        None => tview(r.0) == TomlView::Table(Seq::empty()),
    }
}

/// What the active configuration is made of, from the layers, highest first:
/// command line, environment, project, registry, global. With a registry,
/// project or command-line layer, the registry's settings (or none) under the
/// project's, under the environment's, under the command line's, and the
/// rules of the command line, else the project, else the registry, else the
/// global ones. Without them, the environment's settings over the global
/// ones with the global rules; the environment's alone with empty rules; and
/// with no layer at all, nothing.
pub open spec fn active_config_holds(s: AvailableConfigOptions, r: Option<(BaseConfig, RulesConfig)>) -> bool {
    let reg = active_layer(s.registries@);
    let env = base_of(s.env_config);
    let any = base_of(reg) is Some || base_of(s.repo_config) is Some || base_of(s.cli_config) is Some;
    if any {
        r matches Some((b, ru)) && b == layer(
            base_of(s.cli_config),
            layer(env, layer(base_of(s.repo_config), or_empty(base_of(reg)))),
        ) && rules_or_empty(
            first_rules(
                rules_of(s.cli_config),
                rules_of(s.repo_config),
                first_rules(rules_of(reg), rules_of(s.global_config), None),
            ),
            ru,
        )
    } else {
        match base_of(s.global_config) {
            Some(g) => r matches Some((b, ru)) && b == layer(env, g) && rules_or_empty(
                rules_of(s.global_config),
                ru,
            ),
            None => match env {
                Some(e) => r matches Some((b, ru)) && b == e && rules_or_empty(None, ru),
                None => r is None,
            },
        }
    }
}

/// Index of the first active registry.
fn find_active(regs: &Vec<RegistryOptions>) -> (r: Option<usize>)
    ensures
        match r {
            Some(i) => i < regs@.len() && active_index(regs@) == i,
            None => active_index(regs@) < 0,
        },
{
    let mut i: usize = 0;
    while i < regs.len()
        invariant
            0 <= i <= regs@.len(),
            active_index(regs@.take(i as int)) < 0,
        decreases regs@.len() - i,
    {
        assert(regs@.take(i + 1).drop_last() =~= regs@.take(i as int));
        if regs[i].is_active {
            proof {
                lemma_active_index_prefix(regs@, i as int + 1);
            }
            return Some(i);
        }
        i = i + 1;
    }
    assert(regs@.take(regs@.len() as int) =~= regs@);
    None
}

/// Once a prefix holds an active registry, the whole list has it there.
proof fn lemma_active_index_prefix(regs: Seq<RegistryOptions>, n: int)
    requires
        0 <= n <= regs.len(),
        active_index(regs.take(n)) >= 0,
    ensures
        active_index(regs) == active_index(regs.take(n)),
    decreases regs.len() - n,
{
    if n < regs.len() {
        assert(regs.take(n + 1).drop_last() =~= regs.take(n));
        lemma_active_index_prefix(regs, n + 1);
    } else {
        assert(regs.take(n) =~= regs);
    }
}

/// The first rules of a layer, as taken out of it.
fn take_rules(a: &mut Option<AvailableConfig>) -> (r: Option<RulesConfig>)
    ensures
        r == rules_of(*old(a)),
        base_of(*final(a)) == base_of(*old(a)),
{
    match a {
        Some(c) => {
            let r = c.rules.take();
            r
        },
        None => None,
    }
}

/// The settings of a layer, as taken out of it.
fn take_base(a: &mut Option<AvailableConfig>) -> (r: Option<BaseConfig>)
    ensures
        r == base_of(*old(a)),
        rules_of(*final(a)) == rules_of(*old(a)),
{
    match a {
        Some(c) => {
            let r = c.base.take();
            r
        },
        None => None,
    }
}

/// Rules, or empty rules.
fn rules_or_default(r: Option<RulesConfig>) -> (x: RulesConfig)
    ensures
        rules_or_empty(r, x),
{
    match r {
        Some(x) => x,
        None => RulesConfig::default(),
    }
}

/// The settings and rules the active configuration is made of (before the
/// rule references in the settings are resolved); `None` where there is no
/// layer, and the run keeps the default policy.
pub fn select_active_config(sources: AvailableConfigOptions) -> (r: Option<(BaseConfig, RulesConfig)>)
    ensures
        active_config_holds(sources, r),
{
    let ghost s = sources;
    let AvailableConfigOptions {
        mut cli_config,
        mut env_config,
        mut repo_config,
        mut global_config,
        mut registries,
    } = sources;
    let mut reg: Option<AvailableConfig> = match find_active(&registries) {
        Some(i) => {
            let entry = registries.remove(i);
            entry.config
        },
        None => None,
    };
    assert(reg == active_layer(s.registries@));
    let reg_base = take_base(&mut reg);
    let repo_base = take_base(&mut repo_config);
    let cli_base = take_base(&mut cli_config);
    let env_base = take_base(&mut env_config);
    let global_base = take_base(&mut global_config);
    if reg_base.is_some() || repo_base.is_some() || cli_base.is_some() {
        let base = match reg_base {
            Some(b) => b,
            None => empty_settings(),
        };
        let base = layered(repo_base, base);
        let base = layered(env_base, base);
        let base = layered(cli_base, base);
        let cli_rules = take_rules(&mut cli_config);
        let repo_rules = take_rules(&mut repo_config);
        let reg_rules = take_rules(&mut reg);
        let global_rules = take_rules(&mut global_config);
        let chosen = match cli_rules {
            Some(x) => Some(x),
            None => match repo_rules {
                Some(x) => Some(x),
                None => match reg_rules {
                    Some(x) => Some(x),
                    None => global_rules,
                },
            },
        };
        Some((base, rules_or_default(chosen)))
    } else {
        match global_base {
            Some(g) => {
                let rules = take_rules(&mut global_config);
                Some((layered(env_base, g), rules_or_default(rules)))
            },
            None => match env_base {
                Some(e) => Some((e, rules_or_default(None))),
                None => None,
            },
        }
    }
}

/// The active configuration of resolved settings and the rules they were
/// resolved with, and its policy.
pub fn finish_resolution(path: Option<String>, rules: RulesConfig, base: BaseConfig) -> (r: (
    ResolvedConfig,
    Policy,
))
    ensures
        r.0.path == path,
        r.0.rules == rules,
        r.0.base == base,
        policy_of(r.1, base),
{
    let config = ResolvedConfig { path, rules, base };
    let policy = resolve_policy(Some(&config));
    (config, policy)
}

} // verus!
