use commit_wizard::config::env::EnvRegistryParams;
use commit_wizard::config::registry::RegistrySpec;
use commit_wizard::config::rules::RulesConfig;
use commit_wizard::config::tree::TomlValue;
use commit_wizard::config::types::{BaseConfig, BranchConfig, NamedRegistryConfig, RegistryConfig};
use commit_wizard::error::ErrorCode;
use commit_wizard::runtime::{
    build_partial_config_for_registry, build_partial_rules_for_registry, collect_all_registry_specs,
    finish_resolution, plan_registry_loads, registry_entry, resolve_available_config, resolve_policy,
    select_active_config, AvailableConfig, AvailableConfigOptions, PlannedRegistry, RegistryOptions,
    RuntimeGlobalPaths, RuntimeResolution,
};

fn with_remote(remote: &str) -> BaseConfig {
    let mut b = BaseConfig::empty();
    b.branch = Some(BranchConfig { remote: Some(remote.to_string()), protected: None, naming: None });
    b
}

fn with_registries(entries: &[(&str, Option<&str>, Option<&str>)]) -> BaseConfig {
    let mut b = BaseConfig::empty();
    b.registries = Some(
        entries
            .iter()
            .map(|(name, url, r)| {
                (
                    name.to_string(),
                    NamedRegistryConfig {
                        url: url.map(|u| u.to_string()),
                        ref_name: r.map(|x| x.to_string()),
                        section: None,
                        sections: None,
                    },
                )
            })
            .collect(),
    );
    b
}

fn rules(pairs: &[(&str, &str)]) -> RulesConfig {
    let mut t: Vec<(String, TomlValue)> =
        pairs.iter().map(|(k, v)| (k.to_string(), TomlValue::String(v.to_string()))).collect();
    t.sort_by(|a, b| a.0.cmp(&b.0));
    RulesConfig(TomlValue::Table(t))
}

fn rule_text(r: &RulesConfig, key: &str) -> Option<String> {
    match r.get(key) {
        Some(TomlValue::String(s)) => Some(s.clone()),
        _ => None,
    }
}

fn layer(base: Option<BaseConfig>, r: Option<RulesConfig>) -> Option<AvailableConfig> {
    Some(resolve_available_config(base, r))
}

fn no_env() -> EnvRegistryParams {
    EnvRegistryParams { url: None, ref_name: None, section: None }
}

#[test]
fn available_layers_start_empty() {
    let mut s = AvailableConfigOptions::new();
    assert!(s.is_empty());
    assert!(!s.has_cli_config() && !s.has_repo_config() && !s.has_global_config());
    assert!(!s.has_registries());
    assert_eq!(s.registry_count(), 0);
    s.set_repo_config(resolve_available_config(None, None));
    assert!(s.has_repo_config());
    assert!(!s.is_empty());
    s.set_cli_config(resolve_available_config(Some(BaseConfig::empty()), None));
    s.set_global_config(resolve_available_config(None, None));
    assert!(s.has_cli_config() && s.has_global_config());
    assert!(AvailableConfigOptions::default().is_empty());
}

#[test]
fn global_paths_fail_on_the_first_missing_directory() {
    let p = RuntimeGlobalPaths::new(Ok("/c".into()), Ok("/k".into()), Ok("/s".into())).unwrap();
    assert_eq!((p.config.as_str(), p.cache.as_str(), p.state.as_str()), ("/c", "/k", "/s"));
    let e = RuntimeGlobalPaths::new(
        Ok("/c".into()),
        Err(ErrorCode::RuntimeFailure.error().with_context("which", "cache")),
        Err(ErrorCode::IoFailure.error()),
    )
    .unwrap_err();
    assert_eq!(e.context, vec![("which".to_string(), "cache".to_string())]);
}

#[test]
fn partial_settings_layer_command_line_over_environment_over_project_over_global() {
    let b = build_partial_config_for_registry(
        Some(with_remote("global")),
        Some(with_remote("env")),
        Some(with_remote("repo")),
        None,
    );
    assert_eq!(b.branch_remote(), "env");
    let b = build_partial_config_for_registry(Some(with_remote("global")), None, None, None);
    assert_eq!(b.branch_remote(), "global");
    let b = build_partial_config_for_registry(None, None, None, Some(with_remote("cli")));
    assert_eq!(b.branch_remote(), "cli");
    let b = build_partial_config_for_registry(None, None, None, None);
    assert!(b.branch.is_none() && b.commit.is_none() && b.registries.is_none());
}

#[test]
fn partial_rules_prefer_command_line_then_project_then_global() {
    let mut s = AvailableConfigOptions::new();
    s.set_global_config(resolve_available_config(None, Some(rules(&[("x", "global")]))));
    assert_eq!(rule_text(build_partial_rules_for_registry(&s).unwrap(), "x").as_deref(), Some("global"));
    s.set_repo_config(resolve_available_config(None, Some(rules(&[("x", "repo")]))));
    assert_eq!(rule_text(build_partial_rules_for_registry(&s).unwrap(), "x").as_deref(), Some("repo"));
    s.set_cli_config(resolve_available_config(None, None));
    assert_eq!(rule_text(build_partial_rules_for_registry(&s).unwrap(), "x").as_deref(), Some("repo"));
    assert!(build_partial_rules_for_registry(&AvailableConfigOptions::new()).is_none());
}

#[test]
fn registry_specs_are_collected_resolved_and_deduplicated() {
    let mut s = AvailableConfigOptions::new();
    s.global_config = layer(
        Some(with_registries(&[("a", Some("https://r/a.git"), None), ("b", None, Some("main"))])),
        None,
    );
    s.repo_config = layer(
        Some(with_registries(&[
            ("a", Some("https://r/a.git"), Some("v1")),
            ("c", Some("@rules.u"), Some("dev")),
            ("d", Some("@rules.missing"), None),
        ])),
        Some(rules(&[("u", "https://r/c.git")])),
    );
    let specs = collect_all_registry_specs(&s);
    let got: Vec<(String, String, String)> =
        specs.iter().map(|(n, sp)| (n.clone(), sp.url.clone(), sp.ref_name.clone())).collect();
    assert_eq!(
        got,
        vec![
            ("a".to_string(), "https://r/a.git".to_string(), "HEAD".to_string()),
            ("c".to_string(), "https://r/c.git".to_string(), "dev".to_string()),
        ]
    );
}

#[test]
fn an_ad_hoc_registry_is_added_and_active() {
    let mut s = AvailableConfigOptions::new();
    s.global_config = layer(Some(with_registries(&[("a", Some("https://r/a.git"), Some("v1"))])), None);
    let partial = build_partial_config_for_registry(
        s.global_config.as_ref().and_then(|c| c.base.clone()),
        None,
        None,
        None,
    );
    let (active, plans) =
        plan_registry_loads(&s, &partial, Some("https://r/x.git"), None, Some("team"), &no_env());
    let active = active.unwrap();
    assert_eq!((active.url.as_str(), active.ref_name.as_str()), ("https://r/x.git", "HEAD"));
    assert_eq!(active.section.as_deref(), Some("team"));
    let got: Vec<(String, bool, String)> =
        plans.iter().map(|p| (p.name.clone(), p.is_active, p.id.clone())).collect();
    assert_eq!(
        got,
        vec![
            ("a".to_string(), false, "https://r/a.git##v1".to_string()),
            ("cli".to_string(), true, "https://r/x.git##HEAD/team".to_string()),
        ]
    );
}

#[test]
fn the_configured_registry_is_marked_active_with_its_section() {
    let mut base = with_registries(&[("a", Some("https://r/a.git"), Some("v1")), ("b", Some("https://r/b.git"), None)]);
    base.registry = Some(RegistryConfig { use_registry: Some("b".to_string()), section: Some("std".to_string()) });
    let mut s = AvailableConfigOptions::new();
    s.repo_config = layer(Some(base.clone()), None);
    let partial = build_partial_config_for_registry(None, None, Some(base), None);
    let (active, plans) = plan_registry_loads(&s, &partial, None, None, None, &no_env());
    let active = active.unwrap();
    assert_eq!(active.url, "https://r/b.git");
    assert_eq!(active.ref_name, "HEAD");
    assert_eq!(plans.len(), 2);
    assert!(!plans[0].is_active);
    assert!(plans[1].is_active);
    assert_eq!(plans[1].spec.section.as_deref(), Some("std"));
    assert_eq!(plans[1].id, "https://r/b.git##HEAD/std");
    let (none, empty) =
        plan_registry_loads(&AvailableConfigOptions::new(), &BaseConfig::empty(), None, None, None, &no_env());
    assert!(none.is_none() && empty.is_empty());
}

fn loaded(plan: PlannedRegistry, base: Option<BaseConfig>, r: Option<RulesConfig>) -> RegistryOptions {
    registry_entry(plan, resolve_available_config(base, r))
}

fn plan(active: bool) -> PlannedRegistry {
    PlannedRegistry {
        name: "org".to_string(),
        spec: RegistrySpec { url: "https://r/o.git".to_string(), ref_name: "HEAD".to_string(), section: None },
        is_active: active,
        id: "https://r/o.git##HEAD".to_string(),
    }
}

#[test]
fn no_layer_gives_no_active_configuration() {
    assert!(select_active_config(AvailableConfigOptions::new()).is_none());
}

#[test]
fn environment_sits_between_command_line_and_project() {
    let mut s = AvailableConfigOptions::new();
    s.env_config = layer(Some(with_remote("env")), None);
    let (base, r) = select_active_config(s).unwrap();
    assert_eq!(base.branch_remote(), "env");
    assert!(matches!(&r.0, TomlValue::Table(t) if t.is_empty()));

    let mut s = AvailableConfigOptions::new();
    s.global_config = layer(Some(with_remote("global")), None);
    s.env_config = layer(Some(with_remote("env")), None);
    let (base, _) = select_active_config(s).unwrap();
    assert_eq!(base.branch_remote(), "env");

    let mut s = AvailableConfigOptions::new();
    s.repo_config = layer(Some(with_remote("repo")), None);
    s.env_config = layer(Some(with_remote("env")), None);
    let (base, _) = select_active_config(s).unwrap();
    assert_eq!(base.branch_remote(), "env");

    let mut s = AvailableConfigOptions::new();
    s.repo_config = layer(Some(with_remote("repo")), None);
    s.env_config = layer(Some(with_remote("env")), None);
    s.cli_config = layer(Some(with_remote("cli")), None);
    let (base, _) = select_active_config(s).unwrap();
    assert_eq!(base.branch_remote(), "cli");
}

#[test]
fn only_a_global_layer_is_used_as_it_is() {
    let mut s = AvailableConfigOptions::new();
    s.global_config = layer(Some(with_remote("global")), Some(rules(&[("k", "g")])));
    let (base, r) = select_active_config(s).unwrap();
    assert_eq!(base.branch_remote(), "global");
    assert_eq!(rule_text(&r, "k").as_deref(), Some("g"));
    let mut s = AvailableConfigOptions::new();
    s.global_config = layer(Some(with_remote("global")), None);
    let (_, r) = select_active_config(s).unwrap();
    assert!(matches!(&r.0, TomlValue::Table(t) if t.is_empty()));
}

#[test]
fn registry_is_the_base_and_project_overrides_it() {
    let mut s = AvailableConfigOptions::new();
    s.global_config = layer(Some(with_remote("global")), Some(rules(&[("k", "global")])));
    s.registries.push(loaded(plan(false), Some(with_remote("inactive")), None));
    s.registries.push(loaded(plan(true), Some(with_remote("registry")), Some(rules(&[("k", "registry")]))));
    let (base, r) = select_active_config(s).unwrap();
    assert_eq!(base.branch_remote(), "registry");
    assert_eq!(rule_text(&r, "k").as_deref(), Some("registry"));

    let mut s = AvailableConfigOptions::new();
    s.global_config = layer(Some(with_remote("global")), Some(rules(&[("k", "global")])));
    s.registries.push(loaded(plan(true), Some(BaseConfig::empty()), None));
    s.repo_config = layer(Some(with_remote("repo")), None);
    let (base, r) = select_active_config(s).unwrap();
    assert_eq!(base.branch_remote(), "repo");
    // the registry has no rules: the global ones are used
    assert_eq!(rule_text(&r, "k").as_deref(), Some("global"));

    let mut s = AvailableConfigOptions::new();
    s.repo_config = layer(Some(with_remote("repo")), Some(rules(&[("k", "repo")])));
    s.cli_config = layer(Some(with_remote("cli")), Some(rules(&[("k", "cli")])));
    let (base, r) = select_active_config(s).unwrap();
    assert_eq!(base.branch_remote(), "cli");
    assert_eq!(rule_text(&r, "k").as_deref(), Some("cli"));
}

#[test]
fn policy_of_no_configuration_is_the_default() {
    let p = resolve_policy(None);
    assert_eq!(p.commit.subject_max_length, 72);
    assert_eq!(p.branch.remote, "origin");
    let mut b = BaseConfig::empty();
    b.branch = Some(BranchConfig { remote: Some("upstream".into()), protected: None, naming: None });
    let (config, policy) = finish_resolution(Some("/w/cwizard.toml".into()), RulesConfig::default(), b);
    assert_eq!(policy.branch.remote, "upstream");
    assert_eq!(config.path.as_deref(), Some("/w/cwizard.toml"));
    let p2 = resolve_policy(Some(&config));
    assert_eq!(p2.branch.remote, "upstream");
    let r = RuntimeResolution::new();
    assert!(r.config.is_none() && r.sources.is_empty());
}
