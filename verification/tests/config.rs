use commit_wizard::config::env::{build_env_config, EnvVars};
use commit_wizard::config::resolver::{
    extract_config_from_standard_config, extract_configs_from_project_config, resolve_project_configs,
    resolve_standard_configs,
};
use commit_wizard::config::rules::RulesConfig;
use commit_wizard::config::schema::{ProjectConfig, StandardConfig};
use commit_wizard::config::types::{BaseConfig, BranchConfig, CommitConfig};
use commit_wizard::enforcement::{ChangelogFormat, CommitEnforcementScope, EmojiMode, ScopeMode, TicketSource};
use commit_wizard::error::ErrorCode;
use commit_wizard::paths::{
    app_cache_dir, app_config_dir, app_state_dir, find_project_config_in_dir, join,
    resolve_global_config_path, resolve_global_rules_path, resolve_new_project_config_path,
    resolve_new_repo_config_path, resolve_project_config_path, resolve_repo_config_path,
};

fn strs(v: &[&str]) -> Vec<String> {
    v.iter().map(|s| s.to_string()).collect()
}

fn commit_with_length(n: u32) -> BaseConfig {
    let mut b = BaseConfig::empty();
    b.commit = Some(CommitConfig {
        subject_max_length: Some(n),
        use_emojis: None,
        types: None,
        scopes: None,
        breaking: None,
        protected: None,
        ticket: None,
    });
    b
}

fn remote(r: &str) -> BaseConfig {
    let mut b = BaseConfig::empty();
    b.branch = Some(BranchConfig { remote: Some(r.to_string()), protected: None, naming: None });
    b
}

#[test]
fn empty_settings_read_as_the_defaults() {
    let b = BaseConfig::empty();
    assert_eq!(b.commit_subject_max_length(), 72);
    assert!(!b.commit_use_emojis());
    assert_eq!(b.commit_scopes_mode(), ScopeMode::Optional);
    assert_eq!(b.commit_ticket_source(), TicketSource::Disabled);
    assert_eq!(b.commit_breaking_footer_key(), "BREAKING CHANGE");
    assert_eq!(b.commit_breaking_footer_keys_normalized(), strs(&["BREAKING CHANGE", "BREAKING-CHANGE"]));
    assert_eq!(b.commit_breaking_emoji_mode(), EmojiMode::Prepend);
    assert_eq!(b.branch_remote(), "origin");
    assert_eq!(b.branch_protected_patterns(), strs(&["main", "master", "release/*"]));
    assert_eq!(b.branch_naming_pattern(), "feature/{issue}");
    assert!(b.check_require_conventional());
    assert_eq!(b.check_commits_enforce_on(), CommitEnforcementScope::ProtectedBranches);
    assert!(!b.push_allow_protected());
    assert_eq!(b.versioning_tag_prefix(), "v");
    assert_eq!(b.changelog_output(), "CHANGELOG.md");
    assert_eq!(b.changelog_format(), ChangelogFormat::Markdown);
    assert_eq!(b.release_source_branch(), "main");
    assert_eq!(b.release_branch_format(), "release/{version}");
    assert!(!b.ai_enabled());
    assert!(b.registry_use().is_none());
    assert!(b.registries_map().is_empty());
}

#[test]
fn merging_prefers_the_higher_layer() {
    let merged = remote("upstream").merge(remote("origin"));
    assert_eq!(merged.branch_remote(), "upstream");
    let merged = BaseConfig::empty().merge(remote("origin2"));
    assert_eq!(merged.branch_remote(), "origin2");
    let merged = commit_with_length(50).merge(remote("fork"));
    assert_eq!(merged.commit_subject_max_length(), 50);
    assert_eq!(merged.branch_remote(), "fork");
    // merging is associative on these layers
    let left = remote("a").merge(commit_with_length(40).merge(remote("c")));
    let right = remote("a").merge(commit_with_length(40)).merge(remote("c"));
    assert_eq!(left.branch_remote(), right.branch_remote());
    assert_eq!(left.commit_subject_max_length(), right.commit_subject_max_length());
}

#[test]
fn presets() {
    let std = BaseConfig::standard();
    assert!(std.commit.is_some() && std.registry.is_none());
    assert_eq!(std.commit_types().len(), 8);
    let full = BaseConfig::full();
    assert!(full.registry.is_some());
    assert!(BaseConfig::minimal().commit.is_none());
}

#[test]
fn environment_settings() {
    let mut vars = EnvVars::default();
    assert!(build_env_config(&vars).is_none());
    vars.commit_subject_max_length = Some("50".to_string());
    vars.branch_remote = Some("upstream".to_string());
    let c = build_env_config(&vars).unwrap();
    assert_eq!(c.commit_subject_max_length(), 50);
    assert_eq!(c.branch_remote(), "upstream");
    assert!(c.changelog.is_none() && c.registries.is_none());
    vars.allow_env_override = Some("false".to_string());
    assert!(build_env_config(&vars).is_none());
    vars.allow_env_override = Some("YES".to_string());
    assert!(build_env_config(&vars).is_some());
}

#[test]
fn global_directories() {
    assert_eq!(app_config_dir(Some("/xdg"), Some("/home/u")).unwrap(), "/xdg/cwizard");
    assert_eq!(app_config_dir(None, Some("/home/u")).unwrap(), "/home/u/.config/cwizard");
    let e = app_config_dir(None, None).unwrap_err();
    assert_eq!(e.code, ErrorCode::ConfigInvalid);
    assert_eq!(e.context[0].1, "neither XDG_CONFIG_HOME nor HOME is set");
    assert_eq!(app_state_dir(None, Some("/home/u")).unwrap(), "/home/u/.local/state/cwizard");
    assert_eq!(app_cache_dir(None, Some("/home/u")).unwrap(), "/home/u/.cache/cwizard");
    let dir = app_config_dir(Some("/xdg"), None);
    assert_eq!(resolve_global_config_path(&dir).unwrap(), "/xdg/cwizard/config.toml");
    assert_eq!(resolve_global_rules_path(&dir).unwrap(), "/xdg/cwizard/rules.toml");
    assert!(resolve_global_rules_path(&app_config_dir(None, None)).is_err());
}

#[test]
fn joining_paths() {
    assert_eq!(join("/a", "b"), "/a/b");
    assert_eq!(join("/a/", "b"), "/a/b");
    assert_eq!(join("/a", "/abs"), "/abs");
    assert_eq!(join("", "b"), "b");
}

#[test]
fn project_settings_files() {
    let existing = strs(&["/w/cwizard.toml", "/r/.cwizard.toml", "/r/cwizard.toml"]);
    assert_eq!(find_project_config_in_dir("/w", &existing).as_deref(), Some("/w/cwizard.toml"));
    assert_eq!(find_project_config_in_dir("/r", &existing).as_deref(), Some("/r/.cwizard.toml"));
    assert!(find_project_config_in_dir("/none", &existing).is_none());
    assert_eq!(resolve_repo_config_path("/none", &existing), "/none/.cwizard.toml");
    assert_eq!(resolve_new_repo_config_path("/w", false), "/w/cwizard.toml");
    assert_eq!(
        resolve_project_config_path("/r/sub", Some("/r"), true, None, &existing).as_deref(),
        Some("/r/.cwizard.toml")
    );
    assert!(resolve_project_config_path("/r/sub", Some("/r"), false, None, &existing).is_none());
    assert_eq!(
        resolve_project_config_path("/w", Some("/r"), true, Some("/x/mine.toml"), &existing).as_deref(),
        Some("/x/mine.toml")
    );
    assert_eq!(
        resolve_new_project_config_path("/r/sub", Some("/r"), true, None, true),
        "/r/.cwizard.toml"
    );
    assert_eq!(resolve_new_project_config_path("/w", None, false, None, false), "/w/cwizard.toml");
}

#[test]
fn documents_give_their_settings() {
    let mut std = StandardConfig::minimal();
    std.inner = remote("up");
    assert_eq!(extract_config_from_standard_config(std).branch_remote(), "up");
    let mut project = ProjectConfig::minimal();
    project.inner.rules = Some(RulesConfig::default());
    let (base, rules) = extract_configs_from_project_config(project);
    assert!(base.branch.is_none());
    assert!(rules.is_some());
    assert!(resolve_standard_configs(None).is_none());
    let (b, r) = resolve_project_configs(None);
    assert!(b.is_none() && r.is_none());
}
