use commit_wizard::config::env::{get_env_registry_params, EnvRegistryParams, EnvVars};
use commit_wizard::config::registry::{
    clone_args, git_registry_step, git_run_failure, git_spawn_error, is_local_path, is_version_tag,
    missing_local_registry, missing_section_error, read_registry_dir, registry_cache_id,
    registry_cache_path, registry_dir, remote_changed, resolve_registry_spec,
    resolve_section_from_named_registry, stale_cache_path, u64_to_hex, GitRegistryStep,
    RegistrySpec,
};
use commit_wizard::config::types::{BaseConfig, NamedRegistryConfig, RegistryConfig};
use commit_wizard::error::ErrorCode;
use commit_wizard::state::{AppState, RegistryState};

fn spec(url: &str, r: &str, section: Option<&str>) -> RegistrySpec {
    RegistrySpec { url: url.to_string(), ref_name: r.to_string(), section: section.map(|s| s.to_string()) }
}

fn no_env() -> EnvRegistryParams {
    EnvRegistryParams { url: None, ref_name: None, section: None }
}

fn configured() -> BaseConfig {
    let mut b = BaseConfig::empty();
    b.registry = Some(RegistryConfig { use_registry: Some("org".to_string()), section: None });
    b.registries = Some(vec![
        (
            "other".to_string(),
            NamedRegistryConfig {
                url: Some("https://r/other.git".to_string()),
                ref_name: Some("v9".to_string()),
                section: None,
                sections: None,
            },
        ),
        (
            "org".to_string(),
            NamedRegistryConfig {
                url: Some("https://r/org.git".to_string()),
                ref_name: Some("main".to_string()),
                section: None,
                sections: Some(vec!["standard".to_string(), "team1".to_string()]),
            },
        ),
    ]);
    b
}

#[test]
fn registry_from_settings() {
    let b = configured();
    let s = resolve_registry_spec(None, None, None, Some(&b), &no_env()).unwrap();
    assert_eq!(s.url, "https://r/org.git");
    assert_eq!(s.ref_name, "main");
    // no explicit section: the first of the listed sections
    assert_eq!(s.section.as_deref(), Some("standard"));
    assert_eq!(
        resolve_section_from_named_registry(Some(&b), "https://r/org.git").as_deref(),
        Some("standard")
    );
}

#[test]
fn command_line_wins_over_environment_and_settings() {
    let b = configured();
    let env = EnvRegistryParams {
        url: Some("https://env/reg.git".to_string()),
        ref_name: Some("dev".to_string()),
        section: Some("envsec".to_string()),
    };
    let s = resolve_registry_spec(None, None, None, Some(&b), &env).unwrap();
    assert_eq!((s.url.as_str(), s.ref_name.as_str()), ("https://env/reg.git", "dev"));
    assert_eq!(s.section.as_deref(), Some("envsec"));
    let s = resolve_registry_spec(Some("/local/reg"), Some("v2"), Some("cli"), Some(&b), &env).unwrap();
    assert_eq!((s.url.as_str(), s.ref_name.as_str()), ("/local/reg", "v2"));
    assert_eq!(s.section.as_deref(), Some("cli"));
    // a URL without a ref in the settings takes HEAD
    let s = resolve_registry_spec(Some("https://x/y.git"), None, None, None, &no_env()).unwrap();
    assert_eq!(s.ref_name, "HEAD");
    assert!(s.section.is_none());
    assert!(resolve_registry_spec(None, None, None, None, &no_env()).is_none());
    assert!(resolve_registry_spec(None, None, None, Some(&BaseConfig::empty()), &no_env()).is_none());
}

#[test]
fn environment_registry_parameters() {
    let mut vars = EnvVars::default();
    vars.registry_url = Some("https://e/r.git".to_string());
    vars.registry_section = Some("".to_string());
    let p = get_env_registry_params(&vars);
    assert_eq!(p.url.as_deref(), Some("https://e/r.git"));
    assert!(p.ref_name.is_none());
}

#[test]
fn local_paths_and_version_tags() {
    for url in ["/abs/reg", "./rel", "../up", ".", ".."] {
        assert!(is_local_path(url, false), "{url}");
    }
    assert!(!is_local_path("https://r/x.git", false));
    assert!(!is_local_path("reg", false));
    assert!(is_local_path("reg", true));
    assert!(is_version_tag("v1"));
    assert!(is_version_tag("v2.3.1-rc1"));
    assert!(!is_version_tag("v"));
    assert!(!is_version_tag("main"));
    assert!(!is_version_tag("vx1"));
    assert!(!is_version_tag("1.0"));
}

#[test]
fn cache_paths_depend_on_url_and_ref_only() {
    let a = registry_cache_path("https://r/a.git", "v1", "/cache");
    let b = registry_cache_path("https://r/a.git", "v1", "/cache");
    let c = registry_cache_path("https://r/a.git", "v2", "/cache");
    assert_eq!(a, b);
    assert_ne!(a, c);
    assert!(a.starts_with("/cache/registries/"));
    let id = registry_cache_id("https://r/a.git", "v1");
    assert!(!id.is_empty() && id.chars().all(|ch| ch.is_ascii_hexdigit() && !ch.is_ascii_uppercase()));
    assert_eq!(a, format!("/cache/registries/{id}"));
}

#[test]
fn hexadecimal_notation() {
    assert_eq!(u64_to_hex(0), "0");
    assert_eq!(u64_to_hex(255), "ff");
    assert_eq!(u64_to_hex(4096), "1000");
    assert_eq!(u64_to_hex(u64::MAX), "ffffffffffffffff");
}

#[test]
fn a_changed_ref_evicts_the_old_copy() {
    let mut state = AppState::new();
    assert!(stale_cache_path(&state, &spec("https://r/a.git", "v2", None)).is_none());
    state.registry = Some(RegistryState::new(
        Some("a".into()),
        "https://r/a.git".into(),
        "v1".into(),
        None,
        "abc".into(),
        "/cache/registries/123".into(),
    ));
    assert_eq!(
        stale_cache_path(&state, &spec("https://r/a.git", "v2", None)).as_deref(),
        Some("/cache/registries/123")
    );
    assert!(stale_cache_path(&state, &spec("https://r/a.git", "v1", None)).is_none());
    assert!(stale_cache_path(&state, &spec("https://r/b.git", "v2", None)).is_none());
}

#[test]
fn git_registry_steps_and_clone_arguments() {
    let tag = spec("https://r/a.git", "v1.0", None);
    let branch = spec("https://r/a.git", "main", None);
    assert_eq!(git_registry_step(&tag, true), GitRegistryStep::UseCache);
    assert_eq!(git_registry_step(&branch, true), GitRegistryStep::Sync);
    assert_eq!(git_registry_step(&tag, false), GitRegistryStep::Clone);
    assert_eq!(git_registry_step(&branch, false), GitRegistryStep::CloneAndCheckout);
    assert_eq!(
        clone_args(&tag, "/c/x"),
        vec!["clone", "--depth", "1", "--branch", "v1.0", "https://r/a.git", "/c/x"]
    );
    assert_eq!(
        clone_args(&branch, "/c/x"),
        vec!["clone", "--depth", "1", "--no-single-branch", "https://r/a.git", "/c/x"]
    );
}

#[test]
fn reading_a_registry_directory() {
    assert_eq!(registry_dir("/c/r", &Some("team1".to_string())), "/c/r/team1");
    assert_eq!(registry_dir("/c/r", &None), "/c/r");
    let err = read_registry_dir("/c/r", false, None, None).unwrap_err();
    assert_eq!(err.code, ErrorCode::RegistryInvalid);
    assert_eq!(err.context, vec![("missing_file".to_string(), "/c/r/config.toml".to_string())]);
    let ok = read_registry_dir("/c/r", true, Some(BaseConfig::empty()), None).unwrap();
    assert!(ok.base.is_some() && ok.rules.is_none());
    let e = missing_section_error(&None, "/c/r");
    assert_eq!(e.context[0], ("section".to_string(), "(root)".to_string()));
    let e = missing_local_registry("/nowhere");
    assert_eq!(e.code, ErrorCode::RegistrySectionMissing);
}

#[test]
fn remote_changes_and_git_errors() {
    assert!(remote_changed("abc", Some("def\n")));
    assert!(!remote_changed("abc", Some("  abc\n")));
    assert!(!remote_changed("abc", None));
    let args = vec!["fetch".to_string(), "--depth".to_string(), "1".to_string(), "origin".to_string()];
    let e = git_run_failure(&args, "fatal", "");
    assert_eq!(e.code, ErrorCode::RegistrySyncFailed);
    assert_eq!(e.context[0], ("command".to_string(), "git fetch --depth 1 origin".to_string()));
    let e = git_spawn_error(&args, "not found");
    assert_eq!(e.code, ErrorCode::GitCommandFailed);
    assert_eq!(e.context[1], ("error".to_string(), "not found".to_string()));
}

#[test]
fn missing_state_file_gives_a_fresh_state() {
    let s = AppState::load(None).unwrap();
    assert_eq!(s.version, 1);
    assert!(s.registry.is_none());
    assert!(AppState::load(Some(Err(ErrorCode::StateInvalid.error()))).is_err());
}
