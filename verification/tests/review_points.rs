use commit_wizard::config::registry::registry_cache_id;
use commit_wizard::config::rules::RulesConfig;
use commit_wizard::config::tree::{set_value_checked, unset_value_checked, TomlValue};
use commit_wizard::config::types::BaseConfig;
use commit_wizard::enforcement::BumpLevel;
use commit_wizard::error::{Error, ErrorCode};
use commit_wizard::git::CommitSummary;
use commit_wizard::policy::commit::{conventional_pattern_text, is_valid_conventional_commit_message, CommitModel};
use commit_wizard::runtime::{record_loads, resolve_available_config, PlannedRegistry, RegistryOptions};
use commit_wizard::config::registry::RegistrySpec;
use commit_wizard::settings::edit::{config_set_checked, config_unset_checked, ConfigSetInput, ConfigUnsetInput};
use commit_wizard::settings::show::ConfigTarget;

fn strs(v: &[&str]) -> Vec<String> {
    v.iter().map(|s| s.to_string()).collect()
}

fn cs(h: &str, s: &str, m: Option<&str>) -> CommitSummary {
    CommitSummary { hash: h.to_string(), summary: s.to_string(), full_message: m.map(|x| x.to_string()) }
}

#[test]
fn unlisted_types_bump_patch() {
    let policy = CommitModel::default();
    let commits = vec![
        cs("1", "feat: add login", None),
        cs("2", "fix!: drop api", None),
        cs("3", "fix: y", Some("fix: y\n\nBREAKING CHANGE: z")),
        cs("4", "docs: readme", None),
    ];
    let got: Vec<(String, BumpLevel)> = commit_wizard::versioning::classify_commits(&commits, &policy)
        .into_iter()
        .map(|(c, b)| (c.hash, b))
        .collect();
    assert_eq!(
        got,
        vec![
            ("1".to_string(), BumpLevel::Minor),
            ("2".to_string(), BumpLevel::Major),
            ("3".to_string(), BumpLevel::Major),
            ("4".to_string(), BumpLevel::Patch),
        ]
    );
}

#[test]
fn conventional_pattern_over_the_types() {
    assert_eq!(conventional_pattern_text(&strs(&["feat", "fix"])), r"^(feat|fix)(\([\w\-]+\))?(!)?: .+");
    assert_eq!(conventional_pattern_text(&strs(&[])), r"^()(\([\w\-]+\))?(!)?: .+");
}

#[test]
fn conventional_messages_are_recognised() {
    let types = strs(&["feat", "fix"]);
    assert_eq!(is_valid_conventional_commit_message("feat: add", &types), Some(true));
    assert_eq!(is_valid_conventional_commit_message("  fix(core-api)!: drop  \n", &types), Some(true));
    assert_eq!(is_valid_conventional_commit_message("docs: readme", &types), Some(false));
    assert_eq!(is_valid_conventional_commit_message("feat:missing space", &types), Some(false));
    assert_eq!(is_valid_conventional_commit_message("feat(): empty scope", &types), Some(false));
    assert_eq!(is_valid_conventional_commit_message("feat: x", &strs(&["("])), None);
}

fn table(entries: Vec<(&str, TomlValue)>) -> TomlValue {
    TomlValue::Table(entries.into_iter().map(|(k, v)| (k.to_string(), v)).collect())
}

#[test]
fn checked_edits_refuse_tables_out_of_order() {
    let mut doc = table(vec![("b", TomlValue::Integer(1)), ("a", TomlValue::Integer(2))]);
    let err = set_value_checked(&mut doc, "c", TomlValue::Integer(3)).unwrap_err();
    assert_eq!(err.code, ErrorCode::ConfigInvalid);
    assert_eq!(
        err.context,
        vec![("key".to_string(), "c".to_string()), ("reason".to_string(), "table keys are not in order".to_string())]
    );
    assert!(matches!(&doc, TomlValue::Table(t) if t.len() == 2 && t[0].0 == "b"));
    assert!(unset_value_checked(&mut doc, "a").is_err());

    let mut doc = table(vec![("a", TomlValue::Integer(2)), ("b", TomlValue::Integer(1))]);
    set_value_checked(&mut doc, "c", TomlValue::Integer(3)).unwrap();
    assert!(matches!(&doc, TomlValue::Table(t) if t.len() == 3 && t[2].0 == "c"));
    assert_eq!(unset_value_checked(&mut doc, "a").unwrap(), true);
}

#[test]
fn checked_config_edits_refuse_tables_out_of_order() {
    let dir: Result<String, Error> = Ok("/home/u/.config/commit-wizard".to_string());
    let unsorted = table(vec![
        ("commit", table(vec![("z", TomlValue::Integer(1)), ("subject_max_length", TomlValue::Integer(2))])),
    ]);
    let set = ConfigSetInput {
        key: "commit.subject_max_length".to_string(),
        value: "60".to_string(),
        target: ConfigTarget::Global,
        explicit_path: None,
        cwd: "/work".to_string(),
        dry_run: false,
    };
    let err = config_set_checked(&set, &dir, Ok(unsorted)).unwrap_err();
    assert_eq!(err.context[1].1, "table keys are not in order");
    let sorted = table(vec![("commit", table(vec![("subject_max_length", TomlValue::Integer(2))]))]);
    assert!(config_set_checked(&set, &dir, Ok(sorted)).is_ok());

    let unset = ConfigUnsetInput {
        key: "commit.subject_max_length".to_string(),
        target: ConfigTarget::Global,
        explicit_path: None,
        cwd: "/work".to_string(),
        dry_run: false,
    };
    let unsorted = table(vec![
        ("commit", table(vec![("z", TomlValue::Integer(1)), ("subject_max_length", TomlValue::Integer(2))])),
    ]);
    let err = config_unset_checked(&unset, &dir, Some(Ok(unsorted))).unwrap_err();
    assert_eq!(err.context[1].1, "table keys are not in order");
}

fn plan(name: &str, active: bool) -> PlannedRegistry {
    PlannedRegistry {
        name: name.to_string(),
        spec: RegistrySpec { url: format!("https://r/{name}.git"), ref_name: "HEAD".to_string(), section: None },
        is_active: active,
        id: format!("https://r/{name}.git##HEAD"),
    }
}

#[test]
fn loaded_registries_are_recorded_in_plan_order() {
    let mut regs: Vec<RegistryOptions> = Vec::new();
    let loads = vec![
        Some(resolve_available_config(Some(BaseConfig::empty()), None)),
        None,
        Some(resolve_available_config(Some(BaseConfig::empty()), Some(RulesConfig::default()))),
    ];
    record_loads(&mut regs, vec![plan("a", false), plan("b", true), plan("c", false)], loads);
    let ids: Vec<&str> = regs.iter().map(|r| r.id.as_str()).collect();
    assert_eq!(ids, vec!["https://r/a.git##HEAD", "https://r/c.git##HEAD"]);
    assert!(regs.iter().all(|r| r.config.is_some() && r.sections.is_none() && !r.is_active));
}

#[test]
fn cache_ids_are_lowercase_hex() {
    let id = registry_cache_id("https://R/A.git", "MAIN");
    assert!(!id.is_empty());
    assert!(id.chars().all(|c| c.is_ascii_digit() || ('a'..='f').contains(&c)));
}

#[test]
fn the_standard_preset_reads_as_the_defaults() {
    let s = BaseConfig::standard();
    let e = BaseConfig::empty();
    assert_eq!(s.commit_subject_max_length(), e.commit_subject_max_length());
    assert_eq!(s.branch_remote(), e.branch_remote());
    assert_eq!(s.branch_protected_patterns(), e.branch_protected_patterns());
    assert_eq!(s.changelog_output(), e.changelog_output());
    assert_eq!(s.release_source_branch(), e.release_source_branch());
    assert_eq!(s.versioning_tag_prefix(), e.versioning_tag_prefix());
    assert_eq!(s.commit_breaking_footer_keys_normalized(), strs(&["BREAKING CHANGE"]));
    assert_eq!(e.commit_breaking_footer_keys_normalized(), strs(&["BREAKING CHANGE", "BREAKING-CHANGE"]));
    let f = BaseConfig::full();
    assert_eq!(f.branch_naming_pattern(), s.branch_naming_pattern());
    assert_eq!(f.pr_enabled(), s.pr_enabled());
    assert_eq!(f.registry_use(), None);
}

#[test]
fn the_full_preset_holds_the_standard_sections() {
    let f = BaseConfig::full();
    let s = BaseConfig::standard();
    let keys = |b: &BaseConfig| -> Vec<String> {
        b.commit.as_ref().unwrap().types.as_ref().unwrap().iter().map(|(k, _)| k.clone()).collect()
    };
    assert_eq!(keys(&f), keys(&s));
    assert_eq!(f.changelog_section_order(), s.changelog_section_order());
    assert_eq!(f.release_hotfix_pattern(), s.release_hotfix_pattern());
    assert_eq!(f.hooks_pre_push(), s.hooks_pre_push());
    assert!(f.ai.is_some() && s.ai.is_some());
    assert!(matches!(&f.registry, Some(g) if g.use_registry.as_deref() == Some("") && g.section.is_none()));
    assert!(matches!(&f.registries, Some(m) if m.is_empty()));
}
