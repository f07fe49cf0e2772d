use commit_wizard::config::schema::{ConfigSpec, ProjectConfig, StandardConfig};
use commit_wizard::config::tree::{is_path_sorted, TomlValue};
use commit_wizard::error::{Error, ErrorCode};
use commit_wizard::settings::edit::{
    config_get, config_set, config_unset, edit_path, ensure_supported_key, is_supported_key,
    parse_value_for_key, ConfigGetInput, ConfigSetInput, ConfigUnsetInput,
};
use commit_wizard::settings::init::{
    ensure_can_write, init_config, registry_readme, ConfigContext, ConfigOption, InitDocument,
    InitStep, RegistryOptions, REGISTRY_README, SECTIONS_NOTE,
};
use commit_wizard::settings::show::{
    config_path, config_show, resolve_config_path, ConfigPathInput, ConfigShowFormat,
    ConfigShowInput, ConfigTarget, ShowSource,
};

fn tree(v: &toml::Value) -> TomlValue {
    match v {
        toml::Value::String(s) => TomlValue::String(s.clone()),
        toml::Value::Integer(i) => TomlValue::Integer(*i),
        toml::Value::Float(f) => TomlValue::Float(f.to_bits()),
        toml::Value::Boolean(b) => TomlValue::Boolean(*b),
        toml::Value::Datetime(d) => TomlValue::Datetime(d.to_string()),
        toml::Value::Array(a) => TomlValue::Array(a.iter().map(tree).collect()),
        toml::Value::Table(t) => {
            TomlValue::Table(t.iter().map(|(k, x)| (k.clone(), tree(x))).collect())
        }
    }
}

fn doc(text: &str) -> TomlValue {
    let parsed: toml::Value = toml::from_str(text).unwrap();
    tree(&parsed)
}

fn ctx(pairs: &[(&str, &str)]) -> Vec<(String, String)> {
    pairs.iter().map(|(k, v)| (k.to_string(), v.to_string())).collect()
}

fn dir_error() -> Error {
    ErrorCode::RuntimeFailure.error().with_context("reason", "no home")
}

fn global_dir() -> Result<String, Error> {
    Ok("/home/u/.config/cwizard".to_string())
}

fn lookup<'a>(v: &'a TomlValue, key: &str) -> Option<&'a TomlValue> {
    let mut cur = v;
    for seg in key.split('.') {
        match cur {
            TomlValue::Table(t) => cur = &t.iter().find(|(k, _)| k == seg)?.1,
            _ => return None,
        }
    }
    Some(cur)
}

fn get_input(key: &str) -> ConfigGetInput {
    ConfigGetInput {
        cwd: "/work".to_string(),
        target: ConfigTarget::Project,
        explicit_path: None,
        key: key.to_string(),
    }
}

fn set_input(key: &str, value: &str) -> ConfigSetInput {
    ConfigSetInput {
        cwd: "/work".to_string(),
        target: ConfigTarget::Project,
        key: key.to_string(),
        value: value.to_string(),
        dry_run: false,
        explicit_path: None,
    }
}

fn unset_input(key: &str) -> ConfigUnsetInput {
    ConfigUnsetInput {
        cwd: "/work".to_string(),
        target: ConfigTarget::Project,
        key: key.to_string(),
        dry_run: false,
        explicit_path: None,
    }
}

#[test]
fn config_paths_by_target() {
    assert_eq!(
        resolve_config_path(ConfigTarget::Project, "/work", &global_dir()).unwrap(),
        "/work/cwizard.toml"
    );
    assert_eq!(
        resolve_config_path(ConfigTarget::Global, "/work", &global_dir()).unwrap(),
        "/home/u/.config/cwizard/config.toml"
    );
    let err = resolve_config_path(ConfigTarget::Global, "/work", &Err(dir_error())).unwrap_err();
    assert_eq!(err.code, ErrorCode::RuntimeFailure);
    assert_eq!(err.context, ctx(&[("reason", "no home")]));
    let out = config_path(
        &ConfigPathInput { cwd: "/repo".to_string(), target: ConfigTarget::Project },
        &global_dir(),
    )
    .unwrap();
    assert_eq!(out.path, "/repo/cwizard.toml");
}

#[test]
fn config_show_reports_a_missing_file() {
    let input = ConfigShowInput {
        cwd: "/work".to_string(),
        target: ConfigTarget::Project,
        explicit_path: Some("/elsewhere.toml".to_string()),
        format: ConfigShowFormat::Human,
    };
    let err = config_show(&input, &global_dir(), None).unwrap_err();
    assert_eq!(err.code, ErrorCode::ConfigUnreadable);
    assert_eq!(
        err.context,
        ctx(&[("path", "/work/cwizard.toml"), ("reason", "config file does not exist")])
    );
}

#[test]
fn config_show_picks_the_raw_text_or_the_json() {
    let source = || ShowSource { raw: "a = 1\n".to_string(), json: Some("{\"a\":1}".to_string()) };
    let mut input = ConfigShowInput {
        cwd: "/work".to_string(),
        target: ConfigTarget::Global,
        explicit_path: None,
        format: ConfigShowFormat::Toml,
    };
    let out = config_show(&input, &global_dir(), Some(Ok(source()))).unwrap();
    assert_eq!(out.content, "a = 1\n");
    assert!(out.exists);
    assert_eq!(out.path, "/home/u/.config/cwizard/config.toml");
    input.format = ConfigShowFormat::Json;
    let out = config_show(&input, &global_dir(), Some(Ok(source()))).unwrap();
    assert_eq!(out.content, "{\"a\":1}");
    input.format = ConfigShowFormat::Human;
    let out = config_show(&input, &global_dir(), Some(Ok(source()))).unwrap();
    assert_eq!(out.content, "a = 1\n");
    let parse_error = ErrorCode::ConfigInvalid.error().with_context("error", "bad toml");
    let err = config_show(&input, &global_dir(), Some(Err(parse_error))).unwrap_err();
    assert_eq!(err.code, ErrorCode::ConfigInvalid);
}

#[test]
fn only_twelve_keys_can_be_edited() {
    for key in [
        "commit.subject_max_length",
        "commit.ticket.required",
        "commit.ticket.pattern",
        "commit.ticket.header_format",
        "branch.remote",
        "release.enabled",
        "release.source_branch",
        "release.target_branch",
        "ai.enabled",
        "ai.provider",
        "changelog.output",
        "versioning.tag_prefix",
    ] {
        assert!(is_supported_key(key), "{key}");
        assert!(ensure_supported_key(key).is_ok());
    }
    assert!(!is_supported_key("commit.types"));
    assert!(!is_supported_key(""));
    let err = ensure_supported_key("commit.types").unwrap_err();
    assert_eq!(err.code, ErrorCode::ConfigInvalid);
    assert_eq!(err.context, ctx(&[("key", "commit.types"), ("reason", "unsupported or unknown key")]));
}

#[test]
fn values_are_read_by_the_kind_of_their_key() {
    match parse_value_for_key("commit.subject_max_length", "72").unwrap() {
        TomlValue::Integer(72) => {}
        other => panic!("unexpected {other:?}"),
    }
    match parse_value_for_key("commit.subject_max_length", "-5").unwrap() {
        TomlValue::Integer(-5) => {}
        other => panic!("unexpected {other:?}"),
    }
    match parse_value_for_key("ai.enabled", "false").unwrap() {
        TomlValue::Boolean(false) => {}
        other => panic!("unexpected {other:?}"),
    }
    match parse_value_for_key("branch.remote", "upstream").unwrap() {
        TomlValue::String(s) => assert_eq!(s, "upstream"),
        other => panic!("unexpected {other:?}"),
    }
    let err = parse_value_for_key("commit.subject_max_length", "7x").unwrap_err();
    assert_eq!(
        err.context,
        ctx(&[("key", "commit.subject_max_length"), ("value", "7x"), ("reason", "expected integer")])
    );
    let err = parse_value_for_key("release.enabled", "True").unwrap_err();
    assert_eq!(
        err.context,
        ctx(&[("key", "release.enabled"), ("value", "True"), ("reason", "expected boolean")])
    );
    let err = parse_value_for_key("nope", "1").unwrap_err();
    assert_eq!(err.context, ctx(&[("key", "nope"), ("reason", "unsupported or unknown key")]));
    assert!(parse_value_for_key("commit.subject_max_length", "99999999999999999999").is_err());
}

#[test]
fn edits_use_the_explicit_path_first() {
    let explicit = Some("/x/custom.toml".to_string());
    assert_eq!(
        edit_path(&explicit, ConfigTarget::Global, "/work", &Err(dir_error())).unwrap(),
        "/x/custom.toml"
    );
    assert_eq!(edit_path(&None, ConfigTarget::Project, "/work", &global_dir()).unwrap(), "/work/cwizard.toml");
    assert!(edit_path(&None, ConfigTarget::Global, "/work", &Err(dir_error())).is_err());
}

#[test]
fn config_get_reads_a_setting() {
    let file = doc("[commit]\nsubject_max_length = 50\n");
    let out = config_get(&get_input("commit.subject_max_length"), &global_dir(), Some(Ok(file))).unwrap();
    assert_eq!(out.path, "/work/cwizard.toml");
    assert_eq!(out.key, "commit.subject_max_length");
    assert!(matches!(out.value, TomlValue::Integer(50)));
}

#[test]
fn config_get_errors_in_order() {
    // an unsupported key is reported before a missing file
    let err = config_get(&get_input("commit.types"), &global_dir(), None).unwrap_err();
    assert_eq!(err.context[1].1, "unsupported or unknown key");
    let err = config_get(&get_input("ai.enabled"), &global_dir(), None).unwrap_err();
    assert_eq!(err.code, ErrorCode::ConfigUnreadable);
    assert_eq!(err.context, ctx(&[("path", "/work/cwizard.toml"), ("reason", "config file does not exist")]));
    let read = ErrorCode::IoFailure.error();
    let err = config_get(&get_input("ai.enabled"), &global_dir(), Some(Err(read))).unwrap_err();
    assert_eq!(err.code, ErrorCode::IoFailure);
    let err = config_get(&get_input("ai.enabled"), &global_dir(), Some(Ok(doc("x = 1\n")))).unwrap_err();
    assert_eq!(err.code, ErrorCode::ConfigInvalid);
    assert_eq!(err.context, ctx(&[("key", "ai.enabled"), ("reason", "unknown key")]));
}

#[test]
fn a_set_value_reads_back() {
    let file = doc("[branch]\nremote = \"origin\"\n");
    assert!(is_path_sorted(&file, "commit.ticket.pattern"));
    let input = set_input("commit.ticket.pattern", "[A-Z]+-[0-9]+");
    let (out, new_doc) = config_set(&input, &global_dir(), Ok(file)).unwrap();
    assert_eq!(out.path, "/work/cwizard.toml");
    assert!(matches!(&out.value, TomlValue::String(s) if s == "[A-Z]+-[0-9]+"));
    let got = config_get(&get_input("commit.ticket.pattern"), &global_dir(), Some(Ok(new_doc))).unwrap();
    assert!(matches!(&got.value, TomlValue::String(s) if s == "[A-Z]+-[0-9]+"));
}

#[test]
fn setting_keeps_other_settings_and_key_order() {
    let file = doc("[ai]\nenabled = false\n[branch]\nremote = \"origin\"\n");
    let (_, new_doc) = config_set(&set_input("ai.provider", "copilot"), &global_dir(), Ok(file)).unwrap();
    assert!(matches!(lookup(&new_doc, "branch.remote"), Some(TomlValue::String(s)) if s == "origin"));
    assert!(matches!(lookup(&new_doc, "ai.enabled"), Some(TomlValue::Boolean(false))));
    let TomlValue::Table(top) = &new_doc else { panic!() };
    let TomlValue::Table(ai) = &top[0].1 else { panic!() };
    let keys: Vec<&str> = ai.iter().map(|(k, _)| k.as_str()).collect();
    assert_eq!(keys, vec!["enabled", "provider"]);
    // a new top-level table goes in key order
    let (_, with_commit) =
        config_set(&set_input("commit.subject_max_length", "60"), &global_dir(), Ok(new_doc)).unwrap();
    let TomlValue::Table(top) = &with_commit else { panic!() };
    let keys: Vec<&str> = top.iter().map(|(k, _)| k.as_str()).collect();
    assert_eq!(keys, vec!["ai", "branch", "commit"]);
}

#[test]
fn setting_through_a_value_that_is_no_table_fails() {
    let err = config_set(&set_input("commit.subject_max_length", "60"), &global_dir(), Ok(doc("commit = 5\n")))
        .unwrap_err();
    assert_eq!(
        err.context,
        ctx(&[("key", "commit.subject_max_length"), ("reason", "target parent is not a table")])
    );
    let err = config_set(&set_input("commit.ticket.pattern", "x"), &global_dir(), Ok(doc("commit = 5\n")))
        .unwrap_err();
    assert_eq!(
        err.context,
        ctx(&[("key", "commit.ticket.pattern"), ("reason", "intermediate path is not a table")])
    );
    let err = config_set(&set_input("ai.enabled", "yes"), &global_dir(), Ok(doc(""))).unwrap_err();
    assert_eq!(err.context[2].1, "expected boolean");
}

#[test]
fn unsetting_removes_and_reports() {
    let file = doc("[branch]\nremote = \"origin\"\n");
    let (out, new_doc) = config_unset(&unset_input("branch.remote"), &global_dir(), Some(Ok(file))).unwrap();
    assert!(out.removed);
    assert_eq!(out.key, "branch.remote");
    let err = config_get(&get_input("branch.remote"), &global_dir(), Some(Ok(new_doc))).unwrap_err();
    assert_eq!(err.context, ctx(&[("key", "branch.remote"), ("reason", "unknown key")]));

    let (out, _) = config_unset(&unset_input("ai.provider"), &global_dir(), Some(Ok(doc("x = 1\n")))).unwrap();
    assert!(!out.removed);
    let err = config_unset(&unset_input("ai.provider"), &global_dir(), Some(Ok(doc("ai = 1\n")))).unwrap_err();
    assert_eq!(err.context, ctx(&[("key", "ai.provider"), ("reason", "target parent is not a table")]));
    let err = config_unset(&unset_input("ai.provider"), &global_dir(), None).unwrap_err();
    assert_eq!(err.code, ErrorCode::ConfigUnreadable);
}

fn context(option: ConfigOption, dry_run: bool, with_rules: bool, sections: bool) -> ConfigContext {
    ConfigContext {
        option,
        spec: ConfigSpec::Standard,
        output_path: "/out".to_string(),
        force: false,
        auto_yes: false,
        dry_run,
        hidden: false,
        with_rules,
        registry_options: RegistryOptions { sections, ..RegistryOptions::default() },
    }
}

fn step_paths(steps: &[InitStep]) -> Vec<String> {
    steps
        .iter()
        .map(|s| match s {
            InitStep::CreateDir(p) => format!("dir {p}"),
            InitStep::Save(p, _) => format!("save {p}"),
        })
        .collect()
}

#[test]
fn init_plans_a_project_file() {
    let plan = init_config(&context(ConfigOption::Project, false, true, false), &global_dir()).unwrap();
    assert_eq!(plan.path, "/out");
    assert_eq!(step_paths(&plan.steps), vec!["save /out"]);
    match &plan.steps[0] {
        InitStep::Save(_, InitDocument::Project(p)) => {
            assert!(p.version.is_none());
            assert!(p.inner.rules.is_some());
        }
        _ => panic!("project document expected"),
    }
    let plan = init_config(&context(ConfigOption::Project, true, false, false), &global_dir()).unwrap();
    assert!(plan.steps.is_empty());
    assert!(matches!(&plan.preview, Some(InitDocument::Project(p)) if p.inner.rules.is_none()));
}

#[test]
fn init_plans_the_global_files() {
    let plan = init_config(&context(ConfigOption::Global, false, true, false), &global_dir()).unwrap();
    assert_eq!(plan.path, "/home/u/.config/cwizard/config.toml");
    assert_eq!(
        step_paths(&plan.steps),
        vec!["save /home/u/.config/cwizard/config.toml", "save /home/u/.config/cwizard/rules.toml"]
    );
    let plan = init_config(&context(ConfigOption::Global, true, true, false), &global_dir()).unwrap();
    assert!(plan.steps.is_empty());
    assert!(matches!(plan.preview, Some(InitDocument::Standard(_))));
    let err = init_config(&context(ConfigOption::Global, false, false, false), &Err(dir_error())).unwrap_err();
    assert_eq!(err.code, ErrorCode::RuntimeFailure);
}

#[test]
fn init_plans_a_registry_scaffold() {
    let plan = init_config(&context(ConfigOption::Registry, false, false, true), &global_dir()).unwrap();
    assert_eq!(plan.path, "/out/config.toml");
    assert_eq!(
        step_paths(&plan.steps),
        vec![
            "dir /out",
            "save /out/config.toml",
            "save /out/rules.toml",
            "save /out/README.md",
            "dir /out/standard",
            "save /out/standard/config.toml",
            "save /out/standard/rules.toml",
            "dir /out/team1",
            "save /out/team1/config.toml",
            "save /out/team1/rules.toml",
        ]
    );
    let plan = init_config(&context(ConfigOption::Registry, true, false, false), &global_dir()).unwrap();
    assert_eq!(
        step_paths(&plan.steps),
        vec!["save /out/config.toml", "save /out/rules.toml", "save /out/README.md"]
    );
    match &plan.steps[2] {
        InitStep::Save(_, InitDocument::Text(t)) => assert_eq!(t, REGISTRY_README),
        _ => panic!("README expected"),
    }
}

#[test]
fn readme_mentions_sections_only_with_sections() {
    let with = registry_readme(&context(ConfigOption::Registry, false, false, true));
    let without = registry_readme(&context(ConfigOption::Registry, false, false, false));
    assert!(without.starts_with("# commit-wizard registry\n\n"));
    assert!(without.ends_with("must not execute code from the registry.\n"));
    assert_eq!(with, format!("{without}{SECTIONS_NOTE}"));
    assert!(with.ends_with("example sections: `standard/` and `team1/`.\n"));
}

#[test]
fn existing_files_need_force() {
    let err = ensure_can_write("/out/config.toml", true, false).unwrap_err();
    assert_eq!(err.code, ErrorCode::ConfigInvalid);
    assert_eq!(
        err.context,
        ctx(&[("path", "/out/config.toml"), ("reason", "file already exists; use --force to overwrite")])
    );
    assert!(ensure_can_write("/out/config.toml", true, true).is_ok());
    assert!(ensure_can_write("/out/config.toml", false, false).is_ok());
}

#[test]
fn registry_options_default() {
    let o = RegistryOptions::default();
    assert_eq!(o.name, "registry");
    assert!(!o.git_init && !o.sections);
}

#[test]
fn document_presets_have_no_version() {
    assert!(StandardConfig::minimal().version.is_none());
    assert!(StandardConfig::standard().inner.commit.is_some());
    assert!(StandardConfig::full().inner.registries.is_some());
    assert!(ProjectConfig::minimal().inner.rules.is_none());
    assert!(ProjectConfig::full().inner.config.registry.is_some());
    assert!(ProjectConfig::standard().inner.config.registry.is_none());
}
