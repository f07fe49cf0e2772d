use commit_wizard::config::rules::RulesConfig;
use commit_wizard::config::tree::TomlValue;
use commit_wizard::error::ErrorCode;

fn tree(v: &toml::Value) -> TomlValue {
    match v {
        toml::Value::String(s) => TomlValue::String(s.clone()),
        toml::Value::Integer(i) => TomlValue::Integer(*i),
        toml::Value::Float(f) => TomlValue::Float(f.to_bits()),
        toml::Value::Boolean(b) => TomlValue::Boolean(*b),
        toml::Value::Datetime(d) => TomlValue::Datetime(d.to_string()),
        toml::Value::Array(a) => TomlValue::Array(a.iter().map(tree).collect()),
        toml::Value::Table(t) => {
            TomlValue::Table(t.iter().map(|(k, x)| (k.clone(), tree(x))).collect())
        }
    }
}

fn rules_from(text: &str) -> RulesConfig {
    let parsed: toml::Value = toml::from_str(text).unwrap();
    RulesConfig(tree(&parsed))
}

fn text(v: &TomlValue) -> Option<&str> {
    match v {
        TomlValue::String(s) => Some(s.as_str()),
        _ => None,
    }
}

#[test]
fn resolves_nested_rule_references() {
    let rules = rules_from(
        r#"
            a = "@rules.b"
            b = "@rules.c"
            c = "final"
            "#,
    );

    let mut value = TomlValue::String("@rules.a".into());
    rules.resolve_value_refs(&mut value).unwrap();

    assert_eq!(text(&value), Some("final"));
}

#[test]
fn rejects_cyclic_rule_references() {
    let rules = rules_from(
        r#"
            a = "@rules.b"
            b = "@rules.a"
            "#,
    );

    let mut value = TomlValue::String("@rules.a".into());
    let err = rules.resolve_value_refs(&mut value).unwrap_err();

    assert_eq!(err.code, ErrorCode::ConfigReferenceInvalid);
}

#[test]
fn cyclic_reference_error_names_the_reference_and_path() {
    let rules = rules_from("a = \"@rules.b\"\nb = \"@rules.a\"\n");
    let mut value = TomlValue::String("@rules.a".into());
    let err = rules.resolve_value_refs(&mut value).unwrap_err();
    assert_eq!(
        err.context,
        vec![
            ("reference".to_string(), "@rules.a".to_string()),
            ("path".to_string(), "$".to_string()),
            ("reason".to_string(), "cyclic reference detected".to_string()),
        ]
    );
}

#[test]
fn missing_reference_is_an_error_with_its_path() {
    let rules = rules_from("a = \"x\"\n");
    let doc: toml::Value = toml::from_str("[commit]\nkeys = [\"ok\", \"@rules.nope\"]\n").unwrap();
    let mut value = tree(&doc);
    let err = rules.resolve_value_refs(&mut value).unwrap_err();
    assert_eq!(err.code, ErrorCode::ConfigReferenceInvalid);
    assert_eq!(
        err.context,
        vec![
            ("reference".to_string(), "@rules.nope".to_string()),
            ("path".to_string(), "$.commit.keys[1]".to_string()),
        ]
    );
}

#[test]
fn references_inside_tables_and_arrays_are_resolved() {
    let rules = rules_from("[vars]\nremote = \"upstream\"\nname = \"@rules.vars.remote\"\n");
    let doc: toml::Value =
        toml::from_str("[branch]\nremote = \"@rules.vars.name\"\nlist = [\"@rules.vars.remote\", \"plain\"]\n")
            .unwrap();
    let mut value = tree(&doc);
    rules.resolve_value_refs(&mut value).unwrap();
    let TomlValue::Table(top) = &value else { panic!("table expected") };
    let TomlValue::Table(branch) = &top[0].1 else { panic!("table expected") };
    assert_eq!(branch[1].0, "remote");
    assert_eq!(text(&branch[1].1), Some("upstream"));
    let TomlValue::Array(list) = &branch[0].1 else { panic!("array expected") };
    assert_eq!(text(&list[0]), Some("upstream"));
    assert_eq!(text(&list[1]), Some("plain"));
}

#[test]
fn get_reads_a_dotted_path() {
    let rules = rules_from("[vars]\nregistry = \"https://example.com/r.git\"\n");
    assert_eq!(rules.get("vars.registry").and_then(text), Some("https://example.com/r.git"));
    assert!(rules.get("vars.missing").is_none());
    assert!(rules.get("nothing.here").is_none());
}

#[test]
fn references_are_recognised_by_prefix() {
    assert!(RulesConfig::is_reference("@rules.a"));
    assert!(RulesConfig::is_reference("@rules."));
    assert!(!RulesConfig::is_reference("@rule.a"));
    assert!(!RulesConfig::is_reference("plain"));
}

#[test]
fn resolve_string_passes_plain_text_and_resolves_references() {
    let rules = rules_from("a = \"value\"\nn = 3\n");
    assert_eq!(rules.resolve_string("plain").unwrap(), "plain");
    assert_eq!(rules.resolve_string("@rules.a").unwrap(), "value");
    let err = rules.resolve_string("@rules.n").unwrap_err();
    assert_eq!(err.code, ErrorCode::ConfigReferenceInvalid);
    assert_eq!(err.context[0], ("reference".to_string(), "@rules.n".to_string()));
    assert!(rules.resolve_string("@rules.zzz").is_err());
    assert!(rules.resolve_ref("@rules.a").is_some());
    assert!(rules.resolve_ref("a").is_none());
}

#[test]
fn default_rules_are_empty() {
    let rules = RulesConfig::default();
    match &rules.0 {
        TomlValue::Table(t) => assert!(t.is_empty()),
        _ => panic!("table expected"),
    }
}

#[test]
fn a_failed_resolution_leaves_the_reference_in_place() {
    let rules = rules_from("a = \"@rules.b\"\nb = \"@rules.a\"\nc = \"ok\"\n");
    let mut value = TomlValue::String("@rules.a".into());
    assert!(rules.resolve_value_refs(&mut value).is_err());
    assert_eq!(text(&value), Some("@rules.a"));

    // items before the failing one are resolved, those after it untouched
    let mut value = TomlValue::Array(vec![
        TomlValue::String("@rules.c".into()),
        TomlValue::String("@rules.missing".into()),
        TomlValue::String("@rules.c".into()),
    ]);
    assert!(rules.resolve_value_refs(&mut value).is_err());
    match &value {
        TomlValue::Array(items) => {
            assert_eq!(items.len(), 3);
            assert_eq!(text(&items[0]), Some("ok"));
            assert_eq!(text(&items[1]), Some("@rules.missing"));
            assert_eq!(text(&items[2]), Some("@rules.c"));
        }
        _ => panic!("the value stays an array"),
    }
}
