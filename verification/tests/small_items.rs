use commit_wizard::config::defaults::{default_branch_allowed_targets, default_commit_allowed_scopes};
use commit_wizard::config::types::{BaseConfig, PrConfig};
use commit_wizard::policy::branch::BranchModel;
use commit_wizard::state::RegistrySelection;

#[test]
fn pr_is_enabled_unless_switched_off() {
    let mut b = BaseConfig::empty();
    assert!(b.pr_enabled());
    b.pr = Some(PrConfig { enabled: None, title: None, branch: None });
    assert!(b.pr_enabled());
    b.pr = Some(PrConfig { enabled: Some(false), title: None, branch: None });
    assert!(!b.pr_enabled());
}

#[test]
fn default_scope_and_target_lists_are_empty() {
    assert!(default_commit_allowed_scopes().is_empty());
    assert!(default_branch_allowed_targets().is_empty());
}

#[test]
fn protected_pattern_is_configured_only_with_patterns() {
    let mut m = BranchModel::default();
    m.protected_patterns = Vec::new();
    assert!(!m.is_protected_pattern_configured());
    m.protected_patterns = vec!["main".to_string()];
    assert!(m.is_protected_pattern_configured());
}

#[test]
fn registry_cache_key_joins_url_and_ref() {
    let s = RegistrySelection {
        name: None,
        url: "https://example.com/rules.git".to_string(),
        ref_name: "main".to_string(),
        section: Some("team".to_string()),
    };
    assert_eq!(s.cache_key(), "https://example.com/rules.git#main");
}
