use commit_wizard::check::{validate_commits, CommitBody, CommitValidator, CommitViolation, ParsedHeader, ValidatedCommit};
use commit_wizard::enforcement::{decide_bump, AiProvider, BumpLevel};
use commit_wizard::error::{ErrorCode, ErrorKind};
use commit_wizard::git::{Change, CommitSummary, FileStatus};
use commit_wizard::policy::changelog::section_for_type;
use commit_wizard::policy::commit::CommitModel;
use commit_wizard::policy::Policy;
use commit_wizard::push::evaluate_push;
use commit_wizard::stage::{expand_target_paths, plan_transitions, preselected_ids, staged_counts, view_paths};
use commit_wizard::versioning::{calculate_next_version, classify_commits, Version};

fn strs(v: &[&str]) -> Vec<String> {
    v.iter().map(|s| s.to_string()).collect()
}

fn commit(msg: &str) -> CommitSummary {
    CommitSummary {
        hash: "h".to_string(),
        summary: msg.lines().next().unwrap_or("").to_string(),
        full_message: Some(msg.to_string()),
    }
}

#[test]
fn versions_parse_with_and_without_prefix() {
    let v = Version::parse("v1.2.3", "v").unwrap();
    assert_eq!((v.major, v.minor, v.patch), (1, 2, 3));
    let v = Version::parse("1.2.3", "v").unwrap();
    assert_eq!((v.major, v.minor, v.patch), (1, 2, 3));
    let v = Version::parse("release-2.0.10", "release-").unwrap();
    assert_eq!((v.major, v.minor, v.patch), (2, 0, 10));
    assert!(Version::parse("v1.2", "v").is_none());
    assert!(Version::parse("v1.2.3.4", "v").is_none());
    assert!(Version::parse("v1.x.3", "v").is_none());
    assert!(Version::parse("", "v").is_none());
}

#[test]
fn versions_format_and_bump() {
    let v = Version { major: 1, minor: 2, patch: 3 };
    assert_eq!(v.format("v"), "v1.2.3");
    assert_eq!(v.to_semver(), "1.2.3");
    let b = v.with_bump(BumpLevel::Major);
    assert_eq!((b.major, b.minor, b.patch), (2, 0, 0));
    let b = v.with_bump(BumpLevel::Minor);
    assert_eq!((b.major, b.minor, b.patch), (1, 3, 0));
    let b = v.with_bump(BumpLevel::Patch);
    assert_eq!((b.major, b.minor, b.patch), (1, 2, 4));
    let b = v.with_bump(BumpLevel::NoBump);
    assert_eq!((b.major, b.minor, b.patch), (1, 2, 3));
    // a formatted version parses back
    let back = Version::parse(&v.format("v"), "v").unwrap();
    assert_eq!((back.major, back.minor, back.patch), (1, 2, 3));
}

#[test]
fn commits_are_classified_by_type_and_breaking_marks() {
    let model = CommitModel::default();
    let commits = vec![
        commit("feat: add"),
        commit("fix(core): repair"),
        commit("feat!: drop api"),
        commit("chore: tidy"),
        commit("fix: x\n\nBREAKING CHANGE: y"),
        commit("not conventional"),
    ];
    let bumps: Vec<BumpLevel> = classify_commits(&commits, &model).into_iter().map(|(_, b)| b).collect();
    assert_eq!(
        bumps,
        vec![
            BumpLevel::Minor,
            BumpLevel::Patch,
            BumpLevel::Major,
            BumpLevel::Patch,
            BumpLevel::Major,
            BumpLevel::NoBump
        ]
    );
}

#[test]
fn the_next_version_takes_the_highest_bump() {
    let model = CommitModel::default();
    let classified = classify_commits(&[commit("fix: a"), commit("feat: b")], &model);
    let v = calculate_next_version(Some(Version { major: 1, minor: 4, patch: 2 }), &classified);
    assert_eq!((v.major, v.minor, v.patch), (1, 5, 0));
    let v = calculate_next_version(None, &classified);
    assert_eq!((v.major, v.minor, v.patch), (0, 2, 0));
    let v = calculate_next_version(Some(Version { major: 3, minor: 0, patch: 0 }), &[]);
    assert_eq!((v.major, v.minor, v.patch), (3, 0, 0));
}

#[test]
fn bump_decision() {
    assert_eq!(decide_bump(&strs(&["BREAKING"]), &strs(&["feat"]), &[]), BumpLevel::Major);
    assert_eq!(decide_bump(&[], &strs(&["feat"]), &strs(&["fix"])), BumpLevel::Minor);
    assert_eq!(decide_bump(&[], &[], &strs(&["fix"])), BumpLevel::Patch);
    assert_eq!(decide_bump(&[], &[], &[]), BumpLevel::NoBump);
    assert_eq!(AiProvider::from_str("anything"), AiProvider::Copilot);
    assert_eq!(AiProvider::Copilot.as_str(), "copilot");
}

#[test]
fn headers_and_bodies_parse() {
    let h = ParsedHeader::parse("  feat(api)!: add endpoint ").unwrap();
    assert_eq!(h.type_key, "feat");
    assert_eq!(h.scope.as_deref(), Some("api"));
    assert!(h.is_breaking);
    assert_eq!(h.subject, "add endpoint");
    assert!(ParsedHeader::parse("feat add").is_none());
    assert!(ParsedHeader::parse("feat: ").is_none());
    let h = ParsedHeader::parse("\u{2728} feat: sparkle").unwrap();
    assert_eq!(h.emoji.as_deref(), Some("\u{2728}"));
    let b = CommitBody::parse("feat: x\n\nbody\nRefs: #1\nBREAKING CHANGE: gone");
    assert_eq!(b.footer_lines, strs(&["Refs: #1", "BREAKING CHANGE: gone"]));
    assert!(b.has_breaking_footer("BREAKING CHANGE"));
    assert!(CommitBody::parse("one line").footer_lines.is_empty());
}

#[test]
fn messages_are_validated_against_the_commit_policy() {
    let model = CommitModel::default();
    let v = CommitValidator::new(&model);
    assert!(v.validate_message("feat: add thing").is_empty());
    assert_eq!(v.validate_message("random text"), vec![CommitViolation::InvalidHeaderFormat]);
    assert_eq!(v.validate_message("docs: readme"), vec![CommitViolation::InvalidType("docs".to_string())]);
    let long = format!("fix: {}", "a".repeat(73));
    assert_eq!(v.validate_message(&long), vec![CommitViolation::SubjectTooLong { length: 73, max: 72 }]);
    assert_eq!(
        v.validate_message("\u{2728} feat: sparkle"),
        vec![CommitViolation::EmojiNotAllowed]
    );
    let mut relaxed = CommitModel::default();
    relaxed.require_conventional = false;
    assert!(CommitValidator::new(&relaxed).validate_message("anything at all").is_empty());
}

#[test]
fn violation_messages() {
    assert_eq!(CommitViolation::InvalidType("x".into()).message(), "Type 'x' is not allowed");
    assert_eq!(
        CommitViolation::SubjectTooLong { length: 80, max: 72 }.message(),
        "Subject is 80 chars, but max is 72"
    );
    assert_eq!(
        CommitViolation::ScopeNotAllowed("db".into()).message(),
        "Scope 'db' is not allowed (commit.scopes.mode = disabled)"
    );
    assert_eq!(CommitViolation::InvalidTicketFormat("bad".into()).message(), "Ticket format invalid: bad");
}

#[test]
fn a_report_counts_invalid_commits() {
    let model = CommitModel::default();
    let report = validate_commits(vec![commit("feat: a"), commit("oops"), commit("docs: b")], &model);
    assert_eq!(report.total, 3);
    assert_eq!(report.invalid_count, 2);
    assert!(report.commits[0].valid);
    assert!(!report.commits[1].valid);
}

fn validated(valid: bool) -> ValidatedCommit {
    ValidatedCommit {
        hash: "h".to_string(),
        summary: "s".to_string(),
        valid,
        violations: if valid { vec![] } else { vec![CommitViolation::InvalidHeaderFormat] },
    }
}

#[test]
fn pushes_to_protected_branches_are_blocked() {
    let policy = Policy::default();
    let r = evaluate_push(&policy, "main", vec![validated(true), validated(false)]);
    assert!(r.protected_branch);
    assert!(r.blocked);
    assert_eq!(r.total_checked, 2);
    assert_eq!(r.invalid_count, 1);
    assert_eq!(
        r.block_reasons,
        strs(&[
            "push to protected branch 'main' is blocked by policy",
            "1 commit(s) do not satisfy conventional commit policy"
        ])
    );
    let r = evaluate_push(&policy, "release/1.0", vec![]);
    assert!(r.protected_branch && r.blocked);
    let r = evaluate_push(&policy, "release", vec![]);
    assert!(r.protected_branch);
    let r = evaluate_push(&policy, "feature/x", vec![validated(false)]);
    assert!(!r.protected_branch);
    assert!(!r.blocked);
    assert!(r.block_reasons.is_empty());
    let mut open = Policy::default();
    open.push.allow_protected = true;
    let r = evaluate_push(&open, "main", vec![validated(false), validated(false)]);
    assert_eq!(r.block_reasons, strs(&["2 commit(s) do not satisfy conventional commit policy"]));
}

#[test]
fn error_codes_identify_themselves() {
    assert_eq!(ErrorCode::ConfigInvalid.id(), "E1001");
    assert_eq!(ErrorCode::UserCancelled.id(), "E0001");
    assert_eq!(ErrorCode::ProcessFailure.id(), "E10001");
    assert_eq!(ErrorCode::RuntimeFailure.numeric(), 11001);
    assert_eq!(ErrorCode::RegistrySectionMissing.numeric(), 3006);
    assert_eq!(ErrorCode::ConfigInvalid.exit_code(), 10);
    assert_eq!(ErrorCode::GitPushBlocked.exit_code(), 21);
    assert_eq!(ErrorCode::RuntimeFailure.exit_code(), 50);
    assert_eq!(ErrorCode::ConfigInvalid.kind(), ErrorKind::Config);
    assert_eq!(ErrorKind::Io.prefix(), 9);
    assert_eq!(ErrorCode::ConfigInvalid.message(), "Configuration is invalid");
    assert_eq!(ErrorCode::ConfigInvalid.describe(), "Configuration is invalid (E1001)");
    let e = ErrorCode::IoFailure.error().with_context("path", "/x").with_context("error", "denied");
    assert_eq!(e.code, ErrorCode::IoFailure);
    assert_eq!(e.context, vec![("path".into(), "/x".into()), ("error".into(), "denied".into())]);
}

fn change(path: &str, staged: bool) -> Change {
    Change { path: path.to_string(), staged, status: FileStatus::Modified }
}

#[test]
fn staging_views_and_transitions() {
    let changes = vec![change("src/a.rs", true), change("src/b.rs", false), change("README.md", false), change("src/a.rs", false)];
    assert_eq!(
        expand_target_paths(&strs(&["src/", "\\README.md"]), &changes),
        strs(&["README.md", "src/a.rs", "src/b.rs"])
    );
    assert_eq!(expand_target_paths(&strs(&["src/a"]), &changes), Vec::<String>::new());
    assert_eq!(view_paths(&changes, false, false), strs(&["README.md", "src/a.rs", "src/b.rs"]));
    assert_eq!(view_paths(&changes, true, false), strs(&["README.md", "src/b.rs"]));
    assert_eq!(view_paths(&changes, false, true), strs(&["src/a.rs"]));
    let visible = strs(&["README.md", "src/a.rs", "src/b.rs"]);
    assert_eq!(staged_counts(&visible, &changes), (1, 2));
    assert_eq!(preselected_ids(&visible, &changes), strs(&["src/a.rs"]));
    let (stage, unstage) = plan_transitions(&visible, &strs(&["src/b.rs"]), &changes);
    assert_eq!(stage, strs(&["src/b.rs"]));
    assert_eq!(unstage, strs(&["src/a.rs"]));
}

#[test]
fn changelog_sections_by_type() {
    let sections = vec![
        ("Features".to_string(), strs(&["feat"])),
        ("Fixes".to_string(), strs(&["fix", "perf"])),
    ];
    assert_eq!(section_for_type(&sections, "perf"), "Fixes");
    assert_eq!(section_for_type(&sections, "docs"), "Uncategorized");
}
