use commit_wizard::error::ErrorCode;
use commit_wizard::git::{CommitSummary, FileStatus};
use commit_wizard::repo::commands::{
    branch_in_listing, chunk_paths, command_label, command_text, current_branch, ensure_success,
    git2_error, git_args, github_https_url, group_by_tag, latest_by_time, parse_describe,
    parse_tag_list, repo_error, reset_args, revparse_error, spawn_error, tag_date, tag_ranges,
    GitCommand, HeadInfo, RESET_CHUNK_SIZE,
};
use commit_wizard::repo::status::{
    collect_changes, is_staged_bits, map_status, stage_ops, status_info, IndexOp, StatusEntry,
    StatusFlags,
};

fn flags() -> StatusFlags {
    StatusFlags {
        index_new: false,
        index_modified: false,
        index_deleted: false,
        index_renamed: false,
        index_typechange: false,
        wt_new: false,
        wt_modified: false,
        wt_deleted: false,
        wt_renamed: false,
        wt_typechange: false,
        ignored: false,
    }
}

fn entry(f: StatusFlags, path: &str) -> StatusEntry {
    StatusEntry { flags: f, path: Some(path.to_string()), renamed: None }
}

fn strs(v: &[&str]) -> Vec<String> {
    v.iter().map(|s| s.to_string()).collect()
}

fn commit(hash: &str) -> CommitSummary {
    CommitSummary { hash: hash.to_string(), summary: format!("feat: {hash}"), full_message: None }
}

#[test]
fn statuses_are_mapped_in_order() {
    let mut f = flags();
    f.wt_new = true;
    assert_eq!(map_status(f, &None), FileStatus::Untracked);
    f.index_new = true;
    assert!(is_staged_bits(f));
    assert_eq!(map_status(f, &None), FileStatus::Added);
    let mut f = flags();
    f.index_renamed = true;
    f.wt_deleted = true;
    let renamed = Some(("old.rs".to_string(), "new.rs".to_string()));
    assert_eq!(
        map_status(f, &renamed),
        FileStatus::Renamed { old_path: "old.rs".to_string(), new_path: "new.rs".to_string() }
    );
    assert_eq!(map_status(f, &None), FileStatus::Unknown);
    let mut f = flags();
    f.wt_deleted = true;
    f.wt_modified = true;
    assert_eq!(map_status(f, &None), FileStatus::Deleted);
    let mut f = flags();
    f.index_typechange = true;
    f.wt_modified = true;
    assert_eq!(map_status(f, &None), FileStatus::TypeChange);
    let mut f = flags();
    f.wt_modified = true;
    assert_eq!(map_status(f, &None), FileStatus::Modified);
    assert!(!is_staged_bits(f));
    let mut f = flags();
    f.ignored = true;
    f.wt_modified = true;
    assert_eq!(map_status(f, &None), FileStatus::Unknown);
    assert_eq!(map_status(flags(), &None), FileStatus::Unknown);
}

#[test]
fn changes_are_sorted_by_path_and_the_first_entry_counts() {
    let mut modified = flags();
    modified.wt_modified = true;
    let mut staged_new = flags();
    staged_new.index_new = true;
    let mut renamed = flags();
    renamed.index_renamed = true;
    let entries = vec![
        entry(modified, "src/b.rs"),
        entry(staged_new, "README.md"),
        StatusEntry {
            flags: renamed,
            path: Some("docs/new.md".to_string()),
            renamed: Some(("docs/old.md".to_string(), "docs/new.md".to_string())),
        },
        entry(staged_new, "src/b.rs"),
    ];
    let changes = collect_changes(&entries);
    let paths: Vec<&str> = changes.iter().map(|c| c.path.as_str()).collect();
    assert_eq!(paths, vec!["README.md", "docs/new.md", "src/b.rs"]);
    assert!(changes[0].staged);
    assert_eq!(changes[0].status, FileStatus::Added);
    assert!(changes[1].staged);
    assert!(matches!(&changes[1].status, FileStatus::Renamed { old_path, .. } if old_path == "docs/old.md"));
    assert!(!changes[2].staged);
    assert_eq!(changes[2].status, FileStatus::Modified);
    assert!(collect_changes(&Vec::new()).is_empty());
}

#[test]
fn staging_a_path() {
    assert_eq!(stage_ops("dir", true, true, &None, false, false), vec![IndexOp::AddAll("dir".into())]);
    assert_eq!(stage_ops("f.rs", false, true, &None, false, false), vec![IndexOp::AddPath("f.rs".into())]);
    assert_eq!(stage_ops("gone.rs", false, false, &None, false, false), vec![IndexOp::AddAll("gone.rs".into())]);
    let mut deleted = flags();
    deleted.wt_deleted = true;
    assert_eq!(
        stage_ops("gone.rs", false, false, &Some((deleted, None)), false, false),
        vec![IndexOp::RemovePath("gone.rs".into())]
    );
    let mut renamed = flags();
    renamed.wt_renamed = true;
    let info = Some((renamed, Some(("a.rs".to_string(), "b.rs".to_string()))));
    assert_eq!(
        stage_ops("a.rs", false, false, &info, false, true),
        vec![IndexOp::AddPath("b.rs".into()), IndexOp::RemovePath("a.rs".into())]
    );
    assert_eq!(
        stage_ops("a.rs", false, false, &info, true, true),
        vec![IndexOp::AddAll("b.rs".into()), IndexOp::RemovePath("a.rs".into())]
    );
    assert_eq!(
        stage_ops("a.rs", false, false, &info, false, false),
        vec![IndexOp::AddAll("b.rs".into()), IndexOp::RemovePath("a.rs".into())]
    );
    assert_eq!(
        stage_ops("x", false, false, &Some((flags(), None)), false, false),
        vec![IndexOp::AddAll("x".into())]
    );
}

#[test]
fn the_last_status_entry_of_a_path_counts_for_staging() {
    let mut deleted = flags();
    deleted.wt_deleted = true;
    let mut renamed = flags();
    renamed.index_renamed = true;
    let entries = vec![
        entry(deleted, "a.rs"),
        StatusEntry {
            flags: renamed,
            path: Some("a.rs".to_string()),
            renamed: Some(("z.rs".to_string(), "a.rs".to_string())),
        },
        StatusEntry { flags: flags(), path: Some("c.rs".to_string()), renamed: Some(("q".into(), "c.rs".into())) },
    ];
    let (f, r) = status_info(&entries, "a.rs").unwrap();
    assert!(f.index_renamed);
    assert_eq!(r, Some(("z.rs".to_string(), "a.rs".to_string())));
    // rename paths only count for renames
    let (_, r) = status_info(&entries, "c.rs").unwrap();
    assert!(r.is_none());
    assert!(status_info(&entries, "b.rs").is_none());
    let nameless = vec![StatusEntry { flags: deleted, path: None, renamed: None }];
    assert!(status_info(&nameless, "").is_some());
}

#[test]
fn merged_branch_listing() {
    let out = "  feature/a\n* main\n  release/1.0\r\n";
    assert!(branch_in_listing(out, "main"));
    assert!(branch_in_listing(out, "feature/a"));
    assert!(branch_in_listing(out, "release/1.0"));
    assert!(!branch_in_listing(out, "feature"));
    assert!(!branch_in_listing("", "main"));
}

#[test]
fn tag_listing_and_describe() {
    assert_eq!(parse_tag_list("v1.0\n\n  v1.1  \nv2.0"), strs(&["v1.0", "v1.1", "v2.0"]));
    assert!(parse_tag_list("").is_empty());
    assert_eq!(parse_describe("v1.2.3\n").as_deref(), Some("v1.2.3"));
    assert!(parse_describe("  \n").is_none());
}

#[test]
fn latest_tag_by_commit_time() {
    let tags = vec![("v1".to_string(), 100), ("v2".to_string(), 300), ("v3".to_string(), 300), ("v0".to_string(), 50)];
    assert_eq!(latest_by_time(&tags).as_deref(), Some("v2"));
    assert!(latest_by_time(&Vec::new()).is_none());
    assert_eq!(latest_by_time(&vec![("only".to_string(), -5)]).as_deref(), Some("only"));
}

#[test]
fn commits_are_grouped_newest_tag_first() {
    let ranges = tag_ranges(&strs(&["v1", "v2"]), "HEAD");
    let got: Vec<(String, Option<String>, String)> =
        ranges.iter().map(|r| (r.label.clone(), r.from.clone(), r.to.clone())).collect();
    assert_eq!(
        got,
        vec![
            ("Unreleased".to_string(), Some("v2".to_string()), "HEAD".to_string()),
            ("v2".to_string(), Some("v1".to_string()), "v2".to_string()),
            ("v1".to_string(), None, "v1".to_string()),
        ]
    );
    let lists = vec![vec![], vec![commit("b"), commit("c")], vec![commit("a")]];
    let grouped = group_by_tag(ranges, lists);
    let tags: Vec<&str> = grouped.iter().map(|t| t.tag.as_str()).collect();
    assert_eq!(tags, vec!["v2", "v1"]);
    assert_eq!(grouped[0].commits.len(), 2);
    let none = tag_ranges(&Vec::new(), "HEAD");
    assert_eq!(none.len(), 1);
    assert!(none[0].from.is_none());
}

#[test]
fn github_web_addresses() {
    assert_eq!(
        github_https_url("git@github.com:org/repo.git").as_deref(),
        Some("https://github.com/org/repo")
    );
    assert_eq!(
        github_https_url("https://github.com/org/repo.git.git").as_deref(),
        Some("https://github.com/org/repo")
    );
    assert_eq!(github_https_url("https://github.com/org/repo").as_deref(), Some("https://github.com/org/repo"));
    assert!(github_https_url("https://gitlab.com/org/repo.git").is_none());
}

#[test]
fn unstaging_in_batches_of_two_hundred() {
    let paths: Vec<String> = (0..450).map(|i| format!("f{i}")).collect();
    let chunks = chunk_paths(&paths, RESET_CHUNK_SIZE);
    assert_eq!(chunks.iter().map(|c| c.len()).collect::<Vec<_>>(), vec![200, 200, 50]);
    assert_eq!(chunks.concat(), paths);
    assert!(chunk_paths(&Vec::new(), RESET_CHUNK_SIZE).is_empty());
    let exact: Vec<String> = (0..200).map(|i| format!("f{i}")).collect();
    assert_eq!(chunk_paths(&exact, RESET_CHUNK_SIZE).len(), 1);
    let args = reset_args(&strs(&["a", "b c"]));
    assert_eq!(args, strs(&["reset", "-q", "HEAD", "--", "a", "b c"]));
    assert_eq!(command_text(&args), "git reset -q HEAD -- a b c");
    assert_eq!(command_text(&Vec::new()), "git ");
}

#[test]
fn command_arguments_and_labels() {
    assert_eq!(git_args(&GitCommand::Commit { allow_empty: true }), strs(&["commit", "--allow-empty", "-F", "-"]));
    assert_eq!(git_args(&GitCommand::Commit { allow_empty: false }), strs(&["commit", "-F", "-"]));
    let del = GitCommand::DeleteBranch { name: "old".into(), force: true };
    assert_eq!(git_args(&del), strs(&["branch", "-D", "old"]));
    assert_eq!(command_label(&del), "git branch -D <name>");
    let tag = GitCommand::SignedTag { name: "v1".into(), message: "release".into() };
    assert_eq!(git_args(&tag), strs(&["tag", "-s", "-m", "release", "v1"]));
    assert_eq!(command_label(&tag), "git tag -s");
    assert_eq!(git_args(&GitCommand::ListTags), strs(&["tag", "--list", "--sort=creatordate"]));
    assert_eq!(
        git_args(&GitCommand::Describe { rev: "HEAD".into() }),
        strs(&["describe", "--tags", "--abbrev=0", "HEAD"])
    );
    assert_eq!(command_label(&GitCommand::PushTag { remote: "o".into(), tag: "t".into() }), "git push <remote> <tag>");
    assert_eq!(git_args(&GitCommand::PruneRemote { remote: "origin".into() }), strs(&["remote", "prune", "origin"]));
}

#[test]
fn command_errors() {
    assert!(ensure_success("git fetch <remote>", "/w", true, "exit status: 0", "").is_ok());
    let e = ensure_success("git fetch <remote>", "/w", false, "exit status: 1", "  fatal: no\n").unwrap_err();
    assert_eq!(e.code, ErrorCode::ProcessFailure);
    assert_eq!(
        e.context,
        vec![
            ("command".to_string(), "git fetch <remote>".to_string()),
            ("cwd".to_string(), "/w".to_string()),
            ("status".to_string(), "exit status: 1".to_string()),
            ("stderr".to_string(), "fatal: no".to_string()),
        ]
    );
    assert_eq!(spawn_error("git merge <branch>", "/w").context.len(), 2);
    assert_eq!(git2_error("index.write", "/w", "locked").context[0].1, "index.write");
    assert_eq!(repo_error("/w", "nope").context[3].1, "failed to discover git repository");
    assert_eq!(revparse_error("/w", "v9", "not found").context[2], ("rev".to_string(), "v9".to_string()));
}

#[test]
fn the_current_branch() {
    let head = HeadInfo { is_branch: true, shorthand: Some("main".into()), target: Some("abc".into()) };
    assert_eq!(current_branch("/w", Ok(head)).unwrap(), "main");
    let detached = HeadInfo { is_branch: false, shorthand: None, target: Some("abc123".into()) };
    let e = current_branch("/w", Ok(detached)).unwrap_err();
    assert_eq!(e.context[2].1, "detached HEAD");
    assert_eq!(e.context[3], ("head".to_string(), "abc123".to_string()));
    let unknown = HeadInfo { is_branch: false, shorthand: None, target: None };
    assert_eq!(current_branch("/w", Ok(unknown)).unwrap_err().context[3].1, "<unknown>");
    let nameless = HeadInfo { is_branch: true, shorthand: None, target: None };
    assert_eq!(
        current_branch("/w", Ok(nameless)).unwrap_err().context[2].1,
        "unable to determine branch name from HEAD"
    );
    let e = current_branch("/w", Err("unborn".into())).unwrap_err();
    assert_eq!(e.context[2], ("error".to_string(), "unborn".to_string()));
    assert_eq!(e.context[3].1, "failed to read HEAD");
}

#[test]
fn tag_dates_are_utc_calendar_dates() {
    assert_eq!(tag_date(Some(1431648000)).as_deref(), Some("2015-05-15"));
    assert_eq!(tag_date(Some(0)).as_deref(), Some("1970-01-01"));
    assert_eq!(tag_date(Some(86399)).as_deref(), Some("1970-01-01"));
    assert!(tag_date(None).is_none());
    assert!(tag_date(Some(i64::MAX)).is_none());
}
