//! Whether a push may go ahead: protected branches and invalid commits.
use vstd::prelude::*;

use crate::check::{invalid_count_spec, lemma_invalid_count_le, texts, ValidatedCommit};
use crate::policy::check::CommitCheckEnforcement;
use crate::policy::Policy;
use crate::text::{
    chars_eq, chars_starts_with, concat3, dec, owned, seq_ends_with, seq_starts_with,
    str_to_chars, u64_to_string,
};
use crate::check::sub_vec;

verus! {

/// The outcome of checking a push.
#[derive(Debug, Clone)]
pub struct PushReport {
    pub current_branch: String,
    pub protected_branch: bool,
    pub commits: Vec<ValidatedCommit>,
    pub total_checked: usize,
    pub invalid_count: usize,
    pub blocked: bool,
    pub block_reasons: Vec<String>,
}

/// A branch matches a pattern: `prefix/*` matches `prefix` and every branch
/// under `prefix/`; any other pattern matches only itself.
pub open spec fn branch_matches(branch: Seq<char>, pattern: Seq<char>) -> bool {
    if seq_ends_with(pattern, seq!['/', '*']) {
        let prefix = pattern.subrange(0, pattern.len() - 2);
        branch == prefix || seq_starts_with(branch, prefix + seq!['/'])
    } else {
        branch == pattern
    }
}

/// Some pattern matches the branch.
pub open spec fn is_protected(branch: Seq<char>, patterns: Seq<String>) -> bool {
    exists|i: int| 0 <= i < patterns.len() && branch_matches(branch, (#[trigger] patterns[i])@)
}

/// Whether commit checks apply on a branch under an enforcement setting.
pub open spec fn enforced(e: CommitCheckEnforcement, protected_branch: bool) -> bool {
    match e {
        CommitCheckEnforcement::AllBranches => true,
        CommitCheckEnforcement::ProtectedBranches => protected_branch,
        CommitCheckEnforcement::NoBranches => false,
    }
}

/// The push is blocked for the branch: branch policy is checked, the branch
/// is protected and pushes to protected branches are not allowed.
pub open spec fn branch_blocks(p: Policy, protected_branch: bool) -> bool {
    p.push.check_branch_policy && protected_branch && !p.push.allow_protected
}

/// The push is blocked for its commits: commits are checked and enforced on
/// this branch, and some commit is invalid.
pub open spec fn commits_block(p: Policy, protected_branch: bool, invalid: nat) -> bool {
    p.push.check_commits && p.check.commits_enabled && p.check.require_conventional && enforced(
        p.check.enforcement,
        protected_branch,
    ) && invalid > 0
}

/// The reasons a push is blocked, in the order the rules are checked.
pub open spec fn block_reasons_spec(
    p: Policy,
    branch: Seq<char>,
    protected_branch: bool,
    invalid: nat,
) -> Seq<Seq<char>> {
    let r1: Seq<Seq<char>> = if branch_blocks(p, protected_branch) {
        seq!["push to protected branch '"@ + branch + "' is blocked by policy"@]
    } else {
        seq![]
    };
    if commits_block(p, protected_branch, invalid) {
        r1.push(dec(invalid) + " commit(s) do not satisfy conventional commit policy"@)
    } else {
        r1
    }
}

/// Under enforcement on all branches, with commit checks on, invalid commits
/// block a push to any branch, protected or not, and the last reason names
/// how many commits failed; under enforcement on protected branches only, a
/// push to an unprotected branch is never blocked for its commits; with no
/// enforcement, never.
pub proof fn lemma_commit_check_enforcement(p: Policy, branch: Seq<char>, protected_branch: bool, invalid: nat)
    ensures
        p.push.check_commits && p.check.commits_enabled && p.check.require_conventional
            && p.check.enforcement == CommitCheckEnforcement::AllBranches && invalid > 0 ==> {
            &&& commits_block(p, protected_branch, invalid)
            &&& block_reasons_spec(p, branch, protected_branch, invalid).last() == dec(invalid)
                + " commit(s) do not satisfy conventional commit policy"@
        },
        p.check.enforcement == CommitCheckEnforcement::ProtectedBranches && !protected_branch
            ==> !commits_block(p, protected_branch, invalid),
        p.check.enforcement == CommitCheckEnforcement::NoBranches ==> !commits_block(
            p,
            protected_branch,
            invalid,
        ),
{
}

/// Whether commit checks apply on a branch.
fn should_enforce_commit_check(policy: &Policy, protected_branch: bool) -> (r: bool)
    ensures
        r == enforced(policy.check.enforcement, protected_branch),
{
    match policy.check.enforcement {
        CommitCheckEnforcement::AllBranches => true,
        CommitCheckEnforcement::ProtectedBranches => protected_branch,
        CommitCheckEnforcement::NoBranches => false,
    }
}

/// Whether a branch matches a pattern.
fn branch_matches_pattern(branch: &str, pattern: &str) -> (r: bool)
    ensures
        r == branch_matches(branch@, pattern@),
{
    let b = str_to_chars(branch);
    let p = str_to_chars(pattern);
    let n = p.len();
    if n >= 2 && p[n - 2] == '/' && p[n - 1] == '*' {
        proof {
            assert(p@.subrange(n - 2, n as int) =~= seq!['/', '*']);
        }
        let mut prefix = sub_vec(&p, 0, n - 2);
        if chars_eq(&b, &prefix) {
            return true;
        }
        let ghost pre = prefix@;
        prefix.push('/');
        assert(prefix@ =~= pre + seq!['/']);
        chars_starts_with(&b, &prefix)
    } else {
        proof {
            if n >= 2 {
                assert(p@.subrange(n - 2, n as int)[0] == p@[n - 2]);
                assert(p@.subrange(n - 2, n as int)[1] == p@[n - 1]);
            }
        }
        chars_eq(&b, &p)
    }
}

/// Whether some pattern matches the branch.
fn is_protected_branch(branch: &str, patterns: &Vec<String>) -> (r: bool)
    ensures
        r == is_protected(branch@, patterns@),
{
    let mut i: usize = 0;
    while i < patterns.len()
        invariant
            0 <= i <= patterns@.len(),
            forall|j: int| 0 <= j < i ==> !branch_matches(branch@, (#[trigger] patterns@[j])@),
        decreases patterns@.len() - i,
    {
        if branch_matches_pattern(branch, patterns[i].as_str()) {
            return true;
        }
        i = i + 1;
    }
    false
}

/// Checks a push of `commits` to `current_branch` against the policy.
pub fn evaluate_push(policy: &Policy, current_branch: &str, commits: Vec<ValidatedCommit>) -> (r:
    PushReport)
    ensures
        r.current_branch@ == current_branch@,
        r.protected_branch == is_protected(current_branch@, policy.branch.protected_patterns@),
        r.commits@ == commits@,
        r.total_checked == commits@.len(),
        r.invalid_count == invalid_count_spec(commits@),
        r.blocked == (branch_blocks(*policy, r.protected_branch) || commits_block(
            *policy,
            r.protected_branch,
            r.invalid_count as nat,
        )),
        texts(r.block_reasons@) == block_reasons_spec(
            *policy,
            current_branch@,
            r.protected_branch,
            r.invalid_count as nat,
        ),
        r.blocked == (r.block_reasons@.len() > 0),
        policy.push.check_commits && policy.check.commits_enabled && policy.check.require_conventional
            && policy.check.enforcement == CommitCheckEnforcement::AllBranches && r.invalid_count > 0
            ==> r.blocked,
        policy.check.enforcement != CommitCheckEnforcement::AllBranches && !r.protected_branch
            ==> !r.blocked,
        r.invalid_count == 0 ==> r.blocked == (policy.push.check_branch_policy && r.protected_branch
            && !policy.push.allow_protected),
{
    let protected_branch = is_protected_branch(current_branch, &policy.branch.protected_patterns);
    let total_checked = commits.len();
    let mut invalid_count: usize = 0;
    let mut i: usize = 0;
    while i < commits.len()
        invariant
            0 <= i <= commits@.len(),
            invalid_count == invalid_count_spec(commits@.take(i as int)),
        decreases commits@.len() - i,
    {
        proof {
            assert(commits@.take(i + 1).drop_last() =~= commits@.take(i as int));
            lemma_invalid_count_le(commits@.take(i as int));
        }
        if !commits[i].valid {
            invalid_count = invalid_count + 1;
        }
        i = i + 1;
    }
    assert(commits@.take(i as int) =~= commits@);
    let mut blocked = false;
    let mut block_reasons: Vec<String> = Vec::new();
    if policy.push.check_branch_policy && protected_branch && !policy.push.allow_protected {
        blocked = true;
        block_reasons.push(
            concat3("push to protected branch '", current_branch, "' is blocked by policy"),
        );
        assert(texts(block_reasons@) =~= seq![
            "push to protected branch '"@ + current_branch@ + "' is blocked by policy"@,
        ]);
    } else {
        assert(texts(block_reasons@) =~= Seq::<Seq<char>>::empty());
    }
    let ghost r1 = texts(block_reasons@);
    if policy.push.check_commits && policy.check.commits_enabled && policy.check.require_conventional
        && should_enforce_commit_check(policy, protected_branch) && invalid_count > 0 {
        blocked = true;
        let n = u64_to_string(invalid_count as u64);
        let mut msg = n;
        msg.append(" commit(s) do not satisfy conventional commit policy");
        block_reasons.push(msg);
        assert(texts(block_reasons@) =~= r1.push(
            dec(invalid_count as nat) + " commit(s) do not satisfy conventional commit policy"@,
        ));
    }
    PushReport {
        current_branch: owned(current_branch),
        protected_branch,
        commits,
        total_checked,
        invalid_count,
        blocked,
        block_reasons,
    }
}

} // verus!
