//! Enumerations that policies and configuration share, and the bump decision.
use vstd::prelude::*;
use vstd::string::*;

verus! {

/// Whether a commit scope is forbidden, optional or mandatory.
#[derive(Debug, Clone, Copy, PartialEq, Eq, Structural)]
pub enum ScopeMode {
    Disabled,
    Optional,
    Required,
}

/// Where a ticket reference comes from.
#[derive(Debug, Clone, Copy, PartialEq, Eq, Structural)]
pub enum TicketSource {
    Branch,
    Prompt,
    BranchOrPrompt,
    Disabled,
}

/// On which branches commit checks are enforced.
#[derive(Debug, Clone, Copy, PartialEq, Eq, Structural)]
pub enum CommitEnforcementScope {
    AllBranches,
    ProtectedBranches,
    NoBranches,
}

/// Output format of the changelog.
#[derive(Debug, Clone, Copy, PartialEq, Eq, Structural)]
pub enum ChangelogFormat {
    Markdown,
    Json,
}

/// Where the breaking-change emoji goes in a header.
#[derive(Debug, Clone, Copy, PartialEq, Eq, Structural)]
pub enum EmojiMode {
    Prepend,
    Append,
    Replace,
    Off,
}

impl Default for EmojiMode {
    fn default() -> (r: Self)
        ensures
            r == EmojiMode::Prepend,
    {
        EmojiMode::Prepend
    }
}

/// How far a change moves the version.
#[derive(Debug, Clone, Copy, PartialEq, Eq, Structural)]
pub enum BumpLevel {
    NoBump,
    Patch,
    Minor,
    Major,
}

/// Rank of a bump level: none < patch < minor < major.
pub open spec fn bump_rank(b: BumpLevel) -> int {
    match b {
        BumpLevel::NoBump => 0,
        BumpLevel::Patch => 1,
        BumpLevel::Minor => 2,
        BumpLevel::Major => 3,
    }
}

/// The bump implied by the kinds of changes found: any breaking keyword gives a
/// major bump, else any minor change a minor bump, else any patch change a patch.
pub open spec fn decide_bump_spec(n_breaking: nat, n_minor: nat, n_patch: nat) -> BumpLevel {
    if n_breaking > 0 {
        BumpLevel::Major
    } else if n_minor > 0 {
        BumpLevel::Minor
    } else if n_patch > 0 {
        BumpLevel::Patch
    } else {
        BumpLevel::NoBump
    }
}

/// The bump implied by the breaking, minor and patch items found.
pub fn decide_bump(breaking_keywords: &[String], minor: &[String], patch: &[String]) -> (r:
    BumpLevel)
    ensures
        r == decide_bump_spec(
            breaking_keywords@.len(),
            minor@.len(),
            patch@.len(),
        ),
{
    if breaking_keywords.len() != 0 {
        BumpLevel::Major
    } else if minor.len() != 0 {
        BumpLevel::Minor
    } else if patch.len() != 0 {
        BumpLevel::Patch
    } else {
        BumpLevel::NoBump
    }
}

/// The AI provider that generates texts.
#[derive(Debug, Clone, Copy, PartialEq, Eq, Structural)]
pub enum AiProvider {
    Copilot,
}

impl AiProvider {
    /// The provider named by `provider`; every name, known or not, selects Copilot.
    pub fn from_str(provider: &str) -> (r: AiProvider)
        ensures
            r == AiProvider::Copilot,
    {
        AiProvider::Copilot
    }

    /// The provider's name.
    pub fn as_str(&self) -> (r: &str)
        ensures
            r@ == "copilot"@,
    {
        "copilot"
    }
}

} // verus!
