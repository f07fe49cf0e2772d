//! Error kinds, error codes and the error value carried through the library.
use vstd::prelude::*;
use vstd::string::*;

use crate::text::{dec, u64_to_dec, chars_to_string, owned};

verus! {

/// Broad classes of failure; each owns a block of numeric error codes.
#[derive(Debug, Clone, Copy, PartialEq, Eq, Structural)]
pub enum ErrorKind {
    User,
    Config,
    State,
    Registry,
    Git,
    Validation,
    Release,
    Hook,
    Ai,
    Io,
    Process,
    Runtime,
}

/// The thousands block of each kind.
pub open spec fn kind_prefix(k: ErrorKind) -> u16 {
    match k {
        ErrorKind::User => 0,
        ErrorKind::Config => 1,
        ErrorKind::State => 2,
        ErrorKind::Registry => 3,
        ErrorKind::Git => 4,
        ErrorKind::Validation => 5,
        ErrorKind::Release => 6,
        ErrorKind::Hook => 7,
        ErrorKind::Ai => 8,
        ErrorKind::Io => 9,
        ErrorKind::Process => 10,
        ErrorKind::Runtime => 11,
    }
}

impl ErrorKind {
    /// The thousands block of this kind.
    pub fn prefix(self) -> (r: u16)
        ensures
            r == kind_prefix(self),
    {
        match self {
            Self::User => 0,
            Self::Config => 1,
            Self::State => 2,
            Self::Registry => 3,
            Self::Git => 4,
            Self::Validation => 5,
            Self::Release => 6,
            Self::Hook => 7,
            Self::Ai => 8,
            Self::Io => 9,
            Self::Process => 10,
            Self::Runtime => 11,
        }
    }
}

/// Every error the tool can report.
#[derive(Debug, Clone, Copy, PartialEq, Eq, Structural)]
pub enum ErrorCode {
    UserCancelled,
    UserInteractionRequired,
    UserInvalidArgument,
    FormatUnsupported,
    InvalidInput,
    ConfigInvalid,
    ConfigUnreadable,
    ConfigReferenceInvalid,
    StateInvalid,
    StateUnreadable,
    RegistryUnknown,
    RegistryInvalid,
    RegistryUnreachable,
    RegistrySyncFailed,
    RegistryRefNotFound,
    RegistrySectionMissing,
    RegistryOffline,
    GitMissing,
    GitRepoNotFound,
    GitCommandFailed,
    GitPushBlocked,
    ValidationFailed,
    CommitInvalid,
    PrInvalid,
    BranchInvalid,
    ReleaseInvalid,
    ReleaseTagExists,
    ReleaseBranchExists,
    HookInstallFailed,
    HookExecutionFailed,
    AiUnsupported,
    AiProviderFailed,
    IoFailure,
    SerializationFailure,
    UiPromptFailed,
    OutputRenderFailure,
    ProcessFailure,
    RuntimeFailure,
}

/// Kind and index of each code.
pub open spec fn code_info(c: ErrorCode) -> (ErrorKind, u16) {
    match c {
        ErrorCode::UserCancelled => (ErrorKind::User, 1),
        ErrorCode::UserInteractionRequired => (ErrorKind::User, 2),
        ErrorCode::UserInvalidArgument => (ErrorKind::User, 3),
        ErrorCode::FormatUnsupported => (ErrorKind::User, 4),
        ErrorCode::InvalidInput => (ErrorKind::User, 5),
        ErrorCode::ConfigInvalid => (ErrorKind::Config, 1),
        ErrorCode::ConfigUnreadable => (ErrorKind::Config, 2),
        ErrorCode::ConfigReferenceInvalid => (ErrorKind::Config, 3),
        ErrorCode::StateInvalid => (ErrorKind::State, 1),
        ErrorCode::StateUnreadable => (ErrorKind::State, 2),
        ErrorCode::RegistryUnknown => (ErrorKind::Registry, 1),
        ErrorCode::RegistryInvalid => (ErrorKind::Registry, 2),
        ErrorCode::RegistryUnreachable => (ErrorKind::Registry, 3),
        ErrorCode::RegistrySyncFailed => (ErrorKind::Registry, 4),
        ErrorCode::RegistryRefNotFound => (ErrorKind::Registry, 5),
        ErrorCode::RegistrySectionMissing => (ErrorKind::Registry, 6),
        ErrorCode::RegistryOffline => (ErrorKind::Registry, 7),
        ErrorCode::GitMissing => (ErrorKind::Git, 1),
        ErrorCode::GitRepoNotFound => (ErrorKind::Git, 2),
        ErrorCode::GitCommandFailed => (ErrorKind::Git, 3),
        ErrorCode::GitPushBlocked => (ErrorKind::Git, 4),
        ErrorCode::ValidationFailed => (ErrorKind::Validation, 1),
        ErrorCode::CommitInvalid => (ErrorKind::Validation, 2),
        ErrorCode::PrInvalid => (ErrorKind::Validation, 3),
        ErrorCode::BranchInvalid => (ErrorKind::Validation, 4),
        ErrorCode::ReleaseInvalid => (ErrorKind::Release, 1),
        ErrorCode::ReleaseTagExists => (ErrorKind::Release, 2),
        ErrorCode::ReleaseBranchExists => (ErrorKind::Release, 3),
        ErrorCode::HookInstallFailed => (ErrorKind::Hook, 1),
        ErrorCode::HookExecutionFailed => (ErrorKind::Hook, 2),
        ErrorCode::AiUnsupported => (ErrorKind::Ai, 1),
        ErrorCode::AiProviderFailed => (ErrorKind::Ai, 2),
        ErrorCode::IoFailure => (ErrorKind::Io, 1),
        ErrorCode::SerializationFailure => (ErrorKind::Io, 2),
        ErrorCode::UiPromptFailed => (ErrorKind::Io, 3),
        ErrorCode::OutputRenderFailure => (ErrorKind::Io, 4),
        ErrorCode::ProcessFailure => (ErrorKind::Process, 1),
        ErrorCode::RuntimeFailure => (ErrorKind::Runtime, 1),
    }
}

/// Process exit status of each kind.
pub open spec fn kind_exit_code(k: ErrorKind) -> i32 {
    match k {
        ErrorKind::User => 2,
        ErrorKind::Config => 10,
        ErrorKind::State => 11,
        ErrorKind::Registry => 20,
        ErrorKind::Git => 21,
        ErrorKind::Io => 25,
        ErrorKind::Process => 26,
        ErrorKind::Validation => 30,
        ErrorKind::Release => 31,
        ErrorKind::Hook => 32,
        ErrorKind::Ai => 33,
        ErrorKind::Runtime => 50,
    }
}

/// `n` written with at least four digits, zero-padded on the left.
pub open spec fn pad4(d: Seq<char>) -> Seq<char> {
    if d.len() >= 4 {
        d
    } else {
        Seq::new((4 - d.len()) as nat, |i: int| '0') + d
    }
}

impl ErrorCode {
    /// The kind this code belongs to.
    pub fn kind(self) -> (r: ErrorKind)
        ensures
            r == code_info(self).0,
    {
        match self {
            Self::UserCancelled | Self::UserInteractionRequired | Self::UserInvalidArgument
            | Self::FormatUnsupported | Self::InvalidInput => ErrorKind::User,
            Self::ConfigInvalid | Self::ConfigUnreadable | Self::ConfigReferenceInvalid => {
                ErrorKind::Config
            },
            Self::StateInvalid | Self::StateUnreadable => ErrorKind::State,
            Self::RegistryUnknown | Self::RegistryInvalid | Self::RegistryUnreachable
            | Self::RegistrySyncFailed | Self::RegistryRefNotFound | Self::RegistrySectionMissing
            | Self::RegistryOffline => ErrorKind::Registry,
            Self::GitMissing | Self::GitRepoNotFound | Self::GitCommandFailed
            | Self::GitPushBlocked => ErrorKind::Git,
            Self::ValidationFailed | Self::CommitInvalid | Self::PrInvalid
            | Self::BranchInvalid => ErrorKind::Validation,
            Self::ReleaseInvalid | Self::ReleaseTagExists | Self::ReleaseBranchExists => {
                ErrorKind::Release
            },
            Self::HookInstallFailed | Self::HookExecutionFailed => ErrorKind::Hook,
            Self::AiUnsupported | Self::AiProviderFailed => ErrorKind::Ai,
            Self::IoFailure | Self::SerializationFailure | Self::UiPromptFailed
            | Self::OutputRenderFailure => ErrorKind::Io,
            Self::ProcessFailure => ErrorKind::Process,
            Self::RuntimeFailure => ErrorKind::Runtime,
        }
    }

    /// Position of this code inside its kind.
    pub fn index(self) -> (r: u16)
        ensures
            r == code_info(self).1,
    {
        match self {
            Self::UserCancelled => 1,
            Self::UserInteractionRequired => 2,
            Self::UserInvalidArgument => 3,
            Self::FormatUnsupported => 4,
            Self::InvalidInput => 5,
            Self::ConfigInvalid => 1,
            Self::ConfigUnreadable => 2,
            Self::ConfigReferenceInvalid => 3,
            Self::StateInvalid => 1,
            Self::StateUnreadable => 2,
            Self::RegistryUnknown => 1,
            Self::RegistryInvalid => 2,
            Self::RegistryUnreachable => 3,
            Self::RegistrySyncFailed => 4,
            Self::RegistryRefNotFound => 5,
            Self::RegistrySectionMissing => 6,
            Self::RegistryOffline => 7,
            Self::GitMissing => 1,
            Self::GitRepoNotFound => 2,
            Self::GitCommandFailed => 3,
            Self::GitPushBlocked => 4,
            Self::ValidationFailed => 1,
            Self::CommitInvalid => 2,
            Self::PrInvalid => 3,
            Self::BranchInvalid => 4,
            Self::ReleaseInvalid => 1,
            Self::ReleaseTagExists => 2,
            Self::ReleaseBranchExists => 3,
            Self::HookInstallFailed => 1,
            Self::HookExecutionFailed => 2,
            Self::AiUnsupported => 1,
            Self::AiProviderFailed => 2,
            Self::IoFailure => 1,
            Self::SerializationFailure => 2,
            Self::UiPromptFailed => 3,
            Self::OutputRenderFailure => 4,
            Self::ProcessFailure => 1,
            Self::RuntimeFailure => 1,
        }
    }

    /// The number that identifies this code: kind block times a thousand plus the index.
    pub fn numeric(self) -> (r: u16)
        ensures
            r == kind_prefix(code_info(self).0) * 1000 + code_info(self).1,
    {
        self.kind().prefix() * 1000 + self.index()
    }

    /// The identifier shown to users, `E` followed by the number padded to four digits.
    pub fn id(self) -> (r: String)
        ensures
            r@ == seq!['E'] + pad4(dec(
                (kind_prefix(code_info(self).0) * 1000 + code_info(self).1) as nat,
            )),
    {
        let n = self.numeric();
        let d = u64_to_dec(n as u64);
        let mut out: Vec<char> = Vec::new();
        out.push('E');
        let mut k: usize = d.len();
        while k < 4
            invariant
                d.len() <= k,
                k <= 4 || k == d.len(),
                out@ == seq!['E'] + Seq::new((k - d.len()) as nat, |i: int| '0'),
            decreases 4 - k,
        {
            out.push('0');
            k = k + 1;
            assert(out@ =~= seq!['E'] + Seq::new((k - d.len()) as nat, |i: int| '0'));
        }
        let mut j: usize = 0;
        let ghost base = out@;
        while j < d.len()
            invariant
                0 <= j <= d.len(),
                out@ == base + d@.subrange(0, j as int),
            decreases d.len() - j,
        {
            out.push(d[j]);
            j = j + 1;
            assert(out@ =~= base + d@.subrange(0, j as int));
        }
        assert(d@.subrange(0, d.len() as int) =~= d@);
        proof {
            if d.len() >= 4 {
                assert(base =~= seq!['E']);
            }
        }
        assert(out@ =~= seq!['E'] + pad4(d@));
        chars_to_string(&out, 0, out.len())
    }

    /// Process exit status for this code.
    pub fn exit_code(self) -> (r: i32)
        ensures
            r == kind_exit_code(code_info(self).0),
    {
        match self.kind() {
            ErrorKind::User => 2,
            ErrorKind::Config => 10,
            ErrorKind::State => 11,
            ErrorKind::Registry => 20,
            ErrorKind::Git => 21,
            ErrorKind::Io => 25,
            ErrorKind::Process => 26,
            ErrorKind::Validation => 30,
            ErrorKind::Release => 31,
            ErrorKind::Hook => 32,
            ErrorKind::Ai => 33,
            ErrorKind::Runtime => 50,
        }
    }

    /// A new error of this code without context.
    pub fn error(self) -> (r: Error)
        ensures
            r.code == self,
            r.context@.len() == 0,
            context_view(r) == Seq::<(Seq<char>, Seq<char>)>::empty(),
    {
        let r = Error { code: self, context: Vec::new() };
        assert(context_view(r) =~= Seq::<(Seq<char>, Seq<char>)>::empty());
        r
    }
}


/// The message of each code.
pub open spec fn code_message(c: ErrorCode) -> Seq<char> {
    match c {
        ErrorCode::UserCancelled => "Operation cancelled"@,
        ErrorCode::UserInteractionRequired => "Interactive input required"@,
        ErrorCode::UserInvalidArgument => "Invalid argument"@,
        ErrorCode::FormatUnsupported => "Format is not supported for this command"@,
        ErrorCode::InvalidInput => "Input is invalid"@,
        ErrorCode::ConfigInvalid => "Configuration is invalid"@,
        ErrorCode::ConfigUnreadable => "Configuration is unreadable"@,
        ErrorCode::ConfigReferenceInvalid => "Configuration reference is invalid"@,
        ErrorCode::StateInvalid => "State is invalid"@,
        ErrorCode::StateUnreadable => "State is unreadable"@,
        ErrorCode::RegistryUnknown => "Registry is unknown"@,
        ErrorCode::RegistryInvalid => "Registry is invalid"@,
        ErrorCode::RegistryUnreachable => "Registry is unreachable"@,
        ErrorCode::RegistrySyncFailed => "Registry sync failed"@,
        ErrorCode::RegistryRefNotFound => "Registry ref not found"@,
        ErrorCode::RegistrySectionMissing => "Registry section is missing"@,
        ErrorCode::RegistryOffline => "Registry unavailable in offline mode"@,
        ErrorCode::GitMissing => "git is missing"@,
        ErrorCode::GitRepoNotFound => "Git repository not found"@,
        ErrorCode::GitCommandFailed => "Git command failed"@,
        ErrorCode::GitPushBlocked => "Push blocked by policy"@,
        ErrorCode::ValidationFailed => "Validation failed"@,
        ErrorCode::CommitInvalid => "Commit is invalid"@,
        ErrorCode::PrInvalid => "Pull request is invalid"@,
        ErrorCode::BranchInvalid => "Branch is invalid"@,
        ErrorCode::ReleaseInvalid => "Release is invalid"@,
        ErrorCode::ReleaseTagExists => "Release tag already exists"@,
        ErrorCode::ReleaseBranchExists => "Release branch already exists"@,
        ErrorCode::HookInstallFailed => "Hook installation failed"@,
        ErrorCode::HookExecutionFailed => "Hook execution failed"@,
        ErrorCode::AiUnsupported => "AI is not supported for this command"@,
        ErrorCode::AiProviderFailed => "AI provider failed"@,
        ErrorCode::IoFailure => "I/O failure"@,
        ErrorCode::SerializationFailure => "Serialization failure"@,
        ErrorCode::UiPromptFailed => "Prompt failed"@,
        ErrorCode::OutputRenderFailure => "Output render failure"@,
        ErrorCode::ProcessFailure => "Process failure"@,
        ErrorCode::RuntimeFailure => "Runtime failure"@,
    }
}

impl ErrorCode {
    /// The message of this code.
    pub fn message(self) -> (r: &'static str)
        ensures
            r@ == code_message(self),
    {
        match self {
            Self::UserCancelled => "Operation cancelled",
            Self::UserInteractionRequired => "Interactive input required",
            Self::UserInvalidArgument => "Invalid argument",
            Self::FormatUnsupported => "Format is not supported for this command",
            Self::InvalidInput => "Input is invalid",
            Self::ConfigInvalid => "Configuration is invalid",
            Self::ConfigUnreadable => "Configuration is unreadable",
            Self::ConfigReferenceInvalid => "Configuration reference is invalid",
            Self::StateInvalid => "State is invalid",
            Self::StateUnreadable => "State is unreadable",
            Self::RegistryUnknown => "Registry is unknown",
            Self::RegistryInvalid => "Registry is invalid",
            Self::RegistryUnreachable => "Registry is unreachable",
            Self::RegistrySyncFailed => "Registry sync failed",
            Self::RegistryRefNotFound => "Registry ref not found",
            Self::RegistrySectionMissing => "Registry section is missing",
            Self::RegistryOffline => "Registry unavailable in offline mode",
            Self::GitMissing => "git is missing",
            Self::GitRepoNotFound => "Git repository not found",
            Self::GitCommandFailed => "Git command failed",
            Self::GitPushBlocked => "Push blocked by policy",
            Self::ValidationFailed => "Validation failed",
            Self::CommitInvalid => "Commit is invalid",
            Self::PrInvalid => "Pull request is invalid",
            Self::BranchInvalid => "Branch is invalid",
            Self::ReleaseInvalid => "Release is invalid",
            Self::ReleaseTagExists => "Release tag already exists",
            Self::ReleaseBranchExists => "Release branch already exists",
            Self::HookInstallFailed => "Hook installation failed",
            Self::HookExecutionFailed => "Hook execution failed",
            Self::AiUnsupported => "AI is not supported for this command",
            Self::AiProviderFailed => "AI provider failed",
            Self::IoFailure => "I/O failure",
            Self::SerializationFailure => "Serialization failure",
            Self::UiPromptFailed => "Prompt failed",
            Self::OutputRenderFailure => "Output render failure",
            Self::ProcessFailure => "Process failure",
            Self::RuntimeFailure => "Runtime failure",
        }
    }

    /// How this code is shown to users: its message and, in brackets, its
    /// identifier.
    pub fn describe(self) -> (r: String)
        ensures
            r@ == code_message(self) + " ("@ + seq!['E'] + pad4(
                dec((kind_prefix(code_info(self).0) * 1000 + code_info(self).1) as nat),
            ) + ")"@,
    {
        let id = self.id();
        let head = crate::text::concat3(self.message(), " (", id.as_str());
        crate::text::concat2(head.as_str(), ")")
    }
}

/// The context lines of an error as texts.
pub open spec fn context_view(e: Error) -> Seq<(Seq<char>, Seq<char>)> {
    e.context@.map_values(|p: (String, String)| (p.0@, p.1@))
}

/// An error: its code and key/value context lines, in the order they were added.
#[derive(Debug, Clone, PartialEq, Eq)]
pub struct Error {
    pub code: ErrorCode,
    pub context: Vec<(String, String)>,
}

impl Error {
    /// The same error with one more context entry.
    pub fn with_context(self, key: &str, value: &str) -> (r: Error)
        ensures
            r.code == self.code,
            r.context@.len() == self.context@.len() + 1,
            r.context@.subrange(0, self.context@.len() as int) == self.context@,
            r.context@.last().0@ == key@,
            r.context@.last().1@ == value@,
            context_view(r) == context_view(self).push((key@, value@)),
    {
        let mut context = self.context;
        let k = owned(key);
        let v = owned(value);
        context.push((k, v));
        assert(context@.subrange(0, self.context@.len() as int) =~= self.context@);
        let r = Error { code: self.code, context };
        assert(context_view(r) =~= context_view(self).push((key@, value@)));
        r
    }
}

} // verus!
