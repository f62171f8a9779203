//! The words of the command line: the commands, their arguments and options,
//! and the options that every command takes.
//!
//! A credential is never an argument: what carries one names a file or a
//! descriptor that holds it.

use vstd::prelude::*;

use crate::cli::{self, Cmd, CmdV, Command};
use crate::json;
use crate::text;

verus! {

/// What an option takes.
#[derive(Clone, Copy, Debug, PartialEq, Eq, Structural)]
pub enum Takes {
    Text,
    /// Texts; the option may be repeated.
    List,
    Count,
    Descriptor,
}

/// The options that every command takes.
#[derive(Clone, Copy, Debug, PartialEq, Eq, Structural)]
pub enum Flag {
    /// The vault file.
    File,
    /// The socket of the daemon.
    Socket,
    /// Read the passphrase from a file, or from standard input.
    PassphraseFile,
    /// Read the agent token from a file, or from standard input.
    TokenFile,
    /// Read the agent token from a descriptor.
    TokenFd,
    /// Read the lease credential from a file, or from standard input.
    LeaseFile,
    /// Seconds of inactivity after which the daemon locks itself; zero switches this off.
    IdleLockSecs,
    /// The fingerprint that is expected on first contact.
    TrustFingerprint,
}

/// The options of single commands.
#[derive(Clone, Copy, Debug, PartialEq, Eq, Structural)]
pub enum Opt {
    /// A secret to select; all where none is named.
    Key,
    /// The working directory of the child.
    Cwd,
    /// A variable for the child, by an allowed name.
    Env,
    /// End the run after so many seconds.
    TimeoutSecs,
    /// The approval of an earlier reveal.
    ApprovalId,
    /// An authorized folder.
    Path,
    /// Also write the token to this file.
    WriteTokenFile,
    /// The operations, separated by commas.
    Ops,
    /// How many entries to show.
    Tail,
    /// The time to live in seconds.
    TtlSecs,
}

impl Flag {
    /// The name of the option, without its dashes.
    pub open spec fn long(self) -> Seq<char> {
        match self {
            Flag::File => "file"@,
            Flag::Socket => "socket"@,
            Flag::PassphraseFile => "passphrase-file"@,
            Flag::TokenFile => "token-file"@,
            Flag::TokenFd => "token-fd"@,
            Flag::LeaseFile => "lease-file"@,
            Flag::IdleLockSecs => "idle-lock-secs"@,
            Flag::TrustFingerprint => "trust-fingerprint"@,
        }
    }

    /// The name of the option, without its dashes.
    pub fn name(self) -> (r: &'static str)
        ensures
            r@ == self.long(),
    {
        match self {
            Flag::File => "file",
            Flag::Socket => "socket",
            Flag::PassphraseFile => "passphrase-file",
            Flag::TokenFile => "token-file",
            Flag::TokenFd => "token-fd",
            Flag::LeaseFile => "lease-file",
            Flag::IdleLockSecs => "idle-lock-secs",
            Flag::TrustFingerprint => "trust-fingerprint",
        }
    }

    /// What the value of the option is called.
    pub open spec fn value_title(self) -> Seq<char> {
        match self {
            Flag::File => "PATH"@,
            Flag::Socket => "PATH"@,
            Flag::PassphraseFile => "PATH"@,
            Flag::TokenFile => "PATH"@,
            Flag::TokenFd => "FD"@,
            Flag::LeaseFile => "PATH"@,
            Flag::IdleLockSecs => "SECS"@,
            Flag::TrustFingerprint => "HEX"@,
        }
    }

    /// What the value of the option is called.
    pub fn value_name(self) -> (r: &'static str)
        ensures
            r@ == self.value_title(),
    {
        match self {
            Flag::File => "PATH",
            Flag::Socket => "PATH",
            Flag::PassphraseFile => "PATH",
            Flag::TokenFile => "PATH",
            Flag::TokenFd => "FD",
            Flag::LeaseFile => "PATH",
            Flag::IdleLockSecs => "SECS",
            Flag::TrustFingerprint => "HEX",
        }
    }

    /// What the option takes.
    pub fn takes(self) -> (r: Takes)
        ensures
            r == self.takes_of(),
    {
        match self {
            Flag::File => Takes::Text,
            Flag::Socket => Takes::Text,
            Flag::PassphraseFile => Takes::Text,
            Flag::TokenFile => Takes::Text,
            Flag::TokenFd => Takes::Descriptor,
            Flag::LeaseFile => Takes::Text,
            Flag::IdleLockSecs => Takes::Count,
            Flag::TrustFingerprint => Takes::Text,
        }
    }

    /// What the option takes.
    pub open spec fn takes_of(self) -> Takes {
        match self {
            Flag::File => Takes::Text,
            Flag::Socket => Takes::Text,
            Flag::PassphraseFile => Takes::Text,
            Flag::TokenFile => Takes::Text,
            Flag::TokenFd => Takes::Descriptor,
            Flag::LeaseFile => Takes::Text,
            Flag::IdleLockSecs => Takes::Count,
            Flag::TrustFingerprint => Takes::Text,
        }
    }
}

impl Opt {
    /// The name of the option, without its dashes.
    pub open spec fn long(self) -> Seq<char> {
        match self {
            Opt::Key => "key"@,
            Opt::Cwd => "cwd"@,
            Opt::Env => "env"@,
            Opt::TimeoutSecs => "timeout-secs"@,
            Opt::ApprovalId => "approval-id"@,
            Opt::Path => "path"@,
            Opt::WriteTokenFile => "write-token-file"@,
            Opt::Ops => "ops"@,
            Opt::Tail => "tail"@,
            Opt::TtlSecs => "ttl-secs"@,
        }
    }

    /// The name of the option, without its dashes.
    pub fn name(self) -> (r: &'static str)
        ensures
            r@ == self.long(),
    {
        match self {
            Opt::Key => "key",
            Opt::Cwd => "cwd",
            Opt::Env => "env",
            Opt::TimeoutSecs => "timeout-secs",
            Opt::ApprovalId => "approval-id",
            Opt::Path => "path",
            Opt::WriteTokenFile => "write-token-file",
            Opt::Ops => "ops",
            Opt::Tail => "tail",
            Opt::TtlSecs => "ttl-secs",
        }
    }

    /// What the value of the option is called.
    pub open spec fn value_title(self) -> Seq<char> {
        match self {
            Opt::Key => "NAME"@,
            Opt::Cwd => "PATH"@,
            Opt::Env => "KEY=VALUE"@,
            Opt::TimeoutSecs => "N"@,
            Opt::ApprovalId => "ID"@,
            Opt::Path => "PATH"@,
            Opt::WriteTokenFile => "PATH"@,
            Opt::Ops => "OPS"@,
            Opt::Tail => "N"@,
            Opt::TtlSecs => "N"@,
        }
    }

    /// What the value of the option is called.
    pub fn value_name(self) -> (r: &'static str)
        ensures
            r@ == self.value_title(),
    {
        match self {
            Opt::Key => "NAME",
            Opt::Cwd => "PATH",
            Opt::Env => "KEY=VALUE",
            Opt::TimeoutSecs => "N",
            Opt::ApprovalId => "ID",
            Opt::Path => "PATH",
            Opt::WriteTokenFile => "PATH",
            Opt::Ops => "OPS",
            Opt::Tail => "N",
            Opt::TtlSecs => "N",
        }
    }

    /// What the option takes.
    pub fn takes(self) -> (r: Takes)
        ensures
            r == self.takes_of(),
    {
        match self {
            Opt::Key => Takes::List,
            Opt::Cwd => Takes::Text,
            Opt::Env => Takes::List,
            Opt::TimeoutSecs => Takes::Count,
            Opt::ApprovalId => Takes::Text,
            Opt::Path => Takes::List,
            Opt::WriteTokenFile => Takes::Text,
            Opt::Ops => Takes::Text,
            Opt::Tail => Takes::Count,
            Opt::TtlSecs => Takes::Count,
        }
    }

    /// What the option takes.
    pub open spec fn takes_of(self) -> Takes {
        match self {
            Opt::Key => Takes::List,
            Opt::Cwd => Takes::Text,
            Opt::Env => Takes::List,
            Opt::TimeoutSecs => Takes::Count,
            Opt::ApprovalId => Takes::Text,
            Opt::Path => Takes::List,
            Opt::WriteTokenFile => Takes::Text,
            Opt::Ops => Takes::Text,
            Opt::Tail => Takes::Count,
            Opt::TtlSecs => Takes::Count,
        }
    }
}

/// The options that every command takes.
pub fn flags() -> (r: Vec<Flag>)
    ensures
        forall|f: Flag| #[trigger] r@.contains(f),
        r@.no_duplicates(),
{
    let mut v: Vec<Flag> = Vec::new();
    v.push(Flag::File);
    v.push(Flag::Socket);
    v.push(Flag::PassphraseFile);
    v.push(Flag::TokenFile);
    v.push(Flag::TokenFd);
    v.push(Flag::LeaseFile);
    v.push(Flag::IdleLockSecs);
    v.push(Flag::TrustFingerprint);
    proof {
        assert forall|f: Flag| #[trigger] v@.contains(f) by {
            match f {
                Flag::File => assert(v@[0] == f),
                Flag::Socket => assert(v@[1] == f),
                Flag::PassphraseFile => assert(v@[2] == f),
                Flag::TokenFile => assert(v@[3] == f),
                Flag::TokenFd => assert(v@[4] == f),
                Flag::LeaseFile => assert(v@[5] == f),
                Flag::IdleLockSecs => assert(v@[6] == f),
                Flag::TrustFingerprint => assert(v@[7] == f),
            }
        }
    }
    v
}

/// A command, by its words.
#[derive(Clone, Copy, Debug, PartialEq, Eq, Structural)]
pub enum Verb {
    Daemon,
    Init,
    Status,
    Unlock,
    Lock,
    ProjectAdd,
    ProjectList,
    ProjectPathAdd,
    ProjectPathRemove,
    ProjectRemove,
    SecretSet,
    SecretList,
    SecretDelete,
    AgentAdd,
    AgentRevoke,
    AgentList,
    GrantAdd,
    GrantRevoke,
    GrantList,
    AuditShow,
    AuditVerify,
    Run,
    RunSignal,
    LeaseCreate,
    LeaseList,
    LeaseRevoke,
    Reveal,
    Inject,
    ApprovalStatus,
    ApprovalPending,
    ApprovalApprove,
    ApprovalDeny,
    McpServe,
    TrustShow,
    TrustReset,
}

impl Verb {
    /// The words of the command.
    pub open spec fn said(self) -> Seq<Seq<char>> {
        match self {
            Verb::Daemon => seq!["daemon"@],
            Verb::Init => seq!["init"@],
            Verb::Status => seq!["status"@],
            Verb::Unlock => seq!["unlock"@],
            Verb::Lock => seq!["lock"@],
            Verb::ProjectAdd => seq!["project"@, "add"@],
            Verb::ProjectList => seq!["project"@, "list"@],
            Verb::ProjectPathAdd => seq!["project"@, "path-add"@],
            Verb::ProjectPathRemove => seq!["project"@, "path-remove"@],
            Verb::ProjectRemove => seq!["project"@, "remove"@],
            Verb::SecretSet => seq!["secret"@, "set"@],
            Verb::SecretList => seq!["secret"@, "list"@],
            Verb::SecretDelete => seq!["secret"@, "delete"@],
            Verb::AgentAdd => seq!["agent"@, "add"@],
            Verb::AgentRevoke => seq!["agent"@, "revoke"@],
            Verb::AgentList => seq!["agent"@, "list"@],
            Verb::GrantAdd => seq!["grant"@, "add"@],
            Verb::GrantRevoke => seq!["grant"@, "revoke"@],
            Verb::GrantList => seq!["grant"@, "list"@],
            Verb::AuditShow => seq!["audit"@, "show"@],
            Verb::AuditVerify => seq!["audit"@, "verify"@],
            Verb::Run => seq!["run"@],
            Verb::RunSignal => seq!["run-signal"@],
            Verb::LeaseCreate => seq!["lease"@, "create"@],
            Verb::LeaseList => seq!["lease"@, "list"@],
            Verb::LeaseRevoke => seq!["lease"@, "revoke"@],
            Verb::Reveal => seq!["reveal"@],
            Verb::Inject => seq!["inject"@],
            Verb::ApprovalStatus => seq!["approval"@, "status"@],
            Verb::ApprovalPending => seq!["approval"@, "pending"@],
            Verb::ApprovalApprove => seq!["approval"@, "approve"@],
            Verb::ApprovalDeny => seq!["approval"@, "deny"@],
            Verb::McpServe => seq!["mcp-serve"@],
            Verb::TrustShow => seq!["trust"@, "show"@],
            Verb::TrustReset => seq!["trust"@, "reset"@],
        }
    }

    /// The arguments of the command, in order.
    pub open spec fn expects(self) -> Seq<Seq<char>> {
        match self {
            Verb::Daemon => Seq::empty(),
            Verb::Init => Seq::empty(),
            Verb::Status => Seq::empty(),
            Verb::Unlock => Seq::empty(),
            Verb::Lock => Seq::empty(),
            Verb::ProjectAdd => seq!["name"@],
            Verb::ProjectList => Seq::empty(),
            Verb::ProjectPathAdd => seq!["name"@, "path"@],
            Verb::ProjectPathRemove => seq!["name"@, "path"@],
            Verb::ProjectRemove => seq!["name"@],
            Verb::SecretSet => seq!["project"@, "key"@],
            Verb::SecretList => seq!["project"@],
            Verb::SecretDelete => seq!["project"@, "key"@],
            Verb::AgentAdd => seq!["name"@],
            Verb::AgentRevoke => seq!["name"@],
            Verb::AgentList => Seq::empty(),
            Verb::GrantAdd => seq!["agent"@, "project"@],
            Verb::GrantRevoke => seq!["agent"@, "project"@],
            Verb::GrantList => Seq::empty(),
            Verb::AuditShow => Seq::empty(),
            Verb::AuditVerify => Seq::empty(),
            Verb::Run => seq!["project"@],
            Verb::RunSignal => seq!["run_id"@, "signal"@],
            Verb::LeaseCreate => seq!["project"@],
            Verb::LeaseList => Seq::empty(),
            Verb::LeaseRevoke => seq!["lease_id"@],
            Verb::Reveal => seq!["project"@, "key"@],
            Verb::Inject => seq!["project"@, "path"@],
            Verb::ApprovalStatus => seq!["approval_id"@],
            Verb::ApprovalPending => Seq::empty(),
            Verb::ApprovalApprove => seq!["approval_id"@],
            Verb::ApprovalDeny => seq!["approval_id"@],
            Verb::McpServe => Seq::empty(),
            Verb::TrustShow => Seq::empty(),
            Verb::TrustReset => Seq::empty(),
        }
    }

    /// The options of the command.
    pub open spec fn takes_options(self) -> Seq<Opt> {
        match self {
            Verb::Daemon => Seq::empty(),
            Verb::Init => Seq::empty(),
            Verb::Status => Seq::empty(),
            Verb::Unlock => Seq::empty(),
            Verb::Lock => Seq::empty(),
            Verb::ProjectAdd => seq![Opt::Path],
            Verb::ProjectList => Seq::empty(),
            Verb::ProjectPathAdd => Seq::empty(),
            Verb::ProjectPathRemove => Seq::empty(),
            Verb::ProjectRemove => Seq::empty(),
            Verb::SecretSet => Seq::empty(),
            Verb::SecretList => Seq::empty(),
            Verb::SecretDelete => Seq::empty(),
            Verb::AgentAdd => seq![Opt::WriteTokenFile],
            Verb::AgentRevoke => Seq::empty(),
            Verb::AgentList => Seq::empty(),
            Verb::GrantAdd => seq![Opt::Ops],
            Verb::GrantRevoke => Seq::empty(),
            Verb::GrantList => Seq::empty(),
            Verb::AuditShow => seq![Opt::Tail],
            Verb::AuditVerify => Seq::empty(),
            Verb::Run => seq![Opt::Key, Opt::Cwd, Opt::Env, Opt::TimeoutSecs],
            Verb::RunSignal => Seq::empty(),
            Verb::LeaseCreate => seq![Opt::Ops, Opt::TtlSecs],
            Verb::LeaseList => Seq::empty(),
            Verb::LeaseRevoke => Seq::empty(),
            Verb::Reveal => seq![Opt::ApprovalId],
            Verb::Inject => seq![Opt::Key],
            Verb::ApprovalStatus => Seq::empty(),
            Verb::ApprovalPending => Seq::empty(),
            Verb::ApprovalApprove => Seq::empty(),
            Verb::ApprovalDeny => Seq::empty(),
            Verb::McpServe => Seq::empty(),
            Verb::TrustShow => Seq::empty(),
            Verb::TrustReset => Seq::empty(),
        }
    }

    /// The words of the command.
    pub fn words(self) -> (r: Vec<String>)
        ensures
            text::texts(r@) == self.said(),
    {
        match self {
            Verb::Daemon => one("daemon"),
            Verb::Init => one("init"),
            Verb::Status => one("status"),
            Verb::Unlock => one("unlock"),
            Verb::Lock => one("lock"),
            Verb::ProjectAdd => two("project", "add"),
            Verb::ProjectList => two("project", "list"),
            Verb::ProjectPathAdd => two("project", "path-add"),
            Verb::ProjectPathRemove => two("project", "path-remove"),
            Verb::ProjectRemove => two("project", "remove"),
            Verb::SecretSet => two("secret", "set"),
            Verb::SecretList => two("secret", "list"),
            Verb::SecretDelete => two("secret", "delete"),
            Verb::AgentAdd => two("agent", "add"),
            Verb::AgentRevoke => two("agent", "revoke"),
            Verb::AgentList => two("agent", "list"),
            Verb::GrantAdd => two("grant", "add"),
            Verb::GrantRevoke => two("grant", "revoke"),
            Verb::GrantList => two("grant", "list"),
            Verb::AuditShow => two("audit", "show"),
            Verb::AuditVerify => two("audit", "verify"),
            Verb::Run => one("run"),
            Verb::RunSignal => one("run-signal"),
            Verb::LeaseCreate => two("lease", "create"),
            Verb::LeaseList => two("lease", "list"),
            Verb::LeaseRevoke => two("lease", "revoke"),
            Verb::Reveal => one("reveal"),
            Verb::Inject => one("inject"),
            Verb::ApprovalStatus => two("approval", "status"),
            Verb::ApprovalPending => two("approval", "pending"),
            Verb::ApprovalApprove => two("approval", "approve"),
            Verb::ApprovalDeny => two("approval", "deny"),
            Verb::McpServe => one("mcp-serve"),
            Verb::TrustShow => two("trust", "show"),
            Verb::TrustReset => two("trust", "reset"),
        }
    }

    /// The arguments of the command, in order.
    pub fn positionals(self) -> (r: Vec<String>)
        ensures
            text::texts(r@) == self.expects(),
    {
        match self {
            Verb::Daemon => none(),
            Verb::Init => none(),
            Verb::Status => none(),
            Verb::Unlock => none(),
            Verb::Lock => none(),
            Verb::ProjectAdd => one("name"),
            Verb::ProjectList => none(),
            Verb::ProjectPathAdd => two("name", "path"),
            Verb::ProjectPathRemove => two("name", "path"),
            Verb::ProjectRemove => one("name"),
            Verb::SecretSet => two("project", "key"),
            Verb::SecretList => one("project"),
            Verb::SecretDelete => two("project", "key"),
            Verb::AgentAdd => one("name"),
            Verb::AgentRevoke => one("name"),
            Verb::AgentList => none(),
            Verb::GrantAdd => two("agent", "project"),
            Verb::GrantRevoke => two("agent", "project"),
            Verb::GrantList => none(),
            Verb::AuditShow => none(),
            Verb::AuditVerify => none(),
            Verb::Run => one("project"),
            Verb::RunSignal => two("run_id", "signal"),
            Verb::LeaseCreate => one("project"),
            Verb::LeaseList => none(),
            Verb::LeaseRevoke => one("lease_id"),
            Verb::Reveal => two("project", "key"),
            Verb::Inject => two("project", "path"),
            Verb::ApprovalStatus => one("approval_id"),
            Verb::ApprovalPending => none(),
            Verb::ApprovalApprove => one("approval_id"),
            Verb::ApprovalDeny => one("approval_id"),
            Verb::McpServe => none(),
            Verb::TrustShow => none(),
            Verb::TrustReset => none(),
        }
    }

    /// The options of the command.
    pub fn options(self) -> (r: Vec<Opt>)
        ensures
            r@ == self.takes_options(),
    {
        let mut v: Vec<Opt> = Vec::new();
        match self {
            Verb::ProjectAdd => {
                v.push(Opt::Path);
            },
            Verb::AgentAdd => {
                v.push(Opt::WriteTokenFile);
            },
            Verb::GrantAdd => {
                v.push(Opt::Ops);
            },
            Verb::AuditShow => {
                v.push(Opt::Tail);
            },
            Verb::Run => {
                v.push(Opt::Key);
                v.push(Opt::Cwd);
                v.push(Opt::Env);
                v.push(Opt::TimeoutSecs);
            },
            Verb::LeaseCreate => {
                v.push(Opt::Ops);
                v.push(Opt::TtlSecs);
            },
            Verb::Reveal => {
                v.push(Opt::ApprovalId);
            },
            Verb::Inject => {
                v.push(Opt::Key);
            },
            _ => {},
        }
        assert(v@ =~= self.takes_options());
        v
    }
}

fn none() -> (r: Vec<String>)
    ensures
        text::texts(r@) == Seq::<Seq<char>>::empty(),
{
    let v: Vec<String> = Vec::new();
    assert(text::texts(v@) =~= Seq::<Seq<char>>::empty());
    v
}

fn one(a: &str) -> (r: Vec<String>)
    ensures
        text::texts(r@) == seq![a@],
{
    let mut v: Vec<String> = Vec::new();
    v.push(a.to_string());
    assert(text::texts(v@) =~= seq![a@]);
    v
}

fn two(a: &str, b: &str) -> (r: Vec<String>)
    ensures
        text::texts(r@) == seq![a@, b@],
{
    let mut v: Vec<String> = Vec::new();
    v.push(a.to_string());
    v.push(b.to_string());
    assert(text::texts(v@) =~= seq![a@, b@]);
    v
}

/// All commands.
pub fn verbs() -> (r: Vec<Verb>)
    ensures
        forall|x: Verb| #[trigger] r@.contains(x),
        r@.no_duplicates(),
{
    let mut v: Vec<Verb> = Vec::new();
    v.push(Verb::Daemon);
    v.push(Verb::Init);
    v.push(Verb::Status);
    v.push(Verb::Unlock);
    v.push(Verb::Lock);
    v.push(Verb::ProjectAdd);
    v.push(Verb::ProjectList);
    v.push(Verb::ProjectPathAdd);
    v.push(Verb::ProjectPathRemove);
    v.push(Verb::ProjectRemove);
    v.push(Verb::SecretSet);
    v.push(Verb::SecretList);
    v.push(Verb::SecretDelete);
    v.push(Verb::AgentAdd);
    v.push(Verb::AgentRevoke);
    v.push(Verb::AgentList);
    v.push(Verb::GrantAdd);
    v.push(Verb::GrantRevoke);
    v.push(Verb::GrantList);
    v.push(Verb::AuditShow);
    v.push(Verb::AuditVerify);
    v.push(Verb::Run);
    v.push(Verb::RunSignal);
    v.push(Verb::LeaseCreate);
    v.push(Verb::LeaseList);
    v.push(Verb::LeaseRevoke);
    v.push(Verb::Reveal);
    v.push(Verb::Inject);
    v.push(Verb::ApprovalStatus);
    v.push(Verb::ApprovalPending);
    v.push(Verb::ApprovalApprove);
    v.push(Verb::ApprovalDeny);
    v.push(Verb::McpServe);
    v.push(Verb::TrustShow);
    v.push(Verb::TrustReset);
    proof {
        assert forall|x: Verb| #[trigger] v@.contains(x) by {
            match x {
                Verb::Daemon => assert(v@[0] == x),
                Verb::Init => assert(v@[1] == x),
                Verb::Status => assert(v@[2] == x),
                Verb::Unlock => assert(v@[3] == x),
                Verb::Lock => assert(v@[4] == x),
                Verb::ProjectAdd => assert(v@[5] == x),
                Verb::ProjectList => assert(v@[6] == x),
                Verb::ProjectPathAdd => assert(v@[7] == x),
                Verb::ProjectPathRemove => assert(v@[8] == x),
                Verb::ProjectRemove => assert(v@[9] == x),
                Verb::SecretSet => assert(v@[10] == x),
                Verb::SecretList => assert(v@[11] == x),
                Verb::SecretDelete => assert(v@[12] == x),
                Verb::AgentAdd => assert(v@[13] == x),
                Verb::AgentRevoke => assert(v@[14] == x),
                Verb::AgentList => assert(v@[15] == x),
                Verb::GrantAdd => assert(v@[16] == x),
                Verb::GrantRevoke => assert(v@[17] == x),
                Verb::GrantList => assert(v@[18] == x),
                Verb::AuditShow => assert(v@[19] == x),
                Verb::AuditVerify => assert(v@[20] == x),
                Verb::Run => assert(v@[21] == x),
                Verb::RunSignal => assert(v@[22] == x),
                Verb::LeaseCreate => assert(v@[23] == x),
                Verb::LeaseList => assert(v@[24] == x),
                Verb::LeaseRevoke => assert(v@[25] == x),
                Verb::Reveal => assert(v@[26] == x),
                Verb::Inject => assert(v@[27] == x),
                Verb::ApprovalStatus => assert(v@[28] == x),
                Verb::ApprovalPending => assert(v@[29] == x),
                Verb::ApprovalApprove => assert(v@[30] == x),
                Verb::ApprovalDeny => assert(v@[31] == x),
                Verb::McpServe => assert(v@[32] == x),
                Verb::TrustShow => assert(v@[33] == x),
                Verb::TrustReset => assert(v@[34] == x),
            }
        }
    }
    v
}

/// What was written on the command line behind a command.
pub struct Args {
    pub positionals: Vec<String>,
    pub keys: Vec<String>,
    pub env: Vec<String>,
    pub paths: Vec<String>,
    pub ops: Option<String>,
    pub cwd: Option<String>,
    pub approval_id: Option<String>,
    pub write_token_file: Option<String>,
    pub tail: Option<u64>,
    pub ttl_secs: Option<u64>,
    pub timeout_secs: Option<u64>,
}

/// How many entries are shown unless another number is asked for.
pub const DEFAULT_TAIL: u64 = 20;

/// The command that some words and arguments ask the broker for. There is none
/// where an argument is missing, nor for the commands that do not ask the
/// broker for a single thing.
pub open spec fn command_of(verb: Verb, a: Args) -> Option<CmdV> {
    let p = text::texts(a.positionals@);
    if p.len() != verb.expects().len() {
        None
    } else {
        match verb {
            Verb::Init => Some(Command::Init),
            Verb::Status => Some(Command::Status),
            Verb::Unlock => Some(Command::Unlock),
            Verb::Lock => Some(Command::Lock),
            Verb::ProjectAdd => Some(
                Command::ProjectAdd { name: p[0], paths: text::texts(a.paths@) },
            ),
            Verb::ProjectList => Some(Command::ProjectList),
            Verb::ProjectPathAdd => Some(Command::ProjectPathAdd { name: p[0], path: p[1] }),
            Verb::ProjectPathRemove => Some(Command::ProjectPathRemove { name: p[0], path: p[1] }),
            Verb::ProjectRemove => Some(Command::ProjectRemove { name: p[0] }),
            Verb::SecretSet => Some(Command::SecretSet { project: p[0], key: p[1] }),
            Verb::SecretList => Some(Command::SecretList { project: p[0] }),
            Verb::SecretDelete => Some(Command::SecretDelete { project: p[0], key: p[1] }),
            Verb::AgentAdd => Some(Command::AgentAdd { name: p[0] }),
            Verb::AgentRevoke => Some(Command::AgentRevoke { name: p[0] }),
            Verb::AgentList => Some(Command::AgentList),
            Verb::GrantAdd => match a.ops {
                Some(ops) => Some(Command::GrantAdd { agent: p[0], project: p[1], ops: ops@ }),
                None => None,
            },
            Verb::GrantRevoke => Some(Command::GrantRevoke { agent: p[0], project: p[1] }),
            Verb::GrantList => Some(Command::GrantList),
            Verb::AuditShow => Some(
                Command::AuditShow {
                    tail: match a.tail {
                        Some(t) => t,
                        None => DEFAULT_TAIL,
                    },
                },
            ),
            Verb::AuditVerify => Some(Command::AuditVerify),
            Verb::RunSignal => Some(Command::RunSignal { run_id: p[0], signal: p[1] }),
            Verb::LeaseCreate => match (a.ops, a.ttl_secs) {
                (Some(ops), Some(ttl_secs)) => Some(
                    Command::LeaseCreate { project: p[0], ops: ops@, ttl_secs },
                ),
                _ => None,
            },
            Verb::LeaseList => Some(Command::LeaseList),
            Verb::LeaseRevoke => Some(Command::LeaseRevoke { lease_id: p[0] }),
            Verb::Reveal => Some(
                Command::Reveal {
                    project: p[0],
                    key: p[1],
                    approval_id: json::opt_text(a.approval_id),
                },
            ),
            Verb::Inject => Some(
                Command::Inject { project: p[0], path: p[1], keys: text::texts(a.keys@) },
            ),
            Verb::ApprovalStatus => Some(Command::ApprovalStatus { approval_id: p[0] }),
            Verb::ApprovalPending => Some(Command::ApprovalPending),
            Verb::ApprovalApprove => Some(Command::ApprovalApprove { approval_id: p[0] }),
            Verb::ApprovalDeny => Some(Command::ApprovalDeny { approval_id: p[0] }),
            _ => None,
        }
    }
}

/// The value of an optional command.
pub open spec fn opt_command(c: Option<Cmd>) -> Option<CmdV> {
    match c {
        Some(x) => Some(cli::command_value(x)),
        None => None,
    }
}

fn copied(t: &Option<String>) -> (r: Option<String>)
    ensures
        json::opt_text(r) == json::opt_text(*t),
{
    match t {
        Some(s) => Some(s.clone()),
        None => None,
    }
}

/// Gives the command that some words and arguments ask the broker for.
pub fn command(verb: Verb, a: &Args) -> (r: Option<Cmd>)
    ensures
        opt_command(r) == command_of(verb, *a),
{
    let expected = verb.positionals();
    proof {
        assert(text::texts(expected@).len() == expected@.len());
        assert(text::texts(a.positionals@).len() == a.positionals@.len());
    }
    if a.positionals.len() != expected.len() {
        return None;
    }
    match verb {
        Verb::Init => Some(Command::Init),
        Verb::Status => Some(Command::Status),
        Verb::Unlock => Some(Command::Unlock),
        Verb::Lock => Some(Command::Lock),
        Verb::ProjectAdd => Some(
            Command::ProjectAdd {
                name: a.positionals[0].clone(),
                paths: crate::audit::copy_texts(a.paths.as_slice()),
            },
        ),
        Verb::ProjectList => Some(Command::ProjectList),
        Verb::ProjectPathAdd => Some(
            Command::ProjectPathAdd {
                name: a.positionals[0].clone(),
                path: a.positionals[1].clone(),
            },
        ),
        Verb::ProjectPathRemove => Some(
            Command::ProjectPathRemove {
                name: a.positionals[0].clone(),
                path: a.positionals[1].clone(),
            },
        ),
        Verb::ProjectRemove => Some(Command::ProjectRemove { name: a.positionals[0].clone() }),
        Verb::SecretSet => Some(
            Command::SecretSet { project: a.positionals[0].clone(), key: a.positionals[1].clone() },
        ),
        Verb::SecretList => Some(Command::SecretList { project: a.positionals[0].clone() }),
        Verb::SecretDelete => Some(
            Command::SecretDelete {
                project: a.positionals[0].clone(),
                key: a.positionals[1].clone(),
            },
        ),
        Verb::AgentAdd => Some(Command::AgentAdd { name: a.positionals[0].clone() }),
        Verb::AgentRevoke => Some(Command::AgentRevoke { name: a.positionals[0].clone() }),
        Verb::AgentList => Some(Command::AgentList),
        Verb::GrantAdd => match &a.ops {
            Some(ops) => Some(
                Command::GrantAdd {
                    agent: a.positionals[0].clone(),
                    project: a.positionals[1].clone(),
                    ops: ops.clone(),
                },
            ),
            None => None,
        },
        Verb::GrantRevoke => Some(
            Command::GrantRevoke {
                agent: a.positionals[0].clone(),
                project: a.positionals[1].clone(),
            },
        ),
        Verb::GrantList => Some(Command::GrantList),
        Verb::AuditShow => {
            let tail: u64 = match a.tail {
                Some(t) => t,
                None => DEFAULT_TAIL,
            };
            Some(Command::AuditShow { tail })
        },
        Verb::AuditVerify => Some(Command::AuditVerify),
        Verb::RunSignal => Some(
            Command::RunSignal {
                run_id: a.positionals[0].clone(),
                signal: a.positionals[1].clone(),
            },
        ),
        Verb::LeaseCreate => match (&a.ops, a.ttl_secs) {
            (Some(ops), Some(ttl_secs)) => Some(
                Command::LeaseCreate {
                    project: a.positionals[0].clone(),
                    ops: ops.clone(),
                    ttl_secs,
                },
            ),
            _ => None,
        },
        Verb::LeaseList => Some(Command::LeaseList),
        Verb::LeaseRevoke => Some(Command::LeaseRevoke { lease_id: a.positionals[0].clone() }),
        Verb::Reveal => Some(
            Command::Reveal {
                project: a.positionals[0].clone(),
                key: a.positionals[1].clone(),
                approval_id: copied(&a.approval_id),
            },
        ),
        Verb::Inject => Some(
            Command::Inject {
                project: a.positionals[0].clone(),
                path: a.positionals[1].clone(),
                keys: crate::audit::copy_texts(a.keys.as_slice()),
            },
        ),
        Verb::ApprovalStatus => Some(
            Command::ApprovalStatus { approval_id: a.positionals[0].clone() },
        ),
        Verb::ApprovalPending => Some(Command::ApprovalPending),
        Verb::ApprovalApprove => Some(
            Command::ApprovalApprove { approval_id: a.positionals[0].clone() },
        ),
        Verb::ApprovalDeny => Some(Command::ApprovalDeny { approval_id: a.positionals[0].clone() }),
        _ => None,
    }
}

/// Whether a name would be that of an option whose value is a credential.
pub open spec fn would_carry_a_credential(name: Seq<char>) -> bool {
    name == "token"@ || name == "passphrase"@ || name == "lease"@ || name == "lease-id"@ || name
        == "lease-credential"@ || name == "session"@ || name == "value"@
}

/// No option carries a credential or a secret value.
pub proof fn law_no_option_carries_a_credential(f: Flag, o: Opt)
    ensures
        !would_carry_a_credential(f.long()),
        !would_carry_a_credential(o.long()),
{
    reveal_strlit("approval-id");
    reveal_strlit("cwd");
    reveal_strlit("env");
    reveal_strlit("file");
    reveal_strlit("idle-lock-secs");
    reveal_strlit("key");
    reveal_strlit("lease");
    reveal_strlit("lease-credential");
    reveal_strlit("lease-file");
    reveal_strlit("lease-id");
    reveal_strlit("ops");
    reveal_strlit("passphrase");
    reveal_strlit("passphrase-file");
    reveal_strlit("path");
    reveal_strlit("session");
    reveal_strlit("socket");
    reveal_strlit("tail");
    reveal_strlit("timeout-secs");
    reveal_strlit("token");
    reveal_strlit("token-fd");
    reveal_strlit("token-file");
    reveal_strlit("trust-fingerprint");
    reveal_strlit("ttl-secs");
    reveal_strlit("value");
    reveal_strlit("write-token-file");
    assert("approval-id"@.len() == 11);
    assert("cwd"@.len() == 3);
    assert("env"@.len() == 3);
    assert("file"@.len() == 4);
    assert("idle-lock-secs"@.len() == 14);
    assert("key"@.len() == 3);
    assert("lease"@.len() == 5);
    assert("lease-credential"@.len() == 16);
    assert("lease-file"@.len() == 10);
    assert("lease-id"@.len() == 8);
    assert("ops"@.len() == 3);
    assert("passphrase"@.len() == 10);
    assert("passphrase-file"@.len() == 15);
    assert("path"@.len() == 4);
    assert("session"@.len() == 7);
    assert("socket"@.len() == 6);
    assert("tail"@.len() == 4);
    assert("timeout-secs"@.len() == 12);
    assert("token"@.len() == 5);
    assert("token-fd"@.len() == 8);
    assert("token-file"@.len() == 10);
    assert("trust-fingerprint"@.len() == 17);
    assert("ttl-secs"@.len() == 8);
    assert("value"@.len() == 5);
    assert("write-token-file"@.len() == 16);
    assert("passphrase"@[0] == 'p');
    assert("token-file"@[0] == 't');
    assert("lease-file"@[0] == 'l');
    assert("lease-id"@[0] == 'l');
    assert("token-fd"@[0] == 't');
    assert("ttl-secs"@[0] == 't');
    assert("lease-credential"@[0] == 'l');
    assert("write-token-file"@[0] == 'w');
}

} // verus!
