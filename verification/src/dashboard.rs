//! The dashboard: thirty named commands over the broker.
//!
//! There is no generic command: each one has a fixed operation and a fixed
//! shape. The credential of the session stays here and is wiped when it is
//! dropped; no answer holds it. A refusal keeps its code, and its message comes
//! from a fixed table, so that no text of the broker is shown.

use vstd::prelude::*;

use crate::broker::ops::Operation;
use crate::broker_identity;
use crate::client::{Auth, BrokerError};
use crate::client;
use crate::crypto::{self, SecretText};
use crate::error::{Fault, VaultError};
use crate::json::{self, Json, JsonV};
use crate::text::{self, same};
use crate::wire::{self, AuthV};

pub mod command_laws;
pub mod laws;
pub mod overview;
pub mod row_laws;
pub mod rows;

verus! {

/// How many projects the overview asks for their secrets at most.
pub const OVERVIEW_SECRETS_PROJECT_CAP: usize = 50;

/// The commands.
pub const COMMANDS: [&'static str; 30] = [
    "get_status",
    "pin_status",
    "probe_fingerprint",
    "unlock",
    "lock",
    "health",
    "overview_refresh",
    "projects_list",
    "project_add",
    "project_remove",
    "project_path_add",
    "project_path_remove",
    "secrets_list",
    "secret_set",
    "secret_delete",
    "agents_list",
    "agent_add",
    "agent_revoke",
    "grants_list",
    "grant_set",
    "grant_revoke",
    "approvals_pending",
    "approval_approve",
    "approval_deny",
    "reveal",
    "leases_list",
    "lease_revoke",
    "runs_list",
    "audit_show",
    "audit_verify",
];

/// A command.
#[derive(Clone, Copy, Debug, PartialEq, Eq, Structural)]
pub enum Command {
    GetStatus,
    PinStatus,
    ProbeFingerprint,
    Unlock,
    Lock,
    Health,
    OverviewRefresh,
    ProjectsList,
    ProjectAdd,
    ProjectRemove,
    ProjectPathAdd,
    ProjectPathRemove,
    SecretsList,
    SecretSet,
    SecretDelete,
    AgentsList,
    AgentAdd,
    AgentRevoke,
    GrantsList,
    GrantSet,
    GrantRevoke,
    ApprovalsPending,
    ApprovalApprove,
    ApprovalDeny,
    Reveal,
    LeasesList,
    LeaseRevoke,
    RunsList,
    AuditShow,
    AuditVerify,
}

/// What a command authenticates with.
#[derive(Clone, Copy, Debug, PartialEq, Eq, Structural)]
pub enum Access {
    /// Nothing is asked of the broker in the command's own name.
    Local,
    /// No credential.
    Public,
    /// The passphrase, which only this command takes.
    Passphrase,
    /// The credential of the session, or none where no session is held.
    SessionIfHeld,
    /// The credential of the session.
    Session,
}

impl Command {
    /// The name of the command.
    pub open spec fn command_name(self) -> Seq<char> {
        match self {
            Command::GetStatus => "get_status"@,
            Command::PinStatus => "pin_status"@,
            Command::ProbeFingerprint => "probe_fingerprint"@,
            Command::Unlock => "unlock"@,
            Command::Lock => "lock"@,
            Command::Health => "health"@,
            Command::OverviewRefresh => "overview_refresh"@,
            Command::ProjectsList => "projects_list"@,
            Command::ProjectAdd => "project_add"@,
            Command::ProjectRemove => "project_remove"@,
            Command::ProjectPathAdd => "project_path_add"@,
            Command::ProjectPathRemove => "project_path_remove"@,
            Command::SecretsList => "secrets_list"@,
            Command::SecretSet => "secret_set"@,
            Command::SecretDelete => "secret_delete"@,
            Command::AgentsList => "agents_list"@,
            Command::AgentAdd => "agent_add"@,
            Command::AgentRevoke => "agent_revoke"@,
            Command::GrantsList => "grants_list"@,
            Command::GrantSet => "grant_set"@,
            Command::GrantRevoke => "grant_revoke"@,
            Command::ApprovalsPending => "approvals_pending"@,
            Command::ApprovalApprove => "approval_approve"@,
            Command::ApprovalDeny => "approval_deny"@,
            Command::Reveal => "reveal"@,
            Command::LeasesList => "leases_list"@,
            Command::LeaseRevoke => "lease_revoke"@,
            Command::RunsList => "runs_list"@,
            Command::AuditShow => "audit_show"@,
            Command::AuditVerify => "audit_verify"@,
        }
    }

    /// The operation that the command asks the broker for.
    pub open spec fn asks(self) -> Option<Operation> {
        match self {
            Command::GetStatus => Some(Operation::VaultStatus),
            Command::PinStatus => None,
            Command::ProbeFingerprint => None,
            Command::Unlock => Some(Operation::VaultUnlock),
            Command::Lock => Some(Operation::VaultLock),
            Command::Health => Some(Operation::VaultHealth),
            Command::OverviewRefresh => None,
            Command::ProjectsList => Some(Operation::ProjectList),
            Command::ProjectAdd => Some(Operation::ProjectAdd),
            Command::ProjectRemove => Some(Operation::ProjectRemove),
            Command::ProjectPathAdd => Some(Operation::ProjectPathAdd),
            Command::ProjectPathRemove => Some(Operation::ProjectPathRemove),
            Command::SecretsList => Some(Operation::SecretsList),
            Command::SecretSet => Some(Operation::SecretSet),
            Command::SecretDelete => Some(Operation::SecretDelete),
            Command::AgentsList => Some(Operation::AgentsList),
            Command::AgentAdd => Some(Operation::AgentsAdd),
            Command::AgentRevoke => Some(Operation::AgentsRevoke),
            Command::GrantsList => Some(Operation::GrantsList),
            Command::GrantSet => Some(Operation::GrantsGrant),
            Command::GrantRevoke => Some(Operation::GrantsRevoke),
            Command::ApprovalsPending => Some(Operation::ApprovalsPending),
            Command::ApprovalApprove => Some(Operation::ApprovalsApprove),
            Command::ApprovalDeny => Some(Operation::ApprovalsDeny),
            Command::Reveal => Some(Operation::Reveal),
            Command::LeasesList => Some(Operation::LeaseList),
            Command::LeaseRevoke => Some(Operation::LeaseRevoke),
            Command::RunsList => Some(Operation::RunsList),
            Command::AuditShow => Some(Operation::AuditShow),
            Command::AuditVerify => Some(Operation::AuditVerify),
        }
    }

    /// What the command authenticates with.
    pub open spec fn access_of(self) -> Access {
        match self {
            Command::GetStatus => Access::Public,
            Command::PinStatus => Access::Local,
            Command::ProbeFingerprint => Access::Local,
            Command::Unlock => Access::Passphrase,
            Command::Lock => Access::SessionIfHeld,
            Command::Health => Access::SessionIfHeld,
            Command::OverviewRefresh => Access::Local,
            Command::ProjectsList => Access::Session,
            Command::ProjectAdd => Access::Session,
            Command::ProjectRemove => Access::Session,
            Command::ProjectPathAdd => Access::Session,
            Command::ProjectPathRemove => Access::Session,
            Command::SecretsList => Access::Session,
            Command::SecretSet => Access::Session,
            Command::SecretDelete => Access::Session,
            Command::AgentsList => Access::Session,
            Command::AgentAdd => Access::Session,
            Command::AgentRevoke => Access::Session,
            Command::GrantsList => Access::Session,
            Command::GrantSet => Access::Session,
            Command::GrantRevoke => Access::Session,
            Command::ApprovalsPending => Access::Session,
            Command::ApprovalApprove => Access::Session,
            Command::ApprovalDeny => Access::Session,
            Command::Reveal => Access::Session,
            Command::LeasesList => Access::Session,
            Command::LeaseRevoke => Access::Session,
            Command::RunsList => Access::Session,
            Command::AuditShow => Access::Session,
            Command::AuditVerify => Access::Session,
        }
    }

    /// The name of the command.
    pub fn name(self) -> (r: &'static str)
        ensures
            r@ == self.command_name(),
    {
        match self {
            Command::GetStatus => "get_status",
            Command::PinStatus => "pin_status",
            Command::ProbeFingerprint => "probe_fingerprint",
            Command::Unlock => "unlock",
            Command::Lock => "lock",
            Command::Health => "health",
            Command::OverviewRefresh => "overview_refresh",
            Command::ProjectsList => "projects_list",
            Command::ProjectAdd => "project_add",
            Command::ProjectRemove => "project_remove",
            Command::ProjectPathAdd => "project_path_add",
            Command::ProjectPathRemove => "project_path_remove",
            Command::SecretsList => "secrets_list",
            Command::SecretSet => "secret_set",
            Command::SecretDelete => "secret_delete",
            Command::AgentsList => "agents_list",
            Command::AgentAdd => "agent_add",
            Command::AgentRevoke => "agent_revoke",
            Command::GrantsList => "grants_list",
            Command::GrantSet => "grant_set",
            Command::GrantRevoke => "grant_revoke",
            Command::ApprovalsPending => "approvals_pending",
            Command::ApprovalApprove => "approval_approve",
            Command::ApprovalDeny => "approval_deny",
            Command::Reveal => "reveal",
            Command::LeasesList => "leases_list",
            Command::LeaseRevoke => "lease_revoke",
            Command::RunsList => "runs_list",
            Command::AuditShow => "audit_show",
            Command::AuditVerify => "audit_verify",
        }
    }

    /// The operation that the command asks the broker for.
    pub fn operation(self) -> (r: Option<Operation>)
        ensures
            r == self.asks(),
    {
        match self {
            Command::GetStatus => Some(Operation::VaultStatus),
            Command::PinStatus => None,
            Command::ProbeFingerprint => None,
            Command::Unlock => Some(Operation::VaultUnlock),
            Command::Lock => Some(Operation::VaultLock),
            Command::Health => Some(Operation::VaultHealth),
            Command::OverviewRefresh => None,
            Command::ProjectsList => Some(Operation::ProjectList),
            Command::ProjectAdd => Some(Operation::ProjectAdd),
            Command::ProjectRemove => Some(Operation::ProjectRemove),
            Command::ProjectPathAdd => Some(Operation::ProjectPathAdd),
            Command::ProjectPathRemove => Some(Operation::ProjectPathRemove),
            Command::SecretsList => Some(Operation::SecretsList),
            Command::SecretSet => Some(Operation::SecretSet),
            Command::SecretDelete => Some(Operation::SecretDelete),
            Command::AgentsList => Some(Operation::AgentsList),
            Command::AgentAdd => Some(Operation::AgentsAdd),
            Command::AgentRevoke => Some(Operation::AgentsRevoke),
            Command::GrantsList => Some(Operation::GrantsList),
            Command::GrantSet => Some(Operation::GrantsGrant),
            Command::GrantRevoke => Some(Operation::GrantsRevoke),
            Command::ApprovalsPending => Some(Operation::ApprovalsPending),
            Command::ApprovalApprove => Some(Operation::ApprovalsApprove),
            Command::ApprovalDeny => Some(Operation::ApprovalsDeny),
            Command::Reveal => Some(Operation::Reveal),
            Command::LeasesList => Some(Operation::LeaseList),
            Command::LeaseRevoke => Some(Operation::LeaseRevoke),
            Command::RunsList => Some(Operation::RunsList),
            Command::AuditShow => Some(Operation::AuditShow),
            Command::AuditVerify => Some(Operation::AuditVerify),
        }
    }

    /// What the command authenticates with.
    pub fn access(self) -> (r: Access)
        ensures
            r == self.access_of(),
    {
        match self {
            Command::GetStatus => Access::Public,
            Command::PinStatus => Access::Local,
            Command::ProbeFingerprint => Access::Local,
            Command::Unlock => Access::Passphrase,
            Command::Lock => Access::SessionIfHeld,
            Command::Health => Access::SessionIfHeld,
            Command::OverviewRefresh => Access::Local,
            Command::ProjectsList => Access::Session,
            Command::ProjectAdd => Access::Session,
            Command::ProjectRemove => Access::Session,
            Command::ProjectPathAdd => Access::Session,
            Command::ProjectPathRemove => Access::Session,
            Command::SecretsList => Access::Session,
            Command::SecretSet => Access::Session,
            Command::SecretDelete => Access::Session,
            Command::AgentsList => Access::Session,
            Command::AgentAdd => Access::Session,
            Command::AgentRevoke => Access::Session,
            Command::GrantsList => Access::Session,
            Command::GrantSet => Access::Session,
            Command::GrantRevoke => Access::Session,
            Command::ApprovalsPending => Access::Session,
            Command::ApprovalApprove => Access::Session,
            Command::ApprovalDeny => Access::Session,
            Command::Reveal => Access::Session,
            Command::LeasesList => Access::Session,
            Command::LeaseRevoke => Access::Session,
            Command::RunsList => Access::Session,
            Command::AuditShow => Access::Session,
            Command::AuditVerify => Access::Session,
        }
    }
}

/// The dashboard is for people: it never asks for what only agents may ask,
/// and what people alone may ask goes with a credential.
pub proof fn law_commands_are_for_people(c: Command)
    ensures
        c.asks() != Some(Operation::LeaseCreate),
        c.asks() != Some(Operation::RunSignal),
        c.asks() != Some(Operation::InjectFile),
        c.asks() != Some(Operation::ApprovalsStatus),
        c.asks() matches Some(op) && op.is_human_only() ==> c.access_of() != Access::Public
            && c.access_of() != Access::Local,
{
}

// ----------------------------------------------------------------- navigation
/// Whether the window may go to an address: only to one whose scheme is
/// `tauri`, in any case of letters.
pub open spec fn is_tauri(url: Seq<char>) -> bool {
    &&& url.len() >= 6
    &&& url[0] == 't' || url[0] == 'T'
    &&& url[1] == 'a' || url[1] == 'A'
    &&& url[2] == 'u' || url[2] == 'U'
    &&& url[3] == 'r' || url[3] == 'R'
    &&& url[4] == 'i' || url[4] == 'I'
    &&& url[5] == ':'
}

/// Tells whether the window may go to an address.
pub fn allow_navigation(raw_url: &str) -> (r: bool)
    ensures
        r == is_tauri(raw_url@),
{
    let u = text::chars_of(raw_url);
    u.len() >= 6 && (u[0] == 't' || u[0] == 'T') && (u[1] == 'a' || u[1] == 'A') && (u[2] == 'u'
        || u[2] == 'U') && (u[3] == 'r' || u[3] == 'R') && (u[4] == 'i' || u[4] == 'I') && u[5]
        == ':'
}

// --------------------------------------------------------------------- errors
/// What is shown of a failure: a code and a fixed message.
#[derive(Debug, PartialEq)]
pub struct CmdError {
    pub code: String,
    pub message: String,
}

/// The mathematical value of a [`CmdError`].
pub struct CmdErrorV {
    pub code: Seq<char>,
    pub message: Seq<char>,
}

impl View for CmdError {
    type V = CmdErrorV;

    open spec fn view(&self) -> CmdErrorV {
        CmdErrorV { code: self.code@, message: self.message@ }
    }
}

/// The message of a code.
pub open spec fn broker_text(code: Seq<char>) -> Seq<char> {
    if code == "E_AUTH"@ {
        "authentication failed"@
    } else if code == "E_LOCKED"@ {
        "vault is locked"@
    } else if code == "E_BUSY"@ {
        "too many concurrent operations"@
    } else if code == "E_VAULT_CORRUPT"@ {
        "vault file corrupted"@
    } else if code == "E_INSECURE_PARAMS"@ {
        "kdf parameters outside accepted bounds"@
    } else if code == "E_WEAK_PASSPHRASE"@ {
        "passphrase must be at least 12 characters"@
    } else if code == "E_HUMAN_REQUIRED"@ {
        "this operation is human-only"@
    } else if code == "E_EXISTS"@ {
        "already exists"@
    } else if code == "E_MISMATCH"@ {
        "passphrases do not match"@
    } else if code == "E_NOT_FOUND"@ {
        "not found"@
    } else if code == "E_PERMISSION"@ {
        "permission denied"@
    } else if code == "E_PATH_NOT_AUTHORIZED"@ {
        "path outside authorized folders"@
    } else if code == "E_LEASE_EXPIRED"@ {
        "lease expired or revoked"@
    } else if code == "E_SESSION_EXPIRED"@ {
        "session expired or revoked"@
    } else if code == "E_APPROVAL_PENDING"@ {
        "approval pending"@
    } else if code == "E_APPROVAL_DENIED"@ {
        "approval denied"@
    } else if code == "E_APPROVAL_CONSUMED"@ {
        "approval already claimed"@
    } else if code == "E_APPROVAL_EXPIRED"@ {
        "approval expired"@
    } else if code == "E_TOO_LARGE"@ {
        "message too large"@
    } else if code == "E_VAULT_TOO_LARGE"@ {
        "vault would exceed the maximum size"@
    } else if code == "E_INVALID_INPUT"@ {
        "invalid input"@
    } else if code == "E_AUDIT_FULL"@ {
        "audit log is full"@
    } else if code == "E_AUDIT_WRITE"@ {
        "audit write failed"@
    } else if code == "E_BROKER_UNTRUSTED"@ {
        "broker identity could not be verified"@
    } else if code == "E_IO"@ {
        "filesystem error"@
    } else if code == "E_PROTOCOL"@ {
        "protocol error"@
    } else {
        "broker error"@
    }
}

/// The message of a code.
pub fn broker_message(code: &str) -> (r: &'static str)
    ensures
        r@ == broker_text(code@),
{
    if same(code, "E_AUTH") {
        "authentication failed"
    } else if same(code, "E_LOCKED") {
        "vault is locked"
    } else if same(code, "E_BUSY") {
        "too many concurrent operations"
    } else if same(code, "E_VAULT_CORRUPT") {
        "vault file corrupted"
    } else if same(code, "E_INSECURE_PARAMS") {
        "kdf parameters outside accepted bounds"
    } else if same(code, "E_WEAK_PASSPHRASE") {
        "passphrase must be at least 12 characters"
    } else if same(code, "E_HUMAN_REQUIRED") {
        "this operation is human-only"
    } else if same(code, "E_EXISTS") {
        "already exists"
    } else if same(code, "E_MISMATCH") {
        "passphrases do not match"
    } else if same(code, "E_NOT_FOUND") {
        "not found"
    } else if same(code, "E_PERMISSION") {
        "permission denied"
    } else if same(code, "E_PATH_NOT_AUTHORIZED") {
        "path outside authorized folders"
    } else if same(code, "E_LEASE_EXPIRED") {
        "lease expired or revoked"
    } else if same(code, "E_SESSION_EXPIRED") {
        "session expired or revoked"
    } else if same(code, "E_APPROVAL_PENDING") {
        "approval pending"
    } else if same(code, "E_APPROVAL_DENIED") {
        "approval denied"
    } else if same(code, "E_APPROVAL_CONSUMED") {
        "approval already claimed"
    } else if same(code, "E_APPROVAL_EXPIRED") {
        "approval expired"
    } else if same(code, "E_TOO_LARGE") {
        "message too large"
    } else if same(code, "E_VAULT_TOO_LARGE") {
        "vault would exceed the maximum size"
    } else if same(code, "E_INVALID_INPUT") {
        "invalid input"
    } else if same(code, "E_AUDIT_FULL") {
        "audit log is full"
    } else if same(code, "E_AUDIT_WRITE") {
        "audit write failed"
    } else if same(code, "E_BROKER_UNTRUSTED") {
        "broker identity could not be verified"
    } else if same(code, "E_IO") {
        "filesystem error"
    } else if same(code, "E_PROTOCOL") {
        "protocol error"
    } else {
        "broker error"
    }
}

/// What an error of this program itself is shown as: what could hold a path or
/// the words of a peer is replaced.
pub open spec fn scrubbed(e: Fault) -> CmdErrorV {
    CmdErrorV {
        code: e.code(),
        message: match e {
            Fault::Io { .. } => "filesystem error"@,
            Fault::Protocol(_) => "protocol error"@,
            Fault::Corrupt(_) => "vault file corrupted"@,
            Fault::AuditWrite(_) => "audit write failed"@,
            Fault::InvalidInput(_) => "invalid input"@,
            Fault::AuditFull(_) => "audit log is full"@,
            Fault::BrokerUntrusted(_) => "broker identity could not be verified"@,
            other => other.message(),
        },
    }
}

/// What an answer that does not have its shape is shown as.
pub open spec fn malformed() -> CmdErrorV {
    CmdErrorV { code: "E_PROTOCOL"@, message: broker_text("E_PROTOCOL"@) }
}

/// What is shown where no session is held.
pub open spec fn no_session() -> CmdErrorV {
    CmdErrorV { code: "E_SESSION_EXPIRED"@, message: "session expired or revoked"@ }
}

impl CmdError {
    pub fn new(code: &str, message: &str) -> (r: CmdError)
        ensures
            r@ == (CmdErrorV { code: code@, message: message@ }),
    {
        CmdError { code: code.to_string(), message: message.to_string() }
    }

    /// What an error of this program itself is shown as.
    pub fn from_vault_error(e: &VaultError) -> (r: CmdError)
        ensures
            r@ == scrubbed(e@),
    {
        let message = match e {
            VaultError::Io(_) => "filesystem error".to_string(),
            VaultError::Protocol(_) => "protocol error".to_string(),
            VaultError::Corrupt(_) => "vault file corrupted".to_string(),
            VaultError::AuditWrite(_) => "audit write failed".to_string(),
            VaultError::InvalidInput(_) => "invalid input".to_string(),
            VaultError::AuditFull(_) => "audit log is full".to_string(),
            VaultError::BrokerUntrusted(_) => "broker identity could not be verified".to_string(),
            other => other.message(),
        };
        CmdError { code: e.code().to_string(), message }
    }

    /// What a refusal of the broker is shown as: its own code, and the message
    /// of that code.
    pub fn from_broker_error(e: &BrokerError) -> (r: CmdError)
        ensures
            r@ == (CmdErrorV { code: e@.code, message: broker_text(e@.code) }),
    {
        CmdError { code: e.code.clone(), message: broker_message(&e.code).to_string() }
    }

    /// What a token file that could not be written is shown as.
    pub fn from_token_file(e: &VaultError) -> (r: CmdError)
        ensures
            r@ == (if e@ == Fault::Exists {
                CmdErrorV { code: "E_EXISTS"@, message: broker_text("E_EXISTS"@) }
            } else {
                scrubbed(e@)
            }),
    {
        match e {
            VaultError::Exists => CmdError::new("E_EXISTS", broker_message("E_EXISTS")),
            other => CmdError::from_vault_error(other),
        }
    }

    fn has_code(&self, code: &str) -> (r: bool)
        ensures
            r == (self@.code == code@),
    {
        same(&self.code, code)
    }
}

/// An answer that does not have its shape.
pub fn malformed_answer() -> (r: CmdError)
    ensures
        r@ == malformed(),
{
    CmdError::new("E_PROTOCOL", broker_message("E_PROTOCOL"))
}

/// No text that came from elsewhere is shown: what is shown of such an error
/// does not depend on its text.
pub proof fn law_foreign_text_is_never_shown(
    a: Seq<char>,
    b: Seq<char>,
    x: Option<i32>,
    y: Option<i32>,
)
    ensures
        scrubbed(Fault::Io { os_code: x, text: a }) == scrubbed(Fault::Io { os_code: y, text: b }),
        scrubbed(Fault::Protocol(a)) == scrubbed(Fault::Protocol(b)),
        scrubbed(Fault::Corrupt(a)) == scrubbed(Fault::Corrupt(b)),
        scrubbed(Fault::AuditWrite(a)) == scrubbed(Fault::AuditWrite(b)),
        scrubbed(Fault::InvalidInput(a)) == scrubbed(Fault::InvalidInput(b)),
        scrubbed(Fault::AuditFull(a)) == scrubbed(Fault::AuditFull(b)),
        scrubbed(Fault::BrokerUntrusted(a)) == scrubbed(Fault::BrokerUntrusted(b)),
{
}

// ---------------------------------------------------------------------- state
/// The state of the dashboard: the socket and the credential of the session,
/// if one is held.
pub struct AppState {
    socket: String,
    session: Option<SecretText>,
}

impl AppState {
    /// The path of the socket.
    pub closed spec fn path(&self) -> Seq<char> {
        self.socket@
    }

    /// The path of the socket.
    pub fn socket(&self) -> (r: &str)
        ensures
            r@ == self.path(),
    {
        self.socket.as_str()
    }

    /// The credential that is held.
    pub closed spec fn held(&self) -> Option<Seq<char>> {
        match self.session {
            Some(s) => Some(s@),
            None => None,
        }
    }

    pub fn new(socket: String) -> (r: AppState)
        ensures
            r.path() == socket@,
            r.held() is None,
    {
        AppState { socket, session: None }
    }

    /// The credential of the session, for a request.
    pub fn session_auth(&self) -> (r: Option<Auth>)
        ensures
            match (r, self.held()) {
                (Some(a), Some(s)) => client::auth_value(a) == (AuthV {
                    token: None,
                    passphrase: None,
                    session: Some(s),
                }),
                (None, None) => true,
                _ => false,
            },
    {
        match &self.session {
            Some(s) => Some(Auth::Session(s.as_str().to_string())),
            None => None,
        }
    }

    /// The credential that a command presents, or `None` where it needs a
    /// session and none is held. A passphrase is not held here.
    pub fn credential(&self, access: Access) -> (r: Option<Auth>)
        ensures
            match (r, self.held()) {
                (Some(a), Some(s)) => client::auth_value(a) == (if access == Access::Session
                    || access == Access::SessionIfHeld {
                    AuthV { token: None, passphrase: None, session: Some(s) }
                } else {
                    wire::no_auth()
                }),
                (Some(a), None) => access != Access::Session && client::auth_value(a)
                    == wire::no_auth(),
                (None, Some(_)) => false,
                (None, None) => access == Access::Session,
            },
    {
        match access {
            Access::Session => self.session_auth(),
            Access::SessionIfHeld => match self.session_auth() {
                Some(a) => Some(a),
                None => Some(Auth::Anonymous),
            },
            _ => Some(Auth::Anonymous),
        }
    }

    /// Drops the credential of the session.
    pub fn drop_session(&mut self)
        ensures
            final(self).held() is None,
            final(self).path() == old(self).path(),
    {
        self.session = None;
    }

    /// Takes the credential out of the state, so that it is gone from here
    /// whatever becomes of it.
    pub fn take_session(&mut self) -> (r: Option<SecretText>)
        ensures
            final(self).held() is None,
            final(self).path() == old(self).path(),
            match r {
                Some(s) => old(self).held() == Some(s@),
                None => old(self).held() is None,
            },
    {
        self.session.take()
    }

    /// Reads the answer to `unlock` and holds the credential of the session
    /// that came with it, if one did. What is given back holds none.
    pub fn unlock(&mut self, v: &Json) -> (r: Result<UnlockOut, CmdError>)
        ensures
            final(self).path() == old(self).path(),
            match r {
                Ok(o) => v@.at("unlocked"@).boolean() == Some(true) && o@ == unlocked(v@)
                    && final(self).held() == v@.at("session_credential"@).text(),
                Err(e) => v@.at("unlocked"@).boolean() != Some(true) && e@ == (CmdErrorV {
                    code: "E_AUTH"@,
                    message: "authentication failed"@,
                }) && final(self).held() == old(self).held(),
            },
    {
        let ok = match v.bool_at("unlocked") {
            Some(b) => b,
            None => false,
        };
        if !ok {
            return Err(CmdError::new("E_AUTH", "authentication failed"));
        }
        match v.text_at("session_credential") {
            Some(t) => {
                self.session = Some(SecretText::new(t.to_string()));
            },
            None => {
                self.session = None;
            },
        }
        Ok(
            UnlockOut {
                unlocked: true,
                session_prefix: owned(v.text_at("session_prefix")),
                expires_at: owned(v.text_at("expires_at")),
                expires_in: v.uint_at("expires_in"),
                max_expires_at: owned(v.text_at("max_expires_at")),
                max_expires_in: v.uint_at("max_expires_in"),
            },
        )
    }

    /// Takes what came of locking the vault and drops the credential, whatever
    /// it was. A broker that cannot be reached counts as locked.
    pub fn lock(&mut self, wire: Result<(), CmdError>) -> (r: Result<LockOut, CmdError>)
        ensures
            final(self).held() is None,
            final(self).path() == old(self).path(),
            match (r, wire) {
                (Ok(o), Ok(_)) => o.locked,
                (Ok(o), Err(e)) => o.locked && (e@.code == "E_IO"@ || e@.code == "E_PROTOCOL"@),
                (Err(f), Err(e)) => f == e && e@.code != "E_IO"@ && e@.code != "E_PROTOCOL"@,
                (Err(_), Ok(_)) => false,
            },
    {
        self.drop_session();
        match wire {
            Ok(_) => Ok(LockOut { locked: true }),
            Err(e) => if e.has_code("E_IO") || e.has_code("E_PROTOCOL") {
                Ok(LockOut { locked: true })
            } else {
                Err(e)
            },
        }
    }
}

/// What a command without a session comes to: the broker is asked for its
/// public status first, so that a broker that is not trusted or not there is
/// not reported as an expired session.
pub fn require_session_auth(probe: Result<(), CmdError>) -> (r: CmdError)
    ensures
        match probe {
            Ok(_) => r@ == no_session(),
            Err(e) => r == e,
        },
{
    match probe {
        Ok(_) => CmdError::new("E_SESSION_EXPIRED", "session expired or revoked"),
        Err(e) => e,
    }
}

// --------------------------------------------------------------------- unlock
/// What is shown of an unlocked vault. Nothing of it is the credential.
#[derive(Debug, PartialEq)]
pub struct UnlockOut {
    pub unlocked: bool,
    pub session_prefix: Option<String>,
    pub expires_at: Option<String>,
    pub expires_in: Option<u64>,
    pub max_expires_at: Option<String>,
    pub max_expires_in: Option<u64>,
}

/// The mathematical value of an [`UnlockOut`].
pub struct UnlockV {
    pub unlocked: bool,
    pub session_prefix: Option<Seq<char>>,
    pub expires_at: Option<Seq<char>>,
    pub expires_in: Option<u64>,
    pub max_expires_at: Option<Seq<char>>,
    pub max_expires_in: Option<u64>,
}

impl View for UnlockOut {
    type V = UnlockV;

    open spec fn view(&self) -> UnlockV {
        UnlockV {
            unlocked: self.unlocked,
            session_prefix: json::opt_text(self.session_prefix),
            expires_at: json::opt_text(self.expires_at),
            expires_in: self.expires_in,
            max_expires_at: json::opt_text(self.max_expires_at),
            max_expires_in: self.max_expires_in,
        }
    }
}

/// What is shown of an answer to `unlock`.
pub open spec fn unlocked(v: JsonV) -> UnlockV {
    UnlockV {
        unlocked: true,
        session_prefix: v.at("session_prefix"@).text(),
        expires_at: v.at("expires_at"@).text(),
        expires_in: v.at("expires_in"@).uint(),
        max_expires_at: v.at("max_expires_at"@).text(),
        max_expires_in: v.at("max_expires_in"@).uint(),
    }
}

/// What is shown of an unlocked vault does not depend on the credential.
pub proof fn law_credential_is_never_shown(a: JsonV, b: JsonV)
    requires
        a.at("session_prefix"@) == b.at("session_prefix"@),
        a.at("expires_at"@) == b.at("expires_at"@),
        a.at("expires_in"@) == b.at("expires_in"@),
        a.at("max_expires_at"@) == b.at("max_expires_at"@),
        a.at("max_expires_in"@) == b.at("max_expires_in"@),
    ensures
        unlocked(a) == unlocked(b),
{
}

/// What is shown of a locked vault.
#[derive(Debug, PartialEq)]
pub struct LockOut {
    pub locked: bool,
}

pub(crate) fn owned(t: Option<&str>) -> (r: Option<String>)
    ensures
        json::opt_text(r) == json::opt_str(t),
{
    match t {
        Some(s) => Some(s.to_string()),
        None => None,
    }
}

// --------------------------------------------------------------------- status
/// The state of the broker and of the vault.
#[derive(Debug, PartialEq)]
pub struct StatusOut {
    pub version: u32,
    pub created: String,
    pub locked: bool,
    pub online: bool,
    pub trusted: bool,
    /// Whether the broker says that there is a vault.
    pub initialized: bool,
    pub fingerprint: Option<String>,
}

/// The mathematical value of a [`StatusOut`].
pub struct StatusV {
    pub version: u32,
    pub created: Seq<char>,
    pub locked: bool,
    pub online: bool,
    pub trusted: bool,
    pub initialized: bool,
    pub fingerprint: Option<Seq<char>>,
}

impl View for StatusOut {
    type V = StatusV;

    open spec fn view(&self) -> StatusV {
        StatusV {
            version: self.version,
            created: self.created@,
            locked: self.locked,
            online: self.online,
            trusted: self.trusted,
            initialized: self.initialized,
            fingerprint: json::opt_text(self.fingerprint),
        }
    }
}

/// The fingerprint of the pinned key, if one can be read.
pub open spec fn pinned_fingerprint(pin: Result<Option<Seq<u8>>, Fault>) -> Option<Seq<char>> {
    match pin {
        Ok(Some(k)) => Some(crypto::hex_text(k)),
        _ => None,
    }
}

/// A status without an observation: locked is the safe assumption.
pub open spec fn unknown_status(
    online: bool,
    trusted: bool,
    initialized: bool,
    fingerprint: Option<Seq<char>>,
) -> StatusV {
    StatusV {
        version: 0,
        created: Seq::empty(),
        locked: true,
        online,
        trusted,
        initialized,
        fingerprint,
    }
}

/// The state that an answer and the pin come to. A refusal by the broker means
/// that it is there; only what did not come from the broker means that it is
/// not.
pub open spec fn status_of(
    res: Result<JsonV, CmdErrorV>,
    pin: Result<Option<Seq<u8>>, Fault>,
) -> StatusV {
    let fingerprint = pinned_fingerprint(pin);
    let pinned = fingerprint is Some;
    match res {
        Ok(v) => StatusV {
            version: match v.at("version"@).uint() {
                Some(n) => n as u32,
                None => 0,
            },
            created: rows::word(v, "created"@),
            locked: v.at("locked"@).boolean() != Some(false),
            online: true,
            trusted: pinned,
            initialized: true,
            fingerprint,
        },
        Err(e) => if e.code == "E_BROKER_UNTRUSTED"@ {
            unknown_status(true, false, true, fingerprint)
        } else if e.code == "E_AUDIT_FULL"@ || e.code == "E_AUDIT_WRITE"@ || e.code == "E_BUSY"@ {
            unknown_status(true, pinned, true, fingerprint)
        } else if e.code == "E_NOT_FOUND"@ {
            unknown_status(true, pinned, false, fingerprint)
        } else {
            unknown_status(false, false, false, None)
        },
    }
}

/// What reading the pin came to.
pub open spec fn pin_value(pin: Result<Option<[u8; 32]>, VaultError>) -> Result<
    Option<Seq<u8>>,
    Fault,
> {
    broker_identity::pin_read(pin)
}

/// The value of an answer.
pub open spec fn answer_value(res: Result<Json, CmdError>) -> Result<JsonV, CmdErrorV> {
    match res {
        Ok(j) => Ok(j@),
        Err(e) => Err(e@),
    }
}

fn fingerprint_of(pin: &Result<Option<[u8; 32]>, VaultError>) -> (r: Option<String>)
    ensures
        json::opt_text(r) == pinned_fingerprint(pin_value(*pin)),
{
    match pin {
        Ok(Some(k)) => Some(broker_identity::fingerprint(k)),
        _ => None,
    }
}

fn unknown(online: bool, trusted: bool, initialized: bool, fingerprint: Option<String>) -> (r:
    StatusOut)
    ensures
        r@ == unknown_status(online, trusted, initialized, json::opt_text(fingerprint)),
{
    StatusOut {
        version: 0,
        created: String::new(),
        locked: true,
        online,
        trusted,
        initialized,
        fingerprint,
    }
}

/// Gives the state that an answer to `vault.status` and the pin come to.
pub fn get_status(res: &Result<Json, CmdError>, pin: &Result<Option<[u8; 32]>, VaultError>) -> (r:
    StatusOut)
    ensures
        r@ == status_of(answer_value(*res), pin_value(*pin)),
{
    let fingerprint = fingerprint_of(pin);
    let pinned = fingerprint.is_some();
    match res {
        Ok(v) => {
            let version: u32 = match v.uint_at("version") {
                Some(n) => #[verifier::truncate] (n as u32),
                None => 0,
            };
            let created = match v.text_at("created") {
                Some(t) => t.to_string(),
                None => String::new(),
            };
            let locked = match v.bool_at("locked") {
                Some(b) => b,
                None => true,
            };
            StatusOut {
                version,
                created,
                locked,
                online: true,
                trusted: pinned,
                initialized: true,
                fingerprint,
            }
        },
        Err(e) => if e.has_code("E_BROKER_UNTRUSTED") {
            unknown(true, false, true, fingerprint)
        } else if e.has_code("E_AUDIT_FULL") || e.has_code("E_AUDIT_WRITE") || e.has_code(
            "E_BUSY",
        ) {
            unknown(true, pinned, true, fingerprint)
        } else if e.has_code("E_NOT_FOUND") {
            unknown(true, pinned, false, fingerprint)
        } else {
            unknown(false, false, false, None)
        },
    }
}

/// Nothing is trusted without a pin, and a vault counts as open only where the
/// broker said so.
pub proof fn law_status_fails_safe(
    res: Result<JsonV, CmdErrorV>,
    pin: Result<Option<Seq<u8>>, Fault>,
)
    ensures
        status_of(res, pin).trusted ==> pinned_fingerprint(pin) is Some,
        !status_of(res, pin).locked ==> (res matches Ok(v) && v.at("locked"@).boolean() == Some(
            false,
        )),
        !status_of(res, pin).online ==> status_of(res, pin) == unknown_status(
            false,
            false,
            false,
            None,
        ),
{
}

/// The pin of the socket.
#[derive(Debug, PartialEq)]
pub struct PinStatusOut {
    pub pinned: bool,
    pub fingerprint: Option<String>,
}

/// Gives what is known of the pin, without a word to the broker.
pub fn pin_status(pin: Result<Option<[u8; 32]>, VaultError>) -> (r: Result<PinStatusOut, CmdError>)
    ensures
        match (r, pin) {
            (Ok(o), Ok(k)) => o.pinned == (k is Some) && json::opt_text(o.fingerprint)
                == pinned_fingerprint(pin_value(pin)),
            (Err(e), Err(f)) => e@ == scrubbed(f@),
            _ => false,
        },
{
    match pin {
        Ok(k) => {
            let pinned = k.is_some();
            let fingerprint = match k {
                Some(key) => Some(broker_identity::fingerprint(&key)),
                None => None,
            };
            Ok(PinStatusOut { pinned, fingerprint })
        },
        Err(e) => Err(CmdError::from_vault_error(&e)),
    }
}

/// The fingerprint that a running broker presents.
#[derive(Debug, PartialEq)]
pub struct ProbeOut {
    pub fingerprint: String,
}

/// Checks the fingerprint that a broker presents: it must have the shape of
/// one.
pub fn probe_fingerprint(presented: Result<String, VaultError>) -> (r: Result<ProbeOut, CmdError>)
    ensures
        match (r, presented) {
            (Ok(o), Ok(t)) => broker_identity::is_fingerprint(text::utf8(t@)) && o.fingerprint@
                == crypto::hex_text(crypto::unhex_bytes(text::utf8(t@))),
            (Err(e), Ok(t)) => !broker_identity::is_fingerprint(text::utf8(t@)) && e@ == scrubbed(
                Fault::InvalidInput("fingerprint must be 64 hex characters"@),
            ),
            (Err(e), Err(f)) => e@ == scrubbed(f@),
            (Ok(_), Err(_)) => false,
        },
{
    match presented {
        Ok(t) => match broker_identity::parse_fingerprint(&t) {
            Ok(k) => Ok(ProbeOut { fingerprint: broker_identity::fingerprint(&k) }),
            Err(e) => Err(CmdError::from_vault_error(&e)),
        },
        Err(e) => Err(CmdError::from_vault_error(&e)),
    }
}

/// What stands for a value stands for all of it, part by part.
pub proof fn law_the_view_of_cmd_error_is_faithful(x: CmdError)
    ensures
        x@.code == x.code@,
        x@.message == x.message@,
{
}

/// What stands for a value stands for all of it, part by part.
pub proof fn law_the_view_of_unlock_out_is_faithful(x: UnlockOut)
    ensures
        x@.unlocked == x.unlocked,
        x@.session_prefix == json::opt_text(x.session_prefix),
        x@.expires_at == json::opt_text(x.expires_at),
        x@.expires_in == x.expires_in,
        x@.max_expires_at == json::opt_text(x.max_expires_at),
        x@.max_expires_in == x.max_expires_in,
{
}

/// What stands for a value stands for all of it, part by part.
pub proof fn law_the_view_of_status_out_is_faithful(x: StatusOut)
    ensures
        x@.version == x.version,
        x@.created == x.created@,
        x@.locked == x.locked,
        x@.online == x.online,
        x@.trusted == x.trusted,
        x@.initialized == x.initialized,
        x@.fingerprint == json::opt_text(x.fingerprint),
{
}

} // verus!
