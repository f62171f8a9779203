//! The error taxonomy. No message holds a secret value or key material, and
//! the codes are fixed words, so an audit entry can carry a code safely.

use vstd::prelude::*;

use crate::text::joined;

pub mod laws;

verus! {

/// A failed system call: the operating system's number, where there is one,
/// and the text that describes it.
#[derive(Debug, PartialEq)]
pub struct IoFailure {
    pub os_code: Option<i32>,
    pub text: String,
}

/// What can go wrong.
#[derive(Debug, PartialEq)]
pub enum VaultError {
    /// Wrong passphrase or unusable passphrase slot. A tampered slot cannot be
    /// told apart from a wrong passphrase, so both surface as this error.
    Auth,
    /// The operation needs an unlocked vault.
    Locked,
    /// Too many concurrent operations.
    Busy,
    /// The vault envelope failed integrity or format validation.
    Corrupt(String),
    /// KDF parameters outside the accepted bounds.
    InsecureParams,
    /// The passphrase is shorter than the minimum length.
    WeakPassphrase,
    /// An interactive terminal is required but unavailable.
    HumanRequired,
    /// The vault file already exists.
    Exists,
    /// The requested project or secret does not exist.
    NotFound,
    /// The authenticated identity lacks the required grant.
    Permission,
    /// A path outside every authorized folder. The path is never part of the
    /// message.
    PathNotAuthorized,
    /// The presented lease is unknown, revoked, expired or no longer covered.
    LeaseExpired,
    /// The presented human session is unknown, closed, lapsed or purged.
    SessionExpired,
    /// An agent reveal without an approval: the pending approval and the
    /// seconds until it lapses. Neither is part of the message.
    ApprovalPending { approval_id: String, expires_in: u64 },
    /// The owner denied the approval.
    ApprovalDenied,
    /// The approval was already claimed.
    ApprovalConsumed,
    /// The approval lapsed before it was decided or claimed.
    ApprovalExpired,
    /// A wire message exceeded the size cap.
    TooLarge,
    /// A vault mutation would produce a file that the loader rejects.
    VaultTooLarge,
    /// User-controlled input failed validation.
    InvalidInput(&'static str),
    /// The vault change is in place but its audit event could not be written.
    AuditWrite(String),
    /// The audit log has no room for the event, so nothing was changed.
    AuditFull(&'static str),
    /// The two passphrase prompts did not match.
    Mismatch,
    /// The broker's identity could not be established.
    BrokerUntrusted(String),
    /// A failed system call.
    Io(IoFailure),
    /// Protocol or serialization misuse.
    Protocol(String),
}

/// The mathematical value of a [`VaultError`].
pub enum Fault {
    Auth,
    Locked,
    Busy,
    Corrupt(Seq<char>),
    InsecureParams,
    WeakPassphrase,
    HumanRequired,
    Exists,
    NotFound,
    Permission,
    PathNotAuthorized,
    LeaseExpired,
    SessionExpired,
    ApprovalPending { approval_id: Seq<char>, expires_in: u64 },
    ApprovalDenied,
    ApprovalConsumed,
    ApprovalExpired,
    TooLarge,
    VaultTooLarge,
    InvalidInput(Seq<char>),
    AuditWrite(Seq<char>),
    AuditFull(Seq<char>),
    Mismatch,
    BrokerUntrusted(Seq<char>),
    Io { os_code: Option<i32>, text: Seq<char> },
    Protocol(Seq<char>),
}

impl View for VaultError {
    type V = Fault;

    open spec fn view(&self) -> Fault {
        match self {
            VaultError::Auth => Fault::Auth,
            VaultError::Locked => Fault::Locked,
            VaultError::Busy => Fault::Busy,
            VaultError::Corrupt(why) => Fault::Corrupt(why@),
            VaultError::InsecureParams => Fault::InsecureParams,
            VaultError::WeakPassphrase => Fault::WeakPassphrase,
            VaultError::HumanRequired => Fault::HumanRequired,
            VaultError::Exists => Fault::Exists,
            VaultError::NotFound => Fault::NotFound,
            VaultError::Permission => Fault::Permission,
            VaultError::PathNotAuthorized => Fault::PathNotAuthorized,
            VaultError::LeaseExpired => Fault::LeaseExpired,
            VaultError::SessionExpired => Fault::SessionExpired,
            VaultError::ApprovalPending { approval_id, expires_in } => Fault::ApprovalPending {
                approval_id: approval_id@,
                expires_in: *expires_in,
            },
            VaultError::ApprovalDenied => Fault::ApprovalDenied,
            VaultError::ApprovalConsumed => Fault::ApprovalConsumed,
            VaultError::ApprovalExpired => Fault::ApprovalExpired,
            VaultError::TooLarge => Fault::TooLarge,
            VaultError::VaultTooLarge => Fault::VaultTooLarge,
            VaultError::InvalidInput(why) => Fault::InvalidInput(why@),
            VaultError::AuditWrite(why) => Fault::AuditWrite(why@),
            VaultError::AuditFull(why) => Fault::AuditFull(why@),
            VaultError::Mismatch => Fault::Mismatch,
            VaultError::BrokerUntrusted(why) => Fault::BrokerUntrusted(why@),
            VaultError::Io(e) => Fault::Io { os_code: e.os_code, text: e.text@ },
            VaultError::Protocol(why) => Fault::Protocol(why@),
        }
    }
}

impl Fault {
    /// The fixed word that names the error.
    pub open spec fn code(self) -> Seq<char> {
        match self {
            Fault::Auth => "E_AUTH"@,
            Fault::Locked => "E_LOCKED"@,
            Fault::Busy => "E_BUSY"@,
            Fault::Corrupt(_) => "E_VAULT_CORRUPT"@,
            Fault::InsecureParams => "E_INSECURE_PARAMS"@,
            Fault::WeakPassphrase => "E_WEAK_PASSPHRASE"@,
            Fault::HumanRequired => "E_HUMAN_REQUIRED"@,
            Fault::Exists => "E_EXISTS"@,
            Fault::NotFound => "E_NOT_FOUND"@,
            Fault::Permission => "E_PERMISSION"@,
            Fault::PathNotAuthorized => "E_PATH_NOT_AUTHORIZED"@,
            Fault::LeaseExpired => "E_LEASE_EXPIRED"@,
            Fault::SessionExpired => "E_SESSION_EXPIRED"@,
            Fault::ApprovalPending { .. } => "E_APPROVAL_PENDING"@,
            Fault::ApprovalDenied => "E_APPROVAL_DENIED"@,
            Fault::ApprovalConsumed => "E_APPROVAL_CONSUMED"@,
            Fault::ApprovalExpired => "E_APPROVAL_EXPIRED"@,
            Fault::TooLarge => "E_TOO_LARGE"@,
            Fault::VaultTooLarge => "E_VAULT_TOO_LARGE"@,
            Fault::InvalidInput(_) => "E_INVALID_INPUT"@,
            Fault::AuditWrite(_) => "E_AUDIT_WRITE"@,
            Fault::AuditFull(_) => "E_AUDIT_FULL"@,
            Fault::Mismatch => "E_MISMATCH"@,
            Fault::BrokerUntrusted(_) => "E_BROKER_UNTRUSTED"@,
            Fault::Io { .. } => "E_IO"@,
            Fault::Protocol(_) => "E_PROTOCOL"@,
        }
    }

    /// Which variant the error is, whatever it holds.
    pub open spec fn kind(self) -> int {
        match self {
            Fault::Auth => 0,
            Fault::Locked => 1,
            Fault::Busy => 2,
            Fault::Corrupt(_) => 3,
            Fault::InsecureParams => 4,
            Fault::WeakPassphrase => 5,
            Fault::HumanRequired => 6,
            Fault::Exists => 7,
            Fault::NotFound => 8,
            Fault::Permission => 9,
            Fault::PathNotAuthorized => 10,
            Fault::LeaseExpired => 11,
            Fault::SessionExpired => 12,
            Fault::ApprovalPending { .. } => 13,
            Fault::ApprovalDenied => 14,
            Fault::ApprovalConsumed => 15,
            Fault::ApprovalExpired => 16,
            Fault::TooLarge => 17,
            Fault::VaultTooLarge => 18,
            Fault::InvalidInput(_) => 19,
            Fault::AuditWrite(_) => 20,
            Fault::AuditFull(_) => 21,
            Fault::Mismatch => 22,
            Fault::BrokerUntrusted(_) => 23,
            Fault::Io { .. } => 24,
            Fault::Protocol(_) => 25,
        }
    }

    /// The sentence shown to a person.
    pub open spec fn message(self) -> Seq<char> {
        match self {
            Fault::Auth => "authentication failed"@,
            Fault::Locked => "vault is locked"@,
            Fault::Busy => "too many concurrent operations"@,
            Fault::Corrupt(why) => "vault file corrupted: "@ + why,
            Fault::InsecureParams => "kdf parameters outside accepted bounds"@,
            Fault::WeakPassphrase => "passphrase must be at least 12 characters"@,
            Fault::HumanRequired => "interactive passphrase required and no terminal is available; use --passphrase-file for non-interactive use"@,
            Fault::Exists => "vault already exists"@,
            Fault::NotFound => "not found"@,
            Fault::Permission => "permission denied"@,
            Fault::PathNotAuthorized => "path outside authorized folders"@,
            Fault::LeaseExpired => "lease expired or revoked"@,
            Fault::SessionExpired => "session expired or revoked"@,
            Fault::ApprovalPending { .. } => "approval pending"@,
            Fault::ApprovalDenied => "approval denied"@,
            Fault::ApprovalConsumed => "approval already claimed"@,
            Fault::ApprovalExpired => "approval expired"@,
            Fault::TooLarge => "message too large"@,
            Fault::VaultTooLarge => "vault would exceed the maximum vault size; refusing to store a vault that could not be reopened"@,
            Fault::InvalidInput(why) => "invalid input: "@ + why,
            Fault::AuditWrite(why) => "vault change committed but the audit event failed to write: "@ + why,
            Fault::AuditFull(why) => "audit log is full: "@ + why,
            Fault::Mismatch => "passphrases do not match"@,
            Fault::BrokerUntrusted(why) => "broker identity could not be verified; refusing to send credentials: "@ + why,
            Fault::Io { text, .. } => "io error: "@ + text,
            Fault::Protocol(why) => "protocol error: "@ + why,
        }
    }
}

impl VaultError {
    /// The operating system's error number, when the error holds one.
    pub fn raw_os_error(&self) -> (r: Option<i32>)
        ensures
            r == (match self@ {
                Fault::Io { os_code, .. } => os_code,
                _ => None,
            }),
    {
        match self {
            VaultError::Io(e) => e.os_code,
            _ => None,
        }
    }

    /// The fixed word for audit entries and the wire. Never dynamic, so no
    /// secret and no path can reach the log through it.
    pub fn code(&self) -> (r: &'static str)
        ensures
            r@ == self@.code(),
    {
        match self {
            VaultError::Auth => "E_AUTH",
            VaultError::Locked => "E_LOCKED",
            VaultError::Busy => "E_BUSY",
            VaultError::Corrupt(_) => "E_VAULT_CORRUPT",
            VaultError::InsecureParams => "E_INSECURE_PARAMS",
            VaultError::WeakPassphrase => "E_WEAK_PASSPHRASE",
            VaultError::HumanRequired => "E_HUMAN_REQUIRED",
            VaultError::Exists => "E_EXISTS",
            VaultError::NotFound => "E_NOT_FOUND",
            VaultError::Permission => "E_PERMISSION",
            VaultError::PathNotAuthorized => "E_PATH_NOT_AUTHORIZED",
            VaultError::LeaseExpired => "E_LEASE_EXPIRED",
            VaultError::SessionExpired => "E_SESSION_EXPIRED",
            VaultError::ApprovalPending { .. } => "E_APPROVAL_PENDING",
            VaultError::ApprovalDenied => "E_APPROVAL_DENIED",
            VaultError::ApprovalConsumed => "E_APPROVAL_CONSUMED",
            VaultError::ApprovalExpired => "E_APPROVAL_EXPIRED",
            VaultError::TooLarge => "E_TOO_LARGE",
            VaultError::VaultTooLarge => "E_VAULT_TOO_LARGE",
            VaultError::InvalidInput(_) => "E_INVALID_INPUT",
            VaultError::AuditWrite(_) => "E_AUDIT_WRITE",
            VaultError::AuditFull(_) => "E_AUDIT_FULL",
            VaultError::Mismatch => "E_MISMATCH",
            VaultError::BrokerUntrusted(_) => "E_BROKER_UNTRUSTED",
            VaultError::Io(_) => "E_IO",
            VaultError::Protocol(_) => "E_PROTOCOL",
        }
    }

    /// The sentence shown to a person.
    pub fn message(&self) -> (r: String)
        ensures
            r@ == self@.message(),
    {
        match self {
            VaultError::Auth => "authentication failed".to_string(),
            VaultError::Locked => "vault is locked".to_string(),
            VaultError::Busy => "too many concurrent operations".to_string(),
            VaultError::Corrupt(why) => joined("vault file corrupted: ", why),
            VaultError::InsecureParams => "kdf parameters outside accepted bounds".to_string(),
            VaultError::WeakPassphrase => "passphrase must be at least 12 characters".to_string(),
            VaultError::HumanRequired => "interactive passphrase required and no terminal is available; use --passphrase-file for non-interactive use".to_string(),
            VaultError::Exists => "vault already exists".to_string(),
            VaultError::NotFound => "not found".to_string(),
            VaultError::Permission => "permission denied".to_string(),
            VaultError::PathNotAuthorized => "path outside authorized folders".to_string(),
            VaultError::LeaseExpired => "lease expired or revoked".to_string(),
            VaultError::SessionExpired => "session expired or revoked".to_string(),
            VaultError::ApprovalPending { .. } => "approval pending".to_string(),
            VaultError::ApprovalDenied => "approval denied".to_string(),
            VaultError::ApprovalConsumed => "approval already claimed".to_string(),
            VaultError::ApprovalExpired => "approval expired".to_string(),
            VaultError::TooLarge => "message too large".to_string(),
            VaultError::VaultTooLarge => "vault would exceed the maximum vault size; refusing to store a vault that could not be reopened".to_string(),
            VaultError::InvalidInput(why) => joined("invalid input: ", why),
            VaultError::AuditWrite(why) => joined(
                "vault change committed but the audit event failed to write: ",
                why,
            ),
            VaultError::AuditFull(why) => joined("audit log is full: ", why),
            VaultError::Mismatch => "passphrases do not match".to_string(),
            VaultError::BrokerUntrusted(why) => joined(
                "broker identity could not be verified; refusing to send credentials: ",
                why,
            ),
            VaultError::Io(e) => joined("io error: ", &e.text),
            VaultError::Protocol(why) => joined("protocol error: ", why),
        }
    }
}

/// The code tells the variant and nothing else: errors have one code exactly
/// when they are of one variant, whatever they hold.
pub proof fn law_codes_name_the_variants(a: Fault, b: Fault)
    ensures
        a.code() == b.code() <==> a.kind() == b.kind(),
        "E_"@.is_prefix_of(a.code()),
{
    reveal_strlit("E_");
    reveal_strlit("E_AUTH");
    assert("E_AUTH"@.len() == 6 && "E_AUTH"@[2] == 'A');
    reveal_strlit("E_LOCKED");
    assert("E_LOCKED"@.len() == 8 && "E_LOCKED"@[2] == 'L');
    reveal_strlit("E_BUSY");
    assert("E_BUSY"@.len() == 6 && "E_BUSY"@[2] == 'B');
    reveal_strlit("E_VAULT_CORRUPT");
    assert("E_VAULT_CORRUPT"@.len() == 15 && "E_VAULT_CORRUPT"@[2] == 'V');
    reveal_strlit("E_INSECURE_PARAMS");
    assert("E_INSECURE_PARAMS"@.len() == 17 && "E_INSECURE_PARAMS"@[2] == 'I');
    reveal_strlit("E_WEAK_PASSPHRASE");
    assert("E_WEAK_PASSPHRASE"@.len() == 17 && "E_WEAK_PASSPHRASE"@[2] == 'W');
    reveal_strlit("E_HUMAN_REQUIRED");
    assert("E_HUMAN_REQUIRED"@.len() == 16 && "E_HUMAN_REQUIRED"@[2] == 'H');
    reveal_strlit("E_EXISTS");
    assert("E_EXISTS"@.len() == 8 && "E_EXISTS"@[2] == 'E');
    reveal_strlit("E_NOT_FOUND");
    assert("E_NOT_FOUND"@.len() == 11 && "E_NOT_FOUND"@[2] == 'N');
    reveal_strlit("E_PERMISSION");
    assert("E_PERMISSION"@.len() == 12 && "E_PERMISSION"@[2] == 'P');
    reveal_strlit("E_PATH_NOT_AUTHORIZED");
    assert("E_PATH_NOT_AUTHORIZED"@.len() == 21 && "E_PATH_NOT_AUTHORIZED"@[2] == 'P');
    reveal_strlit("E_LEASE_EXPIRED");
    assert("E_LEASE_EXPIRED"@.len() == 15 && "E_LEASE_EXPIRED"@[2] == 'L');
    reveal_strlit("E_SESSION_EXPIRED");
    assert("E_SESSION_EXPIRED"@.len() == 17 && "E_SESSION_EXPIRED"@[2] == 'S');
    reveal_strlit("E_APPROVAL_PENDING");
    assert("E_APPROVAL_PENDING"@.len() == 18 && "E_APPROVAL_PENDING"@[2] == 'A' && "E_APPROVAL_PENDING"@[11] == 'P');
    reveal_strlit("E_APPROVAL_DENIED");
    assert("E_APPROVAL_DENIED"@.len() == 17 && "E_APPROVAL_DENIED"@[2] == 'A');
    reveal_strlit("E_APPROVAL_CONSUMED");
    assert("E_APPROVAL_CONSUMED"@.len() == 19 && "E_APPROVAL_CONSUMED"@[2] == 'A');
    reveal_strlit("E_APPROVAL_EXPIRED");
    assert("E_APPROVAL_EXPIRED"@.len() == 18 && "E_APPROVAL_EXPIRED"@[2] == 'A' && "E_APPROVAL_EXPIRED"@[11] == 'E');
    reveal_strlit("E_TOO_LARGE");
    assert("E_TOO_LARGE"@.len() == 11 && "E_TOO_LARGE"@[2] == 'T');
    reveal_strlit("E_VAULT_TOO_LARGE");
    assert("E_VAULT_TOO_LARGE"@.len() == 17 && "E_VAULT_TOO_LARGE"@[2] == 'V');
    reveal_strlit("E_INVALID_INPUT");
    assert("E_INVALID_INPUT"@.len() == 15 && "E_INVALID_INPUT"@[2] == 'I');
    reveal_strlit("E_AUDIT_WRITE");
    assert("E_AUDIT_WRITE"@.len() == 13 && "E_AUDIT_WRITE"@[2] == 'A');
    reveal_strlit("E_AUDIT_FULL");
    assert("E_AUDIT_FULL"@.len() == 12 && "E_AUDIT_FULL"@[2] == 'A');
    reveal_strlit("E_MISMATCH");
    assert("E_MISMATCH"@.len() == 10 && "E_MISMATCH"@[2] == 'M');
    reveal_strlit("E_BROKER_UNTRUSTED");
    assert("E_BROKER_UNTRUSTED"@.len() == 18 && "E_BROKER_UNTRUSTED"@[2] == 'B');
    reveal_strlit("E_IO");
    assert("E_IO"@.len() == 4 && "E_IO"@[2] == 'I');
    reveal_strlit("E_PROTOCOL");
    assert("E_PROTOCOL"@.len() == 10 && "E_PROTOCOL"@[2] == 'P');
    assert(a.code()[0] == 'E' && a.code()[1] == '_');
    assert(a.code().subrange(0, 2) =~= "E_"@);
}

/// What stands for a value stands for all of it: the same variant, with every part.
pub proof fn law_the_view_of_vault_error_is_faithful(x: VaultError)
    ensures
        match (x, x@) {
            (VaultError::Auth, Fault::Auth) => true,
            (VaultError::Locked, Fault::Locked) => true,
            (VaultError::Busy, Fault::Busy) => true,
            (VaultError::Corrupt(why), Fault::Corrupt(v0)) => v0 == why@,
            (VaultError::InsecureParams, Fault::InsecureParams) => true,
            (VaultError::WeakPassphrase, Fault::WeakPassphrase) => true,
            (VaultError::HumanRequired, Fault::HumanRequired) => true,
            (VaultError::Exists, Fault::Exists) => true,
            (VaultError::NotFound, Fault::NotFound) => true,
            (VaultError::Permission, Fault::Permission) => true,
            (VaultError::PathNotAuthorized, Fault::PathNotAuthorized) => true,
            (VaultError::LeaseExpired, Fault::LeaseExpired) => true,
            (VaultError::SessionExpired, Fault::SessionExpired) => true,
            (
                VaultError::ApprovalPending { approval_id, expires_in },
                Fault::ApprovalPending { approval_id: approval_id_v, expires_in: expires_in_v },
            ) => approval_id_v == approval_id@
                && expires_in_v == expires_in,
            (VaultError::ApprovalDenied, Fault::ApprovalDenied) => true,
            (VaultError::ApprovalConsumed, Fault::ApprovalConsumed) => true,
            (VaultError::ApprovalExpired, Fault::ApprovalExpired) => true,
            (VaultError::TooLarge, Fault::TooLarge) => true,
            (VaultError::VaultTooLarge, Fault::VaultTooLarge) => true,
            (VaultError::InvalidInput(why), Fault::InvalidInput(v0)) => v0 == why@,
            (VaultError::AuditWrite(why), Fault::AuditWrite(v0)) => v0 == why@,
            (VaultError::AuditFull(why), Fault::AuditFull(v0)) => v0 == why@,
            (VaultError::Mismatch, Fault::Mismatch) => true,
            (VaultError::BrokerUntrusted(why), Fault::BrokerUntrusted(v0)) => v0 == why@,
            (
                VaultError::Io(e),
                Fault::Io { os_code: os_code_v, text: text_v },
            ) => os_code_v == e.os_code
                && text_v == e.text@,
            (VaultError::Protocol(why), Fault::Protocol(v0)) => v0 == why@,
            _ => false,
        },
{
}

} // verus!
