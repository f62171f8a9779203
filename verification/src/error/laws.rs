//! The code and the message of every error.

use vstd::prelude::*;

use crate::error::Fault;

verus! {

/// What an error is called on the wire, and what is said of it.
pub open spec fn told(f: Fault) -> (Seq<char>, Seq<char>) {
    match f {
        Fault::Auth => (
            "E_AUTH"@,
            "authentication failed"@,
        ),
        Fault::Locked => (
            "E_LOCKED"@,
            "vault is locked"@,
        ),
        Fault::Busy => (
            "E_BUSY"@,
            "too many concurrent operations"@,
        ),
        Fault::Corrupt(why) => (
            "E_VAULT_CORRUPT"@,
            "vault file corrupted: "@ + why,
        ),
        Fault::InsecureParams => (
            "E_INSECURE_PARAMS"@,
            "kdf parameters outside accepted bounds"@,
        ),
        Fault::WeakPassphrase => (
            "E_WEAK_PASSPHRASE"@,
            "passphrase must be at least 12 characters"@,
        ),
        Fault::HumanRequired => (
            "E_HUMAN_REQUIRED"@,
            "interactive passphrase required and no terminal is available; use --passphrase-file for non-interactive use"@,
        ),
        Fault::Exists => (
            "E_EXISTS"@,
            "vault already exists"@,
        ),
        Fault::NotFound => (
            "E_NOT_FOUND"@,
            "not found"@,
        ),
        Fault::Permission => (
            "E_PERMISSION"@,
            "permission denied"@,
        ),
        Fault::PathNotAuthorized => (
            "E_PATH_NOT_AUTHORIZED"@,
            "path outside authorized folders"@,
        ),
        Fault::LeaseExpired => (
            "E_LEASE_EXPIRED"@,
            "lease expired or revoked"@,
        ),
        Fault::SessionExpired => (
            "E_SESSION_EXPIRED"@,
            "session expired or revoked"@,
        ),
        Fault::ApprovalPending { .. } => (
            "E_APPROVAL_PENDING"@,
            "approval pending"@,
        ),
        Fault::ApprovalDenied => (
            "E_APPROVAL_DENIED"@,
            "approval denied"@,
        ),
        Fault::ApprovalConsumed => (
            "E_APPROVAL_CONSUMED"@,
            "approval already claimed"@,
        ),
        Fault::ApprovalExpired => (
            "E_APPROVAL_EXPIRED"@,
            "approval expired"@,
        ),
        Fault::TooLarge => (
            "E_TOO_LARGE"@,
            "message too large"@,
        ),
        Fault::VaultTooLarge => (
            "E_VAULT_TOO_LARGE"@,
            "vault would exceed the maximum vault size; refusing to store a vault that could not be reopened"@,
        ),
        Fault::InvalidInput(why) => (
            "E_INVALID_INPUT"@,
            "invalid input: "@ + why,
        ),
        Fault::AuditWrite(why) => (
            "E_AUDIT_WRITE"@,
            "vault change committed but the audit event failed to write: "@ + why,
        ),
        Fault::AuditFull(why) => (
            "E_AUDIT_FULL"@,
            "audit log is full: "@ + why,
        ),
        Fault::Mismatch => (
            "E_MISMATCH"@,
            "passphrases do not match"@,
        ),
        Fault::BrokerUntrusted(why) => (
            "E_BROKER_UNTRUSTED"@,
            "broker identity could not be verified; refusing to send credentials: "@ + why,
        ),
        Fault::Io { text, .. } => (
            "E_IO"@,
            "io error: "@ + text,
        ),
        Fault::Protocol(why) => (
            "E_PROTOCOL"@,
            "protocol error: "@ + why,
        ),
    }
}

/// Every error has its code and its message; a text that it holds stands at the end of the
/// message, and in no code.
pub proof fn law_errors_are_told_by_code_and_message(f: Fault)
    ensures
        f.code() == told(f).0,
        f.message() == told(f).1,
{
}

} // verus!
