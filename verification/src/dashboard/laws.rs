//! What holds of the messages that the dashboard shows.

use vstd::prelude::*;

use crate::dashboard::broker_text;
use crate::error::Fault;

verus! {

/// The message of an error's code.
pub open spec fn own_text(e: Fault) -> Seq<char> {
    match e {
        Fault::Auth => "authentication failed"@,
        Fault::Locked => "vault is locked"@,
        Fault::Busy => "too many concurrent operations"@,
        Fault::Corrupt(_) => "vault file corrupted"@,
        Fault::InsecureParams => "kdf parameters outside accepted bounds"@,
        Fault::WeakPassphrase => "passphrase must be at least 12 characters"@,
        Fault::HumanRequired => "this operation is human-only"@,
        Fault::Exists => "already exists"@,
        Fault::Mismatch => "passphrases do not match"@,
        Fault::NotFound => "not found"@,
        Fault::Permission => "permission denied"@,
        Fault::PathNotAuthorized => "path outside authorized folders"@,
        Fault::LeaseExpired => "lease expired or revoked"@,
        Fault::SessionExpired => "session expired or revoked"@,
        Fault::ApprovalPending { .. } => "approval pending"@,
        Fault::ApprovalDenied => "approval denied"@,
        Fault::ApprovalConsumed => "approval already claimed"@,
        Fault::ApprovalExpired => "approval expired"@,
        Fault::TooLarge => "message too large"@,
        Fault::VaultTooLarge => "vault would exceed the maximum size"@,
        Fault::InvalidInput(_) => "invalid input"@,
        Fault::AuditFull(_) => "audit log is full"@,
        Fault::AuditWrite(_) => "audit write failed"@,
        Fault::BrokerUntrusted(_) => "broker identity could not be verified"@,
        Fault::Io { .. } => "filesystem error"@,
        Fault::Protocol(_) => "protocol error"@,
    }
}

/// The codes are told apart by their length and a letter or two.
proof fn lemma_codes_differ()
    ensures
        "E_AUTH"@.len() == 6 && "E_AUTH"@[2] == 'A',
        "E_LOCKED"@.len() == 8 && "E_LOCKED"@[2] == 'L',
        "E_BUSY"@.len() == 6 && "E_BUSY"@[2] == 'B',
        "E_VAULT_CORRUPT"@.len() == 15 && "E_VAULT_CORRUPT"@[2] == 'V',
        "E_INSECURE_PARAMS"@.len() == 17 && "E_INSECURE_PARAMS"@[2] == 'I',
        "E_WEAK_PASSPHRASE"@.len() == 17 && "E_WEAK_PASSPHRASE"@[2] == 'W',
        "E_HUMAN_REQUIRED"@.len() == 16,
        "E_EXISTS"@.len() == 8 && "E_EXISTS"@[2] == 'E',
        "E_MISMATCH"@.len() == 10 && "E_MISMATCH"@[2] == 'M',
        "E_NOT_FOUND"@.len() == 11 && "E_NOT_FOUND"@[2] == 'N',
        "E_PERMISSION"@.len() == 12 && "E_PERMISSION"@[2] == 'P',
        "E_PATH_NOT_AUTHORIZED"@.len() == 21,
        "E_LEASE_EXPIRED"@.len() == 15 && "E_LEASE_EXPIRED"@[2] == 'L',
        "E_SESSION_EXPIRED"@.len() == 17 && "E_SESSION_EXPIRED"@[2] == 'S',
        "E_APPROVAL_PENDING"@.len() == 18 && "E_APPROVAL_PENDING"@[2] == 'A' && "E_APPROVAL_PENDING"@[11] == 'P',
        "E_APPROVAL_DENIED"@.len() == 17 && "E_APPROVAL_DENIED"@[2] == 'A',
        "E_APPROVAL_CONSUMED"@.len() == 19,
        "E_APPROVAL_EXPIRED"@.len() == 18 && "E_APPROVAL_EXPIRED"@[2] == 'A' && "E_APPROVAL_EXPIRED"@[11] == 'E',
        "E_TOO_LARGE"@.len() == 11 && "E_TOO_LARGE"@[2] == 'T',
        "E_VAULT_TOO_LARGE"@.len() == 17 && "E_VAULT_TOO_LARGE"@[2] == 'V',
        "E_INVALID_INPUT"@.len() == 15 && "E_INVALID_INPUT"@[2] == 'I',
        "E_AUDIT_FULL"@.len() == 12 && "E_AUDIT_FULL"@[2] == 'A',
        "E_AUDIT_WRITE"@.len() == 13,
        "E_BROKER_UNTRUSTED"@.len() == 18 && "E_BROKER_UNTRUSTED"@[2] == 'B' && "E_BROKER_UNTRUSTED"@[11] == 'T',
        "E_IO"@.len() == 4,
        "E_PROTOCOL"@.len() == 10 && "E_PROTOCOL"@[2] == 'P',
{
    reveal_strlit("E_AUTH");
    assert("E_AUTH"@.len() == 6 && "E_AUTH"@[2] == 'A');
    reveal_strlit("E_LOCKED");
    assert("E_LOCKED"@.len() == 8 && "E_LOCKED"@[2] == 'L');
    reveal_strlit("E_BUSY");
    assert("E_BUSY"@.len() == 6 && "E_BUSY"@[2] == 'B');
    reveal_strlit("E_VAULT_CORRUPT");
    assert("E_VAULT_CORRUPT"@.len() == 15 && "E_VAULT_CORRUPT"@[2] == 'V');
    reveal_strlit("E_INSECURE_PARAMS");
    assert("E_INSECURE_PARAMS"@.len() == 17 && "E_INSECURE_PARAMS"@[2] == 'I');
    reveal_strlit("E_WEAK_PASSPHRASE");
    assert("E_WEAK_PASSPHRASE"@.len() == 17 && "E_WEAK_PASSPHRASE"@[2] == 'W');
    reveal_strlit("E_HUMAN_REQUIRED");
    assert("E_HUMAN_REQUIRED"@.len() == 16);
    reveal_strlit("E_EXISTS");
    assert("E_EXISTS"@.len() == 8 && "E_EXISTS"@[2] == 'E');
    reveal_strlit("E_MISMATCH");
    assert("E_MISMATCH"@.len() == 10 && "E_MISMATCH"@[2] == 'M');
    reveal_strlit("E_NOT_FOUND");
    assert("E_NOT_FOUND"@.len() == 11 && "E_NOT_FOUND"@[2] == 'N');
    reveal_strlit("E_PERMISSION");
    assert("E_PERMISSION"@.len() == 12 && "E_PERMISSION"@[2] == 'P');
    reveal_strlit("E_PATH_NOT_AUTHORIZED");
    assert("E_PATH_NOT_AUTHORIZED"@.len() == 21);
    reveal_strlit("E_LEASE_EXPIRED");
    assert("E_LEASE_EXPIRED"@.len() == 15 && "E_LEASE_EXPIRED"@[2] == 'L');
    reveal_strlit("E_SESSION_EXPIRED");
    assert("E_SESSION_EXPIRED"@.len() == 17 && "E_SESSION_EXPIRED"@[2] == 'S');
    reveal_strlit("E_APPROVAL_PENDING");
    assert("E_APPROVAL_PENDING"@.len() == 18 && "E_APPROVAL_PENDING"@[2] == 'A' && "E_APPROVAL_PENDING"@[11] == 'P');
    reveal_strlit("E_APPROVAL_DENIED");
    assert("E_APPROVAL_DENIED"@.len() == 17 && "E_APPROVAL_DENIED"@[2] == 'A');
    reveal_strlit("E_APPROVAL_CONSUMED");
    assert("E_APPROVAL_CONSUMED"@.len() == 19);
    reveal_strlit("E_APPROVAL_EXPIRED");
    assert("E_APPROVAL_EXPIRED"@.len() == 18 && "E_APPROVAL_EXPIRED"@[2] == 'A' && "E_APPROVAL_EXPIRED"@[11] == 'E');
    reveal_strlit("E_TOO_LARGE");
    assert("E_TOO_LARGE"@.len() == 11 && "E_TOO_LARGE"@[2] == 'T');
    reveal_strlit("E_VAULT_TOO_LARGE");
    assert("E_VAULT_TOO_LARGE"@.len() == 17 && "E_VAULT_TOO_LARGE"@[2] == 'V');
    reveal_strlit("E_INVALID_INPUT");
    assert("E_INVALID_INPUT"@.len() == 15 && "E_INVALID_INPUT"@[2] == 'I');
    reveal_strlit("E_AUDIT_FULL");
    assert("E_AUDIT_FULL"@.len() == 12 && "E_AUDIT_FULL"@[2] == 'A');
    reveal_strlit("E_AUDIT_WRITE");
    assert("E_AUDIT_WRITE"@.len() == 13);
    reveal_strlit("E_BROKER_UNTRUSTED");
    assert("E_BROKER_UNTRUSTED"@.len() == 18 && "E_BROKER_UNTRUSTED"@[2] == 'B' && "E_BROKER_UNTRUSTED"@[11] == 'T');
    reveal_strlit("E_IO");
    assert("E_IO"@.len() == 4);
    reveal_strlit("E_PROTOCOL");
    assert("E_PROTOCOL"@.len() == 10 && "E_PROTOCOL"@[2] == 'P');
}

/// The messages are told apart in the same way.
proof fn lemma_texts_differ()
    ensures
        "authentication failed"@.len() == 21,
        "vault is locked"@.len() == 15 && "vault is locked"@[0] == 'v',
        "too many concurrent operations"@.len() == 30,
        "vault file corrupted"@.len() == 20,
        "kdf parameters outside accepted bounds"@.len() == 38,
        "passphrase must be at least 12 characters"@.len() == 41,
        "this operation is human-only"@.len() == 28,
        "already exists"@.len() == 14 && "already exists"@[0] == 'a',
        "passphrases do not match"@.len() == 24 && "passphrases do not match"@[0] == 'p',
        "not found"@.len() == 9,
        "permission denied"@.len() == 17 && "permission denied"@[0] == 'p',
        "path outside authorized folders"@.len() == 31,
        "lease expired or revoked"@.len() == 24 && "lease expired or revoked"@[0] == 'l',
        "session expired or revoked"@.len() == 26,
        "approval pending"@.len() == 16 && "approval pending"@[0] == 'a' && "approval pending"@[9] == 'p',
        "approval denied"@.len() == 15 && "approval denied"@[0] == 'a',
        "approval already claimed"@.len() == 24 && "approval already claimed"@[0] == 'a',
        "approval expired"@.len() == 16 && "approval expired"@[0] == 'a' && "approval expired"@[9] == 'e',
        "message too large"@.len() == 17 && "message too large"@[0] == 'm',
        "vault would exceed the maximum size"@.len() == 35,
        "invalid input"@.len() == 13,
        "audit log is full"@.len() == 17 && "audit log is full"@[0] == 'a',
        "audit write failed"@.len() == 18,
        "broker identity could not be verified"@.len() == 37,
        "filesystem error"@.len() == 16 && "filesystem error"@[0] == 'f' && "filesystem error"@[9] == 'm',
        "protocol error"@.len() == 14 && "protocol error"@[0] == 'p',
        "broker error"@.len() == 12,
{
    reveal_strlit("authentication failed");
    assert("authentication failed"@.len() == 21);
    reveal_strlit("vault is locked");
    assert("vault is locked"@.len() == 15 && "vault is locked"@[0] == 'v');
    reveal_strlit("too many concurrent operations");
    assert("too many concurrent operations"@.len() == 30);
    reveal_strlit("vault file corrupted");
    assert("vault file corrupted"@.len() == 20);
    reveal_strlit("kdf parameters outside accepted bounds");
    assert("kdf parameters outside accepted bounds"@.len() == 38);
    reveal_strlit("passphrase must be at least 12 characters");
    assert("passphrase must be at least 12 characters"@.len() == 41);
    reveal_strlit("this operation is human-only");
    assert("this operation is human-only"@.len() == 28);
    reveal_strlit("already exists");
    assert("already exists"@.len() == 14 && "already exists"@[0] == 'a');
    reveal_strlit("passphrases do not match");
    assert("passphrases do not match"@.len() == 24 && "passphrases do not match"@[0] == 'p');
    reveal_strlit("not found");
    assert("not found"@.len() == 9);
    reveal_strlit("permission denied");
    assert("permission denied"@.len() == 17 && "permission denied"@[0] == 'p');
    reveal_strlit("path outside authorized folders");
    assert("path outside authorized folders"@.len() == 31);
    reveal_strlit("lease expired or revoked");
    assert("lease expired or revoked"@.len() == 24 && "lease expired or revoked"@[0] == 'l');
    reveal_strlit("session expired or revoked");
    assert("session expired or revoked"@.len() == 26);
    reveal_strlit("approval pending");
    assert("approval pending"@.len() == 16 && "approval pending"@[0] == 'a' && "approval pending"@[9] == 'p');
    reveal_strlit("approval denied");
    assert("approval denied"@.len() == 15 && "approval denied"@[0] == 'a');
    reveal_strlit("approval already claimed");
    assert("approval already claimed"@.len() == 24 && "approval already claimed"@[0] == 'a');
    reveal_strlit("approval expired");
    assert("approval expired"@.len() == 16 && "approval expired"@[0] == 'a' && "approval expired"@[9] == 'e');
    reveal_strlit("message too large");
    assert("message too large"@.len() == 17 && "message too large"@[0] == 'm');
    reveal_strlit("vault would exceed the maximum size");
    assert("vault would exceed the maximum size"@.len() == 35);
    reveal_strlit("invalid input");
    assert("invalid input"@.len() == 13);
    reveal_strlit("audit log is full");
    assert("audit log is full"@.len() == 17 && "audit log is full"@[0] == 'a');
    reveal_strlit("audit write failed");
    assert("audit write failed"@.len() == 18);
    reveal_strlit("broker identity could not be verified");
    assert("broker identity could not be verified"@.len() == 37);
    reveal_strlit("filesystem error");
    assert("filesystem error"@.len() == 16 && "filesystem error"@[0] == 'f' && "filesystem error"@[9] == 'm');
    reveal_strlit("protocol error");
    assert("protocol error"@.len() == 14 && "protocol error"@[0] == 'p');
    reveal_strlit("broker error");
    assert("broker error"@.len() == 12);
}

/// Each code has a message of its own: the messages of two errors are the same
/// exactly when the errors are of one variant, and none is the fallback.
pub proof fn law_every_code_has_its_own_text(a: Fault, b: Fault)
    ensures
        broker_text(a.code()) == own_text(a),
        broker_text(a.code()) == broker_text(b.code()) <==> a.kind() == b.kind(),
        broker_text(a.code()) != "broker error"@,
{
    lemma_codes_differ();
    lemma_texts_differ();
    assert(broker_text(a.code()) == own_text(a));
    assert(broker_text(b.code()) == own_text(b));
}

/// A code of no error has the fallback for its message.
pub proof fn law_unknown_codes_have_the_fallback(code: Seq<char>)
    requires
        forall|e: Fault| #[trigger] e.code() != code,
    ensures
        broker_text(code) == "broker error"@,
{
    assert(Fault::Auth.code() == "E_AUTH"@);
    assert(Fault::Locked.code() == "E_LOCKED"@);
    assert(Fault::Busy.code() == "E_BUSY"@);
    assert(Fault::Corrupt(Seq::empty()).code() == "E_VAULT_CORRUPT"@);
    assert(Fault::InsecureParams.code() == "E_INSECURE_PARAMS"@);
    assert(Fault::WeakPassphrase.code() == "E_WEAK_PASSPHRASE"@);
    assert(Fault::HumanRequired.code() == "E_HUMAN_REQUIRED"@);
    assert(Fault::Exists.code() == "E_EXISTS"@);
    assert(Fault::Mismatch.code() == "E_MISMATCH"@);
    assert(Fault::NotFound.code() == "E_NOT_FOUND"@);
    assert(Fault::Permission.code() == "E_PERMISSION"@);
    assert(Fault::PathNotAuthorized.code() == "E_PATH_NOT_AUTHORIZED"@);
    assert(Fault::LeaseExpired.code() == "E_LEASE_EXPIRED"@);
    assert(Fault::SessionExpired.code() == "E_SESSION_EXPIRED"@);
    assert((Fault::ApprovalPending { approval_id: Seq::empty(), expires_in: 0 }).code() == "E_APPROVAL_PENDING"@);
    assert(Fault::ApprovalDenied.code() == "E_APPROVAL_DENIED"@);
    assert(Fault::ApprovalConsumed.code() == "E_APPROVAL_CONSUMED"@);
    assert(Fault::ApprovalExpired.code() == "E_APPROVAL_EXPIRED"@);
    assert(Fault::TooLarge.code() == "E_TOO_LARGE"@);
    assert(Fault::VaultTooLarge.code() == "E_VAULT_TOO_LARGE"@);
    assert(Fault::InvalidInput(Seq::empty()).code() == "E_INVALID_INPUT"@);
    assert(Fault::AuditFull(Seq::empty()).code() == "E_AUDIT_FULL"@);
    assert(Fault::AuditWrite(Seq::empty()).code() == "E_AUDIT_WRITE"@);
    assert(Fault::BrokerUntrusted(Seq::empty()).code() == "E_BROKER_UNTRUSTED"@);
    assert((Fault::Io { os_code: None, text: Seq::empty() }).code() == "E_IO"@);
    assert(Fault::Protocol(Seq::empty()).code() == "E_PROTOCOL"@);
}

} // verus!
