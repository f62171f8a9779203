//! The operations that the broker serves, by their names on the wire.

use vstd::prelude::*;

use crate::text::same;

verus! {

/// An operation of the broker.
#[derive(Clone, Copy, Debug, PartialEq, Eq, Structural)]
pub enum Operation {
    InjectFile,
    VaultStatus,
    VaultLock,
    SecretsList,
    VaultUnlock,
    VaultCreate,
    ProjectAdd,
    ProjectList,
    ProjectPathAdd,
    ProjectPathRemove,
    ProjectRemove,
    SecretSet,
    SecretDelete,
    AgentsAdd,
    AgentsRevoke,
    AgentsList,
    GrantsGrant,
    GrantsRevoke,
    GrantsList,
    AuditShow,
    AuditVerify,
    LeaseCreate,
    LeaseList,
    LeaseRevoke,
    Reveal,
    ApprovalsStatus,
    ApprovalsPending,
    ApprovalsApprove,
    ApprovalsDeny,
    RunSignal,
    SessionOpen,
    SessionTouch,
    SessionClose,
    RunsList,
    VaultHealth,
}

/// The operation with the given name on the wire.
pub open spec fn operation_named(s: Seq<char>) -> Option<Operation> {
    if s == "inject_file"@ {
        Some(Operation::InjectFile)
    } else if s == "vault.status"@ {
        Some(Operation::VaultStatus)
    } else if s == "vault.lock"@ {
        Some(Operation::VaultLock)
    } else if s == "secrets.list"@ {
        Some(Operation::SecretsList)
    } else if s == "vault.unlock"@ {
        Some(Operation::VaultUnlock)
    } else if s == "vault.create"@ {
        Some(Operation::VaultCreate)
    } else if s == "project.add"@ {
        Some(Operation::ProjectAdd)
    } else if s == "project.list"@ {
        Some(Operation::ProjectList)
    } else if s == "project.path.add"@ {
        Some(Operation::ProjectPathAdd)
    } else if s == "project.path.remove"@ {
        Some(Operation::ProjectPathRemove)
    } else if s == "project.remove"@ {
        Some(Operation::ProjectRemove)
    } else if s == "secret.set"@ {
        Some(Operation::SecretSet)
    } else if s == "secret.delete"@ {
        Some(Operation::SecretDelete)
    } else if s == "agents.add"@ {
        Some(Operation::AgentsAdd)
    } else if s == "agents.revoke"@ {
        Some(Operation::AgentsRevoke)
    } else if s == "agents.list"@ {
        Some(Operation::AgentsList)
    } else if s == "grants.grant"@ {
        Some(Operation::GrantsGrant)
    } else if s == "grants.revoke"@ {
        Some(Operation::GrantsRevoke)
    } else if s == "grants.list"@ {
        Some(Operation::GrantsList)
    } else if s == "audit.show"@ {
        Some(Operation::AuditShow)
    } else if s == "audit.verify"@ {
        Some(Operation::AuditVerify)
    } else if s == "lease.create"@ {
        Some(Operation::LeaseCreate)
    } else if s == "lease.list"@ {
        Some(Operation::LeaseList)
    } else if s == "lease.revoke"@ {
        Some(Operation::LeaseRevoke)
    } else if s == "reveal"@ {
        Some(Operation::Reveal)
    } else if s == "approvals.status"@ {
        Some(Operation::ApprovalsStatus)
    } else if s == "approvals.pending"@ {
        Some(Operation::ApprovalsPending)
    } else if s == "approvals.approve"@ {
        Some(Operation::ApprovalsApprove)
    } else if s == "approvals.deny"@ {
        Some(Operation::ApprovalsDeny)
    } else if s == "run_signal"@ {
        Some(Operation::RunSignal)
    } else if s == "session.open"@ {
        Some(Operation::SessionOpen)
    } else if s == "session.touch"@ {
        Some(Operation::SessionTouch)
    } else if s == "session.close"@ {
        Some(Operation::SessionClose)
    } else if s == "runs.list"@ {
        Some(Operation::RunsList)
    } else if s == "vault.health"@ {
        Some(Operation::VaultHealth)
    } else {
        None
    }
}

impl Operation {
    /// The name on the wire.
    pub open spec fn wire_name(self) -> Seq<char> {
        match self {
            Operation::InjectFile => "inject_file"@,
            Operation::VaultStatus => "vault.status"@,
            Operation::VaultLock => "vault.lock"@,
            Operation::SecretsList => "secrets.list"@,
            Operation::VaultUnlock => "vault.unlock"@,
            Operation::VaultCreate => "vault.create"@,
            Operation::ProjectAdd => "project.add"@,
            Operation::ProjectList => "project.list"@,
            Operation::ProjectPathAdd => "project.path.add"@,
            Operation::ProjectPathRemove => "project.path.remove"@,
            Operation::ProjectRemove => "project.remove"@,
            Operation::SecretSet => "secret.set"@,
            Operation::SecretDelete => "secret.delete"@,
            Operation::AgentsAdd => "agents.add"@,
            Operation::AgentsRevoke => "agents.revoke"@,
            Operation::AgentsList => "agents.list"@,
            Operation::GrantsGrant => "grants.grant"@,
            Operation::GrantsRevoke => "grants.revoke"@,
            Operation::GrantsList => "grants.list"@,
            Operation::AuditShow => "audit.show"@,
            Operation::AuditVerify => "audit.verify"@,
            Operation::LeaseCreate => "lease.create"@,
            Operation::LeaseList => "lease.list"@,
            Operation::LeaseRevoke => "lease.revoke"@,
            Operation::Reveal => "reveal"@,
            Operation::ApprovalsStatus => "approvals.status"@,
            Operation::ApprovalsPending => "approvals.pending"@,
            Operation::ApprovalsApprove => "approvals.approve"@,
            Operation::ApprovalsDeny => "approvals.deny"@,
            Operation::RunSignal => "run_signal"@,
            Operation::SessionOpen => "session.open"@,
            Operation::SessionTouch => "session.touch"@,
            Operation::SessionClose => "session.close"@,
            Operation::RunsList => "runs.list"@,
            Operation::VaultHealth => "vault.health"@,
        }
    }

    /// Whether only the owner may call the operation.
    pub open spec fn is_human_only(self) -> bool {
        match self {
            Operation::InjectFile => false,
            Operation::VaultStatus => false,
            Operation::VaultLock => false,
            Operation::SecretsList => false,
            Operation::LeaseCreate => false,
            Operation::LeaseList => false,
            Operation::LeaseRevoke => false,
            Operation::Reveal => false,
            Operation::ApprovalsStatus => false,
            Operation::RunSignal => false,
            _ => true,
        }
    }

    /// Whether `params.lease_id` names what the operation acts on, and is not
    /// presented as a credential.
    pub open spec fn targets_a_lease(self) -> bool {
        self == Operation::LeaseRevoke
    }

    /// Whether the operation moves the session window itself.
    pub open spec fn manages_session(self) -> bool {
        self == Operation::SessionTouch || self == Operation::SessionOpen || self
            == Operation::SessionClose
    }

    /// The operation with the given name on the wire.
    pub fn parse(s: &str) -> (r: Option<Operation>)
        ensures
            r == operation_named(s@),
    {
        if same(s, "inject_file") {
            Some(Operation::InjectFile)
        } else if same(s, "vault.status") {
            Some(Operation::VaultStatus)
        } else if same(s, "vault.lock") {
            Some(Operation::VaultLock)
        } else if same(s, "secrets.list") {
            Some(Operation::SecretsList)
        } else if same(s, "vault.unlock") {
            Some(Operation::VaultUnlock)
        } else if same(s, "vault.create") {
            Some(Operation::VaultCreate)
        } else if same(s, "project.add") {
            Some(Operation::ProjectAdd)
        } else if same(s, "project.list") {
            Some(Operation::ProjectList)
        } else if same(s, "project.path.add") {
            Some(Operation::ProjectPathAdd)
        } else if same(s, "project.path.remove") {
            Some(Operation::ProjectPathRemove)
        } else if same(s, "project.remove") {
            Some(Operation::ProjectRemove)
        } else if same(s, "secret.set") {
            Some(Operation::SecretSet)
        } else if same(s, "secret.delete") {
            Some(Operation::SecretDelete)
        } else if same(s, "agents.add") {
            Some(Operation::AgentsAdd)
        } else if same(s, "agents.revoke") {
            Some(Operation::AgentsRevoke)
        } else if same(s, "agents.list") {
            Some(Operation::AgentsList)
        } else if same(s, "grants.grant") {
            Some(Operation::GrantsGrant)
        } else if same(s, "grants.revoke") {
            Some(Operation::GrantsRevoke)
        } else if same(s, "grants.list") {
            Some(Operation::GrantsList)
        } else if same(s, "audit.show") {
            Some(Operation::AuditShow)
        } else if same(s, "audit.verify") {
            Some(Operation::AuditVerify)
        } else if same(s, "lease.create") {
            Some(Operation::LeaseCreate)
        } else if same(s, "lease.list") {
            Some(Operation::LeaseList)
        } else if same(s, "lease.revoke") {
            Some(Operation::LeaseRevoke)
        } else if same(s, "reveal") {
            Some(Operation::Reveal)
        } else if same(s, "approvals.status") {
            Some(Operation::ApprovalsStatus)
        } else if same(s, "approvals.pending") {
            Some(Operation::ApprovalsPending)
        } else if same(s, "approvals.approve") {
            Some(Operation::ApprovalsApprove)
        } else if same(s, "approvals.deny") {
            Some(Operation::ApprovalsDeny)
        } else if same(s, "run_signal") {
            Some(Operation::RunSignal)
        } else if same(s, "session.open") {
            Some(Operation::SessionOpen)
        } else if same(s, "session.touch") {
            Some(Operation::SessionTouch)
        } else if same(s, "session.close") {
            Some(Operation::SessionClose)
        } else if same(s, "runs.list") {
            Some(Operation::RunsList)
        } else if same(s, "vault.health") {
            Some(Operation::VaultHealth)
        } else {
            None
        }
    }

    /// The name on the wire.
    pub fn name(self) -> (r: &'static str)
        ensures
            r@ == self.wire_name(),
    {
        match self {
            Operation::InjectFile => "inject_file",
            Operation::VaultStatus => "vault.status",
            Operation::VaultLock => "vault.lock",
            Operation::SecretsList => "secrets.list",
            Operation::VaultUnlock => "vault.unlock",
            Operation::VaultCreate => "vault.create",
            Operation::ProjectAdd => "project.add",
            Operation::ProjectList => "project.list",
            Operation::ProjectPathAdd => "project.path.add",
            Operation::ProjectPathRemove => "project.path.remove",
            Operation::ProjectRemove => "project.remove",
            Operation::SecretSet => "secret.set",
            Operation::SecretDelete => "secret.delete",
            Operation::AgentsAdd => "agents.add",
            Operation::AgentsRevoke => "agents.revoke",
            Operation::AgentsList => "agents.list",
            Operation::GrantsGrant => "grants.grant",
            Operation::GrantsRevoke => "grants.revoke",
            Operation::GrantsList => "grants.list",
            Operation::AuditShow => "audit.show",
            Operation::AuditVerify => "audit.verify",
            Operation::LeaseCreate => "lease.create",
            Operation::LeaseList => "lease.list",
            Operation::LeaseRevoke => "lease.revoke",
            Operation::Reveal => "reveal",
            Operation::ApprovalsStatus => "approvals.status",
            Operation::ApprovalsPending => "approvals.pending",
            Operation::ApprovalsApprove => "approvals.approve",
            Operation::ApprovalsDeny => "approvals.deny",
            Operation::RunSignal => "run_signal",
            Operation::SessionOpen => "session.open",
            Operation::SessionTouch => "session.touch",
            Operation::SessionClose => "session.close",
            Operation::RunsList => "runs.list",
            Operation::VaultHealth => "vault.health",
        }
    }

    /// Whether only the owner may call the operation.
    pub fn human_only(self) -> (r: bool)
        ensures
            r == self.is_human_only(),
    {
        match self {
            Operation::InjectFile => false,
            Operation::VaultStatus => false,
            Operation::VaultLock => false,
            Operation::SecretsList => false,
            Operation::LeaseCreate => false,
            Operation::LeaseList => false,
            Operation::LeaseRevoke => false,
            Operation::Reveal => false,
            Operation::ApprovalsStatus => false,
            Operation::RunSignal => false,
            _ => true,
        }
    }
}

/// Every operation is found under its own name, and a name that is found is
/// the name of the operation: no two operations share a name.
pub proof fn law_names_identify_operations(s: Seq<char>, op: Operation)
    ensures
        operation_named(op.wire_name()) == Some(op),
        operation_named(s) == Some(op) <==> s == op.wire_name(),
{
    reveal_strlit("inject_file");
    reveal_strlit("vault.status");
    reveal_strlit("vault.lock");
    reveal_strlit("secrets.list");
    reveal_strlit("vault.unlock");
    reveal_strlit("vault.create");
    reveal_strlit("project.add");
    reveal_strlit("project.list");
    reveal_strlit("project.path.add");
    reveal_strlit("project.path.remove");
    reveal_strlit("project.remove");
    reveal_strlit("secret.set");
    reveal_strlit("secret.delete");
    reveal_strlit("agents.add");
    reveal_strlit("agents.revoke");
    reveal_strlit("agents.list");
    reveal_strlit("grants.grant");
    reveal_strlit("grants.revoke");
    reveal_strlit("grants.list");
    reveal_strlit("audit.show");
    reveal_strlit("audit.verify");
    reveal_strlit("lease.create");
    reveal_strlit("lease.list");
    reveal_strlit("lease.revoke");
    reveal_strlit("reveal");
    reveal_strlit("approvals.status");
    reveal_strlit("approvals.pending");
    reveal_strlit("approvals.approve");
    reveal_strlit("approvals.deny");
    reveal_strlit("run_signal");
    reveal_strlit("session.open");
    reveal_strlit("session.touch");
    reveal_strlit("session.close");
    reveal_strlit("runs.list");
    reveal_strlit("vault.health");
    assert("inject_file"@.len() == 11 && "inject_file"@[0] == 'i');
    assert("vault.status"@.len() == 12 && "vault.status"@[0] == 'v' && "vault.status"@[6] == 's');
    assert("vault.lock"@.len() == 10 && "vault.lock"@[0] == 'v');
    assert("secrets.list"@.len() == 12 && "secrets.list"@[0] == 's' && "secrets.list"@[2] == 'c');
    assert("vault.unlock"@.len() == 12 && "vault.unlock"@[0] == 'v' && "vault.unlock"@[6] == 'u');
    assert("vault.create"@.len() == 12 && "vault.create"@[0] == 'v' && "vault.create"@[6] == 'c');
    assert("project.add"@.len() == 11 && "project.add"@[0] == 'p');
    assert("project.list"@.len() == 12 && "project.list"@[0] == 'p');
    assert("project.path.add"@.len() == 16 && "project.path.add"@[0] == 'p');
    assert("project.path.remove"@.len() == 19);
    assert("project.remove"@.len() == 14 && "project.remove"@[0] == 'p');
    assert("secret.set"@.len() == 10 && "secret.set"@[0] == 's');
    assert(
        "secret.delete"@.len() == 13
            && "secret.delete"@[0] == 's'
            && "secret.delete"@[2] == 'c'
    );
    assert("agents.add"@.len() == 10 && "agents.add"@[0] == 'a' && "agents.add"@[1] == 'g');
    assert("agents.revoke"@.len() == 13 && "agents.revoke"@[0] == 'a');
    assert("agents.list"@.len() == 11 && "agents.list"@[0] == 'a');
    assert("grants.grant"@.len() == 12 && "grants.grant"@[0] == 'g');
    assert("grants.revoke"@.len() == 13 && "grants.revoke"@[0] == 'g');
    assert("grants.list"@.len() == 11 && "grants.list"@[0] == 'g');
    assert("audit.show"@.len() == 10 && "audit.show"@[0] == 'a' && "audit.show"@[1] == 'u');
    assert("audit.verify"@.len() == 12 && "audit.verify"@[0] == 'a');
    assert("lease.create"@.len() == 12 && "lease.create"@[0] == 'l' && "lease.create"@[6] == 'c');
    assert("lease.list"@.len() == 10 && "lease.list"@[0] == 'l');
    assert("lease.revoke"@.len() == 12 && "lease.revoke"@[0] == 'l' && "lease.revoke"@[6] == 'r');
    assert("reveal"@.len() == 6);
    assert("approvals.status"@.len() == 16 && "approvals.status"@[0] == 'a');
    assert("approvals.pending"@.len() == 17 && "approvals.pending"@[10] == 'p');
    assert("approvals.approve"@.len() == 17 && "approvals.approve"@[10] == 'a');
    assert("approvals.deny"@.len() == 14 && "approvals.deny"@[0] == 'a');
    assert("run_signal"@.len() == 10 && "run_signal"@[0] == 'r');
    assert("session.open"@.len() == 12 && "session.open"@[0] == 's' && "session.open"@[2] == 's');
    assert(
        "session.touch"@.len() == 13
            && "session.touch"@[0] == 's'
            && "session.touch"@[2] == 's'
            && "session.touch"@[8] == 't'
    );
    assert(
        "session.close"@.len() == 13
            && "session.close"@[0] == 's'
            && "session.close"@[2] == 's'
            && "session.close"@[8] == 'c'
    );
    assert("runs.list"@.len() == 9);
    assert("vault.health"@.len() == 12 && "vault.health"@[0] == 'v' && "vault.health"@[6] == 'h');
    assert(operation_named(op.wire_name()) == Some(op));
}

} // verus!
