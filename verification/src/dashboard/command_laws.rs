//! What the dashboard's commands are for: what they ask the broker, with which
//! credential, and what is shown of the answers.

use vstd::prelude::*;

use crate::broker::dispatch::{self, CallV, ContextV, SessionGrant};
use crate::broker::ops::Operation;
use crate::broker::request_laws::{self, asks};
use crate::broker::rows::{self as broker_rows, AgentRow, ProjectRow};
use crate::crypto;
use crate::dashboard::overview::{self, Act, ActV, MakingV, Stage};
use crate::dashboard::rows::{
    self, AgentAddIn, ApprovalDecisionIn, GrantRevokeIn, GrantSetIn, LeaseRevokeIn, NameIn,
    ProjectAddIn, ProjectPathIn, RevealIn, SecretDeleteIn, SecretSetIn, SecretsListIn,
};
use crate::dashboard::{self, Access, CmdErrorV, Command, StatusV, UnlockV};
use crate::error::Fault;
use crate::json::{self, JsonV};
use crate::text;
use crate::wire::{AuthV, RequestV};

verus! {

/// What a command is called, and the name on the wire of what it asks for.
pub open spec fn named(c: Command) -> (Seq<char>, Option<Seq<char>>) {
    match c {
        Command::GetStatus => ("get_status"@, Some("vault.status"@)),
        Command::PinStatus => ("pin_status"@, None),
        Command::ProbeFingerprint => ("probe_fingerprint"@, None),
        Command::Unlock => ("unlock"@, Some("vault.unlock"@)),
        Command::Lock => ("lock"@, Some("vault.lock"@)),
        Command::Health => ("health"@, Some("vault.health"@)),
        Command::OverviewRefresh => ("overview_refresh"@, None),
        Command::ProjectsList => ("projects_list"@, Some("project.list"@)),
        Command::ProjectAdd => ("project_add"@, Some("project.add"@)),
        Command::ProjectRemove => ("project_remove"@, Some("project.remove"@)),
        Command::ProjectPathAdd => ("project_path_add"@, Some("project.path.add"@)),
        Command::ProjectPathRemove => ("project_path_remove"@, Some("project.path.remove"@)),
        Command::SecretsList => ("secrets_list"@, Some("secrets.list"@)),
        Command::SecretSet => ("secret_set"@, Some("secret.set"@)),
        Command::SecretDelete => ("secret_delete"@, Some("secret.delete"@)),
        Command::AgentsList => ("agents_list"@, Some("agents.list"@)),
        Command::AgentAdd => ("agent_add"@, Some("agents.add"@)),
        Command::AgentRevoke => ("agent_revoke"@, Some("agents.revoke"@)),
        Command::GrantsList => ("grants_list"@, Some("grants.list"@)),
        Command::GrantSet => ("grant_set"@, Some("grants.grant"@)),
        Command::GrantRevoke => ("grant_revoke"@, Some("grants.revoke"@)),
        Command::ApprovalsPending => ("approvals_pending"@, Some("approvals.pending"@)),
        Command::ApprovalApprove => ("approval_approve"@, Some("approvals.approve"@)),
        Command::ApprovalDeny => ("approval_deny"@, Some("approvals.deny"@)),
        Command::Reveal => ("reveal"@, Some("reveal"@)),
        Command::LeasesList => ("leases_list"@, Some("lease.list"@)),
        Command::LeaseRevoke => ("lease_revoke"@, Some("lease.revoke"@)),
        Command::RunsList => ("runs_list"@, Some("runs.list"@)),
        Command::AuditShow => ("audit_show"@, Some("audit.show"@)),
        Command::AuditVerify => ("audit_verify"@, Some("audit.verify"@)),
    }
}

/// Every command is called by its own name and asks the broker for its own operation.
pub proof fn law_commands_ask_for_what_they_are_called(c: Command)
    ensures
        c.command_name() == named(c).0,
        c.asks() is Some <==> named(c).1 is Some,
        c.asks() matches Some(op) ==> op.wire_name() == named(c).1->0,
{
}

/// The names of the commands are told apart by their length and a letter.
proof fn lemma_command_names_differ()
    ensures
        "get_status"@.len() == 10 && "get_status"@[0] == 'g',
        "pin_status"@.len() == 10 && "pin_status"@[0] == 'p',
        "probe_fingerprint"@.len() == 17 && "probe_fingerprint"@[0] == 'p',
        "unlock"@.len() == 6 && "unlock"@[0] == 'u',
        "lock"@.len() == 4,
        "health"@.len() == 6 && "health"@[0] == 'h',
        "overview_refresh"@.len() == 16 && "overview_refresh"@[0] == 'o',
        "projects_list"@.len() == 13 && "projects_list"@[0] == 'p',
        "project_add"@.len() == 11 && "project_add"@[0] == 'p',
        "project_remove"@.len() == 14,
        "project_path_add"@.len() == 16 && "project_path_add"@[0] == 'p',
        "project_path_remove"@.len() == 19,
        "secrets_list"@.len() == 12 && "secrets_list"@[0] == 's' && "secrets_list"@[1] == 'e',
        "secret_set"@.len() == 10 && "secret_set"@[0] == 's',
        "secret_delete"@.len() == 13 && "secret_delete"@[0] == 's',
        "agents_list"@.len() == 11 && "agents_list"@[0] == 'a',
        "agent_add"@.len() == 9 && "agent_add"@[0] == 'a',
        "agent_revoke"@.len() == 12 && "agent_revoke"@[0] == 'a' && "agent_revoke"@[1] == 'g',
        "grants_list"@.len() == 11 && "grants_list"@[0] == 'g',
        "grant_set"@.len() == 9 && "grant_set"@[0] == 'g',
        "grant_revoke"@.len() == 12 && "grant_revoke"@[0] == 'g' && "grant_revoke"@[1] == 'r',
        "approvals_pending"@.len() == 17 && "approvals_pending"@[0] == 'a',
        "approval_approve"@.len() == 16 && "approval_approve"@[0] == 'a',
        "approval_deny"@.len() == 13 && "approval_deny"@[0] == 'a',
        "reveal"@.len() == 6 && "reveal"@[0] == 'r',
        "leases_list"@.len() == 11 && "leases_list"@[0] == 'l',
        "lease_revoke"@.len() == 12 && "lease_revoke"@[0] == 'l' && "lease_revoke"@[1] == 'e',
        "runs_list"@.len() == 9 && "runs_list"@[0] == 'r',
        "audit_show"@.len() == 10 && "audit_show"@[0] == 'a',
        "audit_verify"@.len() == 12 && "audit_verify"@[0] == 'a' && "audit_verify"@[1] == 'u',
{
    reveal_strlit("get_status");
    assert("get_status"@.len() == 10 && "get_status"@[0] == 'g');
    reveal_strlit("pin_status");
    assert("pin_status"@.len() == 10 && "pin_status"@[0] == 'p');
    reveal_strlit("probe_fingerprint");
    assert("probe_fingerprint"@.len() == 17 && "probe_fingerprint"@[0] == 'p');
    reveal_strlit("unlock");
    assert("unlock"@.len() == 6 && "unlock"@[0] == 'u');
    reveal_strlit("lock");
    assert("lock"@.len() == 4);
    reveal_strlit("health");
    assert("health"@.len() == 6 && "health"@[0] == 'h');
    reveal_strlit("overview_refresh");
    assert("overview_refresh"@.len() == 16 && "overview_refresh"@[0] == 'o');
    reveal_strlit("projects_list");
    assert("projects_list"@.len() == 13 && "projects_list"@[0] == 'p');
    reveal_strlit("project_add");
    assert("project_add"@.len() == 11 && "project_add"@[0] == 'p');
    reveal_strlit("project_remove");
    assert("project_remove"@.len() == 14);
    reveal_strlit("project_path_add");
    assert("project_path_add"@.len() == 16 && "project_path_add"@[0] == 'p');
    reveal_strlit("project_path_remove");
    assert("project_path_remove"@.len() == 19);
    reveal_strlit("secrets_list");
    assert("secrets_list"@.len() == 12 && "secrets_list"@[0] == 's' && "secrets_list"@[1] == 'e');
    reveal_strlit("secret_set");
    assert("secret_set"@.len() == 10 && "secret_set"@[0] == 's');
    reveal_strlit("secret_delete");
    assert("secret_delete"@.len() == 13 && "secret_delete"@[0] == 's');
    reveal_strlit("agents_list");
    assert("agents_list"@.len() == 11 && "agents_list"@[0] == 'a');
    reveal_strlit("agent_add");
    assert("agent_add"@.len() == 9 && "agent_add"@[0] == 'a');
    reveal_strlit("agent_revoke");
    assert("agent_revoke"@.len() == 12 && "agent_revoke"@[0] == 'a' && "agent_revoke"@[1] == 'g');
    reveal_strlit("grants_list");
    assert("grants_list"@.len() == 11 && "grants_list"@[0] == 'g');
    reveal_strlit("grant_set");
    assert("grant_set"@.len() == 9 && "grant_set"@[0] == 'g');
    reveal_strlit("grant_revoke");
    assert("grant_revoke"@.len() == 12 && "grant_revoke"@[0] == 'g' && "grant_revoke"@[1] == 'r');
    reveal_strlit("approvals_pending");
    assert("approvals_pending"@.len() == 17 && "approvals_pending"@[0] == 'a');
    reveal_strlit("approval_approve");
    assert("approval_approve"@.len() == 16 && "approval_approve"@[0] == 'a');
    reveal_strlit("approval_deny");
    assert("approval_deny"@.len() == 13 && "approval_deny"@[0] == 'a');
    reveal_strlit("reveal");
    assert("reveal"@.len() == 6 && "reveal"@[0] == 'r');
    reveal_strlit("leases_list");
    assert("leases_list"@.len() == 11 && "leases_list"@[0] == 'l');
    reveal_strlit("lease_revoke");
    assert("lease_revoke"@.len() == 12 && "lease_revoke"@[0] == 'l' && "lease_revoke"@[1] == 'e');
    reveal_strlit("runs_list");
    assert("runs_list"@.len() == 9 && "runs_list"@[0] == 'r');
    reveal_strlit("audit_show");
    assert("audit_show"@.len() == 10 && "audit_show"@[0] == 'a');
    reveal_strlit("audit_verify");
    assert("audit_verify"@.len() == 12 && "audit_verify"@[0] == 'a' && "audit_verify"@[1] == 'u');
}

/// Two commands of one name are one command, and so are two that ask for one operation.
pub proof fn law_no_two_commands_share_a_name(a: Command, b: Command)
    ensures
        a.command_name() == b.command_name() ==> a == b,
        a.asks() is Some && a.asks() == b.asks() ==> a == b,
{
    lemma_command_names_differ();
}

/// The status is public, the passphrase is for the unlocking alone, the lock and the health
/// go with a session where there is one, what asks nothing takes none, and the rest goes
/// with the session.
pub proof fn law_credentials_fit_their_commands(c: Command)
    ensures
        c.access_of() == Access::Public <==> c == Command::GetStatus,
        c.access_of() == Access::Passphrase <==> c == Command::Unlock,
        c.access_of() == Access::SessionIfHeld <==> (c == Command::Lock || c == Command::Health),
        c.access_of() == Access::Local <==> c.asks() is None,
        c.access_of() == Access::Session <==> !(c == Command::GetStatus || c == Command::Unlock || c
            == Command::Lock || c == Command::Health || c == Command::PinStatus || c
            == Command::ProbeFingerprint || c == Command::OverviewRefresh),
{
}

/// The names of members are told apart by their length and a letter.
proof fn lemma_names_differ()
    ensures
        "name"@.len() == 4 && "name"@[0] == 'n',
        "paths"@.len() == 5 && "paths"@[0] == 'p',
        "path"@.len() == 4 && "path"@[0] == 'p',
        "project"@.len() == 7 && "project"@[0] == 'p',
        "key"@.len() == 3 && "key"@[0] == 'k',
        "value"@.len() == 5 && "value"@[0] == 'v',
        "agent"@.len() == 5 && "agent"@[0] == 'a',
        "ops"@.len() == 3 && "ops"@[0] == 'o',
        "approval_id"@.len() == 11,
        "lease_id"@.len() == 8 && "lease_id"@[0] == 'l',
        "tail"@.len() == 4 && "tail"@[0] == 't',
        "before_seq"@.len() == 10 && "before_seq"@[0] == 'b' && "before_seq"@[8] == 'e',
        "lease"@.len() == 5 && "lease"@[0] == 'l',
        "version"@.len() == 7 && "version"@[0] == 'v',
        "created"@.len() == 7 && "created"@[0] == 'c',
        "locked"@.len() == 6 && "locked"@[0] == 'l',
        "session_credential"@.len() == 18,
        "session_prefix"@.len() == 14 && "session_prefix"@[0] == 's' && "session_prefix"@[12] == 'i',
        "expires_at"@.len() == 10 && "expires_at"@[0] == 'e' && "expires_at"@[8] == 'a',
        "expires_in"@.len() == 10 && "expires_in"@[0] == 'e' && "expires_in"@[8] == 'i',
        "max_expires_at"@.len() == 14 && "max_expires_at"@[0] == 'm' && "max_expires_at"@[12] == 'a',
        "max_expires_in"@.len() == 14 && "max_expires_in"@[0] == 'm' && "max_expires_in"@[12] == 'i',
        "unlocked"@.len() == 8 && "unlocked"@[0] == 'u',
        "projects"@.len() == 8 && "projects"@[0] == 'p',
        "agents"@.len() == 6 && "agents"@[0] == 'a',
        "secrets"@.len() == 7 && "secrets"@[0] == 's',
        "status"@.len() == 6 && "status"@[0] == 's',
        "token_prefix"@.len() == 12,
{
    reveal_strlit("name");
    assert("name"@.len() == 4 && "name"@[0] == 'n');
    reveal_strlit("paths");
    assert("paths"@.len() == 5 && "paths"@[0] == 'p');
    reveal_strlit("path");
    assert("path"@.len() == 4 && "path"@[0] == 'p');
    reveal_strlit("project");
    assert("project"@.len() == 7 && "project"@[0] == 'p');
    reveal_strlit("key");
    assert("key"@.len() == 3 && "key"@[0] == 'k');
    reveal_strlit("value");
    assert("value"@.len() == 5 && "value"@[0] == 'v');
    reveal_strlit("agent");
    assert("agent"@.len() == 5 && "agent"@[0] == 'a');
    reveal_strlit("ops");
    assert("ops"@.len() == 3 && "ops"@[0] == 'o');
    reveal_strlit("approval_id");
    assert("approval_id"@.len() == 11);
    reveal_strlit("lease_id");
    assert("lease_id"@.len() == 8 && "lease_id"@[0] == 'l');
    reveal_strlit("tail");
    assert("tail"@.len() == 4 && "tail"@[0] == 't');
    reveal_strlit("before_seq");
    assert("before_seq"@.len() == 10 && "before_seq"@[0] == 'b' && "before_seq"@[8] == 'e');
    reveal_strlit("lease");
    assert("lease"@.len() == 5 && "lease"@[0] == 'l');
    reveal_strlit("version");
    assert("version"@.len() == 7 && "version"@[0] == 'v');
    reveal_strlit("created");
    assert("created"@.len() == 7 && "created"@[0] == 'c');
    reveal_strlit("locked");
    assert("locked"@.len() == 6 && "locked"@[0] == 'l');
    reveal_strlit("session_credential");
    assert("session_credential"@.len() == 18);
    reveal_strlit("session_prefix");
    assert("session_prefix"@.len() == 14 && "session_prefix"@[0] == 's' && "session_prefix"@[12] == 'i');
    reveal_strlit("expires_at");
    assert("expires_at"@.len() == 10 && "expires_at"@[0] == 'e' && "expires_at"@[8] == 'a');
    reveal_strlit("expires_in");
    assert("expires_in"@.len() == 10 && "expires_in"@[0] == 'e' && "expires_in"@[8] == 'i');
    reveal_strlit("max_expires_at");
    assert("max_expires_at"@.len() == 14 && "max_expires_at"@[0] == 'm' && "max_expires_at"@[12] == 'a');
    reveal_strlit("max_expires_in");
    assert("max_expires_in"@.len() == 14 && "max_expires_in"@[0] == 'm' && "max_expires_in"@[12] == 'i');
    reveal_strlit("unlocked");
    assert("unlocked"@.len() == 8 && "unlocked"@[0] == 'u');
    reveal_strlit("projects");
    assert("projects"@.len() == 8 && "projects"@[0] == 'p');
    reveal_strlit("agents");
    assert("agents"@.len() == 6 && "agents"@[0] == 'a');
    reveal_strlit("secrets");
    assert("secrets"@.len() == 7 && "secrets"@[0] == 's');
    reveal_strlit("status");
    assert("status"@.len() == 6 && "status"@[0] == 's');
    reveal_strlit("token_prefix");
    assert("token_prefix"@.len() == 12);
}

/// The request of a command of the dashboard.
pub open spec fn posed(v: u64, id: Seq<char>, auth: AuthV, c: Command, params: JsonV) -> RequestV {
    RequestV { v, id, op: (c.asks()->0).wire_name(), auth, params }
}

/// What the owner enters of a project, a folder or a secret is what the broker is asked for.
pub proof fn law_projects_and_secrets_are_changed_as_asked(
    v: u64,
    id: Seq<char>,
    auth: AuthV,
    ctx: ContextV,
    project: ProjectAddIn,
    name: NameIn,
    folder: ProjectPathIn,
    listed: SecretsListIn,
    set: SecretSetIn,
    unset: SecretDeleteIn,
    reveal: RevealIn,
)
    requires
        ctx.identity is Human,
    ensures
        asks(
            dispatch::first_step(posed(v, id, auth, Command::ProjectAdd, project.asked()), ctx),
            CallV::ProjectAdd {
                actor: ctx.actor,
                name: project.name@,
                paths: text::texts(project.paths@),
            },
        ),
        asks(
            dispatch::first_step(posed(v, id, auth, Command::ProjectRemove, name.asked()), ctx),
            CallV::ProjectRemove { actor: ctx.actor, name: name.name@ },
        ),
        asks(
            dispatch::first_step(posed(v, id, auth, Command::ProjectPathAdd, folder.asked()), ctx),
            CallV::ProjectPathAdd {
                actor: ctx.actor,
                name: folder.name@,
                path: folder.path@,
            },
        ),
        asks(
            dispatch::first_step(posed(v, id, auth, Command::ProjectPathRemove, folder.asked()), ctx),
            CallV::ProjectPathRemove {
                actor: ctx.actor,
                name: folder.name@,
                path: folder.path@,
            },
        ),
        asks(
            dispatch::first_step(posed(v, id, auth, Command::SecretsList, listed.asked()), ctx),
            CallV::SecretList { project: listed.project@, actor: ctx.actor },
        ),
        asks(
            dispatch::first_step(posed(v, id, auth, Command::SecretSet, set.asked()), ctx),
            CallV::SecretSet {
                actor: ctx.actor,
                project: set.project@,
                key: set.key@,
                value: set.value@,
            },
        ),
        asks(
            dispatch::first_step(posed(v, id, auth, Command::SecretDelete, unset.asked()), ctx),
            CallV::SecretDelete {
                actor: ctx.actor,
                project: unset.project@,
                key: unset.key@,
            },
        ),
        asks(
            dispatch::first_step(posed(v, id, auth, Command::Reveal, reveal.asked()), ctx),
            CallV::RevealHuman {
                actor: ctx.actor,
                project: reveal.project@,
                key: reveal.key@,
            },
        ),
{
    broadcast use json::lemma_with_get;

    lemma_names_differ();
    request_laws::law_operations_go_by_their_names();
    assert(forall|key: Seq<char>| json::empty_object().get(key) is None);
    request_laws::law_a_project_gets_its_folders(
        posed(v, id, auth, Command::ProjectAdd, project.asked()),
        ctx,
        project.name@,
        text::texts(project.paths@),
    );
}

/// What the owner enters of an agent, a grant, a lease or an approval is what the broker is
/// asked for.
pub proof fn law_agents_and_grants_are_changed_as_asked(
    v: u64,
    id: Seq<char>,
    auth: AuthV,
    ctx: ContextV,
    agent: AgentAddIn,
    name: NameIn,
    grant: GrantSetIn,
    revoked: GrantRevokeIn,
    lease: LeaseRevokeIn,
    decision: ApprovalDecisionIn,
)
    requires
        ctx.identity is Human,
    ensures
        asks(
            dispatch::first_step(posed(v, id, auth, Command::AgentAdd, agent.asked()), ctx),
            CallV::AgentAdd { actor: ctx.actor, name: agent.name@ },
        ),
        asks(
            dispatch::first_step(posed(v, id, auth, Command::AgentRevoke, name.asked()), ctx),
            CallV::AgentRevoke { actor: ctx.actor, name: name.name@ },
        ),
        asks(
            dispatch::first_step(posed(v, id, auth, Command::GrantSet, grant.asked()), ctx),
            CallV::ParseOps { ops: grant.ops@ },
        ),
        asks(
            dispatch::first_step(posed(v, id, auth, Command::GrantRevoke, revoked.asked()), ctx),
            CallV::GrantRevoke {
                actor: ctx.actor,
                agent: revoked.agent@,
                project: revoked.project@,
            },
        ),
        asks(
            dispatch::first_step(posed(v, id, auth, Command::LeaseRevoke, lease.asked()), ctx),
            CallV::LeaseRevoke {
                actor: ctx.actor,
                owner: None,
                lease_id: lease.lease_id@,
            },
        ),
        asks(
            dispatch::first_step(posed(v, id, auth, Command::ApprovalApprove, decision.asked()), ctx),
            CallV::ApprovalDecide {
                actor: ctx.actor,
                approval_id: decision.approval_id@,
                approved: true,
            },
        ),
        asks(
            dispatch::first_step(posed(v, id, auth, Command::ApprovalDeny, decision.asked()), ctx),
            CallV::ApprovalDecide {
                actor: ctx.actor,
                approval_id: decision.approval_id@,
                approved: false,
            },
        ),
        ({
            let req = posed(v, id, auth, Command::GrantSet, grant.asked());
            &&& req.params.at("agent"@) == JsonV::Str(grant.agent@)
            &&& req.params.at("project"@) == JsonV::Str(grant.project@)
        }),
{
    broadcast use json::lemma_with_get;

    lemma_names_differ();
    request_laws::law_operations_go_by_their_names();
    assert(forall|key: Seq<char>| json::empty_object().get(key) is None);
}

/// A page of the log is asked for with the size and the place that were entered; a page of no
/// or too many entries is not asked for.
pub proof fn law_a_page_is_asked_for_as_entered(
    v: u64,
    id: Seq<char>,
    auth: AuthV,
    ctx: ContextV,
    tail: u64,
    before_seq: Option<u64>,
)
    ensures
        1 <= tail <= 1000 ==> rows::page_params(tail, before_seq) is Ok && asks(
            dispatch::first_step(
                posed(
                    v,
                    id,
                    auth,
                    Command::AuditShow,
                    rows::page_params(tail, before_seq)->Ok_0,
                ),
                ctx,
            ),
            CallV::AuditPage { actor: ctx.actor, tail, before_seq },
        ),
        !(1 <= tail <= 1000) ==> rows::page_params(tail, before_seq) == Err::<JsonV, CmdErrorV>(
            CmdErrorV { code: "E_INVALID_INPUT"@, message: "invalid input"@ },
        ),
{
    broadcast use json::lemma_with_get;

    lemma_names_differ();
    request_laws::law_operations_go_by_their_names();
    assert(forall|key: Seq<char>| json::empty_object().get(key) is None);
    crate::dashboard::laws::law_every_code_has_its_own_text(Fault::InvalidInput(Seq::empty()), Fault::Auth);
}

/// What is shown of an unlocked vault is the session that the broker opened, without its
/// credential; where it opened none, nothing is made up.
pub proof fn law_an_unlocked_vault_is_shown_with_its_session(s: SessionGrant)
    ensures
        ({
            let told = dispatch::with_session(dispatch::one_flag("unlocked"@), s);
            dashboard::unlocked(told) == (UnlockV {
                unlocked: true,
                session_prefix: Some(s.prefix@),
                expires_at: Some(s.window.expires_at@),
                expires_in: Some(s.window.expires_in),
                max_expires_at: Some(s.window.max_expires_at@),
                max_expires_in: Some(s.window.max_expires_in),
            })
        }),
        dashboard::unlocked(dispatch::one_flag("unlocked"@)) == (UnlockV {
            unlocked: true,
            session_prefix: None,
            expires_at: None,
            expires_in: None,
            max_expires_at: None,
            max_expires_in: None,
        }),
{
    broadcast use json::lemma_with_get;

    lemma_names_differ();
    assert(forall|key: Seq<char>| json::empty_object().get(key) is None);
}

/// The public status that the broker tells.
pub open spec fn told_status(version: u64, created: Seq<char>, locked: bool) -> JsonV {
    json::empty_object().with("version"@, JsonV::UInt(version)).with(
        "created"@,
        JsonV::Str(created),
    ).with("locked"@, JsonV::Bool(locked))
}

/// The status is shown as the broker told it, and as trusted with the fingerprint of the pin;
/// each failure is shown as what it says of the broker.
pub proof fn law_the_status_is_shown_as_told(
    version: u64,
    created: Seq<char>,
    locked: bool,
    key: Seq<u8>,
    e: CmdErrorV,
)
    requires
        version <= u32::MAX,
    ensures
        dashboard::status_of(Ok(told_status(version, created, locked)), Ok(Some(key))) == (StatusV {
            version: version as u32,
            created,
            locked,
            online: true,
            trusted: true,
            initialized: true,
            fingerprint: Some(crypto::hex_text(key)),
        }),
        dashboard::status_of(Ok(told_status(version, created, locked)), Ok(None)) == (StatusV {
            version: version as u32,
            created,
            locked,
            online: true,
            trusted: false,
            initialized: true,
            fingerprint: None,
        }),
        ({
            let s = dashboard::status_of(Err(e), Ok(Some(key)));
            let busy = e.code == "E_AUDIT_FULL"@ || e.code == "E_AUDIT_WRITE"@ || e.code
                == "E_BUSY"@;
            &&& s.version == 0 && s.created.len() == 0 && s.locked
            &&& s.online <==> (busy || e.code == "E_NOT_FOUND"@ || e.code == "E_BROKER_UNTRUSTED"@)
            &&& s.trusted <==> (busy || e.code == "E_NOT_FOUND"@)
            &&& s.initialized <==> (busy || e.code == "E_BROKER_UNTRUSTED"@)
            &&& s.fingerprint == (if s.online {
                Some(crypto::hex_text(key))
            } else {
                None
            })
        }),
{
    broadcast use json::lemma_with_get;

    lemma_names_differ();
    lemma_codes_differ();
    assert(forall|key: Seq<char>| json::empty_object().get(key) is None);
    dashboard::laws::law_every_code_has_its_own_text(Fault::Busy, Fault::NotFound);
}

/// The codes are told apart by their length and a letter.
proof fn lemma_codes_differ()
    ensures
        "E_BROKER_UNTRUSTED"@.len() == 18,
        "E_AUDIT_FULL"@.len() == 12,
        "E_AUDIT_WRITE"@.len() == 13,
        "E_BUSY"@.len() == 6,
        "E_NOT_FOUND"@.len() == 11,
        "E_SESSION_EXPIRED"@.len() == 17,
{
    reveal_strlit("E_BROKER_UNTRUSTED");
    assert("E_BROKER_UNTRUSTED"@.len() == 18);
    reveal_strlit("E_AUDIT_FULL");
    assert("E_AUDIT_FULL"@.len() == 12);
    reveal_strlit("E_AUDIT_WRITE");
    assert("E_AUDIT_WRITE"@.len() == 13);
    reveal_strlit("E_BUSY");
    assert("E_BUSY"@.len() == 6);
    reveal_strlit("E_NOT_FOUND");
    assert("E_NOT_FOUND"@.len() == 11);
    reveal_strlit("E_SESSION_EXPIRED");
    assert("E_SESSION_EXPIRED"@.len() == 17);
}

/// The overview at the start of what follows a trusted, unlocked status.
pub open spec fn opening(status: StatusV) -> (MakingV, ActV) {
    overview::begun(status, true)
}

/// Whether the overview asks for an operation without parameters.
pub open spec fn poses(a: ActV, op: Operation) -> bool {
    a == (ActV::Call { op, params: json::empty_object() })
}

/// On a trusted and unlocked broker the overview asks for the health, the projects and the
/// agents, and shows of each what the broker told.
pub proof fn law_the_overview_counts_what_it_was_told(
    status: StatusV,
    health: JsonV,
    projects: Seq<ProjectRow>,
    agents: Seq<AgentRow>,
)
    requires
        status.online && status.trusted && !status.locked,
        agents.len() <= u64::MAX,
    ensures
        ({
            let (a, first) = opening(status);
            let (b, second) = overview::stepped(a, Ok(health));
            let (c, third) = overview::stepped(
                b,
                Ok(
                    json::empty_object().with(
                        "projects"@,
                        broker_rows::project_values(projects),
                    ),
                ),
            );
            let d = overview::stepped(
                c,
                Ok(json::empty_object().with("agents"@, broker_rows::agent_values(agents))),
            ).0;
            &&& poses(first, Operation::VaultHealth)
            &&& poses(second, Operation::ProjectList)
            &&& poses(third, Operation::AgentsList)
            &&& d.status == status && d.session_held
            &&& d.health == Some(health)
            &&& d.names == Some(Seq::new(projects.len(), |i: int| projects[i].name@))
            &&& d.agents == Some(active_agents(agents) as u64)
        }),
{
    broadcast use json::lemma_with_get;

    lemma_names_differ();
    assert(forall|key: Seq<char>| json::empty_object().get(key) is None);
    lemma_project_names(projects);
    lemma_active_agents(agents);
}

/// How many agents are active.
pub open spec fn active_agents(agents: Seq<AgentRow>) -> nat {
    Seq::new(agents.len(), |i: int| agents[i].status@).filter(|s: Seq<char>| s == "active"@).len()
}

proof fn lemma_project_names(projects: Seq<ProjectRow>)
    ensures
        overview::names_of(broker_rows::project_values(projects)->Array_0) == Seq::new(
            projects.len(),
            |i: int| projects[i].name@,
        ),
    decreases projects.len(),
{
    broadcast use json::lemma_with_get;

    lemma_names_differ();
    assert(forall|key: Seq<char>| json::empty_object().get(key) is None);
    let items = broker_rows::project_values(projects)->Array_0;
    if projects.len() == 0 {
        assert(overview::names_of(items) =~= Seq::new(0, |i: int| projects[i].name@));
    } else {
        let rest = projects.drop_last();
        lemma_project_names(rest);
        assert(items.drop_last() =~= broker_rows::project_values(rest)->Array_0);
        assert(items.last().at("name"@) == JsonV::Str(projects.last().name@));
        assert(overview::names_of(items) =~= Seq::new(
            projects.len(),
            |i: int| projects[i].name@,
        ));
    }
}

proof fn lemma_active_agents(agents: Seq<AgentRow>)
    ensures
        overview::active_of(broker_rows::agent_values(agents)->Array_0) == active_agents(agents),
    decreases agents.len(),
{
    broadcast use json::lemma_with_get;

    lemma_names_differ();
    assert(forall|key: Seq<char>| json::empty_object().get(key) is None);
    reveal(Seq::filter);
    let items = broker_rows::agent_values(agents)->Array_0;
    let words = Seq::new(agents.len(), |i: int| agents[i].status@);
    if agents.len() > 0 {
        let rest = agents.drop_last();
        lemma_active_agents(rest);
        assert(items.drop_last() =~= broker_rows::agent_values(rest)->Array_0);
        assert(items.last().at("status"@) == JsonV::Str(agents.last().status@));
        assert(words.drop_last() =~= Seq::new(rest.len(), |i: int| rest[i].status@));
        assert(words.last() == agents.last().status@);
    }
}

/// The overview that is shown holds the status, the counts that were gathered and the numbers
/// of the health, each under its own name.
pub proof fn law_the_overview_shows_what_it_gathered(
    s: MakingV,
    total: Option<u64>,
    exact: bool,
    health: JsonV,
)
    requires
        s.health == Some(health),
    ensures
        ({
            let o = overview::shown(s, total, exact);
            &&& o.online == s.status.online
            &&& o.trusted == s.status.trusted
            &&& o.fingerprint == s.status.fingerprint
            &&& o.version == s.status.version
            &&& o.created == s.status.created
            &&& o.locked == s.status.locked
            &&& o.session_held == s.session_held
            &&& o.agents_active == s.agents
            &&& o.secrets_total == total
            &&& o.secrets_total_exact == exact
            &&& o.projects is Some <==> s.names is Some
            &&& s.names matches Some(n) ==> o.projects == Some(n.len() as u64)
            &&& o.runs_active == health.at("runs_active"@).uint()
            &&& o.approvals_pending == health.at("approvals_pending"@).uint()
            &&& o.leases_active == health.at("leases_active"@).uint()
            &&& o.idle_lock_secs == health.at("idle_lock_secs"@).uint()
            &&& o.idle_in == health.at("idle_in"@).uint()
            &&& o.audit_bytes == health.at("audit_bytes"@).uint()
            &&& o.audit_soft_limit == health.at("audit_soft_limit"@).uint()
            &&& o.audit_hard_limit == health.at("audit_hard_limit"@).uint()
            &&& o.vault_bytes == health.at("vault_bytes"@).uint()
            &&& o.vault_max_bytes == health.at("vault_max_bytes"@).uint()
        }),
{
}

/// The secrets of one project after the other are asked for and added up; after the last one,
/// or after as many as are asked for at most, the sum is shown, and called exact only where
/// it is the whole.
pub proof fn law_secrets_are_counted_project_by_project(
    s: MakingV,
    names: Seq<Seq<char>>,
    secrets: Seq<JsonV>,
)
    requires
        s.names == Some(names),
        s.stage == Stage::Secrets,
        s.total + secrets.len() <= u64::MAX,
        s.at < names.len(),
        s.at < 50,
    ensures
        ({
            let told = json::empty_object().with("secrets"@, JsonV::Array(secrets));
            let (next, act) = overview::stepped(s, Ok(told));
            let done = s.at + 1;
            &&& next.at == done
            &&& next.total == s.total + secrets.len()
            &&& if done < names.len() && done < 50 {
                &&& next.stage == Stage::Secrets
                &&& act == (ActV::Call {
                    op: Operation::SecretsList,
                    params: json::empty_object().with("project"@, JsonV::Str(names[done])),
                })
            } else {
                &&& act matches Act::Show(o)
                &&& o.secrets_total == Some(next.total)
                &&& o.secrets_total_exact == (names.len() <= 50)
            }
        }),
{
    broadcast use json::lemma_with_get;

    lemma_names_differ();
    assert(forall|key: Seq<char>| json::empty_object().get(key) is None);
}

/// A letter in lower case.
pub open spec fn lower(c: char) -> char {
    if 'A' <= c <= 'Z' {
        (c as int + 32) as char
    } else {
        c
    }
}

/// Only the window's own pages are gone to: those whose address starts with the scheme of
/// the shell, in whatever case it is written.
pub proof fn law_only_own_pages_are_gone_to(url: Seq<char>)
    ensures
        dashboard::is_tauri(url) <==> url.len() >= 6 && forall|i: int|
            0 <= i < 6 ==> lower(url[i]) == #[trigger] "tauri:"@[i],
{
    reveal_strlit("tauri:");
    let t = "tauri:"@;
    assert(t.len() == 6 && t[0] == 't' && t[1] == 'a' && t[2] == 'u' && t[3] == 'r' && t[4] == 'i'
        && t[5] == ':');
    if url.len() >= 6 && forall|i: int| 0 <= i < 6 ==> lower(url[i]) == #[trigger] t[i] {
        assert(lower(url[0]) == t[0]);
        assert(lower(url[1]) == t[1]);
        assert(lower(url[2]) == t[2]);
        assert(lower(url[3]) == t[3]);
        assert(lower(url[4]) == t[4]);
        assert(lower(url[5]) == t[5]);
    }
}

/// An error is shown with its code; a text that came from elsewhere is left out of its
/// message, and a message of the library's own is shown as it is.
pub proof fn law_errors_are_shown_without_foreign_text(e: Fault)
    ensures
        dashboard::scrubbed(e).code == e.code(),
        dashboard::scrubbed(e).message == (match e {
            Fault::Io { .. } => "filesystem error"@,
            Fault::Protocol(_) => "protocol error"@,
            Fault::Corrupt(_) => "vault file corrupted"@,
            Fault::AuditWrite(_) => "audit write failed"@,
            Fault::InvalidInput(_) => "invalid input"@,
            Fault::AuditFull(_) => "audit log is full"@,
            Fault::BrokerUntrusted(_) => "broker identity could not be verified"@,
            _ => e.message(),
        }),
        dashboard::malformed() == (CmdErrorV { code: "E_PROTOCOL"@, message: "protocol error"@ }),
        dashboard::no_session() == (CmdErrorV {
            code: "E_SESSION_EXPIRED"@,
            message: "session expired or revoked"@,
        }),
{
    dashboard::laws::law_every_code_has_its_own_text(Fault::Protocol(Seq::empty()), Fault::Auth);
}

/// A token is saved where a path was given that is not empty.
pub proof fn law_tokens_are_saved_where_asked(p: Seq<char>)
    ensures
        p.len() > 0 ==> rows::wanted_path(Some(p)) == Some(p),
        rows::wanted_path(Some(Seq::empty())) is None,
        rows::wanted_path(None) is None,
{
}

} // verus!
