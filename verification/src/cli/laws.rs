//! What the commands are for: what the broker makes of each, and what is printed of
//! the answer.

use vstd::prelude::*;

use crate::audit::{self, Decision, LineV};
use crate::broker::daemon::{self, HandledV};
use crate::broker::dispatch::{self, CallV, ContextV, Need as Right, Reply, Stage, StepV};
use crate::broker::gate::IdentityV;
use crate::broker::ops;
use crate::broker::request_laws::{self, after, asks};
use crate::broker::rows::{self, AgentRow, ApprovalRow, GrantRow, LeaseRow, ProjectRow, SecretRow};
use crate::cli::{self, CmdV, Command, InputsV, Need, Prompt, Row};
use crate::dashboard::row_laws;
use crate::error::Fault;
use crate::json::{self, JsonV};
use crate::text;
use crate::wire::{self, AuthV, RequestV};

verus! {

/// The request that a command sends with what was read for it.
pub open spec fn sent(v: u64, id: Seq<char>, auth: AuthV, c: CmdV, i: InputsV) -> RequestV {
    RequestV {
        v,
        id,
        op: cli::operation_of(c).wire_name(),
        auth,
        params: cli::params_of(c, i),
    }
}

/// The name on the wire that a command stands for.
pub open spec fn wire_name_of(c: CmdV) -> Seq<char> {
    match c {
        Command::Init => "vault.create"@,
        Command::Status => "vault.status"@,
        Command::Unlock => "vault.unlock"@,
        Command::Lock => "vault.lock"@,
        Command::ProjectAdd { .. } => "project.add"@,
        Command::ProjectList => "project.list"@,
        Command::ProjectPathAdd { .. } => "project.path.add"@,
        Command::ProjectPathRemove { .. } => "project.path.remove"@,
        Command::ProjectRemove { .. } => "project.remove"@,
        Command::SecretSet { .. } => "secret.set"@,
        Command::SecretList { .. } => "secrets.list"@,
        Command::SecretDelete { .. } => "secret.delete"@,
        Command::AgentAdd { .. } => "agents.add"@,
        Command::AgentRevoke { .. } => "agents.revoke"@,
        Command::AgentList => "agents.list"@,
        Command::GrantAdd { .. } => "grants.grant"@,
        Command::GrantRevoke { .. } => "grants.revoke"@,
        Command::GrantList => "grants.list"@,
        Command::AuditShow { .. } => "audit.show"@,
        Command::AuditVerify => "audit.verify"@,
        Command::RunSignal { .. } => "run_signal"@,
        Command::LeaseCreate { .. } => "lease.create"@,
        Command::LeaseList => "lease.list"@,
        Command::LeaseRevoke { .. } => "lease.revoke"@,
        Command::Reveal { .. } => "reveal"@,
        Command::Inject { .. } => "inject_file"@,
        Command::ApprovalStatus { .. } => "approvals.status"@,
        Command::ApprovalPending => "approvals.pending"@,
        Command::ApprovalApprove { .. } => "approvals.approve"@,
        Command::ApprovalDeny { .. } => "approvals.deny"@,
    }
}

/// Every command is sent as its own operation, so that different commands are
/// different operations.
pub proof fn law_commands_are_sent_as_their_own_operation(
    v: u64,
    id: Seq<char>,
    auth: AuthV,
    c: CmdV,
    i: InputsV,
)
    ensures
        sent(v, id, auth, c, i).op == wire_name_of(c),
        ops::operation_named(sent(v, id, auth, c, i).op) is Some,
{
    ops::law_names_identify_operations(wire_name_of(c), cli::operation_of(c));
}

/// The names of parameters are told apart by their length and a letter.
proof fn lemma_names_differ()
    ensures
        "passphrase"@.len() == 10 && "passphrase"@[0] == 'p',
        "name"@.len() == 4 && "name"@[0] == 'n',
        "paths"@.len() == 5 && "paths"@[0] == 'p',
        "path"@.len() == 4 && "path"@[0] == 'p',
        "project"@.len() == 7,
        "key"@.len() == 3 && "key"@[0] == 'k',
        "value"@.len() == 5 && "value"@[0] == 'v',
        "agent"@.len() == 5 && "agent"@[0] == 'a',
        "ops"@.len() == 3 && "ops"@[0] == 'o',
        "tail"@.len() == 4 && "tail"@[0] == 't',
        "before_seq"@.len() == 10 && "before_seq"@[0] == 'b',
        "run_id"@.len() == 6 && "run_id"@[0] == 'r',
        "signal"@.len() == 6 && "signal"@[0] == 's',
        "ttl_secs"@.len() == 8 && "ttl_secs"@[0] == 't',
        "lease_id"@.len() == 8 && "lease_id"@[0] == 'l',
        "lease"@.len() == 5 && "lease"@[0] == 'l',
        "approval_id"@.len() == 11,
        "keys"@.len() == 4 && "keys"@[0] == 'k',
{
    reveal_strlit("passphrase");
    assert("passphrase"@.len() == 10 && "passphrase"@[0] == 'p');
    reveal_strlit("name");
    assert("name"@.len() == 4 && "name"@[0] == 'n');
    reveal_strlit("paths");
    assert("paths"@.len() == 5 && "paths"@[0] == 'p');
    reveal_strlit("path");
    assert("path"@.len() == 4 && "path"@[0] == 'p');
    reveal_strlit("project");
    assert("project"@.len() == 7);
    reveal_strlit("key");
    assert("key"@.len() == 3 && "key"@[0] == 'k');
    reveal_strlit("value");
    assert("value"@.len() == 5 && "value"@[0] == 'v');
    reveal_strlit("agent");
    assert("agent"@.len() == 5 && "agent"@[0] == 'a');
    reveal_strlit("ops");
    assert("ops"@.len() == 3 && "ops"@[0] == 'o');
    reveal_strlit("tail");
    assert("tail"@.len() == 4 && "tail"@[0] == 't');
    reveal_strlit("before_seq");
    assert("before_seq"@.len() == 10 && "before_seq"@[0] == 'b');
    reveal_strlit("run_id");
    assert("run_id"@.len() == 6 && "run_id"@[0] == 'r');
    reveal_strlit("signal");
    assert("signal"@.len() == 6 && "signal"@[0] == 's');
    reveal_strlit("ttl_secs");
    assert("ttl_secs"@.len() == 8 && "ttl_secs"@[0] == 't');
    reveal_strlit("lease_id");
    assert("lease_id"@.len() == 8 && "lease_id"@[0] == 'l');
    reveal_strlit("lease");
    assert("lease"@.len() == 5 && "lease"@[0] == 'l');
    reveal_strlit("approval_id");
    assert("approval_id"@.len() == 11);
    reveal_strlit("keys");
    assert("keys"@.len() == 4 && "keys"@[0] == 'k');
}

/// What the owner's command names is what the broker is asked for: the same project,
/// folder, secret, agent, grant, lease, approval and page, with the value that was read.
pub proof fn law_the_owners_commands_reach_what_they_name(
    v: u64,
    id: Seq<char>,
    auth: AuthV,
    c: CmdV,
    i: InputsV,
    ctx: ContextV,
)
    requires
        ctx.identity is Human,
        i.lease.len() == 0 || !cli::lease_wanted(c),
    ensures
        ({
            let step = dispatch::first_step(sent(v, id, auth, c, i), ctx);
            let actor = ctx.actor;
            match c {
                Command::Init => true,
                Command::Unlock => true,
                Command::Status => asks(step, CallV::Status { actor }),
                Command::Lock => asks(step, CallV::LockAndDrain { actor }),
                Command::ProjectAdd { name, paths } => asks(
                    step,
                    CallV::ProjectAdd { actor, name, paths },
                ),
                Command::ProjectList => asks(step, CallV::ProjectList { actor }),
                Command::ProjectPathAdd { name, path } => asks(
                    step,
                    CallV::ProjectPathAdd { actor, name, path },
                ),
                Command::ProjectPathRemove { name, path } => asks(
                    step,
                    CallV::ProjectPathRemove { actor, name, path },
                ),
                Command::ProjectRemove { name } => asks(step, CallV::ProjectRemove { actor, name }),
                Command::SecretSet { project, key } => asks(
                    step,
                    CallV::SecretSet { actor, project, key, value: i.value },
                ),
                Command::SecretList { project } => asks(
                    step,
                    CallV::SecretList { project, actor },
                ),
                Command::SecretDelete { project, key } => asks(
                    step,
                    CallV::SecretDelete { actor, project, key },
                ),
                Command::AgentAdd { name } => asks(step, CallV::AgentAdd { actor, name }),
                Command::AgentRevoke { name } => asks(step, CallV::AgentRevoke { actor, name }),
                Command::AgentList => asks(step, CallV::AgentList { actor }),
                Command::GrantAdd { agent, project, ops } => asks(step, CallV::ParseOps { ops })
                    && forall|words: Vec<String>|
                    asks(
                        #[trigger] after(sent(v, id, auth, c, i), ctx, step, Reply::Ops(words)),
                        CallV::GrantAdd { actor, agent, project, ops: text::texts(words@) },
                    ),
                Command::GrantRevoke { agent, project } => asks(
                    step,
                    CallV::GrantRevoke { actor, agent, project },
                ),
                Command::GrantList => asks(step, CallV::GrantList { actor }),
                Command::AuditShow { tail } => if 1 <= tail <= 1000 {
                    asks(step, CallV::AuditPage { actor, tail, before_seq: None })
                } else {
                    step is Answer
                },
                Command::AuditVerify => asks(step, CallV::AuditVerify),
                Command::RunSignal { .. } => step is Answer,
                Command::LeaseCreate { .. } => step is Answer,
                Command::LeaseList => asks(step, CallV::LeaseList { actor, owner: None }),
                Command::LeaseRevoke { lease_id } => asks(
                    step,
                    CallV::LeaseRevoke { actor, owner: None, lease_id },
                ),
                Command::Reveal { project, key, approval_id } => if approval_id is None {
                    asks(step, CallV::RevealHuman { actor, project, key })
                } else {
                    step is Answer
                },
                Command::Inject { .. } => step is Answer,
                Command::ApprovalStatus { .. } => step is Answer,
                Command::ApprovalPending => asks(step, CallV::ApprovalPending { actor }),
                Command::ApprovalApprove { approval_id } => asks(
                    step,
                    CallV::ApprovalDecide { actor, approval_id, approved: true },
                ),
                Command::ApprovalDeny { approval_id } => asks(
                    step,
                    CallV::ApprovalDecide { actor, approval_id, approved: false },
                ),
            }
        }),
{
    broadcast use json::lemma_with_get;

    lemma_names_differ();
    request_laws::law_operations_go_by_their_names();
    let req = sent(v, id, auth, c, i);
    assert(forall|key: Seq<char>| json::empty_object().get(key) is None);
    match c {
        Command::ProjectAdd { name, paths } => {
            request_laws::law_a_project_gets_its_folders(req, ctx, name, paths);
        },
        _ => {},
    }
}

/// What an agent's command names is what the broker is asked for on an open vault: its
/// right on the project is checked, with the lease where one was read, and after that
/// the call is about the same project, path, keys, secret, approval, run and window.
pub proof fn law_an_agents_commands_reach_what_they_name(
    v: u64,
    id: Seq<char>,
    auth: AuthV,
    c: CmdV,
    i: InputsV,
    ctx: ContextV,
    agent: Seq<char>,
    allowed_as: String,
    words: Vec<String>,
)
    requires
        ctx.identity == IdentityV::Agent(agent),
        !ctx.locked,
    ensures
        ({
            let req = sent(v, id, auth, c, i);
            let step = dispatch::first_step(req, ctx);
            let next = after(req, ctx, step, Reply::Actor(allowed_as));
            let actor = ctx.actor;
            let credential = if i.lease.len() > 0 {
                Some(i.lease)
            } else {
                None
            };
            match c {
                Command::Status => asks(step, CallV::Status { actor }),
                Command::Lock => asks(step, CallV::LockAndDrain { actor }),
                Command::SecretList { project } => asks(
                    step,
                    CallV::AuthorizeLease { agent, project, need: Right::Read, credential },
                ) && asks(next, CallV::SecretList { project, actor: allowed_as@ }),
                Command::Inject { project, path, keys } => asks(
                    step,
                    CallV::AuthorizeLease { agent, project, need: Right::Inject, credential },
                ) && asks(
                    next,
                    CallV::InjectFile {
                        actor: allowed_as@,
                        project,
                        path,
                        keys: if keys.len() > 0 {
                            Some(keys)
                        } else {
                            None
                        },
                    },
                ),
                Command::Reveal { project, key, approval_id } => asks(
                    step,
                    CallV::AuthorizeLease { agent, project, need: Right::Reveal, credential },
                ) && match approval_id {
                    Some(a) => asks(
                        next,
                        CallV::RevealClaim {
                            actor: allowed_as@,
                            agent,
                            project,
                            key,
                            approval_id: a,
                        },
                    ),
                    None => asks(
                        next,
                        CallV::RequestApproval { actor: allowed_as@, agent, project, key },
                    ),
                },
                Command::RunSignal { run_id, .. } => asks(step, CallV::FindRun { agent, run_id }),
                Command::LeaseCreate { project, ops, ttl_secs } => asks(
                    step,
                    CallV::ParseOps { ops },
                ) && asks(
                    after(req, ctx, step, Reply::Ops(words)),
                    CallV::LeaseCreate {
                        actor,
                        agent,
                        project,
                        ops: text::texts(words@),
                        ttl_secs,
                    },
                ),
                Command::LeaseList => asks(step, CallV::LeaseList { actor, owner: Some(agent) }),
                Command::LeaseRevoke { lease_id } => asks(
                    step,
                    CallV::LeaseRevoke { actor, owner: Some(agent), lease_id },
                ),
                Command::ApprovalStatus { approval_id } => asks(
                    step,
                    CallV::ApprovalStatus { agent, approval_id },
                ),
                _ => true,
            }
        }),
{
    broadcast use json::lemma_with_get;

    lemma_names_differ();
    request_laws::law_operations_go_by_their_names();
    let req = sent(v, id, auth, c, i);
    assert(forall|key: Seq<char>| json::empty_object().get(key) is None);
    match c {
        Command::Inject { project, path, keys } => {
            let items = json::text_array(keys)->Array_0;
            if keys.len() > 0 {
                assert(req.params.at("keys"@) == json::text_array(keys));
                assert(forall|k: int| 0 <= k < items.len() ==> #[trigger] items[k] is Str);
                assert(Seq::new(items.len(), |k: int| items[k]->Str_0) =~= keys);
            }
        },
        _ => {},
    }
}

/// `init` creates the vault with the passphrase that was read, and presents no credential;
/// `unlock` unlocks with the proof of the passphrase, and carries nothing else.
pub proof fn law_init_and_unlock_use_the_passphrase(
    v: u64,
    id: Seq<char>,
    i: InputsV,
    ctx: ContextV,
    passphrase: Seq<char>,
)
    ensures
        daemon::creation(sent(v, id, wire::no_auth(), Command::Init, i)) == (HandledV::Create {
            passphrase: i.passphrase,
        }),
        cli::presented_auth(Need::NewPassphrase, None, Some(passphrase)) == Ok::<AuthV, Fault>(
            wire::no_auth(),
        ),
        ctx.proven ==> asks(
            dispatch::first_step(
                sent(
                    v,
                    id,
                    AuthV { token: None, passphrase: Some(passphrase), session: None },
                    Command::Unlock,
                    i,
                ),
                ctx,
            ),
            CallV::Unlock,
        ),
        cli::params_of(Command::Unlock, i) == json::empty_object(),
{
    broadcast use json::lemma_with_get;

    request_laws::law_operations_go_by_their_names();
    assert(json::empty_object().get("passphrase"@) is None);
}

/// The owner's commands are proved by the passphrase, an agent's by its token, the shared
/// ones by the token where there is one; the public status needs nothing and a new vault
/// is given its passphrase twice.
pub proof fn law_commands_present_the_right_credential(
    c: CmdV,
    token: Seq<char>,
    passphrase: Seq<char>,
)
    ensures
        ({
            let agents = c is RunSignal || c is LeaseCreate || c is Inject || c is ApprovalStatus;
            let shared = c is Lock || c is SecretList || c is LeaseList || c is LeaseRevoke
                || c is Reveal;
            let by_token = AuthV { token: Some(token), passphrase: None, session: None };
            let by_passphrase = AuthV {
                token: None,
                passphrase: Some(passphrase),
                session: None,
            };
            let need = cli::need_of(c);
            if c is Init {
                &&& cli::prompt_of(need, true) == Prompt::Confirmed
                &&& cli::prompt_of(need, false) == Prompt::Confirmed
            } else if c is Status {
                &&& cli::prompt_of(need, false) == Prompt::Never
                &&& cli::presented_auth(need, Some(token), Some(passphrase)) == Ok::<AuthV, Fault>(
                    wire::no_auth(),
                )
            } else if agents {
                &&& cli::prompt_of(need, false) == Prompt::Never
                &&& cli::presented_auth(need, Some(token), None) == Ok::<AuthV, Fault>(by_token)
                &&& cli::presented_auth(need, None, Some(passphrase)) == Err::<AuthV, Fault>(
                    Fault::Permission,
                )
            } else if shared {
                &&& cli::prompt_of(need, true) == Prompt::Never
                &&& cli::prompt_of(need, false) == Prompt::Once
                &&& cli::presented_auth(need, Some(token), None) == Ok::<AuthV, Fault>(by_token)
                &&& cli::presented_auth(need, None, Some(passphrase)) == Ok::<AuthV, Fault>(
                    by_passphrase,
                )
            } else {
                &&& cli::prompt_of(need, true) == Prompt::Once
                &&& cli::prompt_of(need, false) == Prompt::Once
                &&& cli::presented_auth(need, Some(token), Some(passphrase)) == Ok::<AuthV, Fault>(
                    by_passphrase,
                )
            }
        }),
{
}

/// The names of members are told apart by their length and a letter.
proof fn lemma_members_differ()
    ensures
        "passphrase"@.len() == 10 && "passphrase"@[0] == 'p' && "passphrase"@[8] == 's',
        "name"@.len() == 4 && "name"@[0] == 'n',
        "paths"@.len() == 5 && "paths"@[0] == 'p' && "paths"@[1] == 'a',
        "path"@.len() == 4 && "path"@[0] == 'p',
        "project"@.len() == 7 && "project"@[0] == 'p' && "project"@[2] == 'o',
        "key"@.len() == 3 && "key"@[0] == 'k',
        "value"@.len() == 5 && "value"@[0] == 'v' && "value"@[1] == 'a',
        "agent"@.len() == 5 && "agent"@[0] == 'a' && "agent"@[1] == 'g',
        "ops"@.len() == 3 && "ops"@[0] == 'o',
        "tail"@.len() == 4 && "tail"@[0] == 't',
        "before_seq"@.len() == 10 && "before_seq"@[0] == 'b' && "before_seq"@[8] == 'e',
        "run_id"@.len() == 6 && "run_id"@[0] == 'r' && "run_id"@[1] == 'u',
        "signal"@.len() == 6 && "signal"@[0] == 's' && "signal"@[1] == 'i',
        "ttl_secs"@.len() == 8 && "ttl_secs"@[0] == 't',
        "lease_id"@.len() == 8 && "lease_id"@[0] == 'l',
        "lease"@.len() == 5 && "lease"@[0] == 'l' && "lease"@[1] == 'e',
        "approval_id"@.len() == 11,
        "keys"@.len() == 4 && "keys"@[0] == 'k',
        "updated"@.len() == 7 && "updated"@[0] == 'u' && "updated"@[2] == 'd',
        "token_prefix"@.len() == 12 && "token_prefix"@[0] == 't',
        "status"@.len() == 6 && "status"@[0] == 's' && "status"@[1] == 't',
        "revoked"@.len() == 7 && "revoked"@[0] == 'r' && "revoked"@[2] == 'v',
        "lease_prefix"@.len() == 12 && "lease_prefix"@[0] == 'l',
        "expires_in"@.len() == 10 && "expires_in"@[0] == 'e' && "expires_in"@[8] == 'i',
        "expires_at"@.len() == 10 && "expires_at"@[0] == 'e' && "expires_at"@[8] == 'a',
        "version"@.len() == 7 && "version"@[0] == 'v' && "version"@[2] == 'r',
        "created"@.len() == 7 && "created"@[0] == 'c' && "created"@[2] == 'e',
        "locked"@.len() == 6 && "locked"@[0] == 'l' && "locked"@[1] == 'o',
        "secrets"@.len() == 7 && "secrets"@[0] == 's' && "secrets"@[2] == 'c',
        "projects"@.len() == 8 && "projects"@[0] == 'p',
        "agents"@.len() == 6 && "agents"@[0] == 'a' && "agents"@[1] == 'g',
        "grants"@.len() == 6 && "grants"@[0] == 'g' && "grants"@[1] == 'r',
        "leases"@.len() == 6 && "leases"@[0] == 'l' && "leases"@[1] == 'e',
        "approvals"@.len() == 9 && "approvals"@[0] == 'a',
        "entries"@.len() == 7 && "entries"@[0] == 'e' && "entries"@[2] == 't',
        "macs_verified"@.len() == 13,
        "macs_null"@.len() == 9 && "macs_null"@[0] == 'm',
        "agent_id"@.len() == 8 && "agent_id"@[0] == 'a',
        "token"@.len() == 5 && "token"@[0] == 't' && "token"@[1] == 'o',
        "lease_credential"@.len() == 16,
        "count"@.len() == 5 && "count"@[0] == 'c' && "count"@[1] == 'o',
        "signaled"@.len() == 8 && "signaled"@[0] == 's',
        "next_before_seq"@.len() == 15,
        "added"@.len() == 5 && "added"@[0] == 'a' && "added"@[1] == 'd',
        "removed"@.len() == 7 && "removed"@[0] == 'r' && "removed"@[2] == 'm',
        "set"@.len() == 3 && "set"@[0] == 's',
        "deleted"@.len() == 7 && "deleted"@[0] == 'd' && "deleted"@[2] == 'l',
        "granted"@.len() == 7 && "granted"@[0] == 'g' && "granted"@[2] == 'a',
        "closed"@.len() == 6 && "closed"@[0] == 'c' && "closed"@[1] == 'l',
        "unlocked"@.len() == 8 && "unlocked"@[0] == 'u',
{
    reveal_strlit("passphrase");
    assert("passphrase"@.len() == 10 && "passphrase"@[0] == 'p' && "passphrase"@[8] == 's');
    reveal_strlit("name");
    assert("name"@.len() == 4 && "name"@[0] == 'n');
    reveal_strlit("paths");
    assert("paths"@.len() == 5 && "paths"@[0] == 'p' && "paths"@[1] == 'a');
    reveal_strlit("path");
    assert("path"@.len() == 4 && "path"@[0] == 'p');
    reveal_strlit("project");
    assert("project"@.len() == 7 && "project"@[0] == 'p' && "project"@[2] == 'o');
    reveal_strlit("key");
    assert("key"@.len() == 3 && "key"@[0] == 'k');
    reveal_strlit("value");
    assert("value"@.len() == 5 && "value"@[0] == 'v' && "value"@[1] == 'a');
    reveal_strlit("agent");
    assert("agent"@.len() == 5 && "agent"@[0] == 'a' && "agent"@[1] == 'g');
    reveal_strlit("ops");
    assert("ops"@.len() == 3 && "ops"@[0] == 'o');
    reveal_strlit("tail");
    assert("tail"@.len() == 4 && "tail"@[0] == 't');
    reveal_strlit("before_seq");
    assert("before_seq"@.len() == 10 && "before_seq"@[0] == 'b' && "before_seq"@[8] == 'e');
    reveal_strlit("run_id");
    assert("run_id"@.len() == 6 && "run_id"@[0] == 'r' && "run_id"@[1] == 'u');
    reveal_strlit("signal");
    assert("signal"@.len() == 6 && "signal"@[0] == 's' && "signal"@[1] == 'i');
    reveal_strlit("ttl_secs");
    assert("ttl_secs"@.len() == 8 && "ttl_secs"@[0] == 't');
    reveal_strlit("lease_id");
    assert("lease_id"@.len() == 8 && "lease_id"@[0] == 'l');
    reveal_strlit("lease");
    assert("lease"@.len() == 5 && "lease"@[0] == 'l' && "lease"@[1] == 'e');
    reveal_strlit("approval_id");
    assert("approval_id"@.len() == 11);
    reveal_strlit("keys");
    assert("keys"@.len() == 4 && "keys"@[0] == 'k');
    reveal_strlit("updated");
    assert("updated"@.len() == 7 && "updated"@[0] == 'u' && "updated"@[2] == 'd');
    reveal_strlit("token_prefix");
    assert("token_prefix"@.len() == 12 && "token_prefix"@[0] == 't');
    reveal_strlit("status");
    assert("status"@.len() == 6 && "status"@[0] == 's' && "status"@[1] == 't');
    reveal_strlit("revoked");
    assert("revoked"@.len() == 7 && "revoked"@[0] == 'r' && "revoked"@[2] == 'v');
    reveal_strlit("lease_prefix");
    assert("lease_prefix"@.len() == 12 && "lease_prefix"@[0] == 'l');
    reveal_strlit("expires_in");
    assert("expires_in"@.len() == 10 && "expires_in"@[0] == 'e' && "expires_in"@[8] == 'i');
    reveal_strlit("expires_at");
    assert("expires_at"@.len() == 10 && "expires_at"@[0] == 'e' && "expires_at"@[8] == 'a');
    reveal_strlit("version");
    assert("version"@.len() == 7 && "version"@[0] == 'v' && "version"@[2] == 'r');
    reveal_strlit("created");
    assert("created"@.len() == 7 && "created"@[0] == 'c' && "created"@[2] == 'e');
    reveal_strlit("locked");
    assert("locked"@.len() == 6 && "locked"@[0] == 'l' && "locked"@[1] == 'o');
    reveal_strlit("secrets");
    assert("secrets"@.len() == 7 && "secrets"@[0] == 's' && "secrets"@[2] == 'c');
    reveal_strlit("projects");
    assert("projects"@.len() == 8 && "projects"@[0] == 'p');
    reveal_strlit("agents");
    assert("agents"@.len() == 6 && "agents"@[0] == 'a' && "agents"@[1] == 'g');
    reveal_strlit("grants");
    assert("grants"@.len() == 6 && "grants"@[0] == 'g' && "grants"@[1] == 'r');
    reveal_strlit("leases");
    assert("leases"@.len() == 6 && "leases"@[0] == 'l' && "leases"@[1] == 'e');
    reveal_strlit("approvals");
    assert("approvals"@.len() == 9 && "approvals"@[0] == 'a');
    reveal_strlit("entries");
    assert("entries"@.len() == 7 && "entries"@[0] == 'e' && "entries"@[2] == 't');
    reveal_strlit("macs_verified");
    assert("macs_verified"@.len() == 13);
    reveal_strlit("macs_null");
    assert("macs_null"@.len() == 9 && "macs_null"@[0] == 'm');
    reveal_strlit("agent_id");
    assert("agent_id"@.len() == 8 && "agent_id"@[0] == 'a');
    reveal_strlit("token");
    assert("token"@.len() == 5 && "token"@[0] == 't' && "token"@[1] == 'o');
    reveal_strlit("lease_credential");
    assert("lease_credential"@.len() == 16);
    reveal_strlit("count");
    assert("count"@.len() == 5 && "count"@[0] == 'c' && "count"@[1] == 'o');
    reveal_strlit("signaled");
    assert("signaled"@.len() == 8 && "signaled"@[0] == 's');
    reveal_strlit("next_before_seq");
    assert("next_before_seq"@.len() == 15);
    reveal_strlit("added");
    assert("added"@.len() == 5 && "added"@[0] == 'a' && "added"@[1] == 'd');
    reveal_strlit("removed");
    assert("removed"@.len() == 7 && "removed"@[0] == 'r' && "removed"@[2] == 'm');
    reveal_strlit("set");
    assert("set"@.len() == 3 && "set"@[0] == 's');
    reveal_strlit("deleted");
    assert("deleted"@.len() == 7 && "deleted"@[0] == 'd' && "deleted"@[2] == 'l');
    reveal_strlit("granted");
    assert("granted"@.len() == 7 && "granted"@[0] == 'g' && "granted"@[2] == 'a');
    reveal_strlit("closed");
    assert("closed"@.len() == 6 && "closed"@[0] == 'c' && "closed"@[1] == 'l');
    reveal_strlit("unlocked");
    assert("unlocked"@.len() == 8 && "unlocked"@[0] == 'u');
}

/// What an answer tells.
pub open spec fn told(step: StepV) -> JsonV {
    step->response.result->0
}

/// The text of an optional text that is empty where there is none.
pub open spec fn or_blank(t: Option<String>) -> Seq<char> {
    match t {
        Some(s) => s@,
        None => Seq::empty(),
    }
}

/// The seconds that are left, none below zero.
pub open spec fn left(secs: i64) -> Seq<char> {
    text::decimal_text(
        if secs > 0 {
            secs as nat
        } else {
            0
        },
    )
}

/// What is printed of a secret.
pub open spec fn secret_line(r: SecretRow) -> Seq<char> {
    r.key@ + " (updated "@ + r.updated@ + ")"@
}

/// What is printed of an agent.
pub open spec fn agent_line(r: AgentRow) -> Seq<char> {
    r.name@ + " ("@ + r.status@ + ", token prefix "@ + r.token_prefix@ + ")"@
}

/// What is printed of a grant.
pub open spec fn grant_line(r: GrantRow) -> Seq<char> {
    r.agent@ + " on "@ + r.project@ + " ops="@ + json::json_text(
        json::text_array(text::texts(r.ops@)),
    ) + " revoked="@ + (if r.revoked {
        "true"@
    } else {
        "false"@
    })
}

/// What is printed of a lease.
pub open spec fn lease_line(r: LeaseRow) -> Seq<char> {
    r.id@ + " ["@ + r.prefix@ + "] "@ + or_blank(r.project) + " "@ + json::json_text(
        json::text_array(text::texts(r.ops@)),
    ) + " (expires in "@ + left(r.expires_in) + "s)"@
}

/// What is printed of a request for approval.
pub open spec fn approval_line(r: ApprovalRow) -> Seq<char> {
    r.id@ + " "@ + or_blank(r.agent) + " "@ + or_blank(r.project) + "/"@ + r.key@ + " "@
        + "pending"@
}

/// A label and a text, where there is one.
pub open spec fn noted(label: Seq<char>, t: Option<Seq<char>>) -> Seq<char> {
    match t {
        Some(s) => label + s,
        None => Seq::empty(),
    }
}

/// What is printed of an entry of the log.
pub open spec fn entry_line(l: LineV) -> Seq<char> {
    let e = l.event;
    "#"@ + text::decimal_text(e.seq as nat) + " "@ + json::json_quoted(e.ts) + " "@
        + json::json_quoted(e.actor) + " "@ + json::json_quoted(e.op) + " "@ + json::json_quoted(
        match e.decision {
            Decision::Allowed => "allowed"@,
            Decision::Denied => "denied"@,
        },
    ) + noted(" reason="@, e.reason) + noted(" project="@, e.project) + (if e.keys.len() > 0 {
        " keys="@ + text::debug_text(e.keys)
    } else {
        Seq::empty()
    }) + noted(" target="@, e.target) + (if l.mac is None {
        " [unauthenticated]"@
    } else {
        Seq::empty()
    })
}

/// A line of the list of secrets says what the broker told of the secret.
pub proof fn law_secret_rows_are_printed(
    r: SecretRow,
)
    ensures
        cli::row_text(Row::Secret, rows::secret_value(r)) == secret_line(r),
{
    broadcast use json::lemma_with_get;

    lemma_members_differ();
    reveal_strlit("");
    assert(""@ =~= Seq::<char>::empty());
    assert(forall|key: Seq<char>| json::empty_object().get(key) is None);
}

/// A line of the list of agents says what the broker told of the agent.
pub proof fn law_agent_rows_are_printed(
    r: AgentRow,
)
    ensures
        cli::row_text(Row::Agent, rows::agent_value(r)) == agent_line(r),
{
    broadcast use json::lemma_with_get;

    lemma_members_differ();
    reveal_strlit("");
    assert(""@ =~= Seq::<char>::empty());
    assert(forall|key: Seq<char>| json::empty_object().get(key) is None);
}

/// A line of the list of grants says what the broker told of the grant.
pub proof fn law_grant_rows_are_printed(
    r: GrantRow,
)
    ensures
        cli::row_text(Row::Grant, rows::grant_value(r)) == grant_line(r),
{
    broadcast use json::lemma_with_get;

    lemma_members_differ();
    reveal_strlit("");
    assert(""@ =~= Seq::<char>::empty());
    assert(forall|key: Seq<char>| json::empty_object().get(key) is None);
}

/// A line of the list of leases says what the broker told of the lease.
pub proof fn law_lease_rows_are_printed(
    r: LeaseRow,
)
    ensures
        cli::row_text(Row::Lease, rows::lease_value(r)) == lease_line(r),
{
    broadcast use json::lemma_with_get;

    lemma_members_differ();
    reveal_strlit("");
    assert(""@ =~= Seq::<char>::empty());
    assert(forall|key: Seq<char>| json::empty_object().get(key) is None);
}

/// A line of the list of approvals says what the broker told of the approval.
pub proof fn law_approval_rows_are_printed(
    r: ApprovalRow,
)
    ensures
        cli::row_text(Row::Approval, rows::approval_value(r)) == approval_line(r),
{
    broadcast use json::lemma_with_get;

    lemma_members_differ();
    reveal_strlit("");
    assert(""@ =~= Seq::<char>::empty());
    assert(forall|key: Seq<char>| json::empty_object().get(key) is None);
}

/// A line of the log says what the broker told of the entry.
pub proof fn law_entries_are_printed(
    l: LineV,
)
    ensures
        cli::row_text(Row::Audit, audit::line_value(l)) == entry_line(l),
{
    row_laws::lemma_entry_members(l);
    json::lemma_texts_of_texts(l.event.keys);
}

/// The lines of a project are its name with the number of its folders, and its folders; the
/// lines of several projects stand one after the other.
pub proof fn law_projects_are_printed(
    r: ProjectRow,
    a: Seq<JsonV>,
    b: Seq<JsonV>,
)
    ensures
        cli::project_lines(rows::project_value(r)) == seq![
            r.name@ + " ("@ + text::decimal_text(r.paths@.len()) + " authorized folders)"@,
        ] + Seq::new(r.paths@.len(), |i: int| "  "@ + r.paths@[i]@),
        cli::all_project_lines(a + b) == cli::all_project_lines(a) + cli::all_project_lines(b),
        cli::all_project_lines(seq![rows::project_value(r)]) == cli::project_lines(
            rows::project_value(r),
        ),
{
    broadcast use json::lemma_with_get;

    lemma_members_differ();
    reveal_strlit("");
    assert(""@ =~= Seq::<char>::empty());
    assert(forall|key: Seq<char>| json::empty_object().get(key) is None);
    let p = rows::project_value(r);
    assert(cli::row_texts(Row::Folder, json::items_at(p, "paths"@)) =~= Seq::new(
        r.paths@.len(),
        |i: int| "  "@ + r.paths@[i]@,
    ));
    assert(seq![p].drop_last() =~= Seq::empty());
    assert(cli::all_project_lines(seq![p].drop_last()) =~= Seq::empty());
    assert(cli::all_project_lines(seq![p]) =~= cli::project_lines(p));
    lemma_projects_in_turn(a, b);
}

proof fn lemma_projects_in_turn(a: Seq<JsonV>, b: Seq<JsonV>)
    ensures
        cli::all_project_lines(a + b) == cli::all_project_lines(a) + cli::all_project_lines(b),
    decreases b.len(),
{
    if b.len() == 0 {
        assert(a + b =~= a);
        assert(cli::all_project_lines(a) + cli::all_project_lines(b) =~= cli::all_project_lines(a));
    } else {
        lemma_projects_in_turn(a, b.drop_last());
        assert((a + b).drop_last() =~= a + b.drop_last());
        assert((a + b).last() == b.last());
        assert(cli::all_project_lines(a + b) =~= cli::all_project_lines(a)
            + cli::all_project_lines(b));
    }
}

/// A list is printed with one line for each row that the broker read, in order.
pub proof fn law_lists_are_printed_row_by_row(
    v: u64,
    id: Seq<char>,
    auth: AuthV,
    c: CmdV,
    i: InputsV,
    reply: Reply,
)
    ensures
        ({
            let answer = dispatch::last_step(sent(v, id, auth, c, i), cli::operation_of(c), reply);
            let printed = cli::report_of(c, told(answer));
            match (c, reply) {
                (Command::SecretList { .. }, Reply::Secrets(rows)) => {
                    &&& printed is Ok
                    &&& printed->Ok_0.len() == rows@.len()
                    &&& forall|n: int|
                        0 <= n < rows@.len() ==> #[trigger] printed->Ok_0[n] == secret_line(rows@[n])
                },
                (Command::AgentList, Reply::Agents(rows)) => {
                    &&& printed is Ok
                    &&& printed->Ok_0.len() == rows@.len()
                    &&& forall|n: int|
                        0 <= n < rows@.len() ==> #[trigger] printed->Ok_0[n] == agent_line(rows@[n])
                },
                (Command::GrantList, Reply::Grants(rows)) => {
                    &&& printed is Ok
                    &&& printed->Ok_0.len() == rows@.len()
                    &&& forall|n: int|
                        0 <= n < rows@.len() ==> #[trigger] printed->Ok_0[n] == grant_line(rows@[n])
                },
                (Command::LeaseList, Reply::Leases(rows)) => {
                    &&& printed is Ok
                    &&& printed->Ok_0.len() == rows@.len()
                    &&& forall|n: int|
                        0 <= n < rows@.len() ==> #[trigger] printed->Ok_0[n] == lease_line(rows@[n])
                },
                (Command::ApprovalPending, Reply::Approvals(rows)) => {
                    &&& printed is Ok
                    &&& printed->Ok_0.len() == rows@.len()
                    &&& forall|n: int|
                        0 <= n < rows@.len() ==> #[trigger] printed->Ok_0[n] == approval_line(rows@[n])
                },
                (Command::AuditShow { .. }, Reply::AuditPage { lines, .. }) => {
                    &&& printed is Ok
                    &&& printed->Ok_0.len() == lines@.len()
                    &&& forall|n: int|
                        0 <= n < lines@.len() ==> #[trigger] printed->Ok_0[n] == entry_line(lines@[n]@)
                },
                (Command::ProjectList, Reply::Projects(rows)) => printed == Ok::<
                    Seq<Seq<char>>,
                    Fault,
                >(
                    cli::all_project_lines(
                        Seq::new(rows@.len(), |n: int| rows::project_value(rows@[n])),
                    ),
                ),
                _ => true,
            }
        }),
{
    broadcast use json::lemma_with_get;

    lemma_members_differ();
    assert(forall|key: Seq<char>| json::empty_object().get(key) is None);
    assert forall|r: SecretRow| cli::row_text(Row::Secret, #[trigger] rows::secret_value(r))
        == secret_line(r) by {
        law_secret_rows_are_printed(r);
    }
    assert forall|r: AgentRow| cli::row_text(Row::Agent, #[trigger] rows::agent_value(r))
        == agent_line(r) by {
        law_agent_rows_are_printed(r);
    }
    assert forall|r: GrantRow| cli::row_text(Row::Grant, #[trigger] rows::grant_value(r))
        == grant_line(r) by {
        law_grant_rows_are_printed(r);
    }
    assert forall|r: LeaseRow| cli::row_text(Row::Lease, #[trigger] rows::lease_value(r))
        == lease_line(r) by {
        law_lease_rows_are_printed(r);
    }
    assert forall|r: ApprovalRow| cli::row_text(Row::Approval, #[trigger] rows::approval_value(r))
        == approval_line(r) by {
        law_approval_rows_are_printed(r);
    }
    assert forall|l: LineV| cli::row_text(Row::Audit, #[trigger] audit::line_value(l))
        == entry_line(l) by {
        law_entries_are_printed(l);
    }
}

/// What a command prints is what the broker told, with the names that the command was about.
pub proof fn law_answers_are_printed_as_told(
    v: u64,
    id: Seq<char>,
    auth: AuthV,
    c: CmdV,
    i: InputsV,
    ctx: ContextV,
    reply: Reply,
)
    requires
        i.lease.len() == 0 || !cli::lease_wanted(c),
    ensures
        ({
            let req = sent(v, id, auth, c, i);
            let answer = dispatch::last_step(req, cli::operation_of(c), reply);
            let j = told(answer);
            let signaled = told(dispatch::next_step(req, ctx, Stage::Recording, Reply::Done));
            let lines = match (c, reply) {
                (Command::Init, _) => seq!["vault created"@],
                (Command::Status, Reply::Status { version, created, locked }) => seq![
                    "version: "@ + text::decimal_text(version as nat),
                    "created: "@ + created@,
                    "state: "@ + (if locked {
                        "locked"@
                    } else {
                        "unlocked"@
                    }),
                ],
                (Command::Unlock, _) => seq![
                    "unlocked (the daemon session holds the key material)"@,
                ],
                (Command::Lock, _) => seq!["locked"@],
                (Command::ProjectAdd { name, .. }, _) => seq!["project added: "@ + name],
                (Command::ProjectPathAdd { name, .. }, _) => seq![
                    "authorized folder added to "@ + name,
                ],
                (Command::ProjectPathRemove { name, .. }, _) => seq![
                    "authorized folder removed from "@ + name,
                ],
                (Command::ProjectRemove { name }, _) => seq!["project removed: "@ + name],
                (Command::SecretSet { project, key }, _) => seq![
                    "secret set: "@ + project + "/"@ + key,
                ],
                (Command::SecretDelete { project, key }, _) => seq![
                    "secret deleted: "@ + project + "/"@ + key,
                ],
                (Command::AgentAdd { name }, Reply::AgentAdded { agent_id, token }) => seq![
                    "agent enrolled: "@ + name + " ("@ + agent_id@ + ")"@,
                    "token (shown once, store it now): "@ + token@,
                ],
                (Command::AgentRevoke { name }, _) => seq!["agent revoked: "@ + name],
                (Command::GrantAdd { agent, project, ops }, _) => seq![
                    "grant added: "@ + agent + " on "@ + project + " ("@ + ops + ")"@,
                ],
                (Command::GrantRevoke { agent, project }, _) => seq![
                    "grant revoked: "@ + agent + " on "@ + project,
                ],
                (
                    Command::AuditVerify,
                    Reply::Verified { entries, macs_verified, macs_null },
                ) => seq![
                    "entries: "@ + text::decimal_text(entries as nat) + " \u{b7} macs verified: "@
                        + text::decimal_text(macs_verified as nat) + " \u{b7} macs null: "@
                        + text::decimal_text(macs_null as nat),
                ],
                (
                    Command::LeaseCreate { ttl_secs, .. },
                    Reply::Leased { id: lease, credential, .. },
                ) => seq![
                    "lease created: "@ + lease@ + " (expires in "@ + text::decimal_text(
                        ttl_secs as nat,
                    ) + "s)"@,
                    "lease credential (shown once, store it now): "@ + credential@,
                ],
                (Command::LeaseRevoke { lease_id }, _) => seq!["lease revoked: "@ + lease_id],
                (Command::Inject { .. }, Reply::Injected { path, keys }) => seq![
                    "injected "@ + json::json_text(JsonV::UInt(keys@.len() as u64)) + " keys to "@
                        + path@,
                ] + Seq::new(keys@.len(), |n: int| keys@[n]@),
                (
                    Command::ApprovalStatus { approval_id },
                    Reply::ApprovalStatus { status, facts },
                ) => seq![
                    status@ + " "@ + approval_id + " (expires in "@ + left(
                        match facts {
                            Some(f) => f.expires_in,
                            None => 0,
                        },
                    ) + "s)"@,
                ],
                (Command::ApprovalApprove { approval_id }, _) => seq!["approved: "@ + approval_id],
                (Command::ApprovalDeny { approval_id }, _) => seq!["denied: "@ + approval_id],
                _ => Seq::empty(),
            };
            &&& lines.len() > 0 ==> cli::report_of(c, j) is Ok && cli::report_of(c, j)->Ok_0 =~= lines
            &&& (c matches Command::RunSignal { run_id, .. } ==> cli::report_of(c, signaled) == Ok::<
                Seq<Seq<char>>,
                Fault,
            >(seq!["run "@ + run_id + " signaled"@]))
        }),
        c is Reveal && reply is Secret && vstd::utf8::valid_utf8(reply->Secret_0@) ==> cli::report_of(
            c,
            told(dispatch::last_step(sent(v, id, auth, c, i), cli::operation_of(c), reply)),
        ) == Ok::<Seq<Seq<char>>, Fault>(
            seq![vstd::utf8::decode_utf8(reply->Secret_0@)],
        ),
{
    broadcast use json::lemma_with_get;

    lemma_members_differ();
    lemma_names_differ();
    assert(forall|key: Seq<char>| json::empty_object().get(key) is None);
    let req = sent(v, id, auth, c, i);
    match (c, reply) {
        (Command::Inject { path: wanted, .. }, Reply::Injected { path, keys }) => {
            let j = told(dispatch::last_step(req, cli::operation_of(c), reply));
            assert(cli::row_texts(Row::Name, json::items_at(j, "keys"@)) =~= Seq::new(
                keys@.len(),
                |n: int| keys@[n]@,
            ));
        },
        _ => {},
    }
}

} // verus!
