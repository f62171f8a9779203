//! What each operation is for: which call a request leads to, and what its reply is
//! answered with, told by the names and parameters on the wire.

use vstd::prelude::*;

use crate::audit::{self, AuditLine};
use crate::broker::dispatch::{
    self, ApprovalFacts, Call, CallV, ContextV, Need, Reply, SessionGrant, SessionWindow, StepV,
    TraceV,
};
use crate::broker::gate::{DenialV, IdentityV};
use crate::broker::ops::{self, Operation};
use crate::broker::rows;
use crate::json::{self, JsonV};
use crate::text;
use crate::wire::{self, RequestV};

verus! {

// ---------------------------------------------------------------------- stories
/// Whether a step asks the session for something.
pub open spec fn asks(step: StepV, call: CallV) -> bool {
    step matches StepV::Ask { call: c, .. } && c == call
}

/// The step after the reply to what a step asks for.
pub open spec fn after(req: RequestV, ctx: ContextV, step: StepV, reply: Reply) -> StepV {
    match step {
        StepV::Ask { stage, .. } => dispatch::next_step(req, ctx, stage, reply),
        other => other,
    }
}

/// Whether a step answers with a result, and records nothing of its own.
pub open spec fn tells(step: StepV, req: RequestV, result: JsonV) -> bool {
    step == (StepV::Answer {
        trace: TraceV::Nothing,
        response: wire::ok_response(req.id, result),
    })
}

/// Whether a step refuses with a code, a sentence, and no result.
pub open spec fn refuses(step: StepV, req: RequestV, code: Seq<char>, msg: Seq<char>) -> bool {
    step matches StepV::Answer { response, .. } && response == wire::err_response(
        req.id,
        code,
        msg,
    )
}

/// The object with one member.
pub open spec fn only(key: Seq<char>, value: JsonV) -> JsonV {
    JsonV::Object(seq![(key, value)])
}

/// Two names with a slash between them.
pub open spec fn pair(a: Seq<char>, b: Seq<char>) -> Seq<char> {
    a + "/"@ + b
}

proof fn lemma_only(key: Seq<char>, value: JsonV)
    ensures
        json::empty_object().with(key, value) == only(key, value),
{
    assert(Seq::<(Seq<char>, JsonV)>::empty().push((key, value)) =~= seq![(key, value)]);
}

/// Every text of a list of texts is kept.
proof fn lemma_texts_only(paths: Seq<Seq<char>>)
    ensures
        crate::broker::params::only_texts(json::text_array(paths)->Array_0) == paths,
    decreases paths.len(),
{
    let items = json::text_array(paths)->Array_0;
    if paths.len() == 0 {
        assert(paths =~= Seq::empty());
    } else {
        let init = paths.drop_last();
        lemma_texts_only(init);
        assert(items.drop_last() =~= json::text_array(init)->Array_0);
        assert(items.last() == JsonV::Str(paths.last()));
        assert(init.push(paths.last()) =~= paths);
    }
}

/// The entries of a page, in order.
pub open spec fn entries_of(lines: Seq<AuditLine>) -> JsonV {
    JsonV::Array(Seq::new(lines.len(), |i: int| audit::line_value(lines[i]@)))
}

/// A page: its entries, and where the next one ends, if there is one.
pub open spec fn page_of(lines: Seq<AuditLine>, next: Option<u64>) -> JsonV {
    JsonV::Object(
        seq![
            ("entries"@, entries_of(lines)),
            (
                "next_before_seq"@,
                match next {
                    Some(n) => JsonV::UInt(n),
                    None => JsonV::Null,
                },
            ),
        ],
    )
}

/// The members that tell the state of an approval; what is no longer known is blank,
/// and what has run out has no seconds left.
pub open spec fn approval_members(
    approval_id: Seq<char>,
    status: Seq<char>,
    facts: Option<ApprovalFacts>,
) -> Seq<(Seq<char>, JsonV)> {
    let (project, key, left): (Seq<char>, Seq<char>, u64) = match facts {
        Some(f) => (
            match f.project {
                Some(p) => p@,
                None => ""@,
            },
            f.key@,
            if f.expires_in > 0 {
                f.expires_in as u64
            } else {
                0
            },
        ),
        None => (""@, ""@, 0),
    };
    seq![
        ("approval_id"@, JsonV::Str(approval_id)),
        ("status"@, JsonV::Str(status)),
        ("project"@, JsonV::Str(project)),
        ("key"@, JsonV::Str(key)),
        ("expires_in"@, JsonV::UInt(left)),
    ]
}

/// The members that tell when a session lapses.
pub open spec fn window_members(w: SessionWindow) -> Seq<(Seq<char>, JsonV)> {
    seq![
        ("expires_at"@, JsonV::Str(w.expires_at@)),
        ("expires_in"@, JsonV::UInt(w.expires_in)),
        ("max_expires_at"@, JsonV::Str(w.max_expires_at@)),
        ("max_expires_in"@, JsonV::UInt(w.max_expires_in)),
    ]
}

/// The members that tell a session's credential and when it lapses.
pub open spec fn session_members(s: SessionGrant) -> Seq<(Seq<char>, JsonV)> {
    seq![
        ("session_credential"@, JsonV::Str(s.credential@)),
        ("session_prefix"@, JsonV::Str(s.prefix@)),
        ("expires_at"@, JsonV::Str(s.window.expires_at@)),
        ("expires_in"@, JsonV::UInt(s.window.expires_in)),
        ("max_expires_at"@, JsonV::Str(s.window.max_expires_at@)),
        ("max_expires_in"@, JsonV::UInt(s.window.max_expires_in)),
    ]
}

/// Every operation has its name on the wire, and is found under it.
pub proof fn law_operations_go_by_their_names()
    ensures
        ops::operation_named("inject_file"@) == Some(Operation::InjectFile),
        ops::operation_named("vault.status"@) == Some(Operation::VaultStatus),
        ops::operation_named("vault.lock"@) == Some(Operation::VaultLock),
        ops::operation_named("secrets.list"@) == Some(Operation::SecretsList),
        ops::operation_named("vault.unlock"@) == Some(Operation::VaultUnlock),
        ops::operation_named("vault.create"@) == Some(Operation::VaultCreate),
        ops::operation_named("project.add"@) == Some(Operation::ProjectAdd),
        ops::operation_named("project.list"@) == Some(Operation::ProjectList),
        ops::operation_named("project.path.add"@) == Some(Operation::ProjectPathAdd),
        ops::operation_named("project.path.remove"@) == Some(Operation::ProjectPathRemove),
        ops::operation_named("project.remove"@) == Some(Operation::ProjectRemove),
        ops::operation_named("secret.set"@) == Some(Operation::SecretSet),
        ops::operation_named("secret.delete"@) == Some(Operation::SecretDelete),
        ops::operation_named("agents.add"@) == Some(Operation::AgentsAdd),
        ops::operation_named("agents.revoke"@) == Some(Operation::AgentsRevoke),
        ops::operation_named("agents.list"@) == Some(Operation::AgentsList),
        ops::operation_named("grants.grant"@) == Some(Operation::GrantsGrant),
        ops::operation_named("grants.revoke"@) == Some(Operation::GrantsRevoke),
        ops::operation_named("grants.list"@) == Some(Operation::GrantsList),
        ops::operation_named("audit.show"@) == Some(Operation::AuditShow),
        ops::operation_named("audit.verify"@) == Some(Operation::AuditVerify),
        ops::operation_named("lease.create"@) == Some(Operation::LeaseCreate),
        ops::operation_named("lease.list"@) == Some(Operation::LeaseList),
        ops::operation_named("lease.revoke"@) == Some(Operation::LeaseRevoke),
        ops::operation_named("reveal"@) == Some(Operation::Reveal),
        ops::operation_named("approvals.status"@) == Some(Operation::ApprovalsStatus),
        ops::operation_named("approvals.pending"@) == Some(Operation::ApprovalsPending),
        ops::operation_named("approvals.approve"@) == Some(Operation::ApprovalsApprove),
        ops::operation_named("approvals.deny"@) == Some(Operation::ApprovalsDeny),
        ops::operation_named("run_signal"@) == Some(Operation::RunSignal),
        ops::operation_named("session.open"@) == Some(Operation::SessionOpen),
        ops::operation_named("session.touch"@) == Some(Operation::SessionTouch),
        ops::operation_named("session.close"@) == Some(Operation::SessionClose),
        ops::operation_named("runs.list"@) == Some(Operation::RunsList),
        ops::operation_named("vault.health"@) == Some(Operation::VaultHealth),
{
    ops::law_names_identify_operations("inject_file"@, Operation::InjectFile);
    ops::law_names_identify_operations("vault.status"@, Operation::VaultStatus);
    ops::law_names_identify_operations("vault.lock"@, Operation::VaultLock);
    ops::law_names_identify_operations("secrets.list"@, Operation::SecretsList);
    ops::law_names_identify_operations("vault.unlock"@, Operation::VaultUnlock);
    ops::law_names_identify_operations("vault.create"@, Operation::VaultCreate);
    ops::law_names_identify_operations("project.add"@, Operation::ProjectAdd);
    ops::law_names_identify_operations("project.list"@, Operation::ProjectList);
    ops::law_names_identify_operations("project.path.add"@, Operation::ProjectPathAdd);
    ops::law_names_identify_operations("project.path.remove"@, Operation::ProjectPathRemove);
    ops::law_names_identify_operations("project.remove"@, Operation::ProjectRemove);
    ops::law_names_identify_operations("secret.set"@, Operation::SecretSet);
    ops::law_names_identify_operations("secret.delete"@, Operation::SecretDelete);
    ops::law_names_identify_operations("agents.add"@, Operation::AgentsAdd);
    ops::law_names_identify_operations("agents.revoke"@, Operation::AgentsRevoke);
    ops::law_names_identify_operations("agents.list"@, Operation::AgentsList);
    ops::law_names_identify_operations("grants.grant"@, Operation::GrantsGrant);
    ops::law_names_identify_operations("grants.revoke"@, Operation::GrantsRevoke);
    ops::law_names_identify_operations("grants.list"@, Operation::GrantsList);
    ops::law_names_identify_operations("audit.show"@, Operation::AuditShow);
    ops::law_names_identify_operations("audit.verify"@, Operation::AuditVerify);
    ops::law_names_identify_operations("lease.create"@, Operation::LeaseCreate);
    ops::law_names_identify_operations("lease.list"@, Operation::LeaseList);
    ops::law_names_identify_operations("lease.revoke"@, Operation::LeaseRevoke);
    ops::law_names_identify_operations("reveal"@, Operation::Reveal);
    ops::law_names_identify_operations("approvals.status"@, Operation::ApprovalsStatus);
    ops::law_names_identify_operations("approvals.pending"@, Operation::ApprovalsPending);
    ops::law_names_identify_operations("approvals.approve"@, Operation::ApprovalsApprove);
    ops::law_names_identify_operations("approvals.deny"@, Operation::ApprovalsDeny);
    ops::law_names_identify_operations("run_signal"@, Operation::RunSignal);
    ops::law_names_identify_operations("session.open"@, Operation::SessionOpen);
    ops::law_names_identify_operations("session.touch"@, Operation::SessionTouch);
    ops::law_names_identify_operations("session.close"@, Operation::SessionClose);
    ops::law_names_identify_operations("runs.list"@, Operation::RunsList);
    ops::law_names_identify_operations("vault.health"@, Operation::VaultHealth);
}

/// Agents may ask for the public status, lock the vault, use and look up their own
/// leases and approvals, list and inject and reveal what they are granted, and signal
/// their runs. Everything else is the owner's.
pub proof fn law_the_owner_keeps_everything_else(op: Operation)
    ensures
        !op.is_human_only() <==> (op == Operation::InjectFile || op == Operation::VaultStatus || op
            == Operation::VaultLock || op == Operation::SecretsList || op == Operation::LeaseCreate
            || op == Operation::LeaseList || op == Operation::LeaseRevoke || op == Operation::Reveal
            || op == Operation::ApprovalsStatus || op == Operation::RunSignal),
{
}

/// A request that needs no parameter leads to the call of its own name, in the
/// name of whoever asks.
pub proof fn law_requests_without_parameters_ask_for_their_own(
    req: RequestV,
    ctx: ContextV,
)
    ensures
        req.op == "vault.status"@
            ==> asks(dispatch::first_step(req, ctx), CallV::Status { actor: ctx.actor }),
        req.op == "vault.lock"@
            ==> asks(dispatch::first_step(req, ctx), CallV::LockAndDrain { actor: ctx.actor }),
        req.op == "project.list"@
            ==> asks(dispatch::first_step(req, ctx), CallV::ProjectList { actor: ctx.actor }),
        req.op == "agents.list"@
            ==> asks(dispatch::first_step(req, ctx), CallV::AgentList { actor: ctx.actor }),
        req.op == "grants.list"@
            ==> asks(dispatch::first_step(req, ctx), CallV::GrantList { actor: ctx.actor }),
        req.op == "audit.verify"@ ==> asks(dispatch::first_step(req, ctx), CallV::AuditVerify),
        req.op == "approvals.pending"@
            ==> asks(dispatch::first_step(req, ctx), CallV::ApprovalPending { actor: ctx.actor }),
        req.op == "runs.list"@
            ==> asks(dispatch::first_step(req, ctx), CallV::ListRuns { actor: ctx.actor }),
        req.op == "vault.health"@
            ==> asks(dispatch::first_step(req, ctx), CallV::Health { actor: ctx.actor }),
{
    law_operations_go_by_their_names();
}

/// A change that the owner asks for reaches the project, the folder or the secret that
/// the request names, with the value that it carries, and the answer names it again.
pub proof fn law_changes_reach_what_the_request_names(
    req: RequestV,
    ctx: ContextV,
    a: Seq<char>,
    b: Seq<char>,
    c: Seq<char>,
)
    ensures
        req.op == "project.path.add"@
            && req.params.at("name"@) == JsonV::Str(a)
            && req.params.at("path"@) == JsonV::Str(b)
            ==> {
            let step = dispatch::first_step(req, ctx);
            asks(step, CallV::ProjectPathAdd { actor: ctx.actor, name: a, path: b }) && tells(
                after(req, ctx, step, Reply::Done),
                req,
                only("added"@, JsonV::Str(b)),
            )
        },
        req.op == "project.path.remove"@
            && req.params.at("name"@) == JsonV::Str(a)
            && req.params.at("path"@) == JsonV::Str(b)
            ==> {
            let step = dispatch::first_step(req, ctx);
            asks(step, CallV::ProjectPathRemove { actor: ctx.actor, name: a, path: b }) && tells(
                after(req, ctx, step, Reply::Done),
                req,
                only("removed"@, JsonV::Str(b)),
            )
        },
        req.op == "project.remove"@ && req.params.at("name"@) == JsonV::Str(a) ==> {
            let step = dispatch::first_step(req, ctx);
            asks(step, CallV::ProjectRemove { actor: ctx.actor, name: a }) && tells(
                after(req, ctx, step, Reply::Done),
                req,
                only("removed"@, JsonV::Str(a)),
            )
        },
        req.op == "secret.delete"@
            && req.params.at("project"@) == JsonV::Str(a)
            && req.params.at("key"@) == JsonV::Str(b)
            ==> {
            let step = dispatch::first_step(req, ctx);
            asks(step, CallV::SecretDelete { actor: ctx.actor, project: a, key: b }) && tells(
                after(req, ctx, step, Reply::Done),
                req,
                only("deleted"@, JsonV::Str(pair(a, b))),
            )
        },
        req.op == "secret.set"@
            && req.params.at("project"@) == JsonV::Str(a)
            && req.params.at("key"@) == JsonV::Str(b)
            && req.params.at("value"@) == JsonV::Str(c)
            ==> {
            let step = dispatch::first_step(req, ctx);
            asks(step, CallV::SecretSet { actor: ctx.actor, project: a, key: b, value: c }) && tells(
                after(req, ctx, step, Reply::Done),
                req,
                only("set"@, JsonV::Str(pair(a, b))),
            )
        },
{
    law_operations_go_by_their_names();
    lemma_only("added"@, JsonV::Str(b));
    lemma_only("removed"@, JsonV::Str(b));
    lemma_only("removed"@, JsonV::Str(a));
    lemma_only("deleted"@, JsonV::Str(pair(a, b)));
    lemma_only("set"@, JsonV::Str(pair(a, b)));
}

/// A request that lacks a parameter, or has another kind of value in its place, asks
/// for nothing.
pub proof fn law_missing_parameters_are_refused(
    req: RequestV,
    ctx: ContextV,
)
    ensures
        req.op == "project.add"@ && (!(req.params.at("name"@) is Str)) ==> refuses(
            dispatch::first_step(req, ctx),
            req,
            "E_INVALID_INPUT"@,
            "missing project name"@,
        ),
        req.op == "project.path.add"@
            && (!(req.params.at("name"@) is Str) || !(req.params.at("path"@) is Str))
            ==> refuses(
            dispatch::first_step(req, ctx),
            req,
            "E_INVALID_INPUT"@,
            "missing name or path"@,
        ),
        req.op == "project.path.remove"@
            && (!(req.params.at("name"@) is Str) || !(req.params.at("path"@) is Str))
            ==> refuses(
            dispatch::first_step(req, ctx),
            req,
            "E_INVALID_INPUT"@,
            "missing name or path"@,
        ),
        req.op == "project.remove"@ && (!(req.params.at("name"@) is Str)) ==> refuses(
            dispatch::first_step(req, ctx),
            req,
            "E_INVALID_INPUT"@,
            "missing name"@,
        ),
        req.op == "secret.set"@
            && (!(req.params.at("project"@) is Str) || !(req.params.at("key"@) is Str) || !(req.params.at("value"@) is Str))
            ==> refuses(
            dispatch::first_step(req, ctx),
            req,
            "E_INVALID_INPUT"@,
            "missing project, key or value"@,
        ),
        req.op == "secret.delete"@
            && (!(req.params.at("project"@) is Str) || !(req.params.at("key"@) is Str))
            ==> refuses(
            dispatch::first_step(req, ctx),
            req,
            "E_INVALID_INPUT"@,
            "missing project or key"@,
        ),
        req.op == "agents.add"@ && (!(req.params.at("name"@) is Str)) ==> refuses(
            dispatch::first_step(req, ctx),
            req,
            "E_INVALID_INPUT"@,
            "missing name"@,
        ),
        req.op == "agents.revoke"@ && (!(req.params.at("name"@) is Str)) ==> refuses(
            dispatch::first_step(req, ctx),
            req,
            "E_INVALID_INPUT"@,
            "missing name"@,
        ),
        req.op == "grants.grant"@
            && (!(req.params.at("agent"@) is Str) || !(req.params.at("project"@) is Str))
            ==> refuses(
            dispatch::first_step(req, ctx),
            req,
            "E_INVALID_INPUT"@,
            "missing agent or project"@,
        ),
        req.op == "grants.revoke"@
            && (!(req.params.at("agent"@) is Str) || !(req.params.at("project"@) is Str))
            ==> refuses(
            dispatch::first_step(req, ctx),
            req,
            "E_INVALID_INPUT"@,
            "missing agent or project"@,
        ),
        req.op == "lease.revoke"@ && (!(req.params.at("lease_id"@) is Str)) ==> refuses(
            dispatch::first_step(req, ctx),
            req,
            "E_INVALID_INPUT"@,
            "missing lease_id"@,
        ),
        req.op == "approvals.approve"@ && (!(req.params.at("approval_id"@) is Str)) ==> refuses(
            dispatch::first_step(req, ctx),
            req,
            "E_INVALID_INPUT"@,
            "missing approval_id"@,
        ),
        req.op == "approvals.deny"@ && (!(req.params.at("approval_id"@) is Str)) ==> refuses(
            dispatch::first_step(req, ctx),
            req,
            "E_INVALID_INPUT"@,
            "missing approval_id"@,
        ),
{
    law_operations_go_by_their_names();
}

/// A new project gets the name and exactly the folders that the request lists.
pub proof fn law_a_project_gets_its_folders(
    req: RequestV,
    ctx: ContextV,
    name: Seq<char>,
    paths: Seq<Seq<char>>,
)
    requires
        req.op == "project.add"@,
        req.params.at("name"@) == JsonV::Str(name),
        req.params.at("paths"@) == json::text_array(paths) || (req.params.at("paths"@) is Null && paths.len() == 0),
    ensures
        asks(dispatch::first_step(req, ctx), CallV::ProjectAdd { actor: ctx.actor, name, paths }),
        tells(
            after(req, ctx, dispatch::first_step(req, ctx), Reply::Done),
            req,
            only("added"@, JsonV::Str(name)),
        ),
{
    law_operations_go_by_their_names();
    lemma_texts_only(paths);
    assert(paths.len() == 0 ==> paths =~= Seq::empty());
    lemma_only("added"@, JsonV::Str(name));
}

/// An agent is added under the name that is given, and its owner gets the id and the
/// token once. An agent that is revoked loses its runs as well.
pub proof fn law_agents_are_added_and_revoked_by_name(
    req: RequestV,
    ctx: ContextV,
    name: Seq<char>,
    agent_id: String,
    token: String,
)
    requires
        req.params.at("name"@) == JsonV::Str(name),
    ensures
        req.op == "agents.add"@ ==> {
            let step = dispatch::first_step(req, ctx);
            &&& asks(step, CallV::AgentAdd { actor: ctx.actor, name })
            &&& tells(
                after(req, ctx, step, Reply::AgentAdded { agent_id, token }),
                req,
                JsonV::Object(
                    seq![("agent_id"@, JsonV::Str(agent_id@)), ("token"@, JsonV::Str(token@))],
                ),
            )
        },
        req.op == "agents.revoke"@ ==> {
            let step = dispatch::first_step(req, ctx);
            let ending = after(req, ctx, step, Reply::AgentId(agent_id));
            &&& asks(step, CallV::AgentRevoke { actor: ctx.actor, name })
            &&& asks(
                ending,
                CallV::TerminateRuns { actor: ctx.actor, agent: agent_id@, project: None },
            )
            &&& tells(
                after(req, ctx, ending, Reply::Done),
                req,
                only("revoked"@, JsonV::Str(name)),
            )
        },
{
    law_operations_go_by_their_names();
    lemma_only("revoked"@, JsonV::Str(name));
    let two = seq![("agent_id"@, JsonV::Str(agent_id@)), ("token"@, JsonV::Str(token@))];
    assert(json::empty_object().with("agent_id"@, JsonV::Str(agent_id@)).with(
        "token"@,
        JsonV::Str(token@),
    )->Object_0 =~= two);
}

/// A grant gives the named agent the operations that were read, on the named project.
/// An agent that could run there before and no longer may loses its runs there, and no
/// other agent does. A revoked grant ends the agent's runs on that project.
pub proof fn law_grants_hold_what_was_asked_for(
    req: RequestV,
    ctx: ContextV,
    agent: Seq<char>,
    project: Seq<char>,
    words: Vec<String>,
    could_run: Option<String>,
    agent_id: String,
)
    requires
        req.params.at("agent"@) == JsonV::Str(agent),
        req.params.at("project"@) == JsonV::Str(project),
    ensures
        req.op == "grants.grant"@ ==> {
            let step = dispatch::first_step(req, ctx);
            let read = after(req, ctx, step, Reply::Ops(words));
            let granted = after(req, ctx, read, Reply::Granted { could_run });
            let said = only("granted"@, JsonV::Str(pair(agent, project)));
            let keeps = exists|i: int| 0 <= i < words@.len() && (#[trigger] words@[i])@ == "run"@;
            &&& asks(
                step,
                CallV::ParseOps {
                    ops: match req.params.at("ops"@) {
                        JsonV::Str(s) => s,
                        _ => Seq::empty(),
                    },
                },
            )
            &&& asks(
                read,
                CallV::GrantAdd {
                    actor: ctx.actor,
                    agent,
                    project,
                    ops: Seq::new(words@.len(), |i: int| words@[i]@),
                },
            )
            &&& match could_run {
                Some(id) => if keeps {
                    tells(granted, req, said)
                } else {
                    &&& asks(
                        granted,
                        CallV::TerminateRuns {
                            actor: "human"@,
                            agent: id@,
                            project: Some(project),
                        },
                    )
                    &&& tells(after(req, ctx, granted, Reply::Done), req, said)
                },
                None => tells(granted, req, said),
            }
        },
        req.op == "grants.revoke"@ ==> {
            let step = dispatch::first_step(req, ctx);
            let ending = after(req, ctx, step, Reply::AgentId(agent_id));
            &&& asks(step, CallV::GrantRevoke { actor: ctx.actor, agent, project })
            &&& asks(
                ending,
                CallV::TerminateRuns {
                    actor: ctx.actor,
                    agent: agent_id@,
                    project: Some(project),
                },
            )
            &&& tells(
                after(req, ctx, ending, Reply::Done),
                req,
                only("revoked"@, JsonV::Str(pair(agent, project))),
            )
        },
{
    law_operations_go_by_their_names();
    lemma_only("granted"@, JsonV::Str(pair(agent, project)));
    lemma_only("revoked"@, JsonV::Str(pair(agent, project)));
    reveal_strlit("");
    assert(""@ =~= Seq::<char>::empty());
    let list = text::texts(words@);
    assert(list =~= Seq::new(words@.len(), |i: int| words@[i]@));
    assert(dispatch::allows_runs(list) <==> exists|i: int|
        0 <= i < words@.len() && (#[trigger] words@[i])@ == "run"@) by {
        if list.contains("run"@) {
            let i = choose|i: int| 0 <= i < list.len() && list[i] == "run"@;
            assert(words@[i]@ == "run"@);
        }
        if exists|i: int| 0 <= i < words@.len() && (#[trigger] words@[i])@ == "run"@ {
            let i = choose|i: int| 0 <= i < words@.len() && (#[trigger] words@[i])@ == "run"@;
            assert(list[i] == "run"@);
        }
    }
}

/// A lease is made for the agent that asks, on the project, the operations and the
/// window that it names. An agent sees and revokes its own leases alone, the owner any.
pub proof fn law_leases_are_their_agents_own(
    req: RequestV,
    ctx: ContextV,
    agent: Seq<char>,
    project: Seq<char>,
    ttl_secs: u64,
    lease_id: Seq<char>,
    words: Vec<String>,
)
    ensures
        req.op == "lease.create"@ && ctx.identity == IdentityV::Agent(agent) && req.params.at("project"@)
            == JsonV::Str(project) && req.params.at("ttl_secs"@) == JsonV::UInt(ttl_secs) ==> {
            let read = after(req, ctx, dispatch::first_step(req, ctx), Reply::Ops(words));
            &&& asks(
                dispatch::first_step(req, ctx),
                CallV::ParseOps {
                    ops: match req.params.at("ops"@) {
                        JsonV::Str(s) => s,
                        _ => Seq::empty(),
                    },
                },
            )
            &&& asks(
                read,
                CallV::LeaseCreate {
                    actor: ctx.actor,
                    agent,
                    project,
                    ops: Seq::new(words@.len(), |i: int| words@[i]@),
                    ttl_secs,
                },
            )
        },
        req.op == "lease.create"@ && !(ctx.identity is Agent) ==> refuses(
            dispatch::first_step(req, ctx),
            req,
            "E_AUTH"@,
            "lease.create requires agent credentials"@,
        ),
        req.op == "lease.list"@ ==> asks(
            dispatch::first_step(req, ctx),
            CallV::LeaseList {
                actor: ctx.actor,
                owner: match ctx.identity {
                    IdentityV::Agent(a) => Some(a),
                    _ => None,
                },
            },
        ),
        req.op == "lease.revoke"@ && req.params.at("lease_id"@) == JsonV::Str(lease_id) ==> {
            &&& asks(
                dispatch::first_step(req, ctx),
                CallV::LeaseRevoke {
                    actor: ctx.actor,
                    owner: match ctx.identity {
                        IdentityV::Agent(a) => Some(a),
                        _ => None,
                    },
                    lease_id,
                },
            )
            &&& tells(
                after(req, ctx, dispatch::first_step(req, ctx), Reply::Done),
                req,
                JsonV::Object(
                    seq![("lease_id"@, JsonV::Str(lease_id)), ("revoked"@, JsonV::Bool(true))],
                ),
            )
        },
{
    law_operations_go_by_their_names();
    reveal_strlit("");
    assert(""@ =~= Seq::<char>::empty());
    assert(text::texts(words@) =~= Seq::new(words@.len(), |i: int| words@[i]@));
    let two = seq![("lease_id"@, JsonV::Str(lease_id)), ("revoked"@, JsonV::Bool(true))];
    assert(json::empty_object().with("lease_id"@, JsonV::Str(lease_id)).with(
        "revoked"@,
        JsonV::Bool(true),
    )->Object_0 =~= two);
}

/// The decision on an approval is the one that was asked for, on the approval that was
/// named, and the answer says which one it was.
pub proof fn law_approvals_are_decided_as_asked(
    req: RequestV,
    ctx: ContextV,
    approval_id: Seq<char>,
)
    requires
        req.op == "approvals.approve"@ || req.op == "approvals.deny"@,
        req.params.at("approval_id"@) == JsonV::Str(approval_id),
    ensures
        asks(
            dispatch::first_step(req, ctx),
            CallV::ApprovalDecide {
                actor: ctx.actor,
                approval_id,
                approved: req.op == "approvals.approve"@,
            },
        ),
        tells(
            after(req, ctx, dispatch::first_step(req, ctx), Reply::Done),
            req,
            JsonV::Object(
                seq![
                    ("approval_id"@, JsonV::Str(approval_id)),
                    (
                        "status"@,
                        JsonV::Str(
                            if req.op == "approvals.approve"@ {
                                "approved"@
                            } else {
                                "denied"@
                            },
                        ),
                    ),
                ],
            ),
        ),
{
    law_operations_go_by_their_names();
    let word = if req.op == "approvals.approve"@ {
        "approved"@
    } else {
        "denied"@
    };
    let two = seq![("approval_id"@, JsonV::Str(approval_id)), ("status"@, JsonV::Str(word))];
    assert(json::empty_object().with("approval_id"@, JsonV::Str(approval_id)).with(
        "status"@,
        JsonV::Str(word),
    )->Object_0 =~= two);
}

/// An agent asks after an approval of its own, and is told its state, and what it is
/// for as far as that is still known. Nobody else asks that way.
pub proof fn law_agents_ask_after_their_own_approvals(
    req: RequestV,
    ctx: ContextV,
    agent: Seq<char>,
    approval_id: Seq<char>,
    status: String,
    facts: Option<ApprovalFacts>,
)
    requires
        req.op == "approvals.status"@,
    ensures
        ctx.identity == IdentityV::Agent(agent)
            && req.params.at("approval_id"@) == JsonV::Str(approval_id)
            ==> {
            &&& asks(dispatch::first_step(req, ctx), CallV::ApprovalStatus { agent, approval_id })
            &&& tells(
                after(req, ctx, dispatch::first_step(req, ctx), Reply::ApprovalStatus { status, facts }),
                req,
                JsonV::Object(approval_members(approval_id, status@, facts)),
            )
        },
        ctx.identity is Agent && !(req.params.at("approval_id"@) is Str) ==> refuses(
            dispatch::first_step(req, ctx),
            req,
            "E_INVALID_INPUT"@,
            "missing approval_id"@,
        ),
        !(ctx.identity is Agent) ==> refuses(
            dispatch::first_step(req, ctx),
            req,
            "E_AUTH"@,
            "approvals.status requires agent credentials"@,
        ),
{
    law_operations_go_by_their_names();
    if ctx.identity == IdentityV::Agent(agent) && req.params.at("approval_id"@) == JsonV::Str(
        approval_id,
    ) {
        assert(dispatch::approval_value(approval_id, status@, facts)->Object_0
            =~= approval_members(approval_id, status@, facts));
    }
}

/// The owner reveals the secret that the request names, and gets its text; one that is
/// no text is refused. An approval is nothing that the owner needs.
pub proof fn law_the_owner_reveals_directly(
    req: RequestV,
    ctx: ContextV,
    project: Seq<char>,
    key: Seq<char>,
    bytes: Vec<u8>,
)
    requires
        req.op == "reveal"@,
        ctx.identity is Human,
        req.params.at("project"@) == JsonV::Str(project),
        req.params.at("key"@) == JsonV::Str(key),
    ensures
        req.params.at("approval_id"@) is Null ==> {
            let step = dispatch::first_step(req, ctx);
            let told = after(req, ctx, step, Reply::Secret(bytes));
            &&& asks(step, CallV::RevealHuman { actor: ctx.actor, project, key })
            &&& vstd::utf8::valid_utf8(bytes@) ==> tells(
                told,
                req,
                only("value"@, JsonV::Str(vstd::utf8::decode_utf8(bytes@))),
            )
            &&& !vstd::utf8::valid_utf8(bytes@) ==> refuses(
                told,
                req,
                "E_INVALID_INPUT"@,
                "secret is not valid UTF-8"@,
            )
        },
        !(req.params.at("approval_id"@) is Null) ==> refuses(
            dispatch::first_step(req, ctx),
            req,
            "E_INVALID_INPUT"@,
            "human reveal takes no approval_id"@,
        ),
{
    law_operations_go_by_their_names();
    lemma_only("value"@, JsonV::Str(vstd::utf8::decode_utf8(bytes@)));
}

/// An agent that may reveal in the project claims the approval that it names, or is
/// told which approval it has to wait for. The secret, the project and the agent are
/// those of the request, and its lease is checked where it presents one.
pub proof fn law_an_agent_reveals_by_approval(
    req: RequestV,
    ctx: ContextV,
    agent: Seq<char>,
    project: Seq<char>,
    key: Seq<char>,
    actor: String,
    bytes: Vec<u8>,
    id: String,
    expires_in: i64,
)
    requires
        req.op == "reveal"@,
        ctx.identity == IdentityV::Agent(agent),
        req.params.at("project"@) == JsonV::Str(project),
        req.params.at("key"@) == JsonV::Str(key),
        req.params is Object,
        req.params.at("lease_id"@) is Null,
        req.params.at("lease"@) is Null || (req.params.at("lease"@) matches JsonV::Str(s) && s.len() > 0),
    ensures
        ({
            let step = dispatch::first_step(req, ctx);
            let allowed = after(req, ctx, step, Reply::Actor(actor));
            &&& asks(
                step,
                CallV::AuthorizeLease {
                    agent,
                    project,
                    need: Need::Reveal,
                    credential: match req.params.at("lease"@) {
                        JsonV::Str(s) => Some(s),
                        _ => None,
                    },
                },
            )
            &&& match req.params.at("approval_id"@) {
                JsonV::Str(approval_id) => {
                    &&& asks(
                        allowed,
                        CallV::RevealClaim { actor: actor@, agent, project, key, approval_id },
                    )
                    &&& vstd::utf8::valid_utf8(bytes@) ==> tells(
                        after(req, ctx, allowed, Reply::Secret(bytes)),
                        req,
                        only("value"@, JsonV::Str(vstd::utf8::decode_utf8(bytes@))),
                    )
                },
                _ => {
                    let told = after(req, ctx, allowed, Reply::Approval { id, expires_in });
                    &&& asks(
                        allowed,
                        CallV::RequestApproval { actor: actor@, agent, project, key },
                    )
                    &&& told == (StepV::Answer {
                        trace: TraceV::Nothing,
                        response: wire::err_data_response(
                            req.id,
                            "E_APPROVAL_PENDING"@,
                            "approval pending"@,
                            JsonV::Object(
                                seq![
                                    ("approval_id"@, JsonV::Str(id@)),
                                    (
                                        "expires_in"@,
                                        JsonV::UInt(
                                            if expires_in > 0 {
                                                expires_in as u64
                                            } else {
                                                0
                                            },
                                        ),
                                    ),
                                ],
                            ),
                        ),
                    })
                },
            }
        }),
{
    law_operations_go_by_their_names();
    lemma_only("value"@, JsonV::Str(vstd::utf8::decode_utf8(bytes@)));
    let n = rows::remaining(expires_in);
    let two = seq![("approval_id"@, JsonV::Str(id@)), ("expires_in"@, JsonV::UInt(n))];
    assert(json::empty_object().with("approval_id"@, JsonV::Str(id@)).with(
        "expires_in"@,
        JsonV::UInt(n),
    )->Object_0 =~= two);
}

/// A reveal without an identity, a project or a key asks for nothing, and neither does
/// an agent's with a lease that is no credential.
pub proof fn law_reveals_need_someone(
    req: RequestV,
    ctx: ContextV,
)
    requires
        req.op == "reveal"@,
    ensures
        ctx.identity is Unauthenticated ==> refuses(
            dispatch::first_step(req, ctx),
            req,
            "E_AUTH"@,
            "reveal requires agent credentials"@,
        ),
        ctx.identity is Agent && !(req.params.at("project"@) is Str) ==> refuses(
            dispatch::first_step(req, ctx),
            req,
            "E_INVALID_INPUT"@,
            "missing project"@,
        ),
        ctx.identity is Agent && req.params.at("project"@) is Str && !(req.params.at("key"@) is Str)
            ==> refuses(
            dispatch::first_step(req, ctx),
            req,
            "E_INVALID_INPUT"@,
            "missing key"@,
        ),
        ctx.identity is Agent
            && !(req.params.at("lease"@) is Null || req.params.at("lease"@) is Str)
            ==> dispatch::first_step(req, ctx) is Answer,
        ctx.identity is Agent && !(req.params.at("lease_id"@) is Null)
            ==> dispatch::first_step(req, ctx) is Answer,
{
    law_operations_go_by_their_names();
}

/// An injection writes exactly the named keys, in their order, to the path and from the
/// project that the request names; every key where it names none, and nothing where the
/// names are malformed. The grant, or the lease that is presented, is checked first.
pub proof fn law_an_injection_gets_exactly_the_named_keys(
    req: RequestV,
    ctx: ContextV,
    agent: Seq<char>,
    project: Seq<char>,
    path: Seq<char>,
    actor: String,
)
    requires
        req.op == "inject_file"@,
        ctx.identity == IdentityV::Agent(agent),
        !ctx.locked,
        req.params.at("project"@) == JsonV::Str(project),
        req.params.at("path"@) == JsonV::Str(path),
        req.params is Object,
        req.params.at("lease_id"@) is Null,
        req.params.at("lease"@) is Null || (req.params.at("lease"@) matches JsonV::Str(s) && s.len() > 0),
    ensures
        asks(
            dispatch::first_step(req, ctx),
            CallV::AuthorizeLease {
                agent,
                project,
                need: Need::Inject,
                credential: match req.params.at("lease"@) {
                        JsonV::Str(s) => Some(s),
                        _ => None,
                    },
            },
        ),
        ({
            let allowed = after(req, ctx, dispatch::first_step(req, ctx), Reply::Actor(actor));
            match req.params.at("keys"@) {
                JsonV::Null => asks(
                    allowed,
                    CallV::InjectFile { actor: actor@, project, path, keys: None },
                ),
                JsonV::Array(items) => if forall|i: int|
                    0 <= i < items.len() ==> #[trigger] items[i] is Str {
                    allowed matches StepV::Ask { call, .. } && call matches Call::InjectFile {
                        actor: a,
                        project: q,
                        path: p,
                        keys,
                    } && a == actor@ && q == project && p == path && (keys matches Some(k)
                        && k.len() == items.len() && forall|i: int|
                        0 <= i < items.len() ==> items[i] == JsonV::Str(#[trigger] k[i]))
                } else {
                    refuses(
                        allowed,
                        req,
                        "E_INVALID_INPUT"@,
                        "keys must be an array of strings"@,
                    )
                },
                _ => refuses(
                    allowed,
                    req,
                    "E_INVALID_INPUT"@,
                    "keys must be an array of strings"@,
                ),
            }
        }),
{
    law_operations_go_by_their_names();
}

/// An injection is answered with the path and the names of the keys that were written.
pub proof fn law_an_injection_tells_what_was_written(
    req: RequestV,
    ctx: ContextV,
    agent: Seq<char>,
    project: Seq<char>,
    path: Seq<char>,
    actor: String,
    written: String,
    keys: Vec<String>,
)
    requires
        req.op == "inject_file"@,
        ctx.identity == IdentityV::Agent(agent),
        !ctx.locked,
        req.params.at("project"@) == JsonV::Str(project),
        req.params.at("path"@) == JsonV::Str(path),
        req.params.at("keys"@) is Null,
        req.params is Object,
        req.params.at("lease_id"@) is Null,
        req.params.at("lease"@) is Null || (req.params.at("lease"@) matches JsonV::Str(s) && s.len() > 0),
    ensures
        tells(
            after(
                req,
                ctx,
                after(req, ctx, dispatch::first_step(req, ctx), Reply::Actor(actor)),
                Reply::Injected { path: written, keys },
            ),
            req,
            JsonV::Object(
                seq![
                    ("path"@, JsonV::Str(written@)),
                    ("count"@, JsonV::UInt(keys@.len() as u64)),
                    (
                        "keys"@,
                        JsonV::Array(Seq::new(keys@.len(), |i: int| JsonV::Str(keys@[i]@))),
                    ),
                ],
            ),
        ),
{
    law_operations_go_by_their_names();
    let names = Seq::new(keys@.len(), |i: int| JsonV::Str(keys@[i]@));
    assert(json::text_array(text::texts(keys@))->Array_0 =~= names);
    let three = seq![
        ("path"@, JsonV::Str(written@)),
        ("count"@, JsonV::UInt(keys@.len() as u64)),
        ("keys"@, JsonV::Array(names)),
    ];
    assert(json::empty_object().with("path"@, JsonV::Str(written@)).with(
        "count"@,
        JsonV::UInt(keys@.len() as u64),
    ).with("keys"@, JsonV::Array(names))->Object_0 =~= three);
}

/// Nobody but an agent injects, and nothing is injected on a locked vault, without a
/// project or a path, or with a lease that is no credential. Such a refusal names the
/// operation and the project in the log.
pub proof fn law_injections_are_for_agents_on_an_open_vault(
    req: RequestV,
    ctx: ContextV,
)
    requires
        req.op == "inject_file"@,
    ensures
        !(ctx.identity is Agent) ==> dispatch::first_step(req, ctx) == (StepV::Answer {
            trace: TraceV::Denied(
                DenialV {
                    actor: ctx.actor,
                    op: "inject_file"@,
                    project: None,
                    reason: "E_AUTH"@,
                },
            ),
            response: wire::err_response(
                req.id,
                "E_AUTH"@,
                "inject_file requires agent credentials"@,
            ),
        }),
        ctx.identity is Agent
            && ctx.locked
            && req.params.at("project"@) is Str
            && req.params.at("path"@) is Str
            ==> dispatch::first_step(req, ctx)
            == (StepV::Answer {
            trace: TraceV::Denied(
                DenialV {
                    actor: ctx.actor,
                    op: "inject_file"@,
                    project: Some(req.params.at("project"@)->Str_0),
                    reason: "E_LOCKED"@,
                },
            ),
            response: wire::err_response(req.id, "E_LOCKED"@, "vault is locked"@),
        }),
        !(req.params.at("project"@) is Str) || !(req.params.at("path"@) is Str)
            ==> dispatch::first_step(req, ctx) is Answer,
        !(req.params.at("lease_id"@) is Null) ==> dispatch::first_step(req, ctx) is Answer,
        !(req.params.at("lease"@) is Null || req.params.at("lease"@) is Str)
            ==> dispatch::first_step(req, ctx) is Answer,
{
    law_operations_go_by_their_names();
}

/// The owner lists the names of the project that the request names; an agent does so
/// only on an open vault and after its grant or lease was checked for reading.
pub proof fn law_listings_stay_in_the_project(
    req: RequestV,
    ctx: ContextV,
    agent: Seq<char>,
    project: Seq<char>,
    actor: String,
    rows: Vec<rows::SecretRow>,
)
    requires
        req.op == "secrets.list"@,
        req.params.at("project"@) == JsonV::Str(project),
    ensures
        !(ctx.identity is Agent)
            ==> asks(dispatch::first_step(req, ctx), CallV::SecretList { project, actor: ctx.actor }),
        ctx.identity == IdentityV::Agent(agent)
            && !ctx.locked
            && (req.params is Object)
            && (req.params.at("lease_id"@) is Null)
            && (req.params.at("lease"@) is Null || (req.params.at("lease"@) matches JsonV::Str(s)
            && s.len() > 0))
            ==> {
            let allowed = after(req, ctx, dispatch::first_step(req, ctx), Reply::Actor(actor));
            &&& asks(
                dispatch::first_step(req, ctx),
                CallV::AuthorizeLease {
                    agent,
                    project,
                    need: Need::Read,
                    credential: match req.params.at("lease"@) {
                        JsonV::Str(s) => Some(s),
                        _ => None,
                    },
                },
            )
            &&& asks(allowed, CallV::SecretList { project, actor: actor@ })
        },
        ctx.identity is Agent && ctx.locked ==> dispatch::first_step(req, ctx) == (StepV::Answer {
            trace: TraceV::Denied(
                DenialV {
                    actor: ctx.actor,
                    op: "secrets.list"@,
                    project: Some(project),
                    reason: "E_LOCKED"@,
                },
            ),
            response: wire::err_response(req.id, "E_LOCKED"@, "vault is locked"@),
        }),
{
    law_operations_go_by_their_names();
}

/// A signal goes to the run that the agent names and that is its own, once the vault is
/// open, the grant holds, the signal has a number and the run is still the same. It is
/// recorded, and only then is it acknowledged.
pub proof fn law_a_signal_reaches_the_agents_own_run(
    req: RequestV,
    ctx: ContextV,
    agent: Seq<char>,
    run_id: Seq<char>,
    signal: Seq<char>,
    project: String,
    pgid: i32,
    number: i32,
)
    requires
        req.op == "run_signal"@,
        ctx.identity == IdentityV::Agent(agent),
        req.params.at("run_id"@) == JsonV::Str(run_id),
        req.params.at("signal"@) == JsonV::Str(signal),
    ensures
        ({
            let s1 = dispatch::first_step(req, ctx);
            let s2 = after(req, ctx, s1, Reply::Run { project, pgid });
            let s3 = after(req, ctx, s2, Reply::RunGate { unlocked: true, authorized: true });
            let s4 = after(req, ctx, s3, Reply::Signal(number));
            let s5 = after(req, ctx, s4, Reply::Run { project, pgid });
            let s6 = after(req, ctx, s5, Reply::Done);
            let s7 = after(req, ctx, s6, Reply::Done);
            &&& asks(s1, CallV::FindRun { agent, run_id })
            &&& asks(s2, CallV::RunGate { agent, project: project@ })
            &&& asks(s3, CallV::ParseSignal { signal })
            &&& asks(s4, CallV::FindRun { agent, run_id })
            &&& asks(s5, CallV::SignalGroup { pgid, signal: number })
            &&& asks(
                s6,
                CallV::RecordSignal { actor: ctx.actor, project: project@, run_id },
            )
            &&& tells(
                s7,
                req,
                JsonV::Object(
                    seq![("run_id"@, JsonV::Str(run_id)), ("signaled"@, JsonV::Bool(true))],
                ),
            )
        }),
{
    law_operations_go_by_their_names();
    let two = seq![("run_id"@, JsonV::Str(run_id)), ("signaled"@, JsonV::Bool(true))];
    assert(json::empty_object().with("run_id"@, JsonV::Str(run_id)).with(
        "signaled"@,
        JsonV::Bool(true),
    )->Object_0 =~= two);
}

/// A run that is not there, or no longer the same, is answered as not found; a locked
/// vault, a lost grant, an unknown signal and a signal that failed are recorded against
/// the run, and a sent signal that cannot be recorded is told as such.
pub proof fn law_a_refused_signal_is_recorded(
    req: RequestV,
    ctx: ContextV,
    agent: Seq<char>,
    run_id: Seq<char>,
    signal: Seq<char>,
    project: String,
    pgid: i32,
    number: i32,
    other: String,
    other_pgid: i32,
    code: String,
    msg: String,
)
    requires
        req.op == "run_signal"@,
        ctx.identity == IdentityV::Agent(agent),
        req.params.at("run_id"@) == JsonV::Str(run_id),
        req.params.at("signal"@) == JsonV::Str(signal),
    ensures
        ({
            let s1 = dispatch::first_step(req, ctx);
            let s2 = after(req, ctx, s1, Reply::Run { project, pgid });
            let s3 = after(req, ctx, s2, Reply::RunGate { unlocked: true, authorized: true });
            let s4 = after(req, ctx, s3, Reply::Signal(number));
            let s5 = after(req, ctx, s4, Reply::Run { project, pgid });
            let s6 = after(req, ctx, s5, Reply::Done);
            let missing = StepV::Answer {
                trace: TraceV::Denied(
                    DenialV {
                        actor: ctx.actor,
                        op: "run_signal"@,
                        project: None,
                        reason: "E_NOT_FOUND"@,
                    },
                ),
                response: wire::err_response(req.id, "E_NOT_FOUND"@, "not found"@),
            };
            let denied = |reason: Seq<char>, why: Seq<char>|
                StepV::Answer {
                    trace: TraceV::SignalDenied {
                        actor: ctx.actor,
                        project: project@,
                        run_id,
                        reason,
                    },
                    response: wire::err_response(req.id, reason, why),
                };
            let failed = Reply::Failed { code, msg };
            &&& after(req, ctx, s1, Reply::NoRun) == missing
            &&& after(req, ctx, s4, Reply::NoRun) == missing
            &&& (other@ != project@ || other_pgid != pgid) ==> after(
                req,
                ctx,
                s4,
                Reply::Run { project: other, pgid: other_pgid },
            ) == missing
            &&& after(req, ctx, s2, Reply::RunGate { unlocked: false, authorized: true })
                == denied("E_LOCKED"@, "vault is locked"@)
            &&& after(req, ctx, s2, Reply::RunGate { unlocked: true, authorized: false })
                == denied("E_PERMISSION"@, "permission denied"@)
            &&& after(req, ctx, s3, failed) == denied(code@, msg@)
            &&& after(req, ctx, s5, failed) == denied(code@, "signal failed"@)
            &&& refuses(after(req, ctx, s6, failed), req, "E_AUDIT_WRITE"@, "audit write failed"@)
        }),
{
    law_operations_go_by_their_names();
}

/// Nobody but an agent signals a run, and a signal without a run or a name asks for
/// nothing. Either refusal is recorded.
pub proof fn law_signals_are_for_agents(
    req: RequestV,
    ctx: ContextV,
)
    requires
        req.op == "run_signal"@,
    ensures
        !(ctx.identity is Agent) ==> refuses(
            dispatch::first_step(req, ctx),
            req,
            "E_AUTH"@,
            "run_signal requires agent credentials"@,
        ),
        ctx.identity is Agent && !(req.params.at("run_id"@) is Str) ==> refuses(
            dispatch::first_step(req, ctx),
            req,
            "E_INVALID_INPUT"@,
            "missing run_id"@,
        ),
        ctx.identity is Agent
            && req.params.at("run_id"@) is Str
            && !(req.params.at("signal"@) is Str)
            ==> refuses(
            dispatch::first_step(req, ctx),
            req,
            "E_INVALID_INPUT"@,
            "missing signal"@,
        ),
        dispatch::first_step(req, ctx) is Answer
            ==> (dispatch::first_step(req, ctx) matches StepV::Answer { trace, .. } && trace matches TraceV::Denied(
            d,
        ) && d.actor == ctx.actor && d.op == "run_signal"@),
{
    law_operations_go_by_their_names();
}

/// A proven passphrase unlocks the vault and opens a session with it, whose credential
/// and window are told. Without a proof nothing is unlocked and no session is opened,
/// and a session does neither.
pub proof fn law_the_passphrase_opens_vault_and_session(
    req: RequestV,
    ctx: ContextV,
    s: SessionGrant,
    ttl_secs: u64,
)
    ensures
        req.op == "vault.unlock"@ && req.auth.session is None && ctx.proven ==> {
            let s1 = dispatch::first_step(req, ctx);
            let s2 = after(req, ctx, s1, Reply::Done);
            &&& asks(s1, CallV::Unlock)
            &&& asks(s2, CallV::OpenSession { actor: ctx.actor, ttl_secs: None })
            &&& tells(
                after(req, ctx, s2, Reply::Session(s)),
                req,
                JsonV::Object(
                    seq![("unlocked"@, JsonV::Bool(true))] + session_members(s),
                ),
            )
        },
        req.op == "session.open"@ && req.auth.session is None && ctx.proven ==> {
            &&& req.params.at("ttl_secs"@) is Null ==> asks(
                dispatch::first_step(req, ctx),
                CallV::OpenSession { actor: ctx.actor, ttl_secs: None },
            )
            &&& req.params.at("ttl_secs"@) == JsonV::UInt(ttl_secs) ==> asks(
                dispatch::first_step(req, ctx),
                CallV::OpenSession { actor: ctx.actor, ttl_secs: Some(ttl_secs) },
            ) && tells(
                after(req, ctx, dispatch::first_step(req, ctx), Reply::Session(s)),
                req,
                JsonV::Object(session_members(s)),
            )
            &&& !(req.params.at("ttl_secs"@) is Null || req.params.at("ttl_secs"@) is UInt) ==> refuses(
                dispatch::first_step(req, ctx),
                req,
                "E_INVALID_INPUT"@,
                "invalid ttl_secs"@,
            )
        },
        (req.op == "vault.unlock"@ || req.op == "session.open"@) && req.auth.session is None
            && !ctx.proven ==> refuses(dispatch::first_step(req, ctx), req, "E_AUTH"@, "authentication failed"@),
        (req.op == "vault.unlock"@ || req.op == "session.open"@) && req.auth.session is Some
            ==> refuses(dispatch::first_step(req, ctx), req, "E_SESSION_EXPIRED"@, "session expired or revoked"@),
{
    law_operations_go_by_their_names();
    let base = json::empty_object();
    let head = base.with("unlocked"@, JsonV::Bool(true));
    assert(dispatch::with_session(base, s)->Object_0 =~= session_members(s));
    assert(dispatch::with_session(head, s)->Object_0 =~= seq![("unlocked"@, JsonV::Bool(true))]
        + session_members(s));
}

/// A session is prolonged and closed by its own credential.
pub proof fn law_sessions_are_touched_and_closed_by_their_credential(
    req: RequestV,
    ctx: ContextV,
    credential: Seq<char>,
    window: SessionWindow,
)
    ensures
        req.op == "session.touch"@ && req.auth.session == Some(credential) ==> {
            &&& asks(dispatch::first_step(req, ctx), CallV::TouchSession { credential })
            &&& tells(
                after(req, ctx, dispatch::first_step(req, ctx), Reply::Window(window)),
                req,
                JsonV::Object(window_members(window)),
            )
        },
        req.op == "session.close"@ && req.auth.session == Some(credential) ==> {
            &&& asks(dispatch::first_step(req, ctx), CallV::CloseSession { credential })
            &&& tells(
                after(req, ctx, dispatch::first_step(req, ctx), Reply::Done),
                req,
                only("closed"@, JsonV::Bool(true)),
            )
        },
        (req.op == "session.touch"@ || req.op == "session.close"@) && req.auth.session is None
            ==> refuses(dispatch::first_step(req, ctx), req, "E_SESSION_EXPIRED"@, "session expired or revoked"@),
{
    law_operations_go_by_their_names();
    lemma_only("closed"@, JsonV::Bool(true));
    assert(dispatch::with_window(json::empty_object(), window)->Object_0 =~= window_members(window));
}

/// A page of the log has as many entries as asked for, twenty where no number is given,
/// and ends before the entry that is named. No page is empty or longer than a thousand.
pub proof fn law_a_page_of_the_log_is_the_one_asked_for(
    req: RequestV,
    ctx: ContextV,
    tail: u64,
    lines: Vec<AuditLine>,
    next: Option<u64>,
)
    requires
        req.op == "audit.show"@,
    ensures
        (req.params.get("tail"@) == Some(JsonV::UInt(tail)) && 1 <= tail <= 1000) || (req.params.get(
            "tail"@,
        ) is None && tail == 20) ==> match req.params.at("before_seq"@) {
            JsonV::Null => asks(
                dispatch::first_step(req, ctx),
                CallV::AuditPage { actor: ctx.actor, tail, before_seq: None },
            ),
            JsonV::UInt(n) => asks(
                dispatch::first_step(req, ctx),
                CallV::AuditPage { actor: ctx.actor, tail, before_seq: Some(n) },
            ),
            _ => refuses(dispatch::first_step(req, ctx), req, "E_INVALID_INPUT"@, "invalid before_seq"@),
        },
        (match req.params.get("tail"@) {
            None => false,
            Some(JsonV::UInt(n)) => n < 1 || n > 1000,
            Some(_) => true,
        })
            ==> refuses(dispatch::first_step(req, ctx), req, "E_INVALID_INPUT"@, "tail must be 1..=1000"@),
        dispatch::first_step(req, ctx) is Ask ==> tells(
            after(req, ctx, dispatch::first_step(req, ctx), Reply::AuditPage { lines, next_before_seq: next }),
            req,
            page_of(lines@, next),
        ),
{
    law_operations_go_by_their_names();
    assert(dispatch::line_values(lines@)->Array_0 =~= entries_of(lines@)->Array_0);
    assert(json::empty_object().with("entries"@, entries_of(lines@)).with(
        "next_before_seq"@,
        json::uint_or_null(next),
    )->Object_0 =~= page_of(lines@, next)->Object_0);
}

/// What the session read is what is answered: the state of the vault, the counts of a
/// verified log, the health, a new lease with its credential, and the rows of a list
/// under the list's own name.
pub proof fn law_reads_are_answered_with_what_was_read(
    req: RequestV,
    ctx: ContextV,
    version: u64,
    created: String,
    locked: bool,
    entries: u64,
    verified: u64,
    unkeyed: u64,
    health: json::Json,
)
    ensures
        req.op == "vault.status"@ ==> tells(
            after(req, ctx, dispatch::first_step(req, ctx), Reply::Status { version, created, locked }),
            req,
            JsonV::Object(
                seq![
                    ("version"@, JsonV::UInt(version)),
                    ("created"@, JsonV::Str(created@)),
                    ("locked"@, JsonV::Bool(locked)),
                ],
            ),
        ),
        req.op == "vault.lock"@ ==> tells(
            after(req, ctx, dispatch::first_step(req, ctx), Reply::Done),
            req,
            only("locked"@, JsonV::Bool(true)),
        ),
        req.op == "audit.verify"@ ==> tells(
            after(
                req,
                ctx,
                dispatch::first_step(req, ctx),
                Reply::Verified { entries, macs_verified: verified, macs_null: unkeyed },
            ),
            req,
            JsonV::Object(
                seq![
                    ("entries"@, JsonV::UInt(entries)),
                    ("macs_verified"@, JsonV::UInt(verified)),
                    ("macs_null"@, JsonV::UInt(unkeyed)),
                ],
            ),
        ),
        req.op == "vault.health"@ ==> tells(
            after(req, ctx, dispatch::first_step(req, ctx), Reply::Health(health)),
            req,
            health@,
        ),
{
    law_operations_go_by_their_names();
    lemma_only("locked"@, JsonV::Bool(true));
    let status = seq![
        ("version"@, JsonV::UInt(version)),
        ("created"@, JsonV::Str(created@)),
        ("locked"@, JsonV::Bool(locked)),
    ];
    assert(json::empty_object().with("version"@, JsonV::UInt(version)).with(
        "created"@,
        JsonV::Str(created@),
    ).with("locked"@, JsonV::Bool(locked))->Object_0 =~= status);
    let counts = seq![
        ("entries"@, JsonV::UInt(entries)),
        ("macs_verified"@, JsonV::UInt(verified)),
        ("macs_null"@, JsonV::UInt(unkeyed)),
    ];
    assert(json::empty_object().with("entries"@, JsonV::UInt(entries)).with(
        "macs_verified"@,
        JsonV::UInt(verified),
    ).with("macs_null"@, JsonV::UInt(unkeyed))->Object_0 =~= counts);
}

/// What the session refuses is refused with its own code and sentence, whatever the
/// operation, from its first call on.
pub proof fn law_failures_are_told_as_they_are(
    req: RequestV,
    ctx: ContextV,
    code: String,
    msg: String,
)
    requires
        dispatch::first_step(req, ctx) is Ask,
        req.op != "run_signal"@,
    ensures
        refuses(
            after(req, ctx, dispatch::first_step(req, ctx), Reply::Failed { code, msg }),
            req,
            code@,
            msg@,
        ),
{
    law_operations_go_by_their_names();
    ops::law_names_identify_operations(req.op, Operation::RunSignal);
}

/// A name that no operation has asks for nothing, and a vault is not created twice.
pub proof fn law_unknown_operations_are_refused(
    req: RequestV,
    ctx: ContextV,
)
    ensures
        ops::operation_named(req.op) is None ==> refuses(
            dispatch::first_step(req, ctx),
            req,
            "E_PROTOCOL"@,
            "unknown op: "@ + req.op,
        ),
        req.op == "vault.create"@ ==> refuses(
            dispatch::first_step(req, ctx),
            req,
            "E_EXISTS"@,
            "vault already exists"@,
        ),
{
    law_operations_go_by_their_names();
}

/// A list is told under its own name, with every row that was read.
pub proof fn law_lists_are_told_under_their_names(
    req: RequestV,
    ctx: ContextV,
    stage: dispatch::Stage<Seq<char>>,
    reply: Reply,
)
    requires
        ops::operation_named(req.op) is Some,
        stage == dispatch::Stage::<Seq<char>>::Finish(ops::operation_named(req.op)->0),
    ensures
        ({
            let step = dispatch::next_step(req, ctx, stage, reply);
            match reply {
                Reply::Secrets(all) => req.op == "secrets.list"@ ==> tells(
                    step,
                    req,
                    only("secrets"@, rows::secret_values(all@)),
                ),
                Reply::Projects(all) => req.op == "project.list"@ ==> tells(
                    step,
                    req,
                    only("projects"@, rows::project_values(all@)),
                ),
                Reply::Agents(all) => req.op == "agents.list"@ ==> tells(
                    step,
                    req,
                    only("agents"@, rows::agent_values(all@)),
                ),
                Reply::Grants(all) => req.op == "grants.list"@ ==> tells(
                    step,
                    req,
                    only("grants"@, rows::grant_values(all@)),
                ),
                Reply::Leases(all) => req.op == "lease.list"@ ==> tells(
                    step,
                    req,
                    only("leases"@, rows::lease_values(all@)),
                ),
                Reply::Approvals(all) => req.op == "approvals.pending"@ ==> tells(
                    step,
                    req,
                    only("approvals"@, rows::approval_values(all@)),
                ),
                Reply::Runs(all) => req.op == "runs.list"@ ==> tells(
                    step,
                    req,
                    only("runs"@, rows::sorted_runs(all@)),
                ),
                _ => true,
            }
        }),
{
    law_operations_go_by_their_names();
    match reply {
        Reply::Secrets(all) => {
            lemma_only("secrets"@, rows::secret_values(all@));
        },
        Reply::Projects(all) => {
            lemma_only("projects"@, rows::project_values(all@));
        },
        Reply::Agents(all) => {
            lemma_only("agents"@, rows::agent_values(all@));
        },
        Reply::Grants(all) => {
            lemma_only("grants"@, rows::grant_values(all@));
        },
        Reply::Leases(all) => {
            lemma_only("leases"@, rows::lease_values(all@));
        },
        Reply::Approvals(all) => {
            lemma_only("approvals"@, rows::approval_values(all@));
        },
        Reply::Runs(all) => {
            lemma_only("runs"@, rows::sorted_runs(all@));
        },
        _ => {},
    }
}

/// A new lease is told once with its credential, and with the time that was asked for.
pub proof fn law_a_new_lease_is_told_in_full(
    req: RequestV,
    ctx: ContextV,
    ttl_secs: u64,
    id: String,
    prefix: String,
    credential: String,
    expires_at: String,
)
    requires
        req.op == "lease.create"@,
        req.params.at("ttl_secs"@) == JsonV::UInt(ttl_secs),
    ensures
        tells(
            dispatch::last_step(
                req,
                Operation::LeaseCreate,
                Reply::Leased { id, prefix, credential, expires_at },
            ),
            req,
            JsonV::Object(
                seq![
                    ("lease_id"@, JsonV::Str(id@)),
                    ("lease_prefix"@, JsonV::Str(prefix@)),
                    ("lease_credential"@, JsonV::Str(credential@)),
                    ("expires_at"@, JsonV::Str(expires_at@)),
                    ("expires_in"@, JsonV::UInt(ttl_secs)),
                ],
            ),
        ),
{
    let reply = Reply::Leased { id, prefix, credential, expires_at };
    let step = dispatch::last_step(req, Operation::LeaseCreate, reply);
    assert(step->response.result->0->Object_0 =~= seq![
        ("lease_id"@, JsonV::Str(id@)),
        ("lease_prefix"@, JsonV::Str(prefix@)),
        ("lease_credential"@, JsonV::Str(credential@)),
        ("expires_at"@, JsonV::Str(expires_at@)),
        ("expires_in"@, JsonV::UInt(ttl_secs)),
    ]);
}

} // verus!
