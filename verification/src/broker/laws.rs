//! What holds of every operation, whatever the vault session replies.

use vstd::prelude::*;

use crate::broker::dispatch::{self, Call, CallV, ContextV, Reply, Stage, StepV};
use crate::broker::ops::{self, Operation};
use crate::json::{self, JsonV};
use crate::wire::{self, RequestV};

verus! {

/// Whether a call touches secrets on behalf of whoever asks.
pub open spec fn touches_secrets(c: CallV) -> bool {
    c is InjectFile || c is SecretList || c is RevealClaim || c is RevealHuman
        || c is RequestApproval
}

/// An agent's request never reaches a secret directly: its first call, if it
/// has one, is about its permission.
pub proof fn law_agents_are_checked_first(req: RequestV, ctx: ContextV)
    requires
        ctx.identity is Agent,
    ensures
        dispatch::first_step(req, ctx) matches StepV::Ask { call, .. } ==> !touches_secrets(call),
{
}

/// A secret is reached only after the session has authorized it.
pub proof fn law_secrets_follow_an_authorization(
    req: RequestV,
    ctx: ContextV,
    stage: Stage<Seq<char>>,
    reply: Reply,
)
    requires
        dispatch::next_step(req, ctx, stage, reply) matches StepV::Ask { call, .. }
            && touches_secrets(call),
    ensures
        reply is Actor,
        stage is Injecting || stage is Listing || stage is Revealing,
{
}

/// On a locked vault an agent's injection or listing is answered at once: the
/// session is not asked.
pub proof fn law_locked_vault_refuses_agents_at_once(req: RequestV, ctx: ContextV)
    requires
        ctx.identity is Agent,
        ctx.locked,
        ops::operation_named(req.op) == Some(Operation::InjectFile) || ops::operation_named(req.op)
            == Some(Operation::SecretsList),
    ensures
        dispatch::first_step(req, ctx) is Answer,
{
}

/// An agent never reveals a secret as its owner does: it claims an approval or
/// requests one.
pub proof fn law_agents_reveal_by_approval(
    req: RequestV,
    ctx: ContextV,
    stage: Stage<Seq<char>>,
    reply: Reply,
)
    requires
        ctx.identity is Agent,
    ensures
        dispatch::first_step(req, ctx) matches StepV::Ask { call, .. } ==> !(call is RevealHuman),
        dispatch::next_step(req, ctx, stage, reply) matches StepV::Ask { call, .. } ==> !(
        call is RevealHuman),
        stage is Revealing && reply is Actor ==> (dispatch::next_step(
            req,
            ctx,
            stage,
            reply,
        ) matches StepV::Ask { call, .. } ==> call is RevealClaim || call is RequestApproval),
{
}

/// The vault is open whatever becomes of the session that is opened with it:
/// without one the answer says no more than that.
pub proof fn law_unlock_outlives_a_failed_session(
    req: RequestV,
    ctx: ContextV,
    code: String,
    msg: String,
)
    ensures
        dispatch::next_step(req, ctx, Stage::Seeding, Reply::Failed { code, msg })
            == dispatch::answer(
            wire::ok_response(
                req.id,
                json::empty_object().with("unlocked"@, JsonV::Bool(true)),
            ),
        ),
{
}

/// A signal goes only to a run that was looked up again right before, and that
/// is still the same run.
pub proof fn law_signals_follow_a_second_look(
    req: RequestV,
    ctx: ContextV,
    stage: Stage<Seq<char>>,
    reply: Reply,
)
    requires
        dispatch::next_step(req, ctx, stage, reply) matches StepV::Ask { call, .. }
            && call is SignalGroup,
    ensures
        match (stage, reply, dispatch::next_step(req, ctx, stage, reply)) {
            (
                Stage::RunRechecked { project, pgid, signal },
                Reply::Run { project: live, pgid: live_pgid },
                StepV::Ask { call, .. },
            ) => live@ == project && live_pgid == pgid && call == (CallV::SignalGroup {
                pgid,
                signal,
            }),
            _ => false,
        },
{
}

/// Who loses the right to run loses the runs: revoking an agent or a grant, and
/// narrowing a grant so that it no longer allows runs, ends them.
pub proof fn law_lost_rights_end_runs(req: RequestV, ctx: ContextV, agent: String)
    ensures
        dispatch::next_step(req, ctx, Stage::AgentRevoked, Reply::AgentId(agent))
            == dispatch::ask(
            Call::TerminateRuns { actor: ctx.actor, agent: agent@, project: None },
            Operation::AgentsRevoke,
        ),
        dispatch::next_step(req, ctx, Stage::GrantRevoked, Reply::AgentId(agent))
            == dispatch::ask(
            Call::TerminateRuns {
                actor: ctx.actor,
                agent: agent@,
                project: Some(dispatch::param(req, "project"@)),
            },
            Operation::GrantsRevoke,
        ),
        dispatch::next_step(
            req,
            ctx,
            Stage::Granted { keeps_run: false },
            Reply::Granted { could_run: Some(agent) },
        ) == dispatch::ask(
            Call::TerminateRuns {
                actor: "human"@,
                agent: agent@,
                project: Some(dispatch::param(req, "project"@)),
            },
            Operation::GrantsGrant,
        ),
{
}

/// How many replies an operation can still wait for.
pub open spec fn remaining_replies(stage: Stage<Seq<char>>) -> nat {
    match stage {
        Stage::Finish(_) => 1,
        Stage::Injecting => 2,
        Stage::Listing => 2,
        Stage::Revealing => 2,
        Stage::Unlocking => 2,
        Stage::Seeding => 1,
        Stage::AgentRevoked => 2,
        Stage::GrantParsed => 3,
        Stage::Granted { .. } => 2,
        Stage::GrantRevoked => 2,
        Stage::LeaseParsed => 2,
        Stage::ApprovalRequested => 1,
        Stage::RunFound => 6,
        Stage::RunGated { .. } => 5,
        Stage::SignalRead { .. } => 4,
        Stage::RunRechecked { .. } => 3,
        Stage::Signaled { .. } => 2,
        Stage::Recording => 1,
    }
}

/// Every operation ends: each reply leaves fewer to wait for, and the last one
/// is followed by an answer.
pub proof fn law_operations_end(
    req: RequestV,
    ctx: ContextV,
    stage: Stage<Seq<char>>,
    reply: Reply,
)
    ensures
        dispatch::next_step(req, ctx, stage, reply) matches StepV::Ask { stage: next, .. }
            ==> remaining_replies(next) < remaining_replies(stage),
{
}

/// A failed reply is never followed by another call, but for the session that
/// is opened after an unlocked vault.
pub proof fn law_failures_are_final(
    req: RequestV,
    ctx: ContextV,
    stage: Stage<Seq<char>>,
    code: String,
    msg: String,
)
    ensures
        dispatch::next_step(req, ctx, stage, Reply::Failed { code, msg }) is Answer,
{
}

} // verus!
