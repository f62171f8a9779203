//! The operations themselves: what each one asks of the vault session, and
//! what is answered for what the session replies.
//!
//! An operation is a small machine. [`begin`] gives its first step and
//! [`resume`] the step that follows a reply; a step either asks the session for
//! something or answers the request. The session is the caller's, so the same
//! request with the same replies is always answered alike.

use vstd::prelude::*;

use crate::audit::{self, AuditLine};
use crate::broker::gate::{self, Identity, IdentityV};
use crate::broker::ops::{self, Operation};
use crate::broker::params;
use crate::broker::rows::{
    self, AgentRow, ApprovalRow, GrantRow, LeaseRow, ProjectRow, RunRow, SecretRow,
};
use crate::json::{self, Json, JsonV};
use crate::text::{self, joined, same};
use crate::wire::{self, Request, RequestV, Response, ResponseV};

verus! {

/// What an agent wants to do in a project.
#[derive(Clone, Copy, Debug, PartialEq, Eq, Structural)]
pub enum Need {
    Inject,
    Read,
    Reveal,
}

/// What the vault session is asked to do, over texts `S` and lists of texts `L`.
#[allow(inconsistent_fields)]
pub enum Call<S, L> {
    /// Check that an agent may act on a project, on its grant or narrowed by a lease; the
    /// reply is the actor.
    AuthorizeLease { agent: S, project: S, need: Need, credential: Option<S> },
    /// Write secrets into a file of the project.
    InjectFile { actor: S, project: S, path: S, keys: Option<L> },
    /// Read the public status and record that.
    Status { actor: S },
    /// Lock the vault and end every managed run.
    LockAndDrain { actor: S },
    /// List the names of secrets.
    SecretList { project: S, actor: S },
    /// Unlock with the verified proof.
    Unlock,
    /// Open a human session; without a window the default one holds.
    OpenSession { actor: S, ttl_secs: Option<u64> },
    ProjectAdd { actor: S, name: S, paths: L },
    ProjectList { actor: S },
    ProjectPathAdd { actor: S, name: S, path: S },
    ProjectPathRemove { actor: S, name: S, path: S },
    ProjectRemove { actor: S, name: S },
    SecretSet { actor: S, project: S, key: S, value: S },
    SecretDelete { actor: S, project: S, key: S },
    AgentAdd { actor: S, name: S },
    /// Revoke an agent; the reply is its id.
    AgentRevoke { actor: S, name: S },
    AgentList { actor: S },
    /// Read a list of operations; the reply is their words.
    ParseOps { ops: S },
    /// Grant operations; the reply is the agent that could run before, if any.
    GrantAdd { actor: S, agent: S, project: S, ops: L },
    /// Revoke a grant; the reply is the agent's id.
    GrantRevoke { actor: S, agent: S, project: S },
    GrantList { actor: S },
    /// End the managed runs of an agent, on one project or on all.
    TerminateRuns { actor: S, agent: S, project: Option<S> },
    AuditPage { actor: S, tail: u64, before_seq: Option<u64> },
    AuditVerify,
    LeaseCreate { actor: S, agent: S, project: S, ops: L, ttl_secs: u64 },
    /// List the leases of one agent, or all.
    LeaseList { actor: S, owner: Option<S> },
    LeaseRevoke { actor: S, owner: Option<S>, lease_id: S },
    RevealHuman { actor: S, project: S, key: S },
    RevealClaim { actor: S, agent: S, project: S, key: S, approval_id: S },
    RequestApproval { actor: S, agent: S, project: S, key: S },
    ApprovalStatus { agent: S, approval_id: S },
    ApprovalPending { actor: S },
    ApprovalDecide { actor: S, approval_id: S, approved: bool },
    /// Look a live run of an agent up.
    FindRun { agent: S, run_id: S },
    /// Ask whether the vault is unlocked and the agent may run in the project.
    RunGate { agent: S, project: S },
    /// Read the name of a signal.
    ParseSignal { signal: S },
    SignalGroup { pgid: i32, signal: i32 },
    /// Record an allowed signal.
    RecordSignal { actor: S, project: S, run_id: S },
    TouchSession { credential: S },
    CloseSession { credential: S },
    /// List the live runs and record that.
    ListRuns { actor: S },
    /// Read the health of the vault and record that.
    Health { actor: S },
}

/// A call on the vault session.
pub type SessionCall = Call<String, Vec<String>>;

/// The mathematical value of a [`SessionCall`].
pub type CallV = Call<Seq<char>, Seq<Seq<char>>>;

/// The value of a call.
pub open spec fn call_value(c: SessionCall) -> CallV {
    match c {
        Call::AuthorizeLease { agent, project, need, credential } => Call::AuthorizeLease {
            agent: agent@,
            project: project@,
            need,
            credential: json::opt_text(credential),
        },
        Call::InjectFile { actor, project, path, keys } => Call::InjectFile {
            actor: actor@,
            project: project@,
            path: path@,
            keys: params::opt_texts(keys),
        },
        Call::Status { actor } => Call::Status { actor: actor@ },
        Call::LockAndDrain { actor } => Call::LockAndDrain { actor: actor@ },
        Call::SecretList { project, actor } => Call::SecretList {
            project: project@,
            actor: actor@,
        },
        Call::Unlock => Call::Unlock,
        Call::OpenSession { actor, ttl_secs } => Call::OpenSession { actor: actor@, ttl_secs },
        Call::ProjectAdd { actor, name, paths } => Call::ProjectAdd {
            actor: actor@,
            name: name@,
            paths: text::texts(paths@),
        },
        Call::ProjectList { actor } => Call::ProjectList { actor: actor@ },
        Call::ProjectPathAdd { actor, name, path } => Call::ProjectPathAdd {
            actor: actor@,
            name: name@,
            path: path@,
        },
        Call::ProjectPathRemove { actor, name, path } => Call::ProjectPathRemove {
            actor: actor@,
            name: name@,
            path: path@,
        },
        Call::ProjectRemove { actor, name } => Call::ProjectRemove { actor: actor@, name: name@ },
        Call::SecretSet { actor, project, key, value } => Call::SecretSet {
            actor: actor@,
            project: project@,
            key: key@,
            value: value@,
        },
        Call::SecretDelete { actor, project, key } => Call::SecretDelete {
            actor: actor@,
            project: project@,
            key: key@,
        },
        Call::AgentAdd { actor, name } => Call::AgentAdd { actor: actor@, name: name@ },
        Call::AgentRevoke { actor, name } => Call::AgentRevoke { actor: actor@, name: name@ },
        Call::AgentList { actor } => Call::AgentList { actor: actor@ },
        Call::ParseOps { ops } => Call::ParseOps { ops: ops@ },
        Call::GrantAdd { actor, agent, project, ops } => Call::GrantAdd {
            actor: actor@,
            agent: agent@,
            project: project@,
            ops: text::texts(ops@),
        },
        Call::GrantRevoke { actor, agent, project } => Call::GrantRevoke {
            actor: actor@,
            agent: agent@,
            project: project@,
        },
        Call::GrantList { actor } => Call::GrantList { actor: actor@ },
        Call::TerminateRuns { actor, agent, project } => Call::TerminateRuns {
            actor: actor@,
            agent: agent@,
            project: json::opt_text(project),
        },
        Call::AuditPage { actor, tail, before_seq } => Call::AuditPage {
            actor: actor@,
            tail,
            before_seq,
        },
        Call::AuditVerify => Call::AuditVerify,
        Call::LeaseCreate { actor, agent, project, ops, ttl_secs } => Call::LeaseCreate {
            actor: actor@,
            agent: agent@,
            project: project@,
            ops: text::texts(ops@),
            ttl_secs,
        },
        Call::LeaseList { actor, owner } => Call::LeaseList {
            actor: actor@,
            owner: json::opt_text(owner),
        },
        Call::LeaseRevoke { actor, owner, lease_id } => Call::LeaseRevoke {
            actor: actor@,
            owner: json::opt_text(owner),
            lease_id: lease_id@,
        },
        Call::RevealHuman { actor, project, key } => Call::RevealHuman {
            actor: actor@,
            project: project@,
            key: key@,
        },
        Call::RevealClaim { actor, agent, project, key, approval_id } => Call::RevealClaim {
            actor: actor@,
            agent: agent@,
            project: project@,
            key: key@,
            approval_id: approval_id@,
        },
        Call::RequestApproval { actor, agent, project, key } => Call::RequestApproval {
            actor: actor@,
            agent: agent@,
            project: project@,
            key: key@,
        },
        Call::ApprovalStatus { agent, approval_id } => Call::ApprovalStatus {
            agent: agent@,
            approval_id: approval_id@,
        },
        Call::ApprovalPending { actor } => Call::ApprovalPending { actor: actor@ },
        Call::ApprovalDecide { actor, approval_id, approved } => Call::ApprovalDecide {
            actor: actor@,
            approval_id: approval_id@,
            approved,
        },
        Call::FindRun { agent, run_id } => Call::FindRun { agent: agent@, run_id: run_id@ },
        Call::RunGate { agent, project } => Call::RunGate { agent: agent@, project: project@ },
        Call::ParseSignal { signal } => Call::ParseSignal { signal: signal@ },
        Call::SignalGroup { pgid, signal } => Call::SignalGroup { pgid, signal },
        Call::RecordSignal { actor, project, run_id } => Call::RecordSignal {
            actor: actor@,
            project: project@,
            run_id: run_id@,
        },
        Call::TouchSession { credential } => Call::TouchSession { credential: credential@ },
        Call::CloseSession { credential } => Call::CloseSession { credential: credential@ },
        Call::ListRuns { actor } => Call::ListRuns { actor: actor@ },
        Call::Health { actor } => Call::Health { actor: actor@ },
    }
}

/// How far an operation has come: what the reply to the last call is for.
pub enum Stage<S> {
    /// The reply is what the operation answers with.
    Finish(Operation),
    /// Lease and grant of an injection are being checked.
    Injecting,
    /// Lease and grant of a listing are being checked.
    Listing,
    /// Lease and grant of a reveal are being checked.
    Revealing,
    /// The vault was asked to unlock.
    Unlocking,
    /// The vault is unlocked and a session is being opened.
    Seeding,
    /// An agent was revoked and its runs are still alive.
    AgentRevoked,
    /// The operations of a grant are being read.
    GrantParsed,
    /// A grant was changed; the flag tells whether it still allows runs.
    Granted { keeps_run: bool },
    /// A grant was revoked and its runs are still alive.
    GrantRevoked,
    /// The operations of a lease are being read.
    LeaseParsed,
    /// An approval was requested.
    ApprovalRequested,
    /// A run is being looked up.
    RunFound,
    /// The vault and the grant of a run are being checked.
    RunGated { project: S, pgid: i32 },
    /// The signal is being read.
    SignalRead { project: S, pgid: i32 },
    /// The run is being looked up again, right before the signal.
    RunRechecked { project: S, pgid: i32, signal: i32 },
    /// The signal was sent.
    Signaled { project: S },
    /// The signal is being recorded.
    Recording,
}

/// The value of a stage.
pub open spec fn stage_value(s: Stage<String>) -> Stage<Seq<char>> {
    match s {
        Stage::Finish(op) => Stage::Finish(op),
        Stage::Injecting => Stage::Injecting,
        Stage::Listing => Stage::Listing,
        Stage::Revealing => Stage::Revealing,
        Stage::Unlocking => Stage::Unlocking,
        Stage::Seeding => Stage::Seeding,
        Stage::AgentRevoked => Stage::AgentRevoked,
        Stage::GrantParsed => Stage::GrantParsed,
        Stage::Granted { keeps_run } => Stage::Granted { keeps_run },
        Stage::GrantRevoked => Stage::GrantRevoked,
        Stage::LeaseParsed => Stage::LeaseParsed,
        Stage::ApprovalRequested => Stage::ApprovalRequested,
        Stage::RunFound => Stage::RunFound,
        Stage::RunGated { project, pgid } => Stage::RunGated { project: project@, pgid },
        Stage::SignalRead { project, pgid } => Stage::SignalRead { project: project@, pgid },
        Stage::RunRechecked { project, pgid, signal } => Stage::RunRechecked {
            project: project@,
            pgid,
            signal,
        },
        Stage::Signaled { project } => Stage::Signaled { project: project@ },
        Stage::Recording => Stage::Recording,
    }
}

/// What an answer leaves in the audit log.
pub enum Trace {
    Nothing,
    Denied(gate::Denial),
    /// A refused signal to a run that exists.
    SignalDenied { actor: String, project: String, run_id: String, reason: String },
}

/// The mathematical value of a [`Trace`].
pub enum TraceV {
    Nothing,
    Denied(gate::DenialV),
    SignalDenied { actor: Seq<char>, project: Seq<char>, run_id: Seq<char>, reason: Seq<char> },
}

impl View for Trace {
    type V = TraceV;

    open spec fn view(&self) -> TraceV {
        match self {
            Trace::Nothing => TraceV::Nothing,
            Trace::Denied(d) => TraceV::Denied(d@),
            Trace::SignalDenied { actor, project, run_id, reason } => TraceV::SignalDenied {
                actor: actor@,
                project: project@,
                run_id: run_id@,
                reason: reason@,
            },
        }
    }
}

/// One step of an operation.
pub enum Step {
    /// Ask the session, and resume at the stage with its reply.
    Ask { call: SessionCall, stage: Stage<String> },
    /// Record the trace and answer the request.
    Answer { trace: Trace, response: Response },
    /// The reply is not one to the call that was made.
    Stuck,
}

/// The mathematical value of a [`Step`].
pub enum StepV {
    Ask { call: CallV, stage: Stage<Seq<char>> },
    Answer { trace: TraceV, response: ResponseV },
    Stuck,
}

impl View for Step {
    type V = StepV;

    open spec fn view(&self) -> StepV {
        match self {
            Step::Ask { call, stage } => StepV::Ask {
                call: call_value(*call),
                stage: stage_value(*stage),
            },
            Step::Answer { trace, response } => StepV::Answer {
                trace: trace@,
                response: response@,
            },
            Step::Stuck => StepV::Stuck,
        }
    }
}

/// A session credential that was just minted.
pub struct SessionGrant {
    pub credential: String,
    pub prefix: String,
    pub window: SessionWindow,
}

/// When a session lapses.
pub struct SessionWindow {
    pub expires_at: String,
    pub expires_in: u64,
    pub max_expires_at: String,
    pub max_expires_in: u64,
}

/// What the vault still knows of an approval.
pub struct ApprovalFacts {
    pub project: Option<String>,
    pub key: String,
    pub expires_in: i64,
}

/// What the vault session replies.
pub enum Reply {
    /// The call failed.
    Failed { code: String, msg: String },
    /// The call is done and there is nothing to say.
    Done,
    Actor(String),
    Injected { path: String, keys: Vec<String> },
    Status { version: u64, created: String, locked: bool },
    Secrets(Vec<SecretRow>),
    Session(SessionGrant),
    Window(SessionWindow),
    Projects(Vec<ProjectRow>),
    AgentAdded { agent_id: String, token: String },
    AgentId(String),
    Agents(Vec<AgentRow>),
    Ops(Vec<String>),
    Granted { could_run: Option<String> },
    Grants(Vec<GrantRow>),
    AuditPage { lines: Vec<AuditLine>, next_before_seq: Option<u64> },
    Verified { entries: u64, macs_verified: u64, macs_null: u64 },
    Leased { id: String, prefix: String, credential: String, expires_at: String },
    Leases(Vec<LeaseRow>),
    Secret(Vec<u8>),
    Approval { id: String, expires_in: i64 },
    ApprovalStatus { status: String, facts: Option<ApprovalFacts> },
    Approvals(Vec<ApprovalRow>),
    Run { project: String, pgid: i32 },
    NoRun,
    RunGate { unlocked: bool, authorized: bool },
    Signal(i32),
    Runs(Vec<RunRow>),
    Health(Json),
}

/// What admission established of a request, and what the session says of the
/// vault.
pub struct Context {
    pub actor: String,
    pub identity: Identity,
    pub locked: bool,
    pub proven: bool,
}

/// The mathematical value of a [`Context`].
pub struct ContextV {
    pub actor: Seq<char>,
    pub identity: IdentityV,
    pub locked: bool,
    pub proven: bool,
}

impl View for Context {
    type V = ContextV;

    open spec fn view(&self) -> ContextV {
        ContextV {
            actor: self.actor@,
            identity: self.identity@,
            locked: self.locked,
            proven: self.proven,
        }
    }
}

// ------------------------------------------------------------------ answers
pub open spec fn answer(r: ResponseV) -> StepV {
    StepV::Answer { trace: TraceV::Nothing, response: r }
}

pub open spec fn refusal(req: RequestV, code: Seq<char>, msg: Seq<char>) -> StepV {
    answer(wire::err_response(req.id, code, msg))
}

pub open spec fn invalid(req: RequestV, msg: Seq<char>) -> StepV {
    refusal(req, "E_INVALID_INPUT"@, msg)
}

/// A refusal that is recorded here.
pub open spec fn denied(
    req: RequestV,
    actor: Seq<char>,
    op: Seq<char>,
    project: Option<Seq<char>>,
    code: Seq<char>,
    msg: Seq<char>,
) -> StepV {
    StepV::Answer {
        trace: TraceV::Denied(gate::DenialV { actor, op, project, reason: code }),
        response: wire::err_response(req.id, code, msg),
    }
}

/// A refused signal to a run that exists.
pub open spec fn signal_denied(
    req: RequestV,
    actor: Seq<char>,
    project: Seq<char>,
    code: Seq<char>,
    msg: Seq<char>,
) -> StepV {
    StepV::Answer {
        trace: TraceV::SignalDenied {
            actor,
            project,
            run_id: text_or_empty(req.params.at("run_id"@).text()),
            reason: code,
        },
        response: wire::err_response(req.id, code, msg),
    }
}

pub open spec fn text_or_empty(t: Option<Seq<char>>) -> Seq<char> {
    match t {
        Some(s) => s,
        None => ""@,
    }
}

pub open spec fn ask(call: CallV, op: Operation) -> StepV {
    StepV::Ask { call, stage: Stage::Finish(op) }
}

pub open spec fn ask_at(call: CallV, stage: Stage<Seq<char>>) -> StepV {
    StepV::Ask { call, stage }
}

/// The owner of leases that a request may see: an agent sees its own.
pub open spec fn lease_owner(identity: IdentityV) -> Option<Seq<char>> {
    match identity {
        IdentityV::Agent(a) => Some(a),
        _ => None,
    }
}

fn refuse(req: &Request, code: &str, msg: &str) -> (r: Step)
    ensures
        r@ == refusal(req@, code@, msg@),
{
    Step::Answer { trace: Trace::Nothing, response: Response::err(&req.id, code, msg) }
}

fn refuse_invalid(req: &Request, msg: &str) -> (r: Step)
    ensures
        r@ == invalid(req@, msg@),
{
    refuse(req, "E_INVALID_INPUT", msg)
}

fn refuse_recorded(
    req: &Request,
    ctx: &Context,
    op: &str,
    project: Option<&str>,
    code: &str,
    msg: &str,
) -> (r: Step)
    ensures
        r@ == denied(req@, ctx@.actor, op@, json::opt_str(project), code@, msg@),
{
    Step::Answer {
        trace: Trace::Denied(gate::denial(&ctx.actor, op, project, code)),
        response: Response::err(&req.id, code, msg),
    }
}

fn refuse_signal(req: &Request, ctx: &Context, project: &str, code: &str, msg: &str) -> (r: Step)
    ensures
        r@ == signal_denied(req@, ctx@.actor, project@, code@, msg@),
{
    let run_id = match req.params.text_at("run_id") {
        Some(s) => s.to_string(),
        None => "".to_string(),
    };
    Step::Answer {
        trace: Trace::SignalDenied {
            actor: ctx.actor.clone(),
            project: project.to_string(),
            run_id,
            reason: code.to_string(),
        },
        response: Response::err(&req.id, code, msg),
    }
}

fn finish_with(call: SessionCall, op: Operation) -> (r: Step)
    ensures
        r@ == ask(call_value(call), op),
{
    Step::Ask { call, stage: Stage::Finish(op) }
}

fn answered(req: &Request, result: Json) -> (r: Step)
    ensures
        r@ == answer(wire::ok_response(req@.id, result@)),
{
    Step::Answer { trace: Trace::Nothing, response: Response::ok(&req.id, result) }
}

fn owner_of(identity: &Identity) -> (r: Option<String>)
    ensures
        json::opt_text(r) == lease_owner(identity@),
{
    match identity {
        Identity::Agent(a) => Some(a.clone()),
        _ => None,
    }
}

// ----------------------------------------------------- agent-side operations
/// A file is injected for an agent alone, into an unlocked vault's project,
/// on its grant or on the lease that it presents.
pub open spec fn begin_inject(req: RequestV, ctx: ContextV) -> StepV {
    match ctx.identity {
        IdentityV::Agent(agent) => match (
            req.params.at("project"@).text(),
            req.params.at("path"@).text(),
        ) {
            (None, _) => invalid(req, "missing project"@),
            (Some(_), None) => invalid(req, "missing path"@),
            (Some(project), Some(_)) => if ctx.locked {
                denied(
                    req,
                    ctx.actor,
                    "inject_file"@,
                    Some(project),
                    "E_LOCKED"@,
                    "vault is locked"@,
                )
            } else {
                match params::lease_credential(req.params) {
                    Err(why) => denied(
                        req,
                        ctx.actor,
                        "inject_file"@,
                        Some(project),
                        "E_INVALID_INPUT"@,
                        why,
                    ),
                    Ok(credential) => ask_at(
                        Call::AuthorizeLease { agent, project, need: Need::Inject, credential },
                        Stage::Injecting,
                    ),
                }
            },
        },
        _ => denied(
            req,
            ctx.actor,
            "inject_file"@,
            None,
            "E_AUTH"@,
            "inject_file requires agent credentials"@,
        ),
    }
}

fn do_begin_inject(req: &Request, ctx: &Context) -> (r: Step)
    ensures
        r@ == begin_inject(req@, ctx@),
{
    let agent = match &ctx.identity {
        Identity::Agent(a) => a.clone(),
        _ => {
            return refuse_recorded(
                req,
                ctx,
                "inject_file",
                None,
                "E_AUTH",
                "inject_file requires agent credentials",
            );
        },
    };
    let project = match req.params.text_at("project") {
        Some(p) => p,
        None => {
            return refuse_invalid(req, "missing project");
        },
    };
    match req.params.text_at("path") {
        Some(_) => {},
        None => {
            return refuse_invalid(req, "missing path");
        },
    }
    if ctx.locked {
        return refuse_recorded(
            req,
            ctx,
            "inject_file",
            Some(project),
            "E_LOCKED",
            "vault is locked",
        );
    }
    match params::lease_credential_param(req) {
        Ok(credential) => Step::Ask {
            call: Call::AuthorizeLease {
                agent,
                project: project.to_string(),
                need: Need::Inject,
                credential,
            },
            stage: Stage::Injecting,
        },
        Err(why) => refuse_recorded(
            req,
            ctx,
            "inject_file",
            Some(project),
            "E_INVALID_INPUT",
            why,
        ),
    }
}

/// An authorized injection: the selection of keys is read now.
pub open spec fn inject_as(req: RequestV, ctx: ContextV, op_actor: Seq<char>) -> StepV {
    match (req.params.at("project"@).text(), req.params.at("path"@).text()) {
        (Some(project), Some(path)) => match params::key_selection(req.params) {
            Err(why) => denied(
                req,
                ctx.actor,
                "inject_file"@,
                Some(project),
                "E_INVALID_INPUT"@,
                why,
            ),
            Ok(keys) => ask(
                Call::InjectFile { actor: op_actor, project, path, keys },
                Operation::InjectFile,
            ),
        },
        _ => StepV::Stuck,
    }
}

fn do_inject_as(req: &Request, ctx: &Context, op_actor: String) -> (r: Step)
    ensures
        r@ == inject_as(req@, ctx@, op_actor@),
{
    match (req.params.text_at("project"), req.params.text_at("path")) {
        (Some(project), Some(path)) => match params::keys_param(&req.params) {
            Ok(keys) => finish_with(
                Call::InjectFile {
                    actor: op_actor,
                    project: project.to_string(),
                    path: path.to_string(),
                    keys,
                },
                Operation::InjectFile,
            ),
            Err(why) => refuse_recorded(
                req,
                ctx,
                "inject_file",
                Some(project),
                "E_INVALID_INPUT",
                why,
            ),
        },
        _ => Step::Stuck,
    }
}

/// Names are listed for the owner, and for an agent on an unlocked vault's
/// project that it may read.
pub open spec fn begin_list(req: RequestV, ctx: ContextV) -> StepV {
    match req.params.at("project"@).text() {
        None => invalid(req, "missing project"@),
        Some(project) => match ctx.identity {
            IdentityV::Agent(agent) => if ctx.locked {
                denied(
                    req,
                    ctx.actor,
                    "secrets.list"@,
                    Some(project),
                    "E_LOCKED"@,
                    "vault is locked"@,
                )
            } else {
                match params::lease_credential(req.params) {
                    Err(why) => invalid(req, why),
                    Ok(credential) => ask_at(
                        Call::AuthorizeLease { agent, project, need: Need::Read, credential },
                        Stage::Listing,
                    ),
                }
            },
            _ => ask(Call::SecretList { project, actor: ctx.actor }, Operation::SecretsList),
        },
    }
}

fn do_begin_list(req: &Request, ctx: &Context) -> (r: Step)
    ensures
        r@ == begin_list(req@, ctx@),
{
    let project = match req.params.text_at("project") {
        Some(p) => p,
        None => {
            return refuse_invalid(req, "missing project");
        },
    };
    match &ctx.identity {
        Identity::Agent(agent) => {
            if ctx.locked {
                return refuse_recorded(
                    req,
                    ctx,
                    "secrets.list",
                    Some(project),
                    "E_LOCKED",
                    "vault is locked",
                );
            }
            match params::lease_credential_param(req) {
                Ok(credential) => Step::Ask {
                    call: Call::AuthorizeLease {
                        agent: agent.clone(),
                        project: project.to_string(),
                        need: Need::Read,
                        credential,
                    },
                    stage: Stage::Listing,
                },
                Err(why) => refuse_invalid(req, why),
            }
        },
        _ => finish_with(
            Call::SecretList { project: project.to_string(), actor: ctx.actor.clone() },
            Operation::SecretsList,
        ),
    }
}

/// The owner reveals directly; an agent needs an approval, which it claims by
/// its id or requests.
pub open spec fn begin_reveal(req: RequestV, ctx: ContextV) -> StepV {
    match ctx.identity {
        IdentityV::Unauthenticated => refusal(
            req,
            "E_AUTH"@,
            "reveal requires agent credentials"@,
        ),
        IdentityV::Human => if !(req.params.at("approval_id"@) is Null) {
            invalid(req, "human reveal takes no approval_id"@)
        } else {
            match (req.params.at("project"@).text(), req.params.at("key"@).text()) {
                (None, _) => invalid(req, "missing project"@),
                (Some(_), None) => invalid(req, "missing key"@),
                (Some(project), Some(key)) => ask(
                    Call::RevealHuman { actor: ctx.actor, project, key },
                    Operation::Reveal,
                ),
            }
        },
        IdentityV::Agent(agent) => match (
            req.params.at("project"@).text(),
            req.params.at("key"@).text(),
        ) {
            (None, _) => invalid(req, "missing project"@),
            (Some(_), None) => invalid(req, "missing key"@),
            (Some(project), Some(_)) => match params::lease_credential(req.params) {
                Err(why) => invalid(req, why),
                Ok(credential) => ask_at(
                    Call::AuthorizeLease { agent, project, need: Need::Reveal, credential },
                    Stage::Revealing,
                ),
            },
        },
    }
}

fn do_begin_reveal(req: &Request, ctx: &Context) -> (r: Step)
    ensures
        r@ == begin_reveal(req@, ctx@),
{
    match &ctx.identity {
        Identity::Unauthenticated => {
            return refuse(req, "E_AUTH", "reveal requires agent credentials");
        },
        Identity::Human => {
            if req.params.present("approval_id") {
                return refuse_invalid(req, "human reveal takes no approval_id");
            }
        },
        Identity::Agent(_) => {},
    }
    let project = match req.params.text_at("project") {
        Some(p) => p,
        None => {
            return refuse_invalid(req, "missing project");
        },
    };
    let key = match req.params.text_at("key") {
        Some(k) => k,
        None => {
            return refuse_invalid(req, "missing key");
        },
    };
    match &ctx.identity {
        Identity::Agent(agent) => match params::lease_credential_param(req) {
            Ok(credential) => Step::Ask {
                call: Call::AuthorizeLease {
                    agent: agent.clone(),
                    project: project.to_string(),
                    need: Need::Reveal,
                    credential,
                },
                stage: Stage::Revealing,
            },
            Err(why) => refuse_invalid(req, why),
        },
        _ => finish_with(
            Call::RevealHuman {
                actor: ctx.actor.clone(),
                project: project.to_string(),
                key: key.to_string(),
            },
            Operation::Reveal,
        ),
    }
}

/// An authorized reveal of an agent.
pub open spec fn reveal_as(req: RequestV, ctx: ContextV, op_actor: Seq<char>) -> StepV {
    match (ctx.identity, req.params.at("project"@).text(), req.params.at("key"@).text()) {
        (IdentityV::Agent(agent), Some(project), Some(key)) => match req.params.at(
            "approval_id"@,
        ).text() {
            Some(approval_id) => ask(
                Call::RevealClaim { actor: op_actor, agent, project, key, approval_id },
                Operation::Reveal,
            ),
            None => ask_at(
                Call::RequestApproval { actor: op_actor, agent, project, key },
                Stage::ApprovalRequested,
            ),
        },
        _ => StepV::Stuck,
    }
}

fn do_reveal_as(req: &Request, ctx: &Context, op_actor: String) -> (r: Step)
    ensures
        r@ == reveal_as(req@, ctx@, op_actor@),
{
    let agent = match &ctx.identity {
        Identity::Agent(a) => a.clone(),
        _ => {
            return Step::Stuck;
        },
    };
    match (req.params.text_at("project"), req.params.text_at("key")) {
        (Some(project), Some(key)) => match req.params.text_at("approval_id") {
            Some(approval_id) => finish_with(
                Call::RevealClaim {
                    actor: op_actor,
                    agent,
                    project: project.to_string(),
                    key: key.to_string(),
                    approval_id: approval_id.to_string(),
                },
                Operation::Reveal,
            ),
            None => Step::Ask {
                call: Call::RequestApproval {
                    actor: op_actor,
                    agent,
                    project: project.to_string(),
                    key: key.to_string(),
                },
                stage: Stage::ApprovalRequested,
            },
        },
        _ => Step::Stuck,
    }
}

/// A signal is sent by the agent whose run it is.
pub open spec fn begin_signal(req: RequestV, ctx: ContextV) -> StepV {
    match ctx.identity {
        IdentityV::Agent(agent) => match (
            req.params.at("run_id"@).text(),
            req.params.at("signal"@).text(),
        ) {
            (None, _) => denied(
                req,
                ctx.actor,
                "run_signal"@,
                None,
                "E_INVALID_INPUT"@,
                "missing run_id"@,
            ),
            (Some(_), None) => denied(
                req,
                ctx.actor,
                "run_signal"@,
                None,
                "E_INVALID_INPUT"@,
                "missing signal"@,
            ),
            (Some(run_id), Some(_)) => ask_at(Call::FindRun { agent, run_id }, Stage::RunFound),
        },
        _ => denied(
            req,
            ctx.actor,
            "run_signal"@,
            None,
            "E_AUTH"@,
            "run_signal requires agent credentials"@,
        ),
    }
}

fn do_begin_signal(req: &Request, ctx: &Context) -> (r: Step)
    ensures
        r@ == begin_signal(req@, ctx@),
{
    let agent = match &ctx.identity {
        Identity::Agent(a) => a.clone(),
        _ => {
            return refuse_recorded(
                req,
                ctx,
                "run_signal",
                None,
                "E_AUTH",
                "run_signal requires agent credentials",
            );
        },
    };
    let run_id = match req.params.text_at("run_id") {
        Some(i) => i,
        None => {
            return refuse_recorded(
                req,
                ctx,
                "run_signal",
                None,
                "E_INVALID_INPUT",
                "missing run_id",
            );
        },
    };
    match req.params.text_at("signal") {
        Some(_) => Step::Ask {
            call: Call::FindRun { agent, run_id: run_id.to_string() },
            stage: Stage::RunFound,
        },
        None => refuse_recorded(
            req,
            ctx,
            "run_signal",
            None,
            "E_INVALID_INPUT",
            "missing signal",
        ),
    }
}

/// A run that is not there is answered like one of another agent.
pub open spec fn run_missing(req: RequestV, ctx: ContextV) -> StepV {
    denied(req, ctx.actor, "run_signal"@, None, "E_NOT_FOUND"@, "not found"@)
}

// ------------------------------------------------------- owner-side operations
/// Unlocking takes the passphrase proof: a session cannot derive the key.
pub open spec fn begin_unlock(req: RequestV, ctx: ContextV) -> StepV {
    if req.auth.session is Some {
        answer(gate::session_expired(req.id))
    } else if !ctx.proven {
        answer(gate::authentication_failed(req.id))
    } else {
        ask_at(Call::Unlock, Stage::Unlocking)
    }
}

/// A session is opened on the passphrase proof alone.
pub open spec fn begin_open(req: RequestV, ctx: ContextV) -> StepV {
    if req.auth.session is Some {
        answer(gate::session_expired(req.id))
    } else if !ctx.proven {
        denied(
            req,
            ctx.actor,
            "session.open"@,
            None,
            "E_AUTH"@,
            "authentication failed"@,
        )
    } else {
        match req.params.at("ttl_secs"@) {
            JsonV::Null => ask(
                Call::OpenSession { actor: ctx.actor, ttl_secs: None },
                Operation::SessionOpen,
            ),
            JsonV::UInt(n) => ask(
                Call::OpenSession { actor: ctx.actor, ttl_secs: Some(n) },
                Operation::SessionOpen,
            ),
            _ => invalid(req, "invalid ttl_secs"@),
        }
    }
}

fn do_begin_open(req: &Request, ctx: &Context) -> (r: Step)
    ensures
        r@ == begin_open(req@, ctx@),
{
    match req.session() {
        Some(_) => {
            return refuse(req, "E_SESSION_EXPIRED", "session expired or revoked");
        },
        None => {},
    }
    if !ctx.proven {
        return refuse_recorded(
            req,
            ctx,
            "session.open",
            None,
            "E_AUTH",
            "authentication failed",
        );
    }
    let ttl_secs: Option<u64> = match req.params.get("ttl_secs") {
        None => None,
        Some(Json::Null) => None,
        Some(Json::UInt(n)) => Some(*n),
        Some(_) => {
            return refuse_invalid(req, "invalid ttl_secs");
        },
    };
    finish_with(
        Call::OpenSession { actor: ctx.actor.clone(), ttl_secs },
        Operation::SessionOpen,
    )
}

/// The number of audit entries of a page, unless it is out of range. A missing
/// number is twenty; a null one is not a number.
pub open spec fn page_tail(p: JsonV) -> Option<u64> {
    match p.get("tail"@) {
        None => Some(20),
        Some(JsonV::UInt(n)) => if 1 <= n <= 1000 {
            Some(n)
        } else {
            None
        },
        Some(_) => None,
    }
}

/// A page of the audit log.
pub open spec fn begin_audit(req: RequestV, ctx: ContextV) -> StepV {
    match page_tail(req.params) {
        None => invalid(req, "tail must be 1..=1000"@),
        Some(tail) => match req.params.at("before_seq"@) {
            JsonV::Null => ask(
                Call::AuditPage { actor: ctx.actor, tail, before_seq: None },
                Operation::AuditShow,
            ),
            JsonV::UInt(n) => ask(
                Call::AuditPage { actor: ctx.actor, tail, before_seq: Some(n) },
                Operation::AuditShow,
            ),
            _ => invalid(req, "invalid before_seq"@),
        },
    }
}

fn do_begin_audit(req: &Request, ctx: &Context) -> (r: Step)
    ensures
        r@ == begin_audit(req@, ctx@),
{
    let tail: u64 = match req.params.get("tail") {
        None => 20,
        Some(Json::UInt(n)) => {
            if *n < 1 || *n > 1000 {
                return refuse_invalid(req, "tail must be 1..=1000");
            }
            *n
        },
        Some(_) => {
            return refuse_invalid(req, "tail must be 1..=1000");
        },
    };
    let before_seq: Option<u64> = match req.params.get("before_seq") {
        None => None,
        Some(Json::Null) => None,
        Some(Json::UInt(n)) => Some(*n),
        Some(_) => {
            return refuse_invalid(req, "invalid before_seq");
        },
    };
    finish_with(
        Call::AuditPage { actor: ctx.actor.clone(), tail, before_seq },
        Operation::AuditShow,
    )
}

/// A grant names an agent and a project; its operations are read first.
pub open spec fn begin_grant(req: RequestV) -> StepV {
    match (req.params.at("agent"@).text(), req.params.at("project"@).text()) {
        (Some(_), Some(_)) => ask_at(
            Call::ParseOps { ops: text_or_empty(req.params.at("ops"@).text()) },
            Stage::GrantParsed,
        ),
        _ => invalid(req, "missing agent or project"@),
    }
}

/// A lease is an agent's own; its operations are read before its window.
pub open spec fn begin_lease(req: RequestV, ctx: ContextV) -> StepV {
    match ctx.identity {
        IdentityV::Agent(_) => match req.params.at("project"@).text() {
            None => invalid(req, "missing project"@),
            Some(_) => ask_at(
                Call::ParseOps { ops: text_or_empty(req.params.at("ops"@).text()) },
                Stage::LeaseParsed,
            ),
        },
        _ => refusal(req, "E_AUTH"@, "lease.create requires agent credentials"@),
    }
}

fn ops_text(req: &Request) -> (r: String)
    ensures
        r@ == text_or_empty(req@.params.at("ops"@).text()),
{
    match req.params.text_at("ops") {
        Some(s) => s.to_string(),
        None => "".to_string(),
    }
}

/// The first step of an operation.
pub open spec fn first_step(req: RequestV, ctx: ContextV) -> StepV {
    let p = req.params;
    match ops::operation_named(req.op) {
        None => refusal(req, "E_PROTOCOL"@, "unknown op: "@ + req.op),
        Some(op) => match op {
            Operation::InjectFile => begin_inject(req, ctx),
            Operation::VaultStatus => ask(Call::Status { actor: ctx.actor }, op),
            Operation::VaultLock => ask(Call::LockAndDrain { actor: ctx.actor }, op),
            Operation::SecretsList => begin_list(req, ctx),
            Operation::VaultUnlock => begin_unlock(req, ctx),
            Operation::VaultCreate => refusal(req, "E_EXISTS"@, "vault already exists"@),
            Operation::ProjectAdd => match params::project_of(p) {
                None => invalid(req, "missing project name"@),
                Some((name, paths)) => ask(
                    Call::ProjectAdd { actor: ctx.actor, name, paths },
                    op,
                ),
            },
            Operation::ProjectList => ask(Call::ProjectList { actor: ctx.actor }, op),
            Operation::ProjectPathAdd => match (p.at("name"@).text(), p.at("path"@).text()) {
                (Some(name), Some(path)) => ask(
                    Call::ProjectPathAdd { actor: ctx.actor, name, path },
                    op,
                ),
                _ => invalid(req, "missing name or path"@),
            },
            Operation::ProjectPathRemove => match (p.at("name"@).text(), p.at("path"@).text()) {
                (Some(name), Some(path)) => ask(
                    Call::ProjectPathRemove { actor: ctx.actor, name, path },
                    op,
                ),
                _ => invalid(req, "missing name or path"@),
            },
            Operation::ProjectRemove => match p.at("name"@).text() {
                Some(name) => ask(Call::ProjectRemove { actor: ctx.actor, name }, op),
                None => invalid(req, "missing name"@),
            },
            Operation::SecretSet => match (
                p.at("project"@).text(),
                p.at("key"@).text(),
                p.at("value"@).text(),
            ) {
                (Some(project), Some(key), Some(value)) => ask(
                    Call::SecretSet { actor: ctx.actor, project, key, value },
                    op,
                ),
                _ => invalid(req, "missing project, key or value"@),
            },
            Operation::SecretDelete => match (p.at("project"@).text(), p.at("key"@).text()) {
                (Some(project), Some(key)) => ask(
                    Call::SecretDelete { actor: ctx.actor, project, key },
                    op,
                ),
                _ => invalid(req, "missing project or key"@),
            },
            Operation::AgentsAdd => match p.at("name"@).text() {
                Some(name) => ask(Call::AgentAdd { actor: ctx.actor, name }, op),
                None => invalid(req, "missing name"@),
            },
            Operation::AgentsRevoke => match p.at("name"@).text() {
                Some(name) => ask_at(
                    Call::AgentRevoke { actor: ctx.actor, name },
                    Stage::AgentRevoked,
                ),
                None => invalid(req, "missing name"@),
            },
            Operation::AgentsList => ask(Call::AgentList { actor: ctx.actor }, op),
            Operation::GrantsGrant => begin_grant(req),
            Operation::GrantsRevoke => match (p.at("agent"@).text(), p.at("project"@).text()) {
                (Some(agent), Some(project)) => ask_at(
                    Call::GrantRevoke { actor: ctx.actor, agent, project },
                    Stage::GrantRevoked,
                ),
                _ => invalid(req, "missing agent or project"@),
            },
            Operation::GrantsList => ask(Call::GrantList { actor: ctx.actor }, op),
            Operation::AuditShow => begin_audit(req, ctx),
            Operation::AuditVerify => ask(Call::AuditVerify, op),
            Operation::LeaseCreate => begin_lease(req, ctx),
            Operation::LeaseList => ask(
                Call::LeaseList { actor: ctx.actor, owner: lease_owner(ctx.identity) },
                op,
            ),
            Operation::LeaseRevoke => match p.at("lease_id"@).text() {
                Some(lease_id) => ask(
                    Call::LeaseRevoke {
                        actor: ctx.actor,
                        owner: lease_owner(ctx.identity),
                        lease_id,
                    },
                    op,
                ),
                None => invalid(req, "missing lease_id"@),
            },
            Operation::Reveal => begin_reveal(req, ctx),
            Operation::ApprovalsStatus => match (ctx.identity, p.at("approval_id"@).text()) {
                (IdentityV::Agent(agent), Some(approval_id)) => ask(
                    Call::ApprovalStatus { agent, approval_id },
                    op,
                ),
                (IdentityV::Agent(_), None) => invalid(req, "missing approval_id"@),
                _ => refusal(req, "E_AUTH"@, "approvals.status requires agent credentials"@),
            },
            Operation::ApprovalsPending => ask(Call::ApprovalPending { actor: ctx.actor }, op),
            Operation::ApprovalsApprove => match p.at("approval_id"@).text() {
                Some(approval_id) => ask(
                    Call::ApprovalDecide { actor: ctx.actor, approval_id, approved: true },
                    op,
                ),
                None => invalid(req, "missing approval_id"@),
            },
            Operation::ApprovalsDeny => match p.at("approval_id"@).text() {
                Some(approval_id) => ask(
                    Call::ApprovalDecide { actor: ctx.actor, approval_id, approved: false },
                    op,
                ),
                None => invalid(req, "missing approval_id"@),
            },
            Operation::RunSignal => begin_signal(req, ctx),
            Operation::SessionOpen => begin_open(req, ctx),
            Operation::SessionTouch => match req.auth.session {
                Some(credential) => ask(Call::TouchSession { credential }, op),
                None => answer(gate::session_expired(req.id)),
            },
            Operation::SessionClose => match req.auth.session {
                Some(credential) => ask(Call::CloseSession { credential }, op),
                None => answer(gate::session_expired(req.id)),
            },
            Operation::RunsList => ask(Call::ListRuns { actor: ctx.actor }, op),
            Operation::VaultHealth => ask(Call::Health { actor: ctx.actor }, op),
        },
    }
}

/// The first step of an admitted request.
pub fn begin(req: &Request, ctx: &Context) -> (r: Step)
    ensures
        r@ == first_step(req@, ctx@),
{
    let p = &req.params;
    let op = match Operation::parse(&req.op) {
        Some(o) => o,
        None => {
            return refuse(req, "E_PROTOCOL", &joined("unknown op: ", &req.op));
        },
    };
    let actor = ctx.actor.clone();
    match op {
        Operation::InjectFile => do_begin_inject(req, ctx),
        Operation::VaultStatus => finish_with(Call::Status { actor }, op),
        Operation::VaultLock => finish_with(Call::LockAndDrain { actor }, op),
        Operation::SecretsList => do_begin_list(req, ctx),
        Operation::VaultUnlock => match req.session() {
            Some(_) => refuse(req, "E_SESSION_EXPIRED", "session expired or revoked"),
            None => if ctx.proven {
                Step::Ask { call: Call::Unlock, stage: Stage::Unlocking }
            } else {
                refuse(req, "E_AUTH", "authentication failed")
            },
        },
        Operation::VaultCreate => refuse(req, "E_EXISTS", "vault already exists"),
        Operation::ProjectAdd => match params::project_params(req) {
            Some((name, paths)) => finish_with(Call::ProjectAdd { actor, name, paths }, op),
            None => refuse_invalid(req, "missing project name"),
        },
        Operation::ProjectList => finish_with(Call::ProjectList { actor }, op),
        Operation::ProjectPathAdd => match (p.text_at("name"), p.text_at("path")) {
            (Some(name), Some(path)) => finish_with(
                Call::ProjectPathAdd { actor, name: name.to_string(), path: path.to_string() },
                op,
            ),
            _ => refuse_invalid(req, "missing name or path"),
        },
        Operation::ProjectPathRemove => match (p.text_at("name"), p.text_at("path")) {
            (Some(name), Some(path)) => finish_with(
                Call::ProjectPathRemove { actor, name: name.to_string(), path: path.to_string() },
                op,
            ),
            _ => refuse_invalid(req, "missing name or path"),
        },
        Operation::ProjectRemove => match p.text_at("name") {
            Some(name) => finish_with(Call::ProjectRemove { actor, name: name.to_string() }, op),
            None => refuse_invalid(req, "missing name"),
        },
        Operation::SecretSet => match (p.text_at("project"), p.text_at("key"), p.text_at("value")) {
            (Some(project), Some(key), Some(value)) => finish_with(
                Call::SecretSet {
                    actor,
                    project: project.to_string(),
                    key: key.to_string(),
                    value: value.to_string(),
                },
                op,
            ),
            _ => refuse_invalid(req, "missing project, key or value"),
        },
        Operation::SecretDelete => match (p.text_at("project"), p.text_at("key")) {
            (Some(project), Some(key)) => finish_with(
                Call::SecretDelete { actor, project: project.to_string(), key: key.to_string() },
                op,
            ),
            _ => refuse_invalid(req, "missing project or key"),
        },
        Operation::AgentsAdd => match p.text_at("name") {
            Some(name) => finish_with(Call::AgentAdd { actor, name: name.to_string() }, op),
            None => refuse_invalid(req, "missing name"),
        },
        Operation::AgentsRevoke => match p.text_at("name") {
            Some(name) => Step::Ask {
                call: Call::AgentRevoke { actor, name: name.to_string() },
                stage: Stage::AgentRevoked,
            },
            None => refuse_invalid(req, "missing name"),
        },
        Operation::AgentsList => finish_with(Call::AgentList { actor }, op),
        Operation::GrantsGrant => match (p.text_at("agent"), p.text_at("project")) {
            (Some(_), Some(_)) => Step::Ask {
                call: Call::ParseOps { ops: ops_text(req) },
                stage: Stage::GrantParsed,
            },
            _ => refuse_invalid(req, "missing agent or project"),
        },
        Operation::GrantsRevoke => match (p.text_at("agent"), p.text_at("project")) {
            (Some(agent), Some(project)) => Step::Ask {
                call: Call::GrantRevoke {
                    actor,
                    agent: agent.to_string(),
                    project: project.to_string(),
                },
                stage: Stage::GrantRevoked,
            },
            _ => refuse_invalid(req, "missing agent or project"),
        },
        Operation::GrantsList => finish_with(Call::GrantList { actor }, op),
        Operation::AuditShow => do_begin_audit(req, ctx),
        Operation::AuditVerify => finish_with(Call::AuditVerify, op),
        Operation::LeaseCreate => match &ctx.identity {
            Identity::Agent(_) => match p.text_at("project") {
                Some(_) => Step::Ask {
                    call: Call::ParseOps { ops: ops_text(req) },
                    stage: Stage::LeaseParsed,
                },
                None => refuse_invalid(req, "missing project"),
            },
            _ => refuse(req, "E_AUTH", "lease.create requires agent credentials"),
        },
        Operation::LeaseList => finish_with(
            Call::LeaseList { actor, owner: owner_of(&ctx.identity) },
            op,
        ),
        Operation::LeaseRevoke => match p.text_at("lease_id") {
            Some(lease_id) => finish_with(
                Call::LeaseRevoke {
                    actor,
                    owner: owner_of(&ctx.identity),
                    lease_id: lease_id.to_string(),
                },
                op,
            ),
            None => refuse_invalid(req, "missing lease_id"),
        },
        Operation::Reveal => do_begin_reveal(req, ctx),
        Operation::ApprovalsStatus => match &ctx.identity {
            Identity::Agent(agent) => match p.text_at("approval_id") {
                Some(approval_id) => finish_with(
                    Call::ApprovalStatus {
                        agent: agent.clone(),
                        approval_id: approval_id.to_string(),
                    },
                    op,
                ),
                None => refuse_invalid(req, "missing approval_id"),
            },
            _ => refuse(req, "E_AUTH", "approvals.status requires agent credentials"),
        },
        Operation::ApprovalsPending => finish_with(Call::ApprovalPending { actor }, op),
        Operation::ApprovalsApprove => match p.text_at("approval_id") {
            Some(approval_id) => finish_with(
                Call::ApprovalDecide {
                    actor,
                    approval_id: approval_id.to_string(),
                    approved: true,
                },
                op,
            ),
            None => refuse_invalid(req, "missing approval_id"),
        },
        Operation::ApprovalsDeny => match p.text_at("approval_id") {
            Some(approval_id) => finish_with(
                Call::ApprovalDecide {
                    actor,
                    approval_id: approval_id.to_string(),
                    approved: false,
                },
                op,
            ),
            None => refuse_invalid(req, "missing approval_id"),
        },
        Operation::RunSignal => do_begin_signal(req, ctx),
        Operation::SessionOpen => do_begin_open(req, ctx),
        Operation::SessionTouch => match req.session() {
            Some(c) => finish_with(Call::TouchSession { credential: c.to_string() }, op),
            None => refuse(req, "E_SESSION_EXPIRED", "session expired or revoked"),
        },
        Operation::SessionClose => match req.session() {
            Some(c) => finish_with(Call::CloseSession { credential: c.to_string() }, op),
            None => refuse(req, "E_SESSION_EXPIRED", "session expired or revoked"),
        },
        Operation::RunsList => finish_with(Call::ListRuns { actor }, op),
        Operation::VaultHealth => finish_with(Call::Health { actor }, op),
    }
}

// ------------------------------------------------------------------- replies
/// Two names with a slash between them.
pub open spec fn slashed(a: Seq<char>, b: Seq<char>) -> Seq<char> {
    a + "/"@ + b
}

fn slash(a: &str, b: &str) -> (r: String)
    ensures
        r@ == slashed(a@, b@),
{
    let mut s = a.to_string();
    s.push_str("/");
    s.push_str(b);
    s
}

/// An object with one text.
pub open spec fn one_text(key: Seq<char>, value: Seq<char>) -> JsonV {
    json::empty_object().with(key, JsonV::Str(value))
}

/// An object with one flag that holds.
pub open spec fn one_flag(key: Seq<char>) -> JsonV {
    json::empty_object().with(key, JsonV::Bool(true))
}

fn text_result(req: &Request, key: &str, value: &str) -> (r: Step)
    ensures
        r@ == answer(wire::ok_response(req@.id, one_text(key@, value@))),
{
    let mut j = Json::object();
    j.put(key, Json::string(value));
    answered(req, j)
}

fn flag_result(req: &Request, key: &str) -> (r: Step)
    ensures
        r@ == answer(wire::ok_response(req@.id, one_flag(key@))),
{
    let mut j = Json::object();
    j.put(key, Json::Bool(true));
    answered(req, j)
}

fn list_result(req: &Request, key: &str, rows: Json) -> (r: Step)
    ensures
        r@ == answer(wire::ok_response(req@.id, json::empty_object().with(key@, rows@))),
{
    let mut j = Json::object();
    j.put(key, rows);
    answered(req, j)
}

/// The window of a session, added to an object.
pub open spec fn with_window(j: JsonV, w: SessionWindow) -> JsonV {
    j.with("expires_at"@, JsonV::Str(w.expires_at@)).with(
        "expires_in"@,
        JsonV::UInt(w.expires_in),
    ).with("max_expires_at"@, JsonV::Str(w.max_expires_at@)).with(
        "max_expires_in"@,
        JsonV::UInt(w.max_expires_in),
    )
}

/// A session credential and its window, added to an object.
pub open spec fn with_session(j: JsonV, s: SessionGrant) -> JsonV {
    with_window(
        j.with("session_credential"@, JsonV::Str(s.credential@)).with(
            "session_prefix"@,
            JsonV::Str(s.prefix@),
        ),
        s.window,
    )
}

fn put_window(j: &mut Json, w: &SessionWindow)
    ensures
        final(j)@ == with_window(old(j)@, *w),
{
    j.put("expires_at", Json::string(&w.expires_at));
    j.put("expires_in", Json::UInt(w.expires_in));
    j.put("max_expires_at", Json::string(&w.max_expires_at));
    j.put("max_expires_in", Json::UInt(w.max_expires_in));
}

fn put_session(j: &mut Json, s: &SessionGrant)
    ensures
        final(j)@ == with_session(old(j)@, *s),
{
    j.put("session_credential", Json::string(&s.credential));
    j.put("session_prefix", Json::string(&s.prefix));
    put_window(j, &s.window);
}

/// The values of some audit lines.
pub open spec fn line_values(lines: Seq<AuditLine>) -> JsonV {
    JsonV::Array(Seq::new(lines.len(), |i: int| audit::line_value(lines[i]@)))
}

fn line_array(lines: &Vec<AuditLine>) -> (j: Json)
    ensures
        j@ == line_values(lines@),
{
    let mut out: Vec<Json> = Vec::new();
    let mut i: usize = 0;
    while i < lines.len()
        invariant
            i <= lines@.len(),
            out@.len() == i,
            forall|k: int| 0 <= k < i ==> (#[trigger] out@[k])@ == audit::line_value(lines@[k]@),
        decreases lines@.len() - i,
    {
        out.push(lines[i].to_json());
        i = i + 1;
    }
    let j = Json::Array(out);
    assert(j@->Array_0 =~= line_values(lines@)->Array_0);
    j
}

/// What is revealed: the text of a secret, unless it is not UTF-8.
pub open spec fn revealed(req: RequestV, bytes: Seq<u8>) -> StepV {
    if vstd::utf8::valid_utf8(bytes) {
        answer(
            wire::ok_response(req.id, one_text("value"@, vstd::utf8::decode_utf8(bytes))),
        )
    } else {
        invalid(req, "secret is not valid UTF-8"@)
    }
}

/// The status of an approval; what the vault no longer knows is left blank.
pub open spec fn approval_value(
    approval_id: Seq<char>,
    status: Seq<char>,
    facts: Option<ApprovalFacts>,
) -> JsonV {
    let base = one_text("approval_id"@, approval_id).with("status"@, JsonV::Str(status));
    match facts {
        Some(f) => base.with("project"@, JsonV::Str(rows::or_empty(f.project))).with(
            "key"@,
            JsonV::Str(f.key@),
        ).with("expires_in"@, JsonV::UInt(rows::remaining(f.expires_in))),
        None => base.with("project"@, JsonV::Str(""@)).with("key"@, JsonV::Str(""@)).with(
            "expires_in"@,
            JsonV::UInt(0),
        ),
    }
}

fn approval_json(approval_id: &str, status: &str, facts: &Option<ApprovalFacts>) -> (j: Json)
    ensures
        j@ == approval_value(approval_id@, status@, *facts),
{
    let mut j = Json::object();
    j.put("approval_id", Json::string(approval_id));
    j.put("status", Json::string(status));
    match facts {
        Some(f) => {
            match &f.project {
                Some(p) => j.put("project", Json::string(p)),
                None => j.put("project", Json::string("")),
            }
            j.put("key", Json::string(&f.key));
            j.put("expires_in", Json::UInt(rows::remaining_secs(f.expires_in)));
        },
        None => {
            j.put("project", Json::string(""));
            j.put("key", Json::string(""));
            j.put("expires_in", Json::UInt(0));
        },
    }
    j
}

/// The text of a parameter that the operation has read before.
pub open spec fn param(req: RequestV, key: Seq<char>) -> Seq<char> {
    text_or_empty(req.params.at(key).text())
}

fn param_text(req: &Request, key: &str) -> (r: String)
    ensures
        r@ == param(req@, key@),
{
    match req.params.text_at(key) {
        Some(s) => s.to_string(),
        None => "".to_string(),
    }
}

/// What an operation answers for the last reply.
pub open spec fn last_step(req: RequestV, op: Operation, reply: Reply) -> StepV {
    let ok = |j: JsonV| answer(wire::ok_response(req.id, j));
    match (op, reply) {
        (_, Reply::Failed { code, msg }) => refusal(req, code@, msg@),
        (Operation::InjectFile, Reply::Injected { path, keys }) => ok(
            one_text("path"@, path@).with("count"@, JsonV::UInt(keys@.len() as u64)).with(
                "keys"@,
                json::text_array(text::texts(keys@)),
            ),
        ),
        (Operation::VaultStatus, Reply::Status { version, created, locked }) => ok(
            json::empty_object().with("version"@, JsonV::UInt(version)).with(
                "created"@,
                JsonV::Str(created@),
            ).with("locked"@, JsonV::Bool(locked)),
        ),
        (Operation::VaultLock, Reply::Done) => ok(one_flag("locked"@)),
        (Operation::SecretsList, Reply::Secrets(v)) => ok(
            json::empty_object().with("secrets"@, rows::secret_values(v@)),
        ),
        (Operation::ProjectAdd, Reply::Done) => ok(one_text("added"@, param(req, "name"@))),
        (Operation::ProjectList, Reply::Projects(v)) => ok(
            json::empty_object().with("projects"@, rows::project_values(v@)),
        ),
        (Operation::ProjectPathAdd, Reply::Done) => ok(one_text("added"@, param(req, "path"@))),
        (Operation::ProjectPathRemove, Reply::Done) => ok(
            one_text("removed"@, param(req, "path"@)),
        ),
        (Operation::ProjectRemove, Reply::Done) => ok(one_text("removed"@, param(req, "name"@))),
        (Operation::SecretSet, Reply::Done) => ok(
            one_text("set"@, slashed(param(req, "project"@), param(req, "key"@))),
        ),
        (Operation::SecretDelete, Reply::Done) => ok(
            one_text("deleted"@, slashed(param(req, "project"@), param(req, "key"@))),
        ),
        (Operation::AgentsAdd, Reply::AgentAdded { agent_id, token }) => ok(
            one_text("agent_id"@, agent_id@).with("token"@, JsonV::Str(token@)),
        ),
        (Operation::AgentsRevoke, Reply::Done) => ok(one_text("revoked"@, param(req, "name"@))),
        (Operation::AgentsList, Reply::Agents(v)) => ok(
            json::empty_object().with("agents"@, rows::agent_values(v@)),
        ),
        (Operation::GrantsGrant, Reply::Done) => ok(
            one_text("granted"@, slashed(param(req, "agent"@), param(req, "project"@))),
        ),
        (Operation::GrantsRevoke, Reply::Done) => ok(
            one_text("revoked"@, slashed(param(req, "agent"@), param(req, "project"@))),
        ),
        (Operation::GrantsList, Reply::Grants(v)) => ok(
            json::empty_object().with("grants"@, rows::grant_values(v@)),
        ),
        (Operation::AuditShow, Reply::AuditPage { lines, next_before_seq }) => ok(
            json::empty_object().with("entries"@, line_values(lines@)).with(
                "next_before_seq"@,
                json::uint_or_null(next_before_seq),
            ),
        ),
        (Operation::AuditVerify, Reply::Verified { entries, macs_verified, macs_null }) => ok(
            json::empty_object().with("entries"@, JsonV::UInt(entries)).with(
                "macs_verified"@,
                JsonV::UInt(macs_verified),
            ).with("macs_null"@, JsonV::UInt(macs_null)),
        ),
        (Operation::LeaseCreate, Reply::Leased { id, prefix, credential, expires_at }) => ok(
            one_text("lease_id"@, id@).with("lease_prefix"@, JsonV::Str(prefix@)).with(
                "lease_credential"@,
                JsonV::Str(credential@),
            ).with("expires_at"@, JsonV::Str(expires_at@)).with(
                "expires_in"@,
                json::uint_or_null(req.params.at("ttl_secs"@).uint()),
            ),
        ),
        (Operation::LeaseList, Reply::Leases(v)) => ok(
            json::empty_object().with("leases"@, rows::lease_values(v@)),
        ),
        (Operation::LeaseRevoke, Reply::Done) => ok(
            one_text("lease_id"@, param(req, "lease_id"@)).with("revoked"@, JsonV::Bool(true)),
        ),
        (Operation::Reveal, Reply::Secret(bytes)) => revealed(req, bytes@),
        (Operation::ApprovalsStatus, Reply::ApprovalStatus { status, facts }) => ok(
            approval_value(param(req, "approval_id"@), status@, facts),
        ),
        (Operation::ApprovalsPending, Reply::Approvals(v)) => ok(
            json::empty_object().with("approvals"@, rows::approval_values(v@)),
        ),
        (Operation::ApprovalsApprove, Reply::Done) => ok(
            one_text("approval_id"@, param(req, "approval_id"@)).with(
                "status"@,
                JsonV::Str("approved"@),
            ),
        ),
        (Operation::ApprovalsDeny, Reply::Done) => ok(
            one_text("approval_id"@, param(req, "approval_id"@)).with(
                "status"@,
                JsonV::Str("denied"@),
            ),
        ),
        (Operation::SessionOpen, Reply::Session(s)) => ok(with_session(json::empty_object(), s)),
        (Operation::SessionTouch, Reply::Window(w)) => ok(with_window(json::empty_object(), w)),
        (Operation::SessionClose, Reply::Done) => ok(one_flag("closed"@)),
        (Operation::RunsList, Reply::Runs(v)) => ok(
            json::empty_object().with("runs"@, rows::sorted_runs(v@)),
        ),
        (Operation::VaultHealth, Reply::Health(j)) => ok(j@),
        _ => StepV::Stuck,
    }
}

fn do_last_step(req: &Request, op: Operation, reply: Reply) -> (r: Step)
    ensures
        r@ == last_step(req@, op, reply),
{
    match (op, reply) {
        (_, Reply::Failed { code, msg }) => refuse(req, &code, &msg),
        (Operation::InjectFile, Reply::Injected { path, keys }) => {
            let mut j = Json::object();
            j.put("path", Json::string(&path));
            j.put("count", Json::UInt(keys.len() as u64));
            j.put("keys", Json::strings(keys.as_slice()));
            answered(req, j)
        },
        (Operation::VaultStatus, Reply::Status { version, created, locked }) => {
            let mut j = Json::object();
            j.put("version", Json::UInt(version));
            j.put("created", Json::string(&created));
            j.put("locked", Json::Bool(locked));
            answered(req, j)
        },
        (Operation::VaultLock, Reply::Done) => flag_result(req, "locked"),
        (Operation::SecretsList, Reply::Secrets(v)) => list_result(
            req,
            "secrets",
            rows::secret_array(&v),
        ),
        (Operation::ProjectAdd, Reply::Done) => text_result(
            req,
            "added",
            &param_text(req, "name"),
        ),
        (Operation::ProjectList, Reply::Projects(v)) => list_result(
            req,
            "projects",
            rows::project_array(&v),
        ),
        (Operation::ProjectPathAdd, Reply::Done) => text_result(
            req,
            "added",
            &param_text(req, "path"),
        ),
        (Operation::ProjectPathRemove, Reply::Done) => text_result(
            req,
            "removed",
            &param_text(req, "path"),
        ),
        (Operation::ProjectRemove, Reply::Done) => text_result(
            req,
            "removed",
            &param_text(req, "name"),
        ),
        (Operation::SecretSet, Reply::Done) => text_result(
            req,
            "set",
            &slash(&param_text(req, "project"), &param_text(req, "key")),
        ),
        (Operation::SecretDelete, Reply::Done) => text_result(
            req,
            "deleted",
            &slash(&param_text(req, "project"), &param_text(req, "key")),
        ),
        (Operation::AgentsAdd, Reply::AgentAdded { agent_id, token }) => {
            let mut j = Json::object();
            j.put("agent_id", Json::string(&agent_id));
            j.put("token", Json::string(&token));
            answered(req, j)
        },
        (Operation::AgentsRevoke, Reply::Done) => text_result(
            req,
            "revoked",
            &param_text(req, "name"),
        ),
        (Operation::AgentsList, Reply::Agents(v)) => list_result(
            req,
            "agents",
            rows::agent_array(&v),
        ),
        (Operation::GrantsGrant, Reply::Done) => text_result(
            req,
            "granted",
            &slash(&param_text(req, "agent"), &param_text(req, "project")),
        ),
        (Operation::GrantsRevoke, Reply::Done) => text_result(
            req,
            "revoked",
            &slash(&param_text(req, "agent"), &param_text(req, "project")),
        ),
        (Operation::GrantsList, Reply::Grants(v)) => list_result(
            req,
            "grants",
            rows::grant_array(&v),
        ),
        (Operation::AuditShow, Reply::AuditPage { lines, next_before_seq }) => {
            let mut j = Json::object();
            j.put("entries", line_array(&lines));
            j.put("next_before_seq", Json::uint_or_null(next_before_seq));
            answered(req, j)
        },
        (Operation::AuditVerify, Reply::Verified { entries, macs_verified, macs_null }) => {
            let mut j = Json::object();
            j.put("entries", Json::UInt(entries));
            j.put("macs_verified", Json::UInt(macs_verified));
            j.put("macs_null", Json::UInt(macs_null));
            answered(req, j)
        },
        (Operation::LeaseCreate, Reply::Leased { id, prefix, credential, expires_at }) => {
            let mut j = Json::object();
            j.put("lease_id", Json::string(&id));
            j.put("lease_prefix", Json::string(&prefix));
            j.put("lease_credential", Json::string(&credential));
            j.put("expires_at", Json::string(&expires_at));
            j.put("expires_in", Json::uint_or_null(req.params.uint_at("ttl_secs")));
            answered(req, j)
        },
        (Operation::LeaseList, Reply::Leases(v)) => list_result(
            req,
            "leases",
            rows::lease_array(&v),
        ),
        (Operation::LeaseRevoke, Reply::Done) => {
            let mut j = Json::object();
            j.put("lease_id", Json::string(&param_text(req, "lease_id")));
            j.put("revoked", Json::Bool(true));
            answered(req, j)
        },
        (Operation::Reveal, Reply::Secret(bytes)) => match text::utf8_text(bytes) {
            Some(value) => text_result(req, "value", &value),
            None => refuse_invalid(req, "secret is not valid UTF-8"),
        },
        (Operation::ApprovalsStatus, Reply::ApprovalStatus { status, facts }) => {
            let j = approval_json(&param_text(req, "approval_id"), &status, &facts);
            answered(req, j)
        },
        (Operation::ApprovalsPending, Reply::Approvals(v)) => list_result(
            req,
            "approvals",
            rows::approval_array(&v),
        ),
        (Operation::ApprovalsApprove, Reply::Done) => {
            let mut j = Json::object();
            j.put("approval_id", Json::string(&param_text(req, "approval_id")));
            j.put("status", Json::string("approved"));
            answered(req, j)
        },
        (Operation::ApprovalsDeny, Reply::Done) => {
            let mut j = Json::object();
            j.put("approval_id", Json::string(&param_text(req, "approval_id")));
            j.put("status", Json::string("denied"));
            answered(req, j)
        },
        (Operation::SessionOpen, Reply::Session(s)) => {
            let mut j = Json::object();
            put_session(&mut j, &s);
            answered(req, j)
        },
        (Operation::SessionTouch, Reply::Window(w)) => {
            let mut j = Json::object();
            put_window(&mut j, &w);
            answered(req, j)
        },
        (Operation::SessionClose, Reply::Done) => flag_result(req, "closed"),
        (Operation::RunsList, Reply::Runs(v)) => list_result(
            req,
            "runs",
            rows::sorted_run_array(&v),
        ),
        (Operation::VaultHealth, Reply::Health(j)) => answered(req, j),
        _ => Step::Stuck,
    }
}

/// Whether a list of operations holds the one that runs children.
pub open spec fn allows_runs(ops: Seq<Seq<char>>) -> bool {
    ops.contains("run"@)
}

fn has_run(ops: &Vec<String>) -> (r: bool)
    ensures
        r == allows_runs(text::texts(ops@)),
{
    let mut i: usize = 0;
    while i < ops.len()
        invariant
            i <= ops@.len(),
            forall|k: int| 0 <= k < i ==> (#[trigger] text::texts(ops@)[k]) != "run"@,
        decreases ops@.len() - i,
    {
        if same(&ops[i], "run") {
            assert(text::texts(ops@)[i as int] == "run"@);
            return true;
        }
        i = i + 1;
    }
    false
}

/// The step that follows a reply at a stage.
pub open spec fn next_step(
    req: RequestV,
    ctx: ContextV,
    stage: Stage<Seq<char>>,
    reply: Reply,
) -> StepV {
    match (stage, reply) {
        (Stage::Finish(op), _) => last_step(req, op, reply),
        // The vault is open whatever becomes of the session seed.
        (Stage::Unlocking, Reply::Done) => ask_at(
            Call::OpenSession { actor: ctx.actor, ttl_secs: None },
            Stage::Seeding,
        ),
        (Stage::Seeding, Reply::Session(s)) => answer(
            wire::ok_response(req.id, with_session(one_flag("unlocked"@), s)),
        ),
        (Stage::Seeding, Reply::Failed { .. }) => answer(
            wire::ok_response(req.id, one_flag("unlocked"@)),
        ),
        (Stage::Recording, Reply::Failed { .. }) => refusal(
            req,
            "E_AUDIT_WRITE"@,
            "audit write failed"@,
        ),
        (Stage::Recording, Reply::Done) => answer(
            wire::ok_response(
                req.id,
                one_text("run_id"@, param(req, "run_id"@)).with("signaled"@, JsonV::Bool(true)),
            ),
        ),
        (Stage::SignalRead { project, .. }, Reply::Failed { code, msg }) => signal_denied(
            req,
            ctx.actor,
            project,
            code@,
            msg@,
        ),
        (Stage::Signaled { project }, Reply::Failed { code, .. }) => signal_denied(
            req,
            ctx.actor,
            project,
            code@,
            "signal failed"@,
        ),
        (_, Reply::Failed { code, msg }) => refusal(req, code@, msg@),
        (Stage::Injecting, Reply::Actor(a)) => inject_as(req, ctx, a@),
        (Stage::Listing, Reply::Actor(a)) => match req.params.at("project"@).text() {
            Some(project) => ask(
                Call::SecretList { project, actor: a@ },
                Operation::SecretsList,
            ),
            None => StepV::Stuck,
        },
        (Stage::Revealing, Reply::Actor(a)) => reveal_as(req, ctx, a@),
        (Stage::AgentRevoked, Reply::AgentId(agent)) => ask(
            Call::TerminateRuns { actor: ctx.actor, agent: agent@, project: None },
            Operation::AgentsRevoke,
        ),
        (Stage::GrantParsed, Reply::Ops(list)) => match (
            req.params.at("agent"@).text(),
            req.params.at("project"@).text(),
        ) {
            (Some(agent), Some(project)) => ask_at(
                Call::GrantAdd {
                    actor: ctx.actor,
                    agent,
                    project,
                    ops: text::texts(list@),
                },
                Stage::Granted { keeps_run: allows_runs(text::texts(list@)) },
            ),
            _ => StepV::Stuck,
        },
        // A grant that loses the right to run ends what it had started.
        (Stage::Granted { keeps_run }, Reply::Granted { could_run }) => match could_run {
            Some(agent) => if keeps_run {
                last_step(req, Operation::GrantsGrant, Reply::Done)
            } else {
                ask(
                    Call::TerminateRuns {
                        actor: "human"@,
                        agent: agent@,
                        project: Some(param(req, "project"@)),
                    },
                    Operation::GrantsGrant,
                )
            },
            None => last_step(req, Operation::GrantsGrant, Reply::Done),
        },
        (Stage::GrantRevoked, Reply::AgentId(agent)) => ask(
            Call::TerminateRuns {
                actor: ctx.actor,
                agent: agent@,
                project: Some(param(req, "project"@)),
            },
            Operation::GrantsRevoke,
        ),
        (Stage::LeaseParsed, Reply::Ops(list)) => match (
            ctx.identity,
            req.params.at("project"@).text(),
            req.params.at("ttl_secs"@).uint(),
        ) {
            (IdentityV::Agent(agent), Some(project), Some(ttl_secs)) => ask(
                Call::LeaseCreate {
                    actor: ctx.actor,
                    agent,
                    project,
                    ops: text::texts(list@),
                    ttl_secs,
                },
                Operation::LeaseCreate,
            ),
            (IdentityV::Agent(_), Some(_), None) => invalid(req, "missing ttl_secs"@),
            _ => StepV::Stuck,
        },
        (Stage::ApprovalRequested, Reply::Approval { id, expires_in }) => answer(
            wire::err_data_response(
                req.id,
                "E_APPROVAL_PENDING"@,
                "approval pending"@,
                one_text("approval_id"@, id@).with(
                    "expires_in"@,
                    JsonV::UInt(rows::remaining(expires_in)),
                ),
            ),
        ),
        (Stage::RunFound, Reply::NoRun) => run_missing(req, ctx),
        (Stage::RunFound, Reply::Run { project, pgid }) => match ctx.identity {
            IdentityV::Agent(agent) => ask_at(
                Call::RunGate { agent, project: project@ },
                Stage::RunGated { project: project@, pgid },
            ),
            _ => StepV::Stuck,
        },
        (Stage::RunGated { project, pgid }, Reply::RunGate { unlocked, authorized }) => if !unlocked {
            signal_denied(req, ctx.actor, project, "E_LOCKED"@, "vault is locked"@)
        } else if !authorized {
            signal_denied(req, ctx.actor, project, "E_PERMISSION"@, "permission denied"@)
        } else {
            ask_at(
                Call::ParseSignal { signal: param(req, "signal"@) },
                Stage::SignalRead { project, pgid },
            )
        },
        // The run may have ended, and its group been taken over, since it was
        // looked up.
        (Stage::SignalRead { project, pgid }, Reply::Signal(signal)) => match ctx.identity {
            IdentityV::Agent(agent) => ask_at(
                Call::FindRun { agent, run_id: param(req, "run_id"@) },
                Stage::RunRechecked { project, pgid, signal },
            ),
            _ => StepV::Stuck,
        },
        (Stage::RunRechecked { .. }, Reply::NoRun) => run_missing(req, ctx),
        (
            Stage::RunRechecked { project, pgid, signal },
            Reply::Run { project: live, pgid: live_pgid },
        ) => if live@ == project && live_pgid == pgid {
            ask_at(Call::SignalGroup { pgid, signal }, Stage::Signaled { project })
        } else {
            run_missing(req, ctx)
        },
        (Stage::Signaled { project }, Reply::Done) => ask_at(
            Call::RecordSignal {
                actor: ctx.actor,
                project,
                run_id: param(req, "run_id"@),
            },
            Stage::Recording,
        ),
        _ => StepV::Stuck,
    }
}

/// The step that follows a reply.
pub fn resume(req: &Request, ctx: &Context, stage: Stage<String>, reply: Reply) -> (r: Step)
    ensures
        r@ == next_step(req@, ctx@, stage_value(stage), reply),
{
    match (stage, reply) {
        (Stage::Finish(op), reply) => do_last_step(req, op, reply),
        (Stage::Unlocking, Reply::Done) => Step::Ask {
            call: Call::OpenSession { actor: ctx.actor.clone(), ttl_secs: None },
            stage: Stage::Seeding,
        },
        (Stage::Seeding, Reply::Session(s)) => {
            let mut j = Json::object();
            j.put("unlocked", Json::Bool(true));
            put_session(&mut j, &s);
            answered(req, j)
        },
        (Stage::Seeding, Reply::Failed { .. }) => flag_result(req, "unlocked"),
        (Stage::Recording, Reply::Failed { .. }) => refuse(
            req,
            "E_AUDIT_WRITE",
            "audit write failed",
        ),
        (Stage::Recording, Reply::Done) => {
            let mut j = Json::object();
            j.put("run_id", Json::string(&param_text(req, "run_id")));
            j.put("signaled", Json::Bool(true));
            answered(req, j)
        },
        (Stage::SignalRead { project, .. }, Reply::Failed { code, msg }) => refuse_signal(
            req,
            ctx,
            &project,
            &code,
            &msg,
        ),
        (Stage::Signaled { project }, Reply::Failed { code, .. }) => refuse_signal(
            req,
            ctx,
            &project,
            &code,
            "signal failed",
        ),
        (_, Reply::Failed { code, msg }) => refuse(req, &code, &msg),
        (Stage::Injecting, Reply::Actor(a)) => do_inject_as(req, ctx, a),
        (Stage::Listing, Reply::Actor(a)) => match req.params.text_at("project") {
            Some(project) => finish_with(
                Call::SecretList { project: project.to_string(), actor: a },
                Operation::SecretsList,
            ),
            None => Step::Stuck,
        },
        (Stage::Revealing, Reply::Actor(a)) => do_reveal_as(req, ctx, a),
        (Stage::AgentRevoked, Reply::AgentId(agent)) => finish_with(
            Call::TerminateRuns { actor: ctx.actor.clone(), agent, project: None },
            Operation::AgentsRevoke,
        ),
        (Stage::GrantParsed, Reply::Ops(list)) => match (
            req.params.text_at("agent"),
            req.params.text_at("project"),
        ) {
            (Some(agent), Some(project)) => {
                let keeps_run = has_run(&list);
                Step::Ask {
                    call: Call::GrantAdd {
                        actor: ctx.actor.clone(),
                        agent: agent.to_string(),
                        project: project.to_string(),
                        ops: list,
                    },
                    stage: Stage::Granted { keeps_run },
                }
            },
            _ => Step::Stuck,
        },
        (Stage::Granted { keeps_run }, Reply::Granted { could_run }) => match could_run {
            Some(agent) => if keeps_run {
                do_last_step(req, Operation::GrantsGrant, Reply::Done)
            } else {
                finish_with(
                    Call::TerminateRuns {
                        actor: "human".to_string(),
                        agent,
                        project: Some(param_text(req, "project")),
                    },
                    Operation::GrantsGrant,
                )
            },
            None => do_last_step(req, Operation::GrantsGrant, Reply::Done),
        },
        (Stage::GrantRevoked, Reply::AgentId(agent)) => finish_with(
            Call::TerminateRuns {
                actor: ctx.actor.clone(),
                agent,
                project: Some(param_text(req, "project")),
            },
            Operation::GrantsRevoke,
        ),
        (Stage::LeaseParsed, Reply::Ops(list)) => match &ctx.identity {
            Identity::Agent(agent) => match req.params.text_at("project") {
                Some(project) => match req.params.uint_at("ttl_secs") {
                    Some(ttl_secs) => finish_with(
                        Call::LeaseCreate {
                            actor: ctx.actor.clone(),
                            agent: agent.clone(),
                            project: project.to_string(),
                            ops: list,
                            ttl_secs,
                        },
                        Operation::LeaseCreate,
                    ),
                    None => refuse_invalid(req, "missing ttl_secs"),
                },
                None => Step::Stuck,
            },
            _ => Step::Stuck,
        },
        (Stage::ApprovalRequested, Reply::Approval { id, expires_in }) => {
            let mut j = Json::object();
            j.put("approval_id", Json::string(&id));
            j.put("expires_in", Json::UInt(rows::remaining_secs(expires_in)));
            Step::Answer {
                trace: Trace::Nothing,
                response: Response::err_data(
                    &req.id,
                    "E_APPROVAL_PENDING",
                    "approval pending",
                    j,
                ),
            }
        },
        (Stage::RunFound, Reply::NoRun) => refuse_recorded(
            req,
            ctx,
            "run_signal",
            None,
            "E_NOT_FOUND",
            "not found",
        ),
        (Stage::RunFound, Reply::Run { project, pgid }) => match &ctx.identity {
            Identity::Agent(agent) => Step::Ask {
                call: Call::RunGate { agent: agent.clone(), project: project.clone() },
                stage: Stage::RunGated { project, pgid },
            },
            _ => Step::Stuck,
        },
        (Stage::RunGated { project, pgid }, Reply::RunGate { unlocked, authorized }) => if !unlocked {
            refuse_signal(req, ctx, &project, "E_LOCKED", "vault is locked")
        } else if !authorized {
            refuse_signal(req, ctx, &project, "E_PERMISSION", "permission denied")
        } else {
            Step::Ask {
                call: Call::ParseSignal { signal: param_text(req, "signal") },
                stage: Stage::SignalRead { project, pgid },
            }
        },
        (Stage::SignalRead { project, pgid }, Reply::Signal(signal)) => match &ctx.identity {
            Identity::Agent(agent) => Step::Ask {
                call: Call::FindRun { agent: agent.clone(), run_id: param_text(req, "run_id") },
                stage: Stage::RunRechecked { project, pgid, signal },
            },
            _ => Step::Stuck,
        },
        (Stage::RunRechecked { .. }, Reply::NoRun) => refuse_recorded(
            req,
            ctx,
            "run_signal",
            None,
            "E_NOT_FOUND",
            "not found",
        ),
        (
            Stage::RunRechecked { project, pgid, signal },
            Reply::Run { project: live, pgid: live_pgid },
        ) => if same(&live, &project) && live_pgid == pgid {
            Step::Ask {
                call: Call::SignalGroup { pgid, signal },
                stage: Stage::Signaled { project },
            }
        } else {
            refuse_recorded(req, ctx, "run_signal", None, "E_NOT_FOUND", "not found")
        },
        (Stage::Signaled { project }, Reply::Done) => Step::Ask {
            call: Call::RecordSignal {
                actor: ctx.actor.clone(),
                project,
                run_id: param_text(req, "run_id"),
            },
            stage: Stage::Recording,
        },
        _ => Step::Stuck,
    }
}

/// What stands for a value stands for all of it: the same variant, with every part.
pub proof fn law_call_value_is_faithful(c: SessionCall)
    ensures
        match (c, call_value(c)) {
            (
                Call::AuthorizeLease { agent, project, need, credential },
                Call::AuthorizeLease { agent: agent_v, project: project_v, need: need_v, credential: credential_v },
            ) => agent_v == agent@
                && project_v == project@
                && need_v == need
                && credential_v == (json::opt_text(credential)),
            (
                Call::InjectFile { actor, project, path, keys },
                Call::InjectFile { actor: actor_v, project: project_v, path: path_v, keys: keys_v },
            ) => actor_v == actor@
                && project_v == project@
                && path_v == path@
                && keys_v == (params::opt_texts(keys)),
            (Call::Status { actor }, Call::Status { actor: actor_v }) => actor_v == actor@,
            (
                Call::LockAndDrain { actor },
                Call::LockAndDrain { actor: actor_v },
            ) => actor_v == actor@,
            (
                Call::SecretList { project, actor },
                Call::SecretList { project: project_v, actor: actor_v },
            ) => project_v == project@
                && actor_v == actor@,
            (Call::Unlock, Call::Unlock) => true,
            (
                Call::OpenSession { actor, ttl_secs },
                Call::OpenSession { actor: actor_v, ttl_secs: ttl_secs_v },
            ) => actor_v == actor@
                && ttl_secs_v == ttl_secs,
            (
                Call::ProjectAdd { actor, name, paths },
                Call::ProjectAdd { actor: actor_v, name: name_v, paths: paths_v },
            ) => actor_v == actor@
                && name_v == name@
                && paths_v == (text::texts(paths@)),
            (
                Call::ProjectList { actor },
                Call::ProjectList { actor: actor_v },
            ) => actor_v == actor@,
            (
                Call::ProjectPathAdd { actor, name, path },
                Call::ProjectPathAdd { actor: actor_v, name: name_v, path: path_v },
            ) => actor_v == actor@
                && name_v == name@
                && path_v == path@,
            (
                Call::ProjectPathRemove { actor, name, path },
                Call::ProjectPathRemove { actor: actor_v, name: name_v, path: path_v },
            ) => actor_v == actor@
                && name_v == name@
                && path_v == path@,
            (
                Call::ProjectRemove { actor, name },
                Call::ProjectRemove { actor: actor_v, name: name_v },
            ) => actor_v == actor@
                && name_v == name@,
            (
                Call::SecretSet { actor, project, key, value },
                Call::SecretSet { actor: actor_v, project: project_v, key: key_v, value: value_v },
            ) => actor_v == actor@
                && project_v == project@
                && key_v == key@
                && value_v == value@,
            (
                Call::SecretDelete { actor, project, key },
                Call::SecretDelete { actor: actor_v, project: project_v, key: key_v },
            ) => actor_v == actor@
                && project_v == project@
                && key_v == key@,
            (
                Call::AgentAdd { actor, name },
                Call::AgentAdd { actor: actor_v, name: name_v },
            ) => actor_v == actor@
                && name_v == name@,
            (
                Call::AgentRevoke { actor, name },
                Call::AgentRevoke { actor: actor_v, name: name_v },
            ) => actor_v == actor@
                && name_v == name@,
            (Call::AgentList { actor }, Call::AgentList { actor: actor_v }) => actor_v == actor@,
            (Call::ParseOps { ops }, Call::ParseOps { ops: ops_v }) => ops_v == ops@,
            (
                Call::GrantAdd { actor, agent, project, ops },
                Call::GrantAdd { actor: actor_v, agent: agent_v, project: project_v, ops: ops_v },
            ) => actor_v == actor@
                && agent_v == agent@
                && project_v == project@
                && ops_v == (text::texts(ops@)),
            (
                Call::GrantRevoke { actor, agent, project },
                Call::GrantRevoke { actor: actor_v, agent: agent_v, project: project_v },
            ) => actor_v == actor@
                && agent_v == agent@
                && project_v == project@,
            (Call::GrantList { actor }, Call::GrantList { actor: actor_v }) => actor_v == actor@,
            (
                Call::TerminateRuns { actor, agent, project },
                Call::TerminateRuns { actor: actor_v, agent: agent_v, project: project_v },
            ) => actor_v == actor@
                && agent_v == agent@
                && project_v == (json::opt_text(project)),
            (
                Call::AuditPage { actor, tail, before_seq },
                Call::AuditPage { actor: actor_v, tail: tail_v, before_seq: before_seq_v },
            ) => actor_v == actor@
                && tail_v == tail
                && before_seq_v == before_seq,
            (Call::AuditVerify, Call::AuditVerify) => true,
            (
                Call::LeaseCreate { actor, agent, project, ops, ttl_secs },
                Call::LeaseCreate { actor: actor_v, agent: agent_v, project: project_v, ops: ops_v, ttl_secs: ttl_secs_v },
            ) => actor_v == actor@
                && agent_v == agent@
                && project_v == project@
                && ops_v == (text::texts(ops@))
                && ttl_secs_v == ttl_secs,
            (
                Call::LeaseList { actor, owner },
                Call::LeaseList { actor: actor_v, owner: owner_v },
            ) => actor_v == actor@
                && owner_v == (json::opt_text(owner)),
            (
                Call::LeaseRevoke { actor, owner, lease_id },
                Call::LeaseRevoke { actor: actor_v, owner: owner_v, lease_id: lease_id_v },
            ) => actor_v == actor@
                && owner_v == (json::opt_text(owner))
                && lease_id_v == lease_id@,
            (
                Call::RevealHuman { actor, project, key },
                Call::RevealHuman { actor: actor_v, project: project_v, key: key_v },
            ) => actor_v == actor@
                && project_v == project@
                && key_v == key@,
            (
                Call::RevealClaim { actor, agent, project, key, approval_id },
                Call::RevealClaim { actor: actor_v, agent: agent_v, project: project_v, key: key_v, approval_id: approval_id_v },
            ) => actor_v == actor@
                && agent_v == agent@
                && project_v == project@
                && key_v == key@
                && approval_id_v == approval_id@,
            (
                Call::RequestApproval { actor, agent, project, key },
                Call::RequestApproval { actor: actor_v, agent: agent_v, project: project_v, key: key_v },
            ) => actor_v == actor@
                && agent_v == agent@
                && project_v == project@
                && key_v == key@,
            (
                Call::ApprovalStatus { agent, approval_id },
                Call::ApprovalStatus { agent: agent_v, approval_id: approval_id_v },
            ) => agent_v == agent@
                && approval_id_v == approval_id@,
            (
                Call::ApprovalPending { actor },
                Call::ApprovalPending { actor: actor_v },
            ) => actor_v == actor@,
            (
                Call::ApprovalDecide { actor, approval_id, approved },
                Call::ApprovalDecide { actor: actor_v, approval_id: approval_id_v, approved: approved_v },
            ) => actor_v == actor@
                && approval_id_v == approval_id@
                && approved_v == approved,
            (
                Call::FindRun { agent, run_id },
                Call::FindRun { agent: agent_v, run_id: run_id_v },
            ) => agent_v == agent@
                && run_id_v == run_id@,
            (
                Call::RunGate { agent, project },
                Call::RunGate { agent: agent_v, project: project_v },
            ) => agent_v == agent@
                && project_v == project@,
            (
                Call::ParseSignal { signal },
                Call::ParseSignal { signal: signal_v },
            ) => signal_v == signal@,
            (
                Call::SignalGroup { pgid, signal },
                Call::SignalGroup { pgid: pgid_v, signal: signal_v },
            ) => pgid_v == pgid
                && signal_v == signal,
            (
                Call::RecordSignal { actor, project, run_id },
                Call::RecordSignal { actor: actor_v, project: project_v, run_id: run_id_v },
            ) => actor_v == actor@
                && project_v == project@
                && run_id_v == run_id@,
            (
                Call::TouchSession { credential },
                Call::TouchSession { credential: credential_v },
            ) => credential_v == credential@,
            (
                Call::CloseSession { credential },
                Call::CloseSession { credential: credential_v },
            ) => credential_v == credential@,
            (Call::ListRuns { actor }, Call::ListRuns { actor: actor_v }) => actor_v == actor@,
            (Call::Health { actor }, Call::Health { actor: actor_v }) => actor_v == actor@,
            _ => false,
        },
{
}

/// What stands for a value stands for all of it: the same variant, with every part.
pub proof fn law_stage_value_is_faithful(s: Stage<String>)
    ensures
        match (s, stage_value(s)) {
            (Stage::Finish(op), Stage::Finish(v0)) => v0 == op,
            (Stage::Injecting, Stage::Injecting) => true,
            (Stage::Listing, Stage::Listing) => true,
            (Stage::Revealing, Stage::Revealing) => true,
            (Stage::Unlocking, Stage::Unlocking) => true,
            (Stage::Seeding, Stage::Seeding) => true,
            (Stage::AgentRevoked, Stage::AgentRevoked) => true,
            (Stage::GrantParsed, Stage::GrantParsed) => true,
            (
                Stage::Granted { keeps_run },
                Stage::Granted { keeps_run: keeps_run_v },
            ) => keeps_run_v == keeps_run,
            (Stage::GrantRevoked, Stage::GrantRevoked) => true,
            (Stage::LeaseParsed, Stage::LeaseParsed) => true,
            (Stage::ApprovalRequested, Stage::ApprovalRequested) => true,
            (Stage::RunFound, Stage::RunFound) => true,
            (
                Stage::RunGated { project, pgid },
                Stage::RunGated { project: project_v, pgid: pgid_v },
            ) => project_v == project@
                && pgid_v == pgid,
            (
                Stage::SignalRead { project, pgid },
                Stage::SignalRead { project: project_v, pgid: pgid_v },
            ) => project_v == project@
                && pgid_v == pgid,
            (
                Stage::RunRechecked { project, pgid, signal },
                Stage::RunRechecked { project: project_v, pgid: pgid_v, signal: signal_v },
            ) => project_v == project@
                && pgid_v == pgid
                && signal_v == signal,
            (
                Stage::Signaled { project },
                Stage::Signaled { project: project_v },
            ) => project_v == project@,
            (Stage::Recording, Stage::Recording) => true,
            _ => false,
        },
{
}

/// What stands for a value stands for all of it: the same variant, with every part.
pub proof fn law_the_view_of_trace_is_faithful(x: Trace)
    ensures
        match (x, x@) {
            (Trace::Nothing, TraceV::Nothing) => true,
            (Trace::Denied(d), TraceV::Denied(v0)) => v0 == d@,
            (
                Trace::SignalDenied { actor, project, run_id, reason },
                TraceV::SignalDenied { actor: actor_v, project: project_v, run_id: run_id_v, reason: reason_v },
            ) => actor_v == actor@
                && project_v == project@
                && run_id_v == run_id@
                && reason_v == reason@,
            _ => false,
        },
{
}

/// What stands for a value stands for all of it: the same variant, with every part.
pub proof fn law_the_view_of_step_is_faithful(x: Step)
    ensures
        match (x, x@) {
            (
                Step::Ask { call, stage },
                StepV::Ask { call: call_v, stage: stage_v },
            ) => call_v == (call_value(call))
                && stage_v == (stage_value(stage)),
            (
                Step::Answer { trace, response },
                StepV::Answer { trace: trace_v, response: response_v },
            ) => trace_v == trace@
                && response_v == response@,
            (Step::Stuck, StepV::Stuck) => true,
            _ => false,
        },
{
}

/// What stands for a value stands for all of it, part by part.
pub proof fn law_the_view_of_context_is_faithful(x: Context)
    ensures
        x@.actor == x.actor@,
        x@.identity == x.identity@,
        x@.locked == x.locked,
        x@.proven == x.proven,
{
}

} // verus!
