//! A run with secrets, from its request to the end of the child.
//!
//! The run is a machine: [`Run::step`] takes what came of the last action and
//! gives the next one. The caller performs the actions, which are the work of
//! the session, of the operating system and of the connection. Until an agent
//! is known, its grant checked and the run recorded, no action reaches a
//! secret or a process; and once a child lives, no path leaves it behind.

use vstd::prelude::*;

use crate::audit;
use crate::error::{Fault, VaultError};
use crate::json::{self, Json, JsonV};
use crate::order;
use crate::text::{self, joined, same};
use crate::wire::{self, Request, RequestV, Response, ResponseV};

verus! {

/// How many milliseconds pass between two looks at a child.
pub const POLL_INTERVAL_MS: u64 = 20;

/// How many descriptors come with a run: standard input, output and error.
pub const STDIO_FDS: usize = 3;

/// How a child ended: its exit code, or the name of the signal that ended it.
pub struct Exit<S> {
    pub code: Option<i32>,
    pub signal: Option<S>,
}

/// What the parameters of a run ask for.
pub struct Launch<S, L> {
    pub project: S,
    pub executable: S,
    pub arg_count: u64,
    /// The wanted keys; all keys of the project where there are none.
    pub keys: Option<L>,
    pub cwd: Option<S>,
    pub timeout_secs: Option<u64>,
}

/// Why a run was ended.
#[derive(Clone, Copy, Debug, PartialEq, Eq, Structural)]
pub enum Cause {
    /// The start could not be announced to the client.
    Unannounced,
    /// The child ended by itself.
    Exited,
    /// The child could not be looked at.
    WaitFailed,
    /// The time was up.
    TimedOut,
    /// The client went away.
    PeerGone,
}

/// Where a run stands: the action whose outcome it waits for.
#[derive(Clone, Copy, Debug, PartialEq, Eq, Structural)]
pub enum Stage {
    Idle,
    Params,
    Vault,
    Agent,
    Unlocked,
    Grant,
    Keys,
    AllKeys,
    Env,
    Cwd,
    Name,
    Slot,
    Allow,
    Spawn,
    Activate,
    Revoked,
    Start,
    Unrecorded,
    Announce,
    Watch,
    Pause,
    Ending(Cause),
    Recorded(Cause),
    Farewell(Cause),
    Over,
}

/// What a look at a child shows.
pub enum Look<S> {
    Exited(Exit<S>),
    Running,
    Failed,
}

/// What came of an action.
pub enum Event<S, L, E> {
    Done,
    Failed(E),
    Flag(bool),
    Parsed(Launch<S, L>),
    Agent(Option<S>),
    Keys(L),
    Named(S),
    /// The registry refused the run.
    Unreserved { code: S, msg: S },
    Spawned(i32),
    Reaped(Option<Exit<S>>),
    /// A look at the child, the whole seconds since the start was announced,
    /// and whether the client is gone.
    Looked { look: Look<S>, elapsed_secs: u64, peer_gone: bool },
}

/// A refused run, for the audit log.
pub struct RunDenial<S, L, E> {
    pub actor: S,
    pub project: Option<S>,
    pub keys: L,
    pub run_id: Option<S>,
    pub why: E,
}

/// What is to be done next.
#[allow(inconsistent_fields)]
pub enum Act<S, L, R, E> {
    /// Lock the vault if its idle window is over.
    LockIfIdle,
    /// Parse the parameters of the request.
    ParseParams,
    /// Tell whether there is a vault.
    FindVault,
    /// Find the active agent with this token.
    ResolveAgent { token: S },
    /// Tell whether the vault is open.
    CheckUnlocked,
    /// Tell whether the agent may run in the project.
    Authorize { agent: S, project: S },
    /// Tell whether the project has this secret.
    LookUp { project: S, key: S },
    /// Give the names of the project's secrets.
    ListKeys { project: S },
    /// Put the child's environment together from these secrets.
    BuildEnv { project: S, keys: L },
    /// Open the working directory below the project's folders.
    OpenCwd { project: S, cwd: S },
    /// Draw a run id.
    NewRunId,
    /// Reserve a place in the registry.
    Reserve { agent: S, project: S, run_id: S },
    /// Record that the run is allowed.
    RecordAllowed { actor: S, project: S, keys: L, arg_count: u64 },
    /// Start the child in a process group of its own.
    Spawn,
    /// Enter the child in the registry; false where the run was revoked.
    Activate { run_id: S, pid: i32 },
    /// End the process group and wait for the child.
    EndGroup { pgid: i32 },
    /// Keep the reservation and record the start.
    RecordStarted {
        actor: S,
        project: S,
        keys: L,
        run_id: S,
        executable: S,
        arg_count: u64,
        cwd: Option<S>,
    },
    /// Announce the start.
    Announce(R),
    /// Look at the child, the clock and the connection.
    Look,
    /// Wait until the next look.
    Sleep,
    /// Take the run out of the registry and end its process group if it was
    /// there; with `reap`, wait for the child too.
    Finish { run_id: S, pgid: i32, reap: bool },
    /// Record the end.
    RecordExited {
        actor: S,
        project: S,
        keys: L,
        run_id: S,
        executable: S,
        arg_count: u64,
        cwd: Option<S>,
        exit_code: Option<i32>,
        signal: Option<S>,
    },
    /// Tell whether the client is gone.
    CheckPeer,
    /// Record the refusal, if any, release the reservation, if any, and answer.
    Refuse { denial: Option<RunDenial<S, L, E>>, release: Option<S>, response: R },
    /// Answer.
    Answer(R),
    /// Close the connection without an answer.
    Quit,
}

/// Everything that a run knows of itself.
pub struct RunData<S, L> {
    pub stage: Stage,
    pub id: S,
    pub token: Option<S>,
    pub passphrase: bool,
    pub fds: usize,
    pub max_keys: usize,
    pub max_secs: u64,
    pub launch: Launch<S, L>,
    pub agent: S,
    pub actor: S,
    /// How many of the wanted keys were looked up, and whether one is missing.
    pub looked: usize,
    pub missing: bool,
    pub keys: L,
    pub run_id: S,
    pub pid: i32,
    pub exit: Option<Exit<S>>,
    pub recorded: bool,
}

pub type RunEvent = Event<String, Vec<String>, VaultError>;

pub type RunAct = Act<String, Vec<String>, Response, VaultError>;

/// The mathematical values of a run, of its events and of its actions.
pub type RunV = RunData<Seq<char>, Seq<Seq<char>>>;

pub type EventV = Event<Seq<char>, Seq<Seq<char>>, Fault>;

pub type ActV = Act<Seq<char>, Seq<Seq<char>>, ResponseV, Fault>;

pub type DenialV = RunDenial<Seq<char>, Seq<Seq<char>>, Fault>;

// --------------------------------------------------------------------- views
pub open spec fn exit_value(e: Exit<String>) -> Exit<Seq<char>> {
    Exit { code: e.code, signal: json::opt_text(e.signal) }
}

pub open spec fn opt_exit(e: Option<Exit<String>>) -> Option<Exit<Seq<char>>> {
    match e {
        Some(x) => Some(exit_value(x)),
        None => None,
    }
}

pub open spec fn opt_texts(l: Option<Vec<String>>) -> Option<Seq<Seq<char>>> {
    match l {
        Some(v) => Some(text::texts(v@)),
        None => None,
    }
}

pub open spec fn launch_value(l: Launch<String, Vec<String>>) -> Launch<Seq<char>, Seq<Seq<char>>> {
    Launch {
        project: l.project@,
        executable: l.executable@,
        arg_count: l.arg_count,
        keys: opt_texts(l.keys),
        cwd: json::opt_text(l.cwd),
        timeout_secs: l.timeout_secs,
    }
}

pub open spec fn look_value(l: Look<String>) -> Look<Seq<char>> {
    match l {
        Look::Exited(e) => Look::Exited(exit_value(e)),
        Look::Running => Look::Running,
        Look::Failed => Look::Failed,
    }
}

pub open spec fn event_value(e: RunEvent) -> EventV {
    match e {
        Event::Done => Event::Done,
        Event::Failed(err) => Event::Failed(err@),
        Event::Flag(b) => Event::Flag(b),
        Event::Parsed(l) => Event::Parsed(launch_value(l)),
        Event::Agent(a) => Event::Agent(json::opt_text(a)),
        Event::Keys(k) => Event::Keys(text::texts(k@)),
        Event::Named(n) => Event::Named(n@),
        Event::Unreserved { code, msg } => Event::Unreserved { code: code@, msg: msg@ },
        Event::Spawned(pid) => Event::Spawned(pid),
        Event::Reaped(x) => Event::Reaped(opt_exit(x)),
        Event::Looked { look, elapsed_secs, peer_gone } => Event::Looked {
            look: look_value(look),
            elapsed_secs,
            peer_gone,
        },
    }
}

pub open spec fn opt_run_denial(d: Option<RunDenial<String, Vec<String>, VaultError>>) -> Option<
    DenialV,
> {
    match d {
        Some(x) => Some(
            RunDenial {
                actor: x.actor@,
                project: json::opt_text(x.project),
                keys: text::texts(x.keys@),
                run_id: json::opt_text(x.run_id),
                why: x.why@,
            },
        ),
        None => None,
    }
}

pub open spec fn act_value(a: RunAct) -> ActV {
    match a {
        Act::LockIfIdle => Act::LockIfIdle,
        Act::ParseParams => Act::ParseParams,
        Act::FindVault => Act::FindVault,
        Act::ResolveAgent { token } => Act::ResolveAgent { token: token@ },
        Act::CheckUnlocked => Act::CheckUnlocked,
        Act::Authorize { agent, project } => Act::Authorize { agent: agent@, project: project@ },
        Act::LookUp { project, key } => Act::LookUp { project: project@, key: key@ },
        Act::ListKeys { project } => Act::ListKeys { project: project@ },
        Act::BuildEnv { project, keys } => Act::BuildEnv {
            project: project@,
            keys: text::texts(keys@),
        },
        Act::OpenCwd { project, cwd } => Act::OpenCwd { project: project@, cwd: cwd@ },
        Act::NewRunId => Act::NewRunId,
        Act::Reserve { agent, project, run_id } => Act::Reserve {
            agent: agent@,
            project: project@,
            run_id: run_id@,
        },
        Act::RecordAllowed { actor, project, keys, arg_count } => Act::RecordAllowed {
            actor: actor@,
            project: project@,
            keys: text::texts(keys@),
            arg_count,
        },
        Act::Spawn => Act::Spawn,
        Act::Activate { run_id, pid } => Act::Activate { run_id: run_id@, pid },
        Act::EndGroup { pgid } => Act::EndGroup { pgid },
        Act::RecordStarted { actor, project, keys, run_id, executable, arg_count, cwd } =>
            Act::RecordStarted {
            actor: actor@,
            project: project@,
            keys: text::texts(keys@),
            run_id: run_id@,
            executable: executable@,
            arg_count,
            cwd: json::opt_text(cwd),
        },
        Act::Announce(r) => Act::Announce(r@),
        Act::Look => Act::Look,
        Act::Sleep => Act::Sleep,
        Act::Finish { run_id, pgid, reap } => Act::Finish { run_id: run_id@, pgid, reap },
        Act::RecordExited {
            actor,
            project,
            keys,
            run_id,
            executable,
            arg_count,
            cwd,
            exit_code,
            signal,
        } => Act::RecordExited {
            actor: actor@,
            project: project@,
            keys: text::texts(keys@),
            run_id: run_id@,
            executable: executable@,
            arg_count,
            cwd: json::opt_text(cwd),
            exit_code,
            signal: json::opt_text(signal),
        },
        Act::CheckPeer => Act::CheckPeer,
        Act::Refuse { denial, release, response } => Act::Refuse {
            denial: opt_run_denial(denial),
            release: json::opt_text(release),
            response: response@,
        },
        Act::Answer(r) => Act::Answer(r@),
        Act::Quit => Act::Quit,
    }
}

// ---------------------------------------------------------------------- rules
/// Whether an event can be the outcome of the action that a stage waits for.
pub open spec fn fits<S, L, E>(stage: Stage, e: Event<S, L, E>) -> bool {
    match stage {
        Stage::Idle | Stage::Env | Stage::Cwd | Stage::Allow | Stage::Start | Stage::Announce
        | Stage::Recorded(_) => e is Done || e is Failed,
        Stage::Params => e is Parsed || e is Failed,
        Stage::Vault | Stage::Unlocked | Stage::Grant | Stage::Keys | Stage::Activate
        | Stage::Farewell(_) => e is Flag,
        Stage::Agent => e is Agent,
        Stage::AllKeys => e is Keys,
        Stage::Name => e is Named || e is Failed,
        Stage::Slot => e is Done || e is Unreserved,
        Stage::Spawn => e is Spawned || e is Failed,
        Stage::Revoked | Stage::Pause | Stage::Ending(Cause::Exited) => e is Done,
        Stage::Unrecorded | Stage::Ending(_) => e is Reaped,
        Stage::Watch => e is Looked,
        Stage::Over => false,
    }
}

/// Whether an event is a yes.
pub open spec fn yes(e: EventV) -> bool {
    e matches Event::Flag(b) && b
}

/// What holds of every run: while wanted keys are looked up, one is left, and
/// all keys are asked for only where none are wanted.
pub open spec fn run_wf(s: RunV) -> bool {
    &&& s.stage == Stage::Keys ==> s.launch.keys is Some && s.looked < s.launch.keys->0.len()
    &&& s.stage == Stage::AllKeys ==> s.launch.keys is None
}

pub open spec fn at(s: RunV, stage: Stage) -> RunV {
    RunData { stage, ..s }
}

/// The refusal of a run, recorded with its reason.
pub open spec fn refused(
    s: RunV,
    actor: Seq<char>,
    project: Option<Seq<char>>,
    keys: Seq<Seq<char>>,
    run_id: Option<Seq<char>>,
    why: Fault,
    release: Option<Seq<char>>,
    response: ResponseV,
) -> (RunV, ActV) {
    (
        at(s, Stage::Over),
        Act::Refuse {
            denial: Some(RunDenial { actor, project, keys, run_id, why }),
            release,
            response,
        },
    )
}

/// The refusal of a run that leaves no entry.
pub open spec fn unrecorded_refusal(
    s: RunV,
    release: Option<Seq<char>>,
    response: ResponseV,
) -> (RunV, ActV) {
    (at(s, Stage::Over), Act::Refuse { denial: None, release, response })
}

pub open spec fn failed_response(id: Seq<char>, e: Fault) -> ResponseV {
    wire::err_response(id, e.code(), e.message())
}

/// A refusal before an agent is known.
pub open spec fn refused_unknown(
    s: RunV,
    project: Option<Seq<char>>,
    why: Fault,
    response: ResponseV,
) -> (RunV, ActV) {
    refused(s, "agent:unknown"@, project, Seq::empty(), None, why, None, response)
}

/// A refusal of a known agent before its keys are chosen.
pub open spec fn refused_early(
    s: RunV,
    keys: Seq<Seq<char>>,
    why: Fault,
    response: ResponseV,
) -> (RunV, ActV) {
    refused(s, s.actor, Some(s.launch.project), keys, None, why, None, response)
}

/// A refusal for a failed preparation.
pub open spec fn refused_failed(s: RunV, run_id: Option<Seq<char>>, why: Fault) -> (RunV, ActV) {
    refused(
        s,
        s.actor,
        Some(s.launch.project),
        s.keys,
        run_id,
        why,
        run_id,
        failed_response(s.id, why),
    )
}

/// The keys are chosen: put the environment together.
pub open spec fn with_keys(s: RunV, keys: Seq<Seq<char>>) -> (RunV, ActV) {
    (
        RunData { stage: Stage::Env, keys, ..s },
        Act::BuildEnv { project: s.launch.project, keys },
    )
}

/// The next wanted key, or what follows the last one.
pub open spec fn look_up(
    s: RunV,
    wanted: Seq<Seq<char>>,
    looked: nat,
    missing: bool,
) -> (RunV, ActV) {
    if looked < wanted.len() {
        (
            RunData { stage: Stage::Keys, looked: looked as usize, missing, ..s },
            Act::LookUp { project: s.launch.project, key: wanted[looked as int] },
        )
    } else if missing {
        refused_early(
            s,
            wanted,
            Fault::NotFound,
            wire::err_response(s.id, "E_NOT_FOUND"@, "not found"@),
        )
    } else {
        with_keys(s, wanted)
    }
}

pub open spec fn finishing(s: RunV, cause: Cause) -> (RunV, ActV) {
    (
        at(s, Stage::Ending(cause)),
        Act::Finish { run_id: s.run_id, pgid: s.pid, reap: cause != Cause::Exited },
    )
}

pub open spec fn recording(s: RunV, cause: Cause, exit: Option<Exit<Seq<char>>>) -> (RunV, ActV) {
    (
        RunData { stage: Stage::Recorded(cause), exit, ..s },
        Act::RecordExited {
            actor: s.actor,
            project: s.launch.project,
            keys: s.keys,
            run_id: s.run_id,
            executable: s.launch.executable,
            arg_count: s.launch.arg_count,
            cwd: s.launch.cwd,
            exit_code: match exit {
                Some(x) => x.code,
                None => None,
            },
            signal: match exit {
                Some(x) => x.signal,
                None => None,
            },
        },
    )
}

/// The time that a child may take.
pub open spec fn window(s: RunV) -> u64 {
    match s.launch.timeout_secs {
        Some(t) => t,
        None => s.max_secs,
    }
}

/// The announcement of a start.
pub open spec fn started_body(run_id: Seq<char>, pid: i32) -> JsonV {
    json::empty_object().with("run_id"@, JsonV::Str(run_id)).with(
        "pid"@,
        json::int_value(pid as int),
    ).with("status"@, JsonV::Str("started"@))
}

/// What is told of an end: the exit code of a clean exit, the signal of any
/// other.
pub open spec fn exit_body(exit: Exit<Seq<char>>) -> JsonV {
    let with_code = match exit.code {
        Some(c) => json::empty_object().with("exit_code"@, json::int_value(c as int)),
        None => json::empty_object(),
    };
    match exit.signal {
        Some(s) => with_code.with("signal"@, JsonV::Str(s)),
        None => with_code,
    }
}

/// The announcement of an end.
pub open spec fn exited_body(run_id: Seq<char>, exit: Exit<Seq<char>>) -> JsonV {
    exit_body(exit).with("run_id"@, JsonV::Str(run_id)).with(
        "status"@,
        JsonV::Str("exited"@),
    )
}

/// What follows what came of an action.
pub open spec fn stepped(s: RunV, e: EventV) -> (RunV, ActV) {
    match s.stage {
        Stage::Idle => match e {
            Event::Failed(why) => unrecorded_refusal(s, None, failed_response(s.id, why)),
            _ => if s.fds != STDIO_FDS {
                refused_unknown(
                    s,
                    None,
                    Fault::InvalidInput("expected exactly 3 file descriptors"@),
                    wire::err_response(
                        s.id,
                        "E_INVALID_INPUT"@,
                        "expected exactly 3 file descriptors"@,
                    ),
                )
            } else {
                (at(s, Stage::Params), Act::ParseParams)
            },
        },
        Stage::Params => match e {
            Event::Parsed(launch) => (RunData { stage: Stage::Vault, launch, ..s }, Act::FindVault),
            Event::Failed(why) => refused_unknown(s, None, why, failed_response(s.id, why)),
            _ => (s, Act::Quit),
        },
        Stage::Vault => if !yes(e) {
            unrecorded_refusal(
                s,
                None,
                wire::err_response(s.id, "E_NOT_FOUND"@, "no vault exists; run svault init"@),
            )
        } else if s.token is Some && s.passphrase {
            refused_unknown(
                s,
                Some(s.launch.project),
                Fault::Protocol("provide either a token or a passphrase, not both"@),
                wire::err_response(
                    s.id,
                    "E_PROTOCOL"@,
                    "provide either a token or a passphrase, not both"@,
                ),
            )
        } else {
            match s.token {
                Some(token) => (at(s, Stage::Agent), Act::ResolveAgent { token }),
                None => stranger(s),
            }
        },
        Stage::Agent => match e {
            Event::Agent(Some(agent)) => (
                RunData { stage: Stage::Unlocked, agent, actor: "agent:"@ + agent, ..s },
                Act::CheckUnlocked,
            ),
            _ => stranger(s),
        },
        Stage::Unlocked => if yes(e) {
            (
                at(s, Stage::Grant),
                Act::Authorize { agent: s.agent, project: s.launch.project },
            )
        } else {
            refused_early(
                s,
                Seq::empty(),
                Fault::Locked,
                wire::err_response(s.id, "E_LOCKED"@, "vault is locked"@),
            )
        },
        Stage::Grant => if yes(e) {
            match s.launch.keys {
                Some(wanted) => look_up(s, wanted, 0, false),
                None => (at(s, Stage::AllKeys), Act::ListKeys { project: s.launch.project }),
            }
        } else {
            refused_early(
                s,
                Seq::empty(),
                Fault::Permission,
                wire::err_response(s.id, "E_PERMISSION"@, "permission denied"@),
            )
        },
        Stage::Keys => look_up(
            s,
            s.launch.keys->0,
            (s.looked + 1) as nat,
            s.missing || !yes(e),
        ),
        Stage::AllKeys => match e {
            Event::Keys(found) => {
                let all = order::sorted(found);
                if all.len() == 0 {
                    refused_early(
                        s,
                        Seq::empty(),
                        Fault::InvalidInput("no secrets to run with"@),
                        wire::err_response(
                            s.id,
                            "E_INVALID_INPUT"@,
                            "invalid input: no secrets to run with"@,
                        ),
                    )
                } else if all.len() > s.max_keys {
                    refused_early(
                        s,
                        all,
                        Fault::InvalidInput("too many keys"@),
                        wire::err_response(
                            s.id,
                            "E_INVALID_INPUT"@,
                            "invalid input: too many keys"@,
                        ),
                    )
                } else {
                    with_keys(s, all)
                }
            },
            _ => (s, Act::Quit),
        },
        Stage::Env => match e {
            Event::Failed(why) => refused_failed(s, None, why),
            _ => match s.launch.cwd {
                Some(cwd) => (
                    at(s, Stage::Cwd),
                    Act::OpenCwd { project: s.launch.project, cwd },
                ),
                None => (at(s, Stage::Name), Act::NewRunId),
            },
        },
        Stage::Cwd => match e {
            Event::Failed(why) => refused_failed(s, None, why),
            _ => (at(s, Stage::Name), Act::NewRunId),
        },
        Stage::Name => match e {
            Event::Failed(why) => refused_failed(s, None, why),
            Event::Named(run_id) => (
                RunData { stage: Stage::Slot, run_id, ..s },
                Act::Reserve { agent: s.agent, project: s.launch.project, run_id },
            ),
            _ => (s, Act::Quit),
        },
        Stage::Slot => match e {
            Event::Unreserved { code, msg } => refused(
                s,
                s.actor,
                Some(s.launch.project),
                s.keys,
                Some(s.run_id),
                if code == "E_BUSY"@ {
                    Fault::Busy
                } else {
                    Fault::Protocol(msg)
                },
                None,
                wire::err_response(s.id, code, msg),
            ),
            _ => (
                at(s, Stage::Allow),
                Act::RecordAllowed {
                    actor: s.actor,
                    project: s.launch.project,
                    keys: s.keys,
                    arg_count: s.launch.arg_count,
                },
            ),
        },
        Stage::Allow => match e {
            Event::Failed(_) => unrecorded_refusal(
                s,
                Some(s.run_id),
                wire::err_response(s.id, "E_AUDIT_WRITE"@, "audit write failed"@),
            ),
            _ => (at(s, Stage::Spawn), Act::Spawn),
        },
        Stage::Spawn => match e {
            Event::Failed(why) => refused_failed(s, Some(s.run_id), why),
            Event::Spawned(pid) => (
                RunData { stage: Stage::Activate, pid, ..s },
                Act::Activate { run_id: s.run_id, pid },
            ),
            _ => (s, Act::Quit),
        },
        Stage::Activate => if yes(e) {
            (
                at(s, Stage::Start),
                Act::RecordStarted {
                    actor: s.actor,
                    project: s.launch.project,
                    keys: s.keys,
                    run_id: s.run_id,
                    executable: s.launch.executable,
                    arg_count: s.launch.arg_count,
                    cwd: s.launch.cwd,
                },
            )
        } else {
            (at(s, Stage::Revoked), Act::EndGroup { pgid: s.pid })
        },
        Stage::Revoked => refused(
            s,
            s.actor,
            Some(s.launch.project),
            s.keys,
            Some(s.run_id),
            Fault::Permission,
            Some(s.run_id),
            wire::err_response(s.id, "E_PERMISSION"@, "run capability was revoked"@),
        ),
        Stage::Start => match e {
            Event::Failed(_) => (
                at(s, Stage::Unrecorded),
                Act::Finish { run_id: s.run_id, pgid: s.pid, reap: true },
            ),
            _ => (
                at(s, Stage::Announce),
                Act::Announce(wire::ok_response(s.id, started_body(s.run_id, s.pid))),
            ),
        },
        Stage::Unrecorded => unrecorded_refusal(
            s,
            None,
            wire::err_response(s.id, "E_AUDIT_WRITE"@, "audit write failed"@),
        ),
        Stage::Announce => match e {
            Event::Failed(_) => finishing(s, Cause::Unannounced),
            _ => (at(s, Stage::Watch), Act::Look),
        },
        Stage::Watch => match e {
            Event::Looked { look, elapsed_secs, peer_gone } => match look {
                Look::Exited(exit) => finishing(RunData { exit: Some(exit), ..s }, Cause::Exited),
                Look::Failed => finishing(s, Cause::WaitFailed),
                Look::Running => if elapsed_secs >= window(s) {
                    finishing(s, Cause::TimedOut)
                } else if peer_gone {
                    finishing(s, Cause::PeerGone)
                } else {
                    (at(s, Stage::Pause), Act::Sleep)
                },
            },
            _ => (s, Act::Quit),
        },
        Stage::Pause => (at(s, Stage::Watch), Act::Look),
        Stage::Ending(cause) => match e {
            Event::Reaped(exit) => recording(s, cause, exit),
            _ => recording(s, cause, s.exit),
        },
        Stage::Recorded(cause) => {
            let t = RunData { recorded: e is Done, ..s };
            match cause {
                Cause::Exited | Cause::TimedOut => (at(t, Stage::Farewell(cause)), Act::CheckPeer),
                _ => (at(t, Stage::Over), Act::Quit),
            }
        },
        Stage::Farewell(cause) => if yes(e) {
            (at(s, Stage::Over), Act::Quit)
        } else if cause == Cause::Exited && !s.recorded {
            (
                at(s, Stage::Over),
                Act::Answer(wire::err_response(s.id, "E_AUDIT_WRITE"@, "audit write failed"@)),
            )
        } else {
            match s.exit {
                Some(exit) => (
                    at(s, Stage::Over),
                    Act::Answer(wire::ok_response(s.id, exited_body(s.run_id, exit))),
                ),
                None => (
                    at(s, Stage::Over),
                    Act::Answer(wire::err_response(s.id, "E_IO"@, "io error: wait failed"@)),
                ),
            }
        },
        Stage::Over => (s, Act::Quit),
    }
}

/// The refusal of a run without a known agent.
pub open spec fn stranger(s: RunV) -> (RunV, ActV) {
    refused_unknown(
        s,
        Some(s.launch.project),
        Fault::Auth,
        wire::err_response(s.id, "E_AUTH"@, "authentication failed"@),
    )
}

// -------------------------------------------------------------------- machine
/// A run with secrets.
pub struct Run {
    d: RunData<String, Vec<String>>,
}

impl View for Run {
    type V = RunV;

    closed spec fn view(&self) -> RunV {
        RunData {
            stage: self.d.stage,
            id: self.d.id@,
            token: json::opt_text(self.d.token),
            passphrase: self.d.passphrase,
            fds: self.d.fds,
            max_keys: self.d.max_keys,
            max_secs: self.d.max_secs,
            launch: launch_value(self.d.launch),
            agent: self.d.agent@,
            actor: self.d.actor@,
            looked: self.d.looked,
            missing: self.d.missing,
            keys: text::texts(self.d.keys@),
            run_id: self.d.run_id@,
            pid: self.d.pid,
            exit: opt_exit(self.d.exit),
            recorded: self.d.recorded,
        }
    }
}

/// A run at its start.
pub open spec fn fresh(req: RequestV, fds: usize, max_keys: usize, max_secs: u64) -> RunV {
    RunData {
        stage: Stage::Idle,
        id: req.id,
        token: req.auth.token,
        passphrase: req.auth.passphrase is Some,
        fds,
        max_keys,
        max_secs,
        launch: Launch {
            project: Seq::empty(),
            executable: Seq::empty(),
            arg_count: 0,
            keys: None,
            cwd: None,
            timeout_secs: None,
        },
        agent: Seq::empty(),
        actor: Seq::empty(),
        looked: 0,
        missing: false,
        keys: Seq::empty(),
        run_id: Seq::empty(),
        pid: 0,
        exit: None,
        recorded: false,
    }
}

fn copied(s: &Option<String>) -> (r: Option<String>)
    ensures
        json::opt_text(r) == json::opt_text(*s),
{
    match s {
        Some(t) => Some(t.clone()),
        None => None,
    }
}

fn owned(s: Option<&str>) -> (r: Option<String>)
    ensures
        json::opt_text(r) == json::opt_str(s),
{
    match s {
        Some(t) => Some(t.to_string()),
        None => None,
    }
}

fn no_texts() -> (r: Vec<String>)
    ensures
        text::texts(r@) == Seq::<Seq<char>>::empty(),
{
    let v: Vec<String> = Vec::new();
    proof {
        assert(text::texts(v@) =~= Seq::<Seq<char>>::empty());
    }
    v
}

/// The announcement of a start.
fn started(id: &str, run_id: &str, pid: i32) -> (r: Response)
    ensures
        r@ == wire::ok_response(id@, started_body(run_id@, pid)),
{
    let mut j = Json::object();
    j.put("run_id", Json::string(run_id));
    j.put("pid", Json::integer(pid as i64));
    j.put("status", Json::string("started"));
    Response::ok(id, j)
}

/// The announcement of an end.
fn exited(id: &str, run_id: &str, exit: &Exit<String>) -> (r: Response)
    ensures
        r@ == wire::ok_response(id@, exited_body(run_id@, exit_value(*exit))),
{
    let mut j = Json::object();
    match exit.code {
        Some(c) => {
            j.put("exit_code", Json::integer(c as i64));
        },
        None => {},
    }
    match &exit.signal {
        Some(s) => {
            j.put("signal", Json::string(s));
        },
        None => {},
    }
    j.put("run_id", Json::string(run_id));
    j.put("status", Json::string("exited"));
    Response::ok(id, j)
}

impl Run {
    /// A run that was asked for with these descriptors.
    pub fn new(req: &Request, fds: usize, max_keys: usize, max_secs: u64) -> (r: (Run, RunAct))
        ensures
            r.0@ == fresh(req@, fds, max_keys, max_secs),
            run_wf(r.0@),
            act_value(r.1) == (ActV::LockIfIdle),
    {
        let passphrase = match req.passphrase() {
            Some(_) => true,
            None => false,
        };
        let run = Run {
            d: RunData {
                stage: Stage::Idle,
                id: req.id.clone(),
                token: owned(req.token()),
                passphrase,
                fds,
                max_keys,
                max_secs,
                launch: Launch {
                    project: String::new(),
                    executable: String::new(),
                    arg_count: 0,
                    keys: None,
                    cwd: None,
                    timeout_secs: None,
                },
                agent: String::new(),
                actor: String::new(),
                looked: 0,
                missing: false,
                keys: no_texts(),
                run_id: String::new(),
                pid: 0,
                exit: None,
                recorded: false,
            },
        };
        (run, Act::LockIfIdle)
    }

    /// Where the run stands.
    pub fn stage(&self) -> (r: Stage)
        ensures
            r == self@.stage,
    {
        self.d.stage
    }

    /// Whether an event can be the outcome of the last action.
    pub fn accepts(&self, event: &RunEvent) -> (r: bool)
        ensures
            r == fits(self@.stage, event_value(*event)),
    {
        match (self.d.stage, event) {
            (
                Stage::Idle
                | Stage::Env
                | Stage::Cwd
                | Stage::Allow
                | Stage::Start
                | Stage::Announce
                | Stage::Recorded(_),
                Event::Done | Event::Failed(_),
            ) => true,
            (Stage::Params, Event::Parsed(_) | Event::Failed(_)) => true,
            (
                Stage::Vault
                | Stage::Unlocked
                | Stage::Grant
                | Stage::Keys
                | Stage::Activate
                | Stage::Farewell(_),
                Event::Flag(_),
            ) => true,
            (Stage::Agent, Event::Agent(_)) => true,
            (Stage::AllKeys, Event::Keys(_)) => true,
            (Stage::Name, Event::Named(_) | Event::Failed(_)) => true,
            (Stage::Slot, Event::Done | Event::Unreserved { .. }) => true,
            (Stage::Spawn, Event::Spawned(_) | Event::Failed(_)) => true,
            (Stage::Revoked | Stage::Pause | Stage::Ending(Cause::Exited), Event::Done) => true,
            (Stage::Ending(Cause::Exited), _) => false,
            (Stage::Unrecorded | Stage::Ending(_), Event::Reaped(_)) => true,
            (Stage::Watch, Event::Looked { .. }) => true,
            _ => false,
        }
    }

    fn refuse(
        &mut self,
        actor: String,
        project: Option<String>,
        keys: Vec<String>,
        run_id: Option<String>,
        why: VaultError,
        release: Option<String>,
        response: Response,
    ) -> (r: RunAct)
        ensures
            (final(self)@, act_value(r)) == refused(
                old(self)@,
                actor@,
                json::opt_text(project),
                text::texts(keys@),
                json::opt_text(run_id),
                why@,
                json::opt_text(release),
                response@,
            ),
    {
        self.d.stage = Stage::Over;
        Act::Refuse {
            denial: Some(RunDenial { actor, project, keys, run_id, why }),
            release,
            response,
        }
    }

    fn refuse_unrecorded(&mut self, release: Option<String>, response: Response) -> (r: RunAct)
        ensures
            (final(self)@, act_value(r)) == unrecorded_refusal(
                old(self)@,
                json::opt_text(release),
                response@,
            ),
    {
        self.d.stage = Stage::Over;
        Act::Refuse { denial: None, release, response }
    }

    fn refuse_unknown(
        &mut self,
        project: Option<String>,
        why: VaultError,
        response: Response,
    ) -> (r: RunAct)
        ensures
            (final(self)@, act_value(r)) == refused_unknown(
                old(self)@,
                json::opt_text(project),
                why@,
                response@,
            ),
    {
        self.refuse("agent:unknown".to_string(), project, no_texts(), None, why, None, response)
    }

    fn refuse_stranger(&mut self) -> (r: RunAct)
        ensures
            (final(self)@, act_value(r)) == stranger(old(self)@),
    {
        let project = Some(self.d.launch.project.clone());
        let response = Response::err(&self.d.id, "E_AUTH", "authentication failed");
        self.refuse_unknown(project, VaultError::Auth, response)
    }

    fn refuse_early(&mut self, keys: Vec<String>, why: VaultError, code: &str, msg: &str) -> (r:
        RunAct)
        ensures
            (final(self)@, act_value(r)) == refused_early(
                old(self)@,
                text::texts(keys@),
                why@,
                wire::err_response(old(self)@.id, code@, msg@),
            ),
    {
        let actor = self.d.actor.clone();
        let project = Some(self.d.launch.project.clone());
        let response = Response::err(&self.d.id, code, msg);
        self.refuse(actor, project, keys, None, why, None, response)
    }

    /// Refuses after the keys are chosen.
    fn refuse_late(
        &mut self,
        run_id: Option<String>,
        why: VaultError,
        release: Option<String>,
        response: Response,
    ) -> (r: RunAct)
        ensures
            (final(self)@, act_value(r)) == refused(
                old(self)@,
                old(self)@.actor,
                Some(old(self)@.launch.project),
                old(self)@.keys,
                json::opt_text(run_id),
                why@,
                json::opt_text(release),
                response@,
            ),
    {
        let actor = self.d.actor.clone();
        let project = Some(self.d.launch.project.clone());
        let keys = audit::copy_texts(self.d.keys.as_slice());
        self.refuse(actor, project, keys, run_id, why, release, response)
    }

    fn refuse_failed(&mut self, named: bool, why: VaultError) -> (r: RunAct)
        ensures
            (final(self)@, act_value(r)) == refused_failed(
                old(self)@,
                if named {
                    Some(old(self)@.run_id)
                } else {
                    None
                },
                why@,
            ),
    {
        let response = Response::failed(&self.d.id, &why);
        let (run_id, release) = if named {
            (Some(self.d.run_id.clone()), Some(self.d.run_id.clone()))
        } else {
            (None, None)
        };
        self.refuse_late(run_id, why, release, response)
    }

    fn take_keys(&mut self, keys: Vec<String>) -> (r: RunAct)
        ensures
            (final(self)@, act_value(r)) == with_keys(old(self)@, text::texts(keys@)),
    {
        let copy = audit::copy_texts(keys.as_slice());
        self.d.stage = Stage::Env;
        self.d.keys = keys;
        Act::BuildEnv { project: self.d.launch.project.clone(), keys: copy }
    }

    /// Goes on with the wanted keys, of which so many were looked up.
    fn continue_look_up(&mut self, wanted: Vec<String>, looked: usize, missing: bool) -> (r: RunAct)
        requires
            old(self)@.launch.keys == Some(text::texts(wanted@)),
        ensures
            (final(self)@, act_value(r)) == look_up(
                old(self)@,
                text::texts(wanted@),
                looked as nat,
                missing,
            ),
            run_wf(final(self)@),
    {
        if looked < wanted.len() {
            self.d.stage = Stage::Keys;
            self.d.looked = looked;
            self.d.missing = missing;
            return Act::LookUp {
                project: self.d.launch.project.clone(),
                key: wanted[looked].clone(),
            };
        }
        if missing {
            return self.refuse_early(wanted, VaultError::NotFound, "E_NOT_FOUND", "not found");
        }
        self.take_keys(wanted)
    }

    fn wanted(&self) -> (r: Option<Vec<String>>)
        ensures
            opt_texts(r) == self@.launch.keys,
    {
        match &self.d.launch.keys {
            Some(v) => Some(audit::copy_texts(v.as_slice())),
            None => None,
        }
    }

    fn finish(&mut self, cause: Cause) -> (r: RunAct)
        ensures
            (final(self)@, act_value(r)) == finishing(old(self)@, cause),
    {
        self.d.stage = Stage::Ending(cause);
        let reap = match cause {
            Cause::Exited => false,
            _ => true,
        };
        Act::Finish { run_id: self.d.run_id.clone(), pgid: self.d.pid, reap }
    }

    fn record_exit(&mut self, cause: Cause) -> (r: RunAct)
        ensures
            (final(self)@, act_value(r)) == recording(old(self)@, cause, old(self)@.exit),
    {
        self.d.stage = Stage::Recorded(cause);
        let (exit_code, signal) = match &self.d.exit {
            Some(x) => (x.code, copied(&x.signal)),
            None => (None, None),
        };
        Act::RecordExited {
            actor: self.d.actor.clone(),
            project: self.d.launch.project.clone(),
            keys: audit::copy_texts(self.d.keys.as_slice()),
            run_id: self.d.run_id.clone(),
            executable: self.d.launch.executable.clone(),
            arg_count: self.d.launch.arg_count,
            cwd: copied(&self.d.launch.cwd),
            exit_code,
            signal,
        }
    }

    fn go(&mut self, stage: Stage)
        ensures
            final(self)@ == at(old(self)@, stage),
    {
        self.d.stage = stage;
    }

    /// What comes of a request before an agent is known.
    fn step_request(&mut self, event: RunEvent) -> (r: RunAct)
        requires
            fits(old(self)@.stage, event_value(event)),
            old(self)@.stage == Stage::Idle || old(self)@.stage == Stage::Params
                || old(self)@.stage == Stage::Vault || old(self)@.stage == Stage::Agent,
        ensures
            (final(self)@, act_value(r)) == stepped(old(self)@, event_value(event)),
            run_wf(final(self)@),
    {
        match (self.d.stage, event) {
            (Stage::Idle, Event::Failed(e)) => {
                let response = Response::failed(&self.d.id, &e);
                self.refuse_unrecorded(None, response)
            },
            (Stage::Idle, _) => {
                if self.d.fds != STDIO_FDS {
                    let response = Response::err(
                        &self.d.id,
                        "E_INVALID_INPUT",
                        "expected exactly 3 file descriptors",
                    );
                    return self.refuse_unknown(
                        None,
                        VaultError::InvalidInput("expected exactly 3 file descriptors"),
                        response,
                    );
                }
                self.go(Stage::Params);
                Act::ParseParams
            },
            (Stage::Params, Event::Parsed(launch)) => {
                self.d.launch = launch;
                self.go(Stage::Vault);
                Act::FindVault
            },
            (Stage::Params, Event::Failed(e)) => {
                let response = Response::failed(&self.d.id, &e);
                self.refuse_unknown(None, e, response)
            },
            (Stage::Vault, Event::Flag(true)) => {
                let token = match &self.d.token {
                    Some(t) => t.clone(),
                    None => {
                        return self.refuse_stranger();
                    },
                };
                if self.d.passphrase {
                    let project = Some(self.d.launch.project.clone());
                    let response = Response::err(
                        &self.d.id,
                        "E_PROTOCOL",
                        "provide either a token or a passphrase, not both",
                    );
                    return self.refuse_unknown(
                        project,
                        VaultError::Protocol(
                            "provide either a token or a passphrase, not both".to_string(),
                        ),
                        response,
                    );
                }
                self.go(Stage::Agent);
                Act::ResolveAgent { token }
            },
            (Stage::Vault, _) => {
                let response = Response::err(
                    &self.d.id,
                    "E_NOT_FOUND",
                    "no vault exists; run svault init",
                );
                self.refuse_unrecorded(None, response)
            },
            (Stage::Agent, Event::Agent(Some(agent))) => {
                self.d.actor = joined("agent:", &agent);
                self.d.agent = agent;
                self.go(Stage::Unlocked);
                Act::CheckUnlocked
            },
            _ => self.refuse_stranger(),
        }
    }

    /// What comes of the checks of a known agent.
    fn step_grant(&mut self, event: RunEvent) -> (r: RunAct)
        requires
            fits(old(self)@.stage, event_value(event)),
            run_wf(old(self)@),
            old(self)@.stage == Stage::Unlocked || old(self)@.stage == Stage::Grant
                || old(self)@.stage == Stage::Keys || old(self)@.stage == Stage::AllKeys,
        ensures
            (final(self)@, act_value(r)) == stepped(old(self)@, event_value(event)),
            run_wf(final(self)@),
    {
        match (self.d.stage, event) {
            (Stage::Unlocked, Event::Flag(true)) => {
                self.go(Stage::Grant);
                Act::Authorize {
                    agent: self.d.agent.clone(),
                    project: self.d.launch.project.clone(),
                }
            },
            (Stage::Unlocked, _) => self.refuse_early(
                no_texts(),
                VaultError::Locked,
                "E_LOCKED",
                "vault is locked",
            ),
            (Stage::Grant, Event::Flag(true)) => match self.wanted() {
                Some(wanted) => self.continue_look_up(wanted, 0, false),
                None => {
                    self.go(Stage::AllKeys);
                    Act::ListKeys { project: self.d.launch.project.clone() }
                },
            },
            (Stage::Grant, _) => self.refuse_early(
                no_texts(),
                VaultError::Permission,
                "E_PERMISSION",
                "permission denied",
            ),
            (Stage::Keys, Event::Flag(found)) => {
                let missing = self.d.missing || !found;
                let looked: usize = self.d.looked;
                match self.wanted() {
                    Some(wanted) => {
                        proof {
                            assert(self@.launch.keys == Some(text::texts(wanted@)));
                            assert(looked < wanted.len());
                        }
                        self.continue_look_up(wanted, looked + 1, missing)
                    },
                    None => Act::Quit,
                }
            },
            (Stage::AllKeys, Event::Keys(found)) => {
                let all = order::sorted_texts(found.as_slice());
                proof {
                    assert(text::texts(all@).len() == all@.len());
                }
                if all.len() == 0 {
                    return self.refuse_early(
                        no_texts(),
                        VaultError::InvalidInput("no secrets to run with"),
                        "E_INVALID_INPUT",
                        "invalid input: no secrets to run with",
                    );
                }
                if all.len() > self.d.max_keys {
                    return self.refuse_early(
                        all,
                        VaultError::InvalidInput("too many keys"),
                        "E_INVALID_INPUT",
                        "invalid input: too many keys",
                    );
                }
                self.take_keys(all)
            },
            _ => Act::Quit,
        }
    }

    /// What comes of the preparations of an allowed run.
    fn step_prepare(&mut self, event: RunEvent) -> (r: RunAct)
        requires
            fits(old(self)@.stage, event_value(event)),
            old(self)@.stage == Stage::Env || old(self)@.stage == Stage::Cwd || old(self)@.stage
                == Stage::Name || old(self)@.stage == Stage::Slot || old(self)@.stage
                == Stage::Allow || old(self)@.stage == Stage::Spawn,
        ensures
            (final(self)@, act_value(r)) == stepped(old(self)@, event_value(event)),
            run_wf(final(self)@),
    {
        match (self.d.stage, event) {
            (Stage::Env | Stage::Cwd | Stage::Name, Event::Failed(e)) => self.refuse_failed(
                false,
                e,
            ),
            (Stage::Env, _) => {
                match &self.d.launch.cwd {
                    Some(c) => {
                        let cwd = c.clone();
                        self.go(Stage::Cwd);
                        Act::OpenCwd { project: self.d.launch.project.clone(), cwd }
                    },
                    None => {
                        self.go(Stage::Name);
                        Act::NewRunId
                    },
                }
            },
            (Stage::Cwd, _) => {
                self.go(Stage::Name);
                Act::NewRunId
            },
            (Stage::Name, Event::Named(run_id)) => {
                self.d.run_id = run_id.clone();
                self.go(Stage::Slot);
                Act::Reserve {
                    agent: self.d.agent.clone(),
                    project: self.d.launch.project.clone(),
                    run_id,
                }
            },
            (Stage::Slot, Event::Unreserved { code, msg }) => {
                let response = Response::err(&self.d.id, &code, &msg);
                let why = if same(&code, "E_BUSY") {
                    VaultError::Busy
                } else {
                    VaultError::Protocol(msg)
                };
                let run_id = Some(self.d.run_id.clone());
                self.refuse_late(run_id, why, None, response)
            },
            (Stage::Slot, _) => {
                self.go(Stage::Allow);
                Act::RecordAllowed {
                    actor: self.d.actor.clone(),
                    project: self.d.launch.project.clone(),
                    keys: audit::copy_texts(self.d.keys.as_slice()),
                    arg_count: self.d.launch.arg_count,
                }
            },
            (Stage::Allow, Event::Failed(_)) => {
                let response = Response::err(&self.d.id, "E_AUDIT_WRITE", "audit write failed");
                let release = Some(self.d.run_id.clone());
                self.refuse_unrecorded(release, response)
            },
            (Stage::Allow, _) => {
                self.go(Stage::Spawn);
                Act::Spawn
            },
            (Stage::Spawn, Event::Failed(e)) => self.refuse_failed(true, e),
            (Stage::Spawn, Event::Spawned(pid)) => {
                self.d.pid = pid;
                self.go(Stage::Activate);
                Act::Activate { run_id: self.d.run_id.clone(), pid }
            },
            _ => Act::Quit,
        }
    }

    /// What comes of a living child.
    fn step_live(&mut self, event: RunEvent) -> (r: RunAct)
        requires
            fits(old(self)@.stage, event_value(event)),
            live(old(self)@.stage),
        ensures
            (final(self)@, act_value(r)) == stepped(old(self)@, event_value(event)),
            run_wf(final(self)@),
    {
        match (self.d.stage, event) {
            (Stage::Activate, Event::Flag(true)) => {
                self.go(Stage::Start);
                Act::RecordStarted {
                    actor: self.d.actor.clone(),
                    project: self.d.launch.project.clone(),
                    keys: audit::copy_texts(self.d.keys.as_slice()),
                    run_id: self.d.run_id.clone(),
                    executable: self.d.launch.executable.clone(),
                    arg_count: self.d.launch.arg_count,
                    cwd: copied(&self.d.launch.cwd),
                }
            },
            (Stage::Activate, _) => {
                self.go(Stage::Revoked);
                Act::EndGroup { pgid: self.d.pid }
            },
            (Stage::Start, Event::Failed(_)) => {
                self.go(Stage::Unrecorded);
                Act::Finish { run_id: self.d.run_id.clone(), pgid: self.d.pid, reap: true }
            },
            (Stage::Start, _) => {
                self.go(Stage::Announce);
                Act::Announce(started(&self.d.id, &self.d.run_id, self.d.pid))
            },
            (Stage::Announce, Event::Failed(_)) => self.finish(Cause::Unannounced),
            (Stage::Announce, _) => {
                self.go(Stage::Watch);
                Act::Look
            },
            (Stage::Watch, Event::Looked { look, elapsed_secs, peer_gone }) => match look {
                Look::Exited(exit) => {
                    self.d.exit = Some(exit);
                    self.finish(Cause::Exited)
                },
                Look::Failed => self.finish(Cause::WaitFailed),
                Look::Running => {
                    let window: u64 = match self.d.launch.timeout_secs {
                        Some(t) => t,
                        None => self.d.max_secs,
                    };
                    if elapsed_secs >= window {
                        self.finish(Cause::TimedOut)
                    } else if peer_gone {
                        self.finish(Cause::PeerGone)
                    } else {
                        self.go(Stage::Pause);
                        Act::Sleep
                    }
                },
            },
            (Stage::Pause, _) => {
                self.go(Stage::Watch);
                Act::Look
            },
            _ => Act::Quit,
        }
    }

    /// What comes of an ended child.
    fn step_end(&mut self, event: RunEvent) -> (r: RunAct)
        requires
            fits(old(self)@.stage, event_value(event)),
            old(self)@.stage == Stage::Revoked || old(self)@.stage == Stage::Unrecorded || (
            old(self)@.stage is Ending) || (old(self)@.stage is Recorded) || (
            old(self)@.stage is Farewell),
        ensures
            (final(self)@, act_value(r)) == stepped(old(self)@, event_value(event)),
            run_wf(final(self)@),
    {
        match (self.d.stage, event) {
            (Stage::Revoked, _) => {
                let response = Response::err(
                    &self.d.id,
                    "E_PERMISSION",
                    "run capability was revoked",
                );
                let run_id = Some(self.d.run_id.clone());
                let release = Some(self.d.run_id.clone());
                self.refuse_late(run_id, VaultError::Permission, release, response)
            },
            (Stage::Unrecorded, _) => {
                let response = Response::err(&self.d.id, "E_AUDIT_WRITE", "audit write failed");
                self.refuse_unrecorded(None, response)
            },
            (Stage::Ending(cause), Event::Reaped(exit)) => {
                self.d.exit = exit;
                self.record_exit(cause)
            },
            (Stage::Ending(cause), _) => self.record_exit(cause),
            (Stage::Recorded(cause), e) => {
                self.d.recorded = match e {
                    Event::Done => true,
                    _ => false,
                };
                match cause {
                    Cause::Exited | Cause::TimedOut => {
                        self.go(Stage::Farewell(cause));
                        Act::CheckPeer
                    },
                    _ => {
                        self.go(Stage::Over);
                        Act::Quit
                    },
                }
            },
            (Stage::Farewell(cause), Event::Flag(gone)) => {
                self.go(Stage::Over);
                if gone {
                    return Act::Quit;
                }
                let by_itself = match cause {
                    Cause::Exited => true,
                    _ => false,
                };
                if by_itself && !self.d.recorded {
                    return Act::Answer(
                        Response::err(&self.d.id, "E_AUDIT_WRITE", "audit write failed"),
                    );
                }
                match &self.d.exit {
                    Some(exit) => Act::Answer(exited(&self.d.id, &self.d.run_id, exit)),
                    None => Act::Answer(
                        Response::err(&self.d.id, "E_IO", "io error: wait failed"),
                    ),
                }
            },
            _ => Act::Quit,
        }
    }

    /// Takes what came of the last action and gives the next one.
    pub fn step(&mut self, event: RunEvent) -> (r: RunAct)
        requires
            run_wf(old(self)@),
            fits(old(self)@.stage, event_value(event)),
        ensures
            (final(self)@, act_value(r)) == stepped(old(self)@, event_value(event)),
            run_wf(final(self)@),
    {
        match self.d.stage {
            Stage::Idle | Stage::Params | Stage::Vault | Stage::Agent => self.step_request(event),
            Stage::Unlocked | Stage::Grant | Stage::Keys | Stage::AllKeys => self.step_grant(event),
            Stage::Env
            | Stage::Cwd
            | Stage::Name
            | Stage::Slot
            | Stage::Allow
            | Stage::Spawn => self.step_prepare(event),
            Stage::Activate
            | Stage::Start
            | Stage::Announce
            | Stage::Watch
            | Stage::Pause => self.step_live(event),
            _ => self.step_end(event),
        }
    }
}

/// What ends a run that may still be registered: the process group to end, if
/// the registry still held the run.
pub fn finish_run(registered: bool, pgid: i32) -> (r: Option<i32>)
    ensures
        r == (if registered {
            Some(pgid)
        } else {
            None
        }),
{
    if registered {
        Some(pgid)
    } else {
        None
    }
}

/// Whether the client of a run is gone, from a look at its connection: data
/// and the end of the stream both count, since nothing may follow a request
/// for a run; of the errors only a reset and a broken pipe count.
pub fn peer_gone(received: bool, errno: Option<i32>, reset: i32, broken_pipe: i32) -> (r: bool)
    ensures
        r == (received || errno == Some(reset) || errno == Some(broken_pipe)),
{
    if received {
        return true;
    }
    match errno {
        Some(e) => e == reset || e == broken_pipe,
        None => false,
    }
}

// ----------------------------------------------------------------------- laws
/// Whether a child may be alive and its group not yet ended.
pub open spec fn live(stage: Stage) -> bool {
    stage == Stage::Activate || stage == Stage::Start || stage == Stage::Announce || stage
        == Stage::Watch || stage == Stage::Pause
}

/// Whether an action ends the child's process group.
pub open spec fn ends_group(a: ActV, pid: i32) -> bool {
    a == ActV::EndGroup { pgid: pid } || (a matches Act::Finish { pgid, .. } && pgid == pid)
}

/// No child is left behind: while a child may be alive, every step keeps
/// looking after that child or ends its process group.
pub proof fn law_no_child_is_left_behind(s: RunV, e: EventV)
    requires
        live(s.stage),
        fits(s.stage, e),
    ensures
        ({
            let (t, a) = stepped(s, e);
            t.pid == s.pid && t.run_id == s.run_id && (live(t.stage) || ends_group(a, s.pid))
        }),
{
}

/// A child is alive only by way of [`Act::Spawn`].
pub proof fn law_children_come_from_spawn(s: RunV, e: EventV)
    requires
        !live(s.stage),
        fits(s.stage, e),
        live(stepped(s, e).0.stage),
    ensures
        s.stage == Stage::Spawn,
        e is Spawned,
{
}

/// How far a run has come on its way to a child.
pub open spec fn progress(stage: Stage) -> int {
    match stage {
        Stage::Idle => 0,
        Stage::Params => 1,
        Stage::Vault => 2,
        Stage::Agent => 3,
        Stage::Unlocked => 4,
        Stage::Grant => 5,
        Stage::Keys => 6,
        Stage::AllKeys => 6,
        Stage::Env => 7,
        Stage::Cwd => 8,
        Stage::Name => 9,
        Stage::Slot => 10,
        Stage::Allow => 11,
        Stage::Spawn => 12,
        _ => 13,
    }
}

/// `next` stands one check after the stage of `s` at most, past those that the request makes
/// needless: a request without keys looks none up, one without a directory opens none.
pub open spec fn one_check_further(s: RunV, next: Stage) -> bool {
    ||| progress(s.stage) <= progress(next) <= progress(s.stage) + 1
    ||| s.stage == Stage::Grant && next == Stage::Env && (s.launch.keys matches Some(keys)
        && keys.len() == 0)
    ||| s.stage == Stage::Env && s.launch.cwd is None && next == Stage::Name
}

/// The checks come in order and none is skipped: a step that is not a refusal
/// goes to the next check, or past the two that not every run has.
pub proof fn law_checks_come_in_order(s: RunV, e: EventV)
    requires
        fits(s.stage, e),
        progress(s.stage) < 13,
        stepped(s, e).0.stage != Stage::Over,
    ensures
        one_check_further(s, stepped(s, e).0.stage),
{
}

/// Secrets are asked for only after the grant was found, and only of the
/// project that was granted.
pub proof fn law_secrets_need_a_grant(s: RunV, e: EventV)
    requires
        fits(s.stage, e),
        run_wf(s),
        progress(s.stage) <= 5,
    ensures
        ({
            let (t, a) = stepped(s, e);
            &&& (a is LookUp || a is ListKeys || a is BuildEnv) ==> s.stage == Stage::Grant
                && yes(e)
            &&& !(a is OpenCwd || a is Spawn || a is Activate || a is Announce)
        }),
{
}

/// A run is known to be allowed and written down before its child is started:
/// [`Act::Spawn`] follows only the recorded permission.
pub proof fn law_spawn_follows_the_record(s: RunV, e: EventV)
    requires
        fits(s.stage, e),
        stepped(s, e).1 is Spawn,
    ensures
        s.stage == Stage::Allow,
        e is Done,
{
}

/// Every refusal of a known agent's run leaves an entry that names the agent
/// and the project, but for a permission that could not be written down.
pub proof fn law_refused_runs_leave_a_trace(s: RunV, e: EventV)
    requires
        fits(s.stage, e),
        4 <= progress(s.stage) <= 12,
        s.stage != Stage::Allow,
        stepped(s, e).0.stage == Stage::Over,
    ensures
        stepped(s, e).1 matches Act::Refuse { denial, .. } && denial matches Some(d) && d.actor
            == s.actor && d.project == Some(s.launch.project),
{
}

/// Without a token, a run is refused alike whatever else it presents.
pub proof fn law_only_agents_run(s: RunV)
    requires
        s.stage == Stage::Vault,
        s.token is None,
    ensures
        stepped(s, Event::Flag(true)) == stranger(s),
{
}

/// An unknown token is refused like a missing one.
pub proof fn law_unknown_tokens_are_no_oracle(s: RunV)
    requires
        s.stage == Stage::Agent,
    ensures
        stepped(s, Event::Agent(None)).1 == stepped(
            RunData { stage: Stage::Vault, token: None, ..s },
            Event::Flag(true),
        ).1,
{
}

/// A run that names its keys gets exactly these, and a run that names none
/// gets all keys of the project in order.
pub proof fn law_runs_get_the_chosen_keys(s: RunV, e: EventV)
    requires
        fits(s.stage, e),
        run_wf(s),
        progress(s.stage) <= 6,
        stepped(s, e).0.stage == Stage::Env,
    ensures
        match s.launch.keys {
            Some(wanted) => stepped(s, e).0.keys == wanted,
            None => e matches Event::Keys(found) && stepped(s, e).0.keys == order::sorted(found),
        },
        stepped(s, e).1 == (ActV::BuildEnv {
            project: s.launch.project,
            keys: stepped(s, e).0.keys,
        }),
{
}

/// A missing key is never forgotten: once a wanted key is missing, the run is
/// refused when the last one was looked up.
pub proof fn law_missing_keys_refuse_the_run(s: RunV, e: EventV)
    requires
        s.stage == Stage::Keys,
        run_wf(s),
        fits(s.stage, e),
        s.missing || !yes(e),
    ensures
        ({
            let (t, a) = stepped(s, e);
            (t.stage == Stage::Keys && t.missing) || (a matches Act::Refuse { denial, .. }
                && denial matches Some(d) && d.why == Fault::NotFound)
        }),
{
}

/// A child does not outlive its time: a look at or after the end of the window
/// ends the run.
pub proof fn law_time_is_limited(s: RunV, look: Look<Seq<char>>, elapsed_secs: u64, peer_gone: bool)
    requires
        s.stage == Stage::Watch,
        elapsed_secs >= window(s) || peer_gone,
    ensures
        ends_group(stepped(s, Event::Looked { look, elapsed_secs, peer_gone }).1, s.pid),
{
}

/// What stands for a value stands for all of it: the same variant, with every part.
pub proof fn law_look_value_is_faithful(l: Look<String>)
    ensures
        match (l, look_value(l)) {
            (Look::Exited(e), Look::Exited(v0)) => v0 == (exit_value(e)),
            (Look::Running, Look::Running) => true,
            (Look::Failed, Look::Failed) => true,
            _ => false,
        },
{
}

/// What stands for a value stands for all of it: the same variant, with every part.
pub proof fn law_event_value_is_faithful(e: RunEvent)
    ensures
        match (e, event_value(e)) {
            (Event::Done, Event::Done) => true,
            (Event::Failed(err), Event::Failed(v0)) => v0 == err@,
            (Event::Flag(b), Event::Flag(v0)) => v0 == b,
            (Event::Parsed(l), Event::Parsed(v0)) => v0 == (launch_value(l)),
            (Event::Agent(a), Event::Agent(v0)) => v0 == (json::opt_text(a)),
            (Event::Keys(k), Event::Keys(v0)) => v0 == (text::texts(k@)),
            (Event::Named(n), Event::Named(v0)) => v0 == n@,
            (
                Event::Unreserved { code, msg },
                Event::Unreserved { code: code_v, msg: msg_v },
            ) => code_v == code@
                && msg_v == msg@,
            (Event::Spawned(pid), Event::Spawned(v0)) => v0 == pid,
            (Event::Reaped(x), Event::Reaped(v0)) => v0 == (opt_exit(x)),
            (
                Event::Looked { look, elapsed_secs, peer_gone },
                Event::Looked { look: look_v, elapsed_secs: elapsed_secs_v, peer_gone: peer_gone_v },
            ) => look_v == (look_value(look))
                && elapsed_secs_v == elapsed_secs
                && peer_gone_v == peer_gone,
            _ => false,
        },
{
}

/// What stands for a value stands for all of it: the same variant, with every part.
pub proof fn law_act_value_is_faithful(a: RunAct)
    ensures
        match (a, act_value(a)) {
            (Act::LockIfIdle, Act::LockIfIdle) => true,
            (Act::ParseParams, Act::ParseParams) => true,
            (Act::FindVault, Act::FindVault) => true,
            (
                Act::ResolveAgent { token },
                Act::ResolveAgent { token: token_v },
            ) => token_v == token@,
            (Act::CheckUnlocked, Act::CheckUnlocked) => true,
            (
                Act::Authorize { agent, project },
                Act::Authorize { agent: agent_v, project: project_v },
            ) => agent_v == agent@
                && project_v == project@,
            (
                Act::LookUp { project, key },
                Act::LookUp { project: project_v, key: key_v },
            ) => project_v == project@
                && key_v == key@,
            (
                Act::ListKeys { project },
                Act::ListKeys { project: project_v },
            ) => project_v == project@,
            (
                Act::BuildEnv { project, keys },
                Act::BuildEnv { project: project_v, keys: keys_v },
            ) => project_v == project@
                && keys_v == (text::texts(keys@)),
            (
                Act::OpenCwd { project, cwd },
                Act::OpenCwd { project: project_v, cwd: cwd_v },
            ) => project_v == project@
                && cwd_v == cwd@,
            (Act::NewRunId, Act::NewRunId) => true,
            (
                Act::Reserve { agent, project, run_id },
                Act::Reserve { agent: agent_v, project: project_v, run_id: run_id_v },
            ) => agent_v == agent@
                && project_v == project@
                && run_id_v == run_id@,
            (
                Act::RecordAllowed { actor, project, keys, arg_count },
                Act::RecordAllowed { actor: actor_v, project: project_v, keys: keys_v, arg_count: arg_count_v },
            ) => actor_v == actor@
                && project_v == project@
                && keys_v == (text::texts(keys@))
                && arg_count_v == arg_count,
            (Act::Spawn, Act::Spawn) => true,
            (
                Act::Activate { run_id, pid },
                Act::Activate { run_id: run_id_v, pid: pid_v },
            ) => run_id_v == run_id@
                && pid_v == pid,
            (Act::EndGroup { pgid }, Act::EndGroup { pgid: pgid_v }) => pgid_v == pgid,
            (
                Act::RecordStarted { actor, project, keys, run_id, executable, arg_count, cwd },
                Act::RecordStarted { actor: actor_v, project: project_v, keys: keys_v, run_id: run_id_v, executable: executable_v, arg_count: arg_count_v, cwd: cwd_v },
            ) => actor_v == actor@
                && project_v == project@
                && keys_v == (text::texts(keys@))
                && run_id_v == run_id@
                && executable_v == executable@
                && arg_count_v == arg_count
                && cwd_v == (json::opt_text(cwd)),
            (Act::Announce(r), Act::Announce(v0)) => v0 == r@,
            (Act::Look, Act::Look) => true,
            (Act::Sleep, Act::Sleep) => true,
            (
                Act::Finish { run_id, pgid, reap },
                Act::Finish { run_id: run_id_v, pgid: pgid_v, reap: reap_v },
            ) => run_id_v == run_id@
                && pgid_v == pgid
                && reap_v == reap,
            (
                Act::RecordExited {
            actor,
            project,
            keys,
            run_id,
            executable,
            arg_count,
            cwd,
            exit_code,
            signal,
        },
                Act::RecordExited { actor: actor_v, project: project_v, keys: keys_v, run_id: run_id_v, executable: executable_v, arg_count: arg_count_v, cwd: cwd_v, exit_code: exit_code_v, signal: signal_v },
            ) => actor_v == actor@
                && project_v == project@
                && keys_v == (text::texts(keys@))
                && run_id_v == run_id@
                && executable_v == executable@
                && arg_count_v == arg_count
                && cwd_v == (json::opt_text(cwd))
                && exit_code_v == exit_code
                && signal_v == (json::opt_text(signal)),
            (Act::CheckPeer, Act::CheckPeer) => true,
            (
                Act::Refuse { denial, release, response },
                Act::Refuse { denial: denial_v, release: release_v, response: response_v },
            ) => denial_v == (opt_run_denial(denial))
                && release_v == (json::opt_text(release))
                && response_v == response@,
            (Act::Answer(r), Act::Answer(v0)) => v0 == r@,
            (Act::Quit, Act::Quit) => true,
            _ => false,
        },
{
}

/// What stands for a value stands for all of it, part by part.
pub proof fn law_launch_value_is_faithful(l: Launch<String, Vec<String>>)
    ensures
        launch_value(l).project == l.project@,
        launch_value(l).executable == l.executable@,
        launch_value(l).arg_count == l.arg_count,
        launch_value(l).keys == opt_texts(l.keys),
        launch_value(l).cwd == json::opt_text(l.cwd),
        launch_value(l).timeout_secs == l.timeout_secs,
{
}

/// What stands for a value stands for all of it, part by part.
pub proof fn law_exit_value_is_faithful(e: Exit<String>)
    ensures
        exit_value(e).code == e.code,
        exit_value(e).signal == json::opt_text(e.signal),
{
}

} // verus!
