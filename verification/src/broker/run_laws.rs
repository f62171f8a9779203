//! What a run with secrets is for: who may run gets the child, with the keys that
//! were asked for, for as long as was asked for, and is told how it ended.

use vstd::prelude::*;

use crate::broker::run::{
    self, Act, ActV, Cause, Event, EventV, Exit, Launch, Look, RunData, RunDenial, RunV, Stage,
};
use crate::error::Fault;
use crate::json::{self, JsonV};
use crate::order;
use crate::wire::{self, RequestV, ResponseV};

verus! {

pub type LaunchV = Launch<Seq<char>, Seq<Seq<char>>>;

// --------------------------------------------------------------------- watching
/// A child that is running, whose client is there and whose time is not up is
/// never ended: it is looked at again after a pause. Its time is what the request
/// names, and the most that a run may take where it names none.
pub proof fn law_a_running_child_goes_on(s: RunV, elapsed_secs: u64)
    requires
        s.stage == Stage::Watch,
        match s.launch.timeout_secs {
            Some(t) => elapsed_secs < t,
            None => elapsed_secs < s.max_secs,
        },
    ensures
        ({
            let look = EventV::Looked { look: Look::Running, elapsed_secs, peer_gone: false };
            let (paused, act) = run::stepped(s, look);
            let (again, next) = run::stepped(paused, Event::Done);
            &&& act == ActV::Sleep
            &&& paused == (RunData { stage: Stage::Pause, ..s })
            &&& next == ActV::Look
            &&& again == s
        }),
{
}

/// A child whose time is up is ended and waited for, and so is one whose client is
/// gone and one that cannot be looked at.
pub proof fn law_a_child_is_ended_for_a_reason(
    s: RunV,
    look: Look<Seq<char>>,
    elapsed_secs: u64,
    peer_gone: bool,
)
    requires
        s.stage == Stage::Watch,
    ensures
        ({
            let e = EventV::Looked { look, elapsed_secs, peer_gone };
            let (t, act) = run::stepped(s, e);
            let up = match s.launch.timeout_secs {
                Some(n) => elapsed_secs >= n,
                None => elapsed_secs >= s.max_secs,
            };
            match look {
                Look::Exited(exit) => t.stage == Stage::Ending(Cause::Exited) && t.exit == Some(exit)
                    && act == (ActV::Finish { run_id: s.run_id, pgid: s.pid, reap: false }),
                Look::Failed => t.stage == Stage::Ending(Cause::WaitFailed) && act == (
                ActV::Finish { run_id: s.run_id, pgid: s.pid, reap: true }),
                Look::Running => {
                    &&& act is Finish <==> up || peer_gone
                    &&& act is Sleep <==> !up && !peer_gone
                    &&& act is Finish ==> act == (ActV::Finish {
                        run_id: s.run_id,
                        pgid: s.pid,
                        reap: true,
                    })
                    &&& up ==> t.stage == Stage::Ending(Cause::TimedOut)
                    &&& !up && peer_gone ==> t.stage == Stage::Ending(Cause::PeerGone)
                },
            }
        }),
{
}

// ------------------------------------------------------------------ a whole run
/// The audit entry of a started run.
pub open spec fn started_entry(
    actor: Seq<char>,
    launch: LaunchV,
    keys: Seq<Seq<char>>,
    run_id: Seq<char>,
) -> ActV {
    ActV::RecordStarted {
        actor,
        project: launch.project,
        keys,
        run_id,
        executable: launch.executable,
        arg_count: launch.arg_count,
        cwd: launch.cwd,
    }
}

/// The audit entry of an ended run.
pub open spec fn ended_entry(
    actor: Seq<char>,
    launch: LaunchV,
    keys: Seq<Seq<char>>,
    run_id: Seq<char>,
    exit: Option<Exit<Seq<char>>>,
) -> ActV {
    ActV::RecordExited {
        actor,
        project: launch.project,
        keys,
        run_id,
        executable: launch.executable,
        arg_count: launch.arg_count,
        cwd: launch.cwd,
        exit_code: match exit {
            Some(x) => x.code,
            None => None,
        },
        signal: match exit {
            Some(x) => x.signal,
            None => None,
        },
    }
}

/// An agent that may run in a project is admitted: with its token and three
/// descriptors, on an open vault and on its grant, the run goes on to the keys. With
/// named keys the first of them is looked up, without names all are listed.
pub proof fn law_an_agent_with_a_grant_is_admitted(
    req: RequestV,
    max_keys: usize,
    max_secs: u64,
    launch: LaunchV,
    agent: Seq<char>,
)
    requires
        req.auth.token is Some,
        req.auth.passphrase is None,
    ensures
        ({
            let s0 = run::fresh(req, 3, max_keys, max_secs);
            let (s1, a1) = run::stepped(s0, Event::Done);
            let (s2, a2) = run::stepped(s1, Event::Parsed(launch));
            let (s3, a3) = run::stepped(s2, Event::Flag(true));
            let (s4, a4) = run::stepped(s3, Event::Agent(Some(agent)));
            let (s5, a5) = run::stepped(s4, Event::Flag(true));
            let (s6, a6) = run::stepped(s5, Event::Flag(true));
            &&& a1 == ActV::ParseParams
            &&& a2 == ActV::FindVault
            &&& a3 == (ActV::ResolveAgent { token: req.auth.token->0 })
            &&& a4 == ActV::CheckUnlocked
            &&& a5 == (ActV::Authorize { agent, project: launch.project })
            &&& match launch.keys {
                None => a6 == (ActV::ListKeys { project: launch.project }) && s6.stage
                    == Stage::AllKeys,
                Some(wanted) => if wanted.len() > 0 {
                    a6 == (ActV::LookUp { project: launch.project, key: wanted[0] }) && s6.stage
                        == Stage::Keys && s6.looked == 0 && !s6.missing
                } else {
                    a6 == (ActV::BuildEnv { project: launch.project, keys: wanted }) && s6.stage
                        == Stage::Env && s6.keys == wanted
                },
            }
            &&& s6.id == req.id
            &&& s6.launch == launch
            &&& s6.agent == agent
            &&& s6.actor == "agent:"@ + agent
            &&& s6.max_keys == max_keys
            &&& s6.max_secs == max_secs
        }),
{
}

/// The named keys are looked up one after the other, each in the project of the run.
/// After the last one the environment is built from all of them, or the run is
/// refused where one was missing.
pub proof fn law_named_keys_are_looked_up_in_order(s: RunV, wanted: Seq<Seq<char>>, found: bool)
    requires
        s.stage == Stage::Keys,
        s.launch.keys == Some(wanted),
        s.looked < wanted.len() <= usize::MAX,
    ensures
        ({
            let (t, act) = run::stepped(s, Event::Flag(found));
            let lacking = s.missing || !found;
            if s.looked + 1 < wanted.len() {
                &&& act == (ActV::LookUp {
                    project: s.launch.project,
                    key: wanted[s.looked + 1],
                })
                &&& t == (RunData {
                    looked: (s.looked + 1) as usize,
                    missing: lacking,
                    ..s
                })
            } else if lacking {
                &&& t.stage == Stage::Over
                &&& act == (ActV::Refuse {
                    denial: Some(
                        RunDenial {
                            actor: s.actor,
                            project: Some(s.launch.project),
                            keys: wanted,
                            run_id: None,
                            why: Fault::NotFound,
                        },
                    ),
                    release: None,
                    response: wire::err_response(s.id, "E_NOT_FOUND"@, "not found"@),
                })
            } else {
                &&& act == (ActV::BuildEnv { project: s.launch.project, keys: wanted })
                &&& t == (RunData { stage: Stage::Env, keys: wanted, ..s })
            }
        }),
{
}

/// A run without named keys gets every key of its project, unless there is none or
/// there are too many.
pub proof fn law_a_run_without_names_gets_every_key(s: RunV, found: Seq<Seq<char>>)
    requires
        s.stage == Stage::AllKeys,
        s.launch.keys is None,
    ensures
        ({
            let (t, act) = run::stepped(s, Event::Keys(found));
            let all = order::sorted(found);
            if 0 < all.len() <= s.max_keys {
                &&& act == (ActV::BuildEnv { project: s.launch.project, keys: all })
                &&& t == (RunData { stage: Stage::Env, keys: all, ..s })
            } else {
                &&& t.stage == Stage::Over
                &&& act matches Act::Refuse { denial, release, response }
                    && release is None && denial is Some && response.error is Some
                    && response.error->0.code == "E_INVALID_INPUT"@ && !response.ok
            }
        }),
{
}

/// A run whose environment is ready is started and told to its client: the directory
/// is opened where one is named, a place is reserved, the permission and the start
/// are recorded, and the client learns the run's id and the child's process id. The
/// child is then watched.
pub proof fn law_a_prepared_run_is_started(s: RunV, run_id: Seq<char>, pid: i32)
    requires
        s.stage == Stage::Env,
    ensures
        ({
            let (e1, b1) = run::stepped(s, Event::Done);
            let (e2, b2) = run::stepped(e1, Event::Done);
            let named = if s.launch.cwd is Some {
                e2
            } else {
                e1
            };
            let (s1, a1) = run::stepped(named, Event::Named(run_id));
            let (s2, a2) = run::stepped(s1, Event::Done);
            let (s3, a3) = run::stepped(s2, Event::Done);
            let (s4, a4) = run::stepped(s3, Event::Spawned(pid));
            let (s5, a5) = run::stepped(s4, Event::Flag(true));
            let (s6, a6) = run::stepped(s5, Event::Done);
            let (s7, a7) = run::stepped(s6, Event::Done);
            &&& match s.launch.cwd {
                Some(cwd) => b1 == (ActV::OpenCwd { project: s.launch.project, cwd }) && b2
                    == ActV::NewRunId,
                None => b1 == ActV::NewRunId,
            }
            &&& a1 == (ActV::Reserve { agent: s.agent, project: s.launch.project, run_id })
            &&& a2 == (ActV::RecordAllowed {
                actor: s.actor,
                project: s.launch.project,
                keys: s.keys,
                arg_count: s.launch.arg_count,
            })
            &&& a3 == ActV::Spawn
            &&& a4 == (ActV::Activate { run_id, pid })
            &&& a5 == started_entry(s.actor, s.launch, s.keys, run_id)
            &&& a6 == ActV::Announce(
                wire::ok_response(
                    s.id,
                    json::empty_object().with("run_id"@, JsonV::Str(run_id)).with(
                        "pid"@,
                        json::int_value(pid as int),
                    ).with("status"@, JsonV::Str("started"@)),
                ),
            )
            &&& a7 == ActV::Look
            &&& s7 == (RunData { stage: Stage::Watch, run_id, pid, ..s })
        }),
{
}

/// What an ended run is answered with: how its child ended.
pub open spec fn end_of(id: Seq<char>, run_id: Seq<char>, exit: Exit<Seq<char>>) -> ResponseV {
    let code = match exit.code {
        Some(c) => json::empty_object().with("exit_code"@, json::int_value(c as int)),
        None => json::empty_object(),
    };
    let signal = match exit.signal {
        Some(g) => code.with("signal"@, JsonV::Str(g)),
        None => code,
    };
    wire::ok_response(
        id,
        signal.with("run_id"@, JsonV::Str(run_id)).with("status"@, JsonV::Str("exited"@)),
    )
}

/// The end of a child is recorded and told: one that ended by itself with what the
/// look showed, one whose time was up with what was waited for. The client is told
/// unless it is gone, and a clean end that could not be recorded is told as such.
pub proof fn law_the_end_is_recorded_and_told(
    s: RunV,
    elapsed_secs: u64,
    peer_gone: bool,
    exit: Exit<Seq<char>>,
    left: bool,
    recorded: bool,
    why: Fault,
)
    requires
        s.stage == Stage::Watch,
    ensures
        ({
            let outcome = if recorded {
                EventV::Done
            } else {
                EventV::Failed(why)
            };
            let answered = |r: ActV, told: ResponseV|
                r == (if left {
                    ActV::Quit
                } else {
                    ActV::Answer(told)
                });
            // By itself.
            let (x1, _) = run::stepped(
                s,
                EventV::Looked { look: Look::Exited(exit), elapsed_secs, peer_gone },
            );
            let (x2, b2) = run::stepped(x1, Event::Done);
            let (x3, b3) = run::stepped(x2, outcome);
            let (x4, b4) = run::stepped(x3, Event::Flag(left));
            // For its time.
            let up = match s.launch.timeout_secs {
                Some(n) => n,
                None => s.max_secs,
            };
            let (t1, _) = run::stepped(
                s,
                EventV::Looked { look: Look::Running, elapsed_secs: up, peer_gone },
            );
            let (t2, c2) = run::stepped(t1, Event::Reaped(Some(exit)));
            let (t3, c3) = run::stepped(t2, outcome);
            let (t4, c4) = run::stepped(t3, Event::Flag(left));
            &&& b2 == ended_entry(s.actor, s.launch, s.keys, s.run_id, Some(exit))
            &&& b3 == ActV::CheckPeer
            &&& answered(
                b4,
                if recorded {
                    end_of(s.id, s.run_id, exit)
                } else {
                    wire::err_response(s.id, "E_AUDIT_WRITE"@, "audit write failed"@)
                },
            )
            &&& x4.stage == Stage::Over
            &&& c2 == ended_entry(s.actor, s.launch, s.keys, s.run_id, Some(exit))
            &&& c3 == ActV::CheckPeer
            &&& answered(c4, end_of(s.id, s.run_id, exit))
            &&& t4.stage == Stage::Over
        }),
{
}

/// A child that was ended without anyone to tell is recorded, and the connection is
/// closed without an answer.
pub proof fn law_an_untold_end_is_recorded(
    s: RunV,
    cause: Cause,
    exit: Option<Exit<Seq<char>>>,
    e: EventV,
)
    requires
        s.stage == Stage::Ending(cause),
        cause == Cause::Unannounced || cause == Cause::WaitFailed || cause == Cause::PeerGone,
        e is Done || e is Failed,
    ensures
        ({
            let (s1, a1) = run::stepped(s, Event::Reaped(exit));
            let (s2, a2) = run::stepped(s1, e);
            &&& a1 == ended_entry(s.actor, s.launch, s.keys, s.run_id, exit)
            &&& a2 == ActV::Quit
            &&& s2.stage == Stage::Over
        }),
{
}

/// A start that could not be announced, and one that could not be recorded, end the
/// child and wait for it.
pub proof fn law_a_failed_start_ends_the_child(s: RunV, why: Fault, exit: Option<Exit<Seq<char>>>)
    ensures
        s.stage == Stage::Announce ==> {
            let (t, act) = run::stepped(s, Event::Failed(why));
            &&& t.stage == Stage::Ending(Cause::Unannounced)
            &&& act == (ActV::Finish { run_id: s.run_id, pgid: s.pid, reap: true })
        },
        s.stage == Stage::Start ==> {
            let (t, act) = run::stepped(s, Event::Failed(why));
            let (u, told) = run::stepped(t, Event::Reaped(exit));
            &&& act == (ActV::Finish { run_id: s.run_id, pgid: s.pid, reap: true })
            &&& told == (ActV::Refuse {
                denial: None,
                release: None,
                response: wire::err_response(s.id, "E_AUDIT_WRITE"@, "audit write failed"@),
            })
            &&& u.stage == Stage::Over
        },
        s.stage == Stage::Activate ==> {
            let (t, act) = run::stepped(s, Event::Flag(false));
            let (u, told) = run::stepped(t, Event::Done);
            &&& act == (ActV::EndGroup { pgid: s.pid })
            &&& told == (ActV::Refuse {
                denial: Some(
                    RunDenial {
                        actor: s.actor,
                        project: Some(s.launch.project),
                        keys: s.keys,
                        run_id: Some(s.run_id),
                        why: Fault::Permission,
                    },
                ),
                release: Some(s.run_id),
                response: wire::err_response(
                    s.id,
                    "E_PERMISSION"@,
                    "run capability was revoked"@,
                ),
            })
            &&& u.stage == Stage::Over
        },
{
}

// ------------------------------------------------------------------- refusals
/// Whether a step refuses a run with a code and a sentence, and records that under an
/// actor with a reason.
pub open spec fn refuses(
    step: (RunV, ActV),
    id: Seq<char>,
    actor: Seq<char>,
    project: Option<Seq<char>>,
    why: Fault,
    code: Seq<char>,
    msg: Seq<char>,
) -> bool {
    &&& step.0.stage == Stage::Over
    &&& step.1 matches Act::Refuse { denial, response, .. } && denial matches Some(d) && d.actor
        == actor && d.project == project && d.why == why && response == wire::err_response(
        id,
        code,
        msg,
    )
}

/// Every check that fails refuses the run with its own code: before the agent is
/// known under the name of an unknown agent, after that under the agent's.
pub proof fn law_failed_checks_refuse(s: RunV, why: Fault, code: Seq<char>, msg: Seq<char>)
    ensures
        s.stage == Stage::Idle && s.fds != 3 ==> refuses(
            run::stepped(s, Event::Done),
            s.id,
            "agent:unknown"@,
            None,
            Fault::InvalidInput("expected exactly 3 file descriptors"@),
            "E_INVALID_INPUT"@,
            "expected exactly 3 file descriptors"@,
        ),
        s.stage == Stage::Params ==> refuses(
            run::stepped(s, Event::Failed(why)),
            s.id,
            "agent:unknown"@,
            None,
            why,
            why.code(),
            why.message(),
        ),
        s.stage == Stage::Vault ==> run::stepped(s, Event::Flag(false)).1 == (ActV::Refuse {
            denial: None,
            release: None,
            response: wire::err_response(
                s.id,
                "E_NOT_FOUND"@,
                "no vault exists; run svault init"@,
            ),
        }),
        s.stage == Stage::Vault && s.token is Some && s.passphrase ==> refuses(
            run::stepped(s, Event::Flag(true)),
            s.id,
            "agent:unknown"@,
            Some(s.launch.project),
            Fault::Protocol("provide either a token or a passphrase, not both"@),
            "E_PROTOCOL"@,
            "provide either a token or a passphrase, not both"@,
        ),
        s.stage == Stage::Vault && s.token is None ==> refuses(
            run::stepped(s, Event::Flag(true)),
            s.id,
            "agent:unknown"@,
            Some(s.launch.project),
            Fault::Auth,
            "E_AUTH"@,
            "authentication failed"@,
        ),
        s.stage == Stage::Agent ==> refuses(
            run::stepped(s, Event::Agent(None)),
            s.id,
            "agent:unknown"@,
            Some(s.launch.project),
            Fault::Auth,
            "E_AUTH"@,
            "authentication failed"@,
        ),
        s.stage == Stage::Unlocked ==> refuses(
            run::stepped(s, Event::Flag(false)),
            s.id,
            s.actor,
            Some(s.launch.project),
            Fault::Locked,
            "E_LOCKED"@,
            "vault is locked"@,
        ),
        s.stage == Stage::Grant ==> refuses(
            run::stepped(s, Event::Flag(false)),
            s.id,
            s.actor,
            Some(s.launch.project),
            Fault::Permission,
            "E_PERMISSION"@,
            "permission denied"@,
        ),
        s.stage == Stage::Env || s.stage == Stage::Cwd || s.stage == Stage::Name || s.stage
            == Stage::Spawn ==> refuses(
            run::stepped(s, Event::Failed(why)),
            s.id,
            s.actor,
            Some(s.launch.project),
            why,
            why.code(),
            why.message(),
        ),
        s.stage == Stage::Slot ==> refuses(
            run::stepped(s, Event::Unreserved { code, msg }),
            s.id,
            s.actor,
            Some(s.launch.project),
            if code == "E_BUSY"@ {
                Fault::Busy
            } else {
                Fault::Protocol(msg)
            },
            code,
            msg,
        ),
        s.stage == Stage::Allow ==> run::stepped(s, Event::Failed(why)).1 == (ActV::Refuse {
            denial: None,
            release: Some(s.run_id),
            response: wire::err_response(s.id, "E_AUDIT_WRITE"@, "audit write failed"@),
        }),
{
}

/// A reserved place is given back by every refusal, and no other place is.
pub proof fn law_reservations_are_released(s: RunV, e: EventV)
    requires
        run::fits(s.stage, e),
        run::stepped(s, e).1 is Refuse,
    ensures
        match run::stepped(s, e).1 {
            Act::Refuse { release, .. } => if s.stage == Stage::Allow || s.stage == Stage::Spawn
                || s.stage == Stage::Revoked {
                release == Some(s.run_id)
            } else {
                release is None
            },
            _ => false,
        },
{
}

/// What a run has learned it keeps: each fact changes only where it is learned, and
/// then to what was learned.
pub proof fn law_what_is_known_stays(s: RunV, e: EventV)
    requires
        run::fits(s.stage, e),
        run::run_wf(s),
    ensures
        ({
            let t = run::stepped(s, e).0;
            &&& t.id == s.id
            &&& t.token == s.token
            &&& t.passphrase == s.passphrase
            &&& t.fds == s.fds
            &&& t.max_keys == s.max_keys
            &&& t.max_secs == s.max_secs
            &&& t.launch == (match (s.stage, e) {
                (Stage::Params, Event::Parsed(l)) => l,
                _ => s.launch,
            })
            &&& t.agent == (match (s.stage, e) {
                (Stage::Agent, Event::Agent(Some(a))) => a,
                _ => s.agent,
            })
            &&& t.actor == (match (s.stage, e) {
                (Stage::Agent, Event::Agent(Some(a))) => "agent:"@ + a,
                _ => s.actor,
            })
            &&& t.run_id == (match (s.stage, e) {
                (Stage::Name, Event::Named(n)) => n,
                _ => s.run_id,
            })
            &&& t.pid == (match (s.stage, e) {
                (Stage::Spawn, Event::Spawned(p)) => p,
                _ => s.pid,
            })
            &&& t.keys != s.keys ==> t.stage == Stage::Env
            &&& t.exit == (match (s.stage, e) {
                (Stage::Watch, Event::Looked { look: Look::Exited(x), .. }) => Some(x),
                (Stage::Ending(_), Event::Reaped(x)) => x,
                _ => s.exit,
            })
        }),
{
}

/// A recorded refusal names the keys that the run was about to get, once they are known, and
/// the run, once it has a name: none before.
pub proof fn law_refusals_name_the_keys_and_the_run(s: RunV, e: EventV)
    requires
        run::fits(s.stage, e),
        run::run_wf(s),
    ensures
        run::stepped(s, e).1 matches Act::Refuse { denial: Some(d), .. } ==> {
            let known = s.stage == Stage::Env || s.stage == Stage::Cwd || s.stage == Stage::Name
                || s.stage == Stage::Slot || s.stage == Stage::Spawn || s.stage == Stage::Revoked;
            let named = s.stage == Stage::Slot || s.stage == Stage::Spawn || s.stage
                == Stage::Revoked;
            &&& known ==> d.keys == s.keys
            &&& s.stage == Stage::Idle || s.stage == Stage::Params || s.stage == Stage::Vault
                || s.stage == Stage::Agent || s.stage == Stage::Unlocked || (s.stage == Stage::Grant
                && s.launch.keys is None) ==> d.keys.len() == 0
            &&& d.run_id == (if named {
                Some(s.run_id)
            } else {
                None
            })
        },
{
}

/// A run without names that has no key or too many is refused with the reason, and names
/// what it found; a lock that failed and an end that could not be seen are told as such.
pub proof fn law_other_failures_say_why(s: RunV, found: Seq<Seq<char>>, why: Fault, cause: Cause)
    ensures
        s.stage == Stage::AllKeys && found.len() == 0 ==> refuses(
            run::stepped(s, Event::Keys(found)),
            s.id,
            s.actor,
            Some(s.launch.project),
            Fault::InvalidInput("no secrets to run with"@),
            "E_INVALID_INPUT"@,
            "invalid input: no secrets to run with"@,
        ),
        s.stage == Stage::AllKeys && found.len() > 0 && found.len() > s.max_keys ==> refuses(
            run::stepped(s, Event::Keys(found)),
            s.id,
            s.actor,
            Some(s.launch.project),
            Fault::InvalidInput("too many keys"@),
            "E_INVALID_INPUT"@,
            "invalid input: too many keys"@,
        ),
        s.stage == Stage::Idle ==> run::stepped(s, Event::Failed(why)).1 == (ActV::Refuse {
            denial: None,
            release: None,
            response: wire::err_response(s.id, why.code(), why.message()),
        }),
        s.stage == Stage::Farewell(cause) && s.exit is None && (cause != Cause::Exited
            || s.recorded) ==> run::stepped(s, Event::Flag(false)).1 == ActV::Answer(
            wire::err_response(s.id, "E_IO"@, "io error: wait failed"@),
        ),
{
}

/// A run starts from what its request presents, and knows nothing else yet.
pub proof fn law_a_run_starts_from_its_request(
    req: RequestV,
    fds: usize,
    max_keys: usize,
    max_secs: u64,
)
    ensures
        ({
            let s = run::fresh(req, fds, max_keys, max_secs);
            &&& s.stage == Stage::Idle
            &&& s.id == req.id
            &&& s.token == req.auth.token
            &&& s.passphrase <==> req.auth.passphrase is Some
            &&& s.fds == fds
            &&& s.max_keys == max_keys
            &&& s.max_secs == max_secs
            &&& s.keys.len() == 0 && s.exit is None && !s.recorded && !s.missing && s.looked == 0
        }),
{
}

} // verus!
