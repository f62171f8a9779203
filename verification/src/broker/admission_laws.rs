//! Who a request is taken for, and what becomes of it before its operation.

use vstd::prelude::*;

use crate::broker::daemon::{
    self, Derivation, Facts, Failure, HandledV, IdleLock, IntakeV, LockNext, LockPart, RunHandle,
    Wait, WatchV,
};
use crate::broker::dispatch::{self, ContextV};
use crate::broker::gate::{self, DenialV, IdentityV};
use crate::broker::ops::{self, Operation};
use crate::broker::request_laws;
use crate::json::JsonV;
use crate::wire::{self, AuthV, RequestV, ResponseV};

verus! {

/// Whether the request was admitted as `identity` and goes on to its operation.
pub open spec fn goes_on_as(
    req: RequestV,
    facts: Facts,
    identity: IdentityV,
    actor: Seq<char>,
    proven: bool,
) -> bool {
    let ctx = ContextV { actor, identity, locked: facts.locked, proven };
    daemon::handled(req, facts) == (HandledV::Dispatch { ctx, step: dispatch::first_step(req, ctx) })
}

/// Whether the request was refused with `code` and `msg`, and `actor` is on record for it.
pub open spec fn refused_as(
    req: RequestV,
    facts: Facts,
    actor: Seq<char>,
    code: Seq<char>,
    msg: Seq<char>,
) -> bool {
    daemon::handled(req, facts) == (HandledV::Answer {
        denial: Some(DenialV { actor, op: req.op, project: None, reason: code }),
        response: ResponseV {
            id: req.id,
            ok: false,
            result: None,
            error: Some(wire::WireErrorV { code, msg, data: None }),
        },
    })
}

/// Whether nothing stood in the way before the credentials were looked at.
pub open spec fn looked_at(facts: Facts) -> bool {
    facts.vault_exists && !(facts.derivation is Failed) && !(facts.idle is Failed)
}

/// Whether the parameters name no lease, but the one that is to be revoked.
pub open spec fn names_no_lease(req: RequestV) -> bool {
    &&& req.params is Object
    &&& req.params.at("lease"@) is Null
    &&& req.params.at("lease_id"@) is Null || req.op == "lease.revoke"@
}

/// A passphrase that opens the vault makes the request the owner's, for every operation.
pub proof fn law_the_passphrase_makes_the_owner(
    req: RequestV,
    facts: Facts,
    passphrase: Seq<char>,
)
    requires
        looked_at(facts),
        names_no_lease(req),
        req.auth == (AuthV { token: None, passphrase: Some(passphrase), session: None }),
        facts.derivation == (Derivation::Derived { valid: true }),
    ensures
        goes_on_as(req, facts, IdentityV::Human, "human"@, true),
{
    request_laws::law_operations_go_by_their_names();
}

/// The credential of a live session makes the request the owner's, in the name that the
/// session was opened under.
pub proof fn law_a_live_session_makes_the_owner(
    req: RequestV,
    facts: Facts,
    credential: Seq<char>,
    actor: String,
)
    requires
        looked_at(facts),
        names_no_lease(req),
        req.auth == (AuthV { token: None, passphrase: None, session: Some(credential) }),
        credential.len() > 0,
        facts.derivation is Absent,
        facts.session_actor == Some(actor),
    ensures
        goes_on_as(req, facts, IdentityV::Human, actor@, false),
{
    request_laws::law_operations_go_by_their_names();
}

/// The token of an active agent makes the request that agent's, for the operations that are
/// not the owner's alone.
pub proof fn law_a_known_token_makes_the_agent(
    req: RequestV,
    facts: Facts,
    token: Seq<char>,
    agent: String,
)
    requires
        looked_at(facts),
        req.auth == (AuthV { token: Some(token), passphrase: None, session: None }),
        facts.derivation is Absent,
        facts.agent == Some(agent),
    ensures
        ops::operation_named(req.op) is None || !(ops::operation_named(req.op)->0).is_human_only()
            ==> goes_on_as(req, facts, IdentityV::Agent(agent@), "agent:"@ + agent@, false),
        ops::operation_named(req.op) is Some && (ops::operation_named(req.op)->0).is_human_only()
            ==> refused_as(
            req,
            facts,
            "agent:"@ + agent@,
            "E_HUMAN_REQUIRED"@,
            "this operation is human-only"@,
        ),
{
}

/// Without a credential the public status is answered, and nothing else.
pub proof fn law_anyone_may_ask_for_the_status(req: RequestV, facts: Facts)
    requires
        looked_at(facts),
        req.auth == wire::no_auth(),
        facts.derivation is Absent,
    ensures
        req.op == "vault.status"@ ==> goes_on_as(
            req,
            facts,
            IdentityV::Unauthenticated,
            "unauthenticated"@,
            false,
        ),
        req.op != "vault.status"@ && req.op.len() > 0 ==> refused_as(
            req,
            facts,
            "unauthenticated"@,
            "E_AUTH"@,
            "unauthenticated: this operation requires agent or human credentials"@,
        ),
{
    request_laws::law_operations_go_by_their_names();
    ops::law_names_identify_operations(req.op, Operation::VaultStatus);
}

/// A wrong passphrase, an unknown token, a dead or empty session and a crowd of credentials
/// are each refused with their own answer, and recorded under a name that says no more
/// than is known.
pub proof fn law_bad_credentials_are_refused_and_recorded(req: RequestV, facts: Facts)
    requires
        looked_at(facts),
        req.op.len() > 0,
    ensures
        req.auth.passphrase is Some && req.auth.token is None && req.auth.session is None
            && facts.derivation != (Derivation::Derived { valid: true }) ==> refused_as(
            req,
            facts,
            "unauthenticated"@,
            "E_AUTH"@,
            "authentication failed"@,
        ),
        req.auth.token is Some && req.auth.passphrase is None && req.auth.session is None
            && facts.agent is None ==> refused_as(
            req,
            facts,
            "agent:unknown"@,
            "E_AUTH"@,
            "authentication failed"@,
        ),
        req.auth.session is Some && req.auth.token is None && req.auth.passphrase is None && (
        facts.session_actor is None || req.auth.session->0.len() == 0) ==> refused_as(
            req,
            facts,
            "unauthenticated"@,
            "E_SESSION_EXPIRED"@,
            "session expired or revoked"@,
        ),
        (req.auth.token is Some && req.auth.passphrase is Some) || (req.auth.token is Some
            && req.auth.session is Some) || (req.auth.passphrase is Some && req.auth.session is Some)
            ==> refused_as(
            req,
            facts,
            "unauthenticated"@,
            "E_PROTOCOL"@,
            "provide exactly one credential: a token, a passphrase, or a session"@,
        ),
{
}

/// The owner's request that names a lease is refused and recorded under the owner's name.
pub proof fn law_the_owner_takes_no_lease(req: RequestV, facts: Facts, passphrase: Seq<char>)
    requires
        looked_at(facts),
        req.auth == (AuthV { token: None, passphrase: Some(passphrase), session: None }),
        facts.derivation == (Derivation::Derived { valid: true }),
    ensures
        req.params is Object && !(req.params.at("lease"@) is Null && (req.params.at("lease_id"@) is Null
            || req.op == "lease.revoke"@)) ==> refused_as(
            req,
            facts,
            "human"@,
            "E_INVALID_INPUT"@,
            "human operations take no lease; leases narrow agent grants only"@,
        ),
        !(req.params is Object) ==> refused_as(
            req,
            facts,
            "human"@,
            "E_INVALID_INPUT"@,
            "params must be an object"@,
        ),
{
    request_laws::law_operations_go_by_their_names();
    ops::law_names_identify_operations(req.op, Operation::LeaseRevoke);
}

/// Where there is no vault, one is created with the passphrase of the request, be it presented
/// as a credential or as a parameter; a session creates none.
pub proof fn law_a_vault_is_created_with_the_passphrase_given(
    req: RequestV,
    facts: Facts,
    passphrase: Seq<char>,
)
    requires
        !facts.vault_exists,
        !(facts.derivation is Failed),
        !(facts.idle is Failed),
        req.op == "vault.create"@,
    ensures
        req.auth.session is None && req.auth.passphrase == Some(passphrase) ==> daemon::handled(req, facts)
            == (HandledV::Create { passphrase }),
        req.auth.session is None && req.auth.passphrase is None && req.params.at("passphrase"@)
            == JsonV::Str(passphrase) ==> daemon::handled(req, facts) == (HandledV::Create {
            passphrase,
        }),
        req.auth.session is None && req.auth.passphrase is None && !(req.params.at("passphrase"@) is Str)
            ==> daemon::handled(req, facts) == (HandledV::Answer {
            denial: None,
            response: wire::err_response(req.id, "E_INVALID_INPUT"@, "missing passphrase"@),
        }),
        req.auth.session is Some ==> daemon::handled(req, facts) == (HandledV::Answer {
            denial: None,
            response: wire::err_response(
                req.id,
                "E_SESSION_EXPIRED"@,
                "session expired or revoked"@,
            ),
        }),
{
    request_laws::law_operations_go_by_their_names();
}

/// A header that cannot be used and a lock that failed are told as they are, whoever asks,
/// and recorded where there is a vault.
pub proof fn law_failures_before_admission_are_told_as_they_are(
    req: RequestV,
    facts: Facts,
    f: Failure,
)
    requires
        facts.derivation == Derivation::Failed(f) || (!(facts.derivation is Failed) && facts.idle == IdleLock::Failed(f)),
        req.op.len() > 0,
    ensures
        facts.vault_exists ==> refused_as(req, facts, "unauthenticated"@, f.code@, f.msg@),
        !facts.vault_exists ==> daemon::handled(req, facts) == (HandledV::Answer {
            denial: None,
            response: wire::err_response(req.id, f.code@, f.msg@),
        }),
{
}

/// What a session was allowed keeps it alive, but for what is about the session itself.
pub proof fn law_use_keeps_a_session_alive(req: RequestV, allowed: bool)
    ensures
        gate::slides(req, allowed) == (if allowed && req.op != "session.open"@ && req.op
            != "session.touch"@ && req.op != "session.close"@ {
            req.auth.session
        } else {
            None
        }),
{
    request_laws::law_operations_go_by_their_names();
    ops::law_names_identify_operations(req.op, Operation::SessionOpen);
    ops::law_names_identify_operations(req.op, Operation::SessionTouch);
    ops::law_names_identify_operations(req.op, Operation::SessionClose);
}

/// Keys are derived for a request that presents a passphrase and nothing else.
pub proof fn law_a_passphrase_alone_is_derived(auth: AuthV, passphrase: Seq<char>)
    ensures
        gate::derivation_wanted(
            AuthV { token: None, passphrase: Some(passphrase), session: None },
        ),
        gate::derivation_wanted(auth) ==> auth.token is None && auth.session is None && auth.passphrase is Some,
{
}

/// A refused operation that left no record gets one, with who asked, what for and why.
pub proof fn law_a_late_refusal_is_recorded_once(req: RequestV, actor: Seq<char>, code: Seq<char>)
    requires
        req.op.len() > 0,
    ensures
        gate::residual_denial(req, actor, Some(code), false) == Some(
            DenialV { actor, op: req.op, project: req.params.at("project"@).text(), reason: code },
        ),
        gate::residual_denial(req, actor, Some(code), true) is None,
{
}

/// The first greeting is answered as one, a run is taken with its descriptors, and a request
/// without descriptors is taken; what does not belong is refused with its reason.
pub proof fn law_lines_go_where_they_belong(req: RequestV, fds: nat, greeted: bool)
    ensures
        req.op == "broker.hello"@ && !greeted && fds == 0 ==> daemon::taken_in(req, fds, greeted)
            == IntakeV::Hello,
        req.op == "broker.hello"@ && greeted ==> daemon::taken_in(req, fds, greeted) == IntakeV::Refuse(
            wire::err_response(
                req.id,
                "E_PROTOCOL"@,
                "broker.hello is a handshake line, not an op"@,
            ),
        ),
        req.op == "broker.hello"@ && !greeted && fds > 0 ==> daemon::taken_in(req, fds, greeted)
            == IntakeV::Refuse(
            wire::err_response(
                req.id,
                "E_PROTOCOL"@,
                "broker.hello carries no file descriptors"@,
            ),
        ),
        req.op == "run_with_secrets"@ ==> daemon::taken_in(req, fds, greeted) == IntakeV::Run,
        req.op != "broker.hello"@ && req.op != "run_with_secrets"@ ==> daemon::taken_in(
            req,
            fds,
            greeted,
        ) == (if fds == 0 {
            IntakeV::Request
        } else {
            IntakeV::RefuseRecorded {
                denial: DenialV {
                    actor: "agent:unknown"@,
                    op: "run_with_secrets"@,
                    project: None,
                    reason: "E_INVALID_INPUT"@,
                },
                response: wire::err_response(
                    req.id,
                    "E_INVALID_INPUT"@,
                    "unexpected file descriptors"@,
                ),
            }
        }),
{
    reveal_strlit("broker.hello");
    reveal_strlit("run_with_secrets");
    assert("broker.hello"@.len() == 12 && "run_with_secrets"@.len() == 16);
}

/// The lock is over with the last of its parts, and the vault is locked where that part
/// succeeded; a watch that was stopped ends, and one without a deadline waits.
pub proof fn law_the_vault_is_locked_when_it_was_wiped(
    succeeded: bool,
    deadline: Option<u64>,
    now: u64,
)
    ensures
        daemon::lock_after(Some(LockPart::Persist), succeeded) == (LockNext::Over { locked: succeeded }),
        daemon::waits(WatchV { deadline, stopped: true }, now) == Wait::Exit,
        daemon::waits(WatchV { deadline: None, stopped: false }, now) == Wait::Park,
{
}

/// The groups that are ended are those of the runs that have one, in order, and every run is
/// put on record as revoked.
pub proof fn law_ended_runs_are_those_that_run(actor: Seq<char>, runs: Seq<RunHandle>)
    ensures
        daemon::groups_of(runs) == Seq::new(runs.len(), |i: int| runs[i].pgid).filter(|g: i32| g > 0),
        daemon::revocations_of(actor, runs).len() == runs.len(),
        forall|i: int|
            0 <= i < runs.len() ==> {
                let r = #[trigger] daemon::revocations_of(actor, runs)[i];
                r.actor == actor && r.project == runs[i].project@ && r.run_id == runs[i].run_id@
            },
    decreases runs.len(),
{
    let groups = Seq::new(runs.len(), |i: int| runs[i].pgid);
    let runs_on = |g: i32| g > 0;
    reveal(Seq::filter);
    if runs.len() == 0 {
        assert(groups =~= Seq::<i32>::empty());
        assert(groups.filter(runs_on) =~= Seq::<i32>::empty());
    } else {
        let rest = runs.drop_last();
        law_ended_runs_are_those_that_run(actor, rest);
        assert(groups.drop_last() =~= Seq::new(rest.len(), |i: int| rest[i].pgid));
        assert(groups.last() == runs.last().pgid);
    }
}

} // verus!
