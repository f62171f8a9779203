//! One request from its arrival to its first step, and the timers and limits
//! of the daemon.

use vstd::prelude::*;

use crate::audit::{Decision, Priority, Record};
use crate::broker::dispatch::{self, Context, ContextV, Step, StepV};
use crate::broker::gate::{
    self, Admission, AdmissionV, Checked, Denial, DenialV, Examined, ExaminedV,
};
use crate::broker::ops::{self, Operation};
use crate::broker_identity::handshake;
use crate::broker_identity::{self, BrokerIdentity};
use crate::crypto;
use crate::error::{Fault, VaultError};
use crate::json::{self, Json, JsonV};
use crate::paths;
use crate::wire::{self, Request, RequestV, Response, ResponseV};

verus! {

/// Cap on concurrent connections.
pub const MAX_CONCURRENT_CONNECTIONS: usize = 32;

/// How long a new connection may take to send its first request, in seconds.
pub const FIRST_REQUEST_TIMEOUT_SECS: u64 = 5;

/// Read and write timeout of a connection that has started talking, in seconds.
pub const CONNECTION_IDLE_TIMEOUT_SECS: u64 = 30;

/// How long to wait before a failed idle lock is tried again, in seconds.
pub const IDLE_RETRY_BACKOFF_SECS: u64 = 5;

/// Gives what a further connection is turned away with, if it is.
pub fn admits_connection(open: usize) -> (r: Result<(), Response>)
    ensures
        match r {
            Ok(_) => open < MAX_CONCURRENT_CONNECTIONS,
            Err(response) => open >= MAX_CONCURRENT_CONNECTIONS && response@ == wire::err_response(
                "conn"@,
                "E_PROTOCOL"@,
                "too many concurrent connections"@,
            ),
        },
{
    if open < MAX_CONCURRENT_CONNECTIONS {
        Ok(())
    } else {
        Err(Response::err("conn", "E_PROTOCOL", "too many concurrent connections"))
    }
}

/// Gives what a peer is turned away with, unless it belongs to the owner.
pub fn admits_peer(same_owner: bool) -> (r: Result<(), Response>)
    ensures
        match r {
            Ok(_) => same_owner,
            Err(response) => !same_owner && response@ == wire::err_response(
                "peer"@,
                "E_AUTH"@,
                "peer uid does not match the daemon owner"@,
            ),
        },
{
    if same_owner {
        Ok(())
    } else {
        Err(Response::err("peer", "E_AUTH", "peer uid does not match the daemon owner"))
    }
}

/// A failed step of the session: its code and its message.
pub struct Failure {
    pub code: String,
    pub msg: String,
}

/// The refusal that reports a failed step.
pub open spec fn failure_response(id: Seq<char>, f: Failure) -> ResponseV {
    wire::err_response(id, f.code@, f.msg@)
}

/// What came of the proof that a passphrase request needs.
pub enum Derivation {
    /// None was needed, or there was nothing to derive from.
    Absent,
    /// The header could not be used.
    Failed(Failure),
    /// Keys were derived; the flag tells whether they open a slot.
    Derived { valid: bool },
}

/// What came of the idle lock.
pub enum IdleLock {
    /// The window is not over, or the vault is locked already.
    NotDue,
    /// The vault was locked.
    Locked,
    /// Locking failed.
    Failed(Failure),
}

/// Whether the idle lock is due: once, while the vault is open.
pub fn idle_lock_due(idle_expired: bool, locked: bool) -> (r: bool)
    ensures
        r == (idle_expired && !locked),
{
    idle_expired && !locked
}

/// What the session says of a request before it is dispatched.
pub struct Facts {
    pub vault_exists: bool,
    pub derivation: Derivation,
    pub idle: IdleLock,
    /// The active agent that holds the presented token.
    pub agent: Option<String>,
    /// The actor of the live session that the presented credential names.
    pub session_actor: Option<String>,
    /// Whether the vault is locked.
    pub locked: bool,
}

/// What becomes of a request.
pub enum Handled {
    /// Record the refusal, if any, and answer.
    Answer { denial: Option<Denial>, response: Response },
    /// Create the vault with this passphrase.
    Create { passphrase: String },
    /// The request was admitted; take this step.
    Dispatch { ctx: Context, step: Step },
}

/// The mathematical value of [`Handled`].
pub enum HandledV {
    Answer { denial: Option<DenialV>, response: ResponseV },
    Create { passphrase: Seq<char> },
    Dispatch { ctx: ContextV, step: StepV },
}

impl View for Handled {
    type V = HandledV;

    open spec fn view(&self) -> HandledV {
        match self {
            Handled::Answer { denial, response } => HandledV::Answer {
                denial: gate::opt_denial(*denial),
                response: response@,
            },
            Handled::Create { passphrase } => HandledV::Create { passphrase: passphrase@ },
            Handled::Dispatch { ctx, step } => HandledV::Dispatch { ctx: ctx@, step: step@ },
        }
    }
}

pub open spec fn plain(response: ResponseV) -> HandledV {
    HandledV::Answer { denial: None, response }
}

/// The passphrase of a new vault: the presented one, or the parameter. A
/// session cannot be known where there is no vault.
pub open spec fn creation(req: RequestV) -> HandledV {
    if req.auth.session is Some {
        plain(gate::session_expired(req.id))
    } else {
        match (req.auth.passphrase, req.params.at("passphrase"@).text()) {
            (Some(p), _) => HandledV::Create { passphrase: p },
            (None, Some(p)) => HandledV::Create { passphrase: p },
            (None, None) => plain(
                wire::err_response(req.id, "E_INVALID_INPUT"@, "missing passphrase"@),
            ),
        }
    }
}

/// What a request is answered with when a step before its admission failed. The
/// refusal is recorded where there is a vault.
pub open spec fn failed(req: RequestV, vault_exists: bool, f: Failure) -> HandledV {
    HandledV::Answer {
        denial: if vault_exists {
            gate::stranger_denial(req, f.code@)
        } else {
            None
        },
        response: failure_response(req.id, f),
    }
}

/// Whether the proof of a passphrase request holds: a proof that could not be
/// derived fails like a wrong passphrase.
pub open spec fn proof_holds(d: Derivation) -> bool {
    d matches Derivation::Derived { valid } && valid
}

/// The checked credential of a request.
pub open spec fn checked(examined: ExaminedV, facts: Facts) -> Checked {
    match examined {
        ExaminedV::Token(_) => Checked::Token(facts.agent),
        ExaminedV::Proof => Checked::Proof(proof_holds(facts.derivation)),
        ExaminedV::Session(_) => Checked::Session(facts.session_actor),
        _ => Checked::Anonymous,
    }
}

/// What becomes of a request: its proof was derived before the session was
/// taken, an expired idle window locks the vault first, and only then is the
/// request admitted and begun.
pub open spec fn handled(req: RequestV, facts: Facts) -> HandledV {
    match (facts.derivation, facts.idle) {
        (Derivation::Failed(f), _) => failed(req, facts.vault_exists, f),
        (_, IdleLock::Failed(f)) => failed(req, facts.vault_exists, f),
        _ => match gate::examined(req, facts.vault_exists) {
            ExaminedV::Answer { denial, response } => HandledV::Answer { denial, response },
            ExaminedV::Create => creation(req),
            e => match gate::admission(req, checked(e, facts)) {
                AdmissionV::Refused { denial, response } => HandledV::Answer { denial, response },
                AdmissionV::Admitted { identity, actor } => {
                    let ctx = ContextV {
                        actor,
                        identity,
                        locked: facts.locked,
                        proven: facts.derivation is Derived,
                    };
                    HandledV::Dispatch { ctx, step: dispatch::first_step(req, ctx) }
                },
            },
        },
    }
}

fn answered(response: Response) -> (r: Handled)
    ensures
        r@ == plain(response@),
{
    Handled::Answer { denial: None, response }
}

fn fail(req: &Request, vault_exists: bool, f: &Failure) -> (r: Handled)
    ensures
        r@ == failed(req@, vault_exists, *f),
{
    let recorded = if vault_exists {
        gate::deny_stranger(req, &f.code)
    } else {
        None
    };
    Handled::Answer { denial: recorded, response: Response::err(&req.id, &f.code, &f.msg) }
}

/// Reads what a new vault is created with.
fn create(req: &Request) -> (r: Handled)
    ensures
        r@ == creation(req@),
{
    match req.session() {
        Some(_) => {
            return answered(
                Response::err(&req.id, "E_SESSION_EXPIRED", "session expired or revoked"),
            );
        },
        None => {},
    }
    match req.passphrase() {
        Some(p) => Handled::Create { passphrase: p.to_string() },
        None => match req.params.text_at("passphrase") {
            Some(p) => Handled::Create { passphrase: p.to_string() },
            None => answered(Response::err(&req.id, "E_INVALID_INPUT", "missing passphrase")),
        },
    }
}

/// What a created vault is answered with.
pub fn created(req: &Request, vault_path: &str) -> (r: Response)
    ensures
        r@ == wire::ok_response(
            req@.id,
            json::empty_object().with("created"@, JsonV::Str(vault_path@)),
        ),
{
    let mut j = Json::object();
    j.put("created", Json::string(vault_path));
    Response::ok(&req.id, j)
}

/// The nonce of a handshake's line.
pub open spec fn hello_nonce(req: RequestV) -> Option<Seq<u8>> {
    broker_identity::hex_field(req.params.at("client_nonce"@).text(), 32)
}

/// How a handshake's line without a nonce is refused.
pub open spec fn bad_hello(id: Seq<char>) -> ResponseV {
    wire::err_response(id, "E_PROTOCOL"@, "broker.hello needs a 32-byte hex client_nonce"@)
}

/// What a handshake is answered with.
pub open spec fn hello_answer(
    req: RequestV,
    private: Seq<u8>,
    server_nonce: Seq<u8>,
    socket: Seq<u8>,
    cwd: Seq<u8>,
) -> ResponseV {
    match hello_nonce(req) {
        None => bad_hello(req.id),
        Some(n) => wire::ok_response(
            req.id,
            handshake::hello_result(
                private,
                server_nonce,
                broker_identity::hello_signature(private, n, server_nonce, socket, cwd),
            ),
        ),
    }
}

/// How the daemon is set up.
pub struct DaemonConfig {
    /// The bytes of the socket's path.
    pub socket_path: Vec<u8>,
    /// The bytes of the vault's path.
    pub vault_path: Vec<u8>,
    /// The idle window in seconds; the vault locks itself after it.
    pub idle_lock: u64,
}

/// The daemon: its setup and its identity.
pub struct Daemon {
    config: DaemonConfig,
    identity: BrokerIdentity,
}

impl Daemon {
    pub closed spec fn socket(&self) -> Seq<u8> {
        self.config.socket_path@
    }

    /// The bytes of the vault's path.
    pub closed spec fn vault(&self) -> Seq<u8> {
        self.config.vault_path@
    }

    /// The idle window in seconds.
    pub closed spec fn idle_window(&self) -> u64 {
        self.config.idle_lock
    }

    pub closed spec fn key(&self) -> BrokerIdentity {
        self.identity
    }

    pub fn new(config: DaemonConfig, identity: BrokerIdentity) -> (r: Daemon)
        ensures
            r.socket() == config.socket_path@,
            r.vault() == config.vault_path@,
            r.idle_window() == config.idle_lock,
            r.key() == identity,
    {
        Daemon { config, identity }
    }

    /// The public key that signs every handshake.
    pub fn broker_public_key(&self) -> (r: [u8; 32])
        ensures
            r@ == broker_identity::public_key_of(self.key()@),
    {
        self.identity.public_key()
    }

    /// Signs a client nonce for a socket as a handshake does, with a fresh
    /// server nonce. The signature verifies under the daemon's key, however the
    /// path of the socket is spelled.
    pub fn hello_for_test(&self, client_nonce: &[u8; 32], socket: &[u8], cwd: &[u8]) -> (r: Result<
        ([u8; 32], [u8; 64]),
        VaultError,
    >)
        ensures
            match r {
                Ok((server_nonce, signature)) => {
                    &&& signature@ == broker_identity::hello_signature(
                        self.key()@,
                        client_nonce@,
                        server_nonce@,
                        socket@,
                        cwd@,
                    )
                    &&& forall|spelling: Seq<u8>|
                        paths::canonical(spelling, cwd@) == paths::canonical(socket@, cwd@)
                            ==> #[trigger] broker_identity::hello_fault(
                            broker_identity::public_key_of(self.key()@),
                            client_nonce@,
                            server_nonce@,
                            signature@,
                            spelling,
                            cwd@,
                        ) is None
                },
                Err(e) => crypto::is_csprng_failure(e@),
            },
    {
        let key = self.identity.public_key();
        assert(broker_identity::ed25519_well_formed(key@));
        self.identity.hello_reply(client_nonce, socket, cwd)
    }

    /// Answers a handshake with the given server nonce.
    pub fn answer_hello_with(&self, req: &Request, server_nonce: &[u8; 32], cwd: &[u8]) -> (r:
        Response)
        ensures
            r@ == hello_answer(req@, self.key()@, server_nonce@, self.socket(), cwd@),
            hello_nonce(req@) matches Some(n) ==> handshake::strict_outcome(
                Some(r@),
                req@.id,
                n,
                self.socket(),
                cwd@,
                Ok(Some(broker_identity::public_key_of(self.key()@))),
            ) is Ok,
    {
        let client_nonce = match broker_identity::key_at(&req.params, "client_nonce") {
            Some(n) => n,
            None => {
                return Response::err(
                    &req.id,
                    "E_PROTOCOL",
                    "broker.hello needs a 32-byte hex client_nonce",
                );
            },
        };
        let key = self.identity.public_key();
        let signature = self.identity.hello_with(
            &client_nonce,
            server_nonce,
            self.config.socket_path.as_slice(),
            cwd,
        );
        let mut j = Json::object();
        j.put("public_key", Json::string(&crypto::hex(key.as_slice())));
        j.put("server_nonce", Json::string(&crypto::hex(server_nonce.as_slice())));
        j.put("signature", Json::string(&crypto::hex(signature.as_slice())));
        proof {
            handshake::law_reply_presents_what_was_signed(
                self.key()@,
                server_nonce@,
                signature@,
            );
        }
        Response::ok(&req.id, j)
    }

    /// Answers a handshake with a fresh server nonce. A client that has pinned
    /// this broker's key accepts the answer. Every failure has the one code of a
    /// malformed handshake.
    pub fn answer_hello(&self, req: &Request, cwd: &[u8]) -> (r: Response)
        ensures
            match hello_nonce(req@) {
                None => r@ == bad_hello(req@.id),
                Some(n) => r@.ok ==> handshake::strict_outcome(
                    Some(r@),
                    req@.id,
                    n,
                    self.socket(),
                    cwd@,
                    Ok(Some(broker_identity::public_key_of(self.key()@))),
                ) is Ok,
            },
            hello_nonce(req@) is Some && !r@.ok ==> exists|e: Fault|
                crypto::is_csprng_failure(e) && r@ == wire::err_response(
                    req@.id,
                    "E_PROTOCOL"@,
                    #[trigger] e.message(),
                ),
    {
        match broker_identity::key_at(&req.params, "client_nonce") {
            Some(_) => {},
            None => {
                return Response::err(
                    &req.id,
                    "E_PROTOCOL",
                    "broker.hello needs a 32-byte hex client_nonce",
                );
            },
        }
        match crypto::random_bytes::<32>() {
            Ok(server_nonce) => self.answer_hello_with(req, &server_nonce, cwd),
            Err(e) => {
                let why = e.message();
                assert(why@ == e@.message());
                Response::err(&req.id, "E_PROTOCOL", &why)
            },
        }
    }

    /// Decides what becomes of a request. The session's facts that the request
    /// has no use for may hold anything.
    pub fn handle_request(&self, req: &Request, facts: Facts) -> (r: Handled)
        ensures
            r@ == handled(req@, facts),
    {
        match &facts.derivation {
            Derivation::Failed(f) => {
                return fail(req, facts.vault_exists, f);
            },
            _ => {},
        }
        match &facts.idle {
            IdleLock::Failed(f) => {
                return fail(req, facts.vault_exists, f);
            },
            _ => {},
        }
        let (derived, valid) = match &facts.derivation {
            Derivation::Derived { valid } => (true, *valid),
            _ => (false, false),
        };
        let outcome = match gate::examine(req, facts.vault_exists) {
            Examined::Answer { denial, response } => {
                return Handled::Answer { denial, response };
            },
            Examined::Create => {
                return create(req);
            },
            Examined::Token(_) => Checked::Token(facts.agent),
            Examined::Proof => Checked::Proof(valid),
            Examined::Session(_) => Checked::Session(facts.session_actor),
            Examined::Anonymous => Checked::Anonymous,
        };
        match gate::decide_admission(req, outcome) {
            Admission::Refused { denial, response } => Handled::Answer { denial, response },
            Admission::Admitted { identity, actor } => {
                let ctx = Context { actor, identity, locked: facts.locked, proven: derived };
                let step = dispatch::begin(req, &ctx);
                Handled::Dispatch { ctx, step }
            },
        }
    }
}

// ---------------------------------------------------------------- lock
/// The parts of locking the vault, which every lock path shares.
#[derive(Clone, Copy, Debug, PartialEq, Eq, Structural)]
pub enum LockPart {
    /// Record the lock, if the log has room.
    Record,
    /// End every managed run.
    EndRuns,
    /// Revoke leases and approvals, persist and wipe the keys.
    Persist,
}

/// What follows a part of locking.
pub enum LockNext {
    Do(LockPart),
    /// Locking is over; the flag tells whether it succeeded.
    Over { locked: bool },
}

/// What follows a part: only persisting decides, so that a full audit log
/// never keeps the vault open.
pub open spec fn lock_after(done: Option<LockPart>, succeeded: bool) -> LockNext {
    match done {
        None => LockNext::Do(LockPart::Record),
        Some(LockPart::Record) => LockNext::Do(LockPart::EndRuns),
        Some(LockPart::EndRuns) => LockNext::Do(LockPart::Persist),
        Some(LockPart::Persist) => LockNext::Over { locked: succeeded },
    }
}

/// Gives the part of locking that follows `done`.
pub fn lock_and_drain(done: Option<LockPart>, succeeded: bool) -> (r: LockNext)
    ensures
        r == lock_after(done, succeeded),
{
    match done {
        None => LockNext::Do(LockPart::Record),
        Some(LockPart::Record) => LockNext::Do(LockPart::EndRuns),
        Some(LockPart::EndRuns) => LockNext::Do(LockPart::Persist),
        Some(LockPart::Persist) => LockNext::Over { locked: succeeded },
    }
}

/// Who an idle lock is recorded under.
pub fn idle_actor() -> (r: &'static str)
    ensures
        r@ == "human"@,
{
    "human"
}

/// What a lock is recorded as: the actor's own, and allowed. The entry may take
/// the room that is kept for the end of things.
pub fn lock_record<'a>(actor: &'a str) -> (r: (Record<'a>, Priority))
    ensures
        r.0.actor@ == actor@,
        r.0.op@ == Operation::VaultLock.wire_name(),
        r.0.project is None,
        r.0.keys@ == Seq::<String>::empty(),
        r.0.target is None,
        r.0.decision == Decision::Allowed,
        r.0.reason is None,
        r.1 == Priority::Lifecycle,
{
    let record = Record {
        actor,
        op: Operation::VaultLock.name(),
        project: None,
        keys: &[],
        target: None,
        decision: Decision::Allowed,
        reason: None,
    };
    (record, Priority::Lifecycle)
}

/// A run that is to be ended.
pub struct RunHandle {
    pub run_id: String,
    pub project: String,
    pub pgid: i32,
}

/// The process groups of some runs, where a run that was never started has
/// none.
pub open spec fn groups_of(runs: Seq<RunHandle>) -> Seq<i32>
    decreases runs.len(),
{
    if runs.len() == 0 {
        Seq::empty()
    } else {
        let rest = groups_of(runs.drop_last());
        if runs.last().pgid > 0 {
            rest.push(runs.last().pgid)
        } else {
            rest
        }
    }
}

/// The record of an ended run: who ended it, its project and its id.
pub struct Revocation {
    pub actor: String,
    pub project: String,
    pub run_id: String,
}

/// The mathematical value of a [`Revocation`].
pub struct RevocationV {
    pub actor: Seq<char>,
    pub project: Seq<char>,
    pub run_id: Seq<char>,
}

impl View for Revocation {
    type V = RevocationV;

    open spec fn view(&self) -> RevocationV {
        RevocationV { actor: self.actor@, project: self.project@, run_id: self.run_id@ }
    }
}

/// The records of some ended runs, one for each of them.
pub open spec fn revocations_of(actor: Seq<char>, runs: Seq<RunHandle>) -> Seq<RevocationV> {
    Seq::new(
        runs.len(),
        |i: int| RevocationV { actor, project: runs[i].project@, run_id: runs[i].run_id@ },
    )
}

/// How runs are ended: first every group is signalled, then every run is
/// recorded, as far as the log has room.
pub struct Ending {
    pub groups: Vec<i32>,
    pub revoked: Vec<Revocation>,
}

/// Gives the process groups to end and the runs to record, in order. A
/// reservation without a child has no group to signal, and is recorded like the
/// others.
pub fn terminate_matching_runs(actor: &str, runs: &Vec<RunHandle>) -> (r: Ending)
    ensures
        r.groups@ == groups_of(runs@),
        forall|i: int| 0 <= i < r.groups@.len() ==> #[trigger] r.groups@[i] > 0,
        r.revoked@.len() == runs@.len(),
        forall|i: int|
            0 <= i < runs@.len() ==> (#[trigger] r.revoked@[i])@ == revocations_of(
                actor@,
                runs@,
            )[i],
{
    let mut groups: Vec<i32> = Vec::new();
    let mut revoked: Vec<Revocation> = Vec::new();
    let mut i: usize = 0;
    while i < runs.len()
        invariant
            i <= runs@.len(),
            groups@ == groups_of(runs@.take(i as int)),
            forall|k: int| 0 <= k < groups@.len() ==> #[trigger] groups@[k] > 0,
            revoked@.len() == i,
            forall|k: int|
                0 <= k < i ==> (#[trigger] revoked@[k])@ == revocations_of(actor@, runs@)[k],
        decreases runs@.len() - i,
    {
        proof {
            assert(runs@.take(i + 1).drop_last() =~= runs@.take(i as int));
            assert(runs@.take(i + 1).last() == runs@[i as int]);
        }
        if runs[i].pgid > 0 {
            groups.push(runs[i].pgid);
        }
        revoked.push(
            Revocation {
                actor: actor.to_string(),
                project: runs[i].project.clone(),
                run_id: runs[i].run_id.clone(),
            },
        );
        i = i + 1;
    }
    proof {
        assert(runs@.take(i as int) =~= runs@);
    }
    Ending { groups, revoked }
}

// ------------------------------------------------------------ idle watchdog
/// The idle timer: when the vault must lock itself, if it is armed, and
/// whether the daemon is going away. Times count from an arbitrary start.
pub struct IdleWatchdog {
    deadline: Option<u64>,
    stopped: bool,
}

/// The mathematical value of an [`IdleWatchdog`].
pub struct WatchV {
    pub deadline: Option<u64>,
    pub stopped: bool,
}

impl View for IdleWatchdog {
    type V = WatchV;

    closed spec fn view(&self) -> WatchV {
        WatchV { deadline: self.deadline, stopped: self.stopped }
    }
}

/// What the timer thread does next.
#[derive(Clone, Copy, Debug, PartialEq, Eq, Structural)]
pub enum Wait {
    /// The daemon is gone.
    Exit,
    /// The window is over.
    Fire,
    /// Nothing is armed: sleep until woken.
    Park,
    /// Sleep for that long, or until woken.
    ParkFor(u64),
}

/// What the timer thread does at a time.
pub open spec fn waits(w: WatchV, now: u64) -> Wait {
    if w.stopped {
        Wait::Exit
    } else {
        match w.deadline {
            None => Wait::Park,
            Some(d) => if now >= d {
                Wait::Fire
            } else {
                Wait::ParkFor((d - now) as u64)
            },
        }
    }
}

impl IdleWatchdog {
    pub fn new() -> (r: IdleWatchdog)
        ensures
            r@ == (WatchV { deadline: None, stopped: false }),
    {
        IdleWatchdog { deadline: None, stopped: false }
    }

    /// Points the timer at a deadline; `None` disarms it. The thread is to be
    /// woken only when the deadline changes.
    pub fn arm(&mut self, deadline: Option<u64>) -> (wake: bool)
        ensures
            final(self)@ == (WatchV { deadline, ..old(self)@ }),
            wake == (old(self)@.deadline != deadline),
    {
        let same = match (self.deadline, deadline) {
            (None, None) => true,
            (Some(a), Some(b)) => a == b,
            _ => false,
        };
        self.deadline = deadline;
        !same
    }

    /// What the timer thread does now.
    pub fn wait_for_deadline(&self, now: u64) -> (r: Wait)
        ensures
            r == waits(self@, now),
    {
        if self.stopped {
            return Wait::Exit;
        }
        match self.deadline {
            None => Wait::Park,
            Some(d) => if now >= d {
                Wait::Fire
            } else {
                Wait::ParkFor(d - now)
            },
        }
    }

    /// Ends the timer thread.
    pub fn shutdown(&mut self)
        ensures
            final(self)@ == (WatchV { stopped: true, ..old(self)@ }),
    {
        self.stopped = true;
    }
}

// ------------------------------------------------------------- connection
/// What becomes of a message on a connection.
pub enum Intake {
    /// Answer and close; nothing is recorded.
    Refuse(Response),
    /// Answer and close; the refusal is recorded for an unknown agent.
    RefuseRecorded { denial: Denial, response: Response },
    /// Answer the handshake and read the next message.
    Hello,
    /// Run a child.
    Run,
    /// An ordinary request.
    Request,
}

/// The mathematical value of an [`Intake`].
pub enum IntakeV {
    Refuse(ResponseV),
    RefuseRecorded { denial: DenialV, response: ResponseV },
    Hello,
    Run,
    Request,
}

impl View for Intake {
    type V = IntakeV;

    open spec fn view(&self) -> IntakeV {
        match self {
            Intake::Refuse(r) => IntakeV::Refuse(r@),
            Intake::RefuseRecorded { denial, response } => IntakeV::RefuseRecorded {
                denial: denial@,
                response: response@,
            },
            Intake::Hello => IntakeV::Hello,
            Intake::Run => IntakeV::Run,
            Intake::Request => IntakeV::Request,
        }
    }
}

/// What becomes of a message: a handshake comes first, once and without
/// descriptors, and only a run takes descriptors.
pub open spec fn taken_in(req: RequestV, fds: nat, greeted: bool) -> IntakeV {
    if req.op == "broker.hello"@ {
        if greeted {
            IntakeV::Refuse(
                wire::err_response(
                    req.id,
                    "E_PROTOCOL"@,
                    "broker.hello is a handshake line, not an op"@,
                ),
            )
        } else if fds > 0 {
            IntakeV::Refuse(
                wire::err_response(
                    req.id,
                    "E_PROTOCOL"@,
                    "broker.hello carries no file descriptors"@,
                ),
            )
        } else {
            IntakeV::Hello
        }
    } else if req.op == "run_with_secrets"@ {
        IntakeV::Run
    } else if fds > 0 {
        IntakeV::RefuseRecorded {
            denial: DenialV {
                actor: "agent:unknown"@,
                op: "run_with_secrets"@,
                project: None,
                reason: "E_INVALID_INPUT"@,
            },
            response: wire::err_response(
                req.id,
                "E_INVALID_INPUT"@,
                "unexpected file descriptors"@,
            ),
        }
    } else {
        IntakeV::Request
    }
}

/// Decides what becomes of a message on a connection.
pub fn take_in(req: &Request, fds: usize, greeted: bool) -> (r: Intake)
    ensures
        r@ == taken_in(req@, fds as nat, greeted),
{
    if crate::text::same(&req.op, "broker.hello") {
        if greeted {
            return Intake::Refuse(
                Response::err(
                    &req.id,
                    "E_PROTOCOL",
                    "broker.hello is a handshake line, not an op",
                ),
            );
        }
        if fds > 0 {
            return Intake::Refuse(
                Response::err(
                    &req.id,
                    "E_PROTOCOL",
                    "broker.hello carries no file descriptors",
                ),
            );
        }
        return Intake::Hello;
    }
    if crate::text::same(&req.op, "run_with_secrets") {
        return Intake::Run;
    }
    if fds > 0 {
        return Intake::RefuseRecorded {
            denial: gate::denial("agent:unknown", "run_with_secrets", None, "E_INVALID_INPUT"),
            response: Response::err(&req.id, "E_INVALID_INPUT", "unexpected file descriptors"),
        };
    }
    Intake::Request
}

// -------------------------------------------------------------------- laws
/// A connection greets at most once, and nothing but a run keeps descriptors.
pub proof fn law_descriptors_are_for_runs(req: RequestV, fds: nat, greeted: bool)
    ensures
        fds > 0 ==> !(taken_in(req, fds, greeted) is Hello) && !(taken_in(req, fds, greeted)
            is Request),
        greeted ==> !(taken_in(req, fds, greeted) is Hello),
{
}

/// Where there is a vault, every request that is refused before its operation
/// is recorded, unless it names no operation.
pub proof fn law_refused_requests_are_recorded(req: RequestV, facts: Facts)
    requires
        facts.vault_exists,
        req.op.len() > 0,
    ensures
        handled(req, facts) matches HandledV::Answer { denial, .. } ==> denial is Some,
{
}

/// Without a vault nothing is possible but to create one.
pub proof fn law_no_vault_only_create(req: RequestV, facts: Facts)
    requires
        !facts.vault_exists,
        !(facts.derivation is Failed),
        !(facts.idle is Failed),
        ops::operation_named(req.op) != Some(Operation::VaultCreate),
    ensures
        handled(req, facts) == plain(gate::no_vault(req.id)),
{
}

/// A vault is never created over another one.
pub proof fn law_existing_vault_is_never_created_again(req: RequestV, facts: Facts)
    requires
        facts.vault_exists,
    ensures
        !(handled(req, facts) is Create),
        (handled(req, facts) matches HandledV::Dispatch { step, .. }
            && ops::operation_named(req.op) == Some(Operation::VaultCreate)) ==> (handled(
            req,
            facts,
        )->step == dispatch::refusal(req, "E_EXISTS"@, "vault already exists"@)),
{
}

/// A session credential never unlocks and never opens another session.
pub proof fn law_sessions_do_not_unlock(req: RequestV, facts: Facts)
    requires
        req.auth.session is Some,
        ops::operation_named(req.op) == Some(Operation::VaultUnlock) || ops::operation_named(req.op)
            == Some(Operation::SessionOpen),
    ensures
        handled(req, facts) matches HandledV::Dispatch { step, .. } ==> step == dispatch::answer(
            gate::session_expired(req.id),
        ),
{
}

/// Locking always reaches the end of the runs and the wiping of the keys,
/// whatever came of recording it.
pub proof fn law_locking_is_never_skipped(recorded: bool, ended: bool)
    ensures
        lock_after(None, true) == LockNext::Do(LockPart::Record),
        lock_after(Some(LockPart::Record), recorded) == LockNext::Do(LockPart::EndRuns),
        lock_after(Some(LockPart::EndRuns), ended) == LockNext::Do(LockPart::Persist),
{
}

/// The idle timer fires by itself once the deadline has come, and not before.
pub proof fn law_idle_timer_fires_on_time(w: WatchV, deadline: u64, now: u64)
    requires
        !w.stopped,
        w.deadline == Some(deadline),
    ensures
        waits(w, now) == Wait::Fire <==> now >= deadline,
        now < deadline ==> waits(w, now) == Wait::ParkFor((deadline - now) as u64),
{
}

/// What stands for a value stands for all of it: the same variant, with every part.
pub proof fn law_the_view_of_handled_is_faithful(x: Handled)
    ensures
        match (x, x@) {
            (
                Handled::Answer { denial, response },
                HandledV::Answer { denial: denial_v, response: response_v },
            ) => denial_v == (gate::opt_denial(denial))
                && response_v == response@,
            (
                Handled::Create { passphrase },
                HandledV::Create { passphrase: passphrase_v },
            ) => passphrase_v == passphrase@,
            (
                Handled::Dispatch { ctx, step },
                HandledV::Dispatch { ctx: ctx_v, step: step_v },
            ) => ctx_v == ctx@
                && step_v == step@,
            _ => false,
        },
{
}

/// What stands for a value stands for all of it, part by part.
pub proof fn law_the_view_of_revocation_is_faithful(x: Revocation)
    ensures
        x@.actor == x.actor@,
        x@.project == x.project@,
        x@.run_id == x.run_id@,
{
}

/// What stands for a value stands for all of it: the same variant, with every part.
pub proof fn law_the_view_of_intake_is_faithful(x: Intake)
    ensures
        match (x, x@) {
            (Intake::Refuse(r), IntakeV::Refuse(v0)) => v0 == r@,
            (
                Intake::RefuseRecorded { denial, response },
                IntakeV::RefuseRecorded { denial: denial_v, response: response_v },
            ) => denial_v == denial@
                && response_v == response@,
            (Intake::Hello, IntakeV::Hello) => true,
            (Intake::Run, IntakeV::Run) => true,
            (Intake::Request, IntakeV::Request) => true,
            _ => false,
        },
{
}

} // verus!
