//! A connection to the broker, from the socket to the first request.
//!
//! The order is the point. The server is checked, then a line that carries a
//! nonce and nothing else is sent, then the reply is held against the pin, and
//! where there is no pin a person is asked. Only after that does a request leave
//! the connection, and a connection that was refused sends nothing more.

use vstd::prelude::*;

use crate::broker_identity::handshake;
use crate::broker_identity::{self, PinDecision, PinV, NONCE_LEN};
use crate::cli::trust;
use crate::client::{self, Auth, BrokerError, BrokerErrorV, ConnectOptions, Leg};
use crate::error::{Fault, VaultError};
use crate::json::{self, Json, JsonV};
use crate::paths;
use crate::wire::{AuthV, Request, RequestV, Response, ResponseV};

verus! {

/// Where a connection stands: the action whose outcome it waits for.
#[derive(Clone, Copy, Debug, PartialEq, Eq, Structural)]
pub enum Stage {
    Connect,
    Check,
    Tune,
    Draw,
    Hello,
    Reply,
    Pin,
    Ask,
    Store,
    /// The broker is trusted, and requests may be sent.
    Trusted,
    Over,
}

/// How far a connection had come when it failed.
#[derive(Clone, Copy, Debug, PartialEq, Eq, Structural)]
pub enum Gate {
    Socket,
    Server,
    Handshake,
}

/// What came of an action, or what is wanted of a trusted connection.
pub enum Happened {
    Done,
    Failed(VaultError),
    /// The fresh id and nonce of a handshake.
    Drawn { id: String, nonce: [u8; NONCE_LEN] },
    Replied(Response),
    /// What reading the pin of the socket came to.
    Pin(Result<Option<[u8; 32]>, VaultError>),
    /// The line that a person typed; nothing where there is no terminal.
    Answered(Option<String>),
    /// A request is to be sent.
    Wanted { id: String, op: String, auth: Auth, params: Json },
}

/// The mathematical value of [`Happened`].
pub enum HappenedV {
    Done,
    Failed(Fault),
    Drawn { id: Seq<char>, nonce: Seq<u8> },
    Replied(ResponseV),
    Pin(Result<Option<Seq<u8>>, Fault>),
    Answered(Option<Seq<char>>),
    Wanted { id: Seq<char>, op: Seq<char>, auth: AuthV, params: JsonV },
}

pub open spec fn happened(e: Happened) -> HappenedV {
    match e {
        Happened::Done => HappenedV::Done,
        Happened::Failed(f) => HappenedV::Failed(f@),
        Happened::Drawn { id, nonce } => HappenedV::Drawn { id: id@, nonce: nonce@ },
        Happened::Replied(r) => HappenedV::Replied(r@),
        Happened::Pin(p) => HappenedV::Pin(broker_identity::pin_read(p)),
        Happened::Answered(a) => HappenedV::Answered(json::opt_text(a)),
        Happened::Wanted { id, op, auth, params } => HappenedV::Wanted {
            id: id@,
            op: op@,
            auth: client::auth_value(auth),
            params: params@,
        },
    }
}

/// What is to be done next.
pub enum ConnAct {
    /// Check that the peer holds the instance lock of its socket.
    CheckServer,
    /// Bound how long reads and writes may take.
    SetTimeouts,
    /// Draw the id and the nonce of a handshake.
    Draw,
    /// Send a line.
    Send(Request),
    /// Read the reply to the handshake.
    ReadReply,
    /// Read the pin of the socket.
    ReadPin,
    /// Ask the person at the terminal whether to pin a key.
    Ask([u8; 32]),
    /// Write these bytes as the pin of the socket.
    StorePin(Vec<u8>),
    /// The broker is trusted.
    Ready,
    Refuse(Gate, VaultError),
    /// Nothing: the connection is over.
    Stop,
}

/// The mathematical value of [`ConnAct`].
pub enum ConnActV {
    CheckServer,
    SetTimeouts,
    Draw,
    Send(RequestV),
    ReadReply,
    ReadPin,
    Ask(Seq<u8>),
    StorePin(Seq<u8>),
    Ready,
    Refuse(Gate, Fault),
    Stop,
}

pub open spec fn act_value(a: ConnAct) -> ConnActV {
    match a {
        ConnAct::CheckServer => ConnActV::CheckServer,
        ConnAct::SetTimeouts => ConnActV::SetTimeouts,
        ConnAct::Draw => ConnActV::Draw,
        ConnAct::Send(q) => ConnActV::Send(q@),
        ConnAct::ReadReply => ConnActV::ReadReply,
        ConnAct::ReadPin => ConnActV::ReadPin,
        ConnAct::Ask(k) => ConnActV::Ask(k@),
        ConnAct::StorePin(f) => ConnActV::StorePin(f@),
        ConnAct::Ready => ConnActV::Ready,
        ConnAct::Refuse(g, e) => ConnActV::Refuse(g, e@),
        ConnAct::Stop => ConnActV::Stop,
    }
}

/// A connection.
pub struct Connection {
    opts: ConnectOptions,
    v: u64,
    socket: Vec<u8>,
    cwd: Vec<u8>,
    hello: Option<(String, [u8; NONCE_LEN])>,
    reply: Option<Response>,
    key: Option<[u8; 32]>,
    stage: Stage,
}

/// The mathematical value of a [`Connection`].
pub struct ConnectionV {
    pub opts: ConnectOptions,
    pub v: u64,
    pub socket: Seq<u8>,
    pub cwd: Seq<u8>,
    /// The id and the nonce of the handshake.
    pub hello: Option<(Seq<char>, Seq<u8>)>,
    pub reply: Option<ResponseV>,
    /// The key that a person is asked to confirm.
    pub key: Option<Seq<u8>>,
    pub stage: Stage,
}

impl View for Connection {
    type V = ConnectionV;

    closed spec fn view(&self) -> ConnectionV {
        ConnectionV {
            opts: self.opts,
            v: self.v,
            socket: self.socket@,
            cwd: self.cwd@,
            hello: match self.hello {
                Some((id, nonce)) => Some((id@, nonce@)),
                None => None,
            },
            reply: match self.reply {
                Some(r) => Some(r@),
                None => None,
            },
            key: broker_identity::opt_key(self.key),
            stage: self.stage,
        }
    }
}

/// A connection before its socket is connected.
pub open spec fn opening(
    opts: ConnectOptions,
    v: u64,
    socket: Seq<u8>,
    cwd: Seq<u8>,
) -> ConnectionV {
    ConnectionV {
        opts,
        v,
        socket,
        cwd,
        hello: None,
        reply: None,
        key: None,
        stage: Stage::Connect,
    }
}

/// What holds of every connection.
pub open spec fn connection_wf(v: ConnectionV) -> bool {
    &&& v.stage == Stage::Hello || v.stage == Stage::Reply || v.stage == Stage::Pin
        ==> v.hello is Some
    &&& v.stage == Stage::Pin ==> v.reply is Some
    &&& v.stage == Stage::Ask ==> v.key is Some
}

/// Whether the broker at the other end is trusted.
pub open spec fn trusted(v: ConnectionV) -> bool {
    v.stage == Stage::Trusted
}

pub open spec fn at(v: ConnectionV, stage: Stage) -> ConnectionV {
    ConnectionV { stage, ..v }
}

pub open spec fn refused(v: ConnectionV, gate: Gate, f: Fault) -> (ConnectionV, ConnActV) {
    (at(v, Stage::Over), ConnActV::Refuse(gate, f))
}

/// What a failure of the handshake's input and output is refused with: without a
/// person every failure is one of the broker's identity.
pub open spec fn handshake_failure(opts: ConnectOptions, f: Fault) -> Fault {
    if client::leg(opts) == Ok::<Leg, Fault>(Leg::Strict) {
        handshake::as_untrusted(f)
    } else {
        f
    }
}

/// What follows the reply to a handshake and the pin of the socket.
pub open spec fn judged(v: ConnectionV, pin: Result<Option<Seq<u8>>, Fault>) -> (
    ConnectionV,
    ConnActV,
) {
    let (id, nonce) = v.hello->0;
    let heard = ConnectionV { reply: None, ..v };
    if client::leg(v.opts) == Ok::<Leg, Fault>(Leg::Strict) {
        match handshake::strict_outcome(v.reply, id, nonce, v.socket, v.cwd, pin) {
            Ok(_) => (at(heard, Stage::Trusted), ConnActV::Ready),
            Err(f) => refused(heard, Gate::Handshake, f),
        }
    } else {
        match handshake::interactive_outcome(
            v.reply->0,
            id,
            nonce,
            v.socket,
            v.cwd,
            pin,
            broker_identity::opt_key(v.opts.trust_fingerprint),
        ) {
            Ok(PinV::Proceed(_)) => (at(heard, Stage::Trusted), ConnActV::Ready),
            Ok(PinV::NeedHumanConfirm(k)) => (
                ConnectionV { key: Some(k), stage: Stage::Ask, ..heard },
                ConnActV::Ask(k),
            ),
            Err(f) => refused(heard, Gate::Handshake, f),
        }
    }
}

/// What follows what happened. What no action waits for ends the connection.
pub open spec fn stepped(v: ConnectionV, e: HappenedV) -> (ConnectionV, ConnActV) {
    match (v.stage, e) {
        (Stage::Connect, HappenedV::Done) => (at(v, Stage::Check), ConnActV::CheckServer),
        (Stage::Connect, HappenedV::Failed(f)) => refused(v, Gate::Socket, f),
        (Stage::Check, HappenedV::Done) => (at(v, Stage::Tune), ConnActV::SetTimeouts),
        (Stage::Check, HappenedV::Failed(f)) => refused(v, Gate::Server, f),
        (Stage::Tune, HappenedV::Done) => match client::leg(v.opts) {
            Ok(_) => (at(v, Stage::Draw), ConnActV::Draw),
            Err(f) => refused(v, Gate::Handshake, f),
        },
        (Stage::Tune, HappenedV::Failed(f)) => refused(v, Gate::Socket, f),
        (Stage::Draw, HappenedV::Drawn { id, nonce }) => (
            ConnectionV { hello: Some((id, nonce)), stage: Stage::Hello, ..v },
            ConnActV::Send(handshake::hello_line(v.v, id, nonce)),
        ),
        (Stage::Draw | Stage::Hello, HappenedV::Failed(f)) => refused(
            v,
            Gate::Handshake,
            handshake_failure(v.opts, f),
        ),
        (Stage::Hello, HappenedV::Done) => (at(v, Stage::Reply), ConnActV::ReadReply),
        (Stage::Reply, HappenedV::Replied(r)) => (
            ConnectionV { reply: Some(r), stage: Stage::Pin, ..v },
            ConnActV::ReadPin,
        ),
        (Stage::Reply, HappenedV::Failed(f)) => refused(
            v,
            Gate::Handshake,
            if client::leg(v.opts) == Ok::<Leg, Fault>(Leg::Strict) {
                Fault::BrokerUntrusted("broker handshake failed"@)
            } else {
                f
            },
        ),
        (Stage::Pin, HappenedV::Pin(pin)) => judged(v, pin),
        (Stage::Ask, HappenedV::Answered(line)) => match trust::confirm_fault(
            v.key->0,
            broker_identity::opt_key(v.opts.trust_fingerprint),
            line,
        ) {
            None => (
                at(v, Stage::Store),
                ConnActV::StorePin(
                    broker_identity::pin_bytes(paths::canonical(v.socket, v.cwd), v.key->0),
                ),
            ),
            Some(f) => refused(v, Gate::Handshake, f),
        },
        (Stage::Store, HappenedV::Done) => (at(v, Stage::Trusted), ConnActV::Ready),
        (Stage::Ask | Stage::Store, HappenedV::Failed(f)) => refused(v, Gate::Handshake, f),
        (Stage::Trusted, HappenedV::Wanted { id, op, auth, params }) => (
            v,
            ConnActV::Send(RequestV { v: v.v, id, op, auth, params }),
        ),
        _ => (at(v, Stage::Over), ConnActV::Stop),
    }
}

impl Connection {
    /// Opens a connection, whose first action is to connect the socket.
    pub fn new(opts: ConnectOptions, v: u64, socket: &[u8], cwd: &[u8]) -> (r: Connection)
        ensures
            r@ == opening(opts, v, socket@, cwd@),
            connection_wf(r@),
    {
        Connection {
            opts,
            v,
            socket: vstd::slice::slice_to_vec(socket),
            cwd: vstd::slice::slice_to_vec(cwd),
            hello: None,
            reply: None,
            key: None,
            stage: Stage::Connect,
        }
    }

    /// Whether the broker at the other end is trusted.
    pub fn is_trusted(&self) -> (r: bool)
        ensures
            r == trusted(self@),
    {
        self.stage == Stage::Trusted
    }

    fn strict(&self) -> (r: bool)
        ensures
            r == (client::leg(self@.opts) == Ok::<Leg, Fault>(Leg::Strict)),
    {
        match client::handshake(&self.opts) {
            Ok(Leg::Strict) => true,
            _ => false,
        }
    }

    fn refuse(&mut self, gate: Gate, e: VaultError) -> (r: ConnAct)
        ensures
            (final(self)@, act_value(r)) == refused(old(self)@, gate, e@),
    {
        self.stage = Stage::Over;
        ConnAct::Refuse(gate, e)
    }

    fn go(&mut self, stage: Stage, act: ConnAct) -> (r: ConnAct)
        ensures
            final(self)@ == at(old(self)@, stage),
            r == act,
    {
        self.stage = stage;
        act
    }

    /// Holds the reply against the pin.
    fn judge(&mut self, pin: Result<Option<[u8; 32]>, VaultError>) -> (r: ConnAct)
        requires
            connection_wf(old(self)@),
            old(self)@.stage == Stage::Pin,
        ensures
            (final(self)@, act_value(r)) == judged(old(self)@, broker_identity::pin_read(pin)),
            connection_wf(final(self)@),
    {
        let strict = self.strict();
        let reply = self.reply.take();
        let decided = match (&self.hello, reply) {
            (Some((id, nonce)), Some(reply)) => if strict {
                match handshake::handshake_strict(
                    Some(reply),
                    id,
                    nonce,
                    self.socket.as_slice(),
                    self.cwd.as_slice(),
                    pin,
                ) {
                    Ok(_) => Ok(None),
                    Err(e) => Err(e),
                }
            } else {
                match handshake::handshake_interactive(
                    reply,
                    id,
                    nonce,
                    self.socket.as_slice(),
                    self.cwd.as_slice(),
                    pin,
                    self.opts.trust_fingerprint.as_ref(),
                ) {
                    Ok(PinDecision::Proceed(_)) => Ok(None),
                    Ok(PinDecision::NeedHumanConfirm(key)) => Ok(Some(key)),
                    Err(e) => Err(e),
                }
            },
            _ => {
                proof {
                    assert(false);
                }
                Ok(None)
            },
        };
        match decided {
            Ok(None) => self.go(Stage::Trusted, ConnAct::Ready),
            Ok(Some(key)) => {
                self.key = Some(key);
                self.go(Stage::Ask, ConnAct::Ask(key))
            },
            Err(e) => self.refuse(Gate::Handshake, e),
        }
    }

    /// Takes the answer of a person.
    fn confirm(&mut self, line: Option<String>) -> (r: ConnAct)
        requires
            connection_wf(old(self)@),
            old(self)@.stage == Stage::Ask,
        ensures
            (final(self)@, act_value(r)) == stepped(
                old(self)@,
                HappenedV::Answered(json::opt_text(line)),
            ),
            connection_wf(final(self)@),
    {
        let key = match self.key {
            Some(k) => k,
            None => {
                proof {
                    assert(false);
                }
                return ConnAct::Stop;
            },
        };
        let answer: Option<&str> = match &line {
            Some(l) => Some(l.as_str()),
            None => None,
        };
        match trust::confirm_broker_pin(&key, self.opts.trust_fingerprint.as_ref(), answer) {
            Ok(_) => {
                let file = broker_identity::pin_document(
                    self.socket.as_slice(),
                    self.cwd.as_slice(),
                    &key,
                );
                self.go(Stage::Store, ConnAct::StorePin(file))
            },
            Err(e) => self.refuse(Gate::Handshake, e),
        }
    }

    /// Takes what happened and gives the next action.
    pub fn step(&mut self, event: Happened) -> (r: ConnAct)
        requires
            connection_wf(old(self)@),
        ensures
            (final(self)@, act_value(r)) == stepped(old(self)@, happened(event)),
            connection_wf(final(self)@),
    {
        match (self.stage, event) {
            (Stage::Connect, Happened::Done) => self.go(Stage::Check, ConnAct::CheckServer),
            (Stage::Connect, Happened::Failed(e)) => self.refuse(Gate::Socket, e),
            (Stage::Check, Happened::Done) => self.go(Stage::Tune, ConnAct::SetTimeouts),
            (Stage::Check, Happened::Failed(e)) => self.refuse(Gate::Server, e),
            (Stage::Tune, Happened::Done) => match client::handshake(&self.opts) {
                Ok(_) => self.go(Stage::Draw, ConnAct::Draw),
                Err(e) => self.refuse(Gate::Handshake, e),
            },
            (Stage::Tune, Happened::Failed(e)) => self.refuse(Gate::Socket, e),
            (Stage::Draw, Happened::Drawn { id, nonce }) => {
                let line = handshake::hello_request(self.v, &id, &nonce);
                self.hello = Some((id, nonce));
                self.go(Stage::Hello, ConnAct::Send(line))
            },
            (Stage::Draw | Stage::Hello, Happened::Failed(e)) => {
                let why = if self.strict() {
                    handshake::distrust(e)
                } else {
                    e
                };
                self.refuse(Gate::Handshake, why)
            },
            (Stage::Hello, Happened::Done) => self.go(Stage::Reply, ConnAct::ReadReply),
            (Stage::Reply, Happened::Replied(reply)) => {
                self.reply = Some(reply);
                self.go(Stage::Pin, ConnAct::ReadPin)
            },
            (Stage::Reply, Happened::Failed(e)) => {
                let why = if self.strict() {
                    broker_identity::untrusted("broker handshake failed")
                } else {
                    e
                };
                self.refuse(Gate::Handshake, why)
            },
            (Stage::Pin, Happened::Pin(pin)) => self.judge(pin),
            (Stage::Ask, Happened::Answered(line)) => self.confirm(line),
            (Stage::Store, Happened::Done) => self.go(Stage::Trusted, ConnAct::Ready),
            (Stage::Ask | Stage::Store, Happened::Failed(e)) => self.refuse(Gate::Handshake, e),
            (Stage::Trusted, Happened::Wanted { id, op, auth, params }) => ConnAct::Send(
                client::request(self.v, &id, &op, &auth, params),
            ),
            _ => self.go(Stage::Over, ConnAct::Stop),
        }
    }

    /// Builds a request to send, which only a trusted connection does.
    pub fn request(&self, id: &str, op: &str, auth: &Auth, params: Json) -> (r: Option<Request>)
        ensures
            match r {
                Some(q) => trusted(self@) && q@ == (RequestV {
                    v: self@.v,
                    id: id@,
                    op: op@,
                    auth: client::auth_value(*auth),
                    params: params@,
                }) && stepped(
                    self@,
                    (HappenedV::Wanted {
                        id: id@,
                        op: op@,
                        auth: client::auth_value(*auth),
                        params: params@,
                    }),
                ) == (self@, ConnActV::Send(q@)),
                None => !trusted(self@),
            },
    {
        if self.is_trusted() {
            Some(client::request(self.v, id, op, auth, params))
        } else {
            None
        }
    }
}

// ------------------------------------------------------------------- refusals
/// What a refused connection is reported as.
pub open spec fn connect_fault(gate: Gate, f: Fault) -> Fault {
    match gate {
        Gate::Server => client::unverified(),
        Gate::Socket | Gate::Handshake => f,
    }
}

/// Gives what a refused connection is reported as.
pub fn connect_error(gate: Gate, e: VaultError) -> (r: VaultError)
    ensures
        r@ == connect_fault(gate, e@),
{
    match gate {
        Gate::Server => client::unverified_server(),
        Gate::Socket | Gate::Handshake => e,
    }
}

/// What a call is reported as whose connection was refused.
pub open spec fn call_failure(gate: Gate, f: Fault) -> BrokerErrorV {
    match gate {
        Gate::Socket => client::preparation_failure(f),
        Gate::Server => client::server_failure(f),
        Gate::Handshake => client::handshake_failure(f),
    }
}

/// Gives what a call is reported as whose connection was refused.
pub fn call_error(gate: Gate, e: VaultError) -> (r: BrokerError)
    ensures
        r@ == call_failure(gate, e@),
{
    match gate {
        Gate::Socket => client::preparation_error(e),
        Gate::Server => client::server_error(&e),
        Gate::Handshake => client::handshake_error(&e),
    }
}

/// What stands for a value stands for all of it: the same variant, with every part.
pub proof fn law_happened_is_faithful(e: Happened)
    ensures
        match (e, happened(e)) {
            (Happened::Done, HappenedV::Done) => true,
            (Happened::Failed(f), HappenedV::Failed(v0)) => v0 == f@,
            (
                Happened::Drawn { id, nonce },
                HappenedV::Drawn { id: id_v, nonce: nonce_v },
            ) => id_v == id@
                && nonce_v == nonce@,
            (Happened::Replied(r), HappenedV::Replied(v0)) => v0 == r@,
            (Happened::Pin(p), HappenedV::Pin(v0)) => v0 == (broker_identity::pin_read(p)),
            (Happened::Answered(a), HappenedV::Answered(v0)) => v0 == (json::opt_text(a)),
            (
                Happened::Wanted { id, op, auth, params },
                HappenedV::Wanted { id: id_v, op: op_v, auth: auth_v, params: params_v },
            ) => id_v == id@
                && op_v == op@
                && auth_v == (client::auth_value(auth))
                && params_v == params@,
            _ => false,
        },
{
}

/// What stands for a value stands for all of it: the same variant, with every part.
pub proof fn law_act_value_is_faithful(a: ConnAct)
    ensures
        match (a, act_value(a)) {
            (ConnAct::CheckServer, ConnActV::CheckServer) => true,
            (ConnAct::SetTimeouts, ConnActV::SetTimeouts) => true,
            (ConnAct::Draw, ConnActV::Draw) => true,
            (ConnAct::Send(q), ConnActV::Send(v0)) => v0 == q@,
            (ConnAct::ReadReply, ConnActV::ReadReply) => true,
            (ConnAct::ReadPin, ConnActV::ReadPin) => true,
            (ConnAct::Ask(k), ConnActV::Ask(v0)) => v0 == k@,
            (ConnAct::StorePin(f), ConnActV::StorePin(v0)) => v0 == f@,
            (ConnAct::Ready, ConnActV::Ready) => true,
            (ConnAct::Refuse(g, e), ConnActV::Refuse(v0, v1)) => v0 == g && v1 == e@,
            (ConnAct::Stop, ConnActV::Stop) => true,
            _ => false,
        },
{
}

} // verus!
