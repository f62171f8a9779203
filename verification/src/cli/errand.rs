//! One command, from the connection to the request: what is read for it, and
//! when.
//!
//! The broker is trusted first. The token, the secret value, the passphrase and
//! the lease are read after that, each only where the command has a use for it.

use vstd::prelude::*;

use crate::broker::ops::Operation;
use crate::cli::{self, Cmd, CmdV, Inputs, InputsV, Prompt};
use crate::client::connection::{
    self, ConnAct, ConnActV, Connection, ConnectionV, Happened, HappenedV,
};
use crate::client::laws;
use crate::client::{self, Auth};
use crate::crypto::SecretText;
use crate::error::{Fault, VaultError};
use crate::json::{self, Json, JsonV};
use crate::wire::AuthV;

verus! {

/// Where an errand stands: what it waits for.
#[derive(Clone, Copy, Debug, PartialEq, Eq, Structural)]
pub enum Stage {
    /// The outcome of the connection's last action.
    Connect,
    Token,
    Value,
    Passphrase,
    Lease,
    /// The id of the request.
    Id,
    Over,
}

/// What came of an action.
pub enum Event {
    /// What happened on the connection.
    Conn(Happened),
    Failed(VaultError),
    Token(Option<String>),
    Value(SecretText),
    Passphrase(SecretText),
    Lease(Option<SecretText>),
    Id(String),
}

/// The mathematical value of an [`Event`].
pub enum EventV {
    Conn(HappenedV),
    Failed(Fault),
    Token(Option<Seq<char>>),
    Value(Seq<char>),
    Passphrase(Seq<char>),
    Lease(Option<Seq<char>>),
    Id(Seq<char>),
}

/// The characters of an optional secret.
pub open spec fn secret(s: Option<SecretText>) -> Option<Seq<char>> {
    match s {
        Some(t) => Some(t@),
        None => None,
    }
}

pub open spec fn event_value(e: Event) -> EventV {
    match e {
        Event::Conn(h) => EventV::Conn(connection::happened(h)),
        Event::Failed(f) => EventV::Failed(f@),
        Event::Token(t) => EventV::Token(json::opt_text(t)),
        Event::Value(s) => EventV::Value(s@),
        Event::Passphrase(s) => EventV::Passphrase(s@),
        Event::Lease(s) => EventV::Lease(secret(s)),
        Event::Id(id) => EventV::Id(id@),
    }
}

/// What is to be done next.
pub enum Act {
    /// Do what the connection asks for.
    Conn(ConnAct),
    /// Read the agent token from where one is configured.
    ReadToken,
    ReadValue,
    /// Read the passphrase; twice where a new one is chosen.
    ReadPassphrase { twice: bool },
    ReadLease,
    /// Draw the id of the request.
    DrawId,
    /// Make the request on a connection of its own, which keeps the code of a
    /// refusal.
    CallAfresh { op: Operation, auth: Auth, params: Json },
    Refuse(VaultError),
    /// Nothing: the errand is over.
    Stop,
}

/// The mathematical value of an [`Act`].
pub enum ActV {
    Conn(ConnActV),
    ReadToken,
    ReadValue,
    ReadPassphrase { twice: bool },
    ReadLease,
    DrawId,
    CallAfresh { op: Operation, auth: AuthV, params: JsonV },
    Refuse(Fault),
    Stop,
}

pub open spec fn act_value(a: Act) -> ActV {
    match a {
        Act::Conn(c) => ActV::Conn(connection::act_value(c)),
        Act::ReadToken => ActV::ReadToken,
        Act::ReadValue => ActV::ReadValue,
        Act::ReadPassphrase { twice } => ActV::ReadPassphrase { twice },
        Act::ReadLease => ActV::ReadLease,
        Act::DrawId => ActV::DrawId,
        Act::CallAfresh { op, auth, params } => ActV::CallAfresh {
            op,
            auth: client::auth_value(auth),
            params: params@,
        },
        Act::Refuse(e) => ActV::Refuse(e@),
        Act::Stop => ActV::Stop,
    }
}

/// An errand: a command on its way to the broker.
pub struct Errand {
    conn: Connection,
    command: Cmd,
    token: Option<String>,
    value: Option<SecretText>,
    passphrase: Option<SecretText>,
    lease: Option<SecretText>,
    stage: Stage,
}

/// The mathematical value of an [`Errand`].
pub struct ErrandV {
    pub conn: ConnectionV,
    pub command: CmdV,
    pub token: Option<Seq<char>>,
    pub value: Option<Seq<char>>,
    pub passphrase: Option<Seq<char>>,
    pub lease: Option<Seq<char>>,
    pub stage: Stage,
}

impl View for Errand {
    type V = ErrandV;

    closed spec fn view(&self) -> ErrandV {
        ErrandV {
            conn: self.conn@,
            command: cli::command_value(self.command),
            token: json::opt_text(self.token),
            value: secret(self.value),
            passphrase: secret(self.passphrase),
            lease: secret(self.lease),
            stage: self.stage,
        }
    }
}

/// An errand before its connection is connected.
pub open spec fn starting(conn: ConnectionV, command: CmdV) -> ErrandV {
    ErrandV {
        conn,
        command,
        token: None,
        value: None,
        passphrase: None,
        lease: None,
        stage: Stage::Connect,
    }
}

pub open spec fn at(v: ErrandV, stage: Stage) -> ErrandV {
    ErrandV { stage, ..v }
}

pub open spec fn refused(v: ErrandV, f: Fault) -> (ErrandV, ActV) {
    (at(v, Stage::Over), ActV::Refuse(f))
}

pub open spec fn none_empty(t: Option<Seq<char>>) -> Seq<char> {
    match t {
        Some(s) => s,
        None => Seq::empty(),
    }
}

/// What was read for the command.
pub open spec fn inputs_of(v: ErrandV) -> InputsV {
    InputsV {
        passphrase: none_empty(v.passphrase),
        value: none_empty(v.value),
        lease: none_empty(v.lease),
    }
}

/// The credential that the command presents with what was read.
pub open spec fn auth_of(v: ErrandV) -> Result<AuthV, Fault> {
    cli::presented_auth(cli::need_of(v.command), v.token, v.passphrase)
}

/// What follows the lease: the request.
pub open spec fn past_lease(v: ErrandV) -> (ErrandV, ActV) {
    match auth_of(v) {
        Err(f) => refused(v, f),
        Ok(auth) => if cli::keeps_codes(v.command) {
            (
                at(v, Stage::Over),
                ActV::CallAfresh {
                    op: cli::operation_of(v.command),
                    auth,
                    params: cli::params_of(v.command, inputs_of(v)),
                },
            )
        } else {
            (at(v, Stage::Id), ActV::DrawId)
        },
    }
}

/// What follows the passphrase.
pub open spec fn past_passphrase(v: ErrandV) -> (ErrandV, ActV) {
    match auth_of(v) {
        Err(f) => refused(v, f),
        Ok(_) => if cli::lease_wanted(v.command) {
            (at(v, Stage::Lease), ActV::ReadLease)
        } else {
            past_lease(v)
        },
    }
}

/// What follows the value.
pub open spec fn past_value(v: ErrandV) -> (ErrandV, ActV) {
    match cli::prompt_of(cli::need_of(v.command), v.token is Some) {
        Prompt::Never => past_passphrase(v),
        Prompt::Once => (at(v, Stage::Passphrase), ActV::ReadPassphrase { twice: false }),
        Prompt::Confirmed => (at(v, Stage::Passphrase), ActV::ReadPassphrase { twice: true }),
    }
}

/// What follows the token.
pub open spec fn past_token(v: ErrandV) -> (ErrandV, ActV) {
    if cli::value_wanted(v.command) {
        (at(v, Stage::Value), ActV::ReadValue)
    } else {
        past_value(v)
    }
}

/// The request that is wanted of the connection.
pub open spec fn wanted(v: ErrandV, id: Seq<char>, auth: AuthV) -> HappenedV {
    HappenedV::Wanted {
        id,
        op: cli::operation_of(v.command).wire_name(),
        auth,
        params: cli::params_of(v.command, inputs_of(v)),
    }
}

/// What follows what came of an action. What no action waits for ends the errand.
pub open spec fn stepped(v: ErrandV, e: EventV) -> (ErrandV, ActV) {
    match (v.stage, e) {
        (Stage::Connect, EventV::Conn(h)) => {
            let (conn, act) = connection::stepped(v.conn, h);
            let told = ErrandV { conn, ..v };
            match act {
                ConnActV::Ready => (at(told, Stage::Token), ActV::ReadToken),
                ConnActV::Refuse(g, f) => refused(told, connection::connect_fault(g, f)),
                ConnActV::Stop => (at(told, Stage::Over), ActV::Stop),
                other => (told, ActV::Conn(other)),
            }
        },
        (Stage::Token, EventV::Token(token)) => past_token(ErrandV { token, ..v }),
        (Stage::Value, EventV::Value(s)) => past_value(ErrandV { value: Some(s), ..v }),
        (Stage::Passphrase, EventV::Passphrase(s)) => past_passphrase(
            ErrandV { passphrase: Some(s), ..v },
        ),
        (Stage::Lease, EventV::Lease(lease)) => past_lease(ErrandV { lease, ..v }),
        (Stage::Id, EventV::Id(id)) => match auth_of(v) {
            Err(f) => refused(v, f),
            Ok(auth) => {
                let (conn, act) = connection::stepped(v.conn, wanted(v, id, auth));
                (ErrandV { conn, stage: Stage::Over, ..v }, ActV::Conn(act))
            },
        },
        (
            Stage::Token | Stage::Value | Stage::Passphrase | Stage::Lease | Stage::Id,
            EventV::Failed(f),
        ) => refused(v, f),
        _ => (at(v, Stage::Over), ActV::Stop),
    }
}

fn lent(s: &Option<SecretText>) -> (r: Option<&str>)
    ensures
        json::opt_str(r) == secret(*s),
        cli::or_empty(r) == none_empty(secret(*s)),
{
    match s {
        Some(t) => Some(t.as_str()),
        None => None,
    }
}

impl Errand {
    /// Sets out with a command, on a connection whose first action is to connect
    /// the socket.
    pub fn new(conn: Connection, command: Cmd) -> (r: Errand)
        ensures
            r@ == starting(conn@, cli::command_value(command)),
    {
        Errand {
            conn,
            command,
            token: None,
            value: None,
            passphrase: None,
            lease: None,
            stage: Stage::Connect,
        }
    }

    fn refuse(&mut self, e: VaultError) -> (r: Act)
        ensures
            (final(self)@, act_value(r)) == refused(old(self)@, e@),
    {
        self.stage = Stage::Over;
        Act::Refuse(e)
    }

    fn go(&mut self, stage: Stage, act: Act) -> (r: Act)
        ensures
            final(self)@ == at(old(self)@, stage),
            r == act,
    {
        self.stage = stage;
        act
    }

    fn auth(&self) -> (r: Result<Auth, VaultError>)
        ensures
            match r {
                Ok(a) => auth_of(self@) == Ok::<AuthV, Fault>(client::auth_value(a)),
                Err(e) => auth_of(self@) == Err::<AuthV, Fault>(e@),
            },
    {
        let token: Option<&str> = match &self.token {
            Some(t) => Some(t.as_str()),
            None => None,
        };
        cli::credential(cli::need(&self.command), token, lent(&self.passphrase))
    }

    fn params(&self) -> (r: Json)
        ensures
            r@ == cli::params_of(self@.command, inputs_of(self@)),
    {
        let inputs = Inputs {
            passphrase: lent(&self.passphrase),
            value: lent(&self.value),
            lease: lent(&self.lease),
        };
        cli::params(&self.command, &inputs)
    }

    fn leased(&mut self) -> (r: Act)
        ensures
            (final(self)@, act_value(r)) == past_lease(old(self)@),
    {
        match self.auth() {
            Err(e) => self.refuse(e),
            Ok(auth) => {
                if cli::code_preserving(&self.command) {
                    let op = cli::operation(&self.command);
                    let params = self.params();
                    self.go(Stage::Over, Act::CallAfresh { op, auth, params })
                } else {
                    self.go(Stage::Id, Act::DrawId)
                }
            },
        }
    }

    fn proved(&mut self) -> (r: Act)
        ensures
            (final(self)@, act_value(r)) == past_passphrase(old(self)@),
    {
        match self.auth() {
            Err(e) => self.refuse(e),
            Ok(_) => if cli::wants_lease(&self.command) {
                self.go(Stage::Lease, Act::ReadLease)
            } else {
                self.leased()
            },
        }
    }

    fn valued(&mut self) -> (r: Act)
        ensures
            (final(self)@, act_value(r)) == past_value(old(self)@),
    {
        match cli::prompt(cli::need(&self.command), self.token.is_some()) {
            Prompt::Never => self.proved(),
            Prompt::Once => self.go(Stage::Passphrase, Act::ReadPassphrase { twice: false }),
            Prompt::Confirmed => self.go(Stage::Passphrase, Act::ReadPassphrase { twice: true }),
        }
    }

    /// Takes what came of the last action and gives the next one.
    pub fn step(&mut self, event: Event) -> (r: Act)
        requires
            connection::connection_wf(old(self)@.conn),
        ensures
            (final(self)@, act_value(r)) == stepped(old(self)@, event_value(event)),
            connection::connection_wf(final(self)@.conn),
    {
        match (self.stage, event) {
            (Stage::Connect, Event::Conn(h)) => match self.conn.step(h) {
                ConnAct::Ready => self.go(Stage::Token, Act::ReadToken),
                ConnAct::Refuse(g, e) => self.refuse(connection::connect_error(g, e)),
                ConnAct::Stop => self.go(Stage::Over, Act::Stop),
                other => Act::Conn(other),
            },
            (Stage::Token, Event::Token(token)) => {
                self.token = token;
                if cli::wants_value(&self.command) {
                    self.go(Stage::Value, Act::ReadValue)
                } else {
                    self.valued()
                }
            },
            (Stage::Value, Event::Value(s)) => {
                self.value = Some(s);
                self.valued()
            },
            (Stage::Passphrase, Event::Passphrase(s)) => {
                self.passphrase = Some(s);
                self.proved()
            },
            (Stage::Lease, Event::Lease(s)) => {
                self.lease = s;
                self.leased()
            },
            (Stage::Id, Event::Id(id)) => match self.auth() {
                Err(e) => self.refuse(e),
                Ok(auth) => {
                    let op = cli::operation(&self.command).name().to_string();
                    let params = self.params();
                    let act = self.conn.step(Happened::Wanted { id, op, auth, params });
                    self.go(Stage::Over, Act::Conn(act))
                },
            },
            (
                Stage::Token | Stage::Value | Stage::Passphrase | Stage::Lease | Stage::Id,
                Event::Failed(e),
            ) => self.refuse(e),
            _ => self.go(Stage::Over, Act::Stop),
        }
    }

    /// The command of the errand.
    pub fn command(&self) -> (r: &Cmd)
        ensures
            cli::command_value(*r) == self@.command,
    {
        &self.command
    }
}

// ----------------------------------------------------------------------- laws
/// Where an errand stands after what happened.
pub open spec fn after(start: ErrandV, events: Seq<EventV>) -> ErrandV
    decreases events.len(),
{
    if events.len() == 0 {
        start
    } else {
        stepped(after(start, events.drop_last()), events.last()).0
    }
}

/// The actions of an errand: at each position what followed the event there.
pub open spec fn acts(start: ErrandV, events: Seq<EventV>) -> Seq<ActV> {
    Seq::new(events.len(), |i: int| stepped(after(start, events.take(i)), events[i]).1)
}

/// What happened on the connection.
pub open spec fn told(events: Seq<EventV>) -> Seq<HappenedV>
    decreases events.len(),
{
    if events.len() == 0 {
        Seq::empty()
    } else {
        match events.last() {
            EventV::Conn(h) => told(events.drop_last()).push(h),
            _ => told(events.drop_last()),
        }
    }
}

/// Whether an action reads a credential or a secret value.
pub open spec fn reads(a: ActV) -> bool {
    a is ReadToken || a is ReadValue || a is ReadPassphrase || a is ReadLease
}

spec fn recalls(start: ErrandV, events: Seq<EventV>, v: ErrandV) -> bool {
    match v.stage {
        Stage::Over => true,
        Stage::Connect => v.conn == laws::after(start.conn, told(events)),
        _ => v.conn == laws::after(start.conn, told(events)) && connection::trusted(v.conn),
    }
}

proof fn lemma_recalls(start: ErrandV, events: Seq<EventV>)
    requires
        start.stage == Stage::Connect,
    ensures
        recalls(start, events, after(start, events)),
    decreases events.len(),
{
    if events.len() > 0 {
        let before = events.drop_last();
        lemma_recalls(start, before);
        if events.last() is Conn {
            assert(told(events).drop_last() =~= told(before));
        }
    }
}

/// What reads something waits for it.
proof fn lemma_reading_waits(v: ErrandV, e: EventV)
    requires
        reads(stepped(v, e).1),
    ensures
        stepped(v, e).0.stage != Stage::Connect,
        stepped(v, e).0.stage != Stage::Over,
{
}

/// Nothing is read for a command, no token, value, passphrase or lease, before
/// trust in the broker is established.
pub proof fn law_nothing_is_read_before_trust(start: ErrandV, events: Seq<EventV>, i: int)
    requires
        start.stage == Stage::Connect,
        start.conn.stage == connection::Stage::Connect,
        0 <= i < events.len(),
        reads(acts(start, events)[i]),
    ensures
        laws::established(start.conn, told(events.take(i + 1))),
{
    let now = events.take(i + 1);
    let v = after(start, events.take(i));
    assert(now.drop_last() =~= events.take(i));
    assert(now.last() == events[i]);
    lemma_reading_waits(v, events[i]);
    assert(after(start, now) == stepped(v, events[i]).0);
    lemma_recalls(start, now);
    laws::law_trust_is_established(start.conn, told(now));
}

/// No request leaves a command, on its connection or on one of its own, before
/// trust in the broker is established.
pub proof fn law_requests_follow_trust(start: ErrandV, events: Seq<EventV>, i: int)
    requires
        start.stage == Stage::Connect,
        start.conn.stage == connection::Stage::Connect,
        0 <= i < events.len(),
        acts(start, events)[i] is CallAfresh || (acts(start, events)[i] matches ActV::Conn(a)
            && a is Send && !laws::is_hello(a)),
    ensures
        laws::established(start.conn, told(events.take(i))),
{
    let before = events.take(i);
    let v = after(start, before);
    lemma_recalls(start, before);
    if v.stage == Stage::Connect {
        let h = events[i]->Conn_0;
        let line = told(before).push(h);
        let n = told(before).len() as int;
        assert(line.take(n) =~= told(before));
        assert(laws::acts(start.conn, line)[n] == connection::stepped(v.conn, h).1);
        laws::law_nothing_but_the_hello_before_trust(start.conn, line, n);
    } else {
        laws::law_trust_is_established(start.conn, told(before));
    }
}

/// What stands for a value stands for all of it: the same variant, with every part.
pub proof fn law_event_value_is_faithful(e: Event)
    ensures
        match (e, event_value(e)) {
            (Event::Conn(h), EventV::Conn(v0)) => v0 == (connection::happened(h)),
            (Event::Failed(f), EventV::Failed(v0)) => v0 == f@,
            (Event::Token(t), EventV::Token(v0)) => v0 == (json::opt_text(t)),
            (Event::Value(s), EventV::Value(v0)) => v0 == s@,
            (Event::Passphrase(s), EventV::Passphrase(v0)) => v0 == s@,
            (Event::Lease(s), EventV::Lease(v0)) => v0 == (secret(s)),
            (Event::Id(id), EventV::Id(v0)) => v0 == id@,
            _ => false,
        },
{
}

/// What stands for a value stands for all of it: the same variant, with every part.
pub proof fn law_act_value_is_faithful(a: Act)
    ensures
        match (a, act_value(a)) {
            (Act::Conn(c), ActV::Conn(v0)) => v0 == (connection::act_value(c)),
            (Act::ReadToken, ActV::ReadToken) => true,
            (Act::ReadValue, ActV::ReadValue) => true,
            (
                Act::ReadPassphrase { twice },
                ActV::ReadPassphrase { twice: twice_v },
            ) => twice_v == twice,
            (Act::ReadLease, ActV::ReadLease) => true,
            (Act::DrawId, ActV::DrawId) => true,
            (
                Act::CallAfresh { op, auth, params },
                ActV::CallAfresh { op: op_v, auth: auth_v, params: params_v },
            ) => op_v == op
                && auth_v == (client::auth_value(auth))
                && params_v == params@,
            (Act::Refuse(e), ActV::Refuse(v0)) => v0 == e@,
            (Act::Stop, ActV::Stop) => true,
            _ => false,
        },
{
}

} // verus!
