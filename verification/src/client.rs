//! The client of the broker: what it sends, and what it makes of what comes
//! back.
//!
//! A call is one request and one response. A run is the exception: one held
//! connection carries two responses, the start and the end of the child.

use vstd::prelude::*;

use crate::broker::run::{self, Exit};
use crate::crypto;
use crate::error::{Fault, VaultError};
use crate::json::{self, Json, JsonV};
use crate::text::{self, joined, same};
use crate::wire::{self, AuthField, AuthV, Request, RequestV, Response, ResponseV};

pub mod connection;
pub mod laws;
pub mod reply_laws;

verus! {

/// The credential of a request: at most one.
pub enum Auth {
    /// No credential.
    Anonymous,
    AgentToken(String),
    Passphrase(String),
    /// The credential of an open human session.
    Session(String),
}

/// What is known of a started child. It holds no argument, no environment and
/// no secret.
#[derive(Debug, PartialEq)]
pub struct RunStarted {
    pub run_id: String,
    pub pid: i32,
}

/// How a child ended: with an exit code, or by a signal.
#[derive(Debug, PartialEq)]
pub struct RunExit {
    pub run_id: String,
    pub exit_code: Option<i32>,
    pub signal: Option<String>,
}

/// The acknowledgement of a signal.
#[derive(Debug, PartialEq)]
pub struct RunSignaled {
    pub run_id: String,
    pub signaled: bool,
}

/// The credentials that an [`Auth`] presents.
pub open spec fn auth_value(auth: Auth) -> AuthV {
    match auth {
        Auth::Anonymous => wire::no_auth(),
        Auth::AgentToken(t) => AuthV { token: Some(t@), passphrase: None, session: None },
        Auth::Passphrase(p) => AuthV { token: None, passphrase: Some(p@), session: None },
        Auth::Session(s) => AuthV { token: None, passphrase: None, session: Some(s@) },
    }
}

/// The credentials of a request; none at all where there is no credential.
pub fn auth_field(auth: &Auth) -> (r: Option<AuthField>)
    ensures
        match r {
            Some(a) => !(auth is Anonymous) && a@ == auth_value(*auth),
            None => auth is Anonymous,
        },
{
    match auth {
        Auth::Anonymous => None,
        Auth::AgentToken(t) => Some(
            AuthField { token: Some(t.clone()), passphrase: None, session: None },
        ),
        Auth::Passphrase(p) => Some(
            AuthField { token: None, passphrase: Some(p.clone()), session: None },
        ),
        Auth::Session(s) => Some(
            AuthField { token: None, passphrase: None, session: Some(s.clone()) },
        ),
    }
}

/// A request never presents two credentials.
pub proof fn law_at_most_one_credential(auth: Auth)
    ensures
        ({
            let a = auth_value(auth);
            &&& a.token is Some ==> a.passphrase is None && a.session is None
            &&& a.passphrase is Some ==> a.token is None && a.session is None
            &&& a.session is Some ==> a.token is None && a.passphrase is None
        }),
{
}

/// Builds a request.
fn request(v: u64, id: &str, op: &str, auth: &Auth, params: Json) -> (r: Request)
    ensures
        r@ == (RequestV { v, id: id@, op: op@, auth: auth_value(*auth), params: params@ }),
{
    Request { v, id: id.to_string(), op: op.to_string(), auth: auth_field(auth), params }
}

/// A fresh request id: eight random bytes in hexadecimal notation.
pub fn fresh_id() -> (r: Result<String, VaultError>)
    ensures
        match r {
            Ok(id) => id@.len() == 16 && crypto::is_hex(text::utf8(id@)),
            Err(e) => crypto::is_csprng_failure(e@),
        },
{
    match crypto::random_bytes::<8>() {
        Ok(raw) => {
            proof {
                crypto::law_unhex_undoes_hex(raw@);
            }
            Ok(crypto::hex(raw.as_slice()))
        },
        Err(e) => Err(e),
    }
}

// -------------------------------------------------------------- broker errors
/// A refusal of the broker, with its code, its sentence and its data kept.
#[derive(Debug, PartialEq)]
pub struct BrokerError {
    pub code: String,
    pub msg: String,
    pub data: Option<Json>,
}

/// The mathematical value of a [`BrokerError`].
pub struct BrokerErrorV {
    pub code: Seq<char>,
    pub msg: Seq<char>,
    pub data: Option<JsonV>,
}

impl View for BrokerError {
    type V = BrokerErrorV;

    open spec fn view(&self) -> BrokerErrorV {
        BrokerErrorV { code: self.code@, msg: self.msg@, data: wire::opt_json(self.data) }
    }
}

pub open spec fn io_failure(text: Seq<char>) -> BrokerErrorV {
    BrokerErrorV { code: "E_IO"@, msg: text, data: None }
}

pub open spec fn protocol_failure(why: Seq<char>) -> BrokerErrorV {
    BrokerErrorV { code: "E_PROTOCOL"@, msg: why, data: None }
}

/// The line that a person or an agent is shown: the code and the sentence.
pub open spec fn broker_line(e: BrokerErrorV) -> Seq<char> {
    e.code + ": "@ + e.msg
}

/// The one-line form of a refusal; a pending approval keeps the pointers that
/// are needed to claim it.
pub open spec fn protocol_fault(e: BrokerErrorV) -> Fault {
    match (e.code == "E_APPROVAL_PENDING"@, e.data) {
        (true, Some(d)) => Fault::Protocol(
            "approval pending: approval_id="@ + (match d.at("approval_id"@).text() {
                Some(id) => id,
                None => ""@,
            }) + " expires_in="@ + (match d.get("expires_in"@) {
                Some(v) => json::json_text(v),
                None => ""@,
            }) + "s"@,
        ),
        _ => Fault::Protocol(broker_line(e)),
    }
}

impl BrokerError {
    /// A failed system call, by its text.
    pub fn io(text: &str) -> (r: BrokerError)
        ensures
            r@ == io_failure(text@),
    {
        BrokerError { code: "E_IO".to_string(), msg: text.to_string(), data: None }
    }

    /// Misuse of the protocol.
    pub fn protocol(why: &str) -> (r: BrokerError)
        ensures
            r@ == protocol_failure(why@),
    {
        BrokerError { code: "E_PROTOCOL".to_string(), msg: why.to_string(), data: None }
    }

    /// The code and the sentence.
    pub fn message(&self) -> (r: String)
        ensures
            r@ == broker_line(self@),
    {
        let mut s = self.code.clone();
        s.push_str(": ");
        s.push_str(&self.msg);
        s
    }

    /// The one-line form that the command line shows.
    pub fn into_protocol(self) -> (r: VaultError)
        ensures
            r@ == protocol_fault(self@),
    {
        if same(&self.code, "E_APPROVAL_PENDING") {
            match &self.data {
                Some(d) => {
                    let id = match d.text_at("approval_id") {
                        Some(t) => t.to_string(),
                        None => "".to_string(),
                    };
                    let expires = match d.get("expires_in") {
                        Some(v) => v.to_text(),
                        None => "".to_string(),
                    };
                    let mut s = "approval pending: approval_id=".to_string();
                    s.push_str(&id);
                    s.push_str(" expires_in=");
                    s.push_str(&expires);
                    s.push_str("s");
                    return VaultError::Protocol(s);
                },
                None => {},
            }
        }
        VaultError::Protocol(self.message())
    }
}

/// What an error before a call becomes.
pub open spec fn preparation_failure(e: Fault) -> BrokerErrorV {
    match e {
        Fault::Io { text, .. } => io_failure(text),
        other => protocol_failure(other.message()),
    }
}

/// What an error before a call becomes.
pub fn preparation_error(e: VaultError) -> (r: BrokerError)
    ensures
        r@ == preparation_failure(e@),
{
    match e {
        VaultError::Io(io) => BrokerError::io(&io.text),
        other => BrokerError::protocol(&other.message()),
    }
}

/// What a server that could not be verified is reported as.
pub open spec fn server_failure(f: Fault) -> BrokerErrorV {
    BrokerErrorV { code: f.code(), msg: f.message(), data: None }
}

/// Gives what a server that could not be verified is reported as.
pub fn server_error(e: &VaultError) -> (r: BrokerError)
    ensures
        r@ == server_failure(e@),
{
    BrokerError { code: e.code().to_string(), msg: e.message(), data: None }
}

/// What a failed handshake is reported as.
pub open spec fn handshake_failure(f: Fault) -> BrokerErrorV {
    BrokerErrorV {
        code: f.code(),
        msg: f.message()
            + " (first MCP use on this machine fails closed until a human pins once: run any `svault` command at a TTY and answer `yes`)"@,
        data: None,
    }
}

/// Gives what a failed handshake is reported as.
pub fn handshake_error(e: &VaultError) -> (r: BrokerError)
    ensures
        r@ == handshake_failure(e@),
{
    BrokerError {
        code: e.code().to_string(),
        msg: joined(
            &e.message(),
            " (first MCP use on this machine fails closed until a human pins once: run any `svault` command at a TTY and answer `yes`)",
        ),
        data: None,
    }
}

// ------------------------------------------------------------- broker replies
/// What a line that came back holds: it must be short enough, JSON, of the
/// same version and for the same request.
pub open spec fn broker_reply(
    line_len: nat,
    decoded: Option<JsonV>,
    max_message_len: nat,
    version: u64,
    id: Seq<char>,
) -> Result<JsonV, BrokerErrorV> {
    if line_len > max_message_len + 1 {
        Err(protocol_failure("response too large"@))
    } else {
        match decoded {
            None => Err(protocol_failure("invalid response"@)),
            Some(resp) => if resp.get("v"@) != Some(JsonV::UInt(version)) {
                Err(protocol_failure("unsupported protocol version"@))
            } else if resp.at("id"@).text() != Some(id) {
                Err(protocol_failure("response id mismatch"@))
            } else if resp.get("ok"@) == Some(JsonV::Bool(true)) {
                Ok(resp.at("result"@))
            } else {
                Err(refusal(resp.at("error"@)))
            },
        }
    }
}

/// The refusal that a response's error holds.
pub open spec fn refusal(err: JsonV) -> BrokerErrorV {
    BrokerErrorV {
        code: match err.at("code"@).text() {
            Some(c) => c,
            None => "E_PROTOCOL"@,
        },
        msg: match err.at("msg"@).text() {
            Some(m) => m,
            None => "broker error"@,
        },
        data: if err.at("data"@) is Null {
            None
        } else {
            Some(err.at("data"@))
        },
    }
}

fn copied_at(j: &Json, key: &str) -> (r: Json)
    ensures
        r@ == j@.at(key@),
{
    match j.get(key) {
        Some(v) => v.duplicate(),
        None => Json::Null,
    }
}

/// Reads the answer to a call. `line_len` counts the bytes of the line with
/// its end, and `decoded` is the JSON value of the line without it.
pub fn broker_call_with_auth(
    line_len: usize,
    decoded: Option<Json>,
    max_message_len: usize,
    version: u64,
    id: &str,
) -> (r: Result<Json, BrokerError>)
    ensures
        ({
            let expected = broker_reply(
                line_len as nat,
                wire::opt_json(decoded),
                max_message_len as nat,
                version,
                id@,
            );
            match r {
                Ok(j) => expected == Ok::<JsonV, BrokerErrorV>(j@),
                Err(e) => expected == Err::<JsonV, BrokerErrorV>(e@),
            }
        }),
{
    if line_len > 0 && line_len - 1 > max_message_len {
        return Err(BrokerError::protocol("response too large"));
    }
    let resp = match decoded {
        Some(j) => j,
        None => {
            return Err(BrokerError::protocol("invalid response"));
        },
    };
    let version_ok = match resp.get("v") {
        Some(Json::UInt(n)) => *n == version,
        _ => false,
    };
    if !version_ok {
        return Err(BrokerError::protocol("unsupported protocol version"));
    }
    let id_ok = match resp.text_at("id") {
        Some(t) => same(t, id),
        None => false,
    };
    if !id_ok {
        return Err(BrokerError::protocol("response id mismatch"));
    }
    let ok = match resp.get("ok") {
        Some(Json::Bool(b)) => *b,
        _ => false,
    };
    if ok {
        return Ok(copied_at(&resp, "result"));
    }
    let err = copied_at(&resp, "error");
    let code = match err.text_at("code") {
        Some(c) => c.to_string(),
        None => "E_PROTOCOL".to_string(),
    };
    let msg = match err.text_at("msg") {
        Some(m) => m.to_string(),
        None => "broker error".to_string(),
    };
    let data = if err.present("data") {
        Some(copied_at(&err, "data"))
    } else {
        None
    };
    Err(BrokerError { code, msg, data })
}

/// An answer counts only for the request that it names.
pub proof fn law_answers_belong_to_their_request(
    line_len: nat,
    decoded: Option<JsonV>,
    max_message_len: nat,
    version: u64,
    id: Seq<char>,
)
    requires
        broker_reply(line_len, decoded, max_message_len, version, id) is Ok,
    ensures
        decoded matches Some(resp) && resp.at("id"@) == JsonV::Str(id) && resp.at("v"@)
            == JsonV::UInt(version) && resp.at("ok"@) == JsonV::Bool(true),
        line_len <= max_message_len + 1,
{
}

/// The result of a response: only the code of an expired session and that of a
/// failed authentication keep their meaning, every other one becomes its
/// sentence.
pub open spec fn result_of(resp: ResponseV, id: Seq<char>) -> Result<JsonV, Fault> {
    if resp.id != id {
        Err(Fault::Protocol("response id mismatch"@))
    } else {
        match (resp.ok, resp.result, resp.error) {
            (true, Some(result), _) => Ok(result),
            (true, None, _) => Ok(JsonV::Null),
            (false, _, Some(err)) => if err.code == "E_SESSION_EXPIRED"@ {
                Err(Fault::SessionExpired)
            } else if err.code == "E_AUTH"@ {
                Err(Fault::Auth)
            } else {
                Err(Fault::Protocol(err.msg))
            },
            (false, _, None) => Err(Fault::Protocol("error without message"@)),
        }
    }
}

fn misuse(why: &str) -> (e: VaultError)
    ensures
        e@ == Fault::Protocol(why@),
{
    VaultError::Protocol(why.to_string())
}

/// Checks a response and gives its result.
pub fn checked_result(resp: Response, id: &str) -> (r: Result<Json, VaultError>)
    ensures
        match r {
            Ok(j) => result_of(resp@, id@) == Ok::<JsonV, Fault>(j@),
            Err(e) => result_of(resp@, id@) == Err::<JsonV, Fault>(e@),
        },
{
    if !same(&resp.id, id) {
        return Err(misuse("response id mismatch"));
    }
    match (resp.ok, resp.result, resp.error) {
        (true, Some(result), _) => Ok(result),
        (true, None, _) => Ok(Json::Null),
        (false, _, Some(err)) => if same(&err.code, "E_SESSION_EXPIRED") {
            Err(VaultError::SessionExpired)
        } else if same(&err.code, "E_AUTH") {
            Err(VaultError::Auth)
        } else {
            Err(VaultError::Protocol(err.msg))
        },
        (false, _, None) => Err(misuse("error without message")),
    }
}

/// The two errors that a client must tell apart survive the wire, and what
/// succeeded is given back unchanged.
pub proof fn law_session_and_auth_survive_the_wire(id: Seq<char>, result: JsonV)
    ensures
        result_of(
            wire::err_response(id, Fault::SessionExpired.code(), Fault::SessionExpired.message()),
            id,
        ) == Err::<JsonV, Fault>(Fault::SessionExpired),
        result_of(wire::err_response(id, Fault::Auth.code(), Fault::Auth.message()), id) == Err::<
            JsonV,
            Fault,
        >(Fault::Auth),
        result_of(wire::ok_response(id, result), id) == Ok::<JsonV, Fault>(result),
{
    reveal_strlit("E_SESSION_EXPIRED");
    reveal_strlit("E_AUTH");
    assert("E_SESSION_EXPIRED"@.len() == 17 && "E_AUTH"@.len() == 6);
}

// ----------------------------------------------------------------------- runs
/// The mathematical value of a [`RunStarted`].
pub struct StartedV {
    pub run_id: Seq<char>,
    pub pid: i32,
}

impl View for RunStarted {
    type V = StartedV;

    open spec fn view(&self) -> StartedV {
        StartedV { run_id: self.run_id@, pid: self.pid }
    }
}

/// The mathematical value of a [`RunExit`].
pub struct ExitedV {
    pub run_id: Seq<char>,
    pub exit_code: Option<i32>,
    pub signal: Option<Seq<char>>,
}

impl View for RunExit {
    type V = ExitedV;

    open spec fn view(&self) -> ExitedV {
        ExitedV {
            run_id: self.run_id@,
            exit_code: self.exit_code,
            signal: json::opt_text(self.signal),
        }
    }
}

/// A JSON integer that fits 32 bits.
pub open spec fn int32(j: JsonV) -> Option<i32> {
    match j.int64() {
        Some(n) => if i32::MIN <= n <= i32::MAX {
            Some(n as i32)
        } else {
            None
        },
        None => None,
    }
}

fn int32_at(j: &Json, key: &str) -> (r: Option<i32>)
    ensures
        r == int32(j@.at(key@)),
{
    match j.int_at(key) {
        Some(n) => if -2147483648 <= n && n <= 2147483647 {
            Some(n as i32)
        } else {
            None
        },
        None => None,
    }
}

/// What a response says of a start.
pub open spec fn started_of(resp: ResponseV, id: Seq<char>) -> Result<StartedV, Fault> {
    match result_of(resp, id) {
        Err(e) => Err(e),
        Ok(result) => if result.at("status"@).text() != Some("started"@) {
            Err(Fault::Protocol("run: expected started response"@))
        } else {
            match (result.at("run_id"@).text(), int32(result.at("pid"@))) {
                (None, _) => Err(Fault::Protocol("run: started response missing run_id"@)),
                (Some(run_id), Some(pid)) => if pid > 0 {
                    Ok(StartedV { run_id, pid })
                } else {
                    Err(Fault::Protocol("run: started response missing pid"@))
                },
                (Some(_), None) => Err(Fault::Protocol("run: started response missing pid"@)),
            }
        },
    }
}

fn has_status(j: &Json, status: &str) -> (r: bool)
    ensures
        r == (j@.at("status"@).text() == Some(status@)),
{
    match j.text_at("status") {
        Some(s) => same(s, status),
        None => false,
    }
}

/// Reads the announcement of a start.
pub fn parse_started(id: &str, resp: Response) -> (r: Result<RunStarted, VaultError>)
    ensures
        match r {
            Ok(s) => started_of(resp@, id@) == Ok::<StartedV, Fault>(s@),
            Err(e) => started_of(resp@, id@) == Err::<StartedV, Fault>(e@),
        },
{
    let result = match checked_result(resp, id) {
        Ok(j) => j,
        Err(e) => {
            return Err(e);
        },
    };
    if !has_status(&result, "started") {
        return Err(misuse("run: expected started response"));
    }
    let run_id = match result.text_at("run_id") {
        Some(t) => t.to_string(),
        None => {
            return Err(misuse("run: started response missing run_id"));
        },
    };
    match int32_at(&result, "pid") {
        Some(pid) => if pid > 0 {
            Ok(RunStarted { run_id, pid })
        } else {
            Err(misuse("run: started response missing pid"))
        },
        None => Err(misuse("run: started response missing pid")),
    }
}

/// What a response says of an end.
pub open spec fn exited_of(resp: ResponseV, id: Seq<char>, run_id: Seq<char>) -> Result<
    ExitedV,
    Fault,
> {
    match result_of(resp, id) {
        Err(e) => Err(e),
        Ok(result) => if result.at("status"@).text() != Some("exited"@) {
            Err(Fault::Protocol("run: expected exited response"@))
        } else if result.at("run_id"@).text() is None {
            Err(Fault::Protocol("run: exited response missing run_id"@))
        } else if result.at("run_id"@).text() != Some(run_id) {
            Err(Fault::Protocol("response run_id mismatch"@))
        } else if result.get("exit_code"@) is Some && int32(result.at("exit_code"@)) is None {
            Err(Fault::Protocol("run: bad exit_code"@))
        } else if result.get("signal"@) is Some && result.at("signal"@).text() is None {
            Err(Fault::Protocol("run: bad signal"@))
        } else if result.get("exit_code"@) is None && result.get("signal"@) is None {
            Err(Fault::Protocol("run: exited response lacks status"@))
        } else {
            Ok(
                ExitedV {
                    run_id,
                    exit_code: int32(result.at("exit_code"@)),
                    signal: result.at("signal"@).text(),
                },
            )
        },
    }
}

/// Reads the announcement of an end.
pub fn parse_exited(id: &str, run_id: &str, resp: Response) -> (r: Result<RunExit, VaultError>)
    ensures
        match r {
            Ok(s) => exited_of(resp@, id@, run_id@) == Ok::<ExitedV, Fault>(s@),
            Err(e) => exited_of(resp@, id@, run_id@) == Err::<ExitedV, Fault>(e@),
        },
{
    let result = match checked_result(resp, id) {
        Ok(j) => j,
        Err(e) => {
            return Err(e);
        },
    };
    if !has_status(&result, "exited") {
        return Err(misuse("run: expected exited response"));
    }
    match result.text_at("run_id") {
        Some(t) => {
            if !same(t, run_id) {
                return Err(misuse("response run_id mismatch"));
            }
        },
        None => {
            return Err(misuse("run: exited response missing run_id"));
        },
    }
    let exit_code = match result.get("exit_code") {
        None => None,
        Some(_) => match int32_at(&result, "exit_code") {
            Some(n) => Some(n),
            None => {
                return Err(misuse("run: bad exit_code"));
            },
        },
    };
    let signal = match result.get("signal") {
        None => None,
        Some(_) => match result.text_at("signal") {
            Some(t) => Some(t.to_string()),
            None => {
                return Err(misuse("run: bad signal"));
            },
        },
    };
    match (&exit_code, &signal) {
        (None, None) => {
            return Err(misuse("run: exited response lacks status"));
        },
        _ => {},
    }
    Ok(RunExit { run_id: run_id.to_string(), exit_code, signal })
}

/// The parameters that ask for a signal.
pub fn signal_params(run_id: &str, signal: &str) -> (r: Json)
    ensures
        r@ == json::empty_object().with("run_id"@, JsonV::Str(run_id@)).with(
            "signal"@,
            JsonV::Str(signal@),
        ),
{
    let mut j = Json::object();
    j.put("run_id", Json::string(run_id));
    j.put("signal", Json::string(signal));
    j
}

/// What the result of a signal acknowledges.
pub open spec fn signal_fault(result: JsonV, run_id: Seq<char>) -> Option<Fault> {
    if result.at("run_id"@).text() is None {
        Some(Fault::Protocol("run_signal response missing run_id"@))
    } else if result.at("run_id"@).text() != Some(run_id) {
        Some(Fault::Protocol("response run_id mismatch"@))
    } else if result.at("signaled"@).boolean() != Some(true) {
        Some(Fault::Protocol("run_signal not acknowledged"@))
    } else {
        None
    }
}

/// Reads the acknowledgement of a signal.
pub fn run_signal(result: &Json, run_id: &str) -> (r: Result<RunSignaled, VaultError>)
    ensures
        match r {
            Ok(s) => signal_fault(result@, run_id@) is None && s.run_id@ == run_id@ && s.signaled,
            Err(e) => signal_fault(result@, run_id@) == Some(e@),
        },
{
    match result.text_at("run_id") {
        Some(t) => {
            if !same(t, run_id) {
                return Err(misuse("response run_id mismatch"));
            }
        },
        None => {
            return Err(misuse("run_signal response missing run_id"));
        },
    }
    match result.bool_at("signaled") {
        Some(true) => Ok(RunSignaled { run_id: run_id.to_string(), signaled: true }),
        _ => Err(misuse("run_signal not acknowledged")),
    }
}

/// The client reads the start that the broker announces.
pub proof fn law_started_reads_back(id: Seq<char>, run_id: Seq<char>, pid: i32)
    requires
        pid > 0,
    ensures
        started_of(wire::ok_response(id, run::started_body(run_id, pid)), id) == Ok::<
            StartedV,
            Fault,
        >(StartedV { run_id, pid }),
{
    reveal_strlit("run_id");
    reveal_strlit("pid");
    reveal_strlit("status");
    assert("run_id"@.len() == 6 && "pid"@.len() == 3 && "status"@.len() == 6);
    assert("run_id"@[0] == 'r' && "status"@[0] == 's');
    let a = ("run_id"@, JsonV::Str(run_id));
    let b = ("pid"@, json::int_value(pid as int));
    let c = ("status"@, JsonV::Str("started"@));
    let members = Seq::empty().push(a).push(b).push(c);
    assert(run::started_body(run_id, pid) == JsonV::Object(members));
    assert(members.drop_first() =~= seq![b, c]);
    assert(seq![b, c].drop_first() =~= seq![c]);
    reveal_with_fuel(json::member, 4);
}

/// The client reads the end that the broker announces.
pub proof fn law_exited_reads_back(id: Seq<char>, run_id: Seq<char>, exit: Exit<Seq<char>>)
    requires
        exit.code is Some || exit.signal is Some,
    ensures
        exited_of(wire::ok_response(id, run::exited_body(run_id, exit)), id, run_id) == Ok::<
            ExitedV,
            Fault,
        >(ExitedV { run_id, exit_code: exit.code, signal: exit.signal }),
{
    reveal_strlit("run_id");
    reveal_strlit("exit_code");
    reveal_strlit("signal");
    reveal_strlit("status");
    assert("run_id"@.len() == 6 && "exit_code"@.len() == 9 && "status"@.len() == 6
        && "signal"@.len() == 6);
    assert("run_id"@[0] == 'r' && "status"@[0] == 's' && "signal"@[0] == 's' && "status"@[1] == 't'
        && "signal"@[1] == 'i');
    let x = ("exit_code"@, json::int_value(exit.code->0 as int));
    let g = ("signal"@, JsonV::Str(exit.signal->0));
    let b = ("run_id"@, JsonV::Str(run_id));
    let c = ("status"@, JsonV::Str("exited"@));
    reveal_with_fuel(json::member, 5);
    let body = run::exited_body(run_id, exit);
    assert(seq![b, c].drop_first() =~= seq![c]);
    assert(seq![c].drop_first() =~= Seq::empty());
    assert(seq![g, b, c].drop_first() =~= seq![b, c]);
    match (exit.code, exit.signal) {
        (Some(code), Some(signal)) => {
            assert(body->Object_0 =~= seq![x, g, b, c]);
            assert(seq![x, g, b, c].drop_first() =~= seq![g, b, c]);
        },
        (Some(code), None) => {
            assert(body->Object_0 =~= seq![x, b, c]);
            assert(seq![x, b, c].drop_first() =~= seq![b, c]);
        },
        (None, Some(signal)) => {
            assert(body->Object_0 =~= seq![g, b, c]);
        },
        (None, None) => {},
    }
}

// -------------------------------------------------------------------- connect
/// How a client comes to trust a broker on first contact.
#[derive(Clone, Copy, Debug, PartialEq, Eq, Structural)]
pub enum TrustMode {
    /// Without a pin there is no trust. Agents and scripts use this.
    NonInteractive,
    /// A person at a terminal may confirm the fingerprint.
    Interactive,
}

impl Default for TrustMode {
    fn default() -> (r: TrustMode)
        ensures
            r == TrustMode::NonInteractive,
    {
        TrustMode::NonInteractive
    }
}

/// How to connect. The expected fingerprint helps a person to compare; it is
/// never a reason to trust by itself.
pub struct ConnectOptions {
    pub trust: TrustMode,
    pub trust_fingerprint: Option<[u8; 32]>,
}

impl Default for ConnectOptions {
    fn default() -> (r: ConnectOptions)
        ensures
            r.trust == TrustMode::NonInteractive,
            r.trust_fingerprint is None,
    {
        ConnectOptions { trust: TrustMode::NonInteractive, trust_fingerprint: None }
    }
}

/// Which handshake a connection makes.
#[derive(Clone, Copy, Debug, PartialEq, Eq, Structural)]
pub enum Leg {
    Strict,
    Interactive,
}

/// The handshake that some options ask for.
pub open spec fn leg(opts: ConnectOptions) -> Result<Leg, Fault> {
    if opts.trust == TrustMode::Interactive {
        Ok(Leg::Interactive)
    } else if opts.trust_fingerprint is Some {
        Err(
            Fault::BrokerUntrusted(
                "refusing to pin a broker identity non-interactively; refusing to send credentials (a human must pin once at a TTY: run any `svault` command interactively, verify the fingerprint out-of-band, answer `yes`)"@,
            ),
        )
    } else {
        Ok(Leg::Strict)
    }
}

/// Decides which handshake to make.
pub fn handshake(opts: &ConnectOptions) -> (r: Result<Leg, VaultError>)
    ensures
        match r {
            Ok(l) => leg(*opts) == Ok::<Leg, Fault>(l),
            Err(e) => leg(*opts) == Err::<Leg, Fault>(e@),
        },
{
    if opts.trust == TrustMode::Interactive {
        return Ok(Leg::Interactive);
    }
    match opts.trust_fingerprint {
        Some(_) => Err(
            VaultError::BrokerUntrusted(
                "refusing to pin a broker identity non-interactively; refusing to send credentials (a human must pin once at a TTY: run any `svault` command interactively, verify the fingerprint out-of-band, answer `yes`)".to_string(),
            ),
        ),
        None => Ok(Leg::Strict),
    }
}

/// Without a person there is only the strict handshake, and an expected
/// fingerprint does not change that.
pub proof fn law_agents_never_establish_trust(opts: ConnectOptions)
    requires
        opts.trust == TrustMode::NonInteractive,
    ensures
        leg(opts) == Ok::<Leg, Fault>(Leg::Strict) <==> opts.trust_fingerprint is None,
        leg(opts) != Ok::<Leg, Fault>(Leg::Interactive),
{
}

/// What a server without the instance lock of its socket is refused with.
pub open spec fn unverified() -> Fault {
    Fault::BrokerUntrusted(
        "server identity could not be verified; refusing to send credentials (no svault daemon holds the instance lock for this socket)"@,
    )
}

/// Refuses a server without the instance lock of its socket.
pub fn unverified_server() -> (e: VaultError)
    ensures
        e@ == unverified(),
{
    VaultError::BrokerUntrusted(
        "server identity could not be verified; refusing to send credentials (no svault daemon holds the instance lock for this socket)".to_string(),
    )
}

/// What stands for a value stands for all of it, part by part.
pub proof fn law_the_view_of_broker_error_is_faithful(x: BrokerError)
    ensures
        x@.code == x.code@,
        x@.msg == x.msg@,
        x@.data == wire::opt_json(x.data),
{
}

/// What stands for a value stands for all of it, part by part.
pub proof fn law_the_view_of_run_started_is_faithful(x: RunStarted)
    ensures
        x@.run_id == x.run_id@,
        x@.pid == x.pid,
{
}

/// What stands for a value stands for all of it, part by part.
pub proof fn law_the_view_of_run_exit_is_faithful(x: RunExit)
    ensures
        x@.run_id == x.run_id@,
        x@.exit_code == x.exit_code,
        x@.signal == json::opt_text(x.signal),
{
}

/// A credential is presented as what it is, and nobody presents none.
pub proof fn law_credentials_are_presented_as_what_they_are(auth: Auth)
    ensures
        match auth {
            Auth::Anonymous => auth_value(auth) == wire::no_auth(),
            Auth::AgentToken(t) => auth_value(auth).token == Some(t@),
            Auth::Passphrase(p) => auth_value(auth).passphrase == Some(p@),
            Auth::Session(s) => auth_value(auth).session == Some(s@),
        },
{
    law_at_most_one_credential(auth);
}

} // verus!
