//! What a client makes of what the broker answers.

use vstd::prelude::*;

use crate::client::connection::{self, Gate};
use crate::client::{self, BrokerErrorV, ConnectOptions, Leg, TrustMode};
use crate::error::Fault;
use crate::json::{self, JsonV};
use crate::text;
use crate::wire::{self, ResponseV};

verus! {

/// The names of members are told apart by their length and a letter.
proof fn lemma_names_differ()
    ensures
        "v"@.len() == 1,
        "id"@.len() == 2 && "id"@[0] == 'i',
        "ok"@.len() == 2 && "ok"@[0] == 'o',
        "result"@.len() == 6,
        "error"@.len() == 5,
        "code"@.len() == 4 && "code"@[0] == 'c',
        "msg"@.len() == 3,
        "data"@.len() == 4 && "data"@[0] == 'd',
        "approval_id"@.len() == 11,
        "expires_in"@.len() == 10,
{
    reveal_strlit("v");
    assert("v"@.len() == 1);
    reveal_strlit("id");
    assert("id"@.len() == 2 && "id"@[0] == 'i');
    reveal_strlit("ok");
    assert("ok"@.len() == 2 && "ok"@[0] == 'o');
    reveal_strlit("result");
    assert("result"@.len() == 6);
    reveal_strlit("error");
    assert("error"@.len() == 5);
    reveal_strlit("code");
    assert("code"@.len() == 4 && "code"@[0] == 'c');
    reveal_strlit("msg");
    assert("msg"@.len() == 3);
    reveal_strlit("data");
    assert("data"@.len() == 4 && "data"@[0] == 'd');
    reveal_strlit("approval_id");
    assert("approval_id"@.len() == 11);
    reveal_strlit("expires_in");
    assert("expires_in"@.len() == 10);
}

/// The line of a success.
pub open spec fn success_line(v: u64, id: Seq<char>, result: JsonV) -> JsonV {
    json::empty_object().with("v"@, JsonV::UInt(v)).with("id"@, JsonV::Str(id)).with(
        "ok"@,
        JsonV::Bool(true),
    ).with("result"@, result)
}

/// The line of a refusal, with data where there is some.
pub open spec fn refusal_line(
    v: u64,
    id: Seq<char>,
    code: Seq<char>,
    msg: Seq<char>,
    data: Option<JsonV>,
) -> JsonV {
    let plain = json::empty_object().with("code"@, JsonV::Str(code)).with("msg"@, JsonV::Str(msg));
    json::empty_object().with("v"@, JsonV::UInt(v)).with("id"@, JsonV::Str(id)).with(
        "ok"@,
        JsonV::Bool(false),
    ).with(
        "error"@,
        match data {
            Some(d) => plain.with("data"@, d),
            None => plain,
        },
    )
}

/// A success gives its result, and a refusal its code, its message and its data, unchanged.
pub proof fn law_answers_are_taken_as_they_are(
    len: nat,
    max: nat,
    v: u64,
    id: Seq<char>,
    result: JsonV,
    code: Seq<char>,
    msg: Seq<char>,
    data: JsonV,
)
    requires
        len <= max + 1,
        !(data is Null),
    ensures
        client::broker_reply(len, Some(success_line(v, id, result)), max, v, id) == Ok::<
            JsonV,
            BrokerErrorV,
        >(result),
        client::broker_reply(len, Some(refusal_line(v, id, code, msg, Some(data))), max, v, id) == Err::<
            JsonV,
            BrokerErrorV,
        >(BrokerErrorV { code, msg, data: Some(data) }),
        client::broker_reply(len, Some(refusal_line(v, id, code, msg, None)), max, v, id) == Err::<
            JsonV,
            BrokerErrorV,
        >(BrokerErrorV { code, msg, data: None }),
{
    broadcast use json::lemma_with_get;

    lemma_names_differ();
    assert(forall|key: Seq<char>| json::empty_object().get(key) is None);
}

/// A line that is too long or no answer, of another version or to another request is refused
/// as what it is.
pub proof fn law_answers_that_do_not_belong_are_refused(
    len: nat,
    max: nat,
    v: u64,
    other: u64,
    id: Seq<char>,
    stranger: Seq<char>,
    result: JsonV,
)
    requires
        v != other,
        id != stranger,
    ensures
        len > max + 1 ==> client::broker_reply(len, Some(success_line(v, id, result)), max, v, id)
            == Err::<JsonV, BrokerErrorV>(
            BrokerErrorV { code: "E_PROTOCOL"@, msg: "response too large"@, data: None },
        ),
        len <= max + 1 ==> client::broker_reply(len, None, max, v, id) == Err::<JsonV, BrokerErrorV>(
            BrokerErrorV { code: "E_PROTOCOL"@, msg: "invalid response"@, data: None },
        ),
        len <= max + 1 ==> client::broker_reply(len, Some(success_line(other, id, result)), max, v, id)
            == Err::<JsonV, BrokerErrorV>(
            BrokerErrorV { code: "E_PROTOCOL"@, msg: "unsupported protocol version"@, data: None },
        ),
        len <= max + 1 ==> client::broker_reply(len, Some(success_line(v, stranger, result)), max, v, id)
            == Err::<JsonV, BrokerErrorV>(
            BrokerErrorV { code: "E_PROTOCOL"@, msg: "response id mismatch"@, data: None },
        ),
{
    broadcast use json::lemma_with_get;

    lemma_names_differ();
    assert(forall|key: Seq<char>| json::empty_object().get(key) is None);
}

/// A refusal is told by its code and its message; of a pending approval its identifier and
/// the time that is left are told, to a person and to a program.
pub proof fn law_refusals_are_told_with_their_code(
    code: Seq<char>,
    msg: Seq<char>,
    id: Seq<char>,
    left: u64,
)
    ensures
        code != "E_APPROVAL_PENDING"@ ==> client::protocol_fault(BrokerErrorV { code, msg, data: None })
            == Fault::Protocol(code + ": "@ + msg),
        ({
            let pending = BrokerErrorV {
                code: "E_APPROVAL_PENDING"@,
                msg,
                data: Some(
                    json::empty_object().with("approval_id"@, JsonV::Str(id)).with(
                        "expires_in"@,
                        JsonV::UInt(left),
                    ),
                ),
            };
            &&& client::protocol_fault(pending) == Fault::Protocol(
                "approval pending: approval_id="@ + id + " expires_in="@ + text::decimal_text(
                    left as nat,
                ) + "s"@,
            )
            &&& crate::cli::pending_line(pending) == Some(
                "approval pending: "@ + id + " (expires in "@ + text::decimal_text(left as nat)
                    + "s)"@,
            )
        }),
        code != "E_APPROVAL_PENDING"@ ==> crate::cli::pending_line(
            BrokerErrorV { code, msg, data: None },
        ) is None,
{
    broadcast use json::lemma_with_get;

    lemma_names_differ();
    assert(forall|key: Seq<char>| json::empty_object().get(key) is None);
}

/// A response to the request gives its result; an expired session and a failed authentication
/// stay what they are, and any other refusal says its message.
pub proof fn law_a_response_is_taken_by_what_it_says(
    id: Seq<char>,
    other: Seq<char>,
    code: Seq<char>,
    msg: Seq<char>,
    r: ResponseV,
)
    requires
        id != other,
    ensures
        client::result_of(ResponseV { id: other, ..r }, id) == Err::<JsonV, Fault>(
            Fault::Protocol("response id mismatch"@),
        ),
        client::result_of(ResponseV { id, ok: true, result: None, error: None }, id) == Ok::<JsonV, Fault>(
            JsonV::Null,
        ),
        client::result_of(wire::err_response(id, code, msg), id) == Err::<JsonV, Fault>(
            if code == "E_SESSION_EXPIRED"@ {
                Fault::SessionExpired
            } else if code == "E_AUTH"@ {
                Fault::Auth
            } else {
                Fault::Protocol(msg)
            },
        ),
        client::result_of(ResponseV { id, ok: false, result: None, error: None }, id) == Err::<
            JsonV,
            Fault,
        >(Fault::Protocol("error without message"@)),
{
}

/// A call that could not be made says whether the socket, the server or the handshake failed.
pub proof fn law_failed_connections_say_where_they_failed(
    f: Fault,
    os_code: Option<i32>,
    why: Seq<char>,
)
    ensures
        connection::call_failure(Gate::Socket, Fault::Io { os_code, text: why }) == (BrokerErrorV {
            code: "E_IO"@,
            msg: why,
            data: None,
        }),
        !(f is Io) ==> connection::call_failure(Gate::Socket, f) == (BrokerErrorV {
            code: "E_PROTOCOL"@,
            msg: f.message(),
            data: None,
        }),
        connection::call_failure(Gate::Server, f) == (BrokerErrorV {
            code: f.code(),
            msg: f.message(),
            data: None,
        }),
        connection::call_failure(Gate::Handshake, f) == (BrokerErrorV {
            code: f.code(),
            msg: f.message()
                + " (first MCP use on this machine fails closed until a human pins once: run any `svault` command at a TTY and answer `yes`)"@,
            data: None,
        }),
{
}

/// A person's handshake is interactive, with or without an expected fingerprint; an agent's is
/// strict, and an agent may not name a fingerprint.
pub proof fn law_people_shake_hands_interactively(opts: ConnectOptions)
    ensures
        opts.trust == TrustMode::Interactive ==> client::leg(opts) == Ok::<Leg, Fault>(Leg::Interactive),
        opts.trust == TrustMode::NonInteractive && opts.trust_fingerprint is None ==> client::leg(opts) == Ok::<Leg, Fault>(Leg::Strict),
        opts.trust == TrustMode::NonInteractive && opts.trust_fingerprint is Some ==> client::leg(opts) is Err,
{
}

/// The start and the end of a run that are not told in full are refused with what is
/// missing.
pub proof fn law_incomplete_runs_are_refused(
    id: Seq<char>,
    run_id: Seq<char>,
    result: JsonV,
)
    ensures
        ({
            let started = client::started_of(wire::ok_response(id, result), id);
            let exited = client::exited_of(wire::ok_response(id, result), id, run_id);
            let named = result.at("run_id"@).text();
            &&& result.at("status"@) != JsonV::Str("started"@) ==> started == Err::<
                client::StartedV,
                Fault,
            >(Fault::Protocol("run: expected started response"@))
            &&& result.at("status"@) == JsonV::Str("started"@) && named is None ==> started
                == Err::<client::StartedV, Fault>(
                Fault::Protocol("run: started response missing run_id"@),
            )
            &&& result.at("status"@) == JsonV::Str("started"@) && named is Some && !(
            result.at("pid"@) is UInt) && !(result.at("pid"@) is NegInt) ==> started == Err::<client::StartedV, Fault>(
                Fault::Protocol("run: started response missing pid"@),
            )
            &&& result.at("status"@) != JsonV::Str("exited"@) ==> exited == Err::<
                client::ExitedV,
                Fault,
            >(Fault::Protocol("run: expected exited response"@))
            &&& result.at("status"@) == JsonV::Str("exited"@) && named is None ==> exited
                == Err::<client::ExitedV, Fault>(
                Fault::Protocol("run: exited response missing run_id"@),
            )
            &&& result.at("status"@) == JsonV::Str("exited"@) && named is Some && named != Some(
                run_id,
            ) ==> exited == Err::<client::ExitedV, Fault>(
                Fault::Protocol("response run_id mismatch"@),
            )
            &&& result.at("status"@) == JsonV::Str("exited"@) && named == Some(run_id)
                && result.get("exit_code"@) is None && result.get("signal"@) is None ==> exited
                == Err::<client::ExitedV, Fault>(
                Fault::Protocol("run: exited response lacks status"@),
            )
        }),
{
}

/// A signal counts as sent only where the broker says so of the run in question.
pub proof fn law_signals_are_acknowledged(run_id: Seq<char>, result: JsonV)
    ensures
        client::signal_fault(result, run_id) is None <==> result.at("run_id"@) == JsonV::Str(run_id)
            && result.at("signaled"@) == JsonV::Bool(true),
        !(result.at("run_id"@) is Str) ==> client::signal_fault(result, run_id) == Some(
            Fault::Protocol("run_signal response missing run_id"@),
        ),
        result.at("run_id"@) == JsonV::Str(run_id) && result.at("signaled"@) != JsonV::Bool(true)
            ==> client::signal_fault(result, run_id) == Some(
            Fault::Protocol("run_signal not acknowledged"@),
        ),
{
}

/// Numbers are taken where they fit thirty-two bits.
pub proof fn law_numbers_are_taken_where_they_fit(n: i32, m: u64)
    ensures
        client::int32(json::int_value(n as int)) == Some(n),
        m > 0x7fff_ffff ==> client::int32(JsonV::UInt(m)) is None,
{
}

/// A refusal without a code is a breach of the protocol, and one without a message says so
/// much; no data is none.
pub proof fn law_bare_refusals_are_breaches(err: JsonV)
    requires
        !(err.at("code"@) is Str),
        !(err.at("msg"@) is Str),
        err.at("data"@) is Null,
    ensures
        client::refusal(err) == (BrokerErrorV {
            code: "E_PROTOCOL"@,
            msg: "broker error"@,
            data: None,
        }),
{
}

} // verus!
