//! The client's side of the handshake: the line it sends, what it makes of
//! the reply, and the probe that only asks for the fingerprint.
//!
//! The line carries a fresh nonce and nothing else. What is done before and after
//! these decisions, and that nothing but the line is sent before trust, is the
//! matter of [`crate::client::connection`].

use vstd::prelude::*;

use crate::broker_identity::{self, PinDecision, PinV, HELLO_OP, NONCE_LEN};
use crate::crypto;
use crate::error::{Fault, VaultError};
use crate::json::{self, Json, JsonV};
use crate::text;
use crate::wire::{self, Request, RequestV, Response, ResponseV};

verus! {

/// The line that opens a handshake.
pub open spec fn hello_line(v: u64, id: Seq<char>, client_nonce: Seq<u8>) -> RequestV {
    RequestV {
        v,
        id,
        op: HELLO_OP@,
        auth: wire::no_auth(),
        params: json::empty_object().with(
            "client_nonce"@,
            JsonV::Str(crypto::hex_text(client_nonce)),
        ),
    }
}

/// Builds the line that opens a handshake.
pub fn hello_request(v: u64, id: &str, client_nonce: &[u8; NONCE_LEN]) -> (r: Request)
    ensures
        r@ == hello_line(v, id@, client_nonce@),
{
    let mut params = Json::object();
    params.put("client_nonce", Json::string(&crypto::hex(client_nonce.as_slice())));
    Request { v, id: id.to_string(), op: HELLO_OP.to_string(), auth: None, params }
}

/// Draws what a handshake needs: a fresh id of eight random bytes and a fresh
/// nonce.
pub fn fresh_challenge() -> (r: Result<(String, [u8; NONCE_LEN]), VaultError>)
    ensures
        match r {
            Ok((id, _)) => crypto::is_hex(text::utf8(id@)) && id@.len() == 16,
            Err(e) => crypto::is_csprng_failure(e@),
        },
{
    let client_nonce = match crypto::random_bytes::<32>() {
        Ok(n) => n,
        Err(e) => {
            return Err(e);
        },
    };
    let raw = match crypto::random_bytes::<8>() {
        Ok(n) => n,
        Err(e) => {
            return Err(e);
        },
    };
    let id = crypto::hex(raw.as_slice());
    proof {
        crypto::law_unhex_undoes_hex(raw@);
    }
    Ok((id, client_nonce))
}

/// Builds the line that opens a handshake with a fresh nonce and a fresh id.
pub fn fresh_hello(v: u64) -> (r: Result<(Request, [u8; NONCE_LEN]), VaultError>)
    ensures
        match r {
            Ok((request, client_nonce)) => request@ == hello_line(v, request@.id, client_nonce@)
                && crypto::is_hex(text::utf8(request@.id)) && request@.id.len() == 16,
            Err(e) => crypto::is_csprng_failure(e@),
        },
{
    match fresh_challenge() {
        Ok((id, client_nonce)) => Ok((hello_request(v, &id, &client_nonce), client_nonce)),
        Err(e) => Err(e),
    }
}

/// The line that opens a handshake carries no credential.
pub proof fn law_hello_carries_no_credential(v: u64, id: Seq<char>, client_nonce: Seq<u8>)
    ensures
        hello_line(v, id, client_nonce).auth == wire::no_auth(),
{
}

/// What a broker presents in its reply.
pub struct Presented {
    pub public_key: [u8; 32],
    pub server_nonce: [u8; NONCE_LEN],
    pub signature: [u8; 64],
}

/// The mathematical value of [`Presented`].
pub struct PresentedV {
    pub public_key: Seq<u8>,
    pub server_nonce: Seq<u8>,
    pub signature: Seq<u8>,
}

impl View for Presented {
    type V = PresentedV;

    open spec fn view(&self) -> PresentedV {
        PresentedV {
            public_key: self.public_key@,
            server_nonce: self.server_nonce@,
            signature: self.signature@,
        }
    }
}

/// What a result presents, or what it lacks.
pub open spec fn presented(result: JsonV) -> Result<PresentedV, Fault> {
    match (
        broker_identity::hex_field(result.at("public_key"@).text(), 32),
        broker_identity::hex_field(result.at("server_nonce"@).text(), 32),
        broker_identity::hex_field(result.at("signature"@).text(), 64),
    ) {
        (None, _, _) => Err(Fault::BrokerUntrusted("broker handshake presented no public key"@)),
        (_, None, _) => Err(Fault::BrokerUntrusted("broker handshake presented no server nonce"@)),
        (_, _, None) => Err(Fault::BrokerUntrusted("broker handshake presented no signature"@)),
        (Some(public_key), Some(server_nonce), Some(signature)) => Ok(
            PresentedV { public_key, server_nonce, signature },
        ),
    }
}

/// The 64 bytes of a signature.
fn signature_of(b: &[u8]) -> (r: Option<[u8; 64]>)
    ensures
        match r {
            Some(a) => a@ == b@,
            None => b@.len() != 64,
        },
{
    if b.len() != 64 {
        return None;
    }
    let mut out: [u8; 64] = [0u8; 64];
    let mut i: usize = 0;
    while i < 64
        invariant
            b@.len() == 64,
            i <= 64,
            forall|k: int| 0 <= k < i ==> out@[k] == b@[k],
        decreases 64 - i,
    {
        out[i] = b[i];
        i = i + 1;
    }
    proof {
        assert(out@ =~= b@);
    }
    Some(out)
}

fn signature_at(j: &Json, key: &str) -> (r: Option<[u8; 64]>)
    ensures
        match r {
            Some(a) => broker_identity::hex_field(j@.at(key@).text(), 64) == Some(a@),
            None => broker_identity::hex_field(j@.at(key@).text(), 64) is None,
        },
{
    match broker_identity::hex_bytes(j, key) {
        Some(v) => {
            let s = signature_of(v.as_slice());
            proof {
                let b = text::utf8(j@.at(key@).text()->0);
                assert(v@.len() == b.len() / 2 && b.len() % 2 == 0);
            }
            s
        },
        None => None,
    }
}

/// Reads what a result presents.
pub fn parse_presented(result: &Json) -> (r: Result<Presented, VaultError>)
    ensures
        match r {
            Ok(p) => presented(result@) == Ok::<PresentedV, Fault>(p@),
            Err(e) => presented(result@) == Err::<PresentedV, Fault>(e@),
        },
{
    let public_key = match broker_identity::key_at(result, "public_key") {
        Some(k) => k,
        None => {
            return Err(broker_identity::untrusted("broker handshake presented no public key"));
        },
    };
    let server_nonce = match broker_identity::key_at(result, "server_nonce") {
        Some(k) => k,
        None => {
            return Err(broker_identity::untrusted("broker handshake presented no server nonce"));
        },
    };
    let signature = match signature_at(result, "signature") {
        Some(k) => k,
        None => {
            return Err(broker_identity::untrusted("broker handshake presented no signature"));
        },
    };
    Ok(Presented { public_key, server_nonce, signature })
}

// --------------------------------------------------------------------- strict
/// The result of a reply to a strict handshake.
pub open spec fn strict_result(reply: ResponseV, id: Seq<char>) -> Result<JsonV, Fault> {
    if reply.id != id {
        Err(Fault::BrokerUntrusted("broker handshake id mismatch"@))
    } else if !reply.ok {
        Err(Fault::BrokerUntrusted("broker handshake refused"@))
    } else {
        match reply.result {
            Some(r) => Ok(r),
            None => Err(Fault::BrokerUntrusted("broker handshake empty"@)),
        }
    }
}

/// What a strict handshake comes to: the reply, where one could be read, must
/// present a key, verify under it and be the pinned key.
pub open spec fn strict_outcome(
    reply: Option<ResponseV>,
    id: Seq<char>,
    client_nonce: Seq<u8>,
    socket: Seq<u8>,
    cwd: Seq<u8>,
    pin: Result<Option<Seq<u8>>, Fault>,
) -> Result<(), Fault> {
    match reply {
        None => Err(Fault::BrokerUntrusted("broker handshake failed"@)),
        Some(resp) => match strict_result(resp, id) {
            Err(e) => Err(e),
            Ok(result) => match presented(result) {
                Err(e) => Err(e),
                Ok(p) => match broker_identity::hello_fault(
                    p.public_key,
                    client_nonce,
                    p.server_nonce,
                    p.signature,
                    socket,
                    cwd,
                ) {
                    Some(e) => Err(e),
                    None => match broker_identity::pin_decision(
                        pin,
                        p.public_key,
                        true,
                        None,
                        false,
                    ) {
                        Err(e) => Err(as_untrusted(e)),
                        Ok(_) => Ok(()),
                    },
                },
            },
        },
    }
}

/// A failure as one of the broker's identity: whatever kept the identity from
/// being established, the broker is not trusted.
pub open spec fn as_untrusted(f: Fault) -> Fault {
    match f {
        Fault::BrokerUntrusted(_) => f,
        _ => Fault::BrokerUntrusted(f.message()),
    }
}

/// Gives a failure as one of the broker's identity.
pub fn distrust(e: VaultError) -> (r: VaultError)
    ensures
        r@ == as_untrusted(e@),
{
    match e {
        VaultError::BrokerUntrusted(why) => VaultError::BrokerUntrusted(why),
        other => VaultError::BrokerUntrusted(other.message()),
    }
}

/// Decides on the reply to a handshake where no person is there to confirm a
/// key: without a pin it fails.
pub fn handshake_strict(
    reply: Option<Response>,
    id: &str,
    client_nonce: &[u8; NONCE_LEN],
    socket: &[u8],
    cwd: &[u8],
    pin: Result<Option<[u8; 32]>, VaultError>,
) -> (r: Result<(), VaultError>)
    ensures
        ({
            let expected = strict_outcome(
                match reply {
                    Some(resp) => Some(resp@),
                    None => None,
                },
                id@,
                client_nonce@,
                socket@,
                cwd@,
                broker_identity::pin_read(pin),
            );
            match r {
                Ok(_) => expected is Ok,
                Err(e) => expected == Err::<(), Fault>(e@),
            }
        }),
{
    let resp = match reply {
        Some(r) => r,
        None => {
            return Err(broker_identity::untrusted("broker handshake failed"));
        },
    };
    if !text::same(&resp.id, id) {
        return Err(broker_identity::untrusted("broker handshake id mismatch"));
    }
    if !resp.ok {
        return Err(broker_identity::untrusted("broker handshake refused"));
    }
    let result = match resp.result {
        Some(j) => j,
        None => {
            return Err(broker_identity::untrusted("broker handshake empty"));
        },
    };
    let p = match parse_presented(&result) {
        Ok(p) => p,
        Err(e) => {
            return Err(e);
        },
    };
    match broker_identity::verify_hello(
        &p.public_key,
        client_nonce,
        &p.server_nonce,
        &p.signature,
        socket,
        cwd,
    ) {
        Ok(_) => {},
        Err(e) => {
            return Err(e);
        },
    }
    match broker_identity::decide_pin(pin, &p.public_key, true, None, false) {
        Ok(_) => Ok(()),
        Err(e) => Err(distrust(e)),
    }
}

/// A strict handshake succeeds only on the pinned key, and only where that key
/// signed this client's nonce for this socket.
pub proof fn law_strict_handshake_needs_the_pinned_key(
    reply: Option<ResponseV>,
    id: Seq<char>,
    client_nonce: Seq<u8>,
    socket: Seq<u8>,
    cwd: Seq<u8>,
    pin: Result<Option<Seq<u8>>, Fault>,
)
    requires
        strict_outcome(reply, id, client_nonce, socket, cwd, pin) is Ok,
    ensures
        ({
            let p = presented(reply->0.result->0)->Ok_0;
            &&& reply is Some && reply->0.id == id && reply->0.ok
            &&& pin == Ok::<Option<Seq<u8>>, Fault>(Some(p.public_key))
            &&& broker_identity::ed25519_verifies(
                p.public_key,
                broker_identity::hello_message(client_nonce, p.server_nonce, socket, cwd),
                p.signature,
            )
        }),
{
}

/// Without a pin a strict handshake fails whatever the broker presents.
pub proof fn law_strict_handshake_never_trusts_a_stranger(
    reply: Option<ResponseV>,
    id: Seq<char>,
    client_nonce: Seq<u8>,
    socket: Seq<u8>,
    cwd: Seq<u8>,
)
    ensures
        strict_outcome(reply, id, client_nonce, socket, cwd, Ok(None)) is Err,
{
}

/// Whatever a strict handshake fails on, a pin that cannot be read among it, the
/// failure is that the broker is not trusted.
pub proof fn law_strict_failures_are_distrust(
    reply: Option<ResponseV>,
    id: Seq<char>,
    client_nonce: Seq<u8>,
    socket: Seq<u8>,
    cwd: Seq<u8>,
    pin: Result<Option<Seq<u8>>, Fault>,
)
    ensures
        match strict_outcome(reply, id, client_nonce, socket, cwd, pin) {
            Err(f) => f is BrokerUntrusted,
            Ok(_) => true,
        },
{
}

// ---------------------------------------------------------------- interactive
/// The result of a reply to an interactive handshake, whose refusals carry the
/// broker's own words.
pub open spec fn interactive_result(reply: ResponseV, id: Seq<char>) -> Result<JsonV, Fault> {
    if reply.id != id {
        Err(Fault::BrokerUntrusted("broker handshake id mismatch"@))
    } else {
        match (reply.ok, reply.result, reply.error) {
            (true, Some(r), _) => Ok(r),
            (true, None, _) => Err(Fault::BrokerUntrusted("broker handshake empty"@)),
            (false, _, Some(e)) => Err(
                Fault::BrokerUntrusted("broker handshake refused: "@ + e.msg),
            ),
            (false, _, None) => Err(Fault::BrokerUntrusted("broker handshake refused"@)),
        }
    }
}

/// What an interactive handshake comes to: it proceeds on the pinned key, and
/// asks for a person's confirmation on first contact.
pub open spec fn interactive_outcome(
    reply: ResponseV,
    id: Seq<char>,
    client_nonce: Seq<u8>,
    socket: Seq<u8>,
    cwd: Seq<u8>,
    pin: Result<Option<Seq<u8>>, Fault>,
    trust_fingerprint: Option<Seq<u8>>,
) -> Result<PinV, Fault> {
    match interactive_result(reply, id) {
        Err(e) => Err(e),
        Ok(result) => match presented(result) {
            Err(e) => Err(e),
            Ok(p) => if broker_identity::hello_fault(
                p.public_key,
                client_nonce,
                p.server_nonce,
                p.signature,
                socket,
                cwd,
            ) is Some {
                Err(Fault::BrokerUntrusted("broker signature verification failed"@))
            } else {
                broker_identity::pin_decision(pin, p.public_key, true, trust_fingerprint, true)
            },
        },
    }
}

/// Decides on the reply to a handshake with a person at the terminal. On
/// [`PinDecision::NeedHumanConfirm`] the connection asks that person before it
/// pins the key.
pub fn handshake_interactive(
    reply: Response,
    id: &str,
    client_nonce: &[u8; NONCE_LEN],
    socket: &[u8],
    cwd: &[u8],
    pin: Result<Option<[u8; 32]>, VaultError>,
    trust_fingerprint: Option<&[u8; 32]>,
) -> (r: Result<PinDecision, VaultError>)
    ensures
        ({
            let expected = interactive_outcome(
                reply@,
                id@,
                client_nonce@,
                socket@,
                cwd@,
                broker_identity::pin_read(pin),
                broker_identity::opt_key_ref(trust_fingerprint),
            );
            match r {
                Ok(d) => expected == Ok::<PinV, Fault>(d@),
                Err(e) => expected == Err::<PinV, Fault>(e@),
            }
        }),
{
    if !text::same(&reply.id, id) {
        return Err(broker_identity::untrusted("broker handshake id mismatch"));
    }
    let result = match (reply.ok, reply.result, reply.error) {
        (true, Some(j), _) => j,
        (true, None, _) => {
            return Err(broker_identity::untrusted("broker handshake empty"));
        },
        (false, _, Some(e)) => {
            return Err(
                VaultError::BrokerUntrusted(text::joined("broker handshake refused: ", &e.msg)),
            );
        },
        (false, _, None) => {
            return Err(broker_identity::untrusted("broker handshake refused"));
        },
    };
    let p = match parse_presented(&result) {
        Ok(p) => p,
        Err(e) => {
            return Err(e);
        },
    };
    match broker_identity::verify_hello(
        &p.public_key,
        client_nonce,
        &p.server_nonce,
        &p.signature,
        socket,
        cwd,
    ) {
        Ok(_) => {},
        Err(_) => {
            return Err(broker_identity::untrusted("broker signature verification failed"));
        },
    }
    broker_identity::decide_pin(pin, &p.public_key, true, trust_fingerprint, true)
}

/// A person is asked to confirm only a key that signed this client's nonce for
/// this socket, that is not pinned yet, and that is the expected one where an
/// expected fingerprint was given.
pub proof fn law_only_a_signing_key_is_offered(
    reply: ResponseV,
    id: Seq<char>,
    client_nonce: Seq<u8>,
    socket: Seq<u8>,
    cwd: Seq<u8>,
    pin: Result<Option<Seq<u8>>, Fault>,
    trust_fingerprint: Option<Seq<u8>>,
    key: Seq<u8>,
)
    requires
        interactive_outcome(reply, id, client_nonce, socket, cwd, pin, trust_fingerprint)
            == Ok::<PinV, Fault>(PinV::NeedHumanConfirm(key)),
    ensures
        ({
            let p = presented(reply.result->0)->Ok_0;
            &&& p.public_key == key
            &&& pin == Ok::<Option<Seq<u8>>, Fault>(None)
            &&& trust_fingerprint is Some ==> trust_fingerprint == Some(key)
            &&& broker_identity::ed25519_verifies(
                key,
                broker_identity::hello_message(client_nonce, p.server_nonce, socket, cwd),
                p.signature,
            )
        }),
{
}

// ---------------------------------------------------------------------- probe
/// The fingerprint in the reply to a probe.
pub open spec fn probed(reply: ResponseV, id: Seq<char>) -> Result<Seq<char>, Fault> {
    if reply.id != id || !reply.ok {
        Err(Fault::BrokerUntrusted("broker handshake refused"@))
    } else {
        match reply.result {
            None => Err(Fault::BrokerUntrusted("broker handshake empty"@)),
            Some(r) => match r.at("public_key"@).text() {
                Some(k) => Ok(k),
                None => Err(Fault::BrokerUntrusted("broker handshake presented no public key"@)),
            },
        }
    }
}

/// Reads the fingerprint from the reply to a probe, which sends a handshake's
/// line and needs no pin.
pub fn broker_fingerprint_live(reply: Response, id: &str) -> (r: Result<String, VaultError>)
    ensures
        match r {
            Ok(k) => probed(reply@, id@) == Ok::<Seq<char>, Fault>(k@),
            Err(e) => probed(reply@, id@) == Err::<Seq<char>, Fault>(e@),
        },
{
    if !text::same(&reply.id, id) || !reply.ok {
        return Err(broker_identity::untrusted("broker handshake refused"));
    }
    match reply.result {
        None => Err(broker_identity::untrusted("broker handshake empty")),
        Some(j) => match j.text_at("public_key") {
            Some(k) => Ok(k.to_string()),
            None => Err(broker_identity::untrusted("broker handshake presented no public key")),
        },
    }
}

// --------------------------------------------------------------------- server
/// What a broker replies with.
pub open spec fn hello_result(
    private: Seq<u8>,
    server_nonce: Seq<u8>,
    signature: Seq<u8>,
) -> JsonV {
    json::empty_object().with(
        "public_key"@,
        JsonV::Str(crypto::hex_text(broker_identity::public_key_of(private))),
    ).with("server_nonce"@, JsonV::Str(crypto::hex_text(server_nonce))).with(
        "signature"@,
        JsonV::Str(crypto::hex_text(signature)),
    )
}

/// What a broker's reply presents is what it was made of.
pub proof fn law_reply_presents_what_was_signed(
    private: Seq<u8>,
    server_nonce: Seq<u8>,
    signature: Seq<u8>,
)
    requires
        server_nonce.len() == NONCE_LEN,
        signature.len() == 64,
    ensures
        presented(hello_result(private, server_nonce, signature)) == Ok::<PresentedV, Fault>(
            PresentedV {
                public_key: broker_identity::public_key_of(private),
                server_nonce,
                signature,
            },
        ),
{
    reveal_strlit("public_key");
    reveal_strlit("server_nonce");
    reveal_strlit("signature");
    assert("public_key"@.len() == 10 && "server_nonce"@.len() == 12 && "signature"@.len() == 9);
    let key = broker_identity::public_key_of(private);
    let k = JsonV::Str(crypto::hex_text(key));
    let n = JsonV::Str(crypto::hex_text(server_nonce));
    let s = JsonV::Str(crypto::hex_text(signature));
    let members = Seq::empty().push(("public_key"@, k)).push(("server_nonce"@, n)).push(
        ("signature"@, s),
    );
    assert(hello_result(private, server_nonce, signature) == JsonV::Object(members));
    let rest = seq![("server_nonce"@, n), ("signature"@, s)];
    assert(members.drop_first() =~= rest);
    assert(rest.drop_first() =~= seq![("signature"@, s)]);
    reveal_with_fuel(json::member, 4);
    crypto::law_unhex_undoes_hex(key);
    crypto::lemma_hex_lower(key);
    crypto::law_unhex_undoes_hex(server_nonce);
    crypto::lemma_hex_lower(server_nonce);
    crypto::law_unhex_undoes_hex(signature);
    crypto::lemma_hex_lower(signature);
}

/// What stands for a value stands for all of it, part by part.
pub proof fn law_the_view_of_presented_is_faithful(x: Presented)
    ensures
        x@.public_key == x.public_key@,
        x@.server_nonce == x.server_nonce@,
        x@.signature == x.signature@,
{
}

} // verus!
