//! An honest broker is recognised: what it answers to a greeting is what a client takes.

use vstd::prelude::*;

use crate::broker::daemon;
use crate::broker_identity::handshake::{self, PresentedV};
use crate::broker_identity::{self, PinV};
use crate::crypto;
use crate::error::Fault;
use crate::json::{self, JsonV};
use crate::paths;
use crate::text;
use crate::wire::{self, RequestV, ResponseV};

verus! {

proof fn lemma_names_differ()
    ensures
        "public_key"@.len() == 10,
        "server_nonce"@.len() == 12,
        "signature"@.len() == 9,
{
    reveal_strlit("public_key");
    reveal_strlit("server_nonce");
    reveal_strlit("signature");
}

/// The answer of the broker with `private` to a client's greeting.
pub open spec fn answered(
    v: u64,
    id: Seq<char>,
    client_nonce: Seq<u8>,
    private: Seq<u8>,
    server_nonce: Seq<u8>,
    socket: Seq<u8>,
    cwd: Seq<u8>,
) -> ResponseV {
    daemon::hello_answer(
        handshake::hello_line(v, id, client_nonce),
        private,
        server_nonce,
        socket,
        cwd,
    )
}

/// A broker greets back with its public key, the nonce it drew and its signature over both
/// nonces and its socket.
pub proof fn law_a_broker_greets_back(
    v: u64,
    id: Seq<char>,
    client_nonce: Seq<u8>,
    private: Seq<u8>,
    server_nonce: Seq<u8>,
    socket: Seq<u8>,
    cwd: Seq<u8>,
)
    requires
        client_nonce.len() == 32,
        server_nonce.len() == 32,
    ensures
        ({
            let r = answered(v, id, client_nonce, private, server_nonce, socket, cwd);
            &&& r.id == id
            &&& r.ok
            &&& r.error is None
            &&& r.result is Some
            &&& handshake::presented(r.result->0) == Ok::<PresentedV, Fault>(
                PresentedV {
                    public_key: broker_identity::public_key_of(private),
                    server_nonce,
                    signature: broker_identity::ed25519_signature(
                        private,
                        text::utf8(broker_identity::DOMAIN@) + client_nonce + server_nonce
                            + paths::canonical(socket, cwd),
                    )@,
                },
            )
            &&& handshake::probed(r, id) == Ok::<Seq<char>, Fault>(
                crypto::hex_text(broker_identity::public_key_of(private)),
            )
        }),
{
    broadcast use json::lemma_with_get;

    lemma_names_differ();
    assert(forall|key: Seq<char>| json::empty_object().get(key) is None);
    crypto::law_unhex_undoes_hex(client_nonce);
    crypto::lemma_hex_bytes(client_nonce);
    let signature = broker_identity::hello_signature(
        private,
        client_nonce,
        server_nonce,
        socket,
        cwd,
    );
    let hello = handshake::hello_line(v, id, client_nonce);
    assert(hello.params.at("client_nonce"@) == JsonV::Str(crypto::hex_text(client_nonce)));
    assert(daemon::hello_nonce(hello) == Some(client_nonce));
    handshake::law_reply_presents_what_was_signed(private, server_nonce, signature);
}

/// The broker whose key is pinned is trusted, where its signature verifies under its key;
/// the broker of a socket without a pin is offered for confirmation to a person, and where
/// another key was expected it is not.
pub proof fn law_an_honest_broker_is_trusted(
    v: u64,
    id: Seq<char>,
    client_nonce: Seq<u8>,
    private: Seq<u8>,
    server_nonce: Seq<u8>,
    socket: Seq<u8>,
    spelling: Seq<u8>,
    cwd: Seq<u8>,
    other: Seq<u8>,
)
    requires
        client_nonce.len() == 32,
        server_nonce.len() == 32,
        paths::canonical(spelling, cwd) == paths::canonical(socket, cwd),
        ({
            let key = broker_identity::public_key_of(private);
            let message = broker_identity::hello_message(client_nonce, server_nonce, socket, cwd);
            &&& broker_identity::ed25519_well_formed(key)
            &&& broker_identity::ed25519_verifies(
                key,
                message,
                broker_identity::ed25519_signature(private, message)@,
            )
            &&& other != key
        }),
    ensures
        ({
            let key = broker_identity::public_key_of(private);
            let r = answered(v, id, client_nonce, private, server_nonce, socket, cwd);
            &&& handshake::strict_outcome(
                Some(r),
                id,
                client_nonce,
                spelling,
                cwd,
                Ok(Some(key)),
            ) == Ok::<(), Fault>(())
            &&& handshake::interactive_outcome(
                r,
                id,
                client_nonce,
                spelling,
                cwd,
                Ok(Some(key)),
                None,
            ) == Ok::<PinV, Fault>(PinV::Proceed(key))
            &&& handshake::interactive_outcome(
                r,
                id,
                client_nonce,
                spelling,
                cwd,
                Ok(None),
                None,
            ) == Ok::<PinV, Fault>(PinV::NeedHumanConfirm(key))
            &&& handshake::interactive_outcome(
                r,
                id,
                client_nonce,
                spelling,
                cwd,
                Ok(None),
                Some(key),
            ) == Ok::<PinV, Fault>(PinV::NeedHumanConfirm(key))
            &&& handshake::interactive_outcome(
                r,
                id,
                client_nonce,
                spelling,
                cwd,
                Ok(None),
                Some(other),
            ) is Err
            &&& handshake::strict_outcome(
                Some(r),
                id,
                client_nonce,
                spelling,
                cwd,
                Ok(Some(other)),
            ) is Err
        }),
{
    law_a_broker_greets_back(v, id, client_nonce, private, server_nonce, socket, cwd);
    let r = answered(v, id, client_nonce, private, server_nonce, socket, cwd);
    let message = broker_identity::hello_message(client_nonce, server_nonce, socket, cwd);
    assert(broker_identity::hello_message(client_nonce, server_nonce, spelling, cwd) == message);
    assert(handshake::strict_result(r, id) == Ok::<JsonV, Fault>(r.result->0));
    assert(handshake::interactive_result(r, id) == Ok::<JsonV, Fault>(r.result->0));
}

/// A greeting without a proper nonce is answered with its refusal.
pub proof fn law_a_bad_greeting_is_refused(
    req: RequestV,
    private: Seq<u8>,
    server_nonce: Seq<u8>,
    socket: Seq<u8>,
    cwd: Seq<u8>,
)
    requires
        !(req.params.at("client_nonce"@) is Str),
    ensures
        daemon::hello_answer(req, private, server_nonce, socket, cwd) == wire::err_response(
            req.id,
            "E_PROTOCOL"@,
            "broker.hello needs a 32-byte hex client_nonce"@,
        ),
{
}

/// A greeting is the handshake line with the client's nonce, and nothing else.
pub proof fn law_a_greeting_is_the_handshake_line(v: u64, id: Seq<char>, client_nonce: Seq<u8>)
    ensures
        handshake::hello_line(v, id, client_nonce) == (RequestV {
            v,
            id,
            op: "broker.hello"@,
            auth: wire::no_auth(),
            params: json::empty_object().with(
                "client_nonce"@,
                JsonV::Str(crypto::hex_text(client_nonce)),
            ),
        }),
{
}

/// Each failure of a handshake is told as what it is.
pub proof fn law_failed_handshakes_say_why(
    reply: ResponseV,
    id: Seq<char>,
    client_nonce: Seq<u8>,
    socket: Seq<u8>,
    cwd: Seq<u8>,
    pin: Result<Option<Seq<u8>>, Fault>,
)
    ensures
        handshake::strict_outcome(None, id, client_nonce, socket, cwd, pin) == Err::<(), Fault>(
            Fault::BrokerUntrusted("broker handshake failed"@),
        ),
        reply.id != id ==> handshake::strict_outcome(
            Some(reply),
            id,
            client_nonce,
            socket,
            cwd,
            pin,
        ) == Err::<(), Fault>(Fault::BrokerUntrusted("broker handshake id mismatch"@)),
        reply.id == id && !reply.ok ==> handshake::strict_outcome(
            Some(reply),
            id,
            client_nonce,
            socket,
            cwd,
            pin,
        ) == Err::<(), Fault>(Fault::BrokerUntrusted("broker handshake refused"@)),
        reply.id == id && reply.ok && reply.result is None ==> handshake::strict_outcome(
            Some(reply),
            id,
            client_nonce,
            socket,
            cwd,
            pin,
        ) == Err::<(), Fault>(Fault::BrokerUntrusted("broker handshake empty"@)),
        reply.id == id && !reply.ok && reply.error is Some ==> handshake::interactive_result(
            reply,
            id,
        ) == Err::<JsonV, Fault>(
            Fault::BrokerUntrusted("broker handshake refused: "@ + reply.error->0.msg),
        ),
{
}

/// A base and a name below it, with one separator between them.
pub open spec fn below(base: Seq<char>, name: Seq<char>) -> Seq<char> {
    if base.len() > 0 && base.last() != '/' {
        base + "/"@ + name
    } else {
        base + name
    }
}

/// Pins are kept in the user's data directory, or else below the home directory, and
/// nowhere where there is neither.
pub proof fn law_pins_are_kept_in_the_users_data(
    data: Seq<char>,
    home: Seq<char>,
    any: Option<Seq<char>>,
)
    ensures
        data.len() > 0 ==> broker_identity::pin_directory(Some(data), any) == Some(
            below(below(data, "svault"@), "pins"@),
        ),
        broker_identity::pin_directory(None, Some(home)) == Some(
            below(below(below(home, ".local/share"@), "svault"@), "pins"@),
        ),
        broker_identity::pin_directory(Some(Seq::empty()), Some(home))
            == broker_identity::pin_directory(None, Some(home)),
        broker_identity::pin_directory(None, None) is None,
        broker_identity::pin_directory(Some(Seq::empty()), None) is None,
{
    reveal_strlit("svault");
    reveal_strlit("pins");
    reveal_strlit(".local/share");
    assert(Seq::<char>::empty() + ".local/share"@ =~= ".local/share"@);
    assert(Seq::<char>::empty() + "svault"@ =~= "svault"@);
}

/// The identity of a broker stands beside its vault under the vault's name.
pub proof fn law_identities_stand_beside_their_vault(
    folder: Seq<Seq<u8>>,
    name: Seq<u8>,
)
    requires
        paths::all_names(folder),
        paths::is_name(name),
    ensures
        broker_identity::identity_name(paths::laws::descent(folder) + seq![paths::SLASH] + name)
            == text::utf8(broker_identity::lossy_text(name) + ".broker-id"@),
        broker_identity::identity_name(Seq::empty()) == text::utf8("vault.enc"@ + ".broker-id"@),
{
    paths::laws::law_file_names_are_last_and_can_be_replaced(folder, name, name);
    let none = Seq::<u8>::empty();
    assert(paths::trimmed(none) =~= none);
    assert(none.skip(0) =~= none);
}

/// A pin is taken for the socket that it was stored for, and for no other one; a pin that
/// cannot be read is corrupt, and an old one is the bare key.
pub proof fn law_pins_are_for_their_socket(
    bytes: Seq<u8>,
    canon: Seq<u8>,
    key: Seq<u8>,
    stored: Seq<char>,
    key_hex: Option<Seq<char>>,
)
    requires
        key.len() == 32,
        !broker_identity::is_bare_pin(bytes),
    ensures
        broker_identity::pinned_key(
            bytes,
            Some(broker_identity::lossy_text(canon)),
            Some(crypto::hex_text(key)),
            canon,
        ) == Ok::<Seq<u8>, Fault>(key),
        stored != broker_identity::lossy_text(canon) ==> broker_identity::pinned_key(
            bytes,
            Some(stored),
            key_hex,
            canon,
        ) == Err::<Seq<u8>, Fault>(
            Fault::BrokerUntrusted(
                "broker pin is for a different socket path; refusing to send credentials (re-pin this exact path at a TTY)"@,
            ),
        ),
        broker_identity::pinned_key(bytes, None, key_hex, canon) == Err::<Seq<u8>, Fault>(
            Fault::BrokerUntrusted("broker pin file is corrupt; delete it and re-pin at a TTY"@),
        ),
        key[0] != 123 ==> broker_identity::pinned_key(key, None, None, canon) == Ok::<
            Seq<u8>,
            Fault,
        >(key),
{
    crypto::law_unhex_undoes_hex(key);
    crypto::lemma_hex_bytes(key);
}

/// What keeps a broker from being trusted is said: a key or a signature that is not one, a
/// pin of another key, a fingerprint that was not expected, and the want of a person.
pub proof fn law_distrust_says_why(
    reply: ResponseV,
    id: Seq<char>,
    key: Seq<u8>,
    other: Seq<u8>,
    signature: Seq<u8>,
    client_nonce: Seq<u8>,
    server_nonce: Seq<u8>,
    socket: Seq<u8>,
    cwd: Seq<u8>,
    interactive: bool,
    f: Fault,
)
    requires
        key != other,
    ensures
        reply.id != id ==> handshake::interactive_result(reply, id) == Err::<JsonV, Fault>(
            Fault::BrokerUntrusted("broker handshake id mismatch"@),
        ),
        reply.id == id && reply.ok && reply.result is None ==> handshake::interactive_result(
            reply,
            id,
        ) == Err::<JsonV, Fault>(Fault::BrokerUntrusted("broker handshake empty"@)),
        reply.id == id && !reply.ok && reply.error is None ==> handshake::interactive_result(
            reply,
            id,
        ) == Err::<JsonV, Fault>(Fault::BrokerUntrusted("broker handshake refused"@)),
        ({
            let fault = broker_identity::hello_fault(
                key,
                client_nonce,
                server_nonce,
                signature,
                socket,
                cwd,
            );
            &&& !broker_identity::ed25519_well_formed(key) ==> fault == Some(
                Fault::BrokerUntrusted("broker public key is malformed"@),
            )
            &&& broker_identity::ed25519_well_formed(key) && !broker_identity::ed25519_verifies(
                key,
                broker_identity::hello_message(client_nonce, server_nonce, socket, cwd),
                signature,
            ) ==> fault == Some(Fault::BrokerUntrusted("broker signature verification failed"@))
        }),
        broker_identity::pin_decision(Err(f), key, true, None, interactive) == Err::<PinV, Fault>(f),
        broker_identity::pin_decision(Ok(Some(other)), key, true, None, interactive) == Err::<
            PinV,
            Fault,
        >(
            Fault::BrokerUntrusted(
                "broker identity does not match the pinned key; refusing to send credentials (run `svault trust show` to compare, `trust reset` + re-pin after investigation)"@,
            ),
        ),
        broker_identity::pin_decision(Ok(None), key, false, None, interactive) == Err::<PinV, Fault>(
            Fault::BrokerUntrusted("broker signature verification failed"@),
        ),
        broker_identity::pin_decision(Ok(None), key, true, Some(other), interactive) == Err::<
            PinV,
            Fault,
        >(
            Fault::BrokerUntrusted(
                "broker fingerprint does not match --trust-fingerprint; refusing to send credentials"@,
            ),
        ),
        broker_identity::pin_decision(Ok(None), key, true, None, false) == Err::<PinV, Fault>(
            Fault::BrokerUntrusted(
                "no pinned broker identity for this socket; refusing to send credentials (a human must pin once at a TTY: run any svault command interactively, verify the fingerprint out-of-band, answer `yes`)"@,
            ),
        ),
{
}

/// A greeting that presents less than a key, a nonce and a signature says which is missing.
pub proof fn law_incomplete_greetings_say_what_is_missing(result: JsonV, reply: ResponseV, id: Seq<char>)
    ensures
        !(result.at("public_key"@) is Str) ==> handshake::presented(result) == Err::<
            PresentedV,
            Fault,
        >(Fault::BrokerUntrusted("broker handshake presented no public key"@)),
        broker_identity::hex_field(result.at("public_key"@).text(), 32) is Some && !(result.at(
            "server_nonce"@,
        ) is Str) ==> handshake::presented(result) == Err::<PresentedV, Fault>(
            Fault::BrokerUntrusted("broker handshake presented no server nonce"@),
        ),
        broker_identity::hex_field(result.at("public_key"@).text(), 32) is Some
            && broker_identity::hex_field(result.at("server_nonce"@).text(), 32) is Some && !(
        result.at("signature"@) is Str) ==> handshake::presented(result) == Err::<
            PresentedV,
            Fault,
        >(Fault::BrokerUntrusted("broker handshake presented no signature"@)),
        reply.id != id || !reply.ok ==> handshake::probed(reply, id) == Err::<Seq<char>, Fault>(
            Fault::BrokerUntrusted("broker handshake refused"@),
        ),
        reply.id == id && reply.ok && reply.result is None ==> handshake::probed(reply, id)
            == Err::<Seq<char>, Fault>(Fault::BrokerUntrusted("broker handshake empty"@)),
{
}

/// A failure of an agent's handshake is distrust, with its message.
pub proof fn law_failures_become_distrust(f: Fault)
    ensures
        handshake::as_untrusted(f) == (if f is BrokerUntrusted {
            f
        } else {
            Fault::BrokerUntrusted(f.message())
        }),
{
}

} // verus!
