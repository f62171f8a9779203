use svault::broker::daemon::{Daemon, DaemonConfig};
use svault::broker_identity::handshake::{
    broker_fingerprint_live, fresh_hello, handshake_interactive, handshake_strict, hello_request,
    parse_presented,
};
use svault::broker_identity::{
    canonical_socket_path, decide_pin, default_socket_path, fingerprint, identity_path, load_pin,
    parse_fingerprint, pin_dir, pin_document, pin_file_name, read_pin, signed_message,
    verify_hello, BrokerIdentity, PinDecision,
};
use svault::cli::errand::{Act, Errand, Event};
use svault::cli::Command;
use svault::client::connection::{
    call_error, connect_error, ConnAct, Connection, Gate, Happened,
};
use svault::client::{Auth, ConnectOptions, TrustMode};
use svault::crypto::{hex, SecretText};
use svault::error::{IoFailure, VaultError};
use svault::json::Json;
use svault::wire::Response;

const SOCKET: &[u8] = b"/run/svault.sock";

fn identity(seed: u8) -> BrokerIdentity {
    BrokerIdentity::load(&[seed; 32]).ok().unwrap()
}

fn daemon(seed: u8) -> Daemon {
    let config = DaemonConfig {
        socket_path: SOCKET.to_vec(),
        vault_path: b"/data/vault.enc".to_vec(),
        idle_lock: 60,
    };
    Daemon::new(config, identity(seed))
}

/// What a daemon answers to a client nonce.
fn answer(seed: u8, nonce: &[u8; 32]) -> Response {
    let req = hello_request(1, "h1", nonce);
    daemon(seed).answer_hello_with(&req, &[9; 32], b"/")
}

#[test]
fn the_public_key_is_that_of_ed25519() {
    let mut seed = [0u8; 32];
    let text = "9d61b19deffd5a60ba844af492ec2cc44449c5697b326919703bac031cae7f60";
    for i in 0..32 {
        seed[i] = u8::from_str_radix(&text[2 * i..2 * i + 2], 16).unwrap();
    }
    let id = BrokerIdentity::load(&seed).ok().unwrap();
    assert_eq!(
        fingerprint(&id.public_key()),
        "d75a980182b10ab7d54bfed3c964073a0ee172f3daa62325af021a68f707511a"
    );
    assert_eq!(id.to_bytes(), seed);
}

#[test]
fn identities_have_thirty_two_bytes() {
    assert_eq!(BrokerIdentity::load(&[1; 31]).err().unwrap().code(), "E_VAULT_CORRUPT");
    let a = BrokerIdentity::generate().ok().unwrap();
    let b = BrokerIdentity::generate().ok().unwrap();
    assert_ne!(a.public_key(), b.public_key());
}

#[test]
fn fingerprints_read_back() {
    let key = [0xab; 32];
    assert_eq!(fingerprint(&key), "ab".repeat(32));
    assert_eq!(parse_fingerprint(&fingerprint(&key)).unwrap(), key);
    for bad in ["ab", "", &"AB".repeat(32), &"zz".repeat(32), &"ab".repeat(33)] {
        assert_eq!(parse_fingerprint(bad).err().unwrap().code(), "E_INVALID_INPUT", "{bad}");
    }
}

#[test]
fn a_signature_holds_for_its_handshake_alone() {
    let id = identity(1);
    let key = id.public_key();
    let signature = id.hello_with(&[2; 32], &[3; 32], SOCKET, b"/");
    assert!(verify_hello(&key, &[2; 32], &[3; 32], &signature, SOCKET, b"/").is_ok());
    assert!(verify_hello(&key, &[4; 32], &[3; 32], &signature, SOCKET, b"/").is_err());
    assert!(verify_hello(&key, &[2; 32], &[4; 32], &signature, SOCKET, b"/").is_err());
    assert!(verify_hello(&key, &[2; 32], &[3; 32], &signature, b"/run/other.sock", b"/").is_err());
    let other = identity(2).public_key();
    assert!(verify_hello(&other, &[2; 32], &[3; 32], &signature, SOCKET, b"/").is_err());
    let mut forged = signature;
    forged[5] ^= 1;
    assert!(verify_hello(&key, &[2; 32], &[3; 32], &forged, SOCKET, b"/").is_err());
    let (nonce, signature) = id.hello_reply(&[2; 32], SOCKET, b"/").ok().unwrap();
    assert!(verify_hello(&key, &[2; 32], &nonce, &signature, SOCKET, b"/").is_ok());
}

#[test]
fn signed_messages_hold_every_part() {
    let m = signed_message(&[2; 32], &[3; 32], SOCKET, b"/");
    assert!(m.starts_with(b"svault/broker-hello/v1"));
    assert!(m.ends_with(SOCKET));
    assert!(m.windows(32).any(|w| w == [2; 32]));
    assert!(m.windows(32).any(|w| w == [3; 32]));
    assert_eq!(signed_message(&[2; 32], &[3; 32], b"svault.sock", b"/run"), m);
}

#[test]
fn paths_of_the_broker() {
    assert_eq!(default_socket_path(Some("/run/user/1")).unwrap(), "/run/user/1/svault/svault.sock");
    assert!(default_socket_path(None).is_err());
    assert_eq!(pin_dir(Some("/data"), None).unwrap(), "/data/svault/pins");
    assert_eq!(
        pin_dir(None, Some("/home/u")).unwrap(),
        "/home/u/.local/share/svault/pins"
    );
    assert!(pin_dir(None, None).is_err());
    assert_eq!(identity_path(b"/data/vault.enc"), b"/data/vault.enc.broker-id");
    assert_eq!(canonical_socket_path(b"a/./b", b"/c"), b"/c/a/b");
    for p in ["/a/./b", "/a//b/", "/a/x/../b", "/../a/b"] {
        assert_eq!(canonical_socket_path(p.as_bytes(), b"/c"), b"/a/b");
    }
    let name = pin_file_name(SOCKET, b"/");
    assert_eq!(name, pin_file_name(b"svault.sock", b"/run"));
    assert_ne!(name, pin_file_name(b"/run/other.sock", b"/"));
}

#[test]
fn pins_decide() {
    let a = [1u8; 32];
    let b = [2u8; 32];
    assert_eq!(
        decide_pin(Ok(Some(a)), &a, true, None, false).unwrap(),
        PinDecision::Proceed(a)
    );
    assert!(decide_pin(Ok(Some(a)), &b, true, None, true).is_err());
    assert!(decide_pin(Ok(Some(a)), &a, false, None, true).is_err());
    assert!(decide_pin(Ok(None), &a, true, None, false).is_err());
    assert!(decide_pin(Ok(None), &a, true, Some(&a), false).is_err());
    assert_eq!(
        decide_pin(Ok(None), &a, true, None, true).unwrap(),
        PinDecision::NeedHumanConfirm(a)
    );
    assert!(decide_pin(Ok(None), &a, true, Some(&b), true).is_err());
    assert!(decide_pin(Err(VaultError::Auth), &a, true, None, true).is_err());
}

#[test]
fn stored_pins_read_back() {
    let key = identity(4).public_key();
    let file = pin_document(SOCKET, b"/", &key);
    assert_eq!(load_pin(Some(&file), SOCKET, b"/").unwrap(), Some(key));
    let spelled = [b"/." as &[u8], SOCKET].concat();
    assert_eq!(load_pin(Some(&file), &spelled, b"/").unwrap(), Some(key));
    let v: serde_json::Value = serde_json::from_slice(&file).unwrap();
    assert_eq!(serde_json::to_vec(&v).unwrap(), file);
    assert_eq!(load_pin(None, SOCKET, b"/").unwrap(), None);
    assert!(load_pin(Some(&file), b"/run/other.sock", b"/").is_err());
    assert!(load_pin(Some(b"garbage"), SOCKET, b"/").is_err());
    assert!(load_pin(Some(b"{\"socket\":1}"), SOCKET, b"/").is_err());
    assert_eq!(load_pin(Some(&[9; 32]), SOCKET, b"/").unwrap(), Some([9; 32]));
    let text = String::from_utf8(SOCKET.to_vec()).unwrap();
    assert_eq!(read_pin(b"{}", Some(&text), Some(&hex(&key)), SOCKET, b"/").unwrap(), key);
    assert!(read_pin(b"{}", Some(&text), Some("00"), SOCKET, b"/").is_err());
    assert!(read_pin(b"{}", None, Some(&hex(&key)), SOCKET, b"/").is_err());
}

#[test]
fn paths_that_are_not_text_are_still_stored() {
    let key = identity(4).public_key();
    let socket = b"/run/\xff.sock";
    let doc = pin_document(socket, b"/", &key);
    let text = String::from_utf8(doc).unwrap();
    assert!(text.contains('\u{fffd}'), "{text}");
}

#[test]
fn strict_handshakes_need_the_pinned_key() {
    let nonce = [5u8; 32];
    let reply = || Some(answer(1, &nonce));
    let pinned = identity(1).public_key();
    assert!(handshake_strict(reply(), "h1", &nonce, SOCKET, b"/", Ok(Some(pinned))).is_ok());
    let other = identity(2).public_key();
    assert!(handshake_strict(reply(), "h1", &nonce, SOCKET, b"/", Ok(Some(other))).is_err());
    assert_eq!(
        handshake_strict(reply(), "h1", &nonce, SOCKET, b"/", Ok(None)).err().unwrap().code(),
        "E_BROKER_UNTRUSTED"
    );
    assert!(handshake_strict(reply(), "h2", &nonce, SOCKET, b"/", Ok(Some(pinned))).is_err());
    assert!(handshake_strict(reply(), "h1", &[6; 32], SOCKET, b"/", Ok(Some(pinned))).is_err());
    assert!(handshake_strict(None, "h1", &nonce, SOCKET, b"/", Ok(Some(pinned))).is_err());
    let unread = Err(VaultError::Io(IoFailure { os_code: None, text: "gone".to_string() }));
    let e = handshake_strict(reply(), "h1", &nonce, SOCKET, b"/", unread).err().unwrap();
    assert_eq!(e.code(), "E_BROKER_UNTRUSTED");
    assert!(e.message().contains("gone"));
}

#[test]
fn interactive_handshakes_ask_a_person() {
    let nonce = [5u8; 32];
    let key = identity(1).public_key();
    assert_eq!(
        handshake_interactive(answer(1, &nonce), "h1", &nonce, SOCKET, b"/", Ok(None), None)
            .unwrap(),
        PinDecision::NeedHumanConfirm(key)
    );
    assert_eq!(
        handshake_interactive(answer(1, &nonce), "h1", &nonce, SOCKET, b"/", Ok(Some(key)), None)
            .unwrap(),
        PinDecision::Proceed(key)
    );
    assert_eq!(broker_fingerprint_live(answer(1, &nonce), "h1").unwrap(), fingerprint(&key));
    assert!(broker_fingerprint_live(answer(1, &nonce), "h2").is_err());
}

#[test]
fn a_hello_carries_its_nonce_alone() {
    let (req, nonce) = fresh_hello(1).ok().unwrap();
    assert_eq!(req.op, "broker.hello");
    assert!(req.auth.is_none());
    assert_eq!(req.params.text_at("client_nonce"), Some(hex(&nonce).as_str()));
    let (_, again) = fresh_hello(1).ok().unwrap();
    assert_ne!(nonce, again);
    let result = daemon(1).answer_hello(&req, b"/").result.unwrap();
    let p = parse_presented(&result).ok().unwrap();
    assert_eq!(p.public_key, identity(1).public_key());
    assert!(verify_hello(&p.public_key, &nonce, &p.server_nonce, &p.signature, SOCKET, b"/").is_ok());
    assert!(parse_presented(&Json::object()).is_err());
}

#[test]
fn a_hello_without_a_nonce_is_refused() {
    let mut req = hello_request(1, "h1", &[5; 32]);
    req.params = Json::object();
    let response = daemon(1).answer_hello(&req, b"/");
    assert_eq!(response.error.unwrap().code, "E_PROTOCOL");
    let d = daemon(1);
    assert_eq!(d.broker_public_key(), identity(1).public_key());
    let (nonce, signature) = d.hello_for_test(&[5; 32], SOCKET, b"/").ok().unwrap();
    let key = identity(1).public_key();
    assert!(verify_hello(&key, &[5; 32], &nonce, &signature, SOCKET, b"/").is_ok());
    let spelled = [b"/x/.." as &[u8], SOCKET].concat();
    assert!(verify_hello(&key, &[5; 32], &nonce, &signature, &spelled, b"/").is_ok());
    assert!(verify_hello(&key, &[6; 32], &nonce, &signature, SOCKET, b"/").is_err());
    assert!(verify_hello(&key, &[5; 32], &nonce, &signature, b"/run/b.sock", b"/").is_err());
}

const NONCE: [u8; 32] = [5; 32];

fn connection(trust: TrustMode, trust_fingerprint: Option<[u8; 32]>) -> Connection {
    Connection::new(ConnectOptions { trust, trust_fingerprint }, 1, SOCKET, b"/")
}

fn drawn() -> Happened {
    Happened::Drawn { id: "h1".to_string(), nonce: NONCE }
}

/// Takes a connection up to the point where its pin is to be read.
fn greeted(c: &mut Connection, seed: u8) {
    assert!(matches!(c.step(Happened::Done), ConnAct::CheckServer));
    assert!(matches!(c.step(Happened::Done), ConnAct::SetTimeouts));
    assert!(matches!(c.step(Happened::Done), ConnAct::Draw));
    match c.step(drawn()) {
        ConnAct::Send(hello) => {
            assert_eq!(hello.op, "broker.hello");
            assert!(hello.auth.is_none());
        }
        _ => panic!("no hello"),
    }
    assert!(c.request("q1", "vault.status", &Auth::Anonymous, Json::object()).is_none());
    assert!(matches!(c.step(Happened::Done), ConnAct::ReadReply));
    assert!(matches!(c.step(Happened::Replied(answer(seed, &NONCE))), ConnAct::ReadPin));
    assert!(!c.is_trusted());
}

#[test]
fn requests_leave_only_a_trusted_connection() {
    let mut c = connection(TrustMode::NonInteractive, None);
    greeted(&mut c, 1);
    let pin = Ok(Some(identity(1).public_key()));
    assert!(matches!(c.step(Happened::Pin(pin)), ConnAct::Ready));
    assert!(c.is_trusted());
    let session = Auth::Session("c".to_string());
    let q = c.request("q1", "vault.status", &session, Json::object()).unwrap();
    assert_eq!((q.id.as_str(), q.op.as_str(), q.v), ("q1", "vault.status", 1));
    assert_eq!(q.session(), Some("c"));
    let wanted = Happened::Wanted {
        id: "q2".to_string(),
        op: "vault.lock".to_string(),
        auth: Auth::Anonymous,
        params: Json::object(),
    };
    assert!(matches!(c.step(wanted), ConnAct::Send(q) if q.id == "q2"));
}

#[test]
fn what_is_wanted_before_trust_ends_the_connection() {
    let mut c = connection(TrustMode::NonInteractive, None);
    greeted(&mut c, 1);
    let wanted = Happened::Wanted {
        id: "q1".to_string(),
        op: "vault.create".to_string(),
        auth: Auth::Anonymous,
        params: Json::object(),
    };
    assert!(matches!(c.step(wanted), ConnAct::Stop));
    assert!(matches!(
        c.step(Happened::Pin(Ok(Some(identity(1).public_key())))),
        ConnAct::Stop
    ));
    assert!(!c.is_trusted());
}

#[test]
fn a_wrong_pin_refuses_the_connection_for_good() {
    let mut c = connection(TrustMode::NonInteractive, None);
    greeted(&mut c, 1);
    match c.step(Happened::Pin(Ok(Some(identity(2).public_key())))) {
        ConnAct::Refuse(Gate::Handshake, e) => assert_eq!(e.code(), "E_BROKER_UNTRUSTED"),
        _ => panic!("trusted"),
    }
    assert!(matches!(c.step(Happened::Done), ConnAct::Stop));
}

#[test]
fn a_pin_is_written_only_after_a_yes() {
    let key = identity(1).public_key();
    let mut c = connection(TrustMode::Interactive, Some(key));
    greeted(&mut c, 1);
    assert!(matches!(c.step(Happened::Pin(Ok(None))), ConnAct::Ask(k) if k == key));
    match c.step(Happened::Answered(Some(" yes\n".to_string()))) {
        ConnAct::StorePin(file) => assert_eq!(file, pin_document(SOCKET, b"/", &key)),
        _ => panic!("no pin"),
    }
    assert!(!c.is_trusted());
    assert!(matches!(c.step(Happened::Done), ConnAct::Ready));
    for answer in [Some("y".to_string()), None] {
        let mut c = connection(TrustMode::Interactive, None);
        greeted(&mut c, 1);
        assert!(matches!(c.step(Happened::Pin(Ok(None))), ConnAct::Ask(_)));
        assert!(matches!(
            c.step(Happened::Answered(answer)),
            ConnAct::Refuse(Gate::Handshake, VaultError::BrokerUntrusted(_))
        ));
    }
    let mut c = connection(TrustMode::NonInteractive, None);
    greeted(&mut c, 1);
    assert!(matches!(c.step(Happened::Pin(Ok(None))), ConnAct::Refuse(Gate::Handshake, _)));
}

#[test]
fn an_unwritten_pin_gives_no_trust() {
    let mut c = connection(TrustMode::Interactive, None);
    greeted(&mut c, 1);
    c.step(Happened::Pin(Ok(None)));
    c.step(Happened::Answered(Some("yes".to_string())));
    let full = VaultError::Io(IoFailure { os_code: Some(28), text: "full".to_string() });
    assert!(matches!(c.step(Happened::Failed(full)), ConnAct::Refuse(Gate::Handshake, _)));
    assert!(!c.is_trusted());
}

#[test]
fn each_gate_reports_its_own_refusal() {
    let gone = || VaultError::Io(IoFailure { os_code: Some(2), text: "gone".to_string() });
    let mut c = connection(TrustMode::NonInteractive, None);
    assert!(matches!(c.step(Happened::Failed(gone())), ConnAct::Refuse(Gate::Socket, _)));
    let mut c = connection(TrustMode::NonInteractive, None);
    c.step(Happened::Done);
    assert!(matches!(
        c.step(Happened::Failed(VaultError::Permission)),
        ConnAct::Refuse(Gate::Server, VaultError::Permission)
    ));
    let mut c = connection(TrustMode::NonInteractive, Some([1; 32]));
    c.step(Happened::Done);
    c.step(Happened::Done);
    assert!(matches!(c.step(Happened::Done), ConnAct::Refuse(Gate::Handshake, _)));
    let mut c = connection(TrustMode::NonInteractive, None);
    c.step(Happened::Done);
    c.step(Happened::Done);
    c.step(Happened::Done);
    match c.step(Happened::Failed(gone())) {
        ConnAct::Refuse(Gate::Handshake, e) => assert_eq!(e.code(), "E_BROKER_UNTRUSTED"),
        _ => panic!("no refusal"),
    }
    let mut c = connection(TrustMode::Interactive, None);
    c.step(Happened::Done);
    c.step(Happened::Done);
    c.step(Happened::Done);
    match c.step(Happened::Failed(gone())) {
        ConnAct::Refuse(Gate::Handshake, e) => assert_eq!(e.code(), "E_IO"),
        _ => panic!("no refusal"),
    }
    assert_eq!(connect_error(Gate::Server, gone()).code(), "E_BROKER_UNTRUSTED");
    assert_eq!(connect_error(Gate::Socket, gone()).code(), "E_IO");
    let e = call_error(Gate::Server, VaultError::Permission);
    assert_eq!(e.code, VaultError::Permission.code());
    assert_eq!(call_error(Gate::Socket, gone()).msg, "gone");
    assert!(call_error(Gate::Handshake, gone()).msg.contains("first MCP use"));
}

fn trusted_errand(command: Command<String, Vec<String>>) -> (Errand, Act) {
    let mut e = Errand::new(connection(TrustMode::NonInteractive, None), command);
    let pin = Ok(Some(identity(1).public_key()));
    for h in [
        Happened::Done,
        Happened::Done,
        Happened::Done,
        drawn(),
        Happened::Done,
        Happened::Replied(answer(1, &NONCE)),
    ] {
        assert!(matches!(e.step(Event::Conn(h)), Act::Conn(_)));
    }
    let act = e.step(Event::Conn(Happened::Pin(pin)));
    (e, act)
}

#[test]
fn secrets_are_read_after_trust() {
    let (mut e, act) = trusted_errand(Command::SecretSet {
        project: "acme".to_string(),
        key: "K".to_string(),
    });
    assert!(matches!(act, Act::ReadToken));
    assert!(matches!(e.step(Event::Token(None)), Act::ReadValue));
    let value = SecretText::new("v".to_string());
    assert!(matches!(e.step(Event::Value(value)), Act::ReadPassphrase { twice: false }));
    let pass = SecretText::new("p".to_string());
    assert!(matches!(e.step(Event::Passphrase(pass)), Act::DrawId));
    match e.step(Event::Id("q1".to_string())) {
        Act::Conn(ConnAct::Send(q)) => {
            assert_eq!((q.id.as_str(), q.op.as_str()), ("q1", "secret.set"));
            assert_eq!(q.params.text_at("value"), Some("v"));
            assert_eq!(q.auth.unwrap().passphrase.as_deref(), Some("p"));
        }
        _ => panic!("no request"),
    }
    let (mut e, _) = trusted_errand(Command::Init);
    assert!(matches!(e.step(Event::Token(None)), Act::ReadPassphrase { twice: true }));
    assert!(matches!(
        e.step(Event::Failed(VaultError::HumanRequired)),
        Act::Refuse(VaultError::HumanRequired)
    ));
}

#[test]
fn a_reveal_goes_out_on_a_connection_of_its_own() {
    let reveal = || Command::Reveal {
        project: "acme".to_string(),
        key: "K".to_string(),
        approval_id: None,
    };
    let (mut e, _) = trusted_errand(reveal());
    assert!(matches!(e.step(Event::Token(Some("t".to_string()))), Act::ReadLease));
    match e.step(Event::Lease(Some(SecretText::new("l".to_string())))) {
        Act::CallAfresh { op, params, .. } => {
            assert_eq!(op.name(), "reveal");
            assert_eq!(params.text_at("lease"), Some("l"));
        }
        _ => panic!("no call"),
    }
    let (mut e, _) = trusted_errand(Command::ApprovalStatus { approval_id: "a".to_string() });
    assert!(matches!(e.step(Event::Token(None)), Act::Refuse(VaultError::Permission)));
}

#[test]
fn an_untrusted_broker_gets_nothing_read() {
    let mut e = Errand::new(connection(TrustMode::NonInteractive, None), Command::Init);
    assert!(matches!(e.step(Event::Conn(Happened::Done)), Act::Conn(ConnAct::CheckServer)));
    let refused = e.step(Event::Conn(Happened::Failed(VaultError::Permission)));
    assert!(matches!(refused, Act::Refuse(VaultError::BrokerUntrusted(_))));
    assert!(matches!(e.step(Event::Token(None)), Act::Stop));
}
