use svault::client::{
    auth_field, broker_call_with_auth, checked_result, fresh_id, handshake, handshake_error,
    parse_exited, parse_started, preparation_error, run_signal, server_error,
    signal_params, unverified_server, Auth, BrokerError, ConnectOptions, Leg, TrustMode,
};
use svault::error::VaultError;
use svault::json::Json;
use svault::wire::Response;

fn s(t: &str) -> String {
    t.to_string()
}

fn object(members: Vec<(&str, Json)>) -> Json {
    Json::Object(members.into_iter().map(|(k, v)| (s(k), v)).collect())
}

fn reply(ok: bool, member: (&str, Json)) -> Json {
    object(vec![
        ("v", Json::UInt(1)),
        ("id", Json::string("q1")),
        ("ok", Json::Bool(ok)),
        member,
    ])
}

#[test]
fn a_request_carries_one_credential() {
    assert!(auth_field(&Auth::Anonymous).is_none());
    let t = auth_field(&Auth::AgentToken(s("t"))).unwrap();
    assert_eq!(t.token.as_deref(), Some("t"));
    assert!(t.passphrase.is_none() && t.session.is_none());
    let p = auth_field(&Auth::Passphrase(s("p"))).unwrap();
    assert_eq!(p.passphrase.as_deref(), Some("p"));
    let c = auth_field(&Auth::Session(s("c"))).unwrap();
    assert_eq!(c.session.as_deref(), Some("c"));
}

#[test]
fn identifiers_are_fresh() {
    let a = fresh_id().unwrap();
    assert_ne!(a, fresh_id().unwrap());
    assert_eq!(a.len(), 16);
}

#[test]
fn a_call_gives_its_result() {
    let result = object(vec![("locked", Json::Bool(true))]);
    let ok = reply(true, ("result", result));
    let r = broker_call_with_auth(10, Some(ok), 100, 1, "q1").unwrap();
    assert_eq!(r.bool_at("locked"), Some(true));
}

#[test]
fn a_call_reports_every_fault() {
    let code = |r: Result<Json, BrokerError>| r.err().unwrap().code;
    let ok = || Some(reply(true, ("result", Json::object())));
    assert_eq!(code(broker_call_with_auth(0, None, 100, 1, "q1")), "E_PROTOCOL");
    assert!(broker_call_with_auth(101, ok(), 100, 1, "q1").is_ok());
    assert_eq!(code(broker_call_with_auth(102, ok(), 100, 1, "q1")), "E_PROTOCOL");
    assert_eq!(code(broker_call_with_auth(10, None, 100, 1, "q1")), "E_PROTOCOL");
    assert_eq!(code(broker_call_with_auth(10, ok(), 100, 2, "q1")), "E_PROTOCOL");
    assert_eq!(code(broker_call_with_auth(10, ok(), 100, 1, "q2")), "E_PROTOCOL");
    let error = object(vec![
        ("code", Json::string("E_LOCKED")),
        ("msg", Json::string("vault is locked")),
    ]);
    let refused = reply(false, ("error", error));
    let e = broker_call_with_auth(10, Some(refused), 100, 1, "q1").err().unwrap();
    assert_eq!(e.code, "E_LOCKED");
    assert_eq!(e.msg, "vault is locked");
    assert!(e.message().contains("vault is locked"));
}

#[test]
fn answers_belong_to_their_requests() {
    assert!(checked_result(Response::ok("q1", Json::object()), "q1").is_ok());
    assert!(checked_result(Response::ok("q2", Json::object()), "q1").is_err());
    assert!(checked_result(Response::err("q1", "E_AUTH", "no"), "q1").is_err());
}

#[test]
fn runs_are_reported() {
    let started = object(vec![
        ("run_id", Json::string("r1")),
        ("pid", Json::UInt(42)),
        ("status", Json::string("started")),
    ]);
    let r = parse_started("q1", Response::ok("q1", started)).unwrap();
    assert_eq!((r.run_id.as_str(), r.pid), ("r1", 42));
    assert!(parse_started("q1", Response::ok("q1", Json::object())).is_err());
    assert!(parse_started("q1", Response::err("q1", "E_LOCKED", "locked")).is_err());
    let exited = |run: &str| {
        object(vec![
            ("exit_code", Json::UInt(0)),
            ("run_id", Json::string(run)),
            ("status", Json::string("exited")),
        ])
    };
    let r = parse_exited("q1", "r1", Response::ok("q1", exited("r1"))).unwrap();
    assert_eq!(r.exit_code, Some(0));
    assert!(r.signal.is_none());
    assert!(parse_exited("q1", "r1", Response::ok("q1", exited("r2"))).is_err());
}

#[test]
fn signals_are_confirmed() {
    let p = signal_params("r1", "TERM");
    assert_eq!((p.text_at("run_id"), p.text_at("signal")), (Some("r1"), Some("TERM")));
    let result = |run: &str, signaled: bool| {
        object(vec![("run_id", Json::string(run)), ("signaled", Json::Bool(signaled))])
    };
    assert!(run_signal(&result("r1", true), "r1").unwrap().signaled);
    assert!(run_signal(&result("r2", true), "r1").is_err());
    assert!(run_signal(&Json::object(), "r1").is_err());
}

#[test]
fn trust_is_established_by_people() {
    assert_eq!(TrustMode::default(), TrustMode::NonInteractive);
    let strict = ConnectOptions::default();
    assert!(matches!(handshake(&strict), Ok(Leg::Strict)));
    let person = ConnectOptions { trust: TrustMode::Interactive, trust_fingerprint: Some([1; 32]) };
    assert!(matches!(handshake(&person), Ok(Leg::Interactive)));
    let agent = ConnectOptions { trust: TrustMode::NonInteractive, trust_fingerprint: Some([1; 32]) };
    assert_eq!(handshake(&agent).err().unwrap().code(), "E_BROKER_UNTRUSTED");
}

#[test]
fn codes_do_not_depend_on_what_an_error_holds() {
    let a = VaultError::Corrupt(s("a"));
    let b = VaultError::Corrupt(s("b"));
    assert_eq!(a.code(), b.code());
    assert_ne!(a.code(), VaultError::Protocol(s("a")).code());
    assert_ne!(VaultError::TooLarge.code(), VaultError::VaultTooLarge.code());
}

#[test]
fn errors_keep_their_codes() {
    assert_eq!(unverified_server().code(), "E_BROKER_UNTRUSTED");
    assert_eq!(server_error(&VaultError::Locked).code, "E_LOCKED");
    let e = handshake_error(&VaultError::BrokerUntrusted(s("who")));
    assert_eq!(e.code, "E_BROKER_UNTRUSTED");
    assert_eq!(BrokerError::io("gone").code, "E_IO");
    let p = BrokerError::protocol("odd");
    assert_eq!(p.code, "E_PROTOCOL");
    assert_eq!(p.into_protocol().code(), "E_PROTOCOL");
    assert!(!preparation_error(VaultError::Auth).code.is_empty());
}
