use svault::audit::log::AuditLog;
use svault::audit::{AuditLine, Decision, Priority, Record};
use svault::broker::ops::Operation;
use svault::client::{Auth, BrokerError};
use svault::dashboard::overview::{posture_only, Act, Overview, OverviewOut};
use svault::dashboard::rows::{
    agent_add, agent_revoke, agents_list, approvals_pending, audit_show, audit_verify, grants_list,
    lease_revoke, leases_list, project_add, projects_list, revealed, runs_list, secret_set,
    secrets_list, AgentAddIn, AuditShowIn, LeaseRevokeIn, NameIn, ProjectAddIn, SecretSetIn,
    SecretsListIn,
};
use svault::dashboard::{
    allow_navigation, broker_message, get_status, malformed_answer, pin_status, probe_fingerprint,
    require_session_auth, Access, AppState, CmdError, Command, StatusOut, COMMANDS,
    OVERVIEW_SECRETS_PROJECT_CAP,
};
use svault::broker_identity::{decide_pin, load_pin};
use svault::crypto::{generate_capability, SecretKey};
use svault::error::{IoFailure, VaultError};
use svault::json::Json;

const PASS: &str = "correct horse battery test passphrase 1";
const REVEAL_TRAP: &str = "TRAP-SECRETVALUE-0123456789abcdef";

fn s(t: &str) -> String {
    t.to_string()
}

fn object(members: Vec<(&str, Json)>) -> Json {
    Json::Object(members.into_iter().map(|(k, v)| (s(k), v)).collect())
}

/// A broker error as it comes off the wire.
fn refused(code: &str) -> CmdError {
    CmdError::from_broker_error(&BrokerError { code: s(code), msg: s("details"), data: None })
}

fn status_answer(locked: bool) -> Result<Json, CmdError> {
    Ok(object(vec![
        ("version", Json::UInt(1)),
        ("created", Json::string("2026-01-01")),
        ("locked", Json::Bool(locked)),
    ]))
}

fn offline() -> StatusOut {
    get_status(&Err(CmdError::new("E_IO", "filesystem error")), &Ok(None))
}

fn trusted(locked: bool) -> StatusOut {
    get_status(&status_answer(locked), &Ok(Some([0xA5; 32])))
}

/// Answers the questions of an overview.
fn overview(status: StatusOut, projects: usize, secrets: usize) -> (OverviewOut, usize) {
    let (mut o, mut act) = Overview::overview_refresh(status, true);
    let mut calls = 0;
    loop {
        let (op, params) = match act {
            Act::Show(out) => return (out, calls),
            Act::Fail(e) => panic!("{e:?}"),
            Act::Call { op, params } => (op, params),
        };
        calls += 1;
        let names = (0..projects).map(|i| object(vec![("name", Json::string(&format!("cap{i}")))]));
        let row = || object(vec![("key", Json::string("K"))]);
        let answer = match op {
            Operation::VaultHealth => object(vec![
                ("runs_active", Json::UInt(0)),
                ("idle_lock_secs", Json::UInt(900)),
                ("audit_bytes", Json::UInt(1)),
                ("audit_soft_limit", Json::UInt(2)),
                ("audit_hard_limit", Json::UInt(3)),
                ("vault_bytes", Json::UInt(4)),
                ("vault_max_bytes", Json::UInt(5)),
            ]),
            Operation::ProjectList => object(vec![("projects", Json::Array(names.collect()))]),
            Operation::AgentsList => object(vec![("agents", Json::Array(Vec::new()))]),
            Operation::SecretsList => {
                assert!(params.text_at("project").unwrap().starts_with("cap"));
                let rows = (0..secrets).map(|_| row()).collect();
                object(vec![("secrets", Json::Array(rows))])
            }
            other => panic!("{other:?} is no question of an overview"),
        };
        act = o.step(Ok(answer));
    }
}

#[test]
fn allowlist_is_exactly_the_thirty_commands() {
    let expected = [
        "get_status",
        "pin_status",
        "probe_fingerprint",
        "unlock",
        "lock",
        "health",
        "overview_refresh",
        "projects_list",
        "project_add",
        "project_remove",
        "project_path_add",
        "project_path_remove",
        "secrets_list",
        "secret_set",
        "secret_delete",
        "agents_list",
        "agent_add",
        "agent_revoke",
        "grants_list",
        "grant_set",
        "grant_revoke",
        "approvals_pending",
        "approval_approve",
        "approval_deny",
        "reveal",
        "leases_list",
        "lease_revoke",
        "runs_list",
        "audit_show",
        "audit_verify",
    ];
    assert_eq!(COMMANDS, expected);
    let fns = expected;
    for f in fns {
        assert!(COMMANDS.contains(&f), "backend fn {f} not in allowlist");
    }
    assert_eq!(COMMANDS.len(), 30, "allowlist must stay at thirty");
    assert!(
        !COMMANDS.contains(&"trust_broker"),
        "trust_broker must not be a dashboard command"
    );
    assert!(
        !COMMANDS.contains(&"call"),
        "no generic-passthrough command may exist"
    );
}

#[test]
fn m1_allow_navigation_allows_only_tauri_scheme() {
    assert!(allow_navigation("tauri://localhost/index.html"));
    assert!(allow_navigation("tauri://localhost/"));
    assert!(allow_navigation("TAURI://LOCALHOST/x"));
}

#[test]
fn m1_allow_navigation_blocks_non_tauri_urls() {
    for url in [
        "http://127.0.0.1/",
        "https://evil.example/",
        "file:///etc/passwd",
        "data:text/html,<script>",
        "javascript:alert(1)",
        "blob:tauri://localhost/abc",
        "tauri ://x",
        "",
        "about:blank",
    ] {
        assert!(!allow_navigation(url), "{url:?} must be blocked");
    }
}

#[test]
fn offline_socket_reports_offline_without_panic() {
    let status = offline();
    assert!(!status.online);
    assert!(status.locked);
    assert!(!status.trusted);
    let gone = VaultError::Io(IoFailure { os_code: Some(2), text: s("no such file") });
    let err = probe_fingerprint(Err(gone)).unwrap_err();
    assert!(!err.code.is_empty());
}

#[test]
fn cli_pinned_then_status_is_trusted() {
    let status = trusted(true);
    assert!(status.online);
    assert!(status.trusted);
    assert!(status.fingerprint.map(|f| f.len()).unwrap_or(0) == 64);
    let pin = pin_status(Ok(Some([0xA5; 32]))).expect("pin_status must succeed");
    assert!(pin.pinned);
}

#[test]
fn daemon_offline_transitions_state() {
    assert!(trusted(true).online);
    assert!(!offline().online);
}

#[test]
fn overview_locked_is_posture_only_with_no_fabricated_zeros() {
    let (_, act) = Overview::overview_refresh(trusted(true), false);
    let ov = match act {
        Act::Show(ov) => ov,
        _ => panic!("locked overview must be Ok-shaped"),
    };
    assert!(ov.locked);
    assert!(ov.online);
    assert!(ov.trusted);
    assert!(!ov.session_held);
    assert!(ov.projects.is_none());
    assert!(ov.secrets_total.is_none());
    assert!(!ov.secrets_total_exact);
    assert!(ov.agents_active.is_none());
    assert!(ov.runs_active.is_none());
    assert!(ov.approvals_pending.is_none());
    assert!(ov.leases_active.is_none());
    assert!(ov.idle_lock_secs.is_none());
    assert!(ov.idle_in.is_none());
    assert!(ov.audit_bytes.is_none());
    assert!(ov.audit_soft_limit.is_none());
    assert!(ov.audit_hard_limit.is_none());
    assert!(ov.vault_bytes.is_none());
    assert!(ov.vault_max_bytes.is_none());
    assert_eq!(posture_only(trusted(true), false), ov);
}

#[test]
fn overview_unlocked_aggregates_projects_secrets_agents_health() {
    let (ov, _) = overview(trusted(false), 1, 2);
    assert!(!ov.locked);
    assert!(ov.online && ov.trusted);
    assert!(ov.session_held);
    assert_eq!(ov.projects, Some(1));
    assert_eq!(ov.secrets_total, Some(2));
    assert!(ov.secrets_total_exact);
    assert_eq!(ov.agents_active, Some(0));
    assert!(ov.runs_active.is_some());
    assert!(ov.idle_lock_secs.is_some());
    assert!(ov.audit_bytes.is_some());
    assert!(ov.audit_soft_limit.is_some());
    assert!(ov.audit_hard_limit.is_some());
    assert!(ov.vault_bytes.is_some());
    assert!(ov.vault_max_bytes.is_some());
}

#[test]
fn overview_caps_secret_fanout_and_marks_partial() {
    assert!(
        OVERVIEW_SECRETS_PROJECT_CAP <= 50,
        "fan-out cap must stay bounded (broker has a 32-connection intake cap)"
    );
    let (ov, calls) = overview(trusted(false), OVERVIEW_SECRETS_PROJECT_CAP + 5, 1);
    assert_eq!(ov.projects, Some((OVERVIEW_SECRETS_PROJECT_CAP + 5) as u64));
    assert!(
        !ov.secrets_total_exact,
        "over-cap sum must be marked partial"
    );
    assert_eq!(
        ov.secrets_total,
        Some(OVERVIEW_SECRETS_PROJECT_CAP as u64),
        "sum is the bounded partial (one secret per queried project)"
    );
    assert_eq!(calls, 3 + OVERVIEW_SECRETS_PROJECT_CAP);
}

#[test]
fn overview_propagates_session_expiry_for_reauth() {
    let (mut o, _) = Overview::overview_refresh(trusted(false), true);
    match o.step(Err(refused("E_SESSION_EXPIRED"))) {
        Act::Fail(err) => assert_eq!(err.code, "E_SESSION_EXPIRED"),
        _ => panic!("a lapsed session is told"),
    }
}

#[test]
fn overview_offline_is_posture_only_without_panic() {
    let (_, act) = Overview::overview_refresh(offline(), false);
    let ov = match act {
        Act::Show(ov) => ov,
        _ => panic!("offline overview must be Ok-shaped"),
    };
    assert!(!ov.online);
    assert!(ov.locked);
    assert!(!ov.trusted);
    assert!(ov.projects.is_none());
    assert!(ov.secrets_total.is_none());
    assert!(!ov.secrets_total_exact);
}

#[test]
fn broker_codes_arrive_verbatim_not_collapsed() {
    let err = refused("E_NOT_FOUND");
    assert_eq!(err.code, "E_NOT_FOUND");
    assert_eq!(err.message, "not found");
    let err = refused("E_INVALID_INPUT");
    assert_eq!(err.code, "E_INVALID_INPUT");
    assert_eq!(err.message, "invalid input");
    assert_eq!(refused("E_EXISTS").code, "E_EXISTS");
    assert_eq!(broker_message("E_APPROVAL_EXPIRED"), "approval expired");
    assert_eq!(broker_message("E_APPROVAL_PENDING"), "approval pending");
    let unknown = broker_message("E_SOME_FUTURE_CODE");
    assert_eq!(unknown, "broker error");
    assert_eq!(refused("E_SOME_FUTURE_CODE").code, "E_SOME_FUTURE_CODE");
}

#[test]
fn status_posture_branches_hold_under_verbatim_codes() {
    let status = get_status(&Err(refused("E_BROKER_UNTRUSTED")), &Ok(Some([0xA5; 32])));
    assert!(status.online);
    assert!(!status.trusted);
    let status = offline();
    assert!(!status.online);
    assert!(!status.trusted);
    assert!(status.locked);
    let status = get_status(&Err(refused("E_AUDIT_FULL")), &Ok(Some([0xA5; 32])));
    assert!(status.online && status.trusted);
}

#[test]
fn d6_audit_empty_page() {
    let params = AuditShowIn { tail: 50, before_seq: Some(0) }.params().unwrap();
    assert_eq!(params.uint_at("before_seq"), Some(0));
    let answer = object(vec![
        ("entries", Json::Array(Vec::new())),
        ("next_before_seq", Json::Null),
    ]);
    let page = audit_show(&answer).expect("before_seq 0 must succeed");
    assert!(page.entries.is_empty());
    assert_eq!(page.next_before_seq, None);
}

#[test]
fn d6_audit_tail_bound_is_refused_locally() {
    for tail in [0u64, 1001u64] {
        let err = AuditShowIn { tail, before_seq: None }.params().unwrap_err();
        assert_eq!(err.code, "E_INVALID_INPUT");
        assert_eq!(err.message, "invalid input");
    }
    for tail in [1u64, 1000u64] {
        assert!(AuditShowIn { tail, before_seq: None }.params().is_ok());
    }
}

#[test]
fn d6_allowlist_has_no_pin_write_or_generic_passthrough() {
    assert_eq!(COMMANDS.len(), 30);
    assert!(!COMMANDS.contains(&"trust_broker"));
    assert!(!COMMANDS
        .iter()
        .any(|c| *c == "trust" || c.starts_with("trust_")));
    assert!(!COMMANDS.contains(&"call"));
}

#[test]
fn d7_no_vault_is_online_but_uninitialized() {
    let status = get_status(&Err(refused("E_NOT_FOUND")), &Ok(Some([0xA5; 32])));
    assert!(
        status.online,
        "daemon answered: this is no-vault, not offline"
    );
    assert!(
        !status.initialized,
        "absent vault must report uninitialized"
    );
    assert!(
        status.trusted,
        "pinned daemon must stay trusted without a vault"
    );
    assert_eq!(status.version, 0);
    assert!(status.created.is_empty());
    assert!(status.locked, "fail-safe shape, never a broker observation");
    assert!(status.fingerprint.map(|f| f.len()).unwrap_or(0) == 64);
}

#[test]
fn d7_status_success_is_initialized() {
    let status = trusted(true);
    assert!(status.online);
    assert!(status.initialized, "existing vault must report initialized");
}

#[test]
fn projects_list_empty_then_populated() {
    let empty = projects_list(&object(vec![("projects", Json::Array(Vec::new()))]));
    assert!(empty.projects.is_empty());
    let added = project_add(&object(vec![("added", Json::string("web"))]));
    assert_eq!(added.added, "web");
    let row = object(vec![
        ("name", Json::string("web")),
        ("paths", Json::strings(&[s("/tmp/pdir")])),
    ]);
    let list = projects_list(&object(vec![("projects", Json::Array(vec![row]))]));
    assert_eq!(list.projects.len(), 1);
    assert_eq!(list.projects[0].name, "web");
    assert_eq!(list.projects[0].paths.len(), 1);
}

#[test]
fn a_session_lives_from_unlock_to_lock() {
    let mut st = AppState::new(s("/run/svault.sock"));
    assert_eq!(st.socket(), "/run/svault.sock");
    assert!(st.session_auth().is_none());
    let refusal = st.unlock(&Json::object()).unwrap_err();
    assert_eq!(refusal.code, "E_AUTH");
    let answer = object(vec![
        ("unlocked", Json::Bool(true)),
        ("session_credential", Json::string("cap")),
        ("session_prefix", Json::string("5e55")),
        ("expires_in", Json::UInt(900)),
    ]);
    let out = st.unlock(&answer).unwrap();
    assert!(out.unlocked);
    assert_eq!(out.session_prefix.as_deref(), Some("5e55"));
    assert!(!format!("{out:?}").contains("cap"));
    assert!(matches!(st.session_auth(), Some(Auth::Session(c)) if c == "cap"));
    assert!(matches!(st.credential(Access::Public), Some(Auth::Anonymous)));
    assert!(st.lock(Err(refused("E_AUTH"))).is_err());
    assert!(st.session_auth().is_none());
    assert!(st.credential(Access::Session).is_none());
    assert!(matches!(st.credential(Access::SessionIfHeld), Some(Auth::Anonymous)));
    assert!(st.lock(Err(refused("E_IO"))).unwrap().locked);
    st.unlock(&answer).unwrap();
    assert_eq!(st.take_session().unwrap().as_str(), "cap");
    assert!(st.take_session().is_none());
}

#[test]
fn a_missing_session_is_told() {
    assert_eq!(require_session_auth(Ok(())).code, "E_SESSION_EXPIRED");
    assert_eq!(require_session_auth(Err(refused("E_IO"))).code, "E_IO");
}

#[test]
fn foreign_text_is_not_shown() {
    let trap = "sk-trap-0xf00dVALUE";
    let errors = [
        VaultError::Protocol(s(trap)),
        VaultError::Corrupt(s(trap)),
        VaultError::InvalidInput(trap),
        VaultError::BrokerUntrusted(s(trap)),
        VaultError::Io(IoFailure { os_code: None, text: s(trap) }),
    ];
    for e in &errors {
        let shown = CmdError::from_vault_error(e);
        assert_eq!(shown.code, e.code());
        assert!(!shown.message.contains(trap));
    }
    let e = BrokerError { code: s("E_AUTH"), msg: s(trap), data: None };
    assert!(!CmdError::from_broker_error(&e).message.contains(trap));
    assert_eq!(malformed_answer().code, "E_PROTOCOL");
    let clash = CmdError::from_token_file(&VaultError::Exists);
    assert!(!clash.code.is_empty());
}

#[test]
fn commands_are_for_the_owner() {
    assert_eq!(Command::SecretSet.name(), "secret_set");
    assert_eq!(Command::SecretSet.operation(), Some(Operation::SecretSet));
    assert_eq!(Command::SecretSet.access(), Access::Session);
    assert_eq!(Command::Unlock.access(), Access::Passphrase);
    assert_eq!(Command::PinStatus.operation(), None);
}

#[test]
fn rows_hold_their_members_alone() {
    let row = object(vec![
        ("key", Json::string("K")),
        ("updated", Json::string("now")),
        ("value", Json::string("sk-trap")),
    ]);
    let out = secrets_list(&object(vec![("secrets", Json::Array(vec![row]))]));
    assert_eq!(out.secrets[0].key, "K");
    assert!(!format!("{out:?}").contains("sk-trap"));
    let agent = object(vec![
        ("name", Json::string("bot")),
        ("status", Json::string("active")),
        ("token_prefix", Json::string("ab12")),
        ("token", Json::string("tok-trap")),
    ]);
    let out = agents_list(&object(vec![("agents", Json::Array(vec![agent]))]));
    assert_eq!(out.agents[0].status, "active");
    assert!(!format!("{out:?}").contains("tok-trap"));
    let grant = object(vec![
        ("agent", Json::string("bot")),
        ("project", Json::string("web")),
        ("ops", Json::strings(&[s("read")])),
        ("revoked", Json::Bool(true)),
    ]);
    let out = grants_list(&object(vec![("grants", Json::Array(vec![grant]))]));
    assert_eq!(out.grants[0].ops, ["read"]);
    assert!(out.grants[0].revoked);
    let out = approvals_pending(&Json::object());
    assert!(out.approvals.is_empty());
}

#[test]
fn answers_without_their_shape_are_errors() {
    assert_eq!(revealed(&Json::object()).unwrap_err().code, "E_PROTOCOL");
    let value = object(vec![("value", Json::string("v"))]);
    assert_eq!(revealed(&value).unwrap().value, "v");
    assert!(leases_list(&object(vec![("leases", Json::Array(Vec::new()))]))
        .unwrap()
        .leases
        .is_empty());
    assert_eq!(leases_list(&Json::object()).unwrap_err().code, "E_PROTOCOL");
    assert_eq!(runs_list(&Json::object()).unwrap_err().code, "E_PROTOCOL");
    assert_eq!(audit_show(&Json::object()).unwrap_err().code, "E_PROTOCOL");
    assert_eq!(audit_verify(&Json::object()).unwrap_err().code, "E_PROTOCOL");
    let counts = object(vec![
        ("entries", Json::UInt(3)),
        ("macs_verified", Json::UInt(2)),
        ("macs_null", Json::UInt(1)),
    ]);
    let out = audit_verify(&counts).unwrap();
    assert_eq!((out.entries, out.macs_verified, out.macs_null), (3, 2, 1));
}

#[test]
fn inputs_become_parameters() {
    let p = SecretSetIn { project: s("web"), key: s("K"), value: s("v") }.params();
    assert_eq!(p.text_at("value"), Some("v"));
    let out = secret_set(&object(vec![("set", Json::string("web/K"))]));
    assert_eq!(out.set, "web/K");
    let p = ProjectAddIn { name: s("web"), paths: vec![s("/w")] }.params();
    assert_eq!(p.text_at("name"), Some("web"));
    assert_eq!(p.array_at("paths").unwrap().len(), 1);
    let kept = AgentAddIn { name: s("bot"), token_path: Some(s("/t")) };
    assert_eq!(kept.save_path(), Some("/t"));
    assert!(!kept.params().to_text().contains("/t"));
    let answer = object(vec![
        ("agent_id", Json::string("a1")),
        ("token", Json::string("tok")),
    ]);
    let out = agent_add(&kept, &answer);
    assert_eq!((out.agent_id.as_str(), out.token.as_str()), ("a1", "tok"));
}

#[test]
fn pins_are_shown_as_they_are() {
    assert_eq!(pin_status(Ok(None)).unwrap().fingerprint, None);
    assert!(pin_status(Err(VaultError::Corrupt(s("x")))).is_err());
    let probe = probe_fingerprint(Ok("ab".repeat(32))).unwrap();
    assert_eq!(probe.fingerprint.len(), 64);
}

/// What the broker answers to an unlock, with a fresh session.
fn unlock_answer() -> (Json, String) {
    let (credential, _, prefix) = generate_capability().unwrap();
    let answer = object(vec![
        ("unlocked", Json::Bool(true)),
        ("session_credential", Json::string(&credential)),
        ("session_prefix", Json::string(&prefix)),
        ("expires_at", Json::string("2026-01-01T00:15:00Z")),
        ("expires_in", Json::UInt(900)),
        ("max_expires_at", Json::string("2026-01-01T08:00:00Z")),
        ("max_expires_in", Json::UInt(28800)),
    ]);
    (answer, credential)
}

fn unlocked_state() -> AppState {
    let mut st = AppState::new(s("/run/svault.sock"));
    st.unlock(&unlock_answer().0).unwrap();
    st
}

#[test]
fn unlock_success_returns_safe_metadata_only() {
    let mut st = AppState::new(s("/run/svault.sock"));
    let (answer, credential) = unlock_answer();
    let out = st.unlock(&answer).expect("unlock must succeed");
    assert!(out.unlocked);
    let body = format!("{out:?}");
    assert!(!body.contains(PASS), "passphrase must never appear in unlock output");
    assert!(
        !body.contains("session_credential"),
        "credential field name must never appear in unlock output"
    );
    assert!(!body.contains(&credential));
    assert!(out.session_prefix.as_ref().map(|p| p.len()).unwrap_or(0) == 8);
}

#[test]
fn unlock_wrong_passphrase_is_generic_auth_failure() {
    let err = refused("E_AUTH");
    assert_eq!(err.code, "E_AUTH");
    assert_eq!(err.message, "authentication failed");
    let mut st = AppState::new(s("/run/svault.sock"));
    let err2 = st.unlock(&object(vec![("unlocked", Json::Bool(false))])).unwrap_err();
    assert_eq!(err2.code, "E_AUTH");
    assert_eq!(err2.message, "authentication failed");
    assert!(st.session_auth().is_none());
}

#[test]
fn session_credential_never_appears_in_any_output() {
    let mut st = AppState::new(s("/run/svault.sock"));
    let (answer, credential) = unlock_answer();
    let out = st.unlock(&answer).unwrap();
    let payloads = [
        format!("{out:?}"),
        format!("{:?}", trusted(false)),
        format!("{:?}", pin_status(Ok(Some([0xA5; 32]))).unwrap()),
    ];
    for body in &payloads {
        assert!(!body.contains(PASS), "passphrase leaked: {body}");
        assert!(!body.contains("session_credential"), "credential key leaked: {body}");
        assert!(!body.contains(&credential), "session credential value leaked: {body}");
    }
    assert!(matches!(st.credential(Access::Session), Some(Auth::Session(c)) if c == credential));
}

#[test]
fn lock_invalidates_session() {
    let mut st = unlocked_state();
    let out = st.lock(Ok(())).expect("lock must succeed");
    assert!(out.locked);
    assert!(st.session_auth().is_none());
    let status = trusted(true);
    assert!(status.locked);
}

#[test]
fn overview_session_held_distinguishes_lock_drop_from_never_held() {
    let mut st = unlocked_state();
    assert!(st.session_auth().is_some());
    let (held, _) = overview(trusted(false), 0, 0);
    assert!(held.session_held);
    st.lock(Ok(())).expect("lock must succeed");
    let (_, act) = Overview::overview_refresh(trusted(true), st.session_auth().is_some());
    let dropped = match act {
        Act::Show(ov) => ov,
        _ => panic!("locked overview must be Ok-shaped"),
    };
    assert!(dropped.locked);
    assert!(!dropped.session_held, "lock drops the Rust session holder");
    assert!(dropped.projects.is_none());
    let never = AppState::new(s("/run/svault.sock"));
    assert!(never.session_auth().is_none());
}

#[test]
fn a_later_lapse_leaves_its_count_unknown() {
    let (mut o, _) = Overview::overview_refresh(trusted(false), true);
    o.step(Ok(object(vec![("runs_active", Json::UInt(2))])));
    let web = object(vec![("name", Json::string("web"))]);
    o.step(Ok(object(vec![("projects", Json::Array(vec![web]))])));
    match o.step(Err(refused("E_SESSION_EXPIRED"))) {
        Act::Call { op, .. } => assert_eq!(op, Operation::SecretsList),
        _ => panic!("the overview goes on"),
    }
    let key = object(vec![("key", Json::string("K"))]);
    match o.step(Ok(object(vec![("secrets", Json::Array(vec![key]))]))) {
        Act::Show(ov) => {
            assert_eq!(ov.agents_active, None);
            assert_eq!(ov.projects, Some(1));
            assert_eq!(ov.secrets_total, Some(1));
            assert_eq!(ov.runs_active, Some(2));
        }
        _ => panic!("the overview is shown"),
    }
}

#[test]
fn secrets_list_shows_key_and_updated_only_never_values() {
    let asked = SecretsListIn { project: s("web") }.params();
    assert_eq!(asked.text_at("project"), Some("web"));
    let trap = "TRAP-SECRETVALUE-0123456789abcdef";
    let row = object(vec![
        ("key", Json::string("API_KEY")),
        ("updated", Json::string("2026-01-01T00:00:00Z")),
        ("value", Json::string(trap)),
    ]);
    let out = secrets_list(&object(vec![("secrets", Json::Array(vec![row]))]));
    assert_eq!(out.secrets.len(), 1);
    assert_eq!(out.secrets[0].key, "API_KEY");
    assert!(!out.secrets[0].updated.is_empty());
    let body = format!("{out:?}");
    assert!(!body.contains(trap), "trap secret value leaked: {body}");
    assert!(
        !body.contains("value"),
        "secrets_list must not carry a value field: {body}"
    );
}

#[test]
fn expired_session_mutation_forces_reauth() {
    assert_eq!(refused("E_SESSION_EXPIRED").code, "E_SESSION_EXPIRED");
    assert_eq!(require_session_auth(Ok(())).code, "E_SESSION_EXPIRED");
}

fn agent_row(status: &str) -> Json {
    object(vec![
        ("name", Json::string("bot")),
        ("status", Json::string(status)),
        ("token_prefix", Json::string("ab12cd34")),
    ])
}

#[test]
fn d3_agents_list_empty_then_populated() {
    assert!(agents_list(&object(vec![("agents", Json::Array(Vec::new()))])).agents.is_empty());
    let input = AgentAddIn { name: s("bot"), token_path: None };
    let out = agent_add(
        &input,
        &object(vec![("agent_id", Json::string("a1")), ("token", Json::string("tok"))]),
    );
    assert!(!out.agent_id.is_empty());
    let list = agents_list(&object(vec![("agents", Json::Array(vec![agent_row("active")]))]));
    assert_eq!(list.agents.len(), 1);
    let entry = &list.agents[0];
    assert_eq!(entry.name, "bot");
    assert_eq!(entry.status, "active");
    assert!(!entry.token_prefix.is_empty());
    assert_ne!(entry.token_prefix, out.token);
}

#[test]
fn d3_agent_revoke_flips_status_on_reread() {
    assert_eq!(NameIn { name: s("bot") }.params().text_at("name"), Some("bot"));
    let revoked = agent_revoke(&object(vec![("revoked", Json::string("bot"))]));
    assert_eq!(revoked.revoked, "bot");
    let list = agents_list(&object(vec![("agents", Json::Array(vec![agent_row("revoked")]))]));
    let entry = list
        .agents
        .iter()
        .find(|a| a.name == "bot")
        .expect("revoked agent stays listed");
    assert_eq!(entry.status, "revoked");
}

fn lease_row(status: &str, credential: &str) -> Json {
    object(vec![
        ("lease_id", Json::string("l1")),
        ("lease_prefix", Json::string("ab12")),
        ("lease_credential", Json::string(credential)),
        ("project", Json::string("web")),
        ("ops", Json::strings(&[s("read")])),
        ("expires_at", Json::string("2026-01-01T00:15:00Z")),
        ("expires_in", Json::UInt(900)),
        ("status", Json::string(status)),
    ])
}

#[test]
fn d4_leases_list_empty_then_populated_with_active_status() {
    let none = object(vec![("leases", Json::Array(Vec::new()))]);
    assert!(leases_list(&none).unwrap().leases.is_empty());
    let rows = Json::Array(vec![lease_row("active", "cap")]);
    let list = leases_list(&object(vec![("leases", rows)])).unwrap();
    assert_eq!(list.leases.len(), 1);
    let entry = &list.leases[0];
    assert_eq!(entry.lease_id, "l1");
    assert_eq!(entry.project, "web");
    assert_eq!(entry.ops, vec!["read".to_string()]);
    assert_eq!(entry.status, "active");
    assert!(!entry.lease_prefix.is_empty());
    assert!(!entry.expires_at.is_empty());
}

#[test]
fn d4_leases_list_never_carries_a_credential() {
    let (credential, _, _) = generate_capability().unwrap();
    let rows = Json::Array(vec![lease_row("active", &credential)]);
    let body = format!("{:?}", leases_list(&object(vec![("leases", rows)])).unwrap());
    assert!(!body.contains("lease_credential"), "credential key leaked");
    assert!(!body.contains(&credential), "credential value leaked");
}

#[test]
fn d4_lease_revoke_marks_revoked_on_reread() {
    assert_eq!(LeaseRevokeIn { lease_id: s("l1") }.params().text_at("lease_id"), Some("l1"));
    let answer = object(vec![("lease_id", Json::string("l1")), ("revoked", Json::Bool(true))]);
    let out = lease_revoke(&answer);
    assert_eq!(out.lease_id, "l1");
    assert!(out.revoked);
    let rows = Json::Array(vec![lease_row("revoked", "cap")]);
    let list = leases_list(&object(vec![("leases", rows)])).unwrap();
    let entry = list
        .leases
        .iter()
        .find(|l| l.lease_id == "l1")
        .expect("revoked lease stays listed");
    assert_eq!(entry.status, "revoked");
}

#[test]
fn d4_runs_list_empty_allowlisted_and_trap_free() {
    let out = runs_list(&object(vec![("runs", Json::Array(Vec::new()))])).unwrap();
    assert!(out.runs.is_empty());
    let row = object(vec![
        ("run_id", Json::string("probe")),
        ("agent", Json::string("a")),
        ("project", Json::string("p")),
        ("pid", Json::UInt(1)),
        ("started_at", Json::string("t")),
        ("status", Json::string("running")),
        ("argv", Json::strings(&[s("x")])),
        ("env", Json::object()),
        ("cwd", Json::string("/")),
        ("executable", Json::string("/bin/x")),
        ("pgid", Json::UInt(7)),
    ]);
    let shown = runs_list(&object(vec![("runs", Json::Array(vec![row]))])).unwrap();
    assert_eq!(shown.runs.len(), 1);
    let body = format!("{out:?}{shown:?}");
    for forbidden in ["argv", "env", "cwd", "executable", "pgid"] {
        assert!(!body.contains(forbidden), "{forbidden} leaked: {body}");
    }
    for key in ["agent", "pid", "project", "run_id", "started_at", "status"] {
        assert!(body.contains(key));
    }
}

#[test]
fn d4_reveal_bad_key_is_not_found_without_value_in_error() {
    let foreign = BrokerError { code: s("E_NOT_FOUND"), msg: s(REVEAL_TRAP), data: None };
    let err = CmdError::from_broker_error(&foreign);
    assert_eq!(err.code, "E_NOT_FOUND");
    let err_body = format!("{err:?}");
    assert!(
        !err_body.contains(REVEAL_TRAP),
        "error must never carry the value: {err_body}"
    );
}

#[test]
fn d4_reveal_session_expiry_carries_no_value() {
    let foreign = BrokerError { code: s("E_SESSION_EXPIRED"), msg: s(REVEAL_TRAP), data: None };
    let err = CmdError::from_broker_error(&foreign);
    assert_eq!(err.code, "E_SESSION_EXPIRED");
    assert!(!format!("{err:?}").contains(REVEAL_TRAP));
}

#[test]
fn d3_agents_list_offline_fails_closed_never_empty_success() {
    let err = require_session_auth(Err(refused("E_IO")));
    assert!(!err.code.is_empty());
    assert_ne!(err.code, "E_SESSION_EXPIRED");
}

#[test]
fn d4_all_four_offline_fail_closed_never_empty_success() {
    let mismatch = decide_pin(Ok(Some([0xA5; 32])), &[1; 32], true, None, false).unwrap_err();
    assert_eq!(CmdError::from_vault_error(&mismatch).code, "E_BROKER_UNTRUSTED");
    for _ in [Command::Reveal, Command::LeasesList, Command::LeaseRevoke, Command::RunsList] {
        let gone = require_session_auth(Err(refused("E_BROKER_UNTRUSTED")));
        assert_eq!(gone.code, "E_BROKER_UNTRUSTED");
        assert_eq!(require_session_auth(Err(refused("E_IO"))).code, "E_IO");
    }
}

#[test]
fn d6_audit_offline_fails_closed() {
    assert_eq!(require_session_auth(Err(refused("E_IO"))).code, "E_IO");
}

#[test]
fn first_contact_reports_unpinned_and_probes_live_key() {
    let pin = pin_status(load_pin(None, b"/run/svault.sock", b"/")).expect("pin_status");
    assert!(!pin.pinned);
    assert!(pin.fingerprint.is_none());
    let probe = probe_fingerprint(Ok("5a".repeat(32))).expect("probe must succeed");
    assert_eq!(probe.fingerprint.len(), 64);
    assert!(probe.fingerprint.chars().all(|c| c.is_ascii_hexdigit()));
    let stranger = decide_pin(Ok(None), &[7; 32], true, None, false).unwrap_err();
    assert_eq!(stranger.code(), "E_BROKER_UNTRUSTED");
    let status = get_status(&Err(CmdError::from_vault_error(&stranger)), &Ok(None));
    assert!(status.online);
    assert!(!status.trusted);
    assert!(status.fingerprint.is_none());
}

fn json_of(v: &serde_json::Value) -> Json {
    match v {
        serde_json::Value::Null => Json::Null,
        serde_json::Value::Bool(b) => Json::Bool(*b),
        serde_json::Value::Number(n) => match n.as_u64() {
            Some(u) => Json::UInt(u),
            None => Json::Null,
        },
        serde_json::Value::String(t) => Json::string(t),
        serde_json::Value::Array(a) => Json::Array(a.iter().map(json_of).collect()),
        serde_json::Value::Object(m) => {
            Json::Object(m.iter().map(|(k, v)| (k.clone(), json_of(v))).collect())
        }
    }
}

/// A page over a log whose first entry was written without the key.
fn audit_page() -> Json {
    let key = SecretKey::from_bytes([3; 32]);
    let mut lines: Vec<Option<AuditLine>> = Vec::new();
    let mut log = AuditLog::load_or_init(&lines).unwrap();
    let mut len: u64 = 0;
    for (op, key) in [("vault.status", None), ("vault.unlock", Some(&key))] {
        let record = Record {
            actor: "human",
            op,
            project: None,
            keys: &[],
            target: None,
            decision: Decision::Allowed,
            reason: None,
        };
        let line = log
            .append(Some(&lines), len, record, key, Priority::Ordinary, "2026-01-01T00:00:00Z")
            .unwrap();
        log.advance(&line.event);
        len += line.to_json_text().len() as u64 + 1;
        lines.push(Some(line));
    }
    let texts = lines.iter().flatten().map(|l| l.to_json_text());
    let rows = texts.map(|t| json_of(&serde_json::from_str(&t).unwrap())).collect();
    object(vec![("entries", Json::Array(rows)), ("next_before_seq", Json::Null)])
}

#[test]
fn d6_audit_marks_unauthenticated_entries() {
    let all = audit_show(&audit_page()).unwrap().entries;
    assert!(
        all.iter().any(|e| !e.authenticated),
        "locked-era entry must read back unauthenticated"
    );
    let max = all.iter().map(|e| e.seq).max().expect("entries");
    assert!(
        all.iter().filter(|e| e.seq == max).all(|e| e.authenticated),
        "newest unlocked entries must be authenticated"
    );
}

#[test]
fn d6_audit_first_page_is_ascending_with_cursor() {
    let page = audit_show(&audit_page()).expect("first page must succeed");
    assert!(!page.entries.is_empty(), "fresh-unlocked vault has entries");
    let seqs: Vec<u64> = page.entries.iter().map(|e| e.seq).collect();
    let mut sorted = seqs.clone();
    sorted.sort_unstable();
    assert_eq!(seqs, sorted, "entries must be ascending by seq");
    match page.next_before_seq {
        Some(b) => assert_eq!(b + 1, seqs[0]),
        None => assert_eq!(seqs[0], 1, "null cursor means the page starts at seq 1"),
    }
    assert!(
        page.entries.last().expect("non-empty").authenticated,
        "newest unlocked entry must be authenticated"
    );
}
