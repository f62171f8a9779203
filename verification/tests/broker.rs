use svault::audit::{Decision, Priority};
use svault::broker::daemon::{
    admits_connection, admits_peer, created, idle_actor, idle_lock_due, lock_and_drain, lock_record,
    take_in, terminate_matching_runs,
    Daemon, DaemonConfig, Derivation, Facts, Failure, Handled, IdleLock, IdleWatchdog, Intake,
    LockNext, LockPart, RunHandle, Wait, MAX_CONCURRENT_CONNECTIONS,
};
use svault::broker::dispatch::{
    begin, resume, Call, Context, Need, Reply, SessionCall, SessionGrant, SessionWindow, Stage,
    Step, Trace,
};
use svault::broker::gate::{wants_proof, Denial, Identity};
use svault::broker::ops::Operation;
use svault::broker::params::{
    keys_param, lease_credential_param, project_params, reject_lease_on_human_op,
};
use svault::broker::rows::{AgentRow, ProjectRow, RunRow, SecretRow};
use svault::broker_identity::BrokerIdentity;
use svault::json::Json;
use svault::wire::{AuthField, Request, Response};

const PASS: &str = "correct horse battery";

fn s(t: &str) -> String {
    t.to_string()
}

fn object(members: &[(&str, &str)]) -> Json {
    Json::Object(members.iter().map(|(k, v)| (s(k), Json::string(v))).collect())
}

struct Agent {
    name: String,
    token: String,
    active: bool,
}

struct Grant {
    agent: String,
    project: String,
    ops: String,
}

/// A vault session in memory, as far as the tests below need one.
struct Vault {
    passphrase: String,
    locked: bool,
    audit_full: bool,
    projects: Vec<String>,
    secrets: Vec<(String, String)>,
    agents: Vec<Agent>,
    grants: Vec<Grant>,
}

fn failed(code: &str) -> Reply {
    Reply::Failed { code: s(code), msg: s("refused by the session") }
}

impl Vault {
    fn agent_id(&self, name: &str) -> String {
        format!("id-{name}")
    }

    fn resolve(&self, token: &str) -> Option<String> {
        let found = self.agents.iter().find(|a| a.token == token && a.active)?;
        Some(self.agent_id(&found.name))
    }

    fn answer(&mut self, call: SessionCall) -> Reply {
        match call {
            Call::AuthorizeLease { agent, project, need, .. } => {
                let word = match need {
                    Need::Inject => "inject",
                    Need::Read => "read",
                    Need::Reveal => "reveal",
                };
                let allowed = self
                    .grants
                    .iter()
                    .any(|g| g.agent == agent && g.project == project && g.ops.contains(word));
                if allowed {
                    Reply::Actor(agent)
                } else {
                    failed("E_PERMISSION")
                }
            }
            Call::Status { .. } => {
                Reply::Status { version: 1, created: s("today"), locked: self.locked }
            }
            Call::LockAndDrain { .. } => {
                self.locked = true;
                Reply::Done
            }
            Call::Unlock => {
                self.locked = false;
                Reply::Done
            }
            Call::OpenSession { .. } => {
                if self.audit_full {
                    failed("E_AUDIT_FULL")
                } else {
                    Reply::Session(SessionGrant {
                        credential: s("session-credential"),
                        prefix: s("5e55"),
                        window: window(),
                    })
                }
            }
            Call::ProjectAdd { name, .. } => {
                self.projects.push(name);
                Reply::Done
            }
            Call::ProjectList { .. } => Reply::Projects(
                self.projects
                    .iter()
                    .map(|p| ProjectRow { name: p.clone(), paths: Vec::new() })
                    .collect(),
            ),
            Call::SecretSet { project, key, .. } => {
                self.secrets.push((project, key));
                Reply::Done
            }
            Call::SecretList { project, .. } => Reply::Secrets(
                self.secrets
                    .iter()
                    .filter(|(p, _)| *p == project)
                    .map(|(_, k)| SecretRow { key: k.clone(), updated: s("now") })
                    .collect(),
            ),
            Call::AgentAdd { name, .. } => {
                let token = format!("token-of-{name}");
                let agent_id = self.agent_id(&name);
                self.agents.push(Agent { name, token: token.clone(), active: true });
                Reply::AgentAdded { agent_id, token }
            }
            Call::AgentRevoke { name, .. } => {
                for a in self.agents.iter_mut() {
                    if a.name == name {
                        a.active = false;
                    }
                }
                Reply::AgentId(self.agent_id(&name))
            }
            Call::AgentList { .. } => Reply::Agents(
                self.agents
                    .iter()
                    .map(|a| AgentRow {
                        name: a.name.clone(),
                        status: s(if a.active { "active" } else { "revoked" }),
                        token_prefix: s("ab12"),
                    })
                    .collect(),
            ),
            Call::ParseOps { ops } => Reply::Ops(ops.split(',').map(|o| s(o)).collect()),
            Call::GrantAdd { agent, project, ops, .. } => {
                let agent = self.agent_id(&agent);
                self.grants.push(Grant { agent, project, ops: ops.join(",") });
                Reply::Granted { could_run: None }
            }
            Call::TerminateRuns { .. } => Reply::Done,
            _ => failed("E_UNEXPECTED"),
        }
    }
}

fn window() -> SessionWindow {
    SessionWindow {
        expires_at: s("soon"),
        expires_in: 900,
        max_expires_at: s("later"),
        max_expires_in: 28800,
    }
}

struct Broker {
    daemon: Daemon,
    vault: Option<Vault>,
    denials: Vec<Denial>,
}

fn broker() -> Broker {
    let config = DaemonConfig {
        socket_path: b"/run/svault.sock".to_vec(),
        vault_path: b"/data/vault.enc".to_vec(),
        idle_lock: 60,
    };
    Broker {
        daemon: Daemon::new(config, BrokerIdentity::generate().unwrap()),
        vault: None,
        denials: Vec::new(),
    }
}

impl Broker {
    fn handle_request(&mut self, req: Request) -> Response {
        let facts = match &self.vault {
            None => Facts {
                vault_exists: false,
                derivation: Derivation::Absent,
                idle: IdleLock::NotDue,
                agent: None,
                session_actor: None,
                locked: true,
            },
            Some(v) => Facts {
                vault_exists: true,
                derivation: if wants_proof(&req) {
                    Derivation::Derived { valid: req.passphrase() == Some(&v.passphrase) }
                } else {
                    Derivation::Absent
                },
                idle: IdleLock::NotDue,
                agent: match req.token() {
                    Some(t) => v.resolve(t),
                    None => None,
                },
                session_actor: None,
                locked: v.locked,
            },
        };
        match self.daemon.handle_request(&req, facts) {
            Handled::Answer { denial, response } => {
                self.denials.extend(denial);
                response
            }
            Handled::Create { passphrase } => {
                self.vault = Some(Vault {
                    passphrase,
                    locked: false,
                    audit_full: false,
                    projects: Vec::new(),
                    secrets: Vec::new(),
                    agents: Vec::new(),
                    grants: Vec::new(),
                });
                created(&req, "/data/vault.enc")
            }
            Handled::Dispatch { ctx, step } => self.run(&req, ctx, step),
        }
    }

    fn run(&mut self, req: &Request, ctx: Context, first: Step) -> Response {
        let mut step = first;
        loop {
            match step {
                Step::Ask { call, stage } => {
                    let reply = self.vault.as_mut().unwrap().answer(call);
                    step = resume(req, &ctx, stage, reply);
                }
                Step::Answer { trace, response } => {
                    if let Trace::Denied(d) = trace {
                        self.denials.push(d);
                    }
                    return response;
                }
                Step::Stuck => panic!("the session gave a foreign reply"),
            }
        }
    }
}

fn req(id: &str, op: &str, token: Option<&str>, params: Json) -> Request {
    Request {
        v: 1,
        id: s(id),
        op: s(op),
        auth: Some(AuthField { token: token.map(s), passphrase: None, session: None }),
        params,
    }
}

fn reqh(id: &str, op: &str, pass: &str, params: Json) -> Request {
    Request {
        v: 1,
        id: s(id),
        op: s(op),
        auth: Some(AuthField { token: None, passphrase: Some(s(pass)), session: None }),
        params,
    }
}

fn reqn(id: &str, op: &str, params: Json) -> Request {
    Request { v: 1, id: s(id), op: s(op), auth: None, params }
}

fn err_code(resp: &Response) -> String {
    resp.error.as_ref().unwrap().code.to_string()
}

/// A broker with an open vault, the project `acme` and the agent `harness`.
fn ready() -> (Broker, String) {
    let mut d = broker();
    assert!(d.handle_request(reqh("1", "vault.create", PASS, Json::object())).ok);
    assert!(d.handle_request(reqh("2", "vault.unlock", PASS, Json::object())).ok);
    assert!(d.handle_request(reqh("3", "project.add", PASS, object(&[("name", "acme")]))).ok);
    let resp = d.handle_request(reqh("4", "agents.add", PASS, object(&[("name", "harness")])));
    assert!(resp.ok);
    let token = s(resp.result.unwrap().text_at("token").unwrap());
    (d, token)
}

fn list(token: &str) -> Request {
    req("6", "secrets.list", Some(token), object(&[("project", "acme")]))
}

fn grant_read() -> Request {
    let params = object(&[("agent", "harness"), ("project", "acme"), ("ops", "read")]);
    reqh("7", "grants.grant", PASS, params)
}

#[test]
fn no_vault_before_init() {
    let mut d = broker();
    let resp = d.handle_request(reqn("1", "vault.status", Json::object()));
    assert_eq!(err_code(&resp), "E_NOT_FOUND");
}

#[test]
fn full_setup_then_agent_list_with_grant() {
    let (mut d, token) = ready();
    let params = object(&[
        ("project", "acme"),
        ("key", "STRIPE_KEY"),
        ("value", "sk-trap-0xf00dVALUE"),
    ]);
    assert!(d.handle_request(reqh("4", "secret.set", PASS, params)).ok);

    let resp = d.handle_request(list(&token));
    assert_eq!(err_code(&resp), "E_PERMISSION");

    assert!(d.handle_request(grant_read()).ok);
    let resp = d.handle_request(list(&token));
    assert!(resp.ok);
    let text = resp.result.unwrap().to_text();
    assert!(text.contains("STRIPE_KEY"));
    assert!(!text.contains("sk-trap-0xf00dVALUE"));
}

#[test]
fn unknown_and_revoked_tokens_fail_closed() {
    let (mut d, token) = ready();
    d.handle_request(grant_read());
    let resp = d.handle_request(list("bogus-token"));
    assert_eq!(err_code(&resp), "E_AUTH");
    assert!(d.handle_request(reqh("7", "agents.revoke", PASS, object(&[("name", "harness")]))).ok);
    let resp = d.handle_request(list(&token));
    assert_eq!(err_code(&resp), "E_AUTH");
}

const HUMAN_OPS: [&str; 12] = [
    "agents.add",
    "agents.revoke",
    "agents.list",
    "grants.grant",
    "grants.list",
    "project.add",
    "project.list",
    "secret.set",
    "secret.delete",
    "audit.show",
    "audit.verify",
    "vault.unlock",
];

fn any_params() -> Json {
    let mut p = object(&[("name", "x"), ("project", "p"), ("passphrase", "x")]);
    p.put("tail", Json::UInt(1));
    p
}

#[test]
fn human_only_ops_reject_agent_tokens() {
    let (mut d, token) = ready();
    for op in HUMAN_OPS {
        let resp = d.handle_request(req(op, op, Some(&token), any_params()));
        assert_eq!(err_code(&resp), "E_HUMAN_REQUIRED", "op {op} must be human-only");
    }
}

#[test]
fn agent_can_lock_but_not_unlock_and_lock_takes_effect_immediately() {
    let (mut d, token) = ready();
    d.handle_request(grant_read());
    let resp = d.handle_request(req("6", "vault.lock", Some(&token), Json::object()));
    assert!(resp.ok);
    let resp = d.handle_request(list(&token));
    assert_eq!(err_code(&resp), "E_LOCKED");
    let resp = d.handle_request(req(
        "8",
        "vault.unlock",
        Some(&token),
        object(&[("passphrase", PASS)]),
    ));
    assert_eq!(err_code(&resp), "E_HUMAN_REQUIRED");
    let resp = d.handle_request(reqh("9", "vault.unlock", PASS, Json::object()));
    assert!(resp.ok);
}

#[test]
fn unimplemented_ops_report_protocol_errors() {
    let (mut d, token) = ready();
    for op in HUMAN_OPS {
        let resp = d.handle_request(req(op, op, Some(&token), any_params()));
        assert_eq!(err_code(&resp), "E_HUMAN_REQUIRED", "op {op} must be human-only");
    }
    let resp = d.handle_request(reqn("x1", "agents.add", object(&[("name", "esc")])));
    assert_eq!(err_code(&resp), "E_AUTH");
    let params = object(&[("project", "acme"), ("key", "K"), ("value", "v")]);
    let resp = d.handle_request(reqn("x2", "secret.set", params));
    assert_eq!(err_code(&resp), "E_AUTH");
    let resp = d.handle_request(reqn("x3", "vault.status", Json::object()));
    assert!(resp.ok);
}

#[test]
fn unauthenticated_request_is_never_human() {
    let (mut d, token) = ready();
    for op in ["agents.add", "grants.grant", "secret.set", "project.add", "audit.show"] {
        let resp = d.handle_request(reqn("n1", op, object(&[("name", "x"), ("project", "p")])));
        assert_eq!(err_code(&resp), "E_AUTH", "op {op} must require credentials");
    }
    let resp = d.handle_request(req("n2", "agents.add", Some(&token), object(&[("name", "esc")])));
    assert_eq!(err_code(&resp), "E_HUMAN_REQUIRED");
    let params = object(&[("project", "acme"), ("key", "K"), ("value", "v")]);
    let resp = d.handle_request(req("n3", "secret.set", Some(&token), params));
    assert_eq!(err_code(&resp), "E_HUMAN_REQUIRED");
}

#[test]
fn human_proof_gates_privileged_ops_without_oracle() {
    let (mut d, _) = ready();
    let params = || object(&[("project", "acme"), ("key", "K"), ("value", "v")]);
    let wrong = d.handle_request(reqh("4", "secret.set", "wrong-passphrase-guess", params()));
    assert_eq!(err_code(&wrong), "E_AUTH");
    let unknown_token = d.handle_request(req("5", "secret.set", Some("bogus"), params()));
    assert_eq!(
        wrong.error.as_ref().unwrap().msg,
        unknown_token.error.as_ref().unwrap().msg
    );
    let ok = d.handle_request(reqh("6", "secret.set", PASS, params()));
    assert!(ok.ok);
}

#[test]
fn create_twice_reports_exists() {
    let mut d = broker();
    let resp = d.handle_request(reqh("1", "vault.create", PASS, Json::object()));
    assert!(resp.ok);
    let resp = d.handle_request(reqh("2", "vault.create", PASS, Json::object()));
    assert_eq!(err_code(&resp), "E_EXISTS");
}

#[test]
fn human_only_has_no_duplicates_and_no_entry_without_an_arm() {
    let human_only = [
        "vault.create",
        "vault.unlock",
        "project.add",
        "project.list",
        "project.path.add",
        "project.path.remove",
        "project.remove",
        "secret.set",
        "secret.delete",
        "agents.add",
        "agents.revoke",
        "agents.list",
        "grants.grant",
        "grants.revoke",
        "grants.list",
        "audit.show",
        "audit.verify",
        "approvals.pending",
        "approvals.approve",
        "approvals.deny",
        "session.open",
        "session.touch",
        "session.close",
        "runs.list",
        "vault.health",
    ];
    for op in human_only {
        let o = Operation::parse(op).unwrap();
        assert!(o.human_only(), "HUMAN_ONLY entry without a dispatch arm: {op}");
        assert_eq!(o.name(), op);
    }
    assert!(Operation::parse("projects.add").is_none(), "stale entry must stay removed");
    let mut d = broker();
    d.handle_request(reqh("1", "vault.create", PASS, Json::object()));
    let resp = d.handle_request(reqh("2", "projects.add", PASS, Json::object()));
    assert_eq!(err_code(&resp), "E_PROTOCOL");
}

#[test]
fn unlock_succeeds_without_session_seed_when_audit_log_full() {
    let mut d = broker();
    d.handle_request(reqh("1", "vault.create", PASS, Json::object()));
    d.handle_request(reqh("2", "vault.lock", PASS, Json::object()));
    d.vault.as_mut().unwrap().audit_full = true;
    let resp = d.handle_request(reqh("3", "vault.unlock", PASS, Json::object()));
    assert!(resp.ok, "unlock must succeed at the ceiling, got {:?}", resp.error);
    let result = resp.result.as_ref().expect("ok carries a result");
    assert_eq!(result.bool_at("unlocked"), Some(true));
    for field in [
        "session_credential",
        "session_prefix",
        "expires_at",
        "expires_in",
        "max_expires_at",
        "max_expires_in",
    ] {
        assert!(
            result.get(field).is_none(),
            "field {field} must be absent when the seed was not minted"
        );
    }
    let resp = d.handle_request(reqh("4", "session.open", PASS, Json::object()));
    assert_eq!(err_code(&resp), "E_AUDIT_FULL");
}

#[test]
fn an_unlock_carries_its_session() {
    let (mut d, _) = ready();
    let resp = d.handle_request(reqh("3", "vault.unlock", PASS, Json::object()));
    let result = resp.result.unwrap();
    assert_eq!(result.text_at("session_credential"), Some("session-credential"));
    assert_eq!(result.uint_at("expires_in"), Some(900));
    assert_eq!(result.text_at("max_expires_at"), Some("later"));
}

#[test]
fn refused_agents_leave_a_trace() {
    let (mut d, token) = ready();
    d.denials.clear();
    d.handle_request(req("1", "agents.add", Some(&token), object(&[("name", "x")])));
    assert_eq!(d.denials.len(), 1);
    assert_eq!(d.denials[0].op, "agents.add");
    assert_eq!(d.denials[0].reason, "E_HUMAN_REQUIRED");
}

#[test]
fn failures_before_the_gate_are_answered() {
    let d = broker();
    let facts = |derivation: Derivation, idle: IdleLock| Facts {
        vault_exists: true,
        derivation,
        idle,
        agent: None,
        session_actor: None,
        locked: false,
    };
    let broken = || Failure { code: s("E_VAULT_CORRUPT"), msg: s("no key slots") };
    let r = reqh("1", "vault.unlock", PASS, Json::object());
    for f in [
        facts(Derivation::Failed(broken()), IdleLock::NotDue),
        facts(Derivation::Absent, IdleLock::Failed(broken())),
    ] {
        match d.daemon.handle_request(&r, f) {
            Handled::Answer { denial, response } => {
                assert_eq!(denial.unwrap().reason, "E_VAULT_CORRUPT");
                assert_eq!(err_code(&response), "E_VAULT_CORRUPT");
            }
            _ => panic!("a failed step is answered"),
        }
    }
}

fn agent_context(locked: bool) -> Context {
    Context {
        actor: s("agent:bot"),
        identity: Identity::Agent(s("id-bot")),
        locked,
        proven: false,
    }
}

#[test]
fn a_lost_grant_ends_runs() {
    let r = reqh("1", "grants.revoke", PASS, object(&[("agent", "bot"), ("project", "acme")]));
    let ctx = Context { actor: s("human"), identity: Identity::Human, locked: false, proven: true };
    match begin(&r, &ctx) {
        Step::Ask { call: Call::GrantRevoke { agent, project, .. }, stage } => {
            assert_eq!((agent.as_str(), project.as_str()), ("bot", "acme"));
            match resume(&r, &ctx, stage, Reply::AgentId(s("id-bot"))) {
                Step::Ask { call: Call::TerminateRuns { agent, project, .. }, .. } => {
                    assert_eq!(agent, "id-bot");
                    assert_eq!(project, Some(s("acme")));
                }
                _ => panic!("the runs are ended"),
            }
        }
        _ => panic!("the grant is revoked"),
    }
}

#[test]
fn a_reveal_by_an_agent_needs_an_approval() {
    let r = req("1", "reveal", Some("t"), object(&[("project", "acme"), ("key", "K")]));
    let ctx = agent_context(false);
    let stage = match begin(&r, &ctx) {
        Step::Ask { call: Call::AuthorizeLease { need, .. }, stage } => {
            assert_eq!(need, Need::Reveal);
            stage
        }
        _ => panic!("the permission is asked for"),
    };
    let stage = match resume(&r, &ctx, stage, Reply::Actor(s("agent:bot"))) {
        Step::Ask { call: Call::RequestApproval { key, .. }, stage } => {
            assert_eq!(key, "K");
            stage
        }
        _ => panic!("an approval is requested"),
    };
    let reply = Reply::Approval { id: s("ap-1"), expires_in: 300 };
    match resume(&r, &ctx, stage, reply) {
        Step::Answer { response, .. } => {
            assert!(!response.ok);
            let e = response.error.unwrap();
            assert_eq!(e.code, "E_APPROVAL_PENDING");
            assert_eq!(e.data.unwrap().text_at("approval_id"), Some("ap-1"));
        }
        _ => panic!("the reveal is pending"),
    }
    let claim = req(
        "2",
        "reveal",
        Some("t"),
        object(&[("project", "acme"), ("key", "K"), ("approval_id", "ap-1")]),
    );
    match resume(&claim, &ctx, Stage::Revealing, Reply::Actor(s("agent:bot"))) {
        Step::Ask { call: Call::RevealClaim { approval_id, .. }, .. } => {
            assert_eq!(approval_id, "ap-1");
        }
        _ => panic!("the approval is claimed"),
    }
}

#[test]
fn secrets_that_are_not_text_are_not_revealed() {
    let r = reqh("1", "reveal", PASS, object(&[("project", "acme"), ("key", "K")]));
    let ctx = Context { actor: s("human"), identity: Identity::Human, locked: false, proven: true };
    let finish = || Stage::Finish(Operation::Reveal);
    match resume(&r, &ctx, finish(), Reply::Secret(b"sk-1".to_vec())) {
        Step::Answer { response, .. } => {
            assert_eq!(response.result.unwrap().text_at("value"), Some("sk-1"));
        }
        _ => panic!("the value is answered"),
    }
    match resume(&r, &ctx, finish(), Reply::Secret(vec![0xff, 0xfe])) {
        Step::Answer { response, .. } => assert_eq!(err_code(&response), "E_INVALID_INPUT"),
        _ => panic!("the value is refused"),
    }
}

#[test]
fn a_signal_looks_twice() {
    let r = req("1", "run_signal", Some("t"), object(&[("run_id", "r1"), ("signal", "TERM")]));
    let ctx = agent_context(false);
    let run = || Reply::Run { project: s("acme"), pgid: 77 };
    let stage = match begin(&r, &ctx) {
        Step::Ask { call: Call::FindRun { .. }, stage } => stage,
        _ => panic!("the run is looked up"),
    };
    let stage = match resume(&r, &ctx, stage, run()) {
        Step::Ask { call: Call::RunGate { .. }, stage } => stage,
        _ => panic!("the vault and the grant are looked at"),
    };
    let open = Reply::RunGate { unlocked: true, authorized: true };
    let stage = match resume(&r, &ctx, stage, open) {
        Step::Ask { call: Call::ParseSignal { .. }, stage } => stage,
        _ => panic!("the signal is read"),
    };
    let stage = match resume(&r, &ctx, stage, Reply::Signal(15)) {
        Step::Ask { call: Call::FindRun { .. }, stage } => stage,
        _ => panic!("the run is looked up again"),
    };
    match resume(&r, &ctx, stage, run()) {
        Step::Ask { call: Call::SignalGroup { pgid, signal }, .. } => {
            assert_eq!((pgid, signal), (77, 15));
        }
        _ => panic!("the signal is sent"),
    }
}

#[test]
fn runs_are_listed_in_order() {
    let r = reqh("1", "runs.list", PASS, Json::object());
    let ctx = Context { actor: s("human"), identity: Identity::Human, locked: false, proven: true };
    let row = |id: &str, at: &str| RunRow {
        run_id: s(id),
        agent_id: s("a"),
        agent_name: Some(s("bot")),
        project: s("acme"),
        pid: 1,
        started_at: s(at),
    };
    let rows = vec![row("r2", "2026-01-02"), row("r1", "2026-01-01")];
    match resume(&r, &ctx, Stage::Finish(Operation::RunsList), Reply::Runs(rows)) {
        Step::Answer { response, .. } => {
            let text = response.result.unwrap().to_text();
            assert!(text.find("r1").unwrap() < text.find("r2").unwrap(), "{text}");
        }
        _ => panic!("the rows are answered"),
    }
}

#[test]
fn connections_are_capped() {
    assert!(admits_connection(MAX_CONCURRENT_CONNECTIONS - 1).is_ok());
    let extra = admits_connection(MAX_CONCURRENT_CONNECTIONS).unwrap_err();
    assert_eq!(extra.error.unwrap().msg, "too many concurrent connections");
}

#[test]
fn locking_goes_on_after_a_failure() {
    assert!(matches!(lock_and_drain(None, true), LockNext::Do(LockPart::Record)));
    assert!(matches!(
        lock_and_drain(Some(LockPart::Record), false),
        LockNext::Do(LockPart::EndRuns)
    ));
    assert!(matches!(
        lock_and_drain(Some(LockPart::EndRuns), true),
        LockNext::Do(LockPart::Persist)
    ));
    assert!(matches!(
        lock_and_drain(Some(LockPart::Persist), true),
        LockNext::Over { locked: true }
    ));
    assert!(idle_lock_due(true, false));
    assert!(!idle_lock_due(true, true));
}

#[test]
fn reservations_without_a_child_have_no_group() {
    let handle = |pgid: i32| RunHandle { run_id: s("r"), project: s("acme"), pgid };
    let ending = terminate_matching_runs("human", &vec![handle(5), handle(0), handle(6)]);
    assert_eq!(ending.groups, [5, 6]);
    assert_eq!(ending.revoked.len(), 3);
    let first = &ending.revoked[0];
    assert_eq!(first.actor, "human");
    assert_eq!((first.project.as_str(), first.run_id.as_str()), ("acme", "r"));
}

#[test]
fn a_lock_is_recorded_under_its_actor() {
    let (record, priority) = lock_record("agent:a1");
    assert_eq!((record.actor, record.op), ("agent:a1", "vault.lock"));
    assert_eq!(record.decision, Decision::Allowed);
    assert!(record.keys.is_empty() && record.project.is_none() && record.reason.is_none());
    assert_eq!(priority, Priority::Lifecycle);
    assert_eq!(idle_actor(), "human");
}

#[test]
fn the_watchdog_keeps_its_deadline() {
    let mut w = IdleWatchdog::new();
    assert!(matches!(w.wait_for_deadline(0), Wait::Park));
    w.arm(Some(100));
    assert!(matches!(w.wait_for_deadline(40), Wait::ParkFor(60)));
    assert!(matches!(w.wait_for_deadline(100), Wait::Fire));
    w.arm(None);
    assert!(matches!(w.wait_for_deadline(1000), Wait::Park));
    w.shutdown();
    assert!(matches!(w.wait_for_deadline(0), Wait::Exit));
}

#[test]
fn strangers_and_stray_descriptors_are_turned_away() {
    let r = reqn("1", "vault.status", Json::object());
    assert!(admits_peer(true).is_ok());
    assert_eq!(err_code(&admits_peer(false).unwrap_err()), "E_AUTH");
    match take_in(&r, 2, true) {
        Intake::RefuseRecorded { denial, response } => {
            assert_eq!(denial.reason, "E_INVALID_INPUT");
            assert_eq!(err_code(&response), "E_INVALID_INPUT");
        }
        _ => panic!("stray descriptors are refused"),
    }
    let hello = reqn("1", "broker.hello", Json::object());
    assert!(matches!(take_in(&hello, 0, false), Intake::Hello));
    assert!(matches!(take_in(&hello, 0, true), Intake::Refuse(_)));
    assert!(matches!(take_in(&hello, 1, false), Intake::Refuse(_)));
}

#[test]
fn parameters_are_read() {
    let lease = req("1", "secrets.list", Some("t"), object(&[("lease", "cap")]));
    assert_eq!(lease_credential_param(&lease), Ok(Some(s("cap"))));
    assert!(reject_lease_on_human_op(&lease).is_err());
    let none = req("1", "secrets.list", Some("t"), Json::object());
    assert_eq!(lease_credential_param(&none), Ok(None));
    assert!(reject_lease_on_human_op(&none).is_ok());
    let mut number = Json::object();
    number.put("lease", Json::UInt(3));
    assert!(lease_credential_param(&req("1", "x", None, number)).is_err());

    let mut keys = Json::object();
    keys.put("keys", Json::strings(&[s("A"), s("B")]));
    assert_eq!(keys_param(&keys), Ok(Some(vec![s("A"), s("B")])));
    assert_eq!(keys_param(&Json::object()), Ok(None));
    let mut wrong = Json::object();
    wrong.put("keys", Json::Array(vec![Json::UInt(1)]));
    assert!(keys_param(&wrong).is_err());

    let add = reqh("1", "project.add", PASS, object(&[("name", "acme")]));
    assert_eq!(project_params(&add), Some((s("acme"), Vec::new())));
}

#[test]
fn refusals_before_an_identity_are_recorded() {
    let (mut d, token) = ready();
    let before = d.denials.len();
    let mut twice = req("9", "vault.status", Some(&token), Json::object());
    twice.auth.as_mut().unwrap().passphrase = Some(s("p"));
    assert_eq!(err_code(&d.handle_request(twice)), "E_PROTOCOL");
    assert_eq!(d.denials.len(), before + 1);
    let last = d.denials.last().unwrap();
    assert_eq!((last.op.as_str(), last.reason.as_str()), ("vault.status", "E_PROTOCOL"));
    assert_eq!(last.actor, "unauthenticated");
    for session in ["", "stale"] {
        let mut lapsed = reqn("10", "vault.lock", Json::object());
        let auth = AuthField { token: None, passphrase: None, session: Some(s(session)) };
        lapsed.auth = Some(auth);
        assert_eq!(err_code(&d.handle_request(lapsed)), "E_SESSION_EXPIRED");
        assert_eq!(d.denials.last().unwrap().reason, "E_SESSION_EXPIRED");
    }
    assert_eq!(d.denials.len(), before + 3);
}
