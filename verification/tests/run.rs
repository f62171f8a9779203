use svault::broker::run::{
    finish_run, peer_gone, Act, Event, Exit, Launch, Look, Run, RunAct, RunEvent, Stage,
};
use svault::error::VaultError;
use svault::json::Json;
use svault::wire::{AuthField, Request};

fn s(t: &str) -> String {
    t.to_string()
}

fn request(token: Option<&str>, passphrase: Option<&str>) -> Request {
    Request {
        v: 1,
        id: s("q1"),
        op: s("run_with_secrets"),
        auth: Some(AuthField {
            token: token.map(s),
            passphrase: passphrase.map(s),
            session: None,
        }),
        params: Json::object(),
    }
}

fn launch(keys: Option<Vec<String>>, timeout_secs: Option<u64>) -> Launch<String, Vec<String>> {
    Launch {
        project: s("acme"),
        executable: s("/bin/true"),
        arg_count: 1,
        keys,
        cwd: None,
        timeout_secs,
    }
}

/// Feeds events to a run, and gives the last action.
fn feed(run: &mut Run, events: Vec<RunEvent>) -> RunAct {
    let mut last = Act::Quit;
    for e in events {
        assert!(run.accepts(&e));
        last = run.step(e);
    }
    last
}

fn admitted(l: Launch<String, Vec<String>>) -> Vec<RunEvent> {
    vec![
        Event::Done,
        Event::Parsed(l),
        Event::Flag(true),
        Event::Agent(Some(s("bot"))),
        Event::Flag(true),
        Event::Flag(true),
    ]
}

fn started() -> Run {
    let (mut run, first) = Run::new(&request(Some("t"), None), 3, 16, 86400);
    assert!(matches!(first, Act::LockIfIdle));
    feed(&mut run, admitted(launch(Some(vec![s("A")]), Some(10))));
    let act = feed(&mut run, vec![Event::Flag(true)]);
    assert!(matches!(act, Act::BuildEnv { keys, .. } if keys == ["A"]));
    let act = feed(&mut run, vec![Event::Done, Event::Named(s("r1")), Event::Done]);
    assert!(matches!(act, Act::RecordAllowed { actor, .. } if actor == "agent:bot"));
    let act = feed(&mut run, vec![Event::Done]);
    assert!(matches!(act, Act::Spawn));
    let act = feed(&mut run, vec![Event::Spawned(42), Event::Flag(true)]);
    assert!(matches!(act, Act::RecordStarted { .. }));
    match feed(&mut run, vec![Event::Done]) {
        Act::Announce(response) => {
            let body = response.result.unwrap();
            assert_eq!(body.text_at("run_id"), Some("r1"));
            assert_eq!(body.uint_at("pid"), Some(42));
        }
        _ => panic!("the start is announced"),
    }
    let act = feed(&mut run, vec![Event::Done]);
    assert!(matches!(act, Act::Look));
    run
}

fn look(look: Look<String>, elapsed_secs: u64, peer_gone: bool) -> RunEvent {
    Event::Looked { look, elapsed_secs, peer_gone }
}

fn refusal(act: RunAct) -> (Option<&'static str>, String) {
    match act {
        Act::Refuse { denial, response, .. } => {
            let why = denial.map(|d| d.why.code());
            (why, response.error.unwrap().code)
        }
        _ => panic!("the run is refused"),
    }
}

#[test]
fn a_run_that_exits_is_answered_with_its_code() {
    let mut run = started();
    let act = feed(&mut run, vec![look(Look::Running, 0, false)]);
    assert!(matches!(act, Act::Sleep));
    let act = feed(&mut run, vec![Event::Done]);
    assert!(matches!(act, Act::Look));
    let exit = Exit { code: Some(3), signal: None };
    let act = feed(&mut run, vec![look(Look::Exited(exit), 1, false)]);
    assert!(matches!(act, Act::Finish { pgid: 42, reap: false, .. }));
    let act = feed(&mut run, vec![Event::Done]);
    assert!(matches!(act, Act::RecordExited { exit_code: Some(3), .. }));
    let act = feed(&mut run, vec![Event::Done]);
    assert!(matches!(act, Act::CheckPeer));
    match feed(&mut run, vec![Event::Flag(false)]) {
        Act::Answer(response) => {
            let body = response.result.unwrap();
            assert_eq!(body.text_at("run_id"), Some("r1"));
            assert_eq!(body.int_at("exit_code"), Some(3));
        }
        _ => panic!("the exit is answered"),
    }
    assert_eq!(run.stage(), Stage::Over);
}

#[test]
fn time_limits_and_lost_clients_end_a_run() {
    for (elapsed, gone) in [(10, false), (1, true)] {
        let mut run = started();
        let act = feed(&mut run, vec![look(Look::Running, elapsed, gone)]);
        assert!(matches!(act, Act::Finish { pgid: 42, reap: true, .. }));
    }
    let mut run = started();
    let act = feed(&mut run, vec![look(Look::Running, 9, false)]);
    assert!(matches!(act, Act::Sleep));
    let mut run = started();
    let act = feed(&mut run, vec![look(Look::Failed, 0, false)]);
    assert!(matches!(act, Act::Finish { .. }));
}

#[test]
fn descriptors_must_be_three() {
    let (mut run, _) = Run::new(&request(Some("t"), None), 2, 16, 86400);
    let (why, code) = refusal(feed(&mut run, vec![Event::Done]));
    assert_eq!(why, Some("E_INVALID_INPUT"));
    assert_eq!(code, "E_INVALID_INPUT");
}

#[test]
fn only_known_agents_run() {
    let (mut run, _) = Run::new(&request(None, Some("p")), 3, 16, 86400);
    let (_, code) = refusal(feed(
        &mut run,
        vec![Event::Done, Event::Parsed(launch(None, None)), Event::Flag(true)],
    ));
    assert_eq!(code, "E_AUTH");
    let (mut run, _) = Run::new(&request(Some("t"), None), 3, 16, 86400);
    let (_, code) = refusal(feed(
        &mut run,
        vec![
            Event::Done,
            Event::Parsed(launch(None, None)),
            Event::Flag(true),
            Event::Agent(None),
        ],
    ));
    assert_eq!(code, "E_AUTH");
    let (mut run, _) = Run::new(&request(Some("t"), Some("p")), 3, 16, 86400);
    let (_, code) = refusal(feed(
        &mut run,
        vec![Event::Done, Event::Parsed(launch(None, None)), Event::Flag(true)],
    ));
    assert_eq!(code, "E_PROTOCOL");
    let (mut run, _) = Run::new(&request(Some("t"), None), 3, 16, 86400);
    let (why, code) = refusal(feed(
        &mut run,
        vec![Event::Done, Event::Parsed(launch(None, None)), Event::Flag(false)],
    ));
    assert_eq!((why, code.as_str()), (None, "E_NOT_FOUND"));
}

#[test]
fn locked_vaults_and_missing_grants_refuse() {
    let (mut run, _) = Run::new(&request(Some("t"), None), 3, 16, 86400);
    let mut events = admitted(launch(None, None));
    events.truncate(4);
    events.push(Event::Flag(false));
    let (why, code) = refusal(feed(&mut run, events));
    assert_eq!((why, code.as_str()), (Some("E_LOCKED"), "E_LOCKED"));
    let (mut run, _) = Run::new(&request(Some("t"), None), 3, 16, 86400);
    let mut events = admitted(launch(None, None));
    events.truncate(5);
    events.push(Event::Flag(false));
    let (why, code) = refusal(feed(&mut run, events));
    assert_eq!((why, code.as_str()), (Some("E_PERMISSION"), "E_PERMISSION"));
}

#[test]
fn all_keys_are_sorted_and_bounded() {
    let (mut run, _) = Run::new(&request(Some("t"), None), 3, 2, 86400);
    let act = feed(&mut run, admitted(launch(None, None)));
    assert!(matches!(act, Act::ListKeys { .. }));
    let act = feed(&mut run, vec![Event::Keys(vec![s("B"), s("A")])]);
    assert!(matches!(act, Act::BuildEnv { keys, .. } if keys == ["A", "B"]));
    let (mut run, _) = Run::new(&request(Some("t"), None), 3, 2, 86400);
    feed(&mut run, admitted(launch(None, None)));
    let (_, code) = refusal(feed(&mut run, vec![Event::Keys(vec![s("A"), s("B"), s("C")])]));
    assert_eq!(code, "E_INVALID_INPUT");
    let (mut run, _) = Run::new(&request(Some("t"), None), 3, 2, 86400);
    feed(&mut run, admitted(launch(None, None)));
    let (_, code) = refusal(feed(&mut run, vec![Event::Keys(Vec::new())]));
    assert_eq!(code, "E_INVALID_INPUT");
}

#[test]
fn a_missing_key_refuses_the_run() {
    let (mut run, _) = Run::new(&request(Some("t"), None), 3, 16, 86400);
    let act = feed(&mut run, admitted(launch(Some(vec![s("A"), s("B")]), None)));
    assert!(matches!(act, Act::LookUp { key, .. } if key == "A"));
    let act = feed(&mut run, vec![Event::Flag(false)]);
    assert!(matches!(act, Act::LookUp { key, .. } if key == "B"));
    let (_, code) = refusal(feed(&mut run, vec![Event::Flag(true)]));
    assert_eq!(code, "E_NOT_FOUND");
}

#[test]
fn a_child_never_outlives_its_registration() {
    let (mut run, _) = Run::new(&request(Some("t"), None), 3, 16, 86400);
    feed(&mut run, admitted(launch(Some(vec![s("A")]), None)));
    feed(
        &mut run,
        vec![
            Event::Flag(true),
            Event::Done,
            Event::Named(s("r1")),
            Event::Done,
            Event::Done,
            Event::Spawned(42),
        ],
    );
    let act = feed(&mut run, vec![Event::Flag(false)]);
    assert!(matches!(act, Act::EndGroup { pgid: 42 }));
    match feed(&mut run, vec![Event::Done]) {
        Act::Refuse { release, response, .. } => {
            assert_eq!(release, Some(s("r1")));
            assert_eq!(response.error.unwrap().code, "E_PERMISSION");
        }
        _ => panic!("the run is refused"),
    }
}

#[test]
fn unwritten_records_keep_the_child_from_starting() {
    let (mut run, _) = Run::new(&request(Some("t"), None), 3, 16, 86400);
    feed(&mut run, admitted(launch(Some(vec![s("A")]), None)));
    feed(
        &mut run,
        vec![Event::Flag(true), Event::Done, Event::Named(s("r1")), Event::Done],
    );
    let (why, code) = refusal(feed(&mut run, vec![Event::Failed(VaultError::AuditFull("full"))]));
    assert_eq!((why, code.as_str()), (None, "E_AUDIT_WRITE"));
}

#[test]
fn groups_end_where_the_run_was_registered() {
    assert_eq!(finish_run(true, 42), Some(42));
    assert_eq!(finish_run(false, 42), None);
    assert!(peer_gone(true, None, 104, 32));
    assert!(!peer_gone(false, None, 104, 32));
    assert!(peer_gone(false, Some(104), 104, 32));
    assert!(peer_gone(false, Some(32), 104, 32));
    assert!(!peer_gone(false, Some(11), 104, 32));
}
