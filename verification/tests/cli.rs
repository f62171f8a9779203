use svault::cli::grammar::{self, Args, Flag, Opt, Takes, Verb};
use svault::cli::launch::{
    build_argv, build_run_params, execute_run, started_line, validate_run_token_source,
    AllowedName, RunRequest,
};
use svault::cli::trust::{confirm_broker_pin, confirm_reset_tty, is_unexpected, trust_reset, trust_show};
use svault::cli::{
    self, agent_token, credential, idle_lock, lease_source, need, operation, params, prompt,
    read_trimmed, render_audit_line, report, reveal_refusal, socket_path, token_file_error,
    token_file_text, wants_lease, wants_value, Cmd, Command, Inputs, Need, Prompt, TokenSource,
};
use svault::client::{Auth, BrokerError, RunExit, RunStarted};
use svault::error::{IoFailure, VaultError};
use svault::json::Json;

fn option(name: &'static str, value: &'static str, takes: Takes) -> clap::Arg {
    let arg = clap::Arg::new(name).long(name).value_name(value);
    match takes {
        Takes::Text => arg,
        Takes::List => arg.action(clap::ArgAction::Append),
        Takes::Count => arg.value_parser(clap::builder::ValueParser::new(
            clap::builder::RangedU64ValueParser::<u64>::new(),
        )),
        Takes::Descriptor => arg.value_parser(clap::builder::ValueParser::new(
            clap::builder::RangedI64ValueParser::<i32>::new(),
        )),
    }
}

fn fixed(name: &str) -> &'static str {
    Box::leak(name.to_string().into_boxed_str())
}

fn leaf(verb: Verb, name: &str) -> clap::Command {
    let mut c = clap::Command::new(fixed(name));
    for p in verb.positionals() {
        c = c.arg(clap::Arg::new(fixed(&p)).required(true));
    }
    for o in verb.options() {
        let required = o == Opt::Ops || o == Opt::TtlSecs;
        c = c.arg(option(o.name(), o.value_name(), o.takes()).required(required));
    }
    c
}

/// The parser that the grammar describes.
fn parser() -> clap::Command {
    let mut root = clap::Command::new("svault").subcommand_required(true);
    for f in grammar::flags() {
        root = root.arg(option(f.name(), f.value_name(), f.takes()).global(true));
    }
    for v in grammar::verbs() {
        let words = v.words();
        if words.len() == 1 {
            root = root.subcommand(leaf(v, &words[0]));
        } else {
            if root.find_subcommand(&words[0]).is_none() {
                let group = clap::Command::new(fixed(&words[0]));
                root = root.subcommand(group.subcommand_required(true));
            }
            let child = leaf(v, &words[1]);
            root = root.mut_subcommand(fixed(&words[0]), |g| g.subcommand(child));
        }
    }
    root
}

fn texts(m: &clap::ArgMatches, name: &str) -> Vec<String> {
    match m.get_many::<String>(name) {
        Some(all) => all.cloned().collect(),
        None => Vec::new(),
    }
}

fn nothing() -> Args {
    Args {
        positionals: Vec::new(),
        keys: Vec::new(),
        env: Vec::new(),
        paths: Vec::new(),
        ops: None,
        cwd: None,
        approval_id: None,
        write_token_file: None,
        tail: None,
        ttl_secs: None,
        timeout_secs: None,
    }
}

fn s(t: &str) -> String {
    t.to_string()
}

fn object(members: Vec<(&str, Json)>) -> Json {
    Json::Object(members.into_iter().map(|(k, v)| (s(k), v)).collect())
}

fn error_code<T>(r: Result<T, VaultError>) -> &'static str {
    match r {
        Ok(_) => "",
        Err(e) => e.code(),
    }
}

#[test]
fn inject_command_accepts_keys_and_lease_file() {
    let m = parser()
        .try_get_matches_from([
            "svault",
            "inject",
            "acme",
            ".env",
            "--key",
            "API_KEY",
            "--lease-file",
            "/tmp/lease",
        ])
        .unwrap();
    let (word, sub) = m.subcommand().unwrap();
    assert_eq!(word, "inject");
    let mut args = nothing();
    for p in Verb::Inject.positionals() {
        args.positionals.push(sub.get_one::<String>(&p).unwrap().clone());
    }
    args.keys = texts(sub, Opt::Key.name());
    let command = grammar::command(Verb::Inject, &args).unwrap();
    assert!(matches!(
        command,
        Command::Inject {
            project,
            path,
            keys,
        } if project == "acme" && path == ".env" && keys == ["API_KEY"]
    ));
    assert_eq!(
        sub.get_one::<String>(Flag::LeaseFile.name()).map(|t| t.as_str()),
        Some("/tmp/lease")
    );
}

#[test]
fn no_argv_flag_carries_a_lease_credential() {
    let help = parser().render_help().to_string();
    assert!(help.contains("--lease-file"));
    for banned in ["--lease ", "--lease-id ", "--lease-credential "] {
        assert!(!help.contains(banned), "argv lease flag present: {banned}");
    }
    assert!(parser()
        .try_get_matches_from(["svault", "inject", "acme", ".env", "--lease", "cap"])
        .is_err());
}

#[test]
fn run_rejects_token_sources_that_alias_child_stdio() {
    for source in [["--token-fd", "0"], ["--token-file", "-"]] {
        let m = parser()
            .mut_subcommand("run", |c| {
                c.arg(
                    clap::Arg::new("COMMAND")
                        .required(true)
                        .num_args(1..)
                        .trailing_var_arg(true)
                        .allow_hyphen_values(true),
                )
            })
            .try_get_matches_from([
                "svault",
                source[0],
                source[1],
                "run",
                "acme",
                "--",
                "/bin/true",
            ])
            .unwrap();
        let fd = m.get_one::<i32>(Flag::TokenFd.name()).copied();
        let file = m.get_one::<String>(Flag::TokenFile.name()).map(|t| t.as_str());
        let outcome = validate_run_token_source(fd, file);
        let code = cli::run(&outcome);
        let err = outcome.err().unwrap().message();
        assert_eq!(code, 1);
        assert!(
            err.contains("run token source cannot alias child stdio"),
            "unexpected error for {source:?}: {err}"
        );
    }
}

#[test]
fn no_flag_accepts_token_or_passphrase_in_argv() {
    let help = parser().render_help().to_string();
    assert!(!help.contains("--token "));
    assert!(!help.contains("--passphrase "));
}

#[test]
fn token_descriptors_up_to_two_alias_the_child() {
    for fd in [0, 1, 2] {
        assert!(validate_run_token_source(Some(fd), None).is_err());
    }
    assert!(validate_run_token_source(Some(3), None).is_ok());
    assert!(validate_run_token_source(None, Some("/run/token")).is_ok());
    assert!(validate_run_token_source(None, None).is_ok());
}

#[test]
fn every_command_line_has_its_words() {
    let all = grammar::verbs();
    assert_eq!(all.len(), 35);
    let mut lines: Vec<String> = all.iter().map(|v| v.words().join(" ")).collect();
    lines.sort();
    lines.dedup();
    assert_eq!(lines.len(), 35);
    assert_eq!(Verb::ProjectPathAdd.words(), ["project", "path-add"]);
    assert_eq!(Verb::Run.options(), [Opt::Key, Opt::Cwd, Opt::Env, Opt::TimeoutSecs]);
    assert_eq!(Flag::TokenFd.takes(), Takes::Descriptor);
    assert_eq!(grammar::flags().len(), 8);
}

#[test]
fn missing_arguments_give_no_command() {
    let mut args = nothing();
    assert!(grammar::command(Verb::SecretList, &args).is_none());
    args.positionals.push(s("bot"));
    args.positionals.push(s("acme"));
    assert!(grammar::command(Verb::GrantAdd, &args).is_none());
    args.ops = Some(s("read"));
    assert!(matches!(
        grammar::command(Verb::GrantAdd, &args),
        Some(Command::GrantAdd { agent, project, ops })
            if agent == "bot" && project == "acme" && ops == "read"
    ));
    args.positionals.pop();
    assert!(grammar::command(Verb::LeaseCreate, &args).is_none());
    args.ttl_secs = Some(60);
    assert!(matches!(
        grammar::command(Verb::LeaseCreate, &args),
        Some(Command::LeaseCreate { ttl_secs: 60, .. })
    ));
    assert!(matches!(
        grammar::command(Verb::AuditShow, &nothing()),
        Some(Command::AuditShow { tail: 20 })
    ));
    assert!(grammar::command(Verb::Daemon, &nothing()).is_none());
}

#[test]
fn credentials_follow_the_need() {
    assert_eq!(prompt(Need::Human, true), Prompt::Once);
    assert_eq!(prompt(Need::Either, true), Prompt::Never);
    assert_eq!(prompt(Need::Either, false), Prompt::Once);
    assert_eq!(prompt(Need::NewPassphrase, false), Prompt::Confirmed);
    assert_eq!(prompt(Need::Agent, false), Prompt::Never);
    assert!(matches!(
        credential(Need::Agent, Some("t"), Some("p")),
        Ok(Auth::AgentToken(t)) if t == "t"
    ));
    assert!(matches!(
        credential(Need::Human, Some("t"), Some("p")),
        Ok(Auth::Passphrase(p)) if p == "p"
    ));
    assert!(matches!(
        credential(Need::Either, Some("t"), None),
        Ok(Auth::AgentToken(_))
    ));
    assert!(matches!(credential(Need::Nobody, Some("t"), Some("p")), Ok(Auth::Anonymous)));
    assert!(credential(Need::Agent, None, Some("p")).is_err());
}

#[test]
fn commands_ask_for_their_operations() {
    let inject: Cmd = Command::Inject { project: s("acme"), path: s(".env"), keys: vec![s("A")] };
    assert_eq!(operation(&inject).name(), "inject_file");
    assert_eq!(need(&inject), Need::Agent);
    let set: Cmd = Command::SecretSet { project: s("acme"), key: s("K") };
    assert_eq!(operation(&set).name(), "secret.set");
    assert!(operation(&set).human_only());
    assert_eq!(need(&set), Need::Human);
}

#[test]
fn parameters_hold_what_the_command_names() {
    let none = Inputs { passphrase: None, value: None, lease: None };
    let set: Cmd = Command::SecretSet { project: s("acme"), key: s("K") };
    let p = params(&set, &Inputs { passphrase: None, value: Some("v"), lease: None });
    assert_eq!(p.text_at("project"), Some("acme"));
    assert_eq!(p.text_at("key"), Some("K"));
    assert_eq!(p.text_at("value"), Some("v"));
    let list: Cmd = Command::SecretList { project: s("acme") };
    assert!(!params(&list, &none).present("lease"));
    let leased = Inputs { passphrase: None, value: None, lease: Some("cap") };
    let p = params(&list, &leased);
    assert_eq!(p.text_at("lease"), Some("cap"));
    assert_eq!(p.text_at("project"), Some("acme"));
}

#[test]
fn reports_read_as_they_should() {
    let status = object(vec![
        ("version", Json::UInt(1)),
        ("created", Json::string("2026-01-01")),
        ("locked", Json::Bool(false)),
    ]);
    assert_eq!(
        report(&Command::Status, &status).unwrap(),
        ["version: 1", "created: 2026-01-01", "state: unlocked"]
    );
    let locked = object(vec![("locked", Json::Bool(true))]);
    assert_eq!(report(&Command::Status, &locked).unwrap()[2], "state: locked");
    let verify = object(vec![
        ("entries", Json::UInt(3)),
        ("macs_verified", Json::UInt(2)),
        ("macs_null", Json::UInt(1)),
    ]);
    assert_eq!(
        report(&Command::AuditVerify, &verify).unwrap(),
        ["entries: 3 \u{b7} macs verified: 2 \u{b7} macs null: 1"]
    );
    let agents = object(vec![(
        "agents",
        Json::Array(vec![object(vec![
            ("name", Json::string("harness")),
            ("status", Json::string("revoked")),
            ("token_prefix", Json::string("ab12")),
        ])]),
    )]);
    assert!(report(&Command::AgentList, &agents).unwrap()[0].contains("harness (revoked"));
    let reveal: Cmd = Command::Reveal { project: s("a"), key: s("k"), approval_id: None };
    assert_eq!(error_code(report(&reveal, &Json::object())), "E_PROTOCOL");
    let value = object(vec![("value", Json::string("sk"))]);
    assert_eq!(report(&reveal, &value).unwrap(), ["sk"]);
}

#[test]
fn a_pending_reveal_prints_its_approval() {
    let e = BrokerError {
        code: s("E_APPROVAL_PENDING"),
        msg: s("approval pending"),
        data: Some(object(vec![
            ("approval_id", Json::string("ap-1")),
            ("expires_in", Json::UInt(300)),
        ])),
    };
    assert!(reveal_refusal(&e).unwrap().contains("ap-1"));
    let other = BrokerError { code: s("E_AUTH"), msg: s("no"), data: None };
    assert!(reveal_refusal(&other).is_none());
}

#[test]
fn audit_lines_show_unauthenticated_entries() {
    let entry = |mac: Json| {
        object(vec![
            ("seq", Json::UInt(4)),
            ("ts", Json::string("t")),
            ("actor", Json::string("human")),
            ("op", Json::string("vault.lock")),
            ("decision", Json::string("allowed")),
            ("mac", mac),
        ])
    };
    let null = render_audit_line(&entry(Json::Null));
    let kept = render_audit_line(&entry(Json::string("ff")));
    assert!(null.contains("vault.lock") && kept.contains("vault.lock"));
    assert_ne!(null, kept);
}

#[test]
fn sources_of_a_token_have_an_order() {
    assert!(matches!(agent_token(Some(5), Some("f")), TokenSource::Descriptor(5)));
    assert!(matches!(agent_token(None, Some("-")), TokenSource::Stdin));
    assert!(matches!(agent_token(None, Some("f")), TokenSource::File));
    assert!(matches!(agent_token(None, None), TokenSource::Environment));
}

#[test]
fn lease_files_are_regular() {
    assert!(matches!(lease_source("-", false), Ok(TokenSource::Stdin)));
    assert!(matches!(lease_source("/tmp/l", true), Ok(TokenSource::File)));
    assert!(lease_source("/tmp/l", false).is_err());
}

#[test]
fn token_files_read_back() {
    let text = token_file_text("tok-1");
    assert_eq!(text, "tok-1\n");
    assert_eq!(read_trimmed(&text), "tok-1");
    assert_eq!(read_trimmed(" a b \r\n"), " a b ");
    assert_eq!(read_trimmed("a\n\n"), "a\n");
    let io = || IoFailure { os_code: Some(17), text: s("exists") };
    assert_eq!(token_file_error(true, io()).code(), "E_EXISTS");
    assert_eq!(token_file_error(false, io()).code(), "E_IO");
}

#[test]
fn small_settings() {
    assert_eq!(idle_lock(None), 900);
    assert_eq!(idle_lock(Some(0)), 0);
    assert_eq!(socket_path(Some(s("/s")), None).unwrap(), "/s");
    assert_eq!(
        socket_path(None, Some("/run/user/1")).unwrap(),
        "/run/user/1/svault/svault.sock"
    );
    assert!(socket_path(None, None).is_err());
    assert_eq!(cli::run(&Ok(())), 0);
    assert_eq!(cli::run(&Err(VaultError::Auth)), 1);
    assert!(cli::confirmed("a", "a").is_ok());
    assert!(cli::confirmed("a", "b").is_err());
}

#[test]
fn only_allowed_names_reach_a_run() {
    let names = [
        AllowedName { name: s("LANG"), forbidden: false, current: Some(s("C")) },
        AllowedName { name: s("TERM"), forbidden: false, current: None },
        AllowedName { name: s("LD_PRELOAD"), forbidden: true, current: Some(s("x")) },
    ];
    let argv = vec![s("/bin/true"), s("x")];
    let overrides = vec![s("TERM=dumb")];
    let q = RunRequest {
        project: "acme",
        keys: &[],
        cwd: Some("/w"),
        env_overrides: &overrides,
        timeout_secs: Some(9),
        executable: "/bin/true",
        argv: &argv,
    };
    let p = build_run_params(&q, &names).unwrap();
    let env = p.get("env").unwrap();
    assert_eq!(env.text_at("LANG"), Some("C"));
    assert_eq!(env.text_at("TERM"), Some("dumb"));
    assert!(env.get("LD_PRELOAD").is_none());
    assert_eq!(p.text_at("project"), Some("acme"));
    assert_eq!(p.uint_at("timeout_secs"), Some(9));
    for bad in ["TERM", "NOPE=1", "LD_PRELOAD=x"] {
        let overrides = vec![s(bad)];
        let q = RunRequest { env_overrides: &overrides, ..q_of(&argv) };
        assert_eq!(error_code(build_run_params(&q, &names)), "E_INVALID_INPUT", "{bad}");
    }
}

fn q_of(argv: &[String]) -> RunRequest<'_> {
    RunRequest {
        project: "acme",
        keys: &[],
        cwd: None,
        env_overrides: &[],
        timeout_secs: None,
        executable: "/bin/true",
        argv,
    }
}

#[test]
fn inputs_are_read_where_they_are_used() {
    let set = Command::SecretSet { project: s("p"), key: s("k") };
    let list = Command::SecretList { project: s("p") };
    assert!(wants_value(&set) && !wants_lease(&set));
    assert!(wants_lease(&list) && !wants_value(&list));
    assert!(wants_lease(&Command::Reveal { project: s("p"), key: s("k"), approval_id: None }));
    assert!(!wants_lease(&Cmd::LeaseList));
}

#[test]
fn the_executable_leads_its_arguments() {
    let (exe, argv) = build_argv(&[s("/bin/ls"), s("-l")]).unwrap();
    assert_eq!(exe, "/bin/ls");
    assert_eq!(argv, ["/bin/ls", "-l"]);
    assert!(build_argv(&[]).is_err());
    let blank = build_argv(&[s("/bin/echo"), s("")]).unwrap_err();
    assert_eq!(blank.code(), "E_INVALID_INPUT");
}

#[test]
fn a_run_ends_with_the_exit_of_its_child() {
    let line = started_line(&RunStarted { run_id: s("r1"), pid: 7 });
    assert!(line.contains("r1") && line.contains('7'));
    let exited = RunExit { run_id: s("r1"), exit_code: Some(3), signal: None };
    assert_eq!(execute_run(&exited).unwrap().0, 3);
    let killed = RunExit { run_id: s("r1"), exit_code: None, signal: Some(s("SIGKILL")) };
    let (code, line) = execute_run(&killed).unwrap();
    assert_eq!(code, 1);
    assert_eq!(line, "run r1 signaled SIGKILL");
    let neither = RunExit { run_id: s("r1"), exit_code: None, signal: None };
    assert!(execute_run(&neither).is_err());
}

#[test]
fn disagreeing_fingerprints_are_told() {
    let a = "aa".repeat(32);
    let b = "bb".repeat(32);
    let shown = trust_show(Some(&a), Some(&b)).unwrap();
    assert!(shown.disagree);
    assert!(!trust_show(Some(&a), Some(&a)).unwrap().disagree);
    assert!(!trust_show(Some(&a), None).unwrap().disagree);
    assert!(trust_show(None, None).is_err());
}

#[test]
fn identities_are_reset_by_a_person_alone() {
    assert!(trust_reset(true, false, false).is_ok());
    assert!(trust_reset(false, true, false).is_ok());
    assert_eq!(error_code(trust_reset(false, false, false)), "E_HUMAN_REQUIRED");
    assert_eq!(error_code(trust_reset(true, false, true)), "E_INVALID_INPUT");
    assert!(confirm_reset_tty(" ROTATE\n").is_ok());
    assert!(confirm_reset_tty("yes\n").is_err());
    assert!(confirm_reset_tty("").is_err());
}

#[test]
fn pins_need_a_yes() {
    let key = [7u8; 32];
    let other = [8u8; 32];
    assert!(is_unexpected(&key, Some(&other)));
    assert!(!is_unexpected(&key, Some(&key)));
    assert!(!is_unexpected(&key, None));
    assert!(confirm_broker_pin(&key, None, Some("yes\n")).is_ok());
    assert!(confirm_broker_pin(&key, None, Some("y\n")).is_err());
    assert!(confirm_broker_pin(&key, None, None).is_err());
    assert!(confirm_broker_pin(&key, Some(&other), Some("yes\n")).is_err());
}
