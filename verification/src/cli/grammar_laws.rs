//! What is said on the command line is the command that is carried out.

use vstd::prelude::*;

use crate::cli::grammar::{self, Args, Flag, Opt, Takes, Verb};
use crate::cli::{CmdV, Command};
use crate::json;
use crate::text;

verus! {

/// How a command is said: its words, and what stands behind them in order.
pub open spec fn spoken(c: CmdV) -> (Seq<Seq<char>>, Seq<Seq<char>>) {
    match c {
        Command::Init => (seq!["init"@], Seq::empty()),
        Command::Status => (seq!["status"@], Seq::empty()),
        Command::Unlock => (seq!["unlock"@], Seq::empty()),
        Command::Lock => (seq!["lock"@], Seq::empty()),
        Command::ProjectAdd { name, .. } => (seq!["project"@, "add"@], seq![name]),
        Command::ProjectList => (seq!["project"@, "list"@], Seq::empty()),
        Command::ProjectPathAdd { name, path } => (seq!["project"@, "path-add"@], seq![name, path]),
        Command::ProjectPathRemove { name, path } => (seq!["project"@, "path-remove"@], seq![name, path]),
        Command::ProjectRemove { name } => (seq!["project"@, "remove"@], seq![name]),
        Command::SecretSet { project, key } => (seq!["secret"@, "set"@], seq![project, key]),
        Command::SecretList { project } => (seq!["secret"@, "list"@], seq![project]),
        Command::SecretDelete { project, key } => (seq!["secret"@, "delete"@], seq![project, key]),
        Command::AgentAdd { name } => (seq!["agent"@, "add"@], seq![name]),
        Command::AgentRevoke { name } => (seq!["agent"@, "revoke"@], seq![name]),
        Command::AgentList => (seq!["agent"@, "list"@], Seq::empty()),
        Command::GrantAdd { agent, project, .. } => (seq!["grant"@, "add"@], seq![agent, project]),
        Command::GrantRevoke { agent, project } => (seq!["grant"@, "revoke"@], seq![agent, project]),
        Command::GrantList => (seq!["grant"@, "list"@], Seq::empty()),
        Command::AuditShow { .. } => (seq!["audit"@, "show"@], Seq::empty()),
        Command::AuditVerify => (seq!["audit"@, "verify"@], Seq::empty()),
        Command::RunSignal { run_id, signal } => (seq!["run-signal"@], seq![run_id, signal]),
        Command::LeaseCreate { project, .. } => (seq!["lease"@, "create"@], seq![project]),
        Command::LeaseList => (seq!["lease"@, "list"@], Seq::empty()),
        Command::LeaseRevoke { lease_id } => (seq!["lease"@, "revoke"@], seq![lease_id]),
        Command::Reveal { project, key, .. } => (seq!["reveal"@], seq![project, key]),
        Command::Inject { project, path, .. } => (seq!["inject"@], seq![project, path]),
        Command::ApprovalStatus { approval_id } => (seq!["approval"@, "status"@], seq![approval_id]),
        Command::ApprovalPending => (seq!["approval"@, "pending"@], Seq::empty()),
        Command::ApprovalApprove { approval_id } => (seq!["approval"@, "approve"@], seq![approval_id]),
        Command::ApprovalDeny { approval_id } => (seq!["approval"@, "deny"@], seq![approval_id]),
    }
}

/// A command is made of the words that were said and of what stood behind them, in order, and
/// takes its options from where they were given; where a number of entries was not given,
/// twenty are shown.
pub proof fn law_what_is_said_is_what_is_done(verb: Verb, a: Args)
    requires
        grammar::command_of(verb, a) is Some,
    ensures
        ({
            let c = grammar::command_of(verb, a)->0;
            &&& verb.said() == spoken(c).0
            &&& text::texts(a.positionals@) == spoken(c).1
            &&& match c {
                Command::ProjectAdd { paths, .. } => paths == text::texts(a.paths@),
                Command::GrantAdd { ops, .. } => a.ops is Some && ops == a.ops->0@,
                Command::AuditShow { tail } => tail == (match a.tail {
                    Some(n) => n,
                    None => 20,
                }),
                Command::LeaseCreate { ops, ttl_secs, .. } => a.ops is Some && ops == a.ops->0@
                    && a.ttl_secs == Some(ttl_secs),
                Command::Reveal { approval_id, .. } => approval_id == json::opt_text(a.approval_id),
                Command::Inject { keys, .. } => keys == text::texts(a.keys@),
                _ => true,
            }
        }),
{
    let p = text::texts(a.positionals@);
    let c = grammar::command_of(verb, a)->0;
    assert(spoken(c).1 =~= p);
}

/// Every verb but those of the daemon, the runs, the protocol server and the trust makes a
/// command, once what it expects stands behind it and what it cannot do without is given.
pub proof fn law_proper_words_make_a_command(verb: Verb, a: Args)
    requires
        a.positionals@.len() == verb.expects().len(),
        !(verb is Daemon || verb is Run || verb is McpServe || verb is TrustShow || verb is TrustReset),
        verb is GrantAdd || verb is LeaseCreate ==> a.ops is Some,
        verb is LeaseCreate ==> a.ttl_secs is Some,
    ensures
        grammar::command_of(verb, a) is Some,
{
}

/// The words are told apart by their length and a letter.
proof fn lemma_words_differ()
    ensures
        "add"@.len() == 3 && "add"@[0] == 'a',
        "agent"@.len() == 5 && "agent"@[1] == 'g' && "agent"@[0] == 'a',
        "approval"@.len() == 8 && "approval"@[0] == 'a',
        "approve"@.len() == 7 && "approve"@[0] == 'a' && "approve"@[1] == 'p',
        "audit"@.len() == 5 && "audit"@[1] == 'u' && "audit"@[0] == 'a',
        "create"@.len() == 6 && "create"@[0] == 'c' && "create"@[1] == 'r' && "create"@[2] == 'e' && "create"@[3] == 'a',
        "daemon"@.len() == 6 && "daemon"@[0] == 'd' && "daemon"@[1] == 'a' && "daemon"@[2] == 'e' && "daemon"@[3] == 'm',
        "delete"@.len() == 6 && "delete"@[0] == 'd' && "delete"@[1] == 'e' && "delete"@[2] == 'l' && "delete"@[3] == 'e',
        "deny"@.len() == 4 && "deny"@[0] == 'd' && "deny"@[1] == 'e',
        "grant"@.len() == 5 && "grant"@[1] == 'r' && "grant"@[0] == 'g',
        "init"@.len() == 4 && "init"@[0] == 'i' && "init"@[1] == 'n',
        "inject"@.len() == 6 && "inject"@[0] == 'i' && "inject"@[1] == 'n' && "inject"@[2] == 'j' && "inject"@[3] == 'e',
        "lease"@.len() == 5 && "lease"@[1] == 'e' && "lease"@[0] == 'l',
        "list"@.len() == 4 && "list"@[0] == 'l' && "list"@[1] == 'i',
        "lock"@.len() == 4 && "lock"@[0] == 'l' && "lock"@[1] == 'o',
        "mcp-serve"@.len() == 9,
        "path-add"@.len() == 8 && "path-add"@[0] == 'p',
        "path-remove"@.len() == 11,
        "pending"@.len() == 7 && "pending"@[0] == 'p' && "pending"@[1] == 'e',
        "project"@.len() == 7 && "project"@[0] == 'p' && "project"@[1] == 'r',
        "remove"@.len() == 6 && "remove"@[0] == 'r' && "remove"@[1] == 'e' && "remove"@[2] == 'm' && "remove"@[3] == 'o',
        "reset"@.len() == 5 && "reset"@[1] == 'e' && "reset"@[0] == 'r',
        "reveal"@.len() == 6 && "reveal"@[0] == 'r' && "reveal"@[1] == 'e' && "reveal"@[2] == 'v' && "reveal"@[3] == 'e',
        "revoke"@.len() == 6 && "revoke"@[0] == 'r' && "revoke"@[1] == 'e' && "revoke"@[2] == 'v' && "revoke"@[3] == 'o',
        "run"@.len() == 3 && "run"@[0] == 'r',
        "run-signal"@.len() == 10,
        "secret"@.len() == 6 && "secret"@[0] == 's' && "secret"@[1] == 'e' && "secret"@[2] == 'c' && "secret"@[3] == 'r',
        "set"@.len() == 3 && "set"@[0] == 's',
        "show"@.len() == 4 && "show"@[0] == 's' && "show"@[1] == 'h',
        "status"@.len() == 6 && "status"@[0] == 's' && "status"@[1] == 't' && "status"@[2] == 'a' && "status"@[3] == 't',
        "trust"@.len() == 5 && "trust"@[1] == 'r' && "trust"@[0] == 't',
        "unlock"@.len() == 6 && "unlock"@[0] == 'u' && "unlock"@[1] == 'n' && "unlock"@[2] == 'l' && "unlock"@[3] == 'o',
        "verify"@.len() == 6 && "verify"@[0] == 'v' && "verify"@[1] == 'e' && "verify"@[2] == 'r' && "verify"@[3] == 'i',
{
    reveal_strlit("add");
    assert("add"@.len() == 3 && "add"@[0] == 'a');
    reveal_strlit("agent");
    assert("agent"@.len() == 5 && "agent"@[1] == 'g' && "agent"@[0] == 'a');
    reveal_strlit("approval");
    assert("approval"@.len() == 8 && "approval"@[0] == 'a');
    reveal_strlit("approve");
    assert("approve"@.len() == 7 && "approve"@[0] == 'a' && "approve"@[1] == 'p');
    reveal_strlit("audit");
    assert("audit"@.len() == 5 && "audit"@[1] == 'u' && "audit"@[0] == 'a');
    reveal_strlit("create");
    assert("create"@.len() == 6 && "create"@[0] == 'c' && "create"@[1] == 'r' && "create"@[2] == 'e' && "create"@[3] == 'a');
    reveal_strlit("daemon");
    assert("daemon"@.len() == 6 && "daemon"@[0] == 'd' && "daemon"@[1] == 'a' && "daemon"@[2] == 'e' && "daemon"@[3] == 'm');
    reveal_strlit("delete");
    assert("delete"@.len() == 6 && "delete"@[0] == 'd' && "delete"@[1] == 'e' && "delete"@[2] == 'l' && "delete"@[3] == 'e');
    reveal_strlit("deny");
    assert("deny"@.len() == 4 && "deny"@[0] == 'd' && "deny"@[1] == 'e');
    reveal_strlit("grant");
    assert("grant"@.len() == 5 && "grant"@[1] == 'r' && "grant"@[0] == 'g');
    reveal_strlit("init");
    assert("init"@.len() == 4 && "init"@[0] == 'i' && "init"@[1] == 'n');
    reveal_strlit("inject");
    assert("inject"@.len() == 6 && "inject"@[0] == 'i' && "inject"@[1] == 'n' && "inject"@[2] == 'j' && "inject"@[3] == 'e');
    reveal_strlit("lease");
    assert("lease"@.len() == 5 && "lease"@[1] == 'e' && "lease"@[0] == 'l');
    reveal_strlit("list");
    assert("list"@.len() == 4 && "list"@[0] == 'l' && "list"@[1] == 'i');
    reveal_strlit("lock");
    assert("lock"@.len() == 4 && "lock"@[0] == 'l' && "lock"@[1] == 'o');
    reveal_strlit("mcp-serve");
    assert("mcp-serve"@.len() == 9);
    reveal_strlit("path-add");
    assert("path-add"@.len() == 8 && "path-add"@[0] == 'p');
    reveal_strlit("path-remove");
    assert("path-remove"@.len() == 11);
    reveal_strlit("pending");
    assert("pending"@.len() == 7 && "pending"@[0] == 'p' && "pending"@[1] == 'e');
    reveal_strlit("project");
    assert("project"@.len() == 7 && "project"@[0] == 'p' && "project"@[1] == 'r');
    reveal_strlit("remove");
    assert("remove"@.len() == 6 && "remove"@[0] == 'r' && "remove"@[1] == 'e' && "remove"@[2] == 'm' && "remove"@[3] == 'o');
    reveal_strlit("reset");
    assert("reset"@.len() == 5 && "reset"@[1] == 'e' && "reset"@[0] == 'r');
    reveal_strlit("reveal");
    assert("reveal"@.len() == 6 && "reveal"@[0] == 'r' && "reveal"@[1] == 'e' && "reveal"@[2] == 'v' && "reveal"@[3] == 'e');
    reveal_strlit("revoke");
    assert("revoke"@.len() == 6 && "revoke"@[0] == 'r' && "revoke"@[1] == 'e' && "revoke"@[2] == 'v' && "revoke"@[3] == 'o');
    reveal_strlit("run");
    assert("run"@.len() == 3 && "run"@[0] == 'r');
    reveal_strlit("run-signal");
    assert("run-signal"@.len() == 10);
    reveal_strlit("secret");
    assert("secret"@.len() == 6 && "secret"@[0] == 's' && "secret"@[1] == 'e' && "secret"@[2] == 'c' && "secret"@[3] == 'r');
    reveal_strlit("set");
    assert("set"@.len() == 3 && "set"@[0] == 's');
    reveal_strlit("show");
    assert("show"@.len() == 4 && "show"@[0] == 's' && "show"@[1] == 'h');
    reveal_strlit("status");
    assert("status"@.len() == 6 && "status"@[0] == 's' && "status"@[1] == 't' && "status"@[2] == 'a' && "status"@[3] == 't');
    reveal_strlit("trust");
    assert("trust"@.len() == 5 && "trust"@[1] == 'r' && "trust"@[0] == 't');
    reveal_strlit("unlock");
    assert("unlock"@.len() == 6 && "unlock"@[0] == 'u' && "unlock"@[1] == 'n' && "unlock"@[2] == 'l' && "unlock"@[3] == 'o');
    reveal_strlit("verify");
    assert("verify"@.len() == 6 && "verify"@[0] == 'v' && "verify"@[1] == 'e' && "verify"@[2] == 'r' && "verify"@[3] == 'i');
}

/// Verbs that are said alike are the same verb.
pub proof fn law_no_two_verbs_are_said_alike(a: Verb, b: Verb)
    requires
        a.said() == b.said(),
    ensures
        a == b,
{
    lemma_words_differ();
    assert(a.said()[0] == b.said()[0]);
    if a.said().len() == 2 {
        assert(a.said()[1] == b.said()[1]);
    }
}

/// What is expected behind a verb, and which options it takes.
pub open spec fn expected(verb: Verb) -> (Seq<Seq<char>>, Seq<Opt>) {
    match verb {
        Verb::Init => (Seq::empty(), Seq::empty()),
        Verb::Status => (Seq::empty(), Seq::empty()),
        Verb::Unlock => (Seq::empty(), Seq::empty()),
        Verb::Lock => (Seq::empty(), Seq::empty()),
        Verb::ProjectAdd => (seq!["name"@], seq![Opt::Path]),
        Verb::ProjectList => (Seq::empty(), Seq::empty()),
        Verb::ProjectPathAdd => (seq!["name"@, "path"@], Seq::empty()),
        Verb::ProjectPathRemove => (seq!["name"@, "path"@], Seq::empty()),
        Verb::ProjectRemove => (seq!["name"@], Seq::empty()),
        Verb::SecretSet => (seq!["project"@, "key"@], Seq::empty()),
        Verb::SecretList => (seq!["project"@], Seq::empty()),
        Verb::SecretDelete => (seq!["project"@, "key"@], Seq::empty()),
        Verb::AgentAdd => (seq!["name"@], seq![Opt::WriteTokenFile]),
        Verb::AgentRevoke => (seq!["name"@], Seq::empty()),
        Verb::AgentList => (Seq::empty(), Seq::empty()),
        Verb::GrantAdd => (seq!["agent"@, "project"@], seq![Opt::Ops]),
        Verb::GrantRevoke => (seq!["agent"@, "project"@], Seq::empty()),
        Verb::GrantList => (Seq::empty(), Seq::empty()),
        Verb::AuditShow => (Seq::empty(), seq![Opt::Tail]),
        Verb::AuditVerify => (Seq::empty(), Seq::empty()),
        Verb::RunSignal => (seq!["run_id"@, "signal"@], Seq::empty()),
        Verb::LeaseCreate => (seq!["project"@], seq![Opt::Ops, Opt::TtlSecs]),
        Verb::LeaseList => (Seq::empty(), Seq::empty()),
        Verb::LeaseRevoke => (seq!["lease_id"@], Seq::empty()),
        Verb::Reveal => (seq!["project"@, "key"@], seq![Opt::ApprovalId]),
        Verb::Inject => (seq!["project"@, "path"@], seq![Opt::Key]),
        Verb::ApprovalStatus => (seq!["approval_id"@], Seq::empty()),
        Verb::ApprovalPending => (Seq::empty(), Seq::empty()),
        Verb::ApprovalApprove => (seq!["approval_id"@], Seq::empty()),
        Verb::ApprovalDeny => (seq!["approval_id"@], Seq::empty()),
        Verb::Daemon => (Seq::empty(), Seq::empty()),
        Verb::Run => (seq!["project"@], seq![Opt::Key, Opt::Cwd, Opt::Env, Opt::TimeoutSecs]),
        Verb::McpServe => (Seq::empty(), Seq::empty()),
        Verb::TrustShow => (Seq::empty(), Seq::empty()),
        Verb::TrustReset => (Seq::empty(), Seq::empty()),
    }
}

/// Every verb expects what its command is about, and takes the options that its command
/// reads.
pub proof fn law_verbs_expect_what_they_need(verb: Verb)
    ensures
        verb.expects() == expected(verb).0,
        verb.takes_options() == expected(verb).1,
{
}

/// The name of a flag, the title of its value, and what it takes.
pub open spec fn flag_shape(f: Flag) -> (Seq<char>, Seq<char>, Takes) {
    match f {
        Flag::File => ("file"@, "PATH"@, Takes::Text),
        Flag::Socket => ("socket"@, "PATH"@, Takes::Text),
        Flag::PassphraseFile => ("passphrase-file"@, "PATH"@, Takes::Text),
        Flag::TokenFile => ("token-file"@, "PATH"@, Takes::Text),
        Flag::TokenFd => ("token-fd"@, "FD"@, Takes::Descriptor),
        Flag::LeaseFile => ("lease-file"@, "PATH"@, Takes::Text),
        Flag::IdleLockSecs => ("idle-lock-secs"@, "SECS"@, Takes::Count),
        Flag::TrustFingerprint => ("trust-fingerprint"@, "HEX"@, Takes::Text),
    }
}

/// The name of an option, the title of its value, and what it takes.
pub open spec fn option_shape(f: Opt) -> (Seq<char>, Seq<char>, Takes) {
    match f {
        Opt::Key => ("key"@, "NAME"@, Takes::List),
        Opt::Cwd => ("cwd"@, "PATH"@, Takes::Text),
        Opt::Env => ("env"@, "KEY=VALUE"@, Takes::List),
        Opt::TimeoutSecs => ("timeout-secs"@, "N"@, Takes::Count),
        Opt::ApprovalId => ("approval-id"@, "ID"@, Takes::Text),
        Opt::Path => ("path"@, "PATH"@, Takes::List),
        Opt::WriteTokenFile => ("write-token-file"@, "PATH"@, Takes::Text),
        Opt::Ops => ("ops"@, "OPS"@, Takes::Text),
        Opt::Tail => ("tail"@, "N"@, Takes::Count),
        Opt::TtlSecs => ("ttl-secs"@, "N"@, Takes::Count),
    }
}

/// Every flag and every option has its name, the title of its value and the kind of value that
/// it takes.
pub proof fn law_options_have_their_shape(f: Flag, o: Opt)
    ensures
        f.long() == flag_shape(f).0,
        f.value_title() == flag_shape(f).1,
        f.takes_of() == flag_shape(f).2,
        o.long() == option_shape(o).0,
        o.value_title() == option_shape(o).1,
        o.takes_of() == option_shape(o).2,
{
}

} // verus!
