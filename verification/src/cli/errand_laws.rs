//! How a command is carried through: what is read for it, what is sent, and what a
//! launch and a confirmation hold.

use vstd::prelude::*;

use crate::cli::errand::{self, ActV, ErrandV, EventV, Stage};
use crate::cli::launch::{self, AllowedV, RunRequest};
use crate::cli::laws::wire_name_of;
use crate::cli::{self, CmdV, InputsV, TokenSource};
use crate::client::connection::{self, ConnActV, ConnectionV, Gate, HappenedV};
use crate::client::{self, ExitedV};
use crate::broker_identity::handshake;
use crate::error::Fault;
use crate::json::{self, JsonV};
use crate::text;
use crate::cli::trust;
use crate::dotenv;
use crate::wire::{AuthV, RequestV};

verus! {

/// Whether a command is for agents alone.
pub open spec fn agents_only(c: CmdV) -> bool {
    c is RunSignal || c is LeaseCreate || c is Inject || c is ApprovalStatus
}

/// Whether a command is for agents and for people.
pub open spec fn shared(c: CmdV) -> bool {
    c is Lock || c is SecretList || c is LeaseList || c is LeaseRevoke || c is Reveal
}

/// The credential that a command presents: the token where it is for agents, or for both
/// and there is one; nothing for the public status and for a new vault; and otherwise the
/// passphrase.
pub open spec fn credential(v: ErrandV) -> AuthV {
    if v.command is Status || v.command is Init {
        AuthV { token: None, passphrase: None, session: None }
    } else if agents_only(v.command) || (shared(v.command) && v.token is Some) {
        AuthV { token: v.token, passphrase: None, session: None }
    } else {
        AuthV { token: None, passphrase: v.passphrase, session: None }
    }
}

/// Whether everything that a command needs to prove itself is there.
pub open spec fn can_prove(v: ErrandV) -> bool {
    ||| v.command is Status || v.command is Init
    ||| (agents_only(v.command) || shared(v.command)) && v.token is Some
    ||| !agents_only(v.command) && v.passphrase is Some
}

/// The text that was read, empty where none was.
pub open spec fn text_read(t: Option<Seq<char>>) -> Seq<char> {
    match t {
        Some(s) => s,
        None => Seq::empty(),
    }
}

/// What was read for a command.
pub open spec fn all_read(v: ErrandV) -> InputsV {
    InputsV {
        passphrase: text_read(v.passphrase),
        value: text_read(v.value),
        lease: text_read(v.lease),
    }
}

/// Whether a refusal of the command keeps its code.
pub open spec fn goes_alone(c: CmdV) -> bool {
    c is LeaseCreate || c is LeaseList || c is LeaseRevoke || c is Reveal || c is ApprovalStatus
        || c is ApprovalPending || c is ApprovalApprove || c is ApprovalDeny
}

/// Once its identifier is drawn, the request of a command is sent on its trusted connection:
/// under the name of its operation, with its credential and with what was read for it.
pub proof fn law_the_request_of_a_command_is_sent(v: ErrandV, id: Seq<char>)
    requires
        v.stage == Stage::Id,
        connection::trusted(v.conn),
        can_prove(v),
    ensures
        errand::stepped(v, EventV::Id(id)).1 == ActV::Conn(
            ConnActV::Send(
                RequestV {
                    v: v.conn.v,
                    id,
                    op: wire_name_of(v.command),
                    auth: credential(v),
                    params: cli::params_of(v.command, all_read(v)),
                },
            ),
        ),
{
    cli::laws::law_commands_are_sent_as_their_own_operation(
        v.conn.v,
        id,
        credential(v),
        v.command,
        all_read(v),
    );
}

/// What follows when everything was read: the commands whose refusals keep their codes
/// are called on a connection of their own, the others draw an identifier.
pub open spec fn is_sent_off(v: ErrandV, act: ActV) -> bool {
    if !can_prove(v) {
        act is Refuse
    } else if goes_alone(v.command) {
        act == (ActV::CallAfresh {
            op: cli::operation_of(v.command),
            auth: credential(v),
            params: cli::params_of(v.command, all_read(v)),
        })
    } else {
        act is DrawId
    }
}

/// What follows when the credentials were read: a lease where one may narrow the request.
pub open spec fn goes_on_with_lease(v: ErrandV, act: ActV) -> bool {
    if can_prove(v) && (v.command is SecretList || v.command is Reveal || v.command is Inject) {
        act is ReadLease
    } else {
        is_sent_off(v, act)
    }
}

/// What follows when the value was read: the passphrase where it is needed, twice for a new
/// vault.
pub open spec fn goes_on_with_passphrase(v: ErrandV, act: ActV) -> bool {
    if v.command is Init {
        act == (ActV::ReadPassphrase { twice: true })
    } else if v.command is Status || agents_only(v.command) || (shared(v.command) && v.token is Some) {
        goes_on_with_lease(v, act)
    } else {
        act == (ActV::ReadPassphrase { twice: false })
    }
}

/// For a trusted connection the token is read first, the value of a secret next, the
/// passphrase where it is needed, and a lease last; each is kept as it was read, and
/// nothing else changes.
pub proof fn law_each_thing_is_read_in_its_turn(v: ErrandV, t: Option<Seq<char>>, s: Seq<char>)
    ensures
        v.stage == Stage::Token ==> {
            let (after, act) = errand::stepped(v, EventV::Token(t));
            &&& after == (ErrandV { token: t, stage: after.stage, ..v })
            &&& if v.command is SecretSet {
                act is ReadValue
            } else {
                goes_on_with_passphrase(after, act)
            }
        },
        v.stage == Stage::Value ==> {
            let (after, act) = errand::stepped(v, EventV::Value(s));
            &&& after == (ErrandV { value: Some(s), stage: after.stage, ..v })
            &&& goes_on_with_passphrase(after, act)
        },
        v.stage == Stage::Passphrase && !agents_only(v.command) ==> {
            let (after, act) = errand::stepped(v, EventV::Passphrase(s));
            &&& after == (ErrandV { passphrase: Some(s), stage: after.stage, ..v })
            &&& goes_on_with_lease(after, act)
        },
        v.stage == Stage::Lease ==> {
            let (after, act) = errand::stepped(v, EventV::Lease(t));
            &&& after == (ErrandV { lease: t, stage: after.stage, ..v })
            &&& is_sent_off(after, act)
        },
{
}

/// A command for agents without a token is not permitted; one for people without a
/// passphrase needs a person; and what could not be read is told as it is.
pub proof fn law_what_cannot_be_proved_is_refused(v: ErrandV, s: Seq<char>, f: Fault)
    ensures
        v.stage == Stage::Token && agents_only(v.command) ==> errand::stepped(v, EventV::Token(None)).1
            == ActV::Refuse(Fault::Permission),
        v.stage == Stage::Token || v.stage == Stage::Value || v.stage == Stage::Passphrase || v.stage
            == Stage::Lease || v.stage == Stage::Id ==> errand::stepped(v, EventV::Failed(f)).1
            == ActV::Refuse(f),
        v.stage == Stage::Id && v.command is AgentList && v.passphrase is None ==> errand::stepped(
            v,
            EventV::Id(s),
        ).1 == ActV::Refuse(Fault::HumanRequired),
{
}

/// What the connection needs is done as it asks, the token is read when it is ready, and its
/// refusal is the refusal of the command.
pub proof fn law_a_connection_is_made_before_anything(v: ErrandV, h: HappenedV)
    requires
        v.stage == Stage::Connect,
    ensures
        ({
            let (after, act) = errand::stepped(v, EventV::Conn(h));
            let (conn, wants) = connection::stepped(v.conn, h);
            &&& after == (ErrandV { conn, stage: after.stage, ..v })
            &&& match wants {
                ConnActV::Ready => act is ReadToken,
                ConnActV::Refuse(Gate::Server, _) => act == ActV::Refuse(
                    Fault::BrokerUntrusted(
                        "server identity could not be verified; refusing to send credentials (no svault daemon holds the instance lock for this socket)"@,
                    ),
                ),
                ConnActV::Refuse(_, f) => act == ActV::Refuse(f),
                ConnActV::Stop => act is Stop,
                other => act == ActV::Conn(other) && after.stage == Stage::Connect,
            }
        }),
{
}

/// A connection is made, its server checked, its limits set, a nonce drawn and sent, the
/// answer and the pin read; a failure of one step is told as one of that step.
pub proof fn law_a_connection_goes_step_by_step(
    v: ConnectionV,
    id: Seq<char>,
    nonce: Seq<u8>,
    f: Fault,
)
    ensures
        v.stage == connection::Stage::Connect ==> connection::stepped(v, HappenedV::Done).1
            == ConnActV::CheckServer && connection::stepped(v, HappenedV::Failed(f)).1
            == ConnActV::Refuse(Gate::Socket, f),
        v.stage == connection::Stage::Check ==> connection::stepped(v, HappenedV::Done).1
            == ConnActV::SetTimeouts && connection::stepped(v, HappenedV::Failed(f)).1
            == ConnActV::Refuse(Gate::Server, f),
        v.stage == connection::Stage::Tune && client::leg(v.opts) is Ok ==> connection::stepped(
            v,
            HappenedV::Done,
        ).1 == ConnActV::Draw,
        v.stage == connection::Stage::Draw ==> {
            let (after, act) = connection::stepped(v, HappenedV::Drawn { id, nonce });
            &&& act == ConnActV::Send(handshake::hello_line(v.v, id, nonce))
            &&& after.hello == Some((id, nonce))
            &&& connection::stepped(after, HappenedV::Done).1 == ConnActV::ReadReply
        },
        v.stage == connection::Stage::Store ==> connection::stepped(v, HappenedV::Done).1
            == ConnActV::Ready,
        connection::trusted(v) ==> forall|op: Seq<char>, auth: AuthV, params: JsonV|
            connection::stepped(v, HappenedV::Wanted { id, op, auth, params }) == (
                v,
                ConnActV::Send(RequestV { v: v.v, id, op, auth, params }),
            ),
{
}

/// A token is read from the descriptor that is named, or else from the file, or else from
/// standard input where the file is a dash, or else from the environment.
pub proof fn law_tokens_come_from_where_they_are_named(
    fd: i32,
    file: Seq<char>,
    any: Option<Seq<char>>,
)
    ensures
        cli::source_of(Some(fd), any) == TokenSource::Descriptor(fd),
        file != "-"@ ==> cli::source_of(None, Some(file)) == TokenSource::File,
        cli::source_of(None, Some("-"@)) == TokenSource::Stdin,
        cli::source_of(None, None) == TokenSource::Environment,
{
}

// ---------------------------------------------------------------------- launches
proof fn lemma_equals(name: Seq<char>, value: Seq<char>)
    requires
        !name.contains('='),
    ensures
        launch::equals_at(name) is None,
        launch::equals_at(name + seq!['='] + value) == Some(name.len()),
    decreases value.len(), name.len(),
{
    let whole = name + seq!['='] + value;
    if value.len() > 0 {
        lemma_equals(name, value.drop_last());
        assert(whole.drop_last() =~= name + seq!['='] + value.drop_last());
    } else {
        assert(whole.drop_last() =~= name);
        assert(whole.last() == '=');
        if name.len() > 0 {
            let d = name.drop_last();
            assert(name.contains(name.last()));
            assert forall|x: char| d.contains(x) implies name.contains(x) by {
                let i = d.index_of(x);
                assert(name[i] == x);
            }
            lemma_equals(d, value);
        }
    }
}

/// An override is a name and a value on the two sides of its first equals sign; without one
/// it is none.
pub proof fn law_overrides_are_names_and_values(name: Seq<char>, value: Seq<char>)
    requires
        !name.contains('='),
    ensures
        launch::assignment(name + seq!['='] + value) == Some((name, value)),
        launch::assignment(name) is None,
{
    lemma_equals(name, value);
    let whole = name + seq!['='] + value;
    assert(whole.take(name.len() as int) =~= name);
    assert(whole.skip(name.len() as int + 1) =~= value);
}

/// The last override of a name is the one that counts, and a name without one has none.
pub proof fn law_the_last_override_counts(
    items: Seq<Seq<char>>,
    name: Seq<char>,
    value: Seq<char>,
    other: Seq<char>,
)
    requires
        !name.contains('='),
        !other.contains('='),
        name != other,
    ensures
        launch::override_for(items.push(name + seq!['='] + value), name) == Some(value),
        launch::override_for(items.push(other + seq!['='] + value), name) == launch::override_for(items, name),
        launch::override_for(Seq::empty(), name) is None,
{
    law_overrides_are_names_and_values(name, value);
    law_overrides_are_names_and_values(other, value);
    assert(items.push(name + seq!['='] + value).drop_last() =~= items);
    assert(items.push(other + seq!['='] + value).drop_last() =~= items);
}

/// An allowed name travels with its override, or else with its value in the environment unless
/// it is forbidden; the names travel in the order in which they are allowed.
pub proof fn law_allowed_names_travel_with_their_value(
    allowed: Seq<AllowedV>,
    a: AllowedV,
    items: Seq<Seq<char>>,
)
    ensures
        launch::traveling(allowed.push(a), items) == launch::traveling(allowed, items) + (
        match launch::override_for(items, a.name) {
            Some(v) => seq![(a.name, JsonV::Str(v))],
            None => match a.current {
                Some(v) => if a.forbidden {
                    Seq::empty()
                } else {
                    seq![(a.name, JsonV::Str(v))]
                },
                None => Seq::empty(),
            },
        }),
        launch::traveling(Seq::empty(), items).len() == 0,
{
    let all = allowed.push(a);
    assert(all.drop_last() =~= allowed);
    let rest = launch::traveling(allowed, items);
    match launch::travels_with(a, items) {
        Some(v) => {
            assert(rest.push((a.name, JsonV::Str(v))) =~= rest + seq![(a.name, JsonV::Str(v))]);
        },
        None => {
            assert(rest + Seq::<(Seq<char>, JsonV)>::empty() =~= rest);
        },
    }
}

/// The names of members are told apart by their length and a letter.
proof fn lemma_names_differ()
    ensures
        "project"@.len() == 7,
        "executable"@.len() == 10,
        "argv"@.len() == 4 && "argv"@[0] == 'a',
        "cwd"@.len() == 3 && "cwd"@[0] == 'c',
        "keys"@.len() == 4 && "keys"@[0] == 'k',
        "env"@.len() == 3 && "env"@[0] == 'e',
        "timeout_secs"@.len() == 12,
{
    reveal_strlit("project");
    assert("project"@.len() == 7);
    reveal_strlit("executable");
    assert("executable"@.len() == 10);
    reveal_strlit("argv");
    assert("argv"@.len() == 4 && "argv"@[0] == 'a');
    reveal_strlit("cwd");
    assert("cwd"@.len() == 3 && "cwd"@[0] == 'c');
    reveal_strlit("keys");
    assert("keys"@.len() == 4 && "keys"@[0] == 'k');
    reveal_strlit("env");
    assert("env"@.len() == 3 && "env"@[0] == 'e');
    reveal_strlit("timeout_secs");
    assert("timeout_secs"@.len() == 12);
}

/// The parameters of a run name its project, its program and its arguments, and hold a
/// working directory, a choice of keys, an environment and a time limit exactly where
/// there is one.
pub proof fn law_a_launch_holds_what_was_asked_for(q: RunRequest, allowed: Seq<AllowedV>)
    ensures
        ({
            let p = launch::run_params(q, allowed);
            let env = launch::traveling(allowed, text::texts(q.env_overrides@));
            &&& p.get("project"@) == Some(JsonV::Str(q.project@))
            &&& p.get("executable"@) == Some(JsonV::Str(q.executable@))
            &&& p.get("argv"@) == Some(json::text_array(text::texts(q.argv@)))
            &&& p.get("cwd"@) == (match q.cwd {
                Some(d) => Some(JsonV::Str(d@)),
                None => None,
            })
            &&& p.get("keys"@) == (if q.keys@.len() > 0 {
                Some(json::text_array(text::texts(q.keys@)))
            } else {
                None
            })
            &&& p.get("env"@) == (if env.len() > 0 {
                Some(JsonV::Object(env))
            } else {
                None
            })
            &&& p.get("timeout_secs"@) == (match q.timeout_secs {
                Some(t) => Some(JsonV::UInt(t)),
                None => None,
            })
        }),
{
    broadcast use json::lemma_with_get;

    lemma_names_differ();
    assert(forall|key: Seq<char>| json::empty_object().get(key) is None);
}

/// A command is launched when it has a program and neither it nor an argument is empty or
/// holds a NUL; a token may not come over the descriptors that the program inherits.
pub proof fn law_proper_commands_are_launched(command: Seq<Seq<char>>, fd: i32, file: Seq<char>)
    ensures
        launch::argv_fault(command) is None <==> command.len() > 0 && forall|i: int|
            0 <= i < command.len() ==> (#[trigger] command[i]).len() > 0 && !command[i].contains(
                '\0',
            ),
        command.len() == 0 ==> launch::argv_fault(command) == Some(
            Fault::InvalidInput("missing command"@),
        ),
        command.len() > 0 && command[0].len() == 0 ==> launch::argv_fault(command) == Some(
            Fault::InvalidInput("invalid executable"@),
        ),
        command.len() > 1 && command[0].len() > 0 && !command[0].contains('\0') && command[1].len() == 0
            ==> launch::argv_fault(command) == Some(Fault::InvalidInput("invalid argv value"@)),
        launch::aliases_stdio(Some(fd), None) <==> fd <= 2,
        launch::aliases_stdio(None, Some(file)) <==> file == "-"@,
        !launch::aliases_stdio(None, None),
{
    assert forall|i: int| 0 <= i < command.len() implies (launch::bad_element(#[trigger] command[i])
        <==> command[i].len() == 0 || command[i].contains('\0')) by {
        let s = command[i];
        if s.contains('\0') {
            let k = s.index_of('\0');
            assert(s[k] == '\0');
        }
        if launch::has_nul(s) {
            let k = choose|k: int| 0 <= k < s.len() && #[trigger] s[k] == '\0';
            assert(s.contains(s[k]));
        }
    }
    if command.len() > 1 && command[1].len() == 0 {
        assert(launch::bad_element(command[1]));
    }
    if command.len() > 0 {
        assert(launch::bad_element(command[0]) <==> command[0].len() == 0 || command[0].contains(
            '\0',
        ));
    }
}

/// A command ends with the code of its run, or with one where a signal ended it, and says
/// which.
pub proof fn law_the_end_of_a_run_is_the_end_of_the_command(
    run_id: Seq<char>,
    code: i32,
    signal: Seq<char>,
    any: Option<Seq<char>>,
)
    ensures
        launch::exit_report(ExitedV { run_id, exit_code: Some(code), signal: any }) == Ok::<
            (i32, Seq<char>),
            Fault,
        >((code, "run "@ + run_id + " exited "@ + text::integer_text(code as int))),
        launch::exit_report(ExitedV { run_id, exit_code: None, signal: Some(signal) }) == Ok::<
            (i32, Seq<char>),
            Fault,
        >((1i32, "run "@ + run_id + " signaled "@ + signal)),
        launch::exit_report(ExitedV { run_id, exit_code: None, signal: None }) == Err::<
            (i32, Seq<char>),
            Fault,
        >(Fault::Protocol("run: exited response lacks status"@)),
{
}

// ---------------------------------------------------------------------- trust
/// White space around an answer is not part of it, and nothing else is left out.
pub proof fn law_white_space_around_an_answer_is_ignored(s: Seq<char>, c: char)
    ensures
        s.len() > 0 && !dotenv::is_white(s[0]) && !dotenv::is_white(s.last()) ==> trust::trimmed(s) == s,
        dotenv::is_white(c) ==> trust::trimmed(seq![c] + s) == trust::trimmed(s),
{
    assert((seq![c] + s).skip(1) =~= s);
    assert((seq![c] + s)[0] == c);
}

/// A key is confirmed by a `yes` where no other one was expected; any other answer, and none,
/// is a refusal.
pub proof fn law_a_confirmed_key_is_pinned(key: Seq<u8>, other: Seq<u8>, line: Seq<char>)
    requires
        key != other,
    ensures
        trust::confirm_fault(key, None, Some("yes"@)) is None,
        trust::confirm_fault(key, Some(key), Some("yes"@)) is None,
        trust::confirm_fault(key, Some(other), Some(line)) is Some,
        trust::trimmed(line) != "yes"@ ==> trust::confirm_fault(key, None, Some(line)) is Some,
        trust::confirm_fault(key, None, None) is Some,
{
    reveal_strlit("yes");
    assert("yes"@[0] == 'y' && "yes"@.last() == 's');
    law_white_space_around_an_answer_is_ignored("yes"@, ' ');
}

/// Trust is reset at a terminal or with a passphrase file, and not under a daemon that serves.
pub proof fn law_trust_is_reset_by_the_owner_alone(terminal: bool, file: bool, live: bool)
    ensures
        trust::reset_fault(terminal, file, live) is None <==> (terminal || file) && !live,
        !terminal && !file ==> trust::reset_fault(terminal, file, live) == Some(Fault::HumanRequired),
{
}

/// One fingerprint is shown once, and where it comes from is said.
pub proof fn law_the_fingerprints_are_shown_as_they_are(l: Seq<char>)
    ensures
        trust::shown(Some(l), Some(l)) == Ok::<(Seq<Seq<char>>, bool), Fault>(
            (seq!["broker fingerprint: "@ + l], false),
        ),
        trust::shown(Some(l), None) == Ok::<(Seq<Seq<char>>, bool), Fault>(
            (seq!["broker fingerprint: "@ + l], false),
        ),
        trust::shown(None, Some(l)) == Ok::<(Seq<Seq<char>>, bool), Fault>(
            (seq!["broker fingerprint (identity file, daemon not reachable): "@ + l], false),
        ),
        trust::shown(None, None) is Err,
{
}

/// One line end is taken off a text that was read from a file, of either kind, and nothing
/// else.
pub proof fn law_one_line_end_is_taken_off(t: Seq<char>)
    ensures
        t.len() == 0 || t.last() != '\n' ==> cli::without_line_end(t) == t,
        cli::without_line_end(t + seq!['\r', '\n']) == t,
        t.len() == 0 || t.last() != '\r' ==> cli::without_line_end(t + seq!['\n']) == t,
{
    let both = t + seq!['\r', '\n'];
    assert(both.drop_last() =~= t.push('\r'));
    assert(both.drop_last().drop_last() =~= t);
    assert((t + seq!['\n']).drop_last() =~= t);
}

/// A key that is not confirmed is refused with the reason.
pub proof fn law_unconfirmed_keys_say_why(key: Seq<u8>, other: Seq<u8>, line: Seq<char>)
    requires
        key != other,
        trust::trimmed(line) != "yes"@,
    ensures
        trust::confirm_fault(key, Some(other), Some(line)) == Some(
            Fault::BrokerUntrusted(
                "broker fingerprint does not match --trust-fingerprint; refusing to send credentials"@,
            ),
        ),
        trust::confirm_fault(key, None, Some(line)) == Some(
            Fault::BrokerUntrusted("broker identity not confirmed; refusing to send credentials"@),
        ),
        trust::confirm_fault(key, None, None) == Some(
            Fault::BrokerUntrusted(
                "no pinned broker identity for this socket; refusing to send credentials (a human must pin once at a TTY: run any svault command interactively, verify the fingerprint out-of-band, answer `yes`)"@,
            ),
        ),
        trust::reset_fault(true, false, true) == Some(
            Fault::InvalidInput(
                "a daemon is still serving this socket: stop it before `trust reset`, then start it again afterwards so it loads the new identity"@,
            ),
        ),
        trust::shown(None, None) == Err::<(Seq<Seq<char>>, bool), Fault>(
            Fault::BrokerUntrusted("no live daemon and no identity file; nothing to show"@),
        ),
{
}

} // verus!
