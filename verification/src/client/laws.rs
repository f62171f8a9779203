//! What holds of every connection, whatever happens on it: trust comes before
//! any request, and a confirmation comes before any pin.

use vstd::prelude::*;

use crate::broker_identity::handshake;
use crate::broker_identity::{self, PinV};
use crate::cli::trust;
use crate::client::connection::{self, stepped, trusted, ConnActV, ConnectionV, HappenedV, Stage};
use crate::client::{self, Leg};
use crate::error::Fault;
use crate::paths;
use crate::wire;

verus! {

/// Where a connection stands after what happened on it.
pub open spec fn after(start: ConnectionV, events: Seq<HappenedV>) -> ConnectionV
    decreases events.len(),
{
    if events.len() == 0 {
        start
    } else {
        stepped(after(start, events.drop_last()), events.last()).0
    }
}

/// The actions of a connection: at each position what followed the event there.
pub open spec fn acts(start: ConnectionV, events: Seq<HappenedV>) -> Seq<ConnActV> {
    Seq::new(events.len(), |i: int| stepped(after(start, events.take(i)), events[i]).1)
}

/// Whether an action sends the line that opens a handshake, which carries a
/// nonce and nothing else.
pub open spec fn is_hello(a: ConnActV) -> bool {
    exists|v: u64, id: Seq<char>, nonce: Seq<u8>|
        a == ConnActV::Send(#[trigger] handshake::hello_line(v, id, nonce))
}

/// The socket was connected, the server checked and the timeouts set.
pub open spec fn admitted(events: Seq<HappenedV>) -> bool {
    events.len() >= 3 && events[0] is Done && events[1] is Done && events[2] is Done
}

/// After that the handshake was made: a nonce was drawn, its line sent, a reply
/// read and the pin of the socket read.
pub open spec fn shook(events: Seq<HappenedV>) -> bool {
    &&& events.len() >= 7
    &&& admitted(events)
    &&& events[3] is Drawn
    &&& events[4] is Done
    &&& events[5] is Replied
    &&& events[6] is Pin
}

/// What a handshake without a person came to.
pub open spec fn strictly(start: ConnectionV, events: Seq<HappenedV>) -> Result<(), Fault> {
    handshake::strict_outcome(
        Some(events[5]->Replied_0),
        events[3]->Drawn_id,
        events[3]->nonce,
        start.socket,
        start.cwd,
        events[6]->Pin_0,
    )
}

/// What a handshake with a person came to.
pub open spec fn decided(start: ConnectionV, events: Seq<HappenedV>) -> Result<PinV, Fault> {
    handshake::interactive_outcome(
        events[5]->Replied_0,
        events[3]->Drawn_id,
        events[3]->nonce,
        start.socket,
        start.cwd,
        events[6]->Pin_0,
        broker_identity::opt_key(start.opts.trust_fingerprint),
    )
}

/// A person was to confirm a key, and did.
pub open spec fn confirmed(start: ConnectionV, events: Seq<HappenedV>, key: Seq<u8>) -> bool {
    &&& events.len() >= 8
    &&& shook(events)
    &&& client::leg(start.opts) == Ok::<Leg, Fault>(Leg::Interactive)
    &&& decided(start, events) == Ok::<PinV, Fault>(PinV::NeedHumanConfirm(key))
    &&& events[7] is Answered
    &&& trust::confirm_fault(
        key,
        broker_identity::opt_key(start.opts.trust_fingerprint),
        events[7]->Answered_0,
    ) is None
}

/// The bytes of the pin of a key.
pub open spec fn pin_of(start: ConnectionV, key: Seq<u8>) -> Seq<u8> {
    broker_identity::pin_bytes(paths::canonical(start.socket, start.cwd), key)
}

/// Whether what happened establishes trust in a broker: without a person the
/// strict handshake succeeded; with one the presented key is the pinned one, or
/// the person confirmed it and its pin was written.
pub open spec fn established(start: ConnectionV, events: Seq<HappenedV>) -> bool {
    &&& shook(events)
    &&& match client::leg(start.opts) {
        Err(_) => false,
        Ok(Leg::Strict) => strictly(start, events) is Ok,
        Ok(Leg::Interactive) => match decided(start, events) {
            Err(_) => false,
            Ok(PinV::Proceed(_)) => true,
            Ok(PinV::NeedHumanConfirm(key)) => {
                &&& confirmed(start, events, key)
                &&& acts(start, events)[7] == ConnActV::StorePin(pin_of(start, key))
                &&& events.len() >= 9
                &&& events[8] is Done
            },
        },
    }
}

/// What the stage of a connection tells of what happened on it.
spec fn recalls(start: ConnectionV, events: Seq<HappenedV>, v: ConnectionV) -> bool {
    let n = events.len();
    &&& v.opts == start.opts
    &&& v.v == start.v
    &&& v.socket == start.socket
    &&& v.cwd == start.cwd
    &&& connection::connection_wf(v)
    &&& match v.stage {
        Stage::Connect => n == 0,
        Stage::Check => n == 1 && events[0] is Done,
        Stage::Tune => n == 2 && events[0] is Done && events[1] is Done,
        Stage::Draw => n == 3 && admitted(events) && client::leg(start.opts) is Ok,
        Stage::Hello | Stage::Reply | Stage::Pin => {
            &&& admitted(events)
            &&& client::leg(start.opts) is Ok
            &&& n >= 4
            &&& events[3] is Drawn
            &&& v.hello == Some((events[3]->Drawn_id, events[3]->nonce))
            &&& v.stage == Stage::Hello ==> n == 4
            &&& v.stage == Stage::Reply ==> n == 5 && events[4] is Done
            &&& v.stage == Stage::Pin ==> n == 6 && events[4] is Done && events[5] is Replied
                && v.reply == Some(events[5]->Replied_0)
        },
        Stage::Ask => {
            &&& n == 7
            &&& shook(events)
            &&& client::leg(start.opts) == Ok::<Leg, Fault>(Leg::Interactive)
            &&& decided(start, events) == Ok::<PinV, Fault>(PinV::NeedHumanConfirm(v.key->0))
        },
        Stage::Store => {
            &&& n == 8
            &&& v.key is Some
            &&& confirmed(start, events, v.key->0)
            &&& acts(start, events)[7] == ConnActV::StorePin(pin_of(start, v.key->0))
        },
        Stage::Trusted => established(start, events),
        Stage::Over => true,
    }
}

/// What was done does not change with what happens later.
proof fn lemma_acts_stay(start: ConnectionV, events: Seq<HappenedV>, n: int, i: int)
    requires
        0 <= i < n <= events.len(),
    ensures
        acts(start, events.take(n))[i] == acts(start, events)[i],
{
    assert(events.take(n).take(i) =~= events.take(i));
}

/// What was established stays so.
proof fn lemma_established_stays(start: ConnectionV, events: Seq<HappenedV>)
    requires
        events.len() > 0,
        established(start, events.drop_last()),
    ensures
        established(start, events),
{
    let n = events.len() - 1;
    let before = events.drop_last();
    assert(before =~= events.take(n));
    if n >= 8 {
        lemma_acts_stay(start, events, n, 7);
    }
}

proof fn lemma_recalls(start: ConnectionV, events: Seq<HappenedV>)
    requires
        start.stage == Stage::Connect,
    ensures
        recalls(start, events, after(start, events)),
    decreases events.len(),
{
    if events.len() > 0 {
        let before = events.drop_last();
        let e = events.last();
        let v = after(start, before);
        lemma_recalls(start, before);
        assert(forall|k: int| 0 <= k < before.len() ==> before[k] == #[trigger] events[k]);
        assert(events.take(before.len() as int) =~= before);
        assert(acts(start, events)[before.len() as int] == stepped(v, e).1);
        if v.stage == Stage::Trusted {
            lemma_established_stays(start, events);
        }
        if v.stage == Stage::Store {
            lemma_acts_stay(start, events, 8, 7);
        }
        if v.stage == Stage::Pin {
            let (id, nonce) = v.hello->0;
            assert(id == events[3]->Drawn_id && nonce == events[3]->nonce);
        }
    }
}

/// A trusted connection is one on which trust was established.
pub proof fn law_trust_is_established(start: ConnectionV, events: Seq<HappenedV>)
    requires
        start.stage == Stage::Connect,
        trusted(after(start, events)),
    ensures
        established(start, events),
{
    lemma_recalls(start, events);
}

/// Whatever happens, no line but the one that opens the handshake is sent before
/// trust in the broker is established.
pub proof fn law_nothing_but_the_hello_before_trust(
    start: ConnectionV,
    events: Seq<HappenedV>,
    i: int,
)
    requires
        start.stage == Stage::Connect,
        0 <= i < events.len(),
        acts(start, events)[i] is Send,
        !is_hello(acts(start, events)[i]),
    ensures
        established(start, events.take(i)),
{
    lemma_recalls(start, events.take(i));
    let v = after(start, events.take(i));
    if v.stage == Stage::Draw {
        let id = events[i]->Drawn_id;
        let nonce = events[i]->nonce;
        assert(acts(start, events)[i] == ConnActV::Send(handshake::hello_line(v.v, id, nonce)));
    }
}

/// A line before trust carries no credential, is the only one, and is sent only
/// to a server that was checked.
pub proof fn law_the_hello_follows_the_server_check(
    start: ConnectionV,
    events: Seq<HappenedV>,
    i: int,
)
    requires
        start.stage == Stage::Connect,
        0 <= i < events.len(),
        acts(start, events)[i] is Send,
        !trusted(after(start, events.take(i))),
    ensures
        i == 3,
        admitted(events),
        events[3] is Drawn,
        acts(start, events)[i] == ConnActV::Send(
            handshake::hello_line(start.v, events[3]->Drawn_id, events[3]->nonce),
        ),
        acts(start, events)[i]->Send_0.auth == wire::no_auth(),
{
    lemma_recalls(start, events.take(i));
}

/// A pin is written only of the key that the person at the terminal confirmed,
/// after the broker proved that it holds that key.
pub proof fn law_a_pin_follows_a_confirmation(
    start: ConnectionV,
    events: Seq<HappenedV>,
    i: int,
)
    requires
        start.stage == Stage::Connect,
        0 <= i < events.len(),
        acts(start, events)[i] is StorePin,
    ensures
        exists|key: Seq<u8>|
            #[trigger] confirmed(start, events.take(i + 1), key) && acts(start, events)[i]
                == ConnActV::StorePin(pin_of(start, key)),
{
    let before = events.take(i);
    lemma_recalls(start, before);
    let v = after(start, before);
    let key = v.key->0;
    let now = events.take(i + 1);
    assert(forall|k: int| 0 <= k < before.len() ==> before[k] == #[trigger] now[k]);
    assert(confirmed(start, now, key));
}

/// Without a person no pin is written.
pub proof fn law_agents_never_pin(start: ConnectionV, events: Seq<HappenedV>, i: int)
    requires
        start.stage == Stage::Connect,
        start.opts.trust == client::TrustMode::NonInteractive,
        0 <= i < events.len(),
    ensures
        !(acts(start, events)[i] is StorePin),
        !(acts(start, events)[i] is Ask),
{
    lemma_recalls(start, events.take(i));
}

/// A connection that is over stays over.
proof fn lemma_over_stays(start: ConnectionV, events: Seq<HappenedV>, i: int)
    requires
        0 <= i <= events.len(),
        after(start, events.take(i)).stage == Stage::Over,
    ensures
        after(start, events).stage == Stage::Over,
    decreases events.len() - i,
{
    if i < events.len() {
        assert(events.take(i + 1).drop_last() =~= events.take(i));
        lemma_over_stays(start, events, i + 1);
    } else {
        assert(events.take(i) =~= events);
    }
}

/// Nothing is sent, pinned or asked after a refusal: no failure of the handshake
/// is followed by a request without one.
pub proof fn law_nothing_follows_a_refusal(
    start: ConnectionV,
    events: Seq<HappenedV>,
    i: int,
    j: int,
)
    requires
        0 <= i < j < events.len(),
        acts(start, events)[i] is Refuse,
    ensures
        acts(start, events)[j] is Stop,
{
    let upto = events.take(j);
    assert(upto.take(i + 1).drop_last() =~= events.take(i));
    assert(upto.take(i + 1).last() == events[i]);
    lemma_over_stays(start, upto, i + 1);
}

/// A broker that holds the pinned key and signs this client's nonce for this
/// socket is trusted, with or without a person.
pub proof fn law_the_pinned_broker_is_trusted(start: ConnectionV, events: Seq<HappenedV>)
    requires
        start.stage == Stage::Connect,
        events.len() == 7,
        shook(events),
        client::leg(start.opts) is Ok,
        strictly(start, events) is Ok,
    ensures
        trusted(after(start, events)),
{
    let e6 = events.drop_last();
    let e5 = e6.drop_last();
    let e4 = e5.drop_last();
    let e3 = e4.drop_last();
    let e2 = e3.drop_last();
    let e1 = e2.drop_last();
    reveal_with_fuel(after, 8);
    assert(e1.drop_last().len() == 0);
    assert(after(start, e3).stage == Stage::Draw);
    assert(after(start, e6).stage == Stage::Pin);
    let v = after(start, e6);
    assert(v.hello == Some((events[3]->Drawn_id, events[3]->nonce)));
    assert(v.reply == Some(events[5]->Replied_0));
    handshake::law_strict_handshake_needs_the_pinned_key(
        Some(events[5]->Replied_0),
        events[3]->Drawn_id,
        events[3]->nonce,
        start.socket,
        start.cwd,
        events[6]->Pin_0,
    );
}

} // verus!
