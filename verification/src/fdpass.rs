//! The first message of a connection and the descriptors that come with it.
//!
//! A message is one line. What is decided here is where the line ends, which
//! of the delivered descriptors are there to be owned, and when the message is
//! refused. Every descriptor that was delivered is owned before anything is
//! refused, so that none stays open. The system calls are the caller's.

use vstd::prelude::*;

use crate::error::{Fault, VaultError};
use crate::transfer::{self, Moved, Progress};
use crate::wire::{Request, RequestV};

pub mod laws;

verus! {

/// How many bytes are read at once.
pub const DATA_CHUNK: usize = 8192;

/// Cap on the descriptors of one message.
pub const MAX_RECV_FDS: usize = 32;

/// The byte that ends a message.
pub const NEWLINE: u8 = 10;

fn misuse(why: &str) -> (e: VaultError)
    ensures
        e@ == Fault::Protocol(why@),
{
    VaultError::Protocol(why.to_string())
}

// ------------------------------------------------------------------ ancillary
/// The sizes and numbers of control messages on this machine.
pub struct Layout {
    /// The size of a header.
    pub header: usize,
    /// The bytes of a message in front of its payload.
    pub prefix: usize,
    /// The size of a descriptor.
    pub slot: usize,
    /// The level and the kind of a message that carries descriptors.
    pub level: i32,
    pub kind: i32,
}

/// The header of one control message and where it stands.
pub struct Control {
    pub offset: usize,
    pub len: usize,
    pub level: i32,
    pub kind: i32,
}

/// What is done with a control message.
#[derive(Clone, Copy, Debug, PartialEq, Eq, Structural)]
pub enum Visit {
    /// Nothing behind it can be trusted.
    Stop,
    /// Go to the next message.
    Skip,
    /// Read so many descriptors and hand them to [`Ancillary::own`].
    Read(usize),
}

/// The control messages of one receive call: what was wrong first, and how
/// many descriptors are owned by now.
pub struct Ancillary {
    error: Option<VaultError>,
    owned: usize,
}

/// The mathematical value of an [`Ancillary`].
pub struct AncillaryV {
    pub error: Option<Fault>,
    pub owned: usize,
}

impl View for Ancillary {
    type V = AncillaryV;

    closed spec fn view(&self) -> AncillaryV {
        AncillaryV {
            error: match self.error {
                Some(e) => Some(e@),
                None => None,
            },
            owned: self.owned,
        }
    }
}

/// The state with an error, where the first one stays.
pub open spec fn blamed(a: AncillaryV, why: Seq<char>) -> AncillaryV {
    AncillaryV {
        error: match a.error {
            Some(e) => Some(e),
            None => Some(Fault::Protocol(why)),
        },
        ..a
    }
}

/// Whether a header at an offset was delivered.
pub open spec fn header_delivered(offset: usize, delivered: usize, layout: Layout) -> bool {
    offset + layout.header <= delivered
}

/// The delivered bytes from an offset on.
pub open spec fn available(offset: usize, delivered: usize) -> int {
    if offset <= delivered {
        delivered - offset
    } else {
        0
    }
}

/// The bytes of a message that were delivered.
pub open spec fn safe_len(m: Control, delivered: usize) -> int {
    if m.len <= available(m.offset, delivered) {
        m.len as int
    } else {
        available(m.offset, delivered)
    }
}

/// What is done with a message whose header was delivered.
pub open spec fn visited(a: AncillaryV, m: Control, delivered: usize, layout: Layout) -> (
    AncillaryV,
    Visit,
) {
    if m.len < layout.prefix {
        (blamed(a, "malformed ancillary"@), Visit::Stop)
    } else if m.level != layout.level || m.kind != layout.kind {
        (blamed(a, "unexpected ancillary"@), Visit::Skip)
    } else if safe_len(m, delivered) < layout.prefix {
        (blamed(a, "malformed ancillary"@), Visit::Stop)
    } else {
        (
            a,
            Visit::Read(
                ((safe_len(m, delivered) - layout.prefix) / (layout.slot as int)) as usize,
            ),
        )
    }
}

/// Whether a message is malformed: its payload is no whole number of
/// descriptors, it claims more than was delivered although nothing was cut
/// off, or one of its descriptors is none.
pub open spec fn is_malformed(
    m: Control,
    slots: Seq<i32>,
    delivered: usize,
    truncated: bool,
    layout: Layout,
) -> bool {
    (m.len - layout.prefix) % (layout.slot as int) != 0 || (m.len > available(m.offset, delivered)
        && !truncated) || exists|i: int| 0 <= i < slots.len() && #[trigger] slots[i] < 0
}

/// The descriptors among some slots.
pub open spec fn descriptors(slots: Seq<i32>) -> Seq<i32>
    decreases slots.len(),
{
    if slots.len() == 0 {
        Seq::empty()
    } else if slots.last() < 0 {
        descriptors(slots.drop_last())
    } else {
        descriptors(slots.drop_last()).push(slots.last())
    }
}

/// The state after the descriptors of a message were owned.
pub open spec fn owned_after(
    a: AncillaryV,
    m: Control,
    slots: Seq<i32>,
    delivered: usize,
    truncated: bool,
    layout: Layout,
) -> AncillaryV {
    let b = AncillaryV { owned: (a.owned + descriptors(slots).len()) as usize, ..a };
    let c = if is_malformed(m, slots, delivered, truncated, layout) {
        blamed(b, "malformed ancillary"@)
    } else {
        b
    };
    if c.owned > MAX_RECV_FDS {
        blamed(c, "too many file descriptors"@)
    } else {
        c
    }
}

proof fn lemma_descriptors_fit(slots: Seq<i32>)
    ensures
        descriptors(slots).len() <= slots.len(),
    decreases slots.len(),
{
    if slots.len() > 0 {
        lemma_descriptors_fit(slots.drop_last());
    }
}

impl Ancillary {
    /// The control messages of a receive call, when so many descriptors are
    /// owned already.
    pub fn new(owned: usize) -> (r: Ancillary)
        ensures
            r@ == (AncillaryV { error: None, owned }),
    {
        Ancillary { error: None, owned }
    }

    fn blame(&mut self, why: &str)
        ensures
            final(self)@ == blamed(old(self)@, why@),
    {
        match &self.error {
            Some(_) => {},
            None => {
                self.error = Some(misuse(why));
            },
        }
    }

    /// Tells whether the header at an offset was delivered, before any field of
    /// it is read.
    pub fn reach(&mut self, offset: usize, delivered: usize, layout: &Layout) -> (r: bool)
        ensures
            r == header_delivered(offset, delivered, *layout),
            final(self)@ == (if r {
                old(self)@
            } else {
                blamed(old(self)@, "malformed ancillary"@)
            }),
    {
        let whole = match offset.checked_add(layout.header) {
            Some(end) => end <= delivered,
            None => false,
        };
        if !whole {
            self.blame("malformed ancillary");
        }
        whole
    }

    /// Decides what is done with a message whose header was delivered.
    pub fn visit(&mut self, m: &Control, delivered: usize, layout: &Layout) -> (r: Visit)
        requires
            layout.slot > 0,
        ensures
            (final(self)@, r) == visited(old(self)@, *m, delivered, *layout),
    {
        if m.len < layout.prefix {
            self.blame("malformed ancillary");
            return Visit::Stop;
        }
        if m.level != layout.level || m.kind != layout.kind {
            self.blame("unexpected ancillary");
            return Visit::Skip;
        }
        let avail: usize = if m.offset <= delivered {
            delivered - m.offset
        } else {
            0
        };
        let safe: usize = if m.len <= avail {
            m.len
        } else {
            avail
        };
        if safe < layout.prefix {
            self.blame("malformed ancillary");
            return Visit::Stop;
        }
        Visit::Read((safe - layout.prefix) / layout.slot)
    }

    /// Takes the slots that were read from a message and gives the descriptors
    /// among them, all of which are the caller's to own, whatever is wrong.
    pub fn own(
        &mut self,
        m: &Control,
        slots: &[i32],
        delivered: usize,
        truncated: bool,
        layout: &Layout,
    ) -> (r: Vec<i32>)
        requires
            layout.slot > 0,
            m.len >= layout.prefix,
            old(self)@.owned + slots@.len() <= usize::MAX,
        ensures
            r@ == descriptors(slots@),
            final(self)@ == owned_after(
                old(self)@,
                *m,
                slots@,
                delivered,
                truncated,
                *layout,
            ),
    {
        let avail: usize = if m.offset <= delivered {
            delivered - m.offset
        } else {
            0
        };
        let mut bad = (m.len - layout.prefix) % layout.slot != 0;
        if m.len > avail && !truncated {
            bad = true;
        }
        let ghost framed = bad;
        let mut out: Vec<i32> = Vec::new();
        let mut i: usize = 0;
        while i < slots.len()
            invariant
                *self == *old(self),
                i <= slots@.len(),
                out@ == descriptors(slots@.take(i as int)),
                bad == (framed || exists|k: int| 0 <= k < i && #[trigger] slots@[k] < 0),
            decreases slots@.len() - i,
        {
            let raw: i32 = slots[i];
            proof {
                assert(slots@.take(i + 1).drop_last() =~= slots@.take(i as int));
                assert(slots@.take(i + 1).last() == raw);
            }
            if raw < 0 {
                assert(slots@[i as int] < 0);
                bad = true;
            } else {
                out.push(raw);
            }
            i = i + 1;
        }
        proof {
            assert(slots@.take(i as int) =~= slots@);
            lemma_descriptors_fit(slots@);
        }
        self.owned = self.owned + out.len();
        if bad {
            self.blame("malformed ancillary");
        }
        if self.owned > MAX_RECV_FDS {
            self.blame("too many file descriptors");
        }
        out
    }

    /// What was wrong first, if anything was.
    pub fn into_error(self) -> (r: Option<VaultError>)
        ensures
            match r {
                Some(e) => self@.error == Some(e@),
                None => self@.error is None,
            },
    {
        self.error
    }
}

/// No slot is read past the delivered bytes.
pub proof fn law_reads_stay_in_the_delivered_bytes(
    a: AncillaryV,
    m: Control,
    delivered: usize,
    layout: Layout,
    count: usize,
)
    requires
        layout.slot > 0,
        m.offset <= delivered,
        visited(a, m, delivered, layout).1 == Visit::Read(count),
    ensures
        m.offset + layout.prefix + count * layout.slot <= delivered,
{
    let payload = safe_len(m, delivered) - layout.prefix;
    let slot = layout.slot as int;
    assert(0 <= payload / slot <= payload && (payload / slot) * slot <= payload)
        by (nonlinear_arith)
        requires
            payload >= 0,
            slot > 0,
    ;
    assert(count as int == payload / slot);
}

/// The first thing that is wrong is what is reported.
pub proof fn law_first_error_stays(
    a: AncillaryV,
    m: Control,
    slots: Seq<i32>,
    delivered: usize,
    truncated: bool,
    layout: Layout,
)
    requires
        a.error is Some,
    ensures
        visited(a, m, delivered, layout).0.error == a.error,
        owned_after(a, m, slots, delivered, truncated, layout).error == a.error,
{
}

// -------------------------------------------------------------------- framing
/// Where the first line ends.
pub open spec fn line_end(acc: Seq<u8>) -> Option<nat>
    decreases acc.len(),
{
    if acc.len() == 0 {
        None
    } else {
        match line_end(acc.drop_last()) {
            Some(p) => Some(p),
            None => if acc.last() == NEWLINE {
                Some((acc.len() - 1) as nat)
            } else {
                None
            },
        }
    }
}

/// What follows a receive call.
#[derive(Debug, PartialEq)]
pub enum Framed<E> {
    /// Receive again.
    More,
    /// The message is complete: its line has so many bytes.
    Line(usize),
    Refused(E),
}

pub open spec fn framed_value(f: Framed<VaultError>) -> Framed<Fault> {
    match f {
        Framed::More => Framed::More,
        Framed::Line(n) => Framed::Line(n),
        Framed::Refused(e) => Framed::Refused(e@),
    }
}

/// What the bytes so far are: a whole message is one line with nothing behind
/// it, and a line is at most `max` bytes long.
pub open spec fn framed(acc: Seq<u8>, max: nat) -> Framed<Fault> {
    match line_end(acc) {
        Some(pos) => if pos > max {
            Framed::Refused(Fault::TooLarge)
        } else if acc.len() != pos + 1 {
            Framed::Refused(Fault::Protocol("trailing bytes after request"@))
        } else {
            Framed::Line(pos as usize)
        },
        None => if acc.len() > max {
            Framed::Refused(Fault::TooLarge)
        } else {
            Framed::More
        },
    }
}

/// What one receive call came to.
pub enum Received {
    Interrupted,
    Failed(VaultError),
    /// Some bytes, what was cut off, and what was wrong with the control
    /// messages.
    Data {
        bytes: Vec<u8>,
        truncated: bool,
        control_truncated: bool,
        ancillary: Option<VaultError>,
    },
}

/// What follows a receive call: the bytes so far, and what they are.
pub open spec fn received(acc: Seq<u8>, got: Received, max: nat) -> (Seq<u8>, Framed<Fault>) {
    match got {
        Received::Interrupted => (acc, Framed::More),
        Received::Failed(e) => (acc, Framed::Refused(e@)),
        Received::Data { bytes, truncated, control_truncated, ancillary } => if bytes@.len() == 0 {
            (
                acc,
                Framed::Refused(
                    Fault::Protocol(
                        if acc.len() == 0 {
                            "connection closed"@
                        } else {
                            "unterminated message"@
                        },
                    ),
                ),
            )
        } else if truncated {
            (acc, Framed::Refused(Fault::Protocol("message truncated"@)))
        } else if control_truncated {
            (acc, Framed::Refused(Fault::Protocol("ancillary truncated"@)))
        } else {
            match ancillary {
                Some(e) => (acc, Framed::Refused(e@)),
                None => (acc + bytes@, framed(acc + bytes@, max)),
            }
        },
    }
}

fn find_line(acc: &[u8]) -> (r: Option<usize>)
    ensures
        match r {
            Some(p) => line_end(acc@) == Some(p as nat),
            None => line_end(acc@) is None,
        },
{
    let mut i: usize = 0;
    proof {
        assert(acc@.take(0) =~= Seq::<u8>::empty());
    }
    while i < acc.len()
        invariant
            i <= acc@.len(),
            line_end(acc@.take(i as int)) is None,
        decreases acc@.len() - i,
    {
        proof {
            assert(acc@.take(i + 1).drop_last() =~= acc@.take(i as int));
            assert(acc@.take(i + 1).last() == acc@[i as int]);
        }
        if acc[i] == NEWLINE {
            proof {
                lemma_line_end_stays(acc@, i + 1);
            }
            return Some(i);
        }
        i = i + 1;
    }
    proof {
        assert(acc@.take(i as int) =~= acc@);
    }
    None
}

proof fn lemma_line_end_stays(acc: Seq<u8>, n: int)
    requires
        0 <= n <= acc.len(),
        line_end(acc.take(n)) is Some,
    ensures
        line_end(acc) == line_end(acc.take(n)),
    decreases acc.len() - n,
{
    if n == acc.len() {
        assert(acc.take(n) =~= acc);
    } else {
        assert(acc.take(n + 1).drop_last() =~= acc.take(n));
        lemma_line_end_stays(acc, n + 1);
    }
}

/// Takes what a receive call came to and adds it to the bytes so far.
pub fn recv_request_with_fds(
    acc: &mut Vec<u8>,
    got: Received,
    max: usize,
) -> (r: Framed<VaultError>)
    ensures
        (final(acc)@, framed_value(r)) == received(old(acc)@, got, max as nat),
{
    match got {
        Received::Interrupted => Framed::More,
        Received::Failed(e) => Framed::Refused(e),
        Received::Data { bytes, truncated, control_truncated, ancillary } => {
            if bytes.len() == 0 {
                if acc.len() == 0 {
                    return Framed::Refused(misuse("connection closed"));
                }
                return Framed::Refused(misuse("unterminated message"));
            }
            if truncated {
                return Framed::Refused(misuse("message truncated"));
            }
            if control_truncated {
                return Framed::Refused(misuse("ancillary truncated"));
            }
            match ancillary {
                Some(e) => {
                    return Framed::Refused(e);
                },
                None => {},
            }
            acc.extend_from_slice(bytes.as_slice());
            proof {
                assert(acc@ =~= old(acc)@ + bytes@);
            }
            match find_line(acc.as_slice()) {
                Some(pos) => {
                    proof {
                        lemma_line_end_range(acc@);
                    }
                    if pos > max {
                        Framed::Refused(VaultError::TooLarge)
                    } else if acc.len() - 1 != pos {
                        Framed::Refused(misuse("trailing bytes after request"))
                    } else {
                        Framed::Line(pos)
                    }
                },
                None => if acc.len() > max {
                    Framed::Refused(VaultError::TooLarge)
                } else {
                    Framed::More
                },
            }
        },
    }
}

proof fn lemma_line_end_range(acc: Seq<u8>)
    ensures
        line_end(acc) matches Some(p) ==> p < acc.len() && acc[p as int] == NEWLINE && forall|
            i: int,
        |
            0 <= i < p ==> acc[i] != NEWLINE,
        line_end(acc) is None ==> forall|i: int| 0 <= i < acc.len() ==> acc[i] != NEWLINE,
    decreases acc.len(),
{
    if acc.len() > 0 {
        lemma_line_end_range(acc.drop_last());
        let head = acc.drop_last();
        assert forall|i: int| 0 <= i < head.len() implies #[trigger] acc[i] == head[i] by {}
    }
}

/// One line is one message: it ends with the first line break, nothing
/// follows, and it is not longer than allowed.
pub proof fn law_one_line_is_one_message(acc: Seq<u8>, max: nat, n: usize)
    requires
        framed(acc, max) == Framed::<Fault>::Line(n),
        acc.len() <= usize::MAX,
    ensures
        acc.len() == n + 1,
        n <= max,
        acc[n as int] == NEWLINE,
        forall|i: int| 0 <= i < n ==> acc[i] != NEWLINE,
{
    lemma_line_end_range(acc);
}

/// What is kept never grows past the cap by more than what one call brought.
pub proof fn law_memory_is_bounded(acc: Seq<u8>, max: nat)
    requires
        framed(acc, max) is More,
    ensures
        acc.len() <= max,
{
}

/// The request that a line holds.
pub open spec fn accepted(decoded: Option<RequestV>, version: u64) -> Result<RequestV, Fault> {
    match decoded {
        None => Err(Fault::Protocol("invalid request"@)),
        Some(r) => if r.v != version {
            Err(Fault::Protocol("unsupported protocol version"@))
        } else {
            Ok(r)
        },
    }
}

/// Accepts the request that a line holds, if it is one of this version.
pub fn accept_request(decoded: Option<Request>, version: u64) -> (r: Result<Request, VaultError>)
    ensures
        ({
            let expected = accepted(
                match decoded {
                    Some(q) => Some(q@),
                    None => None,
                },
                version,
            );
            match r {
                Ok(q) => expected == Ok::<RequestV, Fault>(q@),
                Err(e) => expected == Err::<RequestV, Fault>(e@),
            }
        }),
{
    match decoded {
        None => Err(misuse("invalid request")),
        Some(q) => if q.v != version {
            Err(misuse("unsupported protocol version"))
        } else {
            Ok(q)
        },
    }
}

// -------------------------------------------------------------------- sending
/// What is to be sent next.
#[derive(Debug, PartialEq)]
pub enum Sending<E> {
    /// The whole line, with the descriptors.
    WithDescriptors,
    /// The line from this position on.
    Plain { from: usize },
    Sent,
    Refused(E),
}

pub open spec fn sending_value(s: Sending<VaultError>) -> Sending<Fault> {
    match s {
        Sending::WithDescriptors => Sending::WithDescriptors,
        Sending::Plain { from } => Sending::Plain { from },
        Sending::Sent => Sending::Sent,
        Sending::Refused(e) => Sending::Refused(e@),
    }
}

/// What is sent from a position on: the first call carries the descriptors.
pub open spec fn sends(sent: usize, fds: usize) -> Sending<Fault> {
    if sent == 0 && fds > 0 {
        Sending::WithDescriptors
    } else {
        Sending::Plain { from: sent }
    }
}

/// Starts to send a line, whose length counts its end.
pub fn send_request_with_fds(len: usize, fds: usize, max: usize) -> (r: Sending<VaultError>)
    requires
        len > 0,
    ensures
        sending_value(r) == (if len - 1 > max {
            Sending::Refused(Fault::TooLarge)
        } else {
            sends(0, fds)
        }),
{
    if len - 1 > max {
        return Sending::Refused(VaultError::TooLarge);
    }
    if fds > 0 {
        Sending::WithDescriptors
    } else {
        Sending::Plain { from: 0 }
    }
}

/// What follows a send call.
pub open spec fn sent_on(sent: usize, len: usize, fds: usize, outcome: Moved<Fault>) -> Sending<Fault> {
    match transfer::advanced(
        sent,
        len,
        outcome,
        if fds > 0 {
            "short sendmsg"@
        } else {
            "short send"@
        },
    ) {
        Progress::Go { from } => sends(from, fds),
        Progress::Done => Sending::Sent,
        Progress::Failed(e) => Sending::Refused(e),
    }
}

/// Decides what follows a send call.
pub fn send_on(sent: usize, len: usize, fds: usize, outcome: Moved<VaultError>) -> (r: Sending<
    VaultError,
>)
    requires
        sent <= len,
        outcome matches Moved::Bytes(n) ==> n <= len - sent,
    ensures
        sending_value(r) == sent_on(sent, len, fds, transfer::moved_value(outcome)),
{
    let zero = if fds > 0 {
        "short sendmsg"
    } else {
        "short send"
    };
    match transfer::advance(sent, len, outcome, zero) {
        Progress::Go { from } => if from == 0 && fds > 0 {
            Sending::WithDescriptors
        } else {
            Sending::Plain { from }
        },
        Progress::Done => Sending::Sent,
        Progress::Failed(e) => Sending::Refused(e),
    }
}

/// The descriptors travel once: with the first byte, and again only if the
/// call that carried them moved nothing.
pub proof fn law_descriptors_travel_once(sent: usize, len: usize, fds: usize, n: usize)
    requires
        0 < n < len - sent,
        sent < len,
    ensures
        sent_on(sent, len, fds, Moved::Bytes(n)) == (Sending::<Fault>::Plain {
            from: (sent + n) as usize,
        }),
        sent_on(0, len, fds, Moved::Interrupted) == sends(0, fds),
{
}

/// What stands for a value stands for all of it: the same variant, with every part.
pub proof fn law_framed_value_is_faithful(f: Framed<VaultError>)
    ensures
        match (f, framed_value(f)) {
            (Framed::More, Framed::More) => true,
            (Framed::Line(n), Framed::Line(v0)) => v0 == n,
            (Framed::Refused(e), Framed::Refused(v0)) => v0 == e@,
            _ => false,
        },
{
}

/// What stands for a value stands for all of it: the same variant, with every part.
pub proof fn law_sending_value_is_faithful(s: Sending<VaultError>)
    ensures
        match (s, sending_value(s)) {
            (Sending::WithDescriptors, Sending::WithDescriptors) => true,
            (Sending::Plain { from }, Sending::Plain { from: from_v }) => from_v == from,
            (Sending::Sent, Sending::Sent) => true,
            (Sending::Refused(e), Sending::Refused(v0)) => v0 == e@,
            _ => false,
        },
{
}

} // verus!
