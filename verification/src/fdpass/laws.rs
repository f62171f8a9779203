//! What is received and sent where nothing goes wrong, and what each fault is told as.

use vstd::prelude::*;

use crate::error::Fault;
use crate::fdpass::{self, AncillaryV, Control, Framed, Layout, Received, Sending, Visit};
use crate::transfer::Moved;
use crate::wire::RequestV;

verus! {

/// The first line break of a text that holds one only at its end.
proof fn lemma_line_end(line: Seq<u8>)
    requires
        !line.contains(10u8),
    ensures
        fdpass::line_end(line) is None,
        fdpass::line_end(line.push(10u8)) == Some(line.len()),
    decreases line.len(),
{
    assert(line.push(10u8).drop_last() =~= line);
    if line.len() > 0 {
        let rest = line.drop_last();
        assert(line.contains(line.last()));
        assert forall|x: u8| rest.contains(x) implies line.contains(x) by {
            let i = rest.index_of(x);
            assert(line[i] == x);
        }
        lemma_line_end(rest);
    }
}

/// The first line break stays the first whatever follows it.
proof fn lemma_line_end_stays(line: Seq<u8>, more: Seq<u8>)
    requires
        !line.contains(10u8),
    ensures
        fdpass::line_end(line.push(10u8) + more) == Some(line.len()),
    decreases more.len(),
{
    let whole = line.push(10u8) + more;
    lemma_line_end(line);
    if more.len() == 0 {
        assert(whole =~= line.push(10u8));
    } else {
        lemma_line_end_stays(line, more.drop_last());
        assert(whole.drop_last() =~= line.push(10u8) + more.drop_last());
    }
}

/// A line that is not too long is a message as soon as its line break is there; without
/// one there is more to come; bytes behind it are refused, and so is a line too long.
pub proof fn law_a_complete_line_is_a_message(line: Seq<u8>, more: Seq<u8>, max: nat)
    requires
        !line.contains(10u8),
        line.len() < usize::MAX,
    ensures
        line.len() <= max ==> fdpass::framed(line.push(10u8), max) == Framed::<Fault>::Line(
            line.len() as usize,
        ),
        line.len() <= max ==> fdpass::framed(line, max) == Framed::<Fault>::More,
        line.len() <= max && more.len() > 0 ==> fdpass::framed(line.push(10u8) + more, max)
            == Framed::<Fault>::Refused(Fault::Protocol("trailing bytes after request"@)),
        line.len() > max ==> fdpass::framed(line, max) == Framed::<Fault>::Refused(Fault::TooLarge),
        line.len() > max ==> fdpass::framed(line.push(10u8) + more, max) == Framed::<
            Fault,
        >::Refused(Fault::TooLarge),
{
    lemma_line_end(line);
    lemma_line_end_stays(line, more);
}

/// What is received is added to what was there, unless it is cut off, comes with a fault
/// in what accompanies it, or is the end of the connection; each of these has its own words.
pub proof fn law_what_is_received_is_kept(
    acc: Seq<u8>,
    bytes: Vec<u8>,
    cut: bool,
    control_cut: bool,
    max: nat,
)
    ensures
        bytes@.len() > 0 ==> fdpass::received(
            acc,
            Received::Data {
                bytes,
                truncated: false,
                control_truncated: false,
                ancillary: None,
            },
            max,
        ) == (acc + bytes@, fdpass::framed(acc + bytes@, max)),
        bytes@.len() > 0 ==> fdpass::received(
            acc,
            Received::Data {
                bytes,
                truncated: true,
                control_truncated: control_cut,
                ancillary: None,
            },
            max,
        ).1 == Framed::<Fault>::Refused(Fault::Protocol("message truncated"@)),
        bytes@.len() > 0 ==> fdpass::received(
            acc,
            Received::Data {
                bytes,
                truncated: false,
                control_truncated: true,
                ancillary: None,
            },
            max,
        ).1 == Framed::<Fault>::Refused(Fault::Protocol("ancillary truncated"@)),
        bytes@.len() == 0 ==> fdpass::received(
            acc,
            Received::Data {
                bytes,
                truncated: cut,
                control_truncated: control_cut,
                ancillary: None,
            },
            max,
        ).1 == Framed::<Fault>::Refused(
            Fault::Protocol(
                if acc.len() == 0 {
                    "connection closed"@
                } else {
                    "unterminated message"@
                },
            ),
        ),
        fdpass::received(acc, Received::Interrupted, max) == (acc, Framed::<Fault>::More),
{
}

/// A request of this version is taken as it is; anything else is not a request.
pub proof fn law_requests_of_this_version_are_taken(r: RequestV, version: u64)
    ensures
        r.v == version ==> fdpass::accepted(Some(r), version) == Ok::<RequestV, Fault>(r),
        r.v != version ==> fdpass::accepted(Some(r), version) == Err::<RequestV, Fault>(
            Fault::Protocol("unsupported protocol version"@),
        ),
        fdpass::accepted(None, version) == Err::<RequestV, Fault>(
            Fault::Protocol("invalid request"@),
        ),
{
}

/// A message of descriptors that was delivered whole is read slot by slot, and all of its
/// descriptors are taken into possession.
pub proof fn law_descriptors_are_all_taken(
    a: AncillaryV,
    m: Control,
    slots: Seq<i32>,
    delivered: usize,
    truncated: bool,
    layout: Layout,
)
    requires
        layout.slot > 0,
        m.level == layout.level,
        m.kind == layout.kind,
        m.len == layout.prefix + slots.len() * layout.slot,
        m.offset + m.len <= delivered,
        slots.len() <= usize::MAX,
        forall|i: int| 0 <= i < slots.len() ==> #[trigger] slots[i] >= 0,
        a.owned + slots.len() <= 32,
    ensures
        fdpass::visited(a, m, delivered, layout) == (a, Visit::Read(slots.len() as usize)),
        fdpass::descriptors(slots) == slots,
        fdpass::owned_after(a, m, slots, delivered, truncated, layout) == (AncillaryV {
            owned: (a.owned + slots.len()) as usize,
            ..a
        }),
{
    let n = slots.len() as int;
    let s = layout.slot as int;
    assert(n * s >= 0) by (nonlinear_arith)
        requires
            n >= 0,
            s > 0,
    ;
    assert((n * s) / s == n) by (nonlinear_arith)
        requires
            s > 0,
    ;
    assert((n * s) % s == 0) by (nonlinear_arith)
        requires
            s > 0,
    ;
    lemma_all_descriptors(slots);
}

proof fn lemma_all_descriptors(slots: Seq<i32>)
    requires
        forall|i: int| 0 <= i < slots.len() ==> #[trigger] slots[i] >= 0,
    ensures
        fdpass::descriptors(slots) == slots,
    decreases slots.len(),
{
    if slots.len() == 0 {
        assert(slots =~= Seq::<i32>::empty());
    } else {
        assert(slots[slots.len() - 1] >= 0);
        lemma_all_descriptors(slots.drop_last());
        assert(slots.drop_last().push(slots.last()) =~= slots);
    }
}

/// Every descriptor that came is taken into possession, the others of its message being
/// faulty or not, and each fault has its own words.
pub proof fn law_faulty_messages_are_named(
    owned: usize,
    m: Control,
    slots: Seq<i32>,
    delivered: usize,
    truncated: bool,
    layout: Layout,
)
    requires
        layout.slot > 0,
        owned + slots.len() <= usize::MAX,
    ensures
        ({
            let a = AncillaryV { error: None, owned };
            let after = fdpass::owned_after(a, m, slots, delivered, truncated, layout);
            &&& fdpass::descriptors(slots) == slots.filter(|d: i32| d >= 0)
            &&& after.owned == owned + slots.filter(|d: i32| d >= 0).len()
            &&& fdpass::is_malformed(m, slots, delivered, truncated, layout) ==> after.error
                == Some(Fault::Protocol("malformed ancillary"@))
            &&& !fdpass::is_malformed(m, slots, delivered, truncated, layout) && after.owned > 32
                ==> after.error == Some(Fault::Protocol("too many file descriptors"@))
            &&& (exists|i: int| 0 <= i < slots.len() && #[trigger] slots[i] < 0)
                ==> fdpass::is_malformed(m, slots, delivered, truncated, layout)
            &&& m.len < layout.prefix ==> fdpass::visited(a, m, delivered, layout) == (
                AncillaryV { error: Some(Fault::Protocol("malformed ancillary"@)), owned },
                Visit::Stop,
            )
            &&& m.len >= layout.prefix && (m.level != layout.level || m.kind != layout.kind)
                ==> fdpass::visited(a, m, delivered, layout) == (
                AncillaryV { error: Some(Fault::Protocol("unexpected ancillary"@)), owned },
                Visit::Skip,
            )
        }),
{
    lemma_filtered(slots);
}

proof fn lemma_filtered(slots: Seq<i32>)
    ensures
        fdpass::descriptors(slots) == slots.filter(|d: i32| d >= 0),
        fdpass::descriptors(slots).len() <= slots.len(),
    decreases slots.len(),
{
    reveal(Seq::filter);
    if slots.len() > 0 {
        lemma_filtered(slots.drop_last());
    }
}

/// A message is sent with its descriptors first, goes on behind the last byte that was
/// sent, and is over with the last one; a call that sends nothing is a fault.
pub proof fn law_a_message_is_sent_to_its_end(sent: usize, len: usize, fds: usize, n: usize, e: Fault)
    requires
        sent < len,
        0 < n <= len - sent,
    ensures
        fdpass::sends(0, fds) == (if fds > 0 {
            Sending::<Fault>::WithDescriptors
        } else {
            Sending::<Fault>::Plain { from: 0 }
        }),
        sent + n == len ==> fdpass::sent_on(sent, len, fds, Moved::Bytes(n)) == Sending::<
            Fault,
        >::Sent,
        sent + n < len ==> fdpass::sent_on(sent, len, fds, Moved::Bytes(n)) == (Sending::<
            Fault,
        >::Plain { from: (sent + n) as usize }),
        fdpass::sent_on(sent, len, fds, Moved::Failed(e)) == Sending::<Fault>::Refused(e),
        fdpass::sent_on(sent, len, fds, Moved::Bytes(0)) == Sending::<Fault>::Refused(
            Fault::Io {
                os_code: None,
                text: if fds > 0 {
                    "short sendmsg"@
                } else {
                    "short send"@
                },
            },
        ),
{
}

/// Only what was delivered is read: a header counts when all of it is there, and of a
/// message that was cut off the whole slots that are there are read.
pub proof fn law_only_what_was_delivered_is_read(
    a: AncillaryV,
    m: Control,
    delivered: usize,
    layout: Layout,
    there: nat,
)
    requires
        layout.slot > 0,
        m.level == layout.level,
        m.kind == layout.kind,
        m.offset + layout.prefix + there * layout.slot <= delivered,
        delivered < m.offset + layout.prefix + (there + 1) * layout.slot,
        m.offset + m.len > delivered,
        there <= usize::MAX,
    ensures
        fdpass::visited(a, m, delivered, layout) == (a, Visit::Read(there as usize)),
        fdpass::header_delivered(m.offset, delivered, layout) <==> m.offset + layout.header
            <= delivered,
{
    let s = layout.slot as int;
    let n = there as int;
    let left = delivered - m.offset - layout.prefix;
    assert(n * s >= 0) by (nonlinear_arith)
        requires
            n >= 0,
            s > 0,
    ;
    assert(left / s == n) by (nonlinear_arith)
        requires
            s > 0,
            n * s <= left < (n + 1) * s,
    ;
}

} // verus!
