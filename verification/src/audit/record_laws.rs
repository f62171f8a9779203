//! What an entry of the log says of what was recorded, how it is shown, and when there is
//! room for it.

use vstd::prelude::*;

use crate::audit::chain;
use crate::audit::log::{self, LogV};
use crate::audit::{self, Decision, EventV, LineV, Priority, Record, RunRecord};
use crate::crypto;
use crate::error::Fault;
use crate::json;
use crate::text;

verus! {

/// The text that is lent, where there is one.
pub open spec fn lent(t: Option<&str>) -> Option<Seq<char>> {
    match t {
        Some(s) => Some(s@),
        None => None,
    }
}

/// An entry says who did what where, with which keys and to which target, how it was
/// decided and why, in the next place of the log and after the last entry. Of a run it
/// says nothing.
pub proof fn law_an_entry_says_what_was_recorded(log: LogV, record: Record, ts: Seq<char>)
    requires
        log.seq < u64::MAX,
    ensures
        ({
            let e = log::record_event(log, record, ts);
            &&& e.ts == ts
            &&& e.seq == log.seq + 1
            &&& e.prev_hash == crypto::hex_text(log.head)
            &&& e.actor == record.actor@
            &&& e.op == record.op@
            &&& e.project == lent(record.project)
            &&& e.keys.len() == record.keys@.len()
            &&& forall|i: int| 0 <= i < e.keys.len() ==> #[trigger] e.keys[i] == record.keys@[i]@
            &&& e.target == lent(record.target)
            &&& e.decision == record.decision
            &&& e.reason == lent(record.reason)
            &&& e.run_id is None && e.executable is None && e.arg_count is None && e.cwd is None
            &&& e.result is None && e.exit_code is None && e.signal is None
        }),
{
}

/// The entry of a run says who ran what where and with which keys, how it was decided and
/// why, and what came of it.
pub proof fn law_the_entry_of_a_run_says_what_was_recorded(
    log: LogV,
    record: RunRecord,
    ts: Seq<char>,
)
    requires
        log.seq < u64::MAX,
    ensures
        ({
            let e = log::run_event(log, record, ts);
            &&& e.ts == ts
            &&& e.seq == log.seq + 1
            &&& e.prev_hash == crypto::hex_text(log.head)
            &&& e.actor == record.actor@
            &&& e.op == "run_with_secrets"@
            &&& e.project == lent(record.project)
            &&& e.keys.len() == record.keys@.len()
            &&& forall|i: int| 0 <= i < e.keys.len() ==> #[trigger] e.keys[i] == record.keys@[i]@
            &&& e.target is None
            &&& e.decision == record.decision
            &&& e.reason == lent(record.reason)
            &&& e.run_id == lent(record.run_id)
            &&& e.executable == lent(record.executable)
            &&& e.arg_count == record.arg_count
            &&& e.cwd == lent(record.cwd)
            &&& e.result == lent(record.result)
            &&& e.exit_code == record.exit_code
            &&& e.signal == lent(record.signal)
        }),
{
}

/// An allowed entry and a denied one differ in their canonical bytes, whatever else they
/// say.
pub proof fn law_decisions_are_told_apart(a: EventV, b: EventV)
    requires
        audit::canonical_bytes(a) == audit::canonical_bytes(b),
    ensures
        a.decision == b.decision,
        a.decision.word() == (match a.decision {
            Decision::Allowed => "allowed"@,
            Decision::Denied => "denied"@,
        }),
{
    audit::canonical::law_canonical_bytes_determine_the_event(a, b);
}

/// The line of an entry holds the members of its canonical text, and after them its hash
/// and its MAC.
pub proof fn law_a_line_is_the_entry_with_its_hash_and_mac(l: LineV)
    ensures
        audit::line_json(l) == audit::canonical_text(l.event).drop_last() + ",\"hash\":"@
            + json::json_quoted(l.hash) + ",\"mac\":"@ + (match l.mac {
            Some(m) => json::json_quoted(m),
            None => "null"@,
        }) + "}"@,
{
    reveal_strlit("}");
    let base = audit::core_members(l.event) + audit::run_members(l.event);
    assert((base + "}"@).drop_last() =~= base);
}

/// A label and a text, where there is one.
pub open spec fn noted(label: Seq<char>, t: Option<Seq<char>>) -> Seq<char> {
    match t {
        Some(s) => label + s,
        None => Seq::empty(),
    }
}

/// A label and a number, where there is one.
pub open spec fn counted(label: Seq<char>, n: Option<int>) -> Seq<char> {
    match n {
        Some(k) => label + text::integer_text(k),
        None => Seq::empty(),
    }
}

/// An entry is shown with all that it says, each under its label, and as unauthenticated
/// exactly when it has no MAC.
pub proof fn law_an_entry_is_shown_with_all_that_it_says(l: LineV)
    ensures
        ({
            let e = l.event;
            audit::line_display(l) == "#"@ + text::decimal_text(e.seq as nat) + " "@ + e.ts + " "@
                + e.actor + " "@ + e.op + " "@ + (match e.decision {
                Decision::Allowed => "allowed"@,
                Decision::Denied => "denied"@,
            }) + noted(" reason="@, e.reason) + noted(" project="@, e.project) + (
            if e.keys.len() == 0 {
                Seq::empty()
            } else {
                " keys="@ + text::debug_text(e.keys)
            }) + noted(" target="@, e.target) + noted(" run_id="@, e.run_id) + noted(
                " executable="@,
                e.executable,
            ) + counted(
                " arg_count="@,
                match e.arg_count {
                    Some(n) => Some(n as int),
                    None => None,
                },
            ) + noted(" cwd="@, e.cwd) + noted(" result="@, e.result) + counted(
                " exit_code="@,
                match e.exit_code {
                    Some(n) => Some(n as int),
                    None => None,
                },
            ) + noted(" signal="@, e.signal) + (if l.mac is None {
                " [unauthenticated]"@
            } else {
                Seq::empty()
            })
        }),
{
}

/// An ordinary entry has room up to the soft ceiling and one that must be written up to
/// the hard one; an entry with its MAC is staged exactly when its line fits, and is
/// otherwise refused with the reason.
pub proof fn law_an_entry_that_fits_is_staged(
    log: LogV,
    e: EventV,
    key: Seq<u8>,
    priority: Priority,
    file_len: u64,
)
    ensures
        ({
            let ceiling = match priority {
                Priority::Ordinary => log.soft,
                Priority::Lifecycle => log.hard,
            };
            let line = LineV {
                event: e,
                hash: crypto::hex_text(chain::chain_hash(log.head, e)),
                mac: Some(crypto::hex_text(chain::chain_mac(key, log.head, e))),
            };
            let fits = file_len + text::utf8(audit::line_json(line)).len() + 1 <= ceiling;
            match log::staged(log, e, Some(key), priority, file_len) {
                Ok(s) => fits && log::staged_line(s) == line,
                Err(f) => !fits && f == (match priority {
                    Priority::Ordinary => Fault::AuditFull(
                        "refused before any change; rotation is post-MVP"@,
                    ),
                    Priority::Lifecycle => Fault::AuditWrite("audit log reached its hard ceiling"@),
                }),
            }
        }),
{
    let line = log::staged_line(log::staged_event(log, e, Some(key)));
    audit::laws::lemma_full_line_len(
        line,
        chain::chain_hash(log.head, e),
        chain::chain_mac(key, log.head, e),
    );
}

/// Whether a line has a MAC.
pub open spec fn has_mac(line: Option<LineV>) -> bool {
    line matches Some(l) && l.mac is Some
}

/// The MACs that were verified are those of the lines that have one, where there is a key,
/// and none where there is not.
pub proof fn law_verified_macs_are_counted(lines: Seq<Option<LineV>>, key: Option<Seq<u8>>)
    requires
        chain::walked(lines, key) is Ok,
    ensures
        chain::walked(lines, key)->Ok_0.macs_verified == (if key is Some {
            lines.filter(|l: Option<LineV>| has_mac(l)).len()
        } else {
            0
        }),
    decreases lines.len(),
{
    reveal(Seq::filter);
    if lines.len() > 0 {
        law_verified_macs_are_counted(lines.drop_last(), key);
    }
}

/// A line that was staged after the last entry carries the hash of that place, and is
/// verified in it with the key it was staged with; without a key it is not authenticated.
pub proof fn law_a_staged_line_is_sound(log: LogV, e: EventV, key: Option<Seq<u8>>)
    requires
        log.seq < u64::MAX,
        log.head.len() == 32,
        e.seq == log.seq + 1,
        e.prev_hash == crypto::hex_text(log.head),
    ensures
        ({
            let line = log::staged_line(log::staged_event(log, e, key));
            &&& line.event == e
            &&& line.mac is Some <==> key is Some
            &&& chain::line_fault(log.head, log.seq + 1, Some(line), key) is None
            &&& chain::line_fault(log.head, log.seq + 1, Some(line), None) is None
        }),
{
    chain::lemma_hash_reads_back(log.head);
    chain::lemma_hash_reads_back(chain::chain_hash(log.head, e));
    if let Some(k) = key {
        chain::lemma_hash_reads_back(chain::chain_mac(k, log.head, e));
    }
}

/// What is wrong with a line is told by what was found: no line, a wrong place, a broken
/// link, a wrong hash or a wrong MAC.
pub proof fn law_unsound_lines_say_why(
    prev: Seq<u8>,
    seq: int,
    l: LineV,
    key: Seq<u8>,
    h: Seq<u8>,
    m: Seq<u8>,
)
    requires
        h.len() == 32,
        m.len() == 32,
        prev.len() == 32,
    ensures
        chain::line_fault(prev, seq, None, Some(key)) == Some(Fault::Corrupt("audit line invalid"@)),
        l.event.seq != seq ==> chain::line_fault(prev, seq, Some(l), Some(key)) == Some(
            Fault::Corrupt("audit seq out of order"@),
        ),
        l.event.seq == seq && l.event.prev_hash == crypto::hex_text(h) && h != prev
            ==> chain::line_fault(prev, seq, Some(l), Some(key)) == Some(
            Fault::Corrupt("audit chain linkage broken"@),
        ),
        l.event.seq == seq && l.event.prev_hash == crypto::hex_text(prev) && l.hash
            == crypto::hex_text(h) && h != chain::chain_hash(prev, l.event) ==> chain::line_fault(
            prev,
            seq,
            Some(l),
            Some(key),
        ) == Some(Fault::Corrupt("audit hash mismatch"@)),
        l.event.seq == seq && l.event.prev_hash == crypto::hex_text(prev) && l.hash
            == crypto::hex_text(chain::chain_hash(prev, l.event)) && l.mac == Some(
            crypto::hex_text(m),
        ) && m != chain::chain_mac(key, prev, l.event) ==> chain::line_fault(
            prev,
            seq,
            Some(l),
            Some(key),
        ) == Some(Fault::Corrupt("audit mac mismatch"@)),
{
    chain::lemma_hash_reads_back(h);
    chain::lemma_hash_reads_back(m);
    chain::lemma_hash_reads_back(prev);
    chain::lemma_hash_reads_back(chain::chain_hash(prev, l.event));
}

/// An entry is hashed after the entry before it: the digest covers both, and so does the MAC
/// under its key.
pub proof fn law_hashes_and_macs_cover_the_entry_and_its_past(
    prev: Seq<u8>,
    key: Seq<u8>,
    e: EventV,
)
    ensures
        chain::chain_hash(prev, e) == crypto::sha256_digest(
            prev + text::utf8(audit::canonical_text(e)),
        ),
        chain::chain_mac(key, prev, e) == crypto::hmac_tag(
            key,
            prev + text::utf8(audit::canonical_text(e)),
        ),
        chain::genesis().len() == 32,
        forall|i: int| 0 <= i < 32 ==> chain::genesis()[i] == 0,
{
}

/// The checkpoint of a vault is looked for in its place: the line there must carry the hash
/// of that place and the hash of the checkpoint, a log that ends before it is behind, and a
/// line out of place is told.
pub proof fn law_checkpoints_are_looked_for_in_their_place(
    lines: Seq<Option<LineV>>,
    done: nat,
    prev: Seq<u8>,
    head_seq: u64,
    head_hash: Seq<char>,
    l: LineV,
)
    requires
        done < lines.len(),
        lines[done as int] == Some(l),
    ensures
        done + 1 == head_seq && l.event.seq == done + 1 && l.hash == crypto::hex_text(
            chain::chain_hash(prev, l.event),
        ) ==> chain::checkpoint(lines, done, prev, head_seq, head_hash) == (if l.hash == head_hash {
            Ok::<(), Fault>(())
        } else {
            Err::<(), Fault>(Fault::Corrupt("audit log diverges from the vault checkpoint"@))
        }),
        done + 1 != head_seq && l.event.seq == done + 1 ==> chain::checkpoint(
            lines,
            done,
            prev,
            head_seq,
            head_hash,
        ) == chain::checkpoint(
            lines,
            done + 1,
            chain::chain_hash(prev, l.event),
            head_seq,
            head_hash,
        ),
        l.event.seq != done + 1 ==> chain::checkpoint(lines, done, prev, head_seq, head_hash)
            == Err::<(), Fault>(Fault::Corrupt("audit seq out of order"@)),
        chain::checkpoint(lines, lines.len(), prev, head_seq, head_hash) == Err::<(), Fault>(
            Fault::Corrupt(
                "audit log is behind the vault checkpoint: the event for the last vault change is missing"@,
            ),
        ),
{
    chain::lemma_hash_reads_back(chain::chain_hash(prev, l.event));
}

/// What was staged is written only after the head that it was staged on, and otherwise the
/// reason is told; the head then moves on to it.
pub proof fn law_entries_are_written_after_their_head(log: LogV, s: log::StagedV, h: Seq<u8>)
    requires
        h.len() == 32,
        log.seq < u64::MAX,
    ensures
        s.event.seq != log.seq + 1 ==> log::appended(log, s) == Err::<LineV, Fault>(
            Fault::Protocol("staged audit entry does not chain from the log head"@),
        ),
        s.event.seq == log.seq + 1 && s.event.prev_hash == crypto::hex_text(h) && h != log.head
            ==> log::appended(log, s) == Err::<LineV, Fault>(
            Fault::Protocol("staged audit entry does not chain from the log head"@),
        ),
        s.event.seq == log.seq + 1 && s.event.prev_hash == crypto::hex_text(h) && h == log.head
            && s.hash_hex != crypto::hex_text(chain::chain_hash(log.head, s.event))
            ==> log::appended(log, s) == Err::<LineV, Fault>(
            Fault::Protocol("staged audit hash mismatch"@),
        ),
        s.event.seq == log.seq + 1 && s.event.prev_hash == crypto::hex_text(h) && h == log.head
            && s.hash_hex == crypto::hex_text(chain::chain_hash(log.head, s.event))
            ==> log::appended(log, s) == Ok::<LineV, Fault>(
            LineV { event: s.event, hash: s.hash_hex, mac: s.mac_hex },
        ),
        log::advanced(log, s.event) == (LogV {
            seq: (log.seq + 1) as u64,
            head: chain::chain_hash(log.head, s.event),
            soft: log.soft,
            hard: log.hard,
        }),
{
    chain::lemma_hash_reads_back(h);
}

} // verus!
