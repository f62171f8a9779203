//! What holds of every audit log.

use vstd::prelude::*;

use crate::audit::chain::{self, WalkV};
use crate::audit::log::{self, LogV, StagedV};
use crate::audit::{self, EventV, LineV, Priority};
use crate::crypto;
use crate::error::Fault;
use crate::json;
use crate::text;

verus! {

/// Whether a head is the end of a verified log.
pub open spec fn ends(log: LogV, lines: Seq<Option<LineV>>, key: Option<Seq<u8>>) -> bool {
    &&& lines.len() < u64::MAX
    &&& log.seq == lines.len()
    &&& chain::walked(lines, key) matches Ok(w) && w.head == log.head
}

/// Whether an event is the next one after a head.
pub open spec fn follows(log: LogV, e: EventV) -> bool {
    e.seq == log.seq + 1 && e.prev_hash == crypto::hex_text(log.head)
}

/// The head of a verified log is a digest or the genesis, so it has 32 bytes.
proof fn lemma_head_len(lines: Seq<Option<LineV>>, key: Option<Seq<u8>>)
    ensures
        chain::walked(lines, key) matches Ok(w) ==> w.head.len() == 32,
    decreases lines.len(),
{
    if lines.len() > 0 {
        lemma_head_len(lines.drop_last(), key);
    }
}

/// A log that verifies still verifies after an entry was staged on its head
/// and written, and the new entry counts as authenticated exactly when it was
/// staged with the key that verifies it. The head moves to the new entry.
pub proof fn law_appending_keeps_a_log_verified(
    lines: Seq<Option<LineV>>,
    log: LogV,
    e: EventV,
    mac_key: Option<Seq<u8>>,
    key: Option<Seq<u8>>,
)
    requires
        ends(log, lines, key),
        follows(log, e),
        mac_key is None || key is None || mac_key == key,
    ensures
        ({
            let line = log::staged_line(log::staged_event(log, e, mac_key));
            let longer = lines.push(Some(line));
            &&& log::appended(log, log::staged_event(log, e, mac_key)) == Ok::<LineV, Fault>(line)
            &&& chain::walked(longer, key) == Ok::<WalkV, Fault>(
                chain::stepped(chain::walked(lines, key)->Ok_0, line, key),
            )
            &&& lines.len() + 1 < u64::MAX ==> ends(log::advanced(log, e), longer, key)
        }),
{
    lemma_head_len(lines, key);
    log::lemma_staged_appends(log, e, mac_key);
    let line = log::staged_line(log::staged_event(log, e, mac_key));
    let longer = lines.push(Some(line));
    assert(longer.drop_last() =~= lines);
    assert(longer.last() == Some(line));
    chain::lemma_hash_reads_back(log.head);
    chain::lemma_hash_reads_back(chain::chain_hash(log.head, e));
    if let Some(k) = mac_key {
        chain::lemma_hash_reads_back(chain::chain_mac(k, log.head, e));
    }
}

/// The hash before the line at position `i` of a log.
pub open spec fn hash_before(lines: Seq<Option<LineV>>, i: int) -> Seq<u8>
    decreases i,
{
    if i <= 0 {
        chain::genesis()
    } else {
        chain::chain_hash(hash_before(lines, i - 1), lines[i - 1]->0.event)
    }
}

/// A log verifies exactly when each of its lines is sound in its place, and
/// its head is then the hash after its last line.
pub proof fn law_verified_means_every_line_is_sound(
    lines: Seq<Option<LineV>>,
    key: Option<Seq<u8>>,
)
    ensures
        chain::walked(lines, key) is Ok <==> forall|i: int|
            0 <= i < lines.len() ==> chain::line_fault(
                hash_before(lines, i),
                i + 1,
                #[trigger] lines[i],
                key,
            ) is None,
        chain::walked(lines, key) matches Ok(w) ==> w.head == hash_before(
            lines,
            lines.len() as int,
        ) && w.entries == lines.len() && w.macs_verified + w.macs_null == w.entries,
    decreases lines.len(),
{
    chain::lemma_walked_counts(lines, key);
    if lines.len() > 0 {
        let shorter = lines.drop_last();
        law_verified_means_every_line_is_sound(shorter, key);
        assert forall|i: int| 0 <= i <= shorter.len() implies hash_before(shorter, i)
            == #[trigger] hash_before(lines, i) by {
            lemma_hash_before_prefix(shorter, lines, i);
        }
        let last = lines.len() - 1;
        if chain::walked(lines, key) is Ok {
            assert forall|i: int| 0 <= i < lines.len() implies chain::line_fault(
                hash_before(lines, i),
                i + 1,
                #[trigger] lines[i],
                key,
            ) is None by {
                if i < last {
                    assert(shorter[i] == lines[i]);
                }
            }
        }
        if forall|i: int|
            0 <= i < lines.len() ==> chain::line_fault(
                hash_before(lines, i),
                i + 1,
                #[trigger] lines[i],
                key,
            ) is None {
            assert forall|i: int| 0 <= i < shorter.len() implies chain::line_fault(
                hash_before(shorter, i),
                i + 1,
                #[trigger] shorter[i],
                key,
            ) is None by {
                assert(shorter[i] == lines[i]);
            }
            assert(chain::line_fault(hash_before(lines, last), last + 1, lines[last], key) is None);
        }
    }
}

proof fn lemma_hash_before_prefix(a: Seq<Option<LineV>>, b: Seq<Option<LineV>>, i: int)
    requires
        0 <= i <= a.len() <= b.len(),
        forall|k: int| 0 <= k < a.len() ==> a[k] == b[k],
    ensures
        hash_before(a, i) == hash_before(b, i),
    decreases i,
{
    if i > 0 {
        lemma_hash_before_prefix(a, b, i - 1);
    }
}

/// The entries of a verified log are numbered from one, without gaps.
pub proof fn law_sequence_has_no_gaps(lines: Seq<Option<LineV>>, key: Option<Seq<u8>>, i: int)
    requires
        chain::walked(lines, key) is Ok,
        0 <= i < lines.len(),
    ensures
        lines[i] matches Some(l) && l.event.seq == i + 1,
{
    law_verified_means_every_line_is_sound(lines, key);
    assert(chain::line_fault(hash_before(lines, i), i + 1, lines[i], key) is None);
}

/// Deleting any entry but the last one breaks a verified log.
pub proof fn law_deletion_is_detected(lines: Seq<Option<LineV>>, key: Option<Seq<u8>>, i: int)
    requires
        chain::walked(lines, key) is Ok,
        0 <= i < lines.len() - 1,
    ensures
        chain::walked(lines.remove(i), key) is Err,
{
    let cut = lines.remove(i);
    if chain::walked(cut, key) is Ok {
        law_sequence_has_no_gaps(cut, key, i);
        law_sequence_has_no_gaps(lines, key, i + 1);
        assert(cut[i] == lines[i + 1]);
    }
}

/// Exchanging two entries breaks a verified log.
pub proof fn law_reordering_is_detected(
    lines: Seq<Option<LineV>>,
    key: Option<Seq<u8>>,
    i: int,
    j: int,
)
    requires
        chain::walked(lines, key) is Ok,
        0 <= i < j < lines.len(),
    ensures
        chain::walked(lines.update(i, lines[j]).update(j, lines[i]), key) is Err,
{
    let swapped = lines.update(i, lines[j]).update(j, lines[i]);
    if chain::walked(swapped, key) is Ok {
        law_sequence_has_no_gaps(swapped, key, i);
        law_sequence_has_no_gaps(lines, key, j);
        assert(swapped[i] == lines[j]);
    }
}

/// The stored hash of an entry of a verified log is the one of its content.
proof fn lemma_stored_hash(lines: Seq<Option<LineV>>, key: Option<Seq<u8>>, i: int)
    requires
        chain::walked(lines, key) is Ok,
        0 <= i < lines.len(),
    ensures
        lines[i] matches Some(l) && chain::hash_of(l.hash) == Ok::<Seq<u8>, Fault>(
            chain::chain_hash(hash_before(lines, i), l.event),
        ),
{
    law_verified_means_every_line_is_sound(lines, key);
    assert(chain::line_fault(hash_before(lines, i), i + 1, lines[i], key) is None);
}

/// Changing the content of an entry, with its stored hash left as it was,
/// breaks a verified log, unless the two contents collide under SHA-256.
pub proof fn law_tampering_is_detected(
    lines: Seq<Option<LineV>>,
    key: Option<Seq<u8>>,
    i: int,
    forged: EventV,
)
    requires
        chain::walked(lines, key) is Ok,
        0 <= i < lines.len(),
        chain::chain_hash(hash_before(lines, i), forged) != chain::chain_hash(
            hash_before(lines, i),
            lines[i]->0.event,
        ),
    ensures
        chain::walked(
            lines.update(i, Some(LineV { event: forged, ..lines[i]->0 })),
            key,
        ) is Err,
{
    let changed = lines.update(i, Some(LineV { event: forged, ..lines[i]->0 }));
    if chain::walked(changed, key) is Ok {
        lemma_stored_hash(changed, key, i);
        lemma_stored_hash(lines, key, i);
        lemma_hash_before_prefix(lines.take(i), lines, i);
        lemma_hash_before_prefix(lines.take(i), changed, i);
    }
}

/// A MAC that verifies is the one of its entry after the very entries before
/// it.
pub proof fn law_macs_anchor_history(lines: Seq<Option<LineV>>, key: Seq<u8>, i: int)
    requires
        chain::walked(lines, Some(key)) is Ok,
        0 <= i < lines.len(),
        lines[i]->0.mac is Some,
    ensures
        chain::hash_of(lines[i]->0.mac->0) == Ok::<Seq<u8>, Fault>(
            chain::chain_mac(key, hash_before(lines, i), lines[i]->0.event),
        ),
{
    law_verified_means_every_line_is_sound(lines, Some(key));
    assert(chain::line_fault(hash_before(lines, i), i + 1, lines[i], Some(key)) is None);
}

/// Of two verified logs that hold the same MAC in the same place, the entry
/// there and the hash before it are the same, unless the two collide under
/// HMAC-SHA256: a MAC is not kept over a changed history.
pub proof fn law_kept_macs_keep_history(
    a: Seq<Option<LineV>>,
    b: Seq<Option<LineV>>,
    key: Seq<u8>,
    i: int,
)
    requires
        chain::walked(a, Some(key)) is Ok,
        chain::walked(b, Some(key)) is Ok,
        0 <= i < a.len(),
        i < b.len(),
        a[i]->0.mac is Some,
        a[i]->0.mac == b[i]->0.mac,
        ({
            let x = chain::covered(hash_before(a, i), a[i]->0.event);
            let y = chain::covered(hash_before(b, i), b[i]->0.event);
            x != y ==> crypto::hmac_tag(key, x) != crypto::hmac_tag(key, y)
        }),
    ensures
        audit::canonical_bytes(a[i]->0.event) == audit::canonical_bytes(b[i]->0.event),
        hash_before(a, i) == hash_before(b, i),
{
    law_macs_anchor_history(a, key, i);
    law_macs_anchor_history(b, key, i);
    lemma_split32(
        hash_before(a, i),
        audit::canonical_bytes(a[i]->0.event),
        hash_before(b, i),
        audit::canonical_bytes(b[i]->0.event),
    );
}

/// Whether the entries at position `j` of two logs are a collision of SHA-256:
/// what their hashes cover differs and the hashes do not.
pub open spec fn collide_at(a: Seq<Option<LineV>>, b: Seq<Option<LineV>>, j: int) -> bool {
    let x = chain::covered(hash_before(a, j), a[j]->0.event);
    let y = chain::covered(hash_before(b, j), b[j]->0.event);
    x != y && crypto::sha256_digest(x) == crypto::sha256_digest(y)
}

/// Two verified logs of one length with one head have the same history from
/// any position on at which they hold no collision of SHA-256.
pub proof fn law_head_fixes_history(
    a: Seq<Option<LineV>>,
    b: Seq<Option<LineV>>,
    key: Option<Seq<u8>>,
    i: int,
)
    requires
        chain::walked(a, key) is Ok,
        chain::walked(b, key) is Ok,
        a.len() == b.len(),
        0 <= i < a.len(),
        hash_before(a, a.len() as int) == hash_before(b, b.len() as int),
        forall|j: int| i <= j < a.len() ==> !#[trigger] collide_at(a, b, j),
    ensures
        audit::canonical_bytes(a[i]->0.event) == audit::canonical_bytes(b[i]->0.event),
        hash_before(a, i) == hash_before(b, i),
    decreases a.len() - i,
{
    if i + 1 < a.len() {
        law_head_fixes_history(a, b, key, i + 1);
    }
    assert(hash_before(a, i + 1) == hash_before(b, i + 1));
    assert(!collide_at(a, b, i));
    lemma_split32(
        hash_before(a, i),
        audit::canonical_bytes(a[i]->0.event),
        hash_before(b, i),
        audit::canonical_bytes(b[i]->0.event),
    );
}

proof fn lemma_split32(ha: Seq<u8>, ca: Seq<u8>, hb: Seq<u8>, cb: Seq<u8>)
    requires
        ha.len() == 32,
        hb.len() == 32,
        ha + ca == hb + cb,
    ensures
        ha == hb,
        ca == cb,
{
    assert(ha =~= (ha + ca).take(32));
    assert(hb =~= (hb + cb).take(32));
    assert(ca =~= (ha + ca).skip(32));
    assert(cb =~= (hb + cb).skip(32));
}

/// Cutting entries off the end of a verified log leaves a verified log: a
/// truncated tail is not detected by the walk.
pub proof fn law_truncation_is_not_detected(
    lines: Seq<Option<LineV>>,
    key: Option<Seq<u8>>,
    n: int,
)
    requires
        chain::walked(lines, key) is Ok,
        0 <= n <= lines.len(),
    ensures
        chain::walked(lines.take(n), key) is Ok,
    decreases lines.len() - n,
{
    if n < lines.len() {
        law_truncation_is_not_detected(lines, key, n + 1);
        assert(lines.take(n + 1).drop_last() =~= lines.take(n));
    } else {
        assert(lines.take(n) =~= lines);
    }
}

/// A vault whose checkpoint is the entry just written finds it in the log; a
/// checkpoint beyond the log is not found.
pub proof fn law_checkpoint_is_found(
    lines: Seq<Option<LineV>>,
    log: LogV,
    e: EventV,
    mac_key: Option<Seq<u8>>,
    later: u64,
)
    requires
        ends(log, lines, None),
        follows(log, e),
        later > lines.len() + 1,
    ensures
        ({
            let s = log::staged_event(log, e, mac_key);
            let longer = lines.push(Some(log::staged_line(s)));
            &&& chain::checkpoint(longer, 0, chain::genesis(), e.seq, s.hash_hex) == Ok::<(), Fault>(
                (),
            )
            &&& chain::checkpoint(longer, 0, chain::genesis(), later, s.hash_hex) is Err
        }),
{
    let s = log::staged_event(log, e, mac_key);
    let line = log::staged_line(s);
    let longer = lines.push(Some(line));
    law_verified_means_every_line_is_sound(lines, None);
    lemma_head_len(lines, None);
    chain::lemma_hash_reads_back(chain::chain_hash(log.head, e));
    lemma_hash_before_prefix(lines, longer, lines.len() as int);
    lemma_checkpoint_skips(lines, longer, 0, e.seq, s.hash_hex);
    lemma_checkpoint_skips(lines, longer, 0, later, s.hash_hex);
    assert(longer[lines.len() as int] == Some(line));
    reveal_with_fuel(chain::checkpoint, 2);
}

proof fn lemma_checkpoint_skips(
    lines: Seq<Option<LineV>>,
    longer: Seq<Option<LineV>>,
    done: nat,
    head_seq: u64,
    head_hash: Seq<char>,
)
    requires
        chain::walked(lines, None) is Ok,
        done <= lines.len() < longer.len(),
        forall|k: int| 0 <= k < lines.len() ==> lines[k] == longer[k],
        head_seq > lines.len(),
    ensures
        chain::checkpoint(longer, done, hash_before(longer, done as int), head_seq, head_hash)
            == chain::checkpoint(
            longer,
            lines.len(),
            hash_before(longer, lines.len() as int),
            head_seq,
            head_hash,
        ),
    decreases lines.len() - done,
{
    if done < lines.len() {
        law_sequence_has_no_gaps(lines, None, done as int);
        lemma_checkpoint_skips(lines, longer, done + 1, head_seq, head_hash);
    }
}

/// An ordinary entry that is staged never takes the file over the soft
/// ceiling, and no entry takes it over the hard one: what is written is no
/// longer than what was measured.
pub proof fn law_ceilings_are_never_overshot(
    log: LogV,
    e: EventV,
    key: Option<Seq<u8>>,
    priority: Priority,
    file_len: u64,
)
    ensures
        log::staged(log, e, key, priority, file_len) matches Ok(s) ==> file_len + text::utf8(
            audit::line_json(log::staged_line(s)),
        ).len() + 1 <= log::ceiling(log, priority),
{
    if let Ok(s) = log::staged(log, e, key, priority, file_len) {
        lemma_line_len(log::staged_line(s), log::widest_line(e));
    }
}

/// A line with a hash and perhaps a MAC is no longer than one with zeros in
/// their place.
proof fn lemma_line_len(l: LineV, wide: LineV)
    requires
        l.event == wide.event,
        wide == log::widest_line(l.event),
        exists|h: Seq<u8>| h.len() == 32 && l.hash == crypto::hex_text(h),
        l.mac is None || exists|h: Seq<u8>|
            h.len() == 32 && l.mac->0 == #[trigger] crypto::hex_text(h),
    ensures
        text::utf8(audit::line_json(l)).len() <= text::utf8(audit::line_json(wide)).len(),
{
    let base = audit::core_members(l.event) + audit::run_members(l.event);
    lemma_json_len(l, base);
    lemma_json_len(wide, base);
    let h = choose|h: Seq<u8>| h.len() == 32 && l.hash == crypto::hex_text(h);
    lemma_quoted_hex_len(h);
    lemma_quoted_zeros_len();
    if l.mac is Some {
        let m = choose|h: Seq<u8>| h.len() == 32 && l.mac->0 == #[trigger] crypto::hex_text(h);
        lemma_quoted_hex_len(m);
    } else {
        reveal_strlit("null");
        assert(vstd::utf8::is_ascii_chars("null"@)) by {
            assert("null"@.len() == 4);
            assert(
                "null"@[0] == 'n'
                    && "null"@[1] == 'u'
                    && "null"@[2] == 'l'
                    && "null"@[3] == 'l'
            );
        }
        vstd::utf8::is_ascii_chars_encode_utf8("null"@);
    }
}

/// A line with a hash and a MAC is as long as one with zeros in their place.
pub proof fn lemma_full_line_len(l: LineV, h: Seq<u8>, m: Seq<u8>)
    requires
        h.len() == 32,
        m.len() == 32,
        l.hash == crypto::hex_text(h),
        l.mac == Some(crypto::hex_text(m)),
    ensures
        text::utf8(audit::line_json(l)).len() == text::utf8(
            audit::line_json(log::widest_line(l.event)),
        ).len(),
{
    let base = audit::core_members(l.event) + audit::run_members(l.event);
    lemma_json_len(l, base);
    lemma_json_len(log::widest_line(l.event), base);
    lemma_quoted_hex_len(h);
    lemma_quoted_hex_len(m);
    lemma_quoted_zeros_len();
}

/// The length of a line, part by part.
proof fn lemma_json_len(l: LineV, base: Seq<char>)
    requires
        base == audit::core_members(l.event) + audit::run_members(l.event),
    ensures
        text::utf8(audit::line_json(l)).len() == text::utf8(base).len() + text::utf8(
            ",\"hash\":"@,
        ).len() + text::utf8(json::json_quoted(l.hash)).len() + text::utf8(",\"mac\":"@).len()
            + text::utf8(audit::quoted_or_null(l.mac)).len() + text::utf8("}"@).len(),
{
    let a = base + ",\"hash\":"@;
    let b = a + json::json_quoted(l.hash);
    let c = b + ",\"mac\":"@;
    let d = c + audit::quoted_or_null(l.mac);
    text::lemma_utf8_concat(base, ",\"hash\":"@);
    text::lemma_utf8_concat(a, json::json_quoted(l.hash));
    text::lemma_utf8_concat(b, ",\"mac\":"@);
    text::lemma_utf8_concat(c, audit::quoted_or_null(l.mac));
    text::lemma_utf8_concat(d, "}"@);
}

/// A plain text is quoted as it is.
proof fn lemma_plain_quoted(s: Seq<char>)
    requires
        forall|i: int|
            0 <= i < s.len() ==> '0' <= (#[trigger] s[i]) <= 'f' && s[i] != '\\',
    ensures
        json::json_quoted(s) == seq!['"'] + s + seq!['"'],
        text::utf8(json::json_quoted(s)).len() == s.len() + 2,
{
    lemma_plain_escaped(s);
    let q = seq!['"'] + s + seq!['"'];
    assert(vstd::utf8::is_ascii_chars(q));
    vstd::utf8::is_ascii_chars_encode_utf8(q);
}

proof fn lemma_plain_escaped(s: Seq<char>)
    requires
        forall|i: int|
            0 <= i < s.len() ==> '0' <= (#[trigger] s[i]) <= 'f' && s[i] != '\\',
    ensures
        json::json_escaped_all(s) == s,
    decreases s.len(),
{
    if s.len() > 0 {
        lemma_plain_escaped(s.drop_last());
        assert(json::json_escaped(s.last()) =~= seq![s.last()]);
        assert(s.drop_last() + seq![s.last()] =~= s);
    } else {
        assert(s =~= Seq::<char>::empty());
    }
}

proof fn lemma_quoted_hex_len(h: Seq<u8>)
    requires
        h.len() == 32,
    ensures
        text::utf8(json::json_quoted(crypto::hex_text(h))).len() == 66,
{
    let t = crypto::hex_text(h);
    assert forall|i: int| 0 <= i < t.len() implies '0' <= (#[trigger] t[i]) <= 'f' && t[i]
        != '\\' by {
        let b = h[i / 2] as int;
        assert(0 <= b / 16 < 16 && 0 <= b % 16 < 16);
    }
    lemma_plain_quoted(t);
}

proof fn lemma_quoted_zeros_len()
    ensures
        text::utf8(json::json_quoted(log::zeros64())).len() == 66,
{
    reveal_strlit("0000000000000000000000000000000000000000000000000000000000000000");
    let z = log::zeros64();
    assert(z =~= crypto::hex_text(Seq::new(32, |i: int| 0u8)));
    lemma_quoted_hex_len(Seq::new(32, |i: int| 0u8));
}

/// A line is appended to the entries that the file really ends with: where the
/// file is in sequence and no shorter than the head, the head that an entry
/// chains from is the hash of the last line. A file of another writer is refused.
pub proof fn law_appends_follow_the_last_entry(log: LogV, all: Seq<Option<LineV>>)
    requires
        log::in_sequence(all),
        0 < log.seq <= all.len() || log.seq == 0 < all.len(),
        all.len() <= u64::MAX,
    ensures
        match log::resynced(log, Some(all)) {
            Ok(synced) => synced.seq == all.len() && chain::hash_of(all.last()->0.hash) == Ok::<
                Seq<u8>,
                Fault,
            >(synced.head),
            Err(f) => f == log::divergence() && log::diverges(log, all),
        },
{
    assert(all[all.len() - 1] is Some);
}

/// A staged entry is written at most once: after it was written, and whatever
/// the file is seen to hold then, writing it again is refused.
pub proof fn law_a_staged_entry_is_written_once(
    log: LogV,
    s: StagedV,
    lines: Option<Seq<Option<LineV>>>,
)
    requires
        log.seq < u64::MAX,
        lines matches Some(all) ==> all.len() <= u64::MAX,
        log::appended(log, s) is Ok,
    ensures
        ({
            let later = log::head_after(log::advanced(log, s.event), lines);
            &&& later.seq > log.seq
            &&& log::appended(later, s) == Err::<LineV, Fault>(
                Fault::Protocol("staged audit entry does not chain from the log head"@),
            )
        }),
        forall|later: LogV| later.seq > log.seq ==> #[trigger] log::appended(later, s) is Err,
{
}

/// A staged entry that was changed is never written, at whatever head: neither
/// one whose event was changed and whose hash was kept, unless SHA-256 gives both
/// events one digest, nor one whose hash was changed and whose event was kept.
pub proof fn law_a_changed_entry_is_not_written(
    log: LogV,
    s: StagedV,
    changed: StagedV,
    head: LogV,
)
    requires
        log::appended(log, s) is Ok,
        ({
            ||| changed.hash_hex == s.hash_hex && chain::chain_hash(head.head, changed.event)
                != chain::chain_hash(log.head, s.event)
            ||| changed.event == s.event && changed.hash_hex != s.hash_hex
        }),
    ensures
        log::appended(head, changed) is Err,
{
    if log::appended(head, changed) is Ok {
        if changed.event == s.event {
            assert(head.head == log.head);
        } else {
            let a = chain::chain_hash(head.head, changed.event);
            let b = chain::chain_hash(log.head, s.event);
            crypto::law_unhex_undoes_hex(a);
            crypto::law_unhex_undoes_hex(b);
            assert(a == b);
        }
    }
}

} // verus!
