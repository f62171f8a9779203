//! The hash chain of the audit log: what makes a list of lines a log.

use vstd::prelude::*;

use crate::audit::{self, AuditEvent, AuditLine, EventV, LineV, VerifyReport};
use crate::crypto::{self, SecretKey};
use crate::error::{Fault, VaultError};
use crate::text;

verus! {

/// The label that binds the MAC key to its purpose.
pub const AUDIT_INFO: &'static str = "svault/audit-mac/v1";

/// The bytes of the label.
pub open spec fn audit_label() -> Seq<u8> {
    text::utf8(AUDIT_INFO@)
}

/// The MAC key of a vault: a subkey of the master key under a fixed label.
pub fn derive_audit_key(mek: &SecretKey) -> (r: SecretKey)
    ensures
        r@ == crypto::hkdf_subkey(mek@, audit_label()),
{
    SecretKey::from_bytes(
        crypto::hkdf_sha256(mek.as_bytes(), AUDIT_INFO.as_bytes()),
    )
}

/// What the digest and the MAC of an entry cover.
pub open spec fn covered(prev: Seq<u8>, e: EventV) -> Seq<u8> {
    prev + audit::canonical_bytes(e)
}

/// The chain hash of an entry after `prev`.
pub open spec fn chain_hash(prev: Seq<u8>, e: EventV) -> Seq<u8> {
    crypto::sha256_digest(covered(prev, e))
}

/// The MAC of an entry after `prev`.
pub open spec fn chain_mac(key: Seq<u8>, prev: Seq<u8>, e: EventV) -> Seq<u8> {
    crypto::hmac_tag(key, covered(prev, e))
}

/// The hash before the first entry.
pub open spec fn genesis() -> Seq<u8> {
    Seq::new(32, |i: int| 0u8)
}

fn covered_bytes(prev: &[u8; 32], event: &AuditEvent) -> (r: Vec<u8>)
    ensures
        r@ == covered(prev@, event@),
{
    let mut data = vstd::slice::slice_to_vec(prev.as_slice());
    let body = audit::canonical(event);
    data.extend_from_slice(body.as_slice());
    proof {
        assert(data@ =~= covered(prev@, event@));
    }
    data
}

/// The chain hash of an entry.
pub fn entry_hash(prev_hash: &[u8; 32], event: &AuditEvent) -> (r: [u8; 32])
    ensures
        r@ == chain_hash(prev_hash@, event@),
{
    let data = covered_bytes(prev_hash, event);
    crypto::sha256(data.as_slice())
}

/// The MAC of an entry.
pub fn entry_mac(mac_key: &SecretKey, prev_hash: &[u8; 32], event: &AuditEvent) -> (r: [u8; 32])
    ensures
        r@ == chain_mac(mac_key@, prev_hash@, event@),
{
    let data = covered_bytes(prev_hash, event);
    crypto::hmac_sha256(mac_key.as_bytes(), data.as_slice())
}

/// The value of two hexadecimal digits.
pub open spec fn pair_value(hi: u8, lo: u8) -> Option<int> {
    match (crypto::digit_value(hi as int), crypto::digit_value(lo as int)) {
        (Some(a), Some(b)) => Some(16 * a + b),
        _ => None,
    }
}

/// Whether some bytes are the notation of a hash.
pub open spec fn hash_digits(b: Seq<u8>) -> bool {
    forall|i: int| 0 <= i < 32 ==> pair_value(#[trigger] b[2 * i], b[2 * i + 1]) is Some
}

/// The hash that a field of a line holds, or why it holds none.
pub open spec fn hash_of(s: Seq<char>) -> Result<Seq<u8>, Fault> {
    let b = text::utf8(s);
    if b.len() != 64 {
        Err(Fault::Corrupt("audit hex field length"@))
    } else if hash_digits(b) {
        Ok(Seq::new(32, |i: int| pair_value(b[2 * i], b[2 * i + 1])->0 as u8))
    } else {
        Err(Fault::Corrupt("audit hex field"@))
    }
}

fn pair_of(hi: u8, lo: u8) -> (r: Option<u8>)
    ensures
        match r {
            Some(v) => pair_value(hi, lo) == Some(v as int),
            None => pair_value(hi, lo) is None,
        },
{
    match (crypto::digit_of(hi), crypto::digit_of(lo)) {
        (Some(a), Some(b)) => Some(16 * a + b),
        _ => None,
    }
}

/// Reads a hash field. Anything that is not 64 bytes of hexadecimal notation
/// is a corruption of the log.
pub fn unhex(s: &str) -> (r: Result<[u8; 32], VaultError>)
    ensures
        match r {
            Ok(h) => hash_of(s@) == Ok::<Seq<u8>, Fault>(h@),
            Err(e) => hash_of(s@) == Err::<Seq<u8>, Fault>(e@),
        },
{
    let b = s.as_bytes();
    if b.len() != 64 {
        return Err(VaultError::Corrupt("audit hex field length".to_string()));
    }
    let mut out: [u8; 32] = [0u8; 32];
    let mut i: usize = 0;
    while i < 32
        invariant
            b@ == text::utf8(s@),
            b@.len() == 64,
            i <= 32,
            out@.len() == 32,
            forall|k: int|
                0 <= k < i ==> pair_value(#[trigger] b@[2 * k], b@[2 * k + 1]) == Some(
                    out@[k] as int,
                ),
        decreases 32 - i,
    {
        match pair_of(b[2 * i], b[2 * i + 1]) {
            Some(v) => {
                out[i] = v;
            },
            None => {
                assert(pair_value(b@[2 * i as int], b@[2 * i + 1]) is None);
                return Err(VaultError::Corrupt("audit hex field".to_string()));
            },
        }
        i = i + 1;
    }
    proof {
        assert forall|k: int| 0 <= k < 32 implies pair_value(
            #[trigger] b@[2 * k],
            b@[2 * k + 1],
        ) is Some by {}
        assert(hash_of(s@)->Ok_0 =~= out@);
    }
    Ok(out)
}

/// The decoded lines of a log.
pub open spec fn line_values(lines: Seq<Option<AuditLine>>) -> Seq<Option<LineV>> {
    Seq::new(
        lines.len(),
        |i: int|
            match lines[i] {
                Some(l) => Some(l@),
                None => None,
            },
    )
}

/// What is wrong with the line at position `seq`, counted from one, after
/// `prev`: the first check that fails.
pub open spec fn line_fault(
    prev: Seq<u8>,
    seq: int,
    line: Option<LineV>,
    key: Option<Seq<u8>>,
) -> Option<Fault> {
    match line {
        None => Some(Fault::Corrupt("audit line invalid"@)),
        Some(l) => if l.event.seq != seq {
            Some(Fault::Corrupt("audit seq out of order"@))
        } else {
            match hash_of(l.event.prev_hash) {
                Err(f) => Some(f),
                Ok(linked) => if linked != prev {
                    Some(Fault::Corrupt("audit chain linkage broken"@))
                } else {
                    match hash_of(l.hash) {
                        Err(f) => Some(f),
                        Ok(h) => if h != chain_hash(prev, l.event) {
                            Some(Fault::Corrupt("audit hash mismatch"@))
                        } else {
                            mac_fault(prev, l, key)
                        },
                    }
                },
            }
        },
    }
}

/// What is wrong with the MAC of a line: nothing where there is no MAC or no
/// key to check it with.
pub open spec fn mac_fault(prev: Seq<u8>, l: LineV, key: Option<Seq<u8>>) -> Option<Fault> {
    match (l.mac, key) {
        (Some(m), Some(k)) => match hash_of(m) {
            Err(f) => Some(f),
            Ok(tag) => if tag == chain_mac(k, prev, l.event) {
                None
            } else {
                Some(Fault::Corrupt("audit mac mismatch"@))
            },
        },
        _ => None,
    }
}

/// The outcome of a verification so far.
pub struct WalkV {
    pub entries: nat,
    pub macs_verified: nat,
    pub macs_null: nat,
    pub head: Seq<u8>,
}

/// The outcome of walking a log from its first line: counts and the head, or
/// the first fault.
pub open spec fn walked(lines: Seq<Option<LineV>>, key: Option<Seq<u8>>) -> Result<WalkV, Fault>
    decreases lines.len(),
{
    if lines.len() == 0 {
        Ok(WalkV { entries: 0, macs_verified: 0, macs_null: 0, head: genesis() })
    } else {
        match walked(lines.drop_last(), key) {
            Err(f) => Err(f),
            Ok(w) => match line_fault(w.head, lines.len() as int, lines.last(), key) {
                Some(f) => Err(f),
                None => Ok(stepped(w, lines.last()->0, key)),
            },
        }
    }
}

/// The outcome after one more sound line.
pub open spec fn stepped(w: WalkV, l: LineV, key: Option<Seq<u8>>) -> WalkV {
    let authenticated = l.mac is Some && key is Some;
    WalkV {
        entries: w.entries + 1,
        macs_verified: w.macs_verified + if authenticated {
            1nat
        } else {
            0
        },
        macs_null: w.macs_null + if authenticated {
            0nat
        } else {
            1
        },
        head: chain_hash(w.head, l.event),
    }
}

/// The bytes of an optional key.
pub open spec fn opt_key(k: Option<&SecretKey>) -> Option<Seq<u8>> {
    match k {
        Some(x) => Some(x@),
        None => None,
    }
}

/// A fault in a log is a fault in every extension of it.
proof fn lemma_walked_prefix(lines: Seq<Option<LineV>>, key: Option<Seq<u8>>, n: int)
    requires
        0 <= n <= lines.len(),
    ensures
        walked(lines.take(n), key) is Err ==> walked(lines, key) == walked(lines.take(n), key),
    decreases lines.len(),
{
    if n == lines.len() {
        assert(lines.take(n) =~= lines);
    } else {
        lemma_walked_prefix(lines.drop_last(), key, n);
        assert(lines.drop_last().take(n) =~= lines.take(n));
    }
}

fn mac_checked(
    prev: &[u8; 32],
    line: &AuditLine,
    mac_key: Option<&SecretKey>,
) -> (r: Result<bool, VaultError>)
    ensures
        match r {
            Ok(authenticated) => mac_fault(prev@, line@, opt_key(mac_key)) is None && authenticated
                == (line@.mac is Some && mac_key is Some),
            Err(e) => mac_fault(prev@, line@, opt_key(mac_key)) == Some(e@),
        },
{
    match (&line.mac, mac_key) {
        (Some(mac_hex), Some(key)) => {
            let tag = match unhex(mac_hex) {
                Ok(t) => t,
                Err(e) => {
                    return Err(e);
                },
            };
            let data = covered_bytes(prev, &line.event);
            if crypto::hmac_matches(key.as_bytes(), data.as_slice(), &tag) {
                Ok(true)
            } else {
                Err(VaultError::Corrupt("audit mac mismatch".to_string()))
            }
        },
        _ => Ok(false),
    }
}

/// Checks the line at position `seq` after `prev`; gives its chain hash and
/// whether its MAC was verified.
fn checked_line(
    prev: &[u8; 32],
    seq: u64,
    line: &Option<AuditLine>,
    mac_key: Option<&SecretKey>,
) -> (r: Result<([u8; 32], bool), VaultError>)
    ensures
        ({
            let value = match *line {
                Some(l) => Some(l@),
                None => None,
            };
            match r {
                Ok((h, authenticated)) => {
                    &&& line_fault(prev@, seq as int, value, opt_key(mac_key)) is None
                    &&& value matches Some(l) && h@ == chain_hash(prev@, l.event) && authenticated
                        == (l.mac is Some && mac_key is Some)
                },
                Err(e) => line_fault(prev@, seq as int, value, opt_key(mac_key)) == Some(e@),
            }
        }),
{
    let line = match line {
        Some(l) => l,
        None => {
            return Err(VaultError::Corrupt("audit line invalid".to_string()));
        },
    };
    if line.event.seq != seq {
        return Err(VaultError::Corrupt("audit seq out of order".to_string()));
    }
    let linked = match unhex(&line.event.prev_hash) {
        Ok(h) => h,
        Err(e) => {
            return Err(e);
        },
    };
    if !text::same_bytes(linked.as_slice(), prev.as_slice()) {
        return Err(VaultError::Corrupt("audit chain linkage broken".to_string()));
    }
    let stored = match unhex(&line.hash) {
        Ok(h) => h,
        Err(e) => {
            return Err(e);
        },
    };
    let computed = entry_hash(prev, &line.event);
    if !text::same_bytes(stored.as_slice(), computed.as_slice()) {
        return Err(VaultError::Corrupt("audit hash mismatch".to_string()));
    }
    match mac_checked(prev, line, mac_key) {
        Ok(authenticated) => Ok((computed, authenticated)),
        Err(e) => Err(e),
    }
}

/// Walks a log: continuity of the sequence, linkage and correctness of the
/// hashes and, with a key, every MAC that is there.
#[verifier::rlimit(60)]
#[verifier::spinoff_prover]
pub fn walk(lines: &[Option<AuditLine>], mac_key: Option<&SecretKey>) -> (r: Result<
    (VerifyReport, [u8; 32]),
    VaultError,
>)
    requires
        lines@.len() < u64::MAX,
    ensures
        match r {
            Ok((report, head)) => walked(line_values(lines@), opt_key(mac_key)) == Ok::<WalkV, Fault>(
                WalkV {
                    entries: report.entries as nat,
                    macs_verified: report.macs_verified as nat,
                    macs_null: report.macs_null as nat,
                    head: head@,
                },
            ),
            Err(e) => walked(line_values(lines@), opt_key(mac_key)) == Err::<WalkV, Fault>(e@),
        },
{
    let ghost all = line_values(lines@);
    let ghost key = opt_key(mac_key);
    let mut prev: [u8; 32] = [0u8; 32];
    let mut verified: usize = 0;
    let mut null: usize = 0;
    let mut i: usize = 0;
    proof {
        assert(prev@ =~= genesis());
        assert(all.take(0) =~= Seq::<Option<LineV>>::empty());
    }
    while i < lines.len()
        invariant
            i <= lines@.len(),
            lines@.len() < u64::MAX,
            all == line_values(lines@),
            key == opt_key(mac_key),
            verified + null == i,
            walked(all.take(i as int), key) == Ok::<WalkV, Fault>(
                WalkV {
                    entries: i as nat,
                    macs_verified: verified as nat,
                    macs_null: null as nat,
                    head: prev@,
                },
            ),
        decreases lines@.len() - i,
    {
        proof {
            assert(all.take(i + 1).drop_last() =~= all.take(i as int));
            assert(all.take(i + 1).last() == all[i as int]);
        }
        match checked_line(&prev, i as u64 + 1, &lines[i], mac_key) {
            Ok((h, authenticated)) => {
                prev = h;
                if authenticated {
                    verified = verified + 1;
                } else {
                    null = null + 1;
                }
            },
            Err(e) => {
                proof {
                    lemma_walked_prefix(all, key, i + 1);
                }
                return Err(e);
            },
        }
        i = i + 1;
    }
    proof {
        assert(all.take(i as int) =~= all);
    }
    Ok((VerifyReport { entries: i, macs_verified: verified, macs_null: null }, prev))
}

/// Whether the log has reached the checkpoint of a vault: the outcome of
/// looking for entry `head_seq` from the entry after `done` on, where `prev` is
/// the recomputed hash so far.
pub open spec fn checkpoint(
    lines: Seq<Option<LineV>>,
    done: nat,
    prev: Seq<u8>,
    head_seq: u64,
    head_hash: Seq<char>,
) -> Result<(), Fault>
    decreases lines.len() - done,
{
    if done >= lines.len() {
        Err(
            Fault::Corrupt(
                "audit log is behind the vault checkpoint: the event for the last vault change is missing"@,
            ),
        )
    } else {
        match lines[done as int] {
            None => Err(Fault::Corrupt("audit line invalid"@)),
            Some(l) => if l.event.seq != done + 1 {
                Err(Fault::Corrupt("audit seq out of order"@))
            } else if done + 1 == head_seq {
                match hash_of(l.hash) {
                    Err(f) => Err(f),
                    Ok(h) => if h != chain_hash(prev, l.event) || l.hash != head_hash {
                        Err(Fault::Corrupt("audit log diverges from the vault checkpoint"@))
                    } else {
                        Ok(())
                    },
                }
            } else {
                checkpoint(lines, done + 1, chain_hash(prev, l.event), head_seq, head_hash)
            },
        }
    }
}

/// Checks that the log has reached entry `head_seq` and that this entry has
/// the hash `head_hash`. Later entries are legitimate and not looked at.
pub fn check_checkpoint(lines: &[Option<AuditLine>], head_seq: u64, head_hash: &str) -> (r: Result<
    (),
    VaultError,
>)
    requires
        lines@.len() < u64::MAX,
    ensures
        match r {
            Ok(_) => checkpoint(line_values(lines@), 0, genesis(), head_seq, head_hash@) == Ok::<
                (),
                Fault,
            >(()),
            Err(e) => checkpoint(line_values(lines@), 0, genesis(), head_seq, head_hash@) == Err::<
                (),
                Fault,
            >(e@),
        },
{
    let ghost all = line_values(lines@);
    let mut prev: [u8; 32] = [0u8; 32];
    proof {
        assert(prev@ =~= genesis());
    }
    let mut i: usize = 0;
    while i < lines.len()
        invariant
            i <= lines@.len(),
            lines@.len() < u64::MAX,
            all == line_values(lines@),
            checkpoint(all, 0, genesis(), head_seq, head_hash@) == checkpoint(
                all,
                i as nat,
                prev@,
                head_seq,
                head_hash@,
            ),
        decreases lines@.len() - i,
    {
        let line = match &lines[i] {
            Some(l) => l,
            None => {
                return Err(VaultError::Corrupt("audit line invalid".to_string()));
            },
        };
        let seq: u64 = i as u64 + 1;
        if line.event.seq != seq {
            return Err(VaultError::Corrupt("audit seq out of order".to_string()));
        }
        let computed = entry_hash(&prev, &line.event);
        if seq == head_seq {
            let stored = match unhex(&line.hash) {
                Ok(h) => h,
                Err(e) => {
                    return Err(e);
                },
            };
            if !text::same_bytes(stored.as_slice(), computed.as_slice()) || !text::same(
                &line.hash,
                head_hash,
            ) {
                return Err(
                    VaultError::Corrupt("audit log diverges from the vault checkpoint".to_string()),
                );
            }
            return Ok(());
        }
        prev = computed;
        i = i + 1;
    }
    Err(
        VaultError::Corrupt(
            "audit log is behind the vault checkpoint: the event for the last vault change is missing".to_string(),
        ),
    )
}

/// The counts of a walk add up to the number of lines.
pub proof fn lemma_walked_counts(lines: Seq<Option<LineV>>, key: Option<Seq<u8>>)
    ensures
        walked(lines, key) matches Ok(w) ==> w.entries == lines.len() && w.macs_verified
            + w.macs_null == w.entries,
    decreases lines.len(),
{
    if lines.len() > 0 {
        lemma_walked_counts(lines.drop_last(), key);
    }
}

/// Reading the notation of a hash gives the hash.
pub proof fn lemma_hash_reads_back(h: Seq<u8>)
    requires
        h.len() == 32,
    ensures
        hash_of(crypto::hex_text(h)) == Ok::<Seq<u8>, Fault>(h),
{
    crypto::law_unhex_undoes_hex(h);
    let b = text::utf8(crypto::hex_text(h));
    crypto::lemma_hex_bytes(h);
    assert forall|i: int| 0 <= i < 32 implies pair_value(#[trigger] b[2 * i], b[2 * i + 1]) == Some(
        h[i] as int,
    ) by {
        assert(crypto::digit_value(b[2 * i] as int) == Some(h[i] as int / 16));
        assert(crypto::digit_value(b[2 * i + 1] as int) == Some(h[i] as int % 16));
    }
    assert(hash_of(crypto::hex_text(h))->Ok_0 =~= h);
}

} // verus!
