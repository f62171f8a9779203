//! The head of an audit log: what the next entry is, whether it fits, and
//! whether a staged entry still chains from the head.
//!
//! The file is the caller's: the log is handed the decoded lines and the
//! length of the file, and hands back the line to write. A caller that has
//! written a line tells the log with [`AuditLog::advance`].

use vstd::prelude::*;

use crate::audit::chain;
use crate::audit::{
    self, AuditEvent, AuditLine, EventV, LineV, Priority, Record, RunRecord, VerifyReport,
    AUDIT_SOFT_LIMIT, MAX_AUDIT_LEN,
};
use crate::crypto::{self, SecretKey};
use crate::error::{Fault, VaultError};
use crate::json;
use crate::text;

verus! {

/// The head of a log and the ceilings in force for it.
pub struct AuditLog {
    seq: u64,
    last_hash: [u8; 32],
    soft: u64,
    hard: u64,
}

/// The mathematical value of an [`AuditLog`].
pub struct LogV {
    pub seq: u64,
    pub head: Seq<u8>,
    pub soft: u64,
    pub hard: u64,
}

impl View for AuditLog {
    type V = LogV;

    closed spec fn view(&self) -> LogV {
        LogV { seq: self.seq, head: self.last_hash@, soft: self.soft, hard: self.hard }
    }
}

/// An entry that was built on a head but not yet written.
pub struct StagedEntry {
    pub event: AuditEvent,
    pub hash_hex: String,
    pub mac_hex: Option<String>,
}

/// The mathematical value of a [`StagedEntry`].
pub struct StagedV {
    pub event: EventV,
    pub hash_hex: Seq<char>,
    pub mac_hex: Option<Seq<char>>,
}

impl View for StagedEntry {
    type V = StagedV;

    open spec fn view(&self) -> StagedV {
        StagedV {
            event: self.event@,
            hash_hex: self.hash_hex@,
            mac_hex: json::opt_text(self.mac_hex),
        }
    }
}

impl StagedEntry {
    /// Attaches the MAC after staging, for a key that became available since.
    pub fn mac_with(&mut self, key: &SecretKey)
        requires
            chain::hash_of(old(self)@.event.prev_hash) is Ok,
        ensures
            final(self)@ == (StagedV {
                mac_hex: Some(
                    crypto::hex_text(
                        chain::chain_mac(
                            key@,
                            chain::hash_of(old(self)@.event.prev_hash)->Ok_0,
                            old(self)@.event,
                        ),
                    ),
                ),
                ..old(self)@
            }),
    {
        match chain::unhex(&self.event.prev_hash) {
            Ok(prev) => {
                let tag = chain::entry_mac(key, &prev, &self.event);
                self.mac_hex = Some(crypto::hex(tag.as_slice()));
            },
            Err(_) => {},
        }
    }
}

/// The event of a record after the head `log`.
pub open spec fn record_event(log: LogV, record: Record, ts: Seq<char>) -> EventV {
    EventV {
        ts,
        seq: (log.seq + 1) as u64,
        prev_hash: crypto::hex_text(log.head),
        actor: record.actor@,
        op: record.op@,
        project: json::opt_str(record.project),
        keys: text::texts(record.keys@),
        target: json::opt_str(record.target),
        decision: record.decision,
        reason: json::opt_str(record.reason),
        run_id: None,
        executable: None,
        arg_count: None,
        cwd: None,
        result: None,
        exit_code: None,
        signal: None,
    }
}

/// The event of a run record after the head `log`. The operation is fixed.
pub open spec fn run_event(log: LogV, record: RunRecord, ts: Seq<char>) -> EventV {
    EventV {
        ts,
        seq: (log.seq + 1) as u64,
        prev_hash: crypto::hex_text(log.head),
        actor: record.actor@,
        op: "run_with_secrets"@,
        project: json::opt_str(record.project),
        keys: text::texts(record.keys@),
        target: None,
        decision: record.decision,
        reason: json::opt_str(record.reason),
        run_id: json::opt_str(record.run_id),
        executable: json::opt_str(record.executable),
        arg_count: record.arg_count,
        cwd: json::opt_str(record.cwd),
        result: json::opt_str(record.result),
        exit_code: record.exit_code,
        signal: json::opt_str(record.signal),
    }
}

/// Sixty-four zeros, which stand for a hash or a MAC of the same length.
pub open spec fn zeros64() -> Seq<char> {
    "0000000000000000000000000000000000000000000000000000000000000000"@
}

/// The longest line that an event can become.
pub open spec fn widest_line(e: EventV) -> LineV {
    LineV { event: e, hash: zeros64(), mac: Some(zeros64()) }
}

/// The length of the file after the longest line of an event, with its line
/// feed.
pub open spec fn projected_len(file_len: u64, e: EventV) -> int {
    file_len + text::utf8(audit::line_json(widest_line(e))).len() + 1
}

/// The ceiling for a priority.
pub open spec fn ceiling(log: LogV, priority: Priority) -> u64 {
    match priority {
        Priority::Ordinary => log.soft,
        Priority::Lifecycle => log.hard,
    }
}

/// The refusal of an entry that does not fit.
pub open spec fn full_fault(priority: Priority) -> Fault {
    match priority {
        Priority::Ordinary => Fault::AuditFull("refused before any change; rotation is post-MVP"@),
        Priority::Lifecycle => Fault::AuditWrite("audit log reached its hard ceiling"@),
    }
}

/// An event staged after the head `log`.
pub open spec fn staged_event(log: LogV, e: EventV, key: Option<Seq<u8>>) -> StagedV {
    StagedV {
        event: e,
        hash_hex: crypto::hex_text(chain::chain_hash(log.head, e)),
        mac_hex: match key {
            Some(k) => Some(crypto::hex_text(chain::chain_mac(k, log.head, e))),
            None => None,
        },
    }
}

/// The entry for an event, or the refusal when it does not fit.
pub open spec fn staged(
    log: LogV,
    e: EventV,
    key: Option<Seq<u8>>,
    priority: Priority,
    file_len: u64,
) -> Result<StagedV, Fault> {
    if projected_len(file_len, e) > ceiling(log, priority) {
        Err(full_fault(priority))
    } else {
        Ok(staged_event(log, e, key))
    }
}

/// The decoded lines of a log, if it could be read.
pub open spec fn opt_lines(lines: Option<&[Option<AuditLine>]>) -> Option<Seq<Option<LineV>>> {
    match lines {
        Some(l) => Some(chain::line_values(l@)),
        None => None,
    }
}

/// Whether every line is an entry in sequence with a readable hash.
pub open spec fn in_sequence(lines: Seq<Option<LineV>>) -> bool {
    forall|i: int|
        0 <= i < lines.len() ==> (#[trigger] lines[i] matches Some(l) && l.event.seq == i + 1
            && chain::hash_of(l.hash) is Ok)
}

/// Whether another writer has put other entries in the place of ours: the file
/// has as many as the head, and its last one is not the head.
pub open spec fn diverges(log: LogV, all: Seq<Option<LineV>>) -> bool {
    in_sequence(all) && all.len() == log.seq && log.seq > 0 && chain::hash_of(all.last()->0.hash)
        != Ok::<Seq<u8>, Fault>(log.head)
}

/// The refusal to append to a file of another writer.
pub open spec fn divergence() -> Fault {
    Fault::Corrupt("audit log diverged from its cached head"@)
}

/// The head after another look at the file: it moves forward to the last line
/// where the file has grown, and stays where the file is unreadable, out of
/// sequence or shorter. A file whose last entry is not the head is refused.
pub open spec fn resynced(log: LogV, lines: Option<Seq<Option<LineV>>>) -> Result<LogV, Fault> {
    match lines {
        Some(all) => if in_sequence(all) && all.len() > log.seq {
            Ok(
                LogV {
                    seq: all.len() as u64,
                    head: chain::hash_of(all.last()->0.hash)->Ok_0,
                    ..log
                },
            )
        } else if diverges(log, all) {
            Err(divergence())
        } else {
            Ok(log)
        },
        None => Ok(log),
    }
}

/// The head that is left by another look: the old one where it was refused.
pub open spec fn head_after(log: LogV, lines: Option<Seq<Option<LineV>>>) -> LogV {
    match resynced(log, lines) {
        Ok(synced) => synced,
        Err(_) => log,
    }
}

/// The line of a staged entry.
pub open spec fn staged_line(s: StagedV) -> LineV {
    LineV { event: s.event, hash: s.hash_hex, mac: s.mac_hex }
}

/// What comes of writing a staged entry at the head `log`.
pub open spec fn appended(log: LogV, s: StagedV) -> Result<LineV, Fault> {
    if s.event.seq != log.seq + 1 {
        Err(Fault::Protocol("staged audit entry does not chain from the log head"@))
    } else {
        match chain::hash_of(s.event.prev_hash) {
            Err(f) => Err(f),
            Ok(linked) => if linked != log.head {
                Err(Fault::Protocol("staged audit entry does not chain from the log head"@))
            } else if crypto::hex_text(chain::chain_hash(log.head, s.event)) != s.hash_hex {
                Err(Fault::Protocol("staged audit hash mismatch"@))
            } else {
                Ok(staged_line(s))
            },
        }
    }
}

/// The head after one more written event.
pub open spec fn advanced(log: LogV, e: EventV) -> LogV {
    LogV { seq: (log.seq + 1) as u64, head: chain::chain_hash(log.head, e), ..log }
}

fn owned(t: Option<&str>) -> (r: Option<String>)
    ensures
        json::opt_text(r) == json::opt_str(t),
{
    match t {
        Some(s) => Some(s.to_string()),
        None => None,
    }
}

impl AuditLog {
    /// Opens a log on its decoded lines and validates its structure. An empty
    /// file is an empty log.
    pub fn load_or_init(lines: &[Option<AuditLine>]) -> (r: Result<AuditLog, VaultError>)
        requires
            lines@.len() < u64::MAX,
        ensures
            match r {
                Ok(log) => {
                    &&& chain::walked(chain::line_values(lines@), None) matches Ok(w) && log@ == (
                    LogV {
                        seq: lines@.len() as u64,
                        head: w.head,
                        soft: AUDIT_SOFT_LIMIT,
                        hard: MAX_AUDIT_LEN,
                    })
                },
                Err(e) => chain::walked(chain::line_values(lines@), None) == Err::<
                    chain::WalkV,
                    Fault,
                >(e@),
            },
    {
        match chain::walk(lines, None) {
            Ok((report, last_hash)) => {
                proof {
                    chain::lemma_walked_counts(chain::line_values(lines@), None);
                }
                Ok(
                    AuditLog {
                        seq: report.entries as u64,
                        last_hash,
                        soft: AUDIT_SOFT_LIMIT,
                        hard: MAX_AUDIT_LEN,
                    },
                )
            },
            Err(e) => Err(e),
        }
    }

    /// How many entries the log has.
    pub fn seq(&self) -> (r: u64)
        ensures
            r == self@.seq,
    {
        self.seq
    }

    /// Replaces both ceilings.
    pub fn set_limits_for_test(&mut self, soft: u64, hard: u64)
        ensures
            final(self)@ == (LogV { soft, hard, ..old(self)@ }),
    {
        self.soft = soft;
        self.hard = hard;
    }

    fn copy(&self) -> (r: AuditLog)
        ensures
            r@ == self@,
    {
        AuditLog { seq: self.seq, last_hash: self.last_hash, soft: self.soft, hard: self.hard }
    }

    /// Looks at the file again and moves the head forward if it has grown. A
    /// file whose last entry does not match the head is refused.
    pub fn resync(&mut self, lines: Option<&[Option<AuditLine>]>) -> (r: Result<(), VaultError>)
        requires
            lines matches Some(l) ==> l@.len() < u64::MAX,
        ensures
            final(self)@ == head_after(old(self)@, opt_lines(lines)),
            match r {
                Ok(_) => resynced(old(self)@, opt_lines(lines)) is Ok,
                Err(e) => resynced(old(self)@, opt_lines(lines)) == Err::<LogV, Fault>(e@),
            },
    {
        let file = match lines {
            Some(l) => l,
            None => {
                return Ok(());
            },
        };
        let ghost all = chain::line_values(file@);
        let mut prev: [u8; 32] = [0u8; 32];
        let mut i: usize = 0;
        while i < file.len()
            invariant
                i <= file@.len(),
                file@.len() < u64::MAX,
                all == chain::line_values(file@),
                self@ == old(self)@,
                opt_lines(lines) == Some(all),
                in_sequence(all.take(i as int)),
                i > 0 ==> chain::hash_of(all[i - 1]->0.hash) == Ok::<Seq<u8>, Fault>(prev@),
            decreases file@.len() - i,
        {
            let line = match &file[i] {
                Some(l) => l,
                None => {
                    assert(!(all[i as int] is Some));
                    return Ok(());
                },
            };
            if line.event.seq != i as u64 + 1 {
                assert(all[i as int]->0.event.seq != i + 1);
                return Ok(());
            }
            match chain::unhex(&line.hash) {
                Ok(h) => {
                    prev = h;
                },
                Err(_) => {
                    assert(!(chain::hash_of(all[i as int]->0.hash) is Ok));
                    return Ok(());
                },
            }
            proof {
                let a = all.take(i as int);
                let b = all.take(i + 1);
                assert forall|k: int| 0 <= k < b.len() implies (#[trigger] b[k] matches Some(l)
                    && l.event.seq == k + 1 && chain::hash_of(l.hash) is Ok) by {
                    if k < i {
                        assert(a[k] == b[k]);
                    } else {
                        assert(b[k] == all[i as int]);
                    }
                }
            }
            i = i + 1;
        }
        proof {
            assert(all.take(i as int) =~= all);
        }
        if file.len() as u64 > self.seq {
            self.seq = file.len() as u64;
            self.last_hash = prev;
        } else if file.len() as u64 == self.seq && self.seq > 0 && !text::same_bytes(
            prev.as_slice(),
            self.last_hash.as_slice(),
        ) {
            return Err(
                VaultError::Corrupt("audit log diverged from its cached head".to_string()),
            );
        }
        Ok(())
    }

    /// Refuses an entry that would not fit, before it is written. The length
    /// that counts is the one after the entry, so no ceiling is overshot.
    fn preflight(&self, event: &AuditEvent, priority: Priority, file_len: u64) -> (r: Result<
        (),
        VaultError,
    >)
        ensures
            match r {
                Ok(_) => projected_len(file_len, event@) <= ceiling(self@, priority),
                Err(e) => projected_len(file_len, event@) > ceiling(self@, priority) && e@
                    == full_fault(priority),
            },
    {
        let zeros = "0000000000000000000000000000000000000000000000000000000000000000";
        let probe = AuditLine {
            event: event.duplicate(),
            hash: zeros.to_string(),
            mac: Some(zeros.to_string()),
        };
        let line = probe.to_json_text();
        let size: u64 = line.as_str().as_bytes().len() as u64;
        let limit: u64 = match priority {
            Priority::Ordinary => self.soft,
            Priority::Lifecycle => self.hard,
        };
        let fits = match file_len.checked_add(size) {
            Some(total) => total < limit,
            None => false,
        };
        if fits {
            Ok(())
        } else {
            match priority {
                Priority::Ordinary => Err(
                    VaultError::AuditFull("refused before any change; rotation is post-MVP"),
                ),
                Priority::Lifecycle => Err(
                    VaultError::AuditWrite("audit log reached its hard ceiling".to_string()),
                ),
            }
        }
    }

    fn stage_event(
        &self,
        event: AuditEvent,
        mac_key: Option<&SecretKey>,
        priority: Priority,
        file_len: u64,
    ) -> (r: Result<StagedEntry, VaultError>)
        ensures
            match r {
                Ok(s) => staged(self@, event@, chain::opt_key(mac_key), priority, file_len) == Ok::<
                    StagedV,
                    Fault,
                >(s@),
                Err(e) => staged(self@, event@, chain::opt_key(mac_key), priority, file_len)
                    == Err::<StagedV, Fault>(e@),
            },
    {
        match self.preflight(&event, priority, file_len) {
            Ok(_) => {},
            Err(e) => {
                return Err(e);
            },
        }
        let hash = chain::entry_hash(&self.last_hash, &event);
        let mac_hex = match mac_key {
            Some(k) => {
                let tag = chain::entry_mac(k, &self.last_hash, &event);
                Some(crypto::hex(tag.as_slice()))
            },
            None => None,
        };
        Ok(StagedEntry { event, hash_hex: crypto::hex(hash.as_slice()), mac_hex })
    }

    /// Builds the next entry without touching the log, or refuses it.
    pub fn stage(
        &self,
        lines: Option<&[Option<AuditLine>]>,
        file_len: u64,
        record: Record,
        mac_key: Option<&SecretKey>,
        priority: Priority,
        ts: &str,
    ) -> (r: Result<StagedEntry, VaultError>)
        requires
            self@.seq < u64::MAX,
            lines matches Some(l) ==> l@.len() < u64::MAX,
        ensures
            match resynced(self@, opt_lines(lines)) {
                Err(f) => r matches Err(e) && e@ == f,
                Ok(log) => {
                    let expected = staged(
                        log,
                        record_event(log, record, ts@),
                        chain::opt_key(mac_key),
                        priority,
                        file_len,
                    );
                    match r {
                        Ok(s) => expected == Ok::<StagedV, Fault>(s@),
                        Err(e) => expected == Err::<StagedV, Fault>(e@),
                    }
                },
            },
    {
        let mut synced = self.copy();
        match synced.resync(lines) {
            Ok(_) => {},
            Err(e) => {
                return Err(e);
            },
        }
        let event = AuditEvent {
            ts: ts.to_string(),
            seq: synced.seq + 1,
            prev_hash: crypto::hex(synced.last_hash.as_slice()),
            actor: record.actor.to_string(),
            op: record.op.to_string(),
            project: owned(record.project),
            keys: audit::copy_texts(record.keys),
            target: owned(record.target),
            decision: record.decision,
            reason: owned(record.reason),
            run_id: None,
            executable: None,
            arg_count: None,
            cwd: None,
            result: None,
            exit_code: None,
            signal: None,
        };
        synced.stage_event(event, mac_key, priority, file_len)
    }

    /// Builds the next `run_with_secrets` entry without touching the log, or
    /// refuses it.
    pub fn stage_run(
        &self,
        lines: Option<&[Option<AuditLine>]>,
        file_len: u64,
        record: RunRecord,
        mac_key: Option<&SecretKey>,
        priority: Priority,
        ts: &str,
    ) -> (r: Result<StagedEntry, VaultError>)
        requires
            self@.seq < u64::MAX,
            lines matches Some(l) ==> l@.len() < u64::MAX,
        ensures
            match resynced(self@, opt_lines(lines)) {
                Err(f) => r matches Err(e) && e@ == f,
                Ok(log) => {
                    let expected = staged(
                        log,
                        run_event(log, record, ts@),
                        chain::opt_key(mac_key),
                        priority,
                        file_len,
                    );
                    match r {
                        Ok(s) => expected == Ok::<StagedV, Fault>(s@),
                        Err(e) => expected == Err::<StagedV, Fault>(e@),
                    }
                },
            },
    {
        let mut synced = self.copy();
        match synced.resync(lines) {
            Ok(_) => {},
            Err(e) => {
                return Err(e);
            },
        }
        let event = AuditEvent {
            ts: ts.to_string(),
            seq: synced.seq + 1,
            prev_hash: crypto::hex(synced.last_hash.as_slice()),
            actor: record.actor.to_string(),
            op: "run_with_secrets".to_string(),
            project: owned(record.project),
            keys: audit::copy_texts(record.keys),
            target: None,
            decision: record.decision,
            reason: owned(record.reason),
            run_id: owned(record.run_id),
            executable: owned(record.executable),
            arg_count: record.arg_count,
            cwd: owned(record.cwd),
            result: owned(record.result),
            exit_code: record.exit_code,
            signal: owned(record.signal),
        };
        synced.stage_event(event, mac_key, priority, file_len)
    }

    /// Checks that a staged entry chains from the current head, which the file
    /// still ends with, and gives the line to write. The head moves with [`AuditLog::advance`].
    pub fn append_staged(
        &mut self,
        lines: Option<&[Option<AuditLine>]>,
        entry: &StagedEntry,
    ) -> (r: Result<AuditLine, VaultError>)
        requires
            old(self)@.seq < u64::MAX,
            lines matches Some(l) ==> l@.len() < u64::MAX,
        ensures
            final(self)@ == head_after(old(self)@, opt_lines(lines)),
            match resynced(old(self)@, opt_lines(lines)) {
                Err(f) => r matches Err(e) && e@ == f,
                Ok(log) => match r {
                    Ok(l) => appended(log, entry@) == Ok::<LineV, Fault>(l@),
                    Err(e) => appended(log, entry@) == Err::<LineV, Fault>(e@),
                },
            },
    {
        match self.resync(lines) {
            Ok(_) => {},
            Err(e) => {
                return Err(e);
            },
        }
        if entry.event.seq != self.seq + 1 {
            return Err(
                VaultError::Protocol(
                    "staged audit entry does not chain from the log head".to_string(),
                ),
            );
        }
        let linked = match chain::unhex(&entry.event.prev_hash) {
            Ok(h) => h,
            Err(e) => {
                return Err(e);
            },
        };
        if !text::same_bytes(linked.as_slice(), self.last_hash.as_slice()) {
            return Err(
                VaultError::Protocol(
                    "staged audit entry does not chain from the log head".to_string(),
                ),
            );
        }
        let recomputed = chain::entry_hash(&self.last_hash, &entry.event);
        if !text::same(&crypto::hex(recomputed.as_slice()), &entry.hash_hex) {
            return Err(VaultError::Protocol("staged audit hash mismatch".to_string()));
        }
        Ok(
            AuditLine {
                event: entry.event.duplicate(),
                hash: entry.hash_hex.clone(),
                mac: match &entry.mac_hex {
                    Some(m) => Some(m.clone()),
                    None => None,
                },
            },
        )
    }

    /// Moves the head past an event that was written.
    pub fn advance(&mut self, event: &AuditEvent)
        requires
            old(self)@.seq < u64::MAX,
        ensures
            final(self)@ == advanced(old(self)@, event@),
    {
        self.last_hash = chain::entry_hash(&self.last_hash, event);
        self.seq = self.seq + 1;
    }

    /// Builds a record's entry now and gives the line to write.
    pub fn append(
        &mut self,
        lines: Option<&[Option<AuditLine>]>,
        file_len: u64,
        record: Record,
        mac_key: Option<&SecretKey>,
        priority: Priority,
        ts: &str,
    ) -> (r: Result<AuditLine, VaultError>)
        requires
            old(self)@.seq < u64::MAX,
            lines matches Some(l) ==> l@.len() < u64::MAX,
        ensures
            match resynced(old(self)@, opt_lines(lines)) {
                Err(f) => (r matches Err(e) && e@ == f) && final(self)@ == old(self)@,
                Ok(log) => {
                    let expected = staged(
                        log,
                        record_event(log, record, ts@),
                        chain::opt_key(mac_key),
                        priority,
                        file_len,
                    );
                    match r {
                        Ok(l) => final(self)@ == log
                            && (expected matches Ok(s) && l@ == staged_line(s)),
                        Err(e) => expected == Err::<StagedV, Fault>(e@) && final(self)@
                            == old(self)@,
                    }
                },
            },
    {
        match self.stage(lines, file_len, record, mac_key, priority, ts) {
            Ok(entry) => {
                proof {
                    let log = head_after(self@, opt_lines(lines));
                    lemma_resync_settles(self@, opt_lines(lines));
                    lemma_staged_appends(log, entry@.event, chain::opt_key(mac_key));
                }
                self.append_staged(lines, &entry)
            },
            Err(e) => Err(e),
        }
    }

    /// Builds a run record's entry now and gives the line to write.
    pub fn append_run(
        &mut self,
        lines: Option<&[Option<AuditLine>]>,
        file_len: u64,
        record: RunRecord,
        mac_key: Option<&SecretKey>,
        priority: Priority,
        ts: &str,
    ) -> (r: Result<AuditLine, VaultError>)
        requires
            old(self)@.seq < u64::MAX,
            lines matches Some(l) ==> l@.len() < u64::MAX,
        ensures
            match resynced(old(self)@, opt_lines(lines)) {
                Err(f) => (r matches Err(e) && e@ == f) && final(self)@ == old(self)@,
                Ok(log) => {
                    let expected = staged(
                        log,
                        run_event(log, record, ts@),
                        chain::opt_key(mac_key),
                        priority,
                        file_len,
                    );
                    match r {
                        Ok(l) => final(self)@ == log
                            && (expected matches Ok(s) && l@ == staged_line(s)),
                        Err(e) => expected == Err::<StagedV, Fault>(e@) && final(self)@
                            == old(self)@,
                    }
                },
            },
    {
        match self.stage_run(lines, file_len, record, mac_key, priority, ts) {
            Ok(entry) => {
                proof {
                    let log = head_after(self@, opt_lines(lines));
                    lemma_resync_settles(self@, opt_lines(lines));
                    lemma_staged_appends(log, entry@.event, chain::opt_key(mac_key));
                }
                self.append_staged(lines, &entry)
            },
            Err(e) => Err(e),
        }
    }

    /// Verifies a log: the chain of every entry and, with a key, every MAC.
    pub fn verify(lines: &[Option<AuditLine>], mac_key: Option<&SecretKey>) -> (r: Result<
        VerifyReport,
        VaultError,
    >)
        requires
            lines@.len() < u64::MAX,
        ensures
            match r {
                Ok(report) => {
                    &&& chain::walked(
                        chain::line_values(lines@),
                        chain::opt_key(mac_key),
                    ) matches Ok(w)
                        && w.entries == report.entries && w.macs_verified == report.macs_verified
                        && w.macs_null == report.macs_null
                },
                Err(e) => chain::walked(chain::line_values(lines@), chain::opt_key(mac_key))
                    == Err::<chain::WalkV, Fault>(e@),
            },
    {
        match chain::walk(lines, mac_key) {
            Ok((report, _)) => Ok(report),
            Err(e) => Err(e),
        }
    }

    /// All lines, in order; a line that is no entry is a corruption.
    pub fn read_all(lines: &[Option<AuditLine>]) -> (r: Result<Vec<AuditLine>, VaultError>)
        ensures
            match r {
                Ok(v) => {
                    &&& v@.len() == lines@.len()
                    &&& forall|i: int|
                        0 <= i < v@.len() ==> chain::line_values(lines@)[i] == Some(
                            (#[trigger] v@[i])@,
                        )
                },
                Err(e) => {
                    &&& e@ == Fault::Corrupt("audit line invalid"@)
                    &&& exists|i: int| 0 <= i < lines@.len() && (#[trigger] lines@[i]) is None
                },
            },
    {
        AuditLog::tail(lines, lines.len())
    }

    /// The last `n` lines, in order.
    pub fn tail(lines: &[Option<AuditLine>], n: usize) -> (r: Result<Vec<AuditLine>, VaultError>)
        ensures
            match r {
                Ok(v) => {
                    let kept = if n < lines@.len() {
                        n as int
                    } else {
                        lines@.len() as int
                    };
                    &&& forall|i: int| 0 <= i < lines@.len() ==> (#[trigger] lines@[i]) is Some
                    &&& v@.len() == kept
                    &&& forall|i: int|
                        0 <= i < v@.len() ==> chain::line_values(lines@)[lines@.len() - kept + i]
                            == Some((#[trigger] v@[i])@)
                },
                Err(e) => {
                    &&& e@ == Fault::Corrupt("audit line invalid"@)
                    &&& exists|i: int| 0 <= i < lines@.len() && (#[trigger] lines@[i]) is None
                },
            },
    {
        let start: usize = if n < lines.len() {
            lines.len() - n
        } else {
            0
        };
        let mut out: Vec<AuditLine> = Vec::new();
        let mut i: usize = 0;
        while i < lines.len()
            invariant
                i <= lines@.len(),
                start <= lines@.len(),
                out@.len() == (if i > start {
                    i - start
                } else {
                    0
                }),
                forall|k: int| 0 <= k < i ==> (#[trigger] lines@[k]) is Some,
                forall|k: int|
                    0 <= k < out@.len() ==> chain::line_values(lines@)[start + k] == Some(
                        (#[trigger] out@[k])@,
                    ),
            decreases lines@.len() - i,
        {
            match &lines[i] {
                Some(l) => {
                    if i >= start {
                        out.push(l.duplicate());
                    }
                },
                None => {
                    assert(lines@[i as int] is None);
                    return Err(VaultError::Corrupt("audit line invalid".to_string()));
                },
            }
            i = i + 1;
        }
        Ok(out)
    }
}

/// A second look at the same file changes nothing.
pub proof fn lemma_resync_settles(log: LogV, lines: Option<Seq<Option<LineV>>>)
    ensures
        resynced(log, lines) matches Ok(synced) ==> resynced(synced, lines) == Ok::<LogV, Fault>(
            synced,
        ),
{
}

/// An entry staged on a head is written at that head.
pub proof fn lemma_staged_appends(log: LogV, e: EventV, key: Option<Seq<u8>>)
    requires
        log.seq < u64::MAX,
        e.seq == log.seq + 1,
        e.prev_hash == crypto::hex_text(log.head),
        log.head.len() == 32,
    ensures
        appended(log, staged_event(log, e, key)) == Ok::<LineV, Fault>(
            staged_line(staged_event(log, e, key)),
        ),
{
    chain::lemma_hash_reads_back(log.head);
}

/// What stands for a value stands for all of it, part by part.
pub proof fn law_the_view_of_staged_entry_is_faithful(x: StagedEntry)
    ensures
        x@.event == x.event@,
        x@.hash_hex == x.hash_hex@,
        x@.mac_hex == json::opt_text(x.mac_hex),
{
}

} // verus!
