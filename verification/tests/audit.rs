use svault::audit::chain::{check_checkpoint, derive_audit_key, entry_hash, entry_mac, unhex};
use svault::audit::log::AuditLog;
use svault::audit::{
    canonical, AuditEvent, AuditLine, Decision, Priority, Record, RunRecord, MAX_AUDIT_LEN,
};
use svault::crypto::{hex, SecretKey};
use svault::error::VaultError;

const TS: &str = "2026-01-01T00:00:00Z";

fn key() -> SecretKey {
    SecretKey::generate().unwrap()
}

fn rec(op: &str) -> Record<'_> {
    Record {
        actor: "human",
        op,
        project: Some("acme"),
        keys: &[],
        target: None,
        decision: Decision::Allowed,
        reason: None,
    }
}

/// An audit file in memory.
struct File {
    lines: Vec<Option<AuditLine>>,
    len: u64,
}

impl File {
    fn new() -> File {
        File { lines: Vec::new(), len: 0 }
    }

    fn append(
        &mut self,
        log: &mut AuditLog,
        record: Record,
        key: Option<&SecretKey>,
        priority: Priority,
    ) -> Result<(), VaultError> {
        let line = log.append(Some(&self.lines), self.len, record, key, priority, TS)?;
        self.len += line.to_json_text().len() as u64 + 1;
        self.lines.push(Some(line));
        Ok(())
    }

    /// The bytes of the file.
    fn text(&self) -> String {
        let texts = self.lines.iter().flatten().map(|l| l.to_json_text() + "\n");
        texts.collect()
    }
}

/// A log with the operations, each with the key.
fn written(ops: &[&str], key: Option<&SecretKey>) -> File {
    let mut file = File::new();
    let mut log = AuditLog::load_or_init(&file.lines).unwrap();
    for op in ops {
        file.append(&mut log, rec(op), key, Priority::Ordinary).unwrap();
    }
    file
}

fn line(file: &mut File, i: usize) -> &mut AuditLine {
    file.lines[i].as_mut().unwrap()
}

/// Recomputes the public hash chain, without the key.
fn attacker_recompute(lines: &mut [Option<AuditLine>]) {
    let mut prev = [0u8; 32];
    for l in lines.iter_mut() {
        let l = l.as_mut().unwrap();
        l.event.prev_hash = hex(&prev);
        l.hash = hex(&entry_hash(&prev, &l.event));
        prev = entry_hash(&prev, &l.event);
    }
}

fn forged(after: &AuditLine) -> AuditLine {
    let prev = unhex(&after.hash).unwrap();
    let mut forged = AuditLine {
        event: AuditEvent {
            ts: after.event.ts.clone(),
            seq: 2,
            prev_hash: hex(&prev),
            actor: "human".to_string(),
            op: "forged.secret.set".to_string(),
            project: Some("ghost".to_string()),
            keys: vec!["KEY".to_string()],
            target: None,
            decision: Decision::Allowed,
            reason: None,
            run_id: None,
            executable: None,
            arg_count: None,
            cwd: None,
            result: None,
            exit_code: None,
            signal: None,
        },
        hash: String::new(),
        mac: None,
    };
    forged.hash = hex(&entry_hash(&prev, &forged.event));
    forged
}

#[test]
fn audit_growth_ceiling_is_fail_closed() {
    let mut file = File::new();
    let mut log = AuditLog::load_or_init(&file.lines).unwrap();
    log.set_limits_for_test(8 * 1024, 16 * 1024);
    fn rec<'a>(keys: &'a [String]) -> Record<'a> {
        Record {
            actor: "human",
            op: "secret.set",
            project: Some("acme"),
            keys,
            target: None,
            decision: Decision::Allowed,
            reason: None,
        }
    }

    let mut refused = None;
    for i in 0..500 {
        let keys = vec![format!("K{i}")];
        match file.append(&mut log, rec(&keys), None, Priority::Ordinary) {
            Ok(()) => {}
            Err(e) => {
                refused = Some(e);
                break;
            }
        }
    }
    let err = refused.expect("the soft limit must eventually refuse");
    assert_eq!(err.code(), "E_AUDIT_FULL", "got {}", err.message());
    let after_refusal = file.text();
    assert_eq!(after_refusal.len() as u64, file.len, "a refused append writes nothing");
    assert!(
        file.len <= 8 * 1024 + 1024,
        "an ordinary append must not overshoot the soft limit: {}",
        file.len
    );

    let mut life = 0;
    let live = vec!["L".to_string()];
    while file.append(&mut log, rec(&live), None, Priority::Lifecycle).is_ok() {
        life += 1;
        assert!(life < 1000, "lifecycle must also hit the hard cap");
    }
    assert!(
        file.len <= 16 * 1024,
        "the hard cap must bound lifecycle events too: {}",
        file.len
    );
    assert_eq!(file.text().len() as u64, file.len);
    assert!(
        file.text().starts_with(&after_refusal),
        "existing history must stay byte-identical"
    );
}

#[test]
fn audit_key_is_a_deterministic_independent_subkey() {
    let mek = key();
    let a = derive_audit_key(&mek);
    let b = derive_audit_key(&mek);
    assert_eq!(a.as_bytes(), b.as_bytes());
    let other = derive_audit_key(&key());
    assert_ne!(a.as_bytes(), other.as_bytes());
    assert_ne!(a.as_bytes(), mek.as_bytes());
}

#[test]
fn append_and_verify_roundtrip_with_and_without_key() {
    let k = key();
    let mut file = File::new();
    let mut log = AuditLog::load_or_init(&file.lines).unwrap();
    file.append(&mut log, rec("vault.created"), Some(&k), Priority::Ordinary).unwrap();
    file.append(&mut log, rec("vault.locked"), None, Priority::Lifecycle).unwrap();
    file.append(&mut log, rec("vault.unlocked"), Some(&k), Priority::Lifecycle).unwrap();

    let report = AuditLog::verify(&file.lines, Some(&k)).unwrap();
    assert_eq!(report.entries, 3);
    assert_eq!(report.macs_verified, 2);
    assert_eq!(report.macs_null, 1);

    let report = AuditLog::verify(&file.lines, None).unwrap();
    assert_eq!(report.entries, 3);
}

#[test]
fn tampering_a_maced_entry_fails_verification() {
    let k = key();
    let mut file = written(&["project.add", "secret.set"], Some(&k));
    line(&mut file, 0).event.op = "secret.delete".to_string();
    assert!(AuditLog::verify(&file.lines, Some(&k)).is_err());
}

#[test]
fn reordering_entries_fails_verification() {
    let k = key();
    let mut file = written(&["project.add", "secret.set", "secret.delete"], Some(&k));
    file.lines.swap(0, 1);
    assert!(AuditLog::verify(&file.lines, Some(&k)).is_err());
}

#[test]
fn deleting_a_maced_entry_fails_verification() {
    let k = key();
    let mut file = written(&["project.add", "secret.set", "secret.delete"], Some(&k));
    file.lines.remove(1);
    assert!(AuditLog::verify(&file.lines, Some(&k)).is_err());
}

#[test]
fn keyless_forge_with_recomputed_hashes_is_detected_by_macs() {
    let k = key();
    let mut file = written(&["project.add", "secret.set"], Some(&k));
    line(&mut file, 0).event.op = "forged.op".to_string();
    attacker_recompute(&mut file.lines);
    assert!(AuditLog::verify(&file.lines, Some(&k)).is_err());
    assert!(AuditLog::verify(&file.lines, None).is_ok());
}

#[test]
fn tail_truncation_after_last_maced_entry_is_undetectable() {
    let k = key();
    let mut file = File::new();
    let mut log = AuditLog::load_or_init(&file.lines).unwrap();
    file.append(&mut log, rec("project.add"), Some(&k), Priority::Ordinary).unwrap();
    file.append(&mut log, rec("vault.locked"), None, Priority::Lifecycle).unwrap();
    file.lines.truncate(1);
    assert!(AuditLog::verify(&file.lines, Some(&k)).is_ok());
}

#[test]
fn offline_null_insertion_before_a_maced_entry_is_detected() {
    let k = key();
    let mut file = written(&["project.add", "secret.set"], Some(&k));
    let inserted = forged(file.lines[0].as_ref().unwrap());
    file.lines.insert(1, Some(inserted));
    attacker_recompute(&mut file.lines);
    assert!(AuditLog::verify(&file.lines, Some(&k)).is_err());
}

#[test]
fn offline_null_insertion_at_tail_is_chained_but_unauthenticated() {
    let k = key();
    let mut file = written(&["project.add"], Some(&k));
    let inserted = forged(file.lines[0].as_ref().unwrap());
    file.lines.push(Some(inserted));
    let report = AuditLog::verify(&file.lines, Some(&k)).unwrap();
    assert_eq!(report.macs_verified, 1);
    assert_eq!(report.macs_null, 1);
    assert!(line(&mut file, 1).mac.is_none());
}

#[test]
fn display_marks_unauthenticated_entries() {
    let k = key();
    let mut file = File::new();
    let mut log = AuditLog::load_or_init(&file.lines).unwrap();
    file.append(&mut log, rec("project.add"), Some(&k), Priority::Ordinary).unwrap();
    file.append(&mut log, rec("vault.locked"), None, Priority::Lifecycle).unwrap();
    let lines = AuditLog::tail(&file.lines, 10).unwrap();
    assert!(!lines[0].display().contains("unauthenticated"));
    assert!(lines[1].display().contains("[unauthenticated]"));
}

#[test]
fn checkpoint_coherence_is_checkable() {
    let k = key();
    let mut file = File::new();
    let mut log = AuditLog::load_or_init(&file.lines).unwrap();
    let staged = log
        .stage(
            Some(&file.lines),
            file.len,
            rec("vault.created"),
            Some(&k),
            Priority::Ordinary,
            TS,
        )
        .ok()
        .unwrap();
    let written = log.append_staged(Some(&file.lines), &staged).unwrap();
    file.lines.push(Some(written));

    assert!(check_checkpoint(&file.lines, staged.event.seq, &staged.hash_hex).is_ok());
    assert!(check_checkpoint(&file.lines, staged.event.seq, &"f".repeat(64)).is_err());
    assert!(check_checkpoint(&file.lines, staged.event.seq + 1, &staged.hash_hex).is_err());
}

#[test]
fn a_staged_entry_is_written_once_and_unchanged() {
    let mut file = written(&["a"], None);
    let mut log = AuditLog::load_or_init(&file.lines).unwrap();
    let stage = |log: &AuditLog, file: &File| {
        log.stage(Some(&file.lines), file.len, rec("b"), None, Priority::Ordinary, TS).ok().unwrap()
    };
    let mut event = stage(&log, &file);
    event.event.op = "c".to_string();
    assert!(matches!(
        log.append_staged(Some(&file.lines), &event),
        Err(VaultError::Protocol(_))
    ));
    let mut hash = stage(&log, &file);
    hash.hash_hex = "0".repeat(64);
    assert!(log.append_staged(Some(&file.lines), &hash).is_err());
    let staged = stage(&log, &file);
    let line = log.append_staged(Some(&file.lines), &staged).unwrap();
    log.advance(&line.event);
    file.lines.push(Some(line));
    let seq = log.seq();
    assert!(matches!(
        log.append_staged(Some(&file.lines), &staged),
        Err(VaultError::Protocol(_))
    ));
    assert_eq!(log.seq(), seq);
}

#[test]
fn an_entry_that_is_not_next_is_refused() {
    let mut file = written(&["a"], None);
    let mut log = AuditLog::load_or_init(&file.lines).unwrap();
    let staged = log
        .stage(Some(&file.lines), file.len, rec("b"), None, Priority::Ordinary, TS)
        .ok()
        .unwrap();
    file.append(&mut log, rec("c"), None, Priority::Ordinary).unwrap();
    assert!(log.append_staged(Some(&file.lines), &staged).is_err());
}

#[test]
fn a_staged_entry_takes_its_mac_later() {
    let k = key();
    let mut file = File::new();
    let mut log = AuditLog::load_or_init(&file.lines).unwrap();
    let mut staged = log
        .stage(Some(&file.lines), 0, rec("vault.created"), None, Priority::Ordinary, TS)
        .ok()
        .unwrap();
    assert!(staged.mac_hex.is_none());
    staged.mac_with(&k);
    assert_eq!(
        staged.mac_hex.clone(),
        Some(hex(&entry_mac(&k, &[0; 32], &staged.event)))
    );
    let written = log.append_staged(Some(&file.lines), &staged).unwrap();
    file.lines.push(Some(written));
    assert_eq!(AuditLog::verify(&file.lines, Some(&k)).unwrap().macs_verified, 1);
    assert!(AuditLog::verify(&file.lines, Some(&key())).is_err());
}

#[test]
fn lines_are_written_in_one_order() {
    let mut file = written(&["vault.created"], None);
    let l = line(&mut file, 0);
    let zeros = "0".repeat(64);
    let event = format!(
        "{{\"ts\":\"{TS}\",\"seq\":1,\"prev_hash\":\"{zeros}\",\"actor\":\"human\",\"op\":\"vault.created\",\"project\":\"acme\""
    );
    let text = l.to_json_text();
    assert!(text.starts_with(&event), "{text}");
    assert!(text.contains(&format!("\"hash\":\"{}\"", l.hash)));
    let v: serde_json::Value = serde_json::from_str(&text).unwrap();
    assert_eq!(v["seq"].as_u64(), Some(1));
    assert_eq!(v["decision"].as_str(), Some("allowed"));
    assert!(canonical(&l.event).starts_with(event.as_bytes()));
    assert_eq!(l.duplicate(), *l);
}

#[test]
fn run_entries_carry_their_run() {
    let mut log = AuditLog::load_or_init(&[]).unwrap();
    let keys = vec!["A".to_string()];
    let line = log
        .append_run(
            Some(&[]),
            0,
            RunRecord {
                actor: "agent:bot",
                project: Some("acme"),
                keys: &keys,
                run_id: Some("r1"),
                executable: Some("/bin/true"),
                arg_count: Some(2),
                cwd: None,
                decision: Decision::Denied,
                reason: Some("E_LOCKED"),
                result: None,
                exit_code: Some(-1),
                signal: Some("SIGTERM"),
            },
            None,
            Priority::Ordinary,
            TS,
        )
        .unwrap();
    assert_eq!(line.event.run_id.as_deref(), Some("r1"));
    assert_eq!(line.event.arg_count, Some(2));
    assert_eq!(line.event.exit_code, Some(-1));
    assert_eq!(line.event.decision, Decision::Denied);
    assert_eq!(log.seq(), 0);
    log.advance(&line.event);
    assert_eq!(log.seq(), 1);
    let text = line.to_json_text();
    assert!(text.contains("\"exit_code\":-1") && text.contains("\"signal\":\"SIGTERM\""));
    assert_eq!(line.to_json().uint_at("seq"), Some(1));
}

#[test]
fn unreadable_lines_are_corrupt() {
    assert_eq!(AuditLog::verify(&[None], None).err().unwrap().code(), "E_VAULT_CORRUPT");
    assert_eq!(AuditLog::read_all(&[None]).err().unwrap().code(), "E_VAULT_CORRUPT");
    assert!(unhex("ff").is_err());
    assert!(unhex(&"z".repeat(64)).is_err());
    assert_eq!(unhex(&"0f".repeat(32)).unwrap(), [15; 32]);
    assert!(unhex(&"+f".repeat(32)).is_err());
    assert_eq!(MAX_AUDIT_LEN, 16 * 1024 * 1024);
}

#[test]
fn the_tail_is_the_end() {
    let file = written(&["a", "b", "c"], None);
    let last = AuditLog::tail(&file.lines, 2).unwrap();
    assert_eq!(last.len(), 2);
    assert_eq!(last[0].event.op, "b");
    assert_eq!(AuditLog::tail(&file.lines, 0).unwrap().len(), 0);
}

#[test]
fn a_divergent_writer_is_refused() {
    let mut file = written(&["a", "b"], None);
    let mut log = AuditLog::load_or_init(&file.lines).unwrap();
    let mut other = written(&["a", "c"], None);
    assert_eq!(other.lines.len(), file.lines.len());
    let err = other.append(&mut log, rec("d"), None, Priority::Ordinary).unwrap_err();
    assert_eq!(err.code(), "E_VAULT_CORRUPT");
    assert_eq!(other.lines.len(), 2);
    assert_eq!(log.seq(), 2);
    file.append(&mut log, rec("d"), None, Priority::Ordinary).unwrap();
    assert!(AuditLog::verify(&file.lines, None).is_ok());
}
