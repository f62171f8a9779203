use svault::crypto::{derive_kek, random_bytes, seal, KEY_LEN, NONCE_LEN, SALT_LEN, TAG_LEN};
use svault::envelope::unlock::{hex_id, Keys, Seed};
use svault::envelope::{
    canonical_header, Envelope, Header, KdfParams, Slot, SlotType, WrappedKey, B64, MAX_HEADER_LEN,
    MAX_M_KIB, MAX_P, MAX_SLOTS, MAX_T, MIN_M_KIB, MIN_T,
};
use svault::crypto::SecretKey;
use svault::error::VaultError;
use svault::stamp::{formatted, restamp, stamp};

fn pass() -> &'static [u8] {
    b"correct horse battery"
}

fn now() -> &'static str {
    "2023-11-14T22:13:20Z"
}

fn fresh() -> Envelope {
    Envelope::create(pass(), b"{\"v\":1}", now()).unwrap()
}

fn blob(v: &serde_json::Value) -> Option<B64> {
    B64::from_base64(v.as_str()?)
}

fn number(v: &serde_json::Value) -> Option<u32> {
    u32::try_from(v.as_u64()?).ok()
}

fn slot(v: &serde_json::Value) -> Option<Slot> {
    Some(Slot {
        id: v["id"].as_str()?.to_string(),
        kind: SlotType::from_name(v["type"].as_str()?.to_string()),
        kdf: KdfParams {
            algo: v["kdf"]["algo"].as_str()?.to_string(),
            m_kib: number(&v["kdf"]["m_kib"])?,
            t: number(&v["kdf"]["t"])?,
            p: number(&v["kdf"]["p"])?,
        },
        salt: blob(&v["salt"])?,
        nonce: blob(&v["nonce"])?,
        wrapped_mek: blob(&v["wrapped_mek"])?,
    })
}

fn header(bytes: &[u8]) -> Option<Header> {
    let v: serde_json::Value = serde_json::from_slice(bytes).ok()?;
    let mut slots = Vec::new();
    for s in v["slots"].as_array()? {
        slots.push(slot(s)?);
    }
    Some(Header {
        created_at: v["created_at"].as_str()?.to_string(),
        slots,
        dek: WrappedKey { nonce: blob(&v["dek"]["nonce"])?, wrapped: blob(&v["dek"]["wrapped"])? },
    })
}

fn parse(bytes: &[u8]) -> Result<Envelope, VaultError> {
    let decoded = match Envelope::header_len(bytes) {
        Ok(n) => header(&bytes[14..14 + n]),
        Err(_) => None,
    };
    Envelope::parse(bytes, decoded)
}

fn flipped(b: &B64) -> B64 {
    let mut v = b.as_slice().to_vec();
    v[0] ^= 1;
    B64::new(v)
}

#[test]
fn create_roundtrip_unlocks_and_returns_document() {
    let env = fresh();
    let bytes = env.to_bytes();
    let parsed = parse(&bytes).ok().unwrap();
    let keys = parsed.unlock(pass()).ok().unwrap();
    let doc = parsed.open_document(&keys).unwrap();
    assert_eq!(doc, b"{\"v\":1}");
}

#[test]
fn wrong_passphrase_is_generic_auth_without_oracle() {
    let env = fresh();
    let bytes = env.to_bytes();
    let parsed = parse(&bytes).ok().unwrap();
    let e1 = parsed.unlock(b"wrong passphrase entirely").err().unwrap();
    let e2 = parsed.unlock(b"another wrong guess!").err().unwrap();
    assert!(matches!(e1, VaultError::Auth));
    assert!(matches!(e2, VaultError::Auth));
    assert_eq!(e1.message(), e2.message());
}

#[test]
fn tampered_document_is_corrupt() {
    let mut env = fresh();
    let keys = env.unlock(pass()).ok().unwrap();
    env.reseal_document(b"{\"v\":1}", &keys).unwrap();
    let mut bytes = env.to_bytes();
    *bytes.last_mut().unwrap() ^= 1;
    let parsed = parse(&bytes).ok().unwrap();
    let unlocked = parsed.unlock(pass()).ok().unwrap();
    assert!(matches!(
        parsed.open_document(&unlocked),
        Err(VaultError::Corrupt(_))
    ));
}

#[test]
fn tampered_dek_wrap_is_corrupt() {
    let mut env = fresh();
    env.header.dek.wrapped = flipped(&env.header.dek.wrapped);
    let bytes = env.to_bytes();
    let parsed = parse(&bytes).ok().unwrap();
    assert!(matches!(parsed.unlock(pass()), Err(VaultError::Corrupt(_))));
}

#[test]
fn tampered_slot_is_generic_auth() {
    let mut env = fresh();
    env.header.slots[0].wrapped_mek = flipped(&env.header.slots[0].wrapped_mek);
    let bytes = env.to_bytes();
    let parsed = parse(&bytes).ok().unwrap();
    assert!(matches!(parsed.unlock(pass()), Err(VaultError::Auth)));
}

#[test]
fn truncated_file_fails_closed() {
    let bytes = fresh().to_bytes();
    assert!(matches!(parse(&bytes[..20]), Err(VaultError::Corrupt(_))));
    let truncated = &bytes[..bytes.len() - 5];
    match parse(truncated) {
        Err(VaultError::Corrupt(_)) => {}
        Ok(env) => {
            let keys = env.unlock(pass()).ok().expect("key slots are intact");
            assert!(matches!(
                env.open_document(&keys),
                Err(VaultError::Corrupt(_))
            ));
        }
        Err(e) => panic!("unexpected error: {}", e.message()),
    }
}

#[test]
fn bad_magic_is_corrupt() {
    let mut bytes = fresh().to_bytes();
    bytes[0] = b'X';
    assert!(matches!(parse(&bytes), Err(VaultError::Corrupt(_))));
}

#[test]
fn future_version_is_rejected() {
    let mut bytes = fresh().to_bytes();
    bytes[6] = 2;
    assert!(matches!(parse(&bytes), Err(VaultError::Corrupt(_))));
}

#[test]
fn unknown_slot_type_survives_roundtrip() {
    let mut env = fresh();
    env.header.slots.push(Slot {
        id: "future0001".to_string(),
        kind: SlotType::Other("futuretype".to_string()),
        kdf: KdfParams::argon2id_defaults(),
        salt: B64::new(vec![0u8; SALT_LEN]),
        nonce: B64::new(vec![0u8; NONCE_LEN]),
        wrapped_mek: B64::new(vec![0u8; KEY_LEN + TAG_LEN]),
    });
    let parsed = parse(&env.to_bytes()).ok().unwrap();
    assert!(parsed
        .header
        .slots
        .iter()
        .any(|s| s.kind == SlotType::Other("futuretype".to_string())));
    assert!(parsed.unlock(pass()).is_ok());
}

#[test]
fn insecure_kdf_params_are_rejected() {
    let mut env = fresh();
    env.header.slots[0].kdf.m_kib = 8192;
    let parsed = parse(&env.to_bytes()).ok().unwrap();
    assert!(matches!(
        parsed.unlock(pass()),
        Err(VaultError::InsecureParams)
    ));
}

#[test]
fn header_has_one_passphrase_slot_with_argon2id() {
    let env = fresh();
    assert_eq!(env.header.slots.len(), 1);
    assert_eq!(env.header.slots[0].kind, SlotType::Passphrase);
    assert_eq!(env.header.slots[0].kdf.algo, "argon2id");
}

/// The least costs that a slot may have.
fn cheap() -> KdfParams {
    KdfParams { algo: "argon2id".to_string(), m_kib: MIN_M_KIB, t: MIN_T, p: 1 }
}

#[test]
fn every_slot_wraps_the_mek_and_dek_wrap_is_slot_independent() {
    let mut env = Envelope::create_with(seed(), pass(), b"{\"v\":1}", now()).ok().unwrap();
    let keys = Keys { mek: seed().mek, dek: seed().dek };

    let pass_b: &[u8] = b"another good passphrase";
    let salt = random_bytes::<SALT_LEN>().unwrap();
    let nonce = random_bytes::<NONCE_LEN>().unwrap();
    let kek = derive_kek(pass_b, cheap().m_kib, cheap().t, cheap().p, &salt).unwrap();
    let wrapped_mek = seal(
        kek.as_bytes(),
        &nonce,
        keys.mek.as_bytes(),
        b"svault/v1/mek:slot-b",
    );
    env.header.slots.push(Slot {
        id: "slot-b".to_string(),
        kind: SlotType::Passphrase,
        kdf: cheap(),
        salt: B64::new(salt.to_vec()),
        nonce: B64::new(nonce.to_vec()),
        wrapped_mek: B64::new(wrapped_mek),
    });
    let wrapped_before = env.header.dek.wrapped.as_slice().to_vec();
    let nonce_before = env.header.dek.nonce.as_slice().to_vec();
    env.reseal_document(b"{\"v\":1}", &keys).unwrap();

    let parsed = parse(&env.to_bytes()).ok().unwrap();
    assert_eq!(parsed.header.dek.wrapped.as_slice(), wrapped_before);
    assert_eq!(parsed.header.dek.nonce.as_slice(), nonce_before);
    let keys_a = parsed.unlock(pass()).ok().unwrap();
    let keys_b = parsed.unlock(pass_b).ok().unwrap();
    assert_eq!(
        parsed.open_document(&keys_a).unwrap(),
        parsed.open_document(&keys_b).unwrap()
    );
}

#[test]
fn absurd_kdf_params_are_rejected() {
    let mutators: [fn(&mut KdfParams); 3] = [
        |k| k.m_kib = MAX_M_KIB + 1,
        |k| k.t = MAX_T + 1,
        |k| k.p = MAX_P + 1,
    ];
    for mutate in mutators {
        let mut env = fresh();
        mutate(&mut env.header.slots[0].kdf);
        let parsed = parse(&env.to_bytes()).ok().unwrap();
        assert!(matches!(
            parsed.unlock(pass()),
            Err(VaultError::InsecureParams)
        ));
    }
}

#[test]
fn oversized_header_is_rejected() {
    let mut bytes = fresh().to_bytes();
    let hlen = (MAX_HEADER_LEN as u32) + 1;
    bytes[10..14].copy_from_slice(&hlen.to_le_bytes());
    assert!(matches!(parse(&bytes), Err(VaultError::Corrupt(_))));
}

fn seed() -> Seed {
    Seed {
        mek: SecretKey::from_bytes([1; 32]),
        dek: SecretKey::from_bytes([2; 32]),
        salt: [3; SALT_LEN],
        slot_nonce: [4; NONCE_LEN],
        slot_id: [0xab; 8],
        dek_nonce: [5; NONCE_LEN],
        doc_nonce: [6; NONCE_LEN],
    }
}

#[test]
fn an_envelope_follows_from_its_seed() {
    let env = Envelope::create_with(seed(), pass(), b"doc", now()).ok().unwrap();
    assert_eq!(env.header.slots[0].id, "abababababababab");
    assert_eq!(env.header.slots[0].salt.as_slice(), [3; SALT_LEN]);
    let bytes = env.to_bytes();
    assert_eq!(&bytes[..6], b"SVAULT");
    assert_eq!(&bytes[6..10], &[1, 0, 0, 0]);
    let n = u32::from_le_bytes([bytes[10], bytes[11], bytes[12], bytes[13]]) as usize;
    assert_eq!(&bytes[14..14 + n], canonical_header(&env.header));
    assert_eq!(&bytes[14 + n..14 + n + NONCE_LEN], &[6; NONCE_LEN]);
    assert!(canonical_header(&env.header)
        .starts_with(b"{\"created_at\":\"2023-11-14T22:13:20Z\",\"slots\":[{\"id\":\"abababababababab\",\"type\":\"passphrase\",\"kdf\":{\"algo\":\"argon2id\",\"m_kib\":65536,\"t\":3,\"p\":4}"));
    let keys = env.unlock(pass()).ok().unwrap();
    assert_eq!(keys.mek.as_bytes(), &[1; 32]);
    assert_eq!(keys.dek.as_bytes(), &[2; 32]);
    let again = Envelope::create_with(seed(), pass(), b"doc", now()).ok().unwrap();
    assert_eq!(again.to_bytes(), bytes);
}

#[test]
fn keys_derived_ahead_open_the_same_envelope() {
    let env = Envelope::create_with(seed(), pass(), b"doc", now()).ok().unwrap();
    let recipe = env.kek_recipe().ok().unwrap();
    assert_eq!(recipe.slots(), 1);
    let derived = recipe.derive(pass()).ok().unwrap();
    let keys = env.unlock_with(&derived).ok().unwrap();
    assert_eq!(env.open_document(&keys).unwrap(), b"doc");
    let wrong = recipe.derive(b"something else").ok().unwrap();
    assert!(matches!(env.unlock_with(&wrong), Err(VaultError::Auth)));
}

#[test]
fn an_unusable_slot_fails_like_a_wrong_passphrase() {
    let mut env = Envelope::create_with(seed(), pass(), b"doc", now()).ok().unwrap();
    env.header.slots[0].nonce = B64::new(vec![0; 3]);
    assert!(matches!(env.unlock(pass()), Err(VaultError::Auth)));
}

#[test]
fn a_changed_header_breaks_the_document() {
    let mut env = Envelope::create_with(seed(), pass(), b"doc", now()).ok().unwrap();
    let keys = env.unlock(pass()).ok().unwrap();
    env.header.created_at = "2024-01-01T00:00:00Z".to_string();
    assert!(matches!(env.open_document(&keys), Err(VaultError::Corrupt(_))));
    env.reseal_with([7; NONCE_LEN], b"doc two", &keys);
    assert_eq!(env.open_document(&keys).unwrap(), b"doc two");
}

#[test]
fn headers_have_their_faults() {
    let why = |r: Result<Envelope, VaultError>| r.err().unwrap().message();
    let env = Envelope::create_with(seed(), pass(), b"doc", now()).ok().unwrap();
    let bytes = env.to_bytes();
    assert_eq!(why(Envelope::parse(&bytes, None)), "vault file corrupted: invalid header");
    let mut empty = header(&canonical_header(&env.header)).unwrap();
    empty.slots.clear();
    assert!(why(Envelope::parse(&bytes, Some(empty))).contains("no key slots"));
    let mut many = header(&canonical_header(&env.header)).unwrap();
    while many.slots.len() <= MAX_SLOTS {
        let more = header(&canonical_header(&env.header)).unwrap().slots.remove(0);
        many.slots.push(more);
    }
    assert!(why(Envelope::parse(&bytes, Some(many))).contains("too many key slots"));
    let mut short = header(&canonical_header(&env.header)).unwrap();
    short.slots[0].salt = B64::new(vec![0; 3]);
    assert!(why(Envelope::parse(&bytes, Some(short))).contains("invalid slot field lengths"));
    let mut dek = header(&canonical_header(&env.header)).unwrap();
    dek.dek.nonce = B64::new(Vec::new());
    assert!(why(Envelope::parse(&bytes, Some(dek))).contains("invalid dek wrap field lengths"));
}

#[test]
fn slot_kinds_keep_their_names() {
    for name in ["passphrase", "backup", "keychain", "sync", "other-kind"] {
        assert_eq!(SlotType::from_name(name.to_string()).name(), name);
    }
    assert!(KdfParams::argon2id_defaults().validate().is_ok());
    let weak = KdfParams { algo: "argon2i".to_string(), m_kib: 65536, t: 3, p: 4 };
    assert!(weak.validate().is_err());
    let id = hex_id().unwrap();
    assert_eq!(id.len(), 16);
    assert_ne!(id, hex_id().unwrap());
    let kept = fresh();
    assert!(kept.validate_persistable().is_ok());
}

#[test]
fn header_bytes_read_back_from_base64() {
    let read = |text: &str| B64::from_base64(text).map(|b| b.as_slice().to_vec());
    assert_eq!(read(""), Some(Vec::new()));
    assert_eq!(read("AA=="), Some(vec![0]));
    assert_eq!(read("//8="), Some(vec![255, 255]));
    assert_eq!(read("AQID"), Some(vec![1, 2, 3]));
    for text in ["A", "AA", "AA=", "AB==", "//9=", "AQI", "AQID\n", "_-8=", "====", "AQID="] {
        assert_eq!(read(text), None, "{text}");
    }
}

#[test]
fn what_parse_refuses_is_not_persistable() {
    let mut e = fresh();
    assert!(e.validate_persistable().is_ok());
    while e.header.slots.len() < 9 {
        e.header.slots.push(Slot {
            id: e.header.slots[0].id.clone(),
            kind: SlotType::Passphrase,
            kdf: cheap(),
            salt: B64::new(vec![0u8; SALT_LEN]),
            nonce: B64::new(vec![0u8; NONCE_LEN]),
            wrapped_mek: B64::new(vec![0u8; KEY_LEN + TAG_LEN]),
        });
    }
    assert_eq!(e.validate_persistable().unwrap_err().code(), "E_VAULT_CORRUPT");
    assert!(parse(&e.to_bytes()).is_err());
    e.header.slots.pop();
    assert!(e.validate_persistable().is_ok());
    assert!(parse(&e.to_bytes()).is_ok());
}

#[test]
fn times_are_written_as_rfc_3339() {
    assert_eq!(stamp("clock", 1_700_000_000_000_000_000).unwrap(), now());
    let far = stamp("clock", i128::MAX).unwrap_err();
    assert_eq!(far.code(), "E_PROTOCOL");
    assert!(far.message().contains("clock: "));
    assert!(formatted("clock", Err("late".to_string())).unwrap_err().message().contains("late"));
    assert_eq!(restamp("2023-11-14t22:13:20.500z").as_deref(), Some("2023-11-14T22:13:20.5Z"));
    assert_eq!(restamp(now()).as_deref(), Some(now()));
    assert_eq!(restamp("yesterday"), None);
}
