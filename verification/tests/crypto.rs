use svault::crypto::{
    capability_of, derive_kek, drawn, generate_agent_token, generate_capability, hex, open,
    random_bytes, seal, token_digest, unhex, SecretKey, SecretText, NONCE_LEN, SALT_LEN,
};

#[test]
fn seal_open_roundtrip_and_tamper() {
    let key = SecretKey::generate().unwrap();
    let nonce = random_bytes::<NONCE_LEN>().unwrap();
    let ct = seal(key.as_bytes(), &nonce, b"attack at dawn", b"header");
    let pt = open(key.as_bytes(), &nonce, &ct, b"header").unwrap();
    assert_eq!(pt, b"attack at dawn");

    let mut tampered = ct.clone();
    tampered[0] ^= 1;
    assert!(open(key.as_bytes(), &nonce, &tampered, b"header").is_err());

    assert!(open(key.as_bytes(), &nonce, &ct, b"other").is_err());
}

#[test]
fn fresh_nonces_produce_different_ciphertexts() {
    let key = SecretKey::generate().unwrap();
    let n1 = random_bytes::<NONCE_LEN>().unwrap();
    let n2 = random_bytes::<NONCE_LEN>().unwrap();
    assert_ne!(n1, n2);
    assert_ne!(
        seal(key.as_bytes(), &n1, b"x", b""),
        seal(key.as_bytes(), &n2, b"x", b"")
    );
}

#[test]
fn derive_kek_is_deterministic_and_input_sensitive() {
    let salt = random_bytes::<SALT_LEN>().unwrap();
    let a = derive_kek(b"passphrase", 19456, 2, 1, &salt).unwrap();
    let b = derive_kek(b"passphrase", 19456, 2, 1, &salt).unwrap();
    let c = derive_kek(b"passphrase2", 19456, 2, 1, &salt).unwrap();
    assert_eq!(a.as_bytes(), b.as_bytes());
    assert_ne!(a.as_bytes(), c.as_bytes());
}

#[test]
fn sealing_adds_a_tag_and_hides_the_text() {
    let key = SecretKey::from_bytes([3; 32]);
    let ct = seal(key.as_bytes(), &[5; NONCE_LEN], b"attack", b"");
    assert_eq!(ct.len(), 6 + 16);
    assert_ne!(&ct[..6], b"attack");
    assert!(open(&[4; 32], &[5; NONCE_LEN], &ct, b"").is_err());
    assert!(open(key.as_bytes(), &[6; NONCE_LEN], &ct, b"").is_err());
    assert!(open(key.as_bytes(), &[5; NONCE_LEN], &ct[..10], b"").is_err());
}

#[test]
fn digests_are_sha256() {
    assert_eq!(
        hex(&token_digest("abc")),
        "ba7816bf8f01cfea414140de5dae2223b00361a396177a9cb410ff61f20015ad"
    );
}

#[test]
fn hexadecimal_reads_back() {
    assert_eq!(hex(&[0, 15, 255]), "000fff");
    assert_eq!(unhex("000fff"), Some(vec![0, 15, 255]));
    assert_eq!(unhex("0"), None);
    assert_eq!(unhex("zz"), None);
    let all: Vec<u8> = (0..=255).collect();
    assert_eq!(unhex(&hex(&all)), Some(all));
    assert_eq!(hex(&unhex("00AbfF").unwrap()), "00abff");
}

#[test]
fn capabilities_carry_their_bytes() {
    let (text, digest, prefix) = capability_of(&[0xff; 32]);
    assert_eq!(digest, token_digest(&text));
    assert_eq!(prefix, hex(&digest[..4]));
    assert_eq!(text, "__________________________________________8");
}

#[test]
fn fresh_capabilities_differ() {
    let (a, _, _) = generate_capability().unwrap();
    let (b, d, _) = generate_agent_token().unwrap();
    assert_ne!(a, b);
    assert_eq!(d, token_digest(&b));
}

#[test]
fn derivation_reads_its_parameters() {
    let salt = [1u8; SALT_LEN];
    let a = derive_kek(b"passphrase", 19456, 2, 1, &salt).unwrap();
    let b = derive_kek(b"passphrase", 19456, 3, 1, &salt).unwrap();
    let c = derive_kek(b"passphrase", 19456, 2, 1, &[2u8; SALT_LEN]).unwrap();
    assert_ne!(a.as_bytes(), b.as_bytes());
    assert_ne!(a.as_bytes(), c.as_bytes());
    let why = |m: u32, salt: &[u8]| derive_kek(b"p", m, 2, 1, salt).err().unwrap().message();
    assert!(why(1, &salt).contains("invalid kdf params: "));
    assert!(why(19456, &[0; 4]).contains("kdf failure: "));
}

#[test]
fn secrets_keep_what_they_hold() {
    let key = SecretKey::from_bytes([9; 32]);
    assert_eq!(key.as_bytes(), &[9; 32]);
    assert_eq!(key.duplicate().as_bytes(), &[9; 32]);
    assert_eq!(SecretText::new("cap".to_string()).as_str(), "cap");
    assert_ne!(random_bytes::<16>().unwrap(), [0; 16]);
}

#[test]
fn drawn_bytes_are_those_of_the_source() {
    assert_eq!(drawn(Ok([1u8, 2, 3])).unwrap(), [1, 2, 3]);
    let e = drawn::<3>(Err("no entropy".to_string())).err().unwrap();
    assert!(e.message().ends_with("csprng failure: no entropy"));
    assert!(random_bytes::<0>().is_ok());
}
