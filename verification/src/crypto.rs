//! Symmetric primitives: wiped keys, the Argon2id key derivation, the
//! XChaCha20-Poly1305 cipher, digests and the hexadecimal notation.

use base64::Engine;
use chacha20poly1305::aead::Aead;
use chacha20poly1305::KeyInit;
use hmac::Mac;
use sha2::Digest;
use vstd::prelude::*;

use crate::error::{Fault, IoFailure, VaultError};
use crate::text::{self, joined};

verus! {

pub const KEY_LEN: usize = 32;

pub const NONCE_LEN: usize = 24;

pub const SALT_LEN: usize = 16;

/// How many bytes the cipher adds to a message.
pub const TAG_LEN: usize = 16;

/// A 256-bit symmetric key. It lives in a `zeroize::Zeroizing` buffer, which
/// wipes it when it is dropped.
#[verifier::external_body]
pub struct SecretKey {
    bytes: zeroize::Zeroizing<[u8; KEY_LEN]>,
}

/// The bytes that a key's wiped buffer holds.
pub uninterp spec fn key_bytes(key: SecretKey) -> Seq<u8>;

impl View for SecretKey {
    type V = Seq<u8>;

    open spec fn view(&self) -> Seq<u8> {
        key_bytes(*self)
    }
}

impl SecretKey {
    /// `zeroize::Zeroizing::new`: the buffer holds the given bytes.
    #[verifier::external_body]
    pub fn from_bytes(bytes: [u8; KEY_LEN]) -> (r: SecretKey)
        ensures
            key_bytes(r) == bytes@,
    {
        SecretKey { bytes: zeroize::Zeroizing::new(bytes) }
    }

    /// `zeroize::Zeroizing::deref`: the bytes that the buffer holds.
    #[verifier::external_body]
    pub fn as_bytes(&self) -> (r: &[u8; KEY_LEN])
        ensures
            r@ == key_bytes(*self),
    {
        &self.bytes
    }

    /// A key from the operating system's random source. Nothing is promised of
    /// its bytes; the only failure is that of the source.
    pub fn generate() -> (r: Result<SecretKey, VaultError>)
        ensures
            r matches Err(e) ==> is_csprng_failure(e@),
            r matches Ok(k) ==> k@.len() == KEY_LEN,
    {
        match random_bytes::<32>() {
            Ok(bytes) => Ok(SecretKey::from_bytes(bytes)),
            Err(e) => Err(e),
        }
    }

    /// Another key with the same bytes.
    pub fn duplicate(&self) -> (r: SecretKey)
        ensures
            r@ == self@,
    {
        SecretKey::from_bytes(*self.as_bytes())
    }
}

/// The failure of the operating system's random source.
pub open spec fn is_csprng_failure(f: Fault) -> bool {
    f matches Fault::Io { os_code, text } && os_code is None && "csprng failure: "@.is_prefix_of(
        text,
    )
}

/// What comes of an attempt to draw bytes: the bytes, or the failure with the
/// reason of the operating system.
pub open spec fn draw_outcome<const N: usize>(source: Result<[u8; N], String>) -> Result<
    Seq<u8>,
    Fault,
> {
    match source {
        Ok(bytes) => Ok(bytes@),
        Err(why) => Err(Fault::Io { os_code: None, text: "csprng failure: "@ + why@ }),
    }
}

/// `getrandom::getrandom`: fills a buffer from the operating system's random
/// source, or reports that it could not. The source is not asked for an empty
/// buffer, so that one never fails. Nothing is claimed of the bytes.
#[verifier::external_body]
fn system_random<const N: usize>() -> (r: Result<[u8; N], String>)
    ensures
        N == 0 ==> r is Ok,
{
    let mut buf = [0u8; N];
    match getrandom::getrandom(&mut buf) {
        Ok(()) => Ok(buf),
        Err(e) => Err(e.to_string()),
    }
}

/// Random bytes from the operating system. It is left open which bytes they
/// are, and when the source fails.
pub fn random_bytes<const N: usize>() -> (r: Result<[u8; N], VaultError>)
    ensures
        r matches Err(e) ==> is_csprng_failure(e@),
        N == 0 ==> r is Ok,
{
    drawn(system_random::<N>())
}

/// Hands out what the random source gave: the bytes as they are, or its reason
/// as an I/O failure.
pub fn drawn<const N: usize>(source: Result<[u8; N], String>) -> (r: Result<[u8; N], VaultError>)
    ensures
        match r {
            Ok(bytes) => draw_outcome(source) == Ok::<Seq<u8>, Fault>(bytes@),
            Err(e) => draw_outcome(source) == Err::<Seq<u8>, Fault>(e@) && is_csprng_failure(e@),
        },
{
    match source {
        Ok(bytes) => Ok(bytes),
        Err(why) => {
            let text = joined("csprng failure: ", &why);
            assert("csprng failure: "@.is_prefix_of(text@)) by {
                assert(text@.subrange(0, "csprng failure: "@.len() as int)
                    =~= "csprng failure: "@);
            }
            Err(VaultError::Io(IoFailure { os_code: None, text }))
        },
    }
}

/// The SHA-256 digest of some bytes.
pub uninterp spec fn sha256_output(data: Seq<u8>) -> [u8; 32];

/// The bytes of the SHA-256 digest.
pub open spec fn sha256_digest(data: Seq<u8>) -> Seq<u8> {
    sha256_output(data)@
}

/// `sha2::Sha256::digest`: the SHA-256 digest, a function of the bytes alone.
#[verifier::external_body]
pub(crate) fn sha256(data: &[u8]) -> (r: [u8; 32])
    ensures
        r@ == sha256_output(data@)@,
{
    sha2::Sha256::digest(data).into()
}

/// The HMAC-SHA256 tag of some bytes under a key.
pub uninterp spec fn hmac_output(key: Seq<u8>, data: Seq<u8>) -> [u8; 32];

/// The bytes of the HMAC-SHA256 tag.
pub open spec fn hmac_tag(key: Seq<u8>, data: Seq<u8>) -> Seq<u8> {
    hmac_output(key, data)@
}

/// `hmac::Mac::finalize` over `Hmac<Sha256>`: the tag, a function of the key
/// and the bytes.
#[verifier::external_body]
pub(crate) fn hmac_sha256(key: &[u8; KEY_LEN], data: &[u8]) -> (r: [u8; 32])
    ensures
        r@ == hmac_output(key@, data@)@,
{
    let mut mac: hmac::Hmac<sha2::Sha256> = hmac::Mac::new_from_slice(key)
        .expect("any key length");
    mac.update(data);
    mac.finalize().into_bytes().into()
}

/// `hmac::Mac::verify_slice` over `Hmac<Sha256>`: whether a tag is the one of
/// the bytes under the key.
#[verifier::external_body]
pub(crate) fn hmac_matches(key: &[u8; KEY_LEN], data: &[u8], tag: &[u8; 32]) -> (r: bool)
    ensures
        r == (tag@ == hmac_output(key@, data@)@),
{
    let mut mac: hmac::Hmac<sha2::Sha256> = hmac::Mac::new_from_slice(key)
        .expect("any key length");
    mac.update(data);
    mac.verify_slice(tag).is_ok()
}

/// The HKDF-SHA256 subkey, without a salt, that a label selects.
pub uninterp spec fn hkdf_output(key: Seq<u8>, label: Seq<u8>) -> [u8; 32];

/// The bytes of the HKDF-SHA256 subkey.
pub open spec fn hkdf_subkey(key: Seq<u8>, label: Seq<u8>) -> Seq<u8> {
    hkdf_output(key, label)@
}

/// `hkdf::Hkdf::<Sha256>::expand`, without a salt, to 32 bytes: a function of
/// the key and the label.
#[verifier::external_body]
pub(crate) fn hkdf_sha256(key: &[u8; KEY_LEN], label: &[u8]) -> (r: [u8; 32])
    ensures
        r@ == hkdf_output(key@, label@)@,
{
    let mut out = [0u8; 32];
    hkdf::Hkdf::<sha2::Sha256>::new(None, key).expand(label, &mut out)
        .expect("32 bytes are within the limit");
    out
}

/// The base64 digit of a value below 64, in the standard or the URL alphabet.
pub open spec fn base64_digit(v: int, url: bool) -> char {
    if v < 26 {
        (65 + v) as char
    } else if v < 52 {
        (71 + v) as char
    } else if v < 62 {
        (v - 4) as char
    } else if v == 62 {
        if url { '-' } else { '+' }
    } else {
        if url { '_' } else { '/' }
    }
}

/// The byte at a position, where bytes beyond the end count as zero.
pub open spec fn byte_or_zero(data: Seq<u8>, i: int) -> int {
    if 0 <= i < data.len() { data[i] as int } else { 0 }
}

/// The six bits that digit `i` of the base64 notation stands for.
pub open spec fn sextet(data: Seq<u8>, i: int) -> int {
    let k = i / 4 * 3;
    if i % 4 == 0 {
        byte_or_zero(data, k) / 4
    } else if i % 4 == 1 {
        byte_or_zero(data, k) % 4 * 16 + byte_or_zero(data, k + 1) / 16
    } else if i % 4 == 2 {
        byte_or_zero(data, k + 1) % 16 * 4 + byte_or_zero(data, k + 2) / 64
    } else {
        byte_or_zero(data, k + 2) % 64
    }
}

/// The base64 notation of some bytes without padding, as RFC 4648 has it.
pub open spec fn base64_unpadded(data: Seq<u8>, url: bool) -> Seq<char> {
    Seq::new(((data.len() * 4 + 2) / 3) as nat, |i: int| base64_digit(sextet(data, i), url))
}

/// The base64url notation, without padding, of some bytes.
pub open spec fn base64url(data: Seq<u8>) -> Seq<char> {
    base64_unpadded(data, true)
}

/// The standard base64 notation of some bytes, padded to a multiple of four.
pub open spec fn base64_standard(data: Seq<u8>) -> Seq<char> {
    base64_unpadded(data, false) + (if data.len() % 3 == 1 {
        seq!['=', '=']
    } else if data.len() % 3 == 2 {
        seq!['=']
    } else {
        Seq::empty()
    })
}

/// `base64::engine::general_purpose::URL_SAFE_NO_PAD` `encode`: the base64url
/// notation without padding. No slice is so long that the length of its
/// notation would not fit a `usize`.
#[verifier::external_body]
fn base64url_encode(data: &[u8]) -> (r: String)
    ensures
        r@ == base64url(data@),
{
    base64::engine::general_purpose::URL_SAFE_NO_PAD.encode(data)
}

/// `base64::engine::general_purpose::STANDARD` `encode`: the standard base64
/// notation with padding. No slice is so long that the length of its notation
/// would not fit a `usize`.
#[verifier::external_body]
pub(crate) fn base64_encode(data: &[u8]) -> (r: String)
    ensures
        r@ == base64_standard(data@),
{
    base64::engine::general_purpose::STANDARD.encode(data)
}

/// `base64::engine::general_purpose::STANDARD` `decode`: the bytes whose standard
/// notation the text is. The engine wants the canonical padding and refuses
/// bits left over behind the last byte, so that a text which is no notation
/// of any bytes is refused.
#[verifier::external_body]
pub(crate) fn base64_decode(text: &str) -> (r: Option<Vec<u8>>)
    ensures
        match r {
            Some(data) => base64_standard(data@) == text@,
            None => forall|data: Seq<u8>| #[trigger] base64_standard(data) != text@,
        },
{
    base64::engine::general_purpose::STANDARD.decode(text).ok()
}

/// Different values have different digits, and no digit is the padding.
proof fn lemma_digits_differ(u: int, v: int)
    requires
        0 <= u < 64,
        0 <= v < 64,
    ensures
        base64_digit(u, false) == base64_digit(v, false) ==> u == v,
        base64_digit(u, false) != '=',
{
}

proof fn lemma_sextet_is_small(data: Seq<u8>, i: int)
    ensures
        0 <= sextet(data, i) < 64,
{
}

/// The padding tells how many bytes stand in the last group.
proof fn lemma_padding_tells_length(a: Seq<u8>, b: Seq<u8>)
    requires
        base64_standard(a) == base64_standard(b),
    ensures
        a.len() == b.len(),
{
    let (s, t) = (base64_standard(a), base64_standard(b));
    let n = s.len() as int;
    assert(n == (a.len() + 2) / 3 * 4 && n == (b.len() + 2) / 3 * 4);
    if n > 0 {
        lemma_sextet_is_small(a, n - 1);
        lemma_sextet_is_small(a, n - 2);
        lemma_sextet_is_small(b, n - 1);
        lemma_sextet_is_small(b, n - 2);
        lemma_digits_differ(sextet(a, n - 1), sextet(b, n - 1));
        lemma_digits_differ(sextet(a, n - 2), sextet(b, n - 2));
        lemma_digits_differ(sextet(b, n - 1), sextet(a, n - 1));
        lemma_digits_differ(sextet(b, n - 2), sextet(a, n - 2));
        assert(s[n - 1] == t[n - 1] && s[n - 2] == t[n - 2]);
    }
}

/// A base64 text is the notation of one string of bytes at most, so that what
/// was written in base64 reads back as it was.
pub proof fn law_base64_is_unambiguous(a: Seq<u8>, b: Seq<u8>)
    requires
        base64_standard(a) == base64_standard(b),
    ensures
        a == b,
{
    lemma_padding_tells_length(a, b);
    let digits = base64_unpadded(a, false);
    assert forall|i: int| 0 <= i < digits.len() implies #[trigger] sextet(a, i) == sextet(
        b,
        i,
    ) by {
        assert(digits[i] == base64_standard(a)[i]);
        assert(base64_unpadded(b, false)[i] == base64_standard(b)[i]);
        lemma_sextet_is_small(a, i);
        lemma_sextet_is_small(b, i);
        lemma_digits_differ(sextet(a, i), sextet(b, i));
    }
    assert forall|j: int| 0 <= j < a.len() implies a[j] == b[j] by {
        let i = j / 3 * 4 + j % 3;
        assert(0 <= i && i + 1 < digits.len());
        assert(sextet(a, i) == sextet(b, i));
        assert(sextet(a, i + 1) == sextet(b, i + 1));
    }
    assert(a =~= b);
}

/// A text that is wiped when it is dropped: it lives in a `zeroize::Zeroizing`
/// buffer.
#[verifier::external_body]
pub struct SecretText {
    text: zeroize::Zeroizing<String>,
}

/// The characters that a secret text's wiped buffer holds.
pub uninterp spec fn secret_chars(s: SecretText) -> Seq<char>;

impl View for SecretText {
    type V = Seq<char>;

    open spec fn view(&self) -> Seq<char> {
        secret_chars(*self)
    }
}

impl SecretText {
    /// `zeroize::Zeroizing::new`: the buffer holds the given text.
    #[verifier::external_body]
    pub fn new(text: String) -> (r: SecretText)
        ensures
            secret_chars(r) == text@,
    {
        SecretText { text: zeroize::Zeroizing::new(text) }
    }

    /// `zeroize::Zeroizing::deref`: the text that the buffer holds.
    #[verifier::external_body]
    pub fn as_str(&self) -> (r: &str)
        ensures
            r@ == secret_chars(*self),
    {
        self.text.as_str()
    }
}

/// `zeroize::Zeroize::zeroize` on a byte vector: the bytes are overwritten and
/// the vector is empty afterwards.
#[verifier::external_body]
pub(crate) fn wipe(v: &mut Vec<u8>)
    ensures
        final(v)@ == Seq::<u8>::empty(),
{
    zeroize::Zeroize::zeroize(v);
}

/// The digest under which a token or a credential is stored and looked up.
pub fn token_digest(token: &str) -> (r: [u8; 32])
    ensures
        r@ == sha256_digest(text::utf8(token@)),
{
    sha256(token.as_bytes())
}

/// The digit of a value below sixteen.
pub open spec fn hex_digit(n: int) -> char {
    if n < 10 {
        (48 + n) as char
    } else {
        (87 + n) as char
    }
}

/// The lowercase hexadecimal notation of some bytes, two digits for each.
pub open spec fn hex_text(bytes: Seq<u8>) -> Seq<char> {
    Seq::new(
        2 * bytes.len(),
        |i: int|
            if i % 2 == 0 {
                hex_digit(bytes[i / 2] as int / 16)
            } else {
                hex_digit(bytes[i / 2] as int % 16)
            },
    )
}

/// The value of a hexadecimal digit of either case.
pub open spec fn digit_value(c: int) -> Option<int> {
    if 48 <= c <= 57 {
        Some(c - 48)
    } else if 97 <= c <= 102 {
        Some(c - 87)
    } else if 65 <= c <= 70 {
        Some(c - 55)
    } else {
        None
    }
}

/// Whether some UTF-8 bytes are hexadecimal notation.
pub open spec fn is_hex(b: Seq<u8>) -> bool {
    b.len() % 2 == 0 && forall|i: int| 0 <= i < b.len() ==> digit_value(
        #[trigger] b[i] as int,
    ) is Some
}

/// The bytes that hexadecimal notation stands for.
pub open spec fn unhex_bytes(b: Seq<u8>) -> Seq<u8> {
    Seq::new(
        b.len() / 2,
        |i: int| (digit_value(b[2 * i] as int)->0 * 16 + digit_value(b[2 * i + 1] as int)->0) as u8,
    )
}

fn digit_char(n: u8) -> (c: char)
    requires
        n < 16,
    ensures
        c == hex_digit(n as int),
{
    if n < 10 {
        (48 + n) as char
    } else {
        (87 + n) as char
    }
}

/// The lowercase hexadecimal notation of some bytes.
pub fn hex(bytes: &[u8]) -> (r: String)
    ensures
        r@ == hex_text(bytes@),
{
    let mut out = String::new();
    let mut i: usize = 0;
    while i < bytes.len()
        invariant
            i <= bytes@.len(),
            out@ == hex_text(bytes@.take(i as int)),
        decreases bytes@.len() - i,
    {
        let b: u8 = bytes[i];
        out.push(digit_char(b / 16));
        out.push(digit_char(b % 16));
        i = i + 1;
        proof {
            assert(out@ =~= hex_text(bytes@.take(i as int)));
        }
    }
    proof {
        assert(bytes@.take(i as int) =~= bytes@);
    }
    out
}

pub(crate) fn digit_of(c: u8) -> (r: Option<u8>)
    ensures
        match r {
            Some(d) => digit_value(c as int) == Some(d as int) && d < 16,
            None => digit_value(c as int) is None,
        },
{
    if 48 <= c && c <= 57 {
        Some(c - 48)
    } else if 97 <= c && c <= 102 {
        Some(c - 87)
    } else if 65 <= c && c <= 70 {
        Some(c - 55)
    } else {
        None
    }
}

/// The bytes that hexadecimal notation of either case stands for; `None` for
/// anything else.
pub fn unhex(s: &str) -> (r: Option<Vec<u8>>)
    ensures
        match r {
            Some(v) => is_hex(text::utf8(s@)) && v@ == unhex_bytes(text::utf8(s@)),
            None => !is_hex(text::utf8(s@)),
        },
{
    let b = s.as_bytes();
    if b.len() % 2 != 0 {
        return None;
    }
    let mut out: Vec<u8> = Vec::new();
    let mut i: usize = 0;
    while i < b.len()
        invariant
            b@ == text::utf8(s@),
            i <= b@.len(),
            b@.len() % 2 == 0,
            i % 2 == 0,
            out@ == unhex_bytes(b@.take(i as int)),
            forall|k: int| 0 <= k < i ==> digit_value(#[trigger] b@[k] as int) is Some,
        decreases b@.len() - i,
    {
        let hi: u8 = match digit_of(b[i]) {
            Some(d) => d,
            None => {
                return None;
            },
        };
        let lo: u8 = match digit_of(b[i + 1]) {
            Some(d) => d,
            None => {
                return None;
            },
        };
        out.push(hi * 16 + lo);
        i = i + 2;
        proof {
            assert(out@ =~= unhex_bytes(b@.take(i as int)));
        }
    }
    proof {
        assert(b@.take(i as int) =~= b@);
    }
    Some(out)
}

/// The UTF-8 bytes of the notation, digit by digit.
pub proof fn lemma_hex_bytes(bytes: Seq<u8>)
    ensures
        text::utf8(hex_text(bytes)).len() == 2 * bytes.len(),
        forall|i: int|
            0 <= i < bytes.len() ==> {
                &&& digit_value(#[trigger] text::utf8(hex_text(bytes))[2 * i] as int) == Some(
                    bytes[i] as int / 16,
                )
                &&& digit_value(text::utf8(hex_text(bytes))[2 * i + 1] as int) == Some(
                    bytes[i] as int % 16,
                )
            },
{
    let t = hex_text(bytes);
    assert(vstd::utf8::is_ascii_chars(t)) by {
        assert forall|i: int| 0 <= i < t.len() implies 0 <= t[i] as nat && (t[i] as nat) < 128 by {
            assert(t[i] == hex_text(bytes)[i]);
        }
    }
    vstd::utf8::is_ascii_chars_encode_utf8(t);
    let b = text::utf8(t);
    assert forall|i: int| 0 <= i < bytes.len() implies {
        &&& digit_value(#[trigger] b[2 * i] as int) == Some(bytes[i] as int / 16)
        &&& digit_value(b[2 * i + 1] as int) == Some(bytes[i] as int % 16)
    } by {
        assert((2 * i) / 2 == i && (2 * i + 1) / 2 == i);
        assert(b[2 * i] == t[2 * i] as u8);
        assert(b[2 * i + 1] == t[2 * i + 1] as u8);
    }
}

/// The UTF-8 bytes of the notation are lowercase digits.
pub proof fn lemma_hex_lower(bytes: Seq<u8>)
    ensures
        text::utf8(hex_text(bytes)).len() == 2 * bytes.len(),
        forall|i: int|
            0 <= i < 2 * bytes.len() ==> 48 <= (#[trigger] text::utf8(hex_text(bytes))[i]) <= 57
                || 97 <= text::utf8(hex_text(bytes))[i] <= 102,
{
    let t = hex_text(bytes);
    assert(vstd::utf8::is_ascii_chars(t)) by {
        assert forall|i: int| 0 <= i < t.len() implies 0 <= t[i] as nat && (t[i] as nat) < 128 by {
            assert(t[i] == hex_text(bytes)[i]);
        }
    }
    vstd::utf8::is_ascii_chars_encode_utf8(t);
    let b = text::utf8(t);
    assert forall|i: int| 0 <= i < 2 * bytes.len() implies 48 <= (#[trigger] b[i]) <= 57
        || 97 <= b[i]
        <= 102 by {
        assert(b[i] == t[i] as u8);
        let n = bytes[i / 2] as int;
        assert(0 <= n / 16 < 16 && 0 <= n % 16 < 16);
    }
}

/// Reading back the notation of some bytes gives those bytes.
pub proof fn law_unhex_undoes_hex(bytes: Seq<u8>)
    ensures
        is_hex(text::utf8(hex_text(bytes))),
        unhex_bytes(text::utf8(hex_text(bytes))) == bytes,
{
    lemma_hex_bytes(bytes);
    let b = text::utf8(hex_text(bytes));
    assert forall|i: int| 0 <= i < b.len() implies digit_value(#[trigger] b[i] as int) is Some by {
        let h = i / 2;
        assert(i == 2 * h || i == 2 * h + 1);
        assert(digit_value(b[2 * h] as int) is Some);
    }
    assert(unhex_bytes(b) =~= bytes);
}

/// Notation in lower case.
pub open spec fn lowered(b: Seq<u8>) -> Seq<u8> {
    Seq::new(
        b.len(),
        |i: int|
            if 65 <= b[i] <= 90 {
                (b[i] + 32) as u8
            } else {
                b[i]
            },
    )
}

/// Writing the bytes that some notation stands for gives the notation back in
/// lower case.
pub proof fn law_hex_undoes_unhex(b: Seq<u8>)
    requires
        is_hex(b),
    ensures
        text::utf8(hex_text(unhex_bytes(b))) == lowered(b),
{
    let bytes = unhex_bytes(b);
    let t = hex_text(bytes);
    lemma_hex_bytes(bytes);
    lemma_hex_lower(bytes);
    let c = text::utf8(t);
    assert forall|i: int| 0 <= i < b.len() implies c[i] == lowered(b)[i] by {
        let h = i / 2;
        assert(i == 2 * h || i == 2 * h + 1);
        let hi = digit_value(b[2 * h] as int)->0;
        let lo = digit_value(b[2 * h + 1] as int)->0;
        assert(digit_value(b[2 * h] as int) is Some && digit_value(b[2 * h + 1] as int) is Some);
        assert(bytes[h] as int == hi * 16 + lo);
        assert(bytes[h] as int / 16 == hi && bytes[h] as int % 16 == lo);
        assert(digit_value(c[2 * h] as int) == Some(hi));
        assert(digit_value(c[2 * h + 1] as int) == Some(lo));
        assert(48 <= c[i] <= 57 || 97 <= c[i] <= 102);
    }
    assert(c =~= lowered(b));
}

/// What is made of 32 random bytes: a credential, its stored digest and the
/// prefix that may be shown.
pub fn capability_of(bytes: &[u8; 32]) -> (r: (String, [u8; 32], String))
    ensures
        r.0@ == base64url(bytes@),
        r.1@ == sha256_digest(text::utf8(base64url(bytes@))),
        r.2@ == hex_text(r.1@.take(4)),
{
    let token = base64url_encode(bytes.as_slice());
    let digest = token_digest(&token);
    let head = vstd::slice::slice_subrange(digest.as_slice(), 0, 4);
    let prefix = hex(head);
    proof {
        assert(digest@.subrange(0, 4) =~= digest@.take(4));
    }
    (token, digest, prefix)
}

/// A fresh 256-bit capability credential with its digest and display prefix;
/// only the digest and the prefix are kept.
pub fn generate_capability() -> (r: Result<(String, [u8; 32], String), VaultError>)
    ensures
        match r {
            Ok((token, digest, prefix)) => {
                &&& exists|b: Seq<u8>| b.len() == 32 && token@ == #[trigger] base64url(b)
                &&& digest@ == sha256_digest(text::utf8(token@))
                &&& prefix@ == hex_text(digest@.take(4))
            },
            Err(e) => is_csprng_failure(e@),
        },
{
    match random_bytes::<32>() {
        Ok(bytes) => Ok(capability_of(&bytes)),
        Err(e) => Err(e),
    }
}

/// A fresh one-time agent token.
pub fn generate_agent_token() -> (r: Result<(String, [u8; 32], String), VaultError>)
    ensures
        match r {
            Ok((token, digest, prefix)) => {
                &&& exists|b: Seq<u8>| b.len() == 32 && token@ == #[trigger] base64url(b)
                &&& digest@ == sha256_digest(text::utf8(token@))
                &&& prefix@ == hex_text(digest@.take(4))
            },
            Err(e) => is_csprng_failure(e@),
        },
{
    generate_capability()
}

/// The Argon2id key of a passphrase, or the text of the refusal.
pub uninterp spec fn argon2id_output(
    passphrase: Seq<u8>,
    m_kib: u32,
    t: u32,
    p: u32,
    salt: Seq<u8>,
) -> Result<Seq<u8>, Seq<char>>;

/// The cost parameters that Argon2 accepts.
pub open spec fn argon2_params_ok(m_kib: u32, t: u32, p: u32) -> bool {
    m_kib >= 8 && m_kib >= 8 * p && t >= 1 && 1 <= p <= 0xFF_FFFF
}

/// The inputs that Argon2 accepts.
pub open spec fn argon2_inputs_ok(passphrase: Seq<u8>, salt: Seq<u8>) -> bool {
    passphrase.len() <= 0xFFFF_FFFF && 8 <= salt.len() <= 0xFFFF_FFFF
}

/// `argon2::Params::new` and `argon2::Argon2::hash_password_into`, with
/// Argon2id version 0x13 and 32 bytes of output. The key, or the text of the
/// error, is a function of the arguments. There is a key exactly when the cost
/// parameters and the inputs are accepted; the flag of an error tells whether
/// the parameters were refused. `8 * p` must fit a `u32`, because `Params::new`
/// multiplies without a check.
#[verifier::external_body]
fn argon2id(passphrase: &[u8], m_kib: u32, t: u32, p: u32, salt: &[u8]) -> (r: Result<
    [u8; 32],
    (bool, String),
>)
    requires
        8 * p <= u32::MAX,
    ensures
        match r {
            Ok(k) => {
                &&& argon2_params_ok(m_kib, t, p) && argon2_inputs_ok(passphrase@, salt@)
                &&& argon2id_output(passphrase@, m_kib, t, p, salt@) == Ok::<Seq<u8>, Seq<char>>(k@)
            },
            Err((bad_params, why)) => {
                &&& bad_params == !argon2_params_ok(m_kib, t, p)
                &&& !bad_params ==> !argon2_inputs_ok(passphrase@, salt@)
                &&& argon2id_output(passphrase@, m_kib, t, p, salt@) == Err::<Seq<u8>, Seq<char>>(
                    why@,
                )
            },
        },
{
    let mut out = [0u8; 32];
    match argon2::Params::new(m_kib, t, p, Some(32)) {
        Err(e) => Err((true, e.to_string())),
        Ok(params) => match argon2::Argon2::new(
            argon2::Algorithm::Argon2id,
            argon2::Version::V0x13,
            params,
        ).hash_password_into(passphrase, salt, &mut out) {
            Ok(()) => Ok(out),
            Err(e) => Err((false, e.to_string())),
        },
    }
}

/// What a key derivation gives: the bytes of the key, or the error.
pub open spec fn derived(
    passphrase: Seq<u8>,
    m_kib: u32,
    t: u32,
    p: u32,
    salt: Seq<u8>,
) -> Result<Seq<u8>, Fault> {
    match argon2id_output(passphrase, m_kib, t, p, salt) {
        Ok(k) => Ok(k),
        Err(why) => Err(
            Fault::Protocol(
                (if argon2_params_ok(m_kib, t, p) {
                    "kdf failure: "@
                } else {
                    "invalid kdf params: "@
                }) + why,
            ),
        ),
    }
}

/// Derives a key from a passphrase with Argon2id.
pub fn derive_kek(passphrase: &[u8], m_kib: u32, t: u32, p: u32, salt: &[u8]) -> (r: Result<
    SecretKey,
    VaultError,
>)
    requires
        8 * p <= u32::MAX,
    ensures
        r is Ok <==> argon2_params_ok(m_kib, t, p) && argon2_inputs_ok(passphrase@, salt@),
        match r {
            Ok(k) => derived(
                passphrase@,
                m_kib,
                t,
                p,
                salt@,
            ) == Ok::<Seq<u8>, Fault>(k@) && k@.len()
                == KEY_LEN,
            Err(e) => derived(passphrase@, m_kib, t, p, salt@) == Err::<Seq<u8>, Fault>(e@),
        },
{
    match argon2id(passphrase, m_kib, t, p, salt) {
        Ok(k) => Ok(SecretKey::from_bytes(k)),
        Err((bad_params, why)) => if bad_params {
            Err(VaultError::Protocol(joined("invalid kdf params: ", &why)))
        } else {
            Err(VaultError::Protocol(joined("kdf failure: ", &why)))
        },
    }
}

/// The XChaCha20-Poly1305 ciphertext, its tag at the end.
pub uninterp spec fn aead_sealed(
    key: Seq<u8>,
    nonce: Seq<u8>,
    plaintext: Seq<u8>,
    aad: Seq<u8>,
) -> Seq<u8>;

/// What XChaCha20-Poly1305 makes of a ciphertext: the plaintext, or nothing
/// where the tag does not match.
pub uninterp spec fn aead_opened(
    key: Seq<u8>,
    nonce: Seq<u8>,
    ciphertext: Seq<u8>,
    aad: Seq<u8>,
) -> Option<Seq<u8>>;

/// The longest plaintext that the cipher takes: its block counter has 32 bits,
/// the first block makes the key of the tag, and the last one is never used.
pub open spec fn aead_fits(len: nat) -> bool {
    len <= 64 * 0xFFFF_FFFE
}

/// Whether a ciphertext is short enough to hold a message that the cipher takes.
pub open spec fn openable(len: nat) -> bool {
    len <= 64 * 0xFFFF_FFFE + TAG_LEN
}

/// The message that a ciphertext holds. One that is longer than any that was
/// ever sealed holds none.
pub open spec fn opened(
    key: Seq<u8>,
    nonce: Seq<u8>,
    ciphertext: Seq<u8>,
    aad: Seq<u8>,
) -> Option<Seq<u8>> {
    if openable(ciphertext.len()) {
        aead_opened(key, nonce, ciphertext, aad)
    } else {
        None
    }
}

/// `chacha20poly1305::XChaCha20Poly1305::encrypt`: a function of the key, the
/// nonce, the message and the associated data. The ciphertext is longer than
/// the message by the tag, and `decrypt` with the same key, nonce and
/// associated data gives the message back. A longer message is an error or
/// exhausts the keystream.
#[verifier::external_body]
fn xchacha_encrypt(
    key: &[u8; KEY_LEN],
    nonce: &[u8; NONCE_LEN],
    plaintext: &[u8],
    aad: &[u8],
) -> (r: Vec<u8>)
    requires
        aead_fits(plaintext@.len()),
    ensures
        r@ == aead_sealed(key@, nonce@, plaintext@, aad@),
        r@.len() == plaintext@.len() + TAG_LEN,
        aead_opened(key@, nonce@, r@, aad@) == Some(plaintext@),
{
    chacha20poly1305::XChaCha20Poly1305::new(key.into()).encrypt(
        nonce.into(),
        chacha20poly1305::aead::Payload { msg: plaintext, aad },
    ).expect("the message is within the limit")
}

/// `chacha20poly1305::XChaCha20Poly1305::decrypt`: a function of the key, the
/// nonce, the ciphertext and the associated data. The message is shorter than
/// the ciphertext by the tag. A longer ciphertext could exhaust the keystream.
#[verifier::external_body]
fn xchacha_decrypt(
    key: &[u8; KEY_LEN],
    nonce: &[u8; NONCE_LEN],
    ciphertext: &[u8],
    aad: &[u8],
) -> (r: Option<Vec<u8>>)
    requires
        openable(ciphertext@.len()),
    ensures
        match r {
            Some(m) => {
                &&& aead_opened(key@, nonce@, ciphertext@, aad@) == Some(m@)
                &&& m@.len() + TAG_LEN == ciphertext@.len()
            },
            None => aead_opened(key@, nonce@, ciphertext@, aad@) is None,
        },
{
    chacha20poly1305::XChaCha20Poly1305::new(key.into()).decrypt(
        nonce.into(),
        chacha20poly1305::aead::Payload { msg: ciphertext, aad },
    ).ok()
}

/// Authenticated encryption with associated data.
pub fn seal(
    key: &[u8; KEY_LEN],
    nonce: &[u8; NONCE_LEN],
    plaintext: &[u8],
    aad: &[u8],
) -> (r: Vec<u8>)
    requires
        aead_fits(plaintext@.len()),
    ensures
        r@ == aead_sealed(key@, nonce@, plaintext@, aad@),
        r@.len() == plaintext@.len() + TAG_LEN,
        opened(key@, nonce@, r@, aad@) == Some(plaintext@),
{
    xchacha_encrypt(key, nonce, plaintext, aad)
}

/// An authentication failure of the cipher. It carries no detail on purpose.
#[derive(Debug)]
pub struct AeadMismatch;

/// Authenticated decryption: any mismatch is the one opaque failure.
pub fn open(
    key: &[u8; KEY_LEN],
    nonce: &[u8; NONCE_LEN],
    ciphertext: &[u8],
    aad: &[u8],
) -> (r: Result<Vec<u8>, AeadMismatch>)
    ensures
        match r {
            Ok(m) => {
                &&& opened(key@, nonce@, ciphertext@, aad@) == Some(m@)
                &&& m@.len() + TAG_LEN == ciphertext@.len()
            },
            Err(_) => opened(key@, nonce@, ciphertext@, aad@) is None,
        },
{
    if ciphertext.len() as u64 > 64 * 0xFFFF_FFFEu64 + TAG_LEN as u64 {
        return Err(AeadMismatch);
    }
    match xchacha_decrypt(key, nonce, ciphertext, aad) {
        Some(m) => Ok(m),
        None => Err(AeadMismatch),
    }
}

} // verus!
