//! The versioned vault envelope: a header with the key slots and the wrapped
//! document key, and the encrypted document, which is bound to the header.
//!
//! File layout: `SVAULT` · version (u32, little endian) · header length (u32,
//! little endian) · header JSON · 24-byte document nonce · document ciphertext
//! with its 16-byte tag.
//!
//! A slot that does not open is an authentication failure, since a wrong
//! passphrase and a tampered slot cannot be told apart. What fails after a
//! slot has opened is a corruption.

use vstd::prelude::*;

use crate::crypto::{self, KEY_LEN, NONCE_LEN, SALT_LEN, TAG_LEN};
use crate::error::{Fault, VaultError};
use crate::json;
use crate::text;

pub mod header_laws;
pub mod laws;
pub mod unlock;
pub mod unlock_laws;

pub use unlock::{DerivedKeks, KekRecipe, Keys, Seed};

verus! {

pub const VERSION: u32 = 1;

/// Bounds on the cost parameters of a header. A header can be written by
/// anyone, so both ends are enforced before a key is derived.
pub const MIN_M_KIB: u32 = 19456;

pub const MIN_T: u32 = 2;

pub const MAX_M_KIB: u32 = 262_144;

pub const MAX_T: u32 = 10;

pub const MAX_P: u32 = 8;

/// Most key slots of a vault; every one costs a derivation per attempt.
pub const MAX_SLOTS: usize = 8;

/// Longest header.
pub const MAX_HEADER_LEN: usize = 1_048_576;

/// Longest file.
pub const MAX_FILE_LEN: usize = 16_777_216;

/// Length of what precedes the header.
pub const PREFIX_LEN: usize = 14;

/// The magic at the start of a file.
pub open spec fn magic() -> Seq<u8> {
    seq![83u8, 86u8, 65u8, 85u8, 76u8, 84u8]
}

/// Bytes that the header writes in base64. They live in a
/// `zeroize::Zeroizing` buffer, which wipes them when it is dropped.
#[verifier::external_body]
pub struct B64 {
    bytes: zeroize::Zeroizing<Vec<u8>>,
}

/// The bytes that a wiped buffer holds.
pub uninterp spec fn b64_bytes(b: B64) -> Seq<u8>;

impl View for B64 {
    type V = Seq<u8>;

    open spec fn view(&self) -> Seq<u8> {
        b64_bytes(*self)
    }
}

impl B64 {
    /// `zeroize::Zeroizing::new`: the buffer holds the given bytes.
    #[verifier::external_body]
    pub fn new(bytes: Vec<u8>) -> (r: B64)
        ensures
            b64_bytes(r) == bytes@,
    {
        B64 { bytes: zeroize::Zeroizing::new(bytes) }
    }

    /// `zeroize::Zeroizing::deref`: the bytes that the buffer holds.
    #[verifier::external_body]
    pub fn as_slice(&self) -> (r: &[u8])
        ensures
            r@ == b64_bytes(*self),
    {
        self.bytes.as_slice()
    }

    /// The bytes that the header wrote as `text`, or `None` where `text` is no
    /// base64.
    pub fn from_base64(text: &str) -> (r: Option<B64>)
        ensures
            match r {
                Some(b) => crypto::base64_standard(b@) == text@,
                None => forall|data: Seq<u8>| #[trigger]
                    crypto::base64_standard(data) != text@,
            },
            forall|data: Seq<u8>| #[trigger]
                crypto::base64_standard(data) == text@ ==> (r matches Some(b) && b@ == data),
    {
        match crypto::base64_decode(text) {
            Some(bytes) => {
                proof {
                    assert forall|data: Seq<u8>| #[trigger]
                        crypto::base64_standard(data) == text@ implies data == bytes@ by {
                        crypto::law_base64_is_unambiguous(data, bytes@);
                    }
                }
                Some(B64::new(bytes))
            },
            None => None,
        }
    }
}

/// The type of a key slot. An unknown type is kept as it is, so that a reader
/// never destroys what it does not understand.
#[derive(Clone, Debug, PartialEq, Eq)]
pub enum SlotType {
    Passphrase,
    Backup,
    Keychain,
    Sync,
    Other(String),
}

/// The name of a slot type.
pub open spec fn slot_type_name(t: SlotType) -> Seq<char> {
    match t {
        SlotType::Passphrase => "passphrase"@,
        SlotType::Backup => "backup"@,
        SlotType::Keychain => "keychain"@,
        SlotType::Sync => "sync"@,
        SlotType::Other(s) => s@,
    }
}

impl SlotType {
    /// The slot type with a name; a name without a meaning is kept.
    pub fn from_name(s: String) -> (r: SlotType)
        ensures
            match r {
                SlotType::Passphrase => s@ == "passphrase"@,
                SlotType::Backup => s@ == "backup"@,
                SlotType::Keychain => s@ == "keychain"@,
                SlotType::Sync => s@ == "sync"@,
                SlotType::Other(o) => o@ == s@ && s@ != "passphrase"@ && s@ != "backup"@ && s@
                    != "keychain"@ && s@ != "sync"@,
            },
            slot_type_name(r) == s@,
    {
        if text::same(&s, "passphrase") {
            SlotType::Passphrase
        } else if text::same(&s, "backup") {
            SlotType::Backup
        } else if text::same(&s, "keychain") {
            SlotType::Keychain
        } else if text::same(&s, "sync") {
            SlotType::Sync
        } else {
            SlotType::Other(s)
        }
    }

    /// The name of the slot type.
    pub fn name(&self) -> (r: String)
        ensures
            r@ == slot_type_name(*self),
    {
        match self {
            SlotType::Passphrase => "passphrase".to_string(),
            SlotType::Backup => "backup".to_string(),
            SlotType::Keychain => "keychain".to_string(),
            SlotType::Sync => "sync".to_string(),
            SlotType::Other(s) => s.clone(),
        }
    }
}

/// The cost parameters of a key derivation.
#[derive(Debug, PartialEq, Eq)]
pub struct KdfParams {
    pub algo: String,
    /// Memory cost in KiB.
    pub m_kib: u32,
    pub t: u32,
    pub p: u32,
}

/// The mathematical value of [`KdfParams`].
pub struct KdfV {
    pub algo: Seq<char>,
    pub m_kib: u32,
    pub t: u32,
    pub p: u32,
}

impl View for KdfParams {
    type V = KdfV;

    open spec fn view(&self) -> KdfV {
        KdfV { algo: self.algo@, m_kib: self.m_kib, t: self.t, p: self.p }
    }
}

/// Whether cost parameters are within the accepted bounds.
pub open spec fn kdf_accepted(k: KdfV) -> bool {
    k.algo == "argon2id"@ && MIN_M_KIB <= k.m_kib <= MAX_M_KIB && MIN_T <= k.t <= MAX_T && 1 <= k.p
        <= MAX_P
}

impl KdfParams {
    /// 64 MiB, 3 passes, 4 lanes.
    pub fn argon2id_defaults() -> (r: KdfParams)
        ensures
            r@ == (KdfV { algo: "argon2id"@, m_kib: 65536, t: 3, p: 4 }),
            kdf_accepted(r@),
    {
        KdfParams { algo: "argon2id".to_string(), m_kib: 65536, t: 3, p: 4 }
    }

    /// Refuses cost parameters outside the bounds.
    pub fn validate(&self) -> (r: Result<(), VaultError>)
        ensures
            match r {
                Ok(_) => kdf_accepted(self@),
                Err(e) => !kdf_accepted(self@) && e@ == Fault::InsecureParams,
            },
    {
        if !text::same(&self.algo, "argon2id") || self.m_kib < MIN_M_KIB || self.m_kib > MAX_M_KIB
            || self.t < MIN_T || self.t > MAX_T || self.p < 1 || self.p > MAX_P {
            return Err(VaultError::InsecureParams);
        }
        Ok(())
    }
}

/// A key slot: the master key, wrapped under a derived key.
pub struct Slot {
    pub id: String,
    pub kind: SlotType,
    pub kdf: KdfParams,
    pub salt: B64,
    pub nonce: B64,
    pub wrapped_mek: B64,
}

/// What a reader knows of a slot's type.
pub enum KindV {
    Passphrase,
    Backup,
    Keychain,
    Sync,
    Other(Seq<char>),
}

/// The mathematical value of a [`Slot`].
pub struct SlotV {
    pub id: Seq<char>,
    pub kind: KindV,
    pub kdf: KdfV,
    pub salt: Seq<u8>,
    pub nonce: Seq<u8>,
    pub wrapped_mek: Seq<u8>,
}

impl View for SlotType {
    type V = KindV;

    open spec fn view(&self) -> KindV {
        match self {
            SlotType::Passphrase => KindV::Passphrase,
            SlotType::Backup => KindV::Backup,
            SlotType::Keychain => KindV::Keychain,
            SlotType::Sync => KindV::Sync,
            SlotType::Other(s) => KindV::Other(s@),
        }
    }
}

impl View for Slot {
    type V = SlotV;

    open spec fn view(&self) -> SlotV {
        SlotV {
            id: self.id@,
            kind: self.kind@,
            kdf: self.kdf@,
            salt: self.salt@,
            nonce: self.nonce@,
            wrapped_mek: self.wrapped_mek@,
        }
    }
}

/// The document key, wrapped under the master key.
pub struct WrappedKey {
    pub nonce: B64,
    pub wrapped: B64,
}

/// The header of an envelope. The time of creation is held as its RFC 3339
/// text.
pub struct Header {
    pub created_at: String,
    pub slots: Vec<Slot>,
    pub dek: WrappedKey,
}

/// The mathematical value of a [`Header`].
pub struct HeaderV {
    pub created_at: Seq<char>,
    pub slots: Seq<SlotV>,
    pub dek_nonce: Seq<u8>,
    pub dek_wrapped: Seq<u8>,
}

/// The values of some slots.
pub open spec fn slot_values(slots: Seq<Slot>) -> Seq<SlotV> {
    Seq::new(slots.len(), |i: int| slots[i]@)
}

impl View for Header {
    type V = HeaderV;

    open spec fn view(&self) -> HeaderV {
        HeaderV {
            created_at: self.created_at@,
            slots: slot_values(self.slots@),
            dek_nonce: self.dek.nonce@,
            dek_wrapped: self.dek.wrapped@,
        }
    }
}

/// An envelope.
pub struct Envelope {
    pub header: Header,
    doc_nonce: [u8; NONCE_LEN],
    doc_ct: Vec<u8>,
}

/// The mathematical value of an [`Envelope`].
pub struct EnvelopeV {
    pub header: HeaderV,
    pub doc_nonce: Seq<u8>,
    pub doc_ct: Seq<u8>,
}

impl View for Envelope {
    type V = EnvelopeV;

    closed spec fn view(&self) -> EnvelopeV {
        EnvelopeV { header: self.header@, doc_nonce: self.doc_nonce@, doc_ct: self.doc_ct@ }
    }
}

/// The document of every envelope has a nonce of the right length.
pub proof fn law_document_nonces_have_their_length(e: Envelope)
    ensures
        e@.doc_nonce.len() == NONCE_LEN,
{
}

// ------------------------------------------------------------ header JSON
pub open spec fn kind_name(k: KindV) -> Seq<char> {
    match k {
        KindV::Passphrase => "passphrase"@,
        KindV::Backup => "backup"@,
        KindV::Keychain => "keychain"@,
        KindV::Sync => "sync"@,
        KindV::Other(s) => s,
    }
}

/// A byte string as the header writes it.
pub open spec fn blob_text(b: Seq<u8>) -> Seq<char> {
    json::json_quoted(crypto::base64_standard(b))
}

/// The JSON of a slot.
pub open spec fn slot_text(s: SlotV) -> Seq<char> {
    "{\"id\":"@ + json::json_quoted(s.id) + ",\"type\":"@ + json::json_quoted(kind_name(s.kind))
        + ",\"kdf\":{\"algo\":"@ + json::json_quoted(s.kdf.algo) + ",\"m_kib\":"@
        + text::decimal_text(s.kdf.m_kib as nat) + ",\"t\":"@ + text::decimal_text(s.kdf.t as nat)
        + ",\"p\":"@ + text::decimal_text(s.kdf.p as nat) + "},\"salt\":"@ + blob_text(s.salt)
        + ",\"nonce\":"@ + blob_text(s.nonce) + ",\"wrapped_mek\":"@ + blob_text(s.wrapped_mek)
        + "}"@
}

/// The JSON of some slots, separated by commas.
pub open spec fn slots_text(slots: Seq<SlotV>) -> Seq<char>
    decreases slots.len(),
{
    if slots.len() == 0 {
        Seq::empty()
    } else if slots.len() == 1 {
        slot_text(slots[0])
    } else {
        slots_text(slots.drop_last()) + ","@ + slot_text(slots.last())
    }
}

/// The canonical JSON of a header.
pub open spec fn header_text(h: HeaderV) -> Seq<char> {
    "{\"created_at\":"@ + json::json_quoted(h.created_at) + ",\"slots\":["@ + slots_text(h.slots)
        + "],\"dek\":{\"nonce\":"@ + blob_text(h.dek_nonce) + ",\"wrapped\":"@ + blob_text(
        h.dek_wrapped,
    ) + "}}"@
}

/// The canonical bytes of a header: what the document is bound to.
pub open spec fn header_bytes(h: HeaderV) -> Seq<u8> {
    text::utf8(header_text(h))
}

fn push_blob(out: &mut String, b: &B64)
    ensures
        final(out)@ == old(out)@ + blob_text(b@),
{
    out.push_str(&json::quoted(&crypto::base64_encode(b.as_slice())));
}

fn slot_json(s: &Slot) -> (out: String)
    ensures
        out@ == slot_text(s@),
{
    let mut out = "{\"id\":".to_string();
    out.push_str(&json::quoted(&s.id));
    out.push_str(",\"type\":");
    out.push_str(&json::quoted(&s.kind.name()));
    out.push_str(",\"kdf\":{\"algo\":");
    out.push_str(&json::quoted(&s.kdf.algo));
    out.push_str(",\"m_kib\":");
    out.push_str(&text::decimal(s.kdf.m_kib as u64));
    out.push_str(",\"t\":");
    out.push_str(&text::decimal(s.kdf.t as u64));
    out.push_str(",\"p\":");
    out.push_str(&text::decimal(s.kdf.p as u64));
    out.push_str("},\"salt\":");
    push_blob(&mut out, &s.salt);
    out.push_str(",\"nonce\":");
    push_blob(&mut out, &s.nonce);
    out.push_str(",\"wrapped_mek\":");
    push_blob(&mut out, &s.wrapped_mek);
    out.push_str("}");
    out
}

fn slots_json(slots: &Vec<Slot>) -> (out: String)
    ensures
        out@ == slots_text(slot_values(slots@)),
{
    let ghost all = slot_values(slots@);
    let mut out = String::new();
    let mut i: usize = 0;
    while i < slots.len()
        invariant
            i <= slots@.len(),
            all == slot_values(slots@),
            out@ == slots_text(all.take(i as int)),
        decreases slots@.len() - i,
    {
        proof {
            assert(all.take(i + 1).drop_last() =~= all.take(i as int));
            assert(all.take(i + 1).last() == slots@[i as int]@);
            assert(all.take(i + 1)[i as int] == slots@[i as int]@);
        }
        if i > 0 {
            out.push_str(",");
        }
        out.push_str(&slot_json(&slots[i]));
        i = i + 1;
        proof {
            if i == 1 {
                assert(out@ =~= slot_text(all[0]));
            }
        }
    }
    proof {
        assert(all.take(i as int) =~= all);
    }
    out
}

/// The canonical bytes of a header.
pub fn canonical_header(header: &Header) -> (r: Vec<u8>)
    ensures
        r@ == header_bytes(header@),
{
    let mut out = "{\"created_at\":".to_string();
    out.push_str(&json::quoted(&header.created_at));
    out.push_str(",\"slots\":[");
    out.push_str(&slots_json(&header.slots));
    out.push_str("],\"dek\":{\"nonce\":");
    push_blob(&mut out, &header.dek.nonce);
    out.push_str(",\"wrapped\":");
    push_blob(&mut out, &header.dek.wrapped);
    out.push_str("}}");
    vstd::slice::slice_to_vec(out.as_str().as_bytes())
}

// ------------------------------------------------------------ file layout
/// The little-endian bytes of the low 32 bits of a number.
pub open spec fn le32(n: nat) -> Seq<u8> {
    seq![
        (n % 256) as u8,
        (n / 256 % 256) as u8,
        (n / 65536 % 256) as u8,
        (n / 16777216 % 256) as u8,
    ]
}

/// The number that four little-endian bytes stand for.
pub open spec fn from_le32(b: Seq<u8>, at: int) -> nat {
    (b[at] + 256 * b[at + 1] + 65536 * b[at + 2] + 16777216 * b[at + 3]) as nat
}

/// The bytes of the file that holds an envelope.
pub open spec fn file_bytes(e: EnvelopeV) -> Seq<u8> {
    magic() + le32(VERSION as nat) + le32(header_bytes(e.header).len()) + header_bytes(e.header)
        + e.doc_nonce + e.doc_ct
}

/// The length of the header that a file declares, or why the file is refused
/// before its header is read.
pub open spec fn declared_header(b: Seq<u8>) -> Result<nat, Fault> {
    if b.len() < PREFIX_LEN + NONCE_LEN + TAG_LEN {
        Err(Fault::Corrupt("truncated file"@))
    } else if b.len() > MAX_FILE_LEN {
        Err(Fault::Corrupt("file exceeds maximum size"@))
    } else if b.take(6) != magic() {
        Err(Fault::Corrupt("bad magic"@))
    } else if from_le32(b, 6) != VERSION {
        Err(Fault::Corrupt("unsupported envelope version"@))
    } else if from_le32(b, 10) > MAX_HEADER_LEN {
        Err(Fault::Corrupt("header exceeds maximum size"@))
    } else if PREFIX_LEN + from_le32(b, 10) + NONCE_LEN + TAG_LEN > b.len() {
        Err(Fault::Corrupt("header length out of bounds"@))
    } else {
        Ok(from_le32(b, 10))
    }
}

/// Whether the fields of a slot have the right lengths. Only the slot types
/// that are understood are looked at.
pub open spec fn slot_lengths_ok(s: SlotV) -> bool {
    s.kind is Other || (s.salt.len() == SALT_LEN && s.nonce.len() == NONCE_LEN
        && s.wrapped_mek.len() == KEY_LEN + TAG_LEN)
}

/// Whether every slot has the right lengths.
pub open spec fn all_slots_ok(slots: Seq<SlotV>) -> bool {
    forall|i: int| 0 <= i < slots.len() ==> slot_lengths_ok(#[trigger] slots[i])
}

/// Why a decoded header is refused.
pub open spec fn header_fault(h: HeaderV) -> Option<Fault> {
    if h.slots.len() == 0 {
        Some(Fault::Corrupt("no key slots"@))
    } else if h.slots.len() > MAX_SLOTS {
        Some(Fault::Corrupt("too many key slots"@))
    } else if !all_slots_ok(h.slots) {
        Some(Fault::Corrupt("invalid slot field lengths"@))
    } else if h.dek_nonce.len() != NONCE_LEN || h.dek_wrapped.len() != KEY_LEN + TAG_LEN {
        Some(Fault::Corrupt("invalid dek wrap field lengths"@))
    } else {
        None
    }
}

/// The envelope that a file holds, where `header` is what its header decodes
/// to, if anything.
pub open spec fn parsed(b: Seq<u8>, header: Option<HeaderV>) -> Result<EnvelopeV, Fault> {
    match declared_header(b) {
        Err(f) => Err(f),
        Ok(n) => match header {
            None => Err(Fault::Corrupt("invalid header"@)),
            Some(h) => match header_fault(h) {
                Some(f) => Err(f),
                None => Ok(
                    EnvelopeV {
                        header: h,
                        doc_nonce: b.subrange(PREFIX_LEN + n, PREFIX_LEN + n + NONCE_LEN),
                        doc_ct: b.skip(PREFIX_LEN + n + NONCE_LEN),
                    },
                ),
            },
        },
    }
}

/// The value of an optional header.
pub open spec fn opt_header(h: Option<Header>) -> Option<HeaderV> {
    match h {
        Some(x) => Some(x@),
        None => None,
    }
}

/// Why an envelope must not be written: the loader would refuse its sizes, its
/// header or its document.
pub open spec fn persist_fault(e: EnvelopeV) -> Option<Fault> {
    if header_bytes(e.header).len() > MAX_HEADER_LEN || PREFIX_LEN + header_bytes(e.header).len()
        + NONCE_LEN + e.doc_ct.len() > MAX_FILE_LEN {
        Some(Fault::VaultTooLarge)
    } else if e.doc_ct.len() < TAG_LEN {
        Some(Fault::Corrupt("truncated document"@))
    } else {
        header_fault(e.header)
    }
}

/// Whether the loader would take an envelope back.
pub open spec fn persistable(e: EnvelopeV) -> bool {
    persist_fault(e) is None
}

fn read_le32(b: &[u8], at: usize) -> (r: u64)
    requires
        at + 4 <= b@.len(),
    ensures
        r == from_le32(b@, at as int),
        r < 4294967296,
{
    b[at] as u64 + 256 * b[at + 1] as u64 + 65536 * b[at + 2] as u64 + 16777216 * b[at + 3] as u64
}

fn push_le32(out: &mut Vec<u8>, n: u64)
    ensures
        final(out)@ == old(out)@ + le32(n as nat),
{
    out.push((n % 256) as u8);
    out.push((n / 256 % 256) as u8);
    out.push((n / 65536 % 256) as u8);
    out.push((n / 16777216 % 256) as u8);
    proof {
        assert(out@ =~= old(out)@ + le32(n as nat));
    }
}

/// The 24 bytes of a slice, if it has that many.
pub(crate) fn nonce_of(b: &[u8]) -> (r: Option<[u8; NONCE_LEN]>)
    ensures
        match r {
            Some(a) => a@ == b@,
            None => b@.len() != NONCE_LEN,
        },
{
    if b.len() != NONCE_LEN {
        return None;
    }
    let mut out: [u8; NONCE_LEN] = [0u8; 24];
    let mut i: usize = 0;
    while i < NONCE_LEN
        invariant
            b@.len() == NONCE_LEN,
            i <= NONCE_LEN,
            forall|k: int| 0 <= k < i ==> out@[k] == b@[k],
        decreases NONCE_LEN - i,
    {
        out[i] = b[i];
        i = i + 1;
    }
    proof {
        assert(out@ =~= b@);
    }
    Some(out)
}

/// The 32 bytes of a slice, if it has that many.
pub(crate) fn key_of(b: &[u8]) -> (r: Option<[u8; KEY_LEN]>)
    ensures
        match r {
            Some(a) => a@ == b@,
            None => b@.len() != KEY_LEN,
        },
{
    if b.len() != KEY_LEN {
        return None;
    }
    let mut out: [u8; KEY_LEN] = [0u8; 32];
    let mut i: usize = 0;
    while i < KEY_LEN
        invariant
            b@.len() == KEY_LEN,
            i <= KEY_LEN,
            forall|k: int| 0 <= k < i ==> out@[k] == b@[k],
        decreases KEY_LEN - i,
    {
        out[i] = b[i];
        i = i + 1;
    }
    proof {
        assert(out@ =~= b@);
    }
    Some(out)
}

/// The 16 bytes of a slice, if it has that many.
pub(crate) fn salt_of(b: &[u8]) -> (r: Option<[u8; SALT_LEN]>)
    ensures
        match r {
            Some(a) => a@ == b@,
            None => b@.len() != SALT_LEN,
        },
{
    if b.len() != SALT_LEN {
        return None;
    }
    let mut out: [u8; SALT_LEN] = [0u8; 16];
    let mut i: usize = 0;
    while i < SALT_LEN
        invariant
            b@.len() == SALT_LEN,
            i <= SALT_LEN,
            forall|k: int| 0 <= k < i ==> out@[k] == b@[k],
        decreases SALT_LEN - i,
    {
        out[i] = b[i];
        i = i + 1;
    }
    proof {
        assert(out@ =~= b@);
    }
    Some(out)
}

fn has_magic(b: &[u8]) -> (r: bool)
    requires
        b@.len() >= 6,
    ensures
        r == (b@.take(6) == magic()),
{
    let r = b[0] == 83 && b[1] == 86 && b[2] == 65 && b[3] == 85 && b[4] == 76 && b[5] == 84;
    proof {
        let head = b@.take(6);
        if r {
            assert(head =~= magic());
        } else {
            assert(head[0] == b@[0] && head[1] == b@[1] && head[2] == b@[2] && head[3] == b@[3]
                && head[4] == b@[4] && head[5] == b@[5]);
        }
    }
    r
}

fn corrupt(why: &str) -> (e: VaultError)
    ensures
        e@ == Fault::Corrupt(why@),
{
    VaultError::Corrupt(why.to_string())
}

fn slot_checked(s: &Slot) -> (r: bool)
    ensures
        r == slot_lengths_ok(s@),
{
    match s.kind {
        SlotType::Other(_) => true,
        _ => s.salt.as_slice().len() == SALT_LEN && s.nonce.as_slice().len() == NONCE_LEN
            && s.wrapped_mek.as_slice().len() == KEY_LEN + TAG_LEN,
    }
}

fn check_header(header: &Header) -> (r: Result<(), VaultError>)
    ensures
        match r {
            Ok(_) => header_fault(header@) is None,
            Err(e) => header_fault(header@) == Some(e@),
        },
{
    if header.slots.len() == 0 {
        return Err(corrupt("no key slots"));
    }
    if header.slots.len() > MAX_SLOTS {
        return Err(corrupt("too many key slots"));
    }
    let ghost all = header@.slots;
    let mut i: usize = 0;
    while i < header.slots.len()
        invariant
            i <= header.slots@.len(),
            0 < header.slots@.len() <= MAX_SLOTS,
            all == header@.slots,
            forall|k: int| 0 <= k < i ==> slot_lengths_ok(#[trigger] all[k]),
        decreases header.slots@.len() - i,
    {
        if !slot_checked(&header.slots[i]) {
            assert(!slot_lengths_ok(all[i as int]));
            return Err(corrupt("invalid slot field lengths"));
        }
        i = i + 1;
    }
    if header.dek.nonce.as_slice().len() != NONCE_LEN || header.dek.wrapped.as_slice().len()
        != KEY_LEN + TAG_LEN {
        return Err(corrupt("invalid dek wrap field lengths"));
    }
    Ok(())
}

impl Envelope {
    /// The length of the header that a file declares; the header JSON starts
    /// at [`PREFIX_LEN`]. The file is refused on the structural caps before
    /// anything of it is decoded.
    pub fn header_len(bytes: &[u8]) -> (r: Result<usize, VaultError>)
        ensures
            match r {
                Ok(n) => declared_header(bytes@) == Ok::<nat, Fault>(n as nat) && PREFIX_LEN + n
                    + NONCE_LEN + TAG_LEN <= bytes@.len(),
                Err(e) => declared_header(bytes@) == Err::<nat, Fault>(e@),
            },
    {
        if bytes.len() < PREFIX_LEN + NONCE_LEN + TAG_LEN {
            return Err(corrupt("truncated file"));
        }
        if bytes.len() > MAX_FILE_LEN {
            return Err(corrupt("file exceeds maximum size"));
        }
        if !has_magic(bytes) {
            return Err(corrupt("bad magic"));
        }
        if read_le32(bytes, 6) != VERSION as u64 {
            return Err(corrupt("unsupported envelope version"));
        }
        let n: u64 = read_le32(bytes, 10);
        if n > MAX_HEADER_LEN as u64 {
            return Err(corrupt("header exceeds maximum size"));
        }
        let header_len: usize = n as usize;
        if header_len + NONCE_LEN + TAG_LEN > bytes.len() - PREFIX_LEN {
            return Err(corrupt("header length out of bounds"));
        }
        Ok(header_len)
    }

    /// Parses and validates an envelope from the bytes of a file, where
    /// `header` is what the header JSON decodes to, if anything.
    pub fn parse(bytes: &[u8], header: Option<Header>) -> (r: Result<Envelope, VaultError>)
        ensures
            match r {
                Ok(e) => parsed(bytes@, opt_header(header)) == Ok::<EnvelopeV, Fault>(e@),
                Err(e) => parsed(bytes@, opt_header(header)) == Err::<EnvelopeV, Fault>(e@),
            },
    {
        let header_len: usize = match Envelope::header_len(bytes) {
            Ok(n) => n,
            Err(e) => {
                return Err(e);
            },
        };
        let header = match header {
            Some(h) => h,
            None => {
                return Err(corrupt("invalid header"));
            },
        };
        match check_header(&header) {
            Ok(_) => {},
            Err(e) => {
                return Err(e);
            },
        }
        let at: usize = PREFIX_LEN + header_len;
        let nonce = vstd::slice::slice_subrange(bytes, at, at + NONCE_LEN);
        let rest = vstd::slice::slice_subrange(bytes, at + NONCE_LEN, bytes.len());
        match nonce_of(nonce) {
            Some(doc_nonce) => {
                let doc_ct = vstd::slice::slice_to_vec(rest);
                proof {
                    assert(bytes@.subrange(at + NONCE_LEN, bytes@.len() as int) =~= bytes@.skip(
                        at + NONCE_LEN,
                    ));
                }
                Ok(Envelope { header, doc_nonce, doc_ct })
            },
            None => Err(corrupt("truncated file")),
        }
    }

    /// The bytes of the file; the header is written in its canonical form.
    pub fn to_bytes(&self) -> (r: Vec<u8>)
        ensures
            r@ == file_bytes(self@),
    {
        let header = canonical_header(&self.header);
        let mut out: Vec<u8> = Vec::new();
        out.push(83);
        out.push(86);
        out.push(65);
        out.push(85);
        out.push(76);
        out.push(84);
        proof {
            assert(out@ =~= magic());
        }
        push_le32(&mut out, VERSION as u64);
        push_le32(&mut out, header.len() as u64);
        out.extend_from_slice(header.as_slice());
        out.extend_from_slice(self.doc_nonce.as_slice());
        out.extend_from_slice(self.doc_ct.as_slice());
        proof {
            assert(out@ =~= file_bytes(self@));
        }
        out
    }

    /// Checks that [`Envelope::parse`] would take the file back. A writer that
    /// skips this check could store a vault that can never be opened.
    pub fn validate_persistable(&self) -> (r: Result<(), VaultError>)
        ensures
            match r {
                Ok(_) => persistable(self@),
                Err(e) => persist_fault(self@) == Some(e@),
            },
    {
        let header_len: usize = canonical_header(&self.header).len();
        if header_len > MAX_HEADER_LEN {
            return Err(VaultError::VaultTooLarge);
        }
        let fixed: usize = PREFIX_LEN + header_len + NONCE_LEN;
        if self.doc_ct.len() > MAX_FILE_LEN || fixed + self.doc_ct.len() > MAX_FILE_LEN {
            return Err(VaultError::VaultTooLarge);
        }
        if self.doc_ct.len() < TAG_LEN {
            return Err(corrupt("truncated document"));
        }
        check_header(&self.header)
    }
}

/// What stands for a value stands for all of it, part by part.
pub proof fn law_the_view_of_kdf_params_is_faithful(x: KdfParams)
    ensures
        x@.algo == x.algo@,
        x@.m_kib == x.m_kib,
        x@.t == x.t,
        x@.p == x.p,
{
}

/// What stands for a value stands for all of it: the same variant, with every part.
pub proof fn law_the_view_of_slot_type_is_faithful(x: SlotType)
    ensures
        match (x, x@) {
            (SlotType::Passphrase, KindV::Passphrase) => true,
            (SlotType::Backup, KindV::Backup) => true,
            (SlotType::Keychain, KindV::Keychain) => true,
            (SlotType::Sync, KindV::Sync) => true,
            (SlotType::Other(s), KindV::Other(v0)) => v0 == s@,
            _ => false,
        },
{
}

/// What stands for a value stands for all of it, part by part.
pub proof fn law_the_view_of_slot_is_faithful(x: Slot)
    ensures
        x@.id == x.id@,
        x@.kind == x.kind@,
        x@.kdf == x.kdf@,
        x@.salt == x.salt@,
        x@.nonce == x.nonce@,
        x@.wrapped_mek == x.wrapped_mek@,
{
}

/// What stands for a value stands for all of it, part by part.
pub proof fn law_the_view_of_header_is_faithful(x: Header)
    ensures
        x@.created_at == x.created_at@,
        x@.slots == slot_values(x.slots@),
        x@.dek_nonce == x.dek.nonce@,
        x@.dek_wrapped == x.dek.wrapped@,
{
}

} // verus!
