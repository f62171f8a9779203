//! From a passphrase to the keys of a vault, and from the keys to its
//! document.
//!
//! The expensive derivation stands between two cheap steps: a recipe is read
//! from the header, the keys are derived from the recipe, and the derived keys
//! are applied to the slots. The recipe enforces the bounds on the cost
//! parameters before a single byte is derived.

use vstd::prelude::*;

use crate::crypto::{self, SecretKey, KEY_LEN, NONCE_LEN, SALT_LEN, TAG_LEN};
use crate::envelope::{
    self, Envelope, EnvelopeV, Header, HeaderV, KdfParams, KdfV, KindV, Slot, SlotType, SlotV,
    WrappedKey, B64,
};
use crate::error::{Fault, VaultError};
use crate::text;

verus! {

/// The keys of an unlocked vault.
pub struct Keys {
    pub mek: SecretKey,
    pub dek: SecretKey,
}

/// The mathematical value of [`Keys`].
pub struct KeysV {
    pub mek: Seq<u8>,
    pub dek: Seq<u8>,
}

impl View for Keys {
    type V = KeysV;

    open spec fn view(&self) -> KeysV {
        KeysV { mek: self.mek@, dek: self.dek@ }
    }
}

/// What a master key is bound to in the slot `id`.
pub open spec fn mek_binding(id: Seq<char>) -> Seq<u8> {
    text::utf8("svault/v1/mek:"@ + id)
}

/// What the document key is bound to.
pub open spec fn dek_binding() -> Seq<u8> {
    text::utf8("svault/v1/dek"@)
}

fn mek_aad(id: &str) -> (r: Vec<u8>)
    ensures
        r@ == mek_binding(id@),
{
    vstd::slice::slice_to_vec(text::joined("svault/v1/mek:", id).as_str().as_bytes())
}

/// What one passphrase slot demands: its place, the costs and the salt.
pub struct RecipeEntry {
    index: usize,
    m_kib: u32,
    t: u32,
    p: u32,
    salt: [u8; SALT_LEN],
}

/// The mathematical value of a [`RecipeEntry`].
pub struct EntryV {
    pub index: nat,
    pub m_kib: u32,
    pub t: u32,
    pub p: u32,
    pub salt: Seq<u8>,
}

impl View for RecipeEntry {
    type V = EntryV;

    closed spec fn view(&self) -> EntryV {
        EntryV {
            index: self.index as nat,
            m_kib: self.m_kib,
            t: self.t,
            p: self.p,
            salt: self.salt@,
        }
    }
}

/// The public inputs of an unlock: no passphrase and no key material.
pub struct KekRecipe {
    entries: Vec<RecipeEntry>,
}

impl View for KekRecipe {
    type V = Seq<EntryV>;

    closed spec fn view(&self) -> Seq<EntryV> {
        Seq::new(self.entries@.len(), |i: int| self.entries@[i]@)
    }
}

/// Whether the costs of an entry are within the accepted bounds.
pub open spec fn entry_bounded(e: EntryV) -> bool {
    envelope::MIN_M_KIB <= e.m_kib <= envelope::MAX_M_KIB && envelope::MIN_T <= e.t
        <= envelope::MAX_T && 1 <= e.p <= envelope::MAX_P && e.salt.len() == SALT_LEN
}

/// Whether all costs of a recipe are within the accepted bounds.
pub open spec fn recipe_bounded(entries: Seq<EntryV>) -> bool {
    forall|i: int| 0 <= i < entries.len() ==> entry_bounded(#[trigger] entries[i])
}

/// The entries for the passphrase slots, in order, or the first fault.
pub open spec fn recipe_entries(slots: Seq<SlotV>) -> Result<Seq<EntryV>, Fault>
    decreases slots.len(),
{
    if slots.len() == 0 {
        Ok(Seq::empty())
    } else {
        match recipe_entries(slots.drop_last()) {
            Err(f) => Err(f),
            Ok(v) => {
                let s = slots.last();
                if !(s.kind is Passphrase) {
                    Ok(v)
                } else if !envelope::kdf_accepted(s.kdf) {
                    Err(Fault::InsecureParams)
                } else if s.salt.len() != SALT_LEN {
                    Err(Fault::Corrupt("invalid slot salt length"@))
                } else {
                    Ok(
                        v.push(
                            EntryV {
                                index: (slots.len() - 1) as nat,
                                m_kib: s.kdf.m_kib,
                                t: s.kdf.t,
                                p: s.kdf.p,
                                salt: s.salt,
                            },
                        ),
                    )
                }
            },
        }
    }
}

/// The recipe of a header; without a passphrase slot nothing can be unlocked.
pub open spec fn recipe_of(h: HeaderV) -> Result<Seq<EntryV>, Fault> {
    match recipe_entries(h.slots) {
        Err(f) => Err(f),
        Ok(v) => if v.len() == 0 {
            Err(Fault::Auth)
        } else {
            Ok(v)
        },
    }
}

/// A derived key, and the place of the slot that it is for.
pub struct KekV {
    pub index: nat,
    pub key: Seq<u8>,
}

/// The keys derived for a recipe, in order, or the first fault.
pub open spec fn derived_keks(entries: Seq<EntryV>, passphrase: Seq<u8>) -> Result<Seq<KekV>, Fault>
    decreases entries.len(),
{
    if entries.len() == 0 {
        Ok(Seq::empty())
    } else {
        match derived_keks(entries.drop_last(), passphrase) {
            Err(f) => Err(f),
            Ok(v) => {
                let e = entries.last();
                match crypto::derived(passphrase, e.m_kib, e.t, e.p, e.salt) {
                    Err(f) => Err(f),
                    Ok(k) => Ok(v.push(KekV { index: e.index, key: k })),
                }
            },
        }
    }
}

proof fn lemma_recipe_prefix(slots: Seq<SlotV>, n: int)
    requires
        0 <= n <= slots.len(),
    ensures
        recipe_entries(slots.take(n)) is Err ==> recipe_entries(slots) == recipe_entries(
            slots.take(n),
        ),
    decreases slots.len(),
{
    if n == slots.len() {
        assert(slots.take(n) =~= slots);
    } else {
        lemma_recipe_prefix(slots.drop_last(), n);
        assert(slots.drop_last().take(n) =~= slots.take(n));
    }
}

proof fn lemma_derived_prefix(entries: Seq<EntryV>, passphrase: Seq<u8>, n: int)
    requires
        0 <= n <= entries.len(),
    ensures
        derived_keks(entries.take(n), passphrase) is Err ==> derived_keks(entries, passphrase)
            == derived_keks(entries.take(n), passphrase),
    decreases entries.len(),
{
    if n == entries.len() {
        assert(entries.take(n) =~= entries);
    } else {
        lemma_derived_prefix(entries.drop_last(), passphrase, n);
        assert(entries.drop_last().take(n) =~= entries.take(n));
    }
}

impl KekRecipe {
    /// Reads the recipe of an envelope, and refuses any unusable slot.
    pub fn of(env: &Envelope) -> (r: Result<KekRecipe, VaultError>)
        ensures
            match r {
                Ok(k) => recipe_of(env@.header) == Ok::<Seq<EntryV>, Fault>(k@)
                    && recipe_bounded(k@),
                Err(e) => recipe_of(env@.header) == Err::<Seq<EntryV>, Fault>(e@),
            },
    {
        KekRecipe::of_header(&env.header)
    }

    fn of_header(header: &Header) -> (r: Result<KekRecipe, VaultError>)
        ensures
            match r {
                Ok(k) => recipe_of(header@) == Ok::<Seq<EntryV>, Fault>(k@) && recipe_bounded(k@),
                Err(e) => recipe_of(header@) == Err::<Seq<EntryV>, Fault>(e@),
            },
    {
        let ghost all = header@.slots;
        let mut recipe = KekRecipe { entries: Vec::new() };
        let mut i: usize = 0;
        proof {
            assert(recipe@ =~= Seq::<EntryV>::empty());
        }
        while i < header.slots.len()
            invariant
                i <= header.slots@.len(),
                all == header@.slots,
                recipe_entries(all.take(i as int)) == Ok::<Seq<EntryV>, Fault>(recipe@),
                recipe_bounded(recipe@),
            decreases header.slots@.len() - i,
        {
            proof {
                assert(all.take(i + 1).drop_last() =~= all.take(i as int));
                assert(all.take(i + 1).last() == all[i as int]);
            }
            let slot = &header.slots[i];
            let ours = match slot.kind {
                SlotType::Passphrase => true,
                _ => false,
            };
            if ours {
                match slot.kdf.validate() {
                    Ok(_) => {},
                    Err(e) => {
                        proof {
                            lemma_recipe_prefix(all, i + 1);
                        }
                        return Err(e);
                    },
                }
                match envelope::salt_of(slot.salt.as_slice()) {
                    Some(salt) => {
                        let ghost before = recipe@;
                        recipe.entries.push(
                            RecipeEntry {
                                index: i,
                                m_kib: slot.kdf.m_kib,
                                t: slot.kdf.t,
                                p: slot.kdf.p,
                                salt,
                            },
                        );
                        proof {
                            let last = recipe.entries@.last()@;
                            assert(recipe@ =~= before.push(last));
                        }
                    },
                    None => {
                        proof {
                            lemma_recipe_prefix(all, i + 1);
                        }
                        return Err(VaultError::Corrupt("invalid slot salt length".to_string()));
                    },
                }
            }
            i = i + 1;
        }
        proof {
            assert(all.take(i as int) =~= all);
        }
        if recipe.entries.len() == 0 {
            return Err(VaultError::Auth);
        }
        Ok(recipe)
    }

    /// Derives one key for each entry. This is the expensive step, and the only
    /// one that touches the passphrase.
    pub fn derive(&self, passphrase: &[u8]) -> (r: Result<DerivedKeks, VaultError>)
        requires
            recipe_bounded(self@),
        ensures
            match r {
                Ok(d) => derived_keks(self@, passphrase@) == Ok::<Seq<KekV>, Fault>(d@),
                Err(e) => derived_keks(self@, passphrase@) == Err::<Seq<KekV>, Fault>(e@)
                    && passphrase@.len() > 0xFFFF_FFFF,
            },
    {
        let ghost all = self@;
        let mut out = DerivedKeks { derived: Vec::new() };
        let mut i: usize = 0;
        proof {
            assert(out@ =~= Seq::<KekV>::empty());
        }
        while i < self.entries.len()
            invariant
                i <= self.entries@.len(),
                all == self@,
                recipe_bounded(all),
                derived_keks(all.take(i as int), passphrase@) == Ok::<Seq<KekV>, Fault>(out@),
            decreases self.entries@.len() - i,
        {
            proof {
                assert(all.take(i + 1).drop_last() =~= all.take(i as int));
                assert(all.take(i + 1).last() == all[i as int]);
                assert(entry_bounded(all[i as int]));
            }
            let e = &self.entries[i];
            match crypto::derive_kek(passphrase, e.m_kib, e.t, e.p, e.salt.as_slice()) {
                Ok(key) => {
                    let ghost before = out@;
                    out.derived.push((e.index, key));
                    proof {
                        assert(out@ =~= before.push(
                            KekV { index: e.index as nat, key: key@ },
                        ));
                    }
                },
                Err(err) => {
                    proof {
                        lemma_derived_prefix(all, passphrase@, i + 1);
                    }
                    return Err(err);
                },
            }
            i = i + 1;
        }
        proof {
            assert(all.take(i as int) =~= all);
        }
        Ok(out)
    }

    /// How many slots the recipe derives for.
    pub fn slots(&self) -> (r: usize)
        ensures
            r == self@.len(),
    {
        self.entries.len()
    }
}

/// The keys derived from one passphrase for one header.
pub struct DerivedKeks {
    derived: Vec<(usize, SecretKey)>,
}

impl View for DerivedKeks {
    type V = Seq<KekV>;

    closed spec fn view(&self) -> Seq<KekV> {
        Seq::new(
            self.derived@.len(),
            |i: int| KekV { index: self.derived@[i].0 as nat, key: self.derived@[i].1@ },
        )
    }
}

/// The document key under a master key.
pub open spec fn document_key(h: HeaderV, mek: Seq<u8>) -> Result<Seq<u8>, Fault> {
    if h.dek_nonce.len() != NONCE_LEN {
        Err(Fault::Corrupt("invalid dek nonce length"@))
    } else {
        match crypto::opened(mek, h.dek_nonce, h.dek_wrapped, dek_binding()) {
            None => Err(Fault::Corrupt("dek wrap failed authentication"@)),
            Some(d) => if d.len() != KEY_LEN {
                Err(Fault::Corrupt("wrapped dek length invalid"@))
            } else {
                Ok(d)
            },
        }
    }
}

/// Whether the derived key is for a passphrase slot of the header.
pub open spec fn has_slot(h: HeaderV, k: KekV) -> bool {
    k.index < h.slots.len() && h.slots[k.index as int].kind is Passphrase
}

/// The master key that a derived key opens its slot to. A slot that cannot be
/// used fails like a wrong key.
pub open spec fn slot_opened(s: SlotV, key: Seq<u8>) -> Option<Seq<u8>> {
    if s.nonce.len() != NONCE_LEN {
        None
    } else {
        match crypto::opened(key, s.nonce, s.wrapped_mek, mek_binding(s.id)) {
            Some(m) => if m.len() == KEY_LEN {
                Some(m)
            } else {
                None
            },
            None => None,
        }
    }
}

/// The keys that derived keys give from position `from` on: those of the first
/// slot that opens. A slot that does not open is passed over, and if none opens
/// the failure says no more than that.
pub open spec fn unlocked_with(h: HeaderV, keks: Seq<KekV>, from: nat) -> Result<KeysV, Fault>
    decreases keks.len() - from,
{
    if from >= keks.len() {
        Err(Fault::Auth)
    } else {
        let k = keks[from as int];
        let s = h.slots[k.index as int];
        if !has_slot(h, k) {
            unlocked_with(h, keks, from + 1)
        } else {
            match slot_opened(s, k.key) {
                None => unlocked_with(h, keks, from + 1),
                Some(m) => match document_key(h, m) {
                    Err(f) => Err(f),
                    Ok(d) => Ok(KeysV { mek: m, dek: d }),
                },
            }
        }
    }
}

/// The keys that a passphrase gives.
pub open spec fn unlocked(h: HeaderV, passphrase: Seq<u8>) -> Result<KeysV, Fault> {
    match recipe_of(h) {
        Err(f) => Err(f),
        Ok(entries) => match derived_keks(entries, passphrase) {
            Err(f) => Err(f),
            Ok(keks) => unlocked_with(h, keks, 0),
        },
    }
}

/// The document that a document key gives. It is bound to the header.
pub open spec fn document(e: EnvelopeV, dek: Seq<u8>) -> Result<Seq<u8>, Fault> {
    match crypto::opened(dek, e.doc_nonce, e.doc_ct, envelope::header_bytes(e.header)) {
        Some(d) => Ok(d),
        None => Err(Fault::Corrupt("document failed authentication"@)),
    }
}

/// The envelope with its document sealed anew under `dek`.
pub open spec fn resealed(e: EnvelopeV, nonce: Seq<u8>, doc: Seq<u8>, dek: Seq<u8>) -> EnvelopeV {
    EnvelopeV {
        header: e.header,
        doc_nonce: nonce,
        doc_ct: crypto::aead_sealed(dek, nonce, doc, envelope::header_bytes(e.header)),
    }
}

/// Opens a wrapped key: the bytes are copied into a key and wiped.
fn unwrapped(mut bytes: Vec<u8>) -> (r: Option<SecretKey>)
    ensures
        match r {
            Some(k) => k@ == bytes@ && bytes@.len() == KEY_LEN,
            None => bytes@.len() != KEY_LEN,
        },
{
    let key = match envelope::key_of(bytes.as_slice()) {
        Some(a) => Some(SecretKey::from_bytes(a)),
        None => None,
    };
    crypto::wipe(&mut bytes);
    key
}

/// Opens a slot with its derived key.
fn open_slot(slot: &Slot, kek: &SecretKey) -> (r: Option<SecretKey>)
    ensures
        match r {
            Some(k) => slot_opened(slot@, kek@) == Some(k@),
            None => slot_opened(slot@, kek@) is None,
        },
{
    let nonce = match envelope::nonce_of(slot.nonce.as_slice()) {
        Some(n) => n,
        None => {
            return None;
        },
    };
    let aad = mek_aad(&slot.id);
    match crypto::open(kek.as_bytes(), &nonce, slot.wrapped_mek.as_slice(), aad.as_slice()) {
        Ok(bytes) => unwrapped(bytes),
        Err(_) => None,
    }
}

impl Envelope {
    /// The public inputs of an unlock.
    pub fn kek_recipe(&self) -> (r: Result<KekRecipe, VaultError>)
        ensures
            match r {
                Ok(k) => recipe_of(self@.header) == Ok::<Seq<EntryV>, Fault>(k@) && recipe_bounded(
                    k@,
                ),
                Err(e) => recipe_of(self@.header) == Err::<Seq<EntryV>, Fault>(e@),
            },
    {
        KekRecipe::of(self)
    }

    /// Unwraps the keys with a passphrase.
    pub fn unlock(&self, passphrase: &[u8]) -> (r: Result<Keys, VaultError>)
        ensures
            match r {
                Ok(k) => unlocked(self@.header, passphrase@) == Ok::<KeysV, Fault>(k@),
                Err(e) => unlocked(self@.header, passphrase@) == Err::<KeysV, Fault>(e@),
            },
    {
        match KekRecipe::of(self) {
            Ok(recipe) => match recipe.derive(passphrase) {
                Ok(derived) => self.unlock_with(&derived),
                Err(e) => Err(e),
            },
            Err(e) => Err(e),
        }
    }

    /// Applies derived keys to the slots. No key is derived here, so this is
    /// cheap. Whatever is wrong with the slots, the failure is the generic one.
    pub fn unlock_with(&self, derived: &DerivedKeks) -> (r: Result<Keys, VaultError>)
        ensures
            match r {
                Ok(k) => unlocked_with(self@.header, derived@, 0) == Ok::<KeysV, Fault>(k@),
                Err(e) => unlocked_with(self@.header, derived@, 0) == Err::<KeysV, Fault>(e@),
            },
    {
        let ghost h = self@.header;
        let ghost keks = derived@;
        let mut i: usize = 0;
        while i < derived.derived.len()
            invariant
                i <= derived.derived@.len(),
                h == self@.header,
                keks == derived@,
                unlocked_with(h, keks, 0) == unlocked_with(h, keks, i as nat),
            decreases derived.derived@.len() - i,
        {
            let index: usize = derived.derived[i].0;
            let usable = if index < self.header.slots.len() {
                match self.header.slots[index].kind {
                    SlotType::Passphrase => true,
                    _ => false,
                }
            } else {
                false
            };
            proof {
                assert(usable == has_slot(h, keks[i as int]));
            }
            if usable {
                let slot = &self.header.slots[index];
                proof {
                    assert(h.slots[index as int] == slot@);
                }
                match open_slot(slot, &derived.derived[i].1) {
                    Some(mek) => {
                        return match self.unwrap_dek(&mek) {
                            Ok(dek) => Ok(Keys { mek, dek }),
                            Err(e) => Err(e),
                        };
                    },
                    None => {},
                }
            }
            i = i + 1;
        }
        Err(VaultError::Auth)
    }

    fn unwrap_dek(&self, mek: &SecretKey) -> (r: Result<SecretKey, VaultError>)
        ensures
            match r {
                Ok(k) => document_key(self@.header, mek@) == Ok::<Seq<u8>, Fault>(k@),
                Err(e) => document_key(self@.header, mek@) == Err::<Seq<u8>, Fault>(e@),
            },
    {
        let nonce = match envelope::nonce_of(self.header.dek.nonce.as_slice()) {
            Some(n) => n,
            None => {
                return Err(VaultError::Corrupt("invalid dek nonce length".to_string()));
            },
        };
        match crypto::open(
            mek.as_bytes(),
            &nonce,
            self.header.dek.wrapped.as_slice(),
            "svault/v1/dek".as_bytes(),
        ) {
            Ok(bytes) => match unwrapped(bytes) {
                Some(k) => Ok(k),
                None => Err(VaultError::Corrupt("wrapped dek length invalid".to_string())),
            },
            Err(_) => Err(VaultError::Corrupt("dek wrap failed authentication".to_string())),
        }
    }

    /// Decrypts the document.
    pub fn open_document(&self, keys: &Keys) -> (r: Result<Vec<u8>, VaultError>)
        ensures
            match r {
                Ok(d) => document(self@, keys@.dek) == Ok::<Seq<u8>, Fault>(d@),
                Err(e) => document(self@, keys@.dek) == Err::<Seq<u8>, Fault>(e@),
            },
    {
        let aad = envelope::canonical_header(&self.header);
        match crypto::open(
            keys.dek.as_bytes(),
            &self.doc_nonce,
            self.doc_ct.as_slice(),
            aad.as_slice(),
        ) {
            Ok(d) => Ok(d),
            Err(_) => Err(VaultError::Corrupt("document failed authentication".to_string())),
        }
    }

    /// Seals a document under the present header with the given nonce.
    pub fn reseal_with(&mut self, nonce: [u8; NONCE_LEN], doc: &[u8], keys: &Keys)
        requires
            crypto::aead_fits(doc@.len()),
        ensures
            final(self)@ == resealed(old(self)@, nonce@, doc@, keys@.dek),
            document(final(self)@, keys@.dek) == Ok::<Seq<u8>, Fault>(doc@),
            final(self)@.doc_ct.len() == doc@.len() + TAG_LEN,
    {
        let aad = envelope::canonical_header(&self.header);
        self.doc_ct = crypto::seal(keys.dek.as_bytes(), &nonce, doc, aad.as_slice());
        self.doc_nonce = nonce;
    }

    /// Seals a document under the present header with a fresh nonce. Where the
    /// random source fails nothing changes.
    pub fn reseal_document(&mut self, doc: &[u8], keys: &Keys) -> (r: Result<(), VaultError>)
        requires
            crypto::aead_fits(doc@.len()),
        ensures
            match r {
                Ok(_) => {
                    &&& final(self)@.header == old(self)@.header
                    &&& final(self)@ == resealed(
                        old(self)@,
                        final(self)@.doc_nonce,
                        doc@,
                        keys@.dek,
                    )
                    &&& document(final(self)@, keys@.dek) == Ok::<Seq<u8>, Fault>(doc@)
                },
                Err(e) => crypto::is_csprng_failure(e@) && final(self)@ == old(self)@,
            },
    {
        match crypto::random_bytes::<24>() {
            Ok(nonce) => {
                self.reseal_with(nonce, doc, keys);
                Ok(())
            },
            Err(e) => Err(e),
        }
    }
}

/// The random values of a new envelope.
pub struct Seed {
    pub mek: SecretKey,
    pub dek: SecretKey,
    pub salt: [u8; SALT_LEN],
    pub slot_nonce: [u8; NONCE_LEN],
    pub slot_id: [u8; 8],
    pub dek_nonce: [u8; NONCE_LEN],
    pub doc_nonce: [u8; NONCE_LEN],
}

/// The header of a new envelope: one passphrase slot that wraps the master key,
/// which wraps the document key.
pub open spec fn new_header(seed: Seed, kek: Seq<u8>, created_at: Seq<char>) -> HeaderV {
    let id = crypto::hex_text(seed.slot_id@);
    HeaderV {
        created_at,
        slots: seq![
            SlotV {
                id,
                kind: KindV::Passphrase,
                kdf: KdfV { algo: "argon2id"@, m_kib: 65536, t: 3, p: 4 },
                salt: seed.salt@,
                nonce: seed.slot_nonce@,
                wrapped_mek: crypto::aead_sealed(
                    kek,
                    seed.slot_nonce@,
                    seed.mek@,
                    mek_binding(id),
                ),
            },
        ],
        dek_nonce: seed.dek_nonce@,
        dek_wrapped: crypto::aead_sealed(seed.mek@, seed.dek_nonce@, seed.dek@, dek_binding()),
    }
}

/// The envelope that a seed, a passphrase and a document give.
pub open spec fn new_envelope(
    seed: Seed,
    passphrase: Seq<u8>,
    doc: Seq<u8>,
    created_at: Seq<char>,
) -> Result<EnvelopeV, Fault> {
    match crypto::derived(passphrase, 65536, 3, 4, seed.salt@) {
        Err(f) => Err(f),
        Ok(kek) => {
            let header = new_header(seed, kek, created_at);
            Ok(
                EnvelopeV {
                    header,
                    doc_nonce: seed.doc_nonce@,
                    doc_ct: crypto::aead_sealed(
                        seed.dek@,
                        seed.doc_nonce@,
                        doc,
                        envelope::header_bytes(header),
                    ),
                },
            )
        },
    }
}

/// Whether a passphrase opens an envelope to a document.
pub open spec fn opens_to(e: EnvelopeV, passphrase: Seq<u8>, doc: Seq<u8>) -> bool {
    unlocked(e.header, passphrase) matches Ok(k) && document(e, k.dek) == Ok::<Seq<u8>, Fault>(doc)
}

/// An envelope whose one slot and wraps open is opened by its passphrase.
proof fn lemma_new_envelope_opens(
    seed: Seed,
    kek: Seq<u8>,
    passphrase: Seq<u8>,
    doc: Seq<u8>,
    created_at: Seq<char>,
    e: EnvelopeV,
)
    requires
        crypto::derived(passphrase, 65536, 3, 4, seed.salt@) == Ok::<Seq<u8>, Fault>(kek),
        e.header == new_header(seed, kek, created_at),
        seed.mek@.len() == KEY_LEN,
        seed.dek@.len() == KEY_LEN,
        slot_opened(e.header.slots[0], kek) == Some(seed.mek@),
        crypto::opened(seed.mek@, e.header.dek_nonce, e.header.dek_wrapped, dek_binding())
            == Some(seed.dek@),
        document(e, seed.dek@) == Ok::<Seq<u8>, Fault>(doc),
    ensures
        opens_to(e, passphrase, doc),
{
    let h = e.header;
    let s = h.slots[0];
    assert(h.slots.drop_last() =~= Seq::<SlotV>::empty());
    reveal_with_fuel(recipe_entries, 2);
    let entry = EntryV { index: 0, m_kib: 65536, t: 3, p: 4, salt: seed.salt@ };
    let entries = recipe_of(h)->Ok_0;
    assert(entries =~= seq![entry]);
    assert(entries.drop_last() =~= Seq::<EntryV>::empty());
    reveal_with_fuel(derived_keks, 2);
    let keks = derived_keks(entries, passphrase)->Ok_0;
    assert(keks =~= seq![KekV { index: 0, key: kek }]);
    assert(has_slot(h, keks[0]));
}

impl Envelope {
    /// Builds a new envelope from its random values. The passphrase opens it to
    /// the document.
    pub fn create_with(seed: Seed, passphrase: &[u8], doc: &[u8], created_at: &str) -> (r: Result<
        Envelope,
        VaultError,
    >)
        requires
            crypto::aead_fits(doc@.len()),
        ensures
            match r {
                Ok(e) => {
                    &&& new_envelope(seed, passphrase@, doc@, created_at@) == Ok::<EnvelopeV, Fault>(
                        e@,
                    )
                    &&& opens_to(e@, passphrase@, doc@)
                    &&& envelope::header_fault(e@.header) is None
                    &&& e@.doc_ct.len() == doc@.len() + TAG_LEN
                },
                Err(e) => {
                    &&& passphrase@.len() > 0xFFFF_FFFF
                    &&& new_envelope(seed, passphrase@, doc@, created_at@) == Err::<
                        EnvelopeV,
                        Fault,
                    >(e@)
                },
            },
    {
        let kdf = KdfParams::argon2id_defaults();
        let kek = match crypto::derive_kek(passphrase, kdf.m_kib, kdf.t, kdf.p, seed.salt.as_slice()) {
            Ok(k) => k,
            Err(e) => {
                return Err(e);
            },
        };
        let id = crypto::hex(seed.slot_id.as_slice());
        let slot_aad = mek_aad(&id);
        let wrapped_mek = crypto::seal(
            kek.as_bytes(),
            &seed.slot_nonce,
            seed.mek.as_bytes().as_slice(),
            slot_aad.as_slice(),
        );
        let wrapped_dek = crypto::seal(
            seed.mek.as_bytes(),
            &seed.dek_nonce,
            seed.dek.as_bytes().as_slice(),
            "svault/v1/dek".as_bytes(),
        );
        let slot = Slot {
            id,
            kind: SlotType::Passphrase,
            kdf,
            salt: B64::new(vstd::slice::slice_to_vec(seed.salt.as_slice())),
            nonce: B64::new(vstd::slice::slice_to_vec(seed.slot_nonce.as_slice())),
            wrapped_mek: B64::new(wrapped_mek),
        };
        let mut slots: Vec<Slot> = Vec::new();
        slots.push(slot);
        let header = Header {
            created_at: created_at.to_string(),
            slots,
            dek: WrappedKey {
                nonce: B64::new(vstd::slice::slice_to_vec(seed.dek_nonce.as_slice())),
                wrapped: B64::new(wrapped_dek),
            },
        };
        proof {
            assert(header@.slots =~= new_header(seed, kek@, created_at@).slots);
            assert(header@ == new_header(seed, kek@, created_at@));
        }
        let aad = envelope::canonical_header(&header);
        let doc_ct = crypto::seal(seed.dek.as_bytes(), &seed.doc_nonce, doc, aad.as_slice());
        let env = Envelope { header, doc_nonce: seed.doc_nonce, doc_ct };
        proof {
            lemma_new_envelope_opens(seed, kek@, passphrase@, doc@, created_at@, env@);
        }
        Ok(env)
    }

    /// Builds a new envelope around fresh keys.
    pub fn create(passphrase: &[u8], doc: &[u8], created_at: &str) -> (r: Result<
        Envelope,
        VaultError,
    >)
        requires
            crypto::aead_fits(doc@.len()),
        ensures
            match r {
                Ok(e) => {
                    &&& exists|seed: Seed|
                        #[trigger] new_envelope(seed, passphrase@, doc@, created_at@) == Ok::<
                            EnvelopeV,
                            Fault,
                        >(e@)
                    &&& opens_to(e@, passphrase@, doc@)
                    &&& envelope::header_fault(e@.header) is None
                    &&& e@.doc_ct.len() == doc@.len() + TAG_LEN
                },
                Err(e) => crypto::is_csprng_failure(e@) || passphrase@.len() > 0xFFFF_FFFF,
            },
    {
        match fresh_seed() {
            Ok(seed) => Envelope::create_with(seed, passphrase, doc, created_at),
            Err(e) => Err(e),
        }
    }
}

fn fresh_seed() -> (r: Result<Seed, VaultError>)
    ensures
        r matches Err(e) ==> crypto::is_csprng_failure(e@),
{
    let mek = match SecretKey::generate() {
        Ok(k) => k,
        Err(e) => {
            return Err(e);
        },
    };
    let dek = match SecretKey::generate() {
        Ok(k) => k,
        Err(e) => {
            return Err(e);
        },
    };
    let salt = match crypto::random_bytes::<16>() {
        Ok(b) => b,
        Err(e) => {
            return Err(e);
        },
    };
    let slot_nonce = match crypto::random_bytes::<24>() {
        Ok(b) => b,
        Err(e) => {
            return Err(e);
        },
    };
    let slot_id = match crypto::random_bytes::<8>() {
        Ok(b) => b,
        Err(e) => {
            return Err(e);
        },
    };
    let dek_nonce = match crypto::random_bytes::<24>() {
        Ok(b) => b,
        Err(e) => {
            return Err(e);
        },
    };
    match crypto::random_bytes::<24>() {
        Ok(doc_nonce) => Ok(Seed { mek, dek, salt, slot_nonce, slot_id, dek_nonce, doc_nonce }),
        Err(e) => Err(e),
    }
}

/// A fresh identifier: sixteen hexadecimal digits.
pub fn hex_id() -> (r: Result<String, VaultError>)
    ensures
        match r {
            Ok(id) => exists|b: Seq<u8>| b.len() == 8 && id@ == #[trigger] crypto::hex_text(b),
            Err(e) => crypto::is_csprng_failure(e@),
        },
{
    match crypto::random_bytes::<8>() {
        Ok(b) => Ok(crypto::hex(b.as_slice())),
        Err(e) => Err(e),
    }
}

/// What stands for a value stands for all of it, part by part.
pub proof fn law_the_view_of_keys_is_faithful(x: Keys)
    ensures
        x@.mek == x.mek@,
        x@.dek == x.dek@,
{
}

} // verus!
