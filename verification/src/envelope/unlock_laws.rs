//! What opens a vault: which costs are accepted, what is derived for which slot, and what
//! each wrapped key is bound to.

use vstd::prelude::*;

use crate::crypto;
use crate::envelope::unlock::{self, EntryV, KekV, KeysV, Seed};
use crate::envelope::{self, HeaderV, KdfV, KindV, SlotV};
use crate::error::Fault;
use crate::text;

verus! {

/// Costs are accepted exactly when they are Argon2id's and lie within the bounds.
pub proof fn law_costs_are_accepted_within_their_bounds(k: KdfV)
    ensures
        envelope::kdf_accepted(k) <==> {
            &&& k.algo == "argon2id"@
            &&& 19456 <= k.m_kib <= 262144
            &&& 2 <= k.t <= 10
            &&& 1 <= k.p <= 8
        },
{
}

/// A header is in order exactly when it has up to eight slots, each with a salt, a nonce and
/// a wrapped key of their lengths unless it is of an unknown kind, and a document key of its
/// length; each objection has its own words.
pub proof fn law_headers_are_in_order(h: HeaderV)
    ensures
        envelope::header_fault(h) is None <==> {
            &&& 1 <= h.slots.len() <= 8
            &&& forall|i: int|
                0 <= i < h.slots.len() ==> (#[trigger] h.slots[i]).kind is Other || (
                h.slots[i].salt.len() == 16 && h.slots[i].nonce.len() == 24
                    && h.slots[i].wrapped_mek.len() == 48)
            &&& h.dek_nonce.len() == 24
            &&& h.dek_wrapped.len() == 48
        },
        h.slots.len() == 0 ==> envelope::header_fault(h) == Some(Fault::Corrupt("no key slots"@)),
        h.slots.len() > 8 ==> envelope::header_fault(h) == Some(
            Fault::Corrupt("too many key slots"@),
        ),
{
    if envelope::header_fault(h) is None {
        assert forall|i: int| 0 <= i < h.slots.len() implies (#[trigger] h.slots[i]).kind is Other
            || (h.slots[i].salt.len() == 16 && h.slots[i].nonce.len() == 24
            && h.slots[i].wrapped_mek.len() == 48) by {
            assert(envelope::slot_lengths_ok(h.slots[i]));
        }
    }
}

/// A key is derived for every passphrase slot, at the costs and with the salt of that slot,
/// and for no other one.
pub proof fn law_every_passphrase_slot_is_tried(slots: Seq<SlotV>, i: int)
    requires
        unlock::recipe_entries(slots) is Ok,
        0 <= i < slots.len(),
    ensures
        ({
            let entries = unlock::recipe_entries(slots)->Ok_0;
            &&& slots[i].kind is Passphrase ==> entries.contains(
                EntryV {
                    index: i as nat,
                    m_kib: slots[i].kdf.m_kib,
                    t: slots[i].kdf.t,
                    p: slots[i].kdf.p,
                    salt: slots[i].salt,
                },
            )
            &&& forall|k: int|
                0 <= k < entries.len() ==> {
                    let e = #[trigger] entries[k];
                    &&& e.index < slots.len()
                    &&& slots[e.index as int].kind is Passphrase
                    &&& e.salt == slots[e.index as int].salt
                    &&& e.m_kib == slots[e.index as int].kdf.m_kib
                    &&& e.t == slots[e.index as int].kdf.t
                    &&& e.p == slots[e.index as int].kdf.p
                }
        }),
    decreases slots.len(),
{
    let rest = slots.drop_last();
    let entries = unlock::recipe_entries(slots)->Ok_0;
    let before = unlock::recipe_entries(rest)->Ok_0;
    if rest.len() > 0 {
        law_every_passphrase_slot_is_tried(rest, if i < rest.len() {
            i
        } else {
            0
        });
    } else {
        assert(before =~= Seq::<EntryV>::empty());
    }
    assert forall|k: int| 0 <= k < entries.len() implies {
        let e = #[trigger] entries[k];
        &&& e.index < slots.len()
        &&& slots[e.index as int].kind is Passphrase
        &&& e.salt == slots[e.index as int].salt
        &&& e.m_kib == slots[e.index as int].kdf.m_kib
        &&& e.t == slots[e.index as int].kdf.t
        &&& e.p == slots[e.index as int].kdf.p
    } by {
        if k < before.len() {
            assert(entries[k] == before[k]);
            assert(rest[before[k].index as int] == slots[before[k].index as int]);
        }
    }
    if slots[i].kind is Passphrase {
        let wanted = EntryV {
            index: i as nat,
            m_kib: slots[i].kdf.m_kib,
            t: slots[i].kdf.t,
            p: slots[i].kdf.p,
            salt: slots[i].salt,
        };
        if i < rest.len() {
            assert(rest[i] == slots[i]);
            let k = before.index_of(wanted);
            assert(entries[k] == wanted);
        } else {
            assert(entries[entries.len() - 1] == wanted);
        }
    }
}

/// What is wrong with a passphrase slot is told before anything is derived, and a header
/// without one cannot be opened.
pub proof fn law_unusable_slots_are_told(slots: Seq<SlotV>, s: SlotV)
    requires
        unlock::recipe_entries(slots) is Ok,
        s.kind is Passphrase,
    ensures
        !envelope::kdf_accepted(s.kdf) ==> unlock::recipe_entries(slots.push(s)) == Err::<
            Seq<EntryV>,
            Fault,
        >(Fault::InsecureParams),
        envelope::kdf_accepted(s.kdf) && s.salt.len() != 16 ==> unlock::recipe_entries(slots.push(s))
            == Err::<Seq<EntryV>, Fault>(Fault::Corrupt("invalid slot salt length"@)),
        envelope::kdf_accepted(s.kdf) && s.salt.len() == 16 ==> unlock::recipe_entries(slots.push(s)) is Ok,
{
    assert(slots.push(s).drop_last() =~= slots);
    assert(slots.push(s).last() == s);
}

/// Each key is derived from the passphrase at the costs and with the salt of its entry, and
/// stays with the slot of that entry.
pub proof fn law_keys_are_derived_for_their_slots(
    entries: Seq<EntryV>,
    passphrase: Seq<u8>,
    i: int,
)
    requires
        unlock::derived_keks(entries, passphrase) is Ok,
        0 <= i < entries.len(),
    ensures
        ({
            let keks = unlock::derived_keks(entries, passphrase)->Ok_0;
            let e = entries[i];
            &&& keks.len() == entries.len()
            &&& keks[i].index == e.index
            &&& crypto::derived(passphrase, e.m_kib, e.t, e.p, e.salt) == Ok::<Seq<u8>, Fault>(
                keks[i].key,
            )
        }),
    decreases entries.len(),
{
    let rest = entries.drop_last();
    if rest.len() == 0 {
        assert(unlock::derived_keks(rest, passphrase)->Ok_0.len() == 0);
    } else {
        law_keys_are_derived_for_their_slots(
            rest,
            passphrase,
            if i < rest.len() {
                i
            } else {
                0
            },
        );
        if i < rest.len() {
            assert(rest[i] == entries[i]);
        }
    }
}

/// The first key that opens its slot opens the vault: the master key is what the slot
/// wraps, and the document key is what the master key unwraps.
pub proof fn law_the_first_key_that_fits_opens(
    h: HeaderV,
    keks: Seq<KekV>,
    from: nat,
    i: int,
    mek: Seq<u8>,
    dek: Seq<u8>,
)
    requires
        from <= i < keks.len(),
        forall|k: int|
            from <= k < i ==> !unlock::has_slot(h, #[trigger] keks[k]) || unlock::slot_opened(
                h.slots[keks[k].index as int],
                keks[k].key,
            ) is None,
        keks[i].index < h.slots.len(),
        h.slots[keks[i].index as int].kind is Passphrase,
        h.slots[keks[i].index as int].nonce.len() == 24,
        crypto::opened(
            keks[i].key,
            h.slots[keks[i].index as int].nonce,
            h.slots[keks[i].index as int].wrapped_mek,
            text::utf8("svault/v1/mek:"@ + h.slots[keks[i].index as int].id),
        ) == Some(mek),
        mek.len() == 32,
        h.dek_nonce.len() == 24,
        crypto::opened(mek, h.dek_nonce, h.dek_wrapped, text::utf8("svault/v1/dek"@)) == Some(dek),
        dek.len() == 32,
    ensures
        unlock::unlocked_with(h, keks, from) == Ok::<KeysV, Fault>(KeysV { mek, dek }),
    decreases i - from,
{
    if from < i {
        assert(!unlock::has_slot(h, keks[from as int]) || unlock::slot_opened(
            h.slots[keks[from as int].index as int],
            keks[from as int].key,
        ) is None);
        law_the_first_key_that_fits_opens(h, keks, from + 1, i, mek, dek);
    }
}

/// A wrapped master key is bound to its slot, and no wrapped master key stands for a
/// wrapped document key.
pub proof fn law_wrapped_keys_are_bound_to_their_place(a: Seq<char>, b: Seq<char>)
    ensures
        unlock::mek_binding(a) == unlock::mek_binding(b) ==> a == b,
        unlock::mek_binding(a) != unlock::dek_binding(),
{
    let head = "svault/v1/mek:"@;
    vstd::utf8::encode_utf8_decode_utf8(head + a);
    vstd::utf8::encode_utf8_decode_utf8(head + b);
    vstd::utf8::encode_utf8_decode_utf8("svault/v1/dek"@);
    assert((head + a).skip(head.len() as int) =~= a);
    assert((head + b).skip(head.len() as int) =~= b);
    reveal_strlit("svault/v1/mek:");
    reveal_strlit("svault/v1/dek");
    assert(head.len() == 14);
    assert("svault/v1/dek"@.len() == 13);
}

/// A new vault has one passphrase slot, at the costs that are asked for, with the salt and
/// the nonces that were drawn; its keys are wrapped under the passphrase and under one
/// another, and its document is sealed under the document key and bound to the header.
pub proof fn law_a_new_vault_is_sealed_with_what_was_drawn(
    seed: Seed,
    kek: Seq<u8>,
    passphrase: Seq<u8>,
    doc: Seq<u8>,
    created_at: Seq<char>,
)
    requires
        crypto::derived(passphrase, 65536, 3, 4, seed.salt@) == Ok::<Seq<u8>, Fault>(kek),
    ensures
        unlock::new_envelope(seed, passphrase, doc, created_at) matches Ok(e) && {
            &&& e.header.created_at == created_at
            &&& e.header.slots.len() == 1
            &&& e.header.slots[0].id == crypto::hex_text(seed.slot_id@)
            &&& e.header.slots[0].kind == KindV::Passphrase
            &&& e.header.slots[0].kdf == (KdfV { algo: "argon2id"@, m_kib: 65536, t: 3, p: 4 })
            &&& e.header.slots[0].salt == seed.salt@
            &&& e.header.slots[0].nonce == seed.slot_nonce@
            &&& e.header.slots[0].wrapped_mek == crypto::aead_sealed(
                kek,
                seed.slot_nonce@,
                seed.mek@,
                text::utf8("svault/v1/mek:"@ + crypto::hex_text(seed.slot_id@)),
            )
            &&& e.header.dek_nonce == seed.dek_nonce@
            &&& e.header.dek_wrapped == crypto::aead_sealed(
                seed.mek@,
                seed.dek_nonce@,
                seed.dek@,
                text::utf8("svault/v1/dek"@),
            )
            &&& e.doc_nonce == seed.doc_nonce@
            &&& e.doc_ct == crypto::aead_sealed(
                seed.dek@,
                seed.doc_nonce@,
                doc,
                envelope::header_bytes(e.header),
            )
        },
{
}

/// A document that is sealed anew keeps its header and is sealed under the document key
/// with the nonce that was drawn.
pub proof fn law_a_document_is_sealed_anew(
    e: envelope::EnvelopeV,
    nonce: Seq<u8>,
    doc: Seq<u8>,
    dek: Seq<u8>,
)
    ensures
        ({
            let r = unlock::resealed(e, nonce, doc, dek);
            &&& r.header == e.header
            &&& r.doc_nonce == nonce
            &&& r.doc_ct == crypto::aead_sealed(dek, nonce, doc, envelope::header_bytes(e.header))
        }),
        crypto::opened(dek, e.doc_nonce, e.doc_ct, envelope::header_bytes(e.header)) == Some(doc)
            ==> unlock::document(e, dek) == Ok::<Seq<u8>, Fault>(doc),
{
}

/// A file that is no vault is refused with what is wrong with it.
pub proof fn law_bad_files_say_what_is_wrong(b: Seq<u8>)
    ensures
        b.len() < 54 ==> envelope::declared_header(b) == Err::<nat, Fault>(
            Fault::Corrupt("truncated file"@),
        ),
        b.len() > 16777216 ==> envelope::declared_header(b) == Err::<nat, Fault>(
            Fault::Corrupt("file exceeds maximum size"@),
        ),
        54 <= b.len() <= 16777216 && b.take(6) != envelope::magic() ==> envelope::declared_header(b)
            == Err::<nat, Fault>(Fault::Corrupt("bad magic"@)),
        54 <= b.len() <= 16777216 && b.take(6) == envelope::magic() && envelope::from_le32(b, 6) != 1
            ==> envelope::declared_header(b) == Err::<nat, Fault>(
            Fault::Corrupt("unsupported envelope version"@),
        ),
        envelope::declared_header(b) matches Ok(n) ==> n == envelope::from_le32(b, 10) && n <= 1048576
            && 14 + n + 40 <= b.len(),
        envelope::parsed(b, None) matches Err(f) && (envelope::declared_header(b) is Ok ==> f
            == Fault::Corrupt("invalid header"@)),
{
}

/// Four bytes are read with the lowest one first.
pub proof fn law_numbers_are_read_lowest_byte_first(b: Seq<u8>, at: int)
    requires
        0 <= at,
        at + 4 <= b.len(),
    ensures
        envelope::from_le32(b, at) == b[at] + 256 * (b[at + 1] + 256 * (b[at + 2] + 256 * b[at
            + 3])),
{
}

/// A vault that would be too large to be read again is not written.
pub proof fn law_only_readable_vaults_are_written(e: envelope::EnvelopeV)
    ensures
        envelope::header_bytes(e.header).len() > 1048576 || 14 + envelope::header_bytes(
            e.header,
        ).len() + 24 + e.doc_ct.len() > 16777216 ==> envelope::persist_fault(e) == Some(
            Fault::VaultTooLarge,
        ),
        envelope::persist_fault(e) is None ==> e.doc_ct.len() >= 16 && envelope::header_fault(
            e.header,
        ) is None,
{
}

} // verus!
