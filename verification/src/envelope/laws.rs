//! What holds of every envelope.

use vstd::prelude::*;

use crate::crypto::{self, KEY_LEN, NONCE_LEN, TAG_LEN};
use crate::envelope::unlock::{self, KekV};
use crate::envelope::{self, EnvelopeV, HeaderV, SlotV, PREFIX_LEN};
use crate::error::Fault;

verus! {

/// Whether the parts of an envelope have the lengths that they are built with.
pub open spec fn well_formed(e: EnvelopeV) -> bool {
    envelope::header_fault(e.header) is None && e.doc_nonce.len() == NONCE_LEN && e.doc_ct.len()
        >= TAG_LEN
}

proof fn lemma_le32_reads_back(n: nat)
    requires
        n < 4294967296,
    ensures
        envelope::from_le32(envelope::le32(n), 0) == n,
{
    let d: int = n as int;
    assert(d == d % 256 + 256 * (d / 256 % 256) + 65536 * (d / 65536 % 256) + 16777216 * (d
        / 16777216 % 256)) by (nonlinear_arith)
        requires
            0 <= d < 4294967296,
    ;
}

/// The parts of the file of an envelope, at their places.
proof fn lemma_file_parts(e: EnvelopeV)
    requires
        e.doc_nonce.len() == NONCE_LEN,
    ensures
        ({
            let b = envelope::file_bytes(e);
            let n = envelope::header_bytes(e.header).len();
            &&& b.len() == PREFIX_LEN + n + NONCE_LEN + e.doc_ct.len()
            &&& b.take(6) == envelope::magic()
            &&& envelope::from_le32(b, 6) == envelope::VERSION
            &&& n < 4294967296 ==> envelope::from_le32(b, 10) == n
            &&& b.subrange(PREFIX_LEN + n, PREFIX_LEN + n + NONCE_LEN) == e.doc_nonce
            &&& b.skip(PREFIX_LEN + n + NONCE_LEN) == e.doc_ct
            &&& b.subrange(PREFIX_LEN as int, PREFIX_LEN + n) == envelope::header_bytes(e.header)
        }),
{
    let header = envelope::header_bytes(e.header);
    let n = header.len();
    lemma_parts(header, e.doc_nonce, e.doc_ct, n);
}

proof fn lemma_parts(header: Seq<u8>, nonce: Seq<u8>, ct: Seq<u8>, n: nat)
    requires
        n == header.len(),
        nonce.len() == NONCE_LEN,
    ensures
        ({
            let b = envelope::magic() + envelope::le32(envelope::VERSION as nat) + envelope::le32(
                n,
            ) + header + nonce + ct;
            &&& b.len() == PREFIX_LEN + n + NONCE_LEN + ct.len()
            &&& b.take(6) == envelope::magic()
            &&& envelope::from_le32(b, 6) == envelope::VERSION
            &&& n < 4294967296 ==> envelope::from_le32(b, 10) == n
            &&& b.subrange(PREFIX_LEN + n, PREFIX_LEN + n + NONCE_LEN) == nonce
            &&& b.skip(PREFIX_LEN + n + NONCE_LEN) == ct
            &&& b.subrange(PREFIX_LEN as int, PREFIX_LEN + n) == header
        }),
{
    let v = envelope::le32(envelope::VERSION as nat);
    let l = envelope::le32(n);
    let b = envelope::magic() + v + l + header + nonce + ct;
    assert(b.take(6) =~= envelope::magic());
    assert(b[6] == v[0] && b[7] == v[1] && b[8] == v[2] && b[9] == v[3]);
    assert(b[10] == l[0] && b[11] == l[1] && b[12] == l[2] && b[13] == l[3]);
    lemma_le32_reads_back(envelope::VERSION as nat);
    if n < 4294967296 {
        lemma_le32_reads_back(n);
    }
    assert(b.subrange(PREFIX_LEN + n, PREFIX_LEN + n + NONCE_LEN) =~= nonce);
    assert(b.skip(PREFIX_LEN + n + NONCE_LEN) =~= ct);
    assert(b.subrange(PREFIX_LEN as int, PREFIX_LEN + n) =~= header);
}

/// Parsing the file of an envelope gives the envelope back, whenever the
/// writer's check passed; the header that the file holds is the canonical one.
pub proof fn law_parse_undoes_to_bytes(e: EnvelopeV)
    requires
        e.doc_nonce.len() == NONCE_LEN,
        envelope::persistable(e),
    ensures
        envelope::declared_header(envelope::file_bytes(e)) == Ok::<nat, Fault>(
            envelope::header_bytes(e.header).len(),
        ),
        envelope::file_bytes(e).subrange(
            PREFIX_LEN as int,
            PREFIX_LEN + envelope::header_bytes(e.header).len(),
        ) == envelope::header_bytes(e.header),
        envelope::parsed(envelope::file_bytes(e), Some(e.header)) == Ok::<EnvelopeV, Fault>(e),
{
    lemma_file_parts(e);
}

/// The writer's check and the loader agree: the loader takes a file back
/// exactly when the check lets it be written.
pub proof fn law_writer_and_loader_agree(e: EnvelopeV)
    requires
        e.doc_nonce.len() == NONCE_LEN,
    ensures
        envelope::persistable(e) <==> envelope::parsed(
            envelope::file_bytes(e),
            Some(e.header),
        ) is Ok,
{
    lemma_file_parts(e);
    if envelope::persistable(e) {
        law_parse_undoes_to_bytes(e);
    }
}

/// What the loader takes is well formed.
pub proof fn law_parsed_is_well_formed(b: Seq<u8>, header: Option<HeaderV>)
    ensures
        envelope::parsed(b, header) matches Ok(e) ==> well_formed(e) && Some(e.header) == header,
{
}

/// A recipe demands only costs within the bounds, and only for passphrase
/// slots, so nothing is derived for a header that asks for more.
pub proof fn law_costs_are_bounded_before_derivation(h: HeaderV)
    ensures
        unlock::recipe_of(h) matches Ok(v) ==> v.len() > 0 && unlock::recipe_bounded(v),
        unlock::recipe_of(h) is Ok ==> forall|i: int|
            0 <= i < h.slots.len() && (#[trigger] h.slots[i]).kind is Passphrase
                ==> envelope::kdf_accepted(h.slots[i].kdf),
{
    lemma_recipe_bounded(h.slots);
}

proof fn lemma_recipe_bounded(slots: Seq<SlotV>)
    ensures
        unlock::recipe_entries(slots) matches Ok(v) ==> unlock::recipe_bounded(v) && (forall|i: int|
            0 <= i < slots.len() && (#[trigger] slots[i]).kind is Passphrase
                ==> envelope::kdf_accepted(slots[i].kdf)),
    decreases slots.len(),
{
    if slots.len() > 0 {
        let rest = slots.drop_last();
        lemma_recipe_bounded(rest);
        if unlock::recipe_entries(slots) is Ok {
            assert forall|i: int|
                0 <= i < slots.len()
                    && (#[trigger] slots[i]).kind is Passphrase implies envelope::kdf_accepted(
            slots[i].kdf) by {
                if i < rest.len() {
                    assert(rest[i] == slots[i]);
                }
            }
        }
    }
}

/// Where no derived key opens its slot, the failure is the generic one,
/// whatever the passphrase and whatever was tampered with in the slots.
pub proof fn law_closed_slots_fail_alike(h: HeaderV, keks: Seq<KekV>, from: nat)
    requires
        forall|i: int|
            from <= i < keks.len() && unlock::has_slot(h, #[trigger] keks[i])
                ==> unlock::slot_opened(h.slots[keks[i].index as int], keks[i].key) is None,
    ensures
        unlock::unlocked_with(h, keks, from) == Err::<unlock::KeysV, Fault>(Fault::Auth),
    decreases keks.len() - from,
{
    if from < keks.len() {
        law_closed_slots_fail_alike(h, keks, from + 1);
    }
}

/// Every slot leads to the master key, and the document key comes from the
/// master key alone: it does not depend on which slot was opened.
pub proof fn law_document_key_is_slot_independent(h: HeaderV, keks: Seq<KekV>, from: nat)
    ensures
        unlock::unlocked_with(h, keks, from) matches Ok(k) ==> unlock::document_key(h, k.mek)
            == Ok::<Seq<u8>, Fault>(k.dek) && k.mek.len() == KEY_LEN && k.dek.len() == KEY_LEN,
    decreases keks.len() - from,
{
    if from < keks.len() {
        law_document_key_is_slot_independent(h, keks, from + 1);
    }
}

/// A change of the slots leaves the wrapped document key alone.
pub proof fn law_slots_do_not_touch_the_document_key(
    h: HeaderV,
    slots: Seq<SlotV>,
    mek: Seq<u8>,
)
    ensures
        unlock::document_key(HeaderV { slots, ..h }, mek) == unlock::document_key(h, mek),
{
}

/// A vault that was written opens again: what its file holds is opened by the
/// passphrase to the document, whenever the writer's check passed.
pub proof fn law_stored_vault_opens(e: EnvelopeV, passphrase: Seq<u8>, doc: Seq<u8>)
    requires
        e.doc_nonce.len() == NONCE_LEN,
        envelope::persistable(e),
        unlock::opens_to(e, passphrase, doc),
    ensures
        envelope::parsed(envelope::file_bytes(e), Some(e.header)) matches Ok(read)
            && unlock::opens_to(read, passphrase, doc),
{
    law_parse_undoes_to_bytes(e);
}

/// A document whose tag does not match is reported as corrupt, and the keys are
/// still those of the passphrase.
pub proof fn law_damaged_documents_are_corrupt(
    e: EnvelopeV,
    nonce: Seq<u8>,
    ct: Seq<u8>,
    passphrase: Seq<u8>,
)
    ensures
        ({
            let damaged = EnvelopeV { doc_nonce: nonce, doc_ct: ct, ..e };
            &&& unlock::unlocked(damaged.header, passphrase) == unlock::unlocked(
                e.header,
                passphrase,
            )
            &&& forall|dek: Seq<u8>|
                crypto::opened(dek, nonce, ct, envelope::header_bytes(e.header)) is None
                    ==> #[trigger] unlock::document(damaged, dek) == Err::<Seq<u8>, Fault>(
                    Fault::Corrupt("document failed authentication"@),
                )
        }),
{
}

/// A wrapped document key whose tag does not match is reported as corrupt, once
/// a slot has opened: the passphrase was right.
pub proof fn law_damaged_document_keys_are_corrupt(
    h: HeaderV,
    wrapped: Seq<u8>,
    passphrase: Seq<u8>,
)
    requires
        unlock::unlocked(h, passphrase) matches Ok(k) && crypto::opened(
            k.mek,
            h.dek_nonce,
            wrapped,
            unlock::dek_binding(),
        ) is None,
    ensures
        unlock::unlocked(HeaderV { dek_wrapped: wrapped, ..h }, passphrase) == Err::<
            unlock::KeysV,
            Fault,
        >(Fault::Corrupt("dek wrap failed authentication"@)),
{
    let entries = unlock::recipe_of(h)->Ok_0;
    let keks = unlock::derived_keks(entries, passphrase)->Ok_0;
    lemma_damaged_document_key(h, wrapped, keks, 0);
}

proof fn lemma_damaged_document_key(h: HeaderV, wrapped: Seq<u8>, keks: Seq<KekV>, from: nat)
    requires
        unlock::unlocked_with(h, keks, from) matches Ok(k) && crypto::opened(
            k.mek,
            h.dek_nonce,
            wrapped,
            unlock::dek_binding(),
        ) is None,
    ensures
        unlock::unlocked_with(HeaderV { dek_wrapped: wrapped, ..h }, keks, from) == Err::<
            unlock::KeysV,
            Fault,
        >(Fault::Corrupt("dek wrap failed authentication"@)),
    decreases keks.len() - from,
{
    if from < keks.len() {
        let k = keks[from as int];
        if !unlock::has_slot(h, k) || unlock::slot_opened(h.slots[k.index as int], k.key) is None {
            lemma_damaged_document_key(h, wrapped, keks, from + 1);
        }
    }
}

/// A passphrase whose keys open no slot, be it wrong or the slots damaged, is
/// refused with the one failure that says no more.
pub proof fn law_wrong_passphrases_fail_alike(h: HeaderV, passphrase: Seq<u8>, keks: Seq<KekV>)
    requires
        unlock::recipe_of(h) matches Ok(entries) && unlock::derived_keks(entries, passphrase)
            == Ok::<Seq<KekV>, Fault>(keks),
        forall|i: int|
            0 <= i < keks.len() && unlock::has_slot(h, #[trigger] keks[i])
                ==> unlock::slot_opened(h.slots[keks[i].index as int], keks[i].key) is None,
    ensures
        unlock::unlocked(h, passphrase) == Err::<unlock::KeysV, Fault>(Fault::Auth),
{
    law_closed_slots_fail_alike(h, keks, 0);
}

} // verus!
