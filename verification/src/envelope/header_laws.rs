//! The bytes of a header determine the header: nothing that a document is bound to can be
//! changed under it.

use vstd::prelude::*;

use crate::audit::canonical::{
    law_literals_are_read_in_one_way, lemma_decimal, lemma_grouping, lemma_same_head,
};
use crate::crypto;
use crate::envelope::{self, HeaderV, KindV, SlotType, SlotV};
use crate::json;
use crate::text;

verus! {

spec fn slot_18(s: SlotV, x: Seq<char>) -> Seq<char> {
    "}"@ + x
}

spec fn slot_17(s: SlotV, x: Seq<char>) -> Seq<char> {
    envelope::blob_text(s.wrapped_mek) + slot_18(s, x)
}

spec fn slot_16(s: SlotV, x: Seq<char>) -> Seq<char> {
    ",\"wrapped_mek\":"@ + slot_17(s, x)
}

spec fn slot_15(s: SlotV, x: Seq<char>) -> Seq<char> {
    envelope::blob_text(s.nonce) + slot_16(s, x)
}

spec fn slot_14(s: SlotV, x: Seq<char>) -> Seq<char> {
    ",\"nonce\":"@ + slot_15(s, x)
}

spec fn slot_13(s: SlotV, x: Seq<char>) -> Seq<char> {
    envelope::blob_text(s.salt) + slot_14(s, x)
}

spec fn slot_12(s: SlotV, x: Seq<char>) -> Seq<char> {
    "},\"salt\":"@ + slot_13(s, x)
}

spec fn slot_11(s: SlotV, x: Seq<char>) -> Seq<char> {
    text::decimal_text(s.kdf.p as nat) + slot_12(s, x)
}

spec fn slot_10(s: SlotV, x: Seq<char>) -> Seq<char> {
    ",\"p\":"@ + slot_11(s, x)
}

spec fn slot_9(s: SlotV, x: Seq<char>) -> Seq<char> {
    text::decimal_text(s.kdf.t as nat) + slot_10(s, x)
}

spec fn slot_8(s: SlotV, x: Seq<char>) -> Seq<char> {
    ",\"t\":"@ + slot_9(s, x)
}

spec fn slot_7(s: SlotV, x: Seq<char>) -> Seq<char> {
    text::decimal_text(s.kdf.m_kib as nat) + slot_8(s, x)
}

spec fn slot_6(s: SlotV, x: Seq<char>) -> Seq<char> {
    ",\"m_kib\":"@ + slot_7(s, x)
}

spec fn slot_5(s: SlotV, x: Seq<char>) -> Seq<char> {
    json::json_quoted(s.kdf.algo) + slot_6(s, x)
}

spec fn slot_4(s: SlotV, x: Seq<char>) -> Seq<char> {
    ",\"kdf\":{\"algo\":"@ + slot_5(s, x)
}

spec fn slot_3(s: SlotV, x: Seq<char>) -> Seq<char> {
    json::json_quoted(envelope::kind_name(s.kind)) + slot_4(s, x)
}

spec fn slot_2(s: SlotV, x: Seq<char>) -> Seq<char> {
    ",\"type\":"@ + slot_3(s, x)
}

spec fn slot_1(s: SlotV, x: Seq<char>) -> Seq<char> {
    json::json_quoted(s.id) + slot_2(s, x)
}

spec fn slot_0(s: SlotV, x: Seq<char>) -> Seq<char> {
    "{\"id\":"@ + slot_1(s, x)
}

/// The text of a slot, part after part.
proof fn lemma_slot(s: SlotV, x: Seq<char>)
    ensures
        envelope::slot_text(s) + x == slot_0(s, x),
{
    let t0 = "{\"id\":"@;
    let t1 = t0 + json::json_quoted(s.id);
    let t2 = t1 + ",\"type\":"@;
    let t3 = t2 + json::json_quoted(envelope::kind_name(s.kind));
    let t4 = t3 + ",\"kdf\":{\"algo\":"@;
    let t5 = t4 + json::json_quoted(s.kdf.algo);
    let t6 = t5 + ",\"m_kib\":"@;
    let t7 = t6 + text::decimal_text(s.kdf.m_kib as nat);
    let t8 = t7 + ",\"t\":"@;
    let t9 = t8 + text::decimal_text(s.kdf.t as nat);
    let t10 = t9 + ",\"p\":"@;
    let t11 = t10 + text::decimal_text(s.kdf.p as nat);
    let t12 = t11 + "},\"salt\":"@;
    let t13 = t12 + envelope::blob_text(s.salt);
    let t14 = t13 + ",\"nonce\":"@;
    let t15 = t14 + envelope::blob_text(s.nonce);
    let t16 = t15 + ",\"wrapped_mek\":"@;
    let t17 = t16 + envelope::blob_text(s.wrapped_mek);
    let t18 = t17 + "}"@;
    assert(envelope::slot_text(s) == t18);
    lemma_grouping(t17, "}"@, x);
    lemma_grouping(t16, envelope::blob_text(s.wrapped_mek), slot_18(s, x));
    lemma_grouping(t15, ",\"wrapped_mek\":"@, slot_17(s, x));
    lemma_grouping(t14, envelope::blob_text(s.nonce), slot_16(s, x));
    lemma_grouping(t13, ",\"nonce\":"@, slot_15(s, x));
    lemma_grouping(t12, envelope::blob_text(s.salt), slot_14(s, x));
    lemma_grouping(t11, "},\"salt\":"@, slot_13(s, x));
    lemma_grouping(t10, text::decimal_text(s.kdf.p as nat), slot_12(s, x));
    lemma_grouping(t9, ",\"p\":"@, slot_11(s, x));
    lemma_grouping(t8, text::decimal_text(s.kdf.t as nat), slot_10(s, x));
    lemma_grouping(t7, ",\"t\":"@, slot_9(s, x));
    lemma_grouping(t6, text::decimal_text(s.kdf.m_kib as nat), slot_8(s, x));
    lemma_grouping(t5, ",\"m_kib\":"@, slot_7(s, x));
    lemma_grouping(t4, json::json_quoted(s.kdf.algo), slot_6(s, x));
    lemma_grouping(t3, ",\"kdf\":{\"algo\":"@, slot_5(s, x));
    lemma_grouping(t2, json::json_quoted(envelope::kind_name(s.kind)), slot_4(s, x));
    lemma_grouping(t1, ",\"type\":"@, slot_3(s, x));
    lemma_grouping(t0, json::json_quoted(s.id), slot_2(s, x));
}

/// Whether two slots hold the same.
pub open spec fn alike(a: SlotV, b: SlotV) -> bool {
    &&& a.id == b.id
    &&& envelope::kind_name(a.kind) == envelope::kind_name(b.kind)
    &&& a.kdf == b.kdf
    &&& a.salt == b.salt
    &&& a.nonce == b.nonce
    &&& a.wrapped_mek == b.wrapped_mek
}

/// A slot is read in one way, whatever follows it.
proof fn lemma_slot_read(a: SlotV, b: SlotV, x: Seq<char>, y: Seq<char>)
    requires
        envelope::slot_text(a) + x == envelope::slot_text(b) + y,
    ensures
        alike(a, b),
        x == y,
{
    lemma_slot(a, x);
    lemma_slot(b, y);
    lemma_same_head("{\"id\":"@, slot_1(a, x), slot_1(b, y));
    law_literals_are_read_in_one_way(a.id, b.id, slot_2(a, x), slot_2(b, y));
    lemma_same_head(",\"type\":"@, slot_3(a, x), slot_3(b, y));
    law_literals_are_read_in_one_way(envelope::kind_name(a.kind), envelope::kind_name(b.kind), slot_4(a, x), slot_4(b, y));
    lemma_same_head(",\"kdf\":{\"algo\":"@, slot_5(a, x), slot_5(b, y));
    law_literals_are_read_in_one_way(a.kdf.algo, b.kdf.algo, slot_6(a, x), slot_6(b, y));
    lemma_same_head(",\"m_kib\":"@, slot_7(a, x), slot_7(b, y));
    reveal_strlit(",\"t\":");
    assert(",\"t\":"@[0] == ',');
    assert(slot_8(a, x)[0] == ',' && slot_8(b, y)[0] == ',');
    lemma_decimal(a.kdf.m_kib as nat, b.kdf.m_kib as nat, slot_8(a, x), slot_8(b, y));
    lemma_same_head(",\"t\":"@, slot_9(a, x), slot_9(b, y));
    reveal_strlit(",\"p\":");
    assert(",\"p\":"@[0] == ',');
    assert(slot_10(a, x)[0] == ',' && slot_10(b, y)[0] == ',');
    lemma_decimal(a.kdf.t as nat, b.kdf.t as nat, slot_10(a, x), slot_10(b, y));
    lemma_same_head(",\"p\":"@, slot_11(a, x), slot_11(b, y));
    reveal_strlit("},\"salt\":");
    assert("},\"salt\":"@[0] == '}');
    assert(slot_12(a, x)[0] == '}' && slot_12(b, y)[0] == '}');
    lemma_decimal(a.kdf.p as nat, b.kdf.p as nat, slot_12(a, x), slot_12(b, y));
    lemma_same_head("},\"salt\":"@, slot_13(a, x), slot_13(b, y));
    law_literals_are_read_in_one_way(
        crypto::base64_standard(a.salt),
        crypto::base64_standard(b.salt),
        slot_14(a, x),
        slot_14(b, y),
    );
    crypto::law_base64_is_unambiguous(a.salt, b.salt);
    lemma_same_head(",\"nonce\":"@, slot_15(a, x), slot_15(b, y));
    law_literals_are_read_in_one_way(
        crypto::base64_standard(a.nonce),
        crypto::base64_standard(b.nonce),
        slot_16(a, x),
        slot_16(b, y),
    );
    crypto::law_base64_is_unambiguous(a.nonce, b.nonce);
    lemma_same_head(",\"wrapped_mek\":"@, slot_17(a, x), slot_17(b, y));
    law_literals_are_read_in_one_way(
        crypto::base64_standard(a.wrapped_mek),
        crypto::base64_standard(b.wrapped_mek),
        slot_18(a, x),
        slot_18(b, y),
    );
    crypto::law_base64_is_unambiguous(a.wrapped_mek, b.wrapped_mek);
    lemma_same_head("}"@, x, y);
}

/// The text of a slot, as one piece.
#[verifier::opaque]
spec fn one(s: SlotV) -> Seq<char> {
    envelope::slot_text(s)
}

/// The text of the slots, as one piece.
#[verifier::opaque]
spec fn all(slots: Seq<SlotV>) -> Seq<char> {
    envelope::slots_text(slots)
}

/// What follows the first slot.
spec fn behind(slots: Seq<SlotV>, x: Seq<char>) -> Seq<char> {
    if slots.len() <= 1 {
        x
    } else {
        ","@ + (all(slots.skip(1)) + x)
    }
}

proof fn lemma_all(slots: Seq<SlotV>)
    ensures
        slots.len() == 0 ==> all(slots).len() == 0,
        slots.len() == 1 ==> all(slots) == one(slots[0]),
        slots.len() > 1 ==> all(slots) == all(slots.drop_last()) + ","@ + one(slots.last()),
{
    reveal(one);
    reveal(all);
}

/// The first slot stands first.
proof fn lemma_slots_front(slots: Seq<SlotV>)
    requires
        slots.len() > 1,
    ensures
        all(slots) == one(slots[0]) + (","@ + all(slots.skip(1))),
    decreases slots.len(),
{
    let rest = slots.skip(1);
    let fewer = slots.drop_last();
    lemma_all(slots);
    lemma_all(fewer);
    lemma_all(rest);
    let first = one(slots[0]);
    let last = one(slots.last());
    if slots.len() == 2 {
        assert(fewer.len() == 1 && fewer[0] == slots[0]);
        assert(rest.len() == 1 && rest[0] == slots.last());
        lemma_grouping(first, ","@, last);
    } else {
        lemma_slots_front(fewer);
        assert(fewer.skip(1) =~= rest.drop_last());
        assert(rest.last() == slots.last());
        let mid = all(rest.drop_last());
        assert(all(rest) == mid + ","@ + last);
        assert(first + (","@ + mid) + ","@ + last =~= first + (","@ + (mid + ","@ + last)));
    }
}

proof fn lemma_shape(slots: Seq<SlotV>, x: Seq<char>)
    ensures
        slots.len() > 0 ==> all(slots) + x == one(slots[0]) + behind(slots, x),
        slots.len() == 0 ==> all(slots) + x == x,
{
    lemma_all(slots);
    if slots.len() > 1 {
        lemma_slots_front(slots);
        lemma_grouping(one(slots[0]), ","@ + all(slots.skip(1)), x);
        lemma_grouping(","@, all(slots.skip(1)), x);
    } else if slots.len() == 0 {
        assert(all(slots) + x =~= x);
    }
}

proof fn lemma_one_starts(s: SlotV, x: Seq<char>)
    ensures
        (one(s) + x).len() > 0,
        (one(s) + x)[0] == '{',
{
    reveal(one);
    lemma_slot(s, x);
    reveal_strlit("{\"id\":");
    assert("{\"id\":"@.len() == 6 && "{\"id\":"@[0] == '{');
}

proof fn lemma_one_read(a: SlotV, b: SlotV, x: Seq<char>, y: Seq<char>)
    requires
        one(a) + x == one(b) + y,
    ensures
        alike(a, b),
        x == y,
{
    reveal(one);
    lemma_slot_read(a, b, x, y);
}

/// The slots are read in one way where a bracket follows.
proof fn lemma_slots_read(a: Seq<SlotV>, b: Seq<SlotV>, x: Seq<char>, y: Seq<char>)
    requires
        all(a) + x == all(b) + y,
        x.len() > 0,
        y.len() > 0,
        x[0] == ']',
        y[0] == ']',
    ensures
        a.len() == b.len(),
        forall|i: int| 0 <= i < a.len() ==> alike(#[trigger] a[i], b[i]),
        x == y,
    decreases a.len(),
{
    reveal_strlit(",");
    assert(","@.len() == 1 && ","@[0] == ',');
    lemma_shape(a, x);
    lemma_shape(b, y);
    if a.len() > 0 {
        lemma_one_starts(a[0], behind(a, x));
    }
    if b.len() > 0 {
        lemma_one_starts(b[0], behind(b, y));
    }
    if a.len() > 0 && b.len() > 0 {
        lemma_one_read(a[0], b[0], behind(a, x), behind(b, y));
        assert(behind(a, x)[0] == (if a.len() > 1 {
            ','
        } else {
            ']'
        }));
        assert(behind(b, y)[0] == (if b.len() > 1 {
            ','
        } else {
            ']'
        }));
        if a.len() > 1 {
            lemma_same_head(","@, all(a.skip(1)) + x, all(b.skip(1)) + y);
            lemma_slots_read(a.skip(1), b.skip(1), x, y);
            assert forall|i: int| 0 <= i < a.len() implies alike(#[trigger] a[i], b[i]) by {
                if i > 0 {
                    assert(alike(a.skip(1)[i - 1], b.skip(1)[i - 1]));
                }
            }
        }
    }
}

proof fn lemma_slots(a: Seq<SlotV>, b: Seq<SlotV>, x: Seq<char>, y: Seq<char>)
    requires
        envelope::slots_text(a) + x == envelope::slots_text(b) + y,
        x.len() > 0,
        y.len() > 0,
        x[0] == ']',
        y[0] == ']',
    ensures
        a.len() == b.len(),
        forall|i: int| 0 <= i < a.len() ==> alike(#[trigger] a[i], b[i]),
        x == y,
{
    reveal(all);
    lemma_slots_read(a, b, x, y);
}

spec fn header_8(h: HeaderV, x: Seq<char>) -> Seq<char> {
    "}}"@ + x
}

spec fn header_7(h: HeaderV, x: Seq<char>) -> Seq<char> {
    envelope::blob_text(h.dek_wrapped) + header_8(h, x)
}

spec fn header_6(h: HeaderV, x: Seq<char>) -> Seq<char> {
    ",\"wrapped\":"@ + header_7(h, x)
}

spec fn header_5(h: HeaderV, x: Seq<char>) -> Seq<char> {
    envelope::blob_text(h.dek_nonce) + header_6(h, x)
}

spec fn header_4(h: HeaderV, x: Seq<char>) -> Seq<char> {
    "],\"dek\":{\"nonce\":"@ + header_5(h, x)
}

spec fn header_3(h: HeaderV, x: Seq<char>) -> Seq<char> {
    envelope::slots_text(h.slots) + header_4(h, x)
}

spec fn header_2(h: HeaderV, x: Seq<char>) -> Seq<char> {
    ",\"slots\":["@ + header_3(h, x)
}

spec fn header_1(h: HeaderV, x: Seq<char>) -> Seq<char> {
    json::json_quoted(h.created_at) + header_2(h, x)
}

spec fn header_0(h: HeaderV, x: Seq<char>) -> Seq<char> {
    "{\"created_at\":"@ + header_1(h, x)
}

/// The text of a header, part after part.
proof fn lemma_header(h: HeaderV, x: Seq<char>)
    ensures
        envelope::header_text(h) + x == header_0(h, x),
{
    let t0 = "{\"created_at\":"@;
    let t1 = t0 + json::json_quoted(h.created_at);
    let t2 = t1 + ",\"slots\":["@;
    let t3 = t2 + envelope::slots_text(h.slots);
    let t4 = t3 + "],\"dek\":{\"nonce\":"@;
    let t5 = t4 + envelope::blob_text(h.dek_nonce);
    let t6 = t5 + ",\"wrapped\":"@;
    let t7 = t6 + envelope::blob_text(h.dek_wrapped);
    let t8 = t7 + "}}"@;
    assert(envelope::header_text(h) == t8);
    lemma_grouping(t7, "}}"@, x);
    lemma_grouping(t6, envelope::blob_text(h.dek_wrapped), header_8(h, x));
    lemma_grouping(t5, ",\"wrapped\":"@, header_7(h, x));
    lemma_grouping(t4, envelope::blob_text(h.dek_nonce), header_6(h, x));
    lemma_grouping(t3, "],\"dek\":{\"nonce\":"@, header_5(h, x));
    lemma_grouping(t2, envelope::slots_text(h.slots), header_4(h, x));
    lemma_grouping(t1, ",\"slots\":["@, header_3(h, x));
    lemma_grouping(t0, json::json_quoted(h.created_at), header_2(h, x));
}

/// Whether a kind that is none of the known ones is not called like one.
pub open spec fn proper(k: KindV) -> bool {
    k matches KindV::Other(s) ==> s != "passphrase"@ && s != "backup"@ && s != "keychain"@ && s
        != "sync"@
}

proof fn lemma_kinds(a: KindV, b: KindV)
    requires
        proper(a),
        proper(b),
        envelope::kind_name(a) == envelope::kind_name(b),
    ensures
        a == b,
{
    reveal_strlit("passphrase");
    reveal_strlit("backup");
    reveal_strlit("keychain");
    reveal_strlit("sync");
    assert("passphrase"@.len() == 10 && "backup"@.len() == 6 && "keychain"@.len() == 8
        && "sync"@.len() == 4);
}

/// Two headers with the same bytes are the same header: when it was made, every key slot
/// with its costs, its salt, its nonce and its wrapped key, and the wrapped document key.
pub proof fn law_header_bytes_determine_the_header(a: HeaderV, b: HeaderV)
    requires
        envelope::header_bytes(a) == envelope::header_bytes(b),
        forall|i: int| 0 <= i < a.slots.len() ==> proper((#[trigger] a.slots[i]).kind),
        forall|i: int| 0 <= i < b.slots.len() ==> proper((#[trigger] b.slots[i]).kind),
    ensures
        a == b,
{
    vstd::utf8::encode_utf8_decode_utf8(envelope::header_text(a));
    vstd::utf8::encode_utf8_decode_utf8(envelope::header_text(b));
    let x = Seq::<char>::empty();
    assert(envelope::header_text(a) + x =~= envelope::header_text(a));
    assert(envelope::header_text(b) + x =~= envelope::header_text(b));
    lemma_header(a, x);
    lemma_header(b, x);
    lemma_same_head("{\"created_at\":"@, header_1(a, x), header_1(b, x));
    law_literals_are_read_in_one_way(a.created_at, b.created_at, header_2(a, x), header_2(b, x));
    lemma_same_head(",\"slots\":["@, header_3(a, x), header_3(b, x));
    reveal_strlit("],\"dek\":{\"nonce\":");
    assert("],\"dek\":{\"nonce\":"@[0] == ']');
    lemma_slots(a.slots, b.slots, header_4(a, x), header_4(b, x));
    lemma_same_head("],\"dek\":{\"nonce\":"@, header_5(a, x), header_5(b, x));
    law_literals_are_read_in_one_way(
        crypto::base64_standard(a.dek_nonce),
        crypto::base64_standard(b.dek_nonce),
        header_6(a, x),
        header_6(b, x),
    );
    crypto::law_base64_is_unambiguous(a.dek_nonce, b.dek_nonce);
    lemma_same_head(",\"wrapped\":"@, header_7(a, x), header_7(b, x));
    law_literals_are_read_in_one_way(
        crypto::base64_standard(a.dek_wrapped),
        crypto::base64_standard(b.dek_wrapped),
        header_8(a, x),
        header_8(b, x),
    );
    crypto::law_base64_is_unambiguous(a.dek_wrapped, b.dek_wrapped);
    lemma_same_head("}}"@, x, x);
    assert forall|i: int| 0 <= i < a.slots.len() implies a.slots[i] == b.slots[i] by {
        assert(alike(a.slots[i], b.slots[i]));
        lemma_kinds(a.slots[i].kind, b.slots[i].kind);
    }
    assert(a.slots =~= b.slots);
}

/// The name of a kind of slot is the word for it, in the file as in what stands for it.
pub proof fn law_kinds_go_by_their_names(t: SlotType)
    ensures
        envelope::slot_type_name(t) == (match t {
            SlotType::Passphrase => "passphrase"@,
            SlotType::Backup => "backup"@,
            SlotType::Keychain => "keychain"@,
            SlotType::Sync => "sync"@,
            SlotType::Other(s) => s@,
        }),
        envelope::kind_name(t@) == envelope::slot_type_name(t),
{
}

} // verus!
