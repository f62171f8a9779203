//! Deterministic dotenv text for the secrets that go into a file.
//!
//! The text is data, never shell. A value that cannot be misread is written
//! bare; any other is written between double quotes, with the backslash, the
//! double quote and the dollar sign escaped and line breaks and tabs kept as
//! they are. Keys come in order, so one set of entries has one text.

use vstd::prelude::*;

use crate::error::{Fault, VaultError};
use crate::order;
use crate::text;

pub mod laws;

verus! {

/// One variable.
pub struct Entry {
    pub key: String,
    pub value: String,
}

/// A variable by its texts, with the verdict on its key.
pub struct EntryV {
    pub key: Seq<char>,
    pub value: Seq<char>,
    pub key_ok: bool,
}

/// Whether a character is a control character.
pub open spec fn is_control(c: char) -> bool {
    c <= '\u{1f}' || '\u{7f}' <= c <= '\u{9f}'
}

/// Whether a character is white space.
pub open spec fn is_white(c: char) -> bool {
    '\u{9}' <= c <= '\u{d}' || c == ' ' || c == '\u{85}' || c == '\u{a0}' || c == '\u{1680}'
        || '\u{2000}' <= c <= '\u{200a}' || c == '\u{2028}' || c == '\u{2029}' || c == '\u{202f}'
        || c == '\u{205f}' || c == '\u{3000}'
}

/// Whether a character has a meaning in a dotenv text.
pub open spec fn is_special(c: char) -> bool {
    c == '"' || c == '\'' || c == '$' || c == '`' || c == '#' || c == '=' || c == '\\'
}

/// Whether a character can stand in a value: no control character but line
/// feed, carriage return and tab.
pub open spec fn is_representable_char(c: char) -> bool {
    !is_control(c) || c == '\n' || c == '\r' || c == '\t'
}

/// Whether a value can be written.
pub open spec fn is_representable(value: Seq<char>) -> bool {
    forall|i: int| 0 <= i < value.len() ==> is_representable_char(#[trigger] value[i])
}

fn control(c: char) -> (r: bool)
    ensures
        r == is_control(c),
{
    c <= '\u{1f}' || ('\u{7f}' <= c && c <= '\u{9f}')
}

pub fn white(c: char) -> (r: bool)
    ensures
        r == is_white(c),
{
    ('\u{9}' <= c && c <= '\u{d}') || c == ' ' || c == '\u{85}' || c == '\u{a0}' || c == '\u{1680}'
        || ('\u{2000}' <= c && c <= '\u{200a}') || c == '\u{2028}' || c == '\u{2029}' || c
        == '\u{202f}' || c == '\u{205f}' || c == '\u{3000}'
}

fn special(c: char) -> (r: bool)
    ensures
        r == is_special(c),
{
    c == '"' || c == '\'' || c == '$' || c == '`' || c == '#' || c == '=' || c == '\\'
}

pub open spec fn unrepresentable() -> Fault {
    Fault::InvalidInput("secret value contains control characters not representable in dotenv"@)
}

/// Checks that a value can be written.
pub fn validate_value(value: &str) -> (r: Result<(), VaultError>)
    ensures
        match r {
            Ok(_) => is_representable(value@),
            Err(e) => !is_representable(value@) && e@ == unrepresentable(),
        },
{
    let chars = text::chars_of(value);
    let mut i: usize = 0;
    while i < chars.len()
        invariant
            chars@ == value@,
            i <= chars@.len(),
            forall|k: int| 0 <= k < i ==> is_representable_char(#[trigger] value@[k]),
        decreases chars@.len() - i,
    {
        let c = chars[i];
        if control(c) && !(c == '\n' || c == '\r' || c == '\t') {
            assert(!is_representable_char(value@[i as int]));
            return Err(
                VaultError::InvalidInput(
                    "secret value contains control characters not representable in dotenv",
                ),
            );
        }
        i = i + 1;
    }
    Ok(())
}

/// Whether a character forces quotes.
pub open spec fn forces_quotes(c: char) -> bool {
    is_white(c) || is_special(c) || is_control(c)
}

/// Whether a value must stand between quotes.
pub open spec fn needs_quotes(value: Seq<char>) -> bool {
    value.len() == 0 || exists|i: int| 0 <= i < value.len() && forces_quotes(#[trigger] value[i])
}

/// A character between quotes.
pub open spec fn escaped_char(c: char) -> Seq<char> {
    if c == '\\' {
        seq!['\\', '\\']
    } else if c == '"' {
        seq!['\\', '"']
    } else if c == '$' {
        seq!['\\', '$']
    } else {
        seq![c]
    }
}

/// Some characters between quotes.
pub open spec fn escaped_all(s: Seq<char>) -> Seq<char>
    decreases s.len(),
{
    if s.len() == 0 {
        Seq::empty()
    } else {
        escaped_all(s.drop_last()) + escaped_char(s.last())
    }
}

/// How a value is written.
pub open spec fn escaped(value: Seq<char>) -> Seq<char> {
    if needs_quotes(value) {
        seq!['"'] + escaped_all(value) + seq!['"']
    } else {
        value
    }
}

/// Writes a value: bare where it cannot be misread, and between quotes
/// otherwise.
pub fn escape_value(value: &str) -> (r: String)
    ensures
        r@ == escaped(value@),
{
    let chars = text::chars_of(value);
    let mut quote = chars.len() == 0;
    let mut i: usize = 0;
    while i < chars.len()
        invariant
            chars@ == value@,
            i <= chars@.len(),
            quote == (chars@.len() == 0 || exists|k: int|
                0 <= k < i && forces_quotes(#[trigger] value@[k])),
        decreases chars@.len() - i,
    {
        let c = chars[i];
        if white(c) || special(c) || control(c) {
            assert(forces_quotes(value@[i as int]));
            quote = true;
        }
        i = i + 1;
    }
    if !quote {
        return value.to_string();
    }
    let mut out = String::new();
    out.push('"');
    let mut j: usize = 0;
    proof {
        assert(out@ =~= seq!['"'] + escaped_all(value@.take(0)));
    }
    while j < chars.len()
        invariant
            chars@ == value@,
            j <= chars@.len(),
            out@ == seq!['"'] + escaped_all(value@.take(j as int)),
        decreases chars@.len() - j,
    {
        let c = chars[j];
        if c == '\\' || c == '"' || c == '$' {
            out.push('\\');
        }
        out.push(c);
        proof {
            assert(value@.take(j + 1).drop_last() =~= value@.take(j as int));
            assert(value@.take(j + 1).last() == c);
            assert(out@ =~= seq!['"'] + (escaped_all(value@.take(j as int)) + escaped_char(c)));
        }
        j = j + 1;
    }
    out.push('"');
    proof {
        assert(value@.take(j as int) =~= value@);
        assert(out@ =~= seq!['"'] + escaped_all(value@) + seq!['"']);
    }
    out
}

/// What a reader makes of the characters between quotes: an escape stands for
/// the escaped character, and a bare dollar sign or double quote is not a
/// plain character there.
pub open spec fn read_quoted(s: Seq<char>) -> Option<Seq<char>>
    decreases s.len(),
{
    if s.len() == 0 {
        Some(Seq::empty())
    } else if s[0] == '\\' {
        if s.len() >= 2 && (s[1] == '\\' || s[1] == '"' || s[1] == '$') {
            match read_quoted(s.skip(2)) {
                Some(rest) => Some(seq![s[1]] + rest),
                None => None,
            }
        } else {
            None
        }
    } else if s[0] == '"' || s[0] == '$' {
        None
    } else {
        match read_quoted(s.skip(1)) {
            Some(rest) => Some(seq![s[0]] + rest),
            None => None,
        }
    }
}

/// What a reader makes of a written value.
pub open spec fn read_value(s: Seq<char>) -> Option<Seq<char>> {
    if s.len() >= 2 && s[0] == '"' && s.last() == '"' {
        read_quoted(s.subrange(1, s.len() - 1))
    } else if exists|i: int| 0 <= i < s.len() && forces_quotes(#[trigger] s[i]) {
        None
    } else {
        Some(s)
    }
}

proof fn lemma_escaped_first(s: Seq<char>)
    requires
        s.len() > 0,
    ensures
        escaped_all(s) == escaped_char(s[0]) + escaped_all(s.drop_first()),
    decreases s.len(),
{
    if s.len() == 1 {
        assert(s.drop_last() =~= Seq::<char>::empty());
        assert(s.drop_first() =~= Seq::<char>::empty());
        assert(s.last() == s[0]);
        assert(escaped_all(s.drop_last()) =~= Seq::<char>::empty());
        assert(escaped_all(s.drop_first()) =~= Seq::<char>::empty());
        assert(escaped_all(s) =~= escaped_char(s[0]));
        assert(escaped_char(s[0]) + escaped_all(s.drop_first()) =~= escaped_char(s[0]));
    } else {
        lemma_escaped_first(s.drop_last());
        assert(s.drop_last().drop_first() =~= s.drop_first().drop_last());
        assert(s.drop_first().last() == s.last());
        assert(escaped_all(s) =~= escaped_char(s[0]) + (escaped_all(s.drop_first().drop_last())
            + escaped_char(s.last())));
    }
}

proof fn lemma_quoted_reads_back(s: Seq<char>)
    ensures
        read_quoted(escaped_all(s)) == Some(s),
    decreases s.len(),
{
    if s.len() > 0 {
        lemma_escaped_first(s);
        lemma_quoted_reads_back(s.drop_first());
        let rest = escaped_all(s.drop_first());
        let e = escaped_char(s[0]) + rest;
        if s[0] == '\\' || s[0] == '"' || s[0] == '$' {
            assert(e.skip(2) =~= rest);
        } else {
            assert(e.skip(1) =~= rest);
        }
        assert(seq![s[0]] + s.drop_first() =~= s);
    }
}

/// A written value is read back as it was, byte for byte, and no dollar sign
/// in it can start an expansion.
pub proof fn law_values_read_back(value: Seq<char>)
    ensures
        read_value(escaped(value)) == Some(value),
{
    if needs_quotes(value) {
        lemma_quoted_reads_back(value);
        let w = escaped(value);
        assert(w.subrange(1, w.len() - 1) =~= escaped_all(value));
    } else {
        assert(!forces_quotes(value[0]));
    }
}

// ---------------------------------------------------------------------- files
/// The keys of some entries.
pub open spec fn keys_of(entries: Seq<EntryV>) -> Seq<Seq<char>> {
    Seq::new(entries.len(), |i: int| entries[i].key)
}

/// Some entries in the order of their keys.
pub open spec fn in_order(entries: Seq<EntryV>) -> Seq<EntryV> {
    Seq::new(
        entries.len(),
        |i: int| entries[order::sorting(keys_of(entries), entries.len())[i]],
    )
}

/// Whether a key occurs twice.
pub open spec fn has_duplicates(entries: Seq<EntryV>) -> bool {
    exists|i: int, j: int|
        0 <= i < j < entries.len() && #[trigger] entries[i].key == #[trigger] entries[j].key
}

/// What is wrong with an entry.
pub open spec fn entry_fault(e: EntryV) -> Option<Fault> {
    if !e.key_ok {
        Some(Fault::InvalidInput("invalid key name"@))
    } else if !is_representable(e.value) {
        Some(unrepresentable())
    } else {
        None
    }
}

/// What is wrong with the first entry that has something wrong.
pub open spec fn first_fault(entries: Seq<EntryV>) -> Option<Fault>
    decreases entries.len(),
{
    if entries.len() == 0 {
        None
    } else {
        match first_fault(entries.drop_last()) {
            Some(f) => Some(f),
            None => entry_fault(entries.last()),
        }
    }
}

/// The line of an entry.
pub open spec fn line(e: EntryV) -> Seq<char> {
    e.key + "="@ + escaped(e.value) + "\n"@
}

/// The lines of some entries.
pub open spec fn lines(entries: Seq<EntryV>) -> Seq<char>
    decreases entries.len(),
{
    if entries.len() == 0 {
        Seq::empty()
    } else {
        lines(entries.drop_last()) + line(entries.last())
    }
}

/// The text of some entries, or what is wrong with them.
pub open spec fn serialized(entries: Seq<EntryV>) -> Result<Seq<char>, Fault> {
    if has_duplicates(entries) {
        Err(Fault::InvalidInput("duplicate keys in injection"@))
    } else {
        match first_fault(in_order(entries)) {
            Some(f) => Err(f),
            None => Ok(lines(in_order(entries))),
        }
    }
}

/// The values of some entries.
pub open spec fn entry_values(entries: Seq<Entry>, key_ok: Seq<bool>) -> Seq<EntryV> {
    Seq::new(
        entries.len(),
        |i: int| EntryV { key: entries[i].key@, value: entries[i].value@, key_ok: key_ok[i] },
    )
}

/// Two entries with one key stand next to each other in the order.
proof fn lemma_duplicates_meet(entries: Seq<EntryV>)
    ensures
        has_duplicates(entries) <==> exists|i: int|
            0 <= i < entries.len() - 1 && (#[trigger] in_order(entries)[i]).key == in_order(
                entries,
            )[i + 1].key,
{
    let keys = keys_of(entries);
    let n = entries.len();
    let o = order::sorting(keys, n);
    let s = in_order(entries);
    order::law_sorting_sorts(keys, n);
    if has_duplicates(entries) {
        let (i, j) = choose|i: int, j: int|
            0 <= i < j < entries.len() && #[trigger] entries[i].key == #[trigger] entries[j].key;
        order::law_sorting_is_a_permutation(keys, n, i);
        order::law_sorting_is_a_permutation(keys, n, j);
        let a = choose|a: int| 0 <= a < o.len() && o[a] == i;
        let b = choose|b: int| 0 <= b < o.len() && o[b] == j;
        let (p, q) = if a < b {
            (a, b)
        } else {
            (b, a)
        };
        assert(p != q);
        assert(order::stands_before(keys, o[p], o[q]));
        assert(keys[o[p]] == keys[o[q]]);
        if p + 1 < q {
            assert(order::stands_before(keys, o[p], o[p + 1]));
            assert(order::stands_before(keys, o[p + 1], o[q]));
            order::lemma_before_irreflexive(keys[o[p]]);
            if order::before(keys[o[p]], keys[o[p + 1]]) {
                if order::before(keys[o[p + 1]], keys[o[q]]) {
                    order::lemma_before_transitive(keys[o[p]], keys[o[p + 1]], keys[o[q]]);
                }
            }
        }
        assert(s[p].key == s[p + 1].key);
    }
    if exists|i: int| 0 <= i < entries.len() - 1 && (#[trigger] s[i]).key == s[i + 1].key {
        let i = choose|i: int| 0 <= i < entries.len() - 1 && (#[trigger] s[i]).key == s[i + 1].key;
        assert(order::stands_before(keys, o[i], o[i + 1]));
        order::lemma_before_irreflexive(keys[o[i]]);
        assert(o[i] != o[i + 1]);
        let (a, b) = if o[i] < o[i + 1] {
            (o[i], o[i + 1])
        } else {
            (o[i + 1], o[i])
        };
        assert(entries[a].key == entries[b].key);
    }
}

fn keys_list(entries: &[Entry], Ghost(key_ok): Ghost<Seq<bool>>) -> (r: Vec<String>)
    ensures
        text::texts(r@) == keys_of(entry_values(entries@, key_ok)),
{
    let mut out: Vec<String> = Vec::new();
    let mut i: usize = 0;
    while i < entries.len()
        invariant
            i <= entries@.len(),
            out@.len() == i,
            forall|k: int| 0 <= k < i ==> (#[trigger] out@[k])@ == entries@[k].key@,
        decreases entries@.len() - i,
    {
        out.push(entries[i].key.clone());
        i = i + 1;
    }
    proof {
        assert(text::texts(out@) =~= keys_of(entry_values(entries@, key_ok)));
    }
    out
}

/// Writes some entries in the order of their keys, one line each. `key_ok`
/// tells of each entry whether its key is a valid name.
pub fn serialize(entries: &[Entry], key_ok: &[bool]) -> (r: Result<Vec<u8>, VaultError>)
    requires
        entries@.len() == key_ok@.len(),
    ensures
        match r {
            Ok(bytes) => serialized(entry_values(entries@, key_ok@)) matches Ok(t) && bytes@
                == text::utf8(t),
            Err(e) => serialized(entry_values(entries@, key_ok@)) == Err::<Seq<char>, Fault>(e@),
        },
{
    let ghost all = entry_values(entries@, key_ok@);
    let ghost sorted = in_order(all);
    let keys = keys_list(entries, Ghost(key_ok@));
    let places = order::sorted_positions(keys.as_slice());
    proof {
        order::law_sorting_sorts(keys_of(all), all.len());
        lemma_duplicates_meet(all);
        assert(order::positions(places@).len() == places@.len());
        assert(text::texts(keys@).len() == keys@.len());
        assert forall|k: int| 0 <= k < all.len() implies 0 <= #[trigger] places@[k] < all.len()
            && sorted[k] == all[places@[k] as int] by {
            assert(order::positions(places@)[k] == places@[k]);
        }
    }
    let mut i: usize = 1;
    while i < places.len()
        invariant
            1 <= i,
            entries@.len() == all.len(),
            all == entry_values(entries@, key_ok@),
            sorted == in_order(all),
            places@.len() == all.len(),
            forall|k: int|
                0 <= k < all.len() ==> 0 <= #[trigger] places@[k] < all.len() && sorted[k]
                    == all[places@[k] as int],
            has_duplicates(all) <==> exists|k: int|
                0 <= k < all.len() - 1 && (#[trigger] sorted[k]).key == sorted[k + 1].key,
            forall|k: int| 0 <= k < i - 1 && k < all.len() - 1 ==> (#[trigger] sorted[k]).key
                != sorted[k + 1].key,
        decreases places@.len() - i,
    {
        proof {
            assert(sorted[i - 1] == all[places@[i - 1] as int]);
            assert(sorted[i as int] == all[places@[i as int] as int]);
        }
        if text::same(&entries[places[i - 1]].key, &entries[places[i]].key) {
            return Err(VaultError::InvalidInput("duplicate keys in injection"));
        }
        i = i + 1;
    }
    assert(!has_duplicates(all));
    let mut out = String::new();
    let mut j: usize = 0;
    proof {
        assert(sorted.take(0) =~= Seq::empty());
    }
    while j < places.len()
        invariant
            entries@.len() == all.len(),
            key_ok@.len() == all.len(),
            all == entry_values(entries@, key_ok@),
            sorted == in_order(all),
            !has_duplicates(all),
            places@.len() == all.len(),
            forall|k: int|
                0 <= k < all.len() ==> 0 <= #[trigger] places@[k] < all.len() && sorted[k]
                    == all[places@[k] as int],
            j <= places@.len(),
            first_fault(sorted.take(j as int)) is None,
            out@ == lines(sorted.take(j as int)),
        decreases places@.len() - j,
    {
        let at: usize = places[j];
        proof {
            assert(sorted[j as int] == all[at as int]);
            assert(sorted.take(j + 1).drop_last() =~= sorted.take(j as int));
            assert(sorted.take(j + 1).last() == sorted[j as int]);
        }
        if !key_ok[at] {
            proof {
                lemma_first_fault(sorted, j + 1);
            }
            return Err(VaultError::InvalidInput("invalid key name"));
        }
        match validate_value(&entries[at].value) {
            Ok(_) => {},
            Err(e) => {
                proof {
                    lemma_first_fault(sorted, j + 1);
                }
                return Err(e);
            },
        }
        let mut one = entries[at].key.clone();
        one.push_str("=");
        one.push_str(&escape_value(&entries[at].value));
        one.push_str("\n");
        out.push_str(&one);
        j = j + 1;
    }
    proof {
        assert(sorted.take(j as int) =~= sorted);
    }
    Ok(vstd::slice::slice_to_vec(out.as_str().as_bytes()))
}

/// A fault among the first entries is the first fault.
proof fn lemma_first_fault(entries: Seq<EntryV>, n: int)
    requires
        0 <= n <= entries.len(),
        first_fault(entries.take(n)) is Some,
    ensures
        first_fault(entries) == first_fault(entries.take(n)),
    decreases entries.len() - n,
{
    if n == entries.len() {
        assert(entries.take(n) =~= entries);
    } else {
        assert(entries.take(n + 1).drop_last() =~= entries.take(n));
        lemma_first_fault(entries, n + 1);
    }
}

/// Whether every entry of `a` is one of `b`.
pub open spec fn all_among(a: Seq<EntryV>, b: Seq<EntryV>) -> bool {
    forall|i: int| 0 <= i < a.len() ==> b.contains(#[trigger] a[i])
}

/// The order holds the same entries.
proof fn lemma_in_order_is_complete(entries: Seq<EntryV>)
    ensures
        all_among(entries, in_order(entries)),
        all_among(in_order(entries), entries),
        !has_duplicates(entries) ==> forall|i: int, j: int|
            0 <= i < j < entries.len() ==> order::before(
                (#[trigger] in_order(entries)[i]).key,
                (#[trigger] in_order(entries)[j]).key,
            ),
{
    let keys = keys_of(entries);
    let n = entries.len();
    let o = order::sorting(keys, n);
    let s = in_order(entries);
    order::law_sorting_sorts(keys, n);
    assert forall|i: int| 0 <= i < n implies s.contains(#[trigger] entries[i]) by {
        order::law_sorting_is_a_permutation(keys, n, i);
        let a = choose|a: int| 0 <= a < o.len() && o[a] == i;
        assert(s[a] == entries[i]);
    }
    assert forall|i: int| 0 <= i < n implies entries.contains(#[trigger] s[i]) by {
        assert(entries[o[i]] == s[i]);
    }
    if !has_duplicates(entries) {
        assert forall|i: int, j: int| 0 <= i < j < n implies order::before(
            (#[trigger] s[i]).key,
            (#[trigger] s[j]).key,
        ) by {
            assert(order::stands_before(keys, o[i], o[j]));
            if keys[o[i]] == keys[o[j]] {
                assert(entries[o[i]].key == entries[o[j]].key);
            }
        }
    }
}

/// Two lists in strict order that hold the same entries are equal as far as
/// both go.
proof fn lemma_strict_order_is_unique(s: Seq<EntryV>, t: Seq<EntryV>, n: nat)
    requires
        s.len() == t.len(),
        n <= s.len(),
        all_among(s, t),
        all_among(t, s),
        forall|i: int, j: int|
            0 <= i < j < s.len() ==> order::before((#[trigger] s[i]).key, (#[trigger] s[j]).key),
        forall|i: int, j: int|
            0 <= i < j < t.len() ==> order::before((#[trigger] t[i]).key, (#[trigger] t[j]).key),
    ensures
        forall|i: int| 0 <= i < n ==> #[trigger] s[i] == t[i],
    decreases n,
{
    if n > 0 {
        let i = n - 1;
        lemma_strict_order_is_unique(s, t, (n - 1) as nat);
        assert(t.contains(s[i]));
        assert(s.contains(t[i]));
        let k = choose|k: int| 0 <= k < t.len() && t[k] == s[i];
        let m = choose|m: int| 0 <= m < s.len() && s[m] == t[i];
        order::lemma_before_irreflexive(s[i].key);
        order::lemma_before_irreflexive(t[i].key);
        if k < i {
            assert(s[k] == t[k]);
            assert(order::before(s[k].key, s[i].key));
        }
        if m < i {
            assert(s[m] == t[m]);
            assert(order::before(t[m].key, t[i].key));
        }
        if k > i {
            assert(order::before(t[i].key, t[k].key));
            if m > i {
                assert(order::before(s[i].key, s[m].key));
                order::lemma_before_transitive(s[i].key, t[i].key, s[i].key);
            }
        }
    }
}

/// A key that occurs twice does so in every order.
proof fn lemma_duplicates_stay(a: Seq<EntryV>, b: Seq<EntryV>)
    requires
        a.to_multiset() == b.to_multiset(),
        !has_duplicates(a),
    ensures
        a.len() == b.len(),
        all_among(a, b),
        all_among(b, a),
        !has_duplicates(b),
{
    a.to_multiset_ensures();
    b.to_multiset_ensures();
    assert forall|i: int| 0 <= i < a.len() implies b.contains(#[trigger] a[i]) by {
        assert(a.contains(a[i]));
        assert(a.to_multiset().count(a[i]) > 0);
    }
    assert forall|i: int| 0 <= i < b.len() implies a.contains(#[trigger] b[i]) by {
        assert(b.contains(b[i]));
        assert(b.to_multiset().count(b[i]) > 0);
    }
    assert(a.no_duplicates()) by {
        assert forall|i: int, j: int| 0 <= i < j < a.len() implies a[i] != a[j] by {
            assert(a[i].key != a[j].key);
        }
    }
    a.lemma_multiset_has_no_duplicates();
    b.lemma_multiset_has_no_duplicates_conv();
    if has_duplicates(b) {
        let (i, j) = choose|i: int, j: int|
            0 <= i < j < b.len() && #[trigger] b[i].key == #[trigger] b[j].key;
        assert(a.contains(b[i]) && a.contains(b[j]));
        let x = choose|x: int| 0 <= x < a.len() && a[x] == b[i];
        let y = choose|y: int| 0 <= y < a.len() && a[y] == b[j];
        assert(b[i] != b[j]);
        assert(a[x].key == a[y].key);
        assert(x != y);
        if x < y {
            assert(a[x].key == a[y].key);
        } else {
            assert(a[y].key == a[x].key);
        }
    }
}

/// The same entries have the same text or the same refusal, in whatever order
/// they are given.
pub proof fn law_order_of_entries_does_not_matter(a: Seq<EntryV>, b: Seq<EntryV>)
    requires
        a.to_multiset() == b.to_multiset(),
    ensures
        serialized(a) == serialized(b),
{
    if has_duplicates(a) {
        if !has_duplicates(b) {
            lemma_duplicates_stay(b, a);
        }
    } else {
        lemma_duplicates_stay(a, b);
        lemma_distinct_entries_in_order(a, b);
    }
}

proof fn lemma_distinct_entries_in_order(a: Seq<EntryV>, b: Seq<EntryV>)
    requires
        a.len() == b.len(),
        all_among(a, b),
        all_among(b, a),
        !has_duplicates(a),
        !has_duplicates(b),
    ensures
        in_order(a) == in_order(b),
{
    lemma_in_order_is_complete(a);
    lemma_in_order_is_complete(b);
    let s = in_order(a);
    let t = in_order(b);
    assert forall|i: int| 0 <= i < s.len() implies t.contains(#[trigger] s[i]) by {
        assert(a.contains(s[i]));
        let k = choose|k: int| 0 <= k < a.len() && a[k] == s[i];
        assert(b.contains(a[k]));
        let m = choose|m: int| 0 <= m < b.len() && b[m] == a[k];
        assert(t.contains(b[m]));
    }
    assert forall|i: int| 0 <= i < t.len() implies s.contains(#[trigger] t[i]) by {
        assert(b.contains(t[i]));
        let k = choose|k: int| 0 <= k < b.len() && b[k] == t[i];
        assert(a.contains(b[k]));
        let m = choose|m: int| 0 <= m < a.len() && a[m] == b[k];
        assert(s.contains(a[m]));
    }
    lemma_strict_order_is_unique(s, t, s.len());
    assert(s =~= t);
}

// -------------------------------------------------------------------- reading
/// The first place of a character from `i` on; the end where there is none.
pub open spec fn place_of(s: Seq<char>, c: char, i: int) -> int
    decreases s.len() - i,
{
    if i >= s.len() || s[i] == c {
        i
    } else {
        place_of(s, c, i + 1)
    }
}

/// The place of the closing quote from `i` on: the first one that is not
/// escaped.
pub open spec fn closing(s: Seq<char>, i: int) -> int
    decreases s.len() + 1 - i,
{
    if i >= s.len() || s[i] == '"' {
        i
    } else if s[i] == '\\' {
        closing(s, i + 2)
    } else {
        closing(s, i + 1)
    }
}

/// Where the value at the start of `s` ends: behind the closing quote, or at
/// the end of the line.
pub open spec fn value_end(s: Seq<char>) -> int {
    if s.len() > 0 && s[0] == '"' {
        closing(s, 1) + 1
    } else {
        place_of(s, '\n', 0)
    }
}

/// What a reader makes of the first variable of a text: its key, its value and
/// the rest of the text.
pub open spec fn read_entry(s: Seq<char>) -> Option<(Seq<char>, Seq<char>, Seq<char>)> {
    let k = place_of(s, '=', 0);
    let body = s.skip(k + 1);
    let end = value_end(body);
    if k >= s.len() || end >= body.len() || body[end] != '\n' {
        None
    } else {
        match read_value(body.take(end)) {
            Some(value) => Some((s.take(k), value, body.skip(end + 1))),
            None => None,
        }
    }
}

/// What a reader makes of a whole text: its variables in order.
pub open spec fn read_all(s: Seq<char>) -> Option<Seq<(Seq<char>, Seq<char>)>>
    decreases s.len(),
{
    if s.len() == 0 {
        Some(Seq::empty())
    } else {
        match read_entry(s) {
            Some((key, value, rest)) => if rest.len() < s.len() {
                match read_all(rest) {
                    Some(more) => Some(seq![(key, value)] + more),
                    None => None,
                }
            } else {
                None
            },
            None => None,
        }
    }
}

/// The variables of some entries.
pub open spec fn pairs(entries: Seq<EntryV>) -> Seq<(Seq<char>, Seq<char>)> {
    Seq::new(entries.len(), |i: int| (entries[i].key, entries[i].value))
}

/// Whether a key can be told from the equals sign that follows it.
pub open spec fn is_plain_key(key: Seq<char>) -> bool {
    !key.contains('=')
}

proof fn lemma_place_of(s: Seq<char>, c: char, i: int, n: int)
    requires
        0 <= i <= n < s.len(),
        s[n] == c,
        forall|k: int| i <= k < n ==> s[k] != c,
    ensures
        place_of(s, c, i) == n,
    decreases n - i,
{
    if i < n {
        lemma_place_of(s, c, i + 1, n);
    }
}

/// The closing quote stands behind what was escaped.
proof fn lemma_closing(head: Seq<char>, v: Seq<char>, tail: Seq<char>)
    ensures
        closing(head + escaped_all(v) + seq!['"'] + tail, head.len() as int) == head.len()
            + escaped_all(v).len(),
    decreases v.len(),
{
    let s = head + escaped_all(v) + seq!['"'] + tail;
    if v.len() == 0 {
        assert(s[head.len() as int] == '"');
    } else {
        lemma_escaped_first(v);
        let e = escaped_char(v[0]);
        let rest = v.drop_first();
        lemma_closing(head + e, rest, tail);
        assert(head + e + escaped_all(rest) + seq!['"'] + tail =~= s);
        assert(s[head.len() as int] == e[0]);
    }
}

/// A line is read back, whatever follows it.
proof fn lemma_line_reads_back(e: EntryV, rest: Seq<char>)
    requires
        is_plain_key(e.key),
    ensures
        read_entry(line(e) + rest) == Some((e.key, e.value, rest)),
{
    reveal_strlit("=");
    reveal_strlit("\n");
    assert("="@ =~= seq!['=']);
    assert("\n"@ =~= seq!['\n']);
    let s = line(e) + rest;
    let n = e.key.len() as int;
    assert forall|k: int| 0 <= k < n implies s[k] != '=' by {
        assert(e.key.contains(e.key[k]));
        assert(s[k] == e.key[k]);
    }
    assert(s[n] == '=');
    lemma_place_of(s, '=', 0, n);
    assert(s.take(n) =~= e.key);
    let w = escaped(e.value);
    let body = s.skip(n + 1);
    assert(body =~= w + seq!['\n'] + rest);
    let m = w.len() as int;
    assert(body[m] == '\n');
    if needs_quotes(e.value) {
        let tail = seq!['\n'] + rest;
        lemma_closing(seq!['"'], e.value, tail);
        assert(body =~= seq!['"'] + escaped_all(e.value) + seq!['"'] + tail);
        assert(value_end(body) == m);
    } else {
        assert forall|k: int| 0 <= k < m implies body[k] != '\n' && body[k] != '"' by {
            assert(body[k] == e.value[k]);
            assert(!forces_quotes(e.value[k]));
        }
        lemma_place_of(body, '\n', 0, m);
        assert(body[0] != '"');
    }
    assert(body.take(m) =~= w);
    assert(body.skip(m + 1) =~= rest);
    law_values_read_back(e.value);
}

proof fn lemma_lines_first(entries: Seq<EntryV>)
    requires
        entries.len() > 0,
    ensures
        lines(entries) == line(entries[0]) + lines(entries.drop_first()),
    decreases entries.len(),
{
    if entries.len() == 1 {
        assert(entries.drop_last() =~= Seq::<EntryV>::empty());
        assert(entries.drop_first() =~= Seq::<EntryV>::empty());
        assert(lines(entries.drop_last()) =~= Seq::<char>::empty());
        assert(lines(entries.drop_first()) =~= Seq::<char>::empty());
        assert(lines(entries) =~= line(entries[0]) + lines(entries.drop_first()));
    } else {
        let rest = entries.drop_first();
        lemma_lines_first(entries.drop_last());
        assert(entries.drop_last().drop_first() =~= rest.drop_last());
        assert(rest.last() == entries.last());
        assert(lines(entries) =~= line(entries[0]) + lines(rest));
    }
}

proof fn lemma_lines_read_back(entries: Seq<EntryV>)
    requires
        forall|i: int| 0 <= i < entries.len() ==> is_plain_key((#[trigger] entries[i]).key),
    ensures
        read_all(lines(entries)) == Some(pairs(entries)),
    decreases entries.len(),
{
    if entries.len() == 0 {
        assert(pairs(entries) =~= Seq::empty());
    } else {
        let rest = entries.drop_first();
        assert forall|i: int| 0 <= i < rest.len() implies is_plain_key(
            (#[trigger] rest[i]).key,
        ) by {
            assert(rest[i] == entries[i + 1]);
        }
        lemma_lines_first(entries);
        lemma_line_reads_back(entries[0], lines(rest));
        lemma_lines_read_back(rest);
        reveal_strlit("\n");
        assert(line(entries[0]).len() > 0);
        assert(seq![(entries[0].key, entries[0].value)] + pairs(rest) =~= pairs(entries));
    }
}

/// A written text is read back as a whole: every key with its value, byte for
/// byte, each of them once and the keys in strictly ascending order. A key that
/// holds an equals sign is no valid name.
pub proof fn law_files_read_back(entries: Seq<EntryV>)
    requires
        forall|i: int|
            0 <= i < entries.len() && (#[trigger] entries[i]).key_ok ==> is_plain_key(
                entries[i].key,
            ),
    ensures
        serialized(entries) matches Ok(t) ==> {
            &&& read_all(t) == Some(pairs(in_order(entries)))
            &&& pairs(in_order(entries)).len() == entries.len()
            &&& forall|i: int|
                0 <= i < entries.len() ==> pairs(in_order(entries)).contains(
                    (#[trigger] entries[i].key, entries[i].value),
                )
            &&& forall|i: int, j: int|
                0 <= i < j < entries.len() ==> order::before(
                    (#[trigger] in_order(entries)[i]).key,
                    (#[trigger] in_order(entries)[j]).key,
                )
        },
{
    if serialized(entries) is Ok {
        let s = in_order(entries);
        lemma_in_order_is_complete(entries);
        assert forall|i: int| 0 <= i < s.len() implies is_plain_key((#[trigger] s[i]).key) by {
            assert(entries.contains(s[i]));
            let k = choose|k: int| 0 <= k < entries.len() && entries[k] == s[i];
            lemma_no_fault_means_ok(s, i);
            assert(entries[k].key_ok);
        }
        lemma_lines_read_back(s);
        assert forall|i: int| 0 <= i < entries.len() implies pairs(s).contains(
            (#[trigger] entries[i].key, entries[i].value),
        ) by {
            assert(s.contains(entries[i]));
            let k = choose|k: int| 0 <= k < s.len() && s[k] == entries[i];
            assert(pairs(s)[k] == (entries[i].key, entries[i].value));
        }
    }
}

/// Where nothing is wrong, every key is valid.
proof fn lemma_no_fault_means_ok(entries: Seq<EntryV>, i: int)
    requires
        first_fault(entries) is None,
        0 <= i < entries.len(),
    ensures
        entries[i].key_ok,
    decreases entries.len(),
{
    if i < entries.len() - 1 {
        lemma_no_fault_means_ok(entries.drop_last(), i);
    }
}

} // verus!
