//! When a file of secrets is written, what is quoted in it, and how it reads.

use vstd::prelude::*;

use crate::dotenv::{self, EntryV};
use crate::error::Fault;
use crate::order;

verus! {

/// Whether a character stands for itself in a value without quotes.
pub open spec fn is_bare(c: char) -> bool {
    let n = c as int;
    &&& n > 32
    &&& !(127 <= n <= 160)
    &&& n != 34 && n != 35 && n != 36 && n != 39 && n != 61 && n != 92 && n != 96
    &&& n != 0x1680 && !(0x2000 <= n <= 0x200a) && n != 0x2028 && n != 0x2029 && n != 0x202f && n
        != 0x205f && n != 0x3000
}

/// A value is written as it is exactly when it is not empty and holds no white space, no
/// control character, no quote, dollar sign, backquote, hash, equals sign or backslash;
/// any other value is written in double quotes.
pub proof fn law_values_are_quoted_where_needed(value: Seq<char>)
    ensures
        value.len() > 0 && (forall|i: int| 0 <= i < value.len() ==> is_bare(#[trigger] value[i]))
            ==> dotenv::escaped(value) == value,
        value.len() == 0 || (exists|i: int| 0 <= i < value.len() && !is_bare(#[trigger] value[i]))
            ==> dotenv::escaped(value) == seq!['"'] + dotenv::escaped_all(value) + seq!['"'],
{
    assert forall|c: char| #[trigger] is_bare(c) <==> !dotenv::forces_quotes(c) by {
        lemma_bare(c);
    }
    if exists|i: int| 0 <= i < value.len() && !is_bare(#[trigger] value[i]) {
        let i = choose|i: int| 0 <= i < value.len() && !is_bare(#[trigger] value[i]);
        assert(dotenv::forces_quotes(value[i]));
    }
    if exists|i: int| 0 <= i < value.len() && dotenv::forces_quotes(#[trigger] value[i]) {
        let i = choose|i: int| 0 <= i < value.len() && dotenv::forces_quotes(#[trigger] value[i]);
        assert(!is_bare(value[i]));
    }
}

proof fn lemma_bare(c: char)
    ensures
        is_bare(c) <==> !dotenv::forces_quotes(c),
{
}

/// Inside quotes a backslash, a quote and a dollar sign get a backslash before them, every
/// other character stands for itself, and the characters stand in their order.
pub proof fn law_quoted_characters_stand_in_their_order(a: Seq<char>, b: Seq<char>, c: char)
    ensures
        dotenv::escaped_all(a + b) == dotenv::escaped_all(a) + dotenv::escaped_all(b),
        dotenv::escaped_all(seq![c]) == (if c == '\\' || c == '"' || c == '$' {
            seq!['\\', c]
        } else {
            seq![c]
        }),
    decreases b.len(),
{
    assert(seq![c].drop_last() =~= Seq::<char>::empty());
    assert(dotenv::escaped_all(seq![c].drop_last()) =~= Seq::<char>::empty());
    assert(dotenv::escaped_all(seq![c]) =~= dotenv::escaped_char(c));
    if b.len() == 0 {
        assert(a + b =~= a);
        assert(dotenv::escaped_all(a) + dotenv::escaped_all(b) =~= dotenv::escaped_all(a));
    } else {
        law_quoted_characters_stand_in_their_order(a, b.drop_last(), c);
        assert((a + b).drop_last() =~= a + b.drop_last());
        assert((a + b).last() == b.last());
        assert(dotenv::escaped_all(a + b) =~= dotenv::escaped_all(a) + dotenv::escaped_all(b));
    }
}

/// Whether a text can be written: no control character but the line breaks and the tab.
pub open spec fn can_be_written(value: Seq<char>) -> bool {
    forall|i: int|
        0 <= i < value.len() ==> {
            let n = #[trigger] value[i] as int;
            n == 9 || n == 10 || n == 13 || (n >= 32 && !(127 <= n <= 159))
        }
}

/// A file is written exactly when no key occurs twice, every key is a valid name and every
/// value can be written.
pub proof fn law_proper_entries_are_written(entries: Seq<EntryV>)
    ensures
        dotenv::serialized(entries) is Ok <==> {
            &&& forall|i: int, j: int|
                0 <= i < j < entries.len() ==> (#[trigger] entries[i]).key != (
                #[trigger] entries[j]).key
            &&& forall|i: int|
                0 <= i < entries.len() ==> (#[trigger] entries[i]).key_ok && can_be_written(
                    entries[i].value,
                )
        },
        dotenv::has_duplicates(entries) ==> dotenv::serialized(entries) == Err::<Seq<char>, Fault>(
            Fault::InvalidInput("duplicate keys in injection"@),
        ),
{
    let keys = dotenv::keys_of(entries);
    let places = order::sorting(keys, entries.len());
    let sorted = dotenv::in_order(entries);
    order::law_sorting_sorts(keys, entries.len());
    lemma_first_fault(sorted);
    assert forall|e: EntryV| #[trigger] dotenv::entry_fault(e) is None <==> e.key_ok
        && can_be_written(e.value) by {
        lemma_entry_fault(e);
    }
    if forall|i: int|
        0 <= i < entries.len() ==> (#[trigger] entries[i]).key_ok && can_be_written(
            entries[i].value,
        ) {
        assert forall|i: int| 0 <= i < sorted.len() implies dotenv::entry_fault(
            #[trigger] sorted[i],
        ) is None by {
            assert(sorted[i] == entries[places[i]]);
        }
    }
    if dotenv::first_fault(sorted) is None {
        assert forall|k: int| 0 <= k < entries.len() implies (#[trigger] entries[k]).key_ok
            && can_be_written(entries[k].value) by {
            order::law_sorting_is_a_permutation(keys, entries.len(), k);
            let i = places.index_of(k);
            assert(sorted[i] == entries[k]);
            assert(dotenv::entry_fault(sorted[i]) is None);
        }
    }
    if !dotenv::has_duplicates(entries) {
        assert forall|i: int, j: int| 0 <= i < j < entries.len() implies (
        #[trigger] entries[i]).key != (#[trigger] entries[j]).key by {}
    }
}

proof fn lemma_entry_fault(e: EntryV)
    ensures
        dotenv::entry_fault(e) is None <==> e.key_ok && can_be_written(e.value),
        !e.key_ok ==> dotenv::entry_fault(e) == Some(Fault::InvalidInput("invalid key name"@)),
{
    if dotenv::is_representable(e.value) {
        assert forall|i: int| 0 <= i < e.value.len() implies {
            let n = #[trigger] e.value[i] as int;
            n == 9 || n == 10 || n == 13 || (n >= 32 && !(127 <= n <= 159))
        } by {
            assert(dotenv::is_representable_char(e.value[i]));
        }
    }
    if can_be_written(e.value) {
        assert forall|i: int| 0 <= i < e.value.len() implies dotenv::is_representable_char(
            #[trigger] e.value[i],
        ) by {
            let n = e.value[i] as int;
            assert(n == 9 || n == 10 || n == 13 || (n >= 32 && !(127 <= n <= 159)));
        }
    }
}

proof fn lemma_first_fault(entries: Seq<EntryV>)
    ensures
        dotenv::first_fault(entries) is None <==> forall|i: int|
            0 <= i < entries.len() ==> dotenv::entry_fault(#[trigger] entries[i]) is None,
    decreases entries.len(),
{
    if entries.len() > 0 {
        lemma_first_fault(entries.drop_last());
        let last = entries.len() - 1;
        assert(entries.last() == entries[last]);
        if forall|i: int|
            0 <= i < entries.len() ==> dotenv::entry_fault(#[trigger] entries[i]) is None {
            assert forall|i: int| 0 <= i < last implies dotenv::entry_fault(
                #[trigger] entries.drop_last()[i],
            ) is None by {
                assert(entries[i] == entries.drop_last()[i]);
            }
        } else if dotenv::first_fault(entries) is None {
            assert forall|i: int| 0 <= i < entries.len() implies dotenv::entry_fault(
                #[trigger] entries[i],
            ) is None by {
                if i < last {
                    assert(entries.drop_last()[i] == entries[i]);
                }
            }
        }
    }
}

/// An entry is a line of its key, an equals sign and its value; entries stand line after
/// line.
pub proof fn law_entries_stand_line_by_line(e: EntryV, a: Seq<EntryV>, b: Seq<EntryV>)
    ensures
        dotenv::lines(seq![e]) == e.key + "="@ + dotenv::escaped(e.value) + "\n"@,
        dotenv::lines(a + b) == dotenv::lines(a) + dotenv::lines(b),
    decreases b.len(),
{
    assert(seq![e].drop_last() =~= Seq::<EntryV>::empty());
    assert(dotenv::lines(seq![e].drop_last()) =~= Seq::<char>::empty());
    assert(dotenv::lines(seq![e]) =~= dotenv::line(e));
    if b.len() == 0 {
        assert(a + b =~= a);
        assert(dotenv::lines(a) + dotenv::lines(b) =~= dotenv::lines(a));
    } else {
        law_entries_stand_line_by_line(e, a, b.drop_last());
        assert((a + b).drop_last() =~= a + b.drop_last());
        assert((a + b).last() == b.last());
        assert(dotenv::lines(a + b) =~= dotenv::lines(a) + dotenv::lines(b));
    }
}

} // verus!
