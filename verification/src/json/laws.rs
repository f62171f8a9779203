//! How a value is written, and what an object gives back.

use vstd::prelude::*;

use crate::json::{self, JsonV};
use crate::text;

verus! {

/// What stands for a character inside a string literal.
pub open spec fn escape(c: char) -> Seq<char> {
    let n = c as int;
    if n == 0x22 {
        seq!['\\', '"']
    } else if n == 0x5c {
        seq!['\\', '\\']
    } else if n == 0x08 {
        seq!['\\', 'b']
    } else if n == 0x09 {
        seq!['\\', 't']
    } else if n == 0x0a {
        seq!['\\', 'n']
    } else if n == 0x0c {
        seq!['\\', 'f']
    } else if n == 0x0d {
        seq!['\\', 'r']
    } else if n < 0x10 {
        seq!['\\', 'u', '0', '0', '0', hex(n)]
    } else if n < 0x20 {
        seq!['\\', 'u', '0', '0', '1', hex(n - 0x10)]
    } else {
        seq![c]
    }
}

/// The hexadecimal digit of a number below sixteen.
pub open spec fn hex(n: int) -> char {
    if n < 10 {
        (48 + n) as char
    } else {
        (87 + n) as char
    }
}

/// A string literal holds its characters in order between two quotes: a quote, a backslash
/// and a control character by their escape, and every other one as it is.
pub proof fn law_strings_are_written_character_by_character(a: Seq<char>, b: Seq<char>, c: char)
    ensures
        json::json_escaped_all(a + b) == json::json_escaped_all(a) + json::json_escaped_all(b),
        json::json_escaped_all(seq![c]) == escape(c),
        json::json_quoted(a) == seq!['"'] + json::json_escaped_all(a) + seq!['"'],
        json::json_escaped_all(Seq::empty()).len() == 0,
    decreases b.len(),
{
    assert(seq![c].drop_last() =~= Seq::<char>::empty());
    assert(json::json_escaped_all(seq![c].drop_last()) =~= Seq::<char>::empty());
    assert(json::json_escaped_all(seq![c]) =~= json::json_escaped(c));
    let n = c as int;
    if n < 16 {
        assert(n / 16 == 0 && n % 16 == n);
    } else if n < 32 {
        assert(n / 16 == 1 && n % 16 == n - 16);
    }
    assert(json::json_escaped(c) =~= escape(c));
    if b.len() == 0 {
        assert(a + b =~= a);
        assert(json::json_escaped_all(a) + json::json_escaped_all(b) =~= json::json_escaped_all(a));
    } else {
        law_strings_are_written_character_by_character(a, b.drop_last(), c);
        assert((a + b).drop_last() =~= a + b.drop_last());
        assert((a + b).last() == b.last());
        assert(json::json_escaped_all(a + b) =~= json::json_escaped_all(a)
            + json::json_escaped_all(b));
    }
}

/// The plain values are written by their words and digits.
pub proof fn law_plain_values_are_written_as_they_are(n: u64, m: i64, s: Seq<char>)
    requires
        m < 0,
    ensures
        json::json_text(JsonV::Null) == "null"@,
        json::json_text(JsonV::Bool(true)) == "true"@,
        json::json_text(JsonV::Bool(false)) == "false"@,
        json::json_text(JsonV::UInt(n)) == text::decimal_text(n as nat),
        json::json_text(JsonV::NegInt(m)) == "-"@ + text::decimal_text((-m) as nat),
        json::json_text(JsonV::Str(s)) == json::json_quoted(s),
        json::json_text(JsonV::Array(Seq::empty())) == "[]"@,
        json::json_text(JsonV::Object(Seq::empty())) == "{}"@,
{
    reveal_strlit("[");
    reveal_strlit("]");
    reveal_strlit("[]");
    reveal_strlit("{");
    reveal_strlit("}");
    reveal_strlit("{}");
    let none = Seq::<JsonV>::empty();
    let nobody = Seq::<(Seq<char>, JsonV)>::empty();
    assert("["@ + json::items_text(none, 0) + "]"@ =~= "[]"@);
    assert("{"@ + json::members_text(nobody, 0) + "}"@ =~= "{}"@);
}

proof fn lemma_items_prefix(items: Seq<JsonV>, x: JsonV, n: nat)
    requires
        n <= items.len(),
    ensures
        json::items_text(items.push(x), n) == json::items_text(items, n),
    decreases n,
{
    if n > 1 {
        lemma_items_prefix(items, x, (n - 1) as nat);
        assert(items.push(x)[n - 1] == items[n - 1]);
    } else if n == 1 {
        assert(items.push(x)[0] == items[0]);
    }
}

proof fn lemma_members_prefix(members: Seq<(Seq<char>, JsonV)>, x: (Seq<char>, JsonV), n: nat)
    requires
        n <= members.len(),
    ensures
        json::members_text(members.push(x), n) == json::members_text(members, n),
    decreases n,
{
    if n > 1 {
        lemma_members_prefix(members, x, (n - 1) as nat);
        assert(members.push(x)[n - 1] == members[n - 1]);
    } else if n == 1 {
        assert(members.push(x)[0] == members[0]);
    }
}

/// An array is written item after item and an object member after member, with a comma
/// between two of them, and a member as its name, a colon and its value.
pub proof fn law_arrays_and_objects_are_written_in_order(
    items: Seq<JsonV>,
    x: JsonV,
    members: Seq<(Seq<char>, JsonV)>,
    k: Seq<char>,
)
    ensures
        json::json_text(JsonV::Array(items)) == "["@ + json::items_text(items, items.len()) + "]"@,
        json::items_text(items.push(x), items.len() + 1) == (if items.len() == 0 {
            json::json_text(x)
        } else {
            json::items_text(items, items.len()) + ","@ + json::json_text(x)
        }),
        json::json_text(JsonV::Object(members)) == "{"@ + json::members_text(
            members,
            members.len(),
        ) + "}"@,
        json::members_text(members.push((k, x)), members.len() + 1) == (if members.len() == 0 {
            json::json_quoted(k) + ":"@ + json::json_text(x)
        } else {
            json::members_text(members, members.len()) + ","@ + json::json_quoted(k) + ":"@
                + json::json_text(x)
        }),
{
    lemma_items_prefix(items, x, items.len());
    lemma_members_prefix(members, (k, x), members.len());
    assert(items.push(x)[items.len() as int] == x);
    assert(members.push((k, x))[members.len() as int] == (k, x));
}

/// An object gives a name the value that was put under it first, and an absent name nothing;
/// anything else gives no name anything.
pub proof fn law_objects_give_back_what_was_put(
    members: Seq<(Seq<char>, JsonV)>,
    k: Seq<char>,
    v: JsonV,
    other: Seq<char>,
    j: JsonV,
)
    requires
        forall|i: int| 0 <= i < members.len() ==> (#[trigger] members[i]).0 != k,
        other != k,
        !(j is Object),
    ensures
        JsonV::Object(members).get(k) is None,
        JsonV::Object(members).at(k) == JsonV::Null,
        JsonV::Object(members).with(k, v).get(k) == Some(v),
        JsonV::Object(members).with(k, v).get(other) == JsonV::Object(members).get(other),
        JsonV::Object(members).with(k, v).with(k, j).get(k) == Some(v),
        j.get(k) is None,
        j.with(k, v) == j,
{
    lemma_absent(members, k);
    let o = JsonV::Object(members);
    json::lemma_with_get(o, k, v, k);
    json::lemma_with_get(o, k, v, other);
    json::lemma_with_get(o.with(k, v), k, j, k);
}

proof fn lemma_absent(members: Seq<(Seq<char>, JsonV)>, k: Seq<char>)
    requires
        forall|i: int| 0 <= i < members.len() ==> (#[trigger] members[i]).0 != k,
    ensures
        json::member(members, k) is None,
    decreases members.len(),
{
    if members.len() > 0 {
        assert(members[0].0 != k);
        let rest = members.drop_first();
        assert forall|i: int| 0 <= i < rest.len() implies (#[trigger] rest[i]).0 != k by {
            assert(members[i + 1].0 != k);
        }
        lemma_absent(rest, k);
    }
}

/// Numbers are read back as they were written, where they fit, and nothing is read as what
/// it is not.
pub proof fn law_values_are_read_as_what_they_are(n: u64, m: i64, s: Seq<char>, b: bool, v: Seq<JsonV>)
    requires
        m < 0,
    ensures
        JsonV::UInt(n).uint() == Some(n),
        JsonV::UInt(n).int64() == (if n <= 0x7fff_ffff_ffff_ffff {
            Some(n as i64)
        } else {
            None
        }),
        JsonV::NegInt(m).int64() == Some(m),
        JsonV::NegInt(m).uint() is None,
        JsonV::Str(s).text() == Some(s),
        JsonV::Str(s).uint() is None && JsonV::Str(s).int64() is None && JsonV::Str(s).boolean() is None,
        JsonV::Bool(b).boolean() == Some(b),
        JsonV::Array(v).items() == Some(v),
        JsonV::Null.text() is None && JsonV::Null.items() is None && JsonV::UInt(n).text() is None,
        json::int_value(m as int) == JsonV::NegInt(m),
        json::int_value(n as int) == JsonV::UInt(n),
{
}

} // verus!
