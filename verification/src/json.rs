//! JSON values as plain data: what requests carry as parameters and what
//! responses carry as results.
//!
//! Objects keep their members in order. A number that is not an integer is
//! held by its written form, since nothing here computes with it.

use vstd::prelude::*;

use crate::text;

pub mod laws;

verus! {

/// A JSON value.
#[derive(Debug, PartialEq)]
pub enum Json {
    Null,
    Bool(bool),
    /// A non-negative integer.
    UInt(u64),
    /// A negative integer.
    NegInt(i64),
    /// Any other number, by its written form.
    Real(String),
    Str(String),
    Array(Vec<Json>),
    Object(Vec<(String, Json)>),
}

/// The mathematical value of a [`Json`].
pub enum JsonV {
    Null,
    Bool(bool),
    UInt(u64),
    NegInt(i64),
    Real(Seq<char>),
    Str(Seq<char>),
    Array(Seq<JsonV>),
    Object(Seq<(Seq<char>, JsonV)>),
}

/// The value that a member list gives to `key`: that of the first member with
/// that name.
pub open spec fn member(members: Seq<(Seq<char>, JsonV)>, key: Seq<char>) -> Option<JsonV>
    decreases members.len(),
{
    if members.len() == 0 {
        None
    } else if members[0].0 == key {
        Some(members[0].1)
    } else {
        member(members.drop_first(), key)
    }
}

impl JsonV {
    /// The member named `key`; `None` for a missing member and for anything
    /// that is not an object.
    pub open spec fn get(self, key: Seq<char>) -> Option<JsonV> {
        match self {
            JsonV::Object(members) => member(members, key),
            _ => None,
        }
    }

    /// The member named `key`, where a missing one counts as null.
    pub open spec fn at(self, key: Seq<char>) -> JsonV {
        match self.get(key) {
            Some(v) => v,
            None => JsonV::Null,
        }
    }

    pub open spec fn text(self) -> Option<Seq<char>> {
        match self {
            JsonV::Str(s) => Some(s),
            _ => None,
        }
    }

    pub open spec fn uint(self) -> Option<u64> {
        match self {
            JsonV::UInt(n) => Some(n),
            _ => None,
        }
    }

    pub open spec fn int64(self) -> Option<i64> {
        match self {
            JsonV::UInt(n) => if n <= i64::MAX {
                Some(n as i64)
            } else {
                None
            },
            JsonV::NegInt(n) => Some(n),
            _ => None,
        }
    }

    pub open spec fn boolean(self) -> Option<bool> {
        match self {
            JsonV::Bool(b) => Some(b),
            _ => None,
        }
    }

    pub open spec fn items(self) -> Option<Seq<JsonV>> {
        match self {
            JsonV::Array(v) => Some(v),
            _ => None,
        }
    }

    /// The object with one more member at its end; anything else is unchanged.
    pub open spec fn with(self, key: Seq<char>, value: JsonV) -> JsonV {
        match self {
            JsonV::Object(members) => JsonV::Object(members.push((key, value))),
            _ => self,
        }
    }
}

/// The object without members.
pub open spec fn empty_object() -> JsonV {
    JsonV::Object(Seq::empty())
}

/// The array of texts.
pub open spec fn text_array(items: Seq<Seq<char>>) -> JsonV {
    JsonV::Array(Seq::new(items.len(), |i: int| JsonV::Str(items[i])))
}

/// An optional text: null where there is none.
pub open spec fn text_or_null(t: Option<Seq<char>>) -> JsonV {
    match t {
        Some(s) => JsonV::Str(s),
        None => JsonV::Null,
    }
}

/// An optional count: null where there is none.
pub open spec fn uint_or_null(n: Option<u64>) -> JsonV {
    match n {
        Some(k) => JsonV::UInt(k),
        None => JsonV::Null,
    }
}

/// The value of an integer.
pub open spec fn int_value(n: int) -> JsonV {
    if n < 0 {
        JsonV::NegInt(n as i64)
    } else {
        JsonV::UInt(n as u64)
    }
}

/// How a JSON string literal writes one character.
pub open spec fn json_escaped(c: char) -> Seq<char> {
    if c == '"' {
        seq!['\\', '"']
    } else if c == '\\' {
        seq!['\\', '\\']
    } else if c as int == 8 {
        seq!['\\', 'b']
    } else if c as int == 9 {
        seq!['\\', 't']
    } else if c as int == 10 {
        seq!['\\', 'n']
    } else if c as int == 12 {
        seq!['\\', 'f']
    } else if c as int == 13 {
        seq!['\\', 'r']
    } else if (c as int) < 32 {
        seq![
            '\\',
            'u',
            '0',
            '0',
            crate::crypto::hex_digit(c as int / 16),
            crate::crypto::hex_digit(c as int % 16),
        ]
    } else {
        seq![c]
    }
}

/// The characters of a text as a JSON string literal writes them.
pub open spec fn json_escaped_all(s: Seq<char>) -> Seq<char>
    decreases s.len(),
{
    if s.len() == 0 {
        Seq::empty()
    } else {
        json_escaped_all(s.drop_last()) + json_escaped(s.last())
    }
}

/// The JSON string literal of a text.
pub open spec fn json_quoted(s: Seq<char>) -> Seq<char> {
    seq!['"'] + json_escaped_all(s) + seq!['"']
}

/// `serde_json::to_string` on a string: the JSON string literal, in which the
/// quotation mark, the backslash and the control characters are escaped.
#[verifier::external_body]
pub(crate) fn quoted(s: &str) -> (r: String)
    ensures
        r@ == json_quoted(s@),
{
    serde_json::to_string(s).expect("a string has a JSON form")
}

/// The compact JSON notation of a value.
pub open spec fn json_text(j: JsonV) -> Seq<char>
    decreases j, 0int,
{
    match j {
        JsonV::Null => "null"@,
        JsonV::Bool(b) => if b {
            "true"@
        } else {
            "false"@
        },
        JsonV::UInt(n) => text::decimal_text(n as nat),
        JsonV::NegInt(n) => text::integer_text(n as int),
        JsonV::Real(s) => s,
        JsonV::Str(s) => json_quoted(s),
        JsonV::Array(items) => "["@ + items_text(items, items.len()) + "]"@,
        JsonV::Object(members) => "{"@ + members_text(members, members.len()) + "}"@,
    }
}

/// The notation of the first `n` items of an array, separated by commas.
pub open spec fn items_text(items: Seq<JsonV>, n: nat) -> Seq<char>
    decreases items, n,
{
    if n == 0 || n > items.len() {
        Seq::empty()
    } else if n == 1 {
        json_text(items[0])
    } else {
        items_text(items, (n - 1) as nat) + ","@ + json_text(items[n - 1])
    }
}

/// The notation of the first `n` members of an object, separated by commas.
pub open spec fn members_text(members: Seq<(Seq<char>, JsonV)>, n: nat) -> Seq<char>
    decreases members, n,
{
    if n == 0 || n > members.len() {
        Seq::empty()
    } else if n == 1 {
        json_quoted(members[0].0) + ":"@ + json_text(members[0].1)
    } else {
        members_text(members, (n - 1) as nat) + ","@ + json_quoted(members[n - 1].0) + ":"@
            + json_text(members[n - 1].1)
    }
}

/// The object of some texts by their names.
pub open spec fn text_object(members: Seq<(Seq<char>, Seq<char>)>) -> JsonV {
    JsonV::Object(Seq::new(members.len(), |i: int| (members[i].0, JsonV::Str(members[i].1))))
}

/// The bytes of the document that holds such an object.
pub open spec fn text_document(members: Seq<(Seq<char>, Seq<char>)>) -> Seq<u8> {
    text::utf8(json_text(text_object(members)))
}

/// Whether no name occurs twice.
pub open spec fn names_differ(members: Seq<(Seq<char>, Seq<char>)>) -> bool {
    forall|i: int, j: int|
        0 <= i < j < members.len() ==> (#[trigger] members[i]).0 != (#[trigger] members[j]).0
}

/// The text that a JSON document gives to a name; `None` where it is no JSON,
/// no object or has no such text.
pub uninterp spec fn document_text(bytes: Seq<u8>, key: Seq<char>) -> Option<Seq<char>>;

/// `serde_json::from_slice` to a `serde_json::Value`, and the text of one member
/// of it: a function of the bytes and of the name. The compact document of some
/// texts under different names gives these texts back.
#[verifier::external_body]
pub(crate) fn text_in(bytes: &[u8], key: &str) -> (r: Option<String>)
    ensures
        opt_text(r) == document_text(bytes@, key@),
        forall|members: Seq<(Seq<char>, Seq<char>)>|
            names_differ(members) && bytes@ == #[trigger] text_document(members) ==> opt_text(r)
                == text_object(members).at(key@).text(),
{
    match serde_json::from_slice::<serde_json::Value>(bytes) {
        Ok(v) => match v.get(key) {
            Some(serde_json::Value::String(s)) => Some(s.clone()),
            _ => None,
        },
        Err(_) => None,
    }
}

/// The document of an object starts with a brace.
pub proof fn lemma_documents_start_with_a_brace(members: Seq<(Seq<char>, Seq<char>)>)
    ensures
        text_document(members).len() > 0,
        text_document(members)[0] == 123,
{
    reveal_strlit("{");
    let t = json_text(text_object(members));
    assert(t[0] == '{');
    assert(vstd::utf8::encode_scalar('{' as u32)[0] == 123) by {
        assert(vstd::utf8::leading_byte_width_1(123u32) == 123) by (bit_vector);
    }
}

/// The text of an optional string.
pub open spec fn opt_text(o: Option<String>) -> Option<Seq<char>> {
    match o {
        Some(s) => Some(s@),
        None => None,
    }
}

/// The text of an optional borrowed string.
pub open spec fn opt_str(o: Option<&str>) -> Option<Seq<char>> {
    match o {
        Some(s) => Some(s@),
        None => None,
    }
}

pub open spec fn json_value(j: Json) -> JsonV
    decreases j,
{
    match j {
        Json::Null => JsonV::Null,
        Json::Bool(b) => JsonV::Bool(b),
        Json::UInt(n) => JsonV::UInt(n),
        Json::NegInt(n) => JsonV::NegInt(n),
        Json::Real(s) => JsonV::Real(s@),
        Json::Str(s) => JsonV::Str(s@),
        Json::Array(v) => JsonV::Array(
            Seq::new(
                v@.len(),
                |i: int|
                    if 0 <= i < v@.len() {
                        json_value(v@[i])
                    } else {
                        JsonV::Null
                    },
            ),
        ),
        Json::Object(v) => JsonV::Object(
            Seq::new(
                v@.len(),
                |i: int|
                    if 0 <= i < v@.len() {
                        (v@[i].0@, json_value(v@[i].1))
                    } else {
                        (Seq::empty(), JsonV::Null)
                    },
            ),
        ),
    }
}

impl View for Json {
    type V = JsonV;

    open spec fn view(&self) -> JsonV {
        json_value(*self)
    }
}

/// The values of some JSON values.
pub open spec fn values(v: Seq<Json>) -> Seq<JsonV> {
    Seq::new(v.len(), |i: int| v[i]@)
}

/// The items of the member named `key`; none where it is no array.
pub open spec fn items_at(j: JsonV, key: Seq<char>) -> Seq<JsonV> {
    match j.at(key).items() {
        Some(v) => v,
        None => Seq::empty(),
    }
}

/// The lookup in a member list is the first hit at or after any position that
/// holds no hit before it.
proof fn lemma_member_skip(members: Seq<(Seq<char>, JsonV)>, key: Seq<char>, i: int)
    requires
        0 <= i <= members.len(),
        forall|k: int| 0 <= k < i ==> (#[trigger] members[k]).0 != key,
    ensures
        member(members, key) == member(members.skip(i), key),
    decreases i,
{
    if i == 0 {
        assert(members.skip(0) =~= members);
    } else {
        lemma_member_skip(members.drop_first(), key, i - 1);
        assert(members.drop_first().skip(i - 1) =~= members.skip(i));
    }
}

/// An object with one more member gives a name what it gave it before, and the new
/// member's name the new value where it gave it none.
pub broadcast proof fn lemma_with_get(j: JsonV, k: Seq<char>, v: JsonV, key: Seq<char>)
    requires
        j is Object,
    ensures
        (#[trigger] j.with(k, v).get(key)) == (if j.get(key) is Some {
            j.get(key)
        } else if k == key {
            Some(v)
        } else {
            None
        }),
{
    lemma_push_member(j->Object_0, k, v, key);
}

proof fn lemma_push_member(
    members: Seq<(Seq<char>, JsonV)>,
    k: Seq<char>,
    v: JsonV,
    key: Seq<char>,
)
    ensures
        member(members.push((k, v)), key) == (if member(members, key) is Some {
            member(members, key)
        } else if k == key {
            Some(v)
        } else {
            None
        }),
    decreases members.len(),
{
    let longer = members.push((k, v));
    if members.len() == 0 {
        assert(longer.drop_first() =~= Seq::empty());
        assert(member(longer.drop_first(), key) is None);
        assert(longer[0] == (k, v));
    } else {
        lemma_push_member(members.drop_first(), k, v, key);
        assert(longer.drop_first() =~= members.drop_first().push((k, v)));
        assert(longer[0] == members[0]);
    }
}

/// The texts among texts are all of them.
pub proof fn lemma_texts_of_texts(items: Seq<Seq<char>>)
    ensures
        texts_among(text_array(items)->Array_0) == items,
    decreases items.len(),
{
    let all = text_array(items)->Array_0;
    if items.len() == 0 {
        assert(items =~= Seq::empty());
    } else {
        lemma_texts_of_texts(items.drop_last());
        assert(all.drop_last() =~= text_array(items.drop_last())->Array_0);
        assert(all.last() == JsonV::Str(items.last()));
        assert(items.drop_last().push(items.last()) =~= items);
    }
}

impl Json {
    /// The member named `key` of an object.
    pub fn get(&self, key: &str) -> (r: Option<&Json>)
        ensures
            match r {
                Some(j) => self@.get(key@) == Some(j@),
                None => self@.get(key@) is None,
            },
    {
        match self {
            Json::Object(members) => {
                let mut i: usize = 0;
                let ghost seen = self@->Object_0;
                while i < members.len()
                    invariant
                        i <= members@.len(),
                        seen.len() == members@.len(),
                        self@ == JsonV::Object(seen),
                        forall|k: int|
                            0 <= k < seen.len() ==> #[trigger] seen[k] == (
                                members@[k].0@,
                                members@[k].1@,
                            ),
                        forall|k: int| 0 <= k < i ==> (#[trigger] seen[k]).0 != key@,
                    decreases members@.len() - i,
                {
                    if text::same(&members[i].0, key) {
                        proof {
                            lemma_member_skip(seen, key@, i as int);
                            assert(seen.skip(i as int)[0] == seen[i as int]);
                        }
                        return Some(&members[i].1);
                    }
                    i = i + 1;
                }
                proof {
                    lemma_member_skip(seen, key@, seen.len() as int);
                }
                None
            },
            _ => None,
        }
    }

    /// The text of the member named `key`, when it is a string.
    pub fn text_at(&self, key: &str) -> (r: Option<&str>)
        ensures
            opt_str(r) == self@.at(key@).text(),
    {
        match self.get(key) {
            Some(Json::Str(s)) => Some(s.as_str()),
            _ => None,
        }
    }

    /// The count of the member named `key`, when it is a non-negative integer.
    pub fn uint_at(&self, key: &str) -> (r: Option<u64>)
        ensures
            r == self@.at(key@).uint(),
    {
        match self.get(key) {
            Some(Json::UInt(n)) => Some(*n),
            _ => None,
        }
    }

    /// The member named `key` as a signed integer.
    pub fn int_at(&self, key: &str) -> (r: Option<i64>)
        ensures
            r == self@.at(key@).int64(),
    {
        match self.get(key) {
            Some(Json::UInt(n)) => if *n <= i64::MAX as u64 {
                Some(*n as i64)
            } else {
                None
            },
            Some(Json::NegInt(n)) => Some(*n),
            _ => None,
        }
    }

    /// The flag of the member named `key`, when it is a boolean.
    pub fn bool_at(&self, key: &str) -> (r: Option<bool>)
        ensures
            r == self@.at(key@).boolean(),
    {
        match self.get(key) {
            Some(Json::Bool(b)) => Some(*b),
            _ => None,
        }
    }

    /// The items of the member named `key`, when it is an array.
    pub fn array_at(&self, key: &str) -> (r: Option<&Vec<Json>>)
        ensures
            match r {
                Some(v) => self@.at(key@).items() == Some(values(v@)),
                None => self@.at(key@).items() is None,
            },
    {
        match self.get(key) {
            Some(Json::Array(v)) => {
                assert(json_value(Json::Array(*v))->Array_0 =~= values(v@));
                Some(v)
            },
            _ => None,
        }
    }

    /// Whether the member named `key` is there and is not null.
    pub fn present(&self, key: &str) -> (r: bool)
        ensures
            r == !(self@.at(key@) is Null),
    {
        match self.get(key) {
            None => false,
            Some(Json::Null) => false,
            Some(_) => true,
        }
    }

    pub fn is_object(&self) -> (r: bool)
        ensures
            r == (self@ is Object),
    {
        match self {
            Json::Object(_) => true,
            _ => false,
        }
    }

    /// The object without members.
    pub fn object() -> (r: Json)
        ensures
            r@ == empty_object(),
    {
        let r = Json::Object(Vec::new());
        assert(r@->Object_0 =~= Seq::empty());
        r
    }

    /// An integer value.
    pub fn integer(n: i64) -> (r: Json)
        ensures
            r@ == int_value(n as int),
    {
        if n < 0 {
            Json::NegInt(n)
        } else {
            Json::UInt(n as u64)
        }
    }

    /// A string value.
    pub fn string(s: &str) -> (r: Json)
        ensures
            r@ == JsonV::Str(s@),
    {
        Json::Str(s.to_string())
    }

    /// A string value, or null.
    pub fn string_or_null(s: Option<&str>) -> (r: Json)
        ensures
            r@ == text_or_null(opt_str(s)),
    {
        match s {
            Some(t) => Json::Str(t.to_string()),
            None => Json::Null,
        }
    }

    /// A count, or null.
    pub fn uint_or_null(n: Option<u64>) -> (r: Json)
        ensures
            r@ == uint_or_null(n),
    {
        match n {
            Some(k) => Json::UInt(k),
            None => Json::Null,
        }
    }

    /// An array of string values.
    pub fn strings(items: &[String]) -> (r: Json)
        ensures
            r@ == text_array(text::texts(items@)),
    {
        let mut out: Vec<Json> = Vec::new();
        let mut i: usize = 0;
        while i < items.len()
            invariant
                i <= items@.len(),
                out@.len() == i,
                forall|k: int|
                    0 <= k < i ==> (#[trigger] out@[k])@ == JsonV::Str(items@[k]@),
            decreases items@.len() - i,
        {
            out.push(Json::Str(items[i].clone()));
            i = i + 1;
        }
        let r = Json::Array(out);
        assert(r@->Array_0 =~= text_array(text::texts(items@))->Array_0);
        r
    }

    /// Another value that is the same.
    pub fn duplicate(&self) -> (r: Json)
        ensures
            r@ == self@,
        decreases self,
    {
        match self {
            Json::Null => Json::Null,
            Json::Bool(b) => Json::Bool(*b),
            Json::UInt(n) => Json::UInt(*n),
            Json::NegInt(n) => Json::NegInt(*n),
            Json::Real(s) => Json::Real(s.clone()),
            Json::Str(s) => Json::Str(s.clone()),
            Json::Array(items) => {
                let mut out: Vec<Json> = Vec::new();
                let mut i: usize = 0;
                while i < items.len()
                    invariant
                        *self == Json::Array(*items),
                        i <= items@.len(),
                        out@.len() == i,
                        forall|k: int| 0 <= k < i ==> (#[trigger] out@[k])@ == items@[k]@,
                    decreases items@.len() - i,
                {
                    assert(decreases_to!(self => self->Array_0@[i as int]));
                    out.push(items[i].duplicate());
                    i = i + 1;
                }
                let r = Json::Array(out);
                assert(r@->Array_0 =~= self@->Array_0);
                r
            },
            Json::Object(members) => {
                let mut out: Vec<(String, Json)> = Vec::new();
                let mut i: usize = 0;
                while i < members.len()
                    invariant
                        *self == Json::Object(*members),
                        i <= members@.len(),
                        out@.len() == i,
                        forall|k: int|
                            0 <= k < i ==> (#[trigger] out@[k]).0@ == members@[k].0@
                                && out@[k].1@ == members@[k].1@,
                    decreases members@.len() - i,
                {
                    assert(decreases_to!(self => self->Object_0@[i as int].1));
                    out.push((members[i].0.clone(), members[i].1.duplicate()));
                    i = i + 1;
                }
                let r = Json::Object(out);
                assert(r@->Object_0 =~= self@->Object_0);
                r
            },
        }
    }

    /// The compact JSON notation of the value.
    pub fn to_text(&self) -> (r: String)
        ensures
            r@ == json_text(self@),
        decreases self,
    {
        match self {
            Json::Null => "null".to_string(),
            Json::Bool(b) => if *b {
                "true".to_string()
            } else {
                "false".to_string()
            },
            Json::UInt(n) => text::decimal(*n),
            Json::NegInt(n) => text::integer(*n),
            Json::Real(s) => s.clone(),
            Json::Str(s) => quoted(s),
            Json::Array(items) => {
                let ghost all = self@->Array_0;
                let mut body = String::new();
                let mut i: usize = 0;
                while i < items.len()
                    invariant
                        *self == Json::Array(*items),
                        self@ == JsonV::Array(all),
                        all.len() == items@.len(),
                        forall|k: int| 0 <= k < all.len() ==> #[trigger] all[k] == items@[k]@,
                        i <= items@.len(),
                        body@ == items_text(all, i as nat),
                    decreases items@.len() - i,
                {
                    let one = items[i].to_text();
                    if i > 0 {
                        body.push_str(",");
                    }
                    body.push_str(&one);
                    i = i + 1;
                    proof {
                        assert(body@ =~= items_text(all, i as nat));
                    }
                }
                let mut out = "[".to_string();
                out.push_str(&body);
                out.push_str("]");
                out
            },
            Json::Object(members) => {
                let ghost all = self@->Object_0;
                let mut body = String::new();
                let mut i: usize = 0;
                while i < members.len()
                    invariant
                        *self == Json::Object(*members),
                        self@ == JsonV::Object(all),
                        all.len() == members@.len(),
                        forall|k: int|
                            0 <= k < all.len() ==> #[trigger] all[k] == (
                                members@[k].0@,
                                members@[k].1@,
                            ),
                        i <= members@.len(),
                        body@ == members_text(all, i as nat),
                    decreases members@.len() - i,
                {
                    let one = members[i].1.to_text();
                    if i > 0 {
                        body.push_str(",");
                    }
                    body.push_str(&quoted(&members[i].0));
                    body.push_str(":");
                    body.push_str(&one);
                    i = i + 1;
                    proof {
                        assert(body@ =~= members_text(all, i as nat));
                    }
                }
                let mut out = "{".to_string();
                out.push_str(&body);
                out.push_str("}");
                out
            },
        }
    }

    /// Adds a member at the end of an object; leaves anything else alone.
    pub fn put(&mut self, key: &str, value: Json)
        ensures
            final(self)@ == old(self)@.with(key@, value@),
    {
        match self {
            Json::Object(members) => {
                let ghost before = members@;
                members.push((key.to_string(), value));
                proof {
                    let after = members@;
                    let ghost whole = Json::Object(*members);
                    assert(json_value(whole)->Object_0 =~= json_value(
                        *old(self),
                    )->Object_0.push((key@, value@)));
                }
            },
            _ => {},
        }
    }
}

/// The texts among some values.
pub open spec fn texts_among(items: Seq<JsonV>) -> Seq<Seq<char>>
    decreases items.len(),
{
    if items.len() == 0 {
        Seq::empty()
    } else {
        match items.last().text() {
            Some(t) => texts_among(items.drop_last()).push(t),
            None => texts_among(items.drop_last()),
        }
    }
}

/// The texts among some values.
pub fn texts_in(items: &[Json]) -> (r: Vec<String>)
    ensures
        text::texts(r@) == texts_among(values(items@)),
{
    let mut out: Vec<String> = Vec::new();
    let mut i: usize = 0;
    let ghost all = values(items@);
    proof {
        assert(all.take(0) =~= Seq::empty());
        assert(text::texts(out@) =~= Seq::<Seq<char>>::empty());
    }
    while i < items.len()
        invariant
            i <= items@.len(),
            all == values(items@),
            text::texts(out@) == texts_among(all.take(i as int)),
        decreases items@.len() - i,
    {
        proof {
            assert(all.take(i + 1).drop_last() =~= all.take(i as int));
            assert(all.take(i + 1).last() == items@[i as int]@);
        }
        match &items[i] {
            Json::Str(t) => {
                let ghost before = text::texts(out@);
                out.push(t.clone());
                proof {
                    assert(text::texts(out@) =~= before.push(t@));
                }
            },
            _ => {},
        }
        i = i + 1;
    }
    proof {
        assert(all.take(i as int) =~= all);
    }
    out
}

/// What stands for a value stands for all of it: the same variant, with every item and
/// every member in its place.
pub proof fn law_the_view_of_json_is_faithful(x: Json)
    ensures
        match (x, x@) {
            (Json::Null, JsonV::Null) => true,
            (Json::Bool(b), JsonV::Bool(v)) => v == b,
            (Json::UInt(n), JsonV::UInt(v)) => v == n,
            (Json::NegInt(n), JsonV::NegInt(v)) => v == n,
            (Json::Real(s), JsonV::Real(v)) => v == s@,
            (Json::Str(s), JsonV::Str(v)) => v == s@,
            (Json::Array(items), JsonV::Array(v)) => v.len() == items@.len() && forall|i: int|
                0 <= i < v.len() ==> #[trigger] v[i] == items@[i]@,
            (Json::Object(members), JsonV::Object(v)) => v.len() == members@.len() && forall|i: int|
                0 <= i < v.len() ==> (#[trigger] v[i]).0 == members@[i].0@ && v[i].1
                    == members@[i].1@,
            _ => false,
        },
{
}

} // verus!
