//! The canonical form of an entry determines the entry: nothing that is recorded
//! can be changed without changing the bytes that hash and MAC cover.

use vstd::prelude::*;

use crate::audit::chain;
use crate::audit::laws;
use crate::audit::{self, EventV, LineV};
use crate::crypto;
use crate::json;
use crate::text;

verus! {

// ------------------------------------------------------------------- literals
/// One escaped character is read back in one way.
proof fn lemma_escaped_character(c: char, d: char, x: Seq<char>, y: Seq<char>)
    requires
        json::json_escaped(c) + x == json::json_escaped(d) + y,
    ensures
        c == d,
        x == y,
{
    let a = json::json_escaped(c) + x;
    let b = json::json_escaped(d) + y;
    assert(a[0] == json::json_escaped(c)[0]);
    assert(b[0] == json::json_escaped(d)[0]);
    if json::json_escaped(c).len() > 1 {
        assert(a[1] == json::json_escaped(c)[1]);
    }
    if json::json_escaped(d).len() > 1 {
        assert(b[1] == json::json_escaped(d)[1]);
    }
    if json::json_escaped(c).len() == 6 && json::json_escaped(d).len() == 6 {
        assert(a[4] == json::json_escaped(c)[4] && a[5] == json::json_escaped(c)[5]);
        assert(b[4] == json::json_escaped(d)[4] && b[5] == json::json_escaped(d)[5]);
        assert(c as int / 16 == d as int / 16);
        assert(c as int % 16 == d as int % 16);
    }
    assert(c == d);
    let n = json::json_escaped(c).len() as int;
    assert(a.skip(n) =~= x);
    assert(b.skip(n) =~= y);
}

/// The first character of a text is escaped first.
proof fn lemma_escaped_front(s: Seq<char>)
    requires
        s.len() > 0,
    ensures
        json::json_escaped_all(s) == json::json_escaped(s[0]) + json::json_escaped_all(s.skip(1)),
    decreases s.len(),
{
    if s.len() == 1 {
        assert(s.drop_last() =~= Seq::empty());
        assert(s.skip(1) =~= Seq::empty());
        assert(json::json_escaped_all(s.drop_last()) =~= Seq::empty());
        assert(json::json_escaped_all(s) =~= json::json_escaped(s[0])
            + json::json_escaped_all(s.skip(1)));
    } else {
        let init = s.drop_last();
        lemma_escaped_front(init);
        assert(init[0] == s[0]);
        assert(init.skip(1) =~= s.skip(1).drop_last());
        assert(s.skip(1).last() == s.last());
        assert(json::json_escaped_all(s) =~= json::json_escaped(s[0]) + (
        json::json_escaped_all(init.skip(1)) + json::json_escaped(s.last())));
    }
}

/// No escaped character starts with a quotation mark.
proof fn lemma_escaped_is_no_quote(c: char, x: Seq<char>)
    ensures
        (json::json_escaped(c) + x).len() > 0,
        (json::json_escaped(c) + x)[0] != '"',
{
    assert((json::json_escaped(c) + x)[0] == json::json_escaped(c)[0]);
}

proof fn lemma_escaped_text(a: Seq<char>, b: Seq<char>, x: Seq<char>, y: Seq<char>)
    requires
        json::json_escaped_all(a) + (seq!['"'] + x) == json::json_escaped_all(b) + (seq!['"'] + y),
    ensures
        a == b,
        x == y,
    decreases a.len(),
{
    let p = seq!['"'] + x;
    let q = seq!['"'] + y;
    if a.len() == 0 && b.len() == 0 {
        assert(json::json_escaped_all(a) + p =~= p);
        assert(json::json_escaped_all(b) + q =~= q);
        assert(p.skip(1) =~= x);
        assert(q.skip(1) =~= y);
        assert(a =~= b);
    } else if a.len() == 0 {
        assert(json::json_escaped_all(a) + p =~= p);
        lemma_escaped_front(b);
        let rest = json::json_escaped_all(b.skip(1)) + q;
        assert(json::json_escaped_all(b) + q =~= json::json_escaped(b[0]) + rest);
        lemma_escaped_is_no_quote(b[0], rest);
        assert(p[0] == '"');
    } else if b.len() == 0 {
        assert(json::json_escaped_all(b) + q =~= q);
        lemma_escaped_front(a);
        let rest = json::json_escaped_all(a.skip(1)) + p;
        assert(json::json_escaped_all(a) + p =~= json::json_escaped(a[0]) + rest);
        lemma_escaped_is_no_quote(a[0], rest);
        assert(q[0] == '"');
    } else {
        lemma_escaped_front(a);
        lemma_escaped_front(b);
        let s = json::json_escaped_all(a.skip(1)) + p;
        let t = json::json_escaped_all(b.skip(1)) + q;
        assert(json::json_escaped_all(a) + p =~= json::json_escaped(a[0]) + s);
        assert(json::json_escaped_all(b) + q =~= json::json_escaped(b[0]) + t);
        lemma_escaped_character(a[0], b[0], s, t);
        lemma_escaped_text(a.skip(1), b.skip(1), x, y);
        assert(a =~= seq![a[0]] + a.skip(1));
        assert(b =~= seq![b[0]] + b.skip(1));
    }
}

/// A string literal is read back in one way, whatever follows it.
pub proof fn law_literals_are_read_in_one_way(
    a: Seq<char>,
    b: Seq<char>,
    x: Seq<char>,
    y: Seq<char>,
)
    requires
        json::json_quoted(a) + x == json::json_quoted(b) + y,
    ensures
        a == b,
        x == y,
{
    let s = json::json_quoted(a) + x;
    let t = json::json_quoted(b) + y;
    assert(s.skip(1) =~= json::json_escaped_all(a) + (seq!['"'] + x));
    assert(t.skip(1) =~= json::json_escaped_all(b) + (seq!['"'] + y));
    lemma_escaped_text(a, b, x, y);
}

// -------------------------------------------------------------------- numbers
pub open spec fn is_digit(c: char) -> bool {
    '0' <= c <= '9'
}

proof fn lemma_decimals_are_digits(n: nat)
    ensures
        text::decimal_text(n).len() > 0,
        forall|i: int|
            0 <= i < text::decimal_text(n).len() ==> is_digit(#[trigger] text::decimal_text(n)[i]),
    decreases n,
{
    if n >= 10 {
        lemma_decimals_are_digits(n / 10);
    }
}

proof fn lemma_decimals_differ(n: nat, m: nat)
    requires
        text::decimal_text(n) == text::decimal_text(m),
    ensures
        n == m,
    decreases n,
{
    lemma_decimals_are_digits(n / 10);
    lemma_decimals_are_digits(m / 10);
    let a = text::decimal_text(n);
    let b = text::decimal_text(m);
    assert(a.last() == b.last());
    if n >= 10 && m >= 10 {
        assert(a.drop_last() =~= text::decimal_text(n / 10));
        assert(b.drop_last() =~= text::decimal_text(m / 10));
        lemma_decimals_differ(n / 10, m / 10);
    } else if n >= 10 {
        assert(a.len() >= 2);
    } else if m >= 10 {
        assert(b.len() >= 2);
    }
}

/// A number is read back in one way where no digit follows it.
pub proof fn lemma_decimal(n: nat, m: nat, x: Seq<char>, y: Seq<char>)
    requires
        text::decimal_text(n) + x == text::decimal_text(m) + y,
        x.len() > 0,
        y.len() > 0,
        !is_digit(x[0]),
        !is_digit(y[0]),
    ensures
        n == m,
        x == y,
{
    let a = text::decimal_text(n);
    let b = text::decimal_text(m);
    lemma_decimals_are_digits(n);
    lemma_decimals_are_digits(m);
    let s = a + x;
    let t = b + y;
    if a.len() < b.len() {
        assert(s[a.len() as int] == x[0]);
        assert(t[a.len() as int] == b[a.len() as int]);
    } else if b.len() < a.len() {
        assert(t[b.len() as int] == y[0]);
        assert(s[b.len() as int] == a[b.len() as int]);
    }
    assert(a =~= s.take(a.len() as int));
    assert(b =~= t.take(b.len() as int));
    assert(x =~= s.skip(a.len() as int));
    assert(y =~= t.skip(b.len() as int));
    lemma_decimals_differ(n, m);
}

/// An integer is read back in one way where no digit follows it.
proof fn lemma_integer(n: int, m: int, x: Seq<char>, y: Seq<char>)
    requires
        text::integer_text(n) + x == text::integer_text(m) + y,
        x.len() > 0,
        y.len() > 0,
        !is_digit(x[0]),
        !is_digit(y[0]),
    ensures
        n == m,
        x == y,
{
    reveal_strlit("-");
    let s = text::integer_text(n) + x;
    let t = text::integer_text(m) + y;
    lemma_decimals_are_digits(n as nat);
    lemma_decimals_are_digits(m as nat);
    if n < 0 {
        assert(s[0] == '-');
    } else {
        assert(s[0] == text::decimal_text(n as nat)[0]);
    }
    if m < 0 {
        assert(t[0] == '-');
    } else {
        assert(t[0] == text::decimal_text(m as nat)[0]);
    }
    if n < 0 {
        assert(s.skip(1) =~= text::decimal_text((-n) as nat) + x);
        assert(t.skip(1) =~= text::decimal_text((-m) as nat) + y);
        lemma_decimal((-n) as nat, (-m) as nat, x, y);
    } else {
        lemma_decimal(n as nat, m as nat, x, y);
    }
}

// -------------------------------------------------------- optional and listed
pub proof fn lemma_same_head(h: Seq<char>, x: Seq<char>, y: Seq<char>)
    requires
        h + x == h + y,
    ensures
        x == y,
{
    assert((h + x).skip(h.len() as int) =~= x);
    assert((h + y).skip(h.len() as int) =~= y);
}

proof fn lemma_quoted_or_null(
    a: Option<Seq<char>>,
    b: Option<Seq<char>>,
    x: Seq<char>,
    y: Seq<char>,
)
    requires
        audit::quoted_or_null(a) + x == audit::quoted_or_null(b) + y,
    ensures
        a == b,
        x == y,
{
    reveal_strlit("null");
    let s = audit::quoted_or_null(a) + x;
    let t = audit::quoted_or_null(b) + y;
    assert(s[0] == audit::quoted_or_null(a)[0]);
    assert(t[0] == audit::quoted_or_null(b)[0]);
    match (a, b) {
        (Some(p), Some(q)) => {
            law_literals_are_read_in_one_way(p, q, x, y);
        },
        (None, None) => {
            lemma_same_head("null"@, x, y);
        },
        _ => {},
    }
}

/// The first item of a list is written first.
proof fn lemma_list_front(items: Seq<Seq<char>>)
    requires
        items.len() > 1,
    ensures
        audit::quoted_list(items) == json::json_quoted(items[0]) + ","@ + audit::quoted_list(
            items.skip(1),
        ),
    decreases items.len(),
{
    let init = items.drop_last();
    assert(items.skip(1).last() == items.last());
    if items.len() == 2 {
        assert(init[0] == items[0]);
        assert(items.skip(1)[0] == items.last());
        assert(audit::quoted_list(init) == json::json_quoted(items[0]));
        assert(audit::quoted_list(items.skip(1)) == json::json_quoted(items.last()));
    } else {
        lemma_list_front(init);
        assert(init[0] == items[0]);
        assert(init.skip(1) =~= items.skip(1).drop_last());
        let head = json::json_quoted(items[0]) + ","@;
        let body = audit::quoted_list(init.skip(1));
        let tail = json::json_quoted(items.last());
        assert(audit::quoted_list(items) == (head + body) + ","@ + tail);
        assert((head + body) + ","@ + tail =~= head + (body + ","@ + tail));
    }
}

proof fn lemma_list(
    a: Seq<Seq<char>>,
    b: Seq<Seq<char>>,
    x: Seq<char>,
    y: Seq<char>,
)
    requires
        audit::quoted_list(a) + x == audit::quoted_list(b) + y,
        x.len() > 0,
        y.len() > 0,
        x[0] == ']',
        y[0] == ']',
    ensures
        a == b,
        x == y,
    decreases a.len(),
{
    reveal_strlit(",");
    let s = audit::quoted_list(a) + x;
    let t = audit::quoted_list(b) + y;
    if a.len() == 0 && b.len() == 0 {
        assert(s =~= x);
        assert(t =~= y);
        assert(a =~= b);
    } else if a.len() == 0 || b.len() == 0 {
        let l = if a.len() == 0 {
            b
        } else {
            a
        };
        if l.len() > 1 {
            lemma_list_front(l);
        }
        assert(audit::quoted_list(l).len() > 0 && audit::quoted_list(l)[0] == '"');
        if a.len() == 0 {
            assert(s =~= x);
            assert(t[0] == '"');
        } else {
            assert(t =~= y);
            assert(s[0] == '"');
        }
    } else {
        let p = if a.len() == 1 {
            x
        } else {
            ","@ + (audit::quoted_list(a.skip(1)) + x)
        };
        let q = if b.len() == 1 {
            y
        } else {
            ","@ + (audit::quoted_list(b.skip(1)) + y)
        };
        if a.len() > 1 {
            lemma_list_front(a);
            assert(p[0] == ',');
        }
        if b.len() > 1 {
            lemma_list_front(b);
            assert(q[0] == ',');
        }
        assert(s =~= json::json_quoted(a[0]) + p);
        assert(t =~= json::json_quoted(b[0]) + q);
        law_literals_are_read_in_one_way(a[0], b[0], p, q);
        if a.len() > 1 {
            lemma_same_head(
                ","@,
                audit::quoted_list(a.skip(1)) + x,
                audit::quoted_list(b.skip(1)) + y,
            );
            lemma_list(a.skip(1), b.skip(1), x, y);
        }
        assert(a =~= seq![a[0]] + a.skip(1));
        assert(b =~= seq![b[0]] + b.skip(1));
    }
}

/// Whether a text starts with another one.
spec fn starts(s: Seq<char>, head: Seq<char>) -> bool {
    s.len() >= head.len() && s.take(head.len() as int) == head
}

proof fn lemma_text_member(
    head: Seq<char>,
    a: Option<Seq<char>>,
    b: Option<Seq<char>>,
    x: Seq<char>,
    y: Seq<char>,
)
    requires
        audit::text_member(head, a) + x == audit::text_member(head, b) + y,
        !starts(x, head),
        !starts(y, head),
    ensures
        a == b,
        x == y,
{
    match (a, b) {
        (Some(p), Some(q)) => {
            assert((head + json::json_quoted(p)) + x =~= head + (json::json_quoted(p) + x));
            assert((head + json::json_quoted(q)) + y =~= head + (json::json_quoted(q) + y));
            lemma_same_head(head, json::json_quoted(p) + x, json::json_quoted(q) + y);
            law_literals_are_read_in_one_way(p, q, x, y);
        },
        (Some(p), None) => {
            assert(audit::text_member(head, b) + y =~= y);
            assert(((head + json::json_quoted(p)) + x).take(head.len() as int) =~= head);
        },
        (None, Some(q)) => {
            assert(audit::text_member(head, a) + x =~= x);
            assert(((head + json::json_quoted(q)) + y).take(head.len() as int) =~= head);
        },
        (None, None) => {
            assert(audit::text_member(head, a) + x =~= x);
            assert(audit::text_member(head, b) + y =~= y);
        },
    }
}

proof fn lemma_int_member(
    head: Seq<char>,
    a: Option<int>,
    b: Option<int>,
    x: Seq<char>,
    y: Seq<char>,
)
    requires
        audit::int_member(head, a) + x == audit::int_member(head, b) + y,
        !starts(x, head),
        !starts(y, head),
        x.len() > 0,
        y.len() > 0,
        !is_digit(x[0]),
        !is_digit(y[0]),
    ensures
        a == b,
        x == y,
{
    match (a, b) {
        (Some(p), Some(q)) => {
            assert((head + text::integer_text(p)) + x =~= head + (text::integer_text(p) + x));
            assert((head + text::integer_text(q)) + y =~= head + (text::integer_text(q) + y));
            lemma_same_head(head, text::integer_text(p) + x, text::integer_text(q) + y);
            lemma_integer(p, q, x, y);
        },
        (Some(p), None) => {
            assert(audit::int_member(head, b) + y =~= y);
            assert(((head + text::integer_text(p)) + x).take(head.len() as int) =~= head);
        },
        (None, Some(q)) => {
            assert(audit::int_member(head, a) + x =~= x);
            assert(((head + text::integer_text(q)) + y).take(head.len() as int) =~= head);
        },
        (None, None) => {
            assert(audit::int_member(head, a) + x =~= x);
            assert(audit::int_member(head, b) + y =~= y);
        },
    }
}

// ------------------------------------------------------------ the whole event
spec fn from_end(e: EventV) -> Seq<char> {
    "}"@
}

spec fn from_signal(e: EventV) -> Seq<char> {
    audit::text_member(",\"signal\":"@, e.signal) + from_end(e)
}

spec fn from_exit_code(e: EventV) -> Seq<char> {
    audit::int_member(",\"exit_code\":"@, audit::opt_i32(e.exit_code)) + from_signal(e)
}

spec fn from_result(e: EventV) -> Seq<char> {
    audit::text_member(",\"result\":"@, e.result) + from_exit_code(e)
}

spec fn from_cwd(e: EventV) -> Seq<char> {
    audit::text_member(",\"cwd\":"@, e.cwd) + from_result(e)
}

spec fn from_arg_count(e: EventV) -> Seq<char> {
    audit::int_member(",\"arg_count\":"@, audit::opt_u64(e.arg_count)) + from_cwd(e)
}

spec fn from_executable(e: EventV) -> Seq<char> {
    audit::text_member(",\"executable\":"@, e.executable) + from_arg_count(e)
}

spec fn from_run_id(e: EventV) -> Seq<char> {
    audit::text_member(",\"run_id\":"@, e.run_id) + from_executable(e)
}

spec fn from_reason(e: EventV) -> Seq<char> {
    audit::quoted_or_null(e.reason) + from_run_id(e)
}

spec fn from_reason_name(e: EventV) -> Seq<char> {
    "\",\"reason\":"@ + from_reason(e)
}

spec fn from_decision(e: EventV) -> Seq<char> {
    e.decision.word() + from_reason_name(e)
}

spec fn from_decision_name(e: EventV) -> Seq<char> {
    ",\"decision\":\""@ + from_decision(e)
}

spec fn from_target(e: EventV) -> Seq<char> {
    audit::quoted_or_null(e.target) + from_decision_name(e)
}

spec fn from_target_name(e: EventV) -> Seq<char> {
    "],\"target\":"@ + from_target(e)
}

spec fn from_keys(e: EventV) -> Seq<char> {
    audit::quoted_list(e.keys) + from_target_name(e)
}

spec fn from_keys_name(e: EventV) -> Seq<char> {
    ",\"keys\":["@ + from_keys(e)
}

spec fn from_project(e: EventV) -> Seq<char> {
    audit::quoted_or_null(e.project) + from_keys_name(e)
}

spec fn from_project_name(e: EventV) -> Seq<char> {
    ",\"project\":"@ + from_project(e)
}

spec fn from_op(e: EventV) -> Seq<char> {
    json::json_quoted(e.op) + from_project_name(e)
}

spec fn from_op_name(e: EventV) -> Seq<char> {
    ",\"op\":"@ + from_op(e)
}

spec fn from_actor(e: EventV) -> Seq<char> {
    json::json_quoted(e.actor) + from_op_name(e)
}

spec fn from_actor_name(e: EventV) -> Seq<char> {
    ",\"actor\":"@ + from_actor(e)
}

spec fn from_prev_hash(e: EventV) -> Seq<char> {
    json::json_quoted(e.prev_hash) + from_actor_name(e)
}

spec fn from_prev_hash_name(e: EventV) -> Seq<char> {
    ",\"prev_hash\":"@ + from_prev_hash(e)
}

spec fn from_seq(e: EventV) -> Seq<char> {
    text::decimal_text(e.seq as nat) + from_prev_hash_name(e)
}

spec fn from_seq_name(e: EventV) -> Seq<char> {
    ",\"seq\":"@ + from_seq(e)
}

spec fn from_ts(e: EventV) -> Seq<char> {
    json::json_quoted(e.ts) + from_seq_name(e)
}

spec fn from_ts_name(e: EventV) -> Seq<char> {
    "{\"ts\":"@ + from_ts(e)
}

/// Texts may be joined in any grouping.
pub proof fn lemma_grouping(a: Seq<char>, b: Seq<char>, c: Seq<char>)
    ensures
        (a + b) + c == a + (b + c),
{
    assert((a + b) + c =~= a + (b + c));
}

/// The canonical text, part after part.
proof fn lemma_parts(e: EventV)
    ensures
        audit::canonical_text(e) == from_ts_name(e),
{
    let c0 = "{\"ts\":"@;
    let c1 = c0 + json::json_quoted(e.ts);
    let c2 = c1 + ",\"seq\":"@;
    let c3 = c2 + text::decimal_text(e.seq as nat);
    let c4 = c3 + ",\"prev_hash\":"@;
    let c5 = c4 + json::json_quoted(e.prev_hash);
    let c6 = c5 + ",\"actor\":"@;
    let c7 = c6 + json::json_quoted(e.actor);
    let c8 = c7 + ",\"op\":"@;
    let c9 = c8 + json::json_quoted(e.op);
    let c10 = c9 + ",\"project\":"@;
    let c11 = c10 + audit::quoted_or_null(e.project);
    let c12 = c11 + ",\"keys\":["@;
    let c13 = c12 + audit::quoted_list(e.keys);
    let c14 = c13 + "],\"target\":"@;
    let c15 = c14 + audit::quoted_or_null(e.target);
    let c16 = c15 + ",\"decision\":\""@;
    let c17 = c16 + e.decision.word();
    let c18 = c17 + "\",\"reason\":"@;
    let c19 = c18 + audit::quoted_or_null(e.reason);
    assert(audit::core_members(e) == c19);
    let r0 = audit::text_member(",\"run_id\":"@, e.run_id);
    let r1 = r0 + audit::text_member(",\"executable\":"@, e.executable);
    let r2 = r1 + audit::int_member(",\"arg_count\":"@, audit::opt_u64(e.arg_count));
    let r3 = r2 + audit::text_member(",\"cwd\":"@, e.cwd);
    let r4 = r3 + audit::text_member(",\"result\":"@, e.result);
    let r5 = r4 + audit::int_member(",\"exit_code\":"@, audit::opt_i32(e.exit_code));
    let r6 = r5 + audit::text_member(",\"signal\":"@, e.signal);
    assert(audit::run_members(e) == r6);
    let all = c19 + r6 + "}"@;
    lemma_grouping(c19, r6, "}"@);
    lemma_grouping(r5, audit::text_member(",\"signal\":"@, e.signal), from_end(e));
    lemma_grouping(r4, audit::int_member(",\"exit_code\":"@, audit::opt_i32(e.exit_code)), from_signal(e));
    lemma_grouping(r3, audit::text_member(",\"result\":"@, e.result), from_exit_code(e));
    lemma_grouping(r2, audit::text_member(",\"cwd\":"@, e.cwd), from_result(e));
    lemma_grouping(r1, audit::int_member(",\"arg_count\":"@, audit::opt_u64(e.arg_count)), from_cwd(e));
    lemma_grouping(r0, audit::text_member(",\"executable\":"@, e.executable), from_arg_count(e));
    lemma_grouping(c18, audit::quoted_or_null(e.reason), from_run_id(e));
    lemma_grouping(c17, "\",\"reason\":"@, from_reason(e));
    lemma_grouping(c16, e.decision.word(), from_reason_name(e));
    lemma_grouping(c15, ",\"decision\":\""@, from_decision(e));
    lemma_grouping(c14, audit::quoted_or_null(e.target), from_decision_name(e));
    lemma_grouping(c13, "],\"target\":"@, from_target(e));
    lemma_grouping(c12, audit::quoted_list(e.keys), from_target_name(e));
    lemma_grouping(c11, ",\"keys\":["@, from_keys(e));
    lemma_grouping(c10, audit::quoted_or_null(e.project), from_keys_name(e));
    lemma_grouping(c9, ",\"project\":"@, from_project(e));
    lemma_grouping(c8, json::json_quoted(e.op), from_project_name(e));
    lemma_grouping(c7, ",\"op\":"@, from_op(e));
    lemma_grouping(c6, json::json_quoted(e.actor), from_op_name(e));
    lemma_grouping(c5, ",\"actor\":"@, from_actor(e));
    lemma_grouping(c4, json::json_quoted(e.prev_hash), from_actor_name(e));
    lemma_grouping(c3, ",\"prev_hash\":"@, from_prev_hash(e));
    lemma_grouping(c2, text::decimal_text(e.seq as nat), from_prev_hash_name(e));
    lemma_grouping(c1, ",\"seq\":"@, from_seq(e));
    lemma_grouping(c0, json::json_quoted(e.ts), from_seq_name(e));
}

/// What follows the members that every event has starts with a comma and the name
/// of a member, or ends the object.
proof fn lemma_starts(e: EventV)
    ensures
        !starts(from_executable(e), ",\"run_id\":"@),
        !starts(from_arg_count(e), ",\"executable\":"@),
        !starts(from_cwd(e), ",\"arg_count\":"@),
        !starts(from_result(e), ",\"cwd\":"@),
        !starts(from_exit_code(e), ",\"result\":"@),
        !starts(from_signal(e), ",\"exit_code\":"@),
        !starts(from_end(e), ",\"signal\":"@),
        from_run_id(e).len() > 0 && !is_digit(from_run_id(e)[0]),
        from_executable(e).len() > 0 && !is_digit(from_executable(e)[0]),
        from_arg_count(e).len() > 0 && !is_digit(from_arg_count(e)[0]),
        from_cwd(e).len() > 0 && !is_digit(from_cwd(e)[0]),
        from_result(e).len() > 0 && !is_digit(from_result(e)[0]),
        from_exit_code(e).len() > 0 && !is_digit(from_exit_code(e)[0]),
        from_signal(e).len() > 0 && !is_digit(from_signal(e)[0]),
        from_end(e).len() > 0 && !is_digit(from_end(e)[0]),
{
    reveal_strlit("}");
    reveal_strlit(",\"run_id\":");
    reveal_strlit(",\"executable\":");
    reveal_strlit(",\"arg_count\":");
    reveal_strlit(",\"cwd\":");
    reveal_strlit(",\"result\":");
    reveal_strlit(",\"exit_code\":");
    reveal_strlit(",\"signal\":");
    if e.signal is Some {
        assert(from_signal(e)[0] == ',');
        assert(from_signal(e)[1] == '"');
        assert(from_signal(e)[2] == 's');
        assert(from_signal(e)[3] == 'i');
        assert(from_signal(e)[4] == 'g');
    } else {
        assert(from_signal(e) =~= from_end(e));
    }
    if audit::opt_i32(e.exit_code) is Some {
        assert(from_exit_code(e)[0] == ',');
        assert(from_exit_code(e)[1] == '"');
        assert(from_exit_code(e)[2] == 'e');
        assert(from_exit_code(e)[3] == 'x');
        assert(from_exit_code(e)[4] == 'i');
    } else {
        assert(from_exit_code(e) =~= from_signal(e));
    }
    if e.result is Some {
        assert(from_result(e)[0] == ',');
        assert(from_result(e)[1] == '"');
        assert(from_result(e)[2] == 'r');
        assert(from_result(e)[3] == 'e');
        assert(from_result(e)[4] == 's');
    } else {
        assert(from_result(e) =~= from_exit_code(e));
    }
    if e.cwd is Some {
        assert(from_cwd(e)[0] == ',');
        assert(from_cwd(e)[1] == '"');
        assert(from_cwd(e)[2] == 'c');
        assert(from_cwd(e)[3] == 'w');
        assert(from_cwd(e)[4] == 'd');
    } else {
        assert(from_cwd(e) =~= from_result(e));
    }
    if audit::opt_u64(e.arg_count) is Some {
        assert(from_arg_count(e)[0] == ',');
        assert(from_arg_count(e)[1] == '"');
        assert(from_arg_count(e)[2] == 'a');
        assert(from_arg_count(e)[3] == 'r');
        assert(from_arg_count(e)[4] == 'g');
    } else {
        assert(from_arg_count(e) =~= from_cwd(e));
    }
    if e.executable is Some {
        assert(from_executable(e)[0] == ',');
        assert(from_executable(e)[1] == '"');
        assert(from_executable(e)[2] == 'e');
        assert(from_executable(e)[3] == 'x');
        assert(from_executable(e)[4] == 'e');
    } else {
        assert(from_executable(e) =~= from_arg_count(e));
    }
    if e.run_id is Some {
        assert(from_run_id(e)[0] == ',');
        assert(from_run_id(e)[1] == '"');
        assert(from_run_id(e)[2] == 'r');
        assert(from_run_id(e)[3] == 'u');
        assert(from_run_id(e)[4] == 'n');
    } else {
        assert(from_run_id(e) =~= from_executable(e));
    }
    if starts(from_executable(e), ",\"run_id\":"@) {
        assert(from_executable(e).take(10)[0] == ',');
        assert(from_executable(e).take(10)[1] == '"');
        assert(from_executable(e).take(10)[2] == 'r');
        assert(from_executable(e).take(10)[3] == 'u');
        assert(from_executable(e).take(10)[4] == 'n');
    }
    if starts(from_arg_count(e), ",\"executable\":"@) {
        assert(from_arg_count(e).take(14)[0] == ',');
        assert(from_arg_count(e).take(14)[1] == '"');
        assert(from_arg_count(e).take(14)[2] == 'e');
        assert(from_arg_count(e).take(14)[3] == 'x');
        assert(from_arg_count(e).take(14)[4] == 'e');
    }
    if starts(from_cwd(e), ",\"arg_count\":"@) {
        assert(from_cwd(e).take(13)[0] == ',');
        assert(from_cwd(e).take(13)[1] == '"');
        assert(from_cwd(e).take(13)[2] == 'a');
        assert(from_cwd(e).take(13)[3] == 'r');
        assert(from_cwd(e).take(13)[4] == 'g');
    }
    if starts(from_result(e), ",\"cwd\":"@) {
        assert(from_result(e).take(7)[0] == ',');
        assert(from_result(e).take(7)[1] == '"');
        assert(from_result(e).take(7)[2] == 'c');
        assert(from_result(e).take(7)[3] == 'w');
        assert(from_result(e).take(7)[4] == 'd');
    }
    if starts(from_exit_code(e), ",\"result\":"@) {
        assert(from_exit_code(e).take(10)[0] == ',');
        assert(from_exit_code(e).take(10)[1] == '"');
        assert(from_exit_code(e).take(10)[2] == 'r');
        assert(from_exit_code(e).take(10)[3] == 'e');
        assert(from_exit_code(e).take(10)[4] == 's');
    }
    if starts(from_signal(e), ",\"exit_code\":"@) {
        assert(from_signal(e).take(13)[0] == ',');
        assert(from_signal(e).take(13)[1] == '"');
        assert(from_signal(e).take(13)[2] == 'e');
        assert(from_signal(e).take(13)[3] == 'x');
        assert(from_signal(e).take(13)[4] == 'i');
    }
    if starts(from_end(e), ",\"signal\":"@) {
        assert(from_end(e).take(10)[0] == ',');
        assert(from_end(e).take(10)[1] == '"');
        assert(from_end(e).take(10)[2] == 's');
        assert(from_end(e).take(10)[3] == 'i');
        assert(from_end(e).take(10)[4] == 'g');
    }
}

/// The canonical text determines the event.
proof fn lemma_text_determines_event(a: EventV, b: EventV)
    requires
        audit::canonical_text(a) == audit::canonical_text(b),
    ensures
        a == b,
{
    lemma_parts(a);
    lemma_parts(b);
    lemma_starts(a);
    lemma_starts(b);
    lemma_same_head("{\"ts\":"@, from_ts(a), from_ts(b));
    law_literals_are_read_in_one_way(a.ts, b.ts, from_seq_name(a), from_seq_name(b));
    lemma_same_head(",\"seq\":"@, from_seq(a), from_seq(b));
    reveal_strlit(",\"prev_hash\":");
    assert(from_prev_hash_name(a)[0] == ',' && from_prev_hash_name(b)[0] == ',');
    lemma_decimal(a.seq as nat, b.seq as nat, from_prev_hash_name(a), from_prev_hash_name(b));
    lemma_same_head(",\"prev_hash\":"@, from_prev_hash(a), from_prev_hash(b));
    law_literals_are_read_in_one_way(a.prev_hash, b.prev_hash, from_actor_name(a), from_actor_name(b));
    lemma_same_head(",\"actor\":"@, from_actor(a), from_actor(b));
    law_literals_are_read_in_one_way(a.actor, b.actor, from_op_name(a), from_op_name(b));
    lemma_same_head(",\"op\":"@, from_op(a), from_op(b));
    law_literals_are_read_in_one_way(a.op, b.op, from_project_name(a), from_project_name(b));
    lemma_same_head(",\"project\":"@, from_project(a), from_project(b));
    lemma_quoted_or_null(a.project, b.project, from_keys_name(a), from_keys_name(b));
    lemma_same_head(",\"keys\":["@, from_keys(a), from_keys(b));
    reveal_strlit("],\"target\":");
    assert(from_target_name(a)[0] == ']' && from_target_name(b)[0] == ']');
    lemma_list(a.keys, b.keys, from_target_name(a), from_target_name(b));
    lemma_same_head("],\"target\":"@, from_target(a), from_target(b));
    lemma_quoted_or_null(a.target, b.target, from_decision_name(a), from_decision_name(b));
    lemma_same_head(",\"decision\":\""@, from_decision(a), from_decision(b));
    reveal_strlit("allowed");
    reveal_strlit("denied");
    assert(from_decision(a)[0] == a.decision.word()[0] && from_decision(b)[0] == b.decision.word()[0]);
    assert(a.decision == b.decision);
    lemma_same_head(a.decision.word(), from_reason_name(a), from_reason_name(b));
    lemma_same_head("\",\"reason\":"@, from_reason(a), from_reason(b));
    lemma_quoted_or_null(a.reason, b.reason, from_run_id(a), from_run_id(b));
    lemma_text_member(",\"run_id\":"@, a.run_id, b.run_id, from_executable(a), from_executable(b));
    lemma_text_member(",\"executable\":"@, a.executable, b.executable, from_arg_count(a), from_arg_count(b));
    lemma_int_member(",\"arg_count\":"@, audit::opt_u64(a.arg_count), audit::opt_u64(b.arg_count), from_cwd(a), from_cwd(b));
    lemma_text_member(",\"cwd\":"@, a.cwd, b.cwd, from_result(a), from_result(b));
    lemma_text_member(",\"result\":"@, a.result, b.result, from_exit_code(a), from_exit_code(b));
    lemma_int_member(",\"exit_code\":"@, audit::opt_i32(a.exit_code), audit::opt_i32(b.exit_code), from_signal(a), from_signal(b));
    lemma_text_member(",\"signal\":"@, a.signal, b.signal, from_end(a), from_end(b));
}

/// The canonical bytes determine the event: no field of it can be changed without
/// changing them.
pub proof fn law_canonical_bytes_determine_the_event(a: EventV, b: EventV)
    requires
        audit::canonical_bytes(a) == audit::canonical_bytes(b),
    ensures
        a == b,
{
    vstd::utf8::encode_utf8_decode_utf8(audit::canonical_text(a));
    vstd::utf8::encode_utf8_decode_utf8(audit::canonical_text(b));
    lemma_text_determines_event(a, b);
}

/// What hash and MAC cover determines the entry and the hash before it.
pub proof fn law_covered_bytes_determine_the_entry(
    p: Seq<u8>,
    a: EventV,
    q: Seq<u8>,
    b: EventV,
)
    requires
        p.len() == q.len(),
        chain::covered(p, a) == chain::covered(q, b),
    ensures
        p == q,
        a == b,
{
    let s = chain::covered(p, a);
    let t = chain::covered(q, b);
    assert(s.take(p.len() as int) =~= p);
    assert(t.take(q.len() as int) =~= q);
    assert(s.skip(p.len() as int) =~= audit::canonical_bytes(a));
    assert(t.skip(q.len() as int) =~= audit::canonical_bytes(b));
    law_canonical_bytes_determine_the_event(a, b);
}

/// Entries with one chain hash are one entry after one history, unless SHA-256
/// gives their bytes one digest.
pub proof fn law_hashes_determine_the_entry(p: Seq<u8>, a: EventV, q: Seq<u8>, b: EventV)
    requires
        p.len() == q.len(),
        chain::chain_hash(p, a) == chain::chain_hash(q, b),
        ({
            let x = p + audit::canonical_bytes(a);
            let y = q + audit::canonical_bytes(b);
            x != y ==> crypto::sha256_digest(x) != crypto::sha256_digest(y)
        }),
    ensures
        p == q,
        a == b,
{
    law_covered_bytes_determine_the_entry(p, a, q, b);
}

/// Entries with one MAC are one entry after one history, unless HMAC-SHA256 gives
/// their bytes one tag.
pub proof fn law_macs_determine_the_entry(
    key: Seq<u8>,
    p: Seq<u8>,
    a: EventV,
    q: Seq<u8>,
    b: EventV,
)
    requires
        p.len() == q.len(),
        chain::chain_mac(key, p, a) == chain::chain_mac(key, q, b),
        ({
            let x = p + audit::canonical_bytes(a);
            let y = q + audit::canonical_bytes(b);
            x != y ==> crypto::hmac_tag(key, x) != crypto::hmac_tag(key, y)
        }),
    ensures
        p == q,
        a == b,
{
    law_covered_bytes_determine_the_entry(p, a, q, b);
}

/// Changing any field of an entry, with its stored hash left as it was, breaks a
/// verified log, unless SHA-256 gives both contents one digest.
pub proof fn law_every_change_is_detected(
    lines: Seq<Option<LineV>>,
    key: Option<Seq<u8>>,
    i: int,
    forged: EventV,
)
    requires
        chain::walked(lines, key) is Ok,
        0 <= i < lines.len(),
        forged != lines[i]->0.event,
        ({
            let before = laws::hash_before(lines, i);
            let x = before + audit::canonical_bytes(forged);
            let y = before + audit::canonical_bytes(lines[i]->0.event);
            x != y ==> crypto::sha256_digest(x) != crypto::sha256_digest(y)
        }),
    ensures
        chain::walked(
            lines.update(i, Some(LineV { event: forged, ..lines[i]->0 })),
            key,
        ) is Err,
{
    let before = laws::hash_before(lines, i);
    let event = lines[i]->0.event;
    if chain::chain_hash(before, forged) == chain::chain_hash(before, event) {
        law_hashes_determine_the_entry(before, forged, before, event);
    }
    laws::law_tampering_is_detected(lines, key, i, forged);
}

} // verus!
