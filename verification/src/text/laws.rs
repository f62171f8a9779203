//! What the decimal notation of a number is, and what the lines of a text are.

use vstd::prelude::*;

use crate::text;

verus! {

/// The number that some decimal digits stand for.
pub open spec fn number(digits: Seq<char>) -> int
    decreases digits.len(),
{
    if digits.len() == 0 {
        0
    } else {
        10 * number(digits.drop_last()) + (digits.last() as int - '0' as int)
    }
}

/// The notation of a number has only digits, does not start with a zero unless it is one,
/// and stands for the number; that of a negative number starts with a minus sign.
pub proof fn law_decimals_stand_for_their_number(n: nat)
    ensures
        number(text::decimal_text(n)) == n,
        text::decimal_text(n).len() > 0,
        forall|i: int|
            0 <= i < text::decimal_text(n).len() ==> '0' <= #[trigger] text::decimal_text(n)[i] <= '9',
        n > 0 ==> text::decimal_text(n)[0] != '0',
        text::integer_text(n as int) == text::decimal_text(n),
        n > 0 ==> text::integer_text(-(n as int)) == "-"@ + text::decimal_text(n),
    decreases n,
{
    let d = text::decimal_text(n);
    let z = '0';
    if n < 10 {
        assert(d.drop_last() =~= Seq::<char>::empty());
        assert(number(d.drop_last()) == 0);
        assert(d.last() == text::decimal_digit(n));
        assert(text::decimal_digit(n) as int == 48 + n);
    } else {
        let m = n / 10;
        law_decimals_stand_for_their_number(m);
        assert(d.drop_last() =~= text::decimal_text(m));
        assert(d.last() == text::decimal_digit(n % 10));
        assert(text::decimal_digit(n % 10) as int == 48 + n % 10);
        assert forall|i: int| 0 <= i < d.len() implies '0' <= #[trigger] d[i] <= '9' by {
            if i < d.len() - 1 {
                assert(d[i] == text::decimal_text(m)[i]);
            }
        }
        assert(d[0] == text::decimal_text(m)[0]);
    }
}

proof fn lemma_open_line(s: Seq<char>, line: Seq<char>)
    requires
        s.len() == 0 || s.last() == '\n',
        !line.contains('\n'),
    ensures
        text::open_line(s + line) == line,
        text::ended_lines(s + line) == text::ended_lines(s),
    decreases line.len(),
{
    let t = s + line;
    if line.len() == 0 {
        assert(t =~= s);
        assert(text::open_line(s) =~= line);
    } else {
        let d = line.drop_last();
        assert(line.contains(line.last()));
        assert forall|x: char| d.contains(x) implies line.contains(x) by {
            let i = d.index_of(x);
            assert(line[i] == x);
        }
        lemma_open_line(s, d);
        assert(t.drop_last() =~= s + d);
        assert(t.last() == line.last());
        assert(d.push(line.last()) =~= line);
    }
}

/// The lines of a text are what stands between its line breaks: a line that is not empty is
/// one more line after those before it, with or without a line break behind it, and an
/// empty one is none. A carriage return before a line break belongs to the break.
pub proof fn law_lines_stand_between_line_breaks(s: Seq<char>, line: Seq<char>)
    requires
        s.len() == 0 || s.last() == '\n',
        line.len() > 0,
        !line.contains('\n'),
        line.last() != '\r',
    ensures
        text::filled_lines(s + line) == text::filled_lines(s).push(line),
        text::filled_lines(s + line + seq!['\n']) == text::filled_lines(s).push(line),
        text::filled_lines(s + line + seq!['\r', '\n']) == text::filled_lines(s).push(line),
        text::filled_lines(s.push('\n')) == text::filled_lines(s),
        text::filled_lines(Seq::empty()).len() == 0,
{
    lemma_open_line(s, line);
    lemma_open_line(s, Seq::empty());
    assert(s + Seq::<char>::empty() =~= s);
    assert(!Seq::<char>::empty().contains('\n'));
    assert(text::open_line(s).len() == 0);
    assert(text::filled_lines(s) == text::ended_lines(s));
    let one = s + line + seq!['\n'];
    assert(one.drop_last() =~= s + line);
    assert(one.last() == '\n');
    assert(text::without_return(line) == line);
    let with_return = line.push('\r');
    assert forall|i: int| 0 <= i < with_return.len() implies with_return[i] != '\n' by {
        if i < line.len() {
            assert(line.contains(line[i]));
        }
    }
    lemma_open_line(s, with_return);
    let two = s + line + seq!['\r', '\n'];
    assert(two.drop_last() =~= s + with_return);
    assert(two.last() == '\n');
    assert(text::without_return(with_return) =~= line);
    assert(s.push('\n').drop_last() =~= s);
    assert(s.push('\n').last() == '\n');
    assert(text::without_return(Seq::<char>::empty()).len() == 0);
    assert(text::open_line(s.push('\n')).len() == 0);
}

} // verus!
