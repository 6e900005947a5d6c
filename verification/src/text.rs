//! Text as sequences of characters: decimal numerals, lines, and the
//! executable helpers that append them to a `String`.

use vstd::prelude::*;
use crate::chains::{chain, lemma_chain_step, lemma_repeat_step, repeat};
use crate::lines::{free_of, holds, join_lines, lemma_join_concat, lemma_join_front, split_lines};

verus! {

/// The character that writes the digit `d`.
pub open spec fn digit_char(d: nat) -> char
    recommends
        d < 10,
{
    (48 + d) as u8 as char
}

/// Is `c` one of the ten decimal digits?
pub open spec fn is_digit(c: char) -> bool {
    '0' <= c <= '9'
}

/// The decimal numeral of `n`: no sign, no leading zero, at least one digit.
pub open spec fn decimal(n: nat) -> Seq<char>
    decreases n,
{
    if n < 10 {
        seq![digit_char(n)]
    } else {
        decimal(n / 10).push(digit_char(n % 10))
    }
}

/// `count` zeros in a row.
pub open spec fn zeros(count: nat) -> Seq<char> {
    Seq::new(count, |i: int| '0')
}

/// The decimal numeral of `n`, with zeros in front until it is `width`
/// characters wide. A numeral that is wider already stays as it is.
pub open spec fn zero_padded(n: nat, width: nat) -> Seq<char> {
    if decimal(n).len() >= width {
        decimal(n)
    } else {
        zeros((width - decimal(n).len()) as nat) + decimal(n)
    }
}

/// The line terminator.
pub open spec fn newline() -> Seq<char> {
    seq!['\n']
}

/// The character that ends a line.
pub open spec fn line_feed() -> char {
    '\n'
}

/// The text made of `lines`, each followed by a line terminator.
pub open spec fn unlines(lines: Seq<Seq<char>>) -> Seq<char> {
    join_lines(lines, line_feed())
}

/// The lines of `text`: what stands between its line feeds.
pub open spec fn text_lines(text: Seq<char>) -> Seq<Seq<char>> {
    split_lines(text, line_feed())
}

/// The text of one line is the line and a line feed.
pub proof fn lemma_unlines_one(line: Seq<char>)
    ensures
        unlines(seq![line]) == line + newline(),
{
    let lines = seq![line];
    lemma_join_front(lines, line_feed());
}

/// The text of two runs of lines is the text of the first followed by the
/// text of the second.
pub proof fn lemma_unlines_concat(first: Seq<Seq<char>>, second: Seq<Seq<char>>)
    ensures
        unlines(first + second) == unlines(first) + unlines(second),
{
    lemma_join_concat(first, second, line_feed());
}

/// One more line puts itself and a line feed behind the text.
pub proof fn lemma_unlines_push(lines: Seq<Seq<char>>, line: Seq<char>)
    ensures
        unlines(lines.push(line)) == unlines(lines) + line + newline(),
{
    assert(lines.push(line) =~= lines + seq![line]);
    lemma_unlines_concat(lines, seq![line]);
    lemma_unlines_one(line);
}

/// The text of a chain of line groups grows by the text of one group.
pub proof fn lemma_unlines_chain_step(n: nat, f: spec_fn(int) -> Seq<Seq<char>>)
    ensures
        unlines(chain(n + 1, f)) == unlines(chain(n, f)) + unlines(f(n as int)),
        unlines(chain(0, f)) == Seq::<char>::empty(),
{
    lemma_chain_step(n, f);
    lemma_unlines_concat(chain(n, f), f(n as int));
}

/// The text of a repeated line grows by one copy of the line.
pub proof fn lemma_unlines_repeat_step(count: nat, line: Seq<char>)
    ensures
        unlines(repeat(count + 1, line)) == unlines(repeat(count, line)) + line + newline(),
        unlines(repeat(0, line)) == Seq::<char>::empty(),
{
    lemma_repeat_step(count, line);
    lemma_unlines_push(repeat(count, line), line);
}

/// Every character of a decimal numeral is a digit, and there is at least one.
pub proof fn lemma_decimal_digits(n: nat)
    ensures
        decimal(n).len() >= 1,
        forall|i: int| 0 <= i < decimal(n).len() ==> is_digit(#[trigger] decimal(n)[i]),
    decreases n,
{
    if n >= 10 {
        lemma_decimal_digits(n / 10);
    }
}

/// How wide the numerals below ten thousand are.
pub proof fn lemma_decimal_width(n: nat)
    ensures
        n < 10 ==> decimal(n).len() == 1,
        10 <= n < 100 ==> decimal(n).len() == 2,
        100 <= n < 1000 ==> decimal(n).len() == 3,
        1000 <= n ==> decimal(n).len() >= 4,
    decreases n,
{
    if n >= 10 {
        lemma_decimal_width(n / 10);
    }
}

/// The number that a text of digits writes.
pub open spec fn numeral_value(digits: Seq<char>) -> nat
    decreases digits.len(),
{
    if digits.len() == 0 {
        0
    } else {
        (10 * numeral_value(digits.drop_last()) + (digits.last() as int - 48)) as nat
    }
}

/// A decimal numeral writes the number that it was made from.
pub proof fn lemma_decimal_value(n: nat)
    ensures
        numeral_value(decimal(n)) == n,
    decreases n,
{
    reveal_with_fuel(numeral_value, 2);
    if n >= 10 {
        lemma_decimal_value(n / 10);
        assert(decimal(n).drop_last() =~= decimal(n / 10));
    }
}

/// Different numbers have different numerals.
pub proof fn lemma_decimal_injective(a: nat, b: nat)
    requires
        decimal(a) == decimal(b),
    ensures
        a == b,
{
    lemma_decimal_value(a);
    lemma_decimal_value(b);
}

/// Does `line` hold no character at all?
pub open spec fn blank(line: Seq<char>) -> bool {
    line.len() == 0
}

/// Is `c` the first character of `line`?
pub open spec fn starts(line: Seq<char>, c: char) -> bool {
    line.len() > 0 && line[0] == c
}

/// Does `line` begin with the characters of `prefix`?
pub open spec fn begins_with(line: Seq<char>, prefix: Seq<char>) -> bool {
    prefix.is_prefix_of(line)
}

/// A line that starts with another character than `prefix` does not begin
/// with `prefix`, and neither does a blank line.
pub proof fn lemma_foreign(line: Seq<char>, prefix: Seq<char>)
    requires
        prefix.len() > 0,
        !starts(line, prefix[0]),
    ensures
        !begins_with(line, prefix),
{
}

/// A line that differs from `prefix` at one of the prefix's places does not
/// begin with `prefix`.
pub proof fn lemma_differs(line: Seq<char>, prefix: Seq<char>, at: int)
    requires
        0 <= at < prefix.len(),
        at < line.len(),
        line[at] != prefix[at],
    ensures
        !begins_with(line, prefix),
{
}

/// A pattern with the character `c` in it stands in no line that is free of
/// `c`.
pub proof fn lemma_free_holds_not(line: Seq<char>, pattern: Seq<char>, c: char, at: int)
    requires
        free_of(line, c),
        0 <= at < pattern.len(),
        pattern[at] == c,
    ensures
        !holds(line, pattern),
{
}

/// A decimal numeral is free of every character that is no digit.
pub proof fn lemma_decimal_free(n: nat, c: char)
    requires
        !is_digit(c),
    ensures
        free_of(decimal(n), c),
{
    lemma_decimal_digits(n);
}

/// Is every character of `text` a digit?
pub open spec fn all_digits(text: Seq<char>) -> bool {
    forall|i: int| 0 <= i < text.len() ==> is_digit(#[trigger] text[i])
}

/// Two texts that put different digits behind the same head are different,
/// as long as something that is no digit follows the digits of each.
pub proof fn lemma_digits_distinct(
    head: Seq<char>,
    a: Seq<char>,
    tail_a: Seq<char>,
    b: Seq<char>,
    tail_b: Seq<char>,
)
    requires
        a != b,
        all_digits(a),
        all_digits(b),
        tail_a.len() > 0 && !is_digit(tail_a[0]),
        tail_b.len() > 0 && !is_digit(tail_b[0]),
    ensures
        head + a + tail_a != head + b + tail_b,
{
    let x = head + a + tail_a;
    let y = head + b + tail_b;
    let wa = a.len() as int;
    let wb = b.len() as int;
    let h = head.len() as int;
    if x == y {
        if wa == wb {
            assert forall|i: int| 0 <= i < wa implies a[i] == b[i] by {
                assert(y[h + i] == b[i]);
            }
            assert(a =~= b);
        } else if wa < wb {
            assert(y[h + wa] == b[wa]);
        } else {
            assert(x[h + wb] == a[wb]);
        }
    }
}

/// Two texts that put different numbers behind the same head are different,
/// as long as something that is no digit follows each number.
pub proof fn lemma_numbered_distinct(
    head: Seq<char>,
    a: nat,
    tail_a: Seq<char>,
    b: nat,
    tail_b: Seq<char>,
)
    requires
        a != b,
        tail_a.len() > 0 && !is_digit(tail_a[0]),
        tail_b.len() > 0 && !is_digit(tail_b[0]),
    ensures
        head + decimal(a) + tail_a != head + decimal(b) + tail_b,
{
    lemma_decimal_digits(a);
    lemma_decimal_digits(b);
    if decimal(a) == decimal(b) {
        lemma_decimal_injective(a, b);
    }
    lemma_digits_distinct(head, decimal(a), tail_a, decimal(b), tail_b);
}

/// Zeros in front of a text of digits do not change the number that it
/// writes.
pub proof fn lemma_leading_zeros(count: nat, digits: Seq<char>)
    ensures
        numeral_value(zeros(count) + digits) == numeral_value(digits),
    decreases digits.len(), count,
{
    let whole = zeros(count) + digits;
    if digits.len() > 0 {
        lemma_leading_zeros(count, digits.drop_last());
        assert(whole.drop_last() =~= zeros(count) + digits.drop_last());
    } else if count > 0 {
        lemma_leading_zeros((count - 1) as nat, digits);
        assert(whole.drop_last() =~= zeros((count - 1) as nat) + digits);
    }
}

/// A padded numeral is made of digits, and writes the number that it was
/// made from.
pub proof fn lemma_zero_padded(n: nat, width: nat)
    ensures
        all_digits(zero_padded(n, width)),
        numeral_value(zero_padded(n, width)) == n,
        zero_padded(n, width).len() >= 1,
{
    lemma_decimal_digits(n);
    lemma_decimal_value(n);
    if decimal(n).len() < width {
        lemma_leading_zeros((width - decimal(n).len()) as nat, decimal(n));
    }
}

/// Two texts that put different padded numbers behind the same head are
/// different, as long as something that is no digit follows each number.
pub proof fn lemma_padded_distinct(
    head: Seq<char>,
    a: nat,
    tail_a: Seq<char>,
    b: nat,
    tail_b: Seq<char>,
    width: nat,
)
    requires
        a != b,
        tail_a.len() > 0 && !is_digit(tail_a[0]),
        tail_b.len() > 0 && !is_digit(tail_b[0]),
    ensures
        head + zero_padded(a, width) + tail_a != head + zero_padded(b, width) + tail_b,
{
    lemma_zero_padded(a, width);
    lemma_zero_padded(b, width);
    lemma_digits_distinct(head, zero_padded(a, width), tail_a, zero_padded(b, width), tail_b);
}

/// The one-character text of the digit `d`.
fn digit_str(d: u64) -> (s: &'static str)
    requires
        d < 10,
    ensures
        s@ == seq![digit_char(d as nat)],
{
    proof {
        reveal_strlit("0");
        reveal_strlit("1");
        reveal_strlit("2");
        reveal_strlit("3");
        reveal_strlit("4");
        reveal_strlit("5");
        reveal_strlit("6");
        reveal_strlit("7");
        reveal_strlit("8");
        reveal_strlit("9");
    }
    let s = if d == 0 {
        "0"
    } else if d == 1 {
        "1"
    } else if d == 2 {
        "2"
    } else if d == 3 {
        "3"
    } else if d == 4 {
        "4"
    } else if d == 5 {
        "5"
    } else if d == 6 {
        "6"
    } else if d == 7 {
        "7"
    } else if d == 8 {
        "8"
    } else {
        "9"
    };
    s
}

/// Appends the decimal numeral of `n` to `buf`.
pub fn push_decimal(buf: &mut String, n: u64)
    ensures
        final(buf)@ == old(buf)@ + decimal(n as nat),
    decreases n,
{
    if n >= 10 {
        push_decimal(buf, n / 10);
    }
    buf.append(digit_str(n % 10));
}

/// Appends the decimal numeral of `n` to `buf`, padded with zeros to four
/// characters.
pub fn push_padded(buf: &mut String, n: u32)
    ensures
        final(buf)@ == old(buf)@ + zero_padded(n as nat, 4),
{
    proof {
        lemma_decimal_width(n as nat);
        reveal_strlit("000");
        reveal_strlit("00");
        reveal_strlit("0");
    }
    if n < 10 {
        buf.append("000");
    } else if n < 100 {
        buf.append("00");
    } else if n < 1000 {
        buf.append("0");
    }
    push_decimal(buf, n as u64);
}

/// Ends the current line of `buf`.
pub fn end_line(buf: &mut String)
    ensures
        final(buf)@ == old(buf)@ + newline(),
{
    proof {
        reveal_strlit("\n");
    }
    buf.append("\n");
}

} // verus!
