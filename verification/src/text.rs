//! Text as sequences of characters: lines, joins and decimal numbers.

use vstd::prelude::*;

verus! {

/// The line feed that ends a line.
pub open spec fn is_line_end(c: char) -> bool {
    c == '\n'
}

/// The position of the first line feed in `s`, or the length of `s` when it
/// holds none.
pub open spec fn first_line_end(s: Seq<char>) -> nat
    decreases s.len(),
{
    if s.len() == 0 || is_line_end(s[0]) {
        0
    } else {
        1 + first_line_end(s.drop_first())
    }
}

/// `s` without a carriage return at its end.
pub open spec fn without_carriage_return(s: Seq<char>) -> Seq<char> {
    if s.len() > 0 && s.last() == '\r' {
        s.drop_last()
    } else {
        s
    }
}

/// The lines of `s`. A line ends at a line feed, or at a carriage return
/// directly followed by one, and holds neither; what follows the last line
/// feed is a line too, unless it is empty. A carriage return that no line
/// feed follows belongs to its line.
pub open spec fn lines_of(s: Seq<char>) -> Seq<Seq<char>>
    decreases s.len(),
{
    let end = first_line_end(s) as int;
    if s.len() == 0 {
        Seq::empty()
    } else if end >= s.len() {
        seq![s]
    } else {
        seq![without_carriage_return(s.subrange(0, end))] + lines_of(
            s.subrange(end + 1, s.len() as int),
        )
    }
}

/// `lines`, with a line feed between each two of them.
pub open spec fn joined(lines: Seq<Seq<char>>) -> Seq<char>
    decreases lines.len(),
{
    if lines.len() == 0 {
        Seq::empty()
    } else if lines.len() == 1 {
        lines[0]
    } else {
        joined(lines.drop_last()) + seq!['\n'] + lines.last()
    }
}

/// The character for a digit below ten.
pub open spec fn digit(d: nat) -> char {
    if d == 0 {
        '0'
    } else if d == 1 {
        '1'
    } else if d == 2 {
        '2'
    } else if d == 3 {
        '3'
    } else if d == 4 {
        '4'
    } else if d == 5 {
        '5'
    } else if d == 6 {
        '6'
    } else if d == 7 {
        '7'
    } else if d == 8 {
        '8'
    } else {
        '9'
    }
}

/// `n` in decimal digits, without leading zeros.
pub open spec fn decimal(n: nat) -> Seq<char>
    decreases n,
{
    if n < 10 {
        seq![digit(n)]
    } else {
        decimal(n / 10).push(digit(n % 10))
    }
}

/// The views of the strings in `lines`.
pub open spec fn views(lines: Seq<String>) -> Seq<Seq<char>> {
    lines.map_values(|line: String| line@)
}

/// `first_line_end` is the position `end` when no line feed stands before
/// `end` and one stands at `end`, or `s` ends there.
pub proof fn first_line_end_is(s: Seq<char>, end: int)
    requires
        0 <= end <= s.len(),
        forall|i: int| 0 <= i < end ==> !is_line_end(#[trigger] s[i]),
        end < s.len() ==> is_line_end(s[end]),
    ensures
        first_line_end(s) == end,
    decreases end,
{
    if end > 0 {
        let rest = s.drop_first();
        first_line_end_is(rest, end - 1);
    }
}

/// Appends `c` to `s` with `String::push`, which puts the character at the
/// end of the string and leaves the rest as it was.
#[verifier::external_body]
pub(crate) fn push_char(s: &mut String, c: char)
    ensures
        final(s)@ == old(s)@.push(c),
{
    s.push(c);
}

/// Splits `content` into its lines.
pub fn split_lines(content: &str) -> (lines: Vec<String>)
    ensures
        views(lines@) == lines_of(content@),
{
    let mut lines: Vec<String> = Vec::new();
    let mut current = String::new();
    // A carriage return that was read and not yet written: it is dropped
    // when a line feed follows, and written when anything else does.
    let mut held = false;
    let ghost mut start: int = 0;
    assert(content@.subrange(0, content@.len() as int) == content@);
    for c in it: content.chars()
        invariant
            it.seq() == content@,
            0 <= start <= it.index() <= content@.len(),
            forall|i: int| start <= i < it.index() ==> !is_line_end(#[trigger] content@[i]),
            content@.subrange(start, it.index() as int) == if held {
                current@.push('\r')
            } else {
                current@
            },
            !held && current@.len() > 0 ==> current@.last() != '\r',
            lines_of(content@) == views(lines@) + lines_of(
                content@.subrange(start, content@.len() as int),
            ),
    {
        let ghost at = it.index() as int;
        let ghost rest = content@.subrange(start, content@.len() as int);
        if c == '\n' {
            proof {
                first_line_end_is(rest, at - start);
                assert(rest.subrange(0, at - start) == content@.subrange(start, at));
                assert(rest.subrange(at - start + 1, rest.len() as int) == content@.subrange(
                    at + 1,
                    content@.len() as int,
                ));
                assert(without_carriage_return(content@.subrange(start, at)) == current@);
                start = at + 1;
            }
            lines.push(current);
            current = String::new();
            held = false;
        } else {
            if held {
                push_char(&mut current, '\r');
            }
            if c == '\r' {
                held = true;
            } else {
                push_char(&mut current, c);
                held = false;
            }
        }
    }
    let ghost rest = content@.subrange(start, content@.len() as int);
    if held {
        push_char(&mut current, '\r');
    }
    if !current.as_str().is_empty() {
        proof {
            first_line_end_is(rest, rest.len() as int);
        }
        lines.push(current);
    }
    lines
}

/// `n` as a decimal number.
pub fn to_decimal(n: u128) -> (text: String)
    ensures
        text@ == decimal(n as nat),
    decreases n,
{
    let last = n % 10;
    let c = if last == 0 {
        '0'
    } else if last == 1 {
        '1'
    } else if last == 2 {
        '2'
    } else if last == 3 {
        '3'
    } else if last == 4 {
        '4'
    } else if last == 5 {
        '5'
    } else if last == 6 {
        '6'
    } else if last == 7 {
        '7'
    } else if last == 8 {
        '8'
    } else {
        '9'
    };
    let mut text = if n < 10 {
        String::new()
    } else {
        to_decimal(n / 10)
    };
    push_char(&mut text, c);
    text
}

} // verus!
