//! Text building: digits, numbers and lines, as sequences of characters.
use vstd::prelude::*;

verus! {

/// `String::push` of the standard library: the character is appended to the
/// end of the string, and what the string held before stays in front of it.
pub assume_specification[ String::push ](s: &mut String, c: char)
    ensures
        final(s)@ == old(s)@.push(c),
;

/// The digit for a number below sixteen, in lower case.
pub open spec fn hex_digit(n: int) -> char
    recommends
        0 <= n < 16,
{
    seq!['0', '1', '2', '3', '4', '5', '6', '7', '8', '9', 'a', 'b', 'c', 'd', 'e', 'f'][n]
}

/// The digit for a number below sixteen, in upper case.
pub open spec fn upper_hex_digit(n: int) -> char
    recommends
        0 <= n < 16,
{
    seq!['0', '1', '2', '3', '4', '5', '6', '7', '8', '9', 'A', 'B', 'C', 'D', 'E', 'F'][n]
}

/// A byte as two hexadecimal digits in lower case.
pub open spec fn hex_byte(value: u8) -> Seq<char> {
    seq![hex_digit(value as int / 16), hex_digit(value as int % 16)]
}

/// A word as four hexadecimal digits in lower case.
pub open spec fn hex_word(value: u16) -> Seq<char> {
    hex_byte((value / 256) as u8) + hex_byte((value % 256) as u8)
}

/// A byte as two hexadecimal digits in upper case.
pub open spec fn upper_hex_byte(value: u8) -> Seq<char> {
    seq![upper_hex_digit(value as int / 16), upper_hex_digit(value as int % 16)]
}

/// A word as four hexadecimal digits in upper case.
pub open spec fn upper_hex_word(value: u16) -> Seq<char> {
    upper_hex_byte((value / 256) as u8) + upper_hex_byte((value % 256) as u8)
}

/// A number in decimal digits, without leading zeros.
pub open spec fn decimal(value: nat) -> Seq<char>
    decreases value,
{
    if value < 10 {
        seq![hex_digit(value as int)]
    } else {
        decimal(value / 10).push(hex_digit(value as int % 10))
    }
}

/// The lines put together with `separator` between each two of them.
pub open spec fn joined(lines: Seq<Seq<char>>, separator: Seq<char>) -> Seq<char>
    decreases lines.len(),
{
    if lines.len() == 0 {
        Seq::empty()
    } else if lines.len() == 1 {
        lines[0]
    } else {
        joined(lines.drop_last(), separator) + separator + lines.last()
    }
}

/// The lines put together, each followed by `terminator`.
pub open spec fn terminated(lines: Seq<Seq<char>>, terminator: Seq<char>) -> Seq<char>
    decreases lines.len(),
{
    if lines.len() == 0 {
        Seq::empty()
    } else {
        terminated(lines.drop_last(), terminator) + lines.last() + terminator
    }
}

/// The hexadecimal digit for a number below sixteen.
pub fn digit_char(n: u8, upper: bool) -> (c: char)
    requires
        n < 16,
    ensures
        c == if upper {
            upper_hex_digit(n as int)
        } else {
            hex_digit(n as int)
        },
{
    if n < 10 {
        (0x30 + n) as char
    } else if upper {
        (0x41 + (n - 10)) as char
    } else {
        (0x61 + (n - 10)) as char
    }
}

/// Appends a byte as two hexadecimal digits in lower case.
pub fn push_hex_byte(out: &mut String, value: u8)
    ensures
        final(out)@ == old(out)@ + hex_byte(value),
{
    out.push(digit_char(value / 16, false));
    out.push(digit_char(value % 16, false));
    assert(out@ =~= old(out)@ + hex_byte(value));
}

/// Appends a word as four hexadecimal digits in lower case.
pub fn push_hex_word(out: &mut String, value: u16)
    ensures
        final(out)@ == old(out)@ + hex_word(value),
{
    push_hex_byte(out, (value / 256) as u8);
    push_hex_byte(out, (value % 256) as u8);
    assert(out@ =~= old(out)@ + hex_word(value));
}

/// Appends a byte as two hexadecimal digits in upper case.
pub fn push_upper_hex_byte(out: &mut String, value: u8)
    ensures
        final(out)@ == old(out)@ + upper_hex_byte(value),
{
    out.push(digit_char(value / 16, true));
    out.push(digit_char(value % 16, true));
    assert(out@ =~= old(out)@ + upper_hex_byte(value));
}

/// Appends a word as four hexadecimal digits in upper case.
pub fn push_upper_hex_word(out: &mut String, value: u16)
    ensures
        final(out)@ == old(out)@ + upper_hex_word(value),
{
    push_upper_hex_byte(out, (value / 256) as u8);
    push_upper_hex_byte(out, (value % 256) as u8);
    assert(out@ =~= old(out)@ + upper_hex_word(value));
}

/// Appends a byte in decimal digits, without leading zeros.
pub fn push_decimal(out: &mut String, value: u8)
    ensures
        final(out)@ == old(out)@ + decimal(value as nat),
{
    reveal_with_fuel(decimal, 3);
    if value >= 100 {
        out.push(digit_char(value / 100, false));
    }
    if value >= 10 {
        out.push(digit_char((value / 10) % 10, false));
    }
    out.push(digit_char(value % 10, false));
    assert(out@ =~= old(out)@ + decimal(value as nat));
}

} // verus!
