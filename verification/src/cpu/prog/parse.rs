//! The parser of program texts.
//!
//! Every function reads one rule of the grammar from the front of a text and
//! returns what the rule's specification of the same name says: the value
//! and the rest of the text, or where and why the rule gave up.
use vstd::prelude::*;
use vstd::slice::slice_subrange;

use crate::cpu::addr::AddressMode;
use crate::cpu::ops::{lemma_names_differ, Mnemonic};
use crate::cpu::prog::grammar;
use crate::cpu::prog::grammar::{Class, ErrorKind, Failure, OperandMode};
use crate::cpu::prog::instructions::{Instruction, Operand};

verus! {

/// A rule gave up at the text `input` for the reason `code`.
#[derive(Debug, Clone, Copy, PartialEq, Eq)]
pub struct ParseError<'a> {
    pub input: &'a [u8],
    pub code: ErrorKind,
}

impl<'a> View for ParseError<'a> {
    type V = Failure;

    open spec fn view(&self) -> Failure {
        Failure { input: self.input@, code: self.code }
    }
}

/// What a parser returned, as the grammar states it: the rest of the text
/// as a sequence of bytes.
pub open spec fn outcome<'a, T>(r: Result<(&'a [u8], T), ParseError<'a>>) -> Result<
    (Seq<u8>, T),
    Failure,
> {
    match r {
        Ok((rest, value)) => Ok((rest@, value)),
        Err(error) => Err(error@),
    }
}

/// What a parser without a value returned, as the grammar states it.
pub open spec fn rest_outcome<'a>(r: Result<&'a [u8], ParseError<'a>>) -> Result<
    Seq<u8>,
    Failure,
> {
    match r {
        Ok(rest) => Ok(rest@),
        Err(error) => Err(error@),
    }
}

/// The text without its first `count` bytes.
fn skip<'a>(s: &'a [u8], count: usize) -> (rest: &'a [u8])
    requires
        count <= s@.len(),
    ensures
        rest@ == s@.skip(count as int),
{
    slice_subrange(s, count, s.len())
}

fn fail<'a, T>(input: &'a [u8], code: ErrorKind) -> (r: Result<T, ParseError<'a>>)
    ensures
        r is Err,
        r->Err_0@ == (Failure { input: input@, code }),
{
    Err(ParseError { input, code })
}

/// Whether `byte` belongs to `class`.
pub fn in_class(class: Class, byte: u8) -> (r: bool)
    ensures
        r == class.has(byte),
{
    match class {
        Class::Space => byte == ' ' as u8 || byte == '\t' as u8,
        Class::Digit => '0' as u8 <= byte && byte <= '9' as u8,
        Class::HexDigit => ('0' as u8 <= byte && byte <= '9' as u8) || ('a' as u8 <= byte && byte
            <= 'f' as u8) || ('A' as u8 <= byte && byte <= 'F' as u8),
    }
}

/// The number of bytes of `class` at the front of the text.
pub fn run_length(s: &[u8], class: Class) -> (count: usize)
    ensures
        count == grammar::run(s@, class),
        count <= s@.len(),
        forall|i: int| 0 <= i < count ==> class.has(#[trigger] s@[i]),
{
    let mut i: usize = 0;
    while i < s.len() && in_class(class, s[i])
        invariant
            i <= s@.len(),
            grammar::run_end(s@, class, 0) == grammar::run_end(s@, class, i as int),
        decreases s@.len() - i,
    {
        i += 1;
    }
    proof {
        grammar::lemma_run_end(s@, class, 0);
    }
    i
}

/// The number that a hexadecimal digit stands for.
fn hex_value(byte: u8) -> (value: u8)
    requires
        grammar::is_hex_digit(byte),
    ensures
        value == grammar::digit_value(byte),
        value < 16,
{
    if '0' as u8 <= byte && byte <= '9' as u8 {
        byte - '0' as u8
    } else if 'a' as u8 <= byte && byte <= 'f' as u8 {
        byte - 'a' as u8 + 10
    } else {
        byte - 'A' as u8 + 10
    }
}

/// A letter of ASCII in upper case; any other byte as it is.
fn to_upper(byte: u8) -> (r: u8)
    ensures
        r == grammar::upper(byte),
{
    if 'a' as u8 <= byte && byte <= 'z' as u8 {
        byte - 0x20
    } else {
        byte
    }
}

/// A fixed piece of text, upper and lower case taken as one.
pub fn tag<'a>(s: &'a [u8], expected: &[u8]) -> (r: Result<&'a [u8], ParseError<'a>>)
    ensures
        rest_outcome(r) == grammar::tag(s@, expected@),
        r matches Ok(rest) ==> rest@.len() + expected@.len() == s@.len(),
        r matches Err(error) ==> error.input@.len() <= s@.len(),
{
    if s.len() < expected.len() {
        return fail(s, ErrorKind::Tag);
    }
    let mut i: usize = 0;
    while i < expected.len()
        invariant
            i <= expected@.len() <= s@.len(),
            forall|k: int| 0 <= k < i ==> grammar::upper(s@[k]) == grammar::upper(expected@[k]),
        decreases expected@.len() - i,
    {
        if to_upper(s[i]) != to_upper(expected[i]) {
            return fail(s, ErrorKind::Tag);
        }
        i += 1;
    }
    Ok(skip(s, expected.len()))
}

/// Two hexadecimal digits, no more and no less, as a byte.
pub fn hex_byte<'a>(s: &'a [u8]) -> (r: Result<(&'a [u8], u8), ParseError<'a>>)
    ensures
        outcome(r) == grammar::hex_byte(s@),
        r matches Ok((rest, _)) ==> rest@.len() < s@.len(),
        r matches Err(error) ==> error.input@.len() <= s@.len(),
{
    match run_length(s, Class::HexDigit) {
        2 => Ok((skip(s, 2), hex_value(s[0]) * 16 + hex_value(s[1]))),
        _ => fail(s, ErrorKind::HexDigit),
    }
}

/// Four hexadecimal digits, no more and no less, as a word.
pub fn hex_double_byte<'a>(s: &'a [u8]) -> (r: Result<(&'a [u8], u16), ParseError<'a>>)
    ensures
        outcome(r) == grammar::hex_double_byte(s@),
        r matches Ok((rest, _)) ==> rest@.len() < s@.len(),
        r matches Err(error) ==> error.input@.len() <= s@.len(),
{
    match run_length(s, Class::HexDigit) {
        4 => Ok(
            (
                skip(s, 4),
                hex_value(s[0]) as u16 * 4096 + hex_value(s[1]) as u16 * 256 + hex_value(
                    s[2],
                ) as u16 * 16 + hex_value(s[3]) as u16,
            ),
        ),
        _ => fail(s, ErrorKind::HexDigit),
    }
}

/// A zero-page address: `$` and two hexadecimal digits.
pub fn zp_addr<'a>(s: &'a [u8]) -> (r: Result<(&'a [u8], u8), ParseError<'a>>)
    ensures
        outcome(r) == grammar::zp_addr(s@),
        r matches Ok((rest, _)) ==> rest@.len() < s@.len(),
        r matches Err(error) ==> error.input@.len() <= s@.len(),
{
    let dollar: [u8; 1] = ['$' as u8];
    assert(dollar@ =~= seq!['$' as u8]);
    match tag(s, dollar.as_slice()) {
        Ok(rest) => hex_byte(rest),
        Err(error) => Err(error),
    }
}

/// An absolute address: `$` and four hexadecimal digits.
pub fn abs_addr<'a>(s: &'a [u8]) -> (r: Result<(&'a [u8], u16), ParseError<'a>>)
    ensures
        outcome(r) == grammar::abs_addr(s@),
        r matches Ok((rest, _)) ==> rest@.len() < s@.len(),
        r matches Err(error) ==> error.input@.len() <= s@.len(),
{
    let dollar: [u8; 1] = ['$' as u8];
    assert(dollar@ =~= seq!['$' as u8]);
    match tag(s, dollar.as_slice()) {
        Ok(rest) => hex_double_byte(rest),
        Err(error) => Err(error),
    }
}

/// Whether the text goes on with a comma or a closing bracket.
fn goes_on(rest: &[u8]) -> (r: bool)
    ensures
        r == grammar::goes_on(rest@),
{
    rest.len() > 0 && (rest[0] == ',' as u8 || rest[0] == ')' as u8)
}

/// A zero-page address and the fixed text `after`.
fn byte_then<'a>(s: &'a [u8], after: &[u8], mode: AddressMode) -> (r: Result<
    (&'a [u8], OperandMode),
    ParseError<'a>,
>)
    ensures
        outcome(r) == grammar::byte_then(s@, after@, mode),
        r matches Ok((rest, _)) ==> rest@.len() < s@.len(),
        r matches Err(error) ==> error.input@.len() <= s@.len(),
{
    match zp_addr(s) {
        Err(error) => Err(error),
        Ok((rest, value)) => match tag(rest, after) {
            Err(error) => Err(error),
            Ok(end) => Ok((end, OperandMode::new(Operand::Word(value), mode))),
        },
    }
}

/// An absolute address and the fixed text `after`.
fn word_then<'a>(s: &'a [u8], after: &[u8], mode: AddressMode) -> (r: Result<
    (&'a [u8], OperandMode),
    ParseError<'a>,
>)
    ensures
        outcome(r) == grammar::word_then(s@, after@, mode),
        r matches Ok((rest, _)) ==> rest@.len() < s@.len(),
        r matches Err(error) ==> error.input@.len() <= s@.len(),
{
    match abs_addr(s) {
        Err(error) => Err(error),
        Ok((rest, value)) => match tag(rest, after) {
            Err(error) => Err(error),
            Ok(end) => Ok((end, OperandMode::new(Operand::DoubleWord(value), mode))),
        },
    }
}

/// An opening bracket, a zero-page address and the fixed text `after`.
fn bracket_then<'a>(s: &'a [u8], after: &[u8], mode: AddressMode) -> (r: Result<
    (&'a [u8], OperandMode),
    ParseError<'a>,
>)
    ensures
        outcome(r) == grammar::bracket_then(s@, after@, mode),
        r matches Ok((rest, _)) ==> rest@.len() < s@.len(),
        r matches Err(error) ==> error.input@.len() <= s@.len(),
{
    let bracket: [u8; 1] = ['(' as u8];
    assert(bracket@ =~= seq!['(' as u8]);
    match tag(s, bracket.as_slice()) {
        Err(error) => Err(error),
        Ok(inner) => byte_then(inner, after, mode),
    }
}

/// Parser for implicit operands. Always succeeds, so it is the last
/// alternative of `operand`.
pub fn implicit<'a>(s: &'a [u8]) -> (r: Result<(&'a [u8], OperandMode), ParseError<'a>>)
    ensures
        outcome(r) == grammar::implicit(s@),
{
    Ok((s, OperandMode::new(Operand::Nothing, AddressMode::Implicit)))
}

/// The accumulator as operand: `A`.
pub fn accumulator<'a>(s: &'a [u8]) -> (r: Result<(&'a [u8], OperandMode), ParseError<'a>>)
    ensures
        outcome(r) == grammar::accumulator(s@),
        r matches Ok((rest, _)) ==> rest@.len() < s@.len(),
        r matches Err(error) ==> error.input@.len() <= s@.len(),
{
    let letter: [u8; 1] = ['A' as u8];
    assert(letter@ =~= seq!['A' as u8]);
    match tag(s, letter.as_slice()) {
        Ok(rest) => Ok((rest, OperandMode::new(Operand::Nothing, AddressMode::Accumulator))),
        Err(error) => Err(error),
    }
}

/// An immediate operand: `#` and two hexadecimal digits.
pub fn immediate<'a>(s: &'a [u8]) -> (r: Result<(&'a [u8], OperandMode), ParseError<'a>>)
    ensures
        outcome(r) == grammar::immediate(s@),
        r matches Ok((rest, _)) ==> rest@.len() < s@.len(),
        r matches Err(error) ==> error.input@.len() <= s@.len(),
{
    let hash: [u8; 1] = ['#' as u8];
    assert(hash@ =~= seq!['#' as u8]);
    match tag(s, hash.as_slice()) {
        Err(error) => Err(error),
        Ok(digits) => match hex_byte(digits) {
            Err(error) => Err(error),
            Ok((rest, value)) => Ok(
                (rest, OperandMode::new(Operand::Word(value), AddressMode::Immediate)),
            ),
        },
    }
}

/// A zero-page address that no comma and no closing bracket follows.
pub fn zeropage<'a>(s: &'a [u8]) -> (r: Result<(&'a [u8], OperandMode), ParseError<'a>>)
    ensures
        outcome(r) == grammar::zeropage(s@),
        r matches Ok((rest, _)) ==> rest@.len() < s@.len(),
        r matches Err(error) ==> error.input@.len() <= s@.len(),
{
    match zp_addr(s) {
        Err(error) => Err(error),
        Ok((rest, value)) => {
            // if anything follows then this is another mode
            if goes_on(rest) {
                fail(s, ErrorKind::Fail)
            } else {
                Ok((rest, OperandMode::new(Operand::Word(value), AddressMode::ZeroPage)))
            }
        },
    }
}

/// A zero-page address and `,X`.
pub fn zeropage_x<'a>(s: &'a [u8]) -> (r: Result<(&'a [u8], OperandMode), ParseError<'a>>)
    ensures
        outcome(r) == grammar::zeropage_x(s@),
        r matches Ok((rest, _)) ==> rest@.len() < s@.len(),
        r matches Err(error) ==> error.input@.len() <= s@.len(),
{
    let after: [u8; 2] = [',' as u8, 'X' as u8];
    assert(after@ =~= seq![',' as u8, 'X' as u8]);
    byte_then(s, after.as_slice(), AddressMode::ZeroPageX)
}

/// A zero-page address and `,Y`.
pub fn zeropage_y<'a>(s: &'a [u8]) -> (r: Result<(&'a [u8], OperandMode), ParseError<'a>>)
    ensures
        outcome(r) == grammar::zeropage_y(s@),
        r matches Ok((rest, _)) ==> rest@.len() < s@.len(),
        r matches Err(error) ==> error.input@.len() <= s@.len(),
{
    let after: [u8; 2] = [',' as u8, 'Y' as u8];
    assert(after@ =~= seq![',' as u8, 'Y' as u8]);
    byte_then(s, after.as_slice(), AddressMode::ZeroPageY)
}

/// The number that the first `count` bytes of `digits` write in decimal, as
/// far as it matters for a signed byte: `None` stands for every number above
/// 128.
fn small_number(digits: &[u8], count: usize) -> (r: Option<u8>)
    requires
        count <= digits@.len(),
        forall|i: int| 0 <= i < count ==> Class::Digit.has(#[trigger] digits@[i]),
    ensures
        match r {
            Some(value) => value == grammar::number(digits@.take(count as int)) && value <= 128,
            None => grammar::number(digits@.take(count as int)) > 128,
        },
{
    let mut value: u16 = 0;
    let mut i: usize = 0;
    while i < count
        invariant
            i <= count <= digits@.len(),
            forall|k: int| 0 <= k < count ==> Class::Digit.has(#[trigger] digits@[k]),
            value == grammar::number(digits@.take(i as int)),
            value <= 128,
        decreases count - i,
    {
        proof {
            assert(digits@.take(i as int + 1).drop_last() =~= digits@.take(i as int));
            assert(Class::Digit.has(digits@[i as int]));
        }
        let next = value * 10 + (digits[i] - '0' as u8) as u16;
        if next > 128 {
            proof {
                lemma_number_grows(digits@, i as int + 1, count as int);
            }
            return None;
        }
        value = next;
        i += 1;
    }
    Some(value as u8)
}

/// A number does not shrink when digits are added to it.
proof fn lemma_number_grows(digits: Seq<u8>, shorter: int, longer: int)
    requires
        0 <= shorter <= longer <= digits.len(),
    ensures
        grammar::number(digits.take(shorter)) <= grammar::number(digits.take(longer)),
    decreases longer - shorter,
{
    if shorter < longer {
        lemma_number_grows(digits, shorter, longer - 1);
        assert(digits.take(longer).drop_last() =~= digits.take(longer - 1));
    }
}

/// A branch offset: `*`, a sign and decimal digits that write a number
/// from -128 to 127.
pub fn relative<'a>(s: &'a [u8]) -> (r: Result<(&'a [u8], OperandMode), ParseError<'a>>)
    ensures
        outcome(r) == grammar::relative(s@),
        r matches Ok((rest, _)) ==> rest@.len() < s@.len(),
        r matches Err(error) ==> error.input@.len() <= s@.len(),
{
    let star: [u8; 1] = ['*' as u8];
    assert(star@ =~= seq!['*' as u8]);
    let signed = match tag(s, star.as_slice()) {
        Ok(signed) => signed,
        Err(error) => {
            return Err(error);
        },
    };
    if signed.len() == 0 || !(signed[0] == '+' as u8 || signed[0] == '-' as u8) {
        return fail(signed, ErrorKind::OneOf);
    }
    let negative = signed[0] == '-' as u8;
    let digits = skip(signed, 1);
    let count = run_length(digits, Class::Digit);
    if count == 0 {
        return fail(digits, ErrorKind::Digit);
    }
    let value = match small_number(digits, count) {
        Some(size) => {
            if negative {
                if size == 0 {
                    0u8
                } else {
                    (256 - size as u16) as u8
                }
            } else if size <= 127 {
                size
            } else {
                return fail(s, ErrorKind::MapRes);
            }
        },
        None => {
            return fail(s, ErrorKind::MapRes);
        },
    };
    Ok((skip(digits, count), OperandMode::new(Operand::Word(value), AddressMode::Relative)))
}

/// An absolute address that no comma and no closing bracket follows.
pub fn absolute<'a>(s: &'a [u8]) -> (r: Result<(&'a [u8], OperandMode), ParseError<'a>>)
    ensures
        outcome(r) == grammar::absolute(s@),
        r matches Ok((rest, _)) ==> rest@.len() < s@.len(),
        r matches Err(error) ==> error.input@.len() <= s@.len(),
{
    match abs_addr(s) {
        Err(error) => Err(error),
        Ok((rest, value)) => {
            // if anything follows then this is another mode
            if goes_on(rest) {
                fail(s, ErrorKind::TooLarge)
            } else {
                Ok((rest, OperandMode::new(Operand::DoubleWord(value), AddressMode::Absolute)))
            }
        },
    }
}

/// An absolute address and `,X`.
pub fn absolute_x<'a>(s: &'a [u8]) -> (r: Result<(&'a [u8], OperandMode), ParseError<'a>>)
    ensures
        outcome(r) == grammar::absolute_x(s@),
        r matches Ok((rest, _)) ==> rest@.len() < s@.len(),
        r matches Err(error) ==> error.input@.len() <= s@.len(),
{
    let after: [u8; 2] = [',' as u8, 'X' as u8];
    assert(after@ =~= seq![',' as u8, 'X' as u8]);
    word_then(s, after.as_slice(), AddressMode::AbsoluteX)
}

/// An absolute address and `,Y`.
pub fn absolute_y<'a>(s: &'a [u8]) -> (r: Result<(&'a [u8], OperandMode), ParseError<'a>>)
    ensures
        outcome(r) == grammar::absolute_y(s@),
        r matches Ok((rest, _)) ==> rest@.len() < s@.len(),
        r matches Err(error) ==> error.input@.len() <= s@.len(),
{
    let after: [u8; 2] = [',' as u8, 'Y' as u8];
    assert(after@ =~= seq![',' as u8, 'Y' as u8]);
    word_then(s, after.as_slice(), AddressMode::AbsoluteY)
}

/// A zero-page address in brackets.
pub fn indirect<'a>(s: &'a [u8]) -> (r: Result<(&'a [u8], OperandMode), ParseError<'a>>)
    ensures
        outcome(r) == grammar::indirect(s@),
        r matches Ok((rest, _)) ==> rest@.len() < s@.len(),
        r matches Err(error) ==> error.input@.len() <= s@.len(),
{
    let after: [u8; 1] = [')' as u8];
    assert(after@ =~= seq![')' as u8]);
    bracket_then(s, after.as_slice(), AddressMode::Indirect)
}

/// A zero-page address and `,X`, both in brackets.
pub fn indirect_x<'a>(s: &'a [u8]) -> (r: Result<(&'a [u8], OperandMode), ParseError<'a>>)
    ensures
        outcome(r) == grammar::indirect_x(s@),
        r matches Ok((rest, _)) ==> rest@.len() < s@.len(),
        r matches Err(error) ==> error.input@.len() <= s@.len(),
{
    let after: [u8; 3] = [',' as u8, 'X' as u8, ')' as u8];
    assert(after@ =~= seq![',' as u8, 'X' as u8, ')' as u8]);
    bracket_then(s, after.as_slice(), AddressMode::IndirectX)
}

/// A zero-page address in brackets, and `,Y`.
pub fn indirect_y<'a>(s: &'a [u8]) -> (r: Result<(&'a [u8], OperandMode), ParseError<'a>>)
    ensures
        outcome(r) == grammar::indirect_y(s@),
        r matches Ok((rest, _)) ==> rest@.len() < s@.len(),
        r matches Err(error) ==> error.input@.len() <= s@.len(),
{
    let after: [u8; 3] = [')' as u8, ',' as u8, 'Y' as u8];
    assert(after@ =~= seq![')' as u8, ',' as u8, 'Y' as u8]);
    bracket_then(s, after.as_slice(), AddressMode::IndirectY)
}

/// An operand in any of its spellings. Never fails: a text that starts with
/// none of the others has the implicit operand, which reads nothing.
pub fn operand<'a>(s: &'a [u8]) -> (r: Result<(&'a [u8], OperandMode), ParseError<'a>>)
    ensures
        outcome(r) == grammar::operand(s@),
        r matches Ok((rest, _)) ==> rest@.len() <= s@.len(),
        r matches Err(error) ==> error.input@.len() <= s@.len(),
        r is Ok,
{
    if let Ok(found) = accumulator(s) {
        return Ok(found);
    }
    if let Ok(found) = immediate(s) {
        return Ok(found);
    }
    if let Ok(found) = zeropage(s) {
        return Ok(found);
    }
    if let Ok(found) = zeropage_x(s) {
        return Ok(found);
    }
    if let Ok(found) = zeropage_y(s) {
        return Ok(found);
    }
    if let Ok(found) = relative(s) {
        return Ok(found);
    }
    if let Ok(found) = absolute(s) {
        return Ok(found);
    }
    if let Ok(found) = absolute_x(s) {
        return Ok(found);
    }
    if let Ok(found) = absolute_y(s) {
        return Ok(found);
    }
    if let Ok(found) = indirect(s) {
        return Ok(found);
    }
    if let Ok(found) = indirect_x(s) {
        return Ok(found);
    }
    if let Ok(found) = indirect_y(s) {
        return Ok(found);
    }
    // implicit as the fall through
    implicit(s)
}

/// The mnemonic whose three letters, in upper case, are `a`, `b` and `c`.
pub fn mnemonic_named(a: u8, b: u8, c: u8) -> (r: Option<Mnemonic>)
    ensures
        r == grammar::mnemonic_named(a, b, c),
{
    let found = match (a as char, b as char, c as char) {
        ('A', 'D', 'C') => Some(Mnemonic::ADC),
        ('A', 'N', 'D') => Some(Mnemonic::AND),
        ('A', 'S', 'L') => Some(Mnemonic::ASL),
        ('B', 'I', 'T') => Some(Mnemonic::BIT),
        ('B', 'P', 'L') => Some(Mnemonic::BPL),
        ('B', 'M', 'I') => Some(Mnemonic::BMI),
        ('B', 'V', 'C') => Some(Mnemonic::BVC),
        ('B', 'V', 'S') => Some(Mnemonic::BVS),
        ('B', 'C', 'C') => Some(Mnemonic::BCC),
        ('B', 'C', 'S') => Some(Mnemonic::BCS),
        ('B', 'N', 'E') => Some(Mnemonic::BNE),
        ('B', 'E', 'Q') => Some(Mnemonic::BEQ),
        ('B', 'R', 'K') => Some(Mnemonic::BRK),
        ('C', 'M', 'P') => Some(Mnemonic::CMP),
        ('C', 'P', 'X') => Some(Mnemonic::CPX),
        ('C', 'P', 'Y') => Some(Mnemonic::CPY),
        ('D', 'E', 'C') => Some(Mnemonic::DEC),
        ('E', 'O', 'R') => Some(Mnemonic::EOR),
        ('C', 'L', 'C') => Some(Mnemonic::CLC),
        ('S', 'E', 'C') => Some(Mnemonic::SEC),
        ('C', 'L', 'I') => Some(Mnemonic::CLI),
        ('S', 'E', 'I') => Some(Mnemonic::SEI),
        ('C', 'L', 'V') => Some(Mnemonic::CLV),
        ('C', 'L', 'D') => Some(Mnemonic::CLD),
        ('S', 'E', 'D') => Some(Mnemonic::SED),
        ('I', 'N', 'C') => Some(Mnemonic::INC),
        ('J', 'M', 'P') => Some(Mnemonic::JMP),
        ('J', 'S', 'R') => Some(Mnemonic::JSR),
        ('L', 'D', 'A') => Some(Mnemonic::LDA),
        ('L', 'D', 'X') => Some(Mnemonic::LDX),
        ('L', 'D', 'Y') => Some(Mnemonic::LDY),
        ('L', 'S', 'R') => Some(Mnemonic::LSR),
        ('N', 'O', 'P') => Some(Mnemonic::NOP),
        ('O', 'R', 'A') => Some(Mnemonic::ORA),
        ('T', 'A', 'X') => Some(Mnemonic::TAX),
        ('T', 'X', 'A') => Some(Mnemonic::TXA),
        ('D', 'E', 'X') => Some(Mnemonic::DEX),
        ('I', 'N', 'X') => Some(Mnemonic::INX),
        ('T', 'A', 'Y') => Some(Mnemonic::TAY),
        ('T', 'Y', 'A') => Some(Mnemonic::TYA),
        ('D', 'E', 'Y') => Some(Mnemonic::DEY),
        ('I', 'N', 'Y') => Some(Mnemonic::INY),
        ('R', 'O', 'L') => Some(Mnemonic::ROL),
        ('R', 'O', 'R') => Some(Mnemonic::ROR),
        ('R', 'T', 'I') => Some(Mnemonic::RTI),
        ('R', 'T', 'S') => Some(Mnemonic::RTS),
        ('S', 'B', 'C') => Some(Mnemonic::SBC),
        ('S', 'T', 'A') => Some(Mnemonic::STA),
        ('T', 'X', 'S') => Some(Mnemonic::TXS),
        ('T', 'S', 'X') => Some(Mnemonic::TSX),
        ('P', 'H', 'A') => Some(Mnemonic::PHA),
        ('P', 'L', 'A') => Some(Mnemonic::PLA),
        ('P', 'H', 'P') => Some(Mnemonic::PHP),
        ('P', 'L', 'P') => Some(Mnemonic::PLP),
        ('S', 'T', 'X') => Some(Mnemonic::STX),
        ('S', 'T', 'Y') => Some(Mnemonic::STY),
        _ => None,
    };
    proof {
        let name = seq![a as char, b as char, c as char];
        match found {
            Some(mnemonic) => {
                assert(mnemonic.name() =~= name);
                let chosen = choose|other: Mnemonic| other.name() == name;
                lemma_names_differ(mnemonic, chosen);
            },
            None => {
                assert forall|other: Mnemonic| other.name() != name by {
                    if other.name() == name {
                        assert(other.name()[0] == name[0]);
                        assert(other.name()[1] == name[1]);
                        assert(other.name()[2] == name[2]);
                    }
                }
            },
        }
    }
    found
}

/// Reads the first three bytes as a mnemonic, in upper or lower case.
pub fn mnemonic<'a>(s: &'a [u8]) -> (r: Result<(&'a [u8], Mnemonic), ParseError<'a>>)
    ensures
        outcome(r) == grammar::mnemonic(s@),
        r matches Ok((rest, _)) ==> rest@.len() < s@.len(),
        r matches Err(error) ==> error.input@.len() <= s@.len(),
{
    if s.len() < 3 {
        return fail(s, ErrorKind::Eof);
    }
    match mnemonic_named(to_upper(s[0]), to_upper(s[1]), to_upper(s[2])) {
        Some(found) => Ok((skip(s, 3), found)),
        None => fail(s, ErrorKind::Tag),
    }
}

/// An instruction: a mnemonic, and after spaces or tabs an operand.
pub fn instruction<'a>(s: &'a [u8]) -> (r: Result<(&'a [u8], Instruction), ParseError<'a>>)
    ensures
        outcome(r) == grammar::instruction(s@),
        r matches Ok((rest, _)) ==> rest@.len() < s@.len(),
        r matches Err(error) ==> error.input@.len() <= s@.len(),
{
    let (rest, found) = match mnemonic(s) {
        Ok(read) => read,
        Err(error) => {
            return Err(error);
        },
    };
    let gap = run_length(rest, Class::Space);
    if gap == 0 {
        return Ok((rest, Instruction::new(found, Operand::Nothing, AddressMode::Implicit)));
    }
    match operand(skip(rest, gap)) {
        Ok((end, OperandMode { operand, mode })) => Ok((end, Instruction::new(found, operand, mode))),
        Err(error) => Err(error),
    }
}

/// The index of the first line feed or carriage return of the text, or its
/// length where there is none.
fn find_line_end(s: &[u8]) -> (end: usize)
    ensures
        end == grammar::line_end(s@, 0),
        end <= s@.len(),
{
    let mut i: usize = 0;
    while i < s.len() && !(s[i] == '\n' as u8 || s[i] == '\r' as u8)
        invariant
            i <= s@.len(),
            grammar::line_end(s@, 0) == grammar::line_end(s@, i as int),
        decreases s@.len() - i,
    {
        i += 1;
    }
    i
}

/// A comment: `;` and what follows up to the end of the line. The value is
/// the text of the comment without the `;`.
pub fn comment<'a>(s: &'a [u8]) -> (r: Result<(&'a [u8], &'a [u8]), ParseError<'a>>)
    ensures
        match grammar::comment(s@) {
            Ok((rest, text)) => r is Ok && r->Ok_0.0@ == rest && r->Ok_0.1@ == text,
            Err(failure) => r is Err && r->Err_0@ == failure,
        },
        r matches Ok((rest, _)) ==> rest@.len() < s@.len(),
        r matches Err(error) ==> error.input@.len() <= s@.len(),
{
    let semicolon: [u8; 1] = [';' as u8];
    assert(semicolon@ =~= seq![';' as u8]);
    let text = match tag(s, semicolon.as_slice()) {
        Ok(text) => text,
        Err(error) => {
            return Err(error);
        },
    };
    let end = find_line_end(text);
    if end < text.len() && text[end] == '\r' as u8 && !(end + 1 < text.len() && text[end + 1]
        == '\n' as u8) {
        return fail(text, ErrorKind::Tag);
    }
    assert(text@.take(end as int) =~= text@.subrange(0, end as int));
    Ok((skip(text, end), slice_subrange(text, 0, end)))
}

/// The end of a line: a line feed, a carriage return with a line feed, or
/// the end of the text.
pub fn end_of_line<'a>(s: &'a [u8]) -> (r: Result<&'a [u8], ParseError<'a>>)
    ensures
        rest_outcome(r) == grammar::end_of_line(s@),
        r matches Ok(rest) ==> rest@.len() <= s@.len() && (s@.len() > 0 ==> rest@.len() < s@.len()),
        r matches Err(error) ==> error.input@.len() <= s@.len(),
{
    if s.len() >= 1 && s[0] == '\n' as u8 {
        Ok(skip(s, 1))
    } else if s.len() >= 2 && s[0] == '\r' as u8 && s[1] == '\n' as u8 {
        Ok(skip(s, 2))
    } else if s.len() == 0 {
        Ok(s)
    } else {
        fail(s, ErrorKind::Eof)
    }
}

/// Reads up to and with the next line ending: the instruction of the line,
/// if it holds one. A line that is read is never empty unless the text is.
pub fn line<'a>(s: &'a [u8]) -> (r: Result<(&'a [u8], Option<Instruction>), ParseError<'a>>)
    ensures
        outcome(r) == grammar::line(s@),
        r matches Ok((rest, _)) ==> rest@.len() <= s@.len() && (s@.len() > 0 ==> rest@.len()
            < s@.len()),
        r matches Err(error) ==> error.input@.len() <= s@.len(),
{
    let start = skip(s, run_length(s, Class::Space));
    let (body, found) = match instruction(start) {
        Ok((rest, read)) => (rest, Some(read)),
        Err(_) => (start, None),
    };
    let tail = match comment(skip(body, run_length(body, Class::Space))) {
        Ok((rest, _)) => rest,
        Err(_) => body,
    };
    match end_of_line(tail) {
        Ok(rest) => Ok((rest, found)),
        Err(error) => Err(error),
    }
}

/// Reads a whole text: the instructions of its lines, in their order. Fails
/// at the first line that is none.
pub fn program<'a>(s: &'a [u8]) -> (r: Result<(&'a [u8], Vec<Instruction>), ParseError<'a>>)
    ensures
        match grammar::program(s@) {
            Ok((rest, instructions)) => r is Ok && r->Ok_0.0@ == rest && r->Ok_0.1@
                == instructions,
            Err(failure) => r is Err && r->Err_0@ == failure,
        },
        r matches Err(error) ==> error.input@.len() <= s@.len(),
{
    let mut instructions: Vec<Instruction> = Vec::new();
    let mut text = s;
    while text.len() > 0
        invariant
            text@.len() <= s@.len(),
            grammar::program(s@) == match grammar::program(text@) {
                Ok((rest, others)) => Ok::<(Seq<u8>, Seq<Instruction>), Failure>(
                    (rest, instructions@ + others),
                ),
                Err(failure) => Err::<(Seq<u8>, Seq<Instruction>), Failure>(failure),
            },
        decreases text@.len(),
    {
        let ghost before = instructions@;
        match line(text) {
            Err(error) => {
                return Err(error);
            },
            Ok((rest, found)) => {
                if let Some(read) = found {
                    instructions.push(read);
                }
                proof {
                    match grammar::program(rest@) {
                        Ok((end, others)) => {
                            match found {
                                Some(read) => {
                                    assert(before + (seq![read] + others) =~= instructions@
                                        + others);
                                },
                                None => {},
                            }
                        },
                        Err(_) => {},
                    }
                }
                text = rest;
            },
        }
    }
    assert(instructions@ + Seq::<Instruction>::empty() =~= instructions@);
    Ok((text, instructions))
}

} // verus!
