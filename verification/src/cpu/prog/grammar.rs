//! The grammar of program texts, as specification.
//!
//! A text is a sequence of bytes. Each function here says what one rule of
//! the grammar makes of a text: the value it reads from the front of the
//! text together with the rest of the text, or the text at which it gave up
//! and why.
use vstd::prelude::*;

use crate::cpu::addr::AddressMode;
use crate::cpu::ops::Mnemonic;
use crate::cpu::prog::instructions::{Instruction, Operand};

verus! {

/// Why a rule of the grammar gave up.
#[derive(Debug, Clone, Copy, PartialEq, Eq, Structural)]
pub enum ErrorKind {
    /// A fixed piece of text was expected.
    Tag,
    /// The text ends too early, or should have ended.
    Eof,
    /// Hexadecimal digits were expected, or another number of them.
    HexDigit,
    /// Decimal digits were expected.
    Digit,
    /// One of a set of characters was expected.
    OneOf,
    /// A zero-page address is followed by what makes it another operand.
    Fail,
    /// An absolute address is followed by what makes it another operand.
    TooLarge,
    /// A number does not fit where it belongs.
    MapRes,
}

/// A rule gave up at the text `input` for the reason `code`.
pub struct Failure {
    pub input: Seq<u8>,
    pub code: ErrorKind,
}

/// An operand together with the addressing mode that its spelling shows.
#[derive(Debug, Clone, Copy, PartialEq, Eq, Structural)]
pub struct OperandMode {
    pub operand: Operand,
    pub mode: AddressMode,
}

impl OperandMode {
    /// The pair of the two.
    #[verifier::allow_in_spec]
    pub fn new(operand: Operand, mode: AddressMode) -> Self
        returns
            (OperandMode { operand, mode }),
    {
        Self { operand, mode }
    }
}

/// The classes of bytes that a run of the text may consist of.
#[derive(Debug, Clone, Copy, PartialEq, Eq, Structural)]
pub enum Class {
    /// Space and tab
    Space,
    /// 0 to 9
    Digit,
    /// 0 to 9, a to f and A to F
    HexDigit,
}

/// Whether the byte is one of the digits 0 to 9.
pub open spec fn is_digit(byte: u8) -> bool {
    '0' as u8 <= byte <= '9' as u8
}

/// Whether the byte is a digit, or a letter from a to f in either case.
pub open spec fn is_hex_digit(byte: u8) -> bool {
    is_digit(byte) || 'a' as u8 <= byte <= 'f' as u8 || 'A' as u8 <= byte <= 'F' as u8
}

impl Class {
    /// Whether `byte` belongs to the class.
    pub open spec fn has(self, byte: u8) -> bool {
        match self {
            Class::Space => byte == ' ' as u8 || byte == '\t' as u8,
            Class::Digit => is_digit(byte),
            Class::HexDigit => is_hex_digit(byte),
        }
    }
}

/// The number that a hexadecimal digit stands for.
pub open spec fn digit_value(byte: u8) -> nat
    recommends
        is_hex_digit(byte),
{
    if is_digit(byte) {
        (byte - '0' as u8) as nat
    } else if 'a' as u8 <= byte <= 'f' as u8 {
        (byte - 'a' as u8 + 10) as nat
    } else {
        (byte - 'A' as u8 + 10) as nat
    }
}

/// A letter of ASCII in upper case; any other byte as it is.
pub open spec fn upper(byte: u8) -> u8 {
    if 'a' as u8 <= byte <= 'z' as u8 {
        (byte - 0x20) as u8
    } else {
        byte
    }
}

/// The index at which the run of bytes of `class` that starts at `at` ends.
pub open spec fn run_end(s: Seq<u8>, class: Class, at: int) -> int
    decreases s.len() - at,
{
    if 0 <= at < s.len() && class.has(s[at]) {
        run_end(s, class, at + 1)
    } else {
        at
    }
}

/// The number of bytes of `class` at the front of `s`.
pub open spec fn run(s: Seq<u8>, class: Class) -> nat {
    run_end(s, class, 0) as nat
}

/// The number that the decimal digits `digits` write.
pub open spec fn number(digits: Seq<u8>) -> nat
    decreases digits.len(),
{
    if digits.len() == 0 {
        0
    } else {
        10 * number(digits.drop_last()) + digit_value(digits.last())
    }
}

/// Whether `s` starts with `tag`, upper and lower case taken as one.
pub open spec fn starts_with(s: Seq<u8>, tag: Seq<u8>) -> bool {
    s.len() >= tag.len() && forall|i: int| 0 <= i < tag.len() ==> upper(s[i]) == upper(tag[i])
}

/// A fixed piece of text, upper and lower case taken as one.
pub open spec fn tag(s: Seq<u8>, tag: Seq<u8>) -> Result<Seq<u8>, Failure> {
    if starts_with(s, tag) {
        Ok(s.skip(tag.len() as int))
    } else {
        Err(Failure { input: s, code: ErrorKind::Tag })
    }
}

/// Two hexadecimal digits, no more and no less, as a byte.
pub open spec fn hex_byte(s: Seq<u8>) -> Result<(Seq<u8>, u8), Failure> {
    if run(s, Class::HexDigit) == 2 {
        Ok((s.skip(2), (16 * digit_value(s[0]) + digit_value(s[1])) as u8))
    } else {
        Err(Failure { input: s, code: ErrorKind::HexDigit })
    }
}

/// Four hexadecimal digits, no more and no less, as a word.
pub open spec fn hex_double_byte(s: Seq<u8>) -> Result<(Seq<u8>, u16), Failure> {
    if run(s, Class::HexDigit) == 4 {
        Ok(
            (
                s.skip(4),
                (4096 * digit_value(s[0]) + 256 * digit_value(s[1]) + 16 * digit_value(s[2])
                    + digit_value(s[3])) as u16,
            ),
        )
    } else {
        Err(Failure { input: s, code: ErrorKind::HexDigit })
    }
}

/// A zero-page address: `$` and two hexadecimal digits.
pub open spec fn zp_addr(s: Seq<u8>) -> Result<(Seq<u8>, u8), Failure> {
    match tag(s, seq!['$' as u8]) {
        Ok(rest) => hex_byte(rest),
        Err(failure) => Err(failure),
    }
}

/// An absolute address: `$` and four hexadecimal digits.
pub open spec fn abs_addr(s: Seq<u8>) -> Result<(Seq<u8>, u16), Failure> {
    match tag(s, seq!['$' as u8]) {
        Ok(rest) => hex_double_byte(rest),
        Err(failure) => Err(failure),
    }
}

/// Whether the text goes on with a comma or a closing bracket.
pub open spec fn goes_on(rest: Seq<u8>) -> bool {
    rest.len() > 0 && (rest[0] == ',' as u8 || rest[0] == ')' as u8)
}

/// A zero-page address and the fixed text `after`.
pub open spec fn byte_then(s: Seq<u8>, after: Seq<u8>, mode: AddressMode) -> Result<
    (Seq<u8>, OperandMode),
    Failure,
> {
    match zp_addr(s) {
        Err(failure) => Err(failure),
        Ok((rest, value)) => match tag(rest, after) {
            Err(failure) => Err(failure),
            Ok(end) => Ok((end, OperandMode::new(Operand::Word(value), mode))),
        },
    }
}

/// An absolute address and the fixed text `after`.
pub open spec fn word_then(s: Seq<u8>, after: Seq<u8>, mode: AddressMode) -> Result<
    (Seq<u8>, OperandMode),
    Failure,
> {
    match abs_addr(s) {
        Err(failure) => Err(failure),
        Ok((rest, value)) => match tag(rest, after) {
            Err(failure) => Err(failure),
            Ok(end) => Ok((end, OperandMode::new(Operand::DoubleWord(value), mode))),
        },
    }
}

/// An opening bracket, a zero-page address and the fixed text `after`.
pub open spec fn bracket_then(s: Seq<u8>, after: Seq<u8>, mode: AddressMode) -> Result<
    (Seq<u8>, OperandMode),
    Failure,
> {
    match tag(s, seq!['(' as u8]) {
        Err(failure) => Err(failure),
        Ok(inner) => byte_then(inner, after, mode),
    }
}

/// No operand at all: nothing is read.
pub open spec fn implicit(s: Seq<u8>) -> Result<(Seq<u8>, OperandMode), Failure> {
    Ok((s, OperandMode::new(Operand::Nothing, AddressMode::Implicit)))
}

/// The accumulator: `A`.
pub open spec fn accumulator(s: Seq<u8>) -> Result<(Seq<u8>, OperandMode), Failure> {
    match tag(s, seq!['A' as u8]) {
        Ok(rest) => Ok((rest, OperandMode::new(Operand::Nothing, AddressMode::Accumulator))),
        Err(failure) => Err(failure),
    }
}

/// An immediate operand: `#` and two hexadecimal digits.
pub open spec fn immediate(s: Seq<u8>) -> Result<(Seq<u8>, OperandMode), Failure> {
    match tag(s, seq!['#' as u8]) {
        Err(failure) => Err(failure),
        Ok(digits) => match hex_byte(digits) {
            Err(failure) => Err(failure),
            Ok((rest, value)) => Ok(
                (rest, OperandMode::new(Operand::Word(value), AddressMode::Immediate)),
            ),
        },
    }
}

/// A zero-page address that no comma and no closing bracket follows.
pub open spec fn zeropage(s: Seq<u8>) -> Result<(Seq<u8>, OperandMode), Failure> {
    match zp_addr(s) {
        Err(failure) => Err(failure),
        Ok((rest, value)) => if goes_on(rest) {
            Err(Failure { input: s, code: ErrorKind::Fail })
        } else {
            Ok((rest, OperandMode::new(Operand::Word(value), AddressMode::ZeroPage)))
        },
    }
}

/// A zero-page address and `,X`.
pub open spec fn zeropage_x(s: Seq<u8>) -> Result<(Seq<u8>, OperandMode), Failure> {
    byte_then(s, seq![',' as u8, 'X' as u8], AddressMode::ZeroPageX)
}

/// A zero-page address and `,Y`.
pub open spec fn zeropage_y(s: Seq<u8>) -> Result<(Seq<u8>, OperandMode), Failure> {
    byte_then(s, seq![',' as u8, 'Y' as u8], AddressMode::ZeroPageY)
}

/// The byte that holds a signed offset of the given size, or `None` where
/// the offset lies outside -128 to 127.
pub open spec fn offset_byte(negative: bool, size: nat) -> Option<u8> {
    if negative {
        if size == 0 {
            Some(0u8)
        } else if size <= 128 {
            Some((256 - size) as u8)
        } else {
            None
        }
    } else {
        if size <= 127 {
            Some(size as u8)
        } else {
            None
        }
    }
}

/// A branch offset: `*`, a sign and decimal digits. The number must lie
/// between -128 and 127.
pub open spec fn relative(s: Seq<u8>) -> Result<(Seq<u8>, OperandMode), Failure> {
    match tag(s, seq!['*' as u8]) {
        Err(failure) => Err(failure),
        Ok(signed) => if signed.len() == 0 || !(signed[0] == '+' as u8 || signed[0] == '-' as u8) {
            Err(Failure { input: signed, code: ErrorKind::OneOf })
        } else {
            let digits = signed.skip(1);
            let count = run(digits, Class::Digit);
            if count == 0 {
                Err(Failure { input: digits, code: ErrorKind::Digit })
            } else {
                match offset_byte(signed[0] == '-' as u8, number(digits.take(count as int))) {
                    Some(value) => Ok(
                        (
                            digits.skip(count as int),
                            OperandMode::new(Operand::Word(value), AddressMode::Relative),
                        ),
                    ),
                    None => Err(Failure { input: s, code: ErrorKind::MapRes }),
                }
            }
        },
    }
}

/// An absolute address that no comma and no closing bracket follows.
pub open spec fn absolute(s: Seq<u8>) -> Result<(Seq<u8>, OperandMode), Failure> {
    match abs_addr(s) {
        Err(failure) => Err(failure),
        Ok((rest, value)) => if goes_on(rest) {
            Err(Failure { input: s, code: ErrorKind::TooLarge })
        } else {
            Ok((rest, OperandMode::new(Operand::DoubleWord(value), AddressMode::Absolute)))
        },
    }
}

/// An absolute address and `,X`.
pub open spec fn absolute_x(s: Seq<u8>) -> Result<(Seq<u8>, OperandMode), Failure> {
    word_then(s, seq![',' as u8, 'X' as u8], AddressMode::AbsoluteX)
}

/// An absolute address and `,Y`.
pub open spec fn absolute_y(s: Seq<u8>) -> Result<(Seq<u8>, OperandMode), Failure> {
    word_then(s, seq![',' as u8, 'Y' as u8], AddressMode::AbsoluteY)
}

/// A zero-page address in brackets.
pub open spec fn indirect(s: Seq<u8>) -> Result<(Seq<u8>, OperandMode), Failure> {
    bracket_then(s, seq![')' as u8], AddressMode::Indirect)
}

/// A zero-page address and `,X`, both in brackets.
pub open spec fn indirect_x(s: Seq<u8>) -> Result<(Seq<u8>, OperandMode), Failure> {
    bracket_then(s, seq![',' as u8, 'X' as u8, ')' as u8], AddressMode::IndirectX)
}

/// A zero-page address in brackets, and `,Y`.
pub open spec fn indirect_y(s: Seq<u8>) -> Result<(Seq<u8>, OperandMode), Failure> {
    bracket_then(s, seq![')' as u8, ',' as u8, 'Y' as u8], AddressMode::IndirectY)
}

/// An operand: the first of the spellings, in this order, that the text
/// starts with. The last of them reads nothing, so every text has an operand.
pub open spec fn operand(s: Seq<u8>) -> Result<(Seq<u8>, OperandMode), Failure> {
    if accumulator(s) is Ok {
        accumulator(s)
    } else if immediate(s) is Ok {
        immediate(s)
    } else if zeropage(s) is Ok {
        zeropage(s)
    } else if zeropage_x(s) is Ok {
        zeropage_x(s)
    } else if zeropage_y(s) is Ok {
        zeropage_y(s)
    } else if relative(s) is Ok {
        relative(s)
    } else if absolute(s) is Ok {
        absolute(s)
    } else if absolute_x(s) is Ok {
        absolute_x(s)
    } else if absolute_y(s) is Ok {
        absolute_y(s)
    } else if indirect(s) is Ok {
        indirect(s)
    } else if indirect_x(s) is Ok {
        indirect_x(s)
    } else if indirect_y(s) is Ok {
        indirect_y(s)
    } else {
        implicit(s)
    }
}

/// The mnemonic whose three letters, in upper case, are `a`, `b` and `c`.
pub open spec fn mnemonic_named(a: u8, b: u8, c: u8) -> Option<Mnemonic> {
    if exists|mnemonic: Mnemonic| mnemonic.name() == seq![a as char, b as char, c as char] {
        Some(choose|mnemonic: Mnemonic| mnemonic.name() == seq![a as char, b as char, c as char])
    } else {
        None
    }
}

/// A mnemonic: three bytes that are, upper and lower case taken as one, the
/// letters of a mnemonic.
pub open spec fn mnemonic(s: Seq<u8>) -> Result<(Seq<u8>, Mnemonic), Failure> {
    if s.len() < 3 {
        Err(Failure { input: s, code: ErrorKind::Eof })
    } else {
        match mnemonic_named(upper(s[0]), upper(s[1]), upper(s[2])) {
            Some(mnemonic) => Ok((s.skip(3), mnemonic)),
            None => Err(Failure { input: s, code: ErrorKind::Tag }),
        }
    }
}

/// An instruction: a mnemonic, and after spaces or tabs an operand. Without
/// such a gap the instruction is implicit and ends with its mnemonic.
pub open spec fn instruction(s: Seq<u8>) -> Result<(Seq<u8>, Instruction), Failure> {
    match mnemonic(s) {
        Err(failure) => Err(failure),
        Ok((rest, mnemonic)) => {
            let gap = run(rest, Class::Space);
            if gap == 0 {
                Ok((rest, Instruction::new(mnemonic, Operand::Nothing, AddressMode::Implicit)))
            } else {
                match operand(rest.skip(gap as int)) {
                    Ok((end, found)) => Ok(
                        (end, Instruction::new(mnemonic, found.operand, found.mode)),
                    ),
                    Err(failure) => Err(failure),
                }
            }
        },
    }
}

/// The index of the first line feed or carriage return of `s` from `at` on,
/// or the length of `s` where there is none.
pub open spec fn line_end(s: Seq<u8>, at: int) -> int
    decreases s.len() - at,
{
    if 0 <= at < s.len() && !(s[at] == '\n' as u8 || s[at] == '\r' as u8) {
        line_end(s, at + 1)
    } else {
        at
    }
}

/// A comment: `;` and what follows up to the end of the line. A carriage
/// return that no line feed follows is no end of a line: the comment fails
/// there.
pub open spec fn comment(s: Seq<u8>) -> Result<(Seq<u8>, Seq<u8>), Failure> {
    match tag(s, seq![';' as u8]) {
        Err(failure) => Err(failure),
        Ok(text) => {
            let end = line_end(text, 0);
            if end < text.len() && text[end] == '\r' as u8 && !(end + 1 < text.len() && text[end
                + 1] == '\n' as u8) {
                Err(Failure { input: text, code: ErrorKind::Tag })
            } else {
                Ok((text.skip(end), text.take(end)))
            }
        },
    }
}

/// The end of a line: a line feed, a carriage return with a line feed, or
/// the end of the text.
pub open spec fn end_of_line(s: Seq<u8>) -> Result<Seq<u8>, Failure> {
    if s.len() >= 1 && s[0] == '\n' as u8 {
        Ok(s.skip(1))
    } else if s.len() >= 2 && s[0] == '\r' as u8 && s[1] == '\n' as u8 {
        Ok(s.skip(2))
    } else if s.len() == 0 {
        Ok(s)
    } else {
        Err(Failure { input: s, code: ErrorKind::Eof })
    }
}

/// A line: spaces or tabs, then an instruction or none, then a comment or
/// none, which spaces or tabs may precede, then the end of the line.
pub open spec fn line(s: Seq<u8>) -> Result<(Seq<u8>, Option<Instruction>), Failure> {
    let start = s.skip(run(s, Class::Space) as int);
    let (body, found) = match instruction(start) {
        Ok((rest, instruction)) => (rest, Some(instruction)),
        Err(_) => (start, None),
    };
    let tail = match comment(body.skip(run(body, Class::Space) as int)) {
        Ok((rest, _)) => rest,
        Err(_) => body,
    };
    match end_of_line(tail) {
        Ok(rest) => Ok((rest, found)),
        Err(failure) => Err(failure),
    }
}

/// The run of bytes of `class` that starts at `at` ends within the text, it
/// holds bytes of the class only, and the byte after it, if there is one, is
/// of another class.
pub proof fn lemma_run_end(s: Seq<u8>, class: Class, at: int)
    requires
        0 <= at <= s.len(),
    ensures
        at <= run_end(s, class, at) <= s.len(),
        forall|i: int| at <= i < run_end(s, class, at) ==> class.has(#[trigger] s[i]),
        run_end(s, class, at) < s.len() ==> !class.has(s[run_end(s, class, at)]),
    decreases s.len() - at,
{
    if at < s.len() && class.has(s[at]) {
        lemma_run_end(s, class, at + 1);
    }
}

/// The first line ending from `at` on lies within the text.
pub proof fn lemma_line_end(s: Seq<u8>, at: int)
    requires
        0 <= at <= s.len(),
    ensures
        at <= line_end(s, at) <= s.len(),
    decreases s.len() - at,
{
    if at < s.len() && !(s[at] == '\n' as u8 || s[at] == '\r' as u8) {
        lemma_line_end(s, at + 1);
    }
}

/// An address reads its `$` and its digits and nothing else.
pub proof fn lemma_addr_shortens(s: Seq<u8>)
    ensures
        zp_addr(s) matches Ok((rest, _)) ==> rest.len() + 3 == s.len(),
        abs_addr(s) matches Ok((rest, _)) ==> rest.len() + 5 == s.len(),
{
    if tag(s, seq!['$' as u8]) is Ok {
        lemma_run_end(s.skip(1), Class::HexDigit, 0);
    }
}

/// An address with a fixed text after it reads at least the address.
pub proof fn lemma_then_shortens(s: Seq<u8>, after: Seq<u8>, mode: AddressMode)
    ensures
        byte_then(s, after, mode) matches Ok((rest, _)) ==> rest.len() + 3 <= s.len(),
        word_then(s, after, mode) matches Ok((rest, _)) ==> rest.len() + 5 <= s.len(),
        bracket_then(s, after, mode) matches Ok((rest, _)) ==> rest.len() + 4 <= s.len(),
{
    lemma_addr_shortens(s);
    if tag(s, seq!['(' as u8]) is Ok {
        lemma_addr_shortens(s.skip(1));
    }
}

/// Every operand but the implicit one reads at least one byte, and none
/// gives back more than it was given.
pub proof fn lemma_operand_shortens(s: Seq<u8>)
    ensures
        operand(s) matches Ok((rest, found)) && rest.len() <= s.len() && (found.mode
            != AddressMode::Implicit ==> rest.len() < s.len()),
{
    lemma_addr_shortens(s);
    lemma_then_shortens(s, seq![',' as u8, 'X' as u8], AddressMode::ZeroPageX);
    lemma_then_shortens(s, seq![',' as u8, 'Y' as u8], AddressMode::ZeroPageY);
    lemma_then_shortens(s, seq![',' as u8, 'X' as u8], AddressMode::AbsoluteX);
    lemma_then_shortens(s, seq![',' as u8, 'Y' as u8], AddressMode::AbsoluteY);
    lemma_then_shortens(s, seq![')' as u8], AddressMode::Indirect);
    lemma_then_shortens(s, seq![',' as u8, 'X' as u8, ')' as u8], AddressMode::IndirectX);
    lemma_then_shortens(s, seq![')' as u8, ',' as u8, 'Y' as u8], AddressMode::IndirectY);
    if tag(s, seq!['#' as u8]) is Ok {
        lemma_run_end(s.skip(1), Class::HexDigit, 0);
    }
    if relative(s) is Ok {
        lemma_run_end(s.skip(1).skip(1), Class::Digit, 0);
    }
}

/// An instruction reads at least its mnemonic.
pub proof fn lemma_instruction_shortens(s: Seq<u8>)
    ensures
        instruction(s) matches Ok((rest, _)) ==> rest.len() + 3 <= s.len(),
{
    if mnemonic(s) is Ok {
        let rest = s.skip(3);
        lemma_run_end(rest, Class::Space, 0);
        lemma_operand_shortens(rest.skip(run(rest, Class::Space) as int));
    }
}

/// A comment reads at least its `;`.
pub proof fn lemma_comment_shortens(s: Seq<u8>)
    ensures
        comment(s) matches Ok((rest, _)) ==> rest.len() + 1 <= s.len(),
{
    if tag(s, seq![';' as u8]) is Ok {
        lemma_line_end(s.skip(1), 0);
    }
}

/// A line gives back less than it was given, unless it was given nothing.
pub proof fn lemma_line_shortens(s: Seq<u8>)
    ensures
        line(s) matches Ok((rest, _)) ==> rest.len() <= s.len() && (s.len() > 0 ==> rest.len()
            < s.len()),
{
    lemma_run_end(s, Class::Space, 0);
    let start = s.skip(run(s, Class::Space) as int);
    lemma_instruction_shortens(start);
    let body = match instruction(start) {
        Ok((rest, _)) => rest,
        Err(_) => start,
    };
    lemma_run_end(body, Class::Space, 0);
    lemma_comment_shortens(body.skip(run(body, Class::Space) as int));
}

/// A program: lines up to the end of the text. Its value is the instructions
/// of the lines that hold one, in their order.
pub open spec fn program(s: Seq<u8>) -> Result<(Seq<u8>, Seq<Instruction>), Failure>
    decreases s.len(),
{
    if s.len() == 0 {
        Ok((s, Seq::empty()))
    } else {
        match line(s) {
            Err(failure) => Err(failure),
            Ok((rest, found)) => {
                proof {
                    lemma_line_shortens(s);
                }
                match program(rest) {
                    Err(failure) => Err(failure),
                    Ok((end, others)) => Ok(
                        (
                            end,
                            match found {
                                Some(instruction) => seq![instruction] + others,
                                None => others,
                            },
                        ),
                    ),
                }
            },
        }
    }
}

} // verus!
