//! The disassembler: from bytes to instructions, and from instructions to
//! assembler text.
use vstd::prelude::*;

use crate::cpu::addr::AddressMode;
use crate::cpu::ops::{lookup, opcode_for, Mnemonic, Opcode};
use crate::memory::{make_word, word};
use crate::text::{
    decimal, hex_byte, hex_word, joined, push_decimal, push_hex_byte, push_hex_word,
};

verus! {

/// What follows the opcode byte of an instruction.
#[derive(Debug, Clone, Copy, PartialEq, Eq, Structural)]
pub enum Operand {
    /// No operand follows.
    Nothing,
    /// One byte follows.
    Word(u8),
    /// Two bytes follow, the low byte first.
    DoubleWord(u16),
}

/// Why a sequence of bytes is no program.
#[derive(Debug, Clone, Copy, PartialEq, Eq, Structural)]
pub enum DecodeError {
    /// This byte stands where an opcode is due and is no legal opcode.
    UnknownOpcode(u8),
    /// The bytes end within the operand of this opcode.
    MissingOperand(u8),
}

/// One decoded instruction: the table's entry for the opcode byte, and the
/// operand that followed it.
#[derive(Debug, Clone, Copy, PartialEq, Eq, Structural)]
pub struct Instruction {
    pub opcode: Opcode,
    pub operand: Operand,
}

/// The texts of the instructions, in their order.
pub open spec fn texts(instructions: Seq<Instruction>) -> Seq<Seq<char>> {
    Seq::new(instructions.len(), |i: int| instructions[i].text())
}

/// The listing of a program: the text of each instruction, one to a line,
/// with a line feed between each two.
pub open spec fn listing(instructions: Seq<Instruction>) -> Seq<char> {
    joined(texts(instructions), seq!['\n'])
}

/// The operand as the assembler writes it in the given addressing mode, or
/// `None` where the mode shows no operand. Only the pairs of mode and operand
/// that `matches_mode` accepts have a text.
pub open spec fn operand_text(mode: AddressMode, operand: Operand) -> Option<Seq<char>> {
    match (mode, operand) {
        (AddressMode::Accumulator, Operand::Nothing) => Some(seq!['A']),
        (AddressMode::Immediate, Operand::Word(op)) => Some(seq!['#'] + hex_byte(op)),
        (AddressMode::ZeroPage, Operand::Word(op)) => Some(seq!['$'] + hex_byte(op)),
        (AddressMode::ZeroPageX, Operand::Word(op)) => Some(
            seq!['$'] + hex_byte(op) + seq![',', 'X'],
        ),
        (AddressMode::ZeroPageY, Operand::Word(op)) => Some(
            seq!['$'] + hex_byte(op) + seq![',', 'Y'],
        ),
        (AddressMode::Relative, Operand::Word(op)) => Some(seq!['*', '+'] + decimal(op as nat)),
        (AddressMode::Absolute, Operand::DoubleWord(op)) => Some(seq!['$'] + hex_word(op)),
        (AddressMode::AbsoluteX, Operand::DoubleWord(op)) => Some(
            seq!['$'] + hex_word(op) + seq![',', 'X'],
        ),
        (AddressMode::AbsoluteY, Operand::DoubleWord(op)) => Some(
            seq!['$'] + hex_word(op) + seq![',', 'Y'],
        ),
        (AddressMode::Indirect, Operand::DoubleWord(op)) => Some(
            seq!['(', '$'] + hex_word(op) + seq![')'],
        ),
        (AddressMode::IndirectX, Operand::Word(op)) => Some(
            seq!['(', '$'] + hex_byte(op) + seq![',', 'X', ')'],
        ),
        (AddressMode::IndirectY, Operand::Word(op)) => Some(
            seq!['(', '$'] + hex_byte(op) + seq![')', ',', 'Y'],
        ),
        _ => None,
    }
}

/// An instruction as the assembler writes it: the mnemonic, and after a space
/// the operand where the addressing mode shows one.
pub open spec fn instruction_text(mnemonic: Mnemonic, mode: AddressMode, operand: Operand) -> Seq<
    char,
> {
    match operand_text(mode, operand) {
        Some(operand) => mnemonic.name() + seq![' '] + operand,
        None => mnemonic.name(),
    }
}

/// Writes an instruction as assembler text.
pub fn render(mnemonic: Mnemonic, mode: AddressMode, operand: Operand) -> (r: String)
    requires
        operand.matches_mode(mode),
    ensures
        r@ == instruction_text(mnemonic, mode, operand),
{
    let mut out = String::new();
    out.append(mnemonic.as_str());
    let ghost name = out@;
    proof {
        reveal_strlit(" A");
        reveal_strlit(" #");
        reveal_strlit(" $");
        reveal_strlit(" *+");
        reveal_strlit(" ($");
        reveal_strlit(",X");
        reveal_strlit(",Y");
        reveal_strlit(")");
        reveal_strlit(",X)");
        reveal_strlit("),Y");
    }
    match operand {
        Operand::Nothing => {
            match mode {
                AddressMode::Accumulator => {
                    out.append(" A");
                    assert(out@ =~= name + seq![' '] + seq!['A']);
                },
                _ => {},
            }
        },
        Operand::Word(op) => {
            match mode {
                AddressMode::Immediate => {
                    out.append(" #");
                    push_hex_byte(&mut out, op);
                    assert(out@ =~= name + seq![' '] + (seq!['#'] + hex_byte(op)));
                },
                AddressMode::ZeroPage => {
                    out.append(" $");
                    push_hex_byte(&mut out, op);
                    assert(out@ =~= name + seq![' '] + (seq!['$'] + hex_byte(op)));
                },
                AddressMode::ZeroPageX => {
                    out.append(" $");
                    push_hex_byte(&mut out, op);
                    out.append(",X");
                    assert(out@ =~= name + seq![' '] + (seq!['$'] + hex_byte(op) + seq![
                        ',',
                        'X',
                    ]));
                },
                AddressMode::ZeroPageY => {
                    out.append(" $");
                    push_hex_byte(&mut out, op);
                    out.append(",Y");
                    assert(out@ =~= name + seq![' '] + (seq!['$'] + hex_byte(op) + seq![
                        ',',
                        'Y',
                    ]));
                },
                AddressMode::Relative => {
                    out.append(" *+");
                    push_decimal(&mut out, op);
                    assert(out@ =~= name + seq![' '] + (seq!['*', '+'] + decimal(op as nat)));
                },
                AddressMode::IndirectX => {
                    out.append(" ($");
                    push_hex_byte(&mut out, op);
                    out.append(",X)");
                    assert(out@ =~= name + seq![' '] + (seq!['(', '$'] + hex_byte(op) + seq![
                        ',',
                        'X',
                        ')',
                    ]));
                },
                _ => {
                    out.append(" ($");
                    push_hex_byte(&mut out, op);
                    out.append("),Y");
                    assert(out@ =~= name + seq![' '] + (seq!['(', '$'] + hex_byte(op) + seq![
                        ')',
                        ',',
                        'Y',
                    ]));
                },
            }
        },
        Operand::DoubleWord(op) => {
            match mode {
                AddressMode::Absolute => {
                    out.append(" $");
                    push_hex_word(&mut out, op);
                    assert(out@ =~= name + seq![' '] + (seq!['$'] + hex_word(op)));
                },
                AddressMode::AbsoluteX => {
                    out.append(" $");
                    push_hex_word(&mut out, op);
                    out.append(",X");
                    assert(out@ =~= name + seq![' '] + (seq!['$'] + hex_word(op) + seq![
                        ',',
                        'X',
                    ]));
                },
                AddressMode::AbsoluteY => {
                    out.append(" $");
                    push_hex_word(&mut out, op);
                    out.append(",Y");
                    assert(out@ =~= name + seq![' '] + (seq!['$'] + hex_word(op) + seq![
                        ',',
                        'Y',
                    ]));
                },
                _ => {
                    out.append(" ($");
                    push_hex_word(&mut out, op);
                    out.append(")");
                    assert(out@ =~= name + seq![' '] + (seq!['(', '$'] + hex_word(op) + seq![
                        ')',
                    ]));
                },
            }
        },
    }
    out
}

impl Operand {
    /// Whether the operand has the size that the addressing mode asks for.
    pub open spec fn matches_mode(self, mode: AddressMode) -> bool {
        match self {
            Operand::Nothing => mode.operand_len() == 0,
            Operand::Word(_) => mode.operand_len() == 1,
            Operand::DoubleWord(_) => mode.operand_len() == 2,
        }
    }

    /// Whether the operand has the size that the addressing mode asks for.
    pub fn fits(&self, mode: &AddressMode) -> (r: bool)
        ensures
            r == self.matches_mode(*mode),
    {
        match self {
            Operand::Nothing => mode.operand_bytes() == 0,
            Operand::Word(_) => mode.operand_bytes() == 1,
            Operand::DoubleWord(_) => mode.operand_bytes() == 2,
        }
    }
}

impl Instruction {
    /// The operand has the size that the opcode's addressing mode asks for.
    pub open spec fn well_formed(self) -> bool {
        self.operand.matches_mode(self.opcode.mode)
    }

    /// The number of bytes that the instruction was decoded from.
    pub open spec fn len(self) -> nat {
        1 + self.opcode.mode.operand_len()
    }

    /// The instruction as the assembler writes it: the mnemonic, and after a
    /// space the operand where the addressing mode shows one.
    pub open spec fn text(self) -> Seq<char> {
        instruction_text(self.opcode.mnemonic, self.opcode.mode, self.operand)
    }

    /// Whether the operand has the size that the opcode's addressing mode
    /// asks for.
    pub fn is_well_formed(&self) -> (r: bool)
        ensures
            r == self.well_formed(),
    {
        self.operand.fits(&self.opcode.mode)
    }

    /// The instruction as assembler text.
    pub fn to_string(&self) -> (r: String)
        requires
            self.well_formed(),
        ensures
            r@ == self.text(),
    {
        render(self.opcode.mnemonic, self.opcode.mode, self.operand)
    }

    /// Decodes the instruction that starts at `*cursor` and moves the cursor
    /// past it. Returns `None`, and leaves the cursor, where it stands at the
    /// end of the program or beyond. Fails, and leaves the cursor, where the
    /// byte under it is no legal opcode or the program ends within the
    /// operand.
    pub fn from_iter(program: &[u8], cursor: &mut usize) -> (r: Result<
        Option<Instruction>,
        DecodeError,
    >)
        ensures
            *old(cursor) >= program@.len() ==> r == Ok::<Option<Instruction>, DecodeError>(None)
                && *final(cursor) == *old(cursor),
            *old(cursor) < program@.len() ==> match decode_at(program@, *old(cursor) as int) {
                Ok(instruction) => r == Ok::<Option<Instruction>, DecodeError>(Some(instruction))
                    && *final(cursor) == *old(cursor) + instruction.len(),
                Err(error) => r == Err::<Option<Instruction>, DecodeError>(error) && *final(cursor)
                    == *old(cursor),
            },
    {
        let at = *cursor;
        if at >= program.len() {
            return Ok(None);
        }
        let byte = program[at];
        let opcode = match lookup(byte) {
            Some(opcode) => opcode,
            None => {
                return Err(DecodeError::UnknownOpcode(byte));
            },
        };
        let left = program.len() - at - 1;

        let operand = match opcode.mode {
            AddressMode::Implicit | AddressMode::Accumulator => Operand::Nothing,
            AddressMode::Immediate
            | AddressMode::ZeroPage
            | AddressMode::ZeroPageX
            | AddressMode::ZeroPageY
            | AddressMode::Relative
            | AddressMode::IndirectX
            | AddressMode::IndirectY => {
                if left < 1 {
                    return Err(DecodeError::MissingOperand(byte));
                }
                *cursor = at + 1;
                Operand::Word(program[at + 1])
            },
            AddressMode::Absolute
            | AddressMode::AbsoluteX
            | AddressMode::AbsoluteY
            | AddressMode::Indirect => {
                if left < 2 {
                    return Err(DecodeError::MissingOperand(byte));
                }
                *cursor = at + 2;
                Operand::DoubleWord(make_word(program[at + 1], program[at + 2]))
            },
        };
        *cursor = *cursor + 1;

        Ok(Some(Instruction { opcode, operand }))
    }
}

/// The instruction that starts at index `at` of `program`: the table's entry
/// for the byte there, with as many operand bytes as its addressing mode
/// asks for, two bytes read as a little-endian word.
pub open spec fn decode_at(program: Seq<u8>, at: int) -> Result<Instruction, DecodeError>
    recommends
        0 <= at < program.len(),
{
    let code = program[at];
    match opcode_for(code) {
        None => Err(DecodeError::UnknownOpcode(code)),
        Some(opcode) => {
            let count = opcode.mode.operand_len();
            if at + 1 + count > program.len() {
                Err(DecodeError::MissingOperand(code))
            } else if count == 0 {
                Ok(Instruction { opcode, operand: Operand::Nothing })
            } else if count == 1 {
                Ok(Instruction { opcode, operand: Operand::Word(program[at + 1]) })
            } else {
                Ok(
                    Instruction {
                        opcode,
                        operand: Operand::DoubleWord(word(program[at + 1], program[at + 2])),
                    },
                )
            }
        },
    }
}

/// The instructions of `program` from index `at` on, one after the other, or
/// the first error met.
pub open spec fn decode_from(program: Seq<u8>, at: int) -> Result<Seq<Instruction>, DecodeError>
    decreases program.len() - at,
{
    if at < 0 || at >= program.len() {
        Ok(Seq::empty())
    } else {
        match decode_at(program, at) {
            Err(error) => Err(error),
            Ok(instruction) => match decode_from(program, at + instruction.len()) {
                Err(error) => Err(error),
                Ok(rest) => Ok(seq![instruction] + rest),
            },
        }
    }
}

/// Every instruction that decoding yields has an operand of the size its
/// addressing mode asks for.
pub proof fn lemma_decoded_well_formed(program: Seq<u8>, at: int)
    requires
        0 <= at < program.len(),
        decode_at(program, at) is Ok,
    ensures
        decode_at(program, at)->Ok_0.well_formed(),
        opcode_for(program[at]) == Some(decode_at(program, at)->Ok_0.opcode),
{
}

/// Disassembles a whole program into its instructions. Fails where a byte
/// that should be an opcode is none, and where the program ends within an
/// operand.
pub fn decompile_to_instructions(program: &[u8]) -> (r: Result<Vec<Instruction>, DecodeError>)
    ensures
        match decode_from(program@, 0) {
            Ok(instructions) => r is Ok && r->Ok_0@ == instructions,
            Err(error) => r == Err::<Vec<Instruction>, DecodeError>(error),
        },
        r matches Ok(instructions) ==> forall|i: int|
            0 <= i < instructions@.len() ==> (#[trigger] instructions@[i]).well_formed(),
{
    let mut instructions: Vec<Instruction> = Vec::new();
    let mut cursor: usize = 0;

    loop
        invariant
            cursor <= program@.len(),
            forall|i: int|
                0 <= i < instructions@.len() ==> (#[trigger] instructions@[i]).well_formed(),
            decode_from(program@, 0) == match decode_from(program@, cursor as int) {
                Ok(rest) => Ok::<Seq<Instruction>, DecodeError>(instructions@ + rest),
                Err(error) => Err::<Seq<Instruction>, DecodeError>(error),
            },
        decreases program@.len() - cursor,
    {
        let ghost before = instructions@;
        let ghost start = cursor as int;
        match Instruction::from_iter(program, &mut cursor) {
            Ok(Some(instruction)) => {
                proof {
                    lemma_decoded_well_formed(program@, start);
                }
                instructions.push(instruction);
                proof {
                    let rest = decode_from(program@, cursor as int);
                    if rest is Ok {
                        assert(before + (seq![instruction] + rest->Ok_0) =~= instructions@
                            + rest->Ok_0);
                    }
                }
            },
            Ok(None) => {
                assert(instructions@ + Seq::<Instruction>::empty() =~= instructions@);
                return Ok(instructions);
            },
            Err(error) => {
                return Err(error);
            },
        }
    }
}

/// Disassembles a whole program into text, one instruction to a line. Fails
/// as `decompile_to_instructions` does.
pub fn decompile_to_string(program: &[u8]) -> (r: Result<String, DecodeError>)
    ensures
        match decode_from(program@, 0) {
            Ok(instructions) => r is Ok && r->Ok_0@ == listing(instructions),
            Err(error) => r == Err::<String, DecodeError>(error),
        },
{
    let instructions = match decompile_to_instructions(program) {
        Ok(instructions) => instructions,
        Err(error) => {
            return Err(error);
        },
    };
    let mut out = String::new();
    let mut i: usize = 0;
    while i < instructions.len()
        invariant
            i <= instructions@.len(),
            forall|k: int|
                0 <= k < instructions@.len() ==> (#[trigger] instructions@[k]).well_formed(),
            out@ == listing(instructions@.take(i as int)),
        decreases instructions@.len() - i,
    {
        let ghost before = out@;
        if i > 0 {
            proof {
                reveal_strlit("\n");
            }
            out.append("\n");
        }
        let line = instructions[i].to_string();
        out.append(line.as_str());
        proof {
            let done = instructions@.take(i as int);
            let next = instructions@.take(i as int + 1);
            assert(texts(next).drop_last() =~= texts(done));
            assert(texts(next).last() == instructions@[i as int].text());
            if i > 0 {
                assert(out@ =~= before + seq!['\n'] + line@);
            } else {
                assert(out@ =~= line@);
            }
        }
        i += 1;
    }
    assert(instructions@.take(i as int) =~= instructions@);
    Ok(out)
}

} // verus!
