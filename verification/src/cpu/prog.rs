//! Programs as lists of instructions.
use vstd::prelude::*;

pub mod compile;
pub mod grammar;
pub mod instructions;
pub mod parse;

use crate::cpu::decomp::{decode_at, decode_from, lemma_decoded_well_formed, DecodeError};
use crate::cpu::prog::instructions::{of_decoded, Instruction};
use crate::text::terminated;

verus! {

/// A program: where it starts, and its instructions in their order.
pub struct Program {
    pub start: u16,
    pub code: Vec<Instruction>,
}

/// The texts of the instructions, in their order.
pub open spec fn texts(instructions: Seq<Instruction>) -> Seq<Seq<char>> {
    Seq::new(instructions.len(), |i: int| instructions[i].text())
}

/// The instructions that the bytes of `code` decode to, as the assembler
/// sees them, or the first error met.
pub open spec fn disassembled(code: Seq<u8>) -> Result<Seq<Instruction>, DecodeError> {
    match decode_from(code, 0) {
        Ok(decoded) => Ok(Seq::new(decoded.len(), |i: int| of_decoded(decoded[i]))),
        Err(error) => Err(error),
    }
}

impl Program {
    /// Every instruction has an operand of the size its addressing mode asks
    /// for.
    pub open spec fn well_formed(&self) -> bool {
        forall|i: int| 0 <= i < self.code@.len() ==> (#[trigger] self.code@[i]).well_formed()
    }

    /// The program as assembler text: each instruction on a line of its own,
    /// every line ended by a line feed.
    pub open spec fn text(&self) -> Seq<char> {
        terminated(texts(self.code@), seq!['\n'])
    }

    /// An empty program that starts at address 0.
    pub fn new() -> (program: Self)
        ensures
            program.start == 0,
            program.code@ == Seq::<Instruction>::empty(),
    {
        Program { start: 0, code: Vec::new() }
    }

    /// Whether every instruction is well formed.
    pub fn is_well_formed(&self) -> (r: bool)
        ensures
            r == self.well_formed(),
    {
        let mut i: usize = 0;
        while i < self.code.len()
            invariant
                i <= self.code@.len(),
                forall|k: int| 0 <= k < i ==> (#[trigger] self.code@[k]).well_formed(),
            decreases self.code@.len() - i,
        {
            if !self.code[i].is_well_formed() {
                return false;
            }
            i += 1;
        }
        true
    }

    /// The program as assembler text. The program must be well formed: no
    /// other has a text.
    pub fn to_string(&self) -> (r: String)
        requires
            self.well_formed(),
        ensures
            r@ == self.text(),
    {
        let mut out = String::new();
        let mut i: usize = 0;
        while i < self.code.len()
            invariant
                i <= self.code@.len(),
                self.well_formed(),
                out@ == terminated(texts(self.code@.take(i as int)), seq!['\n']),
            decreases self.code@.len() - i,
        {
            let ghost before = out@;
            let line = self.code[i].to_string();
            out.append(line.as_str());
            proof {
                reveal_strlit("\n");
            }
            out.append("\n");
            proof {
                let done = self.code@.take(i as int);
                let next = self.code@.take(i as int + 1);
                assert(texts(next).drop_last() =~= texts(done));
                assert(texts(next).last() == self.code@[i as int].text());
                assert(out@ =~= before + line@ + seq!['\n']);
            }
            i += 1;
        }
        assert(self.code@.take(i as int) =~= self.code@);
        out
    }
}

/// Disassembles `code` into a program that starts at address 0. Fails where
/// a byte that should be an opcode is none, and where the bytes end within an
/// operand.
pub fn disassemble(code: &[u8]) -> (r: Result<Program, DecodeError>)
    ensures
        match disassembled(code@) {
            Ok(instructions) => r is Ok && r->Ok_0.start == 0 && r->Ok_0.code@ == instructions
                && r->Ok_0.well_formed(),
            Err(error) => r is Err && r->Err_0 == error,
        },
{
    let mut instructions: Vec<Instruction> = Vec::new();
    let mut cursor: usize = 0;
    let ghost mut decoded: Seq<crate::cpu::decomp::Instruction> = Seq::empty();

    loop
        invariant
            cursor <= code@.len(),
            instructions@ == Seq::new(decoded.len(), |i: int| of_decoded(decoded[i])),
            forall|i: int|
                0 <= i < instructions@.len() ==> (#[trigger] instructions@[i]).well_formed(),
            decode_from(code@, 0) == match decode_from(code@, cursor as int) {
                Ok(rest) => Ok::<Seq<crate::cpu::decomp::Instruction>, DecodeError>(decoded + rest),
                Err(error) => Err::<Seq<crate::cpu::decomp::Instruction>, DecodeError>(error),
            },
        decreases code@.len() - cursor,
    {
        let ghost start = cursor as int;
        match Instruction::from_iter(code, &mut cursor) {
            Ok(Some(instruction)) => {
                instructions.push(instruction);
                proof {
                    lemma_decoded_well_formed(code@, start);
                    let one = decode_at(code@, start)->Ok_0;
                    let rest = decode_from(code@, cursor as int);
                    if rest is Ok {
                        assert(decoded + (seq![one] + rest->Ok_0) =~= decoded.push(one)
                            + rest->Ok_0);
                    }
                    decoded = decoded.push(one);
                    assert(instructions@ =~= Seq::new(
                        decoded.len(),
                        |i: int| of_decoded(decoded[i]),
                    ));
                }
            },
            Ok(None) => {
                assert(decoded + Seq::<crate::cpu::decomp::Instruction>::empty() =~= decoded);
                return Ok(Program { start: 0, code: instructions });
            },
            Err(error) => {
                return Err(error);
            },
        }
    }
}

impl<'a> TryFrom<&'a [u8]> for Program {
    type Error = DecodeError;

    /// Disassembles the bytes, as `disassemble` does.
    fn try_from(value: &'a [u8]) -> (r: Result<Self, DecodeError>)
        ensures
            match disassembled(value@) {
                Ok(instructions) => r is Ok && r->Ok_0.start == 0 && r->Ok_0.code@ == instructions
                    && r->Ok_0.well_formed(),
                Err(error) => r is Err && r->Err_0 == error,
            },
    {
        disassemble(value)
    }
}

impl<'a> vstd::std_specs::convert::TryFromSpecImpl<&'a [u8]> for Program {
    /// The conversion is described by the clauses on `try_from` itself, which
    /// speak of the view of the instructions.
    open spec fn obeys_try_from_spec() -> bool {
        false
    }

    open spec fn try_from_spec(value: &'a [u8]) -> Result<Self, DecodeError> {
        arbitrary()
    }
}

/// Snake for the 6502 with a memory-mapped display.
pub const SNAKE_BYTES: [u8; 309] = [
    0x20, 0x06, 0x06, 0x20, 0x38, 0x06, 0x20, 0x0d, 0x06, 0x20, 0x2a, 0x06, 0x60, 0xa9, 0x02, 0x85,
    0x02, 0xa9, 0x04, 0x85, 0x03, 0xa9, 0x11, 0x85, 0x10, 0xa9, 0x10, 0x85, 0x12, 0xa9, 0x0f, 0x85,
    0x14, 0xa9, 0x04, 0x85, 0x11, 0x85, 0x13, 0x85, 0x15, 0x60, 0xa5, 0xfe, 0x85, 0x00, 0xa5, 0xfe,
    0x29, 0x03, 0x18, 0x69, 0x02, 0x85, 0x01, 0x60, 0x20, 0x4d, 0x06, 0x20, 0x8d, 0x06, 0x20, 0xc3,
    0x06, 0x20, 0x19, 0x07, 0x20, 0x20, 0x07, 0x20, 0x2d, 0x07, 0x4c, 0x38, 0x06, 0xa5, 0xff, 0xc9,
    0x77, 0xf0, 0x0d, 0xc9, 0x64, 0xf0, 0x14, 0xc9, 0x73, 0xf0, 0x1b, 0xc9, 0x61, 0xf0, 0x22, 0x60,
    0xa9, 0x04, 0x24, 0x02, 0xd0, 0x26, 0xa9, 0x01, 0x85, 0x02, 0x60, 0xa9, 0x08, 0x24, 0x02, 0xd0,
    0x1b, 0xa9, 0x02, 0x85, 0x02, 0x60, 0xa9, 0x01, 0x24, 0x02, 0xd0, 0x10, 0xa9, 0x04, 0x85, 0x02,
    0x60, 0xa9, 0x02, 0x24, 0x02, 0xd0, 0x05, 0xa9, 0x08, 0x85, 0x02, 0x60, 0x60, 0x20, 0x94, 0x06,
    0x20, 0xa8, 0x06, 0x60, 0xa5, 0x00, 0xc5, 0x10, 0xd0, 0x0d, 0xa5, 0x01, 0xc5, 0x11, 0xd0, 0x07,
    0xe6, 0x03, 0xe6, 0x03, 0x20, 0x2a, 0x06, 0x60, 0xa2, 0x02, 0xb5, 0x10, 0xc5, 0x10, 0xd0, 0x06,
    0xb5, 0x11, 0xc5, 0x11, 0xf0, 0x09, 0xe8, 0xe8, 0xe4, 0x03, 0xf0, 0x06, 0x4c, 0xaa, 0x06, 0x4c,
    0x35, 0x07, 0x60, 0xa6, 0x03, 0xca, 0x8a, 0xb5, 0x10, 0x95, 0x12, 0xca, 0x10, 0xf9, 0xa5, 0x02,
    0x4a, 0xb0, 0x09, 0x4a, 0xb0, 0x19, 0x4a, 0xb0, 0x1f, 0x4a, 0xb0, 0x2f, 0xa5, 0x10, 0x38, 0xe9,
    0x20, 0x85, 0x10, 0x90, 0x01, 0x60, 0xc6, 0x11, 0xa9, 0x01, 0xc5, 0x11, 0xf0, 0x28, 0x60, 0xe6,
    0x10, 0xa9, 0x1f, 0x24, 0x10, 0xf0, 0x1f, 0x60, 0xa5, 0x10, 0x18, 0x69, 0x20, 0x85, 0x10, 0xb0,
    0x01, 0x60, 0xe6, 0x11, 0xa9, 0x06, 0xc5, 0x11, 0xf0, 0x0c, 0x60, 0xc6, 0x10, 0xa5, 0x10, 0x29,
    0x1f, 0xc9, 0x1f, 0xf0, 0x01, 0x60, 0x4c, 0x35, 0x07, 0xa0, 0x00, 0xa5, 0xfe, 0x91, 0x00, 0x60,
    0xa6, 0x03, 0xa9, 0x00, 0x81, 0x10, 0xa2, 0x00, 0xa9, 0x01, 0x81, 0x10, 0x60, 0xa2, 0x00, 0xea,
    0xea, 0xca, 0xd0, 0xfb, 0x60,
];

} // verus!
