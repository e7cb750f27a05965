//! Instructions as the assembler sees them: a mnemonic, an addressing mode
//! and an operand.
use vstd::prelude::*;

use crate::cpu::addr::AddressMode;
use crate::cpu::decomp::{decode_at, instruction_text, render, DecodeError};
use crate::cpu::ops::Mnemonic;

pub use crate::cpu::decomp::Operand;

verus! {

/// One instruction of a program text.
#[derive(Debug, Clone, Copy, PartialEq, Eq, Structural)]
pub struct Instruction {
    pub mnemonic: Mnemonic,
    pub operand: Operand,
    pub mode: AddressMode,
}

/// A decoded instruction as the assembler sees it: the mnemonic and the
/// addressing mode of its opcode, and its operand.
pub open spec fn of_decoded(decoded: crate::cpu::decomp::Instruction) -> Instruction {
    Instruction {
        mnemonic: decoded.opcode.mnemonic,
        operand: decoded.operand,
        mode: decoded.opcode.mode,
    }
}

impl Instruction {
    /// The operand has the size that the addressing mode asks for.
    pub open spec fn well_formed(self) -> bool {
        self.operand.matches_mode(self.mode)
    }

    /// The instruction as the assembler writes it.
    pub open spec fn text(self) -> Seq<char> {
        instruction_text(self.mnemonic, self.mode, self.operand)
    }

    /// The instruction with these parts.
    #[verifier::allow_in_spec]
    pub fn new(mnemonic: Mnemonic, operand: Operand, mode: AddressMode) -> Self
        returns
            (Instruction { mnemonic, operand, mode }),
    {
        Instruction { mnemonic, operand, mode }
    }

    /// Decodes the instruction that starts at `*cursor` and moves the cursor
    /// past it. Returns `None`, and leaves the cursor, where it stands at the
    /// end of the program or beyond. Fails, and leaves the cursor, where the
    /// byte under it is no legal opcode or the program ends within the
    /// operand.
    pub fn from_iter(program: &[u8], cursor: &mut usize) -> (r: Result<
        Option<Instruction>,
        DecodeError,
    >)
        ensures
            *old(cursor) >= program@.len() ==> r == Ok::<Option<Instruction>, DecodeError>(None)
                && *final(cursor) == *old(cursor),
            *old(cursor) < program@.len() ==> match decode_at(program@, *old(cursor) as int) {
                Ok(decoded) => r == Ok::<Option<Instruction>, DecodeError>(
                    Some(of_decoded(decoded)),
                ) && *final(cursor) == *old(cursor) + decoded.len(),
                Err(error) => r == Err::<Option<Instruction>, DecodeError>(error) && *final(cursor)
                    == *old(cursor),
            },
    {
        match crate::cpu::decomp::Instruction::from_iter(program, cursor) {
            Ok(Some(decoded)) => Ok(
                Some(Instruction::new(decoded.opcode.mnemonic, decoded.operand, decoded.opcode.mode)),
            ),
            Ok(None) => Ok(None),
            Err(error) => Err(error),
        }
    }

    /// Whether the operand has the size that the addressing mode asks for.
    pub fn is_well_formed(&self) -> (r: bool)
        ensures
            r == self.well_formed(),
    {
        self.operand.fits(&self.mode)
    }

    /// The instruction as assembler text. The instruction must be well
    /// formed: no other has a text.
    pub fn to_string(&self) -> (r: String)
        requires
            self.well_formed(),
        ensures
            r@ == self.text(),
    {
        render(self.mnemonic, self.mode, self.operand)
    }
}

} // verus!
