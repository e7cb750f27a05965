//! From program text to programs.
use std::str::FromStr;

use vstd::prelude::*;
use vstd::string::StringSliceAdditionalSpecFns;

use crate::cpu::prog::grammar;
use crate::cpu::prog::grammar::ErrorKind;
use crate::cpu::prog::instructions::Instruction;
use crate::cpu::prog::parse::program;
use crate::cpu::prog::Program;

verus! {

/// Why a text is no program: the rule of the grammar that gave up, and how
/// many bytes of the text lie before the place where it did.
#[derive(Debug, Clone, Copy, PartialEq, Eq, Structural)]
pub struct TextError {
    pub offset: usize,
    pub code: ErrorKind,
}

/// What `parse_assembly` makes of a text: its instructions, or where and why
/// reading them failed.
pub open spec fn assembly(text: Seq<u8>) -> Result<Seq<Instruction>, TextError> {
    match grammar::program(text) {
        Ok((_, instructions)) => Ok(instructions),
        Err(failure) => Err(
            TextError { offset: (text.len() - failure.input.len()) as usize, code: failure.code },
        ),
    }
}

/// Reads a program from its text. The program starts at address 0 and holds
/// the instructions of the lines of the text, in their order.
pub fn parse_assembly(input: &str) -> (r: Result<Program, TextError>)
    ensures
        match assembly(input.spec_bytes()) {
            Ok(instructions) => r is Ok && r->Ok_0.start == 0 && r->Ok_0.code@ == instructions,
            Err(error) => r is Err && r->Err_0 == error,
        },
{
    let text = input.as_bytes();
    match program(text) {
        Ok((_, instructions)) => Ok(Program { start: 0, code: instructions }),
        Err(error) => Err(TextError { offset: text.len() - error.input.len(), code: error.code }),
    }
}

impl FromStr for Program {
    type Err = TextError;

    /// Reads a program from its text, as `parse_assembly` does.
    fn from_str(s: &str) -> (r: Result<Self, Self::Err>)
        ensures
            match assembly(s.spec_bytes()) {
                Ok(instructions) => r is Ok && r->Ok_0.start == 0 && r->Ok_0.code@
                    == instructions,
                Err(error) => r is Err && r->Err_0 == error,
            },
    {
        parse_assembly(s)
    }
}

} // verus!
