//! The addressing modes of the 6502.
use vstd::prelude::*;

verus! {

/// The rule by which an instruction finds its operand.
#[derive(Debug, Hash, PartialEq, Eq, Structural, Clone, Copy)]
pub enum AddressMode {
    Implicit,
    Accumulator,
    Immediate,
    ZeroPage,
    ZeroPageX,
    ZeroPageY,
    Relative,
    Absolute,
    AbsoluteX,
    AbsoluteY,
    Indirect,
    /// Indexed indirect: the pointer is found at the zero-page operand plus X.
    IndirectX,
    /// Indirect indexed: Y is added to the address the zero-page pointer holds.
    IndirectY,
}

impl AddressMode {
    /// Whether the mode names a memory location at all. The implicit and the
    /// accumulator mode have no operand in memory, and the relative mode belongs
    /// to the branches, which compute their own target.
    pub open spec fn has_address(self) -> bool {
        !(self is Implicit || self is Accumulator || self is Relative)
    }

    /// The number of operand bytes that follow the opcode byte in this mode.
    pub fn operand_bytes(&self) -> (count: u8)
        ensures
            count == self.operand_len(),
    {
        match self {
            AddressMode::Implicit | AddressMode::Accumulator => 0,
            AddressMode::Immediate
            | AddressMode::ZeroPage
            | AddressMode::ZeroPageX
            | AddressMode::ZeroPageY
            | AddressMode::Relative
            | AddressMode::IndirectX
            | AddressMode::IndirectY => 1,
            AddressMode::Absolute
            | AddressMode::AbsoluteX
            | AddressMode::AbsoluteY
            | AddressMode::Indirect => 2,
        }
    }

    /// The number of operand bytes that follow the opcode byte in this mode.
    pub open spec fn operand_len(self) -> nat {
        match self {
            AddressMode::Implicit | AddressMode::Accumulator => 0,
            AddressMode::Immediate
            | AddressMode::ZeroPage
            | AddressMode::ZeroPageX
            | AddressMode::ZeroPageY
            | AddressMode::Relative
            | AddressMode::IndirectX
            | AddressMode::IndirectY => 1,
            AddressMode::Absolute
            | AddressMode::AbsoluteX
            | AddressMode::AbsoluteY
            | AddressMode::Indirect => 2,
        }
    }
}

} // verus!
