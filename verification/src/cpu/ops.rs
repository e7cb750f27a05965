//! The mnemonics and the table of legal opcodes of the NMOS 6502.
use vstd::prelude::*;

use crate::cpu::addr::AddressMode;

verus! {

/// The operations of the 6502, by their assembler names.
#[derive(Debug, Clone, Copy, PartialEq, Eq, Structural)]
pub enum Mnemonic {
    /// Add to the accumulator, with carry
    ADC,
    /// Bitwise AND into the accumulator
    AND,
    /// Shift left by one bit
    ASL,
    /// Test bits of memory against the accumulator
    BIT,
    /// Branch if N is clear
    BPL,
    /// Branch if N is set
    BMI,
    /// Branch if V is clear
    BVC,
    /// Branch if V is set
    BVS,
    /// Branch if C is clear
    BCC,
    /// Branch if C is set
    BCS,
    /// Branch if Z is clear
    BNE,
    /// Branch if Z is set
    BEQ,
    /// Break
    BRK,
    /// Compare with the accumulator
    CMP,
    /// Compare with X
    CPX,
    /// Compare with Y
    CPY,
    /// Decrement memory
    DEC,
    /// Bitwise exclusive OR into the accumulator
    EOR,
    /// Clear C
    CLC,
    /// Set C
    SEC,
    /// Clear I
    CLI,
    /// Set I
    SEI,
    /// Clear V
    CLV,
    /// Clear D
    CLD,
    /// Set D
    SED,
    /// Increment memory
    INC,
    /// Jump
    JMP,
    /// Jump to subroutine
    JSR,
    /// Load the accumulator
    LDA,
    /// Load X
    LDX,
    /// Load Y
    LDY,
    /// Shift right by one bit
    LSR,
    /// No operation
    NOP,
    /// Bitwise OR into the accumulator
    ORA,
    /// Copy the accumulator to X
    TAX,
    /// Copy X to the accumulator
    TXA,
    /// Decrement X
    DEX,
    /// Increment X
    INX,
    /// Copy the accumulator to Y
    TAY,
    /// Copy Y to the accumulator
    TYA,
    /// Decrement Y
    DEY,
    /// Increment Y
    INY,
    /// Rotate left through carry
    ROL,
    /// Rotate right through carry
    ROR,
    /// Return from interrupt
    RTI,
    /// Return from subroutine
    RTS,
    /// Subtract from the accumulator, with borrow
    SBC,
    /// Store the accumulator
    STA,
    /// Copy X to the stack pointer
    TXS,
    /// Copy the stack pointer to X
    TSX,
    /// Push the accumulator
    PHA,
    /// Pull the accumulator
    PLA,
    /// Push the status word
    PHP,
    /// Pull the status word
    PLP,
    /// Store X
    STX,
    /// Store Y
    STY,
}

impl Mnemonic {
    /// The three letters of the mnemonic.
    pub open spec fn letters(self) -> (char, char, char) {
        match self {
            Mnemonic::ADC => ('A', 'D', 'C'),
            Mnemonic::AND => ('A', 'N', 'D'),
            Mnemonic::ASL => ('A', 'S', 'L'),
            Mnemonic::BIT => ('B', 'I', 'T'),
            Mnemonic::BPL => ('B', 'P', 'L'),
            Mnemonic::BMI => ('B', 'M', 'I'),
            Mnemonic::BVC => ('B', 'V', 'C'),
            Mnemonic::BVS => ('B', 'V', 'S'),
            Mnemonic::BCC => ('B', 'C', 'C'),
            Mnemonic::BCS => ('B', 'C', 'S'),
            Mnemonic::BNE => ('B', 'N', 'E'),
            Mnemonic::BEQ => ('B', 'E', 'Q'),
            Mnemonic::BRK => ('B', 'R', 'K'),
            Mnemonic::CMP => ('C', 'M', 'P'),
            Mnemonic::CPX => ('C', 'P', 'X'),
            Mnemonic::CPY => ('C', 'P', 'Y'),
            Mnemonic::DEC => ('D', 'E', 'C'),
            Mnemonic::EOR => ('E', 'O', 'R'),
            Mnemonic::CLC => ('C', 'L', 'C'),
            Mnemonic::SEC => ('S', 'E', 'C'),
            Mnemonic::CLI => ('C', 'L', 'I'),
            Mnemonic::SEI => ('S', 'E', 'I'),
            Mnemonic::CLV => ('C', 'L', 'V'),
            Mnemonic::CLD => ('C', 'L', 'D'),
            Mnemonic::SED => ('S', 'E', 'D'),
            Mnemonic::INC => ('I', 'N', 'C'),
            Mnemonic::JMP => ('J', 'M', 'P'),
            Mnemonic::JSR => ('J', 'S', 'R'),
            Mnemonic::LDA => ('L', 'D', 'A'),
            Mnemonic::LDX => ('L', 'D', 'X'),
            Mnemonic::LDY => ('L', 'D', 'Y'),
            Mnemonic::LSR => ('L', 'S', 'R'),
            Mnemonic::NOP => ('N', 'O', 'P'),
            Mnemonic::ORA => ('O', 'R', 'A'),
            Mnemonic::TAX => ('T', 'A', 'X'),
            Mnemonic::TXA => ('T', 'X', 'A'),
            Mnemonic::DEX => ('D', 'E', 'X'),
            Mnemonic::INX => ('I', 'N', 'X'),
            Mnemonic::TAY => ('T', 'A', 'Y'),
            Mnemonic::TYA => ('T', 'Y', 'A'),
            Mnemonic::DEY => ('D', 'E', 'Y'),
            Mnemonic::INY => ('I', 'N', 'Y'),
            Mnemonic::ROL => ('R', 'O', 'L'),
            Mnemonic::ROR => ('R', 'O', 'R'),
            Mnemonic::RTI => ('R', 'T', 'I'),
            Mnemonic::RTS => ('R', 'T', 'S'),
            Mnemonic::SBC => ('S', 'B', 'C'),
            Mnemonic::STA => ('S', 'T', 'A'),
            Mnemonic::TXS => ('T', 'X', 'S'),
            Mnemonic::TSX => ('T', 'S', 'X'),
            Mnemonic::PHA => ('P', 'H', 'A'),
            Mnemonic::PLA => ('P', 'L', 'A'),
            Mnemonic::PHP => ('P', 'H', 'P'),
            Mnemonic::PLP => ('P', 'L', 'P'),
            Mnemonic::STX => ('S', 'T', 'X'),
            Mnemonic::STY => ('S', 'T', 'Y'),
        }
    }

    /// The name of the mnemonic: its three letters.
    pub open spec fn name(self) -> Seq<char> {
        seq![self.letters().0, self.letters().1, self.letters().2]
    }

    /// The mnemonic as text.
    pub fn as_str(&self) -> (r: &'static str)
        ensures
            r@ == self.name(),
    {
        match self {
            Mnemonic::ADC => {
                proof {
                    reveal_strlit("ADC");
                }
                assert("ADC"@ =~= self.name());
                "ADC"
            },
            Mnemonic::AND => {
                proof {
                    reveal_strlit("AND");
                }
                assert("AND"@ =~= self.name());
                "AND"
            },
            Mnemonic::ASL => {
                proof {
                    reveal_strlit("ASL");
                }
                assert("ASL"@ =~= self.name());
                "ASL"
            },
            Mnemonic::BIT => {
                proof {
                    reveal_strlit("BIT");
                }
                assert("BIT"@ =~= self.name());
                "BIT"
            },
            Mnemonic::BPL => {
                proof {
                    reveal_strlit("BPL");
                }
                assert("BPL"@ =~= self.name());
                "BPL"
            },
            Mnemonic::BMI => {
                proof {
                    reveal_strlit("BMI");
                }
                assert("BMI"@ =~= self.name());
                "BMI"
            },
            Mnemonic::BVC => {
                proof {
                    reveal_strlit("BVC");
                }
                assert("BVC"@ =~= self.name());
                "BVC"
            },
            Mnemonic::BVS => {
                proof {
                    reveal_strlit("BVS");
                }
                assert("BVS"@ =~= self.name());
                "BVS"
            },
            Mnemonic::BCC => {
                proof {
                    reveal_strlit("BCC");
                }
                assert("BCC"@ =~= self.name());
                "BCC"
            },
            Mnemonic::BCS => {
                proof {
                    reveal_strlit("BCS");
                }
                assert("BCS"@ =~= self.name());
                "BCS"
            },
            Mnemonic::BNE => {
                proof {
                    reveal_strlit("BNE");
                }
                assert("BNE"@ =~= self.name());
                "BNE"
            },
            Mnemonic::BEQ => {
                proof {
                    reveal_strlit("BEQ");
                }
                assert("BEQ"@ =~= self.name());
                "BEQ"
            },
            Mnemonic::BRK => {
                proof {
                    reveal_strlit("BRK");
                }
                assert("BRK"@ =~= self.name());
                "BRK"
            },
            Mnemonic::CMP => {
                proof {
                    reveal_strlit("CMP");
                }
                assert("CMP"@ =~= self.name());
                "CMP"
            },
            Mnemonic::CPX => {
                proof {
                    reveal_strlit("CPX");
                }
                assert("CPX"@ =~= self.name());
                "CPX"
            },
            Mnemonic::CPY => {
                proof {
                    reveal_strlit("CPY");
                }
                assert("CPY"@ =~= self.name());
                "CPY"
            },
            Mnemonic::DEC => {
                proof {
                    reveal_strlit("DEC");
                }
                assert("DEC"@ =~= self.name());
                "DEC"
            },
            Mnemonic::EOR => {
                proof {
                    reveal_strlit("EOR");
                }
                assert("EOR"@ =~= self.name());
                "EOR"
            },
            Mnemonic::CLC => {
                proof {
                    reveal_strlit("CLC");
                }
                assert("CLC"@ =~= self.name());
                "CLC"
            },
            Mnemonic::SEC => {
                proof {
                    reveal_strlit("SEC");
                }
                assert("SEC"@ =~= self.name());
                "SEC"
            },
            Mnemonic::CLI => {
                proof {
                    reveal_strlit("CLI");
                }
                assert("CLI"@ =~= self.name());
                "CLI"
            },
            Mnemonic::SEI => {
                proof {
                    reveal_strlit("SEI");
                }
                assert("SEI"@ =~= self.name());
                "SEI"
            },
            Mnemonic::CLV => {
                proof {
                    reveal_strlit("CLV");
                }
                assert("CLV"@ =~= self.name());
                "CLV"
            },
            Mnemonic::CLD => {
                proof {
                    reveal_strlit("CLD");
                }
                assert("CLD"@ =~= self.name());
                "CLD"
            },
            Mnemonic::SED => {
                proof {
                    reveal_strlit("SED");
                }
                assert("SED"@ =~= self.name());
                "SED"
            },
            Mnemonic::INC => {
                proof {
                    reveal_strlit("INC");
                }
                assert("INC"@ =~= self.name());
                "INC"
            },
            Mnemonic::JMP => {
                proof {
                    reveal_strlit("JMP");
                }
                assert("JMP"@ =~= self.name());
                "JMP"
            },
            Mnemonic::JSR => {
                proof {
                    reveal_strlit("JSR");
                }
                assert("JSR"@ =~= self.name());
                "JSR"
            },
            Mnemonic::LDA => {
                proof {
                    reveal_strlit("LDA");
                }
                assert("LDA"@ =~= self.name());
                "LDA"
            },
            Mnemonic::LDX => {
                proof {
                    reveal_strlit("LDX");
                }
                assert("LDX"@ =~= self.name());
                "LDX"
            },
            Mnemonic::LDY => {
                proof {
                    reveal_strlit("LDY");
                }
                assert("LDY"@ =~= self.name());
                "LDY"
            },
            Mnemonic::LSR => {
                proof {
                    reveal_strlit("LSR");
                }
                assert("LSR"@ =~= self.name());
                "LSR"
            },
            Mnemonic::NOP => {
                proof {
                    reveal_strlit("NOP");
                }
                assert("NOP"@ =~= self.name());
                "NOP"
            },
            Mnemonic::ORA => {
                proof {
                    reveal_strlit("ORA");
                }
                assert("ORA"@ =~= self.name());
                "ORA"
            },
            Mnemonic::TAX => {
                proof {
                    reveal_strlit("TAX");
                }
                assert("TAX"@ =~= self.name());
                "TAX"
            },
            Mnemonic::TXA => {
                proof {
                    reveal_strlit("TXA");
                }
                assert("TXA"@ =~= self.name());
                "TXA"
            },
            Mnemonic::DEX => {
                proof {
                    reveal_strlit("DEX");
                }
                assert("DEX"@ =~= self.name());
                "DEX"
            },
            Mnemonic::INX => {
                proof {
                    reveal_strlit("INX");
                }
                assert("INX"@ =~= self.name());
                "INX"
            },
            Mnemonic::TAY => {
                proof {
                    reveal_strlit("TAY");
                }
                assert("TAY"@ =~= self.name());
                "TAY"
            },
            Mnemonic::TYA => {
                proof {
                    reveal_strlit("TYA");
                }
                assert("TYA"@ =~= self.name());
                "TYA"
            },
            Mnemonic::DEY => {
                proof {
                    reveal_strlit("DEY");
                }
                assert("DEY"@ =~= self.name());
                "DEY"
            },
            Mnemonic::INY => {
                proof {
                    reveal_strlit("INY");
                }
                assert("INY"@ =~= self.name());
                "INY"
            },
            Mnemonic::ROL => {
                proof {
                    reveal_strlit("ROL");
                }
                assert("ROL"@ =~= self.name());
                "ROL"
            },
            Mnemonic::ROR => {
                proof {
                    reveal_strlit("ROR");
                }
                assert("ROR"@ =~= self.name());
                "ROR"
            },
            Mnemonic::RTI => {
                proof {
                    reveal_strlit("RTI");
                }
                assert("RTI"@ =~= self.name());
                "RTI"
            },
            Mnemonic::RTS => {
                proof {
                    reveal_strlit("RTS");
                }
                assert("RTS"@ =~= self.name());
                "RTS"
            },
            Mnemonic::SBC => {
                proof {
                    reveal_strlit("SBC");
                }
                assert("SBC"@ =~= self.name());
                "SBC"
            },
            Mnemonic::STA => {
                proof {
                    reveal_strlit("STA");
                }
                assert("STA"@ =~= self.name());
                "STA"
            },
            Mnemonic::TXS => {
                proof {
                    reveal_strlit("TXS");
                }
                assert("TXS"@ =~= self.name());
                "TXS"
            },
            Mnemonic::TSX => {
                proof {
                    reveal_strlit("TSX");
                }
                assert("TSX"@ =~= self.name());
                "TSX"
            },
            Mnemonic::PHA => {
                proof {
                    reveal_strlit("PHA");
                }
                assert("PHA"@ =~= self.name());
                "PHA"
            },
            Mnemonic::PLA => {
                proof {
                    reveal_strlit("PLA");
                }
                assert("PLA"@ =~= self.name());
                "PLA"
            },
            Mnemonic::PHP => {
                proof {
                    reveal_strlit("PHP");
                }
                assert("PHP"@ =~= self.name());
                "PHP"
            },
            Mnemonic::PLP => {
                proof {
                    reveal_strlit("PLP");
                }
                assert("PLP"@ =~= self.name());
                "PLP"
            },
            Mnemonic::STX => {
                proof {
                    reveal_strlit("STX");
                }
                assert("STX"@ =~= self.name());
                "STX"
            },
            Mnemonic::STY => {
                proof {
                    reveal_strlit("STY");
                }
                assert("STY"@ =~= self.name());
                "STY"
            },
        }
    }

    /// Whether an instruction with this mnemonic reads or writes at the address
    /// its addressing mode resolves to.
    pub open spec fn uses_address(self) -> bool {
        match self {
            Mnemonic::ADC
            | Mnemonic::SBC
            | Mnemonic::AND
            | Mnemonic::BIT
            | Mnemonic::CMP
            | Mnemonic::CPX
            | Mnemonic::CPY
            | Mnemonic::DEC
            | Mnemonic::INC
            | Mnemonic::EOR
            | Mnemonic::JMP
            | Mnemonic::JSR
            | Mnemonic::LDA
            | Mnemonic::LDX
            | Mnemonic::LDY
            | Mnemonic::ORA
            | Mnemonic::STA
            | Mnemonic::STX
            | Mnemonic::STY => true,
            _ => false,
        }
    }
}

/// What the CPU knows of one opcode byte.
#[derive(Debug, Clone, Copy, PartialEq, Eq, Structural)]
pub struct Opcode {
    pub mnemonic: Mnemonic,
    /// The opcode byte itself
    pub code: u8,
    /// Length of the instruction in bytes, the opcode byte included
    pub bytes: u8,
    /// Base number of cycles
    pub cycles: u8,
    /// Extra cycles when a page boundary is crossed
    pub page_fault_penalty: u8,
    pub mode: AddressMode,
}

impl Opcode {
    /// The entry with these parts.
    #[verifier::allow_in_spec]
    pub fn new(
        mnemonic: Mnemonic,
        code: u8,
        bytes: u8,
        cycles: u8,
        page_fault_penalty: u8,
        mode: AddressMode,
    ) -> Self
        returns
            (Opcode { mnemonic, code, bytes, cycles, page_fault_penalty, mode }),
    {
        Opcode { mnemonic, code, bytes, cycles, page_fault_penalty, mode }
    }

    /// Whether the engine can execute this opcode: it is one to three bytes
    /// long, and where its operation needs an address its mode gives one. The
    /// two shifts take the accumulator mode as well.
    pub open spec fn executable(self) -> bool {
        &&& 1 <= self.bytes <= 3
        &&& self.mnemonic.uses_address() ==> self.mode.has_address()
        &&& (self.mnemonic is ASL || self.mnemonic is LSR) ==> (self.mode is Accumulator
            || self.mode.has_address())
    }
}

/// The table of legal opcodes: the entry for `code`, or `None` where the byte
/// is no legal opcode. The entries are those of the NMOS 6502: each has the
/// addressing mode, the length, the cycles and the extra cycle for a page
/// crossing that the processor's reference gives for its opcode.
pub open spec fn opcode_for(code: u8) -> Option<Opcode> {
    match code {
        0x00 => Some(Opcode::new(Mnemonic::BRK, 0x00, 1, 7, 0, AddressMode::Implicit)),
        0x01 => Some(Opcode::new(Mnemonic::ORA, 0x01, 2, 6, 0, AddressMode::IndirectX)),
        0x05 => Some(Opcode::new(Mnemonic::ORA, 0x05, 2, 3, 0, AddressMode::ZeroPage)),
        0x06 => Some(Opcode::new(Mnemonic::ASL, 0x06, 2, 5, 0, AddressMode::ZeroPage)),
        0x08 => Some(Opcode::new(Mnemonic::PHP, 0x08, 1, 3, 0, AddressMode::Implicit)),
        0x09 => Some(Opcode::new(Mnemonic::ORA, 0x09, 2, 2, 0, AddressMode::Immediate)),
        0x0A => Some(Opcode::new(Mnemonic::ASL, 0x0A, 1, 2, 0, AddressMode::Accumulator)),
        0x0D => Some(Opcode::new(Mnemonic::ORA, 0x0D, 3, 4, 0, AddressMode::Absolute)),
        0x0E => Some(Opcode::new(Mnemonic::ASL, 0x0E, 3, 6, 0, AddressMode::Absolute)),
        0x10 => Some(Opcode::new(Mnemonic::BPL, 0x10, 2, 2, 1, AddressMode::Relative)),
        0x11 => Some(Opcode::new(Mnemonic::ORA, 0x11, 2, 5, 1, AddressMode::IndirectY)),
        0x15 => Some(Opcode::new(Mnemonic::ORA, 0x15, 2, 4, 0, AddressMode::ZeroPageX)),
        0x16 => Some(Opcode::new(Mnemonic::ASL, 0x16, 2, 6, 0, AddressMode::ZeroPageX)),
        0x18 => Some(Opcode::new(Mnemonic::CLC, 0x18, 1, 2, 0, AddressMode::Implicit)),
        0x19 => Some(Opcode::new(Mnemonic::ORA, 0x19, 3, 4, 1, AddressMode::AbsoluteY)),
        0x1D => Some(Opcode::new(Mnemonic::ORA, 0x1D, 3, 4, 1, AddressMode::AbsoluteX)),
        0x1E => Some(Opcode::new(Mnemonic::ASL, 0x1E, 3, 7, 0, AddressMode::AbsoluteX)),
        0x20 => Some(Opcode::new(Mnemonic::JSR, 0x20, 3, 6, 0, AddressMode::Absolute)),
        0x21 => Some(Opcode::new(Mnemonic::AND, 0x21, 2, 6, 0, AddressMode::IndirectX)),
        0x24 => Some(Opcode::new(Mnemonic::BIT, 0x24, 2, 3, 0, AddressMode::ZeroPage)),
        0x25 => Some(Opcode::new(Mnemonic::AND, 0x25, 2, 3, 0, AddressMode::ZeroPage)),
        0x26 => Some(Opcode::new(Mnemonic::ROL, 0x26, 2, 5, 0, AddressMode::ZeroPage)),
        0x28 => Some(Opcode::new(Mnemonic::PLP, 0x28, 1, 4, 0, AddressMode::Implicit)),
        0x29 => Some(Opcode::new(Mnemonic::AND, 0x29, 2, 2, 0, AddressMode::Immediate)),
        0x2A => Some(Opcode::new(Mnemonic::ROL, 0x2A, 1, 2, 0, AddressMode::Accumulator)),
        0x2C => Some(Opcode::new(Mnemonic::BIT, 0x2C, 3, 4, 0, AddressMode::Absolute)),
        0x2D => Some(Opcode::new(Mnemonic::AND, 0x2D, 3, 4, 0, AddressMode::Absolute)),
        0x2E => Some(Opcode::new(Mnemonic::ROL, 0x2E, 3, 6, 0, AddressMode::Absolute)),
        0x30 => Some(Opcode::new(Mnemonic::BMI, 0x30, 2, 2, 1, AddressMode::Relative)),
        0x31 => Some(Opcode::new(Mnemonic::AND, 0x31, 2, 5, 1, AddressMode::IndirectY)),
        0x35 => Some(Opcode::new(Mnemonic::AND, 0x35, 2, 4, 0, AddressMode::ZeroPageX)),
        0x36 => Some(Opcode::new(Mnemonic::ROL, 0x36, 2, 6, 0, AddressMode::ZeroPageX)),
        0x38 => Some(Opcode::new(Mnemonic::SEC, 0x38, 1, 2, 0, AddressMode::Implicit)),
        0x39 => Some(Opcode::new(Mnemonic::AND, 0x39, 3, 4, 1, AddressMode::AbsoluteY)),
        0x3D => Some(Opcode::new(Mnemonic::AND, 0x3D, 3, 4, 1, AddressMode::AbsoluteX)),
        0x3E => Some(Opcode::new(Mnemonic::ROL, 0x3E, 3, 7, 0, AddressMode::AbsoluteX)),
        0x40 => Some(Opcode::new(Mnemonic::RTI, 0x40, 1, 6, 0, AddressMode::Implicit)),
        0x41 => Some(Opcode::new(Mnemonic::EOR, 0x41, 2, 6, 0, AddressMode::IndirectX)),
        0x45 => Some(Opcode::new(Mnemonic::EOR, 0x45, 2, 3, 0, AddressMode::ZeroPage)),
        0x46 => Some(Opcode::new(Mnemonic::LSR, 0x46, 2, 5, 0, AddressMode::ZeroPage)),
        0x48 => Some(Opcode::new(Mnemonic::PHA, 0x48, 1, 3, 0, AddressMode::Implicit)),
        0x49 => Some(Opcode::new(Mnemonic::EOR, 0x49, 2, 2, 0, AddressMode::Immediate)),
        0x4A => Some(Opcode::new(Mnemonic::LSR, 0x4A, 1, 2, 0, AddressMode::Accumulator)),
        0x4C => Some(Opcode::new(Mnemonic::JMP, 0x4C, 3, 3, 0, AddressMode::Absolute)),
        0x4D => Some(Opcode::new(Mnemonic::EOR, 0x4D, 3, 4, 0, AddressMode::Absolute)),
        0x4E => Some(Opcode::new(Mnemonic::LSR, 0x4E, 3, 6, 0, AddressMode::Absolute)),
        0x50 => Some(Opcode::new(Mnemonic::BVC, 0x50, 2, 2, 1, AddressMode::Relative)),
        0x51 => Some(Opcode::new(Mnemonic::EOR, 0x51, 2, 5, 1, AddressMode::IndirectY)),
        0x55 => Some(Opcode::new(Mnemonic::EOR, 0x55, 2, 4, 0, AddressMode::ZeroPageX)),
        0x56 => Some(Opcode::new(Mnemonic::LSR, 0x56, 2, 6, 0, AddressMode::ZeroPageX)),
        0x58 => Some(Opcode::new(Mnemonic::CLI, 0x58, 1, 2, 0, AddressMode::Implicit)),
        0x59 => Some(Opcode::new(Mnemonic::EOR, 0x59, 3, 4, 1, AddressMode::AbsoluteY)),
        0x5D => Some(Opcode::new(Mnemonic::EOR, 0x5D, 3, 4, 1, AddressMode::AbsoluteX)),
        0x5E => Some(Opcode::new(Mnemonic::LSR, 0x5E, 3, 7, 0, AddressMode::AbsoluteX)),
        0x60 => Some(Opcode::new(Mnemonic::RTS, 0x60, 1, 6, 0, AddressMode::Implicit)),
        0x61 => Some(Opcode::new(Mnemonic::ADC, 0x61, 2, 6, 0, AddressMode::IndirectX)),
        0x65 => Some(Opcode::new(Mnemonic::ADC, 0x65, 2, 3, 0, AddressMode::ZeroPage)),
        0x66 => Some(Opcode::new(Mnemonic::ROR, 0x66, 2, 5, 0, AddressMode::ZeroPage)),
        0x68 => Some(Opcode::new(Mnemonic::PLA, 0x68, 1, 4, 0, AddressMode::Implicit)),
        0x69 => Some(Opcode::new(Mnemonic::ADC, 0x69, 2, 2, 0, AddressMode::Immediate)),
        0x6A => Some(Opcode::new(Mnemonic::ROR, 0x6A, 1, 2, 0, AddressMode::Accumulator)),
        0x6C => Some(Opcode::new(Mnemonic::JMP, 0x6C, 3, 5, 0, AddressMode::Indirect)),
        0x6D => Some(Opcode::new(Mnemonic::ADC, 0x6D, 3, 4, 0, AddressMode::Absolute)),
        0x6E => Some(Opcode::new(Mnemonic::ROR, 0x6E, 3, 6, 0, AddressMode::Absolute)),
        0x70 => Some(Opcode::new(Mnemonic::BVS, 0x70, 2, 2, 1, AddressMode::Relative)),
        0x71 => Some(Opcode::new(Mnemonic::ADC, 0x71, 2, 5, 1, AddressMode::IndirectY)),
        0x75 => Some(Opcode::new(Mnemonic::ADC, 0x75, 2, 4, 0, AddressMode::ZeroPageX)),
        0x76 => Some(Opcode::new(Mnemonic::ROR, 0x76, 2, 6, 0, AddressMode::ZeroPageX)),
        0x78 => Some(Opcode::new(Mnemonic::SEI, 0x78, 1, 2, 0, AddressMode::Implicit)),
        0x79 => Some(Opcode::new(Mnemonic::ADC, 0x79, 3, 4, 1, AddressMode::AbsoluteY)),
        0x7D => Some(Opcode::new(Mnemonic::ADC, 0x7D, 3, 4, 1, AddressMode::AbsoluteX)),
        0x7E => Some(Opcode::new(Mnemonic::ROR, 0x7E, 3, 7, 0, AddressMode::AbsoluteX)),
        0x81 => Some(Opcode::new(Mnemonic::STA, 0x81, 2, 6, 0, AddressMode::IndirectX)),
        0x84 => Some(Opcode::new(Mnemonic::STY, 0x84, 2, 3, 0, AddressMode::ZeroPage)),
        0x85 => Some(Opcode::new(Mnemonic::STA, 0x85, 2, 3, 0, AddressMode::ZeroPage)),
        0x86 => Some(Opcode::new(Mnemonic::STX, 0x86, 2, 3, 0, AddressMode::ZeroPage)),
        0x88 => Some(Opcode::new(Mnemonic::DEY, 0x88, 1, 2, 0, AddressMode::Implicit)),
        0x8A => Some(Opcode::new(Mnemonic::TXA, 0x8A, 1, 2, 0, AddressMode::Implicit)),
        0x8C => Some(Opcode::new(Mnemonic::STY, 0x8C, 3, 4, 0, AddressMode::Absolute)),
        0x8D => Some(Opcode::new(Mnemonic::STA, 0x8D, 3, 4, 0, AddressMode::Absolute)),
        0x8E => Some(Opcode::new(Mnemonic::STX, 0x8E, 3, 4, 0, AddressMode::Absolute)),
        0x90 => Some(Opcode::new(Mnemonic::BCC, 0x90, 2, 2, 1, AddressMode::Relative)),
        0x91 => Some(Opcode::new(Mnemonic::STA, 0x91, 2, 6, 0, AddressMode::IndirectY)),
        0x94 => Some(Opcode::new(Mnemonic::STY, 0x94, 2, 4, 0, AddressMode::ZeroPageX)),
        0x95 => Some(Opcode::new(Mnemonic::STA, 0x95, 2, 4, 0, AddressMode::ZeroPageX)),
        0x96 => Some(Opcode::new(Mnemonic::STX, 0x96, 2, 4, 0, AddressMode::ZeroPageY)),
        0x98 => Some(Opcode::new(Mnemonic::TYA, 0x98, 1, 2, 0, AddressMode::Implicit)),
        0x99 => Some(Opcode::new(Mnemonic::STA, 0x99, 3, 5, 0, AddressMode::AbsoluteY)),
        0x9A => Some(Opcode::new(Mnemonic::TXS, 0x9A, 1, 2, 0, AddressMode::Implicit)),
        0x9D => Some(Opcode::new(Mnemonic::STA, 0x9D, 3, 5, 0, AddressMode::AbsoluteX)),
        0xA0 => Some(Opcode::new(Mnemonic::LDY, 0xA0, 2, 2, 0, AddressMode::Immediate)),
        0xA1 => Some(Opcode::new(Mnemonic::LDA, 0xA1, 2, 6, 0, AddressMode::IndirectX)),
        0xA2 => Some(Opcode::new(Mnemonic::LDX, 0xA2, 2, 2, 0, AddressMode::Immediate)),
        0xA4 => Some(Opcode::new(Mnemonic::LDY, 0xA4, 2, 3, 0, AddressMode::ZeroPage)),
        0xA5 => Some(Opcode::new(Mnemonic::LDA, 0xA5, 2, 3, 0, AddressMode::ZeroPage)),
        0xA6 => Some(Opcode::new(Mnemonic::LDX, 0xA6, 2, 3, 0, AddressMode::ZeroPage)),
        0xA8 => Some(Opcode::new(Mnemonic::TAY, 0xA8, 1, 2, 0, AddressMode::Implicit)),
        0xA9 => Some(Opcode::new(Mnemonic::LDA, 0xA9, 2, 2, 0, AddressMode::Immediate)),
        0xAA => Some(Opcode::new(Mnemonic::TAX, 0xAA, 1, 2, 0, AddressMode::Implicit)),
        0xAC => Some(Opcode::new(Mnemonic::LDY, 0xAC, 3, 4, 0, AddressMode::Absolute)),
        0xAD => Some(Opcode::new(Mnemonic::LDA, 0xAD, 3, 4, 0, AddressMode::Absolute)),
        0xAE => Some(Opcode::new(Mnemonic::LDX, 0xAE, 3, 4, 0, AddressMode::Absolute)),
        0xB0 => Some(Opcode::new(Mnemonic::BCS, 0xB0, 2, 2, 1, AddressMode::Relative)),
        0xB1 => Some(Opcode::new(Mnemonic::LDA, 0xB1, 2, 5, 1, AddressMode::IndirectY)),
        0xB4 => Some(Opcode::new(Mnemonic::LDY, 0xB4, 2, 4, 0, AddressMode::ZeroPageX)),
        0xB5 => Some(Opcode::new(Mnemonic::LDA, 0xB5, 2, 4, 0, AddressMode::ZeroPageX)),
        0xB6 => Some(Opcode::new(Mnemonic::LDX, 0xB6, 2, 4, 0, AddressMode::ZeroPageY)),
        0xB8 => Some(Opcode::new(Mnemonic::CLV, 0xB8, 1, 2, 0, AddressMode::Implicit)),
        0xB9 => Some(Opcode::new(Mnemonic::LDA, 0xB9, 3, 4, 1, AddressMode::AbsoluteY)),
        0xBA => Some(Opcode::new(Mnemonic::TSX, 0xBA, 1, 2, 0, AddressMode::Implicit)),
        0xBC => Some(Opcode::new(Mnemonic::LDY, 0xBC, 3, 4, 1, AddressMode::AbsoluteX)),
        0xBD => Some(Opcode::new(Mnemonic::LDA, 0xBD, 3, 4, 1, AddressMode::AbsoluteX)),
        0xBE => Some(Opcode::new(Mnemonic::LDX, 0xBE, 3, 4, 1, AddressMode::AbsoluteY)),
        0xC0 => Some(Opcode::new(Mnemonic::CPY, 0xC0, 2, 2, 0, AddressMode::Immediate)),
        0xC1 => Some(Opcode::new(Mnemonic::CMP, 0xC1, 2, 6, 0, AddressMode::IndirectX)),
        0xC4 => Some(Opcode::new(Mnemonic::CPY, 0xC4, 2, 3, 0, AddressMode::ZeroPage)),
        0xC5 => Some(Opcode::new(Mnemonic::CMP, 0xC5, 2, 3, 0, AddressMode::ZeroPage)),
        0xC6 => Some(Opcode::new(Mnemonic::DEC, 0xC6, 2, 5, 0, AddressMode::ZeroPage)),
        0xC8 => Some(Opcode::new(Mnemonic::INY, 0xC8, 1, 2, 0, AddressMode::Implicit)),
        0xC9 => Some(Opcode::new(Mnemonic::CMP, 0xC9, 2, 2, 0, AddressMode::Immediate)),
        0xCA => Some(Opcode::new(Mnemonic::DEX, 0xCA, 1, 2, 0, AddressMode::Implicit)),
        0xCC => Some(Opcode::new(Mnemonic::CPY, 0xCC, 3, 4, 0, AddressMode::Absolute)),
        0xCD => Some(Opcode::new(Mnemonic::CMP, 0xCD, 3, 4, 0, AddressMode::Absolute)),
        0xCE => Some(Opcode::new(Mnemonic::DEC, 0xCE, 3, 6, 0, AddressMode::Absolute)),
        0xD0 => Some(Opcode::new(Mnemonic::BNE, 0xD0, 2, 2, 1, AddressMode::Relative)),
        0xD1 => Some(Opcode::new(Mnemonic::CMP, 0xD1, 2, 5, 1, AddressMode::IndirectY)),
        0xD5 => Some(Opcode::new(Mnemonic::CMP, 0xD5, 2, 4, 0, AddressMode::ZeroPageX)),
        0xD6 => Some(Opcode::new(Mnemonic::DEC, 0xD6, 2, 6, 0, AddressMode::ZeroPageX)),
        0xD8 => Some(Opcode::new(Mnemonic::CLD, 0xD8, 1, 2, 0, AddressMode::Implicit)),
        0xD9 => Some(Opcode::new(Mnemonic::CMP, 0xD9, 3, 4, 1, AddressMode::AbsoluteY)),
        0xDD => Some(Opcode::new(Mnemonic::CMP, 0xDD, 3, 4, 1, AddressMode::AbsoluteX)),
        0xDE => Some(Opcode::new(Mnemonic::DEC, 0xDE, 3, 7, 0, AddressMode::AbsoluteX)),
        0xE0 => Some(Opcode::new(Mnemonic::CPX, 0xE0, 2, 2, 0, AddressMode::Immediate)),
        0xE1 => Some(Opcode::new(Mnemonic::SBC, 0xE1, 2, 6, 0, AddressMode::IndirectX)),
        0xE4 => Some(Opcode::new(Mnemonic::CPX, 0xE4, 2, 3, 0, AddressMode::ZeroPage)),
        0xE5 => Some(Opcode::new(Mnemonic::SBC, 0xE5, 2, 3, 0, AddressMode::ZeroPage)),
        0xE6 => Some(Opcode::new(Mnemonic::INC, 0xE6, 2, 5, 0, AddressMode::ZeroPage)),
        0xE8 => Some(Opcode::new(Mnemonic::INX, 0xE8, 1, 2, 0, AddressMode::Implicit)),
        0xE9 => Some(Opcode::new(Mnemonic::SBC, 0xE9, 2, 2, 0, AddressMode::Immediate)),
        0xEA => Some(Opcode::new(Mnemonic::NOP, 0xEA, 1, 2, 0, AddressMode::Implicit)),
        0xEC => Some(Opcode::new(Mnemonic::CPX, 0xEC, 3, 4, 0, AddressMode::Absolute)),
        0xED => Some(Opcode::new(Mnemonic::SBC, 0xED, 3, 4, 0, AddressMode::Absolute)),
        0xEE => Some(Opcode::new(Mnemonic::INC, 0xEE, 3, 6, 0, AddressMode::Absolute)),
        0xF0 => Some(Opcode::new(Mnemonic::BEQ, 0xF0, 2, 2, 1, AddressMode::Relative)),
        0xF1 => Some(Opcode::new(Mnemonic::SBC, 0xF1, 2, 5, 1, AddressMode::IndirectY)),
        0xF5 => Some(Opcode::new(Mnemonic::SBC, 0xF5, 2, 4, 0, AddressMode::ZeroPageX)),
        0xF6 => Some(Opcode::new(Mnemonic::INC, 0xF6, 2, 6, 0, AddressMode::ZeroPageX)),
        0xF8 => Some(Opcode::new(Mnemonic::SED, 0xF8, 1, 2, 0, AddressMode::Implicit)),
        0xF9 => Some(Opcode::new(Mnemonic::SBC, 0xF9, 3, 4, 1, AddressMode::AbsoluteY)),
        0xFD => Some(Opcode::new(Mnemonic::SBC, 0xFD, 3, 4, 1, AddressMode::AbsoluteX)),
        0xFE => Some(Opcode::new(Mnemonic::INC, 0xFE, 3, 7, 0, AddressMode::AbsoluteX)),
        _ => None,
    }
}

/// Looks an opcode byte up in the table.
pub fn lookup(code: u8) -> (r: Option<Opcode>)
    ensures
        r == opcode_for(code),
{
    match code {
        0x00 => Some(Opcode::new(Mnemonic::BRK, 0x00, 1, 7, 0, AddressMode::Implicit)),
        0x01 => Some(Opcode::new(Mnemonic::ORA, 0x01, 2, 6, 0, AddressMode::IndirectX)),
        0x05 => Some(Opcode::new(Mnemonic::ORA, 0x05, 2, 3, 0, AddressMode::ZeroPage)),
        0x06 => Some(Opcode::new(Mnemonic::ASL, 0x06, 2, 5, 0, AddressMode::ZeroPage)),
        0x08 => Some(Opcode::new(Mnemonic::PHP, 0x08, 1, 3, 0, AddressMode::Implicit)),
        0x09 => Some(Opcode::new(Mnemonic::ORA, 0x09, 2, 2, 0, AddressMode::Immediate)),
        0x0A => Some(Opcode::new(Mnemonic::ASL, 0x0A, 1, 2, 0, AddressMode::Accumulator)),
        0x0D => Some(Opcode::new(Mnemonic::ORA, 0x0D, 3, 4, 0, AddressMode::Absolute)),
        0x0E => Some(Opcode::new(Mnemonic::ASL, 0x0E, 3, 6, 0, AddressMode::Absolute)),
        0x10 => Some(Opcode::new(Mnemonic::BPL, 0x10, 2, 2, 1, AddressMode::Relative)),
        0x11 => Some(Opcode::new(Mnemonic::ORA, 0x11, 2, 5, 1, AddressMode::IndirectY)),
        0x15 => Some(Opcode::new(Mnemonic::ORA, 0x15, 2, 4, 0, AddressMode::ZeroPageX)),
        0x16 => Some(Opcode::new(Mnemonic::ASL, 0x16, 2, 6, 0, AddressMode::ZeroPageX)),
        0x18 => Some(Opcode::new(Mnemonic::CLC, 0x18, 1, 2, 0, AddressMode::Implicit)),
        0x19 => Some(Opcode::new(Mnemonic::ORA, 0x19, 3, 4, 1, AddressMode::AbsoluteY)),
        0x1D => Some(Opcode::new(Mnemonic::ORA, 0x1D, 3, 4, 1, AddressMode::AbsoluteX)),
        0x1E => Some(Opcode::new(Mnemonic::ASL, 0x1E, 3, 7, 0, AddressMode::AbsoluteX)),
        0x20 => Some(Opcode::new(Mnemonic::JSR, 0x20, 3, 6, 0, AddressMode::Absolute)),
        0x21 => Some(Opcode::new(Mnemonic::AND, 0x21, 2, 6, 0, AddressMode::IndirectX)),
        0x24 => Some(Opcode::new(Mnemonic::BIT, 0x24, 2, 3, 0, AddressMode::ZeroPage)),
        0x25 => Some(Opcode::new(Mnemonic::AND, 0x25, 2, 3, 0, AddressMode::ZeroPage)),
        0x26 => Some(Opcode::new(Mnemonic::ROL, 0x26, 2, 5, 0, AddressMode::ZeroPage)),
        0x28 => Some(Opcode::new(Mnemonic::PLP, 0x28, 1, 4, 0, AddressMode::Implicit)),
        0x29 => Some(Opcode::new(Mnemonic::AND, 0x29, 2, 2, 0, AddressMode::Immediate)),
        0x2A => Some(Opcode::new(Mnemonic::ROL, 0x2A, 1, 2, 0, AddressMode::Accumulator)),
        0x2C => Some(Opcode::new(Mnemonic::BIT, 0x2C, 3, 4, 0, AddressMode::Absolute)),
        0x2D => Some(Opcode::new(Mnemonic::AND, 0x2D, 3, 4, 0, AddressMode::Absolute)),
        0x2E => Some(Opcode::new(Mnemonic::ROL, 0x2E, 3, 6, 0, AddressMode::Absolute)),
        0x30 => Some(Opcode::new(Mnemonic::BMI, 0x30, 2, 2, 1, AddressMode::Relative)),
        0x31 => Some(Opcode::new(Mnemonic::AND, 0x31, 2, 5, 1, AddressMode::IndirectY)),
        0x35 => Some(Opcode::new(Mnemonic::AND, 0x35, 2, 4, 0, AddressMode::ZeroPageX)),
        0x36 => Some(Opcode::new(Mnemonic::ROL, 0x36, 2, 6, 0, AddressMode::ZeroPageX)),
        0x38 => Some(Opcode::new(Mnemonic::SEC, 0x38, 1, 2, 0, AddressMode::Implicit)),
        0x39 => Some(Opcode::new(Mnemonic::AND, 0x39, 3, 4, 1, AddressMode::AbsoluteY)),
        0x3D => Some(Opcode::new(Mnemonic::AND, 0x3D, 3, 4, 1, AddressMode::AbsoluteX)),
        0x3E => Some(Opcode::new(Mnemonic::ROL, 0x3E, 3, 7, 0, AddressMode::AbsoluteX)),
        0x40 => Some(Opcode::new(Mnemonic::RTI, 0x40, 1, 6, 0, AddressMode::Implicit)),
        0x41 => Some(Opcode::new(Mnemonic::EOR, 0x41, 2, 6, 0, AddressMode::IndirectX)),
        0x45 => Some(Opcode::new(Mnemonic::EOR, 0x45, 2, 3, 0, AddressMode::ZeroPage)),
        0x46 => Some(Opcode::new(Mnemonic::LSR, 0x46, 2, 5, 0, AddressMode::ZeroPage)),
        0x48 => Some(Opcode::new(Mnemonic::PHA, 0x48, 1, 3, 0, AddressMode::Implicit)),
        0x49 => Some(Opcode::new(Mnemonic::EOR, 0x49, 2, 2, 0, AddressMode::Immediate)),
        0x4A => Some(Opcode::new(Mnemonic::LSR, 0x4A, 1, 2, 0, AddressMode::Accumulator)),
        0x4C => Some(Opcode::new(Mnemonic::JMP, 0x4C, 3, 3, 0, AddressMode::Absolute)),
        0x4D => Some(Opcode::new(Mnemonic::EOR, 0x4D, 3, 4, 0, AddressMode::Absolute)),
        0x4E => Some(Opcode::new(Mnemonic::LSR, 0x4E, 3, 6, 0, AddressMode::Absolute)),
        0x50 => Some(Opcode::new(Mnemonic::BVC, 0x50, 2, 2, 1, AddressMode::Relative)),
        0x51 => Some(Opcode::new(Mnemonic::EOR, 0x51, 2, 5, 1, AddressMode::IndirectY)),
        0x55 => Some(Opcode::new(Mnemonic::EOR, 0x55, 2, 4, 0, AddressMode::ZeroPageX)),
        0x56 => Some(Opcode::new(Mnemonic::LSR, 0x56, 2, 6, 0, AddressMode::ZeroPageX)),
        0x58 => Some(Opcode::new(Mnemonic::CLI, 0x58, 1, 2, 0, AddressMode::Implicit)),
        0x59 => Some(Opcode::new(Mnemonic::EOR, 0x59, 3, 4, 1, AddressMode::AbsoluteY)),
        0x5D => Some(Opcode::new(Mnemonic::EOR, 0x5D, 3, 4, 1, AddressMode::AbsoluteX)),
        0x5E => Some(Opcode::new(Mnemonic::LSR, 0x5E, 3, 7, 0, AddressMode::AbsoluteX)),
        0x60 => Some(Opcode::new(Mnemonic::RTS, 0x60, 1, 6, 0, AddressMode::Implicit)),
        0x61 => Some(Opcode::new(Mnemonic::ADC, 0x61, 2, 6, 0, AddressMode::IndirectX)),
        0x65 => Some(Opcode::new(Mnemonic::ADC, 0x65, 2, 3, 0, AddressMode::ZeroPage)),
        0x66 => Some(Opcode::new(Mnemonic::ROR, 0x66, 2, 5, 0, AddressMode::ZeroPage)),
        0x68 => Some(Opcode::new(Mnemonic::PLA, 0x68, 1, 4, 0, AddressMode::Implicit)),
        0x69 => Some(Opcode::new(Mnemonic::ADC, 0x69, 2, 2, 0, AddressMode::Immediate)),
        0x6A => Some(Opcode::new(Mnemonic::ROR, 0x6A, 1, 2, 0, AddressMode::Accumulator)),
        0x6C => Some(Opcode::new(Mnemonic::JMP, 0x6C, 3, 5, 0, AddressMode::Indirect)),
        0x6D => Some(Opcode::new(Mnemonic::ADC, 0x6D, 3, 4, 0, AddressMode::Absolute)),
        0x6E => Some(Opcode::new(Mnemonic::ROR, 0x6E, 3, 6, 0, AddressMode::Absolute)),
        0x70 => Some(Opcode::new(Mnemonic::BVS, 0x70, 2, 2, 1, AddressMode::Relative)),
        0x71 => Some(Opcode::new(Mnemonic::ADC, 0x71, 2, 5, 1, AddressMode::IndirectY)),
        0x75 => Some(Opcode::new(Mnemonic::ADC, 0x75, 2, 4, 0, AddressMode::ZeroPageX)),
        0x76 => Some(Opcode::new(Mnemonic::ROR, 0x76, 2, 6, 0, AddressMode::ZeroPageX)),
        0x78 => Some(Opcode::new(Mnemonic::SEI, 0x78, 1, 2, 0, AddressMode::Implicit)),
        0x79 => Some(Opcode::new(Mnemonic::ADC, 0x79, 3, 4, 1, AddressMode::AbsoluteY)),
        0x7D => Some(Opcode::new(Mnemonic::ADC, 0x7D, 3, 4, 1, AddressMode::AbsoluteX)),
        0x7E => Some(Opcode::new(Mnemonic::ROR, 0x7E, 3, 7, 0, AddressMode::AbsoluteX)),
        0x81 => Some(Opcode::new(Mnemonic::STA, 0x81, 2, 6, 0, AddressMode::IndirectX)),
        0x84 => Some(Opcode::new(Mnemonic::STY, 0x84, 2, 3, 0, AddressMode::ZeroPage)),
        0x85 => Some(Opcode::new(Mnemonic::STA, 0x85, 2, 3, 0, AddressMode::ZeroPage)),
        0x86 => Some(Opcode::new(Mnemonic::STX, 0x86, 2, 3, 0, AddressMode::ZeroPage)),
        0x88 => Some(Opcode::new(Mnemonic::DEY, 0x88, 1, 2, 0, AddressMode::Implicit)),
        0x8A => Some(Opcode::new(Mnemonic::TXA, 0x8A, 1, 2, 0, AddressMode::Implicit)),
        0x8C => Some(Opcode::new(Mnemonic::STY, 0x8C, 3, 4, 0, AddressMode::Absolute)),
        0x8D => Some(Opcode::new(Mnemonic::STA, 0x8D, 3, 4, 0, AddressMode::Absolute)),
        0x8E => Some(Opcode::new(Mnemonic::STX, 0x8E, 3, 4, 0, AddressMode::Absolute)),
        0x90 => Some(Opcode::new(Mnemonic::BCC, 0x90, 2, 2, 1, AddressMode::Relative)),
        0x91 => Some(Opcode::new(Mnemonic::STA, 0x91, 2, 6, 0, AddressMode::IndirectY)),
        0x94 => Some(Opcode::new(Mnemonic::STY, 0x94, 2, 4, 0, AddressMode::ZeroPageX)),
        0x95 => Some(Opcode::new(Mnemonic::STA, 0x95, 2, 4, 0, AddressMode::ZeroPageX)),
        0x96 => Some(Opcode::new(Mnemonic::STX, 0x96, 2, 4, 0, AddressMode::ZeroPageY)),
        0x98 => Some(Opcode::new(Mnemonic::TYA, 0x98, 1, 2, 0, AddressMode::Implicit)),
        0x99 => Some(Opcode::new(Mnemonic::STA, 0x99, 3, 5, 0, AddressMode::AbsoluteY)),
        0x9A => Some(Opcode::new(Mnemonic::TXS, 0x9A, 1, 2, 0, AddressMode::Implicit)),
        0x9D => Some(Opcode::new(Mnemonic::STA, 0x9D, 3, 5, 0, AddressMode::AbsoluteX)),
        0xA0 => Some(Opcode::new(Mnemonic::LDY, 0xA0, 2, 2, 0, AddressMode::Immediate)),
        0xA1 => Some(Opcode::new(Mnemonic::LDA, 0xA1, 2, 6, 0, AddressMode::IndirectX)),
        0xA2 => Some(Opcode::new(Mnemonic::LDX, 0xA2, 2, 2, 0, AddressMode::Immediate)),
        0xA4 => Some(Opcode::new(Mnemonic::LDY, 0xA4, 2, 3, 0, AddressMode::ZeroPage)),
        0xA5 => Some(Opcode::new(Mnemonic::LDA, 0xA5, 2, 3, 0, AddressMode::ZeroPage)),
        0xA6 => Some(Opcode::new(Mnemonic::LDX, 0xA6, 2, 3, 0, AddressMode::ZeroPage)),
        0xA8 => Some(Opcode::new(Mnemonic::TAY, 0xA8, 1, 2, 0, AddressMode::Implicit)),
        0xA9 => Some(Opcode::new(Mnemonic::LDA, 0xA9, 2, 2, 0, AddressMode::Immediate)),
        0xAA => Some(Opcode::new(Mnemonic::TAX, 0xAA, 1, 2, 0, AddressMode::Implicit)),
        0xAC => Some(Opcode::new(Mnemonic::LDY, 0xAC, 3, 4, 0, AddressMode::Absolute)),
        0xAD => Some(Opcode::new(Mnemonic::LDA, 0xAD, 3, 4, 0, AddressMode::Absolute)),
        0xAE => Some(Opcode::new(Mnemonic::LDX, 0xAE, 3, 4, 0, AddressMode::Absolute)),
        0xB0 => Some(Opcode::new(Mnemonic::BCS, 0xB0, 2, 2, 1, AddressMode::Relative)),
        0xB1 => Some(Opcode::new(Mnemonic::LDA, 0xB1, 2, 5, 1, AddressMode::IndirectY)),
        0xB4 => Some(Opcode::new(Mnemonic::LDY, 0xB4, 2, 4, 0, AddressMode::ZeroPageX)),
        0xB5 => Some(Opcode::new(Mnemonic::LDA, 0xB5, 2, 4, 0, AddressMode::ZeroPageX)),
        0xB6 => Some(Opcode::new(Mnemonic::LDX, 0xB6, 2, 4, 0, AddressMode::ZeroPageY)),
        0xB8 => Some(Opcode::new(Mnemonic::CLV, 0xB8, 1, 2, 0, AddressMode::Implicit)),
        0xB9 => Some(Opcode::new(Mnemonic::LDA, 0xB9, 3, 4, 1, AddressMode::AbsoluteY)),
        0xBA => Some(Opcode::new(Mnemonic::TSX, 0xBA, 1, 2, 0, AddressMode::Implicit)),
        0xBC => Some(Opcode::new(Mnemonic::LDY, 0xBC, 3, 4, 1, AddressMode::AbsoluteX)),
        0xBD => Some(Opcode::new(Mnemonic::LDA, 0xBD, 3, 4, 1, AddressMode::AbsoluteX)),
        0xBE => Some(Opcode::new(Mnemonic::LDX, 0xBE, 3, 4, 1, AddressMode::AbsoluteY)),
        0xC0 => Some(Opcode::new(Mnemonic::CPY, 0xC0, 2, 2, 0, AddressMode::Immediate)),
        0xC1 => Some(Opcode::new(Mnemonic::CMP, 0xC1, 2, 6, 0, AddressMode::IndirectX)),
        0xC4 => Some(Opcode::new(Mnemonic::CPY, 0xC4, 2, 3, 0, AddressMode::ZeroPage)),
        0xC5 => Some(Opcode::new(Mnemonic::CMP, 0xC5, 2, 3, 0, AddressMode::ZeroPage)),
        0xC6 => Some(Opcode::new(Mnemonic::DEC, 0xC6, 2, 5, 0, AddressMode::ZeroPage)),
        0xC8 => Some(Opcode::new(Mnemonic::INY, 0xC8, 1, 2, 0, AddressMode::Implicit)),
        0xC9 => Some(Opcode::new(Mnemonic::CMP, 0xC9, 2, 2, 0, AddressMode::Immediate)),
        0xCA => Some(Opcode::new(Mnemonic::DEX, 0xCA, 1, 2, 0, AddressMode::Implicit)),
        0xCC => Some(Opcode::new(Mnemonic::CPY, 0xCC, 3, 4, 0, AddressMode::Absolute)),
        0xCD => Some(Opcode::new(Mnemonic::CMP, 0xCD, 3, 4, 0, AddressMode::Absolute)),
        0xCE => Some(Opcode::new(Mnemonic::DEC, 0xCE, 3, 6, 0, AddressMode::Absolute)),
        0xD0 => Some(Opcode::new(Mnemonic::BNE, 0xD0, 2, 2, 1, AddressMode::Relative)),
        0xD1 => Some(Opcode::new(Mnemonic::CMP, 0xD1, 2, 5, 1, AddressMode::IndirectY)),
        0xD5 => Some(Opcode::new(Mnemonic::CMP, 0xD5, 2, 4, 0, AddressMode::ZeroPageX)),
        0xD6 => Some(Opcode::new(Mnemonic::DEC, 0xD6, 2, 6, 0, AddressMode::ZeroPageX)),
        0xD8 => Some(Opcode::new(Mnemonic::CLD, 0xD8, 1, 2, 0, AddressMode::Implicit)),
        0xD9 => Some(Opcode::new(Mnemonic::CMP, 0xD9, 3, 4, 1, AddressMode::AbsoluteY)),
        0xDD => Some(Opcode::new(Mnemonic::CMP, 0xDD, 3, 4, 1, AddressMode::AbsoluteX)),
        0xDE => Some(Opcode::new(Mnemonic::DEC, 0xDE, 3, 7, 0, AddressMode::AbsoluteX)),
        0xE0 => Some(Opcode::new(Mnemonic::CPX, 0xE0, 2, 2, 0, AddressMode::Immediate)),
        0xE1 => Some(Opcode::new(Mnemonic::SBC, 0xE1, 2, 6, 0, AddressMode::IndirectX)),
        0xE4 => Some(Opcode::new(Mnemonic::CPX, 0xE4, 2, 3, 0, AddressMode::ZeroPage)),
        0xE5 => Some(Opcode::new(Mnemonic::SBC, 0xE5, 2, 3, 0, AddressMode::ZeroPage)),
        0xE6 => Some(Opcode::new(Mnemonic::INC, 0xE6, 2, 5, 0, AddressMode::ZeroPage)),
        0xE8 => Some(Opcode::new(Mnemonic::INX, 0xE8, 1, 2, 0, AddressMode::Implicit)),
        0xE9 => Some(Opcode::new(Mnemonic::SBC, 0xE9, 2, 2, 0, AddressMode::Immediate)),
        0xEA => Some(Opcode::new(Mnemonic::NOP, 0xEA, 1, 2, 0, AddressMode::Implicit)),
        0xEC => Some(Opcode::new(Mnemonic::CPX, 0xEC, 3, 4, 0, AddressMode::Absolute)),
        0xED => Some(Opcode::new(Mnemonic::SBC, 0xED, 3, 4, 0, AddressMode::Absolute)),
        0xEE => Some(Opcode::new(Mnemonic::INC, 0xEE, 3, 6, 0, AddressMode::Absolute)),
        0xF0 => Some(Opcode::new(Mnemonic::BEQ, 0xF0, 2, 2, 1, AddressMode::Relative)),
        0xF1 => Some(Opcode::new(Mnemonic::SBC, 0xF1, 2, 5, 1, AddressMode::IndirectY)),
        0xF5 => Some(Opcode::new(Mnemonic::SBC, 0xF5, 2, 4, 0, AddressMode::ZeroPageX)),
        0xF6 => Some(Opcode::new(Mnemonic::INC, 0xF6, 2, 6, 0, AddressMode::ZeroPageX)),
        0xF8 => Some(Opcode::new(Mnemonic::SED, 0xF8, 1, 2, 0, AddressMode::Implicit)),
        0xF9 => Some(Opcode::new(Mnemonic::SBC, 0xF9, 3, 4, 1, AddressMode::AbsoluteY)),
        0xFD => Some(Opcode::new(Mnemonic::SBC, 0xFD, 3, 4, 1, AddressMode::AbsoluteX)),
        0xFE => Some(Opcode::new(Mnemonic::INC, 0xFE, 3, 7, 0, AddressMode::AbsoluteX)),
        _ => None,
    }
}

/// No two mnemonics have the same three letters.
pub proof fn lemma_names_differ(first: Mnemonic, second: Mnemonic)
    requires
        first.name() == second.name(),
    ensures
        first == second,
{
    assert(first.name()[0] == second.name()[0]);
    assert(first.name()[1] == second.name()[1]);
    assert(first.name()[2] == second.name()[2]);
}

/// Every entry of the table stands under its own code and can be executed.
pub proof fn lemma_table_entries(code: u8)
    ensures
        opcode_for(code) matches Some(opcode) ==> opcode.code == code && opcode.executable(),
{
}

/// Every instruction is as long as its opcode byte and the operand bytes of
/// its addressing mode together: the engine moves the program counter over
/// exactly the bytes that the disassembler reads.
pub proof fn lemma_table_lengths(code: u8)
    ensures
        opcode_for(code) matches Some(opcode) ==> opcode.bytes == 1 + opcode.mode.operand_len(),
{
}

/// No two opcode bytes share a mnemonic and an addressing mode.
pub proof fn lemma_table_combinations(first: u8, second: u8)
    requires
        opcode_for(first) is Some,
        opcode_for(second) is Some,
        opcode_for(first)->0.mnemonic == opcode_for(second)->0.mnemonic,
        opcode_for(first)->0.mode == opcode_for(second)->0.mode,
    ensures
        first == second,
{
}

/// The whole table, in the order of the opcode bytes. Each legal opcode
/// occurs in it once.
pub fn nmos_6502_opcodes() -> (table: Vec<Opcode>)
    ensures
        forall|i: int| 0 <= i < table@.len() ==> opcode_for(#[trigger] table@[i].code) == Some(table@[i]),
        forall|i: int, j: int| 0 <= i < j < table@.len() ==> table@[i].code < table@[j].code,
        forall|code: u8|
            opcode_for(code) is Some ==> exists|i: int|
                0 <= i < table@.len() && #[trigger] table@[i].code == code,
{
    let mut table: Vec<Opcode> = Vec::new();
    let mut code: u8 = 0;
    loop
        invariant
            forall|i: int| 0 <= i < table@.len() ==> opcode_for(#[trigger] table@[i].code) == Some(table@[i]),
            forall|i: int| 0 <= i < table@.len() ==> (#[trigger] table@[i]).code < code,
            forall|i: int, j: int| 0 <= i < j < table@.len() ==> table@[i].code < table@[j].code,
            forall|c: u8|
                c < code && opcode_for(c) is Some ==> exists|i: int|
                    0 <= i < table@.len() && #[trigger] table@[i].code == c,
        ensures
            forall|i: int| 0 <= i < table@.len() ==> opcode_for(#[trigger] table@[i].code) == Some(table@[i]),
            forall|i: int, j: int| 0 <= i < j < table@.len() ==> table@[i].code < table@[j].code,
            forall|c: u8|
                opcode_for(c) is Some ==> exists|i: int|
                    0 <= i < table@.len() && #[trigger] table@[i].code == c,
        decreases 256 - code,
    {
        let ghost before = table@;
        match lookup(code) {
            Some(opcode) => {
                proof {
                    lemma_table_entries(code);
                }
                table.push(opcode);
                assert(table@[before.len() as int].code == code);
            },
            None => {},
        }
        assert forall|c: u8| c <= code && opcode_for(c) is Some implies exists|i: int|
            0 <= i < table@.len() && #[trigger] table@[i].code == c by {
            if c < code {
                let i = choose|i: int| 0 <= i < before.len() && #[trigger] before[i].code == c;
                assert(table@[i].code == c);
            } else {
                assert(table@[before.len() as int].code == c);
            }
        }
        if code == 255 {
            break ;
        }
        code += 1;
    }
    table
}

} // verus!
