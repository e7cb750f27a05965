//! The mathematical model of the machine: a state of registers and memory
//! cells, and what each instruction makes of it.
//!
//! Every function here is a specification. An instruction's function takes the
//! state in which the program counter has already passed the opcode byte and
//! stands at the first operand byte, and gives the state after the instruction.
use vstd::prelude::*;

use crate::cpu::addr::AddressMode;
use crate::cpu::ops::{opcode_for, Mnemonic, Opcode};
use crate::cpu::reg::{
    RegisterSet, BITMASK_CARRY, BITMASK_DECIMAL, BITMASK_INTERRUPT, BITMASK_NEGATIVE,
    BITMASK_OVERFLOW, BITMASK_PUSHED, BITMASK_ZERO,
};
use crate::memory::{high_byte, low_byte, word};

verus! {

/// Why the engine stopped without reaching a BRK.
#[derive(Debug, Clone, Copy, PartialEq, Eq, Structural)]
pub enum CpuError {
    /// The byte `code` was fetched and is no legal opcode. `reg` holds the
    /// registers as they stood then, the program counter after that byte.
    UnimplementedOpcode { code: u8, reg: RegisterSet },
    /// The run executed as many instructions as it was allowed.
    StepLimit,
}

/// The number of memory cells the CPU addresses.
pub const ADDRESS_SPACE: usize = 0x10000;

/// First address of the CPU's RAM, which reaches up to the I/O registers.
pub const CPU_RAM_ADDR_MIN: u16 = 0x0000;

/// First address of the I/O registers.
pub const IO_REG_ADDR_MIN: u16 = 0x2000;

/// First address of the expansion ROM.
pub const EXP_ROM_ADDR_MIN: u16 = 0x4020;

/// First address of the save RAM.
pub const SAVE_RAM_ADDR_MIN: u16 = 0x6000;

/// First address of the program ROM, where programs are loaded. It reaches
/// up to the end of the address space.
pub const PRG_ROM_ADDR_MIN: u16 = 0x8000;

/// The last address.
pub const NES_ADDR_MAX: u16 = 0xFFFF;

/// First address of the stack page.
pub const STACK_ADDR_MIN: u16 = 0x0100;

/// Last address of the stack page.
pub const STACK_ADDR_MAX: u16 = 0x01FF;

/// The reset vector: the word here is the program counter after a reset.
pub const PRG_START_ADDR: u16 = 0xFFFC;

/// A byte read as a two's-complement number.
pub open spec fn signed(value: u8) -> int {
    if value >= 0x80 {
        value - 256
    } else {
        value as int
    }
}

/// The carry flag as a number.
pub open spec fn carry_in(carry: bool) -> int {
    if carry {
        1
    } else {
        0
    }
}

/// The byte that `a + b + carry` leaves in the accumulator.
pub open spec fn adc_value(a: u8, b: u8, carry: bool) -> u8 {
    ((a + b + carry_in(carry)) % 256) as u8
}

/// Whether `a + b + carry` does not fit in a byte.
pub open spec fn adc_carry(a: u8, b: u8, carry: bool) -> bool {
    a + b + carry_in(carry) > 255
}

/// Whether `a + b + carry`, with `a` and `b` read as signed, leaves the range
/// of a signed byte.
pub open spec fn adc_overflow(a: u8, b: u8, carry: bool) -> bool {
    let sum = signed(a) + signed(b) + carry_in(carry);
    sum < -128 || sum > 127
}

/// The byte that `a - b - borrow` leaves in the accumulator, where the borrow
/// is one when the carry flag is clear.
pub open spec fn sbc_value(a: u8, b: u8, carry: bool) -> u8 {
    ((a - b - (1 - carry_in(carry))) % 256) as u8
}

/// The carry after a subtraction: set when no borrow was needed.
pub open spec fn sbc_carry(a: u8, b: u8, carry: bool) -> bool {
    a - b - (1 - carry_in(carry)) >= 0
}

/// Whether `a - b - borrow`, with `a` and `b` read as signed, leaves the range
/// of a signed byte.
pub open spec fn sbc_overflow(a: u8, b: u8, carry: bool) -> bool {
    let difference = signed(a) - signed(b) - (1 - carry_in(carry));
    difference < -128 || difference > 127
}

/// The address `offset` bytes away from `from`, the offset read as signed and
/// the result wrapped to 16 bits.
pub open spec fn branch_target(from: u16, offset: u8) -> u16 {
    ((from + signed(offset)) % 0x10000) as u16
}

/// A byte shifted left by one bit, the top bit lost.
pub open spec fn shifted_left(value: u8) -> u8 {
    ((2 * value) % 256) as u8
}

/// A byte shifted right by one bit, the lowest bit lost.
pub open spec fn shifted_right(value: u8) -> u8 {
    (value / 2) as u8
}

/// A byte rotated left through the carry: the carry comes in as bit 0.
pub open spec fn rotated_left(value: u8, carry: bool) -> u8 {
    ((2 * value + carry_in(carry)) % 256) as u8
}

/// A byte rotated right through the carry: the carry comes in as bit 7.
pub open spec fn rotated_right(value: u8, carry: bool) -> u8 {
    (value / 2 + 128 * carry_in(carry)) as u8
}

/// The families of mnemonics that share a handler.
impl Mnemonic {
    pub open spec fn is_add_sub(self) -> bool {
        self is ADC || self is SBC
    }

    pub open spec fn is_branch(self) -> bool {
        self is BPL || self is BMI || self is BVC || self is BVS || self is BCC || self is BCS
            || self is BNE || self is BEQ
    }

    pub open spec fn is_compare(self) -> bool {
        self is CMP || self is CPX || self is CPY
    }

    pub open spec fn is_crement(self) -> bool {
        self is DEC || self is INC
    }

    pub open spec fn is_flag_update(self) -> bool {
        self is CLC || self is SEC || self is CLI || self is SEI || self is CLV || self is CLD
            || self is SED
    }

    pub open spec fn is_load(self) -> bool {
        self is LDA || self is LDX || self is LDY
    }

    pub open spec fn is_register_update(self) -> bool {
        self is TAX || self is TXA || self is TAY || self is TYA || self is DEX || self is DEY
            || self is INX || self is INY
    }

    pub open spec fn is_stack_transfer(self) -> bool {
        self is TXS || self is TSX || self is PHA || self is PLA || self is PHP || self is PLP
    }

    pub open spec fn is_store(self) -> bool {
        self is STA || self is STX || self is STY
    }
}

/// The state of the machine: its registers and its 65536 memory cells.
pub struct CpuState {
    pub reg: RegisterSet,
    pub mem: Seq<u8>,
}

impl CpuState {
    /// Every 16-bit address names a cell.
    pub open spec fn well_formed(self) -> bool {
        self.mem.len() == ADDRESS_SPACE
    }

    pub open spec fn with_reg(self, reg: RegisterSet) -> CpuState {
        CpuState { reg, ..self }
    }

    pub open spec fn with_pc(self, pc: u16) -> CpuState {
        self.with_reg(RegisterSet { pc, ..self.reg })
    }

    pub open spec fn with_flag(self, mask: u8, value: bool) -> CpuState {
        self.with_reg(self.reg.with_flag(mask, value))
    }

    /// The state with N and Z describing `value`.
    pub open spec fn with_zn(self, value: u8) -> CpuState {
        self.with_reg(self.reg.with_zn(value))
    }

    /// The state with `value` in the accumulator and N and Z describing it.
    pub open spec fn with_accumulator(self, value: u8) -> CpuState {
        self.with_reg((RegisterSet { a: value, ..self.reg }).with_zn(value))
    }

    /// The byte at `addr`.
    pub open spec fn read(self, addr: u16) -> u8 {
        self.mem[addr as int]
    }

    /// The little-endian word at `addr`; its high byte is at the next address,
    /// which after 0xFFFF is 0x0000.
    pub open spec fn read_word(self, addr: u16) -> u16 {
        word(self.read(addr), self.read(addr.wrapping_add(1)))
    }

    /// The word that the zero-page pointer at `ptr` holds. Both of its bytes
    /// lie in page zero: the byte after 0xFF is the one at 0x00.
    pub open spec fn zero_page_word(self, ptr: u8) -> u16 {
        word(self.read(ptr as u16), self.read(ptr.wrapping_add(1) as u16))
    }

    pub open spec fn write(self, addr: u16, value: u8) -> CpuState {
        CpuState { mem: self.mem.update(addr as int, value), ..self }
    }

    pub open spec fn write_word(self, addr: u16, value: u16) -> CpuState {
        self.write(addr, low_byte(value)).write(addr.wrapping_add(1), high_byte(value))
    }

    /// The state with the program counter moved on by `count`, wrapping at the
    /// end of the address space.
    pub open spec fn advance(self, count: u16) -> CpuState {
        self.with_pc(self.reg.pc.wrapping_add(count))
    }

    /// The state with the program counter moved past the operand bytes of
    /// `opcode`.
    pub open spec fn skip_operand(self, opcode: Opcode) -> CpuState
        recommends
            opcode.bytes >= 1,
    {
        self.advance((opcode.bytes - 1) as u16)
    }

    /// The effective address of the operand under `mode`, the program counter
    /// standing at the first operand byte. The implicit, accumulator and
    /// relative modes have none.
    pub open spec fn operand_address(self, mode: AddressMode) -> u16
        recommends
            mode.has_address(),
    {
        let pc = self.reg.pc;
        match mode {
            AddressMode::Immediate => pc,
            AddressMode::ZeroPage => self.read(pc) as u16,
            AddressMode::ZeroPageX => self.read(pc).wrapping_add(self.reg.x) as u16,
            AddressMode::ZeroPageY => self.read(pc).wrapping_add(self.reg.y) as u16,
            AddressMode::Absolute => self.read_word(pc),
            AddressMode::AbsoluteX => self.read_word(pc).wrapping_add(self.reg.x as u16),
            AddressMode::AbsoluteY => self.read_word(pc).wrapping_add(self.reg.y as u16),
            AddressMode::Indirect => self.read_word(self.read_word(pc)),
            AddressMode::IndirectX => self.zero_page_word(
                self.read(pc).wrapping_add(self.reg.x),
            ),
            AddressMode::IndirectY => self.zero_page_word(self.read(pc)).wrapping_add(
                self.reg.y as u16,
            ),
            AddressMode::Implicit | AddressMode::Accumulator | AddressMode::Relative => arbitrary(),
        }
    }

    /// The operand byte under `mode`.
    pub open spec fn operand(self, mode: AddressMode) -> u8
        recommends
            mode.has_address(),
    {
        self.read(self.operand_address(mode))
    }

    /// The address of the free cell on top of the stack.
    pub open spec fn stack_address(self) -> u16 {
        (STACK_ADDR_MIN + self.reg.sp) as u16
    }

    /// The state after `value` was pushed: it lies where the stack pointer
    /// stood, and the stack pointer is one lower, wrapping within the page.
    pub open spec fn push(self, value: u8) -> CpuState {
        let written = self.write(self.stack_address(), value);
        written.with_reg(RegisterSet { sp: self.reg.sp.wrapping_sub(1), ..self.reg })
    }

    /// The state after a word was pushed, high byte first.
    pub open spec fn push_word(self, value: u16) -> CpuState {
        self.push(high_byte(value)).push(low_byte(value))
    }

    /// The state after one byte was pulled: the stack pointer is one higher,
    /// wrapping within the page.
    pub open spec fn pull(self) -> CpuState {
        self.with_reg(RegisterSet { sp: self.reg.sp.wrapping_add(1), ..self.reg })
    }

    /// The byte that a pull returns.
    pub open spec fn pulled(self) -> u8 {
        self.pull().read(self.pull().stack_address())
    }

    /// The state after a word was pulled.
    pub open spec fn pull_word(self) -> CpuState {
        self.pull().pull()
    }

    /// The word that pulling two bytes returns, the low byte coming first.
    pub open spec fn pulled_word(self) -> u16 {
        word(self.pulled(), self.pull().pulled())
    }

    /// `value + operand + carry` in the accumulator, with N, Z, C and V.
    pub open spec fn add(self, operand: u8, carry: bool) -> CpuState {
        let a = self.reg.a;
        self.with_accumulator(adc_value(a, operand, carry)).with_flag(
            BITMASK_CARRY,
            adc_carry(a, operand, carry),
        ).with_flag(BITMASK_OVERFLOW, adc_overflow(a, operand, carry))
    }

    /// `value - operand - borrow` in the accumulator, with N, Z, C and V.
    pub open spec fn subtract(self, operand: u8, carry: bool) -> CpuState {
        let a = self.reg.a;
        self.with_accumulator(sbc_value(a, operand, carry)).with_flag(
            BITMASK_CARRY,
            sbc_carry(a, operand, carry),
        ).with_flag(BITMASK_OVERFLOW, sbc_overflow(a, operand, carry))
    }

    /// ADC and SBC.
    pub open spec fn add_sub(self, opcode: Opcode) -> CpuState {
        let operand = self.operand(opcode.mode);
        let carry = self.reg.carry();
        if opcode.mnemonic is SBC {
            self.subtract(operand, carry).skip_operand(opcode)
        } else {
            self.add(operand, carry).skip_operand(opcode)
        }
    }

    /// AND.
    pub open spec fn and(self, opcode: Opcode) -> CpuState {
        self.with_accumulator(self.reg.a & self.operand(opcode.mode)).skip_operand(opcode)
    }

    /// ORA.
    pub open spec fn bitwise_or(self, opcode: Opcode) -> CpuState {
        self.with_accumulator(self.reg.a | self.operand(opcode.mode)).skip_operand(opcode)
    }

    /// EOR.
    pub open spec fn bitwise_xor(self, opcode: Opcode) -> CpuState {
        self.with_accumulator(self.reg.a ^ self.operand(opcode.mode)).skip_operand(opcode)
    }

    /// ASL: the accumulator or the addressed cell is shifted left; C takes
    /// the bit that was shifted out.
    pub open spec fn arithmetic_shift(self, opcode: Opcode) -> CpuState {
        if opcode.mode is Accumulator {
            let a = self.reg.a;
            self.with_flag(BITMASK_CARRY, a >= 0x80).with_accumulator(shifted_left(a)).skip_operand(
                opcode,
            )
        } else {
            let addr = self.operand_address(opcode.mode);
            let operand = self.read(addr);
            let result = shifted_left(operand);
            self.with_flag(BITMASK_CARRY, operand >= 0x80).write(addr, result).with_zn(
                result,
            ).skip_operand(opcode)
        }
    }

    /// LSR: the accumulator or the addressed cell is shifted right; C takes
    /// the bit that was shifted out.
    pub open spec fn logical_shift(self, opcode: Opcode) -> CpuState {
        if opcode.mode is Accumulator {
            let a = self.reg.a;
            self.with_flag(BITMASK_CARRY, a % 2 == 1).with_accumulator(
                shifted_right(a),
            ).skip_operand(opcode)
        } else {
            let addr = self.operand_address(opcode.mode);
            let operand = self.read(addr);
            let result = shifted_right(operand);
            self.with_flag(BITMASK_CARRY, operand % 2 == 1).write(addr, result).with_zn(
                result,
            ).skip_operand(opcode)
        }
    }

    /// ROL: the accumulator is rotated left through the carry.
    pub open spec fn rotate_left(self, opcode: Opcode) -> CpuState {
        let a = self.reg.a;
        self.with_reg(
            (RegisterSet { a: rotated_left(a, self.reg.carry()), ..self.reg }).with_flag(
                BITMASK_CARRY,
                a >= 0x80,
            ),
        ).with_zn(rotated_left(a, self.reg.carry())).skip_operand(opcode)
    }

    /// ROR: the accumulator is rotated right through the carry.
    pub open spec fn rotate_right(self, opcode: Opcode) -> CpuState {
        let a = self.reg.a;
        self.with_reg(
            (RegisterSet { a: rotated_right(a, self.reg.carry()), ..self.reg }).with_flag(
                BITMASK_CARRY,
                a % 2 == 1,
            ),
        ).with_zn(rotated_right(a, self.reg.carry())).skip_operand(opcode)
    }

    /// BIT: Z says that the operand and the accumulator share no bit; N and V
    /// are bits 7 and 6 of the operand itself.
    pub open spec fn bit_test(self, opcode: Opcode) -> CpuState {
        let operand = self.operand(opcode.mode);
        self.with_flag(BITMASK_ZERO, operand & self.reg.a == 0).with_flag(
            BITMASK_NEGATIVE,
            operand & 0b1000_0000 != 0,
        ).with_flag(BITMASK_OVERFLOW, operand & 0b0100_0000 != 0).skip_operand(opcode)
    }

    /// Whether the branch `mnemonic` is taken in this state.
    pub open spec fn branch_taken(self, mnemonic: Mnemonic) -> bool
        recommends
            mnemonic.is_branch(),
    {
        match mnemonic {
            Mnemonic::BPL => !self.reg.negative(),
            Mnemonic::BMI => self.reg.negative(),
            Mnemonic::BVC => !self.reg.overflow(),
            Mnemonic::BVS => self.reg.overflow(),
            Mnemonic::BCC => !self.reg.carry(),
            Mnemonic::BCS => self.reg.carry(),
            Mnemonic::BNE => !self.reg.zero(),
            Mnemonic::BEQ => self.reg.zero(),
            _ => arbitrary(),
        }
    }

    /// The branches: the program counter passes the operand, and where the
    /// branch is taken it moves on by the signed offset that the operand holds.
    pub open spec fn branch(self, opcode: Opcode) -> CpuState {
        let offset = self.read(self.reg.pc);
        let next = self.skip_operand(opcode);
        if self.branch_taken(opcode.mnemonic) {
            next.with_pc(branch_target(next.reg.pc, offset))
        } else {
            next
        }
    }

    /// BRK: the program counter moves on by one and is pushed, then the status
    /// word is pushed with bits 4 and 5 set. The status register itself stays.
    pub open spec fn break_(self) -> CpuState {
        let next = self.advance(1);
        next.push_word(next.reg.pc).push(next.reg.p | BITMASK_PUSHED)
    }

    /// The register that a compare instruction reads.
    pub open spec fn compared_register(self, mnemonic: Mnemonic) -> u8
        recommends
            mnemonic.is_compare(),
    {
        match mnemonic {
            Mnemonic::CMP => self.reg.a,
            Mnemonic::CPX => self.reg.x,
            Mnemonic::CPY => self.reg.y,
            _ => arbitrary(),
        }
    }

    /// CMP, CPX, CPY: C says that the register is at least the operand; N and
    /// Z describe their difference.
    pub open spec fn compare(self, opcode: Opcode) -> CpuState {
        let operand = self.operand(opcode.mode);
        let base = self.compared_register(opcode.mnemonic);
        self.with_flag(BITMASK_CARRY, base >= operand).with_zn(
            base.wrapping_sub(operand),
        ).skip_operand(opcode)
    }

    /// DEC and INC: the addressed cell goes down or up by one, wrapping.
    pub open spec fn crement(self, opcode: Opcode) -> CpuState {
        let addr = self.operand_address(opcode.mode);
        let value = self.read(addr);
        let result = if opcode.mnemonic is DEC {
            value.wrapping_sub(1)
        } else {
            value.wrapping_add(1)
        };
        self.write(addr, result).with_zn(result).skip_operand(opcode)
    }

    /// CLC, SEC, CLI, SEI, CLV, CLD, SED: one flag is set or cleared.
    pub open spec fn update_flag(self, opcode: Opcode) -> CpuState {
        let next = self.skip_operand(opcode);
        match opcode.mnemonic {
            Mnemonic::CLC => next.with_flag(BITMASK_CARRY, false),
            Mnemonic::SEC => next.with_flag(BITMASK_CARRY, true),
            Mnemonic::CLI => next.with_flag(BITMASK_INTERRUPT, false),
            Mnemonic::SEI => next.with_flag(BITMASK_INTERRUPT, true),
            Mnemonic::CLV => next.with_flag(BITMASK_OVERFLOW, false),
            Mnemonic::CLD => next.with_flag(BITMASK_DECIMAL, false),
            Mnemonic::SED => next.with_flag(BITMASK_DECIMAL, true),
            _ => arbitrary(),
        }
    }

    /// JMP: the program counter becomes the resolved address.
    pub open spec fn jump(self, opcode: Opcode) -> CpuState {
        self.with_pc(self.operand_address(opcode.mode))
    }

    /// JSR: the address of the last byte of the instruction is pushed, and
    /// the program counter becomes the resolved address.
    pub open spec fn subroutine_jump(self, opcode: Opcode) -> CpuState {
        let next = self.skip_operand(opcode);
        next.push_word(next.reg.pc.wrapping_sub(1)).with_pc(self.operand_address(opcode.mode))
    }

    /// RTS: a word is pulled, and the program counter is that word plus one.
    pub open spec fn return_from_subroutine(self) -> CpuState {
        self.pull_word().with_pc(self.pulled_word().wrapping_add(1))
    }

    /// RTI: the status word is pulled, then the program counter.
    pub open spec fn return_from_interrupt(self) -> CpuState {
        let status = self.pulled();
        let rest = self.pull();
        let pc = rest.pulled_word();
        let end = rest.pull_word();
        end.with_reg(RegisterSet { p: status, pc, ..end.reg })
    }

    /// LDA, LDX, LDY: the register takes the operand, and N and Z describe it.
    pub open spec fn load(self, opcode: Opcode) -> CpuState {
        let operand = self.operand(opcode.mode);
        let reg = match opcode.mnemonic {
            Mnemonic::LDA => RegisterSet { a: operand, ..self.reg },
            Mnemonic::LDX => RegisterSet { x: operand, ..self.reg },
            Mnemonic::LDY => RegisterSet { y: operand, ..self.reg },
            _ => arbitrary(),
        };
        self.with_reg(reg.with_zn(operand)).skip_operand(opcode)
    }

    /// NOP.
    pub open spec fn nop(self, opcode: Opcode) -> CpuState {
        self.skip_operand(opcode)
    }

    /// TAX, TXA, TAY, TYA, DEX, DEY, INX, INY: a register is copied or moved
    /// by one, wrapping, and N and Z describe the value that was stored.
    pub open spec fn register_update(self, opcode: Opcode) -> CpuState {
        let r = self.reg;
        let reg = match opcode.mnemonic {
            Mnemonic::TAX => RegisterSet { x: r.a, ..r }.with_zn(r.a),
            Mnemonic::TAY => RegisterSet { y: r.a, ..r }.with_zn(r.a),
            Mnemonic::TXA => RegisterSet { a: r.x, ..r }.with_zn(r.x),
            Mnemonic::TYA => RegisterSet { a: r.y, ..r }.with_zn(r.y),
            Mnemonic::DEX => RegisterSet { x: r.x.wrapping_sub(1), ..r }.with_zn(
                r.x.wrapping_sub(1),
            ),
            Mnemonic::INX => RegisterSet { x: r.x.wrapping_add(1), ..r }.with_zn(
                r.x.wrapping_add(1),
            ),
            Mnemonic::DEY => RegisterSet { y: r.y.wrapping_sub(1), ..r }.with_zn(
                r.y.wrapping_sub(1),
            ),
            Mnemonic::INY => RegisterSet { y: r.y.wrapping_add(1), ..r }.with_zn(
                r.y.wrapping_add(1),
            ),
            _ => arbitrary(),
        };
        self.with_reg(reg).skip_operand(opcode)
    }

    /// TXS, TSX, PHA, PLA, PHP, PLP. No flag changes but by PLP, which takes
    /// the pulled byte without its bits 4 and 5; PHP pushes the status word
    /// with those two bits set.
    pub open spec fn stack_transfer(self, opcode: Opcode) -> CpuState {
        let r = self.reg;
        let done = match opcode.mnemonic {
            Mnemonic::TXS => self.with_reg(RegisterSet { sp: r.x, ..r }),
            Mnemonic::TSX => self.with_reg(RegisterSet { x: r.sp, ..r }),
            Mnemonic::PHA => self.push(r.a),
            Mnemonic::PLA => self.pull().with_reg(RegisterSet { a: self.pulled(), ..self.pull().reg }),
            Mnemonic::PHP => self.push(r.p | BITMASK_PUSHED),
            Mnemonic::PLP => self.pull().with_reg(
                RegisterSet { p: self.pulled() & !BITMASK_PUSHED, ..self.pull().reg },
            ),
            _ => arbitrary(),
        };
        done.skip_operand(opcode)
    }

    /// The register that a store instruction writes.
    pub open spec fn stored_register(self, mnemonic: Mnemonic) -> u8
        recommends
            mnemonic.is_store(),
    {
        match mnemonic {
            Mnemonic::STA => self.reg.a,
            Mnemonic::STX => self.reg.x,
            Mnemonic::STY => self.reg.y,
            _ => arbitrary(),
        }
    }

    /// STA, STX, STY: the register is written to the resolved address.
    pub open spec fn store_register(self, opcode: Opcode) -> CpuState {
        self.write(
            self.operand_address(opcode.mode),
            self.stored_register(opcode.mnemonic),
        ).skip_operand(opcode)
    }

    /// What the instruction `opcode` makes of this state.
    pub open spec fn execute(self, opcode: Opcode) -> CpuState {
        match opcode.mnemonic {
            Mnemonic::ADC | Mnemonic::SBC => self.add_sub(opcode),
            Mnemonic::AND => self.and(opcode),
            Mnemonic::ASL => self.arithmetic_shift(opcode),
            Mnemonic::BIT => self.bit_test(opcode),
            Mnemonic::BPL
            | Mnemonic::BMI
            | Mnemonic::BVC
            | Mnemonic::BVS
            | Mnemonic::BCC
            | Mnemonic::BCS
            | Mnemonic::BNE
            | Mnemonic::BEQ => self.branch(opcode),
            Mnemonic::BRK => self.break_(),
            Mnemonic::CMP | Mnemonic::CPX | Mnemonic::CPY => self.compare(opcode),
            Mnemonic::DEC | Mnemonic::INC => self.crement(opcode),
            Mnemonic::EOR => self.bitwise_xor(opcode),
            Mnemonic::CLC
            | Mnemonic::SEC
            | Mnemonic::CLI
            | Mnemonic::SEI
            | Mnemonic::CLV
            | Mnemonic::CLD
            | Mnemonic::SED => self.update_flag(opcode),
            Mnemonic::JMP => self.jump(opcode),
            Mnemonic::JSR => self.subroutine_jump(opcode),
            Mnemonic::LDA | Mnemonic::LDX | Mnemonic::LDY => self.load(opcode),
            Mnemonic::LSR => self.logical_shift(opcode),
            Mnemonic::NOP => self.nop(opcode),
            Mnemonic::ORA => self.bitwise_or(opcode),
            Mnemonic::TAX
            | Mnemonic::TXA
            | Mnemonic::TAY
            | Mnemonic::TYA
            | Mnemonic::DEX
            | Mnemonic::DEY
            | Mnemonic::INX
            | Mnemonic::INY => self.register_update(opcode),
            Mnemonic::ROL => self.rotate_left(opcode),
            Mnemonic::ROR => self.rotate_right(opcode),
            Mnemonic::RTI => self.return_from_interrupt(),
            Mnemonic::RTS => self.return_from_subroutine(),
            Mnemonic::STA | Mnemonic::STX | Mnemonic::STY => self.store_register(opcode),
            Mnemonic::TXS
            | Mnemonic::TSX
            | Mnemonic::PHA
            | Mnemonic::PLA
            | Mnemonic::PHP
            | Mnemonic::PLP => self.stack_transfer(opcode),
        }
    }

    /// The state after one step on the opcode byte `code`: the program counter
    /// passes the opcode byte, and if the byte is a legal opcode its
    /// instruction is executed.
    pub open spec fn step(self, code: u8) -> CpuState {
        let fetched = self.advance(1);
        match opcode_for(code) {
            Some(opcode) => fetched.execute(opcode),
            None => fetched,
        }
    }

    /// The state after a reset: the registers at their power-up values and the
    /// program counter taken from the reset vector. Memory stays.
    pub open spec fn reset(self) -> CpuState {
        self.with_reg(RegisterSet { pc: self.read_word(PRG_START_ADDR), ..RegisterSet::initial() })
    }

    /// Whether the program counter stands at a BRK, where a run ends.
    pub open spec fn halted(self) -> bool {
        self.read(self.reg.pc) == 0
    }

    /// The state in which a run of at most `limit` instructions ends. A run
    /// ends where the program counter stands at a BRK, which is not executed,
    /// after a byte that is no legal opcode was fetched, or when `limit`
    /// instructions were executed.
    pub open spec fn run(self, limit: nat) -> CpuState
        decreases limit,
    {
        let code = self.read(self.reg.pc);
        if self.halted() || limit == 0 {
            self
        } else if opcode_for(code) is None {
            self.step(code)
        } else {
            self.step(code).run((limit - 1) as nat)
        }
    }

    /// How a run of at most `limit` instructions ends: well at a BRK, or with
    /// the byte that is no legal opcode and the registers after it was
    /// fetched, or at the limit.
    pub open spec fn run_result(self, limit: nat) -> Result<(), CpuError>
        decreases limit,
    {
        let code = self.read(self.reg.pc);
        if self.halted() {
            Ok(())
        } else if limit == 0 {
            Err(CpuError::StepLimit)
        } else if opcode_for(code) is None {
            Err(CpuError::UnimplementedOpcode { code, reg: self.step(code).reg })
        } else {
            self.step(code).run_result((limit - 1) as nat)
        }
    }
}

/// How a run under a callback ends.
pub enum RunEnd {
    /// The program counter came to stand at a BRK.
    Halted,
    /// The engine stopped without reaching a BRK.
    Failed(CpuError),
    /// The callback failed, which ends the run at once.
    Stopped,
}

impl CpuState {
    /// The run of at most `limit` instructions under a callback that the
    /// state of the CPU alone decides: called on a state, the callback leaves
    /// the state `change` of it, and it fails exactly on the states of which
    /// `fails` holds.
    ///
    /// Each turn starts with the callback. Where it fails, the run ends with
    /// the state as the callback left it: nothing is fetched and nothing is
    /// executed after the failure, and the callback is not called again.
    /// Where it succeeds, the byte under the program counter is fetched, and
    /// the run ends at a BRK, fails at a byte that is no legal opcode, or
    /// executes the instruction and goes on to the next turn.
    pub open spec fn hooked_run(
        self,
        change: spec_fn(CpuState) -> CpuState,
        fails: spec_fn(CpuState) -> bool,
        limit: nat,
    ) -> (CpuState, RunEnd)
        decreases limit,
    {
        if limit == 0 {
            if self.halted() {
                (self, RunEnd::Halted)
            } else {
                (self, RunEnd::Failed(CpuError::StepLimit))
            }
        } else if fails(self) {
            (change(self), RunEnd::Stopped)
        } else {
            let seen = change(self);
            let code = seen.read(seen.reg.pc);
            if seen.halted() {
                (seen, RunEnd::Halted)
            } else if opcode_for(code) is None {
                (
                    seen.step(code),
                    RunEnd::Failed(
                        CpuError::UnimplementedOpcode { code, reg: seen.step(code).reg },
                    ),
                )
            } else {
                seen.step(code).hooked_run(change, fails, (limit - 1) as nat)
            }
        }
    }
}

/// A run under a callback that never fails and changes nothing is the plain
/// run.
pub proof fn lemma_quiet_hooked_run(state: CpuState, limit: nat)
    ensures
        state.hooked_run(|s: CpuState| s, |s: CpuState| false, limit).0 == state.run(limit),
        state.hooked_run(|s: CpuState| s, |s: CpuState| false, limit).1 == match state.run_result(
            limit,
        ) {
            Ok(()) => RunEnd::Halted,
            Err(error) => RunEnd::Failed(error),
        },
    decreases limit,
{
    let code = state.read(state.reg.pc);
    if limit > 0 && !state.halted() && opcode_for(code) is Some {
        lemma_quiet_hooked_run(state.step(code), (limit - 1) as nat);
    }
}

/// A run that ends at a BRK ends in a state that stands at a BRK.
pub proof fn lemma_run_ends_halted(state: CpuState, limit: nat)
    requires
        state.run_result(limit) is Ok,
    ensures
        state.run(limit).halted(),
    decreases limit,
{
    let code = state.read(state.reg.pc);
    if !state.halted() && limit > 0 && opcode_for(code) is Some {
        lemma_run_ends_halted(state.step(code), (limit - 1) as nat);
    }
}

/// A run that ended before its limit ends in the same way under any higher
/// limit: only a run that was cut short depends on the limit.
pub proof fn lemma_run_limit(state: CpuState, limit: nat, higher: nat)
    requires
        state.run_result(limit) != Err::<(), CpuError>(CpuError::StepLimit),
        limit <= higher,
    ensures
        state.run(higher) == state.run(limit),
        state.run_result(higher) == state.run_result(limit),
    decreases limit,
{
    let code = state.read(state.reg.pc);
    if !state.halted() && limit > 0 && opcode_for(code) is Some {
        lemma_run_limit(state.step(code), (limit - 1) as nat, (higher - 1) as nat);
    }
}

} // verus!
