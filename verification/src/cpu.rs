//! The CPU: registers, memory and the execution engine.
//!
//! `step` executes one instruction and `run` executes instructions until the
//! program counter stands at a BRK. `step` looks the opcode byte up in the
//! table and hands the entry to the handler of its mnemonic, one of the
//! functions whose names start with `do_`.
//!
//! Each handler states in its `requires` which entries it takes: a handler
//! of several mnemonics takes those mnemonics and no others, and a handler
//! that reads or writes memory takes the addressing modes that name an
//! address. `step` shows of every entry of the table that its handler takes
//! it, so that a handler never meets a mnemonic that is not its own nor an
//! addressing mode without an address. The one failure that remains is an
//! opcode byte that the table does not hold, and `step` returns it as an
//! error.
use vstd::prelude::*;

pub mod addr;
pub mod decomp;
pub mod laws;
pub mod model;
pub mod ops;
pub mod prog;
pub mod reg;

use crate::cpu::addr::AddressMode;
use crate::cpu::laws::lemma_subtract_is_add_of_complement;
use crate::cpu::model::{
    adc_carry, adc_overflow, adc_value, branch_target, carry_in, rotated_left, rotated_right,
    sbc_carry, sbc_overflow, sbc_value, shifted_left, shifted_right, signed, CpuError, CpuState, RunEnd,
    PRG_ROM_ADDR_MIN, PRG_START_ADDR, STACK_ADDR_MAX, STACK_ADDR_MIN,
};
use crate::cpu::ops::{lemma_table_entries, lookup, opcode_for, Mnemonic, Opcode};
use crate::cpu::reg::{
    lemma_flag_kept, lemma_zn_describes_value, RegisterSet, BITMASK_CARRY, BITMASK_NEGATIVE,
    BITMASK_OVERFLOW, BITMASK_ZERO,
};
use crate::memory::{loaded, make_word, split_word, MemoryMap, SimpleMap};

verus! {

/// The NES CPU, a Ricoh 2A03: the registers and the memory it owns.
pub struct CPU {
    /// The registers
    pub reg: RegisterSet,
    /// The memory, one cell for each 16-bit address
    pub mem: SimpleMap<0x10000>,
}

impl View for CPU {
    type V = CpuState;

    open spec fn view(&self) -> CpuState {
        CpuState { reg: self.reg, mem: self.mem@ }
    }
}

impl Default for CPU {
    /// A CPU at power-up, as `CPU::new` makes it.
    fn default() -> (cpu: CPU)
        ensures
            cpu@.reg == RegisterSet::initial(),
            cpu@.mem == Seq::new(0x10000, |i: int| 0u8),
    {
        CPU::new()
    }
}

/// The number of instructions after which a run is cut short.
pub const RUN_LIMIT: u64 = 0xFFFF_FFFF_FFFF_FFFF;

/// Why a run with a callback stopped without reaching a BRK.
#[derive(Debug)]
pub enum RunError<E> {
    /// The engine itself stopped.
    Cpu(CpuError),
    /// The callback failed with this error.
    Observer(E),
}

/// How a run with a callback ended, the error of the callback left aside.
pub open spec fn end_of<E>(r: Result<(), RunError<E>>) -> RunEnd {
    match r {
        Ok(()) => RunEnd::Halted,
        Err(RunError::Cpu(error)) => RunEnd::Failed(error),
        Err(RunError::Observer(_)) => RunEnd::Stopped,
    }
}

/// Whether bit 7 of `val` is set.
pub fn is_negative(val: u8) -> (r: bool)
    ensures
        r == (val >= 0x80),
{
    assert((val & 0b1000_0000 != 0) == (val >= 0x80)) by (bit_vector);
    val & 0b1000_0000 != 0
}

/// Whether bit 7 of `val` is clear.
pub fn is_positive(val: u8) -> (r: bool)
    ensures
        r == (val < 0x80),
{
    assert((val & 0b1000_0000 == 0) == (val < 0x80)) by (bit_vector);
    val & 0b1000_0000 == 0
}

/// Adds two bytes. Returns the sum wrapped to a byte, whether the sum of the
/// two read as signed numbers leaves the signed range, and whether the sum of
/// the two read as unsigned numbers leaves the unsigned range.
pub fn twos_add_overflow_carry(value: u8, operand: u8) -> (r: (u8, bool, bool))
    ensures
        r.0 == adc_value(value, operand, false),
        r.1 == adc_overflow(value, operand, false),
        r.2 == adc_carry(value, operand, false),
{
    let val_pos = is_positive(value);
    let op_pos = is_positive(operand);

    let result = value.wrapping_add(operand);
    let carry = value as u16 + operand as u16 > 0xFF;
    let res_pos = is_positive(result);
    let overflow = if res_pos {
        !val_pos && !op_pos
    } else {
        val_pos && op_pos
    };

    (result, overflow, carry)
}

/// The relative addressing mode: the address `offset` bytes away from
/// `from`, the offset read as a signed byte and the sum wrapped to 16 bits.
pub fn relative_address(from: u16, offset: u8) -> (target: u16)
    ensures
        target == branch_target(from, offset),
{
    if offset >= 0x80 {
        from.wrapping_sub(0x100 - offset as u16)
    } else {
        from.wrapping_add(offset as u16)
    }
}

impl CPU {
    /// Sets N and Z from the accumulator.
    pub fn update_zn_from_accumulator(&mut self)
        ensures
            final(self)@ == old(self)@.with_zn(old(self).reg.a),
            final(self).reg.zero() == (old(self).reg.a == 0),
            final(self).reg.negative() == (old(self).reg.a >= 0x80),
    {
        proof {
            lemma_zn_describes_value(self.reg, self.reg.a);
        }
        self.reg.set_negative(self.reg.a >= 0x80);
        self.reg.set_zero(self.reg.a == 0x00);
    }

    /// Sets N and Z from `value`: Z exactly when it is zero, N exactly when
    /// its bit 7 is set. What the flags were before plays no part.
    pub fn update_zn_from_value(&mut self, value: u8)
        ensures
            final(self)@ == old(self)@.with_zn(value),
            final(self).reg.zero() == (value == 0),
            final(self).reg.negative() == (value >= 0x80),
    {
        proof {
            lemma_zn_describes_value(self.reg, value);
        }
        self.reg.set_negative(value >= 0x80);
        self.reg.set_zero(value == 0x00);
    }

    /// The effective address of the operand under `mode`. The program counter
    /// stands at the first operand byte. All sums wrap: the zero-page modes
    /// stay in page zero, the absolute ones in the 16-bit address space.
    ///
    /// The indirect mode takes the two bytes of its pointer from neighbouring
    /// addresses wherever they lie: the hardware's habit of staying within
    /// one page for the second byte is not imitated.
    ///
    /// The implicit, accumulator and relative modes name no address and must
    /// not be passed. The branches, which alone use the relative mode, work
    /// out their target themselves.
    pub fn get_operand_address(&self, mode: &AddressMode) -> (addr: u16)
        requires
            mode.has_address(),
        ensures
            addr == self@.operand_address(*mode),
    {
        match mode {
            AddressMode::Immediate => self.reg.pc,
            AddressMode::ZeroPage => self.mem.read_u8(self.reg.pc) as u16,
            AddressMode::ZeroPageX => self.mem.read_u8(self.reg.pc).wrapping_add(self.reg.x) as u16,
            AddressMode::ZeroPageY => self.mem.read_u8(self.reg.pc).wrapping_add(self.reg.y) as u16,
            AddressMode::Absolute => self.mem.read_u16(self.reg.pc),
            AddressMode::AbsoluteX => self.mem.read_u16(self.reg.pc).wrapping_add(
                self.reg.x as u16,
            ),
            AddressMode::AbsoluteY => self.mem.read_u16(self.reg.pc).wrapping_add(
                self.reg.y as u16,
            ),
            AddressMode::Indirect => {
                let ptr = self.mem.read_u16(self.reg.pc);

                self.mem.read_u16(ptr)
            },
            AddressMode::IndirectX => {
                let ptr = self.mem.read_u8(self.reg.pc).wrapping_add(self.reg.x);

                make_word(
                    self.mem.read_u8(ptr as u16),
                    self.mem.read_u8(ptr.wrapping_add(1) as u16),
                )
            },
            AddressMode::IndirectY => {
                let ptr = self.mem.read_u8(self.reg.pc);

                make_word(
                    self.mem.read_u8(ptr as u16),
                    self.mem.read_u8(ptr.wrapping_add(1) as u16),
                ).wrapping_add(self.reg.y as u16)
            },
            // the modes without an address are not passed
            AddressMode::Implicit | AddressMode::Accumulator | AddressMode::Relative => self.reg.pc,
        }
    }

    /// The operand byte of `opcode`.
    pub fn get_operand_u8(&self, opcode: &Opcode) -> (operand: u8)
        requires
            opcode.mode.has_address(),
        ensures
            operand == self@.operand(opcode.mode),
    {
        self.mem.read_u8(self.get_operand_address(&opcode.mode))
    }

    /// Moves the program counter past the operand bytes of `opcode`.
    pub fn increment_pc(&mut self, opcode: &Opcode)
        requires
            opcode.bytes >= 1,
        ensures
            final(self)@ == old(self)@.skip_operand(*opcode),
    {
        self.reg.pc = self.reg.pc.wrapping_add((opcode.bytes - 1) as u16);
    }

    /// The address of the free cell on top of the stack, which lies in the
    /// stack page.
    pub fn get_sp(&self) -> (addr: u16)
        ensures
            addr == self@.stack_address(),
            STACK_ADDR_MIN <= addr <= STACK_ADDR_MAX,
    {
        STACK_ADDR_MIN + self.reg.sp as u16
    }

    /// Moves the stack pointer up by one, wrapping within the stack page.
    pub fn increment_sp(&mut self)
        ensures
            final(self)@ == old(self)@.pull(),
    {
        self.reg.sp = self.reg.sp.wrapping_add(1);
    }

    /// Moves the stack pointer down by one, wrapping within the stack page.
    pub fn decrement_sp(&mut self)
        ensures
            final(self)@ == old(self)@.with_reg(
                RegisterSet { sp: old(self).reg.sp.wrapping_sub(1), ..old(self).reg },
            ),
    {
        self.reg.sp = self.reg.sp.wrapping_sub(1);
    }

    /// Pushes a byte: it is written where the stack pointer stands, then the
    /// stack pointer goes down by one.
    pub fn push_u8(&mut self, value: u8)
        ensures
            final(self)@ == old(self)@.push(value),
    {
        self.mem.write_u8(self.get_sp(), value);
        self.decrement_sp();
    }

    /// Pushes a word, its high byte first.
    pub fn push_u16(&mut self, value: u16)
        ensures
            final(self)@ == old(self)@.push_word(value),
    {
        let (lo, hi) = split_word(value);
        self.push_u8(hi);
        self.push_u8(lo);
    }

    /// Pulls a byte: the stack pointer goes up by one, then the byte where it
    /// stands is read.
    pub fn pull_u8(&mut self) -> (value: u8)
        ensures
            final(self)@ == old(self)@.pull(),
            value == old(self)@.pulled(),
    {
        self.increment_sp();
        self.mem.read_u8(self.get_sp())
    }

    /// Pulls a word, its low byte first.
    pub fn pull_u16(&mut self) -> (value: u16)
        ensures
            final(self)@ == old(self)@.pull_word(),
            value == old(self)@.pulled_word(),
    {
        let lo = self.pull_u8();
        let hi = self.pull_u8();
        make_word(lo, hi)
    }

    /// Adds `operand` and the carry-in `carry`, which is 0 or 1, to the
    /// accumulator. N and Z describe the new accumulator, C says that the
    /// unsigned sum left the range of a byte, and V that the signed sum left
    /// the range -128 to 127.
    pub fn do_base_add(&mut self, operand: u8, carry: u8)
        requires
            carry <= 1,
        ensures
            final(self)@ == old(self)@.add(operand, carry == 1),
            final(self).reg.a == adc_value(old(self).reg.a, operand, carry == 1),
            final(self).reg.carry() == adc_carry(old(self).reg.a, operand, carry == 1),
            final(self).reg.overflow() == adc_overflow(old(self).reg.a, operand, carry == 1),
            final(self).reg.zero() == (final(self).reg.a == 0),
            final(self).reg.negative() == (final(self).reg.a >= 0x80),
    {
        let (partial_result, partial_overflow, partial_carry) = twos_add_overflow_carry(
            self.reg.a,
            operand,
        );
        let (carried_result, carried_overflow, carried_carry) = twos_add_overflow_carry(
            partial_result,
            carry,
        );

        self.reg.a = carried_result;

        self.update_zn_from_accumulator();
        let ghost after_zn = self.reg;
        self.reg.set_carry(partial_carry || carried_carry);
        let ghost after_carry = self.reg;
        // The whole sum leaves the signed range where exactly one of the two
        // additions does: where both do, the carry-in has brought it back.
        self.reg.set_overflow(partial_overflow != carried_overflow);
        proof {
            lemma_flag_kept(after_zn, BITMASK_CARRY, BITMASK_ZERO, partial_carry || carried_carry);
            lemma_flag_kept(
                after_zn,
                BITMASK_CARRY,
                BITMASK_NEGATIVE,
                partial_carry || carried_carry,
            );
            lemma_flag_kept(
                after_carry,
                BITMASK_OVERFLOW,
                BITMASK_ZERO,
                partial_overflow != carried_overflow,
            );
            lemma_flag_kept(
                after_carry,
                BITMASK_OVERFLOW,
                BITMASK_NEGATIVE,
                partial_overflow != carried_overflow,
            );
            lemma_flag_kept(
                after_carry,
                BITMASK_OVERFLOW,
                BITMASK_CARRY,
                partial_overflow != carried_overflow,
            );
        }
    }

    /// ADC and SBC. The operand is added to the accumulator together with
    /// the carry flag; for SBC it is the operand's complement that is added,
    /// which subtracts the operand and, where the carry is clear, one more.
    /// The decimal flag plays no part.
    pub fn do_add_sub(&mut self, opcode: &Opcode)
        requires
            opcode.mnemonic.is_add_sub(),
            opcode.executable(),
        ensures
            final(self)@ == old(self)@.add_sub(*opcode),
            opcode.mnemonic is ADC ==> {
                let a = old(self).reg.a;
                let operand = old(self)@.operand(opcode.mode);
                let carry = old(self).reg.carry();
                &&& final(self).reg.a == adc_value(a, operand, carry)
                &&& final(self).reg.carry() == (a + operand + carry_in(carry) > 255)
                &&& final(self).reg.overflow() == !(-128 <= signed(a) + signed(operand)
                    + carry_in(carry) <= 127)
            },
            opcode.mnemonic is SBC ==> {
                let a = old(self).reg.a;
                let operand = old(self)@.operand(opcode.mode);
                let carry = old(self).reg.carry();
                &&& final(self).reg.a == sbc_value(a, operand, carry)
                &&& final(self).reg.carry() == sbc_carry(a, operand, carry)
                &&& final(self).reg.overflow() == sbc_overflow(a, operand, carry)
            },
            final(self).reg.zero() == (final(self).reg.a == 0),
            final(self).reg.negative() == (final(self).reg.a >= 0x80),
    {
        let operand = self.get_operand_u8(opcode);
        let carry = self.reg.get_carry();
        let carry_multiplier: u8 = if carry {
            1
        } else {
            0
        };

        match &opcode.mnemonic {
            Mnemonic::ADC => self.do_base_add(operand, carry_multiplier),
            _ => {
                proof {
                    lemma_subtract_is_add_of_complement(self.reg.a, operand, carry);
                }
                self.do_base_add(!operand, carry_multiplier)
            },
        }

        self.increment_pc(opcode);
    }

    /// AND: the accumulator is combined with the operand bit by bit.
    pub fn do_and(&mut self, opcode: &Opcode)
        requires
            opcode.mode.has_address(),
            opcode.bytes >= 1,
        ensures
            final(self)@ == old(self)@.and(*opcode),
    {
        let operand = self.get_operand_u8(opcode);

        self.reg.a &= operand;

        self.update_zn_from_accumulator();

        self.increment_pc(opcode);
    }

    /// ASL: shifts the accumulator, or the addressed cell, left by one bit.
    /// C takes the bit that was shifted out.
    pub fn do_arithmetic_shift(&mut self, opcode: &Opcode)
        requires
            opcode.mode is Accumulator || opcode.mode.has_address(),
            opcode.bytes >= 1,
        ensures
            final(self)@ == old(self)@.arithmetic_shift(*opcode),
    {
        match &opcode.mode {
            AddressMode::Accumulator => {
                let a = self.reg.a;
                assert(a << 1u8 == shifted_left(a)) by (bit_vector);
                self.reg.set_carry(is_negative(a));
                self.reg.a <<= 1u8;
                self.update_zn_from_accumulator();
            },
            mode => {
                let addr = self.get_operand_address(mode);
                let operand = self.mem.read_u8(addr);
                assert(operand << 1u8 == shifted_left(operand)) by (bit_vector);
                self.reg.set_carry(is_negative(operand));
                let result = operand << 1u8;
                self.mem.write_u8(addr, result);
                self.update_zn_from_value(result);
            },
        }

        self.increment_pc(opcode);
    }

    /// LSR: shifts the accumulator, or the addressed cell, right by one bit.
    /// C takes the bit that was shifted out.
    pub fn do_logical_shift(&mut self, opcode: &Opcode)
        requires
            opcode.mode is Accumulator || opcode.mode.has_address(),
            opcode.bytes >= 1,
        ensures
            final(self)@ == old(self)@.logical_shift(*opcode),
    {
        match &opcode.mode {
            AddressMode::Accumulator => {
                let a = self.reg.a;
                assert(a >> 1u8 == shifted_right(a) && (a & 1 != 0) == (a % 2 == 1))
                    by (bit_vector);
                self.reg.set_carry(a & 1 != 0);
                self.reg.a >>= 1u8;
                self.update_zn_from_accumulator();
            },
            mode => {
                let addr = self.get_operand_address(mode);
                let operand = self.mem.read_u8(addr);
                assert(operand >> 1u8 == shifted_right(operand) && (operand & 1 != 0) == (operand
                    % 2 == 1)) by (bit_vector);
                self.reg.set_carry(operand & 1 != 0);
                let result = operand >> 1u8;
                self.mem.write_u8(addr, result);
                self.update_zn_from_value(result);
            },
        }

        self.increment_pc(opcode);
    }

    /// BIT: Z says that the operand and the accumulator have no bit in
    /// common. N and V are copies of bits 7 and 6 of the operand itself, not
    /// of what the two have in common.
    pub fn do_bit_test(&mut self, opcode: &Opcode)
        requires
            opcode.mode.has_address(),
            opcode.bytes >= 1,
        ensures
            final(self)@ == old(self)@.bit_test(*opcode),
            final(self).reg.zero() == (old(self)@.operand(opcode.mode) & old(self).reg.a == 0),
            final(self).reg.negative() == (old(self)@.operand(opcode.mode) >= 0x80),
            final(self).reg.overflow() == (old(self)@.operand(opcode.mode) & 0b0100_0000 != 0),
            final(self).reg.a == old(self).reg.a,
    {
        let operand = self.get_operand_u8(opcode);
        self.reg.set_zero((operand & self.reg.a) == 0);
        let ghost after_zero = self.reg;
        self.reg.set_negative(operand & 0b1000_0000 != 0);
        let ghost after_negative = self.reg;
        self.reg.set_overflow(operand & 0b0100_0000 != 0);
        proof {
            assert((operand & 0b1000_0000 != 0) == (operand >= 0x80)) by (bit_vector);
            lemma_flag_kept(
                after_zero,
                BITMASK_NEGATIVE,
                BITMASK_ZERO,
                operand & 0b1000_0000 != 0,
            );
            lemma_flag_kept(
                after_negative,
                BITMASK_OVERFLOW,
                BITMASK_ZERO,
                operand & 0b0100_0000 != 0,
            );
            lemma_flag_kept(
                after_negative,
                BITMASK_OVERFLOW,
                BITMASK_NEGATIVE,
                operand & 0b0100_0000 != 0,
            );
        }

        self.increment_pc(opcode);
    }

    /// The branches. Each tests one flag. The program counter passes the
    /// operand; where the branch is taken it then moves by the operand, read
    /// as a signed offset. No flag changes.
    pub fn do_branch(&mut self, opcode: &Opcode)
        requires
            opcode.mnemonic.is_branch(),
            opcode.bytes >= 1,
        ensures
            final(self)@ == old(self)@.branch(*opcode),
    {
        let relative_offset = self.mem.read_u8(self.reg.pc);

        let taken = match &opcode.mnemonic {
            Mnemonic::BPL => !self.reg.get_negative(),
            Mnemonic::BMI => self.reg.get_negative(),
            Mnemonic::BVC => !self.reg.get_overflow(),
            Mnemonic::BVS => self.reg.get_overflow(),
            Mnemonic::BCC => !self.reg.get_carry(),
            Mnemonic::BCS => self.reg.get_carry(),
            Mnemonic::BNE => !self.reg.get_zero(),
            _ => self.reg.get_zero(),
        };
        // the offset counts from the end of the instruction
        self.increment_pc(opcode);
        if taken {
            self.reg.pc = relative_address(self.reg.pc, relative_offset);
        }
    }

    /// BRK: moves the program counter on by one and pushes it, then pushes
    /// the status word with bits 4 and 5 set. The status register itself
    /// keeps its value.
    pub fn do_break(&mut self, _opcode: &Opcode)
        ensures
            final(self)@ == old(self)@.break_(),
    {
        self.reg.pc = self.reg.pc.wrapping_add(1);
        self.push_u16(self.reg.pc);
        self.push_u8(self.reg.p | 0b0011_0000);
    }

    /// CMP, CPX, CPY: compares a register with the operand as unsigned
    /// numbers. C says that the register is at least the operand; N and Z
    /// describe the difference of the two, so Z says that they are equal.
    pub fn do_compare(&mut self, opcode: &Opcode)
        requires
            opcode.mnemonic.is_compare(),
            opcode.executable(),
        ensures
            final(self)@ == old(self)@.compare(*opcode),
            final(self).reg.carry() == (old(self)@.compared_register(opcode.mnemonic) >= old(
                self,
            )@.operand(opcode.mode)),
            final(self).reg.zero() == (old(self)@.compared_register(opcode.mnemonic) == old(
                self,
            )@.operand(opcode.mode)),
    {
        let operand = self.get_operand_u8(opcode);

        let base_value = match &opcode.mnemonic {
            Mnemonic::CMP => self.reg.a,
            Mnemonic::CPX => self.reg.x,
            _ => self.reg.y,
        };

        self.reg.set_carry(base_value >= operand);
        proof {
            lemma_zn_describes_value(self.reg, base_value.wrapping_sub(operand));
        }
        self.update_zn_from_value(base_value.wrapping_sub(operand));

        self.increment_pc(opcode);
    }

    /// DEC and INC: the addressed cell goes down or up by one, wrapping, and
    /// N and Z describe its new value.
    pub fn do_crement(&mut self, opcode: &Opcode)
        requires
            opcode.mnemonic.is_crement(),
            opcode.executable(),
        ensures
            final(self)@ == old(self)@.crement(*opcode),
    {
        let addr = self.get_operand_address(&opcode.mode);
        let value = self.mem.read_u8(addr);

        let result = match &opcode.mnemonic {
            Mnemonic::DEC => value.wrapping_sub(1),
            _ => value.wrapping_add(1),
        };

        self.mem.write_u8(addr, result);
        self.update_zn_from_value(result);

        self.increment_pc(opcode);
    }

    /// CLC, SEC, CLI, SEI, CLV, CLD, SED: sets or clears the one flag that
    /// the mnemonic names.
    pub fn do_update_flag(&mut self, opcode: &Opcode)
        requires
            opcode.mnemonic.is_flag_update(),
            opcode.bytes >= 1,
        ensures
            final(self)@ == old(self)@.update_flag(*opcode),
    {
        match &opcode.mnemonic {
            Mnemonic::CLC => self.reg.set_carry(false),
            Mnemonic::SEC => self.reg.set_carry(true),
            Mnemonic::CLI => self.reg.set_interrupt(false),
            Mnemonic::SEI => self.reg.set_interrupt(true),
            Mnemonic::CLV => self.reg.set_overflow(false),
            Mnemonic::CLD => self.reg.set_decimal(false),
            _ => self.reg.set_decimal(true),
        }

        self.increment_pc(opcode);
    }

    /// EOR: the accumulator is combined with the operand by exclusive or.
    pub fn do_bitwise_xor(&mut self, opcode: &Opcode)
        requires
            opcode.mode.has_address(),
            opcode.bytes >= 1,
        ensures
            final(self)@ == old(self)@.bitwise_xor(*opcode),
    {
        let operand = self.get_operand_u8(opcode);

        self.reg.a ^= operand;

        self.update_zn_from_accumulator();

        self.increment_pc(opcode);
    }

    /// JMP: the program counter becomes the resolved address, which is the
    /// target itself and not what lies there.
    pub fn do_jump(&mut self, opcode: &Opcode)
        requires
            opcode.mode.has_address(),
        ensures
            final(self)@ == old(self)@.jump(*opcode),
    {
        let destination = self.get_operand_address(&opcode.mode);
        self.reg.pc = destination;
    }

    /// JSR: pushes the address of the last byte of the instruction, from
    /// which RTS returns, and jumps to the resolved address.
    pub fn do_subroutine_jump(&mut self, opcode: &Opcode)
        requires
            opcode.mode.has_address(),
            opcode.bytes >= 1,
        ensures
            final(self)@ == old(self)@.subroutine_jump(*opcode),
    {
        let destination = self.get_operand_address(&opcode.mode);
        self.increment_pc(opcode);
        self.push_u16(self.reg.pc.wrapping_sub(1));
        self.reg.pc = destination;
    }

    /// LDA, LDX, LDY: the register takes the operand, and N and Z describe
    /// it.
    pub fn do_load(&mut self, opcode: &Opcode)
        requires
            opcode.mnemonic.is_load(),
            opcode.executable(),
        ensures
            final(self)@ == old(self)@.load(*opcode),
    {
        let operand = self.get_operand_u8(opcode);

        match &opcode.mnemonic {
            Mnemonic::LDA => self.reg.a = operand,
            Mnemonic::LDX => self.reg.x = operand,
            _ => self.reg.y = operand,
        }

        self.update_zn_from_value(operand);
        self.increment_pc(opcode);
    }

    /// NOP: only the program counter moves.
    pub fn do_nop(&mut self, opcode: &Opcode)
        requires
            opcode.bytes >= 1,
        ensures
            final(self)@ == old(self)@.nop(*opcode),
    {
        self.increment_pc(opcode);
    }

    /// ORA: the accumulator is combined with the operand by inclusive or.
    pub fn do_bitwise_or(&mut self, opcode: &Opcode)
        requires
            opcode.mode.has_address(),
            opcode.bytes >= 1,
        ensures
            final(self)@ == old(self)@.bitwise_or(*opcode),
    {
        let operand = self.get_operand_u8(opcode);

        self.reg.a |= operand;

        self.update_zn_from_accumulator();

        self.increment_pc(opcode);
    }

    /// TAX, TXA, TAY, TYA, DEX, DEY, INX, INY: copies a register, or moves
    /// one up or down by one with wrap-around. N and Z describe the value
    /// that was stored.
    pub fn do_register_update(&mut self, opcode: &Opcode)
        requires
            opcode.mnemonic.is_register_update(),
            opcode.bytes >= 1,
        ensures
            final(self)@ == old(self)@.register_update(*opcode),
    {
        let value = match &opcode.mnemonic {
            Mnemonic::TAX | Mnemonic::TAY => self.reg.a,
            Mnemonic::TXA => self.reg.x,
            Mnemonic::DEX => self.reg.x.wrapping_add(0xFF),
            Mnemonic::INX => self.reg.x.wrapping_add(0x01),
            Mnemonic::TYA => self.reg.y,
            Mnemonic::DEY => self.reg.y.wrapping_add(0xFF),
            _ => self.reg.y.wrapping_add(0x01),
        };

        match &opcode.mnemonic {
            Mnemonic::TAX | Mnemonic::DEX | Mnemonic::INX => self.reg.x = value,
            Mnemonic::TAY | Mnemonic::DEY | Mnemonic::INY => self.reg.y = value,
            _ => self.reg.a = value,
        };

        self.update_zn_from_value(value);
        self.increment_pc(opcode);
    }

    /// ROL: rotates the accumulator left through the carry. The carry comes
    /// in as bit 0, and bit 7 goes out into the carry. In every addressing
    /// mode it is the accumulator that is rotated.
    pub fn do_rotate_left(&mut self, opcode: &Opcode)
        requires
            opcode.bytes >= 1,
        ensures
            final(self)@ == old(self)@.rotate_left(*opcode),
    {
        let a = self.reg.a;
        let new_carry = is_negative(a);
        let carry = self.reg.get_carry();

        self.reg.a = if carry {
            assert((a << 1u8) | 1 == rotated_left(a, true)) by (bit_vector);
            (a << 1u8) | 0b0000_0001
        } else {
            assert(a << 1u8 == rotated_left(a, false)) by (bit_vector);
            a << 1u8
        };

        self.reg.set_carry(new_carry);
        self.update_zn_from_accumulator();
        self.increment_pc(opcode);
    }

    /// ROR: rotates the accumulator right through the carry. The carry comes
    /// in as bit 7, and bit 0 goes out into the carry. In every addressing
    /// mode it is the accumulator that is rotated.
    pub fn do_rotate_right(&mut self, opcode: &Opcode)
        requires
            opcode.bytes >= 1,
        ensures
            final(self)@ == old(self)@.rotate_right(*opcode),
    {
        let a = self.reg.a;
        assert((a & 1 != 0) == (a % 2 == 1)) by (bit_vector);
        let new_carry = a & 0b0000_0001 != 0;
        let carry = self.reg.get_carry();

        self.reg.a = if carry {
            assert((a >> 1u8) | 0x80 == rotated_right(a, true)) by (bit_vector);
            (a >> 1u8) | 0b1000_0000
        } else {
            assert(a >> 1u8 == rotated_right(a, false)) by (bit_vector);
            a >> 1u8
        };

        self.reg.set_carry(new_carry);
        self.update_zn_from_accumulator();
        self.increment_pc(opcode);
    }

    /// RTI: pulls the status word, then the program counter.
    pub fn do_return_from_interrupt(&mut self, _opcode: &Opcode)
        ensures
            final(self)@ == old(self)@.return_from_interrupt(),
    {
        self.reg.p = self.pull_u8();
        self.reg.pc = self.pull_u16();
    }

    /// RTS: pulls a word and continues at the address after it.
    pub fn do_return_from_subroutine(&mut self, _opcode: &Opcode)
        ensures
            final(self)@ == old(self)@.return_from_subroutine(),
    {
        self.reg.pc = self.pull_u16().wrapping_add(1);
    }

    /// TXS, TSX, PHA, PLA, PHP, PLP: moves a byte between a register and the
    /// stack pointer or the stack. PHP pushes the status word with bits 4
    /// and 5 set, and PLP drops those two bits from the byte it pulls. No
    /// other flag changes.
    pub fn do_stack_transfer(&mut self, opcode: &Opcode)
        requires
            opcode.mnemonic.is_stack_transfer(),
            opcode.bytes >= 1,
        ensures
            final(self)@ == old(self)@.stack_transfer(*opcode),
    {
        match &opcode.mnemonic {
            Mnemonic::TXS => self.reg.sp = self.reg.x,
            Mnemonic::TSX => self.reg.x = self.reg.sp,
            Mnemonic::PHA => self.push_u8(self.reg.a),
            Mnemonic::PLA => self.reg.a = self.pull_u8(),
            Mnemonic::PHP => self.push_u8(self.reg.p | 0b0011_0000),
            _ => self.reg.p = self.pull_u8() & !0b0011_0000,
        }

        self.increment_pc(opcode);
    }

    /// STA, STX, STY: writes the register to the resolved address. No flag
    /// changes.
    pub fn do_store_register(&mut self, opcode: &Opcode)
        requires
            opcode.mnemonic.is_store(),
            opcode.executable(),
        ensures
            final(self)@ == old(self)@.store_register(*opcode),
    {
        let addr = self.get_operand_address(&opcode.mode);
        self.mem.write_u8(
            addr,
            match &opcode.mnemonic {
                Mnemonic::STA => self.reg.a,
                Mnemonic::STX => self.reg.x,
                _ => self.reg.y,
            },
        );

        self.increment_pc(opcode);
    }

    /// A CPU with its registers at their power-up values and all of memory
    /// zero.
    pub fn new() -> (cpu: Self)
        ensures
            cpu@.reg == RegisterSet::initial(),
            cpu@.mem == Seq::new(0x10000, |i: int| 0u8),
    {
        CPU { reg: RegisterSet::default(), mem: SimpleMap::default() }
    }

    /// The byte at `addr`.
    pub fn read(&self, addr: u16) -> (value: u8)
        ensures
            value == self@.read(addr),
    {
        self.mem.read_u8(addr)
    }

    /// Copies `data` into memory from `addr` on. The registers stay.
    pub fn load(&mut self, addr: u16, data: &[u8])
        requires
            addr as int + data@.len() <= 0x10000,
        ensures
            final(self)@.reg == old(self)@.reg,
            final(self)@.mem == loaded(old(self)@.mem, addr as int, data@),
    {
        self.mem.load(addr, data);
    }

    /// Executes the one instruction whose opcode byte is `code`. The program
    /// counter first passes the opcode byte. Then the instruction that the
    /// table gives for `code` is executed: it consumes its operand bytes, or
    /// sets the program counter itself where it is a jump, a taken branch or a
    /// return.
    ///
    /// Fails where `code` is no legal opcode. The program counter has then
    /// passed the byte, and nothing else has changed.
    pub fn step(&mut self, code: u8) -> (r: Result<(), CpuError>)
        ensures
            final(self)@ == old(self)@.step(code),
            r is Ok <==> opcode_for(code) is Some,
            r matches Err(error) ==> error == (CpuError::UnimplementedOpcode {
                code,
                reg: final(self).reg,
            }),
    {
        self.reg.pc = self.reg.pc.wrapping_add(1);
        let opcode = match lookup(code) {
            Some(opcode) => opcode,
            None => {
                return Err(CpuError::UnimplementedOpcode { code, reg: self.reg });
            },
        };
        proof {
            lemma_table_entries(code);
        }
        let opcode = &opcode;

        match opcode.mnemonic {
            // Add or subtract
            Mnemonic::ADC | Mnemonic::SBC => self.do_add_sub(opcode),
            // Bitwise AND with accumulator
            Mnemonic::AND => self.do_and(opcode),
            // Arithmetic shift left
            Mnemonic::ASL => self.do_arithmetic_shift(opcode),
            // Test bits
            Mnemonic::BIT => self.do_bit_test(opcode),
            // Branch instructions
            Mnemonic::BPL
            | Mnemonic::BMI
            | Mnemonic::BVC
            | Mnemonic::BVS
            | Mnemonic::BCC
            | Mnemonic::BCS
            | Mnemonic::BNE
            | Mnemonic::BEQ => self.do_branch(opcode),
            Mnemonic::BRK => self.do_break(opcode),
            Mnemonic::CMP | Mnemonic::CPX | Mnemonic::CPY => self.do_compare(opcode),
            // 'crement memory
            Mnemonic::DEC | Mnemonic::INC => self.do_crement(opcode),
            // Bitwise exclusive OR
            Mnemonic::EOR => self.do_bitwise_xor(opcode),
            // Flag (processor status) instructions
            Mnemonic::CLC
            | Mnemonic::SEC
            | Mnemonic::CLI
            | Mnemonic::SEI
            | Mnemonic::CLV
            | Mnemonic::CLD
            | Mnemonic::SED => self.do_update_flag(opcode),
            // Jump
            Mnemonic::JMP => self.do_jump(opcode),
            Mnemonic::JSR => self.do_subroutine_jump(opcode),
            // Load register
            Mnemonic::LDA | Mnemonic::LDX | Mnemonic::LDY => self.do_load(opcode),
            // Logical shift right
            Mnemonic::LSR => self.do_logical_shift(opcode),
            // No operation
            Mnemonic::NOP => self.do_nop(opcode),
            // Bitwise OR with accumulator
            Mnemonic::ORA => self.do_bitwise_or(opcode),
            // Register instructions
            Mnemonic::TAX
            | Mnemonic::TXA
            | Mnemonic::TAY
            | Mnemonic::TYA
            | Mnemonic::DEX
            | Mnemonic::DEY
            | Mnemonic::INX
            | Mnemonic::INY => self.do_register_update(opcode),
            // Rotate
            Mnemonic::ROL => self.do_rotate_left(opcode),
            Mnemonic::ROR => self.do_rotate_right(opcode),
            // Return from interrupt
            Mnemonic::RTI => self.do_return_from_interrupt(opcode),
            // Return from subroutine
            Mnemonic::RTS => self.do_return_from_subroutine(opcode),
            // Store register
            Mnemonic::STA | Mnemonic::STX | Mnemonic::STY => self.do_store_register(opcode),
            // Stack instructions
            Mnemonic::TXS
            | Mnemonic::TSX
            | Mnemonic::PHA
            | Mnemonic::PLA
            | Mnemonic::PHP
            | Mnemonic::PLP => self.do_stack_transfer(opcode),
        }
        Ok(())
    }

    /// One turn of the run loop: fetches the byte at the program counter and,
    /// unless it is the BRK that ends a run, executes its instruction.
    /// Returns whether the CPU stood at a BRK, in which case nothing changed.
    pub fn tick(&mut self) -> (r: Result<bool, CpuError>)
        ensures
            old(self)@.halted() ==> r == Ok::<bool, CpuError>(true) && final(self)@ == old(self)@,
            !old(self)@.halted() ==> {
                let code = old(self)@.read(old(self).reg.pc);
                &&& final(self)@ == old(self)@.step(code)
                &&& opcode_for(code) is Some ==> r == Ok::<bool, CpuError>(false)
                &&& opcode_for(code) is None ==> r == Err::<bool, CpuError>(
                    CpuError::UnimplementedOpcode { code, reg: final(self).reg },
                )
            },
    {
        match self.mem.read_u8(self.reg.pc) {
            0x00 => Ok(true),
            opcode => {
                match self.step(opcode) {
                    Ok(()) => Ok(false),
                    Err(error) => Err(error),
                }
            },
        }
    }

    /// Runs the program from the program counter on, for at most `limit`
    /// instructions. The run ends well where the program counter comes to
    /// stand at a BRK, which is not executed. It fails where a byte is fetched
    /// that is no legal opcode, and where the limit is used up before a BRK
    /// is reached.
    pub fn run_steps(&mut self, limit: u64) -> (r: Result<(), CpuError>)
        ensures
            final(self)@ == old(self)@.run(limit as nat),
            r == old(self)@.run_result(limit as nat),
    {
        let mut left: u64 = limit;
        while left > 0
            invariant
                self@.run(left as nat) == old(self)@.run(limit as nat),
                self@.run_result(left as nat) == old(self)@.run_result(limit as nat),
            decreases left,
        {
            match self.tick() {
                Ok(true) => {
                    return Ok(());
                },
                Ok(false) => {},
                Err(error) => {
                    return Err(error);
                },
            }
            left -= 1;
        }
        if self.mem.read_u8(self.reg.pc) == 0x00 {
            Ok(())
        } else {
            Err(CpuError::StepLimit)
        }
    }

    /// Runs the program from the program counter on until it comes to stand
    /// at a BRK. A run of more than `RUN_LIMIT` instructions is cut short
    /// there.
    pub fn run(&mut self) -> (r: Result<(), CpuError>)
        ensures
            final(self)@ == old(self)@.run(RUN_LIMIT as nat),
            r == old(self)@.run_result(RUN_LIMIT as nat),
    {
        self.run_steps(RUN_LIMIT)
    }

    /// Runs like `run`, and calls `callback` on the CPU before each fetch.
    /// The callback may change registers and memory. Where it fails, the run
    /// ends at once with its error.
    ///
    /// Whatever the callback does: a run that ends well has come to stand at
    /// a BRK; a byte that is reported as no legal opcode is none, and lies in
    /// front of the program counter; a run that is cut short at `RUN_LIMIT`
    /// instructions does not stand at a BRK; and an error of the callback is
    /// one that the callback returned, the CPU being as the callback left
    /// it.
    ///
    /// A callback that fails on the state in which the run starts ends the
    /// run there with its error: no instruction is executed.
    ///
    /// Where the state of the CPU alone decides what the callback does, the
    /// run is `hooked_run`: it ends with the first failure of the callback,
    /// after which nothing is fetched or executed. With a callback that
    /// always succeeds and changes nothing, the run is that of `run`.
    pub fn run_with_callback<F, E>(&mut self, callback: F) -> (r: Result<(), RunError<E>>)
        where F: FnMut(&mut CPU) -> Result<(), E>
        requires
            forall|cpu: &mut CPU| call_requires(callback, (cpu,)),
        ensures
            r is Ok ==> final(self)@.halted(),
            r matches Err(RunError::Cpu(CpuError::UnimplementedOpcode { code, reg })) ==> {
                &&& opcode_for(code) is None
                &&& reg == final(self).reg
                &&& final(self)@.read(reg.pc.wrapping_sub(1)) == code
            },
            r matches Err(RunError::Cpu(CpuError::StepLimit)) ==> !final(self)@.halted(),
            r matches Err(RunError::Observer(error)) ==> exists|cpu: &mut CPU|
                #[trigger] call_ensures(callback, (cpu,), Err::<(), E>(error)) && final(cpu)@
                    == final(self)@,
            (forall|cpu: &mut CPU, result: Result<(), E>|
                call_ensures(callback, (cpu,), result) ==> result is Ok && final(cpu)@ == cpu@)
                ==> {
                &&& final(self)@ == old(self)@.run(RUN_LIMIT as nat)
                &&& r is Ok <==> old(self)@.run_result(RUN_LIMIT as nat) is Ok
                &&& r matches Err(RunError::Cpu(error)) ==> old(self)@.run_result(RUN_LIMIT as nat)
                    == Err::<(), CpuError>(error)
                &&& !(r matches Err(RunError::Observer(_)))
            },
            (forall|cpu: &mut CPU, result: Result<(), E>|
                call_ensures(callback, (cpu,), result) && cpu@ == old(self)@ ==> result is Err)
                ==> (r matches Err(RunError::Observer(error)) && exists|cpu: &mut CPU|
                #[trigger] call_ensures(callback, (cpu,), Err::<(), E>(error)) && cpu@ == old(
                    self,
                )@ && final(cpu)@ == final(self)@),
            forall|change: spec_fn(CpuState) -> CpuState, fails: spec_fn(CpuState) -> bool|
                (forall|cpu: &mut CPU, result: Result<(), E>|
                    call_ensures(callback, (cpu,), result) ==> final(cpu)@ == change(cpu@) && (
                    result is Err <==> fails(cpu@))) ==> (final(self)@, end_of(r)) == (
                #[trigger] old(self)@.hooked_run(change, fails, RUN_LIMIT as nat)),
    {
        let mut hook = callback;
        let mut left: u64 = RUN_LIMIT;
        while left > 0
            invariant
                hook == callback,
                forall|cpu: &mut CPU| call_requires(callback, (cpu,)),
                (forall|cpu: &mut CPU, result: Result<(), E>|
                    call_ensures(callback, (cpu,), result) && cpu@ == old(self)@ ==> result is Err)
                    ==> self@ == old(self)@ && left == RUN_LIMIT,
                forall|change: spec_fn(CpuState) -> CpuState, fails: spec_fn(CpuState) -> bool|
                    (forall|cpu: &mut CPU, result: Result<(), E>|
                        call_ensures(callback, (cpu,), result) ==> final(cpu)@ == change(cpu@)
                            && (result is Err <==> fails(cpu@))) ==> self@.hooked_run(
                        change,
                        fails,
                        left as nat,
                    ) == (#[trigger] old(self)@.hooked_run(change, fails, RUN_LIMIT as nat)),
                (forall|cpu: &mut CPU, result: Result<(), E>|
                    call_ensures(callback, (cpu,), result) ==> result is Ok && final(cpu)@ == cpu@)
                    ==> {
                    &&& self@.run(left as nat) == old(self)@.run(RUN_LIMIT as nat)
                    &&& self@.run_result(left as nat) == old(self)@.run_result(RUN_LIMIT as nat)
                },
            decreases left,
        {
            let ghost before = self@;
            let heard = hook(self);
            let ghost seen = heard;
            if let Err(error) = heard {
                let failure = Err(RunError::Observer(error));
                assert(failure matches Err(RunError::Observer(told)) && seen == Err::<(), E>(told));
                assert(exists|cpu: &mut CPU|
                    #[trigger] call_ensures(callback, (cpu,), seen) && cpu@ == before
                        && final(cpu)@ == self@);
                assert(failure matches Err(RunError::Observer(told)) && exists|cpu: &mut CPU|
                    #[trigger] call_ensures(callback, (cpu,), Err::<(), E>(told)) && cpu@
                        == before && final(cpu)@ == self@);
                return failure;
            }
            match self.tick() {
                Ok(true) => {
                    return Ok(());
                },
                Ok(false) => {},
                Err(error) => {
                    return Err(RunError::Cpu(error));
                },
            }
            left -= 1;
        }
        if self.mem.read_u8(self.reg.pc) == 0x00 {
            Ok(())
        } else {
            Err(RunError::Cpu(CpuError::StepLimit))
        }
    }

    /// Puts the registers back to their power-up values and takes the program
    /// counter from the reset vector at 0xFFFC.
    pub fn interrupt_reset(&mut self)
        ensures
            final(self)@ == old(self)@.reset(),
    {
        self.reg.reset();
        self.reg.pc = self.mem.read_u16(PRG_START_ADDR);
    }

    /// Copies `program` to 0x8000 and points the reset vector there.
    pub fn load_program(&mut self, program: &[u8])
        requires
            program@.len() <= 0x8000,
        ensures
            final(self)@ == (CpuState {
                mem: loaded(old(self)@.mem, PRG_ROM_ADDR_MIN as int, program@),
                ..old(self)@
            }).write_word(PRG_START_ADDR, PRG_ROM_ADDR_MIN),
    {
        self.mem.load(PRG_ROM_ADDR_MIN, program);
        self.mem.write_u16(0xFFFC, PRG_ROM_ADDR_MIN);
    }
}

} // verus!
