//! Laws of the machine model: what holds of every state and every operand.
use vstd::prelude::*;

use crate::cpu::addr::AddressMode;
use crate::cpu::model::{
    adc_carry, adc_overflow, adc_value, branch_target, carry_in, sbc_carry, sbc_overflow,
    sbc_value, signed, CpuState,
};
use crate::cpu::ops::{lemma_table_lengths, opcode_for, Mnemonic, Opcode};
use crate::cpu::reg::{
    lemma_flag_kept, lemma_flag_written, lemma_zn_describes_value, RegisterSet, BITMASK_CARRY,
    BITMASK_NEGATIVE, BITMASK_OVERFLOW, BITMASK_ZERO,
};
use crate::memory::{high_byte, low_byte, word};

verus! {

/// Addition with carry: the accumulator takes the sum modulo 256. C is set
/// exactly when the unsigned sum of accumulator, operand and carry-in exceeds
/// 255, and V exactly when the sum of the three, accumulator and operand read
/// as signed bytes, lies outside -128 to 127. Z and N describe the new
/// accumulator.
pub proof fn lemma_add_flags(state: CpuState, operand: u8, carry: bool)
    ensures
        state.add(operand, carry).reg.a == (state.reg.a + operand + carry_in(carry)) % 256,
        state.add(operand, carry).reg.carry() == (state.reg.a + operand + carry_in(carry) > 255),
        state.add(operand, carry).reg.overflow() == !(-128 <= signed(state.reg.a) + signed(
            operand,
        ) + carry_in(carry) <= 127),
        state.add(operand, carry).reg.zero() == (state.add(operand, carry).reg.a == 0),
        state.add(operand, carry).reg.negative() == (state.add(operand, carry).reg.a >= 0x80),
        state.add(operand, carry).mem == state.mem,
{
    let a = state.reg.a;
    let value = adc_value(a, operand, carry);
    let with_a = (RegisterSet { a: value, ..state.reg }).with_zn(value);
    let with_c = with_a.with_flag(BITMASK_CARRY, adc_carry(a, operand, carry));
    let with_v = with_c.with_flag(BITMASK_OVERFLOW, adc_overflow(a, operand, carry));
    assert(state.add(operand, carry).reg == with_v);
    lemma_zn_describes_value(RegisterSet { a: value, ..state.reg }, value);
    lemma_flag_written(with_a, BITMASK_CARRY, adc_carry(a, operand, carry));
    lemma_flag_kept(with_a, BITMASK_CARRY, BITMASK_ZERO, adc_carry(a, operand, carry));
    lemma_flag_kept(with_a, BITMASK_CARRY, BITMASK_NEGATIVE, adc_carry(a, operand, carry));
    lemma_flag_written(with_c, BITMASK_OVERFLOW, adc_overflow(a, operand, carry));
    lemma_flag_kept(with_c, BITMASK_OVERFLOW, BITMASK_CARRY, adc_overflow(a, operand, carry));
    lemma_flag_kept(with_c, BITMASK_OVERFLOW, BITMASK_ZERO, adc_overflow(a, operand, carry));
    lemma_flag_kept(with_c, BITMASK_OVERFLOW, BITMASK_NEGATIVE, adc_overflow(a, operand, carry));
}

/// Subtracting a byte with borrow is adding its complement with carry: the
/// two give the same accumulator, the same carry and the same overflow.
pub proof fn lemma_subtract_is_add_of_complement(a: u8, operand: u8, carry: bool)
    ensures
        sbc_value(a, operand, carry) == adc_value(a, !operand, carry),
        sbc_carry(a, operand, carry) == adc_carry(a, !operand, carry),
        sbc_overflow(a, operand, carry) == adc_overflow(a, !operand, carry),
{
    assert(!operand == 255 - operand) by (bit_vector);
}

/// SBC of an operand leaves the machine in the state in which ADC of the
/// operand's complement leaves it, for every state, operand and carry.
pub proof fn lemma_subtract_is_add(state: CpuState, operand: u8, carry: bool)
    ensures
        state.subtract(operand, carry) == state.add(!operand, carry),
{
    lemma_subtract_is_add_of_complement(state.reg.a, operand, carry);
}

/// A byte that was pushed is the byte that the next pull returns, and the
/// pull leaves the registers as they were before the push.
pub proof fn lemma_push_pull(state: CpuState, value: u8)
    requires
        state.well_formed(),
    ensures
        state.push(value).pulled() == value,
        state.push(value).pull().reg == state.reg,
{
}

/// A word that was pushed is the word that the next pull of a word returns,
/// and that pull leaves the stack pointer, and every other register, as it
/// was before the push. This holds as well where the stack pointer wraps
/// around within the stack page on the way.
pub proof fn lemma_push_pull_word(state: CpuState, value: u16)
    requires
        state.well_formed(),
    ensures
        state.push_word(value).pulled_word() == value,
        state.push_word(value).pull_word().reg == state.reg,
{
    let first = state.push(high_byte(value));
    let second = first.push(low_byte(value));
    assert(second.pulled() == low_byte(value));
    assert(second.pull().reg == first.reg);
    assert(second.pull().pulled() == high_byte(value));
    assert(second.pull().pull().reg == state.reg);
}

/// BIT takes N and V from bits 7 and 6 of the operand, whatever the
/// accumulator holds; only Z depends on the accumulator. The accumulator and
/// memory stay.
pub proof fn lemma_bit_test_flags(state: CpuState, opcode: Opcode)
    ensures
        state.bit_test(opcode).reg.negative() == (state.operand(opcode.mode) >= 0x80),
        state.bit_test(opcode).reg.overflow() == (state.operand(opcode.mode) & 0b0100_0000 != 0),
        state.bit_test(opcode).reg.zero() == (state.operand(opcode.mode) & state.reg.a == 0),
        state.bit_test(opcode).reg.a == state.reg.a,
        state.bit_test(opcode).mem == state.mem,
{
    let operand = state.operand(opcode.mode);
    let z = operand & state.reg.a == 0;
    let n = operand & 0b1000_0000 != 0;
    let v = operand & 0b0100_0000 != 0;
    let with_z = state.reg.with_flag(BITMASK_ZERO, z);
    let with_n = with_z.with_flag(BITMASK_NEGATIVE, n);
    let with_v = with_n.with_flag(BITMASK_OVERFLOW, v);
    assert((operand & 0b1000_0000 != 0) == (operand >= 0x80)) by (bit_vector);
    lemma_flag_written(state.reg, BITMASK_ZERO, z);
    lemma_flag_written(with_z, BITMASK_NEGATIVE, n);
    lemma_flag_kept(with_z, BITMASK_NEGATIVE, BITMASK_ZERO, n);
    lemma_flag_written(with_n, BITMASK_OVERFLOW, v);
    lemma_flag_kept(with_n, BITMASK_OVERFLOW, BITMASK_ZERO, v);
    lemma_flag_kept(with_n, BITMASK_OVERFLOW, BITMASK_NEGATIVE, v);
}

/// The zero-page indexed modes stay in page zero: the index is added to the
/// operand byte modulo 256.
pub proof fn lemma_zero_page_index_wraps(state: CpuState)
    requires
        state.well_formed(),
    ensures
        state.operand_address(AddressMode::ZeroPageX) == (state.read(state.reg.pc) + state.reg.x)
            % 256,
        state.operand_address(AddressMode::ZeroPageY) == (state.read(state.reg.pc) + state.reg.y)
            % 256,
{
}

/// The two indirect modes through page zero read both bytes of their pointer
/// from page zero. In the indexed-indirect mode the pointer lies at the
/// operand byte plus X, taken modulo 256, and its high byte at the cell after
/// that, again modulo 256: the cell after 0xFF is 0x00, not 0x100. In the
/// indirect-indexed mode the pointer lies at the operand byte, its high byte
/// in the same way at the next cell of page zero, and Y is added to the word
/// found there modulo 65536.
pub proof fn lemma_indirect_pointer_wraps(state: CpuState)
    requires
        state.well_formed(),
    ensures
        ({
            let low = (state.read(state.reg.pc) + state.reg.x) % 256;
            let high = (state.read(state.reg.pc) + state.reg.x + 1) % 256;
            state.operand_address(AddressMode::IndirectX) == word(state.mem[low], state.mem[high])
        }),
        ({
            let low = state.read(state.reg.pc) as int;
            let high = (state.read(state.reg.pc) + 1) % 256;
            state.operand_address(AddressMode::IndirectY) == (word(
                state.mem[low],
                state.mem[high],
            ) + state.reg.y) % 0x10000
        }),
{
}

impl Mnemonic {
    /// Whether an instruction with this mnemonic sets the program counter
    /// itself: the jumps, the returns, BRK and the branches.
    pub open spec fn sets_pc(self) -> bool {
        self is JMP || self is JSR || self is RTS || self is RTI || self is BRK
            || self.is_branch()
    }
}

/// An instruction that does not set the program counter itself moves it past
/// its operand bytes and no further.
pub proof fn lemma_execute_skips_operand(state: CpuState, opcode: Opcode)
    requires
        opcode.bytes >= 1,
        !opcode.mnemonic.sets_pc(),
    ensures
        state.execute(opcode).reg.pc == state.reg.pc.wrapping_add((opcode.bytes - 1) as u16),
{
}

/// One step on a legal opcode that does not set the program counter itself
/// moves the program counter by the length of the instruction: by one for
/// the opcode byte and by the number of operand bytes of its addressing
/// mode, wrapping at the end of the address space. An instruction in the
/// implicit or the accumulator mode, which has no operand, moves it by one.
pub proof fn lemma_step_length(state: CpuState, code: u8)
    requires
        opcode_for(code) is Some,
        !opcode_for(code)->0.mnemonic.sets_pc(),
    ensures
        state.step(code).reg.pc == (state.reg.pc + 1 + opcode_for(code)->0.mode.operand_len())
            % 0x10000,
{
    let opcode = opcode_for(code)->0;
    lemma_table_lengths(code);
    lemma_execute_skips_operand(state.advance(1), opcode);
}

/// A branch that is not taken moves the program counter by the length of
/// the instruction, and one that is taken moves it on from there by its
/// signed offset.
pub proof fn lemma_branch_length(state: CpuState, code: u8)
    requires
        state.well_formed(),
        opcode_for(code) is Some,
        opcode_for(code)->0.mnemonic.is_branch(),
    ensures
        ({
            let after = state.advance(1);
            let next = ((state.reg.pc + 2) % 0x10000) as u16;
            state.step(code).reg.pc == if after.branch_taken(opcode_for(code)->0.mnemonic) {
                branch_target(next, after.read(after.reg.pc))
            } else {
                next
            }
        }),
{
    lemma_table_lengths(code);
}

} // verus!
