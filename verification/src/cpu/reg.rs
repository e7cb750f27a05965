//! The register file and the packed status word.
use vstd::prelude::*;

verus! {

/// Bit 7 of the status word: the last result was negative.
pub const BITMASK_NEGATIVE: u8 = 0b1000_0000;

/// Bit 6 of the status word: the last addition overflowed as a signed sum.
pub const BITMASK_OVERFLOW: u8 = 0b0100_0000;

/// Bit 4 of the status word: set in the copy that BRK and PHP push.
pub const BITMASK_BREAK: u8 = 0b0001_0000;

/// Bit 3 of the status word: decimal mode, which the 2A03 ignores.
pub const BITMASK_DECIMAL: u8 = 0b0000_1000;

/// Bit 2 of the status word: interrupts are disabled.
pub const BITMASK_INTERRUPT: u8 = 0b0000_0100;

/// Bit 1 of the status word: the last result was zero.
pub const BITMASK_ZERO: u8 = 0b0000_0010;

/// Bit 0 of the status word: carry out of the last addition, shift or compare.
pub const BITMASK_CARRY: u8 = 0b0000_0001;

/// Bits 4 and 5 of the status word, which exist only in its pushed copies.
pub const BITMASK_PUSHED: u8 = 0b0011_0000;

/// Whether `mask` is one of the seven flag masks.
pub open spec fn is_flag_mask(mask: u8) -> bool {
    mask == BITMASK_NEGATIVE || mask == BITMASK_OVERFLOW || mask == BITMASK_BREAK || mask
        == BITMASK_DECIMAL || mask == BITMASK_INTERRUPT || mask == BITMASK_ZERO || mask
        == BITMASK_CARRY
}

/// Whether any bit of `mask` is set in the status word `p`.
pub open spec fn status_has(p: u8, mask: u8) -> bool {
    p & mask != 0
}

/// The status word `p` with the bits of `mask` set or cleared.
pub open spec fn status_with(p: u8, mask: u8, value: bool) -> u8 {
    if value {
        p | mask
    } else {
        p & !mask
    }
}

/// The registers of the CPU. `p` packs the flags as N V _ B D I Z C.
#[derive(Debug, Clone, Copy, PartialEq, Eq, Structural)]
pub struct RegisterSet {
    /// Program counter
    pub pc: u16,
    /// Stack pointer, an offset into the page at 0x0100
    pub sp: u8,
    /// Accumulator
    pub a: u8,
    /// Index register X
    pub x: u8,
    /// Index register Y
    pub y: u8,
    /// Processor status word
    pub p: u8,
}

impl RegisterSet {
    /// The state after power-up or reset: the stack pointer at the top of the
    /// stack page and every other register zero.
    pub open spec fn initial() -> RegisterSet {
        RegisterSet { pc: 0, sp: 0xFF, a: 0, x: 0, y: 0, p: 0 }
    }

    /// Whether the flag under `mask` is set.
    pub open spec fn flag(self, mask: u8) -> bool {
        status_has(self.p, mask)
    }

    /// These registers with the flag under `mask` set to `value`.
    pub open spec fn with_flag(self, mask: u8, value: bool) -> RegisterSet {
        RegisterSet { p: status_with(self.p, mask, value), ..self }
    }

    /// These registers with N and Z describing `value`: N is its bit 7 and Z
    /// says that it is zero.
    pub open spec fn with_zn(self, value: u8) -> RegisterSet {
        self.with_flag(BITMASK_NEGATIVE, value >= 0x80).with_flag(BITMASK_ZERO, value == 0)
    }

    pub open spec fn negative(self) -> bool {
        self.flag(BITMASK_NEGATIVE)
    }

    pub open spec fn overflow(self) -> bool {
        self.flag(BITMASK_OVERFLOW)
    }

    pub open spec fn break_flag(self) -> bool {
        self.flag(BITMASK_BREAK)
    }

    pub open spec fn decimal(self) -> bool {
        self.flag(BITMASK_DECIMAL)
    }

    pub open spec fn interrupt(self) -> bool {
        self.flag(BITMASK_INTERRUPT)
    }

    pub open spec fn zero(self) -> bool {
        self.flag(BITMASK_ZERO)
    }

    pub open spec fn carry(self) -> bool {
        self.flag(BITMASK_CARRY)
    }

    /// Sets or clears the bits of `bitmask` in the status word and leaves
    /// everything else as it was.
    pub fn set_flag(&mut self, bitmask: u8, value: bool)
        ensures
            *final(self) == old(self).with_flag(bitmask, value),
    {
        if value {
            self.p |= bitmask;
        } else {
            self.p &= !bitmask;
        }
    }

    pub fn get_negative(&mut self) -> (r: bool)
        ensures
            *final(self) == *old(self),
            r == old(self).negative(),
    {
        (self.p & BITMASK_NEGATIVE) != 0
    }

    pub fn set_negative(&mut self, value: bool)
        ensures
            *final(self) == old(self).with_flag(BITMASK_NEGATIVE, value),
            final(self).negative() == value,
    {
        proof {
            lemma_flag_written(*self, BITMASK_NEGATIVE, value);
        }
        self.set_flag(BITMASK_NEGATIVE, value);
    }

    pub fn get_overflow(&mut self) -> (r: bool)
        ensures
            *final(self) == *old(self),
            r == old(self).overflow(),
    {
        (self.p & BITMASK_OVERFLOW) != 0
    }

    pub fn set_overflow(&mut self, value: bool)
        ensures
            *final(self) == old(self).with_flag(BITMASK_OVERFLOW, value),
            final(self).overflow() == value,
    {
        proof {
            lemma_flag_written(*self, BITMASK_OVERFLOW, value);
        }
        self.set_flag(BITMASK_OVERFLOW, value);
    }

    pub fn get_break(&mut self) -> (r: bool)
        ensures
            *final(self) == *old(self),
            r == old(self).break_flag(),
    {
        (self.p & BITMASK_BREAK) != 0
    }

    pub fn set_break(&mut self, value: bool)
        ensures
            *final(self) == old(self).with_flag(BITMASK_BREAK, value),
            final(self).break_flag() == value,
    {
        proof {
            lemma_flag_written(*self, BITMASK_BREAK, value);
        }
        self.set_flag(BITMASK_BREAK, value);
    }

    pub fn get_decimal(&mut self) -> (r: bool)
        ensures
            *final(self) == *old(self),
            r == old(self).decimal(),
    {
        (self.p & BITMASK_DECIMAL) != 0
    }

    pub fn set_decimal(&mut self, value: bool)
        ensures
            *final(self) == old(self).with_flag(BITMASK_DECIMAL, value),
            final(self).decimal() == value,
    {
        proof {
            lemma_flag_written(*self, BITMASK_DECIMAL, value);
        }
        self.set_flag(BITMASK_DECIMAL, value);
    }

    pub fn get_interrupt(&mut self) -> (r: bool)
        ensures
            *final(self) == *old(self),
            r == old(self).interrupt(),
    {
        (self.p & BITMASK_INTERRUPT) != 0
    }

    pub fn set_interrupt(&mut self, value: bool)
        ensures
            *final(self) == old(self).with_flag(BITMASK_INTERRUPT, value),
            final(self).interrupt() == value,
    {
        proof {
            lemma_flag_written(*self, BITMASK_INTERRUPT, value);
        }
        self.set_flag(BITMASK_INTERRUPT, value);
    }

    pub fn get_zero(&mut self) -> (r: bool)
        ensures
            *final(self) == *old(self),
            r == old(self).zero(),
    {
        (self.p & BITMASK_ZERO) != 0
    }

    pub fn set_zero(&mut self, value: bool)
        ensures
            *final(self) == old(self).with_flag(BITMASK_ZERO, value),
            final(self).zero() == value,
    {
        proof {
            lemma_flag_written(*self, BITMASK_ZERO, value);
        }
        self.set_flag(BITMASK_ZERO, value);
    }

    pub fn get_carry(&mut self) -> (r: bool)
        ensures
            *final(self) == *old(self),
            r == old(self).carry(),
    {
        (self.p & BITMASK_CARRY) != 0
    }

    pub fn set_carry(&mut self, value: bool)
        ensures
            *final(self) == old(self).with_flag(BITMASK_CARRY, value),
            final(self).carry() == value,
    {
        proof {
            lemma_flag_written(*self, BITMASK_CARRY, value);
        }
        self.set_flag(BITMASK_CARRY, value);
    }

    /// Puts every register back to its power-up value.
    pub fn reset(&mut self)
        ensures
            *final(self) == RegisterSet::initial(),
    {
        *self = RegisterSet::default();
    }
}

impl Default for RegisterSet {
    fn default() -> (r: RegisterSet)
        ensures
            r == RegisterSet::initial(),
    {
        RegisterSet { pc: u16::MIN, sp: u8::MAX, a: u8::MIN, x: u8::MIN, y: u8::MIN, p: u8::MIN }
    }
}

/// A flag reads back as what was last written to it.
pub proof fn lemma_flag_written(reg: RegisterSet, mask: u8, value: bool)
    requires
        is_flag_mask(mask),
    ensures
        reg.with_flag(mask, value).flag(mask) == value,
{
    let p = reg.p;
    assert(is_flag_mask(mask) ==> (status_has(status_with(p, mask, value), mask) == value))
        by (bit_vector);
}

/// Writing one flag leaves each of the other six as it was.
pub proof fn lemma_flag_kept(reg: RegisterSet, mask: u8, other: u8, value: bool)
    requires
        is_flag_mask(mask),
        is_flag_mask(other),
        mask != other,
    ensures
        reg.with_flag(mask, value).flag(other) == reg.flag(other),
{
    let p = reg.p;
    assert(is_flag_mask(mask) && is_flag_mask(other) && mask != other ==> status_with(
        p,
        mask,
        value,
    ) & other == p & other) by (bit_vector);
}

/// Z is set exactly for the value zero and N exactly for values from 0x80 up,
/// whatever the flags were before; the other five flags stay.
pub proof fn lemma_zn_describes_value(reg: RegisterSet, value: u8)
    ensures
        reg.with_zn(value).zero() == (value == 0),
        reg.with_zn(value).negative() == (value >= 0x80),
        reg.with_zn(value).carry() == reg.carry(),
        reg.with_zn(value).overflow() == reg.overflow(),
        reg.with_zn(value).interrupt() == reg.interrupt(),
        reg.with_zn(value).decimal() == reg.decimal(),
        reg.with_zn(value).break_flag() == reg.break_flag(),
        reg.with_zn(value) == (RegisterSet { p: reg.with_zn(value).p, ..reg }),
{
    let p = reg.p;
    let n = value >= 0x80;
    let z = value == 0;
    let q = status_with(status_with(p, BITMASK_NEGATIVE, n), BITMASK_ZERO, z);
    assert(reg.with_zn(value).p == q);
    assert(status_has(q, BITMASK_ZERO) == z) by (bit_vector)
        requires
            q == status_with(status_with(p, BITMASK_NEGATIVE, n), BITMASK_ZERO, z),
    ;
    assert(status_has(q, BITMASK_NEGATIVE) == n) by (bit_vector)
        requires
            q == status_with(status_with(p, BITMASK_NEGATIVE, n), BITMASK_ZERO, z),
    ;
    assert(q & 0b0111_1101 == p & 0b0111_1101) by (bit_vector)
        requires
            q == status_with(status_with(p, BITMASK_NEGATIVE, n), BITMASK_ZERO, z),
    ;
    assert(forall|m: u8| m & 0b1000_0010 == 0 ==> #[trigger] (q & m) == p & m) by (bit_vector)
        requires
            q & 0b0111_1101 == p & 0b0111_1101,
    ;
    assert(BITMASK_CARRY & 0b1000_0010 == 0 && BITMASK_OVERFLOW & 0b1000_0010 == 0
        && BITMASK_INTERRUPT & 0b1000_0010 == 0 && BITMASK_DECIMAL & 0b1000_0010 == 0
        && BITMASK_BREAK & 0b1000_0010 == 0) by (bit_vector);
}

} // verus!
