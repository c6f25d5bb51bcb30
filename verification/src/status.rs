//! The processor-status register: where each flag lives, and how the register
//! is packed into the byte that goes on the stack.

use vstd::prelude::*;
use crate::cpu::Cpu;
use crate::word::{bit, bit_of, lemma_end_bits};

verus! {

/// Position of the negative flag in the status register.
pub const FLAG_NEGATIVE: u8 = 0;

/// Position of the overflow flag in the status register.
pub const FLAG_OVERFLOW: u8 = 1;

/// Position of the break flag in the status register.
pub const FLAG_BREAK: u8 = 2;

/// Position of the decimal flag in the status register.
pub const FLAG_DECIMAL: u8 = 3;

/// Position of the interrupt-disable flag in the status register.
pub const FLAG_INTERRUPT: u8 = 4;

/// Position of the zero flag in the status register.
pub const FLAG_ZERO: u8 = 5;

/// Position of the carry flag in the status register.
pub const FLAG_CARRY: u8 = 6;

/// The two bits of a packed status byte that stand for no flag and always read
/// as one.
pub const STATUS_UNUSED: u8 = 0x30;

/// `status` with the flag at `offset` set to `value`.
pub open spec fn flag_written(status: u8, offset: u8, value: bool) -> u8 {
    if value {
        status | (1u8 << offset)
    } else {
        status & !(1u8 << offset)
    }
}

/// The status byte as it is pushed on the stack: negative in bit 7, overflow in
/// bit 6, decimal in bit 3, interrupt-disable in bit 2, zero in bit 1, carry in
/// bit 0, and bits 5 and 4 set.
pub open spec fn packed_status(
    negative: bool,
    overflow: bool,
    decimal: bool,
    interrupt: bool,
    zero: bool,
    carry: bool,
) -> u8 {
    STATUS_UNUSED | (if negative {
        0x80u8
    } else {
        0u8
    }) | (if overflow {
        0x40u8
    } else {
        0u8
    }) | (if decimal {
        0x08u8
    } else {
        0u8
    }) | (if interrupt {
        0x04u8
    } else {
        0u8
    }) | (if zero {
        0x02u8
    } else {
        0u8
    }) | (if carry {
        0x01u8
    } else {
        0u8
    })
}

/// Writing a flag sets that flag and leaves every other bit of the register as
/// it was.
pub proof fn lemma_flag_written(status: u8, offset: u8, value: bool)
    by (bit_vector)
    requires
        offset < 8,
    ensures
        forall|other: u8|
            other < 8 ==> bit(flag_written(status, offset, value), other) == (if other == offset {
                value
            } else {
                bit(status, other)
            }),
{
}

/// Each bit of a packed status byte: the six flags at their positions, and the
/// two unused bits set.
pub proof fn lemma_packed_status_bits(
    negative: bool,
    overflow: bool,
    decimal: bool,
    interrupt: bool,
    zero: bool,
    carry: bool,
)
    by (bit_vector)
    ensures
        bit(packed_status(negative, overflow, decimal, interrupt, zero, carry), 7) == negative,
        bit(packed_status(negative, overflow, decimal, interrupt, zero, carry), 6) == overflow,
        bit(packed_status(negative, overflow, decimal, interrupt, zero, carry), 5),
        bit(packed_status(negative, overflow, decimal, interrupt, zero, carry), 4),
        bit(packed_status(negative, overflow, decimal, interrupt, zero, carry), 3) == decimal,
        bit(packed_status(negative, overflow, decimal, interrupt, zero, carry), 2) == interrupt,
        bit(packed_status(negative, overflow, decimal, interrupt, zero, carry), 1) == zero,
        bit(packed_status(negative, overflow, decimal, interrupt, zero, carry), 0) == carry,
        packed_status(negative, overflow, decimal, interrupt, zero, carry) & STATUS_UNUSED
            == STATUS_UNUSED,
{
}

impl Cpu {
    /// Reads the flag at `offset` of the status register.
    pub fn get_flag(&self, offset: u8) -> (value: bool)
        requires
            offset < 8,
        ensures
            value == self@.flag(offset),
    {
        (self.processor_status >> offset) & 1 == 1
    }

    /// Writes the flag at `offset` of the status register.
    pub fn set_flag(&mut self, val: bool, offset: u8)
        requires
            offset < 8,
        ensures
            final(self)@ == old(self)@.with_flag(offset, val),
    {
        if val {
            self.processor_status |= 1 << offset;
        } else {
            self.processor_status &= !(1 << offset);
        }
    }

    pub fn get_flag_carry(&self) -> (value: bool)
        ensures
            value == self@.carry(),
    {
        self.get_flag(FLAG_CARRY)
    }

    pub fn set_flag_carry(&mut self, val: bool)
        ensures
            final(self)@ == old(self)@.with_flag(FLAG_CARRY, val),
    {
        self.set_flag(val, FLAG_CARRY)
    }

    /// Sets carry when a sum does not fit in a byte.
    pub fn set_flag_carry_by_val(&mut self, val: u16)
        ensures
            final(self)@ == old(self)@.with_flag(FLAG_CARRY, val > 0xFF),
    {
        self.set_flag_carry(val > 0xFF)
    }

    pub fn get_flag_zero(&self) -> (value: bool)
        ensures
            value == self@.zero(),
    {
        self.get_flag(FLAG_ZERO)
    }

    pub fn set_flag_zero(&mut self, val: bool)
        ensures
            final(self)@ == old(self)@.with_flag(FLAG_ZERO, val),
    {
        self.set_flag(val, FLAG_ZERO)
    }

    /// Sets zero when a result is zero.
    pub fn set_flag_zero_by_val(&mut self, val: u8)
        ensures
            final(self)@ == old(self)@.with_flag(FLAG_ZERO, val == 0),
    {
        self.set_flag_zero(val == 0);
    }

    pub fn get_flag_overflow(&self) -> (value: bool)
        ensures
            value == self@.overflow(),
    {
        self.get_flag(FLAG_OVERFLOW)
    }

    pub fn set_flag_overflow(&mut self, val: bool)
        ensures
            final(self)@ == old(self)@.with_flag(FLAG_OVERFLOW, val),
    {
        self.set_flag(val, FLAG_OVERFLOW)
    }

    /// Copies bit 6 of a byte into overflow.
    pub fn set_flag_overflow_by_val(&mut self, val: u8)
        ensures
            final(self)@ == old(self)@.with_flag(FLAG_OVERFLOW, bit(val, 6)),
    {
        self.set_flag_overflow((val >> 6) & 1 == 1);
    }

    pub fn get_flag_negative(&self) -> (value: bool)
        ensures
            value == self@.negative(),
    {
        self.get_flag(FLAG_NEGATIVE)
    }

    pub fn set_flag_negative(&mut self, val: bool)
        ensures
            final(self)@ == old(self)@.with_flag(FLAG_NEGATIVE, val),
    {
        self.set_flag(val, FLAG_NEGATIVE)
    }

    /// Copies bit 7 of a result into negative.
    pub fn set_flag_negative_by_val(&mut self, val: u8)
        ensures
            final(self)@ == old(self)@.with_flag(FLAG_NEGATIVE, val >= 128),
    {
        proof {
            lemma_end_bits(val);
        }
        self.set_flag_negative((val >> 7) & 1 == 1);
    }

    /// Writes zero and negative from a result.
    pub fn set_flags_zero_negative(&mut self, val: u8)
        ensures
            final(self)@ == old(self)@.with_zero_negative(val),
    {
        self.set_flag_zero_by_val(val);
        self.set_flag_negative_by_val(val);
    }

    pub fn get_flag_decimal(&self) -> (value: bool)
        ensures
            value == self@.decimal(),
    {
        self.get_flag(FLAG_DECIMAL)
    }

    pub fn set_flag_decimal(&mut self, val: bool)
        ensures
            final(self)@ == old(self)@.with_flag(FLAG_DECIMAL, val),
    {
        self.set_flag(val, FLAG_DECIMAL)
    }

    pub fn get_flag_interrupt(&self) -> (value: bool)
        ensures
            value == self@.interrupt_disable(),
    {
        self.get_flag(FLAG_INTERRUPT)
    }

    pub fn set_flag_interrupt(&mut self, val: bool)
        ensures
            final(self)@ == old(self)@.with_flag(FLAG_INTERRUPT, val),
    {
        self.set_flag(val, FLAG_INTERRUPT)
    }

    /// Packs the flags into the byte that goes on the stack. The two bits that
    /// stand for no flag are set.
    pub fn get_processor_status(&self) -> (out: u8)
        ensures
            out == self@.encoded_status(),
    {
        let negative: u8 = if self.get_flag_negative() {
            0x80
        } else {
            0
        };
        let overflow: u8 = if self.get_flag_overflow() {
            0x40
        } else {
            0
        };
        let decimal: u8 = if self.get_flag_decimal() {
            0x08
        } else {
            0
        };
        let interrupt: u8 = if self.get_flag_interrupt() {
            0x04
        } else {
            0
        };
        let zero: u8 = if self.get_flag_zero() {
            0x02
        } else {
            0
        };
        let carry: u8 = if self.get_flag_carry() {
            0x01
        } else {
            0
        };
        STATUS_UNUSED | negative | overflow | decimal | interrupt | zero | carry
    }

    /// Unpacks a status byte taken off the stack. With `delay`, the
    /// interrupt-disable bit is left pending until the next instruction starts;
    /// without, it is written at once like the others.
    pub fn set_processor_status(&mut self, flags: u8, delay: bool)
        ensures
            final(self)@ == old(self)@.status_decoded(flags, delay),
    {
        self.set_flag_carry(bit_of(flags, 0));
        self.set_flag_zero(bit_of(flags, 1));
        if delay {
            self.pending_interrupt_disable = Some(bit_of(flags, 2));
        } else {
            self.set_flag_interrupt(bit_of(flags, 2));
        }
        self.set_flag_decimal(bit_of(flags, 3));
        self.set_flag_overflow(bit_of(flags, 6));
        self.set_flag_negative(bit_of(flags, 7));
    }

    /// Carries out a pending write to interrupt-disable.
    pub fn apply_pending_interrupt_disable(&mut self)
        ensures
            final(self)@ == old(self)@.pending_applied(),
    {
        match self.pending_interrupt_disable {
            Some(value) => {
                self.pending_interrupt_disable = None;
                self.set_flag_interrupt(value);
            },
            None => {},
        }
    }
}

} // verus!
