//! The executors: one routine per operation on registers, flags and memory.
//! Each takes the operand that the addressing mode resolved and the cycles to
//! charge.

use vstd::prelude::*;
use crate::addressing::Target;
use crate::cpu::Cpu;
use crate::laws::{lemma_adc_flags, lemma_compared_flags};
use crate::machine::sign_overflowed;
use crate::word::{
    bit, bit_of, decrement, increment, lemma_complement, lemma_end_bits, lemma_rotate_left,
    lemma_rotate_right, lemma_shift_left, lemma_shift_right, wrap8,
};

verus! {

impl Cpu {
    /// Charges `cycles` to the clock.
    pub fn charge(&mut self, cycles: u32)
        requires
            old(self).cycle + cycles <= u32::MAX,
        ensures
            final(self)@ == old(self)@.charged(cycles),
    {
        self.cycle += cycles;
    }

    /// Adds `memory` and the carry to the accumulator. The accumulator takes the
    /// sum reduced to a byte; zero tells whether that byte is zero, negative is
    /// its bit 7, carry tells whether the sum passed 255, and overflow tells
    /// whether the sign of the byte differs from the signs of both the
    /// accumulator and `memory`. Decimal mode changes nothing.
    pub fn add_with_carry(&mut self, memory: u8)
        ensures
            final(self)@ == old(self)@.adc(memory),
            final(self).accumulator == (old(self).accumulator + memory + old(self)@.carry_in())
                % 256,
            final(self)@.zero() <==> (old(self).accumulator + memory + old(self)@.carry_in()) % 256
                == 0,
            final(self)@.negative() <==> bit(final(self).accumulator, 7),
            final(self)@.carry() <==> old(self).accumulator + memory + old(self)@.carry_in() > 255,
            final(self)@.overflow() <==> sign_overflowed(
                final(self).accumulator,
                old(self).accumulator,
                memory,
            ),
    {
        proof {
            lemma_adc_flags(self@, memory);
        }
        let carry: u16 = if self.get_flag_carry() {
            1
        } else {
            0
        };
        let sum: u16 = self.accumulator as u16 + memory as u16 + carry;
        let result: u8 = (sum % 256) as u8;
        self.set_flag_carry_by_val(sum);
        self.set_flag_zero_by_val(result);
        self.set_flag_overflow((result ^ self.accumulator) & (result ^ memory) & 0x80 != 0);
        self.set_flag_negative_by_val(result);
        self.accumulator = result;
    }

    /// Add with carry, at the cost of `cycles`.
    pub fn execute_adc(&mut self, memory: u8, cycles: u32)
        requires
            old(self).cycle + cycles <= u32::MAX,
        ensures
            final(self)@ == old(self)@.adc(memory).charged(cycles),
            final(self).accumulator == (old(self).accumulator + memory + old(self)@.carry_in())
                % 256,
            final(self)@.zero() <==> (old(self).accumulator + memory + old(self)@.carry_in()) % 256
                == 0,
            final(self)@.negative() <==> bit(final(self).accumulator, 7),
            final(self)@.carry() <==> old(self).accumulator + memory + old(self)@.carry_in() > 255,
            final(self)@.overflow() <==> sign_overflowed(
                final(self).accumulator,
                old(self).accumulator,
                memory,
            ),
    {
        self.add_with_carry(memory);
        self.cycle += cycles;
    }

    /// Bitwise and with the accumulator.
    pub fn execute_and(&mut self, memory: u8, cycles: u32)
        requires
            old(self).cycle + cycles <= u32::MAX,
        ensures
            final(self)@ == old(self)@.and(memory).charged(cycles),
    {
        let result: u8 = self.accumulator & memory;
        self.set_flags_zero_negative(result);
        self.accumulator = result;
        self.cycle += cycles;
    }

    /// Arithmetic shift left of `value` into `dest`.
    pub fn execute_asl(&mut self, value: u8, dest: Target, cycles: u32)
        requires
            old(self).cycle + cycles <= u32::MAX,
        ensures
            final(self)@ == old(self)@.shifted_left(value, dest).charged(cycles),
    {
        proof {
            lemma_shift_left(value);
            lemma_end_bits(value);
        }
        let result: u8 = value << 1;
        self.set_flag_carry(bit_of(value, 7));
        self.set_flags_zero_negative(result);
        self.write(dest, result);
        self.cycle += cycles;
    }

    /// Bit test.
    pub fn execute_bit(&mut self, value: u8, cycles: u32)
        requires
            old(self).cycle + cycles <= u32::MAX,
        ensures
            final(self)@ == old(self)@.bit_test(value).charged(cycles),
    {
        let result: u8 = self.accumulator & value;
        self.set_flag_zero_by_val(result);
        self.set_flag_overflow_by_val(value);
        self.set_flag_negative_by_val(result);
        self.cycle += cycles;
    }

    /// Sets the flags from `register` set against `value`.
    pub fn execute_compare(&mut self, register: u8, value: u8, cycles: u32)
        requires
            old(self).cycle + cycles <= u32::MAX,
        ensures
            final(self)@ == old(self)@.compared(register, value).charged(cycles),
            final(self)@.carry() <==> register >= value,
            final(self)@.zero() <==> register == value,
            final(self)@.negative() <==> bit(wrap8(register - value), 7),
    {
        proof {
            lemma_compared_flags(self@, register, value);
            lemma_end_bits(wrap8(register - value));
        }
        self.set_flag_carry(register >= value);
        self.set_flag_zero(register == value);
        self.set_flag_negative_by_val(register.wrapping_sub(value));
        self.cycle += cycles;
    }

    /// Compare with the accumulator.
    pub fn execute_cmp(&mut self, value: u8, cycles: u32)
        requires
            old(self).cycle + cycles <= u32::MAX,
        ensures
            final(self)@ == old(self)@.compared(old(self).accumulator, value).charged(cycles),
    {
        self.execute_compare(self.accumulator, value, cycles)
    }

    /// Compare with X.
    pub fn execute_cmx(&mut self, value: u8, cycles: u32)
        requires
            old(self).cycle + cycles <= u32::MAX,
        ensures
            final(self)@ == old(self)@.compared(old(self).index_x, value).charged(cycles),
    {
        self.execute_compare(self.index_x, value, cycles)
    }

    /// Compare with Y.
    pub fn execute_cmy(&mut self, value: u8, cycles: u32)
        requires
            old(self).cycle + cycles <= u32::MAX,
        ensures
            final(self)@ == old(self)@.compared(old(self).index_y, value).charged(cycles),
    {
        self.execute_compare(self.index_y, value, cycles)
    }

    /// Decrements the byte at `addr`.
    pub fn execute_dec(&mut self, addr: u16, cycles: u32)
        requires
            old(self).cycle + cycles <= u32::MAX,
        ensures
            final(self)@ == old(self)@.decremented(addr).charged(cycles),
    {
        let result: u8 = decrement(self.memory[addr as usize]);
        self.memory[addr as usize] = result;
        self.set_flags_zero_negative(result);
        self.cycle += cycles;
    }

    /// Exclusive or with the accumulator.
    pub fn execute_eor(&mut self, value: u8, cycles: u32)
        requires
            old(self).cycle + cycles <= u32::MAX,
        ensures
            final(self)@ == old(self)@.eor(value).charged(cycles),
    {
        self.accumulator ^= value;
        self.set_flags_zero_negative(self.accumulator);
        self.cycle += cycles;
    }

    /// Increments the byte at `addr`.
    pub fn execute_inc(&mut self, addr: u16, cycles: u32)
        requires
            old(self).cycle + cycles <= u32::MAX,
        ensures
            final(self)@ == old(self)@.incremented(addr).charged(cycles),
    {
        let result: u8 = increment(self.memory[addr as usize]);
        self.memory[addr as usize] = result;
        self.set_flags_zero_negative(result);
        self.cycle += cycles;
    }

    /// Loads the accumulator.
    pub fn execute_lda(&mut self, value: u8, cycles: u32)
        requires
            old(self).cycle + cycles <= u32::MAX,
        ensures
            final(self)@ == old(self)@.loaded_accumulator(value).charged(cycles),
    {
        self.accumulator = value;
        self.set_flags_zero_negative(self.accumulator);
        self.cycle += cycles;
    }

    /// Loads X.
    pub fn execute_ldx(&mut self, value: u8, cycles: u32)
        requires
            old(self).cycle + cycles <= u32::MAX,
        ensures
            final(self)@ == old(self)@.loaded_x(value).charged(cycles),
    {
        self.index_x = value;
        self.set_flags_zero_negative(self.index_x);
        self.cycle += cycles;
    }

    /// Loads Y.
    pub fn execute_ldy(&mut self, value: u8, cycles: u32)
        requires
            old(self).cycle + cycles <= u32::MAX,
        ensures
            final(self)@ == old(self)@.loaded_y(value).charged(cycles),
    {
        self.index_y = value;
        self.set_flags_zero_negative(self.index_y);
        self.cycle += cycles;
    }

    /// Logical shift right of `value` into `dest`.
    pub fn execute_lsr(&mut self, value: u8, dest: Target, cycles: u32)
        requires
            old(self).cycle + cycles <= u32::MAX,
        ensures
            final(self)@ == old(self)@.shifted_right(value, dest).charged(cycles),
    {
        proof {
            lemma_shift_right(value);
            lemma_end_bits(value);
        }
        let result: u8 = value >> 1;
        self.set_flag_carry(bit_of(value, 0));
        self.set_flags_zero_negative(result);
        self.write(dest, result);
        self.cycle += cycles;
    }

    /// Inclusive or with the accumulator.
    pub fn execute_ora(&mut self, value: u8, cycles: u32)
        requires
            old(self).cycle + cycles <= u32::MAX,
        ensures
            final(self)@ == old(self)@.ora(value).charged(cycles),
    {
        self.accumulator |= value;
        self.set_flags_zero_negative(self.accumulator);
        self.cycle += cycles;
    }

    /// Rotate `value` left through carry into `dest`.
    pub fn execute_rol(&mut self, value: u8, dest: Target, cycles: u32)
        requires
            old(self).cycle + cycles <= u32::MAX,
        ensures
            final(self)@ == old(self)@.rotated_left(value, dest).charged(cycles),
    {
        let carry: u8 = if self.get_flag_carry() {
            1
        } else {
            0
        };
        proof {
            lemma_rotate_left(value, carry);
            lemma_end_bits(value);
        }
        let result: u8 = (value << 1) | carry;
        self.set_flag_carry(bit_of(value, 7));
        self.set_flags_zero_negative(result);
        self.write(dest, result);
        self.cycle += cycles;
    }

    /// Rotate `value` right through carry into `dest`.
    pub fn execute_ror(&mut self, value: u8, dest: Target, cycles: u32)
        requires
            old(self).cycle + cycles <= u32::MAX,
        ensures
            final(self)@ == old(self)@.rotated_right(value, dest).charged(cycles),
    {
        let carry: u8 = if self.get_flag_carry() {
            1
        } else {
            0
        };
        proof {
            lemma_rotate_right(value, carry);
            lemma_end_bits(value);
        }
        let result: u8 = (value >> 1) | (carry << 7);
        self.set_flag_carry(bit_of(value, 0));
        self.set_flags_zero_negative(result);
        self.write(dest, result);
        self.cycle += cycles;
    }

    /// Subtract with borrow: add the complement of `value`.
    pub fn execute_sbc(&mut self, value: u8, cycles: u32)
        requires
            old(self).cycle + cycles <= u32::MAX,
        ensures
            final(self)@ == old(self)@.sbc(value).charged(cycles),
    {
        proof {
            lemma_complement(value);
        }
        self.execute_adc(!value, cycles)
    }

    /// Stores `value` at `addr`. No flag changes.
    pub fn execute_st(&mut self, addr: u16, value: u8, cycles: u32)
        requires
            old(self).cycle + cycles <= u32::MAX,
        ensures
            final(self)@ == old(self)@.written(addr, value).charged(cycles),
    {
        self.memory[addr as usize] = value;
        self.cycle += cycles;
    }
}

} // verus!
