//! The stack: page `0x01`, growing downwards, wrapping within the page.

use vstd::prelude::*;
use crate::cpu::Cpu;
use crate::word::{high_byte, low_byte, word};

verus! {

impl Cpu {
    /// Stores `val` in the free slot, then moves the stack pointer down.
    pub fn push(&mut self, val: u8)
        ensures
            final(self)@ == old(self)@.pushed(val),
    {
        self.memory[self.stack_pointer as usize + 0x0100] = val;
        self.stack_pointer = self.stack_pointer.wrapping_sub(1);
    }

    /// Moves the stack pointer up, then reads the slot it names.
    pub fn pop(&mut self) -> (val: u8)
        ensures
            val == old(self)@.stack_top(),
            final(self)@ == old(self)@.popped(),
    {
        self.stack_pointer = self.stack_pointer.wrapping_add(1);
        self.memory[self.stack_pointer as usize + 0x0100]
    }

    /// Pushes a word, high byte first.
    pub fn push_word(&mut self, val: u16)
        ensures
            final(self)@ == old(self)@.pushed_word(val),
    {
        self.push(high_byte(val));
        self.push(low_byte(val));
    }

    /// Pops a word, low byte first.
    pub fn pop_word(&mut self) -> (val: u16)
        ensures
            val == old(self)@.top_word(),
            final(self)@ == old(self)@.popped_word(),
    {
        let low: u8 = self.pop();
        let high: u8 = self.pop();
        word(high, low)
    }
}

} // verus!
