//! Control flow: branches, jumps, subroutines and interrupts. These set the
//! program counter themselves.

use vstd::prelude::*;
use crate::cpu::{Cpu, Instruction};
use crate::machine::BREAK_VECTOR;
use crate::word::high_byte;

verus! {

impl Cpu {
    /// Moves the program counter past an instruction of `size` bytes.
    pub fn advance(&mut self, size: u8)
        ensures
            final(self)@ == old(self)@.advanced(size),
    {
        self.program_counter = self.program_counter.wrapping_add(size as u16);
    }

    /// A conditional branch. Where `condition` fails, execution falls through
    /// to the next instruction at the base cost. Where it holds, the operand
    /// byte displaces the program counter, at one cycle more if the target lies
    /// in the page of the branch instruction and two more if it does not.
    pub fn branch_if_condition(&mut self, inst: &Instruction, condition: bool, cycles: u32)
        requires
            old(self).cycle + cycles + old(self)@.branch_penalty(*inst, condition) <= u32::MAX,
        ensures
            final(self)@ == old(self)@.branched(*inst, condition).charged(
                (cycles + old(self)@.branch_penalty(*inst, condition)) as u32,
            ),
    {
        let next: u16 = self.program_counter.wrapping_add(inst.size as u16);
        if !condition {
            self.program_counter = next;
            self.cycle += cycles;
        } else {
            let offset: u8 = inst.operand_bytes[0];
            let target: u16 = if offset >= 0x80 {
                next.wrapping_sub(256 - offset as u16)
            } else {
                next.wrapping_add(offset as u16)
            };
            let penalty: u32 = if high_byte(target) == high_byte(self.program_counter) {
                1
            } else {
                2
            };
            self.program_counter = target;
            self.cycle += cycles + penalty;
        }
    }

    /// Break: pushes the return address and the status, disables interrupts at
    /// once and continues at the break vector.
    pub fn execute_brk(&mut self, cycles: u32)
        requires
            old(self).cycle + cycles <= u32::MAX,
        ensures
            final(self)@ == old(self)@.interrupted().charged(cycles),
    {
        let return_address: u16 = self.program_counter.wrapping_add(2);
        self.push_word(return_address);
        let status: u8 = self.get_processor_status();
        self.push(status);
        self.set_flag_interrupt(true);
        self.program_counter = BREAK_VECTOR;
        self.cycle += cycles;
    }

    /// Jump: continues at `target`.
    pub fn execute_jmp(&mut self, target: u16, cycles: u32)
        requires
            old(self).cycle + cycles <= u32::MAX,
        ensures
            final(self)@ == old(self)@.at(target).charged(cycles),
    {
        self.program_counter = target;
        self.cycle += cycles;
    }

    /// Calls the subroutine at `target`: pushes the address two bytes past the
    /// program counter, high byte first, and continues at `target`.
    pub fn call_subroutine(&mut self, target: u16)
        ensures
            final(self)@ == old(self)@.called(target),
            final(self).program_counter == target,
    {
        let return_address: u16 = self.program_counter.wrapping_add(2);
        self.push_word(return_address);
        self.program_counter = target;
    }

    /// Returns from a subroutine: pops an address, low byte first, and continues
    /// one past it.
    pub fn return_from_subroutine(&mut self)
        ensures
            final(self)@ == old(self)@.returned(),
    {
        let target: u16 = self.pop_word();
        self.program_counter = target.wrapping_add(1);
    }

    /// Jump to subroutine, at the cost of `cycles`.
    pub fn execute_jsr(&mut self, target: u16, cycles: u32)
        requires
            old(self).cycle + cycles <= u32::MAX,
        ensures
            final(self)@ == old(self)@.called(target).charged(cycles),
    {
        self.call_subroutine(target);
        self.cycle += cycles;
    }

    /// Return from interrupt: pops the status, writing interrupt-disable at
    /// once, then pops the program counter.
    pub fn execute_rti(&mut self, cycles: u32)
        requires
            old(self).cycle + cycles <= u32::MAX,
        ensures
            final(self)@ == old(self)@.returned_from_interrupt().charged(cycles),
    {
        let flags: u8 = self.pop();
        self.set_processor_status(flags, false);
        let target: u16 = self.pop_word();
        self.program_counter = target;
        self.cycle += cycles;
    }

    /// Return from subroutine, at the cost of `cycles`.
    pub fn execute_rts(&mut self, cycles: u32)
        requires
            old(self).cycle + cycles <= u32::MAX,
        ensures
            final(self)@ == old(self)@.returned().charged(cycles),
    {
        self.return_from_subroutine();
        self.cycle += cycles;
    }
}

} // verus!
