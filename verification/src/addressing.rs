//! Addressing modes: from operand bytes and index registers to the value an
//! instruction reads or the place it writes.

use vstd::prelude::*;
use crate::cpu::{Cpu, Instruction};
use crate::machine::Machine;
use crate::opcode::{Mode, OpInfo};
use crate::word::{high_byte, word};

verus! {

/// Where a shift or rotate leaves its result.
#[derive(Clone, Copy, Debug, PartialEq, Eq)]
pub enum Target {
    Accumulator,
    Memory(u16),
}

impl Instruction {
    /// The address that the two operand bytes spell, high byte first.
    pub fn get_absolute_addr(&self) -> (address: u16)
        ensures
            address == self.absolute_address(),
    {
        word(self.operand_bytes[0], self.operand_bytes[1])
    }
}

/// `base`, and one more if adding `inc` to `addr` leaves the page of `addr`.
pub fn increment_if_crossed_absolute(base: u32, addr: u16, inc: u8) -> (cycles: u32)
    requires
        base < u32::MAX,
    ensures
        cycles == base + (if Machine::crosses_page(addr, inc) {
            1int
        } else {
            0int
        }),
{
    if high_byte(addr.wrapping_add(inc as u16)) == high_byte(addr) {
        base
    } else {
        base + 1
    }
}

/// `base`, and one more if adding Y to the pointer stored in page zero at
/// `addr` leaves the page of that pointer.
pub fn increment_if_crossed_indirect_indexed(base: u32, addr: u8, cpu: &Cpu) -> (cycles: u32)
    requires
        base < u32::MAX,
    ensures
        cycles == base + (if Machine::crosses_page(cpu@.pointer_at(addr), cpu.index_y) {
            1int
        } else {
            0int
        }),
{
    increment_if_crossed_absolute(base, cpu.pointer_at(addr), cpu.index_y)
}

impl Cpu {
    // Page zero
    pub fn get_addr_zero_index(&self, arg: u8) -> (index: u8)
        ensures
            index == arg,
    {
        arg
    }

    pub fn get_addr_zero(&self, arg: u8) -> (value: u8)
        ensures
            value == self@.read(arg as u16),
    {
        self.memory[self.get_addr_zero_index(arg) as usize]
    }

    pub fn set_addr_zero(&mut self, arg: u8, value: u8)
        ensures
            final(self)@ == old(self)@.written(arg as u16, value),
    {
        let index: usize = self.get_addr_zero_index(arg) as usize;
        self.memory[index] = value;
    }

    pub fn get_addr_zero_x_index(&self, arg: u8) -> (index: u8)
        ensures
            index == Machine::zero_page_indexed(arg, self.index_x),
    {
        arg.wrapping_add(self.index_x)
    }

    pub fn get_addr_zero_x(&self, arg: u8) -> (value: u8)
        ensures
            value == self@.read(Machine::zero_page_indexed(arg, self.index_x) as u16),
    {
        self.memory[self.get_addr_zero_x_index(arg) as usize]
    }

    pub fn set_addr_zero_x(&mut self, arg: u8, value: u8)
        ensures
            final(self)@ == old(self)@.written(
                Machine::zero_page_indexed(arg, old(self).index_x) as u16,
                value,
            ),
    {
        let index: usize = self.get_addr_zero_x_index(arg) as usize;
        self.memory[index] = value;
    }

    pub fn get_addr_zero_y_index(&self, arg: u8) -> (index: u8)
        ensures
            index == Machine::zero_page_indexed(arg, self.index_y),
    {
        arg.wrapping_add(self.index_y)
    }

    pub fn get_addr_zero_y(&self, arg: u8) -> (value: u8)
        ensures
            value == self@.read(Machine::zero_page_indexed(arg, self.index_y) as u16),
    {
        self.memory[self.get_addr_zero_y_index(arg) as usize]
    }

    // Absolute
    pub fn get_addr_absolute(&self, arg: u16) -> (value: u8)
        ensures
            value == self@.read(arg),
    {
        self.memory[arg as usize]
    }

    pub fn set_addr_absolute(&mut self, arg: u16, value: u8)
        ensures
            final(self)@ == old(self)@.written(arg, value),
    {
        self.memory[arg as usize] = value;
    }

    pub fn get_addr_absolute_x(&self, arg: u16) -> (value: u8)
        ensures
            value == self@.read(Machine::indexed(arg, self.index_x)),
    {
        self.memory[arg.wrapping_add(self.index_x as u16) as usize]
    }

    pub fn set_addr_absolute_x(&mut self, arg: u16, value: u8)
        ensures
            final(self)@ == old(self)@.written(Machine::indexed(arg, old(self).index_x), value),
    {
        let index: usize = arg.wrapping_add(self.index_x as u16) as usize;
        self.memory[index] = value;
    }

    pub fn get_addr_absolute_y(&self, arg: u16) -> (value: u8)
        ensures
            value == self@.read(Machine::indexed(arg, self.index_y)),
    {
        self.memory[arg.wrapping_add(self.index_y as u16) as usize]
    }

    // Indirect
    /// Reads the word stored in page zero at `location`, low byte first. The
    /// high byte comes from the next location within the page.
    pub fn pointer_at(&self, location: u8) -> (pointer: u16)
        ensures
            pointer == self@.pointer_at(location),
    {
        let low: u8 = self.memory[location as usize];
        let high: u8 = self.memory[location.wrapping_add(1) as usize];
        word(high, low)
    }

    /// (Indirect,X): the pointer stored at the operand indexed by X.
    pub fn get_addr_indexed_indirect_index(&self, arg: u8) -> (index: usize)
        ensures
            index == self@.pointer_at(Machine::zero_page_indexed(arg, self.index_x)),
    {
        self.pointer_at(arg.wrapping_add(self.index_x)) as usize
    }

    /// (Indirect,X)
    pub fn get_addr_indexed_indirect(&self, arg: u8) -> (value: u8)
        ensures
            value == self@.read(self@.pointer_at(Machine::zero_page_indexed(arg, self.index_x))),
    {
        self.memory[self.get_addr_indexed_indirect_index(arg)]
    }

    /// (Indirect),Y: the pointer stored at the operand, indexed by Y.
    pub fn get_addr_indirect_indexed_index(&self, arg: u8) -> (index: usize)
        ensures
            index == Machine::indexed(self@.pointer_at(arg), self.index_y),
    {
        self.pointer_at(arg).wrapping_add(self.index_y as u16) as usize
    }

    /// (Indirect),Y
    pub fn get_addr_indirect_indexed(&self, arg: u8) -> (value: u8)
        ensures
            value == self@.read(Machine::indexed(self@.pointer_at(arg), self.index_y)),
    {
        self.memory[self.get_addr_indirect_indexed_index(arg)]
    }

    // By mode
    /// The address that an instruction in `mode` reads or writes.
    pub fn effective_address(&self, mode: Mode, inst: &Instruction) -> (address: u16)
        requires
            mode.addresses_memory(),
        ensures
            address == self@.effective_address(mode, *inst),
    {
        let arg: u8 = inst.operand_bytes[0];
        match mode {
            Mode::ZeroPage => self.get_addr_zero_index(arg) as u16,
            Mode::ZeroPageX => self.get_addr_zero_x_index(arg) as u16,
            Mode::ZeroPageY => self.get_addr_zero_y_index(arg) as u16,
            Mode::Absolute => inst.get_absolute_addr(),
            Mode::AbsoluteX => inst.get_absolute_addr().wrapping_add(self.index_x as u16),
            Mode::AbsoluteY => inst.get_absolute_addr().wrapping_add(self.index_y as u16),
            Mode::IndexedIndirect => self.get_addr_indexed_indirect_index(arg) as u16,
            _ => self.get_addr_indirect_indexed_index(arg) as u16,
        }
    }

    /// The value that an instruction in `mode` reads.
    pub fn read_operand(&self, mode: Mode, inst: &Instruction) -> (value: u8)
        requires
            mode is Immediate || mode is Accumulator || mode.addresses_memory(),
        ensures
            value == self@.operand(mode, *inst),
    {
        let arg: u8 = inst.operand_bytes[0];
        match mode {
            Mode::Accumulator => self.accumulator,
            Mode::Immediate => arg,
            Mode::ZeroPage => self.get_addr_zero(arg),
            Mode::ZeroPageX => self.get_addr_zero_x(arg),
            Mode::ZeroPageY => self.get_addr_zero_y(arg),
            Mode::Absolute => self.get_addr_absolute(inst.get_absolute_addr()),
            Mode::AbsoluteX => self.get_addr_absolute_x(inst.get_absolute_addr()),
            Mode::AbsoluteY => self.get_addr_absolute_y(inst.get_absolute_addr()),
            Mode::IndexedIndirect => self.get_addr_indexed_indirect(arg),
            _ => self.get_addr_indirect_indexed(arg),
        }
    }

    /// The place that a shift or rotate in `mode` writes.
    pub fn resolve_target(&self, mode: Mode, inst: &Instruction) -> (dest: Target)
        requires
            mode is Accumulator || mode.addresses_memory(),
        ensures
            dest == self@.target(mode, *inst),
    {
        match mode {
            Mode::Accumulator => Target::Accumulator,
            _ => Target::Memory(self.effective_address(mode, inst)),
        }
    }

    /// Writes `value` to the accumulator or to memory.
    pub fn write(&mut self, dest: Target, value: u8)
        ensures
            final(self)@ == old(self)@.with_target(dest, value),
    {
        match dest {
            Target::Accumulator => {
                self.accumulator = value;
            },
            Target::Memory(address) => {
                self.set_addr_absolute(address, value);
            },
        }
    }

    /// The cycles that a table row costs in the present state.
    pub fn cycle_cost(&self, info: &OpInfo, inst: &Instruction) -> (cycles: u32)
        ensures
            cycles == self@.cycle_cost(*info, *inst),
            cycles <= info.cycles + 1,
    {
        let base: u32 = info.cycles as u32;
        if info.page_cross_sensitive {
            match info.mode {
                Mode::AbsoluteX => increment_if_crossed_absolute(
                    base,
                    inst.get_absolute_addr(),
                    self.index_x,
                ),
                Mode::AbsoluteY => increment_if_crossed_absolute(
                    base,
                    inst.get_absolute_addr(),
                    self.index_y,
                ),
                Mode::IndirectIndexed => increment_if_crossed_indirect_indexed(
                    base,
                    inst.operand_bytes[0],
                    self,
                ),
                _ => base,
            }
        } else {
            base
        }
    }
}

} // verus!
