//! The processor state and the instruction records that drive it.

use vstd::prelude::*;
use crate::machine::{outcome_of, Machine};
use crate::opcode::{decode, Kind, Mode, OpInfo, Operation};
use crate::word::{decrement, increment, word_of};

verus! {

/// The state of one processor. Nothing is hidden: an embedding system reads and
/// writes memory and registers directly.
pub struct Cpu {
    /// The flat address space, `0x0000` to `0xFFFF`.
    pub memory: [u8; 65536],
    /// The address of the next instruction.
    pub program_counter: u16,
    /// The offset of the next free stack slot within page `0x01`. A push
    /// decreases it and a pop increases it; both wrap.
    pub stack_pointer: u8,
    pub accumulator: u8,
    pub index_x: u8,
    pub index_y: u8,
    /// The flags, one bit each, at the positions that `status` names.
    pub processor_status: u8,
    /// The clock cycles consumed so far.
    pub cycle: u32,
    /// A write to the interrupt-disable flag that takes effect when the next
    /// instruction starts.
    pub pending_interrupt_disable: Option<bool>,
}

/// One decoded instruction.
#[derive(Clone, Copy, Debug, PartialEq, Eq)]
pub struct Instruction {
    pub op_code: u8,
    /// The operand bytes, padded with zeros. An address stands high byte first.
    pub operand_bytes: [u8; 2],
    /// The length of the instruction in a program, opcode included.
    pub size: u8,
}

/// Why an instruction could not be executed.
#[derive(Clone, Copy, Debug, PartialEq, Eq)]
pub enum Fault {
    /// The opcode byte is not in the opcode table.
    UnknownOpcode,
    /// The opcode is known, but its addressing mode is not executed.
    UnsupportedAddressingMode,
}

impl Instruction {
    /// The first operand byte.
    pub open spec fn first(self) -> u8 {
        self.operand_bytes@[0]
    }

    /// The address that the two operand bytes spell, high byte first.
    pub open spec fn absolute_address(self) -> u16 {
        word_of(self.operand_bytes@[0], self.operand_bytes@[1])
    }

    /// Whether the opcode table gives the instruction this operation.
    pub open spec fn performs(self, operation: Operation) -> bool {
        decode(self.op_code) matches Some(info) && info.operation == operation
    }

    pub fn new(op_code: u8, operand_bytes: [u8; 2], size: u8) -> (inst: Instruction)
        ensures
            inst.op_code == op_code,
            inst.operand_bytes == operand_bytes,
            inst.size == size,
    {
        Instruction { op_code, operand_bytes, size }
    }
}

impl View for Cpu {
    type V = Machine;

    open spec fn view(&self) -> Machine {
        Machine {
            memory: self.memory@,
            program_counter: self.program_counter,
            stack_pointer: self.stack_pointer,
            accumulator: self.accumulator,
            index_x: self.index_x,
            index_y: self.index_y,
            processor_status: self.processor_status,
            cycle: self.cycle as nat,
            pending_interrupt_disable: self.pending_interrupt_disable,
        }
    }
}

impl Cpu {
    /// A processor at cold boot.
    pub fn new() -> (cpu: Cpu)
        ensures
            cpu@ == Machine::cold_boot(),
    {
        let cpu = Cpu {
            memory: [0u8; 65536],
            program_counter: 0,
            stack_pointer: 0xFF,
            accumulator: 0,
            index_x: 0,
            index_y: 0,
            processor_status: 0,
            cycle: 0,
            pending_interrupt_disable: None,
        };
        assert(cpu.memory@ =~= Machine::cold_boot().memory);
        cpu
    }

    /// Executes one instruction.
    ///
    /// A pending write to interrupt-disable is carried out first. Then the
    /// opcode is looked up in the table. An operation that sets the program
    /// counter itself is left to do so; after any other, the program counter
    /// moves past the instruction. An opcode that is not in the table, or whose
    /// row has the indirect mode, is a fault: nothing more happens to the state
    /// and the fault is returned.
    ///
    /// The cycle counter must have room for the cost of the instruction, which
    /// is at most seven cycles.
    pub fn execute_instruction(&mut self, inst: &Instruction) -> (result: Result<(), Fault>)
        requires
            old(self).cycle + old(self)@.cost(*inst) <= u32::MAX,
        ensures
            result == outcome_of(*inst),
            final(self)@ == old(self)@.step(*inst),
    {
        self.apply_pending_interrupt_disable();
        let info: OpInfo = match decode(inst.op_code) {
            Some(info) => info,
            None => {
                return Err(Fault::UnknownOpcode);
            },
        };
        match info.mode {
            Mode::Indirect => {
                return Err(Fault::UnsupportedAddressingMode);
            },
            _ => {},
        }
        match info.operation.kind() {
            Kind::Flow => {
                self.divert(&info, inst);
            },
            Kind::Read => {
                self.compute_read(&info, inst);
                self.advance(inst.size);
            },
            Kind::Write => {
                self.compute_write(&info, inst);
                self.advance(inst.size);
            },
            Kind::Internal => {
                self.compute_internal(&info, inst);
                self.advance(inst.size);
            },
        }
        Ok(())
    }

    /// Carries out an operation that sets the program counter itself.
    fn divert(&mut self, info: &OpInfo, inst: &Instruction)
        requires
            info.well_formed(),
            info.operation.kind() is Flow,
            old(self).cycle + old(self)@.cost_of(*info, *inst) <= u32::MAX,
        ensures
            final(self)@ == old(self)@.diverted(*info, *inst).charged(
                old(self)@.cost_of(*info, *inst),
            ),
    {
        let cycles: u32 = info.cycles.into();
        match info.operation {
            Operation::Bcc => {
                let condition: bool = !self.get_flag_carry();
                self.branch_if_condition(inst, condition, cycles);
            },
            Operation::Bcs => {
                let condition: bool = self.get_flag_carry();
                self.branch_if_condition(inst, condition, cycles);
            },
            Operation::Beq => {
                let condition: bool = self.get_flag_zero();
                self.branch_if_condition(inst, condition, cycles);
            },
            Operation::Bne => {
                let condition: bool = !self.get_flag_zero();
                self.branch_if_condition(inst, condition, cycles);
            },
            Operation::Bmi => {
                let condition: bool = self.get_flag_negative();
                self.branch_if_condition(inst, condition, cycles);
            },
            Operation::Bpl => {
                let condition: bool = !self.get_flag_negative();
                self.branch_if_condition(inst, condition, cycles);
            },
            Operation::Bvs => {
                let condition: bool = self.get_flag_overflow();
                self.branch_if_condition(inst, condition, cycles);
            },
            Operation::Bvc => {
                let condition: bool = !self.get_flag_overflow();
                self.branch_if_condition(inst, condition, cycles);
            },
            Operation::Brk => {
                self.execute_brk(cycles);
            },
            Operation::Jmp => {
                self.execute_jmp(inst.get_absolute_addr(), cycles);
            },
            Operation::Jsr => {
                self.execute_jsr(inst.get_absolute_addr(), cycles);
            },
            Operation::Rti => {
                self.execute_rti(cycles);
            },
            _ => {
                self.execute_rts(cycles);
            },
        }
    }

    /// Carries out an operation on a value that the addressing mode supplies,
    /// and charges its cycles.
    fn compute_read(&mut self, info: &OpInfo, inst: &Instruction)
        requires
            info.well_formed(),
            info.operation.kind() is Read,
            old(self).cycle + old(self)@.cycle_cost(*info, *inst) <= u32::MAX,
        ensures
            final(self)@ == old(self)@.computed(*info, *inst).charged(
                old(self)@.cycle_cost(*info, *inst),
            ),
    {
        reveal(Machine::computed_on);
        let cycles: u32 = self.cycle_cost(info, inst);
        let value: u8 = self.read_operand(info.mode, inst);
        match info.operation {
            Operation::Adc => self.execute_adc(value, cycles),
            Operation::And => self.execute_and(value, cycles),
            Operation::Bit => self.execute_bit(value, cycles),
            Operation::Cmp => self.execute_cmp(value, cycles),
            Operation::Cpx => self.execute_cmx(value, cycles),
            Operation::Cpy => self.execute_cmy(value, cycles),
            Operation::Eor => self.execute_eor(value, cycles),
            Operation::Lda => self.execute_lda(value, cycles),
            Operation::Ldx => self.execute_ldx(value, cycles),
            Operation::Ldy => self.execute_ldy(value, cycles),
            Operation::Ora => self.execute_ora(value, cycles),
            _ => self.execute_sbc(value, cycles),
        }
    }

    /// Carries out an operation on a place that the addressing mode names, and
    /// charges its cycles.
    fn compute_write(&mut self, info: &OpInfo, inst: &Instruction)
        requires
            info.well_formed(),
            info.operation.kind() is Write,
            old(self).cycle + old(self)@.cycle_cost(*info, *inst) <= u32::MAX,
        ensures
            final(self)@ == old(self)@.computed(*info, *inst).charged(
                old(self)@.cycle_cost(*info, *inst),
            ),
    {
        reveal(Machine::computed_at);
        let cycles: u32 = self.cycle_cost(info, inst);
        let mode: Mode = info.mode;
        match info.operation {
            Operation::Asl => {
                let value: u8 = self.read_operand(mode, inst);
                let dest = self.resolve_target(mode, inst);
                self.execute_asl(value, dest, cycles);
            },
            Operation::Lsr => {
                let value: u8 = self.read_operand(mode, inst);
                let dest = self.resolve_target(mode, inst);
                self.execute_lsr(value, dest, cycles);
            },
            Operation::Rol => {
                let value: u8 = self.read_operand(mode, inst);
                let dest = self.resolve_target(mode, inst);
                self.execute_rol(value, dest, cycles);
            },
            Operation::Ror => {
                let value: u8 = self.read_operand(mode, inst);
                let dest = self.resolve_target(mode, inst);
                self.execute_ror(value, dest, cycles);
            },
            Operation::Dec => {
                let address: u16 = self.effective_address(mode, inst);
                self.execute_dec(address, cycles);
            },
            Operation::Inc => {
                let address: u16 = self.effective_address(mode, inst);
                self.execute_inc(address, cycles);
            },
            Operation::Sta => {
                let address: u16 = self.effective_address(mode, inst);
                self.execute_st(address, self.accumulator, cycles);
            },
            Operation::Stx => {
                let address: u16 = self.effective_address(mode, inst);
                self.execute_st(address, self.index_x, cycles);
            },
            _ => {
                let address: u16 = self.effective_address(mode, inst);
                self.execute_st(address, self.index_y, cycles);
            },
        }
    }

    /// Carries out an operation on registers, flags and the stack, and charges
    /// its cycles.
    fn compute_internal(&mut self, info: &OpInfo, inst: &Instruction)
        requires
            info.well_formed(),
            info.operation.kind() is Internal,
            old(self).cycle + old(self)@.cycle_cost(*info, *inst) <= u32::MAX,
        ensures
            final(self)@ == old(self)@.computed(*info, *inst).charged(
                old(self)@.cycle_cost(*info, *inst),
            ),
    {
        reveal(Machine::computed_within);
        let cycles: u32 = self.cycle_cost(info, inst);
        match info.operation {
            Operation::Clc => {
                self.set_flag_carry(false);
                self.charge(cycles);
            },
            Operation::Cld => {
                self.set_flag_decimal(false);
                self.charge(cycles);
            },
            Operation::Cli => {
                self.pending_interrupt_disable = Some(false);
                self.charge(cycles);
            },
            Operation::Clv => {
                self.set_flag_overflow(false);
                self.charge(cycles);
            },
            Operation::Dex => self.execute_ldx(decrement(self.index_x), cycles),
            Operation::Dey => self.execute_ldy(decrement(self.index_y), cycles),
            Operation::Inx => self.execute_ldx(increment(self.index_x), cycles),
            Operation::Iny => self.execute_ldy(increment(self.index_y), cycles),
            Operation::Nop => self.charge(cycles),
            Operation::Pha => {
                self.push(self.accumulator);
                self.charge(cycles);
            },
            Operation::Php => {
                let status: u8 = self.get_processor_status();
                self.push(status);
                self.charge(cycles);
            },
            Operation::Pla => {
                let value: u8 = self.pop();
                self.execute_lda(value, cycles);
            },
            Operation::Plp => {
                let value: u8 = self.pop();
                self.set_processor_status(value, true);
                self.charge(cycles);
            },
            Operation::Sec => {
                self.set_flag_carry(true);
                self.charge(cycles);
            },
            Operation::Sed => {
                self.set_flag_decimal(true);
                self.charge(cycles);
            },
            Operation::Sei => {
                self.pending_interrupt_disable = Some(true);
                self.charge(cycles);
            },
            Operation::Tax => self.execute_ldx(self.accumulator, cycles),
            Operation::Tay => self.execute_ldy(self.accumulator, cycles),
            Operation::Tsx => self.execute_ldx(self.stack_pointer, cycles),
            Operation::Txa => self.execute_lda(self.index_x, cycles),
            Operation::Txs => {
                self.stack_pointer = self.index_x;
                self.charge(cycles);
            },
            _ => self.execute_lda(self.index_y, cycles),
        }
    }
}

} // verus!
