//! The mathematical model of the processor, and the meaning of every
//! instruction as a function from one state of the model to the next.

use vstd::prelude::*;
use crate::addressing::Target;
use crate::cpu::{Fault, Instruction};
use crate::opcode::{decode, Kind, Mode, OpInfo, Operation};
use crate::status::{
    flag_written, packed_status, FLAG_CARRY, FLAG_DECIMAL, FLAG_INTERRUPT, FLAG_NEGATIVE,
    FLAG_OVERFLOW, FLAG_ZERO,
};
use crate::word::{bit, offset_of, page_of, signed, word_of, wrap16, wrap8, MEMORY_SIZE};

verus! {

/// The processor as a mathematical value: memory is a sequence of bytes and the
/// cycle counter is unbounded.
#[verifier::ext_equal]
pub struct Machine {
    pub memory: Seq<u8>,
    pub program_counter: u16,
    pub stack_pointer: u8,
    pub accumulator: u8,
    pub index_x: u8,
    pub index_y: u8,
    pub processor_status: u8,
    pub cycle: nat,
    pub pending_interrupt_disable: Option<bool>,
}

/// The first address of the stack page.
pub const STACK_BASE: u16 = 0x0100;

/// Where execution continues after a break.
pub const BREAK_VECTOR: u16 = 0xFFFE;

/// Whether an addition or subtraction left the range of a signed byte: the sign
/// of the result differs from the signs of both the accumulator and the addend.
pub open spec fn sign_overflowed(result: u8, accumulator: u8, addend: u8) -> bool {
    (result ^ accumulator) & (result ^ addend) & 0x80 != 0
}

/// The bitwise complement of a byte.
pub open spec fn complement(value: u8) -> u8 {
    (255 - value) as u8
}

/// Whether `inst` can be executed, and the fault that stops it where it cannot:
/// its opcode is not in the table, or the table gives it the indirect mode.
pub open spec fn outcome_of(inst: Instruction) -> Result<(), Fault> {
    match decode(inst.op_code) {
        None => Err(Fault::UnknownOpcode),
        Some(info) => if info.mode is Indirect {
            Err(Fault::UnsupportedAddressingMode)
        } else {
            Ok(())
        },
    }
}

impl Machine {
    /// Memory spans the whole address space.
    pub open spec fn well_formed(self) -> bool {
        self.memory.len() == MEMORY_SIZE
    }

    /// The state at cold boot: memory and registers zero, an empty stack, no
    /// cycle consumed and no flag write pending.
    pub open spec fn cold_boot() -> Machine {
        Machine {
            memory: Seq::new(MEMORY_SIZE as nat, |i: int| 0u8),
            program_counter: 0,
            stack_pointer: 0xFF,
            accumulator: 0,
            index_x: 0,
            index_y: 0,
            processor_status: 0,
            cycle: 0,
            pending_interrupt_disable: None,
        }
    }

    // Flags

    pub open spec fn flag(self, offset: u8) -> bool {
        bit(self.processor_status, offset)
    }

    pub open spec fn carry(self) -> bool {
        self.flag(FLAG_CARRY)
    }

    pub open spec fn zero(self) -> bool {
        self.flag(FLAG_ZERO)
    }

    pub open spec fn interrupt_disable(self) -> bool {
        self.flag(FLAG_INTERRUPT)
    }

    pub open spec fn decimal(self) -> bool {
        self.flag(FLAG_DECIMAL)
    }

    pub open spec fn overflow(self) -> bool {
        self.flag(FLAG_OVERFLOW)
    }

    pub open spec fn negative(self) -> bool {
        self.flag(FLAG_NEGATIVE)
    }

    /// The carry flag as the number it adds.
    pub open spec fn carry_in(self) -> int {
        if self.carry() {
            1
        } else {
            0
        }
    }

    pub open spec fn with_flag(self, offset: u8, value: bool) -> Machine {
        Machine { processor_status: flag_written(self.processor_status, offset, value), ..self }
    }

    /// Zero tells whether `result` is zero, negative copies its bit 7.
    pub open spec fn with_zero_negative(self, result: u8) -> Machine {
        self.with_flag(FLAG_ZERO, result == 0).with_flag(FLAG_NEGATIVE, result >= 128)
    }

    // Clock and program counter

    pub open spec fn charged(self, cycles: u32) -> Machine {
        Machine { cycle: self.cycle + cycles as nat, ..self }
    }

    pub open spec fn at(self, program_counter: u16) -> Machine {
        Machine { program_counter, ..self }
    }

    /// The program counter moved past an instruction of `size` bytes.
    pub open spec fn advanced(self, size: u8) -> Machine {
        self.at(wrap16(self.program_counter + size))
    }

    // Memory

    pub open spec fn read(self, address: u16) -> u8 {
        self.memory[address as int]
    }

    pub open spec fn written(self, address: u16, value: u8) -> Machine {
        Machine { memory: self.memory.update(address as int, value), ..self }
    }

    // Stack

    /// The address of the stack slot at `pointer`.
    pub open spec fn stack_address(pointer: u8) -> u16 {
        (STACK_BASE + pointer) as u16
    }

    /// `value` stored in the free slot, and the stack pointer moved down.
    pub open spec fn pushed(self, value: u8) -> Machine {
        Machine {
            stack_pointer: wrap8(self.stack_pointer - 1),
            ..self.written(Self::stack_address(self.stack_pointer), value)
        }
    }

    /// The byte that a pop returns.
    pub open spec fn stack_top(self) -> u8 {
        self.read(Self::stack_address(wrap8(self.stack_pointer + 1)))
    }

    /// The stack pointer moved up over the top byte.
    pub open spec fn popped(self) -> Machine {
        Machine { stack_pointer: wrap8(self.stack_pointer + 1), ..self }
    }

    /// A word on the stack: its high byte is pushed first.
    pub open spec fn pushed_word(self, value: u16) -> Machine {
        self.pushed(page_of(value)).pushed(offset_of(value))
    }

    /// The word that two pops return, low byte first.
    pub open spec fn top_word(self) -> u16 {
        word_of(self.popped().stack_top(), self.stack_top())
    }

    pub open spec fn popped_word(self) -> Machine {
        self.popped().popped()
    }

    // Status byte

    /// The status register as it is pushed on the stack.
    pub open spec fn encoded_status(self) -> u8 {
        packed_status(
            self.negative(),
            self.overflow(),
            self.decimal(),
            self.interrupt_disable(),
            self.zero(),
            self.carry(),
        )
    }

    /// The flags taken from a status byte off the stack. Carry, zero, decimal,
    /// overflow and negative are written at once. Interrupt-disable is written
    /// at once too, unless the write is `deferred`: then it is left pending.
    pub open spec fn status_decoded(self, byte: u8, deferred: bool) -> Machine {
        let s = self.with_flag(FLAG_CARRY, bit(byte, 0)).with_flag(FLAG_ZERO, bit(byte, 1));
        let s = if deferred {
            Machine { pending_interrupt_disable: Some(bit(byte, 2)), ..s }
        } else {
            s.with_flag(FLAG_INTERRUPT, bit(byte, 2))
        };
        s.with_flag(FLAG_DECIMAL, bit(byte, 3)).with_flag(FLAG_OVERFLOW, bit(byte, 6)).with_flag(
            FLAG_NEGATIVE,
            bit(byte, 7),
        )
    }

    /// A pending write to interrupt-disable carried out.
    pub open spec fn pending_applied(self) -> Machine {
        match self.pending_interrupt_disable {
            Some(value) => Machine { pending_interrupt_disable: None, ..self }.with_flag(
                FLAG_INTERRUPT,
                value,
            ),
            None => self,
        }
    }

    // Addressing

    /// An address within page zero, indexed; the sum stays in the page.
    pub open spec fn zero_page_indexed(operand: u8, index: u8) -> u8 {
        wrap8(operand + index)
    }

    /// An address indexed; the sum wraps at the end of the address space.
    pub open spec fn indexed(base: u16, index: u8) -> u16 {
        wrap16(base + index)
    }

    /// The word stored in page zero at `location`, low byte first. The high byte
    /// is read from the next location within the page.
    pub open spec fn pointer_at(self, location: u8) -> u16 {
        word_of(self.read(wrap8(location + 1) as u16), self.read(location as u16))
    }

    /// The address that an instruction in `mode` reads or writes.
    pub open spec fn effective_address(self, mode: Mode, inst: Instruction) -> u16
        recommends
            mode.addresses_memory(),
    {
        match mode {
            Mode::ZeroPage => inst.first() as u16,
            Mode::ZeroPageX => Self::zero_page_indexed(inst.first(), self.index_x) as u16,
            Mode::ZeroPageY => Self::zero_page_indexed(inst.first(), self.index_y) as u16,
            Mode::Absolute => inst.absolute_address(),
            Mode::AbsoluteX => Self::indexed(inst.absolute_address(), self.index_x),
            Mode::AbsoluteY => Self::indexed(inst.absolute_address(), self.index_y),
            Mode::IndexedIndirect => self.pointer_at(
                Self::zero_page_indexed(inst.first(), self.index_x),
            ),
            Mode::IndirectIndexed => Self::indexed(self.pointer_at(inst.first()), self.index_y),
            _ => 0,
        }
    }

    /// Whether adding `index` to `base` leaves the page of `base`.
    pub open spec fn crosses_page(base: u16, index: u8) -> bool {
        page_of(Self::indexed(base, index)) != page_of(base)
    }

    /// Whether the index register carries the access of an instruction in
    /// `mode` out of the page of its base address.
    pub open spec fn page_crossed(self, mode: Mode, inst: Instruction) -> bool {
        match mode {
            Mode::AbsoluteX => Self::crosses_page(inst.absolute_address(), self.index_x),
            Mode::AbsoluteY => Self::crosses_page(inst.absolute_address(), self.index_y),
            Mode::IndirectIndexed => Self::crosses_page(
                self.pointer_at(inst.first()),
                self.index_y,
            ),
            _ => false,
        }
    }

    /// The value that an instruction in `mode` reads.
    pub open spec fn operand(self, mode: Mode, inst: Instruction) -> u8
        recommends
            mode is Immediate || mode is Accumulator || mode.addresses_memory(),
    {
        match mode {
            Mode::Accumulator => self.accumulator,
            Mode::Immediate => inst.first(),
            _ => self.read(self.effective_address(mode, inst)),
        }
    }

    /// The place that a shift or rotate in `mode` writes.
    pub open spec fn target(self, mode: Mode, inst: Instruction) -> Target
        recommends
            mode is Accumulator || mode.addresses_memory(),
    {
        match mode {
            Mode::Accumulator => Target::Accumulator,
            _ => Target::Memory(self.effective_address(mode, inst)),
        }
    }

    pub open spec fn with_target(self, dest: Target, value: u8) -> Machine {
        match dest {
            Target::Accumulator => Machine { accumulator: value, ..self },
            Target::Memory(address) => self.written(address, value),
        }
    }

    /// The cycles of a table row, and one more if the row is sensitive to page
    /// crossing and the access crosses.
    pub open spec fn cycle_cost(self, info: OpInfo, inst: Instruction) -> u32 {
        if info.page_cross_sensitive && self.page_crossed(info.mode, inst) {
            (info.cycles + 1) as u32
        } else {
            info.cycles as u32
        }
    }

    // Arithmetic and logic

    /// Add with carry. Carry tells whether the sum passes 255. Decimal mode
    /// changes nothing.
    pub open spec fn adc(self, operand: u8) -> Machine {
        let sum = self.accumulator + operand + self.carry_in();
        let result = wrap8(sum);
        Machine {
            accumulator: result,
            ..self.with_flag(FLAG_CARRY, sum > 255).with_flag(FLAG_ZERO, result == 0).with_flag(
                FLAG_OVERFLOW,
                sign_overflowed(result, self.accumulator, operand),
            ).with_flag(FLAG_NEGATIVE, result >= 128)
        }
    }

    /// Subtract with borrow: the sum of the accumulator, the complement of the
    /// operand and the carry.
    pub open spec fn sbc(self, operand: u8) -> Machine {
        self.adc(complement(operand))
    }

    pub open spec fn and(self, operand: u8) -> Machine {
        let result = self.accumulator & operand;
        Machine { accumulator: result, ..self.with_zero_negative(result) }
    }

    pub open spec fn ora(self, operand: u8) -> Machine {
        let result = self.accumulator | operand;
        Machine { accumulator: result, ..self.with_zero_negative(result) }
    }

    pub open spec fn eor(self, operand: u8) -> Machine {
        let result = self.accumulator ^ operand;
        Machine { accumulator: result, ..self.with_zero_negative(result) }
    }

    /// Bit test: zero and negative go by the accumulator masked with the
    /// operand, overflow copies bit 6 of the operand. No register changes.
    pub open spec fn bit_test(self, operand: u8) -> Machine {
        let result = self.accumulator & operand;
        self.with_flag(FLAG_ZERO, result == 0).with_flag(FLAG_OVERFLOW, bit(operand, 6)).with_flag(
            FLAG_NEGATIVE,
            result >= 128,
        )
    }

    /// A register set against an operand: carry tells that the register is not
    /// below it, zero that they are equal, negative copies bit 7 of their
    /// wrapping difference.
    pub open spec fn compared(self, register: u8, operand: u8) -> Machine {
        self.with_flag(FLAG_CARRY, register >= operand).with_flag(
            FLAG_ZERO,
            register == operand,
        ).with_flag(FLAG_NEGATIVE, wrap8(register - operand) >= 128)
    }

    pub open spec fn loaded_accumulator(self, value: u8) -> Machine {
        Machine { accumulator: value, ..self.with_zero_negative(value) }
    }

    pub open spec fn loaded_x(self, value: u8) -> Machine {
        Machine { index_x: value, ..self.with_zero_negative(value) }
    }

    pub open spec fn loaded_y(self, value: u8) -> Machine {
        Machine { index_y: value, ..self.with_zero_negative(value) }
    }

    /// `value` shifted left into `dest`; carry takes bit 7.
    pub open spec fn shifted_left(self, value: u8, dest: Target) -> Machine {
        let result = wrap8(value * 2);
        self.with_flag(FLAG_CARRY, value >= 128).with_zero_negative(result).with_target(
            dest,
            result,
        )
    }

    /// `value` shifted right into `dest`; carry takes bit 0.
    pub open spec fn shifted_right(self, value: u8, dest: Target) -> Machine {
        let result = value / 2;
        self.with_flag(FLAG_CARRY, value % 2 == 1).with_zero_negative(result).with_target(
            dest,
            result,
        )
    }

    /// `value` rotated left through carry into `dest`.
    pub open spec fn rotated_left(self, value: u8, dest: Target) -> Machine {
        let result = wrap8(value * 2 + self.carry_in());
        self.with_flag(FLAG_CARRY, value >= 128).with_zero_negative(result).with_target(
            dest,
            result,
        )
    }

    /// `value` rotated right through carry into `dest`.
    pub open spec fn rotated_right(self, value: u8, dest: Target) -> Machine {
        let result = (value / 2 + 128 * self.carry_in()) as u8;
        self.with_flag(FLAG_CARRY, value % 2 == 1).with_zero_negative(result).with_target(
            dest,
            result,
        )
    }

    pub open spec fn decremented(self, address: u16) -> Machine {
        let result = wrap8(self.read(address) - 1);
        self.written(address, result).with_zero_negative(result)
    }

    pub open spec fn incremented(self, address: u16) -> Machine {
        let result = wrap8(self.read(address) + 1);
        self.written(address, result).with_zero_negative(result)
    }

    /// A write to interrupt-disable left pending until the next instruction
    /// starts.
    pub open spec fn with_pending(self, value: bool) -> Machine {
        Machine { pending_interrupt_disable: Some(value), ..self }
    }

    pub open spec fn pulled_accumulator(self) -> Machine {
        self.popped().loaded_accumulator(self.stack_top())
    }

    pub open spec fn pulled_status(self) -> Machine {
        self.popped().status_decoded(self.stack_top(), true)
    }

    // Control flow

    /// Where a taken branch lands: past the instruction, displaced by the signed
    /// operand byte.
    pub open spec fn branch_target(self, inst: Instruction) -> u16 {
        wrap16(self.program_counter + inst.size + signed(inst.first()))
    }

    /// The cycles a branch costs beyond its base: none when it falls through,
    /// one when it lands in the page of the branch instruction, two otherwise.
    pub open spec fn branch_penalty(self, inst: Instruction, condition: bool) -> u32 {
        if !condition {
            0
        } else if page_of(self.branch_target(inst)) == page_of(self.program_counter) {
            1
        } else {
            2
        }
    }

    /// The condition on which a branch is taken; `None` for an operation that
    /// is no branch.
    pub open spec fn branch_condition(self, operation: Operation) -> Option<bool> {
        match operation {
            Operation::Bcc => Some(!self.carry()),
            Operation::Bcs => Some(self.carry()),
            Operation::Beq => Some(self.zero()),
            Operation::Bne => Some(!self.zero()),
            Operation::Bmi => Some(self.negative()),
            Operation::Bpl => Some(!self.negative()),
            Operation::Bvs => Some(self.overflow()),
            Operation::Bvc => Some(!self.overflow()),
            _ => None,
        }
    }

    /// A branch taken where `condition` holds; where it fails, execution falls
    /// through to the next instruction.
    pub open spec fn branched(self, inst: Instruction, condition: bool) -> Machine {
        if condition {
            self.at(self.branch_target(inst))
        } else {
            self.advanced(inst.size)
        }
    }

    /// A break: the return address and the status go on the stack, interrupts
    /// are disabled at once, and execution continues at the break vector.
    pub open spec fn interrupted(self) -> Machine {
        self.pushed_word(wrap16(self.program_counter + 2)).pushed(self.encoded_status()).with_flag(
            FLAG_INTERRUPT,
            true,
        ).at(BREAK_VECTOR)
    }

    /// A subroutine call: the return address goes on the stack.
    pub open spec fn called(self, target: u16) -> Machine {
        self.pushed_word(wrap16(self.program_counter + 2)).at(target)
    }

    /// Return from interrupt: the status comes off the stack, with
    /// interrupt-disable written at once, then the program counter.
    pub open spec fn returned_from_interrupt(self) -> Machine {
        let restored = self.popped().status_decoded(self.stack_top(), false);
        restored.popped_word().at(restored.top_word())
    }

    /// Return from subroutine: execution continues one past the address on the
    /// stack.
    pub open spec fn returned(self) -> Machine {
        self.popped_word().at(wrap16(self.top_word() + 1))
    }

    /// The effect of an operation that sets the program counter itself, before
    /// its cycles are charged.
    pub open spec fn diverted(self, info: OpInfo, inst: Instruction) -> Machine {
        match info.operation {
            Operation::Brk => self.interrupted(),
            Operation::Jmp => self.at(inst.absolute_address()),
            Operation::Jsr => self.called(inst.absolute_address()),
            Operation::Rti => self.returned_from_interrupt(),
            Operation::Rts => self.returned(),
            operation => match self.branch_condition(operation) {
                Some(condition) => self.branched(inst, condition),
                None => self,
            },
        }
    }

    /// The effect of an operation that reads `value`.
    #[verifier::opaque]
    pub open spec fn computed_on(self, operation: Operation, value: u8) -> Machine {
        match operation {
            Operation::Adc => self.adc(value),
            Operation::And => self.and(value),
            Operation::Bit => self.bit_test(value),
            Operation::Cmp => self.compared(self.accumulator, value),
            Operation::Cpx => self.compared(self.index_x, value),
            Operation::Cpy => self.compared(self.index_y, value),
            Operation::Eor => self.eor(value),
            Operation::Lda => self.loaded_accumulator(value),
            Operation::Ldx => self.loaded_x(value),
            Operation::Ldy => self.loaded_y(value),
            Operation::Ora => self.ora(value),
            Operation::Sbc => self.sbc(value),
            _ => self,
        }
    }

    /// The effect of an operation that writes to the place its mode names.
    #[verifier::opaque]
    pub open spec fn computed_at(self, operation: Operation, mode: Mode, inst: Instruction) -> Machine {
        let address = self.effective_address(mode, inst);
        match operation {
            Operation::Asl => self.shifted_left(self.operand(mode, inst), self.target(mode, inst)),
            Operation::Lsr => self.shifted_right(self.operand(mode, inst), self.target(mode, inst)),
            Operation::Rol => self.rotated_left(self.operand(mode, inst), self.target(mode, inst)),
            Operation::Ror => self.rotated_right(self.operand(mode, inst), self.target(mode, inst)),
            Operation::Dec => self.decremented(address),
            Operation::Inc => self.incremented(address),
            Operation::Sta => self.written(address, self.accumulator),
            Operation::Stx => self.written(address, self.index_x),
            Operation::Sty => self.written(address, self.index_y),
            _ => self,
        }
    }

    /// The effect of an operation on registers, flags and the stack alone.
    #[verifier::opaque]
    pub open spec fn computed_within(self, operation: Operation) -> Machine {
        match operation {
            Operation::Clc => self.with_flag(FLAG_CARRY, false),
            Operation::Cld => self.with_flag(FLAG_DECIMAL, false),
            Operation::Cli => self.with_pending(false),
            Operation::Clv => self.with_flag(FLAG_OVERFLOW, false),
            Operation::Dex => self.loaded_x(wrap8(self.index_x - 1)),
            Operation::Dey => self.loaded_y(wrap8(self.index_y - 1)),
            Operation::Inx => self.loaded_x(wrap8(self.index_x + 1)),
            Operation::Iny => self.loaded_y(wrap8(self.index_y + 1)),
            Operation::Nop => self,
            Operation::Pha => self.pushed(self.accumulator),
            Operation::Php => self.pushed(self.encoded_status()),
            Operation::Pla => self.pulled_accumulator(),
            Operation::Plp => self.pulled_status(),
            Operation::Sec => self.with_flag(FLAG_CARRY, true),
            Operation::Sed => self.with_flag(FLAG_DECIMAL, true),
            Operation::Sei => self.with_pending(true),
            Operation::Tax => self.loaded_x(self.accumulator),
            Operation::Tay => self.loaded_y(self.accumulator),
            Operation::Tsx => self.loaded_x(self.stack_pointer),
            Operation::Txa => self.loaded_accumulator(self.index_x),
            Operation::Txs => Machine { stack_pointer: self.index_x, ..self },
            Operation::Tya => self.loaded_accumulator(self.index_y),
            _ => self,
        }
    }

    /// The effect of an operation that leaves the program counter alone, before
    /// its cycles are charged and the program counter moves on.
    pub open spec fn computed(self, info: OpInfo, inst: Instruction) -> Machine {
        match info.operation.kind() {
            Kind::Read => self.computed_on(info.operation, self.operand(info.mode, inst)),
            Kind::Write => self.computed_at(info.operation, info.mode, inst),
            Kind::Internal => self.computed_within(info.operation),
            Kind::Flow => self,
        }
    }

    /// The cycles that a table row costs in this state: its base cycles, and
    /// the penalty of a taken branch or of a page crossing.
    pub open spec fn cost_of(self, info: OpInfo, inst: Instruction) -> u32 {
        match self.branch_condition(info.operation) {
            Some(condition) => (info.cycles + self.branch_penalty(inst, condition)) as u32,
            None => self.cycle_cost(info, inst),
        }
    }

    /// The effect of a table row on a state in which no flag write is pending
    /// any more.
    pub open spec fn performed(self, info: OpInfo, inst: Instruction) -> Machine {
        let moved = if info.operation.kind() is Flow {
            self.diverted(info, inst)
        } else {
            self.computed(info, inst).advanced(inst.size)
        };
        moved.charged(self.cost_of(info, inst))
    }

    /// The cycles that `inst` costs in this state. A fault costs nothing.
    pub open spec fn cost(self, inst: Instruction) -> u32 {
        match decode(inst.op_code) {
            Some(info) => if outcome_of(inst) is Ok {
                self.pending_applied().cost_of(info, inst)
            } else {
                0
            },
            None => 0,
        }
    }

    /// The state after `inst`. A pending write to interrupt-disable is carried
    /// out first; an instruction that faults does nothing more.
    pub open spec fn step(self, inst: Instruction) -> Machine {
        let ready = self.pending_applied();
        match decode(inst.op_code) {
            Some(info) => if outcome_of(inst) is Ok {
                ready.performed(info, inst)
            } else {
                ready
            },
            None => ready,
        }
    }
}

} // verus!
