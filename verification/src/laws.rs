//! Laws of the model: what holds of every state and every operand.

use vstd::prelude::*;
use crate::cpu::Instruction;
use crate::machine::{outcome_of, sign_overflowed, Machine};
use crate::opcode::{
    decode, instruction_length, lemma_decode_well_formed, Mode, OpInfo, Operation,
};
use crate::status::{
    lemma_flag_written, lemma_packed_status_bits, FLAG_BREAK, FLAG_CARRY, FLAG_DECIMAL,
    FLAG_INTERRUPT, FLAG_NEGATIVE, FLAG_OVERFLOW, FLAG_ZERO, STATUS_UNUSED,
};
use crate::word::{bit, lemma_end_bits, signed, wrap16, wrap8};

verus! {

/// A flag that was written reads as written, and every other flag reads as
/// before.
pub proof fn lemma_with_flag(s: Machine, offset: u8, value: bool)
    requires
        offset < 8,
    ensures
        s.with_flag(offset, value).flag(offset) == value,
        forall|other: u8|
            other < 8 && other != offset ==> #[trigger] s.with_flag(offset, value).flag(other)
                == s.flag(other),
        s.with_flag(offset, value).negative() == (if offset == FLAG_NEGATIVE {
            value
        } else {
            s.negative()
        }),
        s.with_flag(offset, value).overflow() == (if offset == FLAG_OVERFLOW {
            value
        } else {
            s.overflow()
        }),
        s.with_flag(offset, value).flag(FLAG_BREAK) == (if offset == FLAG_BREAK {
            value
        } else {
            s.flag(FLAG_BREAK)
        }),
        s.with_flag(offset, value).decimal() == (if offset == FLAG_DECIMAL {
            value
        } else {
            s.decimal()
        }),
        s.with_flag(offset, value).interrupt_disable() == (if offset == FLAG_INTERRUPT {
            value
        } else {
            s.interrupt_disable()
        }),
        s.with_flag(offset, value).zero() == (if offset == FLAG_ZERO {
            value
        } else {
            s.zero()
        }),
        s.with_flag(offset, value).carry() == (if offset == FLAG_CARRY {
            value
        } else {
            s.carry()
        }),
        s.with_flag(offset, value) == (Machine {
            processor_status: s.with_flag(offset, value).processor_status,
            ..s
        }),
{
    lemma_flag_written(s.processor_status, offset, value);
    let after = s.with_flag(offset, value);
    assert(after.flag(FLAG_NEGATIVE) == s.flag(FLAG_NEGATIVE) || offset == FLAG_NEGATIVE);
    assert(after.flag(FLAG_OVERFLOW) == s.flag(FLAG_OVERFLOW) || offset == FLAG_OVERFLOW);
    assert(after.flag(FLAG_BREAK) == s.flag(FLAG_BREAK) || offset == FLAG_BREAK);
    assert(after.flag(FLAG_DECIMAL) == s.flag(FLAG_DECIMAL) || offset == FLAG_DECIMAL);
    assert(after.flag(FLAG_INTERRUPT) == s.flag(FLAG_INTERRUPT) || offset == FLAG_INTERRUPT);
    assert(after.flag(FLAG_ZERO) == s.flag(FLAG_ZERO) || offset == FLAG_ZERO);
    assert(after.flag(FLAG_CARRY) == s.flag(FLAG_CARRY) || offset == FLAG_CARRY);
}

/// After an addition with carry, for every accumulator, operand and carry:
/// the accumulator holds the sum reduced to a byte; zero tells whether that
/// byte is zero; negative is its bit 7; carry tells whether the sum passed
/// 255; overflow tells whether the sign of the byte differs from the signs of
/// both the accumulator and the operand. Decimal, interrupt-disable and break
/// keep their values, as does everything outside the accumulator and the
/// status register.
pub proof fn lemma_adc_flags(s: Machine, operand: u8)
    ensures
        ({
            let sum = s.accumulator + operand + s.carry_in();
            let after = s.adc(operand);
            &&& after.accumulator == sum % 256
            &&& after.zero() <==> sum % 256 == 0
            &&& after.negative() <==> bit(wrap8(sum), 7)
            &&& after.carry() <==> sum > 255
            &&& after.overflow() <==> sign_overflowed(wrap8(sum), s.accumulator, operand)
            &&& after.decimal() == s.decimal()
            &&& after.interrupt_disable() == s.interrupt_disable()
            &&& after.flag(FLAG_BREAK) == s.flag(FLAG_BREAK)
            &&& after == (Machine {
                accumulator: after.accumulator,
                processor_status: after.processor_status,
                ..s
            })
        }),
{
    let sum = s.accumulator + operand + s.carry_in();
    let result = wrap8(sum);
    let s1 = s.with_flag(FLAG_CARRY, sum > 255);
    let s2 = s1.with_flag(FLAG_ZERO, result == 0);
    let s3 = s2.with_flag(FLAG_OVERFLOW, sign_overflowed(result, s.accumulator, operand));
    let s4 = s3.with_flag(FLAG_NEGATIVE, result >= 128);
    lemma_with_flag(s, FLAG_CARRY, sum > 255);
    lemma_with_flag(s1, FLAG_ZERO, result == 0);
    lemma_with_flag(s2, FLAG_OVERFLOW, sign_overflowed(result, s.accumulator, operand));
    lemma_with_flag(s3, FLAG_NEGATIVE, result >= 128);
    lemma_end_bits(result);
}

/// The overflow flag of an addition tells that the sum of the accumulator, the
/// operand and the carry, all read as signed numbers, does not fit in a signed
/// byte.
pub proof fn lemma_overflow_is_signed_overflow(accumulator: u8, operand: u8, carry: bool)
    ensures
        ({
            let c: int = if carry {
                1
            } else {
                0
            };
            let signed_sum = signed(accumulator) + signed(operand) + c;
            sign_overflowed(wrap8(accumulator + operand + c), accumulator, operand) <==> !(-128
                <= signed_sum <= 127)
        }),
{
    let c: u8 = if carry {
        1
    } else {
        0
    };
    let result = wrap8(accumulator + operand + c);
    assert(((result ^ accumulator) & (result ^ operand) & 0x80 != 0) <==> ((accumulator >= 128)
        == (operand >= 128) && (result >= 128) != (accumulator >= 128))) by (bit_vector);
}

/// After a subtraction with borrow, for every accumulator, operand and carry:
/// the accumulator holds the difference, less one more where carry was clear,
/// reduced to a byte; carry tells that nothing was borrowed.
pub proof fn lemma_sbc_subtracts(s: Machine, operand: u8)
    ensures
        ({
            let difference = s.accumulator - operand - (1 - s.carry_in());
            let after = s.sbc(operand);
            &&& after.accumulator == wrap8(difference)
            &&& after.carry() <==> difference >= 0
            &&& after.zero() <==> after.accumulator == 0
            &&& after.negative() <==> after.accumulator >= 128
        }),
{
    lemma_adc_flags(s, (255 - operand) as u8);
    let sum = s.accumulator + (255 - operand) + s.carry_in();
    lemma_end_bits(wrap8(sum));
}

/// A comparison never changes a register or memory, and its flags order the
/// register and the operand: carry tells that the register is not below the
/// operand, zero that the two are equal.
pub proof fn lemma_compared_flags(s: Machine, register: u8, operand: u8)
    ensures
        ({
            let after = s.compared(register, operand);
            &&& after.carry() <==> register >= operand
            &&& after.zero() <==> register == operand
            &&& after.negative() <==> wrap8(register - operand) >= 128
            &&& after.overflow() == s.overflow()
            &&& after.interrupt_disable() == s.interrupt_disable()
            &&& after == (Machine { processor_status: after.processor_status, ..s })
        }),
{
    let s1 = s.with_flag(FLAG_CARRY, register >= operand);
    let s2 = s1.with_flag(FLAG_ZERO, register == operand);
    lemma_with_flag(s, FLAG_CARRY, register >= operand);
    lemma_with_flag(s1, FLAG_ZERO, register == operand);
    lemma_with_flag(s2, FLAG_NEGATIVE, wrap8(register - operand) >= 128);
}

/// A byte that is pushed is the byte that the next pop returns, and that pop
/// puts the stack pointer back where it was before the push. No other byte of
/// memory changes.
pub proof fn lemma_push_pop(s: Machine, value: u8)
    requires
        s.well_formed(),
    ensures
        s.pushed(value).stack_top() == value,
        s.pushed(value).popped().stack_pointer == s.stack_pointer,
        s.pushed(value).popped() == s.written(Machine::stack_address(s.stack_pointer), value),
        forall|address: u16|
            address != Machine::stack_address(s.stack_pointer) ==> s.pushed(value).read(address)
                == s.read(address),
{
}

/// A word that is pushed is the word that the next two pops return, and those
/// pops put the stack pointer back where it was.
pub proof fn lemma_push_pop_word(s: Machine, value: u16)
    requires
        s.well_formed(),
    ensures
        s.pushed_word(value).top_word() == value,
        s.pushed_word(value).popped_word().stack_pointer == s.stack_pointer,
{
}

/// The status byte that goes on the stack always has its two unused bits set,
/// and carries each flag at its place.
pub proof fn lemma_encoded_status(s: Machine)
    ensures
        s.encoded_status() & STATUS_UNUSED == STATUS_UNUSED,
        bit(s.encoded_status(), 7) == s.negative(),
        bit(s.encoded_status(), 6) == s.overflow(),
        bit(s.encoded_status(), 3) == s.decimal(),
        bit(s.encoded_status(), 2) == s.interrupt_disable(),
        bit(s.encoded_status(), 1) == s.zero(),
        bit(s.encoded_status(), 0) == s.carry(),
{
    lemma_packed_status_bits(
        s.negative(),
        s.overflow(),
        s.decimal(),
        s.interrupt_disable(),
        s.zero(),
        s.carry(),
    );
}

/// Unpacking a status byte gives every flag the bit at its place. With the
/// write to interrupt-disable deferred, that flag keeps its value and the bit
/// is left pending.
pub proof fn lemma_status_decoded(s: Machine, byte: u8, deferred: bool)
    ensures
        ({
            let after = s.status_decoded(byte, deferred);
            &&& after.carry() == bit(byte, 0)
            &&& after.zero() == bit(byte, 1)
            &&& after.decimal() == bit(byte, 3)
            &&& after.overflow() == bit(byte, 6)
            &&& after.negative() == bit(byte, 7)
            &&& after.flag(FLAG_BREAK) == s.flag(FLAG_BREAK)
            &&& !deferred ==> after.interrupt_disable() == bit(byte, 2)
                && after.pending_interrupt_disable == s.pending_interrupt_disable
            &&& deferred ==> after.interrupt_disable() == s.interrupt_disable()
                && after.pending_interrupt_disable == Some(bit(byte, 2))
        }),
{
    let s1 = s.with_flag(FLAG_CARRY, bit(byte, 0));
    let s2 = s1.with_flag(FLAG_ZERO, bit(byte, 1));
    let s3 = if deferred {
        Machine { pending_interrupt_disable: Some(bit(byte, 2)), ..s2 }
    } else {
        s2.with_flag(FLAG_INTERRUPT, bit(byte, 2))
    };
    let s4 = s3.with_flag(FLAG_DECIMAL, bit(byte, 3));
    let s5 = s4.with_flag(FLAG_OVERFLOW, bit(byte, 6));
    lemma_with_flag(s, FLAG_CARRY, bit(byte, 0));
    lemma_with_flag(s1, FLAG_ZERO, bit(byte, 1));
    lemma_with_flag(s2, FLAG_INTERRUPT, bit(byte, 2));
    lemma_with_flag(s3, FLAG_DECIMAL, bit(byte, 3));
    lemma_with_flag(s4, FLAG_OVERFLOW, bit(byte, 6));
    lemma_with_flag(s5, FLAG_NEGATIVE, bit(byte, 7));
}

/// A status byte that is packed and unpacked again gives back the six flags.
pub proof fn lemma_status_round_trip(s: Machine)
    ensures
        ({
            let after = s.status_decoded(s.encoded_status(), false);
            &&& after.carry() == s.carry()
            &&& after.zero() == s.zero()
            &&& after.interrupt_disable() == s.interrupt_disable()
            &&& after.decimal() == s.decimal()
            &&& after.overflow() == s.overflow()
            &&& after.negative() == s.negative()
        }),
{
    lemma_encoded_status(s);
    lemma_status_decoded(s, s.encoded_status(), false);
}

/// An operation on a value changes neither the clock, the program counter nor
/// memory.
pub proof fn lemma_computed_on_keeps(s: Machine, operation: Operation, value: u8)
    ensures
        s.computed_on(operation, value).cycle == s.cycle,
        s.computed_on(operation, value).program_counter == s.program_counter,
        s.computed_on(operation, value).memory == s.memory,
{
    reveal(Machine::computed_on);
}

/// An operation on a place changes neither the clock nor the program counter,
/// and leaves memory as long as it was.
pub proof fn lemma_computed_at_keeps(
    s: Machine,
    operation: Operation,
    mode: Mode,
    inst: Instruction,
)
    ensures
        s.computed_at(operation, mode, inst).cycle == s.cycle,
        s.computed_at(operation, mode, inst).program_counter == s.program_counter,
        s.well_formed() ==> s.computed_at(operation, mode, inst).well_formed(),
{
    reveal(Machine::computed_at);
}

/// An operation on registers, flags and the stack changes neither the clock
/// nor the program counter, and leaves memory as long as it was.
pub proof fn lemma_computed_within_keeps(s: Machine, operation: Operation)
    ensures
        s.computed_within(operation).cycle == s.cycle,
        s.computed_within(operation).program_counter == s.program_counter,
        s.well_formed() ==> s.computed_within(operation).well_formed(),
{
    reveal(Machine::computed_within);
}

/// An operation that sets the program counter itself leaves the clock alone
/// and memory as long as it was.
pub proof fn lemma_diverted_keeps(s: Machine, info: OpInfo, inst: Instruction)
    ensures
        s.diverted(info, inst).cycle == s.cycle,
        s.well_formed() ==> s.diverted(info, inst).well_formed(),
{
}

/// The cycle counter only grows: an instruction that is executed adds its
/// cost, which is at least two cycles and at most seven, and a fault adds
/// nothing.
pub proof fn lemma_step_cost(s: Machine, inst: Instruction)
    ensures
        s.step(inst).cycle == s.cycle + s.cost(inst),
        s.cost(inst) <= 7,
        outcome_of(inst) is Ok ==> s.cost(inst) >= 2,
        outcome_of(inst) is Err ==> s.cost(inst) == 0,
{
    lemma_decode_well_formed(inst.op_code);
    let ready = s.pending_applied();
    assert(ready.cycle == s.cycle);
    match decode(inst.op_code) {
        Some(info) => {
            if outcome_of(inst) is Ok {
                lemma_computed_on_keeps(ready, info.operation, ready.operand(info.mode, inst));
                lemma_computed_at_keeps(ready, info.operation, info.mode, inst);
                lemma_computed_within_keeps(ready, info.operation);
                lemma_diverted_keeps(ready, info, inst);
                assert(ready.computed(info, inst).cycle == ready.cycle);
                assert(ready.cost_of(info, inst) <= 7);
            }
        },
        None => {},
    }
}

/// An instruction that faults does no more than carry out the pending write to
/// interrupt-disable.
pub proof fn lemma_fault_stops(s: Machine, inst: Instruction)
    requires
        outcome_of(inst) is Err,
    ensures
        s.step(inst) == s.pending_applied(),
        s.step(inst) == (Machine {
            processor_status: s.step(inst).processor_status,
            pending_interrupt_disable: None,
            ..s
        }),
{
}

/// Memory spans the whole address space after every instruction.
pub proof fn lemma_step_well_formed(s: Machine, inst: Instruction)
    requires
        s.well_formed(),
    ensures
        s.step(inst).well_formed(),
{
    let ready = s.pending_applied();
    match decode(inst.op_code) {
        Some(info) => {
            lemma_computed_on_keeps(ready, info.operation, ready.operand(info.mode, inst));
            lemma_computed_at_keeps(ready, info.operation, info.mode, inst);
            lemma_computed_within_keeps(ready, info.operation);
            lemma_diverted_keeps(ready, info, inst);
        },
        None => {},
    }
}

/// A return undoes a call: it continues three bytes past the address at which
/// the call was made, with the stack pointer where the call found it.
pub proof fn lemma_called_returned(s: Machine, target: u16)
    requires
        s.well_formed(),
    ensures
        s.called(target).program_counter == target,
        s.called(target).returned().program_counter == wrap16(s.program_counter + 3),
        s.called(target).returned().stack_pointer == s.stack_pointer,
{
    let return_address = wrap16(s.program_counter + 2);
    lemma_push_pop_word(s, return_address);
    let called = s.called(target);
    assert(called.top_word() == s.pushed_word(return_address).top_word());
    assert(called.popped_word().stack_pointer == s.pushed_word(
        return_address,
    ).popped_word().stack_pointer);
}

/// A call continues at its target. The return that follows it continues at
/// the instruction after the call, three bytes past the call's own address,
/// and leaves the stack pointer where the call found it.
pub proof fn lemma_jsr_rts_round_trip(s: Machine, jsr: Instruction, rts: Instruction)
    requires
        s.well_formed(),
        jsr.performs(Operation::Jsr),
        rts.performs(Operation::Rts),
    ensures
        s.step(jsr).program_counter == jsr.absolute_address(),
        s.step(jsr).step(rts).program_counter == wrap16(s.program_counter + 3),
        s.step(jsr).step(rts).stack_pointer == s.stack_pointer,
{
    lemma_decode_well_formed(jsr.op_code);
    lemma_decode_well_formed(rts.op_code);
    let ready = s.pending_applied();
    let target = jsr.absolute_address();
    let call = decode(jsr.op_code)->0;
    let back = decode(rts.op_code)->0;
    let called = ready.called(target);
    let paid = called.charged(ready.cost_of(call, jsr));
    assert(s.step(jsr) == paid);
    assert(paid.pending_applied() == paid);
    lemma_called_returned(ready, target);
    assert(paid.returned() == called.returned().charged(ready.cost_of(call, jsr)));
    assert(paid.step(rts) == paid.returned().charged(paid.cost_of(back, rts)));
}

/// A write to interrupt-disable by CLI or SEI is deferred by one instruction.
/// After the write alone the flag is what the state before it made it, and
/// the new value is pending; where nothing was pending before, the flag is
/// unchanged. Only after the next instruction, here one that does nothing,
/// does the flag read as written, with nothing pending any more.
pub proof fn lemma_interrupt_disable_is_deferred(s: Machine, write: Instruction, next: Instruction)
    requires
        write.performs(Operation::Cli) || write.performs(Operation::Sei),
        next.performs(Operation::Nop),
    ensures
        s.step(write).interrupt_disable() == s.pending_applied().interrupt_disable(),
        s.pending_interrupt_disable is None ==> s.step(write).interrupt_disable()
            == s.interrupt_disable(),
        s.step(write).pending_interrupt_disable == Some(write.performs(Operation::Sei)),
        s.step(write).step(next).interrupt_disable() == write.performs(Operation::Sei),
        s.step(write).step(next).pending_interrupt_disable is None,
{
    reveal(Machine::computed_within);
    lemma_decode_well_formed(write.op_code);
    lemma_decode_well_formed(next.op_code);
    let value = write.performs(Operation::Sei);
    let written = s.step(write);
    assert(written.pending_interrupt_disable == Some(value));
    lemma_with_flag(Machine { pending_interrupt_disable: None, ..written }, FLAG_INTERRUPT, value);
}

/// Decimal mode changes nothing about an addition or a subtraction: with the
/// decimal flag set or clear, the accumulator and the other flags come out the
/// same.
pub proof fn lemma_decimal_is_ignored(s: Machine, operand: u8, decimal: bool)
    ensures
        ({
            let other = s.with_flag(FLAG_DECIMAL, decimal);
            &&& other.adc(operand).accumulator == s.adc(operand).accumulator
            &&& other.adc(operand).carry() == s.adc(operand).carry()
            &&& other.adc(operand).zero() == s.adc(operand).zero()
            &&& other.adc(operand).overflow() == s.adc(operand).overflow()
            &&& other.adc(operand).negative() == s.adc(operand).negative()
            &&& other.sbc(operand).accumulator == s.sbc(operand).accumulator
            &&& other.sbc(operand).carry() == s.sbc(operand).carry()
            &&& other.adc(operand).decimal() == decimal
            &&& other.sbc(operand).decimal() == decimal
        }),
{
    let other = s.with_flag(FLAG_DECIMAL, decimal);
    lemma_with_flag(s, FLAG_DECIMAL, decimal);
    lemma_adc_flags(s, operand);
    lemma_adc_flags(other, operand);
    lemma_adc_flags(s, (255 - operand) as u8);
    lemma_adc_flags(other, (255 - operand) as u8);
}

/// Every instruction is one, two or three bytes long.
pub proof fn lemma_instruction_length_range(op_code: u8)
    ensures
        instruction_length(op_code) matches Some(size) ==> 1 <= size <= 3,
{
}

/// Writing zero and negative from a result leaves the other flags alone.
pub proof fn lemma_with_zero_negative(s: Machine, result: u8)
    ensures
        s.with_zero_negative(result).zero() == (result == 0),
        s.with_zero_negative(result).negative() == (result >= 128),
        s.with_zero_negative(result).carry() == s.carry(),
        s.with_zero_negative(result).overflow() == s.overflow(),
        s.with_zero_negative(result).decimal() == s.decimal(),
        s.with_zero_negative(result).interrupt_disable() == s.interrupt_disable(),
        s.with_zero_negative(result).flag(FLAG_BREAK) == s.flag(FLAG_BREAK),
{
    lemma_with_flag(s, FLAG_ZERO, result == 0);
    lemma_with_flag(s.with_flag(FLAG_ZERO, result == 0), FLAG_NEGATIVE, result >= 128);
}

/// An operation on a value neither writes interrupt-disable nor leaves a
/// write to it pending.
pub proof fn lemma_computed_on_keeps_interrupt_disable(s: Machine, operation: Operation, value: u8)
    ensures
        s.computed_on(operation, value).interrupt_disable() == s.interrupt_disable(),
        s.computed_on(operation, value).pending_interrupt_disable == s.pending_interrupt_disable,
{
    reveal(Machine::computed_on);
    lemma_adc_flags(s, value);
    lemma_adc_flags(s, (255 - value) as u8);
    lemma_with_zero_negative(s, s.accumulator & value);
    lemma_with_zero_negative(s, s.accumulator | value);
    lemma_with_zero_negative(s, s.accumulator ^ value);
    lemma_with_zero_negative(s, value);
    lemma_compared_flags(s, s.accumulator, value);
    lemma_compared_flags(s, s.index_x, value);
    lemma_compared_flags(s, s.index_y, value);
    let masked = s.accumulator & value;
    let s1 = s.with_flag(FLAG_ZERO, masked == 0);
    let s2 = s1.with_flag(FLAG_OVERFLOW, bit(value, 6));
    lemma_with_flag(s, FLAG_ZERO, masked == 0);
    lemma_with_flag(s1, FLAG_OVERFLOW, bit(value, 6));
    lemma_with_flag(s2, FLAG_NEGATIVE, masked >= 128);
}

/// An operation on a place neither writes interrupt-disable nor leaves a
/// write to it pending.
pub proof fn lemma_computed_at_keeps_interrupt_disable(
    s: Machine,
    operation: Operation,
    mode: Mode,
    inst: Instruction,
)
    ensures
        s.computed_at(operation, mode, inst).interrupt_disable() == s.interrupt_disable(),
        s.computed_at(operation, mode, inst).pending_interrupt_disable
            == s.pending_interrupt_disable,
{
    reveal(Machine::computed_at);
    let value = s.operand(mode, inst);
    let address = s.effective_address(mode, inst);
    let high = s.with_flag(FLAG_CARRY, value >= 128);
    let low = s.with_flag(FLAG_CARRY, value % 2 == 1);
    lemma_with_flag(s, FLAG_CARRY, value >= 128);
    lemma_with_flag(s, FLAG_CARRY, value % 2 == 1);
    lemma_with_zero_negative(high, wrap8(value * 2));
    lemma_with_zero_negative(high, wrap8(value * 2 + s.carry_in()));
    lemma_with_zero_negative(low, value / 2);
    lemma_with_zero_negative(low, (value / 2 + 128 * s.carry_in()) as u8);
    let down = wrap8(s.read(address) - 1);
    let up = wrap8(s.read(address) + 1);
    lemma_with_zero_negative(s.written(address, down), down);
    lemma_with_zero_negative(s.written(address, up), up);
}

/// An operation on registers, flags and the stack does not write
/// interrupt-disable. CLI, SEI and PLP leave a write to it pending; no other
/// does.
pub proof fn lemma_computed_within_keeps_interrupt_disable(s: Machine, operation: Operation)
    ensures
        s.computed_within(operation).interrupt_disable() == s.interrupt_disable(),
        !(operation is Cli || operation is Sei || operation is Plp) ==> s.computed_within(
            operation,
        ).pending_interrupt_disable == s.pending_interrupt_disable,
        operation is Cli ==> s.computed_within(operation).pending_interrupt_disable == Some(false),
        operation is Sei ==> s.computed_within(operation).pending_interrupt_disable == Some(true),
        operation is Plp ==> s.computed_within(operation).pending_interrupt_disable == Some(
            bit(s.stack_top(), 2),
        ),
{
    reveal(Machine::computed_within);
    lemma_with_flag(s, FLAG_CARRY, false);
    lemma_with_flag(s, FLAG_CARRY, true);
    lemma_with_flag(s, FLAG_DECIMAL, false);
    lemma_with_flag(s, FLAG_DECIMAL, true);
    lemma_with_flag(s, FLAG_OVERFLOW, false);
    lemma_with_zero_negative(s, wrap8(s.index_x - 1));
    lemma_with_zero_negative(s, wrap8(s.index_x + 1));
    lemma_with_zero_negative(s, wrap8(s.index_y - 1));
    lemma_with_zero_negative(s, wrap8(s.index_y + 1));
    lemma_with_zero_negative(s, s.accumulator);
    lemma_with_zero_negative(s, s.index_x);
    lemma_with_zero_negative(s, s.index_y);
    lemma_with_zero_negative(s, s.stack_pointer);
    lemma_with_zero_negative(s.popped(), s.stack_top());
    lemma_status_decoded(s.popped(), s.stack_top(), true);
}

/// An instruction that leaves the program counter to the dispatcher moves it
/// past the instruction and makes the clock grow, by at least two cycles. A
/// write to interrupt-disable that was pending before it has been carried out
/// after it, with nothing pending any more, unless the instruction itself is a
/// CLI, SEI or PLP, which leaves its own write pending.
pub proof fn lemma_step_advances(s: Machine, inst: Instruction)
    requires
        outcome_of(inst) is Ok,
        !(decode(inst.op_code)->0.operation.kind() is Flow),
    ensures
        s.step(inst).program_counter == wrap16(s.program_counter + inst.size),
        s.step(inst).cycle >= s.cycle + 2,
        s.step(inst).cycle <= s.cycle + 7,
        s.step(inst).interrupt_disable() == s.pending_applied().interrupt_disable(),
        !(inst.performs(Operation::Cli) || inst.performs(Operation::Sei) || inst.performs(
            Operation::Plp,
        )) ==> s.step(inst).pending_interrupt_disable is None,
        forall|value: bool|
            s.pending_interrupt_disable == Some(value) ==> s.step(inst).interrupt_disable()
                == value,
{
    lemma_decode_well_formed(inst.op_code);
    lemma_step_cost(s, inst);
    let info = decode(inst.op_code)->0;
    let ready = s.pending_applied();
    lemma_computed_on_keeps(ready, info.operation, ready.operand(info.mode, inst));
    lemma_computed_at_keeps(ready, info.operation, info.mode, inst);
    lemma_computed_within_keeps(ready, info.operation);
    lemma_computed_on_keeps_interrupt_disable(
        ready,
        info.operation,
        ready.operand(info.mode, inst),
    );
    lemma_computed_at_keeps_interrupt_disable(ready, info.operation, info.mode, inst);
    lemma_computed_within_keeps_interrupt_disable(ready, info.operation);
    if s.pending_interrupt_disable is Some {
        lemma_with_flag(
            Machine { pending_interrupt_disable: None, ..s },
            FLAG_INTERRUPT,
            s.pending_interrupt_disable->0,
        );
    }
}

} // verus!
