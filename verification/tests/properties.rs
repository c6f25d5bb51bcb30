use mos6502::cpu::{Cpu, Fault, Instruction};

fn run(cpu: &mut Cpu, op_code: u8, operand_bytes: [u8; 2], size: u8) {
    cpu.execute_instruction(&Instruction::new(op_code, operand_bytes, size)).unwrap();
}

#[test]
fn cold_boot_state() {
    let cpu = Cpu::new();
    assert_eq!(cpu.memory.len(), 65536);
    assert!(cpu.memory.iter().all(|b| *b == 0));
    assert_eq!(cpu.program_counter, 0);
    assert_eq!(cpu.stack_pointer, 0xFF);
    assert_eq!(cpu.accumulator, 0);
    assert_eq!(cpu.index_x, 0);
    assert_eq!(cpu.index_y, 0);
    assert_eq!(cpu.processor_status, 0);
    assert_eq!(cpu.cycle, 0);
    assert_eq!(cpu.pending_interrupt_disable, None);
}

#[test]
fn adc_flags_for_every_accumulator_operand_and_carry() {
    let mut cpu = Cpu::new();
    for a in 0..=255u16 {
        for m in 0..=255u16 {
            for c in 0..=1u16 {
                cpu.accumulator = a as u8;
                cpu.set_flag_carry(c == 1);
                cpu.cycle = 0;
                run(&mut cpu, 0x69, [m as u8, 0], 2);
                let sum = a + m + c;
                let result = (sum % 256) as u8;
                assert_eq!(cpu.accumulator, result);
                assert_eq!(cpu.get_flag_zero(), result == 0);
                assert_eq!(cpu.get_flag_negative(), result & 0x80 != 0);
                assert_eq!(cpu.get_flag_carry(), sum > 255);
                let overflow = (result ^ a as u8) & (result ^ m as u8) & 0x80 != 0;
                assert_eq!(cpu.get_flag_overflow(), overflow);
                let signed = (a as u8 as i8) as i16 + (m as u8 as i8) as i16 + c as i16;
                assert_eq!(overflow, signed < -128 || signed > 127);
            }
        }
    }
}

#[test]
fn adc_ignores_decimal_mode() {
    let mut cpu = Cpu::new();
    cpu.set_flag_decimal(true);
    cpu.accumulator = 0x09;
    run(&mut cpu, 0x69, [0x01, 0], 2);
    assert_eq!(cpu.accumulator, 0x0A);
    assert_eq!(cpu.get_flag_decimal(), true);
    run(&mut cpu, 0xE9, [0x01, 0], 2);
    assert_eq!(cpu.accumulator, 0x08);
}

#[test]
fn sbc_subtracts_with_borrow() {
    let mut cpu = Cpu::new();
    cpu.accumulator = 0x50;
    cpu.set_flag_carry(true);
    run(&mut cpu, 0xE9, [0x30, 0], 2);
    assert_eq!(cpu.accumulator, 0x20);
    assert_eq!(cpu.get_flag_carry(), true);
    assert_eq!(cpu.get_flag_zero(), false);
    assert_eq!(cpu.get_flag_negative(), false);
    assert_eq!(cpu.get_flag_overflow(), false);
    assert_eq!(cpu.cycle, 2);

    let mut cpu = Cpu::new();
    cpu.accumulator = 0x50;
    cpu.set_flag_carry(false);
    run(&mut cpu, 0xE9, [0x50, 0], 2);
    assert_eq!(cpu.accumulator, 0xFF);
    assert_eq!(cpu.get_flag_carry(), false);
    assert_eq!(cpu.get_flag_negative(), true);

    let mut cpu = Cpu::new();
    cpu.accumulator = 0x50;
    cpu.set_flag_carry(true);
    run(&mut cpu, 0xE9, [0xB0, 0], 2);
    assert_eq!(cpu.accumulator, 0xA0);
    assert_eq!(cpu.get_flag_carry(), false);
    assert_eq!(cpu.get_flag_overflow(), true);

    let mut cpu = Cpu::new();
    cpu.accumulator = 0x42;
    cpu.set_flag_carry(true);
    run(&mut cpu, 0xE9, [0x42, 0], 2);
    assert_eq!(cpu.accumulator, 0);
    assert_eq!(cpu.get_flag_zero(), true);
    assert_eq!(cpu.get_flag_carry(), true);
}

#[test]
fn sbc_for_every_accumulator_operand_and_carry() {
    let mut cpu = Cpu::new();
    for a in 0..=255i16 {
        for m in 0..=255i16 {
            for c in 0..=1i16 {
                cpu.accumulator = a as u8;
                cpu.set_flag_carry(c == 1);
                cpu.cycle = 0;
                run(&mut cpu, 0xE9, [m as u8, 0], 2);
                let difference = a - m - (1 - c);
                assert_eq!(cpu.accumulator, difference.rem_euclid(256) as u8);
                assert_eq!(cpu.get_flag_carry(), difference >= 0);
                assert_eq!(cpu.get_flag_zero(), cpu.accumulator == 0);
                assert_eq!(cpu.get_flag_negative(), cpu.accumulator >= 0x80);
            }
        }
    }
}

#[test]
fn absolute_x_read_costs_one_more_across_a_page() {
    let mut cpu = Cpu::new();
    cpu.index_x = 0x01;
    cpu.memory[0x1200] = 0x77;
    run(&mut cpu, 0xBD, [0x11, 0xFF], 3);
    assert_eq!(cpu.accumulator, 0x77);
    assert_eq!(cpu.cycle, 5);

    let mut cpu = Cpu::new();
    cpu.index_x = 0x10;
    cpu.memory[0x1155] = 0x66;
    run(&mut cpu, 0xBD, [0x11, 0x45], 3);
    assert_eq!(cpu.accumulator, 0x66);
    assert_eq!(cpu.cycle, 4);
}

#[test]
fn absolute_x_store_costs_the_same_across_a_page() {
    let mut cpu = Cpu::new();
    cpu.index_x = 0x01;
    cpu.accumulator = 0x99;
    run(&mut cpu, 0x9D, [0x11, 0xFF], 3);
    assert_eq!(cpu.memory[0x1200], 0x99);
    assert_eq!(cpu.cycle, 5);
}

#[test]
fn push_then_pop_returns_the_byte_and_restores_the_stack_pointer() {
    let mut cpu = Cpu::new();
    for sp in 0..=255u8 {
        for x in [0u8, 1, 0x7F, 0x80, 0xFF, sp] {
            cpu.stack_pointer = sp;
            cpu.push(x);
            assert_eq!(cpu.stack_pointer, sp.wrapping_sub(1));
            assert_eq!(cpu.memory[0x0100 + sp as usize], x);
            assert_eq!(cpu.pop(), x);
            assert_eq!(cpu.stack_pointer, sp);
        }
    }
}

#[test]
fn stack_wraps_within_its_page() {
    let mut cpu = Cpu::new();
    cpu.stack_pointer = 0x00;
    cpu.push(0xAA);
    assert_eq!(cpu.memory[0x0100], 0xAA);
    assert_eq!(cpu.stack_pointer, 0xFF);
    cpu.push(0xBB);
    assert_eq!(cpu.memory[0x01FF], 0xBB);
    assert_eq!(cpu.pop(), 0xBB);
    assert_eq!(cpu.pop(), 0xAA);
    assert_eq!(cpu.stack_pointer, 0x00);
}

#[test]
fn word_on_the_stack_is_pushed_high_byte_first() {
    let mut cpu = Cpu::new();
    cpu.push_word(0xAB03);
    assert_eq!(cpu.memory[0x01FF], 0xAB);
    assert_eq!(cpu.memory[0x01FE], 0x03);
    assert_eq!(cpu.stack_pointer, 0xFD);
    assert_eq!(cpu.pop_word(), 0xAB03);
    assert_eq!(cpu.stack_pointer, 0xFF);
}

#[test]
fn jsr_then_rts_returns_past_the_call() {
    for pc in [0x0000u16, 0x0600, 0x12FE, 0xFFFC, 0xFFFD, 0xFFFF] {
        for sp in [0xFFu8, 0x80, 0x01, 0x00] {
            let mut cpu = Cpu::new();
            cpu.program_counter = pc;
            cpu.stack_pointer = sp;
            run(&mut cpu, 0x20, [0x34, 0x12], 3);
            assert_eq!(cpu.program_counter, 0x3412);
            assert_eq!(cpu.stack_pointer, sp.wrapping_sub(2));
            assert_eq!(cpu.cycle, 6);
            run(&mut cpu, 0x60, [0, 0], 1);
            assert_eq!(cpu.program_counter, pc.wrapping_add(3));
            assert_eq!(cpu.stack_pointer, sp);
            assert_eq!(cpu.cycle, 12);
        }
    }
}

#[test]
fn jmp_absolute_continues_at_the_target() {
    let mut cpu = Cpu::new();
    cpu.memory[0x1234] = 0x56;
    run(&mut cpu, 0x4C, [0x12, 0x34], 3);
    assert_eq!(cpu.program_counter, 0x1234);
    assert_eq!(cpu.cycle, 3);
}

#[test]
fn brk_then_rti_restores_flags_and_program_counter() {
    let mut cpu = Cpu::new();
    cpu.program_counter = 0xAB01;
    cpu.set_flag_negative(true);
    cpu.set_flag_carry(true);
    cpu.set_flag_decimal(true);
    run(&mut cpu, 0x00, [0, 0], 1);
    assert_eq!(cpu.get_flag_interrupt(), true);
    assert_eq!(cpu.stack_pointer, 0xFC);
    cpu.set_flag_negative(false);
    cpu.set_flag_carry(false);
    cpu.set_flag_zero(true);
    run(&mut cpu, 0x40, [0, 0], 1);
    assert_eq!(cpu.program_counter, 0xAB03);
    assert_eq!(cpu.stack_pointer, 0xFF);
    assert_eq!(cpu.get_flag_negative(), true);
    assert_eq!(cpu.get_flag_carry(), true);
    assert_eq!(cpu.get_flag_decimal(), true);
    assert_eq!(cpu.get_flag_zero(), false);
    // The status was pushed before the break disabled interrupts, and the
    // return writes the flag at once.
    assert_eq!(cpu.get_flag_interrupt(), false);
    assert_eq!(cpu.pending_interrupt_disable, None);
    assert_eq!(cpu.cycle, 13);
}

#[test]
fn sei_is_deferred_by_one_instruction() {
    let mut cpu = Cpu::new();
    run(&mut cpu, 0x78, [0, 0], 1);
    assert_eq!(cpu.get_flag_interrupt(), false);
    assert_eq!(cpu.pending_interrupt_disable, Some(true));
    run(&mut cpu, 0xEA, [0, 0], 1);
    assert_eq!(cpu.get_flag_interrupt(), true);
    assert_eq!(cpu.pending_interrupt_disable, None);
}

#[test]
fn plp_defers_interrupt_disable_and_writes_the_other_flags_at_once() {
    let mut cpu = Cpu::new();
    cpu.push(0b1100_1111);
    run(&mut cpu, 0x28, [0, 0], 1);
    assert_eq!(cpu.get_flag_carry(), true);
    assert_eq!(cpu.get_flag_zero(), true);
    assert_eq!(cpu.get_flag_decimal(), true);
    assert_eq!(cpu.get_flag_overflow(), true);
    assert_eq!(cpu.get_flag_negative(), true);
    assert_eq!(cpu.get_flag_interrupt(), false);
    assert_eq!(cpu.pending_interrupt_disable, Some(true));
    assert_eq!(cpu.stack_pointer, 0xFF);
    assert_eq!(cpu.program_counter, 1);
    assert_eq!(cpu.cycle, 4);
    run(&mut cpu, 0xEA, [0, 0], 1);
    assert_eq!(cpu.get_flag_interrupt(), true);
    assert_eq!(cpu.cycle, 6);
}

#[test]
fn php_pushes_the_status_with_the_unused_bits_set() {
    let mut cpu = Cpu::new();
    run(&mut cpu, 0x08, [0, 0], 1);
    assert_eq!(cpu.memory[0x01FF], 0b0011_0000);
    assert_eq!(cpu.cycle, 3);
    cpu.set_flag_zero(true);
    cpu.set_flag_overflow(true);
    cpu.set_flag_interrupt(true);
    run(&mut cpu, 0x08, [0, 0], 1);
    assert_eq!(cpu.memory[0x01FE], 0b0111_0110);
}

#[test]
fn status_byte_round_trip() {
    let mut cpu = Cpu::new();
    for byte in 0..=255u8 {
        cpu.set_processor_status(byte, false);
        assert_eq!(cpu.get_processor_status(), byte | 0x30);
        assert_eq!(cpu.get_flag_carry(), byte & 0x01 != 0);
        assert_eq!(cpu.get_flag_zero(), byte & 0x02 != 0);
        assert_eq!(cpu.get_flag_interrupt(), byte & 0x04 != 0);
        assert_eq!(cpu.get_flag_decimal(), byte & 0x08 != 0);
        assert_eq!(cpu.get_flag_overflow(), byte & 0x40 != 0);
        assert_eq!(cpu.get_flag_negative(), byte & 0x80 != 0);
    }
}

#[test]
fn flags_are_independent() {
    let mut cpu = Cpu::new();
    for offset in 0..8u8 {
        for other in 0..8u8 {
            cpu.processor_status = 0;
            cpu.set_flag(true, other);
            cpu.set_flag(true, offset);
            assert_eq!(cpu.get_flag(offset), true);
            assert_eq!(cpu.get_flag(other), true);
            cpu.set_flag(false, offset);
            assert_eq!(cpu.get_flag(offset), false);
            assert_eq!(cpu.get_flag(other), other != offset);
        }
    }
}

#[test]
fn unknown_opcode_is_a_fault() {
    let mut cpu = Cpu::new();
    cpu.accumulator = 7;
    cpu.pending_interrupt_disable = Some(true);
    let result = cpu.execute_instruction(&Instruction::new(0x02, [1, 2], 1));
    assert_eq!(result, Err(Fault::UnknownOpcode));
    assert_eq!(cpu.cycle, 0);
    assert_eq!(cpu.program_counter, 0);
    assert_eq!(cpu.accumulator, 7);
    assert_eq!(cpu.get_flag_interrupt(), true);
    assert_eq!(cpu.pending_interrupt_disable, None);
}

#[test]
fn indirect_jump_is_a_fault() {
    let mut cpu = Cpu::new();
    cpu.program_counter = 0x0600;
    let result = cpu.execute_instruction(&Instruction::new(0x6C, [0x12, 0x34], 3));
    assert_eq!(result, Err(Fault::UnsupportedAddressingMode));
    assert_eq!(cpu.cycle, 0);
    assert_eq!(cpu.program_counter, 0x0600);
}

#[test]
fn every_opcode_either_faults_or_costs_two_to_seven_cycles() {
    let mut known = 0;
    for op_code in 0..=255u8 {
        let mut cpu = Cpu::new();
        cpu.index_x = 0xFF;
        cpu.index_y = 0xFF;
        cpu.processor_status = 0xFF;
        match cpu.execute_instruction(&Instruction::new(op_code, [0xFF, 0xFF], 3)) {
            Ok(()) => {
                known += 1;
                assert!(cpu.cycle >= 2);
                assert!(cpu.cycle <= 7);
            }
            Err(fault) => {
                assert_eq!(cpu.cycle, 0);
                assert_eq!(fault == Fault::UnsupportedAddressingMode, op_code == 0x6C);
            }
        }
    }
    assert_eq!(known, 150);
}

#[test]
fn add_with_carry_sets_the_flags_for_every_accumulator_operand_and_carry() {
    let mut cpu = Cpu::new();
    cpu.cycle = u32::MAX;
    for a in 0..=255u16 {
        for m in 0..=255u16 {
            for c in 0..=1u16 {
                cpu.accumulator = a as u8;
                cpu.set_flag_carry(c == 1);
                cpu.add_with_carry(m as u8);
                let sum = a + m + c;
                let result = (sum % 256) as u8;
                assert_eq!(cpu.accumulator, result);
                assert_eq!(cpu.get_flag_zero(), result == 0);
                assert_eq!(cpu.get_flag_negative(), result & 0x80 != 0);
                assert_eq!(cpu.get_flag_carry(), sum > 255);
                assert_eq!(
                    cpu.get_flag_overflow(),
                    (result ^ a as u8) & (result ^ m as u8) & 0x80 != 0
                );
            }
        }
    }
    assert_eq!(cpu.cycle, u32::MAX);
}

#[test]
fn dispatched_instruction_moves_the_program_counter_and_the_clock() {
    for op_code in 0..=255u8 {
        for pending in [None, Some(false), Some(true)] {
            let mut cpu = Cpu::new();
            cpu.program_counter = 0xFFFE;
            cpu.cycle = 100;
            cpu.set_flag_interrupt(pending == Some(false));
            cpu.pending_interrupt_disable = pending;
            let flow = [
                0x90, 0xB0, 0xF0, 0x30, 0xD0, 0x10, 0x00, 0x50, 0x70, 0x4C, 0x6C, 0x20, 0x40, 0x60,
            ];
            let result = cpu.execute_instruction(&Instruction::new(op_code, [0x12, 0x34], 3));
            if result.is_err() || flow.contains(&op_code) {
                continue;
            }
            assert_eq!(cpu.program_counter, 0x0001);
            assert!(cpu.cycle > 100);
            if let Some(value) = pending {
                assert_eq!(cpu.get_flag_interrupt(), value);
            }
            match op_code {
                0x58 => assert_eq!(cpu.pending_interrupt_disable, Some(false)),
                0x78 => assert_eq!(cpu.pending_interrupt_disable, Some(true)),
                0x28 => assert_eq!(cpu.pending_interrupt_disable, Some(false)),
                _ => assert_eq!(cpu.pending_interrupt_disable, None),
            }
        }
    }
}

#[test]
fn read_modify_write_costs_by_mode() {
    // Accumulator, zero page, zero page indexed, absolute, absolute indexed.
    let rows: [(u8, [u8; 5]); 6] = [
        (2, [0x0A, 0x06, 0x16, 0x0E, 0x1E]),
        (2, [0x4A, 0x46, 0x56, 0x4E, 0x5E]),
        (2, [0x2A, 0x26, 0x36, 0x2E, 0x3E]),
        (2, [0x6A, 0x66, 0x76, 0x6E, 0x7E]),
        (0, [0x00, 0xC6, 0xD6, 0xCE, 0xDE]),
        (0, [0x00, 0xE6, 0xF6, 0xEE, 0xFE]),
    ];
    let costs: [u32; 5] = [2, 5, 6, 6, 7];
    for (accumulator_cost, op_codes) in rows {
        for (op_code, cost) in op_codes.iter().zip(costs) {
            if accumulator_cost == 0 && cost == 2 {
                continue;
            }
            let mut cpu = Cpu::new();
            cpu.index_x = 0xFF;
            cpu.execute_instruction(&Instruction::new(*op_code, [0x12, 0xFF], 3)).unwrap();
            assert_eq!(cpu.cycle, cost);
        }
    }
}

#[test]
fn eor_and_pull_costs() {
    let mut cpu = Cpu::new();
    cpu.memory[0x1234] = 0x0F;
    cpu.accumulator = 0xFF;
    run(&mut cpu, 0x4D, [0x12, 0x34], 3);
    assert_eq!(cpu.accumulator, 0xF0);
    assert_eq!(cpu.cycle, 4);
    run(&mut cpu, 0x68, [0, 0], 1);
    assert_eq!(cpu.cycle, 8);
    run(&mut cpu, 0x28, [0, 0], 1);
    assert_eq!(cpu.cycle, 12);
}

#[test]
fn call_then_return_continues_past_the_call_for_every_stack_pointer() {
    for pc in [0x0000u16, 0x0600, 0x12FE, 0xFFFC, 0xFFFD, 0xFFFE, 0xFFFF] {
        for sp in 0..=255u8 {
            let mut cpu = Cpu::new();
            cpu.cycle = u32::MAX;
            cpu.program_counter = pc;
            cpu.stack_pointer = sp;
            cpu.call_subroutine(0x3412);
            assert_eq!(cpu.program_counter, 0x3412);
            assert_eq!(cpu.stack_pointer, sp.wrapping_sub(2));
            cpu.return_from_subroutine();
            assert_eq!(cpu.program_counter, pc.wrapping_add(3));
            assert_eq!(cpu.stack_pointer, sp);
            assert_eq!(cpu.cycle, u32::MAX);
        }
    }
}
