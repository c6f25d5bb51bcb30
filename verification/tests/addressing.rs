use mos6502::addressing::{
    increment_if_crossed_absolute, increment_if_crossed_indirect_indexed, Target,
};
use mos6502::cpu::{Cpu, Instruction};
use mos6502::opcode::Mode;
use mos6502::word::{bit_of, decrement, high_byte, increment, low_byte, word};

fn run(cpu: &mut Cpu, op_code: u8, operand_bytes: [u8; 2], size: u8) {
    cpu.execute_instruction(&Instruction::new(op_code, operand_bytes, size)).unwrap();
}

#[test]
fn words_join_and_split() {
    assert_eq!(word(0x12, 0x34), 0x1234);
    assert_eq!(word(0xFF, 0xFF), 0xFFFF);
    assert_eq!(word(0x00, 0x80), 0x0080);
    assert_eq!(high_byte(0xAB03), 0xAB);
    assert_eq!(low_byte(0xAB03), 0x03);
    assert_eq!(decrement(0), 255);
    assert_eq!(increment(255), 0);
    assert_eq!(bit_of(0x40, 6), true);
    assert_eq!(bit_of(0x40, 7), false);
}

#[test]
fn absolute_address_is_high_byte_first() {
    let inst = Instruction::new(0xAD, [0x24, 0x57], 3);
    assert_eq!(inst.get_absolute_addr(), 0x2457);
}

#[test]
fn zero_page_indexing_stays_in_page_zero() {
    let mut cpu = Cpu::new();
    cpu.index_x = 0x20;
    cpu.index_y = 0x30;
    cpu.memory[0x0010] = 0x11;
    cpu.memory[0x0020] = 0x22;
    cpu.memory[0x0110] = 0x33;
    assert_eq!(cpu.get_addr_zero_index(0xFF), 0xFF);
    assert_eq!(cpu.get_addr_zero_x_index(0xF0), 0x10);
    assert_eq!(cpu.get_addr_zero_y_index(0xF0), 0x20);
    assert_eq!(cpu.get_addr_zero_x(0xF0), 0x11);
    assert_eq!(cpu.get_addr_zero_y(0xF0), 0x22);
    cpu.memory[0x00FF] = 0x44;
    assert_eq!(cpu.get_addr_zero(0xFF), 0x44);
    cpu.set_addr_zero(0xFF, 0x55);
    assert_eq!(cpu.memory[0x00FF], 0x55);
    cpu.set_addr_zero_x(0xF0, 0x66);
    assert_eq!(cpu.memory[0x0010], 0x66);
    assert_eq!(cpu.memory[0x0110], 0x33);
}

#[test]
fn absolute_indexing_wraps_at_the_end_of_memory() {
    let mut cpu = Cpu::new();
    cpu.index_x = 0x02;
    cpu.index_y = 0x03;
    cpu.memory[0x0001] = 0x11;
    cpu.memory[0x0002] = 0x22;
    cpu.memory[0xFFFF] = 0x33;
    assert_eq!(cpu.get_addr_absolute(0xFFFF), 0x33);
    assert_eq!(cpu.get_addr_absolute_x(0xFFFF), 0x11);
    assert_eq!(cpu.get_addr_absolute_y(0xFFFF), 0x22);
    cpu.set_addr_absolute(0xFFFF, 0x44);
    assert_eq!(cpu.memory[0xFFFF], 0x44);
    cpu.set_addr_absolute_x(0xFFFF, 0x55);
    assert_eq!(cpu.memory[0x0001], 0x55);
}

#[test]
fn indirect_pointers_are_read_within_page_zero() {
    let mut cpu = Cpu::new();
    cpu.memory[0x00FF] = 0x10;
    cpu.memory[0x0000] = 0x20;
    cpu.memory[0x0100] = 0x99;
    assert_eq!(cpu.pointer_at(0xFF), 0x2010);

    cpu.index_x = 0x0F;
    cpu.memory[0x2010] = 0x77;
    assert_eq!(cpu.get_addr_indexed_indirect_index(0xF0), 0x2010);
    assert_eq!(cpu.get_addr_indexed_indirect(0xF0), 0x77);

    cpu.index_y = 0xF0;
    cpu.memory[0x2100] = 0x88;
    assert_eq!(cpu.get_addr_indirect_indexed_index(0xFF), 0x2100);
    assert_eq!(cpu.get_addr_indirect_indexed(0xFF), 0x88);
}

#[test]
fn indirect_indexed_wraps_at_the_end_of_memory() {
    let mut cpu = Cpu::new();
    cpu.memory[0x0040] = 0xFF;
    cpu.memory[0x0041] = 0xFF;
    cpu.index_y = 0x02;
    cpu.memory[0x0001] = 0x5A;
    assert_eq!(cpu.get_addr_indirect_indexed_index(0x40), 0x0001);
    run(&mut cpu, 0xB1, [0x40, 0], 2);
    assert_eq!(cpu.accumulator, 0x5A);
    assert_eq!(cpu.cycle, 6);
}

#[test]
fn page_crossing_adds_one_cycle() {
    assert_eq!(increment_if_crossed_absolute(4, 0x11FF, 0x01), 5);
    assert_eq!(increment_if_crossed_absolute(4, 0x1145, 0x10), 4);
    assert_eq!(increment_if_crossed_absolute(4, 0x1100, 0xFF), 4);
    assert_eq!(increment_if_crossed_absolute(4, 0xFFFF, 0x01), 5);
    assert_eq!(increment_if_crossed_absolute(4, 0x1200, 0x00), 4);

    let mut cpu = Cpu::new();
    cpu.memory[0x0026] = 0x10;
    cpu.memory[0x0027] = 0x20;
    cpu.index_y = 0xEF;
    assert_eq!(increment_if_crossed_indirect_indexed(5, 0x26, &cpu), 5);
    cpu.index_y = 0xF0;
    assert_eq!(increment_if_crossed_indirect_indexed(5, 0x26, &cpu), 6);
}

#[test]
fn resolver_goes_by_mode() {
    let mut cpu = Cpu::new();
    cpu.accumulator = 0x01;
    cpu.index_x = 0x02;
    cpu.index_y = 0x03;
    cpu.memory[0x0080] = 0x10;
    cpu.memory[0x0082] = 0x20;
    cpu.memory[0x0083] = 0x30;
    cpu.memory[0x8000] = 0x40;
    cpu.memory[0x8002] = 0x50;
    cpu.memory[0x8003] = 0x60;
    let inst = Instruction::new(0, [0x80, 0x00], 3);
    assert_eq!(cpu.read_operand(Mode::Accumulator, &inst), 0x01);
    assert_eq!(cpu.read_operand(Mode::Immediate, &inst), 0x80);
    assert_eq!(cpu.read_operand(Mode::ZeroPage, &inst), 0x10);
    assert_eq!(cpu.read_operand(Mode::ZeroPageX, &inst), 0x20);
    assert_eq!(cpu.read_operand(Mode::ZeroPageY, &inst), 0x30);
    assert_eq!(cpu.read_operand(Mode::Absolute, &inst), 0x40);
    assert_eq!(cpu.read_operand(Mode::AbsoluteX, &inst), 0x50);
    assert_eq!(cpu.read_operand(Mode::AbsoluteY, &inst), 0x60);
    assert_eq!(cpu.effective_address(Mode::ZeroPageX, &inst), 0x0082);
    assert_eq!(cpu.effective_address(Mode::AbsoluteY, &inst), 0x8003);
    assert_eq!(cpu.resolve_target(Mode::Accumulator, &inst), Target::Accumulator);
    assert_eq!(cpu.resolve_target(Mode::Absolute, &inst), Target::Memory(0x8000));
    cpu.write(Target::Accumulator, 0x77);
    assert_eq!(cpu.accumulator, 0x77);
    cpu.write(Target::Memory(0x1234), 0x88);
    assert_eq!(cpu.memory[0x1234], 0x88);
}

#[test]
fn shifts_and_rotates() {
    let mut cpu = Cpu::new();
    cpu.accumulator = 0x81;
    run(&mut cpu, 0x4A, [0, 0], 1);
    assert_eq!(cpu.accumulator, 0x40);
    assert_eq!(cpu.get_flag_carry(), true);
    assert_eq!(cpu.get_flag_zero(), false);
    assert_eq!(cpu.get_flag_negative(), false);
    assert_eq!(cpu.cycle, 2);

    let mut cpu = Cpu::new();
    cpu.accumulator = 0x01;
    run(&mut cpu, 0x4A, [0, 0], 1);
    assert_eq!(cpu.accumulator, 0x00);
    assert_eq!(cpu.get_flag_carry(), true);
    assert_eq!(cpu.get_flag_zero(), true);

    let mut cpu = Cpu::new();
    cpu.accumulator = 0x80;
    cpu.set_flag_carry(true);
    run(&mut cpu, 0x2A, [0, 0], 1);
    assert_eq!(cpu.accumulator, 0x01);
    assert_eq!(cpu.get_flag_carry(), true);
    run(&mut cpu, 0x6A, [0, 0], 1);
    assert_eq!(cpu.accumulator, 0x80);
    assert_eq!(cpu.get_flag_carry(), true);
    assert_eq!(cpu.get_flag_negative(), true);

    let mut cpu = Cpu::new();
    cpu.memory[0x0042] = 0x02;
    run(&mut cpu, 0x66, [0x42, 0], 2);
    assert_eq!(cpu.memory[0x0042], 0x01);
    assert_eq!(cpu.get_flag_carry(), false);
    assert_eq!(cpu.accumulator, 0x00);
    assert_eq!(cpu.cycle, 5);
}

#[test]
fn increments_and_decrements_wrap() {
    let mut cpu = Cpu::new();
    run(&mut cpu, 0xCA, [0, 0], 1);
    assert_eq!(cpu.index_x, 0xFF);
    assert_eq!(cpu.get_flag_negative(), true);
    run(&mut cpu, 0xE8, [0, 0], 1);
    assert_eq!(cpu.index_x, 0x00);
    assert_eq!(cpu.get_flag_zero(), true);
    run(&mut cpu, 0x88, [0, 0], 1);
    assert_eq!(cpu.index_y, 0xFF);
    run(&mut cpu, 0xC8, [0, 0], 1);
    assert_eq!(cpu.index_y, 0x00);
    cpu.memory[0x0010] = 0xFF;
    run(&mut cpu, 0xE6, [0x10, 0], 2);
    assert_eq!(cpu.memory[0x0010], 0x00);
    assert_eq!(cpu.get_flag_zero(), true);
    run(&mut cpu, 0xC6, [0x10, 0], 2);
    assert_eq!(cpu.memory[0x0010], 0xFF);
    assert_eq!(cpu.get_flag_negative(), true);
    assert_eq!(cpu.cycle, 18);
    assert_eq!(cpu.program_counter, 8);
}

#[test]
fn transfers_and_stack_instructions() {
    let mut cpu = Cpu::new();
    cpu.accumulator = 0x80;
    run(&mut cpu, 0xAA, [0, 0], 1);
    assert_eq!(cpu.index_x, 0x80);
    assert_eq!(cpu.get_flag_negative(), true);
    run(&mut cpu, 0x9A, [0, 0], 1);
    assert_eq!(cpu.stack_pointer, 0x80);
    cpu.stack_pointer = 0x00;
    cpu.index_y = 0xFF;
    run(&mut cpu, 0xBA, [0, 0], 1);
    assert_eq!(cpu.index_x, 0x00);
    assert_eq!(cpu.get_flag_zero(), true);
    assert_eq!(cpu.get_flag_negative(), false);
    cpu.stack_pointer = 0xFF;
    cpu.accumulator = 0x42;
    run(&mut cpu, 0x48, [0, 0], 1);
    assert_eq!(cpu.memory[0x01FF], 0x42);
    cpu.accumulator = 0;
    run(&mut cpu, 0x68, [0, 0], 1);
    assert_eq!(cpu.accumulator, 0x42);
    assert_eq!(cpu.stack_pointer, 0xFF);
    run(&mut cpu, 0xA8, [0, 0], 1);
    assert_eq!(cpu.index_y, 0x42);
    run(&mut cpu, 0x98, [0, 0], 1);
    run(&mut cpu, 0x8A, [0, 0], 1);
    assert_eq!(cpu.accumulator, 0x00);
    assert_eq!(cpu.cycle, 19);
}

#[test]
fn stores_change_no_flag() {
    let mut cpu = Cpu::new();
    cpu.accumulator = 0x00;
    cpu.index_x = 0x80;
    cpu.index_y = 0x01;
    cpu.memory[0x0010] = 0xEE;
    run(&mut cpu, 0x85, [0x10, 0], 2);
    run(&mut cpu, 0x8E, [0x20, 0x00], 3);
    run(&mut cpu, 0x94, [0xA0, 0], 2);
    assert_eq!(cpu.memory[0x0010], 0x00);
    assert_eq!(cpu.memory[0x2000], 0x80);
    assert_eq!(cpu.memory[0x0020], 0x01);
    assert_eq!(cpu.memory[0x0120], 0x00);
    assert_eq!(cpu.processor_status, 0);
    assert_eq!(cpu.cycle, 11);
    assert_eq!(cpu.program_counter, 7);
}

#[test]
fn branch_backwards_and_around_the_end_of_memory() {
    let mut cpu = Cpu::new();
    cpu.program_counter = 0x0210;
    run(&mut cpu, 0xD0, [0xFC, 0], 2);
    assert_eq!(cpu.program_counter, 0x020E);
    assert_eq!(cpu.cycle, 3);

    let mut cpu = Cpu::new();
    cpu.program_counter = 0x0200;
    run(&mut cpu, 0xD0, [0x80, 0], 2);
    assert_eq!(cpu.program_counter, 0x0182);
    assert_eq!(cpu.cycle, 4);

    let mut cpu = Cpu::new();
    cpu.program_counter = 0xFFFE;
    run(&mut cpu, 0xD0, [0x10, 0], 2);
    assert_eq!(cpu.program_counter, 0x0010);
    assert_eq!(cpu.cycle, 4);
}
