use mos6502::cpu::{Cpu, Instruction};
use mos6502::opcode::{decode, instruction_length, Kind, Mode, OpInfo, Operation};
use mos6502::parser::Parser;

#[test]
fn table_rows() {
    assert_eq!(
        decode(0x69),
        Some(OpInfo {
            operation: Operation::Adc,
            mode: Mode::Immediate,
            cycles: 2,
            page_cross_sensitive: false
        })
    );
    assert_eq!(
        decode(0xB1),
        Some(OpInfo {
            operation: Operation::Lda,
            mode: Mode::IndirectIndexed,
            cycles: 5,
            page_cross_sensitive: true
        })
    );
    assert_eq!(
        decode(0x1E),
        Some(OpInfo {
            operation: Operation::Asl,
            mode: Mode::AbsoluteX,
            cycles: 7,
            page_cross_sensitive: false
        })
    );
    assert_eq!(decode(0x6C).map(|row| row.mode), Some(Mode::Indirect));
    assert_eq!(decode(0x02), None);
    assert_eq!(decode(0xFF), None);
    assert_eq!((0..=255u8).filter(|op| decode(*op).is_some()).count(), 151);
}

#[test]
fn kinds_and_modes() {
    assert_eq!(Operation::Jsr.kind(), Kind::Flow);
    assert_eq!(Operation::Beq.kind(), Kind::Flow);
    assert_eq!(Operation::Cmp.kind(), Kind::Read);
    assert_eq!(Operation::Sta.kind(), Kind::Write);
    assert_eq!(Operation::Ror.kind(), Kind::Write);
    assert_eq!(Operation::Plp.kind(), Kind::Internal);
    assert_eq!(Mode::Implied.operand_len(), 0);
    assert_eq!(Mode::Relative.operand_len(), 1);
    assert_eq!(Mode::AbsoluteY.operand_len(), 2);
    assert_eq!(Mode::Immediate.addresses_memory(), false);
    assert_eq!(Mode::Accumulator.addresses_memory(), false);
    assert_eq!(Mode::ZeroPageY.addresses_memory(), true);
    assert_eq!(Mode::IndexedIndirect.addresses_memory(), true);
}

#[test]
fn instruction_lengths() {
    assert_eq!(instruction_length(0xEA), Some(1));
    assert_eq!(instruction_length(0x0A), Some(1));
    assert_eq!(instruction_length(0xA9), Some(2));
    assert_eq!(instruction_length(0xF0), Some(2));
    assert_eq!(instruction_length(0x00), Some(2));
    assert_eq!(instruction_length(0xAD), Some(3));
    assert_eq!(instruction_length(0x6C), Some(3));
    assert_eq!(instruction_length(0x03), None);

    let parser = Parser::new();
    for op_code in 0..=255u8 {
        assert_eq!(parser.length_of(op_code), instruction_length(op_code));
    }
}

#[test]
fn parses_a_program() {
    let parser = Parser::new();
    // LDA #$05; STA $2457; INX; BNE -3
    let bytes = [0xA9, 0x05, 0x8D, 0x57, 0x24, 0xE8, 0xD0, 0xFD];
    let mut instructions = Vec::new();
    let consumed = parser.parse_to_instructions(&bytes, &mut instructions);
    assert_eq!(consumed, 8);
    assert_eq!(
        instructions,
        vec![
            Instruction::new(0xA9, [0x05, 0x00], 2),
            Instruction::new(0x8D, [0x24, 0x57], 3),
            Instruction::new(0xE8, [0x00, 0x00], 1),
            Instruction::new(0xD0, [0xFD, 0x00], 2),
        ]
    );

    let mut cpu = Cpu::new();
    for inst in instructions.iter().take(3) {
        cpu.execute_instruction(inst).unwrap();
    }
    assert_eq!(cpu.memory[0x2457], 0x05);
    assert_eq!(cpu.index_x, 1);
    assert_eq!(cpu.program_counter, 6);
    assert_eq!(cpu.cycle, 8);
}

#[test]
fn parsing_appends_and_stops_before_what_it_cannot_decode() {
    let parser = Parser::new();
    let mut instructions = vec![Instruction::new(0xEA, [0, 0], 1)];

    // An unknown byte after one instruction.
    let consumed = parser.parse_to_instructions(&[0x18, 0x02, 0xEA], &mut instructions);
    assert_eq!(consumed, 1);
    assert_eq!(
        instructions,
        vec![Instruction::new(0xEA, [0, 0], 1), Instruction::new(0x18, [0, 0], 1)]
    );

    // An instruction that is cut off.
    let consumed = parser.parse_to_instructions(&[0xAD, 0x57], &mut instructions);
    assert_eq!(consumed, 0);
    assert_eq!(instructions.len(), 2);

    // Nothing to decode.
    let consumed = parser.parse_to_instructions(&[], &mut instructions);
    assert_eq!(consumed, 0);
    assert_eq!(instructions.len(), 2);

    // The break instruction takes its padding byte along.
    let consumed = parser.parse_to_instructions(&[0x00, 0x7F, 0x60], &mut instructions);
    assert_eq!(consumed, 3);
    assert_eq!(instructions[2], Instruction::new(0x00, [0x7F, 0], 2));
    assert_eq!(instructions[3], Instruction::new(0x60, [0, 0], 1));
}
