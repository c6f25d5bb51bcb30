//! The opcode table: what each opcode byte does, how it finds its operand and
//! what it costs.

use vstd::prelude::*;

verus! {

/// What an instruction does, by mnemonic.
#[derive(Clone, Copy, Debug, PartialEq, Eq)]
pub enum Operation {
    Adc,
    And,
    Asl,
    Bcc,
    Bcs,
    Beq,
    Bit,
    Bmi,
    Bne,
    Bpl,
    Brk,
    Bvc,
    Bvs,
    Clc,
    Cld,
    Cli,
    Clv,
    Cmp,
    Cpx,
    Cpy,
    Dec,
    Dex,
    Dey,
    Eor,
    Inc,
    Inx,
    Iny,
    Jmp,
    Jsr,
    Lda,
    Ldx,
    Ldy,
    Lsr,
    Nop,
    Ora,
    Pha,
    Php,
    Pla,
    Plp,
    Rol,
    Ror,
    Rti,
    Rts,
    Sbc,
    Sec,
    Sed,
    Sei,
    Sta,
    Stx,
    Sty,
    Tax,
    Tay,
    Tsx,
    Txa,
    Txs,
    Tya,
}

/// How an instruction locates its operand.
#[derive(Clone, Copy, Debug, PartialEq, Eq)]
pub enum Mode {
    /// No operand.
    Implied,
    /// The accumulator is read and written back.
    Accumulator,
    /// The operand byte itself.
    Immediate,
    /// The operand byte addresses page zero.
    ZeroPage,
    /// Page zero, indexed by X within the page.
    ZeroPageX,
    /// Page zero, indexed by Y within the page.
    ZeroPageY,
    /// The operand byte is a signed displacement of the program counter.
    Relative,
    /// The two operand bytes are an address.
    Absolute,
    /// An address indexed by X.
    AbsoluteX,
    /// An address indexed by Y.
    AbsoluteY,
    /// The two operand bytes address a pointer. No instruction is executed in
    /// this mode.
    Indirect,
    /// A pointer in page zero, found at the operand byte indexed by X.
    IndexedIndirect,
    /// A pointer in page zero, found at the operand byte, then indexed by Y.
    IndirectIndexed,
}

/// One row of the opcode table.
#[derive(Clone, Copy, Debug, PartialEq, Eq)]
pub struct OpInfo {
    pub operation: Operation,
    pub mode: Mode,
    /// The cycles charged before any penalty.
    pub cycles: u8,
    /// Whether one more cycle is charged when indexing leaves the page of the
    /// base address.
    pub page_cross_sensitive: bool,
}

impl Mode {
    /// Whether the operand lives in memory, so that the mode yields an address.
    #[verifier::allow_in_spec]
    pub fn addresses_memory(self) -> bool
        returns
            (match self {
                Mode::Implied | Mode::Accumulator | Mode::Immediate | Mode::Relative | Mode::Indirect => false,
                _ => true,
            }),
    {
        match self {
            Mode::Implied | Mode::Accumulator | Mode::Immediate | Mode::Relative | Mode::Indirect => false,
            _ => true,
        }
    }

    /// The number of operand bytes that follow the opcode in a program.
    #[verifier::allow_in_spec]
    pub fn operand_len(self) -> u8
        returns
            (match self {
                Mode::Implied | Mode::Accumulator => 0u8,
                Mode::Absolute | Mode::AbsoluteX | Mode::AbsoluteY | Mode::Indirect => 2u8,
                _ => 1u8,
            }),
    {
        match self {
            Mode::Implied | Mode::Accumulator => 0,
            Mode::Absolute | Mode::AbsoluteX | Mode::AbsoluteY | Mode::Indirect => 2,
            _ => 1,
        }
    }
}

/// What an operation works on.
#[derive(Clone, Copy, Debug, PartialEq, Eq)]
pub enum Kind {
    /// The program counter: the operation sets it itself.
    Flow,
    /// A value that the addressing mode supplies.
    Read,
    /// A place that the addressing mode names.
    Write,
    /// Registers, flags and the stack alone.
    Internal,
}

impl Operation {
    /// What the operation works on.
    #[verifier::allow_in_spec]
    pub fn kind(self) -> Kind
        returns
            (match self {
                Operation::Bcc | Operation::Bcs | Operation::Beq | Operation::Bne | Operation::Bmi
                | Operation::Bpl | Operation::Bvc | Operation::Bvs | Operation::Brk | Operation::Jmp
                | Operation::Jsr | Operation::Rti | Operation::Rts => Kind::Flow,
                Operation::Adc | Operation::And | Operation::Bit | Operation::Cmp | Operation::Cpx
                | Operation::Cpy | Operation::Eor | Operation::Lda | Operation::Ldx | Operation::Ldy
                | Operation::Ora | Operation::Sbc => Kind::Read,
                Operation::Asl | Operation::Lsr | Operation::Rol | Operation::Ror | Operation::Dec
                | Operation::Inc | Operation::Sta | Operation::Stx | Operation::Sty => Kind::Write,
                _ => Kind::Internal,
            }),
    {
        match self {
            Operation::Bcc | Operation::Bcs | Operation::Beq | Operation::Bne | Operation::Bmi
            | Operation::Bpl | Operation::Bvc | Operation::Bvs | Operation::Brk | Operation::Jmp
            | Operation::Jsr | Operation::Rti | Operation::Rts => Kind::Flow,
            Operation::Adc | Operation::And | Operation::Bit | Operation::Cmp | Operation::Cpx
            | Operation::Cpy | Operation::Eor | Operation::Lda | Operation::Ldx | Operation::Ldy
            | Operation::Ora | Operation::Sbc => Kind::Read,
            Operation::Asl | Operation::Lsr | Operation::Rol | Operation::Ror | Operation::Dec
            | Operation::Inc | Operation::Sta | Operation::Stx | Operation::Sty => Kind::Write,
            _ => Kind::Internal,
        }
    }

    /// Whether `mode` can supply what the operation works on: a value to read,
    /// a place to write, or nothing.
    pub open spec fn accepts(self, mode: Mode) -> bool {
        match self {
            Operation::Adc | Operation::And | Operation::Cmp | Operation::Cpx | Operation::Cpy
            | Operation::Eor | Operation::Lda | Operation::Ldx | Operation::Ldy | Operation::Ora
            | Operation::Sbc => mode is Immediate || mode.addresses_memory(),
            Operation::Asl | Operation::Lsr | Operation::Rol | Operation::Ror => mode is Accumulator
                || mode.addresses_memory(),
            Operation::Bit | Operation::Dec | Operation::Inc | Operation::Sta | Operation::Stx
            | Operation::Sty => mode.addresses_memory(),
            Operation::Bcc | Operation::Bcs | Operation::Beq | Operation::Bne | Operation::Bmi
            | Operation::Bpl | Operation::Bvc | Operation::Bvs => mode is Relative,
            Operation::Jmp => mode is Absolute || mode is Indirect,
            Operation::Jsr => mode is Absolute,
            _ => mode is Implied,
        }
    }
}

impl OpInfo {
    /// A row is well formed when its mode suits its operation, only a mode that
    /// indexes an address is sensitive to page crossing, and it costs at least
    /// two cycles and at most seven, the penalty of a page crossing or of a
    /// taken branch included.
    pub open spec fn well_formed(self) -> bool {
        &&& self.operation.accepts(self.mode)
        &&& 2 <= self.cycles <= 7
        &&& self.page_cross_sensitive ==> self.cycles <= 6 && (self.mode is AbsoluteX
            || self.mode is AbsoluteY || self.mode is IndirectIndexed)
        &&& self.mode is Relative ==> self.cycles <= 5
    }
}

/// A table row.
#[verifier::allow_in_spec]
pub fn entry(operation: Operation, mode: Mode, cycles: u8, page_cross_sensitive: bool) -> Option<
    OpInfo,
>
    returns
        Some(OpInfo { operation, mode, cycles, page_cross_sensitive }),
{
    Some(OpInfo { operation, mode, cycles, page_cross_sensitive })
}

/// The opcode table: the row for `op_code`, or `None` where the byte is no
/// instruction. The table is hidden from proofs until it is revealed; what
/// holds of every row is in [`OpInfo::well_formed`].
#[verifier::opaque]
pub open spec fn table_row(op_code: u8) -> Option<OpInfo> {
    match op_code {
        0x00 => entry(Operation::Brk, Mode::Implied, 7, false),
        0x01 => entry(Operation::Ora, Mode::IndexedIndirect, 6, false),
        0x05 => entry(Operation::Ora, Mode::ZeroPage, 3, false),
        0x06 => entry(Operation::Asl, Mode::ZeroPage, 5, false),
        0x08 => entry(Operation::Php, Mode::Implied, 3, false),
        0x09 => entry(Operation::Ora, Mode::Immediate, 2, false),
        0x0A => entry(Operation::Asl, Mode::Accumulator, 2, false),
        0x0D => entry(Operation::Ora, Mode::Absolute, 4, false),
        0x0E => entry(Operation::Asl, Mode::Absolute, 6, false),
        0x10 => entry(Operation::Bpl, Mode::Relative, 2, false),
        0x11 => entry(Operation::Ora, Mode::IndirectIndexed, 5, true),
        0x15 => entry(Operation::Ora, Mode::ZeroPageX, 4, false),
        0x16 => entry(Operation::Asl, Mode::ZeroPageX, 6, false),
        0x18 => entry(Operation::Clc, Mode::Implied, 2, false),
        0x19 => entry(Operation::Ora, Mode::AbsoluteY, 4, true),
        0x1D => entry(Operation::Ora, Mode::AbsoluteX, 4, true),
        0x1E => entry(Operation::Asl, Mode::AbsoluteX, 7, false),
        0x20 => entry(Operation::Jsr, Mode::Absolute, 6, false),
        0x21 => entry(Operation::And, Mode::IndexedIndirect, 6, false),
        0x24 => entry(Operation::Bit, Mode::ZeroPage, 3, false),
        0x25 => entry(Operation::And, Mode::ZeroPage, 3, false),
        0x26 => entry(Operation::Rol, Mode::ZeroPage, 5, false),
        0x28 => entry(Operation::Plp, Mode::Implied, 4, false),
        0x29 => entry(Operation::And, Mode::Immediate, 2, false),
        0x2A => entry(Operation::Rol, Mode::Accumulator, 2, false),
        0x2C => entry(Operation::Bit, Mode::Absolute, 4, false),
        0x2D => entry(Operation::And, Mode::Absolute, 4, false),
        0x2E => entry(Operation::Rol, Mode::Absolute, 6, false),
        0x30 => entry(Operation::Bmi, Mode::Relative, 2, false),
        0x31 => entry(Operation::And, Mode::IndirectIndexed, 5, true),
        0x35 => entry(Operation::And, Mode::ZeroPageX, 4, false),
        0x36 => entry(Operation::Rol, Mode::ZeroPageX, 6, false),
        0x38 => entry(Operation::Sec, Mode::Implied, 2, false),
        0x39 => entry(Operation::And, Mode::AbsoluteY, 4, true),
        0x3D => entry(Operation::And, Mode::AbsoluteX, 4, true),
        0x3E => entry(Operation::Rol, Mode::AbsoluteX, 7, false),
        0x40 => entry(Operation::Rti, Mode::Implied, 6, false),
        0x41 => entry(Operation::Eor, Mode::IndexedIndirect, 6, false),
        0x45 => entry(Operation::Eor, Mode::ZeroPage, 3, false),
        0x46 => entry(Operation::Lsr, Mode::ZeroPage, 5, false),
        0x48 => entry(Operation::Pha, Mode::Implied, 3, false),
        0x49 => entry(Operation::Eor, Mode::Immediate, 2, false),
        0x4A => entry(Operation::Lsr, Mode::Accumulator, 2, false),
        0x4C => entry(Operation::Jmp, Mode::Absolute, 3, false),
        0x4D => entry(Operation::Eor, Mode::Absolute, 4, false),
        0x4E => entry(Operation::Lsr, Mode::Absolute, 6, false),
        0x50 => entry(Operation::Bvc, Mode::Relative, 2, false),
        0x51 => entry(Operation::Eor, Mode::IndirectIndexed, 5, true),
        0x55 => entry(Operation::Eor, Mode::ZeroPageX, 4, false),
        0x56 => entry(Operation::Lsr, Mode::ZeroPageX, 6, false),
        0x58 => entry(Operation::Cli, Mode::Implied, 2, false),
        0x59 => entry(Operation::Eor, Mode::AbsoluteY, 4, true),
        0x5D => entry(Operation::Eor, Mode::AbsoluteX, 4, true),
        0x5E => entry(Operation::Lsr, Mode::AbsoluteX, 7, false),
        0x60 => entry(Operation::Rts, Mode::Implied, 6, false),
        0x61 => entry(Operation::Adc, Mode::IndexedIndirect, 6, false),
        0x65 => entry(Operation::Adc, Mode::ZeroPage, 3, false),
        0x66 => entry(Operation::Ror, Mode::ZeroPage, 5, false),
        0x68 => entry(Operation::Pla, Mode::Implied, 4, false),
        0x69 => entry(Operation::Adc, Mode::Immediate, 2, false),
        0x6A => entry(Operation::Ror, Mode::Accumulator, 2, false),
        0x6C => entry(Operation::Jmp, Mode::Indirect, 5, false),
        0x6D => entry(Operation::Adc, Mode::Absolute, 4, false),
        0x6E => entry(Operation::Ror, Mode::Absolute, 6, false),
        0x70 => entry(Operation::Bvs, Mode::Relative, 2, false),
        0x71 => entry(Operation::Adc, Mode::IndirectIndexed, 5, true),
        0x75 => entry(Operation::Adc, Mode::ZeroPageX, 4, false),
        0x76 => entry(Operation::Ror, Mode::ZeroPageX, 6, false),
        0x78 => entry(Operation::Sei, Mode::Implied, 2, false),
        0x79 => entry(Operation::Adc, Mode::AbsoluteY, 4, true),
        0x7D => entry(Operation::Adc, Mode::AbsoluteX, 4, true),
        0x7E => entry(Operation::Ror, Mode::AbsoluteX, 7, false),
        0x81 => entry(Operation::Sta, Mode::IndexedIndirect, 6, false),
        0x84 => entry(Operation::Sty, Mode::ZeroPage, 3, false),
        0x85 => entry(Operation::Sta, Mode::ZeroPage, 3, false),
        0x86 => entry(Operation::Stx, Mode::ZeroPage, 3, false),
        0x88 => entry(Operation::Dey, Mode::Implied, 2, false),
        0x8A => entry(Operation::Txa, Mode::Implied, 2, false),
        0x8C => entry(Operation::Sty, Mode::Absolute, 4, false),
        0x8D => entry(Operation::Sta, Mode::Absolute, 4, false),
        0x8E => entry(Operation::Stx, Mode::Absolute, 4, false),
        0x90 => entry(Operation::Bcc, Mode::Relative, 2, false),
        0x91 => entry(Operation::Sta, Mode::IndirectIndexed, 6, false),
        0x94 => entry(Operation::Sty, Mode::ZeroPageX, 4, false),
        0x95 => entry(Operation::Sta, Mode::ZeroPageX, 4, false),
        0x96 => entry(Operation::Stx, Mode::ZeroPageY, 4, false),
        0x98 => entry(Operation::Tya, Mode::Implied, 2, false),
        0x99 => entry(Operation::Sta, Mode::AbsoluteY, 5, false),
        0x9A => entry(Operation::Txs, Mode::Implied, 2, false),
        0x9D => entry(Operation::Sta, Mode::AbsoluteX, 5, false),
        0xA0 => entry(Operation::Ldy, Mode::Immediate, 2, false),
        0xA1 => entry(Operation::Lda, Mode::IndexedIndirect, 6, false),
        0xA2 => entry(Operation::Ldx, Mode::Immediate, 2, false),
        0xA4 => entry(Operation::Ldy, Mode::ZeroPage, 3, false),
        0xA5 => entry(Operation::Lda, Mode::ZeroPage, 3, false),
        0xA6 => entry(Operation::Ldx, Mode::ZeroPage, 3, false),
        0xA8 => entry(Operation::Tay, Mode::Implied, 2, false),
        0xA9 => entry(Operation::Lda, Mode::Immediate, 2, false),
        0xAA => entry(Operation::Tax, Mode::Implied, 2, false),
        0xAC => entry(Operation::Ldy, Mode::Absolute, 4, false),
        0xAD => entry(Operation::Lda, Mode::Absolute, 4, false),
        0xAE => entry(Operation::Ldx, Mode::Absolute, 4, false),
        0xB0 => entry(Operation::Bcs, Mode::Relative, 2, false),
        0xB1 => entry(Operation::Lda, Mode::IndirectIndexed, 5, true),
        0xB4 => entry(Operation::Ldy, Mode::ZeroPageX, 4, false),
        0xB5 => entry(Operation::Lda, Mode::ZeroPageX, 4, false),
        0xB6 => entry(Operation::Ldx, Mode::ZeroPageY, 4, false),
        0xB8 => entry(Operation::Clv, Mode::Implied, 2, false),
        0xB9 => entry(Operation::Lda, Mode::AbsoluteY, 4, true),
        0xBA => entry(Operation::Tsx, Mode::Implied, 2, false),
        0xBC => entry(Operation::Ldy, Mode::AbsoluteX, 4, true),
        0xBD => entry(Operation::Lda, Mode::AbsoluteX, 4, true),
        0xBE => entry(Operation::Ldx, Mode::AbsoluteY, 4, true),
        0xC0 => entry(Operation::Cpy, Mode::Immediate, 2, false),
        0xC1 => entry(Operation::Cmp, Mode::IndexedIndirect, 6, false),
        0xC4 => entry(Operation::Cpy, Mode::ZeroPage, 3, false),
        0xC5 => entry(Operation::Cmp, Mode::ZeroPage, 3, false),
        0xC6 => entry(Operation::Dec, Mode::ZeroPage, 5, false),
        0xC8 => entry(Operation::Iny, Mode::Implied, 2, false),
        0xC9 => entry(Operation::Cmp, Mode::Immediate, 2, false),
        0xCA => entry(Operation::Dex, Mode::Implied, 2, false),
        0xCC => entry(Operation::Cpy, Mode::Absolute, 4, false),
        0xCD => entry(Operation::Cmp, Mode::Absolute, 4, false),
        0xCE => entry(Operation::Dec, Mode::Absolute, 6, false),
        0xD0 => entry(Operation::Bne, Mode::Relative, 2, false),
        0xD1 => entry(Operation::Cmp, Mode::IndirectIndexed, 5, true),
        0xD5 => entry(Operation::Cmp, Mode::ZeroPageX, 4, false),
        0xD6 => entry(Operation::Dec, Mode::ZeroPageX, 6, false),
        0xD8 => entry(Operation::Cld, Mode::Implied, 2, false),
        0xD9 => entry(Operation::Cmp, Mode::AbsoluteY, 4, true),
        0xDD => entry(Operation::Cmp, Mode::AbsoluteX, 4, true),
        0xDE => entry(Operation::Dec, Mode::AbsoluteX, 7, false),
        0xE0 => entry(Operation::Cpx, Mode::Immediate, 2, false),
        0xE1 => entry(Operation::Sbc, Mode::IndexedIndirect, 6, false),
        0xE4 => entry(Operation::Cpx, Mode::ZeroPage, 3, false),
        0xE5 => entry(Operation::Sbc, Mode::ZeroPage, 3, false),
        0xE6 => entry(Operation::Inc, Mode::ZeroPage, 5, false),
        0xE8 => entry(Operation::Inx, Mode::Implied, 2, false),
        0xE9 => entry(Operation::Sbc, Mode::Immediate, 2, false),
        0xEA => entry(Operation::Nop, Mode::Implied, 2, false),
        0xEC => entry(Operation::Cpx, Mode::Absolute, 4, false),
        0xED => entry(Operation::Sbc, Mode::Absolute, 4, false),
        0xEE => entry(Operation::Inc, Mode::Absolute, 6, false),
        0xF0 => entry(Operation::Beq, Mode::Relative, 2, false),
        0xF1 => entry(Operation::Sbc, Mode::IndirectIndexed, 5, true),
        0xF5 => entry(Operation::Sbc, Mode::ZeroPageX, 4, false),
        0xF6 => entry(Operation::Inc, Mode::ZeroPageX, 6, false),
        0xF8 => entry(Operation::Sed, Mode::Implied, 2, false),
        0xF9 => entry(Operation::Sbc, Mode::AbsoluteY, 4, true),
        0xFD => entry(Operation::Sbc, Mode::AbsoluteX, 4, true),
        0xFE => entry(Operation::Inc, Mode::AbsoluteX, 7, false),
        _ => None,
    }
}

/// Looks `op_code` up in the opcode table.
#[verifier::when_used_as_spec(table_row)]
pub fn decode(op_code: u8) -> (row: Option<OpInfo>)
    ensures
        row == table_row(op_code),
        row matches Some(info) ==> info.well_formed(),
{
    reveal(table_row);
    match op_code {
        0x00 => entry(Operation::Brk, Mode::Implied, 7, false),
        0x01 => entry(Operation::Ora, Mode::IndexedIndirect, 6, false),
        0x05 => entry(Operation::Ora, Mode::ZeroPage, 3, false),
        0x06 => entry(Operation::Asl, Mode::ZeroPage, 5, false),
        0x08 => entry(Operation::Php, Mode::Implied, 3, false),
        0x09 => entry(Operation::Ora, Mode::Immediate, 2, false),
        0x0A => entry(Operation::Asl, Mode::Accumulator, 2, false),
        0x0D => entry(Operation::Ora, Mode::Absolute, 4, false),
        0x0E => entry(Operation::Asl, Mode::Absolute, 6, false),
        0x10 => entry(Operation::Bpl, Mode::Relative, 2, false),
        0x11 => entry(Operation::Ora, Mode::IndirectIndexed, 5, true),
        0x15 => entry(Operation::Ora, Mode::ZeroPageX, 4, false),
        0x16 => entry(Operation::Asl, Mode::ZeroPageX, 6, false),
        0x18 => entry(Operation::Clc, Mode::Implied, 2, false),
        0x19 => entry(Operation::Ora, Mode::AbsoluteY, 4, true),
        0x1D => entry(Operation::Ora, Mode::AbsoluteX, 4, true),
        0x1E => entry(Operation::Asl, Mode::AbsoluteX, 7, false),
        0x20 => entry(Operation::Jsr, Mode::Absolute, 6, false),
        0x21 => entry(Operation::And, Mode::IndexedIndirect, 6, false),
        0x24 => entry(Operation::Bit, Mode::ZeroPage, 3, false),
        0x25 => entry(Operation::And, Mode::ZeroPage, 3, false),
        0x26 => entry(Operation::Rol, Mode::ZeroPage, 5, false),
        0x28 => entry(Operation::Plp, Mode::Implied, 4, false),
        0x29 => entry(Operation::And, Mode::Immediate, 2, false),
        0x2A => entry(Operation::Rol, Mode::Accumulator, 2, false),
        0x2C => entry(Operation::Bit, Mode::Absolute, 4, false),
        0x2D => entry(Operation::And, Mode::Absolute, 4, false),
        0x2E => entry(Operation::Rol, Mode::Absolute, 6, false),
        0x30 => entry(Operation::Bmi, Mode::Relative, 2, false),
        0x31 => entry(Operation::And, Mode::IndirectIndexed, 5, true),
        0x35 => entry(Operation::And, Mode::ZeroPageX, 4, false),
        0x36 => entry(Operation::Rol, Mode::ZeroPageX, 6, false),
        0x38 => entry(Operation::Sec, Mode::Implied, 2, false),
        0x39 => entry(Operation::And, Mode::AbsoluteY, 4, true),
        0x3D => entry(Operation::And, Mode::AbsoluteX, 4, true),
        0x3E => entry(Operation::Rol, Mode::AbsoluteX, 7, false),
        0x40 => entry(Operation::Rti, Mode::Implied, 6, false),
        0x41 => entry(Operation::Eor, Mode::IndexedIndirect, 6, false),
        0x45 => entry(Operation::Eor, Mode::ZeroPage, 3, false),
        0x46 => entry(Operation::Lsr, Mode::ZeroPage, 5, false),
        0x48 => entry(Operation::Pha, Mode::Implied, 3, false),
        0x49 => entry(Operation::Eor, Mode::Immediate, 2, false),
        0x4A => entry(Operation::Lsr, Mode::Accumulator, 2, false),
        0x4C => entry(Operation::Jmp, Mode::Absolute, 3, false),
        0x4D => entry(Operation::Eor, Mode::Absolute, 4, false),
        0x4E => entry(Operation::Lsr, Mode::Absolute, 6, false),
        0x50 => entry(Operation::Bvc, Mode::Relative, 2, false),
        0x51 => entry(Operation::Eor, Mode::IndirectIndexed, 5, true),
        0x55 => entry(Operation::Eor, Mode::ZeroPageX, 4, false),
        0x56 => entry(Operation::Lsr, Mode::ZeroPageX, 6, false),
        0x58 => entry(Operation::Cli, Mode::Implied, 2, false),
        0x59 => entry(Operation::Eor, Mode::AbsoluteY, 4, true),
        0x5D => entry(Operation::Eor, Mode::AbsoluteX, 4, true),
        0x5E => entry(Operation::Lsr, Mode::AbsoluteX, 7, false),
        0x60 => entry(Operation::Rts, Mode::Implied, 6, false),
        0x61 => entry(Operation::Adc, Mode::IndexedIndirect, 6, false),
        0x65 => entry(Operation::Adc, Mode::ZeroPage, 3, false),
        0x66 => entry(Operation::Ror, Mode::ZeroPage, 5, false),
        0x68 => entry(Operation::Pla, Mode::Implied, 4, false),
        0x69 => entry(Operation::Adc, Mode::Immediate, 2, false),
        0x6A => entry(Operation::Ror, Mode::Accumulator, 2, false),
        0x6C => entry(Operation::Jmp, Mode::Indirect, 5, false),
        0x6D => entry(Operation::Adc, Mode::Absolute, 4, false),
        0x6E => entry(Operation::Ror, Mode::Absolute, 6, false),
        0x70 => entry(Operation::Bvs, Mode::Relative, 2, false),
        0x71 => entry(Operation::Adc, Mode::IndirectIndexed, 5, true),
        0x75 => entry(Operation::Adc, Mode::ZeroPageX, 4, false),
        0x76 => entry(Operation::Ror, Mode::ZeroPageX, 6, false),
        0x78 => entry(Operation::Sei, Mode::Implied, 2, false),
        0x79 => entry(Operation::Adc, Mode::AbsoluteY, 4, true),
        0x7D => entry(Operation::Adc, Mode::AbsoluteX, 4, true),
        0x7E => entry(Operation::Ror, Mode::AbsoluteX, 7, false),
        0x81 => entry(Operation::Sta, Mode::IndexedIndirect, 6, false),
        0x84 => entry(Operation::Sty, Mode::ZeroPage, 3, false),
        0x85 => entry(Operation::Sta, Mode::ZeroPage, 3, false),
        0x86 => entry(Operation::Stx, Mode::ZeroPage, 3, false),
        0x88 => entry(Operation::Dey, Mode::Implied, 2, false),
        0x8A => entry(Operation::Txa, Mode::Implied, 2, false),
        0x8C => entry(Operation::Sty, Mode::Absolute, 4, false),
        0x8D => entry(Operation::Sta, Mode::Absolute, 4, false),
        0x8E => entry(Operation::Stx, Mode::Absolute, 4, false),
        0x90 => entry(Operation::Bcc, Mode::Relative, 2, false),
        0x91 => entry(Operation::Sta, Mode::IndirectIndexed, 6, false),
        0x94 => entry(Operation::Sty, Mode::ZeroPageX, 4, false),
        0x95 => entry(Operation::Sta, Mode::ZeroPageX, 4, false),
        0x96 => entry(Operation::Stx, Mode::ZeroPageY, 4, false),
        0x98 => entry(Operation::Tya, Mode::Implied, 2, false),
        0x99 => entry(Operation::Sta, Mode::AbsoluteY, 5, false),
        0x9A => entry(Operation::Txs, Mode::Implied, 2, false),
        0x9D => entry(Operation::Sta, Mode::AbsoluteX, 5, false),
        0xA0 => entry(Operation::Ldy, Mode::Immediate, 2, false),
        0xA1 => entry(Operation::Lda, Mode::IndexedIndirect, 6, false),
        0xA2 => entry(Operation::Ldx, Mode::Immediate, 2, false),
        0xA4 => entry(Operation::Ldy, Mode::ZeroPage, 3, false),
        0xA5 => entry(Operation::Lda, Mode::ZeroPage, 3, false),
        0xA6 => entry(Operation::Ldx, Mode::ZeroPage, 3, false),
        0xA8 => entry(Operation::Tay, Mode::Implied, 2, false),
        0xA9 => entry(Operation::Lda, Mode::Immediate, 2, false),
        0xAA => entry(Operation::Tax, Mode::Implied, 2, false),
        0xAC => entry(Operation::Ldy, Mode::Absolute, 4, false),
        0xAD => entry(Operation::Lda, Mode::Absolute, 4, false),
        0xAE => entry(Operation::Ldx, Mode::Absolute, 4, false),
        0xB0 => entry(Operation::Bcs, Mode::Relative, 2, false),
        0xB1 => entry(Operation::Lda, Mode::IndirectIndexed, 5, true),
        0xB4 => entry(Operation::Ldy, Mode::ZeroPageX, 4, false),
        0xB5 => entry(Operation::Lda, Mode::ZeroPageX, 4, false),
        0xB6 => entry(Operation::Ldx, Mode::ZeroPageY, 4, false),
        0xB8 => entry(Operation::Clv, Mode::Implied, 2, false),
        0xB9 => entry(Operation::Lda, Mode::AbsoluteY, 4, true),
        0xBA => entry(Operation::Tsx, Mode::Implied, 2, false),
        0xBC => entry(Operation::Ldy, Mode::AbsoluteX, 4, true),
        0xBD => entry(Operation::Lda, Mode::AbsoluteX, 4, true),
        0xBE => entry(Operation::Ldx, Mode::AbsoluteY, 4, true),
        0xC0 => entry(Operation::Cpy, Mode::Immediate, 2, false),
        0xC1 => entry(Operation::Cmp, Mode::IndexedIndirect, 6, false),
        0xC4 => entry(Operation::Cpy, Mode::ZeroPage, 3, false),
        0xC5 => entry(Operation::Cmp, Mode::ZeroPage, 3, false),
        0xC6 => entry(Operation::Dec, Mode::ZeroPage, 5, false),
        0xC8 => entry(Operation::Iny, Mode::Implied, 2, false),
        0xC9 => entry(Operation::Cmp, Mode::Immediate, 2, false),
        0xCA => entry(Operation::Dex, Mode::Implied, 2, false),
        0xCC => entry(Operation::Cpy, Mode::Absolute, 4, false),
        0xCD => entry(Operation::Cmp, Mode::Absolute, 4, false),
        0xCE => entry(Operation::Dec, Mode::Absolute, 6, false),
        0xD0 => entry(Operation::Bne, Mode::Relative, 2, false),
        0xD1 => entry(Operation::Cmp, Mode::IndirectIndexed, 5, true),
        0xD5 => entry(Operation::Cmp, Mode::ZeroPageX, 4, false),
        0xD6 => entry(Operation::Dec, Mode::ZeroPageX, 6, false),
        0xD8 => entry(Operation::Cld, Mode::Implied, 2, false),
        0xD9 => entry(Operation::Cmp, Mode::AbsoluteY, 4, true),
        0xDD => entry(Operation::Cmp, Mode::AbsoluteX, 4, true),
        0xDE => entry(Operation::Dec, Mode::AbsoluteX, 7, false),
        0xE0 => entry(Operation::Cpx, Mode::Immediate, 2, false),
        0xE1 => entry(Operation::Sbc, Mode::IndexedIndirect, 6, false),
        0xE4 => entry(Operation::Cpx, Mode::ZeroPage, 3, false),
        0xE5 => entry(Operation::Sbc, Mode::ZeroPage, 3, false),
        0xE6 => entry(Operation::Inc, Mode::ZeroPage, 5, false),
        0xE8 => entry(Operation::Inx, Mode::Implied, 2, false),
        0xE9 => entry(Operation::Sbc, Mode::Immediate, 2, false),
        0xEA => entry(Operation::Nop, Mode::Implied, 2, false),
        0xEC => entry(Operation::Cpx, Mode::Absolute, 4, false),
        0xED => entry(Operation::Sbc, Mode::Absolute, 4, false),
        0xEE => entry(Operation::Inc, Mode::Absolute, 6, false),
        0xF0 => entry(Operation::Beq, Mode::Relative, 2, false),
        0xF1 => entry(Operation::Sbc, Mode::IndirectIndexed, 5, true),
        0xF5 => entry(Operation::Sbc, Mode::ZeroPageX, 4, false),
        0xF6 => entry(Operation::Inc, Mode::ZeroPageX, 6, false),
        0xF8 => entry(Operation::Sed, Mode::Implied, 2, false),
        0xF9 => entry(Operation::Sbc, Mode::AbsoluteY, 4, true),
        0xFD => entry(Operation::Sbc, Mode::AbsoluteX, 4, true),
        0xFE => entry(Operation::Inc, Mode::AbsoluteX, 7, false),
        _ => None,
    }
}

/// Every row of the table is well formed.
pub proof fn lemma_decode_well_formed(op_code: u8)
    ensures
        decode(op_code) matches Some(info) ==> info.well_formed(),
{
    reveal(table_row);
}

/// The length in bytes of the instruction that `op_code` begins: the opcode and
/// its operand bytes. The break instruction is followed by a padding byte.
#[verifier::allow_in_spec]
pub fn instruction_length(op_code: u8) -> Option<u8>
    returns
        (match decode(op_code) {
            Some(info) => if info.operation is Brk {
                Some(2u8)
            } else {
                Some((1 + info.mode.operand_len()) as u8)
            },
            None => None,
        }),
{
    match decode(op_code) {
        Some(info) => match info.operation {
            Operation::Brk => Some(2),
            _ => Some(1 + info.mode.operand_len()),
        },
        None => None,
    }
}

} // verus!
