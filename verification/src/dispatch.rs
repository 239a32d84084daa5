//! Opcode dispatch: the fixed table mapping each opcode byte to its
//! operation, addressing mode, and base cycle cost.

use vstd::prelude::*;
use crate::cpu::CPU;

verus! {

/// The rule for computing an instruction's operand address from the bytes
/// that follow the opcode. The `Forced` variants are the forced-clock
/// forms of the indexed modes used by the store and read-modify-write
/// instructions, which always pay the indexing cycle.
#[derive(Clone, Copy, PartialEq, Eq, Structural, Debug)]
pub enum AddressingMode {
    Implied,
    Accumulator,
    Immediate,
    ZeroPage,
    ZeroPageX,
    ZeroPageY,
    Relative,
    Absolute,
    AbsoluteX,
    AbsoluteXForced,
    AbsoluteY,
    AbsoluteYForced,
    Indirect,
    IndirectX,
    IndirectY,
    IndirectYForced,
}

/// The operation an opcode performs.
#[derive(Clone, Copy, PartialEq, Eq, Structural, Debug)]
pub enum Op {
    Lda,
    Ldx,
    Ldy,
    Sta,
    Stx,
    Sty,
    Tax,
    Tay,
    Tsx,
    Txa,
    Txs,
    Tya,
    Pha,
    Php,
    Pla,
    Plp,
    AslA,
    Asl,
    LsrA,
    Lsr,
    RolA,
    Rol,
    RorA,
    Ror,
    And,
    Bit,
    Eor,
    Ora,
    Adc,
    Sbc,
    Cmp,
    Cpx,
    Cpy,
    Inc,
    Inx,
    Iny,
    Dec,
    Dex,
    Dey,
    Jmp,
    Brk,
    Jsr,
    Rti,
    Rts,
    Bcc,
    Bcs,
    Beq,
    Bmi,
    Bne,
    Bpl,
    Bvc,
    Bvs,
    Clc,
    Cld,
    Cli,
    Clv,
    Sec,
    Sed,
    Sei,
    Nop,
}

/// One entry of the dispatch table: the operation, its addressing mode,
/// and the instruction's base cycle cost (the documented cost before any
/// page-crossing or branch extras).
#[derive(Clone, Copy, PartialEq, Eq, Structural, Debug)]
pub struct InstrInfo {
    pub op: Op,
    pub mode: AddressingMode,
    pub cycles: u8,
}

/// A shorter name for building table entries.
pub open spec fn entry(op: Op, mode: AddressingMode, cycles: u8) -> Option<InstrInfo> {
    Some(InstrInfo { op, mode, cycles })
}

/// The dispatch table: what each opcode byte decodes to, or `None` for
/// the opcode bytes this processor does not support. Opaque so that
/// callers reason through `get_instruction_info` instead of unfolding the
/// whole table; reveal it to evaluate an entry.
#[verifier::opaque]
pub open spec fn decode(opcode: u8) -> Option<InstrInfo> {
    match opcode {
        0xa9 => entry(Op::Lda, AddressingMode::Immediate, 2),
        0xad => entry(Op::Lda, AddressingMode::Absolute, 4),
        0xbd => entry(Op::Lda, AddressingMode::AbsoluteX, 4),
        0xb9 => entry(Op::Lda, AddressingMode::AbsoluteY, 4),
        0xa5 => entry(Op::Lda, AddressingMode::ZeroPage, 3),
        0xb5 => entry(Op::Lda, AddressingMode::ZeroPageX, 4),
        0xa1 => entry(Op::Lda, AddressingMode::IndirectX, 6),
        0xb1 => entry(Op::Lda, AddressingMode::IndirectY, 5),
        0xa2 => entry(Op::Ldx, AddressingMode::Immediate, 2),
        0xae => entry(Op::Ldx, AddressingMode::Absolute, 4),
        0xbe => entry(Op::Ldx, AddressingMode::AbsoluteY, 4),
        0xa6 => entry(Op::Ldx, AddressingMode::ZeroPage, 3),
        0xb6 => entry(Op::Ldx, AddressingMode::ZeroPageY, 4),
        0xa0 => entry(Op::Ldy, AddressingMode::Immediate, 2),
        0xac => entry(Op::Ldy, AddressingMode::Absolute, 4),
        0xbc => entry(Op::Ldy, AddressingMode::AbsoluteX, 4),
        0xa4 => entry(Op::Ldy, AddressingMode::ZeroPage, 3),
        0xb4 => entry(Op::Ldy, AddressingMode::ZeroPageX, 4),
        0x8d => entry(Op::Sta, AddressingMode::Absolute, 4),
        0x9d => entry(Op::Sta, AddressingMode::AbsoluteXForced, 5),
        0x99 => entry(Op::Sta, AddressingMode::AbsoluteYForced, 5),
        0x85 => entry(Op::Sta, AddressingMode::ZeroPage, 3),
        0x95 => entry(Op::Sta, AddressingMode::ZeroPageX, 4),
        0x81 => entry(Op::Sta, AddressingMode::IndirectX, 6),
        0x91 => entry(Op::Sta, AddressingMode::IndirectYForced, 6),
        0x8e => entry(Op::Stx, AddressingMode::Absolute, 4),
        0x86 => entry(Op::Stx, AddressingMode::ZeroPage, 3),
        0x96 => entry(Op::Stx, AddressingMode::ZeroPageY, 4),
        0x8c => entry(Op::Sty, AddressingMode::Absolute, 4),
        0x84 => entry(Op::Sty, AddressingMode::ZeroPage, 3),
        0x94 => entry(Op::Sty, AddressingMode::ZeroPageX, 4),
        0xaa => entry(Op::Tax, AddressingMode::Implied, 2),
        0xa8 => entry(Op::Tay, AddressingMode::Implied, 2),
        0xba => entry(Op::Tsx, AddressingMode::Implied, 2),
        0x8a => entry(Op::Txa, AddressingMode::Implied, 2),
        0x9a => entry(Op::Txs, AddressingMode::Implied, 2),
        0x98 => entry(Op::Tya, AddressingMode::Implied, 2),
        0x48 => entry(Op::Pha, AddressingMode::Implied, 3),
        0x08 => entry(Op::Php, AddressingMode::Implied, 3),
        0x68 => entry(Op::Pla, AddressingMode::Implied, 4),
        0x28 => entry(Op::Plp, AddressingMode::Implied, 4),
        0x0a => entry(Op::AslA, AddressingMode::Accumulator, 2),
        0x0e => entry(Op::Asl, AddressingMode::Absolute, 6),
        0x1e => entry(Op::Asl, AddressingMode::AbsoluteXForced, 7),
        0x06 => entry(Op::Asl, AddressingMode::ZeroPage, 5),
        0x16 => entry(Op::Asl, AddressingMode::ZeroPageX, 6),
        0x4a => entry(Op::LsrA, AddressingMode::Accumulator, 2),
        0x4e => entry(Op::Lsr, AddressingMode::Absolute, 6),
        0x5e => entry(Op::Lsr, AddressingMode::AbsoluteXForced, 7),
        0x46 => entry(Op::Lsr, AddressingMode::ZeroPage, 5),
        0x56 => entry(Op::Lsr, AddressingMode::ZeroPageX, 6),
        0x2a => entry(Op::RolA, AddressingMode::Accumulator, 2),
        0x2e => entry(Op::Rol, AddressingMode::Absolute, 6),
        0x3e => entry(Op::Rol, AddressingMode::AbsoluteXForced, 7),
        0x26 => entry(Op::Rol, AddressingMode::ZeroPage, 5),
        0x36 => entry(Op::Rol, AddressingMode::ZeroPageX, 6),
        0x6a => entry(Op::RorA, AddressingMode::Accumulator, 2),
        0x6e => entry(Op::Ror, AddressingMode::Absolute, 6),
        0x7e => entry(Op::Ror, AddressingMode::AbsoluteXForced, 7),
        0x66 => entry(Op::Ror, AddressingMode::ZeroPage, 5),
        0x76 => entry(Op::Ror, AddressingMode::ZeroPageX, 6),
        0x29 => entry(Op::And, AddressingMode::Immediate, 2),
        0x2d => entry(Op::And, AddressingMode::Absolute, 4),
        0x3d => entry(Op::And, AddressingMode::AbsoluteX, 4),
        0x39 => entry(Op::And, AddressingMode::AbsoluteY, 4),
        0x25 => entry(Op::And, AddressingMode::ZeroPage, 3),
        0x35 => entry(Op::And, AddressingMode::ZeroPageX, 4),
        0x21 => entry(Op::And, AddressingMode::IndirectX, 6),
        0x31 => entry(Op::And, AddressingMode::IndirectY, 5),
        0x2c => entry(Op::Bit, AddressingMode::Absolute, 4),
        0x24 => entry(Op::Bit, AddressingMode::ZeroPage, 3),
        0x49 => entry(Op::Eor, AddressingMode::Immediate, 2),
        0x4d => entry(Op::Eor, AddressingMode::Absolute, 4),
        0x5d => entry(Op::Eor, AddressingMode::AbsoluteX, 4),
        0x59 => entry(Op::Eor, AddressingMode::AbsoluteY, 4),
        0x45 => entry(Op::Eor, AddressingMode::ZeroPage, 3),
        0x55 => entry(Op::Eor, AddressingMode::ZeroPageX, 4),
        0x41 => entry(Op::Eor, AddressingMode::IndirectX, 6),
        0x51 => entry(Op::Eor, AddressingMode::IndirectY, 5),
        0x09 => entry(Op::Ora, AddressingMode::Immediate, 2),
        0x0d => entry(Op::Ora, AddressingMode::Absolute, 4),
        0x1d => entry(Op::Ora, AddressingMode::AbsoluteX, 4),
        0x19 => entry(Op::Ora, AddressingMode::AbsoluteY, 4),
        0x05 => entry(Op::Ora, AddressingMode::ZeroPage, 3),
        0x15 => entry(Op::Ora, AddressingMode::ZeroPageX, 4),
        0x01 => entry(Op::Ora, AddressingMode::IndirectX, 6),
        0x11 => entry(Op::Ora, AddressingMode::IndirectY, 5),
        0x69 => entry(Op::Adc, AddressingMode::Immediate, 2),
        0x6d => entry(Op::Adc, AddressingMode::Absolute, 4),
        0x7d => entry(Op::Adc, AddressingMode::AbsoluteX, 4),
        0x79 => entry(Op::Adc, AddressingMode::AbsoluteY, 4),
        0x65 => entry(Op::Adc, AddressingMode::ZeroPage, 3),
        0x75 => entry(Op::Adc, AddressingMode::ZeroPageX, 4),
        0x61 => entry(Op::Adc, AddressingMode::IndirectX, 6),
        0x71 => entry(Op::Adc, AddressingMode::IndirectY, 5),
        0xe9 => entry(Op::Sbc, AddressingMode::Immediate, 2),
        0xed => entry(Op::Sbc, AddressingMode::Absolute, 4),
        0xfd => entry(Op::Sbc, AddressingMode::AbsoluteX, 4),
        0xf9 => entry(Op::Sbc, AddressingMode::AbsoluteY, 4),
        0xe5 => entry(Op::Sbc, AddressingMode::ZeroPage, 3),
        0xf5 => entry(Op::Sbc, AddressingMode::ZeroPageX, 4),
        0xe1 => entry(Op::Sbc, AddressingMode::IndirectX, 6),
        0xf1 => entry(Op::Sbc, AddressingMode::IndirectY, 5),
        0xc9 => entry(Op::Cmp, AddressingMode::Immediate, 2),
        0xcd => entry(Op::Cmp, AddressingMode::Absolute, 4),
        0xdd => entry(Op::Cmp, AddressingMode::AbsoluteX, 4),
        0xd9 => entry(Op::Cmp, AddressingMode::AbsoluteY, 4),
        0xc5 => entry(Op::Cmp, AddressingMode::ZeroPage, 3),
        0xd5 => entry(Op::Cmp, AddressingMode::ZeroPageX, 4),
        0xc1 => entry(Op::Cmp, AddressingMode::IndirectX, 6),
        0xd1 => entry(Op::Cmp, AddressingMode::IndirectY, 5),
        0xe0 => entry(Op::Cpx, AddressingMode::Immediate, 2),
        0xec => entry(Op::Cpx, AddressingMode::Absolute, 4),
        0xe4 => entry(Op::Cpx, AddressingMode::ZeroPage, 3),
        0xc0 => entry(Op::Cpy, AddressingMode::Immediate, 2),
        0xcc => entry(Op::Cpy, AddressingMode::Absolute, 4),
        0xc4 => entry(Op::Cpy, AddressingMode::ZeroPage, 3),
        0xee => entry(Op::Inc, AddressingMode::Absolute, 6),
        0xfe => entry(Op::Inc, AddressingMode::AbsoluteXForced, 7),
        0xe6 => entry(Op::Inc, AddressingMode::ZeroPage, 5),
        0xf6 => entry(Op::Inc, AddressingMode::ZeroPageX, 6),
        0xe8 => entry(Op::Inx, AddressingMode::Implied, 2),
        0xc8 => entry(Op::Iny, AddressingMode::Implied, 2),
        0xce => entry(Op::Dec, AddressingMode::Absolute, 6),
        0xde => entry(Op::Dec, AddressingMode::AbsoluteXForced, 7),
        0xc6 => entry(Op::Dec, AddressingMode::ZeroPage, 5),
        0xd6 => entry(Op::Dec, AddressingMode::ZeroPageX, 6),
        0xca => entry(Op::Dex, AddressingMode::Implied, 2),
        0x88 => entry(Op::Dey, AddressingMode::Implied, 2),
        0x4c => entry(Op::Jmp, AddressingMode::Absolute, 3),
        0x6c => entry(Op::Jmp, AddressingMode::Indirect, 5),
        0x00 => entry(Op::Brk, AddressingMode::Implied, 7),
        0x20 => entry(Op::Jsr, AddressingMode::Absolute, 6),
        0x40 => entry(Op::Rti, AddressingMode::Implied, 6),
        0x60 => entry(Op::Rts, AddressingMode::Implied, 6),
        0x90 => entry(Op::Bcc, AddressingMode::Relative, 2),
        0xb0 => entry(Op::Bcs, AddressingMode::Relative, 2),
        0xf0 => entry(Op::Beq, AddressingMode::Relative, 2),
        0x30 => entry(Op::Bmi, AddressingMode::Relative, 2),
        0xd0 => entry(Op::Bne, AddressingMode::Relative, 2),
        0x10 => entry(Op::Bpl, AddressingMode::Relative, 2),
        0x50 => entry(Op::Bvc, AddressingMode::Relative, 2),
        0x70 => entry(Op::Bvs, AddressingMode::Relative, 2),
        0x18 => entry(Op::Clc, AddressingMode::Implied, 2),
        0xd8 => entry(Op::Cld, AddressingMode::Implied, 2),
        0x58 => entry(Op::Cli, AddressingMode::Implied, 2),
        0xb8 => entry(Op::Clv, AddressingMode::Implied, 2),
        0x38 => entry(Op::Sec, AddressingMode::Implied, 2),
        0xf8 => entry(Op::Sed, AddressingMode::Implied, 2),
        0x78 => entry(Op::Sei, AddressingMode::Implied, 2),
        0xea => entry(Op::Nop, AddressingMode::Implied, 2),
        _ => None,
    }
}

impl CPU {
    /// Look an opcode byte up in the dispatch table.
    pub fn get_instruction_info(&self, opcode: u8) -> (r: Option<InstrInfo>)
        ensures
            r == decode(opcode),
    {
        proof {
            reveal(decode);
        }
        let r = match opcode {
            0xa9 => Some(InstrInfo { op: Op::Lda, mode: AddressingMode::Immediate, cycles: 2 }),
            0xad => Some(InstrInfo { op: Op::Lda, mode: AddressingMode::Absolute, cycles: 4 }),
            0xbd => Some(InstrInfo { op: Op::Lda, mode: AddressingMode::AbsoluteX, cycles: 4 }),
            0xb9 => Some(InstrInfo { op: Op::Lda, mode: AddressingMode::AbsoluteY, cycles: 4 }),
            0xa5 => Some(InstrInfo { op: Op::Lda, mode: AddressingMode::ZeroPage, cycles: 3 }),
            0xb5 => Some(InstrInfo { op: Op::Lda, mode: AddressingMode::ZeroPageX, cycles: 4 }),
            0xa1 => Some(InstrInfo { op: Op::Lda, mode: AddressingMode::IndirectX, cycles: 6 }),
            0xb1 => Some(InstrInfo { op: Op::Lda, mode: AddressingMode::IndirectY, cycles: 5 }),
            0xa2 => Some(InstrInfo { op: Op::Ldx, mode: AddressingMode::Immediate, cycles: 2 }),
            0xae => Some(InstrInfo { op: Op::Ldx, mode: AddressingMode::Absolute, cycles: 4 }),
            0xbe => Some(InstrInfo { op: Op::Ldx, mode: AddressingMode::AbsoluteY, cycles: 4 }),
            0xa6 => Some(InstrInfo { op: Op::Ldx, mode: AddressingMode::ZeroPage, cycles: 3 }),
            0xb6 => Some(InstrInfo { op: Op::Ldx, mode: AddressingMode::ZeroPageY, cycles: 4 }),
            0xa0 => Some(InstrInfo { op: Op::Ldy, mode: AddressingMode::Immediate, cycles: 2 }),
            0xac => Some(InstrInfo { op: Op::Ldy, mode: AddressingMode::Absolute, cycles: 4 }),
            0xbc => Some(InstrInfo { op: Op::Ldy, mode: AddressingMode::AbsoluteX, cycles: 4 }),
            0xa4 => Some(InstrInfo { op: Op::Ldy, mode: AddressingMode::ZeroPage, cycles: 3 }),
            0xb4 => Some(InstrInfo { op: Op::Ldy, mode: AddressingMode::ZeroPageX, cycles: 4 }),
            0x8d => Some(InstrInfo { op: Op::Sta, mode: AddressingMode::Absolute, cycles: 4 }),
            0x9d => Some(
                InstrInfo { op: Op::Sta, mode: AddressingMode::AbsoluteXForced, cycles: 5 },
            ),
            0x99 => Some(
                InstrInfo { op: Op::Sta, mode: AddressingMode::AbsoluteYForced, cycles: 5 },
            ),
            0x85 => Some(InstrInfo { op: Op::Sta, mode: AddressingMode::ZeroPage, cycles: 3 }),
            0x95 => Some(InstrInfo { op: Op::Sta, mode: AddressingMode::ZeroPageX, cycles: 4 }),
            0x81 => Some(InstrInfo { op: Op::Sta, mode: AddressingMode::IndirectX, cycles: 6 }),
            0x91 => Some(
                InstrInfo { op: Op::Sta, mode: AddressingMode::IndirectYForced, cycles: 6 },
            ),
            0x8e => Some(InstrInfo { op: Op::Stx, mode: AddressingMode::Absolute, cycles: 4 }),
            0x86 => Some(InstrInfo { op: Op::Stx, mode: AddressingMode::ZeroPage, cycles: 3 }),
            0x96 => Some(InstrInfo { op: Op::Stx, mode: AddressingMode::ZeroPageY, cycles: 4 }),
            0x8c => Some(InstrInfo { op: Op::Sty, mode: AddressingMode::Absolute, cycles: 4 }),
            0x84 => Some(InstrInfo { op: Op::Sty, mode: AddressingMode::ZeroPage, cycles: 3 }),
            0x94 => Some(InstrInfo { op: Op::Sty, mode: AddressingMode::ZeroPageX, cycles: 4 }),
            0xaa => Some(InstrInfo { op: Op::Tax, mode: AddressingMode::Implied, cycles: 2 }),
            0xa8 => Some(InstrInfo { op: Op::Tay, mode: AddressingMode::Implied, cycles: 2 }),
            0xba => Some(InstrInfo { op: Op::Tsx, mode: AddressingMode::Implied, cycles: 2 }),
            0x8a => Some(InstrInfo { op: Op::Txa, mode: AddressingMode::Implied, cycles: 2 }),
            0x9a => Some(InstrInfo { op: Op::Txs, mode: AddressingMode::Implied, cycles: 2 }),
            0x98 => Some(InstrInfo { op: Op::Tya, mode: AddressingMode::Implied, cycles: 2 }),
            0x48 => Some(InstrInfo { op: Op::Pha, mode: AddressingMode::Implied, cycles: 3 }),
            0x08 => Some(InstrInfo { op: Op::Php, mode: AddressingMode::Implied, cycles: 3 }),
            0x68 => Some(InstrInfo { op: Op::Pla, mode: AddressingMode::Implied, cycles: 4 }),
            0x28 => Some(InstrInfo { op: Op::Plp, mode: AddressingMode::Implied, cycles: 4 }),
            0x0a => Some(InstrInfo { op: Op::AslA, mode: AddressingMode::Accumulator, cycles: 2 }),
            0x0e => Some(InstrInfo { op: Op::Asl, mode: AddressingMode::Absolute, cycles: 6 }),
            0x1e => Some(
                InstrInfo { op: Op::Asl, mode: AddressingMode::AbsoluteXForced, cycles: 7 },
            ),
            0x06 => Some(InstrInfo { op: Op::Asl, mode: AddressingMode::ZeroPage, cycles: 5 }),
            0x16 => Some(InstrInfo { op: Op::Asl, mode: AddressingMode::ZeroPageX, cycles: 6 }),
            0x4a => Some(InstrInfo { op: Op::LsrA, mode: AddressingMode::Accumulator, cycles: 2 }),
            0x4e => Some(InstrInfo { op: Op::Lsr, mode: AddressingMode::Absolute, cycles: 6 }),
            0x5e => Some(
                InstrInfo { op: Op::Lsr, mode: AddressingMode::AbsoluteXForced, cycles: 7 },
            ),
            0x46 => Some(InstrInfo { op: Op::Lsr, mode: AddressingMode::ZeroPage, cycles: 5 }),
            0x56 => Some(InstrInfo { op: Op::Lsr, mode: AddressingMode::ZeroPageX, cycles: 6 }),
            0x2a => Some(InstrInfo { op: Op::RolA, mode: AddressingMode::Accumulator, cycles: 2 }),
            0x2e => Some(InstrInfo { op: Op::Rol, mode: AddressingMode::Absolute, cycles: 6 }),
            0x3e => Some(
                InstrInfo { op: Op::Rol, mode: AddressingMode::AbsoluteXForced, cycles: 7 },
            ),
            0x26 => Some(InstrInfo { op: Op::Rol, mode: AddressingMode::ZeroPage, cycles: 5 }),
            0x36 => Some(InstrInfo { op: Op::Rol, mode: AddressingMode::ZeroPageX, cycles: 6 }),
            0x6a => Some(InstrInfo { op: Op::RorA, mode: AddressingMode::Accumulator, cycles: 2 }),
            0x6e => Some(InstrInfo { op: Op::Ror, mode: AddressingMode::Absolute, cycles: 6 }),
            0x7e => Some(
                InstrInfo { op: Op::Ror, mode: AddressingMode::AbsoluteXForced, cycles: 7 },
            ),
            0x66 => Some(InstrInfo { op: Op::Ror, mode: AddressingMode::ZeroPage, cycles: 5 }),
            0x76 => Some(InstrInfo { op: Op::Ror, mode: AddressingMode::ZeroPageX, cycles: 6 }),
            0x29 => Some(InstrInfo { op: Op::And, mode: AddressingMode::Immediate, cycles: 2 }),
            0x2d => Some(InstrInfo { op: Op::And, mode: AddressingMode::Absolute, cycles: 4 }),
            0x3d => Some(InstrInfo { op: Op::And, mode: AddressingMode::AbsoluteX, cycles: 4 }),
            0x39 => Some(InstrInfo { op: Op::And, mode: AddressingMode::AbsoluteY, cycles: 4 }),
            0x25 => Some(InstrInfo { op: Op::And, mode: AddressingMode::ZeroPage, cycles: 3 }),
            0x35 => Some(InstrInfo { op: Op::And, mode: AddressingMode::ZeroPageX, cycles: 4 }),
            0x21 => Some(InstrInfo { op: Op::And, mode: AddressingMode::IndirectX, cycles: 6 }),
            0x31 => Some(InstrInfo { op: Op::And, mode: AddressingMode::IndirectY, cycles: 5 }),
            0x2c => Some(InstrInfo { op: Op::Bit, mode: AddressingMode::Absolute, cycles: 4 }),
            0x24 => Some(InstrInfo { op: Op::Bit, mode: AddressingMode::ZeroPage, cycles: 3 }),
            0x49 => Some(InstrInfo { op: Op::Eor, mode: AddressingMode::Immediate, cycles: 2 }),
            0x4d => Some(InstrInfo { op: Op::Eor, mode: AddressingMode::Absolute, cycles: 4 }),
            0x5d => Some(InstrInfo { op: Op::Eor, mode: AddressingMode::AbsoluteX, cycles: 4 }),
            0x59 => Some(InstrInfo { op: Op::Eor, mode: AddressingMode::AbsoluteY, cycles: 4 }),
            0x45 => Some(InstrInfo { op: Op::Eor, mode: AddressingMode::ZeroPage, cycles: 3 }),
            0x55 => Some(InstrInfo { op: Op::Eor, mode: AddressingMode::ZeroPageX, cycles: 4 }),
            0x41 => Some(InstrInfo { op: Op::Eor, mode: AddressingMode::IndirectX, cycles: 6 }),
            0x51 => Some(InstrInfo { op: Op::Eor, mode: AddressingMode::IndirectY, cycles: 5 }),
            0x09 => Some(InstrInfo { op: Op::Ora, mode: AddressingMode::Immediate, cycles: 2 }),
            0x0d => Some(InstrInfo { op: Op::Ora, mode: AddressingMode::Absolute, cycles: 4 }),
            0x1d => Some(InstrInfo { op: Op::Ora, mode: AddressingMode::AbsoluteX, cycles: 4 }),
            0x19 => Some(InstrInfo { op: Op::Ora, mode: AddressingMode::AbsoluteY, cycles: 4 }),
            0x05 => Some(InstrInfo { op: Op::Ora, mode: AddressingMode::ZeroPage, cycles: 3 }),
            0x15 => Some(InstrInfo { op: Op::Ora, mode: AddressingMode::ZeroPageX, cycles: 4 }),
            0x01 => Some(InstrInfo { op: Op::Ora, mode: AddressingMode::IndirectX, cycles: 6 }),
            0x11 => Some(InstrInfo { op: Op::Ora, mode: AddressingMode::IndirectY, cycles: 5 }),
            0x69 => Some(InstrInfo { op: Op::Adc, mode: AddressingMode::Immediate, cycles: 2 }),
            0x6d => Some(InstrInfo { op: Op::Adc, mode: AddressingMode::Absolute, cycles: 4 }),
            0x7d => Some(InstrInfo { op: Op::Adc, mode: AddressingMode::AbsoluteX, cycles: 4 }),
            0x79 => Some(InstrInfo { op: Op::Adc, mode: AddressingMode::AbsoluteY, cycles: 4 }),
            0x65 => Some(InstrInfo { op: Op::Adc, mode: AddressingMode::ZeroPage, cycles: 3 }),
            0x75 => Some(InstrInfo { op: Op::Adc, mode: AddressingMode::ZeroPageX, cycles: 4 }),
            0x61 => Some(InstrInfo { op: Op::Adc, mode: AddressingMode::IndirectX, cycles: 6 }),
            0x71 => Some(InstrInfo { op: Op::Adc, mode: AddressingMode::IndirectY, cycles: 5 }),
            0xe9 => Some(InstrInfo { op: Op::Sbc, mode: AddressingMode::Immediate, cycles: 2 }),
            0xed => Some(InstrInfo { op: Op::Sbc, mode: AddressingMode::Absolute, cycles: 4 }),
            0xfd => Some(InstrInfo { op: Op::Sbc, mode: AddressingMode::AbsoluteX, cycles: 4 }),
            0xf9 => Some(InstrInfo { op: Op::Sbc, mode: AddressingMode::AbsoluteY, cycles: 4 }),
            0xe5 => Some(InstrInfo { op: Op::Sbc, mode: AddressingMode::ZeroPage, cycles: 3 }),
            0xf5 => Some(InstrInfo { op: Op::Sbc, mode: AddressingMode::ZeroPageX, cycles: 4 }),
            0xe1 => Some(InstrInfo { op: Op::Sbc, mode: AddressingMode::IndirectX, cycles: 6 }),
            0xf1 => Some(InstrInfo { op: Op::Sbc, mode: AddressingMode::IndirectY, cycles: 5 }),
            0xc9 => Some(InstrInfo { op: Op::Cmp, mode: AddressingMode::Immediate, cycles: 2 }),
            0xcd => Some(InstrInfo { op: Op::Cmp, mode: AddressingMode::Absolute, cycles: 4 }),
            0xdd => Some(InstrInfo { op: Op::Cmp, mode: AddressingMode::AbsoluteX, cycles: 4 }),
            0xd9 => Some(InstrInfo { op: Op::Cmp, mode: AddressingMode::AbsoluteY, cycles: 4 }),
            0xc5 => Some(InstrInfo { op: Op::Cmp, mode: AddressingMode::ZeroPage, cycles: 3 }),
            0xd5 => Some(InstrInfo { op: Op::Cmp, mode: AddressingMode::ZeroPageX, cycles: 4 }),
            0xc1 => Some(InstrInfo { op: Op::Cmp, mode: AddressingMode::IndirectX, cycles: 6 }),
            0xd1 => Some(InstrInfo { op: Op::Cmp, mode: AddressingMode::IndirectY, cycles: 5 }),
            0xe0 => Some(InstrInfo { op: Op::Cpx, mode: AddressingMode::Immediate, cycles: 2 }),
            0xec => Some(InstrInfo { op: Op::Cpx, mode: AddressingMode::Absolute, cycles: 4 }),
            0xe4 => Some(InstrInfo { op: Op::Cpx, mode: AddressingMode::ZeroPage, cycles: 3 }),
            0xc0 => Some(InstrInfo { op: Op::Cpy, mode: AddressingMode::Immediate, cycles: 2 }),
            0xcc => Some(InstrInfo { op: Op::Cpy, mode: AddressingMode::Absolute, cycles: 4 }),
            0xc4 => Some(InstrInfo { op: Op::Cpy, mode: AddressingMode::ZeroPage, cycles: 3 }),
            0xee => Some(InstrInfo { op: Op::Inc, mode: AddressingMode::Absolute, cycles: 6 }),
            0xfe => Some(
                InstrInfo { op: Op::Inc, mode: AddressingMode::AbsoluteXForced, cycles: 7 },
            ),
            0xe6 => Some(InstrInfo { op: Op::Inc, mode: AddressingMode::ZeroPage, cycles: 5 }),
            0xf6 => Some(InstrInfo { op: Op::Inc, mode: AddressingMode::ZeroPageX, cycles: 6 }),
            0xe8 => Some(InstrInfo { op: Op::Inx, mode: AddressingMode::Implied, cycles: 2 }),
            0xc8 => Some(InstrInfo { op: Op::Iny, mode: AddressingMode::Implied, cycles: 2 }),
            0xce => Some(InstrInfo { op: Op::Dec, mode: AddressingMode::Absolute, cycles: 6 }),
            0xde => Some(
                InstrInfo { op: Op::Dec, mode: AddressingMode::AbsoluteXForced, cycles: 7 },
            ),
            0xc6 => Some(InstrInfo { op: Op::Dec, mode: AddressingMode::ZeroPage, cycles: 5 }),
            0xd6 => Some(InstrInfo { op: Op::Dec, mode: AddressingMode::ZeroPageX, cycles: 6 }),
            0xca => Some(InstrInfo { op: Op::Dex, mode: AddressingMode::Implied, cycles: 2 }),
            0x88 => Some(InstrInfo { op: Op::Dey, mode: AddressingMode::Implied, cycles: 2 }),
            0x4c => Some(InstrInfo { op: Op::Jmp, mode: AddressingMode::Absolute, cycles: 3 }),
            0x6c => Some(InstrInfo { op: Op::Jmp, mode: AddressingMode::Indirect, cycles: 5 }),
            0x00 => Some(InstrInfo { op: Op::Brk, mode: AddressingMode::Implied, cycles: 7 }),
            0x20 => Some(InstrInfo { op: Op::Jsr, mode: AddressingMode::Absolute, cycles: 6 }),
            0x40 => Some(InstrInfo { op: Op::Rti, mode: AddressingMode::Implied, cycles: 6 }),
            0x60 => Some(InstrInfo { op: Op::Rts, mode: AddressingMode::Implied, cycles: 6 }),
            0x90 => Some(InstrInfo { op: Op::Bcc, mode: AddressingMode::Relative, cycles: 2 }),
            0xb0 => Some(InstrInfo { op: Op::Bcs, mode: AddressingMode::Relative, cycles: 2 }),
            0xf0 => Some(InstrInfo { op: Op::Beq, mode: AddressingMode::Relative, cycles: 2 }),
            0x30 => Some(InstrInfo { op: Op::Bmi, mode: AddressingMode::Relative, cycles: 2 }),
            0xd0 => Some(InstrInfo { op: Op::Bne, mode: AddressingMode::Relative, cycles: 2 }),
            0x10 => Some(InstrInfo { op: Op::Bpl, mode: AddressingMode::Relative, cycles: 2 }),
            0x50 => Some(InstrInfo { op: Op::Bvc, mode: AddressingMode::Relative, cycles: 2 }),
            0x70 => Some(InstrInfo { op: Op::Bvs, mode: AddressingMode::Relative, cycles: 2 }),
            0x18 => Some(InstrInfo { op: Op::Clc, mode: AddressingMode::Implied, cycles: 2 }),
            0xd8 => Some(InstrInfo { op: Op::Cld, mode: AddressingMode::Implied, cycles: 2 }),
            0x58 => Some(InstrInfo { op: Op::Cli, mode: AddressingMode::Implied, cycles: 2 }),
            0xb8 => Some(InstrInfo { op: Op::Clv, mode: AddressingMode::Implied, cycles: 2 }),
            0x38 => Some(InstrInfo { op: Op::Sec, mode: AddressingMode::Implied, cycles: 2 }),
            0xf8 => Some(InstrInfo { op: Op::Sed, mode: AddressingMode::Implied, cycles: 2 }),
            0x78 => Some(InstrInfo { op: Op::Sei, mode: AddressingMode::Implied, cycles: 2 }),
            0xea => Some(InstrInfo { op: Op::Nop, mode: AddressingMode::Implied, cycles: 2 }),
            _ => None,
        };
        r
    }
}

} // verus!
