//! The opcode table: the mapping from each of the 151 official opcodes to
//! its mnemonic group, addressing mode and encoded length. The dispatcher
//! consumes it read-only; a lookup that returns `None` is an undecoded
//! opcode and stops execution.

use crate::cpu::{is_addressing, AddressingMode};
use vstd::prelude::*;

verus! {

/// The mnemonic groups the dispatcher distinguishes. Accumulator variants
/// of the shift and rotate instructions carry their own tag, matching the
/// split of the semantic routines.
#[derive(Clone, Copy, Debug)]
pub enum Mnemonic {
    Adc,
    And,
    Asl,
    AslA,
    Bcc,
    Bcs,
    Beq,
    Bit,
    Bmi,
    Bne,
    Bpl,
    Brk,
    Bvc,
    Bvs,
    Clc,
    Cld,
    Cli,
    Clv,
    Cmp,
    Cpx,
    Cpy,
    Dec,
    Dex,
    Dey,
    Eor,
    Inc,
    Inx,
    Iny,
    JmpAbs,
    JmpInd,
    Jsr,
    Lda,
    Ldx,
    Ldy,
    Lsr,
    LsrA,
    Nop,
    Ora,
    Pha,
    Php,
    Pla,
    Plp,
    Rol,
    RolA,
    Ror,
    RorA,
    Rti,
    Rts,
    Sbc,
    Sec,
    Sed,
    Sei,
    Sta,
    Stx,
    Sty,
    Tax,
    Tay,
    Tsx,
    Txa,
    Txs,
    Tya,
}

/// One row of the opcode table.
#[derive(Clone, Copy, Debug)]
pub struct OpInfo {
    pub mnemonic: Mnemonic,
    pub mode: AddressingMode,
    pub len: u8,
}

/// Mnemonic groups whose semantic routine resolves an operand address.
pub open spec fn uses_operand(m: Mnemonic) -> bool {
    match m {
        Mnemonic::Adc
        | Mnemonic::And
        | Mnemonic::Asl
        | Mnemonic::Bit
        | Mnemonic::Cmp
        | Mnemonic::Cpx
        | Mnemonic::Cpy
        | Mnemonic::Dec
        | Mnemonic::Eor
        | Mnemonic::Inc
        | Mnemonic::Lda
        | Mnemonic::Ldx
        | Mnemonic::Ldy
        | Mnemonic::Lsr
        | Mnemonic::Ora
        | Mnemonic::Rol
        | Mnemonic::Ror
        | Mnemonic::Sbc
        | Mnemonic::Sta
        | Mnemonic::Stx
        | Mnemonic::Sty => true,
        _ => false,
    }
}

/// What the dispatcher needs of every table row: an encoded length between
/// 1 and 3, and a resolvable addressing mode wherever the semantic routine
/// will ask for one.
pub open spec fn table_wf(info: OpInfo) -> bool {
    &&& 1 <= info.len <= 3
    &&& (uses_operand(info.mnemonic) ==> is_addressing(info.mode))
}

/// A filled table row.
pub open spec fn entry(m: Mnemonic, mode: AddressingMode, len: u8) -> Option<OpInfo> {
    Some(OpInfo { mnemonic: m, mode: mode, len: len })
}

/// The opcode table as a function: the row for each official opcode,
/// `None` for the unofficial ones. Opaque so that reasoning about the
/// dispatcher does not expand the whole table; [`opcode_lookup`] relates
/// any concrete opcode to its row.
#[verifier::opaque]
pub open spec fn opcode_entry(code: u8) -> Option<OpInfo> {
    match code {
        0x69 => entry(Mnemonic::Adc, AddressingMode::Immediate, 2),
        0x65 => entry(Mnemonic::Adc, AddressingMode::ZeroPage, 2),
        0x75 => entry(Mnemonic::Adc, AddressingMode::ZeroPageX, 2),
        0x6D => entry(Mnemonic::Adc, AddressingMode::Absolute, 3),
        0x7D => entry(Mnemonic::Adc, AddressingMode::AbsoluteX, 3),
        0x79 => entry(Mnemonic::Adc, AddressingMode::AbsoluteY, 3),
        0x61 => entry(Mnemonic::Adc, AddressingMode::IndirectX, 2),
        0x71 => entry(Mnemonic::Adc, AddressingMode::IndirectY, 2),
        0x29 => entry(Mnemonic::And, AddressingMode::Immediate, 2),
        0x25 => entry(Mnemonic::And, AddressingMode::ZeroPage, 2),
        0x35 => entry(Mnemonic::And, AddressingMode::ZeroPageX, 2),
        0x2D => entry(Mnemonic::And, AddressingMode::Absolute, 3),
        0x3D => entry(Mnemonic::And, AddressingMode::AbsoluteX, 3),
        0x39 => entry(Mnemonic::And, AddressingMode::AbsoluteY, 3),
        0x21 => entry(Mnemonic::And, AddressingMode::IndirectX, 2),
        0x31 => entry(Mnemonic::And, AddressingMode::IndirectY, 2),
        0x0A => entry(Mnemonic::AslA, AddressingMode::NonAddressing, 1),
        0x06 => entry(Mnemonic::Asl, AddressingMode::ZeroPage, 2),
        0x16 => entry(Mnemonic::Asl, AddressingMode::ZeroPageX, 2),
        0x0E => entry(Mnemonic::Asl, AddressingMode::Absolute, 3),
        0x1E => entry(Mnemonic::Asl, AddressingMode::AbsoluteX, 3),
        0x90 => entry(Mnemonic::Bcc, AddressingMode::NonAddressing, 2),
        0xB0 => entry(Mnemonic::Bcs, AddressingMode::NonAddressing, 2),
        0xF0 => entry(Mnemonic::Beq, AddressingMode::NonAddressing, 2),
        0x24 => entry(Mnemonic::Bit, AddressingMode::ZeroPage, 2),
        0x2C => entry(Mnemonic::Bit, AddressingMode::Absolute, 3),
        0x30 => entry(Mnemonic::Bmi, AddressingMode::NonAddressing, 2),
        0xD0 => entry(Mnemonic::Bne, AddressingMode::NonAddressing, 2),
        0x10 => entry(Mnemonic::Bpl, AddressingMode::NonAddressing, 2),
        0x00 => entry(Mnemonic::Brk, AddressingMode::NonAddressing, 1),
        0x50 => entry(Mnemonic::Bvc, AddressingMode::NonAddressing, 2),
        0x70 => entry(Mnemonic::Bvs, AddressingMode::NonAddressing, 2),
        0x18 => entry(Mnemonic::Clc, AddressingMode::NonAddressing, 1),
        0xD8 => entry(Mnemonic::Cld, AddressingMode::NonAddressing, 1),
        0x58 => entry(Mnemonic::Cli, AddressingMode::NonAddressing, 1),
        0xB8 => entry(Mnemonic::Clv, AddressingMode::NonAddressing, 1),
        0xC9 => entry(Mnemonic::Cmp, AddressingMode::Immediate, 2),
        0xC5 => entry(Mnemonic::Cmp, AddressingMode::ZeroPage, 2),
        0xD5 => entry(Mnemonic::Cmp, AddressingMode::ZeroPageX, 2),
        0xCD => entry(Mnemonic::Cmp, AddressingMode::Absolute, 3),
        0xDD => entry(Mnemonic::Cmp, AddressingMode::AbsoluteX, 3),
        0xD9 => entry(Mnemonic::Cmp, AddressingMode::AbsoluteY, 3),
        0xC1 => entry(Mnemonic::Cmp, AddressingMode::IndirectX, 2),
        0xD1 => entry(Mnemonic::Cmp, AddressingMode::IndirectY, 2),
        0xE0 => entry(Mnemonic::Cpx, AddressingMode::Immediate, 2),
        0xE4 => entry(Mnemonic::Cpx, AddressingMode::ZeroPage, 2),
        0xEC => entry(Mnemonic::Cpx, AddressingMode::Absolute, 3),
        0xC0 => entry(Mnemonic::Cpy, AddressingMode::Immediate, 2),
        0xC4 => entry(Mnemonic::Cpy, AddressingMode::ZeroPage, 2),
        0xCC => entry(Mnemonic::Cpy, AddressingMode::Absolute, 3),
        0xC6 => entry(Mnemonic::Dec, AddressingMode::ZeroPage, 2),
        0xD6 => entry(Mnemonic::Dec, AddressingMode::ZeroPageX, 2),
        0xCE => entry(Mnemonic::Dec, AddressingMode::Absolute, 3),
        0xDE => entry(Mnemonic::Dec, AddressingMode::AbsoluteX, 3),
        0xCA => entry(Mnemonic::Dex, AddressingMode::NonAddressing, 1),
        0x88 => entry(Mnemonic::Dey, AddressingMode::NonAddressing, 1),
        0x49 => entry(Mnemonic::Eor, AddressingMode::Immediate, 2),
        0x45 => entry(Mnemonic::Eor, AddressingMode::ZeroPage, 2),
        0x55 => entry(Mnemonic::Eor, AddressingMode::ZeroPageX, 2),
        0x4D => entry(Mnemonic::Eor, AddressingMode::Absolute, 3),
        0x5D => entry(Mnemonic::Eor, AddressingMode::AbsoluteX, 3),
        0x59 => entry(Mnemonic::Eor, AddressingMode::AbsoluteY, 3),
        0x41 => entry(Mnemonic::Eor, AddressingMode::IndirectX, 2),
        0x51 => entry(Mnemonic::Eor, AddressingMode::IndirectY, 2),
        0xE6 => entry(Mnemonic::Inc, AddressingMode::ZeroPage, 2),
        0xF6 => entry(Mnemonic::Inc, AddressingMode::ZeroPageX, 2),
        0xEE => entry(Mnemonic::Inc, AddressingMode::Absolute, 3),
        0xFE => entry(Mnemonic::Inc, AddressingMode::AbsoluteX, 3),
        0xE8 => entry(Mnemonic::Inx, AddressingMode::NonAddressing, 1),
        0xC8 => entry(Mnemonic::Iny, AddressingMode::NonAddressing, 1),
        0x4C => entry(Mnemonic::JmpAbs, AddressingMode::NonAddressing, 3),
        0x6C => entry(Mnemonic::JmpInd, AddressingMode::NonAddressing, 3),
        0x20 => entry(Mnemonic::Jsr, AddressingMode::NonAddressing, 3),
        0xA9 => entry(Mnemonic::Lda, AddressingMode::Immediate, 2),
        0xA5 => entry(Mnemonic::Lda, AddressingMode::ZeroPage, 2),
        0xB5 => entry(Mnemonic::Lda, AddressingMode::ZeroPageX, 2),
        0xAD => entry(Mnemonic::Lda, AddressingMode::Absolute, 3),
        0xBD => entry(Mnemonic::Lda, AddressingMode::AbsoluteX, 3),
        0xB9 => entry(Mnemonic::Lda, AddressingMode::AbsoluteY, 3),
        0xA1 => entry(Mnemonic::Lda, AddressingMode::IndirectX, 2),
        0xB1 => entry(Mnemonic::Lda, AddressingMode::IndirectY, 2),
        0xA2 => entry(Mnemonic::Ldx, AddressingMode::Immediate, 2),
        0xA6 => entry(Mnemonic::Ldx, AddressingMode::ZeroPage, 2),
        0xB6 => entry(Mnemonic::Ldx, AddressingMode::ZeroPageY, 2),
        0xAE => entry(Mnemonic::Ldx, AddressingMode::Absolute, 3),
        0xBE => entry(Mnemonic::Ldx, AddressingMode::AbsoluteY, 3),
        0xA0 => entry(Mnemonic::Ldy, AddressingMode::Immediate, 2),
        0xA4 => entry(Mnemonic::Ldy, AddressingMode::ZeroPage, 2),
        0xB4 => entry(Mnemonic::Ldy, AddressingMode::ZeroPageX, 2),
        0xAC => entry(Mnemonic::Ldy, AddressingMode::Absolute, 3),
        0xBC => entry(Mnemonic::Ldy, AddressingMode::AbsoluteX, 3),
        0x4A => entry(Mnemonic::LsrA, AddressingMode::NonAddressing, 1),
        0x46 => entry(Mnemonic::Lsr, AddressingMode::ZeroPage, 2),
        0x56 => entry(Mnemonic::Lsr, AddressingMode::ZeroPageX, 2),
        0x4E => entry(Mnemonic::Lsr, AddressingMode::Absolute, 3),
        0x5E => entry(Mnemonic::Lsr, AddressingMode::AbsoluteX, 3),
        0xEA => entry(Mnemonic::Nop, AddressingMode::NonAddressing, 1),
        0x09 => entry(Mnemonic::Ora, AddressingMode::Immediate, 2),
        0x05 => entry(Mnemonic::Ora, AddressingMode::ZeroPage, 2),
        0x15 => entry(Mnemonic::Ora, AddressingMode::ZeroPageX, 2),
        0x0D => entry(Mnemonic::Ora, AddressingMode::Absolute, 3),
        0x1D => entry(Mnemonic::Ora, AddressingMode::AbsoluteX, 3),
        0x19 => entry(Mnemonic::Ora, AddressingMode::AbsoluteY, 3),
        0x01 => entry(Mnemonic::Ora, AddressingMode::IndirectX, 2),
        0x11 => entry(Mnemonic::Ora, AddressingMode::IndirectY, 2),
        0x48 => entry(Mnemonic::Pha, AddressingMode::NonAddressing, 1),
        0x08 => entry(Mnemonic::Php, AddressingMode::NonAddressing, 1),
        0x68 => entry(Mnemonic::Pla, AddressingMode::NonAddressing, 1),
        0x28 => entry(Mnemonic::Plp, AddressingMode::NonAddressing, 1),
        0x2A => entry(Mnemonic::RolA, AddressingMode::NonAddressing, 1),
        0x26 => entry(Mnemonic::Rol, AddressingMode::ZeroPage, 2),
        0x36 => entry(Mnemonic::Rol, AddressingMode::ZeroPageX, 2),
        0x2E => entry(Mnemonic::Rol, AddressingMode::Absolute, 3),
        0x3E => entry(Mnemonic::Rol, AddressingMode::AbsoluteX, 3),
        0x6A => entry(Mnemonic::RorA, AddressingMode::NonAddressing, 1),
        0x66 => entry(Mnemonic::Ror, AddressingMode::ZeroPage, 2),
        0x76 => entry(Mnemonic::Ror, AddressingMode::ZeroPageX, 2),
        0x6E => entry(Mnemonic::Ror, AddressingMode::Absolute, 3),
        0x7E => entry(Mnemonic::Ror, AddressingMode::AbsoluteX, 3),
        0x40 => entry(Mnemonic::Rti, AddressingMode::NonAddressing, 1),
        0x60 => entry(Mnemonic::Rts, AddressingMode::NonAddressing, 1),
        0xE9 => entry(Mnemonic::Sbc, AddressingMode::Immediate, 2),
        0xE5 => entry(Mnemonic::Sbc, AddressingMode::ZeroPage, 2),
        0xF5 => entry(Mnemonic::Sbc, AddressingMode::ZeroPageX, 2),
        0xED => entry(Mnemonic::Sbc, AddressingMode::Absolute, 3),
        0xFD => entry(Mnemonic::Sbc, AddressingMode::AbsoluteX, 3),
        0xF9 => entry(Mnemonic::Sbc, AddressingMode::AbsoluteY, 3),
        0xE1 => entry(Mnemonic::Sbc, AddressingMode::IndirectX, 2),
        0xF1 => entry(Mnemonic::Sbc, AddressingMode::IndirectY, 2),
        0x38 => entry(Mnemonic::Sec, AddressingMode::NonAddressing, 1),
        0xF8 => entry(Mnemonic::Sed, AddressingMode::NonAddressing, 1),
        0x78 => entry(Mnemonic::Sei, AddressingMode::NonAddressing, 1),
        0x85 => entry(Mnemonic::Sta, AddressingMode::ZeroPage, 2),
        0x95 => entry(Mnemonic::Sta, AddressingMode::ZeroPageX, 2),
        0x8D => entry(Mnemonic::Sta, AddressingMode::Absolute, 3),
        0x9D => entry(Mnemonic::Sta, AddressingMode::AbsoluteX, 3),
        0x99 => entry(Mnemonic::Sta, AddressingMode::AbsoluteY, 3),
        0x81 => entry(Mnemonic::Sta, AddressingMode::IndirectX, 2),
        0x91 => entry(Mnemonic::Sta, AddressingMode::IndirectY, 2),
        0x86 => entry(Mnemonic::Stx, AddressingMode::ZeroPage, 2),
        0x96 => entry(Mnemonic::Stx, AddressingMode::ZeroPageY, 2),
        0x8E => entry(Mnemonic::Stx, AddressingMode::Absolute, 3),
        0x84 => entry(Mnemonic::Sty, AddressingMode::ZeroPage, 2),
        0x94 => entry(Mnemonic::Sty, AddressingMode::ZeroPageX, 2),
        0x8C => entry(Mnemonic::Sty, AddressingMode::Absolute, 3),
        0xAA => entry(Mnemonic::Tax, AddressingMode::NonAddressing, 1),
        0xA8 => entry(Mnemonic::Tay, AddressingMode::NonAddressing, 1),
        0xBA => entry(Mnemonic::Tsx, AddressingMode::NonAddressing, 1),
        0x8A => entry(Mnemonic::Txa, AddressingMode::NonAddressing, 1),
        0x9A => entry(Mnemonic::Txs, AddressingMode::NonAddressing, 1),
        0x98 => entry(Mnemonic::Tya, AddressingMode::NonAddressing, 1),
        _ => None,
    }
}

/// A filled table row, built executably.
fn mk(m: Mnemonic, mode: AddressingMode, len: u8) -> (r: Option<OpInfo>)
    ensures
        r == entry(m, mode, len),
{
    Some(OpInfo { mnemonic: m, mode: mode, len: len })
}

/// Look an opcode up in the table.
pub fn opcode_lookup(code: u8) -> (r: Option<OpInfo>)
    ensures
        r == opcode_entry(code),
        r matches Some(info) ==> table_wf(info),
{
    proof {
        reveal(opcode_entry);
    }
    match code {
        0x69 => mk(Mnemonic::Adc, AddressingMode::Immediate, 2),
        0x65 => mk(Mnemonic::Adc, AddressingMode::ZeroPage, 2),
        0x75 => mk(Mnemonic::Adc, AddressingMode::ZeroPageX, 2),
        0x6D => mk(Mnemonic::Adc, AddressingMode::Absolute, 3),
        0x7D => mk(Mnemonic::Adc, AddressingMode::AbsoluteX, 3),
        0x79 => mk(Mnemonic::Adc, AddressingMode::AbsoluteY, 3),
        0x61 => mk(Mnemonic::Adc, AddressingMode::IndirectX, 2),
        0x71 => mk(Mnemonic::Adc, AddressingMode::IndirectY, 2),
        0x29 => mk(Mnemonic::And, AddressingMode::Immediate, 2),
        0x25 => mk(Mnemonic::And, AddressingMode::ZeroPage, 2),
        0x35 => mk(Mnemonic::And, AddressingMode::ZeroPageX, 2),
        0x2D => mk(Mnemonic::And, AddressingMode::Absolute, 3),
        0x3D => mk(Mnemonic::And, AddressingMode::AbsoluteX, 3),
        0x39 => mk(Mnemonic::And, AddressingMode::AbsoluteY, 3),
        0x21 => mk(Mnemonic::And, AddressingMode::IndirectX, 2),
        0x31 => mk(Mnemonic::And, AddressingMode::IndirectY, 2),
        0x0A => mk(Mnemonic::AslA, AddressingMode::NonAddressing, 1),
        0x06 => mk(Mnemonic::Asl, AddressingMode::ZeroPage, 2),
        0x16 => mk(Mnemonic::Asl, AddressingMode::ZeroPageX, 2),
        0x0E => mk(Mnemonic::Asl, AddressingMode::Absolute, 3),
        0x1E => mk(Mnemonic::Asl, AddressingMode::AbsoluteX, 3),
        0x90 => mk(Mnemonic::Bcc, AddressingMode::NonAddressing, 2),
        0xB0 => mk(Mnemonic::Bcs, AddressingMode::NonAddressing, 2),
        0xF0 => mk(Mnemonic::Beq, AddressingMode::NonAddressing, 2),
        0x24 => mk(Mnemonic::Bit, AddressingMode::ZeroPage, 2),
        0x2C => mk(Mnemonic::Bit, AddressingMode::Absolute, 3),
        0x30 => mk(Mnemonic::Bmi, AddressingMode::NonAddressing, 2),
        0xD0 => mk(Mnemonic::Bne, AddressingMode::NonAddressing, 2),
        0x10 => mk(Mnemonic::Bpl, AddressingMode::NonAddressing, 2),
        0x00 => mk(Mnemonic::Brk, AddressingMode::NonAddressing, 1),
        0x50 => mk(Mnemonic::Bvc, AddressingMode::NonAddressing, 2),
        0x70 => mk(Mnemonic::Bvs, AddressingMode::NonAddressing, 2),
        0x18 => mk(Mnemonic::Clc, AddressingMode::NonAddressing, 1),
        0xD8 => mk(Mnemonic::Cld, AddressingMode::NonAddressing, 1),
        0x58 => mk(Mnemonic::Cli, AddressingMode::NonAddressing, 1),
        0xB8 => mk(Mnemonic::Clv, AddressingMode::NonAddressing, 1),
        0xC9 => mk(Mnemonic::Cmp, AddressingMode::Immediate, 2),
        0xC5 => mk(Mnemonic::Cmp, AddressingMode::ZeroPage, 2),
        0xD5 => mk(Mnemonic::Cmp, AddressingMode::ZeroPageX, 2),
        0xCD => mk(Mnemonic::Cmp, AddressingMode::Absolute, 3),
        0xDD => mk(Mnemonic::Cmp, AddressingMode::AbsoluteX, 3),
        0xD9 => mk(Mnemonic::Cmp, AddressingMode::AbsoluteY, 3),
        0xC1 => mk(Mnemonic::Cmp, AddressingMode::IndirectX, 2),
        0xD1 => mk(Mnemonic::Cmp, AddressingMode::IndirectY, 2),
        0xE0 => mk(Mnemonic::Cpx, AddressingMode::Immediate, 2),
        0xE4 => mk(Mnemonic::Cpx, AddressingMode::ZeroPage, 2),
        0xEC => mk(Mnemonic::Cpx, AddressingMode::Absolute, 3),
        0xC0 => mk(Mnemonic::Cpy, AddressingMode::Immediate, 2),
        0xC4 => mk(Mnemonic::Cpy, AddressingMode::ZeroPage, 2),
        0xCC => mk(Mnemonic::Cpy, AddressingMode::Absolute, 3),
        0xC6 => mk(Mnemonic::Dec, AddressingMode::ZeroPage, 2),
        0xD6 => mk(Mnemonic::Dec, AddressingMode::ZeroPageX, 2),
        0xCE => mk(Mnemonic::Dec, AddressingMode::Absolute, 3),
        0xDE => mk(Mnemonic::Dec, AddressingMode::AbsoluteX, 3),
        0xCA => mk(Mnemonic::Dex, AddressingMode::NonAddressing, 1),
        0x88 => mk(Mnemonic::Dey, AddressingMode::NonAddressing, 1),
        0x49 => mk(Mnemonic::Eor, AddressingMode::Immediate, 2),
        0x45 => mk(Mnemonic::Eor, AddressingMode::ZeroPage, 2),
        0x55 => mk(Mnemonic::Eor, AddressingMode::ZeroPageX, 2),
        0x4D => mk(Mnemonic::Eor, AddressingMode::Absolute, 3),
        0x5D => mk(Mnemonic::Eor, AddressingMode::AbsoluteX, 3),
        0x59 => mk(Mnemonic::Eor, AddressingMode::AbsoluteY, 3),
        0x41 => mk(Mnemonic::Eor, AddressingMode::IndirectX, 2),
        0x51 => mk(Mnemonic::Eor, AddressingMode::IndirectY, 2),
        0xE6 => mk(Mnemonic::Inc, AddressingMode::ZeroPage, 2),
        0xF6 => mk(Mnemonic::Inc, AddressingMode::ZeroPageX, 2),
        0xEE => mk(Mnemonic::Inc, AddressingMode::Absolute, 3),
        0xFE => mk(Mnemonic::Inc, AddressingMode::AbsoluteX, 3),
        0xE8 => mk(Mnemonic::Inx, AddressingMode::NonAddressing, 1),
        0xC8 => mk(Mnemonic::Iny, AddressingMode::NonAddressing, 1),
        0x4C => mk(Mnemonic::JmpAbs, AddressingMode::NonAddressing, 3),
        0x6C => mk(Mnemonic::JmpInd, AddressingMode::NonAddressing, 3),
        0x20 => mk(Mnemonic::Jsr, AddressingMode::NonAddressing, 3),
        0xA9 => mk(Mnemonic::Lda, AddressingMode::Immediate, 2),
        0xA5 => mk(Mnemonic::Lda, AddressingMode::ZeroPage, 2),
        0xB5 => mk(Mnemonic::Lda, AddressingMode::ZeroPageX, 2),
        0xAD => mk(Mnemonic::Lda, AddressingMode::Absolute, 3),
        0xBD => mk(Mnemonic::Lda, AddressingMode::AbsoluteX, 3),
        0xB9 => mk(Mnemonic::Lda, AddressingMode::AbsoluteY, 3),
        0xA1 => mk(Mnemonic::Lda, AddressingMode::IndirectX, 2),
        0xB1 => mk(Mnemonic::Lda, AddressingMode::IndirectY, 2),
        0xA2 => mk(Mnemonic::Ldx, AddressingMode::Immediate, 2),
        0xA6 => mk(Mnemonic::Ldx, AddressingMode::ZeroPage, 2),
        0xB6 => mk(Mnemonic::Ldx, AddressingMode::ZeroPageY, 2),
        0xAE => mk(Mnemonic::Ldx, AddressingMode::Absolute, 3),
        0xBE => mk(Mnemonic::Ldx, AddressingMode::AbsoluteY, 3),
        0xA0 => mk(Mnemonic::Ldy, AddressingMode::Immediate, 2),
        0xA4 => mk(Mnemonic::Ldy, AddressingMode::ZeroPage, 2),
        0xB4 => mk(Mnemonic::Ldy, AddressingMode::ZeroPageX, 2),
        0xAC => mk(Mnemonic::Ldy, AddressingMode::Absolute, 3),
        0xBC => mk(Mnemonic::Ldy, AddressingMode::AbsoluteX, 3),
        0x4A => mk(Mnemonic::LsrA, AddressingMode::NonAddressing, 1),
        0x46 => mk(Mnemonic::Lsr, AddressingMode::ZeroPage, 2),
        0x56 => mk(Mnemonic::Lsr, AddressingMode::ZeroPageX, 2),
        0x4E => mk(Mnemonic::Lsr, AddressingMode::Absolute, 3),
        0x5E => mk(Mnemonic::Lsr, AddressingMode::AbsoluteX, 3),
        0xEA => mk(Mnemonic::Nop, AddressingMode::NonAddressing, 1),
        0x09 => mk(Mnemonic::Ora, AddressingMode::Immediate, 2),
        0x05 => mk(Mnemonic::Ora, AddressingMode::ZeroPage, 2),
        0x15 => mk(Mnemonic::Ora, AddressingMode::ZeroPageX, 2),
        0x0D => mk(Mnemonic::Ora, AddressingMode::Absolute, 3),
        0x1D => mk(Mnemonic::Ora, AddressingMode::AbsoluteX, 3),
        0x19 => mk(Mnemonic::Ora, AddressingMode::AbsoluteY, 3),
        0x01 => mk(Mnemonic::Ora, AddressingMode::IndirectX, 2),
        0x11 => mk(Mnemonic::Ora, AddressingMode::IndirectY, 2),
        0x48 => mk(Mnemonic::Pha, AddressingMode::NonAddressing, 1),
        0x08 => mk(Mnemonic::Php, AddressingMode::NonAddressing, 1),
        0x68 => mk(Mnemonic::Pla, AddressingMode::NonAddressing, 1),
        0x28 => mk(Mnemonic::Plp, AddressingMode::NonAddressing, 1),
        0x2A => mk(Mnemonic::RolA, AddressingMode::NonAddressing, 1),
        0x26 => mk(Mnemonic::Rol, AddressingMode::ZeroPage, 2),
        0x36 => mk(Mnemonic::Rol, AddressingMode::ZeroPageX, 2),
        0x2E => mk(Mnemonic::Rol, AddressingMode::Absolute, 3),
        0x3E => mk(Mnemonic::Rol, AddressingMode::AbsoluteX, 3),
        0x6A => mk(Mnemonic::RorA, AddressingMode::NonAddressing, 1),
        0x66 => mk(Mnemonic::Ror, AddressingMode::ZeroPage, 2),
        0x76 => mk(Mnemonic::Ror, AddressingMode::ZeroPageX, 2),
        0x6E => mk(Mnemonic::Ror, AddressingMode::Absolute, 3),
        0x7E => mk(Mnemonic::Ror, AddressingMode::AbsoluteX, 3),
        0x40 => mk(Mnemonic::Rti, AddressingMode::NonAddressing, 1),
        0x60 => mk(Mnemonic::Rts, AddressingMode::NonAddressing, 1),
        0xE9 => mk(Mnemonic::Sbc, AddressingMode::Immediate, 2),
        0xE5 => mk(Mnemonic::Sbc, AddressingMode::ZeroPage, 2),
        0xF5 => mk(Mnemonic::Sbc, AddressingMode::ZeroPageX, 2),
        0xED => mk(Mnemonic::Sbc, AddressingMode::Absolute, 3),
        0xFD => mk(Mnemonic::Sbc, AddressingMode::AbsoluteX, 3),
        0xF9 => mk(Mnemonic::Sbc, AddressingMode::AbsoluteY, 3),
        0xE1 => mk(Mnemonic::Sbc, AddressingMode::IndirectX, 2),
        0xF1 => mk(Mnemonic::Sbc, AddressingMode::IndirectY, 2),
        0x38 => mk(Mnemonic::Sec, AddressingMode::NonAddressing, 1),
        0xF8 => mk(Mnemonic::Sed, AddressingMode::NonAddressing, 1),
        0x78 => mk(Mnemonic::Sei, AddressingMode::NonAddressing, 1),
        0x85 => mk(Mnemonic::Sta, AddressingMode::ZeroPage, 2),
        0x95 => mk(Mnemonic::Sta, AddressingMode::ZeroPageX, 2),
        0x8D => mk(Mnemonic::Sta, AddressingMode::Absolute, 3),
        0x9D => mk(Mnemonic::Sta, AddressingMode::AbsoluteX, 3),
        0x99 => mk(Mnemonic::Sta, AddressingMode::AbsoluteY, 3),
        0x81 => mk(Mnemonic::Sta, AddressingMode::IndirectX, 2),
        0x91 => mk(Mnemonic::Sta, AddressingMode::IndirectY, 2),
        0x86 => mk(Mnemonic::Stx, AddressingMode::ZeroPage, 2),
        0x96 => mk(Mnemonic::Stx, AddressingMode::ZeroPageY, 2),
        0x8E => mk(Mnemonic::Stx, AddressingMode::Absolute, 3),
        0x84 => mk(Mnemonic::Sty, AddressingMode::ZeroPage, 2),
        0x94 => mk(Mnemonic::Sty, AddressingMode::ZeroPageX, 2),
        0x8C => mk(Mnemonic::Sty, AddressingMode::Absolute, 3),
        0xAA => mk(Mnemonic::Tax, AddressingMode::NonAddressing, 1),
        0xA8 => mk(Mnemonic::Tay, AddressingMode::NonAddressing, 1),
        0xBA => mk(Mnemonic::Tsx, AddressingMode::NonAddressing, 1),
        0x8A => mk(Mnemonic::Txa, AddressingMode::NonAddressing, 1),
        0x9A => mk(Mnemonic::Txs, AddressingMode::NonAddressing, 1),
        0x98 => mk(Mnemonic::Tya, AddressingMode::NonAddressing, 1),
        _ => None,
    }
}

} // verus!
