//! The shared data-path helpers: the Z/N flag bookkeeping, the
//! Z/N-updating register writes, the ADC/SBC adder, and the
//! addressing-mode resolver.

use crate::cpu::{is_addressing, AddressingMode, CPU};
use crate::memory::Memory;
use crate::model::{
    carry_bit, flag_set, lemma_zn_flags, mem_byte, mem_word, n_flag, with_flag, word, zn_flags,
    CpuView, FLAG_CARRY, FLAG_NEGATIVE, FLAG_OVERFLOW, FLAG_ZERO, MEM_SIZE,
};
use vstd::prelude::*;

verus! {

/// A Z/N-updating write to the accumulator.
pub open spec fn with_a(s: CpuView, v: u8) -> CpuView {
    CpuView { a: v, status: zn_flags(s.status, v), ..s }
}

/// A Z/N-updating write to the X register.
pub open spec fn with_x(s: CpuView, v: u8) -> CpuView {
    CpuView { x: v, status: zn_flags(s.status, v), ..s }
}

/// A Z/N-updating write to the Y register.
pub open spec fn with_y(s: CpuView, v: u8) -> CpuView {
    CpuView { y: v, status: zn_flags(s.status, v), ..s }
}

/// The hardware overflow rule for the adder: the operand and the old
/// accumulator share a sign bit that differs from the result's.
pub open spec fn adc_overflow(m: u8, a: u8, r: u8) -> bool {
    (m ^ r) & (a ^ r) & FLAG_NEGATIVE != 0
}

/// The full ADC data path on the state: `A + M + C` in 9 bits, carry from
/// bit 8, signed overflow per [`adc_overflow`], and A, Z, N from the
/// truncated sum.
pub open spec fn add_a_view(s: CpuView, m: u8) -> CpuView {
    let sum = s.a + m + carry_bit(s.status);
    let r = (sum % 0x100) as u8;
    let p1 = with_flag(s.status, FLAG_CARRY, sum > 0xFF);
    let p2 = with_flag(p1, FLAG_OVERFLOW, adc_overflow(m, s.a, r));
    with_a(CpuView { status: p2, ..s }, r)
}

/// The effective address named by an addressing mode, with PC at the
/// operand byte. Index additions wrap at 8 or 16 bits as the mode
/// prescribes, and the indirect-X/Y pointer stays within the zero page.
pub open spec fn operand_addr(s: CpuView, mode: AddressingMode) -> u16
    recommends
        is_addressing(mode),
        s.mem.len() == MEM_SIZE,
{
    match mode {
        AddressingMode::Immediate => s.pc,
        AddressingMode::ZeroPage => mem_byte(s, s.pc) as u16,
        AddressingMode::ZeroPageX => mem_byte(s, s.pc).wrapping_add(s.x) as u16,
        AddressingMode::ZeroPageY => mem_byte(s, s.pc).wrapping_add(s.y) as u16,
        AddressingMode::Absolute => mem_word(s, s.pc),
        AddressingMode::AbsoluteX => mem_word(s, s.pc).wrapping_add(s.x as u16),
        AddressingMode::AbsoluteY => mem_word(s, s.pc).wrapping_add(s.y as u16),
        AddressingMode::IndirectX => {
            let ptr = mem_byte(s, s.pc).wrapping_add(s.x);
            word(mem_byte(s, ptr as u16), mem_byte(s, ptr.wrapping_add(1) as u16))
        },
        AddressingMode::IndirectY => {
            let base = mem_byte(s, s.pc);
            let derefed = word(mem_byte(s, base as u16), mem_byte(s, base.wrapping_add(1) as u16));
            derefed.wrapping_add(s.y as u16)
        },
        AddressingMode::NonAddressing => 0,
    }
}

impl CPU {
    /// Add a value and the carry into the accumulator, setting C, V, Z and
    /// N as the hardware adder does. Shared by ADC and SBC.
    pub fn add_to_register_a(&mut self, value: u8)
        ensures
            final(self)@ == add_a_view(old(self)@, value),
    {
        let carry: u16 = if (self.status & FLAG_CARRY) != 0 {
            1
        } else {
            0
        };
        let sum: u16 = self.register_a as u16 + value as u16 + carry;
        if sum > 0xFF {
            self.status = self.status | FLAG_CARRY;
        } else {
            self.status = self.status & !FLAG_CARRY;
        }
        let result: u8 = (sum % 0x100) as u8;
        if (value ^ result) & (self.register_a ^ result) & FLAG_NEGATIVE != 0 {
            self.status = self.status | FLAG_OVERFLOW;
        } else {
            self.status = self.status & !FLAG_OVERFLOW;
        }
        self.set_register_a(result);
    }

    /// Set Z iff `param` is zero and N iff its bit 7 is set; no other flag
    /// moves.
    pub fn update_zero_and_negative_flags(&mut self, param: u8)
        ensures
            final(self)@ == (CpuView { status: zn_flags(old(self)@.status, param), ..old(self)@ }),
            flag_set(final(self)@.status, FLAG_ZERO) == (param == 0),
            flag_set(final(self)@.status, FLAG_NEGATIVE) == (param >= 0x80),
    {
        if param == 0 {
            self.status = self.status | FLAG_ZERO;
        } else {
            self.status = self.status & !FLAG_ZERO;
        }
        self.update_negative_flags(param);
        proof {
            lemma_zn_flags(old(self)@.status, param);
        }
    }

    /// Set N iff bit 7 of `param` is set; no other flag moves.
    pub fn update_negative_flags(&mut self, param: u8)
        ensures
            final(self)@ == (CpuView { status: n_flag(old(self)@.status, param), ..old(self)@ }),
    {
        if param >= 0x80 {
            self.status = self.status | FLAG_NEGATIVE;
        } else {
            self.status = self.status & !FLAG_NEGATIVE;
        }
    }

    /// Write the accumulator and refresh Z and N from the written value.
    pub fn set_register_a(&mut self, value: u8)
        ensures
            final(self)@ == with_a(old(self)@, value),
    {
        self.register_a = value;
        self.update_zero_and_negative_flags(value);
    }

    /// Write the X register and refresh Z and N from the written value.
    pub fn set_register_x(&mut self, value: u8)
        ensures
            final(self)@ == with_x(old(self)@, value),
    {
        self.register_x = value;
        self.update_zero_and_negative_flags(value);
    }

    /// Write the Y register and refresh Z and N from the written value.
    pub fn set_register_y(&mut self, value: u8)
        ensures
            final(self)@ == with_y(old(self)@, value),
    {
        self.register_y = value;
        self.update_zero_and_negative_flags(value);
    }

    /// Resolve an addressing mode to its effective address. PC must point
    /// at the operand byte and is not advanced here.
    pub fn get_operand_address(&self, mode: &AddressingMode) -> (addr: u16)
        requires
            is_addressing(*mode),
        ensures
            addr == operand_addr(self@, *mode),
    {
        match mode {
            AddressingMode::Immediate => self.program_counter,
            AddressingMode::ZeroPage => self.mem_read(self.program_counter) as u16,
            AddressingMode::ZeroPageX => {
                let pos = self.mem_read(self.program_counter);
                pos.wrapping_add(self.register_x) as u16
            },
            AddressingMode::ZeroPageY => {
                let pos = self.mem_read(self.program_counter);
                pos.wrapping_add(self.register_y) as u16
            },
            AddressingMode::Absolute => self.mem_read_u16(self.program_counter),
            AddressingMode::AbsoluteX => {
                let base = self.mem_read_u16(self.program_counter);
                base.wrapping_add(self.register_x as u16)
            },
            AddressingMode::AbsoluteY => {
                let base = self.mem_read_u16(self.program_counter);
                base.wrapping_add(self.register_y as u16)
            },
            AddressingMode::IndirectX => {
                let base = self.mem_read(self.program_counter);
                let ptr: u8 = base.wrapping_add(self.register_x);
                let lo = self.mem_read(ptr as u16);
                let hi = self.mem_read(ptr.wrapping_add(1) as u16);
                (hi as u16) * 0x100 + (lo as u16)
            },
            AddressingMode::IndirectY => {
                let base = self.mem_read(self.program_counter);
                let lo = self.mem_read(base as u16);
                let hi = self.mem_read(base.wrapping_add(1) as u16);
                let derefed = (hi as u16) * 0x100 + (lo as u16);
                derefed.wrapping_add(self.register_y as u16)
            },
            AddressingMode::NonAddressing => 0,
        }
    }
}

} // verus!
