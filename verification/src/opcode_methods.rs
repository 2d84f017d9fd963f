//! One routine per mnemonic group of the official 6502 instruction set,
//! each verified against a spec function that gives the instruction's
//! complete effect on the machine state. PC points one past the opcode on
//! entry; only jumps and taken branches write PC, everything else leaves
//! advancement to the dispatcher.

use crate::core_functions::{add_a_view, operand_addr, with_a, with_x, with_y};
use crate::cpu::{is_addressing, AddressingMode, CPU};
use crate::memory::Memory;
use crate::model::{
    flag_set, mem_byte, mem_word, n_flag, popped16, popped8, pushed16, pushed8, with_byte,
    with_flag, zn_flags, CpuView, FLAG_BREAK, FLAG_BREAK2, FLAG_CARRY, FLAG_NEGATIVE,
    FLAG_OVERFLOW, FLAG_ZERO, MEM_SIZE,
};
use crate::stack::Stack;
use vstd::prelude::*;

verus! {

/// The operand byte named by an addressing mode.
pub open spec fn operand(s: CpuView, mode: AddressingMode) -> u8
    recommends
        is_addressing(mode),
        s.mem.len() == MEM_SIZE,
{
    mem_byte(s, operand_addr(s, mode))
}

/// The status byte with one flag forced.
pub open spec fn flag_view(s: CpuView, mask: u8, on: bool) -> CpuView {
    CpuView { status: with_flag(s.status, mask, on), ..s }
}

/// A byte rotated left through the carry.
pub open spec fn rol_value(v: u8, carry_in: bool) -> u8 {
    if carry_in {
        (v << 1) | FLAG_CARRY
    } else {
        (v << 1) & 0b1111_1110
    }
}

/// A byte rotated right through the carry.
pub open spec fn ror_value(v: u8, carry_in: bool) -> u8 {
    if carry_in {
        (v >> 1) | FLAG_NEGATIVE
    } else {
        (v >> 1) & 0b0111_1111
    }
}

/// ASL on the accumulator: carry from bit 7, then a Z/N-updating write of
/// the shifted byte.
pub open spec fn asl_acc_view(s: CpuView) -> CpuView {
    with_a(flag_view(s, FLAG_CARRY, s.a >> 7 == 1), s.a << 1)
}

/// ASL on memory: carry from bit 7, the shifted byte stored, Z and N from
/// it.
pub open spec fn asl_view(s: CpuView, mode: AddressingMode) -> CpuView {
    let addr = operand_addr(s, mode);
    let v = mem_byte(s, addr);
    let r = v << 1;
    CpuView {
        status: zn_flags(with_flag(s.status, FLAG_CARRY, v >> 7 == 1), r),
        mem: s.mem.update(addr as int, r),
        ..s
    }
}

/// LSR on the accumulator: carry from bit 0, then a Z/N-updating write of
/// the shifted byte (N always clears).
pub open spec fn lsr_acc_view(s: CpuView) -> CpuView {
    with_a(flag_view(s, FLAG_CARRY, s.a & FLAG_CARRY == FLAG_CARRY), s.a >> 1)
}

/// LSR on memory: carry from bit 0, the shifted byte stored, Z and N from
/// it.
pub open spec fn lsr_view(s: CpuView, mode: AddressingMode) -> CpuView {
    let addr = operand_addr(s, mode);
    let v = mem_byte(s, addr);
    let r = v >> 1;
    CpuView {
        status: zn_flags(with_flag(s.status, FLAG_CARRY, v & FLAG_CARRY == FLAG_CARRY), r),
        mem: s.mem.update(addr as int, r),
        ..s
    }
}

/// ROL on the accumulator: carry from bit 7, old carry into bit 0, Z and N
/// from the rotated byte.
pub open spec fn rol_acc_view(s: CpuView) -> CpuView {
    let r = rol_value(s.a, flag_set(s.status, FLAG_CARRY));
    with_a(flag_view(s, FLAG_CARRY, s.a >> 7 == 1), r)
}

/// ROL on memory: like the accumulator variant, except that only N is
/// refreshed from the rotated byte — Z keeps its old value.
pub open spec fn rol_view(s: CpuView, mode: AddressingMode) -> CpuView {
    let addr = operand_addr(s, mode);
    let v = mem_byte(s, addr);
    let r = rol_value(v, flag_set(s.status, FLAG_CARRY));
    CpuView {
        status: n_flag(with_flag(s.status, FLAG_CARRY, v >> 7 == 1), r),
        mem: s.mem.update(addr as int, r),
        ..s
    }
}

/// ROR on the accumulator: carry from bit 0, old carry into bit 7, Z and N
/// from the rotated byte.
pub open spec fn ror_acc_view(s: CpuView) -> CpuView {
    let r = ror_value(s.a, flag_set(s.status, FLAG_CARRY));
    with_a(flag_view(s, FLAG_CARRY, s.a & FLAG_CARRY == 1), r)
}

/// ROR on memory: like the accumulator variant, except that only N is
/// refreshed from the rotated byte — Z keeps its old value.
pub open spec fn ror_view(s: CpuView, mode: AddressingMode) -> CpuView {
    let addr = operand_addr(s, mode);
    let v = mem_byte(s, addr);
    let r = ror_value(v, flag_set(s.status, FLAG_CARRY));
    CpuView {
        status: n_flag(with_flag(s.status, FLAG_CARRY, v & FLAG_CARRY == 1), r),
        mem: s.mem.update(addr as int, r),
        ..s
    }
}

/// A conditional branch: when taken, PC moves past the displacement byte
/// and then by the sign-extended displacement, wrapping at 16 bits.
pub open spec fn branch_view(s: CpuView, condition: bool) -> CpuView {
    if condition {
        let disp = mem_byte(s, s.pc);
        let ext: u16 = if disp >= 0x80 {
            (disp + 0xFF00) as u16
        } else {
            disp as u16
        };
        CpuView { pc: s.pc.wrapping_add(1).wrapping_add(ext), ..s }
    } else {
        s
    }
}

/// BIT: Z from `A & M`, V from bit 6 of M, N from bit 7 of M; A untouched.
pub open spec fn bit_view(s: CpuView, mode: AddressingMode) -> CpuView {
    let m = operand(s, mode);
    let p1 = with_flag(s.status, FLAG_ZERO, s.a & m == 0);
    let p2 = with_flag(p1, FLAG_OVERFLOW, m & FLAG_OVERFLOW != 0);
    CpuView { status: with_flag(p2, FLAG_NEGATIVE, m & FLAG_NEGATIVE != 0), ..s }
}

/// CMP/CPX/CPY: carry when the register is at least the operand, Z and N
/// from the 8-bit difference; nothing stored.
pub open spec fn compare_view(s: CpuView, mode: AddressingMode, r: u8) -> CpuView {
    let m = operand(s, mode);
    CpuView {
        status: zn_flags(with_flag(s.status, FLAG_CARRY, r >= m), r.wrapping_sub(m)),
        ..s
    }
}

/// DEC: the operand byte decremented with wrap, Z and N from the result.
pub open spec fn dec_view(s: CpuView, mode: AddressingMode) -> CpuView {
    let addr = operand_addr(s, mode);
    let r = mem_byte(s, addr).wrapping_sub(1);
    CpuView { status: zn_flags(s.status, r), mem: s.mem.update(addr as int, r), ..s }
}

/// INC: the operand byte incremented with wrap, Z and N from the result.
pub open spec fn inc_view(s: CpuView, mode: AddressingMode) -> CpuView {
    let addr = operand_addr(s, mode);
    let r = mem_byte(s, addr).wrapping_add(1);
    CpuView { status: zn_flags(s.status, r), mem: s.mem.update(addr as int, r), ..s }
}

/// JMP absolute: PC from the word at PC.
pub open spec fn jmp_abs_view(s: CpuView) -> CpuView {
    CpuView { pc: mem_word(s, s.pc), ..s }
}

/// JMP indirect, with the original 6502 page-boundary bug: when the
/// pointer's low byte is `0xFF`, the high byte of the target is read from
/// the start of the same page rather than the next one.
pub open spec fn jmp_ind_view(s: CpuView) -> CpuView {
    let addr = mem_word(s, s.pc);
    let target = if addr % 0x100 == 0xFF {
        let lo = mem_byte(s, addr);
        let hi = mem_byte(s, ((addr / 0x100) * 0x100) as u16);
        (hi * 0x100 + lo) as u16
    } else {
        mem_word(s, addr)
    };
    CpuView { pc: target, ..s }
}

/// JSR: push `PC + 1` (the address of the last byte of the instruction),
/// then load PC from the word at the old PC — read after the push, as the
/// hardware sequences it.
pub open spec fn jsr_view(s: CpuView) -> CpuView {
    let s1 = pushed16(s, s.pc.wrapping_add(1));
    CpuView { pc: mem_word(s1, s.pc), ..s1 }
}

/// PHP: push the status with B and the unused bit forced set in the
/// pushed copy; the live status is unchanged.
pub open spec fn php_view(s: CpuView) -> CpuView {
    pushed8(s, s.status | FLAG_BREAK | FLAG_BREAK2)
}

/// PLA: pop a byte into the accumulator with a Z/N update.
pub open spec fn pla_view(s: CpuView) -> CpuView {
    let (s1, v) = popped8(s);
    with_a(s1, v)
}

/// PLP: pop the status, then force B clear and the unused bit set.
pub open spec fn plp_view(s: CpuView) -> CpuView {
    let (s1, v) = popped8(s);
    CpuView { status: (v & !FLAG_BREAK) | FLAG_BREAK2, ..s1 }
}

/// RTI: pop the status (B cleared, unused bit set), then pop PC — with no
/// increment, unlike RTS.
pub open spec fn rti_view(s: CpuView) -> CpuView {
    let (s1, v) = popped8(s);
    let (s2, w) = popped16(s1);
    CpuView { status: (v & !FLAG_BREAK) | FLAG_BREAK2, pc: w, ..s2 }
}

/// RTS: pop PC and advance it past the byte JSR recorded.
pub open spec fn rts_view(s: CpuView) -> CpuView {
    let (s1, w) = popped16(s);
    CpuView { pc: w.wrapping_add(1), ..s1 }
}

impl CPU {
    /// ADC: add the operand and the carry into the accumulator.
    pub fn adc(&mut self, mode: &AddressingMode)
        requires
            is_addressing(*mode),
        ensures
            final(self)@ == add_a_view(old(self)@, operand(old(self)@, *mode)),
    {
        let addr = self.get_operand_address(mode);
        let mem = self.mem_read(addr);
        self.add_to_register_a(mem);
    }

    /// AND the operand into the accumulator.
    pub fn and(&mut self, mode: &AddressingMode)
        requires
            is_addressing(*mode),
        ensures
            final(self)@ == with_a(old(self)@, operand(old(self)@, *mode) & old(self)@.a),
    {
        let addr = self.get_operand_address(mode);
        let mem = self.mem_read(addr);
        self.set_register_a(mem & self.register_a);
    }

    /// ASL on the accumulator.
    pub fn asl_accumulator(&mut self)
        ensures
            final(self)@ == asl_acc_view(old(self)@),
    {
        let mem = self.register_a;
        if mem >> 7 == 1 {
            self.set_carry_flag();
        } else {
            self.clear_carry_flag();
        }
        self.set_register_a(mem << 1);
    }

    /// ASL on the addressed byte.
    pub fn asl(&mut self, mode: &AddressingMode)
        requires
            is_addressing(*mode),
        ensures
            final(self)@ == asl_view(old(self)@, *mode),
    {
        let addr = self.get_operand_address(mode);
        let mut mem = self.mem_read(addr);
        if mem >> 7 == 1 {
            self.set_carry_flag();
        } else {
            self.clear_carry_flag();
        }
        mem = mem << 1;
        self.mem_write(addr, mem);
        self.update_zero_and_negative_flags(mem);
    }

    /// Branch by the signed displacement at PC when the condition holds.
    pub fn branch(&mut self, condition: bool)
        ensures
            final(self)@ == branch_view(old(self)@, condition),
    {
        if condition {
            let disp = self.mem_read(self.program_counter);
            let ext: u16 = if disp >= 0x80 {
                disp as u16 + 0xFF00
            } else {
                disp as u16
            };
            self.program_counter = self.program_counter.wrapping_add(1).wrapping_add(ext);
        }
    }

    /// BIT: test the operand against the accumulator.
    pub fn bit(&mut self, mode: &AddressingMode)
        requires
            is_addressing(*mode),
        ensures
            final(self)@ == bit_view(old(self)@, *mode),
    {
        let addr = self.get_operand_address(mode);
        let mem = self.mem_read(addr);
        if self.register_a & mem == 0 {
            self.status = self.status | FLAG_ZERO;
        } else {
            self.status = self.status & !FLAG_ZERO;
        }
        if mem & FLAG_OVERFLOW != 0 {
            self.status = self.status | FLAG_OVERFLOW;
        } else {
            self.status = self.status & !FLAG_OVERFLOW;
        }
        if mem & FLAG_NEGATIVE != 0 {
            self.status = self.status | FLAG_NEGATIVE;
        } else {
            self.status = self.status & !FLAG_NEGATIVE;
        }
    }

    /// CLC: clear the carry flag.
    pub fn clear_carry_flag(&mut self)
        ensures
            final(self)@ == flag_view(old(self)@, FLAG_CARRY, false),
    {
        self.status = self.status & !FLAG_CARRY;
    }

    /// CLD: clear the decimal-mode flag.
    pub fn clear_decimal_flag(&mut self)
        ensures
            final(self)@ == flag_view(old(self)@, crate::model::FLAG_DECIMAL, false),
    {
        self.status = self.status & !crate::model::FLAG_DECIMAL;
    }

    /// CLI: clear the interrupt-disable flag.
    pub fn clear_interrupt_flag(&mut self)
        ensures
            final(self)@ == flag_view(old(self)@, crate::model::FLAG_INTERRUPT_DISABLE, false),
    {
        self.status = self.status & !crate::model::FLAG_INTERRUPT_DISABLE;
    }

    /// CLV: clear the overflow flag.
    pub fn clear_overflow_flag(&mut self)
        ensures
            final(self)@ == flag_view(old(self)@, FLAG_OVERFLOW, false),
    {
        self.status = self.status & !FLAG_OVERFLOW;
    }

    /// CMP/CPX/CPY: compare a register value against the operand.
    pub fn cmp(&mut self, mode: &AddressingMode, register: u8)
        requires
            is_addressing(*mode),
        ensures
            final(self)@ == compare_view(old(self)@, *mode, register),
    {
        let addr = self.get_operand_address(mode);
        let mem = self.mem_read(addr);
        if register >= mem {
            self.status = self.status | FLAG_CARRY;
        } else {
            self.status = self.status & !FLAG_CARRY;
        }
        self.update_zero_and_negative_flags(register.wrapping_sub(mem));
    }

    /// DEC: decrement the addressed byte.
    pub fn decrement_memory(&mut self, mode: &AddressingMode)
        requires
            is_addressing(*mode),
        ensures
            final(self)@ == dec_view(old(self)@, *mode),
    {
        let addr = self.get_operand_address(mode);
        let mem = self.mem_read(addr).wrapping_sub(1);
        self.mem_write(addr, mem);
        self.update_zero_and_negative_flags(mem);
    }

    /// DEX: decrement the X register.
    pub fn decrement_register_x(&mut self)
        ensures
            final(self)@ == with_x(old(self)@, old(self)@.x.wrapping_sub(1)),
    {
        let v = self.register_x.wrapping_sub(1);
        self.set_register_x(v);
    }

    /// DEY: decrement the Y register.
    pub fn decrement_register_y(&mut self)
        ensures
            final(self)@ == with_y(old(self)@, old(self)@.y.wrapping_sub(1)),
    {
        let v = self.register_y.wrapping_sub(1);
        self.set_register_y(v);
    }

    /// EOR the operand into the accumulator.
    pub fn exclusive_or(&mut self, mode: &AddressingMode)
        requires
            is_addressing(*mode),
        ensures
            final(self)@ == with_a(old(self)@, operand(old(self)@, *mode) ^ old(self)@.a),
    {
        let addr = self.get_operand_address(mode);
        let mem = self.mem_read(addr);
        self.set_register_a(mem ^ self.register_a);
    }

    /// INC: increment the addressed byte.
    pub fn increment_memory(&mut self, mode: &AddressingMode)
        requires
            is_addressing(*mode),
        ensures
            final(self)@ == inc_view(old(self)@, *mode),
    {
        let addr = self.get_operand_address(mode);
        let mem = self.mem_read(addr).wrapping_add(1);
        self.update_zero_and_negative_flags(mem);
        self.mem_write(addr, mem);
    }

    /// INX: increment the X register.
    pub fn increment_register_x(&mut self)
        ensures
            final(self)@ == with_x(old(self)@, old(self)@.x.wrapping_add(1)),
    {
        let v = self.register_x.wrapping_add(1);
        self.set_register_x(v);
    }

    /// INY: increment the Y register.
    pub fn increment_register_y(&mut self)
        ensures
            final(self)@ == with_y(old(self)@, old(self)@.y.wrapping_add(1)),
    {
        let v = self.register_y.wrapping_add(1);
        self.set_register_y(v);
    }

    /// JMP absolute.
    pub fn jump_absolute(&mut self)
        ensures
            final(self)@ == jmp_abs_view(old(self)@),
    {
        let target = self.mem_read_u16(self.program_counter);
        self.program_counter = target;
    }

    /// JMP indirect, reproducing the page-boundary bug.
    pub fn jump_indirect(&mut self)
        ensures
            final(self)@ == jmp_ind_view(old(self)@),
    {
        let addr = self.mem_read_u16(self.program_counter);
        let target = if addr % 0x100 == 0xFF {
            let lo = self.mem_read(addr);
            let hi = self.mem_read((addr / 0x100) * 0x100);
            (hi as u16) * 0x100 + (lo as u16)
        } else {
            self.mem_read_u16(addr)
        };
        self.program_counter = target;
    }

    /// JSR: record the return point on the stack and jump.
    pub fn jump_sub_routine(&mut self)
        ensures
            final(self)@ == jsr_view(old(self)@),
    {
        let ret = self.program_counter.wrapping_add(1);
        self.stack_push_u16(ret);
        self.program_counter = self.mem_read_u16(self.program_counter);
    }

    /// LDA: load the operand into the accumulator.
    pub fn load_a_register(&mut self, mode: &AddressingMode)
        requires
            is_addressing(*mode),
        ensures
            final(self)@ == with_a(old(self)@, operand(old(self)@, *mode)),
    {
        let addr = self.get_operand_address(mode);
        let value = self.mem_read(addr);
        self.set_register_a(value);
    }

    /// LDX: load the operand into the X register.
    pub fn load_x_register(&mut self, mode: &AddressingMode)
        requires
            is_addressing(*mode),
        ensures
            final(self)@ == with_x(old(self)@, operand(old(self)@, *mode)),
    {
        let addr = self.get_operand_address(mode);
        let value = self.mem_read(addr);
        self.set_register_x(value);
    }

    /// LDY: load the operand into the Y register.
    pub fn load_y_register(&mut self, mode: &AddressingMode)
        requires
            is_addressing(*mode),
        ensures
            final(self)@ == with_y(old(self)@, operand(old(self)@, *mode)),
    {
        let addr = self.get_operand_address(mode);
        let value = self.mem_read(addr);
        self.set_register_y(value);
    }

    /// LSR on the accumulator.
    pub fn logical_shift_right_accumulator(&mut self)
        ensures
            final(self)@ == lsr_acc_view(old(self)@),
    {
        let data = self.register_a;
        if data & FLAG_CARRY == FLAG_CARRY {
            self.set_carry_flag();
        } else {
            self.clear_carry_flag();
        }
        self.set_register_a(data >> 1);
    }

    /// LSR on the addressed byte.
    pub fn logical_shift_right(&mut self, mode: &AddressingMode)
        requires
            is_addressing(*mode),
        ensures
            final(self)@ == lsr_view(old(self)@, *mode),
    {
        let addr = self.get_operand_address(mode);
        let mut mem = self.mem_read(addr);
        if mem & FLAG_CARRY == FLAG_CARRY {
            self.set_carry_flag();
        } else {
            self.clear_carry_flag();
        }
        mem = mem >> 1;
        self.update_zero_and_negative_flags(mem);
        self.mem_write(addr, mem);
    }

    /// ORA the operand into the accumulator.
    pub fn logical_inclusive_or(&mut self, mode: &AddressingMode)
        requires
            is_addressing(*mode),
        ensures
            final(self)@ == with_a(old(self)@, old(self)@.a | operand(old(self)@, *mode)),
    {
        let addr = self.get_operand_address(mode);
        let mem = self.mem_read(addr);
        self.set_register_a(self.register_a | mem);
    }

    /// PHP: push the status with B and the unused bit forced set.
    pub fn push_processor_status(&mut self)
        ensures
            final(self)@ == php_view(old(self)@),
    {
        let flags = self.status | FLAG_BREAK | FLAG_BREAK2;
        self.stack_push(flags);
    }

    /// PLA: pop into the accumulator.
    pub fn pull_accumulator(&mut self)
        ensures
            final(self)@ == pla_view(old(self)@),
    {
        let data = self.stack_pop();
        self.set_register_a(data);
    }

    /// PLP: pop into the status, with B cleared and the unused bit set.
    pub fn pull_processor_status(&mut self)
        ensures
            final(self)@ == plp_view(old(self)@),
    {
        let data = self.stack_pop();
        self.status = (data & !FLAG_BREAK) | FLAG_BREAK2;
    }

    /// ROL on the accumulator.
    pub fn rotate_left_accumulator(&mut self)
        ensures
            final(self)@ == rol_acc_view(old(self)@),
    {
        let mut data = self.register_a;
        let current_carry = (self.status & FLAG_CARRY) != 0;
        if data >> 7 == 1 {
            self.set_carry_flag();
        } else {
            self.clear_carry_flag();
        }
        data = data << 1;
        if current_carry {
            data = data | FLAG_CARRY;
        } else {
            data = data & 0b1111_1110;
        }
        self.set_register_a(data);
    }

    /// ROL on the addressed byte; only N is refreshed from the result.
    pub fn rotate_left(&mut self, mode: &AddressingMode)
        requires
            is_addressing(*mode),
        ensures
            final(self)@ == rol_view(old(self)@, *mode),
    {
        let addr = self.get_operand_address(mode);
        let mut mem = self.mem_read(addr);
        let current_carry = (self.status & FLAG_CARRY) != 0;
        if mem >> 7 == 1 {
            self.set_carry_flag();
        } else {
            self.clear_carry_flag();
        }
        mem = mem << 1;
        if current_carry {
            mem = mem | FLAG_CARRY;
        } else {
            mem = mem & 0b1111_1110;
        }
        self.update_negative_flags(mem);
        self.mem_write(addr, mem);
    }

    /// ROR on the accumulator.
    pub fn rotate_right_accumulator(&mut self)
        ensures
            final(self)@ == ror_acc_view(old(self)@),
    {
        let mut data = self.register_a;
        let current_carry = (self.status & FLAG_CARRY) != 0;
        if data & FLAG_CARRY == 1 {
            self.set_carry_flag();
        } else {
            self.clear_carry_flag();
        }
        data = data >> 1;
        if current_carry {
            data = data | FLAG_NEGATIVE;
        } else {
            data = data & 0b0111_1111;
        }
        self.set_register_a(data);
    }

    /// ROR on the addressed byte; only N is refreshed from the result.
    pub fn rotate_right(&mut self, mode: &AddressingMode)
        requires
            is_addressing(*mode),
        ensures
            final(self)@ == ror_view(old(self)@, *mode),
    {
        let addr = self.get_operand_address(mode);
        let mut mem = self.mem_read(addr);
        let current_carry = (self.status & FLAG_CARRY) != 0;
        if mem & FLAG_CARRY == 1 {
            self.set_carry_flag();
        } else {
            self.clear_carry_flag();
        }
        mem = mem >> 1;
        if current_carry {
            mem = mem | FLAG_NEGATIVE;
        } else {
            mem = mem & 0b0111_1111;
        }
        self.update_negative_flags(mem);
        self.mem_write(addr, mem);
    }

    /// RTI: restore the status and PC from the stack.
    pub fn return_from_interrupt(&mut self)
        ensures
            final(self)@ == rti_view(old(self)@),
    {
        let data = self.stack_pop();
        self.status = (data & !FLAG_BREAK) | FLAG_BREAK2;
        self.program_counter = self.stack_pop_u16();
    }

    /// SBC: `A - M - (1 - C)`, delegated to the adder with the operand
    /// complemented — the two's-complement identity `A + !M + C`.
    pub fn subtract_with_carry(&mut self, mode: &AddressingMode)
        requires
            is_addressing(*mode),
        ensures
            final(self)@ == add_a_view(
                old(self)@,
                (0xFF - operand(old(self)@, *mode)) as u8,
            ),
    {
        let addr = self.get_operand_address(mode);
        let mem = self.mem_read(addr);
        self.add_to_register_a(0xFF - mem);
    }

    /// SEC: set the carry flag.
    pub fn set_carry_flag(&mut self)
        ensures
            final(self)@ == flag_view(old(self)@, FLAG_CARRY, true),
    {
        self.status = self.status | FLAG_CARRY;
    }

    /// SED: set the decimal-mode flag.
    pub fn set_decimal_flag(&mut self)
        ensures
            final(self)@ == flag_view(old(self)@, crate::model::FLAG_DECIMAL, true),
    {
        self.status = self.status | crate::model::FLAG_DECIMAL;
    }

    /// SEI: set the interrupt-disable flag.
    pub fn set_interrupt_disable(&mut self)
        ensures
            final(self)@ == flag_view(old(self)@, crate::model::FLAG_INTERRUPT_DISABLE, true),
    {
        self.status = self.status | crate::model::FLAG_INTERRUPT_DISABLE;
    }

    /// STA: store the accumulator at the operand address.
    pub fn store_accumulator(&mut self, mode: &AddressingMode)
        requires
            is_addressing(*mode),
        ensures
            final(self)@ == with_byte(old(self)@, operand_addr(old(self)@, *mode), old(self)@.a),
    {
        let addr = self.get_operand_address(mode);
        self.mem_write(addr, self.register_a);
    }

    /// STX: store the X register at the operand address.
    pub fn store_x_register(&mut self, mode: &AddressingMode)
        requires
            is_addressing(*mode),
        ensures
            final(self)@ == with_byte(old(self)@, operand_addr(old(self)@, *mode), old(self)@.x),
    {
        let addr = self.get_operand_address(mode);
        self.mem_write(addr, self.register_x);
    }

    /// STY: store the Y register at the operand address.
    pub fn store_y_register(&mut self, mode: &AddressingMode)
        requires
            is_addressing(*mode),
        ensures
            final(self)@ == with_byte(old(self)@, operand_addr(old(self)@, *mode), old(self)@.y),
    {
        let addr = self.get_operand_address(mode);
        self.mem_write(addr, self.register_y);
    }

    /// TAX: copy A into X with a Z/N update.
    pub fn transfer_accumulator_x(&mut self)
        ensures
            final(self)@ == with_x(old(self)@, old(self)@.a),
    {
        let v = self.register_a;
        self.set_register_x(v);
    }

    /// TAY: copy A into Y with a Z/N update.
    pub fn transfer_accumulator_y(&mut self)
        ensures
            final(self)@ == with_y(old(self)@, old(self)@.a),
    {
        let v = self.register_a;
        self.set_register_y(v);
    }

    /// TSX: copy SP into X with a Z/N update.
    pub fn transfer_stack_pointer_to_x(&mut self)
        ensures
            final(self)@ == with_x(old(self)@, old(self)@.sp),
    {
        let v = self.stack_pointer;
        self.set_register_x(v);
    }

    /// TXA: copy X into A with a Z/N update.
    pub fn transfer_x_accumulator(&mut self)
        ensures
            final(self)@ == with_a(old(self)@, old(self)@.x),
    {
        let v = self.register_x;
        self.set_register_a(v);
    }

    /// TXS: copy X into SP; deliberately no flag update.
    pub fn transfer_x_to_stack_pointer(&mut self)
        ensures
            final(self)@ == (CpuView { sp: old(self)@.x, ..old(self)@ }),
    {
        self.stack_pointer = self.register_x;
    }

    /// TYA: copy Y into A with a Z/N update.
    pub fn transfer_y_accumulator(&mut self)
        ensures
            final(self)@ == with_a(old(self)@, old(self)@.y),
    {
        let v = self.register_y;
        self.set_register_a(v);
    }
}

} // verus!
