//! Laws of the instruction semantics, proved once over the specification
//! model: register ranges, the Z/N flag rule, the stack round trip, the
//! ADC overflow rule in its signed reading, the compare-flag rule, the
//! zero-page pointer wrap and the indirect-jump page bug.

use crate::core_functions::{adc_overflow, add_a_view, operand_addr, with_a, with_x, with_y};
use crate::cpu::{is_addressing, AddressingMode, CPU};
use crate::model::{
    carry_bit, flag_set, lemma_with_flag, lemma_zn_flags, mem_byte, mem_word, popped16, popped8,
    pushed16, pushed8, signed, with_flag, word, zn_flags, CpuView, FLAG_CARRY, FLAG_NEGATIVE,
    FLAG_OVERFLOW, FLAG_ZERO, MEM_SIZE,
};
use crate::dispatch::{step_view, steps};
use crate::opcode_methods::{compare_view, jmp_ind_view, operand};
use crate::opcode_table::opcode_entry;
use vstd::prelude::*;

verus! {

/// Between instructions, SP and the three data registers always lie in
/// `[0x00, 0xFF]`: the representation enforces it, whatever was executed.
pub proof fn lemma_register_ranges(cpu: &CPU)
    ensures
        0 <= cpu@.a <= 0xFF,
        0 <= cpu@.x <= 0xFF,
        0 <= cpu@.y <= 0xFF,
        0 <= cpu@.sp <= 0xFF,
{
}

/// Every Z/N-updating register write — the funnel for LDA/LDX/LDY, the
/// logic group, the adder, INX/DEX and friends, the accumulator shifts
/// and the transfers — leaves Z equal to "the result is zero" and N equal
/// to bit 7 of the result.
pub proof fn lemma_register_write_flags(s: CpuView, v: u8)
    ensures
        flag_set(with_a(s, v).status, FLAG_ZERO) == (v == 0),
        flag_set(with_a(s, v).status, FLAG_NEGATIVE) == (v >= 0x80),
        with_x(s, v).status == with_a(s, v).status,
        with_y(s, v).status == with_a(s, v).status,
{
    lemma_zn_flags(s.status, v);
}

/// Pushing a byte and popping it returns the same byte with SP restored.
pub proof fn lemma_push8_pop8_roundtrip(s: CpuView, b: u8)
    requires
        s.mem.len() == MEM_SIZE,
    ensures
        popped8(pushed8(s, b)).1 == b,
        popped8(pushed8(s, b)).0.sp == s.sp,
{
}

/// Pushing a word and popping it returns the same word — the byte order
/// is preserved — with SP restored.
pub proof fn lemma_push16_pop16_roundtrip(s: CpuView, w: u16)
    requires
        s.mem.len() == MEM_SIZE,
    ensures
        popped16(pushed16(s, w)).1 == w,
        popped16(pushed16(s, w)).0.sp == s.sp,
{
}

/// The ADC overflow rule, in its signed reading: V is set exactly when
/// the accumulator and the operand agree in sign while the truncated sum
/// disagrees with that sign.
pub proof fn lemma_adc_overflow_law(s: CpuView, m: u8)
    ensures
        ({
            let r = ((s.a + m + carry_bit(s.status)) % 0x100) as u8;
            flag_set(add_a_view(s, m).status, FLAG_OVERFLOW) == (((signed(s.a) < 0) == (signed(m)
                < 0)) && ((signed(r) < 0) != (signed(s.a) < 0)))
        }),
{
    let r = ((s.a + m + carry_bit(s.status)) % 0x100) as u8;
    let sum = s.a + m + carry_bit(s.status);
    let p1 = with_flag(s.status, FLAG_CARRY, sum > 0xFF);
    let p2 = with_flag(p1, FLAG_OVERFLOW, adc_overflow(m, s.a, r));
    lemma_zn_flags(p2, r);
    lemma_with_flag(p1, FLAG_OVERFLOW, adc_overflow(m, s.a, r), FLAG_OVERFLOW);
    let a = s.a;
    assert(((m ^ r) & (a ^ r) & 0x80u8 != 0) == (((a >= 0x80) == (m >= 0x80)) && ((r >= 0x80) != (a
        >= 0x80)))) by (bit_vector);
}

/// The compare rule: after CMP/CPX/CPY of a register value `r` against
/// the operand `m`, C holds exactly when `r >= m`, Z exactly when they
/// are equal, and N is bit 7 of `(r - m) mod 256`. With `r` the value
/// just loaded by an immediate LDA, this is the CMP-after-LDA invariant.
pub proof fn lemma_compare_flags(s: CpuView, mode: AddressingMode, r: u8)
    requires
        is_addressing(mode),
        s.mem.len() == MEM_SIZE,
    ensures
        ({
            let m = operand(s, mode);
            &&& flag_set(compare_view(s, mode, r).status, FLAG_CARRY) == (r >= m)
            &&& flag_set(compare_view(s, mode, r).status, FLAG_ZERO) == (r == m)
            &&& flag_set(compare_view(s, mode, r).status, FLAG_NEGATIVE) == (r.wrapping_sub(m)
                >= 0x80)
        }),
{
    let m = operand(s, mode);
    let p1 = with_flag(s.status, FLAG_CARRY, r >= m);
    lemma_zn_flags(p1, r.wrapping_sub(m));
    lemma_with_flag(s.status, FLAG_CARRY, r >= m, FLAG_CARRY);
    assert(flag_set(zn_flags(p1, r.wrapping_sub(m)), FLAG_CARRY) == flag_set(p1, FLAG_CARRY));
}

/// The CMP-after-LDA invariant, over the dispatcher itself: running the
/// two-instruction sequence `LDA #a; CMP #m` leaves C exactly when
/// `a >= m`, Z exactly when `a == m`, and N equal to bit 7 of
/// `(a - m) mod 256`.
pub proof fn lemma_lda_cmp_immediate(s: CpuView, a: u8, m: u8)
    requires
        s.mem.len() == MEM_SIZE,
        mem_byte(s, s.pc) == 0xA9,
        mem_byte(s, s.pc.wrapping_add(1)) == a,
        mem_byte(s, s.pc.wrapping_add(2)) == 0xC9,
        mem_byte(s, s.pc.wrapping_add(3)) == m,
    ensures
        flag_set(steps(s, 2).status, FLAG_CARRY) == (a >= m),
        flag_set(steps(s, 2).status, FLAG_ZERO) == (a == m),
        flag_set(steps(s, 2).status, FLAG_NEGATIVE) == (a.wrapping_sub(m) >= 0x80),
{
    reveal(opcode_entry);
    assert(steps(s, 0) == s);
    let s1 = steps(s, 1);
    assert(s1 == step_view(steps(s, 0)));
    assert(s1.a == a && s1.pc == s.pc.wrapping_add(2) && s1.mem == s.mem);
    let s2 = steps(s, 2);
    assert(s2 == step_view(s1));
    let p1 = with_flag(s1.status, FLAG_CARRY, a >= m);
    lemma_zn_flags(p1, a.wrapping_sub(m));
    lemma_with_flag(s1.status, FLAG_CARRY, a >= m, FLAG_CARRY);
}

/// The indirect-X pointer stays within the zero page: with X = 1 and
/// operand byte `0xFF`, the pointer is read from `0x0000` and `0x0001`,
/// never from `0x0100`.
pub proof fn lemma_indirect_x_pointer_wrap(s: CpuView)
    requires
        s.mem.len() == MEM_SIZE,
        s.x == 1,
        mem_byte(s, s.pc) == 0xFF,
    ensures
        operand_addr(s, AddressingMode::IndirectX) == word(mem_byte(s, 0x00), mem_byte(s, 0x01)),
{
}

/// The indirect-jump page-boundary bug: with a pointer of `0x02FF`, the
/// target's high byte is read from `0x0200`, not `0x0300`.
pub proof fn lemma_jmp_indirect_page_bug(s: CpuView)
    requires
        s.mem.len() == MEM_SIZE,
        mem_word(s, s.pc) == 0x02FF,
    ensures
        jmp_ind_view(s).pc == word(mem_byte(s, 0x02FF), mem_byte(s, 0x0200)),
{
}

} // verus!
