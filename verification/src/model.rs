//! The mathematical model of the 6502 machine state.
//!
//! [`CpuView`] is the ghost image of the CPU: registers, status byte, stack
//! pointer, program counter and the 64 KiB memory as a sequence of bytes.
//! The spec functions here describe memory and stack transitions and the
//! status-flag bookkeeping; the executable code in the other modules is
//! verified against them.

use vstd::prelude::*;

verus! {

/// Carry flag: unsigned overflow on ADC, borrow complement on SBC/CMP.
pub const FLAG_CARRY: u8 = 0b0000_0001;

/// Zero flag: the last result was zero.
pub const FLAG_ZERO: u8 = 0b0000_0010;

/// Interrupt-disable flag.
pub const FLAG_INTERRUPT_DISABLE: u8 = 0b0000_0100;

/// Decimal-mode flag (stored, but arithmetic stays binary as on the 2A03).
pub const FLAG_DECIMAL: u8 = 0b0000_1000;

/// B flag: software-interrupt marker in pushed status copies.
pub const FLAG_BREAK: u8 = 0b0001_0000;

/// The conceptually-always-set unused bit above B.
pub const FLAG_BREAK2: u8 = 0b0010_0000;

/// Overflow flag: signed overflow of ADC/SBC, or bit 6 of the operand in BIT.
pub const FLAG_OVERFLOW: u8 = 0b0100_0000;

/// Negative flag: bit 7 of the last result.
pub const FLAG_NEGATIVE: u8 = 0b1000_0000;

/// The address space is exactly the range of a 16-bit address.
pub const MEM_SIZE: usize = 0x10000;

/// The stack page: effective stack address is `STACK_BASE + SP`.
pub const STACK_BASE: u16 = 0x0100;

/// Stack pointer immediately after power-on or reset.
pub const STACK_RESET: u8 = 0xFF;

/// Status byte after power-on or reset: interrupt-disable and the unused bit.
pub const RESET_STATUS: u8 = 0b0010_0100;

/// Little-endian word holding the program counter loaded by `reset`.
pub const RESET_VECTOR: u16 = 0xFFFC;

/// Address at which `load` places a program image.
pub const LOAD_ADDR: u16 = 0x0600;

/// Ghost image of the entire machine state.
pub ghost struct CpuView {
    pub a: u8,
    pub x: u8,
    pub y: u8,
    pub status: u8,
    pub sp: u8,
    pub pc: u16,
    pub mem: Seq<u8>,
}

/// Is `mask` one of the eight single-bit status masks?
pub open spec fn is_flag_mask(mask: u8) -> bool {
    ||| mask == FLAG_CARRY
    ||| mask == FLAG_ZERO
    ||| mask == FLAG_INTERRUPT_DISABLE
    ||| mask == FLAG_DECIMAL
    ||| mask == FLAG_BREAK
    ||| mask == FLAG_BREAK2
    ||| mask == FLAG_OVERFLOW
    ||| mask == FLAG_NEGATIVE
}

/// Whether the flag selected by `mask` is set in the status byte `p`.
pub open spec fn flag_set(p: u8, mask: u8) -> bool {
    p & mask != 0
}

/// The status byte `p` with the flag selected by `mask` forced to `on`.
pub open spec fn with_flag(p: u8, mask: u8, on: bool) -> u8 {
    if on {
        p | mask
    } else {
        p & !mask
    }
}

/// Z and N updated from a result byte: Z iff the result is zero, N iff its
/// bit 7 is set.
pub open spec fn zn_flags(p: u8, v: u8) -> u8 {
    with_flag(with_flag(p, FLAG_ZERO, v == 0), FLAG_NEGATIVE, v >= 0x80)
}

/// N alone updated from a result byte.
pub open spec fn n_flag(p: u8, v: u8) -> u8 {
    with_flag(p, FLAG_NEGATIVE, v >= 0x80)
}

/// The carry flag of `p` as an integer 0 or 1.
pub open spec fn carry_bit(p: u8) -> u8 {
    if flag_set(p, FLAG_CARRY) {
        1
    } else {
        0
    }
}

/// The signed (two's-complement) interpretation of a byte.
pub open spec fn signed(v: u8) -> int {
    if v >= 0x80 {
        v - 0x100
    } else {
        v as int
    }
}

/// A 16-bit word from its little-endian halves.
pub open spec fn word(lo: u8, hi: u8) -> u16 {
    (hi * 0x100 + lo) as u16
}

/// Low byte of a 16-bit word.
pub open spec fn lo_byte(w: u16) -> u8 {
    (w % 0x100) as u8
}

/// High byte of a 16-bit word.
pub open spec fn hi_byte(w: u16) -> u8 {
    (w / 0x100) as u8
}

/// The byte of memory at `addr`.
pub open spec fn mem_byte(s: CpuView, addr: u16) -> u8
    recommends
        s.mem.len() == MEM_SIZE,
{
    s.mem[addr as int]
}

/// The little-endian 16-bit word at `addr`; the second byte wraps to
/// `0x0000` when `addr == 0xFFFF`.
pub open spec fn mem_word(s: CpuView, addr: u16) -> u16
    recommends
        s.mem.len() == MEM_SIZE,
{
    word(mem_byte(s, addr), mem_byte(s, addr.wrapping_add(1)))
}

/// The state with the byte at `addr` replaced.
pub open spec fn with_byte(s: CpuView, addr: u16, v: u8) -> CpuView {
    CpuView { mem: s.mem.update(addr as int, v), ..s }
}

/// The state with the little-endian word at `addr` replaced; the second
/// byte wraps as in [`mem_word`].
pub open spec fn with_word(s: CpuView, addr: u16, w: u16) -> CpuView {
    with_byte(with_byte(s, addr, lo_byte(w)), addr.wrapping_add(1), hi_byte(w))
}

/// Effective stack address for a stack-pointer value.
pub open spec fn stack_addr(sp: u8) -> u16 {
    (STACK_BASE + sp) as u16
}

/// One byte pushed: stored at `0x0100 + SP`, then SP decremented with wrap.
pub open spec fn pushed8(s: CpuView, v: u8) -> CpuView {
    let stored = with_byte(s, stack_addr(s.sp), v);
    CpuView { sp: s.sp.wrapping_sub(1), ..stored }
}

/// One byte popped: SP incremented with wrap, then the byte at
/// `0x0100 + SP` read. Returns the new state and the byte.
pub open spec fn popped8(s: CpuView) -> (CpuView, u8) {
    let sp1 = s.sp.wrapping_add(1);
    (CpuView { sp: sp1, ..s }, mem_byte(s, stack_addr(sp1)))
}

/// A word pushed: high byte first, so that a later pop reads the low byte
/// first.
pub open spec fn pushed16(s: CpuView, w: u16) -> CpuView {
    pushed8(pushed8(s, hi_byte(w)), lo_byte(w))
}

/// A word popped: low byte first, then high, recombined little-endian.
pub open spec fn popped16(s: CpuView) -> (CpuView, u16) {
    let (s1, lo) = popped8(s);
    let (s2, hi) = popped8(s1);
    (s2, word(lo, hi))
}

/// The state after `reset`: registers cleared, SP and status at their
/// power-on values, PC loaded from the reset vector, memory untouched.
pub open spec fn reset_view(s: CpuView) -> CpuView {
    CpuView {
        a: 0,
        x: 0,
        y: 0,
        sp: STACK_RESET,
        status: RESET_STATUS,
        pc: mem_word(s, RESET_VECTOR),
        mem: s.mem,
    }
}

/// The state after `load`: the program image copied in at [`LOAD_ADDR`] and
/// the reset vector pointed at it (the vector write comes last, as in the
/// executable code, so it wins on overlap).
pub open spec fn load_view(s: CpuView, prog: Seq<u8>) -> CpuView
    recommends
        s.mem.len() == MEM_SIZE,
        prog.len() <= MEM_SIZE - LOAD_ADDR,
{
    let copied = CpuView {
        mem: Seq::new(
            s.mem.len(),
            |i: int|
                if LOAD_ADDR <= i < LOAD_ADDR + prog.len() {
                    prog[i - LOAD_ADDR]
                } else {
                    s.mem[i]
                },
        ),
        ..s
    };
    with_word(copied, RESET_VECTOR, LOAD_ADDR)
}

/// Reading a flag back out of `with_flag`: the targeted flag takes the
/// given value, and every other single-bit flag keeps its old value.
pub proof fn lemma_with_flag(p: u8, mask: u8, on: bool, other: u8)
    requires
        is_flag_mask(mask),
        is_flag_mask(other),
    ensures
        flag_set(with_flag(p, mask, on), mask) == on,
        other != mask ==> flag_set(with_flag(p, mask, on), other) == flag_set(p, other),
{
    assert(flag_set(with_flag(p, mask, on), mask) == on) by (bit_vector)
        requires
            is_flag_mask(mask),
    ;
    assert(other != mask ==> flag_set(with_flag(p, mask, on), other) == flag_set(p, other))
        by (bit_vector)
        requires
            is_flag_mask(mask),
            is_flag_mask(other),
    ;
}

/// Reading flags back out of a Z/N update: Z reports whether the result was
/// zero, N reports its bit 7, and every other flag is untouched.
pub proof fn lemma_zn_flags(p: u8, v: u8)
    ensures
        flag_set(zn_flags(p, v), FLAG_ZERO) == (v == 0),
        flag_set(zn_flags(p, v), FLAG_NEGATIVE) == (v >= 0x80),
        forall|m: u8|
            is_flag_mask(m) && m != FLAG_ZERO && m != FLAG_NEGATIVE ==> #[trigger] flag_set(
                zn_flags(p, v),
                m,
            ) == flag_set(p, m),
{
    let pz = with_flag(p, FLAG_ZERO, v == 0);
    lemma_with_flag(p, FLAG_ZERO, v == 0, FLAG_NEGATIVE);
    lemma_with_flag(pz, FLAG_NEGATIVE, v >= 0x80, FLAG_ZERO);
    assert forall|m: u8|
        is_flag_mask(m) && m != FLAG_ZERO && m != FLAG_NEGATIVE implies #[trigger] flag_set(
        zn_flags(p, v),
        m,
    ) == flag_set(p, m) by {
        lemma_with_flag(p, FLAG_ZERO, v == 0, m);
        lemma_with_flag(pz, FLAG_NEGATIVE, v >= 0x80, m);
    }
}

} // verus!
