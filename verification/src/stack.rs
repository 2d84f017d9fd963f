//! The stack discipline: a 256-byte region at `0x0100..=0x01FF`, indexed by
//! the 8-bit stack pointer, which decrements on push and wraps.

use crate::cpu::CPU;
use crate::memory::Memory;
use crate::model::{popped16, popped8, pushed16, pushed8, CpuView, STACK_BASE};
use vstd::prelude::*;

verus! {

/// Push and pop on the hardware stack page.
pub trait Stack: View<V = CpuView> {
    /// Pop one byte: SP is incremented with wrap, then the byte at
    /// `0x0100 + SP` is read.
    fn stack_pop(&mut self) -> (v: u8)
        ensures
            (final(self)@, v) == popped8(old(self)@),
    ;

    /// Pop a little-endian word: low byte first, then high.
    fn stack_pop_u16(&mut self) -> (w: u16)
        ensures
            (final(self)@, w) == popped16(old(self)@),
    ;

    /// Push a word: high byte first, so a later pop reads the low byte
    /// first.
    fn stack_push_u16(&mut self, data: u16)
        ensures
            final(self)@ == pushed16(old(self)@, data),
    ;

    /// Push one byte at `0x0100 + SP`, then decrement SP with wrap.
    fn stack_push(&mut self, data: u8)
        ensures
            final(self)@ == pushed8(old(self)@, data),
    ;
}

impl Stack for CPU {
    fn stack_pop(&mut self) -> (v: u8) {
        self.stack_pointer = self.stack_pointer.wrapping_add(1);
        self.mem_read(STACK_BASE + self.stack_pointer as u16)
    }

    fn stack_pop_u16(&mut self) -> (w: u16) {
        let lo = self.stack_pop();
        let hi = self.stack_pop();
        (hi as u16) * 0x100 + (lo as u16)
    }

    fn stack_push_u16(&mut self, data: u16) {
        let lo = (data % 0x100) as u8;
        let hi = (data / 0x100) as u8;
        self.stack_push(hi);
        self.stack_push(lo);
    }

    fn stack_push(&mut self, data: u8) {
        self.mem_write(STACK_BASE + self.stack_pointer as u16, data);
        self.stack_pointer = self.stack_pointer.wrapping_sub(1);
    }
}

} // verus!
