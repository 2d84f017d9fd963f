//! Byte and little-endian word access to the flat 64 KiB address space.

use crate::cpu::CPU;
use crate::model::{mem_byte, mem_word, with_byte, with_word, CpuView};
use vstd::prelude::*;

verus! {

/// Read and write access to the address space. Every 16-bit address is
/// valid; 16-bit accesses are little-endian and the second byte's address
/// wraps at the top of memory.
pub trait Memory: View<V = CpuView> {
    /// The byte at `addr`.
    fn mem_read(&self, addr: u16) -> (v: u8)
        ensures
            v == mem_byte(self@, addr),
    ;

    /// The little-endian word at `pos`.
    fn mem_read_u16(&self, pos: u16) -> (w: u16)
        ensures
            w == mem_word(self@, pos),
    ;

    /// Store a byte at `addr`.
    fn mem_write(&mut self, addr: u16, data: u8)
        ensures
            final(self)@ == with_byte(old(self)@, addr, data),
    ;

    /// Store a little-endian word at `pos`.
    fn mem_write_u16(&mut self, pos: u16, data: u16)
        ensures
            final(self)@ == with_word(old(self)@, pos, data),
    ;
}

impl Memory for CPU {
    fn mem_read(&self, addr: u16) -> (v: u8) {
        self.memory[addr as usize]
    }

    fn mem_read_u16(&self, pos: u16) -> (w: u16) {
        let lo = self.mem_read(pos);
        let hi = self.mem_read(pos.wrapping_add(1));
        (hi as u16) * 0x100 + (lo as u16)
    }

    fn mem_write(&mut self, addr: u16, data: u8) {
        self.memory[addr as usize] = data;
    }

    fn mem_write_u16(&mut self, pos: u16, data: u16) {
        let lo = (data % 0x100) as u8;
        let hi = (data / 0x100) as u8;
        self.mem_write(pos, lo);
        self.mem_write(pos.wrapping_add(1), hi);
    }
}

} // verus!
