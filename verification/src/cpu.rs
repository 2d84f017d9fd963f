//! The CPU aggregate: registers, status, stack pointer, program counter and
//! the uniquely-owned 64 KiB address space, together with its lifecycle
//! operations (`new`, `reset`, `load`).

use crate::memory::Memory;
use crate::model::{
    load_view, reset_view, with_word, CpuView, LOAD_ADDR, MEM_SIZE, RESET_STATUS, RESET_VECTOR,
    STACK_RESET,
};
use vstd::prelude::*;

verus! {

/// How an instruction names its operand. The resolver turns a mode into an
/// effective address; `NonAddressing` marks instructions that have no
/// resolvable operand and must never reach the resolver.
#[derive(Clone, Copy, Debug)]
pub enum AddressingMode {
    Immediate,
    ZeroPage,
    ZeroPageX,
    ZeroPageY,
    Absolute,
    AbsoluteX,
    AbsoluteY,
    IndirectX,
    IndirectY,
    NonAddressing,
}

/// A mode the resolver accepts.
pub open spec fn is_addressing(mode: AddressingMode) -> bool {
    !(mode is NonAddressing)
}

/// The 6502 machine state. The fields are public so that a host callback
/// can observe and adjust the whole state between instructions; ordinary
/// access to the address space goes through the [`Memory`] operations.
pub struct CPU {
    pub register_a: u8,
    pub register_x: u8,
    pub register_y: u8,
    pub status: u8,
    pub stack_pointer: u8,
    pub program_counter: u16,
    pub memory: [u8; MEM_SIZE],
}

impl View for CPU {
    type V = CpuView;

    open spec fn view(&self) -> CpuView {
        CpuView {
            a: self.register_a,
            x: self.register_x,
            y: self.register_y,
            status: self.status,
            sp: self.stack_pointer,
            pc: self.program_counter,
            mem: self.memory@,
        }
    }
}

impl CPU {
    /// A CPU in its power-on state: registers clear, SP at `0xFF`, status
    /// with the interrupt-disable and unused bits set, memory zeroed.
    pub fn new() -> (cpu: CPU)
        ensures
            cpu@.a == 0,
            cpu@.x == 0,
            cpu@.y == 0,
            cpu@.sp == STACK_RESET,
            cpu@.status == RESET_STATUS,
            cpu@.pc == 0,
            cpu@.mem.len() == MEM_SIZE,
            forall|i: int| 0 <= i < MEM_SIZE ==> cpu@.mem[i] == 0,
    {
        CPU {
            register_a: 0,
            register_x: 0,
            register_y: 0,
            stack_pointer: STACK_RESET,
            program_counter: 0,
            status: RESET_STATUS,
            memory: [0u8; MEM_SIZE],
        }
    }

    /// Re-initialize the registers and load PC from the reset vector;
    /// memory is left untouched.
    pub fn reset(&mut self)
        ensures
            final(self)@ == reset_view(old(self)@),
    {
        self.register_a = 0;
        self.register_x = 0;
        self.register_y = 0;
        self.stack_pointer = STACK_RESET;
        self.status = RESET_STATUS;
        self.program_counter = self.mem_read_u16(RESET_VECTOR);
    }

    /// Copy a program image into memory at [`LOAD_ADDR`] and point the
    /// reset vector at it.
    pub fn load(&mut self, program: Vec<u8>)
        requires
            program@.len() <= MEM_SIZE - LOAD_ADDR,
        ensures
            final(self)@ == load_view(old(self)@, program@),
    {
        let base: usize = LOAD_ADDR as usize;
        let mut i: usize = 0;
        while i < program.len()
            invariant
                i <= program@.len(),
                program@.len() <= MEM_SIZE - LOAD_ADDR,
                base == LOAD_ADDR as usize,
                self@.a == old(self)@.a,
                self@.x == old(self)@.x,
                self@.y == old(self)@.y,
                self@.status == old(self)@.status,
                self@.sp == old(self)@.sp,
                self@.pc == old(self)@.pc,
                self@.mem.len() == MEM_SIZE,
                forall|j: int|
                    0 <= j < MEM_SIZE ==> self@.mem[j] == (if LOAD_ADDR <= j < LOAD_ADDR + i {
                        program@[j - LOAD_ADDR]
                    } else {
                        old(self)@.mem[j]
                    }),
            decreases program@.len() - i,
        {
            self.memory[base + i] = program[i];
            i += 1;
        }
        self.mem_write_u16(RESET_VECTOR, LOAD_ADDR);
        proof {
            let copied = CpuView {
                mem: Seq::new(
                    old(self)@.mem.len(),
                    |j: int|
                        if LOAD_ADDR <= j < LOAD_ADDR + program@.len() {
                            program@[j - LOAD_ADDR]
                        } else {
                            old(self)@.mem[j]
                        },
                ),
                ..old(self)@
            };
            assert(self@.mem =~= with_word(copied, RESET_VECTOR, LOAD_ADDR).mem);
        }
    }
}

} // verus!
