//! A verified instruction-level emulator core for the MOS 6502 8-bit
//! microprocessor: a flat 64 KiB address space, the architectural registers
//! and status flags, the stack discipline, the addressing-mode resolver, the
//! official instruction semantics, and the fetch-decode-execute loop.
//!
//! Every executable operation carries a contract stated over a mathematical
//! view of the machine state ([`model::CpuView`]), and the dispatch loop is
//! proved to follow the specification-level transition function step by step.

pub mod core_functions;
pub mod cpu;
pub mod dispatch;
pub mod laws;
pub mod memory;
pub mod model;
pub mod opcode_methods;
pub mod opcode_table;
pub mod stack;

pub use cpu::AddressingMode;
pub use cpu::CPU;
pub use dispatch::Hook;
pub use dispatch::NoopHook;
pub use dispatch::StopReason;
pub use memory::Memory;
pub use stack::Stack;
