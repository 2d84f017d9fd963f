//! Tests of individual instruction groups: logic, shifts and rotates,
//! loads and stores through every addressing-mode family, the status
//! stack, and the host callback.

use mos6502::Hook;
use mos6502::Memory;
use mos6502::NoopHook;
use mos6502::Stack;
use mos6502::CPU;

#[test]
fn test_and_immediate() {
    let mut cpu = CPU::new();
    cpu.load_and_run(vec![0xA9, 0b0000_1010, 0x29, 0b0000_0110, 0x00]);
    assert_eq!(cpu.register_a, 0b0000_0010);
}

#[test]
fn test_ora_immediate() {
    let mut cpu = CPU::new();
    cpu.load_and_run(vec![0xA9, 0b0000_1010, 0x09, 0b0000_0101, 0x00]);
    assert_eq!(cpu.register_a, 0b0000_1111);
}

#[test]
fn test_eor_immediate() {
    let mut cpu = CPU::new();
    cpu.load_and_run(vec![0xA9, 0xFF, 0x49, 0x0F, 0x00]);
    assert_eq!(cpu.register_a, 0xF0);
    assert_eq!(cpu.status & 0b1000_0000, 0b1000_0000);
}

#[test]
fn test_bit_zero_page() {
    let mut cpu = CPU::new();
    cpu.mem_write(0x10, 0xC0);
    cpu.load_and_run(vec![0xA9, 0x00, 0x24, 0x10, 0x00]);
    // A & M == 0 sets Z; bits 6 and 7 of M land in V and N.
    assert_eq!(cpu.status & 0b0000_0010, 0b10);
    assert_eq!(cpu.status & 0b0100_0000, 0b0100_0000);
    assert_eq!(cpu.status & 0b1000_0000, 0b1000_0000);
    assert_eq!(cpu.register_a, 0x00);
}

#[test]
fn test_asl_accumulator_carry_out() {
    let mut cpu = CPU::new();
    cpu.load_and_run(vec![0xA9, 0b1000_0001, 0x0A, 0x00]);
    assert_eq!(cpu.register_a, 0b0000_0010);
    assert_eq!(cpu.status & 0b0000_0001, 1);
}

#[test]
fn test_lsr_zero_page_updates_zero_flag() {
    let mut cpu = CPU::new();
    cpu.mem_write(0x10, 0x01);
    cpu.load_and_run(vec![0x46, 0x10, 0x00]);
    assert_eq!(cpu.mem_read(0x10), 0x00);
    assert_eq!(cpu.status & 0b0000_0001, 1);
    assert_eq!(cpu.status & 0b0000_0010, 0b10);
}

#[test]
fn test_rol_accumulator_through_carry() {
    let mut cpu = CPU::new();
    // SEC, then ROL of 0x80: carry in becomes bit 0, bit 7 becomes carry.
    cpu.load_and_run(vec![0xA9, 0x80, 0x38, 0x2A, 0x00]);
    assert_eq!(cpu.register_a, 0x01);
    assert_eq!(cpu.status & 0b0000_0001, 1);
}

#[test]
fn test_ror_accumulator_through_carry() {
    let mut cpu = CPU::new();
    // SEC, then ROR of 0x01: carry in becomes bit 7, bit 0 becomes carry.
    cpu.load_and_run(vec![0xA9, 0x01, 0x38, 0x6A, 0x00]);
    assert_eq!(cpu.register_a, 0x80);
    assert_eq!(cpu.status & 0b0000_0001, 1);
}

#[test]
fn test_rol_memory_leaves_zero_flag_alone() {
    let mut cpu = CPU::new();
    // ROL of 0x80 with carry clear gives 0x00 in memory, but the memory
    // variant refreshes only N from the result: Z stays clear.
    cpu.mem_write(0x10, 0x80);
    cpu.load_and_run(vec![0x26, 0x10, 0x00]);
    assert_eq!(cpu.mem_read(0x10), 0x00);
    assert_eq!(cpu.status & 0b0000_0001, 1);
    assert_eq!(cpu.status & 0b0000_0010, 0);
}

#[test]
fn test_inc_and_dec_memory() {
    let mut cpu = CPU::new();
    cpu.mem_write(0x10, 0xFF);
    cpu.mem_write(0x11, 0x00);
    cpu.load_and_run(vec![0xE6, 0x10, 0xC6, 0x11, 0x00]);
    assert_eq!(cpu.mem_read(0x10), 0x00);
    assert_eq!(cpu.mem_read(0x11), 0xFF);
}

#[test]
fn test_iny_dey() {
    let mut cpu = CPU::new();
    cpu.load_and_run(vec![0xC8, 0xC8, 0x88, 0x00]);
    assert_eq!(cpu.register_y, 1);
}

#[test]
fn test_sta_stx_sty_zero_page() {
    let mut cpu = CPU::new();
    cpu.load_and_run(vec![
        0xA9, 0x42, 0x85, 0x10, 0xA2, 0x43, 0x86, 0x11, 0xA0, 0x44, 0x84, 0x12, 0x00,
    ]);
    assert_eq!(cpu.mem_read(0x10), 0x42);
    assert_eq!(cpu.mem_read(0x11), 0x43);
    assert_eq!(cpu.mem_read(0x12), 0x44);
}

#[test]
fn test_zero_page_x_wraps() {
    let mut cpu = CPU::new();
    // 0x80 + X(0x90) wraps to 0x10 within the zero page.
    cpu.mem_write(0x10, 0x77);
    cpu.load_and_run(vec![0xA2, 0x90, 0xB5, 0x80, 0x00]);
    assert_eq!(cpu.register_a, 0x77);
}

#[test]
fn test_ldx_zero_page_y() {
    let mut cpu = CPU::new();
    cpu.mem_write(0x11, 0x77);
    cpu.load_and_run(vec![0xA0, 0x01, 0xB6, 0x10, 0x00]);
    assert_eq!(cpu.register_x, 0x77);
}

#[test]
fn test_lda_absolute_x() {
    let mut cpu = CPU::new();
    cpu.mem_write(0x1234, 0x5A);
    cpu.load_and_run(vec![0xA2, 0x01, 0xBD, 0x33, 0x12, 0x00]);
    assert_eq!(cpu.register_a, 0x5A);
}

#[test]
fn test_lda_indirect_y() {
    let mut cpu = CPU::new();
    cpu.mem_write(0x10, 0x00);
    cpu.mem_write(0x11, 0x12);
    cpu.mem_write(0x1234, 0x77);
    cpu.load_and_run(vec![0xA0, 0x34, 0xB1, 0x10, 0x00]);
    assert_eq!(cpu.register_a, 0x77);
}

#[test]
fn test_transfers() {
    let mut cpu = CPU::new();
    cpu.load_and_run(vec![0xA2, 0x11, 0x8A, 0x00]);
    assert_eq!(cpu.register_a, 0x11);
    let mut cpu = CPU::new();
    cpu.load_and_run(vec![0xA0, 0x22, 0x98, 0x00]);
    assert_eq!(cpu.register_a, 0x22);
    let mut cpu = CPU::new();
    cpu.load_and_run(vec![0xBA, 0x00]);
    assert_eq!(cpu.register_x, 0xFF);
    assert_eq!(cpu.status & 0b1000_0000, 0b1000_0000);
}

#[test]
fn test_txs_moves_x_without_flags() {
    let mut cpu = CPU::new();
    cpu.load_and_run(vec![0xA2, 0x00, 0x9A, 0x00]);
    // TXS must not touch Z even though it moved a zero.
    assert_eq!(cpu.stack_pointer, 0x00);
    assert_eq!(cpu.status & 0b0000_0010, 0b10); // Z from LDX, untouched by TXS
}

#[test]
fn test_flag_instructions() {
    let mut cpu = CPU::new();
    cpu.load_and_run(vec![0x38, 0xF8, 0x00]);
    assert_eq!(cpu.status & 0b0000_0001, 1);
    assert_eq!(cpu.status & 0b0000_1000, 0b1000);
    let mut cpu = CPU::new();
    cpu.load_and_run(vec![0x38, 0x18, 0x00]);
    assert_eq!(cpu.status & 0b0000_0001, 0);
    let mut cpu = CPU::new();
    // Set V via signed overflow, then CLV clears it.
    cpu.load_and_run(vec![0xA9, 0x7F, 0x69, 0x01, 0xB8, 0x00]);
    assert_eq!(cpu.status & 0b0100_0000, 0);
}

#[test]
fn test_pha_pla() {
    let mut cpu = CPU::new();
    cpu.load_and_run(vec![0xA9, 0x42, 0x48, 0xA9, 0x00, 0x68, 0x00]);
    assert_eq!(cpu.register_a, 0x42);
    assert_eq!(cpu.status & 0b0000_0010, 0);
}

#[test]
fn test_php_forces_break_bits_in_pushed_copy() {
    let mut cpu = CPU::new();
    cpu.status = 0b0000_0001;
    cpu.push_processor_status();
    let pushed = cpu.stack_pop();
    assert_eq!(pushed, 0b0011_0001);
    // The live status keeps its value.
    assert_eq!(cpu.status, 0b0000_0001);
}

#[test]
fn test_plp_clears_break_and_sets_unused() {
    let mut cpu = CPU::new();
    cpu.stack_push(0b1101_0001);
    cpu.pull_processor_status();
    assert_eq!(cpu.status, 0b1110_0001);
}

#[test]
fn test_php_plp_roundtrip_program() {
    let mut cpu = CPU::new();
    // SEC; PHP; CLC; PLP: the carry saved by PHP comes back with PLP.
    cpu.load_and_run(vec![0x38, 0x08, 0x18, 0x28, 0x00]);
    assert_eq!(cpu.status & 0b0000_0001, 1);
}

#[test]
fn test_rti_restores_status_and_pc() {
    let mut cpu = CPU::new();
    cpu.stack_push_u16(0x1234);
    cpu.stack_push(0b1101_0001);
    cpu.return_from_interrupt();
    assert_eq!(cpu.program_counter, 0x1234);
    assert_eq!(cpu.status, 0b1110_0001);
}

#[test]
fn test_jmp_absolute() {
    let mut cpu = CPU::new();
    // JMP 0x0605 skips the LDA #1.
    cpu.load_and_run(vec![0x4C, 0x05, 0x06, 0xA9, 0x01, 0x00]);
    assert_eq!(cpu.register_a, 0);
}

#[test]
fn test_nop_does_nothing_but_advance() {
    let mut cpu = CPU::new();
    cpu.load_and_run(vec![0xEA, 0xA9, 0x07, 0x00]);
    assert_eq!(cpu.register_a, 7);
}

struct CountingHook {
    count: u32,
}

impl Hook for CountingHook {
    fn on_instruction(&mut self, _cpu: &mut CPU) {
        self.count += 1;
    }
}

#[test]
fn test_run_with_callback_counts_instructions() {
    let mut cpu = CPU::new();
    cpu.load(vec![0xE8, 0xE8, 0x00]);
    cpu.reset();
    let mut hook = CountingHook { count: 0 };
    cpu.run_with_callback(&mut hook);
    // The callback runs after each executed instruction, not after BRK.
    assert_eq!(hook.count, 2);
    assert_eq!(cpu.register_x, 2);
}

struct MemoryPokeHook;

impl Hook for MemoryPokeHook {
    fn on_instruction(&mut self, cpu: &mut CPU) {
        // A host feeding a memory-mapped input register.
        cpu.mem_write(0x10, 0x3C);
    }
}

#[test]
fn test_run_with_noop_hook_matches_run() {
    let mut cpu = CPU::new();
    cpu.load(vec![0xA9, 0x0A, 0xAA, 0xE8, 0x00]);
    cpu.reset();
    cpu.run_with_callback(&mut NoopHook);
    assert_eq!(cpu.register_x, 0x0B);
}

#[test]
fn test_callback_feeds_memory_mapped_input() {
    let mut cpu = CPU::new();
    // NOP (hook writes 0x10), then LDA $10 sees the host's byte.
    cpu.load(vec![0xEA, 0xA5, 0x10, 0x00]);
    cpu.reset();
    let mut hook = MemoryPokeHook;
    cpu.run_with_callback(&mut hook);
    assert_eq!(cpu.register_a, 0x3C);
}

#[test]
fn test_asl_memory() {
    let mut cpu = CPU::new();
    cpu.mem_write(0x10, 0b1100_0000);
    cpu.load_and_run(vec![0x06, 0x10, 0x00]);
    assert_eq!(cpu.mem_read(0x10), 0b1000_0000);
    assert_eq!(cpu.status & 0b0000_0001, 1);
    assert_eq!(cpu.status & 0b1000_0000, 0b1000_0000);
}

#[test]
fn test_ror_memory_leaves_zero_flag_alone() {
    let mut cpu = CPU::new();
    // ROR of 0x01 with carry clear gives 0x00, sets carry, and — on the
    // memory variant — refreshes only N: Z stays clear.
    cpu.mem_write(0x10, 0x01);
    cpu.load_and_run(vec![0x66, 0x10, 0x00]);
    assert_eq!(cpu.mem_read(0x10), 0x00);
    assert_eq!(cpu.status & 0b0000_0001, 1);
    assert_eq!(cpu.status & 0b0000_0010, 0);
}

#[test]
fn test_carry_branches() {
    let mut cpu = CPU::new();
    // SEC; BCS +2 skips the LDA #5.
    cpu.load_and_run(vec![0x38, 0xB0, 0x02, 0xA9, 0x05, 0x00]);
    assert_eq!(cpu.register_a, 0);
    let mut cpu = CPU::new();
    // CLC; BCC +2 skips the LDA #5.
    cpu.load_and_run(vec![0x18, 0x90, 0x02, 0xA9, 0x05, 0x00]);
    assert_eq!(cpu.register_a, 0);
}

#[test]
fn test_overflow_branches() {
    let mut cpu = CPU::new();
    // 0x7F + 1 sets V, so BVS +2 skips the LDX #5.
    cpu.load_and_run(vec![0xA9, 0x7F, 0x69, 0x01, 0x70, 0x02, 0xA2, 0x05, 0x00]);
    assert_eq!(cpu.register_x, 0);
    let mut cpu = CPU::new();
    // V clear after reset, so BVC +2 skips the LDX #5.
    cpu.load_and_run(vec![0x50, 0x02, 0xA2, 0x05, 0x00]);
    assert_eq!(cpu.register_x, 0);
}

#[test]
fn test_negative_branches() {
    let mut cpu = CPU::new();
    // LDA #0x80 sets N, so BMI +2 skips the LDX #5.
    cpu.load_and_run(vec![0xA9, 0x80, 0x30, 0x02, 0xA2, 0x05, 0x00]);
    assert_eq!(cpu.register_x, 0);
    let mut cpu = CPU::new();
    // LDA #1 clears N, so BPL +2 skips the LDX #5.
    cpu.load_and_run(vec![0xA9, 0x01, 0x10, 0x02, 0xA2, 0x05, 0x00]);
    assert_eq!(cpu.register_x, 0);
}

#[test]
fn test_interrupt_and_decimal_flags() {
    let mut cpu = CPU::new();
    // I starts set after reset; CLI clears it, SEI sets it back, CLD
    // clears the D that SED set.
    cpu.load_and_run(vec![0x58, 0x00]);
    assert_eq!(cpu.status & 0b0000_0100, 0);
    let mut cpu = CPU::new();
    cpu.load_and_run(vec![0x58, 0x78, 0x00]);
    assert_eq!(cpu.status & 0b0000_0100, 0b100);
    let mut cpu = CPU::new();
    cpu.load_and_run(vec![0xF8, 0xD8, 0x00]);
    assert_eq!(cpu.status & 0b0000_1000, 0);
}

#[test]
fn test_load_largest_program() {
    let mut cpu = CPU::new();
    // The largest image the loader accepts fills memory up to the top.
    let program = vec![0x00; 0x10000 - 0x0600];
    let r = cpu.load_and_run(program);
    assert_eq!(r, mos6502::StopReason::Brk);
    assert_eq!(cpu.register_a, 0);
}
