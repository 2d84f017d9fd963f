//! End-to-end tests of the dispatch loop: small programs loaded at the
//! conventional address and run until BRK.

use mos6502::Memory;
use mos6502::Stack;
use mos6502::StopReason;
use mos6502::CPU;

#[test]
fn test_0xa9_lda_immediate_load_data() {
    let mut cpu = CPU::new();
    cpu.load_and_run(vec![0xA9, 0x05, 0x00]);
    assert_eq!(cpu.register_a, 0x05);
    assert!(cpu.status & 0b0000_0010 == 0b00);
    assert!(cpu.status & 0b1000_0000 == 0);
}

#[test]
fn test_0xa9_lda_zero_flag() {
    let mut cpu = CPU::new();
    cpu.load_and_run(vec![0xA9, 0x00, 0x00]);
    assert!(cpu.status & 0b0000_0010 == 0b10);
}

#[test]
fn test_0xaa_tax_move_a_to_x() {
    let mut cpu = CPU::new();
    cpu.load_and_run(vec![0xa9, 0x0a, 0xaa, 0x00]);
    assert_eq!(cpu.register_x, 10);
}

#[test]
fn test_5_ops_working_together() {
    let mut cpu = CPU::new();
    cpu.load_and_run(vec![0xa9, 0xc0, 0xaa, 0xe8, 0x00]);
    assert_eq!(cpu.register_x, 0xc1);
}

#[test]
fn test_inx_overflow() {
    let mut cpu = CPU::new();
    cpu.load_and_run(vec![0xa9, 0xff, 0xaa, 0xe8, 0xe8, 0x00]);
    assert_eq!(cpu.register_x, 1);
}

#[test]
fn test_lda_from_memory() {
    let mut cpu = CPU::new();
    cpu.mem_write(0x10, 0x55);
    cpu.load_and_run(vec![0xa5, 0x10, 0x00]);
    assert_eq!(cpu.register_a, 0x55);
}

#[test]
fn test_adc_immediate() {
    let mut cpu = CPU::new();
    // Adding 255 to 5 wraps the accumulator around to 4.
    cpu.load_and_run(vec![0xA9, 0x05, 0x69, 0xFF, 0x00]);
    assert_eq!(cpu.register_a, 4);
}

#[test]
fn test_brk_alone_leaves_registers_clear() {
    let mut cpu = CPU::new();
    cpu.load_and_run(vec![0x00]);
    assert_eq!(cpu.register_a, 0);
    assert_eq!(cpu.register_x, 0);
    assert_eq!(cpu.register_y, 0);
}

#[test]
fn test_run_reports_brk() {
    let mut cpu = CPU::new();
    let r = cpu.load_and_run(vec![0x00]);
    assert_eq!(r, StopReason::Brk);
}

#[test]
fn test_unknown_opcode_reported() {
    let mut cpu = CPU::new();
    // 0x02 is not an official opcode; the run stops and names it.
    let r = cpu.load_and_run(vec![0x02]);
    assert_eq!(r, StopReason::UnknownOpcode(0x02));
}

#[test]
fn test_adc_wrap_sets_carry() {
    let mut cpu = CPU::new();
    cpu.load_and_run(vec![0xA9, 0x05, 0x69, 0xFF, 0x00]);
    assert_eq!(cpu.register_a, 0x04);
    assert_eq!(cpu.status & 0b0000_0001, 1);
}

#[test]
fn test_adc_overflow_flag_set_on_signed_overflow() {
    let mut cpu = CPU::new();
    // 0x50 + 0x50: two positive numbers whose sum is negative as a byte.
    cpu.load_and_run(vec![0xA9, 0x50, 0x69, 0x50, 0x00]);
    assert_eq!(cpu.register_a, 0xA0);
    assert_eq!(cpu.status & 0b0100_0000, 0b0100_0000);
    assert_eq!(cpu.status & 0b1000_0000, 0b1000_0000);
    assert_eq!(cpu.status & 0b0000_0001, 0);
}

#[test]
fn test_sbc_with_carry_set() {
    let mut cpu = CPU::new();
    // SEC; 5 - 3 leaves 2 with no borrow (carry still set).
    cpu.load_and_run(vec![0xA9, 0x05, 0x38, 0xE9, 0x03, 0x00]);
    assert_eq!(cpu.register_a, 0x02);
    assert_eq!(cpu.status & 0b0000_0001, 1);
}

#[test]
fn test_cmp_immediate_flag_rules() {
    // C == (a >= m), Z == (a == m), N == bit 7 of (a - m) mod 256.
    let cases: Vec<(u8, u8, bool, bool, bool)> = vec![
        (5, 3, true, false, false),
        (3, 5, false, false, true),
        (7, 7, true, true, false),
        (0x80, 0x01, true, false, false),
    ];
    for (a, m, c, z, n) in cases {
        let mut cpu = CPU::new();
        cpu.load_and_run(vec![0xA9, a, 0xC9, m, 0x00]);
        assert_eq!(cpu.status & 0b0000_0001 != 0, c);
        assert_eq!(cpu.status & 0b0000_0010 != 0, z);
        assert_eq!(cpu.status & 0b1000_0000 != 0, n);
    }
}

#[test]
fn test_cpx_and_cpy_equal() {
    let mut cpu = CPU::new();
    cpu.load_and_run(vec![0xA2, 0x05, 0xE0, 0x05, 0x00]);
    assert_eq!(cpu.status & 0b0000_0011, 0b11);
    let mut cpu = CPU::new();
    cpu.load_and_run(vec![0xA0, 0x09, 0xC0, 0x0A, 0x00]);
    assert_eq!(cpu.status & 0b0000_0001, 0);
}

#[test]
fn test_indirect_x_pointer_wraps_in_zero_page() {
    let mut cpu = CPU::new();
    // With X = 1 and operand 0xFF the pointer comes from 0x00/0x01.
    cpu.mem_write(0x00, 0x34);
    cpu.mem_write(0x01, 0x12);
    cpu.mem_write(0x1234, 0x99);
    // A decoy at 0x0100 must not be read.
    cpu.mem_write(0x0100, 0x77);
    cpu.load_and_run(vec![0xA2, 0x01, 0xA1, 0xFF, 0x00]);
    assert_eq!(cpu.register_a, 0x99);
}

#[test]
fn test_jmp_indirect_page_boundary_bug() {
    let mut cpu = CPU::new();
    // Pointer 0x02FF: low byte from 0x02FF, high byte from 0x0200 — not
    // 0x0300.
    cpu.mem_write(0x02FF, 0x34);
    cpu.mem_write(0x0200, 0x12);
    cpu.mem_write(0x0300, 0x55);
    cpu.mem_write(0x1234, 0xA9); // LDA #0x42
    cpu.mem_write(0x1235, 0x42);
    cpu.load_and_run(vec![0x6C, 0xFF, 0x02, 0x00]);
    assert_eq!(cpu.register_a, 0x42);
}

#[test]
fn test_jsr_and_rts() {
    let mut cpu = CPU::new();
    // 0x0600: JSR 0x0609; 0x0603: LDA #1; 0x0605: BRK.
    // 0x0609: LDX #2; RTS.
    cpu.mem_write(0x0609, 0xA2);
    cpu.mem_write(0x060A, 0x02);
    cpu.mem_write(0x060B, 0x60);
    cpu.load_and_run(vec![0x20, 0x09, 0x06, 0xA9, 0x01, 0x00]);
    assert_eq!(cpu.register_x, 2);
    assert_eq!(cpu.register_a, 1);
}

#[test]
fn test_branch_not_taken_falls_through() {
    let mut cpu = CPU::new();
    // LDA #0 sets Z, so BNE falls through to LDA #1.
    cpu.load_and_run(vec![0xA9, 0x00, 0xD0, 0x02, 0xA9, 0x01, 0x00]);
    assert_eq!(cpu.register_a, 1);
}

#[test]
fn test_branch_taken_skips() {
    let mut cpu = CPU::new();
    // LDA #0 sets Z, so BEQ +2 skips the LDA #5.
    cpu.load_and_run(vec![0xA9, 0x00, 0xF0, 0x02, 0xA9, 0x05, 0x00]);
    assert_eq!(cpu.register_a, 0);
}

#[test]
fn test_branch_backward_loop() {
    let mut cpu = CPU::new();
    // LDX #3; DEX; BNE -3: counts X down to zero.
    cpu.load_and_run(vec![0xA2, 0x03, 0xCA, 0xD0, 0xFD, 0x00]);
    assert_eq!(cpu.register_x, 0);
}

#[test]
fn test_stack_push_pop_roundtrip() {
    let mut cpu = CPU::new();
    let sp = cpu.stack_pointer;
    cpu.stack_push(0xAB);
    assert_eq!(cpu.stack_pop(), 0xAB);
    assert_eq!(cpu.stack_pointer, sp);
    cpu.stack_push_u16(0xBEEF);
    assert_eq!(cpu.stack_pop_u16(), 0xBEEF);
    assert_eq!(cpu.stack_pointer, sp);
}

#[test]
fn test_memory_word_roundtrip() {
    let mut cpu = CPU::new();
    cpu.mem_write_u16(0x10, 0xBEEF);
    assert_eq!(cpu.mem_read(0x10), 0xEF);
    assert_eq!(cpu.mem_read(0x11), 0xBE);
    assert_eq!(cpu.mem_read_u16(0x10), 0xBEEF);
}

#[test]
fn test_load_sets_reset_vector() {
    let mut cpu = CPU::new();
    cpu.load(vec![0xEA, 0x00]);
    cpu.reset();
    assert_eq!(cpu.program_counter, 0x0600);
    assert_eq!(cpu.mem_read(0x0600), 0xEA);
    assert_eq!(cpu.stack_pointer, 0xFF);
    assert_eq!(cpu.status, 0b0010_0100);
}
