use beta_emu::beta::Beta;
use beta_emu::error::ExecutionError;

/// Encodes a register-format instruction: opcode, rc, ra, rb.
fn enc_reg(op: u32, rc: u32, ra: u32, rb: u32) -> u32 {
    (op << 26) | (rc << 21) | (ra << 16) | (rb << 11)
}

/// Encodes a constant-format instruction: opcode, rc, ra, 16-bit literal.
fn enc_lit(op: u32, rc: u32, ra: u32, lit: u16) -> u32 {
    (op << 26) | (rc << 21) | (ra << 16) | (lit as u32)
}

/// Seeds one big-endian instruction word at a byte address.
fn put_word(b: &mut Beta, addr: u32, w: u32) {
    b.memory_write(addr, (w >> 24) as u8).unwrap();
    b.memory_write(addr + 1, (w >> 16) as u8).unwrap();
    b.memory_write(addr + 2, (w >> 8) as u8).unwrap();
    b.memory_write(addr + 3, w as u8).unwrap();
}

#[test]
fn register_writes_read_back() {
    let mut b = Beta::new(64);
    for r in 0..=30u32 {
        b.write_reg(r, r + 100);
    }
    for r in 0..=30u32 {
        assert_eq!(b.read_reg(r), r + 100);
    }
}

#[test]
fn zero_register_discards_writes_and_reads_zero() {
    let mut b = Beta::new(64);
    assert_eq!(b.read_reg(31), 0);
    b.write_reg(31, 7);
    assert_eq!(b.read_reg(31), 0);
    for r in 0..=30u32 {
        assert_eq!(b.read_reg(r), 0);
    }
}

#[test]
fn reset_then_tick_on_zero_memory_halts_at_pc_zero() {
    let mut b = Beta::new(64);
    b.reset();
    assert_eq!(b.tick(), Ok(()));
    assert!(b.halted());
    assert_eq!(b.pc(), 0);
}

#[test]
fn halted_machine_ignores_ticks() {
    let mut b = Beta::new(64);
    b.reset();
    assert_eq!(b.tick(), Ok(()));
    assert!(b.halted());
    assert_eq!(b.tick(), Ok(()));
    assert!(b.halted());
    assert_eq!(b.pc(), 0);
}

#[test]
fn reset_clears_registers_and_halt_but_keeps_memory() {
    let mut b = Beta::new(64);
    put_word(&mut b, 0, enc_lit(0x30, 1, 31, 9)); // ADDC r1 := r31 + 9
    b.write_reg(5, 123);
    assert_eq!(b.tick(), Ok(()));
    assert_eq!(b.read_reg(1), 9);
    b.reset();
    assert!(!b.halted());
    assert_eq!(b.pc(), 0);
    assert_eq!(b.read_reg(1), 0);
    assert_eq!(b.read_reg(5), 0);
    // the seeded instruction survives the reset and executes again
    assert_eq!(b.tick(), Ok(()));
    assert_eq!(b.read_reg(1), 9);
}

#[test]
fn add_wraps_at_two_to_the_thirty_two() {
    let mut b = Beta::new(64);
    b.write_reg(2, 0xFFFF_FFFF);
    put_word(&mut b, 0, enc_lit(0x30, 1, 2, 1)); // ADDC r1 := r2 + 1
    assert_eq!(b.tick(), Ok(()));
    assert_eq!(b.read_reg(1), 0x0000_0000);
    assert_eq!(b.pc(), 4);
}

#[test]
fn sub_wraps_below_zero() {
    let mut b = Beta::new(64);
    b.write_reg(2, 0);
    b.write_reg(3, 1);
    put_word(&mut b, 0, enc_reg(0x21, 1, 2, 3)); // SUB r1 := r2 - r3
    assert_eq!(b.tick(), Ok(()));
    assert_eq!(b.read_reg(1), 0xFFFF_FFFF);
}

#[test]
fn mul_keeps_low_thirty_two_bits() {
    let mut b = Beta::new(64);
    b.write_reg(2, 0x8000_0000);
    put_word(&mut b, 0, enc_lit(0x32, 1, 2, 2)); // MULC r1 := r2 * 2
    assert_eq!(b.tick(), Ok(()));
    assert_eq!(b.read_reg(1), 0);
    let mut c = Beta::new(64);
    c.write_reg(2, 0x0001_0001);
    c.write_reg(3, 0x0001_0000);
    put_word(&mut c, 0, enc_reg(0x22, 1, 2, 3)); // MUL r1 := r2 * r3
    assert_eq!(c.tick(), Ok(()));
    assert_eq!(c.read_reg(1), 0x0001_0000);
}

#[test]
fn div_truncates() {
    let mut b = Beta::new(64);
    b.write_reg(2, 27);
    b.write_reg(3, 4);
    put_word(&mut b, 0, enc_reg(0x23, 1, 2, 3)); // DIV r1 := r2 / r3
    assert_eq!(b.tick(), Ok(()));
    assert_eq!(b.read_reg(1), 6);
}

#[test]
fn div_by_zero_fails_without_mutating_state() {
    let mut b = Beta::new(64);
    b.write_reg(1, 55);
    b.write_reg(2, 10);
    b.write_reg(3, 0);
    put_word(&mut b, 0, enc_reg(0x23, 1, 2, 3)); // DIV r1 := r2 / r3
    assert_eq!(b.tick(), Err(ExecutionError::DivideByZero));
    assert_eq!(b.pc(), 0);
    assert!(!b.halted());
    assert_eq!(b.read_reg(1), 55);
    assert_eq!(b.read_reg(2), 10);
    assert_eq!(b.read_reg(3), 0);
}

#[test]
fn divc_by_zero_literal_fails() {
    let mut b = Beta::new(64);
    b.write_reg(2, 10);
    put_word(&mut b, 0, enc_lit(0x33, 1, 2, 0)); // DIVC r1 := r2 / 0
    assert_eq!(b.tick(), Err(ExecutionError::DivideByZero));
    assert_eq!(b.pc(), 0);
    assert_eq!(b.read_reg(1), 0);
}

#[test]
fn jmp_sets_pc_and_return_address() {
    let mut b = Beta::new(1024);
    b.write_reg(2, 0x100);
    put_word(&mut b, 0, enc_reg(0x1B, 31, 2, 0)); // JMP r31, target r2
    assert_eq!(b.tick(), Ok(()));
    assert_eq!(b.pc(), 0x100);
    b.write_reg(3, 0x204);
    put_word(&mut b, 0x100, enc_reg(0x1B, 1, 3, 0)); // JMP r1, target r3
    assert_eq!(b.tick(), Ok(()));
    assert_eq!(b.read_reg(1), 0x104);
    assert_eq!(b.pc(), 0x204);
}

#[test]
fn jmp_discards_low_target_bits() {
    let mut b = Beta::new(1024);
    b.write_reg(2, 0x107);
    put_word(&mut b, 0, enc_reg(0x1B, 1, 2, 0));
    assert_eq!(b.tick(), Ok(()));
    assert_eq!(b.pc(), 0x104);
    assert_eq!(b.read_reg(1), 4);
}

#[test]
fn jmp_through_its_own_destination_register() {
    // the return address is written before the target is read, so
    // jumping through the destination register lands on the next
    // instruction
    let mut b = Beta::new(1024);
    b.write_reg(2, 0x200);
    put_word(&mut b, 0, enc_reg(0x1B, 2, 2, 0)); // JMP r2, target r2
    assert_eq!(b.tick(), Ok(()));
    assert_eq!(b.read_reg(2), 4);
    assert_eq!(b.pc(), 4);
}

#[test]
fn beq_taken_adds_scaled_displacement_to_pc_next() {
    let mut b = Beta::new(1024);
    b.write_reg(2, 0x100);
    put_word(&mut b, 0, enc_reg(0x1B, 31, 2, 0)); // JMP to 0x100
    assert_eq!(b.tick(), Ok(()));
    assert_eq!(b.pc(), 0x100);
    b.write_reg(4, 0);
    put_word(&mut b, 0x100, enc_lit(0x1C, 1, 4, 5)); // BEQ r1, on r4, +5
    assert_eq!(b.tick(), Ok(()));
    assert_eq!(b.pc(), 0x118);
    assert_eq!(b.read_reg(1), 0x104);
}

#[test]
fn beq_not_taken_falls_through() {
    let mut b = Beta::new(1024);
    b.write_reg(2, 0x100);
    put_word(&mut b, 0, enc_reg(0x1B, 31, 2, 0)); // JMP to 0x100
    assert_eq!(b.tick(), Ok(()));
    b.write_reg(4, 7);
    put_word(&mut b, 0x100, enc_lit(0x1C, 1, 4, 5)); // BEQ r1, on r4, +5
    assert_eq!(b.tick(), Ok(()));
    assert_eq!(b.pc(), 0x104);
    assert_eq!(b.read_reg(1), 0x104);
}

#[test]
fn beq_with_negative_displacement() {
    let mut b = Beta::new(1024);
    b.write_reg(2, 0x100);
    put_word(&mut b, 0, enc_reg(0x1B, 31, 2, 0)); // JMP to 0x100
    assert_eq!(b.tick(), Ok(()));
    put_word(&mut b, 0x100, enc_lit(0x1C, 31, 31, 0xFFFE)); // BEQ on r31 (zero), -2
    assert_eq!(b.tick(), Ok(()));
    assert_eq!(b.pc(), 0xFC);
}

#[test]
fn bne_branches_on_nonzero() {
    let mut b = Beta::new(1024);
    b.write_reg(4, 1);
    put_word(&mut b, 0, enc_lit(0x1D, 1, 4, 3)); // BNE r1, on r4, +3
    assert_eq!(b.tick(), Ok(()));
    assert_eq!(b.pc(), 4 + 12);
    assert_eq!(b.read_reg(1), 4);
    let mut c = Beta::new(1024);
    c.write_reg(4, 0);
    put_word(&mut c, 0, enc_lit(0x1D, 1, 4, 3));
    assert_eq!(c.tick(), Ok(()));
    assert_eq!(c.pc(), 4);
    assert_eq!(c.read_reg(1), 4);
}

#[test]
fn st_then_ld_round_trip() {
    let mut b = Beta::new(256);
    b.write_reg(1, 0xCAFE_BABE);
    b.write_reg(2, 0x40);
    put_word(&mut b, 0, enc_lit(0x19, 1, 2, 8)); // ST r1 -> mem[r2 + 8]
    put_word(&mut b, 4, enc_lit(0x18, 3, 2, 8)); // LD r3 <- mem[r2 + 8]
    assert_eq!(b.tick(), Ok(()));
    assert_eq!(b.pc(), 4);
    assert_eq!(b.tick(), Ok(()));
    assert_eq!(b.pc(), 8);
    assert_eq!(b.read_reg(3), 0xCAFE_BABE);
}

#[test]
fn ld_with_negative_literal() {
    let mut b = Beta::new(256);
    b.write_reg(1, 0x1122_3344);
    b.write_reg(2, 0x48);
    put_word(&mut b, 0, enc_lit(0x19, 1, 2, 0xFFFC)); // ST r1 -> mem[r2 - 4]
    put_word(&mut b, 4, enc_lit(0x18, 3, 2, 0xFFFC)); // LD r3 <- mem[r2 - 4]
    assert_eq!(b.tick(), Ok(()));
    assert_eq!(b.tick(), Ok(()));
    assert_eq!(b.read_reg(3), 0x1122_3344);
}

#[test]
fn ld_out_of_bounds_fails_without_mutating_state() {
    let mut b = Beta::new(64);
    b.write_reg(2, 0x1000);
    b.write_reg(3, 9);
    put_word(&mut b, 0, enc_lit(0x18, 3, 2, 0)); // LD r3 <- mem[r2]
    assert_eq!(b.tick(), Err(ExecutionError::OutOfBounds));
    assert_eq!(b.pc(), 0);
    assert_eq!(b.read_reg(3), 9);
}

#[test]
fn st_out_of_bounds_fails_without_advancing_pc() {
    let mut b = Beta::new(64);
    b.write_reg(2, 62);
    put_word(&mut b, 0, enc_lit(0x19, 1, 2, 0)); // ST r1 -> mem[62]
    assert_eq!(b.tick(), Err(ExecutionError::OutOfBounds));
    assert_eq!(b.pc(), 0);
}

#[test]
fn fetch_out_of_bounds_fails() {
    let mut b = Beta::new(2);
    assert_eq!(b.tick(), Err(ExecutionError::OutOfBounds));
    assert_eq!(b.pc(), 0);
}

#[test]
fn ldr_loads_relative_to_pc_next() {
    let mut b = Beta::new(256);
    put_word(&mut b, 0, enc_lit(0x1F, 1, 31, 2)); // LDR r1 <- mem[pc_next + 8]
    put_word(&mut b, 12, 0xDEAD_BEEF);
    assert_eq!(b.tick(), Ok(()));
    assert_eq!(b.read_reg(1), 0xDEAD_BEEF);
    assert_eq!(b.pc(), 4);
}

#[test]
fn unknown_opcode_fails_without_mutating_state() {
    let mut b = Beta::new(64);
    b.write_reg(1, 42);
    put_word(&mut b, 0, enc_reg(0x3F, 1, 2, 3));
    assert_eq!(b.tick(), Err(ExecutionError::IllegalOpcode));
    assert_eq!(b.pc(), 0);
    assert!(!b.halted());
    assert_eq!(b.read_reg(1), 42);
}

#[test]
fn unassigned_opcode_gaps_fail() {
    for op in [0x01u32, 0x17, 0x1A, 0x1E, 0x27, 0x2F, 0x37] {
        let mut b = Beta::new(64);
        put_word(&mut b, 0, enc_reg(op, 0, 0, 0));
        assert_eq!(b.tick(), Err(ExecutionError::IllegalOpcode));
        assert_eq!(b.pc(), 0);
    }
}

#[test]
fn literal_is_sign_extended() {
    let mut b = Beta::new(64);
    b.write_reg(2, 5);
    put_word(&mut b, 0, enc_lit(0x30, 1, 2, 0xFFFF)); // ADDC r1 := r2 + (-1)
    assert_eq!(b.tick(), Ok(()));
    assert_eq!(b.read_reg(1), 4);
}

#[test]
fn bitwise_operations() {
    let a = 0xF0F0_1234u32;
    let m = 0x0FF0_5678u32;
    let cases = [
        (0x28u32, a & m),
        (0x29u32, a | m),
        (0x2Au32, a ^ m),
        (0x2Bu32, !(a ^ m)),
    ];
    for (op, expected) in cases {
        let mut b = Beta::new(64);
        b.write_reg(2, a);
        b.write_reg(3, m);
        put_word(&mut b, 0, enc_reg(op, 1, 2, 3));
        assert_eq!(b.tick(), Ok(()));
        assert_eq!(b.read_reg(1), expected);
    }
}

#[test]
fn shifts_mask_the_count_to_five_bits() {
    let mut b = Beta::new(64);
    b.write_reg(2, 1);
    b.write_reg(3, 0x21); // shift count 33 is taken modulo 32
    put_word(&mut b, 0, enc_reg(0x2C, 1, 2, 3)); // SHL
    assert_eq!(b.tick(), Ok(()));
    assert_eq!(b.read_reg(1), 2);
}

#[test]
fn shr_is_logical_and_sra_preserves_the_sign() {
    let mut b = Beta::new(64);
    b.write_reg(2, 0x8000_0000);
    put_word(&mut b, 0, enc_lit(0x3D, 1, 2, 4)); // SHRC
    put_word(&mut b, 4, enc_lit(0x3E, 3, 2, 4)); // SRAC
    assert_eq!(b.tick(), Ok(()));
    assert_eq!(b.tick(), Ok(()));
    assert_eq!(b.read_reg(1), 0x0800_0000);
    assert_eq!(b.read_reg(3), 0xF800_0000);
    let mut c = Beta::new(64);
    c.write_reg(2, 0x4000_0000);
    put_word(&mut c, 0, enc_lit(0x3E, 1, 2, 4)); // SRAC of a positive value
    assert_eq!(c.tick(), Ok(()));
    assert_eq!(c.read_reg(1), 0x0400_0000);
}

#[test]
fn comparisons_are_signed() {
    // r2 = -1, r3 = 1: signed compare says less, unsigned would not
    let mut b = Beta::new(64);
    b.write_reg(2, 0xFFFF_FFFF);
    b.write_reg(3, 1);
    put_word(&mut b, 0, enc_reg(0x25, 1, 2, 3)); // CMPLT
    put_word(&mut b, 4, enc_reg(0x25, 4, 3, 2)); // CMPLT the other way
    put_word(&mut b, 8, enc_reg(0x26, 5, 2, 3)); // CMPLE
    assert_eq!(b.tick(), Ok(()));
    assert_eq!(b.tick(), Ok(()));
    assert_eq!(b.tick(), Ok(()));
    assert_eq!(b.read_reg(1), 1);
    assert_eq!(b.read_reg(4), 0);
    assert_eq!(b.read_reg(5), 1);
}

#[test]
fn comparisons_on_equal_values() {
    let mut b = Beta::new(64);
    b.write_reg(2, 0x8000_0001);
    b.write_reg(3, 0x8000_0001);
    put_word(&mut b, 0, enc_reg(0x24, 1, 2, 3)); // CMPEQ
    put_word(&mut b, 4, enc_reg(0x26, 4, 2, 3)); // CMPLE
    put_word(&mut b, 8, enc_reg(0x25, 5, 2, 3)); // CMPLT
    assert_eq!(b.tick(), Ok(()));
    assert_eq!(b.tick(), Ok(()));
    assert_eq!(b.tick(), Ok(()));
    assert_eq!(b.read_reg(1), 1);
    assert_eq!(b.read_reg(4), 1);
    assert_eq!(b.read_reg(5), 0);
}

#[test]
fn cmpeqc_against_negative_literal() {
    let mut b = Beta::new(64);
    b.write_reg(2, 0xFFFF_FFFE); // -2
    put_word(&mut b, 0, enc_lit(0x34, 1, 2, 0xFFFE)); // CMPEQC r2 == -2
    assert_eq!(b.tick(), Ok(()));
    assert_eq!(b.read_reg(1), 1);
}

#[test]
fn halt_mid_program_stops_execution() {
    let mut b = Beta::new(64);
    put_word(&mut b, 0, enc_lit(0x30, 1, 31, 1)); // ADDC r1 := 1
    put_word(&mut b, 4, enc_reg(0x00, 0, 0, 0)); // HALT
    put_word(&mut b, 8, enc_lit(0x30, 1, 31, 2)); // never reached
    for _ in 0..5 {
        assert_eq!(b.tick(), Ok(()));
    }
    assert!(b.halted());
    assert_eq!(b.pc(), 4);
    assert_eq!(b.read_reg(1), 1);
}

#[test]
fn dump_registers_snapshots_all_thirty_one() {
    let mut b = Beta::new(64);
    for r in 0..=30u32 {
        b.write_reg(r, r * 3);
    }
    let regs = b.dump_registers();
    assert_eq!(regs.len(), 31);
    for r in 0..=30usize {
        assert_eq!(regs[r], (r as u32) * 3);
    }
}

#[test]
fn memory_write_seeds_bytes_and_checks_bounds() {
    let mut b = Beta::new(4);
    assert_eq!(b.memory_write(3, 0xAB), Ok(()));
    assert_eq!(b.memory_write(4, 0xCD), Err(ExecutionError::OutOfBounds));
}
