use gbemu::cpu::CPU;

fn setup_cpu_with_rom(rom: Vec<u8>) -> CPU {
    let mut cpu = CPU::new();
    let mut full_rom = vec![0; 0x100];
    full_rom.extend(rom);
    cpu.load_rom(full_rom);
    cpu
}

fn rom_with(at: &[(usize, &[u8])]) -> CPU {
    let mut rom = vec![0u8; 0x8000];
    for (start, bytes) in at {
        rom[*start..*start + bytes.len()].copy_from_slice(bytes);
    }
    let mut cpu = CPU::new();
    cpu.load_rom(rom);
    cpu
}

fn flags_of(cpu: &CPU) -> (bool, bool, bool, bool) {
    let f = cpu.get_f();
    (f.zero, f.negative, f.half_carry, f.carry)
}

#[test]
fn test_nop() {
    let mut cpu = setup_cpu_with_rom(vec![0x00]); // NOP
    let cycles = cpu.step();
    assert_eq!(cycles, 4);
    assert_eq!(cpu.get_pc(), 0x0101);
}

#[test]
fn test_ld_immediate() {
    let mut cpu = setup_cpu_with_rom(vec![
        0x3E, 0x42, // LD A, $42
        0x06, 0x10, // LD B, $10
        0x0E, 0x20, // LD C, $20
    ]);

    cpu.step();
    cpu.step();
    cpu.step();

    assert_eq!(cpu.get_pc(), 0x0106);
}

#[test]
fn test_inc_dec() {
    let mut cpu = setup_cpu_with_rom(vec![
        0x06, 0x10, // LD B, $10
        0x04, // INC B
        0x05, // DEC B
        0x05, // DEC B
    ]);

    cpu.step(); // LD B, $10
    cpu.step(); // INC B (B becomes $11)
    cpu.step(); // DEC B (B becomes $10)
    cpu.step(); // DEC B (B becomes $0F)

    assert_eq!(cpu.get_pc(), 0x0105);
}

#[test]
fn test_16bit_load() {
    let mut cpu = setup_cpu_with_rom(vec![
        0x01, 0x34, 0x12, // LD BC, $1234
        0x11, 0x78, 0x56, // LD DE, $5678
        0x21, 0xBC, 0x9A, // LD HL, $9ABC
    ]);

    cpu.step();
    cpu.step();
    cpu.step();

    assert_eq!(cpu.get_pc(), 0x0109);
}

#[test]
fn test_halt() {
    let mut cpu = setup_cpu_with_rom(vec![
        0x76, // HALT
    ]);

    let cycles1 = cpu.step();
    assert_eq!(cycles1, 4);

    // After HALT, CPU should keep returning 4 cycles but not advance PC
    let cycles2 = cpu.step();
    assert_eq!(cycles2, 4);
    assert_eq!(cpu.get_pc(), 0x0101); // PC stays at next instruction
}

#[test]
fn test_jump_relative() {
    let mut cpu = setup_cpu_with_rom(vec![
        0x18, 0x02, // JR +2
        0x00, // NOP (skipped)
        0x00, // NOP (skipped)
        0x3E, 0x42, // LD A, $42 (executed)
    ]);

    cpu.step(); // JR +2
    assert_eq!(cpu.get_pc(), 0x0104);

    cpu.step(); // LD A, $42
    assert_eq!(cpu.get_pc(), 0x0106);
}

#[test]
fn test_stack_operations() {
    let mut cpu = setup_cpu_with_rom(vec![
        0x01, 0x34, 0x12, // LD BC, $1234
        0xC5, // PUSH BC
        0x01, 0x00, 0x00, // LD BC, $0000
        0xC1, // POP BC
    ]);

    cpu.step(); // LD BC, $1234
    cpu.step(); // PUSH BC
    cpu.step(); // LD BC, $0000
    cpu.step(); // POP BC - BC should be $1234 again

    assert_eq!(cpu.get_pc(), 0x0108);
}

#[test]
fn test_timing_accuracy() {
    let mut cpu = setup_cpu_with_rom(vec![
        0x00, // NOP - 4 cycles
        0x3E, 0x42, // LD A, $42 - 8 cycles
        0x04, // INC B - 4 cycles
    ]);

    assert_eq!(cpu.get_ticks(), 0);

    cpu.step(); // NOP
    assert_eq!(cpu.get_ticks(), 4);

    cpu.step(); // LD A, $42
    assert_eq!(cpu.get_ticks(), 12);

    cpu.step(); // INC B
    assert_eq!(cpu.get_ticks(), 16);
}

#[test]
fn test_cb_prefix_bit_operations() {
    let mut cpu = setup_cpu_with_rom(vec![
        0x3E, 0xAA, // LD A, $AA (10101010)
        0xCB, 0x47, // BIT 0, A
        0xCB, 0x07, // RLC A
    ]);

    cpu.step(); // LD A, $AA
    cpu.step(); // BIT 0, A
    cpu.step(); // RLC A

    assert_eq!(cpu.get_pc(), 0x0106);
}

#[test]
fn test_arithmetic_operations() {
    let mut cpu = setup_cpu_with_rom(vec![
        0x3E, 0x10, // LD A, $10
        0x06, 0x05, // LD B, $05
        0x80, // ADD A, B (A = $15)
        0x90, // SUB B (A = $10)
    ]);

    cpu.step(); // LD A, $10
    cpu.step(); // LD B, $05
    cpu.step(); // ADD A, B
    cpu.step(); // SUB B

    assert_eq!(cpu.get_pc(), 0x0106);
}

#[test]
fn post_boot_register_state() {
    let cpu = CPU::new();
    assert_eq!(cpu.get_a(), 0x01);
    assert_eq!(cpu.get_f().to_byte(), 0xB0);
    assert_eq!(cpu.get_b(), 0x00);
    assert_eq!(cpu.get_c(), 0x13);
    assert_eq!(cpu.get_d(), 0x00);
    assert_eq!(cpu.get_e(), 0xD8);
    assert_eq!(cpu.get_h(), 0x01);
    assert_eq!(cpu.get_l(), 0x4D);
    assert_eq!(cpu.get_sp(), 0xFFFE);
    assert_eq!(cpu.get_pc(), 0x0100);
    assert!(!cpu.get_ime());
    assert!(!cpu.is_halted());
}

#[test]
fn load_then_add() {
    let mut cpu = setup_cpu_with_rom(vec![0x3E, 0x42, 0x06, 0x10, 0x80]);
    let total: u32 = (0..3).map(|_| cpu.step() as u32).sum();
    assert_eq!(cpu.get_a(), 0x52);
    assert_eq!(flags_of(&cpu), (false, false, false, false));
    assert_eq!(cpu.get_pc(), 0x0105);
    assert_eq!(total, 20);
    assert_eq!(cpu.get_ticks(), 20);
}

#[test]
fn add_half_carry() {
    let mut cpu = setup_cpu_with_rom(vec![0x3E, 0x0F, 0xC6, 0x01]);
    cpu.step();
    assert_eq!(cpu.step(), 8);
    assert_eq!(cpu.get_a(), 0x10);
    assert_eq!(flags_of(&cpu), (false, false, true, false));
}

#[test]
fn add_carry() {
    let mut cpu = setup_cpu_with_rom(vec![0x3E, 0xFF, 0xC6, 0x01]);
    cpu.step();
    cpu.step();
    assert_eq!(cpu.get_a(), 0x00);
    assert_eq!(flags_of(&cpu), (true, false, true, true));
}

#[test]
fn relative_jump_taken() {
    let mut cpu = setup_cpu_with_rom(vec![0xAF, 0x28, 0x02, 0x00, 0x00, 0x3E, 0x99]);
    assert_eq!(cpu.step(), 4); // XOR A
    assert!(cpu.get_f().zero);
    assert_eq!(cpu.step(), 12); // JR Z, +2 taken
    assert_eq!(cpu.get_pc(), 0x0105);
    assert_eq!(cpu.step(), 8); // LD A, $99
    assert_eq!(cpu.get_a(), 0x99);
    assert_eq!(cpu.get_pc(), 0x0107);
}

#[test]
fn relative_jump_not_taken_and_backwards() {
    // JR NZ with Z set falls through in 8 cycles; JR -4 jumps back.
    let mut cpu = setup_cpu_with_rom(vec![0xAF, 0x20, 0x05, 0x18, 0xFC]);
    cpu.step();
    assert_eq!(cpu.step(), 8);
    assert_eq!(cpu.get_pc(), 0x0103);
    assert_eq!(cpu.step(), 12);
    assert_eq!(cpu.get_pc(), 0x0101);
}

#[test]
fn call_ret_round_trip() {
    let mut cpu = rom_with(&[(0x100, &[0xCD, 0x10, 0x01, 0x76]), (0x110, &[0xC9])]);
    assert_eq!(cpu.step(), 24); // CALL $0110
    assert_eq!(cpu.get_pc(), 0x0110);
    assert_eq!(cpu.get_sp(), 0xFFFC);
    assert_eq!(cpu.get_memory().read(0xFFFC), 0x03);
    assert_eq!(cpu.get_memory().read(0xFFFD), 0x01);
    assert_eq!(cpu.step(), 16); // RET
    assert_eq!(cpu.get_sp(), 0xFFFE);
    assert_eq!(cpu.get_pc(), 0x0103);
    cpu.step(); // HALT
    assert!(cpu.is_halted());
}

#[test]
fn timer_interrupt_is_serviced() {
    let mut cpu = setup_cpu_with_rom(vec![0xFB, 0x00, 0x00, 0x00, 0x00, 0x00]);
    {
        let mem = cpu.get_memory_mut();
        mem.write(0xFF07, 0x05);
        mem.write(0xFF05, 0xFF);
        mem.write(0xFF06, 0xAB);
        mem.write(0xFFFF, 0x04);
    }
    cpu.step(); // EI
    assert!(cpu.get_ime());
    cpu.step();
    cpu.step();
    assert_eq!(cpu.get_memory().read(0xFF05), 0xFF);
    cpu.step(); // 16 cycles gathered: TIMA overflows
    assert_eq!(cpu.get_memory().read(0xFF05), 0xAB);
    assert_eq!(cpu.get_memory().read(0xFF0F) & 0x04, 0x04);
    let pc_before = cpu.get_pc();
    assert_eq!(cpu.step(), 20);
    assert_eq!(cpu.get_pc(), 0x0050);
    assert_eq!(cpu.get_memory().read(0xFF0F) & 0x04, 0);
    assert!(!cpu.get_ime());
    assert_eq!(cpu.get_sp(), 0xFFFC);
    let pushed = cpu.get_memory().read_word(0xFFFC);
    assert_eq!(pushed, pc_before);
}

#[test]
fn interrupt_priority_and_vectors() {
    let mut cpu = setup_cpu_with_rom(vec![0xFB, 0x00]);
    {
        let mem = cpu.get_memory_mut();
        mem.write(0xFFFF, 0x1F);
        mem.write(0xFF0F, 0x18); // serial and joypad
    }
    cpu.step(); // EI
    assert_eq!(cpu.step(), 20);
    assert_eq!(cpu.get_pc(), 0x0058);
    assert_eq!(cpu.get_memory().read(0xFF0F) & 0x1F, 0x10);
}

#[test]
fn halt_wakes_without_ime() {
    let mut cpu = setup_cpu_with_rom(vec![0x76, 0x3C]);
    cpu.step(); // HALT
    assert!(cpu.is_halted());
    assert_eq!(cpu.step(), 4);
    cpu.get_memory_mut().write(0xFFFF, 0x01);
    cpu.get_memory_mut().write(0xFF0F, 0x01);
    assert_eq!(cpu.step(), 4); // resumes with INC A
    assert!(!cpu.is_halted());
    assert_eq!(cpu.get_a(), 0x02);
    assert_eq!(cpu.get_pc(), 0x0102);
}

#[test]
fn cb_cycle_counts() {
    // RLC B, RLC (HL), BIT 0,(HL), SET 7,(HL), RES 0,A
    let mut cpu = setup_cpu_with_rom(vec![
        0x21, 0x00, 0xC0, 0xCB, 0x00, 0xCB, 0x06, 0xCB, 0x46, 0xCB, 0xFE, 0xCB, 0x87,
    ]);
    assert_eq!(cpu.step(), 12);
    assert_eq!(cpu.step(), 8);
    assert_eq!(cpu.step(), 16);
    assert_eq!(cpu.step(), 12);
    assert_eq!(cpu.step(), 16);
    assert_eq!(cpu.get_memory().read(0xC000), 0x80);
    assert_eq!(cpu.step(), 8);
    assert_eq!(cpu.get_a(), 0x00);
}

#[test]
fn conditional_cycle_counts() {
    // XOR A sets Z: RET NZ (8), JP NZ (12), CALL NZ (12), JP Z (16)
    let mut cpu = setup_cpu_with_rom(vec![
        0xAF, 0xC0, 0xC2, 0x00, 0x00, 0xC4, 0x00, 0x00, 0xCA, 0x20, 0x01,
    ]);
    cpu.step();
    assert_eq!(cpu.step(), 8);
    assert_eq!(cpu.step(), 12);
    assert_eq!(cpu.step(), 12);
    assert_eq!(cpu.step(), 16);
    assert_eq!(cpu.get_pc(), 0x0120);
}

#[test]
fn invalid_opcodes_are_four_cycle_noops() {
    for op in [0xD3u8, 0xDB, 0xDD, 0xE3, 0xE4, 0xEB, 0xEC, 0xED, 0xF4, 0xFC, 0xFD] {
        let mut cpu = setup_cpu_with_rom(vec![op]);
        assert_eq!(cpu.step(), 4);
        assert_eq!(cpu.get_pc(), 0x0101);
        assert_eq!(cpu.get_sp(), 0xFFFE);
    }
}

#[test]
fn push_pop_af_masks_low_nibble() {
    // LD BC,$12FF; PUSH BC; POP AF; PUSH AF; POP DE
    let mut cpu = setup_cpu_with_rom(vec![0x01, 0xFF, 0x12, 0xC5, 0xF1, 0xF5, 0xD1]);
    for _ in 0..5 {
        cpu.step();
    }
    assert_eq!(cpu.get_a(), 0x12);
    assert_eq!(cpu.get_f().to_byte(), 0xF0);
    assert_eq!(cpu.get_d(), 0x12);
    assert_eq!(cpu.get_e(), 0xF0);
}

#[test]
fn daa_after_bcd_add_and_sub() {
    // LD A,$45; ADD A,$38; DAA -> $83; SUB $05; DAA -> $78
    let mut cpu = setup_cpu_with_rom(vec![0x3E, 0x45, 0xC6, 0x38, 0x27, 0xD6, 0x05, 0x27]);
    for _ in 0..3 {
        cpu.step();
    }
    assert_eq!(cpu.get_a(), 0x83);
    cpu.step();
    cpu.step();
    assert_eq!(cpu.get_a(), 0x78);
    assert!(!cpu.get_f().half_carry);
}

#[test]
fn add_hl_and_sp_offset_flags() {
    // LD HL,$0FFF; LD BC,$0001; ADD HL,BC; LD SP,$00FF; ADD SP,1; LD HL,SP-1
    let mut cpu = setup_cpu_with_rom(vec![
        0x21, 0xFF, 0x0F, 0x01, 0x01, 0x00, 0x09, 0x31, 0xFF, 0x00, 0xE8, 0x01, 0xF8, 0xFF,
    ]);
    cpu.step();
    cpu.step();
    assert_eq!(cpu.step(), 8);
    assert_eq!(cpu.get_h(), 0x10);
    assert_eq!(cpu.get_l(), 0x00);
    assert!(cpu.get_f().half_carry);
    assert!(!cpu.get_f().carry);
    cpu.step();
    assert_eq!(cpu.step(), 16);
    assert_eq!(cpu.get_sp(), 0x0100);
    assert_eq!(flags_of(&cpu), (false, false, true, true));
    assert_eq!(cpu.step(), 12);
    assert_eq!(cpu.get_h(), 0x00);
    assert_eq!(cpu.get_l(), 0xFF);
    assert_eq!(flags_of(&cpu), (false, false, false, false));
}

#[test]
fn rotates_of_a_clear_zero() {
    // XOR A; RLCA leaves A = 0 with Z forced to 0
    let mut cpu = setup_cpu_with_rom(vec![0xAF, 0x07, 0x3E, 0x81, 0x0F]);
    cpu.step();
    cpu.step();
    assert_eq!(flags_of(&cpu), (false, false, false, false));
    cpu.step();
    cpu.step(); // RRCA on $81
    assert_eq!(cpu.get_a(), 0xC0);
    assert!(cpu.get_f().carry);
}

#[test]
fn boot_rom_overlay_and_length_check() {
    let mut cpu = CPU::new();
    let mut rom = vec![0u8; 0x8000];
    rom[0] = 0x77;
    cpu.load_rom(rom);
    cpu.load_boot_rom(&[0x31; 100]);
    assert_eq!(cpu.get_pc(), 0x0100);
    assert_eq!(cpu.get_memory().read(0x0000), 0x77);
    let boot = [0x11u8; 256];
    cpu.load_boot_rom(&boot);
    assert_eq!(cpu.get_pc(), 0x0000);
    assert_eq!(cpu.get_a(), 0);
    assert_eq!(cpu.get_sp(), 0);
    assert_eq!(cpu.get_memory().read(0x0000), 0x11);
    cpu.get_memory_mut().write(0xFF50, 0);
    assert_eq!(cpu.get_memory().read(0x0000), 0x11);
    cpu.get_memory_mut().write(0xFF50, 1);
    assert_eq!(cpu.get_memory().read(0x0000), 0x77);
    cpu.get_memory_mut().write(0xFF50, 0);
    assert_eq!(cpu.get_memory().read(0x0000), 0x77);
}
