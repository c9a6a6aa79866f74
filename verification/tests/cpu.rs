use nessuno::cpu::{Cpu, Flag};
use nessuno::system_debug_cpu::SystemDebugCpu;

#[test]
fn cpu_test_flags() {
    assert_eq!(!Flag::B.mask(), 0b11101111);
    assert_eq!(!Flag::U.mask(), 0b11011111);

    let mut cpu = Cpu::new();
    cpu.set_flag(Flag::I, true);
    cpu.set_flag(Flag::D, true);
    cpu.set_flag(Flag::V, true);
    assert!(cpu.get_flag(Flag::I));
    assert!(cpu.get_flag(Flag::D));
    assert!(cpu.get_flag(Flag::V));
    assert!(!cpu.get_flag(Flag::N));
    assert!(!cpu.get_flag(Flag::Z));

    cpu.set_flag(Flag::I, false);
    cpu.set_flag(Flag::D, true);
    cpu.set_flag(Flag::V, false);
    assert!(!cpu.get_flag(Flag::I));
    assert!(cpu.get_flag(Flag::D));
    assert!(!cpu.get_flag(Flag::V));
    assert!(!cpu.get_flag(Flag::N));
    assert!(!cpu.get_flag(Flag::Z));
}

#[test]
fn mod_test_flags() {
    assert_eq!(!Flag::B.mask(), 0b11101111);
    assert_eq!(!Flag::U.mask(), 0b11011111);

    let mut cpu = Cpu::new();
    cpu.set_flag(Flag::I, true);
    cpu.set_flag(Flag::D, true);
    cpu.set_flag(Flag::V, true);
    assert!(cpu.get_flag(Flag::I));
    assert!(cpu.get_flag(Flag::D));
    assert!(cpu.get_flag(Flag::V));
    assert!(!cpu.get_flag(Flag::N));
    assert!(!cpu.get_flag(Flag::Z));

    cpu.set_flag(Flag::I, false);
    cpu.set_flag(Flag::D, true);
    cpu.set_flag(Flag::V, false);
    assert!(!cpu.get_flag(Flag::I));
    assert!(cpu.get_flag(Flag::D));
    assert!(!cpu.get_flag(Flag::V));
    assert!(!cpu.get_flag(Flag::N));
    assert!(!cpu.get_flag(Flag::Z));
}

/// Run a short program on the bare debug memory and return the system.
fn run_program(prog: &[u8], steps: usize) -> SystemDebugCpu {
    let mut s = SystemDebugCpu::new();
    s.load(prog, 0x0400);
    s.set_reset_vector(0x0400);
    s.cpu_reset();
    s.cpu_step();
    for _ in 0..steps {
        s.cpu_step();
    }
    s
}

#[test]
fn status_u_bit_after_reset() {
    let mut s = SystemDebugCpu::new();
    s.set_reset_vector(0x0400);
    s.cpu_reset();
    assert_eq!(s.cpu.status, 0x20);
    assert!(s.cpu.status & 0x20 != 0);
    assert_eq!(s.cpu.stkp, 0xfd);
}

#[test]
fn status_u_bit_after_plp() {
    // LDA #$00 / PHA / PLP: pull a status of zero, U must still read 1
    let prog = [0xa9, 0x00, 0x48, 0x28];
    let s = run_program(&prog, 3);
    assert!(s.cpu.status & 0x20 != 0);
}

#[test]
fn adc_carry_and_overflow() {
    // CLC / LDA #$50 / ADC #$50: 0x50 + 0x50 = 0xa0, signed overflow,
    // no unsigned carry
    let prog = [0x18, 0xa9, 0x50, 0x69, 0x50];
    let s = run_program(&prog, 3);
    assert_eq!(s.cpu.a, 0xa0);
    assert!(s.cpu.status & 0x01 == 0);
    assert!(s.cpu.status & 0x40 != 0);
    assert!(s.cpu.status & 0x80 != 0);
}

#[test]
fn adc_unsigned_carry() {
    // CLC / LDA #$ff / ADC #$02: carry out, no signed overflow
    let prog = [0x18, 0xa9, 0xff, 0x69, 0x02];
    let s = run_program(&prog, 3);
    assert_eq!(s.cpu.a, 0x01);
    assert!(s.cpu.status & 0x01 != 0);
    assert!(s.cpu.status & 0x40 == 0);
}

#[test]
fn sbc_borrow_and_overflow() {
    // SEC / LDA #$50 / SBC #$b0: 0x50 - 0xb0 = signed overflow, borrow
    let prog = [0x38, 0xa9, 0x50, 0xe9, 0xb0];
    let s = run_program(&prog, 3);
    assert_eq!(s.cpu.a, 0xa0);
    assert!(s.cpu.status & 0x01 == 0);
    assert!(s.cpu.status & 0x40 != 0);
}

#[test]
fn compare_sets_carry_iff_ge() {
    // LDA #$40 / CMP #$30: A >= M, carry set
    let prog = [0xa9, 0x40, 0xc9, 0x30];
    let s = run_program(&prog, 2);
    assert!(s.cpu.status & 0x01 != 0);
    // LDA #$20 / CMP #$30: A < M, carry clear
    let prog = [0xa9, 0x20, 0xc9, 0x30];
    let s = run_program(&prog, 2);
    assert!(s.cpu.status & 0x01 == 0);
}

#[test]
fn stack_round_trip() {
    // LDX #$37 / TXA / PHA / LDA #$00 / PLA
    let prog = [0xa2, 0x37, 0x8a, 0x48, 0xa9, 0x00, 0x68];
    let s = run_program(&prog, 5);
    assert_eq!(s.cpu.a, 0x37);
    assert_eq!(s.cpu.stkp, 0xfd);
}

#[test]
fn memory_program_loops() {
    // a counting loop: LDX #$00 / INX / CPX #$0a / BNE -5 / STX $10
    let prog = [0xa2, 0x00, 0xe8, 0xe0, 0x0a, 0xd0, 0xfb, 0x86, 0x10];
    let s = run_program(&prog, 40);
    assert_eq!(s.read(0x0010), 0x0a);
}

#[test]
fn disassemble_covers_range() {
    let mut s = SystemDebugCpu::new();
    let prog = [0xa9, 0x42, 0x4c, 0x00, 0x04];
    s.load(&prog, 0x0400);
    let cpu = Cpu::new();
    let d = cpu.disassemble(&s.memory, 0x0400, 0x0404);
    assert!(d.contains_key(&0x0400));
    let line = d.get(&0x0400).unwrap();
    assert!(line.contains("LDA"));
    assert!(line.contains("#$42"));
    let jmp = d.get(&0x0402).unwrap();
    assert!(jmp.contains("JMP"));
    for k in d.keys() {
        assert!(*k >= 0x0400 && *k <= 0x0404);
    }
}
