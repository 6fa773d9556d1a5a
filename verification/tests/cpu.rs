use ez80::{Cpu, Flag, Machine, PlainMachine, Reg16, Reg8};

fn load(sys: &mut PlainMachine, code: &[u8]) {
    for i in 0..code.len() {
        sys.poke(i as u32, code[i]);
    }
}

#[test]
fn counts_to_sixteen() {
    let mut machine = PlainMachine::new();
    let mut cpu = Cpu::new();
    load(&mut machine, &[0x3c, 0xc3, 0x00, 0x00]); // INC A, JP $0000
    cpu.state.set_pc(0x0000);
    let mut steps = 0;
    loop {
        cpu.execute_instruction(&mut machine);
        steps += 1;
        if cpu.registers().a() == 0x10 {
            break;
        }
        assert!(steps < 100);
    }
    // A starts at $ff: the first INC wraps it to 0.
    assert_eq!(33, steps);
    assert_eq!(1, cpu.state.pc());
    assert_eq!(33, cpu.state.instructions_executed);
}

#[test]
fn push_then_pop_gives_the_value_back() {
    let mut sys = PlainMachine::new();
    let mut cpu = Cpu::new();
    // LD SP, $1000; LD BC, $1234; PUSH BC; POP DE
    load(&mut sys, &[0x31, 0x00, 0x10, 0x01, 0x34, 0x12, 0xc5, 0xd1]);
    for _ in 0..4 {
        cpu.execute_instruction(&mut sys);
    }
    assert_eq!(0x1234, cpu.registers().get16(Reg16::DE));
    assert_eq!(0x1000, cpu.registers().get16(Reg16::SP));
    assert_eq!(0x12, sys.peek(0x0fff));
    assert_eq!(0x34, sys.peek(0x0ffe));
}

#[test]
fn call_then_ret_comes_back() {
    let mut sys = PlainMachine::new();
    let mut cpu = Cpu::new();
    // LD SP, $2000; CALL $0100; ... $0100: RET
    load(&mut sys, &[0x31, 0x00, 0x20, 0xcd, 0x00, 0x01]);
    sys.poke(0x0100, 0xc9);
    cpu.execute_instruction(&mut sys);
    cpu.execute_instruction(&mut sys);
    assert_eq!(0x0100, cpu.state.pc());
    assert_eq!(0x1ffe, cpu.registers().get16(Reg16::SP));
    cpu.execute_instruction(&mut sys);
    assert_eq!(0x0006, cpu.state.pc());
    assert_eq!(0x2000, cpu.registers().get16(Reg16::SP));
}

#[test]
fn call_then_ret_comes_back_in_adl_mode() {
    let mut sys = PlainMachine::new();
    let mut cpu = Cpu::new_ez80();
    cpu.set_adl(true);
    // LD SP, $002000; CALL $000100; ... $000100: RET
    load(&mut sys, &[0x31, 0x00, 0x20, 0x00, 0xcd, 0x00, 0x01, 0x00]);
    sys.poke(0x0100, 0xc9);
    cpu.execute_instruction(&mut sys);
    cpu.execute_instruction(&mut sys);
    assert_eq!(0x0100, cpu.state.pc());
    assert_eq!(0x1ffd, cpu.registers().get24(Reg16::SP));
    assert_eq!(0x00, sys.peek(0x1fff));
    assert_eq!(0x00, sys.peek(0x1ffe));
    assert_eq!(0x08, sys.peek(0x1ffd));
    cpu.execute_instruction(&mut sys);
    assert_eq!(0x0008, cpu.state.pc());
    assert_eq!(0x2000, cpu.registers().get24(Reg16::SP));
}

#[test]
fn halt_waits_until_nmi() {
    let mut sys = PlainMachine::new();
    let mut cpu = Cpu::new();
    load(&mut sys, &[0x31, 0x00, 0x20, 0x76]); // LD SP, $2000; HALT
    cpu.execute_instruction(&mut sys);
    cpu.execute_instruction(&mut sys);
    assert!(cpu.is_halted());
    let pc = cpu.state.pc();
    cpu.execute_instruction(&mut sys);
    assert_eq!(pc, cpu.state.pc());
    assert_eq!(2, cpu.state.instructions_executed);

    cpu.signal_nmi();
    assert!(!cpu.is_halted());
    cpu.execute_instruction(&mut sys);
    // The NMI calls $66, which holds NOP.
    assert_eq!(0x0067, cpu.state.pc());
    assert_eq!(0x04, sys.peek(0x1ffe));
    assert!(!cpu.state.reg.iff1);
}

#[test]
fn reset_restarts_at_zero() {
    let mut sys = PlainMachine::new();
    let mut cpu = Cpu::new();
    load(&mut sys, &[0x00, 0x00, 0x00]);
    cpu.execute_instruction(&mut sys);
    cpu.execute_instruction(&mut sys);
    assert_eq!(2, cpu.state.pc());
    cpu.signal_reset();
    assert!(!cpu.is_halted());
    cpu.execute_instruction(&mut sys);
    // The reset moves to 0 and runs the NOP there.
    assert_eq!(1, cpu.state.pc());
    assert!(!cpu.state.reset_pending);
}

#[test]
fn add_sets_the_flags() {
    let mut sys = PlainMachine::new();
    let mut cpu = Cpu::new();
    load(&mut sys, &[0x3e, 0xff, 0xc6, 0x01]); // LD A, $ff; ADD A, 1
    cpu.execute_instruction(&mut sys);
    cpu.execute_instruction(&mut sys);
    assert_eq!(0, cpu.registers().a());
    assert!(cpu.registers().get_flag(Flag::Z));
    assert!(cpu.registers().get_flag(Flag::C));
    assert!(cpu.registers().get_flag(Flag::H));
    assert!(!cpu.registers().get_flag(Flag::N));
}

#[test]
fn daa_adjusts_bcd() {
    let mut sys = PlainMachine::new();
    let mut cpu = Cpu::new();
    load(&mut sys, &[0x3e, 0x19, 0xc6, 0x28, 0x27]); // LD A, $19; ADD A, $28; DAA
    for _ in 0..3 {
        cpu.execute_instruction(&mut sys);
    }
    assert_eq!(0x47, cpu.registers().a());
}

#[test]
fn sub_and_neg() {
    let mut sys = PlainMachine::new();
    let mut cpu = Cpu::new();
    load(&mut sys, &[0x3e, 0x05, 0xd6, 0x07, 0xed, 0x44]); // LD A, 5; SUB 7; NEG
    cpu.execute_instruction(&mut sys);
    cpu.execute_instruction(&mut sys);
    assert_eq!(0xfe, cpu.registers().a());
    assert!(cpu.registers().get_flag(Flag::C));
    assert!(cpu.registers().get_flag(Flag::N));
    cpu.execute_instruction(&mut sys);
    assert_eq!(0x02, cpu.registers().a());
}

#[test]
fn inc_memory_through_index() {
    let mut sys = PlainMachine::new();
    let mut cpu = Cpu::new();
    // LD IX, $0300; INC (IX+5)
    load(&mut sys, &[0xdd, 0x21, 0x00, 0x03, 0xdd, 0x34, 0x05]);
    sys.poke(0x0305, 0x7f);
    cpu.execute_instruction(&mut sys);
    cpu.execute_instruction(&mut sys);
    assert_eq!(0x80, sys.peek(0x0305));
    assert!(cpu.registers().get_flag(Flag::P));
    assert!(cpu.registers().get_flag(Flag::S));
    assert_eq!(7, cpu.state.pc());
}

#[test]
fn add_hl_wide() {
    let mut sys = PlainMachine::new();
    let mut cpu = Cpu::new();
    // LD HL, $ffff; LD DE, 1; ADD HL, DE
    load(&mut sys, &[0x21, 0xff, 0xff, 0x11, 0x01, 0x00, 0x19]);
    for _ in 0..3 {
        cpu.execute_instruction(&mut sys);
    }
    assert_eq!(0, cpu.registers().get16(Reg16::HL));
    assert!(cpu.registers().get_flag(Flag::C));
}

#[test]
fn sbc_hl_borrows() {
    let mut sys = PlainMachine::new();
    let mut cpu = Cpu::new();
    // LD HL, 0; LD BC, 1; SCF; SBC HL, BC
    load(&mut sys, &[0x21, 0x00, 0x00, 0x01, 0x01, 0x00, 0x37, 0xed, 0x42]);
    for _ in 0..4 {
        cpu.execute_instruction(&mut sys);
    }
    assert_eq!(0xfffe, cpu.registers().get16(Reg16::HL));
    assert!(cpu.registers().get_flag(Flag::C));
    assert!(cpu.registers().get_flag(Flag::N));
    assert!(cpu.registers().get_flag(Flag::S));
}

#[test]
fn rotations_and_bits() {
    let mut sys = PlainMachine::new();
    let mut cpu = Cpu::new();
    // LD A, $81; RLCA; LD B, $01; SRL B; SET 7, B; BIT 7, B
    load(&mut sys, &[0x3e, 0x81, 0x07, 0x06, 0x01, 0xcb, 0x38, 0xcb, 0xf8, 0xcb, 0x78]);
    cpu.execute_instruction(&mut sys);
    cpu.execute_instruction(&mut sys);
    assert_eq!(0x03, cpu.registers().a());
    assert!(cpu.registers().get_flag(Flag::C));
    cpu.execute_instruction(&mut sys);
    cpu.execute_instruction(&mut sys);
    assert_eq!(0x00, cpu.registers().get8(Reg8::B));
    assert!(cpu.registers().get_flag(Flag::C));
    assert!(cpu.registers().get_flag(Flag::Z));
    cpu.execute_instruction(&mut sys);
    assert_eq!(0x80, cpu.registers().get8(Reg8::B));
    cpu.execute_instruction(&mut sys);
    assert!(!cpu.registers().get_flag(Flag::Z));
}

#[test]
fn rld_rotates_nibbles() {
    let mut sys = PlainMachine::new();
    let mut cpu = Cpu::new();
    // LD HL, $0400; LD A, $12; RLD
    load(&mut sys, &[0x21, 0x00, 0x04, 0x3e, 0x12, 0xed, 0x6f]);
    sys.poke(0x0400, 0x34);
    for _ in 0..3 {
        cpu.execute_instruction(&mut sys);
    }
    assert_eq!(0x13, cpu.registers().a());
    assert_eq!(0x42, sys.peek(0x0400));
}

#[test]
fn exchange_twice_restores() {
    let mut sys = PlainMachine::new();
    let mut cpu = Cpu::new();
    load(&mut sys, &[0x3e, 0x42, 0x08, 0x3e, 0x10, 0x08]); // LD A, $42; EX AF, AF'; LD A, $10; EX AF, AF'
    for _ in 0..4 {
        cpu.execute_instruction(&mut sys);
    }
    assert_eq!(0x42, cpu.registers().a());
}

#[test]
fn in_reads_the_port() {
    let mut sys = PlainMachine::new();
    let mut cpu = Cpu::new();
    load(&mut sys, &[0xdb, 0x20]); // IN A, ($20)
    // The port address takes A as its high byte.
    cpu.registers().set_a(0x12);
    sys.port_out(0x1220, 0x99);
    cpu.execute_instruction(&mut sys);
    assert_eq!(0x99, cpu.registers().a());
}

#[test]
fn ldir_copies_a_block() {
    let mut sys = PlainMachine::new();
    let mut cpu = Cpu::new();
    // LD HL, $0500; LD DE, $0600; LD BC, 3; LDIR
    load(&mut sys, &[0x21, 0x00, 0x05, 0x11, 0x00, 0x06, 0x01, 0x03, 0x00, 0xed, 0xb0]);
    sys.poke(0x0500, 1);
    sys.poke(0x0501, 2);
    sys.poke(0x0502, 3);
    for _ in 0..6 {
        cpu.execute_instruction(&mut sys);
    }
    assert_eq!(1, sys.peek(0x0600));
    assert_eq!(2, sys.peek(0x0601));
    assert_eq!(3, sys.peek(0x0602));
    assert_eq!(0, cpu.registers().get16(Reg16::BC));
    assert_eq!(11, cpu.state.pc());
}

#[test]
fn r_counts_instructions() {
    let mut sys = PlainMachine::new();
    let mut cpu = Cpu::new();
    for _ in 0..5 {
        cpu.execute_instruction(&mut sys);
    }
    assert_eq!(5, cpu.registers().get8(Reg8::R));
}

#[test]
fn cpu_8080_sets_the_mode() {
    let cpu = Cpu::new_8080();
    assert!(cpu.state.reg.mode8080);
    let cpu = Cpu::default();
    assert!(!cpu.state.reg.mode8080);
}

#[test]
fn set_adl_and_trace() {
    let mut cpu = Cpu::new_ez80();
    cpu.set_adl(true);
    assert!(cpu.state.reg.adl);
    cpu.set_trace(true);
    assert!(cpu.trace);
}

#[test]
fn adl_mode_uses_24_bit_immediates() {
    let mut sys = PlainMachine::new();
    let mut cpu = Cpu::new_ez80();
    cpu.set_adl(true);
    load(&mut sys, &[0x21, 0x56, 0x34, 0x12]); // LD HL, $123456
    cpu.execute_instruction(&mut sys);
    assert_eq!(0x123456, cpu.registers().get24(Reg16::HL));
    assert_eq!(4, cpu.state.pc());
}

#[test]
fn ld_a_i_sets_the_flags() {
    let mut sys = PlainMachine::new();
    let mut cpu = Cpu::new();
    cpu.registers().set8(Reg8::I, 5);
    cpu.registers().set8(Reg8::F, 0xff);
    load(&mut sys, &[0xed, 0x57]); // LD A, I
    cpu.execute_instruction(&mut sys);
    assert_eq!(5, cpu.registers().a());
    assert!(!cpu.registers().get_flag(Flag::Z));
    assert!(!cpu.registers().get_flag(Flag::S));
    assert!(!cpu.registers().get_flag(Flag::H));
    assert!(!cpu.registers().get_flag(Flag::N));
    assert!(!cpu.registers().get_flag(Flag::P));
    assert!(cpu.registers().get_flag(Flag::C));
}

#[test]
fn ld_a_r_reports_iff2() {
    let mut sys = PlainMachine::new();
    let mut cpu = Cpu::new();
    cpu.registers().set_interrupts(true);
    cpu.registers().set8(Reg8::R, 0x80);
    cpu.registers().set8(Reg8::F, 0x00);
    load(&mut sys, &[0xed, 0x5f]); // LD A, R
    cpu.execute_instruction(&mut sys);
    assert_eq!(0x80, cpu.registers().a());
    assert!(cpu.registers().get_flag(Flag::S));
    assert!(!cpu.registers().get_flag(Flag::Z));
    assert!(cpu.registers().get_flag(Flag::P));
    assert!(!cpu.registers().get_flag(Flag::C));
}

#[test]
fn ld_i_a_keeps_the_flags() {
    let mut sys = PlainMachine::new();
    let mut cpu = Cpu::new();
    cpu.registers().set8(Reg8::F, 0x41);
    load(&mut sys, &[0x3e, 0x00, 0xed, 0x47]); // LD A, 0; LD I, A
    cpu.execute_instruction(&mut sys);
    cpu.execute_instruction(&mut sys);
    assert_eq!(0, cpu.registers().get8(Reg8::I));
    assert_eq!(0x41, cpu.registers().get8(Reg8::F));
}
