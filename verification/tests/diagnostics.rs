use ez80::diagnostic::Diagnostic;
use ez80::{Cpu, Machine, PlainMachine, Reg16, Reg8, SizePrefix};

fn load(sys: &mut PlainMachine, code: &[u8]) {
    for i in 0..code.len() {
        sys.poke(i as u32, code[i]);
    }
}

#[test]
fn unimplemented_opcode_reports_its_name() {
    let mut sys = PlainMachine::new();
    let mut cpu = Cpu::new_ez80();
    load(&mut sys, &[0xed, 0x76]); // SLP
    match cpu.execute_instruction(&mut sys) {
        Some(Diagnostic::Unimplemented(name)) => assert_eq!("SLP", name),
        _ => panic!("no report"),
    }
    assert_eq!(2, cpu.state.pc());
}

#[test]
fn plain_instructions_report_nothing() {
    let mut sys = PlainMachine::new();
    let mut cpu = Cpu::new_ez80();
    load(&mut sys, &[0x00, 0xc3, 0x00, 0x01]); // NOP; JP $0100
    assert!(cpu.execute_instruction(&mut sys).is_none());
    assert!(cpu.execute_instruction(&mut sys).is_none());
}

#[test]
fn ret_sis_is_reported() {
    let mut sys = PlainMachine::new();
    let mut cpu = Cpu::new_ez80();
    cpu.registers().set16(Reg16::SP, 0x2000);
    load(&mut sys, &[0x40, 0xc9]); // RET.SIS
    match cpu.execute_instruction(&mut sys) {
        Some(Diagnostic::InvalidRetPrefix { prefix, pc }) => {
            assert_eq!(SizePrefix::SIS, prefix);
            assert_eq!(2, pc);
        }
        _ => panic!("no report"),
    }
}

#[test]
fn call_lis_in_z80_mode_is_reported() {
    let mut sys = PlainMachine::new();
    let mut cpu = Cpu::new_ez80();
    cpu.registers().set16(Reg16::SP, 0x2000);
    load(&mut sys, &[0x49, 0xcd, 0x00, 0x01]); // CALL.LIS $0100
    assert!(matches!(cpu.execute_instruction(&mut sys), Some(Diagnostic::InvalidCallPrefix { adl: false })));
}

#[test]
fn jp_lis_is_reported_with_the_pc_after_the_address() {
    let mut sys = PlainMachine::new();
    let mut cpu = Cpu::new_ez80();
    load(&mut sys, &[0x49, 0xc3, 0x00, 0x01]); // JP.LIS $0100
    assert!(matches!(
        cpu.execute_instruction(&mut sys),
        Some(Diagnostic::InvalidJumpPrefix { adl: false, pc: 4 })
    ));
}

#[test]
fn rst_sis_in_adl_mode_is_reported() {
    let mut sys = PlainMachine::new();
    let mut cpu = Cpu::new_ez80();
    cpu.set_adl(true);
    load(&mut sys, &[0x40, 0xff]); // RST.SIS $38
    assert!(matches!(cpu.execute_instruction(&mut sys), Some(Diagnostic::InvalidRstPrefix)));
}

#[test]
fn z80_reads_5b_as_a_load() {
    let mut sys = PlainMachine::new();
    let mut cpu = Cpu::new();
    cpu.registers().set8(Reg8::E, 0x42);
    load(&mut sys, &[0x5b, 0x00]); // LD E, E; NOP
    cpu.execute_instruction(&mut sys);
    assert_eq!(1, cpu.state.pc());
    assert_eq!(0x42, cpu.registers().get8(Reg8::E));
}

#[test]
fn ez80_reads_5b_as_a_suffix() {
    let mut sys = PlainMachine::new();
    let mut cpu = Cpu::new_ez80();
    load(&mut sys, &[0x5b, 0x00]); // NOP.LIL
    cpu.execute_instruction(&mut sys);
    assert_eq!(2, cpu.state.pc());
}

#[test]
fn z80_disassembles_40_as_a_load() {
    let mut sys = PlainMachine::new();
    let mut cpu = Cpu::new_z80();
    load(&mut sys, &[0x40]);
    assert_eq!("LD B, B", cpu.disasm_instruction(&mut sys));
}
