use lc3emu::cpu::{ConditionFlag, CPU};
use lc3emu::isa::{decode, decode_and_execute, is_unimplemented_trap, is_valid_instruction, Opcode};
use lc3emu::loader::load_image;
use lc3emu::mem::Memory;

#[test]
fn decode_each_opcode() {
    assert_eq!(decode(0x0000), Some(Opcode::BR));
    assert_eq!(decode(0x1000), Some(Opcode::ADD));
    assert_eq!(decode(0x2000), Some(Opcode::LD));
    assert_eq!(decode(0x3000), Some(Opcode::ST));
    assert_eq!(decode(0x4000), Some(Opcode::JSR));
    assert_eq!(decode(0x5FFF), Some(Opcode::AND));
    assert_eq!(decode(0x6000), Some(Opcode::LDR));
    assert_eq!(decode(0x7000), Some(Opcode::SRT));
    assert_eq!(decode(0x8000), None);
    assert_eq!(decode(0x9000), Some(Opcode::NOT));
    assert_eq!(decode(0xA000), Some(Opcode::LDI));
    assert_eq!(decode(0xB000), Some(Opcode::STI));
    assert_eq!(decode(0xC000), Some(Opcode::JMP_RET));
    assert_eq!(decode(0xD000), Some(Opcode::RESERVED));
    assert_eq!(decode(0xE000), Some(Opcode::LEA));
    assert_eq!(decode(0xF025), Some(Opcode::TRAP));
}

#[test]
fn valid_and_trap_checks() {
    assert!(is_valid_instruction(0x1025));
    assert!(is_valid_instruction(0xF025));
    assert!(!is_valid_instruction(0x4000));
    assert!(!is_valid_instruction(0x8000));
    assert!(!is_valid_instruction(0xC1C0));
    assert!(!is_valid_instruction(0xD000));
    assert!(!is_unimplemented_trap(0xF025));
    assert!(is_unimplemented_trap(0xF020));
    assert!(!is_unimplemented_trap(0x1020));
}

#[test]
fn dispatch_runs_routine() {
    let mut c = CPU::new();
    let mut m = Memory::new();
    decode_and_execute(&mut c, &mut m, 0x1025);
    assert_eq!(c.regs[0], 5);
    decode_and_execute(&mut c, &mut m, 0xF025);
    assert!(!c.running);
}

#[test]
fn invalid_opcode_changes_nothing_but_pc() {
    let mut c = CPU::new();
    let mut m = Memory::new();
    c.cond = ConditionFlag::N;
    m.write_word(0x3000, 0x4ABC);
    m.write_word(0x3001, 0xD123);
    m.write_word(0x3002, 0x8000);
    c.step(&mut m);
    c.step(&mut m);
    c.step(&mut m);
    assert_eq!(c.pc, 0x3003);
    assert_eq!(c.regs, [0u16; 8]);
    assert_eq!(c.cond, ConditionFlag::N);
    assert!(c.running);
}

#[test]
fn step_offsets_from_advanced_pc() {
    let mut c = CPU::new();
    let mut m = Memory::new();
    // LEA R1, #0 at 0x3000 yields the address after it
    m.write_word(0x3000, 0b1110_001_000000000);
    c.step(&mut m);
    assert_eq!(c.regs[1], 0x3001);
    assert_eq!(c.pc, 0x3001);
}

#[test]
fn step_ldi_indirection() {
    let mut c = CPU::new();
    let mut m = Memory::new();
    // LDI R3, +2: pointer at 0x3003, value at 0x4000
    m.write_word(0x3000, 0b1010_011_000000010);
    m.write_word(0x3003, 0x4000);
    m.write_word(0x4000, 0x1234);
    c.step(&mut m);
    assert_eq!(c.regs[3], 0x1234);
    assert_eq!(c.cond, ConditionFlag::P);
}

#[test]
fn pc_wraps_at_top_of_memory() {
    let mut c = CPU::new();
    let mut m = Memory::new();
    c.pc = 0xFFFF;
    m.write_word(0xFFFF, 0x1021);
    c.step(&mut m);
    assert_eq!(c.pc, 0);
    assert_eq!(c.regs[0], 1);
}

#[test]
fn add_then_halt_program() {
    let image: Vec<u8> = vec![0x30, 0x00, 0x10, 0x25, 0xF0, 0x25];
    let mut m = Memory::new();
    let mut c = CPU::new();
    let origin = load_image(&mut m, &image);
    assert_eq!(origin, Some(0x3000));
    c.pc = origin.unwrap();
    c.step(&mut m);
    c.step(&mut m);
    c.step(&mut m);
    assert_eq!(c.regs[0], 5);
    assert!(!c.running);
}

#[test]
fn countdown_loop_program() {
    // R0 <- 3; loop: R0 <- R0 - 1; BRp loop; HALT
    let image: Vec<u8> = vec![
        0x30, 0x00, 0x10, 0x23, 0x10, 0x3F, 0x03, 0xFE, 0xF0, 0x25,
    ];
    let mut m = Memory::new();
    let mut c = CPU::new();
    c.pc = load_image(&mut m, &image).unwrap();
    let mut steps = 0;
    while c.running {
        c.step(&mut m);
        steps += 1;
    }
    assert_eq!(c.regs[0], 0);
    assert_eq!(c.cond, ConditionFlag::Z);
    assert_eq!(steps, 8);
}
