use vstd::prelude::*;

use crate::cpu::{
    add_result, advanced, and_result, base_target, branch_taken, defines, flag_of, not_result,
    pc_target, second_operand, wrap_add, ConditionFlag, CPU, TRAP_HALT,
};
use crate::mem::Memory;
use crate::utils::{bit, dr_field, offset9_field, sign_extended, sr1_field};

verus! {

/// The operations that the top four bits of an instruction select.
#[allow(non_camel_case_types)]
#[derive(PartialEq, Eq, Structural, Clone, Copy, Debug)]
pub enum Opcode {
    ADD,
    AND,
    BR,
    JMP_RET,
    JSR,
    LD,
    LDI,
    LDR,
    LEA,
    NOT,
    ST,
    STI,
    SRT,
    TRAP,
    RESERVED,
}

/// The opcode that the four bits `bits` name; 0b1000 names none.
pub open spec fn opcode_of(bits: u16) -> Option<Opcode> {
    if bits == 0b0000 {
        Some(Opcode::BR)
    } else if bits == 0b0001 {
        Some(Opcode::ADD)
    } else if bits == 0b0010 {
        Some(Opcode::LD)
    } else if bits == 0b0011 {
        Some(Opcode::ST)
    } else if bits == 0b0100 {
        Some(Opcode::JSR)
    } else if bits == 0b0101 {
        Some(Opcode::AND)
    } else if bits == 0b0110 {
        Some(Opcode::LDR)
    } else if bits == 0b0111 {
        Some(Opcode::SRT)
    } else if bits == 0b1001 {
        Some(Opcode::NOT)
    } else if bits == 0b1010 {
        Some(Opcode::LDI)
    } else if bits == 0b1011 {
        Some(Opcode::STI)
    } else if bits == 0b1100 {
        Some(Opcode::JMP_RET)
    } else if bits == 0b1101 {
        Some(Opcode::RESERVED)
    } else if bits == 0b1110 {
        Some(Opcode::LEA)
    } else if bits == 0b1111 {
        Some(Opcode::TRAP)
    } else {
        None
    }
}

/// The opcode of `instruction` (its bits 15 to 12).
pub open spec fn opcode_of_instruction(instruction: u16) -> Option<Opcode> {
    opcode_of(instruction >> 12u16)
}

/// A TRAP whose vector is not the halt vector: no behaviour is defined for it.
pub open spec fn unimplemented_trap(instruction: u16) -> bool {
    opcode_of_instruction(instruction) == Some(Opcode::TRAP) && instruction & 0xFFu16 != TRAP_HALT
}

/// Whether this machine has a routine for `op`. JSR, JMP/RET and the reserved
/// opcode have none: such an instruction is reported as invalid and changes
/// nothing.
pub open spec fn implemented(op: Opcode) -> bool {
    !(op == Opcode::JSR || op == Opcode::JMP_RET || op == Opcode::RESERVED)
}

/// Whether `op` writes its destination register and sets the flag from it.
pub open spec fn defines_register(op: Opcode) -> bool {
    op == Opcode::ADD || op == Opcode::AND || op == Opcode::NOT || op == Opcode::LD
        || op == Opcode::LDI || op == Opcode::LDR || op == Opcode::LEA
}

/// The value that a register-defining instruction writes, given the state
/// before it.
pub open spec fn written_value(c: CPU, m: Seq<u16>, instruction: u16) -> u16 {
    match opcode_of_instruction(instruction) {
        Some(Opcode::ADD) => add_result(c.regs@, instruction),
        Some(Opcode::AND) => and_result(c.regs@, instruction),
        Some(Opcode::NOT) => not_result(c.regs@, instruction),
        Some(Opcode::LD) => m[pc_target(c.pc, instruction) as int],
        Some(Opcode::LDI) => m[m[pc_target(c.pc, instruction) as int] as int],
        Some(Opcode::LDR) => m[base_target(c.regs@, instruction) as int],
        _ => pc_target(c.pc, instruction),
    }
}

/// Executing `instruction` takes processor `c0` and memory `m0` to `c1` and `m1`.
pub open spec fn executes(
    c0: CPU,
    m0: Seq<u16>,
    c1: CPU,
    m1: Seq<u16>,
    instruction: u16,
) -> bool {
    match opcode_of_instruction(instruction) {
        Some(op) => if defines_register(op) {
            &&& defines(c0, c1, dr_field(instruction), written_value(c0, m0, instruction))
            &&& m1 == m0
        } else if op == Opcode::BR {
            &&& c1.pc == if branch_taken(c0.cond, instruction) {
                pc_target(c0.pc, instruction)
            } else {
                c0.pc
            }
            &&& c1.regs == c0.regs
            &&& c1.cond == c0.cond
            &&& c1.running == c0.running
            &&& m1 == m0
        } else if op == Opcode::ST {
            &&& c1 == c0
            &&& m1 == m0.update(
                pc_target(c0.pc, instruction) as int,
                c0.regs@[dr_field(instruction) as int],
            )
        } else if op == Opcode::STI {
            &&& c1 == c0
            &&& m1 == m0.update(m0[pc_target(c0.pc, instruction) as int] as int,
                c0.regs@[dr_field(instruction) as int])
        } else if op == Opcode::SRT {
            &&& c1 == c0
            &&& m1 == m0.update(base_target(c0.regs@, instruction) as int,
                c0.regs@[dr_field(instruction) as int])
        } else if op == Opcode::TRAP {
            &&& !c1.running
            &&& c1.regs == c0.regs
            &&& c1.pc == c0.pc
            &&& c1.cond == c0.cond
            &&& m1 == m0
        } else {
            c1 == c0 && m1 == m0
        },
        None => c1 == c0 && m1 == m0,
    }
}

/// Decodes the top four bits of `instruction`.
pub fn decode(instruction: u16) -> (r: Option<Opcode>)
    ensures
        r == opcode_of_instruction(instruction),
{
    let bits = instruction >> 12;
    if bits == 0b0000 {
        Some(Opcode::BR)
    } else if bits == 0b0001 {
        Some(Opcode::ADD)
    } else if bits == 0b0010 {
        Some(Opcode::LD)
    } else if bits == 0b0011 {
        Some(Opcode::ST)
    } else if bits == 0b0100 {
        Some(Opcode::JSR)
    } else if bits == 0b0101 {
        Some(Opcode::AND)
    } else if bits == 0b0110 {
        Some(Opcode::LDR)
    } else if bits == 0b0111 {
        Some(Opcode::SRT)
    } else if bits == 0b1001 {
        Some(Opcode::NOT)
    } else if bits == 0b1010 {
        Some(Opcode::LDI)
    } else if bits == 0b1011 {
        Some(Opcode::STI)
    } else if bits == 0b1100 {
        Some(Opcode::JMP_RET)
    } else if bits == 0b1101 {
        Some(Opcode::RESERVED)
    } else if bits == 0b1110 {
        Some(Opcode::LEA)
    } else if bits == 0b1111 {
        Some(Opcode::TRAP)
    } else {
        None
    }
}

/// Whether `instruction` has a routine on this machine; an instruction
/// without one is an invalid opcode.
pub fn is_valid_instruction(instruction: u16) -> (r: bool)
    ensures
        r == (opcode_of_instruction(instruction) matches Some(op) && implemented(op)),
{
    match decode(instruction) {
        Some(Opcode::JSR) | Some(Opcode::JMP_RET) | Some(Opcode::RESERVED) | None => false,
        Some(_) => true,
    }
}

/// Whether `instruction` is a TRAP with a vector other than halt.
pub fn is_unimplemented_trap(instruction: u16) -> (r: bool)
    ensures
        r == unimplemented_trap(instruction),
{
    match decode(instruction) {
        Some(Opcode::TRAP) => instruction & 0xFF != TRAP_HALT,
        _ => false,
    }
}

/// Runs the routine that the opcode of `instruction` selects. An instruction
/// without a routine changes nothing.
pub fn decode_and_execute(cpu: &mut CPU, mem: &mut Memory, instruction: u16)
    requires
        !unimplemented_trap(instruction),
    ensures
        executes(*old(cpu), old(mem)@, *final(cpu), final(mem)@, instruction),
{
    match decode(instruction) {
        Some(Opcode::BR) => cpu.op_br(mem, instruction),
        Some(Opcode::ADD) => cpu.op_add(mem, instruction),
        Some(Opcode::AND) => cpu.op_and(mem, instruction),
        Some(Opcode::NOT) => cpu.op_not(mem, instruction),
        Some(Opcode::LD) => cpu.op_ld(mem, instruction),
        Some(Opcode::LDI) => cpu.op_ldi(mem, instruction),
        Some(Opcode::LDR) => cpu.op_ldr(mem, instruction),
        Some(Opcode::LEA) => cpu.op_lea(mem, instruction),
        Some(Opcode::ST) => cpu.op_st(mem, instruction),
        Some(Opcode::STI) => cpu.op_sti(mem, instruction),
        Some(Opcode::SRT) => cpu.op_str(mem, instruction),
        Some(Opcode::TRAP) => cpu.op_trap(mem, instruction),
        _ => {},
    }
}

/// After any instruction that defines a register, the condition flag
/// describes the value now in that register: Z exactly when it is zero, N
/// exactly when its bit 15 is set, P otherwise.
pub proof fn lemma_flag_tracks_written_value(
    c0: CPU,
    m0: Seq<u16>,
    c1: CPU,
    m1: Seq<u16>,
    instruction: u16,
)
    requires
        opcode_of_instruction(instruction) matches Some(op) && defines_register(op),
        executes(c0, m0, c1, m1, instruction),
    ensures
        ({
            let v = c1.regs@[dr_field(instruction) as int];
            &&& c1.cond == ConditionFlag::Z <==> v == 0
            &&& c1.cond == ConditionFlag::N <==> bit(v, 15)
            &&& c1.cond == ConditionFlag::P <==> (v != 0 && !bit(v, 15))
        }),
{
    let v = c1.regs@[dr_field(instruction) as int];
    assert((dr_field(instruction) as int) < 8) by (bit_vector);
    assert(v == written_value(c0, m0, instruction));
    assert(c1.cond == flag_of(v));
    assert((v >> 15u16 == 1u16) == bit(v, 15)) by (bit_vector);
    assert(v == 0 ==> !bit(v, 15)) by (bit_vector);
}

/// The immediate and register forms of ADD and AND compute the same value
/// when the second source register holds the sign-extended immediate.
pub proof fn lemma_immediate_matches_register_form(
    regs: Seq<u16>,
    imm_form: u16,
    reg_form: u16,
)
    requires
        regs.len() == 8,
        sr1_field(imm_form) == sr1_field(reg_form),
        bit(imm_form, 5),
        !bit(reg_form, 5),
        regs[(reg_form & 7u16) as int] == sign_extended(imm_form & 0x1Fu16, 5),
    ensures
        add_result(regs, imm_form) == add_result(regs, reg_form),
        and_result(regs, imm_form) == and_result(regs, reg_form),
{
    assert(second_operand(regs, imm_form) == second_operand(regs, reg_form));
}

/// ST, STI and STR leave the processor state, and so the condition flag,
/// unchanged.
pub proof fn lemma_stores_keep_flag(
    c0: CPU,
    m0: Seq<u16>,
    c1: CPU,
    m1: Seq<u16>,
    instruction: u16,
)
    requires
        opcode_of_instruction(instruction) matches Some(op)
            && (op == Opcode::ST || op == Opcode::STI || op == Opcode::SRT),
        executes(c0, m0, c1, m1, instruction),
    ensures
        c1.cond == c0.cond,
        c1 == c0,
{
}

/// A BR fetched at address `c0.pc` moves the PC to the word after it plus the
/// sign-extended offset when the flag matches a requested condition bit, and
/// to the word after it otherwise.
pub proof fn lemma_branch_from_advanced_pc(c0: CPU, m0: Seq<u16>, c1: CPU, m1: Seq<u16>)
    requires
        opcode_of_instruction(m0[c0.pc as int]) == Some(Opcode::BR),
        executes(advanced(c0), m0, c1, m1, m0[c0.pc as int]),
    ensures
        c1.pc == if branch_taken(c0.cond, m0[c0.pc as int]) {
            wrap_add(wrap_add(c0.pc, 1), sign_extended(offset9_field(m0[c0.pc as int]), 9))
        } else {
            wrap_add(c0.pc, 1)
        },
        c1.regs == c0.regs,
        c1.cond == c0.cond,
        m1 == m0,
{
}

} // verus!
