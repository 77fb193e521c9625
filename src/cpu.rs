use vstd::prelude::*;

use crate::isa::{decode_and_execute, executes, unimplemented_trap};
use crate::mem::Memory;
use crate::utils::{
    bit, dr_field, extend_sign, extract_dr, extract_offset9, extract_sr1, offset9_field,
    sign_extended, sr1_field,
};

verus! {

/// Address at which user programs start by default.
pub const USER_ORIGIN: u16 = 0x3000;

/// Trap vector of the halt service.
pub const TRAP_HALT: u16 = 0x25;

/// Sign of the last value written to a destination register.
#[derive(PartialEq, Eq, Structural, Clone, Copy, Debug)]
pub enum ConditionFlag {
    N,
    Z,
    P,
}

/// Processor state: eight general registers, program counter, condition flag
/// and run state.
#[derive(Clone, Copy, Debug)]
pub struct CPU {
    pub regs: [u16; 8],
    pub pc: u16,
    pub cond: ConditionFlag,
    pub running: bool,
}

/// The condition flag that a written value `v` sets.
pub open spec fn flag_of(v: u16) -> ConditionFlag {
    if v == 0 {
        ConditionFlag::Z
    } else if v >> 15u16 == 1u16 {
        ConditionFlag::N
    } else {
        ConditionFlag::P
    }
}

/// 16-bit addition modulo 65536.
pub open spec fn wrap_add(a: u16, b: u16) -> u16 {
    ((a as int + b as int) % 0x10000) as u16
}

/// Address `pc` plus the sign-extended nine-bit offset of `instruction`.
pub open spec fn pc_target(pc: u16, instruction: u16) -> u16 {
    wrap_add(pc, sign_extended(offset9_field(instruction), 9))
}

/// Base register (bits 8 to 6) plus the sign-extended six-bit offset.
pub open spec fn base_target(regs: Seq<u16>, instruction: u16) -> u16 {
    wrap_add(regs[sr1_field(instruction) as int], sign_extended(instruction & 0x3Fu16, 6))
}

/// Second operand of ADD and AND: the sign-extended five-bit immediate when
/// bit 5 is set, otherwise the register named by bits 2 to 0.
pub open spec fn second_operand(regs: Seq<u16>, instruction: u16) -> u16 {
    if bit(instruction, 5) {
        sign_extended(instruction & 0x1Fu16, 5)
    } else {
        regs[(instruction & 7u16) as int]
    }
}

/// Value that ADD writes: SR1 plus the second operand, modulo 65536.
pub open spec fn add_result(regs: Seq<u16>, instruction: u16) -> u16 {
    wrap_add(regs[sr1_field(instruction) as int], second_operand(regs, instruction))
}

/// Value that AND writes: SR1 and the second operand, bit by bit.
pub open spec fn and_result(regs: Seq<u16>, instruction: u16) -> u16 {
    regs[sr1_field(instruction) as int] & second_operand(regs, instruction)
}

/// Value that NOT writes: the complement of SR1.
pub open spec fn not_result(regs: Seq<u16>, instruction: u16) -> u16 {
    !regs[sr1_field(instruction) as int]
}

/// Whether BR with `instruction` branches under flag `cond`: one of the
/// requested bits n (11), z (10), p (9) matches the flag.
pub open spec fn branch_taken(cond: ConditionFlag, instruction: u16) -> bool {
    ||| cond == ConditionFlag::N && bit(instruction, 11)
    ||| cond == ConditionFlag::Z && bit(instruction, 10)
    ||| cond == ConditionFlag::P && bit(instruction, 9)
}

/// `after` is `before` with register `r` set to `v` and the flag set from `v`.
pub open spec fn defines(before: CPU, after: CPU, r: u16, v: u16) -> bool {
    &&& after.regs@ == before.regs@.update(r as int, v)
    &&& after.cond == flag_of(v)
    &&& after.pc == before.pc
    &&& after.running == before.running
}

/// `c` with its program counter moved to the next word.
pub open spec fn advanced(c: CPU) -> CPU {
    CPU { pc: wrap_add(c.pc, 1), ..c }
}

impl CPU {
    /// Registers zero, PC at the user origin, flag Z, running.
    pub fn new() -> (c: CPU)
        ensures
            forall|r: int| 0 <= r < 8 ==> #[trigger] c.regs@[r] == 0,
            c.pc == USER_ORIGIN,
            c.cond == ConditionFlag::Z,
            c.running,
    {
        CPU { regs: [0u16; 8], pc: USER_ORIGIN, cond: ConditionFlag::Z, running: true }
    }

    /// Sets the condition flag from the value in register `reg`.
    pub fn update_flags(&mut self, reg: usize)
        requires
            reg < 8,
        ensures
            final(self).cond == flag_of(old(self).regs@[reg as int]),
            final(self).regs == old(self).regs,
            final(self).pc == old(self).pc,
            final(self).running == old(self).running,
    {
        let val = self.regs[reg];
        self.cond = if val == 0 {
            ConditionFlag::Z
        } else if (val >> 15) == 1 {
            ConditionFlag::N
        } else {
            ConditionFlag::P
        };
    }

    /// Second operand of ADD and AND, as read from the instruction.
    fn operand2(&self, instruction: u16) -> (r: u16)
        ensures
            r == second_operand(self.regs@, instruction),
    {
        if (instruction >> 5) & 0x1 == 1 {
            extend_sign(instruction & 0x1F, 5)
        } else {
            proof {
                assert(instruction & 7u16 < 8) by (bit_vector);
            }
            self.regs[(instruction & 0x7) as usize]
        }
    }

    /// ADD: DR gets SR1 plus the second operand, modulo 65536.
    pub fn op_add(&mut self, mem: &mut Memory, instruction: u16)
        ensures
            defines(
                *old(self),
                *final(self),
                dr_field(instruction),
                add_result(old(self).regs@, instruction),
            ),
            final(mem)@ == old(mem)@,
    {
        let dr = extract_dr(instruction);
        let sr1 = extract_sr1(instruction);
        let result = self.regs[sr1].wrapping_add(self.operand2(instruction));
        self.regs[dr] = result;
        self.update_flags(dr);
    }

    /// AND: DR gets the bitwise and of SR1 and the second operand.
    pub fn op_and(&mut self, mem: &mut Memory, instruction: u16)
        ensures
            defines(
                *old(self),
                *final(self),
                dr_field(instruction),
                and_result(old(self).regs@, instruction),
            ),
            final(mem)@ == old(mem)@,
    {
        let dr = extract_dr(instruction);
        let sr1 = extract_sr1(instruction);
        let result = self.regs[sr1] & self.operand2(instruction);
        self.regs[dr] = result;
        self.update_flags(dr);
    }

    /// NOT: DR gets the bitwise complement of SR1.
    pub fn op_not(&mut self, mem: &mut Memory, instruction: u16)
        ensures
            defines(
                *old(self),
                *final(self),
                dr_field(instruction),
                not_result(old(self).regs@, instruction),
            ),
            final(mem)@ == old(mem)@,
    {
        let dr = extract_dr(instruction);
        let sr1 = extract_sr1(instruction);
        let result = !self.regs[sr1];
        self.regs[dr] = result;
        self.update_flags(dr);
    }
    /// Sign-extended nine-bit offset added to the (already advanced) PC.
    fn pc_relative(&self, instruction: u16) -> (r: u16)
        ensures
            r == pc_target(self.pc, instruction),
    {
        self.pc.wrapping_add(extend_sign(extract_offset9(instruction), 9))
    }

    /// Sign-extended six-bit offset added to the base register (bits 8 to 6).
    fn base_relative(&self, instruction: u16) -> (r: u16)
        ensures
            r == base_target(self.regs@, instruction),
    {
        let base = extract_sr1(instruction);
        self.regs[base].wrapping_add(extend_sign(instruction & 0x3F, 6))
    }

    /// BR: moves the PC by the nine-bit offset when the flag matches one of
    /// the requested condition bits; nothing else changes.
    pub fn op_br(&mut self, mem: &mut Memory, instruction: u16)
        ensures
            final(self).pc == if branch_taken(old(self).cond, instruction) {
                pc_target(old(self).pc, instruction)
            } else {
                old(self).pc
            },
            final(self).regs == old(self).regs,
            final(self).cond == old(self).cond,
            final(self).running == old(self).running,
            final(mem)@ == old(mem)@,
    {
        let n = (instruction >> 11) & 0x1;
        let z = (instruction >> 10) & 0x1;
        let p = (instruction >> 9) & 0x1;
        let branch = match self.cond {
            ConditionFlag::N => n == 1,
            ConditionFlag::Z => z == 1,
            ConditionFlag::P => p == 1,
        };
        if branch {
            self.pc = self.pc_relative(instruction);
        }
    }

    /// LD: DR gets the word at PC plus the nine-bit offset.
    pub fn op_ld(&mut self, mem: &mut Memory, instruction: u16)
        ensures
            defines(*old(self), *final(self), dr_field(instruction),
                old(mem)@[pc_target(old(self).pc, instruction) as int]),
            final(mem)@ == old(mem)@,
    {
        let dr = extract_dr(instruction);
        let value = mem.read_word(self.pc_relative(instruction));
        self.regs[dr] = value;
        self.update_flags(dr);
    }

    /// LDI: reads the word at PC plus the nine-bit offset, then DR gets the
    /// word at that address.
    pub fn op_ldi(&mut self, mem: &mut Memory, instruction: u16)
        ensures
            defines(*old(self), *final(self), dr_field(instruction),
                old(mem)@[old(mem)@[pc_target(old(self).pc, instruction) as int] as int]),
            final(mem)@ == old(mem)@,
    {
        let dr = extract_dr(instruction);
        let intermediate = mem.read_word(self.pc_relative(instruction));
        let value = mem.read_word(intermediate);
        self.regs[dr] = value;
        self.update_flags(dr);
    }

    /// LDR: DR gets the word at the base register plus the six-bit offset.
    pub fn op_ldr(&mut self, mem: &mut Memory, instruction: u16)
        ensures
            defines(*old(self), *final(self), dr_field(instruction),
                old(mem)@[base_target(old(self).regs@, instruction) as int]),
            final(mem)@ == old(mem)@,
    {
        let dr = extract_dr(instruction);
        let value = mem.read_word(self.base_relative(instruction));
        self.regs[dr] = value;
        self.update_flags(dr);
    }

    /// LEA: DR gets the address PC plus the nine-bit offset; memory is not read.
    pub fn op_lea(&mut self, mem: &mut Memory, instruction: u16)
        ensures
            defines(
                *old(self),
                *final(self),
                dr_field(instruction),
                pc_target(old(self).pc, instruction),
            ),
            final(mem)@ == old(mem)@,
    {
        let dr = extract_dr(instruction);
        let address = self.pc_relative(instruction);
        self.regs[dr] = address;
        self.update_flags(dr);
    }

    /// ST: the register in bits 11 to 9 is stored at PC plus the nine-bit
    /// offset; the processor state is left as it was.
    pub fn op_st(&mut self, mem: &mut Memory, instruction: u16)
        ensures
            *final(self) == *old(self),
            final(mem)@ == old(mem)@.update(pc_target(old(self).pc, instruction) as int,
                old(self).regs@[dr_field(instruction) as int]),
    {
        let sr = extract_dr(instruction);
        mem.write_word(self.pc_relative(instruction), self.regs[sr]);
    }

    /// STI: the register in bits 11 to 9 is stored at the address held in the
    /// word at PC plus the nine-bit offset.
    pub fn op_sti(&mut self, mem: &mut Memory, instruction: u16)
        ensures
            *final(self) == *old(self),
            final(mem)@ == old(mem)@.update(
                old(mem)@[pc_target(old(self).pc, instruction) as int] as int,
                old(self).regs@[dr_field(instruction) as int]),
    {
        let sr = extract_dr(instruction);
        let intermediate = mem.read_word(self.pc_relative(instruction));
        mem.write_word(intermediate, self.regs[sr]);
    }

    /// STR: the register in bits 11 to 9 is stored at the base register plus
    /// the six-bit offset.
    pub fn op_str(&mut self, mem: &mut Memory, instruction: u16)
        ensures
            *final(self) == *old(self),
            final(mem)@ == old(mem)@.update(base_target(old(self).regs@, instruction) as int,
                old(self).regs@[dr_field(instruction) as int]),
    {
        let sr = extract_dr(instruction);
        mem.write_word(self.base_relative(instruction), self.regs[sr]);
    }

    /// TRAP: the halt vector (low eight bits) clears the running flag. No
    /// other vector is implemented, so the caller must not pass one.
    pub fn op_trap(&mut self, mem: &mut Memory, instruction: u16)
        requires
            instruction & 0xFFu16 == TRAP_HALT,
        ensures
            !final(self).running,
            final(self).regs == old(self).regs,
            final(self).pc == old(self).pc,
            final(self).cond == old(self).cond,
            final(mem)@ == old(mem)@,
    {
        self.running = false;
    }
    /// One fetch-decode-execute cycle: reads the word at PC, advances PC by
    /// one (modulo 65536), then runs that instruction's routine, whose
    /// offsets are taken from the advanced PC.
    pub fn step(&mut self, mem: &mut Memory)
        requires
            !unimplemented_trap(old(mem)@[old(self).pc as int]),
        ensures
            executes(advanced(*old(self)), old(mem)@, *final(self), final(mem)@,
                old(mem)@[old(self).pc as int]),
    {
        let instruction = mem.read_word(self.pc);
        self.pc = self.pc.wrapping_add(1);
        decode_and_execute(self, mem, instruction);
    }
}

} // verus!
