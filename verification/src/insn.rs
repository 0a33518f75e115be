//! The decoded-instruction model.
//!
//! The stack-recovery heuristics and the branch classifier work on what the
//! disassembler reports about each decoded instruction: its numeric
//! instruction id, its operands, the instruction groups it belongs to, and
//! the registers it reads and writes.  [`Insn`] carries exactly those facts
//! as plain values, in the disassembler's own numbering; the caller fills
//! one in per decoded instruction.

use vstd::prelude::*;

verus! {

/// The disassembler's instruction id for an ARM register-to-register move.
pub const ARM_INS_MOV: u32 = 106;

/// The disassembler's instruction id for an ARM pop.
pub const ARM_INS_POP: u32 = 127;

/// The disassembler's instruction id for an ARM push.
pub const ARM_INS_PUSH: u32 = 128;

/// The disassembler's instruction id for the ARM supervisor call, the
/// syscall-trap instruction.
pub const ARM_INS_SVC: u32 = 254;

/// The disassembler's instruction id for the RISC-V compressed store-word.
pub const RISCV_INS_C_SW: u32 = 131;

/// The disassembler's instruction id for the RISC-V environment call, the
/// syscall-trap instruction.
pub const RISCV_INS_ECALL: u32 = 140;

/// The disassembler's instruction id for the RISC-V store-word.
pub const RISCV_INS_SW: u32 = 267;

/// The disassembler's group id for jump instructions.
pub const GRP_JUMP: u8 = 1;

/// The disassembler's group id for call instructions.
pub const GRP_CALL: u8 = 2;

/// The disassembler's group id for relative branches.
pub const GRP_BRANCH_RELATIVE: u8 = 7;

/// One operand of a decoded instruction, as the disassembler reports it.
#[derive(Copy, Clone, Debug, PartialEq, Eq, Structural)]
pub enum Operand {
    /// A register operand, by disassembler register id.
    Reg(u16),
    /// An immediate operand.
    Imm(i64),
    /// Any other operand kind; the heuristics ignore these.
    Other,
}

/// What the disassembler reports about one decoded instruction.
#[derive(Clone, Debug)]
pub struct Insn {
    /// The disassembler's instruction id.
    pub id: u32,
    /// The operands, in operand order.
    pub operands: Vec<Operand>,
    /// The instruction groups the instruction belongs to.
    pub groups: Vec<u8>,
    /// The registers the instruction reads, by disassembler id.
    pub regs_read: Vec<u16>,
    /// The registers the instruction writes, by disassembler id.
    pub regs_write: Vec<u16>,
}

impl Insn {
    /// Whether the instruction belongs to the group `g`.
    pub open spec fn spec_has_group(&self, g: u8) -> bool {
        exists|i: int| 0 <= i < self.groups@.len() && self.groups@[i] == g
    }

    /// Tests whether the instruction belongs to the group `g`.
    pub fn has_group(&self, g: u8) -> (r: bool)
        ensures
            r == self.spec_has_group(g),
    {
        let mut i: usize = 0;
        while i < self.groups.len()
            invariant
                i <= self.groups@.len(),
                forall|j: int| 0 <= j < i ==> self.groups@[j] != g,
            decreases self.groups@.len() - i,
        {
            if self.groups[i] == g {
                return true;
            }
            i = i + 1;
        }
        false
    }

    /// Whether some operand is the register with disassembler id `id`.
    pub open spec fn spec_has_reg_operand(&self, id: u16) -> bool {
        exists|i: int| 0 <= i < self.operands@.len() && self.operands@[i] == Operand::Reg(id)
    }

    /// Tests whether some operand is the register with disassembler id
    /// `id`.
    pub fn has_reg_operand(&self, id: u16) -> (r: bool)
        ensures
            r == self.spec_has_reg_operand(id),
    {
        let mut i: usize = 0;
        while i < self.operands.len()
            invariant
                i <= self.operands@.len(),
                forall|j: int| 0 <= j < i ==> self.operands@[j] != Operand::Reg(id),
            decreases self.operands@.len() - i,
        {
            if self.operands[i] == Operand::Reg(id) {
                return true;
            }
            i = i + 1;
        }
        false
    }
}

} // verus!
