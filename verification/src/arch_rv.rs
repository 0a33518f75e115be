//! The RISC-V architecture rules.
//!
//! RISC-V's DWARF numbering overlaps the CSR and integer-register spaces
//! and the GDB protocol numbering differs again, so both are computed from
//! the native id rather than stored.  Locating the running task prefers a
//! named pointer symbol and falls back to a scratch control register chosen
//! by whether the target declares supervisor-mode support.

use crate::arch::{readreg, spec_member_word, StructLayout};
use crate::errors::Error;
use crate::insn::{Insn, Operand, RISCV_INS_C_SW, RISCV_INS_ECALL, RISCV_INS_SW};
use crate::regmap::RegMap;
use crate::regs::Register;
use crate::regs_rv::RVRegister;
use vstd::prelude::*;

verus! {

/// The RISC-V architecture rules.
#[derive(Clone, Debug)]
pub struct RVArch {
    /// The ELF `EI_CLASS` of the target image.
    pub ei_class: u8,
}

impl RVArch {
    /// The RISC-V rules for a target of the given ELF class.
    pub fn new(ei_class: u8) -> (r: Self)
        ensures
            r.ei_class == ei_class,
    {
        Self { ei_class }
    }

    /// The ELF `e_machine` value of RISC-V.
    pub fn get_e_machine(&self) -> (r: u16)
        ensures
            r == crate::arch::EM_RISCV,
    {
        crate::arch::EM_RISCV
    }

    /// The ELF `EI_CLASS` value of the target image.
    pub fn get_ei_class(&self) -> (r: u8)
        ensures
            r == self.ei_class,
    {
        self.ei_class
    }

    /// The width of a machine word, in bits.
    pub fn get_abi_size(&self) -> (r: u8)
        requires
            self.ei_class == crate::arch::ELFCLASS32 || self.ei_class == crate::arch::ELFCLASS64,
        ensures
            r == (if self.ei_class == crate::arch::ELFCLASS32 {
                32u8
            } else {
                64u8
            }),
    {
        if self.ei_class == crate::arch::ELFCLASS32 {
            32
        } else {
            64
        }
    }

    /// The disassembler id of the syscall-trap instruction.
    pub fn get_syscall_insn(&self) -> (r: u32)
        ensures
            r == RISCV_INS_ECALL,
    {
        RISCV_INS_ECALL
    }

    /// The register holding the return address of a function call.
    pub fn get_ret_reg(&self) -> (r: Register)
        ensures
            r == Register::RiscV(RVRegister::RA),
    {
        Register::RiscV(RVRegister::RA)
    }

    /// The stack-pointer register.
    pub fn get_sp(&self) -> (r: Register)
        ensures
            r == Register::RiscV(RVRegister::SP),
    {
        Register::RiscV(RVRegister::SP)
    }

    /// The program-counter register.
    pub fn get_pc(&self) -> (r: Register)
        ensures
            r == Register::RiscV(RVRegister::PC),
    {
        Register::RiscV(RVRegister::PC)
    }

    /// Returns the integer general-purpose registers, in enumeration
    /// order.
    pub fn get_all_gpr(&self) -> (r: Vec<Register>)
        ensures
            r@ == rv_gpr_list_spec(),
            forall|i: int| 0 <= i < r@.len() ==> (#[trigger] r@[i]).spec_is_general_purpose(),
    {
        let mut v: Vec<Register> = Vec::new();
        v.push(Register::RiscV(RVRegister::ZERO));
        v.push(Register::RiscV(RVRegister::RA));
        v.push(Register::RiscV(RVRegister::SP));
        v.push(Register::RiscV(RVRegister::GP));
        v.push(Register::RiscV(RVRegister::TP));
        v.push(Register::RiscV(RVRegister::T0));
        v.push(Register::RiscV(RVRegister::T1));
        v.push(Register::RiscV(RVRegister::T2));
        v.push(Register::RiscV(RVRegister::S0));
        v.push(Register::RiscV(RVRegister::S1));
        v.push(Register::RiscV(RVRegister::A0));
        v.push(Register::RiscV(RVRegister::A1));
        v.push(Register::RiscV(RVRegister::A2));
        v.push(Register::RiscV(RVRegister::A3));
        v.push(Register::RiscV(RVRegister::A4));
        v.push(Register::RiscV(RVRegister::A5));
        v.push(Register::RiscV(RVRegister::A6));
        v.push(Register::RiscV(RVRegister::A7));
        v.push(Register::RiscV(RVRegister::S2));
        v.push(Register::RiscV(RVRegister::S3));
        v.push(Register::RiscV(RVRegister::S4));
        v.push(Register::RiscV(RVRegister::S5));
        v.push(Register::RiscV(RVRegister::S6));
        v.push(Register::RiscV(RVRegister::S7));
        v.push(Register::RiscV(RVRegister::S8));
        v.push(Register::RiscV(RVRegister::S9));
        v.push(Register::RiscV(RVRegister::S10));
        v.push(Register::RiscV(RVRegister::S11));
        v.push(Register::RiscV(RVRegister::T3));
        v.push(Register::RiscV(RVRegister::T4));
        v.push(Register::RiscV(RVRegister::T5));
        v.push(Register::RiscV(RVRegister::T6));
        proof {
            assert(v@ =~= rv_gpr_list_spec());
        }
        v
    }

    /// The scratch control register that carries the running-task pointer
    /// when the named pointer symbol is absent: the supervisor scratch
    /// register on targets that declare supervisor-mode support, else the
    /// machine scratch register.
    pub fn current_task_register(&self, s_mode: bool) -> (r: Register)
        ensures
            r == (if s_mode {
                Register::RiscV(RVRegister::SSCRATCH)
            } else {
                Register::RiscV(RVRegister::MSCRATCH)
            }),
    {
        if s_mode {
            Register::RiscV(RVRegister::SSCRATCH)
        } else {
            Register::RiscV(RVRegister::MSCRATCH)
        }
    }

    /// Looks up a register by DWARF number.
    pub fn register_from_dwarf_id(&self, id: u32) -> (r: Result<Register, Error>)
        ensures
            match r {
                Ok(reg) => RVRegister::spec_from_dwarf_id(id) matches Some(rv) && reg
                    == Register::RiscV(rv),
                Err(e) => RVRegister::spec_from_dwarf_id(id) is None && e == Error::UnknownDwarfId(
                    id,
                ),
            },
    {
        match RVRegister::from_dwarf_id(id) {
            Some(reg) => Ok(Register::RiscV(reg)),
            None => Err(Error::UnknownDwarfId(id)),
        }
    }

    /// Looks up a register by native selector id.
    pub fn register_from_id(&self, id: u32) -> (r: Result<Register, Error>)
        ensures
            match r {
                Ok(reg) => id <= u16::MAX && (RVRegister::spec_from_id(id as u16) matches Some(rv)
                    && reg == Register::RiscV(rv)),
                Err(e) => (id > u16::MAX || RVRegister::spec_from_id(id as u16) is None) && e
                    == Error::UnknownRegisterId(id),
            },
    {
        if id > 0xffff {
            return Err(Error::UnknownRegisterId(id));
        }
        match RVRegister::from_id(id as u16) {
            Some(reg) => Ok(Register::RiscV(reg)),
            None => Err(Error::UnknownRegisterId(id)),
        }
    }

    /// The register carrying syscall argument `arg_number`: A0 and up.
    pub fn get_syscall_register(&self, arg_number: u8) -> (r: Result<Register, Error>)
        ensures
            match r {
                Ok(reg) => arg_number <= 8 && (RVRegister::spec_from_id(
                    (0x100a + arg_number) as u16,
                ) matches Some(rv) && reg == Register::RiscV(rv)),
                Err(e) => arg_number > 8 && e == Error::BadSyscallArg(arg_number),
            },
    {
        if arg_number > 8 {
            return Err(Error::BadSyscallArg(arg_number));
        }
        match RVRegister::from_id(0x100a + arg_number as u16) {
            Some(reg) => Ok(Register::RiscV(reg)),
            None => {
                proof {
                    assert(false);
                }
                Err(Error::BadSyscallArg(arg_number))
            },
        }
    }

    /// The chip name handed to the probe driver when no explicit chip was
    /// given.
    pub fn get_generic_chip(&self) -> (r: String)
        ensures
            r@ == "riscv"@,
    {
        "riscv".to_owned()
    }

    /// Branch classification serves trace decoding, which only ARM
    /// supports; on RISC-V nothing is classified.
    pub fn instr_branch_target(&self, _instr: &Insn) -> (r: Option<crate::arch::BranchTarget>)
        ensures
            r is None,
    {
        None
    }

    /// The operand registers of a decoded instruction, in operand order.
    pub fn instr_operands(&self, instr: &Insn) -> (r: Result<Vec<Register>, Error>)
        ensures
            match r {
                Ok(v) => rv_operand_regs(instr.operands@) matches Ok(s) && v@ == s,
                Err(e) => rv_operand_regs(instr.operands@) matches Err(e2) && e == e2,
            },
    {
        let mut v: Vec<Register> = Vec::new();
        let mut i: usize = 0;
        proof {
            assert(instr.operands@.take(0) =~= Seq::<Operand>::empty());
        }
        while i < instr.operands.len()
            invariant
                i <= instr.operands@.len(),
                rv_operand_regs(instr.operands@.take(i as int)) matches Ok(s) && v@ == s,
            decreases instr.operands@.len() - i,
        {
            proof {
                assert(instr.operands@.take(i + 1).drop_last() =~= instr.operands@.take(i as int));
                assert(instr.operands@.take(i + 1).last() == instr.operands@[i as int]);
            }
            match instr.operands[i] {
                Operand::Reg(id) => {
                    match RVRegister::from_disasm_id(id) {
                        Some(reg) => {
                            v.push(Register::RiscV(reg));
                        },
                        None => {
                            proof {
                                lemma_rv_operand_regs_err(instr.operands@, i + 1);
                            }
                            return Err(Error::UnknownDisasmId(id as u32));
                        },
                    }
                },
                _ => {},
            }
            i = i + 1;
        }
        proof {
            assert(instr.operands@.take(instr.operands@.len() as int) =~= instr.operands@);
        }
        Ok(v)
    }

    /// Recovers, from the instruction window preceding a syscall trap, the
    /// order in which registers were stored: each store-word instruction's
    /// operand registers are taken in reverse operand order; the result is
    /// in stack addressing order.  A best-effort heuristic, not a sound
    /// analysis.
    pub fn presyscall_pushes(&self, instrs: &[Insn]) -> (r: Result<Vec<Register>, Error>)
        ensures
            match r {
                Ok(v) => rv_presyscall_spec(instrs@) matches Ok(s) && v@ == s,
                Err(e) => rv_presyscall_spec(instrs@) matches Err(e2) && e == e2,
            },
    {
        let mut rval: Vec<Register> = Vec::new();
        let mut i: usize = 0;
        proof {
            assert(instrs@.take(0) =~= Seq::<Insn>::empty());
        }
        while i < instrs.len()
            invariant
                i <= instrs@.len(),
                rv_push_fold(instrs@.take(i as int)) matches Ok(s) && s == rval@,
            decreases instrs@.len() - i,
        {
            proof {
                assert(instrs@.take(i + 1).drop_last() =~= instrs@.take(i as int));
                assert(instrs@.take(i + 1).last() == instrs@[i as int]);
            }
            let insn = &instrs[i];
            if insn.id == RISCV_INS_SW || insn.id == RISCV_INS_C_SW {
                let ops = match self.instr_operands(insn) {
                    Ok(o) => o,
                    Err(e) => {
                        proof {
                            lemma_rv_push_fold_err(instrs@, i + 1);
                        }
                        return Err(e);
                    },
                };
                let ghost stack0 = rval@;
                let ghost opsv = ops@;
                let mut k: usize = ops.len();
                proof {
                    assert(rval@ =~= stack0 + Seq::new(
                        (opsv.len() - k) as nat,
                        |j: int| opsv[opsv.len() - 1 - j],
                    ));
                }
                while k > 0
                    invariant
                        k <= opsv.len(),
                        ops@ == opsv,
                        rval@ == stack0 + Seq::new(
                            (opsv.len() - k) as nat,
                            |j: int| opsv[opsv.len() - 1 - j],
                        ),
                    decreases k,
                {
                    k = k - 1;
                    rval.push(ops[k]);
                    proof {
                        assert(rval@ =~= stack0 + Seq::new(
                            (opsv.len() - k) as nat,
                            |j: int| opsv[opsv.len() - 1 - j],
                        ));
                    }
                }
            }
            i = i + 1;
        }
        proof {
            assert(instrs@.take(instrs@.len() as int) =~= instrs@);
        }
        let mut out: Vec<Register> = Vec::new();
        let mut k: usize = rval.len();
        while k > 0
            invariant
                k <= rval@.len(),
                out@ == rval@.skip(k as int).reverse(),
            decreases k,
        {
            k = k - 1;
            out.push(rval[k]);
            proof {
                assert(out@ =~= rval@.skip(k as int).reverse());
            }
        }
        proof {
            assert(rval@.skip(0) =~= rval@);
        }
        Ok(out)
    }
}

impl RVArch {
    /// Recovers the register state a task saved across a syscall trap.  On
    /// RISC-V every register is saved in the structure, so each register
    /// whose name the layout carries is read at its offset; registers the
    /// layout does not name are skipped, never an error.
    pub fn read_saved_task_regs(&self, regs: &[u8], state: &StructLayout) -> (r: Result<
        RegMap,
        Error,
    >)
        ensures
            r matches Ok(m) && m@ == rv_saved_map(
                regs@,
                state@,
                crate::regs_rv::rv_register_list_spec(),
            ),
    {
        let all = crate::regs_rv::get_all_registers();
        let mut rval = RegMap::new();
        let mut i: usize = 0;
        proof {
            assert(all@.take(0) =~= Seq::<Register>::empty());
        }
        while i < all.len()
            invariant
                i <= all@.len(),
                all@ == crate::regs_rv::rv_register_list_spec(),
                rval@ == rv_saved_map(regs@, state@, all@.take(i as int)),
            decreases all@.len() - i,
        {
            proof {
                assert(all@.take(i + 1).drop_last() =~= all@.take(i as int));
                assert(all@.take(i + 1).last() == all@[i as int]);
            }
            let reg = all[i];
            match readreg(reg.name(), regs, state) {
                Ok(v) => {
                    rval.insert(reg, v);
                },
                Err(_) => {},
            }
            i = i + 1;
        }
        proof {
            assert(all@.take(all@.len() as int) =~= all@);
        }
        Ok(rval)
    }
}

/// The register state RISC-V saved-state recovery reconstructs: for each
/// register of the list, in order, the word stored under the register's
/// name, where the layout names it.
pub open spec fn rv_saved_map(
    regs: Seq<u8>,
    layout: Map<Seq<char>, u32>,
    list: Seq<Register>,
) -> Map<Register, u32>
    decreases list.len(),
{
    if list.len() == 0 {
        Map::empty()
    } else {
        let m = rv_saved_map(regs, layout, list.drop_last());
        match spec_member_word(regs, layout, list.last().spec_name()) {
            Some(v) => m.insert(list.last(), v),
            None => m,
        }
    }
}

/// The single source and target register of a decoded instruction, as the
/// disassembler reports them; fails when several are reported.
pub open spec fn rv_source_target(insn: Insn) -> Result<
    (Option<Register>, Option<Register>),
    Error,
> {
    if insn.regs_read@.len() > 1 || insn.regs_write@.len() > 1 {
        Err(Error::MultipleRegisters)
    } else {
        let src = if insn.regs_read@.len() == 0 {
            Ok(None)
        } else {
            match RVRegister::spec_from_disasm_id(insn.regs_read@[0]) {
                Some(r) => Ok(Some(Register::RiscV(r))),
                None => Err(Error::UnknownDisasmId(insn.regs_read@[0] as u32)),
            }
        };
        let tgt = if insn.regs_write@.len() == 0 {
            Ok(None)
        } else {
            match RVRegister::spec_from_disasm_id(insn.regs_write@[0]) {
                Some(r) => Ok(Some(Register::RiscV(r))),
                None => Err(Error::UnknownDisasmId(insn.regs_write@[0] as u32)),
            }
        };
        match src {
            Ok(s) => match tgt {
                Ok(t) => Ok((s, t)),
                Err(e) => Err(e),
            },
            Err(e) => Err(e),
        }
    }
}

/// Extracts the single source and target register the disassembler
/// reports for a RISC-V instruction.
pub fn rv_instr_source_target(insn: &Insn) -> (r: Result<
    (Option<Register>, Option<Register>),
    Error,
>)
    ensures
        r == rv_source_target(*insn),
{
    if insn.regs_read.len() > 1 || insn.regs_write.len() > 1 {
        return Err(Error::MultipleRegisters);
    }
    let src = if insn.regs_read.len() == 0 {
        None
    } else {
        match RVRegister::from_disasm_id(insn.regs_read[0]) {
            Some(r) => Some(Register::RiscV(r)),
            None => {
                return Err(Error::UnknownDisasmId(insn.regs_read[0] as u32));
            },
        }
    };
    let tgt = if insn.regs_write.len() == 0 {
        None
    } else {
        match RVRegister::from_disasm_id(insn.regs_write[0]) {
            Some(r) => Some(Register::RiscV(r)),
            None => {
                return Err(Error::UnknownDisasmId(insn.regs_write[0] as u32));
            },
        }
    };
    Ok((src, tgt))
}

/// The integer general-purpose registers, in enumeration order.
pub open spec fn rv_gpr_list_spec() -> Seq<Register> {
    seq![
        Register::RiscV(RVRegister::ZERO),
        Register::RiscV(RVRegister::RA),
        Register::RiscV(RVRegister::SP),
        Register::RiscV(RVRegister::GP),
        Register::RiscV(RVRegister::TP),
        Register::RiscV(RVRegister::T0),
        Register::RiscV(RVRegister::T1),
        Register::RiscV(RVRegister::T2),
        Register::RiscV(RVRegister::S0),
        Register::RiscV(RVRegister::S1),
        Register::RiscV(RVRegister::A0),
        Register::RiscV(RVRegister::A1),
        Register::RiscV(RVRegister::A2),
        Register::RiscV(RVRegister::A3),
        Register::RiscV(RVRegister::A4),
        Register::RiscV(RVRegister::A5),
        Register::RiscV(RVRegister::A6),
        Register::RiscV(RVRegister::A7),
        Register::RiscV(RVRegister::S2),
        Register::RiscV(RVRegister::S3),
        Register::RiscV(RVRegister::S4),
        Register::RiscV(RVRegister::S5),
        Register::RiscV(RVRegister::S6),
        Register::RiscV(RVRegister::S7),
        Register::RiscV(RVRegister::S8),
        Register::RiscV(RVRegister::S9),
        Register::RiscV(RVRegister::S10),
        Register::RiscV(RVRegister::S11),
        Register::RiscV(RVRegister::T3),
        Register::RiscV(RVRegister::T4),
        Register::RiscV(RVRegister::T5),
        Register::RiscV(RVRegister::T6),
    ]
}

/// The registers named by a decoded instruction's operands, in operand
/// order; fails on a register the mapping does not cover.
pub open spec fn rv_operand_regs(ops: Seq<Operand>) -> Result<Seq<Register>, Error>
    decreases ops.len(),
{
    if ops.len() == 0 {
        Ok(Seq::empty())
    } else {
        match rv_operand_regs(ops.drop_last()) {
            Ok(pre) => match ops.last() {
                Operand::Reg(id) => match RVRegister::spec_from_disasm_id(id) {
                    Some(r) => Ok(pre.push(Register::RiscV(r))),
                    None => Err(Error::UnknownDisasmId(id as u32)),
                },
                _ => Ok(pre),
            },
            Err(e) => Err(e),
        }
    }
}

/// Once a prefix of the operand list fails, the whole list fails the same
/// way.
proof fn lemma_rv_operand_regs_err(ops: Seq<Operand>, i: int)
    requires
        0 <= i <= ops.len(),
        rv_operand_regs(ops.take(i)) is Err,
    ensures
        rv_operand_regs(ops) == rv_operand_regs(ops.take(i)),
    decreases ops.len() - i,
{
    if i < ops.len() {
        assert(ops.take(i + 1).drop_last() =~= ops.take(i));
        lemma_rv_operand_regs_err(ops, i + 1);
    } else {
        assert(ops.take(i) =~= ops);
    }
}

/// One step of the store-order heuristic: a store-word instruction
/// appends its operand registers in reverse operand order.
pub open spec fn rv_push_step(stack: Seq<Register>, insn: Insn) -> Result<Seq<Register>, Error> {
    if insn.id == RISCV_INS_SW || insn.id == RISCV_INS_C_SW {
        match rv_operand_regs(insn.operands@) {
            Ok(ops) => Ok(stack + Seq::new(ops.len(), |i: int| ops[ops.len() - 1 - i])),
            Err(e) => Err(e),
        }
    } else {
        Ok(stack)
    }
}

/// The shadow stack after a run of instructions.
pub open spec fn rv_push_fold(instrs: Seq<Insn>) -> Result<Seq<Register>, Error>
    decreases instrs.len(),
{
    if instrs.len() == 0 {
        Ok(Seq::empty())
    } else {
        match rv_push_fold(instrs.drop_last()) {
            Ok(s) => rv_push_step(s, instrs.last()),
            Err(e) => Err(e),
        }
    }
}

/// Once a prefix of the instruction run fails, the whole run fails the
/// same way.
proof fn lemma_rv_push_fold_err(instrs: Seq<Insn>, i: int)
    requires
        0 <= i <= instrs.len(),
        rv_push_fold(instrs.take(i)) is Err,
    ensures
        rv_push_fold(instrs) == rv_push_fold(instrs.take(i)),
    decreases instrs.len() - i,
{
    if i < instrs.len() {
        assert(instrs.take(i + 1).drop_last() =~= instrs.take(i));
        lemma_rv_push_fold_err(instrs, i + 1);
    } else {
        assert(instrs.take(i) =~= instrs);
    }
}

/// The saved-register addressing order the store heuristic recovers: the
/// shadow stack, reversed.
pub open spec fn rv_presyscall_spec(instrs: Seq<Insn>) -> Result<Seq<Register>, Error> {
    match rv_push_fold(instrs) {
        Ok(s) => Ok(s.reverse()),
        Err(e) => Err(e),
    }
}

} // verus!
