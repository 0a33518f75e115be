//! The ARM architecture rules.
//!
//! ARM's native selector id doubles as the hardware register-selector
//! value, so most id-space conversions are the identity.  The distinctive
//! pieces live here: the exception-entry stack-realignment quirk, recovery
//! of the register state saved across a syscall trap, the
//! push-order heuristic for syscall stubs, and the branch classifier used
//! for trace decoding.

use crate::arch::{readreg, spec_member_word, BranchTarget, StructLayout};
use crate::errors::Error;
use crate::insn::{
    Insn,
    Operand,
    ARM_INS_MOV,
    ARM_INS_POP,
    ARM_INS_PUSH,
    ARM_INS_SVC,
    GRP_BRANCH_RELATIVE,
    GRP_CALL,
    GRP_JUMP,
};
use crate::regmap::{RegMap, RegRegMap};
use crate::regs::Register;
use crate::regs_arm::{register_from_id, spec_register_from_id, ARMRegister};
use crate::uhsize::UhSize;
use vstd::prelude::*;

verus! {

/// The disassembler's id of the ARM link register.
pub const ARM_DISASM_LR: u16 = 10;

/// The disassembler's id of the ARM program counter.
pub const ARM_DISASM_PC: u16 = 11;

/// The ARM architecture rules.
#[derive(Clone, Debug)]
pub struct ARMArch {}

impl Default for ARMArch {
    /// The ARM rules.
    fn default() -> (r: Self) {
        Self {}
    }
}

impl ARMArch {
    /// The ARM rules.
    pub fn new() -> (r: Self) {
        Self {}
    }

    /// On exception entry the hardware may force 4-byte stack realignment,
    /// flagged by bit 9 of the saved status register; the unwinder must add
    /// that adjustment back.  Returns the adjustment the recovered register
    /// set calls for.
    pub fn exception_stack_realign(regs: &RegMap) -> (r: u32)
        ensures
            r == spec_realign_of(regs@),
    {
        if let Some(psr) = regs.get(Register::Arm(ARMRegister::PSR)) {
            if psr & 0x200 != 0 {
                return 4;
            }
        }
        0
    }

    /// The ELF `e_machine` value of ARM.
    pub fn get_e_machine(&self) -> (r: u16)
        ensures
            r == crate::arch::EM_ARM,
    {
        crate::arch::EM_ARM
    }

    /// The ELF `EI_CLASS` value: ARM targets are 32-bit.
    pub fn get_ei_class(&self) -> (r: u8)
        ensures
            r == crate::arch::ELFCLASS32,
    {
        crate::arch::ELFCLASS32
    }

    /// The width of a machine word, in bits.
    pub fn get_abi_size(&self) -> (r: u8)
        ensures
            r == 32,
    {
        32
    }

    /// The disassembler id of the syscall-trap instruction.
    pub fn get_syscall_insn(&self) -> (r: u32)
        ensures
            r == ARM_INS_SVC,
    {
        ARM_INS_SVC
    }

    /// The register holding the return address of a function call.
    pub fn get_ret_reg(&self) -> (r: Register)
        ensures
            r == Register::Arm(ARMRegister::LR),
    {
        Register::Arm(ARMRegister::LR)
    }

    /// The stack-pointer register.
    pub fn get_sp(&self) -> (r: Register)
        ensures
            r == Register::Arm(ARMRegister::SP),
    {
        Register::Arm(ARMRegister::SP)
    }

    /// The program-counter register.
    pub fn get_pc(&self) -> (r: Register)
        ensures
            r == Register::Arm(ARMRegister::PC),
    {
        Register::Arm(ARMRegister::PC)
    }

    /// Returns the general-purpose registers, in enumeration order.
    pub fn get_all_gpr(&self) -> (r: Vec<Register>)
        ensures
            r@ == arm_gpr_list_spec(),
            forall|i: int| 0 <= i < r@.len() ==> (#[trigger] r@[i]).spec_is_general_purpose(),
    {
        let mut v: Vec<Register> = Vec::new();
        v.push(Register::Arm(ARMRegister::R0));
        v.push(Register::Arm(ARMRegister::R1));
        v.push(Register::Arm(ARMRegister::R2));
        v.push(Register::Arm(ARMRegister::R3));
        v.push(Register::Arm(ARMRegister::R4));
        v.push(Register::Arm(ARMRegister::R5));
        v.push(Register::Arm(ARMRegister::R6));
        v.push(Register::Arm(ARMRegister::R7));
        v.push(Register::Arm(ARMRegister::R8));
        v.push(Register::Arm(ARMRegister::R9));
        v.push(Register::Arm(ARMRegister::R10));
        v.push(Register::Arm(ARMRegister::R11));
        v.push(Register::Arm(ARMRegister::R12));
        v.push(Register::Arm(ARMRegister::SP));
        v.push(Register::Arm(ARMRegister::LR));
        v.push(Register::Arm(ARMRegister::PC));
        proof {
            assert(v@ =~= arm_gpr_list_spec());
        }
        v
    }

    /// Looks up a register by DWARF number; on ARM the DWARF number is the
    /// native selector id.
    pub fn register_from_dwarf_id(&self, id: u32) -> (r: Result<Register, Error>)
        ensures
            match r {
                Ok(reg) => spec_register_from_id(id) == Some(reg),
                Err(e) => spec_register_from_id(id) is None && e == Error::UnknownDwarfId(id),
            },
    {
        match register_from_id(id) {
            Some(reg) => Ok(reg),
            None => Err(Error::UnknownDwarfId(id)),
        }
    }

    /// Looks up a register by native selector id.
    pub fn register_from_id(&self, id: u32) -> (r: Result<Register, Error>)
        ensures
            match r {
                Ok(reg) => spec_register_from_id(id) == Some(reg),
                Err(e) => spec_register_from_id(id) is None && e == Error::UnknownRegisterId(id),
            },
    {
        match register_from_id(id) {
            Some(reg) => Ok(reg),
            None => Err(Error::UnknownRegisterId(id)),
        }
    }

    /// The register carrying syscall argument `arg_number`: R4 and up.
    pub fn get_syscall_register(&self, arg_number: u8) -> (r: Result<Register, Error>)
        ensures
            match r {
                Ok(reg) => arg_number <= 8 && Some(reg) == spec_register_from_id(
                    (4 + arg_number) as u32,
                ),
                Err(e) => arg_number > 8 && e == Error::BadSyscallArg(arg_number),
            },
    {
        if arg_number > 8 {
            return Err(Error::BadSyscallArg(arg_number));
        }
        match register_from_id(4 + arg_number as u32) {
            Some(reg) => Ok(reg),
            None => {
                proof {
                    assert(false);
                }
                Err(Error::BadSyscallArg(arg_number))
            },
        }
    }

    /// The chip name handed to the probe driver when no explicit chip was
    /// given.
    pub fn get_generic_chip(&self) -> (r: String)
        ensures
            r@ == "armv7m"@,
    {
        "armv7m".to_owned()
    }

    /// Clears the thumb bit a function pointer carries.
    pub fn extract_fn_pointer(&self, data: &mut UhSize)
        ensures
            final(data).bits == old(data).bits,
            final(data).data == old(data).data & !1u64,
    {
        data.data = data.data & !1u64;
    }

    /// The operand registers of a decoded instruction, in operand order.
    pub fn instr_operands(&self, instr: &Insn) -> (r: Result<Vec<Register>, Error>)
        ensures
            match r {
                Ok(v) => arm_operand_regs(instr.operands@) matches Ok(s) && v@ == s,
                Err(e) => arm_operand_regs(instr.operands@) matches Err(e2) && e == e2,
            },
    {
        let mut v: Vec<Register> = Vec::new();
        let mut i: usize = 0;
        proof {
            assert(instr.operands@.take(0) =~= Seq::<Operand>::empty());
        }
        while i < instr.operands.len()
            invariant
                i <= instr.operands@.len(),
                arm_operand_regs(instr.operands@.take(i as int)) matches Ok(s) && v@ == s,
            decreases instr.operands@.len() - i,
        {
            proof {
                assert(instr.operands@.take(i + 1).drop_last() =~= instr.operands@.take(i as int));
                assert(instr.operands@.take(i + 1).last() == instr.operands@[i as int]);
            }
            match instr.operands[i] {
                Operand::Reg(id) => {
                    match ARMRegister::from_disasm_id(id) {
                        Some(reg) => {
                            v.push(Register::Arm(reg));
                        },
                        None => {
                            proof {
                                lemma_arm_operand_regs_err(instr.operands@, i + 1);
                            }
                            return Err(Error::UnknownDisasmId(id as u32));
                        },
                    }
                },
                _ => {},
            }
            i = i + 1;
        }
        proof {
            assert(instr.operands@.take(instr.operands@.len() as int) =~= instr.operands@);
        }
        Ok(v)
    }
}

/// The general-purpose registers, in enumeration order.
pub open spec fn arm_gpr_list_spec() -> Seq<Register> {
    seq![
        Register::Arm(ARMRegister::R0),
        Register::Arm(ARMRegister::R1),
        Register::Arm(ARMRegister::R2),
        Register::Arm(ARMRegister::R3),
        Register::Arm(ARMRegister::R4),
        Register::Arm(ARMRegister::R5),
        Register::Arm(ARMRegister::R6),
        Register::Arm(ARMRegister::R7),
        Register::Arm(ARMRegister::R8),
        Register::Arm(ARMRegister::R9),
        Register::Arm(ARMRegister::R10),
        Register::Arm(ARMRegister::R11),
        Register::Arm(ARMRegister::R12),
        Register::Arm(ARMRegister::SP),
        Register::Arm(ARMRegister::LR),
        Register::Arm(ARMRegister::PC),
    ]
}

/// The realignment adjustment a recovered register set calls for: 4 when
/// bit 9 of the recovered status register is set, else 0.
pub open spec fn spec_realign_of(m: Map<Register, u32>) -> u32 {
    if m.contains_key(Register::Arm(ARMRegister::PSR)) && m[Register::Arm(ARMRegister::PSR)]
        & 0x200 != 0 {
        4
    } else {
        0
    }
}

/// The registers named by a decoded instruction's operands, in operand
/// order; fails on a register the mapping does not cover.
pub open spec fn arm_operand_regs(ops: Seq<Operand>) -> Result<Seq<Register>, Error>
    decreases ops.len(),
{
    if ops.len() == 0 {
        Ok(Seq::empty())
    } else {
        match arm_operand_regs(ops.drop_last()) {
            Ok(pre) => match ops.last() {
                Operand::Reg(id) => match ARMRegister::spec_from_disasm_id(id) {
                    Some(r) => Ok(pre.push(Register::Arm(r))),
                    None => Err(Error::UnknownDisasmId(id as u32)),
                },
                _ => Ok(pre),
            },
            Err(e) => Err(e),
        }
    }
}

/// Once a prefix of the operand list fails, the whole list fails the same
/// way.
proof fn lemma_arm_operand_regs_err(ops: Seq<Operand>, i: int)
    requires
        0 <= i <= ops.len(),
        arm_operand_regs(ops.take(i)) is Err,
    ensures
        arm_operand_regs(ops) == arm_operand_regs(ops.take(i)),
    decreases ops.len() - i,
{
    if i < ops.len() {
        assert(ops.take(i + 1).drop_last() =~= ops.take(i));
        lemma_arm_operand_regs_err(ops, i + 1);
    } else {
        assert(ops.take(i) =~= ops);
    }
}

/// The single source and target register of a decoded instruction, as the
/// disassembler reports them; fails when several are reported.
pub open spec fn arm_source_target(insn: Insn) -> Result<
    (Option<Register>, Option<Register>),
    Error,
> {
    if insn.regs_read@.len() > 1 || insn.regs_write@.len() > 1 {
        Err(Error::MultipleRegisters)
    } else {
        let src = if insn.regs_read@.len() == 0 {
            Ok(None)
        } else {
            match ARMRegister::spec_from_disasm_id(insn.regs_read@[0]) {
                Some(r) => Ok(Some(Register::Arm(r))),
                None => Err(Error::UnknownDisasmId(insn.regs_read@[0] as u32)),
            }
        };
        let tgt = if insn.regs_write@.len() == 0 {
            Ok(None)
        } else {
            match ARMRegister::spec_from_disasm_id(insn.regs_write@[0]) {
                Some(r) => Ok(Some(Register::Arm(r))),
                None => Err(Error::UnknownDisasmId(insn.regs_write@[0] as u32)),
            }
        };
        match src {
            Ok(s) => match tgt {
                Ok(t) => Ok((s, t)),
                Err(e) => Err(e),
            },
            Err(e) => Err(e),
        }
    }
}

/// Extracts the single source and target register the disassembler reports
/// for an ARM instruction.
pub fn arm_instr_source_target(insn: &Insn) -> (r: Result<
    (Option<Register>, Option<Register>),
    Error,
>)
    ensures
        r == arm_source_target(*insn),
{
    if insn.regs_read.len() > 1 || insn.regs_write.len() > 1 {
        return Err(Error::MultipleRegisters);
    }
    let src = if insn.regs_read.len() == 0 {
        None
    } else {
        match ARMRegister::from_disasm_id(insn.regs_read[0]) {
            Some(r) => Some(Register::Arm(r)),
            None => {
                return Err(Error::UnknownDisasmId(insn.regs_read[0] as u32));
            },
        }
    };
    let tgt = if insn.regs_write.len() == 0 {
        None
    } else {
        match ARMRegister::from_disasm_id(insn.regs_write[0]) {
            Some(r) => Some(Register::Arm(r)),
            None => {
                return Err(Error::UnknownDisasmId(insn.regs_write[0] as u32));
            },
        }
    };
    Ok((src, tgt))
}

/// The register substituted for `r` by the move-tracking table, or `r`
/// itself.
pub open spec fn subst(map: Map<Register, Register>, r: Register) -> Register {
    if map.contains_key(r) {
        map[r]
    } else {
        r
    }
}

/// `a - b`, clamped at zero.
pub open spec fn sub_clamped(a: int, b: int) -> int {
    if a >= b {
        a - b
    } else {
        0
    }
}

/// One step of the push heuristic: moves update the substitution table,
/// pushes append the (substituted) operand registers in reverse operand
/// order, pops discard from the end.
pub open spec fn arm_push_step(
    map: Map<Register, Register>,
    stack: Seq<Register>,
    insn: Insn,
) -> Result<(Map<Register, Register>, Seq<Register>), Error> {
    if insn.id == ARM_INS_MOV {
        match arm_source_target(insn) {
            Ok(st) => if st.0 is Some && st.1 is Some {
                Ok((map.insert(st.1->0, st.0->0), stack))
            } else {
                Ok((map, stack))
            },
            Err(e) => Err(e),
        }
    } else if insn.id == ARM_INS_PUSH {
        match arm_operand_regs(insn.operands@) {
            Ok(ops) => Ok(
                (
                    map,
                    stack + Seq::new(ops.len(), |i: int| subst(map, ops[ops.len() - 1 - i])),
                ),
            ),
            Err(e) => Err(e),
        }
    } else if insn.id == ARM_INS_POP {
        match arm_operand_regs(insn.operands@) {
            Ok(ops) => Ok((map, stack.take(sub_clamped(stack.len() as int, ops.len() as int)))),
            Err(e) => Err(e),
        }
    } else {
        Ok((map, stack))
    }
}

/// The substitution table and shadow stack after a run of instructions.
pub open spec fn arm_push_fold(instrs: Seq<Insn>) -> Result<
    (Map<Register, Register>, Seq<Register>),
    Error,
>
    decreases instrs.len(),
{
    if instrs.len() == 0 {
        Ok((Map::empty(), Seq::empty()))
    } else {
        match arm_push_fold(instrs.drop_last()) {
            Ok(st) => arm_push_step(st.0, st.1, instrs.last()),
            Err(e) => Err(e),
        }
    }
}

/// Once a prefix of the instruction run fails, the whole run fails the
/// same way.
proof fn lemma_arm_push_fold_err(instrs: Seq<Insn>, i: int)
    requires
        0 <= i <= instrs.len(),
        arm_push_fold(instrs.take(i)) is Err,
    ensures
        arm_push_fold(instrs) == arm_push_fold(instrs.take(i)),
    decreases instrs.len() - i,
{
    if i < instrs.len() {
        assert(instrs.take(i + 1).drop_last() =~= instrs.take(i));
        lemma_arm_push_fold_err(instrs, i + 1);
    } else {
        assert(instrs.take(i) =~= instrs);
    }
}

/// The saved-register addressing order the push heuristic recovers: the
/// shadow stack, reversed.  This is a best-effort analysis of a bounded
/// instruction window, not a sound one.
pub open spec fn arm_presyscall_spec(instrs: Seq<Insn>) -> Result<Seq<Register>, Error> {
    match arm_push_fold(instrs) {
        Ok(st) => Ok(st.1.reverse()),
        Err(e) => Err(e),
    }
}

impl ARMArch {
    /// Recovers, from the instruction window preceding a syscall trap, the
    /// order in which registers were pushed: moves are tracked in a
    /// substitution table so that high registers staged through low ones
    /// are credited to their origin; the result is in stack addressing
    /// order.  A best-effort heuristic, not a sound analysis.
    pub fn presyscall_pushes(&self, instrs: &[Insn]) -> (r: Result<Vec<Register>, Error>)
        ensures
            match r {
                Ok(v) => arm_presyscall_spec(instrs@) matches Ok(s) && v@ == s,
                Err(e) => arm_presyscall_spec(instrs@) matches Err(e2) && e == e2,
            },
    {
        let mut map = RegRegMap::new();
        let mut rval: Vec<Register> = Vec::new();
        let mut i: usize = 0;
        proof {
            assert(instrs@.take(0) =~= Seq::<Insn>::empty());
        }
        while i < instrs.len()
            invariant
                i <= instrs@.len(),
                arm_push_fold(instrs@.take(i as int)) matches Ok(st) && st.0 == map@ && st.1
                    == rval@,
            decreases instrs@.len() - i,
        {
            proof {
                assert(instrs@.take(i + 1).drop_last() =~= instrs@.take(i as int));
                assert(instrs@.take(i + 1).last() == instrs@[i as int]);
            }
            let insn = &instrs[i];
            if insn.id == ARM_INS_MOV {
                match arm_instr_source_target(insn) {
                    Ok((Some(src), Some(tgt))) => {
                        map.insert(tgt, src);
                    },
                    Ok(_) => {},
                    Err(e) => {
                        proof {
                            lemma_arm_push_fold_err(instrs@, i + 1);
                        }
                        return Err(e);
                    },
                }
            } else if insn.id == ARM_INS_PUSH {
                let ops = match self.instr_operands(insn) {
                    Ok(o) => o,
                    Err(e) => {
                        proof {
                            lemma_arm_push_fold_err(instrs@, i + 1);
                        }
                        return Err(e);
                    },
                };
                let ghost map0 = map@;
                let ghost stack0 = rval@;
                let ghost opsv = ops@;
                let mut k: usize = ops.len();
                proof {
                    assert(rval@ =~= stack0 + Seq::new(
                        (opsv.len() - k) as nat,
                        |j: int| subst(map0, opsv[opsv.len() - 1 - j]),
                    ));
                }
                while k > 0
                    invariant
                        k <= opsv.len(),
                        ops@ == opsv,
                        map@ == map0,
                        rval@ == stack0 + Seq::new(
                            (opsv.len() - k) as nat,
                            |j: int| subst(map0, opsv[opsv.len() - 1 - j]),
                        ),
                    decreases k,
                {
                    k = k - 1;
                    let op = ops[k];
                    let pushed = match map.get(op) {
                        Some(s) => s,
                        None => op,
                    };
                    rval.push(pushed);
                    proof {
                        assert(rval@ =~= stack0 + Seq::new(
                            (opsv.len() - k) as nat,
                            |j: int| subst(map0, opsv[opsv.len() - 1 - j]),
                        ));
                    }
                }
            } else if insn.id == ARM_INS_POP {
                let ops = match self.instr_operands(insn) {
                    Ok(o) => o,
                    Err(e) => {
                        proof {
                            lemma_arm_push_fold_err(instrs@, i + 1);
                        }
                        return Err(e);
                    },
                };
                let ghost stack0 = rval@;
                let mut k: usize = 0;
                while k < ops.len()
                    invariant
                        k <= ops@.len(),
                        rval@ == stack0.take(sub_clamped(stack0.len() as int, k as int)),
                    decreases ops@.len() - k,
                {
                    if rval.len() > 0 {
                        rval.pop();
                    }
                    k = k + 1;
                    proof {
                        assert(rval@ =~= stack0.take(sub_clamped(stack0.len() as int, k as int)));
                    }
                }
            }
            i = i + 1;
        }
        proof {
            assert(instrs@.take(instrs@.len() as int) =~= instrs@);
        }
        let mut out: Vec<Register> = Vec::new();
        let mut k: usize = rval.len();
        while k > 0
            invariant
                k <= rval@.len(),
                out@ == rval@.skip(k as int).reverse(),
            decreases k,
        {
            k = k - 1;
            out.push(rval[k]);
            proof {
                assert(out@ =~= rval@.skip(k as int).reverse());
            }
        }
        proof {
            assert(rval@.skip(0) =~= rval@);
        }
        Ok(out)
    }

    /// Classifies a decoded instruction for trace decoding: a relative
    /// branch with an immediate operand resolves to an absolute target, a
    /// jump naming the link register is a return, a pop that writes the
    /// program counter is a return, and anything else through a register
    /// is indirect.  An operandless relative branch classifies as if no
    /// immediate were present.
    pub fn instr_branch_target(&self, instr: &Insn) -> (r: Option<BranchTarget>)
        ensures
            r == arm_branch_target(*instr),
    {
        let jump = instr.has_group(GRP_JUMP);
        let call = instr.has_group(GRP_CALL);
        let brel: Option<u32> = if instr.has_group(GRP_BRANCH_RELATIVE) && instr.operands.len()
            > 0 {
            match instr.operands[instr.operands.len() - 1] {
                Operand::Imm(a) => Some(#[verifier::truncate] (a as u32)),
                _ => None,
            }
        } else {
            None
        };
        match brel {
            Some(a) => {
                if call {
                    Some(BranchTarget::Call(a))
                } else {
                    Some(BranchTarget::Direct(a))
                }
            },
            None => {
                if call {
                    Some(BranchTarget::IndirectCall)
                } else if jump {
                    if instr.has_reg_operand(ARM_DISASM_LR) {
                        Some(BranchTarget::Return)
                    } else {
                        Some(BranchTarget::Indirect)
                    }
                } else if instr.id == ARM_INS_POP && instr.has_reg_operand(ARM_DISASM_PC) {
                    Some(BranchTarget::Return)
                } else {
                    None
                }
            },
        }
    }
}

/// The absolute target of a relative branch, when the instruction carries
/// one as its last operand.
pub open spec fn arm_brel_target(insn: Insn) -> Option<u32> {
    if insn.spec_has_group(GRP_BRANCH_RELATIVE) && insn.operands@.len() > 0 {
        match insn.operands@.last() {
            Operand::Imm(a) => Some(a as u32),
            _ => None,
        }
    } else {
        None
    }
}

/// The branch classification of a decoded instruction.
pub open spec fn arm_branch_target(insn: Insn) -> Option<BranchTarget> {
    match arm_brel_target(insn) {
        Some(a) => if insn.spec_has_group(GRP_CALL) {
            Some(BranchTarget::Call(a))
        } else {
            Some(BranchTarget::Direct(a))
        },
        None => {
            if insn.spec_has_group(GRP_CALL) {
                Some(BranchTarget::IndirectCall)
            } else if insn.spec_has_group(GRP_JUMP) {
                if insn.spec_has_reg_operand(ARM_DISASM_LR) {
                    Some(BranchTarget::Return)
                } else {
                    Some(BranchTarget::Indirect)
                }
            } else if insn.id == ARM_INS_POP && insn.spec_has_reg_operand(ARM_DISASM_PC) {
                Some(BranchTarget::Return)
            } else {
                None
            }
        },
    }
}

/// Whether the structure layout names every member ARM saved-state
/// recovery needs, at offsets inside the register block.
pub open spec fn arm_saved_regs_ok(regs: Seq<u8>, layout: Map<Seq<char>, u32>) -> bool {
    &&& spec_member_word(regs, layout, "r4"@) is Some
    &&& spec_member_word(regs, layout, "r5"@) is Some
    &&& spec_member_word(regs, layout, "r6"@) is Some
    &&& spec_member_word(regs, layout, "r7"@) is Some
    &&& spec_member_word(regs, layout, "r8"@) is Some
    &&& spec_member_word(regs, layout, "r9"@) is Some
    &&& spec_member_word(regs, layout, "r10"@) is Some
    &&& spec_member_word(regs, layout, "r11"@) is Some
    &&& spec_member_word(regs, layout, "psp"@) is Some
}

/// The 32-bit little-endian word at index `i` of the stacked exception
/// frame.
pub open spec fn stack_word(stack: Seq<u8>, i: int) -> u32 {
    vstd::bytes::spec_u32_from_le_bytes(stack.subrange(4 * i, 4 * i + 4))
}

/// How many words the hardware-pushed exception frame holds: the eight
/// core words, plus seventeen floating-point words and one alignment pad
/// when the target's build declares floating-point support.
pub open spec fn arm_frame_words(has_fp: bool) -> u32 {
    if has_fp {
        26
    } else {
        8
    }
}

/// The realignment adjustment the stacked status word calls for.
pub open spec fn spec_realign_word(psr: u32) -> u32 {
    if psr & 0x200 != 0 {
        4
    } else {
        0
    }
}

/// The register state ARM saved-state recovery reconstructs: the
/// callee-saved registers out of the saved-state structure, the
/// hardware-pushed registers out of the stacked frame, and the
/// pre-exception stack pointer recomputed from the frame size and the
/// realignment flag.
pub open spec fn arm_saved_map(
    regs: Seq<u8>,
    layout: Map<Seq<char>, u32>,
    stack: Seq<u8>,
    has_fp: bool,
) -> Map<Register, u32>
    recommends
        arm_saved_regs_ok(regs, layout),
{
    let psp = spec_member_word(regs, layout, "psp"@)->0;
    Map::empty().insert(Register::Arm(ARMRegister::R4), spec_member_word(regs, layout, "r4"@)->0)
        .insert(Register::Arm(ARMRegister::R5), spec_member_word(regs, layout, "r5"@)->0)
        .insert(Register::Arm(ARMRegister::R6), spec_member_word(regs, layout, "r6"@)->0)
        .insert(Register::Arm(ARMRegister::R7), spec_member_word(regs, layout, "r7"@)->0)
        .insert(Register::Arm(ARMRegister::R8), spec_member_word(regs, layout, "r8"@)->0)
        .insert(Register::Arm(ARMRegister::R9), spec_member_word(regs, layout, "r9"@)->0)
        .insert(Register::Arm(ARMRegister::R10), spec_member_word(regs, layout, "r10"@)->0)
        .insert(Register::Arm(ARMRegister::R11), spec_member_word(regs, layout, "r11"@)->0)
        .insert(Register::Arm(ARMRegister::R0), stack_word(stack, 0))
        .insert(Register::Arm(ARMRegister::R1), stack_word(stack, 1))
        .insert(Register::Arm(ARMRegister::R2), stack_word(stack, 2))
        .insert(Register::Arm(ARMRegister::R3), stack_word(stack, 3))
        .insert(Register::Arm(ARMRegister::R12), stack_word(stack, 4))
        .insert(Register::Arm(ARMRegister::LR), stack_word(stack, 5))
        .insert(Register::Arm(ARMRegister::PC), stack_word(stack, 6))
        .insert(Register::Arm(ARMRegister::PSR), stack_word(stack, 7))
        .insert(
        Register::Arm(ARMRegister::SP),
        (psp + arm_frame_words(has_fp) * 4 + spec_realign_word(stack_word(stack, 7))) as u32,
    )
}

impl ARMArch {
    /// Recovers the register state a task saved across a syscall trap: the
    /// callee-saved registers live in the saved-state structure, the rest
    /// were pushed by hardware onto the exception stack, whose first eight
    /// words the caller hands in; the pre-exception stack pointer is
    /// recomputed by peeling the whole frame off, plus the realignment
    /// adjustment the stacked status word calls for.
    pub fn read_saved_task_regs(
        &self,
        regs: &[u8],
        state: &StructLayout,
        stack: &[u8],
        has_fp: bool,
    ) -> (r: Result<RegMap, Error>)
        requires
            stack@.len() >= 32,
            spec_member_word(regs@, state@, "psp"@) matches Some(p) ==> p + arm_frame_words(has_fp)
                * 4 + spec_realign_word(stack_word(stack@, 7)) <= u32::MAX,
        ensures
            match r {
                Ok(m) => arm_saved_regs_ok(regs@, state@) && m@ == arm_saved_map(
                    regs@,
                    state@,
                    stack@,
                    has_fp,
                ),
                Err(e) => !arm_saved_regs_ok(regs@, state@) && (e == Error::MemberNotFound || e
                    == Error::MemberOutOfRange),
            },
    {
        let v4 = match readreg("r4", regs, state) {
            Ok(v) => v,
            Err(e) => {
                return Err(e);
            },
        };
        let v5 = match readreg("r5", regs, state) {
            Ok(v) => v,
            Err(e) => {
                return Err(e);
            },
        };
        let v6 = match readreg("r6", regs, state) {
            Ok(v) => v,
            Err(e) => {
                return Err(e);
            },
        };
        let v7 = match readreg("r7", regs, state) {
            Ok(v) => v,
            Err(e) => {
                return Err(e);
            },
        };
        let v8 = match readreg("r8", regs, state) {
            Ok(v) => v,
            Err(e) => {
                return Err(e);
            },
        };
        let v9 = match readreg("r9", regs, state) {
            Ok(v) => v,
            Err(e) => {
                return Err(e);
            },
        };
        let v10 = match readreg("r10", regs, state) {
            Ok(v) => v,
            Err(e) => {
                return Err(e);
            },
        };
        let v11 = match readreg("r11", regs, state) {
            Ok(v) => v,
            Err(e) => {
                return Err(e);
            },
        };
        let sp = match readreg("psp", regs, state) {
            Ok(v) => v,
            Err(e) => {
                return Err(e);
            },
        };
        let mut rval = RegMap::new();
        rval.insert(Register::Arm(ARMRegister::R4), v4);
        rval.insert(Register::Arm(ARMRegister::R5), v5);
        rval.insert(Register::Arm(ARMRegister::R6), v6);
        rval.insert(Register::Arm(ARMRegister::R7), v7);
        rval.insert(Register::Arm(ARMRegister::R8), v8);
        rval.insert(Register::Arm(ARMRegister::R9), v9);
        rval.insert(Register::Arm(ARMRegister::R10), v10);
        rval.insert(Register::Arm(ARMRegister::R11), v11);
        let w0 = vstd::bytes::u32_from_le_bytes(vstd::slice::slice_subrange(stack, 0, 4));
        let w1 = vstd::bytes::u32_from_le_bytes(vstd::slice::slice_subrange(stack, 4, 8));
        let w2 = vstd::bytes::u32_from_le_bytes(vstd::slice::slice_subrange(stack, 8, 12));
        let w3 = vstd::bytes::u32_from_le_bytes(vstd::slice::slice_subrange(stack, 12, 16));
        let w4 = vstd::bytes::u32_from_le_bytes(vstd::slice::slice_subrange(stack, 16, 20));
        let w5 = vstd::bytes::u32_from_le_bytes(vstd::slice::slice_subrange(stack, 20, 24));
        let w6 = vstd::bytes::u32_from_le_bytes(vstd::slice::slice_subrange(stack, 24, 28));
        let w7 = vstd::bytes::u32_from_le_bytes(vstd::slice::slice_subrange(stack, 28, 32));
        rval.insert(Register::Arm(ARMRegister::R0), w0);
        rval.insert(Register::Arm(ARMRegister::R1), w1);
        rval.insert(Register::Arm(ARMRegister::R2), w2);
        rval.insert(Register::Arm(ARMRegister::R3), w3);
        rval.insert(Register::Arm(ARMRegister::R12), w4);
        rval.insert(Register::Arm(ARMRegister::LR), w5);
        rval.insert(Register::Arm(ARMRegister::PC), w6);
        rval.insert(Register::Arm(ARMRegister::PSR), w7);
        let nregs_frame: u32 = if has_fp {
            8 + 17 + 1
        } else {
            8
        };
        let adjust = nregs_frame * 4 + ARMArch::exception_stack_realign(&rval);
        rval.insert(Register::Arm(ARMRegister::SP), sp + adjust);
        proof {
            assert(rval@ =~= arm_saved_map(regs@, state@, stack@, has_fp));
        }
        Ok(rval)
    }
}

/// With the realignment status bit set in the stacked status word, the
/// recovered stack pointer is the raw stack pointer plus the frame size
/// plus four; with it clear, the raw stack pointer plus the frame size.
pub proof fn lemma_arm_realignment(
    regs: Seq<u8>,
    layout: Map<Seq<char>, u32>,
    stack: Seq<u8>,
    has_fp: bool,
)
    requires
        arm_saved_regs_ok(regs, layout),
    ensures
        ({
            let m = arm_saved_map(regs, layout, stack, has_fp);
            let raw_sp = spec_member_word(regs, layout, "psp"@)->0;
            let frame_size = arm_frame_words(has_fp) * 4;
            let psr = stack_word(stack, 7);
            &&& (psr & 0x200 != 0 ==> m[Register::Arm(ARMRegister::SP)] == ((raw_sp + frame_size
                + 4) as u32))
            &&& (psr & 0x200 == 0 ==> m[Register::Arm(ARMRegister::SP)] == ((raw_sp
                + frame_size) as u32))
        }),
{
}

/// The always-readable address windows of ARM targets: the private
/// peripheral bus at 0xe000_0000, one megabyte long, holds the control
/// registers and can be read without halting the core.
pub fn unhalted_read_regions() -> (r: Vec<(u32, u32)>)
    ensures
        r@ == seq![(0xe000_0000u32, 0x0010_0000u32)],
{
    let mut v: Vec<(u32, u32)> = Vec::new();
    v.push((0xe000_0000, 0x0010_0000));
    proof {
        assert(v@ =~= seq![(0xe000_0000u32, 0x0010_0000u32)]);
    }
    v
}

} // verus!
