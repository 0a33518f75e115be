//! The architecture abstraction shared by ARM and RISC-V.
//!
//! An [`Arch`] is chosen once from the target image's machine and class
//! fields and selects the architecture's rules for the rest of the session:
//! register enumeration, id-space conversions, syscall ABI, and the
//! saved-state recovery used when unwinding through syscall stubs.  The two
//! implementations form a closed set, so the abstraction is a tagged
//! variant rather than open-ended dispatch.

use crate::arch_arm::ARMArch;
use crate::arch_rv::RVArch;
use crate::errors::Error;
use crate::insn::Insn;
use crate::regmap::RegMap;
use crate::regs::Register;
use crate::uhsize::UhSize;
use crate::util::str_eq;
use vstd::prelude::*;

verus! {

/// The ELF `e_machine` value of ARM.
pub const EM_ARM: u16 = 40;

/// The ELF `e_machine` value of RISC-V.
pub const EM_RISCV: u16 = 243;

/// The ELF `EI_CLASS` value of 32-bit images.
pub const ELFCLASS32: u8 = 1;

/// The ELF `EI_CLASS` value of 64-bit images.
pub const ELFCLASS64: u8 = 2;

/// Where a branch instruction transfers control, as far as the
/// disassembler's report shows it.
#[derive(Copy, Clone, Debug, PartialEq, Eq, Structural)]
pub enum BranchTarget {
    /// A call with a resolved absolute target.
    Call(u32),
    /// A direct jump with a resolved absolute target.
    Direct(u32),
    /// A call through a register.
    IndirectCall,
    /// A return to the caller.
    Return,
    /// Any other control transfer through a register.
    Indirect,
}

/// The member offsets of a saved-state structure: names paired with byte
/// offsets into the register block.  A later entry for the same name
/// overrides an earlier one.
#[derive(Clone, Debug)]
pub struct StructLayout {
    members: Vec<(String, u32)>,
}

/// The map a member list denotes; later entries win.
pub open spec fn layout_map_of(s: Seq<(String, u32)>) -> Map<Seq<char>, u32>
    decreases s.len(),
{
    if s.len() == 0 {
        Map::empty()
    } else {
        layout_map_of(s.drop_last()).insert(s.last().0@, s.last().1)
    }
}

impl View for StructLayout {
    type V = Map<Seq<char>, u32>;

    closed spec fn view(&self) -> Map<Seq<char>, u32> {
        layout_map_of(self.members@)
    }
}

impl StructLayout {
    /// An empty layout.
    pub fn new() -> (r: Self)
        ensures
            r@ == Map::<Seq<char>, u32>::empty(),
    {
        Self { members: Vec::new() }
    }

    /// Adds a member at the given byte offset.
    pub fn add_member(&mut self, name: String, offset: u32)
        ensures
            final(self)@ == old(self)@.insert(name@, offset),
    {
        self.members.push((name, offset));
        proof {
            assert(self.members@.drop_last() =~= old(self).members@);
        }
    }

    /// The byte offset of the member called `name`, if present.
    pub fn lookup_member(&self, name: &str) -> (r: Option<u32>)
        ensures
            match r {
                Some(o) => self@.contains_key(name@) && self@[name@] == o,
                None => !self@.contains_key(name@),
            },
    {
        let mut i: usize = self.members.len();
        proof {
            assert(self.members@.take(i as int) =~= self.members@);
        }
        while i > 0
            invariant
                i <= self.members@.len(),
                layout_map_of(self.members@).contains_key(name@) == layout_map_of(
                    self.members@.take(i as int),
                ).contains_key(name@),
                layout_map_of(self.members@).contains_key(name@) ==> layout_map_of(
                    self.members@,
                )[name@] == layout_map_of(self.members@.take(i as int))[name@],
            decreases i,
        {
            i = i - 1;
            proof {
                assert(self.members@.take(i + 1).drop_last() =~= self.members@.take(i as int));
                assert(self.members@.take(i + 1).last() == self.members@[i as int]);
            }
            if str_eq(self.members[i].0.as_str(), name) {
                return Some(self.members[i].1);
            }
        }
        proof {
            assert(self.members@.take(0) =~= Seq::<(String, u32)>::empty());
        }
        None
    }
}

/// The little-endian word stored for the member called `name`, if the
/// layout names it and the register block is long enough.
pub open spec fn spec_member_word(regs: Seq<u8>, layout: Map<Seq<char>, u32>, name: Seq<char>) -> Option<
    u32,
> {
    if layout.contains_key(name) {
        let o = layout[name] as int;
        if o + 4 <= regs.len() {
            Some(vstd::bytes::spec_u32_from_le_bytes(regs.subrange(o, o + 4)))
        } else {
            None
        }
    } else {
        None
    }
}

/// Reads the saved register called `rname` out of a register block, at the
/// offset the structure layout gives it.
pub fn readreg(rname: &str, regs: &[u8], state: &StructLayout) -> (r: Result<u32, Error>)
    ensures
        match r {
            Ok(v) => spec_member_word(regs@, state@, rname@) == Some(v),
            Err(e) => {
                &&& spec_member_word(regs@, state@, rname@) is None
                &&& e == (if state@.contains_key(rname@) {
                    Error::MemberOutOfRange
                } else {
                    Error::MemberNotFound
                })
            },
        },
{
    let o = match state.lookup_member(rname) {
        Some(o) => o,
        None => {
            return Err(Error::MemberNotFound);
        },
    };
    let n = regs.len();
    if o as usize > usize::MAX - 4 || o as usize + 4 > n {
        return Err(Error::MemberOutOfRange);
    }
    let word = vstd::slice::slice_subrange(regs, o as usize, o as usize + 4);
    Ok(vstd::bytes::u32_from_le_bytes(word))
}

/// Extracts the single source and target register the disassembler
/// reports for a decoded instruction, under the architecture's register
/// numbering.
pub fn instr_source_target(arch: &Arch, instr: &Insn) -> (r: Result<
    (Option<Register>, Option<Register>),
    Error,
>)
    ensures
        r == (match arch {
            Arch::Arm(_) => crate::arch_arm::arm_source_target(*instr),
            Arch::RiscV(_) => crate::arch_rv::rv_source_target(*instr),
        }),
{
    match arch {
        Arch::Arm(_) => crate::arch_arm::arm_instr_source_target(instr),
        Arch::RiscV(_) => crate::arch_rv::rv_instr_source_target(instr),
    }
}

/// The architecture rules of the current target.
#[derive(Clone, Debug)]
pub enum Arch {
    Arm(ARMArch),
    RiscV(RVArch),
}

/// Selects the architecture for a target from its ELF machine and class
/// fields.
pub fn get_arch(arch: u16, ei_class: u8) -> (r: Arch)
    requires
        arch == EM_ARM || arch == EM_RISCV,
    ensures
        arch == EM_ARM ==> r is Arm,
        arch == EM_RISCV ==> (r matches Arch::RiscV(rv) && rv.ei_class == ei_class),
{
    if arch == EM_ARM {
        Arch::Arm(ARMArch::new())
    } else {
        Arch::RiscV(RVArch::new(ei_class))
    }
}

impl Arch {
    /// The ELF `e_machine` value of the architecture.
    pub fn get_e_machine(&self) -> (r: u16)
        ensures
            r == (match self {
                Arch::Arm(_) => EM_ARM,
                Arch::RiscV(_) => EM_RISCV,
            }),
    {
        match self {
            Arch::Arm(a) => a.get_e_machine(),
            Arch::RiscV(a) => a.get_e_machine(),
        }
    }

    /// The ELF `EI_CLASS` value of the architecture.
    pub fn get_ei_class(&self) -> (r: u8)
        ensures
            r == (match self {
                Arch::Arm(_) => ELFCLASS32,
                Arch::RiscV(a) => a.ei_class,
            }),
    {
        match self {
            Arch::Arm(a) => a.get_ei_class(),
            Arch::RiscV(a) => a.get_ei_class(),
        }
    }

    /// The width of a machine word, in bits.
    pub fn get_abi_size(&self) -> (r: u8)
        requires
            self matches Arch::RiscV(a) ==> a.ei_class == ELFCLASS32 || a.ei_class == ELFCLASS64,
        ensures
            r == (match self {
                Arch::Arm(_) => 32u8,
                Arch::RiscV(a) => if a.ei_class == ELFCLASS32 {
                    32u8
                } else {
                    64u8
                },
            }),
    {
        match self {
            Arch::Arm(a) => a.get_abi_size(),
            Arch::RiscV(a) => a.get_abi_size(),
        }
    }

    /// The disassembler id of the syscall-trap instruction.
    pub fn get_syscall_insn(&self) -> (r: u32)
        ensures
            r == (match self {
                Arch::Arm(_) => crate::insn::ARM_INS_SVC,
                Arch::RiscV(_) => crate::insn::RISCV_INS_ECALL,
            }),
    {
        match self {
            Arch::Arm(a) => a.get_syscall_insn(),
            Arch::RiscV(a) => a.get_syscall_insn(),
        }
    }

    /// The register holding the return address of a function call.
    pub fn get_ret_reg(&self) -> (r: Register)
        ensures
            r == (match self {
                Arch::Arm(_) => Register::Arm(crate::regs_arm::ARMRegister::LR),
                Arch::RiscV(_) => Register::RiscV(crate::regs_rv::RVRegister::RA),
            }),
    {
        match self {
            Arch::Arm(a) => a.get_ret_reg(),
            Arch::RiscV(a) => a.get_ret_reg(),
        }
    }

    /// The stack-pointer register.
    pub fn get_sp(&self) -> (r: Register)
        ensures
            r == (match self {
                Arch::Arm(_) => Register::Arm(crate::regs_arm::ARMRegister::SP),
                Arch::RiscV(_) => Register::RiscV(crate::regs_rv::RVRegister::SP),
            }),
    {
        match self {
            Arch::Arm(a) => a.get_sp(),
            Arch::RiscV(a) => a.get_sp(),
        }
    }

    /// The program-counter register.
    pub fn get_pc(&self) -> (r: Register)
        ensures
            r == (match self {
                Arch::Arm(_) => Register::Arm(crate::regs_arm::ARMRegister::PC),
                Arch::RiscV(_) => Register::RiscV(crate::regs_rv::RVRegister::PC),
            }),
    {
        match self {
            Arch::Arm(a) => a.get_pc(),
            Arch::RiscV(a) => a.get_pc(),
        }
    }

    /// Returns the general-purpose registers of the architecture, in
    /// enumeration order.
    pub fn get_all_gpr(&self) -> (r: Vec<Register>)
        ensures
            r@ == (match self {
                Arch::Arm(_) => crate::arch_arm::arm_gpr_list_spec(),
                Arch::RiscV(_) => crate::arch_rv::rv_gpr_list_spec(),
            }),
    {
        match self {
            Arch::Arm(a) => a.get_all_gpr(),
            Arch::RiscV(a) => a.get_all_gpr(),
        }
    }

    /// Returns every register of the architecture, in enumeration order.
    pub fn get_all_registers(&self) -> (r: Vec<Register>)
        ensures
            r@ == (match self {
                Arch::Arm(_) => crate::regs_arm::arm_register_list_spec(),
                Arch::RiscV(_) => crate::regs_rv::rv_register_list_spec(),
            }),
    {
        match self {
            Arch::Arm(_) => crate::regs_arm::get_all_registers(),
            Arch::RiscV(_) => crate::regs_rv::get_all_registers(),
        }
    }

    /// Looks up a register by DWARF number, in the architecture's DWARF
    /// numbering.
    pub fn register_from_dwarf_id(&self, id: u32) -> (r: Result<Register, Error>)
        ensures
            match self {
                Arch::Arm(_) => match r {
                    Ok(reg) => crate::regs_arm::spec_register_from_id(id) == Some(reg),
                    Err(e) => crate::regs_arm::spec_register_from_id(id) is None && e
                        == Error::UnknownDwarfId(id),
                },
                Arch::RiscV(_) => match r {
                    Ok(reg) => (crate::regs_rv::RVRegister::spec_from_dwarf_id(id) matches Some(rv)
                        && reg == Register::RiscV(rv)),
                    Err(e) => crate::regs_rv::RVRegister::spec_from_dwarf_id(id) is None && e
                        == Error::UnknownDwarfId(id),
                },
            },
    {
        match self {
            Arch::Arm(a) => a.register_from_dwarf_id(id),
            Arch::RiscV(a) => a.register_from_dwarf_id(id),
        }
    }

    /// Looks up a register by native selector id.
    pub fn register_from_id(&self, id: u32) -> (r: Result<Register, Error>)
        ensures
            match self {
                Arch::Arm(_) => match r {
                    Ok(reg) => crate::regs_arm::spec_register_from_id(id) == Some(reg),
                    Err(e) => crate::regs_arm::spec_register_from_id(id) is None && e
                        == Error::UnknownRegisterId(id),
                },
                Arch::RiscV(_) => match r {
                    Ok(reg) => id <= u16::MAX && (crate::regs_rv::RVRegister::spec_from_id(
                        id as u16,
                    ) matches Some(rv) && reg == Register::RiscV(rv)),
                    Err(e) => (id > u16::MAX || crate::regs_rv::RVRegister::spec_from_id(
                        id as u16,
                    ) is None) && e == Error::UnknownRegisterId(id),
                },
            },
    {
        match self {
            Arch::Arm(a) => a.register_from_id(id),
            Arch::RiscV(a) => a.register_from_id(id),
        }
    }

    /// The register carrying syscall argument `arg_number`, in the
    /// architecture's syscall ABI.
    pub fn get_syscall_register(&self, arg_number: u8) -> (r: Result<Register, Error>)
        ensures
            arg_number > 8 <==> r == Err::<Register, Error>(Error::BadSyscallArg(arg_number)),
            match self {
                Arch::Arm(_) => arg_number <= 8 ==> (r matches Ok(reg) && Some(reg)
                    == crate::regs_arm::spec_register_from_id((4 + arg_number) as u32)),
                Arch::RiscV(_) => arg_number <= 8 ==> (r matches Ok(reg)
                    && crate::regs_rv::RVRegister::spec_from_id(
                    (0x100a + arg_number) as u16,
                ) matches Some(rv) && reg == Register::RiscV(rv)),
            },
    {
        match self {
            Arch::Arm(a) => a.get_syscall_register(arg_number),
            Arch::RiscV(a) => a.get_syscall_register(arg_number),
        }
    }

    /// The chip name handed to the probe driver when no explicit chip was
    /// given.
    pub fn get_generic_chip(&self) -> (r: String)
        ensures
            r@ == (match self {
                Arch::Arm(_) => "armv7m"@,
                Arch::RiscV(_) => "riscv"@,
            }),
    {
        match self {
            Arch::Arm(a) => a.get_generic_chip(),
            Arch::RiscV(a) => a.get_generic_chip(),
        }
    }

    /// The operand registers of a decoded instruction, in operand order.
    pub fn instr_operands(&self, instr: &Insn) -> (r: Result<Vec<Register>, Error>)
        ensures
            match self {
                Arch::Arm(_) => match r {
                    Ok(v) => crate::arch_arm::arm_operand_regs(instr.operands@) matches Ok(s) && v@
                        == s,
                    Err(e) => crate::arch_arm::arm_operand_regs(instr.operands@) matches Err(e2)
                        && e == e2,
                },
                Arch::RiscV(_) => match r {
                    Ok(v) => crate::arch_rv::rv_operand_regs(instr.operands@) matches Ok(s) && v@
                        == s,
                    Err(e) => crate::arch_rv::rv_operand_regs(instr.operands@) matches Err(e2) && e
                        == e2,
                },
            },
    {
        match self {
            Arch::Arm(a) => a.instr_operands(instr),
            Arch::RiscV(a) => a.instr_operands(instr),
        }
    }

    /// Classifies a decoded instruction for trace decoding; only ARM
    /// classifies.
    pub fn instr_branch_target(&self, instr: &Insn) -> (r: Option<BranchTarget>)
        ensures
            r == (match self {
                Arch::Arm(_) => crate::arch_arm::arm_branch_target(*instr),
                Arch::RiscV(_) => None::<BranchTarget>,
            }),
    {
        match self {
            Arch::Arm(a) => a.instr_branch_target(instr),
            Arch::RiscV(a) => a.instr_branch_target(instr),
        }
    }

    /// Recovers, from the instruction window preceding a syscall trap, the
    /// saved-register addressing order, by the architecture's heuristic.
    pub fn presyscall_pushes(&self, instrs: &[Insn]) -> (r: Result<Vec<Register>, Error>)
        ensures
            match self {
                Arch::Arm(_) => match r {
                    Ok(v) => crate::arch_arm::arm_presyscall_spec(instrs@) matches Ok(s) && v@ == s,
                    Err(e) => crate::arch_arm::arm_presyscall_spec(instrs@) matches Err(e2) && e
                        == e2,
                },
                Arch::RiscV(_) => match r {
                    Ok(v) => crate::arch_rv::rv_presyscall_spec(instrs@) matches Ok(s) && v@ == s,
                    Err(e) => crate::arch_rv::rv_presyscall_spec(instrs@) matches Err(e2) && e
                        == e2,
                },
            },
    {
        match self {
            Arch::Arm(a) => a.presyscall_pushes(instrs),
            Arch::RiscV(a) => a.presyscall_pushes(instrs),
        }
    }

    /// Recovers the register state a task saved across a syscall trap.
    /// `stack` holds the first eight words read at the saved process stack
    /// pointer and `has_fp` tells whether the target's build declares
    /// floating-point support; RISC-V recovery uses neither.
    pub fn read_saved_task_regs(
        &self,
        regs: &[u8],
        state: &StructLayout,
        stack: &[u8],
        has_fp: bool,
    ) -> (r: Result<RegMap, Error>)
        requires
            stack@.len() >= 32,
            spec_member_word(
                regs@,
                state@,
                "psp"@,
            ) matches Some(p) ==> p + crate::arch_arm::arm_frame_words(has_fp) * 4
                + crate::arch_arm::spec_realign_word(crate::arch_arm::stack_word(stack@, 7))
                <= u32::MAX,
        ensures
            match self {
                Arch::Arm(_) => match r {
                    Ok(m) => crate::arch_arm::arm_saved_regs_ok(regs@, state@) && m@
                        == crate::arch_arm::arm_saved_map(regs@, state@, stack@, has_fp),
                    Err(e) => !crate::arch_arm::arm_saved_regs_ok(regs@, state@) && (e
                        == Error::MemberNotFound || e == Error::MemberOutOfRange),
                },
                Arch::RiscV(_) => (r matches Ok(m) && m@ == crate::arch_rv::rv_saved_map(
                    regs@,
                    state@,
                    crate::regs_rv::rv_register_list_spec(),
                )),
            },
    {
        match self {
            Arch::Arm(a) => a.read_saved_task_regs(regs, state, stack, has_fp),
            Arch::RiscV(a) => a.read_saved_task_regs(regs, state),
        }
    }

    /// Clears the marker bits a function pointer carries on some
    /// architectures; on ARM, the thumb bit.
    pub fn extract_fn_pointer(&self, data: &mut UhSize)
        ensures
            final(data).bits == old(data).bits,
            final(data).data == (match self {
                Arch::Arm(_) => old(data).data & !1u64,
                Arch::RiscV(_) => old(data).data,
            }),
    {
        match self {
            Arch::Arm(a) => a.extract_fn_pointer(data),
            Arch::RiscV(_) => (),
        }
    }
}

} // verus!
