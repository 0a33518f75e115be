use humility::arch::{
    get_arch, instr_source_target, readreg, BranchTarget, StructLayout, ELFCLASS32,
    ELFCLASS64, EM_ARM, EM_RISCV,
};
use humility::arch_arm::ARMArch;
use humility::arch_rv::RVArch;
use humility::errors::Error;
use humility::insn::{
    Insn, Operand, ARM_INS_MOV, ARM_INS_POP, ARM_INS_PUSH, ARM_INS_SVC, GRP_BRANCH_RELATIVE,
    GRP_CALL, GRP_JUMP, RISCV_INS_ECALL, RISCV_INS_SW,
};
use humility::regs::Register;
use humility::regs_arm::ARMRegister;
use humility::regs_rv::RVRegister;
use humility::uhsize::UhSize;

fn plain_insn(id: u32) -> Insn {
    Insn { id, operands: vec![], groups: vec![], regs_read: vec![], regs_write: vec![] }
}

#[test]
fn arch_selection() {
    let arm = get_arch(EM_ARM, ELFCLASS32);
    assert_eq!(arm.get_e_machine(), EM_ARM);
    assert_eq!(arm.get_ei_class(), ELFCLASS32);
    assert_eq!(arm.get_abi_size(), 32);
    assert_eq!(arm.get_syscall_insn(), ARM_INS_SVC);
    assert_eq!(arm.get_sp(), Register::Arm(ARMRegister::SP));
    assert_eq!(arm.get_pc(), Register::Arm(ARMRegister::PC));
    assert_eq!(arm.get_ret_reg(), Register::Arm(ARMRegister::LR));
    let rv = get_arch(EM_RISCV, ELFCLASS64);
    assert_eq!(rv.get_e_machine(), EM_RISCV);
    assert_eq!(rv.get_ei_class(), ELFCLASS64);
    assert_eq!(rv.get_abi_size(), 64);
    assert_eq!(rv.get_syscall_insn(), RISCV_INS_ECALL);
    assert_eq!(rv.get_sp(), Register::RiscV(RVRegister::SP));
}

#[test]
fn gpr_lists() {
    let arm = get_arch(EM_ARM, ELFCLASS32);
    let gprs = arm.get_all_gpr();
    assert_eq!(gprs.len(), 16);
    assert!(gprs.iter().all(|r| r.is_general_purpose()));
    let rv = get_arch(EM_RISCV, ELFCLASS32);
    let gprs = rv.get_all_gpr();
    assert_eq!(gprs.len(), 32);
    assert!(gprs.iter().all(|r| r.is_general_purpose()));
    assert_eq!(arm.get_all_registers().len(), 53);
    assert_eq!(rv.get_all_registers().len(), 135);
}

#[test]
fn syscall_registers() {
    let arm = ARMArch::new();
    assert_eq!(
        arm.get_syscall_register(0),
        Ok(Register::Arm(ARMRegister::R4))
    );
    assert_eq!(
        arm.get_syscall_register(8),
        Ok(Register::Arm(ARMRegister::R12))
    );
    assert_eq!(arm.get_syscall_register(9), Err(Error::BadSyscallArg(9)));
    let rv = RVArch::new(ELFCLASS32);
    assert_eq!(rv.get_syscall_register(0), Ok(Register::RiscV(RVRegister::A0)));
    assert_eq!(rv.get_syscall_register(7), Ok(Register::RiscV(RVRegister::A7)));
    assert_eq!(rv.get_syscall_register(8), Ok(Register::RiscV(RVRegister::S2)));
    assert_eq!(rv.get_syscall_register(9), Err(Error::BadSyscallArg(9)));
}

#[test]
fn dwarf_lookup() {
    let arm = ARMArch::new();
    assert_eq!(
        arm.register_from_dwarf_id(13),
        Ok(Register::Arm(ARMRegister::SP))
    );
    assert_eq!(arm.register_from_dwarf_id(19), Err(Error::UnknownDwarfId(19)));
    let rv = RVArch::new(ELFCLASS32);
    assert_eq!(
        rv.register_from_dwarf_id(0x300 + 4096),
        Ok(Register::RiscV(RVRegister::MSTATUS))
    );
    assert_eq!(rv.register_from_dwarf_id(2), Ok(Register::RiscV(RVRegister::SP)));
    assert_eq!(rv.register_from_dwarf_id(97), Err(Error::UnknownDwarfId(97)));
}

#[test]
fn current_task_register_fallback() {
    let rv = RVArch::new(ELFCLASS32);
    assert_eq!(
        rv.current_task_register(true),
        Register::RiscV(RVRegister::SSCRATCH)
    );
    assert_eq!(
        rv.current_task_register(false),
        Register::RiscV(RVRegister::MSCRATCH)
    );
}

#[test]
fn uhsize_arithmetic() {
    let a = UhSize::new(100, 32);
    let b = UhSize::new(40, 32);
    assert_eq!(a.get_bytes_per_word(), 4);
    assert_eq!(a.sub(b).data, 60);
    assert_eq!(a.add(b).data, 140);
    assert_eq!(UhSize::new(0, 64).get_bytes_per_word(), 8);
}

#[test]
fn thumb_bit_cleared() {
    let arm = get_arch(EM_ARM, ELFCLASS32);
    let mut p = UhSize::new(0x0800_1235, 32);
    arm.extract_fn_pointer(&mut p);
    assert_eq!(p.data, 0x0800_1234);
    let rv = get_arch(EM_RISCV, ELFCLASS32);
    let mut p = UhSize::new(0x0800_1235, 32);
    rv.extract_fn_pointer(&mut p);
    assert_eq!(p.data, 0x0800_1235);
}

#[test]
fn readreg_member_lookup() {
    let mut layout = StructLayout::new();
    layout.add_member(String::from("r4"), 0);
    layout.add_member(String::from("psp"), 4);
    let regs = [0x11u8, 0x22, 0x33, 0x44, 0x00, 0x10, 0x00, 0x20];
    assert_eq!(readreg("r4", &regs, &layout), Ok(0x44332211));
    assert_eq!(readreg("psp", &regs, &layout), Ok(0x20001000));
    assert_eq!(readreg("r5", &regs, &layout), Err(Error::MemberNotFound));
    let short = [0u8; 6];
    assert_eq!(readreg("psp", &short, &layout), Err(Error::MemberOutOfRange));
}

fn arm_saved_fixture(psr: u32) -> (Vec<u8>, StructLayout, Vec<u8>) {
    let mut layout = StructLayout::new();
    let mut regs: Vec<u8> = Vec::new();
    for (i, name) in ["r4", "r5", "r6", "r7", "r8", "r9", "r10", "r11", "psp"]
        .iter()
        .enumerate()
    {
        layout.add_member(String::from(*name), (i * 4) as u32);
    }
    for i in 0..8u32 {
        regs.extend_from_slice(&(0x4000 + i).to_le_bytes());
    }
    regs.extend_from_slice(&0x2000_1000u32.to_le_bytes());
    let mut stack: Vec<u8> = Vec::new();
    for i in 0..7u32 {
        stack.extend_from_slice(&(0x100 + i).to_le_bytes());
    }
    stack.extend_from_slice(&psr.to_le_bytes());
    (regs, layout, stack)
}

#[test]
fn arm_saved_regs_realign_clear() {
    let arm = ARMArch::new();
    let (regs, layout, stack) = arm_saved_fixture(0);
    let m = arm.read_saved_task_regs(&regs, &layout, &stack, false).unwrap();
    assert_eq!(m.get(Register::Arm(ARMRegister::R4)), Some(0x4000));
    assert_eq!(m.get(Register::Arm(ARMRegister::R11)), Some(0x4007));
    assert_eq!(m.get(Register::Arm(ARMRegister::R0)), Some(0x100));
    assert_eq!(m.get(Register::Arm(ARMRegister::PC)), Some(0x106));
    assert_eq!(m.get(Register::Arm(ARMRegister::PSR)), Some(0));
    // Recovered SP is the raw stack pointer plus the frame size.
    assert_eq!(
        m.get(Register::Arm(ARMRegister::SP)),
        Some(0x2000_1000 + 8 * 4)
    );
}

#[test]
fn arm_saved_regs_realign_set() {
    let arm = ARMArch::new();
    let (regs, layout, stack) = arm_saved_fixture(1 << 9);
    let m = arm.read_saved_task_regs(&regs, &layout, &stack, false).unwrap();
    // Recovered SP is the raw stack pointer plus the frame size plus four.
    assert_eq!(
        m.get(Register::Arm(ARMRegister::SP)),
        Some(0x2000_1000 + 8 * 4 + 4)
    );
}

#[test]
fn arm_saved_regs_fp_frame() {
    let arm = ARMArch::new();
    let (regs, layout, stack) = arm_saved_fixture(0);
    let m = arm.read_saved_task_regs(&regs, &layout, &stack, true).unwrap();
    assert_eq!(
        m.get(Register::Arm(ARMRegister::SP)),
        Some(0x2000_1000 + 26 * 4)
    );
}

#[test]
fn arm_saved_regs_missing_member() {
    let arm = ARMArch::new();
    let (regs, _, stack) = arm_saved_fixture(0);
    let layout = StructLayout::new();
    let r = arm.read_saved_task_regs(&regs, &layout, &stack, false);
    assert_eq!(r.unwrap_err(), Error::MemberNotFound);
}

#[test]
fn rv_saved_regs() {
    let rv = RVArch::new(ELFCLASS32);
    let mut layout = StructLayout::new();
    layout.add_member(String::from("sp"), 0);
    layout.add_member(String::from("mstatus"), 4);
    let mut regs: Vec<u8> = Vec::new();
    regs.extend_from_slice(&0x8000_0100u32.to_le_bytes());
    regs.extend_from_slice(&0x1888u32.to_le_bytes());
    let m = rv.read_saved_task_regs(&regs, &layout).unwrap();
    assert_eq!(m.get(Register::RiscV(RVRegister::SP)), Some(0x8000_0100));
    assert_eq!(m.get(Register::RiscV(RVRegister::MSTATUS)), Some(0x1888));
    assert_eq!(m.get(Register::RiscV(RVRegister::A0)), None);
}

#[test]
fn arm_presyscall_tracks_moves() {
    let arm = ARMArch::new();
    // mov r0, r8; push {r0, r1}: the push is credited to r8.
    let mov = Insn {
        id: ARM_INS_MOV,
        operands: vec![],
        groups: vec![],
        regs_read: vec![74],
        regs_write: vec![66],
    };
    let push = Insn {
        id: ARM_INS_PUSH,
        operands: vec![Operand::Reg(66), Operand::Reg(67)],
        groups: vec![],
        regs_read: vec![],
        regs_write: vec![],
    };
    let order = arm.presyscall_pushes(&[mov, push]).unwrap();
    assert_eq!(
        order,
        vec![
            Register::Arm(ARMRegister::R8),
            Register::Arm(ARMRegister::R1)
        ]
    );
}

#[test]
fn arm_presyscall_pops_cancel() {
    let arm = ARMArch::new();
    let push = Insn {
        id: ARM_INS_PUSH,
        operands: vec![Operand::Reg(66), Operand::Reg(67)],
        groups: vec![],
        regs_read: vec![],
        regs_write: vec![],
    };
    let pop = Insn {
        id: ARM_INS_POP,
        operands: vec![Operand::Reg(68)],
        groups: vec![],
        regs_read: vec![],
        regs_write: vec![],
    };
    let order = arm.presyscall_pushes(&[push, pop]).unwrap();
    assert_eq!(order, vec![Register::Arm(ARMRegister::R1)]);
}

#[test]
fn rv_presyscall_orders_stores() {
    let rv = RVArch::new(ELFCLASS32);
    let sw = Insn {
        id: RISCV_INS_SW,
        operands: vec![Operand::Reg(2), Operand::Reg(3)],
        groups: vec![],
        regs_read: vec![],
        regs_write: vec![],
    };
    let order = rv.presyscall_pushes(&[sw]).unwrap();
    assert_eq!(
        order,
        vec![
            Register::RiscV(RVRegister::RA),
            Register::RiscV(RVRegister::SP)
        ]
    );
}

#[test]
fn branch_classification() {
    let arm = ARMArch::new();
    // A relative branch in the call group resolves to a direct call.
    let bl = Insn {
        id: 0,
        operands: vec![Operand::Imm(0x8000)],
        groups: vec![GRP_BRANCH_RELATIVE, GRP_CALL],
        regs_read: vec![],
        regs_write: vec![],
    };
    assert_eq!(arm.instr_branch_target(&bl), Some(BranchTarget::Call(0x8000)));
    // A relative branch that is no call is a direct jump.
    let b = Insn {
        id: 0,
        operands: vec![Operand::Imm(0x9000)],
        groups: vec![GRP_BRANCH_RELATIVE, GRP_JUMP],
        regs_read: vec![],
        regs_write: vec![],
    };
    assert_eq!(arm.instr_branch_target(&b), Some(BranchTarget::Direct(0x9000)));
    // A call without an immediate goes through a register.
    let blx = Insn {
        id: 0,
        operands: vec![Operand::Reg(66)],
        groups: vec![GRP_CALL],
        regs_read: vec![],
        regs_write: vec![],
    };
    assert_eq!(arm.instr_branch_target(&blx), Some(BranchTarget::IndirectCall));
    // A jump naming the link register is a return.
    let bx_lr = Insn {
        id: 0,
        operands: vec![Operand::Reg(10)],
        groups: vec![GRP_JUMP],
        regs_read: vec![],
        regs_write: vec![],
    };
    assert_eq!(arm.instr_branch_target(&bx_lr), Some(BranchTarget::Return));
    // Any other jump through a register is indirect.
    let bx_r0 = Insn {
        id: 0,
        operands: vec![Operand::Reg(66)],
        groups: vec![GRP_JUMP],
        regs_read: vec![],
        regs_write: vec![],
    };
    assert_eq!(arm.instr_branch_target(&bx_r0), Some(BranchTarget::Indirect));
    // A pop that writes the program counter is a return.
    let pop_pc = Insn {
        id: ARM_INS_POP,
        operands: vec![Operand::Reg(70), Operand::Reg(11)],
        groups: vec![],
        regs_read: vec![],
        regs_write: vec![],
    };
    assert_eq!(arm.instr_branch_target(&pop_pc), Some(BranchTarget::Return));
    assert_eq!(arm.instr_branch_target(&plain_insn(5)), None);
    // Only ARM classifies.
    let rv = RVArch::new(ELFCLASS32);
    assert_eq!(rv.instr_branch_target(&bl), None);
}

#[test]
fn source_target_extraction() {
    let arm = get_arch(EM_ARM, ELFCLASS32);
    let mov = Insn {
        id: ARM_INS_MOV,
        operands: vec![],
        groups: vec![],
        regs_read: vec![74],
        regs_write: vec![66],
    };
    assert_eq!(
        instr_source_target(&arm, &mov),
        Ok((
            Some(Register::Arm(ARMRegister::R8)),
            Some(Register::Arm(ARMRegister::R0))
        ))
    );
    let none = plain_insn(ARM_INS_MOV);
    assert_eq!(instr_source_target(&arm, &none), Ok((None, None)));
    let many = Insn {
        id: ARM_INS_MOV,
        operands: vec![],
        groups: vec![],
        regs_read: vec![66, 67],
        regs_write: vec![],
    };
    assert_eq!(
        instr_source_target(&arm, &many),
        Err(Error::MultipleRegisters)
    );
    let unknown = Insn {
        id: ARM_INS_MOV,
        operands: vec![],
        groups: vec![],
        regs_read: vec![3],
        regs_write: vec![],
    };
    assert_eq!(
        instr_source_target(&arm, &unknown),
        Err(Error::UnknownDisasmId(3))
    );
}

#[test]
fn generic_chip_names() {
    let arm = get_arch(EM_ARM, ELFCLASS32);
    assert_eq!(arm.get_generic_chip(), "armv7m");
    let rv = get_arch(EM_RISCV, ELFCLASS32);
    assert_eq!(rv.get_generic_chip(), "riscv");
}
