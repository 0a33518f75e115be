use humility::regs::Register;
use humility::regs_arm::{self, ARMRegister};
use humility::regs_rv::{self, RVRegister};

#[test]
fn arm_native_ids() {
    assert_eq!(ARMRegister::R0.to_id(), 0);
    assert_eq!(ARMRegister::R12.to_id(), 12);
    assert_eq!(ARMRegister::SP.to_id(), 13);
    assert_eq!(ARMRegister::LR.to_id(), 14);
    assert_eq!(ARMRegister::PC.to_id(), 15);
    assert_eq!(ARMRegister::PSR.to_id(), 16);
    assert_eq!(ARMRegister::SPR.to_id(), 20);
    assert_eq!(ARMRegister::FPSCR.to_id(), 33);
    assert_eq!(ARMRegister::S0.to_id(), 64);
    assert_eq!(ARMRegister::S31.to_id(), 95);
}

#[test]
fn arm_native_round_trip() {
    for reg in regs_arm::get_all_registers() {
        let Register::Arm(a) = reg else { panic!("wrong architecture") };
        assert_eq!(ARMRegister::from_id(a.to_id()), Some(a));
    }
}

#[test]
fn arm_from_id_rejects_gaps() {
    assert_eq!(ARMRegister::from_id(19), None);
    assert_eq!(ARMRegister::from_id(21), None);
    assert_eq!(ARMRegister::from_id(96), None);
}

#[test]
fn arm_injective_over_all_pairs() {
    let all = regs_arm::get_all_registers();
    for x in &all {
        for y in &all {
            if x != y {
                assert_ne!(x.to_u16().unwrap(), y.to_u16().unwrap());
                assert_ne!(x.to_gdb_id(), y.to_gdb_id());
            }
        }
    }
}

#[test]
fn arm_classification() {
    assert!(ARMRegister::R0.is_general_purpose());
    assert!(ARMRegister::PC.is_general_purpose());
    assert!(!ARMRegister::PSR.is_general_purpose());
    assert!(ARMRegister::PSR.is_special());
    assert!(ARMRegister::FPSCR.is_special());
    assert!(!ARMRegister::R3.is_special());
    assert!(ARMRegister::S0.is_floating_point());
    assert!(!ARMRegister::LR.is_floating_point());
}

#[test]
fn arm_fields_psr() {
    let fields = ARMRegister::PSR.fields().unwrap();
    assert_eq!(fields.len(), 10);
    assert_eq!(fields[0].highbit, 31);
    assert_eq!(fields[0].lowbit, 31);
    assert_eq!(fields[0].name, "N");
    assert_eq!(fields[9].highbit, 8);
    assert_eq!(fields[9].lowbit, 0);
    assert_eq!(fields[9].name, "Exception");
    assert!(ARMRegister::R0.fields().is_none());
}

#[test]
fn arm_disasm_mapping() {
    assert_eq!(ARMRegister::from_disasm_id(66), Some(ARMRegister::R0));
    assert_eq!(ARMRegister::from_disasm_id(78), Some(ARMRegister::R12));
    assert_eq!(ARMRegister::from_disasm_id(10), Some(ARMRegister::LR));
    assert_eq!(ARMRegister::from_disasm_id(11), Some(ARMRegister::PC));
    assert_eq!(ARMRegister::from_disasm_id(12), Some(ARMRegister::SP));
    assert_eq!(ARMRegister::from_disasm_id(0), None);
}

#[test]
fn register_from_id_wraps() {
    assert_eq!(
        regs_arm::register_from_id(13),
        Some(Register::Arm(ARMRegister::SP))
    );
    assert_eq!(regs_arm::register_from_id(19), None);
    assert_eq!(regs_arm::register_from_id(0x10000), None);
}

#[test]
fn rv_native_ids() {
    assert_eq!(RVRegister::MSTATUS.to_id(), 0x300);
    assert_eq!(RVRegister::SSCRATCH.to_id(), 0x140);
    assert_eq!(RVRegister::MSCRATCH.to_id(), 0x340);
    assert_eq!(RVRegister::PC.to_id(), 0x7b1);
    assert_eq!(RVRegister::ZERO.to_id(), 0x1000);
    assert_eq!(RVRegister::T6.to_id(), 0x101f);
    assert_eq!(RVRegister::PMPADDR63.to_id(), 0x3ef);
}

#[test]
fn rv_native_round_trip() {
    for reg in regs_rv::get_all_registers() {
        let Register::RiscV(r) = reg else { panic!("wrong architecture") };
        assert_eq!(RVRegister::from_id(r.to_id()), Some(r));
    }
}

#[test]
fn rv_gdb_ids() {
    assert_eq!(RVRegister::ZERO.to_gdb_id(), 0);
    assert_eq!(RVRegister::T6.to_gdb_id(), 31);
    assert_eq!(RVRegister::PC.to_gdb_id(), 32);
    assert_eq!(RVRegister::MSTATUS.to_gdb_id(), 0x300 + 65);
    assert_eq!(RVRegister::CSR_START.to_gdb_id(), 65);
}

#[test]
fn rv_gdb_injective_over_real_registers() {
    let real: Vec<_> = regs_rv::get_all_registers()
        .into_iter()
        .filter(|r| {
            let Register::RiscV(rv) = r else { panic!() };
            !rv.is_marker()
        })
        .collect();
    for x in &real {
        for y in &real {
            if x != y {
                assert_ne!(x.to_gdb_id(), y.to_gdb_id());
            }
        }
    }
}

#[test]
fn rv_dwarf_round_trip() {
    for reg in regs_rv::get_all_registers() {
        let Register::RiscV(r) = reg else { panic!() };
        if r.is_marker() {
            continue;
        }
        assert_eq!(RVRegister::from_dwarf_id(r.to_dwarf_id()), Some(r));
    }
}

#[test]
fn rv_dwarf_remapping() {
    // CSRs carry their CSR number plus 4096.
    assert_eq!(
        RVRegister::from_dwarf_id(0x300 + 4096),
        Some(RVRegister::MSTATUS)
    );
    // Integer registers live below 64.
    assert_eq!(RVRegister::from_dwarf_id(0), Some(RVRegister::ZERO));
    assert_eq!(RVRegister::from_dwarf_id(2), Some(RVRegister::SP));
    assert_eq!(RVRegister::from_dwarf_id(97), None);
}

#[test]
fn rv_classification() {
    assert!(RVRegister::SP.is_general_purpose());
    assert!(!RVRegister::MSTATUS.is_general_purpose());
    assert!(RVRegister::MSTATUS.is_special());
    assert!(RVRegister::PC.is_special());
    assert!(!RVRegister::A0.is_special());
    assert!(RVRegister::FPR_START.is_floating_point());
    assert!(!RVRegister::A0.is_floating_point());
    assert!(RVRegister::CSR_START.is_marker());
    assert!(RVRegister::CUSTOM_END.is_marker());
    assert!(!RVRegister::MSTATUS.is_marker());
}

#[test]
fn rv_fields_mcause() {
    let fields = RVRegister::MCAUSE.fields().unwrap();
    assert_eq!(fields.len(), 1);
    assert_eq!(fields[0].highbit, 31);
    assert_eq!(fields[0].name, "INTERRUPT");
    assert_eq!(RVRegister::MSTATUS.fields().unwrap().len(), 17);
    assert!(RVRegister::A0.fields().is_none());
}

#[test]
fn rv_disasm_mapping() {
    assert_eq!(RVRegister::from_disasm_id(1), Some(RVRegister::ZERO));
    assert_eq!(RVRegister::from_disasm_id(4), Some(RVRegister::GP));
    assert_eq!(RVRegister::from_disasm_id(5), Some(RVRegister::TP));
    assert_eq!(RVRegister::from_disasm_id(11), Some(RVRegister::A0));
    assert_eq!(RVRegister::from_disasm_id(32), Some(RVRegister::T6));
    assert_eq!(RVRegister::from_disasm_id(33), None);
}

#[test]
fn register_dispatch() {
    let r = Register::Arm(ARMRegister::PC);
    assert!(r.is_pc());
    assert!(r.is_general_purpose());
    assert_eq!(r.to_u16(), Some(15));
    assert_eq!(r.to_u32(), Some(15));
    assert_eq!(r.to_u64(), Some(15));
    assert_eq!(r.name(), "pc");
    let r = Register::RiscV(RVRegister::MSTATUS);
    assert!(!r.is_pc());
    assert!(r.is_special());
    assert_eq!(r.to_u16(), Some(0x300));
    assert_eq!(r.to_gdb_id(), 0x341);
    assert_eq!(r.name(), "mstatus");
}

#[test]
fn register_list_lengths() {
    assert_eq!(regs_arm::get_all_registers().len(), 53);
    assert_eq!(regs_rv::get_all_registers().len(), 135);
}
