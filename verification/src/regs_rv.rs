//! The RISC-V register set.
//!
//! Registers are identified by the id the debug module's abstract-command
//! interface uses: CSRs keep their CSR number (0x0-0xfff, with the program
//! counter read through DPC at 0x7b1), integer registers occupy 0x1000 and
//! up, and floating-point registers follow them.  The DWARF numbering and
//! the GDB protocol numbering overlap these spaces differently, so both are
//! computed, never stored.  A handful of variants (`CSR_START`, `CSR_END`,
//! `FPR_START`, `FPR_END`, `CUSTOM_START`, `CUSTOM_END`) are range markers,
//! not registers a target carries.

use crate::regs::{fields_match, Register, RegisterField};
use vstd::prelude::*;

verus! {

#[allow(non_camel_case_types)]
#[derive(Copy, Clone, Debug, PartialEq, Eq, Structural)]
pub enum RVRegister {
    CSR_START,
    SSCRATCH,
    MSTATUS,
    MISA,
    MEDELEG,
    MIDELEG,
    MIE,
    MTVEC,
    MSTATUSH,
    MSCRATCH,
    MEPC,
    MCAUSE,
    MTVAL,
    MIP,
    PMPCFG0,
    PMPCFG1,
    PMPCFG2,
    PMPCFG3,
    PMPCFG4,
    PMPCFG5,
    PMPCFG6,
    PMPCFG7,
    PMPCFG8,
    PMPCFG9,
    PMPCFG10,
    PMPCFG11,
    PMPCFG12,
    PMPCFG13,
    PMPCFG14,
    PMPCFG15,
    PMPADDR0,
    PMPADDR1,
    PMPADDR2,
    PMPADDR3,
    PMPADDR4,
    PMPADDR5,
    PMPADDR6,
    PMPADDR7,
    PMPADDR8,
    PMPADDR9,
    PMPADDR10,
    PMPADDR11,
    PMPADDR12,
    PMPADDR13,
    PMPADDR14,
    PMPADDR15,
    PMPADDR16,
    PMPADDR17,
    PMPADDR18,
    PMPADDR19,
    PMPADDR20,
    PMPADDR21,
    PMPADDR22,
    PMPADDR23,
    PMPADDR24,
    PMPADDR25,
    PMPADDR26,
    PMPADDR27,
    PMPADDR28,
    PMPADDR29,
    PMPADDR30,
    PMPADDR31,
    PMPADDR32,
    PMPADDR33,
    PMPADDR34,
    PMPADDR35,
    PMPADDR36,
    PMPADDR37,
    PMPADDR38,
    PMPADDR39,
    PMPADDR40,
    PMPADDR41,
    PMPADDR42,
    PMPADDR43,
    PMPADDR44,
    PMPADDR45,
    PMPADDR46,
    PMPADDR47,
    PMPADDR48,
    PMPADDR49,
    PMPADDR50,
    PMPADDR51,
    PMPADDR52,
    PMPADDR53,
    PMPADDR54,
    PMPADDR55,
    PMPADDR56,
    PMPADDR57,
    PMPADDR58,
    PMPADDR59,
    PMPADDR60,
    PMPADDR61,
    PMPADDR62,
    PMPADDR63,
    MSECCFG,
    MSECCFGH,
    DCSR,
    PC,
    CSR_END,
    ZERO,
    RA,
    SP,
    GP,
    TP,
    T0,
    T1,
    T2,
    S0,
    S1,
    A0,
    A1,
    A2,
    A3,
    A4,
    A5,
    A6,
    A7,
    S2,
    S3,
    S4,
    S5,
    S6,
    S7,
    S8,
    S9,
    S10,
    S11,
    T3,
    T4,
    T5,
    T6,
    FPR_START,
    FPR_END,
    CUSTOM_START,
    CUSTOM_END,
}

impl RVRegister {
    /// The native debug-access selector id of the register.
    pub open spec fn spec_id(self) -> u16 {
        match self {
            RVRegister::CSR_START => 0x0,
            RVRegister::SSCRATCH => 0x140,
            RVRegister::MSTATUS => 0x300,
            RVRegister::MISA => 0x301,
            RVRegister::MEDELEG => 0x302,
            RVRegister::MIDELEG => 0x303,
            RVRegister::MIE => 0x304,
            RVRegister::MTVEC => 0x305,
            RVRegister::MSTATUSH => 0x310,
            RVRegister::MSCRATCH => 0x340,
            RVRegister::MEPC => 0x341,
            RVRegister::MCAUSE => 0x342,
            RVRegister::MTVAL => 0x343,
            RVRegister::MIP => 0x344,
            RVRegister::PMPCFG0 => 0x3a0,
            RVRegister::PMPCFG1 => 0x3a1,
            RVRegister::PMPCFG2 => 0x3a2,
            RVRegister::PMPCFG3 => 0x3a3,
            RVRegister::PMPCFG4 => 0x3a4,
            RVRegister::PMPCFG5 => 0x3a5,
            RVRegister::PMPCFG6 => 0x3a6,
            RVRegister::PMPCFG7 => 0x3a7,
            RVRegister::PMPCFG8 => 0x3a8,
            RVRegister::PMPCFG9 => 0x3a9,
            RVRegister::PMPCFG10 => 0x3aa,
            RVRegister::PMPCFG11 => 0x3ab,
            RVRegister::PMPCFG12 => 0x3ac,
            RVRegister::PMPCFG13 => 0x3ad,
            RVRegister::PMPCFG14 => 0x3ae,
            RVRegister::PMPCFG15 => 0x3af,
            RVRegister::PMPADDR0 => 0x3b0,
            RVRegister::PMPADDR1 => 0x3b1,
            RVRegister::PMPADDR2 => 0x3b2,
            RVRegister::PMPADDR3 => 0x3b3,
            RVRegister::PMPADDR4 => 0x3b4,
            RVRegister::PMPADDR5 => 0x3b5,
            RVRegister::PMPADDR6 => 0x3b6,
            RVRegister::PMPADDR7 => 0x3b7,
            RVRegister::PMPADDR8 => 0x3b8,
            RVRegister::PMPADDR9 => 0x3b9,
            RVRegister::PMPADDR10 => 0x3ba,
            RVRegister::PMPADDR11 => 0x3bb,
            RVRegister::PMPADDR12 => 0x3bc,
            RVRegister::PMPADDR13 => 0x3bd,
            RVRegister::PMPADDR14 => 0x3be,
            RVRegister::PMPADDR15 => 0x3bf,
            RVRegister::PMPADDR16 => 0x3c0,
            RVRegister::PMPADDR17 => 0x3c1,
            RVRegister::PMPADDR18 => 0x3c2,
            RVRegister::PMPADDR19 => 0x3c3,
            RVRegister::PMPADDR20 => 0x3c4,
            RVRegister::PMPADDR21 => 0x3c5,
            RVRegister::PMPADDR22 => 0x3c6,
            RVRegister::PMPADDR23 => 0x3c7,
            RVRegister::PMPADDR24 => 0x3c8,
            RVRegister::PMPADDR25 => 0x3c9,
            RVRegister::PMPADDR26 => 0x3ca,
            RVRegister::PMPADDR27 => 0x3cb,
            RVRegister::PMPADDR28 => 0x3cc,
            RVRegister::PMPADDR29 => 0x3cd,
            RVRegister::PMPADDR30 => 0x3ce,
            RVRegister::PMPADDR31 => 0x3cf,
            RVRegister::PMPADDR32 => 0x3d0,
            RVRegister::PMPADDR33 => 0x3d1,
            RVRegister::PMPADDR34 => 0x3d2,
            RVRegister::PMPADDR35 => 0x3d3,
            RVRegister::PMPADDR36 => 0x3d4,
            RVRegister::PMPADDR37 => 0x3d5,
            RVRegister::PMPADDR38 => 0x3d6,
            RVRegister::PMPADDR39 => 0x3d7,
            RVRegister::PMPADDR40 => 0x3d8,
            RVRegister::PMPADDR41 => 0x3d9,
            RVRegister::PMPADDR42 => 0x3da,
            RVRegister::PMPADDR43 => 0x3db,
            RVRegister::PMPADDR44 => 0x3dc,
            RVRegister::PMPADDR45 => 0x3dd,
            RVRegister::PMPADDR46 => 0x3de,
            RVRegister::PMPADDR47 => 0x3df,
            RVRegister::PMPADDR48 => 0x3e0,
            RVRegister::PMPADDR49 => 0x3e1,
            RVRegister::PMPADDR50 => 0x3e2,
            RVRegister::PMPADDR51 => 0x3e3,
            RVRegister::PMPADDR52 => 0x3e4,
            RVRegister::PMPADDR53 => 0x3e5,
            RVRegister::PMPADDR54 => 0x3e6,
            RVRegister::PMPADDR55 => 0x3e7,
            RVRegister::PMPADDR56 => 0x3e8,
            RVRegister::PMPADDR57 => 0x3e9,
            RVRegister::PMPADDR58 => 0x3ea,
            RVRegister::PMPADDR59 => 0x3eb,
            RVRegister::PMPADDR60 => 0x3ec,
            RVRegister::PMPADDR61 => 0x3ed,
            RVRegister::PMPADDR62 => 0x3ee,
            RVRegister::PMPADDR63 => 0x3ef,
            RVRegister::MSECCFG => 0x747,
            RVRegister::MSECCFGH => 0x757,
            RVRegister::DCSR => 0x7b0,
            RVRegister::PC => 0x7b1,
            RVRegister::CSR_END => 0xfff,
            RVRegister::ZERO => 0x1000,
            RVRegister::RA => 0x1001,
            RVRegister::SP => 0x1002,
            RVRegister::GP => 0x1003,
            RVRegister::TP => 0x1004,
            RVRegister::T0 => 0x1005,
            RVRegister::T1 => 0x1006,
            RVRegister::T2 => 0x1007,
            RVRegister::S0 => 0x1008,
            RVRegister::S1 => 0x1009,
            RVRegister::A0 => 0x100a,
            RVRegister::A1 => 0x100b,
            RVRegister::A2 => 0x100c,
            RVRegister::A3 => 0x100d,
            RVRegister::A4 => 0x100e,
            RVRegister::A5 => 0x100f,
            RVRegister::A6 => 0x1010,
            RVRegister::A7 => 0x1011,
            RVRegister::S2 => 0x1012,
            RVRegister::S3 => 0x1013,
            RVRegister::S4 => 0x1014,
            RVRegister::S5 => 0x1015,
            RVRegister::S6 => 0x1016,
            RVRegister::S7 => 0x1017,
            RVRegister::S8 => 0x1018,
            RVRegister::S9 => 0x1019,
            RVRegister::S10 => 0x101a,
            RVRegister::S11 => 0x101b,
            RVRegister::T3 => 0x101c,
            RVRegister::T4 => 0x101d,
            RVRegister::T5 => 0x101e,
            RVRegister::T6 => 0x101f,
            RVRegister::FPR_START => 0x1020,
            RVRegister::FPR_END => 0x103f,
            RVRegister::CUSTOM_START => 0xc000,
            RVRegister::CUSTOM_END => 0xffff,
        }
    }

    /// Returns the native debug-access selector id of the register.
    pub fn to_id(&self) -> (r: u16)
        ensures
            r == self.spec_id(),
    {
        match self {
            RVRegister::CSR_START => 0x0,
            RVRegister::SSCRATCH => 0x140,
            RVRegister::MSTATUS => 0x300,
            RVRegister::MISA => 0x301,
            RVRegister::MEDELEG => 0x302,
            RVRegister::MIDELEG => 0x303,
            RVRegister::MIE => 0x304,
            RVRegister::MTVEC => 0x305,
            RVRegister::MSTATUSH => 0x310,
            RVRegister::MSCRATCH => 0x340,
            RVRegister::MEPC => 0x341,
            RVRegister::MCAUSE => 0x342,
            RVRegister::MTVAL => 0x343,
            RVRegister::MIP => 0x344,
            RVRegister::PMPCFG0 => 0x3a0,
            RVRegister::PMPCFG1 => 0x3a1,
            RVRegister::PMPCFG2 => 0x3a2,
            RVRegister::PMPCFG3 => 0x3a3,
            RVRegister::PMPCFG4 => 0x3a4,
            RVRegister::PMPCFG5 => 0x3a5,
            RVRegister::PMPCFG6 => 0x3a6,
            RVRegister::PMPCFG7 => 0x3a7,
            RVRegister::PMPCFG8 => 0x3a8,
            RVRegister::PMPCFG9 => 0x3a9,
            RVRegister::PMPCFG10 => 0x3aa,
            RVRegister::PMPCFG11 => 0x3ab,
            RVRegister::PMPCFG12 => 0x3ac,
            RVRegister::PMPCFG13 => 0x3ad,
            RVRegister::PMPCFG14 => 0x3ae,
            RVRegister::PMPCFG15 => 0x3af,
            RVRegister::PMPADDR0 => 0x3b0,
            RVRegister::PMPADDR1 => 0x3b1,
            RVRegister::PMPADDR2 => 0x3b2,
            RVRegister::PMPADDR3 => 0x3b3,
            RVRegister::PMPADDR4 => 0x3b4,
            RVRegister::PMPADDR5 => 0x3b5,
            RVRegister::PMPADDR6 => 0x3b6,
            RVRegister::PMPADDR7 => 0x3b7,
            RVRegister::PMPADDR8 => 0x3b8,
            RVRegister::PMPADDR9 => 0x3b9,
            RVRegister::PMPADDR10 => 0x3ba,
            RVRegister::PMPADDR11 => 0x3bb,
            RVRegister::PMPADDR12 => 0x3bc,
            RVRegister::PMPADDR13 => 0x3bd,
            RVRegister::PMPADDR14 => 0x3be,
            RVRegister::PMPADDR15 => 0x3bf,
            RVRegister::PMPADDR16 => 0x3c0,
            RVRegister::PMPADDR17 => 0x3c1,
            RVRegister::PMPADDR18 => 0x3c2,
            RVRegister::PMPADDR19 => 0x3c3,
            RVRegister::PMPADDR20 => 0x3c4,
            RVRegister::PMPADDR21 => 0x3c5,
            RVRegister::PMPADDR22 => 0x3c6,
            RVRegister::PMPADDR23 => 0x3c7,
            RVRegister::PMPADDR24 => 0x3c8,
            RVRegister::PMPADDR25 => 0x3c9,
            RVRegister::PMPADDR26 => 0x3ca,
            RVRegister::PMPADDR27 => 0x3cb,
            RVRegister::PMPADDR28 => 0x3cc,
            RVRegister::PMPADDR29 => 0x3cd,
            RVRegister::PMPADDR30 => 0x3ce,
            RVRegister::PMPADDR31 => 0x3cf,
            RVRegister::PMPADDR32 => 0x3d0,
            RVRegister::PMPADDR33 => 0x3d1,
            RVRegister::PMPADDR34 => 0x3d2,
            RVRegister::PMPADDR35 => 0x3d3,
            RVRegister::PMPADDR36 => 0x3d4,
            RVRegister::PMPADDR37 => 0x3d5,
            RVRegister::PMPADDR38 => 0x3d6,
            RVRegister::PMPADDR39 => 0x3d7,
            RVRegister::PMPADDR40 => 0x3d8,
            RVRegister::PMPADDR41 => 0x3d9,
            RVRegister::PMPADDR42 => 0x3da,
            RVRegister::PMPADDR43 => 0x3db,
            RVRegister::PMPADDR44 => 0x3dc,
            RVRegister::PMPADDR45 => 0x3dd,
            RVRegister::PMPADDR46 => 0x3de,
            RVRegister::PMPADDR47 => 0x3df,
            RVRegister::PMPADDR48 => 0x3e0,
            RVRegister::PMPADDR49 => 0x3e1,
            RVRegister::PMPADDR50 => 0x3e2,
            RVRegister::PMPADDR51 => 0x3e3,
            RVRegister::PMPADDR52 => 0x3e4,
            RVRegister::PMPADDR53 => 0x3e5,
            RVRegister::PMPADDR54 => 0x3e6,
            RVRegister::PMPADDR55 => 0x3e7,
            RVRegister::PMPADDR56 => 0x3e8,
            RVRegister::PMPADDR57 => 0x3e9,
            RVRegister::PMPADDR58 => 0x3ea,
            RVRegister::PMPADDR59 => 0x3eb,
            RVRegister::PMPADDR60 => 0x3ec,
            RVRegister::PMPADDR61 => 0x3ed,
            RVRegister::PMPADDR62 => 0x3ee,
            RVRegister::PMPADDR63 => 0x3ef,
            RVRegister::MSECCFG => 0x747,
            RVRegister::MSECCFGH => 0x757,
            RVRegister::DCSR => 0x7b0,
            RVRegister::PC => 0x7b1,
            RVRegister::CSR_END => 0xfff,
            RVRegister::ZERO => 0x1000,
            RVRegister::RA => 0x1001,
            RVRegister::SP => 0x1002,
            RVRegister::GP => 0x1003,
            RVRegister::TP => 0x1004,
            RVRegister::T0 => 0x1005,
            RVRegister::T1 => 0x1006,
            RVRegister::T2 => 0x1007,
            RVRegister::S0 => 0x1008,
            RVRegister::S1 => 0x1009,
            RVRegister::A0 => 0x100a,
            RVRegister::A1 => 0x100b,
            RVRegister::A2 => 0x100c,
            RVRegister::A3 => 0x100d,
            RVRegister::A4 => 0x100e,
            RVRegister::A5 => 0x100f,
            RVRegister::A6 => 0x1010,
            RVRegister::A7 => 0x1011,
            RVRegister::S2 => 0x1012,
            RVRegister::S3 => 0x1013,
            RVRegister::S4 => 0x1014,
            RVRegister::S5 => 0x1015,
            RVRegister::S6 => 0x1016,
            RVRegister::S7 => 0x1017,
            RVRegister::S8 => 0x1018,
            RVRegister::S9 => 0x1019,
            RVRegister::S10 => 0x101a,
            RVRegister::S11 => 0x101b,
            RVRegister::T3 => 0x101c,
            RVRegister::T4 => 0x101d,
            RVRegister::T5 => 0x101e,
            RVRegister::T6 => 0x101f,
            RVRegister::FPR_START => 0x1020,
            RVRegister::FPR_END => 0x103f,
            RVRegister::CUSTOM_START => 0xc000,
            RVRegister::CUSTOM_END => 0xffff,
        }
    }

    /// The register carrying a native selector id, if any.
    pub open spec fn spec_from_id(id: u16) -> Option<RVRegister> {
        if id == 0x0 {
            Some(RVRegister::CSR_START)
        } else if id == 0x140 {
            Some(RVRegister::SSCRATCH)
        } else if id == 0x300 {
            Some(RVRegister::MSTATUS)
        } else if id == 0x301 {
            Some(RVRegister::MISA)
        } else if id == 0x302 {
            Some(RVRegister::MEDELEG)
        } else if id == 0x303 {
            Some(RVRegister::MIDELEG)
        } else if id == 0x304 {
            Some(RVRegister::MIE)
        } else if id == 0x305 {
            Some(RVRegister::MTVEC)
        } else if id == 0x310 {
            Some(RVRegister::MSTATUSH)
        } else if id == 0x340 {
            Some(RVRegister::MSCRATCH)
        } else if id == 0x341 {
            Some(RVRegister::MEPC)
        } else if id == 0x342 {
            Some(RVRegister::MCAUSE)
        } else if id == 0x343 {
            Some(RVRegister::MTVAL)
        } else if id == 0x344 {
            Some(RVRegister::MIP)
        } else if id == 0x3a0 {
            Some(RVRegister::PMPCFG0)
        } else if id == 0x3a1 {
            Some(RVRegister::PMPCFG1)
        } else if id == 0x3a2 {
            Some(RVRegister::PMPCFG2)
        } else if id == 0x3a3 {
            Some(RVRegister::PMPCFG3)
        } else if id == 0x3a4 {
            Some(RVRegister::PMPCFG4)
        } else if id == 0x3a5 {
            Some(RVRegister::PMPCFG5)
        } else if id == 0x3a6 {
            Some(RVRegister::PMPCFG6)
        } else if id == 0x3a7 {
            Some(RVRegister::PMPCFG7)
        } else if id == 0x3a8 {
            Some(RVRegister::PMPCFG8)
        } else if id == 0x3a9 {
            Some(RVRegister::PMPCFG9)
        } else if id == 0x3aa {
            Some(RVRegister::PMPCFG10)
        } else if id == 0x3ab {
            Some(RVRegister::PMPCFG11)
        } else if id == 0x3ac {
            Some(RVRegister::PMPCFG12)
        } else if id == 0x3ad {
            Some(RVRegister::PMPCFG13)
        } else if id == 0x3ae {
            Some(RVRegister::PMPCFG14)
        } else if id == 0x3af {
            Some(RVRegister::PMPCFG15)
        } else if id == 0x3b0 {
            Some(RVRegister::PMPADDR0)
        } else if id == 0x3b1 {
            Some(RVRegister::PMPADDR1)
        } else if id == 0x3b2 {
            Some(RVRegister::PMPADDR2)
        } else if id == 0x3b3 {
            Some(RVRegister::PMPADDR3)
        } else if id == 0x3b4 {
            Some(RVRegister::PMPADDR4)
        } else if id == 0x3b5 {
            Some(RVRegister::PMPADDR5)
        } else if id == 0x3b6 {
            Some(RVRegister::PMPADDR6)
        } else if id == 0x3b7 {
            Some(RVRegister::PMPADDR7)
        } else if id == 0x3b8 {
            Some(RVRegister::PMPADDR8)
        } else if id == 0x3b9 {
            Some(RVRegister::PMPADDR9)
        } else if id == 0x3ba {
            Some(RVRegister::PMPADDR10)
        } else if id == 0x3bb {
            Some(RVRegister::PMPADDR11)
        } else if id == 0x3bc {
            Some(RVRegister::PMPADDR12)
        } else if id == 0x3bd {
            Some(RVRegister::PMPADDR13)
        } else if id == 0x3be {
            Some(RVRegister::PMPADDR14)
        } else if id == 0x3bf {
            Some(RVRegister::PMPADDR15)
        } else if id == 0x3c0 {
            Some(RVRegister::PMPADDR16)
        } else if id == 0x3c1 {
            Some(RVRegister::PMPADDR17)
        } else if id == 0x3c2 {
            Some(RVRegister::PMPADDR18)
        } else if id == 0x3c3 {
            Some(RVRegister::PMPADDR19)
        } else if id == 0x3c4 {
            Some(RVRegister::PMPADDR20)
        } else if id == 0x3c5 {
            Some(RVRegister::PMPADDR21)
        } else if id == 0x3c6 {
            Some(RVRegister::PMPADDR22)
        } else if id == 0x3c7 {
            Some(RVRegister::PMPADDR23)
        } else if id == 0x3c8 {
            Some(RVRegister::PMPADDR24)
        } else if id == 0x3c9 {
            Some(RVRegister::PMPADDR25)
        } else if id == 0x3ca {
            Some(RVRegister::PMPADDR26)
        } else if id == 0x3cb {
            Some(RVRegister::PMPADDR27)
        } else if id == 0x3cc {
            Some(RVRegister::PMPADDR28)
        } else if id == 0x3cd {
            Some(RVRegister::PMPADDR29)
        } else if id == 0x3ce {
            Some(RVRegister::PMPADDR30)
        } else if id == 0x3cf {
            Some(RVRegister::PMPADDR31)
        } else if id == 0x3d0 {
            Some(RVRegister::PMPADDR32)
        } else if id == 0x3d1 {
            Some(RVRegister::PMPADDR33)
        } else if id == 0x3d2 {
            Some(RVRegister::PMPADDR34)
        } else if id == 0x3d3 {
            Some(RVRegister::PMPADDR35)
        } else if id == 0x3d4 {
            Some(RVRegister::PMPADDR36)
        } else if id == 0x3d5 {
            Some(RVRegister::PMPADDR37)
        } else if id == 0x3d6 {
            Some(RVRegister::PMPADDR38)
        } else if id == 0x3d7 {
            Some(RVRegister::PMPADDR39)
        } else if id == 0x3d8 {
            Some(RVRegister::PMPADDR40)
        } else if id == 0x3d9 {
            Some(RVRegister::PMPADDR41)
        } else if id == 0x3da {
            Some(RVRegister::PMPADDR42)
        } else if id == 0x3db {
            Some(RVRegister::PMPADDR43)
        } else if id == 0x3dc {
            Some(RVRegister::PMPADDR44)
        } else if id == 0x3dd {
            Some(RVRegister::PMPADDR45)
        } else if id == 0x3de {
            Some(RVRegister::PMPADDR46)
        } else if id == 0x3df {
            Some(RVRegister::PMPADDR47)
        } else if id == 0x3e0 {
            Some(RVRegister::PMPADDR48)
        } else if id == 0x3e1 {
            Some(RVRegister::PMPADDR49)
        } else if id == 0x3e2 {
            Some(RVRegister::PMPADDR50)
        } else if id == 0x3e3 {
            Some(RVRegister::PMPADDR51)
        } else if id == 0x3e4 {
            Some(RVRegister::PMPADDR52)
        } else if id == 0x3e5 {
            Some(RVRegister::PMPADDR53)
        } else if id == 0x3e6 {
            Some(RVRegister::PMPADDR54)
        } else if id == 0x3e7 {
            Some(RVRegister::PMPADDR55)
        } else if id == 0x3e8 {
            Some(RVRegister::PMPADDR56)
        } else if id == 0x3e9 {
            Some(RVRegister::PMPADDR57)
        } else if id == 0x3ea {
            Some(RVRegister::PMPADDR58)
        } else if id == 0x3eb {
            Some(RVRegister::PMPADDR59)
        } else if id == 0x3ec {
            Some(RVRegister::PMPADDR60)
        } else if id == 0x3ed {
            Some(RVRegister::PMPADDR61)
        } else if id == 0x3ee {
            Some(RVRegister::PMPADDR62)
        } else if id == 0x3ef {
            Some(RVRegister::PMPADDR63)
        } else if id == 0x747 {
            Some(RVRegister::MSECCFG)
        } else if id == 0x757 {
            Some(RVRegister::MSECCFGH)
        } else if id == 0x7b0 {
            Some(RVRegister::DCSR)
        } else if id == 0x7b1 {
            Some(RVRegister::PC)
        } else if id == 0xfff {
            Some(RVRegister::CSR_END)
        } else if id == 0x1000 {
            Some(RVRegister::ZERO)
        } else if id == 0x1001 {
            Some(RVRegister::RA)
        } else if id == 0x1002 {
            Some(RVRegister::SP)
        } else if id == 0x1003 {
            Some(RVRegister::GP)
        } else if id == 0x1004 {
            Some(RVRegister::TP)
        } else if id == 0x1005 {
            Some(RVRegister::T0)
        } else if id == 0x1006 {
            Some(RVRegister::T1)
        } else if id == 0x1007 {
            Some(RVRegister::T2)
        } else if id == 0x1008 {
            Some(RVRegister::S0)
        } else if id == 0x1009 {
            Some(RVRegister::S1)
        } else if id == 0x100a {
            Some(RVRegister::A0)
        } else if id == 0x100b {
            Some(RVRegister::A1)
        } else if id == 0x100c {
            Some(RVRegister::A2)
        } else if id == 0x100d {
            Some(RVRegister::A3)
        } else if id == 0x100e {
            Some(RVRegister::A4)
        } else if id == 0x100f {
            Some(RVRegister::A5)
        } else if id == 0x1010 {
            Some(RVRegister::A6)
        } else if id == 0x1011 {
            Some(RVRegister::A7)
        } else if id == 0x1012 {
            Some(RVRegister::S2)
        } else if id == 0x1013 {
            Some(RVRegister::S3)
        } else if id == 0x1014 {
            Some(RVRegister::S4)
        } else if id == 0x1015 {
            Some(RVRegister::S5)
        } else if id == 0x1016 {
            Some(RVRegister::S6)
        } else if id == 0x1017 {
            Some(RVRegister::S7)
        } else if id == 0x1018 {
            Some(RVRegister::S8)
        } else if id == 0x1019 {
            Some(RVRegister::S9)
        } else if id == 0x101a {
            Some(RVRegister::S10)
        } else if id == 0x101b {
            Some(RVRegister::S11)
        } else if id == 0x101c {
            Some(RVRegister::T3)
        } else if id == 0x101d {
            Some(RVRegister::T4)
        } else if id == 0x101e {
            Some(RVRegister::T5)
        } else if id == 0x101f {
            Some(RVRegister::T6)
        } else if id == 0x1020 {
            Some(RVRegister::FPR_START)
        } else if id == 0x103f {
            Some(RVRegister::FPR_END)
        } else if id == 0xc000 {
            Some(RVRegister::CUSTOM_START)
        } else if id == 0xffff {
            Some(RVRegister::CUSTOM_END)
        } else {
            None
        }
    }

    /// Looks up the register carrying a native selector id.
    pub fn from_id(id: u16) -> (r: Option<RVRegister>)
        ensures
            r == Self::spec_from_id(id),
    {
        match id {
            0x0 => Some(RVRegister::CSR_START),
            0x140 => Some(RVRegister::SSCRATCH),
            0x300 => Some(RVRegister::MSTATUS),
            0x301 => Some(RVRegister::MISA),
            0x302 => Some(RVRegister::MEDELEG),
            0x303 => Some(RVRegister::MIDELEG),
            0x304 => Some(RVRegister::MIE),
            0x305 => Some(RVRegister::MTVEC),
            0x310 => Some(RVRegister::MSTATUSH),
            0x340 => Some(RVRegister::MSCRATCH),
            0x341 => Some(RVRegister::MEPC),
            0x342 => Some(RVRegister::MCAUSE),
            0x343 => Some(RVRegister::MTVAL),
            0x344 => Some(RVRegister::MIP),
            0x3a0 => Some(RVRegister::PMPCFG0),
            0x3a1 => Some(RVRegister::PMPCFG1),
            0x3a2 => Some(RVRegister::PMPCFG2),
            0x3a3 => Some(RVRegister::PMPCFG3),
            0x3a4 => Some(RVRegister::PMPCFG4),
            0x3a5 => Some(RVRegister::PMPCFG5),
            0x3a6 => Some(RVRegister::PMPCFG6),
            0x3a7 => Some(RVRegister::PMPCFG7),
            0x3a8 => Some(RVRegister::PMPCFG8),
            0x3a9 => Some(RVRegister::PMPCFG9),
            0x3aa => Some(RVRegister::PMPCFG10),
            0x3ab => Some(RVRegister::PMPCFG11),
            0x3ac => Some(RVRegister::PMPCFG12),
            0x3ad => Some(RVRegister::PMPCFG13),
            0x3ae => Some(RVRegister::PMPCFG14),
            0x3af => Some(RVRegister::PMPCFG15),
            0x3b0 => Some(RVRegister::PMPADDR0),
            0x3b1 => Some(RVRegister::PMPADDR1),
            0x3b2 => Some(RVRegister::PMPADDR2),
            0x3b3 => Some(RVRegister::PMPADDR3),
            0x3b4 => Some(RVRegister::PMPADDR4),
            0x3b5 => Some(RVRegister::PMPADDR5),
            0x3b6 => Some(RVRegister::PMPADDR6),
            0x3b7 => Some(RVRegister::PMPADDR7),
            0x3b8 => Some(RVRegister::PMPADDR8),
            0x3b9 => Some(RVRegister::PMPADDR9),
            0x3ba => Some(RVRegister::PMPADDR10),
            0x3bb => Some(RVRegister::PMPADDR11),
            0x3bc => Some(RVRegister::PMPADDR12),
            0x3bd => Some(RVRegister::PMPADDR13),
            0x3be => Some(RVRegister::PMPADDR14),
            0x3bf => Some(RVRegister::PMPADDR15),
            0x3c0 => Some(RVRegister::PMPADDR16),
            0x3c1 => Some(RVRegister::PMPADDR17),
            0x3c2 => Some(RVRegister::PMPADDR18),
            0x3c3 => Some(RVRegister::PMPADDR19),
            0x3c4 => Some(RVRegister::PMPADDR20),
            0x3c5 => Some(RVRegister::PMPADDR21),
            0x3c6 => Some(RVRegister::PMPADDR22),
            0x3c7 => Some(RVRegister::PMPADDR23),
            0x3c8 => Some(RVRegister::PMPADDR24),
            0x3c9 => Some(RVRegister::PMPADDR25),
            0x3ca => Some(RVRegister::PMPADDR26),
            0x3cb => Some(RVRegister::PMPADDR27),
            0x3cc => Some(RVRegister::PMPADDR28),
            0x3cd => Some(RVRegister::PMPADDR29),
            0x3ce => Some(RVRegister::PMPADDR30),
            0x3cf => Some(RVRegister::PMPADDR31),
            0x3d0 => Some(RVRegister::PMPADDR32),
            0x3d1 => Some(RVRegister::PMPADDR33),
            0x3d2 => Some(RVRegister::PMPADDR34),
            0x3d3 => Some(RVRegister::PMPADDR35),
            0x3d4 => Some(RVRegister::PMPADDR36),
            0x3d5 => Some(RVRegister::PMPADDR37),
            0x3d6 => Some(RVRegister::PMPADDR38),
            0x3d7 => Some(RVRegister::PMPADDR39),
            0x3d8 => Some(RVRegister::PMPADDR40),
            0x3d9 => Some(RVRegister::PMPADDR41),
            0x3da => Some(RVRegister::PMPADDR42),
            0x3db => Some(RVRegister::PMPADDR43),
            0x3dc => Some(RVRegister::PMPADDR44),
            0x3dd => Some(RVRegister::PMPADDR45),
            0x3de => Some(RVRegister::PMPADDR46),
            0x3df => Some(RVRegister::PMPADDR47),
            0x3e0 => Some(RVRegister::PMPADDR48),
            0x3e1 => Some(RVRegister::PMPADDR49),
            0x3e2 => Some(RVRegister::PMPADDR50),
            0x3e3 => Some(RVRegister::PMPADDR51),
            0x3e4 => Some(RVRegister::PMPADDR52),
            0x3e5 => Some(RVRegister::PMPADDR53),
            0x3e6 => Some(RVRegister::PMPADDR54),
            0x3e7 => Some(RVRegister::PMPADDR55),
            0x3e8 => Some(RVRegister::PMPADDR56),
            0x3e9 => Some(RVRegister::PMPADDR57),
            0x3ea => Some(RVRegister::PMPADDR58),
            0x3eb => Some(RVRegister::PMPADDR59),
            0x3ec => Some(RVRegister::PMPADDR60),
            0x3ed => Some(RVRegister::PMPADDR61),
            0x3ee => Some(RVRegister::PMPADDR62),
            0x3ef => Some(RVRegister::PMPADDR63),
            0x747 => Some(RVRegister::MSECCFG),
            0x757 => Some(RVRegister::MSECCFGH),
            0x7b0 => Some(RVRegister::DCSR),
            0x7b1 => Some(RVRegister::PC),
            0xfff => Some(RVRegister::CSR_END),
            0x1000 => Some(RVRegister::ZERO),
            0x1001 => Some(RVRegister::RA),
            0x1002 => Some(RVRegister::SP),
            0x1003 => Some(RVRegister::GP),
            0x1004 => Some(RVRegister::TP),
            0x1005 => Some(RVRegister::T0),
            0x1006 => Some(RVRegister::T1),
            0x1007 => Some(RVRegister::T2),
            0x1008 => Some(RVRegister::S0),
            0x1009 => Some(RVRegister::S1),
            0x100a => Some(RVRegister::A0),
            0x100b => Some(RVRegister::A1),
            0x100c => Some(RVRegister::A2),
            0x100d => Some(RVRegister::A3),
            0x100e => Some(RVRegister::A4),
            0x100f => Some(RVRegister::A5),
            0x1010 => Some(RVRegister::A6),
            0x1011 => Some(RVRegister::A7),
            0x1012 => Some(RVRegister::S2),
            0x1013 => Some(RVRegister::S3),
            0x1014 => Some(RVRegister::S4),
            0x1015 => Some(RVRegister::S5),
            0x1016 => Some(RVRegister::S6),
            0x1017 => Some(RVRegister::S7),
            0x1018 => Some(RVRegister::S8),
            0x1019 => Some(RVRegister::S9),
            0x101a => Some(RVRegister::S10),
            0x101b => Some(RVRegister::S11),
            0x101c => Some(RVRegister::T3),
            0x101d => Some(RVRegister::T4),
            0x101e => Some(RVRegister::T5),
            0x101f => Some(RVRegister::T6),
            0x1020 => Some(RVRegister::FPR_START),
            0x103f => Some(RVRegister::FPR_END),
            0xc000 => Some(RVRegister::CUSTOM_START),
            0xffff => Some(RVRegister::CUSTOM_END),
            _ => None,
        }
    }

    /// The lowercase name of the register.
    pub open spec fn spec_name(self) -> Seq<char> {
        match self {
            RVRegister::CSR_START => "csr_start"@,
            RVRegister::SSCRATCH => "sscratch"@,
            RVRegister::MSTATUS => "mstatus"@,
            RVRegister::MISA => "misa"@,
            RVRegister::MEDELEG => "medeleg"@,
            RVRegister::MIDELEG => "mideleg"@,
            RVRegister::MIE => "mie"@,
            RVRegister::MTVEC => "mtvec"@,
            RVRegister::MSTATUSH => "mstatush"@,
            RVRegister::MSCRATCH => "mscratch"@,
            RVRegister::MEPC => "mepc"@,
            RVRegister::MCAUSE => "mcause"@,
            RVRegister::MTVAL => "mtval"@,
            RVRegister::MIP => "mip"@,
            RVRegister::PMPCFG0 => "pmpcfg0"@,
            RVRegister::PMPCFG1 => "pmpcfg1"@,
            RVRegister::PMPCFG2 => "pmpcfg2"@,
            RVRegister::PMPCFG3 => "pmpcfg3"@,
            RVRegister::PMPCFG4 => "pmpcfg4"@,
            RVRegister::PMPCFG5 => "pmpcfg5"@,
            RVRegister::PMPCFG6 => "pmpcfg6"@,
            RVRegister::PMPCFG7 => "pmpcfg7"@,
            RVRegister::PMPCFG8 => "pmpcfg8"@,
            RVRegister::PMPCFG9 => "pmpcfg9"@,
            RVRegister::PMPCFG10 => "pmpcfg10"@,
            RVRegister::PMPCFG11 => "pmpcfg11"@,
            RVRegister::PMPCFG12 => "pmpcfg12"@,
            RVRegister::PMPCFG13 => "pmpcfg13"@,
            RVRegister::PMPCFG14 => "pmpcfg14"@,
            RVRegister::PMPCFG15 => "pmpcfg15"@,
            RVRegister::PMPADDR0 => "pmpaddr0"@,
            RVRegister::PMPADDR1 => "pmpaddr1"@,
            RVRegister::PMPADDR2 => "pmpaddr2"@,
            RVRegister::PMPADDR3 => "pmpaddr3"@,
            RVRegister::PMPADDR4 => "pmpaddr4"@,
            RVRegister::PMPADDR5 => "pmpaddr5"@,
            RVRegister::PMPADDR6 => "pmpaddr6"@,
            RVRegister::PMPADDR7 => "pmpaddr7"@,
            RVRegister::PMPADDR8 => "pmpaddr8"@,
            RVRegister::PMPADDR9 => "pmpaddr9"@,
            RVRegister::PMPADDR10 => "pmpaddr10"@,
            RVRegister::PMPADDR11 => "pmpaddr11"@,
            RVRegister::PMPADDR12 => "pmpaddr12"@,
            RVRegister::PMPADDR13 => "pmpaddr13"@,
            RVRegister::PMPADDR14 => "pmpaddr14"@,
            RVRegister::PMPADDR15 => "pmpaddr15"@,
            RVRegister::PMPADDR16 => "pmpaddr16"@,
            RVRegister::PMPADDR17 => "pmpaddr17"@,
            RVRegister::PMPADDR18 => "pmpaddr18"@,
            RVRegister::PMPADDR19 => "pmpaddr19"@,
            RVRegister::PMPADDR20 => "pmpaddr20"@,
            RVRegister::PMPADDR21 => "pmpaddr21"@,
            RVRegister::PMPADDR22 => "pmpaddr22"@,
            RVRegister::PMPADDR23 => "pmpaddr23"@,
            RVRegister::PMPADDR24 => "pmpaddr24"@,
            RVRegister::PMPADDR25 => "pmpaddr25"@,
            RVRegister::PMPADDR26 => "pmpaddr26"@,
            RVRegister::PMPADDR27 => "pmpaddr27"@,
            RVRegister::PMPADDR28 => "pmpaddr28"@,
            RVRegister::PMPADDR29 => "pmpaddr29"@,
            RVRegister::PMPADDR30 => "pmpaddr30"@,
            RVRegister::PMPADDR31 => "pmpaddr31"@,
            RVRegister::PMPADDR32 => "pmpaddr32"@,
            RVRegister::PMPADDR33 => "pmpaddr33"@,
            RVRegister::PMPADDR34 => "pmpaddr34"@,
            RVRegister::PMPADDR35 => "pmpaddr35"@,
            RVRegister::PMPADDR36 => "pmpaddr36"@,
            RVRegister::PMPADDR37 => "pmpaddr37"@,
            RVRegister::PMPADDR38 => "pmpaddr38"@,
            RVRegister::PMPADDR39 => "pmpaddr39"@,
            RVRegister::PMPADDR40 => "pmpaddr40"@,
            RVRegister::PMPADDR41 => "pmpaddr41"@,
            RVRegister::PMPADDR42 => "pmpaddr42"@,
            RVRegister::PMPADDR43 => "pmpaddr43"@,
            RVRegister::PMPADDR44 => "pmpaddr44"@,
            RVRegister::PMPADDR45 => "pmpaddr45"@,
            RVRegister::PMPADDR46 => "pmpaddr46"@,
            RVRegister::PMPADDR47 => "pmpaddr47"@,
            RVRegister::PMPADDR48 => "pmpaddr48"@,
            RVRegister::PMPADDR49 => "pmpaddr49"@,
            RVRegister::PMPADDR50 => "pmpaddr50"@,
            RVRegister::PMPADDR51 => "pmpaddr51"@,
            RVRegister::PMPADDR52 => "pmpaddr52"@,
            RVRegister::PMPADDR53 => "pmpaddr53"@,
            RVRegister::PMPADDR54 => "pmpaddr54"@,
            RVRegister::PMPADDR55 => "pmpaddr55"@,
            RVRegister::PMPADDR56 => "pmpaddr56"@,
            RVRegister::PMPADDR57 => "pmpaddr57"@,
            RVRegister::PMPADDR58 => "pmpaddr58"@,
            RVRegister::PMPADDR59 => "pmpaddr59"@,
            RVRegister::PMPADDR60 => "pmpaddr60"@,
            RVRegister::PMPADDR61 => "pmpaddr61"@,
            RVRegister::PMPADDR62 => "pmpaddr62"@,
            RVRegister::PMPADDR63 => "pmpaddr63"@,
            RVRegister::MSECCFG => "mseccfg"@,
            RVRegister::MSECCFGH => "mseccfgh"@,
            RVRegister::DCSR => "dcsr"@,
            RVRegister::PC => "pc"@,
            RVRegister::CSR_END => "csr_end"@,
            RVRegister::ZERO => "zero"@,
            RVRegister::RA => "ra"@,
            RVRegister::SP => "sp"@,
            RVRegister::GP => "gp"@,
            RVRegister::TP => "tp"@,
            RVRegister::T0 => "t0"@,
            RVRegister::T1 => "t1"@,
            RVRegister::T2 => "t2"@,
            RVRegister::S0 => "s0"@,
            RVRegister::S1 => "s1"@,
            RVRegister::A0 => "a0"@,
            RVRegister::A1 => "a1"@,
            RVRegister::A2 => "a2"@,
            RVRegister::A3 => "a3"@,
            RVRegister::A4 => "a4"@,
            RVRegister::A5 => "a5"@,
            RVRegister::A6 => "a6"@,
            RVRegister::A7 => "a7"@,
            RVRegister::S2 => "s2"@,
            RVRegister::S3 => "s3"@,
            RVRegister::S4 => "s4"@,
            RVRegister::S5 => "s5"@,
            RVRegister::S6 => "s6"@,
            RVRegister::S7 => "s7"@,
            RVRegister::S8 => "s8"@,
            RVRegister::S9 => "s9"@,
            RVRegister::S10 => "s10"@,
            RVRegister::S11 => "s11"@,
            RVRegister::T3 => "t3"@,
            RVRegister::T4 => "t4"@,
            RVRegister::T5 => "t5"@,
            RVRegister::T6 => "t6"@,
            RVRegister::FPR_START => "fpr_start"@,
            RVRegister::FPR_END => "fpr_end"@,
            RVRegister::CUSTOM_START => "custom_start"@,
            RVRegister::CUSTOM_END => "custom_end"@,
        }
    }

    /// Returns the lowercase name of the register.
    pub fn name(&self) -> (r: &'static str)
        ensures
            r@ == self.spec_name(),
    {
        match self {
            RVRegister::CSR_START => "csr_start",
            RVRegister::SSCRATCH => "sscratch",
            RVRegister::MSTATUS => "mstatus",
            RVRegister::MISA => "misa",
            RVRegister::MEDELEG => "medeleg",
            RVRegister::MIDELEG => "mideleg",
            RVRegister::MIE => "mie",
            RVRegister::MTVEC => "mtvec",
            RVRegister::MSTATUSH => "mstatush",
            RVRegister::MSCRATCH => "mscratch",
            RVRegister::MEPC => "mepc",
            RVRegister::MCAUSE => "mcause",
            RVRegister::MTVAL => "mtval",
            RVRegister::MIP => "mip",
            RVRegister::PMPCFG0 => "pmpcfg0",
            RVRegister::PMPCFG1 => "pmpcfg1",
            RVRegister::PMPCFG2 => "pmpcfg2",
            RVRegister::PMPCFG3 => "pmpcfg3",
            RVRegister::PMPCFG4 => "pmpcfg4",
            RVRegister::PMPCFG5 => "pmpcfg5",
            RVRegister::PMPCFG6 => "pmpcfg6",
            RVRegister::PMPCFG7 => "pmpcfg7",
            RVRegister::PMPCFG8 => "pmpcfg8",
            RVRegister::PMPCFG9 => "pmpcfg9",
            RVRegister::PMPCFG10 => "pmpcfg10",
            RVRegister::PMPCFG11 => "pmpcfg11",
            RVRegister::PMPCFG12 => "pmpcfg12",
            RVRegister::PMPCFG13 => "pmpcfg13",
            RVRegister::PMPCFG14 => "pmpcfg14",
            RVRegister::PMPCFG15 => "pmpcfg15",
            RVRegister::PMPADDR0 => "pmpaddr0",
            RVRegister::PMPADDR1 => "pmpaddr1",
            RVRegister::PMPADDR2 => "pmpaddr2",
            RVRegister::PMPADDR3 => "pmpaddr3",
            RVRegister::PMPADDR4 => "pmpaddr4",
            RVRegister::PMPADDR5 => "pmpaddr5",
            RVRegister::PMPADDR6 => "pmpaddr6",
            RVRegister::PMPADDR7 => "pmpaddr7",
            RVRegister::PMPADDR8 => "pmpaddr8",
            RVRegister::PMPADDR9 => "pmpaddr9",
            RVRegister::PMPADDR10 => "pmpaddr10",
            RVRegister::PMPADDR11 => "pmpaddr11",
            RVRegister::PMPADDR12 => "pmpaddr12",
            RVRegister::PMPADDR13 => "pmpaddr13",
            RVRegister::PMPADDR14 => "pmpaddr14",
            RVRegister::PMPADDR15 => "pmpaddr15",
            RVRegister::PMPADDR16 => "pmpaddr16",
            RVRegister::PMPADDR17 => "pmpaddr17",
            RVRegister::PMPADDR18 => "pmpaddr18",
            RVRegister::PMPADDR19 => "pmpaddr19",
            RVRegister::PMPADDR20 => "pmpaddr20",
            RVRegister::PMPADDR21 => "pmpaddr21",
            RVRegister::PMPADDR22 => "pmpaddr22",
            RVRegister::PMPADDR23 => "pmpaddr23",
            RVRegister::PMPADDR24 => "pmpaddr24",
            RVRegister::PMPADDR25 => "pmpaddr25",
            RVRegister::PMPADDR26 => "pmpaddr26",
            RVRegister::PMPADDR27 => "pmpaddr27",
            RVRegister::PMPADDR28 => "pmpaddr28",
            RVRegister::PMPADDR29 => "pmpaddr29",
            RVRegister::PMPADDR30 => "pmpaddr30",
            RVRegister::PMPADDR31 => "pmpaddr31",
            RVRegister::PMPADDR32 => "pmpaddr32",
            RVRegister::PMPADDR33 => "pmpaddr33",
            RVRegister::PMPADDR34 => "pmpaddr34",
            RVRegister::PMPADDR35 => "pmpaddr35",
            RVRegister::PMPADDR36 => "pmpaddr36",
            RVRegister::PMPADDR37 => "pmpaddr37",
            RVRegister::PMPADDR38 => "pmpaddr38",
            RVRegister::PMPADDR39 => "pmpaddr39",
            RVRegister::PMPADDR40 => "pmpaddr40",
            RVRegister::PMPADDR41 => "pmpaddr41",
            RVRegister::PMPADDR42 => "pmpaddr42",
            RVRegister::PMPADDR43 => "pmpaddr43",
            RVRegister::PMPADDR44 => "pmpaddr44",
            RVRegister::PMPADDR45 => "pmpaddr45",
            RVRegister::PMPADDR46 => "pmpaddr46",
            RVRegister::PMPADDR47 => "pmpaddr47",
            RVRegister::PMPADDR48 => "pmpaddr48",
            RVRegister::PMPADDR49 => "pmpaddr49",
            RVRegister::PMPADDR50 => "pmpaddr50",
            RVRegister::PMPADDR51 => "pmpaddr51",
            RVRegister::PMPADDR52 => "pmpaddr52",
            RVRegister::PMPADDR53 => "pmpaddr53",
            RVRegister::PMPADDR54 => "pmpaddr54",
            RVRegister::PMPADDR55 => "pmpaddr55",
            RVRegister::PMPADDR56 => "pmpaddr56",
            RVRegister::PMPADDR57 => "pmpaddr57",
            RVRegister::PMPADDR58 => "pmpaddr58",
            RVRegister::PMPADDR59 => "pmpaddr59",
            RVRegister::PMPADDR60 => "pmpaddr60",
            RVRegister::PMPADDR61 => "pmpaddr61",
            RVRegister::PMPADDR62 => "pmpaddr62",
            RVRegister::PMPADDR63 => "pmpaddr63",
            RVRegister::MSECCFG => "mseccfg",
            RVRegister::MSECCFGH => "mseccfgh",
            RVRegister::DCSR => "dcsr",
            RVRegister::PC => "pc",
            RVRegister::CSR_END => "csr_end",
            RVRegister::ZERO => "zero",
            RVRegister::RA => "ra",
            RVRegister::SP => "sp",
            RVRegister::GP => "gp",
            RVRegister::TP => "tp",
            RVRegister::T0 => "t0",
            RVRegister::T1 => "t1",
            RVRegister::T2 => "t2",
            RVRegister::S0 => "s0",
            RVRegister::S1 => "s1",
            RVRegister::A0 => "a0",
            RVRegister::A1 => "a1",
            RVRegister::A2 => "a2",
            RVRegister::A3 => "a3",
            RVRegister::A4 => "a4",
            RVRegister::A5 => "a5",
            RVRegister::A6 => "a6",
            RVRegister::A7 => "a7",
            RVRegister::S2 => "s2",
            RVRegister::S3 => "s3",
            RVRegister::S4 => "s4",
            RVRegister::S5 => "s5",
            RVRegister::S6 => "s6",
            RVRegister::S7 => "s7",
            RVRegister::S8 => "s8",
            RVRegister::S9 => "s9",
            RVRegister::S10 => "s10",
            RVRegister::S11 => "s11",
            RVRegister::T3 => "t3",
            RVRegister::T4 => "t4",
            RVRegister::T5 => "t5",
            RVRegister::T6 => "t6",
            RVRegister::FPR_START => "fpr_start",
            RVRegister::FPR_END => "fpr_end",
            RVRegister::CUSTOM_START => "custom_start",
            RVRegister::CUSTOM_END => "custom_end",
        }
    }

    /// The register the disassembler designates by `id`, if any.
    pub open spec fn spec_from_disasm_id(id: u16) -> Option<RVRegister> {
        if id == 1 {
            Some(RVRegister::ZERO)
        } else if id == 2 {
            Some(RVRegister::RA)
        } else if id == 3 {
            Some(RVRegister::SP)
        } else if id == 4 {
            Some(RVRegister::GP)
        } else if id == 5 {
            Some(RVRegister::TP)
        } else if id == 6 {
            Some(RVRegister::T0)
        } else if id == 7 {
            Some(RVRegister::T1)
        } else if id == 8 {
            Some(RVRegister::T2)
        } else if id == 9 {
            Some(RVRegister::S0)
        } else if id == 10 {
            Some(RVRegister::S1)
        } else if id == 11 {
            Some(RVRegister::A0)
        } else if id == 12 {
            Some(RVRegister::A1)
        } else if id == 13 {
            Some(RVRegister::A2)
        } else if id == 14 {
            Some(RVRegister::A3)
        } else if id == 15 {
            Some(RVRegister::A4)
        } else if id == 16 {
            Some(RVRegister::A5)
        } else if id == 17 {
            Some(RVRegister::A6)
        } else if id == 18 {
            Some(RVRegister::A7)
        } else if id == 19 {
            Some(RVRegister::S2)
        } else if id == 20 {
            Some(RVRegister::S3)
        } else if id == 21 {
            Some(RVRegister::S4)
        } else if id == 22 {
            Some(RVRegister::S5)
        } else if id == 23 {
            Some(RVRegister::S6)
        } else if id == 24 {
            Some(RVRegister::S7)
        } else if id == 25 {
            Some(RVRegister::S8)
        } else if id == 26 {
            Some(RVRegister::S9)
        } else if id == 27 {
            Some(RVRegister::S10)
        } else if id == 28 {
            Some(RVRegister::S11)
        } else if id == 29 {
            Some(RVRegister::T3)
        } else if id == 30 {
            Some(RVRegister::T4)
        } else if id == 31 {
            Some(RVRegister::T5)
        } else if id == 32 {
            Some(RVRegister::T6)
        } else {
            None
        }
    }

    /// Looks up the register the disassembler designates by `id`.
    pub fn from_disasm_id(id: u16) -> (r: Option<RVRegister>)
        ensures
            r == Self::spec_from_disasm_id(id),
    {
        match id {
            1 => Some(RVRegister::ZERO),
            2 => Some(RVRegister::RA),
            3 => Some(RVRegister::SP),
            4 => Some(RVRegister::GP),
            5 => Some(RVRegister::TP),
            6 => Some(RVRegister::T0),
            7 => Some(RVRegister::T1),
            8 => Some(RVRegister::T2),
            9 => Some(RVRegister::S0),
            10 => Some(RVRegister::S1),
            11 => Some(RVRegister::A0),
            12 => Some(RVRegister::A1),
            13 => Some(RVRegister::A2),
            14 => Some(RVRegister::A3),
            15 => Some(RVRegister::A4),
            16 => Some(RVRegister::A5),
            17 => Some(RVRegister::A6),
            18 => Some(RVRegister::A7),
            19 => Some(RVRegister::S2),
            20 => Some(RVRegister::S3),
            21 => Some(RVRegister::S4),
            22 => Some(RVRegister::S5),
            23 => Some(RVRegister::S6),
            24 => Some(RVRegister::S7),
            25 => Some(RVRegister::S8),
            26 => Some(RVRegister::S9),
            27 => Some(RVRegister::S10),
            28 => Some(RVRegister::S11),
            29 => Some(RVRegister::T3),
            30 => Some(RVRegister::T4),
            31 => Some(RVRegister::T5),
            32 => Some(RVRegister::T6),
            _ => None,
        }
    }

    /// The disassembler's id for the register, if it has one.
    pub open spec fn spec_disasm_id(self) -> Option<u16> {
        match self {
            RVRegister::ZERO => Some(1),
            RVRegister::RA => Some(2),
            RVRegister::SP => Some(3),
            RVRegister::GP => Some(4),
            RVRegister::TP => Some(5),
            RVRegister::T0 => Some(6),
            RVRegister::T1 => Some(7),
            RVRegister::T2 => Some(8),
            RVRegister::S0 => Some(9),
            RVRegister::S1 => Some(10),
            RVRegister::A0 => Some(11),
            RVRegister::A1 => Some(12),
            RVRegister::A2 => Some(13),
            RVRegister::A3 => Some(14),
            RVRegister::A4 => Some(15),
            RVRegister::A5 => Some(16),
            RVRegister::A6 => Some(17),
            RVRegister::A7 => Some(18),
            RVRegister::S2 => Some(19),
            RVRegister::S3 => Some(20),
            RVRegister::S4 => Some(21),
            RVRegister::S5 => Some(22),
            RVRegister::S6 => Some(23),
            RVRegister::S7 => Some(24),
            RVRegister::S8 => Some(25),
            RVRegister::S9 => Some(26),
            RVRegister::S10 => Some(27),
            RVRegister::S11 => Some(28),
            RVRegister::T3 => Some(29),
            RVRegister::T4 => Some(30),
            RVRegister::T5 => Some(31),
            RVRegister::T6 => Some(32),
            _ => None,
        }
    }

}
/// One stretch of the register list, in enumeration order.
pub open spec fn rv_register_chunk_csr_low() -> Seq<Register> {
    seq![
        Register::RiscV(RVRegister::CSR_START),
        Register::RiscV(RVRegister::SSCRATCH),
        Register::RiscV(RVRegister::MSTATUS),
        Register::RiscV(RVRegister::MISA),
        Register::RiscV(RVRegister::MEDELEG),
        Register::RiscV(RVRegister::MIDELEG),
        Register::RiscV(RVRegister::MIE),
        Register::RiscV(RVRegister::MTVEC),
        Register::RiscV(RVRegister::MSTATUSH),
        Register::RiscV(RVRegister::MSCRATCH),
        Register::RiscV(RVRegister::MEPC),
        Register::RiscV(RVRegister::MCAUSE),
        Register::RiscV(RVRegister::MTVAL),
        Register::RiscV(RVRegister::MIP),
        Register::RiscV(RVRegister::PMPCFG0),
        Register::RiscV(RVRegister::PMPCFG1),
        Register::RiscV(RVRegister::PMPCFG2),
        Register::RiscV(RVRegister::PMPCFG3),
        Register::RiscV(RVRegister::PMPCFG4),
        Register::RiscV(RVRegister::PMPCFG5),
        Register::RiscV(RVRegister::PMPCFG6),
        Register::RiscV(RVRegister::PMPCFG7),
        Register::RiscV(RVRegister::PMPCFG8),
        Register::RiscV(RVRegister::PMPCFG9),
        Register::RiscV(RVRegister::PMPCFG10),
        Register::RiscV(RVRegister::PMPCFG11),
        Register::RiscV(RVRegister::PMPCFG12),
        Register::RiscV(RVRegister::PMPCFG13),
        Register::RiscV(RVRegister::PMPCFG14),
        Register::RiscV(RVRegister::PMPCFG15),
        Register::RiscV(RVRegister::PMPADDR0),
        Register::RiscV(RVRegister::PMPADDR1),
        Register::RiscV(RVRegister::PMPADDR2),
        Register::RiscV(RVRegister::PMPADDR3),
        Register::RiscV(RVRegister::PMPADDR4),
    ]
}

fn push_chunk_csr_low(v: &mut Vec<Register>)
    ensures
        final(v)@ == old(v)@ + rv_register_chunk_csr_low(),
{
    v.push(Register::RiscV(RVRegister::CSR_START));
    v.push(Register::RiscV(RVRegister::SSCRATCH));
    v.push(Register::RiscV(RVRegister::MSTATUS));
    v.push(Register::RiscV(RVRegister::MISA));
    v.push(Register::RiscV(RVRegister::MEDELEG));
    v.push(Register::RiscV(RVRegister::MIDELEG));
    v.push(Register::RiscV(RVRegister::MIE));
    v.push(Register::RiscV(RVRegister::MTVEC));
    v.push(Register::RiscV(RVRegister::MSTATUSH));
    v.push(Register::RiscV(RVRegister::MSCRATCH));
    v.push(Register::RiscV(RVRegister::MEPC));
    v.push(Register::RiscV(RVRegister::MCAUSE));
    v.push(Register::RiscV(RVRegister::MTVAL));
    v.push(Register::RiscV(RVRegister::MIP));
    v.push(Register::RiscV(RVRegister::PMPCFG0));
    v.push(Register::RiscV(RVRegister::PMPCFG1));
    v.push(Register::RiscV(RVRegister::PMPCFG2));
    v.push(Register::RiscV(RVRegister::PMPCFG3));
    v.push(Register::RiscV(RVRegister::PMPCFG4));
    v.push(Register::RiscV(RVRegister::PMPCFG5));
    v.push(Register::RiscV(RVRegister::PMPCFG6));
    v.push(Register::RiscV(RVRegister::PMPCFG7));
    v.push(Register::RiscV(RVRegister::PMPCFG8));
    v.push(Register::RiscV(RVRegister::PMPCFG9));
    v.push(Register::RiscV(RVRegister::PMPCFG10));
    v.push(Register::RiscV(RVRegister::PMPCFG11));
    v.push(Register::RiscV(RVRegister::PMPCFG12));
    v.push(Register::RiscV(RVRegister::PMPCFG13));
    v.push(Register::RiscV(RVRegister::PMPCFG14));
    v.push(Register::RiscV(RVRegister::PMPCFG15));
    v.push(Register::RiscV(RVRegister::PMPADDR0));
    v.push(Register::RiscV(RVRegister::PMPADDR1));
    v.push(Register::RiscV(RVRegister::PMPADDR2));
    v.push(Register::RiscV(RVRegister::PMPADDR3));
    v.push(Register::RiscV(RVRegister::PMPADDR4));
    proof {
        assert(v@ =~= old(v)@ + rv_register_chunk_csr_low());
    }
}

/// One stretch of the register list, in enumeration order.
pub open spec fn rv_register_chunk_csr_high() -> Seq<Register> {
    seq![
        Register::RiscV(RVRegister::PMPADDR5),
        Register::RiscV(RVRegister::PMPADDR6),
        Register::RiscV(RVRegister::PMPADDR7),
        Register::RiscV(RVRegister::PMPADDR8),
        Register::RiscV(RVRegister::PMPADDR9),
        Register::RiscV(RVRegister::PMPADDR10),
        Register::RiscV(RVRegister::PMPADDR11),
        Register::RiscV(RVRegister::PMPADDR12),
        Register::RiscV(RVRegister::PMPADDR13),
        Register::RiscV(RVRegister::PMPADDR14),
        Register::RiscV(RVRegister::PMPADDR15),
        Register::RiscV(RVRegister::PMPADDR16),
        Register::RiscV(RVRegister::PMPADDR17),
        Register::RiscV(RVRegister::PMPADDR18),
        Register::RiscV(RVRegister::PMPADDR19),
        Register::RiscV(RVRegister::PMPADDR20),
        Register::RiscV(RVRegister::PMPADDR21),
        Register::RiscV(RVRegister::PMPADDR22),
        Register::RiscV(RVRegister::PMPADDR23),
        Register::RiscV(RVRegister::PMPADDR24),
        Register::RiscV(RVRegister::PMPADDR25),
        Register::RiscV(RVRegister::PMPADDR26),
        Register::RiscV(RVRegister::PMPADDR27),
        Register::RiscV(RVRegister::PMPADDR28),
        Register::RiscV(RVRegister::PMPADDR29),
        Register::RiscV(RVRegister::PMPADDR30),
        Register::RiscV(RVRegister::PMPADDR31),
        Register::RiscV(RVRegister::PMPADDR32),
        Register::RiscV(RVRegister::PMPADDR33),
        Register::RiscV(RVRegister::PMPADDR34),
        Register::RiscV(RVRegister::PMPADDR35),
        Register::RiscV(RVRegister::PMPADDR36),
        Register::RiscV(RVRegister::PMPADDR37),
        Register::RiscV(RVRegister::PMPADDR38),
        Register::RiscV(RVRegister::PMPADDR39),
    ]
}

fn push_chunk_csr_high(v: &mut Vec<Register>)
    ensures
        final(v)@ == old(v)@ + rv_register_chunk_csr_high(),
{
    v.push(Register::RiscV(RVRegister::PMPADDR5));
    v.push(Register::RiscV(RVRegister::PMPADDR6));
    v.push(Register::RiscV(RVRegister::PMPADDR7));
    v.push(Register::RiscV(RVRegister::PMPADDR8));
    v.push(Register::RiscV(RVRegister::PMPADDR9));
    v.push(Register::RiscV(RVRegister::PMPADDR10));
    v.push(Register::RiscV(RVRegister::PMPADDR11));
    v.push(Register::RiscV(RVRegister::PMPADDR12));
    v.push(Register::RiscV(RVRegister::PMPADDR13));
    v.push(Register::RiscV(RVRegister::PMPADDR14));
    v.push(Register::RiscV(RVRegister::PMPADDR15));
    v.push(Register::RiscV(RVRegister::PMPADDR16));
    v.push(Register::RiscV(RVRegister::PMPADDR17));
    v.push(Register::RiscV(RVRegister::PMPADDR18));
    v.push(Register::RiscV(RVRegister::PMPADDR19));
    v.push(Register::RiscV(RVRegister::PMPADDR20));
    v.push(Register::RiscV(RVRegister::PMPADDR21));
    v.push(Register::RiscV(RVRegister::PMPADDR22));
    v.push(Register::RiscV(RVRegister::PMPADDR23));
    v.push(Register::RiscV(RVRegister::PMPADDR24));
    v.push(Register::RiscV(RVRegister::PMPADDR25));
    v.push(Register::RiscV(RVRegister::PMPADDR26));
    v.push(Register::RiscV(RVRegister::PMPADDR27));
    v.push(Register::RiscV(RVRegister::PMPADDR28));
    v.push(Register::RiscV(RVRegister::PMPADDR29));
    v.push(Register::RiscV(RVRegister::PMPADDR30));
    v.push(Register::RiscV(RVRegister::PMPADDR31));
    v.push(Register::RiscV(RVRegister::PMPADDR32));
    v.push(Register::RiscV(RVRegister::PMPADDR33));
    v.push(Register::RiscV(RVRegister::PMPADDR34));
    v.push(Register::RiscV(RVRegister::PMPADDR35));
    v.push(Register::RiscV(RVRegister::PMPADDR36));
    v.push(Register::RiscV(RVRegister::PMPADDR37));
    v.push(Register::RiscV(RVRegister::PMPADDR38));
    v.push(Register::RiscV(RVRegister::PMPADDR39));
    proof {
        assert(v@ =~= old(v)@ + rv_register_chunk_csr_high());
    }
}

/// One stretch of the register list, in enumeration order.
pub open spec fn rv_register_chunk_gpr() -> Seq<Register> {
    seq![
        Register::RiscV(RVRegister::PMPADDR40),
        Register::RiscV(RVRegister::PMPADDR41),
        Register::RiscV(RVRegister::PMPADDR42),
        Register::RiscV(RVRegister::PMPADDR43),
        Register::RiscV(RVRegister::PMPADDR44),
        Register::RiscV(RVRegister::PMPADDR45),
        Register::RiscV(RVRegister::PMPADDR46),
        Register::RiscV(RVRegister::PMPADDR47),
        Register::RiscV(RVRegister::PMPADDR48),
        Register::RiscV(RVRegister::PMPADDR49),
        Register::RiscV(RVRegister::PMPADDR50),
        Register::RiscV(RVRegister::PMPADDR51),
        Register::RiscV(RVRegister::PMPADDR52),
        Register::RiscV(RVRegister::PMPADDR53),
        Register::RiscV(RVRegister::PMPADDR54),
        Register::RiscV(RVRegister::PMPADDR55),
        Register::RiscV(RVRegister::PMPADDR56),
        Register::RiscV(RVRegister::PMPADDR57),
        Register::RiscV(RVRegister::PMPADDR58),
        Register::RiscV(RVRegister::PMPADDR59),
        Register::RiscV(RVRegister::PMPADDR60),
        Register::RiscV(RVRegister::PMPADDR61),
        Register::RiscV(RVRegister::PMPADDR62),
        Register::RiscV(RVRegister::PMPADDR63),
        Register::RiscV(RVRegister::MSECCFG),
        Register::RiscV(RVRegister::MSECCFGH),
        Register::RiscV(RVRegister::DCSR),
        Register::RiscV(RVRegister::PC),
        Register::RiscV(RVRegister::CSR_END),
        Register::RiscV(RVRegister::ZERO),
        Register::RiscV(RVRegister::RA),
        Register::RiscV(RVRegister::SP),
        Register::RiscV(RVRegister::GP),
        Register::RiscV(RVRegister::TP),
        Register::RiscV(RVRegister::T0),
    ]
}

fn push_chunk_gpr(v: &mut Vec<Register>)
    ensures
        final(v)@ == old(v)@ + rv_register_chunk_gpr(),
{
    v.push(Register::RiscV(RVRegister::PMPADDR40));
    v.push(Register::RiscV(RVRegister::PMPADDR41));
    v.push(Register::RiscV(RVRegister::PMPADDR42));
    v.push(Register::RiscV(RVRegister::PMPADDR43));
    v.push(Register::RiscV(RVRegister::PMPADDR44));
    v.push(Register::RiscV(RVRegister::PMPADDR45));
    v.push(Register::RiscV(RVRegister::PMPADDR46));
    v.push(Register::RiscV(RVRegister::PMPADDR47));
    v.push(Register::RiscV(RVRegister::PMPADDR48));
    v.push(Register::RiscV(RVRegister::PMPADDR49));
    v.push(Register::RiscV(RVRegister::PMPADDR50));
    v.push(Register::RiscV(RVRegister::PMPADDR51));
    v.push(Register::RiscV(RVRegister::PMPADDR52));
    v.push(Register::RiscV(RVRegister::PMPADDR53));
    v.push(Register::RiscV(RVRegister::PMPADDR54));
    v.push(Register::RiscV(RVRegister::PMPADDR55));
    v.push(Register::RiscV(RVRegister::PMPADDR56));
    v.push(Register::RiscV(RVRegister::PMPADDR57));
    v.push(Register::RiscV(RVRegister::PMPADDR58));
    v.push(Register::RiscV(RVRegister::PMPADDR59));
    v.push(Register::RiscV(RVRegister::PMPADDR60));
    v.push(Register::RiscV(RVRegister::PMPADDR61));
    v.push(Register::RiscV(RVRegister::PMPADDR62));
    v.push(Register::RiscV(RVRegister::PMPADDR63));
    v.push(Register::RiscV(RVRegister::MSECCFG));
    v.push(Register::RiscV(RVRegister::MSECCFGH));
    v.push(Register::RiscV(RVRegister::DCSR));
    v.push(Register::RiscV(RVRegister::PC));
    v.push(Register::RiscV(RVRegister::CSR_END));
    v.push(Register::RiscV(RVRegister::ZERO));
    v.push(Register::RiscV(RVRegister::RA));
    v.push(Register::RiscV(RVRegister::SP));
    v.push(Register::RiscV(RVRegister::GP));
    v.push(Register::RiscV(RVRegister::TP));
    v.push(Register::RiscV(RVRegister::T0));
    proof {
        assert(v@ =~= old(v)@ + rv_register_chunk_gpr());
    }
}

/// One stretch of the register list, in enumeration order.
pub open spec fn rv_register_chunk_upper() -> Seq<Register> {
    seq![
        Register::RiscV(RVRegister::T1),
        Register::RiscV(RVRegister::T2),
        Register::RiscV(RVRegister::S0),
        Register::RiscV(RVRegister::S1),
        Register::RiscV(RVRegister::A0),
        Register::RiscV(RVRegister::A1),
        Register::RiscV(RVRegister::A2),
        Register::RiscV(RVRegister::A3),
        Register::RiscV(RVRegister::A4),
        Register::RiscV(RVRegister::A5),
        Register::RiscV(RVRegister::A6),
        Register::RiscV(RVRegister::A7),
        Register::RiscV(RVRegister::S2),
        Register::RiscV(RVRegister::S3),
        Register::RiscV(RVRegister::S4),
        Register::RiscV(RVRegister::S5),
        Register::RiscV(RVRegister::S6),
        Register::RiscV(RVRegister::S7),
        Register::RiscV(RVRegister::S8),
        Register::RiscV(RVRegister::S9),
        Register::RiscV(RVRegister::S10),
        Register::RiscV(RVRegister::S11),
        Register::RiscV(RVRegister::T3),
        Register::RiscV(RVRegister::T4),
        Register::RiscV(RVRegister::T5),
        Register::RiscV(RVRegister::T6),
        Register::RiscV(RVRegister::FPR_START),
        Register::RiscV(RVRegister::FPR_END),
        Register::RiscV(RVRegister::CUSTOM_START),
        Register::RiscV(RVRegister::CUSTOM_END),
    ]
}

fn push_chunk_upper(v: &mut Vec<Register>)
    ensures
        final(v)@ == old(v)@ + rv_register_chunk_upper(),
{
    v.push(Register::RiscV(RVRegister::T1));
    v.push(Register::RiscV(RVRegister::T2));
    v.push(Register::RiscV(RVRegister::S0));
    v.push(Register::RiscV(RVRegister::S1));
    v.push(Register::RiscV(RVRegister::A0));
    v.push(Register::RiscV(RVRegister::A1));
    v.push(Register::RiscV(RVRegister::A2));
    v.push(Register::RiscV(RVRegister::A3));
    v.push(Register::RiscV(RVRegister::A4));
    v.push(Register::RiscV(RVRegister::A5));
    v.push(Register::RiscV(RVRegister::A6));
    v.push(Register::RiscV(RVRegister::A7));
    v.push(Register::RiscV(RVRegister::S2));
    v.push(Register::RiscV(RVRegister::S3));
    v.push(Register::RiscV(RVRegister::S4));
    v.push(Register::RiscV(RVRegister::S5));
    v.push(Register::RiscV(RVRegister::S6));
    v.push(Register::RiscV(RVRegister::S7));
    v.push(Register::RiscV(RVRegister::S8));
    v.push(Register::RiscV(RVRegister::S9));
    v.push(Register::RiscV(RVRegister::S10));
    v.push(Register::RiscV(RVRegister::S11));
    v.push(Register::RiscV(RVRegister::T3));
    v.push(Register::RiscV(RVRegister::T4));
    v.push(Register::RiscV(RVRegister::T5));
    v.push(Register::RiscV(RVRegister::T6));
    v.push(Register::RiscV(RVRegister::FPR_START));
    v.push(Register::RiscV(RVRegister::FPR_END));
    v.push(Register::RiscV(RVRegister::CUSTOM_START));
    v.push(Register::RiscV(RVRegister::CUSTOM_END));
    proof {
        assert(v@ =~= old(v)@ + rv_register_chunk_upper());
    }
}

/// The full register list, in enumeration order.
pub open spec fn rv_register_list_spec() -> Seq<Register> {
    rv_register_chunk_csr_low() + rv_register_chunk_csr_high() + rv_register_chunk_gpr() + rv_register_chunk_upper()
}

/// Returns every register of the architecture, in enumeration order.
pub fn get_all_registers() -> (r: Vec<Register>)
    ensures
        r@ == rv_register_list_spec(),
{
    let mut v: Vec<Register> = Vec::new();
    push_chunk_csr_low(&mut v);
    push_chunk_csr_high(&mut v);
    push_chunk_gpr(&mut v);
    push_chunk_upper(&mut v);
    proof {
        assert(v@ =~= rv_register_list_spec());
    }
    v
}

impl RVRegister {
    /// Whether the register is an integer general-purpose register.
    pub fn is_general_purpose(&self) -> (r: bool)
        ensures
            r == self.spec_is_general_purpose(),
    {
        let id = self.to_id();
        0x1000 <= id && id <= 0x101f
    }

    /// Whether `is_general_purpose` holds, as a specification.
    pub open spec fn spec_is_general_purpose(self) -> bool {
        0x1000 <= self.spec_id() <= 0x101f
    }

    /// Whether the register is a control or status register.
    pub fn is_special(&self) -> (r: bool)
        ensures
            r == self.spec_is_special(),
    {
        self.to_id() <= 0xfff
    }

    /// Whether `is_special` holds, as a specification.
    pub open spec fn spec_is_special(self) -> bool {
        self.spec_id() <= 0xfff
    }

    /// Whether the register is a floating-point register.
    pub fn is_floating_point(&self) -> (r: bool)
        ensures
            r == self.spec_is_floating_point(),
    {
        let id = self.to_id();
        0x1020 <= id && id <= 0x103f
    }

    /// Whether `is_floating_point` holds, as a specification.
    pub open spec fn spec_is_floating_point(self) -> bool {
        0x1020 <= self.spec_id() <= 0x103f
    }

    /// Whether the variant is a range marker rather than a register a
    /// target carries.
    pub open spec fn spec_is_marker(self) -> bool {
        self is CSR_START || self is CSR_END || self is FPR_START || self is FPR_END
            || self is CUSTOM_START || self is CUSTOM_END
    }

    /// Whether the variant is a range marker.
    pub fn is_marker(&self) -> (r: bool)
        ensures
            r == self.spec_is_marker(),
    {
        matches!(
            self,
            RVRegister::CSR_START | RVRegister::CSR_END | RVRegister::FPR_START
                | RVRegister::FPR_END | RVRegister::CUSTOM_START | RVRegister::CUSTOM_END
        )
    }

    /// The GDB protocol register number: integer registers map to 0-31, the
    /// program counter to the reserved id 32, and CSRs to their CSR number
    /// offset by 65.
    pub open spec fn spec_gdb_id(self) -> u32 {
        if self is PC {
            32
        } else if self.spec_is_special() {
            (self.spec_id() + 65) as u32
        } else {
            (self.spec_id() - 0x1000) as u32
        }
    }

    /// Returns the GDB protocol register number.
    pub fn to_gdb_id(&self) -> (r: u32)
        ensures
            r == self.spec_gdb_id(),
    {
        if *self == RVRegister::PC {
            return 32;
        }
        let id = self.to_id();
        if id <= 0xfff {
            (id as u32) + 65
        } else {
            proof {
                lemma_rv_ids_cover();
            }
            (id as u32) - 0x1000
        }
    }

    /// The DWARF register number: CSRs are their CSR number plus 4096,
    /// integer and floating-point registers map to 0-63.
    pub open spec fn spec_dwarf_id(self) -> u32 {
        if self.spec_is_special() {
            (self.spec_id() + 4096) as u32
        } else {
            (self.spec_id() - 0x1000) as u32
        }
    }

    /// Returns the DWARF register number.
    pub fn to_dwarf_id(&self) -> (r: u32)
        ensures
            r == self.spec_dwarf_id(),
    {
        let id = self.to_id();
        if id <= 0xfff {
            (id as u32) + 4096
        } else {
            proof {
                lemma_rv_ids_cover();
            }
            (id as u32) - 0x1000
        }
    }

    /// The register a DWARF number designates: numbers 4096-8191 are CSRs
    /// offset by 4096, numbers below 64 are integer and floating-point
    /// registers offset into the native space, anything else is taken as a
    /// native id.
    pub open spec fn spec_from_dwarf_id(id: u32) -> Option<RVRegister> {
        let native: int = if 4096 <= id < 8192 {
            id - 4096
        } else if id < 64 {
            id + 0x1000
        } else {
            id as int
        };
        if native <= 0xffff {
            RVRegister::spec_from_id(native as u16)
        } else {
            None
        }
    }

    /// Looks up the register a DWARF number designates.
    pub fn from_dwarf_id(id: u32) -> (r: Option<RVRegister>)
        ensures
            r == Self::spec_from_dwarf_id(id),
    {
        let native: u32 = if 4096 <= id && id < 8192 {
            id - 4096
        } else if id < 64 {
            id + 0x1000
        } else {
            id
        };
        if native <= 0xffff {
            RVRegister::from_id(native as u16)
        } else {
            None
        }
    }

    /// The named bit ranges of the register, for display decoding.
    pub open spec fn spec_fields(self) -> Option<Seq<(u16, u16, Seq<char>)>> {
        match self {
            RVRegister::MCAUSE => Some(seq![(31u16, 31u16, "INTERRUPT"@)]),
            RVRegister::MSTATUS => Some(
                seq![
                    (31u16, 31u16, "SD"@),
                    (22u16, 22u16, "TSR"@),
                    (21u16, 21u16, "TW"@),
                    (20u16, 20u16, "TVM"@),
                    (19u16, 19u16, "MXR"@),
                    (18u16, 18u16, "SUM"@),
                    (17u16, 17u16, "MPRV"@),
                    (16u16, 15u16, "XS"@),
                    (14u16, 13u16, "FS"@),
                    (12u16, 11u16, "MPP"@),
                    (10u16, 9u16, "VS"@),
                    (8u16, 8u16, "SPP"@),
                    (7u16, 7u16, "MPIE"@),
                    (6u16, 6u16, "UBE"@),
                    (5u16, 5u16, "SPIE"@),
                    (3u16, 3u16, "MIE"@),
                    (1u16, 1u16, "SIE"@),
                ],
            ),
            RVRegister::MSTATUSH => Some(seq![(4u16, 4u16, "SBE"@), (5u16, 5u16, "MBE"@)]),
            RVRegister::MIP => Some(
                seq![
                    (11u16, 11u16, "MEIP"@),
                    (9u16, 9u16, "SEIP"@),
                    (7u16, 7u16, "MTIP"@),
                    (5u16, 5u16, "STIP"@),
                    (3u16, 3u16, "MSIP"@),
                    (1u16, 1u16, "SSIP"@),
                ],
            ),
            RVRegister::MIE => Some(
                seq![
                    (11u16, 11u16, "MEIE"@),
                    (9u16, 9u16, "SEIE"@),
                    (7u16, 7u16, "MTIE"@),
                    (5u16, 5u16, "STIE"@),
                    (3u16, 3u16, "MSIE"@),
                    (1u16, 1u16, "SSIE"@),
                ],
            ),
            RVRegister::DCSR => Some(
                seq![
                    (31u16, 28u16, "debugver"@),
                    (17u16, 17u16, "ebreakvs"@),
                    (16u16, 16u16, "ebreakvu"@),
                    (15u16, 15u16, "ebreakm"@),
                    (13u16, 13u16, "ebreaks"@),
                    (12u16, 12u16, "ebreaku"@),
                    (11u16, 11u16, "stepie"@),
                    (10u16, 10u16, "spotcount"@),
                    (9u16, 9u16, "stoptime"@),
                    (8u16, 6u16, "cause"@),
                    (5u16, 5u16, "v"@),
                    (4u16, 4u16, "mprven"@),
                    (3u16, 3u16, "nmip"@),
                    (2u16, 2u16, "step"@),
                    (1u16, 0u16, "priv"@),
                ],
            ),
            RVRegister::MTVEC => Some(seq![(1u16, 0u16, "mode"@)]),
            _ => None,
        }
    }

    /// Returns the named bit ranges of the register, for display decoding.
    pub fn fields(&self) -> (r: Option<Vec<RegisterField>>)
        ensures
            fields_match(r, self.spec_fields()),
    {
        match self {
            RVRegister::MCAUSE => {
                let mut v: Vec<RegisterField> = Vec::new();
                v.push(RegisterField::bit(31, "INTERRUPT"));
                Some(v)
            },
            RVRegister::MSTATUS => {
                let mut v: Vec<RegisterField> = Vec::new();
                v.push(RegisterField::bit(31, "SD"));
                v.push(RegisterField::bit(22, "TSR"));
                v.push(RegisterField::bit(21, "TW"));
                v.push(RegisterField::bit(20, "TVM"));
                v.push(RegisterField::bit(19, "MXR"));
                v.push(RegisterField::bit(18, "SUM"));
                v.push(RegisterField::bit(17, "MPRV"));
                v.push(RegisterField::field(16, 15, "XS"));
                v.push(RegisterField::field(14, 13, "FS"));
                v.push(RegisterField::field(12, 11, "MPP"));
                v.push(RegisterField::field(10, 9, "VS"));
                v.push(RegisterField::bit(8, "SPP"));
                v.push(RegisterField::bit(7, "MPIE"));
                v.push(RegisterField::bit(6, "UBE"));
                v.push(RegisterField::bit(5, "SPIE"));
                v.push(RegisterField::bit(3, "MIE"));
                v.push(RegisterField::bit(1, "SIE"));
                Some(v)
            },
            RVRegister::MSTATUSH => {
                let mut v: Vec<RegisterField> = Vec::new();
                v.push(RegisterField::bit(4, "SBE"));
                v.push(RegisterField::bit(5, "MBE"));
                Some(v)
            },
            RVRegister::MIP => {
                let mut v: Vec<RegisterField> = Vec::new();
                v.push(RegisterField::bit(11, "MEIP"));
                v.push(RegisterField::bit(9, "SEIP"));
                v.push(RegisterField::bit(7, "MTIP"));
                v.push(RegisterField::bit(5, "STIP"));
                v.push(RegisterField::bit(3, "MSIP"));
                v.push(RegisterField::bit(1, "SSIP"));
                Some(v)
            },
            RVRegister::MIE => {
                let mut v: Vec<RegisterField> = Vec::new();
                v.push(RegisterField::bit(11, "MEIE"));
                v.push(RegisterField::bit(9, "SEIE"));
                v.push(RegisterField::bit(7, "MTIE"));
                v.push(RegisterField::bit(5, "STIE"));
                v.push(RegisterField::bit(3, "MSIE"));
                v.push(RegisterField::bit(1, "SSIE"));
                Some(v)
            },
            RVRegister::DCSR => {
                let mut v: Vec<RegisterField> = Vec::new();
                v.push(RegisterField::field(31, 28, "debugver"));
                v.push(RegisterField::bit(17, "ebreakvs"));
                v.push(RegisterField::bit(16, "ebreakvu"));
                v.push(RegisterField::bit(15, "ebreakm"));
                v.push(RegisterField::bit(13, "ebreaks"));
                v.push(RegisterField::bit(12, "ebreaku"));
                v.push(RegisterField::bit(11, "stepie"));
                v.push(RegisterField::bit(10, "spotcount"));
                v.push(RegisterField::bit(9, "stoptime"));
                v.push(RegisterField::field(8, 6, "cause"));
                v.push(RegisterField::bit(5, "v"));
                v.push(RegisterField::bit(4, "mprven"));
                v.push(RegisterField::bit(3, "nmip"));
                v.push(RegisterField::bit(2, "step"));
                v.push(RegisterField::field(1, 0, "priv"));
                Some(v)
            },
            RVRegister::MTVEC => {
                let mut v: Vec<RegisterField> = Vec::new();
                v.push(RegisterField::field(1, 0, "mode"));
                Some(v)
            },
            _ => None,
        }
    }
}

/// Every register id lies in the CSR space, the integer-register space, or
/// the floating-point or custom spaces above it.
pub proof fn lemma_rv_ids_cover()
    ensures
        forall|r: RVRegister| !(#[trigger] r.spec_is_special()) ==> r.spec_id() >= 0x1000,
        forall|r: RVRegister|
            !(#[trigger] r.spec_is_marker()) ==> r.spec_is_special() || r.spec_is_general_purpose(),
{
}

/// Converting a register to its native id and back yields the register.
pub proof fn lemma_rv_native_round_trip()
    ensures
        forall|r: RVRegister| RVRegister::spec_from_id(#[trigger] r.spec_id()) == Some(r),
{
}

/// Distinct registers never share a native selector id.
pub proof fn lemma_rv_native_injective(r1: RVRegister, r2: RVRegister)
    requires
        r1.spec_id() == r2.spec_id(),
    ensures
        r1 == r2,
{
    lemma_rv_native_round_trip();
    assert(RVRegister::spec_from_id(r1.spec_id()) == Some(r1));
    assert(RVRegister::spec_from_id(r2.spec_id()) == Some(r2));
}

/// Converting a register to its DWARF number and back yields the register,
/// for every register a target actually carries.
pub proof fn lemma_rv_dwarf_round_trip()
    ensures
        forall|r: RVRegister|
            !(#[trigger] r.spec_is_marker()) ==> RVRegister::spec_from_dwarf_id(r.spec_dwarf_id())
                == Some(r),
{
    lemma_rv_ids_cover();
    lemma_rv_native_round_trip();
}

/// Distinct registers a target carries never share a DWARF number.
pub proof fn lemma_rv_dwarf_injective(r1: RVRegister, r2: RVRegister)
    requires
        !r1.spec_is_marker(),
        !r2.spec_is_marker(),
        r1.spec_dwarf_id() == r2.spec_dwarf_id(),
    ensures
        r1 == r2,
{
    lemma_rv_ids_cover();
    lemma_rv_native_injective(r1, r2);
}

/// Distinct registers a target carries never share a GDB protocol number.
pub proof fn lemma_rv_gdb_injective(r1: RVRegister, r2: RVRegister)
    requires
        !r1.spec_is_marker(),
        !r2.spec_is_marker(),
        r1.spec_gdb_id() == r2.spec_gdb_id(),
    ensures
        r1 == r2,
{
    lemma_rv_ids_cover();
    lemma_rv_native_injective(r1, r2);
}

/// Converting a register to its disassembler id and back yields the
/// register.
pub proof fn lemma_rv_disasm_round_trip()
    ensures
        forall|r: RVRegister|
            (#[trigger] r.spec_disasm_id()) matches Some(i) ==> RVRegister::spec_from_disasm_id(i)
                == Some(r),
{
}

/// Distinct disassembler ids never map to the same register.
pub proof fn lemma_rv_disasm_injective(i1: u16, i2: u16)
    requires
        RVRegister::spec_from_disasm_id(i1) is Some,
        RVRegister::spec_from_disasm_id(i1) == RVRegister::spec_from_disasm_id(i2),
    ensures
        i1 == i2,
{
}

} // verus!
