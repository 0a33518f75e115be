//! The ARM register set.
//!
//! Registers are identified by their encoding in the Debug Core Register
//! Selector Register (DCRSR); see e.g. C1.6.3 in the ARM v7-M Architecture
//! Reference Manual.  On ARM the native selector id is also the DWARF
//! register number and the GDB protocol register number, so one id space
//! serves three of the four converters; the disassembler uses its own
//! numbering, mapped separately.

use crate::regs::{fields_match, Register, RegisterField};
use vstd::prelude::*;

verus! {

#[allow(non_camel_case_types)]
#[derive(Copy, Clone, Debug, PartialEq, Eq, Structural)]
pub enum ARMRegister {
    R0,
    R1,
    R2,
    R3,
    R4,
    R5,
    R6,
    R7,
    R8,
    R9,
    R10,
    R11,
    R12,
    SP,
    LR,
    PC,
    PSR,
    MSP,
    PSP,
    SPR,
    FPSCR,
    S0,
    S1,
    S2,
    S3,
    S4,
    S5,
    S6,
    S7,
    S8,
    S9,
    S10,
    S11,
    S12,
    S13,
    S14,
    S15,
    S16,
    S17,
    S18,
    S19,
    S20,
    S21,
    S22,
    S23,
    S24,
    S25,
    S26,
    S27,
    S28,
    S29,
    S30,
    S31,
}

impl ARMRegister {
    /// The native debug-access selector id of the register.
    pub open spec fn spec_id(self) -> u16 {
        match self {
            ARMRegister::R0 => 0x0,
            ARMRegister::R1 => 0x1,
            ARMRegister::R2 => 0x2,
            ARMRegister::R3 => 0x3,
            ARMRegister::R4 => 0x4,
            ARMRegister::R5 => 0x5,
            ARMRegister::R6 => 0x6,
            ARMRegister::R7 => 0x7,
            ARMRegister::R8 => 0x8,
            ARMRegister::R9 => 0x9,
            ARMRegister::R10 => 0xa,
            ARMRegister::R11 => 0xb,
            ARMRegister::R12 => 0xc,
            ARMRegister::SP => 0xd,
            ARMRegister::LR => 0xe,
            ARMRegister::PC => 0xf,
            ARMRegister::PSR => 0x10,
            ARMRegister::MSP => 0x11,
            ARMRegister::PSP => 0x12,
            ARMRegister::SPR => 0x14,
            ARMRegister::FPSCR => 0x21,
            ARMRegister::S0 => 0x40,
            ARMRegister::S1 => 0x41,
            ARMRegister::S2 => 0x42,
            ARMRegister::S3 => 0x43,
            ARMRegister::S4 => 0x44,
            ARMRegister::S5 => 0x45,
            ARMRegister::S6 => 0x46,
            ARMRegister::S7 => 0x47,
            ARMRegister::S8 => 0x48,
            ARMRegister::S9 => 0x49,
            ARMRegister::S10 => 0x4a,
            ARMRegister::S11 => 0x4b,
            ARMRegister::S12 => 0x4c,
            ARMRegister::S13 => 0x4d,
            ARMRegister::S14 => 0x4e,
            ARMRegister::S15 => 0x4f,
            ARMRegister::S16 => 0x50,
            ARMRegister::S17 => 0x51,
            ARMRegister::S18 => 0x52,
            ARMRegister::S19 => 0x53,
            ARMRegister::S20 => 0x54,
            ARMRegister::S21 => 0x55,
            ARMRegister::S22 => 0x56,
            ARMRegister::S23 => 0x57,
            ARMRegister::S24 => 0x58,
            ARMRegister::S25 => 0x59,
            ARMRegister::S26 => 0x5a,
            ARMRegister::S27 => 0x5b,
            ARMRegister::S28 => 0x5c,
            ARMRegister::S29 => 0x5d,
            ARMRegister::S30 => 0x5e,
            ARMRegister::S31 => 0x5f,
        }
    }

    /// Returns the native debug-access selector id of the register.
    pub fn to_id(&self) -> (r: u16)
        ensures
            r == self.spec_id(),
    {
        match self {
            ARMRegister::R0 => 0x0,
            ARMRegister::R1 => 0x1,
            ARMRegister::R2 => 0x2,
            ARMRegister::R3 => 0x3,
            ARMRegister::R4 => 0x4,
            ARMRegister::R5 => 0x5,
            ARMRegister::R6 => 0x6,
            ARMRegister::R7 => 0x7,
            ARMRegister::R8 => 0x8,
            ARMRegister::R9 => 0x9,
            ARMRegister::R10 => 0xa,
            ARMRegister::R11 => 0xb,
            ARMRegister::R12 => 0xc,
            ARMRegister::SP => 0xd,
            ARMRegister::LR => 0xe,
            ARMRegister::PC => 0xf,
            ARMRegister::PSR => 0x10,
            ARMRegister::MSP => 0x11,
            ARMRegister::PSP => 0x12,
            ARMRegister::SPR => 0x14,
            ARMRegister::FPSCR => 0x21,
            ARMRegister::S0 => 0x40,
            ARMRegister::S1 => 0x41,
            ARMRegister::S2 => 0x42,
            ARMRegister::S3 => 0x43,
            ARMRegister::S4 => 0x44,
            ARMRegister::S5 => 0x45,
            ARMRegister::S6 => 0x46,
            ARMRegister::S7 => 0x47,
            ARMRegister::S8 => 0x48,
            ARMRegister::S9 => 0x49,
            ARMRegister::S10 => 0x4a,
            ARMRegister::S11 => 0x4b,
            ARMRegister::S12 => 0x4c,
            ARMRegister::S13 => 0x4d,
            ARMRegister::S14 => 0x4e,
            ARMRegister::S15 => 0x4f,
            ARMRegister::S16 => 0x50,
            ARMRegister::S17 => 0x51,
            ARMRegister::S18 => 0x52,
            ARMRegister::S19 => 0x53,
            ARMRegister::S20 => 0x54,
            ARMRegister::S21 => 0x55,
            ARMRegister::S22 => 0x56,
            ARMRegister::S23 => 0x57,
            ARMRegister::S24 => 0x58,
            ARMRegister::S25 => 0x59,
            ARMRegister::S26 => 0x5a,
            ARMRegister::S27 => 0x5b,
            ARMRegister::S28 => 0x5c,
            ARMRegister::S29 => 0x5d,
            ARMRegister::S30 => 0x5e,
            ARMRegister::S31 => 0x5f,
        }
    }

    /// The register carrying a native selector id, if any.
    pub open spec fn spec_from_id(id: u16) -> Option<ARMRegister> {
        if id == 0x0 {
            Some(ARMRegister::R0)
        } else if id == 0x1 {
            Some(ARMRegister::R1)
        } else if id == 0x2 {
            Some(ARMRegister::R2)
        } else if id == 0x3 {
            Some(ARMRegister::R3)
        } else if id == 0x4 {
            Some(ARMRegister::R4)
        } else if id == 0x5 {
            Some(ARMRegister::R5)
        } else if id == 0x6 {
            Some(ARMRegister::R6)
        } else if id == 0x7 {
            Some(ARMRegister::R7)
        } else if id == 0x8 {
            Some(ARMRegister::R8)
        } else if id == 0x9 {
            Some(ARMRegister::R9)
        } else if id == 0xa {
            Some(ARMRegister::R10)
        } else if id == 0xb {
            Some(ARMRegister::R11)
        } else if id == 0xc {
            Some(ARMRegister::R12)
        } else if id == 0xd {
            Some(ARMRegister::SP)
        } else if id == 0xe {
            Some(ARMRegister::LR)
        } else if id == 0xf {
            Some(ARMRegister::PC)
        } else if id == 0x10 {
            Some(ARMRegister::PSR)
        } else if id == 0x11 {
            Some(ARMRegister::MSP)
        } else if id == 0x12 {
            Some(ARMRegister::PSP)
        } else if id == 0x14 {
            Some(ARMRegister::SPR)
        } else if id == 0x21 {
            Some(ARMRegister::FPSCR)
        } else if id == 0x40 {
            Some(ARMRegister::S0)
        } else if id == 0x41 {
            Some(ARMRegister::S1)
        } else if id == 0x42 {
            Some(ARMRegister::S2)
        } else if id == 0x43 {
            Some(ARMRegister::S3)
        } else if id == 0x44 {
            Some(ARMRegister::S4)
        } else if id == 0x45 {
            Some(ARMRegister::S5)
        } else if id == 0x46 {
            Some(ARMRegister::S6)
        } else if id == 0x47 {
            Some(ARMRegister::S7)
        } else if id == 0x48 {
            Some(ARMRegister::S8)
        } else if id == 0x49 {
            Some(ARMRegister::S9)
        } else if id == 0x4a {
            Some(ARMRegister::S10)
        } else if id == 0x4b {
            Some(ARMRegister::S11)
        } else if id == 0x4c {
            Some(ARMRegister::S12)
        } else if id == 0x4d {
            Some(ARMRegister::S13)
        } else if id == 0x4e {
            Some(ARMRegister::S14)
        } else if id == 0x4f {
            Some(ARMRegister::S15)
        } else if id == 0x50 {
            Some(ARMRegister::S16)
        } else if id == 0x51 {
            Some(ARMRegister::S17)
        } else if id == 0x52 {
            Some(ARMRegister::S18)
        } else if id == 0x53 {
            Some(ARMRegister::S19)
        } else if id == 0x54 {
            Some(ARMRegister::S20)
        } else if id == 0x55 {
            Some(ARMRegister::S21)
        } else if id == 0x56 {
            Some(ARMRegister::S22)
        } else if id == 0x57 {
            Some(ARMRegister::S23)
        } else if id == 0x58 {
            Some(ARMRegister::S24)
        } else if id == 0x59 {
            Some(ARMRegister::S25)
        } else if id == 0x5a {
            Some(ARMRegister::S26)
        } else if id == 0x5b {
            Some(ARMRegister::S27)
        } else if id == 0x5c {
            Some(ARMRegister::S28)
        } else if id == 0x5d {
            Some(ARMRegister::S29)
        } else if id == 0x5e {
            Some(ARMRegister::S30)
        } else if id == 0x5f {
            Some(ARMRegister::S31)
        } else {
            None
        }
    }

    /// Looks up the register carrying a native selector id.
    pub fn from_id(id: u16) -> (r: Option<ARMRegister>)
        ensures
            r == Self::spec_from_id(id),
    {
        match id {
            0x0 => Some(ARMRegister::R0),
            0x1 => Some(ARMRegister::R1),
            0x2 => Some(ARMRegister::R2),
            0x3 => Some(ARMRegister::R3),
            0x4 => Some(ARMRegister::R4),
            0x5 => Some(ARMRegister::R5),
            0x6 => Some(ARMRegister::R6),
            0x7 => Some(ARMRegister::R7),
            0x8 => Some(ARMRegister::R8),
            0x9 => Some(ARMRegister::R9),
            0xa => Some(ARMRegister::R10),
            0xb => Some(ARMRegister::R11),
            0xc => Some(ARMRegister::R12),
            0xd => Some(ARMRegister::SP),
            0xe => Some(ARMRegister::LR),
            0xf => Some(ARMRegister::PC),
            0x10 => Some(ARMRegister::PSR),
            0x11 => Some(ARMRegister::MSP),
            0x12 => Some(ARMRegister::PSP),
            0x14 => Some(ARMRegister::SPR),
            0x21 => Some(ARMRegister::FPSCR),
            0x40 => Some(ARMRegister::S0),
            0x41 => Some(ARMRegister::S1),
            0x42 => Some(ARMRegister::S2),
            0x43 => Some(ARMRegister::S3),
            0x44 => Some(ARMRegister::S4),
            0x45 => Some(ARMRegister::S5),
            0x46 => Some(ARMRegister::S6),
            0x47 => Some(ARMRegister::S7),
            0x48 => Some(ARMRegister::S8),
            0x49 => Some(ARMRegister::S9),
            0x4a => Some(ARMRegister::S10),
            0x4b => Some(ARMRegister::S11),
            0x4c => Some(ARMRegister::S12),
            0x4d => Some(ARMRegister::S13),
            0x4e => Some(ARMRegister::S14),
            0x4f => Some(ARMRegister::S15),
            0x50 => Some(ARMRegister::S16),
            0x51 => Some(ARMRegister::S17),
            0x52 => Some(ARMRegister::S18),
            0x53 => Some(ARMRegister::S19),
            0x54 => Some(ARMRegister::S20),
            0x55 => Some(ARMRegister::S21),
            0x56 => Some(ARMRegister::S22),
            0x57 => Some(ARMRegister::S23),
            0x58 => Some(ARMRegister::S24),
            0x59 => Some(ARMRegister::S25),
            0x5a => Some(ARMRegister::S26),
            0x5b => Some(ARMRegister::S27),
            0x5c => Some(ARMRegister::S28),
            0x5d => Some(ARMRegister::S29),
            0x5e => Some(ARMRegister::S30),
            0x5f => Some(ARMRegister::S31),
            _ => None,
        }
    }

    /// The lowercase name of the register.
    pub open spec fn spec_name(self) -> Seq<char> {
        match self {
            ARMRegister::R0 => "r0"@,
            ARMRegister::R1 => "r1"@,
            ARMRegister::R2 => "r2"@,
            ARMRegister::R3 => "r3"@,
            ARMRegister::R4 => "r4"@,
            ARMRegister::R5 => "r5"@,
            ARMRegister::R6 => "r6"@,
            ARMRegister::R7 => "r7"@,
            ARMRegister::R8 => "r8"@,
            ARMRegister::R9 => "r9"@,
            ARMRegister::R10 => "r10"@,
            ARMRegister::R11 => "r11"@,
            ARMRegister::R12 => "r12"@,
            ARMRegister::SP => "sp"@,
            ARMRegister::LR => "lr"@,
            ARMRegister::PC => "pc"@,
            ARMRegister::PSR => "psr"@,
            ARMRegister::MSP => "msp"@,
            ARMRegister::PSP => "psp"@,
            ARMRegister::SPR => "spr"@,
            ARMRegister::FPSCR => "fpscr"@,
            ARMRegister::S0 => "s0"@,
            ARMRegister::S1 => "s1"@,
            ARMRegister::S2 => "s2"@,
            ARMRegister::S3 => "s3"@,
            ARMRegister::S4 => "s4"@,
            ARMRegister::S5 => "s5"@,
            ARMRegister::S6 => "s6"@,
            ARMRegister::S7 => "s7"@,
            ARMRegister::S8 => "s8"@,
            ARMRegister::S9 => "s9"@,
            ARMRegister::S10 => "s10"@,
            ARMRegister::S11 => "s11"@,
            ARMRegister::S12 => "s12"@,
            ARMRegister::S13 => "s13"@,
            ARMRegister::S14 => "s14"@,
            ARMRegister::S15 => "s15"@,
            ARMRegister::S16 => "s16"@,
            ARMRegister::S17 => "s17"@,
            ARMRegister::S18 => "s18"@,
            ARMRegister::S19 => "s19"@,
            ARMRegister::S20 => "s20"@,
            ARMRegister::S21 => "s21"@,
            ARMRegister::S22 => "s22"@,
            ARMRegister::S23 => "s23"@,
            ARMRegister::S24 => "s24"@,
            ARMRegister::S25 => "s25"@,
            ARMRegister::S26 => "s26"@,
            ARMRegister::S27 => "s27"@,
            ARMRegister::S28 => "s28"@,
            ARMRegister::S29 => "s29"@,
            ARMRegister::S30 => "s30"@,
            ARMRegister::S31 => "s31"@,
        }
    }

    /// Returns the lowercase name of the register.
    pub fn name(&self) -> (r: &'static str)
        ensures
            r@ == self.spec_name(),
    {
        match self {
            ARMRegister::R0 => "r0",
            ARMRegister::R1 => "r1",
            ARMRegister::R2 => "r2",
            ARMRegister::R3 => "r3",
            ARMRegister::R4 => "r4",
            ARMRegister::R5 => "r5",
            ARMRegister::R6 => "r6",
            ARMRegister::R7 => "r7",
            ARMRegister::R8 => "r8",
            ARMRegister::R9 => "r9",
            ARMRegister::R10 => "r10",
            ARMRegister::R11 => "r11",
            ARMRegister::R12 => "r12",
            ARMRegister::SP => "sp",
            ARMRegister::LR => "lr",
            ARMRegister::PC => "pc",
            ARMRegister::PSR => "psr",
            ARMRegister::MSP => "msp",
            ARMRegister::PSP => "psp",
            ARMRegister::SPR => "spr",
            ARMRegister::FPSCR => "fpscr",
            ARMRegister::S0 => "s0",
            ARMRegister::S1 => "s1",
            ARMRegister::S2 => "s2",
            ARMRegister::S3 => "s3",
            ARMRegister::S4 => "s4",
            ARMRegister::S5 => "s5",
            ARMRegister::S6 => "s6",
            ARMRegister::S7 => "s7",
            ARMRegister::S8 => "s8",
            ARMRegister::S9 => "s9",
            ARMRegister::S10 => "s10",
            ARMRegister::S11 => "s11",
            ARMRegister::S12 => "s12",
            ARMRegister::S13 => "s13",
            ARMRegister::S14 => "s14",
            ARMRegister::S15 => "s15",
            ARMRegister::S16 => "s16",
            ARMRegister::S17 => "s17",
            ARMRegister::S18 => "s18",
            ARMRegister::S19 => "s19",
            ARMRegister::S20 => "s20",
            ARMRegister::S21 => "s21",
            ARMRegister::S22 => "s22",
            ARMRegister::S23 => "s23",
            ARMRegister::S24 => "s24",
            ARMRegister::S25 => "s25",
            ARMRegister::S26 => "s26",
            ARMRegister::S27 => "s27",
            ARMRegister::S28 => "s28",
            ARMRegister::S29 => "s29",
            ARMRegister::S30 => "s30",
            ARMRegister::S31 => "s31",
        }
    }

    /// The register the disassembler designates by `id`, if any.
    pub open spec fn spec_from_disasm_id(id: u16) -> Option<ARMRegister> {
        if id == 66 {
            Some(ARMRegister::R0)
        } else if id == 67 {
            Some(ARMRegister::R1)
        } else if id == 68 {
            Some(ARMRegister::R2)
        } else if id == 69 {
            Some(ARMRegister::R3)
        } else if id == 70 {
            Some(ARMRegister::R4)
        } else if id == 71 {
            Some(ARMRegister::R5)
        } else if id == 72 {
            Some(ARMRegister::R6)
        } else if id == 73 {
            Some(ARMRegister::R7)
        } else if id == 74 {
            Some(ARMRegister::R8)
        } else if id == 75 {
            Some(ARMRegister::R9)
        } else if id == 76 {
            Some(ARMRegister::R10)
        } else if id == 77 {
            Some(ARMRegister::R11)
        } else if id == 78 {
            Some(ARMRegister::R12)
        } else if id == 12 {
            Some(ARMRegister::SP)
        } else if id == 11 {
            Some(ARMRegister::PC)
        } else if id == 10 {
            Some(ARMRegister::LR)
        } else {
            None
        }
    }

    /// Looks up the register the disassembler designates by `id`.
    pub fn from_disasm_id(id: u16) -> (r: Option<ARMRegister>)
        ensures
            r == Self::spec_from_disasm_id(id),
    {
        match id {
            66 => Some(ARMRegister::R0),
            67 => Some(ARMRegister::R1),
            68 => Some(ARMRegister::R2),
            69 => Some(ARMRegister::R3),
            70 => Some(ARMRegister::R4),
            71 => Some(ARMRegister::R5),
            72 => Some(ARMRegister::R6),
            73 => Some(ARMRegister::R7),
            74 => Some(ARMRegister::R8),
            75 => Some(ARMRegister::R9),
            76 => Some(ARMRegister::R10),
            77 => Some(ARMRegister::R11),
            78 => Some(ARMRegister::R12),
            12 => Some(ARMRegister::SP),
            11 => Some(ARMRegister::PC),
            10 => Some(ARMRegister::LR),
            _ => None,
        }
    }

    /// The disassembler's id for the register, if it has one.
    pub open spec fn spec_disasm_id(self) -> Option<u16> {
        match self {
            ARMRegister::R0 => Some(66),
            ARMRegister::R1 => Some(67),
            ARMRegister::R2 => Some(68),
            ARMRegister::R3 => Some(69),
            ARMRegister::R4 => Some(70),
            ARMRegister::R5 => Some(71),
            ARMRegister::R6 => Some(72),
            ARMRegister::R7 => Some(73),
            ARMRegister::R8 => Some(74),
            ARMRegister::R9 => Some(75),
            ARMRegister::R10 => Some(76),
            ARMRegister::R11 => Some(77),
            ARMRegister::R12 => Some(78),
            ARMRegister::SP => Some(12),
            ARMRegister::LR => Some(10),
            ARMRegister::PC => Some(11),
            _ => None,
        }
    }

}
/// The full register list, in enumeration order.
pub open spec fn arm_register_list_spec() -> Seq<Register> {
    seq![
        Register::Arm(ARMRegister::R0),
        Register::Arm(ARMRegister::R1),
        Register::Arm(ARMRegister::R2),
        Register::Arm(ARMRegister::R3),
        Register::Arm(ARMRegister::R4),
        Register::Arm(ARMRegister::R5),
        Register::Arm(ARMRegister::R6),
        Register::Arm(ARMRegister::R7),
        Register::Arm(ARMRegister::R8),
        Register::Arm(ARMRegister::R9),
        Register::Arm(ARMRegister::R10),
        Register::Arm(ARMRegister::R11),
        Register::Arm(ARMRegister::R12),
        Register::Arm(ARMRegister::SP),
        Register::Arm(ARMRegister::LR),
        Register::Arm(ARMRegister::PC),
        Register::Arm(ARMRegister::PSR),
        Register::Arm(ARMRegister::MSP),
        Register::Arm(ARMRegister::PSP),
        Register::Arm(ARMRegister::SPR),
        Register::Arm(ARMRegister::FPSCR),
        Register::Arm(ARMRegister::S0),
        Register::Arm(ARMRegister::S1),
        Register::Arm(ARMRegister::S2),
        Register::Arm(ARMRegister::S3),
        Register::Arm(ARMRegister::S4),
        Register::Arm(ARMRegister::S5),
        Register::Arm(ARMRegister::S6),
        Register::Arm(ARMRegister::S7),
        Register::Arm(ARMRegister::S8),
        Register::Arm(ARMRegister::S9),
        Register::Arm(ARMRegister::S10),
        Register::Arm(ARMRegister::S11),
        Register::Arm(ARMRegister::S12),
        Register::Arm(ARMRegister::S13),
        Register::Arm(ARMRegister::S14),
        Register::Arm(ARMRegister::S15),
        Register::Arm(ARMRegister::S16),
        Register::Arm(ARMRegister::S17),
        Register::Arm(ARMRegister::S18),
        Register::Arm(ARMRegister::S19),
        Register::Arm(ARMRegister::S20),
        Register::Arm(ARMRegister::S21),
        Register::Arm(ARMRegister::S22),
        Register::Arm(ARMRegister::S23),
        Register::Arm(ARMRegister::S24),
        Register::Arm(ARMRegister::S25),
        Register::Arm(ARMRegister::S26),
        Register::Arm(ARMRegister::S27),
        Register::Arm(ARMRegister::S28),
        Register::Arm(ARMRegister::S29),
        Register::Arm(ARMRegister::S30),
        Register::Arm(ARMRegister::S31),
    ]
}

/// Returns every register of the architecture, in enumeration order.
pub fn get_all_registers() -> (r: Vec<Register>)
    ensures
        r@ == arm_register_list_spec(),
{
    let mut v: Vec<Register> = Vec::new();
    v.push(Register::Arm(ARMRegister::R0));
    v.push(Register::Arm(ARMRegister::R1));
    v.push(Register::Arm(ARMRegister::R2));
    v.push(Register::Arm(ARMRegister::R3));
    v.push(Register::Arm(ARMRegister::R4));
    v.push(Register::Arm(ARMRegister::R5));
    v.push(Register::Arm(ARMRegister::R6));
    v.push(Register::Arm(ARMRegister::R7));
    v.push(Register::Arm(ARMRegister::R8));
    v.push(Register::Arm(ARMRegister::R9));
    v.push(Register::Arm(ARMRegister::R10));
    v.push(Register::Arm(ARMRegister::R11));
    v.push(Register::Arm(ARMRegister::R12));
    v.push(Register::Arm(ARMRegister::SP));
    v.push(Register::Arm(ARMRegister::LR));
    v.push(Register::Arm(ARMRegister::PC));
    v.push(Register::Arm(ARMRegister::PSR));
    v.push(Register::Arm(ARMRegister::MSP));
    v.push(Register::Arm(ARMRegister::PSP));
    v.push(Register::Arm(ARMRegister::SPR));
    v.push(Register::Arm(ARMRegister::FPSCR));
    v.push(Register::Arm(ARMRegister::S0));
    v.push(Register::Arm(ARMRegister::S1));
    v.push(Register::Arm(ARMRegister::S2));
    v.push(Register::Arm(ARMRegister::S3));
    v.push(Register::Arm(ARMRegister::S4));
    v.push(Register::Arm(ARMRegister::S5));
    v.push(Register::Arm(ARMRegister::S6));
    v.push(Register::Arm(ARMRegister::S7));
    v.push(Register::Arm(ARMRegister::S8));
    v.push(Register::Arm(ARMRegister::S9));
    v.push(Register::Arm(ARMRegister::S10));
    v.push(Register::Arm(ARMRegister::S11));
    v.push(Register::Arm(ARMRegister::S12));
    v.push(Register::Arm(ARMRegister::S13));
    v.push(Register::Arm(ARMRegister::S14));
    v.push(Register::Arm(ARMRegister::S15));
    v.push(Register::Arm(ARMRegister::S16));
    v.push(Register::Arm(ARMRegister::S17));
    v.push(Register::Arm(ARMRegister::S18));
    v.push(Register::Arm(ARMRegister::S19));
    v.push(Register::Arm(ARMRegister::S20));
    v.push(Register::Arm(ARMRegister::S21));
    v.push(Register::Arm(ARMRegister::S22));
    v.push(Register::Arm(ARMRegister::S23));
    v.push(Register::Arm(ARMRegister::S24));
    v.push(Register::Arm(ARMRegister::S25));
    v.push(Register::Arm(ARMRegister::S26));
    v.push(Register::Arm(ARMRegister::S27));
    v.push(Register::Arm(ARMRegister::S28));
    v.push(Register::Arm(ARMRegister::S29));
    v.push(Register::Arm(ARMRegister::S30));
    v.push(Register::Arm(ARMRegister::S31));
    proof {
        assert(v@ =~= arm_register_list_spec());
    }
    v
}
impl ARMRegister {
    /// The GDB protocol register number: on ARM, the native selector id.
    pub fn to_gdb_id(&self) -> (r: u32)
        ensures
            r == self.spec_id(),
    {
        self.to_id() as u32
    }

    /// Whether the register is a general-purpose register (R0-R12, SP, LR,
    /// PC).
    pub fn is_general_purpose(&self) -> (r: bool)
        ensures
            r == self.spec_is_general_purpose(),
    {
        self.to_id() <= 15
    }

    /// Whether `is_general_purpose` holds, as a specification.
    pub open spec fn spec_is_general_purpose(self) -> bool {
        self.spec_id() <= 15
    }

    /// Whether the register is one of the special registers (PSR, MSP, PSP,
    /// SPR, FPSCR).
    pub fn is_special(&self) -> (r: bool)
        ensures
            r == self.spec_is_special(),
    {
        matches!(
            self,
            ARMRegister::PSR | ARMRegister::MSP | ARMRegister::PSP | ARMRegister::SPR
                | ARMRegister::FPSCR
        )
    }

    /// Whether `is_special` holds, as a specification.
    pub open spec fn spec_is_special(self) -> bool {
        self is PSR || self is MSP || self is PSP || self is SPR || self is FPSCR
    }

    /// Whether the register is a floating-point register (S0 and up).
    pub fn is_floating_point(&self) -> (r: bool)
        ensures
            r == self.spec_is_floating_point(),
    {
        self.to_id() >= 64
    }

    /// Whether `is_floating_point` holds, as a specification.
    pub open spec fn spec_is_floating_point(self) -> bool {
        self.spec_id() >= 64
    }

    /// The named bit ranges of the register, for display decoding.
    pub open spec fn spec_fields(self) -> Option<Seq<(u16, u16, Seq<char>)>> {
        match self {
            ARMRegister::PSR => Some(
                seq![
                    (31u16, 31u16, "N"@),
                    (30u16, 30u16, "Z"@),
                    (29u16, 29u16, "C"@),
                    (28u16, 28u16, "V"@),
                    (27u16, 27u16, "Q"@),
                    (26u16, 25u16, "IC/IT"@),
                    (24u16, 24u16, "T"@),
                    (19u16, 16u16, "GE"@),
                    (15u16, 10u16, "IC/IT"@),
                    (8u16, 0u16, "Exception"@),
                ],
            ),
            ARMRegister::SPR => Some(
                seq![
                    (26u16, 26u16, "CONTROL.FPCA"@),
                    (25u16, 25u16, "CONTROL.SPSEL"@),
                    (24u16, 24u16, "CONTROL.nPRIV"@),
                    (16u16, 16u16, "FAULTMASK"@),
                    (15u16, 8u16, "BASEPRI"@),
                    (0u16, 0u16, "PRIMASK"@),
                ],
            ),
            _ => None,
        }
    }

    /// Returns the named bit ranges of the register, for display decoding.
    pub fn fields(&self) -> (r: Option<Vec<RegisterField>>)
        ensures
            fields_match(r, self.spec_fields()),
    {
        match self {
            ARMRegister::PSR => {
                let mut v: Vec<RegisterField> = Vec::new();
                v.push(RegisterField::bit(31, "N"));
                v.push(RegisterField::bit(30, "Z"));
                v.push(RegisterField::bit(29, "C"));
                v.push(RegisterField::bit(28, "V"));
                v.push(RegisterField::bit(27, "Q"));
                v.push(RegisterField::field(26, 25, "IC/IT"));
                v.push(RegisterField::bit(24, "T"));
                v.push(RegisterField::field(19, 16, "GE"));
                v.push(RegisterField::field(15, 10, "IC/IT"));
                v.push(RegisterField::field(8, 0, "Exception"));
                Some(v)
            },
            ARMRegister::SPR => {
                let mut v: Vec<RegisterField> = Vec::new();
                v.push(RegisterField::bit(26, "CONTROL.FPCA"));
                v.push(RegisterField::bit(25, "CONTROL.SPSEL"));
                v.push(RegisterField::bit(24, "CONTROL.nPRIV"));
                v.push(RegisterField::bit(16, "FAULTMASK"));
                v.push(RegisterField::field(15, 8, "BASEPRI"));
                v.push(RegisterField::bit(0, "PRIMASK"));
                Some(v)
            },
            _ => None,
        }
    }
}

/// The register a native selector id designates, in the shared register
/// type.
pub open spec fn spec_register_from_id(id: u32) -> Option<Register> {
    if id <= u16::MAX {
        match ARMRegister::spec_from_id(id as u16) {
            Some(a) => Some(Register::Arm(a)),
            None => None,
        }
    } else {
        None
    }
}

/// Looks up a register by native selector id, in the shared register type.
pub fn register_from_id(id: u32) -> (r: Option<Register>)
    ensures
        r == spec_register_from_id(id),
{
    if id > 0xffff {
        return None;
    }
    match ARMRegister::from_id(id as u16) {
        Some(a) => Some(Register::Arm(a)),
        None => None,
    }
}

/// Converting a register to its native id and back yields the register.
pub proof fn lemma_arm_native_round_trip()
    ensures
        forall|r: ARMRegister| ARMRegister::spec_from_id(#[trigger] r.spec_id()) == Some(r),
{
}

/// Distinct registers never share a native selector id; the same id space
/// serves the DWARF and GDB converters on ARM.
pub proof fn lemma_arm_native_injective(r1: ARMRegister, r2: ARMRegister)
    requires
        r1.spec_id() == r2.spec_id(),
    ensures
        r1 == r2,
{
    lemma_arm_native_round_trip();
    assert(ARMRegister::spec_from_id(r1.spec_id()) == Some(r1));
    assert(ARMRegister::spec_from_id(r2.spec_id()) == Some(r2));
}

/// Distinct registers never share a DWARF number: on ARM the DWARF number
/// is the native selector id.
pub proof fn lemma_arm_dwarf_injective(r1: ARMRegister, r2: ARMRegister)
    requires
        r1.spec_id() == r2.spec_id(),
    ensures
        r1 == r2,
{
    lemma_arm_native_injective(r1, r2);
}

/// Distinct registers never share a GDB protocol number: on ARM the GDB
/// number is the native selector id.
pub proof fn lemma_arm_gdb_injective(r1: ARMRegister, r2: ARMRegister)
    requires
        r1.spec_id() as u32 == r2.spec_id() as u32,
    ensures
        r1 == r2,
{
    lemma_arm_native_injective(r1, r2);
}

/// Converting a register to its disassembler id and back yields the
/// register.
pub proof fn lemma_arm_disasm_round_trip()
    ensures
        forall|r: ARMRegister|
            (#[trigger] r.spec_disasm_id()) matches Some(i)
                ==> ARMRegister::spec_from_disasm_id(i) == Some(r),
{
}

/// Distinct disassembler ids never map to the same register.
pub proof fn lemma_arm_disasm_injective(i1: u16, i2: u16)
    requires
        ARMRegister::spec_from_disasm_id(i1) is Some,
        ARMRegister::spec_from_disasm_id(i1) == ARMRegister::spec_from_disasm_id(i2),
    ensures
        i1 == i2,
{
}

} // verus!
