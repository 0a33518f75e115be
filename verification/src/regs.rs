//! The architecture-tagged register model.
//!
//! A [`Register`] is either an ARM or a RISC-V register; each carries a fixed
//! numeric id in its architecture's native debug-access encoding, and the
//! architecture modules define the conversions into the other id spaces
//! (DWARF number, GDB protocol number, disassembler id).  A
//! [`RegisterField`] names a bit range inside a composite status or control
//! register; it is pure display metadata.

use crate::regs_arm::ARMRegister;
use crate::regs_rv::RVRegister;
use vstd::prelude::*;

verus! {

/// A named bit range inside a composite register.
#[derive(Copy, Clone, Debug)]
pub struct RegisterField {
    pub highbit: u16,
    pub lowbit: u16,
    pub name: &'static str,
}

impl RegisterField {
    /// A field spanning the bits `highbit` down to `lowbit`, inclusive.
    pub fn field(highbit: u16, lowbit: u16, name: &'static str) -> (r: Self)
        ensures
            r.highbit == highbit,
            r.lowbit == lowbit,
            r.name@ == name@,
    {
        Self { highbit, lowbit, name }
    }

    /// A field of a single bit.
    pub fn bit(bit: u16, name: &'static str) -> (r: Self)
        ensures
            r.highbit == bit,
            r.lowbit == bit,
            r.name@ == name@,
    {
        Self { highbit: bit, lowbit: bit, name }
    }
}

/// Whether a returned field vector carries exactly the specified bit ranges.
pub open spec fn fields_match(
    r: Option<Vec<RegisterField>>,
    s: Option<Seq<(u16, u16, Seq<char>)>>,
) -> bool {
    match r {
        Some(v) => {
            &&& s matches Some(sq)
            &&& v@.len() == sq.len()
            &&& forall|i: int|
                0 <= i < v@.len() ==> (#[trigger] v@[i]).highbit == sq[i].0 && v@[i].lowbit
                    == sq[i].1 && v@[i].name@ == sq[i].2
        },
        None => s is None,
    }
}

/// An architecture-tagged register.
#[allow(non_camel_case_types)]
#[derive(Copy, Clone, Debug, PartialEq, Eq, Structural)]
pub enum Register {
    Arm(ARMRegister),
    RiscV(RVRegister),
}

impl Register {
    /// Whether the register is its architecture's program counter.
    pub fn is_pc(&self) -> (r: bool)
        ensures
            r == self.spec_is_pc(),
    {
        match self {
            Register::Arm(reg) => *reg == ARMRegister::PC,
            Register::RiscV(reg) => *reg == RVRegister::PC,
        }
    }

    /// Whether `is_pc` holds, as a specification.
    pub open spec fn spec_is_pc(self) -> bool {
        match self {
            Register::Arm(reg) => reg is PC,
            Register::RiscV(reg) => reg is PC,
        }
    }

    /// Whether the register is a general-purpose register.
    pub fn is_general_purpose(&self) -> (r: bool)
        ensures
            r == self.spec_is_general_purpose(),
    {
        match self {
            Register::Arm(reg) => reg.is_general_purpose(),
            Register::RiscV(reg) => reg.is_general_purpose(),
        }
    }

    /// Whether `is_general_purpose` holds, as a specification.
    pub open spec fn spec_is_general_purpose(self) -> bool {
        match self {
            Register::Arm(reg) => reg.spec_is_general_purpose(),
            Register::RiscV(reg) => reg.spec_is_general_purpose(),
        }
    }

    /// Whether the register is a special (status or control) register.
    pub fn is_special(&self) -> (r: bool)
        ensures
            r == self.spec_is_special(),
    {
        match self {
            Register::Arm(reg) => reg.is_special(),
            Register::RiscV(reg) => reg.is_special(),
        }
    }

    /// Whether `is_special` holds, as a specification.
    pub open spec fn spec_is_special(self) -> bool {
        match self {
            Register::Arm(reg) => reg.spec_is_special(),
            Register::RiscV(reg) => reg.spec_is_special(),
        }
    }

    /// Whether the register is a floating-point register.
    pub fn is_floating_point(&self) -> (r: bool)
        ensures
            r == self.spec_is_floating_point(),
    {
        match self {
            Register::Arm(reg) => reg.is_floating_point(),
            Register::RiscV(reg) => reg.is_floating_point(),
        }
    }

    /// Whether `is_floating_point` holds, as a specification.
    pub open spec fn spec_is_floating_point(self) -> bool {
        match self {
            Register::Arm(reg) => reg.spec_is_floating_point(),
            Register::RiscV(reg) => reg.spec_is_floating_point(),
        }
    }

    /// Returns the named bit ranges of the register, for display decoding.
    pub fn fields(&self) -> (r: Option<Vec<RegisterField>>)
        ensures
            fields_match(r, self.spec_fields()),
    {
        match self {
            Register::Arm(reg) => reg.fields(),
            Register::RiscV(reg) => reg.fields(),
        }
    }

    /// The named bit ranges of the register, as a specification.
    pub open spec fn spec_fields(self) -> Option<Seq<(u16, u16, Seq<char>)>> {
        match self {
            Register::Arm(reg) => reg.spec_fields(),
            Register::RiscV(reg) => reg.spec_fields(),
        }
    }

    /// The GDB protocol register number of the register.
    pub fn to_gdb_id(&self) -> (r: u32)
        ensures
            r == self.spec_gdb_id(),
    {
        match self {
            Register::Arm(reg) => reg.to_gdb_id(),
            Register::RiscV(reg) => reg.to_gdb_id(),
        }
    }

    /// The GDB protocol register number, as a specification.
    pub open spec fn spec_gdb_id(self) -> u32 {
        match self {
            Register::Arm(reg) => reg.spec_id() as u32,
            Register::RiscV(reg) => reg.spec_gdb_id(),
        }
    }

    /// The native selector id of the register.
    pub open spec fn spec_native_id(self) -> u16 {
        match self {
            Register::Arm(reg) => reg.spec_id(),
            Register::RiscV(reg) => reg.spec_id(),
        }
    }

    /// The native selector id, as a 64-bit value.
    pub fn to_u64(&self) -> (r: Option<u64>)
        ensures
            r == Some(self.spec_native_id() as u64),
    {
        Some(self.to_u16_inner() as u64)
    }

    /// The native selector id, as a signed 64-bit value.
    pub fn to_i64(&self) -> (r: Option<i64>)
        ensures
            r == Some(self.spec_native_id() as i64),
    {
        Some(self.to_u16_inner() as i64)
    }

    /// The native selector id, as a 32-bit value.
    pub fn to_u32(&self) -> (r: Option<u32>)
        ensures
            r == Some(self.spec_native_id() as u32),
    {
        Some(self.to_u16_inner() as u32)
    }

    /// The native selector id, as a 16-bit value.
    pub fn to_u16(&self) -> (r: Option<u16>)
        ensures
            r == Some(self.spec_native_id()),
    {
        Some(self.to_u16_inner())
    }

    /// The native selector id of the register.
    fn to_u16_inner(&self) -> (r: u16)
        ensures
            r == self.spec_native_id(),
    {
        match self {
            Register::Arm(reg) => reg.to_id(),
            Register::RiscV(reg) => reg.to_id(),
        }
    }

    /// The lowercase name of the register, as a specification.
    pub open spec fn spec_name(self) -> Seq<char> {
        match self {
            Register::Arm(reg) => reg.spec_name(),
            Register::RiscV(reg) => reg.spec_name(),
        }
    }

    /// Returns the lowercase name of the register, as used in register name
    /// tables and saved-state structure layouts.
    pub fn name(&self) -> (r: &'static str)
        ensures
            r@ == self.spec_name(),
    {
        match self {
            Register::Arm(reg) => reg.name(),
            Register::RiscV(reg) => reg.name(),
        }
    }
}

} // verus!
