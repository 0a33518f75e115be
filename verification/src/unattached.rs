//! The unattached-probe backend.
//!
//! A probe that has been opened but not attached to a target carries only
//! its identity.  Every target operation fails with a capability error;
//! resetting the target is the one thing a bare probe can do, and that
//! action belongs to the probe driver, outside this crate.

use crate::errors::Error;
use crate::regs::Register;
use vstd::prelude::*;

verus! {

/// An opened probe with no target session.
#[derive(Clone, Debug)]
pub struct UnattachedCore {
    pub identifier: String,
    pub vendor_id: u16,
    pub product_id: u16,
    pub serial_number: Option<String>,
}

impl UnattachedCore {
    /// Records the identity of an opened probe.
    pub fn new(
        identifier: String,
        vendor_id: u16,
        product_id: u16,
        serial_number: Option<String>,
    ) -> (r: Self)
        ensures
            r.identifier == identifier,
            r.vendor_id == vendor_id,
            r.product_id == product_id,
            r.serial_number == serial_number,
    {
        Self { identifier, vendor_id, product_id, serial_number }
    }

    /// Reading memory needs a target session.
    pub fn read_word_32(&mut self, _addr: u32) -> (r: Result<u32, Error>)
        ensures
            r == Err::<u32, Error>(Error::NotSupported),
    {
        Err(Error::NotSupported)
    }

    /// Reading memory needs a target session.
    pub fn read_8(&mut self, _addr: u32, _len: usize) -> (r: Result<Vec<u8>, Error>)
        ensures
            r matches Err(e) && e == Error::NotSupported,
    {
        Err(Error::NotSupported)
    }

    /// Reading a register needs a target session.
    pub fn read_reg(&mut self, _reg: Register) -> (r: Result<u64, Error>)
        ensures
            r == Err::<u64, Error>(Error::NotSupported),
    {
        Err(Error::NotSupported)
    }

    /// Writing a register needs a target session.
    pub fn write_reg(&mut self, _reg: Register, _value: u64) -> (r: Result<(), Error>)
        ensures
            r == Err::<(), Error>(Error::NotSupported),
    {
        Err(Error::NotSupported)
    }

    /// Writing memory needs a target session.
    pub fn write_word_32(&mut self, _addr: u32, _data: u32) -> (r: Result<(), Error>)
        ensures
            r == Err::<(), Error>(Error::NotSupported),
    {
        Err(Error::NotSupported)
    }

    /// Writing memory needs a target session.
    pub fn write_8(&mut self, _addr: u32, _data: &[u8]) -> (r: Result<(), Error>)
        ensures
            r == Err::<(), Error>(Error::NotSupported),
    {
        Err(Error::NotSupported)
    }

    /// Halting needs a target session.
    pub fn halt(&mut self) -> (r: Result<(), Error>)
        ensures
            r == Err::<(), Error>(Error::NotSupported),
    {
        Err(Error::NotSupported)
    }

    /// Resuming needs a target session.
    pub fn run(&mut self) -> (r: Result<(), Error>)
        ensures
            r == Err::<(), Error>(Error::NotSupported),
    {
        Err(Error::NotSupported)
    }

    /// Stepping needs a target session.
    pub fn step(&mut self) -> (r: Result<(), Error>)
        ensures
            r == Err::<(), Error>(Error::NotSupported),
    {
        Err(Error::NotSupported)
    }

    /// The trace stream needs a target session.
    pub fn init_swv(&mut self) -> (r: Result<(), Error>)
        ensures
            r == Err::<(), Error>(Error::NotSupported),
    {
        Err(Error::NotSupported)
    }

    /// The trace stream needs a target session.
    pub fn read_swv(&mut self) -> (r: Result<Vec<u8>, Error>)
        ensures
            r matches Err(e) && e == Error::NotSupported,
    {
        Err(Error::NotSupported)
    }

    /// A bare probe is not a core dump.
    pub fn is_dump(&self) -> (r: bool)
        ensures
            !r,
    {
        false
    }

    /// Flashing needs a target session.
    pub fn load(&mut self) -> (r: Result<(), Error>)
        ensures
            r == Err::<(), Error>(Error::NotSupported),
    {
        Err(Error::NotSupported)
    }
}

} // verus!
