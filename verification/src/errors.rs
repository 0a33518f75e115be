//! Error taxonomy of the debug core.
//!
//! Every failure of the library falls into one of five broad kinds: connect
//! errors, protocol errors, capability errors, target-state errors and
//! heuristic failures.  The concrete variants carry the datum that made the
//! operation fail, so that callers can both match on the exact cause and
//! classify it through [`Error::kind`].

use vstd::prelude::*;

verus! {

/// The broad failure classes of the debug core.
#[derive(Copy, Clone, Debug, PartialEq, Eq, Structural)]
pub enum ErrorKind {
    /// The server or probe could not be reached; fatal, never retried.
    Connect,
    /// A malformed or unexpected reply, or a framing/checksum violation;
    /// fatal for the in-flight call.
    Protocol,
    /// The operation is structurally unsupported by the backend; never
    /// retried.
    Capability,
    /// A register or memory location is absent from the target; fatal for
    /// that one lookup only.
    TargetState,
    /// A best-effort analysis gave up; the caller stops at the last good
    /// result.
    Heuristic,
}

/// A concrete failure of the debug core.
#[derive(Copy, Clone, Debug, PartialEq, Eq, Structural)]
pub enum Error {
    /// The server or probe could not be reached.
    ConnectFailed,
    /// A write, flash, step or reset was attempted on a backend that cannot
    /// perform it.
    NotSupported,
    /// A flash was attempted on a session that was not attached with an
    /// explicit chip identifier.
    CannotFlash,
    /// A read longer than the backend's maximum was requested.
    ReadTooLarge(usize),
    /// The address is not covered by any loaded segment.
    Unmapped(u32),
    /// The address is mapped, but the access runs past the end of its
    /// segment.
    RangeExceeded(u32),
    /// The address is mapped, but the stored image ends before the access;
    /// the dump is truncated or corrupt.
    TruncatedDump(u32),
    /// The register is not present in the stored register set.
    RegisterNotFound,
    /// No register carries this native selector id.
    UnknownRegisterId(u32),
    /// No register carries this DWARF number.
    UnknownDwarfId(u32),
    /// No register carries this disassembler id.
    UnknownDisasmId(u32),
    /// A syscall argument number past the last argument register.
    BadSyscallArg(u8),
    /// A register name table was provided but does not contain the register.
    RegisterNotInTable,
    /// A numeric token could not be parsed, or does not fit its type.
    BadInteger,
    /// An array response names an index at or past the requested length.
    IllegalIndex(usize),
    /// An array response names the same index twice.
    DuplicateIndex(usize),
    /// An array response never names this index.
    MissingIndex(usize),
    /// The response text carries the server's error marker.
    CommandFailed,
    /// The response text reports an unknown command.
    InvalidCommand,
    /// The reply does not have the shape the protocol promises.
    BadResponse,
    /// The server answered with an error code packet.
    ErrorCode,
    /// A register read reply of a width other than 4 or 8 bytes.
    BadRegisterWidth(usize),
    /// The image is not an ELF file this backend can read.
    BadElf,
    /// A named member is absent from a structure layout.
    MemberNotFound,
    /// A member read runs past the end of the register block.
    MemberOutOfRange,
    /// An instruction names several source or target registers where one was
    /// expected.
    MultipleRegisters,
    /// A branch instruction carries no operand to resolve.
    MissingOperand,
}

impl Error {
    /// The broad class this failure belongs to.
    pub fn kind(&self) -> (k: ErrorKind)
        ensures
            k == self.spec_kind(),
    {
        match self {
            Error::ConnectFailed => ErrorKind::Connect,
            Error::NotSupported => ErrorKind::Capability,
            Error::CannotFlash => ErrorKind::Capability,
            Error::ReadTooLarge(_) => ErrorKind::Capability,
            Error::Unmapped(_) => ErrorKind::TargetState,
            Error::RangeExceeded(_) => ErrorKind::TargetState,
            Error::TruncatedDump(_) => ErrorKind::TargetState,
            Error::RegisterNotFound => ErrorKind::TargetState,
            Error::UnknownRegisterId(_) => ErrorKind::TargetState,
            Error::UnknownDwarfId(_) => ErrorKind::TargetState,
            Error::UnknownDisasmId(_) => ErrorKind::Heuristic,
            Error::BadSyscallArg(_) => ErrorKind::TargetState,
            Error::RegisterNotInTable => ErrorKind::TargetState,
            Error::BadInteger => ErrorKind::Protocol,
            Error::IllegalIndex(_) => ErrorKind::Protocol,
            Error::DuplicateIndex(_) => ErrorKind::Protocol,
            Error::MissingIndex(_) => ErrorKind::Protocol,
            Error::CommandFailed => ErrorKind::Protocol,
            Error::InvalidCommand => ErrorKind::Protocol,
            Error::BadResponse => ErrorKind::Protocol,
            Error::ErrorCode => ErrorKind::Protocol,
            Error::BadRegisterWidth(_) => ErrorKind::Protocol,
            Error::BadElf => ErrorKind::Protocol,
            Error::MemberNotFound => ErrorKind::TargetState,
            Error::MemberOutOfRange => ErrorKind::TargetState,
            Error::MultipleRegisters => ErrorKind::Heuristic,
            Error::MissingOperand => ErrorKind::Heuristic,
        }
    }

    /// What `kind` returns, as a specification.
    pub open spec fn spec_kind(&self) -> ErrorKind {
        match self {
            Error::ConnectFailed => ErrorKind::Connect,
            Error::NotSupported => ErrorKind::Capability,
            Error::CannotFlash => ErrorKind::Capability,
            Error::ReadTooLarge(_) => ErrorKind::Capability,
            Error::Unmapped(_) => ErrorKind::TargetState,
            Error::RangeExceeded(_) => ErrorKind::TargetState,
            Error::TruncatedDump(_) => ErrorKind::TargetState,
            Error::RegisterNotFound => ErrorKind::TargetState,
            Error::UnknownRegisterId(_) => ErrorKind::TargetState,
            Error::UnknownDwarfId(_) => ErrorKind::TargetState,
            Error::UnknownDisasmId(_) => ErrorKind::Heuristic,
            Error::BadSyscallArg(_) => ErrorKind::TargetState,
            Error::RegisterNotInTable => ErrorKind::TargetState,
            Error::BadInteger => ErrorKind::Protocol,
            Error::IllegalIndex(_) => ErrorKind::Protocol,
            Error::DuplicateIndex(_) => ErrorKind::Protocol,
            Error::MissingIndex(_) => ErrorKind::Protocol,
            Error::CommandFailed => ErrorKind::Protocol,
            Error::InvalidCommand => ErrorKind::Protocol,
            Error::BadResponse => ErrorKind::Protocol,
            Error::ErrorCode => ErrorKind::Protocol,
            Error::BadRegisterWidth(_) => ErrorKind::Protocol,
            Error::BadElf => ErrorKind::Protocol,
            Error::MemberNotFound => ErrorKind::TargetState,
            Error::MemberOutOfRange => ErrorKind::TargetState,
            Error::MultipleRegisters => ErrorKind::Heuristic,
            Error::MissingOperand => ErrorKind::Heuristic,
        }
    }
}

} // verus!
