//! Debug-target core for embedded microcontrollers.
//!
//! The crate provides the transport/register/unwind core of a hardware
//! debugger front-end: an architecture layer that reconciles ARM and RISC-V
//! register numbering (native selector ids, DWARF numbers, GDB protocol
//! numbers, disassembler ids), and the decision logic and wire codecs of the
//! debug-target backends (static core dump, OpenOCD Tcl-RPC, GDB
//! remote-serial, live probe).  Everything here is pure computation on plain
//! values; the surrounding I/O (sockets, files, the probe driver) lives with
//! the caller.

pub mod arch;
pub mod arch_arm;
pub mod arch_rv;
pub mod backend;
pub mod dump;
pub mod elf;
pub mod errors;
pub mod gdb;
pub mod insn;
pub mod openocd;
pub mod probe;
pub mod regmap;
pub mod regs;
pub mod regs_arm;
pub mod regs_rv;
pub mod session;
pub mod uhsize;
pub mod unattached;
pub mod util;
pub mod xmlwrap;
