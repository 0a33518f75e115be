//! The static core-dump backend.
//!
//! A dump session reads one ELF core image held wholly in memory.  Reads
//! resolve through the load-segment table: the segment with the greatest
//! base not above the address serves the access, which must fit both the
//! segment and the stored file.  An address no segment covers, an access
//! running past its segment, and an access past the stored bytes are three
//! different failures.  Registers were stored once at capture; nothing can
//! be written, run or stepped.

use crate::elf::{load_segments, parse_load_segments, Segment};
use crate::errors::Error;
use crate::regmap::RegMap;
use crate::regs::Register;
use vstd::prelude::*;

verus! {

/// The segment of `regions` with the greatest base not above `addr`; a
/// later entry wins a tie, as a re-registered base overrides.
pub open spec fn spec_region_for(regions: Seq<Segment>, addr: u32) -> Option<Segment>
    decreases regions.len(),
{
    if regions.len() == 0 {
        None
    } else {
        let rest = spec_region_for(regions.drop_last(), addr);
        let s = regions.last();
        if s.base <= addr && (rest is None || (rest->0).base <= s.base) {
            Some(s)
        } else {
            rest
        }
    }
}

/// What a read of `len` bytes at `addr` yields from a dump: the bytes at
/// the segment's file offset, or the failure that stops it.
pub open spec fn spec_dump_read(
    contents: Seq<u8>,
    regions: Seq<Segment>,
    addr: u32,
    len: nat,
) -> Result<Seq<u8>, Error> {
    match spec_region_for(regions, addr) {
        None => Err(Error::Unmapped(addr)),
        Some(s) => if addr - s.base + len > s.size {
            Err(Error::RangeExceeded(addr))
        } else if s.offset + (addr - s.base) + len > contents.len() {
            Err(Error::TruncatedDump(addr))
        } else {
            Ok(contents.subrange(s.offset + (addr - s.base), s.offset + (addr - s.base) + len))
        },
    }
}

/// A successful read yields exactly the requested number of bytes.
pub proof fn lemma_dump_read_len(contents: Seq<u8>, regions: Seq<Segment>, addr: u32, len: nat)
    ensures
        spec_dump_read(contents, regions, addr, len) matches Ok(s) ==> s.len() == len,
{
    lemma_region_for_base(regions, addr);
}

/// A segment the lookup returns covers an address no smaller than its
/// base.
proof fn lemma_region_for_base(regions: Seq<Segment>, addr: u32)
    ensures
        spec_region_for(regions, addr) matches Some(s) ==> s.base <= addr,
    decreases regions.len(),
{
    if regions.len() > 0 {
        lemma_region_for_base(regions.drop_last(), addr);
    }
}

/// Finds the segment with the greatest base not above `addr`.
fn region_for(regions: &Vec<Segment>, addr: u32) -> (r: Option<Segment>)
    ensures
        r == spec_region_for(regions@, addr),
{
    let mut best: Option<Segment> = None;
    let mut i: usize = 0;
    proof {
        assert(regions@.take(0) =~= Seq::<Segment>::empty());
    }
    while i < regions.len()
        invariant
            i <= regions@.len(),
            best == spec_region_for(regions@.take(i as int), addr),
        decreases regions@.len() - i,
    {
        proof {
            assert(regions@.take(i + 1).drop_last() =~= regions@.take(i as int));
            assert(regions@.take(i + 1).last() == regions@[i as int]);
        }
        let s = regions[i];
        let better = match best {
            None => s.base <= addr,
            Some(b) => s.base <= addr && b.base <= s.base,
        };
        if better {
            best = Some(s);
        }
        i = i + 1;
    }
    proof {
        assert(regions@.take(regions@.len() as int) =~= regions@);
    }
    best
}

/// A static core-dump session.
#[derive(Clone, Debug)]
pub struct DumpCore {
    contents: Vec<u8>,
    regions: Vec<Segment>,
    registers: RegMap,
}

impl DumpCore {
    /// The stored image bytes.
    pub closed spec fn spec_contents(&self) -> Seq<u8> {
        self.contents@
    }

    /// The load-segment table, in image order.
    pub closed spec fn spec_regions(&self) -> Seq<Segment> {
        self.regions@
    }

    /// The registers stored at capture.
    pub closed spec fn spec_registers(&self) -> Map<Register, u32> {
        self.registers@
    }

    /// Opens a dump session over an image already read into memory, with
    /// the register set stored at capture.
    pub fn new(contents: Vec<u8>, registers: RegMap) -> (r: Result<DumpCore, Error>)
        ensures
            match r {
                Ok(d) => {
                    &&& crate::elf::elf_header_ok(contents@)
                    &&& d.spec_contents() == contents@
                    &&& d.spec_regions() == load_segments(contents@)
                    &&& d.spec_registers() == registers@
                },
                Err(e) => !crate::elf::elf_header_ok(contents@) && e == Error::BadElf,
            },
    {
        let regions = match parse_load_segments(contents.as_slice()) {
            Ok(v) => v,
            Err(e) => {
                return Err(e);
            },
        };
        Ok(DumpCore { contents, regions, registers })
    }

    /// Reads `len` bytes at `addr` out of the stored image.
    pub fn read_8(&self, addr: u32, len: usize) -> (r: Result<Vec<u8>, Error>)
        ensures
            match r {
                Ok(v) => spec_dump_read(
                    self.spec_contents(),
                    self.spec_regions(),
                    addr,
                    len as nat,
                ) matches Ok(s) && v@ == s,
                Err(e) => spec_dump_read(
                    self.spec_contents(),
                    self.spec_regions(),
                    addr,
                    len as nat,
                ) matches Err(e2) && e == e2,
            },
    {
        let s = match region_for(&self.regions, addr) {
            Some(s) => s,
            None => {
                return Err(Error::Unmapped(addr));
            },
        };
        proof {
            lemma_region_for_base(self.regions@, addr);
        }
        let off_in_seg = addr - s.base;
        if len as u64 > s.size as u64 || off_in_seg as u64 > s.size as u64 - len as u64 {
            return Err(Error::RangeExceeded(addr));
        }
        let n = self.contents.len();
        if s.offset > n as u64 || off_in_seg as u64 + len as u64 > n as u64 - s.offset {
            return Err(Error::TruncatedDump(addr));
        }
        let offs = (s.offset as usize) + (off_in_seg as usize);
        let out = vstd::slice::slice_to_vec(
            vstd::slice::slice_subrange(self.contents.as_slice(), offs, offs + len),
        );
        Ok(out)
    }

    /// Reads the 32-bit little-endian word at `addr`.
    pub fn read_word_32(&self, addr: u32) -> (r: Result<u32, Error>)
        ensures
            match r {
                Ok(w) => spec_dump_read(
                    self.spec_contents(),
                    self.spec_regions(),
                    addr,
                    4,
                ) matches Ok(s) && w == vstd::bytes::spec_u32_from_le_bytes(s),
                Err(e) => spec_dump_read(
                    self.spec_contents(),
                    self.spec_regions(),
                    addr,
                    4,
                ) matches Err(e2) && e == e2,
            },
    {
        let bytes = match self.read_8(addr, 4) {
            Ok(v) => v,
            Err(e) => {
                return Err(e);
            },
        };
        proof {
            lemma_dump_read_len(self.spec_contents(), self.spec_regions(), addr, 4);
        }
        Ok(vstd::bytes::u32_from_le_bytes(bytes.as_slice()))
    }

    /// Reads the 64-bit little-endian word at `addr`.
    pub fn read_word_64(&self, addr: u32) -> (r: Result<u64, Error>)
        ensures
            match r {
                Ok(w) => spec_dump_read(
                    self.spec_contents(),
                    self.spec_regions(),
                    addr,
                    8,
                ) matches Ok(s) && w == vstd::bytes::spec_u64_from_le_bytes(s),
                Err(e) => spec_dump_read(
                    self.spec_contents(),
                    self.spec_regions(),
                    addr,
                    8,
                ) matches Err(e2) && e == e2,
            },
    {
        let bytes = match self.read_8(addr, 8) {
            Ok(v) => v,
            Err(e) => {
                return Err(e);
            },
        };
        proof {
            lemma_dump_read_len(self.spec_contents(), self.spec_regions(), addr, 8);
        }
        Ok(vstd::bytes::u64_from_le_bytes(bytes.as_slice()))
    }

    /// Reads a register stored at capture.
    pub fn read_reg(&self, reg: Register) -> (r: Result<u64, Error>)
        ensures
            match r {
                Ok(v) => self.spec_registers().contains_key(reg) && v == self.spec_registers()[reg],
                Err(e) => !self.spec_registers().contains_key(reg) && e == Error::RegisterNotFound,
            },
    {
        match self.registers.get(reg) {
            Some(v) => Ok(v as u64),
            None => Err(Error::RegisterNotFound),
        }
    }

    /// A dump never changes: register writes fail.
    pub fn write_reg(&mut self, _reg: Register, _value: u64) -> (r: Result<(), Error>)
        ensures
            r == Err::<(), Error>(Error::NotSupported),
            *final(self) == *old(self),
    {
        Err(Error::NotSupported)
    }

    /// A dump never changes: memory writes fail.
    pub fn write_word_32(&mut self, _addr: u32, _data: u32) -> (r: Result<(), Error>)
        ensures
            r == Err::<(), Error>(Error::NotSupported),
            *final(self) == *old(self),
    {
        Err(Error::NotSupported)
    }

    /// A dump never changes: memory writes fail.
    pub fn write_8(&mut self, _addr: u32, _data: &[u8]) -> (r: Result<(), Error>)
        ensures
            r == Err::<(), Error>(Error::NotSupported),
            *final(self) == *old(self),
    {
        Err(Error::NotSupported)
    }

    /// A dump is always as halted as it will ever be.
    pub fn halt(&mut self) -> (r: Result<(), Error>)
        ensures
            r == Ok::<(), Error>(()),
            *final(self) == *old(self),
    {
        Ok(())
    }

    /// Resuming a dump is a no-op.
    pub fn run(&mut self) -> (r: Result<(), Error>)
        ensures
            r == Ok::<(), Error>(()),
            *final(self) == *old(self),
    {
        Ok(())
    }

    /// Nothing executes in a dump: stepping fails.
    pub fn step(&mut self) -> (r: Result<(), Error>)
        ensures
            r == Err::<(), Error>(Error::NotSupported),
            *final(self) == *old(self),
    {
        Err(Error::NotSupported)
    }

    /// A dump carries no trace stream.
    pub fn init_swv(&mut self) -> (r: Result<(), Error>)
        ensures
            r == Err::<(), Error>(Error::NotSupported),
            *final(self) == *old(self),
    {
        Err(Error::NotSupported)
    }

    /// A dump carries no trace stream.
    pub fn read_swv(&mut self) -> (r: Result<Vec<u8>, Error>)
        ensures
            r matches Err(e) && e == Error::NotSupported,
            *final(self) == *old(self),
    {
        Err(Error::NotSupported)
    }

    /// This backend is the dump backend.
    pub fn is_dump(&self) -> (r: bool)
        ensures
            r,
    {
        true
    }

    /// A dump cannot be flashed.
    pub fn load(&mut self) -> (r: Result<(), Error>)
        ensures
            r == Err::<(), Error>(Error::NotSupported),
            *final(self) == *old(self),
    {
        Err(Error::NotSupported)
    }

    /// A dump cannot be reset.
    pub fn reset(&mut self) -> (r: Result<(), Error>)
        ensures
            r == Err::<(), Error>(Error::NotSupported),
            *final(self) == *old(self),
    {
        Err(Error::NotSupported)
    }
}

} // verus!
