//! Program-header parsing for core images.
//!
//! The dump backend reads one little-endian ELF image and keeps, for each
//! load segment, the triple of virtual base address, size in memory, and
//! file offset.  Both 32-bit and 64-bit images are read; addresses and
//! sizes are narrowed to the 32-bit address space of the targets, as the
//! debug core works in it throughout.

use crate::errors::Error;
use vstd::prelude::*;

verus! {

/// One load segment of a core image: where it lived, how long it was, and
/// where its bytes sit in the file.
#[derive(Copy, Clone, Debug, PartialEq, Eq, Structural)]
pub struct Segment {
    /// The virtual base address of the segment.
    pub base: u32,
    /// The size of the segment in target memory.
    pub size: u32,
    /// The byte offset of the segment's contents in the image file.
    pub offset: u64,
}

/// The little-endian 16-bit word at offset `o`.
pub open spec fn word16(b: Seq<u8>, o: int) -> u16 {
    vstd::bytes::spec_u16_from_le_bytes(b.subrange(o, o + 2))
}

/// The little-endian 32-bit word at offset `o`.
pub open spec fn word32(b: Seq<u8>, o: int) -> u32 {
    vstd::bytes::spec_u32_from_le_bytes(b.subrange(o, o + 4))
}

/// The little-endian 64-bit word at offset `o`.
pub open spec fn word64(b: Seq<u8>, o: int) -> u64 {
    vstd::bytes::spec_u64_from_le_bytes(b.subrange(o, o + 8))
}

/// The program-header table offset of the image.
pub open spec fn elf_phoff(b: Seq<u8>) -> int {
    if b[4] == 1 {
        word32(b, 28) as int
    } else {
        word64(b, 32) as int
    }
}

/// The size of one program-header entry of the image's class.
pub open spec fn elf_phentsize(b: Seq<u8>) -> int {
    if b[4] == 1 {
        32
    } else {
        56
    }
}

/// The number of program-header entries of the image.
pub open spec fn elf_phnum(b: Seq<u8>) -> int {
    if b[4] == 1 {
        word16(b, 44) as int
    } else {
        word16(b, 56) as int
    }
}

/// Whether the image is a little-endian ELF file whose program-header
/// table lies within it, with the standard entry size for its class.
pub open spec fn elf_header_ok(b: Seq<u8>) -> bool {
    &&& b.len() >= 52
    &&& b[0] == 0x7f
    &&& b[1] == 0x45
    &&& b[2] == 0x4c
    &&& b[3] == 0x46
    &&& (b[4] == 1 || b[4] == 2)
    &&& b[5] == 1
    &&& (b[4] == 2 ==> b.len() >= 64)
    &&& word16(b, (if b[4] == 1 {
        42int
    } else {
        54int
    })) == elf_phentsize(b)
    &&& elf_phoff(b) + elf_phnum(b) * elf_phentsize(b) <= b.len()
}

/// The load segment described by the program-header entry at offset `e`.
pub open spec fn segment_at(b: Seq<u8>, e: int) -> Segment {
    if b[4] == 1 {
        Segment { base: word32(b, e + 8), size: word32(b, e + 20), offset: word32(b, e + 4) as u64 }
    } else {
        Segment {
            base: word64(b, e + 16) as u32,
            size: word64(b, e + 40) as u32,
            offset: word64(b, e + 8),
        }
    }
}

/// The load segments among the first `k` program-header entries, in table
/// order.
pub open spec fn load_segments_upto(b: Seq<u8>, k: nat) -> Seq<Segment>
    decreases k,
{
    if k == 0 {
        Seq::empty()
    } else {
        let pre = load_segments_upto(b, (k - 1) as nat);
        let e = elf_phoff(b) + (k - 1) * elf_phentsize(b);
        if word32(b, e) == 1 {
            pre.push(segment_at(b, e))
        } else {
            pre
        }
    }
}

/// The load segments of the image, in table order.
pub open spec fn load_segments(b: Seq<u8>) -> Seq<Segment> {
    load_segments_upto(b, elf_phnum(b) as nat)
}

/// Reads the 16-bit word at `o`.
fn read16(b: &[u8], o: usize) -> (r: u16)
    requires
        o + 2 <= b@.len(),
    ensures
        r == word16(b@, o as int),
{
    let _n = b.len();
    vstd::bytes::u16_from_le_bytes(vstd::slice::slice_subrange(b, o, o + 2))
}

/// Reads the 32-bit word at `o`.
fn read32(b: &[u8], o: usize) -> (r: u32)
    requires
        o + 4 <= b@.len(),
    ensures
        r == word32(b@, o as int),
{
    let _n = b.len();
    vstd::bytes::u32_from_le_bytes(vstd::slice::slice_subrange(b, o, o + 4))
}

/// Reads the 64-bit word at `o`.
fn read64(b: &[u8], o: usize) -> (r: u64)
    requires
        o + 8 <= b@.len(),
    ensures
        r == word64(b@, o as int),
{
    let _n = b.len();
    vstd::bytes::u64_from_le_bytes(vstd::slice::slice_subrange(b, o, o + 8))
}

/// Parses the load segments out of a little-endian ELF image.
pub fn parse_load_segments(contents: &[u8]) -> (r: Result<Vec<Segment>, Error>)
    ensures
        match r {
            Ok(v) => elf_header_ok(contents@) && v@ == load_segments(contents@),
            Err(e) => !elf_header_ok(contents@) && e == Error::BadElf,
        },
{
    let n = contents.len();
    if n < 52 {
        return Err(Error::BadElf);
    }
    if !(contents[0] == 0x7f && contents[1] == 0x45 && contents[2] == 0x4c && contents[3] == 0x46) {
        return Err(Error::BadElf);
    }
    let class = contents[4];
    if !(class == 1 || class == 2) {
        return Err(Error::BadElf);
    }
    if contents[5] != 1 {
        return Err(Error::BadElf);
    }
    if class == 2 && n < 64 {
        return Err(Error::BadElf);
    }
    let phoff: u64 = if class == 1 {
        read32(contents, 28) as u64
    } else {
        read64(contents, 32)
    };
    let phentsize: usize = if class == 1 {
        32
    } else {
        56
    };
    let phnum: usize = if class == 1 {
        read16(contents, 44) as usize
    } else {
        read16(contents, 56) as usize
    };
    let stated = if class == 1 {
        read16(contents, 42)
    } else {
        read16(contents, 54)
    };
    if stated as usize != phentsize {
        return Err(Error::BadElf);
    }
    if phoff > n as u64 || (phnum * phentsize) as u64 > n as u64 - phoff {
        proof {
            assert(!elf_header_ok(contents@));
        }
        return Err(Error::BadElf);
    }
    let phoff: usize = phoff as usize;
    let mut v: Vec<Segment> = Vec::new();
    let mut k: usize = 0;
    let mut e: usize = phoff;
    while k < phnum
        invariant
            k <= phnum,
            elf_header_ok(contents@),
            class == contents@[4],
            class == 1 || class == 2,
            contents@.len() == n,
            phoff == elf_phoff(contents@),
            phentsize == elf_phentsize(contents@),
            phnum == elf_phnum(contents@),
            e == phoff + k * phentsize,
            v@ == load_segments_upto(contents@, k as nat),
        decreases phnum - k,
    {
        proof {
            assert((k + 1) * phentsize == k * phentsize + phentsize) by (nonlinear_arith);
            assert((k + 1) * phentsize <= phnum * phentsize) by (nonlinear_arith)
                requires
                    k + 1 <= phnum,
                    phentsize >= 0,
            ;
        }
        let ptype = read32(contents, e);
        if ptype == 1 {
            let seg = if class == 1 {
                Segment {
                    base: read32(contents, e + 8),
                    size: read32(contents, e + 20),
                    offset: read32(contents, e + 4) as u64,
                }
            } else {
                Segment {
                    base: #[verifier::truncate] (read64(contents, e + 16) as u32),
                    size: #[verifier::truncate] (read64(contents, e + 40) as u32),
                    offset: read64(contents, e + 8),
                }
            };
            v.push(seg);
        }
        k = k + 1;
        e = e + phentsize;
    }
    Ok(v)
}

} // verus!
