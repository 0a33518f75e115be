//! A word-sized quantity tagged with its word width.
//!
//! Address and size arithmetic in the debug core carries values from targets
//! of different word widths; `UhSize` pairs the value with the width in bits
//! so that mismatched operands are rejected rather than silently mixed.

use vstd::prelude::*;

verus! {

/// A value tagged with the word width, in bits, it belongs to.
#[derive(Debug, Copy, Clone, PartialEq, Eq, Structural)]
pub struct UhSize {
    pub data: u64,
    pub bits: usize,
}

impl UhSize {
    /// Pairs a value with its word width.
    pub fn new(data: u64, bits: usize) -> (r: Self)
        ensures
            r.data == data,
            r.bits == bits,
    {
        Self { data, bits }
    }

    /// The number of bytes in one word of this width.
    pub fn get_bytes_per_word(&self) -> (r: usize)
        ensures
            r == self.bits / 8,
    {
        self.bits / 8
    }

    /// The difference of two quantities of the same width.
    pub fn sub(self, other: Self) -> (r: Self)
        requires
            self.bits == other.bits,
            self.data >= other.data,
        ensures
            r.data == self.data - other.data,
            r.bits == self.bits,
    {
        Self { data: self.data - other.data, bits: self.bits }
    }

    /// The sum of two quantities of the same width.
    pub fn add(self, other: Self) -> (r: Self)
        requires
            self.bits == other.bits,
            self.data + other.data <= u64::MAX,
        ensures
            r.data == self.data + other.data,
            r.bits == self.bits,
    {
        Self { data: self.data + other.data, bits: self.bits }
    }
}

} // verus!
