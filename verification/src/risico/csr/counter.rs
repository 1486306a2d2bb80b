//! A 64-bit event counter, readable and writable as two 32-bit halves.
use vstd::prelude::*;

use super::CsrInitContext;

verus! {

/// A 64-bit counter.
#[derive(Debug, Clone)]
pub struct Counter(u64);

impl View for Counter {
    type V = u64;

    closed spec fn view(&self) -> u64 {
        self.0
    }
}

/// The halves of a 64-bit value, and the values with one half replaced.
proof fn lemma_halves(v: u64, value: u32)
    by (bit_vector)
    ensures
        v & 0xFFFF_FFFF == v % 0x1_0000_0000,
        v >> 32 == v / 0x1_0000_0000,
        (v & 0xFFFF_FFFF_0000_0000) | (value as u64) == v - v % 0x1_0000_0000 + value,
        (v & 0xFFFF_FFFF) | ((value as u64) << 32) == value * 0x1_0000_0000 + v % 0x1_0000_0000,
{
}

impl Counter {
    /// A counter at zero.
    pub fn new(_ctx: &CsrInitContext) -> (r: Self)
        ensures
            r@ == 0,
    {
        Self(0)
    }

    /// Count one event, wrapping around at the end of the range.
    pub fn increment(&mut self)
        ensures
            final(self)@ == if old(self)@ == u64::MAX { 0 } else { (old(self)@ + 1) as u64 },
    {
        self.0 = self.0.wrapping_add(1);
    }

    /// The lower 32 bits.
    pub fn low_read(&self) -> (r: u32)
        ensures
            r == self@ % 0x1_0000_0000,
    {
        let v = self.0;
        proof {
            lemma_halves(v, 0);
        }
        (v & 0xFFFF_FFFF) as u32
    }

    /// Replace the lower 32 bits.
    pub fn low_write(&mut self, value: u32)
        ensures
            final(self)@ == old(self)@ - old(self)@ % 0x1_0000_0000 + value,
    {
        let v = self.0;
        let r = (v & 0xFFFF_FFFF_0000_0000) | (value as u64);
        proof {
            lemma_halves(v, value);
        }
        self.0 = r;
    }

    /// The upper 32 bits.
    pub fn high_read(&self) -> (r: u32)
        ensures
            r == self@ / 0x1_0000_0000,
    {
        let v = self.0;
        proof {
            lemma_halves(v, 0);
        }
        (v >> 32) as u32
    }

    /// Replace the upper 32 bits.
    pub fn high_write(&mut self, value: u32)
        ensures
            final(self)@ == value * 0x1_0000_0000 + old(self)@ % 0x1_0000_0000,
    {
        let v = self.0;
        let r = (v & 0xFFFF_FFFF) | ((value as u64) << 32);
        proof {
            lemma_halves(v, value);
        }
        self.0 = r;
    }
}

} // verus!
