//! A 256-bit unsigned value, wide enough for field orders, adaptor indexes
//! and verifier error codes of the arithmetic layer.

use vstd::prelude::*;

verus! {

/// A 256-bit unsigned integer, stored as two 128-bit halves.
#[derive(Clone, Copy, PartialEq, Eq, Structural, Debug)]
pub struct U256 {
    /// The upper 128 bits.
    pub hi: u128,
    /// The lower 128 bits.
    pub lo: u128,
}

impl U256 {
    /// The mathematical value: `hi * 2^128 + lo`.
    pub open spec fn value(self) -> int {
        self.hi * 0x1_0000_0000_0000_0000_0000_0000_0000_0000 + self.lo
    }

    /// The zero value.
    pub fn zero() -> (r: U256)
        ensures
            r.value() == 0,
            r == (U256 { hi: 0, lo: 0 }),
    {
        U256 { hi: 0, lo: 0 }
    }

    /// Widens a 64-bit value.
    pub fn from_u64(x: u64) -> (r: U256)
        ensures
            r.value() == x,
            r == (U256 { hi: 0, lo: x as u128 }),
    {
        U256 { hi: 0, lo: x as u128 }
    }
}

/// Two values are equal exactly when their mathematical values are.
pub proof fn lemma_value_injective(a: U256, b: U256)
    ensures
        a.value() == b.value() <==> a == b,
{
    if a.value() == b.value() {
        assert(a.hi == b.hi && a.lo == b.lo) by (nonlinear_arith)
            requires
                a.value() == b.value(),
                a.value() == a.hi * 0x1_0000_0000_0000_0000_0000_0000_0000_0000 + a.lo,
                b.value() == b.hi * 0x1_0000_0000_0000_0000_0000_0000_0000_0000 + b.lo,
                0 <= a.lo < 0x1_0000_0000_0000_0000_0000_0000_0000_0000,
                0 <= b.lo < 0x1_0000_0000_0000_0000_0000_0000_0000_0000,
                0 <= a.hi,
                0 <= b.hi,
        ;
    }
}

} // verus!
