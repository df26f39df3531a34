//! Bit tests on bytes: a sprite row byte is eight pixels, most significant
//! bit first, and the drawing path reads them one at a time.

use vstd::prelude::*;

verus! {

/// True when every bit of `mask` is set in `v`.
pub open spec fn spec_is_set(v: u8, mask: u8) -> bool {
    v & mask == mask
}

/// True when bit `n` (counting from the least significant bit) is set in `v`.
pub open spec fn spec_is_set_n(v: u8, n: u8) -> bool {
    spec_is_set(v, 1u8 << n)
}

/// Reading a byte as bits: masked tests and the eight bits in
/// most-significant-first order, the order in which a sprite row is drawn.
pub trait AsBoolSlice {
    /// True when every bit of `mask` is set in `self`.
    fn is_set(self, mask: u8) -> bool;

    /// True when bit `n` (counting from the least significant bit) is set.
    fn is_set_n(self, n: u8) -> bool;

    /// The eight bits of `self`, most significant first.
    fn as_bools(self) -> [bool; 8];
}

impl AsBoolSlice for u8 {
    fn is_set(self, mask: u8) -> (r: bool)
        ensures
            r == spec_is_set(self, mask),
    {
        (self & mask) == mask
    }

    fn is_set_n(self, bit_number: u8) -> (r: bool)
        ensures
            bit_number < 8 ==> r == spec_is_set_n(self, bit_number),
    {
        if bit_number < 8 {
            self.is_set(1u8 << bit_number)
        } else {
            false
        }
    }

    fn as_bools(self) -> (r: [bool; 8])
        ensures
            forall|k: int| 0 <= k < 8 ==> r[k] == spec_is_set_n(self, (7 - k) as u8),
    {
        [
            self.is_set_n(7),
            self.is_set_n(6),
            self.is_set_n(5),
            self.is_set_n(4),
            self.is_set_n(3),
            self.is_set_n(2),
            self.is_set_n(1),
            self.is_set_n(0),
        ]
    }
}

} // verus!
