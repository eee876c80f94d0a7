//! Under-voltage trip threshold register.
use vstd::prelude::*;

use crate::registers::{Register, RegisterWriter};

verus! {

/// Under-voltage trip threshold: the upper bits of the comparator count.
#[derive(Clone, Copy, Debug, PartialEq, Eq, Structural)]
pub struct UvTrip {
    pub bits: u8,
}

impl RegisterWriter for UvTrip {
    open spec fn spec_from_u8(val: u8) -> Self {
        UvTrip { bits: val }
    }

    open spec fn spec_value(&self) -> u8 {
        self.bits
    }

    open spec fn spec_register() -> Register {
        Register::UV_TRIP
    }

    open spec fn spec_mask() -> u8 {
        0xff
    }

    fn from_u8(val: u8) -> (r: Self) {
        UvTrip { bits: val }
    }

    fn register() -> (r: Register) {
        Register::UV_TRIP
    }

    fn update(&mut self, val: u8) {
        self.bits = val;
    }

    fn value(&self) -> (r: u8) {
        self.bits
    }

    proof fn lemma_round_trip(val: u8) {
        assert(val & 0xff == val) by (bit_vector);
    }

    proof fn lemma_within_mask(&self) {
        let x = self.bits;
        assert(x & !0xffu8 == 0) by (bit_vector);
    }
}

} // verus!
