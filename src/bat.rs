//! Pack voltage sample registers.
use vstd::prelude::*;

use crate::registers::{Register, RegisterWriter};

verus! {

/// Pack voltage ADC count, high byte.
#[derive(Clone, Copy, Debug, PartialEq, Eq, Structural)]
pub struct BatHi {
    pub bits: u8,
}

impl RegisterWriter for BatHi {
    open spec fn spec_from_u8(val: u8) -> Self {
        BatHi { bits: val }
    }

    open spec fn spec_value(&self) -> u8 {
        self.bits
    }

    open spec fn spec_register() -> Register {
        Register::BAT_HI
    }

    open spec fn spec_mask() -> u8 {
        0xff
    }

    fn from_u8(val: u8) -> (r: Self) {
        BatHi { bits: val }
    }

    fn register() -> (r: Register) {
        Register::BAT_HI
    }

    fn update(&mut self, val: u8) {
        self.bits = val;
    }

    fn value(&self) -> (r: u8) {
        self.bits
    }

    proof fn lemma_round_trip(val: u8) {
        assert(val & 0xff == val) by (bit_vector);
    }

    proof fn lemma_within_mask(&self) {
        let x = self.bits;
        assert(x & !0xffu8 == 0) by (bit_vector);
    }
}

/// Pack voltage ADC count, low byte.
#[derive(Clone, Copy, Debug, PartialEq, Eq, Structural)]
pub struct BatLo {
    pub bits: u8,
}

impl RegisterWriter for BatLo {
    open spec fn spec_from_u8(val: u8) -> Self {
        BatLo { bits: val }
    }

    open spec fn spec_value(&self) -> u8 {
        self.bits
    }

    open spec fn spec_register() -> Register {
        Register::BAT_LO
    }

    open spec fn spec_mask() -> u8 {
        0xff
    }

    fn from_u8(val: u8) -> (r: Self) {
        BatLo { bits: val }
    }

    fn register() -> (r: Register) {
        Register::BAT_LO
    }

    fn update(&mut self, val: u8) {
        self.bits = val;
    }

    fn value(&self) -> (r: u8) {
        self.bits
    }

    proof fn lemma_round_trip(val: u8) {
        assert(val & 0xff == val) by (bit_vector);
    }

    proof fn lemma_within_mask(&self) {
        let x = self.bits;
        assert(x & !0xffu8 == 0) by (bit_vector);
    }
}

} // verus!
