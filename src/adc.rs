//! Factory ADC trim registers.
use vstd::prelude::*;

use crate::registers::{Register, RegisterWriter};

verus! {

/// ADC offset trim, a signed count of millivolts.
#[derive(Clone, Copy, Debug, PartialEq, Eq, Structural)]
pub struct AdcOffset {
    pub bits: u8,
}

impl RegisterWriter for AdcOffset {
    open spec fn spec_from_u8(val: u8) -> Self {
        AdcOffset { bits: val }
    }

    open spec fn spec_value(&self) -> u8 {
        self.bits
    }

    open spec fn spec_register() -> Register {
        Register::ADCOFFSET
    }

    open spec fn spec_mask() -> u8 {
        0xff
    }

    fn from_u8(val: u8) -> (r: Self) {
        AdcOffset { bits: val }
    }

    fn register() -> (r: Register) {
        Register::ADCOFFSET
    }

    fn update(&mut self, val: u8) {
        self.bits = val;
    }

    fn value(&self) -> (r: u8) {
        self.bits
    }

    proof fn lemma_round_trip(val: u8) {
        assert(val & 0xff == val) by (bit_vector);
    }

    proof fn lemma_within_mask(&self) {
        let x = self.bits;
        assert(x & !0xffu8 == 0) by (bit_vector);
    }
}

/// ADC gain trim, high bits (bits 3:2).
#[derive(Clone, Copy, Debug, PartialEq, Eq, Structural)]
pub struct AdcGain1 {
    pub bits: u8,
}

impl RegisterWriter for AdcGain1 {
    open spec fn spec_from_u8(val: u8) -> Self {
        AdcGain1 { bits: val }
    }

    open spec fn spec_value(&self) -> u8 {
        self.bits
    }

    open spec fn spec_register() -> Register {
        Register::ADCGAIN1
    }

    open spec fn spec_mask() -> u8 {
        0xff
    }

    fn from_u8(val: u8) -> (r: Self) {
        AdcGain1 { bits: val }
    }

    fn register() -> (r: Register) {
        Register::ADCGAIN1
    }

    fn update(&mut self, val: u8) {
        self.bits = val;
    }

    fn value(&self) -> (r: u8) {
        self.bits
    }

    proof fn lemma_round_trip(val: u8) {
        assert(val & 0xff == val) by (bit_vector);
    }

    proof fn lemma_within_mask(&self) {
        let x = self.bits;
        assert(x & !0xffu8 == 0) by (bit_vector);
    }
}

/// ADC gain trim, low bits (bits 7:5).
#[derive(Clone, Copy, Debug, PartialEq, Eq, Structural)]
pub struct AdcGain2 {
    pub bits: u8,
}

impl RegisterWriter for AdcGain2 {
    open spec fn spec_from_u8(val: u8) -> Self {
        AdcGain2 { bits: val }
    }

    open spec fn spec_value(&self) -> u8 {
        self.bits
    }

    open spec fn spec_register() -> Register {
        Register::ADCGAIN2
    }

    open spec fn spec_mask() -> u8 {
        0xff
    }

    fn from_u8(val: u8) -> (r: Self) {
        AdcGain2 { bits: val }
    }

    fn register() -> (r: Register) {
        Register::ADCGAIN2
    }

    fn update(&mut self, val: u8) {
        self.bits = val;
    }

    fn value(&self) -> (r: u8) {
        self.bits
    }

    proof fn lemma_round_trip(val: u8) {
        assert(val & 0xff == val) by (bit_vector);
    }

    proof fn lemma_within_mask(&self) {
        let x = self.bits;
        assert(x & !0xffu8 == 0) by (bit_vector);
    }
}

} // verus!
