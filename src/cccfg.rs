//! Coulomb counter configuration register.
use vstd::prelude::*;

use crate::registers::{
    field_mask, lemma_field_round_trip, lemma_field_within, Register, RegisterBits, RegisterWriter,
};

verus! {

/// Lowest bit of the configuration field.
pub const CC_CFG_LSB: u8 = 0;

/// Width of the configuration field in bits.
pub const CC_CFG_LEN: u8 = 6;

/// The configuration value (bits 5:0); bits 7:6 are reserved. A value wider
/// than the field is truncated when encoded.
#[derive(Clone, Copy, Debug, PartialEq, Eq, Structural)]
pub struct CcCfgVal {
    pub val: u8,
}

impl CcCfgVal {
    pub fn value(&self) -> (r: u8)
        ensures
            r == self.val,
    {
        self.val
    }

    pub fn update(&mut self, val: u8)
        ensures
            final(self).val == val,
    {
        self.val = val;
    }
}

impl RegisterBits for CcCfgVal {
    open spec fn spec_from_u8(val: u8) -> Self {
        CcCfgVal { val: ((val & field_mask(CC_CFG_LSB, CC_CFG_LEN)) >> CC_CFG_LSB) as u8 }
    }

    open spec fn spec_mask() -> u8 {
        field_mask(CC_CFG_LSB, CC_CFG_LEN)
    }

    open spec fn spec_to_u8(&self) -> u8 {
        ((self.val << CC_CFG_LSB) as u8) & field_mask(CC_CFG_LSB, CC_CFG_LEN)
    }

    fn from_u8(val: u8) -> (r: Self) {
        CcCfgVal { val: (val & Self::mask()) >> CC_CFG_LSB }
    }

    fn mask() -> (r: u8) {
        proof {
            assert(((((1u16 << 6u8) - 1) as u16) << 0u8) as u8 == 0x3fu8) by (bit_vector);
        }
        0x3f
    }

    fn to_u8(&self) -> (r: u8) {
        (self.val << CC_CFG_LSB) & Self::mask()
    }

    proof fn lemma_round_trip(val: u8) {
        lemma_field_round_trip(val, CC_CFG_LSB, CC_CFG_LEN);
    }

    proof fn lemma_within_mask(&self) {
        lemma_field_within(self.val, CC_CFG_LSB, field_mask(CC_CFG_LSB, CC_CFG_LEN));
    }
}

/// Coulomb counter configuration register.
#[derive(Clone, Copy, Debug, PartialEq, Eq, Structural)]
pub struct CcCfg {
    pub val: CcCfgVal,
}

impl CcCfg {
    pub fn val(&mut self) -> (r: &mut CcCfgVal)
        ensures
            *r == old(self).val,
            *final(self) == (CcCfg { val: *final(r) }),
    {
        &mut self.val
    }
}

impl RegisterWriter for CcCfg {
    open spec fn spec_from_u8(val: u8) -> Self {
        CcCfg { val: CcCfgVal::spec_from_u8(val) }
    }

    open spec fn spec_value(&self) -> u8 {
        self.val.spec_to_u8()
    }

    open spec fn spec_register() -> Register {
        Register::CC_CFG
    }

    open spec fn spec_mask() -> u8 {
        CcCfgVal::spec_mask()
    }

    fn from_u8(val: u8) -> (r: Self) {
        CcCfg { val: CcCfgVal::from_u8(val) }
    }

    fn register() -> (r: Register) {
        Register::CC_CFG
    }

    fn update(&mut self, val: u8) {
        self.val = CcCfgVal::from_u8(val);
    }

    fn value(&self) -> (r: u8) {
        self.val.to_u8()
    }

    proof fn lemma_round_trip(val: u8) {
        CcCfgVal::lemma_round_trip(val);
    }

    proof fn lemma_within_mask(&self) {
        self.val.lemma_within_mask();
    }
}

} // verus!
