//! First system control register.
use vstd::prelude::*;

use crate::registers::{
    flag_mask, lemma_flag_round_trip, lemma_within, Register, RegisterBits, RegisterWriter,
    lemma_replace_part_2_0, lemma_replace_part_2_1,
};

verus! {

/// ADC enable (bit 4 of its register).
#[derive(Clone, Copy, Debug, PartialEq, Eq, Structural)]
pub struct AdcEn {
    pub bit: bool,
}

impl AdcEn {
    pub fn bit_is_set(&self) -> (r: bool)
        ensures
            r == self.bit,
    {
        self.bit
    }

    pub fn set_bit(&mut self)
        ensures
            final(self).bit,
    {
        self.bit = true;
    }

    pub fn clear_bit(&mut self)
        ensures
            !final(self).bit,
    {
        self.bit = false;
    }
}

impl RegisterBits for AdcEn {
    open spec fn spec_from_u8(val: u8) -> Self {
        AdcEn { bit: val & flag_mask(4) != 0 }
    }

    open spec fn spec_mask() -> u8 {
        flag_mask(4)
    }

    open spec fn spec_to_u8(&self) -> u8 {
        if self.bit {
            flag_mask(4)
        } else {
            0
        }
    }

    fn from_u8(val: u8) -> (r: Self) {
        AdcEn { bit: val & Self::mask() != 0 }
    }

    fn mask() -> (r: u8) {
        1u8 << 4u8
    }

    fn to_u8(&self) -> (r: u8) {
        if self.bit {
            Self::mask()
        } else {
            0
        }
    }

    proof fn lemma_round_trip(val: u8) {
        lemma_flag_round_trip(val, 4);
    }

    proof fn lemma_within_mask(&self) {
        lemma_within(self.spec_to_u8(), flag_mask(4));
    }
}

/// Temperature source select (bit 3 of its register).
#[derive(Clone, Copy, Debug, PartialEq, Eq, Structural)]
pub struct TempSel {
    pub bit: bool,
}

impl TempSel {
    pub fn bit_is_set(&self) -> (r: bool)
        ensures
            r == self.bit,
    {
        self.bit
    }

    pub fn set_bit(&mut self)
        ensures
            final(self).bit,
    {
        self.bit = true;
    }

    pub fn clear_bit(&mut self)
        ensures
            !final(self).bit,
    {
        self.bit = false;
    }
}

impl RegisterBits for TempSel {
    open spec fn spec_from_u8(val: u8) -> Self {
        TempSel { bit: val & flag_mask(3) != 0 }
    }

    open spec fn spec_mask() -> u8 {
        flag_mask(3)
    }

    open spec fn spec_to_u8(&self) -> u8 {
        if self.bit {
            flag_mask(3)
        } else {
            0
        }
    }

    fn from_u8(val: u8) -> (r: Self) {
        TempSel { bit: val & Self::mask() != 0 }
    }

    fn mask() -> (r: u8) {
        1u8 << 3u8
    }

    fn to_u8(&self) -> (r: u8) {
        if self.bit {
            Self::mask()
        } else {
            0
        }
    }

    proof fn lemma_round_trip(val: u8) {
        lemma_flag_round_trip(val, 3);
    }

    proof fn lemma_within_mask(&self) {
        lemma_within(self.spec_to_u8(), flag_mask(3));
    }
}

/// First system control register: ADC enable and temperature source.
#[derive(Clone, Copy, Debug, PartialEq, Eq, Structural)]
pub struct SysCtrl1 {
    pub adcen: AdcEn,
    pub tempsel: TempSel,
}

impl SysCtrl1 {
    pub fn adcen(&mut self) -> (r: &mut AdcEn)
        ensures
            *r == old(self).adcen,
            *final(self) == (SysCtrl1 { adcen: *final(r), ..*old(self) }),
    {
        &mut self.adcen
    }

    pub fn tempsel(&mut self) -> (r: &mut TempSel)
        ensures
            *r == old(self).tempsel,
            *final(self) == (SysCtrl1 { tempsel: *final(r), ..*old(self) }),
    {
        &mut self.tempsel
    }
}

impl RegisterWriter for SysCtrl1 {
    open spec fn spec_from_u8(val: u8) -> Self {
        SysCtrl1 { adcen: AdcEn::spec_from_u8(val), tempsel: TempSel::spec_from_u8(val) }
    }

    open spec fn spec_value(&self) -> u8 {
        self.adcen.spec_to_u8() | self.tempsel.spec_to_u8()
    }

    open spec fn spec_register() -> Register {
        Register::SYS_CTRL1
    }

    open spec fn spec_mask() -> u8 {
        AdcEn::spec_mask() | TempSel::spec_mask()
    }

    fn from_u8(val: u8) -> (r: Self) {
        SysCtrl1 { adcen: AdcEn::from_u8(val), tempsel: TempSel::from_u8(val) }
    }

    fn register() -> (r: Register) {
        Register::SYS_CTRL1
    }

    fn update(&mut self, val: u8) {
        self.adcen = AdcEn::from_u8(val);
        self.tempsel = TempSel::from_u8(val);
    }

    fn value(&self) -> (r: u8) {
        self.adcen.to_u8() | self.tempsel.to_u8()
    }

    proof fn lemma_round_trip(val: u8) {
        AdcEn::lemma_round_trip(val);
        TempSel::lemma_round_trip(val);
        let (a, b) = (AdcEn::spec_mask(), TempSel::spec_mask());
        assert((val & a) | (val & b) == val & (a | b)) by (bit_vector);
    }

    proof fn lemma_within_mask(&self) {
        self.adcen.lemma_within_mask();
        self.tempsel.lemma_within_mask();
        let (a, b) = (self.adcen.spec_to_u8(), self.tempsel.spec_to_u8());
        let (ma, mb) = (AdcEn::spec_mask(), TempSel::spec_mask());
        assert(a & !ma == 0 && b & !mb == 0 ==> (a | b) & !(ma | mb) == 0) by (bit_vector);
    }
}

/// Changing one field of a `SysCtrl1` leaves every bit of the encoded byte
/// outside that field's mask as it was, whatever the new value.
pub proof fn lemma_field_isolation(w: SysCtrl1, on: bool)
    ensures
        (SysCtrl1 { adcen: AdcEn { bit: on }, ..w }).spec_value() & !AdcEn::spec_mask()
            == w.spec_value() & !AdcEn::spec_mask(),
        (SysCtrl1 { tempsel: TempSel { bit: on }, ..w }).spec_value() & !TempSel::spec_mask()
            == w.spec_value() & !TempSel::spec_mask(),
{
    w.adcen.lemma_within_mask();
    (AdcEn { bit: on }).lemma_within_mask();
    w.tempsel.lemma_within_mask();
    (TempSel { bit: on }).lemma_within_mask();
    lemma_replace_part_2_0(
        w.adcen.spec_to_u8(),
        w.tempsel.spec_to_u8(),
        (AdcEn { bit: on }).spec_to_u8(),
        AdcEn::spec_mask(),
    );
    lemma_replace_part_2_1(
        w.adcen.spec_to_u8(),
        w.tempsel.spec_to_u8(),
        (TempSel { bit: on }).spec_to_u8(),
        TempSel::spec_mask(),
    );
}

} // verus!
