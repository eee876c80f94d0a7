//! Second system control register.
use vstd::prelude::*;

use crate::registers::{
    flag_mask, lemma_flag_round_trip, lemma_within, Register, RegisterBits, RegisterWriter,
    lemma_replace_part_3_0, lemma_replace_part_3_1, lemma_replace_part_3_2,
};

verus! {

/// Charge switch enable (bit 0 of its register).
#[derive(Clone, Copy, Debug, PartialEq, Eq, Structural)]
pub struct ChgOn {
    pub bit: bool,
}

impl ChgOn {
    pub fn bit_is_set(&self) -> (r: bool)
        ensures
            r == self.bit,
    {
        self.bit
    }

    pub fn set_bit(&mut self)
        ensures
            final(self).bit,
    {
        self.bit = true;
    }

    pub fn clear_bit(&mut self)
        ensures
            !final(self).bit,
    {
        self.bit = false;
    }
}

impl RegisterBits for ChgOn {
    open spec fn spec_from_u8(val: u8) -> Self {
        ChgOn { bit: val & flag_mask(0) != 0 }
    }

    open spec fn spec_mask() -> u8 {
        flag_mask(0)
    }

    open spec fn spec_to_u8(&self) -> u8 {
        if self.bit {
            flag_mask(0)
        } else {
            0
        }
    }

    fn from_u8(val: u8) -> (r: Self) {
        ChgOn { bit: val & Self::mask() != 0 }
    }

    fn mask() -> (r: u8) {
        1u8 << 0u8
    }

    fn to_u8(&self) -> (r: u8) {
        if self.bit {
            Self::mask()
        } else {
            0
        }
    }

    proof fn lemma_round_trip(val: u8) {
        lemma_flag_round_trip(val, 0);
    }

    proof fn lemma_within_mask(&self) {
        lemma_within(self.spec_to_u8(), flag_mask(0));
    }
}

/// Discharge switch enable (bit 1 of its register).
#[derive(Clone, Copy, Debug, PartialEq, Eq, Structural)]
pub struct DsgOn {
    pub bit: bool,
}

impl DsgOn {
    pub fn bit_is_set(&self) -> (r: bool)
        ensures
            r == self.bit,
    {
        self.bit
    }

    pub fn set_bit(&mut self)
        ensures
            final(self).bit,
    {
        self.bit = true;
    }

    pub fn clear_bit(&mut self)
        ensures
            !final(self).bit,
    {
        self.bit = false;
    }
}

impl RegisterBits for DsgOn {
    open spec fn spec_from_u8(val: u8) -> Self {
        DsgOn { bit: val & flag_mask(1) != 0 }
    }

    open spec fn spec_mask() -> u8 {
        flag_mask(1)
    }

    open spec fn spec_to_u8(&self) -> u8 {
        if self.bit {
            flag_mask(1)
        } else {
            0
        }
    }

    fn from_u8(val: u8) -> (r: Self) {
        DsgOn { bit: val & Self::mask() != 0 }
    }

    fn mask() -> (r: u8) {
        1u8 << 1u8
    }

    fn to_u8(&self) -> (r: u8) {
        if self.bit {
            Self::mask()
        } else {
            0
        }
    }

    proof fn lemma_round_trip(val: u8) {
        lemma_flag_round_trip(val, 1);
    }

    proof fn lemma_within_mask(&self) {
        lemma_within(self.spec_to_u8(), flag_mask(1));
    }
}

/// Coulomb counter continuous-mode enable (bit 6 of its register).
#[derive(Clone, Copy, Debug, PartialEq, Eq, Structural)]
pub struct CcEn {
    pub bit: bool,
}

impl CcEn {
    pub fn bit_is_set(&self) -> (r: bool)
        ensures
            r == self.bit,
    {
        self.bit
    }

    pub fn set_bit(&mut self)
        ensures
            final(self).bit,
    {
        self.bit = true;
    }

    pub fn clear_bit(&mut self)
        ensures
            !final(self).bit,
    {
        self.bit = false;
    }
}

impl RegisterBits for CcEn {
    open spec fn spec_from_u8(val: u8) -> Self {
        CcEn { bit: val & flag_mask(6) != 0 }
    }

    open spec fn spec_mask() -> u8 {
        flag_mask(6)
    }

    open spec fn spec_to_u8(&self) -> u8 {
        if self.bit {
            flag_mask(6)
        } else {
            0
        }
    }

    fn from_u8(val: u8) -> (r: Self) {
        CcEn { bit: val & Self::mask() != 0 }
    }

    fn mask() -> (r: u8) {
        1u8 << 6u8
    }

    fn to_u8(&self) -> (r: u8) {
        if self.bit {
            Self::mask()
        } else {
            0
        }
    }

    proof fn lemma_round_trip(val: u8) {
        lemma_flag_round_trip(val, 6);
    }

    proof fn lemma_within_mask(&self) {
        lemma_within(self.spec_to_u8(), flag_mask(6));
    }
}

/// Second system control register: charge and discharge switches and the coulomb counter.
#[derive(Clone, Copy, Debug, PartialEq, Eq, Structural)]
pub struct SysCtrl2 {
    pub chgon: ChgOn,
    pub dsgon: DsgOn,
    pub ccen: CcEn,
}

impl SysCtrl2 {
    pub fn chgon(&mut self) -> (r: &mut ChgOn)
        ensures
            *r == old(self).chgon,
            *final(self) == (SysCtrl2 { chgon: *final(r), ..*old(self) }),
    {
        &mut self.chgon
    }

    pub fn dsgon(&mut self) -> (r: &mut DsgOn)
        ensures
            *r == old(self).dsgon,
            *final(self) == (SysCtrl2 { dsgon: *final(r), ..*old(self) }),
    {
        &mut self.dsgon
    }

    pub fn ccen(&mut self) -> (r: &mut CcEn)
        ensures
            *r == old(self).ccen,
            *final(self) == (SysCtrl2 { ccen: *final(r), ..*old(self) }),
    {
        &mut self.ccen
    }
}

impl RegisterWriter for SysCtrl2 {
    open spec fn spec_from_u8(val: u8) -> Self {
        SysCtrl2 {
            chgon: ChgOn::spec_from_u8(val),
            dsgon: DsgOn::spec_from_u8(val),
            ccen: CcEn::spec_from_u8(val),
        }
    }

    open spec fn spec_value(&self) -> u8 {
        self.chgon.spec_to_u8() | self.dsgon.spec_to_u8() | self.ccen.spec_to_u8()
    }

    open spec fn spec_register() -> Register {
        Register::SYS_CTRL2
    }

    open spec fn spec_mask() -> u8 {
        ChgOn::spec_mask() | DsgOn::spec_mask() | CcEn::spec_mask()
    }

    fn from_u8(val: u8) -> (r: Self) {
        SysCtrl2 {
            chgon: ChgOn::from_u8(val),
            dsgon: DsgOn::from_u8(val),
            ccen: CcEn::from_u8(val),
        }
    }

    fn register() -> (r: Register) {
        Register::SYS_CTRL2
    }

    fn update(&mut self, val: u8) {
        self.chgon = ChgOn::from_u8(val);
        self.dsgon = DsgOn::from_u8(val);
        self.ccen = CcEn::from_u8(val);
    }

    fn value(&self) -> (r: u8) {
        self.chgon.to_u8() | self.dsgon.to_u8() | self.ccen.to_u8()
    }

    proof fn lemma_round_trip(val: u8) {
        ChgOn::lemma_round_trip(val);
        DsgOn::lemma_round_trip(val);
        CcEn::lemma_round_trip(val);
        let (a, b, c) = (ChgOn::spec_mask(), DsgOn::spec_mask(), CcEn::spec_mask());
        assert((val & a) | (val & b) | (val & c) == val & (a | b | c)) by (bit_vector);
    }

    proof fn lemma_within_mask(&self) {
        self.chgon.lemma_within_mask();
        self.dsgon.lemma_within_mask();
        self.ccen.lemma_within_mask();
        let (a, b, c) = (self.chgon.spec_to_u8(), self.dsgon.spec_to_u8(), self.ccen.spec_to_u8());
        let (ma, mb, mc) = (ChgOn::spec_mask(), DsgOn::spec_mask(), CcEn::spec_mask());
        assert(a & !ma == 0 && b & !mb == 0 && c & !mc == 0 ==> (a | b | c) & !(ma | mb | mc) == 0) by (bit_vector);
    }
}

/// Changing one field of a `SysCtrl2` leaves every bit of the encoded byte
/// outside that field's mask as it was, whatever the new value.
pub proof fn lemma_field_isolation(w: SysCtrl2, on: bool)
    ensures
        (SysCtrl2 { chgon: ChgOn { bit: on }, ..w }).spec_value() & !ChgOn::spec_mask()
            == w.spec_value() & !ChgOn::spec_mask(),
        (SysCtrl2 { dsgon: DsgOn { bit: on }, ..w }).spec_value() & !DsgOn::spec_mask()
            == w.spec_value() & !DsgOn::spec_mask(),
        (SysCtrl2 { ccen: CcEn { bit: on }, ..w }).spec_value() & !CcEn::spec_mask()
            == w.spec_value() & !CcEn::spec_mask(),
{
    w.chgon.lemma_within_mask();
    (ChgOn { bit: on }).lemma_within_mask();
    w.dsgon.lemma_within_mask();
    (DsgOn { bit: on }).lemma_within_mask();
    w.ccen.lemma_within_mask();
    (CcEn { bit: on }).lemma_within_mask();
    lemma_replace_part_3_0(
        w.chgon.spec_to_u8(),
        w.dsgon.spec_to_u8(),
        w.ccen.spec_to_u8(),
        (ChgOn { bit: on }).spec_to_u8(),
        ChgOn::spec_mask(),
    );
    lemma_replace_part_3_1(
        w.chgon.spec_to_u8(),
        w.dsgon.spec_to_u8(),
        w.ccen.spec_to_u8(),
        (DsgOn { bit: on }).spec_to_u8(),
        DsgOn::spec_mask(),
    );
    lemma_replace_part_3_2(
        w.chgon.spec_to_u8(),
        w.dsgon.spec_to_u8(),
        w.ccen.spec_to_u8(),
        (CcEn { bit: on }).spec_to_u8(),
        CcEn::spec_mask(),
    );
}

/// Closing the charge switch on a read byte `b`, and then the discharge
/// switch on the byte that the first step wrote, leaves both switches
/// closed and the coulomb counter flag as `b` had it.
pub proof fn lemma_switch_independence(b: u8)
    ensures
        ({
            let first = SysCtrl2 { chgon: ChgOn { bit: true }, ..SysCtrl2::spec_from_u8(b) };
            let second = SysCtrl2 {
                dsgon: DsgOn { bit: true },
                ..SysCtrl2::spec_from_u8(first.spec_value())
            };
            &&& second.chgon.bit
            &&& second.dsgon.bit
            &&& second.ccen == SysCtrl2::spec_from_u8(b).ccen
        }),
{
    let d: u8 = if b & flag_mask(1) != 0 { flag_mask(1) } else { 0 };
    let c: u8 = if b & flag_mask(6) != 0 { flag_mask(6) } else { 0 };
    assert(flag_mask(0) == 1u8 && flag_mask(1) == 2u8 && flag_mask(6) == 64u8) by (bit_vector);
    assert((d == 0 || d == 2) && (c == 0 || c == 64) ==> (((1u8 | d | c) & 1u8) != 0 && (((1u8
        | d | c) & 64u8) != 0) == (c != 0))) by (bit_vector);
    assert((b & 64u8 != 0) == (c != 0));
}

} // verus!
