//! The chip's register address space and the bit-field model that every
//! register view is built from.
use vstd::prelude::*;

verus! {

/// One single-byte register of the chip.
#[allow(non_camel_case_types)]
#[derive(Clone, Copy, Debug, PartialEq, Eq, Structural)]
pub enum Register {
    SYS_CTRL1,
    SYS_CTRL2,
    OV_TRIP,
    UV_TRIP,
    ADCOFFSET,
    ADCGAIN1,
    ADCGAIN2,
    BAT_HI,
    BAT_LO,
    CC_CFG,
}

impl Register {
    /// The register's address on the bus (datasheet register map).
    pub open spec fn spec_addr(self) -> u8 {
        match self {
            Register::SYS_CTRL1 => 0x04,
            Register::SYS_CTRL2 => 0x05,
            Register::OV_TRIP => 0x09,
            Register::UV_TRIP => 0x0A,
            Register::ADCOFFSET => 0x51,
            Register::ADCGAIN1 => 0x50,
            Register::ADCGAIN2 => 0x59,
            Register::BAT_HI => 0x2A,
            Register::BAT_LO => 0x2B,
            Register::CC_CFG => 0x0B,
        }
    }

    pub fn addr(&self) -> (r: u8)
        ensures
            r == self.spec_addr(),
    {
        match self {
            Register::SYS_CTRL1 => 0x04,
            Register::SYS_CTRL2 => 0x05,
            Register::OV_TRIP => 0x09,
            Register::UV_TRIP => 0x0A,
            Register::ADCOFFSET => 0x51,
            Register::ADCGAIN1 => 0x50,
            Register::ADCGAIN2 => 0x59,
            Register::BAT_HI => 0x2A,
            Register::BAT_LO => 0x2B,
            Register::CC_CFG => 0x0B,
        }
    }
}

/// A typed view of one register: a decomposition of its byte into fields.
///
/// `spec_mask` is the union of the fields' masks; decoding a byte and
/// encoding the view again keeps exactly the bits under that mask.
pub trait RegisterWriter: Sized {
    spec fn spec_from_u8(val: u8) -> Self;

    spec fn spec_value(&self) -> u8;

    spec fn spec_register() -> Register;

    spec fn spec_mask() -> u8;

    fn from_u8(val: u8) -> (r: Self)
        ensures
            r == Self::spec_from_u8(val),
    ;

    fn register() -> (r: Register)
        ensures
            r == Self::spec_register(),
    ;

    fn update(&mut self, val: u8)
        ensures
            *final(self) == Self::spec_from_u8(val),
    ;

    fn value(&self) -> (r: u8)
        ensures
            r == self.spec_value(),
    ;

    /// Encoding the decoding of a byte reproduces the byte's bits under the
    /// view's mask, and clears every other bit.
    proof fn lemma_round_trip(val: u8)
        ensures
            Self::spec_from_u8(val).spec_value() == val & Self::spec_mask(),
    ;
    /// A view's encoding never sets a bit outside the view's mask.
    proof fn lemma_within_mask(&self)
        ensures
            self.spec_value() & !Self::spec_mask() == 0,
    ;
}

/// Decoding the byte that a view encodes to and encoding again gives the
/// same byte: a view returned after a write confirms the byte written.
pub proof fn lemma_encoding_confirmed<W: RegisterWriter>(w: W)
    ensures
        W::spec_from_u8(w.spec_value()).spec_value() == w.spec_value(),
{
    W::lemma_round_trip(w.spec_value());
    w.lemma_within_mask();
    let x = w.spec_value();
    let m = W::spec_mask();
    assert(x & !m == 0 ==> x & m == x) by (bit_vector);
}

/// One bit-field: its mask within the register byte and its encoding.
pub trait RegisterBits: Sized {
    spec fn spec_from_u8(val: u8) -> Self;

    spec fn spec_mask() -> u8;

    spec fn spec_to_u8(&self) -> u8;

    fn from_u8(val: u8) -> (r: Self)
        ensures
            r == Self::spec_from_u8(val),
    ;

    fn mask() -> (r: u8)
        ensures
            r == Self::spec_mask(),
    ;

    fn to_u8(&self) -> (r: u8)
        ensures
            r == self.spec_to_u8(),
    ;

    /// The field's decoded value, encoded again, is the byte's bits under
    /// the field's mask.
    proof fn lemma_round_trip(val: u8)
        ensures
            Self::spec_from_u8(val).spec_to_u8() == val & Self::spec_mask(),
    ;

    /// A field's encoding never sets a bit outside its mask.
    proof fn lemma_within_mask(&self)
        ensures
            self.spec_to_u8() & !Self::spec_mask() == 0,
    ;
}

/// In a byte made as the union of a field's encoding and the encodings of
/// the other fields (`rest`), replacing the field's value by any other
/// leaves every bit outside the field's mask as it was.
pub proof fn lemma_field_replaced<F: RegisterBits>(before: F, after: F, rest: u8)
    ensures
        (after.spec_to_u8() | rest) & !F::spec_mask() == (before.spec_to_u8() | rest)
            & !F::spec_mask(),
{
    before.lemma_within_mask();
    after.lemma_within_mask();
    let (x, y, m) = (before.spec_to_u8(), after.spec_to_u8(), F::spec_mask());
    assert(x & !m == 0 && y & !m == 0 ==> (y | rest) & !m == (x | rest) & !m) by (bit_vector);
}

/// The mask of a one-bit flag at bit position `pos` (empty when `pos` is
/// not a bit of a byte).
pub open spec fn flag_mask(pos: u8) -> u8 {
    if pos < 8 {
        1u8 << pos
    } else {
        0
    }
}

/// The mask of a field of `len` bits starting at bit `lsb` (empty when the
/// field does not fit in a byte).
pub open spec fn field_mask(lsb: u8, len: u8) -> u8 {
    if lsb < 8 && len <= 8 - lsb {
        ((((1u16 << len) - 1) as u16) << lsb) as u8
    } else {
        0
    }
}

pub(crate) proof fn lemma_flag_round_trip(val: u8, p: u8)
    ensures
        (if val & flag_mask(p) != 0 { flag_mask(p) } else { 0u8 }) == val & flag_mask(p),
{
    if p < 8 {
        assert(p < 8 ==> ((val & (1u8 << p) != 0 ==> 1u8 << p == val & (1u8 << p)) && (val & (
        1u8 << p) == 0 ==> 0u8 == val & (1u8 << p)))) by (bit_vector);
    } else {
        assert(val & 0 == 0) by (bit_vector);
    }
}

pub(crate) proof fn lemma_within(x: u8, m: u8)
    requires
        x == 0 || x == m,
    ensures
        x & !m == 0,
{
    assert((x == 0 || x == m) ==> x & !m == 0) by (bit_vector);
}

pub(crate) proof fn lemma_field_round_trip(val: u8, l: u8, n: u8)
    ensures
        (if l < 8 {
            ((((val & field_mask(l, n)) >> l) as u8) << l) as u8 & field_mask(l, n)
        } else {
            0u8
        }) == val & field_mask(l, n),
{
    if l < 8 && n <= 8 - l {
        assert(l < 8 && n <= 8 - l ==> ((((val & (((((1u16 << n) - 1) as u16) << l) as u8))
            >> l) as u8) << l) as u8 & (((((1u16 << n) - 1) as u16) << l) as u8) == val & ((((
        (1u16 << n) - 1) as u16) << l) as u8)) by (bit_vector);
    } else if l < 8 {
        assert(l < 8 ==> ((((val & 0) >> l) as u8) << l) as u8 & 0 == val & 0) by (bit_vector);
    } else {
        assert(0u8 == val & 0) by (bit_vector);
    }
}

pub(crate) proof fn lemma_field_within(x: u8, l: u8, m: u8)
    ensures
        (if l < 8 {
            ((x << l) as u8) & m
        } else {
            0u8
        }) & !m == 0,
{
    assert(l < 8 ==> ((x << l) as u8) & m & !m == 0) by (bit_vector);
    assert(0u8 & !m == 0) by (bit_vector);
}


pub(crate) proof fn lemma_replace_part_2_0(a: u8, b: u8, n: u8, m: u8)
    requires
        a & !m == 0,
        n & !m == 0,
    ensures
        (n | b) & !m == (a | b) & !m,
{
    assert(a & !m == 0 && n & !m == 0 ==> (n | b) & !m == (a | b) & !m) by (bit_vector);
}

pub(crate) proof fn lemma_replace_part_2_1(a: u8, b: u8, n: u8, m: u8)
    requires
        b & !m == 0,
        n & !m == 0,
    ensures
        (a | n) & !m == (a | b) & !m,
{
    assert(b & !m == 0 && n & !m == 0 ==> (a | n) & !m == (a | b) & !m) by (bit_vector);
}

pub(crate) proof fn lemma_replace_part_3_0(a: u8, b: u8, c: u8, n: u8, m: u8)
    requires
        a & !m == 0,
        n & !m == 0,
    ensures
        (n | b | c) & !m == (a | b | c) & !m,
{
    assert(a & !m == 0 && n & !m == 0 ==> (n | b | c) & !m == (a | b | c) & !m) by (bit_vector);
}

pub(crate) proof fn lemma_replace_part_3_1(a: u8, b: u8, c: u8, n: u8, m: u8)
    requires
        b & !m == 0,
        n & !m == 0,
    ensures
        (a | n | c) & !m == (a | b | c) & !m,
{
    assert(b & !m == 0 && n & !m == 0 ==> (a | n | c) & !m == (a | b | c) & !m) by (bit_vector);
}

pub(crate) proof fn lemma_replace_part_3_2(a: u8, b: u8, c: u8, n: u8, m: u8)
    requires
        c & !m == 0,
        n & !m == 0,
    ensures
        (a | b | n) & !m == (a | b | c) & !m,
{
    assert(c & !m == 0 && n & !m == 0 ==> (a | b | n) & !m == (a | b | c) & !m) by (bit_vector);
}

} // verus!
