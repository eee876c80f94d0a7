//! Factory ADC calibration and the voltage arithmetic built on it.
use vstd::prelude::*;

verus! {

/// Gain bits held in the high gain trim register (bits 3:2), datasheet ADC
/// gain table.
pub const GAIN1_MASK: u8 = 0b0000_1100;

/// Gain bits held in the low gain trim register (bits 7:5), datasheet ADC
/// gain table.
pub const GAIN2_MASK: u8 = 0b1110_0000;

/// Base of the gain in microvolts per count, to which the trimmed bits add.
pub const GAIN_BASE: u16 = 365;

/// The under-voltage trip register holds the comparator count without its
/// low four bits.
pub const UV_TRIP_SHIFT: u32 = 4;

/// The trimmed part of the gain, a five-bit value.
pub open spec fn gain_trim(gain1: u8, gain2: u8) -> u8 {
    (((gain1 & GAIN1_MASK) << 1u8) as u8) | ((gain2 & GAIN2_MASK) >> 5u8)
}

/// The gain that the two gain trim bytes give, in microvolts per count.
pub open spec fn gain_of(gain1: u8, gain2: u8) -> int {
    GAIN_BASE + gain_trim(gain1, gain2)
}

/// The offset trim byte read as a signed 8-bit number of millivolts.
pub open spec fn offset_of(raw: u8) -> int {
    if raw < 128 {
        raw as int
    } else {
        raw - 256
    }
}

/// Integer division rounding toward zero.
pub open spec fn div_toward_zero(a: int, d: int) -> int {
    if a >= 0 {
        a / d
    } else {
        -((-a) / d)
    }
}

/// The 16-bit ADC count made of a high and a low byte.
pub open spec fn adc_count(hi: u8, lo: u8) -> int {
    hi * 256 + lo
}

/// Pack voltage in millivolts for an ADC count:
/// `(4 * gain * count + 3000 * offset) / 1000`, rounded toward zero.
pub open spec fn pack_millivolts(gain: int, offset: int, count: int) -> int {
    div_toward_zero(4 * gain * count + 3000 * offset, 1000)
}

/// The full comparator count for a threshold of `millivolts`:
/// `(millivolts - offset) * 1000 / gain`, with a result below zero taken
/// as zero and one above `u32::MAX` as `u32::MAX`.
pub open spec fn uv_trip_full(gain: int, offset: int, millivolts: int) -> int {
    let num = (millivolts - offset) * 1000;
    if num <= 0 {
        0
    } else if num / gain > u32::MAX {
        u32::MAX as int
    } else {
        num / gain
    }
}

/// The byte written to the trip register: the full count shifted right by
/// four bits and kept to eight bits.
pub open spec fn uv_trip_code(gain: int, offset: int, millivolts: int) -> u8 {
    ((uv_trip_full(gain, offset, millivolts) / 16) % 256) as u8
}

/// Decoded factory calibration: gain in microvolts per ADC count and offset
/// in millivolts.
#[derive(Clone, Copy, Debug)]
pub struct AdcCalibration {
    gain: u16,
    offset: i8,
}

impl AdcCalibration {
    #[verifier::type_invariant]
    spec fn inv(self) -> bool {
        GAIN_BASE <= self.gain <= GAIN_BASE + 31
    }

    pub closed spec fn spec_gain(self) -> int {
        self.gain as int
    }

    pub closed spec fn spec_offset(self) -> int {
        self.offset as int
    }

    /// Decodes the three trim bytes: the offset trim and the high and low
    /// gain trims.
    pub fn from_registers(offset: u8, gain1: u8, gain2: u8) -> (r: Self)
        ensures
            r.spec_gain() == gain_of(gain1, gain2),
            r.spec_offset() == offset_of(offset),
    {
        let gain1masked: u8 = (gain1 & GAIN1_MASK) << 1u8;
        let gain2masked: u8 = (gain2 & GAIN2_MASK) >> 5u8;
        let trim: u8 = gain1masked | gain2masked;
        proof {
            assert((((gain1 & 0b0000_1100u8) << 1u8) as u8) | ((gain2 & 0b1110_0000u8) >> 5u8)
                <= 31u8) by (bit_vector);
        }
        let signed: i8 = if offset < 128 {
            offset as i8
        } else {
            (offset as i16 - 256) as i8
        };
        AdcCalibration { gain: trim as u16 + GAIN_BASE, offset: signed }
    }

    pub fn gain(&self) -> (r: u16)
        ensures
            r == self.spec_gain(),
            GAIN_BASE <= r <= GAIN_BASE + 31,
    {
        proof {
            use_type_invariant(self);
        }
        self.gain
    }

    pub fn offset(&self) -> (r: i8)
        ensures
            r == self.spec_offset(),
    {
        self.offset
    }

    /// Pack voltage in millivolts for the ADC count made of `hi` and `lo`.
    pub fn pack_voltage_mv(&self, hi: u8, lo: u8) -> (r: i32)
        ensures
            r == pack_millivolts(self.spec_gain(), self.spec_offset(), adc_count(hi, lo)),
    {
        proof {
            use_type_invariant(self);
        }
        let count: u16 = ((hi as u16) << 8u16) | (lo as u16);
        proof {
            assert((((hi as u16) << 8u16) | (lo as u16)) == hi * 256 + lo) by (bit_vector);
        }
        let g: i32 = self.gain as i32;
        let c: i32 = count as i32;
        assert(0 <= 4 * g * c <= 4 * 396 * 65535) by (nonlinear_arith)
            requires
                0 <= g <= 396,
                0 <= c <= 65535,
        ;
        let uv: i32 = 4 * g * c + 3000 * (self.offset as i32);
        if uv >= 0 {
            ((uv as u32) / 1000) as i32
        } else {
            -((((-uv) as u32) / 1000) as i32)
        }
    }

    /// The trip register byte for a threshold of `millivolts`.
    pub fn uv_trip_code(&self, millivolts: i32) -> (r: u8)
        ensures
            r == uv_trip_code(self.spec_gain(), self.spec_offset(), millivolts as int),
    {
        proof {
            use_type_invariant(self);
        }
        let num: i64 = (millivolts as i64 - self.offset as i64) * 1000;
        let full: u32 = if num <= 0 {
            0
        } else {
            let q: u64 = (num as u64) / (self.gain as u64);
            if q > u32::MAX as u64 {
                u32::MAX
            } else {
                q as u32
            }
        };
        assert(full == uv_trip_full(self.spec_gain(), self.spec_offset(), millivolts as int));
        proof {
            assert((full >> 4u32) & 0xff == (full / 16) % 256) by (bit_vector);
        }
        ((full >> UV_TRIP_SHIFT) & 0xff) as u8
    }
}

} // verus!
