//! Driver for a battery-monitor front end reached over a two-wire bus.
use vstd::prelude::*;

pub mod adc;
pub mod bat;
pub mod bus;
pub mod calibration;
pub mod cccfg;
pub mod registers;
pub mod sysctrl1;
pub mod sysctrl2;
pub mod uvtrip;

pub use bus::{I2cBus, Transaction};
pub use calibration::AdcCalibration;
pub use registers::{Register, RegisterBits, RegisterWriter};

use registers::lemma_encoding_confirmed;

use adc::{AdcGain1, AdcGain2, AdcOffset};
use bus::{
    calibration_failure, calibration_reads, pair_read_failure, read_failed_txn, read_txn,
    write_failed_txn, write_txn,
};
use bat::{BatHi, BatLo};
use calibration::{adc_count, gain_of, offset_of, pack_millivolts, uv_trip_code};
use cccfg::CcCfg;
use sysctrl1::{AdcEn, SysCtrl1};
use sysctrl2::{ChgOn, DsgOn, SysCtrl2};
use uvtrip::UvTrip;

verus! {

/// What a driver operation that needs the calibration can fail with.
#[derive(Debug)]
pub enum Error<E> {
    /// A bus transaction of the operation itself failed.
    Bus(E),
    /// The calibration was not loaded yet and reading it failed; no
    /// voltage computation took place.
    Calibration(E),
}

/// The calibration `c` as obtained from `cached`: the cached value where
/// there is one, with no transaction; otherwise the decoding of the three
/// trim reads that follow `before` in `after`.
pub open spec fn calibration_step(
    address: u8,
    cached: Option<AdcCalibration>,
    before: Seq<Transaction>,
    after: Seq<Transaction>,
    c: AdcCalibration,
) -> bool {
    match cached {
        Some(k) => k == c && after == before,
        None => exists|o: u8, g1: u8, g2: u8|
            after == before + calibration_reads(address, o, g1, g2)
                && c.spec_gain() == gain_of(g1, g2)
                && c.spec_offset() == offset_of(o),
    }
}

/// `after` is `before` followed by a failed read of `reg`, or by a read of
/// `reg` giving `b` and a failed write of `written(b)`: no write follows a
/// failed read, and a failed write is not tried again.
pub open spec fn modify_failure(
    address: u8,
    reg: Register,
    before: Seq<Transaction>,
    after: Seq<Transaction>,
    written: spec_fn(u8) -> u8,
) -> bool {
    ||| after == before.push(read_failed_txn(address, reg))
    ||| exists|b: u8|
        after == (#[trigger] before.push(read_txn(address, reg, b))).push(
            write_failed_txn(address, reg, written(b)),
        )
}

/// Obtaining the calibration twice, the second time with the first result
/// cached, reads the trim registers once in all: the first step adds the
/// three trim reads if nothing was cached and nothing otherwise, and the
/// second adds nothing and yields the same calibration.
pub proof fn lemma_calibration_read_once(
    address: u8,
    cached: Option<AdcCalibration>,
    before1: Seq<Transaction>,
    after1: Seq<Transaction>,
    c1: AdcCalibration,
    before2: Seq<Transaction>,
    after2: Seq<Transaction>,
    c2: AdcCalibration,
)
    requires
        calibration_step(address, cached, before1, after1, c1),
        calibration_step(address, Some(c1), before2, after2, c2),
    ensures
        after2 == before2,
        c2 == c1,
        cached is None ==> after1.len() == before1.len() + 3,
        cached is Some ==> after1 == before1,
{
}

/// The value the coulomb counter configuration must be set to at start
/// (datasheet register table).
pub const CC_CFG_INIT: u8 = 0x19;

/// Driver for one chip at a fixed bus address.
pub struct BQ76920<I2C> {
    addr: u8,
    i2c: I2C,
    adccal: Option<AdcCalibration>,
}

impl<I2C: I2cBus> BQ76920<I2C> {
    /// Takes the bus and initialises the coulomb counter configuration,
    /// which must hold its documented value before the protection features
    /// are relied on. Nothing else is configured.
    pub fn new(addr: u8, i2c: I2C) -> (r: Result<Self, I2C::Error>)
        ensures
            match r {
                Ok(d) => d.address() == addr && d.calibration() is None && d.transactions()
                    == i2c.history().push(write_txn(addr, Register::CC_CFG, CC_CFG_INIT)),
                Err(_) => true,
            },
    {
        let mut bq = BQ76920 { addr, i2c, adccal: None };
        let _initialised: CcCfg = bq.write(init_cccfg)?;
        proof {
            assert((((0x19u8 << 0u8) as u8) & ((((1u16 << 6u8) - 1) as u16) << 0u8) as u8)
                == 0x19u8) by (bit_vector);
        }
        Ok(bq)
    }

    /// The chip's bus address.
    pub closed spec fn address(&self) -> u8 {
        self.addr
    }

    /// The cached calibration, once loaded.
    pub closed spec fn calibration(&self) -> Option<AdcCalibration> {
        self.adccal
    }

    /// Every transaction attempted on the driver's bus, oldest first.
    pub closed spec fn transactions(&self) -> Seq<Transaction> {
        self.i2c.history()
    }

    /// Reads one register and decodes it into its view.
    pub fn read<W: RegisterWriter>(&mut self) -> (r: Result<W, I2C::Error>)
        ensures
            final(self).address() == old(self).address(),
            final(self).calibration() == old(self).calibration(),
            match r {
                Ok(w) => exists|b: u8|
                    final(self).transactions() == old(self).transactions().push(
                        read_txn(old(self).address(), W::spec_register(), b),
                    ) && w == W::spec_from_u8(b),
                Err(_) => final(self).transactions() == old(self).transactions().push(
                    read_failed_txn(old(self).address(), W::spec_register()),
                ),
            },
    {
        let cmd: [u8; 1] = [W::register().addr()];
        assert(cmd@ =~= seq![W::spec_register().spec_addr()]);
        match self.i2c.write_read(self.addr, &cmd) {
            Ok(b) => Ok(W::from_u8(b)),
            Err(e) => Err(e),
        }
    }

    /// Writes the register of `W` with the view that `f` makes out of the
    /// all-zero view, without reading the register first.
    pub fn write<F, W>(&mut self, f: F) -> (r: Result<W, I2C::Error>) where
        F: FnOnce(W) -> W,
        W: RegisterWriter,

        requires
            f.requires((W::spec_from_u8(0),)),
        ensures
            final(self).address() == old(self).address(),
            final(self).calibration() == old(self).calibration(),
            match r {
                Ok(w) => f.ensures((W::spec_from_u8(0),), w) && W::spec_from_u8(
                    w.spec_value(),
                ).spec_value() == w.spec_value() && final(self).transactions()
                    == old(self).transactions().push(
                    write_txn(old(self).address(), W::spec_register(), w.spec_value()),
                ),
                Err(_) => exists|w: W|
                    f.ensures((W::spec_from_u8(0),), w) && final(self).transactions()
                        == old(self).transactions().push(
                        write_failed_txn(old(self).address(), W::spec_register(), w.spec_value()),
                    ),
            },
    {
        let writer = W::from_u8(0);
        let writer = f(writer);
        let cmd: [u8; 2] = [W::register().addr(), writer.value()];
        assert(cmd@ =~= seq![W::spec_register().spec_addr(), writer.spec_value()]);
        proof {
            lemma_encoding_confirmed(writer);
        }
        match self.i2c.write(self.addr, &cmd) {
            Ok(()) => Ok(writer),
            Err(e) => Err(e),
        }
    }

    /// Reads the register of `W`, applies `f` to its view and writes the
    /// result back. The read and the write are two transactions; nothing
    /// keeps another bus master from writing the register in between.
    pub fn modify<F, W>(&mut self, f: F) -> (r: Result<W, I2C::Error>) where
        F: FnOnce(W) -> W,
        W: RegisterWriter,

        requires
            forall|w: W| f.requires((w,)),
        ensures
            final(self).address() == old(self).address(),
            final(self).calibration() == old(self).calibration(),
            old(self).transactions().is_prefix_of(final(self).transactions()),
            match r {
                Ok(w) => exists|b: u8|
                    final(self).transactions() == old(self).transactions().push(
                        read_txn(old(self).address(), W::spec_register(), b),
                    ).push(write_txn(old(self).address(), W::spec_register(), w.spec_value()))
                        && f.ensures((W::spec_from_u8(b),), w),
                Err(_) => {
                    ||| final(self).transactions() == old(self).transactions().push(
                        read_failed_txn(old(self).address(), W::spec_register()),
                    )
                    ||| exists|b: u8, w: W|
                        #[trigger] f.ensures((W::spec_from_u8(b),), w)
                            && final(self).transactions() == old(self).transactions().push(
                            read_txn(old(self).address(), W::spec_register(), b),
                        ).push(
                            write_failed_txn(old(self).address(), W::spec_register(), w.spec_value()),
                        )
                },
            },
    {
        let current: W = self.read()?;
        let ghost b = choose|b: u8|
            self.transactions() == old(self).transactions().push(
                read_txn(old(self).address(), W::spec_register(), b),
            ) && current == W::spec_from_u8(b);
        let w = f(current);
        let cmd: [u8; 2] = [W::register().addr(), w.value()];
        assert(cmd@ =~= seq![W::spec_register().spec_addr(), w.spec_value()]);
        match self.i2c.write(self.addr, &cmd) {
            Ok(()) => Ok(w),
            Err(e) => Err(e),
        }
    }

    /// Reads two registers, high byte first, in two transactions.
    fn read16<WH, WL>(&mut self) -> (r: Result<(WH, WL), I2C::Error>) where
        WH: RegisterWriter,
        WL: RegisterWriter,

        ensures
            final(self).address() == old(self).address(),
            final(self).calibration() == old(self).calibration(),
            old(self).transactions().is_prefix_of(final(self).transactions()),
            match r {
                Ok((h, l)) => exists|bh: u8, bl: u8|
                    final(self).transactions() == old(self).transactions().push(
                        read_txn(old(self).address(), WH::spec_register(), bh),
                    ).push(read_txn(old(self).address(), WL::spec_register(), bl)) && h
                        == WH::spec_from_u8(bh) && l == WL::spec_from_u8(bl),
                Err(_) => pair_read_failure(
                    old(self).address(),
                    WH::spec_register(),
                    WL::spec_register(),
                    old(self).transactions(),
                    final(self).transactions(),
                ),
            },
    {
        let h: WH = self.read()?;
        let l: WL = self.read()?;
        Ok((h, l))
    }

    /// Reads the three trim registers and decodes them.
    fn read_adc(&mut self) -> (r: Result<AdcCalibration, I2C::Error>)
        ensures
            final(self).address() == old(self).address(),
            final(self).calibration() == old(self).calibration(),
            old(self).transactions().is_prefix_of(final(self).transactions()),
            match r {
                Ok(c) => exists|o: u8, g1: u8, g2: u8|
                    final(self).transactions() == old(self).transactions() + calibration_reads(
                        old(self).address(),
                        o,
                        g1,
                        g2,
                    ) && c.spec_gain() == gain_of(g1, g2) && c.spec_offset() == offset_of(o),
                Err(_) => calibration_failure(
                    old(self).address(),
                    old(self).transactions(),
                    final(self).transactions(),
                ),
            },
    {
        let offset: AdcOffset = self.read()?;
        let gain1: AdcGain1 = self.read()?;
        let gain2: AdcGain2 = self.read()?;
        let c = AdcCalibration::from_registers(offset.value(), gain1.value(), gain2.value());
        assert(self.transactions() =~= old(self).transactions() + calibration_reads(
            old(self).address(),
            offset.bits,
            gain1.bits,
            gain2.bits,
        ));
        Ok(c)
    }

    /// The calibration: the cached one if loaded, else read from the trim
    /// registers and cached. A failed load caches nothing.
    pub fn adccal(&mut self) -> (r: Result<AdcCalibration, I2C::Error>)
        ensures
            final(self).address() == old(self).address(),
            old(self).transactions().is_prefix_of(final(self).transactions()),
            match r {
                Ok(c) => final(self).calibration() == Some(c) && calibration_step(
                    old(self).address(),
                    old(self).calibration(),
                    old(self).transactions(),
                    final(self).transactions(),
                    c,
                ),
                Err(_) => old(self).calibration() is None && final(self).calibration() is None
                    && calibration_failure(
                    old(self).address(),
                    old(self).transactions(),
                    final(self).transactions(),
                ),
            },
    {
        match self.adccal {
            Some(c) => Ok(c),
            None => {
                let c = self.read_adc()?;
                self.adccal = Some(c);
                Ok(c)
            },
        }
    }
    /// Pack voltage in millivolts: reads the high and then the low sample
    /// byte, then obtains the calibration.
    pub fn bat_voltage(&mut self) -> (r: Result<i32, Error<I2C::Error>>)
        ensures
            final(self).address() == old(self).address(),
            old(self).transactions().is_prefix_of(final(self).transactions()),
            match r {
                Ok(v) => final(self).calibration() is Some && exists|hi: u8, lo: u8|
                    {
                        let c = final(self).calibration()->Some_0;
                        &&& calibration_step(
                            old(self).address(),
                            old(self).calibration(),
                            old(self).transactions().push(
                                read_txn(old(self).address(), Register::BAT_HI, hi),
                            ).push(read_txn(old(self).address(), Register::BAT_LO, lo)),
                            final(self).transactions(),
                            c,
                        )
                        &&& v == pack_millivolts(
                            c.spec_gain(),
                            c.spec_offset(),
                            #[trigger] adc_count(hi, lo),
                        )
                    },
                Err(Error::Bus(_)) => final(self).calibration() == old(self).calibration()
                    && pair_read_failure(
                    old(self).address(),
                    Register::BAT_HI,
                    Register::BAT_LO,
                    old(self).transactions(),
                    final(self).transactions(),
                ),
                Err(Error::Calibration(_)) => old(self).calibration() is None
                    && final(self).calibration() is None && exists|hi: u8, lo: u8|
                    calibration_failure(
                        old(self).address(),
                        #[trigger] old(self).transactions().push(
                            read_txn(old(self).address(), Register::BAT_HI, hi),
                        ).push(read_txn(old(self).address(), Register::BAT_LO, lo)),
                        final(self).transactions(),
                    ),
            },
    {
        let (bh, bl): (BatHi, BatLo) = match self.read16() {
            Ok(p) => p,
            Err(e) => return Err(Error::Bus(e)),
        };
        let c = match self.adccal() {
            Ok(c) => c,
            Err(e) => return Err(Error::Calibration(e)),
        };
        Ok(c.pack_voltage_mv(bh.value(), bl.value()))
    }

    /// Sets the under-voltage trip threshold to `millivolts` and returns the
    /// requested value. The register keeps only part of the comparator
    /// count, so the threshold in effect may differ from the one requested.
    pub fn set_uvtrip(&mut self, millivolts: i32) -> (r: Result<i32, Error<I2C::Error>>)
        ensures
            final(self).address() == old(self).address(),
            old(self).transactions().is_prefix_of(final(self).transactions()),
            match r {
                Ok(v) => v == millivolts && final(self).calibration() is Some && exists|
                    mid: Seq<Transaction>,
                    b: u8,
                |
                    {
                        let c = final(self).calibration()->Some_0;
                        &&& calibration_step(
                            old(self).address(),
                            old(self).calibration(),
                            old(self).transactions(),
                            mid,
                            c,
                        )
                        &&& final(self).transactions() == (#[trigger] mid.push(
                            read_txn(old(self).address(), Register::UV_TRIP, b),
                        )).push(
                            write_txn(
                                old(self).address(),
                                Register::UV_TRIP,
                                uv_trip_code(c.spec_gain(), c.spec_offset(), millivolts as int),
                            ),
                        )
                    },
                Err(Error::Bus(_)) => final(self).calibration() is Some && exists|
                    mid: Seq<Transaction>,
                |
                    {
                        let c = final(self).calibration()->Some_0;
                        &&& #[trigger] calibration_step(
                            old(self).address(),
                            old(self).calibration(),
                            old(self).transactions(),
                            mid,
                            final(self).calibration()->Some_0,
                        )
                        &&& modify_failure(
                            old(self).address(),
                            Register::UV_TRIP,
                            mid,
                            final(self).transactions(),
                            |b: u8| uv_trip_code(c.spec_gain(), c.spec_offset(), millivolts as int),
                        )
                    },
                Err(Error::Calibration(_)) => old(self).calibration() is None
                    && final(self).calibration() is None && calibration_failure(
                    old(self).address(),
                    old(self).transactions(),
                    final(self).transactions(),
                ),
            },
    {
        let c = match self.adccal() {
            Ok(c) => c,
            Err(e) => return Err(Error::Calibration(e)),
        };
        let code = c.uv_trip_code(millivolts);
        let written = self.modify(
            (|w: UvTrip| -> (r: UvTrip)
                ensures
                    r.bits == code,
                {
                    let mut w = w;
                    w.update(code);
                    w
                }),
        );
        match written {
            Ok(_) => Ok(millivolts),
            Err(e) => Err(Error::Bus(e)),
        }
    }

    /// Closes the discharge switch, leaving the other fields of its
    /// register as they were read.
    pub fn dsg_on(&mut self) -> (r: Result<SysCtrl2, I2C::Error>)
        ensures
            final(self).address() == old(self).address(),
            final(self).calibration() == old(self).calibration(),
            old(self).transactions().is_prefix_of(final(self).transactions()),
            match r {
                Ok(v) => exists|b: u8|
                    final(self).transactions() == old(self).transactions().push(
                        read_txn(old(self).address(), Register::SYS_CTRL2, b),
                    ).push(write_txn(old(self).address(), Register::SYS_CTRL2, v.spec_value()))
                        && v == (SysCtrl2 {
                            dsgon: DsgOn { bit: true },
                            ..SysCtrl2::spec_from_u8(b)
                        }),
                Err(_) => modify_failure(
                    old(self).address(),
                    Register::SYS_CTRL2,
                    old(self).transactions(),
                    final(self).transactions(),
                    |b: u8| (SysCtrl2 { dsgon: DsgOn { bit: true }, ..SysCtrl2::spec_from_u8(b) }).spec_value(),
                ),
            },
    {
        self.modify(set_dsgon)
    }

    /// Closes the charge switch, leaving the other fields of its register
    /// as they were read.
    pub fn chg_on(&mut self) -> (r: Result<SysCtrl2, I2C::Error>)
        ensures
            final(self).address() == old(self).address(),
            final(self).calibration() == old(self).calibration(),
            old(self).transactions().is_prefix_of(final(self).transactions()),
            match r {
                Ok(v) => exists|b: u8|
                    final(self).transactions() == old(self).transactions().push(
                        read_txn(old(self).address(), Register::SYS_CTRL2, b),
                    ).push(write_txn(old(self).address(), Register::SYS_CTRL2, v.spec_value()))
                        && v == (SysCtrl2 {
                            chgon: ChgOn { bit: true },
                            ..SysCtrl2::spec_from_u8(b)
                        }),
                Err(_) => modify_failure(
                    old(self).address(),
                    Register::SYS_CTRL2,
                    old(self).transactions(),
                    final(self).transactions(),
                    |b: u8| (SysCtrl2 { chgon: ChgOn { bit: true }, ..SysCtrl2::spec_from_u8(b) }).spec_value(),
                ),
            },
    {
        self.modify(set_chgon)
    }

    /// Opens the discharge switch, leaving the other fields of its register
    /// as they were read.
    pub fn dsg_off(&mut self) -> (r: Result<SysCtrl2, I2C::Error>)
        ensures
            final(self).address() == old(self).address(),
            final(self).calibration() == old(self).calibration(),
            old(self).transactions().is_prefix_of(final(self).transactions()),
            match r {
                Ok(v) => exists|b: u8|
                    final(self).transactions() == old(self).transactions().push(
                        read_txn(old(self).address(), Register::SYS_CTRL2, b),
                    ).push(write_txn(old(self).address(), Register::SYS_CTRL2, v.spec_value()))
                        && v == (SysCtrl2 {
                            dsgon: DsgOn { bit: false },
                            ..SysCtrl2::spec_from_u8(b)
                        }),
                Err(_) => modify_failure(
                    old(self).address(),
                    Register::SYS_CTRL2,
                    old(self).transactions(),
                    final(self).transactions(),
                    |b: u8| (SysCtrl2 { dsgon: DsgOn { bit: false }, ..SysCtrl2::spec_from_u8(b) }).spec_value(),
                ),
            },
    {
        self.modify(clear_dsgon)
    }

    /// Opens the charge switch, leaving the other fields of its register
    /// as they were read.
    pub fn chg_off(&mut self) -> (r: Result<SysCtrl2, I2C::Error>)
        ensures
            final(self).address() == old(self).address(),
            final(self).calibration() == old(self).calibration(),
            old(self).transactions().is_prefix_of(final(self).transactions()),
            match r {
                Ok(v) => exists|b: u8|
                    final(self).transactions() == old(self).transactions().push(
                        read_txn(old(self).address(), Register::SYS_CTRL2, b),
                    ).push(write_txn(old(self).address(), Register::SYS_CTRL2, v.spec_value()))
                        && v == (SysCtrl2 {
                            chgon: ChgOn { bit: false },
                            ..SysCtrl2::spec_from_u8(b)
                        }),
                Err(_) => modify_failure(
                    old(self).address(),
                    Register::SYS_CTRL2,
                    old(self).transactions(),
                    final(self).transactions(),
                    |b: u8| (SysCtrl2 { chgon: ChgOn { bit: false }, ..SysCtrl2::spec_from_u8(b) }).spec_value(),
                ),
            },
    {
        self.modify(clear_chgon)
    }

    /// Enables the ADC, leaving the other fields of its register as they
    /// were read.
    pub fn adc_on(&mut self) -> (r: Result<SysCtrl1, I2C::Error>)
        ensures
            final(self).address() == old(self).address(),
            final(self).calibration() == old(self).calibration(),
            old(self).transactions().is_prefix_of(final(self).transactions()),
            match r {
                Ok(v) => exists|b: u8|
                    final(self).transactions() == old(self).transactions().push(
                        read_txn(old(self).address(), Register::SYS_CTRL1, b),
                    ).push(write_txn(old(self).address(), Register::SYS_CTRL1, v.spec_value()))
                        && v == (SysCtrl1 {
                            adcen: AdcEn { bit: true },
                            ..SysCtrl1::spec_from_u8(b)
                        }),
                Err(_) => modify_failure(
                    old(self).address(),
                    Register::SYS_CTRL1,
                    old(self).transactions(),
                    final(self).transactions(),
                    |b: u8| (SysCtrl1 { adcen: AdcEn { bit: true }, ..SysCtrl1::spec_from_u8(b) }).spec_value(),
                ),
            },
    {
        self.modify(set_adcen)
    }
}

/// `w` with its `dsgon` flag set.
fn set_dsgon(w: SysCtrl2) -> (r: SysCtrl2)
    ensures
        r == (SysCtrl2 { dsgon: DsgOn { bit: true }, ..w }),
{
    let mut w = w;
    w.dsgon().set_bit();
    w
}

/// `w` with its `chgon` flag set.
fn set_chgon(w: SysCtrl2) -> (r: SysCtrl2)
    ensures
        r == (SysCtrl2 { chgon: ChgOn { bit: true }, ..w }),
{
    let mut w = w;
    w.chgon().set_bit();
    w
}

/// `w` with its `adcen` flag set.
fn set_adcen(w: SysCtrl1) -> (r: SysCtrl1)
    ensures
        r == (SysCtrl1 { adcen: AdcEn { bit: true }, ..w }),
{
    let mut w = w;
    w.adcen().set_bit();
    w
}

/// `w` with its configuration value set to the start value.
fn init_cccfg(w: CcCfg) -> (r: CcCfg)
    ensures
        r.val.val == CC_CFG_INIT,
{
    let mut w = w;
    w.val().update(CC_CFG_INIT);
    w
}

/// `w` with its `dsgon` flag cleared.
fn clear_dsgon(w: SysCtrl2) -> (r: SysCtrl2)
    ensures
        r == (SysCtrl2 { dsgon: DsgOn { bit: false }, ..w }),
{
    let mut w = w;
    w.dsgon().clear_bit();
    w
}

/// `w` with its `chgon` flag cleared.
fn clear_chgon(w: SysCtrl2) -> (r: SysCtrl2)
    ensures
        r == (SysCtrl2 { chgon: ChgOn { bit: false }, ..w }),
{
    let mut w = w;
    w.chgon().clear_bit();
    w
}

} // verus!
