use bq769x0::adc::{AdcGain1, AdcOffset};
use bq769x0::bat::BatHi;
use bq769x0::cccfg::{CcCfg, CcCfgVal};
use bq769x0::sysctrl1::{AdcEn, SysCtrl1, TempSel};
use bq769x0::sysctrl2::{CcEn, ChgOn, DsgOn, SysCtrl2};
use bq769x0::uvtrip::UvTrip;
use bq769x0::{AdcCalibration, Error, I2cBus, Register, RegisterBits, RegisterWriter, BQ76920};

#[derive(Debug, PartialEq)]
struct Nack;

/// A chip that holds its registers in memory and records every transaction.
struct Chip {
    regs: [u8; 256],
    writes: Vec<(u8, Vec<u8>)>,
    reads: Vec<u8>,
    failing_reg: Option<u8>,
    fail_writes: bool,
    failing_write_reg: Option<u8>,
    write_attempts: usize,
}

impl Chip {
    fn new() -> Chip {
        Chip { regs: [0; 256], writes: Vec::new(), reads: Vec::new(), failing_reg: None, fail_writes: false, failing_write_reg: None, write_attempts: 0 }
    }
}

impl I2cBus for &mut Chip {
    type Error = Nack;

    fn write(&mut self, address: u8, bytes: &[u8]) -> Result<(), Nack> {
        self.write_attempts += 1;
        if self.fail_writes || self.failing_write_reg == Some(bytes[0]) {
            return Err(Nack);
        }
        self.writes.push((address, bytes.to_vec()));
        self.regs[bytes[0] as usize] = bytes[1];
        Ok(())
    }

    fn write_read(&mut self, address: u8, bytes: &[u8]) -> Result<u8, Nack> {
        assert_eq!(address, 0x08);
        assert_eq!(bytes.len(), 1);
        if self.failing_reg == Some(bytes[0]) {
            return Err(Nack);
        }
        self.reads.push(bytes[0]);
        Ok(self.regs[bytes[0] as usize])
    }
}

const ADDR: u8 = 0x08;

#[test]
fn register_addresses() {
    assert_eq!(Register::SYS_CTRL1.addr(), 0x04);
    assert_eq!(Register::SYS_CTRL2.addr(), 0x05);
    assert_eq!(Register::OV_TRIP.addr(), 0x09);
    assert_eq!(Register::UV_TRIP.addr(), 0x0A);
    assert_eq!(Register::ADCGAIN1.addr(), 0x50);
    assert_eq!(Register::ADCOFFSET.addr(), 0x51);
    assert_eq!(Register::ADCGAIN2.addr(), 0x59);
    assert_eq!(Register::BAT_HI.addr(), 0x2A);
    assert_eq!(Register::BAT_LO.addr(), 0x2B);
    assert_eq!(Register::CC_CFG.addr(), 0x0B);
}

#[test]
fn field_round_trip_every_byte() {
    for b in 0..=255u8 {
        assert_eq!(ChgOn::from_u8(b).to_u8(), b & ChgOn::mask());
        assert_eq!(DsgOn::from_u8(b).to_u8(), b & DsgOn::mask());
        assert_eq!(CcEn::from_u8(b).to_u8(), b & CcEn::mask());
        assert_eq!(AdcEn::from_u8(b).to_u8(), b & AdcEn::mask());
        assert_eq!(TempSel::from_u8(b).to_u8(), b & TempSel::mask());
        assert_eq!(CcCfgVal::from_u8(b).to_u8(), b & CcCfgVal::mask());
        assert_eq!(SysCtrl2::from_u8(b).value(), b & 0b0100_0011);
        assert_eq!(SysCtrl1::from_u8(b).value(), b & 0b0001_1000);
        assert_eq!(UvTrip::from_u8(b).value(), b);
    }
}

#[test]
fn field_masks() {
    assert_eq!(ChgOn::mask(), 0b0000_0001);
    assert_eq!(DsgOn::mask(), 0b0000_0010);
    assert_eq!(CcEn::mask(), 0b0100_0000);
    assert_eq!(AdcEn::mask(), 0b0001_0000);
    assert_eq!(TempSel::mask(), 0b0000_1000);
    assert_eq!(CcCfgVal::mask(), 0b0011_1111);
}

#[test]
fn wide_field_value_is_truncated() {
    let mut v = CcCfg::from_u8(0);
    v.val().update(0xff);
    assert_eq!(v.value(), 0x3f);
    assert_eq!(CcCfg::from_u8(0xd9).val.value(), 0x19);
}

#[test]
fn field_isolation() {
    for b in 0..=255u8 {
        for on in [false, true] {
            let mut w = SysCtrl2::from_u8(b);
            let before = w.value();
            if on { w.dsgon().set_bit() } else { w.dsgon().clear_bit() }
            assert_eq!(w.value() & !DsgOn::mask(), before & !DsgOn::mask());
            assert_eq!(w.dsgon().bit_is_set(), on);
            let mut v = SysCtrl1::from_u8(b);
            let before = v.value();
            if on { v.adcen().set_bit() } else { v.adcen().clear_bit() }
            assert_eq!(v.value() & !AdcEn::mask(), before & !AdcEn::mask());
        }
    }
}

#[test]
fn update_replaces_every_field() {
    let mut w = SysCtrl2::from_u8(0xff);
    w.update(0b0000_0010);
    assert!(!w.chgon.bit);
    assert!(w.dsgon.bit);
    assert!(!w.ccen.bit);
    let mut raw = AdcGain1::from_u8(1);
    raw.update(0x7e);
    assert_eq!(raw.value(), 0x7e);
    assert_eq!(AdcOffset::register(), Register::ADCOFFSET);
    assert_eq!(BatHi::register(), Register::BAT_HI);
}

#[test]
fn gain_decode() {
    let c = AdcCalibration::from_registers(0, 0b0000_1100, 0b1110_0000);
    assert_eq!(c.gain(), 396);
    assert_eq!(c.offset(), 0);
    let c = AdcCalibration::from_registers(0x7f, 0b1111_0011, 0b0001_1111);
    assert_eq!(c.gain(), 365);
    assert_eq!(c.offset(), 127);
    assert_eq!(AdcCalibration::from_registers(0xff, 0, 0).offset(), -1);
    assert_eq!(AdcCalibration::from_registers(0x80, 0, 0).offset(), -128);
}

#[test]
fn voltage_conversion() {
    let c = AdcCalibration::from_registers(0, 0, 0);
    assert_eq!(c.pack_voltage_mv(0x03, 0xE8), 1460);
    assert_eq!(c.pack_voltage_mv(0xff, 0xff), 95681);
    // rounding goes toward zero on negative values
    let c = AdcCalibration::from_registers(0xff, 0, 0);
    assert_eq!(c.pack_voltage_mv(0, 1), -1);
    assert_eq!(c.pack_voltage_mv(0, 0), -3);
}

#[test]
fn threshold_encoding() {
    let c = AdcCalibration::from_registers(0, 0, 0);
    assert_eq!(c.uv_trip_code(1460), 250);
    assert_eq!(c.uv_trip_code(-5), 0);
    assert_eq!(c.uv_trip_code(0), 0);
    assert_eq!(c.uv_trip_code(i32::MAX), 0xff);
    let c = AdcCalibration::from_registers(0x0a, 0b0000_1100, 0b1110_0000);
    // (3000 - 10) * 1000 / 396 = 7550, 7550 >> 4 = 471, 471 & 0xff = 215
    assert_eq!(c.uv_trip_code(3000), 215);
}

#[test]
fn new_initialises_cc_cfg() {
    let mut chip = Chip::new();
    {
        let _bq = BQ76920::new(ADDR, &mut chip).unwrap();
    }
    assert_eq!(chip.writes, vec![(ADDR, vec![0x0B, 0x19])]);
    assert!(chip.reads.is_empty());
}

#[test]
fn new_reports_bus_error() {
    let mut chip = Chip::new();
    chip.fail_writes = true;
    assert!(matches!(BQ76920::new(ADDR, &mut chip), Err(Nack)));
}

#[test]
fn bat_voltage_reads_high_then_low() {
    let mut chip = Chip::new();
    chip.regs[0x2A] = 0x03;
    chip.regs[0x2B] = 0xE8;
    {
        let mut bq = BQ76920::new(ADDR, &mut chip).unwrap();
        assert_eq!(bq.bat_voltage().unwrap(), 1460);
    }
    assert_eq!(chip.reads, vec![0x2A, 0x2B, 0x51, 0x50, 0x59]);
}

#[test]
fn set_uvtrip_writes_trip_byte() {
    let mut chip = Chip::new();
    chip.regs[0x0A] = 0x33;
    {
        let mut bq = BQ76920::new(ADDR, &mut chip).unwrap();
        assert_eq!(bq.set_uvtrip(1460).unwrap(), 1460);
    }
    assert_eq!(chip.writes.last().unwrap(), &(ADDR, vec![0x0A, 250]));
    assert_eq!(chip.regs[0x0A], 250);
}

#[test]
fn switch_independence() {
    let mut chip = Chip::new();
    chip.regs[0x05] = 0b0100_0000;
    {
        let mut bq = BQ76920::new(ADDR, &mut chip).unwrap();
        let first = bq.chg_on().unwrap();
        assert!(first.chgon.bit && !first.dsgon.bit && first.ccen.bit);
        let second = bq.dsg_on().unwrap();
        assert!(second.chgon.bit && second.dsgon.bit && second.ccen.bit);
    }
    assert_eq!(chip.regs[0x05], 0b0100_0011);
    assert_eq!(chip.writes[1..].to_vec(), vec![(ADDR, vec![0x05, 0b0100_0001]), (ADDR, vec![0x05, 0b0100_0011])]);

    let mut chip = Chip::new();
    {
        let mut bq = BQ76920::new(ADDR, &mut chip).unwrap();
        bq.chg_on().unwrap();
        let both = bq.dsg_on().unwrap();
        assert!(!both.ccen.bit);
    }
    assert_eq!(chip.regs[0x05], 0b0000_0011);
}

#[test]
fn adc_on_keeps_temperature_select() {
    let mut chip = Chip::new();
    chip.regs[0x04] = 0b1000_1000;
    {
        let mut bq = BQ76920::new(ADDR, &mut chip).unwrap();
        let v = bq.adc_on().unwrap();
        assert!(v.adcen.bit && v.tempsel.bit);
    }
    assert_eq!(chip.writes.last().unwrap(), &(ADDR, vec![0x04, 0b0001_1000]));
}

#[test]
fn calibration_read_once() {
    let mut chip = Chip::new();
    chip.regs[0x50] = 0b0000_1100;
    chip.regs[0x59] = 0b1110_0000;
    {
        let mut bq = BQ76920::new(ADDR, &mut chip).unwrap();
        bq.bat_voltage().unwrap();
        bq.set_uvtrip(3000).unwrap();
        bq.bat_voltage().unwrap();
        assert_eq!(bq.adccal().unwrap().gain(), 396);
    }
    let trims = chip.reads.iter().filter(|r| [0x50, 0x51, 0x59].contains(*r)).count();
    assert_eq!(trims, 3);
}

#[test]
fn calibration_failure_is_distinct() {
    let mut chip = Chip::new();
    chip.failing_reg = Some(0x59);
    {
        let mut bq = BQ76920::new(ADDR, &mut chip).unwrap();
        assert!(matches!(bq.bat_voltage(), Err(Error::Calibration(Nack))));
        assert!(matches!(bq.set_uvtrip(1000), Err(Error::Calibration(Nack))));
        assert!(matches!(bq.adccal(), Err(Nack)));
    }
    assert!(!chip.writes.iter().any(|(_, b)| b[0] == 0x0A));
}

#[test]
fn bus_failure_is_reported() {
    let mut chip = Chip::new();
    chip.failing_reg = Some(0x2B);
    {
        let mut bq = BQ76920::new(ADDR, &mut chip).unwrap();
        assert!(matches!(bq.bat_voltage(), Err(Error::Bus(Nack))));
        assert!(matches!(bq.read::<bq769x0::bat::BatLo>(), Err(Nack)));
    }
    let mut chip = Chip::new();
    {
        let mut bq = BQ76920::new(ADDR, &mut chip).unwrap();
        bq.adccal().unwrap();
        bq.adccal().unwrap();
    }
    assert_eq!(chip.reads, vec![0x51, 0x50, 0x59]);
}

#[test]
fn write_and_read_views() {
    let mut chip = Chip::new();
    chip.regs[0x05] = 0b1111_1111;
    {
        let mut bq = BQ76920::new(ADDR, &mut chip).unwrap();
        let w: SysCtrl2 = bq
            .write(|mut w: SysCtrl2| {
                w.ccen().set_bit();
                w
            })
            .unwrap();
        assert_eq!(w.value(), 0b0100_0000);
        let r: SysCtrl2 = bq.read().unwrap();
        assert_eq!(r, w);
        let m: UvTrip = bq
            .modify(|mut w: UvTrip| {
                w.update(w.value() + 1);
                w
            })
            .unwrap();
        assert_eq!(m.value(), 1);
    }
    assert_eq!(chip.writes[1], (ADDR, vec![0x05, 0b0100_0000]));
    assert_eq!(chip.regs[0x0A], 1);
}

#[test]
fn switches_open_alone() {
    let mut chip = Chip::new();
    chip.regs[0x05] = 0b1100_0011;
    {
        let mut bq = BQ76920::new(ADDR, &mut chip).unwrap();
        let v = bq.dsg_off().unwrap();
        assert!(v.chgon.bit && !v.dsgon.bit && v.ccen.bit);
        let v = bq.chg_off().unwrap();
        assert!(!v.chgon.bit && !v.dsgon.bit && v.ccen.bit);
    }
    assert_eq!(chip.writes[1..].to_vec(), vec![(ADDR, vec![0x05, 0b0100_0001]), (ADDR, vec![0x05, 0b0100_0000])]);
    assert_eq!(chip.regs[0x05], 0b0100_0000);
}

#[test]
fn failed_read_stops_modify() {
    let mut chip = Chip::new();
    chip.failing_reg = Some(0x05);
    {
        let mut bq = BQ76920::new(ADDR, &mut chip).unwrap();
        assert!(matches!(bq.dsg_on(), Err(Nack)));
    }
    assert_eq!(chip.write_attempts, 1);
    assert_eq!(chip.writes.len(), 1);
}

#[test]
fn failed_write_is_not_retried() {
    let mut chip = Chip::new();
    chip.failing_write_reg = Some(0x05);
    {
        let mut bq = BQ76920::new(ADDR, &mut chip).unwrap();
        assert!(matches!(bq.dsg_on(), Err(Nack)));
    }
    assert_eq!(chip.reads, vec![0x05]);
    assert_eq!(chip.write_attempts, 2);

    let mut chip = Chip::new();
    chip.fail_writes = true;
    assert!(matches!(BQ76920::new(ADDR, &mut chip), Err(Nack)));
    assert_eq!(chip.write_attempts, 1);
    assert!(chip.reads.is_empty());
}

#[test]
fn failed_high_byte_stops_voltage_read() {
    let mut chip = Chip::new();
    chip.failing_reg = Some(0x2A);
    {
        let mut bq = BQ76920::new(ADDR, &mut chip).unwrap();
        assert!(matches!(bq.bat_voltage(), Err(Error::Bus(Nack))));
    }
    assert!(chip.reads.is_empty());
}

#[test]
fn failed_trim_read_stops_calibration() {
    let mut chip = Chip::new();
    chip.failing_reg = Some(0x51);
    {
        let mut bq = BQ76920::new(ADDR, &mut chip).unwrap();
        assert!(matches!(bq.adccal(), Err(Nack)));
        assert!(matches!(bq.set_uvtrip(1000), Err(Error::Calibration(Nack))));
    }
    assert!(chip.reads.is_empty());
    assert_eq!(chip.write_attempts, 1);
}
