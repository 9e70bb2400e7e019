use dps3xx::{Bus, Config, DPS3xx, Error, InitState, PressureRate, PressureResolution, Register,
    TemperatureRate, TemperatureResolution};
use std::cell::RefCell;
use std::rc::Rc;

const ADDR: u8 = 0x77;

#[derive(Clone, Debug, PartialEq)]
enum Tx {
    WriteRead { addr: u8, reg: u8, response: Vec<u8> },
    Write { addr: u8, reg: u8, value: u8 },
}

fn write_read(addr: u8, reg: u8, response: Vec<u8>) -> Tx {
    Tx::WriteRead { addr, reg, response }
}

fn write(addr: u8, reg: u8, value: u8) -> Tx {
    Tx::Write { addr, reg, value }
}

/// A mock bus sharing its expectation list across clones, so a test can keep
/// a handle for the final check while the device owns another.
#[derive(Clone)]
struct I2cMock {
    expected: Rc<RefCell<Vec<Tx>>>,
    next: Rc<RefCell<usize>>,
}

impl I2cMock {
    fn new(expectations: &[Tx]) -> Self {
        I2cMock { expected: Rc::new(RefCell::new(expectations.to_vec())), next: Rc::new(RefCell::new(0)) }
    }

    fn take(&mut self) -> Tx {
        let mut next = self.next.borrow_mut();
        let expected = self.expected.borrow();
        assert!(*next < expected.len(), "unexpected extra bus transaction");
        let tx = expected[*next].clone();
        *next += 1;
        tx
    }

    fn done(&self) {
        assert_eq!(*self.next.borrow(), self.expected.borrow().len(), "expected transactions left over");
    }
}

impl Bus for I2cMock {
    type Fault = ();

    fn read_byte(&mut self, address: u8, reg: u8) -> Result<u8, ()> {
        match self.take() {
            Tx::WriteRead { addr, reg: expected_reg, response } => {
                assert_eq!(addr, address);
                assert_eq!(expected_reg, reg);
                assert_eq!(response.len(), 1);
                Ok(response[0])
            }
            other => panic!("expected write-read of one byte, device issued {:?}", other),
        }
    }

    fn read_bytes3(&mut self, address: u8, reg: u8) -> Result<[u8; 3], ()> {
        match self.take() {
            Tx::WriteRead { addr, reg: expected_reg, response } => {
                assert_eq!(addr, address);
                assert_eq!(expected_reg, reg);
                assert_eq!(response.len(), 3);
                Ok([response[0], response[1], response[2]])
            }
            other => panic!("expected write-read of three bytes, device issued {:?}", other),
        }
    }

    fn read_bytes18(&mut self, address: u8, reg: u8) -> Result<[u8; 18], ()> {
        match self.take() {
            Tx::WriteRead { addr, reg: expected_reg, response } => {
                assert_eq!(addr, address);
                assert_eq!(expected_reg, reg);
                assert_eq!(response.len(), 18);
                let mut out = [0u8; 18];
                out.copy_from_slice(&response);
                Ok(out)
            }
            other => panic!("expected write-read of eighteen bytes, device issued {:?}", other),
        }
    }

    fn write_byte(&mut self, address: u8, reg: u8, value: u8) -> Result<(), ()> {
        match self.take() {
            Tx::Write { addr, reg: expected_reg, value: expected_value } => {
                assert_eq!(addr, address);
                assert_eq!(expected_reg, reg);
                assert_eq!(expected_value, value);
                Ok(())
            }
            other => panic!("expected write, device issued {:?}", other),
        }
    }
}

/// The construction transcript for a default configuration against a device
/// whose registers read back as zero.
fn default_init_expectations() -> Vec<Tx> {
    vec![
        write_read(ADDR, Register::PROD_ID.addr(), vec![0x10]),
        write_read(ADDR, Register::PRS_CFG.addr(), vec![0x00]),
        write(ADDR, Register::PRS_CFG.addr(), 0x00),
        write_read(ADDR, Register::TEMP_CFG.addr(), vec![0x00]),
        write_read(ADDR, Register::TMP_COEF_SRCE.addr(), vec![0x00]),
        write(ADDR, Register::TEMP_CFG.addr(), 0x00),
        write(ADDR, Register::CFG_REG.addr(), 0x00),
        write(ADDR, Register::MEAS_CFG.addr(), 0x00),
        write(ADDR, 0x0E, 0xA5),
        write(ADDR, 0x0F, 0x96),
        write(ADDR, 0x62, 0x02),
        write(ADDR, 0x0E, 0x00),
        write(ADDR, 0x0F, 0x00),
        write_read(ADDR, Register::MEAS_CFG.addr(), vec![0x00]),
        write(ADDR, Register::MEAS_CFG.addr(), 0x02),
        write_read(ADDR, Register::MEAS_CFG.addr(), vec![0x20]),
        write_read(ADDR, Register::TMP_B2.addr(), vec![0x00, 0x00, 0x00]),
        write(ADDR, Register::MEAS_CFG.addr(), 0x00),
    ]
}

#[test]
fn test_new_dps3xx_defaults() {
    let i2c = I2cMock::new(&default_init_expectations());
    let config = Config::new();
    let dps = DPS3xx::new(i2c.clone(), ADDR, &config).unwrap();
    let dps = dps.start_init(0).unwrap();
    let _dps = match dps.try_finish_init(5000).unwrap() {
        InitState::Ready(dps) => dps,
        InitState::InProgress(_) => panic!("init not ready"),
    };
    i2c.done();
}

#[test]
fn test_read_calibration_coefficients() {
    let mut expectations = default_init_expectations();
    expectations.push(write_read(ADDR, Register::COEFF_REG_1.addr(), vec![0; 18]));
    let i2c = I2cMock::new(&expectations);
    let config = Config::new();
    let dps = DPS3xx::new(i2c.clone(), ADDR, &config).unwrap();
    let dps = dps.start_init(0).unwrap();
    let dps = match dps.try_finish_init(5000).unwrap() {
        InitState::Ready(dps) => dps,
        InitState::InProgress(_) => panic!("init not ready"),
    };

    let _dps = dps.read_calibration_coefficients().unwrap();
    i2c.done();
}

#[test]
fn test_trigger_measurement() {
    let mut expectations = default_init_expectations();
    expectations.push(write_read(ADDR, Register::MEAS_CFG.addr(), vec![0x00]));
    expectations.push(write(ADDR, Register::MEAS_CFG.addr(), 0x02));
    let i2c = I2cMock::new(&expectations);
    let config = Config::new();
    let dps = DPS3xx::new(i2c.clone(), ADDR, &config).unwrap();
    let dps = dps.start_init(0).unwrap();
    let mut dps = match dps.try_finish_init(5000).unwrap() {
        InitState::Ready(dps) => dps,
        InitState::InProgress(_) => panic!("init not ready"),
    };

    dps.trigger_measurement(true, false, false).unwrap();
    i2c.done();
}

#[test]
fn test_read_temp_calibrated() {
    let mut expectations = default_init_expectations();
    expectations.push(write_read(ADDR, Register::COEFF_REG_1.addr(), vec![0; 18]));
    expectations.push(write_read(ADDR, Register::TEMP_CFG.addr(), vec![0x00]));
    expectations.push(write_read(ADDR, Register::TMP_B2.addr(), vec![0x00, 0x00, 0x00]));
    let i2c = I2cMock::new(&expectations);
    let config = Config::new();
    let dps = DPS3xx::new(i2c.clone(), ADDR, &config).unwrap();
    let dps = dps.start_init(0).unwrap();
    let dps = match dps.try_finish_init(5000).unwrap() {
        InitState::Ready(dps) => dps,
        InitState::InProgress(_) => panic!("init not ready"),
    };
    let mut dps = dps.read_calibration_coefficients().unwrap();

    let temp = dps.read_temp_raw().unwrap();
    assert_eq!(temp.raw, 0);
    assert_eq!(temp.scale, 524288);
    i2c.done();
}

#[test]
fn test_status_and_ready_flags() {
    let mut expectations = default_init_expectations();
    expectations.push(write_read(ADDR, Register::MEAS_CFG.addr(), vec![0xF0]));
    expectations.push(write_read(ADDR, Register::MEAS_CFG.addr(), vec![0x80]));
    expectations.push(write_read(ADDR, Register::MEAS_CFG.addr(), vec![0x40]));
    expectations.push(write_read(ADDR, Register::MEAS_CFG.addr(), vec![0x20]));
    expectations.push(write_read(ADDR, Register::MEAS_CFG.addr(), vec![0x10]));
    let i2c = I2cMock::new(&expectations);
    let config = Config::new();
    let dps = DPS3xx::new(i2c.clone(), ADDR, &config).unwrap();
    let dps = dps.start_init(0).unwrap();
    let mut dps = match dps.try_finish_init(5000).unwrap() {
        InitState::Ready(dps) => dps,
        InitState::InProgress(_) => panic!("init not ready"),
    };

    assert_eq!(dps.read_status().unwrap(), 0xF0);
    assert!(dps.coef_ready().unwrap());
    assert!(dps.init_complete().unwrap());
    assert!(dps.temp_ready().unwrap());
    assert!(dps.pres_ready().unwrap());
    i2c.done();
}

#[test]
fn test_read_pressure_calibrated() {
    let mut expectations = default_init_expectations();
    expectations.push(write_read(ADDR, Register::COEFF_REG_1.addr(), vec![0; 18]));
    expectations.push(write_read(ADDR, Register::PRS_CFG.addr(), vec![0x00]));
    expectations.push(write_read(ADDR, Register::PSR_B2.addr(), vec![0x00, 0x04, 0x00])); // 1024
    expectations.push(write_read(ADDR, Register::TEMP_CFG.addr(), vec![0x00]));
    expectations.push(write_read(ADDR, Register::TMP_B2.addr(), vec![0x00, 0x04, 0x00])); // 1024
    let i2c = I2cMock::new(&expectations);
    let config = Config::new();
    let dps = DPS3xx::new(i2c.clone(), ADDR, &config).unwrap();
    let dps = dps.start_init(0).unwrap();
    let dps = match dps.try_finish_init(5000).unwrap() {
        InitState::Ready(dps) => dps,
        InitState::InProgress(_) => panic!("init not ready"),
    };
    let mut dps = dps.read_calibration_coefficients().unwrap();

    let c = dps.calibration_coefficients();
    let (p, t) = dps.read_pressure_raw().unwrap();
    assert_eq!(p.raw, 1024);
    assert_eq!(p.scale, 524288);
    assert_eq!(t.raw, 1024);
    assert_eq!(t.scale, 524288);
    // With all coeffs 0 and raw values 1024, scaled values 1024/524288 = 0.001953125
    // pres_cal = C00 + pres_scaled * (C10 + pres_scaled * (C20 + pres_scaled * C30)) + ...
    // = 0 + 0.00195... * (0 + ...) = 0
    let p_sc = p.raw as f32 / p.scale as f32;
    let t_sc = t.raw as f32 / t.scale as f32;
    let pres = c.c00 as f32
        + p_sc * (c.c10 as f32 + p_sc * (c.c20 as f32 + p_sc * c.c30 as f32))
        + t_sc * c.c01 as f32
        + t_sc * p_sc * (c.c11 as f32 + p_sc * c.c21 as f32);
    assert_eq!(pres, 0.0);
    i2c.done();
}

#[test]
fn test_reset() {
    let mut expectations = default_init_expectations();
    expectations.push(write(ADDR, Register::RESET.addr(), 0x89));
    let i2c = I2cMock::new(&expectations);
    let config = Config::new();
    let dps = DPS3xx::new(i2c.clone(), ADDR, &config).unwrap();
    let dps = dps.start_init(0).unwrap();
    let dps = match dps.try_finish_init(5000).unwrap() {
        InitState::Ready(dps) => dps,
        InitState::InProgress(_) => panic!("init not ready"),
    };

    let _dps = dps.reset().unwrap();
    i2c.done();
}

#[test]
fn test_wrong_device_issues_no_writes() {
    // any product ID but the documented one fails, after the one read alone
    let expectations = [write_read(ADDR, Register::PROD_ID.addr(), vec![0x42])];
    let i2c = I2cMock::new(&expectations);
    let config = Config::new();
    let result = DPS3xx::new(i2c.clone(), ADDR, &config);
    assert!(matches!(result, Err(Error::WrongDevice)));
    i2c.done();
}

#[test]
fn test_invalid_shift_config_rejected_before_traffic() {
    // 16-sample oversampling without the matching shift flag fails fast
    let i2c = I2cMock::new(&[]);
    let mut config = Config::new();
    config.pres_res(PressureResolution::_16_SAMPLES);
    let result = DPS3xx::new(i2c.clone(), ADDR, &config);
    assert!(matches!(result, Err(Error::InvalidConfig)));
    i2c.done();
}

#[test]
fn test_start_init_rejects_excessive_busy_time() {
    let mut config = Config::new();
    config
        .pres_rate(PressureRate::_128_SPS)
        .pres_res(PressureResolution::_128_SAMPLES)
        .pres_shift(true)
        .temp_rate(TemperatureRate::_128_SPS)
        .temp_res(TemperatureResolution::_128_SAMPLES)
        .temp_shift(true);
    let expectations = [
        write_read(ADDR, Register::PROD_ID.addr(), vec![0x10]),
        write_read(ADDR, Register::PRS_CFG.addr(), vec![0x00]),
        write(ADDR, Register::PRS_CFG.addr(), 0x77),
        write_read(ADDR, Register::TEMP_CFG.addr(), vec![0x00]),
        write_read(ADDR, Register::TMP_COEF_SRCE.addr(), vec![0x00]),
        write(ADDR, Register::TEMP_CFG.addr(), 0x77),
        write(ADDR, Register::CFG_REG.addr(), 0x0C),
        write(ADDR, Register::MEAS_CFG.addr(), 0x00),
        write(ADDR, 0x0E, 0xA5),
        write(ADDR, 0x0F, 0x96),
        write(ADDR, 0x62, 0x02),
        write(ADDR, 0x0E, 0x00),
        write(ADDR, 0x0F, 0x00),
        write_read(ADDR, Register::MEAS_CFG.addr(), vec![0x00]),
        write(ADDR, Register::MEAS_CFG.addr(), 0x02),
        write_read(ADDR, Register::MEAS_CFG.addr(), vec![0x20]),
        write_read(ADDR, Register::TMP_B2.addr(), vec![0x00, 0x00, 0x00]),
        write(ADDR, Register::MEAS_CFG.addr(), 0x00),
    ];
    let i2c = I2cMock::new(&expectations);
    let dps = DPS3xx::new(i2c.clone(), ADDR, &config).unwrap();
    let result = dps.start_init(0);
    assert!(matches!(result, Err(Error::InvalidConfig)));
    i2c.done();
}

#[test]
fn test_settling_gate_in_progress_and_timeout() {
    // default configuration: 36 + 36 busy units arm a 7 + 10 ms wait
    let i2c = I2cMock::new(&default_init_expectations());
    let mut config = Config::new();
    config.init_timeout_ms(10);
    let dps = DPS3xx::new(i2c.clone(), ADDR, &config).unwrap();
    let dps = dps.start_init(100).unwrap();
    // 5 ms elapsed: below the wait and the timeout, same handle comes back
    let dps = match dps.try_finish_init(105).unwrap() {
        InitState::InProgress(dps) => dps,
        InitState::Ready(_) => panic!("gate elapsed too early"),
    };
    // 12 ms elapsed: below the wait but beyond the configured timeout
    let result = dps.try_finish_init(112);
    assert!(matches!(result, Err(Error::InitTimeout)));
    i2c.done();
}

#[test]
fn test_trigger_measurement_rejects_simultaneous_singles() {
    let mut expectations = default_init_expectations();
    // a valid background request afterwards reads and rewrites the mode field
    expectations.push(write_read(ADDR, Register::MEAS_CFG.addr(), vec![0xC0]));
    expectations.push(write(ADDR, Register::MEAS_CFG.addr(), 0xC7));
    let i2c = I2cMock::new(&expectations);
    let config = Config::new();
    let dps = DPS3xx::new(i2c.clone(), ADDR, &config).unwrap();
    let dps = dps.start_init(0).unwrap();
    let mut dps = match dps.try_finish_init(5000).unwrap() {
        InitState::Ready(dps) => dps,
        InitState::InProgress(_) => panic!("init not ready"),
    };

    // single pressure and single temperature at once, no background: rejected
    // with no bus traffic
    let result = dps.trigger_measurement(true, true, false);
    assert!(matches!(result, Err(Error::InvalidConfig)));
    // the same request in background mode is the continuous-both mode
    dps.trigger_measurement(true, true, true).unwrap();
    i2c.done();
}

#[test]
fn test_construction_poll_exhaustion_times_out() {
    // the temperature-ready bit never appears: the bounded poll reads the
    // mode/status register its full eight tries, then construction fails
    let mut expectations: Vec<Tx> = default_init_expectations()[..15].to_vec();
    for _ in 0..8 {
        expectations.push(write_read(ADDR, Register::MEAS_CFG.addr(), vec![0x00]));
    }
    let i2c = I2cMock::new(&expectations);
    let config = Config::new();
    let result = DPS3xx::new(i2c.clone(), ADDR, &config);
    assert!(matches!(result, Err(Error::InitTimeout)));
    i2c.done();
}

/// A bus whose transport always fails.
struct BrokenBus;

impl Bus for BrokenBus {
    type Fault = ();

    fn read_byte(&mut self, _address: u8, _reg: u8) -> Result<u8, ()> {
        Err(())
    }

    fn read_bytes3(&mut self, _address: u8, _reg: u8) -> Result<[u8; 3], ()> {
        Err(())
    }

    fn read_bytes18(&mut self, _address: u8, _reg: u8) -> Result<[u8; 18], ()> {
        Err(())
    }

    fn write_byte(&mut self, _address: u8, _reg: u8, _value: u8) -> Result<(), ()> {
        Err(())
    }
}

#[test]
fn test_transport_failure_propagates_unchanged() {
    let config = Config::new();
    let result = DPS3xx::new(BrokenBus, ADDR, &config);
    assert!(matches!(result, Err(Error::Bus(()))));
}

#[test]
fn test_release_returns_the_bus() {
    let i2c = I2cMock::new(&default_init_expectations());
    let config = Config::new();
    let dps = DPS3xx::new(i2c.clone(), ADDR, &config).unwrap();
    let bus = dps.release();
    bus.done();
    i2c.done();
}
