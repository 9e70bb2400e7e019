//! Sensor configuration: rate and resolution selectors, feature flags, and
//! the settling-gate timeout.
//!
//! A `Config` is handed to the device at construction and is immutable from
//! then on.  Unset selectors default to the lowest setting.

use vstd::prelude::*;

verus! {

/// Pressure measure rate, in samples per second (eight power-of-two steps).
#[allow(non_camel_case_types)]
#[derive(Copy, Clone, Debug, Eq, PartialEq, Structural)]
pub enum PressureRate {
    _1_SPS,
    _2_SPS,
    _4_SPS,
    _8_SPS,
    _16_SPS,
    _32_SPS,
    _64_SPS,
    _128_SPS,
}

impl PressureRate {
    /// The three-bit register value for this rate.
    pub open spec fn spec_val(self) -> u8 {
        match self {
            PressureRate::_1_SPS => 0,
            PressureRate::_2_SPS => 1,
            PressureRate::_4_SPS => 2,
            PressureRate::_8_SPS => 3,
            PressureRate::_16_SPS => 4,
            PressureRate::_32_SPS => 5,
            PressureRate::_64_SPS => 6,
            PressureRate::_128_SPS => 7,
        }
    }

    /// The three-bit register value for this rate.
    #[verifier::when_used_as_spec(spec_val)]
    pub fn val(self) -> (r: u8)
        ensures
            r == self.spec_val(),
            r <= 7,
    {
        match self {
            PressureRate::_1_SPS => 0,
            PressureRate::_2_SPS => 1,
            PressureRate::_4_SPS => 2,
            PressureRate::_8_SPS => 3,
            PressureRate::_16_SPS => 4,
            PressureRate::_32_SPS => 5,
            PressureRate::_64_SPS => 6,
            PressureRate::_128_SPS => 7,
        }
    }
}

impl Default for PressureRate {
    /// The lowest rate: one sample per second.
    fn default() -> (r: Self)
        ensures
            r == PressureRate::_1_SPS,
    {
        PressureRate::_1_SPS
    }
}

/// Pressure oversampling (resolution), in samples per measurement.
#[allow(non_camel_case_types)]
#[derive(Copy, Clone, Debug, Eq, PartialEq, Structural)]
pub enum PressureResolution {
    _1_SAMPLES,
    _2_SAMPLES,
    _4_SAMPLES,
    _8_SAMPLES,
    _16_SAMPLES,
    _32_SAMPLES,
    _64_SAMPLES,
    _128_SAMPLES,
}

impl PressureResolution {
    /// The three-bit register value for this resolution.
    pub open spec fn spec_val(self) -> u8 {
        match self {
            PressureResolution::_1_SAMPLES => 0,
            PressureResolution::_2_SAMPLES => 1,
            PressureResolution::_4_SAMPLES => 2,
            PressureResolution::_8_SAMPLES => 3,
            PressureResolution::_16_SAMPLES => 4,
            PressureResolution::_32_SAMPLES => 5,
            PressureResolution::_64_SAMPLES => 6,
            PressureResolution::_128_SAMPLES => 7,
        }
    }

    /// The three-bit register value for this resolution.
    #[verifier::when_used_as_spec(spec_val)]
    pub fn val(self) -> (r: u8)
        ensures
            r == self.spec_val(),
            r <= 7,
    {
        match self {
            PressureResolution::_1_SAMPLES => 0,
            PressureResolution::_2_SAMPLES => 1,
            PressureResolution::_4_SAMPLES => 2,
            PressureResolution::_8_SAMPLES => 3,
            PressureResolution::_16_SAMPLES => 4,
            PressureResolution::_32_SAMPLES => 5,
            PressureResolution::_64_SAMPLES => 6,
            PressureResolution::_128_SAMPLES => 7,
        }
    }
}

impl Default for PressureResolution {
    /// The lowest resolution: single sample.
    fn default() -> (r: Self)
        ensures
            r == PressureResolution::_1_SAMPLES,
    {
        PressureResolution::_1_SAMPLES
    }
}

/// Temperature measure rate, in samples per second.
#[allow(non_camel_case_types)]
#[derive(Copy, Clone, Debug, Eq, PartialEq, Structural)]
pub enum TemperatureRate {
    _1_SPS,
    _2_SPS,
    _4_SPS,
    _8_SPS,
    _16_SPS,
    _32_SPS,
    _64_SPS,
    _128_SPS,
}

impl TemperatureRate {
    /// The three-bit register value for this rate.
    pub open spec fn spec_val(self) -> u8 {
        match self {
            TemperatureRate::_1_SPS => 0,
            TemperatureRate::_2_SPS => 1,
            TemperatureRate::_4_SPS => 2,
            TemperatureRate::_8_SPS => 3,
            TemperatureRate::_16_SPS => 4,
            TemperatureRate::_32_SPS => 5,
            TemperatureRate::_64_SPS => 6,
            TemperatureRate::_128_SPS => 7,
        }
    }

    /// The three-bit register value for this rate.
    #[verifier::when_used_as_spec(spec_val)]
    pub fn val(self) -> (r: u8)
        ensures
            r == self.spec_val(),
            r <= 7,
    {
        match self {
            TemperatureRate::_1_SPS => 0,
            TemperatureRate::_2_SPS => 1,
            TemperatureRate::_4_SPS => 2,
            TemperatureRate::_8_SPS => 3,
            TemperatureRate::_16_SPS => 4,
            TemperatureRate::_32_SPS => 5,
            TemperatureRate::_64_SPS => 6,
            TemperatureRate::_128_SPS => 7,
        }
    }
}

impl Default for TemperatureRate {
    /// The lowest rate: one sample per second.
    fn default() -> (r: Self)
        ensures
            r == TemperatureRate::_1_SPS,
    {
        TemperatureRate::_1_SPS
    }
}

/// Temperature oversampling (resolution), in samples per measurement.
#[allow(non_camel_case_types)]
#[derive(Copy, Clone, Debug, Eq, PartialEq, Structural)]
pub enum TemperatureResolution {
    _1_SAMPLES,
    _2_SAMPLES,
    _4_SAMPLES,
    _8_SAMPLES,
    _16_SAMPLES,
    _32_SAMPLES,
    _64_SAMPLES,
    _128_SAMPLES,
}

impl TemperatureResolution {
    /// The three-bit register value for this resolution.
    pub open spec fn spec_val(self) -> u8 {
        match self {
            TemperatureResolution::_1_SAMPLES => 0,
            TemperatureResolution::_2_SAMPLES => 1,
            TemperatureResolution::_4_SAMPLES => 2,
            TemperatureResolution::_8_SAMPLES => 3,
            TemperatureResolution::_16_SAMPLES => 4,
            TemperatureResolution::_32_SAMPLES => 5,
            TemperatureResolution::_64_SAMPLES => 6,
            TemperatureResolution::_128_SAMPLES => 7,
        }
    }

    /// The three-bit register value for this resolution.
    #[verifier::when_used_as_spec(spec_val)]
    pub fn val(self) -> (r: u8)
        ensures
            r == self.spec_val(),
            r <= 7,
    {
        match self {
            TemperatureResolution::_1_SAMPLES => 0,
            TemperatureResolution::_2_SAMPLES => 1,
            TemperatureResolution::_4_SAMPLES => 2,
            TemperatureResolution::_8_SAMPLES => 3,
            TemperatureResolution::_16_SAMPLES => 4,
            TemperatureResolution::_32_SAMPLES => 5,
            TemperatureResolution::_64_SAMPLES => 6,
            TemperatureResolution::_128_SAMPLES => 7,
        }
    }
}

impl Default for TemperatureResolution {
    /// The lowest resolution: single sample.
    fn default() -> (r: Self)
        ensures
            r == TemperatureResolution::_1_SAMPLES,
    {
        TemperatureResolution::_1_SAMPLES
    }
}

/// Device configuration.
///
/// Selectors left at `None` fall back to the lowest setting when the device
/// derives register values from the configuration.
#[derive(Copy, Clone, Debug)]
pub struct Config {
    pub pres_rate: Option<PressureRate>,
    pub pres_res: Option<PressureResolution>,
    pub temp_rate: Option<TemperatureRate>,
    pub temp_res: Option<TemperatureResolution>,
    pub temp_ext: Option<bool>,
    pub int_hl: bool,
    pub int_fifo: bool,
    pub int_temp: bool,
    pub int_pres: bool,
    pub temp_shift: bool,
    pub pres_shift: bool,
    pub fifo_enable: bool,
    pub spi_mode: bool,
    pub init_timeout_ms: u32,
}

impl Config {
    /// The defaults: every selector unset, every flag off, a five-second
    /// settling-gate timeout.
    pub open spec fn spec_new() -> Config {
        Config {
            pres_rate: None,
            pres_res: None,
            temp_rate: None,
            temp_res: None,
            temp_ext: None,
            int_hl: false,
            int_fifo: false,
            int_temp: false,
            int_pres: false,
            temp_shift: false,
            pres_shift: false,
            fifo_enable: false,
            spi_mode: false,
            init_timeout_ms: 5000,
        }
    }

    /// Creates a new configuration object with default values.
    pub fn new() -> (r: Self)
        ensures
            r == Config::spec_new(),
    {
        Config {
            pres_rate: None,
            pres_res: None,
            temp_rate: None,
            temp_res: None,
            temp_ext: None,
            int_hl: false,
            int_fifo: false,
            int_temp: false,
            int_pres: false,
            temp_shift: false,
            pres_shift: false,
            fifo_enable: false,
            spi_mode: false,
            init_timeout_ms: 5000,
        }
    }

    /// Select the pressure measure rate.
    pub fn pres_rate(&mut self, rate: PressureRate) -> (r: &mut Self)
        ensures
            *r == (Config { pres_rate: Some(rate), ..*old(self) }),
            *final(self) == *final(r),
    {
        self.pres_rate = Some(rate);
        self
    }

    /// Select the pressure resolution.
    pub fn pres_res(&mut self, res: PressureResolution) -> (r: &mut Self)
        ensures
            *r == (Config { pres_res: Some(res), ..*old(self) }),
            *final(self) == *final(r),
    {
        self.pres_res = Some(res);
        self
    }

    /// Select the temperature measure rate.
    pub fn temp_rate(&mut self, rate: TemperatureRate) -> (r: &mut Self)
        ensures
            *r == (Config { temp_rate: Some(rate), ..*old(self) }),
            *final(self) == *final(r),
    {
        self.temp_rate = Some(rate);
        self
    }

    /// Select the temperature resolution.
    pub fn temp_res(&mut self, res: TemperatureResolution) -> (r: &mut Self)
        ensures
            *r == (Config { temp_res: Some(res), ..*old(self) }),
            *final(self) == *final(r),
    {
        self.temp_res = Some(res);
        self
    }

    /// Choose the external temperature sensor explicitly.
    pub fn temp_external(&mut self, external: bool) -> (r: &mut Self)
        ensures
            *r == (Config { temp_ext: Some(external), ..*old(self) }),
            *final(self) == *final(r),
    {
        self.temp_ext = Some(external);
        self
    }

    /// Interrupt (on SDO pin) active level.
    pub fn int_hl(&mut self, int_on_sdo_pin: bool) -> (r: &mut Self)
        ensures
            *r == (Config { int_hl: int_on_sdo_pin, ..*old(self) }),
            *final(self) == *final(r),
    {
        self.int_hl = int_on_sdo_pin;
        self
    }

    /// Interrupt when the FIFO is full.
    pub fn int_fifo(&mut self, int_on_fifo: bool) -> (r: &mut Self)
        ensures
            *r == (Config { int_fifo: int_on_fifo, ..*old(self) }),
            *final(self) == *final(r),
    {
        self.int_fifo = int_on_fifo;
        self
    }

    /// Interrupt when a temperature measurement is ready.
    pub fn int_temp(&mut self, int_on_temp: bool) -> (r: &mut Self)
        ensures
            *r == (Config { int_temp: int_on_temp, ..*old(self) }),
            *final(self) == *final(r),
    {
        self.int_temp = int_on_temp;
        self
    }

    /// Interrupt when a pressure measurement is ready.
    pub fn int_pres(&mut self, int_on_pres: bool) -> (r: &mut Self)
        ensures
            *r == (Config { int_pres: int_on_pres, ..*old(self) }),
            *final(self) == *final(r),
    {
        self.int_pres = int_on_pres;
        self
    }

    /// Set temperature result bit-shift.  Must be set to true when the
    /// oversampling rate is above eight samples.
    pub fn temp_shift(&mut self, temp_shift_enable: bool) -> (r: &mut Self)
        ensures
            *r == (Config { temp_shift: temp_shift_enable, ..*old(self) }),
            *final(self) == *final(r),
    {
        self.temp_shift = temp_shift_enable;
        self
    }

    /// Set pressure result bit-shift.  Must be set to true when the
    /// oversampling rate is above eight samples.
    pub fn pres_shift(&mut self, pres_shift_enable: bool) -> (r: &mut Self)
        ensures
            *r == (Config { pres_shift: pres_shift_enable, ..*old(self) }),
            *final(self) == *final(r),
    {
        self.pres_shift = pres_shift_enable;
        self
    }

    /// Set FIFO options.
    pub fn fifo(&mut self, interrupt_on_full: bool, enable: bool) -> (r: &mut Self)
        ensures
            *r == (Config {
                int_fifo: interrupt_on_full,
                fifo_enable: enable,
                ..*old(self)
            }),
            *final(self) == *final(r),
    {
        self.int_fifo = interrupt_on_full;
        self.fifo_enable = enable;
        self
    }

    /// Set SPI mode (false: four-wire, true: three-wire interface).
    pub fn spi_mode(&mut self, three_wire: bool) -> (r: &mut Self)
        ensures
            *r == (Config { spi_mode: three_wire, ..*old(self) }),
            *final(self) == *final(r),
    {
        self.spi_mode = three_wire;
        self
    }

    /// Overall timeout for the settling gate, in milliseconds.
    pub fn init_timeout_ms(&mut self, timeout_ms: u32) -> (r: &mut Self)
        ensures
            *r == (Config { init_timeout_ms: timeout_ms, ..*old(self) }),
            *final(self) == *final(r),
    {
        self.init_timeout_ms = timeout_ms;
        self
    }
}

impl Default for Config {
    /// The same defaults as `Config::new`.
    fn default() -> (r: Self)
        ensures
            r == Config::spec_new(),
    {
        Config::new()
    }
}

} // verus!
