//! Busy-time arithmetic for the sensor's settling gate.
//!
//! A configuration or measurement change needs a minimum settling time before
//! the status flags are trustworthy.  The figure is derived from the measure
//! rate and the oversampling setting, in tenths of a millisecond.

use crate::config::{Config, PressureRate, PressureResolution, TemperatureRate,
    TemperatureResolution};
use vstd::prelude::*;

verus! {

/// Busy-time units per millisecond (the figures are in tenths of a millisecond).
pub const BUSYTIME_SCALING: u32 = 10;

/// Fixed failsafe margin added on top of the computed busy time.
pub const BUSYTIME_FAILSAFE_MS: u32 = 10;

/// Largest busy time, in tenths of a millisecond, that the settling gate accepts.
pub const MAX_BUSYTIME_UNITS: u32 = (1000 - BUSYTIME_FAILSAFE_MS) * BUSYTIME_SCALING;

/// Busy time in tenths of a millisecond for one measure-rate/oversampling pair.
pub open spec fn busy_time_units(measure_rate: u8, oversampling: u8) -> u32
    recommends
        measure_rate <= 7,
        oversampling <= 7,
{
    ((20u32 << measure_rate) + (16u32 << ((oversampling + measure_rate) as u8))) as u32
}

/// Minimum settling time, in tenths of a millisecond, after a configuration or
/// measurement change with the given measure rate and oversampling setting.
pub fn calc_busy_time_units(measure_rate: u8, oversampling: u8) -> (r: u32)
    requires
        measure_rate <= 7,
        oversampling <= 7,
    ensures
        r == busy_time_units(measure_rate, oversampling),
        r == (20u32 << measure_rate) + (16u32 << ((oversampling + measure_rate) as u8)),
        r <= 264704,
{
    proof {
        assert((20u32 << measure_rate) + (16u32 << ((oversampling + measure_rate) as u8))
            <= 264704 && (20u32 << measure_rate) as int + (16u32 << ((oversampling
            + measure_rate) as u8)) as int == ((20u32 << measure_rate) + (16u32 << ((oversampling
            + measure_rate) as u8))) as int) by (bit_vector)
            requires
                measure_rate <= 7,
                oversampling <= 7,
        ;
    }
    (20u32 << measure_rate) + (16u32 << (oversampling + measure_rate))
}

/// The same settling time rounded down to whole milliseconds.
pub fn calc_busy_time_ms(measure_rate: u8, oversampling: u8) -> (r: u32)
    requires
        measure_rate <= 7,
        oversampling <= 7,
    ensures
        r == busy_time_units(measure_rate, oversampling) / BUSYTIME_SCALING,
        r <= 26470,
{
    calc_busy_time_units(measure_rate, oversampling) / BUSYTIME_SCALING
}

/// Settling time in whole milliseconds plus the fixed failsafe margin.
pub fn calc_total_wait_ms(measure_rate: u8, oversampling: u8) -> (r: u32)
    requires
        measure_rate <= 7,
        oversampling <= 7,
    ensures
        r == busy_time_units(measure_rate, oversampling) / BUSYTIME_SCALING
            + BUSYTIME_FAILSAFE_MS,
        r <= 26480,
{
    calc_busy_time_ms(measure_rate, oversampling) + BUSYTIME_FAILSAFE_MS
}

/// The configured pressure rate, or the lowest one where the selector is unset.
pub open spec fn pres_rate_or_default(config: Config) -> PressureRate {
    match config.pres_rate {
        Some(rate) => rate,
        None => PressureRate::_1_SPS,
    }
}

/// The configured pressure resolution, or the lowest one where the selector is unset.
pub open spec fn pres_res_or_default(config: Config) -> PressureResolution {
    match config.pres_res {
        Some(res) => res,
        None => PressureResolution::_1_SAMPLES,
    }
}

/// The configured temperature rate, or the lowest one where the selector is unset.
pub open spec fn temp_rate_or_default(config: Config) -> TemperatureRate {
    match config.temp_rate {
        Some(rate) => rate,
        None => TemperatureRate::_1_SPS,
    }
}

/// The configured temperature resolution, or the lowest one where the selector is unset.
pub open spec fn temp_res_or_default(config: Config) -> TemperatureResolution {
    match config.temp_res {
        Some(res) => res,
        None => TemperatureResolution::_1_SAMPLES,
    }
}

/// The pressure-configuration register byte derived from `config`: reserved
/// bit 7 kept from `current`, rate in bits 6..4, resolution in bits 2..0.
pub open spec fn prs_cfg_byte(current: u8, config: Config) -> u8 {
    ((current & 0x80) | (pres_rate_or_default(config).spec_val() << 4u8)) | pres_res_or_default(
        config,
    ).spec_val()
}

/// New pressure-configuration register value from the current byte and the
/// configuration.
pub fn prs_cfg_value(current: u8, config: &Config) -> (r: u8)
    ensures
        r == prs_cfg_byte(current, *config),
{
    let rate: u8 = match config.pres_rate {
        Some(rate) => rate,
        None => PressureRate::_1_SPS,
    }.val();
    let res: u8 = match config.pres_res {
        Some(res) => res,
        None => PressureResolution::_1_SAMPLES,
    }.val();
    (current & 0x80) | (rate << 4u8) | res
}

/// The external-sensor bit (bit 7) of the temperature-configuration register:
/// from the configuration if set, else from the device-reported coefficient
/// source, else preserved from the current byte.
pub open spec fn tmp_ext_bit(current: u8, config: Config, coef_source: Option<bool>) -> u8 {
    match (if config.temp_ext is Some {
        config.temp_ext
    } else {
        coef_source
    }) {
        Some(external) => if external {
            0x80
        } else {
            0x00
        },
        None => current & 0x80,
    }
}

/// The temperature-configuration register byte derived from `config`:
/// external-sensor bit 7, rate in bits 6..4, resolution in bits 2..0.
pub open spec fn tmp_cfg_byte(current: u8, config: Config, coef_source: Option<bool>) -> u8 {
    (tmp_ext_bit(current, config, coef_source) | (temp_rate_or_default(config).spec_val()
        << 4u8)) | temp_res_or_default(config).spec_val()
}

/// New temperature-configuration register value from the current byte, the
/// configuration, and the coefficient-source bit read at initialization.
pub fn tmp_cfg_value(current: u8, config: &Config, coef_source: Option<bool>) -> (r: u8)
    ensures
        r == tmp_cfg_byte(current, *config, coef_source),
{
    let temp_ext: Option<bool> = match config.temp_ext {
        Some(external) => Some(external),
        None => coef_source,
    };
    let ext_bit: u8 = match temp_ext {
        Some(external) => if external {
            0x80
        } else {
            0x00
        },
        None => current & 0x80,
    };
    let rate: u8 = match config.temp_rate {
        Some(rate) => rate,
        None => TemperatureRate::_1_SPS,
    }.val();
    let res: u8 = match config.temp_res {
        Some(res) => res,
        None => TemperatureResolution::_1_SAMPLES,
    }.val();
    ext_bit | (rate << 4u8) | res
}

/// The feature-configuration register byte: interrupt polarity and sources in
/// bits 7..4, the two forced-shift flags in bits 3..2, FIFO enable in bit 1,
/// wire mode in bit 0.
pub open spec fn cfg_reg_byte(config: Config, temp_shift: bool, pres_shift: bool) -> u8 {
    (if config.int_hl {
        0x80u8
    } else {
        0
    }) | (if config.int_fifo {
        0x40u8
    } else {
        0
    }) | (if config.int_temp {
        0x20u8
    } else {
        0
    }) | (if config.int_pres {
        0x10u8
    } else {
        0
    }) | (if temp_shift {
        0x08u8
    } else {
        0
    }) | (if pres_shift {
        0x04u8
    } else {
        0
    }) | (if config.fifo_enable {
        0x02u8
    } else {
        0
    }) | (if config.spi_mode {
        0x01u8
    } else {
        0
    })
}

/// Feature-configuration register value packed from the configuration's flags
/// and the two resolved shift flags.
pub fn cfg_reg_value(config: &Config, temp_shift: bool, pres_shift: bool) -> (r: u8)
    ensures
        r == cfg_reg_byte(*config, temp_shift, pres_shift),
{
    let int_hl: u8 = if config.int_hl { 0x80 } else { 0 };
    let int_fifo: u8 = if config.int_fifo { 0x40 } else { 0 };
    let int_temp: u8 = if config.int_temp { 0x20 } else { 0 };
    let int_pres: u8 = if config.int_pres { 0x10 } else { 0 };
    let t_shift: u8 = if temp_shift { 0x08 } else { 0 };
    let p_shift: u8 = if pres_shift { 0x04 } else { 0 };
    let fifo_en: u8 = if config.fifo_enable { 0x02 } else { 0 };
    let wire: u8 = if config.spi_mode { 0x01 } else { 0 };
    int_hl | int_fifo | int_temp | int_pres | t_shift | p_shift | fifo_en | wire
}

} // verus!
