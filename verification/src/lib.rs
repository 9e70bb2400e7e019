//! Driver core for a register-addressed barometric pressure and temperature
//! sensor reached over a byte-addressed serial bus.
//!
//! The crate models the sensor's lifecycle as consuming type-states
//! (constructed, settling, ready, calibrated), decodes the bit-packed signed
//! calibration coefficients, and states every register transaction the driver
//! issues as a contract over the bus's transaction log.

mod bus;
mod calibration;
mod config;
mod device;
mod device_internal;
mod register;

pub use bus::{Bus, BusOp};
pub use calibration::{
    read_raw_value, scale_factor, sign_extend_12, sign_extend_16, sign_extend_20, sign_extend_24,
    CalibrationCoefficients,
};
pub use config::{Config, PressureRate, PressureResolution, TemperatureRate, TemperatureResolution};
pub use device_internal::{
    calc_busy_time_ms, calc_busy_time_units, calc_total_wait_ms, cfg_reg_value, prs_cfg_value,
    tmp_cfg_value, BUSYTIME_FAILSAFE_MS, BUSYTIME_SCALING, MAX_BUSYTIME_UNITS,
};
pub use device::{
    check_product_id, Calibrated, Configured, DPS3xx, Error, InitInProgress, InitState,
    IsConfigured, MeasurementMode, RawReading, Status, Unconfigured, PRODUCT_ID,
    READY_POLL_LIMIT, RESET_MAGIC,
};
pub use register::Register;
