use dps3xx::{calc_busy_time_ms, calc_busy_time_units, calc_total_wait_ms, cfg_reg_value,
    prs_cfg_value, tmp_cfg_value, Config, MeasurementMode, PressureRate, PressureResolution,
    Register, Status, TemperatureRate, TemperatureResolution, BUSYTIME_FAILSAFE_MS,
    BUSYTIME_SCALING, MAX_BUSYTIME_UNITS, PRODUCT_ID, RESET_MAGIC};

#[test]
fn test_busy_time_formula() {
    // (20 << rate) + (16 << (oversampling + rate)), in tenths of a millisecond
    for rate in 0u8..=7 {
        for oversampling in 0u8..=7 {
            assert_eq!(
                calc_busy_time_units(rate, oversampling),
                (20u32 << rate) + (16u32 << (oversampling + rate))
            );
        }
    }
    assert_eq!(calc_busy_time_units(0, 0), 36);
    assert_eq!(calc_busy_time_units(7, 7), 264704);
    assert_eq!(calc_busy_time_ms(0, 0), 3);
    assert_eq!(calc_busy_time_ms(2, 3), 59);
    assert_eq!(calc_total_wait_ms(0, 0), 13);
    assert_eq!(calc_total_wait_ms(7, 7), 26470 + 10);
}

#[test]
fn test_busy_time_constants() {
    assert_eq!(BUSYTIME_SCALING, 10);
    assert_eq!(BUSYTIME_FAILSAFE_MS, 10);
    assert_eq!(MAX_BUSYTIME_UNITS, 9900);
    assert_eq!(PRODUCT_ID, 0x10);
    assert_eq!(RESET_MAGIC, 0x89);
}

#[test]
fn test_prs_cfg_value_packing() {
    let mut config = Config::new();
    config.pres_rate(PressureRate::_16_SPS).pres_res(PressureResolution::_8_SAMPLES);
    // reserved bit 7 preserved from the current byte, rate in 6..4, resolution in 2..0
    assert_eq!(prs_cfg_value(0x80, &config), 0x80 | (0b100 << 4) | 0b011);
    assert_eq!(prs_cfg_value(0x7F, &config), (0b100 << 4) | 0b011);
    // unset selectors fall back to the lowest setting
    assert_eq!(prs_cfg_value(0x00, &Config::new()), 0x00);
}

#[test]
fn test_tmp_cfg_value_external_bit_priority() {
    // the configured flag wins over the device-reported coefficient source
    let mut config = Config::new();
    config.temp_external(false).temp_rate(TemperatureRate::_2_SPS).temp_res(
        TemperatureResolution::_4_SAMPLES,
    );
    assert_eq!(tmp_cfg_value(0x80, &config, Some(true)), (0b001 << 4) | 0b010);
    // with no configured flag the coefficient source decides
    let mut config = Config::new();
    config.temp_rate(TemperatureRate::_2_SPS).temp_res(TemperatureResolution::_4_SAMPLES);
    assert_eq!(tmp_cfg_value(0x00, &config, Some(true)), 0x80 | (0b001 << 4) | 0b010);
    assert_eq!(tmp_cfg_value(0x80, &config, Some(false)), (0b001 << 4) | 0b010);
    // with neither, bit 7 of the current byte is preserved
    assert_eq!(tmp_cfg_value(0x80, &config, None), 0x80 | (0b001 << 4) | 0b010);
    assert_eq!(tmp_cfg_value(0x00, &config, None), (0b001 << 4) | 0b010);
}

#[test]
fn test_cfg_reg_value_packing() {
    assert_eq!(cfg_reg_value(&Config::new(), false, false), 0x00);
    let mut config = Config::new();
    config.int_hl(true).int_fifo(true).int_temp(true).int_pres(true).fifo(true, true).spi_mode(
        true,
    );
    assert_eq!(cfg_reg_value(&config, true, true), 0xFF);
    let mut config = Config::new();
    config.int_hl(true).spi_mode(true);
    assert_eq!(cfg_reg_value(&config, false, true), 0x80 | 0x04 | 0x01);
}

#[test]
fn test_register_addresses() {
    assert_eq!(Register::PSR_B2.addr(), 0x00);
    assert_eq!(Register::TMP_B2.addr(), 0x03);
    assert_eq!(Register::PRS_CFG.addr(), 0x06);
    assert_eq!(Register::TEMP_CFG.addr(), 0x07);
    assert_eq!(Register::MEAS_CFG.addr(), 0x08);
    assert_eq!(Register::CFG_REG.addr(), 0x09);
    assert_eq!(Register::RESET.addr(), 0x0C);
    assert_eq!(Register::PROD_ID.addr(), 0x0D);
    assert_eq!(Register::COEFF_REG_1.addr(), 0x10);
    assert_eq!(Register::COEFF_REG_18.addr(), 0x21);
    assert_eq!(Register::TMP_COEF_SRCE.addr(), 0x28);
}

#[test]
fn test_status_flag_bits() {
    let status = Status::from_byte(0xF0);
    assert!(status.coef_ready);
    assert!(status.init_complete);
    assert!(status.temp_ready);
    assert!(status.pres_ready);
    let status = Status::from_byte(0x90);
    assert!(status.coef_ready);
    assert!(!status.init_complete);
    assert!(!status.temp_ready);
    assert!(status.pres_ready);
    let status = Status::from_byte(0x0F);
    assert!(!status.coef_ready);
    assert!(!status.init_complete);
    assert!(!status.temp_ready);
    assert!(!status.pres_ready);
}

#[test]
fn test_measurement_mode_values() {
    assert_eq!(MeasurementMode::Idle.val(), 0b000);
    assert_eq!(MeasurementMode::SinglePressure.val(), 0b001);
    assert_eq!(MeasurementMode::SingleTemperature.val(), 0b010);
    assert_eq!(MeasurementMode::ContinuousPressure.val(), 0b101);
    assert_eq!(MeasurementMode::ContinuousTemperature.val(), 0b110);
    assert_eq!(MeasurementMode::ContinuousPressureAndTemperature.val(), 0b111);
    assert_eq!(
        MeasurementMode::from_flags(false, false, false),
        Some(MeasurementMode::Idle)
    );
    assert_eq!(
        MeasurementMode::from_flags(true, false, false),
        Some(MeasurementMode::SingleTemperature)
    );
    assert_eq!(
        MeasurementMode::from_flags(false, true, false),
        Some(MeasurementMode::SinglePressure)
    );
    assert_eq!(MeasurementMode::from_flags(true, true, false), None);
    assert_eq!(
        MeasurementMode::from_flags(true, true, true),
        Some(MeasurementMode::ContinuousPressureAndTemperature)
    );
}
