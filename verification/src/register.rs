//! The sensor's fixed register-address table.

use vstd::prelude::*;

verus! {

/// A register of the sensor, by name.
#[allow(non_camel_case_types)]
#[derive(Clone, Copy, Debug, Eq, PartialEq, Structural)]
pub enum Register {
    PSR_B2,
    PSR_B1,
    PSR_B0,
    TMP_B2,
    TMP_B1,
    TMP_B0,
    PRS_CFG,
    TEMP_CFG,
    MEAS_CFG,
    CFG_REG,
    INT_STS,
    FIFO_STS,
    RESET,
    PROD_ID,
    COEFF_REG_1,
    COEFF_REG_2,
    COEFF_REG_3,
    COEFF_REG_4,
    COEFF_REG_5,
    COEFF_REG_6,
    COEFF_REG_7,
    COEFF_REG_8,
    COEFF_REG_9,
    COEFF_REG_10,
    COEFF_REG_11,
    COEFF_REG_12,
    COEFF_REG_13,
    COEFF_REG_14,
    COEFF_REG_15,
    COEFF_REG_16,
    COEFF_REG_17,
    COEFF_REG_18,
    TMP_COEF_SRCE,
}

impl Register {
    /// The bus address of this register.
    pub open spec fn spec_addr(self) -> u8 {
        match self {
            Register::PSR_B2 => 0x00,
            Register::PSR_B1 => 0x01,
            Register::PSR_B0 => 0x02,
            Register::TMP_B2 => 0x03,
            Register::TMP_B1 => 0x04,
            Register::TMP_B0 => 0x05,
            Register::PRS_CFG => 0x06,
            Register::TEMP_CFG => 0x07,
            Register::MEAS_CFG => 0x08,
            Register::CFG_REG => 0x09,
            Register::INT_STS => 0x0A,
            Register::FIFO_STS => 0x0B,
            Register::RESET => 0x0C,
            Register::PROD_ID => 0x0D,
            Register::COEFF_REG_1 => 0x10,
            Register::COEFF_REG_2 => 0x11,
            Register::COEFF_REG_3 => 0x12,
            Register::COEFF_REG_4 => 0x13,
            Register::COEFF_REG_5 => 0x14,
            Register::COEFF_REG_6 => 0x15,
            Register::COEFF_REG_7 => 0x16,
            Register::COEFF_REG_8 => 0x17,
            Register::COEFF_REG_9 => 0x18,
            Register::COEFF_REG_10 => 0x19,
            Register::COEFF_REG_11 => 0x1A,
            Register::COEFF_REG_12 => 0x1B,
            Register::COEFF_REG_13 => 0x1C,
            Register::COEFF_REG_14 => 0x1D,
            Register::COEFF_REG_15 => 0x1E,
            Register::COEFF_REG_16 => 0x1F,
            Register::COEFF_REG_17 => 0x20,
            Register::COEFF_REG_18 => 0x21,
            Register::TMP_COEF_SRCE => 0x28,
        }
    }

    /// The bus address of this register.
    #[verifier::when_used_as_spec(spec_addr)]
    pub fn addr(self) -> (r: u8)
        ensures
            r == self.spec_addr(),
    {
        match self {
            Register::PSR_B2 => 0x00,
            Register::PSR_B1 => 0x01,
            Register::PSR_B0 => 0x02,
            Register::TMP_B2 => 0x03,
            Register::TMP_B1 => 0x04,
            Register::TMP_B0 => 0x05,
            Register::PRS_CFG => 0x06,
            Register::TEMP_CFG => 0x07,
            Register::MEAS_CFG => 0x08,
            Register::CFG_REG => 0x09,
            Register::INT_STS => 0x0A,
            Register::FIFO_STS => 0x0B,
            Register::RESET => 0x0C,
            Register::PROD_ID => 0x0D,
            Register::COEFF_REG_1 => 0x10,
            Register::COEFF_REG_2 => 0x11,
            Register::COEFF_REG_3 => 0x12,
            Register::COEFF_REG_4 => 0x13,
            Register::COEFF_REG_5 => 0x14,
            Register::COEFF_REG_6 => 0x15,
            Register::COEFF_REG_7 => 0x16,
            Register::COEFF_REG_8 => 0x17,
            Register::COEFF_REG_9 => 0x18,
            Register::COEFF_REG_10 => 0x19,
            Register::COEFF_REG_11 => 0x1A,
            Register::COEFF_REG_12 => 0x1B,
            Register::COEFF_REG_13 => 0x1C,
            Register::COEFF_REG_14 => 0x1D,
            Register::COEFF_REG_15 => 0x1E,
            Register::COEFF_REG_16 => 0x1F,
            Register::COEFF_REG_17 => 0x20,
            Register::COEFF_REG_18 => 0x21,
            Register::TMP_COEF_SRCE => 0x28,
        }
    }
}

} // verus!
