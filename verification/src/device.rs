//! The device state machine.
//!
//! A handle owns its bus, the device address and the configuration, and moves
//! strictly forward through consuming type-states: construction configures
//! the registers and runs the erratum workaround, the settling gate arms and
//! elapses without bus traffic, and only a calibrated handle exposes the raw
//! measurement reads.  `reset` is the one way back.  Every operation's
//! contract states the register traffic it issues over the bus's transaction
//! log.

use crate::bus::{Bus, BusOp};
use crate::calibration::{decoded, lemma_reading_bounds, read_raw_value, reading_bits,
    scale_factor, sign_extended, spec_scale_factor, CalibrationCoefficients};
use crate::config::{Config, PressureResolution, TemperatureResolution};
use crate::device_internal::{busy_time_units, calc_busy_time_units, cfg_reg_byte, cfg_reg_value,
    pres_rate_or_default, pres_res_or_default, prs_cfg_byte, prs_cfg_value, temp_rate_or_default,
    temp_res_or_default, tmp_cfg_byte, tmp_cfg_value, BUSYTIME_FAILSAFE_MS, BUSYTIME_SCALING,
    MAX_BUSYTIME_UNITS};
use crate::register::Register;
use vstd::prelude::*;

verus! {

/// The value the product-ID register must hold.
pub const PRODUCT_ID: u8 = 0x10;

/// The byte written to the reset register to soft-reset the sensor.
pub const RESET_MAGIC: u8 = 0x89;

/// Most reads of the mode/status register the construction poll may attempt
/// before it gives up.
pub const READY_POLL_LIMIT: u32 = 8;

/// A driver error.
#[derive(Debug)]
pub enum Error<E> {
    /// The product-ID register held something other than the documented ID.
    WrongDevice,
    /// A transport failure, propagated unchanged.
    Bus(E),
    /// The settling gate or the construction poll exceeded its bound.
    InitTimeout,
    /// A statically detectable configuration inconsistency.
    InvalidConfig,
}

/// Type-state: constructed and configured; the settling gate has not run.
pub struct Unconfigured;

/// Type-state: the settling gate is armed.
pub struct InitInProgress {
    start_ms: u32,
    wait_ms: u32,
}

/// Type-state: the settling gate has elapsed; the sensor is ready.
pub struct Configured;

/// Type-state: the calibration coefficients are loaded.
pub struct Calibrated {
    coef: CalibrationCoefficients,
}

/// States in which the sensor's registers hold the applied configuration and
/// measurement and status operations are available.
pub trait IsConfigured {
}

impl IsConfigured for Configured {
}

impl IsConfigured for Calibrated {
}

/// Whether a resolution above eight samples is selected without its matching
/// forced-shift flag: an invalid configuration, rejected before any traffic
/// rather than silently overridden.
pub open spec fn shift_flags_invalid(config: Config) -> bool {
    ||| pres_res_or_default(config).spec_val() > 3 && !config.pres_shift
    ||| temp_res_or_default(config).spec_val() > 3 && !config.temp_shift
}

/// The busy time of the pressure and the temperature settings combined, in
/// tenths of a millisecond.
pub open spec fn total_busy_units(config: Config) -> u32 {
    (busy_time_units(pres_rate_or_default(config).spec_val(), pres_res_or_default(config).spec_val())
        + busy_time_units(
        temp_rate_or_default(config).spec_val(),
        temp_res_or_default(config).spec_val(),
    )) as u32
}

/// The settling wait: the combined busy time in whole milliseconds plus the
/// fixed failsafe margin.
pub open spec fn settling_wait_ms(config: Config) -> u32 {
    (total_busy_units(config) / BUSYTIME_SCALING + BUSYTIME_FAILSAFE_MS) as u32
}

/// Whether `op` is a one-byte read of the mode/status register at `address`.
pub open spec fn is_meas_cfg_read(address: u8, op: BusOp) -> bool {
    &&& op matches BusOp::Read1 { address: a, reg, data: _ }
    &&& a == address
    &&& reg == Register::MEAS_CFG.spec_addr()
}

/// Whether the read succeeded and returned a byte with the temperature-ready
/// bit (bit 5) set.
pub open spec fn read_saw_temp_ready(op: BusOp) -> bool {
    &&& op matches BusOp::Read1 { data: Some(v), .. }
    &&& v & 0x20 != 0
}

/// A construction poll segment: one to `READY_POLL_LIMIT` reads of the
/// mode/status register, every one but the last failed or without the
/// temperature-ready bit, the last with it.
pub open spec fn ready_poll_ops(address: u8, ops: Seq<BusOp>) -> bool {
    &&& 1 <= ops.len() <= READY_POLL_LIMIT
    &&& forall|i: int| 0 <= i < ops.len() ==> is_meas_cfg_read(address, #[trigger] ops[i])
    &&& forall|i: int| 0 <= i < ops.len() - 1 ==> !read_saw_temp_ready(#[trigger] ops[i])
    &&& read_saw_temp_ready(ops[ops.len() - 1])
}

/// The transactions a successful construction issues after the ID check, in
/// order: configure the pressure, temperature and feature registers, set the
/// mode register to idle, run the two-scratch-register erratum workaround,
/// and trigger one temperature measurement.
pub open spec fn construct_setup_ops(
    address: u8,
    config: Config,
    prs_current: u8,
    tmp_current: u8,
    coef_srce: u8,
    meas: u8,
) -> Seq<BusOp> {
    seq![
        (BusOp::Read1 { address, reg: Register::PRS_CFG.spec_addr(), data: Some(prs_current) }),
        (BusOp::Write {
            address,
            reg: Register::PRS_CFG.spec_addr(),
            value: prs_cfg_byte(prs_current, config),
        }),
        (BusOp::Read1 { address, reg: Register::TEMP_CFG.spec_addr(), data: Some(tmp_current) }),
        (BusOp::Read1 {
            address,
            reg: Register::TMP_COEF_SRCE.spec_addr(),
            data: Some(coef_srce),
        }),
        (BusOp::Write {
            address,
            reg: Register::TEMP_CFG.spec_addr(),
            value: tmp_cfg_byte(tmp_current, config, Some((coef_srce & 0x80) != 0)),
        }),
        (BusOp::Write {
            address,
            reg: Register::CFG_REG.spec_addr(),
            value: cfg_reg_byte(config, config.temp_shift, config.pres_shift),
        }),
        (BusOp::Write { address, reg: Register::MEAS_CFG.spec_addr(), value: 0x00 }),
        (BusOp::Write { address, reg: 0x0E, value: 0xA5 }),
        (BusOp::Write { address, reg: 0x0F, value: 0x96 }),
        (BusOp::Write { address, reg: 0x62, value: 0x02 }),
        (BusOp::Write { address, reg: 0x0E, value: 0x00 }),
        (BusOp::Write { address, reg: 0x0F, value: 0x00 }),
        (BusOp::Read1 { address, reg: Register::MEAS_CFG.spec_addr(), data: Some(meas) }),
        (BusOp::Write {
            address,
            reg: Register::MEAS_CFG.spec_addr(),
            value: (meas & 0xF8) | 0x02,
        }),
    ]
}

/// All the transactions of one successful construction: the ID check, the
/// setup, the readiness poll, one discarded raw temperature, mode back to
/// idle.
pub open spec fn construction_ops(
    address: u8,
    config: Config,
    prs_current: u8,
    tmp_current: u8,
    coef_srce: u8,
    meas: u8,
    poll: Seq<BusOp>,
    raw: [u8; 3],
) -> Seq<BusOp> {
    seq![
        (BusOp::Read1 { address, reg: Register::PROD_ID.spec_addr(), data: Some(PRODUCT_ID) }),
    ] + construct_setup_ops(address, config, prs_current, tmp_current, coef_srce, meas) + poll
        + seq![
        (BusOp::Read3 { address, reg: Register::TMP_B2.spec_addr(), data: Some(raw) }),
        (BusOp::Write { address, reg: Register::MEAS_CFG.spec_addr(), value: 0x00 }),
    ]
}

/// Whether `log1` extends `log0` by exactly the traffic of one successful
/// construction at `address` under `config`.
pub open spec fn constructed_log(
    log0: Seq<BusOp>,
    log1: Seq<BusOp>,
    address: u8,
    config: Config,
) -> bool {
    exists|
        prs_current: u8,
        tmp_current: u8,
        coef_srce: u8,
        meas: u8,
        poll: Seq<BusOp>,
        raw: [u8; 3],
    |
        ready_poll_ops(address, poll) && log1 == log0 + #[trigger] construction_ops(
            address,
            config,
            prs_current,
            tmp_current,
            coef_srce,
            meas,
            poll,
            raw,
        )
}

/// The three-bit mode-register field for a measurement request, or nothing
/// where the combination is invalid: a single pressure and a single
/// temperature measurement cannot be requested together without background
/// mode.
pub open spec fn requested_mode(temperature: bool, pressure: bool, background: bool) -> Option<
    u8,
> {
    if temperature && pressure && !background {
        None
    } else if !temperature && !pressure {
        Some(0x00u8)
    } else if pressure && !temperature && !background {
        Some(0x01u8)
    } else if temperature && !pressure && !background {
        Some(0x02u8)
    } else if pressure && !temperature {
        Some(0x05u8)
    } else if temperature && !pressure {
        Some(0x06u8)
    } else {
        Some(0x07u8)
    }
}

/// The traffic of one raw temperature read: the temperature configuration,
/// then the three raw bytes.
pub open spec fn temp_read_ops(address: u8, cfg: u8, bytes: [u8; 3]) -> Seq<BusOp> {
    seq![
        (BusOp::Read1 { address, reg: Register::TEMP_CFG.spec_addr(), data: Some(cfg) }),
        (BusOp::Read3 { address, reg: Register::TMP_B2.spec_addr(), data: Some(bytes) }),
    ]
}

/// The traffic of one raw pressure read: the pressure configuration and raw
/// bytes, then the temperature configuration and raw bytes the compensation
/// also needs.
pub open spec fn pressure_read_ops(
    address: u8,
    prs_cfg: u8,
    prs_bytes: [u8; 3],
    tmp_cfg: u8,
    tmp_bytes: [u8; 3],
) -> Seq<BusOp> {
    seq![
        (BusOp::Read1 { address, reg: Register::PRS_CFG.spec_addr(), data: Some(prs_cfg) }),
        (BusOp::Read3 { address, reg: Register::PSR_B2.spec_addr(), data: Some(prs_bytes) }),
        (BusOp::Read1 { address, reg: Register::TEMP_CFG.spec_addr(), data: Some(tmp_cfg) }),
        (BusOp::Read3 { address, reg: Register::TMP_B2.spec_addr(), data: Some(tmp_bytes) }),
    ]
}

/// A measurement mode of the sensor, as written to the three-bit mode field.
#[derive(Clone, Copy, Debug, Eq, PartialEq, Structural)]
pub enum MeasurementMode {
    Idle,
    SinglePressure,
    SingleTemperature,
    ContinuousPressure,
    ContinuousTemperature,
    ContinuousPressureAndTemperature,
}

impl MeasurementMode {
    /// The three-bit mode-register value of this mode.
    pub open spec fn spec_val(self) -> u8 {
        match self {
            MeasurementMode::Idle => 0x00,
            MeasurementMode::SinglePressure => 0x01,
            MeasurementMode::SingleTemperature => 0x02,
            MeasurementMode::ContinuousPressure => 0x05,
            MeasurementMode::ContinuousTemperature => 0x06,
            MeasurementMode::ContinuousPressureAndTemperature => 0x07,
        }
    }

    /// The three-bit mode-register value of this mode.
    #[verifier::when_used_as_spec(spec_val)]
    pub fn val(self) -> (r: u8)
        ensures
            r == self.spec_val(),
            r <= 7,
    {
        match self {
            MeasurementMode::Idle => 0x00,
            MeasurementMode::SinglePressure => 0x01,
            MeasurementMode::SingleTemperature => 0x02,
            MeasurementMode::ContinuousPressure => 0x05,
            MeasurementMode::ContinuousTemperature => 0x06,
            MeasurementMode::ContinuousPressureAndTemperature => 0x07,
        }
    }

    /// The mode a measurement request selects, or nothing where the request
    /// asks for a single pressure and a single temperature measurement at
    /// once without background mode.
    pub fn from_flags(temperature: bool, pressure: bool, background: bool) -> (r: Option<
        MeasurementMode,
    >)
        ensures
            r is Some <==> requested_mode(temperature, pressure, background) is Some,
            r matches Some(m) ==> requested_mode(temperature, pressure, background) == Some(
                m.spec_val(),
            ),
    {
        match (temperature, pressure, background) {
            (true, true, false) => None,
            (false, false, _) => Some(MeasurementMode::Idle),
            (false, true, false) => Some(MeasurementMode::SinglePressure),
            (true, false, false) => Some(MeasurementMode::SingleTemperature),
            (false, true, true) => Some(MeasurementMode::ContinuousPressure),
            (true, false, true) => Some(MeasurementMode::ContinuousTemperature),
            (true, true, true) => Some(MeasurementMode::ContinuousPressureAndTemperature),
        }
    }
}

/// The four readiness flags of the mode/status register.
#[derive(Clone, Copy, Debug, Eq, PartialEq, Structural)]
pub struct Status {
    pub coef_ready: bool,
    pub init_complete: bool,
    pub temp_ready: bool,
    pub pres_ready: bool,
}

impl Status {
    /// The flags held in one status byte: bits 7, 6, 5 and 4.
    pub open spec fn of_byte(v: u8) -> Status {
        Status {
            coef_ready: v & 0x80 != 0,
            init_complete: v & 0x40 != 0,
            temp_ready: v & 0x20 != 0,
            pres_ready: v & 0x10 != 0,
        }
    }

    /// Decodes one status byte into its four readiness flags.
    pub fn from_byte(v: u8) -> (r: Status)
        ensures
            r == Status::of_byte(v),
    {
        Status {
            coef_ready: v & 0x80 != 0,
            init_complete: v & 0x40 != 0,
            temp_ready: v & 0x20 != 0,
            pres_ready: v & 0x10 != 0,
        }
    }
}

/// One raw 24-bit sensor reading, sign-extended, with the scale factor its
/// oversampling setting selects.
#[derive(Clone, Copy, Debug, Eq, PartialEq, Structural)]
pub struct RawReading {
    pub raw: i32,
    pub scale: u32,
}

/// The settling gate's answer: either the sensor is ready, or the same handle
/// comes back for the caller to retry.
pub enum InitState<B: Bus> {
    Ready(DPS3xx<B, Configured>),
    InProgress(DPS3xx<B, InitInProgress>),
}

/// A handle on one sensor, in the type-state `S`.
pub struct DPS3xx<B: Bus, S> {
    bus: B,
    address: u8,
    config: Config,
    state: S,
}

impl<B: Bus, S> DPS3xx<B, S> {
    /// The bus transaction log, as this handle's contracts see it.
    pub closed spec fn log(&self) -> Seq<BusOp> {
        self.bus.log()
    }

    /// The device address this handle talks to.
    pub closed spec fn address(&self) -> u8 {
        self.address
    }

    /// The configuration the device was constructed with.
    pub closed spec fn configuration(&self) -> Config {
        self.config
    }

    /// The state value of this handle's type-state.
    pub closed spec fn phase(&self) -> S {
        self.state
    }

    /// Gives the bus back, abandoning the device.
    pub fn release(self) -> (r: B)
        ensures
            r.log() == self.log(),
    {
        self.bus
    }

    /// Soft-resets the sensor: exactly one write of the documented magic byte
    /// to the reset register.  All progress is discarded; the returned handle
    /// still owns the bus and the configuration and can only re-run the
    /// settling gate or be released.
    pub fn reset(self) -> (r: Result<DPS3xx<B, Unconfigured>, Error<B::Fault>>)
        ensures
            r matches Ok(d) ==> d.log() == self.log().push(
                (BusOp::Write {
                    address: self.address(),
                    reg: Register::RESET.spec_addr(),
                    value: RESET_MAGIC,
                }),
            ) && d.address() == self.address() && d.configuration() == self.configuration(),
            r is Err ==> r matches Err(Error::Bus(_)),
    {
        let DPS3xx { mut bus, address, config, state: _ } = self;
        match bus.write_byte(address, Register::RESET.addr(), RESET_MAGIC) {
            Ok(()) => Ok(DPS3xx { bus, address, config, state: Unconfigured }),
            Err(e) => Err(Error::Bus(e)),
        }
    }
}

/// Reads the product-ID register of the device at `address` and holds it
/// against the documented ID.
///
/// Exactly one read and no write is issued, whatever the outcome: any value
/// other than the documented ID fails with `WrongDevice` with no further
/// traffic, and a transport failure is propagated unchanged.
pub fn check_product_id<B: Bus>(bus: &mut B, address: u8) -> (r: Result<(), Error<B::Fault>>)
    ensures
        r is Ok ==> final(bus).log() == old(bus).log().push(
            (BusOp::Read1 {
                address,
                reg: Register::PROD_ID.spec_addr(),
                data: Some(PRODUCT_ID),
            }),
        ),
        r matches Err(Error::WrongDevice) ==> exists|v: u8|
            v != PRODUCT_ID && final(bus).log() == old(bus).log().push(
                (BusOp::Read1 { address, reg: Register::PROD_ID.spec_addr(), data: Some(v) }),
            ),
        r matches Err(Error::Bus(_)) ==> final(bus).log() == old(bus).log().push(
            (BusOp::Read1 { address, reg: Register::PROD_ID.spec_addr(), data: None }),
        ),
        r is Err ==> (r matches Err(Error::WrongDevice) || r matches Err(Error::Bus(_))),
{
    match bus.read_byte(address, Register::PROD_ID.addr()) {
        Ok(v) => if v == PRODUCT_ID {
            Ok(())
        } else {
            Err(Error::WrongDevice)
        },
        Err(e) => Err(Error::Bus(e)),
    }
}

impl<B: Bus> DPS3xx<B, Unconfigured> {
    /// Constructs a device handle over `bus`, bringing the sensor at
    /// `address` through the documented initialization sequence.
    ///
    /// An inconsistent configuration is rejected before any bus traffic; a
    /// product-ID mismatch fails with `WrongDevice` after the ID read alone,
    /// with no write issued.  On success the traffic is exactly the
    /// documented sequence: ID check, configuration, erratum workaround, and
    /// one bounded temperature-readiness poll whose raw result is discarded.
    pub fn new(bus: B, address: u8, config: &Config) -> (r: Result<
        DPS3xx<B, Unconfigured>,
        Error<B::Fault>,
    >)
        ensures
            shift_flags_invalid(*config) <==> r matches Err(Error::InvalidConfig),
            r matches Ok(d) ==> {
                &&& d.address() == address
                &&& d.configuration() == *config
                &&& constructed_log(bus.log(), d.log(), address, *config)
            },
    {
        let pres_res: PressureResolution = match config.pres_res {
            Some(res) => res,
            None => PressureResolution::_1_SAMPLES,
        };
        let temp_res: TemperatureResolution = match config.temp_res {
            Some(res) => res,
            None => TemperatureResolution::_1_SAMPLES,
        };
        if (pres_res.val() > 3 && !config.pres_shift) || (temp_res.val() > 3
            && !config.temp_shift) {
            return Err(Error::InvalidConfig);
        }
        let mut bus = bus;
        let ghost log0 = bus.log();
        match check_product_id(&mut bus, address) {
            Ok(()) => (),
            Err(e) => { return Err(e) },
        }
        let prs_current: u8 = match bus.read_byte(address, Register::PRS_CFG.addr()) {
            Ok(v) => v,
            Err(e) => { return Err(Error::Bus(e)) },
        };
        match bus.write_byte(address, Register::PRS_CFG.addr(), prs_cfg_value(prs_current, config)) {
            Ok(()) => (),
            Err(e) => { return Err(Error::Bus(e)) },
        }
        let tmp_current: u8 = match bus.read_byte(address, Register::TEMP_CFG.addr()) {
            Ok(v) => v,
            Err(e) => { return Err(Error::Bus(e)) },
        };
        let coef_srce: u8 = match bus.read_byte(address, Register::TMP_COEF_SRCE.addr()) {
            Ok(v) => v,
            Err(e) => { return Err(Error::Bus(e)) },
        };
        let tmp_value: u8 = tmp_cfg_value(tmp_current, config, Some((coef_srce & 0x80) != 0));
        match bus.write_byte(address, Register::TEMP_CFG.addr(), tmp_value) {
            Ok(()) => (),
            Err(e) => { return Err(Error::Bus(e)) },
        }
        let cfg_value: u8 = cfg_reg_value(config, config.temp_shift, config.pres_shift);
        match bus.write_byte(address, Register::CFG_REG.addr(), cfg_value) {
            Ok(()) => (),
            Err(e) => { return Err(Error::Bus(e)) },
        }
        match bus.write_byte(address, Register::MEAS_CFG.addr(), 0x00) {
            Ok(()) => (),
            Err(e) => { return Err(Error::Bus(e)) },
        }
        // the erratum workaround: fixed magic bytes to two undocumented
        // scratch registers and one trigger register, then both cleared
        match bus.write_byte(address, 0x0E, 0xA5) {
            Ok(()) => (),
            Err(e) => { return Err(Error::Bus(e)) },
        }
        match bus.write_byte(address, 0x0F, 0x96) {
            Ok(()) => (),
            Err(e) => { return Err(Error::Bus(e)) },
        }
        match bus.write_byte(address, 0x62, 0x02) {
            Ok(()) => (),
            Err(e) => { return Err(Error::Bus(e)) },
        }
        match bus.write_byte(address, 0x0E, 0x00) {
            Ok(()) => (),
            Err(e) => { return Err(Error::Bus(e)) },
        }
        match bus.write_byte(address, 0x0F, 0x00) {
            Ok(()) => (),
            Err(e) => { return Err(Error::Bus(e)) },
        }
        // trigger one single temperature measurement
        let meas: u8 = match bus.read_byte(address, Register::MEAS_CFG.addr()) {
            Ok(v) => v,
            Err(e) => { return Err(Error::Bus(e)) },
        };
        match bus.write_byte(address, Register::MEAS_CFG.addr(), (meas & 0xF8) | 0x02) {
            Ok(()) => (),
            Err(e) => { return Err(Error::Bus(e)) },
        }
        // bounded readiness poll; transport failures here are retried within
        // the same bound
        let ghost log_mid = bus.log();
        let ghost mut poll = Seq::<BusOp>::empty();
        let mut tries: u32 = 0;
        let mut ready: bool = false;
        while !ready && tries < READY_POLL_LIMIT
            invariant
                bus.log() == log_mid + poll,
                poll.len() == tries,
                tries <= READY_POLL_LIMIT,
                forall|i: int| 0 <= i < poll.len() ==> is_meas_cfg_read(address, #[trigger] poll[i]),
                !ready ==> forall|i: int|
                    0 <= i < poll.len() ==> !read_saw_temp_ready(#[trigger] poll[i]),
                ready ==> poll.len() >= 1 && (forall|i: int|
                    0 <= i < poll.len() - 1 ==> !read_saw_temp_ready(#[trigger] poll[i]))
                    && read_saw_temp_ready(poll[poll.len() - 1]),
            decreases READY_POLL_LIMIT - tries,
        {
            let res = bus.read_byte(address, Register::MEAS_CFG.addr());
            proof {
                poll = poll.push(
                    BusOp::Read1 {
                        address,
                        reg: Register::MEAS_CFG.spec_addr(),
                        data: match res {
                            Ok(v) => Some(v),
                            Err(_) => None,
                        },
                    },
                );
            }
            match res {
                Ok(v) => {
                    if v & 0x20 != 0 {
                        ready = true;
                    }
                },
                Err(_) => (),
            }
            tries = tries + 1;
        }
        if !ready {
            return Err(Error::InitTimeout);
        }
        // read and discard one raw temperature: this flushes the
        // erratum-affected path
        let raw: [u8; 3] = match bus.read_bytes3(address, Register::TMP_B2.addr()) {
            Ok(v) => v,
            Err(e) => { return Err(Error::Bus(e)) },
        };
        match bus.write_byte(address, Register::MEAS_CFG.addr(), 0x00) {
            Ok(()) => (),
            Err(e) => { return Err(Error::Bus(e)) },
        }
        let d = DPS3xx { bus, address, config: *config, state: Unconfigured };
        proof {
            assert(d.log() =~= log0 + construction_ops(
                address,
                *config,
                prs_current,
                tmp_current,
                coef_srce,
                meas,
                poll,
                raw,
            ));
            assert(ready_poll_ops(address, poll));
        }
        Ok(d)
    }

    /// Arms the settling gate: records the wait derived from the configured
    /// rates and resolutions against the caller's clock reading.  Issues no
    /// bus traffic.  Fails when the combined busy time exceeds the largest
    /// settling wait there is.
    pub fn start_init(self, now_ms: u32) -> (r: Result<DPS3xx<B, InitInProgress>, Error<B::Fault>>)
        ensures
            total_busy_units(self.configuration()) > MAX_BUSYTIME_UNITS <==> r matches Err(
                Error::InvalidConfig,
            ),
            r is Err ==> r matches Err(Error::InvalidConfig),
            r matches Ok(d) ==> {
                &&& d.log() == self.log()
                &&& d.address() == self.address()
                &&& d.configuration() == self.configuration()
                &&& d.start_ms() == now_ms
                &&& d.wait_ms() == settling_wait_ms(self.configuration())
            },
    {
        let pres_units: u32 = calc_busy_time_units(
            match self.config.pres_rate {
                Some(rate) => rate,
                None => crate::config::PressureRate::_1_SPS,
            }.val(),
            match self.config.pres_res {
                Some(res) => res,
                None => PressureResolution::_1_SAMPLES,
            }.val(),
        );
        let temp_units: u32 = calc_busy_time_units(
            match self.config.temp_rate {
                Some(rate) => rate,
                None => crate::config::TemperatureRate::_1_SPS,
            }.val(),
            match self.config.temp_res {
                Some(res) => res,
                None => TemperatureResolution::_1_SAMPLES,
            }.val(),
        );
        let total: u32 = pres_units + temp_units;
        if total > MAX_BUSYTIME_UNITS {
            return Err(Error::InvalidConfig);
        }
        let wait: u32 = total / BUSYTIME_SCALING + BUSYTIME_FAILSAFE_MS;
        let DPS3xx { bus, address, config, state: _ } = self;
        Ok(
            DPS3xx {
                bus,
                address,
                config,
                state: InitInProgress { start_ms: now_ms, wait_ms: wait },
            },
        )
    }
}

impl<B: Bus> DPS3xx<B, InitInProgress> {
    /// The caller's clock reading when the settling gate was armed.
    pub closed spec fn start_ms(&self) -> u32 {
        self.state.start_ms
    }

    /// The armed settling wait, in milliseconds.
    pub closed spec fn wait_ms(&self) -> u32 {
        self.state.wait_ms
    }

    /// Compares the caller's clock against the armed wait.  Issues no bus
    /// traffic: construction's own poll already established device
    /// readiness.  Once the wait has elapsed the handle becomes ready;
    /// before that it comes back unchanged, unless the configured overall
    /// timeout is exceeded, which fails with `InitTimeout`.
    pub fn try_finish_init(self, now_ms: u32) -> (r: Result<InitState<B>, Error<B::Fault>>)
        requires
            now_ms >= self.start_ms(),
        ensures
            now_ms - self.start_ms() >= self.wait_ms() ==> (r matches Ok(s) && s matches
                InitState::Ready(d) && d.log() == self.log() && d.address() == self.address()
                && d.configuration() == self.configuration()),
            now_ms - self.start_ms() < self.wait_ms() && now_ms - self.start_ms()
                >= self.configuration().init_timeout_ms ==> r matches Err(Error::InitTimeout),
            now_ms - self.start_ms() < self.wait_ms() && now_ms - self.start_ms()
                < self.configuration().init_timeout_ms ==> (r matches Ok(s) && s matches
                InitState::InProgress(d) && d == self),
    {
        let elapsed: u32 = now_ms - self.state.start_ms;
        if elapsed >= self.state.wait_ms {
            let DPS3xx { bus, address, config, state: _ } = self;
            Ok(InitState::Ready(DPS3xx { bus, address, config, state: Configured }))
        } else if elapsed >= self.config.init_timeout_ms {
            Err(Error::InitTimeout)
        } else {
            Ok(InitState::InProgress(self))
        }
    }
}

/// The traffic of one measurement trigger: the current mode byte is read and
/// written back with its three-bit mode field replaced.
pub open spec fn mode_write_ops(address: u8, current: u8, mode: u8) -> Seq<BusOp> {
    seq![
        (BusOp::Read1 { address, reg: Register::MEAS_CFG.spec_addr(), data: Some(current) }),
        (BusOp::Write {
            address,
            reg: Register::MEAS_CFG.spec_addr(),
            value: (current & 0xF8) | mode,
        }),
    ]
}

impl<B: Bus> DPS3xx<B, Configured> {
    /// Reads the eighteen coefficient bytes in one transaction and decodes
    /// them.  Decode correctness is independent of timing: whatever bytes
    /// the bus returns are decoded.
    pub fn read_calibration_coefficients(self) -> (r: Result<DPS3xx<B, Calibrated>, Error<
        B::Fault,
    >>)
        ensures
            r matches Ok(d) ==> {
                &&& d.address() == self.address()
                &&& d.configuration() == self.configuration()
                &&& exists|raw: [u8; 18]|
                    d.log() == self.log().push(
                        (BusOp::Read18 {
                            address: self.address(),
                            reg: Register::COEFF_REG_1.spec_addr(),
                            data: Some(raw),
                        }),
                    ) && d.coefficients() == decoded(raw@)
            },
            r is Err ==> r matches Err(Error::Bus(_)),
    {
        let DPS3xx { mut bus, address, config, state: _ } = self;
        let raw: [u8; 18] = match bus.read_bytes18(address, Register::COEFF_REG_1.addr()) {
            Ok(v) => v,
            Err(e) => { return Err(Error::Bus(e)) },
        };
        let coef = CalibrationCoefficients::decode(&raw);
        Ok(DPS3xx { bus, address, config, state: Calibrated { coef } })
    }
}

impl<B: Bus> DPS3xx<B, Calibrated> {
    /// The coefficients this handle holds, decoded once and immutable.
    pub closed spec fn coefficients(&self) -> CalibrationCoefficients {
        self.state.coef
    }

    /// The calibration coefficients this handle decoded.
    pub fn calibration_coefficients(&self) -> (r: CalibrationCoefficients)
        ensures
            r == self.coefficients(),
    {
        self.state.coef
    }

    /// Reads the applicable resolution register and the three raw
    /// temperature bytes: one sign-extended reading with its scale factor.
    pub fn read_temp_raw(&mut self) -> (r: Result<RawReading, Error<B::Fault>>)
        ensures
            final(self).address() == old(self).address(),
            final(self).configuration() == old(self).configuration(),
            final(self).phase() == old(self).phase(),
            r matches Ok(s) ==> exists|cfg: u8, bytes: [u8; 3]|
                {
                    &&& final(self).log() == old(self).log() + #[trigger] temp_read_ops(
                        old(self).address(),
                        cfg,
                        bytes,
                    )
                    &&& s.scale == spec_scale_factor(cfg & 0x07)
                    &&& s.raw == sign_extended(reading_bits(bytes), 24)
                },
            r is Err ==> r matches Err(Error::Bus(_)),
    {
        let cfg: u8 = match self.bus.read_byte(self.address, Register::TEMP_CFG.addr()) {
            Ok(v) => v,
            Err(e) => { return Err(Error::Bus(e)) },
        };
        proof {
            lemma_reading_bounds(0, 0, 0, cfg);
        }
        let scale: u32 = scale_factor(cfg & 0x07);
        let bytes: [u8; 3] = match self.bus.read_bytes3(self.address, Register::TMP_B2.addr()) {
            Ok(v) => v,
            Err(e) => { return Err(Error::Bus(e)) },
        };
        let raw: i32 = read_raw_value(&bytes);
        proof {
            assert(self.log() =~= old(self).log() + temp_read_ops(old(self).address(), cfg, bytes));
        }
        Ok(RawReading { raw, scale })
    }

    /// Reads the raw pressure and the raw temperature the compensation
    /// needs, each with the scale factor its resolution register selects.
    /// The pressure reading comes first in the returned pair.
    pub fn read_pressure_raw(&mut self) -> (r: Result<(RawReading, RawReading), Error<B::Fault>>)
        ensures
            final(self).address() == old(self).address(),
            final(self).configuration() == old(self).configuration(),
            final(self).phase() == old(self).phase(),
            r matches Ok(pt) ==> exists|
                prs_cfg: u8,
                prs_bytes: [u8; 3],
                tmp_cfg: u8,
                tmp_bytes: [u8; 3],
            |
                {
                    &&& final(self).log() == old(self).log() + #[trigger] pressure_read_ops(
                        old(self).address(),
                        prs_cfg,
                        prs_bytes,
                        tmp_cfg,
                        tmp_bytes,
                    )
                    &&& pt.0.scale == spec_scale_factor(prs_cfg & 0x07)
                    &&& pt.0.raw == sign_extended(reading_bits(prs_bytes), 24)
                    &&& pt.1.scale == spec_scale_factor(tmp_cfg & 0x07)
                    &&& pt.1.raw == sign_extended(reading_bits(tmp_bytes), 24)
                },
            r is Err ==> r matches Err(Error::Bus(_)),
    {
        let prs_cfg: u8 = match self.bus.read_byte(self.address, Register::PRS_CFG.addr()) {
            Ok(v) => v,
            Err(e) => { return Err(Error::Bus(e)) },
        };
        proof {
            lemma_reading_bounds(0, 0, 0, prs_cfg);
        }
        let prs_scale: u32 = scale_factor(prs_cfg & 0x07);
        let prs_bytes: [u8; 3] = match self.bus.read_bytes3(self.address, Register::PSR_B2.addr()) {
            Ok(v) => v,
            Err(e) => { return Err(Error::Bus(e)) },
        };
        let prs_raw: i32 = read_raw_value(&prs_bytes);
        let tmp_cfg: u8 = match self.bus.read_byte(self.address, Register::TEMP_CFG.addr()) {
            Ok(v) => v,
            Err(e) => { return Err(Error::Bus(e)) },
        };
        proof {
            lemma_reading_bounds(0, 0, 0, tmp_cfg);
        }
        let tmp_scale: u32 = scale_factor(tmp_cfg & 0x07);
        let tmp_bytes: [u8; 3] = match self.bus.read_bytes3(self.address, Register::TMP_B2.addr()) {
            Ok(v) => v,
            Err(e) => { return Err(Error::Bus(e)) },
        };
        let tmp_raw: i32 = read_raw_value(&tmp_bytes);
        proof {
            assert(self.log() =~= old(self).log() + pressure_read_ops(
                old(self).address(),
                prs_cfg,
                prs_bytes,
                tmp_cfg,
                tmp_bytes,
            ));
        }
        Ok(
            (
                RawReading { raw: prs_raw, scale: prs_scale },
                RawReading { raw: tmp_raw, scale: tmp_scale },
            ),
        )
    }
}

impl<B: Bus, S: IsConfigured> DPS3xx<B, S> {
    /// Reads the raw mode/status register byte.
    pub fn read_status(&mut self) -> (r: Result<u8, Error<B::Fault>>)
        ensures
            final(self).address() == old(self).address(),
            final(self).configuration() == old(self).configuration(),
            final(self).phase() == old(self).phase(),
            r matches Ok(v) ==> final(self).log() == old(self).log().push(
                (BusOp::Read1 {
                    address: old(self).address(),
                    reg: Register::MEAS_CFG.spec_addr(),
                    data: Some(v),
                }),
            ),
            r matches Err(_) ==> r matches Err(Error::Bus(_)) && final(self).log() == old(
                self,
            ).log().push(
                (BusOp::Read1 {
                    address: old(self).address(),
                    reg: Register::MEAS_CFG.spec_addr(),
                    data: None,
                }),
            ),
    {
        match self.bus.read_byte(self.address, Register::MEAS_CFG.addr()) {
            Ok(v) => Ok(v),
            Err(e) => Err(Error::Bus(e)),
        }
    }

    /// Whether the coefficients-ready flag (bit 7) is set.
    pub fn coef_ready(&mut self) -> (r: Result<bool, Error<B::Fault>>)
        ensures
            final(self).address() == old(self).address(),
            final(self).configuration() == old(self).configuration(),
            final(self).phase() == old(self).phase(),
            r matches Ok(b) ==> exists|v: u8|
                final(self).log() == old(self).log().push(
                    (BusOp::Read1 {
                        address: old(self).address(),
                        reg: Register::MEAS_CFG.spec_addr(),
                        data: Some(v),
                    }),
                ) && b == (v & 0x80 != 0),
            r is Err ==> r matches Err(Error::Bus(_)),
    {
        match self.read_status() {
            Ok(v) => Ok(v & 0x80 != 0),
            Err(e) => Err(e),
        }
    }

    /// Whether the sensor-initialization-complete flag (bit 6) is set.
    pub fn init_complete(&mut self) -> (r: Result<bool, Error<B::Fault>>)
        ensures
            final(self).address() == old(self).address(),
            final(self).configuration() == old(self).configuration(),
            final(self).phase() == old(self).phase(),
            r matches Ok(b) ==> exists|v: u8|
                final(self).log() == old(self).log().push(
                    (BusOp::Read1 {
                        address: old(self).address(),
                        reg: Register::MEAS_CFG.spec_addr(),
                        data: Some(v),
                    }),
                ) && b == (v & 0x40 != 0),
            r is Err ==> r matches Err(Error::Bus(_)),
    {
        match self.read_status() {
            Ok(v) => Ok(v & 0x40 != 0),
            Err(e) => Err(e),
        }
    }

    /// Whether the temperature-result-ready flag (bit 5) is set.
    pub fn temp_ready(&mut self) -> (r: Result<bool, Error<B::Fault>>)
        ensures
            final(self).address() == old(self).address(),
            final(self).configuration() == old(self).configuration(),
            final(self).phase() == old(self).phase(),
            r matches Ok(b) ==> exists|v: u8|
                final(self).log() == old(self).log().push(
                    (BusOp::Read1 {
                        address: old(self).address(),
                        reg: Register::MEAS_CFG.spec_addr(),
                        data: Some(v),
                    }),
                ) && b == (v & 0x20 != 0),
            r is Err ==> r matches Err(Error::Bus(_)),
    {
        match self.read_status() {
            Ok(v) => Ok(v & 0x20 != 0),
            Err(e) => Err(e),
        }
    }

    /// Whether the pressure-result-ready flag (bit 4) is set.
    pub fn pres_ready(&mut self) -> (r: Result<bool, Error<B::Fault>>)
        ensures
            final(self).address() == old(self).address(),
            final(self).configuration() == old(self).configuration(),
            final(self).phase() == old(self).phase(),
            r matches Ok(b) ==> exists|v: u8|
                final(self).log() == old(self).log().push(
                    (BusOp::Read1 {
                        address: old(self).address(),
                        reg: Register::MEAS_CFG.spec_addr(),
                        data: Some(v),
                    }),
                ) && b == (v & 0x10 != 0),
            r is Err ==> r matches Err(Error::Bus(_)),
    {
        match self.read_status() {
            Ok(v) => Ok(v & 0x10 != 0),
            Err(e) => Err(e),
        }
    }

    /// Requests a measurement: the three-bit mode field of the mode register
    /// is replaced according to the requested combination.  A request for a
    /// single pressure and a single temperature measurement together without
    /// background mode is rejected before any traffic.  Does not wait for
    /// completion.
    pub fn trigger_measurement(
        &mut self,
        temperature: bool,
        pressure: bool,
        background: bool,
    ) -> (r: Result<(), Error<B::Fault>>)
        ensures
            final(self).address() == old(self).address(),
            final(self).configuration() == old(self).configuration(),
            final(self).phase() == old(self).phase(),
            (temperature && pressure && !background) <==> r matches Err(Error::InvalidConfig),
            r matches Err(Error::InvalidConfig) ==> final(self).log() == old(self).log(),
            r is Ok ==> exists|current: u8, mode: u8|
                requested_mode(temperature, pressure, background) == Some(mode) && final(self).log()
                    == old(self).log() + #[trigger] mode_write_ops(
                    old(self).address(),
                    current,
                    mode,
                ),
            r matches Err(Error::Bus(_)) ==> final(self).log() == old(self).log().push(
                (BusOp::Read1 {
                    address: old(self).address(),
                    reg: Register::MEAS_CFG.spec_addr(),
                    data: None,
                }),
            ) || (exists|current: u8, mode: u8|
                requested_mode(temperature, pressure, background) == Some(mode) && final(self).log()
                    == old(self).log() + #[trigger] mode_write_ops(
                    old(self).address(),
                    current,
                    mode,
                )),
            r is Err ==> (r matches Err(Error::Bus(_)) || r matches Err(Error::InvalidConfig)),
    {
        let mode: MeasurementMode = match MeasurementMode::from_flags(
            temperature,
            pressure,
            background,
        ) {
            Some(m) => m,
            None => { return Err(Error::InvalidConfig) },
        };
        let current: u8 = match self.bus.read_byte(self.address, Register::MEAS_CFG.addr()) {
            Ok(v) => v,
            Err(e) => { return Err(Error::Bus(e)) },
        };
        let value: u8 = (current & 0xF8) | mode.val();
        let result = self.bus.write_byte(self.address, Register::MEAS_CFG.addr(), value);
        proof {
            assert(self.log() =~= old(self).log() + mode_write_ops(
                old(self).address(),
                current,
                mode.spec_val(),
            ));
        }
        match result {
            Ok(()) => Ok(()),
            Err(e) => Err(Error::Bus(e)),
        }
    }
}

} // verus!
