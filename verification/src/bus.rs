//! The serial-bus capability the driver consumes.
//!
//! The driver never talks to a transport directly: it is generic over a
//! [`Bus`], whose methods read and write registers of one device.  A ghost
//! transaction log records every attempted transaction, so the driver's
//! contracts can state, byte for byte, which register traffic each operation
//! issues.  Implementations live outside the verified crate (a wrapper around
//! an I2C peripheral, or a mock); the contracts here are what the driver
//! assumes of them.

use vstd::prelude::*;

verus! {

/// One attempted bus transaction, as the driver's contracts record it.
///
/// Reads carry the data the transport returned, or `None` where it failed;
/// a write records the byte handed to the transport, whether or not the
/// transport accepted it.
#[allow(inconsistent_fields)]
pub enum BusOp {
    /// A one-byte read of the register at `reg`.
    Read1 { address: u8, reg: u8, data: Option<u8> },
    /// A three-byte read starting at `reg`.
    Read3 { address: u8, reg: u8, data: Option<[u8; 3]> },
    /// An eighteen-byte read starting at `reg`.
    Read18 { address: u8, reg: u8, data: Option<[u8; 18]> },
    /// A write of one byte to the register at `reg`.
    Write { address: u8, reg: u8, value: u8 },
}

/// A byte-addressed serial bus reaching one or more devices by address.
///
/// Every method appends exactly one entry to the transaction log, success or
/// failure; no method promises to succeed.  The driver is verified against
/// these contracts for every outcome the transport can produce.
pub trait Bus: Sized {
    /// The transport's own error type, propagated unchanged by the driver.
    type Fault;

    /// The log of every transaction attempted on this bus, oldest first.
    ///
    /// The default body only spares unverified implementations a ghost item;
    /// the driver's contracts never lean on it, they relate the log across
    /// calls.
    open spec fn log(&self) -> Seq<BusOp> {
        Seq::empty()
    }

    /// Reads one byte from the register at `reg` of the device at `address`.
    fn read_byte(&mut self, address: u8, reg: u8) -> (r: Result<u8, Self::Fault>)
        ensures
            final(self).log() == old(self).log().push(
                (BusOp::Read1 {
                    address,
                    reg,
                    data: match r {
                        Ok(v) => Some(v),
                        Err(_) => None,
                    },
                }),
            ),
    ;

    /// Reads three consecutive bytes starting at the register at `reg`.
    fn read_bytes3(&mut self, address: u8, reg: u8) -> (r: Result<[u8; 3], Self::Fault>)
        ensures
            final(self).log() == old(self).log().push(
                (BusOp::Read3 {
                    address,
                    reg,
                    data: match r {
                        Ok(v) => Some(v),
                        Err(_) => None,
                    },
                }),
            ),
    ;

    /// Reads eighteen consecutive bytes starting at the register at `reg`.
    fn read_bytes18(&mut self, address: u8, reg: u8) -> (r: Result<[u8; 18], Self::Fault>)
        ensures
            final(self).log() == old(self).log().push(
                (BusOp::Read18 {
                    address,
                    reg,
                    data: match r {
                        Ok(v) => Some(v),
                        Err(_) => None,
                    },
                }),
            ),
    ;

    /// Writes one byte to the register at `reg` of the device at `address`.
    fn write_byte(&mut self, address: u8, reg: u8, value: u8) -> (r: Result<(), Self::Fault>)
        ensures
            final(self).log() == old(self).log().push((BusOp::Write { address, reg, value })),
    ;
}

} // verus!
