//! Domain values of the driver: measurement cadence, decoded results, and
//! the error taxonomy.

use vstd::prelude::*;

verus! {

/// Autonomous sampling cadence of the chip.  Encoded into the 3-bit drive
/// mode field (bits 4-6) of the mode control register.
#[derive(Debug, Clone, Copy, PartialEq, Eq, Structural)]
pub enum MeasurementMode {
    /// No measurements.
    Idle,
    /// One measurement per second at constant power.
    ConstantPower1s,
    /// One measurement every 10 seconds with pulse heating.
    PulseHeating10s,
    /// One measurement every 60 seconds with low-power pulse heating.
    LowPowerPulseHeating60s,
    /// One measurement every 250 milliseconds at constant power.
    ConstantPower250ms,
}

/// A complete decoded measurement.  Produced only from a single 8-byte
/// result read; never partially populated.
#[derive(Debug, Clone, Copy, PartialEq, Eq, Structural)]
pub struct AlgorithmResult {
    /// Equivalent CO2 concentration, ppm.
    pub eco2: u16,
    /// Equivalent total volatile organic compounds, ppb.
    pub etvoc: u16,
    /// Raw sensor current, 6 bits.
    pub raw_current: u8,
    /// Raw sensor voltage, 10 bits.
    pub raw_voltage: u16,
}

/// The chip-reported error bitmap, decoded.  Several causes can be reported
/// at once; every set bit is surfaced, not just the first.
#[derive(Debug, Clone, Copy, PartialEq, Eq, Structural)]
pub struct DeviceErrors {
    /// An invalid register was written.
    pub invalid_register_write: bool,
    /// An invalid register was read.
    pub invalid_register_read: bool,
    /// An out-of-range measurement mode was requested.
    pub invalid_measurement: bool,
    /// The sensor resistance reached its maximum.
    pub max_resistance: bool,
    /// The heater current is out of range.
    pub heater_fault: bool,
    /// The heater supply voltage is out of range.
    pub heater_supply: bool,
}

/// Failure of an operation that assumes the chip is already awake: either
/// the bus transport failed, the chip reported an error bitmap, or the
/// application image was not valid when a start was requested.
#[derive(Debug, Clone, Copy, PartialEq, Eq, Structural)]
pub enum ErrorAwake {
    /// The bus transport failed; never retried internally.
    Bus,
    /// The chip itself reported one or more error causes.
    Device(DeviceErrors),
    /// No valid application firmware image is present.
    NoValidApp,
}

/// Failure of a wake-gated operation: as [`ErrorAwake`], plus a failure of
/// the wake line transport itself.
#[derive(Debug, Clone, Copy, PartialEq, Eq, Structural)]
pub enum Error {
    /// The bus transport failed; never retried internally.
    Bus,
    /// The wake line transport failed.
    Pin,
    /// The chip itself reported one or more error causes.
    Device(DeviceErrors),
    /// No valid application firmware image is present.
    NoValidApp,
}

impl Error {
    /// Lifts a failure of the awake layer into the wake-gated taxonomy.
    pub fn from_awake(e: ErrorAwake) -> (r: Error)
        ensures
            r == spec_error_from_awake(e),
    {
        match e {
            ErrorAwake::Bus => Error::Bus,
            ErrorAwake::Device(d) => Error::Device(d),
            ErrorAwake::NoValidApp => Error::NoValidApp,
        }
    }
}

/// What [`Error::from_awake`] returns.
pub open spec fn spec_error_from_awake(e: ErrorAwake) -> Error {
    match e {
        ErrorAwake::Bus => Error::Bus,
        ErrorAwake::Device(d) => Error::Device(d),
        ErrorAwake::NoValidApp => Error::NoValidApp,
    }
}

/// Non-blocking outcome: either the operation is not yet complete and the
/// caller should try again later, or it failed outright.
#[derive(Debug, Clone, Copy, PartialEq, Eq, Structural)]
pub enum NbError<E> {
    /// A genuine failure; the in-flight operation is over.
    Other(E),
    /// The operation has not completed yet; call again later.
    WouldBlock,
}

/// A failed mode transition.  The device handle is never dropped on
/// failure: the caller gets it back alongside the error, so a retry or a
/// fallback is always possible.
pub struct ModeChangeError<D, E> {
    /// The device handle, still in its previous mode.
    pub dev: D,
    /// Why the transition failed.
    pub error: E,
}

} // verus!
