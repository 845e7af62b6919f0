//! Pure encoding and decoding of register bytes: no state, no transport.

use vstd::prelude::*;

use crate::registers::FLAG_APP_ERASE;
use crate::registers::FLAG_APP_VALID;
use crate::registers::FLAG_APP_VERIFY;
use crate::registers::FLAG_DATA_READY;
use crate::registers::FLAG_ERROR;
use crate::types::AlgorithmResult;
use crate::types::DeviceErrors;
use crate::types::MeasurementMode;

verus! {

/// The 3-bit drive mode code of a measurement mode.
pub open spec fn mode_code(mode: MeasurementMode) -> u8 {
    match mode {
        MeasurementMode::Idle => 0,
        MeasurementMode::ConstantPower1s => 1,
        MeasurementMode::PulseHeating10s => 2,
        MeasurementMode::LowPowerPulseHeating60s => 3,
        MeasurementMode::ConstantPower250ms => 4,
    }
}

/// The byte written to the mode control register: the drive mode code in
/// bits 4-6, the interrupt bits 2-3 of the previous register value kept
/// unchanged, and bits 0-1 and 7 cleared.
pub open spec fn spec_encode_measurement_mode(previous: u8, mode: MeasurementMode) -> u8 {
    (previous & 0x0c) | (mode_code(mode) << 4)
}

/// Whether `flag` is set in a status byte.
pub open spec fn flag_set(status: u8, flag: u8) -> bool {
    status & flag != 0
}

/// Whether the status byte reports a valid application image.
pub open spec fn app_valid(status: u8) -> bool {
    flag_set(status, FLAG_APP_VALID)
}

/// Whether the status byte reports a fresh sample.
pub open spec fn data_ready(status: u8) -> bool {
    flag_set(status, FLAG_DATA_READY)
}

/// Whether the status byte reports a chip error.
pub open spec fn status_error(status: u8) -> bool {
    flag_set(status, FLAG_ERROR)
}

/// Whether the status byte reports the verify operation as done.
pub open spec fn verify_done(status: u8) -> bool {
    flag_set(status, FLAG_APP_VERIFY)
}

/// Whether the status byte reports the erase operation as done.
pub open spec fn erase_done(status: u8) -> bool {
    flag_set(status, FLAG_APP_ERASE)
}

/// Encodes a measurement mode over the previous mode-register byte,
/// preserving the interrupt configuration bits 2-3.
pub fn encode_measurement_mode(previous: u8, mode: MeasurementMode) -> (r: u8)
    ensures
        r == spec_encode_measurement_mode(previous, mode),
{
    let idle_mode = previous & 0b0000_1100;
    proof {
        assert(idle_mode | (0u8 << 4) == idle_mode) by (bit_vector);
    }
    match mode {
        MeasurementMode::Idle => idle_mode,
        MeasurementMode::ConstantPower1s => idle_mode | (1 << 4),
        MeasurementMode::PulseHeating10s => idle_mode | (2 << 4),
        MeasurementMode::LowPowerPulseHeating60s => idle_mode | (3 << 4),
        MeasurementMode::ConstantPower250ms => idle_mode | (4 << 4),
    }
}

/// The raw sensor field decoded from its two bytes: current is the top 6
/// bits of the second byte, voltage is the first byte plus the low 2 bits
/// of the second byte as bits 8-9.
pub open spec fn spec_decode_raw(b0: u8, b1: u8) -> (u8, u16) {
    (b1 >> 2, (b0 as u16) | (((b1 & 0x3) as u16) << 8))
}

/// Decodes the 2-byte raw sensor field into (current, voltage).
pub fn decode_raw(b0: u8, b1: u8) -> (r: (u8, u16))
    ensures
        r == spec_decode_raw(b0, b1),
{
    (b1 >> 2, (b0 as u16) | (((b1 & 0x3) as u16) << 8))
}

/// The error causes present in an error-bitmap byte.
pub open spec fn spec_decode_device_errors(b: u8) -> DeviceErrors {
    DeviceErrors {
        invalid_register_write: b & 0x01 != 0,
        invalid_register_read: b & 0x02 != 0,
        invalid_measurement: b & 0x04 != 0,
        max_resistance: b & 0x08 != 0,
        heater_fault: b & 0x10 != 0,
        heater_supply: b & 0x20 != 0,
    }
}

/// Decodes an error-bitmap byte; every set bit is reported.
pub fn decode_device_errors(b: u8) -> (r: DeviceErrors)
    ensures
        r == spec_decode_device_errors(b),
{
    DeviceErrors {
        invalid_register_write: b & 0x01 != 0,
        invalid_register_read: b & 0x02 != 0,
        invalid_measurement: b & 0x04 != 0,
        max_resistance: b & 0x08 != 0,
        heater_fault: b & 0x10 != 0,
        heater_supply: b & 0x20 != 0,
    }
}

/// The full measurement decoded from the 8-byte algorithm result field:
/// big-endian 16-bit eCO2 and eTVOC pairs, and the raw field from bytes
/// 6-7.  The status byte sits at offset 4 and the error bitmap at offset
/// 5; they are interpreted by the caller, not here.
pub open spec fn spec_decode_algorithm_result(d: Seq<u8>) -> AlgorithmResult {
    AlgorithmResult {
        eco2: ((d[0] as u16) << 8) | (d[1] as u16),
        etvoc: ((d[2] as u16) << 8) | (d[3] as u16),
        raw_current: d[7] >> 2,
        raw_voltage: (d[6] as u16) | (((d[7] & 0x3) as u16) << 8),
    }
}

/// Decodes the 8-byte algorithm result field.
pub fn decode_algorithm_result(d: &Vec<u8>) -> (r: AlgorithmResult)
    requires
        d@.len() == 8,
    ensures
        r == spec_decode_algorithm_result(d@),
{
    AlgorithmResult {
        eco2: ((d[0] as u16) << 8) | (d[1] as u16),
        etvoc: ((d[2] as u16) << 8) | (d[3] as u16),
        raw_current: d[7] >> 2,
        raw_voltage: (d[6] as u16) | (((d[7] & 0x3) as u16) << 8),
    }
}

} // verus!
