//! Register addresses and status/error bit positions of the chip, plus the
//! fixed byte sequences the protocol writes.  Pure data, no behaviour.

use vstd::prelude::*;

verus! {

/// Status register: validity, data-ready, command-done and error bits.
pub const REG_STATUS: u8 = 0x00;

/// Measurement mode control register (drive mode and interrupt bits).
pub const REG_MEAS_MODE: u8 = 0x01;

/// 8-byte algorithm result: eCO2, eTVOC, status, error bitmap, raw field.
pub const REG_ALG_RESULT_DATA: u8 = 0x02;

/// 2-byte raw sensor field: current and voltage.
pub const REG_RAW_DATA: u8 = 0x03;

/// Error bitmap register; read when the status ERROR bit is set.
pub const REG_ERROR_ID: u8 = 0xE0;

/// Firmware erase command register; takes the 4-byte magic sequence.
pub const REG_APP_ERASE: u8 = 0xE1;

/// Firmware verify command register; zero-length command.
pub const REG_APP_VERIFY: u8 = 0xE3;

/// Application start command register; zero-length command.
pub const REG_APP_START: u8 = 0xF4;

/// Status bit: the chip reported an error; the bitmap is in `REG_ERROR_ID`.
pub const FLAG_ERROR: u8 = 0x01;

/// Status bit: a new measurement sample is available.
pub const FLAG_DATA_READY: u8 = 0x08;

/// Status bit: a valid application firmware image is present.
pub const FLAG_APP_VALID: u8 = 0x10;

/// Status bit: the firmware verify operation has completed.
pub const FLAG_APP_VERIFY: u8 = 0x20;

/// Status bit: the firmware erase operation has completed.
pub const FLAG_APP_ERASE: u8 = 0x40;

/// First byte of the erase magic sequence.
pub const ERASE_MAGIC_0: u8 = 0xE7;

/// Second byte of the erase magic sequence.
pub const ERASE_MAGIC_1: u8 = 0xA7;

/// Third byte of the erase magic sequence.
pub const ERASE_MAGIC_2: u8 = 0xE6;

/// Fourth byte of the erase magic sequence.
pub const ERASE_MAGIC_3: u8 = 0x09;

/// Settling delay, in microseconds, between asserting the wake line and the
/// first bus transaction.
pub const WAKE_DELAY_US: u32 = 50;

} // verus!
