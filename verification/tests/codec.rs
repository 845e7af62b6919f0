use ccs811::codec::decode_algorithm_result;
use ccs811::codec::decode_device_errors;
use ccs811::codec::decode_raw;
use ccs811::codec::encode_measurement_mode;
use ccs811::MeasurementMode;

#[test]
fn mode_encoding_preserves_interrupt_bits() {
    // previous = 0b1111_1111: bits 2-3 are kept, bits 0-1 and 7 cleared,
    // bits 4-6 carry the drive mode code
    assert_eq!(encode_measurement_mode(0b1111_1111, MeasurementMode::Idle), 0b0000_1100);
    assert_eq!(
        encode_measurement_mode(0b1111_1111, MeasurementMode::ConstantPower1s),
        0b0001_1100
    );
    assert_eq!(
        encode_measurement_mode(0b1111_1111, MeasurementMode::PulseHeating10s),
        0b0010_1100
    );
    assert_eq!(
        encode_measurement_mode(0b1111_1111, MeasurementMode::LowPowerPulseHeating60s),
        0b0011_1100
    );
    assert_eq!(
        encode_measurement_mode(0b1111_1111, MeasurementMode::ConstantPower250ms),
        0b0100_1100
    );
}

#[test]
fn mode_encoding_from_clean_register() {
    assert_eq!(encode_measurement_mode(0, MeasurementMode::Idle), 0x00);
    assert_eq!(encode_measurement_mode(0, MeasurementMode::ConstantPower1s), 0x10);
    assert_eq!(encode_measurement_mode(0, MeasurementMode::PulseHeating10s), 0x20);
    assert_eq!(encode_measurement_mode(0, MeasurementMode::LowPowerPulseHeating60s), 0x30);
    assert_eq!(encode_measurement_mode(0, MeasurementMode::ConstantPower250ms), 0x40);
}

#[test]
fn raw_field_decoding() {
    let (current, voltage) = decode_raw(0x34, 0x12);
    assert_eq!(current, 0x04);
    assert_eq!(voltage, 0x234);
}

#[test]
fn algorithm_result_decoding() {
    let data = vec![0x01, 0xF4, 0x00, 0x64, 0x98, 0x00, 0x34, 0x12];
    let result = decode_algorithm_result(&data);
    assert_eq!(result.eco2, 500);
    assert_eq!(result.etvoc, 100);
    assert_eq!(result.raw_current, 0x04);
    assert_eq!(result.raw_voltage, 0x234);
}

#[test]
fn error_bitmap_decoding_reports_every_cause() {
    let all = decode_device_errors(0x3F);
    assert!(all.invalid_register_write);
    assert!(all.invalid_register_read);
    assert!(all.invalid_measurement);
    assert!(all.max_resistance);
    assert!(all.heater_fault);
    assert!(all.heater_supply);

    let none = decode_device_errors(0x00);
    assert!(!none.invalid_register_write);
    assert!(!none.invalid_register_read);
    assert!(!none.invalid_measurement);
    assert!(!none.max_resistance);
    assert!(!none.heater_fault);
    assert!(!none.heater_supply);

    let two = decode_device_errors(0x21);
    assert!(two.invalid_register_write);
    assert!(two.heater_supply);
    assert!(!two.invalid_register_read);
    assert!(!two.invalid_measurement);
    assert!(!two.max_resistance);
    assert!(!two.heater_fault);
}
