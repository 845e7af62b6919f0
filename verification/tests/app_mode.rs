use ccs811::port::BusReply;
use ccs811::port::Event;
use ccs811::port::Port;
use ccs811::registers::FLAG_DATA_READY;
use ccs811::registers::FLAG_ERROR;
use ccs811::registers::REG_ALG_RESULT_DATA;
use ccs811::registers::REG_MEAS_MODE;
use ccs811::registers::REG_RAW_DATA;
use ccs811::registers::REG_STATUS;
use ccs811::Ccs811AwakeApp;
use ccs811::Error;
use ccs811::ErrorAwake;
use ccs811::MeasurementMode;
use ccs811::NbError;

const ADDR: u8 = 0x5A;

fn awake_app(transactions: Vec<BusReply>) -> Ccs811AwakeApp {
    Ccs811AwakeApp::new(Port::new(transactions, vec![]), ADDR)
}

#[test]
fn set_mode_writes_encoding_and_updates_cache() {
    let mut sensor = awake_app(vec![BusReply::Ack(vec![]), BusReply::Ack(vec![])]);
    sensor.set_measurement_mode(MeasurementMode::ConstantPower1s).unwrap();
    assert_eq!(sensor.meas_mode_reg, 0x10);
    sensor.set_measurement_mode(MeasurementMode::ConstantPower250ms).unwrap();
    assert_eq!(sensor.meas_mode_reg, 0x40);
    let port = sensor.destroy();
    assert_eq!(
        port.log,
        vec![
            Event::WriteByte { addr: ADDR, reg: REG_MEAS_MODE, value: 0x10 },
            Event::WriteByte { addr: ADDR, reg: REG_MEAS_MODE, value: 0x40 },
        ]
    );
}

#[test]
fn set_mode_keeps_cache_on_bus_fault() {
    let mut sensor = awake_app(vec![BusReply::Fault]);
    let err = sensor.set_measurement_mode(MeasurementMode::PulseHeating10s).unwrap_err();
    assert_eq!(err, ErrorAwake::Bus);
    assert_eq!(sensor.meas_mode_reg, 0);
}

#[test]
fn data_ready_follows_status_bit() {
    let mut sensor = awake_app(vec![
        BusReply::Ack(vec![FLAG_DATA_READY]),
        BusReply::Ack(vec![0]),
    ]);
    assert!(sensor.has_data_ready().unwrap());
    assert!(!sensor.has_data_ready().unwrap());
    let port = sensor.destroy();
    assert_eq!(
        port.log,
        vec![
            Event::ReadRegister { addr: ADDR, reg: REG_STATUS, len: 1 },
            Event::ReadRegister { addr: ADDR, reg: REG_STATUS, len: 1 },
        ]
    );
}

#[test]
fn raw_sample_reads_and_decodes() {
    let mut sensor = awake_app(vec![BusReply::Ack(vec![0x34, 0x12])]);
    let (current, voltage) = sensor.raw_sample().unwrap();
    assert_eq!(current, 0x04);
    assert_eq!(voltage, 0x234);
    let port = sensor.destroy();
    assert_eq!(port.log, vec![Event::ReadRegister { addr: ADDR, reg: REG_RAW_DATA, len: 2 }]);
}

#[test]
fn algorithm_result_complete_when_ready() {
    let mut sensor = awake_app(vec![BusReply::Ack(vec![
        0x01,
        0xF4,
        0x00,
        0x64,
        FLAG_DATA_READY,
        0x00,
        0x34,
        0x12,
    ])]);
    let result = sensor.read_algorithm_result().unwrap();
    assert_eq!(result.eco2, 500);
    assert_eq!(result.etvoc, 100);
    assert_eq!(result.raw_current, 0x04);
    assert_eq!(result.raw_voltage, 0x234);
    let port = sensor.destroy();
    assert_eq!(
        port.log,
        vec![Event::ReadRegister { addr: ADDR, reg: REG_ALG_RESULT_DATA, len: 8 }]
    );
}

#[test]
fn algorithm_result_pending_without_data() {
    let mut sensor = awake_app(vec![BusReply::Ack(vec![0, 0, 0, 0, 0, 0, 0, 0])]);
    let err = sensor.read_algorithm_result().unwrap_err();
    assert_eq!(err, NbError::WouldBlock);
}

#[test]
fn algorithm_result_error_bit_yields_chip_error() {
    // the error bit set in the status byte at offset 4 wins over
    // everything else; the bitmap at offset 5 is decoded, and no partial
    // measurement comes out
    let mut sensor = awake_app(vec![BusReply::Ack(vec![
        0x01,
        0xF4,
        0x00,
        0x64,
        FLAG_ERROR | FLAG_DATA_READY,
        0x04,
        0x34,
        0x12,
    ])]);
    let err = sensor.read_algorithm_result().unwrap_err();
    match err {
        NbError::Other(ErrorAwake::Device(causes)) => {
            assert!(causes.invalid_measurement);
            assert!(!causes.invalid_register_write);
            assert!(!causes.heater_fault);
        },
        _ => panic!("expected the decoded chip error"),
    }
}

#[test]
fn gated_app_operations_are_wake_bracketed() {
    let port = Port::new(vec![BusReply::Ack(vec![0x34, 0x12])], vec![true, true]);
    let mut sensor = ccs811::Ccs811App::new(port, ADDR);
    let (current, voltage) = sensor.raw_sample().unwrap();
    assert_eq!((current, voltage), (0x04, 0x234));
    let port = sensor.destroy();
    assert_eq!(
        port.log,
        vec![
            Event::PinLow,
            Event::Delay { micros: ccs811::registers::WAKE_DELAY_US },
            Event::ReadRegister { addr: ADDR, reg: REG_RAW_DATA, len: 2 },
            Event::PinHigh,
        ]
    );
}

#[test]
fn gated_set_mode_pin_release_failure_reports_pin() {
    // the write reaches the chip, then releasing the wake line fails: the
    // pin error replaces the success, while the cache follows the write
    // that did happen
    let port = Port::new(vec![BusReply::Ack(vec![])], vec![true, false]);
    let mut sensor = ccs811::Ccs811App::new(port, ADDR);
    let err = sensor.set_measurement_mode(MeasurementMode::ConstantPower1s).unwrap_err();
    assert_eq!(err, Error::Pin);
    assert_eq!(sensor.dev.meas_mode_reg, 0x10);
}
