use ccs811::port::BusReply;
use ccs811::port::Event;
use ccs811::port::Port;
use ccs811::registers::FLAG_APP_VERIFY;
use ccs811::registers::FLAG_ERROR;
use ccs811::registers::REG_ERROR_ID;
use ccs811::registers::REG_STATUS;
use ccs811::registers::WAKE_DELAY_US;
use ccs811::Ccs811AwakeBoot;
use ccs811::Ccs811Boot;
use ccs811::Error;
use ccs811::ErrorAwake;
use ccs811::NbError;

const ADDR: u8 = 0x5A;

fn pin_events(log: &[Event]) -> Vec<Event> {
    log.iter()
        .filter(|e| matches!(e, Event::PinLow | Event::PinHigh))
        .map(|e| match e {
            Event::PinLow => Event::PinLow,
            _ => Event::PinHigh,
        })
        .collect()
}

#[test]
fn failed_bus_operation_still_releases_wake_line() {
    // the bracketed bus exchange faults, yet exactly one low-then-high
    // pin transition pair is produced
    let port = Port::new(vec![BusReply::Fault], vec![true, true]);
    let mut sensor = Ccs811Boot::new(port, ADDR);
    let err = sensor.has_valid_app().unwrap_err();
    assert_eq!(err, Error::Bus);
    let port = sensor.destroy();
    assert_eq!(port.log.first(), Some(&Event::PinLow));
    assert_eq!(port.log.last(), Some(&Event::PinHigh));
    assert_eq!(pin_events(&port.log), vec![Event::PinLow, Event::PinHigh]);
}

#[test]
fn failed_wake_assert_stops_before_the_bus() {
    let port = Port::new(vec![BusReply::Ack(vec![0])], vec![false]);
    let mut sensor = Ccs811Boot::new(port, ADDR);
    let err = sensor.has_valid_app().unwrap_err();
    assert_eq!(err, Error::Pin);
    let port = sensor.destroy();
    // no bus traffic and no release: the line never went low
    assert_eq!(port.log, vec![Event::PinLow]);
    assert_eq!(port.bus_pos, 0);
}

#[test]
fn pin_release_failure_after_success_is_conservative() {
    let port = Port::new(vec![BusReply::Ack(vec![0x10])], vec![true, false]);
    let mut sensor = Ccs811Boot::new(port, ADDR);
    let err = sensor.has_valid_app().unwrap_err();
    assert_eq!(err, Error::Pin);
}

#[test]
fn start_pin_release_failure_keeps_boot_mode() {
    // the bus exchange succeeds, the release fails: the new mode is not
    // surfaced, and the caller keeps a boot-tagged handle with the error
    let port = Port::new(
        vec![BusReply::Ack(vec![0x10]), BusReply::Ack(vec![])],
        vec![true, false],
    );
    let sensor = Ccs811Boot::new(port, ADDR);
    let result = sensor.start_application().err().unwrap();
    assert_eq!(result.error, Error::Pin);
    let port = result.dev.destroy();
    assert_eq!(pin_events(&port.log), vec![Event::PinLow, Event::PinHigh]);
}

#[test]
fn start_bus_fault_returns_handle_with_error() {
    let port = Port::new(vec![BusReply::Fault], vec![true, true]);
    let sensor = Ccs811Boot::new(port, ADDR);
    let result = sensor.start_application().err().unwrap();
    assert_eq!(result.error, Error::Bus);
    let port = result.dev.destroy();
    assert_eq!(pin_events(&port.log), vec![Event::PinLow, Event::PinHigh]);
}

#[test]
fn verify_completion_with_error_bit_reads_bitmap() {
    let port = Port::new(
        vec![
            BusReply::Ack(vec![FLAG_APP_VERIFY | FLAG_ERROR]),
            BusReply::Ack(vec![0x08]),
        ],
        vec![true, true],
    );
    let mut sensor = Ccs811Boot::new(port, ADDR);
    let err = sensor.verify_application().unwrap_err();
    match err {
        NbError::Other(Error::Device(causes)) => assert!(causes.max_resistance),
        _ => panic!("expected the decoded chip error"),
    }
    assert!(!sensor.dev.verify_pending);
    let port = sensor.destroy();
    assert_eq!(
        port.log,
        vec![
            Event::PinLow,
            Event::Delay { micros: WAKE_DELAY_US },
            Event::ReadRegister { addr: ADDR, reg: REG_STATUS, len: 1 },
            Event::ReadRegister { addr: ADDR, reg: REG_ERROR_ID, len: 1 },
            Event::PinHigh,
        ]
    );
}

#[test]
fn awake_channel_never_touches_the_wake_line() {
    let port = Port::new(vec![BusReply::Ack(vec![0x10]), BusReply::Ack(vec![])], vec![]);
    let dev = Ccs811AwakeBoot::new(port, ADDR);
    let app = dev.start_application().ok().unwrap();
    let port = app.destroy();
    assert_eq!(pin_events(&port.log), Vec::new());
    assert_eq!(port.pin_pos, 0);
}

#[test]
fn awake_start_without_valid_app_writes_nothing_more() {
    let port = Port::new(vec![BusReply::Ack(vec![0])], vec![]);
    let dev = Ccs811AwakeBoot::new(port, ADDR);
    let result = dev.start_application().err().unwrap();
    assert_eq!(result.error, ErrorAwake::NoValidApp);
    let port = result.dev.destroy();
    assert_eq!(port.log, vec![Event::ReadRegister { addr: ADDR, reg: REG_STATUS, len: 1 }]);
}

#[test]
fn poll_bus_fault_clears_pending_marker() {
    let port = Port::new(
        vec![BusReply::Ack(vec![0]), BusReply::Ack(vec![]), BusReply::Fault],
        vec![],
    );
    let mut dev = Ccs811AwakeBoot::new(port, ADDR);
    let err = dev.verify_application().unwrap_err();
    assert_eq!(err, NbError::WouldBlock);
    assert!(dev.verify_pending);
    let err = dev.verify_application().unwrap_err();
    assert_eq!(err, NbError::Other(ErrorAwake::Bus));
    assert!(!dev.verify_pending);
}
