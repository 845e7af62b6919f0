use ccs811::port::BusReply;
use ccs811::port::Event;
use ccs811::port::Port;
use ccs811::registers::FLAG_APP_ERASE;
use ccs811::registers::FLAG_APP_VALID;
use ccs811::registers::FLAG_APP_VERIFY;
use ccs811::registers::REG_APP_ERASE;
use ccs811::registers::REG_APP_START;
use ccs811::registers::REG_APP_VERIFY;
use ccs811::registers::REG_STATUS;
use ccs811::registers::WAKE_DELAY_US;
use ccs811::Ccs811Boot;
use ccs811::Error;

const DEV_ADDR: u8 = 0x5A;

fn new(transactions: Vec<BusReply>, nwake: Vec<bool>) -> Ccs811Boot {
    Ccs811Boot::new(Port::new(transactions, nwake), DEV_ADDR)
}

fn status_read() -> Event {
    Event::ReadRegister { addr: DEV_ADDR, reg: REG_STATUS, len: 1 }
}

#[test]
fn can_start_app_mode() {
    let nwake = vec![true, true];
    let transactions = vec![
        BusReply::Ack(vec![FLAG_APP_VALID]),
        BusReply::Ack(vec![]),
        BusReply::Ack(vec![0]),
    ];
    let sensor = new(transactions, nwake);
    let sensor = sensor.start_application().ok().unwrap();
    let port = sensor.destroy();
    assert_eq!(
        port.log,
        vec![
            Event::PinLow,
            Event::Delay { micros: WAKE_DELAY_US },
            status_read(),
            Event::WriteCommand { addr: DEV_ADDR, reg: REG_APP_START },
            Event::PinHigh,
        ]
    );
}

#[test]
fn cannot_start_app_mode_invalid_app() {
    let nwake = vec![true, true];
    let transactions = vec![BusReply::Ack(vec![0])];
    let sensor = new(transactions, nwake);
    let result = sensor.start_application().err().unwrap();
    match result.error {
        Error::NoValidApp => (),
        _ => panic!("Invalid error"),
    }
    let port = result.dev.destroy();
    assert_eq!(
        port.log,
        vec![
            Event::PinLow,
            Event::Delay { micros: WAKE_DELAY_US },
            status_read(),
            Event::PinHigh,
        ]
    );
}

#[test]
fn can_verify_app() {
    let nwake = vec![true, true, true, true, true, true];
    let transactions = vec![
        BusReply::Ack(vec![0]),
        BusReply::Ack(vec![]),
        BusReply::Ack(vec![0]),
        BusReply::Ack(vec![FLAG_APP_VERIFY]),
    ];
    let mut sensor = new(transactions, nwake);
    sensor
        .verify_application()
        .expect_err("Should have returned nb::Error::WouldBlock");
    assert!(sensor.dev.verify_pending);
    sensor
        .verify_application()
        .expect_err("Should have returned nb::Error::WouldBlock");
    assert!(sensor.dev.verify_pending);
    sensor.verify_application().unwrap();
    assert!(!sensor.dev.verify_pending);
    let port = sensor.destroy();
    assert_eq!(
        port.log,
        vec![
            Event::PinLow,
            Event::Delay { micros: WAKE_DELAY_US },
            status_read(),
            Event::WriteCommand { addr: DEV_ADDR, reg: REG_APP_VERIFY },
            Event::PinHigh,
            Event::PinLow,
            Event::Delay { micros: WAKE_DELAY_US },
            status_read(),
            Event::PinHigh,
            Event::PinLow,
            Event::Delay { micros: WAKE_DELAY_US },
            status_read(),
            Event::PinHigh,
        ]
    );
}

#[test]
fn can_erase_app() {
    let nwake = vec![true, true, true, true, true, true];
    let transactions = vec![
        BusReply::Ack(vec![0]),
        BusReply::Ack(vec![]),
        BusReply::Ack(vec![0]),
        BusReply::Ack(vec![FLAG_APP_ERASE]),
    ];
    let mut sensor = new(transactions, nwake);
    sensor
        .erase_application()
        .expect_err("Should have returned nb::Error::WouldBlock");
    assert!(sensor.dev.erase_pending);
    sensor
        .erase_application()
        .expect_err("Should have returned nb::Error::WouldBlock");
    assert!(sensor.dev.erase_pending);
    sensor.erase_application().unwrap();
    assert!(!sensor.dev.erase_pending);
    let port = sensor.destroy();
    assert_eq!(
        port.log,
        vec![
            Event::PinLow,
            Event::Delay { micros: WAKE_DELAY_US },
            status_read(),
            Event::WriteQuad {
                addr: DEV_ADDR,
                reg: REG_APP_ERASE,
                b0: 0xE7,
                b1: 0xA7,
                b2: 0xE6,
                b3: 0x09,
            },
            Event::PinHigh,
            Event::PinLow,
            Event::Delay { micros: WAKE_DELAY_US },
            status_read(),
            Event::PinHigh,
            Event::PinLow,
            Event::Delay { micros: WAKE_DELAY_US },
            status_read(),
            Event::PinHigh,
        ]
    );
}
