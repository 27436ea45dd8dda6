//! One full session against a simulated device: open, exchange, close.

use usb_session::errors::ProtocolError;
use usb_session::exchange::exchange_action;
use usb_session::exchange::exchange_finish;
use usb_session::exchange::exchange_start;
use usb_session::exchange::exchange_step;
use usb_session::exchange::ExchangeAction;
use usb_session::exchange::ExchangeEvent;
use usb_session::framing::_check_for_valid_response;
use usb_session::protocol::RESPONSE_BUFFER_LEN;
use usb_session::session::close_action;
use usb_session::session::close_finish;
use usb_session::session::close_start;
use usb_session::session::close_step;
use usb_session::session::lookup_device;
use usb_session::session::open_action;
use usb_session::session::open_finish;
use usb_session::session::open_start;
use usb_session::session::open_step;
use usb_session::session::CloseAction;
use usb_session::session::CloseEvent;
use usb_session::session::DeviceId;
use usb_session::session::OpenAction;
use usb_session::session::OpenEvent;
use usb_session::session::Session;

/// A device that accepts arm and disarm, swallows any command whole, and
/// answers every read with `"OK"` and a terminator.
struct SimulatedDevice {
    vendor_id: u16,
    product_id: u16,
    armed: bool,
    claimed: bool,
    disarms: u32,
    releases: u32,
}

impl SimulatedDevice {
    fn new(vendor_id: u16, product_id: u16) -> Self {
        SimulatedDevice {
            vendor_id,
            product_id,
            armed: false,
            claimed: false,
            disarms: 0,
            releases: 0,
        }
    }

    fn bulk_read(&self) -> Vec<u8> {
        let mut frame = b"OK\0".to_vec();
        frame.resize(RESPONSE_BUFFER_LEN, 0);
        frame
    }
}

fn open_session(device: &mut SimulatedDevice, vid: u16, pid: u16) -> Result<Session, ProtocolError> {
    let attached = vec![
        DeviceId { vendor_id: 0xFFFF, product_id: 0x0001 },
        DeviceId { vendor_id: device.vendor_id, product_id: device.product_id },
    ];
    let mut st = open_start();
    loop {
        match open_action(&st) {
            OpenAction::FindDevice => {
                let found = lookup_device(&attached, vid, pid).is_some();
                st = open_step(st, OpenEvent::Found(found));
            }
            OpenAction::ClaimInterface => {
                device.claimed = true;
                st = open_step(st, OpenEvent::ClaimDone(true));
            }
            OpenAction::ArmTransfer => {
                device.armed = true;
                st = open_step(st, OpenEvent::ArmDone(true));
            }
            OpenAction::ClearRead => {
                let _ = device.bulk_read();
                st = open_step(st, OpenEvent::ClearDone(true));
            }
            OpenAction::Stop => break,
        }
    }
    open_finish(&st).map(|(session, warning)| {
        assert_eq!(warning, None);
        session
    })
}

#[test]
fn full_session_against_a_simulated_device() {
    let mut device = SimulatedDevice::new(0x1234, 0x5678);

    // Open: the device is found, claimed, armed, and the stale buffer read.
    let session = open_session(&mut device, 0x1234, 0x5678).unwrap();
    assert!(device.claimed);
    assert!(device.armed);

    // Exchange: the command goes out whole, the response reads back "OK".
    let command = vec![0x01u8, 0x02];
    let mut st = exchange_start(&session, &command);
    let mut raw = Vec::new();
    loop {
        match exchange_action(&st) {
            ExchangeAction::WriteCommand => {
                // The device accepts the whole command.
                let written = command.len();
                st = exchange_step(st, ExchangeEvent::WriteDone(Some(written)));
            }
            ExchangeAction::ReadResponse => {
                raw = device.bulk_read();
                st = exchange_step(st, ExchangeEvent::ReadDone(true));
            }
            ExchangeAction::Stop => break,
        }
    }
    let (response, warning) = exchange_finish(&st, &raw).unwrap();
    assert_eq!(response, "OK");
    assert_eq!(warning, None);
    assert_eq!(_check_for_valid_response(&response, "command rejected"), Ok(()));

    // Close: disarm once, release once, both clean.
    let mut st = close_start(session);
    loop {
        match close_action(&st) {
            CloseAction::DisarmTransfer => {
                device.disarms += 1;
                device.armed = false;
                st = close_step(st, CloseEvent::DisarmDone(true));
            }
            CloseAction::ReleaseInterface => {
                device.releases += 1;
                device.claimed = false;
                st = close_step(st, CloseEvent::ReleaseDone(true));
            }
            CloseAction::Stop => break,
        }
    }
    let outcome = close_finish(&st);
    assert_eq!(outcome.disarm_error, None);
    assert_eq!(outcome.release_error, None);
    assert_eq!((device.disarms, device.releases), (1, 1));
    assert!(!device.armed);
    assert!(!device.claimed);
}

#[test]
fn open_against_an_absent_device_fails_with_device_not_found() {
    let mut device = SimulatedDevice::new(0x1234, 0x5678);
    let result = open_session(&mut device, 0xAAAA, 0xBBBB);
    assert_eq!(result, Err(ProtocolError::DeviceNotFound));
    // No transfer was attempted on the device.
    assert!(!device.claimed);
    assert!(!device.armed);
}
