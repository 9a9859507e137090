//! Enumeration against the real bus: wherever a USB stack is available,
//! no instrument is attached here, so enumeration must come back empty.

use adcmt7351::DeviceManager;
use adcmt7351::DriverError;
use adcmt7351::PID;
use adcmt7351::VID;

#[test]
fn instrument_identifiers_are_fixed() {
    assert_eq!(VID, 0x1334);
    assert_eq!(PID, 0x0203);
}

#[test]
fn no_instrument_on_this_bus() {
    // Creating the context can fail on a machine without a USB stack;
    // that is not what this test checks.
    if let Ok(manager) = DeviceManager::new() {
        if let Ok(devices) = manager.list_devices() {
            assert!(devices.is_empty());
        }
        match manager.first_device() {
            Ok(_) => panic!("found an instrument where none is attached"),
            Err(e) => assert!(matches!(
                e,
                DriverError::NoDeviceFound | DriverError::Transport(_)
            )),
        }
    }
}
