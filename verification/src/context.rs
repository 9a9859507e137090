//! The USB host context and device enumeration.

use vstd::prelude::*;

use crate::error::DriverError;
use crate::error::TransportError;
use crate::transport::UsbDeviceMetadata;
use crate::transport::PID;
use crate::transport::VID;
use crate::usb;

verus! {

/// USB host context, wrapping the bus library's.
pub struct UsbContext {
    ctx: rusb::Context,
}

impl UsbContext {
    /// Create a new USB host context.
    pub fn new() -> (r: Result<UsbContext, DriverError>)
        ensures
            r matches Err(e) ==> e == DriverError::Transport(TransportError::ContextFailed),
    {
        match usb::new_context() {
            Ok(ctx) => Ok(UsbContext { ctx }),
            Err(_) => Err(DriverError::Transport(TransportError::ContextFailed)),
        }
    }

    /// The wrapped bus context.
    pub fn get_rusb_ctx(&self) -> &rusb::Context {
        &self.ctx
    }

    /// Enumerate the instruments on the bus: every device whose vendor and
    /// product identifiers match the instrument's, with its metadata.
    pub fn enumerate_devices(&self) -> (r: Result<Vec<UsbDeviceMetadata>, DriverError>)
        ensures
            r matches Ok(found) ==> forall|i: int|
                0 <= i < found@.len() ==> found@[i].vendor_id == VID && found@[i].product_id
                    == PID,
            r matches Err(e) ==> e == DriverError::Transport(TransportError::EnumerationFailed),
    {
        let mut devices = match usb::all_devices(&self.ctx) {
            Ok(d) => d,
            Err(_) => {
                return Err(DriverError::Transport(TransportError::EnumerationFailed));
            },
        };

        let mut found: Vec<UsbDeviceMetadata> = Vec::new();
        while devices.len() > 0
            invariant
                forall|i: int|
                    0 <= i < found@.len() ==> found@[i].vendor_id == VID && found@[i].product_id
                        == PID,
            decreases devices@.len(),
        {
            let device = devices.remove(0);
            let (vendor_id, product_id) = match usb::device_ids(&device) {
                Ok(ids) => ids,
                Err(_) => {
                    return Err(DriverError::Transport(TransportError::EnumerationFailed));
                },
            };
            if vendor_id == VID && product_id == PID {
                let serial_number = match usb::read_serial(&device) {
                    Ok(s) => s,
                    Err(_) => {
                        return Err(DriverError::Transport(TransportError::EnumerationFailed));
                    },
                };
                found.push(UsbDeviceMetadata { device, vendor_id, product_id, serial_number });
            }
        }
        Ok(found)
    }
}

/// Device manager: enumerates the available instruments.
pub struct DeviceManager {
    ctx: UsbContext,
}

impl DeviceManager {
    /// Create a new device manager over a fresh USB context.
    pub fn new() -> (r: Result<DeviceManager, DriverError>)
        ensures
            r matches Err(e) ==> e == DriverError::Transport(TransportError::ContextFailed),
    {
        match UsbContext::new() {
            Ok(ctx) => Ok(DeviceManager { ctx }),
            Err(e) => Err(e),
        }
    }

    /// List every available instrument.
    pub fn list_devices(&self) -> (r: Result<Vec<UsbDeviceMetadata>, DriverError>)
        ensures
            r matches Ok(found) ==> forall|i: int|
                0 <= i < found@.len() ==> found@[i].vendor_id == VID && found@[i].product_id
                    == PID,
            r matches Err(e) ==> e == DriverError::Transport(TransportError::EnumerationFailed),
    {
        self.ctx.enumerate_devices()
    }

    /// The first available instrument; fails where there is none.
    pub fn first_device(&self) -> (r: Result<UsbDeviceMetadata, DriverError>)
        ensures
            r matches Ok(m) ==> m.vendor_id == VID && m.product_id == PID,
            r matches Err(e) ==> e == DriverError::Transport(TransportError::EnumerationFailed)
                || e == DriverError::NoDeviceFound,
    {
        let mut devices = match self.list_devices() {
            Ok(d) => d,
            Err(e) => {
                return Err(e);
            },
        };
        if devices.len() > 0 {
            Ok(devices.remove(0))
        } else {
            Err(DriverError::NoDeviceFound)
        }
    }
}

} // verus!
