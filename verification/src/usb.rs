//! Trusted boundary towards the USB bus library and the sleeping helper.
//!
//! Everything here either declares an outside type or wraps exactly the
//! outside calls the driver needs. The contracts state no more than the
//! wrapped functions' own documentation promises; all decisions over the
//! returned values are made by verified code elsewhere.
//!
//! The bus library's device and handle types are generic over a context
//! trait that cannot be declared here, so the two newtypes below hold them
//! opaquely instead.

use vstd::prelude::*;

use crate::transport::EndpointDesc;
use crate::transport::TransferKind;

verus! {

#[verifier::external_type_specification]
#[verifier::external_body]
pub struct ExRusbContext(rusb::Context);

#[verifier::external_type_specification]
#[verifier::external_body]
pub struct ExRusbError(rusb::Error);

/// An addressable USB device, as enumeration yields it. Holds
/// rusb::Device, opaquely: its type parameter's trait bound cannot be
/// declared to the verifier.
#[verifier::external_body]
pub struct UsbDeviceRef {
    inner: rusb::Device<rusb::Context>,
}

/// An open USB device handle. Holds rusb::DeviceHandle, opaquely, for the
/// same reason as [`UsbDeviceRef`].
#[verifier::external_body]
pub struct UsbHandle {
    inner: rusb::DeviceHandle<rusb::Context>,
}

/// Relies on rusb::Context::new: a fresh bus context.
#[verifier::external_body]
pub(crate) fn new_context() -> (r: Result<rusb::Context, rusb::Error>) {
    rusb::Context::new()
}

/// Relies on rusb::UsbContext::devices: every device on the bus.
#[verifier::external_body]
pub(crate) fn all_devices(ctx: &rusb::Context) -> (r: Result<Vec<UsbDeviceRef>, rusb::Error>) {
    let devices = rusb::UsbContext::devices(ctx)?;
    Ok(devices.iter().map(|inner| UsbDeviceRef { inner }).collect())
}

/// Relies on rusb::Device::device_descriptor and the descriptor's
/// vendor_id and product_id accessors.
#[verifier::external_body]
pub(crate) fn device_ids(device: &UsbDeviceRef) -> (r: Result<(u16, u16), rusb::Error>) {
    let descriptor = device.inner.device_descriptor()?;
    Ok((descriptor.vendor_id(), descriptor.product_id()))
}

/// Relies on rusb::Device::open, the descriptor's
/// serial_number_string_index, and
/// rusb::DeviceHandle::read_string_descriptor_ascii: the device's serial
/// string, where it has one and it can be read.
#[verifier::external_body]
pub(crate) fn read_serial(device: &UsbDeviceRef) -> (r: Result<Option<String>, rusb::Error>) {
    let handle = device.inner.open()?;
    let descriptor = device.inner.device_descriptor()?;
    match descriptor.serial_number_string_index() {
        Some(index) => Ok(handle.read_string_descriptor_ascii(index).ok()),
        None => Ok(None),
    }
}

/// Relies on rusb::Device::open: opens the physical device.
#[verifier::external_body]
pub(crate) fn open_device(device: &UsbDeviceRef) -> (r: Result<UsbHandle, rusb::Error>) {
    Ok(UsbHandle { inner: device.inner.open()? })
}

/// Relies on rusb::DeviceHandle::claim_interface.
#[verifier::external_body]
pub(crate) fn claim_interface(handle: &UsbHandle, interface: u8) -> (r: Result<(), rusb::Error>) {
    handle.inner.claim_interface(interface)
}

/// Relies on rusb::DeviceHandle::release_interface.
#[verifier::external_body]
pub(crate) fn release_interface(handle: &UsbHandle, interface: u8) -> (r: Result<
    (),
    rusb::Error,
>)
    opens_invariants none
    no_unwind
{
    handle.inner.release_interface(interface)
}

/// Relies on rusb::Device::config_descriptor and the descriptor accessors
/// interfaces, descriptors, endpoint_descriptors, address and
/// transfer_type: collects the endpoints of the first alternate setting of
/// the configuration's first interface as plain values.
#[verifier::external_body]
pub(crate) fn list_endpoints(device: &UsbDeviceRef) -> (r: Result<Vec<EndpointDesc>, rusb::Error>) {
    let config = device.inner.config_descriptor(0)?;
    let mut out: Vec<EndpointDesc> = Vec::new();
    if let Some(interface) = config.interfaces().next() {
        if let Some(alternate) = interface.descriptors().next() {
            for endpoint in alternate.endpoint_descriptors() {
                out.push(EndpointDesc { address: endpoint.address(), kind: match endpoint.transfer_type() {
                    rusb::TransferType::Control => TransferKind::Control,
                    rusb::TransferType::Isochronous => TransferKind::Isochronous,
                    rusb::TransferType::Bulk => TransferKind::Bulk,
                    rusb::TransferType::Interrupt => TransferKind::Interrupt,
                } });
            }
        }
    }
    Ok(out)
}

/// Relies on rusb::DeviceHandle::write_bulk: on success at most the whole
/// buffer was sent.
#[verifier::external_body]
pub(crate) fn write_bulk(
    handle: &UsbHandle,
    endpoint: u8,
    data: &[u8],
    timeout_ms: u64,
) -> (r: Result<usize, rusb::Error>)
    requires
        data@.len() <= 0x7fffffff,
    ensures
        r matches Ok(n) ==> n <= data@.len(),
{
    handle.inner.write_bulk(endpoint, data, core::time::Duration::from_millis(timeout_ms))
}

/// Relies on rusb::DeviceHandle::write_interrupt: on success at most the
/// whole buffer was sent.
#[verifier::external_body]
pub(crate) fn write_interrupt(
    handle: &UsbHandle,
    endpoint: u8,
    data: &[u8],
    timeout_ms: u64,
) -> (r: Result<usize, rusb::Error>)
    requires
        data@.len() <= 0x7fffffff,
    ensures
        r matches Ok(n) ==> n <= data@.len(),
{
    handle.inner.write_interrupt(endpoint, data, core::time::Duration::from_millis(timeout_ms))
}

/// Relies on rusb::DeviceHandle::read_bulk: on success at most
/// `buffer.len()` bytes came in; the buffer keeps its length.
#[verifier::external_body]
pub(crate) fn read_bulk(
    handle: &UsbHandle,
    endpoint: u8,
    buffer: &mut Vec<u8>,
    timeout_ms: u64,
) -> (r: Result<usize, rusb::Error>)
    requires
        old(buffer)@.len() <= 0x7fffffff,
    ensures
        final(buffer)@.len() == old(buffer)@.len(),
        r matches Ok(n) ==> n <= old(buffer)@.len(),
{
    handle.inner.read_bulk(
        endpoint,
        buffer.as_mut_slice(),
        core::time::Duration::from_millis(timeout_ms),
    )
}

/// Relies on rusb::DeviceHandle::read_interrupt: on success at most
/// `buffer.len()` bytes came in; the buffer keeps its length.
#[verifier::external_body]
pub(crate) fn read_interrupt(
    handle: &UsbHandle,
    endpoint: u8,
    buffer: &mut Vec<u8>,
    timeout_ms: u64,
) -> (r: Result<usize, rusb::Error>)
    requires
        old(buffer)@.len() <= 0x7fffffff,
    ensures
        final(buffer)@.len() == old(buffer)@.len(),
        r matches Ok(n) ==> n <= old(buffer)@.len(),
{
    handle.inner.read_interrupt(
        endpoint,
        buffer.as_mut_slice(),
        core::time::Duration::from_millis(timeout_ms),
    )
}

/// Relies on rusb::DeviceHandle::read_control: on success at most
/// `buffer.len()` bytes came in; the buffer keeps its length.
#[verifier::external_body]
pub(crate) fn read_control(
    handle: &UsbHandle,
    request_type: u8,
    request: u8,
    value: u16,
    index: u16,
    buffer: &mut Vec<u8>,
    timeout_ms: u64,
) -> (r: Result<usize, rusb::Error>)
    requires
        old(buffer)@.len() <= 0xffff,
    ensures
        final(buffer)@.len() == old(buffer)@.len(),
        r matches Ok(n) ==> n <= old(buffer)@.len(),
{
    handle.inner.read_control(
        request_type,
        request,
        value,
        index,
        buffer.as_mut_slice(),
        core::time::Duration::from_millis(timeout_ms),
    )
}

/// Relies on rusb::DeviceHandle::clear_halt.
#[verifier::external_body]
pub(crate) fn clear_halt(handle: &UsbHandle, endpoint: u8) -> (r: Result<(), rusb::Error>) {
    handle.inner.clear_halt(endpoint)
}

/// Relies on spin_sleep::sleep: blocks the calling thread for the given
/// time; a drop-in for a thread sleep.
#[verifier::external_body]
pub(crate) fn pause_millis(ms: u64) {
    spin_sleep::sleep(core::time::Duration::from_millis(ms));
}

} // verus!
