//! The transport session over one open USB device.
//!
//! A session owns the open device handle, the data endpoints discovered at
//! open time, and a timeout for blocking operations. Opening claims the
//! primary interface, discovers the endpoints, runs the mandatory
//! initialization handshake, and pauses to let the device settle; dropping
//! the session releases the interface, best effort.

use vstd::prelude::*;

use crate::error::EndpointRole;
use crate::error::DriverError;
use crate::error::TransportError;
use crate::usb;

verus! {

/// USB vendor identifier of the instrument.
pub const VID: u16 = 0x1334;

/// USB product identifier of the instrument.
pub const PID: u16 = 0x0203;

/// Timeout a fresh session starts with, in milliseconds.
pub const DEFAULT_TIMEOUT_MS: u64 = 5000;

/// Pause after the initialization handshake, letting the device settle.
pub const SETTLE_DELAY_MS: u64 = 100;

/// Pause after each data write, respecting the device's processing latency.
pub const WRITE_DELAY_MS: u64 = 20;

/// A USB endpoint's transfer kind.
#[derive(Debug, Clone, Copy, PartialEq, Eq, Structural)]
pub enum TransferKind {
    Control,
    Isochronous,
    Bulk,
    Interrupt,
}

/// Whether data transfers ride on this kind of endpoint.
pub open spec fn is_data_kind(kind: TransferKind) -> bool {
    kind == TransferKind::Bulk || kind == TransferKind::Interrupt
}

impl TransferKind {
    /// Whether data transfers ride on this kind of endpoint.
    pub fn is_data(&self) -> (r: bool)
        ensures
            r == is_data_kind(*self),
    {
        match self {
            TransferKind::Bulk => true,
            TransferKind::Interrupt => true,
            _ => false,
        }
    }
}

/// One endpoint descriptor, reduced to what endpoint selection reads.
#[derive(Debug, Clone, Copy, PartialEq, Eq, Structural)]
pub struct EndpointDesc {
    /// The endpoint address; bit 7 set means inbound (device to host).
    pub address: u8,
    /// The endpoint's transfer kind.
    pub kind: TransferKind,
}

/// An endpoint the session can read from: bulk or interrupt, inbound.
pub open spec fn is_read_candidate(e: EndpointDesc) -> bool {
    is_data_kind(e.kind) && (e.address & 0x80) == 0x80
}

/// An endpoint the session can write to: bulk or interrupt, outbound.
pub open spec fn is_write_candidate(e: EndpointDesc) -> bool {
    is_data_kind(e.kind) && (e.address & 0x80) != 0x80
}

/// Index of the first read candidate in `s`, or -1 where none exists.
pub open spec fn first_read_index(s: Seq<EndpointDesc>) -> int
    decreases s.len(),
{
    if s.len() == 0 {
        -1
    } else if is_read_candidate(s[0]) {
        0
    } else {
        let rest = first_read_index(s.drop_first());
        if rest < 0 {
            -1
        } else {
            rest + 1
        }
    }
}

/// Index of the first write candidate in `s`, or -1 where none exists.
pub open spec fn first_write_index(s: Seq<EndpointDesc>) -> int
    decreases s.len(),
{
    if s.len() == 0 {
        -1
    } else if is_write_candidate(s[0]) {
        0
    } else {
        let rest = first_write_index(s.drop_first());
        if rest < 0 {
            -1
        } else {
            rest + 1
        }
    }
}

proof fn lemma_first_read_found(s: Seq<EndpointDesc>, i: int)
    requires
        0 <= i < s.len(),
        is_read_candidate(s[i]),
        forall|j: int| 0 <= j < i ==> !is_read_candidate(s[j]),
    ensures
        first_read_index(s) == i,
    decreases i,
{
    if i > 0 {
        lemma_first_read_found(s.drop_first(), i - 1);
    }
}

proof fn lemma_first_read_none(s: Seq<EndpointDesc>)
    requires
        forall|j: int| 0 <= j < s.len() ==> !is_read_candidate(s[j]),
    ensures
        first_read_index(s) == -1,
    decreases s.len(),
{
    if s.len() > 0 {
        lemma_first_read_none(s.drop_first());
    }
}

proof fn lemma_first_write_found(s: Seq<EndpointDesc>, i: int)
    requires
        0 <= i < s.len(),
        is_write_candidate(s[i]),
        forall|j: int| 0 <= j < i ==> !is_write_candidate(s[j]),
    ensures
        first_write_index(s) == i,
    decreases i,
{
    if i > 0 {
        lemma_first_write_found(s.drop_first(), i - 1);
    }
}

proof fn lemma_first_write_none(s: Seq<EndpointDesc>)
    requires
        forall|j: int| 0 <= j < s.len() ==> !is_write_candidate(s[j]),
    ensures
        first_write_index(s) == -1,
    decreases s.len(),
{
    if s.len() > 0 {
        lemma_first_write_none(s.drop_first());
    }
}

/// The session's data endpoints, discovered once at open time.
#[derive(Debug, Clone, Copy, PartialEq, Eq, Structural)]
pub struct UsbEndpoints {
    pub read_addr: u8,
    pub read_kind: TransferKind,
    pub write_addr: u8,
    pub write_kind: TransferKind,
}

/// Pick the session's endpoints from the scanned descriptors: the first
/// inbound and the first outbound endpoint whose kind is bulk or
/// interrupt. Fails when either is absent after the full scan, naming the
/// missing one (the read endpoint is checked first).
#[verifier::loop_isolation(false)]
pub fn select_endpoints(descriptors: &Vec<EndpointDesc>) -> (r: Result<UsbEndpoints, DriverError>)
    ensures
        r is Ok <==> first_read_index(descriptors@) >= 0 && first_write_index(descriptors@) >= 0,
        first_read_index(descriptors@) < 0 ==> (r matches Err(e) && e == DriverError::Transport(
            TransportError::NoReadEndpoint,
        )),
        first_read_index(descriptors@) >= 0 && first_write_index(descriptors@) < 0 ==> (r
            matches Err(e) && e == DriverError::Transport(TransportError::NoWriteEndpoint)),
        r matches Ok(ep) ==> ep.read_addr == descriptors@[first_read_index(descriptors@)].address
            && ep.read_kind == descriptors@[first_read_index(descriptors@)].kind && ep.write_addr
            == descriptors@[first_write_index(descriptors@)].address && ep.write_kind
            == descriptors@[first_write_index(descriptors@)].kind,
        r matches Ok(ep) ==> is_data_kind(ep.read_kind) && is_data_kind(ep.write_kind),
{
    let n: usize = descriptors.len();
    let mut read_ep: Option<EndpointDesc> = None;
    let mut write_ep: Option<EndpointDesc> = None;
    let ghost mut ri: int = -1;
    let ghost mut wi: int = -1;

    let mut i: usize = 0;
    while i < n && !(read_ep.is_some() && write_ep.is_some())
        invariant
            i <= n,
            read_ep is Some <==> ri >= 0,
            write_ep is Some <==> wi >= 0,
            read_ep matches Some(e) ==> 0 <= ri < i && e == descriptors@[ri] && is_read_candidate(
                e,
            ) && (forall|j: int| 0 <= j < ri ==> !is_read_candidate(descriptors@[j])),
            read_ep is None ==> forall|j: int| 0 <= j < i ==> !is_read_candidate(descriptors@[j]),
            write_ep matches Some(e) ==> 0 <= wi < i && e == descriptors@[wi]
                && is_write_candidate(e) && (forall|j: int|
                0 <= j < wi ==> !is_write_candidate(descriptors@[j])),
            write_ep is None ==> forall|j: int| 0 <= j < i ==> !is_write_candidate(descriptors@[j]),
        decreases n - i,
    {
        let e = descriptors[i];
        // Only bulk and interrupt endpoints carry the session's data.
        if e.kind.is_data() {
            if (e.address & 0x80) == 0x80 {
                if read_ep.is_none() {
                    read_ep = Some(e);
                    proof {
                        ri = i as int;
                    }
                }
            } else {
                if write_ep.is_none() {
                    write_ep = Some(e);
                    proof {
                        wi = i as int;
                    }
                }
            }
        }
        i = i + 1;
    }

    match read_ep {
        None => {
            proof {
                lemma_first_read_none(descriptors@);
            }
            Err(DriverError::Transport(TransportError::NoReadEndpoint))
        },
        Some(re) => {
            proof {
                lemma_first_read_found(descriptors@, ri);
            }
            match write_ep {
                None => {
                    proof {
                        lemma_first_write_none(descriptors@);
                    }
                    Err(DriverError::Transport(TransportError::NoWriteEndpoint))
                },
                Some(we) => {
                    proof {
                        lemma_first_write_found(descriptors@, wi);
                    }
                    Ok(
                        UsbEndpoints {
                            read_addr: re.address,
                            read_kind: re.kind,
                            write_addr: we.address,
                            write_kind: we.kind,
                        },
                    )
                },
            }
        },
    }
}

/// What the enumeration collaborator hands over for one addressable
/// device: its identifiers, an optional serial string, and the opaque
/// handle the transport opens.
pub struct UsbDeviceMetadata {
    pub device: usb::UsbDeviceRef,
    pub vendor_id: u16,
    pub product_id: u16,
    pub serial_number: Option<String>,
}

/// The open transport session.
pub struct UsbDevice {
    handle: usb::UsbHandle,
    endpoints: UsbEndpoints,
    timeout_ms: u64,
}

impl UsbDevice {
    /// The session's endpoints.
    pub closed spec fn spec_endpoints(&self) -> UsbEndpoints {
        self.endpoints
    }

    /// The session's timeout in milliseconds.
    pub closed spec fn timeout_millis(&self) -> u64 {
        self.timeout_ms
    }

    /// Well-formedness: both data endpoints are bulk or interrupt, so every
    /// transfer has a kind to dispatch on.
    pub open spec fn wf(&self) -> bool {
        is_data_kind(self.spec_endpoints().read_kind) && is_data_kind(
            self.spec_endpoints().write_kind,
        )
    }

    /// Open a session over the device the metadata names: open the handle,
    /// claim the primary interface, discover the data endpoints, run the
    /// initialization handshake, and let the device settle.
    pub fn open(metadata: &UsbDeviceMetadata) -> (r: Result<UsbDevice, DriverError>)
        ensures
            r matches Ok(d) ==> d.wf() && d.timeout_millis() == DEFAULT_TIMEOUT_MS,
            r matches Err(e) ==> e matches DriverError::Transport(_),
    {
        let handle = match usb::open_device(&metadata.device) {
            Ok(h) => h,
            Err(_) => {
                return Err(DriverError::Transport(TransportError::OpenFailed));
            },
        };

        // Claim the device by claiming the primary interface.
        if usb::claim_interface(&handle, 0).is_err() {
            return Err(DriverError::Transport(TransportError::ClaimFailed));
        }

        let descriptors = match usb::list_endpoints(&metadata.device) {
            Ok(d) => d,
            Err(_) => {
                return Err(DriverError::Transport(TransportError::DiscoveryFailed));
            },
        };
        let endpoints = match select_endpoints(&descriptors) {
            Ok(ep) => ep,
            Err(e) => {
                return Err(e);
            },
        };

        let device = UsbDevice { handle, endpoints, timeout_ms: DEFAULT_TIMEOUT_MS };

        device.send_init_control_transfers()?;

        // Let the device settle before the first operation.
        usb::pause_millis(SETTLE_DELAY_MS);

        Ok(device)
    }

    /// The initialization handshake: one vendor-scoped and one
    /// class-scoped inbound control transfer, both results discarded.
    fn send_init_control_transfers(&self) -> (r: Result<(), DriverError>)
        ensures
            r matches Err(e) ==> e == DriverError::Transport(TransportError::InitFailed),
    {
        // Vendor request 0xF5, reading 2 bytes.
        let mut scratch: Vec<u8> = Vec::new();
        scratch.push(0);
        scratch.push(0);
        if usb::read_control(&self.handle, 0xC0, 0xF5, 0x0000, 0x0000, &mut scratch,
            self.timeout_ms).is_err() {
            return Err(DriverError::Transport(TransportError::InitFailed));
        }

        // Class request 0xA0 with value 1, reading 1 byte.
        let mut scratch: Vec<u8> = Vec::new();
        scratch.push(0);
        if usb::read_control(&self.handle, 0xA0, 0xA0, 0x0001, 0x0000, &mut scratch,
            self.timeout_ms).is_err() {
            return Err(DriverError::Transport(TransportError::InitFailed));
        }

        Ok(())
    }

    /// Set the timeout for subsequent operations, in milliseconds.
    pub fn set_timeout(&mut self, timeout_ms: u64)
        ensures
            final(self).timeout_millis() == timeout_ms,
            final(self).spec_endpoints() == old(self).spec_endpoints(),
    {
        self.timeout_ms = timeout_ms;
    }

    /// The timeout used by blocking operations, in milliseconds.
    pub fn timeout(&self) -> (r: u64)
        ensures
            r == self.timeout_millis(),
    {
        self.timeout_ms
    }

    /// Send raw data over the write endpoint, by bulk or interrupt
    /// transfer as discovered, then pause for the device to process.
    pub fn write(&self, data: &[u8]) -> (r: Result<usize, DriverError>)
        requires
            self.wf(),
            data@.len() <= 0x7fffffff,
        ensures
            r matches Ok(n) ==> n <= data@.len(),
            r matches Err(e) ==> e == DriverError::Transport(TransportError::WriteFailed),
    {
        let sent = if matches!(self.endpoints.write_kind, TransferKind::Interrupt) {
            usb::write_interrupt(&self.handle, self.endpoints.write_addr, data, self.timeout_ms)
        } else {
            usb::write_bulk(&self.handle, self.endpoints.write_addr, data, self.timeout_ms)
        };
        let transferred = match sent {
            Ok(n) => n,
            Err(_) => {
                return Err(DriverError::Transport(TransportError::WriteFailed));
            },
        };

        // Give the instrument time to process what was sent.
        usb::pause_millis(WRITE_DELAY_MS);

        Ok(transferred)
    }

    /// Receive raw data over the read endpoint, by bulk or interrupt
    /// transfer as discovered, into the caller's buffer.
    pub fn read(&self, buffer: &mut Vec<u8>) -> (r: Result<usize, DriverError>)
        requires
            self.wf(),
            old(buffer)@.len() <= 0x7fffffff,
        ensures
            final(buffer)@.len() == old(buffer)@.len(),
            r matches Ok(n) ==> n <= old(buffer)@.len(),
            r matches Err(e) ==> e == DriverError::Transport(TransportError::ReadFailed),
    {
        let got = if matches!(self.endpoints.read_kind, TransferKind::Interrupt) {
            usb::read_interrupt(&self.handle, self.endpoints.read_addr, buffer, self.timeout_ms)
        } else {
            usb::read_bulk(&self.handle, self.endpoints.read_addr, buffer, self.timeout_ms)
        };
        match got {
            Ok(n) => Ok(n),
            Err(_) => Err(DriverError::Transport(TransportError::ReadFailed)),
        }
    }

    /// Clear a stalled condition on both endpoints, the read endpoint
    /// first; the error names the endpoint that failed.
    pub fn clear_halt(&self) -> (r: Result<(), DriverError>)
        ensures
            r matches Err(e) ==> e == DriverError::Transport(
                TransportError::ClearFailed { endpoint: EndpointRole::Read },
            ) || e == DriverError::Transport(
                TransportError::ClearFailed { endpoint: EndpointRole::Write },
            ),
    {
        if usb::clear_halt(&self.handle, self.endpoints.read_addr).is_err() {
            return Err(
                DriverError::Transport(TransportError::ClearFailed { endpoint: EndpointRole::Read }),
            );
        }
        if usb::clear_halt(&self.handle, self.endpoints.write_addr).is_err() {
            return Err(
                DriverError::Transport(TransportError::ClearFailed { endpoint: EndpointRole::Write }),
            );
        }
        Ok(())
    }

    /// Read the instrument's status byte by a vendor-scoped control
    /// transfer; anything but exactly one returned byte is an error.
    pub fn read_status(&self) -> (r: Result<u8, DriverError>)
        ensures
            r matches Err(e) ==> e == DriverError::Transport(TransportError::StatusReadFailed) || (
            e matches DriverError::Transport(TransportError::UnexpectedStatusLength { transferred })
                && transferred != 1),
    {
        let mut status: Vec<u8> = Vec::new();
        status.push(0);
        let transferred = match usb::read_control(
            &self.handle,
            0xC0,
            0x00,
            0x0000,
            0x0000,
            &mut status,
            self.timeout_ms,
        ) {
            Ok(n) => n,
            Err(_) => {
                return Err(DriverError::Transport(TransportError::StatusReadFailed));
            },
        };
        if transferred != 1 {
            return Err(DriverError::Transport(TransportError::UnexpectedStatusLength { transferred }));
        }
        Ok(status[0])
    }
}

impl Drop for UsbDevice {
    /// Release the claimed interface, best effort: by teardown time the
    /// caller has no recourse, so a failure here is swallowed.
    fn drop(&mut self)
        opens_invariants none
        no_unwind
    {
        let _ = usb::release_interface(&self.handle, 0);
    }
}

} // verus!
