//! Error taxonomy of the driver.
//!
//! Protocol failures (a command the codec refuses, a response that cannot be
//! understood), transport failures (each naming the step that failed), and
//! read-back verification failures (naming the setting with the expected and
//! observed values).

use vstd::prelude::*;

verus! {

/// Which data endpoint of the session an operation was acting on.
#[derive(Debug, Clone, Copy, PartialEq, Eq, Structural)]
pub enum EndpointRole {
    /// The inbound (device-to-host) endpoint.
    Read,
    /// The outbound (host-to-device) endpoint.
    Write,
}

/// A failure of the USB transport, naming the step that failed.
#[derive(Debug, Clone, Copy, PartialEq, Eq, Structural)]
pub enum TransportError {
    /// The bus context could not be created.
    ContextFailed,
    /// The bus could not be enumerated or a device would not describe itself.
    EnumerationFailed,
    /// The physical device could not be opened.
    OpenFailed,
    /// The primary interface could not be claimed.
    ClaimFailed,
    /// The endpoint descriptors could not be read.
    DiscoveryFailed,
    /// No inbound bulk or interrupt endpoint was found.
    NoReadEndpoint,
    /// No outbound bulk or interrupt endpoint was found.
    NoWriteEndpoint,
    /// One of the initialization control transfers failed.
    InitFailed,
    /// A data transfer towards the device failed or timed out.
    WriteFailed,
    /// A data transfer from the device failed or timed out.
    ReadFailed,
    /// Clearing a halted endpoint failed; names the endpoint that failed first.
    ClearFailed { endpoint: EndpointRole },
    /// The status-byte control transfer failed.
    StatusReadFailed,
    /// The status-byte control transfer returned other than exactly one byte.
    UnexpectedStatusLength { transferred: usize },
}

/// A read-back verification failure after a set operation, naming the
/// setting together with the intended and the observed value.
#[derive(Debug, Clone, PartialEq, Eq)]
pub enum VerificationError {
    SamplingCount { expected: u16, actual: u16 },
    TriggerDelay { expected: u16, actual: String },
    TriggerSource { expected: u8, actual: u8 },
    ContinuousMeasurement { expected: bool, actual: bool },
}

/// Any failure the driver surfaces to its caller.
#[derive(Debug, Clone, PartialEq, Eq)]
pub enum DriverError {
    /// The command handed to the codec is empty or longer than 64 bytes.
    InvalidCommand,
    /// A response could not be interpreted (bad number, unknown code).
    MalformedResponse,
    /// A response payload is not valid text.
    NonTextResponse,
    /// The USB transport failed.
    Transport(TransportError),
    /// A set operation did not read back as the intended value.
    Verification(VerificationError),
    /// Enumeration found no matching instrument.
    NoDeviceFound,
}

} // verus!
