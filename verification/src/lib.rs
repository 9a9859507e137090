//! Host-side driver for a bench multimeter reached over USB.
//!
//! The driver frames command strings and responses in the instrument's
//! binary packet format, manages the wrapping sequence number embedded in
//! every packet header, and drives the USB transport: endpoint discovery,
//! the post-open initialization handshake, and blocking read/write/clear
//! primitives with timeout and pacing. Set operations on stateful
//! settings read the value back and verify it, because the instrument
//! ignores some invalid settings silently.

#![allow(unused_imports)]

pub mod context;
pub mod device;
pub mod error;
pub mod measurement;
pub mod packet;
pub mod sequence;
pub mod text;
pub mod transport;
pub mod trigger;
mod usb;

pub use context::DeviceManager;
pub use context::UsbContext;
pub use device::Device;
pub use error::DriverError;
pub use error::EndpointRole;
pub use error::TransportError;
pub use error::VerificationError;
pub use measurement::AutoZero;
pub use measurement::CurrentRange;
pub use measurement::FrequencyVoltageRange;
pub use measurement::FunctionCode;
pub use measurement::NumberOfDisplayDigits;
pub use measurement::RawRange;
pub use measurement::ResistanceLowPowerRange;
pub use measurement::ResistanceRange;
pub use measurement::SamplingRate;
pub use measurement::ShortHand;
pub use measurement::VoltageACRange;
pub use measurement::VoltageDCRange;
pub use packet::Packet;
pub use packet::MAX_CMD_LEN;
pub use sequence::SequenceCounter;
pub use trigger::TriggerSource;
pub use transport::EndpointDesc;
pub use transport::TransferKind;
pub use transport::UsbDevice;
pub use transport::UsbDeviceMetadata;
pub use transport::UsbEndpoints;
pub use transport::PID;
pub use transport::VID;
