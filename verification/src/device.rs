//! The device session: command/response cycles over one open instrument.
//!
//! A session owns a transport session and a sequence counter. Writing
//! frames a command with the next sequence value and sends it; reading
//! sends a read-request frame, pauses for the instrument to prepare its
//! reply, performs a bounded blocking read, and decodes the buffer back
//! into text.

use vstd::prelude::*;
use vstd::string::StringSliceAdditionalSpecFns;

use crate::error::DriverError;
use crate::error::EndpointRole;
use crate::error::TransportError;
use crate::packet::decode_bytes;
use crate::packet::Packet;
use crate::sequence::next_sequence;
use crate::sequence::SequenceCounter;
use crate::text::bytes_to_text;
use crate::transport::UsbDevice;
use crate::transport::UsbDeviceMetadata;
use crate::transport::DEFAULT_TIMEOUT_MS;
use crate::usb;

verus! {

/// Pause between sending a read request and reading the reply.
pub const READ_REQUEST_DELAY_MS: u64 = 10;

/// Size of the receive buffer for one reply.
pub const READ_BUFFER_LEN: usize = 128;

/// Decode a received buffer and interpret its payload as text: the
/// framed-or-raw decode first, then a strict text conversion.
pub fn decode_response_text(raw: &[u8]) -> (r: Result<String, DriverError>)
    ensures
        r is Ok <==> vstd::utf8::valid_utf8(decode_bytes(raw@)),
        r matches Ok(s) ==> vstd::utf8::encode_utf8(s@) == decode_bytes(raw@),
        r matches Err(e) ==> e == DriverError::NonTextResponse,
{
    let payload = match Packet::decode_read(raw) {
        Ok(data) => data,
        Err(e) => {
            return Err(e);
        },
    };
    bytes_to_text(payload)
}

/// An open instrument session.
pub struct Device {
    usb: UsbDevice,
    sequence: SequenceCounter,
}

impl Device {
    /// Well-formedness of the owned transport session.
    pub closed spec fn wf(&self) -> bool {
        self.usb.wf()
    }

    /// The sequence counter's current value.
    pub closed spec fn seq_value(&self) -> u8 {
        self.sequence.value()
    }

    /// The transport timeout in milliseconds.
    pub closed spec fn timeout_millis(&self) -> u64 {
        self.usb.timeout_millis()
    }

    /// Open a session over the instrument the metadata names, with a fresh
    /// sequence counter.
    pub fn open(metadata: &UsbDeviceMetadata) -> (r: Result<Device, DriverError>)
        ensures
            r matches Ok(d) ==> d.wf() && d.seq_value() == 0 && d.timeout_millis()
                == DEFAULT_TIMEOUT_MS,
            r matches Err(e) ==> e matches DriverError::Transport(_),
    {
        let usb = match UsbDevice::open(metadata) {
            Ok(u) => u,
            Err(e) => {
                return Err(e);
            },
        };
        Ok(Device { usb, sequence: SequenceCounter::new() })
    }

    /// Set the timeout for subsequent transport operations, in
    /// milliseconds.
    pub fn set_timeout(&mut self, timeout_ms: u64)
        ensures
            final(self).timeout_millis() == timeout_ms,
            final(self).wf() == old(self).wf(),
            final(self).seq_value() == old(self).seq_value(),
    {
        self.usb.set_timeout(timeout_ms);
    }

    /// The transport timeout in milliseconds.
    pub fn timeout(&self) -> (r: u64)
        ensures
            r == self.timeout_millis(),
    {
        self.usb.timeout()
    }

    /// Frame a command given as bytes and send it: the sequence advances
    /// once whether or not the command is valid, as the counter is drawn
    /// before encoding.
    pub(crate) fn write_frame(&mut self, command: &[u8]) -> (r: Result<(), DriverError>)
        requires
            old(self).wf(),
        ensures
            final(self).wf(),
            final(self).timeout_millis() == old(self).timeout_millis(),
            final(self).seq_value() == next_sequence(old(self).seq_value()),
            (r matches Err(e) && e == DriverError::InvalidCommand) <==> !(1 <= command@.len()
                <= 64),
            r matches Err(e) ==> e == DriverError::InvalidCommand || e == DriverError::Transport(
                TransportError::WriteFailed,
            ),
    {
        let sequence = self.sequence.next();
        let packet = match Packet::encode_write_bytes(command, sequence) {
            Ok(p) => p,
            Err(e) => {
                return Err(e);
            },
        };
        match self.usb.write(packet.as_slice()) {
            Ok(_) => Ok(()),
            Err(e) => Err(e),
        }
    }

    /// Write a command to the instrument.
    ///
    /// Fails with `InvalidCommand` exactly when the command is empty or
    /// longer than 64 bytes, and with a transport error when sending
    /// fails.
    pub fn write(&mut self, command: &str) -> (r: Result<(), DriverError>)
        requires
            old(self).wf(),
        ensures
            final(self).wf(),
            final(self).timeout_millis() == old(self).timeout_millis(),
            final(self).seq_value() == next_sequence(old(self).seq_value()),
            (r matches Err(e) && e == DriverError::InvalidCommand) <==> !(1
                <= command.spec_bytes().len() <= 64),
            r matches Err(e) ==> e == DriverError::InvalidCommand || e == DriverError::Transport(
                TransportError::WriteFailed,
            ),
    {
        self.write_frame(command.as_bytes())
    }

    /// Send a read request, wait for the instrument to prepare its reply,
    /// read into a bounded buffer, and decode the framed or raw payload.
    pub(crate) fn read_frame(&mut self) -> (r: Result<Vec<u8>, DriverError>)
        requires
            old(self).wf(),
        ensures
            final(self).wf(),
            final(self).timeout_millis() == old(self).timeout_millis(),
            final(self).seq_value() == next_sequence(old(self).seq_value()),
            r matches Err(e) ==> e == DriverError::Transport(TransportError::WriteFailed) || e
                == DriverError::Transport(TransportError::ReadFailed),
    {
        let sequence = self.sequence.next();
        let request = Packet::encode_read(sequence);
        if let Err(e) = self.usb.write(request.as_slice()) {
            return Err(e);
        }

        // Give the instrument time to prepare the reply.
        usb::pause_millis(READ_REQUEST_DELAY_MS);

        let mut buffer: Vec<u8> = Vec::new();
        while buffer.len() < READ_BUFFER_LEN
            invariant
                buffer@.len() <= READ_BUFFER_LEN,
            decreases READ_BUFFER_LEN - buffer@.len(),
        {
            buffer.push(0);
        }
        let transferred = match self.usb.read(&mut buffer) {
            Ok(n) => n,
            Err(e) => {
                return Err(e);
            },
        };
        buffer.truncate(transferred);

        match Packet::decode_read(buffer.as_slice()) {
            Ok(data) => Ok(data),
            Err(e) => Err(e),
        }
    }

    /// Read a response from the instrument as text.
    pub fn read(&mut self) -> (r: Result<String, DriverError>)
        requires
            old(self).wf(),
        ensures
            final(self).wf(),
            final(self).timeout_millis() == old(self).timeout_millis(),
            final(self).seq_value() == next_sequence(old(self).seq_value()),
            r matches Err(e) ==> e == DriverError::Transport(TransportError::WriteFailed) || e
                == DriverError::Transport(TransportError::ReadFailed) || e
                == DriverError::NonTextResponse,
    {
        let raw = match self.read_frame() {
            Ok(d) => d,
            Err(e) => {
                return Err(e);
            },
        };
        bytes_to_text(raw)
    }


    /// Clear a stalled condition on the instrument's data endpoints.
    pub fn clear(&mut self) -> (r: Result<(), DriverError>)
        ensures
            *final(self) == *old(self),
            r matches Err(e) ==> e == DriverError::Transport(
                TransportError::ClearFailed { endpoint: EndpointRole::Read },
            ) || e == DriverError::Transport(
                TransportError::ClearFailed { endpoint: EndpointRole::Write },
            ),
    {
        self.usb.clear_halt()
    }

    /// One command/response cycle: send the command, then read the reply
    /// as text. The sequence advances twice, once per direction.
    pub(crate) fn query_frame(&mut self, command: &[u8]) -> (r: Result<String, DriverError>)
        requires
            old(self).wf(),
            1 <= command@.len() <= 64,
        ensures
            final(self).wf(),
            final(self).timeout_millis() == old(self).timeout_millis(),
            r is Ok ==> final(self).seq_value() == next_sequence(
                next_sequence(old(self).seq_value()),
            ),
            r matches Err(e) ==> e == DriverError::Transport(TransportError::WriteFailed) || e
                == DriverError::Transport(TransportError::ReadFailed) || e
                == DriverError::NonTextResponse,
    {
        if let Err(e) = self.write_frame(command) {
            return Err(e);
        }
        self.read()
    }
}

} // verus!
