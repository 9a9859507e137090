//! The instrument's framed binary packet format.
//!
//! A packet is a 12-byte little-endian header followed by a payload that is
//! zero-padded to a 4-byte boundary. Byte 0 carries the opcode (1 for a
//! write, 2 for a read request or response), bytes 1 and 2 carry the
//! sequence value and its 8-bit complement, bytes 4..8 the payload length,
//! and bytes 8..12 a fixed suffix. A response is either such a frame or a
//! bare payload; decoding tells the two apart by sniffing the opcode.

use vstd::prelude::*;
use vstd::string::StringSliceAdditionalSpecFns;

use crate::error::DriverError;

verus! {

/// Longest command the codec accepts, in bytes.
pub const MAX_CMD_LEN: usize = 64;

/// `n` rounded up to the next multiple of 4.
pub open spec fn align4(n: int) -> int {
    ((n + 3) / 4) * 4
}

/// The four little-endian bytes of `n`.
pub open spec fn le32_bytes(n: int) -> Seq<u8> {
    seq![
        (n % 256) as u8,
        ((n / 256) % 256) as u8,
        ((n / 65536) % 256) as u8,
        ((n / 16777216) % 256) as u8,
    ]
}

/// The value of the four little-endian bytes at the front of `b`.
pub open spec fn le32_value(b: Seq<u8>) -> int {
    b[0] + 256 * b[1] + 65536 * b[2] + 16777216 * b[3]
}

/// The framed bytes of a write packet: header, command, newline, padding.
pub open spec fn write_packet_bytes(cmd: Seq<u8>, sequence: u8) -> Seq<u8> {
    let aligned = align4(cmd.len() as int + 1);
    seq![1u8, sequence, (255 - sequence) as u8, 0u8] + le32_bytes(aligned)
        + seq![1u8, 0u8, 0u8, 0u8] + cmd + seq![10u8] + Seq::new(
        (aligned - cmd.len() - 1) as nat,
        |i: int| 0u8,
    )
}

/// The framed bytes of a read request: header with opcode 2, a payload
/// length of 4, an all-zero suffix, and 4 zero payload bytes.
pub open spec fn read_packet_bytes(sequence: u8) -> Seq<u8> {
    seq![
        2u8, sequence, (255 - sequence) as u8, 0u8,
        4u8, 0u8, 0u8, 0u8,
        0u8, 0u8, 0u8, 0u8,
        0u8, 0u8, 0u8, 0u8,
    ]
}

/// `s` with trailing carriage-return and line-feed bytes removed.
pub open spec fn strip_crlf(s: Seq<u8>) -> Seq<u8>
    decreases s.len(),
{
    if s.len() > 0 && (s[s.len() - 1] == 13 || s[s.len() - 1] == 10) {
        strip_crlf(s.drop_last())
    } else {
        s
    }
}

/// Whether a response buffer is a frame: at least a full header, and the
/// read-response opcode in front.
pub open spec fn is_framed(buf: Seq<u8>) -> bool {
    buf.len() >= 12 && buf[0] == 2
}

/// The payload slice of a framed response. A declared length of 0, or one
/// that equals or exceeds the bytes left after the header, means "all
/// remaining bytes"; only a strictly smaller declared length trims.
pub open spec fn frame_body(buf: Seq<u8>) -> Seq<u8> {
    let declared = le32_value(buf.subrange(4, 8));
    let avail = buf.len() - 12;
    let size = if 0 < declared && declared < avail {
        declared
    } else {
        avail
    };
    buf.subrange(12, 12 + size)
}

/// What decoding a response buffer yields: the framed payload, or the whole
/// buffer when it is not a frame, with trailing CR/LF stripped; an empty
/// buffer yields an empty result.
pub open spec fn decode_bytes(buf: Seq<u8>) -> Seq<u8> {
    if buf.len() == 0 {
        Seq::empty()
    } else if is_framed(buf) {
        strip_crlf(frame_body(buf))
    } else {
        strip_crlf(buf)
    }
}

/// Packet encoder and decoder.
pub struct Packet;

impl Packet {
    /// Encode a command into a write packet.
    ///
    /// Fails exactly when the command is empty or longer than 64 bytes.
    pub fn encode_write(command_str: &str, sequence: u8) -> (r: Result<Vec<u8>, DriverError>)
        ensures
            r is Ok <==> 1 <= command_str.spec_bytes().len() <= 64,
            r matches Err(e) ==> e == DriverError::InvalidCommand,
            r is Ok ==> r.unwrap()@ == write_packet_bytes(command_str.spec_bytes(), sequence),
    {
        Packet::encode_write_bytes(command_str.as_bytes(), sequence)
    }

    /// Encode a command given as bytes into a write packet.
    ///
    /// Fails exactly when the command is empty or longer than 64 bytes.
    pub fn encode_write_bytes(command: &[u8], sequence: u8) -> (r: Result<Vec<u8>, DriverError>)
        ensures
            r is Ok <==> 1 <= command@.len() <= 64,
            r matches Err(e) ==> e == DriverError::InvalidCommand,
            r is Ok ==> r.unwrap()@ == write_packet_bytes(command@, sequence),
    {
        let bytes: &[u8] = command;
        let len: usize = bytes.len();
        if len > MAX_CMD_LEN {
            return Err(DriverError::InvalidCommand);
        }
        if len == 0 {
            return Err(DriverError::InvalidCommand);
        }

        // Round command plus trailing newline up to the next 4-byte boundary.
        let aligned: usize = ((len + 4) / 4) * 4;
        let total: usize = 12 + aligned;
        let mut packet: Vec<u8> = Vec::new();

        // Header word: opcode 1, the sequence byte, its complement.
        packet.push(1u8);
        packet.push(sequence);
        packet.push(255 - sequence);
        packet.push(0u8);
        // Payload length, little-endian; it is below 256, so one byte.
        packet.push(aligned as u8);
        packet.push(0u8);
        packet.push(0u8);
        packet.push(0u8);
        // Fixed suffix of a write packet.
        packet.push(1u8);
        packet.push(0u8);
        packet.push(0u8);
        packet.push(0u8);

        proof {
            assert(aligned == align4(len + 1));
            assert(le32_bytes(aligned as int) =~= seq![aligned as u8, 0u8, 0u8, 0u8]);
            assert(packet@ =~= seq![
                1u8, sequence, (255 - sequence) as u8, 0u8]
                + le32_bytes(align4(len + 1)) + seq![1u8, 0u8, 0u8, 0u8]);
        }

        let ghost header: Seq<u8> = packet@;

        let mut i: usize = 0;
        while i < len
            invariant
                i <= len,
                len == bytes@.len(),
                packet@ == header + bytes@.subrange(0, i as int),
            decreases len - i,
        {
            packet.push(bytes[i]);
            proof {
                assert(packet@ =~= header + bytes@.subrange(0, i + 1));
            }
            i = i + 1;
        }
        proof {
            assert(bytes@.subrange(0, len as int) =~= bytes@);
        }

        // Trailing newline, then zero padding up to the aligned length.
        packet.push(10u8);
        let ghost filled: Seq<u8> = packet@;

        while packet.len() < total
            invariant
                filled.len() == 13 + len,
                filled.len() <= packet@.len() <= total,
                packet@ == filled + Seq::new((packet@.len() - filled.len()) as nat, |j: int| 0u8),
            decreases total - packet@.len(),
        {
            packet.push(0u8);
            proof {
                assert(packet@ =~= filled + Seq::new(
                    (packet@.len() - filled.len()) as nat,
                    |j: int| 0u8,
                ));
            }
        }

        proof {
            assert(packet@ =~= write_packet_bytes(bytes@, sequence));
        }
        Ok(packet)
    }

    /// Encode a read request: a 16-byte packet with no command payload.
    pub fn encode_read(sequence: u8) -> (r: Vec<u8>)
        ensures
            r@ == read_packet_bytes(sequence),
    {
        let mut packet: Vec<u8> = Vec::new();
        // Header word: opcode 2, the sequence byte, its complement.
        packet.push(2u8);
        packet.push(sequence);
        packet.push(255 - sequence);
        packet.push(0u8);
        // Payload length is fixed at 4.
        packet.push(4u8);
        packet.push(0u8);
        packet.push(0u8);
        packet.push(0u8);
        // Suffix and payload are all zero.
        let mut i: usize = 0;
        while i < 8
            invariant
                i <= 8,
                packet@.len() == 8 + i,
                packet@.subrange(0, 8) == seq![
                    2u8, sequence, (255 - sequence) as u8, 0u8, 4u8, 0u8, 0u8, 0u8],
                forall|j: int| 8 <= j < packet@.len() ==> packet@[j] == 0u8,
            decreases 8 - i,
        {
            packet.push(0u8);
            proof {
                assert(packet@.subrange(0, 8) =~= seq![
                    2u8, sequence, (255 - sequence) as u8, 0u8, 4u8, 0u8, 0u8, 0u8]);
            }
            i = i + 1;
        }
        proof {
            assert(packet@ =~= read_packet_bytes(sequence));
        }
        packet
    }

    /// Decode a response buffer into its payload bytes.
    ///
    /// An empty buffer decodes to an empty result. A framed buffer is cut
    /// down to its declared payload; anything else passes through whole.
    /// Trailing CR/LF bytes are stripped either way. Decoding never fails.
    pub fn decode_read(buffer: &[u8]) -> (r: Result<Vec<u8>, DriverError>)
        ensures
            r is Ok,
            r.unwrap()@ == decode_bytes(buffer@),
    {
        let n: usize = buffer.len();
        if n == 0 {
            return Ok(Vec::new());
        }

        let (start, size): (usize, usize) = if n >= 12 && buffer[0] == 2 {
            // Framed: read the declared payload length from the header.
            let declared: u32 = buffer[4] as u32 + 256 * (buffer[5] as u32) + 65536 * (buffer[6]
                as u32) + 16777216 * (buffer[7] as u32);
            proof {
                assert(declared == le32_value(buffer@.subrange(4, 8)));
            }
            let avail: usize = n - 12;
            let trimmed: usize = if 0 < declared && (declared as usize) < avail {
                declared as usize
            } else {
                avail
            };
            (12, trimmed)
        } else {
            // Raw payload with no header.
            (0, n)
        };

        let mut data: Vec<u8> = Vec::new();
        let mut i: usize = 0;
        while i < size
            invariant
                i <= size,
                n == buffer@.len(),
                start + size <= n,
                data@ == buffer@.subrange(start as int, start + i),
            decreases size - i,
        {
            data.push(buffer[start + i]);
            proof {
                assert(data@ =~= buffer@.subrange(start as int, start + i + 1));
            }
            i = i + 1;
        }

        let ghost body: Seq<u8> = data@;
        proof {
            if is_framed(buffer@) {
                assert(body =~= frame_body(buffer@));
            } else {
                assert(body =~= buffer@);
            }
        }

        // Strip trailing CR/LF one byte at a time.
        while data.len() > 0 && (data[data.len() - 1] == 13 || data[data.len() - 1] == 10)
            invariant
                strip_crlf(data@) == strip_crlf(body),
            decreases data@.len(),
        {
            data.pop();
        }
        proof {
            assert(strip_crlf(data@) == data@);
        }
        Ok(data)
    }
}

/// Law: a write packet for a valid command lays out as the format demands.
/// Its length is 12 plus the aligned payload length; the header holds the
/// write opcode, the sequence byte with its 8-bit complement, the aligned
/// payload length, and the write suffix; and the payload reads back as
/// the command, a newline, and zero padding.
pub proof fn lemma_encode_write_layout(cmd: Seq<u8>, sequence: u8)
    requires
        1 <= cmd.len() <= 64,
    ensures
        write_packet_bytes(cmd, sequence).len() == 12 + align4(cmd.len() as int + 1),
        write_packet_bytes(cmd, sequence)[0] == 1u8,
        write_packet_bytes(cmd, sequence)[1] == sequence,
        write_packet_bytes(cmd, sequence)[2] == (255 - sequence) as u8,
        write_packet_bytes(cmd, sequence)[3] == 0u8,
        write_packet_bytes(cmd, sequence).subrange(8, 12) == seq![1u8, 0u8, 0u8, 0u8],
        le32_value(write_packet_bytes(cmd, sequence).subrange(4, 8)) == align4(
            cmd.len() as int + 1,
        ),
        write_packet_bytes(cmd, sequence).subrange(12, 12 + cmd.len() as int) == cmd,
        write_packet_bytes(cmd, sequence)[12 + cmd.len() as int] == 10u8,
        forall|j: int|
            13 + cmd.len() <= j < write_packet_bytes(cmd, sequence).len()
                ==> write_packet_bytes(cmd, sequence)[j] == 0u8,
{
    let p = write_packet_bytes(cmd, sequence);
    let aligned = align4(cmd.len() as int + 1);
    assert(cmd.len() + 1 <= aligned < cmd.len() + 5);
    assert(p.subrange(4, 8) =~= le32_bytes(aligned));
    assert(aligned < 256);
    assert(le32_value(le32_bytes(aligned)) == aligned);
    assert(p.subrange(8, 12) =~= seq![1u8, 0u8, 0u8, 0u8]);
    assert(p.subrange(12, 12 + cmd.len() as int) =~= cmd);
}

/// Law: a framed response decodes to its declared window. A declared length
/// of 0, or one at least the remainder, yields the full remainder; a
/// strictly smaller one trims to exactly that many bytes — in each case
/// minus trailing CR/LF.
pub proof fn lemma_decode_framed(buf: Seq<u8>)
    requires
        buf.len() >= 12,
        buf[0] == 2,
    ensures
        le32_value(buf.subrange(4, 8)) == 0 || le32_value(buf.subrange(4, 8)) >= buf.len() - 12
            ==> decode_bytes(buf) == strip_crlf(buf.subrange(12, buf.len() as int)),
        0 < le32_value(buf.subrange(4, 8)) < buf.len() - 12 ==> decode_bytes(buf) == strip_crlf(
            buf.subrange(12, 12 + le32_value(buf.subrange(4, 8))),
        ),
{
}

/// Law: a buffer shorter than a header, or one whose first byte is not the
/// read-response opcode, decodes to the whole buffer minus trailing CR/LF.
pub proof fn lemma_decode_raw(buf: Seq<u8>)
    requires
        buf.len() < 12 || buf[0] != 2,
    ensures
        decode_bytes(buf) == strip_crlf(buf),
{
}

} // verus!

