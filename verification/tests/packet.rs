//! Tests for the packet codec: write and read-request encoding, and the
//! framed-or-raw decode heuristic with its length clamping.

use adcmt7351::DriverError;
use adcmt7351::Packet;

#[test]
fn encode_write_rst_with_sequence_five() {
    let packet = Packet::encode_write("*RST", 5).unwrap();
    assert_eq!(packet.len(), 20);
    // Header word: opcode 1, sequence 5, complement 250.
    assert_eq!(&packet[0..4], &[0x01, 0x05, 0xFA, 0x00]);
    // Payload length field: round_up_to_4(5) == 8, little-endian.
    assert_eq!(&packet[4..8], &[0x08, 0x00, 0x00, 0x00]);
    // Fixed write suffix.
    assert_eq!(&packet[8..12], &[0x01, 0x00, 0x00, 0x00]);
    // Payload: command, newline, three bytes of zero padding.
    assert_eq!(&packet[12..], b"*RST\n\0\0\0");
}

#[test]
fn encode_write_length_formula() {
    for command in ["A", "AB", "ABC", "ABCD", "F1,R4", "KOM100"] {
        let packet = Packet::encode_write(command, 1).unwrap();
        let aligned = (command.len() + 1 + 3) / 4 * 4;
        assert_eq!(packet.len(), 12 + aligned);
        assert_eq!(packet[4] as usize, aligned);
        assert_eq!(&packet[12..12 + command.len()], command.as_bytes());
        assert_eq!(packet[12 + command.len()], 0x0A);
        for &b in &packet[13 + command.len()..] {
            assert_eq!(b, 0);
        }
    }
}

#[test]
fn encode_write_empty_command_fails() {
    assert_eq!(Packet::encode_write("", 1), Err(DriverError::InvalidCommand));
}

#[test]
fn encode_write_sixty_five_bytes_fails() {
    let command = "A".repeat(65);
    assert_eq!(
        Packet::encode_write(&command, 1),
        Err(DriverError::InvalidCommand)
    );
}

#[test]
fn encode_write_sixty_four_bytes_succeeds() {
    let command = "A".repeat(64);
    let packet = Packet::encode_write(&command, 1).unwrap();
    // 64 + newline rounds up to 68 payload bytes.
    assert_eq!(packet.len(), 12 + 68);
}

#[test]
fn encode_read_is_sixteen_bytes() {
    let packet = Packet::encode_read(7);
    assert_eq!(
        packet,
        vec![0x02, 0x07, 0xF8, 0x00, 0x04, 0x00, 0x00, 0x00, 0, 0, 0, 0, 0, 0, 0, 0]
    );
}

#[test]
fn encode_read_complement_wraps() {
    let packet = Packet::encode_read(255);
    assert_eq!(&packet[0..4], &[0x02, 0xFF, 0x00, 0x00]);
}

#[test]
fn decode_empty_input_yields_empty_result() {
    assert_eq!(Packet::decode_read(&[]), Ok(Vec::new()));
}

#[test]
fn decode_framed_declared_length_trims() {
    // Declared length 2 while 5 bytes follow the header: only the first
    // two count; the CR/LF past the window is ignored with the rest.
    let buffer = [
        0x02, 0, 0, 0, 0x02, 0, 0, 0, 0, 0, 0, 0, 0x34, 0x2E, 0x32, 0x0D, 0x0A,
    ];
    assert_eq!(Packet::decode_read(&buffer), Ok(vec![0x34, 0x2E]));
}

#[test]
fn decode_framed_declared_zero_takes_remainder() {
    let buffer = [
        0x02, 0, 0, 0, 0x00, 0, 0, 0, 0, 0, 0, 0, b'h', b'i', 0x0D, 0x0A,
    ];
    assert_eq!(Packet::decode_read(&buffer), Ok(b"hi".to_vec()));
}

#[test]
fn decode_framed_declared_at_least_remainder_takes_remainder() {
    let buffer = [
        0x02, 0, 0, 0, 0x64, 0, 0, 0, 0, 0, 0, 0, b'o', b'k', 0x0A,
    ];
    assert_eq!(Packet::decode_read(&buffer), Ok(b"ok".to_vec()));
}

#[test]
fn decode_header_only_frame_is_empty() {
    let buffer = [0x02, 0, 0, 0, 0x04, 0, 0, 0, 0, 0, 0, 0];
    assert_eq!(Packet::decode_read(&buffer), Ok(Vec::new()));
}

#[test]
fn decode_short_buffer_passes_through() {
    let buffer = [b'o', b'k', 0x0D, 0x0A];
    assert_eq!(Packet::decode_read(&buffer), Ok(b"ok".to_vec()));
}

#[test]
fn decode_wrong_opcode_passes_through_whole_buffer() {
    // Twelve bytes or more, but the first byte is not the read opcode:
    // raw payload, only trailing CR/LF goes.
    let buffer = [
        b'v', b'a', b'l', b'u', b'e', b'=', b'1', b'.', b'2', b'3', b'4', b'5', 0x0A,
    ];
    assert_eq!(Packet::decode_read(&buffer), Ok(b"value=1.2345".to_vec()));
}

#[test]
fn decode_strips_every_trailing_cr_and_lf() {
    let buffer = [b'x', 0x0D, 0x0A, 0x0D, 0x0A];
    assert_eq!(Packet::decode_read(&buffer), Ok(b"x".to_vec()));
}

#[test]
fn decode_all_crlf_yields_empty() {
    let buffer = [0x0D, 0x0A, 0x0A];
    assert_eq!(Packet::decode_read(&buffer), Ok(Vec::new()));
}
