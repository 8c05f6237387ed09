//! Framing for the SUP800F binary protocol.

use control_rust::sup800f::{get_message, switch_to_binary_mode, switch_to_nmea_mode, _format_message};

#[test]
fn test_format_message() {
    {
        let empty_message: Vec<u8> = Vec::new();
        let formatted = _format_message(&empty_message);
        let length = formatted.len();
        assert!(formatted[length - 1] == b'\n');
        assert!(formatted[length - 2] == b'\r');
        // The big-endian payload length of an empty payload is zero.
        assert!(formatted[2] == 0 && formatted[3] == 0);
        assert!(length == 7);
    }
    {
        let byte: u8 = 0x45;
        // Duplicated bytes cancel out in the exclusive-or checksum.
        let message: Vec<u8> = vec![0x17, 0xA1, 0xA1, byte, 0x17];
        let formatted = _format_message(&message);
        let length = formatted.len();
        assert!(formatted[length - 1] == b'\n');
        assert!(formatted[length - 2] == b'\r');
        assert!(formatted[2] == 0 && formatted[3] == message.len() as u8);
        // The checksum sits just before the line ending.
        assert!(formatted[length - 3] == byte);
    }
}

#[test]
fn test_get_message() {
    let mut buffer: Vec<u8> = vec![
        // A binary message frame: header, the 0x0022-byte payload, its
        // checksum and the line ending.
        0xA0, 0xA1, 0x00, 0x22, 0xCF, 0x01, 0xBD, 0x4F, 0xE1, 0x54, 0xBE, 0x15, 0xE9, 0xE2, 0x3F,
        0x6F, 0x3C, 0xB4, 0xC0, 0xC5, 0x9D, 0x2A, 0x40, 0x79, 0x84, 0x08, 0x40, 0xCE, 0xFA, 0xB0,
        0x00, 0x01, 0x85, 0xB1, 0x41, 0xF1, 0x99, 0x9A, 0xB4, 0x0D, 0x0A,
    ];
    let empty_message: Vec<u8> = Vec::new();
    let formatted = _format_message(&empty_message);
    buffer.extend_from_slice(&formatted);

    let (first_message, next) = get_message(&buffer, 0).expect("No message extracted");
    // The extracted message holds the rewritten four-byte header and the
    // whole 0x22-byte payload.
    assert!(first_message.len() == 0x22 + 4);
    assert!(first_message[2] == 0x00 && first_message[3] == 0x22);
    assert!(first_message[4] == 0xCF && first_message[5] == 0x01);
    assert!(next == 0x22 + 4);
}

#[test]
fn test_change_mode_frames() {
    // Mode frames carry the three-byte configure payload and its checksum.
    let nmea = switch_to_nmea_mode();
    assert_eq!(nmea, vec![0xA0, 0xA1, 0, 3, 9, 1, 0, 9 ^ 1, 0x0D, 0x0A]);
    let binary = switch_to_binary_mode();
    assert_eq!(binary, vec![0xA0, 0xA1, 0, 3, 9, 2, 0, 9 ^ 2, 0x0D, 0x0A]);
}
