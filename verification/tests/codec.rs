use sourcon::error::RconError;
use sourcon::packet::{Packet, PacketType};

fn packed(id: i32, packet_type: PacketType, body: &str) -> Vec<u8> {
    Packet::new(id, packet_type, body).pack()
}

#[test]
fn pack_exact_bytes() {
    let bytes = packed(1, PacketType::Exec, "hello world");
    let mut expected: Vec<u8> = vec![21, 0, 0, 0, 1, 0, 0, 0, 2, 0, 0, 0];
    expected.extend_from_slice(b"hello world");
    expected.extend_from_slice(&[0, 0]);
    assert_eq!(bytes, expected);
}

#[test]
fn pack_negative_id_bytes() {
    let bytes = packed(-1, PacketType::Response, "");
    assert_eq!(bytes, vec![10, 0, 0, 0, 0xff, 0xff, 0xff, 0xff, 0, 0, 0, 0, 0, 0]);
}

#[test]
fn round_trip_auth_packet() {
    let bytes = packed(5, PacketType::Auth, "secret");
    let decoded = Packet::unpack(&bytes).unwrap();
    assert_eq!(decoded.id(), 5);
    assert!(matches!(decoded.packet_type(), PacketType::Auth));
    assert_eq!(decoded.body(), Some(String::from("secret")));
}

#[test]
fn round_trip_non_ascii_body() {
    let bytes = packed(77, PacketType::Response, "gr\u{00fc}\u{00df}e \u{2603}");
    let decoded = Packet::unpack(&bytes).unwrap();
    assert_eq!(decoded.id(), 77);
    assert!(matches!(decoded.packet_type(), PacketType::Response));
    assert_eq!(decoded.body(), Some(String::from("gr\u{00fc}\u{00df}e \u{2603}")));
}

#[test]
fn round_trip_negative_id() {
    let bytes = packed(-1, PacketType::Response, "x");
    let decoded = Packet::unpack(&bytes).unwrap();
    assert_eq!(decoded.id(), -1);
}

#[test]
fn size_field_is_body_len_plus_ten() {
    let packet = Packet::new(3, PacketType::Response, "abc");
    assert_eq!(packet.size(), 13);
    let bytes = packet.pack();
    assert_eq!(&bytes[0..4], &[13, 0, 0, 0]);
    assert_eq!(bytes.len(), 13 + 4);
}

#[test]
fn empty_body_decodes_absent() {
    let packet = Packet::new(4, PacketType::Response, "");
    assert_eq!(packet.size(), 10);
    let bytes = packet.pack();
    assert_eq!(bytes.len(), 14);
    let decoded = Packet::unpack(&bytes).unwrap();
    assert_eq!(decoded.id(), 4);
    assert_eq!(decoded.body(), None);
    assert_eq!(decoded.size(), 10);
}

#[test]
fn exec_decodes_as_auth_response() {
    let bytes = packed(9, PacketType::Exec, "status");
    let decoded = Packet::unpack(&bytes).unwrap();
    assert!(matches!(decoded.packet_type(), PacketType::AuthResponse));
}

#[test]
fn type_code_two_is_auth_response() {
    let buf: Vec<u8> = vec![10, 0, 0, 0, 1, 0, 0, 0, 2, 0, 0, 0];
    let decoded = Packet::unpack(&buf).unwrap();
    assert!(matches!(decoded.packet_type(), PacketType::AuthResponse));
}

#[test]
fn short_buffer_is_header_error() {
    for len in 0..12 {
        let buf = vec![0u8; len];
        assert!(matches!(
            Packet::unpack(&buf),
            Err(RconError::MalformedPacketHeader)
        ));
    }
}

#[test]
fn negative_size_is_header_error() {
    // size field -10, little-endian two's complement
    let buf: Vec<u8> = vec![0xf6, 0xff, 0xff, 0xff, 0, 0, 0, 0, 0, 0, 0, 0];
    assert!(matches!(
        Packet::unpack(&buf),
        Err(RconError::MalformedPacketHeader)
    ));
}

#[test]
fn oversized_declared_body_is_header_error() {
    // size 20 declares a 10-byte body, but the buffer ends at the header
    let buf: Vec<u8> = vec![20, 0, 0, 0, 1, 0, 0, 0, 0, 0, 0, 0];
    assert!(matches!(
        Packet::unpack(&buf),
        Err(RconError::MalformedPacketHeader)
    ));
}

#[test]
fn unknown_type_code_is_error() {
    let buf: Vec<u8> = vec![10, 0, 0, 0, 1, 0, 0, 0, 7, 0, 0, 0];
    assert!(matches!(
        Packet::unpack(&buf),
        Err(RconError::UnknownPacketType(7))
    ));
}

#[test]
fn invalid_utf8_body_is_body_error() {
    // size 12 declares a 2-byte body; 0xff 0xfe is not UTF-8
    let buf: Vec<u8> = vec![12, 0, 0, 0, 1, 0, 0, 0, 0, 0, 0, 0, 0xff, 0xfe];
    assert!(matches!(
        Packet::unpack(&buf),
        Err(RconError::MalformedPacketBody)
    ));
}

#[test]
fn trailing_buffer_bytes_are_ignored() {
    // a packet at the front of a fixed 4096-byte read buffer
    let mut buf = vec![0u8; 4096];
    let bytes = packed(8, PacketType::Response, "done");
    buf[..bytes.len()].copy_from_slice(&bytes);
    let decoded = Packet::unpack(&buf).unwrap();
    assert_eq!(decoded.id(), 8);
    assert_eq!(decoded.body(), Some(String::from("done")));
}

#[test]
fn type_codes_to_le_bytes() {
    assert_eq!(PacketType::Auth.to_le_bytes(), [3, 0, 0, 0]);
    assert_eq!(PacketType::Exec.to_le_bytes(), [2, 0, 0, 0]);
    assert_eq!(PacketType::AuthResponse.to_le_bytes(), [2, 0, 0, 0]);
    assert_eq!(PacketType::Response.to_le_bytes(), [0, 0, 0, 0]);
}

#[test]
fn type_codes_from_code() {
    assert!(matches!(PacketType::from_code(3), Ok(PacketType::Auth)));
    assert!(matches!(PacketType::from_code(2), Ok(PacketType::AuthResponse)));
    assert!(matches!(PacketType::from_code(0), Ok(PacketType::Response)));
    assert!(matches!(
        PacketType::from_code(5),
        Err(RconError::UnknownPacketType(5))
    ));
}
