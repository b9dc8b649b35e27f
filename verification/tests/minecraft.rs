use necron_prism::minecraft::{
    decode_login_start, decode_ping_request, decode_status_request, encode_packet,
    login_disconnect_packet, ping_response_packet, read_framed_packet, read_framed_packet_with_len,
    read_string, read_varint, read_varint_with_len, rewrite_host, status_response_packet,
    write_string, write_varint, write_varint_bits, ByteCursor, Handshake, ProtocolError, MAX_HANDSHAKE_PACKET_SIZE,
    MAX_LOGIN_PACKET_SIZE, MAX_STATUS_PACKET_SIZE,
};

fn sample_handshake(server_address: &str, server_port: u16, next_state: i32) -> Handshake {
    Handshake::new(0, 760, server_address.to_owned(), server_port, next_state)
}

#[test]
fn minecraft_handshake_round_trip() {
    let handshake = sample_handshake("example.com", 25565, 2);
    let packet = handshake.encode().unwrap();
    let payload =
        read_framed_packet(&mut ByteCursor::new(&packet), MAX_HANDSHAKE_PACKET_SIZE).unwrap();
    let decoded = Handshake::decode(&payload).unwrap();

    assert_eq!(decoded, handshake);
}

#[test]
fn minecraft_rewrite_preserves_fml_suffix() {
    let mut handshake = sample_handshake("old.example\0FML\0", 25565, 2);
    handshake.rewrite("mc.hypixel.net", 25566);

    assert_eq!(handshake.server_address(), "mc.hypixel.net\0FML\0");
    assert_eq!(handshake.server_port(), 25566);
}

#[test]
fn reject_non_handshake_packet() {
    let mut payload = Vec::new();
    write_varint(&mut payload, 1).unwrap();
    write_varint(&mut payload, 760).unwrap();
    write_string(&mut payload, "example.com").unwrap();
    payload.extend_from_slice(&25565_u16.to_be_bytes());
    write_varint(&mut payload, 2).unwrap();

    let error = Handshake::decode(&payload).unwrap_err();
    assert!(matches!(error, ProtocolError::InvalidPacketId(1)));
}

#[test]
fn minecraft_decode_status_request_packet() {
    let mut payload = Vec::new();
    write_varint(&mut payload, 0).unwrap();
    let packet = encode_packet(&payload).unwrap();
    let payload =
        read_framed_packet(&mut ByteCursor::new(&packet), MAX_STATUS_PACKET_SIZE).unwrap();

    decode_status_request(&payload).unwrap();
}

#[test]
fn decode_login_start_keeps_modern_tail() {
    let mut payload = Vec::new();
    write_varint(&mut payload, 0).unwrap();
    write_string(&mut payload, "Steve").unwrap();
    payload.extend_from_slice(&[1, 2, 3, 4]);
    let packet = encode_packet(&payload).unwrap();
    let payload =
        read_framed_packet(&mut ByteCursor::new(&packet), MAX_LOGIN_PACKET_SIZE).unwrap();

    let player_name = decode_login_start(&payload).unwrap();
    assert_eq!(player_name, "Steve");
}

#[test]
fn minecraft_encode_login_disconnect_packet() {
    let packet = login_disconnect_packet("{\"text\":\"blocked\"}").unwrap();
    let payload =
        read_framed_packet(&mut ByteCursor::new(&packet), MAX_LOGIN_PACKET_SIZE).unwrap();
    let mut cursor = ByteCursor::new(&payload);

    assert_eq!(read_varint(&mut cursor).unwrap(), 0);
    assert_eq!(read_string(&mut cursor, 128).unwrap(), "{\"text\":\"blocked\"}");
}

#[test]
fn varint_known_encodings() {
    let cases: [(i32, &[u8]); 7] = [
        (0, &[0x00]),
        (1, &[0x01]),
        (127, &[0x7f]),
        (128, &[0x80, 0x01]),
        (255, &[0xff, 0x01]),
        (25565, &[0xdd, 0xc7, 0x01]),
        (i32::MAX, &[0xff, 0xff, 0xff, 0xff, 0x07]),
    ];
    for (value, bytes) in cases {
        let mut buffer = vec![9u8];
        write_varint(&mut buffer, value).unwrap();
        assert_eq!(&buffer[1..], bytes);
        let mut cursor = ByteCursor::new(bytes);
        assert_eq!(read_varint_with_len(&mut cursor).unwrap(), (value, bytes.len()));
        assert_eq!(cursor.position(), bytes.len());
    }
}

#[test]
fn varint_negative_values_read_and_refused() {
    let mut cursor = ByteCursor::new(&[0xff, 0xff, 0xff, 0xff, 0x0f]);
    assert_eq!(read_varint(&mut cursor).unwrap(), -1);
    let mut buffer = vec![1u8];
    assert_eq!(write_varint(&mut buffer, -1), Err(ProtocolError::NegativeVarInt(-1)));
    assert_eq!(buffer, vec![1u8]);
}

#[test]
fn varint_errors_leave_cursor() {
    let mut cursor = ByteCursor::new(&[0x80, 0x80]);
    assert_eq!(read_varint(&mut cursor), Err(ProtocolError::UnexpectedEof));
    assert_eq!(cursor.position(), 0);
    let mut cursor = ByteCursor::new(&[0x80, 0x80, 0x80, 0x80, 0x80, 0x01]);
    assert_eq!(read_varint(&mut cursor), Err(ProtocolError::VarIntTooLong));
    assert_eq!(cursor.position(), 0);
}

#[test]
fn string_errors() {
    let mut buffer = Vec::new();
    let long = "a".repeat(256);
    assert_eq!(write_string(&mut buffer, &long), Err(ProtocolError::StringTooLong(256)));
    assert!(buffer.is_empty());

    let mut cursor = ByteCursor::new(&[0x05, b'a', b'b']);
    assert_eq!(read_string(&mut cursor, 16).unwrap_err(), ProtocolError::UnexpectedEof);
    let mut cursor = ByteCursor::new(&[0x05, b'a', b'b', b'c', b'd', b'e']);
    assert_eq!(read_string(&mut cursor, 4).unwrap_err(), ProtocolError::StringTooLong(5));
    let mut cursor = ByteCursor::new(&[0x02, 0xc3, 0x28]);
    assert_eq!(read_string(&mut cursor, 16).unwrap_err(), ProtocolError::InvalidUtf8);
    let mut cursor = ByteCursor::new(&[0xff, 0xff, 0xff, 0xff, 0x0f]);
    assert_eq!(read_string(&mut cursor, 16).unwrap_err(), ProtocolError::InvalidStringLength(-1));
    let mut cursor = ByteCursor::new(&[0x03, 0xc3, 0xa9, b'x', 0x99]);
    assert_eq!(read_string(&mut cursor, 16).unwrap(), "éx");
    assert_eq!(cursor.position(), 4);
}

#[test]
fn framing_errors_and_wire_len() {
    let mut cursor = ByteCursor::new(&[0x00]);
    assert_eq!(
        read_framed_packet(&mut cursor, 16).unwrap_err(),
        ProtocolError::InvalidPacketLength(0)
    );
    let mut cursor = ByteCursor::new(&[0x11, 0, 0]);
    assert_eq!(read_framed_packet(&mut cursor, 16).unwrap_err(), ProtocolError::PacketTooLarge(17));
    let mut cursor = ByteCursor::new(&[0x03, 1, 2]);
    assert_eq!(read_framed_packet(&mut cursor, 16).unwrap_err(), ProtocolError::UnexpectedEof);
    let mut cursor = ByteCursor::new(&[0x02, 7, 8, 9]);
    let frame = read_framed_packet_with_len(&mut cursor, 16).unwrap();
    assert_eq!(frame.payload, vec![7, 8]);
    assert_eq!(frame.wire_len, 3);
    assert_eq!(cursor.position(), 3);
}

#[test]
fn handshake_decode_errors() {
    let handshake = Handshake::new(0, 0, "a".to_owned(), 1, 1);
    let packet = handshake.encode().unwrap();
    let payload = read_framed_packet(&mut ByteCursor::new(&packet), 64).unwrap();
    assert_eq!(Handshake::decode(&payload).unwrap_err(), ProtocolError::InvalidProtocolVersion(0));

    let handshake = Handshake::new(0, 760, "a".to_owned(), 1, 0);
    let packet = handshake.encode().unwrap();
    let payload = read_framed_packet(&mut ByteCursor::new(&packet), 64).unwrap();
    assert_eq!(Handshake::decode(&payload).unwrap_err(), ProtocolError::InvalidNextState(0));

    let handshake = Handshake::new(0, 760, "a".to_owned(), 1, 1);
    let packet = handshake.encode().unwrap();
    let mut payload = read_framed_packet(&mut ByteCursor::new(&packet), 64).unwrap();
    payload.push(0);
    assert_eq!(Handshake::decode(&payload).unwrap_err(), ProtocolError::TrailingBytes);

    let handshake = Handshake::new(-1, 760, "a".to_owned(), 1, 1);
    assert_eq!(handshake.encode().unwrap_err(), ProtocolError::NegativeVarInt(-1));
}

#[test]
fn handshake_encoding_bytes() {
    let handshake = Handshake::new(0, 760, "ab".to_owned(), 0x1234, 1);
    assert_eq!(
        handshake.encode().unwrap(),
        vec![9, 0, 0xf8, 0x05, 2, b'a', b'b', 0x12, 0x34, 1]
    );
    assert_eq!(handshake.protocol_version(), 760);
    assert_eq!(handshake.next_state(), 1);
}

#[test]
fn rewrite_host_cases() {
    assert_eq!(rewrite_host("plain.example", "new.host"), "new.host");
    assert_eq!(rewrite_host("a\0b\0c", "h"), "h\0b\0c");
    assert_eq!(rewrite_host("\0", "h"), "h\0");
}

#[test]
fn ping_and_status_packets() {
    let packet = ping_response_packet(42).unwrap();
    assert_eq!(packet, vec![9, 1, 0, 0, 0, 0, 0, 0, 0, 42]);
    let payload =
        read_framed_packet(&mut ByteCursor::new(&packet), MAX_STATUS_PACKET_SIZE).unwrap();
    assert_eq!(decode_ping_request(&payload).unwrap(), 42);
    let packet = ping_response_packet(-2).unwrap();
    let payload =
        read_framed_packet(&mut ByteCursor::new(&packet), MAX_STATUS_PACKET_SIZE).unwrap();
    assert_eq!(decode_ping_request(&payload).unwrap(), -2);
    assert_eq!(decode_ping_request(&[0, 1, 2]).unwrap_err(), ProtocolError::InvalidPacketId(0));
    assert_eq!(decode_ping_request(&[1, 1, 2]).unwrap_err(), ProtocolError::UnexpectedEof);
    assert_eq!(
        decode_ping_request(&[1, 0, 0, 0, 0, 0, 0, 0, 0, 0]).unwrap_err(),
        ProtocolError::TrailingBytes
    );

    let packet = status_response_packet("{\"text\":\"hello\"}").unwrap();
    let payload =
        read_framed_packet(&mut ByteCursor::new(&packet), MAX_STATUS_PACKET_SIZE).unwrap();
    let mut cursor = ByteCursor::new(&payload);
    assert_eq!(read_varint(&mut cursor).unwrap(), 0);
    assert_eq!(read_string(&mut cursor, 255).unwrap(), "{\"text\":\"hello\"}");
    assert_eq!(decode_status_request(&[0, 0]).unwrap_err(), ProtocolError::TrailingBytes);
    assert_eq!(decode_status_request(&[1]).unwrap_err(), ProtocolError::InvalidPacketId(1));
}

fn laid_out(pv: i32, n: i32, addr: &[u8], port: u16, ns: i32, rest: &[u8]) -> Vec<u8> {
    let mut payload = Vec::new();
    write_varint_bits(&mut payload, 0);
    write_varint_bits(&mut payload, pv);
    write_varint_bits(&mut payload, n);
    payload.extend_from_slice(addr);
    payload.extend_from_slice(&port.to_be_bytes());
    write_varint_bits(&mut payload, ns);
    payload.extend_from_slice(rest);
    payload
}

#[test]
fn handshake_checks_in_order() {
    let decode = |p: Vec<u8>| Handshake::decode(&p);
    assert_eq!(decode(laid_out(-1, -1, b"", 1, 0, b"x")).unwrap_err(), ProtocolError::InvalidProtocolVersion(-1));
    assert_eq!(decode(laid_out(760, -2, b"", 1, 0, b"x")).unwrap_err(), ProtocolError::InvalidStringLength(-2));
    let long = vec![b'a'; 256];
    assert_eq!(decode(laid_out(760, 256, &long, 1, 0, b"")).unwrap_err(), ProtocolError::StringTooLong(256));
    assert_eq!(decode(laid_out(760, 1, &[0xFF], 1, 0, b"")).unwrap_err(), ProtocolError::InvalidUtf8);
    assert_eq!(decode(laid_out(760, 1, b"a", 1, 0, b"x")).unwrap_err(), ProtocolError::InvalidNextState(0));
    assert_eq!(decode(laid_out(760, 1, b"a", 1, 2, b"x")).unwrap_err(), ProtocolError::TrailingBytes);
    let h = decode(laid_out(760, 1, b"a", 25565, 2, b"")).unwrap();
    assert_eq!((h.protocol_version(), h.server_address(), h.server_port(), h.next_state()), (760, "a", 25565, 2));
}
