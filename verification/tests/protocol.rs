use necron_prism::minecraft::error::ProtocolError;
use necron_prism::minecraft::packet_io::{next_frame, FramedPacket};
use necron_prism::minecraft::protocol::{
    decode_handshake, decode_login_hello, decode_ping_request, decode_pong_response,
    decode_status_request, decode_status_response, encode_handshake, encode_raw_frame, login_hello_from,
    ping_request_packet, ping_response_packet, status_response_packet, HandshakeNextStateNew,
    LoginHelloInfo,
};
use necron_prism::minecraft::types::{parse_u16, HandshakeInfo};
use necron_prism::proxy::motd::upstream::{status_probe, StatusProbeError};
use necron_prism::minecraft::{read_framed_packet_with_len, read_varint_with_len, ByteCursor};
use valence_protocol::packets::login::LoginHelloC2s;
use valence_protocol::packets::status::{QueryPingC2s, QueryPongS2c, QueryRequestC2s, QueryResponseS2c};
use valence_protocol::uuid::Uuid;
use valence_protocol::WritePacket;

const MAX_HANDSHAKE_PACKET_SIZE: usize = 4096;
const MAX_LOGIN_PACKET_SIZE: usize = 1024;

fn sample_handshake(server_address: &str, server_port: u16, next_state: i32) -> HandshakeInfo {
    HandshakeInfo {
        protocol_version: 760,
        server_address: server_address.to_owned(),
        server_port,
        next_state,
    }
}

fn read_frame(packet: &[u8], max: usize) -> FramedPacket {
    let mut cursor = ByteCursor::new(packet);
    let framed = read_framed_packet_with_len(&mut cursor, max).unwrap();
    let mut inner = ByteCursor::new(&framed.payload);
    let (id, id_len) = read_varint_with_len(&mut inner).unwrap();
    let body = framed.payload[id_len..].to_vec();
    let frame = FramedPacket::checked(id, body, max).unwrap();
    assert_eq!(frame.wire_len, framed.wire_len);
    frame
}

#[test]
fn tests_handshake_round_trip() {
    let handshake = sample_handshake("example.com", 25565, 2);
    let packet = encode_handshake(&handshake).unwrap();
    let frame = read_frame(&packet, MAX_HANDSHAKE_PACKET_SIZE);
    let decoded = decode_handshake(&frame).unwrap();

    assert_eq!(decoded, handshake);
}

#[test]
fn handshake_transfer_round_trip() {
    let handshake = sample_handshake("example.com", 25565, 3);
    let packet = encode_handshake(&handshake).unwrap();
    let frame = read_frame(&packet, MAX_HANDSHAKE_PACKET_SIZE);
    let decoded = decode_handshake(&frame).unwrap();

    assert_eq!(decoded, handshake);
}

#[test]
fn tests_rewrite_preserves_fml_suffix() {
    let mut handshake = sample_handshake("old.example\0FML\0", 25565, 2);
    handshake.rewrite_addr("mc.hypixel.net:25566").unwrap();

    assert_eq!(handshake.server_address, "mc.hypixel.net\0FML\0");
    assert_eq!(handshake.server_port, 25566);
}

#[test]
fn reject_invalid_next_state() {
    let handshake = sample_handshake("example.com", 25565, 42);
    let error = encode_handshake(&handshake).unwrap_err();

    assert!(matches!(error, ProtocolError::InvalidNextState(42)));
}

#[test]
fn decode_login_hello_modern_packet() {
    let profile_id = Uuid::from_bytes([1; 16]);
    let mut packet = Vec::new();

    valence_protocol::encode::PacketWriter::new(&mut packet, None)
        .write_packet_fallible(&LoginHelloC2s {
            username: "Me0wo",
            profile_id: Some(profile_id),
        })
        .unwrap();

    let frame = read_frame(&packet, MAX_LOGIN_PACKET_SIZE);

    assert_eq!(
        decode_login_hello(&frame).unwrap(),
        LoginHelloInfo {
            username: "Me0wo".to_owned(),
            profile_id: Some(profile_id.as_u128()),
        }
    );
}

#[test]
fn decode_login_hello_legacy_packet_without_profile_id() {
    let mut packet = vec![0, 5];
    packet.extend_from_slice(b"Me0wo");
    packet.insert(0, packet.len() as u8);

    let frame = read_frame(&packet, MAX_LOGIN_PACKET_SIZE);

    assert_eq!(
        decode_login_hello(&frame).unwrap(),
        LoginHelloInfo {
            username: "Me0wo".to_owned(),
            profile_id: None,
        }
    );
}

#[test]
fn encode_raw_frame_round_trip() {
    let profile_id = Uuid::from_bytes([2; 16]);
    let mut packet = Vec::new();

    valence_protocol::encode::PacketWriter::new(&mut packet, None)
        .write_packet_fallible(&LoginHelloC2s {
            username: "Me0wo",
            profile_id: Some(profile_id),
        })
        .unwrap();

    let frame = read_frame(&packet, MAX_LOGIN_PACKET_SIZE);
    let encoded = encode_raw_frame(&frame).unwrap();

    assert_eq!(encoded, packet);
}

#[test]
fn framed_packet_reports_wire_len() {
    let handshake = sample_handshake("example.com", 25565, 2);
    let packet = encode_handshake(&handshake).unwrap();
    let frame = read_frame(&packet, MAX_HANDSHAKE_PACKET_SIZE);

    assert_eq!(frame.wire_len, packet.len());
}

#[test]
fn frame_size_limit() {
    let frame = FramedPacket::checked(0, vec![0; 10], 12).unwrap();
    assert_eq!(frame.wire_len, 12);
    match FramedPacket::checked(0, vec![0; 10], 11) {
        Err(ProtocolError::PacketTooLarge { size, max_size }) => {
            assert_eq!((size, max_size), (12, 11));
        }
        other => panic!("unexpected {other:?}"),
    }
}

fn legacy_frame(body: Vec<u8>) -> FramedPacket {
    FramedPacket::checked(0, body, 1 << 20).unwrap()
}

fn hello_body(name: &[u8], tail: &[u8]) -> Vec<u8> {
    let mut body = vec![name.len() as u8];
    body.extend_from_slice(name);
    body.extend_from_slice(tail);
    body
}

#[test]
fn legacy_login_layouts() {
    let modern = Err("modern failed".to_string());
    let frame = legacy_frame(hello_body(b"Alex", &[0]));
    assert_eq!(login_hello_from(&frame, modern.clone()).unwrap().profile_id, None);

    let mut id = vec![0u8; 15];
    id.push(7);
    let frame = legacy_frame(hello_body(b"Alex", &id));
    assert_eq!(login_hello_from(&frame, modern.clone()).unwrap().profile_id, Some(7));

    let mut flagged = vec![1u8];
    flagged.extend_from_slice(&[0xFF; 16]);
    let frame = legacy_frame(hello_body(b"Alex", &flagged));
    assert_eq!(login_hello_from(&frame, modern.clone()).unwrap().profile_id, Some(u128::MAX));

    let mut unflagged = vec![0u8];
    unflagged.extend_from_slice(&[0xFF; 16]);
    let frame = legacy_frame(hello_body(b"Alex", &unflagged));
    assert_eq!(login_hello_from(&frame, modern.clone()).unwrap().profile_id, None);
}

fn decode_error(result: Result<LoginHelloInfo, ProtocolError>) -> String {
    match result {
        Err(ProtocolError::Decode(text)) => text,
        other => panic!("unexpected {other:?}"),
    }
}

#[test]
fn legacy_login_errors() {
    let modern = Err("modern failed".to_string());
    let other_id = FramedPacket::checked(3, vec![], 100).unwrap();
    assert_eq!(
        decode_error(login_hello_from(&other_id, modern.clone())),
        "modern failed; unexpected login packet id 3"
    );
    assert_eq!(
        decode_error(login_hello_from(&legacy_frame(vec![]), modern.clone())),
        "incomplete VarInt decode"
    );
    assert_eq!(
        decode_error(login_hello_from(&legacy_frame(vec![0x80; 6]), modern.clone())),
        "VarInt is too large"
    );
    assert_eq!(
        decode_error(login_hello_from(&legacy_frame(vec![0xFF, 0xFF, 0xFF, 0xFF, 0x0F]), modern.clone())),
        "modern failed; legacy login fallback failed: negative string length -1"
    );
    assert_eq!(
        decode_error(login_hello_from(&legacy_frame(vec![65]), modern.clone())),
        "modern failed; legacy login fallback failed: string length 65 exceeds 64"
    );
    assert_eq!(
        decode_error(login_hello_from(&legacy_frame(vec![4, b'A']), modern.clone())),
        "failed to fill whole buffer"
    );
    assert_eq!(
        decode_error(login_hello_from(&legacy_frame(hello_body(&[0xFF], &[])), modern.clone())),
        "modern failed; legacy login fallback failed: invalid utf8"
    );
    assert_eq!(
        decode_error(login_hello_from(&legacy_frame(hello_body(b"A", &[2])), modern.clone())),
        "modern failed; legacy login fallback failed: legacy login packet ended before profile id bytes"
    );
    let mut bad_flag = vec![2u8];
    bad_flag.extend_from_slice(&[0; 16]);
    assert_eq!(
        decode_error(login_hello_from(&legacy_frame(hello_body(b"A", &bad_flag)), modern.clone())),
        "modern failed; legacy login fallback failed: invalid profile id presence flag 2"
    );
    assert_eq!(
        decode_error(login_hello_from(&legacy_frame(hello_body(b"A", &[0, 0, 0])), modern.clone())),
        "modern failed; legacy login fallback failed: unexpected legacy login payload of 3 trailing bytes"
    );
}

#[test]
fn modern_result_is_kept() {
    let frame = legacy_frame(vec![]);
    let hello = login_hello_from(&frame, Ok(("Steve".to_string(), Some(9)))).unwrap();
    assert_eq!(hello, LoginHelloInfo { username: "Steve".to_string(), profile_id: Some(9) });
}

#[test]
fn handshake_decode_refusals() {
    let handshake = sample_handshake("example.com", 25565, 1);
    let packet = encode_handshake(&handshake).unwrap();
    let frame = read_frame(&packet, MAX_HANDSHAKE_PACKET_SIZE);
    let wrong_id = FramedPacket::checked(1, frame.body.clone(), 4096).unwrap();
    assert!(matches!(decode_handshake(&wrong_id), Err(ProtocolError::Decode(_))));
    let mut trailing = frame.body.clone();
    trailing.push(0);
    let with_tail = FramedPacket::checked(0, trailing, 4096).unwrap();
    assert!(matches!(decode_handshake(&with_tail), Err(ProtocolError::Decode(_))));
    let mut bad_tag = frame.body.clone();
    *bad_tag.last_mut().unwrap() = 4;
    let tagged = FramedPacket::checked(0, bad_tag, 4096).unwrap();
    assert!(matches!(decode_handshake(&tagged), Err(ProtocolError::Decode(_))));
}

#[test]
fn handshake_negative_protocol_version() {
    let mut handshake = sample_handshake("h", 1, 1);
    handshake.protocol_version = -1;
    let packet = encode_handshake(&handshake).unwrap();
    assert_eq!(packet, vec![11, 0, 0xFF, 0xFF, 0xFF, 0xFF, 0x0F, 1, b'h', 0, 1, 1]);
    let frame = read_frame(&packet, MAX_HANDSHAKE_PACKET_SIZE);
    assert_eq!(decode_handshake(&frame).unwrap(), handshake);
}

#[test]
fn next_state_tags() {
    assert_eq!(HandshakeNextStateNew::from_tag(2), Some(HandshakeNextStateNew::Login));
    assert_eq!(HandshakeNextStateNew::from_tag(4), None);
    assert_eq!(HandshakeNextStateNew::Transfer.tag(), 3);
}

#[test]
fn protocol_error_messages() {
    assert_eq!(
        ProtocolError::PacketTooLarge { size: 5000, max_size: 4096 }.message(),
        "packet is too large: 5000 bytes > 4096 bytes"
    );
    assert_eq!(ProtocolError::InvalidNextState(-3).message(), "invalid next state: -3");
    assert_eq!(ProtocolError::decode("bad").message(), "failed to decode packet: bad");
    assert_eq!(ProtocolError::encode("worse").message(), "failed to encode packet: worse");
    assert_eq!(
        ProtocolError::UnexpectedEof.message(),
        "connection closed before a full packet arrived"
    );
}

#[test]
fn rewrite_addr_cases() {
    let mut handshake = sample_handshake("plain.example", 1, 2);
    handshake.rewrite_addr("[::1]:25570").unwrap();
    assert_eq!(handshake.server_address, "::1");
    assert_eq!(handshake.server_port, 25570);

    let mut handshake = sample_handshake("plain.example", 1, 2);
    assert_eq!(
        handshake.rewrite_addr("no-port").unwrap_err(),
        "invalid rewrite address format: no-port (expected host:port or [ipv6]:port)"
    );
    assert_eq!(handshake.server_address, "plain.example");
    assert_eq!(
        handshake.rewrite_addr("host:70000").unwrap_err(),
        "invalid rewrite address port: host:70000"
    );
    assert_eq!(handshake.server_port, 1);
}

#[test]
fn parse_u16_like_std() {
    assert_eq!(parse_u16("0"), Some(0));
    assert_eq!(parse_u16("65535"), Some(65535));
    assert_eq!(parse_u16("+80"), Some(80));
    assert_eq!(parse_u16("007"), Some(7));
    assert_eq!(parse_u16("65536"), None);
    assert_eq!(parse_u16(""), None);
    assert_eq!(parse_u16("+"), None);
    assert_eq!(parse_u16("8a"), None);
    for text in ["1", "25565", "+3", "99999", "-1", " 1"] {
        assert_eq!(parse_u16(text), text.parse::<u16>().ok());
    }
}

#[test]
fn ping_request_matches_the_protocol_crate() {
    for payload in [0u64, 1, 0x0102_0304_0506_0708, u64::MAX] {
        let mut expected = Vec::new();
        valence_protocol::encode::PacketWriter::new(&mut expected, None)
            .write_packet_fallible(&QueryPingC2s { payload })
            .unwrap();
        assert_eq!(ping_request_packet(payload).unwrap(), expected);
    }
}

#[test]
fn pong_payload_round_trip() {
    for payload in [0u64, 42, 0x0102_0304_0506_0708, u64::MAX] {
        let mut packet = Vec::new();
        valence_protocol::encode::PacketWriter::new(&mut packet, None)
            .write_packet_fallible(&QueryPongS2c { payload })
            .unwrap();
        let frame = read_frame(&packet, 64);
        assert_eq!(decode_pong_response(&frame).unwrap(), payload);
    }
    let short = FramedPacket { wire_len: 5, id: 1, body: vec![1, 2, 3] };
    assert!(matches!(decode_pong_response(&short), Err(ProtocolError::Decode(_))));
    let other = FramedPacket { wire_len: 10, id: 0, body: vec![0; 8] };
    assert!(matches!(decode_pong_response(&other), Err(ProtocolError::Decode(_))));
}

#[test]
fn status_probe_points_the_handshake_upstream() {
    let client = sample_handshake("mc.example\0FML\0", 25565, 1);
    let probe = status_probe(&client, "play.example:25570").unwrap();
    let mut expected = encode_handshake(&sample_handshake("play.example\0FML\0", 25570, 1)).unwrap();
    expected.extend_from_slice(&[1, 0]);
    assert_eq!(probe, expected);
    assert!(matches!(status_probe(&client, "play.example"), Err(StatusProbeError::Address(_))));
    assert!(matches!(
        status_probe(&sample_handshake("mc.example", 25565, 9), "play.example:1"),
        Err(StatusProbeError::Encode(ProtocolError::InvalidNextState(9)))
    ));
}

fn protocol_error<P>(frame: &FramedPacket) -> String
where
    P: valence_protocol::Packet + for<'a> valence_protocol::Decode<'a>,
{
    let raw = valence_protocol::decode::PacketFrame {
        id: frame.id,
        body: valence_protocol::bytes::BytesMut::from(&frame.body[..]),
    };
    match raw.decode::<P>() {
        Ok(_) => panic!("expected a decode error"),
        Err(error) => error.to_string(),
    }
}

fn response_error(frame: &FramedPacket) -> String {
    let raw = valence_protocol::decode::PacketFrame {
        id: frame.id,
        body: valence_protocol::bytes::BytesMut::from(&frame.body[..]),
    };
    let result = raw.decode::<QueryResponseS2c<'_>>().map(|_| ());
    match result {
        Ok(()) => panic!("expected a decode error"),
        Err(error) => error.to_string(),
    }
}

fn decode_message(error: ProtocolError) -> String {
    match error {
        ProtocolError::Decode(text) => text,
        other => panic!("unexpected {other:?}"),
    }
}

#[test]
fn status_numbers_fail_as_the_protocol_crate_does() {
    let frames = [
        FramedPacket { wire_len: 10, id: 0, body: vec![0; 8] },
        FramedPacket { wire_len: 5, id: 1, body: vec![1, 2, 3] },
        FramedPacket { wire_len: 12, id: 1, body: vec![0; 10] },
    ];
    for frame in &frames {
        assert_eq!(decode_message(decode_pong_response(frame).unwrap_err()), protocol_error::<QueryPongS2c>(frame));
        assert_eq!(decode_message(decode_ping_request(frame).unwrap_err()), protocol_error::<QueryPingC2s>(frame));
    }
    let good = FramedPacket { wire_len: 10, id: 1, body: vec![0, 0, 0, 0, 0, 0, 1, 2] };
    assert_eq!(decode_ping_request(&good).unwrap(), 258);
    assert_eq!(decode_pong_response(&good).unwrap(), 258);
}

#[test]
fn status_request_is_empty() {
    assert!(decode_status_request(&FramedPacket { wire_len: 2, id: 0, body: vec![] }).is_ok());
    for frame in [
        FramedPacket { wire_len: 3, id: 0, body: vec![7] },
        FramedPacket { wire_len: 2, id: 5, body: vec![] },
    ] {
        assert_eq!(
            decode_message(decode_status_request(&frame).unwrap_err()),
            protocol_error::<QueryRequestC2s>(&frame)
        );
    }
}

#[test]
fn status_packets_match_the_protocol_crate() {
    for json in ["{}", "{\"description\":{\"text\":\"héllo\"}}"] {
        let mut expected = Vec::new();
        valence_protocol::encode::PacketWriter::new(&mut expected, None)
            .write_packet_fallible(&QueryResponseS2c { json })
            .unwrap();
        assert_eq!(status_response_packet(json).unwrap(), expected);
    }
    let mut expected = Vec::new();
    valence_protocol::encode::PacketWriter::new(&mut expected, None)
        .write_packet_fallible(&QueryPongS2c { payload: 99 })
        .unwrap();
    assert_eq!(ping_response_packet(99).unwrap(), expected);
}

#[test]
fn status_response_fails_as_the_protocol_crate_does() {
    let mut body = vec![5];
    body.extend_from_slice(b"{\"a\"}");
    let frames = [
        FramedPacket { wire_len: 3, id: 1, body: vec![0] },
        FramedPacket { wire_len: 4, id: 0, body: vec![9, b'{'] },
        FramedPacket { wire_len: 4, id: 0, body: vec![1, 0xFF] },
        FramedPacket { wire_len: 5, id: 0, body: vec![1, b'x', 0] },
        FramedPacket { wire_len: 3, id: 0, body: vec![0xFF] },
    ];
    for frame in &frames {
        assert_eq!(
            decode_message(decode_status_response(frame).unwrap_err()),
            response_error(frame)
        );
    }
    let good = FramedPacket { wire_len: 8, id: 0, body };
    assert_eq!(decode_status_response(&good).unwrap(), "{\"a\"}");
}

#[test]
fn handshake_errors_name_the_field() {
    let expect = |body: Vec<u8>, id: i32, text: &str| {
        let frame = FramedPacket { wire_len: body.len() + 2, id, body };
        assert_eq!(decode_message(decode_handshake(&frame).unwrap_err()), text);
    };
    expect(vec![], 3, "packet ID mismatch: expected 0, got 3");
    expect(vec![0x80], 0, "failed to decode field `protocol_version` in `HandshakeC2sNew`");
    expect(vec![1, 5, b'a'], 0, "failed to decode field `server_address` in `HandshakeC2sNew`");
    expect(vec![1, 1, b'a', 0x63], 0, "failed to decode field `server_port` in `HandshakeC2sNew`");
    expect(vec![1, 1, b'a', 0x63, 0xDD, 4], 0, "failed to decode field `next_state` in `HandshakeC2sNew`");
    expect(vec![1, 1, b'a', 0x63, 0xDD, 1, 7, 7], 0, "missed 2 bytes while decoding packet HandshakeC2sNew");
}

#[test]
fn next_frame_finds_whole_frames() {
    let mut bytes = Vec::new();
    valence_protocol::encode::PacketWriter::new(&mut bytes, None)
        .write_packet_fallible(&QueryPongS2c { payload: 7 })
        .unwrap();
    let whole = bytes.len();
    bytes.extend_from_slice(&[3, 0]);
    let (frame, used) = next_frame(&bytes, 64).unwrap().unwrap();
    assert_eq!(used, whole);
    assert_eq!(frame.id, 1);
    assert_eq!(frame.body, vec![0, 0, 0, 0, 0, 0, 0, 7]);
    assert_eq!(frame.wire_len, whole);
    assert!(next_frame(&bytes[..whole - 1], 64).unwrap().is_none());
    assert!(next_frame(&[], 64).unwrap().is_none());
    assert!(matches!(
        next_frame(&bytes, 5),
        Err(ProtocolError::PacketTooLarge { size, max_size: 5 }) if size == whole
    ));
    assert!(matches!(next_frame(&[0xFF, 0xFF, 0xFF, 0xFF, 0xFF, 0x01], 64), Err(ProtocolError::Decode(_))));
}
