//! Packets on decoded frames: the handshake, and the login hello with its
//! fallback for clients that send the older layout.
use vstd::prelude::*;
use vstd::slice::*;
use vstd::string::*;
use vstd::utf8::*;

use super::error::ProtocolError;
use super::packet_io::{spec_wire_len, truncate_i32, FramedPacket};
use super::types::HandshakeInfo;
use crate::minecraft::{
    extend_bytes, lemma_frame_roundtrip, lemma_read_varint_len, lemma_scan_encoded, lemma_string_roundtrip,
    lemma_u16_roundtrip, lemma_varint_bytes_len, read_string, read_u16, read_varint,
    spec_frame, spec_read_frame, spec_read_string, spec_read_u16, spec_read_varint, spec_string_bytes, spec_u16_bytes,
    spec_varint_bytes, spec_varint_i32, string_from_utf8, varint_len, wrap_i32,
    write_varint_bits, ByteCursor, ProtocolError as WireError,
};
use crate::text::{push_decimal, push_signed_decimal, spec_decimal, spec_signed_decimal};

verus! {

/// The states a handshake can ask for, with their tags on the wire.
#[derive(Copy, Clone, Debug, PartialEq, Eq, Structural)]
pub enum HandshakeNextStateNew {
    Status,
    Login,
    Transfer,
}

impl HandshakeNextStateNew {
    pub open spec fn spec_tag(self) -> i32 {
        match self {
            HandshakeNextStateNew::Status => 1,
            HandshakeNextStateNew::Login => 2,
            HandshakeNextStateNew::Transfer => 3,
        }
    }

    /// The state whose tag is `tag`.
    pub fn from_tag(tag: i32) -> (s: Option<Self>)
        ensures
            s matches Some(state) ==> state.spec_tag() == tag,
            s is None <==> !(1 <= tag <= 3),
    {
        if tag == 1 {
            Some(HandshakeNextStateNew::Status)
        } else if tag == 2 {
            Some(HandshakeNextStateNew::Login)
        } else if tag == 3 {
            Some(HandshakeNextStateNew::Transfer)
        } else {
            None
        }
    }

    /// The state's tag on the wire.
    pub fn tag(self) -> (t: i32)
        ensures
            t == self.spec_tag(),
    {
        match self {
            HandshakeNextStateNew::Status => 1,
            HandshakeNextStateNew::Login => 2,
            HandshakeNextStateNew::Transfer => 3,
        }
    }
}

/// What a login hello says: the player's name and, where the client sent
/// one, the profile id.
#[derive(Clone, Debug, PartialEq, Eq)]
pub struct LoginHelloInfo {
    pub username: String,
    pub profile_id: Option<u128>,
}

/// What `PacketFrame::decode::<LoginHelloC2s>` of `valence_protocol` gives
/// for a frame with packet id `id` and body `body`: the username and the
/// profile id as a `u128`, or the text of its error.
pub uninterp spec fn protocol_login_hello(id: i32, body: Seq<u8>) -> Result<
    (Seq<char>, Option<u128>),
    Seq<char>,
>;

/// Decodes a frame as `valence_protocol`'s `LoginHelloC2s`; the result is
/// named `protocol_login_hello`.
#[verifier::external_body]
fn decode_login_hello_packet(id: i32, body: &[u8]) -> (res: Result<(String, Option<u128>), String>)
    ensures
        spec_hello_view(res) == protocol_login_hello(id, body@),
{
    let frame = valence_protocol::decode::PacketFrame {
        id,
        body: valence_protocol::bytes::BytesMut::from(body),
    };
    match frame.decode::<valence_protocol::packets::login::LoginHelloC2s<'_>>() {
        Ok(packet) => Ok((packet.username.to_owned(), packet.profile_id.map(|id| id.as_u128()))),
        Err(error) => Err(error.to_string()),
    }
}

/// A decoded login hello, or the text of the decoder's error, as values.
pub open spec fn spec_hello_view(r: Result<(String, Option<u128>), String>) -> Result<
    (Seq<char>, Option<u128>),
    Seq<char>,
> {
    match r {
        Ok((name, profile)) => Ok((name@, profile)),
        Err(text) => Err(text@),
    }
}

/// The big-endian value of the bytes `b`.
pub open spec fn spec_be_value(b: Seq<u8>) -> nat
    decreases b.len(),
{
    if b.len() == 0 {
        0
    } else {
        spec_be_value(b.drop_last()) * 256 + (b.last() as nat)
    }
}

pub open spec fn pow256(n: nat) -> nat
    decreases n,
{
    if n == 0 {
        1
    } else {
        pow256((n - 1) as nat) * 256
    }
}

proof fn lemma_be_value_bound(b: Seq<u8>)
    ensures
        spec_be_value(b) < pow256(b.len()),
    decreases b.len(),
{
    if b.len() > 0 {
        lemma_be_value_bound(b.drop_last());
    }
}

/// The big-endian `u128` in the 16 bytes of `data` from `start`.
fn read_be_u128(data: &[u8], start: usize) -> (v: u128)
    requires
        start + 16 <= data@.len(),
    ensures
        v == spec_be_value(data@.subrange(start as int, start + 16)),
{
    let mut acc: u128 = 0;
    let mut i: usize = 0;
    let n = data.len();
    proof {
        lemma_pow256_15();
    }
    while i < 16
        invariant
            i <= 16,
            n == data@.len(),
            start + 16 <= data@.len(),
            acc == spec_be_value(data@.subrange(start as int, start + i)),
            pow256(15) == 0x100_0000_0000_0000_0000_0000_0000_0000u128,
        decreases 16 - i,
    {
        proof {
            lemma_be_value_bound(data@.subrange(start as int, start + i));
            if i < 15 {
                lemma_pow256_monotone(i as nat, 15);
            }
        }
        let b = data[start + i];
        assert(data@.subrange(start as int, start + i + 1).drop_last() =~= data@.subrange(
            start as int,
            start + i,
        ));
        acc = acc * 256 + (b as u128);
        i = i + 1;
    }
    acc
}

proof fn lemma_pow256_15()
    ensures
        pow256(15) == 0x100_0000_0000_0000_0000_0000_0000_0000u128,
{
    assert(pow256(0) == 1);
    assert(pow256(1) == 0x100);
    assert(pow256(2) == 0x1_0000);
    assert(pow256(3) == 0x100_0000);
    assert(pow256(4) == 0x1_0000_0000);
    assert(pow256(5) == 0x100_0000_0000);
    assert(pow256(6) == 0x1_0000_0000_0000);
    assert(pow256(7) == 0x100_0000_0000_0000);
    assert(pow256(8) == 0x1_0000_0000_0000_0000);
    assert(pow256(9) == 0x100_0000_0000_0000_0000);
    assert(pow256(10) == 0x1_0000_0000_0000_0000_0000);
    assert(pow256(11) == 0x100_0000_0000_0000_0000_0000);
    assert(pow256(12) == 0x1_0000_0000_0000_0000_0000_0000);
    assert(pow256(13) == 0x100_0000_0000_0000_0000_0000_0000);
    assert(pow256(14) == 0x1_0000_0000_0000_0000_0000_0000_0000);
    assert(pow256(15) == 0x100_0000_0000_0000_0000_0000_0000_0000);
}

proof fn lemma_pow256_monotone(a: nat, b: nat)
    requires
        a <= b,
    ensures
        pow256(a) <= pow256(b),
    decreases b - a,
{
    if a < b {
        lemma_pow256_monotone(a, (b - 1) as nat);
    }
}

/// A failed fallback's message: the modern decoder's error, then why the
/// older layout did not fit either.
pub open spec fn fallback_message(modern: Seq<char>, why: Seq<char>) -> Seq<char> {
    modern + "; legacy login fallback failed: "@ + why
}

/// What the older login layout gives for a frame with packet id `id` and
/// body `body`, after the modern decoder failed with `modern`: a username
/// of at most 64 bytes, then nothing, a zero flag, the 16 bytes of a profile
/// id, or a flag and those 16 bytes.
pub open spec fn spec_legacy_login_hello(id: i32, body: Seq<u8>, modern: Seq<char>) -> Result<
    (Seq<char>, Option<u128>),
    Seq<char>,
> {
    if id != 0 {
        Err(modern + "; unexpected login packet id "@ + spec_signed_decimal(id as int))
    } else {
        match spec_read_varint(body) {
            Err(WireError::VarIntTooLong) => Err("VarInt is too large"@),
            Err(_) => Err("incomplete VarInt decode"@),
            Ok((len, n)) => if len < 0 {
                Err(fallback_message(modern, "negative string length "@ + spec_signed_decimal(len as int)))
            } else if len > 64 {
                Err(
                    fallback_message(
                        modern,
                        "string length "@ + spec_decimal(len as nat) + " exceeds 64"@,
                    ),
                )
            } else if body.len() < n + len {
                Err("failed to fill whole buffer"@)
            } else if !valid_utf8(body.subrange(n as int, n + len)) {
                Err(fallback_message(modern, "invalid utf8"@))
            } else {
                let name = decode_utf8(body.subrange(n as int, n + len));
                let rest = body.skip(n + len);
                if rest.len() == 0 {
                    Ok((name, None))
                } else if rest.len() == 1 {
                    if rest[0] == 0 {
                        Ok((name, None))
                    } else {
                        Err(
                            fallback_message(
                                modern,
                                "legacy login packet ended before profile id bytes"@,
                            ),
                        )
                    }
                } else if rest.len() == 16 {
                    Ok((name, Some(spec_be_value(rest) as u128)))
                } else if rest.len() == 17 {
                    if rest[0] == 0 {
                        Ok((name, None))
                    } else if rest[0] == 1 {
                        Ok((name, Some(spec_be_value(rest.skip(1)) as u128)))
                    } else {
                        Err(
                            fallback_message(
                                modern,
                                "invalid profile id presence flag "@ + spec_decimal(rest[0] as nat),
                            ),
                        )
                    }
                } else {
                    Err(
                        fallback_message(
                            modern,
                            "unexpected legacy login payload of "@ + spec_decimal(rest.len())
                                + " trailing bytes"@,
                        ),
                    )
                }
            },
        }
    }
}

/// The login hello of a frame with packet id `id` and body `body`, given
/// what the modern decoder made of it.
pub open spec fn spec_login_hello(
    id: i32,
    body: Seq<u8>,
    modern: Result<(Seq<char>, Option<u128>), Seq<char>>,
) -> Result<(Seq<char>, Option<u128>), Seq<char>> {
    match modern {
        Ok(hello) => Ok(hello),
        Err(text) => spec_legacy_login_hello(id, body, text),
    }
}

/// `res` carries the login hello `expected`, or its error text in a decode
/// error.
pub open spec fn hello_result_is(
    res: Result<LoginHelloInfo, ProtocolError>,
    expected: Result<(Seq<char>, Option<u128>), Seq<char>>,
) -> bool {
    match expected {
        Ok((name, profile)) => res matches Ok(info) && info.username@ == name && info.profile_id
            == profile,
        Err(text) => res matches Err(ProtocolError::Decode(t)) && t@ == text,
    }
}

fn fallback_error(modern: &str, why: &str) -> (e: ProtocolError)
    ensures
        e matches ProtocolError::Decode(t) && t@ == fallback_message(modern@, why@),
{
    let mut m = String::from_str(modern);
    m.append("; legacy login fallback failed: ");
    m.append(why);
    ProtocolError::Decode(m)
}

fn fallback_error_signed(modern: &str, why: &str, value: i64, tail: &str) -> (e: ProtocolError)
    ensures
        e matches ProtocolError::Decode(t) && t@ == fallback_message(
            modern@,
            why@ + spec_signed_decimal(value as int) + tail@,
        ),
{
    let mut m = String::from_str(modern);
    m.append("; legacy login fallback failed: ");
    m.append(why);
    push_signed_decimal(&mut m, value);
    m.append(tail);
    assert(m@ =~= fallback_message(modern@, why@ + spec_signed_decimal(value as int) + tail@));
    ProtocolError::Decode(m)
}

fn fallback_error_count(modern: &str, why: &str, value: u64, tail: &str) -> (e: ProtocolError)
    ensures
        e matches ProtocolError::Decode(t) && t@ == fallback_message(
            modern@,
            why@ + spec_decimal(value as nat) + tail@,
        ),
{
    let mut m = String::from_str(modern);
    m.append("; legacy login fallback failed: ");
    m.append(why);
    push_decimal(&mut m, value);
    m.append(tail);
    assert(m@ =~= fallback_message(modern@, why@ + spec_decimal(value as nat) + tail@));
    ProtocolError::Decode(m)
}

/// Decodes the older login layout; see `spec_legacy_login_hello`.
#[verifier::rlimit(40)]
fn legacy_login_hello(id: i32, body: &[u8], modern: &str) -> (res: Result<
    LoginHelloInfo,
    ProtocolError,
>)
    ensures
        hello_result_is(res, spec_legacy_login_hello(id, body@, modern@)),
{
    if id != 0 {
        let mut m = String::from_str(modern);
        m.append("; unexpected login packet id ");
        push_signed_decimal(&mut m, id as i64);
        return Err(ProtocolError::Decode(m));
    }
    let mut cursor = ByteCursor::new(body);
    let len = match read_varint(&mut cursor) {
        Ok(v) => v,
        Err(WireError::VarIntTooLong) => return Err(ProtocolError::decode("VarInt is too large")),
        Err(_) => return Err(ProtocolError::decode("incomplete VarInt decode")),
    };
    proof {
        lemma_read_varint_len(body@);
    }
    assert(cursor.data@ == body@);
    if len < 0 {
        proof {
            reveal_strlit("");
        }
        assert(spec_signed_decimal(len as int) + ""@ =~= spec_signed_decimal(len as int));
        return Err(fallback_error_signed(modern, "negative string length ", len as i64, ""));
    }
    if len > 64 {
        return Err(fallback_error_count(modern, "string length ", len as u64, " exceeds 64"));
    }
    let len = len as usize;
    let start = cursor.position();
    if cursor.remaining() < len {
        return Err(ProtocolError::decode("failed to fill whole buffer"));
    }
    let bytes = slice_to_vec(slice_subrange(body, start, start + len));
    let username = match string_from_utf8(bytes) {
        Some(u) => u,
        None => return Err(fallback_error(modern, "invalid utf8")),
    };
    let rest_start = start + len;
    let remaining = body.len() - rest_start;
    let ghost rest = body@.skip(rest_start as int);
    assert(rest.len() == remaining);
    let profile_id = if remaining == 0 {
        None
    } else if remaining == 1 {
        assert(rest[0] == body@[rest_start as int]);
        if body[rest_start] == 0 {
            None
        } else {
            return Err(
                fallback_error(modern, "legacy login packet ended before profile id bytes"),
            );
        }
    } else if remaining == 16 {
        assert(body@.subrange(rest_start as int, rest_start + 16) =~= rest);
        Some(read_be_u128(body, rest_start))
    } else if remaining == 17 {
        assert(rest[0] == body@[rest_start as int]);
        let flag = body[rest_start];
        if flag == 0 {
            None
        } else if flag == 1 {
            assert(body@.subrange(rest_start + 1, rest_start + 17) =~= rest.skip(1));
            Some(read_be_u128(body, rest_start + 1))
        } else {
            proof {
                reveal_strlit("");
            }
            assert(spec_decimal(flag as nat) + ""@ =~= spec_decimal(flag as nat));
            return Err(
                fallback_error_count(modern, "invalid profile id presence flag ", flag as u64, ""),
            );
        }
    } else {
        return Err(
            fallback_error_count(
                modern,
                "unexpected legacy login payload of ",
                remaining as u64,
                " trailing bytes",
            ),
        );
    };
    Ok(LoginHelloInfo { username, profile_id })
}

/// The login hello of `frame`, given `modern`, what the protocol crate's
/// decoder made of it: that result where it decoded, else the older layout.
pub fn login_hello_from(
    frame: &FramedPacket,
    modern: Result<(String, Option<u128>), String>,
) -> (res: Result<LoginHelloInfo, ProtocolError>)
    ensures
        hello_result_is(res, spec_login_hello(frame.id, frame.body@, spec_hello_view(modern))),
{
    match modern {
        Ok((username, profile_id)) => Ok(LoginHelloInfo { username, profile_id }),
        Err(text) => legacy_login_hello(frame.id, frame.body.as_slice(), text.as_str()),
    }
}

/// Decodes the login hello of `frame`, falling back to the older layout
/// where the protocol crate's decoder refuses it.
pub fn decode_login_hello(frame: &FramedPacket) -> (res: Result<LoginHelloInfo, ProtocolError>)
    ensures
        hello_result_is(
            res,
            spec_login_hello(frame.id, frame.body@, protocol_login_hello(frame.id, frame.body@)),
        ),
{
    let modern = decode_login_hello_packet(frame.id, frame.body.as_slice());
    login_hello_from(frame, modern)
}

/// The largest packet the protocol crate encodes, in bytes after the
/// length prefix.
pub const MAX_PACKET_SIZE: usize = 2097152;

/// A frame on the wire: the length prefix, the VarInt packet id, the body.
pub open spec fn spec_raw_frame(id: i32, body: Seq<u8>) -> Seq<u8> {
    let packet = spec_varint_i32(id) + body;
    spec_varint_i32(wrap_i32(packet.len() as int)) + packet
}

/// Writes `frame` back as it came on the wire.
pub fn encode_raw_frame(frame: &FramedPacket) -> (res: Result<Vec<u8>, ProtocolError>)
    requires
        frame.body@.len() + 5 <= usize::MAX,
    ensures
        res matches Ok(out) && out@ == spec_raw_frame(frame.id, frame.body@),
{
    let packet_len = varint_len(frame.id) + frame.body.len();
    let mut output: Vec<u8> = Vec::new();
    write_varint_bits(&mut output, truncate_i32(packet_len));
    write_varint_bits(&mut output, frame.id);
    extend_bytes(&mut output, frame.body.as_slice());
    assert(output@ =~= spec_raw_frame(frame.id, frame.body@));
    Ok(output)
}

/// The error text when the field `field` of the packet `packet` does not
/// decode.
pub open spec fn spec_field_error(field: Seq<char>, packet: Seq<char>) -> Seq<char> {
    "failed to decode field `"@ + field + "` in `"@ + packet + "`"@
}

/// What a handshake frame decodes to: `(protocol version, server address,
/// server port, next state)` from a VarInt, a length-prefixed UTF-8 string,
/// a big-endian `u16` and a state tag with nothing after them, or the text
/// of the first thing that does not fit.
pub open spec fn spec_handshake_decode(id: i32, body: Seq<u8>) -> Result<
    (i32, Seq<char>, u16, i32),
    Seq<char>,
> {
    let name = "HandshakeC2sNew"@;
    if id != 0 {
        Err(spec_id_mismatch(0, id))
    } else {
        match spec_read_varint(body) {
            Err(_) => Err(spec_field_error("protocol_version"@, name)),
            Ok((version, n1)) => match spec_read_string(body.skip(n1 as int), body.len()) {
                Err(_) => Err(spec_field_error("server_address"@, name)),
                Ok((address, n2)) => match spec_read_u16(body.skip((n1 + n2) as int)) {
                    Err(_) => Err(spec_field_error("server_port"@, name)),
                    Ok((port, n3)) => match spec_read_varint(body.skip((n1 + n2 + n3) as int)) {
                        Err(_) => Err(spec_field_error("next_state"@, name)),
                        Ok((tag, n4)) => if !(1 <= tag <= 3) {
                            Err(spec_field_error("next_state"@, name))
                        } else if n1 + n2 + n3 + n4 < body.len() {
                            Err(spec_missed_bytes((body.len() - (n1 + n2 + n3 + n4)) as nat, name))
                        } else {
                            Ok((version, address, port, tag))
                        },
                    },
                },
            },
        }
    }
}

/// The fields of a handshake frame, where it decodes.
pub open spec fn spec_handshake_fields(id: i32, body: Seq<u8>) -> Option<(i32, Seq<char>, u16, i32)> {
    match spec_handshake_decode(id, body) {
        Ok(fields) => Some(fields),
        Err(_) => None,
    }
}

/// `info` holds the handshake fields `fields`.
pub open spec fn handshake_has(info: HandshakeInfo, fields: (i32, Seq<char>, u16, i32)) -> bool {
    &&& info.protocol_version == fields.0
    &&& info.server_address@ == fields.1
    &&& info.server_port == fields.2
    &&& info.next_state == fields.3
}

fn field_error(field: &str, packet: &str) -> (e: ProtocolError)
    ensures
        e matches ProtocolError::Decode(t) && t@ == spec_field_error(field@, packet@),
{
    let mut text = String::from_str("failed to decode field `");
    text.append(field);
    text.append("` in `");
    text.append(packet);
    text.append("`");
    ProtocolError::Decode(text)
}

/// Decodes the handshake in `frame`.
#[verifier::rlimit(30)]
pub fn decode_handshake(frame: &FramedPacket) -> (res: Result<HandshakeInfo, ProtocolError>)
    ensures
        match spec_handshake_decode(frame.id, frame.body@) {
            Ok(fields) => res matches Ok(info) && handshake_has(info, fields),
            Err(text) => res matches Err(ProtocolError::Decode(t)) && t@ == text,
        },
{
    if frame.id != 0 {
        return Err(id_mismatch(0, frame.id));
    }
    let body = frame.body.as_slice();
    let ghost b = body@;
    let mut cursor = ByteCursor::new(body);
    let version = match read_varint(&mut cursor) {
        Ok(v) => v,
        Err(_) => return Err(field_error("protocol_version", "HandshakeC2sNew")),
    };
    let ghost n1 = cursor.pos;
    assert(cursor.rest() == b.skip(n1 as int));
    let address = match read_string(&mut cursor, body.len()) {
        Ok(a) => a,
        Err(_) => return Err(field_error("server_address", "HandshakeC2sNew")),
    };
    let ghost n2 = cursor.pos - n1;
    assert(cursor.rest() =~= b.skip((n1 + n2) as int));
    let port = match read_u16(&mut cursor) {
        Ok(p) => p,
        Err(_) => return Err(field_error("server_port", "HandshakeC2sNew")),
    };
    let ghost n3 = 2nat;
    assert(cursor.rest() =~= b.skip((n1 + n2 + n3) as int));
    let tag = match read_varint(&mut cursor) {
        Ok(t) => t,
        Err(_) => return Err(field_error("next_state", "HandshakeC2sNew")),
    };
    proof {
        lemma_read_varint_len(b.skip((n1 + n2 + n3) as int));
    }
    if tag < 1 || tag > 3 {
        return Err(field_error("next_state", "HandshakeC2sNew"));
    }
    if cursor.remaining() != 0 {
        return Err(missed_bytes(cursor.remaining(), "HandshakeC2sNew"));
    }
    Ok(HandshakeInfo { protocol_version: version, server_address: address, server_port: port, next_state: tag })
}

/// The body of a handshake packet with these fields, after the packet id.
pub open spec fn spec_handshake_body(version: i32, address: Seq<u8>, port: u16, tag: i32) -> Seq<u8> {
    spec_varint_i32(version) + spec_string_bytes(address) + spec_u16_bytes(port) + spec_varint_i32(tag)
}

/// The payload of the handshake packet of `h`: the packet id, then the body.
pub open spec fn spec_handshake_payload(h: HandshakeInfo) -> Seq<u8> {
    spec_varint_i32(0) + spec_handshake_body(
        h.protocol_version,
        encode_utf8(h.server_address@),
        h.server_port,
        h.next_state,
    )
}

/// A packet with this payload, framed by its length.
pub open spec fn spec_framed(payload: Seq<u8>) -> Seq<u8> {
    spec_varint_bytes(payload.len()) + payload
}

fn push_u16(buffer: &mut Vec<u8>, v: u16)
    ensures
        final(buffer)@ == old(buffer)@ + spec_u16_bytes(v),
{
    buffer.push((v / 256) as u8);
    buffer.push((v % 256) as u8);
    assert(buffer@ =~= old(buffer)@ + spec_u16_bytes(v));
}

/// The message when a string of `len` bytes is too long to encode.
pub open spec fn spec_string_too_long(len: nat) -> Seq<char> {
    "byte length of string ("@ + spec_decimal(len) + ") exceeds i32::MAX"@
}

fn string_too_long(len: usize) -> (e: ProtocolError)
    ensures
        e matches ProtocolError::Encode(t) && t@ == spec_string_too_long(len as nat),
{
    let mut text = String::from_str("byte length of string (");
    push_decimal(&mut text, len as u64);
    text.append(") exceeds i32::MAX");
    ProtocolError::Encode(text)
}

/// Encodes the handshake packet of `handshake`, framed: refused when its
/// next state has no tag, when its address is longer than `i32::MAX`
/// bytes, or when the packet would be larger than `MAX_PACKET_SIZE`.
pub fn encode_handshake(handshake: &HandshakeInfo) -> (res: Result<Vec<u8>, ProtocolError>)
    ensures
        !(1 <= handshake.next_state <= 3) ==> (res matches Err(ProtocolError::InvalidNextState(n))
            && n == handshake.next_state),
        1 <= handshake.next_state <= 3 && encode_utf8(handshake.server_address@).len() > i32::MAX
            ==> (res matches Err(ProtocolError::Encode(t)) && t@ == spec_string_too_long(
            encode_utf8(handshake.server_address@).len(),
        )),
        1 <= handshake.next_state <= 3 && encode_utf8(handshake.server_address@).len() <= i32::MAX
            && spec_handshake_payload(*handshake).len() > MAX_PACKET_SIZE ==> (res matches Err(
            ProtocolError::Encode(t),
        ) && t@ == "packet exceeds maximum length"@),
        1 <= handshake.next_state <= 3 && spec_handshake_payload(*handshake).len()
            <= MAX_PACKET_SIZE ==> (res matches Ok(out) && out@ == spec_framed(
            spec_handshake_payload(*handshake),
        )),
{
    let tag = match HandshakeNextStateNew::from_tag(handshake.next_state) {
        Some(state) => state.tag(),
        None => return Err(ProtocolError::InvalidNextState(handshake.next_state)),
    };
    let bytes = handshake.server_address.as_str().as_bytes();
    let ghost full = spec_handshake_payload(*handshake);
    if bytes.len() > i32::MAX as usize {
        return Err(string_too_long(bytes.len()));
    }
    if bytes.len() > MAX_PACKET_SIZE {
        assert(full.len() >= bytes@.len());
        return Err(ProtocolError::encode("packet exceeds maximum length"));
    }
    let mut payload: Vec<u8> = Vec::new();
    write_varint_bits(&mut payload, 0);
    write_varint_bits(&mut payload, handshake.protocol_version);
    write_varint_bits(&mut payload, bytes.len() as i32);
    assert(spec_varint_i32(bytes.len() as i32) == spec_varint_bytes(bytes@.len()));
    extend_bytes(&mut payload, bytes);
    push_u16(&mut payload, handshake.server_port);
    write_varint_bits(&mut payload, tag);
    assert(payload@ =~= full);
    if payload.len() > MAX_PACKET_SIZE {
        return Err(ProtocolError::encode("packet exceeds maximum length"));
    }
    let mut out: Vec<u8> = Vec::new();
    write_varint_bits(&mut out, payload.len() as i32);
    assert(spec_varint_i32(payload.len() as i32) == spec_varint_bytes(payload@.len()));
    extend_bytes(&mut out, payload.as_slice());
    assert(out@ =~= spec_framed(full));
    Ok(out)
}

/// Reading a VarInt back gives the `i32` that was written, whatever its
/// sign.
pub proof fn lemma_varint_i32_roundtrip(x: i32, rest: Seq<u8>)
    ensures
        spec_read_varint(spec_varint_i32(x) + rest) == Ok::<(i32, nat), WireError>(
            (x, spec_varint_i32(x).len()),
        ),
        1 <= spec_varint_i32(x).len() <= 5,
{
    let w = (x as u32) as nat;
    lemma_varint_bytes_len(w, 5);
    let e = spec_varint_bytes(w);
    let s = e + rest;
    assert(s.subrange(0, e.len() as int) =~= e);
    lemma_scan_encoded(s, 0, 0, w);
    assert(x >= 0 ==> (x as u32) == x) by (bit_vector);
    assert(x < 0 ==> (x as u32) == x + 0x1_0000_0000) by (bit_vector);
    assert(wrap_i32(w as int) == x);
}

/// The handshake packet body that `encode_handshake` writes decodes back
/// to the same handshake.
pub proof fn lemma_handshake_roundtrip(h: HandshakeInfo)
    requires
        1 <= h.next_state <= 3,
        spec_handshake_payload(h).len() <= MAX_PACKET_SIZE,
    ensures
        spec_handshake_fields(
            0,
            spec_handshake_body(
                h.protocol_version,
                encode_utf8(h.server_address@),
                h.server_port,
                h.next_state,
            ),
        ) == Some((h.protocol_version, h.server_address@, h.server_port, h.next_state)),
{
    let a = encode_utf8(h.server_address@);
    let v = spec_varint_i32(h.protocol_version);
    let st = spec_string_bytes(a);
    let p = spec_u16_bytes(h.server_port);
    let t = spec_varint_i32(h.next_state);
    let body = v + st + p + t;
    assert(body =~= spec_handshake_body(h.protocol_version, a, h.server_port, h.next_state));
    assert(spec_handshake_payload(h).len() == spec_varint_i32(0).len() + body.len());
    lemma_varint_i32_roundtrip(h.protocol_version, st + p + t);
    assert(body =~= v + (st + p + t));
    assert(body.skip(v.len() as int) =~= st + (p + t));
    lemma_string_roundtrip(h.server_address@, p + t, body.len());
    assert(body.skip((v.len() + st.len()) as int) =~= p + t);
    lemma_u16_roundtrip(h.server_port, t);
    assert(body.skip((v.len() + st.len() + 2) as int) =~= t + Seq::<u8>::empty());
    lemma_varint_i32_roundtrip(h.next_state, Seq::<u8>::empty());
    assert(t + Seq::<u8>::empty() =~= t);
}

/// A frame written back by `encode_raw_frame` takes as many bytes as the
/// frame reported taking on the wire.
pub proof fn lemma_raw_frame_len(id: i32, body: Seq<u8>)
    ensures
        spec_raw_frame(id, body).len() == spec_wire_len(id, body.len()),
{
}

/// A frame written back by `encode_raw_frame` reads back as a frame whose
/// payload is the packet id followed by the body.
pub proof fn lemma_raw_frame_roundtrip(id: i32, body: Seq<u8>, rest: Seq<u8>, max_size: nat)
    requires
        spec_varint_i32(id).len() + body.len() <= max_size,
        spec_varint_i32(id).len() + body.len() <= i32::MAX,
    ensures
        spec_read_frame(spec_raw_frame(id, body) + rest, max_size) == Ok::<(Seq<u8>, nat), WireError>(
            (spec_varint_i32(id) + body, spec_raw_frame(id, body).len()),
        ),
        spec_read_varint(spec_varint_i32(id) + body) == Ok::<(i32, nat), WireError>(
            (id, spec_varint_i32(id).len()),
        ),
{
    let packet = spec_varint_i32(id) + body;
    lemma_varint_i32_roundtrip(id, body);
    let n = packet.len() as int;
    let w = wrap_i32(n);
    assert(w == n);
    assert(w >= 0 ==> (w as u32) == w) by (bit_vector);
    assert(spec_raw_frame(id, body) =~= spec_frame(packet));
    lemma_frame_roundtrip(packet, rest, max_size);
}

/// What a status response frame decodes to: the JSON in its one
/// length-prefixed UTF-8 string with nothing after it, under packet id 0,
/// or the text of what does not fit.
pub open spec fn spec_status_response_decode(id: i32, body: Seq<u8>) -> Result<Seq<char>, Seq<char>> {
    if id != 0 {
        Err(spec_id_mismatch(0, id))
    } else {
        match spec_read_string(body, body.len()) {
            Ok((json, n)) => if n < body.len() {
                Err(spec_missed_bytes((body.len() - n) as nat, "QueryResponseS2c"@))
            } else {
                Ok(json)
            },
            Err(_) => Err(spec_field_error("json"@, "QueryResponseS2c"@)),
        }
    }
}

/// Decodes the JSON of a status response frame.
pub fn decode_status_response(frame: &FramedPacket) -> (res: Result<String, ProtocolError>)
    ensures
        match spec_status_response_decode(frame.id, frame.body@) {
            Ok(json) => res matches Ok(s) && s@ == json,
            Err(text) => res matches Err(ProtocolError::Decode(t)) && t@ == text,
        },
{
    if frame.id != 0 {
        return Err(id_mismatch(0, frame.id));
    }
    let body = frame.body.as_slice();
    let mut cursor = ByteCursor::new(body);
    let json = match read_string(&mut cursor, body.len()) {
        Ok(s) => s,
        Err(_) => return Err(field_error("json", "QueryResponseS2c")),
    };
    if cursor.remaining() != 0 {
        return Err(missed_bytes(cursor.remaining(), "QueryResponseS2c"));
    }
    Ok(json)
}

/// The `n` low bytes of `v`, most significant first.
pub open spec fn spec_be_bytes(v: nat, n: nat) -> Seq<u8>
    decreases n,
{
    if n == 0 {
        Seq::empty()
    } else {
        spec_be_bytes(v / 256, (n - 1) as nat).push((v % 256) as u8)
    }
}

/// The payload of a status ping or pong: packet id 1, then the 8 bytes of
/// `payload`, most significant first.
pub open spec fn spec_ping_payload(payload: u64) -> Seq<u8> {
    spec_varint_i32(1) + spec_be_bytes(payload as nat, 8)
}

fn push_be(buffer: &mut Vec<u8>, v: u64, n: usize)
    requires
        n <= 8,
    ensures
        final(buffer)@ == old(buffer)@ + spec_be_bytes(v as nat, n as nat),
    decreases n,
{
    if n > 0 {
        push_be(buffer, v / 256, n - 1);
        buffer.push((v % 256) as u8);
        assert(buffer@ =~= old(buffer)@ + spec_be_bytes(v as nat, n as nat));
    }
}

/// Encodes the status ping request carrying `payload`, framed.
pub fn ping_request_packet(payload: u64) -> (res: Result<Vec<u8>, ProtocolError>)
    ensures
        res matches Ok(out) && out@ == spec_framed(spec_ping_payload(payload)),
{
    let mut body: Vec<u8> = Vec::new();
    write_varint_bits(&mut body, 1);
    push_be(&mut body, payload, 8);
    proof {
        lemma_be_bytes_value(payload as nat, 8);
        assert((1i32 as u32) as nat == 1) by (bit_vector);
        assert(spec_varint_i32(1) =~= seq![1u8]);
        assert(body@.len() == 9);
        assert((9i32 as u32) as nat == 9) by (bit_vector);
    }
    let mut out: Vec<u8> = Vec::new();
    write_varint_bits(&mut out, body.len() as i32);
    assert(spec_varint_i32(body.len() as i32) == spec_varint_bytes(body@.len()));
    extend_bytes(&mut out, body.as_slice());
    assert(out@ =~= spec_framed(spec_ping_payload(payload)));
    Ok(out)
}

/// The error text when a frame with packet id `got` is decoded as a packet
/// with id `expected`.
pub open spec fn spec_id_mismatch(expected: i32, got: i32) -> Seq<char> {
    "packet ID mismatch: expected "@ + spec_signed_decimal(expected as int) + ", got "@
        + spec_signed_decimal(got as int)
}

/// The error text when `n` bytes of a frame's body are left over after the
/// packet `name` was decoded.
pub open spec fn spec_missed_bytes(n: nat, name: Seq<char>) -> Seq<char> {
    "missed "@ + spec_decimal(n) + " bytes while decoding packet "@ + name
}

/// The error text when the body of a frame for the packet `name` ends
/// before its number is complete.
pub open spec fn spec_short_body(name: Seq<char>) -> Seq<char> {
    "failed to decode field `payload` in `"@ + name + "`"@
}

/// What a status frame that carries one 8-byte number decodes to, for a
/// packet with id `expected` named `name`: the number, or the error text.
pub open spec fn spec_number_packet(expected: i32, name: Seq<char>, id: i32, body: Seq<u8>) -> Result<
    u64,
    Seq<char>,
> {
    if id != expected {
        Err(spec_id_mismatch(expected, id))
    } else if body.len() < 8 {
        Err(spec_short_body(name))
    } else if body.len() > 8 {
        Err(spec_missed_bytes((body.len() - 8) as nat, name))
    } else {
        Ok(spec_be_value(body) as u64)
    }
}

/// The number a status pong frame with packet id `id` and body `body`
/// carries: 8 bytes, most significant first, and nothing after them.
pub open spec fn spec_pong_response(id: i32, body: Seq<u8>) -> Option<u64> {
    match spec_number_packet(1, "QueryPongS2c"@, id, body) {
        Ok(v) => Some(v),
        Err(_) => None,
    }
}

fn id_mismatch(expected: i32, got: i32) -> (e: ProtocolError)
    ensures
        e matches ProtocolError::Decode(t) && t@ == spec_id_mismatch(expected, got),
{
    let mut text = String::from_str("packet ID mismatch: expected ");
    push_signed_decimal(&mut text, expected as i64);
    text.append(", got ");
    push_signed_decimal(&mut text, got as i64);
    ProtocolError::Decode(text)
}

fn missed_bytes(n: usize, name: &str) -> (e: ProtocolError)
    ensures
        e matches ProtocolError::Decode(t) && t@ == spec_missed_bytes(n as nat, name@),
{
    let mut text = String::from_str("missed ");
    push_decimal(&mut text, n as u64);
    text.append(" bytes while decoding packet ");
    text.append(name);
    ProtocolError::Decode(text)
}

fn decode_number_packet(frame: &FramedPacket, expected: i32, name: &str) -> (res: Result<
    u64,
    ProtocolError,
>)
    ensures
        match spec_number_packet(expected, name@, frame.id, frame.body@) {
            Ok(v) => res == Ok::<u64, ProtocolError>(v),
            Err(text) => res matches Err(ProtocolError::Decode(t)) && t@ == text,
        },
{
    if frame.id != expected {
        return Err(id_mismatch(expected, frame.id));
    }
    if frame.body.len() < 8 {
        let mut text = String::from_str("failed to decode field `payload` in `");
        text.append(name);
        text.append("`");
        return Err(ProtocolError::Decode(text));
    }
    if frame.body.len() > 8 {
        return Err(missed_bytes(frame.body.len() - 8, name));
    }
    let body = frame.body.as_slice();
    let mut acc: u64 = 0;
    let mut i: usize = 0;
    while i < 8
        invariant
            i <= 8,
            body@ == frame.body@,
            body@.len() == 8,
            acc == spec_be_value(body@.subrange(0, i as int)),
        decreases 8 - i,
    {
        proof {
            lemma_be_value_bound(body@.subrange(0, i as int));
            lemma_pow256_monotone(i as nat, 7);
            lemma_pow256_7();
        }
        let b = body[i];
        assert(body@.subrange(0, i + 1).drop_last() =~= body@.subrange(0, i as int));
        acc = acc * 256 + (b as u64);
        i = i + 1;
    }
    assert(body@.subrange(0, 8) =~= body@);
    Ok(acc)
}

/// Decodes the number a status pong frame carries.
pub fn decode_pong_response(frame: &FramedPacket) -> (res: Result<u64, ProtocolError>)
    ensures
        match spec_number_packet(1, "QueryPongS2c"@, frame.id, frame.body@) {
            Ok(v) => res == Ok::<u64, ProtocolError>(v),
            Err(text) => res matches Err(ProtocolError::Decode(t)) && t@ == text,
        },
{
    decode_number_packet(frame, 1, "QueryPongS2c")
}

/// Decodes the number a status ping frame carries.
pub fn decode_ping_request(frame: &FramedPacket) -> (res: Result<u64, ProtocolError>)
    ensures
        match spec_number_packet(1, "QueryPingC2s"@, frame.id, frame.body@) {
            Ok(v) => res == Ok::<u64, ProtocolError>(v),
            Err(text) => res matches Err(ProtocolError::Decode(t)) && t@ == text,
        },
{
    decode_number_packet(frame, 1, "QueryPingC2s")
}

/// Checks that a frame is a status request: packet id 0 and an empty body.
pub fn decode_status_request(frame: &FramedPacket) -> (res: Result<(), ProtocolError>)
    ensures
        frame.id != 0 ==> (res matches Err(ProtocolError::Decode(t)) && t@ == spec_id_mismatch(
            0,
            frame.id,
        )),
        frame.id == 0 && frame.body@.len() > 0 ==> (res matches Err(ProtocolError::Decode(t)) && t@
            == spec_missed_bytes(frame.body@.len(), "QueryRequestC2s"@)),
        frame.id == 0 && frame.body@.len() == 0 ==> res is Ok,
{
    if frame.id != 0 {
        return Err(id_mismatch(0, frame.id));
    }
    if frame.body.len() > 0 {
        return Err(missed_bytes(frame.body.len(), "QueryRequestC2s"));
    }
    Ok(())
}

/// Encodes the status pong carrying `payload`, framed.
pub fn ping_response_packet(payload: u64) -> (res: Result<Vec<u8>, ProtocolError>)
    ensures
        res matches Ok(out) && out@ == spec_framed(spec_ping_payload(payload)),
{
    ping_request_packet(payload)
}

/// The payload of the status response carrying `json`: packet id 0, then
/// the text with its length.
pub open spec fn spec_status_response_payload(json: Seq<char>) -> Seq<u8> {
    spec_varint_i32(0) + spec_string_bytes(encode_utf8(json))
}

/// Encodes the status response carrying `json`, framed: refused when the
/// text is longer than `i32::MAX` bytes or the packet would be larger than
/// `MAX_PACKET_SIZE`.
pub fn status_response_packet(json: &str) -> (res: Result<Vec<u8>, ProtocolError>)
    ensures
        encode_utf8(json@).len() > i32::MAX ==> (res matches Err(ProtocolError::Encode(t)) && t@
            == spec_string_too_long(encode_utf8(json@).len())),
        encode_utf8(json@).len() <= i32::MAX && spec_status_response_payload(json@).len()
            > MAX_PACKET_SIZE ==> (res matches Err(ProtocolError::Encode(t)) && t@
            == "packet exceeds maximum length"@),
        spec_status_response_payload(json@).len() <= MAX_PACKET_SIZE ==> (res matches Ok(out) && out@
            == spec_framed(spec_status_response_payload(json@))),
{
    let bytes = json.as_bytes();
    let ghost full = spec_status_response_payload(json@);
    if bytes.len() > i32::MAX as usize {
        return Err(string_too_long(bytes.len()));
    }
    if bytes.len() > MAX_PACKET_SIZE {
        return Err(ProtocolError::encode("packet exceeds maximum length"));
    }
    let mut payload: Vec<u8> = Vec::new();
    write_varint_bits(&mut payload, 0);
    write_varint_bits(&mut payload, bytes.len() as i32);
    assert(spec_varint_i32(bytes.len() as i32) == spec_varint_bytes(bytes@.len()));
    extend_bytes(&mut payload, bytes);
    assert(payload@ =~= full);
    if payload.len() > MAX_PACKET_SIZE {
        return Err(ProtocolError::encode("packet exceeds maximum length"));
    }
    let mut out: Vec<u8> = Vec::new();
    write_varint_bits(&mut out, payload.len() as i32);
    assert(spec_varint_i32(payload.len() as i32) == spec_varint_bytes(payload@.len()));
    extend_bytes(&mut out, payload.as_slice());
    assert(out@ =~= spec_framed(full));
    Ok(out)
}

proof fn lemma_pow256_7()
    ensures
        pow256(7) == 0x100_0000_0000_0000u64,
{
    assert(pow256(0) == 1);
    assert(pow256(1) == 0x100);
    assert(pow256(2) == 0x1_0000);
    assert(pow256(3) == 0x100_0000);
    assert(pow256(4) == 0x1_0000_0000);
    assert(pow256(5) == 0x100_0000_0000);
    assert(pow256(6) == 0x1_0000_0000_0000);
    assert(pow256(7) == 0x100_0000_0000_0000);
}

/// Reading back the bytes written for `v` gives `v` below `256^n`.
proof fn lemma_be_bytes_value(v: nat, n: nat)
    ensures
        spec_be_bytes(v, n).len() == n,
        spec_be_value(spec_be_bytes(v, n)) == v % pow256(n),
    decreases n,
{
    if n > 0 {
        lemma_be_bytes_value(v / 256, (n - 1) as nat);
        let b = spec_be_bytes(v, n);
        assert(b.drop_last() =~= spec_be_bytes(v / 256, (n - 1) as nat));
        lemma_pow256_positive((n - 1) as nat);
        vstd::arithmetic::div_mod::lemma_breakdown(v as int, 256, pow256((n - 1) as nat) as int);
        assert(pow256(n) == 256 * pow256((n - 1) as nat)) by (nonlinear_arith)
            requires
                pow256(n) == pow256((n - 1) as nat) * 256,
        ;
    }
}

proof fn lemma_pow256_positive(n: nat)
    ensures
        pow256(n) > 0,
    decreases n,
{
    if n > 0 {
        lemma_pow256_positive((n - 1) as nat);
    }
}

/// The 8 bytes a ping carries, echoed back in a pong, decode to the same
/// number.
pub proof fn lemma_ping_payload_roundtrip(payload: u64)
    ensures
        spec_pong_response(1, spec_be_bytes(payload as nat, 8)) == Some(payload),
{
    lemma_be_bytes_value(payload as nat, 8);
    lemma_pow256_7();
    assert(pow256(8) == pow256(7) * 256);
    assert(pow256(8) == 0x1_0000_0000_0000_0000);
    assert((payload as nat) % pow256(8) == payload as nat);
}

} // verus!
