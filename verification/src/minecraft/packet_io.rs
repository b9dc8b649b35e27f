//! A frame as the decoder hands it over, and the size check on it.
use vstd::prelude::*;

use super::error::ProtocolError;
use crate::minecraft::{
    read_varint, spec_read_varint, spec_varint_i32, varint_len, wrap_i32, ByteCursor,
};
use vstd::string::*;

verus! {

/// A decoded frame: its packet id, the bytes after the id, and how many
/// bytes the frame took on the wire.
#[derive(Clone, Debug)]
pub struct FramedPacket {
    pub wire_len: usize,
    pub id: i32,
    pub body: Vec<u8>,
}

/// The bytes a frame with packet id `id` and a body of `body_len` bytes
/// takes on the wire: the length prefix, the id, and the body.
pub open spec fn spec_wire_len(id: i32, body_len: nat) -> nat {
    let packet_len = spec_varint_i32(id).len() + body_len;
    spec_varint_i32(wrap_i32(packet_len as int)).len() + packet_len
}

impl FramedPacket {
    /// The frame with packet id `id` and body `body`, refused when it takes
    /// more than `max_wire_size` bytes on the wire.
    pub fn checked(id: i32, body: Vec<u8>, max_wire_size: usize) -> (res: Result<
        FramedPacket,
        ProtocolError,
    >)
        requires
            body@.len() + 10 <= usize::MAX,
        ensures
            spec_wire_len(id, body@.len()) <= max_wire_size ==> (res matches Ok(f) && f.id == id
                && f.body@ == body@ && f.wire_len == spec_wire_len(id, body@.len())),
            spec_wire_len(id, body@.len()) > max_wire_size ==> (res matches Err(
                ProtocolError::PacketTooLarge { size, max_size },
            ) && size == spec_wire_len(id, body@.len()) && max_size == max_wire_size),
    {
        let packet_len = varint_len(id) + body.len();
        let wire_len = varint_len(truncate_i32(packet_len)) + packet_len;
        if wire_len > max_wire_size {
            return Err(ProtocolError::PacketTooLarge { size: wire_len, max_size: max_wire_size });
        }
        Ok(FramedPacket { wire_len, id, body })
    }
}

/// The low 32 bits of `n` as an `i32`, as `n as i32` gives them.
pub fn truncate_i32(n: usize) -> (v: i32)
    ensures
        v == wrap_i32(n as int),
{
    let low: u64 = (n as u64) % 0x1_0000_0000;
    if low >= 0x8000_0000 {
        let d: i64 = (low as i64) - 0x1_0000_0000i64;
        d as i32
    } else {
        low as i32
    }
}

/// What `valence_protocol`'s `PacketDecoder` makes of the buffered bytes
/// `bytes`: the packet id and the body of the first frame, `None` while
/// that frame is incomplete, or the text of its error.
pub uninterp spec fn valence_next_frame(bytes: Seq<u8>) -> Result<Option<(i32, Seq<u8>)>, Seq<char>>;

/// Queues `bytes` into a fresh `PacketDecoder` and calls `try_next_packet`;
/// the result is named `valence_next_frame`. The body is a part of the
/// queued bytes, so it is shorter than they are.
#[verifier::external_body]
fn next_frame_raw(bytes: &[u8]) -> (r: Result<Option<(i32, Vec<u8>)>, String>)
    ensures
        match valence_next_frame(bytes@) {
            Err(m) => r matches Err(t) && t@ == m,
            Ok(None) => r matches Ok(None),
            Ok(Some((id, body))) => r matches Ok(Some((i, b))) && i == id && b@ == body && body.len()
                < bytes@.len(),
        },
{
    let mut decoder = valence_protocol::decode::PacketDecoder::new();
    decoder.queue_slice(bytes);
    match decoder.try_next_packet() {
        Ok(frame) => Ok(frame.map(|f| (f.id, f.body.to_vec()))),
        Err(error) => Err(error.to_string()),
    }
}

/// How many buffered bytes the first frame of `bytes` takes, as the
/// decoder counts them: the length prefix written out, then that many
/// bytes.
pub open spec fn spec_frame_used(bytes: Seq<u8>) -> Option<nat> {
    match spec_read_varint(bytes) {
        Ok((len, _)) => if len >= 0 {
            Some(spec_varint_i32(len).len() + len as nat)
        } else {
            None
        },
        Err(_) => None,
    }
}

/// The first frame in the buffered bytes `buffered`, with the number of
/// bytes it takes: `None` while it is incomplete; the decoder's error as a
/// decode error; refused when it takes more than `max_wire_size` bytes on
/// the wire (see `FramedPacket::checked`).
pub fn next_frame(buffered: &[u8], max_wire_size: usize) -> (r: Result<
    Option<(FramedPacket, usize)>,
    ProtocolError,
>)
    requires
        buffered@.len() + 10 <= usize::MAX,
    ensures
        match valence_next_frame(buffered@) {
            Err(m) => r matches Err(ProtocolError::Decode(t)) && t@ == m,
            Ok(None) => r matches Ok(None),
            Ok(Some((id, body))) => match spec_frame_used(buffered@) {
                None => r matches Err(ProtocolError::Decode(t)) && t@
                    == "malformed packet length VarInt"@,
                Some(used) => if spec_wire_len(id, body.len()) <= max_wire_size {
                    r matches Ok(Some((f, u))) && f.id == id && f.body@ == body && f.wire_len
                        == spec_wire_len(id, body.len()) && u == used
                } else {
                    r matches Err(ProtocolError::PacketTooLarge { size, max_size }) && size
                        == spec_wire_len(id, body.len()) && max_size == max_wire_size
                },
            },
        },
{
    let (id, body) = match next_frame_raw(buffered) {
        Err(m) => return Err(ProtocolError::Decode(m)),
        Ok(None) => return Ok(None),
        Ok(Some(frame)) => frame,
    };
    let mut cursor = ByteCursor::new(buffered);
    let len = match read_varint(&mut cursor) {
        Ok(v) => v,
        Err(_) => return Err(ProtocolError::decode("malformed packet length VarInt")),
    };
    if len < 0 {
        return Err(ProtocolError::decode("malformed packet length VarInt"));
    }
    let used = varint_len(len) + len as usize;
    let frame = FramedPacket::checked(id, body, max_wire_size)?;
    Ok(Some((frame, used)))
}

} // verus!
