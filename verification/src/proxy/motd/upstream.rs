//! What the proxy sends an upstream to ask for its status.
use vstd::prelude::*;
use vstd::string::*;
use vstd::utf8::encode_utf8;

use crate::minecraft::error::ProtocolError;
use crate::minecraft::protocol::{
    encode_handshake, spec_framed, spec_handshake_body, spec_string_too_long, MAX_PACKET_SIZE,
};
use crate::minecraft::spec_rewrite_host;
use crate::minecraft::spec_varint_i32;
use crate::minecraft::types::{
    spec_addr_format_error, spec_addr_parts, spec_addr_port_error, spec_parse_u16, HandshakeInfo,
};

verus! {

/// Why no status probe could be written: the rewrite address has no
/// `host:port` form or port (its message), or the handshake does not
/// encode.
#[derive(Debug)]
pub enum StatusProbeError {
    Address(String),
    Encode(ProtocolError),
}

/// The payload of the handshake `h` pointed at `host` and `port`.
pub open spec fn spec_probe_handshake(h: HandshakeInfo, host: Seq<char>, port: u16) -> Seq<u8> {
    spec_varint_i32(0) + spec_handshake_body(
        h.protocol_version,
        encode_utf8(spec_rewrite_host(h.server_address@, host)),
        port,
        h.next_state,
    )
}

/// The status probe sent upstream for the client's `handshake`: the
/// handshake pointed at `rewrite_addr` (see `HandshakeInfo::rewrite_addr`),
/// framed, then an empty status request.
pub fn status_probe(handshake: &HandshakeInfo, rewrite_addr: &str) -> (res: Result<
    Vec<u8>,
    StatusProbeError,
>)
    ensures
        match spec_addr_parts(rewrite_addr@) {
            None => res matches Err(StatusProbeError::Address(m)) && m@ == spec_addr_format_error(
                rewrite_addr@,
            ),
            Some((host, port_text)) => match spec_parse_u16(port_text) {
                None => res matches Err(StatusProbeError::Address(m)) && m@
                    == spec_addr_port_error(rewrite_addr@),
                Some(port) => {
                    let payload = spec_probe_handshake(*handshake, host, port);
                    let address = encode_utf8(spec_rewrite_host(handshake.server_address@, host));
                    if !(1 <= handshake.next_state <= 3) {
                        res matches Err(StatusProbeError::Encode(ProtocolError::InvalidNextState(n)))
                            && n == handshake.next_state
                    } else if address.len() > i32::MAX {
                        res matches Err(StatusProbeError::Encode(ProtocolError::Encode(t))) && t@
                            == spec_string_too_long(address.len())
                    } else if payload.len() > MAX_PACKET_SIZE {
                        res matches Err(StatusProbeError::Encode(ProtocolError::Encode(t))) && t@
                            == "packet exceeds maximum length"@
                    } else {
                        res matches Ok(out) && out@ == spec_framed(payload) + seq![1u8, 0u8]
                    }
                },
            },
        },
{
    let mut rewritten = HandshakeInfo {
        protocol_version: handshake.protocol_version,
        server_address: handshake.server_address.clone(),
        server_port: handshake.server_port,
        next_state: handshake.next_state,
    };
    match rewritten.rewrite_addr(rewrite_addr) {
        Ok(()) => {},
        Err(m) => return Err(StatusProbeError::Address(m)),
    }
    let mut probe = match encode_handshake(&rewritten) {
        Ok(p) => p,
        Err(e) => return Err(StatusProbeError::Encode(e)),
    };
    let ghost framed = probe@;
    probe.push(1);
    probe.push(0);
    assert(probe@ =~= framed + seq![1u8, 0u8]);
    Ok(probe)
}

} // verus!
