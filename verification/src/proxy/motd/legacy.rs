//! The answer to a pre-1.7 server list ping, and the port of an address.
use vstd::prelude::*;
use vstd::string::*;

use crate::minecraft::types::{lemma_parse_decimal_port, parse_u16, spec_parse_u16};
use crate::proxy::config::normalizer::spec_join_host_port;
use crate::json::{
    json_parsed, parse_json,get_member, json_view, member, object_members, JsonValue, JsonView};
use crate::minecraft::error::ProtocolError;
use crate::minecraft::protocol::{
    encode_handshake, spec_framed, spec_handshake_body, spec_string_too_long, MAX_PACKET_SIZE,
};
use crate::minecraft::types::HandshakeInfo;
use crate::minecraft::{spec_u16_bytes, spec_varint_i32};
use vstd::utf8::encode_utf8;
use crate::proxy::motd::rewrite::opt_json;
use crate::text::{
    find_char, find_last_char, first_index_of, last_index_of, lemma_decimal_chars,
    lemma_first_index_of, lemma_first_index_past, lemma_last_index_of,
    lemma_last_index_past, spec_decimal,
};

verus! {

/// The UTF-16 code units of one character.
pub open spec fn spec_utf16_char(c: char) -> Seq<u16> {
    let v = c as nat;
    if v < 0x10000 {
        seq![v as u16]
    } else {
        let w = (v - 0x10000) as nat;
        seq![(0xD800 + w / 1024) as u16, (0xDC00 + w % 1024) as u16]
    }
}

/// The UTF-16 code units of `s`.
pub open spec fn spec_utf16(s: Seq<char>) -> Seq<u16>
    decreases s.len(),
{
    if s.len() == 0 {
        Seq::empty()
    } else {
        spec_utf16(s.drop_last()) + spec_utf16_char(s.last())
    }
}

/// Each code unit as two big-endian bytes.
pub open spec fn spec_units_be(units: Seq<u16>) -> Seq<u8>
    decreases units.len(),
{
    if units.len() == 0 {
        Seq::empty()
    } else {
        spec_units_be(units.drop_last()) + spec_u16_bytes(units.last())
    }
}

/// The legacy kick packet carrying `value`: `0xFF`, the number of UTF-16
/// code units (its low 16 bits), then the units, all big-endian.
pub open spec fn spec_legacy_response(value: Seq<char>) -> Seq<u8> {
    let units = spec_utf16(value);
    seq![0xFFu8] + spec_u16_bytes((units.len() % 65536) as u16) + spec_units_be(units)
}

fn push_unit(out: &mut Vec<u8>, unit: u16)
    ensures
        final(out)@ == old(out)@ + spec_u16_bytes(unit),
{
    out.push((unit / 256) as u8);
    out.push((unit % 256) as u8);
    assert(out@ =~= old(out)@ + spec_u16_bytes(unit));
}

/// Encodes the answer to a legacy server list ping; see
/// `spec_legacy_response`.
pub fn encode_legacy_response(value: &str) -> (response: Vec<u8>)
    ensures
        response@ == spec_legacy_response(value@),
{
    let n = value.unicode_len();
    let mut units: Vec<u16> = Vec::new();
    let mut i: usize = 0;
    while i < n
        invariant
            i <= n,
            n == value@.len(),
            units@ == spec_utf16(value@.take(i as int)),
        decreases n - i,
    {
        let c = value.get_char(i);
        let v = c as u32;
        assert(value@.take(i + 1).drop_last() =~= value@.take(i as int));
        assert(value@.take(i + 1).last() == c);
        if v < 0x10000 {
            units.push(v as u16);
        } else {
            let w = v - 0x10000;
            units.push((0xD800 + w / 1024) as u16);
            units.push((0xDC00 + w % 1024) as u16);
        }
        assert(units@ =~= spec_utf16(value@.take(i + 1)));
        i = i + 1;
    }
    assert(value@.take(n as int) =~= value@);
    let mut response: Vec<u8> = Vec::new();
    response.push(0xFF);
    push_unit(&mut response, (units.len() % 65536) as u16);
    let mut j: usize = 0;
    while j < units.len()
        invariant
            j <= units@.len(),
            response@ == seq![0xFFu8] + spec_u16_bytes((units@.len() % 65536) as u16)
                + spec_units_be(units@.take(j as int)),
        decreases units@.len() - j,
    {
        assert(units@.take(j + 1).drop_last() =~= units@.take(j as int));
        push_unit(&mut response, units[j]);
        assert(response@ =~= seq![0xFFu8] + spec_u16_bytes((units@.len() % 65536) as u16)
            + spec_units_be(units@.take(j + 1)));
        j = j + 1;
    }
    assert(units@.take(units@.len() as int) =~= units@);
    response
}

/// The port of `addr`: after `]:` for a bracketed IPv6 address, else
/// after the last colon.
pub open spec fn spec_extract_port(addr: Seq<char>) -> Option<u16> {
    if addr.len() > 0 && addr[0] == '[' {
        let stripped = addr.skip(1);
        match first_index_of(stripped, ']', 0) {
            None => None,
            Some(i) => {
                let rest = stripped.skip((i + 1) as int);
                if rest.len() > 0 && rest[0] == ':' {
                    spec_parse_u16(rest.skip(1))
                } else {
                    None
                }
            },
        }
    } else {
        match last_index_of(addr, ':', addr.len()) {
            None => None,
            Some(k) => spec_parse_u16(addr.skip((k + 1) as int)),
        }
    }
}

/// The port of `addr`; see `spec_extract_port`.
pub fn extract_port(addr: &str) -> (port: Option<u16>)
    ensures
        port == spec_extract_port(addr@),
{
    let n = addr.unicode_len();
    if n > 0 && addr.get_char(0) == '[' {
        let stripped = addr.substring_char(1, n);
        assert(stripped@ =~= addr@.skip(1));
        let i = match find_char(stripped, ']') {
            Some(i) => i,
            None => return None,
        };
        proof {
            lemma_first_index_of(stripped@, ']', 0);
        }
        let m = n - 1;
        let rest = stripped.substring_char(i + 1, m);
        assert(rest@ =~= stripped@.skip(i + 1));
        let r = rest.unicode_len();
        if r > 0 && rest.get_char(0) == ':' {
            let digits = rest.substring_char(1, r);
            assert(digits@ =~= rest@.skip(1));
            parse_u16(digits)
        } else {
            None
        }
    } else {
        match find_last_char(addr, ':') {
            None => None,
            Some(k) => {
                proof {
                    lemma_last_index_of(addr@, ':', addr@.len());
                }
                let digits = addr.substring_char(k + 1, n);
                assert(digits@ =~= addr@.skip(k + 1));
                parse_u16(digits)
            },
        }
    }
}

/// The port a legacy ping asks the upstream at `address` for: the
/// address's own, else 25565.
pub open spec fn spec_upstream_port(address: Seq<char>) -> u16 {
    match spec_extract_port(address) {
        Some(p) => p,
        None => 25565,
    }
}

/// The payload of the handshake a legacy ping sends the upstream at
/// `address`: protocol 763, the address and its port, the status state.
pub open spec fn spec_upstream_handshake(address: Seq<char>) -> Seq<u8> {
    spec_varint_i32(0) + spec_handshake_body(763, encode_utf8(address), spec_upstream_port(address), 1)
}

/// What a legacy ping sends the upstream at `address` to ask for its
/// status: the handshake, framed, then an empty status request; refused
/// when the address is longer than `i32::MAX` bytes or the handshake would
/// be larger than `MAX_PACKET_SIZE`.
pub fn upstream_status_request(address: &str) -> (res: Result<Vec<u8>, ProtocolError>)
    ensures
        spec_upstream_handshake(address@).len() <= MAX_PACKET_SIZE ==> (res matches Ok(out)
            && out@ == spec_framed(spec_upstream_handshake(address@)) + seq![1u8, 0u8]),
        encode_utf8(address@).len() > i32::MAX ==> (res matches Err(ProtocolError::Encode(t)) && t@
            == spec_string_too_long(encode_utf8(address@).len())),
        encode_utf8(address@).len() <= i32::MAX && spec_upstream_handshake(address@).len()
            > MAX_PACKET_SIZE ==> (res matches Err(ProtocolError::Encode(t)) && t@
            == "packet exceeds maximum length"@),
{
    let port = match extract_port(address) {
        Some(p) => p,
        None => 25565,
    };
    let handshake = HandshakeInfo {
        protocol_version: 763,
        server_address: address.to_string(),
        server_port: port,
        next_state: 1,
    };
    let mut request = encode_handshake(&handshake)?;
    let ghost framed = request@;
    request.push(1);
    request.push(0);
    assert(request@ =~= framed + seq![1u8, 0u8]);
    Ok(request)
}

/// A host whose brackets stand where an address puts them: a bracketed
/// host closes its bracket at its end and nowhere before; a host with a
/// colon and no opening bracket has no closing bracket.
pub open spec fn brackets_well_placed(host: Seq<char>) -> bool {
    if host.len() > 0 && host[0] == '[' {
        &&& host.len() >= 2
        &&& host.last() == ']'
        &&& forall|k: int| 1 <= k < host.len() - 1 ==> host[k] != ']'
    } else if first_index_of(host, ':', 0) is Some {
        forall|k: int| 0 <= k < host.len() ==> host[k] != ']'
    } else {
        true
    }
}

/// The port of an address written as `host:port` (with the host put in
/// brackets where it holds a colon) is read back by `extract_port`, for
/// every host whose brackets are well placed.
pub proof fn lemma_joined_port_read_back(host: Seq<char>, port: u16)
    requires
        brackets_well_placed(host),
    ensures
        spec_extract_port(spec_join_host_port(host, port)) == Some(port),
{
    let d = spec_decimal(port as nat);
    lemma_decimal_chars(port as nat);
    lemma_parse_decimal_port(port);
    let addr = spec_join_host_port(host, port);
    let opens = host.len() > 0 && host[0] == '[';
    if first_index_of(host, ':', 0) is Some && !opens {
        assert(addr =~= seq!['['] + host + seq![']', ':'] + d);
        let stripped = addr.skip(1);
        let n = host.len();
        assert(stripped =~= host + seq![']', ':'] + d);
        assert forall|k: int| 0 <= k < n implies stripped[k] != ']' by {
            assert(stripped[k] == host[k]);
        }
        lemma_first_index_past(stripped, ']', 0, n);
        assert(stripped[n as int] == ']');
        assert(first_index_of(stripped, ']', 0) == Some(n));
        assert(stripped.skip((n + 1) as int).skip(1) =~= d);
    } else {
        assert(addr =~= host + seq![':'] + d);
        if opens {
            let stripped = addr.skip(1);
            let m = (host.len() - 2) as nat;
            assert(stripped =~= host.skip(1) + seq![':'] + d);
            assert forall|k: int| 0 <= k < m implies stripped[k] != ']' by {
                assert(stripped[k] == host[k + 1]);
            }
            lemma_first_index_past(stripped, ']', 0, m);
            assert(stripped[m as int] == host.last());
            assert(first_index_of(stripped, ']', 0) == Some(m));
            assert(stripped.skip((m + 1) as int).skip(1) =~= d);
        } else {
            let n = host.len();
            assert forall|k: int| n + 1 <= k < addr.len() implies addr[k] != ':' by {
                assert(addr[k] == d[k - n - 1]);
            }
            lemma_last_index_past(addr, ':', addr.len(), n + 1);
            assert(addr[n as int] == ':');
            assert(last_index_of(addr, ':', n + 1) == Some(n));
            assert(addr.skip((n + 1) as int) =~= d);
        }
    }
}

/// The string at `/description/text` of the status `v`, where there is one.
pub open spec fn spec_description_text(v: Option<JsonView>) -> Option<Seq<char>> {
    match v {
        Some(x) => match get_member(object_members(x), "description"@) {
            Some(d) => match get_member(object_members(d), "text"@) {
                Some(JsonView::Text(t)) => Some(t),
                _ => None,
            },
            None => None,
        },
        None => None,
    }
}

/// The text a legacy client shows for the status `json`, parsed as
/// `parsed`: its `/description/text` string, else `json` itself.
pub fn legacy_text_from(parsed: Option<&JsonValue>, json: &str) -> (text: String)
    ensures
        text@ == match spec_description_text(opt_json(parsed)) {
            Some(t) => t,
            None => json@,
        },
{
    if let Some(JsonValue::Object(members)) = parsed {
        if let Some(JsonValue::Object(description)) = member(members, "description") {
            if let Some(JsonValue::Text(t)) = member(description, "text") {
                return t.clone();
            }
        }
    }
    String::from_str(json)
}

/// The text a legacy client shows for the status JSON `json`; see
/// `legacy_text_from`, with `json` parsed.
pub fn extract_legacy_text(json: &str) -> (text: String)
    ensures
        text@ == match spec_description_text(json_parsed(json@)) {
            Some(t) => t,
            None => json@,
        },
{
    let parsed = parse_json(json);
    legacy_text_from(parsed.as_ref(), json)
}

} // verus!
