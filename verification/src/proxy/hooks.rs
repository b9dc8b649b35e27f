//! Who a logging-in player is: the profile id the client sent, or the id
//! an offline server derives from the name.
use vstd::prelude::*;
use vstd::string::*;
use vstd::utf8::*;

use crate::config::api::DEFAULT_ENTRY_NODE_KEY;
use crate::minecraft::error::ProtocolError;
use crate::minecraft::packet_io::FramedPacket;
use crate::minecraft::protocol::{decode_login_hello, protocol_login_hello, spec_login_hello, LoginHelloInfo};
use crate::proxy::routing::{JoinDecision, JoinTarget};
use crate::text::push_char;

verus! {

/// What `uuid::Uuid::new_v3(&Uuid::NAMESPACE_DNS, name)` gives, as a `u128`.
pub uninterp spec fn uuid_v3_dns(name: Seq<u8>) -> u128;

/// `uuid::Uuid::new_v3` in the DNS namespace, read as a `u128`; the result
/// is named `uuid_v3_dns`.
#[verifier::external_body]
fn new_v3_dns(name: &[u8]) -> (id: u128)
    ensures
        id == uuid_v3_dns(name@),
{
    uuid::Uuid::new_v3(&uuid::Uuid::NAMESPACE_DNS, name).as_u128()
}

/// The name an offline server hashes for `username`.
pub open spec fn spec_offline_name(username: Seq<char>) -> Seq<u8> {
    encode_utf8("OfflinePlayer:"@ + username)
}

/// The id an offline server gives `username`.
pub fn offline_uuid(username: &str) -> (id: u128)
    ensures
        id == uuid_v3_dns(spec_offline_name(username@)),
{
    let mut name = String::from_str("OfflinePlayer:");
    name.append(username);
    new_v3_dns(name.as_str().as_bytes())
}

/// The player's id: the profile id of the login hello, else the offline id
/// of its name.
pub fn player_uuid(hello: &LoginHelloInfo) -> (id: u128)
    ensures
        id == match hello.profile_id {
            Some(p) => p,
            None => uuid_v3_dns(spec_offline_name(hello.username@)),
        },
{
    match hello.profile_id {
        Some(p) => p,
        None => offline_uuid(hello.username.as_str()),
    }
}

/// The lower-case hex digit of `d`.
pub open spec fn hex_digit(d: int) -> char {
    if d < 10 {
        (48 + d) as char
    } else {
        (87 + d) as char
    }
}

/// The `i`-th hex digit of `id`, most significant first.
pub open spec fn nibble(id: u128, i: int) -> int {
    (id as int / pow16(31 - i)) % 16
}

pub open spec fn pow16(n: int) -> int
    decreases n,
{
    if n <= 0 {
        1
    } else {
        16 * pow16(n - 1)
    }
}

/// `id` as hyphenated lower-case hex: its 32 digits, most significant
/// first, with a hyphen before the 9th, 13th, 17th and 21st.
pub open spec fn spec_uuid_text(id: u128) -> Seq<char> {
    spec_uuid_text_prefix(id, 32)
}

fn hex_char(d: u128) -> (c: char)
    requires
        d < 16,
    ensures
        c == hex_digit(d as int),
{
    if d < 10 {
        ((48 + d) as u8) as char
    } else {
        ((87 + d) as u8) as char
    }
}

/// `id` as a uuid's hyphenated lower-case text.
pub fn uuid_text(id: u128) -> (s: String)
    ensures
        s@ == spec_uuid_text(id),
{
    let mut s = String::new();
    let mut i: usize = 0;
    let mut divisor: u128 = 0x1000_0000_0000_0000_0000_0000_0000_0000;
    proof {
        lemma_pow16_31();
    }
    while i < 32
        invariant
            i <= 32,
            divisor as int == pow16(31 - i),
            divisor >= 1,
            pow16(31) == 0x1000_0000_0000_0000_0000_0000_0000_0000,
            s@ == spec_uuid_text_prefix(id, i as int),
        decreases 32 - i,
    {
        if i == 8 || i == 12 || i == 16 || i == 20 {
            push_char(&mut s, '-');
        }
        let d = (id / divisor) % 16;
        push_char(&mut s, hex_char(d));
        proof {
            if i < 31 {
                assert(pow16(31 - i) == 16 * pow16(31 - i - 1));
                lemma_pow16_pos(31 - i - 1);
            }
        }
        assert(s@ =~= spec_uuid_text_prefix(id, i + 1));
        if i < 31 {
            divisor = divisor / 16;
        }
        i = i + 1;
    }
    s
}

proof fn lemma_pow16_pos(n: int)
    ensures
        pow16(n) >= 1,
    decreases n,
{
    if n > 0 {
        lemma_pow16_pos(n - 1);
    }
}

/// The text of the first `n` hex digits of `id`, with the hyphens before
/// them.
pub open spec fn spec_uuid_text_prefix(id: u128, n: int) -> Seq<char>
    decreases n,
{
    if n <= 0 {
        Seq::empty()
    } else {
        let before = spec_uuid_text_prefix(id, n - 1);
        let d = n - 1;
        let sep = if d == 8 || d == 12 || d == 16 || d == 20 {
            seq!['-']
        } else {
            Seq::empty()
        };
        before + sep + seq![hex_digit(nibble(id, d))]
    }
}

proof fn lemma_pow16_31()
    ensures
        pow16(31) == 0x1000_0000_0000_0000_0000_0000_0000_0000,
{
    reveal_with_fuel(pow16, 32);
}

/// What the API is asked about a player who logs in.
#[derive(Clone, Debug)]
pub struct JoinRequest {
    pub name: String,
    pub uuid: String,
    pub peer_addr: Option<String>,
    pub server_address: String,
    pub entry_node_key: String,
    pub online_count: i32,
}

/// The uuid a player joins with: the profile id the client sent, else the
/// offline uuid of the name.
pub open spec fn spec_join_uuid(name: Seq<char>, profile_id: Option<u128>) -> u128 {
    match profile_id {
        Some(p) => p,
        None => uuid_v3_dns(spec_offline_name(name)),
    }
}

/// The first step of a login: the player named by the login start packet
/// `login_start`, and what the API is asked about them (the entry node key
/// `"default"` where none is configured). Refused with the decoder's error
/// where the packet is no login hello.
pub fn login_join_request(
    login_start: &FramedPacket,
    server_address: &str,
    peer_addr: Option<&str>,
    entry_node_key: Option<&str>,
    online_count: i32,
) -> (res: Result<JoinRequest, ProtocolError>)
    ensures
        match spec_login_hello(
            login_start.id,
            login_start.body@,
            protocol_login_hello(login_start.id, login_start.body@),
        ) {
            Err(text) => res matches Err(ProtocolError::Decode(t)) && t@ == text,
            Ok((name, profile_id)) => res matches Ok(r) && {
                &&& r.name@ == name
                &&& r.uuid@ == spec_uuid_text(spec_join_uuid(name, profile_id))
                &&& match peer_addr {
                    Some(a) => r.peer_addr matches Some(p) && p@ == a@,
                    None => r.peer_addr is None,
                }
                &&& r.server_address@ == server_address@
                &&& r.entry_node_key@ == match entry_node_key {
                    Some(k) => k@,
                    None => DEFAULT_ENTRY_NODE_KEY@,
                }
                &&& r.online_count == online_count
            },
        },
{
    let hello = decode_login_hello(login_start)?;
    let id = player_uuid(&hello);
    let peer = match peer_addr {
        Some(a) => Some(a.to_string()),
        None => None,
    };
    let key = match entry_node_key {
        Some(k) => k.to_string(),
        None => DEFAULT_ENTRY_NODE_KEY.to_string(),
    };
    Ok(
        JoinRequest {
            name: hello.username,
            uuid: uuid_text(id),
            peer_addr: peer,
            server_address: server_address.to_string(),
            entry_node_key: key,
            online_count,
        },
    )
}

/// Where an allowed player is sent, and as whom.
#[derive(Clone, Debug)]
pub struct LoginRoute {
    pub target_addr: String,
    pub rewrite_addr: Option<String>,
    pub connection_id: Option<String>,
    pub player_name: String,
    pub player_uuid: String,
}

/// How a login ends: sent on, or kicked with a reason.
#[derive(Clone, Debug)]
pub enum LoginOutcome {
    Allow(LoginRoute),
    Deny { kick_reason: String },
}

/// The second step of a login: what the API's `decision` on `request`
/// means for the player.
pub fn login_outcome(request: JoinRequest, decision: JoinDecision) -> (outcome: LoginOutcome)
    ensures
        match decision {
            JoinDecision::Allow(t) => outcome matches LoginOutcome::Allow(r) && {
                &&& r.target_addr == t.target_addr
                &&& r.rewrite_addr == t.rewrite_addr
                &&& r.connection_id == t.connection_id
                &&& r.player_name == request.name
                &&& r.player_uuid == request.uuid
            },
            JoinDecision::Deny { kick_reason } => outcome matches LoginOutcome::Deny { kick_reason: k }
                && k == kick_reason,
        },
{
    match decision {
        JoinDecision::Allow(JoinTarget { target_addr, rewrite_addr, connection_id }) => {
            LoginOutcome::Allow(
                LoginRoute {
                    target_addr,
                    rewrite_addr,
                    connection_id,
                    player_name: request.name,
                    player_uuid: request.uuid,
                },
            )
        },
        JoinDecision::Deny { kick_reason } => LoginOutcome::Deny { kick_reason },
    }
}

} // verus!
