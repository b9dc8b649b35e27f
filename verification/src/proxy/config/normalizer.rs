//! Turns the configuration file into the runtime configuration: defaults
//! fill what the file leaves out, and addresses get an explicit port.
use vstd::prelude::*;
use vstd::string::*;

use super::default::{
    DEFAULT_API_TARGET_ADDR, DEFAULT_API_TIMEOUT_MS, DEFAULT_API_TRAFFIC_INTERVAL_MS,
    DEFAULT_CONNECTION_ID_PREFIX, DEFAULT_FIRST_PACKET_TIMEOUT_MS, DEFAULT_KEEPALIVE_SECS,
    DEFAULT_LISTEN_ADDR, DEFAULT_LOCAL_MOTD_JSON, DEFAULT_MOTD_STATUS_CACHE_TTL_MS,
    DEFAULT_MOTD_UPSTREAM_PING_TIMEOUT_MS,
};
use super::schema_types::{
    ApiModeLiteral, ConfigFile, LogFormatLiteral, LogLevelLiteral, MotdFaviconModeLiteral,
    MotdModeLiteral, MotdProtocolLiteral, MotdProtocolNamedLiteral, RelayModeLiteral,
    StatusPingModeLiteral,
};
use super::types::{
    ApiConfig, ApiMode, Config, ConfigError, InboundConfig, LogFormat, LogLevel, LoggingConfig,
    MockApiConfig, MotdConfig, MotdFaviconConfig, MotdFaviconMode, MotdMode, MotdPingConfig,
    MotdProtocolMode, RelayConfig, RelayDataMode, RuntimeConfig, SocketOptions, StatusPingMode,
    TransportConfig,
};
use crate::text::{find_char, first_index_of, push_char, push_decimal, spec_decimal};

verus! {

/// What `http::uri::Authority` makes of `text`: its host and its port, or
/// `None` where it is no authority.
pub uninterp spec fn authority_host_port(text: Seq<char>) -> Option<(Seq<char>, Option<u16>)>;

/// Parses `text` as an `http::uri::Authority` and gives its `host()` and
/// `port_u16()`; the result is named `authority_host_port`.
#[verifier::external_body]
fn parse_authority(text: &str) -> (res: Option<(String, Option<u16>)>)
    ensures
        match authority_host_port(text@) {
            Some((host, port)) => res matches Some((h, p)) && h@ == host && p == port,
            None => res is None,
        },
{
    let authority = text.parse::<http::uri::Authority>().ok()?;
    Some((authority.host().to_owned(), authority.port_u16()))
}

/// `host:port`, with an IPv6 host put in brackets when it is not already.
pub open spec fn spec_join_host_port(host: Seq<char>, port: u16) -> Seq<char> {
    if first_index_of(host, ':', 0) is Some && !(host.len() > 0 && host[0] == '[') {
        seq!['['] + host + seq![']', ':'] + spec_decimal(port as nat)
    } else {
        host + seq![':'] + spec_decimal(port as nat)
    }
}

/// An address with its port made explicit, or `None` when it is no
/// authority.
pub open spec fn spec_normalize_addr(text: Seq<char>, default_port: u16) -> Option<Seq<char>> {
    match authority_host_port(text) {
        None => None,
        Some((host, port)) => Some(
            spec_join_host_port(
                host,
                match port {
                    Some(p) => p,
                    None => default_port,
                },
            ),
        ),
    }
}

/// Gives `target_addr` an explicit port, `default_port` when it has none.
pub fn normalize_addr(target_addr: &str, default_port: u16) -> (res: Result<String, ConfigError>)
    ensures
        match spec_normalize_addr(target_addr@, default_port) {
            Some(a) => res matches Ok(r) && r@ == a,
            None => res == Err::<String, ConfigError>(ConfigError::InvalidAddress),
        },
{
    let (host, port) = match parse_authority(target_addr) {
        Some(parts) => parts,
        None => return Err(ConfigError::InvalidAddress),
    };
    let port = match port {
        Some(p) => p,
        None => default_port,
    };
    let bracketed = host.as_str().unicode_len() > 0 && host.as_str().get_char(0) == '[';
    let mut out = String::new();
    if find_char(host.as_str(), ':').is_some() && !bracketed {
        push_char(&mut out, '[');
        out.append(host.as_str());
        push_char(&mut out, ']');
    } else {
        out.append(host.as_str());
    }
    push_char(&mut out, ':');
    push_decimal(&mut out, port as u64);
    assert(out@ =~= spec_join_host_port(host@, port));
    Ok(out)
}

/// `s` without the `c` characters that end it.
pub open spec fn spec_trim_end(s: Seq<char>, c: char) -> Seq<char>
    decreases s.len(),
{
    if s.len() > 0 && s.last() == c {
        spec_trim_end(s.drop_last(), c)
    } else {
        s
    }
}

/// `str::trim_end_matches` with one character.
pub fn trim_end_char(s: &str, c: char) -> (r: String)
    ensures
        r@ == spec_trim_end(s@, c),
{
    let mut end = s.unicode_len();
    assert(s@.subrange(0, end as int) =~= s@);
    while end > 0 && s.get_char(end - 1) == c
        invariant
            end <= s@.len(),
            spec_trim_end(s@, c) == spec_trim_end(s@.subrange(0, end as int), c),
        decreases end,
    {
        assert(s@.subrange(0, end as int).drop_last() =~= s@.subrange(0, end - 1));
        end = end - 1;
    }
    String::from_str(s.substring_char(0, end))
}

/// The text of `std::path::Path::parent` of `path`, where it has a parent.
pub uninterp spec fn path_parent_text(path: Seq<char>) -> Option<Seq<char>>;

/// The text of `std::path::Path::join` of `base` and `relative`.
pub uninterp spec fn path_join_text(base: Seq<char>, relative: Seq<char>) -> Seq<char>;

/// `Path::parent` of `path`, as text; the result is named
/// `path_parent_text`.
#[verifier::external_body]
fn path_parent(path: &str) -> (res: Option<String>)
    ensures
        match path_parent_text(path@) {
            Some(p) => res matches Some(r) && r@ == p,
            None => res is None,
        },
{
    std::path::Path::new(path).parent().map(|p| p.to_string_lossy().into_owned())
}

/// `Path::join` of `base` and `relative`, as text; the result is named
/// `path_join_text`.
#[verifier::external_body]
fn path_join(base: &str, relative: &str) -> (res: String)
    ensures
        res@ == path_join_text(base@, relative@),
{
    std::path::Path::new(base).join(relative).to_string_lossy().into_owned()
}

/// `value` taken relative to the directory of the configuration file at
/// `source_path`: its parent, else the current directory.
pub open spec fn spec_resolve_relative(source_path: Seq<char>, value: Seq<char>) -> Seq<char> {
    path_join_text(
        match path_parent_text(source_path) {
            Some(d) => d,
            None => "."@,
        },
        value,
    )
}

/// A path of the configuration file, taken relative to the file's directory.
fn resolve_relative(source_path: &str, value: &str) -> (res: String)
    ensures
        res@ == spec_resolve_relative(source_path@, value@),
{
    let dir = match path_parent(source_path) {
        Some(d) => d,
        None => String::from_str("."),
    };
    path_join(dir.as_str(), value)
}

fn normalize_opt_addr(value: &Option<String>) -> (res: Result<Option<String>, ConfigError>)
    ensures
        spec_opt_addr_ok(*value) <==> res is Ok,
        res matches Ok(out) ==> spec_opt_addr_normalized(out, *value),
        res is Err ==> res == Err::<Option<String>, ConfigError>(ConfigError::InvalidAddress),
{
    match value {
        Some(v) => match normalize_addr(v.as_str(), 25565) {
            Ok(a) => Ok(Some(a)),
            Err(e) => Err(e),
        },
        None => Ok(None),
    }
}

/// `value`, or `default` when it is left out.
pub open spec fn spec_text_or(value: Option<String>, default: Seq<char>) -> Seq<char> {
    match value {
        Some(v) => v@,
        None => default,
    }
}

pub open spec fn spec_u64_or(value: Option<u64>, default: u64) -> u64 {
    match value {
        Some(v) => v,
        None => default,
    }
}

/// An optional address is either left out or a valid authority.
pub open spec fn spec_opt_addr_ok(value: Option<String>) -> bool {
    match value {
        Some(v) => spec_normalize_addr(v@, 25565) is Some,
        None => true,
    }
}

/// `out` is the optional address `value`, normalized.
pub open spec fn spec_opt_addr_normalized(out: Option<String>, value: Option<String>) -> bool {
    match value {
        Some(v) => out matches Some(o) && spec_normalize_addr(v@, 25565) == Some(o@),
        None => out is None,
    }
}

/// The file's addresses are all valid authorities.
pub open spec fn spec_addresses_ok(raw: ConfigFile) -> bool {
    &&& spec_normalize_addr(spec_text_or(raw.api.mock.target_addr, DEFAULT_API_TARGET_ADDR@), 25565)
        is Some
    &&& spec_normalize_addr(spec_text_or(raw.inbound.listen_addr, DEFAULT_LISTEN_ADDR@), 25565)
        is Some
    &&& spec_opt_addr_ok(raw.transport.motd.upstream_addr)
    &&& spec_opt_addr_ok(raw.transport.motd.ping.target_addr)
    &&& spec_opt_addr_ok(raw.transport.motd.favicon.target_addr)
    &&& spec_opt_addr_ok(raw.api.mock.rewrite_addr)
}

pub open spec fn spec_motd_mode(m: MotdModeLiteral) -> MotdMode {
    match m {
        MotdModeLiteral::Local => MotdMode::Local,
        MotdModeLiteral::Upstream => MotdMode::Upstream,
    }
}

pub open spec fn spec_protocol_mode(p: MotdProtocolLiteral) -> MotdProtocolMode {
    match p {
        MotdProtocolLiteral::Named(MotdProtocolNamedLiteral::Client) => MotdProtocolMode::Client,
        MotdProtocolLiteral::Named(MotdProtocolNamedLiteral::NegativeOne) => MotdProtocolMode::NegativeOne,
        MotdProtocolLiteral::Fixed(value) => MotdProtocolMode::Fixed(value),
    }
}

pub open spec fn spec_ping_mode(p: StatusPingModeLiteral) -> StatusPingMode {
    match p {
        StatusPingModeLiteral::Passthrough => StatusPingMode::Passthrough,
        StatusPingModeLiteral::ZeroMs => StatusPingMode::ZeroMs,
        StatusPingModeLiteral::UpstreamTcp => StatusPingMode::UpstreamTcp,
        StatusPingModeLiteral::Disconnect => StatusPingMode::Disconnect,
    }
}

pub open spec fn spec_favicon_mode(m: MotdFaviconModeLiteral) -> MotdFaviconMode {
    match m {
        MotdFaviconModeLiteral::Json => MotdFaviconMode::Json,
        MotdFaviconModeLiteral::Path => MotdFaviconMode::Path,
        MotdFaviconModeLiteral::Passthrough => MotdFaviconMode::Passthrough,
        MotdFaviconModeLiteral::Remove => MotdFaviconMode::Remove,
    }
}

pub open spec fn spec_relay_mode(m: RelayModeLiteral) -> RelayDataMode {
    match m {
        RelayModeLiteral::Async => RelayDataMode::Async,
        RelayModeLiteral::Splice => RelayDataMode::Splice,
    }
}

pub open spec fn spec_api_mode(m: ApiModeLiteral) -> ApiMode {
    match m {
        ApiModeLiteral::Http => ApiMode::Http,
        ApiModeLiteral::Mock => ApiMode::Mock,
    }
}

pub open spec fn spec_log_level(l: LogLevelLiteral) -> LogLevel {
    match l {
        LogLevelLiteral::Trace => LogLevel::Trace,
        LogLevelLiteral::Debug => LogLevel::Debug,
        LogLevelLiteral::Info => LogLevel::Info,
        LogLevelLiteral::Warn => LogLevel::Warn,
        LogLevelLiteral::Error => LogLevel::Error,
    }
}

pub open spec fn spec_log_format(f: LogFormatLiteral) -> LogFormat {
    match f {
        LogFormatLiteral::Pretty => LogFormat::Pretty,
        LogFormatLiteral::Compact => LogFormat::Compact,
        LogFormatLiteral::Json => LogFormat::Json,
    }
}

/// `c` is what `raw` normalizes to, its file at `source_path`.
pub open spec fn spec_normalized(c: Config, raw: ConfigFile, source_path: Seq<char>) -> bool {
    let motd = c.transport.motd;
    let raw_motd = raw.transport.motd;
    &&& spec_normalize_addr(spec_text_or(raw.inbound.listen_addr, DEFAULT_LISTEN_ADDR@), 25565)
        == Some(c.inbound.listen_addr@)
    &&& c.inbound.first_packet_timeout_ms == spec_u64_or(
        raw.inbound.first_packet_timeout_ms,
        DEFAULT_FIRST_PACKET_TIMEOUT_MS,
    )
    &&& c.inbound.socket_options.tcp_nodelay == raw.inbound.socket.tcp_nodelay
    &&& c.inbound.socket_options.keepalive_secs == spec_u64_or(
        raw.inbound.socket.keepalive_secs,
        DEFAULT_KEEPALIVE_SECS,
    )
    &&& c.inbound.socket_options.recv_buffer_size == raw.inbound.socket.recv_buffer_size
    &&& c.inbound.socket_options.send_buffer_size == raw.inbound.socket.send_buffer_size
    &&& c.inbound.socket_options.reuse_port == raw.inbound.socket.reuse_port
    &&& motd.mode == spec_motd_mode(raw_motd.mode)
    &&& motd.local_json@ == spec_text_or(raw_motd.json, DEFAULT_LOCAL_MOTD_JSON@)
    &&& spec_opt_addr_normalized(motd.upstream_addr, raw_motd.upstream_addr)
    &&& motd.protocol_mode == spec_protocol_mode(raw_motd.protocol)
    &&& motd.ping_mode == spec_ping_mode(raw_motd.ping_mode)
    &&& spec_opt_addr_normalized(motd.ping.target_addr, raw_motd.ping.target_addr)
    &&& motd.upstream_ping_timeout_ms == spec_u64_or(
        raw_motd.upstream_ping_timeout_ms,
        DEFAULT_MOTD_UPSTREAM_PING_TIMEOUT_MS,
    )
    &&& motd.status_cache_ttl_ms == spec_u64_or(
        raw_motd.status_cache_ttl_ms,
        DEFAULT_MOTD_STATUS_CACHE_TTL_MS,
    )
    &&& motd.favicon.mode == spec_favicon_mode(raw_motd.favicon.mode)
    &&& match raw_motd.favicon.path {
        Some(v) => motd.favicon.path matches Some(p) && p@ == spec_resolve_relative(
            source_path,
            v@,
        ),
        None => motd.favicon.path is None,
    }
    &&& spec_opt_addr_normalized(motd.favicon.target_addr, raw_motd.favicon.target_addr)
    &&& c.relay == (RelayConfig { mode: spec_relay_mode(raw.relay.mode), io_uring: raw.relay.io_uring })
    &&& c.api.mode == spec_api_mode(raw.api.mode)
    &&& match raw.api.base_url {
        Some(b) => c.api.base_url matches Some(o) && o@ == spec_trim_end(b@, '/'),
        None => c.api.base_url is None,
    }
    &&& c.api.bearer_token == raw.api.bearer_token
    &&& c.api.timeout_ms == spec_u64_or(raw.api.timeout_ms, DEFAULT_API_TIMEOUT_MS)
    &&& c.api.traffic_interval_ms == spec_u64_or(
        raw.api.traffic_interval_ms,
        DEFAULT_API_TRAFFIC_INTERVAL_MS,
    )
    &&& spec_normalize_addr(spec_text_or(raw.api.mock.target_addr, DEFAULT_API_TARGET_ADDR@), 25565)
        == Some(c.api.mock.target_addr@)
    &&& spec_opt_addr_normalized(c.api.mock.rewrite_addr, raw.api.mock.rewrite_addr)
    &&& c.api.mock.connection_id_prefix@ == spec_text_or(
        raw.api.mock.connection_id_prefix,
        DEFAULT_CONNECTION_ID_PREFIX@,
    )
    &&& c.api.mock.kick_reason == raw.api.mock.kick_reason
    &&& c.runtime.stats_log_interval_secs == raw.runtime.stats_log_interval_secs
    &&& c.runtime.logging.level == spec_log_level(raw.runtime.logging.level)
    &&& c.runtime.logging.format == spec_log_format(raw.runtime.logging.format)
    &&& c.runtime.logging.async_enabled == raw.runtime.logging.async_enabled
    &&& c.source_path@ == source_path
}

/// Every mode literal of the file normalizes to the runtime mode of the same
/// name: a status ping written `upstream_tcp` is answered by measuring the
/// upstream, never locally, and so on for each literal of each setting.
pub proof fn lemma_normalized_modes_match_literals(
    c: Config,
    raw: ConfigFile,
    source_path: Seq<char>,
)
    requires
        spec_normalized(c, raw, source_path),
    ensures
        raw.transport.motd.ping_mode == StatusPingModeLiteral::Passthrough
            ==> c.transport.motd.ping_mode == StatusPingMode::Passthrough,
        raw.transport.motd.ping_mode == StatusPingModeLiteral::ZeroMs
            ==> c.transport.motd.ping_mode == StatusPingMode::ZeroMs,
        raw.transport.motd.ping_mode == StatusPingModeLiteral::UpstreamTcp
            ==> c.transport.motd.ping_mode == StatusPingMode::UpstreamTcp,
        raw.transport.motd.ping_mode == StatusPingModeLiteral::Disconnect
            ==> c.transport.motd.ping_mode == StatusPingMode::Disconnect,
        raw.transport.motd.mode == MotdModeLiteral::Local
            ==> c.transport.motd.mode == MotdMode::Local,
        raw.transport.motd.mode == MotdModeLiteral::Upstream
            ==> c.transport.motd.mode == MotdMode::Upstream,
        raw.transport.motd.protocol == MotdProtocolLiteral::Named(MotdProtocolNamedLiteral::Client)
            ==> c.transport.motd.protocol_mode == MotdProtocolMode::Client,
        raw.transport.motd.protocol == MotdProtocolLiteral::Named(
            MotdProtocolNamedLiteral::NegativeOne,
        ) ==> c.transport.motd.protocol_mode == MotdProtocolMode::NegativeOne,
        forall|v: i32|
            raw.transport.motd.protocol == MotdProtocolLiteral::Fixed(v)
                ==> c.transport.motd.protocol_mode == MotdProtocolMode::Fixed(v),
        raw.transport.motd.favicon.mode == MotdFaviconModeLiteral::Json
            ==> c.transport.motd.favicon.mode == MotdFaviconMode::Json,
        raw.transport.motd.favicon.mode == MotdFaviconModeLiteral::Path
            ==> c.transport.motd.favicon.mode == MotdFaviconMode::Path,
        raw.transport.motd.favicon.mode == MotdFaviconModeLiteral::Passthrough
            ==> c.transport.motd.favicon.mode == MotdFaviconMode::Passthrough,
        raw.transport.motd.favicon.mode == MotdFaviconModeLiteral::Remove
            ==> c.transport.motd.favicon.mode == MotdFaviconMode::Remove,
        raw.relay.mode == RelayModeLiteral::Async ==> c.relay.mode == RelayDataMode::Async,
        raw.relay.mode == RelayModeLiteral::Splice ==> c.relay.mode == RelayDataMode::Splice,
        raw.api.mode == ApiModeLiteral::Http ==> c.api.mode == ApiMode::Http,
        raw.api.mode == ApiModeLiteral::Mock ==> c.api.mode == ApiMode::Mock,
        raw.runtime.logging.level == LogLevelLiteral::Trace
            ==> c.runtime.logging.level == LogLevel::Trace,
        raw.runtime.logging.level == LogLevelLiteral::Debug
            ==> c.runtime.logging.level == LogLevel::Debug,
        raw.runtime.logging.level == LogLevelLiteral::Info
            ==> c.runtime.logging.level == LogLevel::Info,
        raw.runtime.logging.level == LogLevelLiteral::Warn
            ==> c.runtime.logging.level == LogLevel::Warn,
        raw.runtime.logging.level == LogLevelLiteral::Error
            ==> c.runtime.logging.level == LogLevel::Error,
        raw.runtime.logging.format == LogFormatLiteral::Pretty
            ==> c.runtime.logging.format == LogFormat::Pretty,
        raw.runtime.logging.format == LogFormatLiteral::Compact
            ==> c.runtime.logging.format == LogFormat::Compact,
        raw.runtime.logging.format == LogFormatLiteral::Json
            ==> c.runtime.logging.format == LogFormat::Json,
{
}

/// Two files that differ in a mode literal normalize to different runtime
/// modes: no two literals of a setting collapse into one behaviour.
pub proof fn lemma_normalized_modes_distinct()
    ensures
        forall|a: StatusPingModeLiteral, b: StatusPingModeLiteral|
            #[trigger] spec_ping_mode(a) == #[trigger] spec_ping_mode(b) ==> a == b,
        forall|a: MotdModeLiteral, b: MotdModeLiteral|
            #[trigger] spec_motd_mode(a) == #[trigger] spec_motd_mode(b) ==> a == b,
        forall|a: MotdProtocolLiteral, b: MotdProtocolLiteral|
            #[trigger] spec_protocol_mode(a) == #[trigger] spec_protocol_mode(b) ==> a == b,
        forall|a: MotdFaviconModeLiteral, b: MotdFaviconModeLiteral|
            #[trigger] spec_favicon_mode(a) == #[trigger] spec_favicon_mode(b) ==> a == b,
        forall|a: RelayModeLiteral, b: RelayModeLiteral|
            #[trigger] spec_relay_mode(a) == #[trigger] spec_relay_mode(b) ==> a == b,
        forall|a: ApiModeLiteral, b: ApiModeLiteral|
            #[trigger] spec_api_mode(a) == #[trigger] spec_api_mode(b) ==> a == b,
        forall|a: LogLevelLiteral, b: LogLevelLiteral|
            #[trigger] spec_log_level(a) == #[trigger] spec_log_level(b) ==> a == b,
        forall|a: LogFormatLiteral, b: LogFormatLiteral|
            #[trigger] spec_log_format(a) == #[trigger] spec_log_format(b) ==> a == b,
{
}

fn text_or(value: Option<String>, default: &str) -> (s: String)
    ensures
        s@ == spec_text_or(value, default@),
{
    match value {
        Some(v) => v,
        None => String::from_str(default),
    }
}

fn u64_or(value: Option<u64>, default: u64) -> (v: u64)
    ensures
        v == spec_u64_or(value, default),
{
    match value {
        Some(v) => v,
        None => default,
    }
}

/// Builds runtime configurations from configuration files.
pub struct ConfigNormalizer;

impl ConfigNormalizer {
    pub fn new() -> (n: Self) {
        ConfigNormalizer
    }

    /// The runtime configuration of the file `raw` read from `source_path`;
    /// refused exactly when one of its addresses is no valid authority.
    #[verifier::rlimit(30)]
    pub fn normalize(&self, raw: ConfigFile, source_path: String) -> (res: Result<
        Config,
        ConfigError,
    >)
        ensures
            res is Ok <==> spec_addresses_ok(raw),
            res is Err ==> res == Err::<Config, ConfigError>(ConfigError::InvalidAddress),
            res matches Ok(c) ==> spec_normalized(c, raw, source_path@),
    {
        let ghost raw0 = raw;
        let mock_target_addr = normalize_addr(
            text_or(raw.api.mock.target_addr, DEFAULT_API_TARGET_ADDR).as_str(),
            25565,
        )?;
        let listen_addr = normalize_addr(
            text_or(raw.inbound.listen_addr, DEFAULT_LISTEN_ADDR).as_str(),
            25565,
        )?;
        let upstream_addr = normalize_opt_addr(&raw.transport.motd.upstream_addr)?;
        let ping_target_addr = normalize_opt_addr(&raw.transport.motd.ping.target_addr)?;
        let favicon_target_addr = normalize_opt_addr(&raw.transport.motd.favicon.target_addr)?;
        let mock_rewrite_addr = normalize_opt_addr(&raw.api.mock.rewrite_addr)?;
        let raw_motd = raw.transport.motd;
        let favicon_path = match raw_motd.favicon.path {
            Some(value) => Some(resolve_relative(source_path.as_str(), value.as_str())),
            None => None,
        };
        let base_url = match raw.api.base_url {
            Some(value) => Some(trim_end_char(value.as_str(), '/')),
            None => None,
        };
        Ok(Config {
            inbound: InboundConfig {
                listen_addr,
                first_packet_timeout_ms: u64_or(
                    raw.inbound.first_packet_timeout_ms,
                    DEFAULT_FIRST_PACKET_TIMEOUT_MS,
                ),
                socket_options: SocketOptions {
                    tcp_nodelay: raw.inbound.socket.tcp_nodelay,
                    keepalive_secs: u64_or(raw.inbound.socket.keepalive_secs, DEFAULT_KEEPALIVE_SECS),
                    recv_buffer_size: raw.inbound.socket.recv_buffer_size,
                    send_buffer_size: raw.inbound.socket.send_buffer_size,
                    reuse_port: raw.inbound.socket.reuse_port,
                },
            },
            transport: TransportConfig {
                motd: MotdConfig {
                    mode: match raw_motd.mode {
                        MotdModeLiteral::Local => MotdMode::Local,
                        MotdModeLiteral::Upstream => MotdMode::Upstream,
                    },
                    local_json: text_or(raw_motd.json, DEFAULT_LOCAL_MOTD_JSON),
                    upstream_addr,
                    protocol_mode: match raw_motd.protocol {
                        MotdProtocolLiteral::Named(MotdProtocolNamedLiteral::Client) => {
                            MotdProtocolMode::Client
                        },
                        MotdProtocolLiteral::Named(MotdProtocolNamedLiteral::NegativeOne) => {
                            MotdProtocolMode::NegativeOne
                        },
                        MotdProtocolLiteral::Fixed(value) => MotdProtocolMode::Fixed(value),
                    },
                    ping_mode: match raw_motd.ping_mode {
                        StatusPingModeLiteral::Passthrough => StatusPingMode::Passthrough,
                        StatusPingModeLiteral::ZeroMs => StatusPingMode::ZeroMs,
                        StatusPingModeLiteral::UpstreamTcp => StatusPingMode::UpstreamTcp,
                        StatusPingModeLiteral::Disconnect => StatusPingMode::Disconnect,
                    },
                    ping: MotdPingConfig { target_addr: ping_target_addr },
                    upstream_ping_timeout_ms: u64_or(
                        raw_motd.upstream_ping_timeout_ms,
                        DEFAULT_MOTD_UPSTREAM_PING_TIMEOUT_MS,
                    ),
                    status_cache_ttl_ms: u64_or(
                        raw_motd.status_cache_ttl_ms,
                        DEFAULT_MOTD_STATUS_CACHE_TTL_MS,
                    ),
                    favicon: MotdFaviconConfig {
                        mode: match raw_motd.favicon.mode {
                            MotdFaviconModeLiteral::Json => MotdFaviconMode::Json,
                            MotdFaviconModeLiteral::Path => MotdFaviconMode::Path,
                            MotdFaviconModeLiteral::Passthrough => MotdFaviconMode::Passthrough,
                            MotdFaviconModeLiteral::Remove => MotdFaviconMode::Remove,
                        },
                        path: favicon_path,
                        target_addr: favicon_target_addr,
                    },
                },
            },
            relay: RelayConfig {
                mode: match raw.relay.mode {
                    RelayModeLiteral::Async => RelayDataMode::Async,
                    RelayModeLiteral::Splice => RelayDataMode::Splice,
                },
                io_uring: raw.relay.io_uring,
            },
            api: ApiConfig {
                mode: match raw.api.mode {
                    ApiModeLiteral::Http => ApiMode::Http,
                    ApiModeLiteral::Mock => ApiMode::Mock,
                },
                base_url,
                bearer_token: raw.api.bearer_token,
                timeout_ms: u64_or(raw.api.timeout_ms, DEFAULT_API_TIMEOUT_MS),
                traffic_interval_ms: u64_or(
                    raw.api.traffic_interval_ms,
                    DEFAULT_API_TRAFFIC_INTERVAL_MS,
                ),
                mock: MockApiConfig {
                    target_addr: mock_target_addr,
                    rewrite_addr: mock_rewrite_addr,
                    connection_id_prefix: text_or(
                        raw.api.mock.connection_id_prefix,
                        DEFAULT_CONNECTION_ID_PREFIX,
                    ),
                    kick_reason: raw.api.mock.kick_reason,
                },
            },
            runtime: RuntimeConfig {
                stats_log_interval_secs: raw.runtime.stats_log_interval_secs,
                logging: LoggingConfig {
                    level: match raw.runtime.logging.level {
                        LogLevelLiteral::Trace => LogLevel::Trace,
                        LogLevelLiteral::Debug => LogLevel::Debug,
                        LogLevelLiteral::Info => LogLevel::Info,
                        LogLevelLiteral::Warn => LogLevel::Warn,
                        LogLevelLiteral::Error => LogLevel::Error,
                    },
                    format: match raw.runtime.logging.format {
                        LogFormatLiteral::Pretty => LogFormat::Pretty,
                        LogFormatLiteral::Compact => LogFormat::Compact,
                        LogFormatLiteral::Json => LogFormat::Json,
                    },
                    async_enabled: raw.runtime.logging.async_enabled,
                },
            },
            source_path,
        })
    }
}

} // verus!
