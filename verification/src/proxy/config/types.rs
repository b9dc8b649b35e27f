//! The runtime configuration, after defaults are applied and addresses
//! normalized. Durations are held in milliseconds or seconds, as named.
use vstd::prelude::*;
use vstd::string::*;

use super::default::{
    DEFAULT_API_TARGET_ADDR, DEFAULT_API_TIMEOUT_MS, DEFAULT_API_TRAFFIC_INTERVAL_MS,
    DEFAULT_CONNECTION_ID_PREFIX, DEFAULT_FIRST_PACKET_TIMEOUT_MS, DEFAULT_KEEPALIVE_SECS,
    DEFAULT_LISTEN_ADDR, DEFAULT_LOCAL_MOTD_JSON, DEFAULT_MOTD_STATUS_CACHE_TTL_MS,
    DEFAULT_MOTD_UPSTREAM_ADDR, DEFAULT_MOTD_UPSTREAM_PING_TIMEOUT_MS,
    DEFAULT_STATS_LOG_INTERVAL_SECS,
};
use super::literals::CONFIG_SCHEMA_DIRECTIVE;
use crate::text::{push_signed_decimal, spec_signed_decimal};

verus! {

#[derive(Clone, Debug)]
pub struct Config {
    pub inbound: InboundConfig,
    pub transport: TransportConfig,
    pub relay: RelayConfig,
    pub api: ApiConfig,
    pub runtime: RuntimeConfig,
    pub source_path: String,
}

#[derive(Clone, Debug)]
pub struct InboundConfig {
    pub listen_addr: String,
    pub first_packet_timeout_ms: u64,
    pub socket_options: SocketOptions,
}

#[derive(Clone, Debug)]
pub struct TransportConfig {
    pub motd: MotdConfig,
}

/// How relayed bytes are moved, and whether io_uring is asked for.
#[derive(Clone, Copy, Debug, PartialEq, Eq, Structural)]
pub struct RelayConfig {
    pub mode: RelayDataMode,
    pub io_uring: bool,
}

#[derive(Clone, Copy, Debug, PartialEq, Eq, Structural)]
pub enum RelayDataMode {
    Async,
    Splice,
}

#[derive(Clone, Debug)]
pub struct ApiConfig {
    pub mode: ApiMode,
    pub base_url: Option<String>,
    pub bearer_token: Option<String>,
    pub timeout_ms: u64,
    pub traffic_interval_ms: u64,
    pub mock: MockApiConfig,
}

#[derive(Clone, Debug)]
pub struct MockApiConfig {
    pub target_addr: String,
    pub rewrite_addr: Option<String>,
    pub connection_id_prefix: String,
    pub kick_reason: Option<String>,
}

#[derive(Clone, Copy, Debug, PartialEq, Eq, Structural)]
pub enum ApiMode {
    Http,
    Mock,
}

#[derive(Clone, Copy, Debug, PartialEq, Eq, Structural)]
pub enum RelayMode {
    Standard,
    LinuxSplice,
}

#[derive(Clone, Debug)]
pub struct MotdConfig {
    pub mode: MotdMode,
    pub local_json: String,
    pub upstream_addr: Option<String>,
    pub protocol_mode: MotdProtocolMode,
    pub ping_mode: StatusPingMode,
    pub ping: MotdPingConfig,
    pub upstream_ping_timeout_ms: u64,
    pub status_cache_ttl_ms: u64,
    pub favicon: MotdFaviconConfig,
}

#[derive(Clone, Debug)]
pub struct MotdPingConfig {
    pub target_addr: Option<String>,
}

#[derive(Clone, Copy, Debug, PartialEq, Eq, Structural)]
pub enum MotdMode {
    Local,
    Upstream,
}

#[derive(Clone, Copy, Debug, PartialEq, Eq, Structural)]
pub enum MotdProtocolMode {
    Client,
    NegativeOne,
    Fixed(i32),
}

#[derive(Clone, Copy, Debug, PartialEq, Eq, Structural)]
pub enum StatusPingMode {
    Passthrough,
    ZeroMs,
    UpstreamTcp,
    Disconnect,
}

#[derive(Clone, Debug)]
pub struct MotdFaviconConfig {
    pub mode: MotdFaviconMode,
    pub path: Option<String>,
    pub target_addr: Option<String>,
}

#[derive(Clone, Copy, Debug, PartialEq, Eq, Structural)]
pub enum MotdFaviconMode {
    Json,
    Path,
    Passthrough,
    Remove,
}

#[derive(Clone, Debug)]
pub struct SocketOptions {
    pub tcp_nodelay: bool,
    pub keepalive_secs: u64,
    pub recv_buffer_size: Option<usize>,
    pub send_buffer_size: Option<usize>,
    pub reuse_port: bool,
}

#[derive(Clone, Debug)]
pub struct RuntimeConfig {
    pub stats_log_interval_secs: Option<u64>,
    pub logging: LoggingConfig,
}

#[derive(Clone, Debug)]
pub struct LoggingConfig {
    pub level: LogLevel,
    pub format: LogFormat,
    pub async_enabled: bool,
}

#[derive(Clone, Copy, Debug, PartialEq, Eq, Structural)]
pub enum LogLevel {
    Trace,
    Debug,
    Info,
    Warn,
    Error,
}

#[derive(Clone, Copy, Debug, PartialEq, Eq, Structural)]
pub enum LogFormat {
    Pretty,
    Compact,
    Json,
}

/// Why a configuration was refused.
#[derive(Clone, Copy, Debug, PartialEq, Eq, Structural)]
pub enum ConfigError {
    HttpRequiresBaseUrl,
    MockForbidsBaseUrl,
    UpstreamMotdRequiresAddr,
    PassthroughPingRequiresTarget,
    PathFaviconRequiresPath,
    PassthroughFaviconRequiresTarget,
    MockRequiresConnectionIdPrefix,
    InvalidAddress,
}

/// The message of a configuration error.
pub open spec fn spec_config_error_message(e: ConfigError) -> Seq<char> {
    match e {
        ConfigError::HttpRequiresBaseUrl => CONFIG_SCHEMA_DIRECTIVE@
            + "\napi.mode=http requires api.base_url"@,
        ConfigError::MockForbidsBaseUrl => CONFIG_SCHEMA_DIRECTIVE@
            + "\napi.mode=mock does not use api.base_url"@,
        ConfigError::UpstreamMotdRequiresAddr => CONFIG_SCHEMA_DIRECTIVE@
            + "\ntransport.motd.mode=upstream requires transport.motd.upstream_addr"@,
        ConfigError::PassthroughPingRequiresTarget => CONFIG_SCHEMA_DIRECTIVE@
            + "\ntransport.motd.ping_mode=passthrough requires transport.motd.ping.target_addr or transport.motd.upstream_addr"@,
        ConfigError::PathFaviconRequiresPath => CONFIG_SCHEMA_DIRECTIVE@
            + "\ntransport.motd.favicon.mode=path requires transport.motd.favicon.path"@,
        ConfigError::PassthroughFaviconRequiresTarget => CONFIG_SCHEMA_DIRECTIVE@
            + "\ntransport.motd.favicon.mode=passthrough requires transport.motd.favicon.target_addr or transport.motd.upstream_addr"@,
        ConfigError::MockRequiresConnectionIdPrefix => CONFIG_SCHEMA_DIRECTIVE@
            + "\napi.mode=mock requires a non-empty api.mock.connection_id_prefix"@,
        ConfigError::InvalidAddress => "invalid address"@,
    }
}

fn directive_line(rest: &str) -> (s: String)
    ensures
        s@ == CONFIG_SCHEMA_DIRECTIVE@ + rest@,
{
    let mut s = String::from_str(CONFIG_SCHEMA_DIRECTIVE);
    s.append(rest);
    s
}

impl ConfigError {
    /// The error's message.
    pub fn message(&self) -> (s: String)
        ensures
            s@ == spec_config_error_message(*self),
    {
        match self {
            ConfigError::HttpRequiresBaseUrl => directive_line(
                "\napi.mode=http requires api.base_url",
            ),
            ConfigError::MockForbidsBaseUrl => directive_line(
                "\napi.mode=mock does not use api.base_url",
            ),
            ConfigError::UpstreamMotdRequiresAddr => directive_line(
                "\ntransport.motd.mode=upstream requires transport.motd.upstream_addr",
            ),
            ConfigError::PassthroughPingRequiresTarget => directive_line(
                "\ntransport.motd.ping_mode=passthrough requires transport.motd.ping.target_addr or transport.motd.upstream_addr",
            ),
            ConfigError::PathFaviconRequiresPath => directive_line(
                "\ntransport.motd.favicon.mode=path requires transport.motd.favicon.path",
            ),
            ConfigError::PassthroughFaviconRequiresTarget => directive_line(
                "\ntransport.motd.favicon.mode=passthrough requires transport.motd.favicon.target_addr or transport.motd.upstream_addr",
            ),
            ConfigError::MockRequiresConnectionIdPrefix => directive_line(
                "\napi.mode=mock requires a non-empty api.mock.connection_id_prefix",
            ),
            ConfigError::InvalidAddress => String::from_str("invalid address"),
        }
    }
}

impl RelayConfig {
    /// The relay's name in logs: the mode, with `+io_uring` when asked for.
    pub fn label(&self) -> (s: &'static str)
        ensures
            s@ == (match (self.mode, self.io_uring) {
                (RelayDataMode::Async, false) => "async"@,
                (RelayDataMode::Async, true) => "async+io_uring"@,
                (RelayDataMode::Splice, false) => "splice"@,
                (RelayDataMode::Splice, true) => "splice+io_uring"@,
            }),
    {
        match (self.mode, self.io_uring) {
            (RelayDataMode::Async, false) => "async",
            (RelayDataMode::Async, true) => "async+io_uring",
            (RelayDataMode::Splice, false) => "splice",
            (RelayDataMode::Splice, true) => "splice+io_uring",
        }
    }
}

impl MotdProtocolMode {
    /// The text that a `{protocol}`-style placeholder shows for this mode.
    pub fn as_placeholder_value(self) -> (s: String)
        ensures
            s@ == (match self {
                MotdProtocolMode::Client => "client"@,
                MotdProtocolMode::NegativeOne => "-1"@,
                MotdProtocolMode::Fixed(value) => spec_signed_decimal(value as int),
            }),
    {
        match self {
            MotdProtocolMode::Client => String::from_str("client"),
            MotdProtocolMode::NegativeOne => String::from_str("-1"),
            MotdProtocolMode::Fixed(value) => {
                let mut s = String::new();
                push_signed_decimal(&mut s, value as i64);
                assert(s@ =~= spec_signed_decimal(value as int));
                s
            },
        }
    }
}

impl StatusPingMode {
    pub fn as_placeholder_value(self) -> (s: &'static str)
        ensures
            s@ == (match self {
                StatusPingMode::Passthrough => "passthrough"@,
                StatusPingMode::ZeroMs => "0ms"@,
                StatusPingMode::UpstreamTcp => "upstream_tcp"@,
                StatusPingMode::Disconnect => "disconnect"@,
            }),
    {
        match self {
            StatusPingMode::Passthrough => "passthrough",
            StatusPingMode::ZeroMs => "0ms",
            StatusPingMode::UpstreamTcp => "upstream_tcp",
            StatusPingMode::Disconnect => "disconnect",
        }
    }
}

impl MotdFaviconMode {
    pub fn as_placeholder_value(self) -> (s: &'static str)
        ensures
            s@ == (match self {
                MotdFaviconMode::Json => "json"@,
                MotdFaviconMode::Path => "path"@,
                MotdFaviconMode::Passthrough => "passthrough"@,
                MotdFaviconMode::Remove => "remove"@,
            }),
    {
        match self {
            MotdFaviconMode::Json => "json",
            MotdFaviconMode::Path => "path",
            MotdFaviconMode::Passthrough => "passthrough",
            MotdFaviconMode::Remove => "remove",
        }
    }
}

impl RelayMode {
    pub fn as_placeholder_value(self) -> (s: &'static str)
        ensures
            s@ == (match self {
                RelayMode::Standard => "standard"@,
                RelayMode::LinuxSplice => "linux_splice"@,
            }),
    {
        match self {
            RelayMode::Standard => "standard",
            RelayMode::LinuxSplice => "linux_splice",
        }
    }
}

impl MotdMode {
    pub fn as_placeholder_value(self) -> (s: &'static str)
        ensures
            s@ == (match self {
                MotdMode::Local => "local"@,
                MotdMode::Upstream => "upstream"@,
            }),
    {
        match self {
            MotdMode::Local => "local",
            MotdMode::Upstream => "upstream",
        }
    }
}

impl LogLevel {
    /// The level as a tracing filter directive.
    pub fn as_filter_directive(self) -> (s: &'static str)
        ensures
            s@ == (match self {
                LogLevel::Trace => "trace"@,
                LogLevel::Debug => "debug"@,
                LogLevel::Info => "info"@,
                LogLevel::Warn => "warn"@,
                LogLevel::Error => "error"@,
            }),
    {
        match self {
            LogLevel::Trace => "trace",
            LogLevel::Debug => "debug",
            LogLevel::Info => "info",
            LogLevel::Warn => "warn",
            LogLevel::Error => "error",
        }
    }
}

impl Default for SocketOptions {
    fn default() -> (s: Self)
        ensures
            s.tcp_nodelay,
            s.keepalive_secs == DEFAULT_KEEPALIVE_SECS,
            s.recv_buffer_size is None,
            s.send_buffer_size is None,
            !s.reuse_port,
    {
        SocketOptions {
            tcp_nodelay: true,
            keepalive_secs: DEFAULT_KEEPALIVE_SECS,
            recv_buffer_size: None,
            send_buffer_size: None,
            reuse_port: false,
        }
    }
}

impl Default for RelayConfig {
    fn default() -> (r: Self)
        ensures
            r == (RelayConfig { mode: RelayDataMode::Async, io_uring: false }),
    {
        RelayConfig { mode: RelayDataMode::Async, io_uring: false }
    }
}

impl Default for MockApiConfig {
    fn default() -> (m: Self)
        ensures
            m.target_addr@ == DEFAULT_API_TARGET_ADDR@,
            m.rewrite_addr is None,
            m.connection_id_prefix@ == DEFAULT_CONNECTION_ID_PREFIX@,
            m.kick_reason is None,
    {
        MockApiConfig {
            target_addr: String::from_str(DEFAULT_API_TARGET_ADDR),
            rewrite_addr: None,
            connection_id_prefix: String::from_str(DEFAULT_CONNECTION_ID_PREFIX),
            kick_reason: None,
        }
    }
}

impl Default for ApiConfig {
    fn default() -> (a: Self)
        ensures
            a.mode == ApiMode::Mock,
            a.base_url is None,
            a.bearer_token is None,
            a.timeout_ms == DEFAULT_API_TIMEOUT_MS,
            a.traffic_interval_ms == DEFAULT_API_TRAFFIC_INTERVAL_MS,
            a.mock.target_addr@ == DEFAULT_API_TARGET_ADDR@,
            a.mock.rewrite_addr is None,
            a.mock.connection_id_prefix@ == DEFAULT_CONNECTION_ID_PREFIX@,
            a.mock.kick_reason is None,
    {
        ApiConfig {
            mode: ApiMode::Mock,
            base_url: None,
            bearer_token: None,
            timeout_ms: DEFAULT_API_TIMEOUT_MS,
            traffic_interval_ms: DEFAULT_API_TRAFFIC_INTERVAL_MS,
            mock: MockApiConfig::default(),
        }
    }
}

impl Default for LoggingConfig {
    fn default() -> (l: Self)
        ensures
            l.level == LogLevel::Info,
            l.format == LogFormat::Pretty,
            !l.async_enabled,
    {
        LoggingConfig { level: LogLevel::Info, format: LogFormat::Pretty, async_enabled: false }
    }
}

impl Default for RuntimeConfig {
    fn default() -> (r: Self)
        ensures
            r.stats_log_interval_secs == Some(DEFAULT_STATS_LOG_INTERVAL_SECS),
            r.logging.level == LogLevel::Info,
            r.logging.format == LogFormat::Pretty,
            !r.logging.async_enabled,
    {
        RuntimeConfig {
            stats_log_interval_secs: Some(DEFAULT_STATS_LOG_INTERVAL_SECS),
            logging: LoggingConfig::default(),
        }
    }
}

impl Default for MotdConfig {
    fn default() -> (m: Self)
        ensures
            m.mode == MotdMode::Local,
            m.local_json@ == DEFAULT_LOCAL_MOTD_JSON@,
            m.upstream_addr matches Some(a) && a@ == DEFAULT_MOTD_UPSTREAM_ADDR@,
            m.protocol_mode == MotdProtocolMode::Client,
            m.ping_mode == StatusPingMode::Passthrough,
            m.ping.target_addr is None,
            m.upstream_ping_timeout_ms == DEFAULT_MOTD_UPSTREAM_PING_TIMEOUT_MS,
            m.status_cache_ttl_ms == DEFAULT_MOTD_STATUS_CACHE_TTL_MS,
            m.favicon.mode == MotdFaviconMode::Passthrough,
            m.favicon.path is None,
            m.favicon.target_addr is None,
    {
        MotdConfig {
            mode: MotdMode::Local,
            local_json: String::from_str(DEFAULT_LOCAL_MOTD_JSON),
            upstream_addr: Some(String::from_str(DEFAULT_MOTD_UPSTREAM_ADDR)),
            protocol_mode: MotdProtocolMode::Client,
            ping_mode: StatusPingMode::Passthrough,
            ping: MotdPingConfig { target_addr: None },
            upstream_ping_timeout_ms: DEFAULT_MOTD_UPSTREAM_PING_TIMEOUT_MS,
            status_cache_ttl_ms: DEFAULT_MOTD_STATUS_CACHE_TTL_MS,
            favicon: MotdFaviconConfig {
                mode: MotdFaviconMode::Passthrough,
                path: None,
                target_addr: None,
            },
        }
    }
}

impl Default for Config {
    fn default() -> (c: Self)
        ensures
            c.inbound.listen_addr@ == DEFAULT_LISTEN_ADDR@,
            c.inbound.first_packet_timeout_ms == DEFAULT_FIRST_PACKET_TIMEOUT_MS,
            c.inbound.socket_options.tcp_nodelay,
            c.inbound.socket_options.keepalive_secs == DEFAULT_KEEPALIVE_SECS,
            c.inbound.socket_options.recv_buffer_size is None,
            c.inbound.socket_options.send_buffer_size is None,
            !c.inbound.socket_options.reuse_port,
            c.transport.motd.mode == MotdMode::Local,
            c.transport.motd.local_json@ == DEFAULT_LOCAL_MOTD_JSON@,
            c.transport.motd.upstream_addr matches Some(a) && a@ == DEFAULT_MOTD_UPSTREAM_ADDR@,
            c.transport.motd.protocol_mode == MotdProtocolMode::Client,
            c.transport.motd.ping_mode == StatusPingMode::Passthrough,
            c.transport.motd.ping.target_addr is None,
            c.transport.motd.upstream_ping_timeout_ms == DEFAULT_MOTD_UPSTREAM_PING_TIMEOUT_MS,
            c.transport.motd.status_cache_ttl_ms == DEFAULT_MOTD_STATUS_CACHE_TTL_MS,
            c.transport.motd.favicon.mode == MotdFaviconMode::Passthrough,
            c.transport.motd.favicon.path is None,
            c.transport.motd.favicon.target_addr is None,
            c.relay == (RelayConfig { mode: RelayDataMode::Async, io_uring: false }),
            c.api.mode == ApiMode::Mock,
            c.api.base_url is None,
            c.api.bearer_token is None,
            c.api.timeout_ms == DEFAULT_API_TIMEOUT_MS,
            c.api.traffic_interval_ms == DEFAULT_API_TRAFFIC_INTERVAL_MS,
            c.api.mock.target_addr@ == DEFAULT_API_TARGET_ADDR@,
            c.api.mock.rewrite_addr is None,
            c.api.mock.connection_id_prefix@ == DEFAULT_CONNECTION_ID_PREFIX@,
            c.api.mock.kick_reason is None,
            c.runtime.stats_log_interval_secs == Some(DEFAULT_STATS_LOG_INTERVAL_SECS),
            c.runtime.logging.level == LogLevel::Info,
            c.runtime.logging.format == LogFormat::Pretty,
            !c.runtime.logging.async_enabled,
            c.source_path@ == Seq::<char>::empty(),
    {
        Config {
            inbound: InboundConfig {
                listen_addr: String::from_str(DEFAULT_LISTEN_ADDR),
                first_packet_timeout_ms: DEFAULT_FIRST_PACKET_TIMEOUT_MS,
                socket_options: SocketOptions::default(),
            },
            transport: TransportConfig { motd: MotdConfig::default() },
            relay: RelayConfig::default(),
            api: ApiConfig::default(),
            runtime: RuntimeConfig::default(),
            source_path: String::new(),
        }
    }
}

impl Config {
    /// How often connection statistics are logged, if at all.
    pub fn stats_log_interval(&self) -> (r: Option<u64>)
        ensures
            r == self.runtime.stats_log_interval_secs,
    {
        self.runtime.stats_log_interval_secs
    }
}

} // verus!
