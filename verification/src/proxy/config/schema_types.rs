//! The configuration file as written: every setting may be left out.
use vstd::prelude::*;
use vstd::string::*;

use super::default::{DEFAULT_MOTD_UPSTREAM_ADDR, DEFAULT_STATS_LOG_INTERVAL_SECS};

verus! {

#[derive(Debug, Clone)]
pub struct ConfigFile {
    pub inbound: InboundFileConfig,
    pub transport: TransportFileConfig,
    pub relay: RelayFileConfig,
    pub api: ApiFileConfig,
    pub runtime: RuntimeFileConfig,
}

#[derive(Debug, Clone)]
pub struct InboundFileConfig {
    pub listen_addr: Option<String>,
    pub first_packet_timeout_ms: Option<u64>,
    pub socket: SocketOptionsFileConfig,
}

#[derive(Debug, Clone)]
pub struct TransportFileConfig {
    pub motd: MotdFileConfig,
}

#[derive(Debug, Clone, Copy)]
pub struct RelayFileConfig {
    pub mode: RelayModeLiteral,
    pub io_uring: bool,
}

#[derive(Debug, Clone)]
pub struct ApiFileConfig {
    pub mode: ApiModeLiteral,
    pub base_url: Option<String>,
    pub bearer_token: Option<String>,
    pub timeout_ms: Option<u64>,
    pub traffic_interval_ms: Option<u64>,
    pub mock: MockApiFileConfig,
}

#[derive(Debug, Clone)]
pub struct MockApiFileConfig {
    pub target_addr: Option<String>,
    pub rewrite_addr: Option<String>,
    pub connection_id_prefix: Option<String>,
    pub kick_reason: Option<String>,
}

#[derive(Debug, Clone)]
pub struct MotdFileConfig {
    pub mode: MotdModeLiteral,
    pub json: Option<String>,
    pub upstream_addr: Option<String>,
    pub protocol: MotdProtocolLiteral,
    pub ping_mode: StatusPingModeLiteral,
    pub ping: MotdPingFileConfig,
    pub upstream_ping_timeout_ms: Option<u64>,
    pub status_cache_ttl_ms: Option<u64>,
    pub favicon: MotdFaviconFileConfig,
}

#[derive(Debug, Clone)]
pub struct MotdPingFileConfig {
    pub target_addr: Option<String>,
}

#[derive(Debug, Clone)]
pub struct MotdFaviconFileConfig {
    pub mode: MotdFaviconModeLiteral,
    pub path: Option<String>,
    pub target_addr: Option<String>,
}

#[derive(Debug, Clone)]
pub struct RuntimeFileConfig {
    pub stats_log_interval_secs: Option<u64>,
    pub logging: LoggingFileConfig,
}

#[derive(Debug, Clone, Copy)]
pub struct LoggingFileConfig {
    pub level: LogLevelLiteral,
    pub format: LogFormatLiteral,
    pub async_enabled: bool,
}

#[derive(Debug, Clone)]
pub struct SocketOptionsFileConfig {
    pub tcp_nodelay: bool,
    pub keepalive_secs: Option<u64>,
    pub recv_buffer_size: Option<usize>,
    pub send_buffer_size: Option<usize>,
    pub reuse_port: bool,
}

#[derive(Debug, Clone, Copy, PartialEq, Eq, Structural)]
pub enum ApiModeLiteral {
    Http,
    Mock,
}

#[derive(Debug, Clone, Copy, PartialEq, Eq, Structural)]
pub enum RelayModeLiteral {
    Async,
    Splice,
}

#[derive(Debug, Clone, Copy, PartialEq, Eq, Structural)]
pub enum MotdModeLiteral {
    Local,
    Upstream,
}

#[derive(Debug, Clone, Copy, PartialEq, Eq, Structural)]
pub enum MotdProtocolLiteral {
    Named(MotdProtocolNamedLiteral),
    Fixed(i32),
}

#[derive(Debug, Clone, Copy, PartialEq, Eq, Structural)]
pub enum MotdProtocolNamedLiteral {
    Client,
    NegativeOne,
}

#[derive(Debug, Clone, Copy, PartialEq, Eq, Structural)]
pub enum StatusPingModeLiteral {
    Passthrough,
    ZeroMs,
    UpstreamTcp,
    Disconnect,
}

#[derive(Debug, Clone, Copy, PartialEq, Eq, Structural)]
pub enum MotdFaviconModeLiteral {
    Json,
    Path,
    Passthrough,
    Remove,
}

#[derive(Debug, Clone, Copy, PartialEq, Eq, Structural)]
pub enum LogLevelLiteral {
    Trace,
    Debug,
    Info,
    Warn,
    Error,
}

#[derive(Debug, Clone, Copy, PartialEq, Eq, Structural)]
pub enum LogFormatLiteral {
    Pretty,
    Compact,
    Json,
}

impl Default for ApiModeLiteral {
    fn default() -> (m: Self)
        ensures
            m == ApiModeLiteral::Mock,
    {
        ApiModeLiteral::Mock
    }
}

impl Default for RelayModeLiteral {
    fn default() -> (m: Self)
        ensures
            m == RelayModeLiteral::Async,
    {
        RelayModeLiteral::Async
    }
}

impl Default for MotdModeLiteral {
    fn default() -> (m: Self)
        ensures
            m == MotdModeLiteral::Local,
    {
        MotdModeLiteral::Local
    }
}

impl Default for MotdProtocolLiteral {
    fn default() -> (m: Self)
        ensures
            m == MotdProtocolLiteral::Named(MotdProtocolNamedLiteral::Client),
    {
        MotdProtocolLiteral::Named(MotdProtocolNamedLiteral::Client)
    }
}

impl Default for StatusPingModeLiteral {
    fn default() -> (m: Self)
        ensures
            m == StatusPingModeLiteral::Passthrough,
    {
        StatusPingModeLiteral::Passthrough
    }
}

impl Default for MotdFaviconModeLiteral {
    fn default() -> (m: Self)
        ensures
            m == MotdFaviconModeLiteral::Passthrough,
    {
        MotdFaviconModeLiteral::Passthrough
    }
}

impl Default for LogLevelLiteral {
    fn default() -> (m: Self)
        ensures
            m == LogLevelLiteral::Info,
    {
        LogLevelLiteral::Info
    }
}

impl Default for LogFormatLiteral {
    fn default() -> (m: Self)
        ensures
            m == LogFormatLiteral::Pretty,
    {
        LogFormatLiteral::Pretty
    }
}

impl Default for SocketOptionsFileConfig {
    fn default() -> (s: Self)
        ensures
            s.tcp_nodelay,
            s.keepalive_secs is None,
            s.recv_buffer_size is None,
            s.send_buffer_size is None,
            !s.reuse_port,
    {
        SocketOptionsFileConfig {
            tcp_nodelay: true,
            keepalive_secs: None,
            recv_buffer_size: None,
            send_buffer_size: None,
            reuse_port: false,
        }
    }
}

impl Default for InboundFileConfig {
    fn default() -> (s: Self)
        ensures
            s.listen_addr is None,
            s.first_packet_timeout_ms is None,
            s.socket.tcp_nodelay,
            s.socket.keepalive_secs is None,
            s.socket.recv_buffer_size is None,
            s.socket.send_buffer_size is None,
            !s.socket.reuse_port,
    {
        InboundFileConfig {
            listen_addr: None,
            first_packet_timeout_ms: None,
            socket: SocketOptionsFileConfig::default(),
        }
    }
}

impl Default for MotdFaviconFileConfig {
    fn default() -> (s: Self)
        ensures
            s.mode == MotdFaviconModeLiteral::Passthrough,
            s.path is None,
            s.target_addr is None,
    {
        MotdFaviconFileConfig { mode: MotdFaviconModeLiteral::Passthrough, path: None, target_addr: None }
    }
}

impl Default for MotdFileConfig {
    fn default() -> (s: Self)
        ensures
            s.mode == MotdModeLiteral::Local,
            s.json is None,
            s.upstream_addr matches Some(a) && a@ == DEFAULT_MOTD_UPSTREAM_ADDR@,
            s.protocol == MotdProtocolLiteral::Named(MotdProtocolNamedLiteral::Client),
            s.ping_mode == StatusPingModeLiteral::Passthrough,
            s.ping.target_addr is None,
            s.upstream_ping_timeout_ms is None,
            s.status_cache_ttl_ms is None,
            s.favicon.mode == MotdFaviconModeLiteral::Passthrough,
            s.favicon.path is None,
            s.favicon.target_addr is None,
    {
        MotdFileConfig {
            mode: MotdModeLiteral::Local,
            json: None,
            upstream_addr: Some(String::from_str(DEFAULT_MOTD_UPSTREAM_ADDR)),
            protocol: MotdProtocolLiteral::Named(MotdProtocolNamedLiteral::Client),
            ping_mode: StatusPingModeLiteral::Passthrough,
            ping: MotdPingFileConfig { target_addr: None },
            upstream_ping_timeout_ms: None,
            status_cache_ttl_ms: None,
            favicon: MotdFaviconFileConfig::default(),
        }
    }
}

impl Default for TransportFileConfig {
    fn default() -> (s: Self)
        ensures
            s.motd.mode == MotdModeLiteral::Local,
            s.motd.json is None,
            s.motd.upstream_addr matches Some(a) && a@ == DEFAULT_MOTD_UPSTREAM_ADDR@,
            s.motd.protocol == MotdProtocolLiteral::Named(MotdProtocolNamedLiteral::Client),
            s.motd.ping_mode == StatusPingModeLiteral::Passthrough,
            s.motd.ping.target_addr is None,
            s.motd.upstream_ping_timeout_ms is None,
            s.motd.status_cache_ttl_ms is None,
            s.motd.favicon.mode == MotdFaviconModeLiteral::Passthrough,
            s.motd.favicon.path is None,
            s.motd.favicon.target_addr is None,
    {
        TransportFileConfig { motd: MotdFileConfig::default() }
    }
}

impl Default for RelayFileConfig {
    fn default() -> (s: Self)
        ensures
            s.mode == RelayModeLiteral::Async,
            !s.io_uring,
    {
        RelayFileConfig { mode: RelayModeLiteral::Async, io_uring: false }
    }
}

impl Default for MockApiFileConfig {
    fn default() -> (s: Self)
        ensures
            s.target_addr is None,
            s.rewrite_addr is None,
            s.connection_id_prefix is None,
            s.kick_reason is None,
    {
        MockApiFileConfig {
            target_addr: None,
            rewrite_addr: None,
            connection_id_prefix: None,
            kick_reason: None,
        }
    }
}

impl Default for ApiFileConfig {
    fn default() -> (s: Self)
        ensures
            s.mode == ApiModeLiteral::Mock,
            s.base_url is None,
            s.bearer_token is None,
            s.timeout_ms is None,
            s.traffic_interval_ms is None,
            s.mock.target_addr is None,
            s.mock.rewrite_addr is None,
            s.mock.connection_id_prefix is None,
            s.mock.kick_reason is None,
    {
        ApiFileConfig {
            mode: ApiModeLiteral::Mock,
            base_url: None,
            bearer_token: None,
            timeout_ms: None,
            traffic_interval_ms: None,
            mock: MockApiFileConfig::default(),
        }
    }
}

impl Default for LoggingFileConfig {
    fn default() -> (s: Self)
        ensures
            s.level == LogLevelLiteral::Info,
            s.format == LogFormatLiteral::Pretty,
            !s.async_enabled,
    {
        LoggingFileConfig {
            level: LogLevelLiteral::Info,
            format: LogFormatLiteral::Pretty,
            async_enabled: false,
        }
    }
}

impl Default for RuntimeFileConfig {
    fn default() -> (s: Self)
        ensures
            s.stats_log_interval_secs == Some(DEFAULT_STATS_LOG_INTERVAL_SECS),
            s.logging.level == LogLevelLiteral::Info,
            s.logging.format == LogFormatLiteral::Pretty,
            !s.logging.async_enabled,
    {
        RuntimeFileConfig {
            stats_log_interval_secs: Some(DEFAULT_STATS_LOG_INTERVAL_SECS),
            logging: LoggingFileConfig::default(),
        }
    }
}

impl Default for ConfigFile {
    fn default() -> (s: Self)
        ensures
            s.inbound.listen_addr is None,
            s.inbound.first_packet_timeout_ms is None,
            s.inbound.socket.tcp_nodelay,
            s.inbound.socket.keepalive_secs is None,
            s.inbound.socket.recv_buffer_size is None,
            s.inbound.socket.send_buffer_size is None,
            !s.inbound.socket.reuse_port,
            s.transport.motd.mode == MotdModeLiteral::Local,
            s.transport.motd.json is None,
            s.transport.motd.upstream_addr matches Some(a) && a@ == DEFAULT_MOTD_UPSTREAM_ADDR@,
            s.transport.motd.protocol == MotdProtocolLiteral::Named(
                MotdProtocolNamedLiteral::Client,
            ),
            s.transport.motd.ping_mode == StatusPingModeLiteral::Passthrough,
            s.transport.motd.ping.target_addr is None,
            s.transport.motd.upstream_ping_timeout_ms is None,
            s.transport.motd.status_cache_ttl_ms is None,
            s.transport.motd.favicon.mode == MotdFaviconModeLiteral::Passthrough,
            s.transport.motd.favicon.path is None,
            s.transport.motd.favicon.target_addr is None,
            s.relay.mode == RelayModeLiteral::Async,
            !s.relay.io_uring,
            s.api.mode == ApiModeLiteral::Mock,
            s.api.base_url is None,
            s.api.bearer_token is None,
            s.api.timeout_ms is None,
            s.api.traffic_interval_ms is None,
            s.api.mock.target_addr is None,
            s.api.mock.rewrite_addr is None,
            s.api.mock.connection_id_prefix is None,
            s.api.mock.kick_reason is None,
            s.runtime.stats_log_interval_secs == Some(DEFAULT_STATS_LOG_INTERVAL_SECS),
            s.runtime.logging.level == LogLevelLiteral::Info,
            s.runtime.logging.format == LogFormatLiteral::Pretty,
            !s.runtime.logging.async_enabled,
    {
        ConfigFile {
            inbound: InboundFileConfig::default(),
            transport: TransportFileConfig::default(),
            relay: RelayFileConfig::default(),
            api: ApiFileConfig::default(),
            runtime: RuntimeFileConfig::default(),
        }
    }
}

} // verus!
