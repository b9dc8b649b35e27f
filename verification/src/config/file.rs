//! The configuration file's sections as written, and their conversion into
//! the configuration the proxy runs with.
use vstd::prelude::*;

use super::runtime::{
    CoreConfig, LogFileConfig, LogRotation, LoggingConfig, MotdConfig, MotdFaviconConfig,
    NetworkConfig, NetworkSocketConfig, RelayConfig, RelayMode,
};
use super::{ApiConfig, ApiMode, NecronPrismConfig};
use crate::proxy::config::types::{LogFormat, LogLevel, MotdFaviconMode, MotdMode, StatusPingMode};

verus! {

/// The whole file.
#[derive(Clone, Debug)]
pub struct FileConfig {
    pub network: FileNetworkConfig,
    pub motd: FileMotdConfig,
    pub api: FileApiConfig,
    pub logging: FileLoggingConfig,
}

/// `[network]`.
#[derive(Clone, Debug)]
pub struct FileNetworkConfig {
    pub socket: FileNetworkSocketConfig,
    pub relay: FileRelayConfig,
}

/// `[network.socket]`.
#[derive(Clone, Debug)]
pub struct FileNetworkSocketConfig {
    pub listen_addr: String,
    pub multipath_tcp: bool,
    pub first_packet_timeout_ms: u64,
    pub tcp_nodelay: bool,
    pub tcp_keepalive: bool,
    pub keepalive_secs: Option<u64>,
    pub recv_buffer_size: Option<usize>,
    pub send_buffer_size: Option<usize>,
    pub reuse_address: bool,
    pub reuse_port: bool,
    pub listen_backlog: u32,
    pub tcp_fastopen: bool,
    pub tcp_fastopen_queue: Option<u32>,
    pub tcp_quickack: bool,
    pub ip_tos: Option<u8>,
    pub congestion_control: Option<String>,
    pub bind_interface: Option<String>,
    pub fwmark: Option<u32>,
}

/// `[motd]`.
#[derive(Clone, Debug)]
pub struct FileMotdConfig {
    pub mode: MotdMode,
    pub local_json: String,
    pub upstream_addr: String,
    pub protocol: i32,
    pub ping_mode: StatusPingMode,
    pub ping_target_addr: Option<String>,
    pub upstream_ping_timeout_ms: u64,
    pub favicon: FileMotdFaviconConfig,
}

/// `[api]`.
#[derive(Clone, Debug)]
pub struct FileApiConfig {
    pub mode: ApiMode,
    pub base_url: Option<String>,
    pub bearer_token: Option<String>,
    pub entry_node_key: Option<String>,
    pub timeout_ms: u64,
    pub traffic_interval_ms: u64,
    pub mock_target_addr: String,
    pub mock_rewrite_addr: Option<String>,
    pub mock_connection_id_prefix: String,
    pub mock_kick_reason: Option<String>,
}

impl Default for FileApiConfig {
    /// The fields of the default API section.
    fn default() -> (f: Self)
        ensures
            f.mode == ApiMode::Mock,
            f.base_url is None,
            f.bearer_token is None,
            f.entry_node_key is None,
            f.timeout_ms == super::DEFAULT_API_TIMEOUT_MS,
            f.traffic_interval_ms == super::DEFAULT_TRAFFIC_INTERVAL_MS,
            f.mock_target_addr@ == super::DEFAULT_MOCK_TARGET_ADDR@,
            f.mock_rewrite_addr is None,
            f.mock_connection_id_prefix@ == super::DEFAULT_MOCK_CONNECTION_ID_PREFIX@,
            f.mock_kick_reason is None,
    {
        let defaults = ApiConfig::default();
        assert(super::spec_is_default_api(defaults));
        FileApiConfig {
            mode: defaults.mode,
            base_url: defaults.base_url,
            bearer_token: defaults.bearer_token,
            entry_node_key: defaults.entry_node_key,
            timeout_ms: defaults.timeout_ms,
            traffic_interval_ms: defaults.traffic_interval_ms,
            mock_target_addr: defaults.mock_target_addr,
            mock_rewrite_addr: defaults.mock_rewrite_addr,
            mock_connection_id_prefix: defaults.mock_connection_id_prefix,
            mock_kick_reason: defaults.mock_kick_reason,
        }
    }
}

/// `[logging]`.
#[derive(Clone, Debug)]
pub struct FileLoggingConfig {
    pub level: LogLevel,
    pub format: LogFormat,
    pub async_enabled: bool,
    pub stats_log_interval_secs: Option<u64>,
    pub file: Option<FileLogFileConfig>,
}

/// `[logging.file]`.
#[derive(Clone, Debug)]
pub struct FileLogFileConfig {
    pub path: String,
    pub mode: LogRotation,
    pub archive_pattern: String,
}

/// `[motd.favicon]`.
#[derive(Clone, Debug)]
pub struct FileMotdFaviconConfig {
    pub mode: MotdFaviconMode,
    pub path: Option<String>,
    pub target_addr: Option<String>,
}

/// `[network.relay]`.
#[derive(Clone, Debug)]
pub struct FileRelayConfig {
    pub mode: RelayMode,
}

impl Default for FileRelayConfig {
    fn default() -> (r: Self)
        ensures
            r.mode == RelayMode::Async,
    {
        FileRelayConfig { mode: RelayMode::Async }
    }
}

impl From<FileLogFileConfig> for LogFileConfig {
    fn from(value: FileLogFileConfig) -> (c: Self) {
        LogFileConfig { path: value.path, mode: value.mode, archive_pattern: value.archive_pattern }
    }
}

impl vstd::std_specs::convert::FromSpecImpl<FileLogFileConfig> for LogFileConfig {
    open spec fn obeys_from_spec() -> bool {
        true
    }

    open spec fn from_spec(value: FileLogFileConfig) -> Self {
        LogFileConfig { path: value.path, mode: value.mode, archive_pattern: value.archive_pattern }
    }
}

/// The log file settings of `file`.
pub open spec fn spec_log_file(file: Option<FileLogFileConfig>) -> Option<LogFileConfig> {
    match file {
        Some(f) => Some(
            LogFileConfig { path: f.path, mode: f.mode, archive_pattern: f.archive_pattern },
        ),
        None => None,
    }
}

/// The configuration that the file `file` sets, with `source_path` as its
/// source: every setting as written, the requested relay at its default,
/// and no notsent-lowat or busy-poll setting.
pub open spec fn spec_from_file(file: FileConfig, source_path: String) -> NecronPrismConfig {
    let s = file.network.socket;
    NecronPrismConfig {
        prism: CoreConfig {
            network: NetworkConfig {
                socket: NetworkSocketConfig {
                    listen_addr: s.listen_addr,
                    multipath_tcp: s.multipath_tcp,
                    first_packet_timeout_ms: s.first_packet_timeout_ms,
                    tcp_nodelay: s.tcp_nodelay,
                    tcp_keepalive: s.tcp_keepalive,
                    keepalive_secs: s.keepalive_secs,
                    recv_buffer_size: s.recv_buffer_size,
                    send_buffer_size: s.send_buffer_size,
                    reuse_address: s.reuse_address,
                    reuse_port: s.reuse_port,
                    listen_backlog: s.listen_backlog,
                    tcp_fastopen: s.tcp_fastopen,
                    tcp_fastopen_queue: s.tcp_fastopen_queue,
                    tcp_quickack: s.tcp_quickack,
                    ip_tos: s.ip_tos,
                    congestion_control: s.congestion_control,
                    bind_interface: s.bind_interface,
                    fwmark: s.fwmark,
                    tcp_notsent_lowat: None,
                    so_busy_poll: None,
                },
                relay: RelayConfig { mode: file.network.relay.mode },
            },
            motd: MotdConfig {
                mode: file.motd.mode,
                local_json: file.motd.local_json,
                upstream_addr: file.motd.upstream_addr,
                protocol: file.motd.protocol,
                ping_mode: file.motd.ping_mode,
                ping_target_addr: file.motd.ping_target_addr,
                upstream_ping_timeout_ms: file.motd.upstream_ping_timeout_ms,
                favicon: MotdFaviconConfig {
                    mode: file.motd.favicon.mode,
                    path: file.motd.favicon.path,
                    target_addr: file.motd.favicon.target_addr,
                },
            },
            logging: LoggingConfig {
                level: file.logging.level,
                format: file.logging.format,
                async_enabled: file.logging.async_enabled,
                stats_log_interval_secs: file.logging.stats_log_interval_secs,
                file: spec_log_file(file.logging.file),
            },
            source_path,
            requested_relay: RelayConfig { mode: RelayMode::Async },
        },
        api: ApiConfig {
            mode: file.api.mode,
            base_url: file.api.base_url,
            bearer_token: file.api.bearer_token,
            entry_node_key: file.api.entry_node_key,
            timeout_ms: file.api.timeout_ms,
            traffic_interval_ms: file.api.traffic_interval_ms,
            mock_target_addr: file.api.mock_target_addr,
            mock_rewrite_addr: file.api.mock_rewrite_addr,
            mock_connection_id_prefix: file.api.mock_connection_id_prefix,
            mock_kick_reason: file.api.mock_kick_reason,
        },
    }
}

/// `c` is the configuration that `file` sets, before its source path is
/// known.
pub open spec fn spec_converted(file: FileConfig, c: NecronPrismConfig) -> bool {
    &&& c == spec_from_file(file, c.prism.source_path)
    &&& c.prism.source_path@ == Seq::<char>::empty()
}

impl From<FileConfig> for NecronPrismConfig {
    /// The configuration that the file `file` sets; see `spec_converted`.
    fn from(file: FileConfig) -> (c: Self)
        ensures
            spec_converted(file, c),
    {
        NecronPrismConfig {
            prism: CoreConfig {
                network: NetworkConfig {
                    socket: NetworkSocketConfig {
                        listen_addr: file.network.socket.listen_addr,
                        multipath_tcp: file.network.socket.multipath_tcp,
                        first_packet_timeout_ms: file.network.socket.first_packet_timeout_ms,
                        tcp_nodelay: file.network.socket.tcp_nodelay,
                        tcp_keepalive: file.network.socket.tcp_keepalive,
                        keepalive_secs: file.network.socket.keepalive_secs,
                        recv_buffer_size: file.network.socket.recv_buffer_size,
                        send_buffer_size: file.network.socket.send_buffer_size,
                        reuse_address: file.network.socket.reuse_address,
                        reuse_port: file.network.socket.reuse_port,
                        listen_backlog: file.network.socket.listen_backlog,
                        tcp_fastopen: file.network.socket.tcp_fastopen,
                        tcp_fastopen_queue: file.network.socket.tcp_fastopen_queue,
                        tcp_quickack: file.network.socket.tcp_quickack,
                        ip_tos: file.network.socket.ip_tos,
                        congestion_control: file.network.socket.congestion_control,
                        bind_interface: file.network.socket.bind_interface,
                        fwmark: file.network.socket.fwmark,
                        tcp_notsent_lowat: None,
                        so_busy_poll: None,
                    },
                    relay: RelayConfig { mode: file.network.relay.mode },
                },
                motd: MotdConfig {
                    mode: file.motd.mode,
                    local_json: file.motd.local_json,
                    upstream_addr: file.motd.upstream_addr,
                    protocol: file.motd.protocol,
                    ping_mode: file.motd.ping_mode,
                    ping_target_addr: file.motd.ping_target_addr,
                    upstream_ping_timeout_ms: file.motd.upstream_ping_timeout_ms,
                    favicon: MotdFaviconConfig {
                        mode: file.motd.favicon.mode,
                        path: file.motd.favicon.path,
                        target_addr: file.motd.favicon.target_addr,
                    },
                },
                logging: LoggingConfig {
                    level: file.logging.level,
                    format: file.logging.format,
                    async_enabled: file.logging.async_enabled,
                    stats_log_interval_secs: file.logging.stats_log_interval_secs,
                    file: match file.logging.file {
                        Some(f) => Some(LogFileConfig::from(f)),
                        None => None,
                    },
                },
                source_path: String::new(),
                requested_relay: RelayConfig::default(),
            },
            api: ApiConfig {
                mode: file.api.mode,
                base_url: file.api.base_url,
                bearer_token: file.api.bearer_token,
                entry_node_key: file.api.entry_node_key,
                timeout_ms: file.api.timeout_ms,
                traffic_interval_ms: file.api.traffic_interval_ms,
                mock_target_addr: file.api.mock_target_addr,
                mock_rewrite_addr: file.api.mock_rewrite_addr,
                mock_connection_id_prefix: file.api.mock_connection_id_prefix,
                mock_kick_reason: file.api.mock_kick_reason,
            },
        }
    }
}

impl vstd::std_specs::convert::FromSpecImpl<FileConfig> for NecronPrismConfig {
    /// The conversion leaves the source path empty, which no single value
    /// of this type pins down; `from` states what it gives.
    open spec fn obeys_from_spec() -> bool {
        false
    }

    open spec fn from_spec(file: FileConfig) -> Self {
        spec_from_file(file, vstd::pervasive::arbitrary())
    }
}

} // verus!
