//! The relay core's settings, as far as this crate reads and writes them:
//! the listening socket, the relay mode, the status response and logging.
use vstd::prelude::*;

use crate::proxy::config::types::{LogFormat, LogLevel, MotdFaviconMode, MotdMode, StatusPingMode};

verus! {

/// How relayed bytes are moved between the two sockets.
#[derive(Clone, Copy, Debug, PartialEq, Eq, Structural)]
pub enum RelayMode {
    Async,
    Splice,
    IoUring,
}

impl RelayMode {
    pub open spec fn spec_label(self) -> Seq<char> {
        match self {
            RelayMode::Async => "async"@,
            RelayMode::Splice => "splice"@,
            RelayMode::IoUring => "io_uring"@,
        }
    }

    /// The mode's name, as the configuration file writes it.
    pub fn label(self) -> (l: &'static str)
        ensures
            l@ == self.spec_label(),
    {
        match self {
            RelayMode::Async => "async",
            RelayMode::Splice => "splice",
            RelayMode::IoUring => "io_uring",
        }
    }
}

/// The relay section.
#[derive(Clone, Copy, Debug, PartialEq, Eq, Structural)]
pub struct RelayConfig {
    pub mode: RelayMode,
}

impl RelayConfig {
    /// The name of the relay's mode.
    pub fn label(&self) -> (l: &'static str)
        ensures
            l@ == self.mode.spec_label(),
    {
        self.mode.label()
    }
}

impl Default for RelayConfig {
    fn default() -> (r: Self)
        ensures
            r.mode == RelayMode::Async,
    {
        RelayConfig { mode: RelayMode::Async }
    }
}

/// What happens to the log file left by the previous run.
#[derive(Clone, Copy, Debug, PartialEq, Eq, Structural)]
pub enum LogRotation {
    /// The old file is left as it is.
    Keep,
    Rename,
    Compress,
}

/// The listening socket and its options.
#[derive(Clone, Debug)]
pub struct NetworkSocketConfig {
    pub listen_addr: String,
    pub multipath_tcp: bool,
    pub first_packet_timeout_ms: u64,
    pub tcp_nodelay: bool,
    pub tcp_keepalive: bool,
    pub keepalive_secs: Option<u64>,
    pub recv_buffer_size: Option<usize>,
    pub send_buffer_size: Option<usize>,
    pub reuse_address: bool,
    pub reuse_port: bool,
    pub listen_backlog: u32,
    pub tcp_fastopen: bool,
    pub tcp_fastopen_queue: Option<u32>,
    pub tcp_quickack: bool,
    pub ip_tos: Option<u8>,
    pub congestion_control: Option<String>,
    pub bind_interface: Option<String>,
    pub fwmark: Option<u32>,
    pub tcp_notsent_lowat: Option<u32>,
    pub so_busy_poll: Option<u32>,
}

/// The network section: the socket and the relay.
#[derive(Clone, Debug)]
pub struct NetworkConfig {
    pub socket: NetworkSocketConfig,
    pub relay: RelayConfig,
}

/// Where the status response's icon comes from.
#[derive(Clone, Debug)]
pub struct MotdFaviconConfig {
    pub mode: MotdFaviconMode,
    pub path: Option<String>,
    pub target_addr: Option<String>,
}

/// The status response.
#[derive(Clone, Debug)]
pub struct MotdConfig {
    pub mode: MotdMode,
    pub local_json: String,
    pub upstream_addr: String,
    pub protocol: i32,
    pub ping_mode: StatusPingMode,
    pub ping_target_addr: Option<String>,
    pub upstream_ping_timeout_ms: u64,
    pub favicon: MotdFaviconConfig,
}

/// The log file.
#[derive(Clone, Debug)]
pub struct LogFileConfig {
    pub path: String,
    pub mode: LogRotation,
    pub archive_pattern: String,
}

/// Logging.
#[derive(Clone, Debug)]
pub struct LoggingConfig {
    pub level: LogLevel,
    pub format: LogFormat,
    pub async_enabled: bool,
    pub stats_log_interval_secs: Option<u64>,
    pub file: Option<LogFileConfig>,
}

/// The relay core's settings; `requested_relay` keeps the relay that the
/// file asked for where the platform could not give it.
#[derive(Clone, Debug)]
pub struct CoreConfig {
    pub network: NetworkConfig,
    pub motd: MotdConfig,
    pub logging: LoggingConfig,
    pub source_path: String,
    pub requested_relay: RelayConfig,
}

} // verus!
