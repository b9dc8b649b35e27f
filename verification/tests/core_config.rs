use necron_prism::config::api::{ApiConfig as ServiceApiConfig, ApiMode as ServiceApiMode};
use necron_prism::config::canonicalize::{canonicalize_runtime_config, canonicalize_warnings, TargetPlatform};
use necron_prism::config::file::{
    FileApiConfig, FileConfig, FileLogFileConfig, FileLoggingConfig, FileMotdConfig,
    FileMotdFaviconConfig, FileNetworkConfig, FileNetworkSocketConfig, FileRelayConfig,
};
use necron_prism::config::loader::{validate_config, ConfigLoader, ConfigValidationError};
use necron_prism::config::runtime::{
    CoreConfig, LogRotation, LoggingConfig, MotdConfig, MotdFaviconConfig, NetworkConfig,
    NetworkSocketConfig, RelayConfig, RelayMode,
};
use necron_prism::config::{ApiConfig, ApiMode, NecronPrismConfig};
use necron_prism::proxy::config::types::{LogFormat, LogLevel, MotdFaviconMode, MotdMode, StatusPingMode};

fn socket() -> NetworkSocketConfig {
    NetworkSocketConfig {
        listen_addr: "127.0.0.1:25565".to_string(),
        multipath_tcp: true,
        first_packet_timeout_ms: 5000,
        tcp_nodelay: true,
        tcp_keepalive: true,
        keepalive_secs: Some(30),
        recv_buffer_size: None,
        send_buffer_size: None,
        reuse_address: true,
        reuse_port: true,
        listen_backlog: 1024,
        tcp_fastopen: true,
        tcp_fastopen_queue: Some(16),
        tcp_quickack: true,
        ip_tos: Some(0x10),
        congestion_control: Some("bbr".to_string()),
        bind_interface: Some("eth0".to_string()),
        fwmark: Some(7),
        tcp_notsent_lowat: None,
        so_busy_poll: None,
    }
}

fn core_settings(mode: RelayMode) -> CoreConfig {
    CoreConfig {
        network: NetworkConfig { socket: socket(), relay: RelayConfig { mode } },
        motd: MotdConfig {
            mode: MotdMode::Local,
            local_json: "{\"description\":\"hi\"}".to_string(),
            upstream_addr: "127.0.0.1:25566".to_string(),
            protocol: -1,
            ping_mode: StatusPingMode::ZeroMs,
            ping_target_addr: None,
            upstream_ping_timeout_ms: 3000,
            favicon: MotdFaviconConfig { mode: MotdFaviconMode::Json, path: None, target_addr: None },
        },
        logging: LoggingConfig {
            level: LogLevel::Info,
            format: LogFormat::Pretty,
            async_enabled: false,
            stats_log_interval_secs: Some(10),
            file: None,
        },
        source_path: "config.toml".to_string(),
        requested_relay: RelayConfig::default(),
    }
}

fn config(mode: RelayMode) -> NecronPrismConfig {
    NecronPrismConfig { prism: core_settings(mode), api: ApiConfig::default() }
}

#[test]
fn canonicalize_updates_requested_relay_on_non_linux() {
    let mut config = config(RelayMode::IoUring);
    canonicalize_runtime_config(&mut config, TargetPlatform::Other);

    assert_eq!(config.prism.network.relay.mode, RelayMode::Async);
    assert_eq!(config.prism.network.relay.label(), "async");
    assert_eq!(config.prism.requested_relay.mode, RelayMode::IoUring);
    let socket = &config.prism.network.socket;
    assert!(!socket.multipath_tcp && !socket.tcp_quickack && !socket.tcp_fastopen && !socket.reuse_port);
    assert_eq!(socket.ip_tos, None);
    assert_eq!(socket.congestion_control, None);
    assert_eq!(socket.bind_interface, None);
    assert_eq!(socket.fwmark, None);
    assert!(socket.tcp_nodelay);
    assert_eq!(socket.listen_addr, "127.0.0.1:25565");
}

#[test]
fn canonicalize_on_linux() {
    let mut accelerated = config(RelayMode::Splice);
    canonicalize_runtime_config(&mut accelerated, TargetPlatform::Linux { accelerated: true });
    assert_eq!(accelerated.prism.network.relay.mode, RelayMode::Splice);
    assert!(accelerated.prism.network.socket.multipath_tcp);
    assert_eq!(accelerated.prism.requested_relay.mode, RelayMode::Async);

    let mut plain = config(RelayMode::Splice);
    canonicalize_runtime_config(&mut plain, TargetPlatform::Linux { accelerated: false });
    assert_eq!(plain.prism.network.relay.mode, RelayMode::Async);
    assert_eq!(plain.prism.requested_relay.mode, RelayMode::Splice);
    assert!(!plain.prism.network.socket.multipath_tcp);
    assert!(plain.prism.network.socket.tcp_quickack);
}

#[test]
fn canonicalize_is_idempotent() {
    let mut once = config(RelayMode::IoUring);
    canonicalize_runtime_config(&mut once, TargetPlatform::Other);
    let mut twice = once.clone();
    canonicalize_runtime_config(&mut twice, TargetPlatform::Other);
    assert_eq!(twice.prism.requested_relay, once.prism.requested_relay);
    assert_eq!(twice.prism.network.relay, once.prism.network.relay);
}

#[test]
fn canonicalize_fills_entry_node_key_for_http() {
    let mut config = config(RelayMode::Async);
    config.api.mode = ApiMode::Http;
    canonicalize_runtime_config(&mut config, TargetPlatform::Linux { accelerated: true });
    assert_eq!(config.api.entry_node_key.as_deref(), Some("default"));

    let mut keyed = self::config(RelayMode::Async);
    keyed.api.mode = ApiMode::Http;
    keyed.api.entry_node_key = Some("eu".to_string());
    canonicalize_runtime_config(&mut keyed, TargetPlatform::Other);
    assert_eq!(keyed.api.entry_node_key.as_deref(), Some("eu"));

    let mut mock = self::config(RelayMode::Async);
    canonicalize_runtime_config(&mut mock, TargetPlatform::Other);
    assert_eq!(mock.api.entry_node_key, None);
}

#[test]
fn validation_order_and_messages() {
    assert!(validate_config(&config(RelayMode::Async)).is_ok());

    let mut c = config(RelayMode::Async);
    c.prism.network.socket.listen_addr.clear();
    assert_eq!(validate_config(&c).unwrap_err().message(), "network.socket.listen_addr cannot be empty");

    let mut c = config(RelayMode::Async);
    c.prism.motd.local_json.clear();
    assert_eq!(validate_config(&c).unwrap_err().message(), "motd.local_json cannot be empty");

    let mut c = config(RelayMode::Async);
    c.prism.motd.local_json = "{not json".to_string();
    assert!(matches!(validate_config(&c), Err(ConfigValidationError::InvalidLocalJson(_))));

    let mut c = config(RelayMode::Async);
    c.prism.motd.upstream_addr.clear();
    assert_eq!(validate_config(&c).unwrap_err().message(), "motd.upstream_addr cannot be empty");

    let mut c = config(RelayMode::Async);
    c.api.mock_target_addr.clear();
    assert_eq!(validate_config(&c).unwrap_err().message(), "api.mock_target_addr cannot be empty");

    let mut c = config(RelayMode::Async);
    c.api.mode = ApiMode::Http;
    assert_eq!(
        validate_config(&c).unwrap_err().message(),
        "api.base_url is required when api.mode is \"http\""
    );

    let mut c = config(RelayMode::Async);
    c.prism.motd.favicon.mode = MotdFaviconMode::Path;
    assert_eq!(
        validate_config(&c).unwrap_err().message(),
        "motd.favicon.path is required when motd.favicon.mode is \"path\""
    );
}

#[test]
fn validate_requires_http_base_url_in_assembled_config() {
    let api = ApiConfig { mode: ApiMode::Http, ..ApiConfig::default() };
    assert!(matches!(
        ConfigLoader::assemble(core_settings(RelayMode::Async), Some(api), "test"),
        Err(ConfigValidationError::HttpRequiresBaseUrl)
    ));
    let loaded = ConfigLoader::assemble(core_settings(RelayMode::Async), None, "dir/config.toml").unwrap();
    assert_eq!(loaded.prism.source_path, "dir/config.toml");
    assert_eq!(loaded.api.mode, ApiMode::Mock);
    assert_eq!(loaded.api.mock_connection_id_prefix, "PRSM");
}

#[test]
fn default_toml_framing() {
    assert_eq!(
        ConfigLoader::render_default_toml("[logging]\nlevel = \"info\"\n"),
        "#:schema ./config.schema.json\n\n[logging]\nlevel = \"info\"\n"
    );
}

#[test]
fn api_defaults() {
    let api = ApiConfig::default();
    assert_eq!(api.mode, ApiMode::Mock);
    assert_eq!((api.timeout_ms, api.traffic_interval_ms), (5000, 5000));
    assert_eq!(api.mock_target_addr, "127.0.0.1:25565");
    let service = ServiceApiConfig::default();
    assert_eq!(service.mode, ServiceApiMode::Mock);
    assert_eq!((service.timeout_ms, service.traffic_interval_ms), (3000, 5000));
    assert_eq!(service.mock_target_addr, "mc.hypixel.net:25565");
    assert_eq!(service.mock_connection_id_prefix, "debug");
    let file_api = FileApiConfig::default();
    assert_eq!(file_api.mock_connection_id_prefix, "PRSM");
    assert_eq!(FileRelayConfig::default().mode, RelayMode::Async);
}

#[test]
fn file_config_converts_field_by_field() {
    let s = socket();
    let file = FileConfig {
        network: FileNetworkConfig {
            socket: FileNetworkSocketConfig {
                listen_addr: s.listen_addr.clone(),
                multipath_tcp: s.multipath_tcp,
                first_packet_timeout_ms: 1234,
                tcp_nodelay: s.tcp_nodelay,
                tcp_keepalive: s.tcp_keepalive,
                keepalive_secs: s.keepalive_secs,
                recv_buffer_size: Some(4096),
                send_buffer_size: None,
                reuse_address: s.reuse_address,
                reuse_port: s.reuse_port,
                listen_backlog: 77,
                tcp_fastopen: s.tcp_fastopen,
                tcp_fastopen_queue: s.tcp_fastopen_queue,
                tcp_quickack: s.tcp_quickack,
                ip_tos: s.ip_tos,
                congestion_control: s.congestion_control.clone(),
                bind_interface: s.bind_interface.clone(),
                fwmark: s.fwmark,
            },
            relay: FileRelayConfig { mode: RelayMode::Splice },
        },
        motd: FileMotdConfig {
            mode: MotdMode::Upstream,
            local_json: "{}".to_string(),
            upstream_addr: "up:1".to_string(),
            protocol: 763,
            ping_mode: StatusPingMode::Passthrough,
            ping_target_addr: Some("ping:2".to_string()),
            upstream_ping_timeout_ms: 900,
            favicon: FileMotdFaviconConfig {
                mode: MotdFaviconMode::Path,
                path: Some("icon.png".to_string()),
                target_addr: None,
            },
        },
        api: FileApiConfig::default(),
        logging: FileLoggingConfig {
            level: LogLevel::Debug,
            format: LogFormat::Json,
            async_enabled: true,
            stats_log_interval_secs: Some(42),
            file: Some(FileLogFileConfig {
                path: "proxy.log".to_string(),
                mode: LogRotation::Compress,
                archive_pattern: "proxy-%Y.log".to_string(),
            }),
        },
    };
    let config = NecronPrismConfig::from(file);
    assert_eq!(config.prism.network.socket.first_packet_timeout_ms, 1234);
    assert_eq!(config.prism.network.socket.listen_backlog, 77);
    assert_eq!(config.prism.network.socket.recv_buffer_size, Some(4096));
    assert_eq!(config.prism.network.socket.tcp_notsent_lowat, None);
    assert_eq!(config.prism.network.relay.mode, RelayMode::Splice);
    assert_eq!(config.prism.requested_relay.mode, RelayMode::Async);
    assert_eq!(config.prism.motd.protocol, 763);
    assert_eq!(config.prism.motd.ping_target_addr.as_deref(), Some("ping:2"));
    assert_eq!(config.prism.motd.favicon.path.as_deref(), Some("icon.png"));
    assert_eq!(config.prism.logging.stats_log_interval_secs, Some(42));
    assert_eq!(config.prism.logging.file.as_ref().unwrap().mode, LogRotation::Compress);
    assert_eq!(config.prism.source_path, "");
    assert_eq!(config.api.mock_target_addr, "127.0.0.1:25565");
}

#[test]
fn relay_mode_labels() {
    assert_eq!(RelayMode::Async.label(), "async");
    assert_eq!(RelayMode::Splice.label(), "splice");
    assert_eq!(RelayConfig { mode: RelayMode::IoUring }.label(), "io_uring");
}

fn warning_pairs(config: &NecronPrismConfig, platform: TargetPlatform) -> Vec<(String, String)> {
    canonicalize_warnings(config, platform).into_iter().map(|w| (w.option, w.reason)).collect()
}

#[test]
fn canonicalize_reports_what_it_switches_off() {
    let mut c = config(RelayMode::Splice);
    c.api.mode = ApiMode::Http;
    c.api.entry_node_key = None;
    let off_linux = warning_pairs(&c, TargetPlatform::Other);
    let options: Vec<&str> = off_linux.iter().map(|(o, _)| o.as_str()).collect();
    assert_eq!(
        options,
        vec![
            "network.relay.mode",
            "network.socket.multipath_tcp",
            "network.socket.tcp_quickack",
            "network.socket.ip_tos",
            "network.socket.congestion_control",
            "network.socket.bind_interface",
            "network.socket.fwmark",
            "network.socket.tcp_fastopen",
            "network.socket.reuse_port",
            "api.entry_node_key",
        ]
    );
    assert_eq!(off_linux[0].1, "splice is only available on Linux");
    assert_eq!(off_linux[8].1, "SO_REUSEPORT is only available on Linux/Unix");
    assert_eq!(off_linux[9].1, "ENTRY_NODE_KEY should be specific when API_MODE is HTTP");
    let plain = warning_pairs(&c, TargetPlatform::Linux { accelerated: false });
    assert_eq!(
        plain,
        vec![
            (
                "network.relay.mode".to_string(),
                "splice requires the linux-accel feature (compiled without it)".to_string()
            ),
            (
                "network.socket.multipath_tcp".to_string(),
                "MPTCP requires the linux-accel feature (compiled without it)".to_string()
            ),
            (
                "api.entry_node_key".to_string(),
                "ENTRY_NODE_KEY should be specific when API_MODE is HTTP".to_string()
            ),
        ]
    );
    assert!(warning_pairs(&config(RelayMode::Async), TargetPlatform::Linux { accelerated: true }).is_empty());
    // Once narrowed, nothing is left to report.
    let mut narrowed = c;
    canonicalize_runtime_config(&mut narrowed, TargetPlatform::Other);
    assert!(warning_pairs(&narrowed, TargetPlatform::Other).is_empty());
}
