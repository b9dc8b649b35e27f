use necron_prism::proxy::config::checker::ConfigChecker;
use necron_prism::proxy::config::default::ConfigDefaults;
use necron_prism::proxy::config::loader::ConfigLoader;
use necron_prism::proxy::config::normalizer::{normalize_addr, trim_end_char, ConfigNormalizer};
use necron_prism::proxy::config::schema_types::{
    ApiModeLiteral, ConfigFile, MotdFaviconModeLiteral, MotdModeLiteral, RelayModeLiteral,
};
use necron_prism::proxy::config::types::{
    ApiConfig, ApiMode, Config, ConfigError, MotdFaviconMode, MotdMode, MotdProtocolMode,
    RelayConfig, RelayDataMode, StatusPingMode,
};

#[test]
fn test_validate_requires_http_base_url() {
    let config = Config {
        api: ApiConfig {
            mode: ApiMode::Http,
            base_url: None,
            ..Default::default()
        },
        ..Default::default()
    };
    assert!(config.validate().is_err());
}

#[test]
fn tests_validate_requires_http_base_url() {
    let config = Config {
        api: ApiConfig {
            mode: ApiMode::Http,
            base_url: None,
            ..Default::default()
        },
        ..Default::default()
    };
    assert!(config.validate().is_err());
}

#[test]
fn relay_label_matrix() {
    let cases = [
        (RelayDataMode::Async, false, "async"),
        (RelayDataMode::Async, true, "async+io_uring"),
        (RelayDataMode::Splice, false, "splice"),
        (RelayDataMode::Splice, true, "splice+io_uring"),
    ];

    for (mode, io_uring, expected) in cases {
        let relay = RelayConfig { mode, io_uring };
        assert_eq!(relay.label(), expected);
    }
}

#[test]
fn default_config_is_valid() {
    let config = Config::default();
    assert!(config.validate().is_ok());
    assert_eq!(config.transport.motd.mode, MotdMode::Local);
    assert_eq!(config.api.mode, ApiMode::Mock);
}

#[test]
fn checker_reports_each_rule() {
    let mut config = Config::default();
    config.api.base_url = Some("http://api".to_string());
    assert_eq!(ConfigChecker::new().validate(&config), Err(ConfigError::MockForbidsBaseUrl));

    let mut config = Config::default();
    config.transport.motd.mode = MotdMode::Upstream;
    config.transport.motd.upstream_addr = None;
    assert_eq!(config.validate(), Err(ConfigError::UpstreamMotdRequiresAddr));

    let mut config = Config::default();
    config.transport.motd.upstream_addr = None;
    config.transport.motd.ping_mode = StatusPingMode::Passthrough;
    config.transport.motd.ping.target_addr = None;
    assert_eq!(config.validate(), Err(ConfigError::PassthroughPingRequiresTarget));

    let mut config = Config::default();
    config.transport.motd.favicon.mode = MotdFaviconMode::Path;
    config.transport.motd.favicon.path = None;
    assert_eq!(config.validate(), Err(ConfigError::PathFaviconRequiresPath));

    let mut config = Config::default();
    config.transport.motd.upstream_addr = None;
    config.transport.motd.ping_mode = StatusPingMode::ZeroMs;
    config.transport.motd.favicon.mode = MotdFaviconMode::Passthrough;
    config.transport.motd.favicon.target_addr = None;
    assert_eq!(config.validate(), Err(ConfigError::PassthroughFaviconRequiresTarget));

    let mut config = Config::default();
    config.api.mock.connection_id_prefix = String::new();
    assert_eq!(config.validate(), Err(ConfigError::MockRequiresConnectionIdPrefix));

    assert_eq!(
        ConfigError::HttpRequiresBaseUrl.message(),
        "#:schema ./config.schema.json\napi.mode=http requires api.base_url"
    );
    assert_eq!(ConfigError::InvalidAddress.message(), "invalid address");
}

#[test]
fn normalize_addr_adds_port_and_brackets() {
    assert_eq!(normalize_addr("127.0.0.1", 25565).unwrap(), "127.0.0.1:25565");
    assert_eq!(normalize_addr("example.com:1234", 25565).unwrap(), "example.com:1234");
    assert_eq!(normalize_addr("[::1]:80", 25565).unwrap(), "[::1]:80");
    assert_eq!(normalize_addr("[::1]", 25565).unwrap(), "[::1]:25565");
    assert_eq!(normalize_addr("bad addr", 25565), Err(ConfigError::InvalidAddress));
}

#[test]
fn trim_end_char_strips_trailing_slashes() {
    assert_eq!(trim_end_char("http://api/v1//", '/'), "http://api/v1");
    assert_eq!(trim_end_char("////", '/'), "");
    assert_eq!(trim_end_char("abc", '/'), "abc");
}

#[test]
fn normalize_fills_defaults() {
    let raw = ConfigFile::default();
    let config = ConfigNormalizer::new()
        .normalize(raw, "dir/config.toml".to_string())
        .unwrap();
    assert_eq!(config.inbound.listen_addr, "0.0.0.0:25565");
    assert_eq!(config.inbound.first_packet_timeout_ms, 5000);
    assert_eq!(config.api.mock.target_addr, "127.0.0.1:25565");
    assert_eq!(config.api.mock.connection_id_prefix, "PRSM");
    assert_eq!(config.transport.motd.upstream_addr.as_deref(), Some("127.0.0.1:25565"));
    assert_eq!(config.source_path, "dir/config.toml");
    assert_eq!(config.relay.mode, RelayDataMode::Async);
    assert!(!config.relay.io_uring);
}

#[test]
fn normalize_maps_literals_and_trims_base_url() {
    let mut raw = ConfigFile::default();
    raw.api.mode = ApiModeLiteral::Http;
    raw.api.base_url = Some("https://api.example/".to_string());
    raw.api.mock.target_addr = Some("127.0.0.1".to_string());
    raw.relay.mode = RelayModeLiteral::Splice;
    raw.relay.io_uring = true;
    raw.transport.motd.mode = MotdModeLiteral::Upstream;
    raw.transport.motd.favicon.mode = MotdFaviconModeLiteral::Remove;
    raw.transport.motd.favicon.path = Some("icon.png".to_string());
    let config = ConfigNormalizer::new()
        .normalize(raw, "conf/config.toml".to_string())
        .unwrap();
    assert_eq!(config.api.mode, ApiMode::Http);
    assert_eq!(config.api.base_url.as_deref(), Some("https://api.example"));
    assert_eq!(config.api.mock.target_addr, "127.0.0.1:25565");
    assert_eq!(config.relay.mode, RelayDataMode::Splice);
    assert!(config.relay.io_uring);
    assert_eq!(config.relay.label(), "splice+io_uring");
    assert_eq!(config.transport.motd.mode, MotdMode::Upstream);
    assert_eq!(config.transport.motd.favicon.mode, MotdFaviconMode::Remove);
    assert_eq!(config.transport.motd.favicon.path.as_deref(), Some("conf/icon.png"));
    assert_eq!(config.transport.motd.protocol_mode, MotdProtocolMode::Client);
}

#[test]
fn normalize_refuses_invalid_address() {
    let mut raw = ConfigFile::default();
    raw.inbound.listen_addr = Some("not an address".to_string());
    assert_eq!(
        ConfigNormalizer::new()
            .normalize(raw, "config.toml".to_string())
            .unwrap_err(),
        ConfigError::InvalidAddress
    );
}

#[test]
fn loader_normalizes_then_checks() {
    let mut raw = ConfigFile::default();
    raw.api.mode = ApiModeLiteral::Http;
    assert_eq!(
        ConfigLoader::load_parsed(raw, "config.toml".to_string()).unwrap_err(),
        ConfigError::HttpRequiresBaseUrl
    );
    let config = ConfigLoader::load_parsed(ConfigFile::default(), "config.toml".to_string()).unwrap();
    assert_eq!(config.inbound.listen_addr, "0.0.0.0:25565");
}

#[test]
fn default_file_starts_with_schema_directive() {
    let rendered = ConfigDefaults::render_toml("[api]\nmode = \"mock\"\n");
    assert_eq!(rendered, "#:schema ./config.schema.json\n\n[api]\nmode = \"mock\"\n");
}

#[test]
fn placeholder_values() {
    assert_eq!(MotdProtocolMode::Fixed(-47).as_placeholder_value(), "-47");
    assert_eq!(MotdProtocolMode::NegativeOne.as_placeholder_value(), "-1");
    assert_eq!(StatusPingMode::ZeroMs.as_placeholder_value(), "0ms");
    assert_eq!(MotdFaviconMode::Passthrough.as_placeholder_value(), "passthrough");
    assert_eq!(MotdMode::Upstream.as_placeholder_value(), "upstream");
}

#[test]
fn favicon_path_is_taken_from_the_config_directory() {
    let mut raw = ConfigFile::default();
    raw.transport.motd.favicon.path = Some("icon.png".to_string());
    let config = ConfigNormalizer::new().normalize(raw, "/etc/prism/config.toml".to_string()).unwrap();
    assert_eq!(config.transport.motd.favicon.path.as_deref(), Some("/etc/prism/icon.png"));
    assert_eq!(config.source_path, "/etc/prism/config.toml");
    let mut raw = ConfigFile::default();
    raw.transport.motd.favicon.path = Some("/abs/icon.png".to_string());
    let config = ConfigNormalizer::new().normalize(raw, "config.toml".to_string()).unwrap();
    assert_eq!(config.transport.motd.favicon.path.as_deref(), Some("/abs/icon.png"));
}
