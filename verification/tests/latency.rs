use necron_prism::config::runtime::{MotdConfig, MotdFaviconConfig};
use necron_prism::motd::latency::{ping_target_addr, rewrite_addr, LatencyNeeds};
use necron_prism::proxy::config::types::{MotdFaviconMode, MotdMode, StatusPingMode};

fn motd_config(mode: MotdMode, local_json: &str) -> MotdConfig {
    MotdConfig {
        mode,
        local_json: local_json.to_owned(),
        upstream_addr: "127.0.0.1:25565".to_owned(),
        protocol: -1,
        ping_mode: StatusPingMode::ZeroMs,
        ping_target_addr: None,
        upstream_ping_timeout_ms: 3000,
        favicon: MotdFaviconConfig { mode: MotdFaviconMode::Json, path: None, target_addr: None },
    }
}

#[test]
fn latency_needs_skip_probe_without_latency_placeholders() {
    let config = motd_config(MotdMode::Local, "{\"description\":{\"text\":\"plain motd\"}}");

    let needs = LatencyNeeds::for_config(&config);

    assert!(!needs.client);
    assert!(!needs.upstream);
}

#[test]
fn latency_needs_total_placeholder_uses_client_and_upstream() {
    let config = motd_config(MotdMode::Local, "{\"description\":{\"text\":\"{total_latency}\"}}");

    let needs = LatencyNeeds::for_config(&config);

    assert!(needs.client);
    assert!(needs.upstream);
}

#[test]
fn latency_needs_ignore_upstream_mode_template() {
    let config = motd_config(MotdMode::Upstream, "{\"description\":{\"text\":\"{total_latency}\"}}");

    let needs = LatencyNeeds::for_config(&config);

    assert!(!needs.client);
    assert!(!needs.upstream);
}

#[test]
fn latency_needs_individual_placeholders() {
    let config = motd_config(
        MotdMode::Local,
        "{\"description\":{\"text\":\"{client_latency} {upstream_latency}\"}}",
    );

    let needs = LatencyNeeds::for_config(&config);

    assert!(needs.client);
    assert!(needs.upstream);
}

#[test]
fn latency_needs_one_side_only() {
    let config = motd_config(MotdMode::Local, "{client_latency}");
    assert_eq!(LatencyNeeds::for_config(&config), LatencyNeeds { client: true, upstream: false });
    let config = motd_config(MotdMode::Local, "x{upstream_latency}");
    assert_eq!(LatencyNeeds::for_config(&config), LatencyNeeds { client: false, upstream: true });
}

#[test]
fn latency_probe_addresses() {
    let mut config = motd_config(MotdMode::Local, "{}");
    assert_eq!(ping_target_addr(&config), "127.0.0.1:25565");
    config.ping_target_addr = Some("ping.example:25570".to_owned());
    assert_eq!(ping_target_addr(&config), "ping.example:25570");
    assert_eq!(rewrite_addr(&config), "127.0.0.1:25565");
}
