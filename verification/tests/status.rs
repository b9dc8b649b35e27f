use necron_prism::proxy::motd::cache::{FaviconCache, StatusCache};
use necron_prism::json::{JsonMember, JsonValue};
use necron_prism::motd::latency::{
    finish_measure, measure, LatencyNeeds, MeasureStep, TemplateLatency, UpstreamLatencyCache,
    UpstreamLatencyCacheKey,
};
use necron_prism::motd::legacy::{
    extract_legacy_text as extract_description_json, legacy_text_from as extract_description_text,
    LegacyTextExtractor,
};
use necron_prism::proxy::config::types::{
    MotdConfig, MotdFaviconConfig, MotdFaviconMode, MotdMode, MotdProtocolMode, StatusPingMode,
};
use necron_prism::proxy::motd::context::{StatusContext, StatusOutcome};
use necron_prism::proxy::motd::favicon::{encode_base64, favicon_data_url};
use necron_prism::proxy::motd::legacy::{
    encode_legacy_response, extract_legacy_text, extract_port, legacy_text_from, upstream_status_request,
};
use necron_prism::proxy::config::normalizer::normalize_addr;
use necron_prism::proxy::motd::rewrite::{
    apply_rewrite, format_text, normalize_minecraft_formatting, rewrite_json, rewrite_parsed_json, rewrite_plan,
    RewritePlan,
};

fn text(s: &str) -> JsonValue {
    JsonValue::Text(s.to_string())
}

fn object(members: Vec<(&str, JsonValue)>) -> JsonValue {
    JsonValue::Object(
        members
            .into_iter()
            .map(|(key, value)| JsonMember { key: key.to_string(), value })
            .collect(),
    )
}

fn get<'a>(value: &'a JsonValue, key: &str) -> Option<&'a JsonValue> {
    match value {
        JsonValue::Object(members) => members.iter().find(|m| m.key == key).map(|m| &m.value),
        _ => None,
    }
}

fn as_text(value: Option<&JsonValue>) -> Option<&str> {
    match value {
        Some(JsonValue::Text(t)) => Some(t.as_str()),
        _ => None,
    }
}

#[test]
fn legacy_response_bytes() {
    assert_eq!(encode_legacy_response("A"), vec![0xFF, 0, 1, 0, 0x41]);
    assert_eq!(encode_legacy_response(""), vec![0xFF, 0, 0]);
    assert_eq!(encode_legacy_response("§"), vec![0xFF, 0, 1, 0x00, 0xA7]);
    assert_eq!(
        encode_legacy_response("\u{1F600}"),
        vec![0xFF, 0, 2, 0xD8, 0x3D, 0xDE, 0x00]
    );
}

#[test]
fn ports_of_addresses() {
    assert_eq!(extract_port("example.com:25566"), Some(25566));
    assert_eq!(extract_port("[::1]:80"), Some(80));
    assert_eq!(extract_port("[::1]"), None);
    assert_eq!(extract_port("example.com"), None);
    assert_eq!(extract_port("a:b:7"), Some(7));
    assert_eq!(extract_port("host:99999"), None);
}

#[test]
fn normalized_addresses_give_their_port_back() {
    for (target, port) in [
        ("mc.example.com", 25565),
        ("mc.example.com:1234", 1234),
        ("[::1]", 25565),
        ("[::1]:7", 7),
        ("127.0.0.1:0", 0),
        ("host:65535", 65535),
    ] {
        let addr = normalize_addr(target, 25565).unwrap();
        assert_eq!(extract_port(&addr), Some(port));
    }
}

#[test]
fn formatting_codes() {
    assert_eq!(format_text("&aHello &Lworld"), "§aHello §lworld");
    assert_eq!(format_text("Tom & Jerry"), "Tom & Jerry");
    assert_eq!(format_text("&&a"), "&§a");
    assert_eq!(format_text("ends with &"), "ends with &");
    assert_eq!(format_text("&g &R"), "&g §r");
    let once = format_text("&&a&&&b&z");
    assert_eq!(format_text(&once), once);
}

#[test]
fn formatting_walks_the_tree() {
    let mut value = object(vec![
        ("description", object(vec![("text", text("&6Gold")), ("extra", JsonValue::Array(vec![text("&kx")]))])),
        ("count", JsonValue::Number("3".to_string())),
    ]);
    normalize_minecraft_formatting(&mut value);
    let description = get(&value, "description").unwrap();
    assert_eq!(as_text(get(description, "text")), Some("§6Gold"));
    match get(description, "extra") {
        Some(JsonValue::Array(items)) => assert_eq!(as_text(items.first()), Some("§kx")),
        other => panic!("unexpected {other:?}"),
    }
    match get(&value, "count") {
        Some(JsonValue::Number(n)) => assert_eq!(n, "3"),
        other => panic!("unexpected {other:?}"),
    }
}

#[test]
fn plan_decisions() {
    let plan = rewrite_plan("{}", MotdProtocolMode::Client, -1, MotdFaviconMode::Json, false, false);
    assert!(plan.is_noop());
    let plan = rewrite_plan("{\"a\":\"&a\"}", MotdProtocolMode::Client, 763, MotdFaviconMode::Remove, false, false);
    assert_eq!(plan, RewritePlan { formatting: true, protocol: Some(763), favicon: true });
    let plan = rewrite_plan("{}", MotdProtocolMode::Fixed(47), -1, MotdFaviconMode::Passthrough, false, true);
    assert_eq!(plan, RewritePlan { formatting: false, protocol: Some(47), favicon: true });
    let plan = rewrite_plan("{}", MotdProtocolMode::NegativeOne, 763, MotdFaviconMode::Path, false, false);
    assert_eq!(plan, RewritePlan { formatting: false, protocol: Some(-1), favicon: false });
}

#[test]
fn rewrite_sets_protocol_and_icon() {
    let value = object(vec![
        ("version", object(vec![("name", text("1.20")), ("protocol", JsonValue::Number("1".to_string()))])),
        ("favicon", text("old")),
    ]);
    let plan = RewritePlan { formatting: false, protocol: Some(763), favicon: true };
    let rewritten = apply_rewrite(value, &plan, MotdFaviconMode::Path, Some("data:image/png;base64,AA=="), None);
    let version = get(&rewritten, "version").unwrap();
    assert_eq!(as_text(get(version, "name")), Some("1.20"));
    match get(version, "protocol") {
        Some(JsonValue::Number(n)) => assert_eq!(n, "763"),
        other => panic!("unexpected {other:?}"),
    }
    assert_eq!(as_text(get(&rewritten, "favicon")), Some("data:image/png;base64,AA=="));

    let plan = RewritePlan { formatting: false, protocol: None, favicon: true };
    let removed = apply_rewrite(rewritten, &plan, MotdFaviconMode::Remove, None, None);
    assert!(get(&removed, "favicon").is_none());

    let source = object(vec![("favicon", text("upstream-icon"))]);
    let passed = apply_rewrite(text("not an object"), &plan, MotdFaviconMode::Passthrough, None, Some(&source));
    assert_eq!(as_text(get(&passed, "favicon")), Some("upstream-icon"));

    let plan = RewritePlan { formatting: false, protocol: Some(-1), favicon: false };
    let fresh = apply_rewrite(JsonValue::Null, &plan, MotdFaviconMode::Json, None, None);
    match get(get(&fresh, "version").unwrap(), "protocol") {
        Some(JsonValue::Number(n)) => assert_eq!(n, "-1"),
        other => panic!("unexpected {other:?}"),
    }
}

fn icon_settings(mode: MotdFaviconMode) -> MotdFaviconConfig {
    MotdFaviconConfig { mode, path: None, target_addr: None }
}

#[test]
fn rewrite_json_decides_when_to_rewrite() {
    let json_icons = icon_settings(MotdFaviconMode::Json);
    let parsed = object(vec![("description", text("&aHi"))]);
    // Nothing asks for a rewrite: the text goes out as it came.
    assert!(rewrite_parsed_json("{}", Some(object(vec![])), MotdProtocolMode::Client, -1, &json_icons, None, None, None).is_none());
    // A rewrite is asked for, but the text does not parse.
    assert!(rewrite_parsed_json("{&", None, MotdProtocolMode::Client, -1, &json_icons, None, None, None).is_none());
    // Formatting and the protocol number.
    let raw = "{\"description\":\"&aHi\"}";
    let out = rewrite_parsed_json(raw, Some(parsed), MotdProtocolMode::Fixed(47), -1, &json_icons, None, None, None).unwrap();
    assert_eq!(as_text(get(&out, "description")), Some("§aHi"));
    match get(get(&out, "version").unwrap(), "protocol") {
        Some(JsonValue::Number(n)) => assert_eq!(n, "47"),
        other => panic!("unexpected {other:?}"),
    }
    // The upstream's icon is passed through.
    let passthrough = icon_settings(MotdFaviconMode::Passthrough);
    let source = object(vec![("favicon", text("up"))]);
    let out = rewrite_parsed_json(
        "{}",
        Some(object(vec![])),
        MotdProtocolMode::Client,
        -1,
        &passthrough,
        None,
        Some("{\"favicon\":\"up\"}"),
        Some(&source),
    )
    .unwrap();
    assert_eq!(as_text(get(&out, "favicon")), Some("up"));
    assert!(get(&out, "version").is_none());
}

#[test]
fn legacy_text_of_status() {
    let status = object(vec![("description", object(vec![("text", text("Hello"))]))]);
    assert_eq!(legacy_text_from(Some(&status), "raw"), "Hello");
    assert_eq!(legacy_text_from(None, "raw"), "raw");
    let no_text = object(vec![("description", text("plain"))]);
    assert_eq!(legacy_text_from(Some(&no_text), "raw"), "raw");

    let component = object(vec![
        ("text", text("A")),
        ("extra", JsonValue::Array(vec![text("B"), object(vec![("text", text("C"))])])),
    ]);
    assert_eq!(LegacyTextExtractor::extract(&component), "ABC");
    let status = object(vec![("description", component)]);
    assert_eq!(extract_description_text(Some(&status), "raw"), "ABC");
    assert_eq!(extract_description_text(Some(&JsonValue::Bool(true)), "raw"), "raw");
}

fn motd_config() -> MotdConfig {
    MotdConfig::default()
}

#[test]
fn status_context_decisions() {
    let mut config = motd_config();
    config.mode = MotdMode::Local;
    config.upstream_addr = Some("up:25565".to_string());
    config.ping.target_addr = None;
    config.favicon.mode = MotdFaviconMode::Json;
    config.ping_mode = StatusPingMode::ZeroMs;
    let context = StatusContext::new(&config);
    assert_eq!(context.upstream_target_addr(), None);
    assert_eq!(context.ping_target_addr(), Some("up:25565"));
    assert_eq!(context.rewrite_addr("target:1"), "up:25565");
    assert!(!context.status_response_needs_upstream());

    config.ping_mode = StatusPingMode::Passthrough;
    config.ping.target_addr = Some("ping:1".to_string());
    let context = StatusContext::new(&config);
    assert_eq!(context.upstream_target_addr(), Some("ping:1"));
    assert!(context.needs_upstream_ping());

    config.favicon.mode = MotdFaviconMode::Passthrough;
    config.favicon.target_addr = Some("icon:2".to_string());
    let context = StatusContext::new(&config);
    assert_eq!(context.upstream_target_addr(), Some("icon:2"));
    assert!(context.status_response_needs_upstream());

    config.mode = MotdMode::Upstream;
    config.upstream_addr = Some(String::new());
    let context = StatusContext::new(&config);
    assert_eq!(context.upstream_target_addr(), Some(""));
    assert_eq!(context.rewrite_addr("target:1"), "target:1");

    let outcome = StatusOutcome::default();
    assert_eq!(outcome.pong_payload, None);
    assert_eq!(outcome.ping_request_bytes, 0);
}

#[test]
fn icon_data_url() {
    assert_eq!(favicon_data_url("icon.png", b"hi"), "data:image/png;base64,aGk=");
    assert_eq!(favicon_data_url("icon", &[]), "data:application/octet-stream;base64,");
}

fn key(target: &str, rewrite: &str) -> UpstreamLatencyCacheKey {
    UpstreamLatencyCacheKey { target_addr: target.to_string(), rewrite_addr: rewrite.to_string() }
}

#[test]
fn latency_cache_read_after_write() {
    let mut cache = UpstreamLatencyCache::new();
    assert_eq!(cache.cached_upstream_latency(&key("a", "b"), 0), None);
    cache.store_upstream_latency(key("a", "b"), Some(12), 1_000);
    cache.store_upstream_latency(key("a", "c"), None, 1_000);
    assert_eq!(cache.cached_upstream_latency(&key("a", "b"), 1_000), Some(Some(12)));
    assert_eq!(cache.cached_upstream_latency(&key("a", "b"), 10_999), Some(Some(12)));
    assert_eq!(cache.cached_upstream_latency(&key("a", "b"), 11_000), None);
    assert_eq!(cache.cached_upstream_latency(&key("a", "c"), 2_000), Some(None));
    cache.store_upstream_latency(key("a", "b"), Some(30), 20_000);
    assert_eq!(cache.cached_upstream_latency(&key("a", "b"), 20_001), Some(Some(30)));
    assert_eq!(cache.cached_upstream_latency(&key("a", "c"), 20_001), None);
}

#[test]
fn measuring_reuses_recent_probes() {
    let both = LatencyNeeds { client: true, upstream: true };
    let mut cache = UpstreamLatencyCache::new();
    // Only the client's round trip is shown.
    let only_client = LatencyNeeds { client: true, upstream: false };
    match measure(only_client, Some(5), Some("up:25565"), Some("up:25565"), &cache, 0) {
        MeasureStep::Done(l) => assert_eq!(l, TemplateLatency { client_rtt_ms: Some(5), upstream_ping_ms: None }),
        MeasureStep::Probe(_) => panic!("no probe expected"),
    }
    // No valid target: nothing to probe.
    match measure(both, Some(5), None, Some("up:25565"), &cache, 0) {
        MeasureStep::Done(l) => assert_eq!(l, TemplateLatency { client_rtt_ms: Some(5), upstream_ping_ms: None }),
        MeasureStep::Probe(_) => panic!("no probe expected"),
    }
    // A fresh cache asks for a probe; its outcome is then reused.
    let probe_key = match measure(both, None, Some("up:25565"), Some("mc:25565"), &cache, 100) {
        MeasureStep::Probe(k) => k,
        MeasureStep::Done(_) => panic!("probe expected"),
    };
    assert_eq!(probe_key.target_addr, "up:25565");
    assert_eq!(probe_key.rewrite_addr, "mc:25565");
    let done = finish_measure(&mut cache, probe_key, Some(42), both, None, 100);
    assert_eq!(done, TemplateLatency { client_rtt_ms: None, upstream_ping_ms: Some(42) });
    let hidden = LatencyNeeds { client: false, upstream: true };
    match measure(hidden, Some(9), Some("up:25565"), Some("mc:25565"), &cache, 5_000) {
        MeasureStep::Done(l) => assert_eq!(l, TemplateLatency { client_rtt_ms: None, upstream_ping_ms: Some(42) }),
        MeasureStep::Probe(_) => panic!("cached value expected"),
    }
    match measure(both, Some(9), Some("up:25565"), Some("mc:25565"), &cache, 10_100) {
        MeasureStep::Probe(_) => {}
        MeasureStep::Done(_) => panic!("the cached value has expired"),
    }
}

#[test]
fn legacy_ping_asks_the_upstream_for_its_status() {
    let request = upstream_status_request("mc.example:25566").unwrap();
    let mut payload = vec![0x00, 0xFB, 0x05, 16];
    payload.extend_from_slice(b"mc.example:25566");
    payload.extend_from_slice(&[0x63, 0xDE, 0x01]);
    let mut expected = vec![payload.len() as u8];
    expected.extend_from_slice(&payload);
    expected.extend_from_slice(&[1, 0]);
    assert_eq!(request, expected);
    // Without a port the default one is asked for.
    let request = upstream_status_request("mc.example").unwrap();
    let n = request.len();
    assert_eq!(&request[n - 5..], &[0x63, 0xDD, 0x01, 1, 0]);
}

#[test]
fn status_cache_expires_and_evicts() {
    let mut cache = StatusCache::new();
    assert_eq!(cache.read("up:1", "mc:1", 1_000, 0), None);
    cache.write_arc("up:1", "mc:1", "{\"a\":1}", 5_000);
    assert_eq!(cache.read("up:1", "mc:1", 1_000, 6_000).as_deref(), Some("{\"a\":1}"));
    assert_eq!(cache.read("up:1", "other", 1_000, 6_000), None);
    // Stale: dropped, and gone even for a longer time to live.
    assert_eq!(cache.read("up:1", "mc:1", 1_000, 6_001), None);
    assert_eq!(cache.read("up:1", "mc:1", 1_000_000, 6_001), None);
    // The 101st upstream pushes out the least recently used one.
    for i in 0..100 {
        cache.write_arc(&format!("up:{i}"), "mc", "{}", 0);
    }
    assert!(cache.read("up:0", "mc", 10, 0).is_some());
    cache.write_arc("up:100", "mc", "{}", 0);
    assert!(cache.read("up:1", "mc", 10, 0).is_none());
    assert!(cache.read("up:0", "mc", 10, 0).is_some());
    assert!(cache.read("up:100", "mc", 10, 0).is_some());
}

#[test]
fn favicon_cache_follows_the_file() {
    let mut cache = FaviconCache::new();
    assert_eq!(cache.cached_data_url("icon.png", 1, 10), None);
    cache.store_data_url("icon.png", 1, 10, "data:image/png;base64,AA==");
    assert_eq!(cache.cached_data_url("icon.png", 1, 10).as_deref(), Some("data:image/png;base64,AA=="));
    // The file changed: the entry is dropped.
    assert_eq!(cache.cached_data_url("icon.png", 2, 10), None);
    assert_eq!(cache.cached_data_url("icon.png", 1, 10), None);
    for i in 0..51 {
        cache.store_data_url(&format!("{i}.png"), 0, 0, "x");
    }
    assert_eq!(cache.cached_data_url("0.png", 0, 0), None);
    assert_eq!(cache.cached_data_url("50.png", 0, 0).as_deref(), Some("x"));
}

#[test]
fn status_json_text_is_rewritten() {
    let icons = icon_settings(MotdFaviconMode::Json);
    // Nothing to do: the text goes out unchanged, spacing included.
    assert_eq!(rewrite_json("{ }", MotdProtocolMode::Client, -1, &icons, None, None), "{ }");
    // Not JSON: unchanged.
    assert_eq!(rewrite_json("{&", MotdProtocolMode::Fixed(5), -1, &icons, None, None), "{&");
    let out = rewrite_json(
        "{\"description\":\"&aHi\",\"version\":{\"name\":\"x\",\"protocol\":1}}",
        MotdProtocolMode::Fixed(47),
        -1,
        &icons,
        None,
        None,
    );
    assert_eq!(out, "{\"description\":\"§aHi\",\"version\":{\"name\":\"x\",\"protocol\":47}}");
    let passthrough = icon_settings(MotdFaviconMode::Passthrough);
    let out = rewrite_json("{}", MotdProtocolMode::Client, -1, &passthrough, None, Some("{\"favicon\":\"up\"}"));
    assert_eq!(out, "{\"favicon\":\"up\"}");
}

#[test]
fn legacy_text_of_status_json() {
    assert_eq!(extract_legacy_text("{\"description\":{\"text\":\"Hi\"}}"), "Hi");
    assert_eq!(extract_legacy_text("not json"), "not json");
    assert_eq!(extract_legacy_text("{\"description\":\"plain\"}"), "{\"description\":\"plain\"}");
    assert_eq!(extract_description_json("{\"description\":{\"text\":\"A\",\"extra\":[\"B\"]}}"), "AB");
    assert_eq!(extract_description_json("[]"), "[]");
}

#[test]
fn base64_matches_the_standard_engine() {
    let mut data: Vec<u8> = Vec::new();
    for n in 0..40u32 {
        assert_eq!(
            encode_base64(&data),
            base64::Engine::encode(&base64::engine::general_purpose::STANDARD, &data)
        );
        data.push((n * 37 + 11) as u8);
    }
    assert_eq!(encode_base64(&[0xFF, 0xFE, 0xFD, 0x00]), "//79AA==");
}
