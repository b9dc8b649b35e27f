use necron_prism::benchmark::cli::{benchmark_kind, normalize_cli_args, BenchmarkKind, CliError, CliMode};
use necron_prism::text::trim_whitespace;
use necron_prism::benchmark::harness::{RelayImplementation, TrafficBurst, TrafficPlan};
use necron_prism::benchmark::scenarios::{
    kernel_stream_plan, pattern_payload, player_session_plan, relay_benchmark_plan,
};

#[test]
fn pattern_payload_cycles_through_251_values() {
    let payload = pattern_payload(600, 0x57);
    assert_eq!(payload.len(), 600);
    assert_eq!(payload[0], 0x57);
    assert_eq!(payload[1], 0x58);
    assert_eq!(payload[250], 0x57u8.wrapping_add(250));
    assert_eq!(payload[251], 0x57);
    assert_eq!(payload[300], 0x57 + 49);
    let wrapped = pattern_payload(200, 0xF0);
    assert_eq!(wrapped[16], 0x00);
}

#[test]
fn plan_totals() {
    let plan = TrafficPlan::new(
        "mixed",
        vec![TrafficBurst::new(vec![1, 2, 3], 4), TrafficBurst::new(vec![9; 10], 2)],
    );
    assert_eq!(plan.label(), "mixed");
    assert_eq!(plan.total_bytes(), 32);
    assert_eq!(plan.bursts()[1].total_bytes(), 20);
    assert_eq!(TrafficPlan::new("empty", Vec::new()).total_bytes(), 0);
}

#[test]
fn benchmark_plans() {
    let kernel = kernel_stream_plan();
    assert_eq!(kernel.label(), "kernel_bulk_stream");
    assert_eq!(kernel.total_bytes(), 64 * 1024 * 1024);
    let session = player_session_plan();
    assert_eq!(session.label(), "session_bulk_stream");
    assert_eq!(session.total_bytes(), 16 * 1024 * 1024);
    let relay = relay_benchmark_plan();
    assert_eq!(relay.label(), "relay_bulk_stream");
    assert_eq!(relay.total_bytes(), 8 * 16 * 1024 + 16 * 256 * 1024);
    assert_eq!(relay.bursts()[0].payload()[0], 0x18);
    assert_eq!(relay.bursts()[1].payload()[0], 0x91);
    assert_ne!(RelayImplementation::Prism, RelayImplementation::Sync);
}

fn cli_args(args: &[&str]) -> Vec<String> {
    args.iter().map(|a| a.to_string()).collect()
}

#[test]
fn benchmark_names() {
    assert_eq!(benchmark_kind("mc"), Some(BenchmarkKind::Mc));
    assert_eq!(benchmark_kind("mc_bench"), Some(BenchmarkKind::Mc));
    assert_eq!(benchmark_kind("kernel_bench"), Some(BenchmarkKind::Kernel));
    assert_eq!(benchmark_kind("relay_compare_bench"), Some(BenchmarkKind::Compare));
    assert_eq!(benchmark_kind("compare"), Some(BenchmarkKind::Compare));
    assert_eq!(benchmark_kind("other"), None);
}

#[test]
fn cli_selection() {
    // The command line overrides the environment; other arguments pass on.
    match normalize_cli_args(Some("kernel"), false, &cli_args(&["--bench", "--benchmark", "  mc ", "-v"])) {
        Ok(CliMode::Reexec { benchmark, forwarded }) => {
            assert_eq!(benchmark, "mc");
            assert_eq!(forwarded, vec![0, 3]);
        }
        other => panic!("unexpected {other:?}"),
    }
    // With the variable set, the benchmark runs here.
    match normalize_cli_args(Some(" compare\n"), true, &cli_args(&[])) {
        Ok(CliMode::Run { benchmark }) => assert_eq!(benchmark, "compare"),
        other => panic!("unexpected {other:?}"),
    }
    assert_eq!(
        normalize_cli_args(None, false, &cli_args(&["--benchmark"])).unwrap_err(),
        CliError::MissingValue
    );
    assert_eq!(
        normalize_cli_args(None, false, &cli_args(&["--benchmark", " \t"])).unwrap_err(),
        CliError::EmptyValue
    );
    assert_eq!(normalize_cli_args(Some("   "), true, &cli_args(&["x"])).unwrap_err(), CliError::MissingSelection);
    assert_eq!(
        CliError::MissingSelection.message(),
        "missing benchmark selection. Set NECRON_BENCHMARK=<mc|kernel|compare> or pass --benchmark <mc|kernel|compare>"
    );
}

#[test]
fn trim_like_std() {
    for text in ["", "  a b  ", "\u{3000}x\u{85}", "\t\n", "none", "\u{200B}z"] {
        assert_eq!(trim_whitespace(text), text.trim());
    }
}
