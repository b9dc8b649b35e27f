//! Narrowing a configuration to what the platform can give: options the
//! platform lacks are switched off, and a relay it cannot run falls back to
//! the portable one while the requested relay is kept on record.
use vstd::prelude::*;
use vstd::string::*;

use super::api::DEFAULT_ENTRY_NODE_KEY;
use super::runtime::{CoreConfig, NetworkConfig, NetworkSocketConfig, RelayConfig, RelayMode};
use super::{ApiConfig, ApiMode, NecronPrismConfig};

verus! {

/// The platform the proxy was built for.
#[derive(Clone, Copy, Debug, PartialEq, Eq, Structural)]
pub enum TargetPlatform {
    /// Linux; `accelerated` when the kernel relays and multipath TCP were
    /// compiled in.
    Linux { accelerated: bool },
    /// Any other platform.
    Other,
}

/// `s` with the options that only Linux offers switched off.
pub open spec fn spec_portable_socket(s: NetworkSocketConfig) -> NetworkSocketConfig {
    NetworkSocketConfig {
        multipath_tcp: false,
        tcp_quickack: false,
        ip_tos: None,
        congestion_control: None,
        bind_interface: None,
        fwmark: None,
        tcp_fastopen: false,
        reuse_port: false,
        ..s
    }
}

/// `p` with a relay other than `Async` replaced by `Async`, the replaced
/// relay kept as the requested one.
pub open spec fn spec_portable_relay(p: CoreConfig) -> CoreConfig {
    if p.network.relay.mode != RelayMode::Async {
        CoreConfig {
            requested_relay: p.network.relay,
            network: NetworkConfig { relay: RelayConfig { mode: RelayMode::Async }, ..p.network },
            ..p
        }
    } else {
        p
    }
}

/// The core settings narrowed to `platform`.
pub open spec fn spec_canonical_core(p: CoreConfig, platform: TargetPlatform) -> CoreConfig {
    match platform {
        TargetPlatform::Other => {
            let q = spec_portable_relay(p);
            CoreConfig {
                network: NetworkConfig { socket: spec_portable_socket(q.network.socket), ..q.network },
                ..q
            }
        },
        TargetPlatform::Linux { accelerated } => if accelerated {
            p
        } else {
            let q = spec_portable_relay(p);
            CoreConfig {
                network: NetworkConfig {
                    socket: NetworkSocketConfig { multipath_tcp: false, ..q.network.socket },
                    ..q.network
                },
                ..q
            }
        },
    }
}

/// `new` is `old` with an entry node key filled in where the HTTP API
/// lacks one.
pub open spec fn spec_api_canonicalized(old: ApiConfig, new: ApiConfig) -> bool {
    if old.mode == ApiMode::Http && old.entry_node_key is None {
        &&& new.entry_node_key matches Some(k) && k@ == DEFAULT_ENTRY_NODE_KEY@
        &&& new == ApiConfig { entry_node_key: new.entry_node_key, ..old }
    } else {
        new == old
    }
}

/// `new` is `old` narrowed to `platform`.
pub open spec fn spec_canonicalized(
    old: NecronPrismConfig,
    new: NecronPrismConfig,
    platform: TargetPlatform,
) -> bool {
    &&& new.prism == spec_canonical_core(old.prism, platform)
    &&& spec_api_canonicalized(old.api, new.api)
}

/// Narrows `config` to what `platform` can give: on a platform other than
/// Linux the Linux-only socket options go off and the relay falls back to
/// `Async`; on Linux without acceleration multipath TCP goes off and the
/// relay falls back; the HTTP API gets the default entry node key where it
/// has none.
pub fn canonicalize_runtime_config(config: &mut NecronPrismConfig, platform: TargetPlatform)
    ensures
        spec_canonicalized(*old(config), *final(config), platform),
{
    let accelerated = match platform {
        TargetPlatform::Linux { accelerated } => accelerated,
        TargetPlatform::Other => false,
    };
    if !accelerated {
        if config.prism.network.relay.mode != RelayMode::Async {
            config.prism.requested_relay = RelayConfig { mode: config.prism.network.relay.mode };
            config.prism.network.relay.mode = RelayMode::Async;
        }
        config.prism.network.socket.multipath_tcp = false;
    }
    if platform == TargetPlatform::Other {
        config.prism.network.socket.tcp_quickack = false;
        config.prism.network.socket.ip_tos = None;
        config.prism.network.socket.congestion_control = None;
        config.prism.network.socket.bind_interface = None;
        config.prism.network.socket.fwmark = None;
        config.prism.network.socket.tcp_fastopen = false;
        config.prism.network.socket.reuse_port = false;
    }
    if config.api.mode == ApiMode::Http && config.api.entry_node_key.is_none() {
        config.api.entry_node_key = Some(String::from_str(DEFAULT_ENTRY_NODE_KEY));
    }
}

/// A configuration that narrowing to `platform` leaves as it is.
pub open spec fn spec_is_canonical(c: NecronPrismConfig, platform: TargetPlatform) -> bool {
    &&& spec_canonical_core(c.prism, platform) == c.prism
    &&& !(c.api.mode == ApiMode::Http && c.api.entry_node_key is None)
}

/// Narrowing gives a configuration that is already narrowed, and narrowing
/// that again changes nothing: the operation is idempotent.
pub proof fn lemma_canonicalize_idempotent(
    c0: NecronPrismConfig,
    c1: NecronPrismConfig,
    c2: NecronPrismConfig,
    platform: TargetPlatform,
)
    requires
        spec_canonicalized(c0, c1, platform),
        spec_canonicalized(c1, c2, platform),
    ensures
        spec_is_canonical(c1, platform),
        c2 == c1,
{
    assert(spec_canonical_core(c1.prism, platform) == c1.prism);
}

/// Off Linux the relay always ends as `Async`, every Linux-only socket
/// option is off, and a relay the file asked for that was not `Async` is
/// what the requested relay records.
pub proof fn lemma_canonicalize_off_linux(old: NecronPrismConfig, new: NecronPrismConfig)
    requires
        spec_canonicalized(old, new, TargetPlatform::Other),
    ensures
        new.prism.network.relay.mode == RelayMode::Async,
        old.prism.network.relay.mode != RelayMode::Async ==> new.prism.requested_relay
            == old.prism.network.relay,
        old.prism.network.relay.mode == RelayMode::Async ==> new.prism.requested_relay
            == old.prism.requested_relay,
        !new.prism.network.socket.multipath_tcp,
        !new.prism.network.socket.tcp_quickack,
        !new.prism.network.socket.tcp_fastopen,
        !new.prism.network.socket.reuse_port,
        new.prism.network.socket.ip_tos is None,
        new.prism.network.socket.congestion_control is None,
        new.prism.network.socket.bind_interface is None,
        new.prism.network.socket.fwmark is None,
        new.prism.network.socket.listen_addr == old.prism.network.socket.listen_addr,
{
}

/// A setting that narrowing switched off, and why.
#[derive(Debug)]
pub struct SuppressedOption {
    pub option: String,
    pub reason: String,
}

/// Suppressed settings as `(option, reason)` texts.
pub open spec fn suppressed_view(v: Seq<SuppressedOption>) -> Seq<(Seq<char>, Seq<char>)> {
    v.map_values(|o: SuppressedOption| (o.option@, o.reason@))
}

/// One suppressed setting where `on`, none otherwise.
pub open spec fn spec_note(on: bool, option: Seq<char>, reason: Seq<char>) -> Seq<(Seq<char>, Seq<char>)> {
    if on {
        seq![(option, reason)]
    } else {
        Seq::empty()
    }
}

/// The settings of `p` that narrowing to a platform other than Linux
/// switches off, in order, each with its reason.
pub open spec fn spec_suppressed_off_linux(p: CoreConfig) -> Seq<(Seq<char>, Seq<char>)> {
    let s = p.network.socket;
    spec_note(
        p.network.relay.mode != RelayMode::Async,
        "network.relay.mode"@,
        p.network.relay.mode.spec_label() + " is only available on Linux"@,
    ) + spec_note(s.multipath_tcp, "network.socket.multipath_tcp"@, "MPTCP is only available on Linux"@)
        + spec_note(s.tcp_quickack, "network.socket.tcp_quickack"@, "TCP_QUICKACK is only available on Linux"@)
        + spec_note(s.ip_tos is Some, "network.socket.ip_tos"@, "IP_TOS is only available on Linux"@)
        + spec_note(
        s.congestion_control is Some,
        "network.socket.congestion_control"@,
        "TCP_CONGESTION is only available on Linux"@,
    ) + spec_note(
        s.bind_interface is Some,
        "network.socket.bind_interface"@,
        "SO_BINDTODEVICE is only available on Linux"@,
    ) + spec_note(s.fwmark is Some, "network.socket.fwmark"@, "SO_MARK is only available on Linux"@)
        + spec_note(s.tcp_fastopen, "network.socket.tcp_fastopen"@, "TCP_FASTOPEN is only available on Linux"@)
        + spec_note(s.reuse_port, "network.socket.reuse_port"@, "SO_REUSEPORT is only available on Linux/Unix"@)
}

/// The settings of `p` that narrowing to Linux without acceleration
/// switches off, in order, each with its reason.
pub open spec fn spec_suppressed_plain_linux(p: CoreConfig) -> Seq<(Seq<char>, Seq<char>)> {
    spec_note(
        p.network.relay.mode != RelayMode::Async,
        "network.relay.mode"@,
        p.network.relay.mode.spec_label() + " requires the linux-accel feature (compiled without it)"@,
    ) + spec_note(
        p.network.socket.multipath_tcp,
        "network.socket.multipath_tcp"@,
        "MPTCP requires the linux-accel feature (compiled without it)"@,
    )
}

/// Every setting of `c` that narrowing to `platform` switches off or fills
/// in, in the order narrowing takes them, each with its reason.
pub open spec fn spec_suppressed(c: NecronPrismConfig, platform: TargetPlatform) -> Seq<(Seq<char>, Seq<char>)> {
    (match platform {
        TargetPlatform::Other => spec_suppressed_off_linux(c.prism),
        TargetPlatform::Linux { accelerated } => if accelerated {
            Seq::empty()
        } else {
            spec_suppressed_plain_linux(c.prism)
        },
    }) + spec_note(
        c.api.mode == ApiMode::Http && c.api.entry_node_key is None,
        "api.entry_node_key"@,
        "ENTRY_NODE_KEY should be specific when API_MODE is HTTP"@,
    )
}

fn note(out: &mut Vec<SuppressedOption>, on: bool, option: &str, reason: String)
    ensures
        suppressed_view(final(out)@) == suppressed_view(old(out)@) + spec_note(on, option@, reason@),
{
    let ghost before = out@;
    if on {
        out.push(SuppressedOption { option: option.to_string(), reason });
    }
    assert(suppressed_view(out@) =~= suppressed_view(before) + spec_note(on, option@, reason@));
}

fn reason_with_mode(mode: RelayMode, rest: &str) -> (r: String)
    ensures
        r@ == mode.spec_label() + rest@,
{
    let mut r = mode.label().to_string();
    r.append(rest);
    r
}

/// The settings that `canonicalize_runtime_config` switches off or fills in
/// on `config` for `platform`, each with the reason it gives: what the
/// narrowing warns about.
pub fn canonicalize_warnings(config: &NecronPrismConfig, platform: TargetPlatform) -> (w: Vec<
    SuppressedOption,
>)
    ensures
        suppressed_view(w@) == spec_suppressed(*config, platform),
{
    let mut out: Vec<SuppressedOption> = Vec::new();
    let relay = config.prism.network.relay.mode;
    let s = &config.prism.network.socket;
    assert(suppressed_view(out@) =~= Seq::<(Seq<char>, Seq<char>)>::empty());
    match platform {
        TargetPlatform::Other => {
            note(&mut out, relay != RelayMode::Async, "network.relay.mode",
                reason_with_mode(relay, " is only available on Linux"));
            note(&mut out, s.multipath_tcp, "network.socket.multipath_tcp",
                "MPTCP is only available on Linux".to_string());
            note(&mut out, s.tcp_quickack, "network.socket.tcp_quickack",
                "TCP_QUICKACK is only available on Linux".to_string());
            note(&mut out, s.ip_tos.is_some(), "network.socket.ip_tos",
                "IP_TOS is only available on Linux".to_string());
            note(&mut out, s.congestion_control.is_some(), "network.socket.congestion_control",
                "TCP_CONGESTION is only available on Linux".to_string());
            note(&mut out, s.bind_interface.is_some(), "network.socket.bind_interface",
                "SO_BINDTODEVICE is only available on Linux".to_string());
            note(&mut out, s.fwmark.is_some(), "network.socket.fwmark",
                "SO_MARK is only available on Linux".to_string());
            note(&mut out, s.tcp_fastopen, "network.socket.tcp_fastopen",
                "TCP_FASTOPEN is only available on Linux".to_string());
            note(&mut out, s.reuse_port, "network.socket.reuse_port",
                "SO_REUSEPORT is only available on Linux/Unix".to_string());
        },
        TargetPlatform::Linux { accelerated } => {
            if !accelerated {
                note(&mut out, relay != RelayMode::Async, "network.relay.mode",
                    reason_with_mode(relay, " requires the linux-accel feature (compiled without it)"));
                note(&mut out, s.multipath_tcp, "network.socket.multipath_tcp",
                    "MPTCP requires the linux-accel feature (compiled without it)".to_string());
            }
        },
    }
    note(
        &mut out,
        config.api.mode == ApiMode::Http && config.api.entry_node_key.is_none(),
        "api.entry_node_key",
        "ENTRY_NODE_KEY should be specific when API_MODE is HTTP".to_string(),
    );
    out
}

/// A configuration once narrowed to `platform` leaves nothing to switch
/// off or fill in: narrowing it again would warn about nothing.
pub proof fn lemma_no_warnings_after_canonicalize(
    old: NecronPrismConfig,
    new: NecronPrismConfig,
    platform: TargetPlatform,
)
    requires
        spec_canonicalized(old, new, platform),
    ensures
        spec_suppressed(new, platform) == Seq::<(Seq<char>, Seq<char>)>::empty(),
{
    assert(spec_suppressed(new, platform) =~= Seq::<(Seq<char>, Seq<char>)>::empty());
}

} // verus!
