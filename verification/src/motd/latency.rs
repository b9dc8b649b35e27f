//! A short-lived cache of upstream latencies, so that a client refreshing
//! its server list does not open a fresh probe every time.
use vstd::prelude::*;
use vstd::pervasive::VecAdditionalExecFns;
use vstd::string::*;

use crate::config::runtime::MotdConfig;
use crate::proxy::config::types::MotdMode;
use crate::text::{contains_text, spec_contains};

verus! {

/// How long a measured latency stays usable, in milliseconds.
pub const UPSTREAM_LATENCY_TTL_MS: u64 = 10_000;

/// The probe a latency belongs to: where it went, and the address its
/// handshake named.
#[derive(Clone, Debug)]
pub struct UpstreamLatencyCacheKey {
    pub target_addr: String,
    pub rewrite_addr: String,
}

impl UpstreamLatencyCacheKey {
    pub open spec fn spec_key(&self) -> (Seq<char>, Seq<char>) {
        (self.target_addr@, self.rewrite_addr@)
    }
}

/// A measured latency: when it was measured, and what came out (`None`
/// when the probe failed).
#[derive(Clone, Debug)]
pub struct CachedLatency {
    pub key: UpstreamLatencyCacheKey,
    pub measured_at_ms: u64,
    pub value: Option<u32>,
}

/// The index of the first entry at or after `i` for `key`.
pub open spec fn find_entry(s: Seq<CachedLatency>, key: (Seq<char>, Seq<char>), i: nat) -> Option<nat>
    decreases s.len() - i,
{
    if i >= s.len() {
        None
    } else if s[i as int].key.spec_key() == key {
        Some(i)
    } else {
        find_entry(s, key, i + 1)
    }
}

proof fn lemma_find_entry(s: Seq<CachedLatency>, key: (Seq<char>, Seq<char>), i: nat)
    ensures
        find_entry(s, key, i) matches Some(k) ==> i <= k < s.len() && s[k as int].key.spec_key()
            == key,
        find_entry(s, key, i) is None ==> forall|k: int|
            i <= k < s.len() ==> #[trigger] s[k].key.spec_key() != key,
    decreases s.len() - i,
{
    if i < s.len() {
        lemma_find_entry(s, key, i + 1);
    }
}

/// When and what was measured for `key`, where something was.
pub open spec fn lookup(s: Seq<CachedLatency>, key: (Seq<char>, Seq<char>)) -> Option<(u64, Option<u32>)> {
    match find_entry(s, key, 0) {
        Some(i) => Some((s[i as int].measured_at_ms, s[i as int].value)),
        None => None,
    }
}

/// What a cache whose entries are `s` answers for `key` at `now_ms`: the
/// latency measured less than `UPSTREAM_LATENCY_TTL_MS` ago, if any.
pub open spec fn spec_cached(s: Seq<CachedLatency>, key: (Seq<char>, Seq<char>), now_ms: u64) -> Option<Option<u32>> {
    match lookup(s, key) {
        Some((at, value)) => if (if now_ms >= at { now_ms - at } else { 0 }) < UPSTREAM_LATENCY_TTL_MS {
            Some(value)
        } else {
            None
        },
        None => None,
    }
}

/// Measured latencies by probe.
pub struct UpstreamLatencyCache {
    entries: Vec<CachedLatency>,
}

impl UpstreamLatencyCache {
    pub closed spec fn spec_entries(&self) -> Seq<CachedLatency> {
        self.entries@
    }

    /// When and what was measured for `key`, where something was.
    pub open spec fn spec_lookup(&self, key: (Seq<char>, Seq<char>)) -> Option<(u64, Option<u32>)> {
        lookup(self.spec_entries(), key)
    }

    /// An empty cache.
    pub fn new() -> (c: Self)
        ensures
            forall|key: (Seq<char>, Seq<char>)| c.spec_lookup(key) is None,
    {
        UpstreamLatencyCache { entries: Vec::new() }
    }

    fn position(&self, key: &UpstreamLatencyCacheKey) -> (res: Option<usize>)
        ensures
            res matches Some(i) ==> find_entry(self.entries@, key.spec_key(), 0) == Some(i as nat),
            res is None ==> find_entry(self.entries@, key.spec_key(), 0) is None,
    {
        let mut i: usize = 0;
        while i < self.entries.len()
            invariant
                i <= self.entries@.len(),
                find_entry(self.entries@, key.spec_key(), 0) == find_entry(
                    self.entries@,
                    key.spec_key(),
                    i as nat,
                ),
            decreases self.entries@.len() - i,
        {
            let e = &self.entries[i];
            if e.key.target_addr == key.target_addr && e.key.rewrite_addr == key.rewrite_addr {
                return Some(i);
            }
            i = i + 1;
        }
        None
    }

    /// The latency measured for `key` less than `UPSTREAM_LATENCY_TTL_MS`
    /// before `now_ms`, if any; the inner `None` is a failed probe.
    pub fn cached_upstream_latency(&self, key: &UpstreamLatencyCacheKey, now_ms: u64) -> (res: Option<
        Option<u32>,
    >)
        ensures
            res == spec_cached(self.spec_entries(), key.spec_key(), now_ms),
    {
        match self.position(key) {
            Some(i) => {
                proof {
                    lemma_find_entry(self.entries@, key.spec_key(), 0);
                }
                let e = &self.entries[i];
                let elapsed = if now_ms >= e.measured_at_ms {
                    now_ms - e.measured_at_ms
                } else {
                    0
                };
                if elapsed < UPSTREAM_LATENCY_TTL_MS {
                    Some(e.value)
                } else {
                    None
                }
            },
            None => None,
        }
    }

    /// Records that the probe for `key` measured `value` at `now_ms`.
    pub fn store_upstream_latency(
        &mut self,
        key: UpstreamLatencyCacheKey,
        value: Option<u32>,
        now_ms: u64,
    )
        ensures
            final(self).spec_lookup(key.spec_key()) == Some((now_ms, value)),
            forall|other: (Seq<char>, Seq<char>)|
                other != key.spec_key() ==> #[trigger] final(self).spec_lookup(other)
                    == old(self).spec_lookup(other),
    {
        let ghost k = key.spec_key();
        let ghost old_entries = self.entries@;
        match self.position(&key) {
            Some(i) => {
                proof {
                    lemma_find_entry(old_entries, k, 0);
                }
                self.entries.set(i, CachedLatency { key, measured_at_ms: now_ms, value });
                proof {
                    let s = self.entries@;
                    assert forall|other: (Seq<char>, Seq<char>)| other != k implies #[trigger] lookup(
                        s,
                        other,
                    ) == lookup(old_entries, other) by {
                        lemma_find_same_keys(s, old_entries, other, 0);
                        lemma_find_entry(s, other, 0);
                    }
                    lemma_find_same_keys(s, old_entries, k, 0);
                }
            },
            None => {
                proof {
                    lemma_find_entry(old_entries, k, 0);
                }
                self.entries.push(CachedLatency { key, measured_at_ms: now_ms, value });
                proof {
                    let s = self.entries@;
                    assert forall|other: (Seq<char>, Seq<char>)| other != k implies #[trigger] lookup(
                        s,
                        other,
                    ) == lookup(old_entries, other) by {
                        lemma_find_pushed(old_entries, s, other, 0);
                        lemma_find_entry(old_entries, other, 0);
                    }
                    lemma_find_pushed_own(old_entries, s, k, 0);
                }
            },
        }
    }
}

proof fn lemma_find_same_keys(
    s: Seq<CachedLatency>,
    t: Seq<CachedLatency>,
    key: (Seq<char>, Seq<char>),
    j: nat,
)
    requires
        s.len() == t.len(),
        forall|k: int| 0 <= k < s.len() ==> #[trigger] s[k].key.spec_key() == t[k].key.spec_key(),
    ensures
        find_entry(s, key, j) == find_entry(t, key, j),
    decreases s.len() - j,
{
    if j < s.len() {
        assert(s[j as int].key.spec_key() == t[j as int].key.spec_key());
        lemma_find_same_keys(s, t, key, j + 1);
    }
}

proof fn lemma_find_pushed(s: Seq<CachedLatency>, t: Seq<CachedLatency>, key: (Seq<char>, Seq<char>), j: nat)
    requires
        t.len() == s.len() + 1,
        forall|k: int| 0 <= k < s.len() ==> #[trigger] t[k] == s[k],
        t[s.len() as int].key.spec_key() != key,
        j <= s.len(),
    ensures
        find_entry(t, key, j) == find_entry(s, key, j),
    decreases s.len() - j,
{
    if j < s.len() {
        assert(t[j as int] == s[j as int]);
        lemma_find_pushed(s, t, key, j + 1);
    } else {
        assert(find_entry(t, key, j + 1) is None);
    }
}

proof fn lemma_find_pushed_own(s: Seq<CachedLatency>, t: Seq<CachedLatency>, key: (Seq<char>, Seq<char>), j: nat)
    requires
        t.len() == s.len() + 1,
        forall|k: int| 0 <= k < s.len() ==> #[trigger] t[k] == s[k],
        t[s.len() as int].key.spec_key() == key,
        j <= s.len(),
        find_entry(s, key, j) is None,
    ensures
        find_entry(t, key, j) == Some(s.len()),
    decreases s.len() - j,
{
    if j < s.len() {
        assert(t[j as int] == s[j as int]);
        lemma_find_pushed_own(s, t, key, j + 1);
    }
}

/// A latency stored at `at` is what the cache answers until
/// `UPSTREAM_LATENCY_TTL_MS` have passed, and nothing from then on.
pub proof fn lemma_cached_after_store(
    after: UpstreamLatencyCache,
    key: (Seq<char>, Seq<char>),
    value: Option<u32>,
    at: u64,
    now_ms: u64,
)
    requires
        after.spec_lookup(key) == Some((at, value)),
        at <= now_ms,
    ensures
        now_ms - at < UPSTREAM_LATENCY_TTL_MS ==> spec_cached(after.spec_entries(), key, now_ms)
            == Some(value),
        now_ms - at >= UPSTREAM_LATENCY_TTL_MS ==> spec_cached(after.spec_entries(), key, now_ms)
            is None,
{
}

/// Which latencies a status template shows: the client's round trip, and
/// a ping of the upstream.
#[derive(Clone, Copy, Debug, PartialEq, Eq, Structural)]
pub struct LatencyNeeds {
    pub client: bool,
    pub upstream: bool,
}

impl LatencyNeeds {
    /// Which latencies the status template of `config` shows: only a local
    /// status is rendered from the template; `{client_latency}` asks for
    /// the client's round trip, `{upstream_latency}` for the upstream ping,
    /// and `{total_latency}` for both.
    pub fn for_config(config: &MotdConfig) -> (needs: LatencyNeeds)
        ensures
            needs.client == (config.mode == MotdMode::Local && (spec_contains(
                config.local_json@,
                "{client_latency}"@,
            ) || spec_contains(config.local_json@, "{total_latency}"@))),
            needs.upstream == (config.mode == MotdMode::Local && (spec_contains(
                config.local_json@,
                "{upstream_latency}"@,
            ) || spec_contains(config.local_json@, "{total_latency}"@))),
    {
        if config.mode != MotdMode::Local {
            return LatencyNeeds { client: false, upstream: false };
        }
        let template = config.local_json.as_str();
        let total = contains_text(template, "{total_latency}");
        let client = total || contains_text(template, "{client_latency}");
        let upstream = total || contains_text(template, "{upstream_latency}");
        LatencyNeeds { client, upstream }
    }
}

/// The address the upstream latency probe goes to: the ping target where
/// one is set, else the upstream.
pub fn ping_target_addr(config: &MotdConfig) -> (addr: &str)
    ensures
        addr@ == match config.ping_target_addr {
            Some(t) => t@,
            None => config.upstream_addr@,
        },
{
    match &config.ping_target_addr {
        Some(t) => t.as_str(),
        None => config.upstream_addr.as_str(),
    }
}

/// The address the probe's handshake names: the upstream.
pub fn rewrite_addr(config: &MotdConfig) -> (addr: &str)
    ensures
        addr@ == config.upstream_addr@,
{
    config.upstream_addr.as_str()
}

/// The latencies a status template is rendered with.
#[derive(Clone, Copy, Debug, PartialEq, Eq, Structural)]
pub struct TemplateLatency {
    pub client_rtt_ms: Option<u32>,
    pub upstream_ping_ms: Option<u32>,
}

/// What measuring the latencies does next.
#[derive(Clone, Debug)]
pub enum MeasureStep {
    /// Nothing left to measure: render with these.
    Done(TemplateLatency),
    /// Probe the upstream for `key` and hand the outcome to
    /// `finish_measure`.
    Probe(UpstreamLatencyCacheKey),
}

/// The client's round trip where the template shows it.
pub open spec fn spec_client_rtt(needs: LatencyNeeds, client_rtt_ms: Option<u32>) -> Option<u32> {
    if needs.client {
        client_rtt_ms
    } else {
        None
    }
}

/// Decides the latencies of a status response. `client_rtt_ms` is what the
/// client's socket reports, `target_addr` and `rewrite_addr` the probe's
/// target and the address its handshake names, each `None` where it is no
/// valid address. Without an upstream latency to show, or without both
/// addresses, it is done with no upstream ping; a latency measured less than
/// `UPSTREAM_LATENCY_TTL_MS` before `now_ms` for the same addresses is
/// reused; otherwise the upstream is probed.
pub fn measure(
    needs: LatencyNeeds,
    client_rtt_ms: Option<u32>,
    target_addr: Option<&str>,
    rewrite_addr: Option<&str>,
    cache: &UpstreamLatencyCache,
    now_ms: u64,
) -> (step: MeasureStep)
    ensures
        ({
            let client = spec_client_rtt(needs, client_rtt_ms);
            if !needs.upstream || target_addr is None || rewrite_addr is None {
                step == MeasureStep::Done(
                    TemplateLatency { client_rtt_ms: client, upstream_ping_ms: None },
                )
            } else {
                let key = (target_addr->0@, rewrite_addr->0@);
                match spec_cached(cache.spec_entries(), key, now_ms) {
                    Some(v) => step == MeasureStep::Done(
                        TemplateLatency { client_rtt_ms: client, upstream_ping_ms: v },
                    ),
                    None => step matches MeasureStep::Probe(k) && k.spec_key() == key,
                }
            }
        }),
{
    let client = if needs.client {
        client_rtt_ms
    } else {
        None
    };
    if !needs.upstream {
        return MeasureStep::Done(TemplateLatency { client_rtt_ms: client, upstream_ping_ms: None });
    }
    let (target, rewrite) = match (target_addr, rewrite_addr) {
        (Some(t), Some(r)) => (t, r),
        _ => {
            return MeasureStep::Done(
                TemplateLatency { client_rtt_ms: client, upstream_ping_ms: None },
            );
        },
    };
    let key = UpstreamLatencyCacheKey {
        target_addr: target.to_string(),
        rewrite_addr: rewrite.to_string(),
    };
    match cache.cached_upstream_latency(&key, now_ms) {
        Some(v) => MeasureStep::Done(TemplateLatency { client_rtt_ms: client, upstream_ping_ms: v }),
        None => MeasureStep::Probe(key),
    }
}

/// Records the outcome `probe` of the upstream probe for `key` (`None` when
/// it failed) at `now_ms`, and gives the latencies to render.
pub fn finish_measure(
    cache: &mut UpstreamLatencyCache,
    key: UpstreamLatencyCacheKey,
    probe: Option<u32>,
    needs: LatencyNeeds,
    client_rtt_ms: Option<u32>,
    now_ms: u64,
) -> (latency: TemplateLatency)
    ensures
        latency == (TemplateLatency {
            client_rtt_ms: spec_client_rtt(needs, client_rtt_ms),
            upstream_ping_ms: probe,
        }),
        final(cache).spec_lookup(key.spec_key()) == Some((now_ms, probe)),
        forall|other: (Seq<char>, Seq<char>)|
            other != key.spec_key() ==> #[trigger] final(cache).spec_lookup(other)
                == old(cache).spec_lookup(other),
{
    cache.store_upstream_latency(key, probe, now_ms);
    let client = if needs.client {
        client_rtt_ms
    } else {
        None
    };
    TemplateLatency { client_rtt_ms: client, upstream_ping_ms: probe }
}

} // verus!
