//! The proxy's combined configuration: the relay core's settings with the
//! API section beside them, how they are checked, and how the platform the
//! proxy runs on narrows them.
pub mod api;
pub mod canonicalize;
pub mod runtime;
pub mod file;
pub mod loader;

use vstd::prelude::*;

use self::runtime::CoreConfig;

verus! {

/// Where connections are authorized: a remote HTTP service, or a local mock.
#[derive(Clone, Copy, Debug, PartialEq, Eq, Structural)]
pub enum ApiMode {
    Http,
    Mock,
}

/// The `[api]` section.
#[derive(Clone, Debug)]
pub struct ApiConfig {
    pub mode: ApiMode,
    pub base_url: Option<String>,
    pub bearer_token: Option<String>,
    pub entry_node_key: Option<String>,
    pub timeout_ms: u64,
    pub traffic_interval_ms: u64,
    pub mock_target_addr: String,
    pub mock_rewrite_addr: Option<String>,
    pub mock_connection_id_prefix: String,
    pub mock_kick_reason: Option<String>,
}

pub const DEFAULT_API_TIMEOUT_MS: u64 = 5000;

pub const DEFAULT_TRAFFIC_INTERVAL_MS: u64 = 5000;

pub const DEFAULT_MOCK_TARGET_ADDR: &'static str = "127.0.0.1:25565";

pub const DEFAULT_MOCK_CONNECTION_ID_PREFIX: &'static str = "PRSM";

/// `a` is the default `[api]` section: the mock API with its default
/// target and connection id prefix.
pub open spec fn spec_is_default_api(a: ApiConfig) -> bool {
    &&& a.mode == ApiMode::Mock
    &&& a.base_url is None
    &&& a.bearer_token is None
    &&& a.entry_node_key is None
    &&& a.timeout_ms == DEFAULT_API_TIMEOUT_MS
    &&& a.traffic_interval_ms == DEFAULT_TRAFFIC_INTERVAL_MS
    &&& a.mock_target_addr@ == DEFAULT_MOCK_TARGET_ADDR@
    &&& a.mock_rewrite_addr is None
    &&& a.mock_connection_id_prefix@ == DEFAULT_MOCK_CONNECTION_ID_PREFIX@
    &&& a.mock_kick_reason is None
}

impl Default for ApiConfig {
    /// The mock API with its default target and connection id prefix.
    fn default() -> (a: Self)
        ensures
            spec_is_default_api(a),
    {
        ApiConfig {
            mode: ApiMode::Mock,
            base_url: None,
            bearer_token: None,
            entry_node_key: None,
            timeout_ms: DEFAULT_API_TIMEOUT_MS,
            traffic_interval_ms: DEFAULT_TRAFFIC_INTERVAL_MS,
            mock_target_addr: String::from_str(DEFAULT_MOCK_TARGET_ADDR),
            mock_rewrite_addr: None,
            mock_connection_id_prefix: String::from_str(DEFAULT_MOCK_CONNECTION_ID_PREFIX),
            mock_kick_reason: None,
        }
    }
}

/// The relay core's settings and the API section.
#[derive(Clone, Debug)]
pub struct NecronPrismConfig {
    pub prism: CoreConfig,
    pub api: ApiConfig,
}

} // verus!
