//! The API settings as the service layer reads them.
use vstd::prelude::*;

verus! {

pub const DEFAULT_API_TIMEOUT_MS: u64 = 3000;

pub const DEFAULT_TRAFFIC_INTERVAL_MS: u64 = 5000;

pub const DEFAULT_ENTRY_NODE_KEY: &'static str = "default";

pub const DEFAULT_MOCK_TARGET_ADDR: &'static str = "mc.hypixel.net:25565";

pub const DEFAULT_MOCK_CONNECTION_ID_PREFIX: &'static str = "debug";

/// Where connections are authorized: a remote HTTP service, or a local mock.
#[derive(Clone, Copy, Debug, PartialEq, Eq, Structural)]
pub enum ApiMode {
    Http,
    Mock,
}

impl Default for ApiMode {
    fn default() -> (m: Self)
        ensures
            m == ApiMode::Mock,
    {
        ApiMode::Mock
    }
}

/// The API settings.
#[derive(Clone, Debug)]
pub struct ApiConfig {
    pub mode: ApiMode,
    pub base_url: Option<String>,
    pub bearer_token: Option<String>,
    pub entry_node_key: Option<String>,
    pub timeout_ms: u64,
    pub traffic_interval_ms: u64,
    pub mock_target_addr: String,
    pub mock_rewrite_addr: Option<String>,
    pub mock_connection_id_prefix: String,
    pub mock_kick_reason: Option<String>,
}

impl Default for ApiConfig {
    /// The mock API aimed at its default target.
    fn default() -> (a: Self)
        ensures
            a.mode == ApiMode::Mock,
            a.base_url is None,
            a.bearer_token is None,
            a.entry_node_key is None,
            a.timeout_ms == DEFAULT_API_TIMEOUT_MS,
            a.traffic_interval_ms == DEFAULT_TRAFFIC_INTERVAL_MS,
            a.mock_target_addr@ == DEFAULT_MOCK_TARGET_ADDR@,
            a.mock_rewrite_addr is None,
            a.mock_connection_id_prefix@ == DEFAULT_MOCK_CONNECTION_ID_PREFIX@,
            a.mock_kick_reason is None,
    {
        ApiConfig {
            mode: ApiMode::Mock,
            base_url: None,
            bearer_token: None,
            entry_node_key: None,
            timeout_ms: DEFAULT_API_TIMEOUT_MS,
            traffic_interval_ms: DEFAULT_TRAFFIC_INTERVAL_MS,
            mock_target_addr: String::from_str(DEFAULT_MOCK_TARGET_ADDR),
            mock_rewrite_addr: None,
            mock_connection_id_prefix: String::from_str(DEFAULT_MOCK_CONNECTION_ID_PREFIX),
            mock_kick_reason: None,
        }
    }
}

} // verus!
