//! Values used where the configuration file leaves a setting out.
use vstd::prelude::*;

use super::literals::CONFIG_SCHEMA_DIRECTIVE;

verus! {

pub const DEFAULT_LISTEN_ADDR: &'static str = "0.0.0.0:25565";

pub const DEFAULT_FIRST_PACKET_TIMEOUT_MS: u64 = 5000;

pub const DEFAULT_KEEPALIVE_SECS: u64 = 30;

pub const DEFAULT_LOCAL_MOTD_JSON: &'static str = "{\"version\":{\"name\":\"necron-prism\",\"protocol\":-1},\"players\":{\"max\":0,\"online\":0},\"description\":{\"text\":\"necron-prism\"}}";

pub const DEFAULT_MOTD_UPSTREAM_ADDR: &'static str = "127.0.0.1:25565";

pub const DEFAULT_MOTD_UPSTREAM_PING_TIMEOUT_MS: u64 = 3000;

pub const DEFAULT_MOTD_STATUS_CACHE_TTL_MS: u64 = 5000;

pub const DEFAULT_API_TARGET_ADDR: &'static str = "127.0.0.1:25565";

pub const DEFAULT_API_TIMEOUT_MS: u64 = 5000;

pub const DEFAULT_API_TRAFFIC_INTERVAL_MS: u64 = 5000;

pub const DEFAULT_CONNECTION_ID_PREFIX: &'static str = "PRSM";

pub const DEFAULT_STATS_LOG_INTERVAL_SECS: u64 = 10;

/// The default configuration file.
pub struct ConfigDefaults;

impl ConfigDefaults {
    /// The default configuration file whose settings, as TOML, are
    /// `content`: the schema directive, a blank line, then `content`.
    pub fn render_toml(content: &str) -> (rendered: String)
        ensures
            rendered@ == CONFIG_SCHEMA_DIRECTIVE@ + "\n\n"@ + content@,
    {
        let mut rendered = String::from_str(CONFIG_SCHEMA_DIRECTIVE);
        rendered.append("\n\n");
        rendered.append(content);
        rendered
    }
}

} // verus!
