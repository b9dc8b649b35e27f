//! The consistency rules of a runtime configuration.
use vstd::prelude::*;

use super::types::{
    ApiMode, Config, ConfigError, MotdFaviconMode, MotdMode, StatusPingMode,
};

verus! {

/// The first rule that `c` breaks, in the order they are checked.
pub open spec fn spec_config_error(c: Config) -> Option<ConfigError> {
    let motd = c.transport.motd;
    if c.api.mode == ApiMode::Http && c.api.base_url is None {
        Some(ConfigError::HttpRequiresBaseUrl)
    } else if c.api.mode == ApiMode::Mock && c.api.base_url is Some {
        Some(ConfigError::MockForbidsBaseUrl)
    } else if motd.mode == MotdMode::Upstream && motd.upstream_addr is None {
        Some(ConfigError::UpstreamMotdRequiresAddr)
    } else if motd.ping_mode == StatusPingMode::Passthrough && motd.ping.target_addr is None
        && motd.upstream_addr is None {
        Some(ConfigError::PassthroughPingRequiresTarget)
    } else if motd.favicon.mode == MotdFaviconMode::Path && motd.favicon.path is None {
        Some(ConfigError::PathFaviconRequiresPath)
    } else if motd.favicon.mode == MotdFaviconMode::Passthrough && motd.favicon.target_addr is None
        && motd.upstream_addr is None {
        Some(ConfigError::PassthroughFaviconRequiresTarget)
    } else if c.api.mode == ApiMode::Mock && c.api.mock.connection_id_prefix@.len() == 0 {
        Some(ConfigError::MockRequiresConnectionIdPrefix)
    } else {
        None
    }
}

/// Checks a runtime configuration against its consistency rules.
pub struct ConfigChecker;

impl ConfigChecker {
    pub fn new() -> (c: Self) {
        ConfigChecker
    }

    /// Accepts `config`, or gives the first rule it breaks.
    pub fn validate(&self, config: &Config) -> (res: Result<(), ConfigError>)
        ensures
            res == (match spec_config_error(*config) {
                Some(e) => Err(e),
                None => Ok(()),
            }),
    {
        let motd = &config.transport.motd;
        if config.api.mode == ApiMode::Http && config.api.base_url.is_none() {
            return Err(ConfigError::HttpRequiresBaseUrl);
        }
        if config.api.mode == ApiMode::Mock && config.api.base_url.is_some() {
            return Err(ConfigError::MockForbidsBaseUrl);
        }
        if motd.mode == MotdMode::Upstream && motd.upstream_addr.is_none() {
            return Err(ConfigError::UpstreamMotdRequiresAddr);
        }
        if motd.ping_mode == StatusPingMode::Passthrough && motd.ping.target_addr.is_none()
            && motd.upstream_addr.is_none() {
            return Err(ConfigError::PassthroughPingRequiresTarget);
        }
        if motd.favicon.mode == MotdFaviconMode::Path && motd.favicon.path.is_none() {
            return Err(ConfigError::PathFaviconRequiresPath);
        }
        if motd.favicon.mode == MotdFaviconMode::Passthrough && motd.favicon.target_addr.is_none()
            && motd.upstream_addr.is_none() {
            return Err(ConfigError::PassthroughFaviconRequiresTarget);
        }
        if config.api.mode == ApiMode::Mock && config.api.mock.connection_id_prefix.as_str().is_empty() {
            return Err(ConfigError::MockRequiresConnectionIdPrefix);
        }
        Ok(())
    }
}

impl Config {
    /// Accepts the configuration, or gives the first rule it breaks.
    pub fn validate(&self) -> (res: Result<(), ConfigError>)
        ensures
            res == (match spec_config_error(*self) {
                Some(e) => Err(e),
                None => Ok(()),
            }),
    {
        ConfigChecker::new().validate(self)
    }
}

} // verus!
