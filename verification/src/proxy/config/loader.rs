//! From a parsed configuration file to a checked runtime configuration.
use vstd::prelude::*;

use super::checker::{spec_config_error, ConfigChecker};
use super::normalizer::{spec_addresses_ok, spec_normalized, ConfigNormalizer};
use super::schema_types::ConfigFile;
use super::types::{Config, ConfigError};

verus! {

/// Loads runtime configurations from parsed configuration files.
pub struct ConfigLoader;

impl ConfigLoader {
    /// The runtime configuration of the file `raw`, read from `source_path`:
    /// normalized, then checked. An address that is no authority is
    /// reported first; otherwise the first rule the result breaks.
    pub fn load_parsed(raw: ConfigFile, source_path: String) -> (res: Result<Config, ConfigError>)
        ensures
            !spec_addresses_ok(raw) ==> res == Err::<Config, ConfigError>(ConfigError::InvalidAddress),
            spec_addresses_ok(raw) ==> match res {
                Ok(c) => spec_normalized(c, raw, source_path@) && spec_config_error(c) is None,
                Err(e) => exists|c: Config|
                    spec_normalized(c, raw, source_path@) && spec_config_error(c) == Some(e),
            },
    {
        let ghost path = source_path@;
        let config = ConfigNormalizer::new().normalize(raw, source_path)?;
        match ConfigChecker::new().validate(&config) {
            Ok(()) => Ok(config),
            Err(e) => {
                assert(spec_normalized(config, raw, path) && spec_config_error(config) == Some(e));
                Err(e)
            },
        }
    }
}

} // verus!
