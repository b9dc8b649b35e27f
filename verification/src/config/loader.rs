//! Checks of a loaded configuration, and the default file's framing.
use vstd::prelude::*;
use vstd::string::*;

use super::runtime::CoreConfig;
use super::{spec_is_default_api, ApiConfig, ApiMode, NecronPrismConfig};
use crate::proxy::config::types::MotdFaviconMode;

use crate::json::json_parsed;

verus! {

pub const CONFIG_SCHEMA_DIRECTIVE: &'static str = "#:schema ./config.schema.json";

/// What `serde_json::from_str::<serde_json::Value>` says of `text`: `None`
/// when it parses, else the text of its error.
pub uninterp spec fn json_syntax_error(text: Seq<char>) -> Option<Seq<char>>;

/// Parses `text` with `serde_json::from_str::<serde_json::Value>` and gives
/// its error's text; the result is named `json_syntax_error`. It is the
/// same parse that `json_parsed` names: it fails exactly where that gives
/// nothing.
#[verifier::external_body]
fn check_json(text: &str) -> (res: Option<String>)
    ensures
        match json_syntax_error(text@) {
            None => res is None,
            Some(m) => res matches Some(r) && r@ == m,
        },
        res is None <==> json_parsed(text@) is Some,
{
    serde_json::from_str::<serde_json::Value>(text).err().map(|error| error.to_string())
}

/// Why a loaded configuration was refused.
#[derive(Clone, Debug)]
pub enum ConfigValidationError {
    EmptyListenAddr,
    EmptyLocalJson,
    /// The local status JSON does not parse; the text says why.
    InvalidLocalJson(String),
    EmptyUpstreamAddr,
    EmptyMockTargetAddr,
    HttpRequiresBaseUrl,
    PathFaviconRequiresPath,
}

/// The message of a validation error.
pub open spec fn spec_validation_message(e: ConfigValidationError) -> Seq<char> {
    match e {
        ConfigValidationError::EmptyListenAddr => "network.socket.listen_addr cannot be empty"@,
        ConfigValidationError::EmptyLocalJson => "motd.local_json cannot be empty"@,
        ConfigValidationError::InvalidLocalJson(text) => text@,
        ConfigValidationError::EmptyUpstreamAddr => "motd.upstream_addr cannot be empty"@,
        ConfigValidationError::EmptyMockTargetAddr => "api.mock_target_addr cannot be empty"@,
        ConfigValidationError::HttpRequiresBaseUrl => "api.base_url is required when api.mode is \"http\""@,
        ConfigValidationError::PathFaviconRequiresPath => "motd.favicon.path is required when motd.favicon.mode is \"path\""@,
    }
}

impl ConfigValidationError {
    /// The error's message.
    pub fn message(&self) -> (m: String)
        ensures
            m@ == spec_validation_message(*self),
    {
        match self {
            ConfigValidationError::EmptyListenAddr => String::from_str(
                "network.socket.listen_addr cannot be empty",
            ),
            ConfigValidationError::EmptyLocalJson => String::from_str("motd.local_json cannot be empty"),
            ConfigValidationError::InvalidLocalJson(text) => text.clone(),
            ConfigValidationError::EmptyUpstreamAddr => String::from_str(
                "motd.upstream_addr cannot be empty",
            ),
            ConfigValidationError::EmptyMockTargetAddr => String::from_str(
                "api.mock_target_addr cannot be empty",
            ),
            ConfigValidationError::HttpRequiresBaseUrl => String::from_str(
                "api.base_url is required when api.mode is \"http\"",
            ),
            ConfigValidationError::PathFaviconRequiresPath => String::from_str(
                "motd.favicon.path is required when motd.favicon.mode is \"path\"",
            ),
        }
    }
}

/// The first check that `c` fails, in the order they are made; the local
/// JSON's parse error where that is the one.
pub open spec fn spec_validation(c: NecronPrismConfig) -> Option<ConfigValidationError> {
    if c.prism.network.socket.listen_addr@.len() == 0 {
        Some(ConfigValidationError::EmptyListenAddr)
    } else if c.prism.motd.local_json@.len() == 0 {
        Some(ConfigValidationError::EmptyLocalJson)
    } else if json_syntax_error(c.prism.motd.local_json@) is Some {
        None
    } else if c.prism.motd.upstream_addr@.len() == 0 {
        Some(ConfigValidationError::EmptyUpstreamAddr)
    } else if c.api.mock_target_addr@.len() == 0 {
        Some(ConfigValidationError::EmptyMockTargetAddr)
    } else if c.api.mode == ApiMode::Http && c.api.base_url is None {
        Some(ConfigValidationError::HttpRequiresBaseUrl)
    } else if c.prism.motd.favicon.mode == MotdFaviconMode::Path && c.prism.motd.favicon.path is None {
        Some(ConfigValidationError::PathFaviconRequiresPath)
    } else {
        None
    }
}

/// `res` is what validating `c` gives.
pub open spec fn validation_result_is(
    res: Result<(), ConfigValidationError>,
    c: NecronPrismConfig,
) -> bool {
    if c.prism.network.socket.listen_addr@.len() != 0 && c.prism.motd.local_json@.len() != 0
        && json_syntax_error(c.prism.motd.local_json@) is Some {
        res matches Err(ConfigValidationError::InvalidLocalJson(t)) && t@ == json_syntax_error(
            c.prism.motd.local_json@,
        )->0
    } else {
        match spec_validation(c) {
            None => res is Ok,
            Some(e) => res == Err::<(), ConfigValidationError>(e),
        }
    }
}

/// Checks a loaded configuration: the addresses and the local status JSON
/// must not be empty, that JSON must parse, the HTTP API needs a base URL
/// and an icon read from a file needs its path.
pub fn validate_config(config: &NecronPrismConfig) -> (res: Result<(), ConfigValidationError>)
    ensures
        validation_result_is(res, *config),
{
    if config.prism.network.socket.listen_addr.as_str().unicode_len() == 0 {
        return Err(ConfigValidationError::EmptyListenAddr);
    }
    if config.prism.motd.local_json.as_str().unicode_len() == 0 {
        return Err(ConfigValidationError::EmptyLocalJson);
    }
    if let Some(error) = check_json(config.prism.motd.local_json.as_str()) {
        return Err(ConfigValidationError::InvalidLocalJson(error));
    }
    if config.prism.motd.upstream_addr.as_str().unicode_len() == 0 {
        return Err(ConfigValidationError::EmptyUpstreamAddr);
    }
    if config.api.mock_target_addr.as_str().unicode_len() == 0 {
        return Err(ConfigValidationError::EmptyMockTargetAddr);
    }
    if config.api.mode == ApiMode::Http && config.api.base_url.is_none() {
        return Err(ConfigValidationError::HttpRequiresBaseUrl);
    }
    if config.prism.motd.favicon.mode == MotdFaviconMode::Path && config.prism.motd.favicon.path.is_none() {
        return Err(ConfigValidationError::PathFaviconRequiresPath);
    }
    Ok(())
}

/// Loads configurations from their parsed sections.
pub struct ConfigLoader;

impl ConfigLoader {
    /// The configuration of the file at `path` whose core sections are
    /// `prism` and whose `[api]` section, where it has one, is `api`: the
    /// default API where it has none, the source path recorded, and the
    /// result checked.
    pub fn assemble(prism: CoreConfig, api: Option<ApiConfig>, path: &str) -> (res: Result<
        NecronPrismConfig,
        ConfigValidationError,
    >)
        ensures
            match res {
                Ok(c) => {
                    &&& c.prism == CoreConfig { source_path: c.prism.source_path, ..prism }
                    &&& c.prism.source_path@ == path@
                    &&& (api matches Some(a) ==> c.api == a)
                    &&& (api is None ==> spec_is_default_api(c.api))
                    &&& validation_result_is(Ok(()), c)
                },
                Err(e) => exists|c: NecronPrismConfig|
                    #![auto]
                    c.prism == CoreConfig { source_path: c.prism.source_path, ..prism }
                        && c.prism.source_path@ == path@ && (api matches Some(a) ==> c.api == a)
                        && (api is None ==> spec_is_default_api(c.api))
                        && validation_result_is(Err(e), c),
            },
    {
        let api = match api {
            Some(a) => a,
            None => ApiConfig::default(),
        };
        let mut config = NecronPrismConfig { prism, api };
        config.prism.source_path = String::from_str(path);
        match validate_config(&config) {
            Ok(()) => Ok(config),
            Err(e) => Err(e),
        }
    }

    /// The default configuration file whose settings, as TOML, are
    /// `content`: the schema directive, a blank line, then `content`.
    pub fn render_default_toml(content: &str) -> (rendered: String)
        ensures
            rendered@ == CONFIG_SCHEMA_DIRECTIVE@ + "\n\n"@ + content@,
    {
        let mut rendered = String::from_str(CONFIG_SCHEMA_DIRECTIVE);
        rendered.append("\n\n");
        rendered.append(content);
        rendered
    }
}

} // verus!
