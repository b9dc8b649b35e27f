use vstd::prelude::*;

verus! {

/// The file name of the configuration's JSON schema.
pub const CONFIG_SCHEMA_FILE: &'static str = "config.schema.json";

/// The first line of a configuration file, pointing editors at the schema.
pub const CONFIG_SCHEMA_DIRECTIVE: &'static str = "#:schema ./config.schema.json";

} // verus!
