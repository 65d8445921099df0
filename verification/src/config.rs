//! The startup configuration: which files to provision from which secret
//! references, how to reach the secret store, and how verbosely to log.
//! Parsing the YAML text into these values happens outside the library.

use vstd::prelude::*;
use std::collections::HashMap;

verus! {

/// Settings for the remote secret store client: an optional region and an
/// optional role to assume, with its optional external id.
pub struct AwsConfig {
    pub region: Option<String>,
    pub assume_role_arn: Option<String>,
    pub assume_role_external_id: Option<String>,
}

/// Where one file's content comes from: the secret's reference in the store.
pub struct Source {
    pub source_arn: String,
}

/// The whole configuration: store settings, the mapping from destination path
/// to secret source, and the log level's name.
pub struct Config {
    pub aws: AwsConfig,
    pub files: HashMap<String, Source>,
    pub log_level: String,
}

impl Config {
    /// The log level used when the configuration names none.
    pub fn default_log_level() -> (r: String)
        ensures
            r@ == "INFO"@,
    {
        "INFO".to_owned()
    }
}

} // verus!
