//! Command-line arguments, as plain values; the argument parser itself runs
//! outside the library and hands the parsed values in.

use vstd::prelude::*;

verus! {

/// The process's arguments: an optional path to a YAML configuration file.
/// When absent, the configuration is taken from the `CONTAINER_INIT_CONF`
/// environment variable instead.
pub struct Args {
    pub config: Option<String>,
}

} // verus!
