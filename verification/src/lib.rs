//! Provisions local files at container startup: each configured entry maps an
//! absolute destination path to a secret reference; the engine validates the
//! path, prepares parent directories, fetches the secret value, and writes the
//! bytes to the destination, reporting one outcome per entry.
//!
//! The decision logic of the engine lives here and is verified; the
//! surrounding process (argument handling, configuration loading, the remote
//! secret store client, and filesystem calls) drives it from outside and
//! reports each step's result back as a plain value.

pub mod cli;
pub mod config;
pub mod paths;
pub mod provisioner;
