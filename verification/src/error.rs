//! The ways in which loading, saving or initializing can fail.

use vstd::prelude::*;

verus! {

/// Why an operation on the configuration or the workspace failed.
#[derive(Debug, Clone, Copy, PartialEq, Eq, Structural)]
pub enum ConfigError {
    /// The configuration file is absent.
    FileNotFound,
    /// The configuration file does not hold a JSON object with exactly the
    /// two text fields of a configuration.
    ParseError,
    /// A file could not be read or written, or a directory not created.
    IoError,
}

} // verus!
