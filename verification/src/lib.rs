//! Bootstrap of a Johnny Decimal workspace: the configuration record, its
//! JSON file, and the organizer that decides what has to happen on disk.
//!
//! Nothing in this crate touches the file system. The organizer is driven by
//! events that report what was found on disk and answers with the next action
//! to perform; the caller performs it.

pub mod config;
pub mod disk;
pub mod error;
pub mod johnny_d;
pub mod json;
pub mod paths;

pub use config::Config;
pub use error::ConfigError;
pub use johnny_d::JohnnyD;

