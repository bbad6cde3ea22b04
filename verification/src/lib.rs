//! Keeps the `rust-version` field of Cargo manifests in step with the latest
//! release of a Rust channel.
//!
//! The crate holds the decisions of the tool and nothing that touches the
//! outside world: the caller fetches the release description of a channel and
//! reads and writes the manifest files, and hands their text to the functions
//! found here.

pub mod command;
pub mod failure;
pub mod manifest;
pub mod paths;
pub mod release;
pub mod report;
pub mod toml_document;
pub mod toml_value;
pub mod tree;
pub mod version;
pub mod walk;
