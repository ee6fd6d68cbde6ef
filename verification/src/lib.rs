//! Core logic for publishing a versioned flake release to a registry.
//!
//! The library resolves the release context — execution environment,
//! registry upload name, release version, merged labels, revision
//! information — and interprets the three-phase stage/transfer/publish
//! exchange with the registry. All network and filesystem work is left
//! to the surrounding binary; the functions here compute over plain
//! values and carry contracts for what they return.

pub mod cli;
pub mod credentials;
pub mod errors;
pub mod git_context;
pub mod github;
pub mod github_actions;
pub mod github_data;
pub mod jsontext;
pub mod labels;
pub mod license;
pub mod metadata;
pub mod names;
pub mod protocol;
pub mod revision;
pub mod strutil;
pub mod tarball;
pub mod version;
pub mod visibility;
