//! Verified core of a marketplace extension fetcher.
//!
//! The library covers the query-resolve-download pipeline of a command-line
//! tool that searches an extension marketplace, disambiguates the results,
//! resolves the platform-specific build, and tracks a chunked download.
//! All I/O (HTTP, terminal prompts, files, process spawning) lives outside
//! this crate; the functions here work on plain values and carry contracts
//! that pin their behaviour down.

pub mod download;
pub mod error;
pub mod platform;
pub mod query;
pub mod records;
pub mod select;
pub mod text;
