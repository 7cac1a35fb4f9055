//! Verified core of a command-line client for a model-hosting registry.
//!
//! The library covers everything the client decides or computes: the URL
//! shapes the registry expects, parsing of the JSON bodies it returns, the
//! policy that skips legacy weight files when a modern consolidated weights
//! file is present, the planning of one download job per surviving file, and
//! the state machine that one file transfer steps through. The surrounding
//! process (argument handling, HTTP requests, file writes, progress bars)
//! stays outside and hands the library plain values.

pub mod filter;
pub mod json;
pub mod listing;
pub mod plan;
pub mod revisions;
pub mod search;
pub mod task;
pub mod urls;
