//! A runtime measurement agent: it digests designated artifacts (files and
//! content-addressed model directories) and hands the digests, tagged with a
//! register index and domain/operation labels, to an attestation authority.
//!
//! This crate holds the decisions of the agent: configuration defaults and
//! transport selection, digesting and hex encoding, per-pass deduplication and
//! failure accounting, incremental diffing between configuration snapshots,
//! and the debounce/retry/content-hash state machine of the configuration
//! watcher. The embedding program performs the I/O that these decisions call
//! for.

pub mod client;
pub mod config;
pub mod error;
pub mod handlers;
pub mod measure;
pub mod watcher;
pub mod wire;
pub mod digest;
pub mod entries;
