//! A verified core for a local media-ingestion agent.
//!
//! The agent watches a directory for newly created image and video files
//! and uploads each one to a remote media server, deduplicating by content
//! hash, tagging uploads from folder-path rules, and optionally stamping an
//! upload date. This crate holds the decision logic of that pipeline:
//! path classification, the locked-file retry policy, content addressing,
//! the two-phase upload protocol, the indexing-wait policy, auto-tag
//! resolution, and the watch lifecycle state machine. The surrounding
//! process performs the filesystem and network calls and feeds their
//! outcomes to these functions.

pub mod finalize;
pub mod hashing;
pub mod json;
pub mod media;
pub mod paths;
pub mod polling;
pub mod reading;
pub mod settings;
pub mod tagging;
pub mod timefmt;
pub mod upload;
pub mod urls;
pub mod watch;
