//! Incremental mirror of a remote media library.
//!
//! The crate models the sync pipeline of a media-backup client and its
//! companion service: pagination-state tracking, the scan/download
//! producer-consumer coordination, retry and backoff policy, deduplication
//! against previously persisted items, and rate-limited streaming transfer.
//! Network transport, durable storage and process bootstrap live outside the
//! library; the functions here take their observations as plain values and
//! return the decisions the pipeline must act on.

pub mod assoc;
pub mod auth;
pub mod config;
pub mod fetcher;
pub mod items;
pub mod login;
pub mod queue;
pub mod rate;
pub mod record;
pub mod scanner;
pub mod state;
pub mod store;
pub mod transfer;
pub mod util;
