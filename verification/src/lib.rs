//! Core of a live-broadcast capture daemon: probe a channel's public page for
//! an active live stream, extract the stream's title, and record each newly
//! observed (title, live id) pair exactly once in a deduplicating store.
//!
//! The verified library holds the parsing, the decision logic and the store
//! invariant; fetching pages, the timer and the signal handling live in the
//! surrounding binary, which feeds plain values in and out.

pub mod config;
pub mod extract;
pub mod json;
pub mod jsonio;
pub mod probe;
pub mod sched;
pub mod store;
pub mod text;
pub mod yt_util;
