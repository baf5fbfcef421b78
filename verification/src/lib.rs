//! Delta synchronisation of a directory tree: content hashes decide which
//! files differ, block signatures and binary deltas carry only the changed
//! bytes, and a per-file state machine drives the exchange.
//!
//! The library computes and decides; it touches neither files nor the
//! network. Its caller reads, writes and sends, and hands each result to the
//! step that takes it.

pub mod error;
pub mod text;
pub mod paths;
pub mod digest;
pub mod signature;
pub mod delta;
pub mod protocol;
pub mod client;
pub mod sync;
pub mod schedule;
pub mod server;
pub mod exchange;
