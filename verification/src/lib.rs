//! Playback orchestration for a terminal music player that searches a
//! remote catalog and streams audio through an external player process.
//!
//! The library holds the session state machine and its asynchronous
//! flows, the request sequencer that discards superseded results, the
//! TTL cache of resolved stream URLs, the bounded cache of result pages,
//! the mirror of the external player's live state, the argument vectors
//! and output parsing of the external search tool, and the framing of
//! the control-socket protocol. The terminal, the processes, and the
//! sockets themselves are a thin unverified shell around it.

pub mod config;
pub mod errors;
pub mod flow;
pub mod ipc;
pub mod mirror;
pub mod page_cache;
pub mod search;
pub mod session;
pub mod stream_cache;
pub mod text;
