//! Core machinery of a Kubernetes client and controller runtime:
//! typed request construction, watch-stream decoding, the restartable
//! watcher state machine, a reflected in-memory store, conditional
//! waits, a lease-based elector, conversion-webhook envelopes and the
//! WebSocket upgrade handshake.

pub mod backoff;
pub mod boundary;
pub mod client;
pub mod config;
pub mod conversion;
pub mod discovery;
pub mod flatten;
pub mod jsonval;
pub mod lease;
pub mod meta;
pub mod object;
pub mod plural;
pub mod request;
pub mod store;
pub mod strutil;
pub mod subresource;
pub mod upgrade;
pub mod wait;
pub mod watcher;
