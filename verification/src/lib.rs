//! A verified core for a WebAssembly service pod: the wire codec for
//! `Request`/`Response` records, the length-prefixed RPC framing, the
//! scheme-routed outbound planning, the per-worker buffer arena with
//! capacity reuse, the context-id scheme that routes guest calls back to
//! their originating instance, and the dispatch decisions of the host.
//!
//! Engine and socket work (WebAssembly instantiation, linear-memory copies,
//! TCP and HTTP listeners) happens outside this crate; the functions here
//! take and return plain values, and their contracts state exactly what the
//! host protocol requires of them.

pub mod arena;
pub mod codec;
pub mod config;
pub mod dispatch;
pub mod error;
pub mod frame;
pub mod guest;
pub mod http;
pub mod imports;
pub mod instance;
pub mod pool;
pub mod uri;
pub mod wire;
