//! Presence synchronization engine: mirrors a media server's
//! currently-playing state onto a chat client's rich-presence transport.
//!
//! The library holds the decision logic of the engine — content
//! filtering, image-cache resolution, payload construction, and the
//! connection/backoff state machines — as verified code.  Network and
//! file traffic stays with the caller, which feeds results back in as
//! plain values.

pub mod connection;
pub mod filter;
pub mod imgur;
pub mod media;
pub mod presence;
pub mod sync;
