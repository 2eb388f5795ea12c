//! A protocol schema compiler for multi-round handshake protocols.
//!
//! A schema declares an ordered list of rounds, each pairing a named
//! request payload type with an acknowledgment payload type.  From a
//! schema this library derives the runtime pieces of the protocol: a
//! per-round instance value that tracks one request/acknowledgment
//! exchange, encode and decode operations that all use one canonical
//! binary format (little-endian, fixed-width integers, no size limit),
//! introspection of round names and payload type names, and a shared
//! cell that lets many readers and one writer at a time work on the
//! same round's state.

pub use errors::ProtocolError;
pub use traits::{HandshakeGetter, HandshakeProtocol, RequestBuilder};

pub mod cell;
pub mod codec;
pub mod errors;
pub mod fixed_array;
pub mod instance;
pub mod payload;
pub mod schema;
pub mod traits;
