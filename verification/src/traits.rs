//! The behavioural surface of a generated protocol.
//!
//! These traits name the operations every protocol derived from a
//! schema supports: building a round instance by decoding a named
//! request, encoding and decoding the two payloads of a round, and
//! borrowing a round's request and acknowledgment values.  The
//! contracts live on the implementations, which state exactly what
//! each operation returns for the concrete schema and instance types.

use crate::errors::ProtocolError;
use vstd::prelude::*;

verus! {

/// Builds a round instance from a round name and the raw bytes of a
/// request payload.
pub trait RequestBuilder {
    /// The per-round instance type the builder produces.
    type Inst;

    /// Decode `data` as the request payload of the round named
    /// `handshake` and wrap it in a fresh instance with no
    /// acknowledgment yet.
    fn req_decode(&self, handshake: &str, data: &[u8]) -> Result<Self::Inst, ProtocolError>;
}

/// The codec operations of one round's request/acknowledgment
/// exchange.
pub trait HandshakeProtocol {
    /// Encode the round's request payload into canonical bytes.
    fn req_encode(&self) -> Vec<u8>;

    /// Encode the round's acknowledgment payload into canonical
    /// bytes, or into an empty byte sequence while no acknowledgment
    /// has arrived.
    fn ack_encode(&self) -> Vec<u8>;

    /// Decode `data` as the round's acknowledgment payload and store
    /// it in the instance.
    fn ack_decode(&mut self, data: &[u8]) -> Result<(), ProtocolError>;
}

/// Borrowing access to a round's request and acknowledgment values.
pub trait HandshakeGetter {
    type Req;
    type Ack;

    fn get_req_ref(&self) -> &Self::Req;

    fn get_ack_ref(&self) -> &Option<Self::Ack>;
}

} // verus!
