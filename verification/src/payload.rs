//! The closed set of payload shapes that rounds may declare.
//!
//! A schema pairs each round with a request payload type and an
//! acknowledgment payload type drawn from this set: the empty payload,
//! a fixed-width 32-bit integer, and the two fixed-size byte blocks
//! that cryptographic fields need (a 32-byte hash or nonce, a 64-byte
//! signature).

use vstd::prelude::*;

verus! {

/// A payload type a round may declare for its request or its
/// acknowledgment.
#[derive(Clone, Copy, Debug, PartialEq, Eq, Structural)]
pub enum PayloadType {
    /// No payload at all; its canonical encoding is zero bytes.
    Empty,
    /// An unsigned 32-bit integer, encoded as four little-endian bytes.
    U32,
    /// A 32-byte block, encoded as its bytes in order.
    Bytes32,
    /// A 64-byte block, encoded as its bytes in order.
    Bytes64,
}

/// A payload value of one of the declared payload types.
#[derive(Clone, Copy, Debug, PartialEq, Eq)]
pub enum Payload {
    Empty,
    U32(u32),
    Bytes32([u8; 32]),
    Bytes64([u8; 64]),
}

impl Payload {
    /// The payload type this value belongs to.
    pub open spec fn type_of(self) -> PayloadType {
        match self {
            Payload::Empty => PayloadType::Empty,
            Payload::U32(_) => PayloadType::U32,
            Payload::Bytes32(_) => PayloadType::Bytes32,
            Payload::Bytes64(_) => PayloadType::Bytes64,
        }
    }

    /// The payload type of this value, computed at run time.
    pub fn payload_type(&self) -> (t: PayloadType)
        ensures
            t == self.type_of(),
    {
        match self {
            Payload::Empty => PayloadType::Empty,
            Payload::U32(_) => PayloadType::U32,
            Payload::Bytes32(_) => PayloadType::Bytes32,
            Payload::Bytes64(_) => PayloadType::Bytes64,
        }
    }
}

/// The name of a payload type, as introspection reports it.
pub open spec fn spec_payload_type_name(t: PayloadType) -> Seq<char> {
    match t {
        PayloadType::Empty => "Empty"@,
        PayloadType::U32 => "U32"@,
        PayloadType::Bytes32 => "Bytes32"@,
        PayloadType::Bytes64 => "Bytes64"@,
    }
}

/// The name of a payload type, computed at run time.
pub fn payload_type_name(t: PayloadType) -> (r: String)
    ensures
        r@ == spec_payload_type_name(t),
{
    match t {
        PayloadType::Empty => "Empty".to_owned(),
        PayloadType::U32 => "U32".to_owned(),
        PayloadType::Bytes32 => "Bytes32".to_owned(),
        PayloadType::Bytes64 => "Bytes64".to_owned(),
    }
}

} // verus!
