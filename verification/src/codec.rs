//! The canonical binary codec every round uses.
//!
//! One encoding policy covers the whole protocol: little-endian byte
//! order, fixed-width integers, no size limit.  Every encode and
//! decode call goes through the same configuration, built in one
//! place, so that two parties given the same payload value always
//! produce and accept the same bytes.  Decoding accepts exactly the
//! canonical encoding of the expected payload type and nothing else:
//! truncated input and trailing bytes are both rejected.

use crate::errors::ProtocolError;
use crate::payload::{Payload, PayloadType};
use vstd::bytes::{lemma_auto_spec_u32_to_from_le_bytes, spec_u32_from_le_bytes, spec_u32_to_le_bytes};
use vstd::prelude::*;

verus! {

/// The canonical encoding of a payload value: nothing for the empty
/// payload, four little-endian bytes for a 32-bit integer, and the
/// bytes themselves, in order, for a fixed-size byte block.
pub open spec fn spec_encoding(p: Payload) -> Seq<u8> {
    match p {
        Payload::Empty => Seq::<u8>::empty(),
        Payload::U32(x) => spec_u32_to_le_bytes(x),
        Payload::Bytes32(b) => b@,
        Payload::Bytes64(b) => b@,
    }
}

/// The length of the canonical encoding of each payload type.  Every
/// payload type here is fixed-width, so a byte sequence decodes as a
/// given type exactly when it has this length.
pub open spec fn spec_encoded_len(t: PayloadType) -> nat {
    match t {
        PayloadType::Empty => 0,
        PayloadType::U32 => 4,
        PayloadType::Bytes32 => 32,
        PayloadType::Bytes64 => 64,
    }
}

/// Whether `data` is the canonical encoding of some value of payload
/// type `t`.
pub open spec fn spec_decodable(t: PayloadType, data: Seq<u8>) -> bool {
    data.len() == spec_encoded_len(t)
}

/// The canonical encoding of a payload has the fixed length its type
/// prescribes, so every encoded payload decodes again.
pub proof fn lemma_encoding_len(p: Payload)
    ensures
        spec_encoding(p).len() == spec_encoded_len(p.type_of()),
        spec_decodable(p.type_of(), spec_encoding(p)),
{
    lemma_auto_spec_u32_to_from_le_bytes();
}

/// Law: per payload type, the canonical encoding is injective.  Two
/// payload values of the same type with the same encoding are the
/// same value, so a decoder can never confuse two distinct values.
pub proof fn lemma_encoding_injective(p1: Payload, p2: Payload)
    requires
        p1.type_of() == p2.type_of(),
        spec_encoding(p1) == spec_encoding(p2),
    ensures
        p1 == p2,
{
    broadcast use vstd::array::group_array_axioms;

    lemma_auto_spec_u32_to_from_le_bytes();
    match (p1, p2) {
        (Payload::U32(x1), Payload::U32(x2)) => {
            assert(spec_u32_to_le_bytes(x1).len() == 4);
            assert(spec_u32_to_le_bytes(x2).len() == 4);
            assert(spec_u32_from_le_bytes(spec_u32_to_le_bytes(x1)) == x1);
            assert(spec_u32_from_le_bytes(spec_u32_to_le_bytes(x2)) == x2);
        },
        (Payload::Bytes32(b1), Payload::Bytes32(b2)) => {
            assert(forall|i: int| 0 <= i < 32 ==> b1[i] == b2[i]);
            assert(b1 =~= b2);
        },
        (Payload::Bytes64(b1), Payload::Bytes64(b2)) => {
            assert(forall|i: int| 0 <= i < 64 ==> b1[i] == b2[i]);
            assert(b1 =~= b2);
        },
        _ => {},
    }
}

/// Relies on `bincode::encode_to_vec` with the canonical
/// configuration (little-endian, fixed-width integers, no limit): a
/// `u32` is written as its four bytes in little-endian order, and
/// writing into a fresh `Vec` with no size limit cannot fail.
#[verifier::external_body]
fn bincode_encode_u32(x: u32) -> (r: Vec<u8>)
    ensures
        r@ == spec_u32_to_le_bytes(x),
{
    let cfg = bincode::config::standard()
        .with_little_endian()
        .with_fixed_int_encoding()
        .with_no_limit();
    bincode::encode_to_vec(x, cfg).unwrap()
}

/// Relies on `bincode::decode_from_slice` with the canonical
/// configuration: a `u32` is read as exactly four little-endian
/// bytes, which cannot fail when four bytes are present.
#[verifier::external_body]
fn bincode_decode_u32(data: &[u8]) -> (r: u32)
    requires
        data@.len() == 4,
    ensures
        r == spec_u32_from_le_bytes(data@),
{
    let cfg = bincode::config::standard()
        .with_little_endian()
        .with_fixed_int_encoding()
        .with_no_limit();
    let (x, _): (u32, usize) = bincode::decode_from_slice(data, cfg).unwrap();
    x
}

/// Relies on `bincode::encode_to_vec` with the canonical
/// configuration: a `[u8; 32]` is written as its 32 bytes in order,
/// with no length prefix, and writing into a fresh `Vec` with no size
/// limit cannot fail.
#[verifier::external_body]
fn bincode_encode_bytes32(b: &[u8; 32]) -> (r: Vec<u8>)
    ensures
        r@ == b@,
{
    let cfg = bincode::config::standard()
        .with_little_endian()
        .with_fixed_int_encoding()
        .with_no_limit();
    bincode::encode_to_vec(*b, cfg).unwrap()
}

/// Relies on `bincode::decode_from_slice` with the canonical
/// configuration: a `[u8; 32]` is read as exactly its 32 bytes in
/// order, which cannot fail when 32 bytes are present.
#[verifier::external_body]
fn bincode_decode_bytes32(data: &[u8]) -> (r: [u8; 32])
    requires
        data@.len() == 32,
    ensures
        r@ == data@,
{
    let cfg = bincode::config::standard()
        .with_little_endian()
        .with_fixed_int_encoding()
        .with_no_limit();
    let (a, _): ([u8; 32], usize) = bincode::decode_from_slice(data, cfg).unwrap();
    a
}

/// Relies on `bincode::encode_to_vec` with the canonical
/// configuration: a `[u8; 64]` is written as its 64 bytes in order,
/// with no length prefix, and writing into a fresh `Vec` with no size
/// limit cannot fail.
#[verifier::external_body]
fn bincode_encode_bytes64(b: &[u8; 64]) -> (r: Vec<u8>)
    ensures
        r@ == b@,
{
    let cfg = bincode::config::standard()
        .with_little_endian()
        .with_fixed_int_encoding()
        .with_no_limit();
    bincode::encode_to_vec(*b, cfg).unwrap()
}

/// Relies on `bincode::decode_from_slice` with the canonical
/// configuration: a `[u8; 64]` is read as exactly its 64 bytes in
/// order, which cannot fail when 64 bytes are present.
#[verifier::external_body]
fn bincode_decode_bytes64(data: &[u8]) -> (r: [u8; 64])
    requires
        data@.len() == 64,
    ensures
        r@ == data@,
{
    let cfg = bincode::config::standard()
        .with_little_endian()
        .with_fixed_int_encoding()
        .with_no_limit();
    let (a, _): ([u8; 64], usize) = bincode::decode_from_slice(data, cfg).unwrap();
    a
}

/// Encode a payload value into its canonical byte sequence.
pub fn encode_payload(p: &Payload) -> (r: Vec<u8>)
    ensures
        r@ == spec_encoding(*p),
{
    match p {
        Payload::Empty => Vec::new(),
        Payload::U32(x) => bincode_encode_u32(*x),
        Payload::Bytes32(b) => bincode_encode_bytes32(b),
        Payload::Bytes64(b) => bincode_encode_bytes64(b),
    }
}

/// Decode a payload of type `t` from `data`.  Succeeds exactly when
/// `data` is the canonical encoding of a value of type `t` — in
/// particular the whole input must be consumed, so truncated bytes
/// and trailing bytes both fail — and then returns the one value
/// whose encoding `data` is.
pub fn decode_payload(t: PayloadType, data: &[u8]) -> (r: Result<Payload, ProtocolError>)
    ensures
        r is Ok <==> spec_decodable(t, data@),
        r matches Ok(p) ==> p.type_of() == t && spec_encoding(p) == data@,
        r is Err ==> r == Err::<Payload, ProtocolError>(ProtocolError::CodecError),
{
    match t {
        PayloadType::Empty => {
            if data.len() == 0 {
                assert(data@ =~= Seq::<u8>::empty());
                Ok(Payload::Empty)
            } else {
                Err(ProtocolError::CodecError)
            }
        },
        PayloadType::U32 => {
            if data.len() == 4 {
                let x = bincode_decode_u32(data);
                proof {
                    lemma_auto_spec_u32_to_from_le_bytes();
                }
                Ok(Payload::U32(x))
            } else {
                Err(ProtocolError::CodecError)
            }
        },
        PayloadType::Bytes32 => {
            if data.len() == 32 {
                Ok(Payload::Bytes32(bincode_decode_bytes32(data)))
            } else {
                Err(ProtocolError::CodecError)
            }
        },
        PayloadType::Bytes64 => {
            if data.len() == 64 {
                Ok(Payload::Bytes64(bincode_decode_bytes64(data)))
            } else {
                Err(ProtocolError::CodecError)
            }
        },
    }
}

/// Law: the codec round-trips.  Decoding the canonical encoding of
/// any payload value, at that value's own type, succeeds and yields
/// the value back.
pub proof fn lemma_codec_round_trip(p: Payload, r: Result<Payload, ProtocolError>)
    requires
        r is Ok <==> spec_decodable(p.type_of(), spec_encoding(p)),
        r matches Ok(q) ==> q.type_of() == p.type_of() && spec_encoding(q) == spec_encoding(p),
    ensures
        r == Ok::<Payload, ProtocolError>(p),
{
    lemma_encoding_len(p);
    match r {
        Ok(q) => {
            lemma_encoding_injective(p, q);
        },
        Err(_) => {},
    }
}

/// Encode a payload and decode the bytes back at the same type: the
/// round trip reproduces the value exactly.
pub fn round_trip(p: &Payload) -> (r: Result<Payload, ProtocolError>)
    ensures
        r == Ok::<Payload, ProtocolError>(*p),
{
    let bytes = encode_payload(p);
    let r = decode_payload(p.payload_type(), bytes.as_slice());
    proof {
        lemma_codec_round_trip(*p, r);
    }
    r
}

} // verus!
