//! A live round instance: one request/acknowledgment exchange.
//!
//! An instance is tagged with the round it belongs to; the tag is
//! fixed at construction and never changes afterwards.  It carries
//! the round's request payload and, once one has been decoded, the
//! round's acknowledgment payload.  Moving a handshake to another
//! round means constructing a new instance, never retagging an old
//! one.

use crate::codec::{decode_payload, encode_payload, spec_decodable, spec_encoding};
use crate::errors::ProtocolError;
use crate::payload::{Payload, PayloadType};
use crate::schema::Schema;
use crate::traits::{HandshakeGetter, HandshakeProtocol, RequestBuilder};
use vstd::prelude::*;

verus! {

/// One round's state: which round it is, the payload types that
/// round declared, the request value, and the acknowledgment value
/// once one has been decoded.
pub struct Instance {
    name: String,
    req_t: PayloadType,
    ack_t: PayloadType,
    req: Payload,
    ack: Option<Payload>,
}

impl Instance {
    /// The instance's invariant: its payloads belong to the payload
    /// types its round declared.
    #[verifier::type_invariant]
    spec fn inv(self) -> bool {
        &&& self.req.type_of() == self.req_t
        &&& (self.ack matches Some(a) ==> a.type_of() == self.ack_t)
    }

    /// The name of the round this instance belongs to: its tag.
    pub closed spec fn spec_name(self) -> Seq<char> {
        self.name@
    }

    /// The payload type of the round's request.
    pub closed spec fn req_type(self) -> PayloadType {
        self.req_t
    }

    /// The payload type of the round's acknowledgment.
    pub closed spec fn ack_type(self) -> PayloadType {
        self.ack_t
    }

    /// The request payload.
    pub closed spec fn spec_req(self) -> Payload {
        self.req
    }

    /// The acknowledgment payload, absent until one has been
    /// decoded.
    pub closed spec fn spec_ack(self) -> Option<Payload> {
        self.ack
    }

    /// Construct an instance directly from a request value the
    /// application supplies.  The acknowledgment starts out absent.
    pub fn new(name: String, req_t: PayloadType, ack_t: PayloadType, req: Payload) -> (inst:
        Instance)
        requires
            req.type_of() == req_t,
        ensures
            inst.spec_name() == name@,
            inst.req_type() == req_t,
            inst.ack_type() == ack_t,
            inst.spec_req() == req,
            inst.spec_ack() is None,
    {
        Instance { name, req_t, ack_t, req, ack: None }
    }

    /// The round name this instance is tagged with.
    pub fn round_name(&self) -> (r: &String)
        ensures
            r@ == self.spec_name(),
    {
        &self.name
    }
}

impl RequestBuilder for Schema {
    type Inst = Instance;

    /// Decode a request for the round named `handshake`.  A name
    /// that matches no round of the schema fails with
    /// `UnknownRound`; bytes that are not exactly one canonical
    /// encoding of the round's request payload type fail with
    /// `CodecError`; otherwise the result is a fresh instance of
    /// that round holding the decoded request and no acknowledgment.
    fn req_decode(&self, handshake: &str, data: &[u8]) -> (r: Result<Instance, ProtocolError>)
        ensures
            self.wf() ==> req_decode_post(*self, handshake@, data@, r),
    {
        match self.find_round(handshake) {
            None => Err(ProtocolError::UnknownRound),
            Some(i) => {
                let round = self.round_at(i);
                let req_t = round.req;
                let ack_t = round.ack;
                let name = round.name.clone();
                proof {
                    if self.wf() {
                        let k = self.round_index(handshake@);
                        assert(0 <= k < self@.len() && self@[k].name@ == handshake@);
                        assert(k == i as int);
                    }
                }
                match decode_payload(req_t, data) {
                    Ok(p) => Ok(Instance::new(name, req_t, ack_t, p)),
                    Err(_) => Err(ProtocolError::CodecError),
                }
            },
        }
    }
}

/// What decoding a request by round name returns: `UnknownRound`
/// exactly for names the schema does not declare; for a declared
/// round, a fresh instance of that round holding the one value whose
/// canonical encoding `data` is, or `CodecError` when `data` is no
/// such encoding.
pub open spec fn req_decode_post(
    s: Schema,
    name: Seq<char>,
    data: Seq<u8>,
    r: Result<Instance, ProtocolError>,
) -> bool {
    &&& (r == Err::<Instance, ProtocolError>(ProtocolError::UnknownRound) <==> !s.has_round(name))
    &&& (s.has_round(name) ==> {
        let rd = s@[s.round_index(name)];
        &&& (r is Ok <==> spec_decodable(rd.req, data))
        &&& (r matches Ok(inst) ==> {
            &&& inst.spec_name() == name
            &&& inst.req_type() == rd.req
            &&& inst.ack_type() == rd.ack
            &&& spec_encoding(inst.spec_req()) == data
            &&& inst.spec_ack() is None
        })
        &&& (!spec_decodable(rd.req, data) ==> r == Err::<Instance, ProtocolError>(
            ProtocolError::CodecError,
        ))
    })
}

impl HandshakeProtocol for Instance {
    /// Encode the request payload into its canonical bytes.  Only
    /// the payload goes on the wire: the round tag travels
    /// out-of-band.
    fn req_encode(&self) -> (r: Vec<u8>)
        ensures
            r@ == spec_encoding(self.spec_req()),
    {
        encode_payload(&self.req)
    }

    /// Encode the acknowledgment payload into its canonical bytes.
    /// While no acknowledgment has been decoded the result is the
    /// empty byte sequence — a sentinel for "no acknowledgment yet",
    /// which callers must not confuse with the encoding of an empty
    /// payload type.
    fn ack_encode(&self) -> (r: Vec<u8>)
        ensures
            self.spec_ack() matches Some(a) ==> r@ == spec_encoding(a),
            self.spec_ack() is None ==> r@ == Seq::<u8>::empty(),
    {
        match &self.ack {
            Some(a) => encode_payload(a),
            None => Vec::new(),
        }
    }

    /// Decode `data` as the round's acknowledgment and store it,
    /// overwriting any earlier acknowledgment: the latest decode
    /// wins.  On failure the call reports `CodecError` and the
    /// instance is left exactly as it was.  The round tag, the
    /// request, and the declared payload types never change.
    fn ack_decode(&mut self, data: &[u8]) -> (r: Result<(), ProtocolError>)
        ensures
            final(self).spec_name() == old(self).spec_name(),
            final(self).req_type() == old(self).req_type(),
            final(self).ack_type() == old(self).ack_type(),
            final(self).spec_req() == old(self).spec_req(),
            r is Ok <==> spec_decodable(old(self).ack_type(), data@),
            r is Ok ==> (final(self).spec_ack() matches Some(a) && a.type_of() == old(
                self,
            ).ack_type() && spec_encoding(a) == data@),
            r is Err ==> final(self).spec_ack() == old(self).spec_ack() && r == Err::<
                (),
                ProtocolError,
            >(ProtocolError::CodecError),
    {
        proof {
            use_type_invariant(&*self);
        }
        match decode_payload(self.ack_t, data) {
            Ok(p) => {
                self.ack = Some(p);
                Ok(())
            },
            Err(_) => Err(ProtocolError::CodecError),
        }
    }
}

impl HandshakeGetter for Instance {
    type Req = Payload;

    type Ack = Payload;

    /// Borrow the request payload.
    fn get_req_ref(&self) -> (r: &Payload)
        ensures
            *r == self.spec_req(),
    {
        &self.req
    }

    /// Borrow the acknowledgment payload, absent until one has been
    /// decoded.
    fn get_ack_ref(&self) -> (r: &Option<Payload>)
        ensures
            *r == self.spec_ack(),
    {
        &self.ack
    }
}

} // verus!
