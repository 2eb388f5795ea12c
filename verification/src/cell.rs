//! A shared, reader/writer-locked round state.
//!
//! The baseline instance owns its round state exclusively.  This
//! variant puts one round's request and acknowledgment behind a
//! reader/writer lock inside a shared handle: any number of holders
//! may read a snapshot of the state concurrently, while one writer
//! at a time commits an acknowledgment.  Writers are serialized
//! against readers and against each other by the lock alone; among
//! concurrent writers the last to acquire the lock wins, and earlier
//! values are discarded with no record kept.  The lock is held only
//! for the duration of the access or of the codec call, never across
//! anything slower.

use crate::codec::{decode_payload, encode_payload, spec_decodable, spec_encoding};
use crate::errors::ProtocolError;
use crate::payload::{Payload, PayloadType};
use std::sync::Arc;
use vstd::prelude::*;
use vstd::rwlock::{RwLock, RwLockPredicate};

verus! {

/// The state a cell protects: a round's request payload and its
/// acknowledgment payload, absent until one is committed.
pub struct RoundState {
    pub req: Payload,
    pub ack: Option<Payload>,
}

/// The lock invariant of a cell: every state the lock ever stores
/// holds payloads of the round's declared payload types.
pub struct RoundTyping {
    pub req_t: PayloadType,
    pub ack_t: PayloadType,
}

impl RwLockPredicate<RoundState> for RoundTyping {
    open spec fn inv(self, v: RoundState) -> bool {
        &&& v.req.type_of() == self.req_t
        &&& (v.ack matches Some(a) ==> a.type_of() == self.ack_t)
    }
}

/// A shared handle to one round's locked state.  Every clone of the
/// handle refers to the same state; the state lives as long as its
/// longest-lived holder.
pub struct HandshakeCell {
    req_t: PayloadType,
    ack_t: PayloadType,
    lock: Arc<RwLock<RoundState, RoundTyping>>,
}

/// Relies on `Arc::clone`: the result is another pointer to the very
/// same allocation, so the cloned handle carries the same lock.
#[verifier::external_body]
fn share_lock(l: &Arc<RwLock<RoundState, RoundTyping>>) -> (r: Arc<
    RwLock<RoundState, RoundTyping>,
>)
    ensures
        r == *l,
{
    Arc::clone(l)
}

impl Clone for HandshakeCell {
    /// Another handle to the same shared round state.
    fn clone(&self) -> (r: Self)
        ensures
            r.typing() == self.typing(),
    {
        proof {
            use_type_invariant(self);
        }
        HandshakeCell { req_t: self.req_t, ack_t: self.ack_t, lock: share_lock(&self.lock) }
    }
}

impl HandshakeCell {
    /// The handle's invariant: the payload types it carries are the
    /// ones the shared lock's invariant enforces.
    #[verifier::type_invariant]
    spec fn inv(self) -> bool {
        &&& self.req_t == (*self.lock).pred().req_t
        &&& self.ack_t == (*self.lock).pred().ack_t
    }

    /// The payload types this cell's round declared, fixed when the
    /// cell is created and shared by every handle.
    pub closed spec fn typing(&self) -> RoundTyping {
        (*self.lock).pred()
    }

    /// The payload type of the round's request.
    pub open spec fn req_type(&self) -> PayloadType {
        self.typing().req_t
    }

    /// The payload type of the round's acknowledgment.
    pub open spec fn ack_type(&self) -> PayloadType {
        self.typing().ack_t
    }

    /// The request payload type, as a runtime value.
    pub fn request_type(&self) -> (t: PayloadType)
        ensures
            t == self.req_type(),
    {
        proof {
            use_type_invariant(self);
        }
        self.req_t
    }

    /// The acknowledgment payload type, as a runtime value.
    pub fn acknowledgment_type(&self) -> (t: PayloadType)
        ensures
            t == self.ack_type(),
    {
        proof {
            use_type_invariant(self);
        }
        self.ack_t
    }

    /// Create a cell for one round from the application's request
    /// value.  The acknowledgment starts out absent.
    pub fn new(req_t: PayloadType, ack_t: PayloadType, req: Payload) -> (c: HandshakeCell)
        requires
            req.type_of() == req_t,
        ensures
            c.req_type() == req_t,
            c.ack_type() == ack_t,
    {
        let state = RoundState { req, ack: None };
        let lock = RwLock::new(state, Ghost(RoundTyping { req_t, ack_t }));
        HandshakeCell { req_t, ack_t, lock: Arc::new(lock) }
    }

    /// Read a snapshot of the request under a read lock.  Concurrent
    /// readers do not exclude each other.
    pub fn read_request(&self) -> (p: Payload)
        ensures
            p.type_of() == self.req_type(),
    {
        let handle = (*self.lock).acquire_read();
        let p = handle.borrow().req;
        handle.release_read();
        p
    }

    /// Read a snapshot of the acknowledgment under a read lock:
    /// `None` while no writer has committed one yet, otherwise the
    /// most recently committed value at the moment the lock was
    /// held.
    pub fn read_acknowledgment(&self) -> (r: Option<Payload>)
        ensures
            r matches Some(a) ==> a.type_of() == self.ack_type(),
    {
        let handle = (*self.lock).acquire_read();
        let r = handle.borrow().ack;
        handle.release_read();
        r
    }

    /// Commit an acknowledgment under the write lock, replacing
    /// whatever acknowledgment was stored before: the last writer to
    /// acquire the lock wins.  The request is left untouched.
    pub fn write_acknowledgment(&self, ack: Payload)
        requires
            ack.type_of() == self.ack_type(),
    {
        let (state, handle) = (*self.lock).acquire_write();
        let next = RoundState { req: state.req, ack: Some(ack) };
        handle.release_write(next);
    }

    /// Encode a snapshot of the request into its canonical bytes,
    /// holding the read lock only for the codec call.  The bytes are
    /// the canonical encoding of some value of the round's request
    /// payload type — which value depends on what the cell held when
    /// the lock was acquired.
    pub fn req_encode(&self) -> (r: Vec<u8>)
        ensures
            exists|p: Payload|
                p.type_of() == self.req_type() && r@ == spec_encoding(p),
    {
        let handle = (*self.lock).acquire_read();
        let bytes = encode_payload(&handle.borrow().req);
        handle.release_read();
        bytes
    }

    /// Encode a snapshot of the acknowledgment into its canonical
    /// bytes, holding the read lock only for the codec call.  While
    /// no acknowledgment is stored the result is the empty byte
    /// sequence, the "no acknowledgment yet" sentinel.
    pub fn ack_encode(&self) -> (r: Vec<u8>)
        ensures
            r@.len() != 0 ==> exists|a: Payload|
                a.type_of() == self.ack_type() && r@ == spec_encoding(a),
    {
        let handle = (*self.lock).acquire_read();
        let bytes = match &handle.borrow().ack {
            Some(a) => encode_payload(a),
            None => Vec::new(),
        };
        handle.release_read();
        bytes
    }

    /// Decode `data` as the round's acknowledgment and commit it
    /// under the write lock, overwriting any earlier acknowledgment.
    /// Succeeds exactly when `data` is a canonical encoding of the
    /// round's acknowledgment payload type; on failure the state is
    /// left as it was.
    pub fn ack_decode(&self, data: &[u8]) -> (r: Result<(), ProtocolError>)
        ensures
            r is Ok <==> spec_decodable(self.ack_type(), data@),
            r is Err ==> r == Err::<(), ProtocolError>(ProtocolError::CodecError),
    {
        proof {
            use_type_invariant(self);
        }
        match decode_payload(self.ack_t, data) {
            Ok(p) => {
                self.write_acknowledgment(p);
                Ok(())
            },
            Err(_) => Err(ProtocolError::CodecError),
        }
    }
}

} // verus!
