//! The protocol schema: an ordered list of round definitions.
//!
//! A schema is authored by composition: single rounds are appended in
//! declaration order, and a whole sub-schema can be spliced in at the
//! point where it is referenced, its rounds keeping their own order.
//! The flattened list this produces is the schema — flattening
//! happens when the schema is built, not at each use.  The one
//! invariant is that round names are unique across the whole
//! flattened list; an addition that would break it is rejected whole
//! and leaves the schema unchanged.

use crate::payload::{payload_type_name, spec_payload_type_name, PayloadType};
use vstd::prelude::*;

verus! {

/// One round of the handshake: a name, the payload type of its
/// request, and the payload type of its acknowledgment.  The name is
/// the round's identity within its schema.
pub struct RoundDef {
    pub name: String,
    pub req: PayloadType,
    pub ack: PayloadType,
}

impl Clone for RoundDef {
    fn clone(&self) -> (r: Self)
        ensures
            r == *self,
    {
        RoundDef { name: self.name.clone(), req: self.req, ack: self.ack }
    }
}

/// An ordered sequence of round definitions with pairwise distinct
/// names.
pub struct Schema {
    rounds: Vec<RoundDef>,
}

impl View for Schema {
    type V = Seq<RoundDef>;

    closed spec fn view(&self) -> Seq<RoundDef> {
        self.rounds@
    }
}

/// Whether some round of the list carries this name.
pub open spec fn seq_has_round(s: Seq<RoundDef>, n: Seq<char>) -> bool {
    exists|i: int| 0 <= i < s.len() && s[i].name@ == n
}

/// The names of a round list, in declaration order.
pub open spec fn spec_round_names(s: Seq<RoundDef>) -> Seq<Seq<char>> {
    s.map_values(|r: RoundDef| r.name@)
}

/// Law: splicing keeps listing order.  The names of a round list
/// extended by a sub-schema's rounds are the original names followed
/// by the sub-schema's names, each block in its own declaration
/// order.  Together with `nest`'s contract this pins the flattened
/// listing order: a nested sub-schema's rounds appear depth-first at
/// the point where the sub-schema was referenced.
pub proof fn lemma_round_names_of_splice(a: Seq<RoundDef>, b: Seq<RoundDef>)
    ensures
        spec_round_names(a + b) == spec_round_names(a) + spec_round_names(b),
{
    assert(spec_round_names(a + b) =~= spec_round_names(a) + spec_round_names(b));
}

/// Distinctness of round names across a round list.
pub open spec fn seq_distinct_names(s: Seq<RoundDef>) -> bool {
    forall|i: int, j: int| 0 <= i < j < s.len() ==> s[i].name@ != s[j].name@
}

impl Schema {
    /// Whether some round of the schema carries this name.
    pub open spec fn has_round(self, n: Seq<char>) -> bool {
        seq_has_round(self@, n)
    }

    /// The position of the round carrying this name.
    pub open spec fn round_index(self, n: Seq<char>) -> int {
        choose|i: int| 0 <= i < self@.len() && self@[i].name@ == n
    }

    /// The schema's invariant: round names are pairwise distinct.
    pub open spec fn wf(self) -> bool {
        seq_distinct_names(self@)
    }

    /// An empty schema, to be grown by `add_round` and `nest`.
    pub fn new() -> (s: Schema)
        ensures
            s@ == Seq::<RoundDef>::empty(),
            s.wf(),
    {
        Schema { rounds: Vec::new() }
    }

    /// How many rounds the schema declares.
    pub fn len(&self) -> (n: usize)
        ensures
            n == self@.len(),
    {
        self.rounds.len()
    }

    /// The round at a given position of the declaration order.
    pub fn round_at(&self, i: usize) -> (r: &RoundDef)
        requires
            i < self@.len(),
        ensures
            *r == self@[i as int],
    {
        &self.rounds[i]
    }

    /// Look a round up by name.  Returns the position of the round
    /// with that name, or `None` when no round carries it.
    pub fn find_round(&self, name: &str) -> (r: Option<usize>)
        ensures
            match r {
                Some(i) => i < self@.len() && self@[i as int].name@ == name@,
                None => !self.has_round(name@),
            },
    {
        let key: String = name.to_owned();
        let n = self.rounds.len();
        let mut i: usize = 0;
        while i < n
            invariant
                n == self@.len(),
                i <= n,
                key@ == name@,
                forall|j: int| 0 <= j < i ==> self@[j].name@ != name@,
            decreases n - i,
        {
            if self.rounds[i].name == key {
                return Some(i);
            }
            i = i + 1;
        }
        None
    }

    /// Append one round at the end of the declaration order.  The
    /// round is added if and only if its name is still unused;
    /// otherwise the schema is left unchanged.
    pub fn add_round(&mut self, name: String, req: PayloadType, ack: PayloadType) -> (added: bool)
        requires
            old(self).wf(),
        ensures
            added <==> !old(self).has_round(name@),
            added ==> final(self)@ == old(self)@.push((RoundDef { name, req, ack })),
            !added ==> final(self)@ == old(self)@,
            final(self).wf(),
    {
        match self.find_round(name.as_str()) {
            Some(_) => false,
            None => {
                self.rounds.push(RoundDef { name, req, ack });
                true
            },
        }
    }

    /// Splice a sub-schema in at this point of the declaration
    /// order: its rounds are appended here, in their own order, as
    /// depth-first flattening prescribes.  The splice happens if and
    /// only if none of the sub-schema's names is already taken;
    /// otherwise the schema is left unchanged.
    pub fn nest(&mut self, sub: Schema) -> (merged: bool)
        requires
            old(self).wf(),
            sub.wf(),
        ensures
            merged <==> (forall|i: int|
                0 <= i < sub@.len() ==> !old(self).has_round(sub@[i].name@)),
            merged ==> final(self)@ == old(self)@ + sub@,
            !merged ==> final(self)@ == old(self)@,
            final(self).wf(),
    {
        let m = sub.rounds.len();
        let mut j: usize = 0;
        while j < m
            invariant
                m == sub@.len(),
                j <= m,
                *self == *old(self),
                old(self).wf(),
                sub.wf(),
                forall|k: int| 0 <= k < j ==> !old(self).has_round(sub@[k].name@),
            decreases m - j,
        {
            if self.find_round(sub.rounds[j].name.as_str()).is_some() {
                return false;
            }
            j = j + 1;
        }
        let ghost prefix = self@;
        let mut rest = sub;
        while rest.rounds.len() > 0
            invariant
                prefix == old(self)@,
                self@ + rest.rounds@ == prefix + sub@,
                forall|k: int| 0 <= k < sub@.len() ==> !seq_has_round(prefix, sub@[k].name@),
                seq_distinct_names(prefix),
                seq_distinct_names(sub@),
                self@.len() >= prefix.len(),
            decreases rest.rounds@.len(),
        {
            let r = rest.rounds.remove(0);
            self.rounds.push(r);
            proof {
                assert(self@ + rest.rounds@ =~= prefix + sub@);
            }
        }
        proof {
            assert(self@ =~= prefix + sub@);
            assert forall|i: int, j2: int| 0 <= i < j2 < self@.len() implies self@[i].name@
                != self@[j2].name@ by {
                if j2 >= prefix.len() {
                    assert(self@[j2] == sub@[j2 - prefix.len()]);
                    if i >= prefix.len() {
                        assert(self@[i] == sub@[i - prefix.len()]);
                    } else {
                        assert(self@[i] == prefix[i]);
                        assert(!seq_has_round(prefix, sub@[j2 - prefix.len()].name@));
                    }
                }
            }
        }
        true
    }

    /// The round names, in declaration order.  With sub-schemas
    /// spliced in depth-first at their reference point, this is
    /// exactly the flattened declaration order, nothing added,
    /// dropped, or reordered.
    pub fn list_round_names(&self) -> (r: Vec<String>)
        ensures
            r@.len() == self@.len(),
            forall|i: int| 0 <= i < r@.len() ==> #[trigger] r@[i]@ == self@[i].name@,
            r@.map_values(|s: String| s@) == spec_round_names(self@),
    {
        let n = self.rounds.len();
        let mut out: Vec<String> = Vec::new();
        let mut i: usize = 0;
        while i < n
            invariant
                n == self@.len(),
                i <= n,
                out@.len() == i,
                forall|j: int| 0 <= j < i ==> #[trigger] out@[j]@ == self@[j].name@,
            decreases n - i,
        {
            out.push(self.rounds[i].name.clone());
            i = i + 1;
        }
        proof {
            assert(out@.map_values(|s: String| s@) =~= spec_round_names(self@));
        }
        out
    }

    /// The payload type names of each round, in declaration order:
    /// for every round, the pair of its request type name and its
    /// acknowledgment type name.
    pub fn list_payload_types(&self) -> (r: Vec<(String, String)>)
        ensures
            r@.len() == self@.len(),
            forall|i: int|
                0 <= i < r@.len() ==> #[trigger] r@[i].0@ == spec_payload_type_name(self@[i].req)
                    && r@[i].1@ == spec_payload_type_name(self@[i].ack),
    {
        let n = self.rounds.len();
        let mut out: Vec<(String, String)> = Vec::new();
        let mut i: usize = 0;
        while i < n
            invariant
                n == self@.len(),
                i <= n,
                out@.len() == i,
                forall|j: int|
                    0 <= j < i ==> (#[trigger] out@[j]).0@ == spec_payload_type_name(self@[j].req)
                        && out@[j].1@ == spec_payload_type_name(self@[j].ack),
            decreases n - i,
        {
            let req_name = payload_type_name(self.rounds[i].req);
            let ack_name = payload_type_name(self.rounds[i].ack);
            out.push((req_name, ack_name));
            i = i + 1;
        }
        out
    }
}


} // verus!
