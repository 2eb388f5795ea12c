//! Length-checked decoding of fixed-size arrays.
//!
//! The general serialization mechanism hands a decoded fixed-size
//! field over as a plain sequence of elements.  Turning that sequence
//! into an array of exactly `n` elements must not truncate, pad, or
//! reorder: the conversion validates the length first and only then
//! transfers ownership of each element in order, so no partially
//! filled array is ever observable.  A sequence of any other length
//! is rejected whole with `LengthMismatch`.

use vstd::prelude::*;

verus! {

/// The one failure of the fixed-array adapter: the decoded sequence
/// does not hold exactly the number of elements the array needs.
#[derive(Clone, Copy, Debug, PartialEq, Eq, Structural)]
pub enum ArrayCodecError {
    LengthMismatch,
}

/// Turn a decoded sequence into the contents of an array of exactly
/// `n` elements.  Succeeds if and only if the sequence holds exactly
/// `n` elements, and then returns them all, in their original order.
/// No partial or short result is ever produced.
pub fn array_from_sequence<T>(seq: Vec<T>, n: usize) -> (r: Result<Vec<T>, ArrayCodecError>)
    ensures
        seq@.len() == n ==> (r matches Ok(a) && a@ == seq@),
        seq@.len() != n ==> r == Err::<Vec<T>, ArrayCodecError>(ArrayCodecError::LengthMismatch),
{
    if seq.len() != n {
        return Err(ArrayCodecError::LengthMismatch);
    }
    let ghost whole = seq@;
    let mut rest = seq;
    let mut out: Vec<T> = Vec::new();
    while rest.len() > 0
        invariant
            out@ + rest@ == whole,
        decreases rest@.len(),
    {
        let x = rest.remove(0);
        out.push(x);
        proof {
            assert(out@ + rest@ =~= whole);
        }
    }
    proof {
        assert(out@ =~= whole);
    }
    Ok(out)
}

/// The serialize direction of the adapter: hand a fixed-size
/// array's elements over as a plain sequence, all of them, unchanged
/// and in order — indistinguishable from serializing the same
/// elements as a general sequence.
pub fn sequence_from_array<T: Copy>(array: &[T]) -> (r: Vec<T>)
    ensures
        r@ == array@,
{
    let n = array.len();
    let mut out: Vec<T> = Vec::new();
    let mut i: usize = 0;
    while i < n
        invariant
            n == array@.len(),
            i <= n,
            out@ == array@.take(i as int),
        decreases n - i,
    {
        out.push(array[i]);
        proof {
            assert(out@ =~= array@.take(i + 1 as int));
        }
        i = i + 1;
    }
    proof {
        assert(out@ =~= array@);
    }
    out
}

} // verus!
