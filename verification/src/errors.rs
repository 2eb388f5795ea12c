//! The error kinds a protocol operation can raise.

use vstd::prelude::*;

verus! {

/// The two failures a protocol operation can surface.  `UnknownRound`
/// means the round name handed to a decode-by-name call matches no
/// round of the schema; `CodecError` means the bytes handed to a
/// decode call are not exactly one canonical encoding of the expected
/// payload type (malformed, truncated, or carrying trailing bytes).
/// Both are fatal to the single call that raised them: no partial
/// state is retained.
#[derive(Clone, Copy, Debug, PartialEq, Eq, Structural)]
pub enum ProtocolError {
    UnknownRound,
    CodecError,
}

} // verus!
