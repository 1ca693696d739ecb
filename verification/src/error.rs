//! The errors of decoding.

use vstd::prelude::*;

verus! {

/// Why some input could not be turned into a key.
#[derive(Clone, Copy, Debug, PartialEq, Eq, Structural)]
pub enum Error {
    /// The input does not have the length of a compressed key.
    DecodeLengthError,
    /// The input has the right length but is not the encoding of a point of the group.
    DecodePointError,
    /// The text is not `0x` followed by an even number of hex digits. Text that is such
    /// hex fails, if it does, with one of the two errors above.
    DecodeHexError,
}

} // verus!
