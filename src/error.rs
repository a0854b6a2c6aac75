use vstd::prelude::*;

verus! {

/// Everything that can go wrong while locating and decoding a payload.
#[derive(Debug, Clone, Copy, PartialEq, Eq)]
pub enum Error {
    /// The source ends before a field that has to be read.
    Truncated,
    /// The last four bytes are not the trailer magic; `actual` holds them.
    BadMagic { actual: [u8; 4] },
    /// The trailer names compression that this reader does not decode.
    UnsupportedCompression { code: u8 },
    /// The payload offset lies outside the source.
    BadOffset { offset: i32 },
    /// The compressed stream could not be decoded.
    MalformedPayload,
    /// An archive entry header could not be decoded.
    MalformedEntry,
}

} // verus!
