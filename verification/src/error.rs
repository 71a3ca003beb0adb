use vstd::prelude::*;

verus! {

/// A failure while reading raw bytes or text from the underlying buffer.
#[derive(Debug, Clone, Copy, PartialEq, Eq, Structural)]
pub enum ReadError {
    /// A read of `wanted` more bytes starting at `position` would pass the
    /// end of the buffer.
    OutOfBounds { position: usize, wanted: usize },
    /// The bytes starting at `position` were not a valid UTF-8 text run.
    MalformedText { position: usize },
}

/// A fatal failure of the whole decode.  Decoding is all-or-nothing: the
/// first fatal condition aborts the parse and reports the lump in which it
/// occurred.
#[derive(Debug, Clone, Copy, PartialEq, Eq, Structural)]
pub enum DecodeError {
    /// The 4-byte magic value at the start of the file matched no known
    /// dialect.
    UnsupportedFormat { magic: i32 },
    /// A read inside lump `lump` would pass the end of the buffer.
    OutOfBounds { lump: u8, position: usize, wanted: usize },
    /// A text run inside lump `lump` was not valid text, or a key-value line
    /// lacked the expected key/value split.
    MalformedText { lump: u8, position: usize },
}

/// How a raw read failure maps to a whole-decode failure once the index of
/// the lump being decoded is known.
pub open spec fn spec_attach_lump(e: ReadError, lump: u8) -> DecodeError {
    match e {
        ReadError::OutOfBounds { position, wanted } => DecodeError::OutOfBounds {
            lump,
            position,
            wanted,
        },
        ReadError::MalformedText { position } => DecodeError::MalformedText { lump, position },
    }
}

/// Attach the index of the lump being decoded to a raw read failure.
pub fn attach_lump(e: ReadError, lump: u8) -> (r: DecodeError)
    ensures
        r == spec_attach_lump(e, lump),
{
    match e {
        ReadError::OutOfBounds { position, wanted } => DecodeError::OutOfBounds {
            lump,
            position,
            wanted,
        },
        ReadError::MalformedText { position } => DecodeError::MalformedText { lump, position },
    }
}

} // verus!
