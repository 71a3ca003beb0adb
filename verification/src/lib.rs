pub mod error;
pub mod flags;
pub mod laws;
pub mod file_structure;
pub mod lumps;
pub mod parse;
pub mod reader;
pub mod specific;
pub mod utils;

use vstd::prelude::*;

verus! {

/// Magic value of the primary dialect: 64 directory entries, per-lump
/// version and identifier fields, and a map-revision field.
pub const VBSP_MAGIC: i32 = 0x50534256;

/// Magic value of a dialect that is recognized nowhere: a file starting with
/// it is rejected as an unsupported format, exactly like any other unknown
/// magic value.
pub const IBSP_MAGIC: i32 = 0x50534249;

/// Magic value of the legacy dialect: 15 directory entries of offset and
/// length only.
pub const GOLDSRC_MAGIC: i32 = 0x0000001e;

/// Decode one in-memory file into a document.  Succeeds exactly when the
/// header is complete and every implemented lump decodes; any other 4-byte
/// magic value fails with `UnsupportedFormat`, and no partial document is
/// ever returned.
pub fn decode(bytes: Vec<u8>) -> (r: Result<
    crate::file_structure::BSPFile,
    crate::error::DecodeError,
>)
    ensures
        r is Ok <==> crate::parse::decode_ok(bytes@),
        r matches Ok(doc) ==> crate::parse::doc_matches(bytes@, doc),
        bytes@.len() < 4 ==> r == Err::<crate::file_structure::BSPFile, crate::error::DecodeError>(
            crate::error::DecodeError::OutOfBounds { lump: 0, position: 0, wanted: 4 },
        ),
        bytes@.len() >= 4 && crate::reader::le_i32(bytes@, 0) != VBSP_MAGIC && crate::reader::le_i32(
            bytes@,
            0,
        ) != GOLDSRC_MAGIC ==> r == Err::<
            crate::file_structure::BSPFile,
            crate::error::DecodeError,
        >(
            crate::error::DecodeError::UnsupportedFormat {
                magic: crate::reader::le_i32(bytes@, 0),
            },
        ),
{
    let mut reader = crate::reader::Reader::new(bytes);
    crate::parse::parse_file(&mut reader)
}

} // verus!
