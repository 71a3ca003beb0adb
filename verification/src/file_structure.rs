use vstd::prelude::*;

use crate::lumps::lumptype::Lumps;
use crate::reader::{le_u32, le_i32};

verus! {

/// The container dialect, selected by the 4-byte magic value at the start of
/// the file.
#[derive(Debug, Clone, Copy, PartialEq, Eq, Structural)]
pub enum BSPVersion {
    /// No dialect detected yet: the state of a freshly made header only.
    Unknown,
    /// The primary dialect: 64 directory entries with version and identifier
    /// fields, and a map-revision field.
    VBSP,
    /// The legacy dialect: 15 directory entries of offset and length only.
    GoldSrc,
    /// The oldest recognized layout; no decoder assigns it yet.
    Quake,
}

/// The decoded document: a header and one decoded lump per directory index.
#[derive(Debug, Clone, PartialEq)]
pub struct BSPFile {
    pub header: Header,
    pub lump_data: Lumps,
}

impl BSPFile {
    /// A document for the given header with an empty lump table of the
    /// header's dialect, ready to be filled.
    pub fn new(header: Header) -> (r: BSPFile)
        requires
            !(header.bspver is Unknown),
        ensures
            r.header == header,
            header.bspver is VBSP ==> (r.lump_data matches Lumps::VBSP(v) && v@.len() == 0),
            header.bspver is GoldSrc ==> (r.lump_data matches Lumps::GoldSrc(v) && v@.len() == 0),
            header.bspver is Quake ==> (r.lump_data matches Lumps::Quake(v) && v@.len() == 0),
    {
        let lump_data = match header.bspver {
            BSPVersion::VBSP => Lumps::VBSP(Vec::new()),
            BSPVersion::GoldSrc => Lumps::GoldSrc(Vec::new()),
            BSPVersion::Quake => Lumps::Quake(Vec::new()),
            BSPVersion::Unknown => Lumps::VBSP(Vec::new()),
        };
        BSPFile { header, lump_data }
    }
}

/// The file header: the dialect, its raw magic value, the dialect-dependent
/// container version and map revision, and the lump directory.  The
/// directory always holds 64 entries; the legacy dialect fills the first 15
/// and leaves the rest in their freshly made state.
#[derive(Debug, Clone, PartialEq, Eq)]
pub struct Header {
    /// Which dialect produced the file.
    pub bspver: BSPVersion,
    /// The raw magic value.
    pub ident: i32,
    /// Container format version; read for the primary dialect only.
    pub version: i32,
    /// The lump directory, one entry per lump index; always 64 entries.
    pub lumps: Vec<LumpInfo>,
    /// Map revision counter; read for the primary dialect only.
    pub map_revision: i32,
}

impl Header {
    /// A header with no dialect and a directory of 64 freshly made entries.
    pub fn new() -> (r: Header)
        ensures
            r.bspver is Unknown,
            r.ident == 0,
            r.version == 0,
            r.map_revision == 0,
            r.lumps@.len() == 64,
            forall|i: int| 0 <= i < 64 ==> lumpinfo_is_new(#[trigger] r.lumps@[i]),
    {
        let mut lumps: Vec<LumpInfo> = Vec::new();
        let mut i: usize = 0;
        while i < 64
            invariant
                i <= 64,
                lumps@.len() == i,
                forall|k: int| 0 <= k < i ==> lumpinfo_is_new(#[trigger] lumps@[k]),
            decreases 64 - i,
        {
            lumps.push(LumpInfo::new());
            i = i + 1;
        }
        Header { bspver: BSPVersion::Unknown, ident: 0, version: 0, lumps, map_revision: 0 }
    }
}

/// One lump directory entry.  The primary dialect stores all four file
/// fields; the legacy dialect stores offset and length only and leaves
/// version and identifier zero.
#[derive(Debug, Clone, Copy, PartialEq, Eq)]
pub struct LumpInfo {
    /// Byte offset of the lump body in the file.
    pub file_offset: u32,
    /// Byte length of the lump body.
    pub length: u32,
    /// Lump-specific format version (commonly 0).
    pub version: u32,
    /// 4-byte identifier tag (commonly all zero).
    pub ident: [u8; 4],
    /// The entry's own 0-based directory index.  Not stored in the file;
    /// kept so that decoders can branch on their own entry wherever decode
    /// order and directory order diverge.
    pub index: u8,
}

/// Every field of a freshly made directory entry is zero.
pub open spec fn lumpinfo_is_new(r: LumpInfo) -> bool {
    &&& r.file_offset == 0
    &&& r.length == 0
    &&& r.version == 0
    &&& r.ident@.len() == 4
    &&& forall|k: int| 0 <= k < 4 ==> r.ident@[k] == 0
    &&& r.index == 0
}

impl LumpInfo {
    /// A directory entry with every field zero.
    pub fn new() -> (r: LumpInfo)
        ensures
            lumpinfo_is_new(r),
    {
        LumpInfo { file_offset: 0, length: 0, version: 0, ident: [0, 0, 0, 0], index: 0 }
    }
}

/// `r` is directory entry `i` of a primary-dialect header stored in `b`:
/// 16 bytes at position `8 + 16 * i`, holding offset, length, version and
/// identifier, with `index` set to the positional index `i`.
pub open spec fn lumpinfo_vbsp_matches(b: Seq<u8>, i: int, r: LumpInfo) -> bool {
    let p = 8 + 16 * i;
    &&& r.file_offset == le_u32(b, p)
    &&& r.length == le_u32(b, p + 4)
    &&& r.version == le_u32(b, p + 8)
    &&& r.ident@.len() == 4
    &&& forall|k: int| 0 <= k < 4 ==> r.ident@[k] == b[p + 12 + k]
    &&& r.index == i
}

/// `r` is directory entry `i` of a legacy-dialect header stored in `b`:
/// 8 bytes at position `4 + 8 * i`, holding offset and length only, with
/// `index` set to the positional index `i`.
pub open spec fn lumpinfo_goldsrc_matches(b: Seq<u8>, i: int, r: LumpInfo) -> bool {
    let p = 4 + 8 * i;
    &&& r.file_offset == le_u32(b, p)
    &&& r.length == le_u32(b, p + 4)
    &&& r.version == 0
    &&& r.ident@.len() == 4
    &&& forall|k: int| 0 <= k < 4 ==> r.ident@[k] == 0
    &&& r.index == i
}

/// The number of bytes a primary-dialect header occupies: magic, container
/// version, 64 directory entries, map revision.
pub const VBSP_HEADER_SIZE: usize = 1036;

/// The number of bytes a legacy-dialect header occupies: magic and 15
/// directory entries.
pub const GOLDSRC_HEADER_SIZE: usize = 124;

/// `h` is the header stored in `b`: the dialect matches the magic value, and
/// the directory entries hold the stored fields.  Only a buffer whose magic
/// is a known dialect and whose header region is complete stores a header.
pub open spec fn header_matches(b: Seq<u8>, h: Header) -> bool {
    &&& h.ident == le_i32(b, 0)
    &&& h.lumps@.len() == 64
    &&& if le_i32(b, 0) == crate::VBSP_MAGIC {
        &&& b.len() >= VBSP_HEADER_SIZE
        &&& h.bspver is VBSP
        &&& h.version == le_i32(b, 4)
        &&& forall|i: int| 0 <= i < 64 ==> lumpinfo_vbsp_matches(b, i, #[trigger] h.lumps@[i])
        &&& h.map_revision == le_i32(b, 1032)
    } else if le_i32(b, 0) == crate::GOLDSRC_MAGIC {
        &&& b.len() >= GOLDSRC_HEADER_SIZE
        &&& h.bspver is GoldSrc
        &&& h.version == 0
        &&& forall|i: int| 0 <= i < 15 ==> lumpinfo_goldsrc_matches(b, i, #[trigger] h.lumps@[i])
        &&& forall|i: int| 15 <= i < 64 ==> lumpinfo_is_new(#[trigger] h.lumps@[i])
        &&& h.map_revision == 0
    } else {
        false
    }
}

/// The header region of `b` is complete: the magic is a known dialect and
/// the buffer holds the whole dialect-specific header.
pub open spec fn header_ok(b: Seq<u8>) -> bool {
    &&& b.len() >= 4
    &&& if le_i32(b, 0) == crate::VBSP_MAGIC {
        b.len() >= VBSP_HEADER_SIZE
    } else if le_i32(b, 0) == crate::GOLDSRC_MAGIC {
        b.len() >= GOLDSRC_HEADER_SIZE
    } else {
        false
    }
}

} // verus!
