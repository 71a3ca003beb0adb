use vstd::prelude::*;

use crate::reader::{le_u16, le_i32};

verus! {

/// The tag of the recognized static-prop sub-lump.  By a documented
/// historical quirk of the format, this one tag is compared using the
/// reversed byte order relative to every other 4-byte tag: the stored
/// little-endian integer must equal the bytes `s p r p` read big-endian.
/// Do not generalize this reversal to other tags.
pub const SPRP_TAG: i32 = 0x73707270;

/// The count-prefixed directory at the start of the game lump.
#[derive(Debug, Clone, PartialEq, Eq)]
pub struct GameLumpHeader {
    pub lump_count: i32,
    /// Of length `lump_count`.
    pub game_lump_info: Vec<GameLumpInfo>,
}

/// One sub-lump descriptor of the game lump's directory: 16 bytes.
#[derive(Debug, Clone, Copy, PartialEq, Eq, Structural)]
pub struct GameLumpInfo {
    /// The 4-byte tag of the sub-lump, read as a little-endian integer.
    pub id: i32,
    pub flags: u16,
    pub version: u16,
    /// Offset from the beginning of the file.
    pub file_offset: i32,
    pub file_length: i32,
}

/// The sub-lump descriptor stored at position `p` of `b`.
pub open spec fn gamelumpinfo_at(b: Seq<u8>, p: int) -> GameLumpInfo {
    GameLumpInfo {
        id: le_i32(b, p),
        flags: le_u16(b, p + 4),
        version: le_u16(b, p + 6),
        file_offset: le_i32(b, p + 8),
        file_length: le_i32(b, p + 12),
    }
}

/// The decoded payload of one game sub-lump.  Sub-lumps whose tag is not
/// recognized are preserved as explicit unparsed placeholders, not errors.
#[derive(Debug, Clone, PartialEq, Eq)]
pub enum GameLumpData {
    StaticProps(StaticProps),
    Unparsed,
}

/// The recognized static-prop sub-lump: a model-name dictionary, a leaf
/// table, and a count of per-instance records whose bodies are intentionally
/// left unparsed.
#[derive(Debug, Clone, PartialEq, Eq)]
pub struct StaticProps {
    pub dict: StaticPropDictLump,
    pub leafs: StaticPropLeafLump,
    /// Number of per-instance records that follow the leaf table.
    pub num_entries: i32,
}

/// The static-prop model-name dictionary.  Each name is stored in the file
/// as a 128-byte null-padded slot; decoding strips the terminating null and
/// the padding.
#[derive(Debug, Clone, PartialEq, Eq)]
pub struct StaticPropDictLump {
    pub dict_entries: i32,
    /// Of length `dict_entries`.
    pub names: Vec<String>,
}

/// The static-prop leaf table.
#[derive(Debug, Clone, PartialEq, Eq)]
pub struct StaticPropLeafLump {
    pub leaf_entries: i32,
    /// Of length `leaf_entries`.
    pub leafs: Vec<u16>,
}

} // verus!
