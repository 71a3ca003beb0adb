use vstd::prelude::*;

use crate::lumps::vbsp::VBSPLumpType;
use crate::lumps::goldsrc::GoldSrcLumpType;
use crate::lumps::quake::QuakeLumpType;

verus! {

/// The lump table of a document, tagged by the dialect that produced it.
#[derive(Debug, Clone, PartialEq)]
pub enum Lumps {
    VBSP(Vec<VBSPLumpType>),
    GoldSrc(Vec<GoldSrcLumpType>),
    Quake(Vec<QuakeLumpType>),
}

} // verus!
