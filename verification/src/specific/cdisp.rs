use vstd::prelude::*;

use crate::reader::le_u16;

verus! {

/// One neighbouring displacement along an edge.
#[derive(Debug, Clone, Copy, PartialEq, Eq, Structural)]
pub struct CDispSubNeighbor {
    /// Index into the displacement-info lump.
    pub neighbor: u16,
    /// Rotation of the neighbour.
    pub neighbor_orientation: u8,
    /// Where the neighbour fits onto this side of the displacement.
    pub span: u8,
    /// Where this displacement fits onto the neighbour.
    pub neighbor_span: u8,
    pub padding: u8,
}

/// The neighbours of one displacement edge.
#[derive(Debug, Clone, Copy, PartialEq, Eq)]
pub struct CDispNeighbor {
    pub sub_neighbors: [CDispSubNeighbor; 2],
}

/// The neighbours of one displacement corner.
#[derive(Debug, Clone, Copy, PartialEq, Eq)]
pub struct CDispCornerNeighbors {
    pub neighbors: [u16; 4],
    pub num_neighbors: u8,
    pub padding: u8,
}

/// The sub-neighbour record stored at position `p` of `b`: 6 bytes.
pub open spec fn cdispsubneighbor_at(b: Seq<u8>, p: int) -> CDispSubNeighbor {
    CDispSubNeighbor {
        neighbor: le_u16(b, p),
        neighbor_orientation: b[p + 2],
        span: b[p + 3],
        neighbor_span: b[p + 4],
        padding: b[p + 5],
    }
}

/// `r` is the edge-neighbour record stored at position `p` of `b`: 12 bytes.
pub open spec fn cdispneighbor_matches(b: Seq<u8>, p: int, r: CDispNeighbor) -> bool {
    &&& r.sub_neighbors@.len() == 2
    &&& r.sub_neighbors@[0] == cdispsubneighbor_at(b, p)
    &&& r.sub_neighbors@[1] == cdispsubneighbor_at(b, p + 6)
}

/// `r` is the corner-neighbour record stored at position `p` of `b`: 10 bytes.
pub open spec fn cdispcornerneighbors_matches(b: Seq<u8>, p: int, r: CDispCornerNeighbors) -> bool {
    &&& r.neighbors@.len() == 4
    &&& forall|k: int| 0 <= k < 4 ==> r.neighbors@[k] == le_u16(b, p + 2 * k)
    &&& r.num_neighbors == b[p + 8]
    &&& r.padding == b[p + 9]
}

} // verus!
