use vstd::prelude::*;

use crate::reader::le_i32;
use crate::utils::{Vector3, vector3_at};

verus! {

/// One occluder record of the occlusion lump: 40 bytes.
#[derive(Debug, Clone, Copy, PartialEq, Eq, Structural)]
pub struct OccluderData {
    pub flags: i32,
    /// Index into the occluder polygon table.
    pub first_poly: i32,
    pub poly_count: i32,
    pub mins: Vector3,
    pub maxs: Vector3,
    pub area: i32,
}

/// One occluder polygon record: 12 bytes.
#[derive(Debug, Clone, Copy, PartialEq, Eq, Structural)]
pub struct OccluderPolyData {
    /// Index into the occluder vertex-index table.
    pub first_vertex_index: i32,
    pub vertex_count: i32,
    pub plane_num: i32,
}

/// The occluder record stored at position `p` of `b`.
pub open spec fn occluder_data_at(b: Seq<u8>, p: int) -> OccluderData {
    OccluderData {
        flags: le_i32(b, p),
        first_poly: le_i32(b, p + 4),
        poly_count: le_i32(b, p + 8),
        mins: vector3_at(b, p + 12),
        maxs: vector3_at(b, p + 24),
        area: le_i32(b, p + 36),
    }
}

/// The occluder polygon record stored at position `p` of `b`.
pub open spec fn occluder_poly_data_at(b: Seq<u8>, p: int) -> OccluderPolyData {
    OccluderPolyData {
        first_vertex_index: le_i32(b, p),
        vertex_count: le_i32(b, p + 4),
        plane_num: le_i32(b, p + 8),
    }
}

} // verus!
