use vstd::prelude::*;

use crate::utils::Vector3;

verus! {

/// The decoded data of one legacy-dialect lump.  No record decoder for this
/// dialect is implemented yet: a legacy document carries an empty lump list,
/// and these shapes describe the records a future decoder would fill in.
#[derive(Debug, Clone, PartialEq)]
pub enum GoldSrcLumpType {
    Unparsed,
    Entities(Vec<Vec<(String, String)>>),
    Planes(Vec<Plane>),
    Textures(Textures),
    Vertices(Vec<Vector3>),
    Visibility,
    Nodes(Vec<Node>),
    TexInfo(Vec<TexInfo>),
    Faces(Vec<Face>),
    Lighting(Vec<Lightmap>),
    ClipNodes(Vec<ClipNodes>),
    Leaves(Vec<Leaf>),
    MarkSurfaces(Vec<u16>),
    Edges(Vec<[u16; 2]>),
    SurfEdges(Vec<i32>),
    Models(Vec<Model>),
}

/// A splitting plane.
#[derive(Debug, Clone, Copy, PartialEq, Eq, Structural)]
pub struct Plane {
    /// Normal vector, as float bits.
    pub normal: Vector3,
    /// Distance from the origin, as float bits.
    pub dist: u32,
    /// Plane axis identifier; see `int_to_gsrc_planetype`.
    pub plane_type: i32,
}

/// The texture lump: offsets into the lump followed by the texture headers.
#[derive(Debug, Clone, PartialEq, Eq)]
pub struct Textures {
    pub num_textures: u32,
    /// Offsets to texture headers from the beginning of the lump.
    pub offsets: Vec<i32>,
    pub miptexs: Vec<Miptex>,
}

/// One texture header.
#[derive(Debug, Clone, PartialEq, Eq)]
pub struct Miptex {
    /// At most 16 bytes in the file.
    pub name: String,
    pub width: u32,
    pub height: u32,
    /// Zero when the texture lives in an external file; otherwise offsets
    /// from the beginning of this record to each mipmap.
    pub offsets: [u32; 4],
}

/// One node of the spatial tree.
#[derive(Debug, Clone, Copy, PartialEq, Eq)]
pub struct Node {
    pub plane_idx: u32,
    /// Positive values are node indices; negative values are bitwise-inverse
    /// leaf indices.
    pub children_idxs: [i16; 2],
    pub mins: [i16; 3],
    pub maxs: [i16; 3],
    pub first_face: u16,
    pub num_faces: u16,
}

/// One texture-info record.
#[derive(Debug, Clone, Copy, PartialEq, Eq, Structural)]
pub struct TexInfo {
    /// Direction, as float bits.
    pub s: Vector3,
    /// Texture shift in the s direction, as float bits.
    pub s_shift: u32,
    /// Direction, as float bits.
    pub t: Vector3,
    /// Texture shift in the t direction, as float bits.
    pub t_shift: u32,
    /// Index into the texture lump.
    pub miptex_idx: u32,
    pub flags: u32,
}

/// One face.
#[derive(Debug, Clone, Copy, PartialEq, Eq)]
pub struct Face {
    /// The plane this face is parallel to.
    pub plane_idx: u16,
    /// Set when the face differs from the plane's normal orientation.
    pub plane_side: u16,
    pub first_surfedge_idx: u32,
    pub num_surfedges: u16,
    pub texinfo_idx: u16,
    pub styles: [u8; 4],
    /// Offset into the raw lightmap data; negative when no lightmap was
    /// baked for this face.
    pub lightmap_offset: i32,
}

/// One lightmap sample.
#[derive(Debug, Clone, Copy, PartialEq, Eq)]
pub struct Lightmap {
    pub color: [u8; 3],
}

/// One clip node.
#[derive(Debug, Clone, Copy, PartialEq, Eq)]
pub struct ClipNodes {
    pub plane_idx: i32,
    pub children_idxs: [i16; 2],
}

/// One leaf of the spatial tree.
#[derive(Debug, Clone, Copy, PartialEq, Eq)]
pub struct Leaf {
    /// Raw contents value.
    pub contents: i32,
    pub vis_ofs: i32,
    pub mins: [i16; 3],
    pub maxs: [i16; 3],
    pub first_maksurf_idx: u16,
    pub num_marksurfaces: u16,
    pub ambient_levels: [u8; 4],
}

/// One model (brush entity) record.
#[derive(Debug, Clone, Copy, PartialEq, Eq)]
pub struct Model {
    /// Bounding box, as float bits.
    pub mins: Vector3,
    pub maxs: Vector3,
    pub origin: Vector3,
    pub headnodes_idx: [i32; 4],
    pub num_visleafs: i32,
    pub first_face_idx: i32,
    pub num_faces: i32,
}

} // verus!
