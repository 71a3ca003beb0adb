use vstd::prelude::*;

use crate::utils::Vector3;

verus! {

/// The decoded data of one lump of the oldest supported record layouts.  No
/// decoder assigns this dialect yet; the shapes document the layouts for a
/// future decoder.
#[derive(Debug, Clone, PartialEq)]
pub enum QuakeLumpType {
    Unparsed,
    Entities(Vec<Vec<(String, String)>>),
    Planes(Vec<Plane>),
    Textures(Texture),
    Vertices(Vec<Vertex>),
    Visibility,
    Nodes(Vec<Node>),
    TexInfo(Vec<TexInfo>),
    Faces(Vec<Face>),
    Lighting,
    ClipNodes(Vec<ClipNode>),
    Leaves(Vec<Leaf>),
    MarkSurfaces(Vec<u16>),
    Edges(Vec<Edge>),
    SurfEdges(Vec<i32>),
    Models(Vec<Model>),
}

/// A splitting plane.
#[derive(Debug, Clone, Copy, PartialEq, Eq, Structural)]
pub struct Plane {
    /// Normal vector, as float bits.
    pub normal: Vector3,
    /// Distance from the origin, as float bits.
    pub dist: u32,
    pub plane_type: i32,
}

/// The texture lump header.
#[derive(Debug, Clone, PartialEq, Eq)]
pub struct Texture {
    pub num_miptex: i32,
    pub data_offset: Vec<i32>,
    pub miptexs: Vec<Miptex>,
}

/// One texture header.
#[derive(Debug, Clone, PartialEq, Eq)]
pub struct Miptex {
    /// At most 16 bytes in the file.
    pub name: String,
    pub width: u32,
    pub height: u32,
    pub offsets: [u32; 4],
}

/// One vertex.
#[derive(Debug, Clone, Copy, PartialEq, Eq, Structural)]
pub struct Vertex {
    /// As float bits.
    pub point: Vector3,
}

/// One node of the spatial tree.
#[derive(Debug, Clone, Copy, PartialEq, Eq)]
pub struct Node {
    pub planenum: i32,
    /// Negative values are `-(leaf + 1)` leaf indices.
    pub children: [i16; 2],
    pub mins: [i16; 3],
    pub maxs: [i16; 3],
    pub first_face: u16,
    pub num_faces: u16,
}

/// One texture-info record.
#[derive(Debug, Clone, Copy, PartialEq, Eq)]
pub struct TexInfo {
    /// As float bits.
    pub vecs: [[u32; 2]; 4],
    pub miptex: i32,
    /// See `int_to_quake_texflag`.
    pub flags: i32,
}

/// One face.
#[derive(Debug, Clone, Copy, PartialEq, Eq)]
pub struct Face {
    pub planenum: i16,
    pub side: i16,
    pub first_edge: i32,
    pub num_edges: i16,
    pub texinfo: i16,
    pub styles: [u8; 4],
    pub lightofs: i32,
}

/// One clip node.
#[derive(Debug, Clone, Copy, PartialEq, Eq)]
pub struct ClipNode {
    pub planenum: i32,
    pub children: [i16; 2],
}

/// One leaf of the spatial tree.
#[derive(Debug, Clone, Copy, PartialEq, Eq)]
pub struct Leaf {
    /// Raw contents value.
    pub contents: i32,
    /// -1 when the leaf has no visibility info.
    pub visofs: i32,
    pub mins: [u16; 3],
    pub maxs: [u16; 3],
    pub first_marksurface: u16,
    pub num_marksurfaces: u16,
    pub ambient_level: [u8; 4],
}

/// A pair of vertex indices.  Edge 0 is never used: negative surf-edge
/// values mark the counter-clockwise use of an edge in a face.
#[derive(Debug, Clone, Copy, PartialEq, Eq)]
pub struct Edge {
    pub v: [u16; 2],
}

/// One model (brush entity) record.
#[derive(Debug, Clone, Copy, PartialEq, Eq)]
pub struct Model {
    /// Bounding box, as float bits.
    pub mins: Vector3,
    pub maxs: Vector3,
    pub origin: Vector3,
    pub headnode: [i32; 4],
    /// Not counting the solid leaf 0.
    pub visleafs: i32,
    pub firstface: i32,
    pub numfaces: i32,
}

} // verus!
