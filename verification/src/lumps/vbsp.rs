use vstd::prelude::*;

use crate::flags::{
    ContentsFlags, SurfaceFlags, DispTriFlags, spec_contents_from_bits, spec_surface_from_bits,
};
use crate::reader::{le_u16, le_i16, le_u32, le_i32};
use crate::specific::cdisp::{
    CDispNeighbor, CDispCornerNeighbors, cdispneighbor_matches, cdispcornerneighbors_matches,
};
use crate::specific::gamelump;
use crate::specific::occlusion;
use crate::specific::physcol_data;
use crate::utils::{Vector3, vector3_at};

verus! {

/// The decoded data of one primary-dialect lump, one variant per recognized
/// lump index.  Variants without a payload stand for lump indices whose
/// record layout is not implemented: the region is skipped and the document
/// stores the placeholder, which is intentional, not a defect.
#[derive(Debug, Clone, PartialEq)]
pub enum VBSPLumpType {
    Unparsed,
    Entities(Vec<Vec<(String, String)>>),
    Planes(Vec<Plane>),
    TexData(Vec<TexData>),
    Vertices(Vec<Vector3>),
    Visibility(Vis),
    Nodes(Vec<Node>),
    TexInfo(Vec<TexInfo>),
    Faces(Vec<Face>),
    Lighting(Vec<ColorRGBExp32>),
    Occlusion(Occluder),
    Leaves(Vec<Leaf>),
    FaceIDs(Vec<FaceID>),
    Edges(Vec<Edge>),
    /// Indices into the edge lump; the absolute value is the index, and a
    /// negative sign means the edge runs from its second vertex to its first.
    SurfEdges(Vec<i32>),
    Models(Vec<Model>),
    WorldLights,
    LeafFaces,
    LeafBrushes,
    Brushes(Vec<Brush>),
    BrushSides(Vec<BrushSide>),
    Areas(Vec<Area>),
    AreaPortals(Vec<AreaPortal>),
    Portals,
    Unused22,
    PropCollision,
    Clusters,
    Unused23,
    PropHulls,
    PortalVerts,
    Unused24,
    PropHullVerts,
    ClusterPortals,
    Unused25,
    PropTrips,
    DispInfo(Vec<DispInfo>),
    OriginalFaces(Vec<Face>),
    PhyDisp(Vec<PhyDisp>),
    PhysCollide(Vec<PhysModel>),
    VertNormal(Vec<VertexNormal>),
    VertNormalIndices(Vec<VertexNormalIndex>),
    DispLightmapAlphas,
    DispVerts(Vec<DispVert>),
    DispLightmapSamplePositions(Vec<DispLightmapSamplePosition>),
    GameLump(GameLump),
    LeafWaterData,
    Primitives(Vec<Primitive>),
    PrimVerts(Vec<PrimVert>),
    PrimIndices(Vec<PrimIndex>),
    /// The embedded archive: an opaque byte payload handed whole to an
    /// external archive-extraction collaborator.
    PakFile(PakFile),
    ClipPortalVerts(Vec<ClipPortalVert>),
    Cubemaps(Vec<CubemapSample>),
    TexDataStringData(Vec<TexDataStringData>),
    TexDataStringTable(Vec<TexDataStringTable>),
    Overlays(Vec<Overlay>),
    LeafMinDistToWater(Vec<LeafMinDistToWater>),
    FaceMacroTextureInfo(Vec<FaceMacroTextureInfo>),
    DispTris(Vec<DispTriFlags>),
    PhysCollideSurface,
    PropBlob,
    WaterOverlays,
    LightMapPages,
    LeafAmbientIndexHDR(Vec<LeafAmbientIndex>),
    LightmapPageInfos,
    LeafAmbientIndex(Vec<LeafAmbientIndex>),
    LightingHDR,
    WorldLightsHDR,
    LeafAmbientLightingHDR(Vec<LeafAmbientLighting>),
    LeafAmbientLighting(Vec<LeafAmbientLighting>),
    XZipPakFile,
    FacesHDR,
    MapFlags,
    OverlayFades,
    OverlaySystemLevels,
    PhysLevel,
    DispMultibend,
}

/// A pair of vertex indices; the straight line between them is an edge.
#[derive(Debug, Clone, Copy, PartialEq, Eq)]
pub struct Edge {
    pub pair: [u16; 2],
}

/// `r` is the 4-byte edge record stored at position `p` of `b`.
pub open spec fn edge_matches(b: Seq<u8>, p: int, r: Edge) -> bool {
    &&& r.pair@.len() == 2
    &&& r.pair@[0] == le_u16(b, p)
    &&& r.pair@[1] == le_u16(b, p + 2)
}

/// A splitting plane: 20 bytes.
#[derive(Debug, Clone, Copy, PartialEq, Eq, Structural)]
pub struct Plane {
    /// Normal vector.
    pub normal: Vector3,
    /// Distance from the origin, as float bits.
    pub dist: u32,
    /// Plane axis identifier.
    pub plane_type: i32,
}

/// The plane record stored at position `p` of `b`.
pub open spec fn plane_at(b: Seq<u8>, p: int) -> Plane {
    Plane { normal: vector3_at(b, p), dist: le_u32(b, p + 12), plane_type: le_i32(b, p + 16) }
}

/// One face: 56 bytes.
#[derive(Debug, Clone, Copy, PartialEq, Eq)]
pub struct Face {
    /// The plane number.
    pub plane_num: u16,
    /// Non-zero when the face points against the plane's normal.
    pub side: u8,
    /// 1 when on a node, 0 when in a leaf.
    pub on_node: u8,
    /// Index into the surf-edge lump.
    pub first_edge: u32,
    pub num_edges: i16,
    /// Index into the texture-info lump, kept raw.
    pub tex_info: i16,
    /// Index into the displacement-info lump, kept raw.
    pub disp_info: i16,
    pub surface_fog_volume_id: i16,
    /// Switchable lighting info.
    pub styles: [u8; 4],
    /// Offset into the lighting lump.
    pub light_offset: i32,
    /// Face area in units squared, as float bits.
    pub area: u32,
    pub lightmap_texture_mins: [i32; 2],
    pub lightmap_texture_size: [i32; 2],
    /// The original face this one was split from.
    pub orig_face: i32,
    pub num_prims: u16,
    pub first_prim_id: u16,
    /// Lightmap smoothing group.
    pub smoothing_groups: u32,
}

/// `r` is the face record stored at position `p` of `b`.
pub open spec fn face_matches(b: Seq<u8>, p: int, r: Face) -> bool {
    &&& r.plane_num == le_u16(b, p)
    &&& r.side == b[p + 2]
    &&& r.on_node == b[p + 3]
    &&& r.first_edge == le_u32(b, p + 4)
    &&& r.num_edges == le_i16(b, p + 8)
    &&& r.tex_info == le_i16(b, p + 10)
    &&& r.disp_info == le_i16(b, p + 12)
    &&& r.surface_fog_volume_id == le_i16(b, p + 14)
    &&& r.styles@.len() == 4
    &&& forall|k: int| 0 <= k < 4 ==> r.styles@[k] == b[p + 16 + k]
    &&& r.light_offset == le_i32(b, p + 20)
    &&& r.area == le_u32(b, p + 24)
    &&& r.lightmap_texture_mins@.len() == 2
    &&& r.lightmap_texture_mins@[0] == le_i32(b, p + 28)
    &&& r.lightmap_texture_mins@[1] == le_i32(b, p + 32)
    &&& r.lightmap_texture_size@.len() == 2
    &&& r.lightmap_texture_size@[0] == le_i32(b, p + 36)
    &&& r.lightmap_texture_size@[1] == le_i32(b, p + 40)
    &&& r.orig_face == le_i32(b, p + 44)
    &&& r.num_prims == le_u16(b, p + 48)
    &&& r.first_prim_id == le_u16(b, p + 50)
    &&& r.smoothing_groups == le_u32(b, p + 52)
}

/// One node of the spatial tree: 32 bytes.
#[derive(Debug, Clone, Copy, PartialEq, Eq)]
pub struct Node {
    /// Index into the plane lump.
    pub plane_num: i32,
    /// Positive values are node indices; a negative value `v` stands for
    /// leaf `-1 - v`.
    pub children: [i32; 2],
    /// Rough bounding-box coordinates.
    pub mins: [i16; 3],
    pub maxs: [i16; 3],
    /// Index and count into the face lump.
    pub first_face: u16,
    pub numfaces: u16,
    pub area: i16,
    pub padding: i16,
}

/// `r` is the node record stored at position `p` of `b`.
pub open spec fn node_matches(b: Seq<u8>, p: int, r: Node) -> bool {
    &&& r.plane_num == le_i32(b, p)
    &&& r.children@.len() == 2
    &&& r.children@[0] == le_i32(b, p + 4)
    &&& r.children@[1] == le_i32(b, p + 8)
    &&& r.mins@.len() == 3
    &&& forall|k: int| 0 <= k < 3 ==> r.mins@[k] == le_i16(b, p + 12 + 2 * k)
    &&& r.maxs@.len() == 3
    &&& forall|k: int| 0 <= k < 3 ==> r.maxs@[k] == le_i16(b, p + 18 + 2 * k)
    &&& r.first_face == le_u16(b, p + 24)
    &&& r.numfaces == le_u16(b, p + 26)
    &&& r.area == le_i16(b, p + 28)
    &&& r.padding == le_i16(b, p + 30)
}

/// One leaf of the spatial tree: 32 bytes of base fields, plus 24 bytes of
/// ambient lighting when the lump's directory version is 0.
#[derive(Debug, Clone, Copy, PartialEq, Eq)]
pub struct Leaf {
    /// Contents flags, as in the brush lump.
    pub contents: ContentsFlags,
    pub cluster: i16,
    /// Bitfield: the area takes 9 bits, flags take 7.
    pub area_flags: i16,
    /// Rough bounding-box coordinates.
    pub mins: [i16; 3],
    pub maxs: [i16; 3],
    /// Index and count into the leaf-face table.
    pub first_leaf_face: u16,
    pub num_leaf_faces: u16,
    /// Index and count into the leaf-brush table.
    pub first_leaf_brushes: u16,
    pub num_leaf_brushes: u16,
    /// -1 when not in water.
    pub in_water: i16,
    /// Present only when the lump's directory version is 0.
    pub ambient_lighting: Option<CompressedLightCube>,
    pub padding: i16,
}

/// `r` is the leaf record stored at position `p` of `b`, decoded under lump
/// version `version`: the ambient-lighting section is present exactly when
/// the version is 0.
pub open spec fn leaf_matches(b: Seq<u8>, p: int, version: u32, r: Leaf) -> bool {
    &&& r.contents == spec_contents_from_bits(le_u32(b, p))
    &&& r.cluster == le_i16(b, p + 4)
    &&& r.area_flags == le_i16(b, p + 6)
    &&& r.mins@.len() == 3
    &&& forall|k: int| 0 <= k < 3 ==> r.mins@[k] == le_i16(b, p + 8 + 2 * k)
    &&& r.maxs@.len() == 3
    &&& forall|k: int| 0 <= k < 3 ==> r.maxs@[k] == le_i16(b, p + 14 + 2 * k)
    &&& r.first_leaf_face == le_u16(b, p + 20)
    &&& r.num_leaf_faces == le_u16(b, p + 22)
    &&& r.first_leaf_brushes == le_u16(b, p + 24)
    &&& r.num_leaf_brushes == le_u16(b, p + 26)
    &&& r.in_water == le_i16(b, p + 28)
    &&& if version == 0 {
        &&& r.ambient_lighting matches Some(cube)
        &&& compressed_light_cube_matches(b, p + 30, r.ambient_lighting->Some_0)
        &&& r.padding == le_i16(b, p + 54)
    } else {
        &&& r.ambient_lighting is None
        &&& r.padding == le_i16(b, p + 30)
    }
}

/// The byte width of one leaf record under lump version `version`.
pub open spec fn leaf_width(version: u32) -> int {
    if version == 0 {
        56
    } else {
        32
    }
}

/// A face identifier: 2 bytes.
#[derive(Debug, Clone, Copy, PartialEq, Eq, Structural)]
pub struct FaceID {
    pub id: u16,
}

/// The face-identifier record stored at position `p` of `b`.
pub open spec fn faceid_at(b: Seq<u8>, p: int) -> FaceID {
    FaceID { id: le_u16(b, p) }
}

/// One texture-info record: 72 bytes.
#[derive(Debug, Clone, Copy, PartialEq, Eq)]
pub struct TexInfo {
    /// Texture projection vectors, as float bits.
    pub texture_vecs: [[u32; 4]; 2],
    /// Lightmap projection vectors, as float bits.
    pub lightmap_vecs: [[u32; 4]; 2],
    pub flags: SurfaceFlags,
    /// Index into the texture-data lump, kept raw.
    pub texdata: i32,
}

/// `r` is the texture-info record stored at position `p` of `b`.
pub open spec fn texinfo_matches(b: Seq<u8>, p: int, r: TexInfo) -> bool {
    &&& r.texture_vecs@.len() == 2
    &&& r.lightmap_vecs@.len() == 2
    &&& forall|i: int| 0 <= i < 2 ==> #[trigger] r.texture_vecs@[i]@.len() == 4
    &&& forall|i: int| 0 <= i < 2 ==> #[trigger] r.lightmap_vecs@[i]@.len() == 4
    &&& forall|i: int, k: int|
        0 <= i < 2 && 0 <= k < 4 ==> #[trigger] r.texture_vecs@[i]@[k] == le_u32(
            b,
            p + 16 * i + 4 * k,
        )
    &&& forall|i: int, k: int|
        0 <= i < 2 && 0 <= k < 4 ==> #[trigger] r.lightmap_vecs@[i]@[k] == le_u32(
            b,
            p + 32 + 16 * i + 4 * k,
        )
    &&& r.flags == spec_surface_from_bits(le_u32(b, p + 64))
    &&& r.texdata == le_i32(b, p + 68)
}

/// One texture-data record: 32 bytes.
#[derive(Debug, Clone, Copy, PartialEq, Eq, Structural)]
pub struct TexData {
    /// RGB reflectivity, as float bits.
    pub reflectivity: Vector3,
    /// Index into the texture-string-table lump, kept raw.
    pub name_string_table_id: i32,
    pub width: i32,
    pub height: i32,
    pub view_width: i32,
    pub view_height: i32,
}

/// The texture-data record stored at position `p` of `b`.
pub open spec fn texdata_at(b: Seq<u8>, p: int) -> TexData {
    TexData {
        reflectivity: vector3_at(b, p),
        name_string_table_id: le_i32(b, p + 12),
        width: le_i32(b, p + 16),
        height: le_i32(b, p + 20),
        view_width: le_i32(b, p + 24),
        view_height: le_i32(b, p + 28),
    }
}

/// One model (brush entity) record: 48 bytes.
#[derive(Debug, Clone, Copy, PartialEq, Eq, Structural)]
pub struct Model {
    /// Bounding box, as float bits.
    pub mins: Vector3,
    pub maxs: Vector3,
    pub origin: Vector3,
    /// Index into the node lump.
    pub head_node: i32,
    /// Index and count into the face lump.
    pub first_face: i32,
    pub num_faces: i32,
}

/// The model record stored at position `p` of `b`.
pub open spec fn model_at(b: Seq<u8>, p: int) -> Model {
    Model {
        mins: vector3_at(b, p),
        maxs: vector3_at(b, p + 12),
        origin: vector3_at(b, p + 24),
        head_node: le_i32(b, p + 36),
        first_face: le_i32(b, p + 40),
        num_faces: le_i32(b, p + 44),
    }
}

/// A world light record; the layout is unknown, so the lump is skipped.
#[derive(Debug, Clone, Copy, PartialEq, Eq, Structural)]
pub struct WorldLight {}

/// One brush: 12 bytes.
#[derive(Debug, Clone, Copy, PartialEq, Eq, Structural)]
pub struct Brush {
    /// Index into the brush-side lump; this and the next `num_sides` records
    /// make up the brush.
    pub first_side: i32,
    pub num_sides: i32,
    pub contents: ContentsFlags,
}

/// The brush record stored at position `p` of `b`.
pub open spec fn brush_at(b: Seq<u8>, p: int) -> Brush {
    Brush {
        first_side: le_i32(b, p),
        num_sides: le_i32(b, p + 4),
        contents: spec_contents_from_bits(le_u32(b, p + 8)),
    }
}

/// One brush side: 8 bytes.
#[derive(Debug, Clone, Copy, PartialEq, Eq, Structural)]
pub struct BrushSide {
    /// Index into the plane lump.
    pub plane_num: u16,
    /// Index into the texture-info lump.
    pub texinfo: i16,
    /// Index into the displacement-info lump.
    pub dispinfo: i16,
    /// 1 when the side is a bevel plane.
    pub bevel: i16,
}

/// The brush-side record stored at position `p` of `b`.
pub open spec fn brushside_at(b: Seq<u8>, p: int) -> BrushSide {
    BrushSide {
        plane_num: le_u16(b, p),
        texinfo: le_i16(b, p + 2),
        dispinfo: le_i16(b, p + 4),
        bevel: le_i16(b, p + 6),
    }
}

/// One area record: 8 bytes.
#[derive(Debug, Clone, Copy, PartialEq, Eq, Structural)]
pub struct Area {
    pub num_area_portals: i32,
    /// Index into the area-portal lump.
    pub first_area_portal: i32,
}

/// The area record stored at position `p` of `b`.
pub open spec fn area_at(b: Seq<u8>, p: int) -> Area {
    Area { num_area_portals: le_i32(b, p), first_area_portal: le_i32(b, p + 4) }
}

/// One area portal: 12 bytes.
#[derive(Debug, Clone, Copy, PartialEq, Eq, Structural)]
pub struct AreaPortal {
    /// Entities carry a portal-number key that binds them to area portals by
    /// comparing against this value.
    pub portal_key: u16,
    /// The area this portal looks into.
    pub other_area: u16,
    /// Index and count into the clip-portal-vertex lump.
    pub first_clip_portal_vert: u16,
    pub clip_portal_verts: u16,
    pub plane_num: i32,
}

/// The area-portal record stored at position `p` of `b`.
pub open spec fn areaportal_at(b: Seq<u8>, p: int) -> AreaPortal {
    AreaPortal {
        portal_key: le_u16(b, p),
        other_area: le_u16(b, p + 2),
        first_clip_portal_vert: le_u16(b, p + 4),
        clip_portal_verts: le_u16(b, p + 6),
        plane_num: le_i32(b, p + 8),
    }
}

/// The visibility lump: per-cluster byte offsets into the compressed stream
/// and the decompressed per-cluster visible and audible sets.
#[derive(Debug, Clone, PartialEq)]
pub struct Vis {
    pub num_clusters: i32,
    /// For every cluster, the byte offsets of its potential-visible-set and
    /// potential-audible-set runs, from the start of the visibility lump.
    pub byte_offsets: Vec<[i32; 2]>,
    /// The decompressed data: element 0 holds, for every cluster, which
    /// clusters it can see; element 1 which clusters it can hear.
    pub cluster_data: [Vec<Vec<bool>>; 2],
}

/// The game lump: a nested directory of sub-lumps with their decoded data.
#[derive(Debug, Clone, PartialEq)]
pub struct GameLump {
    pub header: gamelump::GameLumpHeader,
    pub data: Vec<gamelump::GameLumpData>,
}

/// One displacement-info record: 174 bytes.
#[derive(Debug, Clone, Copy, PartialEq, Eq)]
pub struct DispInfo {
    /// Start position of the displacement, as float bits.
    pub start_position: Vector3,
    /// Index into the displacement-vertex lump.
    pub disp_vert_start: i32,
    /// Index into the displacement-triangle lump.
    pub disp_tri_start: i32,
    pub power: i32,
    pub min_tess: i32,
    /// As float bits.
    pub smoothing_angle: u32,
    pub contents: ContentsFlags,
    /// The face this displacement sits on.
    pub map_face: u16,
    pub lightmap_alpha_start: i32,
    pub lightmap_sample_position_start: i32,
    pub edge_neighbors: [CDispNeighbor; 4],
    pub corner_neighbors: [CDispCornerNeighbors; 4],
    pub allowed_verts: [u32; 10],
}

/// `r` is the displacement-info record stored at position `p` of `b`.
pub open spec fn dispinfo_matches(b: Seq<u8>, p: int, r: DispInfo) -> bool {
    &&& r.start_position == vector3_at(b, p)
    &&& r.disp_vert_start == le_i32(b, p + 12)
    &&& r.disp_tri_start == le_i32(b, p + 16)
    &&& r.power == le_i32(b, p + 20)
    &&& r.min_tess == le_i32(b, p + 24)
    &&& r.smoothing_angle == le_u32(b, p + 28)
    &&& r.contents == spec_contents_from_bits(le_u32(b, p + 32))
    &&& r.map_face == le_u16(b, p + 36)
    &&& r.lightmap_alpha_start == le_i32(b, p + 38)
    &&& r.lightmap_sample_position_start == le_i32(b, p + 42)
    &&& r.edge_neighbors@.len() == 4
    &&& forall|k: int|
        0 <= k < 4 ==> cdispneighbor_matches(b, p + 46 + 12 * k, #[trigger] r.edge_neighbors@[k])
    &&& r.corner_neighbors@.len() == 4
    &&& forall|k: int|
        0 <= k < 4 ==> cdispcornerneighbors_matches(
            b,
            p + 94 + 10 * k,
            #[trigger] r.corner_neighbors@[k],
        )
    &&& r.allowed_verts@.len() == 10
    &&& forall|k: int| 0 <= k < 10 ==> r.allowed_verts@[k] == le_u32(b, p + 134 + 4 * k)
}

/// One displacement-vertex record: 20 bytes.
#[derive(Debug, Clone, Copy, PartialEq, Eq, Structural)]
pub struct DispVert {
    /// Normalized offset direction of the vertex, as float bits.
    pub vec: Vector3,
    /// Offset distance, as float bits.
    pub dist: u32,
    /// Alpha-blending of the texture at the vertex, as float bits.
    pub alpha: u32,
}

/// The displacement-vertex record stored at position `p` of `b`.
pub open spec fn dispvert_at(b: Seq<u8>, p: int) -> DispVert {
    DispVert { vec: vector3_at(b, p), dist: le_u32(b, p + 12), alpha: le_u32(b, p + 16) }
}

/// One cubemap sample: 16 bytes.
#[derive(Debug, Clone, Copy, PartialEq, Eq)]
pub struct CubemapSample {
    pub origin: [i32; 3],
    pub size: i32,
}

/// `r` is the cubemap-sample record stored at position `p` of `b`.
pub open spec fn cubemap_matches(b: Seq<u8>, p: int, r: CubemapSample) -> bool {
    &&& r.origin@.len() == 3
    &&& forall|k: int| 0 <= k < 3 ==> r.origin@[k] == le_i32(b, p + 4 * k)
    &&& r.size == le_i32(b, p + 12)
}

/// One overlay record: 352 bytes.
#[derive(Debug, Clone, PartialEq, Eq)]
pub struct Overlay {
    pub id: i32,
    /// Index into the texture-info lump.
    pub texinfo: i16,
    pub face_count_and_render_order: u16,
    /// Always 64 entries.
    pub faces: Vec<i32>,
    /// As float bits.
    pub u: [u32; 2],
    /// As float bits.
    pub v: [u32; 2],
    pub uv_points: [Vector3; 4],
    pub origin: Vector3,
    pub basis_normal: Vector3,
}

/// `r` is the overlay record stored at position `p` of `b`.
pub open spec fn overlay_matches(b: Seq<u8>, p: int, r: Overlay) -> bool {
    &&& r.id == le_i32(b, p)
    &&& r.texinfo == le_i16(b, p + 4)
    &&& r.face_count_and_render_order == le_u16(b, p + 6)
    &&& r.faces@.len() == 64
    &&& forall|k: int| 0 <= k < 64 ==> r.faces@[k] == le_i32(b, p + 8 + 4 * k)
    &&& r.u@.len() == 2
    &&& forall|k: int| 0 <= k < 2 ==> r.u@[k] == le_u32(b, p + 264 + 4 * k)
    &&& r.v@.len() == 2
    &&& forall|k: int| 0 <= k < 2 ==> r.v@[k] == le_u32(b, p + 272 + 4 * k)
    &&& r.uv_points@.len() == 4
    &&& forall|k: int| 0 <= k < 4 ==> r.uv_points@[k] == vector3_at(b, p + 280 + 12 * k)
    &&& r.origin == vector3_at(b, p + 328)
    &&& r.basis_normal == vector3_at(b, p + 340)
}

/// One lighting sample: a colour with a shared exponent, 4 bytes.
#[derive(Debug, Clone, Copy, PartialEq, Eq, Structural)]
pub struct ColorRGBExp32 {
    pub r: u8,
    pub g: u8,
    pub b: u8,
    pub exponent: i8,
}

/// The lighting sample stored at position `p` of `b`.
pub open spec fn colorrgbexp32_at(b: Seq<u8>, p: int) -> ColorRGBExp32 {
    ColorRGBExp32 { r: b[p], g: b[p + 1], b: b[p + 2], exponent: b[p + 3] as i8 }
}

/// Six lighting samples, one per axis direction: 24 bytes.
#[derive(Debug, Clone, Copy, PartialEq, Eq)]
pub struct CompressedLightCube {
    pub color: [ColorRGBExp32; 6],
}

/// `r` is the light cube stored at position `p` of `b`.
pub open spec fn compressed_light_cube_matches(b: Seq<u8>, p: int, r: CompressedLightCube) -> bool {
    &&& r.color@.len() == 6
    &&& forall|k: int| 0 <= k < 6 ==> r.color@[k] == colorrgbexp32_at(b, p + 4 * k)
}

/// One per-leaf ambient lighting record: 28 bytes.
#[derive(Debug, Clone, Copy, PartialEq, Eq)]
pub struct LeafAmbientLighting {
    pub cube: CompressedLightCube,
    pub x: u8,
    pub y: u8,
    pub z: u8,
    pub padding: u8,
}

/// One per-leaf ambient index record: 4 bytes.
#[derive(Debug, Clone, Copy, PartialEq, Eq, Structural)]
pub struct LeafAmbientIndex {
    pub ambient_sample_count: u16,
    pub first_ambient_sample: u16,
}

/// The occlusion lump: three count-prefixed tables.
#[derive(Debug, Clone, PartialEq)]
pub struct Occluder {
    pub count: i32,
    /// Of length `count`.
    pub data: Vec<occlusion::OccluderData>,
    pub poly_data_count: i32,
    /// Of length `poly_data_count`.
    pub poly_data: Vec<occlusion::OccluderPolyData>,
    pub vertex_index_count: i32,
    /// Of length `vertex_index_count`.
    pub vertex_indices: Vec<i32>,
}

/// One physics model of the physics-collision lump: a header, `solid_count`
/// collision-data sections and a trailing key-value text block.
#[derive(Debug, Clone, PartialEq)]
pub struct PhysModel {
    /// Index into the model lump; -1 is the sentinel that ends the lump.
    pub model_index: i32,
    /// Declared size of the collision-data section in bytes.
    pub data_size: i32,
    /// Declared size of the text section in bytes.
    pub keydata_size: i32,
    /// Number of collision-data sections.
    pub solid_count: i32,
    pub collision_data: Vec<physcol_data::CollisionData>,
    /// The decoded key-value text block.
    pub key_data: Vec<(String, Vec<(String, String)>)>,
}

/// One physics-displacement record: 2 bytes.
#[derive(Debug, Clone, Copy, PartialEq, Eq, Structural)]
pub struct PhyDisp {
    pub num_disps: u16,
}

/// The physics-displacement record stored at position `p` of `b`.
pub open spec fn phydisp_at(b: Seq<u8>, p: int) -> PhyDisp {
    PhyDisp { num_disps: le_u16(b, p) }
}

/// One vertex normal: 12 bytes of float bits.
#[derive(Debug, Clone, Copy, PartialEq, Eq, Structural)]
pub struct VertexNormal {
    pub normal: Vector3,
}

/// The vertex-normal record stored at position `p` of `b`.
pub open spec fn vertexnormal_at(b: Seq<u8>, p: int) -> VertexNormal {
    VertexNormal { normal: vector3_at(b, p) }
}

/// One vertex-normal index: 2 bytes.
#[derive(Debug, Clone, Copy, PartialEq, Eq, Structural)]
pub struct VertexNormalIndex {
    pub index: u16,
}

/// The vertex-normal index stored at position `p` of `b`.
pub open spec fn vertexnormalindex_at(b: Seq<u8>, p: int) -> VertexNormalIndex {
    VertexNormalIndex { index: le_u16(b, p) }
}

/// One displacement-lightmap sample position byte.
#[derive(Debug, Clone, Copy, PartialEq, Eq, Structural)]
pub struct DispLightmapSamplePosition {
    pub unknown: u8,
}

/// The sample-position byte stored at position `p` of `b`.
pub open spec fn displightmapsampleposition_at(b: Seq<u8>, p: int) -> DispLightmapSamplePosition {
    DispLightmapSamplePosition { unknown: b[p] }
}

/// One primitive ("t-junction fixup") record: 10 bytes.
#[derive(Debug, Clone, Copy, PartialEq, Eq, Structural)]
pub struct Primitive {
    pub prim_type: u16,
    /// Index and count into the primitive-index lump.
    pub first_index: u16,
    pub num_indices: u16,
    /// Index and count into the primitive-vertex lump.
    pub first_vertex: u16,
    pub num_vertices: u16,
}

/// The primitive record stored at position `p` of `b`.
pub open spec fn primitive_at(b: Seq<u8>, p: int) -> Primitive {
    Primitive {
        prim_type: le_u16(b, p),
        first_index: le_u16(b, p + 2),
        num_indices: le_u16(b, p + 4),
        first_vertex: le_u16(b, p + 6),
        num_vertices: le_u16(b, p + 8),
    }
}

/// One primitive vertex: 12 bytes of float bits.
#[derive(Debug, Clone, Copy, PartialEq, Eq, Structural)]
pub struct PrimVert {
    pub pos: Vector3,
}

/// The primitive-vertex record stored at position `p` of `b`.
pub open spec fn primvert_at(b: Seq<u8>, p: int) -> PrimVert {
    PrimVert { pos: vector3_at(b, p) }
}

/// One clip-portal vertex: 12 bytes of float bits.
#[derive(Debug, Clone, Copy, PartialEq, Eq, Structural)]
pub struct ClipPortalVert {
    pub vec: Vector3,
}

/// The clip-portal vertex stored at position `p` of `b`.
pub open spec fn clipportalvert_at(b: Seq<u8>, p: int) -> ClipPortalVert {
    ClipPortalVert { vec: vector3_at(b, p) }
}

/// One primitive index: 2 bytes.
#[derive(Debug, Clone, Copy, PartialEq, Eq, Structural)]
pub struct PrimIndex {
    pub index: u16,
}

/// The primitive index stored at position `p` of `b`.
pub open spec fn primindex_at(b: Seq<u8>, p: int) -> PrimIndex {
    PrimIndex { index: le_u16(b, p) }
}

/// The embedded archive lump: an opaque byte payload.  The decoder does not
/// interpret the archive's internal format.
#[derive(Debug, Clone, PartialEq, Eq)]
pub struct PakFile {
    pub bytes: Vec<u8>,
}

/// One string of the texture-string-data lump, with its byte offset from the
/// start of the lump so that texture-string-table values can be matched
/// against it.
#[derive(Debug, Clone, PartialEq, Eq)]
pub struct TexDataStringData {
    pub val: String,
    pub offset: usize,
}

/// One entry of the texture-string-table lump: a byte offset into the
/// texture-string-data lump.
#[derive(Debug, Clone, Copy, PartialEq, Eq, Structural)]
pub struct TexDataStringTable {
    pub offset: u32,
}

/// The texture-string-table entry stored at position `p` of `b`.
pub open spec fn texdatastringtable_at(b: Seq<u8>, p: int) -> TexDataStringTable {
    TexDataStringTable { offset: le_u32(b, p) }
}

/// One leaf-minimum-distance-to-water record: 4 bytes.
#[derive(Debug, Clone, Copy, PartialEq, Eq, Structural)]
pub struct LeafMinDistToWater {
    pub dist: i32,
}

/// The distance record stored at position `p` of `b`.
pub open spec fn leafmindisttowater_at(b: Seq<u8>, p: int) -> LeafMinDistToWater {
    LeafMinDistToWater { dist: le_i32(b, p) }
}

/// One face-macro-texture-info record: 4 bytes.
#[derive(Debug, Clone, Copy, PartialEq, Eq, Structural)]
pub struct FaceMacroTextureInfo {
    pub index: i32,
}

/// The face-macro-texture-info record stored at position `p` of `b`.
pub open spec fn facemacrotextureinfo_at(b: Seq<u8>, p: int) -> FaceMacroTextureInfo {
    FaceMacroTextureInfo { index: le_i32(b, p) }
}

} // verus!
