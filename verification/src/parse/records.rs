use vstd::prelude::*;

use crate::error::ReadError;
use crate::flags::{ContentsFlags, SurfaceFlags};
use crate::lumps::vbsp::{
    TexData, texdata_at, Node, node_matches, TexInfo, texinfo_matches, Face, face_matches, FaceID,
    faceid_at, Edge, edge_matches, Model, model_at, Brush, brush_at, BrushSide, brushside_at,
    Area, area_at, AreaPortal, areaportal_at, DispInfo, dispinfo_matches, DispVert, dispvert_at,
    CubemapSample, cubemap_matches, Overlay, overlay_matches, Primitive, primitive_at, PrimVert,
    primvert_at, PrimIndex, primindex_at, ClipPortalVert, clipportalvert_at, TexDataStringTable,
    texdatastringtable_at, LeafMinDistToWater, leafmindisttowater_at, FaceMacroTextureInfo,
    facemacrotextureinfo_at, VertexNormal, vertexnormal_at, VertexNormalIndex,
    vertexnormalindex_at, DispLightmapSamplePosition, displightmapsampleposition_at, PhyDisp,
    phydisp_at, Leaf, leaf_matches, leaf_width,
};
use crate::specific::gamelump::{GameLumpInfo, gamelumpinfo_at};
use crate::specific::occlusion::{
    OccluderData, occluder_data_at, OccluderPolyData, occluder_poly_data_at,
};
use crate::specific::physcol_data::{
    CollideHeader, collide_header_at, CompactSurfaceHeader, compact_surface_header_at,
};
use crate::reader::Reader;

verus! {

/// Read one `TexData` record: 32 bytes.
pub fn read_texdata(reader: &mut Reader) -> (r: Result<TexData, ReadError>)
    ensures
        final(reader).bytes == old(reader).bytes,
        r is Ok <==> old(reader).index + 32 <= old(reader).bytes@.len(),
        r matches Ok(v) ==> v == texdata_at(old(reader).bytes@, old(reader).index as int)
            && final(reader).index == old(reader).index + 32,
        r matches Err(e) ==> final(reader).index == old(reader).index && e is OutOfBounds,
{
    let start = reader.index;
    let reflectivity = match reader.read_vector3() {
        Ok(x) => x,
        Err(e) => {
            reader.index = start;
            return Err(e);
        },
    };
    let name_string_table_id = match reader.read_int() {
        Ok(x) => x,
        Err(e) => {
            reader.index = start;
            return Err(e);
        },
    };
    let width = match reader.read_int() {
        Ok(x) => x,
        Err(e) => {
            reader.index = start;
            return Err(e);
        },
    };
    let height = match reader.read_int() {
        Ok(x) => x,
        Err(e) => {
            reader.index = start;
            return Err(e);
        },
    };
    let view_width = match reader.read_int() {
        Ok(x) => x,
        Err(e) => {
            reader.index = start;
            return Err(e);
        },
    };
    let view_height = match reader.read_int() {
        Ok(x) => x,
        Err(e) => {
            reader.index = start;
            return Err(e);
        },
    };
    Ok(TexData { reflectivity, name_string_table_id, width, height, view_width, view_height })
}

/// Read one `Node` record: 32 bytes.
pub fn read_node(reader: &mut Reader) -> (r: Result<Node, ReadError>)
    ensures
        final(reader).bytes == old(reader).bytes,
        r is Ok <==> old(reader).index + 32 <= old(reader).bytes@.len(),
        r matches Ok(v) ==> node_matches(old(reader).bytes@, old(reader).index as int, v)
            && final(reader).index == old(reader).index + 32,
        r matches Err(e) ==> final(reader).index == old(reader).index && e is OutOfBounds,
{
    let start = reader.index;
    let plane_num = match reader.read_int() {
        Ok(x) => x,
        Err(e) => {
            reader.index = start;
            return Err(e);
        },
    };
    let children_0 = match reader.read_int() {
        Ok(x) => x,
        Err(e) => {
            reader.index = start;
            return Err(e);
        },
    };
    let children_1 = match reader.read_int() {
        Ok(x) => x,
        Err(e) => {
            reader.index = start;
            return Err(e);
        },
    };
    let mins_0 = match reader.read_short() {
        Ok(x) => x,
        Err(e) => {
            reader.index = start;
            return Err(e);
        },
    };
    let mins_1 = match reader.read_short() {
        Ok(x) => x,
        Err(e) => {
            reader.index = start;
            return Err(e);
        },
    };
    let mins_2 = match reader.read_short() {
        Ok(x) => x,
        Err(e) => {
            reader.index = start;
            return Err(e);
        },
    };
    let maxs_0 = match reader.read_short() {
        Ok(x) => x,
        Err(e) => {
            reader.index = start;
            return Err(e);
        },
    };
    let maxs_1 = match reader.read_short() {
        Ok(x) => x,
        Err(e) => {
            reader.index = start;
            return Err(e);
        },
    };
    let maxs_2 = match reader.read_short() {
        Ok(x) => x,
        Err(e) => {
            reader.index = start;
            return Err(e);
        },
    };
    let first_face = match reader.read_ushort() {
        Ok(x) => x,
        Err(e) => {
            reader.index = start;
            return Err(e);
        },
    };
    let numfaces = match reader.read_ushort() {
        Ok(x) => x,
        Err(e) => {
            reader.index = start;
            return Err(e);
        },
    };
    let area = match reader.read_short() {
        Ok(x) => x,
        Err(e) => {
            reader.index = start;
            return Err(e);
        },
    };
    let padding = match reader.read_short() {
        Ok(x) => x,
        Err(e) => {
            reader.index = start;
            return Err(e);
        },
    };
    Ok(Node { plane_num, children: [children_0, children_1], mins: [mins_0, mins_1, mins_2], maxs: [maxs_0, maxs_1, maxs_2], first_face, numfaces, area, padding })
}

/// Read one `TexInfo` record: 72 bytes.
pub fn read_texinfo(reader: &mut Reader) -> (r: Result<TexInfo, ReadError>)
    ensures
        final(reader).bytes == old(reader).bytes,
        r is Ok <==> old(reader).index + 72 <= old(reader).bytes@.len(),
        r matches Ok(v) ==> texinfo_matches(old(reader).bytes@, old(reader).index as int, v)
            && final(reader).index == old(reader).index + 72,
        r matches Err(e) ==> final(reader).index == old(reader).index && e is OutOfBounds,
{
    let start = reader.index;
    let tv_0_0 = match reader.read_float_bits() {
        Ok(x) => x,
        Err(e) => {
            reader.index = start;
            return Err(e);
        },
    };
    let tv_0_1 = match reader.read_float_bits() {
        Ok(x) => x,
        Err(e) => {
            reader.index = start;
            return Err(e);
        },
    };
    let tv_0_2 = match reader.read_float_bits() {
        Ok(x) => x,
        Err(e) => {
            reader.index = start;
            return Err(e);
        },
    };
    let tv_0_3 = match reader.read_float_bits() {
        Ok(x) => x,
        Err(e) => {
            reader.index = start;
            return Err(e);
        },
    };
    let tv_1_0 = match reader.read_float_bits() {
        Ok(x) => x,
        Err(e) => {
            reader.index = start;
            return Err(e);
        },
    };
    let tv_1_1 = match reader.read_float_bits() {
        Ok(x) => x,
        Err(e) => {
            reader.index = start;
            return Err(e);
        },
    };
    let tv_1_2 = match reader.read_float_bits() {
        Ok(x) => x,
        Err(e) => {
            reader.index = start;
            return Err(e);
        },
    };
    let tv_1_3 = match reader.read_float_bits() {
        Ok(x) => x,
        Err(e) => {
            reader.index = start;
            return Err(e);
        },
    };
    let lv_0_0 = match reader.read_float_bits() {
        Ok(x) => x,
        Err(e) => {
            reader.index = start;
            return Err(e);
        },
    };
    let lv_0_1 = match reader.read_float_bits() {
        Ok(x) => x,
        Err(e) => {
            reader.index = start;
            return Err(e);
        },
    };
    let lv_0_2 = match reader.read_float_bits() {
        Ok(x) => x,
        Err(e) => {
            reader.index = start;
            return Err(e);
        },
    };
    let lv_0_3 = match reader.read_float_bits() {
        Ok(x) => x,
        Err(e) => {
            reader.index = start;
            return Err(e);
        },
    };
    let lv_1_0 = match reader.read_float_bits() {
        Ok(x) => x,
        Err(e) => {
            reader.index = start;
            return Err(e);
        },
    };
    let lv_1_1 = match reader.read_float_bits() {
        Ok(x) => x,
        Err(e) => {
            reader.index = start;
            return Err(e);
        },
    };
    let lv_1_2 = match reader.read_float_bits() {
        Ok(x) => x,
        Err(e) => {
            reader.index = start;
            return Err(e);
        },
    };
    let lv_1_3 = match reader.read_float_bits() {
        Ok(x) => x,
        Err(e) => {
            reader.index = start;
            return Err(e);
        },
    };
    let flags_raw = match reader.read_uint() {
        Ok(x) => x,
        Err(e) => {
            reader.index = start;
            return Err(e);
        },
    };
    let flags = SurfaceFlags::from_bits_truncate(flags_raw);
    let texdata = match reader.read_int() {
        Ok(x) => x,
        Err(e) => {
            reader.index = start;
            return Err(e);
        },
    };
    Ok(TexInfo { texture_vecs: [[tv_0_0, tv_0_1, tv_0_2, tv_0_3], [tv_1_0, tv_1_1, tv_1_2, tv_1_3]], lightmap_vecs: [[lv_0_0, lv_0_1, lv_0_2, lv_0_3], [lv_1_0, lv_1_1, lv_1_2, lv_1_3]], flags, texdata })
}

/// Read one `Face` record: 56 bytes.
pub fn read_face(reader: &mut Reader) -> (r: Result<Face, ReadError>)
    ensures
        final(reader).bytes == old(reader).bytes,
        r is Ok <==> old(reader).index + 56 <= old(reader).bytes@.len(),
        r matches Ok(v) ==> face_matches(old(reader).bytes@, old(reader).index as int, v)
            && final(reader).index == old(reader).index + 56,
        r matches Err(e) ==> final(reader).index == old(reader).index && e is OutOfBounds,
{
    let start = reader.index;
    let plane_num = match reader.read_ushort() {
        Ok(x) => x,
        Err(e) => {
            reader.index = start;
            return Err(e);
        },
    };
    let side = match reader.read_byte() {
        Ok(x) => x,
        Err(e) => {
            reader.index = start;
            return Err(e);
        },
    };
    let on_node = match reader.read_byte() {
        Ok(x) => x,
        Err(e) => {
            reader.index = start;
            return Err(e);
        },
    };
    let first_edge = match reader.read_uint() {
        Ok(x) => x,
        Err(e) => {
            reader.index = start;
            return Err(e);
        },
    };
    let num_edges = match reader.read_short() {
        Ok(x) => x,
        Err(e) => {
            reader.index = start;
            return Err(e);
        },
    };
    let tex_info = match reader.read_short() {
        Ok(x) => x,
        Err(e) => {
            reader.index = start;
            return Err(e);
        },
    };
    let disp_info = match reader.read_short() {
        Ok(x) => x,
        Err(e) => {
            reader.index = start;
            return Err(e);
        },
    };
    let surface_fog_volume_id = match reader.read_short() {
        Ok(x) => x,
        Err(e) => {
            reader.index = start;
            return Err(e);
        },
    };
    let styles_0 = match reader.read_byte() {
        Ok(x) => x,
        Err(e) => {
            reader.index = start;
            return Err(e);
        },
    };
    let styles_1 = match reader.read_byte() {
        Ok(x) => x,
        Err(e) => {
            reader.index = start;
            return Err(e);
        },
    };
    let styles_2 = match reader.read_byte() {
        Ok(x) => x,
        Err(e) => {
            reader.index = start;
            return Err(e);
        },
    };
    let styles_3 = match reader.read_byte() {
        Ok(x) => x,
        Err(e) => {
            reader.index = start;
            return Err(e);
        },
    };
    let light_offset = match reader.read_int() {
        Ok(x) => x,
        Err(e) => {
            reader.index = start;
            return Err(e);
        },
    };
    let area = match reader.read_float_bits() {
        Ok(x) => x,
        Err(e) => {
            reader.index = start;
            return Err(e);
        },
    };
    let lightmap_texture_mins_0 = match reader.read_int() {
        Ok(x) => x,
        Err(e) => {
            reader.index = start;
            return Err(e);
        },
    };
    let lightmap_texture_mins_1 = match reader.read_int() {
        Ok(x) => x,
        Err(e) => {
            reader.index = start;
            return Err(e);
        },
    };
    let lightmap_texture_size_0 = match reader.read_int() {
        Ok(x) => x,
        Err(e) => {
            reader.index = start;
            return Err(e);
        },
    };
    let lightmap_texture_size_1 = match reader.read_int() {
        Ok(x) => x,
        Err(e) => {
            reader.index = start;
            return Err(e);
        },
    };
    let orig_face = match reader.read_int() {
        Ok(x) => x,
        Err(e) => {
            reader.index = start;
            return Err(e);
        },
    };
    let num_prims = match reader.read_ushort() {
        Ok(x) => x,
        Err(e) => {
            reader.index = start;
            return Err(e);
        },
    };
    let first_prim_id = match reader.read_ushort() {
        Ok(x) => x,
        Err(e) => {
            reader.index = start;
            return Err(e);
        },
    };
    let smoothing_groups = match reader.read_uint() {
        Ok(x) => x,
        Err(e) => {
            reader.index = start;
            return Err(e);
        },
    };
    Ok(Face { plane_num, side, on_node, first_edge, num_edges, tex_info, disp_info, surface_fog_volume_id, styles: [styles_0, styles_1, styles_2, styles_3], light_offset, area, lightmap_texture_mins: [lightmap_texture_mins_0, lightmap_texture_mins_1], lightmap_texture_size: [lightmap_texture_size_0, lightmap_texture_size_1], orig_face, num_prims, first_prim_id, smoothing_groups })
}

/// Read one `FaceID` record: 2 bytes.
pub fn read_faceid(reader: &mut Reader) -> (r: Result<FaceID, ReadError>)
    ensures
        final(reader).bytes == old(reader).bytes,
        r is Ok <==> old(reader).index + 2 <= old(reader).bytes@.len(),
        r matches Ok(v) ==> v == faceid_at(old(reader).bytes@, old(reader).index as int)
            && final(reader).index == old(reader).index + 2,
        r matches Err(e) ==> final(reader).index == old(reader).index && e is OutOfBounds,
{
    let start = reader.index;
    let id = match reader.read_ushort() {
        Ok(x) => x,
        Err(e) => {
            reader.index = start;
            return Err(e);
        },
    };
    Ok(FaceID { id })
}

/// Read one `Edge` record: 4 bytes.
pub fn read_edge(reader: &mut Reader) -> (r: Result<Edge, ReadError>)
    ensures
        final(reader).bytes == old(reader).bytes,
        r is Ok <==> old(reader).index + 4 <= old(reader).bytes@.len(),
        r matches Ok(v) ==> edge_matches(old(reader).bytes@, old(reader).index as int, v)
            && final(reader).index == old(reader).index + 4,
        r matches Err(e) ==> final(reader).index == old(reader).index && e is OutOfBounds,
{
    let start = reader.index;
    let pair_0 = match reader.read_ushort() {
        Ok(x) => x,
        Err(e) => {
            reader.index = start;
            return Err(e);
        },
    };
    let pair_1 = match reader.read_ushort() {
        Ok(x) => x,
        Err(e) => {
            reader.index = start;
            return Err(e);
        },
    };
    Ok(Edge { pair: [pair_0, pair_1] })
}

/// Read one `Model` record: 48 bytes.
pub fn read_model(reader: &mut Reader) -> (r: Result<Model, ReadError>)
    ensures
        final(reader).bytes == old(reader).bytes,
        r is Ok <==> old(reader).index + 48 <= old(reader).bytes@.len(),
        r matches Ok(v) ==> v == model_at(old(reader).bytes@, old(reader).index as int)
            && final(reader).index == old(reader).index + 48,
        r matches Err(e) ==> final(reader).index == old(reader).index && e is OutOfBounds,
{
    let start = reader.index;
    let mins = match reader.read_vector3() {
        Ok(x) => x,
        Err(e) => {
            reader.index = start;
            return Err(e);
        },
    };
    let maxs = match reader.read_vector3() {
        Ok(x) => x,
        Err(e) => {
            reader.index = start;
            return Err(e);
        },
    };
    let origin = match reader.read_vector3() {
        Ok(x) => x,
        Err(e) => {
            reader.index = start;
            return Err(e);
        },
    };
    let head_node = match reader.read_int() {
        Ok(x) => x,
        Err(e) => {
            reader.index = start;
            return Err(e);
        },
    };
    let first_face = match reader.read_int() {
        Ok(x) => x,
        Err(e) => {
            reader.index = start;
            return Err(e);
        },
    };
    let num_faces = match reader.read_int() {
        Ok(x) => x,
        Err(e) => {
            reader.index = start;
            return Err(e);
        },
    };
    Ok(Model { mins, maxs, origin, head_node, first_face, num_faces })
}

/// Read one `Brush` record: 12 bytes.
pub fn read_brush(reader: &mut Reader) -> (r: Result<Brush, ReadError>)
    ensures
        final(reader).bytes == old(reader).bytes,
        r is Ok <==> old(reader).index + 12 <= old(reader).bytes@.len(),
        r matches Ok(v) ==> v == brush_at(old(reader).bytes@, old(reader).index as int)
            && final(reader).index == old(reader).index + 12,
        r matches Err(e) ==> final(reader).index == old(reader).index && e is OutOfBounds,
{
    let start = reader.index;
    let first_side = match reader.read_int() {
        Ok(x) => x,
        Err(e) => {
            reader.index = start;
            return Err(e);
        },
    };
    let num_sides = match reader.read_int() {
        Ok(x) => x,
        Err(e) => {
            reader.index = start;
            return Err(e);
        },
    };
    let contents_raw = match reader.read_uint() {
        Ok(x) => x,
        Err(e) => {
            reader.index = start;
            return Err(e);
        },
    };
    let contents = ContentsFlags::from_bits_truncate(contents_raw);
    Ok(Brush { first_side, num_sides, contents })
}

/// Read one `BrushSide` record: 8 bytes.
pub fn read_brushside(reader: &mut Reader) -> (r: Result<BrushSide, ReadError>)
    ensures
        final(reader).bytes == old(reader).bytes,
        r is Ok <==> old(reader).index + 8 <= old(reader).bytes@.len(),
        r matches Ok(v) ==> v == brushside_at(old(reader).bytes@, old(reader).index as int)
            && final(reader).index == old(reader).index + 8,
        r matches Err(e) ==> final(reader).index == old(reader).index && e is OutOfBounds,
{
    let start = reader.index;
    let plane_num = match reader.read_ushort() {
        Ok(x) => x,
        Err(e) => {
            reader.index = start;
            return Err(e);
        },
    };
    let texinfo = match reader.read_short() {
        Ok(x) => x,
        Err(e) => {
            reader.index = start;
            return Err(e);
        },
    };
    let dispinfo = match reader.read_short() {
        Ok(x) => x,
        Err(e) => {
            reader.index = start;
            return Err(e);
        },
    };
    let bevel = match reader.read_short() {
        Ok(x) => x,
        Err(e) => {
            reader.index = start;
            return Err(e);
        },
    };
    Ok(BrushSide { plane_num, texinfo, dispinfo, bevel })
}

/// Read one `Area` record: 8 bytes.
pub fn read_area(reader: &mut Reader) -> (r: Result<Area, ReadError>)
    ensures
        final(reader).bytes == old(reader).bytes,
        r is Ok <==> old(reader).index + 8 <= old(reader).bytes@.len(),
        r matches Ok(v) ==> v == area_at(old(reader).bytes@, old(reader).index as int)
            && final(reader).index == old(reader).index + 8,
        r matches Err(e) ==> final(reader).index == old(reader).index && e is OutOfBounds,
{
    let start = reader.index;
    let num_area_portals = match reader.read_int() {
        Ok(x) => x,
        Err(e) => {
            reader.index = start;
            return Err(e);
        },
    };
    let first_area_portal = match reader.read_int() {
        Ok(x) => x,
        Err(e) => {
            reader.index = start;
            return Err(e);
        },
    };
    Ok(Area { num_area_portals, first_area_portal })
}

/// Read one `AreaPortal` record: 12 bytes.
pub fn read_areaportal(reader: &mut Reader) -> (r: Result<AreaPortal, ReadError>)
    ensures
        final(reader).bytes == old(reader).bytes,
        r is Ok <==> old(reader).index + 12 <= old(reader).bytes@.len(),
        r matches Ok(v) ==> v == areaportal_at(old(reader).bytes@, old(reader).index as int)
            && final(reader).index == old(reader).index + 12,
        r matches Err(e) ==> final(reader).index == old(reader).index && e is OutOfBounds,
{
    let start = reader.index;
    let portal_key = match reader.read_ushort() {
        Ok(x) => x,
        Err(e) => {
            reader.index = start;
            return Err(e);
        },
    };
    let other_area = match reader.read_ushort() {
        Ok(x) => x,
        Err(e) => {
            reader.index = start;
            return Err(e);
        },
    };
    let first_clip_portal_vert = match reader.read_ushort() {
        Ok(x) => x,
        Err(e) => {
            reader.index = start;
            return Err(e);
        },
    };
    let clip_portal_verts = match reader.read_ushort() {
        Ok(x) => x,
        Err(e) => {
            reader.index = start;
            return Err(e);
        },
    };
    let plane_num = match reader.read_int() {
        Ok(x) => x,
        Err(e) => {
            reader.index = start;
            return Err(e);
        },
    };
    Ok(AreaPortal { portal_key, other_area, first_clip_portal_vert, clip_portal_verts, plane_num })
}

/// Read one `DispInfo` record: 174 bytes.
pub fn read_dispinfo(reader: &mut Reader) -> (r: Result<DispInfo, ReadError>)
    ensures
        final(reader).bytes == old(reader).bytes,
        r is Ok <==> old(reader).index + 174 <= old(reader).bytes@.len(),
        r matches Ok(v) ==> dispinfo_matches(old(reader).bytes@, old(reader).index as int, v)
            && final(reader).index == old(reader).index + 174,
        r matches Err(e) ==> final(reader).index == old(reader).index && e is OutOfBounds,
{
    let start = reader.index;
    let start_position = match reader.read_vector3() {
        Ok(x) => x,
        Err(e) => {
            reader.index = start;
            return Err(e);
        },
    };
    let disp_vert_start = match reader.read_int() {
        Ok(x) => x,
        Err(e) => {
            reader.index = start;
            return Err(e);
        },
    };
    let disp_tri_start = match reader.read_int() {
        Ok(x) => x,
        Err(e) => {
            reader.index = start;
            return Err(e);
        },
    };
    let power = match reader.read_int() {
        Ok(x) => x,
        Err(e) => {
            reader.index = start;
            return Err(e);
        },
    };
    let min_tess = match reader.read_int() {
        Ok(x) => x,
        Err(e) => {
            reader.index = start;
            return Err(e);
        },
    };
    let smoothing_angle = match reader.read_float_bits() {
        Ok(x) => x,
        Err(e) => {
            reader.index = start;
            return Err(e);
        },
    };
    let contents_raw = match reader.read_uint() {
        Ok(x) => x,
        Err(e) => {
            reader.index = start;
            return Err(e);
        },
    };
    let contents = ContentsFlags::from_bits_truncate(contents_raw);
    let map_face = match reader.read_ushort() {
        Ok(x) => x,
        Err(e) => {
            reader.index = start;
            return Err(e);
        },
    };
    let lightmap_alpha_start = match reader.read_int() {
        Ok(x) => x,
        Err(e) => {
            reader.index = start;
            return Err(e);
        },
    };
    let lightmap_sample_position_start = match reader.read_int() {
        Ok(x) => x,
        Err(e) => {
            reader.index = start;
            return Err(e);
        },
    };
    let edge_neighbors_0 = match reader.read_cdispneighbor() {
        Ok(x) => x,
        Err(e) => {
            reader.index = start;
            return Err(e);
        },
    };
    let edge_neighbors_1 = match reader.read_cdispneighbor() {
        Ok(x) => x,
        Err(e) => {
            reader.index = start;
            return Err(e);
        },
    };
    let edge_neighbors_2 = match reader.read_cdispneighbor() {
        Ok(x) => x,
        Err(e) => {
            reader.index = start;
            return Err(e);
        },
    };
    let edge_neighbors_3 = match reader.read_cdispneighbor() {
        Ok(x) => x,
        Err(e) => {
            reader.index = start;
            return Err(e);
        },
    };
    let corner_neighbors_0 = match reader.read_cdispcornerneighbor() {
        Ok(x) => x,
        Err(e) => {
            reader.index = start;
            return Err(e);
        },
    };
    let corner_neighbors_1 = match reader.read_cdispcornerneighbor() {
        Ok(x) => x,
        Err(e) => {
            reader.index = start;
            return Err(e);
        },
    };
    let corner_neighbors_2 = match reader.read_cdispcornerneighbor() {
        Ok(x) => x,
        Err(e) => {
            reader.index = start;
            return Err(e);
        },
    };
    let corner_neighbors_3 = match reader.read_cdispcornerneighbor() {
        Ok(x) => x,
        Err(e) => {
            reader.index = start;
            return Err(e);
        },
    };
    let allowed_verts_0 = match reader.read_uint() {
        Ok(x) => x,
        Err(e) => {
            reader.index = start;
            return Err(e);
        },
    };
    let allowed_verts_1 = match reader.read_uint() {
        Ok(x) => x,
        Err(e) => {
            reader.index = start;
            return Err(e);
        },
    };
    let allowed_verts_2 = match reader.read_uint() {
        Ok(x) => x,
        Err(e) => {
            reader.index = start;
            return Err(e);
        },
    };
    let allowed_verts_3 = match reader.read_uint() {
        Ok(x) => x,
        Err(e) => {
            reader.index = start;
            return Err(e);
        },
    };
    let allowed_verts_4 = match reader.read_uint() {
        Ok(x) => x,
        Err(e) => {
            reader.index = start;
            return Err(e);
        },
    };
    let allowed_verts_5 = match reader.read_uint() {
        Ok(x) => x,
        Err(e) => {
            reader.index = start;
            return Err(e);
        },
    };
    let allowed_verts_6 = match reader.read_uint() {
        Ok(x) => x,
        Err(e) => {
            reader.index = start;
            return Err(e);
        },
    };
    let allowed_verts_7 = match reader.read_uint() {
        Ok(x) => x,
        Err(e) => {
            reader.index = start;
            return Err(e);
        },
    };
    let allowed_verts_8 = match reader.read_uint() {
        Ok(x) => x,
        Err(e) => {
            reader.index = start;
            return Err(e);
        },
    };
    let allowed_verts_9 = match reader.read_uint() {
        Ok(x) => x,
        Err(e) => {
            reader.index = start;
            return Err(e);
        },
    };
    Ok(DispInfo { start_position, disp_vert_start, disp_tri_start, power, min_tess, smoothing_angle, contents, map_face, lightmap_alpha_start, lightmap_sample_position_start, edge_neighbors: [edge_neighbors_0, edge_neighbors_1, edge_neighbors_2, edge_neighbors_3], corner_neighbors: [corner_neighbors_0, corner_neighbors_1, corner_neighbors_2, corner_neighbors_3], allowed_verts: [allowed_verts_0, allowed_verts_1, allowed_verts_2, allowed_verts_3, allowed_verts_4, allowed_verts_5, allowed_verts_6, allowed_verts_7, allowed_verts_8, allowed_verts_9] })
}

/// Read one `DispVert` record: 20 bytes.
pub fn read_dispvert(reader: &mut Reader) -> (r: Result<DispVert, ReadError>)
    ensures
        final(reader).bytes == old(reader).bytes,
        r is Ok <==> old(reader).index + 20 <= old(reader).bytes@.len(),
        r matches Ok(v) ==> v == dispvert_at(old(reader).bytes@, old(reader).index as int)
            && final(reader).index == old(reader).index + 20,
        r matches Err(e) ==> final(reader).index == old(reader).index && e is OutOfBounds,
{
    let start = reader.index;
    let vec = match reader.read_vector3() {
        Ok(x) => x,
        Err(e) => {
            reader.index = start;
            return Err(e);
        },
    };
    let dist = match reader.read_float_bits() {
        Ok(x) => x,
        Err(e) => {
            reader.index = start;
            return Err(e);
        },
    };
    let alpha = match reader.read_float_bits() {
        Ok(x) => x,
        Err(e) => {
            reader.index = start;
            return Err(e);
        },
    };
    Ok(DispVert { vec, dist, alpha })
}

/// Read one `CubemapSample` record: 16 bytes.
pub fn read_cubemapsample(reader: &mut Reader) -> (r: Result<CubemapSample, ReadError>)
    ensures
        final(reader).bytes == old(reader).bytes,
        r is Ok <==> old(reader).index + 16 <= old(reader).bytes@.len(),
        r matches Ok(v) ==> cubemap_matches(old(reader).bytes@, old(reader).index as int, v)
            && final(reader).index == old(reader).index + 16,
        r matches Err(e) ==> final(reader).index == old(reader).index && e is OutOfBounds,
{
    let start = reader.index;
    let origin_0 = match reader.read_int() {
        Ok(x) => x,
        Err(e) => {
            reader.index = start;
            return Err(e);
        },
    };
    let origin_1 = match reader.read_int() {
        Ok(x) => x,
        Err(e) => {
            reader.index = start;
            return Err(e);
        },
    };
    let origin_2 = match reader.read_int() {
        Ok(x) => x,
        Err(e) => {
            reader.index = start;
            return Err(e);
        },
    };
    let size = match reader.read_int() {
        Ok(x) => x,
        Err(e) => {
            reader.index = start;
            return Err(e);
        },
    };
    Ok(CubemapSample { origin: [origin_0, origin_1, origin_2], size })
}

/// Read the 64 face indices of an overlay record.
fn read_overlay_faces(reader: &mut Reader) -> (r: Result<Vec<i32>, ReadError>)
    ensures
        final(reader).bytes == old(reader).bytes,
        r is Ok <==> old(reader).index + 256 <= old(reader).bytes@.len(),
        r matches Ok(a) ==> a@.len() == 64 && (forall|k: int|
            0 <= k < 64 ==> #[trigger] a@[k] == crate::reader::le_i32(
                old(reader).bytes@,
                old(reader).index + 4 * k,
            )) && final(reader).index == old(reader).index + 256,
        r matches Err(e) ==> final(reader).index == old(reader).index && e is OutOfBounds,
{
    let start = reader.index;
    if reader.index > reader.bytes.len() || 256 > reader.bytes.len() - reader.index {
        return Err(ReadError::OutOfBounds { position: reader.index, wanted: 256 });
    }
    let mut a: Vec<i32> = Vec::new();
    let mut k: usize = 0;
    while k < 64
        invariant
            k <= 64,
            a@.len() == k,
            reader.bytes == old(reader).bytes,
            start + 256 <= reader.bytes@.len(),
            reader.index == start + 4 * k,
            forall|j: int|
                0 <= j < k ==> #[trigger] a@[j] == crate::reader::le_i32(
                    old(reader).bytes@,
                    start + 4 * j,
                ),
        decreases 64 - k,
    {
        let f = match reader.read_int() {
            Ok(x) => x,
            Err(e) => {
                reader.index = start;
                return Err(e);
            },
        };
        a.push(f);
        k = k + 1;
    }
    Ok(a)
}

/// Read one `Overlay` record: 352 bytes.
#[verifier::rlimit(50)]
#[verifier::spinoff_prover]
pub fn read_overlay(reader: &mut Reader) -> (r: Result<Overlay, ReadError>)
    ensures
        final(reader).bytes == old(reader).bytes,
        r is Ok <==> old(reader).index + 352 <= old(reader).bytes@.len(),
        r matches Ok(v) ==> overlay_matches(old(reader).bytes@, old(reader).index as int, v)
            && final(reader).index == old(reader).index + 352,
        r matches Err(e) ==> final(reader).index == old(reader).index && e is OutOfBounds,
{
    let start = reader.index;
    let id = match reader.read_int() {
        Ok(x) => x,
        Err(e) => {
            reader.index = start;
            return Err(e);
        },
    };
    let texinfo = match reader.read_short() {
        Ok(x) => x,
        Err(e) => {
            reader.index = start;
            return Err(e);
        },
    };
    let face_count_and_render_order = match reader.read_ushort() {
        Ok(x) => x,
        Err(e) => {
            reader.index = start;
            return Err(e);
        },
    };
    let faces = match read_overlay_faces(reader) {
        Ok(x) => x,
        Err(e) => {
            reader.index = start;
            return Err(e);
        },
    };
    let u_0 = match reader.read_float_bits() {
        Ok(x) => x,
        Err(e) => {
            reader.index = start;
            return Err(e);
        },
    };
    let u_1 = match reader.read_float_bits() {
        Ok(x) => x,
        Err(e) => {
            reader.index = start;
            return Err(e);
        },
    };
    let v_0 = match reader.read_float_bits() {
        Ok(x) => x,
        Err(e) => {
            reader.index = start;
            return Err(e);
        },
    };
    let v_1 = match reader.read_float_bits() {
        Ok(x) => x,
        Err(e) => {
            reader.index = start;
            return Err(e);
        },
    };
    let uv_points_0 = match reader.read_vector3() {
        Ok(x) => x,
        Err(e) => {
            reader.index = start;
            return Err(e);
        },
    };
    let uv_points_1 = match reader.read_vector3() {
        Ok(x) => x,
        Err(e) => {
            reader.index = start;
            return Err(e);
        },
    };
    let uv_points_2 = match reader.read_vector3() {
        Ok(x) => x,
        Err(e) => {
            reader.index = start;
            return Err(e);
        },
    };
    let uv_points_3 = match reader.read_vector3() {
        Ok(x) => x,
        Err(e) => {
            reader.index = start;
            return Err(e);
        },
    };
    let origin = match reader.read_vector3() {
        Ok(x) => x,
        Err(e) => {
            reader.index = start;
            return Err(e);
        },
    };
    let basis_normal = match reader.read_vector3() {
        Ok(x) => x,
        Err(e) => {
            reader.index = start;
            return Err(e);
        },
    };
    Ok(
        Overlay {
            id,
            texinfo,
            face_count_and_render_order,
            faces,
            u: [u_0, u_1],
            v: [v_0, v_1],
            uv_points: [uv_points_0, uv_points_1, uv_points_2, uv_points_3],
            origin,
            basis_normal,
        },
    )
}

/// Read one `Primitive` record: 10 bytes.
pub fn read_primitive(reader: &mut Reader) -> (r: Result<Primitive, ReadError>)
    ensures
        final(reader).bytes == old(reader).bytes,
        r is Ok <==> old(reader).index + 10 <= old(reader).bytes@.len(),
        r matches Ok(v) ==> v == primitive_at(old(reader).bytes@, old(reader).index as int)
            && final(reader).index == old(reader).index + 10,
        r matches Err(e) ==> final(reader).index == old(reader).index && e is OutOfBounds,
{
    let start = reader.index;
    let prim_type = match reader.read_ushort() {
        Ok(x) => x,
        Err(e) => {
            reader.index = start;
            return Err(e);
        },
    };
    let first_index = match reader.read_ushort() {
        Ok(x) => x,
        Err(e) => {
            reader.index = start;
            return Err(e);
        },
    };
    let num_indices = match reader.read_ushort() {
        Ok(x) => x,
        Err(e) => {
            reader.index = start;
            return Err(e);
        },
    };
    let first_vertex = match reader.read_ushort() {
        Ok(x) => x,
        Err(e) => {
            reader.index = start;
            return Err(e);
        },
    };
    let num_vertices = match reader.read_ushort() {
        Ok(x) => x,
        Err(e) => {
            reader.index = start;
            return Err(e);
        },
    };
    Ok(Primitive { prim_type, first_index, num_indices, first_vertex, num_vertices })
}

/// Read one `PrimVert` record: 12 bytes.
pub fn read_primvert(reader: &mut Reader) -> (r: Result<PrimVert, ReadError>)
    ensures
        final(reader).bytes == old(reader).bytes,
        r is Ok <==> old(reader).index + 12 <= old(reader).bytes@.len(),
        r matches Ok(v) ==> v == primvert_at(old(reader).bytes@, old(reader).index as int)
            && final(reader).index == old(reader).index + 12,
        r matches Err(e) ==> final(reader).index == old(reader).index && e is OutOfBounds,
{
    let start = reader.index;
    let pos = match reader.read_vector3() {
        Ok(x) => x,
        Err(e) => {
            reader.index = start;
            return Err(e);
        },
    };
    Ok(PrimVert { pos })
}

/// Read one `PrimIndex` record: 2 bytes.
pub fn read_primindex(reader: &mut Reader) -> (r: Result<PrimIndex, ReadError>)
    ensures
        final(reader).bytes == old(reader).bytes,
        r is Ok <==> old(reader).index + 2 <= old(reader).bytes@.len(),
        r matches Ok(v) ==> v == primindex_at(old(reader).bytes@, old(reader).index as int)
            && final(reader).index == old(reader).index + 2,
        r matches Err(e) ==> final(reader).index == old(reader).index && e is OutOfBounds,
{
    let start = reader.index;
    let index = match reader.read_ushort() {
        Ok(x) => x,
        Err(e) => {
            reader.index = start;
            return Err(e);
        },
    };
    Ok(PrimIndex { index })
}

/// Read one `ClipPortalVert` record: 12 bytes.
pub fn read_clipportalvert(reader: &mut Reader) -> (r: Result<ClipPortalVert, ReadError>)
    ensures
        final(reader).bytes == old(reader).bytes,
        r is Ok <==> old(reader).index + 12 <= old(reader).bytes@.len(),
        r matches Ok(v) ==> v == clipportalvert_at(old(reader).bytes@, old(reader).index as int)
            && final(reader).index == old(reader).index + 12,
        r matches Err(e) ==> final(reader).index == old(reader).index && e is OutOfBounds,
{
    let start = reader.index;
    let vec = match reader.read_vector3() {
        Ok(x) => x,
        Err(e) => {
            reader.index = start;
            return Err(e);
        },
    };
    Ok(ClipPortalVert { vec })
}

/// Read one `TexDataStringTable` record: 4 bytes.
pub fn read_texdatastringtable(reader: &mut Reader) -> (r: Result<TexDataStringTable, ReadError>)
    ensures
        final(reader).bytes == old(reader).bytes,
        r is Ok <==> old(reader).index + 4 <= old(reader).bytes@.len(),
        r matches Ok(v) ==> v == texdatastringtable_at(old(reader).bytes@, old(reader).index as int)
            && final(reader).index == old(reader).index + 4,
        r matches Err(e) ==> final(reader).index == old(reader).index && e is OutOfBounds,
{
    let start = reader.index;
    let offset = match reader.read_uint() {
        Ok(x) => x,
        Err(e) => {
            reader.index = start;
            return Err(e);
        },
    };
    Ok(TexDataStringTable { offset })
}

/// Read one `LeafMinDistToWater` record: 4 bytes.
pub fn read_leafmindisttowater(reader: &mut Reader) -> (r: Result<LeafMinDistToWater, ReadError>)
    ensures
        final(reader).bytes == old(reader).bytes,
        r is Ok <==> old(reader).index + 4 <= old(reader).bytes@.len(),
        r matches Ok(v) ==> v == leafmindisttowater_at(old(reader).bytes@, old(reader).index as int)
            && final(reader).index == old(reader).index + 4,
        r matches Err(e) ==> final(reader).index == old(reader).index && e is OutOfBounds,
{
    let start = reader.index;
    let dist = match reader.read_int() {
        Ok(x) => x,
        Err(e) => {
            reader.index = start;
            return Err(e);
        },
    };
    Ok(LeafMinDistToWater { dist })
}

/// Read one `FaceMacroTextureInfo` record: 4 bytes.
pub fn read_facemacrotextureinfo(reader: &mut Reader) -> (r: Result<FaceMacroTextureInfo, ReadError>)
    ensures
        final(reader).bytes == old(reader).bytes,
        r is Ok <==> old(reader).index + 4 <= old(reader).bytes@.len(),
        r matches Ok(v) ==> v == facemacrotextureinfo_at(old(reader).bytes@, old(reader).index as int)
            && final(reader).index == old(reader).index + 4,
        r matches Err(e) ==> final(reader).index == old(reader).index && e is OutOfBounds,
{
    let start = reader.index;
    let index = match reader.read_int() {
        Ok(x) => x,
        Err(e) => {
            reader.index = start;
            return Err(e);
        },
    };
    Ok(FaceMacroTextureInfo { index })
}

/// Read one `VertexNormal` record: 12 bytes.
pub fn read_vertexnormal(reader: &mut Reader) -> (r: Result<VertexNormal, ReadError>)
    ensures
        final(reader).bytes == old(reader).bytes,
        r is Ok <==> old(reader).index + 12 <= old(reader).bytes@.len(),
        r matches Ok(v) ==> v == vertexnormal_at(old(reader).bytes@, old(reader).index as int)
            && final(reader).index == old(reader).index + 12,
        r matches Err(e) ==> final(reader).index == old(reader).index && e is OutOfBounds,
{
    let start = reader.index;
    let normal = match reader.read_vector3() {
        Ok(x) => x,
        Err(e) => {
            reader.index = start;
            return Err(e);
        },
    };
    Ok(VertexNormal { normal })
}

/// Read one `VertexNormalIndex` record: 2 bytes.
pub fn read_vertexnormalindex(reader: &mut Reader) -> (r: Result<VertexNormalIndex, ReadError>)
    ensures
        final(reader).bytes == old(reader).bytes,
        r is Ok <==> old(reader).index + 2 <= old(reader).bytes@.len(),
        r matches Ok(v) ==> v == vertexnormalindex_at(old(reader).bytes@, old(reader).index as int)
            && final(reader).index == old(reader).index + 2,
        r matches Err(e) ==> final(reader).index == old(reader).index && e is OutOfBounds,
{
    let start = reader.index;
    let index = match reader.read_ushort() {
        Ok(x) => x,
        Err(e) => {
            reader.index = start;
            return Err(e);
        },
    };
    Ok(VertexNormalIndex { index })
}

/// Read one `DispLightmapSamplePosition` record: 1 byte.
pub fn read_displightmapsampleposition(reader: &mut Reader) -> (r: Result<DispLightmapSamplePosition, ReadError>)
    ensures
        final(reader).bytes == old(reader).bytes,
        r is Ok <==> old(reader).index + 1 <= old(reader).bytes@.len(),
        r matches Ok(v) ==> v == displightmapsampleposition_at(old(reader).bytes@, old(reader).index as int)
            && final(reader).index == old(reader).index + 1,
        r matches Err(e) ==> final(reader).index == old(reader).index && e is OutOfBounds,
{
    let start = reader.index;
    let unknown = match reader.read_byte() {
        Ok(x) => x,
        Err(e) => {
            reader.index = start;
            return Err(e);
        },
    };
    Ok(DispLightmapSamplePosition { unknown })
}

/// Read one `PhyDisp` record: 2 bytes.
pub fn read_phydisp(reader: &mut Reader) -> (r: Result<PhyDisp, ReadError>)
    ensures
        final(reader).bytes == old(reader).bytes,
        r is Ok <==> old(reader).index + 2 <= old(reader).bytes@.len(),
        r matches Ok(v) ==> v == phydisp_at(old(reader).bytes@, old(reader).index as int)
            && final(reader).index == old(reader).index + 2,
        r matches Err(e) ==> final(reader).index == old(reader).index && e is OutOfBounds,
{
    let start = reader.index;
    let num_disps = match reader.read_ushort() {
        Ok(x) => x,
        Err(e) => {
            reader.index = start;
            return Err(e);
        },
    };
    Ok(PhyDisp { num_disps })
}

/// Read one `OccluderData` record: 40 bytes.
pub fn read_occluderdata(reader: &mut Reader) -> (r: Result<OccluderData, ReadError>)
    ensures
        final(reader).bytes == old(reader).bytes,
        r is Ok <==> old(reader).index + 40 <= old(reader).bytes@.len(),
        r matches Ok(v) ==> v == occluder_data_at(old(reader).bytes@, old(reader).index as int)
            && final(reader).index == old(reader).index + 40,
        r matches Err(e) ==> final(reader).index == old(reader).index && e is OutOfBounds,
{
    let start = reader.index;
    let flags = match reader.read_int() {
        Ok(x) => x,
        Err(e) => {
            reader.index = start;
            return Err(e);
        },
    };
    let first_poly = match reader.read_int() {
        Ok(x) => x,
        Err(e) => {
            reader.index = start;
            return Err(e);
        },
    };
    let poly_count = match reader.read_int() {
        Ok(x) => x,
        Err(e) => {
            reader.index = start;
            return Err(e);
        },
    };
    let mins = match reader.read_vector3() {
        Ok(x) => x,
        Err(e) => {
            reader.index = start;
            return Err(e);
        },
    };
    let maxs = match reader.read_vector3() {
        Ok(x) => x,
        Err(e) => {
            reader.index = start;
            return Err(e);
        },
    };
    let area = match reader.read_int() {
        Ok(x) => x,
        Err(e) => {
            reader.index = start;
            return Err(e);
        },
    };
    Ok(OccluderData { flags, first_poly, poly_count, mins, maxs, area })
}

/// Read one `OccluderPolyData` record: 12 bytes.
pub fn read_occluderpolydata(reader: &mut Reader) -> (r: Result<OccluderPolyData, ReadError>)
    ensures
        final(reader).bytes == old(reader).bytes,
        r is Ok <==> old(reader).index + 12 <= old(reader).bytes@.len(),
        r matches Ok(v) ==> v == occluder_poly_data_at(old(reader).bytes@, old(reader).index as int)
            && final(reader).index == old(reader).index + 12,
        r matches Err(e) ==> final(reader).index == old(reader).index && e is OutOfBounds,
{
    let start = reader.index;
    let first_vertex_index = match reader.read_int() {
        Ok(x) => x,
        Err(e) => {
            reader.index = start;
            return Err(e);
        },
    };
    let vertex_count = match reader.read_int() {
        Ok(x) => x,
        Err(e) => {
            reader.index = start;
            return Err(e);
        },
    };
    let plane_num = match reader.read_int() {
        Ok(x) => x,
        Err(e) => {
            reader.index = start;
            return Err(e);
        },
    };
    Ok(OccluderPolyData { first_vertex_index, vertex_count, plane_num })
}

/// Read one `GameLumpInfo` record: 16 bytes.
pub fn read_gamelumpinfo(reader: &mut Reader) -> (r: Result<GameLumpInfo, ReadError>)
    ensures
        final(reader).bytes == old(reader).bytes,
        r is Ok <==> old(reader).index + 16 <= old(reader).bytes@.len(),
        r matches Ok(v) ==> v == gamelumpinfo_at(old(reader).bytes@, old(reader).index as int)
            && final(reader).index == old(reader).index + 16,
        r matches Err(e) ==> final(reader).index == old(reader).index && e is OutOfBounds,
{
    let start = reader.index;
    let id = match reader.read_int() {
        Ok(x) => x,
        Err(e) => {
            reader.index = start;
            return Err(e);
        },
    };
    let flags = match reader.read_ushort() {
        Ok(x) => x,
        Err(e) => {
            reader.index = start;
            return Err(e);
        },
    };
    let version = match reader.read_ushort() {
        Ok(x) => x,
        Err(e) => {
            reader.index = start;
            return Err(e);
        },
    };
    let file_offset = match reader.read_int() {
        Ok(x) => x,
        Err(e) => {
            reader.index = start;
            return Err(e);
        },
    };
    let file_length = match reader.read_int() {
        Ok(x) => x,
        Err(e) => {
            reader.index = start;
            return Err(e);
        },
    };
    Ok(GameLumpInfo { id, flags, version, file_offset, file_length })
}

/// Read one `CollideHeader` record: 12 bytes.
pub fn read_collideheader(reader: &mut Reader) -> (r: Result<CollideHeader, ReadError>)
    ensures
        final(reader).bytes == old(reader).bytes,
        r is Ok <==> old(reader).index + 12 <= old(reader).bytes@.len(),
        r matches Ok(v) ==> v == collide_header_at(old(reader).bytes@, old(reader).index as int)
            && final(reader).index == old(reader).index + 12,
        r matches Err(e) ==> final(reader).index == old(reader).index && e is OutOfBounds,
{
    let start = reader.index;
    let size = match reader.read_int() {
        Ok(x) => x,
        Err(e) => {
            reader.index = start;
            return Err(e);
        },
    };
    let id = match reader.read_int() {
        Ok(x) => x,
        Err(e) => {
            reader.index = start;
            return Err(e);
        },
    };
    let version = match reader.read_ushort() {
        Ok(x) => x,
        Err(e) => {
            reader.index = start;
            return Err(e);
        },
    };
    let model_type = match reader.read_ushort() {
        Ok(x) => x,
        Err(e) => {
            reader.index = start;
            return Err(e);
        },
    };
    Ok(CollideHeader { size, id, version, model_type })
}

/// Read one `CompactSurfaceHeader` record: 20 bytes.
pub fn read_compactsurfaceheader(reader: &mut Reader) -> (r: Result<CompactSurfaceHeader, ReadError>)
    ensures
        final(reader).bytes == old(reader).bytes,
        r is Ok <==> old(reader).index + 20 <= old(reader).bytes@.len(),
        r matches Ok(v) ==> v == compact_surface_header_at(old(reader).bytes@, old(reader).index as int)
            && final(reader).index == old(reader).index + 20,
        r matches Err(e) ==> final(reader).index == old(reader).index && e is OutOfBounds,
{
    let start = reader.index;
    let surface_size = match reader.read_int() {
        Ok(x) => x,
        Err(e) => {
            reader.index = start;
            return Err(e);
        },
    };
    let drag_axis_areas = match reader.read_vector3() {
        Ok(x) => x,
        Err(e) => {
            reader.index = start;
            return Err(e);
        },
    };
    let axis_map_size = match reader.read_int() {
        Ok(x) => x,
        Err(e) => {
            reader.index = start;
            return Err(e);
        },
    };
    Ok(CompactSurfaceHeader { surface_size, drag_axis_areas, axis_map_size })
}

/// Read one `Leaf` record under lump version `version`: the six
/// ambient-light samples are present exactly when the version is 0.
pub fn read_leaf(reader: &mut Reader, version: u32) -> (r: Result<Leaf, ReadError>)
    ensures
        final(reader).bytes == old(reader).bytes,
        r is Ok <==> old(reader).index + leaf_width(version) <= old(reader).bytes@.len(),
        r matches Ok(v) ==> leaf_matches(old(reader).bytes@, old(reader).index as int, version, v)
            && final(reader).index == old(reader).index + leaf_width(version),
        r matches Err(e) ==> final(reader).index == old(reader).index && e is OutOfBounds,
{
    let start = reader.index;
    let contents_raw = match reader.read_uint() {
        Ok(x) => x,
        Err(e) => {
            reader.index = start;
            return Err(e);
        },
    };
    let contents = ContentsFlags::from_bits_truncate(contents_raw);
    let cluster = match reader.read_short() {
        Ok(x) => x,
        Err(e) => {
            reader.index = start;
            return Err(e);
        },
    };
    let area_flags = match reader.read_short() {
        Ok(x) => x,
        Err(e) => {
            reader.index = start;
            return Err(e);
        },
    };
    let mins_0 = match reader.read_short() {
        Ok(x) => x,
        Err(e) => {
            reader.index = start;
            return Err(e);
        },
    };
    let mins_1 = match reader.read_short() {
        Ok(x) => x,
        Err(e) => {
            reader.index = start;
            return Err(e);
        },
    };
    let mins_2 = match reader.read_short() {
        Ok(x) => x,
        Err(e) => {
            reader.index = start;
            return Err(e);
        },
    };
    let maxs_0 = match reader.read_short() {
        Ok(x) => x,
        Err(e) => {
            reader.index = start;
            return Err(e);
        },
    };
    let maxs_1 = match reader.read_short() {
        Ok(x) => x,
        Err(e) => {
            reader.index = start;
            return Err(e);
        },
    };
    let maxs_2 = match reader.read_short() {
        Ok(x) => x,
        Err(e) => {
            reader.index = start;
            return Err(e);
        },
    };
    let first_leaf_face = match reader.read_ushort() {
        Ok(x) => x,
        Err(e) => {
            reader.index = start;
            return Err(e);
        },
    };
    let num_leaf_faces = match reader.read_ushort() {
        Ok(x) => x,
        Err(e) => {
            reader.index = start;
            return Err(e);
        },
    };
    let first_leaf_brushes = match reader.read_ushort() {
        Ok(x) => x,
        Err(e) => {
            reader.index = start;
            return Err(e);
        },
    };
    let num_leaf_brushes = match reader.read_ushort() {
        Ok(x) => x,
        Err(e) => {
            reader.index = start;
            return Err(e);
        },
    };
    let in_water = match reader.read_short() {
        Ok(x) => x,
        Err(e) => {
            reader.index = start;
            return Err(e);
        },
    };
    let ambient_lighting = if version == 0 {
        match reader.read_compressed_light_cube() {
            Ok(x) => Some(x),
            Err(e) => {
                reader.index = start;
                return Err(e);
            },
        }
    } else {
        None
    };
    let padding = match reader.read_short() {
        Ok(x) => x,
        Err(e) => {
            reader.index = start;
            return Err(e);
        },
    };
    Ok(
        Leaf {
            contents,
            cluster,
            area_flags,
            mins: [mins_0, mins_1, mins_2],
            maxs: [maxs_0, maxs_1, maxs_2],
            first_leaf_face,
            num_leaf_faces,
            first_leaf_brushes,
            num_leaf_brushes,
            in_water,
            ambient_lighting,
            padding,
        },
    )
}

} // verus!
