use vstd::prelude::*;

use vstd::arithmetic::div_mod::{
    lemma_fundamental_div_mod_converse_div, lemma_div_is_ordered, lemma_div_by_multiple,
};

use crate::error::{ReadError, DecodeError, attach_lump};
use crate::specific::vis::spec_decompress_vis;
use crate::specific::gamelump::{
    GameLumpHeader, GameLumpInfo, gamelumpinfo_at, GameLumpData, StaticProps, StaticPropDictLump,
    StaticPropLeafLump, SPRP_TAG,
};
use crate::utils::{
    find_byte, lemma_find_byte_bounds, copy_range, find_byte_from, bytes_to_string, ent_parse,
    ents_match,
};
use crate::specific::physcol_data::{
    CollideHeader, collide_header_at, CompactSurfaceHeader, compact_surface_header_at,
    MoppSurfaceHeader, ModelHeaders, CollisionData, kd_parse, kd_match,
};
use crate::file_structure::LumpInfo;
use crate::flags::{DispTriFlags, spec_disp_tri_from_bits};
use crate::lumps::vbsp::{
    VBSPLumpType, Occluder, Vis, PhysModel, GameLump,
    Plane, plane_at, TexData, texdata_at, Node, node_matches, TexInfo, texinfo_matches, Face,
    face_matches, FaceID, faceid_at, Edge, edge_matches, Model, model_at, Brush, brush_at,
    BrushSide, brushside_at, Area, area_at, AreaPortal, areaportal_at, DispInfo, dispinfo_matches,
    DispVert, dispvert_at, CubemapSample, cubemap_matches, Overlay, overlay_matches, Primitive,
    primitive_at, PrimVert, primvert_at, PrimIndex, primindex_at, ClipPortalVert,
    clipportalvert_at, TexDataStringTable, texdatastringtable_at, TexDataStringData, LeafMinDistToWater,
    leafmindisttowater_at, FaceMacroTextureInfo, facemacrotextureinfo_at, VertexNormal,
    vertexnormal_at, VertexNormalIndex, vertexnormalindex_at, DispLightmapSamplePosition,
    displightmapsampleposition_at, PhyDisp, phydisp_at, ColorRGBExp32, colorrgbexp32_at, Leaf,
    leaf_matches, leaf_width, PakFile,
};
use crate::parse::records::{
    read_leaf, read_occluderdata, read_occluderpolydata, read_collideheader, read_gamelumpinfo,
    read_compactsurfaceheader,
    read_texdata, read_node, read_texinfo, read_face, read_faceid, read_edge, read_model,
    read_brush, read_brushside, read_area, read_areaportal, read_dispinfo, read_dispvert,
    read_cubemapsample, read_overlay, read_primitive, read_primvert, read_primindex,
    read_clipportalvert, read_texdatastringtable, read_leafmindisttowater,
    read_facemacrotextureinfo, read_vertexnormal, read_vertexnormalindex,
    read_displightmapsampleposition, read_phydisp,
};
use crate::reader::{Reader, le_u16, le_i32, find_null, lemma_find_null_bounds};
use vstd::utf8::{valid_utf8, decode_utf8};
use crate::specific::occlusion::{OccluderData, occluder_data_at, OccluderPolyData, occluder_poly_data_at};
use crate::utils::{Vector3, vector3_at};

verus! {

/// How many records of width `w` a bounds-driven decoder reads between
/// positions `start` and `end`: one more record is started as long as the
/// position is below `end`, so the count is the length rounded up to whole
/// records.
pub open spec fn rec_count(start: int, end: int, w: int) -> int
    recommends
        w > 0,
{
    if end <= start {
        0
    } else {
        (end - start + w - 1) / w
    }
}

/// Every record of a bounds-driven run lies inside the buffer: either there
/// are no records, or the last one ends at or before the end of `b`.
pub open spec fn recs_fit(b: Seq<u8>, start: int, end: int, w: int) -> bool {
    rec_count(start, end, w) == 0 || start + rec_count(start, end, w) * w <= b.len()
}

/// `e` reports an out-of-bounds read inside lump `lump`.
pub open spec fn is_oob_in(e: DecodeError, lump: u8) -> bool {
    match e {
        DecodeError::OutOfBounds { lump: l, position: _, wanted: _ } => l == lump,
        _ => false,
    }
}

/// A record that starts below `end` is among the `rec_count` records of the
/// run.
pub proof fn lemma_rec_count_lower(start: int, end: int, w: int, j: int)
    requires
        w > 0,
        j >= 0,
        start + w * j < end,
    ensures
        j < rec_count(start, end, w),
{
    let d = end - start;
    let x = d + w - 1;
    assert(x >= w * (j + 1)) by (nonlinear_arith)
        requires
            x == d + w - 1,
            d >= w * j + 1,
            w > 0,
            j >= 0,
    ;
    lemma_div_by_multiple(j + 1, w);
    lemma_div_is_ordered(w * (j + 1), x, w);
}

/// When the position has reached or passed `end` after `j` whole records and
/// the previous record started below `end`, exactly `j` records were read.
pub proof fn lemma_rec_count_exact(start: int, end: int, w: int, j: int)
    requires
        w > 0,
        j >= 0,
        end <= start + w * j,
        j > 0 ==> start + w * (j - 1) < end,
    ensures
        rec_count(start, end, w) == j,
{
    if j == 0 {
        assert(rec_count(start, end, w) == 0);
    } else if end <= start {
        assert(w * j >= w * 1 > 0) by (nonlinear_arith)
            requires
                w > 0,
                j >= 1,
        ;
        assert(start + w * (j - 1) < start + w * j) by (nonlinear_arith)
            requires
                w > 0,
        ;
        assert(end > start + w * (j - 1));
        assert(w * (j - 1) >= 0) by (nonlinear_arith)
            requires
                w > 0,
                j >= 1,
        ;
        assert(false);
    } else {
        let d = end - start;
        let x = d + w - 1;
        let r = x - w * j;
        assert(0 <= r < w) by (nonlinear_arith)
            requires
                w > 0,
                j >= 1,
                d <= w * j,
                d > w * (j - 1),
                r == d + w - 1 - w * j,
        ;
        assert(x == j * w + r) by (nonlinear_arith)
            requires
                r == x - w * j,
        ;
        lemma_fundamental_div_mod_converse_div(x, w, j, r);
    }
}

/// Decode the plane lump: 20-byte records until the declared length is
/// consumed.
pub fn parse_planes(reader: &mut Reader, info: &LumpInfo) -> (r: Result<Vec<Plane>, DecodeError>)
    ensures
        final(reader).bytes == old(reader).bytes,
        ({
            let b = old(reader).bytes@;
            let start = info.file_offset as int;
            let end = info.file_offset + info.length;
            &&& (r is Ok <==> recs_fit(b, start, end, 20))
            &&& (r matches Ok(v) ==> {
                &&& v@.len() == rec_count(start, end, 20)
                &&& final(reader).index == start + v@.len() * 20
                &&& forall|j: int|
                    0 <= j < v@.len() ==> #[trigger] v@[j] == plane_at(b, start + 20 * j)
            })
            &&& (r matches Err(e) ==> is_oob_in(e, 1))
        }),
{
    let ghost b = reader.bytes@;
    let ghost start = info.file_offset as int;
    let ghost end = info.file_offset as int + info.length as int;
    reader.seek(info.file_offset as usize);
    let end_pos: u64 = info.file_offset as u64 + info.length as u64;
    let mut v: Vec<Plane> = Vec::new();
    while (reader.index as u64) < end_pos
        invariant
            reader.bytes == old(reader).bytes,
            b == old(reader).bytes@,
            start == info.file_offset as int,
            end == info.file_offset + info.length,
            end_pos == end,
            reader.index == start + 20 * v@.len(),
            v@.len() > 0 ==> start + 20 * (v@.len() - 1) < end,
            v@.len() > 0 ==> reader.index <= b.len(),
            forall|j: int| 0 <= j < v@.len() ==> #[trigger] v@[j] == plane_at(b, start + 20 * j),
        decreases end + 20 - reader.index,
    {
        proof {
            lemma_rec_count_lower(start, end, 20, v@.len() as int);
        }
        let rec = match read_plane(reader) {
            Ok(x) => x,
            Err(e) => {
                return Err(attach_lump(e, 1));
            },
        };
        v.push(rec);
    }
    proof {
        lemma_rec_count_exact(start, end, 20, v@.len() as int);
    }
    Ok(v)
}

/// Read one plane record.
pub fn read_plane(reader: &mut Reader) -> (r: Result<Plane, ReadError>)
    ensures
        final(reader).bytes == old(reader).bytes,
        r is Ok <==> old(reader).index + 20 <= old(reader).bytes@.len(),
        r matches Ok(v) ==> v == plane_at(old(reader).bytes@, old(reader).index as int)
            && final(reader).index == old(reader).index + 20,
        r matches Err(e) ==> final(reader).index == old(reader).index && e is OutOfBounds,
{
    let start = reader.index;
    let normal = match reader.read_vector3() {
        Ok(x) => x,
        Err(e) => {
            reader.index = start;
            return Err(e);
        },
    };
    let dist = match reader.read_float_bits() {
        Ok(x) => x,
        Err(e) => {
            reader.index = start;
            return Err(e);
        },
    };
    let plane_type = match reader.read_int() {
        Ok(x) => x,
        Err(e) => {
            reader.index = start;
            return Err(e);
        },
    };
    Ok(Plane { normal, dist, plane_type })
}


/// Decode the texture-data lump (index 2): 32-byte records until the declared
/// length is consumed.
pub fn parse_texdata(reader: &mut Reader, info: &LumpInfo) -> (r: Result<Vec<TexData>, DecodeError>)
    ensures
        final(reader).bytes == old(reader).bytes,
        ({
            let b = old(reader).bytes@;
            let start = info.file_offset as int;
            let end = info.file_offset + info.length;
            &&& (r is Ok <==> recs_fit(b, start, end, 32))
            &&& (r matches Ok(v) ==> {
                &&& v@.len() == rec_count(start, end, 32)
                &&& final(reader).index == start + v@.len() * 32
                &&& forall|j: int| 0 <= j < v@.len() ==> #[trigger] v@[j] == texdata_at(b, start + 32 * j)
            })
            &&& (r matches Err(e) ==> is_oob_in(e, 2))
        }),
{
    let ghost b = reader.bytes@;
    let ghost start = info.file_offset as int;
    let ghost end = info.file_offset as int + info.length as int;
    reader.seek(info.file_offset as usize);
    let end_pos: u64 = info.file_offset as u64 + info.length as u64;
    let mut v: Vec<TexData> = Vec::new();
    while (reader.index as u64) < end_pos
        invariant
            reader.bytes == old(reader).bytes,
            b == old(reader).bytes@,
            start == info.file_offset as int,
            end == info.file_offset + info.length,
            end_pos == end,
            reader.index == start + 32 * v@.len(),
            v@.len() > 0 ==> start + 32 * (v@.len() - 1) < end,
            v@.len() > 0 ==> reader.index <= b.len(),
            forall|j: int| 0 <= j < v@.len() ==> #[trigger] v@[j] == texdata_at(b, start + 32 * j),
        decreases end + 32 - reader.index,
    {
        proof {
            lemma_rec_count_lower(start, end, 32, v@.len() as int);
        }
        let rec = match read_texdata(reader) {
            Ok(x) => x,
            Err(e) => {
                return Err(attach_lump(e, 2));
            },
        };
        v.push(rec);
    }
    proof {
        lemma_rec_count_exact(start, end, 32, v@.len() as int);
    }
    Ok(v)
}


/// Decode the vertex lump (index 3): 12-byte records until the declared
/// length is consumed.
pub fn parse_vertices(reader: &mut Reader, info: &LumpInfo) -> (r: Result<Vec<Vector3>, DecodeError>)
    ensures
        final(reader).bytes == old(reader).bytes,
        ({
            let b = old(reader).bytes@;
            let start = info.file_offset as int;
            let end = info.file_offset + info.length;
            &&& (r is Ok <==> recs_fit(b, start, end, 12))
            &&& (r matches Ok(v) ==> {
                &&& v@.len() == rec_count(start, end, 12)
                &&& final(reader).index == start + v@.len() * 12
                &&& forall|j: int| 0 <= j < v@.len() ==> #[trigger] v@[j] == vector3_at(b, start + 12 * j)
            })
            &&& (r matches Err(e) ==> is_oob_in(e, 3))
        }),
{
    let ghost b = reader.bytes@;
    let ghost start = info.file_offset as int;
    let ghost end = info.file_offset as int + info.length as int;
    reader.seek(info.file_offset as usize);
    let end_pos: u64 = info.file_offset as u64 + info.length as u64;
    let mut v: Vec<Vector3> = Vec::new();
    while (reader.index as u64) < end_pos
        invariant
            reader.bytes == old(reader).bytes,
            b == old(reader).bytes@,
            start == info.file_offset as int,
            end == info.file_offset + info.length,
            end_pos == end,
            reader.index == start + 12 * v@.len(),
            v@.len() > 0 ==> start + 12 * (v@.len() - 1) < end,
            v@.len() > 0 ==> reader.index <= b.len(),
            forall|j: int| 0 <= j < v@.len() ==> #[trigger] v@[j] == vector3_at(b, start + 12 * j),
        decreases end + 12 - reader.index,
    {
        proof {
            lemma_rec_count_lower(start, end, 12, v@.len() as int);
        }
        let rec = match reader.read_vector3() {
            Ok(x) => x,
            Err(e) => {
                return Err(attach_lump(e, 3));
            },
        };
        v.push(rec);
    }
    proof {
        lemma_rec_count_exact(start, end, 12, v@.len() as int);
    }
    Ok(v)
}


/// Decode the node lump (index 5): 32-byte records until the declared
/// length is consumed.
pub fn parse_nodes(reader: &mut Reader, info: &LumpInfo) -> (r: Result<Vec<Node>, DecodeError>)
    ensures
        final(reader).bytes == old(reader).bytes,
        ({
            let b = old(reader).bytes@;
            let start = info.file_offset as int;
            let end = info.file_offset + info.length;
            &&& (r is Ok <==> recs_fit(b, start, end, 32))
            &&& (r matches Ok(v) ==> {
                &&& v@.len() == rec_count(start, end, 32)
                &&& final(reader).index == start + v@.len() * 32
                &&& forall|j: int| 0 <= j < v@.len() ==> node_matches(b, start + 32 * j, #[trigger] v@[j])
            })
            &&& (r matches Err(e) ==> is_oob_in(e, 5))
        }),
{
    let ghost b = reader.bytes@;
    let ghost start = info.file_offset as int;
    let ghost end = info.file_offset as int + info.length as int;
    reader.seek(info.file_offset as usize);
    let end_pos: u64 = info.file_offset as u64 + info.length as u64;
    let mut v: Vec<Node> = Vec::new();
    while (reader.index as u64) < end_pos
        invariant
            reader.bytes == old(reader).bytes,
            b == old(reader).bytes@,
            start == info.file_offset as int,
            end == info.file_offset + info.length,
            end_pos == end,
            reader.index == start + 32 * v@.len(),
            v@.len() > 0 ==> start + 32 * (v@.len() - 1) < end,
            v@.len() > 0 ==> reader.index <= b.len(),
            forall|j: int| 0 <= j < v@.len() ==> node_matches(b, start + 32 * j, #[trigger] v@[j]),
        decreases end + 32 - reader.index,
    {
        proof {
            lemma_rec_count_lower(start, end, 32, v@.len() as int);
        }
        let rec = match read_node(reader) {
            Ok(x) => x,
            Err(e) => {
                return Err(attach_lump(e, 5));
            },
        };
        v.push(rec);
    }
    proof {
        lemma_rec_count_exact(start, end, 32, v@.len() as int);
    }
    Ok(v)
}


/// Decode the texture-info lump (index 6): 72-byte records until the declared
/// length is consumed.
pub fn parse_texinfos(reader: &mut Reader, info: &LumpInfo) -> (r: Result<Vec<TexInfo>, DecodeError>)
    ensures
        final(reader).bytes == old(reader).bytes,
        ({
            let b = old(reader).bytes@;
            let start = info.file_offset as int;
            let end = info.file_offset + info.length;
            &&& (r is Ok <==> recs_fit(b, start, end, 72))
            &&& (r matches Ok(v) ==> {
                &&& v@.len() == rec_count(start, end, 72)
                &&& final(reader).index == start + v@.len() * 72
                &&& forall|j: int| 0 <= j < v@.len() ==> texinfo_matches(b, start + 72 * j, #[trigger] v@[j])
            })
            &&& (r matches Err(e) ==> is_oob_in(e, 6))
        }),
{
    let ghost b = reader.bytes@;
    let ghost start = info.file_offset as int;
    let ghost end = info.file_offset as int + info.length as int;
    reader.seek(info.file_offset as usize);
    let end_pos: u64 = info.file_offset as u64 + info.length as u64;
    let mut v: Vec<TexInfo> = Vec::new();
    while (reader.index as u64) < end_pos
        invariant
            reader.bytes == old(reader).bytes,
            b == old(reader).bytes@,
            start == info.file_offset as int,
            end == info.file_offset + info.length,
            end_pos == end,
            reader.index == start + 72 * v@.len(),
            v@.len() > 0 ==> start + 72 * (v@.len() - 1) < end,
            v@.len() > 0 ==> reader.index <= b.len(),
            forall|j: int| 0 <= j < v@.len() ==> texinfo_matches(b, start + 72 * j, #[trigger] v@[j]),
        decreases end + 72 - reader.index,
    {
        proof {
            lemma_rec_count_lower(start, end, 72, v@.len() as int);
        }
        let rec = match read_texinfo(reader) {
            Ok(x) => x,
            Err(e) => {
                return Err(attach_lump(e, 6));
            },
        };
        v.push(rec);
    }
    proof {
        lemma_rec_count_exact(start, end, 72, v@.len() as int);
    }
    Ok(v)
}


/// Decode the face lump (index 7): 56-byte records until the declared
/// length is consumed.
pub fn parse_faces(reader: &mut Reader, info: &LumpInfo) -> (r: Result<Vec<Face>, DecodeError>)
    ensures
        final(reader).bytes == old(reader).bytes,
        ({
            let b = old(reader).bytes@;
            let start = info.file_offset as int;
            let end = info.file_offset + info.length;
            &&& (r is Ok <==> recs_fit(b, start, end, 56))
            &&& (r matches Ok(v) ==> {
                &&& v@.len() == rec_count(start, end, 56)
                &&& final(reader).index == start + v@.len() * 56
                &&& forall|j: int| 0 <= j < v@.len() ==> face_matches(b, start + 56 * j, #[trigger] v@[j])
            })
            &&& (r matches Err(e) ==> is_oob_in(e, 7))
        }),
{
    let ghost b = reader.bytes@;
    let ghost start = info.file_offset as int;
    let ghost end = info.file_offset as int + info.length as int;
    reader.seek(info.file_offset as usize);
    let end_pos: u64 = info.file_offset as u64 + info.length as u64;
    let mut v: Vec<Face> = Vec::new();
    while (reader.index as u64) < end_pos
        invariant
            reader.bytes == old(reader).bytes,
            b == old(reader).bytes@,
            start == info.file_offset as int,
            end == info.file_offset + info.length,
            end_pos == end,
            reader.index == start + 56 * v@.len(),
            v@.len() > 0 ==> start + 56 * (v@.len() - 1) < end,
            v@.len() > 0 ==> reader.index <= b.len(),
            forall|j: int| 0 <= j < v@.len() ==> face_matches(b, start + 56 * j, #[trigger] v@[j]),
        decreases end + 56 - reader.index,
    {
        proof {
            lemma_rec_count_lower(start, end, 56, v@.len() as int);
        }
        let rec = match read_face(reader) {
            Ok(x) => x,
            Err(e) => {
                return Err(attach_lump(e, 7));
            },
        };
        v.push(rec);
    }
    proof {
        lemma_rec_count_exact(start, end, 56, v@.len() as int);
    }
    Ok(v)
}


/// Decode the lighting-sample lump (index 8): 4-byte records until the declared
/// length is consumed.
pub fn parse_lighting(reader: &mut Reader, info: &LumpInfo) -> (r: Result<Vec<ColorRGBExp32>, DecodeError>)
    ensures
        final(reader).bytes == old(reader).bytes,
        ({
            let b = old(reader).bytes@;
            let start = info.file_offset as int;
            let end = info.file_offset + info.length;
            &&& (r is Ok <==> recs_fit(b, start, end, 4))
            &&& (r matches Ok(v) ==> {
                &&& v@.len() == rec_count(start, end, 4)
                &&& final(reader).index == start + v@.len() * 4
                &&& forall|j: int| 0 <= j < v@.len() ==> #[trigger] v@[j] == colorrgbexp32_at(b, start + 4 * j)
            })
            &&& (r matches Err(e) ==> is_oob_in(e, 8))
        }),
{
    let ghost b = reader.bytes@;
    let ghost start = info.file_offset as int;
    let ghost end = info.file_offset as int + info.length as int;
    reader.seek(info.file_offset as usize);
    let end_pos: u64 = info.file_offset as u64 + info.length as u64;
    let mut v: Vec<ColorRGBExp32> = Vec::new();
    while (reader.index as u64) < end_pos
        invariant
            reader.bytes == old(reader).bytes,
            b == old(reader).bytes@,
            start == info.file_offset as int,
            end == info.file_offset + info.length,
            end_pos == end,
            reader.index == start + 4 * v@.len(),
            v@.len() > 0 ==> start + 4 * (v@.len() - 1) < end,
            v@.len() > 0 ==> reader.index <= b.len(),
            forall|j: int| 0 <= j < v@.len() ==> #[trigger] v@[j] == colorrgbexp32_at(b, start + 4 * j),
        decreases end + 4 - reader.index,
    {
        proof {
            lemma_rec_count_lower(start, end, 4, v@.len() as int);
        }
        let rec = match reader.read_colorrgbexp32() {
            Ok(x) => x,
            Err(e) => {
                return Err(attach_lump(e, 8));
            },
        };
        v.push(rec);
    }
    proof {
        lemma_rec_count_exact(start, end, 4, v@.len() as int);
    }
    Ok(v)
}


/// Decode the face-identifier lump (index 11): 2-byte records until the declared
/// length is consumed.
pub fn parse_faceids(reader: &mut Reader, info: &LumpInfo) -> (r: Result<Vec<FaceID>, DecodeError>)
    ensures
        final(reader).bytes == old(reader).bytes,
        ({
            let b = old(reader).bytes@;
            let start = info.file_offset as int;
            let end = info.file_offset + info.length;
            &&& (r is Ok <==> recs_fit(b, start, end, 2))
            &&& (r matches Ok(v) ==> {
                &&& v@.len() == rec_count(start, end, 2)
                &&& final(reader).index == start + v@.len() * 2
                &&& forall|j: int| 0 <= j < v@.len() ==> #[trigger] v@[j] == faceid_at(b, start + 2 * j)
            })
            &&& (r matches Err(e) ==> is_oob_in(e, 11))
        }),
{
    let ghost b = reader.bytes@;
    let ghost start = info.file_offset as int;
    let ghost end = info.file_offset as int + info.length as int;
    reader.seek(info.file_offset as usize);
    let end_pos: u64 = info.file_offset as u64 + info.length as u64;
    let mut v: Vec<FaceID> = Vec::new();
    while (reader.index as u64) < end_pos
        invariant
            reader.bytes == old(reader).bytes,
            b == old(reader).bytes@,
            start == info.file_offset as int,
            end == info.file_offset + info.length,
            end_pos == end,
            reader.index == start + 2 * v@.len(),
            v@.len() > 0 ==> start + 2 * (v@.len() - 1) < end,
            v@.len() > 0 ==> reader.index <= b.len(),
            forall|j: int| 0 <= j < v@.len() ==> #[trigger] v@[j] == faceid_at(b, start + 2 * j),
        decreases end + 2 - reader.index,
    {
        proof {
            lemma_rec_count_lower(start, end, 2, v@.len() as int);
        }
        let rec = match read_faceid(reader) {
            Ok(x) => x,
            Err(e) => {
                return Err(attach_lump(e, 11));
            },
        };
        v.push(rec);
    }
    proof {
        lemma_rec_count_exact(start, end, 2, v@.len() as int);
    }
    Ok(v)
}


/// Decode the edge lump (index 12): 4-byte records until the declared
/// length is consumed.
pub fn parse_edges(reader: &mut Reader, info: &LumpInfo) -> (r: Result<Vec<Edge>, DecodeError>)
    ensures
        final(reader).bytes == old(reader).bytes,
        ({
            let b = old(reader).bytes@;
            let start = info.file_offset as int;
            let end = info.file_offset + info.length;
            &&& (r is Ok <==> recs_fit(b, start, end, 4))
            &&& (r matches Ok(v) ==> {
                &&& v@.len() == rec_count(start, end, 4)
                &&& final(reader).index == start + v@.len() * 4
                &&& forall|j: int| 0 <= j < v@.len() ==> edge_matches(b, start + 4 * j, #[trigger] v@[j])
            })
            &&& (r matches Err(e) ==> is_oob_in(e, 12))
        }),
{
    let ghost b = reader.bytes@;
    let ghost start = info.file_offset as int;
    let ghost end = info.file_offset as int + info.length as int;
    reader.seek(info.file_offset as usize);
    let end_pos: u64 = info.file_offset as u64 + info.length as u64;
    let mut v: Vec<Edge> = Vec::new();
    while (reader.index as u64) < end_pos
        invariant
            reader.bytes == old(reader).bytes,
            b == old(reader).bytes@,
            start == info.file_offset as int,
            end == info.file_offset + info.length,
            end_pos == end,
            reader.index == start + 4 * v@.len(),
            v@.len() > 0 ==> start + 4 * (v@.len() - 1) < end,
            v@.len() > 0 ==> reader.index <= b.len(),
            forall|j: int| 0 <= j < v@.len() ==> edge_matches(b, start + 4 * j, #[trigger] v@[j]),
        decreases end + 4 - reader.index,
    {
        proof {
            lemma_rec_count_lower(start, end, 4, v@.len() as int);
        }
        let rec = match read_edge(reader) {
            Ok(x) => x,
            Err(e) => {
                return Err(attach_lump(e, 12));
            },
        };
        v.push(rec);
    }
    proof {
        lemma_rec_count_exact(start, end, 4, v@.len() as int);
    }
    Ok(v)
}


/// Decode the surf-edge lump (index 13): 4-byte records until the declared
/// length is consumed.
pub fn parse_surfedges(reader: &mut Reader, info: &LumpInfo) -> (r: Result<Vec<i32>, DecodeError>)
    ensures
        final(reader).bytes == old(reader).bytes,
        ({
            let b = old(reader).bytes@;
            let start = info.file_offset as int;
            let end = info.file_offset + info.length;
            &&& (r is Ok <==> recs_fit(b, start, end, 4))
            &&& (r matches Ok(v) ==> {
                &&& v@.len() == rec_count(start, end, 4)
                &&& final(reader).index == start + v@.len() * 4
                &&& forall|j: int| 0 <= j < v@.len() ==> #[trigger] v@[j] == le_i32(b, start + 4 * j)
            })
            &&& (r matches Err(e) ==> is_oob_in(e, 13))
        }),
{
    let ghost b = reader.bytes@;
    let ghost start = info.file_offset as int;
    let ghost end = info.file_offset as int + info.length as int;
    reader.seek(info.file_offset as usize);
    let end_pos: u64 = info.file_offset as u64 + info.length as u64;
    let mut v: Vec<i32> = Vec::new();
    while (reader.index as u64) < end_pos
        invariant
            reader.bytes == old(reader).bytes,
            b == old(reader).bytes@,
            start == info.file_offset as int,
            end == info.file_offset + info.length,
            end_pos == end,
            reader.index == start + 4 * v@.len(),
            v@.len() > 0 ==> start + 4 * (v@.len() - 1) < end,
            v@.len() > 0 ==> reader.index <= b.len(),
            forall|j: int| 0 <= j < v@.len() ==> #[trigger] v@[j] == le_i32(b, start + 4 * j),
        decreases end + 4 - reader.index,
    {
        proof {
            lemma_rec_count_lower(start, end, 4, v@.len() as int);
        }
        let rec = match reader.read_int() {
            Ok(x) => x,
            Err(e) => {
                return Err(attach_lump(e, 13));
            },
        };
        v.push(rec);
    }
    proof {
        lemma_rec_count_exact(start, end, 4, v@.len() as int);
    }
    Ok(v)
}


/// Decode the model lump (index 14): 48-byte records until the declared
/// length is consumed.
pub fn parse_models(reader: &mut Reader, info: &LumpInfo) -> (r: Result<Vec<Model>, DecodeError>)
    ensures
        final(reader).bytes == old(reader).bytes,
        ({
            let b = old(reader).bytes@;
            let start = info.file_offset as int;
            let end = info.file_offset + info.length;
            &&& (r is Ok <==> recs_fit(b, start, end, 48))
            &&& (r matches Ok(v) ==> {
                &&& v@.len() == rec_count(start, end, 48)
                &&& final(reader).index == start + v@.len() * 48
                &&& forall|j: int| 0 <= j < v@.len() ==> #[trigger] v@[j] == model_at(b, start + 48 * j)
            })
            &&& (r matches Err(e) ==> is_oob_in(e, 14))
        }),
{
    let ghost b = reader.bytes@;
    let ghost start = info.file_offset as int;
    let ghost end = info.file_offset as int + info.length as int;
    reader.seek(info.file_offset as usize);
    let end_pos: u64 = info.file_offset as u64 + info.length as u64;
    let mut v: Vec<Model> = Vec::new();
    while (reader.index as u64) < end_pos
        invariant
            reader.bytes == old(reader).bytes,
            b == old(reader).bytes@,
            start == info.file_offset as int,
            end == info.file_offset + info.length,
            end_pos == end,
            reader.index == start + 48 * v@.len(),
            v@.len() > 0 ==> start + 48 * (v@.len() - 1) < end,
            v@.len() > 0 ==> reader.index <= b.len(),
            forall|j: int| 0 <= j < v@.len() ==> #[trigger] v@[j] == model_at(b, start + 48 * j),
        decreases end + 48 - reader.index,
    {
        proof {
            lemma_rec_count_lower(start, end, 48, v@.len() as int);
        }
        let rec = match read_model(reader) {
            Ok(x) => x,
            Err(e) => {
                return Err(attach_lump(e, 14));
            },
        };
        v.push(rec);
    }
    proof {
        lemma_rec_count_exact(start, end, 48, v@.len() as int);
    }
    Ok(v)
}


/// Decode the brush lump (index 18): 12-byte records until the declared
/// length is consumed.
pub fn parse_brushes(reader: &mut Reader, info: &LumpInfo) -> (r: Result<Vec<Brush>, DecodeError>)
    ensures
        final(reader).bytes == old(reader).bytes,
        ({
            let b = old(reader).bytes@;
            let start = info.file_offset as int;
            let end = info.file_offset + info.length;
            &&& (r is Ok <==> recs_fit(b, start, end, 12))
            &&& (r matches Ok(v) ==> {
                &&& v@.len() == rec_count(start, end, 12)
                &&& final(reader).index == start + v@.len() * 12
                &&& forall|j: int| 0 <= j < v@.len() ==> #[trigger] v@[j] == brush_at(b, start + 12 * j)
            })
            &&& (r matches Err(e) ==> is_oob_in(e, 18))
        }),
{
    let ghost b = reader.bytes@;
    let ghost start = info.file_offset as int;
    let ghost end = info.file_offset as int + info.length as int;
    reader.seek(info.file_offset as usize);
    let end_pos: u64 = info.file_offset as u64 + info.length as u64;
    let mut v: Vec<Brush> = Vec::new();
    while (reader.index as u64) < end_pos
        invariant
            reader.bytes == old(reader).bytes,
            b == old(reader).bytes@,
            start == info.file_offset as int,
            end == info.file_offset + info.length,
            end_pos == end,
            reader.index == start + 12 * v@.len(),
            v@.len() > 0 ==> start + 12 * (v@.len() - 1) < end,
            v@.len() > 0 ==> reader.index <= b.len(),
            forall|j: int| 0 <= j < v@.len() ==> #[trigger] v@[j] == brush_at(b, start + 12 * j),
        decreases end + 12 - reader.index,
    {
        proof {
            lemma_rec_count_lower(start, end, 12, v@.len() as int);
        }
        let rec = match read_brush(reader) {
            Ok(x) => x,
            Err(e) => {
                return Err(attach_lump(e, 18));
            },
        };
        v.push(rec);
    }
    proof {
        lemma_rec_count_exact(start, end, 12, v@.len() as int);
    }
    Ok(v)
}


/// Decode the brush-side lump (index 19): 8-byte records until the declared
/// length is consumed.
pub fn parse_brushsides(reader: &mut Reader, info: &LumpInfo) -> (r: Result<Vec<BrushSide>, DecodeError>)
    ensures
        final(reader).bytes == old(reader).bytes,
        ({
            let b = old(reader).bytes@;
            let start = info.file_offset as int;
            let end = info.file_offset + info.length;
            &&& (r is Ok <==> recs_fit(b, start, end, 8))
            &&& (r matches Ok(v) ==> {
                &&& v@.len() == rec_count(start, end, 8)
                &&& final(reader).index == start + v@.len() * 8
                &&& forall|j: int| 0 <= j < v@.len() ==> #[trigger] v@[j] == brushside_at(b, start + 8 * j)
            })
            &&& (r matches Err(e) ==> is_oob_in(e, 19))
        }),
{
    let ghost b = reader.bytes@;
    let ghost start = info.file_offset as int;
    let ghost end = info.file_offset as int + info.length as int;
    reader.seek(info.file_offset as usize);
    let end_pos: u64 = info.file_offset as u64 + info.length as u64;
    let mut v: Vec<BrushSide> = Vec::new();
    while (reader.index as u64) < end_pos
        invariant
            reader.bytes == old(reader).bytes,
            b == old(reader).bytes@,
            start == info.file_offset as int,
            end == info.file_offset + info.length,
            end_pos == end,
            reader.index == start + 8 * v@.len(),
            v@.len() > 0 ==> start + 8 * (v@.len() - 1) < end,
            v@.len() > 0 ==> reader.index <= b.len(),
            forall|j: int| 0 <= j < v@.len() ==> #[trigger] v@[j] == brushside_at(b, start + 8 * j),
        decreases end + 8 - reader.index,
    {
        proof {
            lemma_rec_count_lower(start, end, 8, v@.len() as int);
        }
        let rec = match read_brushside(reader) {
            Ok(x) => x,
            Err(e) => {
                return Err(attach_lump(e, 19));
            },
        };
        v.push(rec);
    }
    proof {
        lemma_rec_count_exact(start, end, 8, v@.len() as int);
    }
    Ok(v)
}


/// Decode the area lump (index 20): 8-byte records until the declared
/// length is consumed.
pub fn parse_areas(reader: &mut Reader, info: &LumpInfo) -> (r: Result<Vec<Area>, DecodeError>)
    ensures
        final(reader).bytes == old(reader).bytes,
        ({
            let b = old(reader).bytes@;
            let start = info.file_offset as int;
            let end = info.file_offset + info.length;
            &&& (r is Ok <==> recs_fit(b, start, end, 8))
            &&& (r matches Ok(v) ==> {
                &&& v@.len() == rec_count(start, end, 8)
                &&& final(reader).index == start + v@.len() * 8
                &&& forall|j: int| 0 <= j < v@.len() ==> #[trigger] v@[j] == area_at(b, start + 8 * j)
            })
            &&& (r matches Err(e) ==> is_oob_in(e, 20))
        }),
{
    let ghost b = reader.bytes@;
    let ghost start = info.file_offset as int;
    let ghost end = info.file_offset as int + info.length as int;
    reader.seek(info.file_offset as usize);
    let end_pos: u64 = info.file_offset as u64 + info.length as u64;
    let mut v: Vec<Area> = Vec::new();
    while (reader.index as u64) < end_pos
        invariant
            reader.bytes == old(reader).bytes,
            b == old(reader).bytes@,
            start == info.file_offset as int,
            end == info.file_offset + info.length,
            end_pos == end,
            reader.index == start + 8 * v@.len(),
            v@.len() > 0 ==> start + 8 * (v@.len() - 1) < end,
            v@.len() > 0 ==> reader.index <= b.len(),
            forall|j: int| 0 <= j < v@.len() ==> #[trigger] v@[j] == area_at(b, start + 8 * j),
        decreases end + 8 - reader.index,
    {
        proof {
            lemma_rec_count_lower(start, end, 8, v@.len() as int);
        }
        let rec = match read_area(reader) {
            Ok(x) => x,
            Err(e) => {
                return Err(attach_lump(e, 20));
            },
        };
        v.push(rec);
    }
    proof {
        lemma_rec_count_exact(start, end, 8, v@.len() as int);
    }
    Ok(v)
}


/// Decode the area-portal lump (index 21): 12-byte records until the declared
/// length is consumed.
pub fn parse_areaportals(reader: &mut Reader, info: &LumpInfo) -> (r: Result<Vec<AreaPortal>, DecodeError>)
    ensures
        final(reader).bytes == old(reader).bytes,
        ({
            let b = old(reader).bytes@;
            let start = info.file_offset as int;
            let end = info.file_offset + info.length;
            &&& (r is Ok <==> recs_fit(b, start, end, 12))
            &&& (r matches Ok(v) ==> {
                &&& v@.len() == rec_count(start, end, 12)
                &&& final(reader).index == start + v@.len() * 12
                &&& forall|j: int| 0 <= j < v@.len() ==> #[trigger] v@[j] == areaportal_at(b, start + 12 * j)
            })
            &&& (r matches Err(e) ==> is_oob_in(e, 21))
        }),
{
    let ghost b = reader.bytes@;
    let ghost start = info.file_offset as int;
    let ghost end = info.file_offset as int + info.length as int;
    reader.seek(info.file_offset as usize);
    let end_pos: u64 = info.file_offset as u64 + info.length as u64;
    let mut v: Vec<AreaPortal> = Vec::new();
    while (reader.index as u64) < end_pos
        invariant
            reader.bytes == old(reader).bytes,
            b == old(reader).bytes@,
            start == info.file_offset as int,
            end == info.file_offset + info.length,
            end_pos == end,
            reader.index == start + 12 * v@.len(),
            v@.len() > 0 ==> start + 12 * (v@.len() - 1) < end,
            v@.len() > 0 ==> reader.index <= b.len(),
            forall|j: int| 0 <= j < v@.len() ==> #[trigger] v@[j] == areaportal_at(b, start + 12 * j),
        decreases end + 12 - reader.index,
    {
        proof {
            lemma_rec_count_lower(start, end, 12, v@.len() as int);
        }
        let rec = match read_areaportal(reader) {
            Ok(x) => x,
            Err(e) => {
                return Err(attach_lump(e, 21));
            },
        };
        v.push(rec);
    }
    proof {
        lemma_rec_count_exact(start, end, 12, v@.len() as int);
    }
    Ok(v)
}


/// Decode the displacement-info lump (index 26): 174-byte records until the declared
/// length is consumed.
pub fn parse_dispinfos(reader: &mut Reader, info: &LumpInfo) -> (r: Result<Vec<DispInfo>, DecodeError>)
    ensures
        final(reader).bytes == old(reader).bytes,
        ({
            let b = old(reader).bytes@;
            let start = info.file_offset as int;
            let end = info.file_offset + info.length;
            &&& (r is Ok <==> recs_fit(b, start, end, 174))
            &&& (r matches Ok(v) ==> {
                &&& v@.len() == rec_count(start, end, 174)
                &&& final(reader).index == start + v@.len() * 174
                &&& forall|j: int| 0 <= j < v@.len() ==> dispinfo_matches(b, start + 174 * j, #[trigger] v@[j])
            })
            &&& (r matches Err(e) ==> is_oob_in(e, 26))
        }),
{
    let ghost b = reader.bytes@;
    let ghost start = info.file_offset as int;
    let ghost end = info.file_offset as int + info.length as int;
    reader.seek(info.file_offset as usize);
    let end_pos: u64 = info.file_offset as u64 + info.length as u64;
    let mut v: Vec<DispInfo> = Vec::new();
    while (reader.index as u64) < end_pos
        invariant
            reader.bytes == old(reader).bytes,
            b == old(reader).bytes@,
            start == info.file_offset as int,
            end == info.file_offset + info.length,
            end_pos == end,
            reader.index == start + 174 * v@.len(),
            v@.len() > 0 ==> start + 174 * (v@.len() - 1) < end,
            v@.len() > 0 ==> reader.index <= b.len(),
            forall|j: int| 0 <= j < v@.len() ==> dispinfo_matches(b, start + 174 * j, #[trigger] v@[j]),
        decreases end + 174 - reader.index,
    {
        proof {
            lemma_rec_count_lower(start, end, 174, v@.len() as int);
        }
        let rec = match read_dispinfo(reader) {
            Ok(x) => x,
            Err(e) => {
                return Err(attach_lump(e, 26));
            },
        };
        v.push(rec);
    }
    proof {
        lemma_rec_count_exact(start, end, 174, v@.len() as int);
    }
    Ok(v)
}


/// Decode the original-face lump (index 27): 56-byte records until the declared
/// length is consumed.
pub fn parse_originalfaces(reader: &mut Reader, info: &LumpInfo) -> (r: Result<Vec<Face>, DecodeError>)
    ensures
        final(reader).bytes == old(reader).bytes,
        ({
            let b = old(reader).bytes@;
            let start = info.file_offset as int;
            let end = info.file_offset + info.length;
            &&& (r is Ok <==> recs_fit(b, start, end, 56))
            &&& (r matches Ok(v) ==> {
                &&& v@.len() == rec_count(start, end, 56)
                &&& final(reader).index == start + v@.len() * 56
                &&& forall|j: int| 0 <= j < v@.len() ==> face_matches(b, start + 56 * j, #[trigger] v@[j])
            })
            &&& (r matches Err(e) ==> is_oob_in(e, 27))
        }),
{
    let ghost b = reader.bytes@;
    let ghost start = info.file_offset as int;
    let ghost end = info.file_offset as int + info.length as int;
    reader.seek(info.file_offset as usize);
    let end_pos: u64 = info.file_offset as u64 + info.length as u64;
    let mut v: Vec<Face> = Vec::new();
    while (reader.index as u64) < end_pos
        invariant
            reader.bytes == old(reader).bytes,
            b == old(reader).bytes@,
            start == info.file_offset as int,
            end == info.file_offset + info.length,
            end_pos == end,
            reader.index == start + 56 * v@.len(),
            v@.len() > 0 ==> start + 56 * (v@.len() - 1) < end,
            v@.len() > 0 ==> reader.index <= b.len(),
            forall|j: int| 0 <= j < v@.len() ==> face_matches(b, start + 56 * j, #[trigger] v@[j]),
        decreases end + 56 - reader.index,
    {
        proof {
            lemma_rec_count_lower(start, end, 56, v@.len() as int);
        }
        let rec = match read_face(reader) {
            Ok(x) => x,
            Err(e) => {
                return Err(attach_lump(e, 27));
            },
        };
        v.push(rec);
    }
    proof {
        lemma_rec_count_exact(start, end, 56, v@.len() as int);
    }
    Ok(v)
}


/// Decode the physics-displacement lump (index 28): 2-byte records until the declared
/// length is consumed.
pub fn parse_phydisps(reader: &mut Reader, info: &LumpInfo) -> (r: Result<Vec<PhyDisp>, DecodeError>)
    ensures
        final(reader).bytes == old(reader).bytes,
        ({
            let b = old(reader).bytes@;
            let start = info.file_offset as int;
            let end = info.file_offset + info.length;
            &&& (r is Ok <==> recs_fit(b, start, end, 2))
            &&& (r matches Ok(v) ==> {
                &&& v@.len() == rec_count(start, end, 2)
                &&& final(reader).index == start + v@.len() * 2
                &&& forall|j: int| 0 <= j < v@.len() ==> #[trigger] v@[j] == phydisp_at(b, start + 2 * j)
            })
            &&& (r matches Err(e) ==> is_oob_in(e, 28))
        }),
{
    let ghost b = reader.bytes@;
    let ghost start = info.file_offset as int;
    let ghost end = info.file_offset as int + info.length as int;
    reader.seek(info.file_offset as usize);
    let end_pos: u64 = info.file_offset as u64 + info.length as u64;
    let mut v: Vec<PhyDisp> = Vec::new();
    while (reader.index as u64) < end_pos
        invariant
            reader.bytes == old(reader).bytes,
            b == old(reader).bytes@,
            start == info.file_offset as int,
            end == info.file_offset + info.length,
            end_pos == end,
            reader.index == start + 2 * v@.len(),
            v@.len() > 0 ==> start + 2 * (v@.len() - 1) < end,
            v@.len() > 0 ==> reader.index <= b.len(),
            forall|j: int| 0 <= j < v@.len() ==> #[trigger] v@[j] == phydisp_at(b, start + 2 * j),
        decreases end + 2 - reader.index,
    {
        proof {
            lemma_rec_count_lower(start, end, 2, v@.len() as int);
        }
        let rec = match read_phydisp(reader) {
            Ok(x) => x,
            Err(e) => {
                return Err(attach_lump(e, 28));
            },
        };
        v.push(rec);
    }
    proof {
        lemma_rec_count_exact(start, end, 2, v@.len() as int);
    }
    Ok(v)
}


/// Decode the vertex-normal lump (index 30): 12-byte records until the declared
/// length is consumed.
pub fn parse_vertnormals(reader: &mut Reader, info: &LumpInfo) -> (r: Result<Vec<VertexNormal>, DecodeError>)
    ensures
        final(reader).bytes == old(reader).bytes,
        ({
            let b = old(reader).bytes@;
            let start = info.file_offset as int;
            let end = info.file_offset + info.length;
            &&& (r is Ok <==> recs_fit(b, start, end, 12))
            &&& (r matches Ok(v) ==> {
                &&& v@.len() == rec_count(start, end, 12)
                &&& final(reader).index == start + v@.len() * 12
                &&& forall|j: int| 0 <= j < v@.len() ==> #[trigger] v@[j] == vertexnormal_at(b, start + 12 * j)
            })
            &&& (r matches Err(e) ==> is_oob_in(e, 30))
        }),
{
    let ghost b = reader.bytes@;
    let ghost start = info.file_offset as int;
    let ghost end = info.file_offset as int + info.length as int;
    reader.seek(info.file_offset as usize);
    let end_pos: u64 = info.file_offset as u64 + info.length as u64;
    let mut v: Vec<VertexNormal> = Vec::new();
    while (reader.index as u64) < end_pos
        invariant
            reader.bytes == old(reader).bytes,
            b == old(reader).bytes@,
            start == info.file_offset as int,
            end == info.file_offset + info.length,
            end_pos == end,
            reader.index == start + 12 * v@.len(),
            v@.len() > 0 ==> start + 12 * (v@.len() - 1) < end,
            v@.len() > 0 ==> reader.index <= b.len(),
            forall|j: int| 0 <= j < v@.len() ==> #[trigger] v@[j] == vertexnormal_at(b, start + 12 * j),
        decreases end + 12 - reader.index,
    {
        proof {
            lemma_rec_count_lower(start, end, 12, v@.len() as int);
        }
        let rec = match read_vertexnormal(reader) {
            Ok(x) => x,
            Err(e) => {
                return Err(attach_lump(e, 30));
            },
        };
        v.push(rec);
    }
    proof {
        lemma_rec_count_exact(start, end, 12, v@.len() as int);
    }
    Ok(v)
}


/// Decode the vertex-normal index lump (index 31): 2-byte records until the declared
/// length is consumed.
pub fn parse_vertnormalindices(reader: &mut Reader, info: &LumpInfo) -> (r: Result<Vec<VertexNormalIndex>, DecodeError>)
    ensures
        final(reader).bytes == old(reader).bytes,
        ({
            let b = old(reader).bytes@;
            let start = info.file_offset as int;
            let end = info.file_offset + info.length;
            &&& (r is Ok <==> recs_fit(b, start, end, 2))
            &&& (r matches Ok(v) ==> {
                &&& v@.len() == rec_count(start, end, 2)
                &&& final(reader).index == start + v@.len() * 2
                &&& forall|j: int| 0 <= j < v@.len() ==> #[trigger] v@[j] == vertexnormalindex_at(b, start + 2 * j)
            })
            &&& (r matches Err(e) ==> is_oob_in(e, 31))
        }),
{
    let ghost b = reader.bytes@;
    let ghost start = info.file_offset as int;
    let ghost end = info.file_offset as int + info.length as int;
    reader.seek(info.file_offset as usize);
    let end_pos: u64 = info.file_offset as u64 + info.length as u64;
    let mut v: Vec<VertexNormalIndex> = Vec::new();
    while (reader.index as u64) < end_pos
        invariant
            reader.bytes == old(reader).bytes,
            b == old(reader).bytes@,
            start == info.file_offset as int,
            end == info.file_offset + info.length,
            end_pos == end,
            reader.index == start + 2 * v@.len(),
            v@.len() > 0 ==> start + 2 * (v@.len() - 1) < end,
            v@.len() > 0 ==> reader.index <= b.len(),
            forall|j: int| 0 <= j < v@.len() ==> #[trigger] v@[j] == vertexnormalindex_at(b, start + 2 * j),
        decreases end + 2 - reader.index,
    {
        proof {
            lemma_rec_count_lower(start, end, 2, v@.len() as int);
        }
        let rec = match read_vertexnormalindex(reader) {
            Ok(x) => x,
            Err(e) => {
                return Err(attach_lump(e, 31));
            },
        };
        v.push(rec);
    }
    proof {
        lemma_rec_count_exact(start, end, 2, v@.len() as int);
    }
    Ok(v)
}


/// Decode the displacement-vertex lump (index 33): 20-byte records until the declared
/// length is consumed.
pub fn parse_dispverts(reader: &mut Reader, info: &LumpInfo) -> (r: Result<Vec<DispVert>, DecodeError>)
    ensures
        final(reader).bytes == old(reader).bytes,
        ({
            let b = old(reader).bytes@;
            let start = info.file_offset as int;
            let end = info.file_offset + info.length;
            &&& (r is Ok <==> recs_fit(b, start, end, 20))
            &&& (r matches Ok(v) ==> {
                &&& v@.len() == rec_count(start, end, 20)
                &&& final(reader).index == start + v@.len() * 20
                &&& forall|j: int| 0 <= j < v@.len() ==> #[trigger] v@[j] == dispvert_at(b, start + 20 * j)
            })
            &&& (r matches Err(e) ==> is_oob_in(e, 33))
        }),
{
    let ghost b = reader.bytes@;
    let ghost start = info.file_offset as int;
    let ghost end = info.file_offset as int + info.length as int;
    reader.seek(info.file_offset as usize);
    let end_pos: u64 = info.file_offset as u64 + info.length as u64;
    let mut v: Vec<DispVert> = Vec::new();
    while (reader.index as u64) < end_pos
        invariant
            reader.bytes == old(reader).bytes,
            b == old(reader).bytes@,
            start == info.file_offset as int,
            end == info.file_offset + info.length,
            end_pos == end,
            reader.index == start + 20 * v@.len(),
            v@.len() > 0 ==> start + 20 * (v@.len() - 1) < end,
            v@.len() > 0 ==> reader.index <= b.len(),
            forall|j: int| 0 <= j < v@.len() ==> #[trigger] v@[j] == dispvert_at(b, start + 20 * j),
        decreases end + 20 - reader.index,
    {
        proof {
            lemma_rec_count_lower(start, end, 20, v@.len() as int);
        }
        let rec = match read_dispvert(reader) {
            Ok(x) => x,
            Err(e) => {
                return Err(attach_lump(e, 33));
            },
        };
        v.push(rec);
    }
    proof {
        lemma_rec_count_exact(start, end, 20, v@.len() as int);
    }
    Ok(v)
}


/// Decode the sample-position lump (index 34): 1-byte records until the declared
/// length is consumed.
pub fn parse_displightmapsamplepositions(reader: &mut Reader, info: &LumpInfo) -> (r: Result<Vec<DispLightmapSamplePosition>, DecodeError>)
    ensures
        final(reader).bytes == old(reader).bytes,
        ({
            let b = old(reader).bytes@;
            let start = info.file_offset as int;
            let end = info.file_offset + info.length;
            &&& (r is Ok <==> recs_fit(b, start, end, 1))
            &&& (r matches Ok(v) ==> {
                &&& v@.len() == rec_count(start, end, 1)
                &&& final(reader).index == start + v@.len() * 1
                &&& forall|j: int| 0 <= j < v@.len() ==> #[trigger] v@[j] == displightmapsampleposition_at(b, start + 1 * j)
            })
            &&& (r matches Err(e) ==> is_oob_in(e, 34))
        }),
{
    let ghost b = reader.bytes@;
    let ghost start = info.file_offset as int;
    let ghost end = info.file_offset as int + info.length as int;
    reader.seek(info.file_offset as usize);
    let end_pos: u64 = info.file_offset as u64 + info.length as u64;
    let mut v: Vec<DispLightmapSamplePosition> = Vec::new();
    while (reader.index as u64) < end_pos
        invariant
            reader.bytes == old(reader).bytes,
            b == old(reader).bytes@,
            start == info.file_offset as int,
            end == info.file_offset + info.length,
            end_pos == end,
            reader.index == start + 1 * v@.len(),
            v@.len() > 0 ==> start + 1 * (v@.len() - 1) < end,
            v@.len() > 0 ==> reader.index <= b.len(),
            forall|j: int| 0 <= j < v@.len() ==> #[trigger] v@[j] == displightmapsampleposition_at(b, start + 1 * j),
        decreases end + 1 - reader.index,
    {
        proof {
            lemma_rec_count_lower(start, end, 1, v@.len() as int);
        }
        let rec = match read_displightmapsampleposition(reader) {
            Ok(x) => x,
            Err(e) => {
                return Err(attach_lump(e, 34));
            },
        };
        v.push(rec);
    }
    proof {
        lemma_rec_count_exact(start, end, 1, v@.len() as int);
    }
    Ok(v)
}


/// Decode the primitive lump (index 37): 10-byte records until the declared
/// length is consumed.
pub fn parse_primitives(reader: &mut Reader, info: &LumpInfo) -> (r: Result<Vec<Primitive>, DecodeError>)
    ensures
        final(reader).bytes == old(reader).bytes,
        ({
            let b = old(reader).bytes@;
            let start = info.file_offset as int;
            let end = info.file_offset + info.length;
            &&& (r is Ok <==> recs_fit(b, start, end, 10))
            &&& (r matches Ok(v) ==> {
                &&& v@.len() == rec_count(start, end, 10)
                &&& final(reader).index == start + v@.len() * 10
                &&& forall|j: int| 0 <= j < v@.len() ==> #[trigger] v@[j] == primitive_at(b, start + 10 * j)
            })
            &&& (r matches Err(e) ==> is_oob_in(e, 37))
        }),
{
    let ghost b = reader.bytes@;
    let ghost start = info.file_offset as int;
    let ghost end = info.file_offset as int + info.length as int;
    reader.seek(info.file_offset as usize);
    let end_pos: u64 = info.file_offset as u64 + info.length as u64;
    let mut v: Vec<Primitive> = Vec::new();
    while (reader.index as u64) < end_pos
        invariant
            reader.bytes == old(reader).bytes,
            b == old(reader).bytes@,
            start == info.file_offset as int,
            end == info.file_offset + info.length,
            end_pos == end,
            reader.index == start + 10 * v@.len(),
            v@.len() > 0 ==> start + 10 * (v@.len() - 1) < end,
            v@.len() > 0 ==> reader.index <= b.len(),
            forall|j: int| 0 <= j < v@.len() ==> #[trigger] v@[j] == primitive_at(b, start + 10 * j),
        decreases end + 10 - reader.index,
    {
        proof {
            lemma_rec_count_lower(start, end, 10, v@.len() as int);
        }
        let rec = match read_primitive(reader) {
            Ok(x) => x,
            Err(e) => {
                return Err(attach_lump(e, 37));
            },
        };
        v.push(rec);
    }
    proof {
        lemma_rec_count_exact(start, end, 10, v@.len() as int);
    }
    Ok(v)
}


/// Decode the primitive-vertex lump (index 38): 12-byte records until the declared
/// length is consumed.
pub fn parse_primverts(reader: &mut Reader, info: &LumpInfo) -> (r: Result<Vec<PrimVert>, DecodeError>)
    ensures
        final(reader).bytes == old(reader).bytes,
        ({
            let b = old(reader).bytes@;
            let start = info.file_offset as int;
            let end = info.file_offset + info.length;
            &&& (r is Ok <==> recs_fit(b, start, end, 12))
            &&& (r matches Ok(v) ==> {
                &&& v@.len() == rec_count(start, end, 12)
                &&& final(reader).index == start + v@.len() * 12
                &&& forall|j: int| 0 <= j < v@.len() ==> #[trigger] v@[j] == primvert_at(b, start + 12 * j)
            })
            &&& (r matches Err(e) ==> is_oob_in(e, 38))
        }),
{
    let ghost b = reader.bytes@;
    let ghost start = info.file_offset as int;
    let ghost end = info.file_offset as int + info.length as int;
    reader.seek(info.file_offset as usize);
    let end_pos: u64 = info.file_offset as u64 + info.length as u64;
    let mut v: Vec<PrimVert> = Vec::new();
    while (reader.index as u64) < end_pos
        invariant
            reader.bytes == old(reader).bytes,
            b == old(reader).bytes@,
            start == info.file_offset as int,
            end == info.file_offset + info.length,
            end_pos == end,
            reader.index == start + 12 * v@.len(),
            v@.len() > 0 ==> start + 12 * (v@.len() - 1) < end,
            v@.len() > 0 ==> reader.index <= b.len(),
            forall|j: int| 0 <= j < v@.len() ==> #[trigger] v@[j] == primvert_at(b, start + 12 * j),
        decreases end + 12 - reader.index,
    {
        proof {
            lemma_rec_count_lower(start, end, 12, v@.len() as int);
        }
        let rec = match read_primvert(reader) {
            Ok(x) => x,
            Err(e) => {
                return Err(attach_lump(e, 38));
            },
        };
        v.push(rec);
    }
    proof {
        lemma_rec_count_exact(start, end, 12, v@.len() as int);
    }
    Ok(v)
}


/// Decode the primitive-index lump (index 39): 2-byte records until the declared
/// length is consumed.
pub fn parse_primindices(reader: &mut Reader, info: &LumpInfo) -> (r: Result<Vec<PrimIndex>, DecodeError>)
    ensures
        final(reader).bytes == old(reader).bytes,
        ({
            let b = old(reader).bytes@;
            let start = info.file_offset as int;
            let end = info.file_offset + info.length;
            &&& (r is Ok <==> recs_fit(b, start, end, 2))
            &&& (r matches Ok(v) ==> {
                &&& v@.len() == rec_count(start, end, 2)
                &&& final(reader).index == start + v@.len() * 2
                &&& forall|j: int| 0 <= j < v@.len() ==> #[trigger] v@[j] == primindex_at(b, start + 2 * j)
            })
            &&& (r matches Err(e) ==> is_oob_in(e, 39))
        }),
{
    let ghost b = reader.bytes@;
    let ghost start = info.file_offset as int;
    let ghost end = info.file_offset as int + info.length as int;
    reader.seek(info.file_offset as usize);
    let end_pos: u64 = info.file_offset as u64 + info.length as u64;
    let mut v: Vec<PrimIndex> = Vec::new();
    while (reader.index as u64) < end_pos
        invariant
            reader.bytes == old(reader).bytes,
            b == old(reader).bytes@,
            start == info.file_offset as int,
            end == info.file_offset + info.length,
            end_pos == end,
            reader.index == start + 2 * v@.len(),
            v@.len() > 0 ==> start + 2 * (v@.len() - 1) < end,
            v@.len() > 0 ==> reader.index <= b.len(),
            forall|j: int| 0 <= j < v@.len() ==> #[trigger] v@[j] == primindex_at(b, start + 2 * j),
        decreases end + 2 - reader.index,
    {
        proof {
            lemma_rec_count_lower(start, end, 2, v@.len() as int);
        }
        let rec = match read_primindex(reader) {
            Ok(x) => x,
            Err(e) => {
                return Err(attach_lump(e, 39));
            },
        };
        v.push(rec);
    }
    proof {
        lemma_rec_count_exact(start, end, 2, v@.len() as int);
    }
    Ok(v)
}


/// Decode the clip-portal vertex lump (index 41): 12-byte records until the declared
/// length is consumed.
pub fn parse_clipportalverts(reader: &mut Reader, info: &LumpInfo) -> (r: Result<Vec<ClipPortalVert>, DecodeError>)
    ensures
        final(reader).bytes == old(reader).bytes,
        ({
            let b = old(reader).bytes@;
            let start = info.file_offset as int;
            let end = info.file_offset + info.length;
            &&& (r is Ok <==> recs_fit(b, start, end, 12))
            &&& (r matches Ok(v) ==> {
                &&& v@.len() == rec_count(start, end, 12)
                &&& final(reader).index == start + v@.len() * 12
                &&& forall|j: int| 0 <= j < v@.len() ==> #[trigger] v@[j] == clipportalvert_at(b, start + 12 * j)
            })
            &&& (r matches Err(e) ==> is_oob_in(e, 41))
        }),
{
    let ghost b = reader.bytes@;
    let ghost start = info.file_offset as int;
    let ghost end = info.file_offset as int + info.length as int;
    reader.seek(info.file_offset as usize);
    let end_pos: u64 = info.file_offset as u64 + info.length as u64;
    let mut v: Vec<ClipPortalVert> = Vec::new();
    while (reader.index as u64) < end_pos
        invariant
            reader.bytes == old(reader).bytes,
            b == old(reader).bytes@,
            start == info.file_offset as int,
            end == info.file_offset + info.length,
            end_pos == end,
            reader.index == start + 12 * v@.len(),
            v@.len() > 0 ==> start + 12 * (v@.len() - 1) < end,
            v@.len() > 0 ==> reader.index <= b.len(),
            forall|j: int| 0 <= j < v@.len() ==> #[trigger] v@[j] == clipportalvert_at(b, start + 12 * j),
        decreases end + 12 - reader.index,
    {
        proof {
            lemma_rec_count_lower(start, end, 12, v@.len() as int);
        }
        let rec = match read_clipportalvert(reader) {
            Ok(x) => x,
            Err(e) => {
                return Err(attach_lump(e, 41));
            },
        };
        v.push(rec);
    }
    proof {
        lemma_rec_count_exact(start, end, 12, v@.len() as int);
    }
    Ok(v)
}


/// Decode the cubemap-sample lump (index 42): 16-byte records until the declared
/// length is consumed.
pub fn parse_cubemaps(reader: &mut Reader, info: &LumpInfo) -> (r: Result<Vec<CubemapSample>, DecodeError>)
    ensures
        final(reader).bytes == old(reader).bytes,
        ({
            let b = old(reader).bytes@;
            let start = info.file_offset as int;
            let end = info.file_offset + info.length;
            &&& (r is Ok <==> recs_fit(b, start, end, 16))
            &&& (r matches Ok(v) ==> {
                &&& v@.len() == rec_count(start, end, 16)
                &&& final(reader).index == start + v@.len() * 16
                &&& forall|j: int| 0 <= j < v@.len() ==> cubemap_matches(b, start + 16 * j, #[trigger] v@[j])
            })
            &&& (r matches Err(e) ==> is_oob_in(e, 42))
        }),
{
    let ghost b = reader.bytes@;
    let ghost start = info.file_offset as int;
    let ghost end = info.file_offset as int + info.length as int;
    reader.seek(info.file_offset as usize);
    let end_pos: u64 = info.file_offset as u64 + info.length as u64;
    let mut v: Vec<CubemapSample> = Vec::new();
    while (reader.index as u64) < end_pos
        invariant
            reader.bytes == old(reader).bytes,
            b == old(reader).bytes@,
            start == info.file_offset as int,
            end == info.file_offset + info.length,
            end_pos == end,
            reader.index == start + 16 * v@.len(),
            v@.len() > 0 ==> start + 16 * (v@.len() - 1) < end,
            v@.len() > 0 ==> reader.index <= b.len(),
            forall|j: int| 0 <= j < v@.len() ==> cubemap_matches(b, start + 16 * j, #[trigger] v@[j]),
        decreases end + 16 - reader.index,
    {
        proof {
            lemma_rec_count_lower(start, end, 16, v@.len() as int);
        }
        let rec = match read_cubemapsample(reader) {
            Ok(x) => x,
            Err(e) => {
                return Err(attach_lump(e, 42));
            },
        };
        v.push(rec);
    }
    proof {
        lemma_rec_count_exact(start, end, 16, v@.len() as int);
    }
    Ok(v)
}


/// Decode the texture-string-table lump (index 44): 4-byte records until the declared
/// length is consumed.
pub fn parse_texdatastringtable(reader: &mut Reader, info: &LumpInfo) -> (r: Result<Vec<TexDataStringTable>, DecodeError>)
    ensures
        final(reader).bytes == old(reader).bytes,
        ({
            let b = old(reader).bytes@;
            let start = info.file_offset as int;
            let end = info.file_offset + info.length;
            &&& (r is Ok <==> recs_fit(b, start, end, 4))
            &&& (r matches Ok(v) ==> {
                &&& v@.len() == rec_count(start, end, 4)
                &&& final(reader).index == start + v@.len() * 4
                &&& forall|j: int| 0 <= j < v@.len() ==> #[trigger] v@[j] == texdatastringtable_at(b, start + 4 * j)
            })
            &&& (r matches Err(e) ==> is_oob_in(e, 44))
        }),
{
    let ghost b = reader.bytes@;
    let ghost start = info.file_offset as int;
    let ghost end = info.file_offset as int + info.length as int;
    reader.seek(info.file_offset as usize);
    let end_pos: u64 = info.file_offset as u64 + info.length as u64;
    let mut v: Vec<TexDataStringTable> = Vec::new();
    while (reader.index as u64) < end_pos
        invariant
            reader.bytes == old(reader).bytes,
            b == old(reader).bytes@,
            start == info.file_offset as int,
            end == info.file_offset + info.length,
            end_pos == end,
            reader.index == start + 4 * v@.len(),
            v@.len() > 0 ==> start + 4 * (v@.len() - 1) < end,
            v@.len() > 0 ==> reader.index <= b.len(),
            forall|j: int| 0 <= j < v@.len() ==> #[trigger] v@[j] == texdatastringtable_at(b, start + 4 * j),
        decreases end + 4 - reader.index,
    {
        proof {
            lemma_rec_count_lower(start, end, 4, v@.len() as int);
        }
        let rec = match read_texdatastringtable(reader) {
            Ok(x) => x,
            Err(e) => {
                return Err(attach_lump(e, 44));
            },
        };
        v.push(rec);
    }
    proof {
        lemma_rec_count_exact(start, end, 4, v@.len() as int);
    }
    Ok(v)
}


/// Decode the overlay lump (index 45): 352-byte records until the declared
/// length is consumed.
pub fn parse_overlays(reader: &mut Reader, info: &LumpInfo) -> (r: Result<Vec<Overlay>, DecodeError>)
    ensures
        final(reader).bytes == old(reader).bytes,
        ({
            let b = old(reader).bytes@;
            let start = info.file_offset as int;
            let end = info.file_offset + info.length;
            &&& (r is Ok <==> recs_fit(b, start, end, 352))
            &&& (r matches Ok(v) ==> {
                &&& v@.len() == rec_count(start, end, 352)
                &&& final(reader).index == start + v@.len() * 352
                &&& forall|j: int| 0 <= j < v@.len() ==> overlay_matches(b, start + 352 * j, #[trigger] v@[j])
            })
            &&& (r matches Err(e) ==> is_oob_in(e, 45))
        }),
{
    let ghost b = reader.bytes@;
    let ghost start = info.file_offset as int;
    let ghost end = info.file_offset as int + info.length as int;
    reader.seek(info.file_offset as usize);
    let end_pos: u64 = info.file_offset as u64 + info.length as u64;
    let mut v: Vec<Overlay> = Vec::new();
    while (reader.index as u64) < end_pos
        invariant
            reader.bytes == old(reader).bytes,
            b == old(reader).bytes@,
            start == info.file_offset as int,
            end == info.file_offset + info.length,
            end_pos == end,
            reader.index == start + 352 * v@.len(),
            v@.len() > 0 ==> start + 352 * (v@.len() - 1) < end,
            v@.len() > 0 ==> reader.index <= b.len(),
            forall|j: int| 0 <= j < v@.len() ==> overlay_matches(b, start + 352 * j, #[trigger] v@[j]),
        decreases end + 352 - reader.index,
    {
        proof {
            lemma_rec_count_lower(start, end, 352, v@.len() as int);
        }
        let rec = match read_overlay(reader) {
            Ok(x) => x,
            Err(e) => {
                return Err(attach_lump(e, 45));
            },
        };
        v.push(rec);
    }
    proof {
        lemma_rec_count_exact(start, end, 352, v@.len() as int);
    }
    Ok(v)
}


/// Decode the water-distance lump (index 46): 4-byte records until the declared
/// length is consumed.
pub fn parse_leafmindisttowater(reader: &mut Reader, info: &LumpInfo) -> (r: Result<Vec<LeafMinDistToWater>, DecodeError>)
    ensures
        final(reader).bytes == old(reader).bytes,
        ({
            let b = old(reader).bytes@;
            let start = info.file_offset as int;
            let end = info.file_offset + info.length;
            &&& (r is Ok <==> recs_fit(b, start, end, 4))
            &&& (r matches Ok(v) ==> {
                &&& v@.len() == rec_count(start, end, 4)
                &&& final(reader).index == start + v@.len() * 4
                &&& forall|j: int| 0 <= j < v@.len() ==> #[trigger] v@[j] == leafmindisttowater_at(b, start + 4 * j)
            })
            &&& (r matches Err(e) ==> is_oob_in(e, 46))
        }),
{
    let ghost b = reader.bytes@;
    let ghost start = info.file_offset as int;
    let ghost end = info.file_offset as int + info.length as int;
    reader.seek(info.file_offset as usize);
    let end_pos: u64 = info.file_offset as u64 + info.length as u64;
    let mut v: Vec<LeafMinDistToWater> = Vec::new();
    while (reader.index as u64) < end_pos
        invariant
            reader.bytes == old(reader).bytes,
            b == old(reader).bytes@,
            start == info.file_offset as int,
            end == info.file_offset + info.length,
            end_pos == end,
            reader.index == start + 4 * v@.len(),
            v@.len() > 0 ==> start + 4 * (v@.len() - 1) < end,
            v@.len() > 0 ==> reader.index <= b.len(),
            forall|j: int| 0 <= j < v@.len() ==> #[trigger] v@[j] == leafmindisttowater_at(b, start + 4 * j),
        decreases end + 4 - reader.index,
    {
        proof {
            lemma_rec_count_lower(start, end, 4, v@.len() as int);
        }
        let rec = match read_leafmindisttowater(reader) {
            Ok(x) => x,
            Err(e) => {
                return Err(attach_lump(e, 46));
            },
        };
        v.push(rec);
    }
    proof {
        lemma_rec_count_exact(start, end, 4, v@.len() as int);
    }
    Ok(v)
}


/// Decode the face-macro-texture lump (index 47): 4-byte records until the declared
/// length is consumed.
pub fn parse_facemacrotextureinfo(reader: &mut Reader, info: &LumpInfo) -> (r: Result<Vec<FaceMacroTextureInfo>, DecodeError>)
    ensures
        final(reader).bytes == old(reader).bytes,
        ({
            let b = old(reader).bytes@;
            let start = info.file_offset as int;
            let end = info.file_offset + info.length;
            &&& (r is Ok <==> recs_fit(b, start, end, 4))
            &&& (r matches Ok(v) ==> {
                &&& v@.len() == rec_count(start, end, 4)
                &&& final(reader).index == start + v@.len() * 4
                &&& forall|j: int| 0 <= j < v@.len() ==> #[trigger] v@[j] == facemacrotextureinfo_at(b, start + 4 * j)
            })
            &&& (r matches Err(e) ==> is_oob_in(e, 47))
        }),
{
    let ghost b = reader.bytes@;
    let ghost start = info.file_offset as int;
    let ghost end = info.file_offset as int + info.length as int;
    reader.seek(info.file_offset as usize);
    let end_pos: u64 = info.file_offset as u64 + info.length as u64;
    let mut v: Vec<FaceMacroTextureInfo> = Vec::new();
    while (reader.index as u64) < end_pos
        invariant
            reader.bytes == old(reader).bytes,
            b == old(reader).bytes@,
            start == info.file_offset as int,
            end == info.file_offset + info.length,
            end_pos == end,
            reader.index == start + 4 * v@.len(),
            v@.len() > 0 ==> start + 4 * (v@.len() - 1) < end,
            v@.len() > 0 ==> reader.index <= b.len(),
            forall|j: int| 0 <= j < v@.len() ==> #[trigger] v@[j] == facemacrotextureinfo_at(b, start + 4 * j),
        decreases end + 4 - reader.index,
    {
        proof {
            lemma_rec_count_lower(start, end, 4, v@.len() as int);
        }
        let rec = match read_facemacrotextureinfo(reader) {
            Ok(x) => x,
            Err(e) => {
                return Err(attach_lump(e, 47));
            },
        };
        v.push(rec);
    }
    proof {
        lemma_rec_count_exact(start, end, 4, v@.len() as int);
    }
    Ok(v)
}


/// Decode the displacement-triangle lump (index 48): one 16-bit flag field
/// per record, masked to the defined flag bits.
pub fn parse_disptris(reader: &mut Reader, info: &LumpInfo) -> (r: Result<
    Vec<DispTriFlags>,
    DecodeError,
>)
    ensures
        final(reader).bytes == old(reader).bytes,
        ({
            let b = old(reader).bytes@;
            let start = info.file_offset as int;
            let end = info.file_offset + info.length;
            &&& (r is Ok <==> recs_fit(b, start, end, 2))
            &&& (r matches Ok(v) ==> {
                &&& v@.len() == rec_count(start, end, 2)
                &&& final(reader).index == start + v@.len() * 2
                &&& forall|j: int|
                    0 <= j < v@.len() ==> #[trigger] v@[j] == spec_disp_tri_from_bits(
                        le_u16(b, start + 2 * j),
                    )
            })
            &&& (r matches Err(e) ==> is_oob_in(e, 48))
        }),
{
    let ghost b = reader.bytes@;
    let ghost start = info.file_offset as int;
    let ghost end = info.file_offset as int + info.length as int;
    reader.seek(info.file_offset as usize);
    let end_pos: u64 = info.file_offset as u64 + info.length as u64;
    let mut v: Vec<DispTriFlags> = Vec::new();
    while (reader.index as u64) < end_pos
        invariant
            reader.bytes == old(reader).bytes,
            b == old(reader).bytes@,
            start == info.file_offset as int,
            end == info.file_offset + info.length,
            end_pos == end,
            reader.index == start + 2 * v@.len(),
            v@.len() > 0 ==> start + 2 * (v@.len() - 1) < end,
            v@.len() > 0 ==> reader.index <= b.len(),
            forall|j: int|
                0 <= j < v@.len() ==> #[trigger] v@[j] == spec_disp_tri_from_bits(
                    le_u16(b, start + 2 * j),
                ),
        decreases end + 2 - reader.index,
    {
        proof {
            lemma_rec_count_lower(start, end, 2, v@.len() as int);
        }
        let raw = match reader.read_ushort() {
            Ok(x) => x,
            Err(e) => {
                return Err(attach_lump(e, 48));
            },
        };
        v.push(DispTriFlags::from_bits_truncate(raw));
    }
    proof {
        lemma_rec_count_exact(start, end, 2, v@.len() as int);
    }
    Ok(v)
}

/// Decode the leaf lump (index 10): records whose width depends on the
/// lump's own directory version, base fields plus ambient lighting for
/// version 0.
pub fn parse_leaves(reader: &mut Reader, info: &LumpInfo) -> (r: Result<Vec<Leaf>, DecodeError>)
    ensures
        final(reader).bytes == old(reader).bytes,
        ({
            let b = old(reader).bytes@;
            let start = info.file_offset as int;
            let end = info.file_offset + info.length;
            let w = leaf_width(info.version);
            &&& (r is Ok <==> recs_fit(b, start, end, w))
            &&& (r matches Ok(v) ==> {
                &&& v@.len() == rec_count(start, end, w)
                &&& final(reader).index == start + v@.len() * w
                &&& forall|j: int|
                    0 <= j < v@.len() ==> leaf_matches(b, start + w * j, info.version, #[trigger] v@[j])
            })
            &&& (r matches Err(e) ==> is_oob_in(e, 10))
        }),
{
    let ghost b = reader.bytes@;
    let ghost start = info.file_offset as int;
    let ghost end = info.file_offset as int + info.length as int;
    let w: usize = if info.version == 0 {
        56
    } else {
        32
    };
    assert(w == leaf_width(info.version));
    reader.seek(info.file_offset as usize);
    let end_pos: u64 = info.file_offset as u64 + info.length as u64;
    let mut v: Vec<Leaf> = Vec::new();
    while (reader.index as u64) < end_pos
        invariant
            reader.bytes == old(reader).bytes,
            b == old(reader).bytes@,
            start == info.file_offset as int,
            end == info.file_offset + info.length,
            end_pos == end,
            w == leaf_width(info.version),
            reader.index == start + w * v@.len(),
            v@.len() > 0 ==> start + w * (v@.len() - 1) < end,
            v@.len() > 0 ==> reader.index <= b.len(),
            forall|j: int|
                0 <= j < v@.len() ==> leaf_matches(b, start + w * j, info.version, #[trigger] v@[j]),
        decreases end + w - reader.index,
    {
        proof {
            lemma_rec_count_lower(start, end, w as int, v@.len() as int);
        }
        let rec = match read_leaf(reader, info.version) {
            Ok(x) => x,
            Err(e) => {
                return Err(attach_lump(e, 10));
            },
        };
        v.push(rec);
    }
    proof {
        lemma_rec_count_exact(start, end, w as int, v@.len() as int);
    }
    Ok(v)
}

/// A leaf lump declaring exactly `n` whole records at the right version
/// decodes to exactly `n` records and consumes exactly the declared length,
/// with no leftover bytes.
pub proof fn lemma_leaf_exact_fit(start: int, length: int, version: u32, n: int)
    requires
        n >= 0,
        start >= 0,
        length == n * leaf_width(version),
    ensures
        rec_count(start, start + length, leaf_width(version)) == n,
        start + rec_count(start, start + length, leaf_width(version)) * leaf_width(version)
            == start + length,
{
    let w = leaf_width(version);
    if n > 0 {
        assert(start + w * (n - 1) < start + length) by (nonlinear_arith)
            requires
                length == n * w,
                w > 0,
                n > 0,
        ;
    }
    assert(start + length <= start + w * n) by (nonlinear_arith)
        requires
            length == n * w,
    ;
    lemma_rec_count_exact(start, start + length, w, n);
    assert(rec_count(start, start + length, w) * w == length) by (nonlinear_arith)
        requires
            rec_count(start, start + length, w) == n,
            length == n * w,
    ;
}

/// Decode the embedded-archive lump (index 40): the whole declared region as
/// one opaque byte payload.
pub fn parse_pakfile(reader: &mut Reader, info: &LumpInfo) -> (r: Result<PakFile, DecodeError>)
    ensures
        final(reader).bytes == old(reader).bytes,
        ({
            let b = old(reader).bytes@;
            let start = info.file_offset as int;
            &&& (r is Ok <==> start + info.length <= b.len())
            &&& (r matches Ok(p) ==> p.bytes@ == b.subrange(start, start + info.length)
                && final(reader).index == start + info.length)
            &&& (r matches Err(e) ==> is_oob_in(e, 40))
        }),
{
    reader.seek(info.file_offset as usize);
    let bytes = match reader.read_bytes(info.length as usize) {
        Ok(x) => x,
        Err(e) => {
            return Err(attach_lump(e, 40));
        },
    };
    Ok(PakFile { bytes })
}

/// A count field as the number of records it demands: negative counts demand
/// none.
pub open spec fn cnt_of(n: i32) -> int {
    if n <= 0 {
        0
    } else {
        n as int
    }
}

/// Position of the occluder polygon-count field: after the occluder table.
pub open spec fn occl_p2(b: Seq<u8>, start: int) -> int {
    start + 4 + 40 * cnt_of(le_i32(b, start))
}

/// Position of the occluder vertex-index-count field: after the polygon
/// table.
pub open spec fn occl_p3(b: Seq<u8>, start: int) -> int {
    occl_p2(b, start) + 4 + 12 * cnt_of(le_i32(b, occl_p2(b, start)))
}

/// Position just after the occlusion lump's last vertex index.
pub open spec fn occl_end(b: Seq<u8>, start: int) -> int {
    occl_p3(b, start) + 4 + 4 * cnt_of(le_i32(b, occl_p3(b, start)))
}

/// The whole occlusion lump lies inside the buffer: all three count fields
/// and their tables.
pub open spec fn occlusion_ok(b: Seq<u8>, start: int) -> bool {
    &&& start + 4 <= b.len()
    &&& occl_p2(b, start) <= b.len()
    &&& occl_p2(b, start) + 4 <= b.len()
    &&& occl_p3(b, start) <= b.len()
    &&& occl_p3(b, start) + 4 <= b.len()
    &&& occl_end(b, start) <= b.len()
}

/// `o` is the occlusion lump stored at `start` of `b`: three count-prefixed
/// tables.
pub open spec fn occluder_matches(b: Seq<u8>, start: int, o: Occluder) -> bool {
    let c1 = cnt_of(le_i32(b, start));
    let p2 = occl_p2(b, start);
    let c2 = cnt_of(le_i32(b, p2));
    let p3 = occl_p3(b, start);
    let c3 = cnt_of(le_i32(b, p3));
    &&& o.count == le_i32(b, start)
    &&& o.data@.len() == c1
    &&& forall|i: int|
        0 <= i < c1 ==> #[trigger] o.data@[i] == occluder_data_at(b, start + 4 + 40 * i)
    &&& o.poly_data_count == le_i32(b, p2)
    &&& o.poly_data@.len() == c2
    &&& forall|i: int|
        0 <= i < c2 ==> #[trigger] o.poly_data@[i] == occluder_poly_data_at(b, p2 + 4 + 12 * i)
    &&& o.vertex_index_count == le_i32(b, p3)
    &&& o.vertex_indices@.len() == c3
    &&& forall|i: int| 0 <= i < c3 ==> #[trigger] o.vertex_indices@[i] == le_i32(b, p3 + 4 + 4 * i)
}

/// Decode the occlusion lump (index 9): a count-prefixed occluder table, a
/// count-prefixed polygon table and a count-prefixed vertex-index table.
pub fn parse_occlusion(reader: &mut Reader, info: &LumpInfo) -> (r: Result<Occluder, DecodeError>)
    ensures
        final(reader).bytes == old(reader).bytes,
        ({
            let b = old(reader).bytes@;
            let start = info.file_offset as int;
            &&& (r is Ok <==> occlusion_ok(b, start))
            &&& (r matches Ok(o) ==> occluder_matches(b, start, o) && final(reader).index
                == occl_end(b, start))
            &&& (r matches Err(e) ==> is_oob_in(e, 9))
        }),
{
    let ghost b = reader.bytes@;
    let ghost start = info.file_offset as int;
    reader.seek(info.file_offset as usize);
    let count = match reader.read_int() {
        Ok(x) => x,
        Err(e) => {
            return Err(attach_lump(e, 9));
        },
    };
    let c1: usize = if count <= 0 {
        0
    } else {
        count as usize
    };
    let mut data: Vec<OccluderData> = Vec::new();
    let mut i: usize = 0;
    while i < c1
        invariant
            reader.bytes == old(reader).bytes,
            b == old(reader).bytes@,
            start == info.file_offset as int,
            i <= c1,
            c1 == cnt_of(le_i32(b, start)),
            data@.len() == i,
            reader.index == start + 4 + 40 * i,
            start + 4 <= b.len(),
            i > 0 ==> reader.index <= b.len(),
            forall|j: int|
                0 <= j < i ==> #[trigger] data@[j] == occluder_data_at(b, start + 4 + 40 * j),
        decreases c1 - i,
    {
        let rec = match read_occluderdata(reader) {
            Ok(x) => x,
            Err(e) => {
                assert(40 * (i + 1) <= 40 * c1) by (nonlinear_arith)
                    requires
                        i + 1 <= c1,
                ;
                return Err(attach_lump(e, 9));
            },
        };
        data.push(rec);
        i = i + 1;
    }
    assert(40 * i <= 40 * c1) by (nonlinear_arith)
        requires
            i <= c1,
    ;
    let poly_data_count = match reader.read_int() {
        Ok(x) => x,
        Err(e) => {
            return Err(attach_lump(e, 9));
        },
    };
    let c2: usize = if poly_data_count <= 0 {
        0
    } else {
        poly_data_count as usize
    };
    let ghost p2 = occl_p2(b, start);
    let mut poly_data: Vec<OccluderPolyData> = Vec::new();
    let mut i2: usize = 0;
    while i2 < c2
        invariant
            reader.bytes == old(reader).bytes,
            b == old(reader).bytes@,
            start == info.file_offset as int,
            i2 <= c2,
            p2 == occl_p2(b, start),
            c2 == cnt_of(le_i32(b, p2)),
            poly_data@.len() == i2,
            reader.index == p2 + 4 + 12 * i2,
            start + 4 <= b.len(),
            p2 + 4 <= b.len(),
            occl_p2(b, start) <= b.len(),
            i2 > 0 ==> reader.index <= b.len(),
            forall|j: int|
                0 <= j < i2 ==> #[trigger] poly_data@[j] == occluder_poly_data_at(
                    b,
                    p2 + 4 + 12 * j,
                ),
        decreases c2 - i2,
    {
        let rec = match read_occluderpolydata(reader) {
            Ok(x) => x,
            Err(e) => {
                assert(12 * (i2 + 1) <= 12 * c2) by (nonlinear_arith)
                    requires
                        i2 + 1 <= c2,
                ;
                return Err(attach_lump(e, 9));
            },
        };
        poly_data.push(rec);
        i2 = i2 + 1;
    }
    assert(12 * i2 <= 12 * c2) by (nonlinear_arith)
        requires
            i2 <= c2,
    ;
    let vertex_index_count = match reader.read_int() {
        Ok(x) => x,
        Err(e) => {
            return Err(attach_lump(e, 9));
        },
    };
    let c3: usize = if vertex_index_count <= 0 {
        0
    } else {
        vertex_index_count as usize
    };
    let ghost p3 = occl_p3(b, start);
    let mut vertex_indices: Vec<i32> = Vec::new();
    let mut i3: usize = 0;
    while i3 < c3
        invariant
            reader.bytes == old(reader).bytes,
            b == old(reader).bytes@,
            start == info.file_offset as int,
            i3 <= c3,
            p3 == occl_p3(b, start),
            c3 == cnt_of(le_i32(b, p3)),
            vertex_indices@.len() == i3,
            reader.index == p3 + 4 + 4 * i3,
            occlusion_ok(b, start) || c3 > 0,
            start + 4 <= b.len(),
            occl_p2(b, start) <= b.len(),
            occl_p2(b, start) + 4 <= b.len(),
            occl_p3(b, start) <= b.len(),
            p3 + 4 <= b.len(),
            i3 > 0 ==> reader.index <= b.len(),
            forall|j: int|
                0 <= j < i3 ==> #[trigger] vertex_indices@[j] == le_i32(b, p3 + 4 + 4 * j),
        decreases c3 - i3,
    {
        let rec = match reader.read_int() {
            Ok(x) => x,
            Err(e) => {
                assert(4 * (i3 + 1) <= 4 * c3) by (nonlinear_arith)
                    requires
                        i3 + 1 <= c3,
                ;
                return Err(attach_lump(e, 9));
            },
        };
        vertex_indices.push(rec);
        i3 = i3 + 1;
    }
    assert(4 * i3 <= 4 * c3) by (nonlinear_arith)
        requires
            i3 <= c3,
    ;
    Ok(
        Occluder {
            count,
            data,
            poly_data_count,
            poly_data,
            vertex_index_count,
            vertex_indices,
        },
    )
}

/// The cluster count of a visibility lump stored at `start`.
pub open spec fn vis_cnt(b: Seq<u8>, start: int) -> int {
    cnt_of(le_i32(b, start))
}

/// The potential-visible-set byte offset of cluster `i`, relative to the
/// lump start.
pub open spec fn vis_pvs(b: Seq<u8>, start: int, i: int) -> int {
    le_i32(b, start + 4 + 8 * i) as int
}

/// The potential-audible-set byte offset of cluster `i`, relative to the
/// lump start.
pub open spec fn vis_pas(b: Seq<u8>, start: int, i: int) -> int {
    le_i32(b, start + 8 + 8 * i) as int
}

/// Cluster `i` of the visibility lump decodes: its offset pair is inside the
/// buffer, both absolute offsets are representable positions, and both
/// compressed runs decompress.
pub open spec fn vis_entry_ok(b: Seq<u8>, start: int, i: int) -> bool {
    &&& start + 12 + 8 * i <= b.len()
    &&& 0 <= start + vis_pvs(b, start, i) <= usize::MAX
    &&& 0 <= start + vis_pas(b, start, i) <= usize::MAX
    &&& spec_decompress_vis(b, start + vis_pvs(b, start, i), vis_cnt(b, start)) is Some
    &&& spec_decompress_vis(b, start + vis_pas(b, start, i), vis_cnt(b, start)) is Some
}

/// The whole visibility lump decodes.
pub open spec fn vis_ok(b: Seq<u8>, start: int) -> bool {
    &&& start + 4 <= b.len()
    &&& forall|i: int| 0 <= i < vis_cnt(b, start) ==> vis_entry_ok(b, start, i)
}

/// `v` is the decoded visibility lump stored at `start` of `b`: the stored
/// offset pairs and, for every cluster, the decompressed visible and audible
/// sets.
pub open spec fn vis_matches(b: Seq<u8>, start: int, v: Vis) -> bool {
    let n = vis_cnt(b, start);
    &&& v.num_clusters == le_i32(b, start)
    &&& v.byte_offsets@.len() == n
    &&& forall|i: int|
        0 <= i < n ==> {
            &&& (#[trigger] v.byte_offsets@[i])@.len() == 2
            &&& v.byte_offsets@[i]@[0] == le_i32(b, start + 4 + 8 * i)
            &&& v.byte_offsets@[i]@[1] == le_i32(b, start + 8 + 8 * i)
        }
    &&& v.cluster_data@.len() == 2
    &&& v.cluster_data@[0]@.len() == n
    &&& v.cluster_data@[1]@.len() == n
    &&& forall|i: int|
        0 <= i < n ==> (#[trigger] v.cluster_data@[0]@[i])@ == spec_decompress_vis(
            b,
            start + vis_pvs(b, start, i),
            n,
        )->Some_0.0
    &&& forall|i: int|
        0 <= i < n ==> (#[trigger] v.cluster_data@[1]@[i])@ == spec_decompress_vis(
            b,
            start + vis_pas(b, start, i),
            n,
        )->Some_0.0
}

/// Decode the visibility lump (index 4): a cluster count, one offset pair
/// per cluster, and the decompressed visible and audible sets of every
/// cluster.
pub fn parse_visibility(reader: &mut Reader, info: &LumpInfo) -> (r: Result<Vis, DecodeError>)
    ensures
        final(reader).bytes == old(reader).bytes,
        ({
            let b = old(reader).bytes@;
            let start = info.file_offset as int;
            &&& (r is Ok <==> vis_ok(b, start))
            &&& (r matches Ok(v) ==> vis_matches(b, start, v) && final(reader).index == start + 4
                + 8 * vis_cnt(b, start))
            &&& (r matches Err(e) ==> is_oob_in(e, 4))
        }),
{
    let ghost b = reader.bytes@;
    let ghost start = info.file_offset as int;
    reader.seek(info.file_offset as usize);
    let num_clusters = match reader.read_int() {
        Ok(x) => x,
        Err(e) => {
            return Err(attach_lump(e, 4));
        },
    };
    let n: usize = if num_clusters <= 0 {
        0
    } else {
        num_clusters as usize
    };
    let mut byte_offsets: Vec<[i32; 2]> = Vec::new();
    let mut pvs_data: Vec<Vec<bool>> = Vec::new();
    let mut pas_data: Vec<Vec<bool>> = Vec::new();
    let mut i: usize = 0;
    while i < n
        invariant
            reader.bytes == old(reader).bytes,
            b == old(reader).bytes@,
            start == info.file_offset as int,
            i <= n,
            n == vis_cnt(b, start),
            num_clusters == le_i32(b, start),
            start + 4 <= b.len(),
            byte_offsets@.len() == i,
            pvs_data@.len() == i,
            pas_data@.len() == i,
            reader.index == start + 4 + 8 * i,
            forall|k: int| 0 <= k < i ==> vis_entry_ok(b, start, k),
            forall|k: int|
                0 <= k < i ==> {
                    &&& (#[trigger] byte_offsets@[k])@.len() == 2
                    &&& byte_offsets@[k]@[0] == le_i32(b, start + 4 + 8 * k)
                    &&& byte_offsets@[k]@[1] == le_i32(b, start + 8 + 8 * k)
                },
            forall|k: int|
                0 <= k < i ==> (#[trigger] pvs_data@[k])@ == spec_decompress_vis(
                    b,
                    start + vis_pvs(b, start, k),
                    n as int,
                )->Some_0.0,
            forall|k: int|
                0 <= k < i ==> (#[trigger] pas_data@[k])@ == spec_decompress_vis(
                    b,
                    start + vis_pas(b, start, k),
                    n as int,
                )->Some_0.0,
        decreases n - i,
    {
        let pvs_ofs = match reader.read_int() {
            Ok(x) => x,
            Err(e) => {
                proof {
                    assert(!vis_entry_ok(b, start, i as int));
                    assert(!vis_ok(b, start));
                }
                return Err(attach_lump(e, 4));
            },
        };
        let pas_ofs = match reader.read_int() {
            Ok(x) => x,
            Err(e) => {
                proof {
                    assert(!vis_entry_ok(b, start, i as int));
                    assert(!vis_ok(b, start));
                }
                return Err(attach_lump(e, 4));
            },
        };
        let abs_pvs: i64 = info.file_offset as i64 + pvs_ofs as i64;
        let abs_pas: i64 = info.file_offset as i64 + pas_ofs as i64;
        if abs_pvs < 0 || (abs_pvs as u64) > (usize::MAX as u64) {
            proof {
                assert(!vis_entry_ok(b, start, i as int));
                assert(!vis_ok(b, start));
            }
            return Err(
                DecodeError::OutOfBounds { lump: 4, position: reader.index, wanted: 1 },
            );
        }
        if abs_pas < 0 || (abs_pas as u64) > (usize::MAX as u64) {
            proof {
                assert(!vis_entry_ok(b, start, i as int));
                assert(!vis_ok(b, start));
            }
            return Err(
                DecodeError::OutOfBounds { lump: 4, position: reader.index, wanted: 1 },
            );
        }
        let pvs_bits = match crate::specific::vis::decompress_vis(
            &reader.bytes,
            abs_pvs as usize,
            n,
        ) {
            Ok(x) => x.0,
            Err(e) => {
                proof {
                    assert(spec_decompress_vis(b, start + vis_pvs(b, start, i as int), n as int)
                        is None);
                    assert(!vis_entry_ok(b, start, i as int));
                    assert(!vis_ok(b, start));
                }
                return Err(attach_lump(e, 4));
            },
        };
        let pas_bits = match crate::specific::vis::decompress_vis(
            &reader.bytes,
            abs_pas as usize,
            n,
        ) {
            Ok(x) => x.0,
            Err(e) => {
                proof {
                    assert(spec_decompress_vis(b, start + vis_pas(b, start, i as int), n as int)
                        is None);
                    assert(!vis_entry_ok(b, start, i as int));
                    assert(!vis_ok(b, start));
                }
                return Err(attach_lump(e, 4));
            },
        };
        pvs_data.push(pvs_bits);
        pas_data.push(pas_bits);
        byte_offsets.push([pvs_ofs, pas_ofs]);
        i = i + 1;
    }
    Ok(Vis { num_clusters, byte_offsets, cluster_data: [pvs_data, pas_data] })
}

/// The texture-string-data lump parsed from `pos` to `end`: each record is a
/// null-terminated UTF-8 text run whose terminator is consumed, given as the
/// record's start position and its raw bytes.  `None` when a run has no
/// terminator inside the buffer or is not valid UTF-8.
pub open spec fn tdsd_parse(b: Seq<u8>, pos: int, end: int) -> Option<Seq<(int, Seq<u8>)>>
    decreases b.len() + 1 - pos,
        via tdsd_parse_decreases
{
    if pos >= end {
        Some(Seq::empty())
    } else {
        let nn = find_null(b, pos);
        if nn >= b.len() {
            None
        } else if !valid_utf8(b.subrange(pos, nn)) {
            None
        } else {
            match tdsd_parse(b, nn + 1, end) {
                Option::None => None,
                Option::Some(rest) => Some(seq![(pos, b.subrange(pos, nn))] + rest),
            }
        }
    }
}

#[via_fn]
proof fn tdsd_parse_decreases(b: Seq<u8>, pos: int, end: int) {
    if 0 <= pos <= b.len() {
        lemma_find_null_bounds(b, pos);
    }
}

/// `v` holds the decoded strings of the runs in `recs`, each with its byte
/// offset relative to `start`.
pub open spec fn tdsd_matches(recs: Seq<(int, Seq<u8>)>, start: int, v: Seq<TexDataStringData>)
    -> bool {
    &&& v.len() == recs.len()
    &&& forall|i: int|
        0 <= i < recs.len() ==> {
            &&& (#[trigger] v[i]).offset == recs[i].0 - start
            &&& v[i].val@ == decode_utf8(recs[i].1)
        }
}

/// Decode the texture-string-data lump (index 43): null-terminated text runs
/// until the declared length is consumed, each stored with its offset from
/// the start of the lump so that texture-string-table entries can be matched
/// against it.
pub fn parse_texdatastringdata(reader: &mut Reader, info: &LumpInfo) -> (r: Result<
    Vec<TexDataStringData>,
    DecodeError,
>)
    ensures
        final(reader).bytes == old(reader).bytes,
        ({
            let b = old(reader).bytes@;
            let start = info.file_offset as int;
            let end = info.file_offset + info.length;
            &&& (r is Ok <==> tdsd_parse(b, start, end) is Some)
            &&& (r matches Ok(v) ==> tdsd_matches(tdsd_parse(b, start, end)->Some_0, start, v@))
            &&& (r matches Err(e) ==> (e matches DecodeError::OutOfBounds {
                lump,
                position: _,
                wanted: _,
            } && lump == 43) || (e matches DecodeError::MalformedText { lump, position: _ }
                && lump == 43))
        }),
{
    let ghost b = reader.bytes@;
    let ghost start = info.file_offset as int;
    let ghost end = info.file_offset as int + info.length as int;
    reader.seek(info.file_offset as usize);
    let end_pos: u64 = info.file_offset as u64 + info.length as u64;
    let mut v: Vec<TexDataStringData> = Vec::new();
    let ghost mut gacc: Seq<(int, Seq<u8>)> = Seq::empty();
    while (reader.index as u64) < end_pos
        invariant
            reader.bytes == old(reader).bytes,
            b == old(reader).bytes@,
            start == info.file_offset as int,
            end == info.file_offset + info.length,
            end_pos == end,
            reader.index >= start,
            tdsd_parse(b, start, end) is Some <==> tdsd_parse(b, reader.index as int, end)
                is Some,
            tdsd_parse(b, start, end) matches Some(full) ==> tdsd_parse(
                b,
                reader.index as int,
                end,
            ) matches Some(rest) && full == gacc + rest,
            tdsd_matches(gacc, start, v@),
        decreases b.len() + end + 2 - reader.index,
    {
        let pos = reader.index;
        let s = match reader.read_string() {
            Ok(x) => x,
            Err(e) => {
                proof {
                    assert(tdsd_parse(b, pos as int, end) is None);
                }
                return Err(attach_lump(e, 43));
            },
        };
        let ghost nn = find_null(b, pos as int);
        proof {
            if pos as int > b.len() {
                assert(find_null(b, pos as int) == b.len());
                assert(false);
            }
            lemma_find_null_bounds(b, pos as int);
        }
        let offset = pos - info.file_offset as usize;
        v.push(TexDataStringData { val: s, offset });
        let blen = reader.bytes.len();
        assert(reader.index < blen);
        reader.skip(1);
        proof {
            let cur = (pos as int, b.subrange(pos as int, nn));
            assert(tdsd_parse(b, pos as int, end) matches Some(full) ==> full == seq![cur]
                + tdsd_parse(b, nn + 1, end)->Some_0);
            gacc = gacc.push(cur);
            if tdsd_parse(b, start, end) is Some {
                assert(tdsd_parse(b, start, end)->Some_0 =~= gacc + tdsd_parse(
                    b,
                    reader.index as int,
                    end,
                )->Some_0);
            }
        }
    }
    Ok(v)
}

/// How far the position still is from `end`, nothing once past it.
pub open spec fn remaining(end: int, pos: int) -> int {
    if pos > end {
        0
    } else {
        end - pos
    }
}

/// `e` reports a failure (out-of-bounds or malformed text) inside lump
/// `lump`.
pub open spec fn err_in(e: DecodeError, lump: u8) -> bool {
    match e {
        DecodeError::OutOfBounds { lump: l, position: _, wanted: _ } => l == lump,
        DecodeError::MalformedText { lump: l, position: _ } => l == lump,
        _ => false,
    }
}

/// The `count` collision-data sections read from position `pos` on: each a
/// shared header, the sub-header its model type selects (the compact shape
/// for type 0, the minimal shape otherwise), and an opaque payload of the
/// declared size.  Returns the sections and the position after them; `None`
/// when the buffer runs out.
pub open spec fn solids_parse(b: Seq<u8>, pos: int, count: int) -> Option<
    (Seq<(CollideHeader, ModelHeaders, Seq<u8>)>, int),
>
    decreases count,
{
    if count <= 0 {
        Some((Seq::empty(), pos))
    } else if pos < 0 || pos + 12 > b.len() {
        None
    } else {
        let h = collide_header_at(b, pos);
        if h.model_type == 0 {
            if pos + 32 > b.len() {
                None
            } else {
                let sh = compact_surface_header_at(b, pos + 12);
                let sz = (sh.surface_size as usize) as int;
                if pos + 32 + sz > b.len() {
                    None
                } else {
                    match solids_parse(b, pos + 32 + sz, count - 1) {
                        Option::None => None,
                        Option::Some((rest, fin)) => Some(
                            (
                                seq![
                                    (
                                        h,
                                        ModelHeaders::CompactSurfaceHeader(sh),
                                        b.subrange(pos + 32, pos + 32 + sz),
                                    ),
                                ] + rest,
                                fin,
                            ),
                        ),
                    }
                }
            }
        } else {
            if pos + 16 > b.len() {
                None
            } else {
                let mh = MoppSurfaceHeader { size: le_i32(b, pos + 12) };
                let sz = (mh.size as usize) as int;
                if pos + 16 + sz > b.len() {
                    None
                } else {
                    match solids_parse(b, pos + 16 + sz, count - 1) {
                        Option::None => None,
                        Option::Some((rest, fin)) => Some(
                            (
                                seq![
                                    (
                                        h,
                                        ModelHeaders::MoppSurfaceHeader(mh),
                                        b.subrange(pos + 16, pos + 16 + sz),
                                    ),
                                ] + rest,
                                fin,
                            ),
                        ),
                    }
                }
            }
        }
    }
}

/// Parsing collision sections never moves the position backwards.
pub proof fn lemma_solids_parse_pos(b: Seq<u8>, pos: int, count: int)
    requires
        solids_parse(b, pos, count) is Some,
    ensures
        solids_parse(b, pos, count)->Some_0.1 >= pos,
    decreases count,
{
    if count <= 0 {
    } else {
        let h = collide_header_at(b, pos);
        if h.model_type == 0 {
            let sh = compact_surface_header_at(b, pos + 12);
            let sz = (sh.surface_size as usize) as int;
            lemma_solids_parse_pos(b, pos + 32 + sz, count - 1);
        } else {
            let mh = MoppSurfaceHeader { size: le_i32(b, pos + 12) };
            let sz = (mh.size as usize) as int;
            lemma_solids_parse_pos(b, pos + 16 + sz, count - 1);
        }
    }
}

/// The four header fields of a physics model lie inside the buffer.
pub open spec fn model_header_ok(b: Seq<u8>, pos: int) -> bool {
    0 <= pos && pos + 16 <= b.len()
}

/// The collision sections of the model whose header stands at `pos`.
pub open spec fn model_solids(b: Seq<u8>, pos: int) -> Option<
    (Seq<(CollideHeader, ModelHeaders, Seq<u8>)>, int),
> {
    solids_parse(b, pos + 16, cnt_of(le_i32(b, pos + 12)))
}

/// The declared key-data size of the model whose header stands at `pos`,
/// converted exactly as the byte-count conversion converts it.
pub open spec fn model_ksz(b: Seq<u8>, pos: int) -> int {
    (le_i32(b, pos + 8) as usize) as int
}

/// The whole non-sentinel model whose header stands at `pos` decodes: its
/// collision sections fit, and its key-value block fits and parses.
pub open spec fn model_ok(b: Seq<u8>, pos: int) -> bool {
    &&& model_header_ok(b, pos)
    &&& (le_i32(b, pos) != -1 ==> {
        &&& model_solids(b, pos) is Some
        &&& model_solids(b, pos)->Some_0.1 + model_ksz(b, pos) <= b.len()
        &&& kd_parse(model_kbytes(b, pos), 0) is Some
    })
}

/// The key-value block bytes of the model whose header stands at `pos`.
pub open spec fn model_kbytes(b: Seq<u8>, pos: int) -> Seq<u8> {
    b.subrange(
        model_solids(b, pos)->Some_0.1,
        model_solids(b, pos)->Some_0.1 + model_ksz(b, pos),
    )
}

/// The position just after the model whose header stands at `pos`.
pub open spec fn model_end(b: Seq<u8>, pos: int) -> int {
    model_solids(b, pos)->Some_0.1 + model_ksz(b, pos)
}

/// The decoded model whose header stands at `pos`.
pub open spec fn model_spec(b: Seq<u8>, pos: int) -> (
    i32,
    i32,
    i32,
    i32,
    Seq<(CollideHeader, ModelHeaders, Seq<u8>)>,
    Seq<(Seq<char>, Seq<(Seq<char>, Seq<char>)>)>,
) {
    (
        le_i32(b, pos),
        le_i32(b, pos + 4),
        le_i32(b, pos + 8),
        le_i32(b, pos + 12),
        model_solids(b, pos)->Some_0.0,
        kd_parse(model_kbytes(b, pos), 0)->Some_0,
    )
}

/// The physics models read between `pos` and `end`: each model is its four
/// header fields, its collision sections and its decoded key-value block.  A
/// model index of -1 is the sentinel: it ends the lump at once, consuming
/// only the four header fields, and is not stored.  Returns the models and
/// the final position; `None` when the buffer runs out or a key-value block
/// is malformed.
pub open spec fn phys_parse(b: Seq<u8>, pos: int, end: int) -> Option<
    (
        Seq<
            (
                i32,
                i32,
                i32,
                i32,
                Seq<(CollideHeader, ModelHeaders, Seq<u8>)>,
                Seq<(Seq<char>, Seq<(Seq<char>, Seq<char>)>)>,
            ),
        >,
        int,
    ),
>
    decreases end - pos,
        via phys_parse_decreases
{
    if pos >= end {
        Some((Seq::empty(), pos))
    } else if !model_ok(b, pos) {
        None
    } else if le_i32(b, pos) == -1 {
        Some((Seq::empty(), pos + 16))
    } else {
        let model = model_spec(b, pos);
        let np = model_end(b, pos);
        if np >= end {
            Some((seq![model], np))
        } else {
            match phys_parse(b, np, end) {
                Option::None => None,
                Option::Some((rest, fin)) => Some((seq![model] + rest, fin)),
            }
        }
    }
}

#[via_fn]
proof fn phys_parse_decreases(b: Seq<u8>, pos: int, end: int) {
    if pos < end && model_ok(b, pos) && le_i32(b, pos) != -1 {
        lemma_solids_parse_pos(b, pos + 16, cnt_of(le_i32(b, pos + 12)));
    }
}

/// `c` holds the collision section `s`.
pub open spec fn solid_match(s: (CollideHeader, ModelHeaders, Seq<u8>), c: CollisionData) -> bool {
    &&& c.collide_header == s.0
    &&& c.second_header == s.1
    &&& c.data@ == s.2
}

/// `m` holds the physics model `s`.
pub open spec fn physmodel_match(
    s: (
        i32,
        i32,
        i32,
        i32,
        Seq<(CollideHeader, ModelHeaders, Seq<u8>)>,
        Seq<(Seq<char>, Seq<(Seq<char>, Seq<char>)>)>,
    ),
    m: PhysModel,
) -> bool {
    &&& m.model_index == s.0
    &&& m.data_size == s.1
    &&& m.keydata_size == s.2
    &&& m.solid_count == s.3
    &&& m.collision_data@.len() == s.4.len()
    &&& forall|i: int| 0 <= i < s.4.len() ==> solid_match(s.4[i], #[trigger] m.collision_data@[i])
    &&& kd_match(s.5, m.key_data@)
}

/// `v` holds the physics models `s`, in order.
pub open spec fn physmodels_match(
    s: Seq<
        (
            i32,
            i32,
            i32,
            i32,
            Seq<(CollideHeader, ModelHeaders, Seq<u8>)>,
            Seq<(Seq<char>, Seq<(Seq<char>, Seq<char>)>)>,
        ),
    >,
    v: Seq<PhysModel>,
) -> bool {
    &&& v.len() == s.len()
    &&& forall|i: int| 0 <= i < s.len() ==> physmodel_match(s[i], #[trigger] v[i])
}

/// Decode the collision sections of one physics model.
fn parse_solids(reader: &mut Reader, solid_count: i32) -> (r: Result<
    Vec<CollisionData>,
    DecodeError,
>)
    ensures
        final(reader).bytes == old(reader).bytes,
        ({
            let b = old(reader).bytes@;
            let spec = solids_parse(b, old(reader).index as int, cnt_of(solid_count));
            &&& (r is Ok <==> spec is Some)
            &&& (r matches Ok(v) ==> {
                &&& v@.len() == spec->Some_0.0.len()
                &&& forall|i: int|
                    0 <= i < v@.len() ==> solid_match(spec->Some_0.0[i], #[trigger] v@[i])
                &&& final(reader).index == spec->Some_0.1
            })
            &&& (r matches Err(e) ==> err_in(e, 29))
        }),
{
    let ghost b = reader.bytes@;
    let ghost start = reader.index as int;
    let n: usize = if solid_count <= 0 {
        0
    } else {
        solid_count as usize
    };
    let mut v: Vec<CollisionData> = Vec::new();
    let mut j: usize = 0;
    while j < n
        invariant
            reader.bytes == old(reader).bytes,
            b == old(reader).bytes@,
            start == old(reader).index as int,
            j <= n,
            n == cnt_of(solid_count),
            v@.len() == j,
            solids_parse(b, start, n as int) is Some <==> solids_parse(
                b,
                reader.index as int,
                n - j,
            ) is Some,
            solids_parse(b, start, n as int) matches Some((all, fin)) ==> solids_parse(
                b,
                reader.index as int,
                n - j,
            ) matches Some((rest, fin2)) && all == v@.map_values(
                |c: CollisionData| (c.collide_header, c.second_header, c.data@),
            ) + rest && fin == fin2,
            forall|i: int|
                0 <= i < j ==> solid_match(
                    (
                        #[trigger] v@[i].collide_header,
                        v@[i].second_header,
                        v@[i].data@,
                    ),
                    v@[i],
                ),
        decreases n - j,
    {
        let collide_header = match read_collideheader(reader) {
            Ok(x) => x,
            Err(e) => {
                return Err(attach_lump(e, 29));
            },
        };
        let (second_header, data) = if collide_header.model_type == 0 {
            let sh = match read_compactsurfaceheader(reader) {
                Ok(x) => x,
                Err(e) => {
                    return Err(attach_lump(e, 29));
                },
            };
            let data = match reader.read_bytes(#[verifier::truncate] (sh.surface_size as usize)) {
                Ok(x) => x,
                Err(e) => {
                    return Err(attach_lump(e, 29));
                },
            };
            (ModelHeaders::CompactSurfaceHeader(sh), data)
        } else {
            let size = match reader.read_int() {
                Ok(x) => x,
                Err(e) => {
                    return Err(attach_lump(e, 29));
                },
            };
            let data = match reader.read_bytes(#[verifier::truncate] (size as usize)) {
                Ok(x) => x,
                Err(e) => {
                    return Err(attach_lump(e, 29));
                },
            };
            (ModelHeaders::MoppSurfaceHeader(MoppSurfaceHeader { size }), data)
        };
        let ghost old_v = v@;
        v.push(CollisionData { collide_header, second_header, data });
        j = j + 1;
        proof {
            assert(v@.map_values(|c: CollisionData| (c.collide_header, c.second_header, c.data@))
                =~= old_v.map_values(
                |c: CollisionData| (c.collide_header, c.second_header, c.data@),
            ).push((collide_header, second_header, data@)));
            if solids_parse(b, start, n as int) is Some {
                let all = solids_parse(b, start, n as int)->Some_0.0;
                assert(all =~= v@.map_values(
                    |c: CollisionData| (c.collide_header, c.second_header, c.data@),
                ) + solids_parse(b, reader.index as int, n - j)->Some_0.0);
            }
        }
    }
    Ok(v)
}

/// Decode one physics model at the current position: its four header
/// fields, and, unless the model index is the -1 sentinel (returned as
/// `None`), its collision sections and trailing key-value block.
fn parse_phys_model(reader: &mut Reader) -> (r: Result<Option<PhysModel>, DecodeError>)
    ensures
        final(reader).bytes == old(reader).bytes,
        ({
            let b = old(reader).bytes@;
            let pos = old(reader).index as int;
            &&& (r is Ok <==> model_ok(b, pos))
            &&& (r matches Ok(o) ==> if le_i32(b, pos) == -1 {
                o is None && final(reader).index == pos + 16
            } else {
                o matches Some(m) && physmodel_match(model_spec(b, pos), m)
                    && final(reader).index == model_end(b, pos)
            })
            &&& (r matches Err(e) ==> err_in(e, 29))
        }),
{
    let ghost b = reader.bytes@;
    let ghost pos = reader.index as int;
    let model_index = match reader.read_int() {
        Ok(x) => x,
        Err(e) => {
            return Err(attach_lump(e, 29));
        },
    };
    let data_size = match reader.read_int() {
        Ok(x) => x,
        Err(e) => {
            return Err(attach_lump(e, 29));
        },
    };
    let keydata_size = match reader.read_int() {
        Ok(x) => x,
        Err(e) => {
            return Err(attach_lump(e, 29));
        },
    };
    let solid_count = match reader.read_int() {
        Ok(x) => x,
        Err(e) => {
            return Err(attach_lump(e, 29));
        },
    };
    if model_index == -1 {
        return Ok(None);
    }
    let collision_data = match parse_solids(reader, solid_count) {
        Ok(x) => x,
        Err(e) => {
            return Err(e);
        },
    };
    let kbytes = match reader.read_bytes(#[verifier::truncate] (keydata_size as usize)) {
        Ok(x) => x,
        Err(e) => {
            return Err(attach_lump(e, 29));
        },
    };
    let key_data = match crate::specific::physcol_data::parse_keydata_string(&kbytes) {
        Ok(x) => x,
        Err(_) => {
            return Err(DecodeError::MalformedText { lump: 29, position: reader.index });
        },
    };
    Ok(
        Some(
            PhysModel {
                model_index,
                data_size,
                keydata_size,
                solid_count,
                collision_data,
                key_data,
            },
        ),
    )
}

/// Decode the physics-collision lump (index 29): repeated per-model
/// sections, ended early by a model index of -1 (the sentinel model is not
/// stored), each with its collision sections and trailing key-value text
/// block of the declared size.
pub fn parse_physcollide(reader: &mut Reader, info: &LumpInfo) -> (r: Result<
    Vec<PhysModel>,
    DecodeError,
>)
    ensures
        final(reader).bytes == old(reader).bytes,
        ({
            let b = old(reader).bytes@;
            let start = info.file_offset as int;
            let end = info.file_offset + info.length;
            let spec = phys_parse(b, start, end);
            &&& (r is Ok <==> spec is Some)
            &&& (r matches Ok(v) ==> physmodels_match(spec->Some_0.0, v@) && final(reader).index
                == spec->Some_0.1)
            &&& (r matches Err(e) ==> err_in(e, 29))
        }),
{
    let ghost b = reader.bytes@;
    let ghost start = info.file_offset as int;
    let ghost end = info.file_offset as int + info.length as int;
    reader.seek(info.file_offset as usize);
    let end_pos: u64 = info.file_offset as u64 + info.length as u64;
    let mut v: Vec<PhysModel> = Vec::new();
    let ghost mut gacc: Seq<
        (
            i32,
            i32,
            i32,
            i32,
            Seq<(CollideHeader, ModelHeaders, Seq<u8>)>,
            Seq<(Seq<char>, Seq<(Seq<char>, Seq<char>)>)>,
        ),
    > = Seq::empty();
    let mut sentinel = false;
    while !sentinel && (reader.index as u64) < end_pos
        invariant
            reader.bytes == old(reader).bytes,
            b == old(reader).bytes@,
            start == info.file_offset as int,
            end == info.file_offset + info.length,
            end_pos == end,
            physmodels_match(gacc, v@),
            !sentinel ==> (phys_parse(b, start, end) is Some <==> phys_parse(
                b,
                reader.index as int,
                end,
            ) is Some),
            !sentinel ==> (phys_parse(b, start, end) matches Some((all, fin)) ==> phys_parse(
                b,
                reader.index as int,
                end,
            ) matches Some((rest, fin2)) && all == gacc + rest && fin == fin2),
            sentinel ==> (phys_parse(b, start, end) matches Some((all, fin)) && all == gacc && fin
                == reader.index as int),
        decreases remaining(end, reader.index as int), (if sentinel { 0int } else { 1int }),
    {
        let ghost pos = reader.index as int;
        match parse_phys_model(reader) {
            Err(e) => {
                return Err(e);
            },
            Ok(None) => {
                sentinel = true;
            },
            Ok(Some(m)) => {
                let ghost smodel = model_spec(b, pos);
                v.push(m);
                proof {
                    gacc = gacc.push(smodel);
                    lemma_solids_parse_pos(b, pos + 16, cnt_of(le_i32(b, pos + 12)));
                    if phys_parse(b, start, end) is Some {
                        let all = phys_parse(b, start, end)->Some_0.0;
                        assert(all =~= gacc + (if reader.index as int >= end {
                            Seq::<
                                (
                                    i32,
                                    i32,
                                    i32,
                                    i32,
                                    Seq<(CollideHeader, ModelHeaders, Seq<u8>)>,
                                    Seq<(Seq<char>, Seq<(Seq<char>, Seq<char>)>)>,
                                ),
                            >::empty()
                        } else {
                            phys_parse(b, reader.index as int, end)->Some_0.0
                        }));
                    }
                }
            },
        }
    }
    Ok(v)
}

/// The number of sub-lump descriptors of a game lump stored at `start`.
pub open spec fn gl_cnt(b: Seq<u8>, start: int) -> int {
    cnt_of(le_i32(b, start))
}

/// Sub-lump descriptor `i` of the game lump stored at `start`.
pub open spec fn gl_info(b: Seq<u8>, start: int, i: int) -> GameLumpInfo {
    gamelumpinfo_at(b, start + 4 + 16 * i)
}

/// The absolute position of sub-lump `i`'s payload, converted from its
/// stored offset exactly as the seek conversion converts it.
pub open spec fn gl_off(b: Seq<u8>, start: int, i: int) -> int {
    (gl_info(b, start, i).file_offset as usize) as int
}

/// The static-prop model name stored in the 128-byte slot at `p`: the bytes
/// before the first zero byte of the slot, with the terminating zero and the
/// padding stripped.
pub open spec fn sprp_name(b: Seq<u8>, p: int) -> Seq<u8> {
    b.subrange(p, find_byte(b, p, 0))
}

/// Slot `p` holds a well-formed name: the slot lies inside the buffer, a
/// terminating zero byte lies inside the slot, and the name is valid UTF-8.
pub open spec fn sprp_name_ok(b: Seq<u8>, p: int) -> bool {
    &&& p + 128 <= b.len()
    &&& find_byte(b, p, 0) < p + 128
    &&& valid_utf8(sprp_name(b, p))
}

/// The static-prop payload stored at `off`: a count-prefixed dictionary of
/// 128-byte name slots, a count-prefixed leaf table, and the count of
/// per-instance records whose bodies are intentionally left unparsed.
pub open spec fn sprp_parse(b: Seq<u8>, off: int) -> Option<
    (i32, Seq<Seq<u8>>, i32, Seq<u16>, i32),
> {
    if off < 0 || off + 4 > b.len() {
        None
    } else {
        let dn = le_i32(b, off);
        let dcnt = cnt_of(dn);
        let pl = off + 4 + 128 * dcnt;
        if !(forall|i: int| 0 <= i < dcnt ==> #[trigger] sprp_name_ok(b, off + 4 + 128 * i)) {
            None
        } else if pl + 4 > b.len() {
            None
        } else {
            let lcnt = cnt_of(le_i32(b, pl));
            let pe = pl + 4 + 2 * lcnt;
            if pe > b.len() || pe + 4 > b.len() {
                None
            } else {
                Some(
                    (
                        dn,
                        Seq::new(dcnt as nat, |i: int| sprp_name(b, off + 4 + 128 * i)),
                        le_i32(b, pl),
                        Seq::new(lcnt as nat, |i: int| le_u16(b, pl + 4 + 2 * i)),
                        le_i32(b, pe),
                    ),
                )
            }
        }
    }
}

/// The whole game lump decodes: the directory lies inside the buffer and
/// every recognized sub-lump's payload decodes.
pub open spec fn gamelump_ok(b: Seq<u8>, start: int) -> bool {
    &&& start + 4 <= b.len()
    &&& start + 4 + 16 * gl_cnt(b, start) <= b.len()
    &&& forall|i: int|
        0 <= i < gl_cnt(b, start) ==> ((#[trigger] gl_info(b, start, i)).id == SPRP_TAG
            ==> sprp_parse(b, gl_off(b, start, i)) is Some)
}

/// `d` holds the static-prop payload `s`.
pub open spec fn sprp_data_match(s: (i32, Seq<Seq<u8>>, i32, Seq<u16>, i32), d: GameLumpData)
    -> bool {
    &&& d matches GameLumpData::StaticProps(sp)
    &&& d->StaticProps_0.dict.dict_entries == s.0
    &&& d->StaticProps_0.dict.names@.len() == s.1.len()
    &&& forall|j: int|
        0 <= j < s.1.len() ==> (#[trigger] d->StaticProps_0.dict.names@[j])@ == decode_utf8(
            s.1[j],
        )
    &&& d->StaticProps_0.leafs.leaf_entries == s.2
    &&& d->StaticProps_0.leafs.leafs@ == s.3
    &&& d->StaticProps_0.num_entries == s.4
}

/// `g` is the decoded game lump stored at `start`: the directory, and one
/// payload per descriptor, a decoded static-prop payload for the recognized
/// tag and an unparsed placeholder for every other tag.
pub open spec fn gamelump_matches(b: Seq<u8>, start: int, g: GameLump) -> bool {
    let n = gl_cnt(b, start);
    &&& g.header.lump_count == le_i32(b, start)
    &&& g.header.game_lump_info@.len() == n
    &&& forall|i: int|
        0 <= i < n ==> #[trigger] g.header.game_lump_info@[i] == gl_info(b, start, i)
    &&& g.data@.len() == n
    &&& forall|i: int|
        0 <= i < n ==> (if gl_info(b, start, i).id == SPRP_TAG {
            sprp_data_match(sprp_parse(b, gl_off(b, start, i))->Some_0, #[trigger] g.data@[i])
        } else {
            g.data@[i] == GameLumpData::Unparsed
        })
}

/// Decode one static-prop payload at `off`.
fn parse_static_props(reader: &mut Reader, off: usize) -> (r: Result<StaticProps, DecodeError>)
    ensures
        final(reader).bytes == old(reader).bytes,
        ({
            let b = old(reader).bytes@;
            let spec = sprp_parse(b, off as int);
            &&& (r is Ok <==> spec is Some)
            &&& (r matches Ok(sp) ==> sprp_data_match(
                spec->Some_0,
                GameLumpData::StaticProps(sp),
            ))
            &&& (r matches Err(e) ==> err_in(e, 35))
        }),
{
    let ghost b = reader.bytes@;
    reader.seek(off);
    let dict_entries = match reader.read_int() {
        Ok(x) => x,
        Err(e) => {
            return Err(attach_lump(e, 35));
        },
    };
    let dn: usize = if dict_entries <= 0 {
        0
    } else {
        dict_entries as usize
    };
    let mut names: Vec<String> = Vec::new();
    let mut i: usize = 0;
    while i < dn
        invariant
            reader.bytes == old(reader).bytes,
            b == old(reader).bytes@,
            i <= dn,
            dn == cnt_of(le_i32(b, off as int)),
            dict_entries == le_i32(b, off as int),
            off + 4 <= b.len(),
            names@.len() == i,
            reader.index == off + 4 + 128 * i,
            forall|k: int| 0 <= k < i ==> #[trigger] sprp_name_ok(b, off + 4 + 128 * k),
            forall|k: int|
                0 <= k < i ==> (#[trigger] names@[k])@ == decode_utf8(
                    sprp_name(b, off + 4 + 128 * k),
                ),
        decreases dn - i,
    {
        let p = reader.index;
        if p > reader.bytes.len() || 128 > reader.bytes.len() - p {
            proof {
                assert(!sprp_name_ok(b, p as int));
            }
            return Err(DecodeError::OutOfBounds { lump: 35, position: p, wanted: 128 });
        }
        let nn = find_byte_from(&reader.bytes, p, 0);
        proof {
            lemma_find_byte_bounds(b, p as int, 0);
        }
        if nn >= p + 128 {
            proof {
                assert(!sprp_name_ok(b, p as int));
            }
            return Err(DecodeError::MalformedText { lump: 35, position: p });
        }
        let nb = copy_range(&reader.bytes, p, nn);
        let name = match bytes_to_string(nb) {
            Some(s) => s,
            None => {
                proof {
                    assert(!sprp_name_ok(b, p as int));
                }
                return Err(DecodeError::MalformedText { lump: 35, position: p });
            },
        };
        names.push(name);
        reader.seek(p + 128);
        i = i + 1;
        proof {
            assert(128 * i == 128 * (i - 1) + 128);
        }
    }
    proof {
        assert(128 * dn >= 0) by (nonlinear_arith)
            requires
                dn >= 0,
        ;
    }
    let leaf_entries = match reader.read_int() {
        Ok(x) => x,
        Err(e) => {
            return Err(attach_lump(e, 35));
        },
    };
    let ln: usize = if leaf_entries <= 0 {
        0
    } else {
        leaf_entries as usize
    };
    let ghost pl = off as int + 4 + 128 * dn;
    let mut leafs: Vec<u16> = Vec::new();
    let mut j: usize = 0;
    while j < ln
        invariant
            reader.bytes == old(reader).bytes,
            b == old(reader).bytes@,
            j <= ln,
            pl == off + 4 + 128 * cnt_of(le_i32(b, off as int)),
            ln == cnt_of(le_i32(b, pl)),
            leaf_entries == le_i32(b, pl),
            pl + 4 <= b.len(),
            leafs@.len() == j,
            reader.index == pl + 4 + 2 * j,
            forall|k: int| 0 <= k < j ==> #[trigger] leafs@[k] == le_u16(b, pl + 4 + 2 * k),
        decreases ln - j,
    {
        let w = match reader.read_ushort() {
            Ok(x) => x,
            Err(e) => {
                assert(2 * (j + 1) <= 2 * ln) by (nonlinear_arith)
                    requires
                        j + 1 <= ln,
                ;
                return Err(attach_lump(e, 35));
            },
        };
        leafs.push(w);
        j = j + 1;
    }
    assert(2 * j <= 2 * ln) by (nonlinear_arith)
        requires
            j <= ln,
    ;
    let num_entries = match reader.read_int() {
        Ok(x) => x,
        Err(e) => {
            return Err(attach_lump(e, 35));
        },
    };
    proof {
        assert(leafs@ =~= Seq::new(
            cnt_of(le_i32(b, pl)) as nat,
            |i: int| le_u16(b, pl + 4 + 2 * i),
        ));
    }
    Ok(
        StaticProps {
            dict: StaticPropDictLump { dict_entries, names },
            leafs: StaticPropLeafLump { leaf_entries, leafs },
            num_entries,
        },
    )
}

/// Decode the game lump (index 35): a count-prefixed directory of sub-lump
/// descriptors, and for each descriptor the recognized static-prop payload
/// or an unparsed placeholder.
pub fn parse_gamelump(reader: &mut Reader, info: &LumpInfo) -> (r: Result<GameLump, DecodeError>)
    ensures
        final(reader).bytes == old(reader).bytes,
        ({
            let b = old(reader).bytes@;
            let start = info.file_offset as int;
            &&& (r is Ok <==> gamelump_ok(b, start))
            &&& (r matches Ok(g) ==> gamelump_matches(b, start, g))
            &&& (r matches Err(e) ==> err_in(e, 35))
        }),
{
    let ghost b = reader.bytes@;
    let ghost start = info.file_offset as int;
    reader.seek(info.file_offset as usize);
    let lump_count = match reader.read_int() {
        Ok(x) => x,
        Err(e) => {
            return Err(attach_lump(e, 35));
        },
    };
    let n: usize = if lump_count <= 0 {
        0
    } else {
        lump_count as usize
    };
    let mut game_lump_info: Vec<GameLumpInfo> = Vec::new();
    let mut i: usize = 0;
    while i < n
        invariant
            reader.bytes == old(reader).bytes,
            b == old(reader).bytes@,
            start == info.file_offset as int,
            i <= n,
            n == gl_cnt(b, start),
            lump_count == le_i32(b, start),
            start + 4 <= b.len(),
            game_lump_info@.len() == i,
            reader.index == start + 4 + 16 * i,
            i > 0 ==> reader.index <= b.len(),
            forall|k: int| 0 <= k < i ==> #[trigger] game_lump_info@[k] == gl_info(b, start, k),
        decreases n - i,
    {
        let rec = match read_gamelumpinfo(reader) {
            Ok(x) => x,
            Err(e) => {
                assert(16 * (i + 1) <= 16 * n) by (nonlinear_arith)
                    requires
                        i + 1 <= n,
                ;
                return Err(attach_lump(e, 35));
            },
        };
        game_lump_info.push(rec);
        i = i + 1;
    }
    assert(16 * i <= 16 * n) by (nonlinear_arith)
        requires
            i <= n,
    ;
    let mut data: Vec<GameLumpData> = Vec::new();
    let mut k: usize = 0;
    while k < n
        invariant
            reader.bytes == old(reader).bytes,
            b == old(reader).bytes@,
            start == info.file_offset as int,
            k <= n,
            n == gl_cnt(b, start),
            start + 4 <= b.len(),
            start + 4 + 16 * n <= b.len(),
            game_lump_info@.len() == n,
            forall|q: int| 0 <= q < n ==> #[trigger] game_lump_info@[q] == gl_info(b, start, q),
            data@.len() == k,
            forall|q: int|
                0 <= q < k ==> (if gl_info(b, start, q).id == SPRP_TAG {
                    sprp_data_match(
                        sprp_parse(b, gl_off(b, start, q))->Some_0,
                        #[trigger] data@[q],
                    )
                } else {
                    data@[q] == GameLumpData::Unparsed
                }),
            forall|q: int|
                0 <= q < k ==> ((#[trigger] gl_info(b, start, q)).id == SPRP_TAG ==> sprp_parse(
                    b,
                    gl_off(b, start, q),
                ) is Some),
        decreases n - k,
    {
        let entry = game_lump_info[k];
        if entry.id == SPRP_TAG {
            let off = #[verifier::truncate] (entry.file_offset as usize);
            let sp = match parse_static_props(reader, off) {
                Ok(x) => x,
                Err(e) => {
                    proof {
                        assert(!gamelump_ok(b, start));
                    }
                    return Err(e);
                },
            };
            data.push(GameLumpData::StaticProps(sp));
        } else {
            data.push(GameLumpData::Unparsed);
        }
        k = k + 1;
    }
    Ok(GameLump { header: GameLumpHeader { lump_count, game_lump_info }, data })
}

/// The start of a lump's body.
pub open spec fn lump_start(inf: LumpInfo) -> int {
    inf.file_offset as int
}

/// The position just after a lump's declared body.
pub open spec fn lump_end(inf: LumpInfo) -> int {
    inf.file_offset + inf.length
}

/// The entity lump decodes: its text blob has a terminator inside the
/// buffer and parses as entity text.
pub open spec fn ent_lump_ok(b: Seq<u8>, inf: LumpInfo) -> bool {
    let s = lump_start(inf);
    let nn = find_byte(b, s, 0);
    &&& nn < b.len()
    &&& ent_parse(b.subrange(s, nn), 0) is Some
}

/// The decoded entities of the entity lump stored at `inf`.
pub open spec fn ent_lump_spec(b: Seq<u8>, inf: LumpInfo) -> Seq<Seq<(Seq<char>, Seq<char>)>> {
    let s = lump_start(inf);
    let nn = find_byte(b, s, 0);
    ent_parse(b.subrange(s, nn), 0)->Some_0
}

/// Decode the entity lump (index 0): one null-terminated text blob spanning
/// the lump, parsed as entity text.  The position ends on the terminator.
pub fn parse_entities(reader: &mut Reader, info: &LumpInfo) -> (r: Result<
    Vec<Vec<(String, String)>>,
    DecodeError,
>)
    ensures
        final(reader).bytes == old(reader).bytes,
        ({
            let b = old(reader).bytes@;
            &&& (r is Ok <==> ent_lump_ok(b, *info))
            &&& (r matches Ok(v) ==> ents_match(ent_lump_spec(b, *info), v@)
                && final(reader).index == find_byte(b, lump_start(*info), 0))
            &&& (r matches Err(e) ==> err_in(e, 0))
        }),
{
    let ghost b = reader.bytes@;
    reader.seek(info.file_offset as usize);
    let start = reader.index;
    if start > reader.bytes.len() {
        return Err(DecodeError::OutOfBounds { lump: 0, position: start, wanted: 1 });
    }
    let nn = find_byte_from(&reader.bytes, start, 0);
    proof {
        lemma_find_byte_bounds(b, start as int, 0);
    }
    if nn == reader.bytes.len() {
        return Err(DecodeError::OutOfBounds { lump: 0, position: start, wanted: 1 });
    }
    let blob = copy_range(&reader.bytes, start, nn);
    reader.seek(nn);
    match crate::utils::parse_entity_string(&blob) {
        Ok(v) => Ok(v),
        Err(_) => Err(DecodeError::MalformedText { lump: 0, position: start }),
    }
}

/// Lumps 0 through 15 decode under the directory `dir`.
pub open spec fn vbsp_lumps_ok_a(b: Seq<u8>, dir: Seq<LumpInfo>) -> bool {
    &&& ent_lump_ok(b, dir[0])
    &&& recs_fit(b, lump_start(dir[1]), lump_end(dir[1]), 20)
    &&& recs_fit(b, lump_start(dir[2]), lump_end(dir[2]), 32)
    &&& recs_fit(b, lump_start(dir[3]), lump_end(dir[3]), 12)
    &&& vis_ok(b, lump_start(dir[4]))
    &&& recs_fit(b, lump_start(dir[5]), lump_end(dir[5]), 32)
    &&& recs_fit(b, lump_start(dir[6]), lump_end(dir[6]), 72)
    &&& recs_fit(b, lump_start(dir[7]), lump_end(dir[7]), 56)
    &&& recs_fit(b, lump_start(dir[8]), lump_end(dir[8]), 4)
    &&& occlusion_ok(b, lump_start(dir[9]))
    &&& recs_fit(b, lump_start(dir[10]), lump_end(dir[10]), leaf_width(dir[10].version))
    &&& recs_fit(b, lump_start(dir[11]), lump_end(dir[11]), 2)
    &&& recs_fit(b, lump_start(dir[12]), lump_end(dir[12]), 4)
    &&& recs_fit(b, lump_start(dir[13]), lump_end(dir[13]), 4)
    &&& recs_fit(b, lump_start(dir[14]), lump_end(dir[14]), 48)
}

/// Lumps 16 through 31 decode under the directory `dir`.
pub open spec fn vbsp_lumps_ok_b(b: Seq<u8>, dir: Seq<LumpInfo>) -> bool {
    &&& recs_fit(b, lump_start(dir[18]), lump_end(dir[18]), 12)
    &&& recs_fit(b, lump_start(dir[19]), lump_end(dir[19]), 8)
    &&& recs_fit(b, lump_start(dir[20]), lump_end(dir[20]), 8)
    &&& recs_fit(b, lump_start(dir[21]), lump_end(dir[21]), 12)
    &&& recs_fit(b, lump_start(dir[26]), lump_end(dir[26]), 174)
    &&& recs_fit(b, lump_start(dir[27]), lump_end(dir[27]), 56)
    &&& recs_fit(b, lump_start(dir[28]), lump_end(dir[28]), 2)
    &&& phys_parse(b, lump_start(dir[29]), lump_end(dir[29])) is Some
    &&& recs_fit(b, lump_start(dir[30]), lump_end(dir[30]), 12)
    &&& recs_fit(b, lump_start(dir[31]), lump_end(dir[31]), 2)
}

/// Lumps 32 through 47 decode under the directory `dir`.
pub open spec fn vbsp_lumps_ok_c(b: Seq<u8>, dir: Seq<LumpInfo>) -> bool {
    &&& recs_fit(b, lump_start(dir[33]), lump_end(dir[33]), 20)
    &&& recs_fit(b, lump_start(dir[34]), lump_end(dir[34]), 1)
    &&& gamelump_ok(b, lump_start(dir[35]))
    &&& recs_fit(b, lump_start(dir[37]), lump_end(dir[37]), 10)
    &&& recs_fit(b, lump_start(dir[38]), lump_end(dir[38]), 12)
    &&& recs_fit(b, lump_start(dir[39]), lump_end(dir[39]), 2)
    &&& lump_start(dir[40]) + dir[40].length <= b.len()
    &&& recs_fit(b, lump_start(dir[41]), lump_end(dir[41]), 12)
    &&& recs_fit(b, lump_start(dir[42]), lump_end(dir[42]), 16)
    &&& tdsd_parse(b, lump_start(dir[43]), lump_end(dir[43])) is Some
    &&& recs_fit(b, lump_start(dir[44]), lump_end(dir[44]), 4)
    &&& recs_fit(b, lump_start(dir[45]), lump_end(dir[45]), 352)
    &&& recs_fit(b, lump_start(dir[46]), lump_end(dir[46]), 4)
    &&& recs_fit(b, lump_start(dir[47]), lump_end(dir[47]), 4)
}

/// Lumps 48 through 63 decode under the directory `dir`.
pub open spec fn vbsp_lumps_ok_d(b: Seq<u8>, dir: Seq<LumpInfo>) -> bool {
    recs_fit(b, lump_start(dir[48]), lump_end(dir[48]), 2)
}

/// Every implemented lump of a primary-dialect file decodes under its
/// directory entry `dir`.
pub open spec fn vbsp_lumps_ok(b: Seq<u8>, dir: Seq<LumpInfo>) -> bool {
    &&& vbsp_lumps_ok_a(b, dir)
    &&& vbsp_lumps_ok_b(b, dir)
    &&& vbsp_lumps_ok_c(b, dir)
    &&& vbsp_lumps_ok_d(b, dir)
}

/// Entries 0 through 15 of `ld` hold the decoded lumps 0 through 15.
pub open spec fn vbsp_lumps_match_a(b: Seq<u8>, dir: Seq<LumpInfo>, ld: Seq<VBSPLumpType>)
    -> bool {
    &&& (ld[0] matches VBSPLumpType::Entities(v) && ents_match(ent_lump_spec(b, dir[0]), v@))
    &&& lump_recs_match_planes(b, dir[1], ld[1])
    &&& lump_recs_match_texdata(b, dir[2], ld[2])
    &&& lump_recs_match_vertices(b, dir[3], ld[3])
    &&& (ld[4] matches VBSPLumpType::Visibility(v) && vis_matches(b, lump_start(dir[4]), v))
    &&& lump_recs_match_nodes(b, dir[5], ld[5])
    &&& lump_recs_match_texinfo(b, dir[6], ld[6])
    &&& lump_recs_match_faces(b, dir[7], ld[7])
    &&& lump_recs_match_lighting(b, dir[8], ld[8])
    &&& (ld[9] matches VBSPLumpType::Occlusion(o) && occluder_matches(b, lump_start(dir[9]), o))
    &&& lump_recs_match_leaves(b, dir[10], ld[10])
    &&& lump_recs_match_faceids(b, dir[11], ld[11])
    &&& lump_recs_match_edges(b, dir[12], ld[12])
    &&& lump_recs_match_surfedges(b, dir[13], ld[13])
    &&& lump_recs_match_models(b, dir[14], ld[14])
    &&& ld[15] == VBSPLumpType::Unparsed
}

/// Entries 16 through 31 of `ld` hold the decoded lumps 16 through 31.
pub open spec fn vbsp_lumps_match_b(b: Seq<u8>, dir: Seq<LumpInfo>, ld: Seq<VBSPLumpType>)
    -> bool {
    &&& ld[16] == VBSPLumpType::Unparsed
    &&& ld[17] == VBSPLumpType::Unparsed
    &&& lump_recs_match_brushes(b, dir[18], ld[18])
    &&& lump_recs_match_brushsides(b, dir[19], ld[19])
    &&& lump_recs_match_areas(b, dir[20], ld[20])
    &&& lump_recs_match_areaportals(b, dir[21], ld[21])
    &&& ld[22] == VBSPLumpType::Unused22
    &&& ld[23] == VBSPLumpType::Unused23
    &&& ld[24] == VBSPLumpType::Unused24
    &&& ld[25] == VBSPLumpType::Unused25
    &&& lump_recs_match_dispinfo(b, dir[26], ld[26])
    &&& lump_recs_match_origfaces(b, dir[27], ld[27])
    &&& lump_recs_match_phydisp(b, dir[28], ld[28])
    &&& (ld[29] matches VBSPLumpType::PhysCollide(v) && physmodels_match(
        phys_parse(b, lump_start(dir[29]), lump_end(dir[29]))->Some_0.0,
        v@,
    ))
    &&& lump_recs_match_vertnormals(b, dir[30], ld[30])
    &&& lump_recs_match_vertnormalindices(b, dir[31], ld[31])
}

/// Entries 32 through 47 of `ld` hold the decoded lumps 32 through 47.
pub open spec fn vbsp_lumps_match_c(b: Seq<u8>, dir: Seq<LumpInfo>, ld: Seq<VBSPLumpType>)
    -> bool {
    &&& ld[32] == VBSPLumpType::Unparsed
    &&& lump_recs_match_dispverts(b, dir[33], ld[33])
    &&& lump_recs_match_dlsp(b, dir[34], ld[34])
    &&& (ld[35] matches VBSPLumpType::GameLump(g) && gamelump_matches(b, lump_start(dir[35]), g))
    &&& ld[36] == VBSPLumpType::Unparsed
    &&& lump_recs_match_primitives(b, dir[37], ld[37])
    &&& lump_recs_match_primverts(b, dir[38], ld[38])
    &&& lump_recs_match_primindices(b, dir[39], ld[39])
    &&& (ld[40] matches VBSPLumpType::PakFile(p) && p.bytes@ == b.subrange(
        lump_start(dir[40]),
        lump_start(dir[40]) + dir[40].length,
    ))
    &&& lump_recs_match_clipportalverts(b, dir[41], ld[41])
    &&& lump_recs_match_cubemaps(b, dir[42], ld[42])
    &&& (ld[43] matches VBSPLumpType::TexDataStringData(v) && tdsd_matches(
        tdsd_parse(b, lump_start(dir[43]), lump_end(dir[43]))->Some_0,
        lump_start(dir[43]),
        v@,
    ))
    &&& lump_recs_match_tdst(b, dir[44], ld[44])
    &&& lump_recs_match_overlays(b, dir[45], ld[45])
    &&& lump_recs_match_lmdtw(b, dir[46], ld[46])
    &&& lump_recs_match_fmti(b, dir[47], ld[47])
}

/// Entries 48 through 63 of `ld` hold the decoded lumps 48 through 63.
pub open spec fn vbsp_lumps_match_d(b: Seq<u8>, dir: Seq<LumpInfo>, ld: Seq<VBSPLumpType>)
    -> bool {
    &&& lump_recs_match_disptris(b, dir[48], ld[48])
    &&& forall|i: int| 49 <= i < 64 ==> ld[i] == VBSPLumpType::Unparsed
}

/// `ld` is the decoded lump table of a primary-dialect file under the
/// directory `dir`: one entry per index, the decoded records for every
/// implemented lump and an explicit placeholder for every other index.
pub open spec fn vbsp_lumps_match(b: Seq<u8>, dir: Seq<LumpInfo>, ld: Seq<VBSPLumpType>) -> bool {
    &&& ld.len() == 64
    &&& vbsp_lumps_match_a(b, dir, ld)
    &&& vbsp_lumps_match_b(b, dir, ld)
    &&& vbsp_lumps_match_c(b, dir, ld)
    &&& vbsp_lumps_match_d(b, dir, ld)
}

/// `l` holds the decoded records of the `Planes` lump under entry `inf`.
pub open spec fn lump_recs_match_planes(b: Seq<u8>, inf: LumpInfo, l: VBSPLumpType) -> bool {
    &&& l matches VBSPLumpType::Planes(v)
    &&& v@.len() == rec_count(lump_start(inf), lump_end(inf), 20)
    &&& forall|j: int| 0 <= j < v@.len() ==> #[trigger] v@[j] == plane_at(b, lump_start(inf) + 20 * j)
}

/// `l` holds the decoded records of the `TexData` lump under entry `inf`.
pub open spec fn lump_recs_match_texdata(b: Seq<u8>, inf: LumpInfo, l: VBSPLumpType) -> bool {
    &&& l matches VBSPLumpType::TexData(v)
    &&& v@.len() == rec_count(lump_start(inf), lump_end(inf), 32)
    &&& forall|j: int| 0 <= j < v@.len() ==> #[trigger] v@[j] == texdata_at(b, lump_start(inf) + 32 * j)
}

/// `l` holds the decoded records of the `Vertices` lump under entry `inf`.
pub open spec fn lump_recs_match_vertices(b: Seq<u8>, inf: LumpInfo, l: VBSPLumpType) -> bool {
    &&& l matches VBSPLumpType::Vertices(v)
    &&& v@.len() == rec_count(lump_start(inf), lump_end(inf), 12)
    &&& forall|j: int| 0 <= j < v@.len() ==> #[trigger] v@[j] == vector3_at(b, lump_start(inf) + 12 * j)
}

/// `l` holds the decoded records of the `Nodes` lump under entry `inf`.
pub open spec fn lump_recs_match_nodes(b: Seq<u8>, inf: LumpInfo, l: VBSPLumpType) -> bool {
    &&& l matches VBSPLumpType::Nodes(v)
    &&& v@.len() == rec_count(lump_start(inf), lump_end(inf), 32)
    &&& forall|j: int| 0 <= j < v@.len() ==> node_matches(b, lump_start(inf) + 32 * j, #[trigger] v@[j])
}

/// `l` holds the decoded records of the `TexInfo` lump under entry `inf`.
pub open spec fn lump_recs_match_texinfo(b: Seq<u8>, inf: LumpInfo, l: VBSPLumpType) -> bool {
    &&& l matches VBSPLumpType::TexInfo(v)
    &&& v@.len() == rec_count(lump_start(inf), lump_end(inf), 72)
    &&& forall|j: int| 0 <= j < v@.len() ==> texinfo_matches(b, lump_start(inf) + 72 * j, #[trigger] v@[j])
}

/// `l` holds the decoded records of the `Faces` lump under entry `inf`.
pub open spec fn lump_recs_match_faces(b: Seq<u8>, inf: LumpInfo, l: VBSPLumpType) -> bool {
    &&& l matches VBSPLumpType::Faces(v)
    &&& v@.len() == rec_count(lump_start(inf), lump_end(inf), 56)
    &&& forall|j: int| 0 <= j < v@.len() ==> face_matches(b, lump_start(inf) + 56 * j, #[trigger] v@[j])
}

/// `l` holds the decoded records of the `Lighting` lump under entry `inf`.
pub open spec fn lump_recs_match_lighting(b: Seq<u8>, inf: LumpInfo, l: VBSPLumpType) -> bool {
    &&& l matches VBSPLumpType::Lighting(v)
    &&& v@.len() == rec_count(lump_start(inf), lump_end(inf), 4)
    &&& forall|j: int| 0 <= j < v@.len() ==> #[trigger] v@[j] == colorrgbexp32_at(b, lump_start(inf) + 4 * j)
}

/// `l` holds the decoded records of the `FaceIDs` lump under entry `inf`.
pub open spec fn lump_recs_match_faceids(b: Seq<u8>, inf: LumpInfo, l: VBSPLumpType) -> bool {
    &&& l matches VBSPLumpType::FaceIDs(v)
    &&& v@.len() == rec_count(lump_start(inf), lump_end(inf), 2)
    &&& forall|j: int| 0 <= j < v@.len() ==> #[trigger] v@[j] == faceid_at(b, lump_start(inf) + 2 * j)
}

/// `l` holds the decoded records of the `Edges` lump under entry `inf`.
pub open spec fn lump_recs_match_edges(b: Seq<u8>, inf: LumpInfo, l: VBSPLumpType) -> bool {
    &&& l matches VBSPLumpType::Edges(v)
    &&& v@.len() == rec_count(lump_start(inf), lump_end(inf), 4)
    &&& forall|j: int| 0 <= j < v@.len() ==> edge_matches(b, lump_start(inf) + 4 * j, #[trigger] v@[j])
}

/// `l` holds the decoded records of the `SurfEdges` lump under entry `inf`.
pub open spec fn lump_recs_match_surfedges(b: Seq<u8>, inf: LumpInfo, l: VBSPLumpType) -> bool {
    &&& l matches VBSPLumpType::SurfEdges(v)
    &&& v@.len() == rec_count(lump_start(inf), lump_end(inf), 4)
    &&& forall|j: int| 0 <= j < v@.len() ==> #[trigger] v@[j] == le_i32(b, lump_start(inf) + 4 * j)
}

/// `l` holds the decoded records of the `Models` lump under entry `inf`.
pub open spec fn lump_recs_match_models(b: Seq<u8>, inf: LumpInfo, l: VBSPLumpType) -> bool {
    &&& l matches VBSPLumpType::Models(v)
    &&& v@.len() == rec_count(lump_start(inf), lump_end(inf), 48)
    &&& forall|j: int| 0 <= j < v@.len() ==> #[trigger] v@[j] == model_at(b, lump_start(inf) + 48 * j)
}

/// `l` holds the decoded records of the `Brushes` lump under entry `inf`.
pub open spec fn lump_recs_match_brushes(b: Seq<u8>, inf: LumpInfo, l: VBSPLumpType) -> bool {
    &&& l matches VBSPLumpType::Brushes(v)
    &&& v@.len() == rec_count(lump_start(inf), lump_end(inf), 12)
    &&& forall|j: int| 0 <= j < v@.len() ==> #[trigger] v@[j] == brush_at(b, lump_start(inf) + 12 * j)
}

/// `l` holds the decoded records of the `BrushSides` lump under entry `inf`.
pub open spec fn lump_recs_match_brushsides(b: Seq<u8>, inf: LumpInfo, l: VBSPLumpType) -> bool {
    &&& l matches VBSPLumpType::BrushSides(v)
    &&& v@.len() == rec_count(lump_start(inf), lump_end(inf), 8)
    &&& forall|j: int| 0 <= j < v@.len() ==> #[trigger] v@[j] == brushside_at(b, lump_start(inf) + 8 * j)
}

/// `l` holds the decoded records of the `Areas` lump under entry `inf`.
pub open spec fn lump_recs_match_areas(b: Seq<u8>, inf: LumpInfo, l: VBSPLumpType) -> bool {
    &&& l matches VBSPLumpType::Areas(v)
    &&& v@.len() == rec_count(lump_start(inf), lump_end(inf), 8)
    &&& forall|j: int| 0 <= j < v@.len() ==> #[trigger] v@[j] == area_at(b, lump_start(inf) + 8 * j)
}

/// `l` holds the decoded records of the `AreaPortals` lump under entry `inf`.
pub open spec fn lump_recs_match_areaportals(b: Seq<u8>, inf: LumpInfo, l: VBSPLumpType) -> bool {
    &&& l matches VBSPLumpType::AreaPortals(v)
    &&& v@.len() == rec_count(lump_start(inf), lump_end(inf), 12)
    &&& forall|j: int| 0 <= j < v@.len() ==> #[trigger] v@[j] == areaportal_at(b, lump_start(inf) + 12 * j)
}

/// `l` holds the decoded records of the `DispInfo` lump under entry `inf`.
pub open spec fn lump_recs_match_dispinfo(b: Seq<u8>, inf: LumpInfo, l: VBSPLumpType) -> bool {
    &&& l matches VBSPLumpType::DispInfo(v)
    &&& v@.len() == rec_count(lump_start(inf), lump_end(inf), 174)
    &&& forall|j: int| 0 <= j < v@.len() ==> dispinfo_matches(b, lump_start(inf) + 174 * j, #[trigger] v@[j])
}

/// `l` holds the decoded records of the `OriginalFaces` lump under entry `inf`.
pub open spec fn lump_recs_match_origfaces(b: Seq<u8>, inf: LumpInfo, l: VBSPLumpType) -> bool {
    &&& l matches VBSPLumpType::OriginalFaces(v)
    &&& v@.len() == rec_count(lump_start(inf), lump_end(inf), 56)
    &&& forall|j: int| 0 <= j < v@.len() ==> face_matches(b, lump_start(inf) + 56 * j, #[trigger] v@[j])
}

/// `l` holds the decoded records of the `PhyDisp` lump under entry `inf`.
pub open spec fn lump_recs_match_phydisp(b: Seq<u8>, inf: LumpInfo, l: VBSPLumpType) -> bool {
    &&& l matches VBSPLumpType::PhyDisp(v)
    &&& v@.len() == rec_count(lump_start(inf), lump_end(inf), 2)
    &&& forall|j: int| 0 <= j < v@.len() ==> #[trigger] v@[j] == phydisp_at(b, lump_start(inf) + 2 * j)
}

/// `l` holds the decoded records of the `VertNormal` lump under entry `inf`.
pub open spec fn lump_recs_match_vertnormals(b: Seq<u8>, inf: LumpInfo, l: VBSPLumpType) -> bool {
    &&& l matches VBSPLumpType::VertNormal(v)
    &&& v@.len() == rec_count(lump_start(inf), lump_end(inf), 12)
    &&& forall|j: int| 0 <= j < v@.len() ==> #[trigger] v@[j] == vertexnormal_at(b, lump_start(inf) + 12 * j)
}

/// `l` holds the decoded records of the `VertNormalIndices` lump under entry `inf`.
pub open spec fn lump_recs_match_vertnormalindices(b: Seq<u8>, inf: LumpInfo, l: VBSPLumpType) -> bool {
    &&& l matches VBSPLumpType::VertNormalIndices(v)
    &&& v@.len() == rec_count(lump_start(inf), lump_end(inf), 2)
    &&& forall|j: int| 0 <= j < v@.len() ==> #[trigger] v@[j] == vertexnormalindex_at(b, lump_start(inf) + 2 * j)
}

/// `l` holds the decoded records of the `DispVerts` lump under entry `inf`.
pub open spec fn lump_recs_match_dispverts(b: Seq<u8>, inf: LumpInfo, l: VBSPLumpType) -> bool {
    &&& l matches VBSPLumpType::DispVerts(v)
    &&& v@.len() == rec_count(lump_start(inf), lump_end(inf), 20)
    &&& forall|j: int| 0 <= j < v@.len() ==> #[trigger] v@[j] == dispvert_at(b, lump_start(inf) + 20 * j)
}

/// `l` holds the decoded records of the `DispLightmapSamplePositions` lump under entry `inf`.
pub open spec fn lump_recs_match_dlsp(b: Seq<u8>, inf: LumpInfo, l: VBSPLumpType) -> bool {
    &&& l matches VBSPLumpType::DispLightmapSamplePositions(v)
    &&& v@.len() == rec_count(lump_start(inf), lump_end(inf), 1)
    &&& forall|j: int| 0 <= j < v@.len() ==> #[trigger] v@[j] == displightmapsampleposition_at(b, lump_start(inf) + 1 * j)
}

/// `l` holds the decoded records of the `Primitives` lump under entry `inf`.
pub open spec fn lump_recs_match_primitives(b: Seq<u8>, inf: LumpInfo, l: VBSPLumpType) -> bool {
    &&& l matches VBSPLumpType::Primitives(v)
    &&& v@.len() == rec_count(lump_start(inf), lump_end(inf), 10)
    &&& forall|j: int| 0 <= j < v@.len() ==> #[trigger] v@[j] == primitive_at(b, lump_start(inf) + 10 * j)
}

/// `l` holds the decoded records of the `PrimVerts` lump under entry `inf`.
pub open spec fn lump_recs_match_primverts(b: Seq<u8>, inf: LumpInfo, l: VBSPLumpType) -> bool {
    &&& l matches VBSPLumpType::PrimVerts(v)
    &&& v@.len() == rec_count(lump_start(inf), lump_end(inf), 12)
    &&& forall|j: int| 0 <= j < v@.len() ==> #[trigger] v@[j] == primvert_at(b, lump_start(inf) + 12 * j)
}

/// `l` holds the decoded records of the `PrimIndices` lump under entry `inf`.
pub open spec fn lump_recs_match_primindices(b: Seq<u8>, inf: LumpInfo, l: VBSPLumpType) -> bool {
    &&& l matches VBSPLumpType::PrimIndices(v)
    &&& v@.len() == rec_count(lump_start(inf), lump_end(inf), 2)
    &&& forall|j: int| 0 <= j < v@.len() ==> #[trigger] v@[j] == primindex_at(b, lump_start(inf) + 2 * j)
}

/// `l` holds the decoded records of the `ClipPortalVerts` lump under entry `inf`.
pub open spec fn lump_recs_match_clipportalverts(b: Seq<u8>, inf: LumpInfo, l: VBSPLumpType) -> bool {
    &&& l matches VBSPLumpType::ClipPortalVerts(v)
    &&& v@.len() == rec_count(lump_start(inf), lump_end(inf), 12)
    &&& forall|j: int| 0 <= j < v@.len() ==> #[trigger] v@[j] == clipportalvert_at(b, lump_start(inf) + 12 * j)
}

/// `l` holds the decoded records of the `Cubemaps` lump under entry `inf`.
pub open spec fn lump_recs_match_cubemaps(b: Seq<u8>, inf: LumpInfo, l: VBSPLumpType) -> bool {
    &&& l matches VBSPLumpType::Cubemaps(v)
    &&& v@.len() == rec_count(lump_start(inf), lump_end(inf), 16)
    &&& forall|j: int| 0 <= j < v@.len() ==> cubemap_matches(b, lump_start(inf) + 16 * j, #[trigger] v@[j])
}

/// `l` holds the decoded records of the `TexDataStringTable` lump under entry `inf`.
pub open spec fn lump_recs_match_tdst(b: Seq<u8>, inf: LumpInfo, l: VBSPLumpType) -> bool {
    &&& l matches VBSPLumpType::TexDataStringTable(v)
    &&& v@.len() == rec_count(lump_start(inf), lump_end(inf), 4)
    &&& forall|j: int| 0 <= j < v@.len() ==> #[trigger] v@[j] == texdatastringtable_at(b, lump_start(inf) + 4 * j)
}

/// `l` holds the decoded records of the `Overlays` lump under entry `inf`.
pub open spec fn lump_recs_match_overlays(b: Seq<u8>, inf: LumpInfo, l: VBSPLumpType) -> bool {
    &&& l matches VBSPLumpType::Overlays(v)
    &&& v@.len() == rec_count(lump_start(inf), lump_end(inf), 352)
    &&& forall|j: int| 0 <= j < v@.len() ==> overlay_matches(b, lump_start(inf) + 352 * j, #[trigger] v@[j])
}

/// `l` holds the decoded records of the `LeafMinDistToWater` lump under entry `inf`.
pub open spec fn lump_recs_match_lmdtw(b: Seq<u8>, inf: LumpInfo, l: VBSPLumpType) -> bool {
    &&& l matches VBSPLumpType::LeafMinDistToWater(v)
    &&& v@.len() == rec_count(lump_start(inf), lump_end(inf), 4)
    &&& forall|j: int| 0 <= j < v@.len() ==> #[trigger] v@[j] == leafmindisttowater_at(b, lump_start(inf) + 4 * j)
}

/// `l` holds the decoded records of the `FaceMacroTextureInfo` lump under entry `inf`.
pub open spec fn lump_recs_match_fmti(b: Seq<u8>, inf: LumpInfo, l: VBSPLumpType) -> bool {
    &&& l matches VBSPLumpType::FaceMacroTextureInfo(v)
    &&& v@.len() == rec_count(lump_start(inf), lump_end(inf), 4)
    &&& forall|j: int| 0 <= j < v@.len() ==> #[trigger] v@[j] == facemacrotextureinfo_at(b, lump_start(inf) + 4 * j)
}

/// `l` holds the decoded records of the `DispTris` lump under entry `inf`.
pub open spec fn lump_recs_match_disptris(b: Seq<u8>, inf: LumpInfo, l: VBSPLumpType) -> bool {
    &&& l matches VBSPLumpType::DispTris(v)
    &&& v@.len() == rec_count(lump_start(inf), lump_end(inf), 2)
    &&& forall|j: int| 0 <= j < v@.len() ==> #[trigger] v@[j] == spec_disp_tri_from_bits(le_u16(b, lump_start(inf) + 2 * j))
}
/// `l` holds the decoded records of the leaf lump under entry `inf`, whose
/// own version selects the record width.
pub open spec fn lump_recs_match_leaves(b: Seq<u8>, inf: LumpInfo, l: VBSPLumpType) -> bool {
    &&& l matches VBSPLumpType::Leaves(v)
    &&& v@.len() == rec_count(lump_start(inf), lump_end(inf), leaf_width(inf.version))
    &&& forall|j: int|
        0 <= j < v@.len() ==> leaf_matches(
            b,
            lump_start(inf) + leaf_width(inf.version) * j,
            inf.version,
            #[trigger] v@[j],
        )
}

} // verus!
