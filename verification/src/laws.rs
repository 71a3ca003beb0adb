use vstd::prelude::*;

use crate::file_structure::{BSPFile, Header, LumpInfo};
use crate::lumps::vbsp::{
    VBSPLumpType, Node, TexInfo, Face, Leaf, DispInfo, Overlay, Vis, Occluder, PhysModel,
    GameLump, TexDataStringData,
};
use crate::parse::doc_matches;
use crate::specific::gamelump::GameLumpData;
use crate::specific::physcol_data::CollisionData;

verus! {

/// Two directory entries are field-for-field equal.
pub open spec fn lumpinfo_eq(x: LumpInfo, y: LumpInfo) -> bool {
    &&& x.file_offset == y.file_offset
    &&& x.length == y.length
    &&& x.version == y.version
    &&& x.ident@ == y.ident@
    &&& x.index == y.index
}

/// Two headers are field-for-field equal.
pub open spec fn header_eq(x: Header, y: Header) -> bool {
    &&& x.bspver == y.bspver
    &&& x.ident == y.ident
    &&& x.version == y.version
    &&& x.map_revision == y.map_revision
    &&& x.lumps@.len() == y.lumps@.len()
    &&& forall|i: int| 0 <= i < x.lumps@.len() ==> lumpinfo_eq(#[trigger] x.lumps@[i], y.lumps@[i])
}

/// Two node records are field-for-field equal.
pub open spec fn node_eq(x: Node, y: Node) -> bool {
    &&& x.plane_num == y.plane_num
    &&& x.children@ == y.children@
    &&& x.mins@ == y.mins@
    &&& x.maxs@ == y.maxs@
    &&& x.first_face == y.first_face
    &&& x.numfaces == y.numfaces
    &&& x.area == y.area
    &&& x.padding == y.padding
}

/// Two texture-info records are field-for-field equal.
pub open spec fn texinfo_eq(x: TexInfo, y: TexInfo) -> bool {
    &&& x.texture_vecs@.len() == y.texture_vecs@.len() == 2
    &&& forall|i: int| 0 <= i < 2 ==> (#[trigger] x.texture_vecs@[i])@ == y.texture_vecs@[i]@
    &&& x.lightmap_vecs@.len() == y.lightmap_vecs@.len() == 2
    &&& forall|i: int| 0 <= i < 2 ==> (#[trigger] x.lightmap_vecs@[i])@ == y.lightmap_vecs@[i]@
    &&& x.flags == y.flags
    &&& x.texdata == y.texdata
}

/// Two face records are field-for-field equal.
pub open spec fn face_eq(x: Face, y: Face) -> bool {
    &&& x.plane_num == y.plane_num
    &&& x.side == y.side
    &&& x.on_node == y.on_node
    &&& x.first_edge == y.first_edge
    &&& x.num_edges == y.num_edges
    &&& x.tex_info == y.tex_info
    &&& x.disp_info == y.disp_info
    &&& x.surface_fog_volume_id == y.surface_fog_volume_id
    &&& x.styles@ == y.styles@
    &&& x.light_offset == y.light_offset
    &&& x.area == y.area
    &&& x.lightmap_texture_mins@ == y.lightmap_texture_mins@
    &&& x.lightmap_texture_size@ == y.lightmap_texture_size@
    &&& x.orig_face == y.orig_face
    &&& x.num_prims == y.num_prims
    &&& x.first_prim_id == y.first_prim_id
    &&& x.smoothing_groups == y.smoothing_groups
}

/// Two leaf records are field-for-field equal.
pub open spec fn leaf_eq(x: Leaf, y: Leaf) -> bool {
    &&& x.contents == y.contents
    &&& x.cluster == y.cluster
    &&& x.area_flags == y.area_flags
    &&& x.mins@ == y.mins@
    &&& x.maxs@ == y.maxs@
    &&& x.first_leaf_face == y.first_leaf_face
    &&& x.num_leaf_faces == y.num_leaf_faces
    &&& x.first_leaf_brushes == y.first_leaf_brushes
    &&& x.num_leaf_brushes == y.num_leaf_brushes
    &&& x.in_water == y.in_water
    &&& (x.ambient_lighting is Some <==> y.ambient_lighting is Some)
    &&& (x.ambient_lighting is Some ==> x.ambient_lighting->Some_0.color@
        == y.ambient_lighting->Some_0.color@)
    &&& x.padding == y.padding
}

/// Two displacement-info records are field-for-field equal.
pub open spec fn dispinfo_eq(x: DispInfo, y: DispInfo) -> bool {
    &&& x.start_position == y.start_position
    &&& x.disp_vert_start == y.disp_vert_start
    &&& x.disp_tri_start == y.disp_tri_start
    &&& x.power == y.power
    &&& x.min_tess == y.min_tess
    &&& x.smoothing_angle == y.smoothing_angle
    &&& x.contents == y.contents
    &&& x.map_face == y.map_face
    &&& x.lightmap_alpha_start == y.lightmap_alpha_start
    &&& x.lightmap_sample_position_start == y.lightmap_sample_position_start
    &&& x.edge_neighbors@.len() == y.edge_neighbors@.len() == 4
    &&& forall|i: int|
        0 <= i < 4 ==> (#[trigger] x.edge_neighbors@[i]).sub_neighbors@
            == y.edge_neighbors@[i].sub_neighbors@
    &&& x.corner_neighbors@.len() == y.corner_neighbors@.len() == 4
    &&& forall|i: int|
        0 <= i < 4 ==> {
            &&& (#[trigger] x.corner_neighbors@[i]).neighbors@ == y.corner_neighbors@[i].neighbors@
            &&& x.corner_neighbors@[i].num_neighbors == y.corner_neighbors@[i].num_neighbors
            &&& x.corner_neighbors@[i].padding == y.corner_neighbors@[i].padding
        }
    &&& x.allowed_verts@ == y.allowed_verts@
}

/// Two overlay records are field-for-field equal.
pub open spec fn overlay_eq(x: Overlay, y: Overlay) -> bool {
    &&& x.id == y.id
    &&& x.texinfo == y.texinfo
    &&& x.face_count_and_render_order == y.face_count_and_render_order
    &&& x.faces@ == y.faces@
    &&& x.u@ == y.u@
    &&& x.v@ == y.v@
    &&& x.uv_points@ == y.uv_points@
    &&& x.origin == y.origin
    &&& x.basis_normal == y.basis_normal
}

/// Two ordered pair lists are pairwise equal as text.
pub open spec fn pairs_eq(x: Seq<(String, String)>, y: Seq<(String, String)>) -> bool {
    &&& x.len() == y.len()
    &&& forall|j: int| 0 <= j < x.len() ==> (#[trigger] x[j]).0@ == y[j].0@ && x[j].1@ == y[j].1@
}

/// Two entity tables are field-for-field equal.
pub open spec fn entities_eq(x: Seq<Vec<(String, String)>>, y: Seq<Vec<(String, String)>>)
    -> bool {
    &&& x.len() == y.len()
    &&& forall|i: int| 0 <= i < x.len() ==> pairs_eq((#[trigger] x[i])@, y[i]@)
}

/// Two visibility lumps are field-for-field equal.
pub open spec fn vis_eq(x: Vis, y: Vis) -> bool {
    &&& x.num_clusters == y.num_clusters
    &&& x.byte_offsets@.len() == y.byte_offsets@.len()
    &&& forall|i: int|
        0 <= i < x.byte_offsets@.len() ==> (#[trigger] x.byte_offsets@[i])@
            == y.byte_offsets@[i]@
    &&& x.cluster_data@.len() == y.cluster_data@.len() == 2
    &&& forall|s: int, i: int|
        0 <= s < 2 && 0 <= i < x.cluster_data@[s]@.len() ==> (#[trigger] x.cluster_data@[s]@[i])@
            == y.cluster_data@[s]@[i]@
    &&& x.cluster_data@[0]@.len() == y.cluster_data@[0]@.len()
    &&& x.cluster_data@[1]@.len() == y.cluster_data@[1]@.len()
}

/// Two occlusion lumps are field-for-field equal.
pub open spec fn occluder_eq(x: Occluder, y: Occluder) -> bool {
    &&& x.count == y.count
    &&& x.data@ == y.data@
    &&& x.poly_data_count == y.poly_data_count
    &&& x.poly_data@ == y.poly_data@
    &&& x.vertex_index_count == y.vertex_index_count
    &&& x.vertex_indices@ == y.vertex_indices@
}

/// Two collision-data sections are field-for-field equal.
pub open spec fn collision_eq(x: CollisionData, y: CollisionData) -> bool {
    &&& x.collide_header == y.collide_header
    &&& x.second_header == y.second_header
    &&& x.data@ == y.data@
}

/// Two physics models are field-for-field equal.
pub open spec fn physmodel_eq(x: PhysModel, y: PhysModel) -> bool {
    &&& x.model_index == y.model_index
    &&& x.data_size == y.data_size
    &&& x.keydata_size == y.keydata_size
    &&& x.solid_count == y.solid_count
    &&& x.collision_data@.len() == y.collision_data@.len()
    &&& forall|i: int|
        0 <= i < x.collision_data@.len() ==> collision_eq(
            #[trigger] x.collision_data@[i],
            y.collision_data@[i],
        )
    &&& x.key_data@.len() == y.key_data@.len()
    &&& forall|i: int|
        0 <= i < x.key_data@.len() ==> (#[trigger] x.key_data@[i]).0@ == y.key_data@[i].0@
            && pairs_eq(x.key_data@[i].1@, y.key_data@[i].1@)
}

/// Two game-lump payloads are field-for-field equal.
pub open spec fn gamelumpdata_eq(x: GameLumpData, y: GameLumpData) -> bool {
    &&& (x is Unparsed <==> y is Unparsed)
    &&& (x is StaticProps ==> {
        &&& y is StaticProps
        &&& x->StaticProps_0.dict.dict_entries == y->StaticProps_0.dict.dict_entries
        &&& x->StaticProps_0.dict.names@.len() == y->StaticProps_0.dict.names@.len()
        &&& forall|j: int|
            0 <= j < x->StaticProps_0.dict.names@.len() ==> (#[trigger] x
                ->StaticProps_0.dict.names@[j])@ == y->StaticProps_0.dict.names@[j]@
        &&& x->StaticProps_0.leafs.leaf_entries == y->StaticProps_0.leafs.leaf_entries
        &&& x->StaticProps_0.leafs.leafs@ == y->StaticProps_0.leafs.leafs@
        &&& x->StaticProps_0.num_entries == y->StaticProps_0.num_entries
    })
}

/// Two game lumps are field-for-field equal.
pub open spec fn gamelump_eq(x: GameLump, y: GameLump) -> bool {
    &&& x.header.lump_count == y.header.lump_count
    &&& x.header.game_lump_info@ == y.header.game_lump_info@
    &&& x.data@.len() == y.data@.len()
    &&& forall|i: int| 0 <= i < x.data@.len() ==> gamelumpdata_eq(#[trigger] x.data@[i], y.data@[i])
}

/// Two texture-string-data lumps are field-for-field equal.
pub open spec fn tdsd_eq(x: Seq<TexDataStringData>, y: Seq<TexDataStringData>) -> bool {
    &&& x.len() == y.len()
    &&& forall|i: int|
        0 <= i < x.len() ==> (#[trigger] x[i]).offset == y[i].offset && x[i].val@ == y[i].val@
}

/// Slots 0 through 15 of two decoded lump tables are equal.
pub open spec fn lumps_eq_a(x: Seq<VBSPLumpType>, y: Seq<VBSPLumpType>) -> bool {
    &&& (x[0] is Entities && y[0] is Entities && entities_eq(x[0]->Entities_0@, y[0]->Entities_0@))
    &&& (x[1] is Planes && y[1] is Planes && x[1]->Planes_0@ == y[1]->Planes_0@)
    &&& (x[2] is TexData && y[2] is TexData && x[2]->TexData_0@ == y[2]->TexData_0@)
    &&& (x[3] is Vertices && y[3] is Vertices && x[3]->Vertices_0@ == y[3]->Vertices_0@)
    &&& (x[4] is Visibility && y[4] is Visibility && vis_eq(x[4]->Visibility_0, y[4]->Visibility_0))
    &&& (x[5] is Nodes && y[5] is Nodes && x[5]->Nodes_0@.len() == y[5]->Nodes_0@.len() && (forall|
        j: int,
    |
        0 <= j < x[5]->Nodes_0@.len() ==> node_eq(#[trigger] x[5]->Nodes_0@[j], y[5]->Nodes_0@[j])))
    &&& (x[6] is TexInfo && y[6] is TexInfo && x[6]->TexInfo_0@.len() == y[6]->TexInfo_0@.len() && (
    forall|j: int|
        0 <= j < x[6]->TexInfo_0@.len() ==> texinfo_eq(
            #[trigger] x[6]->TexInfo_0@[j],
            y[6]->TexInfo_0@[j],
        )))
    &&& (x[7] is Faces && y[7] is Faces && x[7]->Faces_0@.len() == y[7]->Faces_0@.len() && (forall|
        j: int,
    |
        0 <= j < x[7]->Faces_0@.len() ==> face_eq(#[trigger] x[7]->Faces_0@[j], y[7]->Faces_0@[j])))
    &&& (x[8] is Lighting && y[8] is Lighting && x[8]->Lighting_0@ == y[8]->Lighting_0@)
    &&& (x[9] is Occlusion && y[9] is Occlusion && occluder_eq(x[9]->Occlusion_0, y[9]->Occlusion_0))
    &&& (x[10] is Leaves && y[10] is Leaves && x[10]->Leaves_0@.len() == y[10]->Leaves_0@.len() && (
    forall|j: int|
        0 <= j < x[10]->Leaves_0@.len() ==> leaf_eq(
            #[trigger] x[10]->Leaves_0@[j],
            y[10]->Leaves_0@[j],
        )))
    &&& (x[11] is FaceIDs && y[11] is FaceIDs && x[11]->FaceIDs_0@ == y[11]->FaceIDs_0@)
    &&& (x[12] is Edges && y[12] is Edges && x[12]->Edges_0@.len() == y[12]->Edges_0@.len() && (
    forall|j: int|
        0 <= j < x[12]->Edges_0@.len() ==> (#[trigger] x[12]->Edges_0@[j]).pair@ == y[12]
            ->Edges_0@[j].pair@))
    &&& (x[13] is SurfEdges && y[13] is SurfEdges && x[13]->SurfEdges_0@ == y[13]->SurfEdges_0@)
    &&& (x[14] is Models && y[14] is Models && x[14]->Models_0@ == y[14]->Models_0@)
    &&& x[15] == y[15] && x[15] == VBSPLumpType::Unparsed
}

/// Slots 16 through 31 of two decoded lump tables are equal.
pub open spec fn lumps_eq_b(x: Seq<VBSPLumpType>, y: Seq<VBSPLumpType>) -> bool {
    &&& x[16] == y[16] && x[16] == VBSPLumpType::Unparsed
    &&& x[17] == y[17] && x[17] == VBSPLumpType::Unparsed
    &&& (x[18] is Brushes && y[18] is Brushes && x[18]->Brushes_0@ == y[18]->Brushes_0@)
    &&& (x[19] is BrushSides && y[19] is BrushSides && x[19]->BrushSides_0@ == y[19]->BrushSides_0@)
    &&& (x[20] is Areas && y[20] is Areas && x[20]->Areas_0@ == y[20]->Areas_0@)
    &&& (x[21] is AreaPortals && y[21] is AreaPortals && x[21]->AreaPortals_0@ == y[21]
        ->AreaPortals_0@)
    &&& x[22] == y[22] && x[22] == VBSPLumpType::Unused22
    &&& x[23] == y[23] && x[23] == VBSPLumpType::Unused23
    &&& x[24] == y[24] && x[24] == VBSPLumpType::Unused24
    &&& x[25] == y[25] && x[25] == VBSPLumpType::Unused25
    &&& (x[26] is DispInfo && y[26] is DispInfo && x[26]->DispInfo_0@.len() == y[26]
        ->DispInfo_0@.len() && (forall|j: int|
        0 <= j < x[26]->DispInfo_0@.len() ==> dispinfo_eq(
            #[trigger] x[26]->DispInfo_0@[j],
            y[26]->DispInfo_0@[j],
        )))
    &&& (x[27] is OriginalFaces && y[27] is OriginalFaces && x[27]->OriginalFaces_0@.len() == y[27]
        ->OriginalFaces_0@.len() && (forall|j: int|
        0 <= j < x[27]->OriginalFaces_0@.len() ==> face_eq(
            #[trigger] x[27]->OriginalFaces_0@[j],
            y[27]->OriginalFaces_0@[j],
        )))
    &&& (x[28] is PhyDisp && y[28] is PhyDisp && x[28]->PhyDisp_0@ == y[28]->PhyDisp_0@)
    &&& (x[29] is PhysCollide && y[29] is PhysCollide && x[29]->PhysCollide_0@.len() == y[29]
        ->PhysCollide_0@.len() && (forall|j: int|
        0 <= j < x[29]->PhysCollide_0@.len() ==> physmodel_eq(
            #[trigger] x[29]->PhysCollide_0@[j],
            y[29]->PhysCollide_0@[j],
        )))
    &&& (x[30] is VertNormal && y[30] is VertNormal && x[30]->VertNormal_0@ == y[30]->VertNormal_0@)
    &&& (x[31] is VertNormalIndices && y[31] is VertNormalIndices && x[31]->VertNormalIndices_0@
        == y[31]->VertNormalIndices_0@)
}

/// Slots 32 through 47 of two decoded lump tables are equal.
pub open spec fn lumps_eq_c(x: Seq<VBSPLumpType>, y: Seq<VBSPLumpType>) -> bool {
    &&& x[32] == y[32] && x[32] == VBSPLumpType::Unparsed
    &&& (x[33] is DispVerts && y[33] is DispVerts && x[33]->DispVerts_0@ == y[33]->DispVerts_0@)
    &&& (x[34] is DispLightmapSamplePositions && y[34] is DispLightmapSamplePositions && x[34]
        ->DispLightmapSamplePositions_0@ == y[34]->DispLightmapSamplePositions_0@)
    &&& (x[35] is GameLump && y[35] is GameLump && gamelump_eq(x[35]->GameLump_0, y[35]->GameLump_0))
    &&& x[36] == y[36] && x[36] == VBSPLumpType::Unparsed
    &&& (x[37] is Primitives && y[37] is Primitives && x[37]->Primitives_0@ == y[37]->Primitives_0@)
    &&& (x[38] is PrimVerts && y[38] is PrimVerts && x[38]->PrimVerts_0@ == y[38]->PrimVerts_0@)
    &&& (x[39] is PrimIndices && y[39] is PrimIndices && x[39]->PrimIndices_0@ == y[39]
        ->PrimIndices_0@)
    &&& (x[40] is PakFile && y[40] is PakFile && x[40]->PakFile_0.bytes@ == y[40]->PakFile_0.bytes@)
    &&& (x[41] is ClipPortalVerts && y[41] is ClipPortalVerts && x[41]->ClipPortalVerts_0@ == y[41]
        ->ClipPortalVerts_0@)
    &&& (x[42] is Cubemaps && y[42] is Cubemaps && x[42]->Cubemaps_0@.len() == y[42]
        ->Cubemaps_0@.len() && (forall|j: int|
        0 <= j < x[42]->Cubemaps_0@.len() ==> (#[trigger] x[42]->Cubemaps_0@[j]).origin@ == y[42]
            ->Cubemaps_0@[j].origin@ && x[42]->Cubemaps_0@[j].size == y[42]->Cubemaps_0@[j].size))
    &&& (x[43] is TexDataStringData && y[43] is TexDataStringData && tdsd_eq(
        x[43]->TexDataStringData_0@,
        y[43]->TexDataStringData_0@,
    ))
    &&& (x[44] is TexDataStringTable && y[44] is TexDataStringTable && x[44]->TexDataStringTable_0@
        == y[44]->TexDataStringTable_0@)
    &&& (x[45] is Overlays && y[45] is Overlays && x[45]->Overlays_0@.len() == y[45]
        ->Overlays_0@.len() && (forall|j: int|
        0 <= j < x[45]->Overlays_0@.len() ==> overlay_eq(
            #[trigger] x[45]->Overlays_0@[j],
            y[45]->Overlays_0@[j],
        )))
    &&& (x[46] is LeafMinDistToWater && y[46] is LeafMinDistToWater && x[46]->LeafMinDistToWater_0@
        == y[46]->LeafMinDistToWater_0@)
    &&& (x[47] is FaceMacroTextureInfo && y[47] is FaceMacroTextureInfo && x[47]
        ->FaceMacroTextureInfo_0@ == y[47]->FaceMacroTextureInfo_0@)
}

/// Slots 48 through 63 of two decoded lump tables are equal.
pub open spec fn lumps_eq_d(x: Seq<VBSPLumpType>, y: Seq<VBSPLumpType>) -> bool {
    &&& (x[48] is DispTris && y[48] is DispTris && x[48]->DispTris_0@ == y[48]->DispTris_0@)
    &&& forall|i: int| 49 <= i < 64 ==> x[i] == y[i] && #[trigger] x[i] == VBSPLumpType::Unparsed
}

/// Two decoded primary-dialect lump tables are field-for-field equal: the
/// same variant in every slot, with equal contents.
pub open spec fn lumps_eq(x: Seq<VBSPLumpType>, y: Seq<VBSPLumpType>) -> bool {
    &&& x.len() == y.len() == 64
    &&& lumps_eq_a(x, y)
    &&& lumps_eq_b(x, y)
    &&& lumps_eq_c(x, y)
    &&& lumps_eq_d(x, y)
}

/// Two documents are field-for-field equal: equal headers and, slot by slot,
/// equal lump tables.
pub open spec fn doc_eq(x: BSPFile, y: BSPFile) -> bool {
    &&& header_eq(x.header, y.header)
    &&& (x.lump_data is VBSP <==> y.lump_data is VBSP)
    &&& (x.lump_data is VBSP ==> lumps_eq(x.lump_data->VBSP_0@, y.lump_data->VBSP_0@))
    &&& (x.lump_data is GoldSrc ==> y.lump_data is GoldSrc && x.lump_data->GoldSrc_0@.len() == 0
        && y.lump_data->GoldSrc_0@.len() == 0)
}

/// Decoding is deterministic: two documents decoded from the same byte
/// buffer are field-for-field equal.
#[verifier::rlimit(100)]
#[verifier::spinoff_prover]
pub proof fn lemma_decode_deterministic(b: Seq<u8>, d1: BSPFile, d2: BSPFile)
    requires
        doc_matches(b, d1),
        doc_matches(b, d2),
    ensures
        doc_eq(d1, d2),
{
    assert(header_eq(d1.header, d2.header)) by {
        assert forall|i: int| 0 <= i < d1.header.lumps@.len() implies lumpinfo_eq(
            #[trigger] d1.header.lumps@[i],
            d2.header.lumps@[i],
        ) by {
            assert(d1.header.lumps@[i].ident@ =~= d2.header.lumps@[i].ident@);
        }
    }
    if crate::reader::le_i32(b, 0) == crate::VBSP_MAGIC {
        lemma_vbsp_lumps_deterministic(b, d1, d2);
    }
}

/// The lump tables of two documents decoded from the same primary-dialect
/// buffer are equal slot by slot.
proof fn lemma_vbsp_lumps_deterministic(b: Seq<u8>, d1: BSPFile, d2: BSPFile)
    requires
        doc_matches(b, d1),
        doc_matches(b, d2),
        crate::reader::le_i32(b, 0) == crate::VBSP_MAGIC,
    ensures
        lumps_eq(d1.lump_data->VBSP_0@, d2.lump_data->VBSP_0@),
{
    let dir1 = d1.header.lumps@;
    let dir2 = d2.header.lumps@;
    let x = d1.lump_data->VBSP_0@;
    let y = d2.lump_data->VBSP_0@;
    lemma_lumps_det_a(b, dir1, dir2, x, y);
    lemma_lumps_det_b(b, dir1, dir2, x, y);
    lemma_lumps_det_c(b, dir1, dir2, x, y);
    lemma_lumps_det_d(b, dir1, dir2, x, y);
}


/// Two directories read from the same buffer give every lump the same
/// bounds and version.
proof fn lemma_same_dir(b: Seq<u8>, dir1: Seq<LumpInfo>, dir2: Seq<LumpInfo>)
    requires
        dir1.len() == 64,
        dir2.len() == 64,
        forall|i: int|
            0 <= i < 64 ==> crate::file_structure::lumpinfo_vbsp_matches(b, i, #[trigger] dir1[i]),
        forall|i: int|
            0 <= i < 64 ==> crate::file_structure::lumpinfo_vbsp_matches(b, i, #[trigger] dir2[i]),
    ensures
        forall|i: int|
            0 <= i < 64 ==> {
                &&& crate::parse::lumpdec::lump_start(#[trigger] dir1[i]) == crate::parse::lumpdec::lump_start(dir2[i])
                &&& crate::parse::lumpdec::lump_end(dir1[i]) == crate::parse::lumpdec::lump_end(dir2[i])
                &&& dir1[i].version == dir2[i].version
            },
{
}

/// Slots 0 through 15 agree between two documents decoded from `b`.
#[verifier::rlimit(100)]
#[verifier::spinoff_prover]
proof fn lemma_lumps_det_a(
    b: Seq<u8>,
    dir1: Seq<LumpInfo>,
    dir2: Seq<LumpInfo>,
    x: Seq<VBSPLumpType>,
    y: Seq<VBSPLumpType>,
)
    requires
        dir1.len() == 64,
        dir2.len() == 64,
        forall|i: int|
            0 <= i < 64 ==> crate::file_structure::lumpinfo_vbsp_matches(b, i, #[trigger] dir1[i]),
        forall|i: int|
            0 <= i < 64 ==> crate::file_structure::lumpinfo_vbsp_matches(b, i, #[trigger] dir2[i]),
        crate::parse::lumpdec::vbsp_lumps_match_a(b, dir1, x),
        crate::parse::lumpdec::vbsp_lumps_match_a(b, dir2, y),
    ensures
        lumps_eq_a(x, y),
{
    lemma_same_dir(b, dir1, dir2);
    assert(entities_eq(x[0]->Entities_0@, y[0]->Entities_0@)) by {
        assert forall|i: int| 0 <= i < x[0]->Entities_0@.len() implies pairs_eq(
            (#[trigger] x[0]->Entities_0@[i])@,
            y[0]->Entities_0@[i]@,
        ) by {}
    }
    assert(x[1]->Planes_0@ =~= y[1]->Planes_0@);
    assert(x[2]->TexData_0@ =~= y[2]->TexData_0@);
    assert(x[3]->Vertices_0@ =~= y[3]->Vertices_0@);
    assert(vis_eq(x[4]->Visibility_0, y[4]->Visibility_0)) by {
        let v1 = x[4]->Visibility_0;
        let v2 = y[4]->Visibility_0;
        assert forall|i: int| 0 <= i < v1.byte_offsets@.len() implies (
        #[trigger] v1.byte_offsets@[i])@ == v2.byte_offsets@[i]@ by {
            assert(v1.byte_offsets@[i]@ =~= v2.byte_offsets@[i]@);
        }
    }
    assert forall|j: int| 0 <= j < x[5]->Nodes_0@.len() implies node_eq(
        #[trigger] x[5]->Nodes_0@[j],
        y[5]->Nodes_0@[j],
    ) by {
        assert(x[5]->Nodes_0@[j].children@ =~= y[5]->Nodes_0@[j].children@);
        assert(x[5]->Nodes_0@[j].mins@ =~= y[5]->Nodes_0@[j].mins@);
        assert(x[5]->Nodes_0@[j].maxs@ =~= y[5]->Nodes_0@[j].maxs@);
    }
    assert forall|j: int| 0 <= j < x[6]->TexInfo_0@.len() implies texinfo_eq(
        #[trigger] x[6]->TexInfo_0@[j],
        y[6]->TexInfo_0@[j],
    ) by {
        assert forall|i: int| 0 <= i < 2 implies (#[trigger] x[6]->TexInfo_0@[j].texture_vecs@[i])@
            == y[6]->TexInfo_0@[j].texture_vecs@[i]@ by {
            assert(x[6]->TexInfo_0@[j].texture_vecs@[i]@ =~= y[6]
                ->TexInfo_0@[j].texture_vecs@[i]@);
        }
        assert forall|i: int| 0 <= i < 2 implies (
        #[trigger] x[6]->TexInfo_0@[j].lightmap_vecs@[i])@ == y[6]
            ->TexInfo_0@[j].lightmap_vecs@[i]@ by {
            assert(x[6]->TexInfo_0@[j].lightmap_vecs@[i]@ =~= y[6]
                ->TexInfo_0@[j].lightmap_vecs@[i]@);
        }
    }
    assert forall|j: int| 0 <= j < x[7]->Faces_0@.len() implies face_eq(
        #[trigger] x[7]->Faces_0@[j],
        y[7]->Faces_0@[j],
    ) by {
        assert(x[7]->Faces_0@[j].styles@ =~= y[7]->Faces_0@[j].styles@);
        assert(x[7]->Faces_0@[j].lightmap_texture_mins@ =~= y[7]
            ->Faces_0@[j].lightmap_texture_mins@);
        assert(x[7]->Faces_0@[j].lightmap_texture_size@ =~= y[7]
            ->Faces_0@[j].lightmap_texture_size@);
    }
    assert forall|j: int| 0 <= j < x[10]->Leaves_0@.len() implies leaf_eq(
        #[trigger] x[10]->Leaves_0@[j],
        y[10]->Leaves_0@[j],
    ) by {
        assert(x[10]->Leaves_0@[j].mins@ =~= y[10]->Leaves_0@[j].mins@);
        assert(x[10]->Leaves_0@[j].maxs@ =~= y[10]->Leaves_0@[j].maxs@);
        if x[10]->Leaves_0@[j].ambient_lighting is Some {
            assert(x[10]->Leaves_0@[j].ambient_lighting->Some_0.color@ =~= y[10]
                ->Leaves_0@[j].ambient_lighting->Some_0.color@);
        }
    }
    assert(x[8]->Lighting_0@ =~= y[8]->Lighting_0@);
    assert(occluder_eq(x[9]->Occlusion_0, y[9]->Occlusion_0)) by {
        assert(x[9]->Occlusion_0.data@ =~= y[9]->Occlusion_0.data@);
        assert(x[9]->Occlusion_0.poly_data@ =~= y[9]->Occlusion_0.poly_data@);
        assert(x[9]->Occlusion_0.vertex_indices@ =~= y[9]->Occlusion_0.vertex_indices@);
    }
    assert(x[11]->FaceIDs_0@ =~= y[11]->FaceIDs_0@);
    assert forall|j: int| 0 <= j < x[12]->Edges_0@.len() implies (
    #[trigger] x[12]->Edges_0@[j]).pair@ == y[12]->Edges_0@[j].pair@ by {
        assert(x[12]->Edges_0@[j].pair@ =~= y[12]->Edges_0@[j].pair@);
    }
    assert(x[13]->SurfEdges_0@ =~= y[13]->SurfEdges_0@);
    assert(x[14]->Models_0@ =~= y[14]->Models_0@);
}

/// Slots 16 through 31 agree between two documents decoded from `b`.
#[verifier::rlimit(100)]
#[verifier::spinoff_prover]
proof fn lemma_lumps_det_b(
    b: Seq<u8>,
    dir1: Seq<LumpInfo>,
    dir2: Seq<LumpInfo>,
    x: Seq<VBSPLumpType>,
    y: Seq<VBSPLumpType>,
)
    requires
        dir1.len() == 64,
        dir2.len() == 64,
        forall|i: int|
            0 <= i < 64 ==> crate::file_structure::lumpinfo_vbsp_matches(b, i, #[trigger] dir1[i]),
        forall|i: int|
            0 <= i < 64 ==> crate::file_structure::lumpinfo_vbsp_matches(b, i, #[trigger] dir2[i]),
        crate::parse::lumpdec::vbsp_lumps_match_b(b, dir1, x),
        crate::parse::lumpdec::vbsp_lumps_match_b(b, dir2, y),
    ensures
        lumps_eq_b(x, y),
{
    lemma_same_dir(b, dir1, dir2);
    lemma_dispinfo_det(
        b,
        crate::parse::lumpdec::lump_start(dir1[26]),
        x[26]->DispInfo_0@,
        y[26]->DispInfo_0@,
    );
    lemma_faces_det(
        b,
        crate::parse::lumpdec::lump_start(dir1[27]),
        x[27]->OriginalFaces_0@,
        y[27]->OriginalFaces_0@,
    );
    assert(x[18]->Brushes_0@ =~= y[18]->Brushes_0@);
    assert(x[19]->BrushSides_0@ =~= y[19]->BrushSides_0@);
    assert(x[20]->Areas_0@ =~= y[20]->Areas_0@);
    assert(x[21]->AreaPortals_0@ =~= y[21]->AreaPortals_0@);
    assert(x[28]->PhyDisp_0@ =~= y[28]->PhyDisp_0@);
    lemma_phys_det(
        crate::parse::lumpdec::phys_parse(
            b,
            crate::parse::lumpdec::lump_start(dir1[29]),
            crate::parse::lumpdec::lump_end(dir1[29]),
        )->Some_0.0,
        x[29]->PhysCollide_0@,
        y[29]->PhysCollide_0@,
    );
    assert(x[30]->VertNormal_0@ =~= y[30]->VertNormal_0@);
    assert(x[31]->VertNormalIndices_0@ =~= y[31]->VertNormalIndices_0@);
}

/// Slots 32 through 47 agree between two documents decoded from `b`.
#[verifier::rlimit(100)]
#[verifier::spinoff_prover]
proof fn lemma_lumps_det_c(
    b: Seq<u8>,
    dir1: Seq<LumpInfo>,
    dir2: Seq<LumpInfo>,
    x: Seq<VBSPLumpType>,
    y: Seq<VBSPLumpType>,
)
    requires
        dir1.len() == 64,
        dir2.len() == 64,
        forall|i: int|
            0 <= i < 64 ==> crate::file_structure::lumpinfo_vbsp_matches(b, i, #[trigger] dir1[i]),
        forall|i: int|
            0 <= i < 64 ==> crate::file_structure::lumpinfo_vbsp_matches(b, i, #[trigger] dir2[i]),
        crate::parse::lumpdec::vbsp_lumps_match_c(b, dir1, x),
        crate::parse::lumpdec::vbsp_lumps_match_c(b, dir2, y),
    ensures
        lumps_eq_c(x, y),
{
    lemma_same_dir(b, dir1, dir2);
    assert forall|j: int| 0 <= j < x[42]->Cubemaps_0@.len() implies (
    #[trigger] x[42]->Cubemaps_0@[j]).origin@ == y[42]->Cubemaps_0@[j].origin@ && x[42]
        ->Cubemaps_0@[j].size == y[42]->Cubemaps_0@[j].size by {
        assert(x[42]->Cubemaps_0@[j].origin@ =~= y[42]->Cubemaps_0@[j].origin@);
    }
    assert forall|j: int| 0 <= j < x[45]->Overlays_0@.len() implies overlay_eq(
        #[trigger] x[45]->Overlays_0@[j],
        y[45]->Overlays_0@[j],
    ) by {
        assert(x[45]->Overlays_0@[j].faces@ =~= y[45]->Overlays_0@[j].faces@);
        assert(x[45]->Overlays_0@[j].u@ =~= y[45]->Overlays_0@[j].u@);
        assert(x[45]->Overlays_0@[j].v@ =~= y[45]->Overlays_0@[j].v@);
        assert(x[45]->Overlays_0@[j].uv_points@ =~= y[45]->Overlays_0@[j].uv_points@);
    }
    assert(x[33]->DispVerts_0@ =~= y[33]->DispVerts_0@);
    assert(x[34]->DispLightmapSamplePositions_0@ =~= y[34]->DispLightmapSamplePositions_0@);
    lemma_gamelump_det(
        b,
        crate::parse::lumpdec::lump_start(dir1[35]),
        x[35]->GameLump_0,
        y[35]->GameLump_0,
    );
    assert(x[37]->Primitives_0@ =~= y[37]->Primitives_0@);
    assert(x[38]->PrimVerts_0@ =~= y[38]->PrimVerts_0@);
    assert(x[39]->PrimIndices_0@ =~= y[39]->PrimIndices_0@);
    assert(x[41]->ClipPortalVerts_0@ =~= y[41]->ClipPortalVerts_0@);
    assert(x[44]->TexDataStringTable_0@ =~= y[44]->TexDataStringTable_0@);
    assert(x[46]->LeafMinDistToWater_0@ =~= y[46]->LeafMinDistToWater_0@);
    assert(x[47]->FaceMacroTextureInfo_0@ =~= y[47]->FaceMacroTextureInfo_0@);
}

/// Two displacement-info tables decoded from the same run of records are
/// pointwise field-for-field equal.
#[verifier::rlimit(100)]
#[verifier::spinoff_prover]
proof fn lemma_dispinfo_det(b: Seq<u8>, s: int, v1: Seq<DispInfo>, v2: Seq<DispInfo>)
    requires
        v1.len() == v2.len(),
        forall|j: int|
            0 <= j < v1.len() ==> crate::lumps::vbsp::dispinfo_matches(
                b,
                s + 174 * j,
                #[trigger] v1[j],
            ),
        forall|j: int|
            0 <= j < v2.len() ==> crate::lumps::vbsp::dispinfo_matches(
                b,
                s + 174 * j,
                #[trigger] v2[j],
            ),
    ensures
        forall|j: int| 0 <= j < v1.len() ==> dispinfo_eq(#[trigger] v1[j], v2[j]),
{
    assert forall|j: int| 0 <= j < v1.len() implies dispinfo_eq(#[trigger] v1[j], v2[j]) by {
        let a1 = v1[j];
        let a2 = v2[j];
        assert forall|i: int| 0 <= i < 4 implies (#[trigger] a1.edge_neighbors@[i]).sub_neighbors@
            == a2.edge_neighbors@[i].sub_neighbors@ by {
            assert(a1.edge_neighbors@[i].sub_neighbors@ =~= a2.edge_neighbors@[i].sub_neighbors@);
        }
        assert forall|i: int| 0 <= i < 4 implies (#[trigger] a1.corner_neighbors@[i]).neighbors@
            == a2.corner_neighbors@[i].neighbors@ && a1.corner_neighbors@[i].num_neighbors
            == a2.corner_neighbors@[i].num_neighbors && a1.corner_neighbors@[i].padding
            == a2.corner_neighbors@[i].padding by {
            assert(a1.corner_neighbors@[i].neighbors@ =~= a2.corner_neighbors@[i].neighbors@);
        }
        assert(a1.allowed_verts@ =~= a2.allowed_verts@);
    }
}

/// Two face tables decoded from the same run of records are pointwise
/// field-for-field equal.
#[verifier::rlimit(100)]
#[verifier::spinoff_prover]
proof fn lemma_faces_det(b: Seq<u8>, s: int, v1: Seq<Face>, v2: Seq<Face>)
    requires
        v1.len() == v2.len(),
        forall|j: int|
            0 <= j < v1.len() ==> crate::lumps::vbsp::face_matches(b, s + 56 * j, #[trigger] v1[j]),
        forall|j: int|
            0 <= j < v2.len() ==> crate::lumps::vbsp::face_matches(b, s + 56 * j, #[trigger] v2[j]),
    ensures
        forall|j: int| 0 <= j < v1.len() ==> face_eq(#[trigger] v1[j], v2[j]),
{
    assert forall|j: int| 0 <= j < v1.len() implies face_eq(#[trigger] v1[j], v2[j]) by {
        assert(v1[j].styles@ =~= v2[j].styles@);
        assert(v1[j].lightmap_texture_mins@ =~= v2[j].lightmap_texture_mins@);
        assert(v1[j].lightmap_texture_size@ =~= v2[j].lightmap_texture_size@);
    }
}

/// Two physics-model tables that hold the same decoded models are
/// field-for-field equal.
#[verifier::rlimit(100)]
#[verifier::spinoff_prover]
proof fn lemma_phys_det(
    s: Seq<
        (
            i32,
            i32,
            i32,
            i32,
            Seq<(crate::specific::physcol_data::CollideHeader, crate::specific::physcol_data::ModelHeaders, Seq<u8>)>,
            Seq<(Seq<char>, Seq<(Seq<char>, Seq<char>)>)>,
        ),
    >,
    v1: Seq<PhysModel>,
    v2: Seq<PhysModel>,
)
    requires
        crate::parse::lumpdec::physmodels_match(s, v1),
        crate::parse::lumpdec::physmodels_match(s, v2),
    ensures
        v1.len() == v2.len(),
        forall|j: int| 0 <= j < v1.len() ==> physmodel_eq(#[trigger] v1[j], v2[j]),
{
    assert forall|j: int| 0 <= j < v1.len() implies physmodel_eq(#[trigger] v1[j], v2[j]) by {
        let m1 = v1[j];
        let m2 = v2[j];
        assert forall|i: int| 0 <= i < m1.collision_data@.len() implies collision_eq(
            #[trigger] m1.collision_data@[i],
            m2.collision_data@[i],
        ) by {
            assert(m1.collision_data@[i].data@ =~= m2.collision_data@[i].data@);
        }
    }
}

/// Two game lumps decoded from the same position of the same buffer are
/// field-for-field equal.
#[verifier::rlimit(100)]
#[verifier::spinoff_prover]
proof fn lemma_gamelump_det(b: Seq<u8>, start: int, g1: GameLump, g2: GameLump)
    requires
        crate::parse::lumpdec::gamelump_matches(b, start, g1),
        crate::parse::lumpdec::gamelump_matches(b, start, g2),
    ensures
        gamelump_eq(g1, g2),
{
    assert(g1.header.game_lump_info@ =~= g2.header.game_lump_info@);
    assert forall|i: int| 0 <= i < g1.data@.len() implies gamelumpdata_eq(
        #[trigger] g1.data@[i],
        g2.data@[i],
    ) by {
        if g1.data@[i] is StaticProps {
            assert(g1.data@[i]->StaticProps_0.leafs.leafs@ =~= g2.data@[i]
                ->StaticProps_0.leafs.leafs@);
        }
    }
}

/// Slots 48 through 63 agree between two documents decoded from `b`.
#[verifier::rlimit(100)]
#[verifier::spinoff_prover]
proof fn lemma_lumps_det_d(
    b: Seq<u8>,
    dir1: Seq<LumpInfo>,
    dir2: Seq<LumpInfo>,
    x: Seq<VBSPLumpType>,
    y: Seq<VBSPLumpType>,
)
    requires
        dir1.len() == 64,
        dir2.len() == 64,
        forall|i: int|
            0 <= i < 64 ==> crate::file_structure::lumpinfo_vbsp_matches(b, i, #[trigger] dir1[i]),
        forall|i: int|
            0 <= i < 64 ==> crate::file_structure::lumpinfo_vbsp_matches(b, i, #[trigger] dir2[i]),
        crate::parse::lumpdec::vbsp_lumps_match_d(b, dir1, x),
        crate::parse::lumpdec::vbsp_lumps_match_d(b, dir2, y),
    ensures
        lumps_eq_d(x, y),
{
    lemma_same_dir(b, dir1, dir2);
    assert(x[48]->DispTris_0@ =~= y[48]->DispTris_0@);
}

} // verus!
