pub mod lumpdec;
pub mod records;

use vstd::prelude::*;

use crate::error::{DecodeError, attach_lump};
use crate::file_structure::{
    BSPVersion, Header, LumpInfo, lumpinfo_vbsp_matches, lumpinfo_goldsrc_matches, lumpinfo_is_new,
    header_matches, header_ok, VBSP_HEADER_SIZE, GOLDSRC_HEADER_SIZE,
};
use crate::reader::{Reader, le_i32};
use crate::lumps::vbsp::VBSPLumpType;

verus! {

/// Detect the dialect from the 4-byte magic value and read the
/// dialect-specific header: container version and map revision where the
/// dialect has them, and the whole lump directory.  Succeeds exactly when
/// the magic is a known dialect and the buffer holds the complete header;
/// an unknown magic fails with `UnsupportedFormat`, a buffer too short for
/// the header fails with `OutOfBounds`.  On failure the header is left as it
/// was.
pub fn parse_header(reader: &mut Reader, header: &mut Header) -> (r: Result<(), DecodeError>)
    requires
        old(reader).index == 0,
    ensures
        final(reader).bytes == old(reader).bytes,
        ({
            let b = old(reader).bytes@;
            &&& (r is Ok <==> header_ok(b))
            &&& (r is Ok ==> header_matches(b, *final(header)))
            &&& (r is Ok && le_i32(b, 0) == crate::VBSP_MAGIC ==> final(reader).index
                == VBSP_HEADER_SIZE)
            &&& (r is Ok && le_i32(b, 0) == crate::GOLDSRC_MAGIC ==> final(reader).index
                == GOLDSRC_HEADER_SIZE)
            &&& (r is Err ==> *final(header) == *old(header))
            &&& (b.len() < 4 ==> r == Err::<(), DecodeError>(
                DecodeError::OutOfBounds { lump: 0, position: 0, wanted: 4 },
            ))
            &&& (b.len() >= 4 && le_i32(b, 0) != crate::VBSP_MAGIC && le_i32(b, 0)
                != crate::GOLDSRC_MAGIC ==> r == Err::<(), DecodeError>(
                DecodeError::UnsupportedFormat { magic: le_i32(b, 0) },
            ))
            &&& (r matches Err(e) ==> e is UnsupportedFormat || e is OutOfBounds)
        }),
{
    let ghost b = reader.bytes@;
    let ident = match reader.read_int() {
        Ok(v) => v,
        Err(e) => {
            return Err(attach_lump(e, 0));
        },
    };
    if ident == crate::VBSP_MAGIC {
        let version = match reader.read_int() {
            Ok(v) => v,
            Err(e) => {
                return Err(attach_lump(e, 0));
            },
        };
        let mut lumps: Vec<LumpInfo> = Vec::new();
        let mut i: usize = 0;
        while i < 64
            invariant
                reader.bytes == old(reader).bytes,
                b == old(reader).bytes@,
                i <= 64,
                lumps@.len() == i,
                reader.index == 8 + 16 * i,
                8 + 16 * i <= b.len(),
                le_i32(b, 0) == crate::VBSP_MAGIC,
                forall|k: int| 0 <= k < i ==> lumpinfo_vbsp_matches(b, k, #[trigger] lumps@[k]),
            decreases 64 - i,
        {
            let file_offset = match reader.read_uint() {
                Ok(v) => v,
                Err(e) => {
                    return Err(attach_lump(e, i as u8));
                },
            };
            let length = match reader.read_uint() {
                Ok(v) => v,
                Err(e) => {
                    return Err(attach_lump(e, i as u8));
                },
            };
            let version = match reader.read_uint() {
                Ok(v) => v,
                Err(e) => {
                    return Err(attach_lump(e, i as u8));
                },
            };
            let i0 = match reader.read_byte() {
                Ok(v) => v,
                Err(e) => {
                    return Err(attach_lump(e, i as u8));
                },
            };
            let i1 = match reader.read_byte() {
                Ok(v) => v,
                Err(e) => {
                    return Err(attach_lump(e, i as u8));
                },
            };
            let i2 = match reader.read_byte() {
                Ok(v) => v,
                Err(e) => {
                    return Err(attach_lump(e, i as u8));
                },
            };
            let i3 = match reader.read_byte() {
                Ok(v) => v,
                Err(e) => {
                    return Err(attach_lump(e, i as u8));
                },
            };
            lumps.push(
                LumpInfo {
                    file_offset,
                    length,
                    version,
                    ident: [i0, i1, i2, i3],
                    index: i as u8,
                },
            );
            i = i + 1;
        }
        let map_revision = match reader.read_int() {
            Ok(v) => v,
            Err(e) => {
                return Err(attach_lump(e, 63));
            },
        };
        *header = Header { bspver: BSPVersion::VBSP, ident, version, lumps, map_revision };
        Ok(())
    } else if ident == crate::GOLDSRC_MAGIC {
        let mut lumps: Vec<LumpInfo> = Vec::new();
        let mut i: usize = 0;
        while i < 15
            invariant
                reader.bytes == old(reader).bytes,
                b == old(reader).bytes@,
                i <= 15,
                lumps@.len() == i,
                reader.index == 4 + 8 * i,
                4 + 8 * i <= b.len(),
                le_i32(b, 0) == crate::GOLDSRC_MAGIC,
                forall|k: int| 0 <= k < i ==> lumpinfo_goldsrc_matches(b, k, #[trigger] lumps@[k]),
            decreases 15 - i,
        {
            let file_offset = match reader.read_uint() {
                Ok(v) => v,
                Err(e) => {
                    return Err(attach_lump(e, i as u8));
                },
            };
            let length = match reader.read_uint() {
                Ok(v) => v,
                Err(e) => {
                    return Err(attach_lump(e, i as u8));
                },
            };
            lumps.push(
                LumpInfo { file_offset, length, version: 0, ident: [0, 0, 0, 0], index: i as u8 },
            );
            i = i + 1;
        }
        while i < 64
            invariant
                reader.bytes == old(reader).bytes,
                b == old(reader).bytes@,
                15 <= i <= 64,
                lumps@.len() == i,
                reader.index == GOLDSRC_HEADER_SIZE,
                b.len() >= GOLDSRC_HEADER_SIZE,
                le_i32(b, 0) == crate::GOLDSRC_MAGIC,
                forall|k: int| 0 <= k < 15 ==> lumpinfo_goldsrc_matches(b, k, #[trigger] lumps@[k]),
                forall|k: int| 15 <= k < i ==> lumpinfo_is_new(#[trigger] lumps@[k]),
            decreases 64 - i,
        {
            lumps.push(LumpInfo::new());
            i = i + 1;
        }
        *header = Header {
            bspver: BSPVersion::GoldSrc,
            ident,
            version: 0,
            lumps,
            map_revision: 0,
        };
        Ok(())
    } else {
        Err(DecodeError::UnsupportedFormat { magic: ident })
    }
}

/// Directory entry `i` as the primary-dialect header stores it in `b`.
pub open spec fn vbsp_dir_entry(b: Seq<u8>, i: int) -> LumpInfo {
    LumpInfo {
        file_offset: crate::reader::le_u32(b, 8 + 16 * i),
        length: crate::reader::le_u32(b, 8 + 16 * i + 4),
        version: crate::reader::le_u32(b, 8 + 16 * i + 8),
        ident: [b[8 + 16 * i + 12], b[8 + 16 * i + 13], b[8 + 16 * i + 14], b[8 + 16 * i + 15]],
        index: i as u8,
    }
}

/// The whole primary-dialect directory as stored in `b`.
pub open spec fn vbsp_dir(b: Seq<u8>) -> Seq<LumpInfo> {
    Seq::new(64, |i: int| vbsp_dir_entry(b, i))
}

/// The whole file decodes: the header region is complete and, for the
/// primary dialect, every implemented lump decodes under the stored
/// directory.  (The legacy dialect has no lump decoder yet: its document
/// carries an empty lump table, so only its header must be complete.)
pub open spec fn decode_ok(b: Seq<u8>) -> bool {
    &&& header_ok(b)
    &&& (le_i32(b, 0) == crate::VBSP_MAGIC ==> crate::parse::lumpdec::vbsp_lumps_ok(
        b,
        vbsp_dir(b),
    ))
}

/// `doc` is the document decoded from `b`: its header holds the stored
/// header fields and directory, and its lump table holds the decoded lumps
/// of its dialect.
pub open spec fn doc_matches(b: Seq<u8>, doc: crate::file_structure::BSPFile) -> bool {
    &&& header_matches(b, doc.header)
    &&& (if le_i32(b, 0) == crate::VBSP_MAGIC {
        &&& doc.lump_data matches crate::lumps::lumptype::Lumps::VBSP(ld)
        &&& crate::parse::lumpdec::vbsp_lumps_match(b, doc.header.lumps@, doc.lump_data->VBSP_0@)
    } else {
        &&& doc.lump_data matches crate::lumps::lumptype::Lumps::GoldSrc(ld)
        &&& doc.lump_data->GoldSrc_0@.len() == 0
    })
}

/// Decode lumps 0 through 15 in directory order, appending one
/// entry per index.
#[verifier::rlimit(100)]
#[verifier::spinoff_prover]
fn parse_vbsp_lumps_a(
    reader: &mut Reader,
    lump_info: &Vec<LumpInfo>,
    lump_data: &mut Vec<VBSPLumpType>,
) -> (r: Result<(), DecodeError>)
    requires
        lump_info@.len() == 64,
        old(lump_data)@.len() == 0,
    ensures
        final(reader).bytes == old(reader).bytes,
        ({
            let b = old(reader).bytes@;
            &&& (r is Ok <==> crate::parse::lumpdec::vbsp_lumps_ok_a(b, lump_info@))
            &&& (r is Ok ==> {
                &&& final(lump_data)@.len() == 16
                &&& final(lump_data)@.subrange(0, 0) == old(lump_data)@
                &&& crate::parse::lumpdec::vbsp_lumps_match_a(
                    b,
                    lump_info@,
                    final(lump_data)@,
                )
            })
            &&& (r matches Err(e) ==> e is OutOfBounds || e is MalformedText)
        }),
{
    let ghost b = reader.bytes@;
    let ghost ld0 = lump_data@;
    let inf0 = lump_info[0];
    let ents = match crate::parse::lumpdec::parse_entities(reader, &inf0) {
        Ok(x) => x,
        Err(e) => {
            return Err(e);
        },
    };
    lump_data.push(VBSPLumpType::Entities(ents));
    let inf1 = lump_info[1];
    let l1 = match crate::parse::lumpdec::parse_planes(reader, &inf1) {
        Ok(x) => x,
        Err(e) => {
            return Err(e);
        },
    };
    lump_data.push(VBSPLumpType::Planes(l1));
    let inf2 = lump_info[2];
    let l2 = match crate::parse::lumpdec::parse_texdata(reader, &inf2) {
        Ok(x) => x,
        Err(e) => {
            return Err(e);
        },
    };
    lump_data.push(VBSPLumpType::TexData(l2));
    let inf3 = lump_info[3];
    let l3 = match crate::parse::lumpdec::parse_vertices(reader, &inf3) {
        Ok(x) => x,
        Err(e) => {
            return Err(e);
        },
    };
    lump_data.push(VBSPLumpType::Vertices(l3));
    let inf4 = lump_info[4];
    let l4 = match crate::parse::lumpdec::parse_visibility(reader, &inf4) {
        Ok(x) => x,
        Err(e) => {
            return Err(e);
        },
    };
    lump_data.push(VBSPLumpType::Visibility(l4));
    let inf5 = lump_info[5];
    let l5 = match crate::parse::lumpdec::parse_nodes(reader, &inf5) {
        Ok(x) => x,
        Err(e) => {
            return Err(e);
        },
    };
    lump_data.push(VBSPLumpType::Nodes(l5));
    let inf6 = lump_info[6];
    let l6 = match crate::parse::lumpdec::parse_texinfos(reader, &inf6) {
        Ok(x) => x,
        Err(e) => {
            return Err(e);
        },
    };
    lump_data.push(VBSPLumpType::TexInfo(l6));
    let inf7 = lump_info[7];
    let l7 = match crate::parse::lumpdec::parse_faces(reader, &inf7) {
        Ok(x) => x,
        Err(e) => {
            return Err(e);
        },
    };
    lump_data.push(VBSPLumpType::Faces(l7));
    let inf8 = lump_info[8];
    let l8 = match crate::parse::lumpdec::parse_lighting(reader, &inf8) {
        Ok(x) => x,
        Err(e) => {
            return Err(e);
        },
    };
    lump_data.push(VBSPLumpType::Lighting(l8));
    let inf9 = lump_info[9];
    let l9 = match crate::parse::lumpdec::parse_occlusion(reader, &inf9) {
        Ok(x) => x,
        Err(e) => {
            return Err(e);
        },
    };
    lump_data.push(VBSPLumpType::Occlusion(l9));
    let inf10 = lump_info[10];
    let l10 = match crate::parse::lumpdec::parse_leaves(reader, &inf10) {
        Ok(x) => x,
        Err(e) => {
            return Err(e);
        },
    };
    lump_data.push(VBSPLumpType::Leaves(l10));
    let inf11 = lump_info[11];
    let l11 = match crate::parse::lumpdec::parse_faceids(reader, &inf11) {
        Ok(x) => x,
        Err(e) => {
            return Err(e);
        },
    };
    lump_data.push(VBSPLumpType::FaceIDs(l11));
    let inf12 = lump_info[12];
    let l12 = match crate::parse::lumpdec::parse_edges(reader, &inf12) {
        Ok(x) => x,
        Err(e) => {
            return Err(e);
        },
    };
    lump_data.push(VBSPLumpType::Edges(l12));
    let inf13 = lump_info[13];
    let l13 = match crate::parse::lumpdec::parse_surfedges(reader, &inf13) {
        Ok(x) => x,
        Err(e) => {
            return Err(e);
        },
    };
    lump_data.push(VBSPLumpType::SurfEdges(l13));
    let inf14 = lump_info[14];
    let l14 = match crate::parse::lumpdec::parse_models(reader, &inf14) {
        Ok(x) => x,
        Err(e) => {
            return Err(e);
        },
    };
    lump_data.push(VBSPLumpType::Models(l14));
    lump_data.push(VBSPLumpType::Unparsed);
    proof {
        assert(lump_data@.subrange(0, 0) =~= ld0);
    }
    Ok(())
}

/// Decode lumps 16 through 31 in directory order, appending one
/// entry per index.
#[verifier::rlimit(100)]
#[verifier::spinoff_prover]
fn parse_vbsp_lumps_b(
    reader: &mut Reader,
    lump_info: &Vec<LumpInfo>,
    lump_data: &mut Vec<VBSPLumpType>,
) -> (r: Result<(), DecodeError>)
    requires
        lump_info@.len() == 64,
        old(lump_data)@.len() == 16,
    ensures
        final(reader).bytes == old(reader).bytes,
        ({
            let b = old(reader).bytes@;
            &&& (r is Ok <==> crate::parse::lumpdec::vbsp_lumps_ok_b(b, lump_info@))
            &&& (r is Ok ==> {
                &&& final(lump_data)@.len() == 32
                &&& final(lump_data)@.subrange(0, 16) == old(lump_data)@
                &&& crate::parse::lumpdec::vbsp_lumps_match_b(
                    b,
                    lump_info@,
                    final(lump_data)@,
                )
            })
            &&& (r matches Err(e) ==> e is OutOfBounds || e is MalformedText)
        }),
{
    let ghost b = reader.bytes@;
    let ghost ld0 = lump_data@;
    lump_data.push(VBSPLumpType::Unparsed);
    lump_data.push(VBSPLumpType::Unparsed);
    let inf18 = lump_info[18];
    let l18 = match crate::parse::lumpdec::parse_brushes(reader, &inf18) {
        Ok(x) => x,
        Err(e) => {
            return Err(e);
        },
    };
    lump_data.push(VBSPLumpType::Brushes(l18));
    let inf19 = lump_info[19];
    let l19 = match crate::parse::lumpdec::parse_brushsides(reader, &inf19) {
        Ok(x) => x,
        Err(e) => {
            return Err(e);
        },
    };
    lump_data.push(VBSPLumpType::BrushSides(l19));
    let inf20 = lump_info[20];
    let l20 = match crate::parse::lumpdec::parse_areas(reader, &inf20) {
        Ok(x) => x,
        Err(e) => {
            return Err(e);
        },
    };
    lump_data.push(VBSPLumpType::Areas(l20));
    let inf21 = lump_info[21];
    let l21 = match crate::parse::lumpdec::parse_areaportals(reader, &inf21) {
        Ok(x) => x,
        Err(e) => {
            return Err(e);
        },
    };
    lump_data.push(VBSPLumpType::AreaPortals(l21));
    lump_data.push(VBSPLumpType::Unused22);
    lump_data.push(VBSPLumpType::Unused23);
    lump_data.push(VBSPLumpType::Unused24);
    lump_data.push(VBSPLumpType::Unused25);
    let inf26 = lump_info[26];
    let l26 = match crate::parse::lumpdec::parse_dispinfos(reader, &inf26) {
        Ok(x) => x,
        Err(e) => {
            return Err(e);
        },
    };
    lump_data.push(VBSPLumpType::DispInfo(l26));
    let inf27 = lump_info[27];
    let l27 = match crate::parse::lumpdec::parse_originalfaces(reader, &inf27) {
        Ok(x) => x,
        Err(e) => {
            return Err(e);
        },
    };
    lump_data.push(VBSPLumpType::OriginalFaces(l27));
    let inf28 = lump_info[28];
    let l28 = match crate::parse::lumpdec::parse_phydisps(reader, &inf28) {
        Ok(x) => x,
        Err(e) => {
            return Err(e);
        },
    };
    lump_data.push(VBSPLumpType::PhyDisp(l28));
    let inf29 = lump_info[29];
    let l29 = match crate::parse::lumpdec::parse_physcollide(reader, &inf29) {
        Ok(x) => x,
        Err(e) => {
            return Err(e);
        },
    };
    lump_data.push(VBSPLumpType::PhysCollide(l29));
    let inf30 = lump_info[30];
    let l30 = match crate::parse::lumpdec::parse_vertnormals(reader, &inf30) {
        Ok(x) => x,
        Err(e) => {
            return Err(e);
        },
    };
    lump_data.push(VBSPLumpType::VertNormal(l30));
    let inf31 = lump_info[31];
    let l31 = match crate::parse::lumpdec::parse_vertnormalindices(reader, &inf31) {
        Ok(x) => x,
        Err(e) => {
            return Err(e);
        },
    };
    lump_data.push(VBSPLumpType::VertNormalIndices(l31));
    proof {
        assert(lump_data@.subrange(0, 16) =~= ld0);
    }
    Ok(())
}

/// Decode lumps 32 through 47 in directory order, appending one
/// entry per index.
#[verifier::rlimit(100)]
#[verifier::spinoff_prover]
fn parse_vbsp_lumps_c(
    reader: &mut Reader,
    lump_info: &Vec<LumpInfo>,
    lump_data: &mut Vec<VBSPLumpType>,
) -> (r: Result<(), DecodeError>)
    requires
        lump_info@.len() == 64,
        old(lump_data)@.len() == 32,
    ensures
        final(reader).bytes == old(reader).bytes,
        ({
            let b = old(reader).bytes@;
            &&& (r is Ok <==> crate::parse::lumpdec::vbsp_lumps_ok_c(b, lump_info@))
            &&& (r is Ok ==> {
                &&& final(lump_data)@.len() == 48
                &&& final(lump_data)@.subrange(0, 32) == old(lump_data)@
                &&& crate::parse::lumpdec::vbsp_lumps_match_c(
                    b,
                    lump_info@,
                    final(lump_data)@,
                )
            })
            &&& (r matches Err(e) ==> e is OutOfBounds || e is MalformedText)
        }),
{
    let ghost b = reader.bytes@;
    let ghost ld0 = lump_data@;
    lump_data.push(VBSPLumpType::Unparsed);
    let inf33 = lump_info[33];
    let l33 = match crate::parse::lumpdec::parse_dispverts(reader, &inf33) {
        Ok(x) => x,
        Err(e) => {
            return Err(e);
        },
    };
    lump_data.push(VBSPLumpType::DispVerts(l33));
    let inf34 = lump_info[34];
    let l34 = match crate::parse::lumpdec::parse_displightmapsamplepositions(reader, &inf34) {
        Ok(x) => x,
        Err(e) => {
            return Err(e);
        },
    };
    lump_data.push(VBSPLumpType::DispLightmapSamplePositions(l34));
    let inf35 = lump_info[35];
    let l35 = match crate::parse::lumpdec::parse_gamelump(reader, &inf35) {
        Ok(x) => x,
        Err(e) => {
            return Err(e);
        },
    };
    lump_data.push(VBSPLumpType::GameLump(l35));
    lump_data.push(VBSPLumpType::Unparsed);
    let inf37 = lump_info[37];
    let l37 = match crate::parse::lumpdec::parse_primitives(reader, &inf37) {
        Ok(x) => x,
        Err(e) => {
            return Err(e);
        },
    };
    lump_data.push(VBSPLumpType::Primitives(l37));
    let inf38 = lump_info[38];
    let l38 = match crate::parse::lumpdec::parse_primverts(reader, &inf38) {
        Ok(x) => x,
        Err(e) => {
            return Err(e);
        },
    };
    lump_data.push(VBSPLumpType::PrimVerts(l38));
    let inf39 = lump_info[39];
    let l39 = match crate::parse::lumpdec::parse_primindices(reader, &inf39) {
        Ok(x) => x,
        Err(e) => {
            return Err(e);
        },
    };
    lump_data.push(VBSPLumpType::PrimIndices(l39));
    let inf40 = lump_info[40];
    let l40 = match crate::parse::lumpdec::parse_pakfile(reader, &inf40) {
        Ok(x) => x,
        Err(e) => {
            return Err(e);
        },
    };
    lump_data.push(VBSPLumpType::PakFile(l40));
    let inf41 = lump_info[41];
    let l41 = match crate::parse::lumpdec::parse_clipportalverts(reader, &inf41) {
        Ok(x) => x,
        Err(e) => {
            return Err(e);
        },
    };
    lump_data.push(VBSPLumpType::ClipPortalVerts(l41));
    let inf42 = lump_info[42];
    let l42 = match crate::parse::lumpdec::parse_cubemaps(reader, &inf42) {
        Ok(x) => x,
        Err(e) => {
            return Err(e);
        },
    };
    lump_data.push(VBSPLumpType::Cubemaps(l42));
    let inf43 = lump_info[43];
    let l43 = match crate::parse::lumpdec::parse_texdatastringdata(reader, &inf43) {
        Ok(x) => x,
        Err(e) => {
            return Err(e);
        },
    };
    lump_data.push(VBSPLumpType::TexDataStringData(l43));
    let inf44 = lump_info[44];
    let l44 = match crate::parse::lumpdec::parse_texdatastringtable(reader, &inf44) {
        Ok(x) => x,
        Err(e) => {
            return Err(e);
        },
    };
    lump_data.push(VBSPLumpType::TexDataStringTable(l44));
    let inf45 = lump_info[45];
    let l45 = match crate::parse::lumpdec::parse_overlays(reader, &inf45) {
        Ok(x) => x,
        Err(e) => {
            return Err(e);
        },
    };
    lump_data.push(VBSPLumpType::Overlays(l45));
    let inf46 = lump_info[46];
    let l46 = match crate::parse::lumpdec::parse_leafmindisttowater(reader, &inf46) {
        Ok(x) => x,
        Err(e) => {
            return Err(e);
        },
    };
    lump_data.push(VBSPLumpType::LeafMinDistToWater(l46));
    let inf47 = lump_info[47];
    let l47 = match crate::parse::lumpdec::parse_facemacrotextureinfo(reader, &inf47) {
        Ok(x) => x,
        Err(e) => {
            return Err(e);
        },
    };
    lump_data.push(VBSPLumpType::FaceMacroTextureInfo(l47));
    proof {
        assert(lump_data@.subrange(0, 32) =~= ld0);
    }
    Ok(())
}

/// Decode lumps 48 through 63 in directory order, appending one
/// entry per index.
#[verifier::rlimit(100)]
#[verifier::spinoff_prover]
fn parse_vbsp_lumps_d(
    reader: &mut Reader,
    lump_info: &Vec<LumpInfo>,
    lump_data: &mut Vec<VBSPLumpType>,
) -> (r: Result<(), DecodeError>)
    requires
        lump_info@.len() == 64,
        old(lump_data)@.len() == 48,
    ensures
        final(reader).bytes == old(reader).bytes,
        ({
            let b = old(reader).bytes@;
            &&& (r is Ok <==> crate::parse::lumpdec::vbsp_lumps_ok_d(b, lump_info@))
            &&& (r is Ok ==> {
                &&& final(lump_data)@.len() == 64
                &&& final(lump_data)@.subrange(0, 48) == old(lump_data)@
                &&& crate::parse::lumpdec::vbsp_lumps_match_d(
                    b,
                    lump_info@,
                    final(lump_data)@,
                )
            })
            &&& (r matches Err(e) ==> e is OutOfBounds || e is MalformedText)
        }),
{
    let ghost b = reader.bytes@;
    let ghost ld0 = lump_data@;
    let inf48 = lump_info[48];
    let l48 = match crate::parse::lumpdec::parse_disptris(reader, &inf48) {
        Ok(x) => x,
        Err(e) => {
            return Err(e);
        },
    };
    lump_data.push(VBSPLumpType::DispTris(l48));
    lump_data.push(VBSPLumpType::Unparsed);
    lump_data.push(VBSPLumpType::Unparsed);
    lump_data.push(VBSPLumpType::Unparsed);
    lump_data.push(VBSPLumpType::Unparsed);
    lump_data.push(VBSPLumpType::Unparsed);
    lump_data.push(VBSPLumpType::Unparsed);
    lump_data.push(VBSPLumpType::Unparsed);
    lump_data.push(VBSPLumpType::Unparsed);
    lump_data.push(VBSPLumpType::Unparsed);
    lump_data.push(VBSPLumpType::Unparsed);
    lump_data.push(VBSPLumpType::Unparsed);
    lump_data.push(VBSPLumpType::Unparsed);
    lump_data.push(VBSPLumpType::Unparsed);
    lump_data.push(VBSPLumpType::Unparsed);
    lump_data.push(VBSPLumpType::Unparsed);
    proof {
        assert(forall|i: int| 49 <= i < 64 ==> lump_data@[i] == VBSPLumpType::Unparsed);
    }
    proof {
        assert(lump_data@.subrange(0, 48) =~= ld0);
    }
    Ok(())
}

/// Decode every primary-dialect lump in directory order, appending one
/// decoded lump per index to `lump_data`: the decoded records for each
/// implemented lump, and an explicit unparsed placeholder for each index
/// whose layout is not implemented.  Succeeds exactly when every implemented
/// lump decodes under its directory entry.
#[verifier::rlimit(100)]
#[verifier::spinoff_prover]
pub fn parse_vbsp_data_lumps(
    reader: &mut Reader,
    lump_info: &Vec<LumpInfo>,
    lump_data: &mut Vec<VBSPLumpType>,
) -> (r: Result<(), DecodeError>)
    requires
        lump_info@.len() == 64,
        old(lump_data)@.len() == 0,
    ensures
        final(reader).bytes == old(reader).bytes,
        ({
            let b = old(reader).bytes@;
            &&& (r is Ok <==> crate::parse::lumpdec::vbsp_lumps_ok(b, lump_info@))
            &&& (r is Ok ==> crate::parse::lumpdec::vbsp_lumps_match(
                b,
                lump_info@,
                final(lump_data)@,
            ))
            &&& (r matches Err(e) ==> e is OutOfBounds || e is MalformedText)
        }),
{
    let ghost b = reader.bytes@;
    match parse_vbsp_lumps_a(reader, lump_info, lump_data) {
        Ok(u) => u,
        Err(e) => {
            return Err(e);
        },
    };
    let ghost ld_a = lump_data@;
    match parse_vbsp_lumps_b(reader, lump_info, lump_data) {
        Ok(u) => u,
        Err(e) => {
            return Err(e);
        },
    };
    let ghost ld_b = lump_data@;
    match parse_vbsp_lumps_c(reader, lump_info, lump_data) {
        Ok(u) => u,
        Err(e) => {
            return Err(e);
        },
    };
    let ghost ld_c = lump_data@;
    match parse_vbsp_lumps_d(reader, lump_info, lump_data) {
        Ok(u) => u,
        Err(e) => {
            return Err(e);
        },
    };
    proof {
        assert(forall|i: int| 0 <= i < 16 ==> lump_data@[i] == ld_a[i]);
        assert(forall|i: int| 0 <= i < 32 ==> lump_data@[i] == ld_b[i]);
        assert(forall|i: int| 0 <= i < 48 ==> lump_data@[i] == ld_c[i]);
        assert(crate::parse::lumpdec::vbsp_lumps_match_a(b, lump_info@, lump_data@));
        assert(crate::parse::lumpdec::vbsp_lumps_match_b(b, lump_info@, lump_data@));
        assert(crate::parse::lumpdec::vbsp_lumps_match_c(b, lump_info@, lump_data@));
    }
    Ok(())
}

/// Decode the legacy-dialect lumps.  No record decoder for this dialect is
/// implemented yet: the lump table is left as it is.
pub fn parse_goldsrc_data_lumps(
    reader: &mut Reader,
    lump_info: &Vec<LumpInfo>,
    lump_data: &mut Vec<crate::lumps::goldsrc::GoldSrcLumpType>,
) -> (r: Result<(), DecodeError>)
    ensures
        final(reader).bytes == old(reader).bytes,
        final(reader).index == old(reader).index,
        final(lump_data)@ == old(lump_data)@,
        r is Ok,
{
    Ok(())
}

/// Decode a whole file: detect the dialect, read the header and the lump
/// directory, then decode every lump in directory order.  Succeeds exactly
/// when the header is complete and every implemented lump decodes; an
/// unknown magic value fails with `UnsupportedFormat` and no partial
/// document is ever returned.
#[verifier::rlimit(100)]
#[verifier::spinoff_prover]
pub fn parse_file(reader: &mut Reader) -> (r: Result<
    crate::file_structure::BSPFile,
    DecodeError,
>)
    requires
        old(reader).index == 0,
    ensures
        final(reader).bytes == old(reader).bytes,
        ({
            let b = old(reader).bytes@;
            &&& (r is Ok <==> decode_ok(b))
            &&& (r matches Ok(doc) ==> doc_matches(b, doc))
            &&& (b.len() < 4 ==> r == Err::<crate::file_structure::BSPFile, DecodeError>(
                DecodeError::OutOfBounds { lump: 0, position: 0, wanted: 4 },
            ))
            &&& (b.len() >= 4 && le_i32(b, 0) != crate::VBSP_MAGIC && le_i32(b, 0)
                != crate::GOLDSRC_MAGIC ==> r == Err::<
                crate::file_structure::BSPFile,
                DecodeError,
            >(DecodeError::UnsupportedFormat { magic: le_i32(b, 0) }))
        }),
{
    let ghost b = reader.bytes@;
    let mut header = Header::new();
    match parse_header(reader, &mut header) {
        Ok(u) => u,
        Err(e) => {
            return Err(e);
        },
    };
    if header.ident == crate::VBSP_MAGIC {
        let mut ld: Vec<VBSPLumpType> = Vec::new();
        match parse_vbsp_data_lumps(reader, &header.lumps, &mut ld) {
            Ok(u) => u,
            Err(e) => {
                proof {
                    lemma_vbsp_dir_fields(b, header.lumps@);
                }
                return Err(e);
            },
        };
        proof {
            lemma_vbsp_dir_fields(b, header.lumps@);
        }
        Ok(crate::file_structure::BSPFile { header, lump_data: crate::lumps::lumptype::Lumps::VBSP(ld) })
    } else {
        let mut ld: Vec<crate::lumps::goldsrc::GoldSrcLumpType> = Vec::new();
        match parse_goldsrc_data_lumps(reader, &header.lumps, &mut ld) {
            Ok(u) => u,
            Err(e) => {
                return Err(e);
            },
        };
        Ok(
            crate::file_structure::BSPFile {
                header,
                lump_data: crate::lumps::lumptype::Lumps::GoldSrc(ld),
            },
        )
    }
}

/// A primary-dialect directory read into a header agrees field-for-field
/// with the stored directory, so the implemented lumps decode under one
/// exactly when they decode under the other.
#[verifier::rlimit(100)]
#[verifier::spinoff_prover]
pub proof fn lemma_vbsp_dir_fields(b: Seq<u8>, dir: Seq<LumpInfo>)
    requires
        dir.len() == 64,
        forall|i: int| 0 <= i < 64 ==> lumpinfo_vbsp_matches(b, i, #[trigger] dir[i]),
    ensures
        crate::parse::lumpdec::vbsp_lumps_ok(b, dir) == crate::parse::lumpdec::vbsp_lumps_ok(
            b,
            vbsp_dir(b),
        ),
{
    assert(forall|i: int|
        0 <= i < 64 ==> (#[trigger] dir[i]).file_offset == vbsp_dir(b)[i].file_offset && dir[
            i
        ].length == vbsp_dir(b)[i].length && dir[i].version == vbsp_dir(b)[i].version);
}

} // verus!
