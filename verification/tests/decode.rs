use bsp_dump::decode;
use bsp_dump::error::DecodeError;
use bsp_dump::file_structure::{BSPVersion, Header};
use bsp_dump::lumps::lumptype::Lumps;
use bsp_dump::lumps::vbsp::VBSPLumpType;
use bsp_dump::reader::Reader;
use bsp_dump::{VBSP_MAGIC, IBSP_MAGIC, GOLDSRC_MAGIC};

fn put_u32(buf: &mut Vec<u8>, pos: usize, v: u32) {
    let b = v.to_le_bytes();
    buf[pos] = b[0];
    buf[pos + 1] = b[1];
    buf[pos + 2] = b[2];
    buf[pos + 3] = b[3];
}

/// A minimal well-formed primary-dialect file: a full header whose
/// count-prefixed lumps point at a zeroed tail region and whose
/// bounds-driven lumps are empty.
fn minimal_vbsp() -> Vec<u8> {
    let mut buf = vec![0u8; 1048];
    put_u32(&mut buf, 0, VBSP_MAGIC as u32);
    put_u32(&mut buf, 4, 19);
    // entities (0): blob starts on a zero byte
    put_u32(&mut buf, 8, 1036);
    // visibility (4): zero cluster count
    put_u32(&mut buf, 8 + 16 * 4, 1036);
    // occlusion (9): three zero counts
    put_u32(&mut buf, 8 + 16 * 9, 1036);
    // game lump (35): zero sub-lump count
    put_u32(&mut buf, 8 + 16 * 35, 1036);
    buf
}

#[test]
fn vbsp_magic_selects_primary_dialect() {
    let doc = decode(minimal_vbsp()).unwrap();
    assert!(matches!(doc.header.bspver, BSPVersion::VBSP));
    assert_eq!(doc.header.ident, VBSP_MAGIC);
    assert_eq!(doc.header.version, 19);
    assert_eq!(doc.header.map_revision, 0);
    match &doc.lump_data {
        Lumps::VBSP(ld) => {
            assert_eq!(ld.len(), 64);
            assert!(matches!(&ld[0], VBSPLumpType::Entities(v) if v.is_empty()));
            assert!(matches!(&ld[1], VBSPLumpType::Planes(v) if v.is_empty()));
            assert!(matches!(&ld[15], VBSPLumpType::Unparsed));
            assert!(matches!(&ld[22], VBSPLumpType::Unused22));
            assert!(matches!(&ld[29], VBSPLumpType::PhysCollide(v) if v.is_empty()));
            assert!(matches!(&ld[63], VBSPLumpType::Unparsed));
        },
        _ => panic!("expected a primary-dialect lump table"),
    }
}

#[test]
fn goldsrc_magic_selects_legacy_dialect() {
    let mut buf = vec![0u8; 124];
    put_u32(&mut buf, 0, GOLDSRC_MAGIC as u32);
    let doc = decode(buf).unwrap();
    assert!(matches!(doc.header.bspver, BSPVersion::GoldSrc));
    assert!(matches!(&doc.lump_data, Lumps::GoldSrc(v) if v.is_empty()));
    assert_eq!(doc.header.lumps.len(), 64);
}

#[test]
fn unknown_magic_is_unsupported_format() {
    let mut buf = vec![0u8; 1048];
    put_u32(&mut buf, 0, 0xDEADBEEF);
    match decode(buf) {
        Err(DecodeError::UnsupportedFormat { magic }) => {
            assert_eq!(magic as u32, 0xDEADBEEF);
        },
        other => panic!("expected UnsupportedFormat, got {:?}", other),
    }
}

#[test]
fn ibsp_magic_is_unsupported_format() {
    let mut buf = vec![0u8; 1048];
    put_u32(&mut buf, 0, IBSP_MAGIC as u32);
    match decode(buf) {
        Err(DecodeError::UnsupportedFormat { magic }) => {
            assert_eq!(magic, IBSP_MAGIC);
        },
        other => panic!("expected UnsupportedFormat, got {:?}", other),
    }
}

#[test]
fn file_shorter_than_magic_is_out_of_bounds() {
    match decode(vec![1, 2, 3]) {
        Err(DecodeError::OutOfBounds { lump, position, wanted }) => {
            assert_eq!((lump, position, wanted), (0, 0, 4));
        },
        other => panic!("expected OutOfBounds, got {:?}", other),
    }
}

#[test]
fn truncated_header_is_out_of_bounds() {
    let mut buf = vec![0u8; 100];
    put_u32(&mut buf, 0, VBSP_MAGIC as u32);
    assert!(matches!(decode(buf), Err(DecodeError::OutOfBounds { .. })));
}

#[test]
fn directory_round_trip_preserves_every_field() {
    let mut buf = minimal_vbsp();
    // overwrite entries 2 and 50 with distinctive fields
    for &i in &[2usize, 50] {
        let p = 8 + 16 * i;
        put_u32(&mut buf, p, (1000 + i) as u32);
        put_u32(&mut buf, p + 4, 0); // keep lumps empty so decoding still works
        put_u32(&mut buf, p + 8, (3 * i) as u32);
        buf[p + 12] = b'L';
        buf[p + 13] = b'Z';
        buf[p + 14] = b'M';
        buf[p + 15] = b'A';
    }
    let mut reader = Reader::new(buf);
    let mut header = Header::new();
    bsp_dump::parse::parse_header(&mut reader, &mut header).unwrap();
    assert_eq!(header.lumps.len(), 64);
    for (i, e) in header.lumps.iter().enumerate() {
        assert_eq!(e.index as usize, i);
        if i == 2 || i == 50 {
            assert_eq!(e.file_offset as usize, 1000 + i);
            assert_eq!(e.length, 0);
            assert_eq!(e.version as usize, 3 * i);
            assert_eq!(&e.ident, b"LZMA");
        }
    }
    assert_eq!(reader.index, 1036);
}

#[test]
fn malformed_entity_text_aborts_the_decode() {
    let mut buf = minimal_vbsp();
    buf.extend_from_slice(b"junkline\0");
    // point the entity lump at text whose only line has no key/value split
    put_u32(&mut buf, 8, 1048);
    match decode(buf) {
        Err(DecodeError::MalformedText { lump, .. }) => assert_eq!(lump, 0),
        other => panic!("expected MalformedText, got {:?}", other),
    }
}

#[test]
fn decoding_twice_gives_equal_documents() {
    let buf = minimal_vbsp();
    let d1 = decode(buf.clone()).unwrap();
    let d2 = decode(buf).unwrap();
    assert_eq!(d1, d2);
}

#[test]
fn decoded_entities_preserve_order_and_duplicate_keys() {
    let mut buf = minimal_vbsp();
    let blob = b"{\n\"classname\" \"info_player_start\"\n}\n{\n\"classname\" \"light\"\n\"_light\" \"255 255 255 200\"\n}\n\0";
    buf.extend_from_slice(blob);
    put_u32(&mut buf, 8, 1048);
    let doc = decode(buf).unwrap();
    match &doc.lump_data {
        Lumps::VBSP(ld) => match &ld[0] {
            VBSPLumpType::Entities(ents) => {
                assert_eq!(ents.len(), 2);
                assert_eq!(ents[0].len(), 1);
                assert_eq!(ents[0][0].0, "classname");
                assert_eq!(ents[0][0].1, "info_player_start");
                assert_eq!(ents[1].len(), 2);
                assert_eq!(ents[1][0], ("classname".to_string(), "light".to_string()));
                assert_eq!(ents[1][1], ("_light".to_string(), "255 255 255 200".to_string()));
            },
            other => panic!("expected entities, got {:?}", other),
        },
        _ => panic!("expected a primary-dialect lump table"),
    }
}

#[test]
fn planes_lump_records_decode_field_for_field() {
    let mut buf = minimal_vbsp();
    let start = buf.len() as u32;
    // one 20-byte plane record: normal bits, dist bits, plane type
    buf.extend_from_slice(&1.0f32.to_bits().to_le_bytes());
    buf.extend_from_slice(&0.0f32.to_bits().to_le_bytes());
    buf.extend_from_slice(&0.5f32.to_bits().to_le_bytes());
    buf.extend_from_slice(&64.25f32.to_bits().to_le_bytes());
    buf.extend_from_slice(&3i32.to_le_bytes());
    put_u32(&mut buf, 8 + 16, start);
    put_u32(&mut buf, 8 + 16 + 4, 20);
    let doc = decode(buf).unwrap();
    match &doc.lump_data {
        Lumps::VBSP(ld) => match &ld[1] {
            VBSPLumpType::Planes(planes) => {
                assert_eq!(planes.len(), 1);
                assert_eq!(planes[0].normal.x, 1.0f32.to_bits());
                assert_eq!(planes[0].normal.y, 0.0f32.to_bits());
                assert_eq!(planes[0].normal.z, 0.5f32.to_bits());
                assert_eq!(planes[0].dist, 64.25f32.to_bits());
                assert_eq!(planes[0].plane_type, 3);
            },
            other => panic!("expected planes, got {:?}", other),
        },
        _ => panic!("expected a primary-dialect lump table"),
    }
}
