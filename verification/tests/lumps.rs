use bsp_dump::error::{ReadError, DecodeError};
use bsp_dump::file_structure::LumpInfo;
use bsp_dump::flags::{ContentsFlags, SurfaceFlags, DispTriFlags};
use bsp_dump::parse::lumpdec::{
    parse_leaves, parse_gamelump, parse_physcollide, parse_pakfile, parse_surfedges,
    parse_texdatastringdata,
};
use bsp_dump::reader::Reader;
use bsp_dump::specific::gamelump::GameLumpData;
use bsp_dump::specific::physcol_data::{ModelHeaders, parse_keydata_string};
use bsp_dump::specific::vis::decompress_vis;
use bsp_dump::utils::{parse_entity_string, int_to_gsrc_planetype, int_to_quake_texflag};

fn info(offset: u32, length: u32, version: u32, index: u8) -> LumpInfo {
    LumpInfo { file_offset: offset, length, version, ident: [0; 4], index }
}

#[test]
fn visibility_zero_run_skips_without_reading_the_tail() {
    // a zero byte then the repeat count 2 skips 16 clusters; the 0xFF byte
    // must never be read because the cursor already reached 16
    let bytes = vec![0x00, 0x02, 0xFF];
    let (bits, overrun) = decompress_vis(&bytes, 0, 16).unwrap();
    assert_eq!(bits, vec![false; 16]);
    assert!(!overrun);
}

#[test]
fn visibility_literal_byte_sets_bits_least_significant_first() {
    let bytes = vec![0b0000_0101, 0x01];
    let (bits, overrun) = decompress_vis(&bytes, 0, 16).unwrap();
    let mut expect = vec![false; 16];
    expect[0] = true;
    expect[2] = true;
    expect[8] = true;
    assert_eq!(bits, expect);
    assert!(!overrun);
}

#[test]
fn visibility_literal_overrun_truncates_and_is_flagged() {
    let bytes = vec![0b0000_0101];
    let (bits, overrun) = decompress_vis(&bytes, 0, 3).unwrap();
    assert_eq!(bits, vec![true, false, true]);
    assert!(overrun);
}

#[test]
fn visibility_exhausted_input_is_out_of_bounds() {
    let bytes: Vec<u8> = Vec::new();
    assert!(matches!(decompress_vis(&bytes, 0, 8), Err(ReadError::OutOfBounds { .. })));
}

#[test]
fn leaf_version_zero_consumes_ambient_samples() {
    // two version-0 leaves: 56 bytes each, consumed exactly
    let bytes = vec![0u8; 112];
    let mut reader = Reader::new(bytes);
    let leaves = parse_leaves(&mut reader, &info(0, 112, 0, 10)).unwrap();
    assert_eq!(leaves.len(), 2);
    assert!(leaves[0].ambient_lighting.is_some());
    assert_eq!(reader.index, 112);
}

#[test]
fn leaf_other_versions_consume_base_fields_only() {
    // two version-1 leaves: 32 bytes each, consumed exactly with no leftover
    let bytes = vec![0u8; 64];
    let mut reader = Reader::new(bytes);
    let leaves = parse_leaves(&mut reader, &info(0, 64, 1, 10)).unwrap();
    assert_eq!(leaves.len(), 2);
    assert!(leaves[0].ambient_lighting.is_none());
    assert_eq!(reader.index, 64);
}

#[test]
fn static_prop_name_slot_strips_null_and_padding() {
    let mut bytes = Vec::new();
    bytes.extend_from_slice(&1i32.to_le_bytes()); // sub-lump count
    bytes.extend_from_slice(&0x73707270i32.to_le_bytes()); // the recognized tag
    bytes.extend_from_slice(&0u16.to_le_bytes()); // flags
    bytes.extend_from_slice(&4u16.to_le_bytes()); // version
    bytes.extend_from_slice(&20i32.to_le_bytes()); // payload offset
    bytes.extend_from_slice(&0i32.to_le_bytes()); // payload length
    bytes.extend_from_slice(&1i32.to_le_bytes()); // dictionary count
    let mut slot = [0u8; 128];
    slot[..15].copy_from_slice(b"models/foo.mdl\0");
    bytes.extend_from_slice(&slot);
    bytes.extend_from_slice(&1i32.to_le_bytes()); // leaf count
    bytes.extend_from_slice(&7u16.to_le_bytes());
    bytes.extend_from_slice(&3i32.to_le_bytes()); // instance count
    let mut reader = Reader::new(bytes);
    let g = parse_gamelump(&mut reader, &info(0, 0, 0, 35)).unwrap();
    assert_eq!(g.header.lump_count, 1);
    assert_eq!(g.data.len(), 1);
    match &g.data[0] {
        GameLumpData::StaticProps(sp) => {
            assert_eq!(sp.dict.dict_entries, 1);
            assert_eq!(sp.dict.names, vec!["models/foo.mdl".to_string()]);
            assert_eq!(sp.leafs.leafs, vec![7]);
            assert_eq!(sp.num_entries, 3);
        },
        other => panic!("expected static props, got {:?}", other),
    }
}

#[test]
fn unrecognized_game_sub_lump_is_kept_as_unparsed() {
    let mut bytes = Vec::new();
    bytes.extend_from_slice(&1i32.to_le_bytes());
    bytes.extend_from_slice(&0x64707270i32.to_le_bytes()); // some other tag
    bytes.extend_from_slice(&0u16.to_le_bytes());
    bytes.extend_from_slice(&0u16.to_le_bytes());
    bytes.extend_from_slice(&20i32.to_le_bytes());
    bytes.extend_from_slice(&0i32.to_le_bytes());
    let mut reader = Reader::new(bytes);
    let g = parse_gamelump(&mut reader, &info(0, 0, 0, 35)).unwrap();
    assert_eq!(g.data, vec![GameLumpData::Unparsed]);
}

#[test]
fn physics_sentinel_ends_the_lump_with_zero_models() {
    let mut bytes = Vec::new();
    bytes.extend_from_slice(&(-1i32).to_le_bytes());
    bytes.extend_from_slice(&[0u8; 28]); // declared length promises more data
    let len = bytes.len() as u32;
    let mut reader = Reader::new(bytes);
    let models = parse_physcollide(&mut reader, &info(0, len, 0, 29)).unwrap();
    assert_eq!(models.len(), 0);
}

#[test]
fn physics_model_with_one_solid_decodes() {
    let keydata = b"solid {\n\"index\" \"0\"\n}\n\0";
    let mut bytes = Vec::new();
    bytes.extend_from_slice(&0i32.to_le_bytes()); // model index
    bytes.extend_from_slice(&0i32.to_le_bytes()); // data size
    bytes.extend_from_slice(&(keydata.len() as i32).to_le_bytes());
    bytes.extend_from_slice(&1i32.to_le_bytes()); // solid count
    // collision header with model type 1: the minimal sub-header follows
    bytes.extend_from_slice(&2i32.to_le_bytes()); // size
    bytes.extend_from_slice(&0x59485056i32.to_le_bytes()); // id
    bytes.extend_from_slice(&256u16.to_le_bytes()); // version
    bytes.extend_from_slice(&1u16.to_le_bytes()); // model type
    bytes.extend_from_slice(&2i32.to_le_bytes()); // payload size
    bytes.extend_from_slice(&[0xAB, 0xCD]); // opaque payload
    bytes.extend_from_slice(keydata);
    let len = bytes.len() as u32;
    let mut reader = Reader::new(bytes);
    let models = parse_physcollide(&mut reader, &info(0, len, 0, 29)).unwrap();
    assert_eq!(models.len(), 1);
    let m = &models[0];
    assert_eq!(m.model_index, 0);
    assert_eq!(m.solid_count, 1);
    assert_eq!(m.collision_data.len(), 1);
    assert_eq!(m.collision_data[0].collide_header.model_type, 1);
    assert!(matches!(
        m.collision_data[0].second_header,
        ModelHeaders::MoppSurfaceHeader(h) if h.size == 2
    ));
    assert_eq!(m.collision_data[0].data, vec![0xAB, 0xCD]);
    assert_eq!(m.key_data.len(), 1);
    assert_eq!(m.key_data[0].0, "solid");
    assert_eq!(m.key_data[0].1, vec![("index".to_string(), "0".to_string())]);
}

#[test]
fn keydata_marker_block_is_discarded() {
    let v = parse_keydata_string(&b"a {\n\"k\" \"v\"\n}\n\0".to_vec()).unwrap();
    assert_eq!(v.len(), 1);
    assert_eq!(v[0].0, "a");
    assert_eq!(v[0].1, vec![("k".to_string(), "v".to_string())]);
}

#[test]
fn keydata_without_opener_is_malformed() {
    assert!(matches!(
        parse_keydata_string(&b"noopener\n}\n\0".to_vec()),
        Err(ReadError::MalformedText { .. })
    ));
}

#[test]
fn empty_entity_blocks_are_skipped() {
    let v = parse_entity_string(&b"{\n}\n{\n\"a\" \"b\"\n}\n\0".to_vec()).unwrap();
    assert_eq!(v.len(), 1);
    assert_eq!(v[0], vec![("a".to_string(), "b".to_string())]);
}

#[test]
fn entity_line_without_space_is_malformed() {
    assert!(matches!(
        parse_entity_string(&b"{\nnospace\n}\n".to_vec()),
        Err(ReadError::MalformedText { .. })
    ));
}

#[test]
fn pakfile_lump_is_the_raw_region() {
    let bytes = vec![9, 8, 7, 6, 5];
    let mut reader = Reader::new(bytes);
    let pak = parse_pakfile(&mut reader, &info(1, 3, 0, 40)).unwrap();
    assert_eq!(pak.bytes, vec![8, 7, 6]);
}

#[test]
fn reader_integers_are_little_endian() {
    let mut reader = Reader::new(vec![0xFE, 0xFF, 0xFF, 0xFF, 0x34, 0x12, 0x80, 0x00, 0x7F]);
    assert_eq!(reader.read_int().unwrap(), -2);
    assert_eq!(reader.read_ushort().unwrap(), 0x1234);
    assert_eq!(reader.read_short().unwrap(), 0x0080u16 as i16);
    assert_eq!(reader.read_byte().unwrap(), 0x7F);
    assert!(matches!(reader.read_byte(), Err(ReadError::OutOfBounds { position: 9, wanted: 1 })));
    assert_eq!(reader.index, 9);
}

#[test]
fn reader_fails_without_moving_on_short_reads() {
    let mut reader = Reader::new(vec![1, 2]);
    assert!(matches!(reader.read_uint(), Err(ReadError::OutOfBounds { position: 0, wanted: 4 })));
    assert_eq!(reader.index, 0);
    assert_eq!(reader.read_ushort().unwrap(), 0x0201);
}

#[test]
fn reader_string_decodes_multi_byte_text() {
    // a two-byte UTF-8 scalar: decoding must transform, not copy, the bytes
    let mut reader = Reader::new(vec![0xC3, 0xA9, 0x00, 0xFF]);
    let s = reader.read_string().unwrap();
    assert_eq!(s, "\u{e9}");
    assert_eq!(reader.index, 2);
}

#[test]
fn reader_string_rejects_invalid_text() {
    let mut reader = Reader::new(vec![0xFF, 0x00]);
    assert!(matches!(reader.read_string(), Err(ReadError::MalformedText { position: 0 })));
    assert_eq!(reader.index, 0);
}

#[test]
fn reader_string_without_terminator_is_out_of_bounds() {
    let mut reader = Reader::new(vec![b'a', b'b']);
    assert!(matches!(reader.read_string(), Err(ReadError::OutOfBounds { .. })));
}

#[test]
fn flags_drop_undefined_bits() {
    assert_eq!(ContentsFlags::from_bits_truncate(0xFFFF_FFFF).bits, 0xBFFF_FFFF);
    assert_eq!(SurfaceFlags::from_bits_truncate(0xFFFF_FFFF).bits, 0xFFFF);
    assert_eq!(DispTriFlags::from_bits_truncate(0xFFFF).bits, 0x1F);
    assert_eq!(ContentsFlags::from_bits_truncate(0x21).bits, 0x21);
}

#[test]
fn plane_type_and_texflag_names() {
    assert_eq!(int_to_gsrc_planetype(&0), "PLANE_X");
    assert_eq!(int_to_gsrc_planetype(&5), "PLANE_ANYZ");
    assert_eq!(int_to_gsrc_planetype(&9), "error / undefined type");
    assert_eq!(int_to_quake_texflag(&1), "TEX_SPECIAL");
    assert_eq!(int_to_quake_texflag(&-1), "error / undefined flag");
}

#[test]
fn decode_error_carries_the_offending_lump() {
    // a physics lump whose declared region runs past the buffer
    let bytes = vec![0u8; 8];
    let mut reader = Reader::new(bytes);
    match parse_physcollide(&mut reader, &info(0, 64, 0, 29)) {
        Err(DecodeError::OutOfBounds { lump, .. }) => assert_eq!(lump, 29),
        other => panic!("expected OutOfBounds, got {:?}", other),
    }
}

#[test]
fn texture_string_data_splits_on_terminators() {
    let bytes = b"abc\0de\0".to_vec();
    let mut reader = Reader::new(bytes);
    let v = parse_texdatastringdata(&mut reader, &info(0, 7, 0, 43)).unwrap();
    assert_eq!(v.len(), 2);
    assert_eq!(v[0].val, "abc");
    assert_eq!(v[0].offset, 0);
    assert_eq!(v[1].val, "de");
    assert_eq!(v[1].offset, 4);
}

#[test]
fn texture_string_data_without_terminator_fails() {
    let bytes = b"abc".to_vec();
    let mut reader = Reader::new(bytes);
    assert!(parse_texdatastringdata(&mut reader, &info(0, 3, 0, 43)).is_err());
}

#[test]
fn surf_edges_keep_their_signs() {
    let mut bytes = Vec::new();
    bytes.extend_from_slice(&(-7i32).to_le_bytes());
    bytes.extend_from_slice(&7i32.to_le_bytes());
    let mut reader = Reader::new(bytes);
    let v = parse_surfedges(&mut reader, &info(0, 8, 0, 13)).unwrap();
    assert_eq!(v, vec![-7, 7]);
}

#[test]
fn vector_components_keep_their_bit_patterns() {
    let mut bytes = Vec::new();
    bytes.extend_from_slice(&(-2.5f32).to_le_bytes());
    bytes.extend_from_slice(&1.5f32.to_le_bytes());
    bytes.extend_from_slice(&0.0f32.to_le_bytes());
    let mut reader = Reader::new(bytes);
    let v = reader.read_vector3().unwrap();
    assert_eq!(f32::from_bits(v.x), -2.5);
    assert_eq!(f32::from_bits(v.y), 1.5);
    assert_eq!(f32::from_bits(v.z), 0.0);
    assert_eq!(reader.index, 12);
}

#[test]
fn quoted_tokens_lose_only_the_surrounding_quotes() {
    let v = parse_entity_string(&b"{\n\"a\"b\" \"say \"hi\"\n}\n".to_vec()).unwrap();
    assert_eq!(v.len(), 1);
    assert_eq!(v[0][0].0, "a\"b");
    assert_eq!(v[0][0].1, "say \"hi");
}
