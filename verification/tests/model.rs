//! Model sub-file decoding: headers, attribute formats, LOD models, buffer
//! info records and bone flags.

use bfres::BoneHierarchyFlags;
use bfres::BufferInfo;
use bfres::ByteSource;
use bfres::DecodeError;
use bfres::FMDL;
use bfres::FSHPLODModel;
use bfres::FSHPLODModelIndexFormat;
use bfres::FSHPLODModelPrimitiveType;
use bfres::FVTXAttributes;
use bfres::FVTXAttributesFormats;
use bfres::Flags;
use bfres::Importable;
use bfres::BillboardBonesProjectionMode;
use bfres::RotationMode;
use bfres::TransformationFlags;

fn be32(v: u32) -> [u8; 4] {
    v.to_be_bytes()
}

/// A model whose four sub-parts are all empty: no vertex buffers, no
/// materials, no shapes, a bare skeleton header.
fn minimal_model_bytes(fvtx_count: u16) -> Vec<u8> {
    let mut data = vec![0u8; 0x84];
    data[0x00..0x04].copy_from_slice(b"FMDL");
    // name and path pointers stay zero
    data[0x0C..0x10].copy_from_slice(&be32(0x54)); // skeleton: 0x0C + 0x54 = 0x60
    data[0x10..0x14].copy_from_slice(&be32(0x20)); // vertex-buffer array: 0x30
    data[0x14..0x18].copy_from_slice(&be32(0x34)); // shape group: 0x48
    data[0x18..0x1C].copy_from_slice(&be32(0x18)); // material group: 0x30
    data[0x20] = (fvtx_count >> 8) as u8;
    data[0x21] = fvtx_count as u8;
    // material group at 0x30: length 0x14, zero entries, sentinel
    data[0x30..0x34].copy_from_slice(&be32(0x14));
    // shape group at 0x48: same shape
    data[0x48..0x4C].copy_from_slice(&be32(0x14));
    // skeleton at 0x60
    data[0x60..0x64].copy_from_slice(b"FSKL");
    data
}

#[test]
fn minimal_model_decodes() {
    let mut src = ByteSource::new(minimal_model_bytes(0));
    let m = FMDL::import(&mut src).unwrap();
    assert_eq!(m.header.fvtx_count, 0);
    assert_eq!(m.fvtx_array.entries.len(), 0);
    assert_eq!(m.fmat_index_group.entries.len(), 0);
    assert_eq!(m.fshp_index_group.entries.len(), 0);
    assert_eq!(m.fskl.header.bone_array_count, 0);
}

#[test]
fn fvtx_count_matches_array() {
    // the declared vertex-buffer count always equals the enumerated length
    let mut src = ByteSource::new(minimal_model_bytes(3));
    let m = FMDL::import(&mut src).unwrap();
    assert_eq!(m.header.fvtx_count, 3);
    assert_eq!(m.fvtx_array.entries.len(), 3);
    assert_eq!(
        m.fvtx_array.entries[1].data_pointer.get_abs_pos().unwrap(),
        0x30 + 0x20
    );
}

#[test]
fn model_wrong_magic_rejected() {
    let mut data = minimal_model_bytes(0);
    data[0..4].copy_from_slice(b"QQQQ");
    let mut src = ByteSource::new(data);
    match FMDL::import(&mut src).unwrap_err() {
        DecodeError::WrongMagic { expected, .. } => assert_eq!(&expected, b"FMDL"),
        other => panic!("unexpected error {:?}", other),
    }
}

fn attribute_bytes(code: u32) -> Vec<u8> {
    let mut data = vec![0u8; 12];
    data[4] = 1; // buffer-info index
    data[6..8].copy_from_slice(&[0, 0]); // byte offset within element
    data[8..12].copy_from_slice(&be32(code));
    data
}

#[test]
fn attribute_format_three_f32() {
    // wire code 0x0811 decodes to the three-f32 variant
    let mut src = ByteSource::new(attribute_bytes(0x0811));
    let a = FVTXAttributes::import(&mut src).unwrap();
    assert_eq!(a.format, FVTXAttributesFormats::ThreeF32);
    assert_eq!(a.buffer_info_index, 1);

    // a stream of three [f32; 3] at stride 12 reads back in order
    let values: [[f32; 3]; 3] = [[1.0, 2.0, 3.0], [4.0, 5.0, 6.0], [7.0, 8.0, 9.0]];
    let mut stream: Vec<u8> = Vec::new();
    for v in &values {
        for c in v {
            stream.extend_from_slice(&c.to_bits().to_be_bytes());
        }
    }
    let mut s = ByteSource::new(stream);
    for v in &values {
        for c in v {
            let bits = s.read_be_to_u32().unwrap();
            assert_eq!(f32::from_bits(bits), *c);
        }
    }
}

#[test]
fn attribute_format_unknown_code_rejected() {
    let mut src = ByteSource::new(attribute_bytes(0x9999));
    match FVTXAttributes::import(&mut src).unwrap_err() {
        DecodeError::UnknownEnumValue { value, .. } => assert_eq!(value, 0x9999),
        other => panic!("unexpected error {:?}", other),
    }
}

#[test]
fn lod_model_decodes() {
    let mut data = vec![0u8; 28];
    data[0..4].copy_from_slice(&be32(0x04)); // triangles
    data[4..8].copy_from_slice(&be32(4)); // u16 big endian
    data[8..12].copy_from_slice(&be32(36)); // point count
    data[12] = 0;
    data[13] = 2; // visibility groups
    let mut src = ByteSource::new(data);
    let m = FSHPLODModel::import(&mut src).unwrap();
    assert_eq!(m.primitive_type, FSHPLODModelPrimitiveType::Triangles);
    assert_eq!(m.index_format, FSHPLODModelIndexFormat::U16BigEndian);
    assert_eq!(m.nb_points, 36);
    assert_eq!(m.nb_visibility_groups, 2);
}

#[test]
fn lod_model_unknown_primitive_rejected() {
    let mut data = vec![0u8; 28];
    data[0..4].copy_from_slice(&be32(0x07)); // undefined wire code
    let mut src = ByteSource::new(data);
    match FSHPLODModel::import(&mut src).unwrap_err() {
        DecodeError::UnknownEnumValue { value, .. } => assert_eq!(value, 7),
        other => panic!("unexpected error {:?}", other),
    }
}

#[test]
fn buffer_info_requires_zero_reserved_words() {
    let mut data = vec![0u8; 24];
    data[4..8].copy_from_slice(&be32(0x100)); // size
    data[12] = 0;
    data[13] = 12; // stride
    let mut src = ByteSource::new(data.clone());
    let b = BufferInfo::import(&mut src).unwrap();
    assert_eq!(b.size, 0x100);
    assert_eq!(b.stride, 12);

    // a non-zero on-disk handle is rejected
    data[8..12].copy_from_slice(&be32(7));
    let mut src = ByteSource::new(data);
    match BufferInfo::import(&mut src).unwrap_err() {
        DecodeError::NonZeroReserved { .. } => {},
        other => panic!("unexpected error {:?}", other),
    }
}

#[test]
fn bone_flags_decompose() {
    let word: u32 = 1 | (1 << 12) | (3 << 16) | (0b10101 << 23) | (0b1010 << 28);
    let mut src = ByteSource::new(word.to_be_bytes().to_vec());
    let f = Flags::import(&mut src).unwrap();
    assert!(f.visible);
    assert_eq!(f.rotation, RotationMode::XYZEuler);
    assert_eq!(f.projection_mode, BillboardBonesProjectionMode::WorldViewPoint);
    assert!(f.transformation_flags.segment_scale_compensation);
    assert!(!f.transformation_flags.scale_uniformly);
    assert!(f.transformation_flags.scale_volume_by_1);
    assert!(!f.transformation_flags.no_rotation);
    assert!(f.transformation_flags.no_translation);
    assert!(!f.bone_hierarchy_flags.scale_uniformly);
    assert!(f.bone_hierarchy_flags.scale_volume_by_1);
    assert!(!f.bone_hierarchy_flags.no_rotation);
    assert!(f.bone_hierarchy_flags.no_translation);
}

#[test]
fn bone_flag_words_unpack() {
    let t = TransformationFlags::indirect_import(0b00011);
    assert!(t.segment_scale_compensation);
    assert!(t.scale_uniformly);
    assert!(!t.scale_volume_by_1);
    let h = BoneHierarchyFlags::indirect_import(0b1100);
    assert!(!h.scale_uniformly);
    assert!(!h.scale_volume_by_1);
    assert!(h.no_rotation);
    assert!(h.no_translation);
}

#[test]
fn packed_ten_bit_lanes_unpack() {
    // lanes 1, -1 (0x3FF) and -512 (0x200), highest lane first
    let word: u32 = (1 << 20) | (0x3FF << 10) | 0x200;
    let r = bfres::unpack_3i10(word);
    assert_eq!(r, [1, -1, -512]);
    assert_eq!(bfres::unpack_3i10(0), [0, 0, 0]);
    // maximum positive lane value
    assert_eq!(bfres::unpack_3i10(0x1FF << 10), [0, 511, 0]);
}
