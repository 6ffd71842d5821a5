//! Container-level decoding: pointers, string table, index groups and the
//! top-level directory.

use bfres::ByteSource;
use bfres::DecodeError;
use bfres::Embedded;
use bfres::FRES;
use bfres::FRESHeader;
use bfres::FRESVersion;
use bfres::Importable;
use bfres::IndexGroup;
use bfres::DataArray;
use bfres::Pointer;
use bfres::StringTable;

fn be32(v: u32) -> [u8; 4] {
    v.to_be_bytes()
}

/// A minimal well-formed container: magic, version, marker, empty string
/// table at EOF, all twelve directory slots absent.
fn minimal_container_bytes() -> Vec<u8> {
    let mut b: Vec<u8> = Vec::new();
    b.extend_from_slice(b"FRES");
    b.extend_from_slice(&[3, 4, 0, 0]);
    b.extend_from_slice(&[0xFE, 0xFF]);
    b.extend_from_slice(&[0x00, 0x10]);
    b.extend_from_slice(&be32(0x68)); // file length
    b.extend_from_slice(&be32(0x2000)); // alignment
    b.extend_from_slice(&be32(0)); // file-name offset
    b.extend_from_slice(&be32(0)); // string-table length
    b.extend_from_slice(&be32(0x4C)); // string-table offset: 0x1C + 0x4C = 0x68
    for _ in 0..12 {
        b.extend_from_slice(&be32(0)); // directory offsets, all absent
    }
    for _ in 0..12 {
        b.extend_from_slice(&[0, 0]); // entry counts
    }
    b.extend_from_slice(&be32(0)); // user pointer
    b
}

#[test]
fn minimal_container() {
    let mut src = ByteSource::new(minimal_container_bytes());
    let f = FRES::import(&mut src).expect("minimal container should decode");
    assert_eq!(f.header.get_total_sub_file_count(), 0);
    assert!(f.sub_file_index_groups.model_data.is_none());
    assert!(f.sub_file_index_groups.texture_data.is_none());
    assert!(f.sub_file_index_groups.skeleton_animation.is_none());
    assert!(f.sub_file_index_groups.shader_parameters.is_none());
    assert!(f.sub_file_index_groups.color_animation.is_none());
    assert!(f.sub_file_index_groups.texture_srt_animation.is_none());
    assert!(f.sub_file_index_groups.texture_pattern_animation.is_none());
    assert!(f.sub_file_index_groups.bone_visibility_animation.is_none());
    assert!(f.sub_file_index_groups.material_visibility_animation.is_none());
    assert!(f.sub_file_index_groups.shape_animation.is_none());
    assert!(f.sub_file_index_groups.scene_animation.is_none());
    assert!(f.sub_file_index_groups.embedded_file.is_none());
    assert_eq!(f.string_table.len(), 0);
    assert_eq!(f.header.version.numbers, [3, 4, 0, 0]);
    assert!(f.directory_counts_agree());
    assert!(f.names_resolve());
}

#[test]
fn pointer_resolution() {
    // delta -64 read at 0x40 resolves to 0
    let p = Pointer::new_rel(0x40, -64);
    assert_eq!(p.get_abs_pos().unwrap(), 0);
    // delta 0x10 read at 0x40 resolves to 0x50
    let p = Pointer::new_rel(0x40, 0x10);
    assert_eq!(p.get_abs_pos().unwrap(), 0x50);
    // a negative resolution fails
    let p = Pointer::new_rel(0x10, -0x20);
    assert_eq!(p.get_abs_pos(), Err(DecodeError::PointerOutOfRange));
}

#[test]
fn pointer_read_remembers_origin() {
    let mut data = vec![0u8; 0x44];
    data[0x40..0x44].copy_from_slice(&[0xFF, 0xFF, 0xFF, 0xC0]); // -64
    let mut src = ByteSource::new(data);
    src.seek(0x40);
    let p = Pointer::read_new_rel_i32_be(&mut src).unwrap();
    assert_eq!(p.points_to, -64);
    assert_eq!(p.get_abs_pos().unwrap(), 0);
}

fn empty_header_with_table(offset: i32, length: i32) -> FRESHeader {
    FRESHeader {
        version: FRESVersion { numbers: [3, 4, 0, 0] },
        file_length: 0,
        file_alignment: 0,
        file_name_offset: Pointer::new_abs(0),
        string_table_length: length,
        string_table_offset: Pointer::new_abs(offset),
        sub_file_index_groups_offsets: [None; 12],
        sub_file_index_groups_entry_counts: [0; 12],
    }
}

#[test]
fn string_table_records() {
    // region at 0x80: a zero-length continuation, "hello", padding, "bye"
    let mut data = vec![0u8; 0x9C];
    data[0x84..0x88].copy_from_slice(&be32(5));
    data[0x88..0x8D].copy_from_slice(b"hello");
    data[0x90..0x94].copy_from_slice(&be32(3));
    data[0x94..0x97].copy_from_slice(b"bye");
    let header = empty_header_with_table(0x80, 0x1C);
    let mut src = ByteSource::new(data);
    let table = StringTable::import(&header, &mut src).unwrap();
    assert_eq!(table.len(), 2);
    // keys are the positions just after each length word
    assert_eq!(table.get(0x88).unwrap(), "hello");
    assert_eq!(table.get(0x94).unwrap(), "bye");
    assert!(table.get(0x80).is_none());
}

#[test]
fn string_table_rejects_invalid_utf8() {
    let mut data = vec![0u8; 0x20];
    data[0x10..0x14].copy_from_slice(&be32(2));
    data[0x14] = 0xFF;
    data[0x15] = 0xFE;
    let header = empty_header_with_table(0x10, 0x08);
    let mut src = ByteSource::new(data);
    assert_eq!(
        StringTable::import(&header, &mut src).unwrap_err(),
        DecodeError::Encoding
    );
}

#[test]
fn read_text_entry_decodes_until_zero() {
    let mut src = ByteSource::new(b"hello\0world".to_vec());
    assert_eq!(src.read_text_entry().unwrap(), "hello");
    // no terminating zero after "world"
    assert_eq!(src.read_text_entry().unwrap_err(), DecodeError::Truncated);
}

/// Index group with two entries whose names live at 0x60 and 0x66.
fn two_entry_group_bytes() -> Vec<u8> {
    let mut data = vec![0u8; 0x80];
    data[0x00..0x04].copy_from_slice(&be32(0x48)); // block length
    data[0x04..0x08].copy_from_slice(&be32(2)); // entry count
    // root sentinel 0x08..0x18 stays zero
    // entry 0 at 0x18: search value, left, right, name ptr, data ptr
    data[0x18..0x1C].copy_from_slice(&be32(0x1234));
    data[0x1C] = 0x00;
    data[0x1D] = 0x01; // left
    data[0x1E] = 0x00;
    data[0x1F] = 0x02; // right
    let name0 = 0x60i32 - 0x20i32;
    data[0x20..0x24].copy_from_slice(&name0.to_be_bytes());
    data[0x24..0x28].copy_from_slice(&be32(0)); // data ptr delta
    // entry 1 at 0x28
    data[0x28..0x2C].copy_from_slice(&be32(0x5678));
    let name1 = 0x66i32 - 0x30i32;
    data[0x30..0x34].copy_from_slice(&name1.to_be_bytes());
    data[0x34..0x38].copy_from_slice(&be32(0));
    // the names
    data[0x60..0x66].copy_from_slice(b"alpha\0");
    data[0x66..0x6B].copy_from_slice(b"beta\0");
    data
}

#[test]
fn index_group_with_two_entries() {
    let mut src = ByteSource::new(two_entry_group_bytes());
    let g: IndexGroup<Embedded> = Importable::import(&mut src).unwrap();
    assert_eq!(g.entries.len(), 2);
    assert_eq!(g.entries[0].search_value, 0x1234);
    assert_eq!(g.entries[0].left_index, 1);
    assert_eq!(g.entries[0].right_index, 2);
    assert_eq!(g.entries[0].get_name(&mut src).unwrap(), "alpha");
    assert_eq!(g.entries[1].get_name(&mut src).unwrap(), "beta");
}

#[test]
fn index_group_overrun_fails() {
    let mut data = two_entry_group_bytes();
    // a declared block length too small for two entries
    data[0x00..0x04].copy_from_slice(&be32(0x20));
    let mut src = ByteSource::new(data);
    let r: Result<IndexGroup<Embedded>, DecodeError> = Importable::import(&mut src);
    assert_eq!(r.unwrap_err(), DecodeError::IndexGroupOverrun);
}

#[test]
fn index_group_truncated_fails() {
    let data = vec![0u8; 4]; // not even the count word
    let mut src = ByteSource::new(data);
    let r: Result<IndexGroup<Embedded>, DecodeError> = Importable::import(&mut src);
    assert_eq!(r.unwrap_err(), DecodeError::Truncated);
}

#[test]
fn data_array_records_positions() {
    let mut src = ByteSource::new(vec![0u8; 0x100]);
    src.seek(0x10);
    let a: DataArray<Embedded> = DataArray::new(&mut src, 0x18, 3).unwrap();
    assert_eq!(a.entries.len(), 3);
    assert_eq!(a.entries[0].data_pointer.get_abs_pos().unwrap(), 0x10);
    assert_eq!(a.entries[1].data_pointer.get_abs_pos().unwrap(), 0x28);
    assert_eq!(a.entries[2].data_pointer.get_abs_pos().unwrap(), 0x40);
}

#[test]
fn data_array_position_overflow_fails() {
    let mut src = ByteSource::new(vec![0u8; 0x10]);
    let r: Result<DataArray<Embedded>, DecodeError> = DataArray::new(&mut src, 0x8000_0000, 2);
    assert_eq!(r.unwrap_err(), DecodeError::ArrayOutOfRange);
}

#[test]
fn embedded_record_decodes() {
    let mut data = vec![0u8; 0x10];
    data[0..4].copy_from_slice(&be32(0x40)); // offset delta
    data[4..8].copy_from_slice(&be32(0x123)); // length
    let mut src = ByteSource::new(data);
    let e = Embedded::import(&mut src).unwrap();
    assert_eq!(e.offset.get_abs_pos().unwrap(), 0x40);
    assert_eq!(e.length, 0x123);
}

#[test]
fn wrong_magic_reported_with_bytes() {
    let mut data = minimal_container_bytes();
    data[0..4].copy_from_slice(b"XXXX");
    let mut src = ByteSource::new(data);
    match FRES::import(&mut src).unwrap_err() {
        DecodeError::WrongMagic { expected, found } => {
            assert_eq!(&expected, b"FRES");
            assert_eq!(&found, b"XXXX");
        },
        other => panic!("unexpected error {:?}", other),
    }
}

#[test]
fn little_endian_marker_rejected() {
    let mut data = minimal_container_bytes();
    data[8] = 0xFF;
    data[9] = 0xFE;
    let mut src = ByteSource::new(data);
    assert_eq!(
        FRES::import(&mut src).unwrap_err(),
        DecodeError::UnsupportedEndianness
    );
}

#[test]
fn wrong_header_length_rejected() {
    let mut data = minimal_container_bytes();
    data[11] = 0x20;
    let mut src = ByteSource::new(data);
    assert_eq!(
        FRES::import(&mut src).unwrap_err(),
        DecodeError::UnexpectedHeaderLength
    );
}

#[test]
fn nonzero_user_pointer_rejected() {
    let mut data = minimal_container_bytes();
    data[0x6B] = 1;
    let mut src = ByteSource::new(data);
    match FRES::import(&mut src).unwrap_err() {
        DecodeError::NonZeroReserved { .. } => {},
        other => panic!("unexpected error {:?}", other),
    }
}

#[test]
fn truncated_container_rejected() {
    let mut data = minimal_container_bytes();
    data.truncate(0x30);
    let mut src = ByteSource::new(data);
    assert_eq!(FRES::import(&mut src).unwrap_err(), DecodeError::Truncated);
}

#[test]
fn total_sub_file_count_sums_counts() {
    let mut h = empty_header_with_table(0, 0);
    h.sub_file_index_groups_entry_counts = [1, 2, 3, 4, 5, 6, 7, 8, 9, 10, 11, 12];
    assert_eq!(h.get_total_sub_file_count(), 78);
}

/// A container with one embedded file whose entry name lives in the string
/// table.
fn container_with_embedded_bytes() -> Vec<u8> {
    let mut b = vec![0u8; 0xB0];
    b[0x00..0x04].copy_from_slice(b"FRES");
    b[0x04..0x08].copy_from_slice(&[3, 4, 0, 0]);
    b[0x08..0x0A].copy_from_slice(&[0xFE, 0xFF]);
    b[0x0A..0x0C].copy_from_slice(&[0x00, 0x10]);
    b[0x0C..0x10].copy_from_slice(&be32(0xB0)); // file length
    b[0x10..0x14].copy_from_slice(&be32(0x2000)); // alignment
    b[0x18..0x1C].copy_from_slice(&be32(8)); // string-table length
    b[0x1C..0x20].copy_from_slice(&be32(0x84)); // string table at 0xA0
    b[0x4C..0x50].copy_from_slice(&be32(0x24)); // embedded slot group at 0x70
    b[0x66..0x68].copy_from_slice(&[0, 1]); // embedded slot count 1
    // index group at 0x70: block length 0x24, one entry after the sentinel
    b[0x70..0x74].copy_from_slice(&be32(0x24));
    b[0x74..0x78].copy_from_slice(&be32(1));
    // entry at 0x88: name pointer at 0x90 -> 0xA4, data pointer at 0x94 -> 0x98
    b[0x90..0x94].copy_from_slice(&be32(0x14));
    b[0x94..0x98].copy_from_slice(&be32(0x04));
    // embedded record at 0x98: offset pointer (delta 0) and length 0x42
    b[0x9C..0xA0].copy_from_slice(&be32(0x42));
    // string table record at 0xA0: length 4, "name", then a zero byte
    b[0xA0..0xA4].copy_from_slice(&be32(4));
    b[0xA4..0xA8].copy_from_slice(b"name");
    b
}

#[test]
fn container_with_embedded_file() {
    let mut src = ByteSource::new(container_with_embedded_bytes());
    let f = FRES::import(&mut src).unwrap();
    assert_eq!(f.header.get_total_sub_file_count(), 1);
    assert_eq!(f.string_table.len(), 1);
    assert_eq!(f.string_table.get(0xA4).unwrap(), "name");
    let group = f.sub_file_index_groups.embedded_file.as_ref().unwrap();
    assert_eq!(group.entries.len(), 1);
    assert!(f.directory_counts_agree());
    assert!(f.names_resolve());
    assert_eq!(group.entries[0].get_name(&mut src).unwrap(), "name");
    let embedded = group.entries[0].get_data(&mut src).unwrap();
    assert_eq!(embedded.length, 0x42);
    assert_eq!(embedded.offset.get_abs_pos().unwrap(), 0x98);
}

#[test]
fn checkers_notice_disagreement() {
    // a header count that disagrees with the group's entry count
    let mut bytes = container_with_embedded_bytes();
    bytes[0x67] = 2;
    let mut src = ByteSource::new(bytes);
    let f = FRES::import(&mut src).unwrap();
    assert!(!f.directory_counts_agree());
    assert!(f.names_resolve());

    // a name pointer that resolves to a position the table does not hold
    let mut bytes = container_with_embedded_bytes();
    bytes[0x90..0x94].copy_from_slice(&be32(0x10));
    let mut src = ByteSource::new(bytes);
    let f = FRES::import(&mut src).unwrap();
    assert!(f.directory_counts_agree());
    assert!(!f.names_resolve());
}
