//! Texture sub-file decoding and the de-swizzler.

use bfres::deswizzle;
use bfres::ByteSource;
use bfres::DecodeError;
use bfres::FTEX;
use bfres::FTEXAAMode;
use bfres::FTEXComponentSelector;
use bfres::FTEXComponentSelectorChannel;
use bfres::FTEXDimension;
use bfres::FTEXFormat;
use bfres::FTEXHeader;
use bfres::FTEXTileMode;
use bfres::FTEXUsage;
use bfres::Importable;
use bfres::Pointer;

fn be32(v: u32) -> [u8; 4] {
    v.to_be_bytes()
}

/// A well-formed texture header record: 4x4 RGBA8, linear aligned.
fn texture_bytes() -> Vec<u8> {
    let mut d = vec![0u8; 190];
    d[0..4].copy_from_slice(b"FTEX");
    d[4..8].copy_from_slice(&be32(1)); // dimension: 2D
    d[8..12].copy_from_slice(&be32(4)); // width
    d[12..16].copy_from_slice(&be32(4)); // height
    d[16..20].copy_from_slice(&be32(1)); // depth
    d[20..24].copy_from_slice(&be32(5)); // mip count
    d[24..28].copy_from_slice(&be32(0x01a)); // format: RGBA8 unorm
    d[28..32].copy_from_slice(&be32(0)); // AA: one sample
    d[32..36].copy_from_slice(&be32(1)); // usage: texture
    d[36..40].copy_from_slice(&be32(64)); // data length
    // data pointer at 40 stays zero
    d[44..48].copy_from_slice(&be32(0)); // mip data length
    // mip pointer at 48 stays zero
    d[52..56].copy_from_slice(&be32(1)); // tile mode: linear aligned
    d[56..60].copy_from_slice(&be32(0)); // swizzle
    d[60..64].copy_from_slice(&be32(0x200)); // alignment
    d[64..68].copy_from_slice(&be32(4)); // pitch
    d[120..124].copy_from_slice(&be32(0)); // first mip
    d[124..128].copy_from_slice(&be32(5)); // mip count duplicate
    // first slice at 128 stays zero
    d[132..136].copy_from_slice(&be32(1)); // slice count
    d[136..140].copy_from_slice(&[0, 1, 2, 3]); // component selector RGBA
    // registers 140..160 stay zero, texture handle at 160 stays zero
    d[164..168].copy_from_slice(&be32(1)); // array length
    d[188..190].copy_from_slice(&[0, 0]); // user data entry count
    d
}

#[test]
fn texture_header_decodes() {
    let mut src = ByteSource::new(texture_bytes());
    let t = FTEX::import(&mut src).unwrap();
    let h = t.header;
    assert_eq!(h.texture_width, 4);
    assert_eq!(h.texture_height, 4);
    assert!(matches!(h.dimension, FTEXDimension::TwoD));
    assert!(matches!(h.texture_format, FTEXFormat::TcsR8G8B8A8Unorm));
    assert!(matches!(h.aa_mode, FTEXAAMode::OneTime));
    assert!(matches!(h.tile_mode, FTEXTileMode::LinearAligned));
    assert!(h.usage.texture);
    assert!(!h.usage.ftv);
    assert_eq!(h.pitch, 4);
    assert_eq!(
        h.component_selector.composition,
        [
            FTEXComponentSelectorChannel::Red,
            FTEXComponentSelectorChannel::Green,
            FTEXComponentSelectorChannel::Blue,
            FTEXComponentSelectorChannel::Alpha,
        ]
    );
}

#[test]
fn mipmap_count_duplication_enforced() {
    // the nominal mip count is recorded twice; decoding checks they agree
    let mut src = ByteSource::new(texture_bytes());
    let t = FTEX::import(&mut src).unwrap();
    assert_eq!(t.header.nb_mipmaps, t.header.nb_mipmaps_duplicate);

    let mut bad = texture_bytes();
    bad[124..128].copy_from_slice(&be32(6));
    let mut src = ByteSource::new(bad);
    match FTEX::import(&mut src).unwrap_err() {
        DecodeError::NonZeroReserved { .. } => {},
        other => panic!("unexpected error {:?}", other),
    }
}

#[test]
fn nonzero_texture_reserved_fields_rejected() {
    // data pointer
    let mut bad = texture_bytes();
    bad[40..44].copy_from_slice(&be32(0x1000));
    let mut src = ByteSource::new(bad);
    assert!(matches!(
        FTEX::import(&mut src).unwrap_err(),
        DecodeError::NonZeroReserved { .. }
    ));
    // first slice
    let mut bad = texture_bytes();
    bad[128..132].copy_from_slice(&be32(2));
    let mut src = ByteSource::new(bad);
    assert!(matches!(
        FTEX::import(&mut src).unwrap_err(),
        DecodeError::NonZeroReserved { .. }
    ));
    // texture handle
    let mut bad = texture_bytes();
    bad[160..164].copy_from_slice(&be32(3));
    let mut src = ByteSource::new(bad);
    assert!(matches!(
        FTEX::import(&mut src).unwrap_err(),
        DecodeError::NonZeroReserved { .. }
    ));
}

#[test]
fn unknown_texture_format_rejected() {
    let mut bad = texture_bytes();
    bad[24..28].copy_from_slice(&be32(0x777));
    let mut src = ByteSource::new(bad);
    match FTEX::import(&mut src).unwrap_err() {
        DecodeError::UnknownEnumValue { value, .. } => assert_eq!(value, 0x777),
        other => panic!("unexpected error {:?}", other),
    }
}

#[test]
fn format_codes_decode() {
    assert!(matches!(
        FTEXFormat::decode(0x01a),
        Some(FTEXFormat::TcsR8G8B8A8Unorm)
    ));
    assert!(matches!(FTEXFormat::decode(0x033), Some(FTEXFormat::TBc3Unorm)));
    assert!(matches!(FTEXFormat::decode(0x235), Some(FTEXFormat::TBc5Snorm)));
    assert!(FTEXFormat::decode(0x999).is_none());
    assert!(FTEXFormat::decode(0x033).unwrap().is_block_compressed());
    assert!(!FTEXFormat::decode(0x01a).unwrap().is_block_compressed());
}

#[test]
fn tile_mode_queries() {
    assert!(FTEXTileMode::TwoBTiledThin1.is_bank_swapped());
    assert!(FTEXTileMode::ThreeBTiledThick.is_bank_swapped());
    assert!(!FTEXTileMode::TwoDTiledThin1.is_bank_swapped());
    assert!(FTEXTileMode::TwoDTiledThick.is_thick());
    assert!(!FTEXTileMode::OneDTiledThick.is_thick());
    assert_eq!(FTEXTileMode::TwoDTiledThin2.get_aspect_ratio(), 2);
    assert_eq!(FTEXTileMode::TwoBTiledThin4.get_aspect_ratio(), 4);
    assert_eq!(FTEXTileMode::Default.get_aspect_ratio(), 1);
    assert_eq!(FTEXTileMode::OneDTiledThick.get_surface_thickness(), 4);
    assert_eq!(FTEXTileMode::LinearSpecial.get_surface_thickness(), 8);
    assert_eq!(FTEXTileMode::LinearAligned.get_surface_thickness(), 1);
}

/// A header built directly, for driving the de-swizzler.
fn header_for_deswizzle(
    mode: FTEXTileMode,
    format: FTEXFormat,
    width: u32,
    height: u32,
    pitch: u32,
) -> FTEXHeader {
    FTEXHeader {
        dimension: FTEXDimension::TwoD,
        texture_width: width,
        texture_height: height,
        texture_depth: 1,
        nb_mipmaps: 1,
        texture_format: format,
        aa_mode: FTEXAAMode::OneTime,
        usage: FTEXUsage {
            texture: true,
            color_buffer: false,
            depth_buffer: false,
            scan_buffer: false,
            ftv: false,
        },
        data_length: width * height * 4,
        mipmaps_data_length: 0,
        tile_mode: mode,
        swizzle_value: 0,
        alignment: 0x200,
        pitch,
        mipmap_offsets: [0; 13],
        first_mipmap: 0,
        nb_mipmaps_duplicate: 1,
        nb_slices: 1,
        component_selector: FTEXComponentSelector {
            composition: [
                FTEXComponentSelectorChannel::Red,
                FTEXComponentSelectorChannel::Green,
                FTEXComponentSelectorChannel::Blue,
                FTEXComponentSelectorChannel::Alpha,
            ],
        },
        texture_registers: [0; 5],
        array_length: 1,
        file_name_offset: Pointer::new_abs(0),
        file_path_offset: Pointer::new_abs(0),
        data_offset: Pointer::new_abs(0),
        mipmap_offset: Pointer::new_abs(0),
        user_data_index_group_offset: Pointer::new_abs(0),
        user_data_entry_count: 0,
    }
}

#[test]
fn deswizzle_linear_round_trip() {
    // linear-aligned 4x4 RGBA8 with pitch 4: byte-for-byte identity
    let h = header_for_deswizzle(
        FTEXTileMode::LinearAligned,
        FTEXFormat::TcsR8G8B8A8Unorm,
        4,
        4,
        4,
    );
    let data: Vec<u8> = (0u8..64).collect();
    let out = deswizzle(&FTEX { header: h }, &data).unwrap();
    assert_eq!(out, data);
}

#[test]
fn deswizzle_default_mode_round_trip() {
    let h = header_for_deswizzle(FTEXTileMode::Default, FTEXFormat::TcsR8G8B8A8Unorm, 8, 2, 8);
    let data: Vec<u8> = (0..64).map(|i| (i * 3 % 251) as u8).collect();
    let out = deswizzle(&FTEX { header: h }, &data).unwrap();
    assert_eq!(out, data);
}

#[test]
fn deswizzle_preserves_length() {
    // micro-tiled: the output buffer always has the input's length
    let h = header_for_deswizzle(
        FTEXTileMode::OneDTiledThin1,
        FTEXFormat::TcsR8G8B8A8Unorm,
        8,
        8,
        8,
    );
    let data: Vec<u8> = (0..256).map(|i| (i % 256) as u8).collect();
    let out = deswizzle(&FTEX { header: h }, &data).unwrap();
    assert_eq!(out.len(), data.len());

    // macro-tiled too, with a buffer smaller than the surface
    let h = header_for_deswizzle(
        FTEXTileMode::TwoDTiledThin1,
        FTEXFormat::TcsR8G8B8A8Unorm,
        32,
        16,
        32,
    );
    let data: Vec<u8> = (0..100).map(|i| i as u8).collect();
    let out = deswizzle(&FTEX { header: h }, &data).unwrap();
    assert_eq!(out.len(), 100);
}

#[test]
fn deswizzle_micro_tiled_moves_second_tile_row() {
    // 16x8 RGBA8, micro-tiled: pixel (8, 0) belongs to the second 8x8 tile,
    // whose bytes start one whole tile (256 bytes) into the buffer
    let h = header_for_deswizzle(
        FTEXTileMode::OneDTiledThin1,
        FTEXFormat::TcsR8G8B8A8Unorm,
        16,
        8,
        16,
    );
    let data: Vec<u8> = (0..512).map(|i| (i % 256) as u8).collect();
    let out = deswizzle(&FTEX { header: h }, &data).unwrap();
    // destination pixel (8, 0) is at byte 8*4 = 32; its source is the start
    // of the second micro-tile, byte 256
    assert_eq!(&out[32..36], &data[256..260]);
    // destination pixel (0, 0) keeps the first source bytes
    assert_eq!(&out[0..4], &data[0..4]);
}
