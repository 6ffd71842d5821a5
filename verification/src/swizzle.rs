//! Texture de-swizzler: reorders the bytes of a tiled, bank/pipe-interleaved
//! GPU surface into linear raster order. For each output pixel the source
//! byte offset is computed from the tile mode and `bytes_per_pixel` bytes
//! are copied; source or destination ranges that fall outside the raw
//! buffer are skipped, leaving those output bytes as they were.
//!
//! Architecture parameters are fixed: 2 pipes, 4 banks, 256-byte pipe
//! interleave, 2048-byte row and split sizes, 256-byte swap size, 8x8-pixel
//! micro-tiles.

use crate::ftex::FTEX;
use crate::ftex::FTEXFormat;
use crate::ftex::FTEXHeader;
use crate::ftex::FTEXTileMode;
use crate::error::DecodeError;
use vstd::prelude::*;

verus! {

/// Bits per pixel of the formats the de-swizzler understands: 32 for the
/// plain RGBA8 format, 64 for one-block-per-8-bytes compression, 128 for
/// one-block-per-16-bytes compression. For block-compressed formats the
/// logical dimensions shrink by 4 in each direction and a "pixel" is one
/// block.
pub open spec fn deswizzle_bpp(f: FTEXFormat) -> Option<int> {
    match f {
        FTEXFormat::TcsR8G8B8A8Unorm => Some(32),
        FTEXFormat::TBc1Unorm => Some(64),
        FTEXFormat::TBc1Srgb => Some(64),
        FTEXFormat::TBc4Unorm => Some(64),
        FTEXFormat::TBc4Snorm => Some(64),
        FTEXFormat::TBc2Unorm => Some(128),
        FTEXFormat::TBc2Srgb => Some(128),
        FTEXFormat::TBc3Unorm => Some(128),
        FTEXFormat::TBc3Srgb => Some(128),
        FTEXFormat::TBc5Unorm => Some(128),
        FTEXFormat::TBc5Snorm => Some(128),
        _ => None,
    }
}

/// Decodes a format's de-swizzle bit width.
pub fn get_format_bits_per_pixel(format: &FTEXFormat) -> (r: Option<u32>)
    ensures
        match r {
            Some(b) => deswizzle_bpp(*format) == Some(b as int),
            None => deswizzle_bpp(*format) is None,
        },
{
    match *format {
        FTEXFormat::TcsR8G8B8A8Unorm => Some(32),
        FTEXFormat::TBc1Unorm => Some(64),
        FTEXFormat::TBc1Srgb => Some(64),
        FTEXFormat::TBc4Unorm => Some(64),
        FTEXFormat::TBc4Snorm => Some(64),
        FTEXFormat::TBc2Unorm => Some(128),
        FTEXFormat::TBc2Srgb => Some(128),
        FTEXFormat::TBc3Unorm => Some(128),
        FTEXFormat::TBc3Srgb => Some(128),
        FTEXFormat::TBc5Unorm => Some(128),
        FTEXFormat::TBc5Snorm => Some(128),
        _ => None,
    }
}

/// Logical surface width: blocks for block-compressed formats, else pixels.
pub open spec fn logical_width(h: FTEXHeader) -> int {
    if h.texture_format.is_block_compressed() {
        (h.texture_width + 3) / 4
    } else {
        h.texture_width as int
    }
}

/// Logical surface height, as `logical_width`.
pub open spec fn logical_height(h: FTEXHeader) -> int {
    if h.texture_format.is_block_compressed() {
        (h.texture_height + 3) / 4
    } else {
        h.texture_height as int
    }
}

/// Linear addressing: `(y * pitch + x) * bpp / 8`.
pub open spec fn addr_linear(x: int, y: int, bpp: int, pitch: int) -> int {
    ((y * pitch) + x) * bpp / 8
}

/// XOR of a single bit extracted from each operand.
pub open spec fn bit_xor(a: int, b: int) -> int {
    (a + b) % 2
}

/// XOR of two three-bit values.
pub open spec fn xor3(a: int, b: int) -> int {
    ((a as u8) ^ (b as u8)) as int
}

/// The pixel's position within its 8x8 micro-tile, with the low three bits
/// of x and y interleaved according to the per-width bucket; thick modes
/// append z bits.
pub open spec fn pixel_index_micro(x: int, y: int, z: int, bpp: int, thickness: int) -> int {
    let x0 = x % 2;
    let x1 = (x / 2) % 2;
    let x2 = (x / 4) % 2;
    let y0 = y % 2;
    let y1 = (y / 2) % 2;
    let y2 = (y / 4) % 2;
    let base = if bpp == 0x08 {
        32 * y2 + 16 * y0 + 8 * y1 + 4 * x2 + 2 * x1 + x0
    } else if bpp == 0x10 {
        32 * y2 + 16 * y1 + 8 * y0 + 4 * x2 + 2 * x1 + x0
    } else if bpp == 0x40 {
        32 * y2 + 16 * y1 + 8 * x2 + 4 * x1 + 2 * y0 + x0
    } else if bpp == 0x80 {
        32 * y2 + 16 * y1 + 8 * x2 + 4 * x1 + 2 * x0 + y0
    } else {
        32 * y2 + 16 * y1 + 8 * x2 + 4 * y0 + 2 * x1 + x0
    };
    let with_z = if thickness > 1 {
        base + 64 * (z % 2) + 128 * ((z / 2) % 2)
    } else {
        base
    };
    if thickness == 8 {
        with_z + 256 * ((z / 4) % 2)
    } else {
        with_z
    }
}

/// Micro-tiled addressing: whole 8x8 tiles row by row, then the pixel's
/// position within its tile.
pub open spec fn addr_micro(x: int, y: int, bpp: int, pitch: int, thickness: int) -> int {
    let micro_tile_bytes = ((64 * thickness * bpp) + 7) / 8;
    let micro_tiles_per_row = pitch / 8;
    let micro_tile_offset = micro_tile_bytes * ((x / 8) + (y / 8) * micro_tiles_per_row);
    let pixel_offset = (bpp * pixel_index_micro(x, y, 0, bpp, thickness)) / 8;
    pixel_offset + micro_tile_offset
}

/// Pipe selector: XOR of bit 3 of y and x.
pub open spec fn pipe_from_coord(x: int, y: int) -> int {
    bit_xor(y / 8, x / 8)
}

/// Bank selector for the fixed four-bank layout.
pub open spec fn bank_from_coord(x: int, y: int) -> int {
    bit_xor(y / 32, x / 8) + 2 * bit_xor(y / 16, x / 16)
}

/// `[0, 1, 3, 2]`: the bank-swap permutation, indexed by the low two bits
/// of the swap index.
pub open spec fn bank_swap_order(k: int) -> int {
    if k == 0 {
        0
    } else if k == 1 {
        1
    } else if k == 2 {
        3
    } else {
        2
    }
}

/// Halves the candidate swap width while it reaches two rows of macro
/// tiles.
pub open spec fn halve_until(w: int, pitch: int) -> int
    decreases w,
{
    if pitch >= 1 && w >= 2 * pitch && w >= 1 {
        halve_until(w / 2, pitch)
    } else {
        w
    }
}

/// The bank-swap width of a bank-swapped surface; zero for other modes.
/// The candidate is bounded below by the pipe-interleave minimum and above
/// by the row-size maximum, then halved while it spans two pitches.
pub open spec fn bank_swapped_width(mode: FTEXTileMode, bpp: int, pitch: int) -> int {
    if !mode.is_bank_swapped() {
        0
    } else {
        let bytes_per_sample = 8 * bpp;
        let samples_div = if bytes_per_sample > 0 {
            2048int / bytes_per_sample
        } else {
            0
        };
        let slices_per_tile = if bytes_per_sample > 0 && samples_div > 0 {
            vstd::math::max(1int, 1int / samples_div)
        } else {
            1
        };
        let ns2: int = if mode.is_thick() {
            4
        } else {
            1
        };
        let bytes_per_tile_slice = if slices_per_tile > 0 {
            ns2 * bytes_per_sample / slices_per_tile
        } else {
            0
        };
        let factor = mode.spec_aspect_ratio() as int;
        let swap_tiles = if bpp > 0 {
            vstd::math::max(1int, 128int / bpp)
        } else {
            1
        };
        let swap_width = swap_tiles * 32;
        let height_bytes = if slices_per_tile > 0 {
            ns2 * factor * 2 * bpp / slices_per_tile
        } else {
            0
        };
        let swap_max = if height_bytes > 0 {
            16384int / height_bytes
        } else {
            0
        };
        let swap_min = if bytes_per_tile_slice > 0 {
            8192int / bytes_per_tile_slice
        } else {
            0
        };
        halve_until(vstd::math::min(swap_max, vstd::math::max(swap_min, swap_width)), pitch)
    }
}

/// Macro-tiled addressing with one sample and no micro-tile splitting: the
/// address is assembled as `bank | pipe | high offset | low offset`, with
/// the pipe above the 256-byte interleave group and the bank above the
/// pipe.
pub open spec fn addr_macro(
    x: int,
    y: int,
    bpp: int,
    pitch: int,
    mode: FTEXTileMode,
    pipe_swizzle: int,
    bank_swizzle: int,
) -> int {
    let thickness = mode.spec_surface_thickness() as int;
    let element_offset = (bpp * pixel_index_micro(x, y, 0, bpp, thickness) + 7) / 8;
    let swizzle2 = pipe_swizzle + 2 * bank_swizzle;
    let bank_pipe = xor3(pipe_from_coord(x, y) + 2 * bank_from_coord(x, y), swizzle2) % 8;
    let pipe = bank_pipe % 2;
    let bank = bank_pipe / 2;
    let macro_tile_pitch: int = if mode == FTEXTileMode::TwoDTiledThin2 || mode
        == FTEXTileMode::TwoBTiledThin2 {
        16
    } else if mode == FTEXTileMode::TwoDTiledThin4 || mode == FTEXTileMode::TwoBTiledThin4 {
        8
    } else {
        32
    };
    let macro_tile_height: int = if mode == FTEXTileMode::TwoDTiledThin2 || mode
        == FTEXTileMode::TwoBTiledThin2 {
        32
    } else if mode == FTEXTileMode::TwoDTiledThin4 || mode == FTEXTileMode::TwoBTiledThin4 {
        64
    } else {
        16
    };
    let macro_tiles_per_row = pitch / macro_tile_pitch;
    let macro_tile_bytes = (thickness * bpp * macro_tile_height * macro_tile_pitch + 7) / 8;
    let macro_tile_offset = ((x / macro_tile_pitch) + macro_tiles_per_row * (y / macro_tile_height))
        * macro_tile_bytes;
    let bank_swapped = if mode.is_bank_swapped() {
        let bsw = bank_swapped_width(mode, bpp, pitch);
        if bsw > 0 {
            xor3(bank, bank_swap_order((macro_tile_pitch * (x / macro_tile_pitch) / bsw) % 4))
        } else {
            bank
        }
    } else {
        bank
    };
    let total_offset = element_offset + macro_tile_offset / 8;
    (total_offset / 256) * 2048 + bank_swapped * 512 + pipe * 256 + total_offset % 256
}

/// The pipe-swizzle bit of the header's swizzle value.
pub open spec fn pipe_swizzle_of(sv: int) -> int {
    (sv / 256) % 2
}

/// The two bank-swizzle bits of the header's swizzle value.
pub open spec fn bank_swizzle_of(sv: int) -> int {
    (sv / 512) % 4
}

/// The source byte address of logical pixel `(x, y)` under the header's
/// tile mode.
pub open spec fn surface_addr(h: FTEXHeader, x: int, y: int) -> int {
    let bpp = deswizzle_bpp(h.texture_format)->Some_0;
    match h.tile_mode {
        FTEXTileMode::Default | FTEXTileMode::LinearAligned => addr_linear(
            x,
            y,
            bpp,
            h.pitch as int,
        ),
        FTEXTileMode::OneDTiledThin1 | FTEXTileMode::OneDTiledThick => addr_micro(
            x,
            y,
            bpp,
            h.pitch as int,
            h.tile_mode.spec_surface_thickness() as int,
        ),
        _ => addr_macro(
            x,
            y,
            bpp,
            h.pitch as int,
            h.tile_mode,
            pipe_swizzle_of(h.swizzle_value as int),
            bank_swizzle_of(h.swizzle_value as int),
        ),
    }
}

/// Whether the micro-tile of a macro-tiled mode stays within one 2048-byte
/// split; surfaces beyond it would be sample-split, which this de-swizzler
/// does not address.
pub open spec fn macro_tile_fits(mode: FTEXTileMode, bpp: int) -> bool {
    (64 * mode.spec_surface_thickness() * bpp + 7) / 8 <= 2048
}

/// The inputs the de-swizzler is defined on: a format it knows, and for
/// macro-tiled modes an unsplit micro-tile and (when bank-swapped) a
/// non-zero pitch.
pub open spec fn deswizzle_ok(h: FTEXHeader) -> bool {
    &&& deswizzle_bpp(h.texture_format) is Some
    &&& match h.tile_mode {
        FTEXTileMode::Default
        | FTEXTileMode::LinearAligned
        | FTEXTileMode::OneDTiledThin1
        | FTEXTileMode::OneDTiledThick => true,
        _ => macro_tile_fits(h.tile_mode, deswizzle_bpp(h.texture_format)->Some_0) && (
        h.tile_mode.spec_is_bank_swapped() ==> h.pitch >= 1),
    }
}

/// The byte at `i` of the de-swizzled output: the byte its pixel's source
/// range holds when both the source and destination ranges lie within the
/// buffer, else the input byte unchanged.
pub open spec fn deswizzled_byte(h: FTEXHeader, data: Seq<u8>, i: int) -> u8 {
    let bpp = deswizzle_bpp(h.texture_format)->Some_0;
    let bytes = bpp / 8;
    let w = logical_width(h);
    let hgt = logical_height(h);
    if w <= 0 || bytes <= 0 {
        data[i]
    } else {
        let pix = i / bytes;
        let x = pix % w;
        let y = pix / w;
        if y < hgt {
            let src = surface_addr(h, x, y);
            if src >= 0 && src + bytes <= data.len() && pix * bytes + bytes <= data.len() {
                data[src + (i - pix * bytes)]
            } else {
                data[i]
            }
        } else {
            data[i]
        }
    }
}


/// Exec twin of `pixel_index_micro` at `z = 0`.
fn ex_pixel_index_micro(x: i128, y: i128, bpp: i128, thickness: i128) -> (r: i128)
    requires
        0 <= x < 0x1_0000_0000,
        0 <= y < 0x1_0000_0000,
        0 <= bpp <= 128,
        1 <= thickness <= 8,
    ensures
        r == pixel_index_micro(x as int, y as int, 0, bpp as int, thickness as int),
        0 <= r < 64,
{
    let x0 = x % 2;
    let x1 = (x / 2) % 2;
    let x2 = (x / 4) % 2;
    let y0 = y % 2;
    let y1 = (y / 2) % 2;
    let y2 = (y / 4) % 2;
    if bpp == 0x08 {
        32 * y2 + 16 * y0 + 8 * y1 + 4 * x2 + 2 * x1 + x0
    } else if bpp == 0x10 {
        32 * y2 + 16 * y1 + 8 * y0 + 4 * x2 + 2 * x1 + x0
    } else if bpp == 0x40 {
        32 * y2 + 16 * y1 + 8 * x2 + 4 * x1 + 2 * y0 + x0
    } else if bpp == 0x80 {
        32 * y2 + 16 * y1 + 8 * x2 + 4 * x1 + 2 * x0 + y0
    } else {
        32 * y2 + 16 * y1 + 8 * x2 + 4 * y0 + 2 * x1 + x0
    }
}

/// Exec twin of `addr_linear`.
fn ex_addr_linear(x: i128, y: i128, bpp: i128, pitch: i128) -> (r: i128)
    requires
        0 <= x < 0x1_0000_0000,
        0 <= y < 0x1_0000_0000,
        0 <= bpp <= 128,
        0 <= pitch < 0x1_0000_0000,
    ensures
        r == addr_linear(x as int, y as int, bpp as int, pitch as int),
{
    proof {
        assert((y * pitch) <= 0x1_0000_0000_0000_0000_0000i128) by (nonlinear_arith)
            requires
                0 <= y < 0x1_0000_0000,
                0 <= pitch < 0x1_0000_0000,
        ;
        assert(((y * pitch) + x) * bpp <= 0x1_0000_0000_0000_0000_0000_0000i128)
            by (nonlinear_arith)
            requires
                0 <= (y * pitch) <= 0x1_0000_0000_0000_0000_0000i128,
                0 <= x < 0x1_0000_0000,
                0 <= bpp <= 128,
        ;
        assert(((y * pitch) + x) * bpp >= 0) by (nonlinear_arith)
            requires
                0 <= (y * pitch),
                0 <= x,
                0 <= bpp,
        ;
    }
    ((y * pitch) + x) * bpp / 8
}

/// Exec twin of `addr_micro`.
fn ex_addr_micro(x: i128, y: i128, bpp: i128, pitch: i128, thickness: i128) -> (r: i128)
    requires
        0 <= x < 0x1_0000_0000,
        0 <= y < 0x1_0000_0000,
        0 <= bpp <= 128,
        0 <= pitch < 0x1_0000_0000,
        1 <= thickness <= 8,
    ensures
        r == addr_micro(x as int, y as int, bpp as int, pitch as int, thickness as int),
{
    proof {
        assert(64 * thickness * bpp <= 65536) by (nonlinear_arith)
            requires
                1 <= thickness <= 8,
                0 <= bpp <= 128,
        ;
        assert(64 * thickness * bpp >= 0) by (nonlinear_arith)
            requires
                1 <= thickness,
                0 <= bpp,
        ;
    }
    let micro_tile_bytes = ((64 * thickness * bpp) + 7) / 8;
    let micro_tiles_per_row = pitch / 8;
    proof {
        assert((y / 8) * micro_tiles_per_row <= 0x1_0000_0000_0000_0000i128 && (y / 8)
            * micro_tiles_per_row >= 0) by (nonlinear_arith)
            requires
                0 <= y / 8 < 0x1_0000_0000,
                0 <= micro_tiles_per_row < 0x1_0000_0000,
        ;
        assert(micro_tile_bytes * ((x / 8) + (y / 8) * micro_tiles_per_row)
            <= 0x1_0000_0000_0000_0000_0000_0000i128 && micro_tile_bytes * ((x / 8) + (y / 8)
            * micro_tiles_per_row) >= 0) by (nonlinear_arith)
            requires
                0 <= micro_tile_bytes <= 8200,
                0 <= (x / 8) + (y / 8) * micro_tiles_per_row
                    <= 0x2_0000_0000_0000_0000i128,
        ;
    }
    let micro_tile_offset = micro_tile_bytes * ((x / 8) + (y / 8) * micro_tiles_per_row);
    let pix = ex_pixel_index_micro(x, y, bpp, thickness);
    proof {
        assert(0 <= bpp * pix <= 8192) by (nonlinear_arith)
            requires
                0 <= bpp <= 128,
                0 <= pix < 64,
        ;
    }
    let pixel_offset = (bpp * pix) / 8;
    pixel_offset + micro_tile_offset
}

/// Exec twin of `xor3`.
fn ex_xor3(a: i128, b: i128) -> (r: i128)
    requires
        0 <= a < 256,
        0 <= b < 256,
    ensures
        r == xor3(a as int, b as int),
        0 <= r < 256,
{
    let r = ((a as u8) ^ (b as u8)) as i128;
    proof {
        assert((a as u8) ^ (b as u8) < 256) by (bit_vector);
    }
    r
}

/// Exec twin of `bank_swapped_width`.
fn ex_bank_swapped_width(mode: &FTEXTileMode, bpp: i128, pitch: i128) -> (r: i128)
    requires
        8 <= bpp <= 128,
        mode.spec_is_bank_swapped() ==> pitch >= 1,
        0 <= pitch < 0x1_0000_0000,
    ensures
        r == bank_swapped_width(*mode, bpp as int, pitch as int),
{
    if !mode.is_bank_swapped() {
        return 0;
    }
    let bytes_per_sample = 8 * bpp;
    let samples_div = 2048 / bytes_per_sample;
    let slices_per_tile: i128 = if samples_div > 0 {
        let q = 1 / samples_div;
        if q > 1 {
            q
        } else {
            1
        }
    } else {
        1
    };
    let ns2: i128 = if mode.is_thick() {
        4
    } else {
        1
    };
    proof {
        assert(0 <= ns2 * bytes_per_sample <= 4096) by (nonlinear_arith)
            requires
                1 <= ns2 <= 4,
                0 <= bytes_per_sample <= 1024,
        ;
    }
    let bytes_per_tile_slice = ns2 * bytes_per_sample / slices_per_tile;
    let factor = mode.get_aspect_ratio() as i128;
    let st = 128 / bpp;
    let swap_tiles: i128 = if st > 1 {
        st
    } else {
        1
    };
    let swap_width = swap_tiles * 32;
    proof {
        assert(0 <= ns2 * factor * 2 * bpp <= 4096) by (nonlinear_arith)
            requires
                1 <= ns2 <= 4,
                1 <= factor <= 4,
                0 <= bpp <= 128,
        ;
    }
    let height_bytes = ns2 * factor * 2 * bpp / slices_per_tile;
    let swap_max: i128 = if height_bytes > 0 {
        16384 / height_bytes
    } else {
        0
    };
    let swap_min: i128 = if bytes_per_tile_slice > 0 {
        8192 / bytes_per_tile_slice
    } else {
        0
    };
    let lo = if swap_min > swap_width {
        swap_min
    } else {
        swap_width
    };
    let mut w: i128 = if swap_max < lo {
        swap_max
    } else {
        lo
    };
    let ghost w0 = w as int;
    while w >= 2 * pitch
        invariant
            1 <= pitch < 0x1_0000_0000,
            w >= 0,
            halve_until(w as int, pitch as int) == halve_until(w0, pitch as int),
        decreases w,
    {
        w = w / 2;
    }
    w
}

/// Exec twin of `addr_macro`.
#[verifier::rlimit(100)]
fn ex_addr_macro(
    x: i128,
    y: i128,
    bpp: i128,
    pitch: i128,
    mode: &FTEXTileMode,
    pipe_sw: i128,
    bank_sw: i128,
) -> (r: i128)
    requires
        0 <= x < 0x1_0000_0000,
        0 <= y < 0x1_0000_0000,
        8 <= bpp <= 128,
        0 <= pitch < 0x1_0000_0000,
        0 <= pipe_sw <= 1,
        0 <= bank_sw <= 3,
        mode.spec_is_bank_swapped() ==> pitch >= 1,
    ensures
        r == addr_macro(
            x as int,
            y as int,
            bpp as int,
            pitch as int,
            *mode,
            pipe_sw as int,
            bank_sw as int,
        ),
{
    let thickness = mode.get_surface_thickness() as i128;
    let pix = ex_pixel_index_micro(x, y, bpp, thickness);
    proof {
        assert(0 <= bpp * pix <= 8192) by (nonlinear_arith)
            requires
                0 <= bpp <= 128,
                0 <= pix < 64,
        ;
    }
    let element_offset = (bpp * pix + 7) / 8;
    let pipe0 = (y / 8 + x / 8) % 2;
    let bank0 = (y / 32 + x / 8) % 2 + 2 * ((y / 16 + x / 16) % 2);
    let swizzle2 = pipe_sw + 2 * bank_sw;
    let bank_pipe = ex_xor3(pipe0 + 2 * bank0, swizzle2) % 8;
    let pipe = bank_pipe % 2;
    let bank = bank_pipe / 2;
    let macro_tile_pitch: i128 = match *mode {
        FTEXTileMode::TwoDTiledThin2 | FTEXTileMode::TwoBTiledThin2 => 16,
        FTEXTileMode::TwoDTiledThin4 | FTEXTileMode::TwoBTiledThin4 => 8,
        _ => 32,
    };
    let macro_tile_height: i128 = match *mode {
        FTEXTileMode::TwoDTiledThin2 | FTEXTileMode::TwoBTiledThin2 => 32,
        FTEXTileMode::TwoDTiledThin4 | FTEXTileMode::TwoBTiledThin4 => 64,
        _ => 16,
    };
    let macro_tiles_per_row = pitch / macro_tile_pitch;
    proof {
        assert(thickness * bpp * macro_tile_height * macro_tile_pitch <= 0x1_0000_0000i128
            && thickness * bpp * macro_tile_height * macro_tile_pitch >= 0) by (nonlinear_arith)
            requires
                1 <= thickness <= 8,
                0 <= bpp <= 128,
                8 <= macro_tile_height <= 64,
                8 <= macro_tile_pitch <= 32,
        ;
    }
    let macro_tile_bytes = (thickness * bpp * macro_tile_height * macro_tile_pitch + 7) / 8;
    proof {
        assert(macro_tiles_per_row * (y / macro_tile_height) <= 0x1_0000_0000_0000_0000i128
            && macro_tiles_per_row * (y / macro_tile_height) >= 0) by (nonlinear_arith)
            requires
                0 <= macro_tiles_per_row < 0x1_0000_0000,
                0 <= y / macro_tile_height < 0x1_0000_0000,
        ;
        assert(((x / macro_tile_pitch) + macro_tiles_per_row * (y / macro_tile_height))
            * macro_tile_bytes <= 0x1_0000_0000_0000_0000_0000_0000_0000i128 && ((x
            / macro_tile_pitch) + macro_tiles_per_row * (y / macro_tile_height)) * macro_tile_bytes
            >= 0) by (nonlinear_arith)
            requires
                0 <= (x / macro_tile_pitch) + macro_tiles_per_row * (y / macro_tile_height)
                    <= 0x2_0000_0000_0000_0000i128,
                0 <= macro_tile_bytes <= 0x1_0000_0000i128,
        ;
    }
    let macro_tile_offset = ((x / macro_tile_pitch) + macro_tiles_per_row * (y
        / macro_tile_height)) * macro_tile_bytes;
    let bank_swapped: i128 = if mode.is_bank_swapped() {
        let bsw = ex_bank_swapped_width(mode, bpp, pitch);
        if bsw > 0 {
            proof {
                assert(macro_tile_pitch * (x / macro_tile_pitch) >= 0 && macro_tile_pitch * (x
                    / macro_tile_pitch) <= 0x1_0000_0000_0000i128) by (nonlinear_arith)
                    requires
                        8 <= macro_tile_pitch <= 32,
                        0 <= x / macro_tile_pitch < 0x1_0000_0000,
                ;
            }
            let swap_index = macro_tile_pitch * (x / macro_tile_pitch) / bsw;
            let k = swap_index % 4;
            let o: i128 = if k == 0 {
                0
            } else if k == 1 {
                1
            } else if k == 2 {
                3
            } else {
                2
            };
            ex_xor3(bank, o)
        } else {
            bank
        }
    } else {
        bank
    };
    let total_offset = element_offset + macro_tile_offset / 8;
    let hi = total_offset / 256;
    proof {
        assert(0 <= hi && hi * 2048 <= 0x8_0000_0000_0000_0000_0000_0000_0000i128)
            by (nonlinear_arith)
            requires
                0 <= element_offset <= 8200,
                0 <= macro_tile_offset <= 0x1_0000_0000_0000_0000_0000_0000_0000i128,
                total_offset == element_offset + macro_tile_offset / 8,
                hi == total_offset / 256,
        ;
    }
    hi * 2048 + bank_swapped * 512 + pipe * 256 + total_offset % 256
}

/// The source byte address of logical pixel `(x, y)`, dispatched on the
/// header's tile mode.
fn ex_surface_addr(h: &FTEXHeader, x: i128, y: i128, bpp: i128) -> (r: i128)
    requires
        0 <= x < 0x1_0000_0000,
        0 <= y < 0x1_0000_0000,
        deswizzle_ok(*h),
        deswizzle_bpp(h.texture_format) == Some(bpp as int),
    ensures
        r == surface_addr(*h, x as int, y as int),
{
    match h.tile_mode {
        FTEXTileMode::Default | FTEXTileMode::LinearAligned => ex_addr_linear(
            x,
            y,
            bpp,
            h.pitch as i128,
        ),
        FTEXTileMode::OneDTiledThin1 | FTEXTileMode::OneDTiledThick => {
            let t = h.tile_mode.get_surface_thickness() as i128;
            ex_addr_micro(x, y, bpp, h.pitch as i128, t)
        },
        _ => {
            let pipe_sw = ((h.swizzle_value / 256) % 2) as i128;
            let bank_sw = ((h.swizzle_value / 512) % 4) as i128;
            ex_addr_macro(x, y, bpp, h.pitch as i128, &h.tile_mode, pipe_sw, bank_sw)
        },
    }
}


/// De-swizzles a texture's raw surface bytes into linear raster order. The
/// output always has exactly the length of the input; every byte whose
/// pixel's source and destination ranges lie within the buffer is the
/// corresponding tiled-surface byte, and every other byte is the input byte
/// unchanged.
#[verifier::loop_isolation(false)]
#[verifier::rlimit(100)]
pub fn deswizzle(ftex: &FTEX, data: &[u8]) -> (r: Result<Vec<u8>, DecodeError>)
    requires
        deswizzle_ok(ftex.header),
    ensures
        r matches Ok(out) && out@.len() == data@.len() && (forall|i: int|
            0 <= i < data@.len() ==> out@[i] == deswizzled_byte(ftex.header, data@, i)),
{
    let ghost hd = ftex.header;
    let ghost d = data@;
    let h = &ftex.header;
    let bits: u32 = match get_format_bits_per_pixel(&h.texture_format) {
        Some(b) => b,
        None => {
            proof {
                assert(false);
            }
            0
        },
    };
    let bytes: usize = (bits / 8) as usize;
    let ghost bytesi = bytes as int;
    proof {
        assert(bits == 32 || bits == 64 || bits == 128);
        assert(bytesi == deswizzle_bpp(hd.texture_format)->Some_0 / 8);
    }
    let w64: u64 = if h.texture_format.is_block_compressed() {
        ((h.texture_width as u64) + 3) / 4
    } else {
        h.texture_width as u64
    };
    let h64: u64 = if h.texture_format.is_block_compressed() {
        ((h.texture_height as u64) + 3) / 4
    } else {
        h.texture_height as u64
    };
    let ghost w = w64 as int;
    let ghost hh = h64 as int;
    proof {
        assert(w == logical_width(hd));
        assert(hh == logical_height(hd));
    }
    // start from a copy of the input; skipped pixels keep their input bytes
    let mut out: Vec<u8> = Vec::new();
    let mut ci: usize = 0;
    while ci < data.len()
        invariant
            0 <= ci <= data.len(),
            out@ == d.subrange(0, ci as int),
        decreases data.len() - ci,
    {
        out.push(data[ci]);
        ci = ci + 1;
        proof {
            assert(out@ =~= d.subrange(0, ci as int));
        }
    }
    proof {
        assert(out@ =~= d);
    }
    let mut y: u64 = 0;
    while y < h64
        invariant
            0 <= y <= h64,
            out@.len() == d.len(),
            forall|i: int|
                0 <= i < d.len() ==> #[trigger] out@[i] == (if i / bytesi < y * w {
                    deswizzled_byte(hd, d, i)
                } else {
                    d[i]
                }),
        decreases h64 - y,
    {
        let mut x: u64 = 0;
        while x < w64
            invariant
                0 <= y < h64,
                0 <= x <= w64,
                out@.len() == d.len(),
                forall|i: int|
                    0 <= i < d.len() ==> #[trigger] out@[i] == (if i / bytesi < y * w + x {
                        deswizzled_byte(hd, d, i)
                    } else {
                        d[i]
                    }),
            decreases w64 - x,
        {
            proof {
                assert((y as int) * w <= 0xFFFF_FFFF_0000_0000i128 && (y as int) * w >= 0)
                    by (nonlinear_arith)
                    requires
                        0 <= y < 0x1_0000_0000,
                        0 <= w <= 0x1_0000_0000,
                ;
            }
            let pix: u128 = (y as u128) * (w64 as u128) + (x as u128);
            let ghost pixi = pix as int;
            proof {
                assert(pixi * bytesi <= 0x1_0000_0000_0000_0000_0000i128 && pixi * bytesi >= 0)
                    by (nonlinear_arith)
                    requires
                        0 <= pixi <= 0x1_0000_0000_0000_0000i128,
                        0 <= bytesi <= 16,
                ;
            }
            let dst: u128 = pix * (bytes as u128);
            let src: i128 = ex_surface_addr(h, x as i128, y as i128, bits as i128);
            let len128: u128 = data.len() as u128;
            let ghost out_before = out@;
            if src >= 0 && (src as u128) <= len128 && (src as u128) + (bytes as u128) <= len128
                && dst + (bytes as u128) <= len128 {
                let dstu: usize = dst as usize;
                let srcu: usize = src as usize;
                let mut k: usize = 0;
                while k < bytes
                    invariant
                        0 <= k <= bytes,
                        out@.len() == d.len(),
                        dstu + bytes <= d.len(),
                        srcu + bytes <= d.len(),
                        forall|i: int|
                            0 <= i < d.len() ==> #[trigger] out@[i] == (if dstu <= i < dstu + k {
                                d[srcu + (i - dstu)]
                            } else {
                                out_before[i]
                            }),
                    decreases bytes - k,
                {
                    let v = data[srcu + k];
                    out.set(dstu + k, v);
                    k = k + 1;
                }
            }
            proof {
                let cond = {
                    let sa = surface_addr(hd, x as int, y as int);
                    sa >= 0 && sa + bytesi <= d.len() && pixi * bytesi + bytesi <= d.len()
                };
                assert forall|i: int| 0 <= i < d.len() implies #[trigger] out@[i] == (if i / bytesi
                    < y * w + x + 1 {
                    deswizzled_byte(hd, d, i)
                } else {
                    d[i]
                }) by {
                    let pc = i / bytesi;
                    assert(bytesi >= 1);
                    if pc == pixi {
                        assert(pixi * bytesi <= i < pixi * bytesi + bytesi) by (nonlinear_arith)
                            requires
                                i / bytesi == pixi,
                                bytesi >= 1,
                                i >= 0,
                                pixi >= 0,
                        ;
                        assert(pixi % w == x && pixi / w == y) by (nonlinear_arith)
                            requires
                                pixi == y * w + x,
                                0 <= x < w,
                                y >= 0,
                                w >= 1,
                        ;
                        if cond {
                            assert(out@[i] == d[surface_addr(hd, x as int, y as int) + (i - pixi
                                * bytesi)]);
                            assert(deswizzled_byte(hd, d, i) == d[surface_addr(
                                hd,
                                x as int,
                                y as int,
                            ) + (i - pixi * bytesi)]);
                        } else {
                            assert(out@[i] == out_before[i]);
                            assert(out_before[i] == d[i]);
                            assert(deswizzled_byte(hd, d, i) == d[i]);
                        }
                    } else if pc < pixi {
                        assert(i < pixi * bytesi) by (nonlinear_arith)
                            requires
                                i / bytesi < pixi,
                                bytesi >= 1,
                                i >= 0,
                        ;
                        assert(out@[i] == out_before[i]);
                    } else {
                        assert(i >= pixi * bytesi + bytesi) by (nonlinear_arith)
                            requires
                                i / bytesi > pixi,
                                bytesi >= 1,
                                i >= 0,
                                pixi >= 0,
                        ;
                        assert(out@[i] == out_before[i]);
                        assert(out_before[i] == d[i]);
                    }
                }
            }
            x = x + 1;
        }
        proof {
            assert((y as int) * w + w == (y as int + 1) * w) by (nonlinear_arith);
        }
        y = y + 1;
    }
    proof {
        assert forall|i: int| 0 <= i < d.len() implies out@[i] == deswizzled_byte(hd, d, i) by {
            if w <= 0 {
                assert(deswizzled_byte(hd, d, i) == d[i]);
                assert((hh as int) * w == 0) by (nonlinear_arith)
                    requires
                        w <= 0,
                        w >= 0,
                ;
            } else {
                let pc = i / bytesi;
                if pc >= hh * w {
                    assert(pc / w >= hh) by (nonlinear_arith)
                        requires
                            pc >= hh * w,
                            w >= 1,
                            hh >= 0,
                    ;
                    assert(deswizzled_byte(hd, d, i) == d[i]);
                }
            }
        }
    }
    Ok(out)
}

/// De-swizzling a linear-tiled surface whose pitch is its logical width is
/// the identity: every pixel's source address equals its destination, so the
/// output equals the input byte for byte.
pub proof fn lemma_deswizzle_linear_identity(h: FTEXHeader, data: Seq<u8>)
    requires
        deswizzle_ok(h),
        h.tile_mode == FTEXTileMode::Default || h.tile_mode == FTEXTileMode::LinearAligned,
        h.pitch == logical_width(h),
    ensures
        forall|i: int| 0 <= i < data.len() ==> deswizzled_byte(h, data, i) == data[i],
{
    let bpp = deswizzle_bpp(h.texture_format)->Some_0;
    let bytes = bpp / 8;
    let w = logical_width(h);
    assert(bpp == 32 || bpp == 64 || bpp == 128);
    assert forall|i: int| 0 <= i < data.len() implies deswizzled_byte(h, data, i) == data[i] by {
        if w > 0 {
            let pix = i / bytes;
            let x = pix % w;
            let y = pix / w;
            assert(y * w + x == pix) by (nonlinear_arith)
                requires
                    x == pix % w,
                    y == pix / w,
                    w >= 1,
            ;
            assert(surface_addr(h, x, y) == ((y * w) + x) * bpp / 8);
            assert((y * w + x) * bpp / 8 == pix * bytes) by (nonlinear_arith)
                requires
                    y * w + x == pix,
                    bytes == bpp / 8,
                    bpp == 32 || bpp == 64 || bpp == 128,
            ;
            assert(pix * bytes <= i < pix * bytes + bytes) by (nonlinear_arith)
                requires
                    pix == i / bytes,
                    bytes >= 1,
                    i >= 0,
            ;
        }
    }
}

} // verus!
