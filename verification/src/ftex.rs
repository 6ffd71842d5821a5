//! Texture sub-file: one GPU surface descriptor, its dense wire-code
//! enumerations, and the tile-mode queries the de-swizzler derives its
//! addressing from.

use crate::error::DecodeError;
use crate::error::EnumKind;
use crate::error::ReservedField;
use crate::error::check_magic_number;
use crate::group::Importable;
use crate::pointer::Pointer;
use crate::source::ByteSource;
use crate::source::be_i32_at;
use crate::source::be_u16_at;
use crate::source::be_u32_at;
use vstd::prelude::*;

verus! {

/// Surface dimensionality.
#[derive(Clone, Copy, Debug, PartialEq, Eq, Structural)]
pub enum FTEXDimension {
    OneD,
    TwoD,
    ThreeD,
    Cube,
    OneDArray,
    TwoDArray,
    TwoDMSAA,
    TwoDMSAAArray,
}

impl FTEXDimension {
    /// The variant a wire code decodes to, or `None` for an unrecognised
    /// code.
    pub open spec fn spec_decode(v: u32) -> Option<FTEXDimension> {
        if v == 0x000 {
            Some(FTEXDimension::OneD)
        } else if v == 0x001 {
            Some(FTEXDimension::TwoD)
        } else if v == 0x002 {
            Some(FTEXDimension::ThreeD)
        } else if v == 0x003 {
            Some(FTEXDimension::Cube)
        } else if v == 0x004 {
            Some(FTEXDimension::OneDArray)
        } else if v == 0x005 {
            Some(FTEXDimension::TwoDArray)
        } else if v == 0x006 {
            Some(FTEXDimension::TwoDMSAA)
        } else if v == 0x007 {
            Some(FTEXDimension::TwoDMSAAArray)
        } else {
            None
        }
    }

    /// Decodes a wire code.
    pub fn decode(v: u32) -> (r: Option<FTEXDimension>)
        ensures
            r == FTEXDimension::spec_decode(v),
    {
        if v == 0x000 {
            Some(FTEXDimension::OneD)
        } else if v == 0x001 {
            Some(FTEXDimension::TwoD)
        } else if v == 0x002 {
            Some(FTEXDimension::ThreeD)
        } else if v == 0x003 {
            Some(FTEXDimension::Cube)
        } else if v == 0x004 {
            Some(FTEXDimension::OneDArray)
        } else if v == 0x005 {
            Some(FTEXDimension::TwoDArray)
        } else if v == 0x006 {
            Some(FTEXDimension::TwoDMSAA)
        } else if v == 0x007 {
            Some(FTEXDimension::TwoDMSAAArray)
        } else {
            None
        }
    }
}

/// Texel format; the wire codes are non-contiguous.
#[derive(Clone, Copy, Debug, PartialEq, Eq, Structural)]
pub enum FTEXFormat {
    TcR8Unorm,
    TcR8Uint,
    TcR8Snorm,
    TcR8Sint,
    TR4G4Unorm,
    TcdR16Unorm,
    TcR16Uint,
    TcR16Snorm,
    TcR16Sint,
    TcR16Float,
    TcR8G8Unorm,
    TcR8G8Uint,
    TcR8G8Snorm,
    TcR8G8Sint,
    TcsR5G6B5Unorm,
    TcR5G5B5A1Unorm,
    TcR4G4B4A4Unorm,
    TcA1B5G5R5Unorm,
    TcR32Uint,
    TcR32Sint,
    TcdR32Float,
    TcR16G16Unorm,
    TcR16G16Uint,
    TcR16G16Snorm,
    TcR16G16Sint,
    TcR16G16Float,
    TX24G8Uint,
    DD24S8Float,
    TcR11G11B10Float,
    TcsR10G10B10A2Unorm,
    TcR10G10B10A2Uint,
    TcR10G10B10A2Snorm,
    TcR10G10B10A2Sint,
    TcsR8G8B8A8Unorm,
    TcR8G8B8A8Uint,
    TcR8G8B8A8Snorm,
    TcR8G8B8A8Sint,
    TcsR8G8B8A8Srgb,
    TcsA2B10G10R10Unorm,
    TcA2B10G10R10Uint,
    TX32G8UintX24,
    TcR32G32Uint,
    TcR32G32Sint,
    TcR32G32Float,
    TcR16G16B16A16Unorm,
    TcR16G16B16A16Uint,
    TcR16G16B16A16Snorm,
    TcR16G16B16A16Sint,
    TcR16G16B16A16Float,
    TcR32G32B32A32Uint,
    TcR32G32B32A32Sint,
    TcR32G32B32A32Float,
    TBc1Unorm,
    TBc1Srgb,
    TBc2Unorm,
    TBc2Srgb,
    TBc3Unorm,
    TBc3Srgb,
    TBc4Unorm,
    TBc4Snorm,
    TBc5Unorm,
    TBc5Snorm,
    TNv12Unorm,
}

impl FTEXFormat {
    /// The variant a wire code decodes to, or `None` for an unrecognised
    /// code.
    pub open spec fn spec_decode(v: u32) -> Option<FTEXFormat> {
        if v == 0x001 {
            Some(FTEXFormat::TcR8Unorm)
        } else if v == 0x101 {
            Some(FTEXFormat::TcR8Uint)
        } else if v == 0x201 {
            Some(FTEXFormat::TcR8Snorm)
        } else if v == 0x301 {
            Some(FTEXFormat::TcR8Sint)
        } else if v == 0x002 {
            Some(FTEXFormat::TR4G4Unorm)
        } else if v == 0x005 {
            Some(FTEXFormat::TcdR16Unorm)
        } else if v == 0x105 {
            Some(FTEXFormat::TcR16Uint)
        } else if v == 0x205 {
            Some(FTEXFormat::TcR16Snorm)
        } else if v == 0x305 {
            Some(FTEXFormat::TcR16Sint)
        } else if v == 0x806 {
            Some(FTEXFormat::TcR16Float)
        } else if v == 0x007 {
            Some(FTEXFormat::TcR8G8Unorm)
        } else if v == 0x107 {
            Some(FTEXFormat::TcR8G8Uint)
        } else if v == 0x207 {
            Some(FTEXFormat::TcR8G8Snorm)
        } else if v == 0x307 {
            Some(FTEXFormat::TcR8G8Sint)
        } else if v == 0x008 {
            Some(FTEXFormat::TcsR5G6B5Unorm)
        } else if v == 0x00a {
            Some(FTEXFormat::TcR5G5B5A1Unorm)
        } else if v == 0x00b {
            Some(FTEXFormat::TcR4G4B4A4Unorm)
        } else if v == 0x00c {
            Some(FTEXFormat::TcA1B5G5R5Unorm)
        } else if v == 0x10d {
            Some(FTEXFormat::TcR32Uint)
        } else if v == 0x30d {
            Some(FTEXFormat::TcR32Sint)
        } else if v == 0x80e {
            Some(FTEXFormat::TcdR32Float)
        } else if v == 0x00f {
            Some(FTEXFormat::TcR16G16Unorm)
        } else if v == 0x10f {
            Some(FTEXFormat::TcR16G16Uint)
        } else if v == 0x20f {
            Some(FTEXFormat::TcR16G16Snorm)
        } else if v == 0x30f {
            Some(FTEXFormat::TcR16G16Sint)
        } else if v == 0x810 {
            Some(FTEXFormat::TcR16G16Float)
        } else if v == 0x111 {
            Some(FTEXFormat::TX24G8Uint)
        } else if v == 0x811 {
            Some(FTEXFormat::DD24S8Float)
        } else if v == 0x816 {
            Some(FTEXFormat::TcR11G11B10Float)
        } else if v == 0x019 {
            Some(FTEXFormat::TcsR10G10B10A2Unorm)
        } else if v == 0x119 {
            Some(FTEXFormat::TcR10G10B10A2Uint)
        } else if v == 0x219 {
            Some(FTEXFormat::TcR10G10B10A2Snorm)
        } else if v == 0x319 {
            Some(FTEXFormat::TcR10G10B10A2Sint)
        } else if v == 0x01a {
            Some(FTEXFormat::TcsR8G8B8A8Unorm)
        } else if v == 0x11a {
            Some(FTEXFormat::TcR8G8B8A8Uint)
        } else if v == 0x21a {
            Some(FTEXFormat::TcR8G8B8A8Snorm)
        } else if v == 0x31a {
            Some(FTEXFormat::TcR8G8B8A8Sint)
        } else if v == 0x41a {
            Some(FTEXFormat::TcsR8G8B8A8Srgb)
        } else if v == 0x01b {
            Some(FTEXFormat::TcsA2B10G10R10Unorm)
        } else if v == 0x11b {
            Some(FTEXFormat::TcA2B10G10R10Uint)
        } else if v == 0x11c {
            Some(FTEXFormat::TX32G8UintX24)
        } else if v == 0x11d {
            Some(FTEXFormat::TcR32G32Uint)
        } else if v == 0x31d {
            Some(FTEXFormat::TcR32G32Sint)
        } else if v == 0x81e {
            Some(FTEXFormat::TcR32G32Float)
        } else if v == 0x01f {
            Some(FTEXFormat::TcR16G16B16A16Unorm)
        } else if v == 0x11f {
            Some(FTEXFormat::TcR16G16B16A16Uint)
        } else if v == 0x21f {
            Some(FTEXFormat::TcR16G16B16A16Snorm)
        } else if v == 0x31f {
            Some(FTEXFormat::TcR16G16B16A16Sint)
        } else if v == 0x820 {
            Some(FTEXFormat::TcR16G16B16A16Float)
        } else if v == 0x122 {
            Some(FTEXFormat::TcR32G32B32A32Uint)
        } else if v == 0x322 {
            Some(FTEXFormat::TcR32G32B32A32Sint)
        } else if v == 0x823 {
            Some(FTEXFormat::TcR32G32B32A32Float)
        } else if v == 0x031 {
            Some(FTEXFormat::TBc1Unorm)
        } else if v == 0x431 {
            Some(FTEXFormat::TBc1Srgb)
        } else if v == 0x032 {
            Some(FTEXFormat::TBc2Unorm)
        } else if v == 0x432 {
            Some(FTEXFormat::TBc2Srgb)
        } else if v == 0x033 {
            Some(FTEXFormat::TBc3Unorm)
        } else if v == 0x433 {
            Some(FTEXFormat::TBc3Srgb)
        } else if v == 0x034 {
            Some(FTEXFormat::TBc4Unorm)
        } else if v == 0x234 {
            Some(FTEXFormat::TBc4Snorm)
        } else if v == 0x035 {
            Some(FTEXFormat::TBc5Unorm)
        } else if v == 0x235 {
            Some(FTEXFormat::TBc5Snorm)
        } else if v == 0x081 {
            Some(FTEXFormat::TNv12Unorm)
        } else {
            None
        }
    }

    /// Decodes a wire code.
    pub fn decode(v: u32) -> (r: Option<FTEXFormat>)
        ensures
            r == FTEXFormat::spec_decode(v),
    {
        if v == 0x001 {
            Some(FTEXFormat::TcR8Unorm)
        } else if v == 0x101 {
            Some(FTEXFormat::TcR8Uint)
        } else if v == 0x201 {
            Some(FTEXFormat::TcR8Snorm)
        } else if v == 0x301 {
            Some(FTEXFormat::TcR8Sint)
        } else if v == 0x002 {
            Some(FTEXFormat::TR4G4Unorm)
        } else if v == 0x005 {
            Some(FTEXFormat::TcdR16Unorm)
        } else if v == 0x105 {
            Some(FTEXFormat::TcR16Uint)
        } else if v == 0x205 {
            Some(FTEXFormat::TcR16Snorm)
        } else if v == 0x305 {
            Some(FTEXFormat::TcR16Sint)
        } else if v == 0x806 {
            Some(FTEXFormat::TcR16Float)
        } else if v == 0x007 {
            Some(FTEXFormat::TcR8G8Unorm)
        } else if v == 0x107 {
            Some(FTEXFormat::TcR8G8Uint)
        } else if v == 0x207 {
            Some(FTEXFormat::TcR8G8Snorm)
        } else if v == 0x307 {
            Some(FTEXFormat::TcR8G8Sint)
        } else if v == 0x008 {
            Some(FTEXFormat::TcsR5G6B5Unorm)
        } else if v == 0x00a {
            Some(FTEXFormat::TcR5G5B5A1Unorm)
        } else if v == 0x00b {
            Some(FTEXFormat::TcR4G4B4A4Unorm)
        } else if v == 0x00c {
            Some(FTEXFormat::TcA1B5G5R5Unorm)
        } else if v == 0x10d {
            Some(FTEXFormat::TcR32Uint)
        } else if v == 0x30d {
            Some(FTEXFormat::TcR32Sint)
        } else if v == 0x80e {
            Some(FTEXFormat::TcdR32Float)
        } else if v == 0x00f {
            Some(FTEXFormat::TcR16G16Unorm)
        } else if v == 0x10f {
            Some(FTEXFormat::TcR16G16Uint)
        } else if v == 0x20f {
            Some(FTEXFormat::TcR16G16Snorm)
        } else if v == 0x30f {
            Some(FTEXFormat::TcR16G16Sint)
        } else if v == 0x810 {
            Some(FTEXFormat::TcR16G16Float)
        } else if v == 0x111 {
            Some(FTEXFormat::TX24G8Uint)
        } else if v == 0x811 {
            Some(FTEXFormat::DD24S8Float)
        } else if v == 0x816 {
            Some(FTEXFormat::TcR11G11B10Float)
        } else if v == 0x019 {
            Some(FTEXFormat::TcsR10G10B10A2Unorm)
        } else if v == 0x119 {
            Some(FTEXFormat::TcR10G10B10A2Uint)
        } else if v == 0x219 {
            Some(FTEXFormat::TcR10G10B10A2Snorm)
        } else if v == 0x319 {
            Some(FTEXFormat::TcR10G10B10A2Sint)
        } else if v == 0x01a {
            Some(FTEXFormat::TcsR8G8B8A8Unorm)
        } else if v == 0x11a {
            Some(FTEXFormat::TcR8G8B8A8Uint)
        } else if v == 0x21a {
            Some(FTEXFormat::TcR8G8B8A8Snorm)
        } else if v == 0x31a {
            Some(FTEXFormat::TcR8G8B8A8Sint)
        } else if v == 0x41a {
            Some(FTEXFormat::TcsR8G8B8A8Srgb)
        } else if v == 0x01b {
            Some(FTEXFormat::TcsA2B10G10R10Unorm)
        } else if v == 0x11b {
            Some(FTEXFormat::TcA2B10G10R10Uint)
        } else if v == 0x11c {
            Some(FTEXFormat::TX32G8UintX24)
        } else if v == 0x11d {
            Some(FTEXFormat::TcR32G32Uint)
        } else if v == 0x31d {
            Some(FTEXFormat::TcR32G32Sint)
        } else if v == 0x81e {
            Some(FTEXFormat::TcR32G32Float)
        } else if v == 0x01f {
            Some(FTEXFormat::TcR16G16B16A16Unorm)
        } else if v == 0x11f {
            Some(FTEXFormat::TcR16G16B16A16Uint)
        } else if v == 0x21f {
            Some(FTEXFormat::TcR16G16B16A16Snorm)
        } else if v == 0x31f {
            Some(FTEXFormat::TcR16G16B16A16Sint)
        } else if v == 0x820 {
            Some(FTEXFormat::TcR16G16B16A16Float)
        } else if v == 0x122 {
            Some(FTEXFormat::TcR32G32B32A32Uint)
        } else if v == 0x322 {
            Some(FTEXFormat::TcR32G32B32A32Sint)
        } else if v == 0x823 {
            Some(FTEXFormat::TcR32G32B32A32Float)
        } else if v == 0x031 {
            Some(FTEXFormat::TBc1Unorm)
        } else if v == 0x431 {
            Some(FTEXFormat::TBc1Srgb)
        } else if v == 0x032 {
            Some(FTEXFormat::TBc2Unorm)
        } else if v == 0x432 {
            Some(FTEXFormat::TBc2Srgb)
        } else if v == 0x033 {
            Some(FTEXFormat::TBc3Unorm)
        } else if v == 0x433 {
            Some(FTEXFormat::TBc3Srgb)
        } else if v == 0x034 {
            Some(FTEXFormat::TBc4Unorm)
        } else if v == 0x234 {
            Some(FTEXFormat::TBc4Snorm)
        } else if v == 0x035 {
            Some(FTEXFormat::TBc5Unorm)
        } else if v == 0x235 {
            Some(FTEXFormat::TBc5Snorm)
        } else if v == 0x081 {
            Some(FTEXFormat::TNv12Unorm)
        } else {
            None
        }
    }
}

/// Anti-aliasing sample count.
#[derive(Clone, Copy, Debug, PartialEq, Eq, Structural)]
pub enum FTEXAAMode {
    OneTime,
    TwoTimes,
    FourTimes,
    EightTimes,
}

impl FTEXAAMode {
    /// The variant a wire code decodes to, or `None` for an unrecognised
    /// code.
    pub open spec fn spec_decode(v: u32) -> Option<FTEXAAMode> {
        if v == 0 {
            Some(FTEXAAMode::OneTime)
        } else if v == 1 {
            Some(FTEXAAMode::TwoTimes)
        } else if v == 2 {
            Some(FTEXAAMode::FourTimes)
        } else if v == 3 {
            Some(FTEXAAMode::EightTimes)
        } else {
            None
        }
    }

    /// Decodes a wire code.
    pub fn decode(v: u32) -> (r: Option<FTEXAAMode>)
        ensures
            r == FTEXAAMode::spec_decode(v),
    {
        if v == 0 {
            Some(FTEXAAMode::OneTime)
        } else if v == 1 {
            Some(FTEXAAMode::TwoTimes)
        } else if v == 2 {
            Some(FTEXAAMode::FourTimes)
        } else if v == 3 {
            Some(FTEXAAMode::EightTimes)
        } else {
            None
        }
    }
}

/// GPU memory-layout class of the surface.
#[derive(Clone, Copy, Debug, PartialEq, Eq, Structural)]
pub enum FTEXTileMode {
    Default,
    LinearSpecial,
    LinearAligned,
    OneDTiledThin1,
    OneDTiledThick,
    TwoDTiledThin1,
    TwoDTiledThin2,
    TwoDTiledThin4,
    TwoDTiledThick,
    TwoBTiledThin1,
    TwoBTiledThin2,
    TwoBTiledThin4,
    TwoBTiledThick,
    ThreeDTiledThin1,
    ThreeDTiledThick,
    ThreeBTiledThin1,
    ThreeBTiledThick,
}

impl FTEXTileMode {
    /// The variant a wire code decodes to, or `None` for an unrecognised
    /// code.
    pub open spec fn spec_decode(v: u32) -> Option<FTEXTileMode> {
        if v == 0x00 {
            Some(FTEXTileMode::Default)
        } else if v == 0x10 {
            Some(FTEXTileMode::LinearSpecial)
        } else if v == 0x01 {
            Some(FTEXTileMode::LinearAligned)
        } else if v == 0x02 {
            Some(FTEXTileMode::OneDTiledThin1)
        } else if v == 0x03 {
            Some(FTEXTileMode::OneDTiledThick)
        } else if v == 0x04 {
            Some(FTEXTileMode::TwoDTiledThin1)
        } else if v == 0x05 {
            Some(FTEXTileMode::TwoDTiledThin2)
        } else if v == 0x06 {
            Some(FTEXTileMode::TwoDTiledThin4)
        } else if v == 0x07 {
            Some(FTEXTileMode::TwoDTiledThick)
        } else if v == 0x08 {
            Some(FTEXTileMode::TwoBTiledThin1)
        } else if v == 0x09 {
            Some(FTEXTileMode::TwoBTiledThin2)
        } else if v == 0x0A {
            Some(FTEXTileMode::TwoBTiledThin4)
        } else if v == 0x0B {
            Some(FTEXTileMode::TwoBTiledThick)
        } else if v == 0x0C {
            Some(FTEXTileMode::ThreeDTiledThin1)
        } else if v == 0x0D {
            Some(FTEXTileMode::ThreeDTiledThick)
        } else if v == 0x0E {
            Some(FTEXTileMode::ThreeBTiledThin1)
        } else if v == 0x0F {
            Some(FTEXTileMode::ThreeBTiledThick)
        } else {
            None
        }
    }

    /// Decodes a wire code.
    pub fn decode(v: u32) -> (r: Option<FTEXTileMode>)
        ensures
            r == FTEXTileMode::spec_decode(v),
    {
        if v == 0x00 {
            Some(FTEXTileMode::Default)
        } else if v == 0x10 {
            Some(FTEXTileMode::LinearSpecial)
        } else if v == 0x01 {
            Some(FTEXTileMode::LinearAligned)
        } else if v == 0x02 {
            Some(FTEXTileMode::OneDTiledThin1)
        } else if v == 0x03 {
            Some(FTEXTileMode::OneDTiledThick)
        } else if v == 0x04 {
            Some(FTEXTileMode::TwoDTiledThin1)
        } else if v == 0x05 {
            Some(FTEXTileMode::TwoDTiledThin2)
        } else if v == 0x06 {
            Some(FTEXTileMode::TwoDTiledThin4)
        } else if v == 0x07 {
            Some(FTEXTileMode::TwoDTiledThick)
        } else if v == 0x08 {
            Some(FTEXTileMode::TwoBTiledThin1)
        } else if v == 0x09 {
            Some(FTEXTileMode::TwoBTiledThin2)
        } else if v == 0x0A {
            Some(FTEXTileMode::TwoBTiledThin4)
        } else if v == 0x0B {
            Some(FTEXTileMode::TwoBTiledThick)
        } else if v == 0x0C {
            Some(FTEXTileMode::ThreeDTiledThin1)
        } else if v == 0x0D {
            Some(FTEXTileMode::ThreeDTiledThick)
        } else if v == 0x0E {
            Some(FTEXTileMode::ThreeBTiledThin1)
        } else if v == 0x0F {
            Some(FTEXTileMode::ThreeBTiledThick)
        } else {
            None
        }
    }
}

/// Source channel one output component reads from.
#[derive(Clone, Copy, Debug, PartialEq, Eq, Structural)]
pub enum FTEXComponentSelectorChannel {
    Red,
    Green,
    Blue,
    Alpha,
    Zero,
    One,
}

impl FTEXComponentSelectorChannel {
    /// The variant a wire code decodes to, or `None` for an unrecognised
    /// code.
    pub open spec fn spec_decode(v: u32) -> Option<FTEXComponentSelectorChannel> {
        if v == 0 {
            Some(FTEXComponentSelectorChannel::Red)
        } else if v == 1 {
            Some(FTEXComponentSelectorChannel::Green)
        } else if v == 2 {
            Some(FTEXComponentSelectorChannel::Blue)
        } else if v == 3 {
            Some(FTEXComponentSelectorChannel::Alpha)
        } else if v == 4 {
            Some(FTEXComponentSelectorChannel::Zero)
        } else if v == 5 {
            Some(FTEXComponentSelectorChannel::One)
        } else {
            None
        }
    }

    /// Decodes a wire code.
    pub fn decode(v: u32) -> (r: Option<FTEXComponentSelectorChannel>)
        ensures
            r == FTEXComponentSelectorChannel::spec_decode(v),
    {
        if v == 0 {
            Some(FTEXComponentSelectorChannel::Red)
        } else if v == 1 {
            Some(FTEXComponentSelectorChannel::Green)
        } else if v == 2 {
            Some(FTEXComponentSelectorChannel::Blue)
        } else if v == 3 {
            Some(FTEXComponentSelectorChannel::Alpha)
        } else if v == 4 {
            Some(FTEXComponentSelectorChannel::Zero)
        } else if v == 5 {
            Some(FTEXComponentSelectorChannel::One)
        } else {
            None
        }
    }
}

impl FTEXFormat {
    /// Whether the format is one of the BC1..BC5 block-compressed families.
    pub open spec fn spec_is_block_compressed(&self) -> bool {
        match self {
            FTEXFormat::TBc1Unorm
            | FTEXFormat::TBc1Srgb
            | FTEXFormat::TBc2Unorm
            | FTEXFormat::TBc2Srgb
            | FTEXFormat::TBc3Unorm
            | FTEXFormat::TBc3Srgb
            | FTEXFormat::TBc4Unorm
            | FTEXFormat::TBc4Snorm
            | FTEXFormat::TBc5Unorm
            | FTEXFormat::TBc5Snorm => true,
            _ => false,
        }
    }

    #[verifier::when_used_as_spec(spec_is_block_compressed)]
    pub fn is_block_compressed(&self) -> (r: bool)
        ensures
            r == self.spec_is_block_compressed(),
    {
        match *self {
            FTEXFormat::TBc1Unorm
            | FTEXFormat::TBc1Srgb
            | FTEXFormat::TBc2Unorm
            | FTEXFormat::TBc2Srgb
            | FTEXFormat::TBc3Unorm
            | FTEXFormat::TBc3Srgb
            | FTEXFormat::TBc4Unorm
            | FTEXFormat::TBc4Snorm
            | FTEXFormat::TBc5Unorm
            | FTEXFormat::TBc5Snorm => true,
            _ => false,
        }
    }
}

impl FTEXTileMode {
    /// Whether the mode belongs to the bank-swapped `2B*`/`3B*` families.
    pub open spec fn spec_is_bank_swapped(&self) -> bool {
        match self {
            FTEXTileMode::TwoBTiledThin1
            | FTEXTileMode::TwoBTiledThin2
            | FTEXTileMode::TwoBTiledThin4
            | FTEXTileMode::TwoBTiledThick
            | FTEXTileMode::ThreeBTiledThin1
            | FTEXTileMode::ThreeBTiledThick => true,
            _ => false,
        }
    }

    #[verifier::when_used_as_spec(spec_is_bank_swapped)]
    pub fn is_bank_swapped(&self) -> (r: bool)
        ensures
            r == self.spec_is_bank_swapped(),
    {
        match *self {
            FTEXTileMode::TwoBTiledThin1
            | FTEXTileMode::TwoBTiledThin2
            | FTEXTileMode::TwoBTiledThin4
            | FTEXTileMode::TwoBTiledThick
            | FTEXTileMode::ThreeBTiledThin1
            | FTEXTileMode::ThreeBTiledThick => true,
            _ => false,
        }
    }

    /// Whether the mode is one of the four-deep `Thick` variants.
    pub open spec fn spec_is_thick(&self) -> bool {
        match self {
            FTEXTileMode::TwoDTiledThick
            | FTEXTileMode::TwoBTiledThick
            | FTEXTileMode::ThreeDTiledThick
            | FTEXTileMode::ThreeBTiledThick => true,
            _ => false,
        }
    }

    #[verifier::when_used_as_spec(spec_is_thick)]
    pub fn is_thick(&self) -> (r: bool)
        ensures
            r == self.spec_is_thick(),
    {
        match *self {
            FTEXTileMode::TwoDTiledThick
            | FTEXTileMode::TwoBTiledThick
            | FTEXTileMode::ThreeDTiledThick
            | FTEXTileMode::ThreeBTiledThick => true,
            _ => false,
        }
    }

    /// Macro-tile aspect ratio: 2 for `Thin2` variants, 4 for `Thin4`, else 1.
    pub open spec fn spec_aspect_ratio(&self) -> u8 {
        match self {
            FTEXTileMode::TwoDTiledThin2 | FTEXTileMode::TwoBTiledThin2 => 2u8,
            FTEXTileMode::TwoDTiledThin4 | FTEXTileMode::TwoBTiledThin4 => 4u8,
            _ => 1u8,
        }
    }

    #[verifier::when_used_as_spec(spec_aspect_ratio)]
    pub fn get_aspect_ratio(&self) -> (r: u8)
        ensures
            r == self.spec_aspect_ratio(),
    {
        match *self {
            FTEXTileMode::TwoDTiledThin2 | FTEXTileMode::TwoBTiledThin2 => 2,
            FTEXTileMode::TwoDTiledThin4 | FTEXTileMode::TwoBTiledThin4 => 4,
            _ => 1,
        }
    }

    /// Micro-tile depth: 4 for thick variants, 8 for `LinearSpecial`, else 1.
    pub open spec fn spec_surface_thickness(&self) -> u8 {
        match self {
            FTEXTileMode::OneDTiledThick
            | FTEXTileMode::TwoDTiledThick
            | FTEXTileMode::TwoBTiledThick
            | FTEXTileMode::ThreeDTiledThick
            | FTEXTileMode::ThreeBTiledThick => 4u8,
            FTEXTileMode::LinearSpecial => 8u8,
            _ => 1u8,
        }
    }

    #[verifier::when_used_as_spec(spec_surface_thickness)]
    pub fn get_surface_thickness(&self) -> (r: u8)
        ensures
            r == self.spec_surface_thickness(),
    {
        match *self {
            FTEXTileMode::OneDTiledThick
            | FTEXTileMode::TwoDTiledThick
            | FTEXTileMode::TwoBTiledThick
            | FTEXTileMode::ThreeDTiledThick
            | FTEXTileMode::ThreeBTiledThick => 4,
            FTEXTileMode::LinearSpecial => 8,
            _ => 1,
        }
    }
}

/// Usage bitfield, decoded as booleans; every word decodes.
#[derive(Clone, Copy, Debug, PartialEq, Eq, Structural)]
pub struct FTEXUsage {
    pub texture: bool,
    pub color_buffer: bool,
    pub depth_buffer: bool,
    pub scan_buffer: bool,
    pub ftv: bool,
}

impl FTEXUsage {
    pub open spec fn spec_decode(v: u32) -> FTEXUsage {
        FTEXUsage {
            texture: v & 1 == 1,
            color_buffer: v & 2 == 2,
            depth_buffer: v & 4 == 4,
            scan_buffer: v & 8 == 8,
            ftv: v & 0x8000_0000 == 0x8000_0000,
        }
    }

    pub fn decode(v: u32) -> (r: FTEXUsage)
        ensures
            r == FTEXUsage::spec_decode(v),
    {
        FTEXUsage {
            texture: v & 1 == 1,
            color_buffer: v & 2 == 2,
            depth_buffer: v & 4 == 4,
            scan_buffer: v & 8 == 8,
            ftv: v & 0x8000_0000 == 0x8000_0000,
        }
    }
}

/// The four output components' source channels.
#[derive(Clone, Copy, Debug, PartialEq, Eq)]
pub struct FTEXComponentSelector {
    pub composition: [FTEXComponentSelectorChannel; 4],
}


/// Texture sub-file header (magic `FTEX`). The data pointer, mipmap pointer
/// and texture handle are run-time fields and must be zero on disk; the
/// nominal mip count is recorded twice and the two copies must agree; the
/// starting slice must be zero.
#[derive(Debug)]
pub struct FTEXHeader {
    pub dimension: FTEXDimension,
    pub texture_width: u32,
    pub texture_height: u32,
    pub texture_depth: u32,
    pub nb_mipmaps: u32,
    pub texture_format: FTEXFormat,
    pub aa_mode: FTEXAAMode,
    pub usage: FTEXUsage,
    pub data_length: u32,
    pub mipmaps_data_length: u32,
    pub tile_mode: FTEXTileMode,
    pub swizzle_value: u32,
    pub alignment: u32,
    pub pitch: u32,
    pub mipmap_offsets: [u32; 13],
    pub first_mipmap: u32,
    pub nb_mipmaps_duplicate: u32,
    pub nb_slices: u32,
    pub component_selector: FTEXComponentSelector,
    pub texture_registers: [u32; 5],
    pub array_length: u32,
    pub file_name_offset: Pointer,
    pub file_path_offset: Pointer,
    pub data_offset: Pointer,
    pub mipmap_offset: Pointer,
    pub user_data_index_group_offset: Pointer,
    pub user_data_entry_count: u16,
}

impl FTEXHeader {
    pub open spec fn magic_ok(s: Seq<u8>, p: int) -> bool {
        s.subrange(p, p + 4) == seq![0x46u8, 0x54u8, 0x45u8, 0x58u8]
    }

    /// The fields this header holds when its 190 bytes were read at `p`.
    pub open spec fn parsed_at(self, s: Seq<u8>, p: int) -> bool {
        &&& Some(self.dimension) == FTEXDimension::spec_decode(be_u32_at(s, p + 4) as u32)
        &&& self.texture_width == be_u32_at(s, p + 8)
        &&& self.texture_height == be_u32_at(s, p + 12)
        &&& self.texture_depth == be_u32_at(s, p + 16)
        &&& self.nb_mipmaps == be_u32_at(s, p + 20)
        &&& Some(self.texture_format) == FTEXFormat::spec_decode(be_u32_at(s, p + 24) as u32)
        &&& Some(self.aa_mode) == FTEXAAMode::spec_decode(be_u32_at(s, p + 28) as u32)
        &&& self.usage == FTEXUsage::spec_decode(be_u32_at(s, p + 32) as u32)
        &&& self.data_length == be_u32_at(s, p + 36)
        &&& self.mipmaps_data_length == be_u32_at(s, p + 44)
        &&& Some(self.tile_mode) == FTEXTileMode::spec_decode(be_u32_at(s, p + 52) as u32)
        &&& self.swizzle_value == be_u32_at(s, p + 56)
        &&& self.alignment == be_u32_at(s, p + 60)
        &&& self.pitch == be_u32_at(s, p + 64)
        &&& forall|k: int|
            0 <= k < 13 ==> #[trigger] self.mipmap_offsets@[k] == be_u32_at(s, p + 68 + 4 * k)
        &&& self.first_mipmap == be_u32_at(s, p + 120)
        &&& self.nb_mipmaps_duplicate == be_u32_at(s, p + 124)
        &&& self.nb_mipmaps_duplicate == self.nb_mipmaps
        &&& self.nb_slices == be_u32_at(s, p + 132)
        &&& Some(self.component_selector.composition@[0])
            == FTEXComponentSelectorChannel::spec_decode(s[p + 136] as u32)
        &&& Some(self.component_selector.composition@[1])
            == FTEXComponentSelectorChannel::spec_decode(s[p + 137] as u32)
        &&& Some(self.component_selector.composition@[2])
            == FTEXComponentSelectorChannel::spec_decode(s[p + 138] as u32)
        &&& Some(self.component_selector.composition@[3])
            == FTEXComponentSelectorChannel::spec_decode(s[p + 139] as u32)
        &&& forall|k: int|
            0 <= k < 5 ==> #[trigger] self.texture_registers@[k] == be_u32_at(s, p + 140 + 4 * k)
        &&& self.array_length == be_u32_at(s, p + 164)
        &&& crate::fmdl::rel_ptr_at(s, p + 168, self.file_name_offset)
        &&& crate::fmdl::rel_ptr_at(s, p + 172, self.file_path_offset)
        &&& crate::fmdl::rel_ptr_at(s, p + 176, self.data_offset)
        &&& crate::fmdl::rel_ptr_at(s, p + 180, self.mipmap_offset)
        &&& crate::fmdl::rel_ptr_at(s, p + 184, self.user_data_index_group_offset)
        &&& self.user_data_entry_count == be_u16_at(s, p + 188)
    }

    /// Whether the header at `p` decodes: in range, magic right, all
    /// enumerated codes defined, reserved words zero, the duplicated mip
    /// count equal to the first, the starting slice zero.
    pub open spec fn ok_at(s: Seq<u8>, p: int) -> bool {
        &&& p + 190 <= s.len()
        &&& FTEXHeader::magic_ok(s, p)
        &&& FTEXDimension::spec_decode(be_u32_at(s, p + 4) as u32) is Some
        &&& FTEXFormat::spec_decode(be_u32_at(s, p + 24) as u32) is Some
        &&& FTEXAAMode::spec_decode(be_u32_at(s, p + 28) as u32) is Some
        &&& be_u32_at(s, p + 40) == 0
        &&& be_u32_at(s, p + 48) == 0
        &&& FTEXTileMode::spec_decode(be_u32_at(s, p + 52) as u32) is Some
        &&& be_u32_at(s, p + 124) == be_u32_at(s, p + 20)
        &&& be_u32_at(s, p + 128) == 0
        &&& FTEXComponentSelectorChannel::spec_decode(s[p + 136] as u32) is Some
        &&& FTEXComponentSelectorChannel::spec_decode(s[p + 137] as u32) is Some
        &&& FTEXComponentSelectorChannel::spec_decode(s[p + 138] as u32) is Some
        &&& FTEXComponentSelectorChannel::spec_decode(s[p + 139] as u32) is Some
        &&& be_u32_at(s, p + 160) == 0
    }

    /// The error the header at `p` decodes to, in read order.
    pub open spec fn err_at(s: Seq<u8>, p: int) -> DecodeError {
        if p + 4 > s.len() {
            DecodeError::Truncated
        } else if !FTEXHeader::magic_ok(s, p) {
            DecodeError::WrongMagic {
                expected: [0x46u8, 0x54u8, 0x45u8, 0x58u8],
                found: [s[p], s[p + 1], s[p + 2], s[p + 3]],
            }
        } else if p + 8 > s.len() {
            DecodeError::Truncated
        } else if FTEXDimension::spec_decode(be_u32_at(s, p + 4) as u32) is None {
            DecodeError::UnknownEnumValue {
                kind: EnumKind::Dimension,
                value: be_u32_at(s, p + 4) as u32,
            }
        } else if p + 28 > s.len() {
            DecodeError::Truncated
        } else if FTEXFormat::spec_decode(be_u32_at(s, p + 24) as u32) is None {
            DecodeError::UnknownEnumValue {
                kind: EnumKind::TextureFormat,
                value: be_u32_at(s, p + 24) as u32,
            }
        } else if p + 32 > s.len() {
            DecodeError::Truncated
        } else if FTEXAAMode::spec_decode(be_u32_at(s, p + 28) as u32) is None {
            DecodeError::UnknownEnumValue { kind: EnumKind::AaMode, value: be_u32_at(s, p + 28) as u32 }
        } else if p + 44 > s.len() {
            DecodeError::Truncated
        } else if be_u32_at(s, p + 40) != 0 {
            DecodeError::NonZeroReserved { field: ReservedField::DataPointer }
        } else if p + 52 > s.len() {
            DecodeError::Truncated
        } else if be_u32_at(s, p + 48) != 0 {
            DecodeError::NonZeroReserved { field: ReservedField::MipmapPointer }
        } else if p + 56 > s.len() {
            DecodeError::Truncated
        } else if FTEXTileMode::spec_decode(be_u32_at(s, p + 52) as u32) is None {
            DecodeError::UnknownEnumValue {
                kind: EnumKind::TileMode,
                value: be_u32_at(s, p + 52) as u32,
            }
        } else if p + 128 > s.len() {
            DecodeError::Truncated
        } else if be_u32_at(s, p + 124) != be_u32_at(s, p + 20) {
            DecodeError::NonZeroReserved { field: ReservedField::MipmapCountDuplicate }
        } else if p + 132 > s.len() {
            DecodeError::Truncated
        } else if be_u32_at(s, p + 128) != 0 {
            DecodeError::NonZeroReserved { field: ReservedField::FirstSlice }
        } else if p + 137 > s.len() {
            DecodeError::Truncated
        } else if FTEXComponentSelectorChannel::spec_decode(s[p + 136] as u32) is None {
            DecodeError::UnknownEnumValue { kind: EnumKind::SelectorChannel, value: s[p + 136] as u32 }
        } else if p + 138 > s.len() {
            DecodeError::Truncated
        } else if FTEXComponentSelectorChannel::spec_decode(s[p + 137] as u32) is None {
            DecodeError::UnknownEnumValue { kind: EnumKind::SelectorChannel, value: s[p + 137] as u32 }
        } else if p + 139 > s.len() {
            DecodeError::Truncated
        } else if FTEXComponentSelectorChannel::spec_decode(s[p + 138] as u32) is None {
            DecodeError::UnknownEnumValue { kind: EnumKind::SelectorChannel, value: s[p + 138] as u32 }
        } else if p + 140 > s.len() {
            DecodeError::Truncated
        } else if FTEXComponentSelectorChannel::spec_decode(s[p + 139] as u32) is None {
            DecodeError::UnknownEnumValue { kind: EnumKind::SelectorChannel, value: s[p + 139] as u32 }
        } else if p + 164 > s.len() {
            DecodeError::Truncated
        } else if be_u32_at(s, p + 160) != 0 {
            DecodeError::NonZeroReserved { field: ReservedField::TextureHandle }
        } else {
            DecodeError::Truncated
        }
    }
}

/// The full decoding contract of a texture header.
pub open spec fn ftex_header_import_ens(src0: ByteSource, src1: ByteSource, r: Result<
    FTEXHeader,
    DecodeError,
>) -> bool {
    let s = src0.data@;
    let p = src0.pos as int;
    match r {
        Ok(h) => FTEXHeader::ok_at(s, p) && h.parsed_at(s, p) && src1.pos == p + 190,
        Err(e) => !FTEXHeader::ok_at(s, p) && e == FTEXHeader::err_at(s, p),
    }
}

impl Importable for FTEXHeader {
    open spec fn import_ens(src0: ByteSource, src1: ByteSource, r: Result<Self, DecodeError>) -> bool {
        ftex_header_import_ens(src0, src1, r)
    }

    #[verifier::rlimit(100)]
    fn import(src: &mut ByteSource) -> (r: Result<Self, DecodeError>) {
        let ghost s = src.data@;
        let ghost p = src.pos as int;
        let magic = src.read_exact_4()?;
        if let Err(e) = check_magic_number(magic, [0x46u8, 0x54u8, 0x45u8, 0x58u8]) {
            proof {
                let b: [u8; 4] = [s[p], s[p + 1], s[p + 2], s[p + 3]];
                assert(magic =~= b);
            }
            return Err(e);
        }
        proof {
            assert(FTEXHeader::magic_ok(s, p));
        }
        let dim_code = src.read_be_to_u32()?;
        let dimension = match FTEXDimension::decode(dim_code) {
            Some(d) => d,
            None => {
                return Err(
                    DecodeError::UnknownEnumValue { kind: EnumKind::Dimension, value: dim_code },
                );
            },
        };
        let texture_width = src.read_be_to_u32()?;
        let texture_height = src.read_be_to_u32()?;
        let texture_depth = src.read_be_to_u32()?;
        let nb_mipmaps = src.read_be_to_u32()?;
        let fmt_code = src.read_be_to_u32()?;
        let texture_format = match FTEXFormat::decode(fmt_code) {
            Some(f) => f,
            None => {
                return Err(
                    DecodeError::UnknownEnumValue { kind: EnumKind::TextureFormat, value: fmt_code },
                );
            },
        };
        let aa_code = src.read_be_to_u32()?;
        let aa_mode = match FTEXAAMode::decode(aa_code) {
            Some(a) => a,
            None => {
                return Err(DecodeError::UnknownEnumValue { kind: EnumKind::AaMode, value: aa_code });
            },
        };
        let usage_word = src.read_be_to_u32()?;
        let usage = FTEXUsage::decode(usage_word);
        let data_length = src.read_be_to_u32()?;
        let data_pointer = src.read_be_to_u32()?;
        if data_pointer != 0 {
            return Err(DecodeError::NonZeroReserved { field: ReservedField::DataPointer });
        }
        let mipmaps_data_length = src.read_be_to_u32()?;
        let mipmaps_pointer = src.read_be_to_u32()?;
        if mipmaps_pointer != 0 {
            return Err(DecodeError::NonZeroReserved { field: ReservedField::MipmapPointer });
        }
        let tile_code = src.read_be_to_u32()?;
        let tile_mode = match FTEXTileMode::decode(tile_code) {
            Some(t) => t,
            None => {
                return Err(
                    DecodeError::UnknownEnumValue { kind: EnumKind::TileMode, value: tile_code },
                );
            },
        };
        let swizzle_value = src.read_be_to_u32()?;
        let alignment = src.read_be_to_u32()?;
        let pitch = src.read_be_to_u32()?;
        let mipmap_offsets: [u32; 13] = [
            src.read_be_to_u32()?,
            src.read_be_to_u32()?,
            src.read_be_to_u32()?,
            src.read_be_to_u32()?,
            src.read_be_to_u32()?,
            src.read_be_to_u32()?,
            src.read_be_to_u32()?,
            src.read_be_to_u32()?,
            src.read_be_to_u32()?,
            src.read_be_to_u32()?,
            src.read_be_to_u32()?,
            src.read_be_to_u32()?,
            src.read_be_to_u32()?,
        ];
        let first_mipmap = src.read_be_to_u32()?;
        let nb_mipmaps_duplicate = src.read_be_to_u32()?;
        if nb_mipmaps_duplicate != nb_mipmaps {
            return Err(DecodeError::NonZeroReserved { field: ReservedField::MipmapCountDuplicate });
        }
        let first_slice = src.read_be_to_u32()?;
        if first_slice != 0 {
            return Err(DecodeError::NonZeroReserved { field: ReservedField::FirstSlice });
        }
        let nb_slices = src.read_be_to_u32()?;
        let c0_code = src.read_to_u8()?;
        let c0 = match FTEXComponentSelectorChannel::decode(c0_code as u32) {
            Some(c) => c,
            None => {
                return Err(
                    DecodeError::UnknownEnumValue {
                        kind: EnumKind::SelectorChannel,
                        value: c0_code as u32,
                    },
                );
            },
        };
        let c1_code = src.read_to_u8()?;
        let c1 = match FTEXComponentSelectorChannel::decode(c1_code as u32) {
            Some(c) => c,
            None => {
                return Err(
                    DecodeError::UnknownEnumValue {
                        kind: EnumKind::SelectorChannel,
                        value: c1_code as u32,
                    },
                );
            },
        };
        let c2_code = src.read_to_u8()?;
        let c2 = match FTEXComponentSelectorChannel::decode(c2_code as u32) {
            Some(c) => c,
            None => {
                return Err(
                    DecodeError::UnknownEnumValue {
                        kind: EnumKind::SelectorChannel,
                        value: c2_code as u32,
                    },
                );
            },
        };
        let c3_code = src.read_to_u8()?;
        let c3 = match FTEXComponentSelectorChannel::decode(c3_code as u32) {
            Some(c) => c,
            None => {
                return Err(
                    DecodeError::UnknownEnumValue {
                        kind: EnumKind::SelectorChannel,
                        value: c3_code as u32,
                    },
                );
            },
        };
        let component_selector = FTEXComponentSelector { composition: [c0, c1, c2, c3] };
        let texture_registers: [u32; 5] = [
            src.read_be_to_u32()?,
            src.read_be_to_u32()?,
            src.read_be_to_u32()?,
            src.read_be_to_u32()?,
            src.read_be_to_u32()?,
        ];
        let texture_handle = src.read_be_to_u32()?;
        if texture_handle != 0 {
            return Err(DecodeError::NonZeroReserved { field: ReservedField::TextureHandle });
        }
        let array_length = src.read_be_to_u32()?;
        let file_name_offset = Pointer::read_new_rel_i32_be(src)?;
        let file_path_offset = Pointer::read_new_rel_i32_be(src)?;
        let data_offset = Pointer::read_new_rel_i32_be(src)?;
        let mipmap_offset = Pointer::read_new_rel_i32_be(src)?;
        let user_data_index_group_offset = Pointer::read_new_rel_i32_be(src)?;
        let user_data_entry_count = src.read_be_to_u16()?;
        Ok(
            FTEXHeader {
                dimension,
                texture_width,
                texture_height,
                texture_depth,
                nb_mipmaps,
                texture_format,
                aa_mode,
                usage,
                data_length,
                mipmaps_data_length,
                tile_mode,
                swizzle_value,
                alignment,
                pitch,
                mipmap_offsets,
                first_mipmap,
                nb_mipmaps_duplicate,
                nb_slices,
                component_selector,
                texture_registers,
                array_length,
                file_name_offset,
                file_path_offset,
                data_offset,
                mipmap_offset,
                user_data_index_group_offset,
                user_data_entry_count,
            },
        )
    }
}

/// One GPU surface descriptor.
#[derive(Debug)]
pub struct FTEX {
    pub header: FTEXHeader,
}

impl Importable for FTEX {
    open spec fn import_ens(src0: ByteSource, src1: ByteSource, r: Result<Self, DecodeError>) -> bool {
        match r {
            Ok(t) => ftex_header_import_ens(src0, src1, Ok(t.header)),
            Err(e) => ftex_header_import_ens(src0, src1, Err(e)),
        }
    }

    fn import(src: &mut ByteSource) -> (r: Result<Self, DecodeError>) {
        let header = FTEXHeader::import(src)?;
        Ok(FTEX { header })
    }
}

} // verus!
