//! Model sub-file: header, vertex buffers with attribute descriptors,
//! material headers, skeleton, and shapes with LOD models and visibility
//! groups. All nested collections are reached through the index-group and
//! data-array handles.

use crate::error::DecodeError;
use crate::error::EnumKind;
use crate::error::ReservedField;
use crate::error::check_magic_number;
use crate::group::DataArray;
use crate::group::Importable;
use crate::group::IndexGroup;
use crate::group::index_group_count;
use crate::group::index_group_err;
use crate::group::index_group_ok;
use crate::pointer::Pointer;
use crate::source::ByteSource;
use crate::source::be_i16_at;
use crate::source::be_i32_at;
use crate::source::be_u16_at;
use crate::source::be_u32_at;
use vstd::prelude::*;

verus! {

/// Raw-bytes descriptor shared by vertex and index buffers. The on-disk
/// data-pointer, handle and context-pointer fields are run-time fields and
/// must be zero.
#[derive(Debug)]
pub struct BufferInfo {
    pub size: u32,
    pub stride: u16,
    pub buffering_count: u16,
    pub data_offset: Pointer,
}

impl BufferInfo {
    /// The fields this record holds when its 24 bytes were read at `p`.
    pub open spec fn parsed_at(self, s: Seq<u8>, p: int) -> bool {
        &&& self.size == be_u32_at(s, p + 4)
        &&& self.stride == be_u16_at(s, p + 12)
        &&& self.buffering_count == be_u16_at(s, p + 14)
        &&& self.data_offset.location == Some((p + 20) as u64)
        &&& self.data_offset.points_to == be_i32_at(s, p + 20)
    }

    /// Whether the record at `p` decodes: in range and reserved words zero.
    pub open spec fn ok_at(s: Seq<u8>, p: int) -> bool {
        &&& p + 24 <= s.len()
        &&& be_u32_at(s, p) == 0
        &&& be_u32_at(s, p + 8) == 0
        &&& be_u32_at(s, p + 16) == 0
    }

    /// The error the record at `p` decodes to, in read order.
    pub open spec fn err_at(s: Seq<u8>, p: int) -> DecodeError {
        if p + 4 > s.len() {
            DecodeError::Truncated
        } else if be_u32_at(s, p) != 0 {
            DecodeError::NonZeroReserved { field: ReservedField::DataPointer }
        } else if p + 12 > s.len() {
            DecodeError::Truncated
        } else if be_u32_at(s, p + 8) != 0 {
            DecodeError::NonZeroReserved { field: ReservedField::Handle }
        } else if p + 20 > s.len() {
            DecodeError::Truncated
        } else if be_u32_at(s, p + 16) != 0 {
            DecodeError::NonZeroReserved { field: ReservedField::ContextPointer }
        } else {
            DecodeError::Truncated
        }
    }
}

impl Importable for BufferInfo {
    open spec fn import_ens(src0: ByteSource, src1: ByteSource, r: Result<Self, DecodeError>) -> bool {
        let s = src0.data@;
        let p = src0.pos as int;
        match r {
            Ok(b) => BufferInfo::ok_at(s, p) && b.parsed_at(s, p) && src1.pos == p + 24,
            Err(e) => !BufferInfo::ok_at(s, p) && e == BufferInfo::err_at(s, p),
        }
    }

    fn import(src: &mut ByteSource) -> (r: Result<Self, DecodeError>) {
        let data_pointer = src.read_be_to_u32()?;
        if data_pointer != 0 {
            return Err(DecodeError::NonZeroReserved { field: ReservedField::DataPointer });
        }
        let size = src.read_be_to_u32()?;
        let handle = src.read_be_to_u32()?;
        if handle != 0 {
            return Err(DecodeError::NonZeroReserved { field: ReservedField::Handle });
        }
        let stride = src.read_be_to_u16()?;
        let buffering_count = src.read_be_to_u16()?;
        let context_pointer = src.read_be_to_u32()?;
        if context_pointer != 0 {
            return Err(DecodeError::NonZeroReserved { field: ReservedField::ContextPointer });
        }
        let data_offset = Pointer::read_new_rel_i32_be(src)?;
        Ok(BufferInfo { size, stride, buffering_count, data_offset })
    }
}

/// Attribute format codes: lane count, lane width, signedness and the
/// integer-to-float normalisation path are all determined by the code.
#[derive(Clone, Copy, Debug, PartialEq, Eq, Structural)]
pub enum FVTXAttributesFormats {
    U8ToF32,
    TwoU8ToTwoF32,
    TwoU16ToTwoF32,
    FourU8ToFourF32,
    U8ToU32,
    TwoU8ToTwoU32,
    FourU8ToFourU32,
    I8ToF32,
    TwoI8ToF32,
    TwoI16ToTwoF32,
    FourI8ToFourF32,
    ThreeI10toThreeF32,
    I8,
    TwoI8,
    FourI8,
    F32,
    TwoF16ToTwoF32,
    TwoF32,
    FourF16ToFourF32,
    ThreeF32,
    FourF32,
}

impl FVTXAttributesFormats {
    /// The variant a 32-bit wire code decodes to, or `None` for an
    /// unrecognised code.
    pub open spec fn spec_decode(v: u32) -> Option<FVTXAttributesFormats> {
        if v == 0x000 {
            Some(FVTXAttributesFormats::U8ToF32)
        } else if v == 0x004 {
            Some(FVTXAttributesFormats::TwoU8ToTwoF32)
        } else if v == 0x007 {
            Some(FVTXAttributesFormats::TwoU16ToTwoF32)
        } else if v == 0x00A {
            Some(FVTXAttributesFormats::FourU8ToFourF32)
        } else if v == 0x100 {
            Some(FVTXAttributesFormats::U8ToU32)
        } else if v == 0x104 {
            Some(FVTXAttributesFormats::TwoU8ToTwoU32)
        } else if v == 0x10A {
            Some(FVTXAttributesFormats::FourU8ToFourU32)
        } else if v == 0x200 {
            Some(FVTXAttributesFormats::I8ToF32)
        } else if v == 0x204 {
            Some(FVTXAttributesFormats::TwoI8ToF32)
        } else if v == 0x207 {
            Some(FVTXAttributesFormats::TwoI16ToTwoF32)
        } else if v == 0x20A {
            Some(FVTXAttributesFormats::FourI8ToFourF32)
        } else if v == 0x20B {
            Some(FVTXAttributesFormats::ThreeI10toThreeF32)
        } else if v == 0x300 {
            Some(FVTXAttributesFormats::I8)
        } else if v == 0x304 {
            Some(FVTXAttributesFormats::TwoI8)
        } else if v == 0x30A {
            Some(FVTXAttributesFormats::FourI8)
        } else if v == 0x806 {
            Some(FVTXAttributesFormats::F32)
        } else if v == 0x808 {
            Some(FVTXAttributesFormats::TwoF16ToTwoF32)
        } else if v == 0x80D {
            Some(FVTXAttributesFormats::TwoF32)
        } else if v == 0x80F {
            Some(FVTXAttributesFormats::FourF16ToFourF32)
        } else if v == 0x811 {
            Some(FVTXAttributesFormats::ThreeF32)
        } else if v == 0x813 {
            Some(FVTXAttributesFormats::FourF32)
        } else {
            None
        }
    }

    /// Decodes a 32-bit wire code.
    pub fn decode(v: u32) -> (r: Option<FVTXAttributesFormats>)
        ensures
            r == FVTXAttributesFormats::spec_decode(v),
    {
        if v == 0x000 {
            Some(FVTXAttributesFormats::U8ToF32)
        } else if v == 0x004 {
            Some(FVTXAttributesFormats::TwoU8ToTwoF32)
        } else if v == 0x007 {
            Some(FVTXAttributesFormats::TwoU16ToTwoF32)
        } else if v == 0x00A {
            Some(FVTXAttributesFormats::FourU8ToFourF32)
        } else if v == 0x100 {
            Some(FVTXAttributesFormats::U8ToU32)
        } else if v == 0x104 {
            Some(FVTXAttributesFormats::TwoU8ToTwoU32)
        } else if v == 0x10A {
            Some(FVTXAttributesFormats::FourU8ToFourU32)
        } else if v == 0x200 {
            Some(FVTXAttributesFormats::I8ToF32)
        } else if v == 0x204 {
            Some(FVTXAttributesFormats::TwoI8ToF32)
        } else if v == 0x207 {
            Some(FVTXAttributesFormats::TwoI16ToTwoF32)
        } else if v == 0x20A {
            Some(FVTXAttributesFormats::FourI8ToFourF32)
        } else if v == 0x20B {
            Some(FVTXAttributesFormats::ThreeI10toThreeF32)
        } else if v == 0x300 {
            Some(FVTXAttributesFormats::I8)
        } else if v == 0x304 {
            Some(FVTXAttributesFormats::TwoI8)
        } else if v == 0x30A {
            Some(FVTXAttributesFormats::FourI8)
        } else if v == 0x806 {
            Some(FVTXAttributesFormats::F32)
        } else if v == 0x808 {
            Some(FVTXAttributesFormats::TwoF16ToTwoF32)
        } else if v == 0x80D {
            Some(FVTXAttributesFormats::TwoF32)
        } else if v == 0x80F {
            Some(FVTXAttributesFormats::FourF16ToFourF32)
        } else if v == 0x811 {
            Some(FVTXAttributesFormats::ThreeF32)
        } else if v == 0x813 {
            Some(FVTXAttributesFormats::FourF32)
        } else {
            None
        }
    }
}

/// One vertex stream descriptor.
#[derive(Debug)]
pub struct FVTXAttributes {
    pub attribute_name_offset: Pointer,
    pub buffer_info_index: u8,
    pub buffer_offset: u16,
    pub format: FVTXAttributesFormats,
}

impl FVTXAttributes {
    pub open spec fn parsed_at(self, s: Seq<u8>, p: int) -> bool {
        &&& self.attribute_name_offset.location == Some(p as u64)
        &&& self.attribute_name_offset.points_to == be_i32_at(s, p)
        &&& self.buffer_info_index == s[p + 4]
        &&& self.buffer_offset == be_u16_at(s, p + 6)
        &&& Some(self.format) == FVTXAttributesFormats::spec_decode(be_u32_at(s, p + 8) as u32)
    }

    pub open spec fn ok_at(s: Seq<u8>, p: int) -> bool {
        p + 12 <= s.len() && FVTXAttributesFormats::spec_decode(be_u32_at(s, p + 8) as u32) is Some
    }

    pub open spec fn err_at(s: Seq<u8>, p: int) -> DecodeError {
        if p + 12 > s.len() {
            DecodeError::Truncated
        } else {
            DecodeError::UnknownEnumValue {
                kind: EnumKind::AttributeFormat,
                value: be_u32_at(s, p + 8) as u32,
            }
        }
    }
}

impl Importable for FVTXAttributes {
    open spec fn import_ens(src0: ByteSource, src1: ByteSource, r: Result<Self, DecodeError>) -> bool {
        let s = src0.data@;
        let p = src0.pos as int;
        match r {
            Ok(a) => FVTXAttributes::ok_at(s, p) && a.parsed_at(s, p) && src1.pos == p + 12,
            Err(e) => !FVTXAttributes::ok_at(s, p) && e == FVTXAttributes::err_at(s, p),
        }
    }

    fn import(src: &mut ByteSource) -> (r: Result<Self, DecodeError>) {
        let attribute_name_offset = Pointer::read_new_rel_i32_be(src)?;
        let buffer_info_index = src.read_to_u8()?;
        src.skip(1)?;
        let buffer_offset = src.read_be_to_u16()?;
        let code = src.read_be_to_u32()?;
        let format = match FVTXAttributesFormats::decode(code) {
            Some(f) => f,
            None => {
                return Err(
                    DecodeError::UnknownEnumValue { kind: EnumKind::AttributeFormat, value: code },
                );
            },
        };
        Ok(FVTXAttributes { attribute_name_offset, buffer_info_index, buffer_offset, format })
    }
}

/// Primitive stream topology; wire codes are non-contiguous.
#[derive(Clone, Copy, Debug, PartialEq, Eq, Structural)]
pub enum FSHPLODModelPrimitiveType {
    Points,
    Lines,
    LineStrip,
    Triangles,
    TriangleFan,
    TriangleStrip,
    LinesAdjacency,
    LineStripAdjacency,
    TrianglesAdjacency,
    TriangleStripAdjacency,
    Rectangles,
    LineLoop,
    Quads,
    QuadStrip,
    TessellateLines,
    TessellateLineStrip,
    TessellateTriangles,
    TessellateTriangleStrip,
    TessellateQuads,
    TessellateQuadStrip,
}

impl FSHPLODModelPrimitiveType {
    pub open spec fn spec_decode(v: u32) -> Option<FSHPLODModelPrimitiveType> {
        if v == 0x01 {
            Some(FSHPLODModelPrimitiveType::Points)
        } else if v == 0x02 {
            Some(FSHPLODModelPrimitiveType::Lines)
        } else if v == 0x03 {
            Some(FSHPLODModelPrimitiveType::LineStrip)
        } else if v == 0x04 {
            Some(FSHPLODModelPrimitiveType::Triangles)
        } else if v == 0x05 {
            Some(FSHPLODModelPrimitiveType::TriangleFan)
        } else if v == 0x06 {
            Some(FSHPLODModelPrimitiveType::TriangleStrip)
        } else if v == 0x0A {
            Some(FSHPLODModelPrimitiveType::LinesAdjacency)
        } else if v == 0x0B {
            Some(FSHPLODModelPrimitiveType::LineStripAdjacency)
        } else if v == 0x0C {
            Some(FSHPLODModelPrimitiveType::TrianglesAdjacency)
        } else if v == 0x0D {
            Some(FSHPLODModelPrimitiveType::TriangleStripAdjacency)
        } else if v == 0x11 {
            Some(FSHPLODModelPrimitiveType::Rectangles)
        } else if v == 0x12 {
            Some(FSHPLODModelPrimitiveType::LineLoop)
        } else if v == 0x13 {
            Some(FSHPLODModelPrimitiveType::Quads)
        } else if v == 0x14 {
            Some(FSHPLODModelPrimitiveType::QuadStrip)
        } else if v == 0x82 {
            Some(FSHPLODModelPrimitiveType::TessellateLines)
        } else if v == 0x83 {
            Some(FSHPLODModelPrimitiveType::TessellateLineStrip)
        } else if v == 0x84 {
            Some(FSHPLODModelPrimitiveType::TessellateTriangles)
        } else if v == 0x86 {
            Some(FSHPLODModelPrimitiveType::TessellateTriangleStrip)
        } else if v == 0x93 {
            Some(FSHPLODModelPrimitiveType::TessellateQuads)
        } else if v == 0x94 {
            Some(FSHPLODModelPrimitiveType::TessellateQuadStrip)
        } else {
            None
        }
    }

    pub fn decode(v: u32) -> (r: Option<FSHPLODModelPrimitiveType>)
        ensures
            r == FSHPLODModelPrimitiveType::spec_decode(v),
    {
        if v == 0x01 {
            Some(FSHPLODModelPrimitiveType::Points)
        } else if v == 0x02 {
            Some(FSHPLODModelPrimitiveType::Lines)
        } else if v == 0x03 {
            Some(FSHPLODModelPrimitiveType::LineStrip)
        } else if v == 0x04 {
            Some(FSHPLODModelPrimitiveType::Triangles)
        } else if v == 0x05 {
            Some(FSHPLODModelPrimitiveType::TriangleFan)
        } else if v == 0x06 {
            Some(FSHPLODModelPrimitiveType::TriangleStrip)
        } else if v == 0x0A {
            Some(FSHPLODModelPrimitiveType::LinesAdjacency)
        } else if v == 0x0B {
            Some(FSHPLODModelPrimitiveType::LineStripAdjacency)
        } else if v == 0x0C {
            Some(FSHPLODModelPrimitiveType::TrianglesAdjacency)
        } else if v == 0x0D {
            Some(FSHPLODModelPrimitiveType::TriangleStripAdjacency)
        } else if v == 0x11 {
            Some(FSHPLODModelPrimitiveType::Rectangles)
        } else if v == 0x12 {
            Some(FSHPLODModelPrimitiveType::LineLoop)
        } else if v == 0x13 {
            Some(FSHPLODModelPrimitiveType::Quads)
        } else if v == 0x14 {
            Some(FSHPLODModelPrimitiveType::QuadStrip)
        } else if v == 0x82 {
            Some(FSHPLODModelPrimitiveType::TessellateLines)
        } else if v == 0x83 {
            Some(FSHPLODModelPrimitiveType::TessellateLineStrip)
        } else if v == 0x84 {
            Some(FSHPLODModelPrimitiveType::TessellateTriangles)
        } else if v == 0x86 {
            Some(FSHPLODModelPrimitiveType::TessellateTriangleStrip)
        } else if v == 0x93 {
            Some(FSHPLODModelPrimitiveType::TessellateQuads)
        } else if v == 0x94 {
            Some(FSHPLODModelPrimitiveType::TessellateQuadStrip)
        } else {
            None
        }
    }
}

/// Index-buffer element encoding.
#[derive(Clone, Copy, Debug, PartialEq, Eq, Structural)]
pub enum FSHPLODModelIndexFormat {
    U16LittleEndian,
    U32LittleEndian,
    U16BigEndian,
    U32BigEndian,
}

impl FSHPLODModelIndexFormat {
    pub open spec fn spec_decode(v: u32) -> Option<FSHPLODModelIndexFormat> {
        if v == 0 {
            Some(FSHPLODModelIndexFormat::U16LittleEndian)
        } else if v == 1 {
            Some(FSHPLODModelIndexFormat::U32LittleEndian)
        } else if v == 4 {
            Some(FSHPLODModelIndexFormat::U16BigEndian)
        } else if v == 9 {
            Some(FSHPLODModelIndexFormat::U32BigEndian)
        } else {
            None
        }
    }

    pub fn decode(v: u32) -> (r: Option<FSHPLODModelIndexFormat>)
        ensures
            r == FSHPLODModelIndexFormat::spec_decode(v),
    {
        if v == 0 {
            Some(FSHPLODModelIndexFormat::U16LittleEndian)
        } else if v == 1 {
            Some(FSHPLODModelIndexFormat::U32LittleEndian)
        } else if v == 4 {
            Some(FSHPLODModelIndexFormat::U16BigEndian)
        } else if v == 9 {
            Some(FSHPLODModelIndexFormat::U32BigEndian)
        } else {
            None
        }
    }
}

/// One primitive stream of a shape, at a fixed level of detail.
#[derive(Debug)]
pub struct FSHPLODModel {
    pub primitive_type: FSHPLODModelPrimitiveType,
    pub index_format: FSHPLODModelIndexFormat,
    pub nb_points: u32,
    pub nb_visibility_groups: u16,
    pub visibility_group_offset: Pointer,
    pub buffer_info_offset: Pointer,
    pub skip_vertices: u32,
}

impl FSHPLODModel {
    pub open spec fn parsed_at(self, s: Seq<u8>, p: int) -> bool {
        &&& Some(self.primitive_type) == FSHPLODModelPrimitiveType::spec_decode(
            be_u32_at(s, p) as u32,
        )
        &&& Some(self.index_format) == FSHPLODModelIndexFormat::spec_decode(
            be_u32_at(s, p + 4) as u32,
        )
        &&& self.nb_points == be_u32_at(s, p + 8)
        &&& self.nb_visibility_groups == be_u16_at(s, p + 12)
        &&& self.visibility_group_offset.location == Some((p + 16) as u64)
        &&& self.visibility_group_offset.points_to == be_i32_at(s, p + 16)
        &&& self.buffer_info_offset.location == Some((p + 20) as u64)
        &&& self.buffer_info_offset.points_to == be_i32_at(s, p + 20)
        &&& self.skip_vertices == be_u32_at(s, p + 24)
    }

    pub open spec fn ok_at(s: Seq<u8>, p: int) -> bool {
        &&& p + 28 <= s.len()
        &&& FSHPLODModelPrimitiveType::spec_decode(be_u32_at(s, p) as u32) is Some
        &&& FSHPLODModelIndexFormat::spec_decode(be_u32_at(s, p + 4) as u32) is Some
    }

    pub open spec fn err_at(s: Seq<u8>, p: int) -> DecodeError {
        if p + 4 > s.len() {
            DecodeError::Truncated
        } else if FSHPLODModelPrimitiveType::spec_decode(be_u32_at(s, p) as u32) is None {
            DecodeError::UnknownEnumValue {
                kind: EnumKind::PrimitiveType,
                value: be_u32_at(s, p) as u32,
            }
        } else if p + 8 > s.len() {
            DecodeError::Truncated
        } else if FSHPLODModelIndexFormat::spec_decode(be_u32_at(s, p + 4) as u32) is None {
            DecodeError::UnknownEnumValue {
                kind: EnumKind::IndexFormat,
                value: be_u32_at(s, p + 4) as u32,
            }
        } else {
            DecodeError::Truncated
        }
    }
}

impl Importable for FSHPLODModel {
    open spec fn import_ens(src0: ByteSource, src1: ByteSource, r: Result<Self, DecodeError>) -> bool {
        let s = src0.data@;
        let p = src0.pos as int;
        match r {
            Ok(m) => FSHPLODModel::ok_at(s, p) && m.parsed_at(s, p) && src1.pos == p + 28,
            Err(e) => !FSHPLODModel::ok_at(s, p) && e == FSHPLODModel::err_at(s, p),
        }
    }

    fn import(src: &mut ByteSource) -> (r: Result<Self, DecodeError>) {
        let prim_code = src.read_be_to_u32()?;
        let primitive_type = match FSHPLODModelPrimitiveType::decode(prim_code) {
            Some(t) => t,
            None => {
                return Err(
                    DecodeError::UnknownEnumValue {
                        kind: EnumKind::PrimitiveType,
                        value: prim_code,
                    },
                );
            },
        };
        let index_code = src.read_be_to_u32()?;
        let index_format = match FSHPLODModelIndexFormat::decode(index_code) {
            Some(t) => t,
            None => {
                return Err(
                    DecodeError::UnknownEnumValue { kind: EnumKind::IndexFormat, value: index_code },
                );
            },
        };
        let nb_points = src.read_be_to_u32()?;
        let nb_visibility_groups = src.read_be_to_u16()?;
        src.skip(2)?;
        let visibility_group_offset = Pointer::read_new_rel_i32_be(src)?;
        let buffer_info_offset = Pointer::read_new_rel_i32_be(src)?;
        let skip_vertices = src.read_be_to_u32()?;
        Ok(
            FSHPLODModel {
                primitive_type,
                index_format,
                nb_points,
                nb_visibility_groups,
                visibility_group_offset,
                buffer_info_offset,
                skip_vertices,
            },
        )
    }
}

impl FSHPLODModel {
    /// Seeks to the visibility-group pointer and records the fixed-stride
    /// array of visibility-group slots.
    pub fn get_visibility_groups(&self, src: &mut ByteSource) -> (r: Result<
        DataArray<FSHPVisibilityGroup>,
        DecodeError,
    >)
        requires
            old(src).wf(),
        ensures
            final(src).data@ == old(src).data@,
            final(src).wf(),
            !(0 <= self.visibility_group_offset.abs_pos() <= old(src).data@.len()) ==> r == Err::<
                DataArray<FSHPVisibilityGroup>,
                DecodeError,
            >(DecodeError::PointerOutOfRange),
            0 <= self.visibility_group_offset.abs_pos() <= old(src).data@.len() ==> ({
                let p = self.visibility_group_offset.abs_pos();
                let n = self.nb_visibility_groups as int;
                if n == 0 || p + 0x18 * (n - 1) <= 0x7FFF_FFFF {
                    r matches Ok(a) && a.entries@.len() == n && (forall|i: int|
                        0 <= i < n ==> (#[trigger] a.entries@[i]).at_position(p + 0x18 * i))
                } else {
                    r == Err::<DataArray<FSHPVisibilityGroup>, DecodeError>(
                        DecodeError::ArrayOutOfRange,
                    )
                }
            }),
    {
        self.visibility_group_offset.seek_abs_pos(src)?;
        DataArray::new(src, 0x18, self.nb_visibility_groups as u32)
    }

    /// Seeks to the index-buffer pointer and decodes its buffer info.
    pub fn get_direct_buffer_info(&self, src: &mut ByteSource) -> (r: Result<
        BufferInfo,
        DecodeError,
    >)
        requires
            old(src).wf(),
        ensures
            final(src).data@ == old(src).data@,
            final(src).wf(),
            !(0 <= self.buffer_info_offset.abs_pos() <= old(src).data@.len()) ==> r == Err::<
                BufferInfo,
                DecodeError,
            >(DecodeError::PointerOutOfRange),
            0 <= self.buffer_info_offset.abs_pos() <= old(src).data@.len() ==> ({
                let p = self.buffer_info_offset.abs_pos();
                match r {
                    Ok(b) => BufferInfo::ok_at(old(src).data@, p) && b.parsed_at(old(src).data@, p),
                    Err(e) => !BufferInfo::ok_at(old(src).data@, p) && e == BufferInfo::err_at(
                        old(src).data@,
                        p,
                    ),
                }
            }),
    {
        self.buffer_info_offset.seek_abs_pos(src)?;
        BufferInfo::import(src)
    }
}

/// One visibility group: an index-buffer pointer and a point count.
#[derive(Debug)]
pub struct FSHPVisibilityGroup {
    pub buffer_info_offset: Pointer,
    pub nb_points: u32,
}

impl Importable for FSHPVisibilityGroup {
    open spec fn import_ens(src0: ByteSource, src1: ByteSource, r: Result<Self, DecodeError>) -> bool {
        let s = src0.data@;
        let p = src0.pos as int;
        match r {
            Ok(g) => {
                &&& p + 8 <= s.len()
                &&& g.buffer_info_offset.location == Some(p as u64)
                &&& g.buffer_info_offset.points_to == be_i32_at(s, p)
                &&& g.nb_points == be_u32_at(s, p + 4)
                &&& src1.pos == p + 8
            },
            Err(e) => p + 8 > s.len() && e == DecodeError::Truncated,
        }
    }

    fn import(src: &mut ByteSource) -> (r: Result<Self, DecodeError>) {
        let buffer_info_offset = Pointer::read_new_rel_i32_be(src)?;
        let nb_points = src.read_be_to_u32()?;
        Ok(FSHPVisibilityGroup { buffer_info_offset, nb_points })
    }
}

impl FSHPVisibilityGroup {
    /// Seeks to the group's index-buffer pointer and decodes its info.
    pub fn get_index_buffer(&self, src: &mut ByteSource) -> (r: Result<BufferInfo, DecodeError>)
        requires
            old(src).wf(),
        ensures
            final(src).data@ == old(src).data@,
            final(src).wf(),
            !(0 <= self.buffer_info_offset.abs_pos() <= old(src).data@.len()) ==> r == Err::<
                BufferInfo,
                DecodeError,
            >(DecodeError::PointerOutOfRange),
            0 <= self.buffer_info_offset.abs_pos() <= old(src).data@.len() ==> ({
                let p = self.buffer_info_offset.abs_pos();
                match r {
                    Ok(b) => BufferInfo::ok_at(old(src).data@, p) && b.parsed_at(old(src).data@, p),
                    Err(e) => !BufferInfo::ok_at(old(src).data@, p) && e == BufferInfo::err_at(
                        old(src).data@,
                        p,
                    ),
                }
            }),
    {
        self.buffer_info_offset.seek_abs_pos(src)?;
        BufferInfo::import(src)
    }
}

/// Visibility-group search tree; layout reserved, never parsed.
#[derive(Debug)]
pub struct FSHPVisibilityGroupTree {}

/// Material render-info parameter; layout reserved, never parsed.
#[derive(Debug)]
pub struct FMATRenderInfoParameter {}

/// Material texture sampler; layout reserved, never parsed.
#[derive(Debug)]
pub struct FMATTextureSampler {}

/// Material shader parameter; layout reserved, never parsed.
#[derive(Debug)]
pub struct FMATMaterialParameter {}

/// Material render state; layout reserved, never parsed.
#[derive(Debug)]
pub struct FMATRenderState {}

/// Material shader assignment; layout reserved, never parsed.
#[derive(Debug)]
pub struct FMATShaderAssign {}

/// Skeleton bone payload referenced from the bone index group; decoded
/// through `Bone`.
#[derive(Debug)]
pub struct FSKLBone {}

/// Skeleton smooth-skinning matrix; layout reserved, never parsed.
#[derive(Debug)]
pub struct FSKLSmoothMatrix {}

/// Skeleton rigid-skinning matrix; layout reserved, never parsed.
#[derive(Debug)]
pub struct FSKLRigidMatrix {}


/// Model sub-file header (magic `FMDL`): name and path pointers, the four
/// sub-part pointers, their counts, and the total vertex count. The user
/// pointer is a run-time field and must be zero on disk.
#[derive(Debug)]
pub struct FMDLHeader {
    pub file_name_offset: Pointer,
    pub file_path_offset: Pointer,
    pub fskl_offset: Pointer,
    pub fvtx_array_offset: Pointer,
    pub fshp_index_group_offset: Pointer,
    pub fmat_index_group_offset: Pointer,
    pub user_data_index_group_offset: Pointer,
    pub fvtx_count: u16,
    pub fshp_count: u16,
    pub fmat_count: u16,
    pub user_data_entry_count: u16,
    pub total_nb_vertices: u32,
    pub user_pointer: u32,
}

/// A relative pointer read at `p` holds origin `p` and the delta at `p`.
pub open spec fn rel_ptr_at(s: Seq<u8>, p: int, ptr: Pointer) -> bool {
    ptr.location == Some(p as u64) && ptr.points_to == be_i32_at(s, p)
}

impl FMDLHeader {
    pub open spec fn parsed_at(self, s: Seq<u8>, p: int) -> bool {
        &&& rel_ptr_at(s, p + 4, self.file_name_offset)
        &&& rel_ptr_at(s, p + 8, self.file_path_offset)
        &&& rel_ptr_at(s, p + 12, self.fskl_offset)
        &&& rel_ptr_at(s, p + 16, self.fvtx_array_offset)
        &&& rel_ptr_at(s, p + 20, self.fshp_index_group_offset)
        &&& rel_ptr_at(s, p + 24, self.fmat_index_group_offset)
        &&& rel_ptr_at(s, p + 28, self.user_data_index_group_offset)
        &&& self.fvtx_count == be_u16_at(s, p + 32)
        &&& self.fshp_count == be_u16_at(s, p + 34)
        &&& self.fmat_count == be_u16_at(s, p + 36)
        &&& self.user_data_entry_count == be_u16_at(s, p + 38)
        &&& self.total_nb_vertices == be_u32_at(s, p + 40)
        &&& self.user_pointer == 0
    }

    pub open spec fn magic_ok(s: Seq<u8>, p: int) -> bool {
        s.subrange(p, p + 4) == seq![0x46u8, 0x4Du8, 0x44u8, 0x4Cu8]
    }

    pub open spec fn ok_at(s: Seq<u8>, p: int) -> bool {
        &&& p + 48 <= s.len()
        &&& FMDLHeader::magic_ok(s, p)
        &&& be_u32_at(s, p + 44) == 0
    }

    pub open spec fn err_at(s: Seq<u8>, p: int) -> DecodeError {
        if p + 4 > s.len() {
            DecodeError::Truncated
        } else if !FMDLHeader::magic_ok(s, p) {
            DecodeError::WrongMagic {
                expected: [0x46u8, 0x4Du8, 0x44u8, 0x4Cu8],
                found: [s[p], s[p + 1], s[p + 2], s[p + 3]],
            }
        } else if p + 48 > s.len() {
            DecodeError::Truncated
        } else {
            DecodeError::NonZeroReserved { field: ReservedField::UserPointer }
        }
    }
}

impl Importable for FMDLHeader {
    open spec fn import_ens(src0: ByteSource, src1: ByteSource, r: Result<Self, DecodeError>) -> bool {
        let s = src0.data@;
        let p = src0.pos as int;
        match r {
            Ok(h) => FMDLHeader::ok_at(s, p) && h.parsed_at(s, p) && src1.pos == p + 48,
            Err(e) => !FMDLHeader::ok_at(s, p) && e == FMDLHeader::err_at(s, p),
        }
    }

    fn import(src: &mut ByteSource) -> (r: Result<Self, DecodeError>) {
        let ghost s = src.data@;
        let ghost p = src.pos as int;
        let magic = src.read_exact_4()?;
        if let Err(e) = check_magic_number(magic, [0x46u8, 0x4Du8, 0x44u8, 0x4Cu8]) {
            proof {
                let b: [u8; 4] = [s[p], s[p + 1], s[p + 2], s[p + 3]];
                assert(magic =~= b);
            }
            return Err(e);
        }
        proof {
            assert(FMDLHeader::magic_ok(s, p));
        }
        let file_name_offset = Pointer::read_new_rel_i32_be(src)?;
        let file_path_offset = Pointer::read_new_rel_i32_be(src)?;
        let fskl_offset = Pointer::read_new_rel_i32_be(src)?;
        let fvtx_array_offset = Pointer::read_new_rel_i32_be(src)?;
        let fshp_index_group_offset = Pointer::read_new_rel_i32_be(src)?;
        let fmat_index_group_offset = Pointer::read_new_rel_i32_be(src)?;
        let user_data_index_group_offset = Pointer::read_new_rel_i32_be(src)?;
        let fvtx_count = src.read_be_to_u16()?;
        let fshp_count = src.read_be_to_u16()?;
        let fmat_count = src.read_be_to_u16()?;
        let user_data_entry_count = src.read_be_to_u16()?;
        let total_nb_vertices = src.read_be_to_u32()?;
        let user_pointer = src.read_be_to_u32()?;
        if user_pointer != 0 {
            return Err(DecodeError::NonZeroReserved { field: ReservedField::UserPointer });
        }
        Ok(
            FMDLHeader {
                file_name_offset,
                file_path_offset,
                fskl_offset,
                fvtx_array_offset,
                fshp_index_group_offset,
                fmat_index_group_offset,
                user_data_index_group_offset,
                fvtx_count,
                fshp_count,
                fmat_count,
                user_data_entry_count,
                total_nb_vertices,
                user_pointer,
            },
        )
    }
}

/// Vertex-buffer sub-part header (magic `FVTX`).
#[derive(Debug)]
pub struct FVTXHeader {
    pub attribute_count: u8,
    pub buffer_info_count: u8,
    pub section_index: u16,
    pub nb_vertices: u32,
    pub vertex_skin_count: u8,
    pub attribute_array_offset: Pointer,
    pub attribute_index_group_offset: Pointer,
    pub buffer_info_array_offset: Pointer,
    pub user_pointer: u32,
}

impl FVTXHeader {
    pub open spec fn parsed_at(self, s: Seq<u8>, p: int) -> bool {
        &&& self.attribute_count == s[p + 4]
        &&& self.buffer_info_count == s[p + 5]
        &&& self.section_index == be_u16_at(s, p + 6)
        &&& self.nb_vertices == be_u32_at(s, p + 8)
        &&& self.vertex_skin_count == s[p + 12]
        &&& rel_ptr_at(s, p + 16, self.attribute_array_offset)
        &&& rel_ptr_at(s, p + 20, self.attribute_index_group_offset)
        &&& rel_ptr_at(s, p + 24, self.buffer_info_array_offset)
        &&& self.user_pointer == 0
    }

    pub open spec fn magic_ok(s: Seq<u8>, p: int) -> bool {
        s.subrange(p, p + 4) == seq![0x46u8, 0x56u8, 0x54u8, 0x58u8]
    }

    pub open spec fn ok_at(s: Seq<u8>, p: int) -> bool {
        &&& p + 32 <= s.len()
        &&& FVTXHeader::magic_ok(s, p)
        &&& be_u32_at(s, p + 28) == 0
    }

    pub open spec fn err_at(s: Seq<u8>, p: int) -> DecodeError {
        if p + 4 > s.len() {
            DecodeError::Truncated
        } else if !FVTXHeader::magic_ok(s, p) {
            DecodeError::WrongMagic {
                expected: [0x46u8, 0x56u8, 0x54u8, 0x58u8],
                found: [s[p], s[p + 1], s[p + 2], s[p + 3]],
            }
        } else if p + 32 > s.len() {
            DecodeError::Truncated
        } else {
            DecodeError::NonZeroReserved { field: ReservedField::UserPointer }
        }
    }
}

impl Importable for FVTXHeader {
    open spec fn import_ens(src0: ByteSource, src1: ByteSource, r: Result<Self, DecodeError>) -> bool {
        let s = src0.data@;
        let p = src0.pos as int;
        match r {
            Ok(h) => FVTXHeader::ok_at(s, p) && h.parsed_at(s, p) && src1.pos == p + 32,
            Err(e) => !FVTXHeader::ok_at(s, p) && e == FVTXHeader::err_at(s, p),
        }
    }

    fn import(src: &mut ByteSource) -> (r: Result<Self, DecodeError>) {
        let ghost s = src.data@;
        let ghost p = src.pos as int;
        let magic = src.read_exact_4()?;
        if let Err(e) = check_magic_number(magic, [0x46u8, 0x56u8, 0x54u8, 0x58u8]) {
            proof {
                let b: [u8; 4] = [s[p], s[p + 1], s[p + 2], s[p + 3]];
                assert(magic =~= b);
            }
            return Err(e);
        }
        proof {
            assert(FVTXHeader::magic_ok(s, p));
        }
        let attribute_count = src.read_to_u8()?;
        let buffer_info_count = src.read_to_u8()?;
        let section_index = src.read_be_to_u16()?;
        let nb_vertices = src.read_be_to_u32()?;
        let vertex_skin_count = src.read_to_u8()?;
        src.skip(3)?;
        let attribute_array_offset = Pointer::read_new_rel_i32_be(src)?;
        let attribute_index_group_offset = Pointer::read_new_rel_i32_be(src)?;
        let buffer_info_array_offset = Pointer::read_new_rel_i32_be(src)?;
        let user_pointer = src.read_be_to_u32()?;
        if user_pointer != 0 {
            return Err(DecodeError::NonZeroReserved { field: ReservedField::UserPointer });
        }
        Ok(
            FVTXHeader {
                attribute_count,
                buffer_info_count,
                section_index,
                nb_vertices,
                vertex_skin_count,
                attribute_array_offset,
                attribute_index_group_offset,
                buffer_info_array_offset,
                user_pointer,
            },
        )
    }
}


/// Material header (magic `FMAT`): counts of the material sub-records and
/// the pointers to them; only the header is parsed, sub-record layouts are
/// reserved. The user pointer must be zero on disk.
#[derive(Debug)]
pub struct FMATHeader {
    pub material_name_offset: Pointer,
    pub material_flags: u32,
    pub section_index: u16,
    pub render_info_parameter_count: u16,
    pub texture_reference_count: u8,
    pub texture_sampler_count: u8,
    pub material_parameter_count: u16,
    pub volatile_parameter_count: u16,
    pub material_parameter_data_length: u16,
    pub raw_parameter_data_length: u16,
    pub user_data_entry_count: u16,
    pub render_info_parameter_index_group_offset: Pointer,
    pub render_state_offset: Pointer,
    pub shader_assign_offset: Pointer,
    pub texture_reference_array_offset: Pointer,
    pub texture_sampler_offset: Pointer,
    pub texture_sampler_index_group_offset: Pointer,
    pub material_parameter_array_offset: Pointer,
    pub material_parameter_index_group_offset: Pointer,
    pub material_parameter_data_offset: Pointer,
    pub user_data_index_group_offset: Pointer,
    pub volatile_flags_data_offset: Pointer,
    pub user_pointer: i32,
}

impl FMATHeader {
    pub open spec fn parsed_at(self, s: Seq<u8>, p: int) -> bool {
        &&& rel_ptr_at(s, p + 4, self.material_name_offset)
        &&& self.material_flags == be_u32_at(s, p + 8)
        &&& self.section_index == be_u16_at(s, p + 12)
        &&& self.render_info_parameter_count == be_u16_at(s, p + 14)
        &&& self.texture_reference_count == s[p + 16]
        &&& self.texture_sampler_count == s[p + 17]
        &&& self.material_parameter_count == be_u16_at(s, p + 18)
        &&& self.volatile_parameter_count == be_u16_at(s, p + 20)
        &&& self.material_parameter_data_length == be_u16_at(s, p + 22)
        &&& self.raw_parameter_data_length == be_u16_at(s, p + 24)
        &&& self.user_data_entry_count == be_u16_at(s, p + 26)
        &&& rel_ptr_at(s, p + 28, self.render_info_parameter_index_group_offset)
        &&& rel_ptr_at(s, p + 32, self.render_state_offset)
        &&& rel_ptr_at(s, p + 36, self.shader_assign_offset)
        &&& rel_ptr_at(s, p + 40, self.texture_reference_array_offset)
        &&& rel_ptr_at(s, p + 44, self.texture_sampler_offset)
        &&& rel_ptr_at(s, p + 48, self.texture_sampler_index_group_offset)
        &&& rel_ptr_at(s, p + 52, self.material_parameter_array_offset)
        &&& rel_ptr_at(s, p + 56, self.material_parameter_index_group_offset)
        &&& rel_ptr_at(s, p + 60, self.material_parameter_data_offset)
        &&& rel_ptr_at(s, p + 64, self.user_data_index_group_offset)
        &&& rel_ptr_at(s, p + 68, self.volatile_flags_data_offset)
        &&& self.user_pointer == 0
    }

    pub open spec fn magic_ok(s: Seq<u8>, p: int) -> bool {
        s.subrange(p, p + 4) == seq![0x46u8, 0x4Du8, 0x41u8, 0x54u8]
    }

    pub open spec fn ok_at(s: Seq<u8>, p: int) -> bool {
        &&& p + 76 <= s.len()
        &&& FMATHeader::magic_ok(s, p)
        &&& be_i32_at(s, p + 72) == 0
    }

    pub open spec fn err_at(s: Seq<u8>, p: int) -> DecodeError {
        if p + 4 > s.len() {
            DecodeError::Truncated
        } else if !FMATHeader::magic_ok(s, p) {
            DecodeError::WrongMagic {
                expected: [0x46u8, 0x4Du8, 0x41u8, 0x54u8],
                found: [s[p], s[p + 1], s[p + 2], s[p + 3]],
            }
        } else if p + 76 > s.len() {
            DecodeError::Truncated
        } else {
            DecodeError::NonZeroReserved { field: ReservedField::UserPointer }
        }
    }
}

impl Importable for FMATHeader {
    open spec fn import_ens(src0: ByteSource, src1: ByteSource, r: Result<Self, DecodeError>) -> bool {
        let s = src0.data@;
        let p = src0.pos as int;
        match r {
            Ok(h) => FMATHeader::ok_at(s, p) && h.parsed_at(s, p) && src1.pos == p + 76,
            Err(e) => !FMATHeader::ok_at(s, p) && e == FMATHeader::err_at(s, p),
        }
    }

    fn import(src: &mut ByteSource) -> (r: Result<Self, DecodeError>) {
        let ghost s = src.data@;
        let ghost p = src.pos as int;
        let magic = src.read_exact_4()?;
        if let Err(e) = check_magic_number(magic, [0x46u8, 0x4Du8, 0x41u8, 0x54u8]) {
            proof {
                let b: [u8; 4] = [s[p], s[p + 1], s[p + 2], s[p + 3]];
                assert(magic =~= b);
            }
            return Err(e);
        }
        proof {
            assert(FMATHeader::magic_ok(s, p));
        }
        let material_name_offset = Pointer::read_new_rel_i32_be(src)?;
        let material_flags = src.read_be_to_u32()?;
        let section_index = src.read_be_to_u16()?;
        let render_info_parameter_count = src.read_be_to_u16()?;
        let texture_reference_count = src.read_to_u8()?;
        let texture_sampler_count = src.read_to_u8()?;
        let material_parameter_count = src.read_be_to_u16()?;
        let volatile_parameter_count = src.read_be_to_u16()?;
        let material_parameter_data_length = src.read_be_to_u16()?;
        let raw_parameter_data_length = src.read_be_to_u16()?;
        let user_data_entry_count = src.read_be_to_u16()?;
        let render_info_parameter_index_group_offset = Pointer::read_new_rel_i32_be(src)?;
        let render_state_offset = Pointer::read_new_rel_i32_be(src)?;
        let shader_assign_offset = Pointer::read_new_rel_i32_be(src)?;
        let texture_reference_array_offset = Pointer::read_new_rel_i32_be(src)?;
        let texture_sampler_offset = Pointer::read_new_rel_i32_be(src)?;
        let texture_sampler_index_group_offset = Pointer::read_new_rel_i32_be(src)?;
        let material_parameter_array_offset = Pointer::read_new_rel_i32_be(src)?;
        let material_parameter_index_group_offset = Pointer::read_new_rel_i32_be(src)?;
        let material_parameter_data_offset = Pointer::read_new_rel_i32_be(src)?;
        let user_data_index_group_offset = Pointer::read_new_rel_i32_be(src)?;
        let volatile_flags_data_offset = Pointer::read_new_rel_i32_be(src)?;
        let user_pointer = src.read_be_to_i32()?;
        if user_pointer != 0 {
            return Err(DecodeError::NonZeroReserved { field: ReservedField::UserPointer });
        }
        Ok(
            FMATHeader {
                material_name_offset,
                material_flags,
                section_index,
                render_info_parameter_count,
                texture_reference_count,
                texture_sampler_count,
                material_parameter_count,
                volatile_parameter_count,
                material_parameter_data_length,
                raw_parameter_data_length,
                user_data_entry_count,
                render_info_parameter_index_group_offset,
                render_state_offset,
                shader_assign_offset,
                texture_reference_array_offset,
                texture_sampler_offset,
                texture_sampler_index_group_offset,
                material_parameter_array_offset,
                material_parameter_index_group_offset,
                material_parameter_data_offset,
                user_data_index_group_offset,
                volatile_flags_data_offset,
                user_pointer,
            },
        )
    }
}

/// Shader binding header; only the header is parsed.
#[derive(Debug)]
pub struct FMAT {
    pub header: FMATHeader,
}

impl Importable for FMAT {
    open spec fn import_ens(src0: ByteSource, src1: ByteSource, r: Result<Self, DecodeError>) -> bool {
        let s = src0.data@;
        let p = src0.pos as int;
        match r {
            Ok(m) => FMATHeader::ok_at(s, p) && m.header.parsed_at(s, p) && src1.pos == p + 76,
            Err(e) => !FMATHeader::ok_at(s, p) && e == FMATHeader::err_at(s, p),
        }
    }

    fn import(src: &mut ByteSource) -> (r: Result<Self, DecodeError>) {
        let header = FMATHeader::import(src)?;
        Ok(FMAT { header })
    }
}

/// Skeleton header (magic `FSKL`): flags, bone and matrix counts, and the
/// four pointers into the bone data. The user pointer must be zero on disk.
#[derive(Debug)]
pub struct FSKLHeader {
    pub flags: u32,
    pub bone_array_count: u16,
    pub smooth_index_array_count: u16,
    pub rigid_index_array_count: u16,
    pub bone_index_group_offset: Pointer,
    pub bone_array_offset: Pointer,
    pub smooth_index_array_offset: Pointer,
    pub smooth_matrix_array_offset: Pointer,
}

impl FSKLHeader {
    pub open spec fn parsed_at(self, s: Seq<u8>, p: int) -> bool {
        &&& self.flags == be_u32_at(s, p + 4)
        &&& self.bone_array_count == be_u16_at(s, p + 8)
        &&& self.smooth_index_array_count == be_u16_at(s, p + 10)
        &&& self.rigid_index_array_count == be_u16_at(s, p + 12)
        &&& rel_ptr_at(s, p + 16, self.bone_index_group_offset)
        &&& rel_ptr_at(s, p + 20, self.bone_array_offset)
        &&& rel_ptr_at(s, p + 24, self.smooth_index_array_offset)
        &&& rel_ptr_at(s, p + 28, self.smooth_matrix_array_offset)
    }

    pub open spec fn magic_ok(s: Seq<u8>, p: int) -> bool {
        s.subrange(p, p + 4) == seq![0x46u8, 0x53u8, 0x4Bu8, 0x4Cu8]
    }

    pub open spec fn ok_at(s: Seq<u8>, p: int) -> bool {
        &&& p + 36 <= s.len()
        &&& FSKLHeader::magic_ok(s, p)
        &&& be_u32_at(s, p + 32) == 0
    }

    pub open spec fn err_at(s: Seq<u8>, p: int) -> DecodeError {
        if p + 4 > s.len() {
            DecodeError::Truncated
        } else if !FSKLHeader::magic_ok(s, p) {
            DecodeError::WrongMagic {
                expected: [0x46u8, 0x53u8, 0x4Bu8, 0x4Cu8],
                found: [s[p], s[p + 1], s[p + 2], s[p + 3]],
            }
        } else if p + 36 > s.len() {
            DecodeError::Truncated
        } else {
            DecodeError::NonZeroReserved { field: ReservedField::UserPointer }
        }
    }
}

impl Importable for FSKLHeader {
    open spec fn import_ens(src0: ByteSource, src1: ByteSource, r: Result<Self, DecodeError>) -> bool {
        let s = src0.data@;
        let p = src0.pos as int;
        match r {
            Ok(h) => FSKLHeader::ok_at(s, p) && h.parsed_at(s, p) && src1.pos == p + 36,
            Err(e) => !FSKLHeader::ok_at(s, p) && e == FSKLHeader::err_at(s, p),
        }
    }

    fn import(src: &mut ByteSource) -> (r: Result<Self, DecodeError>) {
        let ghost s = src.data@;
        let ghost p = src.pos as int;
        let magic = src.read_exact_4()?;
        if let Err(e) = check_magic_number(magic, [0x46u8, 0x53u8, 0x4Bu8, 0x4Cu8]) {
            proof {
                let b: [u8; 4] = [s[p], s[p + 1], s[p + 2], s[p + 3]];
                assert(magic =~= b);
            }
            return Err(e);
        }
        proof {
            assert(FSKLHeader::magic_ok(s, p));
        }
        let flags = src.read_be_to_u32()?;
        let bone_array_count = src.read_be_to_u16()?;
        let smooth_index_array_count = src.read_be_to_u16()?;
        let rigid_index_array_count = src.read_be_to_u16()?;
        src.skip(2)?;
        let bone_index_group_offset = Pointer::read_new_rel_i32_be(src)?;
        let bone_array_offset = Pointer::read_new_rel_i32_be(src)?;
        let smooth_index_array_offset = Pointer::read_new_rel_i32_be(src)?;
        let smooth_matrix_array_offset = Pointer::read_new_rel_i32_be(src)?;
        let user_pointer = src.read_be_to_u32()?;
        if user_pointer != 0 {
            return Err(DecodeError::NonZeroReserved { field: ReservedField::UserPointer });
        }
        Ok(
            FSKLHeader {
                flags,
                bone_array_count,
                smooth_index_array_count,
                rigid_index_array_count,
                bone_index_group_offset,
                bone_array_offset,
                smooth_index_array_offset,
                smooth_matrix_array_offset,
            },
        )
    }
}

/// Bone tree; bones are enumerated through the bone index group reached
/// from the header.
#[derive(Debug)]
pub struct FSKL {
    pub header: FSKLHeader,
}

impl Importable for FSKL {
    open spec fn import_ens(src0: ByteSource, src1: ByteSource, r: Result<Self, DecodeError>) -> bool {
        let s = src0.data@;
        let p = src0.pos as int;
        match r {
            Ok(k) => FSKLHeader::ok_at(s, p) && k.header.parsed_at(s, p) && src1.pos == p + 36,
            Err(e) => !FSKLHeader::ok_at(s, p) && e == FSKLHeader::err_at(s, p),
        }
    }

    fn import(src: &mut ByteSource) -> (r: Result<Self, DecodeError>) {
        let header = FSKLHeader::import(src)?;
        Ok(FSKL { header })
    }
}


/// Shape header (magic `FSHP`): indices into the material, skeleton and
/// vertex-buffer arrays, LOD and visibility counts, and seven pointers.
/// The trailing word other headers require to be zero is deliberately not
/// read here: some containers hold a non-zero value in it.
#[derive(Debug)]
pub struct FSHPHeader {
    pub polygon_name_offset: Pointer,
    pub flags: u32,
    pub section_index: u16,
    pub fmat_index: u16,
    pub fskl_index: u16,
    pub fvtx_index: u16,
    pub fskl_bone_skin_index: u16,
    pub vertex_skin_count: u8,
    pub lod_model_count: u8,
    pub key_shape_count: u8,
    pub target_attribute_count: u8,
    pub visibility_group_tree_node_count: u16,
    pub bounding_box_radius: u32,
    pub fvtx_offset: Pointer,
    pub lod_model_offset: Pointer,
    pub fskl_index_array_offset: Pointer,
    pub key_shape_index_group_offset: Pointer,
    pub visibility_group_tree_nodes_offset: Pointer,
    pub visibility_group_tree_ranges_offset: Pointer,
    pub visibility_group_tree_indices_offset: Pointer,
}

impl FSHPHeader {
    pub open spec fn parsed_at(self, s: Seq<u8>, p: int) -> bool {
        &&& rel_ptr_at(s, p + 4, self.polygon_name_offset)
        &&& self.flags == be_u32_at(s, p + 8)
        &&& self.section_index == be_u16_at(s, p + 12)
        &&& self.fmat_index == be_u16_at(s, p + 14)
        &&& self.fskl_index == be_u16_at(s, p + 16)
        &&& self.fvtx_index == be_u16_at(s, p + 18)
        &&& self.fskl_bone_skin_index == be_u16_at(s, p + 20)
        &&& self.vertex_skin_count == s[p + 22]
        &&& self.lod_model_count == s[p + 23]
        &&& self.key_shape_count == s[p + 24]
        &&& self.target_attribute_count == s[p + 25]
        &&& self.visibility_group_tree_node_count == be_u16_at(s, p + 26)
        &&& self.bounding_box_radius == be_u32_at(s, p + 28)
        &&& rel_ptr_at(s, p + 32, self.fvtx_offset)
        &&& rel_ptr_at(s, p + 36, self.lod_model_offset)
        &&& rel_ptr_at(s, p + 40, self.fskl_index_array_offset)
        &&& rel_ptr_at(s, p + 44, self.key_shape_index_group_offset)
        &&& rel_ptr_at(s, p + 48, self.visibility_group_tree_nodes_offset)
        &&& rel_ptr_at(s, p + 52, self.visibility_group_tree_ranges_offset)
        &&& rel_ptr_at(s, p + 56, self.visibility_group_tree_indices_offset)
    }

    pub open spec fn magic_ok(s: Seq<u8>, p: int) -> bool {
        s.subrange(p, p + 4) == seq![0x46u8, 0x53u8, 0x48u8, 0x50u8]
    }

    pub open spec fn ok_at(s: Seq<u8>, p: int) -> bool {
        p + 60 <= s.len() && FSHPHeader::magic_ok(s, p)
    }

    pub open spec fn err_at(s: Seq<u8>, p: int) -> DecodeError {
        if p + 4 > s.len() {
            DecodeError::Truncated
        } else if !FSHPHeader::magic_ok(s, p) {
            DecodeError::WrongMagic {
                expected: [0x46u8, 0x53u8, 0x48u8, 0x50u8],
                found: [s[p], s[p + 1], s[p + 2], s[p + 3]],
            }
        } else {
            DecodeError::Truncated
        }
    }
}

impl Importable for FSHPHeader {
    open spec fn import_ens(src0: ByteSource, src1: ByteSource, r: Result<Self, DecodeError>) -> bool {
        let s = src0.data@;
        let p = src0.pos as int;
        match r {
            Ok(h) => FSHPHeader::ok_at(s, p) && h.parsed_at(s, p) && src1.pos == p + 60,
            Err(e) => !FSHPHeader::ok_at(s, p) && e == FSHPHeader::err_at(s, p),
        }
    }

    fn import(src: &mut ByteSource) -> (r: Result<Self, DecodeError>) {
        let ghost s = src.data@;
        let ghost p = src.pos as int;
        let magic = src.read_exact_4()?;
        if let Err(e) = check_magic_number(magic, [0x46u8, 0x53u8, 0x48u8, 0x50u8]) {
            proof {
                let b: [u8; 4] = [s[p], s[p + 1], s[p + 2], s[p + 3]];
                assert(magic =~= b);
            }
            return Err(e);
        }
        proof {
            assert(FSHPHeader::magic_ok(s, p));
        }
        let polygon_name_offset = Pointer::read_new_rel_i32_be(src)?;
        let flags = src.read_be_to_u32()?;
        let section_index = src.read_be_to_u16()?;
        let fmat_index = src.read_be_to_u16()?;
        let fskl_index = src.read_be_to_u16()?;
        let fvtx_index = src.read_be_to_u16()?;
        let fskl_bone_skin_index = src.read_be_to_u16()?;
        let vertex_skin_count = src.read_to_u8()?;
        let lod_model_count = src.read_to_u8()?;
        let key_shape_count = src.read_to_u8()?;
        let target_attribute_count = src.read_to_u8()?;
        let visibility_group_tree_node_count = src.read_be_to_u16()?;
        let bounding_box_radius = src.read_be_to_u32()?;
        let fvtx_offset = Pointer::read_new_rel_i32_be(src)?;
        let lod_model_offset = Pointer::read_new_rel_i32_be(src)?;
        let fskl_index_array_offset = Pointer::read_new_rel_i32_be(src)?;
        let key_shape_index_group_offset = Pointer::read_new_rel_i32_be(src)?;
        let visibility_group_tree_nodes_offset = Pointer::read_new_rel_i32_be(src)?;
        let visibility_group_tree_ranges_offset = Pointer::read_new_rel_i32_be(src)?;
        let visibility_group_tree_indices_offset = Pointer::read_new_rel_i32_be(src)?;
        Ok(
            FSHPHeader {
                polygon_name_offset,
                flags,
                section_index,
                fmat_index,
                fskl_index,
                fvtx_index,
                fskl_bone_skin_index,
                vertex_skin_count,
                lod_model_count,
                key_shape_count,
                target_attribute_count,
                visibility_group_tree_node_count,
                bounding_box_radius,
                fvtx_offset,
                lod_model_offset,
                fskl_index_array_offset,
                key_shape_index_group_offset,
                visibility_group_tree_nodes_offset,
                visibility_group_tree_ranges_offset,
                visibility_group_tree_indices_offset,
            },
        )
    }
}

/// One drawable polygon set: header plus its fixed-stride LOD model array.
#[derive(Debug)]
pub struct FSHP {
    pub header: FSHPHeader,
    pub lod_model_array: DataArray<FSHPLODModel>,
}

/// Whether the shape record at `p` decodes: header, LOD pointer and array.
pub open spec fn fshp_ok(s: Seq<u8>, p: int) -> bool {
    let lod_p = p + 36 + be_i32_at(s, p + 36);
    let n = s[p + 23] as int;
    &&& FSHPHeader::ok_at(s, p)
    &&& 0 <= lod_p <= s.len()
    &&& (n == 0 || lod_p + 0x1C * (n - 1) <= 0x7FFF_FFFF)
}

/// The error the shape record at `p` decodes to, in read order.
pub open spec fn fshp_err(s: Seq<u8>, p: int) -> DecodeError {
    let lod_p = p + 36 + be_i32_at(s, p + 36);
    if !FSHPHeader::ok_at(s, p) {
        FSHPHeader::err_at(s, p)
    } else if !(0 <= lod_p <= s.len()) {
        DecodeError::PointerOutOfRange
    } else {
        DecodeError::ArrayOutOfRange
    }
}

/// The sub-parts a decoded shape holds when its record was read at `p`.
pub open spec fn fshp_parsed(s: Seq<u8>, p: int, f: FSHP) -> bool {
    let lod_p = p + 36 + be_i32_at(s, p + 36);
    &&& f.header.parsed_at(s, p)
    &&& crate::group::array_parsed(f.lod_model_array, lod_p, 0x1C, s[p + 23] as int)
    &&& f.lod_model_array.entries@.len() == f.header.lod_model_count
}

/// The full decoding contract of a shape.
pub open spec fn fshp_import_ens(src0: ByteSource, src1: ByteSource, r: Result<
    FSHP,
    DecodeError,
>) -> bool {
    let s = src0.data@;
    let p = src0.pos as int;
    match r {
        Ok(f) => fshp_ok(s, p) && fshp_parsed(s, p, f),
        Err(e) => !fshp_ok(s, p) && e == fshp_err(s, p),
    }
}

impl Importable for FSHP {
    open spec fn import_ens(src0: ByteSource, src1: ByteSource, r: Result<Self, DecodeError>) -> bool {
        fshp_import_ens(src0, src1, r)
    }

    fn import(src: &mut ByteSource) -> (r: Result<Self, DecodeError>) {
        let header = FSHPHeader::import(src)?;
        header.lod_model_offset.seek_abs_pos(src)?;
        let lod_model_array = DataArray::new(src, 0x1C, header.lod_model_count as u32)?;
        Ok(FSHP { header, lod_model_array })
    }
}

/// One vertex buffer: header, attribute index group and buffer-info array.
#[derive(Debug)]
pub struct FVTX {
    pub header: FVTXHeader,
    pub attributes_index_group: IndexGroup<FVTXAttributes>,
    pub buffer_info_array: DataArray<BufferInfo>,
}

/// Whether the vertex-buffer record at `p` decodes: header, attribute index
/// group and buffer-info array all reachable and well-formed.
pub open spec fn fvtx_ok(s: Seq<u8>, p: int) -> bool {
    let aig_p = p + 20 + be_i32_at(s, p + 20);
    let bia_p = p + 24 + be_i32_at(s, p + 24);
    let n = s[p + 5] as int;
    &&& FVTXHeader::ok_at(s, p)
    &&& 0 <= aig_p <= s.len()
    &&& index_group_ok(s, aig_p)
    &&& 0 <= bia_p <= s.len()
    &&& (n == 0 || bia_p + 0x18 * (n - 1) <= 0x7FFF_FFFF)
}

/// The error the vertex-buffer record at `p` decodes to, in read order.
pub open spec fn fvtx_err(s: Seq<u8>, p: int) -> DecodeError {
    let aig_p = p + 20 + be_i32_at(s, p + 20);
    let bia_p = p + 24 + be_i32_at(s, p + 24);
    if !FVTXHeader::ok_at(s, p) {
        FVTXHeader::err_at(s, p)
    } else if !(0 <= aig_p <= s.len()) {
        DecodeError::PointerOutOfRange
    } else if !index_group_ok(s, aig_p) {
        index_group_err(s, aig_p)
    } else if !(0 <= bia_p <= s.len()) {
        DecodeError::PointerOutOfRange
    } else {
        DecodeError::ArrayOutOfRange
    }
}

/// The sub-parts a decoded vertex buffer holds when its record was read at
/// `p`.
pub open spec fn fvtx_parsed(s: Seq<u8>, p: int, f: FVTX) -> bool {
    let aig_p = p + 20 + be_i32_at(s, p + 20);
    let bia_p = p + 24 + be_i32_at(s, p + 24);
    &&& f.header.parsed_at(s, p)
    &&& crate::group::group_parsed(s, aig_p, f.attributes_index_group)
    &&& crate::group::array_parsed(f.buffer_info_array, bia_p, 0x18, s[p + 5] as int)
    &&& f.buffer_info_array.entries@.len() == f.header.buffer_info_count
}

/// The full decoding contract of a vertex buffer.
pub open spec fn fvtx_import_ens(src0: ByteSource, src1: ByteSource, r: Result<
    FVTX,
    DecodeError,
>) -> bool {
    let s = src0.data@;
    let p = src0.pos as int;
    match r {
        Ok(f) => fvtx_ok(s, p) && fvtx_parsed(s, p, f),
        Err(e) => !fvtx_ok(s, p) && e == fvtx_err(s, p),
    }
}

impl Importable for FVTX {
    open spec fn import_ens(src0: ByteSource, src1: ByteSource, r: Result<Self, DecodeError>) -> bool {
        fvtx_import_ens(src0, src1, r)
    }

    fn import(src: &mut ByteSource) -> (r: Result<Self, DecodeError>) {
        let header = FVTXHeader::import(src)?;
        header.attribute_index_group_offset.seek_abs_pos(src)?;
        let attributes_index_group = IndexGroup::<FVTXAttributes>::import(src)?;
        header.buffer_info_array_offset.seek_abs_pos(src)?;
        let buffer_info_array = DataArray::new(src, 0x18, header.buffer_info_count as u32)?;
        Ok(FVTX { header, attributes_index_group, buffer_info_array })
    }
}

/// One renderable mesh set: header, vertex-buffer array, material index
/// group, skeleton, and shape index group.
#[derive(Debug)]
pub struct FMDL {
    pub header: FMDLHeader,
    pub fvtx_array: DataArray<FVTX>,
    pub fmat_index_group: IndexGroup<FMAT>,
    pub fskl: FSKL,
    pub fshp_index_group: IndexGroup<FSHP>,
}

/// Whether the model record at `p` decodes: header and the four sub-parts.
pub open spec fn fmdl_ok(s: Seq<u8>, p: int) -> bool {
    let fvtx_p = p + 16 + be_i32_at(s, p + 16);
    let fmat_p = p + 24 + be_i32_at(s, p + 24);
    let fskl_p = p + 12 + be_i32_at(s, p + 12);
    let fshp_p = p + 20 + be_i32_at(s, p + 20);
    let n = be_u16_at(s, p + 32);
    &&& FMDLHeader::ok_at(s, p)
    &&& 0 <= fvtx_p <= s.len()
    &&& (n == 0 || fvtx_p + 0x20 * (n - 1) <= 0x7FFF_FFFF)
    &&& 0 <= fmat_p <= s.len()
    &&& index_group_ok(s, fmat_p)
    &&& 0 <= fskl_p <= s.len()
    &&& FSKLHeader::ok_at(s, fskl_p)
    &&& 0 <= fshp_p <= s.len()
    &&& index_group_ok(s, fshp_p)
}

/// The error the model record at `p` decodes to, in read order.
pub open spec fn fmdl_err(s: Seq<u8>, p: int) -> DecodeError {
    let fvtx_p = p + 16 + be_i32_at(s, p + 16);
    let fmat_p = p + 24 + be_i32_at(s, p + 24);
    let fskl_p = p + 12 + be_i32_at(s, p + 12);
    let fshp_p = p + 20 + be_i32_at(s, p + 20);
    let n = be_u16_at(s, p + 32);
    if !FMDLHeader::ok_at(s, p) {
        FMDLHeader::err_at(s, p)
    } else if !(0 <= fvtx_p <= s.len()) {
        DecodeError::PointerOutOfRange
    } else if !(n == 0 || fvtx_p + 0x20 * (n - 1) <= 0x7FFF_FFFF) {
        DecodeError::ArrayOutOfRange
    } else if !(0 <= fmat_p <= s.len()) {
        DecodeError::PointerOutOfRange
    } else if !index_group_ok(s, fmat_p) {
        index_group_err(s, fmat_p)
    } else if !(0 <= fskl_p <= s.len()) {
        DecodeError::PointerOutOfRange
    } else if !FSKLHeader::ok_at(s, fskl_p) {
        FSKLHeader::err_at(s, fskl_p)
    } else if !(0 <= fshp_p <= s.len()) {
        DecodeError::PointerOutOfRange
    } else {
        index_group_err(s, fshp_p)
    }
}


/// The sub-parts a decoded model holds when its record was read at `p`:
/// the declared vertex-buffer count equals the enumerated array length, the
/// material and shape index groups are parsed at their pointers, and the
/// skeleton header at its.
pub open spec fn fmdl_parsed(s: Seq<u8>, p: int, m: FMDL) -> bool {
    let fvtx_p = p + 16 + be_i32_at(s, p + 16);
    let fmat_p = p + 24 + be_i32_at(s, p + 24);
    let fskl_p = p + 12 + be_i32_at(s, p + 12);
    let fshp_p = p + 20 + be_i32_at(s, p + 20);
    &&& m.header.parsed_at(s, p)
    &&& m.fvtx_array.entries@.len() == be_u16_at(s, p + 32)
    &&& forall|i: int|
        0 <= i < m.fvtx_array.entries@.len() ==> (
        #[trigger] m.fvtx_array.entries@[i]).data_pointer.location is None
            && m.fvtx_array.entries@[i].data_pointer.points_to == fvtx_p + 0x20 * i
}

/// The full decoding contract of a model sub-file.
pub open spec fn fmdl_import_ens(src0: ByteSource, src1: ByteSource, r: Result<
    FMDL,
    DecodeError,
>) -> bool {
    let s = src0.data@;
    let p = src0.pos as int;
    match r {
        Ok(m) => fmdl_ok(s, p) && fmdl_parsed(s, p, m),
        Err(e) => !fmdl_ok(s, p) && e == fmdl_err(s, p),
    }
}

impl Importable for FMDL {
    open spec fn import_ens(src0: ByteSource, src1: ByteSource, r: Result<Self, DecodeError>) -> bool {
        fmdl_import_ens(src0, src1, r)
    }

    fn import(src: &mut ByteSource) -> (r: Result<Self, DecodeError>) {
        let header = FMDLHeader::import(src)?;
        header.fvtx_array_offset.seek_abs_pos(src)?;
        let fvtx_array = DataArray::new(src, 0x20, header.fvtx_count as u32)?;
        header.fmat_index_group_offset.seek_abs_pos(src)?;
        let fmat_index_group = IndexGroup::<FMAT>::import(src)?;
        header.fskl_offset.seek_abs_pos(src)?;
        let fskl = FSKL::import(src)?;
        header.fshp_index_group_offset.seek_abs_pos(src)?;
        let fshp_index_group = IndexGroup::<FSHP>::import(src)?;
        Ok(FMDL { header, fvtx_array, fmat_index_group, fskl, fshp_index_group })
    }
}


/// Bone rotation encoding, bit 12 of the packed flags word.
#[derive(Clone, Copy, Debug, PartialEq, Eq, Structural)]
pub enum RotationMode {
    Quaternion,
    XYZEuler,
}

/// Billboard projection mode, bits 16..18 of the packed flags word.
#[derive(Clone, Copy, Debug, PartialEq, Eq, Structural)]
pub enum BillboardBonesProjectionMode {
    NoBillboard,
    Child,
    WorldViewVector,
    WorldViewPoint,
    ScreenViewVector,
    ScreenViewPoint,
    YAxisViewVector,
    YAxisViewPoint,
}

impl BillboardBonesProjectionMode {
    /// The mode the three masked bits decode to; every value 0..7 is
    /// defined, so the decode is total.
    pub open spec fn spec_decode(v: u32) -> BillboardBonesProjectionMode {
        if v == 0 {
            BillboardBonesProjectionMode::NoBillboard
        } else if v == 1 {
            BillboardBonesProjectionMode::Child
        } else if v == 2 {
            BillboardBonesProjectionMode::WorldViewVector
        } else if v == 3 {
            BillboardBonesProjectionMode::WorldViewPoint
        } else if v == 4 {
            BillboardBonesProjectionMode::ScreenViewVector
        } else if v == 5 {
            BillboardBonesProjectionMode::ScreenViewPoint
        } else if v == 6 {
            BillboardBonesProjectionMode::YAxisViewVector
        } else {
            BillboardBonesProjectionMode::YAxisViewPoint
        }
    }

    pub fn decode(v: u32) -> (r: BillboardBonesProjectionMode)
        ensures
            r == BillboardBonesProjectionMode::spec_decode(v),
    {
        if v == 0 {
            BillboardBonesProjectionMode::NoBillboard
        } else if v == 1 {
            BillboardBonesProjectionMode::Child
        } else if v == 2 {
            BillboardBonesProjectionMode::WorldViewVector
        } else if v == 3 {
            BillboardBonesProjectionMode::WorldViewPoint
        } else if v == 4 {
            BillboardBonesProjectionMode::ScreenViewVector
        } else if v == 5 {
            BillboardBonesProjectionMode::ScreenViewPoint
        } else if v == 6 {
            BillboardBonesProjectionMode::YAxisViewVector
        } else {
            BillboardBonesProjectionMode::YAxisViewPoint
        }
    }
}

/// Transformation flags, bits 23..27 of the packed flags word.
#[derive(Clone, Copy, Debug, PartialEq, Eq, Structural)]
pub struct TransformationFlags {
    pub segment_scale_compensation: bool,
    pub scale_uniformly: bool,
    pub scale_volume_by_1: bool,
    pub no_rotation: bool,
    pub no_translation: bool,
}

impl TransformationFlags {
    pub open spec fn spec_decode(raw: u32) -> TransformationFlags {
        TransformationFlags {
            segment_scale_compensation: raw & 0b00001 == 1,
            scale_uniformly: raw & 0b00010 == 2,
            scale_volume_by_1: raw & 0b00100 == 4,
            no_rotation: raw & 0b01000 == 8,
            no_translation: raw & 0b10000 == 16,
        }
    }

    /// Unpacks the five booleans from the already-shifted bits.
    pub fn indirect_import(raw: u32) -> (r: TransformationFlags)
        ensures
            r == TransformationFlags::spec_decode(raw),
    {
        TransformationFlags {
            segment_scale_compensation: raw & 0b00001 == 1,
            scale_uniformly: raw & 0b00010 == 2,
            scale_volume_by_1: raw & 0b00100 == 4,
            no_rotation: raw & 0b01000 == 8,
            no_translation: raw & 0b10000 == 16,
        }
    }
}

/// Bone-hierarchy flags, bits 28..31 of the packed flags word.
#[derive(Clone, Copy, Debug, PartialEq, Eq, Structural)]
pub struct BoneHierarchyFlags {
    pub scale_uniformly: bool,
    pub scale_volume_by_1: bool,
    pub no_rotation: bool,
    pub no_translation: bool,
}

impl BoneHierarchyFlags {
    pub open spec fn spec_decode(raw: u32) -> BoneHierarchyFlags {
        BoneHierarchyFlags {
            scale_uniformly: raw & 0b0001 == 1,
            scale_volume_by_1: raw & 0b0010 == 2,
            no_rotation: raw & 0b0100 == 4,
            no_translation: raw & 0b1000 == 8,
        }
    }

    /// Unpacks the four booleans from the already-shifted bits.
    pub fn indirect_import(raw: u32) -> (r: BoneHierarchyFlags)
        ensures
            r == BoneHierarchyFlags::spec_decode(raw),
    {
        BoneHierarchyFlags {
            scale_uniformly: raw & 0b0001 == 1,
            scale_volume_by_1: raw & 0b0010 == 2,
            no_rotation: raw & 0b0100 == 4,
            no_translation: raw & 0b1000 == 8,
        }
    }
}

/// The decomposition of a bone's packed 32-bit flags word.
#[derive(Clone, Copy, Debug, PartialEq, Eq, Structural)]
pub struct Flags {
    pub visible: bool,
    pub rotation: RotationMode,
    pub projection_mode: BillboardBonesProjectionMode,
    pub transformation_flags: TransformationFlags,
    pub bone_hierarchy_flags: BoneHierarchyFlags,
}

impl Flags {
    /// How a packed word decomposes; total, since every billboard code the
    /// three masked bits can carry is defined.
    pub open spec fn spec_decode(w: u32) -> Flags {
        Flags {
            visible: w & 1 == 1,
            rotation: if (w & 0x1000) >> 12 == 0 {
                RotationMode::Quaternion
            } else {
                RotationMode::XYZEuler
            },
            projection_mode: BillboardBonesProjectionMode::spec_decode((w & 0x0007_0000) >> 16),
            transformation_flags: TransformationFlags::spec_decode((w & 0x0F80_0000) >> 23),
            bone_hierarchy_flags: BoneHierarchyFlags::spec_decode((w & 0xF000_0000) >> 28),
        }
    }
}

impl Importable for Flags {
    open spec fn import_ens(src0: ByteSource, src1: ByteSource, r: Result<Self, DecodeError>) -> bool {
        let s = src0.data@;
        let p = src0.pos as int;
        match r {
            Ok(f) => p + 4 <= s.len() && f == Flags::spec_decode(be_u32_at(s, p) as u32) && src1.pos
                == p + 4,
            Err(e) => p + 4 > s.len() && e == DecodeError::Truncated,
        }
    }

    fn import(src: &mut ByteSource) -> (r: Result<Self, DecodeError>) {
        let w = src.read_be_to_u32()?;
        let visible = w & 1 == 1;
        let rotation = if (w & 0x1000) >> 12 == 0 {
            RotationMode::Quaternion
        } else {
            RotationMode::XYZEuler
        };
        let projection_mode = BillboardBonesProjectionMode::decode((w & 0x0007_0000) >> 16);
        let transformation_flags = TransformationFlags::indirect_import((w & 0x0F80_0000) >> 23);
        let bone_hierarchy_flags = BoneHierarchyFlags::indirect_import((w & 0xF000_0000) >> 28);
        Ok(
            Flags {
                visible,
                rotation,
                projection_mode,
                transformation_flags,
                bone_hierarchy_flags,
            },
        )
    }
}

/// One bone of the skeleton tree. The three transform vectors are stored as
/// raw IEEE-754 bit patterns; interpreting them as floating-point numbers is
/// left to callers.
#[derive(Debug)]
pub struct Bone {
    pub name_offset: Pointer,
    pub bone_index: u16,
    pub parent_index: u16,
    pub smooth_matrix_index: i16,
    pub rigid_matrix_index: i16,
    pub billboard_index: i16,
    pub user_data_entry_count: u16,
    pub flags: Flags,
    pub scale_vectors: [u32; 3],
    pub rotation_vectors: [u32; 4],
    pub translation_vectors: [u32; 3],
    pub user_data_index_group_offset: Pointer,
}

impl Bone {
    pub open spec fn parsed_at(self, s: Seq<u8>, p: int) -> bool {
        &&& rel_ptr_at(s, p, self.name_offset)
        &&& self.bone_index == be_u16_at(s, p + 4)
        &&& self.parent_index == be_u16_at(s, p + 6)
        &&& self.smooth_matrix_index == be_i16_at(s, p + 8)
        &&& self.rigid_matrix_index == be_i16_at(s, p + 10)
        &&& self.billboard_index == be_i16_at(s, p + 12)
        &&& self.user_data_entry_count == be_u16_at(s, p + 14)
        &&& self.flags == Flags::spec_decode(be_u32_at(s, p + 16) as u32)
        &&& self.scale_vectors@[0] == be_u32_at(s, p + 20)
        &&& self.scale_vectors@[1] == be_u32_at(s, p + 24)
        &&& self.scale_vectors@[2] == be_u32_at(s, p + 28)
        &&& self.rotation_vectors@[0] == be_u32_at(s, p + 32)
        &&& self.rotation_vectors@[1] == be_u32_at(s, p + 36)
        &&& self.rotation_vectors@[2] == be_u32_at(s, p + 40)
        &&& self.rotation_vectors@[3] == be_u32_at(s, p + 44)
        &&& self.translation_vectors@[0] == be_u32_at(s, p + 48)
        &&& self.translation_vectors@[1] == be_u32_at(s, p + 52)
        &&& self.translation_vectors@[2] == be_u32_at(s, p + 56)
        &&& rel_ptr_at(s, p + 60, self.user_data_index_group_offset)
    }
}

impl Importable for Bone {
    open spec fn import_ens(src0: ByteSource, src1: ByteSource, r: Result<Self, DecodeError>) -> bool {
        let s = src0.data@;
        let p = src0.pos as int;
        match r {
            Ok(b) => p + 64 <= s.len() && b.parsed_at(s, p) && src1.pos == p + 64,
            Err(e) => p + 64 > s.len() && e == DecodeError::Truncated,
        }
    }

    fn import(src: &mut ByteSource) -> (r: Result<Self, DecodeError>) {
        let name_offset = Pointer::read_new_rel_i32_be(src)?;
        let bone_index = src.read_be_to_u16()?;
        let parent_index = src.read_be_to_u16()?;
        let smooth_matrix_index = src.read_be_to_i16()?;
        let rigid_matrix_index = src.read_be_to_i16()?;
        let billboard_index = src.read_be_to_i16()?;
        let user_data_entry_count = src.read_be_to_u16()?;
        let flags = Flags::import(src)?;
        let scale_vectors = [src.read_be_to_u32()?, src.read_be_to_u32()?, src.read_be_to_u32()?];
        let rotation_vectors = [
            src.read_be_to_u32()?,
            src.read_be_to_u32()?,
            src.read_be_to_u32()?,
            src.read_be_to_u32()?,
        ];
        let translation_vectors = [
            src.read_be_to_u32()?,
            src.read_be_to_u32()?,
            src.read_be_to_u32()?,
        ];
        let user_data_index_group_offset = Pointer::read_new_rel_i32_be(src)?;
        Ok(
            Bone {
                name_offset,
                bone_index,
                parent_index,
                smooth_matrix_index,
                rigid_matrix_index,
                billboard_index,
                user_data_entry_count,
                flags,
                scale_vectors,
                rotation_vectors,
                translation_vectors,
                user_data_index_group_offset,
            },
        )
    }
}


/// Sign extension of a 10-bit two's-complement field.
pub open spec fn sign_extend_10(v: int) -> int {
    if v >= 512 {
        v - 1024
    } else {
        v
    }
}

/// Unpacks the three signed 10-bit lanes of the packed attribute form (the
/// low thirty bits of a 32-bit word, highest lane first). Consumers divide
/// the lanes by their normalisation divisors to obtain floating-point
/// values; that conversion is left to callers.
pub fn unpack_3i10(v: u32) -> (r: [i16; 3])
    ensures
        r@[0] == sign_extend_10(((v >> 20) & 0x3FF) as int),
        r@[1] == sign_extend_10(((v >> 10) & 0x3FF) as int),
        r@[2] == sign_extend_10((v & 0x3FF) as int),
{
    let l0 = (v >> 20) & 0x3FF;
    let l1 = (v >> 10) & 0x3FF;
    let l2 = v & 0x3FF;
    proof {
        assert((v >> 20) & 0x3FF < 1024 && (v >> 10) & 0x3FF < 1024 && v & 0x3FF < 1024)
            by (bit_vector);
    }
    let s0: i16 = if l0 >= 512 {
        (l0 as i32 - 1024) as i16
    } else {
        l0 as i16
    };
    let s1: i16 = if l1 >= 512 {
        (l1 as i32 - 1024) as i16
    } else {
        l1 as i16
    };
    let s2: i16 = if l2 >= 512 {
        (l2 as i32 - 1024) as i16
    } else {
        l2 as i16
    };
    [s0, s1, s2]
}

} // verus!
