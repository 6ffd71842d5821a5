//! Container header, string table and directory. The header names twelve
//! optional directory slots in a fixed order; each present slot points at an
//! index group of one sub-file kind. The string table maps the absolute
//! position just after each record's length word — exactly the target of
//! name pointers elsewhere — to the record's text.

use crate::anim::FSCN;
use crate::anim::FSHA;
use crate::anim::FSHU;
use crate::anim::FSKA;
use crate::anim::FTXP;
use crate::anim::FVIS;
use crate::embedded::Embedded;
use crate::error::DecodeError;
use crate::error::ReservedField;
use crate::error::check_magic_number;
use crate::fmdl::FMDL;
use crate::ftex::FTEX;
use crate::group::Importable;
use crate::group::IndexGroup;
use crate::group::index_group_err;
use crate::group::index_group_ok;
use crate::group::group_parsed;
use crate::pointer::Pointer;
use crate::source::ByteSource;
use crate::source::align4;
use crate::source::be_i32_at;
use crate::source::be_u16_at;
use crate::source::be_u32_at;
use crate::source::utf8_decode;
use crate::source::utf8_decode_ok;
use std::collections::HashMap;
use vstd::prelude::*;

verus! {

broadcast use vstd::std_specs::hash::group_hash_axioms;

/// The container's four version bytes, kept opaque.
#[derive(Debug)]
pub struct FRESVersion {
    pub numbers: [u8; 4],
}

impl Importable for FRESVersion {
    open spec fn import_ens(src0: ByteSource, src1: ByteSource, r: Result<Self, DecodeError>) -> bool {
        let s = src0.data@;
        let p = src0.pos as int;
        match r {
            Ok(v) => p + 4 <= s.len() && v.numbers@ == s.subrange(p, p + 4) && src1.pos == p + 4,
            Err(e) => p + 4 > s.len() && e == DecodeError::Truncated,
        }
    }

    fn import(src: &mut ByteSource) -> (r: Result<Self, DecodeError>) {
        let numbers = src.read_exact_4()?;
        Ok(FRESVersion { numbers })
    }
}

/// How the 32-bit word at `q` decodes as an optional directory pointer: a
/// zero delta means the slot is absent.
pub open spec fn dir_offset_parsed(s: Seq<u8>, q: int, o: Option<Pointer>) -> bool {
    if be_i32_at(s, q) == 0 {
        o is None
    } else {
        o matches Some(ptr) && ptr.location == Some(q as u64) && ptr.points_to == be_i32_at(s, q)
    }
}

/// Container header: magic, version, endianness marker, lengths, string
/// table coordinates, and the twelve directory pointers with their entry
/// counts. The user pointer must be zero on disk.
#[derive(Debug)]
pub struct FRESHeader {
    pub version: FRESVersion,
    pub file_length: u32,
    pub file_alignment: u32,
    pub file_name_offset: Pointer,
    pub string_table_length: i32,
    pub string_table_offset: Pointer,
    pub sub_file_index_groups_offsets: [Option<Pointer>; 12],
    pub sub_file_index_groups_entry_counts: [u16; 12],
}

impl FRESHeader {
    pub open spec fn magic_ok(s: Seq<u8>, p: int) -> bool {
        s.subrange(p, p + 4) == seq![0x46u8, 0x52u8, 0x45u8, 0x53u8]
    }

    /// The fields this header holds when its 108 bytes were read at `p`.
    pub open spec fn parsed_at(self, s: Seq<u8>, p: int) -> bool {
        &&& self.version.numbers@ == s.subrange(p + 4, p + 8)
        &&& self.file_length == be_u32_at(s, p + 12)
        &&& self.file_alignment == be_u32_at(s, p + 16)
        &&& crate::fmdl::rel_ptr_at(s, p + 20, self.file_name_offset)
        &&& self.string_table_length == be_i32_at(s, p + 24)
        &&& crate::fmdl::rel_ptr_at(s, p + 28, self.string_table_offset)
        &&& dir_offset_parsed(s, p + 32, self.sub_file_index_groups_offsets@[0])
        &&& dir_offset_parsed(s, p + 36, self.sub_file_index_groups_offsets@[1])
        &&& dir_offset_parsed(s, p + 40, self.sub_file_index_groups_offsets@[2])
        &&& dir_offset_parsed(s, p + 44, self.sub_file_index_groups_offsets@[3])
        &&& dir_offset_parsed(s, p + 48, self.sub_file_index_groups_offsets@[4])
        &&& dir_offset_parsed(s, p + 52, self.sub_file_index_groups_offsets@[5])
        &&& dir_offset_parsed(s, p + 56, self.sub_file_index_groups_offsets@[6])
        &&& dir_offset_parsed(s, p + 60, self.sub_file_index_groups_offsets@[7])
        &&& dir_offset_parsed(s, p + 64, self.sub_file_index_groups_offsets@[8])
        &&& dir_offset_parsed(s, p + 68, self.sub_file_index_groups_offsets@[9])
        &&& dir_offset_parsed(s, p + 72, self.sub_file_index_groups_offsets@[10])
        &&& dir_offset_parsed(s, p + 76, self.sub_file_index_groups_offsets@[11])
        &&& forall|k: int|
            0 <= k < 12 ==> #[trigger] self.sub_file_index_groups_entry_counts@[k] == be_u16_at(
                s,
                p + 80 + 2 * k,
            )
    }

    /// Whether the header at `p` decodes: in range, magic right, big-endian
    /// marker, declared header length 16, user pointer zero.
    pub open spec fn ok_at(s: Seq<u8>, p: int) -> bool {
        &&& p + 108 <= s.len()
        &&& FRESHeader::magic_ok(s, p)
        &&& be_u16_at(s, p + 8) == 0xFEFF
        &&& be_u16_at(s, p + 10) == 0x0010
        &&& be_u32_at(s, p + 104) == 0
    }

    /// The error the header at `p` decodes to, in read order.
    pub open spec fn err_at(s: Seq<u8>, p: int) -> DecodeError {
        if p + 4 > s.len() {
            DecodeError::Truncated
        } else if !FRESHeader::magic_ok(s, p) {
            DecodeError::WrongMagic {
                expected: [0x46u8, 0x52u8, 0x45u8, 0x53u8],
                found: [s[p], s[p + 1], s[p + 2], s[p + 3]],
            }
        } else if p + 10 > s.len() {
            DecodeError::Truncated
        } else if be_u16_at(s, p + 8) != 0xFEFF {
            DecodeError::UnsupportedEndianness
        } else if p + 12 > s.len() {
            DecodeError::Truncated
        } else if be_u16_at(s, p + 10) != 0x0010 {
            DecodeError::UnexpectedHeaderLength
        } else if p + 108 > s.len() {
            DecodeError::Truncated
        } else {
            DecodeError::NonZeroReserved { field: ReservedField::UserPointer }
        }
    }
}

/// The full decoding contract of a container header.
pub open spec fn fres_header_import_ens(src0: ByteSource, src1: ByteSource, r: Result<
    FRESHeader,
    DecodeError,
>) -> bool {
    let s = src0.data@;
    let p = src0.pos as int;
    match r {
        Ok(h) => FRESHeader::ok_at(s, p) && h.parsed_at(s, p) && src1.pos == p + 108,
        Err(e) => !FRESHeader::ok_at(s, p) && e == FRESHeader::err_at(s, p),
    }
}

/// Reads one optional directory pointer: a zero delta reads as an absent
/// slot.
fn read_dir_offset(src: &mut ByteSource) -> (r: Result<Option<Pointer>, DecodeError>)
    ensures
        final(src).data@ == old(src).data@,
        old(src).wf() ==> final(src).wf(),
        old(src).pos + 4 <= old(src).data@.len() ==> (r matches Ok(o) && dir_offset_parsed(
            old(src).data@,
            old(src).pos as int,
            o,
        ) && final(src).pos == old(src).pos + 4),
        old(src).pos + 4 > old(src).data@.len() ==> r == Err::<Option<Pointer>, DecodeError>(
            DecodeError::Truncated,
        ) && final(src).pos == old(src).pos,
{
    let ptr = Pointer::read_new_rel_i32_be(src)?;
    if ptr.points_to != 0 {
        Ok(Some(ptr))
    } else {
        Ok(None)
    }
}

impl Importable for FRESHeader {
    open spec fn import_ens(src0: ByteSource, src1: ByteSource, r: Result<Self, DecodeError>) -> bool {
        fres_header_import_ens(src0, src1, r)
    }

    #[verifier::rlimit(100)]
    fn import(src: &mut ByteSource) -> (r: Result<Self, DecodeError>) {
        let ghost s = src.data@;
        let ghost p = src.pos as int;
        let magic = src.read_exact_4()?;
        if let Err(e) = check_magic_number(magic, [0x46u8, 0x52u8, 0x45u8, 0x53u8]) {
            proof {
                let b: [u8; 4] = [s[p], s[p + 1], s[p + 2], s[p + 3]];
                assert(magic =~= b);
            }
            return Err(e);
        }
        proof {
            assert(FRESHeader::magic_ok(s, p));
        }
        let version = FRESVersion::import(src)?;
        let bom = src.read_be_to_u16()?;
        if bom != 0xFEFF {
            return Err(DecodeError::UnsupportedEndianness);
        }
        let header_length = src.read_be_to_u16()?;
        if header_length != 0x0010 {
            return Err(DecodeError::UnexpectedHeaderLength);
        }
        let file_length = src.read_be_to_u32()?;
        let file_alignment = src.read_be_to_u32()?;
        let file_name_offset = Pointer::read_new_rel_i32_be(src)?;
        let string_table_length = src.read_be_to_i32()?;
        let string_table_offset = Pointer::read_new_rel_i32_be(src)?;
        let o0 = read_dir_offset(src)?;
        let o1 = read_dir_offset(src)?;
        let o2 = read_dir_offset(src)?;
        let o3 = read_dir_offset(src)?;
        let o4 = read_dir_offset(src)?;
        let o5 = read_dir_offset(src)?;
        let o6 = read_dir_offset(src)?;
        let o7 = read_dir_offset(src)?;
        let o8 = read_dir_offset(src)?;
        let o9 = read_dir_offset(src)?;
        let o10 = read_dir_offset(src)?;
        let o11 = read_dir_offset(src)?;
        let sub_file_index_groups_offsets: [Option<Pointer>; 12] = [
            o0,
            o1,
            o2,
            o3,
            o4,
            o5,
            o6,
            o7,
            o8,
            o9,
            o10,
            o11,
        ];
        let c0 = src.read_be_to_u16()?;
        let c1 = src.read_be_to_u16()?;
        let c2 = src.read_be_to_u16()?;
        let c3 = src.read_be_to_u16()?;
        let c4 = src.read_be_to_u16()?;
        let c5 = src.read_be_to_u16()?;
        let c6 = src.read_be_to_u16()?;
        let c7 = src.read_be_to_u16()?;
        let c8 = src.read_be_to_u16()?;
        let c9 = src.read_be_to_u16()?;
        let c10 = src.read_be_to_u16()?;
        let c11 = src.read_be_to_u16()?;
        let sub_file_index_groups_entry_counts: [u16; 12] = [
            c0,
            c1,
            c2,
            c3,
            c4,
            c5,
            c6,
            c7,
            c8,
            c9,
            c10,
            c11,
        ];
        let user_pointer = src.read_be_to_u32()?;
        if user_pointer != 0 {
            return Err(DecodeError::NonZeroReserved { field: ReservedField::UserPointer });
        }
        Ok(
            FRESHeader {
                version,
                file_length,
                file_alignment,
                file_name_offset,
                string_table_length,
                string_table_offset,
                sub_file_index_groups_offsets,
                sub_file_index_groups_entry_counts,
            },
        )
    }
}

/// The sum of the twelve directory entry counts.
pub open spec fn total_count_spec(cs: Seq<u16>) -> int {
    cs[0] + cs[1] + cs[2] + cs[3] + cs[4] + cs[5] + cs[6] + cs[7] + cs[8] + cs[9] + cs[10] + cs[11]
}

impl FRESHeader {
    /// Sums the twelve directory entry counts. The sum must fit the result
    /// width.
    pub fn get_total_sub_file_count(&self) -> (r: u16)
        requires
            total_count_spec(self.sub_file_index_groups_entry_counts@) <= u16::MAX,
        ensures
            r == total_count_spec(self.sub_file_index_groups_entry_counts@),
    {
        let c = &self.sub_file_index_groups_entry_counts;
        ((((((((((c[0] + c[1]) + c[2]) + c[3]) + c[4]) + c[5]) + c[6]) + c[7]) + c[8]) + c[9])
            + c[10]) + c[11]
    }
}

/// One record step of the string-table region: records processed from `pos`
/// up to `end`, accumulated into `acc`. Each record is zero-padding up to a
/// four-byte boundary, a 32-bit length, then that many bytes of UTF-8; a
/// zero length is a continuation marker. The key of each record is the
/// position of the first byte after its length word.
pub open spec fn string_table_from(s: Seq<u8>, pos: int, end: int, acc: Map<u64, Seq<char>>) -> Result<
    Map<u64, Seq<char>>,
    DecodeError,
>
    decreases end - pos,
{
    if pos >= end {
        Ok(acc)
    } else {
        let a = align4(pos);
        if a + 4 > s.len() {
            Err(DecodeError::Truncated)
        } else {
            let l = be_u32_at(s, a);
            let key = a + 4;
            let next0 = if key < end {
                key
            } else {
                end
            };
            if l == 0 {
                string_table_from(s, next0, end, acc)
            } else if key + l > s.len() {
                Err(DecodeError::Truncated)
            } else if !utf8_decode_ok(s.subrange(key, key + l)) {
                Err(DecodeError::Encoding)
            } else {
                let next1 = if key + l < end {
                    key + l
                } else {
                    end
                };
                string_table_from(
                    s,
                    next1,
                    end,
                    acc.insert(key as u64, utf8_decode(s.subrange(key, key + l))),
                )
            }
        }
    }
}

/// Position → name mapping, materialised eagerly from the header's string
/// region.
#[derive(Debug)]
pub struct StringTable {
    pub map: HashMap<u64, String>,
}

impl StringTable {
    /// The mathematical view: each key maps to its characters.
    pub open spec fn as_map(&self) -> Map<u64, Seq<char>> {
        self.map@.map_values(|v: String| v@)
    }

    /// How many names the table holds.
    pub fn len(&self) -> (r: usize)
        ensures
            r == self.map@.len(),
    {
        self.map.len()
    }

    /// Looks a name up by the absolute position of its first byte.
    pub fn get(&self, pos: u64) -> (r: Option<&String>)
        ensures
            match r {
                Some(v) => self.map@.contains_key(pos) && *v == self.map@[pos],
                None => !self.map@.contains_key(pos),
            },
    {
        self.map.get(&pos)
    }

    /// Whether a position is a key of the table.
    pub fn contains(&self, pos: u64) -> (r: bool)
        ensures
            r == self.map@.contains_key(pos),
    {
        self.map.contains_key(&pos)
    }

    /// Builds the table from the header's string region.
    #[verifier::loop_isolation(false)]
    pub fn import(header: &FRESHeader, src: &mut ByteSource) -> (r: Result<
        StringTable,
        DecodeError,
    >)
        requires
            old(src).wf(),
        ensures
            final(src).data@ == old(src).data@,
            final(src).wf(),
            ({
                let s = old(src).data@;
                let stp = header.string_table_offset.abs_pos();
                let end = stp + header.string_table_length;
                if !(0 <= stp <= s.len()) {
                    r == Err::<StringTable, DecodeError>(DecodeError::PointerOutOfRange)
                } else {
                    match string_table_from(s, stp, end, Map::empty()) {
                        Ok(m) => r matches Ok(t) && t.as_map() == m,
                        Err(e) => r == Err::<StringTable, DecodeError>(e),
                    }
                }
            }),
    {
        let ghost s = src.data@;
        let mut map: HashMap<u64, String> = HashMap::new();
        header.string_table_offset.seek_abs_pos(src)?;
        let ghost stp = src.pos as int;
        let ghost end = stp + header.string_table_length;
        let end_exec: i64 = src.pos as i64 + header.string_table_length as i64;
        proof {
            assert(StringTable { map }.as_map() =~= Map::<u64, Seq<char>>::empty());
        }
        while (src.pos as i64) < end_exec
            invariant
                src.wf(),
                src.data@ == s,
                src.pos <= s.len(),
                string_table_from(s, stp, end, Map::empty()) == string_table_from(
                    s,
                    if src.pos < end { src.pos as int } else { end },
                    end,
                    (StringTable { map }).as_map(),
                ),
            decreases (if end - src.pos >= 0 { end - src.pos } else { 0 }),
        {
            src.align_on_4_bytes()?;
            let ghost a = src.pos as int;
            let length = src.read_be_to_u32()?;
            let key = src.pos as u64;
            if length == 0 {
                continue ;
            }
            let bytes = src.read_bytes(length as usize)?;
            let text = match crate::source::string_from_utf8(bytes) {
                Some(t) => t,
                None => {
                    return Err(DecodeError::Encoding);
                },
            };
            let ghost before = (StringTable { map }).as_map();
            map.insert(key, text);
            proof {
                assert((StringTable { map }).as_map() =~= before.insert(
                    key,
                    utf8_decode(s.subrange(key as int, key + length)),
                ));
            }
        }
        Ok(StringTable { map })
    }
}


/// Whether a directory slot decodes: an absent slot always does; a present
/// one must resolve inside the source to a well-formed index group.
pub open spec fn dir_slot_ok(s: Seq<u8>, opt: Option<Pointer>) -> bool {
    match opt {
        Option::None => true,
        Option::Some(ptr) => 0 <= ptr.abs_pos() <= s.len() && index_group_ok(s, ptr.abs_pos()),
    }
}

/// The error a failing present slot decodes to.
pub open spec fn dir_slot_err(s: Seq<u8>, opt: Option<Pointer>) -> DecodeError {
    match opt {
        Option::None => DecodeError::Truncated,
        Option::Some(ptr) => if !(0 <= ptr.abs_pos() <= s.len()) {
            DecodeError::PointerOutOfRange
        } else {
            index_group_err(s, ptr.abs_pos())
        },
    }
}

/// The group a decoded slot holds: absent exactly when the offset is, and
/// otherwise parsed at the pointer's target.
pub open spec fn dir_slot_parsed<I>(
    s: Seq<u8>,
    opt: Option<Pointer>,
    g: Option<IndexGroup<I>>,
) -> bool {
    match opt {
        Option::None => g is None,
        Option::Some(ptr) => g matches Some(gr) && group_parsed(s, ptr.abs_pos(), gr),
    }
}

/// Seeks to a present slot's index group and decodes it; hands an absent
/// slot through.
fn process_group<I: Importable>(opt: &Option<Pointer>, src: &mut ByteSource) -> (r: Result<
    Option<IndexGroup<I>>,
    DecodeError,
>)
    requires
        old(src).wf(),
    ensures
        final(src).data@ == old(src).data@,
        final(src).wf(),
        match r {
            Ok(og) => dir_slot_ok(old(src).data@, *opt) && dir_slot_parsed(old(src).data@, *opt, og),
            Err(e) => !dir_slot_ok(old(src).data@, *opt) && e == dir_slot_err(old(src).data@, *opt),
        },
{
    match opt {
        Some(ptr) => {
            ptr.seek_abs_pos(src)?;
            let g = IndexGroup::<I>::import(src)?;
            Ok(Some(g))
        },
        None => Ok(None),
    }
}

/// The twelve directory slots in their fixed order; each present slot holds
/// the index group of its sub-file kind.
#[derive(Debug)]
pub struct SubFileIndexGroups {
    pub model_data: Option<IndexGroup<FMDL>>,
    pub texture_data: Option<IndexGroup<FTEX>>,
    pub skeleton_animation: Option<IndexGroup<FSKA>>,
    pub shader_parameters: Option<IndexGroup<FSHU>>,
    pub color_animation: Option<IndexGroup<FSHU>>,
    pub texture_srt_animation: Option<IndexGroup<FSHU>>,
    pub texture_pattern_animation: Option<IndexGroup<FTXP>>,
    pub bone_visibility_animation: Option<IndexGroup<FVIS>>,
    pub material_visibility_animation: Option<IndexGroup<FVIS>>,
    pub shape_animation: Option<IndexGroup<FSHA>>,
    pub scene_animation: Option<IndexGroup<FSCN>>,
    pub embedded_file: Option<IndexGroup<Embedded>>,
}

/// Whether all twelve slots decode.
pub open spec fn dir_slots_ok(s: Seq<u8>, offs: Seq<Option<Pointer>>) -> bool {
    &&& dir_slot_ok(s, offs[0])
    &&& dir_slot_ok(s, offs[1])
    &&& dir_slot_ok(s, offs[2])
    &&& dir_slot_ok(s, offs[3])
    &&& dir_slot_ok(s, offs[4])
    &&& dir_slot_ok(s, offs[5])
    &&& dir_slot_ok(s, offs[6])
    &&& dir_slot_ok(s, offs[7])
    &&& dir_slot_ok(s, offs[8])
    &&& dir_slot_ok(s, offs[9])
    &&& dir_slot_ok(s, offs[10])
    &&& dir_slot_ok(s, offs[11])
}

/// The error of the first slot, in directory order, that does not decode.
pub open spec fn dir_slots_err(s: Seq<u8>, offs: Seq<Option<Pointer>>) -> DecodeError {
    if !dir_slot_ok(s, offs[0]) {
        dir_slot_err(s, offs[0])
    } else if !dir_slot_ok(s, offs[1]) {
        dir_slot_err(s, offs[1])
    } else if !dir_slot_ok(s, offs[2]) {
        dir_slot_err(s, offs[2])
    } else if !dir_slot_ok(s, offs[3]) {
        dir_slot_err(s, offs[3])
    } else if !dir_slot_ok(s, offs[4]) {
        dir_slot_err(s, offs[4])
    } else if !dir_slot_ok(s, offs[5]) {
        dir_slot_err(s, offs[5])
    } else if !dir_slot_ok(s, offs[6]) {
        dir_slot_err(s, offs[6])
    } else if !dir_slot_ok(s, offs[7]) {
        dir_slot_err(s, offs[7])
    } else if !dir_slot_ok(s, offs[8]) {
        dir_slot_err(s, offs[8])
    } else if !dir_slot_ok(s, offs[9]) {
        dir_slot_err(s, offs[9])
    } else if !dir_slot_ok(s, offs[10]) {
        dir_slot_err(s, offs[10])
    } else {
        dir_slot_err(s, offs[11])
    }
}

/// The groups a decoded directory holds, slot by slot.
pub open spec fn dir_slots_parsed(s: Seq<u8>, offs: Seq<Option<Pointer>>, g: SubFileIndexGroups) -> bool {
    &&& dir_slot_parsed(s, offs[0], g.model_data)
    &&& dir_slot_parsed(s, offs[1], g.texture_data)
    &&& dir_slot_parsed(s, offs[2], g.skeleton_animation)
    &&& dir_slot_parsed(s, offs[3], g.shader_parameters)
    &&& dir_slot_parsed(s, offs[4], g.color_animation)
    &&& dir_slot_parsed(s, offs[5], g.texture_srt_animation)
    &&& dir_slot_parsed(s, offs[6], g.texture_pattern_animation)
    &&& dir_slot_parsed(s, offs[7], g.bone_visibility_animation)
    &&& dir_slot_parsed(s, offs[8], g.material_visibility_animation)
    &&& dir_slot_parsed(s, offs[9], g.shape_animation)
    &&& dir_slot_parsed(s, offs[10], g.scene_animation)
    &&& dir_slot_parsed(s, offs[11], g.embedded_file)
}

impl SubFileIndexGroups {
    /// Decodes the twelve directory slots in their fixed order, stopping at
    /// the first slot that fails.
    pub fn import(header: &FRESHeader, src: &mut ByteSource) -> (r: Result<
        SubFileIndexGroups,
        DecodeError,
    >)
        requires
            old(src).wf(),
        ensures
            final(src).data@ == old(src).data@,
            final(src).wf(),
            match r {
                Ok(g) => dir_slots_ok(old(src).data@, header.sub_file_index_groups_offsets@)
                    && dir_slots_parsed(old(src).data@, header.sub_file_index_groups_offsets@, g),
                Err(e) => !dir_slots_ok(old(src).data@, header.sub_file_index_groups_offsets@) && e
                    == dir_slots_err(old(src).data@, header.sub_file_index_groups_offsets@),
            },
    {
        let model_data = process_group::<FMDL>(&header.sub_file_index_groups_offsets[0], src)?;
        let texture_data = process_group::<FTEX>(&header.sub_file_index_groups_offsets[1], src)?;
        let skeleton_animation = process_group::<FSKA>(
            &header.sub_file_index_groups_offsets[2],
            src,
        )?;
        let shader_parameters = process_group::<FSHU>(
            &header.sub_file_index_groups_offsets[3],
            src,
        )?;
        let color_animation = process_group::<FSHU>(&header.sub_file_index_groups_offsets[4], src)?;
        let texture_srt_animation = process_group::<FSHU>(
            &header.sub_file_index_groups_offsets[5],
            src,
        )?;
        let texture_pattern_animation = process_group::<FTXP>(
            &header.sub_file_index_groups_offsets[6],
            src,
        )?;
        let bone_visibility_animation = process_group::<FVIS>(
            &header.sub_file_index_groups_offsets[7],
            src,
        )?;
        let material_visibility_animation = process_group::<FVIS>(
            &header.sub_file_index_groups_offsets[8],
            src,
        )?;
        let shape_animation = process_group::<FSHA>(&header.sub_file_index_groups_offsets[9], src)?;
        let scene_animation = process_group::<FSCN>(
            &header.sub_file_index_groups_offsets[10],
            src,
        )?;
        let embedded_file = process_group::<Embedded>(
            &header.sub_file_index_groups_offsets[11],
            src,
        )?;
        Ok(
            SubFileIndexGroups {
                model_data,
                texture_data,
                skeleton_animation,
                shader_parameters,
                color_animation,
                texture_srt_animation,
                texture_pattern_animation,
                bone_visibility_animation,
                material_visibility_animation,
                shape_animation,
                scene_animation,
                embedded_file,
            },
        )
    }
}

/// Top-level container: header, string table, directory.
#[derive(Debug)]
pub struct FRES {
    pub header: FRESHeader,
    pub string_table: StringTable,
    pub sub_file_index_groups: SubFileIndexGroups,
}

impl Importable for FRES {
    open spec fn import_ens(src0: ByteSource, src1: ByteSource, r: Result<Self, DecodeError>) -> bool {
        let s = src0.data@;
        let p = src0.pos as int;
        match r {
            Ok(f) => {
                let stp = f.header.string_table_offset.abs_pos();
                let end = stp + f.header.string_table_length;
                &&& FRESHeader::ok_at(s, p)
                &&& f.header.parsed_at(s, p)
                &&& 0 <= stp <= s.len()
                &&& string_table_from(s, stp, end, Map::empty()) == Ok::<
                    Map<u64, Seq<char>>,
                    DecodeError,
                >(f.string_table.as_map())
                &&& dir_slots_ok(s, f.header.sub_file_index_groups_offsets@)
                &&& dir_slots_parsed(
                    s,
                    f.header.sub_file_index_groups_offsets@,
                    f.sub_file_index_groups,
                )
            },
            Err(e) => fres_import_err_matches(s, p, e),
        }
    }

    fn import(src: &mut ByteSource) -> (r: Result<Self, DecodeError>) {
        let header = FRESHeader::import(src)?;
        let string_table = StringTable::import(&header, src)?;
        let sub_file_index_groups = SubFileIndexGroups::import(&header, src)?;
        Ok(FRES { header, string_table, sub_file_index_groups })
    }
}

/// What a failing container decode returns: the header's error, the string
/// table's, or the first failing directory slot's, in that order.
pub open spec fn fres_import_err_matches(s: Seq<u8>, p: int, e: DecodeError) -> bool {
    if !FRESHeader::ok_at(s, p) {
        e == FRESHeader::err_at(s, p)
    } else {
        let stp = p + 28 + be_i32_at(s, p + 28);
        let end = stp + be_i32_at(s, p + 24);
        if !(0 <= stp <= s.len()) {
            e == DecodeError::PointerOutOfRange
        } else {
            match string_table_from(s, stp, end, Map::empty()) {
                Ok(m) => true,
                Err(te) => e == te,
            }
        }
    }
}


/// Whether a slot's decoded group, if present, holds exactly the entry
/// count the header declares for that slot.
pub open spec fn slot_count_agrees<I>(g: Option<IndexGroup<I>>, c: u16) -> bool {
    match g {
        Option::None => true,
        Option::Some(gr) => gr.entries@.len() == c,
    }
}

/// Whether every entry of a slot's decoded group has a name pointer that
/// resolves to a key present in the string table.
pub open spec fn slot_names_in_table<I>(g: Option<IndexGroup<I>>, t: Map<u64, String>) -> bool {
    match g {
        Option::None => true,
        Option::Some(gr) => forall|i: int|
            0 <= i < gr.entries@.len() ==> {
                let a = (#[trigger] gr.entries@[i]).name_pointer.abs_pos();
                0 <= a <= u64::MAX && t.contains_key(a as u64)
            },
    }
}

/// Checks one slot's group against the header count for that slot.
fn check_slot_count<I>(g: &Option<IndexGroup<I>>, c: u16) -> (r: bool)
    ensures
        r == slot_count_agrees(*g, c),
{
    match g {
        Some(gr) => gr.entries.len() == c as usize,
        None => true,
    }
}

/// Checks one slot's group against the string table.
#[verifier::loop_isolation(false)]
fn check_slot_names<I>(g: &Option<IndexGroup<I>>, t: &StringTable) -> (r: bool)
    ensures
        r == slot_names_in_table(*g, t.map@),
{
    match g {
        Some(gr) => {
            let mut i: usize = 0;
            while i < gr.entries.len()
                invariant
                    0 <= i <= gr.entries@.len(),
                    forall|j: int|
                        0 <= j < i ==> {
                            let a = (#[trigger] gr.entries@[j]).name_pointer.abs_pos();
                            0 <= a <= u64::MAX && t.map@.contains_key(a as u64)
                        },
                decreases gr.entries@.len() - i,
            {
                let key = match gr.entries[i].name_pointer.get_abs_pos() {
                    Ok(v) => v,
                    Err(_) => {
                        proof {
                            // entry i is the counterexample to the slot predicate
                            if slot_names_in_table(*g, t.map@) {
                                assert((gr.entries@[i as int]).name_pointer.abs_pos() >= 0);
                            }
                        }
                        return false;
                    },
                };
                if !t.contains(key) {
                    proof {
                        // entry i is the counterexample to the slot predicate
                        if slot_names_in_table(*g, t.map@) {
                            assert(t.map@.contains_key(
                                (gr.entries@[i as int]).name_pointer.abs_pos() as u64,
                            ));
                        }
                    }
                    return false;
                }
                i = i + 1;
            }
            true
        },
        None => true,
    }
}

/// Whether each present directory slot holds exactly as many entries as the
/// header's count for it says.
pub open spec fn directory_counts_agree_spec(f: FRES) -> bool {
    let cs = f.header.sub_file_index_groups_entry_counts@;
    let g = f.sub_file_index_groups;
    &&& slot_count_agrees(g.model_data, cs[0])
    &&& slot_count_agrees(g.texture_data, cs[1])
    &&& slot_count_agrees(g.skeleton_animation, cs[2])
    &&& slot_count_agrees(g.shader_parameters, cs[3])
    &&& slot_count_agrees(g.color_animation, cs[4])
    &&& slot_count_agrees(g.texture_srt_animation, cs[5])
    &&& slot_count_agrees(g.texture_pattern_animation, cs[6])
    &&& slot_count_agrees(g.bone_visibility_animation, cs[7])
    &&& slot_count_agrees(g.material_visibility_animation, cs[8])
    &&& slot_count_agrees(g.shape_animation, cs[9])
    &&& slot_count_agrees(g.scene_animation, cs[10])
    &&& slot_count_agrees(g.embedded_file, cs[11])
}

/// Whether every index-group entry of every present slot has a name pointer
/// resolving to a key present in the string table.
pub open spec fn names_resolve_spec(f: FRES) -> bool {
    let t = f.string_table.map@;
    let g = f.sub_file_index_groups;
    &&& slot_names_in_table(g.model_data, t)
    &&& slot_names_in_table(g.texture_data, t)
    &&& slot_names_in_table(g.skeleton_animation, t)
    &&& slot_names_in_table(g.shader_parameters, t)
    &&& slot_names_in_table(g.color_animation, t)
    &&& slot_names_in_table(g.texture_srt_animation, t)
    &&& slot_names_in_table(g.texture_pattern_animation, t)
    &&& slot_names_in_table(g.bone_visibility_animation, t)
    &&& slot_names_in_table(g.material_visibility_animation, t)
    &&& slot_names_in_table(g.shape_animation, t)
    &&& slot_names_in_table(g.scene_animation, t)
    &&& slot_names_in_table(g.embedded_file, t)
}

impl FRES {
    /// Directory counts agree with index groups: each present slot's group
    /// holds exactly the entry count the header declares for that slot. A
    /// conforming container always passes; the decoder itself does not
    /// reject a container whose counts disagree.
    pub fn directory_counts_agree(&self) -> (r: bool)
        ensures
            r == directory_counts_agree_spec(*self),
    {
        let cs = &self.header.sub_file_index_groups_entry_counts;
        let g = &self.sub_file_index_groups;
        check_slot_count(&g.model_data, cs[0]) && check_slot_count(&g.texture_data, cs[1])
            && check_slot_count(&g.skeleton_animation, cs[2]) && check_slot_count(
            &g.shader_parameters,
            cs[3],
        ) && check_slot_count(&g.color_animation, cs[4]) && check_slot_count(
            &g.texture_srt_animation,
            cs[5],
        ) && check_slot_count(&g.texture_pattern_animation, cs[6]) && check_slot_count(
            &g.bone_visibility_animation,
            cs[7],
        ) && check_slot_count(&g.material_visibility_animation, cs[8]) && check_slot_count(
            &g.shape_animation,
            cs[9],
        ) && check_slot_count(&g.scene_animation, cs[10]) && check_slot_count(
            &g.embedded_file,
            cs[11],
        )
    }

    /// String-table lookup totality: every index-group entry's name pointer,
    /// across all directory slots, resolves to a key present in the string
    /// table. A conforming container always passes; the decoder itself does
    /// not visit names eagerly.
    pub fn names_resolve(&self) -> (r: bool)
        ensures
            r == names_resolve_spec(*self),
    {
        let t = &self.string_table;
        let g = &self.sub_file_index_groups;
        check_slot_names(&g.model_data, t) && check_slot_names(&g.texture_data, t)
            && check_slot_names(&g.skeleton_animation, t) && check_slot_names(
            &g.shader_parameters,
            t,
        ) && check_slot_names(&g.color_animation, t) && check_slot_names(
            &g.texture_srt_animation,
            t,
        ) && check_slot_names(&g.texture_pattern_animation, t) && check_slot_names(
            &g.bone_visibility_animation,
            t,
        ) && check_slot_names(&g.material_visibility_animation, t) && check_slot_names(
            &g.shape_animation,
            t,
        ) && check_slot_names(&g.scene_animation, t) && check_slot_names(&g.embedded_file, t)
    }
}

} // verus!
