//! The two collection descriptors the pointer graph is built from: index
//! groups (counted, named entries with a search-tree shape on disk) and data
//! arrays (fixed-stride inline records). Entries are lazy handles: a pointer
//! paired with a compile-time type tag that picks the decoder; visiting an
//! entry re-seeks and re-parses, which is pure over the immutable source.

use crate::error::DecodeError;
use crate::pointer::Pointer;
use crate::source::be_i32_at;
use crate::source::be_u16_at;
use crate::source::be_u32_at;
use crate::source::str_end;
use crate::source::utf8_decode;
use crate::source::utf8_decode_ok;
use crate::source::ByteSource;
use core::marker::PhantomData;
use vstd::prelude::*;

verus! {

/// A type that can be decoded from the byte source at the cursor. Every
/// decoder leaves the bytes untouched (only the cursor moves) and meets the
/// type's own decoding contract, `import_ens`.
pub trait Importable where Self: Sized {
    /// The exact decoding contract of the type, over the source before the
    /// call, the source after it, and the result.
    spec fn import_ens(src0: ByteSource, src1: ByteSource, r: Result<Self, DecodeError>) -> bool;

    /// Decodes one record of the type at the cursor.
    fn import(src: &mut ByteSource) -> (r: Result<Self, DecodeError>)
        requires
            old(src).wf(),
        ensures
            final(src).data@ == old(src).data@,
            final(src).wf(),
            Self::import_ens(*old(src), *final(src), r),
    ;
}

/// The entry count an index-group block at `p` declares (the root sentinel
/// is not counted); a negative on-disk count reads as zero entries.
pub open spec fn index_group_count(s: Seq<u8>, p: int) -> int {
    if be_i32_at(s, p + 4) > 0 {
        be_i32_at(s, p + 4)
    } else {
        0
    }
}

/// One past the last byte of the declared entries of the block at `p`:
/// length word, count word and root sentinel, then 16 bytes per entry.
pub open spec fn index_group_entries_end(s: Seq<u8>, p: int) -> int {
    p + 24 + 16 * index_group_count(s, p)
}

/// Whether the index-group block at `p` decodes: its words and entries lie
/// within the source and the cursor does not cross the declared length.
pub open spec fn index_group_ok(s: Seq<u8>, p: int) -> bool {
    &&& p + 8 <= s.len()
    &&& (index_group_count(s, p) > 0 ==> index_group_entries_end(s, p) <= s.len())
    &&& index_group_entries_end(s, p) <= p + 4 + be_u32_at(s, p)
}

/// The error a failing index-group block at `p` decodes to.
pub open spec fn index_group_err(s: Seq<u8>, p: int) -> DecodeError {
    if p + 8 > s.len() {
        DecodeError::Truncated
    } else if index_group_count(s, p) > 0 && index_group_entries_end(s, p) > s.len() {
        DecodeError::Truncated
    } else {
        DecodeError::IndexGroupOverrun
    }
}

/// The slot handles a decoded data array holds: `n` positions starting at
/// `p`, `stride` bytes apart.
pub open spec fn array_parsed<I>(a: DataArray<I>, p: int, stride: int, n: int) -> bool {
    &&& a.entries@.len() == n
    &&& forall|i: int|
        0 <= i < n ==> (#[trigger] a.entries@[i]).data_pointer.location is None
            && a.entries@[i].data_pointer.points_to == p + stride * i
}

/// The entries a decoded index group holds when its block was read at `p`.
pub open spec fn group_parsed<I>(s: Seq<u8>, p: int, g: IndexGroup<I>) -> bool {
    &&& g.entries@.len() == index_group_count(s, p)
    &&& forall|i: int|
        0 <= i < g.entries@.len() ==> (#[trigger] g.entries@[i]).parsed_at(s, p + 24 + 16 * i)
}

/// A named, counted collection of lazy entries enumerated in stored order.
#[derive(Debug)]
pub struct IndexGroup<I> {
    pub entries: Vec<IndexGroupEntry<I>>,
}

/// One index-group entry: the search value and left/right links of the
/// on-disk search tree (preserved, not traversed) and the name and data
/// pointers. The payload kind is the phantom type tag.
#[derive(Debug)]
pub struct IndexGroupEntry<I> {
    pub search_value: u32,
    pub left_index: u16,
    pub right_index: u16,
    pub name_pointer: Pointer,
    pub data_pointer: Pointer,
    pub data_type: PhantomData<I>,
}

impl<I> IndexGroupEntry<I> {
    /// The fields this entry holds when its 16 bytes were read at `p`.
    pub open spec fn parsed_at(self, s: Seq<u8>, p: int) -> bool {
        &&& self.search_value == be_u32_at(s, p)
        &&& self.left_index == be_u16_at(s, p + 4)
        &&& self.right_index == be_u16_at(s, p + 6)
        &&& self.name_pointer.location == Some((p + 8) as u64)
        &&& self.name_pointer.points_to == be_i32_at(s, p + 8)
        &&& self.data_pointer.location == Some((p + 12) as u64)
        &&& self.data_pointer.points_to == be_i32_at(s, p + 12)
    }
}

impl<I: Importable> Importable for IndexGroupEntry<I> {
    open spec fn import_ens(src0: ByteSource, src1: ByteSource, r: Result<Self, DecodeError>) -> bool {
        let s = src0.data@;
        let p = src0.pos as int;
        match r {
            Ok(e) => p + 16 <= s.len() && e.parsed_at(s, p) && src1.pos == p + 16,
            Err(e) => p + 16 > s.len() && e == DecodeError::Truncated,
        }
    }

    #[verifier::rlimit(60)]
    fn import(src: &mut ByteSource) -> (r: Result<Self, DecodeError>) {
        let search_value = src.read_be_to_u32()?;
        let left_index = src.read_be_to_u16()?;
        let right_index = src.read_be_to_u16()?;
        let name_pointer = Pointer::read_new_rel_i32_be(src)?;
        let data_pointer = Pointer::read_new_rel_i32_be(src)?;
        Ok(
            IndexGroupEntry {
                search_value,
                left_index,
                right_index,
                name_pointer,
                data_pointer,
                data_type: PhantomData,
            },
        )
    }
}

impl<I: Importable> Importable for IndexGroup<I> {
    open spec fn import_ens(src0: ByteSource, src1: ByteSource, r: Result<Self, DecodeError>) -> bool {
        let s = src0.data@;
        let p = src0.pos as int;
        match r {
            Ok(g) => {
                &&& index_group_ok(s, p)
                &&& group_parsed(s, p, g)
                &&& src1.pos == vstd::math::min(index_group_entries_end(s, p), s.len() as int)
            },
            Err(e) => !index_group_ok(s, p) && e == index_group_err(s, p),
        }
    }

    #[verifier::rlimit(60)]
    fn import(src: &mut ByteSource) -> (r: Result<Self, DecodeError>) {
        let ghost s = src.data@;
        let ghost p = src.pos as int;
        let start = src.pos;
        let length = src.read_be_to_u32()?;
        let nb_entries = src.read_be_to_i32()?;
        let n: usize = if nb_entries > 0 {
            nb_entries as usize
        } else {
            0
        };
        let base = src.pos;  // start + 8
        if n > 0 {
            // every declared entry must fit in the source
            if (src.len() as u64) < base as u64 + 16 + 16 * (n as u64) {
                return Err(DecodeError::Truncated);
            }
        }
        let mut entries: Vec<IndexGroupEntry<I>> = Vec::new();
        if n > 0 {
            src.seek(base + 16);  // skip the root sentinel
            let mut i: usize = 0;
            while i < n
                invariant
                    src.wf(),
                    src.data@ == s,
                    0 <= i <= n,
                    p + 24 + 16 * n <= s.len(),
                    src.pos == p + 24 + 16 * i,
                    entries@.len() == i,
                    forall|j: int|
                        0 <= j < i ==> (#[trigger] entries@[j]).parsed_at(s, p + 24 + 16 * j),
                decreases n - i,
            {
                let e = IndexGroupEntry::<I>::import(src)?;
                entries.push(e);
                i = i + 1;
            }
        } else {
            // the sentinel skip may stand past the end; clamp the cursor
            let e = base + 16;
            if e <= src.len() {
                src.seek(e);
            } else {
                let l = src.len();
                src.seek(l);
            }
        }
        // the cursor must not have crossed the declared group length
        let virtual_end: u64 = base as u64 + 16 + 16 * (n as u64);
        if virtual_end > start as u64 + 4 + length as u64 {
            return Err(DecodeError::IndexGroupOverrun);
        }
        Ok(IndexGroup { entries })
    }
}

impl<I: Importable> IndexGroupEntry<I> {
    /// Seeks to the name pointer and reads the null-terminated name.
    pub fn get_name(&self, src: &mut ByteSource) -> (r: Result<String, DecodeError>)
        requires
            old(src).wf(),
        ensures
            final(src).data@ == old(src).data@,
            final(src).wf(),
            !(0 <= self.name_pointer.abs_pos() <= old(src).data@.len()) ==> r == Err::<
                String,
                DecodeError,
            >(DecodeError::PointerOutOfRange),
            0 <= self.name_pointer.abs_pos() <= old(src).data@.len() ==> ({
                let s = old(src).data@;
                let a = self.name_pointer.abs_pos();
                let e = str_end(s, a);
                if e >= s.len() {
                    r == Err::<String, DecodeError>(DecodeError::Truncated)
                } else if !utf8_decode_ok(s.subrange(a, e)) {
                    r == Err::<String, DecodeError>(DecodeError::Encoding)
                } else {
                    r matches Ok(t) && t@ == utf8_decode(s.subrange(a, e)) && final(src).pos == e
                        + 1
                }
            }),
    {
        self.name_pointer.seek_abs_pos(src)?;
        src.read_text_entry()
    }

    /// Seeks to the data pointer and decodes one record of the payload kind.
    pub fn get_data(&self, src: &mut ByteSource) -> (r: Result<I, DecodeError>)
        requires
            old(src).wf(),
        ensures
            final(src).data@ == old(src).data@,
            final(src).wf(),
            !(0 <= self.data_pointer.abs_pos() <= old(src).data@.len()) ==> r == Err::<
                I,
                DecodeError,
            >(DecodeError::PointerOutOfRange),
            0 <= self.data_pointer.abs_pos() <= old(src).data@.len() ==> I::import_ens(
                (ByteSource { data: old(src).data, pos: self.data_pointer.abs_pos() as usize }),
                *final(src),
                r,
            ),
    {
        self.data_pointer.seek_abs_pos(src)?;
        I::import(src)
    }
}

/// A fixed-stride sequence of lazy inline records. Only the slot positions
/// are recorded; decoding a particular element seeks to its slot and parses.
/// The caller guarantees that the stride matches the on-disk layout of the
/// element kind.
#[derive(Debug)]
pub struct DataArray<I> {
    pub entries: Vec<DataArrayEntry<I>>,
}

/// One data-array slot: an absolute pointer to the slot's inline header.
#[derive(Debug)]
pub struct DataArrayEntry<I> {
    pub data_pointer: Pointer,
    pub data_type: PhantomData<I>,
}

impl<I> DataArrayEntry<I> {
    /// The slot handle records the absolute position `p`.
    pub open spec fn at_position(self, p: int) -> bool {
        self.data_pointer.location is None && self.data_pointer.points_to == p
    }
}

impl<I: Importable> DataArrayEntry<I> {

    /// Seeks to the slot and decodes one record of the element kind.
    pub fn get_data(&self, src: &mut ByteSource) -> (r: Result<I, DecodeError>)
        requires
            old(src).wf(),
        ensures
            final(src).data@ == old(src).data@,
            final(src).wf(),
            !(0 <= self.data_pointer.abs_pos() <= old(src).data@.len()) ==> r == Err::<
                I,
                DecodeError,
            >(DecodeError::PointerOutOfRange),
            0 <= self.data_pointer.abs_pos() <= old(src).data@.len() ==> I::import_ens(
                (ByteSource { data: old(src).data, pos: self.data_pointer.abs_pos() as usize }),
                *final(src),
                r,
            ),
    {
        self.data_pointer.seek_abs_pos(src)?;
        I::import(src)
    }
}

impl<I: Importable> DataArray<I> {
    /// Records `amount` slot positions starting at the cursor, `every` bytes
    /// apart. Fails with `ArrayOutOfRange` when a slot position would not be
    /// representable as an absolute pointer.
    pub fn new(src: &mut ByteSource, every: u32, amount: u32) -> (r: Result<
        DataArray<I>,
        DecodeError,
    >)
        requires
            old(src).wf(),
        ensures
            final(src).data@ == old(src).data@,
            final(src).wf(),
            ({
                let p = old(src).pos as int;
                if amount == 0 || p + every * (amount - 1) <= 0x7FFF_FFFF {
                    r matches Ok(a) && a.entries@.len() == amount && (forall|i: int|
                        0 <= i < amount ==> (#[trigger] a.entries@[i]).at_position(p + every * i))
                        && final(src).pos == vstd::math::min(
                        p + every * amount,
                        old(src).data@.len() as int,
                    )
                } else {
                    r == Err::<DataArray<I>, DecodeError>(DecodeError::ArrayOutOfRange)
                        && final(src).pos == old(src).pos
                }
            }),
    {
        let start = src.pos as u64;
        proof {
            assert((every as u64) * ((amount as u64) as u64) <= 0xFFFF_FFFF_0000_0000u64)
                by (nonlinear_arith)
                requires
                    every <= 0xFFFF_FFFFu64,
                    amount <= 0xFFFF_FFFFu64,
            ;
        }
        if amount > 0 {
            proof {
                assert((every as u64) * (((amount - 1) as u32) as u64) <= (every as u64) * (
                amount as u64)) by (nonlinear_arith)
                    requires
                        amount >= 1,
                        every >= 0,
                ;
            }
            let last: u64 = start + (every as u64) * ((amount - 1) as u64);
            if last > 0x7FFF_FFFF {
                return Err(DecodeError::ArrayOutOfRange);
            }
        }
        let mut entries: Vec<DataArrayEntry<I>> = Vec::new();
        let mut i: u32 = 0;
        while i < amount
            invariant
                0 <= i <= amount,
                start == old(src).pos,
                src == old(src),
                amount > 0 ==> start + every * (amount - 1) <= 0x7FFF_FFFF,
                entries@.len() == i,
                forall|j: int|
                    0 <= j < i ==> (#[trigger] entries@[j]).at_position(start + every * j),
            decreases amount - i,
        {
            proof {
                assert((every as int) * (i as int) <= (every as int) * ((amount - 1) as int))
                    by (nonlinear_arith)
                    requires
                        i <= amount - 1,
                        every >= 0,
                ;
            }
            let pos_i: u64 = start + (every as u64) * (i as u64);
            entries.push(
                DataArrayEntry { data_pointer: Pointer::new_abs(pos_i as i32), data_type: PhantomData },
            );
            i = i + 1;
        }
        let endp: u64 = start + (every as u64) * (amount as u64);
        if endp > src.len() as u64 {
            let l = src.len();
            src.seek(l);
        } else {
            src.seek(endp as usize);
        }
        Ok(DataArray { entries })
    }
}

} // verus!
