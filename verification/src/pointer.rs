//! Self-relative pointers. The container is position-independent: every
//! on-disk pointer is a 32-bit signed delta whose origin is the absolute
//! position it was read at, so the same delta means different targets at
//! different origins. Remembering the origin is therefore essential.

use crate::error::DecodeError;
use crate::source::be_i32_at;
use crate::source::ByteSource;
use vstd::prelude::*;

verus! {

/// Deferred location of another record: a signed delta together with the
/// absolute position it was read at. `location` is `None` for an absolute
/// pointer, whose target is the delta itself.
#[derive(Clone, Copy, Debug)]
pub struct Pointer {
    pub location: Option<u64>,
    pub points_to: i32,
}

impl Pointer {
    /// The absolute target: origin (0 for an absolute pointer) plus delta.
    pub open spec fn abs_pos(self) -> int {
        (match self.location {
            Some(l) => l as int,
            None => 0,
        }) + self.points_to as int
    }

    /// An absolute pointer: no origin, the delta is the target itself.
    pub fn new_abs(offset: i32) -> (r: Pointer)
        ensures
            r.location is None,
            r.points_to == offset,
            r.abs_pos() == offset as int,
    {
        Pointer { location: None, points_to: offset }
    }

    /// A relative pointer with an explicit origin.
    pub fn new_rel(location: u64, points_to: i32) -> (r: Pointer)
        ensures
            r.location == Some(location),
            r.points_to == points_to,
            r.abs_pos() == location + points_to,
    {
        Pointer { location: Some(location), points_to }
    }

    /// Reads a 32-bit big-endian delta at the cursor; the origin is the
    /// position the delta was read at.
    pub fn read_new_rel_i32_be(src: &mut ByteSource) -> (r: Result<Pointer, DecodeError>)
        ensures
            final(src).data@ == old(src).data@,
            old(src).pos + 4 <= old(src).data@.len() ==> (r matches Ok(p) && p.location == Some(
                old(src).pos as u64,
            ) && p.points_to == be_i32_at(old(src).data@, old(src).pos as int) && p.abs_pos() == old(
                src,
            ).pos + be_i32_at(old(src).data@, old(src).pos as int) && final(src).pos == old(src).pos
                + 4),
            old(src).pos + 4 > old(src).data@.len() ==> r == Err::<Pointer, DecodeError>(
                DecodeError::Truncated,
            ) && final(src).pos == old(src).pos,
    {
        let loc = src.pos as u64;
        let delta = src.read_be_to_i32()?;
        Ok(Pointer { location: Some(loc), points_to: delta })
    }

    /// Resolves to the absolute target. Fails with `PointerOutOfRange` when
    /// the sum of origin and delta is negative (or cannot be represented).
    pub fn get_abs_pos(&self) -> (r: Result<u64, DecodeError>)
        ensures
            0 <= self.abs_pos() <= u64::MAX ==> (r matches Ok(v) && v == self.abs_pos()),
            !(0 <= self.abs_pos() <= u64::MAX) ==> r == Err::<u64, DecodeError>(
                DecodeError::PointerOutOfRange,
            ),
    {
        let base: i128 = match self.location {
            Some(l) => l as i128,
            None => 0,
        };
        let target: i128 = base + self.points_to as i128;
        if target < 0 || target > u64::MAX as i128 {
            return Err(DecodeError::PointerOutOfRange);
        }
        Ok(target as u64)
    }

    /// Resolution followed by absolute seek: fails with `PointerOutOfRange`
    /// when the target is negative or past the end of the source.
    pub fn seek_abs_pos(&self, src: &mut ByteSource) -> (r: Result<(), DecodeError>)
        ensures
            final(src).data == old(src).data,
            final(src).data@ == old(src).data@,
            0 <= self.abs_pos() <= old(src).data@.len() ==> r is Ok && final(src).pos
                == self.abs_pos(),
            !(0 <= self.abs_pos() <= old(src).data@.len()) ==> r == Err::<(), DecodeError>(
                DecodeError::PointerOutOfRange,
            ) && final(src).pos == old(src).pos,
    {
        let base: i128 = match self.location {
            Some(l) => l as i128,
            None => 0,
        };
        let target: i128 = base + self.points_to as i128;
        if target < 0 || target > src.len() as i128 {
            return Err(DecodeError::PointerOutOfRange);
        }
        src.seek(target as usize);
        Ok(())
    }
}

/// Pointer round-trip: a delta read at `origin` resolves to exactly
/// `origin + delta`, and by the contract of `seek_abs_pos` a resolution that
/// succeeds against a source lands inside it.
pub proof fn lemma_pointer_round_trip(origin: u64, delta: i32)
    ensures
        (Pointer { location: Some(origin), points_to: delta }).abs_pos() == origin + delta,
        (Pointer { location: None, points_to: delta }).abs_pos() == delta,
{
}

} // verus!
