//! Random-access byte source: an in-memory buffer with an absolute cursor,
//! big-endian primitive reads and null-terminated string reads. All decoding
//! in this crate is a pure function over the immutable byte sequence; only
//! the cursor moves.

use crate::error::DecodeError;
use vstd::prelude::*;

verus! {

/// The unsigned value of the big-endian 16-bit word at `i`.
pub open spec fn be_u16_at(s: Seq<u8>, i: int) -> int {
    s[i] * 0x100 + s[i + 1]
}

/// The unsigned value of the big-endian 32-bit word at `i`.
pub open spec fn be_u32_at(s: Seq<u8>, i: int) -> int {
    s[i] * 0x100_0000 + s[i + 1] * 0x1_0000 + s[i + 2] * 0x100 + s[i + 3]
}

/// The two's-complement value of the big-endian 16-bit word at `i`.
pub open spec fn be_i16_at(s: Seq<u8>, i: int) -> int {
    if be_u16_at(s, i) >= 0x8000 {
        be_u16_at(s, i) - 0x1_0000
    } else {
        be_u16_at(s, i)
    }
}

/// The two's-complement value of the big-endian 32-bit word at `i`.
pub open spec fn be_i32_at(s: Seq<u8>, i: int) -> int {
    if be_u32_at(s, i) >= 0x8000_0000 {
        be_u32_at(s, i) - 0x1_0000_0000
    } else {
        be_u32_at(s, i)
    }
}

/// `i` rounded up to the next multiple of 4; identity when already aligned.
pub open spec fn align4(i: int) -> int {
    if i % 4 == 0 {
        i
    } else {
        i + (4 - i % 4)
    }
}

/// Position of the first zero byte at or after `i`, or `s.len()` when none.
pub open spec fn str_end(s: Seq<u8>, i: int) -> int
    decreases s.len() - i,
{
    if i < 0 || i >= s.len() {
        i
    } else if s[i] == 0 {
        i
    } else {
        str_end(s, i + 1)
    }
}

/// Whether `String::from_utf8` accepts `bytes`; said only by the contract of
/// `string_from_utf8` below.
pub uninterp spec fn utf8_decode_ok(bytes: Seq<u8>) -> bool;

/// The characters `String::from_utf8` decodes `bytes` to; said only by the
/// contract of `string_from_utf8` below.
pub uninterp spec fn utf8_decode(bytes: Seq<u8>) -> Seq<char>;

/// Relies on String::from_utf8: it succeeds exactly on valid UTF-8 input and
/// the decoded characters depend on the bytes alone.
#[verifier::external_body]
pub(crate) fn string_from_utf8(bytes: Vec<u8>) -> (r: Option<String>)
    ensures
        r is Some <==> utf8_decode_ok(bytes@),
        r matches Some(s) ==> s@ == utf8_decode(bytes@),
{
    String::from_utf8(bytes).ok()
}

/// Seekable big-endian buffer. The cursor may stand past the end (a pointer
/// or an alignment step can leave it there); any read from such a position
/// fails with `Truncated`.
pub struct ByteSource {
    pub data: Vec<u8>,
    pub pos: usize,
}

impl ByteSource {
    /// The buffer is bounded by the format's 31-bit pointer reach, and the
    /// cursor never strays more than one alignment step past the end.
    pub open spec fn wf(self) -> bool {
        self.data@.len() <= 0x7FFF_FFFF && self.pos <= self.data@.len() + 3
    }

    pub fn new(data: Vec<u8>) -> (r: ByteSource)
        requires
            data@.len() <= 0x7FFF_FFFF,
        ensures
            r.data@ == data@,
            r.pos == 0,
            r.wf(),
    {
        ByteSource { data, pos: 0 }
    }

    /// Absolute seek; the target must lie within the buffer (one past the
    /// last byte is allowed).
    pub fn seek(&mut self, p: usize)
        requires
            p <= old(self).data@.len(),
        ensures
            final(self).data == old(self).data,
            final(self).data@ == old(self).data@,
            old(self).wf() ==> final(self).wf(),
            final(self).pos == p,
    {
        self.pos = p;
    }

    pub fn len(&self) -> (r: usize)
        ensures
            r == self.data@.len(),
    {
        self.data.len()
    }

    pub fn read_to_u8(&mut self) -> (r: Result<u8, DecodeError>)
        ensures
            final(self).data@ == old(self).data@,
            old(self).wf() ==> final(self).wf(),
            old(self).pos + 1 <= old(self).data@.len() ==> (r matches Ok(v) && v == old(
                self,
            ).data@[old(self).pos as int] && final(self).pos == old(self).pos + 1),
            old(self).pos + 1 > old(self).data@.len() ==> r == Err::<u8, DecodeError>(
                DecodeError::Truncated,
            ) && final(self).pos == old(self).pos,
    {
        if self.pos >= self.data.len() {
            return Err(DecodeError::Truncated);
        }
        let v = self.data[self.pos];
        self.pos = self.pos + 1;
        Ok(v)
    }

    pub fn read_be_to_u16(&mut self) -> (r: Result<u16, DecodeError>)
        ensures
            final(self).data@ == old(self).data@,
            old(self).wf() ==> final(self).wf(),
            old(self).pos + 2 <= old(self).data@.len() ==> (r matches Ok(v) && v == be_u16_at(
                old(self).data@,
                old(self).pos as int,
            ) && final(self).pos == old(self).pos + 2),
            old(self).pos + 2 > old(self).data@.len() ==> r == Err::<u16, DecodeError>(
                DecodeError::Truncated,
            ) && final(self).pos == old(self).pos,
    {
        if self.pos >= self.data.len() || self.data.len() - self.pos < 2 {
            return Err(DecodeError::Truncated);
        }
        let b0 = self.data[self.pos] as u16;
        let b1 = self.data[self.pos + 1] as u16;
        self.pos = self.pos + 2;
        Ok(b0 * 0x100 + b1)
    }

    pub fn read_be_to_u32(&mut self) -> (r: Result<u32, DecodeError>)
        ensures
            final(self).data@ == old(self).data@,
            old(self).wf() ==> final(self).wf(),
            old(self).pos + 4 <= old(self).data@.len() ==> (r matches Ok(v) && v == be_u32_at(
                old(self).data@,
                old(self).pos as int,
            ) && final(self).pos == old(self).pos + 4),
            old(self).pos + 4 > old(self).data@.len() ==> r == Err::<u32, DecodeError>(
                DecodeError::Truncated,
            ) && final(self).pos == old(self).pos,
    {
        if self.pos >= self.data.len() || self.data.len() - self.pos < 4 {
            return Err(DecodeError::Truncated);
        }
        let b0 = self.data[self.pos] as u32;
        let b1 = self.data[self.pos + 1] as u32;
        let b2 = self.data[self.pos + 2] as u32;
        let b3 = self.data[self.pos + 3] as u32;
        self.pos = self.pos + 4;
        Ok(b0 * 0x100_0000 + b1 * 0x1_0000 + b2 * 0x100 + b3)
    }

    pub fn read_be_to_i16(&mut self) -> (r: Result<i16, DecodeError>)
        ensures
            final(self).data@ == old(self).data@,
            old(self).wf() ==> final(self).wf(),
            old(self).pos + 2 <= old(self).data@.len() ==> (r matches Ok(v) && v == be_i16_at(
                old(self).data@,
                old(self).pos as int,
            ) && final(self).pos == old(self).pos + 2),
            old(self).pos + 2 > old(self).data@.len() ==> r == Err::<i16, DecodeError>(
                DecodeError::Truncated,
            ) && final(self).pos == old(self).pos,
    {
        let u = self.read_be_to_u16()?;
        if u >= 0x8000 {
            Ok(((u as i32) - 0x1_0000i32) as i16)
        } else {
            Ok(u as i16)
        }
    }

    pub fn read_be_to_i32(&mut self) -> (r: Result<i32, DecodeError>)
        ensures
            final(self).data@ == old(self).data@,
            old(self).wf() ==> final(self).wf(),
            old(self).pos + 4 <= old(self).data@.len() ==> (r matches Ok(v) && v == be_i32_at(
                old(self).data@,
                old(self).pos as int,
            ) && final(self).pos == old(self).pos + 4),
            old(self).pos + 4 > old(self).data@.len() ==> r == Err::<i32, DecodeError>(
                DecodeError::Truncated,
            ) && final(self).pos == old(self).pos,
    {
        let u = self.read_be_to_u32()?;
        if u >= 0x8000_0000 {
            Ok(((u as i64) - 0x1_0000_0000i64) as i32)
        } else {
            Ok(u as i32)
        }
    }

    pub fn read_exact_4(&mut self) -> (r: Result<[u8; 4], DecodeError>)
        ensures
            final(self).data@ == old(self).data@,
            old(self).wf() ==> final(self).wf(),
            old(self).pos + 4 <= old(self).data@.len() ==> (r matches Ok(v) && v@ == old(
                self,
            ).data@.subrange(old(self).pos as int, old(self).pos + 4) && final(self).pos == old(self).pos
                + 4),
            old(self).pos + 4 > old(self).data@.len() ==> r == Err::<[u8; 4], DecodeError>(
                DecodeError::Truncated,
            ) && final(self).pos == old(self).pos,
    {
        if self.pos >= self.data.len() || self.data.len() - self.pos < 4 {
            return Err(DecodeError::Truncated);
        }
        let v = [
            self.data[self.pos],
            self.data[self.pos + 1],
            self.data[self.pos + 2],
            self.data[self.pos + 3],
        ];
        self.pos = self.pos + 4;
        proof {
            assert(v@ =~= old(self).data@.subrange(old(self).pos as int, old(self).pos + 4));
        }
        Ok(v)
    }

    #[verifier::loop_isolation(false)]
    pub fn read_bytes(&mut self, n: usize) -> (r: Result<Vec<u8>, DecodeError>)
        ensures
            final(self).data@ == old(self).data@,
            old(self).wf() ==> final(self).wf(),
            old(self).pos + n <= old(self).data@.len() ==> (r matches Ok(v) && v@ == old(
                self,
            ).data@.subrange(old(self).pos as int, old(self).pos + n) && final(self).pos == old(self).pos
                + n),
            old(self).pos + n > old(self).data@.len() ==> r == Err::<Vec<u8>, DecodeError>(
                DecodeError::Truncated,
            ) && final(self).pos == old(self).pos,
    {
        if self.pos > self.data.len() || self.data.len() - self.pos < n {
            return Err(DecodeError::Truncated);
        }
        let base = self.pos;
        let mut v: Vec<u8> = Vec::new();
        let mut i: usize = 0;
        while i < n
            invariant
                0 <= i <= n,
                base == self.pos,
                base + n <= self.data@.len(),
                self.data@ == old(self).data@,
                v@ == self.data@.subrange(base as int, base + i),
            decreases n - i,
        {
            v.push(self.data[base + i]);
            i = i + 1;
            proof {
                assert(v@ =~= self.data@.subrange(base as int, base + i));
            }
        }
        self.pos = base + n;
        Ok(v)
    }

    /// Advances the cursor over `n` padding bytes; fails with `Truncated`
    /// when they are not all within the source.
    pub fn skip(&mut self, n: usize) -> (r: Result<(), DecodeError>)
        ensures
            final(self).data@ == old(self).data@,
            old(self).wf() ==> final(self).wf(),
            old(self).pos + n <= old(self).data@.len() ==> (r is Ok && final(self).pos == old(
                self,
            ).pos + n),
            old(self).pos + n > old(self).data@.len() ==> r == Err::<(), DecodeError>(
                DecodeError::Truncated,
            ) && final(self).pos == old(self).pos,
    {
        if self.pos > self.data.len() || self.data.len() - self.pos < n {
            return Err(DecodeError::Truncated);
        }
        self.pos = self.pos + n;
        Ok(())
    }

    /// Advances the cursor to the next multiple of 4 when not already
    /// aligned; never retreats.
    pub fn align_on_4_bytes(&mut self) -> (r: Result<(), DecodeError>)
        requires
            old(self).wf(),
            old(self).pos <= old(self).data@.len(),
        ensures
            final(self).data@ == old(self).data@,
            final(self).pos == align4(old(self).pos as int),
            old(self).pos <= final(self).pos,
            r is Ok,
            final(self).wf(),
    {
        let rem = self.pos % 4;
        if rem != 0 {
            self.pos = self.pos + (4 - rem);
        }
        Ok(())
    }

    /// Reads bytes up to (not including) the next zero byte, consumes the
    /// zero, and decodes them as UTF-8. Fails with `Truncated` when no zero
    /// byte follows, `Encoding` on invalid UTF-8.
    #[verifier::loop_isolation(false)]
    pub fn read_text_entry(&mut self) -> (r: Result<String, DecodeError>)
        ensures
            final(self).data@ == old(self).data@,
            old(self).wf() ==> final(self).wf(),
            ({
                let s = old(self).data@;
                let p = old(self).pos as int;
                let e = str_end(s, p);
                if e >= s.len() {
                    r == Err::<String, DecodeError>(DecodeError::Truncated)
                } else if !utf8_decode_ok(s.subrange(p, e)) {
                    r == Err::<String, DecodeError>(DecodeError::Encoding)
                } else {
                    r matches Ok(t) && t@ == utf8_decode(s.subrange(p, e)) && final(self).pos == e + 1
                }
            }),
    {
        let ghost s = self.data@;
        let ghost p0 = self.pos as int;
        if self.pos >= self.data.len() {
            return Err(DecodeError::Truncated);
        }
        let mut bytes: Vec<u8> = Vec::new();
        while self.pos < self.data.len() && self.data[self.pos] != 0
            invariant
                self.data@ == s,
                p0 <= self.pos <= s.len(),
                str_end(s, p0) == str_end(s, self.pos as int),
                bytes@ == s.subrange(p0, self.pos as int),
            decreases s.len() - self.pos,
        {
            bytes.push(self.data[self.pos]);
            self.pos = self.pos + 1;
            proof {
                assert(bytes@ =~= s.subrange(p0, self.pos as int));
            }
        }
        if self.pos >= self.data.len() {
            return Err(DecodeError::Truncated);
        }
        self.pos = self.pos + 1;
        match string_from_utf8(bytes) {
            Some(t) => Ok(t),
            None => Err(DecodeError::Encoding),
        }
    }
}

} // verus!
