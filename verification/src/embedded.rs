//! Embedded sub-file: an opaque byte range named by an offset pointer and a
//! 32-bit length.

use crate::error::DecodeError;
use crate::group::Importable;
use crate::pointer::Pointer;
use crate::source::be_i32_at;
use crate::source::be_u32_at;
use crate::source::ByteSource;
use vstd::prelude::*;

verus! {

/// An embedded file: where its bytes start and how many there are.
#[derive(Debug)]
pub struct Embedded {
    pub offset: Pointer,
    pub length: u32,
}

impl Importable for Embedded {
    open spec fn import_ens(src0: ByteSource, src1: ByteSource, r: Result<Self, DecodeError>) -> bool {
        let s = src0.data@;
        let p = src0.pos as int;
        match r {
            Ok(e) => {
                &&& p + 8 <= s.len()
                &&& e.offset.location == Some(p as u64)
                &&& e.offset.points_to == be_i32_at(s, p)
                &&& e.length == be_u32_at(s, p + 4)
                &&& src1.pos == p + 8
            },
            Err(e) => p + 8 > s.len() && e == DecodeError::Truncated,
        }
    }

    fn import(src: &mut ByteSource) -> (r: Result<Self, DecodeError>) {
        let offset = Pointer::read_new_rel_i32_be(src)?;
        let length = src.read_be_to_u32()?;
        Ok(Embedded { offset, length })
    }
}

} // verus!
