//! The nine animation and shader sub-file kinds that are accepted
//! structurally but not parsed: each decodes as an opaque marker with no
//! fields read and the cursor left in place.

use crate::error::DecodeError;
use crate::group::Importable;
use crate::source::ByteSource;
use vstd::prelude::*;

verus! {

/// Skeleton-animation sub-file (opaque marker).
#[derive(Debug)]
pub struct FSKA {}

/// Shader-parameter sub-file, also the colour- and texture-SRT-animation
/// kinds (opaque marker).
#[derive(Debug)]
pub struct FSHU {}

/// Texture-pattern-animation sub-file (opaque marker).
#[derive(Debug)]
pub struct FTXP {}

/// Bone- and material-visibility-animation sub-file (opaque marker).
#[derive(Debug)]
pub struct FVIS {}

/// Shape-animation sub-file (opaque marker).
#[derive(Debug)]
pub struct FSHA {}

/// Scene-animation sub-file (opaque marker).
#[derive(Debug)]
pub struct FSCN {}

impl Importable for FSKA {
    open spec fn import_ens(src0: ByteSource, src1: ByteSource, r: Result<Self, DecodeError>) -> bool {
        r is Ok && src1.pos == src0.pos
    }

    fn import(src: &mut ByteSource) -> (r: Result<Self, DecodeError>) {
        Ok(FSKA {  })
    }
}

impl Importable for FSHU {
    open spec fn import_ens(src0: ByteSource, src1: ByteSource, r: Result<Self, DecodeError>) -> bool {
        r is Ok && src1.pos == src0.pos
    }

    fn import(src: &mut ByteSource) -> (r: Result<Self, DecodeError>) {
        Ok(FSHU {  })
    }
}

impl Importable for FTXP {
    open spec fn import_ens(src0: ByteSource, src1: ByteSource, r: Result<Self, DecodeError>) -> bool {
        r is Ok && src1.pos == src0.pos
    }

    fn import(src: &mut ByteSource) -> (r: Result<Self, DecodeError>) {
        Ok(FTXP {  })
    }
}

impl Importable for FVIS {
    open spec fn import_ens(src0: ByteSource, src1: ByteSource, r: Result<Self, DecodeError>) -> bool {
        r is Ok && src1.pos == src0.pos
    }

    fn import(src: &mut ByteSource) -> (r: Result<Self, DecodeError>) {
        Ok(FVIS {  })
    }
}

impl Importable for FSHA {
    open spec fn import_ens(src0: ByteSource, src1: ByteSource, r: Result<Self, DecodeError>) -> bool {
        r is Ok && src1.pos == src0.pos
    }

    fn import(src: &mut ByteSource) -> (r: Result<Self, DecodeError>) {
        Ok(FSHA {  })
    }
}

impl Importable for FSCN {
    open spec fn import_ens(src0: ByteSource, src1: ByteSource, r: Result<Self, DecodeError>) -> bool {
        r is Ok && src1.pos == src0.pos
    }

    fn import(src: &mut ByteSource) -> (r: Result<Self, DecodeError>) {
        Ok(FSCN {  })
    }
}

} // verus!
