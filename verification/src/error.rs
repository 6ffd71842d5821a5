//! Error kinds surfaced by the decoders. Every decoder returns the first
//! error it encounters and stops; errors are the return type, there is no
//! global error channel.

use vstd::prelude::*;

verus! {

/// Identifies an on-disk field that is required to be zero.
#[derive(Clone, Copy, Debug, PartialEq, Eq, Structural)]
pub enum ReservedField {
    UserPointer,
    DataPointer,
    Handle,
    ContextPointer,
    MipmapPointer,
    TextureHandle,
    FirstSlice,
    MipmapCountDuplicate,
}

/// Identifies which enumerated field held an undefined code.
#[derive(Clone, Copy, Debug, PartialEq, Eq, Structural)]
pub enum EnumKind {
    Dimension,
    TextureFormat,
    AaMode,
    TileMode,
    SelectorChannel,
    AttributeFormat,
    PrimitiveType,
    IndexFormat,
    BillboardMode,
}

/// The failure model shared by all decoders. Fatal for the record being
/// decoded; the caller decides whether to abandon the whole container.
#[derive(Clone, Copy, Debug, PartialEq, Eq)]
pub enum DecodeError {
    /// A read ran past the end of the byte source.
    Truncated,
    /// A string record held invalid UTF-8.
    Encoding,
    /// A record header's magic bytes did not match.
    WrongMagic { expected: [u8; 4], found: [u8; 4] },
    /// The endianness marker was not 0xFEFF.
    UnsupportedEndianness,
    /// The container header length was not 0x0010.
    UnexpectedHeaderLength,
    /// An on-disk field required to be zero was not.
    NonZeroReserved { field: ReservedField },
    /// An enumerated field held an undefined code.
    UnknownEnumValue { kind: EnumKind, value: u32 },
    /// A resolved pointer fell outside the byte source.
    PointerOutOfRange,
    /// The cursor crossed an index group's declared length.
    IndexGroupOverrun,
    /// A data-array index was out of bounds.
    ArrayOutOfRange,
}

/// Compares four magic bytes against the expected ones; a mismatch is fatal
/// for the record being decoded.
pub fn check_magic_number(found: [u8; 4], expected: [u8; 4]) -> (r: Result<(), DecodeError>)
    ensures
        r is Ok <==> found@ == expected@,
        r is Err ==> r == Err::<(), DecodeError>(DecodeError::WrongMagic { expected, found }),
{
    if found[0] == expected[0] && found[1] == expected[1] && found[2] == expected[2] && found[3]
        == expected[3] {
        proof {
            assert(found@ =~= expected@);
        }
        Ok(())
    } else {
        proof {
            assert(found@ != expected@) by {
                if found@ == expected@ {
                    assert(found@[0] == expected@[0]);
                    assert(found@[1] == expected@[1]);
                    assert(found@[2] == expected@[2]);
                    assert(found@[3] == expected@[3]);
                }
            }
        }
        Err(DecodeError::WrongMagic { expected, found })
    }
}

} // verus!
