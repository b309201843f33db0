//! Fnt header

use crate::narc::magic::magic_matches;
use vstd::bytes::{spec_u32_from_le_bytes, u32_from_le_bytes};
use vstd::prelude::*;
use vstd::slice::slice_subrange;

verus! {

/// The bytes of the `BTNF` chunk name.
pub open spec fn fnt_magic() -> Seq<u8> {
    seq![0x42u8, 0x54u8, 0x4eu8, 0x46u8]
}

/// Narc fnt header: the 8-byte header that guards the name table chunk.
#[derive(PartialEq, Eq, Clone, Copy, Debug)]
pub struct FntHeader {
    /// Chunk size, the header itself included.
    pub chunk_size: u32,
}

/// The header encoded by an 8-byte region: the `BTNF` chunk name, then the
/// little-endian chunk size; a wrong chunk name yields nothing.
pub open spec fn fnt_header_of(s: Seq<u8>) -> Option<FntHeader>
    recommends
        s.len() == 8,
{
    if s.subrange(0, 4) != fnt_magic() {
        None
    } else {
        Some(FntHeader { chunk_size: spec_u32_from_le_bytes(s.subrange(4, 8)) })
    }
}

impl FntHeader {
    /// Parses a fnt header from its 8 bytes.
    pub fn from_bytes(bytes: &[u8]) -> (r: Option<Self>)
        requires
            bytes@.len() == 8,
        ensures
            r == fnt_header_of(bytes@),
    {
        if !magic_matches(bytes, 0x42, 0x54, 0x4e, 0x46) {
            return None;
        }
        Some(Self { chunk_size: u32_from_le_bytes(slice_subrange(bytes, 4, 8)) })
    }
}

} // verus!
