//! Fat header

use crate::narc::magic::magic_matches;
use vstd::bytes::{spec_u16_from_le_bytes, spec_u32_from_le_bytes, u16_from_le_bytes, u32_from_le_bytes};
use vstd::prelude::*;
use vstd::slice::slice_subrange;

verus! {

/// The bytes of the `BTAF` chunk name.
pub open spec fn fat_magic() -> Seq<u8> {
    seq![0x42u8, 0x54u8, 0x41u8, 0x46u8]
}

/// Narc fat header: the 12-byte header that guards the allocation table
/// chunk.
#[derive(PartialEq, Eq, Clone, Copy, Debug)]
pub struct FatHeader {
    /// Chunk size, the header itself included.
    pub chunk_size: u32,

    /// Number of files
    pub files_len: u16,

    /// Reserved
    pub reserved: u16,
}

/// The header encoded by a 12-byte region: the `BTAF` chunk name, then the
/// little-endian chunk size, file count and reserved field; a wrong chunk
/// name yields nothing.
pub open spec fn fat_header_of(s: Seq<u8>) -> Option<FatHeader>
    recommends
        s.len() == 12,
{
    if s.subrange(0, 4) != fat_magic() {
        None
    } else {
        Some(
            FatHeader {
                chunk_size: spec_u32_from_le_bytes(s.subrange(4, 8)),
                files_len: spec_u16_from_le_bytes(s.subrange(8, 10)),
                reserved: spec_u16_from_le_bytes(s.subrange(10, 12)),
            },
        )
    }
}

impl FatHeader {
    /// Parses a fat header from its 12 bytes.
    pub fn from_bytes(bytes: &[u8]) -> (r: Option<Self>)
        requires
            bytes@.len() == 12,
        ensures
            r == fat_header_of(bytes@),
    {
        if !magic_matches(bytes, 0x42, 0x54, 0x41, 0x46) {
            return None;
        }
        Some(
            Self {
                chunk_size: u32_from_le_bytes(slice_subrange(bytes, 4, 8)),
                files_len: u16_from_le_bytes(slice_subrange(bytes, 8, 10)),
                reserved: u16_from_le_bytes(slice_subrange(bytes, 10, 12)),
            },
        )
    }
}

} // verus!
