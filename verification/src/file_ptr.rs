//! File pointer

use vstd::bytes::{spec_u32_from_le_bytes, u32_from_le_bytes};
use vstd::prelude::*;
use vstd::slice::slice_subrange;

verus! {

/// A half-open byte range locating one file's contents inside the data blob.
///
/// The decoder accepts any pair of addresses; a degenerate or reversed range
/// only matters when something later tries to read it.
#[derive(PartialEq, Eq, Clone, Copy, Debug)]
pub struct FilePtr {
    /// Start address
    pub start_address: u32,

    /// End address
    pub end_address: u32,
}

/// The pointer encoded by one 8-byte record: a little-endian start address
/// followed by a little-endian end address.
pub open spec fn file_ptr_of(s: Seq<u8>) -> FilePtr
    recommends
        s.len() == 8,
{
    FilePtr {
        start_address: spec_u32_from_le_bytes(s.subrange(0, 4)),
        end_address: spec_u32_from_le_bytes(s.subrange(4, 8)),
    }
}

impl FilePtr {
    /// Parses a file pointer from its 8-byte record.
    pub fn from_bytes(bytes: &[u8]) -> (r: Self)
        requires
            bytes@.len() == 8,
        ensures
            r == file_ptr_of(bytes@),
    {
        let start_address = u32_from_le_bytes(slice_subrange(bytes, 0, 4));
        let end_address = u32_from_le_bytes(slice_subrange(bytes, 4, 8));
        FilePtr { start_address, end_address }
    }
}

} // verus!
