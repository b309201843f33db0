//! Header

use crate::narc::magic::magic_matches;
use vstd::bytes::{spec_u16_from_le_bytes, spec_u32_from_le_bytes, u16_from_le_bytes, u32_from_le_bytes};
use vstd::prelude::*;
use vstd::slice::slice_subrange;

verus! {

/// The bytes of the `NARC` chunk name.
pub open spec fn narc_magic() -> Seq<u8> {
    seq![0x4eu8, 0x41u8, 0x52u8, 0x43u8]
}

/// Error for [`Header::from_bytes`]
#[derive(PartialEq, Eq, Clone, Copy, Debug)]
pub enum FromBytesError {
    /// Wrong chunk name, expected `NARC`.
    WrongChunkName,
    /// Wrong byte order mark, expected `0xfffe`.
    WrongByteOrder { byte_order: u16 },
    /// Unknown version, expected `0x0100`.
    UnknownVersion { version: u16 },
    /// Wrong chunk header size, expected `0x0010`.
    WrongChunkSize { chunk_size: u16 },
    /// Wrong number of chunks, expected 3.
    WrongChunksLen { chunks_len: u16 },
}

/// Narc top header: only the file size is kept; every fixed field is
/// checked and any mismatch is a hard decode error.
#[derive(PartialEq, Eq, Clone, Copy, Debug)]
pub struct Header {
    /// File size
    pub file_size: u32,
}

/// The header encoded by a 16-byte region: the `NARC` chunk name, the
/// byte order mark `0xfffe`, version `0x0100`, the little-endian file
/// size, the chunk header size `0x0010` and the chunk count 3; checked in
/// that order, and the first mismatch is the error.
pub open spec fn header_of(s: Seq<u8>) -> Result<Header, FromBytesError>
    recommends
        s.len() == 16,
{
    let byte_order = spec_u16_from_le_bytes(s.subrange(4, 6));
    let version = spec_u16_from_le_bytes(s.subrange(6, 8));
    let chunk_size = spec_u16_from_le_bytes(s.subrange(12, 14));
    let chunks_len = spec_u16_from_le_bytes(s.subrange(14, 16));
    if s.subrange(0, 4) != narc_magic() {
        Err(FromBytesError::WrongChunkName)
    } else if byte_order != 0xfffe {
        Err(FromBytesError::WrongByteOrder { byte_order })
    } else if version != 0x0100 {
        Err(FromBytesError::UnknownVersion { version })
    } else if chunk_size != 0x0010 {
        Err(FromBytesError::WrongChunkSize { chunk_size })
    } else if chunks_len != 3 {
        Err(FromBytesError::WrongChunksLen { chunks_len })
    } else {
        Ok(Header { file_size: spec_u32_from_le_bytes(s.subrange(8, 12)) })
    }
}

impl Header {
    /// Parses the top header from its 16 bytes.
    pub fn from_bytes(bytes: &[u8]) -> (r: Result<Self, FromBytesError>)
        requires
            bytes@.len() == 16,
        ensures
            r == header_of(bytes@),
    {
        if !magic_matches(bytes, 0x4e, 0x41, 0x52, 0x43) {
            return Err(FromBytesError::WrongChunkName);
        }
        let byte_order = u16_from_le_bytes(slice_subrange(bytes, 4, 6));
        if byte_order != 0xfffe {
            return Err(FromBytesError::WrongByteOrder { byte_order });
        }
        let version = u16_from_le_bytes(slice_subrange(bytes, 6, 8));
        if version != 0x0100 {
            return Err(FromBytesError::UnknownVersion { version });
        }
        let chunk_size = u16_from_le_bytes(slice_subrange(bytes, 12, 14));
        if chunk_size != 0x0010 {
            return Err(FromBytesError::WrongChunkSize { chunk_size });
        }
        let chunks_len = u16_from_le_bytes(slice_subrange(bytes, 14, 16));
        if chunks_len != 3 {
            return Err(FromBytesError::WrongChunksLen { chunks_len });
        }
        Ok(Self { file_size: u32_from_le_bytes(slice_subrange(bytes, 8, 12)) })
    }
}

} // verus!
