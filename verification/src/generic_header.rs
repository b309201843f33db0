//! Generic header shared by most of the cartridge's file formats: a
//! four-byte magic, a fixed constant, the section size and the number of
//! sub-sections.

use vstd::bytes::{spec_u16_from_le_bytes, spec_u32_from_le_bytes, u16_from_le_bytes, u32_from_le_bytes};
use vstd::prelude::*;
use vstd::slice::slice_subrange;

verus! {

/// Error for [`Header::from_bytes`]
#[derive(PartialEq, Eq, Clone, Copy, Debug)]
pub enum FromBytesError {
    /// Wrong constant, expected `0xfffe0001`.
    WrongConstant { constant: u32 },
    /// Wrong header size, expected `0x10`.
    WrongHeaderSize { header_size: u16 },
}

/// Generic header
#[derive(PartialEq, Eq, Clone, Copy, Debug)]
pub struct Header {
    /// Magic
    pub magic: [u8; 4],

    /// Section size
    pub section_size: u32,

    /// Number of sub-sections
    pub sub_sections_len: u16,
}

impl Header {
    /// Parses a generic header from its 16 bytes: the magic is taken as it
    /// stands, the constant and the header size are checked in that order,
    /// and the section size and sub-section count are read out.
    pub fn from_bytes(bytes: &[u8]) -> (r: Result<Self, FromBytesError>)
        requires
            bytes@.len() == 16,
        ensures
            match r {
                Ok(h) => {
                    &&& spec_u32_from_le_bytes(bytes@.subrange(4, 8)) == 0xfffe0001
                    &&& spec_u16_from_le_bytes(bytes@.subrange(12, 14)) == 0x10
                    &&& h.magic@ == bytes@.subrange(0, 4)
                    &&& h.section_size == spec_u32_from_le_bytes(bytes@.subrange(8, 12))
                    &&& h.sub_sections_len == spec_u16_from_le_bytes(bytes@.subrange(14, 16))
                },
                Err(FromBytesError::WrongConstant { constant }) => constant
                    == spec_u32_from_le_bytes(bytes@.subrange(4, 8)) && constant != 0xfffe0001,
                Err(FromBytesError::WrongHeaderSize { header_size }) => spec_u32_from_le_bytes(
                    bytes@.subrange(4, 8),
                ) == 0xfffe0001 && header_size == spec_u16_from_le_bytes(
                    bytes@.subrange(12, 14),
                ) && header_size != 0x10,
            },
    {
        let constant = u32_from_le_bytes(slice_subrange(bytes, 4, 8));
        if constant != 0xfffe0001 {
            return Err(FromBytesError::WrongConstant { constant });
        }
        let header_size = u16_from_le_bytes(slice_subrange(bytes, 12, 14));
        if header_size != 0x10 {
            return Err(FromBytesError::WrongHeaderSize { header_size });
        }

        let magic = [bytes[0], bytes[1], bytes[2], bytes[3]];
        proof {
            assert(magic@ =~= bytes@.subrange(0, 4));
        }
        Ok(
            Self {
                magic,
                section_size: u32_from_le_bytes(slice_subrange(bytes, 8, 12)),
                sub_sections_len: u16_from_le_bytes(slice_subrange(bytes, 14, 16)),
            },
        )
    }
}

} // verus!
