//! Data

use crate::narc::magic::magic_matches;
use vstd::bytes::{spec_u32_from_le_bytes, u32_from_le_bytes};
use vstd::prelude::*;
use vstd::slice::slice_subrange;

verus! {

/// The bytes of the `GMIF` chunk name.
pub open spec fn data_magic() -> Seq<u8> {
    seq![0x47u8, 0x4du8, 0x49u8, 0x46u8]
}

/// Error for [`Data::from_reader`]
#[derive(PartialEq, Eq, Clone, Copy, Debug)]
pub enum FromReaderError {
    /// The data chunk header ran past the end of the image.
    ReadHeader,
    /// Wrong data chunk header: a wrong chunk name, or a chunk size too
    /// small to hold the header itself.
    WrongHeader,
    /// The data ran past the end of the image.
    SliceReader,
}

/// Error for [`Data::narcless_from_reader`]
#[derive(PartialEq, Eq, Clone, Copy, Debug)]
pub enum NarclessFromReaderError {
    /// The data start position lies past the end of the image.
    SliceReader,
}

/// Narc data: the byte range that holds the file data inside the image.
/// The allocation table's pointers are relative to this range's start.
#[derive(PartialEq, Eq, Clone, Copy, Debug)]
pub struct Data {
    /// Offset of the data inside the image.
    pub offset: usize,

    /// Length of the data in bytes.
    pub len: usize,
}

/// Narc data chunk header
#[derive(PartialEq, Eq, Clone, Copy, Debug)]
pub struct Header {
    /// Chunk size, the header itself included.
    pub chunk_size: u32,
}

/// The header encoded by an 8-byte region: the `GMIF` chunk name, then the
/// little-endian chunk size; a wrong chunk name yields nothing.
pub open spec fn data_header_of(s: Seq<u8>) -> Option<Header>
    recommends
        s.len() == 8,
{
    if s.subrange(0, 4) != data_magic() {
        None
    } else {
        Some(Header { chunk_size: spec_u32_from_le_bytes(s.subrange(4, 8)) })
    }
}

/// The data range encoded in image `s` at position `pos`: the 8-byte
/// `GMIF` chunk header, then `chunk_size - 8` bytes of file data.
pub open spec fn data_of(s: Seq<u8>, pos: int) -> Result<Data, FromReaderError>
    recommends
        0 <= pos,
{
    if pos + 8 > s.len() {
        Err(FromReaderError::ReadHeader)
    } else {
        match data_header_of(s.subrange(pos, pos + 8)) {
            None => Err(FromReaderError::WrongHeader),
            Some(h) => if h.chunk_size < 8 {
                Err(FromReaderError::WrongHeader)
            } else {
                let data_len = h.chunk_size - 8;
                if pos + 8 + data_len > s.len() {
                    Err(FromReaderError::SliceReader)
                } else {
                    Ok(Data { offset: (pos + 8) as usize, len: data_len as usize })
                }
            },
        }
    }
}

impl Header {
    /// Parses a data chunk header from its 8 bytes.
    pub fn from_bytes(bytes: &[u8]) -> (r: Option<Self>)
        requires
            bytes@.len() == 8,
        ensures
            r == data_header_of(bytes@),
    {
        if !magic_matches(bytes, 0x47, 0x4d, 0x49, 0x46) {
            return None;
        }
        Some(Self { chunk_size: u32_from_le_bytes(slice_subrange(bytes, 4, 8)) })
    }
}

impl Data {
    /// Reads the narc data range at position `pos` of the image, as
    /// [`data_of`] gives it.
    pub fn from_reader(bytes: &[u8], pos: usize) -> (r: Result<Self, FromReaderError>)
        ensures
            r == data_of(bytes@, pos as int),
    {
        if pos > bytes.len() || bytes.len() - pos < 8 {
            return Err(FromReaderError::ReadHeader);
        }
        let header = match Header::from_bytes(slice_subrange(bytes, pos, pos + 8)) {
            Some(h) => h,
            None => return Err(FromReaderError::WrongHeader),
        };
        if header.chunk_size < 8 {
            return Err(FromReaderError::WrongHeader);
        }
        let data_len = (header.chunk_size - 8) as usize;
        if bytes.len() - (pos + 8) < data_len {
            return Err(FromReaderError::SliceReader);
        }
        Ok(Self { offset: pos + 8, len: data_len })
    }

    /// Reads the data range of a narcless image: everything from `pos` to
    /// the image's end.
    pub fn narcless_from_reader(bytes: &[u8], pos: usize) -> (r: Result<
        Self,
        NarclessFromReaderError,
    >)
        ensures
            match r {
                Ok(d) => pos <= bytes@.len() && d == (Data {
                    offset: pos,
                    len: (bytes@.len() - pos) as usize,
                }),
                Err(e) => pos > bytes@.len() && e == NarclessFromReaderError::SliceReader,
            },
    {
        if pos > bytes.len() {
            return Err(NarclessFromReaderError::SliceReader);
        }
        Ok(Self { offset: pos, len: bytes.len() - pos })
    }
}

} // verus!
