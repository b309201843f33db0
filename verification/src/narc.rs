//! Narc image decoding: the archive container that carries a file
//! allocation table, a file name table and a data blob as three chunks.

pub mod data;
pub mod fat_header;
pub mod fnt_header;
pub mod header;
mod magic;

pub use data::Data;
pub use fat_header::FatHeader;
pub use fnt_header::FntHeader;
pub use header::Header;

use crate::dir::DirModel;
use crate::fat;
use crate::fat::{fat_table_of, FileAllocationTable};
use crate::file_ptr::FilePtr;
use crate::fnt;
use crate::fnt::FileNameTable;
use data::data_of;
use fat_header::fat_header_of;
use fnt_header::fnt_header_of;
use header::header_of;
use vstd::bytes::{spec_u32_from_le_bytes, u32_from_le_bytes};
use vstd::prelude::*;
use vstd::slice::slice_subrange;

verus! {

/// Error for [`Narc::from_reader`]
#[derive(PartialEq, Eq, Debug)]
pub enum FromReaderError {
    /// The top header ran past the end of the image.
    ReadHeader,
    /// The top header could not be parsed.
    ParseHeader(header::FromBytesError),
    /// The announced file size exceeds the image.
    SliceReader,
    /// The fat chunk header ran past the announced file size.
    ReadFatHeader,
    /// Wrong fat chunk header: a wrong chunk name, or a chunk size too
    /// small to hold the header itself.
    WrongFatHeader,
    /// The allocation table could not be read.
    ReadFat(fat::FromReaderError),
    /// The fnt chunk header ran past the announced file size.
    ReadFntHeader,
    /// Wrong fnt chunk header: a wrong chunk name, or a chunk size too
    /// small to hold the header itself.
    WrongFntHeader,
    /// The name table chunk ran past the announced file size.
    SliceFnt,
    /// The name table could not be read.
    ReadFnt(fnt::FromReaderError),
    /// The data chunk could not be read.
    ReadData(data::FromReaderError),
}

/// Error for [`Narc::narcless_from_reader`]
#[derive(PartialEq, Eq, Debug)]
pub enum NarclessFromReaderError {
    /// The name table offset field ran past the end of the image.
    ReadFntOffset,
    /// The name table length field ran past the end of the image.
    ReadFntLen,
    /// The allocation table offset field ran past the end of the image.
    ReadFatOffset,
    /// The allocation table length field ran past the end of the image.
    ReadFatLen,
    /// The name table range exceeds the image.
    FntSlice,
    /// The allocation table range exceeds the image.
    FatSlice,
    /// The name table could not be read.
    ReadFnt(fnt::FromReaderError),
    /// The allocation table could not be read.
    ReadFat(fat::FromReaderError),
    /// The data could not be read.
    ReadData(data::NarclessFromReaderError),
}

/// The mathematical value of a decoded narc image.
pub struct NarcModel {
    /// The allocation table's pointers.
    pub ptrs: Seq<FilePtr>,
    /// The resolved directory tree.
    pub root: DirModel,
    /// The data range.
    pub data: Data,
}

/// Narc image: the allocation table, the name table's directory tree and
/// the data range.
#[derive(PartialEq, Eq, Debug)]
pub struct Narc {
    /// Fat
    pub fat: FileAllocationTable,

    /// Fnt
    pub fnt: FileNameTable,

    /// File data range inside the image.
    pub data: Data,
}

/// The narc encoded by image `s`: the 16-byte top header; then, within the
/// announced file size, the fat chunk at offset 16 (its 12-byte `BTAF`
/// header, then `chunk_size - 12` bytes of allocation table, cut short at
/// the file size), the fnt chunk right after it (its 8-byte `BTNF` header,
/// then `chunk_size - 8` bytes of name table); and the `GMIF` data chunk
/// after that, bounded by the image itself.
pub open spec fn narc_of(s: Seq<u8>) -> Result<NarcModel, FromReaderError> {
    if s.len() < 16 {
        Err(FromReaderError::ReadHeader)
    } else {
        match header_of(s.subrange(0, 16)) {
            Err(e) => Err(FromReaderError::ParseHeader(e)),
            Ok(h) => {
                if h.file_size > s.len() {
                    Err(FromReaderError::SliceReader)
                } else {
                    let lim = s.subrange(0, h.file_size as int);
                    if lim.len() < 28 {
                        Err(FromReaderError::ReadFatHeader)
                    } else {
                        match fat_header_of(lim.subrange(16, 28)) {
                            None => Err(FromReaderError::WrongFatHeader),
                            Some(fh) => {
                                if fh.chunk_size < 12 {
                                    Err(FromReaderError::WrongFatHeader)
                                } else {
                                    let fat_end = if 28 + (fh.chunk_size - 12) > lim.len() {
                                        lim.len() as int
                                    } else {
                                        28 + (fh.chunk_size - 12)
                                    };
                                    match fat_table_of(lim.subrange(28, fat_end)) {
                                        Err(e) => Err(FromReaderError::ReadFat(e)),
                                        Ok(ptrs) => narc_of_fnt(s, lim, fat_end, ptrs),
                                    }
                                }
                            },
                        }
                    }
                }
            },
        }
    }
}

/// The tail of [`narc_of`]: the fnt chunk at `fat_end` of the size-limited
/// image `lim`, and the data chunk after it in the whole image `s`.
pub open spec fn narc_of_fnt(s: Seq<u8>, lim: Seq<u8>, fat_end: int, ptrs: Seq<FilePtr>) -> Result<
    NarcModel,
    FromReaderError,
> {
    if fat_end + 8 > lim.len() {
        Err(FromReaderError::ReadFntHeader)
    } else {
        match fnt_header_of(lim.subrange(fat_end, fat_end + 8)) {
            None => Err(FromReaderError::WrongFntHeader),
            Some(nh) => {
                if nh.chunk_size < 8 {
                    Err(FromReaderError::WrongFntHeader)
                } else {
                    let fnt_start = fat_end + 8;
                    let fnt_len = nh.chunk_size - 8;
                    if fnt_start + fnt_len > lim.len() {
                        Err(FromReaderError::SliceFnt)
                    } else {
                        match fnt::file_name_table_of(
                            lim.subrange(fnt_start, fnt_start + fnt_len),
                        ) {
                            Err(e) => Err(FromReaderError::ReadFnt(e)),
                            Ok(root) => match data_of(s, fnt_start + fnt_len) {
                                Err(e) => Err(FromReaderError::ReadData(e)),
                                Ok(d) => Ok(NarcModel { ptrs, root, data: d }),
                            },
                        }
                    }
                }
            },
        }
    }
}

/// The narc encoded by a narcless image `s`: a 16-byte header of four
/// little-endian fields — name table offset and length, then allocation
/// table offset and length — each table decoded from its range, and the
/// data being everything after the allocation table's range.
pub open spec fn narcless_of(s: Seq<u8>) -> Result<NarcModel, NarclessFromReaderError> {
    if s.len() < 4 {
        Err(NarclessFromReaderError::ReadFntOffset)
    } else if s.len() < 8 {
        Err(NarclessFromReaderError::ReadFntLen)
    } else if s.len() < 12 {
        Err(NarclessFromReaderError::ReadFatOffset)
    } else if s.len() < 16 {
        Err(NarclessFromReaderError::ReadFatLen)
    } else {
        let fnt_offset = spec_u32_from_le_bytes(s.subrange(0, 4));
        let fnt_len = spec_u32_from_le_bytes(s.subrange(4, 8));
        let fat_offset = spec_u32_from_le_bytes(s.subrange(8, 12));
        let fat_len = spec_u32_from_le_bytes(s.subrange(12, 16));
        if fnt_offset + fnt_len > s.len() {
            Err(NarclessFromReaderError::FntSlice)
        } else {
            match fnt::file_name_table_of(s.subrange(fnt_offset as int, fnt_offset + fnt_len)) {
                Err(e) => Err(NarclessFromReaderError::ReadFnt(e)),
                Ok(root) => {
                    if fat_offset + fat_len > s.len() {
                        Err(NarclessFromReaderError::FatSlice)
                    } else {
                        match fat_table_of(s.subrange(fat_offset as int, fat_offset + fat_len)) {
                            Err(e) => Err(NarclessFromReaderError::ReadFat(e)),
                            Ok(ptrs) => Ok(
                                NarcModel {
                                    ptrs,
                                    root,
                                    data: Data {
                                        offset: (fat_offset + fat_len) as usize,
                                        len: (s.len() - fat_offset - fat_len) as usize,
                                    },
                                },
                            ),
                        }
                    }
                },
            }
        }
    }
}

impl Narc {
    /// Reads a narc from the bytes of an image, as [`narc_of`] gives it.
    pub fn from_reader(bytes: &[u8]) -> (r: Result<Self, FromReaderError>)
        ensures
            match r {
                Ok(n) => narc_of(bytes@) == Ok::<_, FromReaderError>(
                    NarcModel { ptrs: n.fat.ptrs@, root: n.fnt.root@, data: n.data },
                ),
                Err(e) => narc_of(bytes@) == Err::<NarcModel, _>(e),
            },
    {
        if bytes.len() < 16 {
            return Err(FromReaderError::ReadHeader);
        }
        let header = match Header::from_bytes(slice_subrange(bytes, 0, 16)) {
            Ok(h) => h,
            Err(e) => return Err(FromReaderError::ParseHeader(e)),
        };

        // Limit the reads to the announced file size.
        // Note: Technically not required, but will catch faulty narcs.
        if header.file_size as usize > bytes.len() {
            return Err(FromReaderError::SliceReader);
        }
        let lim = slice_subrange(bytes, 0, header.file_size as usize);

        // Read the fat
        if lim.len() < 28 {
            return Err(FromReaderError::ReadFatHeader);
        }
        let fat_header = match FatHeader::from_bytes(slice_subrange(lim, 16, 28)) {
            Some(h) => h,
            None => return Err(FromReaderError::WrongFatHeader),
        };
        if fat_header.chunk_size < 12 {
            return Err(FromReaderError::WrongFatHeader);
        }
        let fat_len = (fat_header.chunk_size - 12) as usize;
        let fat_end = if lim.len() - 28 < fat_len {
            lim.len()
        } else {
            28 + fat_len
        };
        let fat = match FileAllocationTable::from_reader(slice_subrange(lim, 28, fat_end)) {
            Ok(fat) => fat,
            Err(e) => return Err(FromReaderError::ReadFat(e)),
        };

        // Then the fnt
        if lim.len() - fat_end < 8 {
            return Err(FromReaderError::ReadFntHeader);
        }
        let fnt_header = match FntHeader::from_bytes(slice_subrange(lim, fat_end, fat_end + 8)) {
            Some(h) => h,
            None => return Err(FromReaderError::WrongFntHeader),
        };
        if fnt_header.chunk_size < 8 {
            return Err(FromReaderError::WrongFntHeader);
        }
        let fnt_start = fat_end + 8;
        let fnt_len = (fnt_header.chunk_size - 8) as usize;
        if lim.len() - fnt_start < fnt_len {
            return Err(FromReaderError::SliceFnt);
        }
        let fnt = match FileNameTable::from_reader(
            slice_subrange(lim, fnt_start, fnt_start + fnt_len),
        ) {
            Ok(fnt) => fnt,
            Err(e) => return Err(FromReaderError::ReadFnt(e)),
        };

        // And the data
        let data = match Data::from_reader(bytes, fnt_start + fnt_len) {
            Ok(d) => d,
            Err(e) => return Err(FromReaderError::ReadData(e)),
        };

        Ok(Self { fat, fnt, data })
    }

    /// Reads a narc from the bytes of a narcless image, as
    /// [`narcless_of`] gives it.
    pub fn narcless_from_reader(bytes: &[u8]) -> (r: Result<Self, NarclessFromReaderError>)
        ensures
            match r {
                Ok(n) => narcless_of(bytes@) == Ok::<_, NarclessFromReaderError>(
                    NarcModel { ptrs: n.fat.ptrs@, root: n.fnt.root@, data: n.data },
                ),
                Err(e) => narcless_of(bytes@) == Err::<NarcModel, _>(e),
            },
    {
        // Read the header
        if bytes.len() < 4 {
            return Err(NarclessFromReaderError::ReadFntOffset);
        }
        if bytes.len() < 8 {
            return Err(NarclessFromReaderError::ReadFntLen);
        }
        if bytes.len() < 12 {
            return Err(NarclessFromReaderError::ReadFatOffset);
        }
        if bytes.len() < 16 {
            return Err(NarclessFromReaderError::ReadFatLen);
        }
        let fnt_offset = u32_from_le_bytes(slice_subrange(bytes, 0, 4)) as usize;
        let fnt_len = u32_from_le_bytes(slice_subrange(bytes, 4, 8)) as usize;
        let fat_offset = u32_from_le_bytes(slice_subrange(bytes, 8, 12)) as usize;
        let fat_len = u32_from_le_bytes(slice_subrange(bytes, 12, 16)) as usize;

        // Read the fnt
        if fnt_len > bytes.len() || fnt_offset > bytes.len() - fnt_len {
            return Err(NarclessFromReaderError::FntSlice);
        }
        let fnt = match FileNameTable::from_reader(
            slice_subrange(bytes, fnt_offset, fnt_offset + fnt_len),
        ) {
            Ok(fnt) => fnt,
            Err(e) => return Err(NarclessFromReaderError::ReadFnt(e)),
        };

        // Then the fat
        if fat_len > bytes.len() || fat_offset > bytes.len() - fat_len {
            return Err(NarclessFromReaderError::FatSlice);
        }
        let fat = match FileAllocationTable::from_reader(
            slice_subrange(bytes, fat_offset, fat_offset + fat_len),
        ) {
            Ok(fat) => fat,
            Err(e) => return Err(NarclessFromReaderError::ReadFat(e)),
        };

        // And the data
        let data = match Data::narcless_from_reader(bytes, fat_offset + fat_len) {
            Ok(d) => d,
            Err(e) => return Err(NarclessFromReaderError::ReadData(e)),
        };

        Ok(Self { fat, fnt, data })
    }
}

} // verus!
