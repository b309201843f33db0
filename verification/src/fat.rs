//! File allocation table

use crate::file_ptr::{file_ptr_of, FilePtr};
use vstd::prelude::*;
use vstd::slice::slice_subrange;

verus! {

/// Error for [`FileAllocationTable::from_reader`]
#[derive(PartialEq, Eq, Clone, Copy, Debug)]
pub enum FromReaderError {
    /// A partial record (1 to 7 bytes) was left at the end of the region.
    ReadFile,
}

/// The table encoded by region `s`: its consecutive 8-byte records, in
/// order, when the region's length is a multiple of 8; a trailing partial
/// record is a truncation error.
pub open spec fn fat_table_of(s: Seq<u8>) -> Result<Seq<FilePtr>, FromReaderError> {
    if s.len() % 8 == 0 {
        Ok(Seq::new((s.len() / 8) as nat, |i: int| file_ptr_of(s.subrange(8 * i, 8 * i + 8))))
    } else {
        Err(FromReaderError::ReadFile)
    }
}

/// File allocation table: all pointers, implicitly indexed by file id.
#[derive(PartialEq, Eq, Clone, Debug)]
pub struct FileAllocationTable {
    /// All pointers, in record order.
    pub ptrs: Vec<FilePtr>,
}

impl FileAllocationTable {
    /// Decodes a file allocation table from the bytes of its region:
    /// consecutive 8-byte records until the region is exhausted.
    ///
    /// Succeeds exactly when the region's length is a multiple of 8, and the
    /// `i`-th record becomes the pointer for file id `i`; a trailing partial
    /// record is a truncation error.
    pub fn from_reader(bytes: &[u8]) -> (r: Result<Self, FromReaderError>)
        ensures
            match r {
                Ok(fat) => {
                    &&& bytes@.len() % 8 == 0
                    &&& fat.ptrs@.len() == bytes@.len() / 8
                    &&& forall|i: int|
                        0 <= i < fat.ptrs@.len() ==> fat.ptrs@[i] == file_ptr_of(
                            bytes@.subrange(8 * i, 8 * i + 8),
                        )
                },
                Err(e) => bytes@.len() % 8 != 0 && e == FromReaderError::ReadFile,
            },
            fat_table_of(bytes@) == (match r {
                Ok(fat) => Ok::<_, FromReaderError>(fat.ptrs@),
                Err(e) => Err(e),
            }),
    {
        let mut ptrs: Vec<FilePtr> = Vec::new();
        let mut pos: usize = 0;
        while bytes.len() - pos >= 8
            invariant
                pos <= bytes@.len(),
                pos == 8 * ptrs@.len(),
                forall|i: int|
                    0 <= i < ptrs@.len() ==> ptrs@[i] == file_ptr_of(
                        bytes@.subrange(8 * i, 8 * i + 8),
                    ),
            decreases bytes@.len() - pos,
        {
            let ptr = FilePtr::from_bytes(slice_subrange(bytes, pos, pos + 8));
            ptrs.push(ptr);
            pos = pos + 8;
        }
        if pos == bytes.len() {
            proof {
                assert(ptrs@ =~= Seq::new(
                    (bytes@.len() / 8) as nat,
                    |i: int| file_ptr_of(bytes@.subrange(8 * i, 8 * i + 8)),
                ));
            }
            Ok(Self { ptrs })
        } else {
            Err(FromReaderError::ReadFile)
        }
    }
}

} // verus!
