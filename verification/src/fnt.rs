//! File name table

pub mod main_table;
pub mod sub_table;

pub use main_table::{MainTable, MainTableEntry};
pub use sub_table::{SubTable, SubTableEntry, SubTableEntryKind};

use crate::dir::{Dir, DirModel, ROOT_DIR_ID};
use main_table::{main_table_of, resolve_dir_full};
use vstd::prelude::*;

verus! {

/// Error for [`FileNameTable::from_reader`]
#[derive(PartialEq, Eq, Debug)]
pub enum FromReaderError {
    /// The main table could not be read.
    ReadMainTable(main_table::FromReaderError),
    /// The root directory could not be read.
    ReadRootDir(main_table::ReadDirError),
}

/// The directory tree encoded in name table region `s`: the main table is
/// decoded at the region's start, and its root entry is resolved under the
/// fixed root directory id.
pub open spec fn file_name_table_of(s: Seq<u8>) -> Result<DirModel, FromReaderError> {
    match main_table_of(s) {
        Err(e) => Err(FromReaderError::ReadMainTable(e)),
        Ok((root_entry, entries)) => match resolve_dir_full(s, root_entry, ROOT_DIR_ID, entries) {
            Ok(d) => Ok(d),
            Err(e) => Err(FromReaderError::ReadRootDir(e)),
        },
    }
}

/// File name table: the resolved directory tree.
#[derive(PartialEq, Eq, Debug)]
pub struct FileNameTable {
    /// Root directory
    pub root: Dir,
}

impl FileNameTable {
    /// Decodes the file name table from the bytes of its region, as
    /// [`file_name_table_of`] gives it.
    pub fn from_reader(bytes: &[u8]) -> (r: Result<Self, FromReaderError>)
        ensures
            match r {
                Ok(fnt) => file_name_table_of(bytes@) == Ok::<_, FromReaderError>(fnt.root@),
                Err(e) => file_name_table_of(bytes@) == Err::<DirModel, _>(e),
            },
    {
        let main_table = match MainTable::from_reader(bytes) {
            Ok(mt) => mt,
            Err(e) => return Err(FromReaderError::ReadMainTable(e)),
        };

        let root = match main_table.root_entry.read_dir(
            bytes,
            ROOT_DIR_ID,
            main_table.entries.as_slice(),
        ) {
            Ok(d) => d,
            Err(e) => return Err(FromReaderError::ReadRootDir(e)),
        };

        Ok(Self { root })
    }
}

} // verus!
