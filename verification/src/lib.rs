//! Decoder for the pseudo-filesystem metadata of cartridge ROM images and
//! their nested archives: the file allocation table (a flat table of byte
//! ranges) and the file name table (a main table and per-directory sub
//! tables that together encode a directory tree).

pub mod ascii;
pub mod dir;
pub mod extract;
pub mod fat;
pub mod file_ptr;
pub mod fnt;
pub mod generic_header;
pub mod narc;
pub mod nds;

pub use ascii::AsciiStr;
pub use dir::{Dir, DirEntry, DirEntryKind};
pub use fat::FileAllocationTable;
pub use file_ptr::FilePtr;
pub use fnt::FileNameTable;
