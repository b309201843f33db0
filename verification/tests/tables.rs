//! Tests for the allocation table, the sub table and the main table.

use ndsz::fat::{self, FileAllocationTable};
use ndsz::file_ptr::FilePtr;
use ndsz::fnt::main_table::{MainTable, MainTableEntry};
use ndsz::fnt::sub_table::entry::{FromReaderError, SubTableEntry, SubTableEntryKind};
use ndsz::fnt::sub_table::SubTable;

#[test]
fn file_ptr_from_bytes() {
    let ptr = FilePtr::from_bytes(&[0x01, 0x02, 0x03, 0x04, 0xff, 0x00, 0x00, 0x00]);
    assert_eq!(ptr.start_address, 0x04030201);
    assert_eq!(ptr.end_address, 0xff);
}

#[test]
fn fat_decodes_each_record_in_order() {
    let bytes = [
        0x10, 0x00, 0x00, 0x00, 0x20, 0x00, 0x00, 0x00, // file 0
        0x20, 0x00, 0x00, 0x00, 0x2c, 0x00, 0x00, 0x00, // file 1
    ];
    let fat = FileAllocationTable::from_reader(&bytes).unwrap();
    assert_eq!(fat.ptrs.len(), 2);
    assert_eq!(fat.ptrs[0], FilePtr { start_address: 0x10, end_address: 0x20 });
    assert_eq!(fat.ptrs[1], FilePtr { start_address: 0x20, end_address: 0x2c });
}

#[test]
fn fat_of_empty_region_is_empty() {
    let fat = FileAllocationTable::from_reader(&[]).unwrap();
    assert!(fat.ptrs.is_empty());
}

#[test]
fn fat_rejects_partial_record() {
    for extra in 1usize..8 {
        let mut bytes = vec![0u8; 16];
        bytes.extend(std::iter::repeat(0xab).take(extra));
        let err = FileAllocationTable::from_reader(&bytes).unwrap_err();
        assert_eq!(err, fat::FromReaderError::ReadFile);
    }
}

#[test]
fn fat_accepts_reversed_range() {
    // No semantic validation: a reversed range decodes fine.
    let bytes = [0x20, 0x00, 0x00, 0x00, 0x10, 0x00, 0x00, 0x00];
    let fat = FileAllocationTable::from_reader(&bytes).unwrap();
    assert_eq!(fat.ptrs[0], FilePtr { start_address: 0x20, end_address: 0x10 });
}

#[test]
fn sub_table_entry_file() {
    let bytes = [0x03, b'a', b'b', b'c', 0x00];
    let mut pos: usize = 0;
    let entry = SubTableEntry::from_reader(&bytes, &mut pos).unwrap().unwrap();
    assert_eq!(entry.name.as_bytes(), b"abc");
    assert_eq!(entry.kind, SubTableEntryKind::File);
    assert_eq!(pos, 4);
}

#[test]
fn sub_table_entry_dir() {
    let bytes = [0x82, b'h', b'i', 0x34, 0x12];
    let mut pos: usize = 0;
    let entry = SubTableEntry::from_reader(&bytes, &mut pos).unwrap().unwrap();
    assert_eq!(entry.name.as_bytes(), b"hi");
    assert_eq!(entry.kind, SubTableEntryKind::Dir { id: 0x1234 });
    assert_eq!(pos, 5);
}

#[test]
fn sub_table_entry_terminator() {
    let bytes = [0x00, 0xff];
    let mut pos: usize = 0;
    assert_eq!(SubTableEntry::from_reader(&bytes, &mut pos).unwrap(), None);
    assert_eq!(pos, 1);
}

#[test]
fn sub_table_entry_reserved_tag() {
    let mut pos: usize = 0;
    let err = SubTableEntry::from_reader(&[0x80], &mut pos).unwrap_err();
    assert_eq!(err, FromReaderError::ReservedDirKind);
    assert_eq!(pos, 0);
}

#[test]
fn sub_table_entry_empty_region() {
    let mut pos: usize = 0;
    let err = SubTableEntry::from_reader(&[], &mut pos).unwrap_err();
    assert_eq!(err, FromReaderError::ReadTypeLen);
}

#[test]
fn sub_table_entry_name_truncated() {
    let mut pos: usize = 0;
    let err = SubTableEntry::from_reader(&[0x05, b'a', b'b'], &mut pos).unwrap_err();
    assert_eq!(err, FromReaderError::ReadName);
}

#[test]
fn sub_table_entry_name_not_ascii() {
    let mut pos: usize = 0;
    let err = SubTableEntry::from_reader(&[0x02, 0xc3, 0xa9], &mut pos).unwrap_err();
    assert!(matches!(err, FromReaderError::ParseName(_)));
}

#[test]
fn sub_table_entry_dir_id_truncated() {
    let mut pos: usize = 0;
    let err = SubTableEntry::from_reader(&[0x81, b'a', 0x01], &mut pos).unwrap_err();
    assert_eq!(err, FromReaderError::ReadDirId);
}

#[test]
fn sub_table_stops_at_terminator_despite_trailing_bytes() {
    // A 0x00 tag ends the table at once; the trailing bytes would all be
    // decode errors if they were ever looked at.
    let bytes = [0x00, 0x80, 0xff, 0x05];
    let st = SubTable::from_reader(&bytes).unwrap();
    assert!(st.entries.is_empty());
}

#[test]
fn sub_table_reads_entries_until_terminator() {
    let bytes = [
        0x01, b'a', // file "a"
        0x81, b'd', 0x07, 0x00, // dir "d", id 7
        0x00, // terminator
        0x80, // trailing garbage, never reached
    ];
    let st = SubTable::from_reader(&bytes).unwrap();
    assert_eq!(st.entries.len(), 2);
    assert_eq!(st.entries[0].name.as_bytes(), b"a");
    assert_eq!(st.entries[0].kind, SubTableEntryKind::File);
    assert_eq!(st.entries[1].name.as_bytes(), b"d");
    assert_eq!(st.entries[1].kind, SubTableEntryKind::Dir { id: 7 });
}

#[test]
fn sub_table_reserved_tag_fails_table() {
    let bytes = [0x01, b'a', 0x80, 0x00];
    let err = SubTable::from_reader(&bytes).unwrap_err();
    let ndsz::fnt::sub_table::FromReaderError::ReadEntry(inner) = err;
    assert_eq!(inner, FromReaderError::ReservedDirKind);
}

#[test]
fn main_table_entry_from_bytes() {
    let entry = MainTableEntry::from_bytes(&[0x40, 0x00, 0x00, 0x00, 0x03, 0x00, 0x00, 0xf0]);
    assert_eq!(entry.sub_table_offset, 0x40);
    assert_eq!(entry.first_file_id, 3);
    assert_eq!(entry.parent_id, 0xf000);
}

#[test]
fn main_table_reads_announced_entries() {
    let bytes = [
        0x10, 0x00, 0x00, 0x00, 0x00, 0x00, 0x02, 0x00, // root: offset 0x10, count 2
        0x20, 0x00, 0x00, 0x00, 0x01, 0x00, 0x00, 0xf0, // entry 1
        0xaa, 0xbb, // trailing bytes are fine: sub tables live there
    ];
    let mt = MainTable::from_reader(&bytes).unwrap();
    assert_eq!(mt.root_entry.sub_table_offset, 0x10);
    assert_eq!(mt.root_entry.parent_id, 2);
    assert_eq!(mt.entries.len(), 1);
    assert_eq!(
        mt.entries[0],
        MainTableEntry { sub_table_offset: 0x20, first_file_id: 1, parent_id: 0xf000 },
    );
}

#[test]
fn main_table_short_root() {
    let err = MainTable::from_reader(&[0x01, 0x02, 0x03]).unwrap_err();
    assert_eq!(err, ndsz::fnt::main_table::FromReaderError::ReadRootEntry);
}

#[test]
fn main_table_zero_count() {
    // The root announces no entries at all, not even itself.
    let bytes = [0x10, 0x00, 0x00, 0x00, 0x00, 0x00, 0x00, 0x00];
    let err = MainTable::from_reader(&bytes).unwrap_err();
    assert_eq!(err, ndsz::fnt::main_table::FromReaderError::ReadEntry);
}

#[test]
fn main_table_truncated_entry() {
    // The root announces 2 entries but only half of the second is there.
    let bytes = [
        0x10, 0x00, 0x00, 0x00, 0x00, 0x00, 0x02, 0x00, //
        0x20, 0x00, 0x00, 0x00, //
    ];
    let err = MainTable::from_reader(&bytes).unwrap_err();
    assert_eq!(err, ndsz::fnt::main_table::FromReaderError::ReadEntry);
}
