//! Tests for the tree resolver and the walk protocol.

use ndsz::dir::visitor::RecordedEvent;
use ndsz::dir::{Dir, DirEntry, DirEntryKind, RecordingVisitor};
use ndsz::extract::{collect_file_ids, hidden_file_ids};
use ndsz::fat::FileAllocationTable;
use ndsz::fnt::main_table::{MainTableEntry, ReadDirError, ReadSubTableError};
use ndsz::fnt::sub_table::entry::FromReaderError as EntryError;
use ndsz::fnt::{self, FileNameTable};
use ndsz::AsciiStr;

/// The two-directory name table region: a root holding directory "A"
/// (id 1), which holds the file "B.txt" (id 0).
fn example_fnt() -> Vec<u8> {
    let mut fnt = vec![
        // main table: root entry, sub table at 0x10, entry count 2
        0x10, 0x00, 0x00, 0x00, 0x00, 0x00, 0x02, 0x00,
        // main table: entry 1, sub table at 0x30, first file id 0, parent root
        0x30, 0x00, 0x00, 0x00, 0x00, 0x00, 0x00, 0xf0,
        // root's sub table at 0x10: dir "A" with id 1, then the terminator
        0x81, b'A', 0x01, 0x00, 0x00,
    ];
    fnt.resize(0x30, 0);
    // entry 1's sub table at 0x30: file "B.txt", then the terminator
    fnt.extend_from_slice(&[0x05, b'B', b'.', b't', b'x', b't', 0x00]);
    fnt
}

#[test]
fn resolves_example_tree() {
    let fnt = FileNameTable::from_reader(&example_fnt()).unwrap();
    assert_eq!(fnt.root.id, 0xf000);
    assert_eq!(fnt.root.entries.len(), 1);
    let entry = &fnt.root.entries[0];
    assert_eq!(entry.name.as_bytes(), b"A");
    match &entry.kind {
        DirEntryKind::Dir { id, dir } => {
            assert_eq!(*id, 1);
            assert_eq!(dir.id, 1);
            assert_eq!(dir.entries.len(), 1);
            assert_eq!(dir.entries[0].name.as_bytes(), b"B.txt");
            assert_eq!(dir.entries[0].kind, DirEntryKind::File { id: 0 });
        },
        kind => panic!("expected a directory entry, got {kind:?}"),
    }
}

#[test]
fn walks_example_tree_in_preorder() {
    let fnt = FileNameTable::from_reader(&example_fnt()).unwrap();
    let mut visitor = RecordingVisitor::new();
    fnt.root.walk(&mut visitor).unwrap();
    assert_eq!(visitor.steps.len(), 2);
    match &visitor.steps[0] {
        RecordedEvent::Dir { name, id } => {
            assert_eq!(name.as_bytes(), b"A");
            assert_eq!(*id, 1);
        },
        step => panic!("expected a directory step, got {step:?}"),
    }
    match &visitor.steps[1] {
        RecordedEvent::File { name, id } => {
            assert_eq!(name.as_bytes(), b"B.txt");
            assert_eq!(*id, 0);
        },
        step => panic!("expected a file step, got {step:?}"),
    }
}

#[test]
fn walking_empty_dir_visits_nothing() {
    let dir = Dir { id: 0xf000, entries: vec![] };
    let mut visitor = RecordingVisitor::new();
    dir.walk(&mut visitor).unwrap();
    assert!(visitor.steps.is_empty());
}

#[test]
fn file_ids_count_up_from_first_file_id() {
    // One directory with first file id 5 and three files.
    let fnt_bytes = [
        0x08, 0x00, 0x00, 0x00, 0x05, 0x00, 0x01, 0x00, // root: sub table at 8, ffid 5
        0x01, b'a', 0x01, b'b', 0x01, b'c', 0x00, // files "a", "b", "c"
    ];
    let fnt = FileNameTable::from_reader(&fnt_bytes).unwrap();
    let ids: Vec<_> = fnt
        .root
        .entries
        .iter()
        .map(|e| match e.kind {
            DirEntryKind::File { id } => id,
            _ => panic!("expected only files"),
        })
        .collect();
    assert_eq!(ids, [5, 6, 7]);
}

#[test]
fn dir_markers_do_not_advance_file_ids() {
    // file "a", dir "d" (child holds "x" from its own counter 9), file "b":
    // the files of the parent get 5 and 6.
    let mut fnt_bytes = vec![
        0x10, 0x00, 0x00, 0x00, 0x05, 0x00, 0x02, 0x00, // root: sub table at 0x10, ffid 5
        0x20, 0x00, 0x00, 0x00, 0x09, 0x00, 0x00, 0xf0, // child: sub table at 0x20, ffid 9
        // root's sub table at 0x10:
        0x01, b'a', 0x81, b'd', 0x02, 0x00, 0x01, b'b', 0x00,
    ];
    fnt_bytes.resize(0x20, 0);
    fnt_bytes.extend_from_slice(&[0x01, b'x', 0x00]);
    let fnt = FileNameTable::from_reader(&fnt_bytes).unwrap();
    assert_eq!(fnt.root.entries[0].kind, DirEntryKind::File { id: 5 });
    assert_eq!(fnt.root.entries[2].kind, DirEntryKind::File { id: 6 });
    match &fnt.root.entries[1].kind {
        DirEntryKind::Dir { id: 2, dir } => {
            assert_eq!(dir.entries[0].kind, DirEntryKind::File { id: 9 });
        },
        kind => panic!("expected dir with id 2, got {kind:?}"),
    }
}

#[test]
fn dir_marker_without_main_entry_fails() {
    // The root's sub table holds a dir marker, but no main table entry has
    // the root as its parent.
    let fnt_bytes = [
        0x10, 0x00, 0x00, 0x00, 0x00, 0x00, 0x02, 0x00, // root: sub table at 0x10
        0x20, 0x00, 0x00, 0x00, 0x00, 0x00, 0x33, 0x00, // entry 1: parent 0x33, not root
        0x81, b'A', 0x01, 0x00, 0x00, // root's sub table: dir "A"
    ];
    let err = FileNameTable::from_reader(&fnt_bytes).unwrap_err();
    assert_eq!(err, fnt::FromReaderError::ReadRootDir(ReadDirError::NoMainEntry));
}

#[test]
fn reserved_tag_in_nested_sub_table_fails_whole_tree() {
    // The child directory's sub table starts with the reserved 0x80 tag;
    // the failure comes back wrapped once per enclosing directory.
    let mut fnt_bytes = vec![
        0x10, 0x00, 0x00, 0x00, 0x00, 0x00, 0x02, 0x00, // root: sub table at 0x10
        0x20, 0x00, 0x00, 0x00, 0x00, 0x00, 0x00, 0xf0, // child: sub table at 0x20
        0x81, b'A', 0x01, 0x00, 0x00, // root's sub table: dir "A", terminator
    ];
    fnt_bytes.resize(0x20, 0);
    fnt_bytes.push(0x80); // the child's sub table: a reserved tag
    let err = FileNameTable::from_reader(&fnt_bytes).unwrap_err();
    let expected = fnt::FromReaderError::ReadRootDir(ReadDirError::ReadSubDir(Box::new(
        ReadDirError::ReadSubTable(ReadSubTableError::ReadSubTable(
            ndsz::fnt::sub_table::FromReaderError::ReadEntry(EntryError::ReservedDirKind),
        )),
    )));
    assert_eq!(err, expected);
}

#[test]
fn sub_table_offset_out_of_bounds_fails() {
    let fnt_bytes = [
        0xff, 0x00, 0x00, 0x00, 0x00, 0x00, 0x01, 0x00, // root: sub table at 0xff, past the end
    ];
    let err = FileNameTable::from_reader(&fnt_bytes).unwrap_err();
    assert_eq!(
        err,
        fnt::FromReaderError::ReadRootDir(ReadDirError::ReadSubTable(
            ReadSubTableError::CreateSlice,
        )),
    );
}

#[test]
fn read_dir_resolves_one_entry() {
    let region = [
        0x00, 0x00, 0x00, 0x00, 0x00, 0x00, 0x00, 0x00, // padding; sub table at 8
        0x01, b'f', 0x00, // file "f", terminator
    ];
    let entry = MainTableEntry { sub_table_offset: 8, first_file_id: 4, parent_id: 0xf000 };
    let dir = entry.read_dir(&region, 0x12, &[]).unwrap();
    assert_eq!(dir.id, 0x12);
    assert_eq!(dir.entries.len(), 1);
    assert_eq!(dir.entries[0].kind, DirEntryKind::File { id: 4 });
}

#[test]
fn collects_file_ids_depth_first() {
    let fnt = FileNameTable::from_reader(&example_fnt()).unwrap();
    assert_eq!(collect_file_ids(&fnt.root), [0]);
}

#[test]
fn hidden_file_ids_are_the_unnamed_ones() {
    // Four allocation table entries; the tree names only id 1.
    let name = AsciiStr::from_bytes(b"a").unwrap();
    let root = Dir {
        id: 0xf000,
        entries: vec![DirEntry { name, kind: DirEntryKind::File { id: 1 } }],
    };
    let fat = FileAllocationTable::from_reader(&[0u8; 32]).unwrap();
    assert_eq!(hidden_file_ids(&fat, &root), [0, 2, 3]);
}

#[test]
fn file_id_counter_wraps_at_the_top() {
    let fnt_bytes = [
        0x08, 0x00, 0x00, 0x00, 0xff, 0xff, 0x01, 0x00, // root: first file id 0xffff
        0x01, b'a', 0x01, b'b', 0x00, // files "a", "b"
    ];
    let fnt = FileNameTable::from_reader(&fnt_bytes).unwrap();
    assert_eq!(fnt.root.entries[0].kind, DirEntryKind::File { id: 0xffff });
    assert_eq!(fnt.root.entries[1].kind, DirEntryKind::File { id: 0 });
}

#[test]
fn cyclic_tables_hit_the_depth_limit() {
    // The lone non-root entry pairs with a marker that re-enters the same
    // sub table: deeper nesting than the table has entries is rejected.
    let fnt_bytes = [
        0x10, 0x00, 0x00, 0x00, 0x00, 0x00, 0x02, 0x00, // root: sub table at 0x10
        0x10, 0x00, 0x00, 0x00, 0x00, 0x00, 0x00, 0xf0, // entry 1: the same sub table
        0x81, b'A', 0x00, 0xf0, 0x00, // dir "A" with the root's own id
    ];
    let err = FileNameTable::from_reader(&fnt_bytes).unwrap_err();
    let expected = fnt::FromReaderError::ReadRootDir(ReadDirError::ReadSubDir(Box::new(
        ReadDirError::ReadSubDir(Box::new(ReadDirError::TooDeep)),
    )));
    assert_eq!(err, expected);
}
