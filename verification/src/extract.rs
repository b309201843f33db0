//! Extraction support: what extracting an image needs computed from the
//! decoded tables, kept apart from the reading and writing of files.

use crate::dir::{
    dir_entry_model, dir_entry_models, dir_model, lemma_dir_entry_models, Dir, DirEntryKind, DirEntryModel,
    DirEntryKindModel, DirModel,
};
use crate::fat::FileAllocationTable;
use crate::nds::header::Header;
use vstd::prelude::*;

verus! {

/// The file ids named in a directory's tree, depth-first, pre-order.
pub open spec fn dir_file_ids(d: DirModel) -> Seq<u16>
    decreases d,
{
    entries_file_ids(d.entries)
}

/// The file ids named by a sequence of directory entries, in order.
pub open spec fn entries_file_ids(s: Seq<DirEntryModel>) -> Seq<u16>
    decreases s,
{
    if s.len() == 0 {
        Seq::empty()
    } else {
        entries_file_ids(s.drop_last()) + entry_file_ids(s.last())
    }
}

/// The file ids named by one directory entry: a file names its own id, a
/// directory names its subtree's ids.
pub open spec fn entry_file_ids(e: DirEntryModel) -> Seq<u16>
    decreases e,
{
    match e.kind {
        DirEntryKindModel::File { id } => seq![id],
        DirEntryKindModel::Dir { dir, .. } => dir_file_ids(dir),
    }
}

/// Appends the file ids of the directory's tree to `ids`, in walk order.
fn collect_file_ids_into(dir: &Dir, ids: &mut Vec<u16>)
    ensures
        final(ids)@ == old(ids)@ + dir_file_ids(dir_model(*dir)),
    decreases *dir,
{
    let mut i: usize = 0;
    proof {
        assert(ids@ + entries_file_ids(dir_entry_models(dir.entries@.subrange(0, 0))) =~= ids@);
    }
    #[verifier::loop_isolation(false)]
    while i < dir.entries.len()
        invariant
            i <= dir.entries@.len(),
            ids@ == old(ids)@ + entries_file_ids(
                dir_entry_models(dir.entries@.subrange(0, i as int)),
            ),
        decreases dir.entries@.len() - i,
    {
        let entry = &dir.entries[i];
        let ghost prev = ids@;
        match &entry.kind {
            DirEntryKind::File { id } => {
                ids.push(*id);
                proof {
                    assert(ids@ =~= prev + seq![*id]);
                }
            },
            DirEntryKind::Dir { dir: sub_dir, .. } => {
                proof {
                    assert(decreases_to!(*dir => *sub_dir));
                }
                collect_file_ids_into(sub_dir, ids);
            },
        }
        proof {
            let s0 = dir.entries@.subrange(0, i as int);
            let s1 = dir.entries@.subrange(0, i + 1);
            assert(s1.drop_last() =~= s0);
            assert(s1.last() == dir.entries@[i as int]);
            assert(entries_file_ids(dir_entry_models(s1)) == entries_file_ids(
                dir_entry_models(s1).drop_last(),
            ) + entry_file_ids(dir_entry_models(s1).last())) by {
                lemma_dir_entry_models(s1);
            }
            assert(dir_entry_models(s1).drop_last() =~= dir_entry_models(s0));
            assert(dir_entry_models(s1).last() == dir_entry_model(dir.entries@[i as int])) by {
                lemma_dir_entry_models(s1);
            }
            assert(ids@ =~= old(ids)@ + entries_file_ids(dir_entry_models(s1)));
        }
        i = i + 1;
    }
    proof {
        assert(dir.entries@.subrange(0, dir.entries@.len() as int) =~= dir.entries@);
    }
}

/// All file ids named in the directory's tree, in walk order.
pub fn collect_file_ids(dir: &Dir) -> (r: Vec<u16>)
    ensures
        r@ == dir_file_ids(dir_model(*dir)),
{
    let mut ids: Vec<u16> = Vec::new();
    collect_file_ids_into(dir, &mut ids);
    proof {
        assert(Seq::<u16>::empty() + dir_file_ids(dir_model(*dir)) =~= dir_file_ids(
            dir_model(*dir),
        ));
    }
    ids
}

/// Whether `ids` holds `id`.
fn contains_id(ids: &[u16], id: u16) -> (r: bool)
    ensures
        r == ids@.contains(id),
{
    let mut i: usize = 0;
    while i < ids.len()
        invariant
            i <= ids@.len(),
            forall|j: int| 0 <= j < i ==> ids@[j] != id,
        decreases ids@.len() - i,
    {
        if ids[i] == id {
            return true;
        }
        i = i + 1;
    }
    false
}

/// The hidden file ids of an image: the allocation table's ids, from 0 up
/// to the table's length, that the name table's tree never names; in
/// increasing order, each at most once.
pub fn hidden_file_ids(fat: &FileAllocationTable, root: &Dir) -> (r: Vec<u16>)
    requires
        fat.ptrs@.len() <= 0x10000,
    ensures
        forall|j: int|
            0 <= j < r@.len() ==> (r@[j] as int) < fat.ptrs@.len() && !dir_file_ids(
                dir_model(*root),
            ).contains(r@[j]),
        forall|id: u16|
            (id as int) < fat.ptrs@.len() && !dir_file_ids(dir_model(*root)).contains(id)
                ==> r@.contains(id),
        forall|j: int, k: int| 0 <= j < k < r@.len() ==> r@[j] < r@[k],
{
    let visited = collect_file_ids(root);
    let mut r: Vec<u16> = Vec::new();
    let mut idx: usize = 0;
    #[verifier::loop_isolation(false)]
    while idx < fat.ptrs.len()
        invariant
            idx <= fat.ptrs@.len(),
            forall|j: int|
                0 <= j < r@.len() ==> (r@[j] as int) < idx && !dir_file_ids(
                    dir_model(*root),
                ).contains(r@[j]),
            forall|id: u16|
                (id as int) < idx && !dir_file_ids(dir_model(*root)).contains(id)
                    ==> r@.contains(id),
            forall|j: int, k: int| 0 <= j < k < r@.len() ==> r@[j] < r@[k],
        decreases fat.ptrs@.len() - idx,
    {
        let id = idx as u16;
        let ghost prev = r@;
        if !contains_id(visited.as_slice(), id) {
            r.push(id);
            proof {
                assert(r@[r@.len() - 1] == id);
                assert(r@.contains(id));
            }
        }
        proof {
            assert forall|x: u16| prev.contains(x) implies r@.contains(x) by {
                let j = choose|j: int| 0 <= j < prev.len() && prev[j] == x;
                assert(r@[j] == x);
            }
            assert forall|other: u16|
                (other as int) < idx + 1 && !dir_file_ids(dir_model(*root)).contains(
                    other,
                ) implies r@.contains(other) by {
                if (other as int) < idx {
                    assert(prev.contains(other));
                } else {
                    assert(other == id);
                }
            }
        }
        idx = idx + 1;
    }
    r
}

/// One part of a cartridge image outside the filesystem.
#[derive(PartialEq, Eq, Clone, Copy, Debug)]
pub struct RomPart {
    /// Offset of the part inside the image.
    pub offset: u32,

    /// Size of the part in bytes.
    pub size: u32,

    /// Which part this is.
    pub kind: RomPartKind,
}

/// Which part of a cartridge image a [`RomPart`] names.
#[derive(PartialEq, Eq, Clone, Copy, Debug)]
pub enum RomPartKind {
    /// The header's first reserved field.
    Reserved1,
    /// The header's second reserved field.
    Reserved2,
    /// The header's field reserved for the debugger.
    ReservedDebugger,
    /// The logo.
    NintendoLogo,
    /// The first processor's load data.
    Arm9LoadData,
    /// The second processor's load data.
    Arm7LoadData,
    /// The first processor's overlay table.
    Arm9OverlayTable,
    /// The second processor's overlay table.
    Arm7OverlayTable,
}

/// The parts of a cartridge image outside the filesystem: the header's
/// fixed reserved ranges and logo, and the load and overlay ranges that
/// the header locates.
pub open spec fn rom_parts_of(h: Header) -> Seq<RomPart> {
    seq![
        RomPart { offset: 0x15, size: 0x7, kind: RomPartKind::Reserved1 },
        RomPart { offset: 0x88, size: 0x38, kind: RomPartKind::Reserved2 },
        RomPart { offset: 0x160, size: 0x20, kind: RomPartKind::ReservedDebugger },
        RomPart { offset: 0xc0, size: 0x9c, kind: RomPartKind::NintendoLogo },
        RomPart {
            offset: h.arm9_load_data.offset,
            size: h.arm9_load_data.size,
            kind: RomPartKind::Arm9LoadData,
        },
        RomPart {
            offset: h.arm7_load_data.offset,
            size: h.arm7_load_data.size,
            kind: RomPartKind::Arm7LoadData,
        },
        RomPart {
            offset: h.arm9_overlay_table.offset,
            size: h.arm9_overlay_table.length,
            kind: RomPartKind::Arm9OverlayTable,
        },
        RomPart {
            offset: h.arm7_overlay_table.offset,
            size: h.arm7_overlay_table.length,
            kind: RomPartKind::Arm7OverlayTable,
        },
    ]
}

/// The image's parts outside the filesystem, as [`rom_parts_of`] gives
/// them.
pub fn rom_parts(header: &Header) -> (r: Vec<RomPart>)
    ensures
        r@ == rom_parts_of(*header),
{
    let mut r: Vec<RomPart> = Vec::new();
    r.push(RomPart { offset: 0x15, size: 0x7, kind: RomPartKind::Reserved1 });
    r.push(RomPart { offset: 0x88, size: 0x38, kind: RomPartKind::Reserved2 });
    r.push(RomPart { offset: 0x160, size: 0x20, kind: RomPartKind::ReservedDebugger });
    r.push(RomPart { offset: 0xc0, size: 0x9c, kind: RomPartKind::NintendoLogo });
    r.push(
        RomPart {
            offset: header.arm9_load_data.offset,
            size: header.arm9_load_data.size,
            kind: RomPartKind::Arm9LoadData,
        },
    );
    r.push(
        RomPart {
            offset: header.arm7_load_data.offset,
            size: header.arm7_load_data.size,
            kind: RomPartKind::Arm7LoadData,
        },
    );
    r.push(
        RomPart {
            offset: header.arm9_overlay_table.offset,
            size: header.arm9_overlay_table.length,
            kind: RomPartKind::Arm9OverlayTable,
        },
    );
    r.push(
        RomPart {
            offset: header.arm7_overlay_table.offset,
            size: header.arm7_overlay_table.length,
            kind: RomPartKind::Arm7OverlayTable,
        },
    );
    proof {
        assert(r@ =~= rom_parts_of(*header));
    }
    r
}

} // verus!
