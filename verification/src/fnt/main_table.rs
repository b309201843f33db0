//! Fnt main table

use crate::dir::{
    dir_entry_model, dir_entry_models, dir_model, lemma_dir_entry_models, Dir, DirEntry,
    DirEntryKind, DirEntryKindModel, DirEntryModel, DirModel,
};
use crate::fnt::sub_table;
use crate::fnt::sub_table::entry;
use crate::fnt::sub_table::{sub_table_entries, SubTable, SubTableEntryKind, SubTableEntryModel};
use vstd::bytes::{spec_u16_from_le_bytes, spec_u32_from_le_bytes};
use vstd::prelude::*;
use vstd::slice::slice_subrange;

verus! {

/// Error for [`MainTable::from_reader`]
#[derive(PartialEq, Eq, Clone, Copy, Debug)]
pub enum FromReaderError {
    /// The root entry ran past the end of the region.
    ReadRootEntry,
    /// An entry ran past the end of the region, or the root entry announced
    /// no entries at all (not even itself).
    ReadEntry,
}

/// Error for [`MainTableEntry::read_sub_table`]
#[derive(PartialEq, Eq, Clone, Copy, Debug)]
pub enum ReadSubTableError {
    /// The sub table's offset lies past the end of the region.
    CreateSlice,
    /// The sub table could not be decoded.
    ReadSubTable(sub_table::FromReaderError),
}

/// Error for [`MainTableEntry::read_dir`]
#[derive(PartialEq, Eq, Debug)]
pub enum ReadDirError {
    /// The directory's sub table could not be read.
    ReadSubTable(ReadSubTableError),
    /// A directory marker had no corresponding main table entry.
    NoMainEntry,
    /// A sub-directory could not be read.
    ReadSubDir(Box<ReadDirError>),
    /// The directories nest deeper than the main table has entries, which
    /// cannot come from a well-formed table.
    TooDeep,
}

/// Main table entry: one directory's record.
#[derive(PartialEq, Eq, Clone, Copy, Debug)]
pub struct MainTableEntry {
    /// Offset of this directory's sub table inside the name table region.
    pub sub_table_offset: u32,

    /// First file id
    pub first_file_id: u16,

    /// Parent id
    // Note: Holds the total number of entries in the root entry.
    pub parent_id: u16,
}

/// The entry encoded by one 8-byte record: a little-endian sub table
/// offset, first file id and parent id.
pub open spec fn main_entry_of(s: Seq<u8>) -> MainTableEntry
    recommends
        s.len() == 8,
{
    MainTableEntry {
        sub_table_offset: spec_u32_from_le_bytes(s.subrange(0, 4)),
        first_file_id: spec_u16_from_le_bytes(s.subrange(4, 6)),
        parent_id: spec_u16_from_le_bytes(s.subrange(6, 8)),
    }
}

/// The main table encoded at the start of region `s`: the root entry's
/// `parent_id` field holds the total entry count `n` (the root included),
/// and entries `1` to `n - 1` follow it, 8 bytes each.
///
/// Fails if the region cannot hold the announced entries, or if the root
/// announces a count of zero, which contradicts its own presence.
pub open spec fn main_table_of(s: Seq<u8>) -> Result<
    (MainTableEntry, Seq<MainTableEntry>),
    FromReaderError,
> {
    if s.len() < 8 {
        Err(FromReaderError::ReadRootEntry)
    } else {
        let root = main_entry_of(s.subrange(0, 8));
        let n = root.parent_id as int;
        if n == 0 || s.len() < 8 * n {
            Err(FromReaderError::ReadEntry)
        } else {
            Ok(
                (
                    root,
                    Seq::new(
                        (n - 1) as nat,
                        |i: int| main_entry_of(s.subrange(8 * (i + 1), 8 * (i + 2))),
                    ),
                ),
            )
        }
    }
}

/// Main table: the root entry and all further entries, in table order.
#[derive(PartialEq, Eq, Clone, Debug)]
pub struct MainTable {
    /// Root entry
    pub root_entry: MainTableEntry,

    /// All entries but the root.
    pub entries: Vec<MainTableEntry>,
}

impl MainTable {
    /// Decodes the main table from the bytes of the name table region,
    /// as [`main_table_of`] gives it.
    pub fn from_reader(bytes: &[u8]) -> (r: Result<Self, FromReaderError>)
        ensures
            main_table_of(bytes@) == (match r {
                Ok(mt) => Ok::<_, FromReaderError>((mt.root_entry, mt.entries@)),
                Err(e) => Err(e),
            }),
    {
        if bytes.len() < 8 {
            return Err(FromReaderError::ReadRootEntry);
        }
        let root_entry = MainTableEntry::from_bytes(slice_subrange(bytes, 0, 8));

        // Note: On the root entry, since there is no parent, the total
        // number of entries is encoded instead.
        let entries_len = root_entry.parent_id as usize;
        if entries_len == 0 || bytes.len() / 8 < entries_len {
            return Err(FromReaderError::ReadEntry);
        }

        let mut entries: Vec<MainTableEntry> = Vec::new();
        let mut i: usize = 1;
        #[verifier::loop_isolation(false)]
        while i < entries_len
            invariant
                1 <= i <= entries_len,
                entries@.len() == i - 1,
                forall|j: int|
                    0 <= j < entries@.len() ==> entries@[j] == main_entry_of(
                        bytes@.subrange(8 * (j + 1), 8 * (j + 2)),
                    ),
            decreases entries_len - i,
        {
            let e = MainTableEntry::from_bytes(slice_subrange(bytes, 8 * i, 8 * i + 8));
            entries.push(e);
            i = i + 1;
        }
        proof {
            let n = entries_len as int;
            assert(entries@ =~= Seq::new(
                (n - 1) as nat,
                |j: int| main_entry_of(bytes@.subrange(8 * (j + 1), 8 * (j + 2))),
            ));
        }
        Ok(Self { root_entry, entries })
    }
}

impl MainTableEntry {
    /// Parses an entry from its 8-byte record.
    pub fn from_bytes(bytes: &[u8]) -> (r: Self)
        requires
            bytes@.len() == 8,
        ensures
            r == main_entry_of(bytes@),
    {
        let sub_table_offset = vstd::bytes::u32_from_le_bytes(slice_subrange(bytes, 0, 4));
        let first_file_id = vstd::bytes::u16_from_le_bytes(slice_subrange(bytes, 4, 6));
        let parent_id = vstd::bytes::u16_from_le_bytes(slice_subrange(bytes, 6, 8));
        Self { sub_table_offset, first_file_id, parent_id }
    }
}

/// The sub table region that starts at `offset` inside the name table
/// region: everything from the offset to the region's end.
pub open spec fn sub_table_region(fnt: Seq<u8>, offset: int) -> Seq<u8>
    recommends
        0 <= offset <= fnt.len(),
{
    fnt.subrange(offset, fnt.len() as int)
}

/// The child cursor for directory `id`: the main table entries whose
/// `parent_id` is `id`, in table order. The `n`-th directory marker of a
/// directory's sub table pairs with the `n`-th entry of this cursor;
/// the format has no id-based join.
pub open spec fn children_of(all: Seq<MainTableEntry>, id: u16) -> Seq<MainTableEntry> {
    all.filter(|e: MainTableEntry| e.parent_id == id)
}

/// The file id that follows `id`: the counter wraps around at the top of
/// the 16-bit range rather than fail.
pub open spec fn next_file_id(id: u16) -> u16 {
    if id == 0xffff {
        0
    } else {
        (id + 1) as u16
    }
}

/// The directory that entry `entry` resolves to under directory id `id`,
/// given the whole name table region `fnt` and all non-root entries `all`;
/// `fuel` bounds the directory nesting that will be followed.
///
/// The directory's sub table is decoded at the entry's offset, and its
/// entries are resolved in order by [`resolve_entries`].
pub open spec fn resolve_dir(
    fnt: Seq<u8>,
    entry: MainTableEntry,
    id: u16,
    all: Seq<MainTableEntry>,
    fuel: nat,
) -> Result<DirModel, ReadDirError>
    decreases fuel, 0int,
{
    if fuel == 0 {
        Err(ReadDirError::TooDeep)
    } else if entry.sub_table_offset > fnt.len() {
        Err(ReadDirError::ReadSubTable(ReadSubTableError::CreateSlice))
    } else {
        match sub_table_entries(sub_table_region(fnt, entry.sub_table_offset as int), 0) {
            Err(e) => Err(
                ReadDirError::ReadSubTable(
                    ReadSubTableError::ReadSubTable(sub_table::FromReaderError::ReadEntry(e)),
                ),
            ),
            Ok(sub) => match resolve_entries(
                fnt,
                sub,
                0,
                entry.first_file_id,
                children_of(all, id),
                0,
                all,
                (fuel - 1) as nat,
            ) {
                Ok(es) => Ok(DirModel { id, entries: es }),
                Err(e) => Err(e),
            },
        }
    }
}

/// The directory entries that sub table entries `sub[i..]` resolve to:
/// a file entry takes the running file id `file_id` and steps it; a
/// directory marker takes the next unconsumed cursor entry `cursor[ci]`
/// (failing if the cursor is exhausted) and resolves it recursively under
/// the marker's id, wrapping any failure below it.
pub open spec fn resolve_entries(
    fnt: Seq<u8>,
    sub: Seq<SubTableEntryModel>,
    i: int,
    file_id: u16,
    cursor: Seq<MainTableEntry>,
    ci: int,
    all: Seq<MainTableEntry>,
    fuel: nat,
) -> Result<Seq<DirEntryModel>, ReadDirError>
    decreases fuel, sub.len() - i + 1,
{
    if !(0 <= i < sub.len()) {
        Ok(Seq::empty())
    } else {
        match sub[i].kind {
            SubTableEntryKind::File => {
                match resolve_entries(fnt, sub, i + 1, next_file_id(file_id), cursor, ci, all, fuel) {
                    Ok(rest) => Ok(
                        seq![
                            DirEntryModel {
                                name: sub[i].name,
                                kind: DirEntryKindModel::File { id: file_id },
                            },
                        ] + rest,
                    ),
                    Err(e) => Err(e),
                }
            },
            SubTableEntryKind::Dir { id: child_id } => {
                if ci >= cursor.len() {
                    Err(ReadDirError::NoMainEntry)
                } else {
                    match resolve_dir(fnt, cursor[ci], child_id, all, fuel) {
                        Err(e) => Err(ReadDirError::ReadSubDir(Box::new(e))),
                        Ok(child) => match resolve_entries(
                            fnt,
                            sub,
                            i + 1,
                            file_id,
                            cursor,
                            ci + 1,
                            all,
                            fuel,
                        ) {
                            Ok(rest) => Ok(
                                seq![
                                    DirEntryModel {
                                        name: sub[i].name,
                                        kind: DirEntryKindModel::Dir { id: child_id, dir: child },
                                    },
                                ] + rest,
                            ),
                            Err(e) => Err(e),
                        },
                    }
                }
            },
        }
    }
}

/// [`resolve_dir`] with enough fuel for any well-formed table: directories
/// nest at most one level per main table entry, the root besides.
pub open spec fn resolve_dir_full(
    fnt: Seq<u8>,
    entry: MainTableEntry,
    id: u16,
    all: Seq<MainTableEntry>,
) -> Result<DirModel, ReadDirError> {
    resolve_dir(fnt, entry, id, all, (all.len() + 1) as nat)
}

/// The mathematical value of a resolution result.
pub open spec fn dir_result_model(r: Result<Dir, ReadDirError>) -> Result<DirModel, ReadDirError> {
    match r {
        Ok(d) => Ok(dir_model(d)),
        Err(e) => Err(e),
    }
}

/// The main table entries of `all` whose `parent_id` is `id`, in order.
fn children_entries(all: &[MainTableEntry], id: u16) -> (r: Vec<MainTableEntry>)
    ensures
        r@ == children_of(all@, id),
{
    let mut r: Vec<MainTableEntry> = Vec::new();
    let mut k: usize = 0;
    proof {
        assert(all@.subrange(0, 0) =~= Seq::<MainTableEntry>::empty());
        reveal_with_fuel(Seq::filter, 1);
    }
    #[verifier::loop_isolation(false)]
    while k < all.len()
        invariant
            k <= all@.len(),
            r@ == children_of(all@.subrange(0, k as int), id),
        decreases all@.len() - k,
    {
        let e = all[k];
        proof {
            let s1 = all@.subrange(0, k + 1);
            assert(s1.drop_last() =~= all@.subrange(0, k as int));
            assert(s1.last() == all@[k as int]);
            reveal_with_fuel(Seq::filter, 2);
        }
        if e.parent_id == id {
            r.push(e);
        }
        k = k + 1;
    }
    proof {
        assert(all@.subrange(0, all@.len() as int) =~= all@);
    }
    r
}

impl MainTableEntry {
    /// Decodes the sub table at this entry's offset inside the name table
    /// region; fails if the offset lies past the region's end.
    pub fn read_sub_table(&self, bytes: &[u8]) -> (r: Result<SubTable, ReadSubTableError>)
        ensures
            match r {
                Ok(st) => self.sub_table_offset <= bytes@.len() && sub_table_entries(
                    sub_table_region(bytes@, self.sub_table_offset as int),
                    0,
                ) == Ok::<_, entry::FromReaderError>(st@),
                Err(ReadSubTableError::CreateSlice) => self.sub_table_offset > bytes@.len(),
                Err(
                    ReadSubTableError::ReadSubTable(sub_table::FromReaderError::ReadEntry(e)),
                ) => self.sub_table_offset <= bytes@.len() && sub_table_entries(
                    sub_table_region(bytes@, self.sub_table_offset as int),
                    0,
                ) == Err::<Seq<SubTableEntryModel>, _>(e),
            },
    {
        if self.sub_table_offset as usize > bytes.len() {
            return Err(ReadSubTableError::CreateSlice);
        }
        let region = slice_subrange(bytes, self.sub_table_offset as usize, bytes.len());
        match SubTable::from_reader(region) {
            Ok(st) => Ok(st),
            Err(e) => Err(ReadSubTableError::ReadSubTable(e)),
        }
    }

    /// Resolves the directory tree rooted at this entry, under directory id
    /// `id`, against the name table region `bytes` and the non-root main
    /// table entries `main_entries`, as [`resolve_dir_full`] gives it.
    pub fn read_dir(&self, bytes: &[u8], id: u16, main_entries: &[MainTableEntry]) -> (r: Result<
        Dir,
        ReadDirError,
    >)
        requires
            main_entries@.len() < usize::MAX,
        ensures
            dir_result_model(r) == resolve_dir_full(bytes@, *self, id, main_entries@),
    {
        self.read_dir_limited(bytes, id, main_entries, main_entries.len() + 1)
    }

    /// Resolves the directory tree rooted at this entry, following at most
    /// `fuel` levels of nesting.
    fn read_dir_limited(
        &self,
        bytes: &[u8],
        id: u16,
        main_entries: &[MainTableEntry],
        fuel: usize,
    ) -> (r: Result<Dir, ReadDirError>)
        ensures
            dir_result_model(r) == resolve_dir(bytes@, *self, id, main_entries@, fuel as nat),
        decreases fuel,
    {
        if fuel == 0 {
            return Err(ReadDirError::TooDeep);
        }
        let sub_table = match self.read_sub_table(bytes) {
            Ok(st) => st,
            Err(e) => return Err(ReadDirError::ReadSubTable(e)),
        };
        let children = children_entries(main_entries, id);
        let ghost sub = sub_table@;
        let ghost fuel1 = (fuel - 1) as nat;

        let mut cur_file_id: u16 = self.first_file_id;
        let mut ci: usize = 0;
        let mut entries: Vec<DirEntry> = Vec::new();
        let mut i: usize = 0;
        proof {
            assert(dir_entry_models(entries@) =~= Seq::<crate::dir::DirEntryModel>::empty());
        }
        #[verifier::loop_isolation(false)]
        while i < sub_table.entries.len()
            invariant
                i <= sub.len(),
                ci <= children@.len(),
                resolve_dir(bytes@, *self, id, main_entries@, fuel as nat) == (match resolve_entries(
                    bytes@,
                    sub,
                    i as int,
                    cur_file_id,
                    children@,
                    ci as int,
                    main_entries@,
                    fuel1,
                ) {
                    Ok(rest) => Ok::<_, ReadDirError>(
                        DirModel { id, entries: dir_entry_models(entries@) + rest },
                    ),
                    Err(e) => Err(e),
                }),
            decreases sub.len() - i,
        {
            let sub_entry = &sub_table.entries[i];
            let name = sub_entry.name.clone();
            let ghost prev_entries = entries@;
            match sub_entry.kind {
                SubTableEntryKind::File => {
                    entries.push(
                        DirEntry { name, kind: DirEntryKind::File { id: cur_file_id } },
                    );
                    cur_file_id = if cur_file_id == 0xffff {
                        0
                    } else {
                        cur_file_id + 1
                    };
                },
                SubTableEntryKind::Dir { id: child_id } => {
                    if ci >= children.len() {
                        return Err(ReadDirError::NoMainEntry);
                    }
                    let child_entry = children[ci];
                    let child = match child_entry.read_dir_limited(
                        bytes,
                        child_id,
                        main_entries,
                        fuel - 1,
                    ) {
                        Ok(d) => d,
                        Err(e) => return Err(ReadDirError::ReadSubDir(Box::new(e))),
                    };
                    entries.push(
                        DirEntry { name, kind: DirEntryKind::Dir { id: child_id, dir: child } },
                    );
                    ci = ci + 1;
                },
            }
            i = i + 1;
            proof {
                assert(prev_entries.push(entries@.last()).drop_last() =~= prev_entries);
                assert(dir_entry_models(entries@) =~= dir_entry_models(prev_entries).push(
                    dir_entry_model(entries@.last()),
                ));
                if let Ok(rest) = resolve_entries(
                    bytes@,
                    sub,
                    i as int,
                    cur_file_id,
                    children@,
                    ci as int,
                    main_entries@,
                    fuel1,
                ) {
                    assert(dir_entry_models(prev_entries).push(dir_entry_model(entries@.last()))
                        + rest =~= dir_entry_models(prev_entries) + (seq![
                        dir_entry_model(entries@.last()),
                    ] + rest));
                }
            }
        }
        proof {
            assert(dir_entry_models(entries@) + Seq::<crate::dir::DirEntryModel>::empty()
                =~= dir_entry_models(entries@));
        }
        Ok(Dir { id, entries })
    }
}

} // verus!

verus! {

/// The number of directory markers among sub table entries `s[from..]`.
pub open spec fn dir_marker_count_from(s: Seq<SubTableEntryModel>, from: int) -> int
    decreases s.len() - from,
{
    if !(0 <= from < s.len()) {
        0
    } else {
        (if s[from].kind matches SubTableEntryKind::Dir { .. } {
            1int
        } else {
            0int
        }) + dir_marker_count_from(s, from + 1)
    }
}

/// The number of file entries among directory entries `s[..k]`.
pub open spec fn files_before(s: Seq<DirEntryModel>, k: int) -> int
    decreases k,
{
    if k <= 0 {
        0
    } else {
        files_before(s, k - 1) + (if s[k - 1].kind matches DirEntryKindModel::File { .. } {
            1int
        } else {
            0int
        })
    }
}

/// `first` stepped `k` file entries further, wrapping at the top of the
/// 16-bit range.
pub open spec fn file_id_plus(first: u16, k: int) -> u16
    recommends
        k >= 0,
{
    ((first + k) % 0x10000) as u16
}

proof fn lemma_file_id_plus_step(first: u16, k: int)
    requires
        k >= 0,
    ensures
        file_id_plus(first, k + 1) == file_id_plus(next_file_id(first), k),
{
    if first == 0xffff {
        assert((0x10000 + k) % 0x10000 == k % 0x10000) by (nonlinear_arith);
    }
}

proof fn lemma_files_before_cons(x: DirEntryModel, t: Seq<DirEntryModel>, k: int)
    requires
        0 <= k <= t.len(),
    ensures
        files_before(seq![x] + t, k + 1) == files_before(t, k) + (
        if x.kind matches DirEntryKindModel::File { .. } {
            1int
        } else {
            0int
        }),
    decreases k,
{
    let s = seq![x] + t;
    assert(s[0] == x);
    assert(files_before(s, k + 1) == files_before(s, k) + (
    if s[k].kind matches DirEntryKindModel::File { .. } {
        1int
    } else {
        0int
    }));
    if k == 0 {
        assert(files_before(s, 0) == 0);
        assert(files_before(t, 0) == 0);
    } else {
        lemma_files_before_cons(x, t, k - 1);
        assert(s[k] == t[k - 1]);
        assert(files_before(t, k) == files_before(t, k - 1) + (
        if t[k - 1].kind matches DirEntryKindModel::File { .. } {
            1int
        } else {
            0int
        }));
    }
}

proof fn lemma_files_before_nonneg(s: Seq<DirEntryModel>, k: int)
    ensures
        files_before(s, k) >= 0,
    decreases k,
{
    if k > 0 {
        lemma_files_before_nonneg(s, k - 1);
    }
}

proof fn lemma_resolve_entries_file_ids(
    fnt: Seq<u8>,
    sub: Seq<SubTableEntryModel>,
    j: int,
    file_id: u16,
    cursor: Seq<MainTableEntry>,
    cj: int,
    all: Seq<MainTableEntry>,
    fuel: nat,
)
    requires
        0 <= j,
    ensures
        resolve_entries(fnt, sub, j, file_id, cursor, cj, all, fuel) matches Ok(es) ==> {
            &&& es.len() == if j <= sub.len() {
                sub.len() - j
            } else {
                0
            }
            &&& forall|i: int|
                0 <= i < es.len() && (#[trigger] es[i].kind matches DirEntryKindModel::File {
                    ..
                }) ==> es[i].kind == (DirEntryKindModel::File {
                    id: file_id_plus(file_id, files_before(es, i)),
                })
        },
    decreases sub.len() - j,
{
    if !(0 <= j < sub.len()) {
        return ;
    }
    match resolve_entries(fnt, sub, j, file_id, cursor, cj, all, fuel) {
        Err(_) => {},
        Ok(es) => {
            match sub[j].kind {
                SubTableEntryKind::File => {
                    lemma_resolve_entries_file_ids(
                        fnt,
                        sub,
                        j + 1,
                        next_file_id(file_id),
                        cursor,
                        cj,
                        all,
                        fuel,
                    );
                    let rest = resolve_entries(
                        fnt,
                        sub,
                        j + 1,
                        next_file_id(file_id),
                        cursor,
                        cj,
                        all,
                        fuel,
                    )->Ok_0;
                    let head = DirEntryModel {
                        name: sub[j].name,
                        kind: DirEntryKindModel::File { id: file_id },
                    };
                    assert(es == seq![head] + rest);
                    assert forall|i: int|
                        0 <= i < es.len() && (#[trigger] es[i].kind
                            matches DirEntryKindModel::File { .. }) implies es[i].kind == (
                    DirEntryKindModel::File { id: file_id_plus(file_id, files_before(es, i)) }) by {
                        if i == 0 {
                            assert(files_before(es, 0) == 0);
                            assert(file_id_plus(file_id, 0) == file_id);
                        } else {
                            assert(es[i] == rest[i - 1]);
                            lemma_files_before_cons(head, rest, i - 1);
                            lemma_files_before_nonneg(rest, i - 1);
                            lemma_file_id_plus_step(file_id, files_before(rest, i - 1));
                        }
                    }
                },
                SubTableEntryKind::Dir { id: child_id } => {
                    lemma_resolve_entries_file_ids(fnt, sub, j + 1, file_id, cursor, cj + 1, all, fuel);
                    let child = resolve_dir(fnt, cursor[cj], child_id, all, fuel)->Ok_0;
                    let rest = resolve_entries(fnt, sub, j + 1, file_id, cursor, cj + 1, all, fuel)->Ok_0;
                    let head = DirEntryModel {
                        name: sub[j].name,
                        kind: DirEntryKindModel::Dir { id: child_id, dir: child },
                    };
                    assert(es == seq![head] + rest);
                    assert forall|i: int|
                        0 <= i < es.len() && (#[trigger] es[i].kind
                            matches DirEntryKindModel::File { .. }) implies es[i].kind == (
                    DirEntryKindModel::File { id: file_id_plus(file_id, files_before(es, i)) }) by {
                        assert(i > 0);
                        assert(es[i] == rest[i - 1]);
                        lemma_files_before_cons(head, rest, i - 1);
                    }
                },
            }
        },
    }
}

/// File ids within one directory are assigned from the directory's
/// `first_file_id` upward, strictly in sub table order: the `k`-th file
/// entry of a resolved directory carries id `first_file_id + k`, modulo
/// `0x10000`. Directory entries do not advance the counter.
pub proof fn lemma_file_ids_sequential(
    fnt: Seq<u8>,
    entry: MainTableEntry,
    id: u16,
    all: Seq<MainTableEntry>,
    fuel: nat,
)
    ensures
        resolve_dir(fnt, entry, id, all, fuel) matches Ok(d) ==> forall|i: int|
            0 <= i < d.entries.len() && (#[trigger] d.entries[i].kind
                matches DirEntryKindModel::File { .. }) ==> d.entries[i].kind == (
        DirEntryKindModel::File {
            id: file_id_plus(entry.first_file_id, files_before(d.entries, i)),
        }),
{
    if fuel > 0 && entry.sub_table_offset <= fnt.len() {
        let region = sub_table_region(fnt, entry.sub_table_offset as int);
        if let Ok(sub) = sub_table_entries(region, 0) {
            lemma_resolve_entries_file_ids(
                fnt,
                sub,
                0,
                entry.first_file_id,
                children_of(all, id),
                0,
                all,
                (fuel - 1) as nat,
            );
        }
    }
}

proof fn lemma_exhausted_cursor_fails(
    fnt: Seq<u8>,
    sub: Seq<SubTableEntryModel>,
    j: int,
    file_id: u16,
    cursor: Seq<MainTableEntry>,
    cj: int,
    all: Seq<MainTableEntry>,
    fuel: nat,
)
    requires
        0 <= j,
        0 <= cj <= cursor.len(),
        cj + dir_marker_count_from(sub, j) > cursor.len(),
    ensures
        resolve_entries(fnt, sub, j, file_id, cursor, cj, all, fuel) matches Err(e) && (e
            == ReadDirError::NoMainEntry || e matches ReadDirError::ReadSubDir(_)),
    decreases sub.len() - j,
{
    match sub[j].kind {
        SubTableEntryKind::File => {
            lemma_exhausted_cursor_fails(fnt, sub, j + 1, next_file_id(file_id), cursor, cj, all, fuel);
        },
        SubTableEntryKind::Dir { id: child_id } => {
            if cj < cursor.len() {
                if resolve_dir(fnt, cursor[cj], child_id, all, fuel) matches Ok(_) {
                    lemma_exhausted_cursor_fails(fnt, sub, j + 1, file_id, cursor, cj + 1, all, fuel);
                }
            }
        },
    }
}

/// In any directory, the directory markers of its sub table may not
/// outnumber the main table entries whose `parent_id` is the directory's
/// id: each marker consumes one such entry, in table order, and when the
/// markers outnumber them the directory's resolution fails: with the
/// cross-table error at the marker the cursor cannot serve, unless the
/// resolution of an earlier marker's subtree already failed.
pub proof fn lemma_markers_need_main_entries(
    fnt: Seq<u8>,
    entry: MainTableEntry,
    id: u16,
    all: Seq<MainTableEntry>,
    fuel: nat,
)
    requires
        sub_table_entries(sub_table_region(fnt, entry.sub_table_offset as int), 0) matches Ok(sub)
            && dir_marker_count_from(sub, 0) > children_of(all, id).len(),
    ensures
        resolve_dir(fnt, entry, id, all, fuel) matches Err(e) && (fuel > 0
            && entry.sub_table_offset <= fnt.len() ==> e == ReadDirError::NoMainEntry || (
        e matches ReadDirError::ReadSubDir(_))),
{
    if fuel > 0 && entry.sub_table_offset <= fnt.len() {
        if let Ok(sub) = sub_table_entries(sub_table_region(fnt, entry.sub_table_offset as int), 0) {
            lemma_exhausted_cursor_fails(
                fnt,
                sub,
                0,
                entry.first_file_id,
                children_of(all, id),
                0,
                all,
                (fuel - 1) as nat,
            );
        }
    }
}

/// A reserved `0x80` tag at the start of a directory's sub table fails the
/// directory's resolution with the format error, wrapped to name the sub
/// table as the failing structure.
pub proof fn lemma_reserved_tag_fails_resolution(
    fnt: Seq<u8>,
    entry: MainTableEntry,
    id: u16,
    all: Seq<MainTableEntry>,
    fuel: nat,
)
    requires
        fuel > 0,
        entry.sub_table_offset < fnt.len(),
        fnt[entry.sub_table_offset as int] == 0x80,
    ensures
        resolve_dir(fnt, entry, id, all, fuel) == Err::<DirModel, _>(
            ReadDirError::ReadSubTable(
                ReadSubTableError::ReadSubTable(
                    sub_table::FromReaderError::ReadEntry(entry::FromReaderError::ReservedDirKind),
                ),
            ),
        ),
{
    let region = sub_table_region(fnt, entry.sub_table_offset as int);
    assert(region[0] == fnt[entry.sub_table_offset as int]);
    sub_table::lemma_reserved_tag_fails(region, 0);
}

proof fn lemma_child_failure_fails_entries(
    fnt: Seq<u8>,
    sub: Seq<SubTableEntryModel>,
    j: int,
    file_id: u16,
    cursor: Seq<MainTableEntry>,
    cj: int,
    all: Seq<MainTableEntry>,
    fuel: nat,
    i: int,
)
    requires
        0 <= j <= i < sub.len(),
        0 <= cj,
        sub[i].kind matches SubTableEntryKind::Dir { id: child_id } && {
            let pair = cj + (dir_marker_count_from(sub, j) - dir_marker_count_from(sub, i));
            ||| pair >= cursor.len()
            ||| resolve_dir(fnt, cursor[pair], child_id, all, fuel) matches Err(_)
        },
    ensures
        resolve_entries(fnt, sub, j, file_id, cursor, cj, all, fuel) matches Err(_),
    decreases i - j,
{
    if j == i {
        // the failing marker itself: the cursor is exhausted, or the paired
        // entry's own resolution fails
    } else {
        match sub[j].kind {
            SubTableEntryKind::File => {
                lemma_child_failure_fails_entries(
                    fnt,
                    sub,
                    j + 1,
                    next_file_id(file_id),
                    cursor,
                    cj,
                    all,
                    fuel,
                    i,
                );
            },
            SubTableEntryKind::Dir { id: child_id } => {
                if cj < cursor.len() {
                    if resolve_dir(fnt, cursor[cj], child_id, all, fuel) matches Ok(_) {
                        lemma_child_failure_fails_entries(
                            fnt,
                            sub,
                            j + 1,
                            file_id,
                            cursor,
                            cj + 1,
                            all,
                            fuel,
                            i,
                        );
                    }
                }
            },
        }
    }
}

/// A nested directory's failure propagates: when the `n`-th directory
/// marker of a directory's sub table pairs with a main table entry whose
/// own resolution fails — or pairs with no entry at all — the resolution
/// of the whole directory fails too. Together with the entry decoding laws
/// this carries any sub table error, a reserved tag included, up through
/// every enclosing directory: no partial tree is returned.
pub proof fn lemma_child_failure_fails_parent(
    fnt: Seq<u8>,
    entry: MainTableEntry,
    id: u16,
    all: Seq<MainTableEntry>,
    fuel: nat,
    i: int,
)
    requires
        fuel > 0,
        entry.sub_table_offset <= fnt.len(),
        sub_table_entries(sub_table_region(fnt, entry.sub_table_offset as int), 0) matches Ok(sub)
            && 0 <= i < sub.len() && (sub[i].kind matches SubTableEntryKind::Dir { id: child_id }
            && {
            let pair = dir_marker_count_from(sub, 0) - dir_marker_count_from(sub, i);
            ||| pair >= children_of(all, id).len()
            ||| resolve_dir(
                fnt,
                children_of(all, id)[pair],
                child_id,
                all,
                (fuel - 1) as nat,
            ) matches Err(_)
        }),
    ensures
        resolve_dir(fnt, entry, id, all, fuel) matches Err(_),
{
    if let Ok(sub) = sub_table_entries(sub_table_region(fnt, entry.sub_table_offset as int), 0) {
        lemma_child_failure_fails_entries(
            fnt,
            sub,
            0,
            entry.first_file_id,
            children_of(all, id),
            0,
            all,
            (fuel - 1) as nat,
            i,
        );
    }
}

} // verus!
