//! Directory

pub mod visitor;

pub use visitor::{RecordingVisitor, Visitor};

use crate::ascii::AsciiStr;
use vstd::prelude::*;

verus! {

/// The root directory's fixed id.
pub const ROOT_DIR_ID: u16 = 0xf000;

/// Directory: its id and its entries, in stored order.
///
/// The order of `entries` is traversal-significant and is never re-sorted.
#[derive(PartialEq, Eq, Debug)]
pub struct Dir {
    /// Id
    pub id: u16,

    /// Entries
    pub entries: Vec<DirEntry>,
}

/// Directory entry
#[derive(PartialEq, Eq, Debug)]
pub struct DirEntry {
    /// Name
    pub name: AsciiStr,

    /// Kind
    pub kind: DirEntryKind,
}

/// Directory entry kind
#[derive(PartialEq, Eq, Debug)]
pub enum DirEntryKind {
    /// File
    File {
        /// File id
        id: u16,
    },
    /// Dir
    Dir {
        /// Dir id
        id: u16,
        /// The subtree, exclusively owned by this entry.
        dir: Dir,
    },
}

/// The mathematical value of a directory.
pub struct DirModel {
    /// Id
    pub id: u16,
    /// Entries
    pub entries: Seq<DirEntryModel>,
}

/// The mathematical value of a directory entry.
pub struct DirEntryModel {
    /// Name bytes
    pub name: Seq<u8>,
    /// Kind
    pub kind: DirEntryKindModel,
}

/// The mathematical value of a directory entry's kind.
pub enum DirEntryKindModel {
    /// File
    File { id: u16 },
    /// Dir
    Dir { id: u16, dir: DirModel },
}

/// The mathematical value of a [`Dir`].
pub open spec fn dir_model(d: Dir) -> DirModel
    decreases d,
{
    DirModel { id: d.id, entries: dir_entry_models(d.entries@) }
}

/// The mathematical values of a sequence of directory entries.
pub open spec fn dir_entry_models(s: Seq<DirEntry>) -> Seq<DirEntryModel>
    decreases s,
{
    if s.len() == 0 {
        Seq::empty()
    } else {
        dir_entry_models(s.drop_last()).push(dir_entry_model(s.last()))
    }
}

/// The mathematical value of a [`DirEntry`].
pub open spec fn dir_entry_model(e: DirEntry) -> DirEntryModel
    decreases e,
{
    DirEntryModel {
        name: e.name@,
        kind: match e.kind {
            DirEntryKind::File { id } => DirEntryKindModel::File { id },
            DirEntryKind::Dir { id, dir } => DirEntryKindModel::Dir { id, dir: dir_model(dir) },
        },
    }
}

/// The entry models line up with the entries, one for one.
pub proof fn lemma_dir_entry_models(s: Seq<DirEntry>)
    ensures
        dir_entry_models(s).len() == s.len(),
        forall|i: int| 0 <= i < s.len() ==> dir_entry_models(s)[i] == dir_entry_model(s[i]),
    decreases s,
{
    if s.len() > 0 {
        lemma_dir_entry_models(s.drop_last());
    }
}

impl Dir {
    /// Walks through all entries in this directory and its sub-directories:
    /// depth-first, pre-order, entries in stored order. A file entry is one
    /// `visit_file` call; a directory entry is one `visit_dir` call followed
    /// by the walk of its subtree. There is no callback for leaving a
    /// directory. The first failure of a visitor call aborts the whole walk
    /// at once; a walk of a directory with no entries calls the visitor not
    /// at all and leaves it untouched.
    pub fn walk<V: Visitor>(&self, visitor: &mut V) -> (r: Result<(), V::Error>)
        ensures
            r matches Ok(_) ==> final(visitor).events() == old(visitor).events()
                + visitor::dir_events(dir_model(*self)),
            self.entries@.len() == 0 ==> (r matches Ok(_)) && *final(visitor) == *old(visitor),
        decreases *self,
    {
        let mut i: usize = 0;
        #[verifier::loop_isolation(false)]
        while i < self.entries.len()
            invariant
                i <= self.entries@.len(),
                i == 0 ==> *visitor == *old(visitor),
                visitor.events() == old(visitor).events() + visitor::entries_events(
                    dir_entry_models(self.entries@.subrange(0, i as int)),
                ),
            decreases self.entries@.len() - i,
        {
            let entry = &self.entries[i];
            let ghost prev_events = visitor.events();
            match &entry.kind {
                DirEntryKind::File { id } => {
                    match visitor.visit_file(&entry.name, *id) {
                        Ok(_) => {},
                        Err(e) => return Err(e),
                    }
                },
                DirEntryKind::Dir { id, dir } => {
                    match visitor.visit_dir(&entry.name, *id) {
                        Ok(_) => {},
                        Err(e) => return Err(e),
                    }
                    proof {
                        assert(decreases_to!(*self => *dir));
                    }
                    match dir.walk(visitor) {
                        Ok(_) => {},
                        Err(e) => return Err(e),
                    }
                },
            }
            proof {
                let s0 = self.entries@.subrange(0, i as int);
                let s1 = self.entries@.subrange(0, i + 1);
                assert(s1.drop_last() =~= s0);
                assert(s1.last() == self.entries@[i as int]);
                assert(visitor::entries_events(dir_entry_models(s1))
                    == visitor::entries_events(dir_entry_models(s1).drop_last())
                    + visitor::entry_events(dir_entry_models(s1).last())) by {
                    lemma_dir_entry_models(s1);
                }
                assert(dir_entry_models(s1).drop_last() =~= dir_entry_models(s0));
                assert(visitor.events() == old(visitor).events() + visitor::entries_events(
                    dir_entry_models(s1),
                )) by {
                    assert(prev_events + visitor::entry_events(
                        dir_entry_model(self.entries@[i as int]),
                    ) =~= old(visitor).events() + (visitor::entries_events(dir_entry_models(s0))
                        + visitor::entry_events(dir_entry_model(self.entries@[i as int]))));
                }
            }
            i = i + 1;
        }
        proof {
            assert(self.entries@.subrange(0, self.entries@.len() as int) =~= self.entries@);
        }
        Ok(())
    }
}

impl View for Dir {
    type V = DirModel;

    open spec fn view(&self) -> DirModel {
        dir_model(*self)
    }
}

} // verus!
