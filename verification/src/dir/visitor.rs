//! Directory visitor

use crate::ascii::AsciiStr;
use crate::dir::{DirEntryKindModel, DirEntryModel, DirModel};
use vstd::prelude::*;

verus! {

/// One observable step of a directory walk.
pub enum VisitEvent {
    /// A file was visited, with its name and file id.
    File { name: Seq<u8>, id: u16 },
    /// A directory was entered, with its name and directory id.
    Dir { name: Seq<u8>, id: u16 },
}

/// The walk steps of a directory: depth-first, pre-order, its entries in
/// stored order. The directory itself contributes no step; leaving a
/// directory contributes no step either.
pub open spec fn dir_events(d: DirModel) -> Seq<VisitEvent>
    decreases d,
{
    entries_events(d.entries)
}

/// The walk steps of a sequence of directory entries, in order.
pub open spec fn entries_events(s: Seq<DirEntryModel>) -> Seq<VisitEvent>
    decreases s,
{
    if s.len() == 0 {
        Seq::empty()
    } else {
        entries_events(s.drop_last()) + entry_events(s.last())
    }
}

/// The walk steps of one directory entry: a file is one step; a directory
/// is one step followed by the steps of its subtree.
pub open spec fn entry_events(e: DirEntryModel) -> Seq<VisitEvent>
    decreases e,
{
    match e.kind {
        DirEntryKindModel::File { id } => seq![VisitEvent::File { name: e.name, id }],
        DirEntryKindModel::Dir { id, dir } => seq![VisitEvent::Dir { name: e.name, id }]
            + dir_events(dir),
    }
}

/// A directory visitor.
///
/// `events` names the walk steps the visitor has observed so far; every
/// successful visit appends exactly its own step. A visitor is free to
/// fail, which aborts the walk.
pub trait Visitor {
    /// Error type
    type Error;

    /// The walk steps observed so far.
    spec fn events(&self) -> Seq<VisitEvent>;

    /// Visits a file.
    fn visit_file(&mut self, name: &AsciiStr, id: u16) -> (r: Result<(), Self::Error>)
        ensures
            r matches Ok(_) ==> final(self).events() == old(self).events().push(
                VisitEvent::File { name: name@, id },
            ),
    ;

    /// Visits a directory; the walk then descends into it.
    fn visit_dir(&mut self, name: &AsciiStr, id: u16) -> (r: Result<(), Self::Error>)
        ensures
            r matches Ok(_) ==> final(self).events() == old(self).events().push(
                VisitEvent::Dir { name: name@, id },
            ),
    ;
}

/// A recorded walk step, holding its name as an owned string.
#[derive(PartialEq, Eq, Clone, Debug)]
pub enum RecordedEvent {
    /// A file was visited.
    File {
        /// Name
        name: AsciiStr,
        /// File id
        id: u16,
    },
    /// A directory was entered.
    Dir {
        /// Name
        name: AsciiStr,
        /// Directory id
        id: u16,
    },
}

impl View for RecordedEvent {
    type V = VisitEvent;

    open spec fn view(&self) -> VisitEvent {
        match self {
            RecordedEvent::File { name, id } => VisitEvent::File { name: name@, id: *id },
            RecordedEvent::Dir { name, id } => VisitEvent::Dir { name: name@, id: *id },
        }
    }
}

/// A visitor that records every step and never fails.
#[derive(PartialEq, Eq, Clone, Debug)]
pub struct RecordingVisitor {
    /// All recorded steps, in walk order.
    pub steps: Vec<RecordedEvent>,
}

impl RecordingVisitor {
    /// A recorder with no steps yet.
    pub fn new() -> (r: Self)
        ensures
            r.events() == Seq::<VisitEvent>::empty(),
    {
        let r = Self { steps: Vec::new() };
        proof {
            assert(r.events() =~= Seq::<VisitEvent>::empty());
        }
        r
    }
}

impl Visitor for RecordingVisitor {
    type Error = ();

    open spec fn events(&self) -> Seq<VisitEvent> {
        Seq::new(self.steps@.len(), |i: int| self.steps@[i]@)
    }

    fn visit_file(&mut self, name: &AsciiStr, id: u16) -> (r: Result<(), ()>)
        ensures
            r matches Ok(_),
    {
        let step = RecordedEvent::File { name: name.clone(), id };
        self.steps.push(step);
        proof {
            assert(self.events() =~= old(self).events().push(
                VisitEvent::File { name: name@, id },
            ));
        }
        Ok(())
    }

    fn visit_dir(&mut self, name: &AsciiStr, id: u16) -> (r: Result<(), ()>)
        ensures
            r matches Ok(_),
    {
        let step = RecordedEvent::Dir { name: name.clone(), id };
        self.steps.push(step);
        proof {
            assert(self.events() =~= old(self).events().push(VisitEvent::Dir { name: name@, id }));
        }
        Ok(())
    }
}

} // verus!
