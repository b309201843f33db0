//! Fnt sub table

pub mod entry;

pub use entry::{SubTableEntry, SubTableEntryKind, SubTableEntryModel};

use entry::{sub_table_step, SubTableStep};
use vstd::prelude::*;

verus! {

/// Error for [`SubTable::from_reader`]
#[derive(PartialEq, Eq, Clone, Copy, Debug)]
pub enum FromReaderError {
    /// An entry could not be decoded.
    ReadEntry(entry::FromReaderError),
}

/// The mathematical values of a sequence of decoded entries.
pub open spec fn entry_models(entries: Seq<SubTableEntry>) -> Seq<SubTableEntryModel> {
    Seq::new(entries.len(), |i: int| entries[i]@)
}

/// The entries of the sub table held in region `s` from position `pos` on:
/// entries decoded one after the other until the `0x00` terminator, each
/// one as [`sub_table_step`] gives it.
pub open spec fn sub_table_entries(s: Seq<u8>, pos: int) -> Result<
    Seq<SubTableEntryModel>,
    entry::FromReaderError,
>
    decreases s.len() - pos,
{
    match sub_table_step(s, pos) {
        SubTableStep::End => Ok(Seq::empty()),
        SubTableStep::Fail { err } => Err(err),
        SubTableStep::Entry { entry, next } => match sub_table_entries(s, next) {
            Ok(rest) => Ok(seq![entry] + rest),
            Err(err) => Err(err),
        },
    }
}

/// A `0x00` tag ends the sub table at once: decoding from the terminator
/// yields no further entries, whatever bytes follow it in the region.
pub proof fn lemma_terminator_stops_decoding(s: Seq<u8>, pos: int)
    requires
        0 <= pos < s.len(),
        s[pos] == 0x00,
    ensures
        sub_table_entries(s, pos) == Ok::<_, entry::FromReaderError>(
            Seq::<SubTableEntryModel>::empty(),
        ),
{
}

/// A reserved `0x80` tag makes decoding fail the moment it is reached.
pub proof fn lemma_reserved_tag_fails(s: Seq<u8>, pos: int)
    requires
        0 <= pos < s.len(),
        s[pos] == 0x80,
    ensures
        sub_table_entries(s, pos) == Err::<Seq<SubTableEntryModel>, _>(
            entry::FromReaderError::ReservedDirKind,
        ),
{
}

/// Sub table: one directory's locally ordered list of named entries.
#[derive(PartialEq, Eq, Clone, Debug)]
pub struct SubTable {
    /// All entries, in on-disk order.
    pub entries: Vec<SubTableEntry>,
}

impl View for SubTable {
    type V = Seq<SubTableEntryModel>;

    open spec fn view(&self) -> Seq<SubTableEntryModel> {
        entry_models(self.entries@)
    }
}

impl SubTable {
    /// Decodes a sub table from the bytes of its region, entry by entry,
    /// until the `0x00` terminator; bytes after the terminator are ignored.
    pub fn from_reader(bytes: &[u8]) -> (r: Result<Self, FromReaderError>)
        ensures
            match r {
                Ok(st) => sub_table_entries(bytes@, 0) == Ok::<_, entry::FromReaderError>(st@),
                Err(FromReaderError::ReadEntry(err)) => sub_table_entries(bytes@, 0) == Err::<
                    Seq<SubTableEntryModel>,
                    _,
                >(err),
            },
    {
        let mut entries: Vec<SubTableEntry> = Vec::new();
        let mut pos: usize = 0;
        loop
            invariant
                pos <= bytes@.len(),
                sub_table_entries(bytes@, 0) == (match sub_table_entries(bytes@, pos as int) {
                    Ok(rest) => Ok::<_, entry::FromReaderError>(entry_models(entries@) + rest),
                    Err(err) => Err(err),
                }),
            decreases bytes@.len() - pos,
        {
            let ghost prev_entries = entries@;
            let ghost prev_pos = pos as int;
            match SubTableEntry::from_reader(bytes, &mut pos) {
                Ok(Some(e)) => {
                    entries.push(e);
                    proof {
                        assert(entry_models(prev_entries.push(e)) =~= entry_models(prev_entries)
                            + seq![e@]);
                        if let Ok(rest) = sub_table_entries(bytes@, pos as int) {
                            assert((entry_models(prev_entries) + seq![e@]) + rest =~= entry_models(
                                prev_entries,
                            ) + (seq![e@] + rest));
                        }
                    }
                },
                Ok(None) => {
                    proof {
                        assert(entry_models(entries@) + Seq::<SubTableEntryModel>::empty()
                            =~= entry_models(entries@));
                    }
                    return Ok(Self { entries });
                },
                Err(err) => {
                    return Err(FromReaderError::ReadEntry(err));
                },
            }
        }
    }
}

} // verus!
