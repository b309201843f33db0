//! Sub table entry

use crate::ascii;
use crate::ascii::{is_ascii_seq, AsciiStr};
use vstd::bytes::{spec_u16_from_le_bytes, u16_from_le_bytes};
use vstd::prelude::*;
use vstd::slice::slice_subrange;

verus! {

/// Error for [`SubTableEntry::from_reader`]
#[derive(PartialEq, Eq, Clone, Copy, Debug)]
pub enum FromReaderError {
    /// The name ran past the end of the region.
    ReadName,
    /// The name could not be parsed.
    ParseName(ascii::FromBytesError),
    /// The region ended before a type/length tag.
    ReadTypeLen,
    /// The directory id ran past the end of the region.
    ReadDirId,
    /// The reserved tag `0x80` was found.
    ReservedDirKind,
}

/// Sub table entry kind
#[derive(PartialEq, Eq, Clone, Copy, Debug)]
pub enum SubTableEntryKind {
    /// A file
    File,
    /// A child directory, carrying its directory id
    Dir { id: u16 },
}

/// Sub table entry: a name together with its kind.
#[derive(PartialEq, Eq, Clone, Debug)]
pub struct SubTableEntry {
    /// Name
    pub name: AsciiStr,

    /// Kind
    pub kind: SubTableEntryKind,
}

/// The mathematical value of a decoded sub table entry.
pub struct SubTableEntryModel {
    /// Name bytes
    pub name: Seq<u8>,
    /// Kind
    pub kind: SubTableEntryKind,
}

impl View for SubTableEntry {
    type V = SubTableEntryModel;

    open spec fn view(&self) -> SubTableEntryModel {
        SubTableEntryModel { name: self.name@, kind: self.kind }
    }
}

/// One step of decoding a sub table region `s` at position `pos`:
/// a one-byte type/length tag `t`, then
/// - `t == 0x00`: the table ends here;
/// - `0x01 <= t <= 0x7f`: a file entry whose name is the next `t` bytes;
/// - `0x81 <= t <= 0xff`: a directory entry whose name is the next
///   `t - 0x80` bytes, followed by a 2-byte little-endian directory id;
/// - `t == 0x80`: reserved, a format error.
///
/// A name must be ASCII and every read must stay inside the region.
pub open spec fn sub_table_step(s: Seq<u8>, pos: int) -> SubTableStep {
    if !(0 <= pos < s.len()) {
        SubTableStep::Fail { err: FromReaderError::ReadTypeLen }
    } else {
        let t = s[pos];
        if t == 0x00 {
            SubTableStep::End
        } else if t == 0x80 {
            SubTableStep::Fail { err: FromReaderError::ReservedDirKind }
        } else {
            let name_len = if t < 0x80 {
                t as int
            } else {
                t - 0x80
            };
            if pos + 1 + name_len > s.len() {
                SubTableStep::Fail { err: FromReaderError::ReadName }
            } else {
                let name = s.subrange(pos + 1, pos + 1 + name_len);
                if !is_ascii_seq(name) {
                    SubTableStep::Fail {
                        err: FromReaderError::ParseName(ascii::FromBytesError::NotAscii),
                    }
                } else if t < 0x80 {
                    SubTableStep::Entry {
                        entry: SubTableEntryModel { name, kind: SubTableEntryKind::File },
                        next: pos + 1 + name_len,
                    }
                } else if pos + 1 + name_len + 2 > s.len() {
                    SubTableStep::Fail { err: FromReaderError::ReadDirId }
                } else {
                    SubTableStep::Entry {
                        entry: SubTableEntryModel {
                            name,
                            kind: SubTableEntryKind::Dir {
                                id: spec_u16_from_le_bytes(
                                    s.subrange(pos + 1 + name_len, pos + 1 + name_len + 2),
                                ),
                            },
                        },
                        next: pos + 1 + name_len + 2,
                    }
                }
            }
        }
    }
}

/// What decoding finds at one position of a sub table region.
pub enum SubTableStep {
    /// The `0x00` terminator: the sub table ends here.
    End,
    /// One decoded entry, and the position just past it.
    Entry { entry: SubTableEntryModel, next: int },
    /// Decoding fails.
    Fail { err: FromReaderError },
}

impl SubTableEntry {
    /// Decodes one entry at `*pos` in a sub table region, advancing `*pos`
    /// past it. Returns `Ok(None)` at the `0x00` terminator; on an error,
    /// `*pos` is left unchanged.
    pub fn from_reader(bytes: &[u8], pos: &mut usize) -> (r: Result<
        Option<SubTableEntry>,
        FromReaderError,
    >)
        requires
            *old(pos) <= bytes@.len(),
        ensures
            match r {
                Ok(Some(e)) => sub_table_step(bytes@, *old(pos) as int) matches SubTableStep::Entry {
                    entry,
                    next,
                } && e@ == entry && *final(pos) == next,
                Ok(None) => sub_table_step(bytes@, *old(pos) as int) is End && *final(pos) == *old(
                    pos,
                ) + 1,
                Err(err) => sub_table_step(bytes@, *old(pos) as int) matches SubTableStep::Fail {
                    err: e,
                } && err == e && *final(pos) == *old(pos),
            },
    {
        let start = *pos;
        if start >= bytes.len() {
            return Err(FromReaderError::ReadTypeLen);
        }
        let t = bytes[start];
        if t == 0x00 {
            *pos = start + 1;
            return Ok(None);
        }
        if t == 0x80 {
            return Err(FromReaderError::ReservedDirKind);
        }
        let name_len: usize = if t < 0x80 {
            t as usize
        } else {
            (t - 0x80) as usize
        };
        if bytes.len() - (start + 1) < name_len {
            return Err(FromReaderError::ReadName);
        }
        let name_bytes = slice_subrange(bytes, start + 1, start + 1 + name_len);
        let name = match AsciiStr::from_bytes(name_bytes) {
            Ok(name) => name,
            Err(err) => return Err(FromReaderError::ParseName(err)),
        };
        if t < 0x80 {
            *pos = start + 1 + name_len;
            Ok(Some(SubTableEntry { name, kind: SubTableEntryKind::File }))
        } else {
            if bytes.len() - (start + 1 + name_len) < 2 {
                return Err(FromReaderError::ReadDirId);
            }
            let id = u16_from_le_bytes(
                slice_subrange(bytes, start + 1 + name_len, start + 1 + name_len + 2),
            );
            *pos = start + 1 + name_len + 2;
            Ok(Some(SubTableEntry { name, kind: SubTableEntryKind::Dir { id } }))
        }
    }
}

} // verus!
