//! ASCII strings
//!
//! Entry names in the tables are plain ASCII. [`AsciiStr`] owns such a name
//! as bytes and can only be built through [`AsciiStr::from_bytes`], which
//! rejects any byte outside the ASCII range.

use vstd::prelude::*;
use vstd::slice::{slice_subrange, slice_to_vec};

verus! {

/// Error for [`AsciiStr::from_bytes`]
#[derive(PartialEq, Eq, Clone, Copy, Debug)]
pub enum FromBytesError {
    /// A byte outside the ASCII range was found.
    NotAscii,
}

/// Whether every byte of `s` is ASCII.
pub open spec fn is_ascii_seq(s: Seq<u8>) -> bool {
    forall|i: int| 0 <= i < s.len() ==> s[i] < 0x80
}

/// `s` with every trailing occurrence of `c` removed.
pub open spec fn trim_end_seq(s: Seq<u8>, c: u8) -> Seq<u8>
    decreases s.len(),
{
    if s.len() > 0 && s.last() == c {
        trim_end_seq(s.drop_last(), c)
    } else {
        s
    }
}

/// An owned ASCII string.
#[derive(PartialEq, Eq, Debug)]
pub struct AsciiStr {
    bytes: Vec<u8>,
}

impl View for AsciiStr {
    type V = Seq<u8>;

    closed spec fn view(&self) -> Seq<u8> {
        self.bytes@
    }
}

impl Clone for AsciiStr {
    /// Clones the string, keeping its bytes.
    fn clone(&self) -> (r: Self)
        ensures
            r@ == self@,
    {
        Self { bytes: slice_to_vec(self.bytes.as_slice()) }
    }
}

impl AsciiStr {
    /// Builds an ASCII string from bytes; fails if any byte is not ASCII.
    pub fn from_bytes(bytes: &[u8]) -> (r: Result<Self, FromBytesError>)
        ensures
            match r {
                Ok(s) => is_ascii_seq(bytes@) && s@ == bytes@,
                Err(e) => !is_ascii_seq(bytes@) && e == FromBytesError::NotAscii,
            },
    {
        let mut i: usize = 0;
        while i < bytes.len()
            invariant
                i <= bytes@.len(),
                forall|j: int| 0 <= j < i ==> bytes@[j] < 0x80,
            decreases bytes@.len() - i,
        {
            if bytes[i] >= 0x80 {
                return Err(FromBytesError::NotAscii);
            }
            i = i + 1;
        }
        Ok(Self { bytes: slice_to_vec(bytes) })
    }

    /// The string's bytes.
    pub fn as_bytes(&self) -> (r: &[u8])
        ensures
            r@ == self@,
    {
        self.bytes.as_slice()
    }

    /// The string's length in bytes.
    pub fn len(&self) -> (r: usize)
        ensures
            r == self@.len(),
    {
        self.bytes.len()
    }

    /// A copy of the string with every trailing occurrence of `c` removed.
    pub fn trimmed_end(&self, c: u8) -> (r: AsciiStr)
        ensures
            r@ == trim_end_seq(self@, c),
    {
        let mut end: usize = self.bytes.len();
        proof {
            assert(self@.subrange(0, self@.len() as int) =~= self@);
        }
        while end > 0 && *self.bytes.get(end - 1).unwrap() == c
            invariant
                end <= self@.len(),
                trim_end_seq(self@, c) == trim_end_seq(self@.subrange(0, end as int), c),
            decreases end,
        {
            proof {
                assert(self@.subrange(0, end as int).drop_last() =~= self@.subrange(
                    0,
                    end - 1,
                ));
            }
            end = end - 1;
        }
        proof {
            assert(trim_end_seq(self@.subrange(0, end as int), c) == self@.subrange(
                0,
                end as int,
            ));
        }
        Self { bytes: slice_to_vec(slice_subrange(self.bytes.as_slice(), 0, end)) }
    }
}

} // verus!
