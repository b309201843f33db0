//! Chunk name checks

use vstd::prelude::*;

verus! {

/// Whether the region starts with the four given chunk name bytes.
pub(crate) fn magic_matches(bytes: &[u8], m0: u8, m1: u8, m2: u8, m3: u8) -> (r: bool)
    requires
        bytes@.len() >= 4,
    ensures
        r == (bytes@.subrange(0, 4) == seq![m0, m1, m2, m3]),
{
    let r = bytes[0] == m0 && bytes[1] == m1 && bytes[2] == m2 && bytes[3] == m3;
    proof {
        let s = bytes@.subrange(0, 4);
        let m = seq![m0, m1, m2, m3];
        assert(s[0] == bytes@[0] && s[1] == bytes@[1] && s[2] == bytes@[2] && s[3] == bytes@[3]);
        assert(m[0] == m0 && m[1] == m1 && m[2] == m2 && m[3] == m3);
        if r {
            assert(s =~= m);
        }
    }
    r
}

} // verus!
