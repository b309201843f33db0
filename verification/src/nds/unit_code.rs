//! Unit code

use vstd::prelude::*;

verus! {

/// Unit code: which units the cartridge runs on.
#[derive(PartialEq, Eq, Clone, Copy, Debug)]
pub enum UnitCode {
    /// Runs on the base unit only.
    Nds,
    /// Runs on both unit generations.
    NdsDsi,
    /// Runs on the newer unit only.
    Dsi,
}

/// The unit code encoded by one byte; any byte besides the three known
/// codes yields nothing.
pub open spec fn unit_code_of(byte: u8) -> Option<UnitCode> {
    if byte == 0x0 {
        Some(UnitCode::Nds)
    } else if byte == 0x2 {
        Some(UnitCode::NdsDsi)
    } else if byte == 0x3 {
        Some(UnitCode::Dsi)
    } else {
        None
    }
}

impl UnitCode {
    /// Parses a unit code from its byte.
    pub fn from_bytes(byte: &u8) -> (r: Option<Self>)
        ensures
            r == unit_code_of(*byte),
    {
        match *byte {
            0x0 => Some(Self::Nds),
            0x2 => Some(Self::NdsDsi),
            0x3 => Some(Self::Dsi),
            _ => None,
        }
    }
}

} // verus!
