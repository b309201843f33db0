//! Cartridge image decoding: the outer ROM header that locates the
//! allocation and name tables, among the image's other parts.

pub mod header;
pub mod unit_code;

pub use header::Header;
pub use unit_code::UnitCode;
