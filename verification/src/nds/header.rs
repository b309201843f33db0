//! Header

use crate::ascii;
use crate::ascii::{is_ascii_seq, trim_end_seq, AsciiStr};
use crate::nds::unit_code::{unit_code_of, UnitCode};
use vstd::bytes::{
    spec_u16_from_le_bytes, spec_u32_from_le_bytes, spec_u64_from_le_bytes, u16_from_le_bytes,
    u32_from_le_bytes, u64_from_le_bytes,
};
use vstd::prelude::*;
use vstd::slice::{slice_subrange, slice_to_vec};

verus! {

/// Error for [`Header::from_bytes`]
#[derive(PartialEq, Eq, Clone, Copy, Debug)]
pub enum FromBytesError {
    /// The game title was not ASCII.
    GameTitle(ascii::FromBytesError),
    /// The game code was not ASCII.
    GameCode(ascii::FromBytesError),
    /// The maker code was not ASCII.
    MakerCode(ascii::FromBytesError),
    /// The unit code byte was unknown.
    UnitCode,
}

/// Cartridge header: the 0x180-byte header at the start of a cartridge
/// image.
#[derive(PartialEq, Eq, Clone, Debug)]
pub struct Header {
    /// Game title
    pub game_title: AsciiStr,

    /// Game code
    pub game_code: AsciiStr,

    /// Maker code
    pub maker_code: AsciiStr,

    /// Unit code
    pub unit_code: UnitCode,

    /// Encryption seed select
    pub encryption_seed_select: u8,

    /// Device capacity
    pub device_capacity: u8,

    /// Reserved 1
    pub reserved1: Vec<u8>,

    /// Game revision
    pub game_revision: u16,

    /// ROM version
    pub rom_version: u8,

    /// Internal flags
    pub internal_flags: u8,

    /// Arm 9 load data
    pub arm9_load_data: ArmLoadData,

    /// Arm 7 load data
    pub arm7_load_data: ArmLoadData,

    /// File name table
    pub file_name_table: TableLoadData,

    /// File allocation table
    pub file_allocation_table: TableLoadData,

    /// Arm 9 overlay table
    pub arm9_overlay_table: TableLoadData,

    /// Arm 7 overlay table
    pub arm7_overlay_table: TableLoadData,

    /// Normal card control registers settings
    pub normal_card_control_register_settings: u32,

    /// Secure card control registers settings
    pub secure_card_control_register_settings: u32,

    /// Icon banner offset
    pub icon_banner_offset: u32,

    /// Secure area CRC
    pub secure_area_crc: u16,

    /// Secure transfer timeout
    pub secure_transfer_timeout: u16,

    /// Arm9 auto-load
    pub arm9_auto_load: u32,

    /// Arm7 auto-load
    pub arm7_auto_load: u32,

    /// Secure disable
    pub secure_disable: u64,

    /// NTR region rom size
    pub ntr_region_rom_size: u32,

    /// Reserved 2
    pub reserved2: Vec<u8>,

    /// Nintendo logo
    pub nintendo_logo: Vec<u8>,

    /// Nintendo logo crc
    pub nintendo_logo_crc: u16,

    /// Header crc
    pub header_crc: u16,

    /// Reserved for debugger
    pub reserved_debugger: Vec<u8>,

    /// Header size
    pub header_size: u32,
}

/// Table load data: where one of the image's tables lies.
#[derive(PartialEq, Eq, Clone, Copy, Debug)]
pub struct TableLoadData {
    /// Offset
    pub offset: u32,

    /// Length
    pub length: u32,
}

/// The load data encoded by an 8-byte record: a little-endian offset and
/// length.
pub open spec fn table_load_data_of(s: Seq<u8>) -> TableLoadData
    recommends
        s.len() == 8,
{
    TableLoadData {
        offset: spec_u32_from_le_bytes(s.subrange(0, 4)),
        length: spec_u32_from_le_bytes(s.subrange(4, 8)),
    }
}

impl TableLoadData {
    /// Parses a table load data from its 8 bytes.
    pub fn from_bytes(bytes: &[u8]) -> (r: Self)
        requires
            bytes@.len() == 8,
        ensures
            r == table_load_data_of(bytes@),
    {
        Self {
            offset: u32_from_le_bytes(slice_subrange(bytes, 0, 4)),
            length: u32_from_le_bytes(slice_subrange(bytes, 4, 8)),
        }
    }
}

/// Arm load data: where one of the processors' code lies and loads.
#[derive(PartialEq, Eq, Clone, Copy, Debug)]
pub struct ArmLoadData {
    /// Offset
    pub offset: u32,

    /// Entry address
    pub entry_address: u32,

    /// Load address
    pub load_address: u32,

    /// Size
    pub size: u32,
}

/// The load data encoded by a 16-byte record: a little-endian offset,
/// entry address, load address and size.
pub open spec fn arm_load_data_of(s: Seq<u8>) -> ArmLoadData
    recommends
        s.len() == 16,
{
    ArmLoadData {
        offset: spec_u32_from_le_bytes(s.subrange(0, 4)),
        entry_address: spec_u32_from_le_bytes(s.subrange(4, 8)),
        load_address: spec_u32_from_le_bytes(s.subrange(8, 12)),
        size: spec_u32_from_le_bytes(s.subrange(12, 16)),
    }
}

impl ArmLoadData {
    /// Parses load data from its 16 bytes.
    pub fn from_bytes(bytes: &[u8]) -> (r: Self)
        requires
            bytes@.len() == 16,
        ensures
            r == arm_load_data_of(bytes@),
    {
        Self {
            offset: u32_from_le_bytes(slice_subrange(bytes, 0, 4)),
            entry_address: u32_from_le_bytes(slice_subrange(bytes, 4, 8)),
            load_address: u32_from_le_bytes(slice_subrange(bytes, 8, 12)),
            size: u32_from_le_bytes(slice_subrange(bytes, 12, 16)),
        }
    }
}

impl Header {
    /// Parses a cartridge header from its 0x180 bytes. The three name
    /// fields must be ASCII and the unit code must be known, checked in
    /// field order; everything else is taken as it stands. The game title
    /// is trimmed of trailing `0x00` padding after the ASCII check.
    pub fn from_bytes(bytes: &[u8]) -> (r: Result<Self, FromBytesError>)
        requires
            bytes@.len() == 0x180,
        ensures
            match r {
                Ok(h) => {
                    &&& is_ascii_seq(bytes@.subrange(0x0, 0xc))
                    &&& is_ascii_seq(bytes@.subrange(0xc, 0x10))
                    &&& is_ascii_seq(bytes@.subrange(0x10, 0x12))
                    &&& unit_code_of(bytes@[0x12]) == Some(h.unit_code)
                    &&& h.game_title@ == trim_end_seq(bytes@.subrange(0x0, 0xc), 0x00)
                    &&& h.game_code@ == bytes@.subrange(0xc, 0x10)
                    &&& h.maker_code@ == bytes@.subrange(0x10, 0x12)
                    &&& h.encryption_seed_select == bytes@[0x13]
                    &&& h.device_capacity == bytes@[0x14]
                    &&& h.reserved1@ == bytes@.subrange(0x15, 0x1c)
                    &&& h.game_revision == spec_u16_from_le_bytes(bytes@.subrange(0x1c, 0x1e))
                    &&& h.rom_version == bytes@[0x1e]
                    &&& h.internal_flags == bytes@[0x1f]
                    &&& h.arm9_load_data == arm_load_data_of(bytes@.subrange(0x20, 0x30))
                    &&& h.arm7_load_data == arm_load_data_of(bytes@.subrange(0x30, 0x40))
                    &&& h.file_name_table == table_load_data_of(bytes@.subrange(0x40, 0x48))
                    &&& h.file_allocation_table == table_load_data_of(
                        bytes@.subrange(0x48, 0x50),
                    )
                    &&& h.arm9_overlay_table == table_load_data_of(bytes@.subrange(0x50, 0x58))
                    &&& h.arm7_overlay_table == table_load_data_of(bytes@.subrange(0x58, 0x60))
                    &&& h.normal_card_control_register_settings == spec_u32_from_le_bytes(
                        bytes@.subrange(0x60, 0x64),
                    )
                    &&& h.secure_card_control_register_settings == spec_u32_from_le_bytes(
                        bytes@.subrange(0x64, 0x68),
                    )
                    &&& h.icon_banner_offset == spec_u32_from_le_bytes(
                        bytes@.subrange(0x68, 0x6c),
                    )
                    &&& h.secure_area_crc == spec_u16_from_le_bytes(bytes@.subrange(0x6c, 0x6e))
                    &&& h.secure_transfer_timeout == spec_u16_from_le_bytes(
                        bytes@.subrange(0x6e, 0x70),
                    )
                    &&& h.arm9_auto_load == spec_u32_from_le_bytes(bytes@.subrange(0x70, 0x74))
                    &&& h.arm7_auto_load == spec_u32_from_le_bytes(bytes@.subrange(0x74, 0x78))
                    &&& h.secure_disable == spec_u64_from_le_bytes(bytes@.subrange(0x78, 0x80))
                    &&& h.ntr_region_rom_size == spec_u32_from_le_bytes(
                        bytes@.subrange(0x80, 0x84),
                    )
                    &&& h.header_size == spec_u32_from_le_bytes(bytes@.subrange(0x84, 0x88))
                    &&& h.reserved2@ == bytes@.subrange(0x88, 0xc0)
                    &&& h.nintendo_logo@ == bytes@.subrange(0xc0, 0x15c)
                    &&& h.nintendo_logo_crc == spec_u16_from_le_bytes(
                        bytes@.subrange(0x15c, 0x15e),
                    )
                    &&& h.header_crc == spec_u16_from_le_bytes(bytes@.subrange(0x15e, 0x160))
                    &&& h.reserved_debugger@ == bytes@.subrange(0x160, 0x180)
                },
                Err(FromBytesError::GameTitle(_)) => !is_ascii_seq(bytes@.subrange(0x0, 0xc)),
                Err(FromBytesError::GameCode(_)) => is_ascii_seq(bytes@.subrange(0x0, 0xc))
                    && !is_ascii_seq(bytes@.subrange(0xc, 0x10)),
                Err(FromBytesError::MakerCode(_)) => is_ascii_seq(bytes@.subrange(0x0, 0xc))
                    && is_ascii_seq(bytes@.subrange(0xc, 0x10)) && !is_ascii_seq(
                    bytes@.subrange(0x10, 0x12),
                ),
                Err(FromBytesError::UnitCode) => is_ascii_seq(bytes@.subrange(0x0, 0xc))
                    && is_ascii_seq(bytes@.subrange(0xc, 0x10)) && is_ascii_seq(
                    bytes@.subrange(0x10, 0x12),
                ) && unit_code_of(bytes@[0x12]) is None,
            },
    {
        let game_title = match AsciiStr::from_bytes(slice_subrange(bytes, 0x0, 0xc)) {
            Ok(s) => s.trimmed_end(0x00),
            Err(e) => return Err(FromBytesError::GameTitle(e)),
        };
        let game_code = match AsciiStr::from_bytes(slice_subrange(bytes, 0xc, 0x10)) {
            Ok(s) => s,
            Err(e) => return Err(FromBytesError::GameCode(e)),
        };
        let maker_code = match AsciiStr::from_bytes(slice_subrange(bytes, 0x10, 0x12)) {
            Ok(s) => s,
            Err(e) => return Err(FromBytesError::MakerCode(e)),
        };
        let unit_code = match UnitCode::from_bytes(&bytes[0x12]) {
            Some(c) => c,
            None => return Err(FromBytesError::UnitCode),
        };

        Ok(
            Self {
                game_title,
                game_code,
                maker_code,
                unit_code,
                encryption_seed_select: bytes[0x13],
                device_capacity: bytes[0x14],
                reserved1: slice_to_vec(slice_subrange(bytes, 0x15, 0x1c)),
                game_revision: u16_from_le_bytes(slice_subrange(bytes, 0x1c, 0x1e)),
                rom_version: bytes[0x1e],
                internal_flags: bytes[0x1f],
                arm9_load_data: ArmLoadData::from_bytes(slice_subrange(bytes, 0x20, 0x30)),
                arm7_load_data: ArmLoadData::from_bytes(slice_subrange(bytes, 0x30, 0x40)),
                file_name_table: TableLoadData::from_bytes(slice_subrange(bytes, 0x40, 0x48)),
                file_allocation_table: TableLoadData::from_bytes(
                    slice_subrange(bytes, 0x48, 0x50),
                ),
                arm9_overlay_table: TableLoadData::from_bytes(slice_subrange(bytes, 0x50, 0x58)),
                arm7_overlay_table: TableLoadData::from_bytes(slice_subrange(bytes, 0x58, 0x60)),
                normal_card_control_register_settings: u32_from_le_bytes(
                    slice_subrange(bytes, 0x60, 0x64),
                ),
                secure_card_control_register_settings: u32_from_le_bytes(
                    slice_subrange(bytes, 0x64, 0x68),
                ),
                icon_banner_offset: u32_from_le_bytes(slice_subrange(bytes, 0x68, 0x6c)),
                secure_area_crc: u16_from_le_bytes(slice_subrange(bytes, 0x6c, 0x6e)),
                secure_transfer_timeout: u16_from_le_bytes(slice_subrange(bytes, 0x6e, 0x70)),
                arm9_auto_load: u32_from_le_bytes(slice_subrange(bytes, 0x70, 0x74)),
                arm7_auto_load: u32_from_le_bytes(slice_subrange(bytes, 0x74, 0x78)),
                secure_disable: u64_from_le_bytes(slice_subrange(bytes, 0x78, 0x80)),
                ntr_region_rom_size: u32_from_le_bytes(slice_subrange(bytes, 0x80, 0x84)),
                header_size: u32_from_le_bytes(slice_subrange(bytes, 0x84, 0x88)),
                reserved2: slice_to_vec(slice_subrange(bytes, 0x88, 0xc0)),
                nintendo_logo: slice_to_vec(slice_subrange(bytes, 0xc0, 0x15c)),
                nintendo_logo_crc: u16_from_le_bytes(slice_subrange(bytes, 0x15c, 0x15e)),
                header_crc: u16_from_le_bytes(slice_subrange(bytes, 0x15e, 0x160)),
                reserved_debugger: slice_to_vec(slice_subrange(bytes, 0x160, 0x180)),
            },
        )
    }
}

} // verus!
