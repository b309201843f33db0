//! Tests for the cartridge header, the generic header and the extraction
//! part table.

use ndsz::ascii::{self, AsciiStr};
use ndsz::extract::{rom_parts, RomPartKind};
use ndsz::generic_header;
use ndsz::nds::header::{ArmLoadData, FromBytesError, Header, TableLoadData};
use ndsz::nds::UnitCode;

/// A cartridge header with recognizable values in every field.
fn example_header_bytes() -> Vec<u8> {
    let mut bytes = vec![0u8; 0x180];
    bytes[0x0..0x4].copy_from_slice(b"GAME");
    bytes[0xc..0x10].copy_from_slice(b"ABCD");
    bytes[0x10..0x12].copy_from_slice(b"01");
    bytes[0x12] = 0x02; // unit code
    bytes[0x13] = 0x05; // encryption seed select
    bytes[0x14] = 0x07; // device capacity
    bytes[0x15..0x1c].copy_from_slice(&[1, 2, 3, 4, 5, 6, 7]);
    bytes[0x1c..0x1e].copy_from_slice(&0x0102u16.to_le_bytes());
    bytes[0x1e] = 9; // rom version
    bytes[0x1f] = 0x40; // internal flags
    bytes[0x20..0x24].copy_from_slice(&0x4000u32.to_le_bytes()); // arm9 offset
    bytes[0x2c..0x30].copy_from_slice(&0x100u32.to_le_bytes()); // arm9 size
    bytes[0x30..0x34].copy_from_slice(&0x8000u32.to_le_bytes()); // arm7 offset
    bytes[0x3c..0x40].copy_from_slice(&0x200u32.to_le_bytes()); // arm7 size
    bytes[0x40..0x48].copy_from_slice(&[0x00, 0x90, 0x00, 0x00, 0x40, 0x00, 0x00, 0x00]); // fnt
    bytes[0x48..0x50].copy_from_slice(&[0x00, 0xa0, 0x00, 0x00, 0x20, 0x00, 0x00, 0x00]); // fat
    bytes[0x50..0x58].copy_from_slice(&[0x00, 0xb0, 0x00, 0x00, 0x10, 0x00, 0x00, 0x00]); // ov9
    bytes[0x58..0x60].copy_from_slice(&[0x00, 0xc0, 0x00, 0x00, 0x08, 0x00, 0x00, 0x00]); // ov7
    bytes[0x68..0x6c].copy_from_slice(&0x7000u32.to_le_bytes()); // icon banner offset
    bytes[0x78..0x80].copy_from_slice(&0x1122334455667788u64.to_le_bytes()); // secure disable
    bytes[0x84..0x88].copy_from_slice(&0x4000u32.to_le_bytes()); // header size
    bytes[0xc0..0x15c].fill(0x99); // logo
    bytes[0x15c..0x15e].copy_from_slice(&0xabcdu16.to_le_bytes());
    bytes[0x15e..0x160].copy_from_slice(&0x1234u16.to_le_bytes());
    bytes[0x160..0x180].fill(0x66);
    bytes
}

#[test]
fn cartridge_header_reads_every_field() {
    let header = Header::from_bytes(&example_header_bytes()).unwrap();
    assert_eq!(header.game_title.as_bytes(), b"GAME"); // null padding trimmed
    assert_eq!(header.game_code.as_bytes(), b"ABCD");
    assert_eq!(header.maker_code.as_bytes(), b"01");
    assert_eq!(header.unit_code, UnitCode::NdsDsi);
    assert_eq!(header.encryption_seed_select, 0x05);
    assert_eq!(header.device_capacity, 0x07);
    assert_eq!(header.reserved1, [1, 2, 3, 4, 5, 6, 7]);
    assert_eq!(header.game_revision, 0x0102);
    assert_eq!(header.rom_version, 9);
    assert_eq!(header.internal_flags, 0x40);
    assert_eq!(
        header.arm9_load_data,
        ArmLoadData { offset: 0x4000, entry_address: 0, load_address: 0, size: 0x100 },
    );
    assert_eq!(
        header.arm7_load_data,
        ArmLoadData { offset: 0x8000, entry_address: 0, load_address: 0, size: 0x200 },
    );
    assert_eq!(header.file_name_table, TableLoadData { offset: 0x9000, length: 0x40 });
    assert_eq!(header.file_allocation_table, TableLoadData { offset: 0xa000, length: 0x20 });
    assert_eq!(header.arm9_overlay_table, TableLoadData { offset: 0xb000, length: 0x10 });
    assert_eq!(header.arm7_overlay_table, TableLoadData { offset: 0xc000, length: 0x08 });
    assert_eq!(header.icon_banner_offset, 0x7000);
    assert_eq!(header.secure_disable, 0x1122334455667788);
    assert_eq!(header.header_size, 0x4000);
    assert_eq!(header.nintendo_logo, vec![0x99; 0x9c]);
    assert_eq!(header.nintendo_logo_crc, 0xabcd);
    assert_eq!(header.header_crc, 0x1234);
    assert_eq!(header.reserved_debugger, vec![0x66; 0x20]);
}

#[test]
fn cartridge_header_rejects_non_ascii_title() {
    let mut bytes = example_header_bytes();
    bytes[0x2] = 0xff;
    assert_eq!(
        Header::from_bytes(&bytes).unwrap_err(),
        FromBytesError::GameTitle(ascii::FromBytesError::NotAscii),
    );
}

#[test]
fn cartridge_header_rejects_non_ascii_game_code() {
    let mut bytes = example_header_bytes();
    bytes[0xd] = 0x80;
    assert_eq!(
        Header::from_bytes(&bytes).unwrap_err(),
        FromBytesError::GameCode(ascii::FromBytesError::NotAscii),
    );
}

#[test]
fn cartridge_header_rejects_non_ascii_maker_code() {
    let mut bytes = example_header_bytes();
    bytes[0x11] = 0x81;
    assert_eq!(
        Header::from_bytes(&bytes).unwrap_err(),
        FromBytesError::MakerCode(ascii::FromBytesError::NotAscii),
    );
}

#[test]
fn cartridge_header_rejects_unknown_unit_code() {
    let mut bytes = example_header_bytes();
    bytes[0x12] = 0x09;
    assert_eq!(Header::from_bytes(&bytes).unwrap_err(), FromBytesError::UnitCode);
}

#[test]
fn unit_code_from_bytes_knows_three_codes() {
    assert_eq!(UnitCode::from_bytes(&0x0), Some(UnitCode::Nds));
    assert_eq!(UnitCode::from_bytes(&0x2), Some(UnitCode::NdsDsi));
    assert_eq!(UnitCode::from_bytes(&0x3), Some(UnitCode::Dsi));
    assert_eq!(UnitCode::from_bytes(&0x1), None);
    assert_eq!(UnitCode::from_bytes(&0xff), None);
}

#[test]
fn rom_parts_lists_fixed_and_header_ranges() {
    let header = Header::from_bytes(&example_header_bytes()).unwrap();
    let parts = rom_parts(&header);
    assert_eq!(parts.len(), 8);
    assert_eq!((parts[0].offset, parts[0].size, parts[0].kind), (0x15, 0x7, RomPartKind::Reserved1));
    assert_eq!((parts[1].offset, parts[1].size, parts[1].kind), (0x88, 0x38, RomPartKind::Reserved2));
    assert_eq!(
        (parts[2].offset, parts[2].size, parts[2].kind),
        (0x160, 0x20, RomPartKind::ReservedDebugger),
    );
    assert_eq!(
        (parts[3].offset, parts[3].size, parts[3].kind),
        (0xc0, 0x9c, RomPartKind::NintendoLogo),
    );
    assert_eq!(
        (parts[4].offset, parts[4].size, parts[4].kind),
        (0x4000, 0x100, RomPartKind::Arm9LoadData),
    );
    assert_eq!(
        (parts[5].offset, parts[5].size, parts[5].kind),
        (0x8000, 0x200, RomPartKind::Arm7LoadData),
    );
    assert_eq!(
        (parts[6].offset, parts[6].size, parts[6].kind),
        (0xb000, 0x10, RomPartKind::Arm9OverlayTable),
    );
    assert_eq!(
        (parts[7].offset, parts[7].size, parts[7].kind),
        (0xc000, 0x08, RomPartKind::Arm7OverlayTable),
    );
}

#[test]
fn generic_header_from_bytes() {
    let mut bytes = Vec::new();
    bytes.extend_from_slice(b"WXYZ");
    bytes.extend_from_slice(&0xfffe0001u32.to_le_bytes());
    bytes.extend_from_slice(&0x1000u32.to_le_bytes());
    bytes.extend_from_slice(&[0x10, 0x00, 0x02, 0x00]);
    let header = generic_header::Header::from_bytes(&bytes).unwrap();
    assert_eq!(&header.magic, b"WXYZ");
    assert_eq!(header.section_size, 0x1000);
    assert_eq!(header.sub_sections_len, 2);
}

#[test]
fn generic_header_rejects_wrong_constant() {
    let mut bytes = vec![0u8; 16];
    bytes[4..8].copy_from_slice(&0x11223344u32.to_le_bytes());
    assert_eq!(
        generic_header::Header::from_bytes(&bytes).unwrap_err(),
        generic_header::FromBytesError::WrongConstant { constant: 0x11223344 },
    );
}

#[test]
fn generic_header_rejects_wrong_header_size() {
    let mut bytes = vec![0u8; 16];
    bytes[4..8].copy_from_slice(&0xfffe0001u32.to_le_bytes());
    bytes[12..14].copy_from_slice(&0x20u16.to_le_bytes());
    assert_eq!(
        generic_header::Header::from_bytes(&bytes).unwrap_err(),
        generic_header::FromBytesError::WrongHeaderSize { header_size: 0x20 },
    );
}

#[test]
fn ascii_str_rejects_non_ascii_bytes() {
    assert!(AsciiStr::from_bytes(b"hello").is_ok());
    assert_eq!(AsciiStr::from_bytes(&[0x41, 0x80]).unwrap_err(), ascii::FromBytesError::NotAscii);
}

#[test]
fn ascii_str_trims_trailing_padding() {
    let s = AsciiStr::from_bytes(&[b'a', b'b', 0, 0]).unwrap();
    assert_eq!(s.trimmed_end(0).as_bytes(), b"ab");
    assert_eq!(s.as_bytes(), [b'a', b'b', 0, 0]);
    let all = AsciiStr::from_bytes(&[0, 0]).unwrap();
    assert_eq!(all.trimmed_end(0).len(), 0);
}
