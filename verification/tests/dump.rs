use humility::dump::DumpCore;
use humility::elf::parse_load_segments;
use humility::errors::Error;
use humility::regmap::RegMap;
use humility::regs::Register;
use humility::errors::ErrorKind;
use humility::regs_arm::ARMRegister;

/// A minimal 32-bit little-endian image with one load segment: base
/// 0x2000_0000, eight bytes in memory, four bytes stored in the file.
fn tiny_image() -> Vec<u8> {
    let mut b = vec![0u8; 52];
    b[0] = 0x7f;
    b[1] = b'E';
    b[2] = b'L';
    b[3] = b'F';
    b[4] = 1; // 32-bit
    b[5] = 1; // little-endian
    b[18] = 40; // e_machine
    b[28..32].copy_from_slice(&52u32.to_le_bytes()); // e_phoff
    b[42..44].copy_from_slice(&32u16.to_le_bytes()); // e_phentsize
    b[44..46].copy_from_slice(&1u16.to_le_bytes()); // e_phnum
    let mut ph = vec![0u8; 32];
    ph[0..4].copy_from_slice(&1u32.to_le_bytes()); // PT_LOAD
    ph[4..8].copy_from_slice(&84u32.to_le_bytes()); // p_offset
    ph[8..12].copy_from_slice(&0x2000_0000u32.to_le_bytes()); // p_vaddr
    ph[16..20].copy_from_slice(&4u32.to_le_bytes()); // p_filesz
    ph[20..24].copy_from_slice(&8u32.to_le_bytes()); // p_memsz
    b.extend_from_slice(&ph);
    b.extend_from_slice(&[0xaa, 0xbb, 0xcc, 0xdd]);
    b
}

#[test]
fn segments_parse() {
    let image = tiny_image();
    let segs = parse_load_segments(&image).unwrap();
    assert_eq!(segs.len(), 1);
    assert_eq!(segs[0].base, 0x2000_0000);
    assert_eq!(segs[0].size, 8);
    assert_eq!(segs[0].offset, 84);
}

#[test]
fn bad_magic_rejected() {
    let mut image = tiny_image();
    image[0] = 0;
    assert_eq!(parse_load_segments(&image), Err(Error::BadElf));
    assert!(parse_load_segments(&[]).is_err());
}

#[test]
fn first_segment_byte_matches_file() {
    let image = tiny_image();
    let stored = image[84];
    let dump = DumpCore::new(image, RegMap::new()).unwrap();
    // The first byte of a segment equals the byte at its recorded file
    // offset.
    assert_eq!(dump.read_8(0x2000_0000, 1).unwrap(), vec![stored]);
    assert_eq!(dump.read_word_32(0x2000_0000), Ok(0xddccbbaa));
}

#[test]
fn read_past_segment_is_range_error() {
    let dump = DumpCore::new(tiny_image(), RegMap::new()).unwrap();
    // One byte past the last loaded segment fails with a range error.
    assert_eq!(
        dump.read_8(0x2000_0008, 1),
        Err(Error::RangeExceeded(0x2000_0008))
    );
}

#[test]
fn read_below_segment_is_unmapped() {
    let dump = DumpCore::new(tiny_image(), RegMap::new()).unwrap();
    assert_eq!(dump.read_8(0x1fff_ffff, 1), Err(Error::Unmapped(0x1fff_ffff)));
}

#[test]
fn truncated_dump_distinguished() {
    let dump = DumpCore::new(tiny_image(), RegMap::new()).unwrap();
    // The address is mapped (inside the eight-byte segment) but the file
    // stores only four bytes: truncated, not unmapped.
    assert_eq!(
        dump.read_8(0x2000_0004, 4),
        Err(Error::TruncatedDump(0x2000_0004))
    );
}

#[test]
fn registers_from_capture() {
    let mut regs = RegMap::new();
    regs.insert(Register::Arm(ARMRegister::PC), 0x0800_1234);
    let dump = DumpCore::new(tiny_image(), regs).unwrap();
    assert_eq!(dump.read_reg(Register::Arm(ARMRegister::PC)), Ok(0x0800_1234));
    assert_eq!(
        dump.read_reg(Register::Arm(ARMRegister::R0)),
        Err(Error::RegisterNotFound)
    );
}

#[test]
fn dump_is_read_only() {
    let mut dump = DumpCore::new(tiny_image(), RegMap::new()).unwrap();
    assert!(dump.is_dump());
    assert_eq!(
        dump.write_reg(Register::Arm(ARMRegister::R0), 1),
        Err(Error::NotSupported)
    );
    assert_eq!(dump.write_word_32(0x2000_0000, 1), Err(Error::NotSupported));
    assert_eq!(dump.write_8(0x2000_0000, &[0]), Err(Error::NotSupported));
    assert_eq!(dump.step(), Err(Error::NotSupported));
    assert_eq!(dump.load(), Err(Error::NotSupported));
    assert_eq!(dump.reset(), Err(Error::NotSupported));
    assert_eq!(dump.init_swv(), Err(Error::NotSupported));
    assert!(dump.read_swv().is_err());
    assert_eq!(dump.halt(), Ok(()));
    assert_eq!(dump.run(), Ok(()));
}

#[test]
fn error_kinds_follow_taxonomy() {
    assert_eq!(Error::NotSupported.kind(), ErrorKind::Capability);
    assert_eq!(Error::Unmapped(0).kind(), ErrorKind::TargetState);
    assert_eq!(Error::TruncatedDump(0).kind(), ErrorKind::TargetState);
    assert_eq!(Error::BadResponse.kind(), ErrorKind::Protocol);
    assert_eq!(Error::ConnectFailed.kind(), ErrorKind::Connect);
    assert_eq!(Error::MissingOperand.kind(), ErrorKind::Heuristic);
}
