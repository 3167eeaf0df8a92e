use nesboy::rom_loader::{RomError, RomLoader};

fn image(prg_banks: u8, chr_banks: u8, flags6: u8, flags7: u8) -> Vec<u8> {
    let mut v = vec![0x4e, 0x45, 0x53, 0x1a, prg_banks, chr_banks, flags6, flags7, 1, 2, 3, 4, 5, 6, 7, 8];
    if flags6 & 0x04 != 0 {
        v.extend(std::iter::repeat(0xEE).take(512));
    }
    for i in 0..(prg_banks as usize * 16384) {
        v.push((i % 251) as u8);
    }
    for i in 0..(chr_banks as usize * 8192) {
        v.push((i % 13) as u8 + 100);
    }
    v
}

#[test]
fn loads_header_and_sections() {
    let bytes = image(2, 1, 0x01 | 0x02 | 0x10, 0x20);
    let rom = RomLoader::from_bytes(&bytes).ok().unwrap();
    assert_eq!(rom.header().prg_rom_size, 2);
    assert_eq!(rom.header().chr_rom_size, 1);
    assert_eq!(rom.header().signature, [0x4e, 0x45, 0x53, 0x1a]);
    assert_eq!(rom.header().flags8, 1);
    assert_eq!(rom.header().padding, [4, 5, 6, 7, 8]);
    assert_eq!(rom.prg_rom().len(), 32768);
    assert_eq!(rom.chr_rom().len(), 8192);
    assert_eq!(rom.prg_rom()[0], 0);
    assert_eq!(rom.prg_rom()[300], (300 % 251) as u8);
    assert_eq!(rom.chr_rom()[20], 20 % 13 + 100);
    // mapper: high nibble from flags 7, low nibble from the high nibble of flags 6
    assert_eq!(rom.mapper(), 0x21);
    assert!(rom.vertical_mirroring());
    assert!(rom.has_battery());
    assert!(!rom.four_screen_mode());
    assert!(!rom.has_trainer());
}

#[test]
fn trainer_is_skipped() {
    let bytes = image(1, 0, 0x04 | 0x08, 0);
    let rom = RomLoader::from_bytes(&bytes).ok().unwrap();
    assert!(rom.has_trainer());
    assert!(rom.four_screen_mode());
    assert!(!rom.vertical_mirroring());
    assert_eq!(rom.prg_rom().len(), 16384);
    assert_eq!(rom.prg_rom()[0], 0);
    assert_eq!(rom.prg_rom()[1], 1);
    assert!(rom.chr_rom().is_empty());
}

#[test]
fn short_header_is_eof() {
    let bytes = vec![0x4e, 0x45, 0x53, 0x1a, 1, 0];
    assert!(matches!(RomLoader::from_bytes(&bytes), Err(RomError::UnexpectedEof)));
    assert!(matches!(RomLoader::from_bytes(&[]), Err(RomError::UnexpectedEof)));
}

#[test]
fn bad_signature_is_refused() {
    let mut bytes = image(1, 0, 0, 0);
    bytes[3] = 0x1b;
    assert!(matches!(RomLoader::from_bytes(&bytes), Err(RomError::InvalidSignature)));
    let mut bytes = image(1, 0, 0, 0);
    bytes[0] = b'M';
    assert_eq!(RomLoader::from_bytes(&bytes).err(), Some(RomError::InvalidSignature));
}

#[test]
fn missing_data_is_eof() {
    let mut bytes = image(1, 1, 0, 0);
    bytes.pop();
    assert_eq!(RomLoader::from_bytes(&bytes).err(), Some(RomError::UnexpectedEof));
    let mut bytes = image(2, 0, 0, 0);
    bytes.truncate(16 + 16384);
    assert_eq!(RomLoader::from_bytes(&bytes).err(), Some(RomError::UnexpectedEof));
}

#[test]
fn trailing_bytes_are_ignored() {
    let mut bytes = image(1, 1, 0, 0);
    bytes.extend([1, 2, 3]);
    let rom = RomLoader::from_bytes(&bytes).ok().unwrap();
    assert_eq!(rom.chr_rom().len(), 8192);
    assert_eq!(rom.chr_rom()[8191], (8191 % 13) as u8 + 100);
}
