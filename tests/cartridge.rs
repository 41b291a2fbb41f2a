use nesemu::cartridge::{create, test_rom, LoadError, MirroringType, TestROM, ROM};
use nesemu::mapper::nrom::NROM;
use nesemu::mapper::uxrom::UXROM;
use nesemu::mapper::Mapper;

fn header(prg_banks: u8, chr_banks: u8, flags6: u8, flags7: u8) -> Vec<u8> {
    let mut h = vec![0x4E, 0x45, 0x53, 0x1A, prg_banks, chr_banks, flags6, flags7];
    h.extend(vec![0u8; 8]);
    h
}

#[test]
fn parses_prg_chr_mapper_and_mirroring() {
    let prg: Vec<u8> = (0..16384u32).map(|i| (i % 251) as u8).collect();
    let chr: Vec<u8> = (0..8192u32).map(|i| (i % 13) as u8).collect();
    let image = create(TestROM {
        nes_header: header(1, 1, 0x21, 0x10),
        trainer: None,
        prg_rom: prg.clone(),
        chr_rom: chr.clone(),
    });
    let rom = ROM::new(&image).unwrap();
    assert_eq!(rom.rom_prg, prg);
    assert_eq!(rom.rom_chr, chr);
    assert_eq!(rom.rom_mapper, 0x12);
    assert_eq!(rom.mirroring_type, MirroringType::Vertical);
}

#[test]
fn trainer_is_skipped_and_four_screen_wins() {
    let image = create(TestROM {
        nes_header: header(1, 0, 0b0000_1101, 0),
        trainer: Some(vec![0xAA; 512]),
        prg_rom: vec![7; 16384],
        chr_rom: vec![],
    });
    let rom = ROM::new(&image).unwrap();
    assert_eq!(rom.rom_prg, vec![7; 16384]);
    assert!(rom.rom_chr.is_empty());
    assert_eq!(rom.mirroring_type, MirroringType::FourScreen);
}

#[test]
fn horizontal_mirroring_when_bit_clear() {
    let image = create(TestROM {
        nes_header: header(1, 1, 0, 0),
        trainer: None,
        prg_rom: vec![0; 16384],
        chr_rom: vec![0; 8192],
    });
    assert_eq!(ROM::new(&image).unwrap().mirroring_type, MirroringType::Horizontal);
}

#[test]
fn bad_magic_is_invalid_format() {
    let mut image = header(1, 0, 0, 0);
    image[3] = 0x1B;
    image.extend(vec![0u8; 16384]);
    assert!(matches!(ROM::new(&image), Err(LoadError::InvalidFormat)));
    assert!(matches!(ROM::new(&[0x4E, 0x45]), Err(LoadError::InvalidFormat)));
}

#[test]
fn short_image_is_truncated() {
    let mut image = header(2, 1, 0, 0);
    image.extend(vec![0u8; 16384]);
    assert!(matches!(ROM::new(&image), Err(LoadError::Truncated)));
    assert!(matches!(ROM::new(&[0x4E, 0x45, 0x53, 0x1A, 1, 0]), Err(LoadError::Truncated)));
}

#[test]
fn parse_then_emit_gives_the_image_back() {
    let h = header(1, 1, 0b0000_0100, 0);
    let trainer: Vec<u8> = (0..512u32).map(|i| (i * 7 % 256) as u8).collect();
    let prg: Vec<u8> = (0..16384u32).map(|i| (i * 3 % 256) as u8).collect();
    let chr: Vec<u8> = (0..8192u32).map(|i| (i * 5 % 256) as u8).collect();
    let image = create(TestROM {
        nes_header: h.clone(),
        trainer: Some(trainer.clone()),
        prg_rom: prg,
        chr_rom: chr,
    });
    let rom = ROM::new(&image).unwrap();
    let again = create(TestROM {
        nes_header: image[0..16].to_vec(),
        trainer: Some(image[16..528].to_vec()),
        prg_rom: rom.rom_prg.clone(),
        chr_rom: rom.rom_chr.clone(),
    });
    assert_eq!(again, image);
}

#[test]
fn test_rom_has_ones() {
    let rom = test_rom();
    assert_eq!(rom.rom_prg.len(), 32768);
    assert!(rom.rom_prg.iter().all(|b| *b == 1));
    assert_eq!(rom.rom_chr.len(), 8192);
    assert_eq!(rom.rom_mapper, 3);
    assert_eq!(rom.mirroring_type, MirroringType::Vertical);
}

#[test]
fn nrom_maps_from_0x8000() {
    let m = NROM::new();
    assert_eq!(m.map_prg(0x8000), 0);
    assert_eq!(m.map_prg(0xFFFC), 0x7FFC);
    assert_eq!(m.map_chr(0x1234), 0x1234);
}

#[test]
fn uxrom_switches_the_low_bank_only() {
    let mut m = UXROM::new(8);
    assert_eq!(m.map_prg(0x8123), 0x0123);
    m.bank_select(0x13);
    assert_eq!(m.map_prg(0x8123), 3 * 0x4000 + 0x0123);
    assert_eq!(m.map_prg(0xBFFF), 3 * 0x4000 + 0x3FFF);
    assert_eq!(m.map_prg(0xC000), 7 * 0x4000);
    assert_eq!(m.map_prg(0xFFFF), 7 * 0x4000 + 0x3FFF);
    assert_eq!(m.map_chr(0x0FFF), 0x0FFF);
}
