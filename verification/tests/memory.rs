use gmbr::mbc::{LoadError, MBC};
use gmbr::mbc0::{matches_declared_size, MBC0};
use gmbr::mmu::MMU;

fn image(length: usize) -> Vec<u8> {
    let mut rom = vec![0u8; length];
    if length > 0x0149 {
        rom[0x0100] = 0x00;
        rom[0x0101] = 0xC3;
        rom[0x0147] = 0x00;
        rom[0x0148] = 0x00;
        rom[0x0149] = 0x00;
    }
    rom
}

#[test]
fn load_accepts_a_plain_32k_image() {
    let mut mbc = MBC0::new();
    assert_eq!(mbc.open_rom(image(32768)), Ok(()));
    let mut mmu = MMU::new();
    assert_eq!(mmu.open_rom(image(32768)), Ok(()));
    assert_eq!(mmu.read_byte(0x0101), 0xC3);
}

#[test]
fn load_refuses_a_size_mismatch() {
    let mut mbc = MBC0::new();
    assert_eq!(mbc.open_rom(image(16384)), Err(LoadError::SizeMismatch));
    let mut rom = image(32768);
    rom[0x0148] = 0x01;
    assert_eq!(mbc.open_rom(rom), Err(LoadError::SizeMismatch));
    let mut rom = image(65536);
    rom[0x0148] = 0x01;
    assert_eq!(mbc.open_rom(rom), Ok(()));
    let mut rom = image(32768);
    rom[0x0148] = 0xFF;
    assert_eq!(mbc.open_rom(rom), Err(LoadError::SizeMismatch));
}

#[test]
fn load_checks_in_order() {
    let mut mbc = MBC0::new();
    assert_eq!(mbc.open_rom(Vec::new()), Err(LoadError::MissingHeader));
    assert_eq!(mbc.open_rom(image(0x014F)), Err(LoadError::MissingHeader));
    let mut rom = image(16384);
    rom[0x0100] = 0x01;
    rom[0x0147] = 0x01;
    rom[0x0149] = 0x02;
    assert_eq!(mbc.open_rom(rom.clone()), Err(LoadError::BadMagic));
    rom[0x0100] = 0x00;
    rom[0x0101] = 0xC2;
    assert_eq!(mbc.open_rom(rom.clone()), Err(LoadError::BadMagic));
    rom[0x0101] = 0xC3;
    assert_eq!(mbc.open_rom(rom.clone()), Err(LoadError::UnsupportedMbc(0x01)));
    rom[0x0147] = 0x00;
    assert_eq!(mbc.open_rom(rom.clone()), Err(LoadError::SizeMismatch));
    let mut rom = image(32768);
    rom[0x0149] = 0x02;
    assert_eq!(mbc.open_rom(rom), Err(LoadError::ExternalRam));
}

#[test]
fn a_refused_image_leaves_the_cartridge() {
    let mut mbc = MBC0::new();
    let mut rom = image(32768);
    rom[0x0200] = 0x42;
    assert_eq!(mbc.open_rom(rom), Ok(()));
    assert_eq!(mbc.open_rom(image(16384)), Err(LoadError::SizeMismatch));
    assert_eq!(mbc.read_byte(0x0200), 0x42);
}

#[test]
fn load_error_texts_differ() {
    let all = [
        LoadError::MissingHeader,
        LoadError::BadMagic,
        LoadError::UnsupportedMbc(3),
        LoadError::SizeMismatch,
        LoadError::ExternalRam,
    ];
    for (i, a) in all.iter().enumerate() {
        assert!(!a.describe().is_empty());
        for b in all.iter().skip(i + 1) {
            assert_ne!(a.describe(), b.describe());
        }
    }
    assert_eq!(LoadError::SizeMismatch.describe(), "The ROM size in the header and the size of the image do not match");
}

#[test]
fn declared_sizes() {
    assert!(matches_declared_size(32768, 0));
    assert!(matches_declared_size(65536, 1));
    assert!(matches_declared_size(8388608, 8));
    assert!(!matches_declared_size(32768, 1));
    assert!(!matches_declared_size(32767, 0));
    assert!(!matches_declared_size(0, 0));
    assert!(!matches_declared_size(usize::MAX, 200));
}

#[test]
fn magic_number() {
    assert!(MBC0::check_magic_number(&image(32768)));
    let mut rom = image(32768);
    rom[0x0101] = 0x00;
    assert!(!MBC0::check_magic_number(&rom));
}

#[test]
fn title_without_padding() {
    let mut mbc = MBC0::new();
    assert_eq!(mbc.game_title(), Vec::<u8>::new());
    let mut rom = image(32768);
    let title = b"TETRIS";
    rom[0x0134..0x0134 + title.len()].copy_from_slice(title);
    rom[0x0142] = b'!';
    rom[0x0143] = b'X';
    assert_eq!(mbc.open_rom(rom), Ok(()));
    assert_eq!(mbc.game_title(), b"TETRIS!".to_vec());
}

#[test]
fn cartridge_reads_and_writes() {
    let mut mbc = MBC0::new();
    assert_eq!(mbc.read_byte(0x0000), 0xFF);
    assert_eq!(mbc.read_word(0x1234), 0xFFFF);
    let mut rom = image(32768);
    rom[0x0150] = 0x34;
    rom[0x0151] = 0x12;
    assert_eq!(mbc.open_rom(rom), Ok(()));
    assert_eq!(mbc.read_byte(0x0150), 0x34);
    assert_eq!(mbc.read_word(0x0150), 0x1234);
    mbc.write_byte(0x0150, 0x99);
    assert_eq!(mbc.read_byte(0x0150), 0x34);
    mbc.write_word(0x4000, 0xBEEF);
    assert_eq!(mbc.read_byte(0x4000), 0xEF);
    assert_eq!(mbc.read_byte(0x4001), 0xBE);
    assert_eq!(mbc.read_word(0x4000), 0xBEEF);
    assert_eq!(mbc.read_byte(0x8000), 0xFF);
    mbc.write_word(0x7FFF, 0xABCD);
    assert_eq!(mbc.read_byte(0x7FFF), 0xCD);
    assert_eq!(mbc.read_word(0x7FFF), 0xFFCD);
}

#[test]
fn bus_word_round_trip_in_ram_and_high_ram() {
    let mut mmu = MMU::new();
    let mut value: u16 = 0x0001;
    for address in (0xC000u16..0xDFFF).chain(0xFF80..0xFFFE) {
        value = value.wrapping_mul(31).wrapping_add(7);
        mmu.write_word(address, value);
        assert_eq!(mmu.read_word(address), value);
    }
    mmu.write_word(0xC000, 0x1234);
    assert_eq!(mmu.read_byte(0xC000), 0x34);
    assert_eq!(mmu.read_byte(0xC001), 0x12);
}

#[test]
fn bus_word_at_the_end_of_a_region() {
    let mut mmu = MMU::new();
    mmu.write_word(0xDFFF, 0x1234);
    assert_eq!(mmu.read_byte(0xDFFF), 0x34);
    assert_eq!(mmu.read_word(0xDFFF), 0xFF34);
    mmu.write_word(0xFFFE, 0x1234);
    assert_eq!(mmu.read_word(0xFFFE), 0xFF34);
    mmu.write_word(0xFFFF, 0x1234);
    assert_eq!(mmu.read_word(0xFFFF), 0xFFFF);
}

#[test]
fn unmapped_addresses_read_ff_and_ignore_writes() {
    let mut mmu = MMU::new();
    for address in [0x0000u16, 0x7FFF, 0x8000, 0x9FFF, 0xA000, 0xBFFF, 0xE000, 0xFDFF, 0xFE00, 0xFF00, 0xFF7F, 0xFFFF] {
        mmu.write_byte(address, 0x12);
        assert_eq!(mmu.read_byte(address), 0xFF);
    }
    assert_eq!(mmu.open_rom(image(32768)), Ok(()));
    mmu.write_byte(0x0200, 0x12);
    assert_eq!(mmu.read_byte(0x0200), 0x00);
    mmu.write_word(0x0200, 0x1234);
    assert_eq!(mmu.read_word(0x0200), 0x0000);
}

#[test]
fn dma_trigger() {
    let mut mmu = MMU::new();
    assert!(!mmu.dma_transfer);
    mmu.start_dma(0xC1);
    assert!(mmu.dma_transfer);
    assert_eq!(mmu.dma_address, 0xC100);
    mmu.start_dma(0x00);
    assert_eq!(mmu.dma_address, 0x0000);
    mmu.start_dma(0xFF);
    assert_eq!(mmu.dma_address, 0xFF00);
}
