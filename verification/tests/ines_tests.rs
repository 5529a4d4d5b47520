use mad_nes::ines::{parse_cartridge, Cartridge, RomParseError};
use mad_nes::ppu::Mirroring;

fn image(prg_banks: u8, chr_banks: u8, flags6: u8, prg: &[u8], chr: &[u8]) -> Vec<u8> {
    let mut bytes = vec![0x4e, 0x45, 0x53, 0x1a, prg_banks, chr_banks, flags6];
    bytes.resize(16, 0);
    bytes.extend_from_slice(prg);
    bytes.extend_from_slice(chr);
    bytes
}

fn nrom(prg_banks: u8) -> Cartridge {
    let prg: Vec<u8> = (0..prg_banks as usize * 0x4000).map(|i| (i % 251) as u8).collect();
    let chr: Vec<u8> = (0..0x2000).map(|i| (i % 13) as u8).collect();
    parse_cartridge(&image(prg_banks, 1, 0x01, &prg, &chr)).unwrap()
}

#[test]
fn parse_rejects_missing_magic() {
    let bytes = vec![0u8; 32];
    assert_eq!(parse_cartridge(&bytes).err(), Some(RomParseError::NotInes));
}

#[test]
fn parse_rejects_short_program() {
    let bytes = image(2, 0, 0, &[0u8; 0x4000], &[]);
    assert_eq!(parse_cartridge(&bytes).err(), Some(RomParseError::PrgRomTooSmall));
}

#[test]
fn parse_rejects_short_character_data() {
    let bytes = image(1, 1, 0, &[0u8; 0x4000], &[0u8; 0x1000]);
    assert_eq!(parse_cartridge(&bytes).err(), Some(RomParseError::ChrRomTooSmall));
}

#[test]
fn parse_rejects_unknown_mapper() {
    let bytes = image(1, 1, 0x50, &[0u8; 0x4000], &[0u8; 0x2000]);
    assert_eq!(parse_cartridge(&bytes).err(), Some(RomParseError::UnsupportedMapper(5)));
}

#[test]
fn parse_splits_program_and_character_data() {
    let prg: Vec<u8> = (0..0x4000).map(|i| (i % 7) as u8).collect();
    let chr: Vec<u8> = (0..0x2000).map(|i| (i % 5) as u8).collect();
    let cart = parse_cartridge(&image(1, 1, 0x01, &prg, &chr)).unwrap();
    assert_eq!(cart.prg_rom_data(), &prg[..]);
    assert_eq!(cart.chr_rom_data(), &chr[..]);
    assert_eq!(cart.mirroring(), Mirroring::Vertical);
    let cart = parse_cartridge(&image(1, 1, 0x00, &prg, &chr)).unwrap();
    assert_eq!(cart.mirroring(), Mirroring::Horizontal);
}

#[test]
fn nrom_mirrors_a_single_program_bank() {
    let mut cart = nrom(1);
    assert_eq!(cart.read_address(0x8005), cart.read_address(0xc005));
    assert_eq!(cart.read_address(0x8005), 5);
    let mut cart = nrom(2);
    assert_eq!(cart.read_address(0xc000), (0x4000 % 251) as u8);
}

#[test]
fn nrom_patterns_come_from_the_cartridge() {
    let cart = nrom(1);
    assert!(cart.all_patterns_readable());
    assert_eq!(cart.read_chr_rom(0x0010), Some((0x10 % 13) as u8));
}

#[test]
fn mmc1_serial_writes_load_the_control_register() {
    let prg = vec![0u8; 0x8000];
    let chr = vec![0u8; 0x2000];
    let mut cart = parse_cartridge(&image(2, 1, 0x10, &prg, &chr)).unwrap();
    // 0b00010 written bit by bit selects vertical mirroring
    for bit in [0u8, 1, 0, 0, 0] {
        cart.write_address(0x8000, bit);
    }
    assert_eq!(cart.mirroring(), Mirroring::Vertical);
    // 0b00011: horizontal
    for bit in [1u8, 1, 0, 0, 0] {
        cart.write_address(0x8000, bit);
    }
    assert_eq!(cart.mirroring(), Mirroring::Horizontal);
    // a write with bit 7 resets the shift register midway
    cart.write_address(0x8000, 0);
    cart.write_address(0x8000, 0x80);
    for bit in [0u8, 0, 0, 0, 0] {
        cart.write_address(0x8000, bit);
    }
    assert_eq!(cart.mirroring(), Mirroring::OneScreenLow);
}

#[test]
fn mmc1_program_ram_reads_back() {
    let prg = vec![0u8; 0x8000];
    let mut cart = parse_cartridge(&image(2, 1, 0x10, &prg, &[0u8; 0x2000])).unwrap();
    cart.write_address(0x6010, 0x99);
    assert_eq!(cart.read_address(0x6010), 0x99);
}

#[test]
fn mmc3_interrupt_after_reload_value_ticks() {
    let prg = vec![0u8; 0x8000];
    let mut cart = parse_cartridge(&image(2, 1, 0x40, &prg, &[0u8; 0x2000])).unwrap();
    cart.write_address(0xc000, 3); // reload value
    cart.write_address(0xc001, 0); // reload on the next tick
    cart.write_address(0xe001, 0); // enable
    for _ in 0..3 {
        cart.scanline_tick();
        assert!(!cart.has_pending_irq());
    }
    cart.scanline_tick();
    assert!(cart.has_pending_irq());
    cart.write_address(0xe000, 0); // acknowledge
    assert!(!cart.has_pending_irq());
}

#[test]
fn unrom_switches_the_low_bank() {
    let prg: Vec<u8> = (0..4 * 0x4000).map(|i| (i / 0x4000) as u8).collect();
    let mut cart = parse_cartridge(&image(4, 0, 0x20, &prg, &[])).unwrap();
    assert_eq!(cart.read_address(0x8000), 0);
    assert_eq!(cart.read_address(0xc000), 3);
    cart.write_address(0x8000, 2);
    assert_eq!(cart.read_address(0x8000), 2);
    assert_eq!(cart.read_address(0xc000), 3);
}

#[test]
fn cnrom_switches_the_character_bank() {
    let chr: Vec<u8> = (0..2 * 0x2000).map(|i| (i / 0x2000) as u8 + 7).collect();
    let mut cart = parse_cartridge(&image(1, 2, 0x30, &[0u8; 0x4000], &chr)).unwrap();
    assert_eq!(cart.read_chr_rom(0x0000), Some(7));
    cart.write_address(0x8000, 1);
    assert_eq!(cart.read_chr_rom(0x0000), Some(8));
}

#[test]
fn mmc3_reload_zero_interrupts_on_the_first_tick_and_stays() {
    let prg = vec![0u8; 0x8000];
    let mut cart = parse_cartridge(&image(2, 1, 0x40, &prg, &[0u8; 0x2000])).unwrap();
    cart.write_address(0xc000, 0);
    cart.write_address(0xc001, 0);
    cart.write_address(0xe001, 0);
    cart.scanline_tick();
    assert!(cart.has_pending_irq());
    for _ in 0..10 {
        cart.scanline_tick();
        assert!(cart.has_pending_irq());
    }
}

#[test]
fn mmc1_serial_writes_may_use_different_addresses() {
    let prg = vec![0u8; 0x8000];
    let chr = vec![0u8; 0x2000];
    let mut cart = parse_cartridge(&image(2, 1, 0x10, &prg, &chr)).unwrap();
    assert_eq!(cart.mirroring(), Mirroring::OneScreenLow);
    // the first four writes go to four registers and change none of them
    cart.write_address(0x8000, 1);
    assert_eq!(cart.mirroring(), Mirroring::OneScreenLow);
    cart.write_address(0xa000, 1);
    assert_eq!(cart.mirroring(), Mirroring::OneScreenLow);
    cart.write_address(0xc000, 0);
    assert_eq!(cart.mirroring(), Mirroring::OneScreenLow);
    cart.write_address(0xe000, 0);
    assert_eq!(cart.mirroring(), Mirroring::OneScreenLow);
    // the fifth, in 0x8000..=0x9fff, loads 0b00011 into the control register
    cart.write_address(0x9fff, 0);
    assert_eq!(cart.mirroring(), Mirroring::Horizontal);
}

#[test]
fn mmc3_interrupt_pending_from_tick_reload_plus_one() {
    let prg = vec![0u8; 0x8000];
    let mut cart = parse_cartridge(&image(2, 1, 0x40, &prg, &[0u8; 0x2000])).unwrap();
    cart.write_address(0xc000, 5);
    cart.write_address(0xc001, 0);
    cart.write_address(0xe001, 0);
    for k in 1..=12 {
        cart.scanline_tick();
        assert_eq!(cart.has_pending_irq(), k >= 6);
    }
}
