use mad_nes::ines::{parse_cartridge, Cartridge};
use mad_nes::ppu::{
    palette_set_of, Mirroring, PatternTableSelection, Ppu, PpuControl, PpuMask, WriteLatch,
};

fn cartridge(vertical: bool) -> Cartridge {
    let mut bytes = vec![0x4e, 0x45, 0x53, 0x1a, 1, 1, if vertical { 1 } else { 0 }];
    bytes.resize(16, 0);
    bytes.extend(std::iter::repeat(0u8).take(0x4000));
    let chr: Vec<u8> = (0..0x2000).map(|i| if i % 16 < 8 { 0xf0 } else { 0x0f }).collect();
    bytes.extend(chr);
    parse_cartridge(&bytes).unwrap()
}

fn set_address(ppu: &mut Ppu, address: u16) {
    ppu.write_address((address >> 8) as u8);
    ppu.write_address((address & 0xff) as u8);
}

#[test]
fn data_written_to_a_nametable_reads_back_after_the_buffer() {
    let mut ppu = Ppu::new(cartridge(true));
    set_address(&mut ppu, 0x2123);
    ppu.write_data(0x42);
    set_address(&mut ppu, 0x2123);
    assert_eq!(ppu.read_data(), 0);
    assert_eq!(ppu.read_data(), 0x42);
}

#[test]
fn horizontal_mirroring_folds_the_second_nametable() {
    let mut ppu = Ppu::new(cartridge(false));
    set_address(&mut ppu, 0x2405);
    ppu.write_data(0x77);
    set_address(&mut ppu, 0x2005);
    ppu.read_data();
    assert_eq!(ppu.read_data(), 0x77);
    assert_eq!(Mirroring::Horizontal.real_address(0x2400), 0x2000);
    assert_eq!(Mirroring::Vertical.real_address(0x2800), 0x2000);
    assert_eq!(Mirroring::Vertical.real_address(0x2c10), 0x2410);
}

#[test]
fn palette_reads_are_immediate_and_mirror_the_backdrop() {
    let mut ppu = Ppu::new(cartridge(true));
    set_address(&mut ppu, 0x3f10);
    ppu.write_data(0x21);
    set_address(&mut ppu, 0x3f00);
    assert_eq!(ppu.read_data(), 0x21);
    assert_eq!(ppu.get_buffer()[0x3f10], 0x21);
}

#[test]
fn pattern_reads_come_from_the_cartridge() {
    let mut ppu = Ppu::new(cartridge(true));
    set_address(&mut ppu, 0x0008);
    ppu.read_data();
    assert_eq!(ppu.read_data(), 0x0f);
    assert_eq!(ppu.read_pattern_value(PatternTableSelection::Left, 0, 0, 0), 1);
    assert_eq!(ppu.read_pattern_value(PatternTableSelection::Left, 0, 7, 0), 2);
}

#[test]
fn address_increment_follows_the_control_register() {
    let mut ppu = Ppu::new(cartridge(true));
    ppu.set_control(PpuControl::from_bits(0x04).unwrap());
    set_address(&mut ppu, 0x2000);
    ppu.write_data(1);
    ppu.write_data(2);
    set_address(&mut ppu, 0x2020);
    ppu.read_data();
    assert_eq!(ppu.read_data(), 2);
}

#[test]
fn oam_data_writes_advance_the_address() {
    let mut ppu = Ppu::new(cartridge(true));
    ppu.set_oam_address(0x10);
    ppu.write_oam_data(0xaa);
    ppu.write_oam_data(0xbb);
    ppu.set_oam_address(0x11);
    assert_eq!(ppu.read_oam_data(), 0xbb);
}

#[test]
fn oam_dma_copies_from_the_oam_address() {
    let mut ppu = Ppu::new(cartridge(true));
    let data: Vec<u8> = (0..=255u8).collect();
    ppu.set_oam_address(0x04);
    ppu.copy_oam_data(&data);
    ppu.set_oam_address(0x04);
    assert_eq!(ppu.read_oam_data(), 0);
    ppu.set_oam_address(0x03);
    assert_eq!(ppu.read_oam_data(), 255);
    ppu.set_oam_address(0x04);
    let sprites = ppu.get_all_oam_sprite_data();
    assert_eq!(sprites.len(), 64);
    assert_eq!(sprites[0].y, 0);
    assert_eq!(sprites[0].tile_number, 1);
    assert_eq!(sprites[0].x, 3);
}

#[test]
fn status_read_clears_vblank_and_the_latch() {
    let mut ppu = Ppu::new(cartridge(true));
    let mut steps = 0;
    while !ppu.step() {
        steps += 1;
    }
    // from the pre-render line to dot 1 of scanline 241
    assert_eq!(steps, 341 + 241 * 341 + 1);
    assert_eq!(ppu.get_current_scanline(), 241);
    assert_eq!(ppu.get_current_dot(), 2);
    ppu.write_address(0x21);
    let status = ppu.read_status();
    assert_eq!(status & 0x80, 0x80);
    assert_eq!(ppu.get_status().bits() & 0x80, 0);
    // the latch was cleared, so this is again a first write
    set_address(&mut ppu, 0x2001);
    ppu.write_data(5);
    set_address(&mut ppu, 0x2001);
    ppu.read_data();
    assert_eq!(ppu.read_data(), 5);
}

#[test]
fn pre_render_line_clears_vblank() {
    let mut ppu = Ppu::new(cartridge(true));
    while !ppu.step() {}
    while !(ppu.get_current_scanline() == 261 && ppu.get_current_dot() == 2) {
        ppu.step();
    }
    assert_eq!(ppu.get_status().bits() & 0xc0, 0);
}

#[test]
fn scanline_advance_runs_341_dots() {
    let mut ppu = Ppu::new(cartridge(true));
    assert_eq!(ppu.get_current_scanline(), 261);
    assert!(!ppu.advance_scanline());
    assert_eq!(ppu.get_current_scanline(), 0);
    assert_eq!(ppu.get_current_dot(), 0);
}

#[test]
fn background_renders_when_enabled() {
    let mut ppu = Ppu::new(cartridge(true));
    set_address(&mut ppu, 0x3f01);
    ppu.write_data(0x16);
    ppu.write_data(0x27);
    ppu.write_data(0x18);
    ppu.set_mask(PpuMask::from_bits(0x0a).unwrap());
    while !ppu.step() {}
    let frame = ppu.get_frame_buffer();
    // tile 0 rows: left half of each row is color 1, right half color 2
    assert_eq!(frame[0][0], 0x16);
    assert_eq!(frame[0][4], 0x27);
    assert_eq!(frame[100][8], 0x16);
}

#[test]
fn sprites_render_at_vblank() {
    let mut ppu = Ppu::new(cartridge(true));
    set_address(&mut ppu, 0x3f11);
    ppu.write_data(0x30);
    let mut data = vec![0xffu8; 256];
    // sprite 0 at x = 16, y = 9 (drawn from scanline 10), tile 0, palette 0, in front
    data[0] = 9;
    data[1] = 0;
    data[2] = 0;
    data[3] = 16;
    ppu.copy_oam_data(&data);
    while !ppu.step() {}
    let foreground = ppu.get_foreground_sprite_buffer();
    assert_eq!(foreground[10][16], 0x30);
    assert_eq!(foreground[9][16], 0xff);
    assert_eq!(foreground[10][20], ppu.get_buffer()[0x3f12]);
}

#[test]
fn scroll_writes_toggle_the_latch() {
    let mut ppu = Ppu::new(cartridge(true));
    ppu.write_scroll(0x0d);
    ppu.write_scroll(0x10);
    ppu.clear_address_latch();
    set_address(&mut ppu, 0x2000);
    ppu.write_data(9);
    set_address(&mut ppu, 0x2000);
    ppu.read_data();
    assert_eq!(ppu.read_data(), 9);
}

#[test]
fn attribute_quadrants() {
    assert_eq!(palette_set_of(0b11_10_01_00, 0, 0), 0);
    assert_eq!(palette_set_of(0b11_10_01_00, 1, 0), 1);
    assert_eq!(palette_set_of(0b11_10_01_00, 0, 1), 2);
    assert_eq!(palette_set_of(0b11_10_01_00, 1, 1), 3);
}

#[test]
fn write_latch_starts_at_zero() {
    let latch = WriteLatch::Zero;
    assert_eq!(latch, WriteLatch::Zero);
}

#[test]
fn steps_read_no_pattern_while_rendering_is_off() {
    // an MMC1 whose character bank points past its 8 KiB of pattern data
    let mut bytes = vec![0x4e, 0x45, 0x53, 0x1a, 2, 1, 0x10];
    bytes.resize(16, 0);
    bytes.extend(std::iter::repeat(0u8).take(0x8000 + 0x2000));
    let mut cart = parse_cartridge(&bytes).unwrap();
    for bit in [0u8, 1, 0, 0, 0] {
        cart.write_address(0xa000, bit);
    }
    let mut ppu = Ppu::new(cart);
    // the pre-render line and the visible lines read no pattern with
    // rendering off: v and the frame stay as they were
    while ppu.get_current_scanline() != 241 {
        assert!(!ppu.step());
    }
    assert_eq!(ppu.get_vram_address(), 0);
    assert!(ppu.get_frame_buffer().iter().all(|row| row.iter().all(|&p| p == 0)));
}
