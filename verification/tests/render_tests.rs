use mad_nes::ines::parse_cartridge;
use mad_nes::ppu::Ppu;
use mad_nes::render::{
    composed_pixel, nametable_colors, palette_number, pattern_bank_pixels, pattern_table_picture,
    rgb_bytes, screen_picture, system_color,
};

#[test]
fn palette_number_combines_the_two_planes() {
    assert_eq!(palette_number(0b1000_0000, 0, 0), 1);
    assert_eq!(palette_number(0, 0b1000_0000, 0), 2);
    assert_eq!(palette_number(0b1000_0000, 0b1000_0000, 0), 3);
    assert_eq!(palette_number(0b0000_0001, 0b0000_0001, 7), 3);
    assert_eq!(palette_number(0b0000_0001, 0, 6), 0);
}

#[test]
fn system_palette_entries() {
    assert_eq!(system_color(0x00), (0x80, 0x80, 0x80));
    assert_eq!(system_color(0x16), (0xFF, 0x22, 0x00));
    assert_eq!(system_color(0x30), (0xFF, 0xFF, 0xFF));
    assert_eq!(system_color(0x3f), (0x11, 0x11, 0x11));
}

#[test]
fn pattern_bank_pixels_lay_out_tiles_in_rows() {
    let mut table = vec![0u8; 0x1000];
    table[0] = 0xff; // tile 0, row 0, low plane
    table[8] = 0x0f; // tile 0, row 0, high plane
    table[0x10 + 3] = 0x80; // tile 1, row 3, leftmost pixel
    let pixels = pattern_bank_pixels(&table);
    assert_eq!(pixels.len(), 256 * 64);
    assert_eq!(&pixels[0..8], &[1, 1, 1, 1, 3, 3, 3, 3]);
    assert_eq!(pixels[8], 0);
    assert_eq!(pixels[64 + 3 * 8], 1);
    assert_eq!(pixels[64 + 3 * 8 + 1], 0);
}

#[test]
fn nametable_picture_uses_backdrop_and_palette_sets() {
    let mut bytes = vec![0x4e, 0x45, 0x53, 0x1a, 1, 1, 0];
    bytes.resize(16 + 0x4000, 0);
    let mut chr = vec![0u8; 0x2000];
    // tile 1: every row has its leftmost pixel at color 1
    for row in 0..8 {
        chr[0x10 + row] = 0x80;
    }
    bytes.extend(chr);
    let mut ppu = Ppu::new(parse_cartridge(&bytes).unwrap());
    let write = |ppu: &mut Ppu, address: u16, value: u8| {
        ppu.write_address((address >> 8) as u8);
        ppu.write_address((address & 0xff) as u8);
        ppu.write_data(value);
    };
    write(&mut ppu, 0x3f00, 0x0f);
    write(&mut ppu, 0x3f05, 0x2a); // set 1, color 1
    write(&mut ppu, 0x2000 + 32 + 2, 1); // tile 1 at row 1, column 2
    write(&mut ppu, 0x23c0, 0b0100); // top-right quadrant (columns 2 and 3) uses set 1
    let colors = nametable_colors(&ppu, 0x2000);
    assert_eq!(colors.len(), 240);
    assert_eq!(colors[0].len(), 256);
    assert_eq!(colors[0][0], 0x0f);
    assert_eq!(colors[8][16], 0x2a);
    assert_eq!(colors[9][16], 0x2a);
    assert_eq!(colors[8][17], 0x0f);
}

#[test]
fn pattern_table_picture_places_tiles_in_a_grid() {
    let mut pixels = vec![0u8; 256 * 64];
    // tile 17 (row 1, column 1 of the grid), its pixel (2, 3) has color 2
    pixels[17 * 64 + 3 * 8 + 2] = 2;
    let picture = pattern_table_picture(&pixels, 0x0f, [0x11, 0x22, 0x33]);
    assert_eq!(picture.len(), 128 * 128);
    assert_eq!(picture[(8 + 3) * 128 + 8 + 2], 0x22);
    assert_eq!(picture[0], 0x0f);
}

#[test]
fn rgb_bytes_follow_the_system_palette() {
    assert_eq!(rgb_bytes(&[0x00, 0x30]), vec![0x80, 0x80, 0x80, 0xff, 0xff, 0xff]);
}

#[test]
fn sprites_in_front_and_behind_the_background() {
    assert_eq!(composed_pixel(0x10, 0x20, 0x30, 0x0f), 0x20);
    assert_eq!(composed_pixel(0x10, 0xff, 0x30, 0x0f), 0x10);
    assert_eq!(composed_pixel(0xff, 0xff, 0x30, 0x0f), 0x30);
    assert_eq!(composed_pixel(0xff, 0xff, 0xff, 0x0f), 0x0f);
}

#[test]
fn screen_of_a_new_ppu_is_its_frame() {
    let mut bytes = vec![0x4e, 0x45, 0x53, 0x1a, 1, 1, 0];
    bytes.resize(16 + 0x4000 + 0x2000, 0);
    let ppu = Ppu::new(parse_cartridge(&bytes).unwrap());
    let screen = screen_picture(&ppu);
    assert_eq!(screen.len(), 240);
    assert!(screen.iter().all(|row| row.len() == 256 && row.iter().all(|c| *c == 0)));
}
