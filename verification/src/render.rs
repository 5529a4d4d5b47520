//! What the screen and the debugging views show, computed from the PPU: the
//! system palette, the color indices of pattern tiles, and the picture of a
//! whole nametable. Drawing them is left to the front end.

use vstd::prelude::*;

use crate::ppu::{
    attribute_quadrant, palette_entry, palette_set_of, rows_of, PatternTableSelection, Ppu, PpuState,
};

verus! {

/// Bit `n` of `value`, as 0 or 1.
pub open spec fn bit_of(value: u8, n: u8) -> u8 {
    (value >> n) & 1
}

/// The color index of pixel `index` (0 is the leftmost) of a tile row whose
/// low plane is `left` and high plane is `right`.
pub open spec fn spec_palette_number(left: u8, right: u8, index: int) -> u8 {
    (bit_of(left, (7 - index) as u8) + 2 * bit_of(right, (7 - index) as u8)) as u8
}

pub fn palette_number(left: u8, right: u8, index: usize) -> (r: u8)
    requires
        index < 8,
    ensures
        r == spec_palette_number(left, right, index as int),
        r <= 3,
{
    let shift = (7 - index) as u8;
    let is_left_on = left & (1u8 << shift) != 0;
    let is_right_on = right & (1u8 << shift) != 0;
    assert(shift < 8 ==> (left & (1u8 << shift) != 0) == ((left >> shift) & 1 == 1) && (right & (1u8
        << shift) != 0) == ((right >> shift) & 1 == 1) && (left >> shift) & 1 <= 1 && (right
        >> shift) & 1 <= 1) by (bit_vector);
    if !is_left_on && !is_right_on {
        0
    } else if is_left_on && !is_right_on {
        1
    } else if !is_left_on && is_right_on {
        2
    } else {
        3
    }
}

/// The color indices of the 256 tiles of a pattern table, tile after tile,
/// each as 8 rows of 8 pixels.
pub open spec fn pattern_pixel(pattern_table: Seq<u8>, i: int) -> u8 {
    let tile = i / 64;
    let row = (i % 64) / 8;
    let col = i % 8;
    spec_palette_number(pattern_table[tile * 16 + row], pattern_table[tile * 16 + row + 8], col)
}

/// Tiles are 16 bytes: row `y` of tile `t` has its low bit plane at byte
/// `16 t + y` and its high bit plane eight bytes later, and pixel `x` of
/// the row (0 the leftmost) is bit `7 - x` of each plane, the high plane
/// counting two. The pixels are listed tile after tile, row after row.
pub proof fn lemma_pattern_pixel_layout(pattern_table: Seq<u8>, t: int, y: int, x: int)
    requires
        0 <= t < 256,
        0 <= y < 8,
        0 <= x < 8,
    ensures
        pattern_pixel(pattern_table, 64 * t + 8 * y + x) == bit_of(
            pattern_table[16 * t + y],
            (7 - x) as u8,
        ) + 2 * bit_of(pattern_table[16 * t + y + 8], (7 - x) as u8),
{
    let i = 64 * t + 8 * y + x;
    assert(i / 64 == t && (i % 64) / 8 == y && i % 8 == x) by (nonlinear_arith)
        requires
            i == 64 * t + 8 * y + x,
            0 <= y < 8,
            0 <= x < 8,
            0 <= t,
    ;
    let l = pattern_table[16 * t + y];
    let h = pattern_table[16 * t + y + 8];
    let n = (7 - x) as u8;
    assert((l >> n) & 1 <= 1 && (h >> n) & 1 <= 1) by (bit_vector);
}

/// The color index of every pixel of every tile of `pattern_table`.
pub fn pattern_bank_pixels(pattern_table: &[u8]) -> (r: Vec<u8>)
    requires
        pattern_table@.len() >= 0x1000,
    ensures
        r@.len() == 256 * 64,
        forall|i: int| 0 <= i < 256 * 64 ==> #[trigger] r@[i] == pattern_pixel(pattern_table@, i),
        forall|i: int| 0 <= i < 256 * 64 ==> #[trigger] r@[i] <= 3,
{
    let mut raw_bytes: Vec<u8> = Vec::new();
    let mut i: usize = 0;
    while i < 256 * 64
        invariant
            i <= 256 * 64,
            pattern_table@.len() >= 0x1000,
            raw_bytes@.len() == i,
            forall|j: int| 0 <= j < i ==> #[trigger] raw_bytes@[j] == pattern_pixel(pattern_table@, j),
            forall|j: int| 0 <= j < i ==> #[trigger] raw_bytes@[j] <= 3,
        decreases 256 * 64 - i,
    {
        let tile = i / 64;
        let row = (i % 64) / 8;
        let col = i % 8;
        let address = tile * 16 + row;
        let value = palette_number(pattern_table[address], pattern_table[address + 8], col);
        raw_bytes.push(value);
        i = i + 1;
    }
    raw_bytes
}

/// The system palette: the red, green and blue of each of the 64 colors.
pub open spec fn spec_system_color(index: u8) -> (u8, u8, u8) {
    match index {
        0 => (0x80u8, 0x80u8, 0x80u8),
        1 => (0x00, 0x3D, 0xA6),
        2 => (0x00, 0x12, 0xB0),
        3 => (0x44, 0x00, 0x96),
        4 => (0xA1, 0x00, 0x5E),
        5 => (0xC7, 0x00, 0x28),
        6 => (0xBA, 0x06, 0x00),
        7 => (0x8C, 0x17, 0x00),
        8 => (0x5C, 0x2F, 0x00),
        9 => (0x10, 0x45, 0x00),
        10 => (0x05, 0x4A, 0x00),
        11 => (0x00, 0x47, 0x2E),
        12 => (0x00, 0x41, 0x66),
        13 => (0x00, 0x00, 0x00),
        14 => (0x05, 0x05, 0x05),
        15 => (0x05, 0x05, 0x05),
        16 => (0xC7, 0xC7, 0xC7),
        17 => (0x00, 0x77, 0xFF),
        18 => (0x21, 0x55, 0xFF),
        19 => (0x82, 0x37, 0xFA),
        20 => (0xEB, 0x2F, 0xB5),
        21 => (0xFF, 0x29, 0x50),
        22 => (0xFF, 0x22, 0x00),
        23 => (0xD6, 0x32, 0x00),
        24 => (0xC4, 0x62, 0x00),
        25 => (0x35, 0x80, 0x00),
        26 => (0x05, 0x8F, 0x00),
        27 => (0x00, 0x8A, 0x55),
        28 => (0x00, 0x99, 0xCC),
        29 => (0x21, 0x21, 0x21),
        30 => (0x09, 0x09, 0x09),
        31 => (0x09, 0x09, 0x09),
        32 => (0xFF, 0xFF, 0xFF),
        33 => (0x0F, 0xD7, 0xFF),
        34 => (0x69, 0xA2, 0xFF),
        35 => (0xD4, 0x80, 0xFF),
        36 => (0xFF, 0x45, 0xF3),
        37 => (0xFF, 0x61, 0x8B),
        38 => (0xFF, 0x88, 0x33),
        39 => (0xFF, 0x9C, 0x12),
        40 => (0xFA, 0xBC, 0x20),
        41 => (0x9F, 0xE3, 0x0E),
        42 => (0x2B, 0xF0, 0x35),
        43 => (0x0C, 0xF0, 0xA4),
        44 => (0x05, 0xFB, 0xFF),
        45 => (0x5E, 0x5E, 0x5E),
        46 => (0x0D, 0x0D, 0x0D),
        47 => (0x0D, 0x0D, 0x0D),
        48 => (0xFF, 0xFF, 0xFF),
        49 => (0xA6, 0xFC, 0xFF),
        50 => (0xB3, 0xEC, 0xFF),
        51 => (0xDA, 0xAB, 0xEB),
        52 => (0xFF, 0xA8, 0xF9),
        53 => (0xFF, 0xAB, 0xB3),
        54 => (0xFF, 0xD2, 0xB0),
        55 => (0xFF, 0xEF, 0xA6),
        56 => (0xFF, 0xF7, 0x9C),
        57 => (0xD7, 0xE8, 0x95),
        58 => (0xA6, 0xED, 0xAF),
        59 => (0xA2, 0xF2, 0xDA),
        60 => (0x99, 0xFF, 0xFC),
        61 => (0xDD, 0xDD, 0xDD),
        62 => (0x11, 0x11, 0x11),
        _ => (0x11, 0x11, 0x11),
    }
}

pub fn system_color(index: u8) -> (r: (u8, u8, u8))
    requires
        index < 64,
    ensures
        r == spec_system_color(index),
{
    match index {
        0 => (0x80, 0x80, 0x80),
        1 => (0x00, 0x3D, 0xA6),
        2 => (0x00, 0x12, 0xB0),
        3 => (0x44, 0x00, 0x96),
        4 => (0xA1, 0x00, 0x5E),
        5 => (0xC7, 0x00, 0x28),
        6 => (0xBA, 0x06, 0x00),
        7 => (0x8C, 0x17, 0x00),
        8 => (0x5C, 0x2F, 0x00),
        9 => (0x10, 0x45, 0x00),
        10 => (0x05, 0x4A, 0x00),
        11 => (0x00, 0x47, 0x2E),
        12 => (0x00, 0x41, 0x66),
        13 => (0x00, 0x00, 0x00),
        14 => (0x05, 0x05, 0x05),
        15 => (0x05, 0x05, 0x05),
        16 => (0xC7, 0xC7, 0xC7),
        17 => (0x00, 0x77, 0xFF),
        18 => (0x21, 0x55, 0xFF),
        19 => (0x82, 0x37, 0xFA),
        20 => (0xEB, 0x2F, 0xB5),
        21 => (0xFF, 0x29, 0x50),
        22 => (0xFF, 0x22, 0x00),
        23 => (0xD6, 0x32, 0x00),
        24 => (0xC4, 0x62, 0x00),
        25 => (0x35, 0x80, 0x00),
        26 => (0x05, 0x8F, 0x00),
        27 => (0x00, 0x8A, 0x55),
        28 => (0x00, 0x99, 0xCC),
        29 => (0x21, 0x21, 0x21),
        30 => (0x09, 0x09, 0x09),
        31 => (0x09, 0x09, 0x09),
        32 => (0xFF, 0xFF, 0xFF),
        33 => (0x0F, 0xD7, 0xFF),
        34 => (0x69, 0xA2, 0xFF),
        35 => (0xD4, 0x80, 0xFF),
        36 => (0xFF, 0x45, 0xF3),
        37 => (0xFF, 0x61, 0x8B),
        38 => (0xFF, 0x88, 0x33),
        39 => (0xFF, 0x9C, 0x12),
        40 => (0xFA, 0xBC, 0x20),
        41 => (0x9F, 0xE3, 0x0E),
        42 => (0x2B, 0xF0, 0x35),
        43 => (0x0C, 0xF0, 0xA4),
        44 => (0x05, 0xFB, 0xFF),
        45 => (0x5E, 0x5E, 0x5E),
        46 => (0x0D, 0x0D, 0x0D),
        47 => (0x0D, 0x0D, 0x0D),
        48 => (0xFF, 0xFF, 0xFF),
        49 => (0xA6, 0xFC, 0xFF),
        50 => (0xB3, 0xEC, 0xFF),
        51 => (0xDA, 0xAB, 0xEB),
        52 => (0xFF, 0xA8, 0xF9),
        53 => (0xFF, 0xAB, 0xB3),
        54 => (0xFF, 0xD2, 0xB0),
        55 => (0xFF, 0xEF, 0xA6),
        56 => (0xFF, 0xF7, 0x9C),
        57 => (0xD7, 0xE8, 0x95),
        58 => (0xA6, 0xED, 0xAF),
        59 => (0xA2, 0xF2, 0xDA),
        60 => (0x99, 0xFF, 0xFC),
        61 => (0xDD, 0xDD, 0xDD),
        62 => (0x11, 0x11, 0x11),
        _ => (0x11, 0x11, 0x11),
    }
}

/// The palette index of pixel (`c`, `r`) of the nametable at `base`: the
/// tile's pattern pixel in the palette set that the attribute table gives
/// its 16x16 area, or the backdrop color where the pixel is 0.
pub open spec fn nametable_color(s: PpuState, base: int, r: int, c: int) -> u8 {
    let row = r / 8;
    let col = c / 8;
    let tile = s.memory[base + row * 32 + col];
    let attribute = s.memory[base + 0x3c0 + col / 4 + (row / 4) * 8];
    let set = attribute_quadrant(attribute, ((col % 4) / 2) as u16, ((row % 4) / 2) as u16);
    let value = s.pattern_value(
        s.control_register().spec_background_pattern_table(),
        tile,
        (c % 8) as u8,
        (r % 8) as u16,
    );
    if value == 0 {
        s.memory[0x3f00]
    } else {
        palette_entry(s.memory, 0x3f00, set as int, value - 1)
    }
}

/// A nametable pixel whose pattern value is not 0 takes its color from the
/// palette set of its 16x16 area: the attribute byte of its 32x32 block
/// (at `base + 0x3c0`, eight to a row), its bit pair at `2 * h + 4 * w`
/// where `h` and `w` say whether the pixel is in the right and bottom half
/// of the block.
pub proof fn lemma_nametable_palette_quadrant(s: PpuState, base: int, r: int, c: int)
    requires
        0 <= r < 240,
        0 <= c < 256,
    ensures
        ({
            let tile = s.memory[base + (r / 8) * 32 + c / 8];
            let attribute = s.memory[base + 0x3c0 + c / 32 + (r / 32) * 8];
            let shift = (2 * ((c / 16) % 2) + 4 * ((r / 16) % 2)) as u8;
            let value = s.pattern_value(
                s.control_register().spec_background_pattern_table(),
                tile,
                (c % 8) as u8,
                (r % 8) as u16,
            );
            value != 0 ==> nametable_color(s, base, r, c) == s.memory[0x3f00 + 1 + 4 * ((attribute
                >> shift) & 3) + value - 1]
        }),
{
    let row = r / 8;
    let col = c / 8;
    assert(col / 4 == c / 32 && row / 4 == r / 32 && (col % 4) / 2 == (c / 16) % 2 && (row % 4) / 2
        == (r / 16) % 2) by (nonlinear_arith)
        requires
            row == r / 8,
            col == c / 8,
            0 <= r,
            0 <= c,
    ;
    let attribute = s.memory[base + 0x3c0 + col / 4 + (row / 4) * 8];
    crate::ppu::lemma_attribute_quadrant_bits(
        attribute,
        ((col % 4) / 2) as u16,
        ((row % 4) / 2) as u16,
    );
}

/// Whether the two pattern bytes behind pixel (`c`, `r`) of the nametable
/// at `base` can be read.
pub open spec fn nametable_pixel_readable(s: PpuState, base: int, r: int, c: int) -> bool {
    let tile = s.memory[base + (r / 8) * 32 + c / 8];
    let address = PpuState::pattern_address(
        s.control_register().spec_background_pattern_table(),
        tile,
        (r % 8) as u16,
    );
    &&& s.cartridge.chr_defined(address as u16)
    &&& s.cartridge.chr_defined((address + 8) as u16)
}

/// Whether every pattern byte that the picture of the nametable at `base`
/// reads can be read.
pub open spec fn nametable_readable(s: PpuState, base: int) -> bool {
    forall|r: int, c: int|
        0 <= r < 240 && 0 <= c < 256 ==> #[trigger] nametable_pixel_readable(s, base, r, c)
}

/// When every pattern address can be read, so can both pattern tables and
/// the picture of any nametable.
pub proof fn lemma_patterns_readable_views(s: PpuState, base: int)
    requires
        s.wf(),
        s.patterns_readable(),
    ensures
        s.table_readable(PatternTableSelection::Left),
        s.table_readable(PatternTableSelection::Right),
        nametable_readable(s, base),
{
    assert forall|r: int, c: int| 0 <= r < 240 && 0 <= c < 256 implies #[trigger] nametable_pixel_readable(s, base, r, c) by {
        let tile = s.memory[base + (r / 8) * 32 + c / 8];
        let address = PpuState::pattern_address(
            s.control_register().spec_background_pattern_table(),
            tile,
            (r % 8) as u16,
        );
        assert(address + 8 < 0x2000);
        assert(s.cartridge.chr_defined(address as u16));
        assert(s.cartridge.chr_defined((address + 8) as u16));
    }
    assert forall|i: int| 0 <= i < 0x1000 implies #[trigger] s.cartridge.chr_defined(
        (PpuState::pattern_address(PatternTableSelection::Right, 0, 0) + i) as u16,
    ) by {
        assert(s.cartridge.chr_defined((0x1000 + i) as u16));
    }
    assert forall|i: int| 0 <= i < 0x1000 implies #[trigger] s.cartridge.chr_defined(
        (PpuState::pattern_address(PatternTableSelection::Left, 0, 0) + i) as u16,
    ) by {
        assert(s.cartridge.chr_defined(i as u16));
    }
}

/// The picture of the nametable at `nametable_address`, as palette
/// indices, with the current background pattern table.
pub fn nametable_colors(ppu: &Ppu, nametable_address: u16) -> (r: Vec<Vec<u8>>)
    requires
        ppu@.wf(),
        nametable_readable(ppu@, nametable_address as int),
        nametable_address < 0x2800,
    ensures
        r@.len() == 240,
        forall|y: int| 0 <= y < 240 ==> (#[trigger] r@[y])@.len() == 256,
        forall|y: int, x: int|
            0 <= y < 240 && 0 <= x < 256 ==> #[trigger] r@[y]@[x] == nametable_color(
                ppu@,
                nametable_address as int,
                y,
                x,
            ),
{
    let palette = ppu.get_color_palette();
    let video_buffer = ppu.get_buffer();
    let table = ppu.current_background_pattern_table();
    let base = nametable_address as usize;
    let mut rows: Vec<Vec<u8>> = Vec::new();
    let mut r: usize = 0;
    while r < 240
        invariant
            r <= 240,
            base == nametable_address,
            base < 0x2800,
            ppu@.wf(),
            nametable_readable(ppu@, base as int),
            video_buffer@ == ppu@.memory,
            table == ppu@.control_register().spec_background_pattern_table(),
            palette.background == ppu@.memory[0x3f00],
            forall|set: int, index: int|
                0 <= set < 4 && 0 <= index < 3 ==> #[trigger] palette.background_color_set@[set]@[index]
                    == palette_entry(ppu@.memory, 0x3f00, set, index),
            rows@.len() == r,
            forall|y: int| 0 <= y < r ==> (#[trigger] rows@[y])@.len() == 256,
            forall|y: int, x: int|
                0 <= y < r && 0 <= x < 256 ==> #[trigger] rows@[y]@[x] == nametable_color(
                    ppu@,
                    base as int,
                    y,
                    x,
                ),
        decreases 240 - r,
    {
        let mut line: Vec<u8> = Vec::new();
        let mut c: usize = 0;
        while c < 256
            invariant
                r < 240,
                c <= 256,
                base == nametable_address,
                base < 0x2800,
                ppu@.wf(),
                nametable_readable(ppu@, base as int),
                video_buffer@ == ppu@.memory,
                table == ppu@.control_register().spec_background_pattern_table(),
                palette.background == ppu@.memory[0x3f00],
                forall|set: int, index: int|
                    0 <= set < 4 && 0 <= index < 3 ==> #[trigger] palette.background_color_set@[set]@[index]
                        == palette_entry(ppu@.memory, 0x3f00, set, index),
                line@.len() == c,
                forall|x: int|
                    0 <= x < c ==> #[trigger] line@[x] == nametable_color(ppu@, base as int, r as int, x),
            decreases 256 - c,
        {
            let row = r / 8;
            let col = c / 8;
            let tile = video_buffer[base + row * 32 + col];
            let attribute = video_buffer[base + 0x3c0 + col / 4 + (row / 4) * 8];
            let set = palette_set_of(attribute, ((col % 4) / 2) as u16, ((row % 4) / 2) as u16);
            proof {
                let address = PpuState::pattern_address(table, tile, (r % 8) as u16);
                assert(address + 8 < 0x2000);
                assert(nametable_pixel_readable(ppu@, base as int, r as int, c as int));
                assert(ppu@.cartridge.chr_defined(address as u16));
                assert(ppu@.cartridge.chr_defined((address + 8) as u16));
            }
            let value = ppu.read_pattern_value(table, tile, (c % 8) as u8, (r % 8) as u16);
            let color = if value == 0 {
                palette.background
            } else {
                palette.background_color_set[set as usize][value as usize - 1]
            };
            line.push(color);
            c = c + 1;
        }
        rows.push(line);
        r = r + 1;
    }
    rows
}

/// The color of a screen pixel from the layers the PPU draws: a sprite in
/// front, else the background, else a sprite behind it, else the backdrop.
/// 0xff marks a transparent pixel.
pub open spec fn spec_composed_pixel(
    background: u8,
    foreground_sprite: u8,
    background_sprite: u8,
    backdrop: u8,
) -> u8 {
    if foreground_sprite != 0xff {
        foreground_sprite
    } else if background != 0xff {
        background
    } else if background_sprite != 0xff {
        background_sprite
    } else {
        backdrop
    }
}

pub fn composed_pixel(background: u8, foreground_sprite: u8, background_sprite: u8, backdrop: u8) -> (r: u8)
    ensures
        r == spec_composed_pixel(background, foreground_sprite, background_sprite, backdrop),
{
    if foreground_sprite != 0xff {
        foreground_sprite
    } else if background != 0xff {
        background
    } else if background_sprite != 0xff {
        background_sprite
    } else {
        backdrop
    }
}

/// The picture on screen: the layers of the PPU composed pixel by pixel.
pub fn screen_picture(ppu: &Ppu) -> (r: Vec<Vec<u8>>)
    requires
        ppu@.wf(),
    ensures
        r@.len() == 240,
        forall|y: int| 0 <= y < 240 ==> (#[trigger] r@[y])@.len() == 256,
        forall|y: int, x: int|
            0 <= y < 240 && 0 <= x < 256 ==> #[trigger] r@[y]@[x] == spec_composed_pixel(
                ppu@.frame[y][x],
                ppu@.foreground[y][x],
                ppu@.background[y][x],
                ppu@.memory[0x3f00],
            ),
{
    let frame = ppu.get_frame_buffer();
    let foreground = ppu.get_foreground_sprite_buffer();
    let background = ppu.get_background_sprite_buffer();
    let backdrop = ppu.get_buffer()[0x3f00];
    let mut rows: Vec<Vec<u8>> = Vec::new();
    let mut y: usize = 0;
    while y < 240
        invariant
            y <= 240,
            ppu@.wf(),
            rows_of(*frame) == ppu@.frame,
            rows_of(*foreground) == ppu@.foreground,
            rows_of(*background) == ppu@.background,
            backdrop == ppu@.memory[0x3f00],
            rows@.len() == y,
            forall|r: int| 0 <= r < y ==> (#[trigger] rows@[r])@.len() == 256,
            forall|r: int, x: int|
                0 <= r < y && 0 <= x < 256 ==> #[trigger] rows@[r]@[x] == spec_composed_pixel(
                    ppu@.frame[r][x],
                    ppu@.foreground[r][x],
                    ppu@.background[r][x],
                    backdrop,
                ),
        decreases 240 - y,
    {
        let mut line: Vec<u8> = Vec::new();
        let mut x: usize = 0;
        while x < 256
            invariant
                y < 240,
                x <= 256,
                rows_of(*frame) == ppu@.frame,
                rows_of(*foreground) == ppu@.foreground,
                rows_of(*background) == ppu@.background,
                line@.len() == x,
                forall|c: int|
                    0 <= c < x ==> #[trigger] line@[c] == spec_composed_pixel(
                        ppu@.frame[y as int][c],
                        ppu@.foreground[y as int][c],
                        ppu@.background[y as int][c],
                        backdrop,
                    ),
            decreases 256 - x,
        {
            line.push(composed_pixel(frame[y][x], foreground[y][x], background[y][x], backdrop));
            x = x + 1;
        }
        rows.push(line);
        y = y + 1;
    }
    rows
}

/// The pixel at (`x`, `y`) of the 128 by 128 picture of a pattern table:
/// its 256 tiles in 16 rows of 16.
pub open spec fn pattern_table_pixel(pixels: Seq<u8>, x: int, y: int) -> u8 {
    pixels[((y / 8) * 16 + x / 8) * 64 + (y % 8) * 8 + x % 8]
}

/// The picture of a pattern table from its tile pixels (as
/// [`pattern_bank_pixels`] lays them out): color 0 shows `backdrop`, the
/// others `colors`.
pub fn pattern_table_picture(pixels: &[u8], backdrop: u8, colors: [u8; 3]) -> (r: Vec<u8>)
    requires
        pixels@.len() == 256 * 64,
        forall|i: int| 0 <= i < 256 * 64 ==> #[trigger] pixels@[i] <= 3,
    ensures
        r@.len() == 128 * 128,
        forall|y: int, x: int|
            0 <= y < 128 && 0 <= x < 128 ==> #[trigger] r@[y * 128 + x] == {
                let value = pattern_table_pixel(pixels@, x, y);
                if value == 0 {
                    backdrop
                } else {
                    colors@[value - 1]
                }
            },
{
    let mut picture: Vec<u8> = Vec::new();
    let mut i: usize = 0;
    while i < 128 * 128
        invariant
            i <= 128 * 128,
            pixels@.len() == 256 * 64,
            forall|j: int| 0 <= j < 256 * 64 ==> #[trigger] pixels@[j] <= 3,
            picture@.len() == i,
            forall|j: int|
                0 <= j < i ==> #[trigger] picture@[j] == {
                    let value = pattern_table_pixel(pixels@, j % 128, j / 128);
                    if value == 0 {
                        backdrop
                    } else {
                        colors@[value - 1]
                    }
                },
        decreases 128 * 128 - i,
    {
        let y = i / 128;
        let x = i % 128;
        let index = ((y / 8) * 16 + x / 8) * 64 + (y % 8) * 8 + x % 8;
        let value = pixels[index];
        let color = if value == 0 {
            backdrop
        } else {
            colors[value as usize - 1]
        };
        picture.push(color);
        i = i + 1;
    }
    proof {
        assert forall|y: int, x: int| 0 <= y < 128 && 0 <= x < 128 implies #[trigger] picture@[y
            * 128 + x] == {
            let value = pattern_table_pixel(pixels@, x, y);
            if value == 0 {
                backdrop
            } else {
                colors@[value - 1]
            }
        } by {
            assert((y * 128 + x) % 128 == x && (y * 128 + x) / 128 == y) by (nonlinear_arith)
                requires
                    0 <= y < 128,
                    0 <= x < 128,
            ;
        }
    }
    picture
}

/// The red, green and blue bytes of each palette index, one after another.
pub fn rgb_bytes(indices: &[u8]) -> (r: Vec<u8>)
    requires
        forall|i: int| 0 <= i < indices@.len() ==> #[trigger] indices@[i] < 64,
        indices@.len() * 3 <= usize::MAX,
    ensures
        r@.len() == 3 * indices@.len(),
        forall|i: int|
            0 <= i < indices@.len() ==> (#[trigger] r@[3 * i], r@[3 * i + 1], r@[3 * i + 2])
                == spec_system_color(indices@[i]),
{
    let mut bytes: Vec<u8> = Vec::new();
    let mut i: usize = 0;
    while i < indices.len()
        invariant
            i <= indices@.len(),
            forall|j: int| 0 <= j < indices@.len() ==> #[trigger] indices@[j] < 64,
            bytes@.len() == 3 * i,
            forall|j: int|
                0 <= j < i ==> (#[trigger] bytes@[3 * j], bytes@[3 * j + 1], bytes@[3 * j + 2])
                    == spec_system_color(indices@[j]),
        decreases indices@.len() - i,
    {
        let (red, green, blue) = system_color(indices[i]);
        bytes.push(red);
        bytes.push(green);
        bytes.push(blue);
        i = i + 1;
    }
    bytes
}

} // verus!
