//! The picture processing unit: its registers, video memory, sprite memory,
//! and the dot-by-dot rendering of the background and of sprites.

use vstd::prelude::*;

use crate::ines::Cartridge;

verus! {

/// The video memory of the PPU.
pub type VideoMemoryBuffer = [u8; 0x4000];

/// The toggle shared by the scroll and address registers: which of the two
/// writes comes next.
#[derive(Debug, Clone, Copy, PartialEq, Eq, Structural)]
pub enum WriteLatch {
    One,
    Zero,
}

impl WriteLatch {
    pub open spec fn flipped(self) -> WriteLatch {
        match self {
            WriteLatch::Zero => WriteLatch::One,
            WriteLatch::One => WriteLatch::Zero,
        }
    }

    fn flip(&mut self)
        ensures
            *final(self) == old(self).flipped(),
    {
        match self {
            WriteLatch::Zero => *self = WriteLatch::One,
            WriteLatch::One => *self = WriteLatch::Zero,
        }
    }
}

/// Flipping the latch twice leaves it as it was.
pub proof fn lemma_flip_twice(latch: WriteLatch)
    ensures
        latch.flipped().flipped() == latch,
{
}

#[derive(Debug, Clone, Copy, PartialEq, Eq, Structural)]
pub enum PatternTableSelection {
    Left,
    Right,
}

#[derive(Debug, Clone, Copy, PartialEq, Eq, Structural)]
pub enum DrawPriority {
    Foreground,
    Background,
}

#[derive(Debug, Clone, Copy, PartialEq, Eq, Structural)]
pub enum SpriteDrawingMode {
    Draw8x8,
    Draw8x16,
}

/// One sprite of object attribute memory, decoded.
#[derive(Debug, Clone, Copy, PartialEq, Eq, Structural)]
pub struct SpriteData {
    pub x: u8,
    pub y: u8,
    pub tile_number: u8,
    pub tile_pattern: PatternTableSelection,
    pub color_palette: u8,
    pub draw_priority: DrawPriority,
    pub flip_horizontal: bool,
    pub flip_vertical: bool,
    pub drawing_mode: SpriteDrawingMode,
}

/// PPU control register ($2000).
#[derive(Debug, Clone, Copy, PartialEq, Eq, Structural)]
pub struct PpuControl {
    pub bits: u8,
}

// Bits of the control register.
pub const GENERATE_NMI_AT_VBLANK: u8 = 0b10000000;

pub const SPRITE_8X16_MODE: u8 = 0b00100000;

pub const BACKGROUND_PATTERN_TABLE_FLAG: u8 = 0b00010000;

pub const SPRITE_PATTERN_TABLE_FLAG: u8 = 0b00001000;

pub const ADDRESS_INCREMENT_FLAG: u8 = 0b00000100;

// Bits of the mask register.
pub const SHOW_SPRITES: u8 = 0b00010000;

pub const SHOW_BACKGROUND: u8 = 0b00001000;

pub const SHOW_LEFTMOST_SPRITES: u8 = 0b00000100;

pub const SHOW_LEFTMOST_BACKGROUND: u8 = 0b00000010;

// Bits of the status register.
pub const IN_VBLANK: u8 = 0b10000000;

pub const SPRITE_0_HIT: u8 = 0b01000000;

impl PpuControl {
    /// The control register with the given bits; every bit has a meaning.
    pub fn from_bits(bits: u8) -> (r: Option<PpuControl>)
        ensures
            r == Some(PpuControl { bits }),
    {
        Some(PpuControl { bits })
    }

    pub fn bits(&self) -> (r: u8)
        ensures
            r == self.bits,
    {
        self.bits
    }

    pub open spec fn spec_drawing_mode(self) -> SpriteDrawingMode {
        if self.bits & SPRITE_8X16_MODE != 0 {
            SpriteDrawingMode::Draw8x16
        } else {
            SpriteDrawingMode::Draw8x8
        }
    }

    pub fn drawing_mode(&self) -> (r: SpriteDrawingMode)
        ensures
            r == self.spec_drawing_mode(),
    {
        if self.bits & SPRITE_8X16_MODE != 0 {
            SpriteDrawingMode::Draw8x16
        } else {
            SpriteDrawingMode::Draw8x8
        }
    }

    pub open spec fn spec_address_increment(self) -> u16 {
        if self.bits & ADDRESS_INCREMENT_FLAG != 0 {
            32
        } else {
            1
        }
    }

    pub fn address_increment(&self) -> (r: u16)
        ensures
            r == self.spec_address_increment(),
    {
        if self.bits & ADDRESS_INCREMENT_FLAG != 0 {
            32
        } else {
            1
        }
    }

    pub open spec fn spec_background_pattern_table(self) -> PatternTableSelection {
        if self.bits & BACKGROUND_PATTERN_TABLE_FLAG != 0 {
            PatternTableSelection::Right
        } else {
            PatternTableSelection::Left
        }
    }

    pub fn background_pattern_table(&self) -> (r: PatternTableSelection)
        ensures
            r == self.spec_background_pattern_table(),
    {
        if self.bits & BACKGROUND_PATTERN_TABLE_FLAG != 0 {
            PatternTableSelection::Right
        } else {
            PatternTableSelection::Left
        }
    }

    pub open spec fn spec_sprite_pattern_table(self) -> PatternTableSelection {
        if self.bits & SPRITE_PATTERN_TABLE_FLAG != 0 {
            PatternTableSelection::Right
        } else {
            PatternTableSelection::Left
        }
    }

    pub fn sprite_pattern_table(&self) -> (r: PatternTableSelection)
        ensures
            r == self.spec_sprite_pattern_table(),
    {
        if self.bits & SPRITE_PATTERN_TABLE_FLAG != 0 {
            PatternTableSelection::Right
        } else {
            PatternTableSelection::Left
        }
    }
}

/// PPU mask register ($2001).
#[derive(Debug, Clone, Copy, PartialEq, Eq, Structural)]
pub struct PpuMask {
    pub bits: u8,
}

impl PpuMask {
    /// The mask register with the given bits; every bit has a meaning.
    pub fn from_bits(bits: u8) -> (r: Option<PpuMask>)
        ensures
            r == Some(PpuMask { bits }),
    {
        Some(PpuMask { bits })
    }

    pub open spec fn spec_is_rendering_enabled(self) -> bool {
        self.bits & SHOW_SPRITES != 0 || self.bits & SHOW_BACKGROUND != 0
    }

    fn is_rendering_enabled(&self) -> (r: bool)
        ensures
            r == self.spec_is_rendering_enabled(),
    {
        self.bits & SHOW_SPRITES != 0 || self.bits & SHOW_BACKGROUND != 0
    }
}

/// PPU status register ($2002).
#[derive(Debug, Clone, Copy, PartialEq, Eq, Structural)]
pub struct PpuStatus {
    pub bits: u8,
}

impl PpuStatus {
    pub fn bits(&self) -> (r: u8)
        ensures
            r == self.bits,
    {
        self.bits
    }
}

pub enum ScanlineEffect {
    EnterVblank,
}

/// How the four logical nametables map onto the two physical ones.
#[derive(Debug, Clone, Copy, PartialEq, Eq, Structural)]
pub enum Mirroring {
    Horizontal,
    Vertical,
    OneScreenLow,
    OneScreenHigh,
}

impl Mirroring {
    /// The physical nametable address of `address`.
    pub open spec fn spec_real_address(self, address: u16) -> u16 {
        match self {
            Mirroring::Vertical => (address & 0x23ff) | (address & 0x400),
            Mirroring::Horizontal => (address & 0x23ff) | ((address / 2) & 0x400),
            Mirroring::OneScreenLow => address & 0x23ff,
            Mirroring::OneScreenHigh => (address & 0x23ff) | 0x400,
        }
    }

    /// The physical nametable address of `address`.
    pub fn real_address(&self, address: u16) -> (r: u16)
        ensures
            r == self.spec_real_address(address),
            r < 0x2800,
    {
        proof {
            lemma_real_address_bound(*self, address);
        }
        match self {
            Mirroring::Vertical => (address & 0x23ff) | (address & 0x400),
            Mirroring::Horizontal => (address & 0x23ff) | ((address / 2) & 0x400),
            Mirroring::OneScreenLow => address & 0x23ff,
            Mirroring::OneScreenHigh => (address & 0x23ff) | 0x400,
        }
    }
}

/// Every mirroring maps an address below 0x2800, and a nametable address
/// (0x2000 to 0x2fff) onto one of the two physical nametables at 0x2000 and
/// 0x2400.
pub proof fn lemma_real_address_bound(m: Mirroring, address: u16)
    ensures
        m.spec_real_address(address) < 0x2800,
        0x2000 <= address < 0x3000 ==> 0x2000 <= m.spec_real_address(address) < 0x2800,
{
    assert(((address & 0x23ff) | (address & 0x400)) < 0x2800 && ((address & 0x23ff) | ((address
        / 2) & 0x400)) < 0x2800 && (address & 0x23ff) < 0x2800 && ((address & 0x23ff) | 0x400)
        < 0x2800 && (0x2000 <= address < 0x3000 ==> 0x2000 <= ((address & 0x23ff) | (address
        & 0x400)) && 0x2000 <= ((address & 0x23ff) | ((address / 2) & 0x400)) && 0x2000 <= (
    address & 0x23ff) && 0x2000 <= ((address & 0x23ff) | 0x400))) by (bit_vector);
}

/// Vertical mirroring puts the left and right nametables side by side and
/// repeats them below; horizontal mirroring stacks the top and bottom
/// nametables and repeats them to the right.
pub proof fn lemma_mirroring_layout()
    ensures
        Mirroring::Vertical.spec_real_address(0x2000) == 0x2000,
        Mirroring::Vertical.spec_real_address(0x2400) == 0x2400,
        Mirroring::Vertical.spec_real_address(0x2800) == 0x2000,
        Mirroring::Vertical.spec_real_address(0x2c00) == 0x2400,
        Mirroring::Horizontal.spec_real_address(0x2000) == 0x2000,
        Mirroring::Horizontal.spec_real_address(0x2400) == 0x2000,
        Mirroring::Horizontal.spec_real_address(0x2800) == 0x2400,
        Mirroring::Horizontal.spec_real_address(0x2c00) == 0x2400,
{
    assert(((0x2000u16 & 0x23ff) | (0x2000u16 & 0x400)) == 0x2000 && ((0x2400u16 & 0x23ff) | (
    0x2400u16 & 0x400)) == 0x2400 && ((0x2800u16 & 0x23ff) | (0x2800u16 & 0x400)) == 0x2000 && ((
    0x2c00u16 & 0x23ff) | (0x2c00u16 & 0x400)) == 0x2400 && ((0x2000u16 & 0x23ff) | ((0x2000u16
        / 2) & 0x400)) == 0x2000 && ((0x2400u16 & 0x23ff) | ((0x2400u16 / 2) & 0x400)) == 0x2000
        && ((0x2800u16 & 0x23ff) | ((0x2800u16 / 2) & 0x400)) == 0x2400 && ((0x2c00u16 & 0x23ff) | (
    (0x2c00u16 / 2) & 0x400)) == 0x2400) by (bit_vector);
}

/// Where a nametable address `a` (0x2000..0x2fff) is stored: vertical
/// mirroring folds the 4 KiB onto 2 KiB every 0x800 bytes (the left and
/// right nametables), horizontal mirroring keeps the top pair and the
/// bottom pair apart and folds each pair onto one 1 KiB table, and the
/// single-screen modes fold everything onto the low or the high table.
pub proof fn lemma_nametable_mirroring(a: u16)
    requires
        0x2000 <= a < 0x3000,
    ensures
        Mirroring::Vertical.spec_real_address(a) == 0x2000 + (a - 0x2000) % 0x800,
        Mirroring::Horizontal.spec_real_address(a) == 0x2000 + ((a - 0x2000) / 0x800) * 0x400 + a
            % 0x400,
        Mirroring::OneScreenLow.spec_real_address(a) == 0x2000 + a % 0x400,
        Mirroring::OneScreenHigh.spec_real_address(a) == 0x2400 + a % 0x400,
{
    assert(((a & 0x23ff) | (a & 0x400)) == 0x2000 + (a - 0x2000) % 0x800 && ((a & 0x23ff) | ((a
        / 2) & 0x400)) == 0x2000 + ((a - 0x2000) / 0x800) * 0x400 + a % 0x400 && a & 0x23ff
        == 0x2000 + a % 0x400 && ((a & 0x23ff) | 0x400) == 0x2400 + a % 0x400) by (bit_vector)
        requires
            0x2000 <= a < 0x3000,
    ;
}

/// The address that a PPU address refers to after the mirrors of the
/// nametables (0x3000 to 0x3eff) and of the palettes (0x3f20 to 0x3fff).
pub open spec fn spec_map_mirror(address: u16) -> u16 {
    if 0x3000 <= address <= 0x3eff {
        (address - 0x1000) as u16
    } else if 0x3f20 <= address <= 0x3fff {
        ((address - 0x3f00) % 0x20 + 0x3f00) as u16
    } else {
        address
    }
}

fn map_mirror(address: u16) -> (r: u16)
    ensures
        r == spec_map_mirror(address),
{
    if address >= 0x3000 && address <= 0x3eff {
        address - 0x1000
    } else if address >= 0x3f20 && address <= 0x3fff {
        (address - 0x3f00) % 0x20 + 0x3f00
    } else {
        address
    }
}

/// Mapping the mirrors twice is mapping them once, and an address of video
/// memory stays in video memory.
pub proof fn lemma_map_mirror(address: u16)
    ensures
        spec_map_mirror(spec_map_mirror(address)) == spec_map_mirror(address),
        address < 0x4000 ==> spec_map_mirror(address) < 0x4000,
        address < 0x3000 ==> spec_map_mirror(address) == address,
{
}

/// The colors of the current palettes.
pub struct ColorPalette {
    pub background: u8,
    pub background_color_set: [[u8; 3]; 4],
    pub sprite_color_set: [[u8; 3]; 4],
}

/// Pattern data that the renderer reads: the cartridge and the two pattern
/// tables of video memory.
pub struct PatternTableRef<'a> {
    pub cartridge: &'a Cartridge,
    pub left_vram: &'a [u8],
    pub right_vram: &'a [u8],
}

/// The state of the PPU.
#[verifier::ext_equal]
pub struct PpuState {
    pub memory: Seq<u8>,
    pub write_latch: WriteLatch,
    pub status: u8,
    pub oam_address: u8,
    pub oam: Seq<u8>,
    pub control: u8,
    pub mask: u8,
    pub read_buffer: u8,
    pub x: u8,
    pub t: u16,
    pub v: u16,
    pub scanline: u32,
    pub dot: u32,
    pub fine_x: u8,
    pub frame: Seq<Seq<u8>>,
    pub foreground: Seq<Seq<u8>>,
    pub background: Seq<Seq<u8>>,
    pub cartridge: Cartridge,
}

/// A screen-sized buffer as rows of bytes.
pub open spec fn rows_of(buffer: [[u8; 256]; 240]) -> Seq<Seq<u8>> {
    buffer@.map_values(|row: [u8; 256]| row@)
}

/// A screen-sized buffer filled with `value`.
pub open spec fn filled(value: u8) -> Seq<Seq<u8>> {
    Seq::new(240, |y: int| Seq::new(256, |x: int| value))
}

/// The picture processing unit.
pub struct Ppu {
    memory: VideoMemoryBuffer,
    write_latch: WriteLatch,
    status: PpuStatus,
    current_oam_address: u8,
    oam_data: [u8; 256],
    control: PpuControl,
    mask: PpuMask,
    read_buffer: u8,
    x: u8,
    t: u16,
    v: u16,
    current_scanline: u32,
    current_dot: u32,
    current_fine_x: u8,
    frame_buffer: [[u8; 256]; 240],
    foreground_sprite_buffer: [[u8; 256]; 240],
    background_sprite_buffer: [[u8; 256]; 240],
    cartridge: Cartridge,
}

impl View for Ppu {
    type V = PpuState;

    closed spec fn view(&self) -> PpuState {
        PpuState {
            memory: self.memory@,
            write_latch: self.write_latch,
            status: self.status.bits,
            oam_address: self.current_oam_address,
            oam: self.oam_data@,
            control: self.control.bits,
            mask: self.mask.bits,
            read_buffer: self.read_buffer,
            x: self.x,
            t: self.t,
            v: self.v,
            scanline: self.current_scanline,
            dot: self.current_dot,
            fine_x: self.current_fine_x,
            frame: rows_of(self.frame_buffer),
            foreground: rows_of(self.foreground_sprite_buffer),
            background: rows_of(self.background_sprite_buffer),
            cartridge: self.cartridge,
        }
    }
}

impl PpuState {
    /// The invariant of the PPU: the sizes of its memories and buffers, the
    /// position of the beam, and the fine scroll values.
    pub open spec fn wf(self) -> bool {
        &&& self.memory.len() == 0x4000
        &&& self.oam.len() == 256
        &&& self.scanline < 262
        &&& self.dot <= 340
        &&& self.fine_x <= 7
        &&& self.x <= 7
        &&& screen_sized(self.frame)
        &&& screen_sized(self.foreground)
        &&& screen_sized(self.background)
    }

    pub open spec fn control_register(self) -> PpuControl {
        PpuControl { bits: self.control }
    }

    pub open spec fn increment(self) -> u16 {
        self.control_register().spec_address_increment()
    }

    pub open spec fn mirroring(self) -> Mirroring {
        self.cartridge.spec_mirroring()
    }

    /// The byte of pattern data at `address`: the cartridge's, or else the
    /// one in video memory.
    pub open spec fn pattern_byte(self, address: u16) -> u8 {
        match self.cartridge.chr_value(address) {
            Some(b) => b,
            None => self.memory[address as int],
        }
    }

    /// Whether pattern data can be read at `address`.
    pub open spec fn pattern_readable(self, address: u16) -> bool {
        address < 0x4000 && self.cartridge.chr_defined(address)
    }

    /// Whether every pattern address can be read.
    pub open spec fn patterns_readable(self) -> bool {
        forall|a: u16| a < 0x2000 ==> #[trigger] self.cartridge.chr_defined(a)
    }

    /// Whether each of the 4 KiB of pattern table `table` can be read.
    pub open spec fn table_readable(self, table: PatternTableSelection) -> bool {
        forall|i: int|
            0 <= i < 0x1000 ==> #[trigger] self.cartridge.chr_defined(
                (Self::pattern_address(table, 0, 0) + i) as u16,
            )
    }

    /// The address of row `y` of tile `tile` in pattern table `table`.
    pub open spec fn pattern_address(table: PatternTableSelection, tile: u8, y: u16) -> int {
        (if table == PatternTableSelection::Right {
            0x1000int
        } else {
            0
        }) + tile * 0x10 + y
    }

    /// The two-bit color index of pixel `x` of row `y` of a tile.
    pub open spec fn pattern_value(self, table: PatternTableSelection, tile: u8, x: u8, y: u16) -> u8 {
        let address = Self::pattern_address(table, tile, y) as u16;
        let low = self.pattern_byte(address);
        let high = self.pattern_byte((address + 8) as u16);
        let shift = (7 - x) as u8;
        (((low >> shift) & 1) + ((high >> shift) & 1) * 2) as u8
    }

    /// Whether the color index of pixel `x` of row `y` of a tile can be read.
    pub open spec fn pattern_value_defined(
        self,
        table: PatternTableSelection,
        tile: u8,
        x: u8,
        y: u16,
    ) -> bool {
        let address = Self::pattern_address(table, tile, y);
        &&& x <= 7
        &&& address + 8 < 0x4000
        &&& self.pattern_readable(address as u16)
        &&& self.pattern_readable((address + 8) as u16)
    }
}

/// Whether a buffer has 240 rows of 256 bytes.
pub open spec fn screen_sized(buffer: Seq<Seq<u8>>) -> bool {
    buffer.len() == 240 && forall|y: int| 0 <= y < 240 ==> (#[trigger] buffer[y]).len() == 256
}

impl PpuState {
    pub open spec fn with_control(self, value: u8) -> PpuState {
        PpuState { control: value, t: (self.t & !0xc00u16) | (((value as u16) & 0b11) << 10u16), ..self }
    }

    /// The state after PPU status is read, and the byte read.
    pub open spec fn status_read(self) -> (PpuState, u8) {
        (PpuState { write_latch: WriteLatch::Zero, status: self.status & !IN_VBLANK, ..self }, self.status)
    }

    /// The state after a write through the OAM data port.
    pub open spec fn oam_written(self, data: u8) -> PpuState {
        PpuState {
            oam: self.oam.update(self.oam_address as int, data),
            oam_address: (self.oam_address + 1) as u8,
            ..self
        }
    }

    /// Whether a read or write through the data port is defined: the address
    /// is in video memory and, for pattern data, the cartridge defines it.
    pub open spec fn data_port_defined(self) -> bool {
        &&& self.v < 0x4000
        &&& self.v < 0x2000 ==> self.cartridge.chr_defined(self.v)
    }

    /// `v` after a data port access.
    pub open spec fn next_v(self) -> u16 {
        ((self.v + self.increment()) % 0x10000) as u16
    }

    /// The state after a read through the data port, and the byte read:
    /// palette reads are immediate, other reads return the byte buffered by
    /// the previous read.
    pub open spec fn data_read(self) -> (PpuState, u8) {
        let mapped = spec_map_mirror(self.v);
        if self.v >= 0x3f00 {
            (
                PpuState {
                    read_buffer: self.memory[self.v - 0x1000],
                    v: self.next_v(),
                    ..self
                },
                self.memory[mapped as int],
            )
        } else {
            let value = if mapped < 0x2000 {
                self.pattern_byte(mapped)
            } else {
                self.memory[self.mirroring().spec_real_address(mapped) as int]
            };
            (PpuState { read_buffer: value, v: self.next_v(), ..self }, self.read_buffer)
        }
    }

    /// The state after `data` is written through the data port.
    pub open spec fn data_written(self, data: u8) -> PpuState {
        let mapped = spec_map_mirror(self.v);
        let m1 = self.memory.update(mapped as int, data);
        let m2 = if mapped == 0x3f00 {
            m1.update(0x3f10, data)
        } else if mapped == 0x3f10 {
            m1.update(0x3f00, data)
        } else {
            m1
        };
        let m3 = if 0x2000 <= mapped < 0x3f00 {
            m2.update(self.mirroring().spec_real_address(mapped) as int, data)
        } else {
            m2
        };
        PpuState { memory: m3, v: self.next_v(), ..self }
    }

    /// The state after a write to the scroll register.
    pub open spec fn scroll_written(self, position: u8) -> PpuState {
        match self.write_latch {
            WriteLatch::Zero => PpuState {
                x: position & 0b111,
                t: (self.t & !0b11111u16) | ((position / 8) as u16),
                write_latch: WriteLatch::One,
                ..self
            },
            WriteLatch::One => PpuState {
                t: (self.t & !0b111001111100000u16) | (((position / 8) as u16) << 5u16) | (((
                position & 0b111) as u16) << 12u16),
                write_latch: WriteLatch::Zero,
                ..self
            },
        }
    }

    /// The state after a write to the address register.
    pub open spec fn address_written(self, value: u8) -> PpuState {
        match self.write_latch {
            WriteLatch::Zero => PpuState {
                t: (self.t & 0xffu16) | (((value & 0x3f) as u16) << 8u16),
                write_latch: WriteLatch::One,
                ..self
            },
            WriteLatch::One => {
                let t = (self.t & 0xff00u16) | (value as u16);
                PpuState {
                    t,
                    v: t,
                    write_latch: WriteLatch::Zero,
                    cartridge: if 0x1000 <= t < 0x2000 {
                        self.cartridge.ticked()
                    } else {
                        self.cartridge
                    },
                    ..self
                }
            },
        }
    }

    /// Object attribute memory after a DMA copy of `data` starting at the
    /// OAM address.
    pub open spec fn oam_copied(self, data: Seq<u8>) -> PpuState {
        PpuState {
            oam: Seq::new(256, |j: int| data[(j - self.oam_address + 256) % 256]),
            ..self
        }
    }
}

/// `n` dots of the PPU: the state after them, and whether a frame became
/// ready during them.
pub open spec fn steps(s: PpuState, n: nat) -> (PpuState, bool)
    decreases n,
{
    if n == 0 {
        (s, false)
    } else {
        let (t, ready) = s.stepped();
        let (u, later) = steps(t, (n - 1) as nat);
        (u, ready || later)
    }
}

/// Every register access keeps the PPU state well formed, and none of them
/// makes a pattern address unreadable.
pub proof fn lemma_register_access_keeps_wf(s: PpuState, value: u8, data: Seq<u8>)
    requires
        s.wf(),
        s.patterns_readable(),
    ensures
        s.with_control(value).wf() && s.with_control(value).patterns_readable(),
        (PpuState { mask: value, ..s }).wf() && (PpuState { mask: value, ..s }).patterns_readable(),
        s.scroll_written(value).wf() && s.scroll_written(value).patterns_readable(),
        s.address_written(value).wf() && s.address_written(value).patterns_readable(),
        s.v < 0x4000 ==> s.data_written(value).wf() && s.data_written(value).patterns_readable(),
        (PpuState { oam_address: value, ..s }).wf() && (PpuState {
            oam_address: value,
            ..s
        }).patterns_readable(),
        s.oam_address < 255 ==> s.oam_written(value).wf() && s.oam_written(value).patterns_readable(),
        s.oam_copied(data).wf() && s.oam_copied(data).patterns_readable(),
        (PpuState { write_latch: WriteLatch::Zero, ..s }).wf() && (PpuState {
            write_latch: WriteLatch::Zero,
            ..s
        }).patterns_readable(),
        s.data_read().0.wf() && s.data_read().0.patterns_readable(),
{
    assert(value & 0b111 <= 7) by (bit_vector);
    s.cartridge.lemma_tick_keeps_patterns();
    let mapped = spec_map_mirror(s.v);
    lemma_map_mirror(s.v);
    lemma_real_address_bound(s.mirroring(), mapped);
}

/// A frame is ready exactly at dot 1 of scanline 241, where vertical blank
/// starts; the beam then moves on by one dot.
pub proof fn lemma_frame_ready_at_vblank(s: PpuState)
    requires
        s.wf(),
    ensures
        s.stepped().1 == (s.scanline == 241 && s.dot == 1),
        s.stepped().1 ==> s.stepped().0.status & IN_VBLANK != 0,
        s.stepped().0.dot == if s.dot == 340 {
            0
        } else {
            s.dot + 1
        },
{
    let status = s.status;
    assert((status | IN_VBLANK) & IN_VBLANK != 0) by (bit_vector);
}

/// With neither the background nor the sprites shown, a dot moves no scroll
/// address, draws nothing into the frame, sets no sprite 0 hit and does not
/// tick the cartridge.
pub proof fn lemma_step_rendering_disabled(s: PpuState)
    requires
        s.wf(),
        !s.rendering_enabled(),
    ensures
        s.stepped().0.v == s.v,
        s.stepped().0.frame == s.frame,
        s.stepped().0.cartridge == s.cartridge,
        s.stepped().0.status & SPRITE_0_HIT != 0 ==> s.status & SPRITE_0_HIT != 0,
{
    let mask = s.mask;
    let status = s.status;
    assert((mask & 0b00001000 == 0 ==> mask & (0b00001000u8 | 0b00010000u8) != (0b00001000u8
        | 0b00010000u8)) && ((status | 0b10000000u8) & 0b01000000u8 != 0 ==> status & 0b01000000u8
        != 0) && status & !0b10000000u8 & !0b01000000u8 & 0b01000000u8 == 0) by (bit_vector);
}

/// The backdrop is shared: a data port write to 0x3f10 shows at 0x3f00 and
/// the other way round.
pub proof fn lemma_backdrop_mirror(s: PpuState, d: u8)
    requires
        s.wf(),
        s.v == 0x3f10 || s.v == 0x3f00,
    ensures
        s.data_written(d).memory[0x3f00] == d,
        s.data_written(d).memory[0x3f10] == d,
{
}

/// The data port: each access moves `v` on by 32 when bit 2 of the control
/// register is set and by 1 otherwise. A read below the palettes returns
/// the byte buffered by the previous read; a palette read returns the
/// palette byte at once, the palettes repeating every 0x20 bytes. A status
/// read returns the status, clears the vertical blank bit (bit 7) and
/// nothing else, and resets the write latch.
pub proof fn lemma_data_and_status_ports(s: PpuState, d: u8)
    requires
        s.wf(),
    ensures
        ({
            let step: int = if s.control & 0b100 != 0 {
                32
            } else {
                1
            };
            &&& s.data_written(d).v == (s.v + step) % 0x10000
            &&& s.data_read().0.v == (s.v + step) % 0x10000
            &&& s.v < 0x3f00 ==> s.data_read().1 == s.read_buffer
            &&& 0x3f00 <= s.v < 0x4000 ==> s.data_read().1 == s.memory[0x3f00 + (s.v - 0x3f00)
                % 0x20]
            &&& s.status_read().1 == s.status
            &&& s.status_read().0.status == s.status % 0x80
            &&& s.status_read().0.write_latch == WriteLatch::Zero
        }),
{
    let status = s.status;
    assert(status & !0b10000000u8 == status % 0x80) by (bit_vector);
}

/// Two scroll writes from a cleared latch: the first gives the fine and
/// coarse horizontal scroll, the second the fine and coarse vertical
/// scroll, in the bits of `t` where rendering reads them; the nametable bits
/// of `t` stay, and the latch is cleared again.
pub proof fn lemma_scroll_written_twice(s: PpuState, horizontal: u8, vertical: u8)
    requires
        s.write_latch == WriteLatch::Zero,
    ensures
        ({
            let u = s.scroll_written(horizontal).scroll_written(vertical);
            &&& u.x == horizontal % 8
            &&& u.t & 0b11111 == horizontal / 8
            &&& (u.t >> 5u16) & 0b11111 == vertical / 8
            &&& (u.t >> 12u16) & 0b111 == vertical % 8
            &&& u.t & 0x0c00 == s.t & 0x0c00
            &&& u.write_latch == WriteLatch::Zero
            &&& u == (PpuState { x: u.x, t: u.t, ..s })
        }),
{
    let t0 = s.t;
    let h = horizontal;
    let w = vertical;
    let t1 = (t0 & !0b11111u16) | ((h / 8) as u16);
    let t2 = (t1 & !0b111001111100000u16) | (((w / 8) as u16) << 5u16) | (((w & 0b111) as u16)
        << 12u16);
    assert(h & 0b111 == h % 8 && t2 & 0b11111 == h / 8 && (t2 >> 5u16) & 0b11111 == w / 8 && (t2
        >> 12u16) & 0b111 == w % 8 && t2 & 0x0c00 == t0 & 0x0c00) by (bit_vector)
        requires
            t1 == (t0 & !0b11111u16) | ((h / 8) as u16),
            t2 == (t1 & !0b111001111100000u16) | (((w / 8) as u16) << 5u16) | (((w & 0b111) as u16)
                << 12u16),
    ;
}

/// The address that two writes of `hi` and `lo` to the address register set.
pub open spec fn port_address(hi: u8, lo: u8) -> u16 {
    (((hi & 0x3f) as u16) << 8u16) | (lo as u16)
}

/// Writing the address register twice, from a cleared latch, points `v`
/// (and `t`) at the address of the two bytes and clears the latch again.
pub proof fn lemma_address_written_twice(s: PpuState, hi: u8, lo: u8)
    requires
        s.write_latch == WriteLatch::Zero,
    ensures
        s.address_written(hi).address_written(lo).v == port_address(hi, lo),
        s.address_written(hi).address_written(lo).t == port_address(hi, lo),
        s.address_written(hi).address_written(lo).write_latch == WriteLatch::Zero,
        port_address(hi, lo) >= 0x1000 ==> port_address(hi, lo) < 0x2000 ==> s.address_written(
            hi,
        ).address_written(lo).cartridge == s.cartridge.ticked(),
        !(0x1000 <= port_address(hi, lo) < 0x2000) ==> s.address_written(hi).address_written(
            lo,
        ).cartridge == s.cartridge,
        s.address_written(hi).address_written(lo) == (PpuState {
            t: port_address(hi, lo),
            v: port_address(hi, lo),
            cartridge: s.address_written(hi).address_written(lo).cartridge,
            ..s
        }),
{
    let t0 = s.t;
    assert((((t0 & 0xffu16) | (((hi & 0x3f) as u16) << 8u16)) & 0xff00u16) | (lo as u16) == (((hi
        & 0x3f) as u16) << 8u16) | (lo as u16)) by (bit_vector);
}

/// A byte written through the data port to a nametable address is what the
/// data port gives back when the address is set again: the first read
/// returns the stale buffer and loads the byte, the second returns it.
pub proof fn lemma_data_write_then_read(s: PpuState, hi: u8, lo: u8, d: u8)
    requires
        s.wf(),
        s.write_latch == WriteLatch::Zero,
        0x2000 <= port_address(hi, lo) < 0x3f00,
        port_address(hi, lo) + s.increment() < 0x3f00,
    ensures
        ({
            let s1 = s.address_written(hi).address_written(lo).data_written(d);
            let s2 = s1.address_written(hi).address_written(lo);
            let (s3, _) = s2.data_read();
            &&& s2.data_port_defined()
            &&& s3.data_port_defined()
            &&& s3.data_read().1 == d
        }),
{
    let a = port_address(hi, lo);
    lemma_address_written_twice(s, hi, lo);
    let s0 = s.address_written(hi).address_written(lo);
    let s1 = s0.data_written(d);
    lemma_address_written_twice(s1, hi, lo);
    let s2 = s1.address_written(hi).address_written(lo);
    let mapped = spec_map_mirror(a);
    assert(0x2000 <= mapped < 0x3000);
    let cell = s.mirroring().spec_real_address(mapped);
    lemma_real_address_bound(s.mirroring(), mapped);
    assert(s1.memory[cell as int] == d);
    assert(s2.memory == s1.memory);
    assert(s2.mirroring() == s.mirroring());
    let (s3, _) = s2.data_read();
    assert(s3.read_buffer == d);
    assert(s3.v == a + s.increment());
}

impl PpuState {
    /// The PPU at power on: memories cleared, nothing drawn, at the start of
    /// the pre-render scanline.
    pub open spec fn initial(cartridge: Cartridge) -> PpuState {
        PpuState {
            memory: Seq::new(0x4000, |i: int| 0u8),
            write_latch: WriteLatch::Zero,
            status: 0,
            oam_address: 0,
            oam: Seq::new(256, |i: int| 0u8),
            control: 0,
            mask: 0,
            read_buffer: 0,
            x: 0,
            t: 0,
            v: 0,
            scanline: 261,
            dot: 0,
            fine_x: 0,
            frame: filled(0),
            foreground: filled(0xff),
            background: filled(0xff),
            cartridge,
        }
    }
}

impl Ppu {
    /// The PPU state has the sizesimpl Ppu {
    /// The PPU state has the sizes and ranges of [`PpuState::wf`] apart from
    /// the beam position and fine scroll.
    proof fn lemma_sizes(&self)
        ensures
            self@.memory.len() == 0x4000,
            self@.oam.len() == 256,
            screen_sized(self@.frame),
            screen_sized(self@.foreground),
            screen_sized(self@.background),
    {
        assert(self.memory@.len() == 0x4000);
        assert(self.oam_data@.len() == 256);
        assert forall|y: int| 0 <= y < 240 implies (#[trigger] self@.frame[y]).len() == 256 by {
            assert(self.frame_buffer@[y]@.len() == 256);
        }
        assert forall|y: int| 0 <= y < 240 implies (#[trigger] self@.foreground[y]).len() == 256 by {
            assert(self.foreground_sprite_buffer@[y]@.len() == 256);
        }
        assert forall|y: int| 0 <= y < 240 implies (#[trigger] self@.background[y]).len() == 256 by {
            assert(self.background_sprite_buffer@[y]@.len() == 256);
        }
    }

    /// A PPU with cleared memories, at the pre-render scanline.
    pub fn new(cartridge: Cartridge) -> (r: Ppu)
        ensures
            r@ == PpuState::initial(cartridge),
            r@.wf(),
    {
        let r = Ppu {
            memory: [0; 0x4000],
            write_latch: WriteLatch::Zero,
            current_oam_address: 0,
            oam_data: [0; 256],
            control: PpuControl { bits: 0 },
            x: 0,
            t: 0,
            v: 0,
            read_buffer: 0,
            frame_buffer: [[0; 256]; 240],
            mask: PpuMask { bits: 0 },
            status: PpuStatus { bits: 0 },
            current_scanline: 261,
            current_dot: 0,
            current_fine_x: 0,
            cartridge,
            foreground_sprite_buffer: [[0xff; 256]; 240],
            background_sprite_buffer: [[0xff; 256]; 240],
        };
        proof {
            r.lemma_sizes();
            assert(r@.memory =~= Seq::new(0x4000, |i: int| 0u8));
            assert(r@.oam =~= Seq::new(256, |i: int| 0u8));
            assert(r@.frame =~~= filled(0));
            assert(r@.foreground =~~= filled(0xff));
            assert(r@.background =~~= filled(0xff));
        }
        r
    }

    /// The status register.
    pub fn get_status(&mut self) -> (r: PpuStatus)
        ensures
            *final(self) == *old(self),
            r.bits == old(self)@.status,
    {
        self.status
    }

    /// Writes the control register ($2000); the nametable bits go to `t`.
    pub fn set_control(&mut self, value: PpuControl)
        ensures
            final(self)@ == old(self)@.with_control(value.bits),
    {
        self.control = value;
        self.t = self.t & !0xc00;
        self.t = self.t | (((value.bits() as u16) & 0b11) << 10);
        proof {
            let t0 = old(self).t;
            let b = value.bits;
            assert(((t0 & !0xc00u16) | (((b as u16) & 0b11) << 10u16)) == ((t0 & !0xc00u16) | (((
            b as u16) & 0b11) << 10u16)));
        }
    }

    /// Writes the mask register ($2001).
    pub fn set_mask(&mut self, value: PpuMask)
        ensures
            final(self)@ == (PpuState { mask: value.bits, ..old(self)@ }),
    {
        self.mask = value;
    }

    /// Reads the status register ($2002): clears the address latch and the
    /// vertical blank bit, and returns the bits as they were.
    pub fn read_status(&mut self) -> (r: u8)
        ensures
            (final(self)@, r) == old(self)@.status_read(),
    {
        self.clear_address_latch();
        let bits = self.status.bits();
        self.status = PpuStatus { bits: bits & !IN_VBLANK };
        bits
    }

    /// Resets the latch shared by the scroll and address registers.
    pub fn clear_address_latch(&mut self)
        ensures
            final(self)@ == (PpuState { write_latch: WriteLatch::Zero, ..old(self)@ }),
    {
        self.write_latch = WriteLatch::Zero;
    }

    /// Writes the OAM address ($2003).
    pub fn set_oam_address(&mut self, address: u8)
        ensures
            final(self)@ == (PpuState { oam_address: address, ..old(self)@ }),
    {
        self.current_oam_address = address;
    }

    /// Writes OAM data ($2004) and moves the OAM address on.
    pub fn write_oam_data(&mut self, data: u8)
        requires
            old(self)@.oam_address < 255,
        ensures
            final(self)@ == old(self)@.oam_written(data),
    {
        self.oam_data[self.current_oam_address as usize] = data;
        self.current_oam_address = self.current_oam_address + 1;
    }

    /// Reads OAM data ($2004).
    pub fn read_oam_data(&self) -> (r: u8)
        ensures
            r == self@.oam[self@.oam_address as int],
    {
        self.oam_data[self.current_oam_address as usize]
    }

    /// Reads PPU data ($2007).
    pub fn read_data(&mut self) -> (r: u8)
        requires
            old(self)@.data_port_defined(),
        ensures
            (final(self)@, r) == old(self)@.data_read(),
    {
        proof {
            self.lemma_sizes();
        }
        let last_buffer = self.read_buffer;
        let real_address = map_mirror(self.v);
        let increment = self.control.address_increment();

        if self.v >= 0x3f00 {
            let value = self.memory[real_address as usize];
            self.read_buffer = self.memory[self.v as usize - 0x1000];
            self.v = self.v.wrapping_add(increment);
            value
        } else {
            let value = if real_address < 0x2000 {
                match self.cartridge.read_chr_rom(real_address) {
                    Some(b) => b,
                    None => self.memory[real_address as usize],
                }
            } else {
                let real_address = self.cartridge.mirroring().real_address(real_address);
                self.memory[real_address as usize]
            };
            self.read_buffer = value;
            self.v = self.v.wrapping_add(increment);
            last_buffer
        }
    }

    /// Writes PPU data ($2007), with the palette and nametable mirrors.
    pub fn write_data(&mut self, data: u8)
        requires
            old(self)@.v < 0x4000,
        ensures
            final(self)@ == old(self)@.data_written(data),
    {
        proof {
            self.lemma_sizes();
        }
        let real_address = map_mirror(self.v);

        self.memory[real_address as usize] = data;

        if real_address == 0x3f00 {
            self.memory[0x3f10] = data;
        } else if real_address == 0x3f10 {
            self.memory[0x3f00] = data;
        }
        if real_address < 0x3f00 && real_address >= 0x2000 {
            let real_address = self.cartridge.mirroring().real_address(real_address);
            self.memory[real_address as usize] = data;
        }
        let increment = self.control.address_increment();
        self.v = self.v.wrapping_add(increment);
    }

    /// Writes the scroll register ($2005): the first write sets the
    /// horizontal scroll, the second the vertical one.
    pub fn write_scroll(&mut self, position: u8)
        ensures
            final(self)@ == old(self)@.scroll_written(position),
    {
        match self.write_latch {
            WriteLatch::Zero => {
                self.x = position & 0b00000111;
                self.t = self.t & !0b11111;
                self.t = self.t | (position / 8) as u16;
            },
            WriteLatch::One => {
                let coarse_y = (position / 8) as u16;
                let fine_y = (position & 0b00000111) as u16;
                self.t = self.t & !0b111001111100000;
                self.t = self.t | (coarse_y << 5) | (fine_y << 12);
            },
        }
        self.write_latch.flip();
    }

    /// Copies 256 bytes into object attribute memory, starting at the OAM
    /// address and wrapping around.
    pub fn copy_oam_data(&mut self, data: &[u8])
        requires
            data@.len() >= 256,
        ensures
            final(self)@ == old(self)@.oam_copied(data@),
    {
        proof {
            self.lemma_sizes();
        }
        let start = self.current_oam_address;
        let mut index: u16 = 0;
        while index < 256
            invariant
                index <= 256,
                data@.len() >= 256,
                start == old(self)@.oam_address,
                self@ == (PpuState { oam: self@.oam, ..old(self)@ }),
                self@.oam.len() == 256,
                forall|j: int|
                    0 <= j < 256 ==> #[trigger] self@.oam[j] == if (j - start + 256) % 256 < index {
                        data@[(j - start + 256) % 256]
                    } else {
                        old(self)@.oam[j]
                    },
            decreases 256 - index,
        {
            let target = start.wrapping_add(index as u8);
            self.oam_data[target as usize] = data[index as usize];
            index = index + 1;
        }
        assert(self@.oam =~= old(self)@.oam_copied(data@).oam);
    }

    /// Writes the address register ($2006): the first write sets the high
    /// six bits, the second the low byte and copies the address to `v`.
    pub fn write_address(&mut self, address: u8)
        ensures
            final(self)@ == old(self)@.address_written(address),
    {
        match self.write_latch {
            WriteLatch::Zero => {
                let value = address & 0b00111111;
                self.t = self.t & 0xff;
                self.t = self.t | ((value as u16) << 8);
            },
            WriteLatch::One => {
                self.t = self.t & 0xff00;
                self.t = self.t | address as u16;
                self.v = self.t;
                if self.v >= 0x1000 && self.v < 0x2000 {
                    self.cartridge.scanline_tick();
                }
            },
        }
        self.write_latch.flip();
    }
}

impl PpuState {
    /// Sprite `index / 4` of object attribute memory, counted from the OAM
    /// address.
    pub open spec fn sprite_at(self, index: int) -> SpriteData {
        let mode = self.control_register().spec_drawing_mode();
        let base = (self.oam_address + index) % 256;
        let byte1 = self.oam[(base + 1) % 256];
        let byte2 = self.oam[(base + 2) % 256];
        SpriteData {
            x: self.oam[(base + 3) % 256],
            y: self.oam[base],
            tile_number: if mode == SpriteDrawingMode::Draw8x8 {
                byte1
            } else {
                byte1 & !1u8
            },
            tile_pattern: if mode == SpriteDrawingMode::Draw8x8 {
                self.control_register().spec_sprite_pattern_table()
            } else if byte1 & 1 == 0 {
                PatternTableSelection::Left
            } else {
                PatternTableSelection::Right
            },
            color_palette: byte2 & 0b00000011,
            draw_priority: if byte2 & 0b00100000 == 0 {
                DrawPriority::Foreground
            } else {
                DrawPriority::Background
            },
            flip_horizontal: byte2 & 0b01000000 != 0,
            flip_vertical: byte2 & 0b10000000 != 0,
            drawing_mode: mode,
        }
    }

    /// The height of a sprite minus one.
    pub open spec fn sprite_height_offset(mode: SpriteDrawingMode) -> u32 {
        if mode == SpriteDrawingMode::Draw8x16 {
            15
        } else {
            7
        }
    }

    /// Whether scanline `y` crosses the sprite.
    pub open spec fn sprite_covers(sprite: SpriteData, y: u32) -> bool {
        sprite.y + 1 <= y <= sprite.y + 1 + Self::sprite_height_offset(sprite.drawing_mode)
    }

    /// The tile and the row within it that scanline `y` shows of a sprite
    /// that covers it, with vertical flipping and the two tiles of 8x16
    /// sprites.
    pub open spec fn sprite_tile_row(sprite: SpriteData, y: u32) -> (int, int) {
        let fine_y = y - (sprite.y + 1);
        let h = Self::sprite_height_offset(sprite.drawing_mode);
        if sprite.flip_vertical {
            if sprite.drawing_mode == SpriteDrawingMode::Draw8x8 {
                (sprite.tile_number as int, h - fine_y)
            } else {
                (
                    if fine_y < 8 {
                        sprite.tile_number + 1
                    } else {
                        sprite.tile_number as int
                    },
                    7 - fine_y % 8,
                )
            }
        } else if fine_y >= 8 {
            (sprite.tile_number + 1, fine_y % 8)
        } else {
            (sprite.tile_number as int, fine_y)
        }
    }

    /// The color index of pixel `x` of a sprite on scanline `y`, or `None`
    /// when the scanline does not cross the sprite.
    pub open spec fn sprite_pixel(self, sprite: SpriteData, y: u32, x: u8) -> Option<u8> {
        if !Self::sprite_covers(sprite, y) {
            None
        } else {
            let (tile, row) = Self::sprite_tile_row(sprite, y);
            Some(
                self.pattern_value(
                    sprite.tile_pattern,
                    tile as u8,
                    if sprite.flip_horizontal {
                        (7 - x) as u8
                    } else {
                        x
                    },
                    row as u16,
                ),
            )
        }
    }

    /// Whether [`PpuState::sprite_pixel`] is defined.
    pub open spec fn sprite_pixel_defined(self, sprite: SpriteData, y: u32, x: u8) -> bool {
        &&& x <= 7
        &&& Self::sprite_covers(sprite, y) ==> {
            let (tile, row) = Self::sprite_tile_row(sprite, y);
            &&& tile <= 255
            &&& self.pattern_value_defined(
                sprite.tile_pattern,
                tile as u8,
                if sprite.flip_horizontal {
                    (7 - x) as u8
                } else {
                    x
                },
                row as u16,
            )
        }
    }

    /// Whether the pattern table flags select exactly one table for sprites
    /// and the other for the background while rendering, which is when the
    /// MMC3 counter sees scanlines.
    pub open spec fn spec_triggers_scanline_tick(self) -> bool {
        &&& (self.mask & SHOW_BACKGROUND != 0 || self.mask & SHOW_SPRITES != 0)
        &&& !(self.control & BACKGROUND_PATTERN_TABLE_FLAG != 0 && self.control
            & SPRITE_PATTERN_TABLE_FLAG != 0)
        &&& (self.control & BACKGROUND_PATTERN_TABLE_FLAG != 0 || self.control
            & SPRITE_PATTERN_TABLE_FLAG != 0)
    }

    /// The state after a scanline tick of the cartridge, when it applies.
    pub open spec fn scanline_ticked(self) -> PpuState {
        if self.spec_triggers_scanline_tick() {
            PpuState { cartridge: self.cartridge.ticked(), ..self }
        } else {
            self
        }
    }
}

/// The palette colors at `base` (0x3f00 for the background, 0x3f10 for
/// sprites): color `index` of set `set`.
pub open spec fn palette_entry(memory: Seq<u8>, base: int, set: int, index: int) -> u8 {
    memory[base + 1 + 4 * set + index]
}

impl Ppu {
    /// Sprite `index / 4` of object attribute memory, counted from the OAM
    /// address.
    fn get_oam_sprite_data_at(&self, index: usize) -> (r: SpriteData)
        requires
            index < 256,
        ensures
            r == self@.sprite_at(index as int),
    {
        proof {
            self.lemma_sizes();
        }
        let drawing_mode = self.control.drawing_mode();
        let base_index = (self.current_oam_address as usize + index) % 256;
        let y = self.oam_data[base_index];
        let x = self.oam_data[(base_index + 3) % 256];

        let byte1 = self.oam_data[(base_index + 1) % 256];
        let tile_pattern = if drawing_mode == SpriteDrawingMode::Draw8x8 {
            self.control.sprite_pattern_table()
        } else {
            if byte1 & 1 == 0 {
                PatternTableSelection::Left
            } else {
                PatternTableSelection::Right
            }
        };

        let tile_number = if drawing_mode == SpriteDrawingMode::Draw8x8 {
            byte1
        } else {
            byte1 & !1
        };

        let byte2 = self.oam_data[(base_index + 2) % 256];
        let color_palette = byte2 & 0b00000011;

        let draw_priority = if byte2 & 0b00100000 == 0 {
            DrawPriority::Foreground
        } else {
            DrawPriority::Background
        };

        let flip_horizontal = byte2 & 0b01000000 != 0;
        let flip_vertical = byte2 & 0b10000000 != 0;

        SpriteData {
            x,
            y,
            tile_pattern,
            tile_number,
            color_palette,
            draw_priority,
            flip_horizontal,
            flip_vertical,
            drawing_mode,
        }
    }

    /// The 64 sprites of object attribute memory, counted from the OAM
    /// address.
    pub fn get_all_oam_sprite_data(&self) -> (r: Vec<SpriteData>)
        ensures
            r@.len() == 64,
            forall|k: int| 0 <= k < 64 ==> #[trigger] r@[k] == self@.sprite_at(4 * k),
    {
        let mut sprites: Vec<SpriteData> = Vec::new();
        let mut index: usize = 0;
        while index < 64
            invariant
                index <= 64,
                sprites@.len() == index,
                forall|k: int| 0 <= k < index ==> #[trigger] sprites@[k] == self@.sprite_at(4 * k),
            decreases 64 - index,
        {
            sprites.push(self.get_oam_sprite_data_at(index * 4));
            index = index + 1;
        }
        sprites
    }

    /// The pattern byte at `address`: the cartridge's, or else the one in
    /// video memory.
    fn read_pattern_at_address(&self, address: u16) -> (r: u8)
        requires
            self@.pattern_readable(address),
        ensures
            r == self@.pattern_byte(address),
    {
        proof {
            self.lemma_sizes();
        }
        let fallback = self.memory[address as usize];
        match self.cartridge.read_chr_rom(address) {
            Some(b) => b,
            None => fallback,
        }
    }

    /// The two-bit color index of pixel `x` of row `y` of a tile.
    pub fn read_pattern_value(
        &self,
        pattern_selection: PatternTableSelection,
        tile_number: u8,
        x: u8,
        y: u16,
    ) -> (r: u8)
        requires
            self@.pattern_value_defined(pattern_selection, tile_number, x, y),
        ensures
            r == self@.pattern_value(pattern_selection, tile_number, x, y),
            r <= 3,
    {
        let mut address: u16 = 0;

        if pattern_selection == PatternTableSelection::Right {
            address = address + 0x1000;
        }
        address = address + tile_number as u16 * 0x10 + y;

        let pattern1 = self.read_pattern_at_address(address);
        let pattern2 = self.read_pattern_at_address(address + 8);

        let shift = 7 - x;
        let low = (pattern1 >> shift) & 1;
        let high = (pattern2 >> shift) & 1;
        assert(low <= 1 && high <= 1) by (bit_vector)
            requires
                low == (pattern1 >> shift) & 1,
                high == (pattern2 >> shift) & 1,
        ;
        low + high * 2
    }

    /// The video memory.
    pub fn get_buffer(&self) -> (r: &VideoMemoryBuffer)
        ensures
            r@ == self@.memory,
    {
        &self.memory
    }

    pub fn current_background_pattern_table(&self) -> (r: PatternTableSelection)
        ensures
            r == self@.control_register().spec_background_pattern_table(),
    {
        self.control.background_pattern_table()
    }

    /// The universal background color and the three colors of each of the
    /// four background and four sprite palettes.
    pub fn get_color_palette(&self) -> (r: ColorPalette)
        ensures
            r.background == self@.memory[0x3f00],
            forall|set: int, index: int|
                0 <= set < 4 && 0 <= index < 3 ==> #[trigger] r.background_color_set@[set]@[index]
                    == palette_entry(self@.memory, 0x3f00, set, index),
            forall|set: int, index: int|
                0 <= set < 4 && 0 <= index < 3 ==> #[trigger] r.sprite_color_set@[set]@[index]
                    == palette_entry(self@.memory, 0x3f10, set, index),
    {
        proof {
            self.lemma_sizes();
        }
        let mut background_color_set = [[0u8; 3]; 4];
        let mut sprite_color_set = [[0u8; 3]; 4];
        let mut set: usize = 0;
        while set < 4
            invariant
                set <= 4,
                self@.memory.len() == 0x4000,
                forall|s: int, i: int|
                    0 <= s < set && 0 <= i < 3 ==> #[trigger] background_color_set@[s]@[i]
                        == palette_entry(self@.memory, 0x3f00, s, i),
                forall|s: int, i: int|
                    0 <= s < set && 0 <= i < 3 ==> #[trigger] sprite_color_set@[s]@[i]
                        == palette_entry(self@.memory, 0x3f10, s, i),
            decreases 4 - set,
        {
            let mut index: usize = 0;
            while index < 3
                invariant
                    set < 4,
                    index <= 3,
                    self@.memory.len() == 0x4000,
                    forall|s: int, i: int|
                        0 <= s < set && 0 <= i < 3 ==> #[trigger] background_color_set@[s]@[i]
                            == palette_entry(self@.memory, 0x3f00, s, i),
                    forall|s: int, i: int|
                        0 <= s < set && 0 <= i < 3 ==> #[trigger] sprite_color_set@[s]@[i]
                            == palette_entry(self@.memory, 0x3f10, s, i),
                    forall|i: int|
                        0 <= i < index ==> #[trigger] background_color_set@[set as int]@[i]
                            == palette_entry(self@.memory, 0x3f00, set as int, i),
                    forall|i: int|
                        0 <= i < index ==> #[trigger] sprite_color_set@[set as int]@[i]
                            == palette_entry(self@.memory, 0x3f10, set as int, i),
                decreases 3 - index,
            {
                background_color_set[set][index] = self.memory[0x3f01 + 4 * set + index];
                sprite_color_set[set][index] = self.memory[0x3f11 + 4 * set + index];
                index = index + 1;
            }
            set = set + 1;
        }
        ColorPalette {
            background: self.memory[0x3f00],
            background_color_set,
            sprite_color_set,
        }
    }

    pub fn get_current_scanline(&self) -> (r: u32)
        ensures
            r == self@.scanline,
    {
        self.current_scanline
    }

    pub fn get_current_dot(&self) -> (r: u32)
        ensures
            r == self@.dot,
    {
        self.current_dot
    }

    /// The 4 KiB of pattern data of a pattern table, as the PPU reads it.
    pub fn pattern_table_bytes(&self, table: PatternTableSelection) -> (r: Vec<u8>)
        requires
            self@.table_readable(table),
        ensures
            r@.len() == 0x1000,
            forall|i: int|
                0 <= i < 0x1000 ==> #[trigger] r@[i] == self@.pattern_byte(
                    (PpuState::pattern_address(table, 0, 0) + i) as u16,
                ),
    {
        let base: u16 = if table == PatternTableSelection::Right {
            0x1000
        } else {
            0
        };
        let mut bytes: Vec<u8> = Vec::new();
        let mut i: u16 = 0;
        while i < 0x1000
            invariant
                i <= 0x1000,
                base == PpuState::pattern_address(table, 0, 0),
                self@.table_readable(table),
                bytes@.len() == i,
                forall|j: int|
                    0 <= j < i ==> #[trigger] bytes@[j] == self@.pattern_byte((base + j) as u16),
            decreases 0x1000 - i,
        {
            proof {
                assert(self@.cartridge.chr_defined((base + i) as u16));
            }
            bytes.push(self.read_pattern_at_address(base + i));
            i = i + 1;
        }
        bytes
    }

    /// The current video memory address (`v`).
    pub fn get_vram_address(&self) -> (r: u16)
        ensures
            r == self@.v,
    {
        self.v
    }

    pub fn get_oam_address(&self) -> (r: u8)
        ensures
            r == self@.oam_address,
    {
        self.current_oam_address
    }

    pub fn get_frame_buffer(&self) -> (r: &[[u8; 256]; 240])
        ensures
            rows_of(*r) == self@.frame,
    {
        &self.frame_buffer
    }

    pub fn get_foreground_sprite_buffer(&self) -> (r: &[[u8; 256]; 240])
        ensures
            rows_of(*r) == self@.foreground,
    {
        &self.foreground_sprite_buffer
    }

    pub fn get_background_sprite_buffer(&self) -> (r: &[[u8; 256]; 240])
        ensures
            rows_of(*r) == self@.background,
    {
        &self.background_sprite_buffer
    }

    /// The cartridge.
    pub fn get_cartridge(&self) -> (r: &Cartridge)
        ensures
            *r == self@.cartridge,
    {
        &self.cartridge
    }

    pub fn generates_nmi_at_vblank(&self) -> (r: bool)
        ensures
            r == (self@.control & GENERATE_NMI_AT_VBLANK != 0),
    {
        self.control.bits & GENERATE_NMI_AT_VBLANK != 0
    }

    pub fn is_background_rendering_enabled(&self) -> (r: bool)
        ensures
            r == (self@.mask & SHOW_BACKGROUND != 0),
    {
        self.mask.bits & SHOW_BACKGROUND != 0
    }

    pub fn is_sprite_rendering_enabled(&self) -> (r: bool)
        ensures
            r == (self@.mask & SHOW_SPRITES != 0),
    {
        self.mask.bits & SHOW_SPRITES != 0
    }

    pub fn top_left_nametable_address(&self) -> (r: u16)
        ensures
            r == self@.mirroring().spec_real_address(0x2000),
    {
        self.cartridge.mirroring().real_address(0x2000)
    }

    pub fn top_right_nametable_address(&self) -> (r: u16)
        ensures
            r == self@.mirroring().spec_real_address(0x2400),
    {
        self.cartridge.mirroring().real_address(0x2400)
    }

    pub fn bottom_left_nametable_address(&self) -> (r: u16)
        ensures
            r == self@.mirroring().spec_real_address(0x2800),
    {
        self.cartridge.mirroring().real_address(0x2800)
    }

    pub fn bottom_right_nametable_address(&self) -> (r: u16)
        ensures
            r == self@.mirroring().spec_real_address(0x2c00),
    {
        self.cartridge.mirroring().real_address(0x2c00)
    }

    /// Whether the MMC3 scanline counter sees this scanline: rendering is on
    /// and the background and sprites use different pattern tables.
    pub fn triggers_scanline_tick(&self) -> (r: bool)
        ensures
            r == self@.spec_triggers_scanline_tick(),
    {
        if !self.is_background_rendering_enabled() && !self.is_sprite_rendering_enabled() {
            return false;
        }
        let control = self.control.bits;
        if control & BACKGROUND_PATTERN_TABLE_FLAG != 0 && control & SPRITE_PATTERN_TABLE_FLAG
            != 0 {
            return false;
        }
        if control & BACKGROUND_PATTERN_TABLE_FLAG == 0 && control & SPRITE_PATTERN_TABLE_FLAG
            == 0 {
            return false;
        }
        true
    }

    fn scanline_tick_if_possible(&mut self)
        ensures
            final(self)@ == old(self)@.scanline_ticked(),
    {
        if self.triggers_scanline_tick() {
            self.cartridge.scanline_tick();
        }
    }

    /// The color index of pixel `x` of a sprite on scanline `y`, or `None`
    /// when the scanline does not cross the sprite.
    fn sprite_pixel_value(&self, sprite_data: &SpriteData, y: u32, x: u8) -> (r: Option<u8>)
        requires
            self@.sprite_pixel_defined(*sprite_data, y, x),
        ensures
            r == self@.sprite_pixel(*sprite_data, y, x),
            r matches Some(v) ==> v <= 3,
    {
        let vertical_flip = sprite_data.flip_vertical;
        let horizontal_flip = sprite_data.flip_horizontal;

        let sprite_y = sprite_data.y as u32 + 1;

        let sprite_height_offset: u32 = if sprite_data.drawing_mode
            == SpriteDrawingMode::Draw8x16 {
            15
        } else {
            7
        };

        if y < sprite_y || y > sprite_y + sprite_height_offset {
            return None;
        }
        let mut sprite_fine_y = y - sprite_y;
        let mut tile = sprite_data.tile_number;

        if vertical_flip {
            if sprite_data.drawing_mode == SpriteDrawingMode::Draw8x8 {
                sprite_fine_y = sprite_height_offset - sprite_fine_y;
            } else {
                if sprite_fine_y < 8 {
                    tile = tile + 1;
                }
                sprite_fine_y = sprite_fine_y % 8;
                sprite_fine_y = 7 - sprite_fine_y;
            }
        } else if sprite_fine_y >= 8 {
            tile = tile + 1;
            sprite_fine_y = sprite_fine_y % 8;
        }
        let column = if horizontal_flip {
            7 - x
        } else {
            x
        };
        Some(self.read_pattern_value(sprite_data.tile_pattern, tile, column, sprite_fine_y as u16))
    }
}

/// The palette set that an attribute byte gives the quadrant
/// (`subtile_x`, `subtile_y`) of its 32x32 pixel area.
pub open spec fn attribute_quadrant(attribute: u8, subtile_x: u16, subtile_y: u16) -> u8 {
    if subtile_x == 0 && subtile_y == 0 {
        attribute & 0b11
    } else if subtile_x == 1 && subtile_y == 0 {
        (attribute & 0b1100) >> 2u8
    } else if subtile_x == 0 && subtile_y == 1 {
        (attribute & 0b110000) >> 4u8
    } else {
        (attribute & 0b11000000) >> 6u8
    }
}

/// The palette set of a quadrant of an attribute byte.
pub fn palette_set_of(attribute_value: u8, subtile_x: u16, subtile_y: u16) -> (r: u8)
    requires
        subtile_x <= 1,
        subtile_y <= 1,
    ensures
        r == attribute_quadrant(attribute_value, subtile_x, subtile_y),
        r <= 3,
{
    let r = if subtile_x == 0 && subtile_y == 0 {
        attribute_value & 0b11
    } else if subtile_x == 1 && subtile_y == 0 {
        (attribute_value & 0b1100) >> 2
    } else if subtile_x == 0 && subtile_y == 1 {
        (attribute_value & 0b110000) >> 4
    } else {
        (attribute_value & 0b11000000) >> 6
    };
    assert((attribute_value & 0b11) <= 3 && ((attribute_value & 0b1100) >> 2u8) <= 3 && ((
    attribute_value & 0b110000) >> 4u8) <= 3 && ((attribute_value & 0b11000000) >> 6u8) <= 3)
        by (bit_vector);
    r
}

/// The quadrants of an attribute byte are its four bit pairs: bits 0-1 for
/// the top left, 2-3 top right, 4-5 bottom left, 6-7 bottom right.
pub proof fn lemma_attribute_quadrant_bits(attribute: u8, right: u16, bottom: u16)
    requires
        right <= 1,
        bottom <= 1,
    ensures
        attribute_quadrant(attribute, right, bottom) == (attribute >> ((2 * right + 4 * bottom) as u8))
            & 3,
{
    assert(attribute & 0b11 == (attribute >> 0u8) & 3 && (attribute & 0b1100) >> 2u8 == (attribute
        >> 2u8) & 3 && (attribute & 0b110000) >> 4u8 == (attribute >> 4u8) & 3 && (attribute
        & 0b11000000) >> 6u8 == (attribute >> 6u8) & 3) by (bit_vector);
}

/// `v` moved down one pixel row: fine y, then coarse y with the wrap into
/// the nametable below.
pub open spec fn y_incremented(v: u16) -> u16 {
    if v & 0x7000 != 0x7000 {
        (v + 0x1000) as u16
    } else {
        let v1 = v & !0x7000u16;
        let y = (v1 & 0x03e0) >> 5u16;
        if y == 29 {
            ((v1 ^ 0x0800u16) & !0x03e0u16) | (0u16 << 5u16)
        } else if y == 31 {
            (v1 & !0x03e0u16) | (0u16 << 5u16)
        } else {
            (v1 & !0x03e0u16) | (((y + 1) as u16) << 5u16)
        }
    }
}

/// The coarse x scroll in a `v` or `t` address: bits 0 to 4.
pub open spec fn coarse_x_of(v: u16) -> u16 {
    v % 32
}

/// The coarse y scroll: bits 5 to 9.
pub open spec fn coarse_y_of(v: u16) -> u16 {
    (v / 32) % 32
}

/// The horizontal nametable bit: bit 10.
pub open spec fn nametable_x_of(v: u16) -> u16 {
    (v / 0x400) % 2
}

/// The vertical nametable bit: bit 11.
pub open spec fn nametable_y_of(v: u16) -> u16 {
    (v / 0x800) % 2
}

/// The fine y scroll: bits 12 to 14.
pub open spec fn fine_y_of(v: u16) -> u16 {
    (v / 0x1000) % 8
}

/// Moving `v` down one pixel row: the fine y scroll counts up to 7; past it
/// the coarse y scroll counts up, and past row 29 (the last row of tiles)
/// it wraps to 0 and switches to the vertically next nametable; from rows
/// 30 and 31 (attribute memory) it wraps to 0 without switching. The
/// horizontal position stays.
pub proof fn lemma_y_incremented(v: u16)
    requires
        v < 0x8000,
    ensures
        ({
            let w = y_incremented(v);
            &&& w < 0x8000
            &&& coarse_x_of(w) == coarse_x_of(v) && nametable_x_of(w) == nametable_x_of(v)
            &&& fine_y_of(v) < 7 ==> fine_y_of(w) == fine_y_of(v) + 1 && coarse_y_of(w)
                == coarse_y_of(v) && nametable_y_of(w) == nametable_y_of(v)
            &&& fine_y_of(v) == 7 ==> fine_y_of(w) == 0 && coarse_y_of(w) == if coarse_y_of(v)
                == 29 || coarse_y_of(v) == 31 {
                0
            } else {
                coarse_y_of(v) + 1
            } && (nametable_y_of(w) == nametable_y_of(v)) == (coarse_y_of(v) != 29)
        }),
{
    assert({
        let w = y_incremented(v);
        &&& w < 0x8000
        &&& w % 32 == v % 32 && (w / 0x400) % 2 == (v / 0x400) % 2
        &&& (v / 0x1000) % 8 < 7 ==> (w / 0x1000) % 8 == (v / 0x1000) % 8 + 1 && (w / 32) % 32 == (v
            / 32) % 32 && (w / 0x800) % 2 == (v / 0x800) % 2
        &&& (v / 0x1000) % 8 == 7 ==> (w / 0x1000) % 8 == 0 && (w / 32) % 32 == if (v / 32) % 32
            == 29 || (v / 32) % 32 == 31 {
            0
        } else {
            (v / 32) % 32 + 1
        } && (((w / 0x800) % 2 == (v / 0x800) % 2) == ((v / 32) % 32 != 29))
    }) by (bit_vector)
        requires
            v < 0x8000,
    ;
}

/// Moving `v` right one tile: the coarse x scroll counts up, and past the
/// last column it wraps to 0 and switches to the horizontally next
/// nametable; the vertical position stays. Copying the horizontal position
/// takes the coarse x scroll and the horizontal nametable bit from `t`, and
/// copying the vertical position takes the coarse and fine y scroll and the
/// vertical nametable bit from `t`; each leaves the rest of `v`.
pub proof fn lemma_scroll_moves(v: u16, t: u16)
    requires
        v < 0x8000,
        t < 0x8000,
    ensures
        ({
            let w = if v & 0x001f == 31 {
                (v & !0x001fu16) ^ 0x400u16
            } else {
                (v + 1) as u16
            };
            &&& coarse_x_of(w) == (coarse_x_of(v) + 1) % 32
            &&& (nametable_x_of(w) == nametable_x_of(v)) == (coarse_x_of(v) != 31)
            &&& coarse_y_of(w) == coarse_y_of(v) && nametable_y_of(w) == nametable_y_of(v)
                && fine_y_of(w) == fine_y_of(v)
        }),
        ({
            let h = (v & !0b10000011111u16) | (t & 0b10000011111u16);
            &&& coarse_x_of(h) == coarse_x_of(t) && nametable_x_of(h) == nametable_x_of(t)
            &&& coarse_y_of(h) == coarse_y_of(v) && nametable_y_of(h) == nametable_y_of(v)
                && fine_y_of(h) == fine_y_of(v)
        }),
        ({
            let u = (v & !0b111101111100000u16) | (t & 0b111101111100000u16);
            &&& coarse_x_of(u) == coarse_x_of(v) && nametable_x_of(u) == nametable_x_of(v)
            &&& coarse_y_of(u) == coarse_y_of(t) && nametable_y_of(u) == nametable_y_of(t)
                && fine_y_of(u) == fine_y_of(t)
        }),
{
    assert({
        let w = if v & 0x001f == 31 {
            (v & !0x001fu16) ^ 0x400u16
        } else {
            (v + 1) as u16
        };
        let h = (v & !0b10000011111u16) | (t & 0b10000011111u16);
        let u = (v & !0b111101111100000u16) | (t & 0b111101111100000u16);
        &&& w % 32 == (v % 32 + 1) % 32
        &&& ((w / 0x400) % 2 == (v / 0x400) % 2) == (v % 32 != 31)
        &&& (w / 32) % 32 == (v / 32) % 32 && (w / 0x800) % 2 == (v / 0x800) % 2 && (w / 0x1000) % 8
            == (v / 0x1000) % 8
        &&& h % 32 == t % 32 && (h / 0x400) % 2 == (t / 0x400) % 2
        &&& (h / 32) % 32 == (v / 32) % 32 && (h / 0x800) % 2 == (v / 0x800) % 2 && (h / 0x1000) % 8
            == (v / 0x1000) % 8
        &&& u % 32 == v % 32 && (u / 0x400) % 2 == (v / 0x400) % 2
        &&& (u / 32) % 32 == (t / 32) % 32 && (u / 0x800) % 2 == (t / 0x800) % 2 && (u / 0x1000) % 8
            == (t / 0x1000) % 8
    }) by (bit_vector)
        requires
            v < 0x8000,
            t < 0x8000,
    ;
}

impl PpuState {
    pub open spec fn rendering_enabled(self) -> bool {
        self.mask & SHOW_SPRITES != 0 || self.mask & SHOW_BACKGROUND != 0
    }

    pub open spec fn background_enabled(self) -> bool {
        self.mask & SHOW_BACKGROUND != 0
    }

    /// The fine y scroll in `v`.
    pub open spec fn fine_y(self) -> u16 {
        (self.v & 0x7000) >> 12u16
    }

    /// The color of the background pixel at the beam, 0xff for transparent.
    pub open spec fn background_pixel(self) -> u8 {
        let mirroring = self.mirroring();
        let tile_address = mirroring.spec_real_address(0x2000 | (self.v & 0xfff));
        let coarse_x = self.v & 0b11111;
        let coarse_y = (self.v >> 5u16) & 0b11111;
        let tile_value = self.memory[tile_address as int];
        let attribute_address = mirroring.spec_real_address(
            0x23C0 | (self.v & 0x0C00) | ((self.v >> 4u16) & 0x38) | ((self.v >> 2u16) & 0x07),
        );
        let attribute_value = self.memory[attribute_address as int];
        let set = attribute_quadrant(attribute_value, (coarse_x % 4) / 2, (coarse_y % 4) / 2);
        let bit = self.pattern_value(
            self.control_register().spec_background_pattern_table(),
            tile_value,
            self.fine_x,
            self.fine_y(),
        );
        if bit == 0 || (self.dot < 8 && self.mask & SHOW_LEFTMOST_BACKGROUND == 0) {
            0xff
        } else {
            palette_entry(self.memory, 0x3f00, set as int, bit - 1)
        }
    }

    /// A shown background pixel takes its color from the palette set that
    /// the attribute byte gives its 16x16 area: the bit pair at `2 * h + 4 *
    /// w`, where `h` is bit 1 of the coarse x scroll (the right half of the
    /// 32x32 block) and `w` bit 1 of the coarse y scroll (the bottom half);
    /// the pattern value picks the color within the set.
    pub proof fn lemma_background_palette_quadrant(self)
        ensures
            ({
                let coarse_x = self.v & 0b11111;
                let coarse_y = (self.v >> 5u16) & 0b11111;
                let mirroring = self.mirroring();
                let tile = self.memory[mirroring.spec_real_address(0x2000 | (self.v & 0xfff)) as int];
                let attribute = self.memory[mirroring.spec_real_address(
                    0x23C0 | (self.v & 0x0C00) | ((self.v >> 4u16) & 0x38) | ((self.v >> 2u16)
                        & 0x07),
                ) as int];
                let shift = (2 * ((coarse_x / 2) % 2) + 4 * ((coarse_y / 2) % 2)) as u8;
                let set = (attribute >> shift) & 3;
                let bit = self.pattern_value(
                    self.control_register().spec_background_pattern_table(),
                    tile,
                    self.fine_x,
                    self.fine_y(),
                );
                bit != 0 && (self.dot >= 8 || self.mask & SHOW_LEFTMOST_BACKGROUND != 0)
                    ==> self.background_pixel() == self.memory[0x3f00 + 1 + 4 * set + bit - 1]
            }),
    {
        let coarse_x = self.v & 0b11111;
        let coarse_y = (self.v >> 5u16) & 0b11111;
        let mirroring = self.mirroring();
        let attribute = self.memory[mirroring.spec_real_address(
            0x23C0 | (self.v & 0x0C00) | ((self.v >> 4u16) & 0x38) | ((self.v >> 2u16) & 0x07),
        ) as int];
        assert((coarse_x % 4) / 2 == (coarse_x / 2) % 2);
        assert((coarse_y % 4) / 2 == (coarse_y / 2) % 2);
        lemma_attribute_quadrant_bits(attribute, (coarse_x % 4) / 2, (coarse_y % 4) / 2);
    }

    /// The state after the fine x scroll moves one pixel right.
    pub open spec fn fine_x_advanced(self) -> PpuState {
        if self.fine_x == 7 {
            PpuState {
                fine_x: 0,
                v: if self.v & 0x001f == 31 {
                    (self.v & !0x001fu16) ^ 0x400u16
                } else {
                    (self.v + 1) as u16
                },
                ..self
            }
        } else {
            PpuState { fine_x: (self.fine_x + 1) as u8, ..self }
        }
    }

    /// The state after the background pixel at the beam is drawn.
    pub open spec fn pixel_rendered(self) -> PpuState {
        let row = self.frame[self.scanline as int].update(self.dot as int, self.background_pixel());
        PpuState { frame: self.frame.update(self.scanline as int, row), ..self }.fine_x_advanced()
    }

    /// Whether sprite 0 has an opaque pixel over an opaque background pixel
    /// on this scanline, with the conditions under which the hit counts.
    pub open spec fn sprite_zero_hits(self) -> bool {
        let sprite = self.sprite_at(0);
        let sprite_y = sprite.y + 1;
        let both = SHOW_BACKGROUND | SHOW_SPRITES;
        &&& self.status & SPRITE_0_HIT == 0
        &&& self.mask & both == both
        &&& sprite.x != 255
        &&& sprite_y <= self.scanline <= sprite_y + Self::sprite_height_offset(
            self.control_register().spec_drawing_mode(),
        )
        &&& exists|i: int|
            0 <= i < 8 && #[trigger] self.sprite_zero_pixel_hits(sprite, i)
    }

    /// Whether pixel `i` of sprite 0 hits.
    pub open spec fn sprite_zero_pixel_hits(self, sprite: SpriteData, i: int) -> bool {
        let both_leftmost = SHOW_LEFTMOST_BACKGROUND | SHOW_LEFTMOST_SPRITES;
        let leftmost = self.mask & both_leftmost == both_leftmost;
        let x = sprite.x + i;
        &&& x <= 254
        &&& (leftmost || x >= 8)
        &&& self.frame[self.scanline as int][x] != 0xff
        &&& match self.sprite_pixel(sprite, self.scanline, i as u8) {
            Some(v) => v != 0,
            None => false,
        }
    }

    /// The state after the sprite 0 hit check.
    pub open spec fn sprite_zero_checked(self) -> PpuState {
        if self.sprite_zero_hits() {
            PpuState { status: self.status | SPRITE_0_HIT, ..self }
        } else {
            self
        }
    }

    /// What the PPU does at the current dot, and whether a frame is ready.
    pub open spec fn dot_action(self) -> (PpuState, bool) {
        let sl = self.scanline;
        let d = self.dot;
        if sl == 261 && d == 1 {
            let status = self.status & !IN_VBLANK & !SPRITE_0_HIT;
            let v = if self.rendering_enabled() {
                (self.v & !0b111101111100000u16) | (self.t & 0b111101111100000u16)
            } else {
                self.v
            };
            (PpuState { status, v, ..self }, false)
        } else if sl <= 239 && d <= 255 {
            (
                if self.rendering_enabled() {
                    self.pixel_rendered()
                } else {
                    self
                },
                false,
            )
        } else if sl <= 239 && d == 256 {
            (
                if self.background_enabled() {
                    PpuState {
                        v: (self.v & !0b10000011111u16) | (self.t & 0b10000011111u16),
                        fine_x: self.x,
                        ..self
                    }
                } else {
                    self
                },
                false,
            )
        } else if sl <= 239 && d == 257 {
            let t = self.sprite_zero_checked();
            (
                if self.background_enabled() {
                    PpuState { v: y_incremented(t.v), ..t }
                } else {
                    t
                },
                false,
            )
        } else if sl == 241 && d == 1 {
            let t = self.sprites_rendered();
            (PpuState { status: t.status | IN_VBLANK, ..t }, true)
        } else if (sl <= 239 || sl == 261) && d == 260 {
            (self.scanline_ticked(), false)
        } else {
            (self, false)
        }
    }

    /// The beam moved on by one dot.
    pub open spec fn beam_advanced(self) -> PpuState {
        if self.dot == 340 {
            PpuState { scanline: ((self.scanline + 1) % 262) as u32, dot: 0, ..self }
        } else {
            PpuState { dot: (self.dot + 1) as u32, ..self }
        }
    }

    /// One dot of the PPU: the state after it, and whether a frame is ready.
    pub open spec fn stepped(self) -> (PpuState, bool) {
        let (t, render) = self.dot_action();
        (t.beam_advanced(), render)
    }

    /// Whether sprite `k` (from the OAM address) covers scanline `y`.
    pub open spec fn sprite_on_line(self, k: int, y: int) -> bool {
        let sprite = self.sprite_at(4 * k);
        sprite.y + 1 <= y <= sprite.y + 1 + Self::sprite_height_offset(
            self.control_register().spec_drawing_mode(),
        )
    }

    /// The sprites that scanline `y` shows: the first eight (among the
    /// first `n`) that cover it, in OAM order.
    pub open spec fn line_sprites(self, y: int, n: int) -> Seq<int>
        decreases n,
    {
        if n <= 0 {
            Seq::empty()
        } else {
            let prev = self.line_sprites(y, n - 1);
            if prev.len() < 8 && self.sprite_on_line(n - 1, y) {
                prev.push(n - 1)
            } else {
                prev
            }
        }
    }

    /// The color that sprite `k` paints at pixel (`x`, `y`) of the layer
    /// with priority `priority`, if it paints there.
    pub open spec fn sprite_paint(self, k: int, y: int, x: int, priority: DrawPriority) -> Option<
        u8,
    > {
        let sprite = self.sprite_at(4 * k);
        let i = x - sprite.x;
        if sprite.draw_priority != priority || !(0 <= i < 8) {
            None
        } else {
            match self.sprite_pixel(sprite, y as u32, i as u8) {
                Some(v) => if v != 0 {
                    Some(palette_entry(self.memory, 0x3f10, sprite.color_palette as int, v - 1))
                } else {
                    None
                },
                None => None,
            }
        }
    }

    /// The pixel of a sprite layer: the color of the first of the sprites
    /// that paints there, 0xff when none does.
    pub open spec fn layer_pixel(self, sprites: Seq<int>, y: int, x: int, priority: DrawPriority) -> u8
        decreases sprites.len(),
    {
        if sprites.len() == 0 {
            0xff
        } else {
            let before = self.layer_pixel(sprites.drop_last(), y, x, priority);
            if before != 0xff {
                before
            } else {
                match self.sprite_paint(sprites.last(), y, x, priority) {
                    Some(c) => c,
                    None => 0xff,
                }
            }
        }
    }

    /// A sprite layer: scanline 0 is empty, the others show their sprites.
    pub open spec fn sprite_layer(self, priority: DrawPriority) -> Seq<Seq<u8>> {
        Seq::new(
            240,
            |y: int|
                Seq::new(
                    256,
                    |x: int|
                        if y == 0 {
                            0xffu8
                        } else {
                            self.layer_pixel(self.line_sprites(y, 64), y, x, priority)
                        },
                ),
        )
    }

    /// The state after both sprite layers are drawn.
    pub open spec fn sprites_rendered(self) -> PpuState {
        PpuState {
            foreground: self.sprite_layer(DrawPriority::Foreground),
            background: self.sprite_layer(DrawPriority::Background),
            ..self
        }
    }

    /// Whether the sprites of object attribute memory are well formed: in
    /// 8x16 mode their tile numbers are even.
    pub open spec fn sprite_ok(sprite: SpriteData) -> bool {
        sprite.drawing_mode == SpriteDrawingMode::Draw8x16 ==> sprite.tile_number % 2 == 0
    }
}

impl PpuState {
    /// The tile number that the background pixel at the beam reads from the
    /// nametable.
    pub open spec fn background_tile(self) -> u8 {
        self.memory[self.mirroring().spec_real_address(0x2000 | (self.v & 0xfff)) as int]
    }

    /// Whether the two pattern bytes that the background pixel at the beam
    /// reads can be read.
    pub open spec fn background_reads_defined(self) -> bool {
        let address = Self::pattern_address(
            self.control_register().spec_background_pattern_table(),
            self.background_tile(),
            self.fine_y(),
        );
        &&& self.cartridge.chr_defined(address as u16)
        &&& self.cartridge.chr_defined((address + 8) as u16)
    }

    /// Whether the pattern bytes that the sprite 0 hit check reads can be
    /// read: the check reads sprite 0's row on this scanline when the hit is
    /// not yet set, both layers are shown, the sprite is on this scanline
    /// and not at x = 255, and one of its columns is not hidden at the left
    /// edge.
    pub open spec fn sprite_zero_reads_defined(self) -> bool {
        let sprite = self.sprite_at(0);
        let both = SHOW_BACKGROUND | SHOW_SPRITES;
        let leftmost = SHOW_LEFTMOST_BACKGROUND | SHOW_LEFTMOST_SPRITES;
        (self.status & SPRITE_0_HIT == 0 && self.mask & both == both && sprite.x != 255
            && sprite.y + 1 <= self.scanline <= sprite.y + 1 + Self::sprite_height_offset(
            self.control_register().spec_drawing_mode(),
        ) && (self.mask & leftmost == leftmost || sprite.x >= 1)) ==> self.sprite_pixel_defined(
            sprite,
            self.scanline,
            0,
        )
    }

    /// Whether the pattern rows that drawing the sprite layers reads can be
    /// read: on each scanline from 1 to 239, the row of each sprite the
    /// scanline shows.
    pub open spec fn sprite_layer_reads_defined(self) -> bool {
        forall|y: int, j: int|
            1 <= y < 240 && 0 <= j < self.line_sprites(y, 64).len() ==> self.sprite_pixel_defined(
                self.sprite_at(4 * #[trigger] self.line_sprites(y, 64)[j]),
                y as u32,
                0,
            )
    }

    /// Whether the pattern reads of the dot at the beam can be made: the
    /// background pixel on visible dots while rendering, sprite 0's row at
    /// dot 257, and the sprite rows at the start of vertical blank. Other
    /// dots read no pattern.
    pub open spec fn dot_reads_defined(self) -> bool {
        let sl = self.scanline;
        let d = self.dot;
        if sl == 261 && d == 1 {
            true
        } else if sl <= 239 && d <= 255 {
            self.rendering_enabled() ==> self.background_reads_defined()
        } else if sl <= 239 && d == 256 {
            true
        } else if sl <= 239 && d == 257 {
            self.sprite_zero_reads_defined()
        } else if sl == 241 && d == 1 {
            self.sprite_layer_reads_defined()
        } else {
            true
        }
    }
}

/// Whether the pattern reads of each of the next `n` dots can be made.
pub open spec fn steps_defined(s: PpuState, n: nat) -> bool
    decreases n,
{
    n == 0 || (s.dot_reads_defined() && steps_defined(s.stepped().0, (n - 1) as nat))
}

/// The pattern reads of a sprite row do not depend on the column.
pub proof fn lemma_sprite_row(s: PpuState, sprite: SpriteData, y: u32, x: u8)
    requires
        s.sprite_pixel_defined(sprite, y, 0),
        x <= 7,
    ensures
        s.sprite_pixel_defined(sprite, y, x),
{
}

/// A sprite of object attribute memory has an even tile number in 8x16
/// mode and a palette number below 4.
pub proof fn lemma_sprite_at_facts(s: PpuState, index: int)
    requires
        s.wf(),
    ensures
        PpuState::sprite_ok(s.sprite_at(index)),
        s.sprite_at(index).color_palette <= 3,
{
    let byte1 = s.oam[((s.oam_address + index) % 256 + 1) % 256];
    let byte2 = s.oam[((s.oam_address + index) % 256 + 2) % 256];
    assert((byte1 & !1u8) % 2 == 0 && byte2 & 0b11 <= 3) by (bit_vector);
}

/// When every pattern address can be read, so can the reads of any dot.
pub proof fn lemma_patterns_readable_dot(s: PpuState)
    requires
        s.wf(),
        s.patterns_readable(),
    ensures
        s.dot_reads_defined(),
{
    lemma_sprite_pixel_defined(s, 0, s.scanline, 0);
    assert forall|y: int, j: int|
        1 <= y < 240 && 0 <= j < s.line_sprites(y, 64).len() implies s.sprite_pixel_defined(
        s.sprite_at(4 * #[trigger] s.line_sprites(y, 64)[j]),
        y as u32,
        0,
    ) by {
        lemma_sprite_pixel_defined(s, 4 * s.line_sprites(y, 64)[j], y as u32, 0);
    }
    let address = PpuState::pattern_address(
        s.control_register().spec_background_pattern_table(),
        s.background_tile(),
        s.fine_y(),
    );
    let v = s.v;
    assert((v & 0x7000) >> 12u16 <= 7) by (bit_vector);
    assert(address + 8 < 0x2000);
    assert(s.cartridge.chr_defined(address as u16));
    assert(s.cartridge.chr_defined((address + 8) as u16));
}

/// A sprite of object attribute memory has an even tile number in 8x16
/// mode, and the pixels of such a sprite can be read when every pattern can.
pub proof fn lemma_sprite_pixel_defined(s: PpuState, index: int, y: u32, x: u8)
    requires
        s.wf(),
        s.patterns_readable(),
        x <= 7,
    ensures
        PpuState::sprite_ok(s.sprite_at(index)),
        s.sprite_pixel_defined(s.sprite_at(index), y, x),
        s.sprite_at(index).color_palette <= 3,
{
    let sprite = s.sprite_at(index);
    lemma_sprite_at_facts(s, index);
    if PpuState::sprite_covers(sprite, y) {
        let (tile, row) = PpuState::sprite_tile_row(sprite, y);
        let column = if sprite.flip_horizontal {
            (7 - x) as u8
        } else {
            x
        };
        let address = PpuState::pattern_address(sprite.tile_pattern, tile as u8, row as u16);
        assert(0 <= row <= 7);
        assert(address + 8 < 0x2000);
        assert(s.cartridge.chr_defined(address as u16));
        assert(s.cartridge.chr_defined((address + 8) as u16));
    }
}

/// One dot keeps the PPU state well formed and changes no pattern address
/// that can be read.
pub proof fn lemma_stepped_keeps(s: PpuState)
    requires
        s.wf(),
    ensures
        s.stepped().0.wf(),
        forall|a: u16| #[trigger] s.stepped().0.cartridge.chr_defined(a) == s.cartridge.chr_defined(a),
{
    s.cartridge.lemma_tick_keeps_patterns();
    if s.scanline <= 239 && s.dot <= 255 && s.rendering_enabled() {
        let row = s.frame[s.scanline as int].update(s.dot as int, s.background_pixel());
        let framed = PpuState { frame: s.frame.update(s.scanline as int, row), ..s };
        assert(screen_sized(framed.frame));
        assert(framed.fine_x_advanced().fine_x <= 7);
    }
    if s.scanline == 241 && s.dot == 1 {
        assert(screen_sized(s.sprites_rendered().foreground));
        assert(screen_sized(s.sprites_rendered().background));
    }
}

/// Flipping a sprite mirrors its pixels: horizontally, column `x` shows
/// what column `7 - x` of the unflipped sprite shows; vertically, the row
/// `k` lines into the sprite shows the unflipped sprite's row `k` lines
/// from its bottom (of 8 rows, or of 16 rows in 8x16 mode). An unflipped
/// 8x16 sprite shows its tile on its first eight lines and the next tile
/// on the last eight.
pub proof fn lemma_sprite_flips(s: PpuState, sprite: SpriteData, y: u32, x: u8)
    requires
        x <= 7,
        PpuState::sprite_covers(sprite, y),
    ensures
        sprite.flip_horizontal ==> s.sprite_pixel(sprite, y, x) == s.sprite_pixel(
            SpriteData { flip_horizontal: false, ..sprite },
            y,
            (7 - x) as u8,
        ),
        sprite.flip_vertical ==> s.sprite_pixel(sprite, y, x) == s.sprite_pixel(
            SpriteData { flip_vertical: false, ..sprite },
            (2 * sprite.y + 2 + PpuState::sprite_height_offset(sprite.drawing_mode) - y) as u32,
            x,
        ),
        !sprite.flip_vertical && !sprite.flip_horizontal && sprite.drawing_mode
            == SpriteDrawingMode::Draw8x16 && sprite.tile_number < 255 ==> s.sprite_pixel(
            sprite,
            y,
            x,
        ) == Some(
            s.pattern_value(
                sprite.tile_pattern,
                if y < sprite.y + 9 {
                    sprite.tile_number
                } else {
                    (sprite.tile_number + 1) as u8
                },
                x,
                ((y - sprite.y - 1) % 8) as u16,
            ),
        ),
{
}

/// How the dots of a rendering scanline move the scroll address `v`: each
/// background pixel moves the fine x scroll, and every eighth one moves `v`
/// one tile right; dot 256 copies the horizontal position from `t`; dot 257
/// moves `v` one pixel row down; and dot 1 of the pre-render line copies
/// the vertical position from `t`. Other dots leave `v`.
pub proof fn lemma_step_scroll(s: PpuState)
    requires
        s.wf(),
        s.v < 0x8000,
        s.t < 0x8000,
    ensures
        ({
            let w = s.stepped().0.v;
            let sl = s.scanline;
            let d = s.dot;
            &&& sl <= 239 && d <= 255 && s.rendering_enabled() && s.fine_x == 7 ==> {
                &&& coarse_x_of(w) == (coarse_x_of(s.v) + 1) % 32
                &&& (nametable_x_of(w) == nametable_x_of(s.v)) == (coarse_x_of(s.v) != 31)
                &&& coarse_y_of(w) == coarse_y_of(s.v) && nametable_y_of(w) == nametable_y_of(s.v)
                    && fine_y_of(w) == fine_y_of(s.v)
            }
            &&& sl <= 239 && d <= 255 && s.fine_x < 7 ==> w == s.v
            &&& sl <= 239 && d == 256 && s.background_enabled() ==> {
                &&& coarse_x_of(w) == coarse_x_of(s.t) && nametable_x_of(w) == nametable_x_of(s.t)
                &&& coarse_y_of(w) == coarse_y_of(s.v) && nametable_y_of(w) == nametable_y_of(s.v)
                    && fine_y_of(w) == fine_y_of(s.v)
            }
            &&& sl <= 239 && d == 257 && s.background_enabled() ==> w == y_incremented(s.v)
            &&& sl == 261 && d == 1 && s.rendering_enabled() ==> {
                &&& coarse_x_of(w) == coarse_x_of(s.v) && nametable_x_of(w) == nametable_x_of(s.v)
                &&& coarse_y_of(w) == coarse_y_of(s.t) && nametable_y_of(w) == nametable_y_of(s.t)
                    && fine_y_of(w) == fine_y_of(s.t)
            }
            &&& !s.rendering_enabled() ==> w == s.v
        }),
{
    lemma_scroll_moves(s.v, s.t);
    lemma_y_incremented(s.v);
    if !s.rendering_enabled() {
        lemma_step_rendering_disabled(s);
    }
}

/// The sprites a scanline shows, among the first `n` of object attribute
/// memory: at most eight, in OAM order, each covering the scanline; a
/// sprite that covers the scanline is left out only when eight earlier ones
/// already fill the line.
pub proof fn lemma_line_sprites(s: PpuState, y: int, n: int)
    requires
        n >= 0,
    ensures
        ({
            let l = s.line_sprites(y, n);
            &&& l.len() <= 8
            &&& forall|i: int| 0 <= i < l.len() ==> 0 <= #[trigger] l[i] < n && s.sprite_on_line(l[i], y)
            &&& forall|i: int, j: int| 0 <= i < j < l.len() ==> l[i] < l[j]
            &&& forall|k: int|
                0 <= k < n && #[trigger] s.sprite_on_line(k, y) && !l.contains(k) ==> l.len() == 8
                    && l[7] < k
        }),
    decreases n,
{
    if n > 0 {
        lemma_line_sprites(s, y, n - 1);
        let prev = s.line_sprites(y, n - 1);
        let l = s.line_sprites(y, n);
        if prev.len() < 8 && s.sprite_on_line(n - 1, y) {
            assert(l == prev.push(n - 1));
            assert forall|k: int|
                0 <= k < n && #[trigger] s.sprite_on_line(k, y) && !l.contains(k) implies l.len()
                == 8 && l[7] < k by {
                if k < n - 1 {
                    assert(!prev.contains(k)) by {
                        if prev.contains(k) {
                            let i = choose|i: int| 0 <= i < prev.len() && prev[i] == k;
                            assert(l[i] == k);
                        }
                    }
                } else {
                    assert(l[l.len() - 1] == k);
                }
            }
        } else {
            assert(l == prev);
            assert forall|k: int|
                0 <= k < n && #[trigger] s.sprite_on_line(k, y) && !l.contains(k) implies l.len()
                == 8 && l[7] < k by {
                if k == n - 1 {
                    assert(l.len() == 8);
                    assert(l[7] < n - 1);
                }
            }
        }
    }
}

/// A control register write stores the value and puts its two low bits,
/// the base nametable, into the nametable bits of `t` (bit 0 horizontal,
/// bit 1 vertical), leaving the scroll bits of `t`.
pub proof fn lemma_control_written(s: PpuState, value: u8)
    requires
        s.t < 0x8000,
    ensures
        ({
            let u = s.with_control(value);
            &&& u.control == value
            &&& u.t < 0x8000
            &&& nametable_x_of(u.t) == value % 2 && nametable_y_of(u.t) == (value / 2) % 2
            &&& coarse_x_of(u.t) == coarse_x_of(s.t) && coarse_y_of(u.t) == coarse_y_of(s.t)
                && fine_y_of(u.t) == fine_y_of(s.t)
        }),
{
    let t = s.t;
    assert({
        let w = (t & !0xc00u16) | (((value as u16) & 0b11) << 10u16);
        &&& w < 0x8000
        &&& (w / 0x400) % 2 == (value % 2) as u16 && (w / 0x800) % 2 == ((value / 2) % 2) as u16
        &&& w % 32 == t % 32 && (w / 32) % 32 == (t / 32) % 32 && (w / 0x1000) % 8 == (t / 0x1000)
            % 8
    }) by (bit_vector)
        requires
            t < 0x8000,
    ;
}

/// A write through the OAM data port stores the byte at the OAM address,
/// changes no other byte, and moves the address on by one, wrapping at 256.
pub proof fn lemma_oam_data_written(s: PpuState, d: u8)
    requires
        s.wf(),
        s.oam_address < 255,
    ensures
        s.oam_written(d).oam[s.oam_address as int] == d,
        forall|i: int| 0 <= i < 256 && i != s.oam_address ==> #[trigger] s.oam_written(d).oam[i]
            == s.oam[i],
        s.oam_written(d).oam_address == s.oam_address + 1,
{
}

/// A data port read refills the read buffer with the byte at `v`: pattern
/// data below 0x2000, the nametable byte where the mirroring stores it from
/// 0x2000 (0x3000..0x3eff repeating 0x2000..0x2eff), and for a palette
/// read the nametable byte under it, 0x1000 lower.
pub proof fn lemma_data_read_buffer(s: PpuState)
    requires
        s.wf(),
        s.v < 0x4000,
    ensures
        ({
            let b = s.data_read().0.read_buffer;
            &&& s.v < 0x2000 ==> b == s.pattern_byte(s.v)
            &&& 0x2000 <= s.v < 0x3000 ==> b == s.memory[s.mirroring().spec_real_address(s.v) as int]
            &&& 0x3000 <= s.v < 0x3f00 ==> b == s.memory[s.mirroring().spec_real_address(
                (s.v - 0x1000) as u16,
            ) as int]
            &&& 0x3f00 <= s.v ==> b == s.memory[s.v - 0x1000]
        }),
{
}

/// Dots of the PPU never change object attribute memory or its address.
pub proof fn lemma_steps_keep_oam(s: PpuState, n: nat)
    ensures
        steps(s, n).0.oam == s.oam,
        steps(s, n).0.oam_address == s.oam_address,
    decreases n,
{
    if n > 0 {
        lemma_steps_keep_oam(s.stepped().0, (n - 1) as nat);
    }
}

/// When every pattern address can be read, the pattern reads of each of
/// the next `n` dots can be made.
pub proof fn lemma_steps_defined(s: PpuState, n: nat)
    requires
        s.wf(),
        s.patterns_readable(),
    ensures
        steps_defined(s, n),
    decreases n,
{
    if n > 0 {
        lemma_patterns_readable_dot(s);
        lemma_stepped_keeps(s);
        lemma_steps_defined(s.stepped().0, (n - 1) as nat);
    }
}

impl Ppu {
    /// Draws the background pixel at the beam and moves the fine x scroll.
    fn render_background_pixel(&mut self)
        requires
            old(self)@.wf(),
            old(self)@.background_reads_defined(),
            old(self)@.scanline <= 239,
            old(self)@.dot <= 255,
        ensures
            final(self)@ == old(self)@.pixel_rendered(),
    {
        proof {
            self.lemma_sizes();
        }
        let palette = self.get_color_palette();
        let v = self.v;
        let fine_y = (v & 0x7000) >> 12;
        assert(fine_y <= 7) by (bit_vector)
            requires
                fine_y == (v & 0x7000) >> 12u16,
        ;
        let mirroring = self.cartridge.mirroring();
        let tile_address = mirroring.real_address(0x2000 | (v & 0xfff));
        let coarse_x = v & 0b11111;
        let coarse_y = (v >> 5) & 0b11111;
        let tile_value = self.memory[tile_address as usize];
        let attribute_address = mirroring.real_address(
            0x23C0 | (v & 0x0C00) | ((v >> 4) & 0x38) | ((v >> 2) & 0x07),
        );
        let attribute_value = self.memory[attribute_address as usize];
        let subtile_y = (coarse_y % 4) / 2;
        let subtile_x = (coarse_x % 4) / 2;
        let palette_set_index = palette_set_of(attribute_value, subtile_x, subtile_y);

        let table = self.control.background_pattern_table();
        proof {
            let address = PpuState::pattern_address(table, tile_value, fine_y);
            assert(address + 8 < 0x2000);
            assert(self@.cartridge.chr_defined(address as u16));
            assert(self@.cartridge.chr_defined((address + 8) as u16));
        }
        let bit = self.read_pattern_value(table, tile_value, self.current_fine_x, fine_y);

        let color: u8 = if bit == 0 || (self.current_dot < 8 && self.mask.bits
            & SHOW_LEFTMOST_BACKGROUND == 0) {
            0xff
        } else {
            palette.background_color_set[palette_set_index as usize][bit as usize - 1]
        };
        let scanline = self.current_scanline as usize;
        let dot = self.current_dot as usize;
        self.frame_buffer[scanline][dot] = color;
        proof {
            assert(self@.frame =~~= old(self)@.frame.update(
                scanline as int,
                old(self)@.frame[scanline as int].update(dot as int, color),
            ));
        }

        if self.current_fine_x == 7 {
            self.current_fine_x = 0;
            let v = self.v;
            if (v & 0x001F) == 31 {
                self.v = (v & !0x001f) ^ 0x400;
            } else {
                assert(v < 0xffff) by (bit_vector)
                    requires
                        v & 0x001f != 31,
                ;
                self.v = v + 1;
            }
        } else {
            self.current_fine_x = self.current_fine_x + 1;
        }
    }

    /// Runs one dot of the PPU; returns whether a frame is ready to show,
    /// which happens at the start of vertical blank.
    pub fn step(&mut self) -> (r: bool)
        requires
            old(self)@.wf(),
            old(self)@.dot_reads_defined(),
        ensures
            (final(self)@, r) == old(self)@.stepped(),
            final(self)@.wf(),
            forall|a: u16| #[trigger] final(self)@.cartridge.chr_defined(a) == old(
                self,
            )@.cartridge.chr_defined(a),
    {
        let mut should_render = false;
        let scanline = self.current_scanline;
        let dot = self.current_dot;
        if scanline == 261 && dot == 1 {
            self.status = PpuStatus { bits: self.status.bits & !IN_VBLANK & !SPRITE_0_HIT };
            if self.mask.is_rendering_enabled() {
                self.v = (self.v & !0b111101111100000u16) | (self.t & 0b111101111100000u16);
            }
        } else if scanline <= 239 && dot <= 255 {
            if self.mask.is_rendering_enabled() {
                self.render_background_pixel();
            }
        } else if scanline <= 239 && dot == 256 {
            if self.is_background_rendering_enabled() {
                self.v = (self.v & !0b10000011111u16) | (self.t & 0b10000011111u16);
                self.current_fine_x = self.x;
            }
        } else if scanline <= 239 && dot == 257 {
            self.toggle_sprite_0_hit_if_needed();
            if self.is_background_rendering_enabled() {
                let v = self.v;
                if v & 0x7000 != 0x7000 {
                    assert(v + 0x1000 <= 0xffff) by (bit_vector)
                        requires
                            v & 0x7000 != 0x7000,
                    ;
                    self.v = v + 0x1000;
                } else {
                    let v1 = v & !0x7000u16;
                    let mut y = (v1 & 0x03e0) >> 5;
                    let mut v2 = v1;
                    if y == 29 {
                        y = 0;
                        v2 = v1 ^ 0x0800;
                    } else if y == 31 {
                        y = 0;
                    } else {
                        assert(y < 31) by (bit_vector)
                            requires
                                y == (v1 & 0x03e0) >> 5u16,
                                y != 31,
                        ;
                        y = y + 1;
                    }
                    self.v = (v2 & !0x03e0u16) | (y << 5);
                }
            }
        } else if scanline == 241 && dot == 1 {
            self.render_sprites();
            self.status = PpuStatus { bits: self.status.bits | IN_VBLANK };
            should_render = true;
        } else if (scanline <= 239 || scanline == 261) && dot == 260 {
            proof {
                self@.cartridge.lemma_tick_keeps_patterns();
            }
            self.scanline_tick_if_possible();
        }
        proof {
            self.lemma_sizes();
        }
        if self.current_dot == 340 {
            self.current_scanline = (self.current_scanline + 1) % 262;
            self.current_dot = 0;
        } else {
            self.current_dot = self.current_dot + 1;
        }
        should_render
    }

    /// Runs the 341 dots of a scanline; returns whether a frame became
    /// ready during them.
    pub fn advance_scanline(&mut self) -> (r: bool)
        requires
            old(self)@.wf(),
            steps_defined(old(self)@, 341),
        ensures
            (final(self)@, r) == steps(old(self)@, 341),
            final(self)@.wf(),
            forall|a: u16| #[trigger] final(self)@.cartridge.chr_defined(a) == old(
                self,
            )@.cartridge.chr_defined(a),
    {
        let mut ready = false;
        let mut i: u16 = 0;
        while i < 341
            invariant
                i <= 341,
                self@.wf(),
                steps_defined(self@, (341 - i) as nat),
                forall|a: u16| #[trigger] self@.cartridge.chr_defined(a) == old(
                    self,
                )@.cartridge.chr_defined(a),
                steps(old(self)@, 341) == (steps(self@, (341 - i) as nat).0, ready || steps(
                    self@,
                    (341 - i) as nat,
                ).1),
            decreases 341 - i,
        {
            let ghost before = self@;
            let frame = self.step();
            proof {
                assert(steps(before, (341 - i) as nat) == (steps(self@, (341 - i - 1) as nat).0,
                    frame || steps(self@, (341 - i - 1) as nat).1));
            }
            ready = ready || frame;
            i = i + 1;
        }
        ready
    }

    /// Sets the sprite 0 hit flag when an opaque pixel of sprite 0 is over an
    /// opaque background pixel on this scanline.
    fn toggle_sprite_0_hit_if_needed(&mut self)
        requires
            old(self)@.wf(),
            old(self)@.sprite_zero_reads_defined(),
            old(self)@.scanline <= 239,
        ensures
            final(self)@ == old(self)@.sprite_zero_checked(),
    {
        proof {
            self.lemma_sizes();
        }
        if self.status.bits & SPRITE_0_HIT != 0 {
            return ;
        }
        let both = SHOW_BACKGROUND | SHOW_SPRITES;
        if self.mask.bits & both != both {
            return ;
        }
        let sprite_data = self.get_oam_sprite_data_at(0);
        let sprite_y = sprite_data.y as u32 + 1;
        let sprite_x = sprite_data.x;
        if sprite_x == 255 {
            return ;
        }
        let sprite_height_offset: u32 = if self.control.bits & SPRITE_8X16_MODE != 0 {
            15
        } else {
            7
        };
        let scanline = self.current_scanline;
        if scanline < sprite_y || scanline > sprite_y + sprite_height_offset {
            return ;
        }
        let leftmost = SHOW_LEFTMOST_BACKGROUND | SHOW_LEFTMOST_SPRITES;
        let include_leftmost = self.mask.bits & leftmost == leftmost;

        let mut i: u8 = 0;
        while i < 8 && sprite_x as u16 + i as u16 <= 255
            invariant
                i <= 8,
                self@ == old(self)@,
                self@.wf(),
                self@.sprite_zero_reads_defined(),
                scanline == self@.scanline,
                scanline <= 239,
                sprite_data == self@.sprite_at(0),
                sprite_x == sprite_data.x,
                sprite_x != 255,
                self@.status & SPRITE_0_HIT == 0,
                self@.mask & both == both,
                both == SHOW_BACKGROUND | SHOW_SPRITES,
                sprite_data.y + 1 <= scanline <= sprite_data.y + 1 + PpuState::sprite_height_offset(
                    self@.control_register().spec_drawing_mode(),
                ),
                include_leftmost == (self@.mask & leftmost == leftmost),
                leftmost == SHOW_LEFTMOST_BACKGROUND | SHOW_LEFTMOST_SPRITES,
                forall|j: int| 0 <= j < i ==> !#[trigger] self@.sprite_zero_pixel_hits(sprite_data, j),
            decreases 8 - i,
        {
            let x = sprite_x as u16 + i as u16;
            if x != 255 && (include_leftmost || x >= 8) {
                proof {
                    assert(self@.mask & leftmost == leftmost || sprite_x >= 1);
                    lemma_sprite_row(self@, sprite_data, scanline, i);
                }
                let pixel_value = self.sprite_pixel_value(&sprite_data, scanline, i);
                let value = match pixel_value {
                    Some(v) => v,
                    None => 0,
                };
                if self.frame_buffer[scanline as usize][x as usize] != 0xff && value != 0 {
                    assert(self@.sprite_zero_pixel_hits(sprite_data, i as int));
                    let ghost o = old(self)@;
                    assert(o.status & SPRITE_0_HIT == 0);
                    assert(o.mask & both == both);
                    assert(o.sprite_at(0).x != 255);
                    assert(o.sprite_at(0).y + 1 <= o.scanline);
                    assert(o.scanline <= o.sprite_at(0).y + 1 + PpuState::sprite_height_offset(
                        o.control_register().spec_drawing_mode()));
                    assert(o.sprite_zero_pixel_hits(o.sprite_at(0), i as int));
                    assert(old(self)@.sprite_zero_hits());
                    self.status = PpuStatus { bits: self.status.bits | SPRITE_0_HIT };
                    return ;
                }
            }
            i = i + 1;
        }
        assert forall|j: int| 0 <= j < 8 implies !#[trigger] self@.sprite_zero_pixel_hits(
            sprite_data,
            j,
        ) by {
            if j >= i {
                assert(sprite_x + j > 254);
            }
        }
    }

    /// The sprites that scanline `y` shows: the first eight that cover it.
    fn select_line_sprites(&self, sprites: &Vec<SpriteData>, y: u16, sprite_height: u16) -> (r:
        Vec<usize>)
        requires
            sprites@.len() == 64,
            forall|k: int| 0 <= k < 64 ==> #[trigger] sprites@[k] == self@.sprite_at(4 * k),
            sprite_height as int == PpuState::sprite_height_offset(
                self@.control_register().spec_drawing_mode(),
            ),
        ensures
            r@.len() == self@.line_sprites(y as int, 64).len(),
            r@.len() <= 8,
            forall|j: int|
                0 <= j < r@.len() ==> #[trigger] r@[j] as int == self@.line_sprites(y as int, 64)[j],
            forall|j: int| 0 <= j < r@.len() ==> #[trigger] r@[j] < 64,
    {
        let mut secondary_oam_indexes: Vec<usize> = Vec::new();
        let mut index: usize = 0;
        while index < 64
            invariant
                index <= 64,
                sprites@.len() == 64,
                forall|k: int| 0 <= k < 64 ==> #[trigger] sprites@[k] == self@.sprite_at(4 * k),
                sprite_height as int == PpuState::sprite_height_offset(
                    self@.control_register().spec_drawing_mode(),
                ),
                secondary_oam_indexes@.len() == self@.line_sprites(y as int, index as int).len(),
                secondary_oam_indexes@.len() <= 8,
                forall|j: int|
                    0 <= j < secondary_oam_indexes@.len() ==> #[trigger] secondary_oam_indexes@[j]
                        as int == self@.line_sprites(y as int, index as int)[j],
                forall|j: int|
                    0 <= j < secondary_oam_indexes@.len() ==> #[trigger] secondary_oam_indexes@[j]
                        < index,
            decreases 64 - index,
        {
            let sprite = &sprites[index];
            if secondary_oam_indexes.len() < 8 && sprite.y as u16 + 1 <= y && y <= sprite.y as u16
                + 1 + sprite_height {
                secondary_oam_indexes.push(index);
            }
            index = index + 1;
        }
        secondary_oam_indexes
    }

    /// Draws one sprite into its layer on scanline `y`, where no earlier
    /// sprite has drawn.
    fn paint_sprite(&mut self, sprite: &SpriteData, k: usize, y: u16, palette: &[[u8; 3]; 4])
        requires
            old(self)@.wf(),
            old(self)@.sprite_pixel_defined(old(self)@.sprite_at(4 * k), y as u32, 0),
            1 <= y < 240,
            k < 64,
            *sprite == old(self)@.sprite_at(4 * k),
            forall|set: int, index: int|
                0 <= set < 4 && 0 <= index < 3 ==> #[trigger] palette@[set]@[index]
                    == palette_entry(old(self)@.memory, 0x3f10, set, index),
        ensures
            final(self)@.wf(),
            final(self)@ == (PpuState {
                foreground: final(self)@.foreground,
                background: final(self)@.background,
                ..old(self)@
            }),
            cells_painted(
                final(self)@.foreground,
                old(self)@.foreground,
                old(self)@,
                k as int,
                y as int,
                0,
                256,
                DrawPriority::Foreground,
            ),
            cells_painted(
                final(self)@.background,
                old(self)@.background,
                old(self)@,
                k as int,
                y as int,
                0,
                256,
                DrawPriority::Background,
            ),
    {
        proof {
            self.lemma_sizes();
            lemma_sprite_at_facts(self@, 4 * k as int);
        }
        let mut i: u8 = 0;
        while i < 8 && sprite.x as u16 + i as u16 <= 255
            invariant
                i <= 8,
                sprite.x + i <= 256,
                old(self)@.wf(),
                old(self)@.sprite_pixel_defined(old(self)@.sprite_at(4 * k), y as u32, 0),
                1 <= y < 240,
                k < 64,
                *sprite == old(self)@.sprite_at(4 * k),
                sprite.color_palette <= 3,
                forall|set: int, index: int|
                    0 <= set < 4 && 0 <= index < 3 ==> #[trigger] palette@[set]@[index]
                        == palette_entry(old(self)@.memory, 0x3f10, set, index),
                self@.wf(),
                self@ == (PpuState {
                    foreground: self@.foreground,
                    background: self@.background,
                    ..old(self)@
                }),
                cells_painted(
                    self@.foreground,
                    old(self)@.foreground,
                    old(self)@,
                    k as int,
                    y as int,
                    sprite.x as int,
                    sprite.x + i,
                    DrawPriority::Foreground,
                ),
                cells_painted(
                    self@.background,
                    old(self)@.background,
                    old(self)@,
                    k as int,
                    y as int,
                    sprite.x as int,
                    sprite.x + i,
                    DrawPriority::Background,
                ),
            decreases 8 - i,
        {
            proof {
                lemma_sprite_row(old(self)@, *sprite, y as u32, i);
            }
            let pixel_value = self.sprite_pixel_value(sprite, y as u32, i);
            let x = sprite.x as usize + i as usize;
            let ghost before = self@;
            let ghost fg_paint = old(self)@.sprite_paint(
                k as int,
                y as int,
                x as int,
                DrawPriority::Foreground,
            );
            let ghost bg_paint = old(self)@.sprite_paint(
                k as int,
                y as int,
                x as int,
                DrawPriority::Background,
            );
            assert(before.foreground[y as int][x as int] == old(self)@.foreground[y as int][x as int]);
            assert(before.background[y as int][x as int] == old(self)@.background[y as int][x as int]);
            if let Some(value) = pixel_value {
                if value != 0 {
                    let color = palette[sprite.color_palette as usize][value as usize - 1];
                    if sprite.draw_priority == DrawPriority::Foreground {
                        assert(fg_paint == Some(color));
                        assert(bg_paint is None);
                        if self.foreground_sprite_buffer[y as usize][x] == 0xff {
                            self.foreground_sprite_buffer[y as usize][x] = color;
                        }
                    } else {
                        assert(bg_paint == Some(color));
                        assert(fg_paint is None);
                        if self.background_sprite_buffer[y as usize][x] == 0xff {
                            self.background_sprite_buffer[y as usize][x] = color;
                        }
                    }
                } else {
                    assert(fg_paint is None && bg_paint is None);
                }
            } else {
                assert(fg_paint is None && bg_paint is None);
            }
            proof {
                self.lemma_sizes();
                assert(self@.foreground[y as int][x as int] == painted(
                    before.foreground[y as int][x as int],
                    fg_paint,
                ));
                assert(self@.background[y as int][x as int] == painted(
                    before.background[y as int][x as int],
                    bg_paint,
                ));
                assert forall|r: int, c: int| 0 <= r < 240 && 0 <= c < 256 && !(r == y && c == x)
                    implies #[trigger] self@.foreground[r][c] == before.foreground[r][c] by {}
                assert forall|r: int, c: int| 0 <= r < 240 && 0 <= c < 256 && !(r == y && c == x)
                    implies #[trigger] self@.background[r][c] == before.background[r][c] by {}
                lemma_cells_painted_step(
                    self@.foreground,
                    before.foreground,
                    old(self)@.foreground,
                    old(self)@,
                    k as int,
                    y as int,
                    sprite.x as int,
                    x as int,
                    DrawPriority::Foreground,
                );
                lemma_cells_painted_step(
                    self@.background,
                    before.background,
                    old(self)@.background,
                    old(self)@,
                    k as int,
                    y as int,
                    sprite.x as int,
                    x as int,
                    DrawPriority::Background,
                );
            }
            i = i + 1;
        }
        proof {
            lemma_cells_painted_rest(
                self@.foreground,
                old(self)@.foreground,
                old(self)@,
                k as int,
                y as int,
                sprite.x as int,
                sprite.x + i,
                DrawPriority::Foreground,
            );
            lemma_cells_painted_rest(
                self@.background,
                old(self)@.background,
                old(self)@,
                k as int,
                y as int,
                sprite.x as int,
                sprite.x + i,
                DrawPriority::Background,
            );
        }
    }

    /// Draws the sprite layers: on each scanline from 1 to 239, the first
    /// eight sprites that cover it, earlier sprites in front of later ones.
    fn render_sprites(&mut self)
        requires
            old(self)@.wf(),
            old(self)@.sprite_layer_reads_defined(),
        ensures
            final(self)@ == old(self)@.sprites_rendered(),
    {
        self.foreground_sprite_buffer = [[0xff; 256]; 240];
        self.background_sprite_buffer = [[0xff; 256]; 240];
        proof {
            self.lemma_sizes();
            assert(self@.foreground =~~= filled(0xff));
            assert(self@.background =~~= filled(0xff));
        }
        let ghost start = old(self)@;
        proof {
            lemma_layer_rows_start(self@.foreground, start, DrawPriority::Foreground);
            lemma_layer_rows_start(self@.background, start, DrawPriority::Background);
        }

        let sprites = self.get_all_oam_sprite_data();
        let sprite_height: u16 = if self.control.bits & SPRITE_8X16_MODE != 0 {
            15
        } else {
            7
        };
        let palette = self.get_color_palette().sprite_color_set;

        let mut y: u16 = 1;
        while y < 240
            invariant
                1 <= y <= 240,
                start == old(self)@,
                start.wf(),
                start.sprite_layer_reads_defined(),
                self@.wf(),
                self@ == (PpuState {
                    foreground: self@.foreground,
                    background: self@.background,
                    ..start
                }),
                sprites@.len() == 64,
                forall|k: int| 0 <= k < 64 ==> #[trigger] sprites@[k] == start.sprite_at(4 * k),
                sprite_height as int == PpuState::sprite_height_offset(
                    start.control_register().spec_drawing_mode(),
                ),
                forall|set: int, index: int|
                    0 <= set < 4 && 0 <= index < 3 ==> #[trigger] palette@[set]@[index]
                        == palette_entry(start.memory, 0x3f10, set, index),
                layer_rows(self@.foreground, start, y as int, Seq::empty(), DrawPriority::Foreground),
                layer_rows(self@.background, start, y as int, Seq::empty(), DrawPriority::Background),
            decreases 240 - y,
        {
            self.render_sprite_line(&sprites, y, sprite_height, &palette, Ghost(start));
            proof {
                lemma_layer_rows_next(self@.foreground, start, y as int, DrawPriority::Foreground);
                lemma_layer_rows_next(self@.background, start, y as int, DrawPriority::Background);
            }
            y = y + 1;
        }
        proof {
            lemma_layer_rows_end(self@.foreground, start, DrawPriority::Foreground);
            lemma_layer_rows_end(self@.background, start, DrawPriority::Background);
        }
    }

    /// Draws the sprites of scanline `y`.
    fn render_sprite_line(
        &mut self,
        sprites: &Vec<SpriteData>,
        y: u16,
        sprite_height: u16,
        palette: &[[u8; 3]; 4],
        Ghost(start): Ghost<PpuState>,
    )
        requires
            1 <= y < 240,
            start.wf(),
            start.sprite_layer_reads_defined(),
            old(self)@.wf(),
            old(self)@ == (PpuState {
                foreground: old(self)@.foreground,
                background: old(self)@.background,
                ..start
            }),
            sprites@.len() == 64,
            forall|k: int| 0 <= k < 64 ==> #[trigger] sprites@[k] == start.sprite_at(4 * k),
            sprite_height as int == PpuState::sprite_height_offset(
                start.control_register().spec_drawing_mode(),
            ),
            forall|set: int, index: int|
                0 <= set < 4 && 0 <= index < 3 ==> #[trigger] palette@[set]@[index]
                    == palette_entry(start.memory, 0x3f10, set, index),
            layer_rows(old(self)@.foreground, start, y as int, Seq::empty(), DrawPriority::Foreground),
            layer_rows(old(self)@.background, start, y as int, Seq::empty(), DrawPriority::Background),
        ensures
            final(self)@.wf(),
            final(self)@ == (PpuState {
                foreground: final(self)@.foreground,
                background: final(self)@.background,
                ..start
            }),
            layer_rows(
                final(self)@.foreground,
                start,
                y as int,
                start.line_sprites(y as int, 64),
                DrawPriority::Foreground,
            ),
            layer_rows(
                final(self)@.background,
                start,
                y as int,
                start.line_sprites(y as int, 64),
                DrawPriority::Background,
            ),
    {
        let secondary = self.select_line_sprites(sprites, y, sprite_height);
        let ghost line = start.line_sprites(y as int, 64);
        proof {
            lemma_line_sprites_frame(self@, start, y as int, 64);
        }
        proof {
            assert(line.take(0) =~= Seq::<int>::empty());
        }
        let mut m: usize = 0;
        while m < secondary.len()
            invariant
                1 <= y < 240,
                m <= secondary@.len(),
                secondary@.len() == line.len(),
                line == start.line_sprites(y as int, 64),
                forall|j: int| 0 <= j < secondary@.len() ==> #[trigger] secondary@[j] as int == line[j],
                forall|j: int| 0 <= j < secondary@.len() ==> #[trigger] secondary@[j] < 64,
                start.wf(),
                start.sprite_layer_reads_defined(),
                self@.wf(),
                self@ == (PpuState {
                    foreground: self@.foreground,
                    background: self@.background,
                    ..start
                }),
                sprites@.len() == 64,
                forall|k: int| 0 <= k < 64 ==> #[trigger] sprites@[k] == start.sprite_at(4 * k),
                forall|set: int, index: int|
                    0 <= set < 4 && 0 <= index < 3 ==> #[trigger] palette@[set]@[index]
                        == palette_entry(start.memory, 0x3f10, set, index),
                layer_rows(self@.foreground, start, y as int, line.take(m as int), DrawPriority::Foreground),
                layer_rows(self@.background, start, y as int, line.take(m as int), DrawPriority::Background),
            decreases secondary@.len() - m,
        {
            let index = secondary[m];
            let sprite = sprites[index];
            let ghost before = self@;
            proof {
                assert(start.sprite_pixel_defined(
                    start.sprite_at(4 * start.line_sprites(y as int, 64)[m as int]),
                    y as u32,
                    0,
                ));
            }
            self.paint_sprite(&sprite, index, y, palette);
            proof {
                lemma_layer_rows_paint(
                    self@.foreground,
                    before.foreground,
                    start,
                    before,
                    y as int,
                    line,
                    m as int,
                    DrawPriority::Foreground,
                );
                lemma_layer_rows_paint(
                    self@.background,
                    before.background,
                    start,
                    before,
                    y as int,
                    line,
                    m as int,
                    DrawPriority::Background,
                );
            }
            m = m + 1;
        }
        proof {
            assert(line.take(line.len() as int) =~= line);
        }
    }
}

/// The sprites of a scanline depend on object attribute memory and the
/// control register only, not on the sprite layers.
proof fn lemma_line_sprites_frame(s: PpuState, t: PpuState, y: int, n: int)
    requires
        s == (PpuState { foreground: s.foreground, background: s.background, ..t }),
    ensures
        s.line_sprites(y, n) == t.line_sprites(y, n),
    decreases n,
{
    if n > 0 {
        lemma_line_sprites_frame(s, t, y, n - 1);
    }
}

/// Whether a sprite layer shows its sprites on the rows from 1 to `y - 1`,
/// the sprites of `list` on row `y`, and nothing on the other rows.
pub open spec fn layer_rows(
    cur: Seq<Seq<u8>>,
    s: PpuState,
    y: int,
    list: Seq<int>,
    priority: DrawPriority,
) -> bool {
    &&& screen_sized(cur)
    &&& forall|r: int, c: int|
        0 <= r < 240 && 0 <= c < 256 ==> #[trigger] cur[r][c] == if 1 <= r < y {
            s.layer_pixel(s.line_sprites(r, 64), r, c, priority)
        } else if r == y {
            s.layer_pixel(list, r, c, priority)
        } else {
            0xff
        }
}

proof fn lemma_layer_rows_start(cur: Seq<Seq<u8>>, s: PpuState, priority: DrawPriority)
    requires
        cur == filled(0xff),
    ensures
        layer_rows(cur, s, 1, Seq::empty(), priority),
{
}

proof fn lemma_layer_rows_next(cur: Seq<Seq<u8>>, s: PpuState, y: int, priority: DrawPriority)
    requires
        1 <= y < 240,
        layer_rows(cur, s, y, s.line_sprites(y, 64), priority),
    ensures
        layer_rows(cur, s, y + 1, Seq::empty(), priority),
{
    assert forall|r: int, c: int| 0 <= r < 240 && 0 <= c < 256 implies #[trigger] cur[r][c] == if 1
        <= r < y + 1 {
        s.layer_pixel(s.line_sprites(r, 64), r, c, priority)
    } else if r == y + 1 {
        s.layer_pixel(Seq::empty(), r, c, priority)
    } else {
        0xff
    } by {}
}

proof fn lemma_layer_rows_end(cur: Seq<Seq<u8>>, s: PpuState, priority: DrawPriority)
    requires
        layer_rows(cur, s, 240, Seq::empty(), priority),
    ensures
        cur == s.sprite_layer(priority),
{
    assert forall|r: int| 0 <= r < 240 implies #[trigger] cur[r] =~= s.sprite_layer(priority)[r] by {
        assert forall|c: int| 0 <= c < 256 implies #[trigger] cur[r][c] == s.sprite_layer(
            priority,
        )[r][c] by {}
    }
    assert(cur =~= s.sprite_layer(priority));
}

/// Painting the next sprite of the row's list extends the list drawn on the row.
proof fn lemma_layer_rows_paint(
    cur: Seq<Seq<u8>>,
    prev: Seq<Seq<u8>>,
    s: PpuState,
    t: PpuState,
    y: int,
    line: Seq<int>,
    m: int,
    priority: DrawPriority,
)
    requires
        1 <= y < 240,
        0 <= m < line.len(),
        screen_sized(cur),
        layer_rows(prev, s, y, line.take(m), priority),
        cells_painted(cur, prev, t, line[m], y, 0, 256, priority),
        t.memory == s.memory,
        t.oam == s.oam,
        t.oam_address == s.oam_address,
        t.control == s.control,
        t.cartridge == s.cartridge,
    ensures
        layer_rows(cur, s, y, line.take(m + 1), priority),
{
    assert(line.take(m + 1).drop_last() =~= line.take(m));
    assert(line.take(m + 1).last() == line[m]);
    assert forall|r: int, c: int| 0 <= r < 240 && 0 <= c < 256 implies #[trigger] cur[r][c] == if 1
        <= r < y {
        s.layer_pixel(s.line_sprites(r, 64), r, c, priority)
    } else if r == y {
        s.layer_pixel(line.take(m + 1), r, c, priority)
    } else {
        0xff
    } by {
        assert(prev[r][c] == if 1 <= r < y {
            s.layer_pixel(s.line_sprites(r, 64), r, c, priority)
        } else if r == y {
            s.layer_pixel(line.take(m), r, c, priority)
        } else {
            0xff
        });
        assert(t.sprite_paint(line[m], r, c, priority) == s.sprite_paint(line[m], r, c, priority));
    }
}

/// Whether `cur` is `prev` with sprite `k` painted on row `y`, columns `lo`
/// to `hi - 1`, where nothing was painted before.
pub open spec fn cells_painted(
    cur: Seq<Seq<u8>>,
    prev: Seq<Seq<u8>>,
    s: PpuState,
    k: int,
    y: int,
    lo: int,
    hi: int,
    priority: DrawPriority,
) -> bool {
    &&& screen_sized(cur)
    &&& forall|r: int, c: int|
        0 <= r < 240 && 0 <= c < 256 ==> #[trigger] cur[r][c] == if r == y && lo <= c < hi {
            painted(prev[r][c], s.sprite_paint(k, r, c, priority))
        } else {
            prev[r][c]
        }
}

proof fn lemma_cells_painted_step(
    cur: Seq<Seq<u8>>,
    mid: Seq<Seq<u8>>,
    prev: Seq<Seq<u8>>,
    s: PpuState,
    k: int,
    y: int,
    lo: int,
    x: int,
    priority: DrawPriority,
)
    requires
        0 <= y < 240,
        0 <= x < 256,
        lo <= x,
        screen_sized(cur),
        cells_painted(mid, prev, s, k, y, lo, x, priority),
        cur[y][x] == painted(mid[y][x], s.sprite_paint(k, y, x, priority)),
        forall|r: int, c: int|
            0 <= r < 240 && 0 <= c < 256 && !(r == y && c == x) ==> #[trigger] cur[r][c]
                == mid[r][c],
    ensures
        cells_painted(cur, prev, s, k, y, lo, x + 1, priority),
{
    assert(mid[y][x] == prev[y][x]);
    assert forall|r: int, c: int| 0 <= r < 240 && 0 <= c < 256 implies #[trigger] cur[r][c] == if r
        == y && lo <= c < x + 1 {
        painted(prev[r][c], s.sprite_paint(k, r, c, priority))
    } else {
        prev[r][c]
    } by {
        if !(r == y && c == x) {
            assert(mid[r][c] == if r == y && lo <= c < x {
                painted(prev[r][c], s.sprite_paint(k, r, c, priority))
            } else {
                prev[r][c]
            });
        }
    }
}

/// Outside the sprite's eight columns nothing is painted, so a painted
/// stretch that reaches the sprite's end covers the whole row.
proof fn lemma_cells_painted_rest(
    cur: Seq<Seq<u8>>,
    prev: Seq<Seq<u8>>,
    s: PpuState,
    k: int,
    y: int,
    lo: int,
    hi: int,
    priority: DrawPriority,
)
    requires
        cells_painted(cur, prev, s, k, y, lo, hi, priority),
        lo == s.sprite_at(4 * k).x,
        hi == lo + 8 || hi == 256,
    ensures
        cells_painted(cur, prev, s, k, y, 0, 256, priority),
{
    assert forall|r: int, c: int| 0 <= r < 240 && 0 <= c < 256 implies #[trigger] cur[r][c] == if r
        == y && 0 <= c < 256 {
        painted(prev[r][c], s.sprite_paint(k, r, c, priority))
    } else {
        prev[r][c]
    } by {
        if r == y && !(lo <= c < hi) {
            assert(s.sprite_paint(k, r, c, priority) is None);
        }
    }
}

/// The pixel of a layer after a sprite paints where nothing was painted.
pub open spec fn painted(before: u8, paint: Option<u8>) -> u8 {
    if before != 0xff {
        before
    } else {
        match paint {
            Some(c) => c,
            None => 0xff,
        }
    }
}

} // verus!
