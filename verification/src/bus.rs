//! The CPU bus: its memory mirrors, the PPU registers it forwards to the
//! PPU, and the standard controller read one button at a time.

use vstd::prelude::*;

use std::collections::HashSet;

use crate::cpu::MemoryBuffer;
use crate::ppu::{Ppu, PpuControl, PpuMask, PpuState, WriteLatch};

verus! {

broadcast use vstd::std_specs::hash::group_hash_axioms;

/// Where the controller is in its report.
#[derive(Debug, Clone, Copy, PartialEq, Eq, Structural)]
pub enum JoypadState {
    Polling,
    Ready(JoypadButton),
    Idle,
}

/// The buttons of the controller, in the order in which it reports them.
#[derive(Debug, Clone, Copy, PartialEq, Eq, Structural, Hash)]
pub enum JoypadButton {
    A,
    B,
    Select,
    Start,
    Up,
    Down,
    Left,
    Right,
}

impl JoypadButton {
    /// The position of the button in the controller's report.
    pub open spec fn spec_index(self) -> u8 {
        match self {
            JoypadButton::A => 0,
            JoypadButton::B => 1,
            JoypadButton::Select => 2,
            JoypadButton::Start => 3,
            JoypadButton::Up => 4,
            JoypadButton::Down => 5,
            JoypadButton::Left => 6,
            JoypadButton::Right => 7,
        }
    }

    pub fn index(&self) -> (r: u8)
        ensures
            r == self.spec_index(),
    {
        match self {
            JoypadButton::A => 0,
            JoypadButton::B => 1,
            JoypadButton::Select => 2,
            JoypadButton::Start => 3,
            JoypadButton::Up => 4,
            JoypadButton::Down => 5,
            JoypadButton::Left => 6,
            JoypadButton::Right => 7,
        }
    }

    /// The state after this button has been reported.
    pub open spec fn spec_next(self) -> JoypadState {
        match self {
            JoypadButton::A => JoypadState::Ready(JoypadButton::B),
            JoypadButton::B => JoypadState::Ready(JoypadButton::Select),
            JoypadButton::Select => JoypadState::Ready(JoypadButton::Start),
            JoypadButton::Start => JoypadState::Ready(JoypadButton::Up),
            JoypadButton::Up => JoypadState::Ready(JoypadButton::Down),
            JoypadButton::Down => JoypadState::Ready(JoypadButton::Left),
            JoypadButton::Left => JoypadState::Ready(JoypadButton::Right),
            JoypadButton::Right => JoypadState::Idle,
        }
    }

    fn next(&self) -> (r: JoypadState)
        ensures
            r == self.spec_next(),
    {
        match self {
            JoypadButton::A => JoypadState::Ready(JoypadButton::B),
            JoypadButton::B => JoypadState::Ready(JoypadButton::Select),
            JoypadButton::Select => JoypadState::Ready(JoypadButton::Start),
            JoypadButton::Start => JoypadState::Ready(JoypadButton::Up),
            JoypadButton::Up => JoypadState::Ready(JoypadButton::Down),
            JoypadButton::Down => JoypadState::Ready(JoypadButton::Left),
            JoypadButton::Left => JoypadState::Ready(JoypadButton::Right),
            JoypadButton::Right => JoypadState::Idle,
        }
    }
}

/// A read of the controller port: the bit reported and the state after.
/// While strobed it reports 0; after the eight buttons it reports 1.
pub open spec fn joypad_read(state: JoypadState, buttons: Set<u8>) -> (JoypadState, u8) {
    match state {
        JoypadState::Ready(button) => (
            button.spec_next(),
            if buttons.contains(button.spec_index()) {
                1
            } else {
                0
            },
        ),
        JoypadState::Polling => (state, 0),
        JoypadState::Idle => (state, 1),
    }
}

/// The bits of `n` successive reads of the controller port.
pub open spec fn joypad_reads(state: JoypadState, buttons: Set<u8>, n: nat) -> Seq<u8>
    decreases n,
{
    if n == 0 {
        Seq::empty()
    } else {
        let (next, value) = joypad_read(state, buttons);
        seq![value].add(joypad_reads(next, buttons, (n - 1) as nat))
    }
}

/// A write of the controller port: bit 0 set strobes the controller, bit 0
/// clear latches the buttons and starts the report at A.
pub open spec fn joypad_written(value: u8) -> JoypadState {
    if value % 2 == 1 {
        JoypadState::Polling
    } else {
        JoypadState::Ready(JoypadButton::A)
    }
}

/// Whether the button at position `index` is pressed, as a report bit.
pub open spec fn pressed_bit(buttons: Set<u8>, index: u8) -> u8 {
    if buttons.contains(index) {
        1
    } else {
        0
    }
}

/// While the strobe is held the controller reads 0; after a strobe and its
/// release, any number of reads gives A, B, Select, Start, Up, Down, Left
/// and Right, one per read, and 1 on every read after them.
pub proof fn lemma_joypad_report(buttons: Set<u8>, strobe: u8, release: u8, n: nat)
    requires
        strobe % 2 == 1,
        release % 2 == 0,
    ensures
        joypad_written(strobe) == JoypadState::Polling,
        joypad_read(JoypadState::Polling, buttons).1 == 0,
        joypad_reads(joypad_written(release), buttons, n).len() == n,
        forall|k: int|
            0 <= k < n ==> #[trigger] joypad_reads(joypad_written(release), buttons, n)[k] == if k
                < 8 {
                pressed_bit(buttons, k as u8)
            } else {
                1
            },
{
    assert(joypad_written(release) == JoypadState::Ready(button_at(0)));
    lemma_ready_reads(buttons, 0, n);
}

/// Folds the mirrors of the CPU address space: the 2 KiB of RAM repeat up to
/// 0x1fff, and the eight PPU registers repeat up to 0x3fff.
pub open spec fn spec_unmirror(address: u16) -> u16 {
    if 0x0800 <= address <= 0x1fff {
        (address % 0x0800) as u16
    } else if 0x2008 <= address <= 0x3fff {
        (0x2000 + (address - 0x2000) % 8) as u16
    } else {
        address
    }
}

pub fn unmirror(address: u16) -> (r: u16)
    ensures
        r == spec_unmirror(address),
{
    if address >= 0x0800 && address <= 0x0fff {
        address - 0x0800
    } else if address >= 0x1000 && address <= 0x17ff {
        address - 0x1000
    } else if address >= 0x1800 && address <= 0x1fff {
        address - 0x1800
    } else if address >= 0x2008 && address <= 0x3fff {
        0x2000 + (address - 0x2000) % 8
    } else {
        address
    }
}

/// Unmirroring twice is unmirroring once, and RAM addresses land in the
/// first 2 KiB.
pub proof fn lemma_unmirror(address: u16)
    ensures
        spec_unmirror(spec_unmirror(address)) == spec_unmirror(address),
        address < 0x2000 ==> spec_unmirror(address) < 0x0800,
        address < 0x2000 ==> spec_unmirror(address) == address % 0x0800,
        0x2000 <= address < 0x4000 ==> 0x2000 <= spec_unmirror(address) < 0x2008,
{
}

/// A bus: reads and writes of the CPU address space.
pub trait BusTrait {
    /// Whether a read of `address` is defined in this state.
    spec fn read_defined(&self, address: u16) -> bool;

    /// Whether a write of `value` to `address` is defined in this state.
    spec fn write_defined(&self, address: u16, value: u8) -> bool;

    fn read_address(&mut self, address: u16) -> u8
        requires
            old(self).read_defined(address),
    ;

    fn write_address(&mut self, address: u16, value: u8)
        requires
            old(self).write_defined(address, value),
    ;
}

/// The bus of the NES: RAM and the rest of the address space, the pressed
/// buttons (by their position in the report), the controller, and the PPU.
pub struct RealBus {
    pub memory: MemoryBuffer,
    pub active_buttons: HashSet<u8>,
    pub joypad_state: JoypadState,
    pub ppu: Ppu,
}

/// The state of the bus.
pub struct BusState {
    pub memory: Seq<u8>,
    pub buttons: Set<u8>,
    pub joypad: JoypadState,
    pub ppu: PpuState,
}

impl RealBus {
    pub open spec fn state(&self) -> BusState {
        BusState {
            memory: self.memory@,
            buttons: self.active_buttons@,
            joypad: self.joypad_state,
            ppu: self.ppu@,
        }
    }
}

impl BusState {
    /// What a read of `address` returns, and the state after it.
    pub open spec fn read(self, address: u16) -> (BusState, u8) {
        let a = spec_unmirror(address);
        if a == 0x2002 {
            (
                BusState {
                    ppu: PpuState { write_latch: WriteLatch::Zero, ..self.ppu },
                    ..self
                },
                self.ppu.status,
            )
        } else if a == 0x2007 {
            let (ppu, value) = self.ppu.data_read();
            (BusState { ppu, ..self }, value)
        } else if a == 0x4016 {
            let (joypad, value) = joypad_read(self.joypad, self.buttons);
            (BusState { joypad, ..self }, value)
        } else {
            (self, self.memory[a as int])
        }
    }

    pub open spec fn read_defined(self, address: u16) -> bool {
        spec_unmirror(address) == 0x2007 ==> self.ppu.data_port_defined()
    }

    /// The state after a write of `value` to `address`.
    pub open spec fn written(self, address: u16, value: u8) -> BusState {
        let a = spec_unmirror(address);
        if a == 0x2000 {
            BusState {
                ppu: self.ppu.with_control(value),
                memory: self.memory.update(a as int, value),
                ..self
            }
        } else if a == 0x2001 {
            BusState { ppu: PpuState { mask: value, ..self.ppu }, ..self }
        } else if a == 0x2005 {
            BusState { ppu: self.ppu.scroll_written(value), ..self }
        } else if a == 0x2006 {
            BusState { ppu: self.ppu.address_written(value), ..self }
        } else if a == 0x2007 {
            BusState { ppu: self.ppu.data_written(value), ..self }
        } else if a == 0x2003 {
            BusState { ppu: PpuState { oam_address: value, ..self.ppu }, ..self }
        } else if a == 0x2004 {
            BusState { ppu: self.ppu.oam_written(value), ..self }
        } else if a == 0x4014 {
            let start = value * 0x100;
            BusState {
                ppu: self.ppu.oam_copied(self.memory.subrange(start, start + 0x100)),
                ..self
            }
        } else if a == 0x4016 {
            BusState { joypad: joypad_written(value), ..self }
        } else {
            BusState { memory: self.memory.update(a as int, value), ..self }
        }
    }

    pub open spec fn write_defined(self, address: u16, value: u8) -> bool {
        let a = spec_unmirror(address);
        &&& a == 0x2007 ==> self.ppu.v < 0x4000
        &&& a == 0x2004 ==> self.ppu.oam_address < 255
    }
}

impl BusTrait for RealBus {
    open spec fn read_defined(&self, address: u16) -> bool {
        self.state().read_defined(address)
    }

    open spec fn write_defined(&self, address: u16, value: u8) -> bool {
        self.state().write_defined(address, value)
    }

    fn read_address(&mut self, address: u16) -> (r: u8)
        ensures
            (final(self).state(), r) == old(self).state().read(address),
    {
        let address = unmirror(address);
        if address == 0x2002 {
            self.ppu.clear_address_latch();
            return self.ppu.get_status().bits();
        } else if address == 0x2004 {
            self.memory[address as usize]
        } else if address == 0x2007 {
            self.ppu.read_data()
        } else if address == 0x4016 {
            let value: u8 = match self.joypad_state {
                JoypadState::Ready(button) => {
                    if self.active_buttons.contains(&button.index()) {
                        1
                    } else {
                        0
                    }
                },
                JoypadState::Polling => 0,
                JoypadState::Idle => 1,
            };
            let next_state = match self.joypad_state {
                JoypadState::Ready(button) => button.next(),
                _ => self.joypad_state,
            };
            self.joypad_state = next_state;
            return value;
        } else {
            self.memory[address as usize]
        }
    }

    fn write_address(&mut self, address: u16, value: u8)
        ensures
            final(self).state() == old(self).state().written(address, value),
    {
        let address = unmirror(address);
        if address == 0x2000 {
            match PpuControl::from_bits(value) {
                Some(control) => self.ppu.set_control(control),
                None => {},
            }
            self.memory[address as usize] = value;
        } else if address == 0x2001 {
            match PpuMask::from_bits(value) {
                Some(mask) => self.ppu.set_mask(mask),
                None => {},
            }
        } else if address == 0x2005 {
            self.ppu.write_scroll(value);
        } else if address == 0x2006 {
            self.ppu.write_address(value);
        } else if address == 0x2007 {
            self.ppu.write_data(value);
        } else if address == 0x2003 {
            self.ppu.set_oam_address(value);
        } else if address == 0x2004 {
            self.ppu.write_oam_data(value);
        } else if address == 0x4014 {
            let starting_address = value as usize * 0x100;
            let slice = slice_subrange(&self.memory, starting_address, starting_address + 0x100);
            self.ppu.copy_oam_data(slice);
        } else if address == 0x4016 {
            if value & 1 == 1 {
                self.joypad_state = JoypadState::Polling;
            } else {
                self.joypad_state = JoypadState::Ready(JoypadButton::A);
            }
            assert((value & 1 == 1) == (value % 2 == 1)) by (bit_vector);
        } else {
            self.memory[address as usize] = value;
        }
    }
}

pub(crate) fn slice_subrange(memory: &MemoryBuffer, start: usize, end: usize) -> (r: &[u8])
    requires
        start <= end <= 0x10000,
    ensures
        r@ == memory@.subrange(start as int, end as int),
{
    vstd::slice::slice_subrange(memory.as_slice(), start, end)
}

/// The button at position `i` of the controller's report.
pub open spec fn button_at(i: int) -> JoypadButton {
    if i <= 0 {
        JoypadButton::A
    } else if i == 1 {
        JoypadButton::B
    } else if i == 2 {
        JoypadButton::Select
    } else if i == 3 {
        JoypadButton::Start
    } else if i == 4 {
        JoypadButton::Up
    } else if i == 5 {
        JoypadButton::Down
    } else if i == 6 {
        JoypadButton::Left
    } else {
        JoypadButton::Right
    }
}

proof fn lemma_idle_reads(buttons: Set<u8>, n: nat)
    ensures
        joypad_reads(JoypadState::Idle, buttons, n).len() == n,
        forall|k: int| 0 <= k < n ==> #[trigger] joypad_reads(JoypadState::Idle, buttons, n)[k] == 1,
    decreases n,
{
    if n > 0 {
        lemma_idle_reads(buttons, (n - 1) as nat);
    }
}

proof fn lemma_ready_reads(buttons: Set<u8>, j: int, n: nat)
    requires
        0 <= j < 8,
    ensures
        joypad_reads(JoypadState::Ready(button_at(j)), buttons, n).len() == n,
        forall|k: int|
            0 <= k < n ==> #[trigger] joypad_reads(JoypadState::Ready(button_at(j)), buttons, n)[k]
                == if j + k < 8 {
                pressed_bit(buttons, (j + k) as u8)
            } else {
                1
            },
    decreases n,
{
    if n > 0 {
        let reads = joypad_reads(JoypadState::Ready(button_at(j)), buttons, n);
        if j < 7 {
            assert(button_at(j).spec_next() == JoypadState::Ready(button_at(j + 1)));
            lemma_ready_reads(buttons, j + 1, (n - 1) as nat);
            let rest = joypad_reads(JoypadState::Ready(button_at(j + 1)), buttons, (n - 1) as nat);
            assert(reads == seq![pressed_bit(buttons, j as u8)].add(rest));
            assert forall|k: int| 0 <= k < n implies #[trigger] reads[k] == if j + k < 8 {
                pressed_bit(buttons, (j + k) as u8)
            } else {
                1
            } by {
                if k > 0 {
                    assert(reads[k] == rest[k - 1]);
                }
            }
        } else {
            assert(button_at(j).spec_next() == JoypadState::Idle);
            lemma_idle_reads(buttons, (n - 1) as nat);
            let rest = joypad_reads(JoypadState::Idle, buttons, (n - 1) as nat);
            assert(reads == seq![pressed_bit(buttons, 7)].add(rest));
            assert forall|k: int| 0 <= k < n implies #[trigger] reads[k] == if j + k < 8 {
                pressed_bit(buttons, (j + k) as u8)
            } else {
                1
            } by {
                if k > 0 {
                    assert(reads[k] == rest[k - 1]);
                }
            }
        }
    }
}

/// The bytes that `n` successive reads of `address` give on the bus.
pub open spec fn bus_reads(s: BusState, address: u16, n: nat) -> Seq<u8>
    decreases n,
{
    if n == 0 {
        Seq::empty()
    } else {
        let (t, value) = s.read(address);
        seq![value].add(bus_reads(t, address, (n - 1) as nat))
    }
}

proof fn lemma_bus_reads_controller(s: BusState, n: nat)
    ensures
        bus_reads(s, 0x4016, n) == joypad_reads(s.joypad, s.buttons, n),
    decreases n,
{
    if n > 0 {
        let (t, value) = s.read(0x4016);
        lemma_bus_reads_controller(t, (n - 1) as nat);
    }
}

/// After a strobe and its release at 0x4016, any number of reads of 0x4016
/// gives the eight buttons in the order A, B, Select, Start, Up, Down, Left,
/// Right, and 1 on every read after them.
pub proof fn lemma_controller_reports(s: BusState, strobe: u8, release: u8, n: nat)
    requires
        strobe % 2 == 1,
        release % 2 == 0,
    ensures
        ({
            let t = s.written(0x4016, strobe).written(0x4016, release);
            let reads = bus_reads(t, 0x4016, n);
            &&& reads.len() == n
            &&& forall|k: int|
                0 <= k < n ==> #[trigger] reads[k] == if k < 8 {
                    pressed_bit(s.buttons, k as u8)
                } else {
                    1
                }
        }),
{
    let t = s.written(0x4016, strobe).written(0x4016, release);
    assert(t.joypad == JoypadState::Ready(button_at(0)));
    assert(t.buttons == s.buttons);
    lemma_bus_reads_controller(t, n);
    lemma_ready_reads(s.buttons, 0, n);
}

/// A read of the controller port changes only where the controller is in
/// its report: memory, the pressed buttons and the PPU stay as they were.
pub proof fn lemma_controller_read_keeps_rest(s: BusState)
    ensures
        s.read(0x4016).0 == (BusState { joypad: s.read(0x4016).0.joypad, ..s }),
{
}

/// The 2 KiB of RAM repeat up to 0x1fff: a byte written at any of its
/// mirrors is read back at every other mirror, and writes elsewhere in RAM
/// leave it.
pub proof fn lemma_ram_mirrors(s: BusState, a: u16, b: u16, v: u8)
    requires
        s.memory.len() == 0x10000,
        a < 0x2000,
        b < 0x2000,
    ensures
        s.written(a, v).read(b).1 == if a % 0x800 == b % 0x800 {
            v
        } else {
            s.read(b).1
        },
{
    lemma_unmirror(a);
    lemma_unmirror(b);
}

/// The eight PPU registers repeat every eight bytes up to 0x3fff: a write
/// to a mirror acts as a write to the register it mirrors, and so does a
/// read.
pub proof fn lemma_ppu_register_mirrors(s: BusState, a: u16, v: u8)
    requires
        0x2000 <= a < 0x4000,
    ensures
        s.written(a, v) == s.written((0x2000 + a % 8) as u16, v),
        s.read(a) == s.read((0x2000 + a % 8) as u16),
{
}

/// A write of page `page` to 0x4014 copies the 256 bytes of memory from
/// `page * 0x100` into object attribute memory, the first at the OAM
/// address and wrapping round.
pub proof fn lemma_bus_oam_dma(s: BusState, page: u8)
    requires
        s.memory.len() == 0x10000,
    ensures
        s.written(0x4014, page).ppu.oam.len() == 256,
        forall|j: int|
            0 <= j < 256 ==> #[trigger] s.written(0x4014, page).ppu.oam[(s.ppu.oam_address + j)
                % 256] == s.memory[page * 0x100 + j],
{
    let after = s.written(0x4014, page).ppu;
    assert forall|j: int| 0 <= j < 256 implies #[trigger] after.oam[(s.ppu.oam_address + j) % 256]
        == s.memory[page * 0x100 + j] by {
        let k = (s.ppu.oam_address + j) % 256;
        assert((k - s.ppu.oam_address + 256) % 256 == j);
    }
}

} // verus!
