//! iNES cartridges: the parsing of the file format and the mappers that
//! switch program and character banks.

use vstd::prelude::*;

use crate::ppu::Mirroring;

verus! {

/// The number of 16 KiB program banks.
fn prg_bank_size(bytes: &[u8]) -> (r: usize)
    ensures
        r == bytes@.len() / 0x4000,
{
    bytes.len() / 0x4000
}

/// A cartridge's bank switching hardware.
///
/// A read or write that the mapper does not define is excluded by the
/// `*_defined` predicates; within them, the methods act as the spec
/// functions say.
pub trait Mapper: Sized {
    /// Whether a CPU read at `address` is defined with program `prg`.
    spec fn read_defined(&self, prg: Seq<u8>, address: u16) -> bool;

    /// The byte a CPU read at `address` returns.
    spec fn read_value(&self, prg: Seq<u8>, address: u16) -> u8;

    /// Whether a CPU write of `value` at `address` is defined.
    spec fn write_defined(&self, address: u16, value: u8) -> bool;

    /// The mapper after a CPU write of `value` at `address`.
    spec fn written(&self, address: u16, value: u8) -> Self;

    /// Whether a PPU pattern read at `address` is defined with character
    /// data `chr`.
    spec fn chr_defined(&self, chr: Seq<u8>, address: u16) -> bool;

    /// The byte a PPU pattern read at `address` returns, or `None` when the
    /// mapper leaves pattern data to the PPU's own memory.
    spec fn chr_value(&self, chr: Seq<u8>, address: u16) -> Option<u8>;

    /// The mirroring the mapper selects, if any.
    spec fn spec_mirroring(&self) -> Option<Mirroring>;

    /// The mapper after a scanline tick.
    spec fn ticked(&self) -> Self;

    /// Whether the mapper asks for an interrupt.
    spec fn spec_pending_irq(&self) -> bool;

    fn write_address(&mut self, prg_rom: &[u8], address: u16, value: u8)
        requires
            old(self).write_defined(address, value),
        ensures
            *final(self) == old(self).written(address, value),
    ;

    fn read_address(&mut self, prg_rom: &[u8], address: u16) -> (r: u8)
        requires
            old(self).read_defined(prg_rom@, address),
        ensures
            *final(self) == *old(self),
            r == old(self).read_value(prg_rom@, address),
    ;

    fn read_chr_rom(&self, chr_rom: &[u8], address: u16) -> (r: Option<u8>)
        requires
            self.chr_defined(chr_rom@, address),
        ensures
            r == self.chr_value(chr_rom@, address),
    ;

    /// Whether a PPU pattern read at `address` is defined.
    fn chr_readable(&self, chr_rom: &[u8], address: u16) -> (r: bool)
        ensures
            r == self.chr_defined(chr_rom@, address),
    ;

    fn mirroring(&self) -> (r: Option<Mirroring>)
        ensures
            r == self.spec_mirroring(),
    ;

    fn scanline_tick(&mut self)
        ensures
            *final(self) == old(self).ticked(),
    ;

    fn has_pending_irq(&self) -> (r: bool)
        ensures
            r == self.spec_pending_irq(),
    ;
}

/// Whether `index` is a valid index into a sequence of length `len`.
pub open spec fn in_bounds(index: int, len: nat) -> bool {
    0 <= index < len
}

/// The CNROM board: switchable character banks.
pub struct CNROM {
    pub chr_bank: usize,
}

impl CNROM {
    pub fn new() -> (r: CNROM)
        ensures
            r.chr_bank == 0,
    {
        CNROM { chr_bank: 0 }
    }

    /// The program index a read at `address` uses.
    pub open spec fn prg_index(prg_len: nat, address: u16) -> int {
        if prg_len / 0x4000 == 2 || address < 0xc000 {
            address - 0x8000
        } else {
            address - 0xc000
        }
    }
}

impl Mapper for CNROM {
    open spec fn read_defined(&self, prg: Seq<u8>, address: u16) -> bool {
        address >= 0x8000 && in_bounds(Self::prg_index(prg.len(), address), prg.len())
    }

    open spec fn read_value(&self, prg: Seq<u8>, address: u16) -> u8 {
        prg[Self::prg_index(prg.len(), address)]
    }

    open spec fn write_defined(&self, address: u16, value: u8) -> bool {
        true
    }

    open spec fn written(&self, address: u16, value: u8) -> CNROM {
        if address >= 0x8000 {
            CNROM { chr_bank: (value & 3) as usize }
        } else {
            *self
        }
    }

    open spec fn chr_defined(&self, chr: Seq<u8>, address: u16) -> bool {
        chr.len() == 0 || in_bounds(self.chr_bank * 0x2000 + address, chr.len())
    }

    open spec fn chr_value(&self, chr: Seq<u8>, address: u16) -> Option<u8> {
        if chr.len() == 0 {
            None
        } else {
            Some(chr[self.chr_bank * 0x2000 + address])
        }
    }

    open spec fn spec_mirroring(&self) -> Option<Mirroring> {
        None
    }

    open spec fn ticked(&self) -> CNROM {
        *self
    }

    open spec fn spec_pending_irq(&self) -> bool {
        false
    }

    fn write_address(&mut self, _prg_rom: &[u8], address: u16, value: u8) {
        if address >= 0x8000 {
            self.chr_bank = (value & 3) as usize;
        }
    }

    fn read_address(&mut self, prg_rom: &[u8], address: u16) -> (r: u8) {
        if prg_bank_size(prg_rom) == 2 || address < 0xc000 {
            prg_rom[address as usize - 0x8000]
        } else {
            prg_rom[address as usize - 0xc000]
        }
    }

    fn read_chr_rom(&self, chr_rom: &[u8], address: u16) -> (r: Option<u8>) {
        if chr_rom.len() == 0 {
            None
        } else {
            Some(chr_rom[self.chr_bank * 0x2000 + address as usize])
        }
    }

    fn chr_readable(&self, chr_rom: &[u8], address: u16) -> (r: bool) {
        if chr_rom.len() == 0 {
            return true;
        }
        match self.chr_bank.checked_mul(0x2000) {
            Some(base) => match base.checked_add(address as usize) {
                Some(index) => index < chr_rom.len(),
                None => false,
            },
            None => false,
        }
    }

    fn mirroring(&self) -> (r: Option<Mirroring>) {
        None
    }

    fn scanline_tick(&mut self) {
    }

    fn has_pending_irq(&self) -> (r: bool) {
        false
    }
}

/// The SNROM board (MMC1): a serial shift register loads the control byte
/// and the bank numbers, and 8 KiB of program RAM sit at 0x6000.
pub struct SNROM {
    pub shift_register: u8,
    pub control: u8,
    pub chr_bank_0: u8,
    pub chr_bank_1: u8,
    pub prg_bank: u8,
    pub prg_ram: [u8; 0x2000],
}

impl SNROM {
    pub fn new() -> (r: SNROM)
        ensures
            r == SNROM::initial(),
    {
        SNROM {
            shift_register: 0b10000,
            control: 0b01100,
            chr_bank_0: 0,
            chr_bank_1: 0,
            prg_bank: 0,
            prg_ram: [0; 0x2000],
        }
    }

    /// The board at power on.
    pub open spec fn initial() -> SNROM {
        SNROM {
            shift_register: 0b10000,
            control: 0b01100,
            chr_bank_0: 0,
            chr_bank_1: 0,
            prg_bank: 0,
            prg_ram: vstd::array::spec_array_fill_for_copy_type::<u8, 0x2000>(0),
        }
    }

    /// The start of the two 4 KiB character banks.
    pub open spec fn spec_bank_addresses(self) -> (int, int) {
        if self.control & 0b10000 == 0 {
            let bank1 = (self.chr_bank_0 & !1u8) * 0x1000;
            (bank1, bank1 + 0x1000)
        } else {
            (self.chr_bank_0 * 0x1000, self.chr_bank_1 * 0x1000)
        }
    }

    fn bank_addresses(&self) -> (r: (usize, usize))
        ensures
            r.0 == self.spec_bank_addresses().0,
            r.1 == self.spec_bank_addresses().1,
    {
        let bank1: usize;
        let bank2: usize;

        if self.control & 0b10000 == 0 {
            bank1 = (self.chr_bank_0 & !1) as usize * 0x1000;
            bank2 = bank1 + 0x1000;
        } else {
            bank1 = self.chr_bank_0 as usize * 0x1000;
            bank2 = self.chr_bank_1 as usize * 0x1000;
        }

        (bank1, bank2)
    }

    /// The program index a read at `address` uses, if the read is defined.
    pub open spec fn prg_index(self, prg_len: nat, address: u16) -> Option<int> {
        let bank_size = prg_len / 0x4000;
        let mode = (self.control & 0b1100) / 4;
        if mode <= 1 {
            if address >= 0x8000 {
                Some(address - 0x8000 + (self.prg_bank & !1u8) * 0x4000)
            } else {
                None
            }
        } else if mode == 2 {
            if 0x8000 <= address <= 0xbfff {
                Some(address - 0x8000)
            } else if address >= 0xc000 {
                Some(address - 0xc000 + self.prg_bank * 0x4000)
            } else {
                None
            }
        } else {
            if 0x8000 <= address <= 0xbfff {
                Some(address - 0x8000 + self.prg_bank * 0x4000)
            } else if address >= 0xc000 && bank_size >= 1 {
                Some(address - 0xc000 + (bank_size - 1) * 0x4000)
            } else {
                None
            }
        }
    }

    /// The value the shift register holds after `bit` is shifted in.
    pub open spec fn shifted_in(self, value: u8) -> u8 {
        (self.shift_register >> 1u8) | ((value & 1) << 4u8)
    }
}

impl Mapper for SNROM {
    open spec fn read_defined(&self, prg: Seq<u8>, address: u16) -> bool {
        (0x6000 <= address < 0x8000) || match self.prg_index(prg.len(), address) {
            Some(i) => in_bounds(i, prg.len()),
            None => false,
        }
    }

    open spec fn read_value(&self, prg: Seq<u8>, address: u16) -> u8 {
        if 0x6000 <= address < 0x8000 {
            self.prg_ram@[address - 0x6000]
        } else {
            prg[self.prg_index(prg.len(), address)->Some_0]
        }
    }

    open spec fn write_defined(&self, address: u16, value: u8) -> bool {
        (0x6000 <= address < 0x8000) || value & 0x80 != 0 || self.shift_register & 1 == 0
            || address >= 0x8000
    }

    open spec fn written(&self, address: u16, value: u8) -> SNROM {
        if 0x6000 <= address < 0x8000 {
            SNROM {
                prg_ram: vstd::array::spec_array_update(self.prg_ram, address - 0x6000, value),
                ..*self
            }
        } else if value & 0x80 != 0 {
            SNROM { shift_register: 0b10000, control: self.control | 0xc, ..*self }
        } else if self.shift_register & 1 == 0 {
            SNROM { shift_register: self.shifted_in(value), ..*self }
        } else {
            let v = self.shifted_in(value);
            if address <= 0x9fff {
                SNROM { shift_register: 0b10000, control: v, ..*self }
            } else if address <= 0xbfff {
                SNROM { shift_register: 0b10000, chr_bank_0: v, ..*self }
            } else if address <= 0xdfff {
                SNROM { shift_register: 0b10000, chr_bank_1: v, ..*self }
            } else {
                SNROM { shift_register: 0b10000, prg_bank: v & 0b1111, ..*self }
            }
        }
    }

    open spec fn chr_defined(&self, chr: Seq<u8>, address: u16) -> bool {
        let (bank1, bank2) = self.spec_bank_addresses();
        chr.len() == 0 || (address <= 0x0fff && in_bounds(bank1 + address, chr.len())) || (0x1000
            <= address <= 0x1fff && bank2 >= 0x1000 && in_bounds(
            bank2 - 0x1000 + address,
            chr.len(),
        ))
    }

    open spec fn chr_value(&self, chr: Seq<u8>, address: u16) -> Option<u8> {
        let (bank1, bank2) = self.spec_bank_addresses();
        if chr.len() == 0 {
            None
        } else if address <= 0x0fff {
            Some(chr[bank1 + address])
        } else {
            Some(chr[bank2 - 0x1000 + address])
        }
    }

    open spec fn spec_mirroring(&self) -> Option<Mirroring> {
        let m = self.control & 0b11;
        if m == 2 {
            Some(Mirroring::Vertical)
        } else if m == 3 {
            Some(Mirroring::Horizontal)
        } else if m == 0 {
            Some(Mirroring::OneScreenLow)
        } else {
            Some(Mirroring::OneScreenHigh)
        }
    }

    open spec fn ticked(&self) -> SNROM {
        *self
    }

    open spec fn spec_pending_irq(&self) -> bool {
        false
    }

    fn write_address(&mut self, _prg_rom: &[u8], address: u16, value: u8) {
        if address >= 0x6000 && address < 0x8000 {
            self.prg_ram[address as usize - 0x6000] = value;
            assert(self.prg_ram =~= vstd::array::spec_array_update(
                old(self).prg_ram,
                address - 0x6000,
                value,
            ));
            return ;
        }
        if value & 0x80 != 0 {
            self.shift_register = 0b10000;
            self.control = self.control | 0xc;
            return ;
        }
        let value = (self.shift_register >> 1) | ((value & 1) << 4);
        if self.shift_register & 1 == 0 {
            self.shift_register = value;
        } else {
            self.shift_register = 0b10000;
            if address >= 0x8000 && address <= 0x9fff {
                self.control = value;
            } else if address >= 0xa000 && address <= 0xbfff {
                self.chr_bank_0 = value;
            } else if address >= 0xc000 && address <= 0xdfff {
                self.chr_bank_1 = value;
            } else {
                self.prg_bank = value & 0b1111;
            }
        }
    }

    fn read_address(&mut self, prg_rom: &[u8], address: u16) -> (r: u8) {
        if address >= 0x6000 && address < 0x8000 {
            return self.prg_ram[address as usize - 0x6000];
        }
        let bank_size = prg_bank_size(prg_rom);

        let control = self.control;
        let mode = (control & 0b1100) >> 2;
        assert(mode == (control & 0b1100) / 4) by (bit_vector)
            requires
                mode == (control & 0b1100) >> 2,
        ;
        if mode <= 1 {
            prg_rom[address as usize - 0x8000 + (self.prg_bank & !1) as usize * 0x4000]
        } else if mode == 2 {
            if address <= 0xbfff {
                prg_rom[address as usize - 0x8000]
            } else {
                prg_rom[address as usize - 0xc000 + self.prg_bank as usize * 0x4000]
            }
        } else {
            if address <= 0xbfff {
                prg_rom[address as usize - 0x8000 + self.prg_bank as usize * 0x4000]
            } else {
                assert((bank_size - 1) * 0x4000 <= prg_rom.len()) by (nonlinear_arith)
                    requires
                        bank_size == prg_rom.len() / 0x4000,
                        bank_size >= 1,
                ;
                prg_rom[address as usize - 0xc000 + (bank_size - 1) * 0x4000]
            }
        }
    }

    fn read_chr_rom(&self, chr_rom: &[u8], address: u16) -> (r: Option<u8>) {
        if chr_rom.len() == 0 {
            return None;
        }
        let (bank1, bank2) = self.bank_addresses();

        if address <= 0x0fff {
            Some(chr_rom[bank1 + address as usize])
        } else {
            Some(chr_rom[bank2 - 0x1000 + address as usize])
        }
    }

    fn chr_readable(&self, chr_rom: &[u8], address: u16) -> (r: bool) {
        if chr_rom.len() == 0 {
            return true;
        }
        let (bank1, bank2) = self.bank_addresses();
        if address <= 0x0fff {
            bank1 + (address as usize) < chr_rom.len()
        } else if address <= 0x1fff {
            bank2 >= 0x1000 && bank2 - 0x1000 + (address as usize) < chr_rom.len()
        } else {
            false
        }
    }

    fn mirroring(&self) -> (r: Option<Mirroring>) {
        match self.control & 0b11 {
            2 => Some(Mirroring::Vertical),
            3 => Some(Mirroring::Horizontal),
            0 => Some(Mirroring::OneScreenLow),
            _ => Some(Mirroring::OneScreenHigh),
        }
    }

    fn scanline_tick(&mut self) {
    }

    fn has_pending_irq(&self) -> (r: bool) {
        false
    }
}

/// The NROM board: no bank switching.
pub struct NROM;

impl NROM {
    /// The program index a read at `address` uses, if the read is defined.
    pub open spec fn prg_index(prg_len: nat, address: u16) -> Option<int> {
        if prg_len / 16384 == 2 {
            if address >= 0x8000 {
                Some(address - 0x8000)
            } else {
                None
            }
        } else if 0x8000 <= address <= 0xbfff {
            Some(address - 0x8000)
        } else if address >= 0xc000 {
            Some(address - 0xc000)
        } else {
            None
        }
    }
}

impl Mapper for NROM {
    open spec fn read_defined(&self, prg: Seq<u8>, address: u16) -> bool {
        match Self::prg_index(prg.len(), address) {
            Some(i) => in_bounds(i, prg.len()),
            None => false,
        }
    }

    open spec fn read_value(&self, prg: Seq<u8>, address: u16) -> u8 {
        prg[Self::prg_index(prg.len(), address)->Some_0]
    }

    open spec fn write_defined(&self, address: u16, value: u8) -> bool {
        true
    }

    open spec fn written(&self, address: u16, value: u8) -> NROM {
        *self
    }

    open spec fn chr_defined(&self, chr: Seq<u8>, address: u16) -> bool {
        chr.len() == 0 || in_bounds(address as int, chr.len())
    }

    open spec fn chr_value(&self, chr: Seq<u8>, address: u16) -> Option<u8> {
        if chr.len() != 0 {
            Some(chr[address as int])
        } else {
            None
        }
    }

    open spec fn spec_mirroring(&self) -> Option<Mirroring> {
        None
    }

    open spec fn ticked(&self) -> NROM {
        *self
    }

    open spec fn spec_pending_irq(&self) -> bool {
        false
    }

    fn write_address(&mut self, _prg_rom: &[u8], _address: u16, _value: u8) {
    }

    fn read_address(&mut self, prg_rom: &[u8], address: u16) -> (r: u8) {
        if prg_rom.len() / 16384 == 2 {
            return prg_rom[address as usize - 0x8000];
        }
        if address <= 0xbfff {
            prg_rom[address as usize - 0x8000]
        } else {
            prg_rom[address as usize - 0xc000]
        }
    }

    fn read_chr_rom(&self, chr_rom: &[u8], address: u16) -> (r: Option<u8>) {
        if chr_rom.len() != 0 {
            Some(chr_rom[address as usize])
        } else {
            None
        }
    }

    fn chr_readable(&self, chr_rom: &[u8], address: u16) -> (r: bool) {
        chr_rom.len() == 0 || (address as usize) < chr_rom.len()
    }

    fn mirroring(&self) -> (r: Option<Mirroring>) {
        None
    }

    fn scanline_tick(&mut self) {
    }

    fn has_pending_irq(&self) -> (r: bool) {
        false
    }
}

/// The UNROM board: a switchable 16 KiB program bank at 0x8000 and the last
/// bank fixed at 0xc000.
pub struct UNROM {
    pub current_bank: u8,
}

impl UNROM {
    pub fn new() -> (r: UNROM)
        ensures
            r.current_bank == 0,
    {
        UNROM { current_bank: 0 }
    }

    /// The program index a read at `address` uses, if the read is defined.
    pub open spec fn prg_index(self, prg_len: nat, address: u16) -> Option<int> {
        let bank_size = prg_len / 16384;
        if 0x8000 <= address <= 0xbfff {
            Some(address - 0x8000 + self.current_bank * 16384)
        } else if address >= 0xc000 && bank_size >= 1 {
            Some(address - 0xc000 + (bank_size - 1) * 16384)
        } else {
            None
        }
    }
}

impl Mapper for UNROM {
    open spec fn read_defined(&self, prg: Seq<u8>, address: u16) -> bool {
        match self.prg_index(prg.len(), address) {
            Some(i) => in_bounds(i, prg.len()),
            None => false,
        }
    }

    open spec fn read_value(&self, prg: Seq<u8>, address: u16) -> u8 {
        prg[self.prg_index(prg.len(), address)->Some_0]
    }

    open spec fn write_defined(&self, address: u16, value: u8) -> bool {
        true
    }

    open spec fn written(&self, address: u16, value: u8) -> UNROM {
        UNROM { current_bank: value & 0b111 }
    }

    open spec fn chr_defined(&self, chr: Seq<u8>, address: u16) -> bool {
        true
    }

    open spec fn chr_value(&self, chr: Seq<u8>, address: u16) -> Option<u8> {
        None
    }

    open spec fn spec_mirroring(&self) -> Option<Mirroring> {
        None
    }

    open spec fn ticked(&self) -> UNROM {
        *self
    }

    open spec fn spec_pending_irq(&self) -> bool {
        false
    }

    fn write_address(&mut self, _prg_rom: &[u8], _address: u16, value: u8) {
        let value = value & 0b111;
        self.current_bank = value;
    }

    fn read_address(&mut self, prg_rom: &[u8], address: u16) -> (r: u8) {
        let bank_size = prg_rom.len() / 16384;
        if address <= 0xbfff {
            prg_rom[address as usize - 0x8000 + self.current_bank as usize * 16384]
        } else {
            prg_rom[address as usize - 0xc000 + (bank_size - 1) * 16384]
        }
    }

    fn read_chr_rom(&self, _chr_rom: &[u8], _address: u16) -> (r: Option<u8>) {
        None
    }

    fn chr_readable(&self, _chr_rom: &[u8], _address: u16) -> (r: bool) {
        true
    }

    fn mirroring(&self) -> (r: Option<Mirroring>) {
        None
    }

    fn scanline_tick(&mut self) {
    }

    fn has_pending_irq(&self) -> (r: bool) {
        false
    }
}

/// The TxROM board (MMC3): eight bank registers, selectable mirroring and a
/// scanline counter that raises interrupts.
pub struct TxROM {
    pub bank_select: u8,
    pub r: [u8; 8],
    pub mirroring: Mirroring,
    pub irq_reload_value: u8,
    pub irq_reset: bool,
    pub irq_enabled: bool,
    pub current_irq_counter: u8,
    pub has_pending_irq: bool,
}

impl TxROM {
    pub fn new() -> (r: TxROM)
        ensures
            r == TxROM::initial(),
    {
        TxROM {
            bank_select: 0,
            r: [0; 8],
            mirroring: Mirroring::Vertical,
            irq_reload_value: 0,
            irq_reset: false,
            irq_enabled: false,
            current_irq_counter: 0,
            has_pending_irq: false,
        }
    }

    /// The board at power on.
    pub open spec fn initial() -> TxROM {
        TxROM {
            bank_select: 0,
            r: vstd::array::spec_array_fill_for_copy_type::<u8, 8>(0),
            mirroring: Mirroring::Vertical,
            irq_reload_value: 0,
            irq_reset: false,
            irq_enabled: false,
            current_irq_counter: 0,
            has_pending_irq: false,
        }
    }

    /// The board with a pending interrupt when the counter reached zero
    /// while interrupts are enabled.
    pub open spec fn with_irq_check(self) -> TxROM {
        if self.current_irq_counter == 0 && self.irq_enabled {
            TxROM { has_pending_irq: true, ..self }
        } else {
            self
        }
    }

    fn toggle_pending_irq_if_possible(&mut self)
        ensures
            *final(self) == old(self).with_irq_check(),
    {
        if self.current_irq_counter == 0 && self.irq_enabled {
            self.has_pending_irq = true;
        }
    }

    /// The program index a read at `address` uses, if the read is defined.
    pub open spec fn prg_index(self, prg_len: nat, address: u16) -> Option<int> {
        let prg_flag = self.bank_select & 0x40 != 0;
        let prg_size = prg_len / 0x2000;
        if 0x8000 <= address <= 0x9fff && !prg_flag {
            Some(address - 0x8000 + self.r@[6] * 0x2000)
        } else if 0x8000 <= address <= 0x9fff && prg_size >= 2 {
            Some(address - 0x8000 + (prg_size - 2) * 0x2000)
        } else if 0xa000 <= address <= 0xbfff {
            Some(address - 0xa000 + self.r@[7] * 0x2000)
        } else if 0xc000 <= address <= 0xdfff && !prg_flag && prg_size >= 2 {
            Some(address - 0xc000 + (prg_size - 2) * 0x2000)
        } else if 0xc000 <= address <= 0xdfff && prg_flag {
            Some(address - 0xc000 + self.r@[6] * 0x2000)
        } else if address >= 0xe000 && prg_size >= 1 {
            Some(address - 0xe000 + (prg_size - 1) * 0x2000)
        } else {
            None
        }
    }

    /// The character index a pattern read at `address` uses, if it is in the
    /// pattern tables.
    pub open spec fn chr_index(self, address: u16) -> Option<int> {
        let r = self.r@;
        let a = address as int;
        if self.bank_select & 0x80 == 0 {
            if a <= 0x07ff {
                Some(a + r[0] * 0x400)
            } else if a <= 0x0fff {
                Some(a - 0x0800 + r[1] * 0x400)
            } else if a <= 0x13ff {
                Some(a - 0x1000 + r[2] * 0x400)
            } else if a <= 0x17ff {
                Some(a - 0x1400 + r[3] * 0x400)
            } else if a <= 0x1bff {
                Some(a - 0x1800 + r[4] * 0x400)
            } else if a <= 0x1fff {
                Some(a - 0x1c00 + r[5] * 0x400)
            } else {
                None
            }
        } else {
            if a <= 0x03ff {
                Some(a + r[2] * 0x400)
            } else if a <= 0x07ff {
                Some(a - 0x0400 + r[3] * 0x400)
            } else if a <= 0x0bff {
                Some(a - 0x0800 + r[4] * 0x400)
            } else if a <= 0x0fff {
                Some(a - 0x0c00 + r[5] * 0x400)
            } else if a <= 0x17ff {
                Some(a - 0x1000 + r[0] * 0x400)
            } else if a <= 0x1fff {
                Some(a - 0x1800 + r[1] * 0x400)
            } else {
                None
            }
        }
    }

    /// The value written to bank register `index`.
    pub open spec fn bank_value(index: u8, value: u8) -> u8 {
        if index >= 6 {
            value & 0b00111111
        } else if index <= 1 {
            value & 0b11111110
        } else {
            value
        }
    }
}

impl Mapper for TxROM {
    open spec fn read_defined(&self, prg: Seq<u8>, address: u16) -> bool {
        match self.prg_index(prg.len(), address) {
            Some(i) => in_bounds(i, prg.len()),
            None => false,
        }
    }

    open spec fn read_value(&self, prg: Seq<u8>, address: u16) -> u8 {
        prg[self.prg_index(prg.len(), address)->Some_0]
    }

    open spec fn write_defined(&self, address: u16, value: u8) -> bool {
        true
    }

    open spec fn written(&self, address: u16, value: u8) -> TxROM {
        let odd = address % 2 != 0;
        if 0x8000 <= address <= 0x9fff {
            if !odd {
                TxROM { bank_select: value, ..*self }
            } else {
                let index = self.bank_select & 0b111;
                TxROM {
                    r: vstd::array::spec_array_update(
                        self.r,
                        index as int,
                        Self::bank_value(index, value),
                    ),
                    ..*self
                }
            }
        } else if 0xa000 <= address <= 0xbfff && !odd {
            TxROM {
                mirroring: if value & 1 == 0 {
                    Mirroring::Vertical
                } else {
                    Mirroring::Horizontal
                },
                ..*self
            }
        } else if 0xc000 <= address <= 0xdfff {
            if !odd {
                TxROM { irq_reload_value: value, ..*self }
            } else {
                TxROM { irq_reset: true, ..*self }
            }
        } else if address >= 0xe000 {
            if !odd {
                TxROM { irq_enabled: false, has_pending_irq: false, ..*self }
            } else {
                TxROM { irq_enabled: true, ..*self }
            }
        } else {
            *self
        }
    }

    open spec fn chr_defined(&self, chr: Seq<u8>, address: u16) -> bool {
        chr.len() == 0 || match self.chr_index(address) {
            Some(i) => in_bounds(i, chr.len()),
            None => false,
        }
    }

    open spec fn chr_value(&self, chr: Seq<u8>, address: u16) -> Option<u8> {
        if chr.len() == 0 {
            None
        } else {
            Some(chr[self.chr_index(address)->Some_0])
        }
    }

    open spec fn spec_mirroring(&self) -> Option<Mirroring> {
        Some(self.mirroring)
    }

    open spec fn ticked(&self) -> TxROM {
        if self.irq_reset {
            TxROM {
                current_irq_counter: self.irq_reload_value,
                irq_reset: false,
                ..*self
            }.with_irq_check()
        } else if self.current_irq_counter == 0 {
            TxROM { current_irq_counter: self.irq_reload_value, ..*self }.with_irq_check()
        } else {
            TxROM {
                current_irq_counter: (self.current_irq_counter - 1) as u8,
                ..*self
            }.with_irq_check()
        }
    }

    open spec fn spec_pending_irq(&self) -> bool {
        self.has_pending_irq
    }

    fn write_address(&mut self, _prg_rom: &[u8], address: u16, value: u8) {
        let is_odd = address % 2 != 0;

        if address >= 0x8000 && address <= 0x9fff {
            if !is_odd {
                self.bank_select = value;
            } else {
                let bank_select = self.bank_select;
                let r_index = bank_select & 0b111;
                assert(r_index < 8) by (bit_vector)
                    requires
                        r_index == bank_select & 0b111,
                ;
                let bank = if r_index >= 6 {
                    value & 0b00111111
                } else if r_index <= 1 {
                    value & 0b11111110
                } else {
                    value
                };
                self.r[r_index as usize] = bank;
                assert(self.r =~= vstd::array::spec_array_update(
                    old(self).r,
                    r_index as int,
                    bank,
                ));
            }
        } else if address >= 0xa000 && address <= 0xbfff {
            if !is_odd {
                self.mirroring = if value & 1 == 0 {
                    Mirroring::Vertical
                } else {
                    Mirroring::Horizontal
                };
            }
        } else if address >= 0xc000 && address <= 0xdfff {
            if !is_odd {
                self.irq_reload_value = value;
            } else {
                self.irq_reset = true;
            }
        } else if address >= 0xe000 {
            if !is_odd {
                self.irq_enabled = false;
                self.has_pending_irq = false;
            } else {
                self.irq_enabled = true;
            }
        }
    }

    fn read_address(&mut self, prg_rom: &[u8], address: u16) -> (r: u8) {
        let prg_flag = self.bank_select & 0x40 != 0;
        let prg_size = prg_rom.len() / 0x2000;
        let a = address as usize;

        let mapped_address: usize = if address <= 0x9fff {
            if !prg_flag {
                a - 0x8000 + self.r[6] as usize * 0x2000
            } else {
                a - 0x8000 + (prg_size - 2) * 0x2000
            }
        } else if address <= 0xbfff {
            a - 0xa000 + self.r[7] as usize * 0x2000
        } else if address <= 0xdfff {
            if !prg_flag {
                a - 0xc000 + (prg_size - 2) * 0x2000
            } else {
                a - 0xc000 + self.r[6] as usize * 0x2000
            }
        } else {
            a - 0xe000 + (prg_size - 1) * 0x2000
        };

        prg_rom[mapped_address]
    }

    fn read_chr_rom(&self, chr_rom: &[u8], address: u16) -> (r: Option<u8>) {
        let chr_flag = self.bank_select & 0x80 != 0;
        let chr_bank_size: usize = 0x400;

        if chr_rom.len() == 0 {
            None
        } else {
            let address = address as usize;
            let mapped_address: usize = if !chr_flag {
                if address <= 0x07ff {
                    address + self.r[0] as usize * chr_bank_size
                } else if address <= 0x0fff {
                    address - 0x0800 + self.r[1] as usize * chr_bank_size
                } else if address <= 0x13ff {
                    address - 0x1000 + self.r[2] as usize * chr_bank_size
                } else if address <= 0x17ff {
                    address - 0x1400 + self.r[3] as usize * chr_bank_size
                } else if address <= 0x1bff {
                    address - 0x1800 + self.r[4] as usize * chr_bank_size
                } else {
                    address - 0x1c00 + self.r[5] as usize * chr_bank_size
                }
            } else {
                if address <= 0x03ff {
                    address + self.r[2] as usize * chr_bank_size
                } else if address <= 0x07ff {
                    address - 0x0400 + self.r[3] as usize * chr_bank_size
                } else if address <= 0x0bff {
                    address - 0x0800 + self.r[4] as usize * chr_bank_size
                } else if address <= 0x0fff {
                    address - 0x0c00 + self.r[5] as usize * chr_bank_size
                } else if address <= 0x17ff {
                    address - 0x1000 + self.r[0] as usize * chr_bank_size
                } else {
                    address - 0x1800 + self.r[1] as usize * chr_bank_size
                }
            };

            Some(chr_rom[mapped_address])
        }
    }

    fn chr_readable(&self, chr_rom: &[u8], address: u16) -> (r: bool) {
        if chr_rom.len() == 0 {
            return true;
        }
        if address > 0x1fff {
            return false;
        }
        let a = address as usize;
        let chr_bank_size: usize = 0x400;
        let index: usize = if self.bank_select & 0x80 == 0 {
            if a <= 0x07ff {
                a + self.r[0] as usize * chr_bank_size
            } else if a <= 0x0fff {
                a - 0x0800 + self.r[1] as usize * chr_bank_size
            } else if a <= 0x13ff {
                a - 0x1000 + self.r[2] as usize * chr_bank_size
            } else if a <= 0x17ff {
                a - 0x1400 + self.r[3] as usize * chr_bank_size
            } else if a <= 0x1bff {
                a - 0x1800 + self.r[4] as usize * chr_bank_size
            } else {
                a - 0x1c00 + self.r[5] as usize * chr_bank_size
            }
        } else {
            if a <= 0x03ff {
                a + self.r[2] as usize * chr_bank_size
            } else if a <= 0x07ff {
                a - 0x0400 + self.r[3] as usize * chr_bank_size
            } else if a <= 0x0bff {
                a - 0x0800 + self.r[4] as usize * chr_bank_size
            } else if a <= 0x0fff {
                a - 0x0c00 + self.r[5] as usize * chr_bank_size
            } else if a <= 0x17ff {
                a - 0x1000 + self.r[0] as usize * chr_bank_size
            } else {
                a - 0x1800 + self.r[1] as usize * chr_bank_size
            }
        };
        index < chr_rom.len()
    }

    fn mirroring(&self) -> (r: Option<Mirroring>) {
        Some(self.mirroring)
    }

    fn scanline_tick(&mut self) {
        if self.irq_reset {
            self.current_irq_counter = self.irq_reload_value;
            self.irq_reset = false;

            self.toggle_pending_irq_if_possible();
        } else {
            if self.current_irq_counter == 0 {
                self.current_irq_counter = self.irq_reload_value;

                self.toggle_pending_irq_if_possible();
            } else {
                if self.current_irq_counter > 0 {
                    self.current_irq_counter = self.current_irq_counter - 1;
                }
                self.toggle_pending_irq_if_possible();
            }
        }
    }

    fn has_pending_irq(&self) -> (r: bool) {
        self.has_pending_irq
    }
}


/// The mapper hardware of a cartridge.
pub enum MapperChip {
    Nrom(NROM),
    Snrom(SNROM),
    Unrom(UNROM),
    Cnrom(CNROM),
    Txrom(TxROM),
}

impl MapperChip {
    pub open spec fn read_defined(self, prg: Seq<u8>, address: u16) -> bool {
        match self {
            MapperChip::Nrom(m) => m.read_defined(prg, address),
            MapperChip::Snrom(m) => m.read_defined(prg, address),
            MapperChip::Unrom(m) => m.read_defined(prg, address),
            MapperChip::Cnrom(m) => m.read_defined(prg, address),
            MapperChip::Txrom(m) => m.read_defined(prg, address),
        }
    }

    pub open spec fn read_value(self, prg: Seq<u8>, address: u16) -> u8 {
        match self {
            MapperChip::Nrom(m) => m.read_value(prg, address),
            MapperChip::Snrom(m) => m.read_value(prg, address),
            MapperChip::Unrom(m) => m.read_value(prg, address),
            MapperChip::Cnrom(m) => m.read_value(prg, address),
            MapperChip::Txrom(m) => m.read_value(prg, address),
        }
    }

    pub open spec fn write_defined(self, address: u16, value: u8) -> bool {
        match self {
            MapperChip::Snrom(m) => m.write_defined(address, value),
            _ => true,
        }
    }

    pub open spec fn written(self, address: u16, value: u8) -> MapperChip {
        match self {
            MapperChip::Nrom(m) => MapperChip::Nrom(m.written(address, value)),
            MapperChip::Snrom(m) => MapperChip::Snrom(m.written(address, value)),
            MapperChip::Unrom(m) => MapperChip::Unrom(m.written(address, value)),
            MapperChip::Cnrom(m) => MapperChip::Cnrom(m.written(address, value)),
            MapperChip::Txrom(m) => MapperChip::Txrom(m.written(address, value)),
        }
    }

    pub open spec fn chr_defined(self, chr: Seq<u8>, address: u16) -> bool {
        match self {
            MapperChip::Nrom(m) => m.chr_defined(chr, address),
            MapperChip::Snrom(m) => m.chr_defined(chr, address),
            MapperChip::Unrom(m) => m.chr_defined(chr, address),
            MapperChip::Cnrom(m) => m.chr_defined(chr, address),
            MapperChip::Txrom(m) => m.chr_defined(chr, address),
        }
    }

    pub open spec fn chr_value(self, chr: Seq<u8>, address: u16) -> Option<u8> {
        match self {
            MapperChip::Nrom(m) => m.chr_value(chr, address),
            MapperChip::Snrom(m) => m.chr_value(chr, address),
            MapperChip::Unrom(m) => m.chr_value(chr, address),
            MapperChip::Cnrom(m) => m.chr_value(chr, address),
            MapperChip::Txrom(m) => m.chr_value(chr, address),
        }
    }

    pub open spec fn spec_mirroring(self) -> Option<Mirroring> {
        match self {
            MapperChip::Nrom(m) => m.spec_mirroring(),
            MapperChip::Snrom(m) => m.spec_mirroring(),
            MapperChip::Unrom(m) => m.spec_mirroring(),
            MapperChip::Cnrom(m) => m.spec_mirroring(),
            MapperChip::Txrom(m) => m.spec_mirroring(),
        }
    }

    pub open spec fn ticked(self) -> MapperChip {
        match self {
            MapperChip::Txrom(m) => MapperChip::Txrom(m.ticked()),
            _ => self,
        }
    }

    pub open spec fn pending_irq(self) -> bool {
        match self {
            MapperChip::Txrom(m) => m.spec_pending_irq(),
            _ => false,
        }
    }

    /// The mapper with number `n` at power on.
    pub open spec fn initial(n: u8) -> MapperChip {
        if n == 0 {
            MapperChip::Nrom(NROM)
        } else if n == 1 {
            MapperChip::Snrom(SNROM::initial())
        } else if n == 2 {
            MapperChip::Unrom(UNROM { current_bank: 0 })
        } else if n == 3 {
            MapperChip::Cnrom(CNROM { chr_bank: 0 })
        } else {
            MapperChip::Txrom(TxROM::initial())
        }
    }
}

/// A cartridge: program and character data, the mirroring its header asks
/// for, and its mapper.
pub struct Cartridge {
    prg_rom: Vec<u8>,
    chr_rom: Vec<u8>,
    mirroring: Mirroring,
    mapper: MapperChip,
}

impl Cartridge {
    pub closed spec fn prg_rom(&self) -> Seq<u8> {
        self.prg_rom@
    }

    pub closed spec fn chr_rom(&self) -> Seq<u8> {
        self.chr_rom@
    }

    /// The mirroring of the header.
    pub closed spec fn header_mirroring(&self) -> Mirroring {
        self.mirroring
    }

    pub closed spec fn mapper(&self) -> MapperChip {
        self.mapper
    }

    /// The cartridge with its mapper replaced.
    pub closed spec fn with_mapper(self, mapper: MapperChip) -> Cartridge {
        Cartridge { mapper, ..self }
    }

    pub proof fn lemma_with_mapper(self, mapper: MapperChip)
        ensures
            self.with_mapper(mapper).mapper() == mapper,
            self.with_mapper(mapper).prg_rom() == self.prg_rom(),
            self.with_mapper(mapper).chr_rom() == self.chr_rom(),
            self.with_mapper(mapper).header_mirroring() == self.header_mirroring(),
    {
    }

    pub open spec fn read_defined(&self, address: u16) -> bool {
        self.mapper().read_defined(self.prg_rom(), address)
    }

    pub open spec fn read_value(&self, address: u16) -> u8 {
        self.mapper().read_value(self.prg_rom(), address)
    }

    pub open spec fn write_defined(&self, address: u16, value: u8) -> bool {
        self.mapper().write_defined(address, value)
    }

    pub open spec fn written(self, address: u16, value: u8) -> Cartridge {
        self.with_mapper(self.mapper().written(address, value))
    }

    pub open spec fn chr_defined(&self, address: u16) -> bool {
        self.mapper().chr_defined(self.chr_rom(), address)
    }

    pub open spec fn chr_value(&self, address: u16) -> Option<u8> {
        self.mapper().chr_value(self.chr_rom(), address)
    }

    /// The mirroring in effect: the mapper's, or else the header's.
    pub open spec fn spec_mirroring(&self) -> Mirroring {
        match self.mapper().spec_mirroring() {
            Some(m) => m,
            None => self.header_mirroring(),
        }
    }

    pub open spec fn ticked(self) -> Cartridge {
        self.with_mapper(self.mapper().ticked())
    }

    /// A scanline tick changes neither the pattern data the cartridge
    /// supplies nor its mirroring.
    pub proof fn lemma_tick_keeps_patterns(self)
        ensures
            forall|a: u16| #[trigger] self.ticked().chr_defined(a) == self.chr_defined(a),
            forall|a: u16| #[trigger] self.ticked().chr_value(a) == self.chr_value(a),
            self.ticked().spec_mirroring() == self.spec_mirroring(),
            self.ticked().prg_rom() == self.prg_rom(),
            self.ticked().chr_rom() == self.chr_rom(),
    {
        self.lemma_with_mapper(self.mapper().ticked());
    }

    pub fn write_address(&mut self, address: u16, value: u8)
        requires
            old(self).write_defined(address, value),
        ensures
            *final(self) == old(self).written(address, value),
    {
        let prg = self.prg_rom.as_slice();
        match &mut self.mapper {
            MapperChip::Nrom(m) => m.write_address(prg, address, value),
            MapperChip::Snrom(m) => m.write_address(prg, address, value),
            MapperChip::Unrom(m) => m.write_address(prg, address, value),
            MapperChip::Cnrom(m) => m.write_address(prg, address, value),
            MapperChip::Txrom(m) => m.write_address(prg, address, value),
        }
    }

    pub fn read_address(&mut self, address: u16) -> (r: u8)
        requires
            old(self).read_defined(address),
        ensures
            *final(self) == *old(self),
            r == old(self).read_value(address),
    {
        let prg = self.prg_rom.as_slice();
        match &mut self.mapper {
            MapperChip::Nrom(m) => m.read_address(prg, address),
            MapperChip::Snrom(m) => m.read_address(prg, address),
            MapperChip::Unrom(m) => m.read_address(prg, address),
            MapperChip::Cnrom(m) => m.read_address(prg, address),
            MapperChip::Txrom(m) => m.read_address(prg, address),
        }
    }

    pub fn read_chr_rom(&self, address: u16) -> (r: Option<u8>)
        requires
            self.chr_defined(address),
        ensures
            r == self.chr_value(address),
    {
        let chr = self.chr_rom.as_slice();
        match &self.mapper {
            MapperChip::Nrom(m) => m.read_chr_rom(chr, address),
            MapperChip::Snrom(m) => m.read_chr_rom(chr, address),
            MapperChip::Unrom(m) => m.read_chr_rom(chr, address),
            MapperChip::Cnrom(m) => m.read_chr_rom(chr, address),
            MapperChip::Txrom(m) => m.read_chr_rom(chr, address),
        }
    }

    /// Whether a pattern read at `address` is defined.
    pub fn chr_readable(&self, address: u16) -> (r: bool)
        ensures
            r == self.chr_defined(address),
    {
        let chr = self.chr_rom.as_slice();
        match &self.mapper {
            MapperChip::Nrom(m) => m.chr_readable(chr, address),
            MapperChip::Snrom(m) => m.chr_readable(chr, address),
            MapperChip::Unrom(m) => m.chr_readable(chr, address),
            MapperChip::Cnrom(m) => m.chr_readable(chr, address),
            MapperChip::Txrom(m) => m.chr_readable(chr, address),
        }
    }

    /// Whether every pattern address (below 0x2000) can be read.
    pub open spec fn patterns_readable(&self) -> bool {
        forall|a: u16| a < 0x2000 ==> #[trigger] self.chr_defined(a)
    }

    pub fn all_patterns_readable(&self) -> (r: bool)
        ensures
            r == self.patterns_readable(),
    {
        let mut address: u16 = 0;
        while address < 0x2000
            invariant
                address <= 0x2000,
                forall|a: u16| a < address ==> #[trigger] self.chr_defined(a),
            decreases 0x2000 - address,
        {
            if !self.chr_readable(address) {
                return false;
            }
            address = address + 1;
        }
        true
    }

    pub fn mirroring(&self) -> (r: Mirroring)
        ensures
            r == self.spec_mirroring(),
    {
        let mapped = match &self.mapper {
            MapperChip::Nrom(m) => m.mirroring(),
            MapperChip::Snrom(m) => m.mirroring(),
            MapperChip::Unrom(m) => m.mirroring(),
            MapperChip::Cnrom(m) => m.mirroring(),
            MapperChip::Txrom(m) => m.mirroring(),
        };
        match mapped {
            Some(m) => m,
            None => self.mirroring,
        }
    }

    pub fn scanline_tick(&mut self)
        ensures
            *final(self) == old(self).ticked(),
    {
        match &mut self.mapper {
            MapperChip::Txrom(m) => m.scanline_tick(),
            _ => {},
        }
    }

    pub fn has_pending_irq(&self) -> (r: bool)
        ensures
            r == self.mapper().pending_irq(),
    {
        match &self.mapper {
            MapperChip::Txrom(m) => m.has_pending_irq(),
            _ => false,
        }
    }

    /// The program data.
    pub fn prg_rom_data(&self) -> (r: &[u8])
        ensures
            r@ == self.prg_rom(),
    {
        self.prg_rom.as_slice()
    }

    /// The character data.
    pub fn chr_rom_data(&self) -> (r: &[u8])
        ensures
            r@ == self.chr_rom(),
    {
        self.chr_rom.as_slice()
    }
}

/// Why a file is not a cartridge the emulator can run.
#[derive(Debug, Clone, Copy, PartialEq, Eq, Structural)]
pub enum RomParseError {
    NotInes,
    PrgRomTooSmall,
    ChrRomTooSmall,
    UnsupportedMapper(u8),
}

/// Whether the bytes begin with the iNES magic number "NES\x1a".
pub open spec fn has_ines_magic(bytes: Seq<u8>) -> bool {
    bytes.len() >= 4 && bytes[0] == 0x4e && bytes[1] == 0x45 && bytes[2] == 0x53 && bytes[3]
        == 0x1a
}

/// The length of the program data the header announces.
pub open spec fn header_prg_size(bytes: Seq<u8>) -> int {
    bytes[4] * 0x4000
}

/// The length of the character data the header announces.
pub open spec fn header_chr_size(bytes: Seq<u8>) -> int {
    bytes[5] * 0x2000
}

/// The mapper number in the header.
pub open spec fn header_mapper(bytes: Seq<u8>) -> u8 {
    bytes[6] / 16
}

/// Why the bytes are not a cartridge, or `None` when they are one.
pub open spec fn parse_error(bytes: Seq<u8>) -> Option<RomParseError> {
    if !has_ines_magic(bytes) {
        Some(RomParseError::NotInes)
    } else if header_prg_size(bytes) > bytes.len() - 16 {
        Some(RomParseError::PrgRomTooSmall)
    } else if header_chr_size(bytes) > bytes.len() - 16 - header_prg_size(bytes) {
        Some(RomParseError::ChrRomTooSmall)
    } else if header_mapper(bytes) > 4 {
        Some(RomParseError::UnsupportedMapper(header_mapper(bytes)))
    } else {
        None
    }
}

/// Reads a cartridge from the bytes of an iNES file: the program data the
/// header announces, all the bytes after it as character data, the header's
/// mirroring, and a mapper at power on.
pub fn parse_cartridge(bytes: &[u8]) -> (r: Result<Cartridge, RomParseError>)
    requires
        bytes@.len() >= 4,
        has_ines_magic(bytes@) ==> bytes@.len() >= 16,
    ensures
        match r {
            Ok(c) => {
                &&& parse_error(bytes@) is None
                &&& c.prg_rom() == bytes@.subrange(16, 16 + header_prg_size(bytes@))
                &&& c.chr_rom() == bytes@.subrange(
                    16 + header_prg_size(bytes@),
                    bytes@.len() as int,
                )
                &&& c.header_mirroring() == if bytes@[6] & 1 == 0 {
                    Mirroring::Horizontal
                } else {
                    Mirroring::Vertical
                }
                &&& c.mapper() == MapperChip::initial(header_mapper(bytes@))
            },
            Err(e) => parse_error(bytes@) == Some(e),
        },
{
    if !(bytes[0] == 0x4e && bytes[1] == 0x45 && bytes[2] == 0x53 && bytes[3] == 0x1a) {
        return Err(RomParseError::NotInes);
    }
    let prg_rom_size = bytes[4] as usize * 0x4000;
    let chr_rom_size = bytes[5] as usize * 0x2000;
    let data_len = bytes.len() - 16;

    if prg_rom_size > data_len {
        return Err(RomParseError::PrgRomTooSmall);
    }
    let mut prg_rom: Vec<u8> = Vec::new();
    let mut i: usize = 0;
    while i < prg_rom_size
        invariant
            bytes.len() == data_len + 16,
            prg_rom_size <= data_len,
            i <= prg_rom_size,
            prg_rom@ == bytes@.subrange(16, 16 + i),
        decreases prg_rom_size - i,
    {
        prg_rom.push(bytes[16 + i]);
        i = i + 1;
    }

    if chr_rom_size > data_len - prg_rom_size {
        return Err(RomParseError::ChrRomTooSmall);
    }
    let mut chr_rom: Vec<u8> = Vec::new();
    let mut j: usize = 16 + prg_rom_size;
    while j < bytes.len()
        invariant
            16 + prg_rom_size <= j <= bytes@.len(),
            chr_rom@ == bytes@.subrange(16 + prg_rom_size, j as int),
        decreases bytes.len() - j,
    {
        chr_rom.push(bytes[j]);
        j = j + 1;
    }

    let mirroring = if bytes[6] & 1 == 0 {
        Mirroring::Horizontal
    } else {
        Mirroring::Vertical
    };

    let mapper_number = bytes[6] / 16;
    let mapper = if mapper_number == 0 {
        MapperChip::Nrom(NROM)
    } else if mapper_number == 1 {
        MapperChip::Snrom(SNROM::new())
    } else if mapper_number == 2 {
        MapperChip::Unrom(UNROM::new())
    } else if mapper_number == 3 {
        MapperChip::Cnrom(CNROM::new())
    } else if mapper_number == 4 {
        MapperChip::Txrom(TxROM::new())
    } else {
        return Err(RomParseError::UnsupportedMapper(mapper_number));
    };

    Ok(Cartridge { prg_rom, chr_rom, mirroring, mapper })
}

/// The five-bit value that five serial writes load, bit 0 first.
pub open spec fn serial_value(v0: u8, v1: u8, v2: u8, v3: u8, v4: u8) -> u8 {
    (v0 & 1) | ((v1 & 1) << 1u8) | ((v2 & 1) << 2u8) | ((v3 & 1) << 3u8) | ((v4 & 1) << 4u8)
}

/// Whether two MMC1 states hold the same control, bank and RAM contents.
pub open spec fn mmc1_registers_kept(a: SNROM, b: SNROM) -> bool {
    &&& b.control == a.control
    &&& b.chr_bank_0 == a.chr_bank_0
    &&& b.chr_bank_1 == a.chr_bank_1
    &&& b.prg_bank == a.prg_bank
    &&& b.prg_ram == a.prg_ram
}

/// The mirroring that the two low bits of the MMC1 control register select.
pub open spec fn mmc1_mirroring(bits: u8) -> Mirroring {
    if bits == 0 {
        Mirroring::OneScreenLow
    } else if bits == 1 {
        Mirroring::OneScreenHigh
    } else if bits == 2 {
        Mirroring::Vertical
    } else {
        Mirroring::Horizontal
    }
}

/// The MMC1 loads its registers serially: from a reset shift register,
/// five writes without bit 7, each at 0x8000 or above, load bit 0 of each
/// write, first write lowest, into the register that the address of the
/// fifth write selects, and leave the shift register reset. The first four
/// writes change no register.
pub proof fn lemma_mmc1_serial_load(
    m: SNROM,
    a0: u16,
    a1: u16,
    a2: u16,
    a3: u16,
    a4: u16,
    v0: u8,
    v1: u8,
    v2: u8,
    v3: u8,
    v4: u8,
)
    requires
        m.shift_register == 0b10000,
        a0 >= 0x8000,
        a1 >= 0x8000,
        a2 >= 0x8000,
        a3 >= 0x8000,
        a4 >= 0x8000,
        v0 & 0x80 == 0,
        v1 & 0x80 == 0,
        v2 & 0x80 == 0,
        v3 & 0x80 == 0,
        v4 & 0x80 == 0,
    ensures
        ({
            let w1 = m.written(a0, v0);
            let w2 = w1.written(a1, v1);
            let w3 = w2.written(a2, v2);
            let w4 = w3.written(a3, v3);
            let w = w4.written(a4, v4);
            let v = serial_value(v0, v1, v2, v3, v4);
            &&& mmc1_registers_kept(m, w1)
            &&& mmc1_registers_kept(m, w2)
            &&& mmc1_registers_kept(m, w3)
            &&& mmc1_registers_kept(m, w4)
            &&& w.shift_register == 0b10000
            &&& w.prg_ram == m.prg_ram
            &&& w.control == if a4 <= 0x9fff {
                v
            } else {
                m.control
            }
            &&& w.chr_bank_0 == if 0xa000 <= a4 <= 0xbfff {
                v
            } else {
                m.chr_bank_0
            }
            &&& w.chr_bank_1 == if 0xc000 <= a4 <= 0xdfff {
                v
            } else {
                m.chr_bank_1
            }
            &&& w.prg_bank == if a4 >= 0xe000 {
                v & 0b1111
            } else {
                m.prg_bank
            }
        }),
{
    let s0: u8 = 0b10000;
    let s1 = (s0 >> 1u8) | ((v0 & 1) << 4u8);
    let s2 = (s1 >> 1u8) | ((v1 & 1) << 4u8);
    let s3 = (s2 >> 1u8) | ((v2 & 1) << 4u8);
    let s4 = (s3 >> 1u8) | ((v3 & 1) << 4u8);
    assert(s0 & 1 == 0 && s1 & 1 == 0 && s2 & 1 == 0 && s3 & 1 == 0 && s4 & 1 != 0 && (s4 >> 1u8)
        | ((v4 & 1) << 4u8) == serial_value(v0, v1, v2, v3, v4)) by (bit_vector)
        requires
            s0 == 0b10000u8,
            s1 == (s0 >> 1u8) | ((v0 & 1) << 4u8),
            s2 == (s1 >> 1u8) | ((v1 & 1) << 4u8),
            s3 == (s2 >> 1u8) | ((v2 & 1) << 4u8),
            s4 == (s3 >> 1u8) | ((v3 & 1) << 4u8),
    ;
}

/// On a cartridge with an MMC1 whose shift register is reset, five writes
/// without bit 7 at 0x8000 and up, the fifth at 0x8000..=0x9fff, load the
/// control register with bit 0 of each write, first write lowest; its two
/// low bits then select the mirroring.
pub proof fn lemma_cartridge_mmc1_control(
    c: Cartridge,
    a0: u16,
    a1: u16,
    a2: u16,
    a3: u16,
    a4: u16,
    v0: u8,
    v1: u8,
    v2: u8,
    v3: u8,
    v4: u8,
)
    requires
        c.mapper() is Snrom,
        c.mapper()->Snrom_0.shift_register == 0b10000,
        a0 >= 0x8000,
        a1 >= 0x8000,
        a2 >= 0x8000,
        a3 >= 0x8000,
        0x8000 <= a4 <= 0x9fff,
        v0 & 0x80 == 0,
        v1 & 0x80 == 0,
        v2 & 0x80 == 0,
        v3 & 0x80 == 0,
        v4 & 0x80 == 0,
    ensures
        ({
            let w = c.written(a0, v0).written(a1, v1).written(a2, v2).written(a3, v3).written(
                a4,
                v4,
            );
            &&& w.mapper() is Snrom
            &&& w.mapper()->Snrom_0.control == serial_value(v0, v1, v2, v3, v4)
            &&& w.mapper()->Snrom_0.shift_register == 0b10000
            &&& w.spec_mirroring() == mmc1_mirroring((v0 & 1) | ((v1 & 1) << 1u8))
            &&& w.prg_rom() == c.prg_rom()
            &&& w.chr_rom() == c.chr_rom()
        }),
{
    let m = c.mapper()->Snrom_0;
    lemma_mmc1_serial_load(m, a0, a1, a2, a3, a4, v0, v1, v2, v3, v4);
    let c1 = c.written(a0, v0);
    c.lemma_with_mapper(c.mapper().written(a0, v0));
    let c2 = c1.written(a1, v1);
    c1.lemma_with_mapper(c1.mapper().written(a1, v1));
    let c3 = c2.written(a2, v2);
    c2.lemma_with_mapper(c2.mapper().written(a2, v2));
    let c4 = c3.written(a3, v3);
    c3.lemma_with_mapper(c3.mapper().written(a3, v3));
    let w = c4.written(a4, v4);
    c4.lemma_with_mapper(c4.mapper().written(a4, v4));
    let v = serial_value(v0, v1, v2, v3, v4);
    assert(v & 0b11 == (v0 & 1) | ((v1 & 1) << 1u8)) by (bit_vector)
        requires
            v == (v0 & 1) | ((v1 & 1) << 1u8) | ((v2 & 1) << 2u8) | ((v3 & 1) << 3u8) | ((v4 & 1)
                << 4u8),
    ;
    assert((v0 & 1) | ((v1 & 1) << 1u8) <= 3) by (bit_vector);
}

/// MMC1 program banking, in 16 KiB banks of the program data. Reads at
/// 0x6000..=0x7fff come from the program RAM. In mode 3 (bits 2 and 3 of
/// the control register set, as at power on) bank `prg_bank` is at 0x8000
/// and the last bank is fixed at 0xc000; in mode 2 the first bank is fixed
/// at 0x8000 and bank `prg_bank` is at 0xc000; in modes 0 and 1 the 32 KiB
/// from the even bank at or below `prg_bank` are at 0x8000.
pub proof fn lemma_mmc1_program_banks(c: Cartridge, a: u16)
    requires
        c.mapper() is Snrom,
    ensures
        ({
            let m = c.mapper()->Snrom_0;
            let prg = c.prg_rom();
            let n = prg.len() / 0x4000;
            let mode = (m.control >> 2u8) & 3;
            &&& 0x6000 <= a < 0x8000 ==> c.read_defined(a) && c.read_value(a) == m.prg_ram@[a
                - 0x6000]
            &&& mode == 3 && a >= 0xc000 && n >= 1 ==> c.read_defined(a) && c.read_value(a)
                == prg[(n - 1) * 0x4000 + (a - 0xc000)]
            &&& mode == 3 && 0x8000 <= a < 0xc000 && m.prg_bank < n ==> c.read_defined(a)
                && c.read_value(a) == prg[m.prg_bank * 0x4000 + (a - 0x8000)]
            &&& mode == 2 && 0x8000 <= a < 0xc000 && n >= 1 ==> c.read_defined(a) && c.read_value(
                a,
            ) == prg[a - 0x8000]
            &&& mode == 2 && a >= 0xc000 && m.prg_bank < n ==> c.read_defined(a) && c.read_value(
                a,
            ) == prg[m.prg_bank * 0x4000 + (a - 0xc000)]
            &&& mode <= 1 && a >= 0x8000 && (m.prg_bank / 2) * 2 + 2 <= n ==> c.read_defined(a)
                && c.read_value(a) == prg[(m.prg_bank / 2) * 2 * 0x4000 + (a - 0x8000)]
        }),
{
    let m = c.mapper()->Snrom_0;
    lemma_mmc1_bits(m.control, m.prg_bank);
}

/// The MMC1 register fields as numbers: the program mode is bits 2 and 3,
/// the pattern mode bit 4, and clearing bit 0 rounds a bank down to even.
proof fn lemma_mmc1_bits(control: u8, bank: u8)
    ensures
        (control & 0b1100) / 4 == (control >> 2u8) & 3,
        (control & 0b10000 == 0) == ((control / 16) % 2 == 0),
        bank & !1u8 == (bank / 2) * 2,
{
    assert((control & 0b1100) / 4 == (control >> 2u8) & 3 && (control & 0b10000 == 0) == ((control
        / 16) % 2 == 0) && bank & !1u8 == (bank / 2) * 2) by (bit_vector);
}

/// MMC1 pattern banking: in 8 KiB mode (bit 4 of the control register
/// clear) the 8 KiB from the even 4 KiB bank at or below `chr_bank_0` are
/// used; in 4 KiB mode `chr_bank_0` gives the table at 0x0000 and
/// `chr_bank_1` the one at 0x1000 (a bank 0 there is not read: its start
/// would lie below the table).
pub proof fn lemma_mmc1_pattern_banks(c: Cartridge, a: u16)
    requires
        c.mapper() is Snrom,
        a < 0x2000,
    ensures
        ({
            let m = c.mapper()->Snrom_0;
            let chr = c.chr_rom();
            let index = if (m.control / 16) % 2 == 0 {
                (m.chr_bank_0 / 2) * 2 * 0x1000 + a
            } else if a < 0x1000 {
                m.chr_bank_0 * 0x1000 + a
            } else {
                m.chr_bank_1 * 0x1000 + (a - 0x1000)
            };
            let upper_bank_ok = (m.control / 16) % 2 == 0 || a < 0x1000 || m.chr_bank_1 >= 1;
            chr.len() > 0 && index < chr.len() && upper_bank_ok ==> c.chr_defined(a)
                && c.chr_value(a) == Some(chr[index])
        }),
{
    let m = c.mapper()->Snrom_0;
    lemma_mmc1_bits(m.control, m.chr_bank_0);
}

/// An MMC1 at power on is in mode 3: the last 16 KiB bank of the program
/// is at 0xc000..=0xffff (where the vectors are) and the first at 0x8000.
pub proof fn lemma_mmc1_power_on_banks(c: Cartridge, a: u16)
    requires
        c.mapper() == MapperChip::initial(1),
        c.prg_rom().len() >= 0x4000,
        a >= 0x8000,
    ensures
        c.read_defined(a),
        c.read_value(a) == if a >= 0xc000 {
            c.prg_rom()[(c.prg_rom().len() / 0x4000 - 1) * 0x4000 + (a - 0xc000)]
        } else {
            c.prg_rom()[a - 0x8000]
        },
{
    assert(0b01100u8 & 0b1100u8 == 0b1100u8) by (bit_vector);
}

/// MMC3 program banking, in 8 KiB banks over the four 8 KiB windows from
/// 0x8000: the last window always holds the last bank and the second window
/// bank R7; R6 and the second-last bank take the first and third windows,
/// in that order unless bit 6 of the bank select register swaps them.
pub proof fn lemma_mmc3_program_banks(c: Cartridge, a: u16)
    requires
        c.mapper() is Txrom,
        a >= 0x8000,
    ensures
        ({
            let m = c.mapper()->Txrom_0;
            let prg = c.prg_rom();
            let n = prg.len() / 0x2000;
            let w = (a - 0x8000) / 0x2000;
            let swapped = m.bank_select & 0x40 != 0;
            let bank = if w == 3 {
                n - 1
            } else if w == 1 {
                m.r@[7] as int
            } else if (w == 0) != swapped {
                m.r@[6] as int
            } else {
                n - 2
            };
            n >= 2 && bank < n ==> c.read_defined(a) && c.read_value(a) == prg[bank * 0x2000 + a
                % 0x2000]
        }),
{
}

/// MMC3 pattern banking, in 1 KiB units: of the two pattern tables one is
/// made of two 2 KiB banks (R0 and R1) and the other of four 1 KiB banks
/// (R2 to R5); bit 7 of the bank select register says which table gets the
/// 2 KiB banks (clear: the one at 0x0000).
pub proof fn lemma_mmc3_pattern_banks(c: Cartridge, a: u16)
    requires
        c.mapper() is Txrom,
        a < 0x2000,
    ensures
        ({
            let m = c.mapper()->Txrom_0;
            let chr = c.chr_rom();
            let e = if m.bank_select & 0x80 != 0 {
                (a + 0x1000) % 0x2000
            } else {
                a as int
            };
            let index = if e < 0x1000 {
                m.r@[e / 0x800] * 0x400 + e % 0x800
            } else {
                m.r@[2 + (e - 0x1000) / 0x400] * 0x400 + e % 0x400
            };
            chr.len() > 0 && index < chr.len() ==> c.chr_defined(a) && c.chr_value(a) == Some(
                chr[index],
            )
        }),
{
}

/// CNROM switches the whole 8 KiB of pattern data: a pattern read at `a`
/// reads byte `a` of the bank last selected (the low two bits of a write).
pub proof fn lemma_cnrom_pattern_bank(c: Cartridge, a: u16, value: u8)
    requires
        c.mapper() is Cnrom,
        a < 0x2000,
    ensures
        ({
            let w = c.written(0x8000, value);
            let index = (value % 4) * 0x2000 + a;
            c.chr_rom().len() > 0 && index < c.chr_rom().len() ==> w.chr_defined(a) && w.chr_value(
                a,
            ) == Some(c.chr_rom()[index])
        }),
{
    c.lemma_with_mapper(c.mapper().written(0x8000, value));
    assert(value & 3 == value % 4) by (bit_vector);
}

/// UNROM program banking, in 16 KiB banks: the bank last written is at
/// 0x8000 and the last bank is fixed at 0xc000.
pub proof fn lemma_unrom_program_banks(c: Cartridge, a: u16)
    requires
        c.mapper() is Unrom,
    ensures
        ({
            let bank = c.mapper()->Unrom_0.current_bank;
            let prg = c.prg_rom();
            let n = prg.len() / 0x4000;
            &&& 0x8000 <= a < 0xc000 && bank < n ==> c.read_defined(a) && c.read_value(a)
                == prg[bank * 0x4000 + (a - 0x8000)]
            &&& a >= 0xc000 && n >= 1 ==> c.read_defined(a) && c.read_value(a) == prg[(n - 1)
                * 0x4000 + (a - 0xc000)]
        }),
{
}

/// NROM program data: 32 KiB fill 0x8000..=0xffff; 16 KiB appear at both
/// 0x8000 and 0xc000.
pub proof fn lemma_nrom_program(c: Cartridge, a: u16)
    requires
        c.mapper() is Nrom,
        c.prg_rom().len() == 0x4000 || c.prg_rom().len() == 0x8000,
        a >= 0x8000,
    ensures
        c.read_defined(a),
        c.read_value(a) == c.prg_rom()[(a - 0x8000) % c.prg_rom().len() as int],
{
}

/// `n` scanline ticks of an MMC3.
pub open spec fn txrom_ticks(m: TxROM, n: nat) -> TxROM
    decreases n,
{
    if n == 0 {
        m
    } else {
        txrom_ticks(m.ticked(), (n - 1) as nat)
    }
}

/// The count of the MMC3 scanline counter after a reload: the first tick
/// loads the reload value and each later tick counts down; the interrupt
/// comes when the count reaches zero.
proof fn lemma_mmc3_countdown(m: TxROM, k: nat)
    requires
        m.irq_reset,
        m.irq_enabled,
        !m.has_pending_irq,
        k <= m.irq_reload_value + 1,
    ensures
        txrom_ticks(m, k).has_pending_irq == (k == m.irq_reload_value + 1),
        1 <= k ==> txrom_ticks(m, k).current_irq_counter == m.irq_reload_value - (k - 1),
        txrom_ticks(m, k).irq_enabled,
        1 <= k ==> !txrom_ticks(m, k).irq_reset,
        txrom_ticks(m, k).irq_reload_value == m.irq_reload_value,
    decreases k,
{
    if k > 0 {
        lemma_mmc3_countdown(m, (k - 1) as nat);
        lemma_txrom_ticks_last(m, (k - 1) as nat);
    }
}

/// Ticks never clear a pending interrupt, nor change whether interrupts are
/// enabled.
proof fn lemma_mmc3_pending_stays(m: TxROM, k: nat)
    requires
        m.has_pending_irq,
    ensures
        txrom_ticks(m, k).has_pending_irq,
        txrom_ticks(m, k).irq_enabled == m.irq_enabled,
    decreases k,
{
    if k > 0 {
        lemma_mmc3_pending_stays(m.ticked(), (k - 1) as nat);
    }
}

proof fn lemma_txrom_ticks_add(m: TxROM, a: nat, b: nat)
    ensures
        txrom_ticks(m, a + b) == txrom_ticks(txrom_ticks(m, a), b),
    decreases a,
{
    if a > 0 {
        lemma_txrom_ticks_add(m.ticked(), (a - 1) as nat, b);
        assert(txrom_ticks(m, a + b) == txrom_ticks(m.ticked(), (a - 1 + b) as nat));
    }
}

/// The MMC3 scanline counter: with interrupts enabled and a reload of `n`
/// asked for, the interrupt is pending after exactly `n + 1` ticks and
/// stays pending after that (a reload value of 0 raises it on the first
/// tick); never before.
pub proof fn lemma_mmc3_irq_after_reload(m: TxROM, k: nat)
    requires
        m.irq_reset,
        m.irq_enabled,
        !m.has_pending_irq,
    ensures
        txrom_ticks(m, k).has_pending_irq == (k >= m.irq_reload_value + 1),
        txrom_ticks(m, k).irq_enabled,
{
    let n = (m.irq_reload_value + 1) as nat;
    if k <= n {
        lemma_mmc3_countdown(m, k);
    } else {
        lemma_mmc3_countdown(m, n);
        lemma_mmc3_pending_stays(txrom_ticks(m, n), (k - n) as nat);
        lemma_txrom_ticks_add(m, n, (k - n) as nat);
    }
}

/// `n` scanline ticks of a cartridge.
pub open spec fn cartridge_ticks(c: Cartridge, n: nat) -> Cartridge
    decreases n,
{
    if n == 0 {
        c
    } else {
        cartridge_ticks(c.ticked(), (n - 1) as nat)
    }
}

/// The ticks of a cartridge with an MMC3 are the ticks of its board.
proof fn lemma_cartridge_ticks_txrom(c: Cartridge, m: TxROM, n: nat)
    requires
        c.mapper() == MapperChip::Txrom(m),
    ensures
        cartridge_ticks(c, n).mapper() == MapperChip::Txrom(txrom_ticks(m, n)),
    decreases n,
{
    if n > 0 {
        c.lemma_with_mapper(c.mapper().ticked());
        lemma_cartridge_ticks_txrom(c.ticked(), m.ticked(), (n - 1) as nat);
    }
}

/// On a cartridge with an MMC3 and no interrupt pending (as at power on),
/// writing the reload value `n` at 0xc000, asking for a reload at 0xc001 and
/// enabling interrupts at 0xe001 makes the interrupt pending after exactly
/// `n + 1` scanline ticks, and it stays pending on later ticks.
pub proof fn lemma_cartridge_mmc3_irq(c: Cartridge, n: u8, k: nat)
    requires
        c.mapper() is Txrom,
        !c.mapper()->Txrom_0.has_pending_irq,
    ensures
        cartridge_ticks(
            c.written(0xc000, n).written(0xc001, 0).written(0xe001, 0),
            k,
        ).mapper().pending_irq() == (k >= n + 1),
{
    let c1 = c.written(0xc000, n);
    c.lemma_with_mapper(c.mapper().written(0xc000, n));
    let c2 = c1.written(0xc001, 0);
    c1.lemma_with_mapper(c1.mapper().written(0xc001, 0));
    let c3 = c2.written(0xe001, 0);
    c2.lemma_with_mapper(c2.mapper().written(0xe001, 0));
    let m = c3.mapper()->Txrom_0;
    assert(m.irq_reload_value == n && m.irq_reset && m.irq_enabled && !m.has_pending_irq);
    lemma_cartridge_ticks_txrom(c3, m, k);
    lemma_mmc3_irq_after_reload(m, k);
}

proof fn lemma_txrom_ticks_last(m: TxROM, n: nat)
    ensures
        txrom_ticks(m, n + 1) == txrom_ticks(m, n).ticked(),
    decreases n,
{
    assert(txrom_ticks(m, n + 1) == txrom_ticks(m.ticked(), n));
    if n > 0 {
        lemma_txrom_ticks_last(m.ticked(), (n - 1) as nat);
        assert(txrom_ticks(m, n) == txrom_ticks(m.ticked(), (n - 1) as nat));
    } else {
        assert(txrom_ticks(m.ticked(), 0) == m.ticked());
    }
}

/// Acknowledging the interrupt (an even write at 0xe000 and up) clears it
/// and turns interrupts off.
pub proof fn lemma_mmc3_acknowledge(m: TxROM, address: u16, value: u8)
    requires
        address >= 0xe000,
        address % 2 == 0,
    ensures
        !m.written(address, value).has_pending_irq,
        !m.written(address, value).irq_enabled,
{
}

} // verus!
