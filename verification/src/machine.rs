//! The machine: the CPU runs one instruction at a time, its writes to the
//! PPU registers reach the PPU, and the PPU runs three dots per CPU cycle,
//! a scanline at a time.

use vstd::prelude::*;

use std::collections::HashSet;

use crate::bus::{slice_subrange, BusState, JoypadState, RealBus};
use crate::cpu::{Cpu, MemoryBuffer};
use crate::cpu_model::{
    lemma_cycles_bounded, loaded_memory, mem, step_defined, step_outcome, vblank_state, CpuState,
};
use crate::ines::Cartridge;
use crate::instruction::le_word;
use crate::ppu::{steps, Ppu, PpuControl, PpuState, VideoMemoryBuffer, WriteLatch};

verus! {

/// What a step of the machine asks of the one running it.
#[derive(Debug, Clone, Copy, PartialEq, Eq, Structural)]
pub enum SideEffect {
    Render,
}

/// Why a step of the machine could not run.
#[derive(Debug, Clone, Copy, PartialEq, Eq, Structural)]
pub enum StepFault {
    /// The instruction at the program counter is unknown, or would leave
    /// the address space or the stack.
    UndefinedInstruction,
    /// The instruction writes PPU data past video memory, or object
    /// attribute memory at its last address.
    PpuWriteOutOfRange,
    /// The vertical blank interrupt has no room on the stack.
    InterruptStackOverflow,
}

/// Counts down the PPU dots left in the current scanline.
pub struct ScanlineCycleCounter {
    pub scanline_cycles_left: u32,
}

/// The dots left in the scanline after `dots` more, and whether the
/// scanline ended on the way.
pub open spec fn counter_advanced(left: u32, dots: u32) -> (u32, bool) {
    if dots >= left {
        ((341 + left - dots) as u32, true)
    } else {
        ((left - dots) as u32, false)
    }
}

/// The counter keeps the position in the scanline: with the dots already
/// run in it, a scanline ends exactly when they reach 341, and the count
/// goes on in the next one.
pub proof fn lemma_counter_position(left: u32, dots: u32)
    requires
        1 <= left <= 341,
        dots <= 341,
    ensures
        1 <= counter_advanced(left, dots).0 <= 341,
        counter_advanced(left, dots).1 == (341 - left + dots >= 341),
        341 - counter_advanced(left, dots).0 == (341 - left + dots) % 341,
{
}

impl ScanlineCycleCounter {
    pub fn advance(&mut self, cycles: u32) -> (r: bool)
        requires
            1 <= old(self).scanline_cycles_left <= 341,
            cycles <= 341,
        ensures
            (final(self).scanline_cycles_left, r) == counter_advanced(
                old(self).scanline_cycles_left,
                cycles,
            ),
    {
        if cycles >= self.scanline_cycles_left {
            self.scanline_cycles_left = 341 + self.scanline_cycles_left - cycles;
            true
        } else {
            self.scanline_cycles_left = self.scanline_cycles_left - cycles;
            false
        }
    }

    pub fn new() -> (r: ScanlineCycleCounter)
        ensures
            r.scanline_cycles_left == 341,
    {
        ScanlineCycleCounter { scanline_cycles_left: 341 }
    }
}

/// The NES: the CPU, the bus with the PPU and the controller, and the
/// scanline counter.
pub struct Machine {
    cpu: Cpu,
    bus: RealBus,
    cycle_counter: ScanlineCycleCounter,
}

/// The state of the machine.
pub struct MachineState {
    pub cpu: CpuState,
    pub bus: BusState,
    pub cycles_left: u32,
}

impl View for Machine {
    type V = MachineState;

    closed spec fn view(&self) -> MachineState {
        MachineState {
            cpu: self.cpu@,
            bus: self.bus.state(),
            cycles_left: self.cycle_counter.scanline_cycles_left,
        }
    }
}

/// The CPU after reset with program `prg` loaded.
pub open spec fn reset_cpu(prg: Seq<u8>) -> CpuState {
    let m = loaded_memory(prg);
    CpuState {
        memory: m,
        pc: le_word(m[0xfffc], m[0xfffd]),
        a: 0,
        x: 0,
        y: 0,
        p: 0x24,
        sp: 0xff,
        nmi_vector: le_word(m[0xfffa], m[0xfffb]),
        reset_vector: le_word(m[0xfffc], m[0xfffd]),
        irq_vector: le_word(m[0xfffe], m[0xffff]),
    }
}

/// The PPU after the CPU's write reported by `effect`; `memory` is the CPU
/// memory, from which a DMA copies a page.
pub open spec fn effect_applied(
    ppu: PpuState,
    memory: Seq<u8>,
    effect: Option<crate::cpu::SideEffect>,
) -> PpuState {
    match effect {
        Some(crate::cpu::SideEffect::WritePpuAddr(v)) => ppu.address_written(v),
        Some(crate::cpu::SideEffect::WritePpuData(v)) => ppu.data_written(v),
        Some(crate::cpu::SideEffect::WriteOamAddr(v)) => PpuState { oam_address: v, ..ppu },
        Some(crate::cpu::SideEffect::WriteOamData(v)) => ppu.oam_written(v),
        Some(crate::cpu::SideEffect::OamDma(page)) => ppu.oam_copied(
            memory.subrange(page * 0x100, page * 0x100 + 0x100),
        ),
        Some(crate::cpu::SideEffect::ClearAddressLatch) => PpuState {
            write_latch: WriteLatch::Zero,
            ..ppu
        },
        Some(crate::cpu::SideEffect::SetPpuControl(v)) => ppu.with_control(v),
        None => ppu,
    }
}

/// Whether the PPU accepts the write reported by `effect`.
pub open spec fn effect_defined(ppu: PpuState, effect: Option<crate::cpu::SideEffect>) -> bool {
    match effect {
        Some(crate::cpu::SideEffect::WritePpuData(_)) => ppu.v < 0x4000,
        Some(crate::cpu::SideEffect::WriteOamData(_)) => ppu.oam_address < 255,
        _ => true,
    }
}

impl MachineState {
    pub open spec fn wf(self) -> bool {
        &&& self.cpu.wf()
        &&& self.bus.ppu.wf()
        &&& self.bus.ppu.patterns_readable()
        &&& 1 <= self.cycles_left <= 341
    }

    /// One step: an instruction, its write to the PPU, and when the
    /// scanline is over the PPU's next 341 dots. A frame that becomes ready
    /// puts the CPU in vertical blank and asks for a render; the end of the
    /// pre-render scanline takes the CPU out of vertical blank.
    pub open spec fn stepped(self) -> (MachineState, Option<SideEffect>) {
        let o = step_outcome(self.cpu);
        let ppu = effect_applied(self.bus.ppu, o.state.memory, o.effect);
        let (left, crossed) = counter_advanced(self.cycles_left, (o.cycles * 3) as u32);
        if crossed {
            let (after, ready) = steps(ppu, 341);
            let bus = BusState { ppu: after, ..self.bus };
            if ready {
                (
                    MachineState { cpu: vblank_state(o.state), bus, cycles_left: left },
                    Some(SideEffect::Render),
                )
            } else if after.scanline == 0 {
                (
                    MachineState {
                        cpu: o.state.write(0x2002, mem(o.state, 0x2002) & !0x80u8),
                        bus,
                        cycles_left: left,
                    },
                    None,
                )
            } else {
                (MachineState { cpu: o.state, bus, cycles_left: left }, None)
            }
        } else {
            (
                MachineState { cpu: o.state, bus: BusState { ppu, ..self.bus }, cycles_left: left },
                None,
            )
        }
    }

    /// A step is defined when the instruction is, the PPU accepts its write,
    /// and the interrupt of a vertical blank has room on the stack.
    pub open spec fn step_defined(self) -> bool {
        let o = step_outcome(self.cpu);
        let ppu = effect_applied(self.bus.ppu, o.state.memory, o.effect);
        let (left, crossed) = counter_advanced(self.cycles_left, (o.cycles * 3) as u32);
        &&& step_defined(self.cpu)
        &&& effect_defined(self.bus.ppu, o.effect)
        &&& crossed && steps(ppu, 341).1 ==> (mem(o.state, 0x2000) & 0x80 != 0 ==> o.state.sp
            >= 3)
    }
}

/// The PPU keeps its invariant through the writes of the CPU.
pub proof fn lemma_effect_keeps_wf(
    ppu: PpuState,
    memory: Seq<u8>,
    effect: Option<crate::cpu::SideEffect>,
)
    requires
        ppu.wf(),
        ppu.patterns_readable(),
        effect_defined(ppu, effect),
    ensures
        effect_applied(ppu, memory, effect).wf(),
        effect_applied(ppu, memory, effect).patterns_readable(),
{
    match effect {
        Some(crate::cpu::SideEffect::WritePpuAddr(v)) => {
            crate::ppu::lemma_register_access_keeps_wf(ppu, v, memory);
        },
        Some(crate::cpu::SideEffect::WritePpuData(v)) => {
            crate::ppu::lemma_register_access_keeps_wf(ppu, v, memory);
        },
        Some(crate::cpu::SideEffect::WriteOamAddr(v)) => {
            crate::ppu::lemma_register_access_keeps_wf(ppu, v, memory);
        },
        Some(crate::cpu::SideEffect::WriteOamData(v)) => {
            crate::ppu::lemma_register_access_keeps_wf(ppu, v, memory);
        },
        Some(crate::cpu::SideEffect::OamDma(page)) => {
            crate::ppu::lemma_register_access_keeps_wf(
                ppu,
                page,
                memory.subrange(page * 0x100, page * 0x100 + 0x100),
            );
        },
        Some(crate::cpu::SideEffect::ClearAddressLatch) => {
            crate::ppu::lemma_register_access_keeps_wf(ppu, 0, memory);
        },
        Some(crate::cpu::SideEffect::SetPpuControl(v)) => {
            crate::ppu::lemma_register_access_keeps_wf(ppu, v, memory);
        },
        None => {},
    }
}

/// An OAM DMA of page `page` copies the 256 bytes of CPU memory from `page *
/// 0x100` into object attribute memory, the first at the OAM address and
/// wrapping round; nothing else of the PPU changes.
pub proof fn lemma_oam_dma_copies_page(ppu: PpuState, memory: Seq<u8>, page: u8)
    requires
        memory.len() == 0x10000,
    ensures
        ({
            let after = effect_applied(ppu, memory, Some(crate::cpu::SideEffect::OamDma(page)));
            &&& after.oam.len() == 256
            &&& forall|j: int|
                0 <= j < 256 ==> #[trigger] after.oam[(ppu.oam_address + j) % 256] == memory[page
                    * 0x100 + j]
            &&& after == (PpuState { oam: after.oam, ..ppu })
        }),
{
    let after = effect_applied(ppu, memory, Some(crate::cpu::SideEffect::OamDma(page)));
    assert forall|j: int| 0 <= j < 256 implies #[trigger] after.oam[(ppu.oam_address + j) % 256]
        == memory[page * 0x100 + j] by {
        let k = (ppu.oam_address + j) % 256;
        assert((k - ppu.oam_address + 256) % 256 == j);
    }
}

/// After a machine step whose instruction starts an OAM DMA of page
/// `page`, object attribute memory holds the 256 bytes of CPU memory from
/// `page * 0x100`, the first at the OAM address and wrapping round.
pub proof fn lemma_machine_oam_dma(m: MachineState, page: u8)
    requires
        m.wf(),
        step_defined(m.cpu),
        step_outcome(m.cpu).effect == Some(crate::cpu::SideEffect::OamDma(page)),
    ensures
        forall|j: int|
            0 <= j < 256 ==> #[trigger] m.stepped().0.bus.ppu.oam[(m.bus.ppu.oam_address + j) % 256]
                == step_outcome(m.cpu).state.memory[page * 0x100 + j],
{
    let o = step_outcome(m.cpu);
    crate::cpu_model::lemma_step_writes_one_byte(m.cpu);
    lemma_oam_dma_copies_page(m.bus.ppu, o.state.memory, page);
    let ppu = effect_applied(m.bus.ppu, o.state.memory, o.effect);
    crate::ppu::lemma_steps_keep_oam(ppu, 341);
}

impl Machine {
    /// Whether a cartridge can be loaded: its program fits the 32 KiB at
    /// 0x8000 and every pattern address can be read.
    pub fn can_load(rom: &Cartridge) -> (r: bool)
        ensures
            r == (rom.prg_rom().len() <= 0x8000 && rom.patterns_readable()),
    {
        rom.prg_rom_data().len() <= 0x8000 && rom.all_patterns_readable()
    }

    /// A machine at power on with `rom` inserted.
    pub fn load(rom: Cartridge) -> (r: Machine)
        requires
            rom.prg_rom().len() <= 0x8000,
            rom.patterns_readable(),
        ensures
            r@.wf(),
            r@.cpu == reset_cpu(rom.prg_rom()),
            r@.bus.memory == Seq::new(0x10000, |i: int| 0u8),
            r@.bus.buttons == Set::<u8>::empty(),
            r@.bus.joypad == JoypadState::Idle,
            r@.bus.ppu == PpuState::initial(rom),
            r@.cycles_left == 341,
    {
        let cpu = Cpu::load(&rom);
        let ppu = Ppu::new(rom);
        let bus = RealBus {
            memory: [0; 0x10000],
            active_buttons: HashSet::new(),
            joypad_state: JoypadState::Idle,
            ppu,
        };
        let r = Machine { cpu, bus, cycle_counter: ScanlineCycleCounter::new() };
        proof {
            r.cpu.lemma_wf();
            assert(r@.cpu =~= reset_cpu(rom.prg_rom()));
            assert(r@.bus.memory =~= Seq::new(0x10000, |i: int| 0u8));
        }
        r
    }

    /// Passes a write of the CPU on to the PPU.
    fn apply_side_effect(&mut self, effect: Option<crate::cpu::SideEffect>)
        requires
            effect_defined(old(self)@.bus.ppu, effect),
        ensures
            final(self)@ == (MachineState {
                bus: BusState {
                    ppu: effect_applied(old(self)@.bus.ppu, old(self)@.cpu.memory, effect),
                    ..old(self)@.bus
                },
                ..old(self)@
            }),
    {
        proof {
            self.cpu.lemma_wf();
        }
        match effect {
            Some(crate::cpu::SideEffect::WritePpuAddr(v)) => self.bus.ppu.write_address(v),
            Some(crate::cpu::SideEffect::WritePpuData(v)) => self.bus.ppu.write_data(v),
            Some(crate::cpu::SideEffect::WriteOamAddr(v)) => self.bus.ppu.set_oam_address(v),
            Some(crate::cpu::SideEffect::WriteOamData(v)) => self.bus.ppu.write_oam_data(v),
            Some(crate::cpu::SideEffect::OamDma(page)) => {
                let start = page as usize * 0x100;
                let memory = self.cpu.get_memory_buffer();
                let slice = slice_subrange(memory, start, start + 0x100);
                self.bus.ppu.copy_oam_data(slice);
            },
            Some(crate::cpu::SideEffect::ClearAddressLatch) => self.bus.ppu.clear_address_latch(),
            Some(crate::cpu::SideEffect::SetPpuControl(v)) => self.bus.ppu.set_control(
                PpuControl { bits: v },
            ),
            None => {},
        }
    }

    /// Runs one instruction and the PPU dots it takes; asks for a render
    /// when a frame is ready.
    pub fn step(&mut self) -> (r: Option<SideEffect>)
        requires
            old(self)@.wf(),
            old(self)@.step_defined(),
        ensures
            (final(self)@, r) == old(self)@.stepped(),
            final(self)@.wf(),
    {
        match self.try_step() {
            Ok(effect) => effect,
            Err(_) => None,
        }
    }

    /// Runs a step where it is defined. Otherwise it stops where the step
    /// fails and says why: an instruction that cannot run leaves the machine
    /// as it was; a write the PPU cannot take, or a vertical blank interrupt
    /// without room on the stack, comes after the instruction has run.
    pub fn try_step(&mut self) -> (r: Result<Option<SideEffect>, StepFault>)
        requires
            old(self)@.wf(),
        ensures
            match r {
                Ok(effect) => {
                    &&& old(self)@.step_defined()
                    &&& (final(self)@, effect) == old(self)@.stepped()
                    &&& final(self)@.wf()
                },
                Err(StepFault::UndefinedInstruction) => {
                    &&& !step_defined(old(self)@.cpu)
                    &&& final(self)@ == old(self)@
                },
                Err(_) => !old(self)@.step_defined(),
            },
    {
        let ghost start = self@;
        if !self.cpu.can_step() {
            return Err(StepFault::UndefinedInstruction);
        }
        let result = self.cpu.step();
        let ghost o = step_outcome(start.cpu);
        proof {
            lemma_cycles_bounded(start.cpu);
            self.cpu.lemma_wf();
        }
        let defined = match result.side_effect {
            Some(crate::cpu::SideEffect::WritePpuData(_)) => self.bus.ppu.get_vram_address() < 0x4000,
            Some(crate::cpu::SideEffect::WriteOamData(_)) => self.bus.ppu.get_oam_address() < 255,
            _ => true,
        };
        if !defined {
            return Err(StepFault::PpuWriteOutOfRange);
        }
        proof {
            lemma_effect_keeps_wf(start.bus.ppu, o.state.memory, o.effect);
        }
        self.apply_side_effect(result.side_effect);
        if self.cycle_counter.advance(result.cycles_elapsed * 3) {
            proof {
                crate::ppu::lemma_steps_defined(self.bus.ppu@, 341);
            }
            let ready = self.bus.ppu.advance_scanline();
            if ready {
                let control = self.cpu.get_memory_buffer()[0x2000];
                let sp = self.cpu.registers().4;
                if control & 0x80 != 0 && sp < 3 {
                    return Err(StepFault::InterruptStackOverflow);
                }
                self.cpu.enter_vblank();
                proof {
                    self.cpu.lemma_wf();
                }
                return Ok(Some(SideEffect::Render));
            }
            if self.bus.ppu.get_current_scanline() == 0 {
                self.cpu.exit_vblank();
                proof {
                    self.cpu.lemma_wf();
                }
            }
            return Ok(None);
        }
        Ok(None)
    }

    pub fn get_buffer(&self) -> (r: &MemoryBuffer)
        ensures
            r@ == self@.cpu.memory,
    {
        self.cpu.get_memory_buffer()
    }

    pub fn get_video_buffer(&self) -> (r: &VideoMemoryBuffer)
        ensures
            r@ == self@.bus.ppu.memory,
    {
        self.bus.ppu.get_buffer()
    }

    pub fn get_ppu(&self) -> (r: &Ppu)
        ensures
            r@ == self@.bus.ppu,
    {
        &self.bus.ppu
    }

    pub fn get_cpu(&self) -> (r: &Cpu)
        ensures
            r@ == self@.cpu,
    {
        &self.cpu
    }

    /// Sets the pressed buttons, by their position in the controller report.
    pub fn set_active_buttons(&mut self, buttons: HashSet<u8>)
        ensures
            final(self)@.cpu == old(self)@.cpu,
            final(self)@.cycles_left == old(self)@.cycles_left,
            final(self)@.bus.buttons == buttons@,
            final(self)@.bus.memory == old(self)@.bus.memory,
            final(self)@.bus.joypad == old(self)@.bus.joypad,
            final(self)@.bus.ppu == old(self)@.bus.ppu,
    {
        self.bus.active_buttons = buttons;
    }
}

} // verus!
