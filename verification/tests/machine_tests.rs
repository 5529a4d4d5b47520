use std::collections::HashSet;

use mad_nes::ines::{parse_cartridge, Cartridge};
use mad_nes::machine::{Machine, ScanlineCycleCounter, SideEffect, StepFault};

fn cartridge(prg_banks: u8, program: &[u8]) -> Cartridge {
    let mut bytes = vec![0x4e, 0x45, 0x53, 0x1a, prg_banks, 1, 0];
    bytes.resize(16, 0);
    let mut prg = vec![0u8; prg_banks as usize * 0x4000];
    prg[..program.len()].copy_from_slice(program);
    let len = prg.len();
    // reset vector: 0x8000
    prg[len - 4] = 0x00;
    prg[len - 3] = 0x80;
    bytes.extend(prg);
    bytes.extend(vec![0u8; 0x2000]);
    parse_cartridge(&bytes).unwrap()
}

#[test]
fn load_starts_at_the_reset_vector() {
    let rom = cartridge(2, &[0x4c, 0x00, 0x80]);
    assert!(Machine::can_load(&rom));
    let machine = Machine::load(rom);
    assert_eq!(machine.get_cpu().pc(), 0x8000);
    assert_eq!(machine.get_buffer()[0x8000], 0x4c);
    assert_eq!(machine.get_ppu().get_current_scanline(), 261);
}

#[test]
fn a_large_program_cannot_be_loaded() {
    let rom = cartridge(4, &[0x4c, 0x00, 0x80]);
    assert!(!Machine::can_load(&rom));
}

#[test]
fn a_frame_is_rendered_after_the_visible_scanlines() {
    // JMP $8000, 3 cycles = 9 dots per step
    let rom = cartridge(2, &[0x4c, 0x00, 0x80]);
    let mut machine = Machine::load(rom);
    let mut steps = 0;
    loop {
        steps += 1;
        if machine.step() == Some(SideEffect::Render) {
            break;
        }
    }
    // the frame is ready during the 243rd scanline from the pre-render line
    assert_eq!(steps, (243 * 341 + 8) / 9);
    assert_eq!(machine.get_ppu().get_current_scanline(), 242);
    assert_eq!(machine.get_buffer()[0x2002] & 0x80, 0x80);
    assert_eq!(machine.get_cpu().pc(), 0x8000);
}

#[test]
fn nmi_enabled_program_jumps_to_the_handler() {
    // LDA #$80; STA $2000; JMP $8005; handler at $9000
    let mut program = vec![0xa9, 0x80, 0x8d, 0x00, 0x20, 0x4c, 0x05, 0x80];
    program.resize(0x1000, 0);
    program.extend_from_slice(&[0x4c, 0x00, 0x90]);
    let mut rom_bytes = cartridge(2, &program).prg_rom_data().to_vec();
    let len = rom_bytes.len();
    rom_bytes[len - 6] = 0x00;
    rom_bytes[len - 5] = 0x90;
    let mut bytes = vec![0x4e, 0x45, 0x53, 0x1a, 2, 1, 0];
    bytes.resize(16, 0);
    bytes.extend(rom_bytes);
    bytes.extend(vec![0u8; 0x2000]);
    let rom = parse_cartridge(&bytes).unwrap();
    let mut machine = Machine::load(rom);
    while machine.step() != Some(SideEffect::Render) {}
    assert_eq!(machine.get_cpu().pc(), 0x9000);
    assert!(machine.get_ppu().generates_nmi_at_vblank());
}

#[test]
fn pre_render_scanline_ends_vertical_blank() {
    let rom = cartridge(2, &[0x4c, 0x00, 0x80]);
    let mut machine = Machine::load(rom);
    while machine.step() != Some(SideEffect::Render) {}
    while machine.get_ppu().get_current_scanline() != 0 {
        machine.step();
    }
    assert_eq!(machine.get_buffer()[0x2002] & 0x80, 0);
}

#[test]
fn buttons_are_kept() {
    let rom = cartridge(2, &[0x4c, 0x00, 0x80]);
    let mut machine = Machine::load(rom);
    let mut buttons = HashSet::new();
    buttons.insert(0u8);
    machine.set_active_buttons(buttons);
    assert_eq!(machine.get_video_buffer()[0x3f00], 0);
}

fn run_until_fault(machine: &mut Machine) -> StepFault {
    loop {
        if let Err(fault) = machine.try_step() {
            return fault;
        }
    }
}

#[test]
fn unknown_opcode_is_a_fault() {
    let rom = cartridge(2, &[0xea, 0x02]);
    let mut machine = Machine::load(rom);
    assert_eq!(machine.try_step(), Ok(None));
    assert_eq!(machine.try_step(), Err(StepFault::UndefinedInstruction));
    assert_eq!(machine.get_cpu().pc(), 0x8001);
}

#[test]
fn ppu_data_write_past_video_memory_is_a_fault() {
    // LDA #$3F; STA $2006; LDA #$FF; STA $2006; STA $2007; STA $2007
    let rom = cartridge(
        2,
        &[0xa9, 0x3f, 0x8d, 0x06, 0x20, 0xa9, 0xff, 0x8d, 0x06, 0x20, 0x8d, 0x07, 0x20, 0x8d, 0x07, 0x20],
    );
    let mut machine = Machine::load(rom);
    assert_eq!(run_until_fault(&mut machine), StepFault::PpuWriteOutOfRange);
    assert_eq!(machine.get_ppu().get_vram_address(), 0x4000);
}

#[test]
fn vblank_interrupt_without_stack_room_is_a_fault() {
    // LDX #$01; TXS; LDA #$80; STA $2000; JMP $8007
    let rom = cartridge(2, &[0xa2, 0x01, 0x9a, 0xa9, 0x80, 0x8d, 0x00, 0x20, 0x4c, 0x08, 0x80]);
    let mut machine = Machine::load(rom);
    assert_eq!(run_until_fault(&mut machine), StepFault::InterruptStackOverflow);
    assert_eq!(machine.get_ppu().get_current_scanline(), 242);
}

#[test]
fn scanline_counter_keeps_the_position() {
    let mut counter = ScanlineCycleCounter::new();
    let mut used: u32 = 0;
    for dots in [9u32, 21, 300, 341, 6, 340, 1, 0, 200] {
        let crossed = counter.advance(dots);
        assert_eq!(crossed, used + dots >= 341);
        used = (used + dots) % 341;
        assert_eq!(341 - counter.scanline_cycles_left, used);
    }
}
