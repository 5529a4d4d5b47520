use std::collections::HashSet;

use mad_nes::bus::{unmirror, BusTrait, JoypadButton, JoypadState, RealBus};
use mad_nes::ines::parse_cartridge;
use mad_nes::ppu::Ppu;

fn bus() -> RealBus {
    let mut bytes = vec![0x4e, 0x45, 0x53, 0x1a, 1, 1, 0];
    bytes.resize(16 + 0x4000 + 0x2000, 0);
    let cartridge = parse_cartridge(&bytes).unwrap();
    RealBus {
        memory: [0; 0x10000],
        active_buttons: HashSet::new(),
        joypad_state: JoypadState::Idle,
        ppu: Ppu::new(cartridge),
    }
}

#[test]
fn controller_reports_buttons_in_order_after_a_strobe() {
    let mut bus = bus();
    bus.active_buttons.insert(JoypadButton::A.index());
    bus.active_buttons.insert(JoypadButton::Start.index());
    bus.active_buttons.insert(JoypadButton::Right.index());
    bus.write_address(0x4016, 1);
    assert_eq!(bus.read_address(0x4016), 0);
    assert_eq!(bus.joypad_state, JoypadState::Polling);
    bus.write_address(0x4016, 0);
    let reads: Vec<u8> = (0..10).map(|_| bus.read_address(0x4016)).collect();
    assert_eq!(reads, vec![1, 0, 0, 1, 0, 0, 0, 1, 1, 1]);
    assert_eq!(bus.joypad_state, JoypadState::Idle);
}

#[test]
fn strobe_takes_bit_zero_only() {
    let mut bus = bus();
    bus.write_address(0x4016, 9);
    assert_eq!(bus.joypad_state, JoypadState::Polling);
    bus.write_address(0x4016, 8);
    assert_eq!(bus.joypad_state, JoypadState::Ready(JoypadButton::A));
}

#[test]
fn ram_and_ppu_registers_are_mirrored() {
    assert_eq!(unmirror(0x0801), 0x0001);
    assert_eq!(unmirror(0x1fff), 0x07ff);
    assert_eq!(unmirror(0x3456), 0x2006);
    assert_eq!(unmirror(0x2007), 0x2007);
    assert_eq!(unmirror(0x4016), 0x4016);
    let mut bus = bus();
    bus.write_address(0x0805, 7);
    assert_eq!(bus.read_address(0x0005), 7);
    assert_eq!(bus.read_address(0x1805), 7);
}

#[test]
fn ppu_registers_reach_the_ppu() {
    let mut bus = bus();
    bus.write_address(0x2000, 0x80);
    assert_eq!(bus.memory[0x2000], 0x80);
    assert!(bus.ppu.generates_nmi_at_vblank());
    bus.write_address(0x2006, 0x21);
    bus.write_address(0x2006, 0x00);
    bus.write_address(0x2007, 0x5a);
    bus.write_address(0x3ffe, 0x21); // mirror of $2006
    bus.write_address(0x2006, 0x00);
    bus.read_address(0x2007);
    assert_eq!(bus.read_address(0x2007), 0x5a);
}

#[test]
fn status_read_clears_the_address_latch() {
    let mut bus = bus();
    bus.write_address(0x2006, 0x21);
    assert_eq!(bus.read_address(0x2002), 0);
    bus.write_address(0x2006, 0x22);
    bus.write_address(0x2006, 0x00);
    bus.write_address(0x2007, 0x11);
    bus.write_address(0x2006, 0x22);
    bus.write_address(0x2006, 0x00);
    bus.read_address(0x2007);
    assert_eq!(bus.read_address(0x2007), 0x11);
}

#[test]
fn oam_dma_copies_a_page() {
    let mut bus = bus();
    for i in 0..256 {
        bus.memory[0x0300 + i] = i as u8;
    }
    bus.write_address(0x2003, 0);
    bus.write_address(0x4014, 3);
    bus.write_address(0x2003, 0x10);
    assert_eq!(bus.ppu.read_oam_data(), 0x10);
    bus.write_address(0x2004, 0x99);
    bus.write_address(0x2003, 0x10);
    assert_eq!(bus.ppu.read_oam_data(), 0x99);
}

#[test]
fn controller_keeps_reporting_one_after_the_buttons() {
    let mut bus = bus();
    bus.active_buttons.insert(JoypadButton::B.index());
    bus.write_address(0x4016, 1);
    bus.write_address(0x4016, 0);
    let reads: Vec<u8> = (0..40).map(|_| bus.read_address(0x4016)).collect();
    assert_eq!(&reads[0..8], &[0, 1, 0, 0, 0, 0, 0, 0]);
    assert!(reads[8..].iter().all(|r| *r == 1));
}
