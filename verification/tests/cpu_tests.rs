use mad_nes::cpu::{Cpu, MemoryBuffer, SideEffect};
use mad_nes::instruction::{word_from_le_bytes, Instruction, Op, Operand};

fn memory_with(program: &[u8], at: usize) -> MemoryBuffer {
    let mut memory = [0u8; 0x10000];
    memory[at..at + program.len()].copy_from_slice(program);
    memory
}

#[test]
fn lda_then_adc_adds_and_sets_flags() {
    // LDA #$05; ADC #$03; ADC #$7F
    let memory = memory_with(&[0xa9, 0x05, 0x69, 0x03, 0x69, 0x7f], 0x8000);
    let mut cpu = Cpu::new(memory, 0x8000);
    assert!(cpu.can_step());
    let r = cpu.step();
    assert_eq!(r.cycles_elapsed, 2);
    assert_eq!(r.side_effect, None);
    assert_eq!(cpu.registers().0, 0x05);
    cpu.step();
    let (a, _, _, p, _) = cpu.registers();
    assert_eq!(a, 0x08);
    assert_eq!(p, 0x24);
    cpu.step();
    let (a, _, _, p, _) = cpu.registers();
    // 0x08 + 0x7f = 0x87: negative and signed overflow, no carry
    assert_eq!(a, 0x87);
    assert_eq!(p, 0x24 | 0x80 | 0x40);
    assert_eq!(cpu.pc(), 0x8006);
}

#[test]
fn adc_carry_out_and_zero() {
    // LDA #$FF; ADC #$01
    let memory = memory_with(&[0xa9, 0xff, 0x69, 0x01], 0x8000);
    let mut cpu = Cpu::new(memory, 0x8000);
    cpu.step();
    cpu.step();
    let (a, _, _, p, _) = cpu.registers();
    assert_eq!(a, 0x00);
    // carry and zero set
    assert_eq!(p & 0x01, 0x01);
    assert_eq!(p & 0x02, 0x02);
}

#[test]
fn sbc_with_carry_set_subtracts() {
    // SEC; LDA #$10; SBC #$01
    let memory = memory_with(&[0x38, 0xa9, 0x10, 0xe9, 0x01], 0x8000);
    let mut cpu = Cpu::new(memory, 0x8000);
    cpu.step();
    cpu.step();
    cpu.step();
    let (a, _, _, p, _) = cpu.registers();
    assert_eq!(a, 0x0f);
    assert_eq!(p & 0x01, 0x01);
}

#[test]
fn jsr_then_rts_returns_after_the_call() {
    let mut memory = memory_with(&[0x20, 0x10, 0x80], 0x8000);
    memory[0x8010] = 0x60;
    let mut cpu = Cpu::new(memory, 0x8000);
    let r = cpu.step();
    assert_eq!(r.cycles_elapsed, 6);
    assert_eq!(cpu.pc(), 0x8010);
    assert_eq!(cpu.registers().4, 0xfd);
    assert_eq!(cpu.get_memory_buffer()[0x1ff], 0x80);
    assert_eq!(cpu.get_memory_buffer()[0x1fe], 0x02);
    let r = cpu.step();
    assert_eq!(r.cycles_elapsed, 6);
    assert_eq!(cpu.pc(), 0x8003);
    assert_eq!(cpu.registers().4, 0xff);
}

#[test]
fn pha_then_pla_restores_the_accumulator() {
    // LDA #$42; PHA; LDA #$00; PLA
    let memory = memory_with(&[0xa9, 0x42, 0x48, 0xa9, 0x00, 0x68], 0x8000);
    let mut cpu = Cpu::new(memory, 0x8000);
    for _ in 0..4 {
        cpu.step();
    }
    assert_eq!(cpu.registers().0, 0x42);
    assert_eq!(cpu.registers().4, 0xff);
}

#[test]
fn store_to_ppu_register_reports_the_write() {
    // LDA #$21; STA $2006; STA $2007; STA $0200
    let memory = memory_with(
        &[0xa9, 0x21, 0x8d, 0x06, 0x20, 0x8d, 0x07, 0x20, 0x8d, 0x00, 0x02],
        0x8000,
    );
    let mut cpu = Cpu::new(memory, 0x8000);
    cpu.step();
    let r = cpu.step();
    assert_eq!(r.cycles_elapsed, 4);
    assert_eq!(r.side_effect, Some(SideEffect::WritePpuAddr(0x21)));
    let r = cpu.step();
    assert_eq!(r.side_effect, Some(SideEffect::WritePpuData(0x21)));
    let r = cpu.step();
    assert_eq!(r.side_effect, None);
    assert_eq!(cpu.get_memory_buffer()[0x0200], 0x21);
}

#[test]
fn branch_taken_and_not_taken() {
    // LDA #$00; BEQ +2; LDA #$01; LDA #$02 -> skips LDA #$01
    let memory = memory_with(&[0xa9, 0x00, 0xf0, 0x02, 0xa9, 0x01, 0xa9, 0x02], 0x8000);
    let mut cpu = Cpu::new(memory, 0x8000);
    cpu.step();
    let r = cpu.step();
    assert_eq!(r.cycles_elapsed, 3);
    assert_eq!(cpu.pc(), 0x8006);
    // BNE not taken
    let memory = memory_with(&[0xa9, 0x00, 0xd0, 0x02], 0x8000);
    let mut cpu = Cpu::new(memory, 0x8000);
    cpu.step();
    let r = cpu.step();
    assert_eq!(r.cycles_elapsed, 2);
    assert_eq!(cpu.pc(), 0x8004);
}

#[test]
fn unknown_opcode_cannot_step() {
    let memory = memory_with(&[0x02], 0x8000);
    let cpu = Cpu::new(memory, 0x8000);
    assert!(!cpu.can_step());
    assert_eq!(Instruction::from_bytes(&[0x02]), Err(0x02));
}

#[test]
fn vblank_enters_nmi_when_enabled() {
    let mut memory = [0u8; 0x10000];
    memory[0x2000] = 0x80;
    let mut cpu = Cpu::new(memory, 0x8123);
    cpu.enter_vblank();
    assert_eq!(cpu.get_memory_buffer()[0x2002] & 0x80, 0x80);
    // the return address and the status are pushed, and the NMI vector taken
    assert_eq!(cpu.registers().4, 0xfc);
    assert_eq!(cpu.get_memory_buffer()[0x1ff], 0x81);
    assert_eq!(cpu.get_memory_buffer()[0x1fe], 0x23);
    assert_eq!(cpu.get_memory_buffer()[0x1fd], 0x24 & !0x20);
    assert_eq!(cpu.pc(), 0);
    cpu.exit_vblank();
    assert_eq!(cpu.get_memory_buffer()[0x2002] & 0x80, 0);
}

#[test]
fn vblank_without_nmi_only_sets_the_flag() {
    let memory = [0u8; 0x10000];
    let mut cpu = Cpu::new(memory, 0x8123);
    cpu.enter_vblank();
    assert_eq!(cpu.get_memory_buffer()[0x2002], 0x80);
    assert_eq!(cpu.pc(), 0x8123);
    assert_eq!(cpu.registers().4, 0xff);
}

#[test]
fn instruction_parts_and_size() {
    let i = Instruction::from_bytes(&[0x6c, 0xaa, 0xff]).unwrap();
    assert_eq!(i.parts(), (Op::Jmp, Operand::Indirect(0xffaa)));
    assert_eq!(i.size_in_bytes(), 3);
    assert_eq!(Instruction::Nop.size_in_bytes(), 1);
    assert_eq!(word_from_le_bytes(0xbb, 0xaa), 0xaabb);
}

#[test]
fn compare_sets_carry_zero_and_negative() {
    // LDA #$40; CMP #$40; CMP #$41; CMP #$3F
    let memory = memory_with(&[0xa9, 0x40, 0xc9, 0x40, 0xc9, 0x41, 0xc9, 0x3f], 0x8000);
    let mut cpu = Cpu::new(memory, 0x8000);
    cpu.step();
    cpu.step();
    let p = cpu.registers().3;
    assert_eq!(p & 0x83, 0x03);
    cpu.step();
    let p = cpu.registers().3;
    assert_eq!(p & 0x83, 0x80);
    cpu.step();
    let p = cpu.registers().3;
    assert_eq!(p & 0x83, 0x01);
    assert_eq!(cpu.registers().0, 0x40);
}

#[test]
fn adc_overflow_counts_the_carry_in() {
    // LDA #$7F; SEC; ADC #$00
    let memory = memory_with(&[0xa9, 0x7f, 0x38, 0x69, 0x00], 0x8000);
    let mut cpu = Cpu::new(memory, 0x8000);
    cpu.step();
    cpu.step();
    cpu.step();
    let (a, _, _, p, _) = cpu.registers();
    assert_eq!(a, 0x80);
    assert_eq!(p & 0x40, 0x40);
    assert_eq!(p & 0x01, 0x00);
}

#[test]
fn ldy_sets_flags_from_the_loaded_value() {
    // LDY $0010 with X = 0 and $80 at $0010
    let mut memory = memory_with(&[0xac, 0x10, 0x00, 0xa4, 0x11], 0x8000);
    memory[0x10] = 0x80;
    let mut cpu = Cpu::new(memory, 0x8000);
    cpu.step();
    let (_, x, y, p, _) = cpu.registers();
    assert_eq!(x, 0);
    assert_eq!(y, 0x80);
    assert_eq!(p & 0x82, 0x80);
    // LDY $11 (zero page): $00 sets Z
    cpu.step();
    let (_, _, y, p, _) = cpu.registers();
    assert_eq!(y, 0);
    assert_eq!(p & 0x82, 0x02);
}

#[test]
fn isb_overflow_counts_the_borrow() {
    // CLC; LDA #$80; ISB $10 with $FF at $10: memory becomes $00 and
    // A = $80 - $00 - 1 = $7F, a signed overflow
    let mut memory = memory_with(&[0x18, 0xa9, 0x80, 0xe7, 0x10], 0x8000);
    memory[0x10] = 0xff;
    let mut cpu = Cpu::new(memory, 0x8000);
    cpu.step();
    cpu.step();
    cpu.step();
    let (a, _, _, p, _) = cpu.registers();
    assert_eq!(cpu.get_memory_buffer()[0x10], 0x00);
    assert_eq!(a, 0x7f);
    assert_eq!(p & 0x40, 0x40);
    assert_eq!(p & 0x01, 0x01);
}

#[test]
fn status_bit_five_stays_set_after_plp() {
    // LDA #$00; PHA; PLP
    let memory = memory_with(&[0xa9, 0x00, 0x48, 0x28], 0x8000);
    let mut cpu = Cpu::new(memory, 0x8000);
    for _ in 0..3 {
        cpu.step();
    }
    assert_eq!(cpu.registers().3, 0x20);
}
