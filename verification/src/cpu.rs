//! The 6502 CPU of the NES: registers, 64 KiB of memory, and the execution
//! of one instruction at a time.

use vstd::prelude::*;

use crate::cpu_model::{
    abs_index, adc, add8, sub8, after_fetch, branch, branch_defined, carry_on, compare, current_instruction,
    execute, execute_defined, fetch, fits_i8, indexed_indirect_addr, indirect_indexed_addr,
    is_branch_op, is_control_op, is_modify_op, is_read_op, is_store_op, mem, modify_cycles,
    modify_state, negative_on, operand_address, operand_value, overflow_on, read_cycles, sbc,
    sbc_defined, set_bit, shift_flags, shift_memory, shifted, signed, step_defined, step_outcome,
    store_cycles, with_zn, write_effect, zero_on, zp_index, control_outcome, modify_outcome,
    read_outcome, register_outcome, store_outcome, CpuState, Outcome, CARRY_BIT, DECIMAL_BIT,
    INTERRUPT_BIT, NEGATIVE_BIT, OVERFLOW_BIT, ZERO_BIT, loaded_memory, vblank_state,
};
use crate::ines::Cartridge;
use crate::instruction::{decode, le_word, word_from_le_bytes, Instruction, Op, Operand};

verus! {

/// The CPU address space.
pub type MemoryBuffer = [u8; 0x10000];

/// A write of the CPU that the PPU has to act on.
#[derive(Debug, Clone, Copy, PartialEq, Eq, Structural)]
pub enum SideEffect {
    WritePpuAddr(u8),
    WritePpuData(u8),
    WriteOamAddr(u8),
    WriteOamData(u8),
    OamDma(u8),
    ClearAddressLatch,
    SetPpuControl(u8),
}

/// What one instruction did: the cycles it took, and the write the PPU has
/// to see.
pub struct CpuResult {
    pub cycles_elapsed: u32,
    pub side_effect: Option<SideEffect>,
}

/// Whether the result of an instruction matches the outcome of the model.
pub open spec fn result_matches(r: CpuResult, state: CpuState, o: Outcome) -> bool {
    &&& state == o.state
    &&& r.cycles_elapsed == o.cycles
    &&& r.side_effect == o.effect
}

fn cycles(cycles_elapsed: u32) -> (r: CpuResult)
    ensures
        r.cycles_elapsed == cycles_elapsed,
        r.side_effect == None::<SideEffect>,
{
    CpuResult { cycles_elapsed: cycles_elapsed, side_effect: None }
}

/// The 6502 CPU.
pub struct Cpu {
    memory: MemoryBuffer,
    pc: u16,
    a: u8,
    x: u8,
    y: u8,
    p: u8,
    sp: u8,
    nmi_vector: u16,
    reset_vector: u16,
    irq_vector: u16,
}

impl View for Cpu {
    type V = CpuState;

    closed spec fn view(&self) -> CpuState {
        CpuState {
            memory: self.memory@,
            pc: self.pc,
            a: self.a,
            x: self.x,
            y: self.y,
            p: self.p,
            sp: self.sp,
            nmi_vector: self.nmi_vector,
            reset_vector: self.reset_vector,
            irq_vector: self.irq_vector,
        }
    }
}

/// A byte read as a signed number.
fn signed_value(v: u8) -> (r: i16)
    ensures
        r == signed(v),
{
    if v >= 128 {
        v as i16 - 256
    } else {
        v as i16
    }
}

impl Cpu {
    /// The state of the CPU has 64 KiB of memory.
    pub proof fn lemma_wf(&self)
        ensures
            self@.wf(),
    {
        assert(self.memory@.len() == 0x10000);
    }

    fn set_memory_value(&mut self, address: u16, value: u8) -> (r: Option<SideEffect>)
        ensures
            final(self)@ == old(self)@.write(address, value),
            r == write_effect(address, value),
    {
        self.memory[address as usize] = value;

        match address {
            0x2003 => Some(SideEffect::WriteOamAddr(value)),
            0x2004 => Some(SideEffect::WriteOamData(value)),
            0x4014 => Some(SideEffect::OamDma(value)),
            0x2006 => Some(SideEffect::WritePpuAddr(value)),
            0x2007 => Some(SideEffect::WritePpuData(value)),
            0x2000 => Some(SideEffect::SetPpuControl(value)),
            _ => None,
        }
    }

    /// Sets the vertical blank bit of PPU status in memory and, when the PPU
    /// control byte asks for it, enters the non-maskable interrupt handler.
    pub fn enter_vblank(&mut self)
        requires
            mem(old(self)@, 0x2000) & 0x80 != 0 ==> old(self)@.sp >= 3,
        ensures
            final(self)@ == vblank_state(old(self)@),
    {
        proof {
            self.lemma_wf();
        }
        self.memory[0x2002] = self.memory[0x2002] | 0x80;

        if self.memory[0x2000] & 0x80 != 0 {
            let pc = self.pc;
            self.push((pc / 256) as u8);
            self.push((pc % 256) as u8);
            let p = self.p & !0x20;
            self.push(p);
            self.pc = self.nmi_vector;
        }
    }

    /// Clears the vertical blank bit of PPU status in memory.
    pub fn exit_vblank(&mut self)
        ensures
            final(self)@ == old(self)@.write(0x2002, mem(old(self)@, 0x2002) & !0x80u8),
    {
        self.memory[0x2002] = self.memory[0x2002] & !0x80;
    }

    /// Reads the instruction at the program counter and moves the program
    /// counter past it.
    fn fetch_instruction(&mut self) -> (i: Instruction)
        requires
            decode(fetch(old(self)@)) is Ok,
            old(self)@.pc + current_instruction(old(self)@).size() <= 0xffff,
        ensures
            i == current_instruction(old(self)@),
            final(self)@ == after_fetch(old(self)@),
    {
        proof {
            self.lemma_wf();
        }
        let pc = self.pc;
        let mut bytes: Vec<u8> = Vec::new();
        bytes.push(self.memory[pc as usize]);
        bytes.push(
            if pc < 0xffff {
                self.memory[pc as usize + 1]
            } else {
                0
            },
        );
        bytes.push(
            if pc < 0xfffe {
                self.memory[pc as usize + 2]
            } else {
                0
            },
        );
        assert(bytes@ == fetch(old(self)@));
        match Instruction::from_bytes(bytes.as_slice()) {
            Ok(instruction) => {
                self.pc = pc + instruction.size_in_bytes();
                instruction
            },
            Err(_) => vstd::pervasive::unreached(),
        }
    }

    /// Whether [`Cpu::step`] can execute the instruction at the program
    /// counter.
    pub fn can_step(&self) -> (r: bool)
        ensures
            r == step_defined(self@),
    {
        proof {
            self.lemma_wf();
        }
        let pc = self.pc;
        let mut bytes: Vec<u8> = Vec::new();
        bytes.push(self.memory[pc as usize]);
        bytes.push(
            if pc < 0xffff {
                self.memory[pc as usize + 1]
            } else {
                0
            },
        );
        bytes.push(
            if pc < 0xfffe {
                self.memory[pc as usize + 2]
            } else {
                0
            },
        );
        assert(bytes@ == fetch(self@));
        match Instruction::from_bytes(bytes.as_slice()) {
            Ok(instruction) => {
                let size = instruction.size_in_bytes();
                if pc as u32 + size as u32 > 0xffff {
                    return false;
                }
                let (op, operand) = instruction.parts();
                self.execution_defined_at(pc + size, op, operand)
            },
            Err(_) => false,
        }
    }

    /// Whether executing `op` on `operand` would be defined if the program
    /// counter were `pc`.
    fn execution_defined_at(&self, pc: u16, op: Op, operand: Operand) -> (r: bool)
        ensures
            r == execute_defined(self@.with_pc(pc), op, operand),
    {
        proof {
            self.lemma_wf();
            crate::cpu_model::lemma_operand_ignores_pc(self@, pc, operand);
        }
        let sp = self.sp;
        match op {
            Op::Sbc => {
                let (value, _) = self.operand_value(operand);
                self.is_carry_flag_on() || (value != 127 && value != 255)
            },
            Op::Isb => {
                let (address, _) = self.operand_address(operand);
                self.is_carry_flag_on() || self.memory[address as usize] != 254
            },
            Op::Pha | Op::Php => sp >= 1,
            Op::Jsr => sp >= 2 && pc >= 1,
            Op::Pla | Op::Plp => sp <= 0xfe,
            Op::Rts => {
                if sp > 0xfd {
                    false
                } else {
                    let lo = self.memory[sp as usize + 0x101];
                    let hi = self.memory[sp as usize + 0x102];
                    word_from_le_bytes(lo, hi) != 0xffff
                }
            },
            Op::Rti => sp <= 0xfc,
            Op::Bcc | Op::Bcs | Op::Beq | Op::Bne | Op::Bmi | Op::Bpl | Op::Bvs | Op::Bvc => {
                let offset = match operand {
                    Operand::Relative(o) => o,
                    _ => 0,
                };
                !self.branch_condition(op) || branch_is_defined(pc, offset)
            },
            _ => true,
        }
    }

    /// Executes the instruction at the program counter.
    pub fn step(&mut self) -> (r: CpuResult)
        requires
            step_defined(old(self)@),
        ensures
            result_matches(r, final(self)@, step_outcome(old(self)@)),
    {
        let instruction = self.fetch_instruction();
        let (op, operand) = instruction.parts();
        self.execute(op, operand)
    }

    /// Executes one operation; the program counter already points past the
    /// instruction.
    fn execute(&mut self, op: Op, operand: Operand) -> (r: CpuResult)
        requires
            execute_defined(old(self)@, op, operand),
        ensures
            result_matches(r, final(self)@, execute(old(self)@, op, operand)),
    {
        match op {
            Op::Adc | Op::And | Op::Eor | Op::Ora | Op::Sbc | Op::Cmp | Op::Cpx | Op::Cpy
            | Op::Lda | Op::Ldx | Op::Ldy | Op::Lax | Op::Bit | Op::Nop => {
                self.execute_read(op, operand)
            },
            Op::Sta | Op::Stx | Op::Sty | Op::Sax => self.execute_store(op, operand),
            Op::Asl | Op::Lsr | Op::Rol | Op::Ror | Op::Inc | Op::Dec | Op::Slo | Op::Rla
            | Op::Sre | Op::Rra | Op::Dcp | Op::Isb => self.execute_modify(op, operand),
            Op::Bcc | Op::Bcs | Op::Beq | Op::Bne | Op::Bmi | Op::Bpl | Op::Bvs | Op::Bvc => {
                let offset = match operand {
                    Operand::Relative(o) => o,
                    _ => 0,
                };
                let taken = self.branch_condition(op);
                self.jump_if(taken, offset)
            },
            Op::Jmp | Op::Jsr | Op::Rts | Op::Rti | Op::Pha | Op::Php | Op::Pla | Op::Plp => {
                self.execute_control(op, operand)
            },
            _ => self.execute_register(op),
        }
    }

    fn execute_read(&mut self, op: Op, operand: Operand) -> (r: CpuResult)
        requires
            is_read_op(op),
            execute_defined(old(self)@, op, operand),
        ensures
            result_matches(r, final(self)@, read_outcome(old(self)@, op, operand)),
    {
        let (value, crossed) = self.operand_value(operand);
        let mut side_effect: Option<SideEffect> = None;
        match op {
            Op::Adc => self.adc(value),
            Op::And => self.and(value),
            Op::Eor => self.exor(value),
            Op::Ora => self.or(value),
            Op::Sbc => self.sbc(value),
            Op::Cmp => {
                let a = self.a;
                self.compare(a, value)
            },
            Op::Cpx => {
                let x = self.x;
                self.compare(x, value)
            },
            Op::Cpy => {
                let y = self.y;
                self.compare(y, value)
            },
            Op::Lda => {
                self.a = value;
                self.toggle_zero_negative_flag(value);
                if let Operand::Absolute(0x2002) = operand {
                    self.memory[0x2002] = self.memory[0x2002] & !0x80;
                    side_effect = Some(SideEffect::ClearAddressLatch);
                }
            },
            Op::Ldx => {
                self.x = value;
                self.toggle_zero_negative_flag(value);
            },
            Op::Ldy => {
                self.y = value;
                self.toggle_zero_negative_flag(value);
            },
            Op::Lax => self.lax(value),
            Op::Bit => self.bit(value),
            _ => {},
        }
        CpuResult { cycles_elapsed: read_cycle_count(operand, crossed), side_effect }
    }

    fn execute_store(&mut self, op: Op, operand: Operand) -> (r: CpuResult)
        requires
            is_store_op(op),
        ensures
            result_matches(r, final(self)@, store_outcome(old(self)@, op, operand)),
    {
        let (address, _) = self.operand_address(operand);
        let value = match op {
            Op::Sta => self.a,
            Op::Stx => self.x,
            Op::Sty => self.y,
            _ => self.a & self.x,
        };
        let side_effect = self.set_memory_value(address, value);
        CpuResult { cycles_elapsed: store_cycle_count(operand), side_effect }
    }

    fn execute_modify(&mut self, op: Op, operand: Operand) -> (r: CpuResult)
        requires
            is_modify_op(op),
            execute_defined(old(self)@, op, operand),
        ensures
            result_matches(r, final(self)@, modify_outcome(old(self)@, op, operand)),
    {
        if let Operand::Implied = operand {
            let a = self.a;
            let value = match op {
                Op::Asl => self.asl(a),
                Op::Lsr => self.lsr(a),
                Op::Rol => self.rol(a),
                _ => self.ror(a),
            };
            self.a = value;
            return cycles(2);
        }
        let (address, _) = self.operand_address(operand);
        let side_effect = match op {
            Op::Asl => self.asl_address(address),
            Op::Lsr => self.lsr_address(address),
            Op::Rol => self.rol_address(address),
            Op::Ror => self.ror_address(address),
            Op::Inc => self.inc(address),
            Op::Dec => self.dec(address),
            Op::Slo => self.slo(address),
            Op::Rla => self.rla(address),
            Op::Sre => self.sre(address),
            Op::Rra => self.rra(address),
            Op::Dcp => self.dcp(address),
            _ => self.isb(address),
        };
        CpuResult { cycles_elapsed: modify_cycle_count(operand), side_effect }
    }

    fn execute_control(&mut self, op: Op, operand: Operand) -> (r: CpuResult)
        requires
            is_control_op(op),
            execute_defined(old(self)@, op, operand),
        ensures
            result_matches(r, final(self)@, control_outcome(old(self)@, op, operand)),
    {
        proof {
            self.lemma_wf();
        }
        match op {
            Op::Jmp => match operand {
                Operand::Indirect(address) => {
                    let low_byte = self.memory[address as usize];
                    let high_address = word_from_le_bytes(
                        ((address % 256) as u8).wrapping_add(1),
                        (address / 256) as u8,
                    );
                    let high_byte = self.memory[high_address as usize];
                    self.pc = word_from_le_bytes(low_byte, high_byte);
                    cycles(5)
                },
                Operand::Absolute(address) => {
                    self.pc = address;
                    cycles(3)
                },
                _ => cycles(3),
            },
            Op::Jsr => {
                let target = match operand {
                    Operand::Absolute(address) => address,
                    _ => 0,
                };
                let ret = self.pc - 1;
                self.push((ret / 256) as u8);
                self.push((ret % 256) as u8);
                self.pc = target;
                cycles(6)
            },
            Op::Rts => {
                let low_byte = self.pop();
                let high_byte = self.pop();
                let address = word_from_le_bytes(low_byte, high_byte);
                self.pc = address + 1;
                cycles(6)
            },
            Op::Rti => {
                let p = self.pop();
                self.p = p | 0x20;
                let low_byte = self.pop();
                let high_byte = self.pop();
                self.pc = word_from_le_bytes(low_byte, high_byte);
                cycles(6)
            },
            Op::Pha => {
                let a = self.a;
                self.push(a);
                cycles(3)
            },
            Op::Php => {
                let p = self.p | 0x10;
                self.push(p);
                cycles(3)
            },
            Op::Pla => {
                let value = self.pop();
                self.a = value;
                self.toggle_zero_negative_flag(value);
                cycles(4)
            },
            _ => {
                let value = self.pop();
                self.p = (value & !0x10) | 0x20;
                cycles(4)
            },
        }
    }

    fn execute_register(&mut self, op: Op) -> (r: CpuResult)
        requires
            !is_read_op(op),
            !is_store_op(op),
            !is_modify_op(op),
            !is_branch_op(op),
            !is_control_op(op),
        ensures
            result_matches(r, final(self)@, register_outcome(old(self)@, op)),
    {
        match op {
            Op::Clc => self.set_carry_flag(false),
            Op::Sec => self.set_carry_flag(true),
            Op::Cli => self.set_interrupt_flag(false),
            Op::Sei => self.set_interrupt_flag(true),
            Op::Cld => self.set_decimal_flag(false),
            Op::Sed => self.set_decimal_flag(true),
            Op::Clv => self.set_overflow_flag(false),
            Op::Inx => {
                self.x = self.x.wrapping_add(1);
                let x = self.x;
                self.toggle_zero_negative_flag(x);
            },
            Op::Iny => {
                self.y = self.y.wrapping_add(1);
                let y = self.y;
                self.toggle_zero_negative_flag(y);
            },
            Op::Dex => {
                self.x = self.x.wrapping_sub(1);
                let x = self.x;
                self.toggle_zero_negative_flag(x);
            },
            Op::Dey => {
                self.y = self.y.wrapping_sub(1);
                let y = self.y;
                self.toggle_zero_negative_flag(y);
            },
            Op::Tax => {
                self.x = self.a;
                let x = self.x;
                self.toggle_zero_negative_flag(x);
            },
            Op::Tay => {
                self.y = self.a;
                let y = self.y;
                self.toggle_zero_negative_flag(y);
            },
            Op::Txa => {
                self.a = self.x;
                let a = self.a;
                self.toggle_zero_negative_flag(a);
            },
            Op::Tya => {
                self.a = self.y;
                let a = self.a;
                self.toggle_zero_negative_flag(a);
            },
            Op::Tsx => {
                self.x = self.sp;
                let x = self.x;
                self.toggle_zero_negative_flag(x);
            },
            Op::Txs => {
                self.sp = self.x;
            },
            _ => {
                self.set_break_flag(true);
                return cycles(7);
            },
        }
        cycles(2)
    }

    /// Whether the condition of a branch operation holds.
    fn branch_condition(&self, op: Op) -> (r: bool)
        ensures
            r == crate::cpu_model::branch_taken(op, self@.p),
    {
        match op {
            Op::Bcc => !self.is_carry_flag_on(),
            Op::Bcs => self.is_carry_flag_on(),
            Op::Beq => self.is_zero_flag_on(),
            Op::Bne => !self.is_zero_flag_on(),
            Op::Bmi => self.is_negative_flag_on(),
            Op::Bpl => !self.is_negative_flag_on(),
            Op::Bvs => self.is_overflow_flag_on(),
            _ => !self.is_overflow_flag_on(),
        }
    }

    fn dec(&mut self, address: u16) -> (r: Option<SideEffect>)
        ensures
            final(self)@ == modify_state(old(self)@, Op::Dec, address).0,
            r == write_effect(address, modify_state(old(self)@, Op::Dec, address).1),
    {
        let value = self.memory[address as usize].wrapping_sub(1);
        let side_effect = self.set_memory_value(address, value);
        self.toggle_zero_negative_flag(value);
        side_effect
    }

    fn inc(&mut self, address: u16) -> (r: Option<SideEffect>)
        ensures
            final(self)@ == modify_state(old(self)@, Op::Inc, address).0,
            r == write_effect(address, modify_state(old(self)@, Op::Inc, address).1),
    {
        let value = self.memory[address as usize].wrapping_add(1);
        let side_effect = self.set_memory_value(address, value);
        self.toggle_zero_negative_flag(value);
        side_effect
    }

    fn rra(&mut self, address: u16) -> (r: Option<SideEffect>)
        ensures
            final(self)@ == modify_state(old(self)@, Op::Rra, address).0,
            r == write_effect(address, modify_state(old(self)@, Op::Rra, address).1),
    {
        let side_effect = self.ror_address(address);
        let value = self.memory[address as usize];
        self.adc(value);
        side_effect
    }

    fn sre(&mut self, address: u16) -> (r: Option<SideEffect>)
        ensures
            final(self)@ == modify_state(old(self)@, Op::Sre, address).0,
            r == write_effect(address, modify_state(old(self)@, Op::Sre, address).1),
    {
        let previous = self.memory[address as usize];
        let carry = previous & 1 != 0;
        let value = previous / 2;
        let side_effect = self.set_memory_value(address, value);
        self.a = self.a ^ value;
        let a = self.a;
        self.toggle_zero_negative_flag(a);
        self.set_carry_flag(carry);
        side_effect
    }

    fn rla(&mut self, address: u16) -> (r: Option<SideEffect>)
        ensures
            final(self)@ == modify_state(old(self)@, Op::Rla, address).0,
            r == write_effect(address, modify_state(old(self)@, Op::Rla, address).1),
    {
        let side_effect = self.rol_address(address);
        self.a = self.a & self.memory[address as usize];
        let a = self.a;
        self.toggle_zero_negative_flag(a);
        side_effect
    }

    fn slo(&mut self, address: u16) -> (r: Option<SideEffect>)
        ensures
            final(self)@ == modify_state(old(self)@, Op::Slo, address).0,
            r == write_effect(address, modify_state(old(self)@, Op::Slo, address).1),
    {
        let previous = self.memory[address as usize];
        let carry = previous & 0x80 != 0;
        let value = previous.wrapping_add(previous);
        let side_effect = self.set_memory_value(address, value);
        self.a = self.a | value;
        let a = self.a;
        self.toggle_zero_negative_flag(a);
        self.set_carry_flag(carry);
        side_effect
    }

    #[verifier::spinoff_prover]
    #[verifier::rlimit(40)]
    fn isb(&mut self, address: u16) -> (r: Option<SideEffect>)
        requires
            carry_on(old(self)@.p) || mem(old(self)@, address as int) != 254,
        ensures
            final(self)@ == modify_state(old(self)@, Op::Isb, address).0,
            r == write_effect(address, modify_state(old(self)@, Op::Isb, address).1),
    {
        let ghost s0 = old(self)@;
        let ghost m = mem(s0, address as int);
        let value = self.memory[address as usize].wrapping_add(1);
        assert(value == add8(m as int, 1));
        let side_effect = self.set_memory_value(address, value);
        let ghost s1 = self@;
        assert(s1 == s0.write(address, value));
        let borrow: u8 = if self.is_carry_flag_on() {
            0
        } else {
            1
        };
        assert(borrow == 1 ==> value != 255);
        let subtrahend = value + borrow;
        let a = self.a;
        let result = a.wrapping_sub(subtrahend);
        assert(result == sub8(s0.a as int, subtrahend as int));
        let sub_overflow = a < subtrahend;
        let difference = signed_value(a) - signed_value(value) - borrow as i16;
        assert(difference == signed(s0.a) - (signed(value) + borrow));
        self.toggle_zero_negative_flag(result);
        self.set_carry_flag(!sub_overflow);
        self.set_overflow_flag(!(-128 <= difference && difference <= 127));
        self.a = result;
        assert(self@ == modify_state(s0, Op::Isb, address).0);
        side_effect
    }

    fn dcp(&mut self, address: u16) -> (r: Option<SideEffect>)
        ensures
            final(self)@ == modify_state(old(self)@, Op::Dcp, address).0,
            r == write_effect(address, modify_state(old(self)@, Op::Dcp, address).1),
    {
        let value = self.memory[address as usize].wrapping_sub(1);
        let side_effect = self.set_memory_value(address, value);
        let a = self.a;
        let result = a.wrapping_sub(value);
        let overflow = a < value;
        self.toggle_zero_negative_flag(result);
        self.set_carry_flag(!overflow);
        side_effect
    }

    fn lax(&mut self, value: u8)
        ensures
            final(self)@ == (CpuState { a: value, x: value, p: with_zn(old(self)@.p, value), ..old(self)@ }),
    {
        self.a = value;
        self.x = value;
        self.toggle_zero_negative_flag(value);
    }

    fn bit(&mut self, value: u8)
        ensures
            final(self)@ == crate::cpu_model::bit_test(old(self)@, value),
    {
        self.set_negative_flag(value & 0x80 != 0);
        self.set_overflow_flag(value & 0x40 != 0);
        let a = self.a;
        self.set_zero_flag((value & a) == 0);
    }

    fn zero_page_address(&self, address: u8, offset: u8) -> (r: u8)
        ensures
            r == zp_index(address, offset),
    {
        address.wrapping_add(offset)
    }

    fn zero_page_value(&self, address: u8, offset: u8) -> (r: u8)
        ensures
            r == mem(self@, zp_index(address, offset) as int),
    {
        self.memory[self.zero_page_address(address, offset) as usize]
    }

    fn absolute_address(&self, address: u16, offset: u8) -> (r: (u16, bool))
        ensures
            r == abs_index(address, offset),
    {
        let low = (address % 256) as u8;
        let high = (address / 256) as u8;
        let low_sum = low as u16 + offset as u16;
        let carry1 = low_sum >= 256;
        let high_sum = high as u16 + if carry1 {
            1
        } else {
            0
        };
        let carry2 = high_sum >= 256;
        let result = word_from_le_bytes((low_sum % 256) as u8, (high_sum % 256) as u8);
        (result, carry1 || carry2)
    }

    fn absolute_value(&self, address: u16, offset: u8) -> (r: (u8, bool))
        ensures
            r == (mem(self@, abs_index(address, offset).0 as int), abs_index(address, offset).1),
    {
        let (address, carry) = self.absolute_address(address, offset);
        (self.memory[address as usize], carry)
    }

    fn ror(&mut self, value: u8) -> (r: u8)
        ensures
            r == shifted(Op::Ror, value, carry_on(old(self)@.p)).0,
            final(self)@ == old(self)@.with_p(
                shift_flags(old(self)@.p, r, shifted(Op::Ror, value, carry_on(old(self)@.p)).1),
            ),
    {
        let carry = value & 1 != 0;
        let high: u8 = if self.is_carry_flag_on() {
            128
        } else {
            0
        };
        let result = value / 2 + high;
        self.toggle_zero_negative_flag(result);
        self.set_carry_flag(carry);
        result
    }

    fn ror_address(&mut self, address: u16) -> (r: Option<SideEffect>)
        ensures
            final(self)@ == shift_memory(old(self)@, Op::Ror, address),
            r == write_effect(address, mem(final(self)@, address as int)),
    {
        proof {
            self.lemma_wf();
        }
        let value = self.ror(self.memory[address as usize]);
        self.set_memory_value(address, value)
    }

    fn rol(&mut self, value: u8) -> (r: u8)
        ensures
            r == shifted(Op::Rol, value, carry_on(old(self)@.p)).0,
            final(self)@ == old(self)@.with_p(
                shift_flags(old(self)@.p, r, shifted(Op::Rol, value, carry_on(old(self)@.p)).1),
            ),
    {
        let carry = value & 0x80 != 0;
        let low: u8 = if self.is_carry_flag_on() {
            1
        } else {
            0
        };
        let result = value.wrapping_add(value) + low;
        self.toggle_zero_negative_flag(result);
        self.set_carry_flag(carry);
        result
    }

    fn rol_address(&mut self, address: u16) -> (r: Option<SideEffect>)
        ensures
            final(self)@ == shift_memory(old(self)@, Op::Rol, address),
            r == write_effect(address, mem(final(self)@, address as int)),
    {
        proof {
            self.lemma_wf();
        }
        let value = self.rol(self.memory[address as usize]);
        self.set_memory_value(address, value)
    }

    fn asl(&mut self, value: u8) -> (r: u8)
        ensures
            r == shifted(Op::Asl, value, carry_on(old(self)@.p)).0,
            final(self)@ == old(self)@.with_p(
                shift_flags(old(self)@.p, r, shifted(Op::Asl, value, carry_on(old(self)@.p)).1),
            ),
    {
        let carry = value & 0x80 != 0;
        let result = value.wrapping_add(value);
        self.toggle_zero_negative_flag(result);
        self.set_carry_flag(carry);
        result
    }

    fn asl_address(&mut self, address: u16) -> (r: Option<SideEffect>)
        ensures
            final(self)@ == shift_memory(old(self)@, Op::Asl, address),
            r == write_effect(address, mem(final(self)@, address as int)),
    {
        proof {
            self.lemma_wf();
        }
        let value = self.asl(self.memory[address as usize]);
        self.set_memory_value(address, value)
    }

    fn lsr(&mut self, value: u8) -> (r: u8)
        ensures
            r == shifted(Op::Lsr, value, carry_on(old(self)@.p)).0,
            final(self)@ == old(self)@.with_p(
                shift_flags(old(self)@.p, r, shifted(Op::Lsr, value, carry_on(old(self)@.p)).1),
            ),
    {
        let carry = value & 1 != 0;
        let result = value / 2;
        self.toggle_zero_negative_flag(result);
        self.set_carry_flag(carry);
        result
    }

    fn lsr_address(&mut self, address: u16) -> (r: Option<SideEffect>)
        ensures
            final(self)@ == shift_memory(old(self)@, Op::Lsr, address),
            r == write_effect(address, mem(final(self)@, address as int)),
    {
        proof {
            self.lemma_wf();
        }
        let value = self.lsr(self.memory[address as usize]);
        self.set_memory_value(address, value)
    }

    fn compare(&mut self, register_value: u8, value: u8)
        ensures
            final(self)@ == compare(old(self)@, register_value, value),
    {
        let difference = register_value.wrapping_sub(value);
        let overflow = register_value < value;
        self.set_zero_flag(difference == 0);
        self.set_negative_flag(difference & 0x80 != 0);
        self.set_carry_flag(!overflow);
    }

    fn sbc(&mut self, value: u8)
        requires
            sbc_defined(old(self)@, value),
        ensures
            final(self)@ == sbc(old(self)@, value),
    {
        let borrow: u8 = if self.is_carry_flag_on() {
            0
        } else {
            1
        };
        let subtrahend = value + borrow;
        let a = self.a;
        let result = a.wrapping_sub(subtrahend);
        let not_carry = a < subtrahend;
        let difference = signed_value(a) - (signed_value(value) + borrow as i16);
        self.a = result;
        self.toggle_zero_negative_flag(result);
        self.set_carry_flag(!not_carry);
        self.set_overflow_flag(!(-128 <= difference && difference <= 127));
    }

    fn adc(&mut self, value: u8)
        ensures
            final(self)@ == adc(old(self)@, value),
    {
        let carry_in: u16 = if self.is_carry_flag_on() {
            1
        } else {
            0
        };
        let partial_sum = value as u16 + carry_in;
        let partial = (partial_sum % 256) as u8;
        let partial_carry = partial_sum >= 256;
        let sum = self.a as u16 + partial as u16;
        let result = (sum % 256) as u8;
        let carry = sum >= 256;
        let signed_sum = signed_value(self.a) + signed_value(value) + carry_in as i16;
        self.a = result;
        self.toggle_zero_negative_flag(result);
        self.set_carry_flag(carry || partial_carry);
        self.set_overflow_flag(!(-128 <= signed_sum && signed_sum <= 127));
    }

    fn exor(&mut self, value: u8)
        ensures
            final(self)@ == old(self)@.load_a(old(self)@.a ^ value),
    {
        self.a = self.a ^ value;
        let a = self.a;
        self.toggle_zero_negative_flag(a);
    }

    fn and(&mut self, value: u8)
        ensures
            final(self)@ == old(self)@.load_a(old(self)@.a & value),
    {
        self.a = self.a & value;
        let a = self.a;
        self.toggle_zero_negative_flag(a);
    }

    fn or(&mut self, value: u8)
        ensures
            final(self)@ == old(self)@.load_a(old(self)@.a | value),
    {
        self.a = self.a | value;
        let a = self.a;
        self.toggle_zero_negative_flag(a);
    }

    fn indirect_indexed_address(&self, index: u8) -> (r: (u16, bool))
        ensures
            r == indirect_indexed_addr(self@, index),
    {
        let high_index = index.wrapping_add(1);
        let base = word_from_le_bytes(self.memory[index as usize], self.memory[high_index as usize]);
        self.absolute_address(base, self.y)
    }

    fn indirect_indexed_value(&self, index: u8) -> (r: (u8, bool))
        ensures
            r == (mem(self@, indirect_indexed_addr(self@, index).0 as int), indirect_indexed_addr(
                self@,
                index,
            ).1),
    {
        let (address, overflow) = self.indirect_indexed_address(index);
        (self.memory[address as usize], overflow)
    }

    fn indexed_indirect_address(&self, index: u8) -> (r: u16)
        ensures
            r == indexed_indirect_addr(self@, index),
    {
        let low_addr = index.wrapping_add(self.x);
        let high_addr = low_addr.wrapping_add(1);
        word_from_le_bytes(self.memory[low_addr as usize], self.memory[high_addr as usize])
    }

    fn indexed_indirect_value(&self, index: u8) -> (r: u8)
        ensures
            r == mem(self@, indexed_indirect_addr(self@, index) as int),
    {
        self.memory[self.indexed_indirect_address(index) as usize]
    }

    /// The memory address an operand names, and whether indexing crossed a
    /// page.
    fn operand_address(&self, operand: Operand) -> (r: (u16, bool))
        ensures
            r == operand_address(self@, operand),
    {
        match operand {
            Operand::ZeroPage(a) => (a as u16, false),
            Operand::ZeroPageX(a) => (self.zero_page_address(a, self.x) as u16, false),
            Operand::ZeroPageY(a) => (self.zero_page_address(a, self.y) as u16, false),
            Operand::Absolute(a) => (a, false),
            Operand::AbsoluteX(a) => self.absolute_address(a, self.x),
            Operand::AbsoluteY(a) => self.absolute_address(a, self.y),
            Operand::IndexedIndirect(i) => (self.indexed_indirect_address(i), false),
            Operand::IndirectIndexed(i) => self.indirect_indexed_address(i),
            _ => (0, false),
        }
    }

    /// The value an operand reads, and whether indexing crossed a page.
    fn operand_value(&self, operand: Operand) -> (r: (u8, bool))
        ensures
            r == operand_value(self@, operand),
    {
        match operand {
            Operand::Immediate(v) => (v, false),
            Operand::Implied | Operand::Relative(_) | Operand::Indirect(_) => (0, false),
            _ => {
                let (address, crossed) = self.operand_address(operand);
                (self.memory[address as usize], crossed)
            },
        }
    }

    fn jump_if(&mut self, condition: bool, offset: u8) -> (r: CpuResult)
        requires
            condition ==> branch_defined(old(self)@.pc, offset),
        ensures
            result_matches(r, final(self)@, branch(old(self)@, condition, offset)),
    {
        if condition {
            let pc = self.pc;
            let target = branch_target_of(pc, offset);
            let page_crossed = pc / 256 != target / 256;
            self.pc = target;
            return cycles(
                if page_crossed {
                    4
                } else {
                    3
                },
            );
        }
        cycles(2)
    }

    fn push(&mut self, value: u8)
        requires
            old(self)@.sp >= 1,
        ensures
            final(self)@ == old(self)@.push(value),
    {
        self.memory[self.sp as usize + 0x0100] = value;
        self.sp = self.sp - 1;
    }

    fn pop(&mut self) -> (r: u8)
        requires
            old(self)@.sp <= 0xfe,
        ensures
            final(self)@ == old(self)@.popped(),
            r == old(self)@.top(),
    {
        self.sp = self.sp + 1;
        self.memory[self.sp as usize + 0x0100]
    }

    fn set_negative_flag(&mut self, is_on: bool)
        ensures
            final(self)@ == old(self)@.with_p(set_bit(old(self)@.p, NEGATIVE_BIT, is_on)),
    {
        self.set_p_flag(7, is_on);
    }

    fn set_zero_flag(&mut self, is_on: bool)
        ensures
            final(self)@ == old(self)@.with_p(set_bit(old(self)@.p, ZERO_BIT, is_on)),
    {
        self.set_p_flag(1, is_on);
    }

    /// Turns the break bit off when `is_on` holds.
    fn set_break_flag(&mut self, is_on: bool)
        ensures
            final(self)@ == old(self)@.with_p(
                if is_on {
                    old(self)@.p & !0x10u8
                } else {
                    old(self)@.p
                },
            ),
    {
        let mask: u8 = if is_on {
            0x10
        } else {
            0
        };
        let p = self.p;
        self.p = p & !mask;
        assert(p & !0u8 == p) by (bit_vector);
    }

    fn set_carry_flag(&mut self, is_on: bool)
        ensures
            final(self)@ == old(self)@.with_p(set_bit(old(self)@.p, CARRY_BIT, is_on)),
    {
        self.set_p_flag(0, is_on);
    }

    fn set_overflow_flag(&mut self, is_on: bool)
        ensures
            final(self)@ == old(self)@.with_p(set_bit(old(self)@.p, OVERFLOW_BIT, is_on)),
    {
        self.set_p_flag(6, is_on);
    }

    fn set_decimal_flag(&mut self, is_on: bool)
        ensures
            final(self)@ == old(self)@.with_p(set_bit(old(self)@.p, DECIMAL_BIT, is_on)),
    {
        self.set_p_flag(3, is_on);
    }

    fn set_p_flag(&mut self, bit_offset: u8, is_on: bool)
        requires
            bit_offset < 8,
        ensures
            final(self)@ == old(self)@.with_p(set_bit(old(self)@.p, bit_offset, is_on)),
    {
        let byte: u8 = 1u8 << bit_offset;
        if is_on {
            self.p = self.p | byte;
        } else {
            self.p = self.p & !byte;
        }
    }

    fn set_interrupt_flag(&mut self, is_on: bool)
        ensures
            final(self)@ == old(self)@.with_p(set_bit(old(self)@.p, INTERRUPT_BIT, is_on)),
    {
        self.set_p_flag(2, is_on);
    }

    fn is_overflow_flag_on(&self) -> (r: bool)
        ensures
            r == overflow_on(self@.p),
    {
        self.p & 0x40 != 0
    }

    fn is_negative_flag_on(&self) -> (r: bool)
        ensures
            r == negative_on(self@.p),
    {
        self.p & 0x80 != 0
    }

    fn is_carry_flag_on(&self) -> (r: bool)
        ensures
            r == carry_on(self@.p),
    {
        self.p & 1 != 0
    }

    fn is_zero_flag_on(&self) -> (r: bool)
        ensures
            r == zero_on(self@.p),
    {
        self.p & 2 != 0
    }

    fn toggle_zero_negative_flag(&mut self, value: u8)
        ensures
            final(self)@ == old(self)@.with_p(with_zn(old(self)@.p, value)),
    {
        self.set_negative_flag(value & 0x80 != 0);
        self.set_zero_flag(value == 0);
    }

    /// A CPU with the given memory, starting at `starting_address`.
    pub fn new(memory: MemoryBuffer, starting_address: u16) -> (r: Cpu)
        ensures
            r@ == (CpuState {
                memory: memory@,
                pc: starting_address,
                a: 0,
                x: 0,
                y: 0,
                p: 0x24,
                sp: 0xff,
                nmi_vector: 0,
                reset_vector: 0,
                irq_vector: 0,
            }),
    {
        Cpu {
            memory: memory,
            pc: starting_address,
            a: 0,
            x: 0,
            y: 0,
            p: 0x24,
            sp: 0xff,
            nmi_vector: 0,
            reset_vector: 0,
            irq_vector: 0,
        }
    }

    /// A CPU whose memory holds the cartridge's program at 0x8000 (and
    /// again at 0xc000 when the program is 16 KiB), starting at the reset
    /// vector.
    pub fn load(rom: &Cartridge) -> (r: Cpu)
        requires
            rom.prg_rom().len() <= 0x8000,
        ensures
            r@.memory == loaded_memory(rom.prg_rom()),
            r@.pc == r@.reset_vector,
            r@.reset_vector == le_word(r@.memory[0xfffc], r@.memory[0xfffd]),
            r@.nmi_vector == le_word(r@.memory[0xfffa], r@.memory[0xfffb]),
            r@.irq_vector == le_word(r@.memory[0xfffe], r@.memory[0xffff]),
            r@.a == 0 && r@.x == 0 && r@.y == 0,
            r@.p == 0x24,
            r@.sp == 0xff,
    {
        let prg = rom.prg_rom_data();
        let len = prg.len();
        let mut memory = [0u8; 0x10000];
        let mut i: usize = 0;
        while i < len
            invariant
                len == prg@.len(),
                len <= 0x8000,
                i <= len,
                memory@.len() == 0x10000,
                forall|j: int|
                    0 <= j < 0x10000 ==> #[trigger] memory@[j] == if 0x8000 <= j < 0x8000 + i {
                        prg@[j - 0x8000]
                    } else {
                        0u8
                    },
            decreases len - i,
        {
            memory[0x8000 + i] = prg[i];
            i = i + 1;
        }
        if len == 0x4000 {
            let mut k: usize = 0;
            while k < 0x4000
                invariant
                    len == prg@.len(),
                    len == 0x4000,
                    k <= 0x4000,
                    memory@.len() == 0x10000,
                    forall|j: int|
                        0 <= j < 0x10000 ==> #[trigger] memory@[j] == if 0x8000 <= j < 0xc000 {
                            prg@[j - 0x8000]
                        } else if 0xc000 <= j < 0xc000 + k {
                            prg@[j - 0xc000]
                        } else {
                            0u8
                        },
                decreases 0x4000 - k,
            {
                memory[0xc000 + k] = prg[k];
                k = k + 1;
            }
        }
        assert(memory@ == loaded_memory(prg@));

        let reset_vector = word_from_le_bytes(memory[0xfffc], memory[0xfffd]);
        let nmi_vector = word_from_le_bytes(memory[0xfffa], memory[0xfffb]);
        let irq_vector = word_from_le_bytes(memory[0xfffe], memory[0xffff]);

        Cpu {
            memory,
            pc: reset_vector,
            a: 0,
            x: 0,
            y: 0,
            p: 0x24,
            sp: 0xff,
            nmi_vector,
            reset_vector,
            irq_vector,
        }
    }

    /// The CPU's memory.
    pub fn get_memory_buffer(&self) -> (r: &MemoryBuffer)
        ensures
            r@ == self@.memory,
    {
        &self.memory
    }

    /// The program counter.
    pub fn pc(&self) -> (r: u16)
        ensures
            r == self@.pc,
    {
        self.pc
    }

    /// The registers A, X, Y, P and SP.
    pub fn registers(&self) -> (r: (u8, u8, u8, u8, u8))
        ensures
            r == (self@.a, self@.x, self@.y, self@.p, self@.sp),
    {
        (self.a, self.x, self.y, self.p, self.sp)
    }
}

/// The exec form of [`branch_is_defined`]'s spec.
fn branch_is_defined(pc: u16, offset: u8) -> (r: bool)
    ensures
        r == branch_defined(pc, offset),
{
    let target = pc as i32 + signed_value(offset) as i32;
    if pc < 0x8000 {
        target <= 0x7fff
    } else {
        target >= 0x8000
    }
}

/// The address a taken branch from `pc` by `offset` goes to.
fn branch_target_of(pc: u16, offset: u8) -> (r: u16)
    ensures
        r == crate::cpu_model::branch_target(pc, offset),
{
    let target = pc as i32 + signed_value(offset) as i32 + 0x10000;
    (target % 0x10000) as u16
}

/// Cycles of an instruction that reads its operand.
fn read_cycle_count(operand: Operand, crossed: bool) -> (r: u32)
    ensures
        r == read_cycles(operand, crossed),
{
    match operand {
        Operand::Immediate(_) | Operand::Implied => 2,
        Operand::ZeroPage(_) => 3,
        Operand::ZeroPageX(_) | Operand::ZeroPageY(_) | Operand::Absolute(_) => 4,
        Operand::AbsoluteX(_) | Operand::AbsoluteY(_) => if crossed {
            5
        } else {
            4
        },
        Operand::IndexedIndirect(_) => 6,
        Operand::IndirectIndexed(_) => if crossed {
            6
        } else {
            5
        },
        _ => 2,
    }
}

/// Cycles of a store.
fn store_cycle_count(operand: Operand) -> (r: u32)
    ensures
        r == store_cycles(operand),
{
    match operand {
        Operand::ZeroPage(_) => 3,
        Operand::ZeroPageX(_) | Operand::ZeroPageY(_) | Operand::Absolute(_) => 4,
        Operand::AbsoluteX(_) | Operand::AbsoluteY(_) => 5,
        _ => 6,
    }
}

/// Cycles of a read-modify-write instruction.
fn modify_cycle_count(operand: Operand) -> (r: u32)
    ensures
        r == modify_cycles(operand),
{
    match operand {
        Operand::Implied => 2,
        Operand::ZeroPage(_) => 5,
        Operand::ZeroPageX(_) | Operand::Absolute(_) => 6,
        Operand::AbsoluteX(_) | Operand::AbsoluteY(_) => 7,
        _ => 8,
    }
}

} // verus!
