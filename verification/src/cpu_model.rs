//! The mathematical model of the 6502 core: its state, the meaning of each
//! operation on that state, and the facts that hold of them.

use vstd::prelude::*;

use crate::cpu::SideEffect;
use crate::instruction::{byte_at, decode, le_word, Instruction, Op, Operand};

verus! {

/// The state of the CPU: its 64 KiB of memory and its registers.
pub struct CpuState {
    pub memory: Seq<u8>,
    pub pc: u16,
    pub a: u8,
    pub x: u8,
    pub y: u8,
    pub p: u8,
    pub sp: u8,
    pub nmi_vector: u16,
    pub reset_vector: u16,
    pub irq_vector: u16,
}

/// What one instruction does: the state after it, the cycles it takes, and
/// the write that the PPU has to see.
pub struct Outcome {
    pub state: CpuState,
    pub cycles: u32,
    pub effect: Option<SideEffect>,
}

// Status register bits.
pub const CARRY_BIT: u8 = 0;

pub const ZERO_BIT: u8 = 1;

pub const INTERRUPT_BIT: u8 = 2;

pub const DECIMAL_BIT: u8 = 3;

pub const BREAK_BIT: u8 = 4;

pub const OVERFLOW_BIT: u8 = 6;

pub const NEGATIVE_BIT: u8 = 7;

/// `p` with bit `bit` set to `on`.
pub open spec fn set_bit(p: u8, bit: u8, on: bool) -> u8 {
    if on {
        p | (1u8 << bit)
    } else {
        p & !(1u8 << bit)
    }
}

/// Whether bit `bit` of `p` is set.
pub open spec fn bit_set(p: u8, bit: u8) -> bool {
    p & (1u8 << bit) != 0
}

/// `p` with the negative and zero flags describing `v`.
pub open spec fn with_zn(p: u8, v: u8) -> u8 {
    set_bit(set_bit(p, NEGATIVE_BIT, v & 0x80 != 0), ZERO_BIT, v == 0)
}

pub open spec fn carry_on(p: u8) -> bool {
    p & 1 != 0
}

pub open spec fn zero_on(p: u8) -> bool {
    p & 2 != 0
}

pub open spec fn overflow_on(p: u8) -> bool {
    p & 0x40 != 0
}

pub open spec fn negative_on(p: u8) -> bool {
    p & 0x80 != 0
}

/// The value of a byte read as a two's complement number.
pub open spec fn signed(v: u8) -> int {
    if v >= 128 {
        v - 256
    } else {
        v as int
    }
}

/// Whether `x` fits in a signed byte.
pub open spec fn fits_i8(x: int) -> bool {
    -128 <= x <= 127
}

/// `a + b`, wrapped to a byte.
pub open spec fn add8(a: int, b: int) -> u8 {
    ((a + b) % 256) as u8
}

/// `a - b`, wrapped to a byte.
pub open spec fn sub8(a: int, b: int) -> u8 {
    ((a - b) % 256) as u8
}

/// Zero-page index `base + offset`, wrapped within the zero page.
pub open spec fn zp_index(base: u8, offset: u8) -> u8 {
    add8(base as int, offset as int)
}

/// `base + offset` in the 16-bit address space, and whether the sum leaves
/// the page of `base`.
pub open spec fn abs_index(base: u16, offset: u8) -> (u16, bool) {
    (((base + offset) % 0x10000) as u16, (base % 256) + offset >= 256)
}

/// The byte at `addr`.
pub open spec fn mem(s: CpuState, addr: int) -> u8 {
    s.memory[addr]
}

impl CpuState {
    pub open spec fn wf(self) -> bool {
        self.memory.len() == 0x10000
    }

    pub open spec fn with_p(self, p: u8) -> CpuState {
        CpuState { p, ..self }
    }

    pub open spec fn with_pc(self, pc: u16) -> CpuState {
        CpuState { pc, ..self }
    }

    pub open spec fn write(self, addr: u16, v: u8) -> CpuState {
        CpuState { memory: self.memory.update(addr as int, v), ..self }
    }

    /// Loads `v` into the accumulator and sets N and Z from it.
    pub open spec fn load_a(self, v: u8) -> CpuState {
        CpuState { a: v, p: with_zn(self.p, v), ..self }
    }

    /// Pushes `v` on the stack in page one.
    pub open spec fn push(self, v: u8) -> CpuState {
        CpuState {
            memory: self.memory.update(0x100 + self.sp, v),
            sp: (self.sp - 1) as u8,
            ..self
        }
    }

    /// The stack after a pop.
    pub open spec fn popped(self) -> CpuState {
        CpuState { sp: (self.sp + 1) as u8, ..self }
    }

    /// The byte that a pop returns.
    pub open spec fn top(self) -> u8 {
        self.memory[0x100 + self.sp + 1]
    }
}

/// The PPU-visible effect of writing `v` at `addr`.
pub open spec fn write_effect(addr: u16, v: u8) -> Option<SideEffect> {
    if addr == 0x2003 {
        Some(SideEffect::WriteOamAddr(v))
    } else if addr == 0x2004 {
        Some(SideEffect::WriteOamData(v))
    } else if addr == 0x4014 {
        Some(SideEffect::OamDma(v))
    } else if addr == 0x2006 {
        Some(SideEffect::WritePpuAddr(v))
    } else if addr == 0x2007 {
        Some(SideEffect::WritePpuData(v))
    } else if addr == 0x2000 {
        Some(SideEffect::SetPpuControl(v))
    } else {
        None
    }
}

/// The address that `(zp,X)` reads from.
pub open spec fn indexed_indirect_addr(s: CpuState, index: u8) -> u16 {
    let lo = zp_index(index, s.x);
    le_word(mem(s, lo as int), mem(s, zp_index(lo, 1) as int))
}

/// The address that `(zp),Y` reads from, and whether adding `Y` crossed a page.
pub open spec fn indirect_indexed_addr(s: CpuState, index: u8) -> (u16, bool) {
    abs_index(le_word(mem(s, index as int), mem(s, zp_index(index, 1) as int)), s.y)
}

/// The memory address an operand names, and whether indexing crossed a page.
pub open spec fn operand_address(s: CpuState, operand: Operand) -> (u16, bool) {
    match operand {
        Operand::ZeroPage(a) => (a as u16, false),
        Operand::ZeroPageX(a) => (zp_index(a, s.x) as u16, false),
        Operand::ZeroPageY(a) => (zp_index(a, s.y) as u16, false),
        Operand::Absolute(a) => (a, false),
        Operand::AbsoluteX(a) => abs_index(a, s.x),
        Operand::AbsoluteY(a) => abs_index(a, s.y),
        Operand::IndexedIndirect(i) => (indexed_indirect_addr(s, i), false),
        Operand::IndirectIndexed(i) => indirect_indexed_addr(s, i),
        _ => (0, false),
    }
}

/// The value an operand reads, and whether indexing crossed a page.
pub open spec fn operand_value(s: CpuState, operand: Operand) -> (u8, bool) {
    match operand {
        Operand::Immediate(v) => (v, false),
        Operand::Implied | Operand::Relative(_) | Operand::Indirect(_) => (0, false),
        _ => {
            let (addr, crossed) = operand_address(s, operand);
            (mem(s, addr as int), crossed)
        },
    }
}

/// Cycles of an instruction that reads its operand.
pub open spec fn read_cycles(operand: Operand, crossed: bool) -> u32 {
    match operand {
        Operand::Immediate(_) | Operand::Implied => 2,
        Operand::ZeroPage(_) => 3,
        Operand::ZeroPageX(_) | Operand::ZeroPageY(_) | Operand::Absolute(_) => 4,
        Operand::AbsoluteX(_) | Operand::AbsoluteY(_) => if crossed {
            5
        } else {
            4
        },
        Operand::IndexedIndirect(_) => 6,
        Operand::IndirectIndexed(_) => if crossed {
            6
        } else {
            5
        },
        _ => 2,
    }
}

/// Cycles of a store.
pub open spec fn store_cycles(operand: Operand) -> u32 {
    match operand {
        Operand::ZeroPage(_) => 3,
        Operand::ZeroPageX(_) | Operand::ZeroPageY(_) | Operand::Absolute(_) => 4,
        Operand::AbsoluteX(_) | Operand::AbsoluteY(_) => 5,
        _ => 6,
    }
}

/// Cycles of a read-modify-write instruction.
pub open spec fn modify_cycles(operand: Operand) -> u32 {
    match operand {
        Operand::Implied => 2,
        Operand::ZeroPage(_) => 5,
        Operand::ZeroPageX(_) | Operand::Absolute(_) => 6,
        Operand::AbsoluteX(_) | Operand::AbsoluteY(_) => 7,
        _ => 8,
    }
}

// Arithmetic.
/// ADC: the accumulator plus `v` plus the carry.
pub open spec fn adc(s: CpuState, v: u8) -> CpuState {
    let c: int = if carry_on(s.p) {
        1
    } else {
        0
    };
    let partial = add8(v as int, c);
    let partial_carry = v + c >= 256;
    let result = add8(s.a as int, partial as int);
    let result_carry = s.a + partial >= 256;
    let overflow = !fits_i8(signed(s.a) + signed(v) + c);
    let p = set_bit(
        set_bit(with_zn(s.p, result), CARRY_BIT, result_carry || partial_carry),
        OVERFLOW_BIT,
        overflow,
    );
    CpuState { a: result, p, ..s }
}

/// SBC is defined when `v` plus the borrow fits in a byte and in a signed byte.
pub open spec fn sbc_defined(s: CpuState, v: u8) -> bool {
    carry_on(s.p) || (v != 127 && v != 255)
}

/// SBC: the accumulator minus `v` minus the borrow.
pub open spec fn sbc(s: CpuState, v: u8) -> CpuState {
    let borrow: int = if carry_on(s.p) {
        0
    } else {
        1
    };
    let subtrahend = v + borrow;
    let result = sub8(s.a as int, subtrahend);
    let overflow = !fits_i8(signed(s.a) - (signed(v) + borrow));
    let p = set_bit(
        set_bit(with_zn(s.p, result), CARRY_BIT, s.a >= subtrahend),
        OVERFLOW_BIT,
        overflow,
    );
    CpuState { a: result, p, ..s }
}

/// CMP, CPX, CPY: flags of `register - v`.
pub open spec fn compare(s: CpuState, register: u8, v: u8) -> CpuState {
    let d = sub8(register as int, v as int);
    s.with_p(
        set_bit(
            set_bit(set_bit(s.p, ZERO_BIT, d == 0), NEGATIVE_BIT, d & 0x80 != 0),
            CARRY_BIT,
            register >= v,
        ),
    )
}

/// BIT: N and V from `v`, Z from `v & A`.
pub open spec fn bit_test(s: CpuState, v: u8) -> CpuState {
    s.with_p(
        set_bit(
            set_bit(set_bit(s.p, NEGATIVE_BIT, v & 0x80 != 0), OVERFLOW_BIT, v & 0x40 != 0),
            ZERO_BIT,
            v & s.a == 0,
        ),
    )
}

/// The shift and rotate operations on a byte: the new byte and the carry out.
pub open spec fn shifted(op: Op, v: u8, carry_in: bool) -> (u8, bool) {
    match op {
        Op::Asl => (add8(v as int, v as int), v & 0x80 != 0),
        Op::Lsr => ((v / 2) as u8, v & 1 != 0),
        Op::Rol => (
            (add8(v as int, v as int) + if carry_in {
                1int
            } else {
                0
            }) as u8,
            v & 0x80 != 0,
        ),
        _ => (
            (v / 2 + if carry_in {
                128int
            } else {
                0
            }) as u8,
            v & 1 != 0,
        ),
    }
}

/// The status register after a shift or rotate produced `result` and `carry`.
pub open spec fn shift_flags(p: u8, result: u8, carry: bool) -> u8 {
    set_bit(with_zn(p, result), CARRY_BIT, carry)
}

/// A shift or rotate of memory at `addr`.
pub open spec fn shift_memory(s: CpuState, op: Op, addr: u16) -> CpuState {
    let (v, c) = shifted(op, mem(s, addr as int), carry_on(s.p));
    s.with_p(shift_flags(s.p, v, c)).write(addr, v)
}

/// Whether a branch from `pc` by `offset` is defined: the sum of the
/// address, read as a signed 16-bit number, and the offset must not overflow.
pub open spec fn branch_defined(pc: u16, offset: u8) -> bool {
    let target = pc + signed(offset);
    (pc < 0x8000 ==> target <= 0x7fff) && (pc >= 0x8000 ==> target >= 0x8000)
}

/// The address a taken branch from `pc` by `offset` goes to.
pub open spec fn branch_target(pc: u16, offset: u8) -> u16 {
    ((pc + signed(offset) + 0x10000) % 0x10000) as u16
}

/// A conditional branch.
pub open spec fn branch(s: CpuState, taken: bool, offset: u8) -> Outcome {
    if taken {
        let target = branch_target(s.pc, offset);
        let crossed = s.pc / 256 != target / 256;
        Outcome {
            state: s.with_pc(target),
            cycles: if crossed {
                4
            } else {
                3
            },
            effect: None,
        }
    } else {
        Outcome { state: s, cycles: 2, effect: None }
    }
}

/// Whether the branch operation's condition holds.
pub open spec fn branch_taken(op: Op, p: u8) -> bool {
    match op {
        Op::Bcc => !carry_on(p),
        Op::Bcs => carry_on(p),
        Op::Beq => zero_on(p),
        Op::Bne => !zero_on(p),
        Op::Bmi => negative_on(p),
        Op::Bpl => !negative_on(p),
        Op::Bvs => overflow_on(p),
        _ => !overflow_on(p),
    }
}

/// The address `JMP (addr)` jumps to; the high byte is read from the same page.
pub open spec fn jump_indirect_target(s: CpuState, addr: u16) -> u16 {
    let hi_addr = le_word(add8((addr % 256) as int, 1), (addr / 256) as u8);
    le_word(mem(s, addr as int), mem(s, hi_addr as int))
}

/// Operations that read their operand and change registers.
pub open spec fn is_read_op(op: Op) -> bool {
    match op {
        Op::Adc | Op::And | Op::Eor | Op::Ora | Op::Sbc | Op::Cmp | Op::Cpx | Op::Cpy | Op::Lda
        | Op::Ldx | Op::Ldy | Op::Lax | Op::Bit | Op::Nop => true,
        _ => false,
    }
}

/// Operations that store a register.
pub open spec fn is_store_op(op: Op) -> bool {
    match op {
        Op::Sta | Op::Stx | Op::Sty | Op::Sax => true,
        _ => false,
    }
}

/// Operations that read, change and write back a byte.
pub open spec fn is_modify_op(op: Op) -> bool {
    match op {
        Op::Asl | Op::Lsr | Op::Rol | Op::Ror | Op::Inc | Op::Dec | Op::Slo | Op::Rla | Op::Sre
        | Op::Rra | Op::Dcp | Op::Isb => true,
        _ => false,
    }
}

/// The state after a read operation on value `v`.
pub open spec fn read_state(s: CpuState, op: Op, operand: Operand, v: u8) -> CpuState {
    match op {
        Op::Adc => adc(s, v),
        Op::And => s.load_a(s.a & v),
        Op::Eor => s.load_a(s.a ^ v),
        Op::Ora => s.load_a(s.a | v),
        Op::Sbc => sbc(s, v),
        Op::Cmp => compare(s, s.a, v),
        Op::Cpx => compare(s, s.x, v),
        Op::Cpy => compare(s, s.y, v),
        Op::Lda => if operand == Operand::Absolute(0x2002) {
            s.load_a(v).write(0x2002, v & !0x80u8)
        } else {
            s.load_a(v)
        },
        Op::Ldx => CpuState { x: v, p: with_zn(s.p, v), ..s },
        Op::Ldy => CpuState { y: v, p: with_zn(s.p, v), ..s },
        Op::Lax => CpuState { a: v, x: v, p: with_zn(s.p, v), ..s },
        Op::Bit => bit_test(s, v),
        _ => s,
    }
}

/// The outcome of a read operation.
pub open spec fn read_outcome(s: CpuState, op: Op, operand: Operand) -> Outcome {
    let (v, crossed) = operand_value(s, operand);
    Outcome {
        state: read_state(s, op, operand, v),
        cycles: read_cycles(operand, crossed),
        effect: if op == Op::Lda && operand == Operand::Absolute(0x2002) {
            Some(SideEffect::ClearAddressLatch)
        } else {
            None
        },
    }
}

/// The byte a store writes.
pub open spec fn stored_value(s: CpuState, op: Op) -> u8 {
    match op {
        Op::Sta => s.a,
        Op::Stx => s.x,
        Op::Sty => s.y,
        _ => s.a & s.x,
    }
}

/// The outcome of a store.
pub open spec fn store_outcome(s: CpuState, op: Op, operand: Operand) -> Outcome {
    let addr = operand_address(s, operand).0;
    let v = stored_value(s, op);
    Outcome { state: s.write(addr, v), cycles: store_cycles(operand), effect: write_effect(addr, v) }
}

/// The state after a read-modify-write operation on memory at `addr`, and
/// the byte it wrote there.
pub open spec fn modify_state(s: CpuState, op: Op, addr: u16) -> (CpuState, u8) {
    let m = mem(s, addr as int);
    match op {
        Op::Asl | Op::Lsr | Op::Rol | Op::Ror => {
            let t = shift_memory(s, op, addr);
            (t, mem(t, addr as int))
        },
        Op::Inc => {
            let v = add8(m as int, 1);
            (s.write(addr, v).with_p(with_zn(s.p, v)), v)
        },
        Op::Dec => {
            let v = sub8(m as int, 1);
            (s.write(addr, v).with_p(with_zn(s.p, v)), v)
        },
        Op::Slo => {
            let v = add8(m as int, m as int);
            let t = s.write(addr, v).load_a(s.a | v);
            (t.with_p(set_bit(t.p, CARRY_BIT, m & 0x80 != 0)), v)
        },
        Op::Rla => {
            let t = shift_memory(s, Op::Rol, addr);
            let v = mem(t, addr as int);
            (t.load_a(t.a & v), v)
        },
        Op::Sre => {
            let v = (m / 2) as u8;
            let t = s.write(addr, v).load_a(s.a ^ v);
            (t.with_p(set_bit(t.p, CARRY_BIT, m & 1 != 0)), v)
        },
        Op::Rra => {
            let t = shift_memory(s, Op::Ror, addr);
            let v = mem(t, addr as int);
            (adc(t, v), v)
        },
        Op::Dcp => {
            let v = sub8(m as int, 1);
            let t = s.write(addr, v);
            let d = sub8(s.a as int, v as int);
            (t.with_p(set_bit(with_zn(t.p, d), CARRY_BIT, s.a >= v)), v)
        },
        _ => {
            // ISB
            let v = add8(m as int, 1);
            let borrow: int = if carry_on(s.p) {
                0
            } else {
                1
            };
            let subtrahend = v + borrow;
            let result = sub8(s.a as int, subtrahend);
            let p = set_bit(
                set_bit(with_zn(s.p, result), CARRY_BIT, s.a >= subtrahend),
                OVERFLOW_BIT,
                !fits_i8(signed(s.a) - (signed(v) + borrow)),
            );
            (CpuState { a: result, p, ..s.write(addr, v) }, v)
        },
    }
}

/// The outcome of a read-modify-write operation.
pub open spec fn modify_outcome(s: CpuState, op: Op, operand: Operand) -> Outcome {
    if operand == Operand::Implied {
        let (v, c) = shifted(op, s.a, carry_on(s.p));
        Outcome { state: CpuState { a: v, p: shift_flags(s.p, v, c), ..s }, cycles: 2, effect: None }
    } else {
        let addr = operand_address(s, operand).0;
        let (t, v) = modify_state(s, op, addr);
        Outcome { state: t, cycles: modify_cycles(operand), effect: write_effect(addr, v) }
    }
}

/// The outcome of the operations that touch neither an operand in memory
/// nor the stack.
pub open spec fn register_outcome(s: CpuState, op: Op) -> Outcome {
    let state = match op {
        Op::Clc => s.with_p(set_bit(s.p, CARRY_BIT, false)),
        Op::Sec => s.with_p(set_bit(s.p, CARRY_BIT, true)),
        Op::Cli => s.with_p(set_bit(s.p, INTERRUPT_BIT, false)),
        Op::Sei => s.with_p(set_bit(s.p, INTERRUPT_BIT, true)),
        Op::Cld => s.with_p(set_bit(s.p, DECIMAL_BIT, false)),
        Op::Sed => s.with_p(set_bit(s.p, DECIMAL_BIT, true)),
        Op::Clv => s.with_p(set_bit(s.p, OVERFLOW_BIT, false)),
        Op::Inx => CpuState { x: add8(s.x as int, 1), p: with_zn(s.p, add8(s.x as int, 1)), ..s },
        Op::Iny => CpuState { y: add8(s.y as int, 1), p: with_zn(s.p, add8(s.y as int, 1)), ..s },
        Op::Dex => CpuState { x: sub8(s.x as int, 1), p: with_zn(s.p, sub8(s.x as int, 1)), ..s },
        Op::Dey => CpuState { y: sub8(s.y as int, 1), p: with_zn(s.p, sub8(s.y as int, 1)), ..s },
        Op::Tax => CpuState { x: s.a, p: with_zn(s.p, s.a), ..s },
        Op::Tay => CpuState { y: s.a, p: with_zn(s.p, s.a), ..s },
        Op::Txa => s.load_a(s.x),
        Op::Tya => s.load_a(s.y),
        Op::Tsx => CpuState { x: s.sp, p: with_zn(s.p, s.sp), ..s },
        Op::Txs => CpuState { sp: s.x, ..s },
        // BRK clears the break bit.
        _ => s.with_p(s.p & !0x10u8),
    };
    Outcome { state, cycles: if op == Op::Brk {
        7
    } else {
        2
    }, effect: None }
}

/// The outcome of jumps, subroutine calls and returns, and stack operations.
pub open spec fn control_outcome(s: CpuState, op: Op, operand: Operand) -> Outcome {
    match op {
        Op::Jmp => match operand {
            Operand::Indirect(a) => Outcome {
                state: s.with_pc(jump_indirect_target(s, a)),
                cycles: 5,
                effect: None,
            },
            Operand::Absolute(a) => Outcome { state: s.with_pc(a), cycles: 3, effect: None },
            _ => Outcome { state: s, cycles: 3, effect: None },
        },
        Op::Jsr => {
            let ret = (s.pc - 1) as u16;
            let target = match operand {
                Operand::Absolute(a) => a,
                _ => 0,
            };
            Outcome {
                state: s.push((ret / 256) as u8).push((ret % 256) as u8).with_pc(target),
                cycles: 6,
                effect: None,
            }
        },
        Op::Rts => {
            let t1 = s.popped();
            let t2 = t1.popped();
            Outcome {
                state: t2.with_pc((le_word(s.top(), t1.top()) + 1) as u16),
                cycles: 6,
                effect: None,
            }
        },
        Op::Rti => {
            let t1 = s.popped();
            let t2 = t1.popped();
            let t3 = t2.popped();
            Outcome {
                state: t3.with_p(s.top() | 0x20u8).with_pc(le_word(t1.top(), t2.top())),
                cycles: 6,
                effect: None,
            }
        },
        Op::Pha => Outcome { state: s.push(s.a), cycles: 3, effect: None },
        Op::Php => Outcome { state: s.push(s.p | 0x10u8), cycles: 3, effect: None },
        Op::Pla => Outcome { state: s.popped().load_a(s.top()), cycles: 4, effect: None },
        _ => Outcome {
            // PLP
            state: s.popped().with_p((s.top() & !0x10u8) | 0x20u8),
            cycles: 4,
            effect: None,
        },
    }
}

/// Whether an operation is a conditional branch.
pub open spec fn is_branch_op(op: Op) -> bool {
    match op {
        Op::Bcc | Op::Bcs | Op::Beq | Op::Bne | Op::Bmi | Op::Bpl | Op::Bvs | Op::Bvc => true,
        _ => false,
    }
}

/// Whether an operation uses the stack or moves the program counter
/// unconditionally.
pub open spec fn is_control_op(op: Op) -> bool {
    match op {
        Op::Jmp | Op::Jsr | Op::Rts | Op::Rti | Op::Pha | Op::Php | Op::Pla | Op::Plp => true,
        _ => false,
    }
}

/// What executing operation `op` on `operand` does from state `s`, whose
/// program counter already points past the instruction.
pub open spec fn execute(s: CpuState, op: Op, operand: Operand) -> Outcome {
    match op {
        Op::Adc | Op::And | Op::Eor | Op::Ora | Op::Sbc | Op::Cmp | Op::Cpx | Op::Cpy | Op::Lda
        | Op::Ldx | Op::Ldy | Op::Lax | Op::Bit | Op::Nop => read_outcome(s, op, operand),
        Op::Sta | Op::Stx | Op::Sty | Op::Sax => store_outcome(s, op, operand),
        Op::Asl | Op::Lsr | Op::Rol | Op::Ror | Op::Inc | Op::Dec | Op::Slo | Op::Rla | Op::Sre
        | Op::Rra | Op::Dcp | Op::Isb => modify_outcome(s, op, operand),
        Op::Bcc | Op::Bcs | Op::Beq | Op::Bne | Op::Bmi | Op::Bpl | Op::Bvs | Op::Bvc => branch(
            s,
            branch_taken(op, s.p),
            match operand {
                Operand::Relative(o) => o,
                _ => 0,
            },
        ),
        Op::Jmp | Op::Jsr | Op::Rts | Op::Rti | Op::Pha | Op::Php | Op::Pla | Op::Plp => {
            control_outcome(s, op, operand)
        },
        _ => register_outcome(s, op),
    }
}

/// Whether executing `op` on `operand` from `s` stays within the arithmetic
/// the emulator defines: no stack overflow or underflow, no return to
/// address 0x10000, no branch across the signed 16-bit boundary, and no
/// subtraction whose operand and borrow overflow.
pub open spec fn execute_defined(s: CpuState, op: Op, operand: Operand) -> bool {
    match op {
        Op::Sbc => sbc_defined(s, operand_value(s, operand).0),
        Op::Isb => carry_on(s.p) || mem(s, operand_address(s, operand).0 as int) != 254,
        Op::Pha | Op::Php => s.sp >= 1,
        Op::Jsr => s.sp >= 2 && s.pc >= 1,
        Op::Pla | Op::Plp => s.sp <= 0xfe,
        Op::Rts => s.sp <= 0xfd && le_word(s.top(), s.popped().top()) != 0xffff,
        Op::Rti => s.sp <= 0xfc,
        Op::Bcc | Op::Bcs | Op::Beq | Op::Bne | Op::Bmi | Op::Bpl | Op::Bvs | Op::Bvc => {
            branch_taken(op, s.p) ==> branch_defined(
                s.pc,
                match operand {
                    Operand::Relative(o) => o,
                    _ => 0,
                },
            )
        },
        _ => true,
    }
}

/// The operand of an instruction names the same address and value
/// whatever the program counter.
pub proof fn lemma_operand_ignores_pc(s: CpuState, pc: u16, operand: Operand)
    ensures
        operand_address(s.with_pc(pc), operand) == operand_address(s, operand),
        operand_value(s.with_pc(pc), operand) == operand_value(s, operand),
{
}

/// The three bytes at `pc`, with zeros past the end of memory.
pub open spec fn fetch(s: CpuState) -> Seq<u8> {
    seq![mem(s, s.pc as int), byte_at(s.memory, s.pc + 1), byte_at(s.memory, s.pc + 2)]
}

/// The instruction at `pc`.
pub open spec fn current_instruction(s: CpuState) -> Instruction {
    decode(fetch(s))->Ok_0
}

/// The state once the instruction at `pc` has been read.
pub open spec fn after_fetch(s: CpuState) -> CpuState {
    s.with_pc((s.pc + current_instruction(s).size()) as u16)
}

/// Whether the CPU can execute the instruction at `pc`: the opcode is
/// known, the instruction ends below address 0xffff, and its execution is
/// defined.
pub open spec fn step_defined(s: CpuState) -> bool {
    let i = current_instruction(s);
    &&& s.wf()
    &&& decode(fetch(s)) is Ok
    &&& s.pc + i.size() <= 0xffff
    &&& execute_defined(after_fetch(s), i.spec_parts().0, i.spec_parts().1)
}

/// What one step of the CPU does.
pub open spec fn step_outcome(s: CpuState) -> Outcome {
    let i = current_instruction(s);
    execute(after_fetch(s), i.spec_parts().0, i.spec_parts().1)
}

/// The memory of a CPU loaded with program `prg`: the program at 0x8000,
/// again at 0xc000 when it is 16 KiB long, and zeros elsewhere.
pub open spec fn loaded_memory(prg: Seq<u8>) -> Seq<u8> {
    Seq::new(
        0x10000,
        |i: int|
            if 0x8000 <= i < 0x8000 + prg.len() {
                prg[i - 0x8000]
            } else if prg.len() == 0x4000 && 0xc000 <= i < 0x10000 {
                prg[i - 0xc000]
            } else {
                0u8
            },
    )
}

/// The state after the vertical blank starts: bit 7 of PPU status is set
/// and, when bit 7 of PPU control is set, the program counter and the
/// status register are pushed and the CPU jumps to the NMI vector.
pub open spec fn vblank_state(s: CpuState) -> CpuState {
    let t = s.write(0x2002, mem(s, 0x2002) | 0x80u8);
    if mem(t, 0x2000) & 0x80 != 0 {
        t.push((s.pc / 256) as u8).push((s.pc % 256) as u8).push(t.p & !0x20u8).with_pc(
            s.nmi_vector,
        )
    } else {
        t
    }
}

/// Setting bit `b` of `p` to `on` makes bit `b` read `on` and leaves the
/// other bits as they were.
pub proof fn lemma_set_bit(p: u8, b: u8, on: bool, q: u8)
    requires
        b < 8,
        q < 8,
    ensures
        bit_set(set_bit(p, b, on), q) == if b == q {
            on
        } else {
            bit_set(p, q)
        },
{
    assert(((if on {
        p | (1u8 << b)
    } else {
        p & !(1u8 << b)
    }) & (1u8 << q) != 0) == if b == q {
        on
    } else {
        p & (1u8 << q) != 0
    }) by (bit_vector)
        requires
            b < 8,
            q < 8,
    ;
}

/// The flag readers read the bits of the status register.
pub proof fn lemma_flags_are_bits(p: u8)
    ensures
        carry_on(p) == bit_set(p, CARRY_BIT),
        zero_on(p) == bit_set(p, ZERO_BIT),
        overflow_on(p) == bit_set(p, OVERFLOW_BIT),
        negative_on(p) == bit_set(p, NEGATIVE_BIT),
{
    assert((p & 1 != 0) == (p & (1u8 << 0u8) != 0)) by (bit_vector);
    assert((p & 2 != 0) == (p & (1u8 << 1u8) != 0)) by (bit_vector);
    assert((p & 0x40 != 0) == (p & (1u8 << 6u8) != 0)) by (bit_vector);
    assert((p & 0x80 != 0) == (p & (1u8 << 7u8) != 0)) by (bit_vector);
}

/// After N and Z are set from `v`, N reads bit 7 of `v` and Z reads whether
/// `v` is zero; the other bits are unchanged.
pub proof fn lemma_with_zn(p: u8, v: u8, q: u8)
    requires
        q < 8,
    ensures
        negative_on(with_zn(p, v)) == (v >= 128),
        zero_on(with_zn(p, v)) == (v == 0),
        q != NEGATIVE_BIT && q != ZERO_BIT ==> bit_set(with_zn(p, v), q) == bit_set(p, q),
{
    lemma_flags_are_bits(with_zn(p, v));
    lemma_set_bit(set_bit(p, NEGATIVE_BIT, v & 0x80 != 0), ZERO_BIT, v == 0, NEGATIVE_BIT);
    lemma_set_bit(p, NEGATIVE_BIT, v & 0x80 != 0, NEGATIVE_BIT);
    lemma_set_bit(set_bit(p, NEGATIVE_BIT, v & 0x80 != 0), ZERO_BIT, v == 0, ZERO_BIT);
    lemma_set_bit(set_bit(p, NEGATIVE_BIT, v & 0x80 != 0), ZERO_BIT, v == 0, q);
    lemma_set_bit(p, NEGATIVE_BIT, v & 0x80 != 0, q);
    assert((v & 0x80 != 0) == (v >= 128)) by (bit_vector);
}

/// ADC adds: the accumulator becomes `A + v + C` modulo 256, the carry
/// tells whether the sum reached 256, V whether the signed sum `A + v + C`
/// leaves the range of a signed byte, and N and Z describe the result.
pub proof fn lemma_adc_adds(s: CpuState, v: u8)
    ensures
        ({
            let c: int = if carry_on(s.p) {
                1
            } else {
                0
            };
            let t = adc(s, v);
            &&& t.a == (s.a + v + c) % 256
            &&& carry_on(t.p) == (s.a + v + c >= 256)
            &&& overflow_on(t.p) == !fits_i8(signed(s.a) + signed(v) + c)
            &&& zero_on(t.p) == (t.a == 0)
            &&& negative_on(t.p) == (t.a >= 128)
        }),
{
    let t = adc(s, v);
    let c: int = if carry_on(s.p) {
        1
    } else {
        0
    };
    let r = t.a;
    let p1 = with_zn(s.p, r);
    let p2 = set_bit(p1, CARRY_BIT, s.a + add8(v as int, c) >= 256 || v + c >= 256);
    lemma_flags_are_bits(t.p);
    lemma_with_zn(s.p, r, 0);
    lemma_flags_are_bits(p1);
    lemma_set_bit(p1, CARRY_BIT, s.a + add8(v as int, c) >= 256 || v + c >= 256, CARRY_BIT);
    lemma_set_bit(p1, CARRY_BIT, s.a + add8(v as int, c) >= 256 || v + c >= 256, ZERO_BIT);
    lemma_set_bit(p1, CARRY_BIT, s.a + add8(v as int, c) >= 256 || v + c >= 256, NEGATIVE_BIT);
    lemma_set_bit(p2, OVERFLOW_BIT, !fits_i8(signed(s.a) + signed(v) + c), CARRY_BIT);
    lemma_set_bit(p2, OVERFLOW_BIT, !fits_i8(signed(s.a) + signed(v) + c), OVERFLOW_BIT);
    lemma_set_bit(p2, OVERFLOW_BIT, !fits_i8(signed(s.a) + signed(v) + c), ZERO_BIT);
    lemma_set_bit(p2, OVERFLOW_BIT, !fits_i8(signed(s.a) + signed(v) + c), NEGATIVE_BIT);
}

/// SBC subtracts: the accumulator becomes `A - v - (1 - C)` modulo 256,
/// and the carry tells whether no borrow was needed.
pub proof fn lemma_sbc_subtracts(s: CpuState, v: u8)
    requires
        sbc_defined(s, v),
    ensures
        ({
            let borrow: int = if carry_on(s.p) {
                0
            } else {
                1
            };
            let t = sbc(s, v);
            &&& t.a == (s.a - v - borrow) % 256
            &&& carry_on(t.p) == (s.a >= v + borrow)
            &&& zero_on(t.p) == (t.a == 0)
            &&& negative_on(t.p) == (t.a >= 128)
        }),
{
    let t = sbc(s, v);
    let borrow: int = if carry_on(s.p) {
        0
    } else {
        1
    };
    let p1 = with_zn(s.p, t.a);
    let p2 = set_bit(p1, CARRY_BIT, s.a >= v + borrow);
    let o = !fits_i8(signed(s.a) - (signed(v) + borrow));
    lemma_flags_are_bits(t.p);
    lemma_with_zn(s.p, t.a, 0);
    lemma_flags_are_bits(p1);
    lemma_set_bit(p1, CARRY_BIT, s.a >= v + borrow, CARRY_BIT);
    lemma_set_bit(p1, CARRY_BIT, s.a >= v + borrow, ZERO_BIT);
    lemma_set_bit(p1, CARRY_BIT, s.a >= v + borrow, NEGATIVE_BIT);
    lemma_set_bit(p2, OVERFLOW_BIT, o, CARRY_BIT);
    lemma_set_bit(p2, OVERFLOW_BIT, o, ZERO_BIT);
    lemma_set_bit(p2, OVERFLOW_BIT, o, NEGATIVE_BIT);
}

/// A comparison sets the carry when the register is at least the operand,
/// and Z when they are equal.
pub proof fn lemma_compare_flags(s: CpuState, register: u8, v: u8)
    ensures
        carry_on(compare(s, register, v).p) == (register >= v),
        zero_on(compare(s, register, v).p) == (register == v),
        compare(s, register, v).a == s.a,
{
    let d = sub8(register as int, v as int);
    let p1 = set_bit(s.p, ZERO_BIT, d == 0);
    let p2 = set_bit(p1, NEGATIVE_BIT, d & 0x80 != 0);
    lemma_flags_are_bits(compare(s, register, v).p);
    lemma_set_bit(p2, CARRY_BIT, register >= v, CARRY_BIT);
    lemma_set_bit(p2, CARRY_BIT, register >= v, ZERO_BIT);
    lemma_set_bit(p1, NEGATIVE_BIT, d & 0x80 != 0, ZERO_BIT);
    lemma_set_bit(s.p, ZERO_BIT, d == 0, ZERO_BIT);
}

/// A pull gives back what the last push pushed, and restores the stack
/// pointer.
pub proof fn lemma_push_then_pull(s: CpuState, v: u8)
    requires
        s.wf(),
        s.sp >= 1,
    ensures
        s.push(v).top() == v,
        s.push(v).popped().sp == s.sp,
        s.push(v).popped() == s.write((0x100 + s.sp) as u16, v),
{
}

/// JSR followed by RTS returns to the instruction after the JSR, with the
/// stack pointer back where it was.
pub proof fn lemma_jsr_then_rts(s: CpuState, target: u16)
    requires
        s.wf(),
        s.sp >= 2,
        s.pc >= 1,
    ensures
        ({
            let called = control_outcome(s, Op::Jsr, Operand::Absolute(target)).state;
            let returned = control_outcome(called, Op::Rts, Operand::Implied).state;
            &&& called.pc == target
            &&& execute_defined(called, Op::Rts, Operand::Implied)
            &&& returned.pc == s.pc
            &&& returned.sp == s.sp
        }),
{
    let ret = (s.pc - 1) as u16;
    let called = control_outcome(s, Op::Jsr, Operand::Absolute(target)).state;
    assert(called.top() == (ret % 256) as u8);
    assert(called.popped().top() == (ret / 256) as u8);
    assert(le_word((ret % 256) as u8, (ret / 256) as u8) == ret);
}

/// No instruction takes more than eight cycles.
pub proof fn lemma_cycles_bounded(s: CpuState)
    ensures
        step_outcome(s).cycles <= 8,
{
}

/// Status bit 5 is always read as set: PLP and RTI set it, and no other
/// instruction changes it.
pub proof fn lemma_status_bit5_stays(s: CpuState)
    requires
        bit_set(s.p, 5),
    ensures
        bit_set(step_outcome(s).state.p, 5),
{
    assert forall|p: u8, b: u8, on: bool| b < 8 && b != 5 implies #[trigger] bit_set(
        set_bit(p, b, on),
        5,
    ) == bit_set(p, 5) by {
        lemma_set_bit(p, b, on, 5);
    }
    assert forall|p: u8, v: u8| #[trigger] bit_set(with_zn(p, v), 5) == bit_set(p, 5) by {
        lemma_with_zn(p, v, 5);
    }
    assert(forall|p: u8|
        #![trigger bit_set(p & !0x10u8, 5)]
        #![trigger bit_set(p | 0x20u8, 5)]
        bit_set(p & !0x10u8, 5) == bit_set(p, 5) && bit_set(p | 0x20u8, 5)) by (bit_vector);
}

/// The address outside the stack page that the instruction at `pc` writes,
/// if any: the effective address of a store or of a read-modify-write of
/// memory, or the status register copy that `LDA $2002` clears bit 7 of.
pub open spec fn written_address(s: CpuState) -> Option<u16> {
    let t = after_fetch(s);
    let (op, operand) = current_instruction(s).spec_parts();
    if is_store_op(op) || (is_modify_op(op) && operand != Operand::Implied) {
        Some(operand_address(t, operand).0)
    } else if op == Op::Lda && operand == Operand::Absolute(0x2002) {
        Some(0x2002)
    } else {
        None
    }
}

/// An instruction changes at most one byte of memory outside the stack
/// page: the one at [`written_address`].
pub proof fn lemma_step_writes_one_byte(s: CpuState)
    requires
        s.wf(),
    ensures
        step_outcome(s).state.memory.len() == 0x10000,
        forall|a: int|
            0 <= a < 0x10000 && !(0x100 <= a < 0x200) && written_address(s) != Some(a as u16)
                ==> #[trigger] step_outcome(s).state.memory[a] == s.memory[a],
{
}

/// N and Z describe `v`, while C and V are as they were in `before`.
pub open spec fn nz_from(p: u8, before: u8, v: u8) -> bool {
    &&& negative_on(p) == (v >= 128)
    &&& zero_on(p) == (v == 0)
    &&& carry_on(p) == carry_on(before)
    &&& overflow_on(p) == overflow_on(before)
}

/// Setting N and Z from `v` leaves C and V alone.
pub proof fn lemma_nz_from(p: u8, v: u8)
    ensures
        nz_from(with_zn(p, v), p, v),
{
    lemma_with_zn(p, v, CARRY_BIT);
    lemma_with_zn(p, v, OVERFLOW_BIT);
    lemma_flags_are_bits(p);
    lemma_flags_are_bits(with_zn(p, v));
}

/// The logic and load instructions: AND, EOR and ORA combine the operand
/// with the accumulator bit by bit (and, exclusive or, or); LDA, LDX and
/// LDY copy the operand into their register. N and Z then describe the
/// result, C and V stay, the other registers stay, and the program counter
/// moves past the instruction.
pub proof fn lemma_step_logic_and_loads(s: CpuState)
    requires
        step_defined(s),
    ensures
        ({
            let (op, operand) = current_instruction(s).spec_parts();
            let v = operand_value(s, operand).0;
            let t = step_outcome(s).state;
            &&& op == Op::And ==> t.a == s.a & v && t.x == s.x && t.y == s.y && nz_from(t.p, s.p, t.a)
            &&& op == Op::Eor ==> t.a == s.a ^ v && t.x == s.x && t.y == s.y && nz_from(t.p, s.p, t.a)
            &&& op == Op::Ora ==> t.a == s.a | v && t.x == s.x && t.y == s.y && nz_from(t.p, s.p, t.a)
            &&& op == Op::Lda ==> t.a == v && t.x == s.x && t.y == s.y && nz_from(t.p, s.p, v)
            &&& op == Op::Ldx ==> t.x == v && t.a == s.a && t.y == s.y && nz_from(t.p, s.p, v)
            &&& op == Op::Ldy ==> t.y == v && t.a == s.a && t.x == s.x && nz_from(t.p, s.p, v)
            &&& is_read_op(op) ==> t.sp == s.sp && t.pc == s.pc + current_instruction(s).size()
        }),
{
    let (op, operand) = current_instruction(s).spec_parts();
    let f = after_fetch(s);
    lemma_operand_ignores_pc(s, f.pc, operand);
    let v = operand_value(s, operand).0;
    lemma_nz_from(s.p, s.a & v);
    lemma_nz_from(s.p, s.a ^ v);
    lemma_nz_from(s.p, s.a | v);
    lemma_nz_from(s.p, v);
}

/// ADC, SBC and the comparisons: ADC adds the operand and the carry to the
/// accumulator, SBC subtracts the operand and the borrow (the carry clear),
/// each wrapping to a byte with the carry telling whether it wrapped;
/// CMP, CPX and CPY leave the registers and set the carry when the register
/// is at least the operand and Z when they are equal.
pub proof fn lemma_step_arithmetic(s: CpuState)
    requires
        step_defined(s),
    ensures
        ({
            let (op, operand) = current_instruction(s).spec_parts();
            let v = operand_value(s, operand).0;
            let t = step_outcome(s).state;
            let c: int = if carry_on(s.p) {
                1
            } else {
                0
            };
            &&& op == Op::Adc ==> t.a == (s.a + v + c) % 256 && carry_on(t.p) == (s.a + v + c
                >= 256) && zero_on(t.p) == (t.a == 0) && negative_on(t.p) == (t.a >= 128) && t.x
                == s.x && t.y == s.y
            &&& op == Op::Sbc ==> t.a == (s.a - v - (1 - c)) % 256 && carry_on(t.p) == (s.a >= v
                + (1 - c)) && zero_on(t.p) == (t.a == 0) && negative_on(t.p) == (t.a >= 128) && t.x
                == s.x && t.y == s.y
            &&& op == Op::Cmp ==> t.a == s.a && t.x == s.x && t.y == s.y && carry_on(t.p) == (s.a
                >= v) && zero_on(t.p) == (s.a == v)
            &&& op == Op::Cpx ==> t.a == s.a && t.x == s.x && t.y == s.y && carry_on(t.p) == (s.x
                >= v) && zero_on(t.p) == (s.x == v)
            &&& op == Op::Cpy ==> t.a == s.a && t.x == s.x && t.y == s.y && carry_on(t.p) == (s.y
                >= v) && zero_on(t.p) == (s.y == v)
        }),
{
    let (op, operand) = current_instruction(s).spec_parts();
    let f = after_fetch(s);
    lemma_operand_ignores_pc(s, f.pc, operand);
    let v = operand_value(s, operand).0;
    lemma_adc_adds(f, v);
    if op == Op::Sbc {
        lemma_sbc_subtracts(f, v);
    }
    lemma_compare_flags(f, s.a, v);
    lemma_compare_flags(f, s.x, v);
    lemma_compare_flags(f, s.y, v);
}

/// Setting one flag: that bit reads `on` and every other bit stays.
pub open spec fn flag_set_to(p: u8, before: u8, b: u8, on: bool) -> bool {
    forall|q: u8| q < 8 ==> #[trigger] bit_set(p, q) == if q == b {
        on
    } else {
        bit_set(before, q)
    }
}

proof fn lemma_flag_set_to(p: u8, b: u8, on: bool)
    requires
        b < 8,
    ensures
        flag_set_to(set_bit(p, b, on), p, b, on),
{
    assert forall|q: u8| q < 8 implies #[trigger] bit_set(set_bit(p, b, on), q) == if q == b {
        on
    } else {
        bit_set(p, q)
    } by {
        lemma_set_bit(p, b, on, q);
    }
}

/// What the one-byte register instructions do, from `s` to `t`:
/// increments and decrements of X and Y wrap round a byte, the transfers
/// copy one register into another, and the flag instructions set or clear
/// one status bit and leave the others.
pub open spec fn register_laws(s: CpuState, op: Op, t: CpuState) -> bool {
    &&& op == Op::Inx ==> t.x == (s.x + 1) % 256 && t.a == s.a && t.y == s.y && nz_from(t.p, s.p, t.x)
    &&& op == Op::Iny ==> t.y == (s.y + 1) % 256 && t.a == s.a && t.x == s.x && nz_from(t.p, s.p, t.y)
    &&& op == Op::Dex ==> t.x == (s.x + 255) % 256 && t.a == s.a && t.y == s.y && nz_from(
        t.p,
        s.p,
        t.x,
    )
    &&& op == Op::Dey ==> t.y == (s.y + 255) % 256 && t.a == s.a && t.x == s.x && nz_from(
        t.p,
        s.p,
        t.y,
    )
    &&& op == Op::Tax ==> t.x == s.a && t.a == s.a && t.y == s.y && nz_from(t.p, s.p, s.a)
    &&& op == Op::Tay ==> t.y == s.a && t.a == s.a && t.x == s.x && nz_from(t.p, s.p, s.a)
    &&& op == Op::Txa ==> t.a == s.x && t.x == s.x && t.y == s.y && nz_from(t.p, s.p, s.x)
    &&& op == Op::Tya ==> t.a == s.y && t.x == s.x && t.y == s.y && nz_from(t.p, s.p, s.y)
    &&& op == Op::Tsx ==> t.x == s.sp && t.sp == s.sp && nz_from(t.p, s.p, s.sp)
    &&& op == Op::Txs ==> t.sp == s.x && t.x == s.x && t.p == s.p
    &&& op == Op::Clc ==> flag_set_to(t.p, s.p, CARRY_BIT, false)
    &&& op == Op::Sec ==> flag_set_to(t.p, s.p, CARRY_BIT, true)
    &&& op == Op::Cli ==> flag_set_to(t.p, s.p, INTERRUPT_BIT, false)
    &&& op == Op::Sei ==> flag_set_to(t.p, s.p, INTERRUPT_BIT, true)
    &&& op == Op::Cld ==> flag_set_to(t.p, s.p, DECIMAL_BIT, false)
    &&& op == Op::Sed ==> flag_set_to(t.p, s.p, DECIMAL_BIT, true)
    &&& op == Op::Clv ==> flag_set_to(t.p, s.p, OVERFLOW_BIT, false)
}

proof fn lemma_register_outcome_laws(s: CpuState, op: Op)
    ensures
        register_laws(s, op, register_outcome(s, op).state),
{
    lemma_nz_from(s.p, add8(s.x as int, 1));
    lemma_nz_from(s.p, add8(s.y as int, 1));
    lemma_nz_from(s.p, sub8(s.x as int, 1));
    lemma_nz_from(s.p, sub8(s.y as int, 1));
    lemma_nz_from(s.p, s.a);
    lemma_nz_from(s.p, s.x);
    lemma_nz_from(s.p, s.y);
    lemma_nz_from(s.p, s.sp);
    lemma_flag_set_to(s.p, CARRY_BIT, false);
    lemma_flag_set_to(s.p, CARRY_BIT, true);
    lemma_flag_set_to(s.p, INTERRUPT_BIT, false);
    lemma_flag_set_to(s.p, INTERRUPT_BIT, true);
    lemma_flag_set_to(s.p, DECIMAL_BIT, false);
    lemma_flag_set_to(s.p, DECIMAL_BIT, true);
    lemma_flag_set_to(s.p, OVERFLOW_BIT, false);
}

/// The register instructions do what [`register_laws`] says.
pub proof fn lemma_step_registers(s: CpuState)
    requires
        step_defined(s),
    ensures
        register_laws(s, current_instruction(s).spec_parts().0, step_outcome(s).state),
{
    let (op, operand) = current_instruction(s).spec_parts();
    let f = after_fetch(s);
    lemma_register_outcome_laws(f, op);
    if !is_read_op(op) && !is_store_op(op) && !is_modify_op(op) && !is_branch_op(op)
        && !is_control_op(op) {
        assert(step_outcome(s) == register_outcome(f, op));
    }
}

/// The stores write their register at the operand's address, change no
/// register, and report a write to a PPU or DMA register: a store at 0x4014
/// starts a DMA of the page it writes.
pub proof fn lemma_step_stores(s: CpuState)
    requires
        step_defined(s),
    ensures
        ({
            let (op, operand) = current_instruction(s).spec_parts();
            let addr = operand_address(s, operand).0;
            let o = step_outcome(s);
            let t = o.state;
            let stored = if op == Op::Sta {
                s.a
            } else if op == Op::Stx {
                s.x
            } else {
                s.y
            };
            (op == Op::Sta || op == Op::Stx || op == Op::Sty) ==> {
                &&& t.memory == s.memory.update(addr as int, stored)
                &&& t.a == s.a && t.x == s.x && t.y == s.y && t.p == s.p && t.sp == s.sp
                &&& addr == 0x4014 ==> o.effect == Some(SideEffect::OamDma(stored))
                &&& addr == 0x2007 ==> o.effect == Some(SideEffect::WritePpuData(stored))
                &&& addr == 0x2006 ==> o.effect == Some(SideEffect::WritePpuAddr(stored))
            }
        }),
{
    let (op, operand) = current_instruction(s).spec_parts();
    lemma_operand_ignores_pc(s, after_fetch(s).pc, operand);
}

/// Bit 7 of a byte is set exactly when it is at least 128, bit 6 when its
/// quotient by 64 is odd, and bit 0 when it is odd.
proof fn lemma_byte_ends(v: u8)
    ensures
        (v & 0x80 != 0) == (v >= 128),
        (v & 0x40 != 0) == ((v / 64) % 2 == 1),
        (v & 1 != 0) == (v % 2 == 1),
{
    assert((v & 0x80 != 0) == (v >= 128) && (v & 0x40 != 0) == ((v / 64) % 2 == 1) && (v & 1 != 0)
        == (v % 2 == 1)) by (bit_vector);
}

/// N and Z describe `r`, C is `carry`, V stays.
pub open spec fn shift_flags_hold(p: u8, before: u8, r: u8, carry: bool) -> bool {
    &&& negative_on(p) == (r >= 128)
    &&& zero_on(p) == (r == 0)
    &&& carry_on(p) == carry
    &&& overflow_on(p) == overflow_on(before)
}

proof fn lemma_shift_flags(p: u8, r: u8, carry: bool)
    ensures
        shift_flags_hold(shift_flags(p, r, carry), p, r, carry),
{
    let q = with_zn(p, r);
    lemma_with_zn(p, r, OVERFLOW_BIT);
    lemma_flags_are_bits(p);
    lemma_flags_are_bits(q);
    lemma_flags_are_bits(shift_flags(p, r, carry));
    lemma_set_bit(q, CARRY_BIT, carry, CARRY_BIT);
    lemma_set_bit(q, CARRY_BIT, carry, ZERO_BIT);
    lemma_set_bit(q, CARRY_BIT, carry, NEGATIVE_BIT);
    lemma_set_bit(q, CARRY_BIT, carry, OVERFLOW_BIT);
}

/// What the shifts, rotates, increments and decrements do, from `s` to
/// `t`, on the byte `m` at `addr` when they work on memory: ASL doubles,
/// LSR halves, ROL doubles and adds the carry, ROR halves and puts the
/// carry in bit 7, and the bit shifted out becomes the carry; on the
/// accumulator the same happens to A. INC and DEC add or subtract one,
/// wrapping round a byte.
pub open spec fn modify_laws(s: CpuState, op: Op, implied: bool, addr: u16, t: CpuState) -> bool {
    let c: int = if carry_on(s.p) {
        1
    } else {
        0
    };
    let m = mem(s, addr as int);
    let r = mem(t, addr as int);
    &&& implied ==> {
        &&& op == Op::Asl ==> t.a == (s.a * 2) % 256 && shift_flags_hold(t.p, s.p, t.a, s.a >= 128)
        &&& op == Op::Lsr ==> t.a == s.a / 2 && shift_flags_hold(t.p, s.p, t.a, s.a % 2 == 1)
        &&& op == Op::Rol ==> t.a == (s.a * 2 + c) % 256 && shift_flags_hold(
            t.p,
            s.p,
            t.a,
            s.a >= 128,
        )
        &&& op == Op::Ror ==> t.a == s.a / 2 + 128 * c && shift_flags_hold(
            t.p,
            s.p,
            t.a,
            s.a % 2 == 1,
        )
    }
    &&& !implied ==> {
        &&& op == Op::Asl ==> r == (m * 2) % 256 && shift_flags_hold(t.p, s.p, r, m >= 128) && t.a
            == s.a
        &&& op == Op::Lsr ==> r == m / 2 && shift_flags_hold(t.p, s.p, r, m % 2 == 1) && t.a == s.a
        &&& op == Op::Rol ==> r == (m * 2 + c) % 256 && shift_flags_hold(t.p, s.p, r, m >= 128)
            && t.a == s.a
        &&& op == Op::Ror ==> r == m / 2 + 128 * c && shift_flags_hold(t.p, s.p, r, m % 2 == 1)
            && t.a == s.a
        &&& op == Op::Inc ==> r == (m + 1) % 256 && nz_from(t.p, s.p, r) && t.a == s.a && t.x
            == s.x && t.y == s.y
        &&& op == Op::Dec ==> r == (m + 255) % 256 && nz_from(t.p, s.p, r) && t.a == s.a && t.x
            == s.x && t.y == s.y
    }
}

proof fn lemma_shift_accumulator_laws(s: CpuState, op: Op, addr: u16)
    requires
        op == Op::Asl || op == Op::Lsr || op == Op::Rol || op == Op::Ror,
    ensures
        modify_laws(s, op, true, addr, modify_outcome(s, op, Operand::Implied).state),
{
    lemma_byte_ends(s.a);
    lemma_doubled(s.a);
    let ca = shifted(op, s.a, carry_on(s.p));
    lemma_shift_flags(s.p, ca.0, ca.1);
}

/// A byte doubled and wrapped is even, so a carry can be added to it
/// without wrapping again.
proof fn lemma_doubled(v: u8)
    ensures
        add8(v as int, v as int) == (v * 2) % 256,
        add8(v as int, v as int) <= 254,
        (v * 2 + 1) % 256 == add8(v as int, v as int) + 1,
{
    assert((v + v) % 256 <= 254 && (v * 2 + 1) % 256 == (v + v) % 256 + 1) by (nonlinear_arith)
        requires
            0 <= v < 256,
    ;
}

proof fn lemma_shift_memory_laws(s: CpuState, op: Op, operand: Operand)
    requires
        s.wf(),
        op == Op::Asl || op == Op::Lsr || op == Op::Rol || op == Op::Ror,
        operand != Operand::Implied,
    ensures
        modify_laws(
            s,
            op,
            false,
            operand_address(s, operand).0,
            modify_outcome(s, op, operand).state,
        ),
{
    let addr = operand_address(s, operand).0;
    let m = mem(s, addr as int);
    lemma_byte_ends(m);
    lemma_doubled(m);
    let cm = shifted(op, m, carry_on(s.p));
    lemma_shift_flags(s.p, cm.0, cm.1);
    let t = modify_outcome(s, op, operand).state;
    assert(t == shift_memory(s, op, addr));
    assert(mem(t, addr as int) == cm.0);
}

#[verifier::rlimit(40)]
proof fn lemma_count_memory_laws(s: CpuState, op: Op, operand: Operand)
    requires
        s.wf(),
        op == Op::Inc || op == Op::Dec,
        operand != Operand::Implied,
    ensures
        modify_laws(
            s,
            op,
            false,
            operand_address(s, operand).0,
            modify_outcome(s, op, operand).state,
        ),
{
    let addr = operand_address(s, operand).0;
    let m = mem(s, addr as int);
    lemma_nz_from(s.p, add8(m as int, 1));
    lemma_nz_from(s.p, sub8(m as int, 1));
}

/// The shift, rotate, increment and decrement instructions do what
/// [`modify_laws`] says, on the byte at the operand's address when they
/// work on memory.
pub proof fn lemma_step_shifts_and_counts(s: CpuState)
    requires
        step_defined(s),
    ensures
        ({
            let (op, operand) = current_instruction(s).spec_parts();
            modify_laws(
                s,
                op,
                operand == Operand::Implied,
                operand_address(s, operand).0,
                step_outcome(s).state,
            )
        }),
{
    let (op, operand) = current_instruction(s).spec_parts();
    let f = after_fetch(s);
    lemma_operand_ignores_pc(s, f.pc, operand);
    let addr = operand_address(s, operand).0;
    if is_modify_op(op) {
        assert(step_outcome(s) == modify_outcome(f, op, operand));
        if op == Op::Asl || op == Op::Lsr || op == Op::Rol || op == Op::Ror {
            if operand == Operand::Implied {
                lemma_shift_accumulator_laws(f, op, addr);
            } else {
                lemma_shift_memory_laws(f, op, operand);
            }
        } else if (op == Op::Inc || op == Op::Dec) && operand != Operand::Implied {
            lemma_count_memory_laws(f, op, operand);
        }
    }
}

/// A conditional branch is taken exactly when its flag reads as the branch
/// asks (BCC carry clear, BCS carry set, BEQ zero set, BNE zero clear, BMI
/// negative set, BPL negative clear, BVS overflow set, BVC overflow clear).
/// A taken branch moves the program counter from the next instruction by
/// the signed offset (modulo 0x10000), one not taken goes to the next
/// instruction, and nothing else changes.
pub proof fn lemma_step_branches(s: CpuState)
    requires
        step_defined(s),
    ensures
        ({
            let (op, operand) = current_instruction(s).spec_parts();
            let t = step_outcome(s).state;
            let next = s.pc + current_instruction(s).size();
            let offset = match operand {
                Operand::Relative(o) => o,
                _ => 0,
            };
            let taken = match op {
                Op::Bcc => !carry_on(s.p),
                Op::Bcs => carry_on(s.p),
                Op::Beq => zero_on(s.p),
                Op::Bne => !zero_on(s.p),
                Op::Bmi => negative_on(s.p),
                Op::Bpl => !negative_on(s.p),
                Op::Bvs => overflow_on(s.p),
                _ => !overflow_on(s.p),
            };
            is_branch_op(op) ==> t == (CpuState {
                pc: (if taken {
                    (next + signed(offset) + 0x10000) % 0x10000
                } else {
                    next
                }) as u16,
                ..s
            })
        }),
{
    let (op, operand) = current_instruction(s).spec_parts();
    let f = after_fetch(s);
    if is_branch_op(op) {
        let offset = match operand {
            Operand::Relative(o) => o,
            _ => 0,
        };
        let taken = branch_taken(op, f.p);
        assert(step_outcome(s) == branch(f, taken, offset));
        lemma_branch_outcome(f, taken, offset);
    }
}

proof fn lemma_branch_outcome(f: CpuState, taken: bool, offset: u8)
    requires
        taken ==> branch_defined(f.pc, offset),
    ensures
        branch(f, taken, offset).state == (CpuState {
            pc: if taken {
                ((f.pc + signed(offset) + 0x10000) % 0x10000) as u16
            } else {
                f.pc
            },
            ..f
        }),
{
}

/// What the stack and jump instructions do, from `s` (whose program counter
/// points past the instruction, at `next`) to `t`. The stack is page one,
/// growing down from `0x100 + sp`; addresses are stored low byte first.
/// PHA pushes A and PHP pushes P with the break bit (bit 4) set; PLA pulls
/// into A, setting N and Z; JMP goes to its address, or to the word at it
/// with the high byte read from the same page; JSR pushes the address of
/// its own last byte, high byte first, and jumps; RTS pulls an address and
/// goes to the byte after it; RTI pulls P (with bit 5 set) and then the
/// address to go to.
pub open spec fn control_laws(s: CpuState, op: Op, operand: Operand, t: CpuState) -> bool {
    let top = 0x100 + s.sp;
    let above1 = s.memory[0x100 + s.sp + 1];
    let above2 = s.memory[0x100 + s.sp + 2];
    let above3 = s.memory[0x100 + s.sp + 3];
    &&& op == Op::Pha ==> t.memory == s.memory.update(top, s.a) && t.sp == s.sp - 1 && t.a == s.a
        && t.p == s.p && t.pc == s.pc
    &&& op == Op::Php ==> t.memory == s.memory.update(top, s.p | 0x10) && t.sp == s.sp - 1 && t.a
        == s.a && t.p == s.p && t.pc == s.pc
    &&& op == Op::Pla ==> t.a == above1 && t.sp == s.sp + 1 && nz_from(t.p, s.p, above1) && t.pc
        == s.pc && t.memory == s.memory
    &&& op == Op::Jmp ==> match operand {
        Operand::Absolute(a) => t.pc == a && t.sp == s.sp && t.memory == s.memory,
        Operand::Indirect(a) => t.pc == s.memory[a as int] + 256 * s.memory[a - a % 256 + (a % 256
            + 1) % 256] && t.sp == s.sp,
        _ => true,
    }
    &&& op == Op::Jsr ==> match operand {
        Operand::Absolute(a) => {
            &&& t.pc == a
            &&& t.sp == s.sp - 2
            &&& t.memory == s.memory.update(top, ((s.pc - 1) / 256) as u8).update(
                top - 1,
                ((s.pc - 1) % 256) as u8,
            )
        },
        _ => true,
    }
    &&& op == Op::Rts ==> t.pc == above1 + 256 * above2 + 1 && t.sp == s.sp + 2 && t.memory
        == s.memory
    &&& op == Op::Rti ==> t.p == above1 | 0x20 && t.pc == above2 + 256 * above3 && t.sp == s.sp + 3
}

proof fn lemma_control_outcome_laws(s: CpuState, op: Op, operand: Operand)
    requires
        s.wf(),
        execute_defined(s, op, operand),
        is_control_op(op),
    ensures
        control_laws(s, op, operand, control_outcome(s, op, operand).state),
{
    lemma_nz_from(s.p, s.top());
}

/// The stack and jump instructions do what [`control_laws`] says, from the
/// state after the instruction is read.
pub proof fn lemma_step_stack_and_jumps(s: CpuState)
    requires
        step_defined(s),
    ensures
        ({
            let (op, operand) = current_instruction(s).spec_parts();
            control_laws(after_fetch(s), op, operand, step_outcome(s).state)
        }),
{
    let (op, operand) = current_instruction(s).spec_parts();
    let f = after_fetch(s);
    if is_control_op(op) {
        assert(step_outcome(s) == control_outcome(f, op, operand));
        lemma_control_outcome_laws(f, op, operand);
    }
}

/// BIT tests the operand: N takes bit 7 of the operand, V bit 6, Z tells
/// whether the operand and the accumulator have no set bit in common, and C
/// and the registers stay.
pub proof fn lemma_step_bit_test(s: CpuState)
    requires
        step_defined(s),
    ensures
        ({
            let (op, operand) = current_instruction(s).spec_parts();
            let v = operand_value(s, operand).0;
            let t = step_outcome(s).state;
            op == Op::Bit ==> {
                &&& negative_on(t.p) == (v >= 128)
                &&& overflow_on(t.p) == ((v / 64) % 2 == 1)
                &&& zero_on(t.p) == (v & s.a == 0)
                &&& carry_on(t.p) == carry_on(s.p)
                &&& t.a == s.a && t.x == s.x && t.y == s.y && t.memory == s.memory
            }
        }),
{
    let (op, operand) = current_instruction(s).spec_parts();
    let f = after_fetch(s);
    lemma_operand_ignores_pc(s, f.pc, operand);
    if op == Op::Bit {
        let v = operand_value(s, operand).0;
        assert(step_outcome(s).state == bit_test(f, v));
        lemma_byte_ends(v);
        let p1 = set_bit(s.p, NEGATIVE_BIT, v & 0x80 != 0);
        let p2 = set_bit(p1, OVERFLOW_BIT, v & 0x40 != 0);
        let p3 = set_bit(p2, ZERO_BIT, v & s.a == 0);
        lemma_flags_are_bits(s.p);
        lemma_flags_are_bits(p3);
        lemma_set_bit(p2, ZERO_BIT, v & s.a == 0, ZERO_BIT);
        lemma_set_bit(p2, ZERO_BIT, v & s.a == 0, OVERFLOW_BIT);
        lemma_set_bit(p2, ZERO_BIT, v & s.a == 0, NEGATIVE_BIT);
        lemma_set_bit(p2, ZERO_BIT, v & s.a == 0, CARRY_BIT);
        lemma_set_bit(p1, OVERFLOW_BIT, v & 0x40 != 0, OVERFLOW_BIT);
        lemma_set_bit(p1, OVERFLOW_BIT, v & 0x40 != 0, NEGATIVE_BIT);
        lemma_set_bit(p1, OVERFLOW_BIT, v & 0x40 != 0, CARRY_BIT);
        lemma_set_bit(s.p, NEGATIVE_BIT, v & 0x80 != 0, NEGATIVE_BIT);
        lemma_set_bit(s.p, NEGATIVE_BIT, v & 0x80 != 0, CARRY_BIT);
    }
}

/// The start of vertical blank with NMI enabled (bit 7 of PPU control) is
/// an interrupt: the return address is pushed high byte first, then the
/// status register, and the CPU goes to the NMI vector. With NMI disabled
/// the registers stay. Either way PPU status is stored with its bit 7 set.
pub proof fn lemma_vblank_interrupt(s: CpuState)
    requires
        s.wf(),
        s.sp >= 3,
    ensures
        ({
            let t = vblank_state(s);
            let top = 0x100 + s.sp;
            &&& t.memory[0x2002] == s.memory[0x2002] | 0x80
            &&& s.memory[0x2000] >= 128 ==> {
                &&& t.pc == s.nmi_vector
                &&& t.sp == s.sp - 3
                &&& t.memory[top] == s.pc / 256
                &&& t.memory[top - 1] == s.pc % 256
                &&& t.a == s.a && t.x == s.x && t.y == s.y
            }
            &&& s.memory[0x2000] < 128 ==> t == s.write(0x2002, s.memory[0x2002] | 0x80)
        }),
{
    lemma_byte_ends(s.memory[0x2000]);
}

/// A program of 16 KiB appears at both 0x8000 and 0xc000, one of 32 KiB
/// fills 0x8000..=0xffff, and reset starts at the address stored low byte
/// first in the last four bytes but two of the program (0xfffc).
pub proof fn lemma_loaded_program(prg: Seq<u8>, i: int)
    requires
        prg.len() == 0x4000 || prg.len() == 0x8000,
        0 <= i < 0x8000,
    ensures
        loaded_memory(prg)[0x8000 + i] == prg[i % prg.len() as int],
        ({
            let m = loaded_memory(prg);
            le_word(m[0xfffc], m[0xfffd]) == prg[prg.len() - 4] + 256 * prg[prg.len() - 3]
        }),
{
}

/// What the combined (undocumented) instructions do to the byte `m` at
/// their address, from `s` to `t`, where `r` is the byte they write back:
/// SLO shifts it left and ORs the result into A; SRE shifts it right and
/// XORs it into A; RLA rotates it left and ANDs it into A; RRA rotates it
/// right and adds it to A with the carry it shifted out; DCP decrements it
/// and compares A with the result; ISB increments it and subtracts the
/// result from A with the borrow.
pub open spec fn combined_laws(s: CpuState, op: Op, addr: u16, t: CpuState) -> bool {
    let m = mem(s, addr as int);
    let r = mem(t, addr as int);
    let c: int = if carry_on(s.p) {
        1
    } else {
        0
    };
    &&& op == Op::Slo ==> r == (m * 2) % 256 && t.a == s.a | r && carry_on(t.p) == (m >= 128)
        && zero_on(t.p) == (t.a == 0) && negative_on(t.p) == (t.a >= 128)
    &&& op == Op::Sre ==> r == m / 2 && t.a == s.a ^ r && carry_on(t.p) == (m % 2 == 1) && zero_on(
        t.p,
    ) == (t.a == 0) && negative_on(t.p) == (t.a >= 128)
    &&& op == Op::Rla ==> r == (m * 2 + c) % 256 && t.a == s.a & r && carry_on(t.p) == (m >= 128)
        && zero_on(t.p) == (t.a == 0) && negative_on(t.p) == (t.a >= 128)
    &&& op == Op::Rra ==> r == m / 2 + 128 * c && t.a == (s.a + r + m % 2) % 256
    &&& op == Op::Dcp ==> r == (m + 255) % 256 && t.a == s.a && carry_on(t.p) == (s.a >= r)
        && zero_on(t.p) == (s.a == r)
    &&& op == Op::Isb ==> r == (m + 1) % 256 && t.a == (s.a - r - (1 - c)) % 256 && carry_on(t.p)
        == (s.a >= r + (1 - c))
}

proof fn lemma_slo_laws(s: CpuState, addr: u16)
    requires
        s.wf(),
    ensures
        combined_laws(s, Op::Slo, addr, modify_state(s, Op::Slo, addr).0),
{
    let m = mem(s, addr as int);
    lemma_byte_ends(m);
    lemma_doubled(m);
    let t = modify_state(s, Op::Slo, addr).0;
    let v = add8(m as int, m as int);
    lemma_shift_flags(s.p, s.a | v, m & 0x80 != 0);
    assert(mem(t, addr as int) == v);
}

proof fn lemma_sre_laws(s: CpuState, addr: u16)
    requires
        s.wf(),
    ensures
        combined_laws(s, Op::Sre, addr, modify_state(s, Op::Sre, addr).0),
{
    let m = mem(s, addr as int);
    lemma_byte_ends(m);
    lemma_doubled(m);
    let t = modify_state(s, Op::Sre, addr).0;
    let v = (m / 2) as u8;
    lemma_shift_flags(s.p, s.a ^ v, m & 1 != 0);
    assert(mem(t, addr as int) == v);
}

proof fn lemma_rla_laws(s: CpuState, addr: u16)
    requires
        s.wf(),
    ensures
        combined_laws(s, Op::Rla, addr, modify_state(s, Op::Rla, addr).0),
{
    let m = mem(s, addr as int);
    lemma_byte_ends(m);
    lemma_doubled(m);
    let t = modify_state(s, Op::Rla, addr).0;
    let (v, carry) = shifted(Op::Rol, m, carry_on(s.p));
    lemma_shift_flags(s.p, v, carry);
    let t1 = shift_memory(s, Op::Rol, addr);
    lemma_nz_from(t1.p, s.a & v);
    assert(mem(t1, addr as int) == v);
}

proof fn lemma_rra_laws(s: CpuState, addr: u16)
    requires
        s.wf(),
    ensures
        combined_laws(s, Op::Rra, addr, modify_state(s, Op::Rra, addr).0),
{
    let m = mem(s, addr as int);
    lemma_byte_ends(m);
    lemma_doubled(m);
    let t = modify_state(s, Op::Rra, addr).0;
    let (v, carry) = shifted(Op::Ror, m, carry_on(s.p));
    lemma_shift_flags(s.p, v, carry);
    let t1 = shift_memory(s, Op::Ror, addr);
    assert(mem(t1, addr as int) == v);
    lemma_adc_adds(t1, v);
}

proof fn lemma_dcp_laws(s: CpuState, addr: u16)
    requires
        s.wf(),
    ensures
        combined_laws(s, Op::Dcp, addr, modify_state(s, Op::Dcp, addr).0),
{
    let m = mem(s, addr as int);
    lemma_byte_ends(m);
    lemma_doubled(m);
    let t = modify_state(s, Op::Dcp, addr).0;
    let v = sub8(m as int, 1);
    let t1 = s.write(addr, v);
    let d = sub8(s.a as int, v as int);
    lemma_shift_flags(t1.p, d, s.a >= v);
    assert(mem(t, addr as int) == v);
}

proof fn lemma_isb_laws(s: CpuState, addr: u16)
    requires
        s.wf(),
    ensures
        combined_laws(s, Op::Isb, addr, modify_state(s, Op::Isb, addr).0),
{
    let m = mem(s, addr as int);
    lemma_byte_ends(m);
    lemma_doubled(m);
    let t = modify_state(s, Op::Isb, addr).0;
    let v = add8(m as int, 1);
    let borrow: int = if carry_on(s.p) {
        0
    } else {
        1
    };
    let result = sub8(s.a as int, v + borrow);
    let p1 = set_bit(with_zn(s.p, result), CARRY_BIT, s.a >= v + borrow);
    lemma_flags_are_bits(t.p);
    lemma_set_bit(p1, OVERFLOW_BIT, !fits_i8(signed(s.a) - (signed(v) + borrow)), CARRY_BIT);
    lemma_set_bit(with_zn(s.p, result), CARRY_BIT, s.a >= v + borrow, CARRY_BIT);
    assert(mem(t, addr as int) == v);
}

proof fn lemma_combined_state_laws(s: CpuState, op: Op, addr: u16)
    requires
        s.wf(),
    ensures
        combined_laws(s, op, addr, modify_state(s, op, addr).0),
{
    match op {
        Op::Slo => lemma_slo_laws(s, addr),
        Op::Sre => lemma_sre_laws(s, addr),
        Op::Rla => lemma_rla_laws(s, addr),
        Op::Rra => lemma_rra_laws(s, addr),
        Op::Dcp => lemma_dcp_laws(s, addr),
        Op::Isb => lemma_isb_laws(s, addr),
        _ => {},
    }
}

/// The combined instructions do what [`combined_laws`] says, at the
/// operand's address.
pub proof fn lemma_step_combined(s: CpuState)
    requires
        step_defined(s),
    ensures
        ({
            let (op, operand) = current_instruction(s).spec_parts();
            operand != Operand::Implied ==> combined_laws(
                s,
                op,
                operand_address(s, operand).0,
                step_outcome(s).state,
            )
        }),
{
    let (op, operand) = current_instruction(s).spec_parts();
    let f = after_fetch(s);
    lemma_operand_ignores_pc(s, f.pc, operand);
    let addr = operand_address(s, operand).0;
    if is_modify_op(op) && operand != Operand::Implied {
        assert(step_outcome(s) == modify_outcome(f, op, operand));
        lemma_combined_state_laws(f, op, addr);
    }
}

/// LAX loads the operand into both A and X, setting N and Z from it; SAX
/// stores A AND X at the operand's address and changes no register.
pub proof fn lemma_step_lax_sax(s: CpuState)
    requires
        step_defined(s),
    ensures
        ({
            let (op, operand) = current_instruction(s).spec_parts();
            let v = operand_value(s, operand).0;
            let t = step_outcome(s).state;
            &&& op == Op::Lax ==> t.a == v && t.x == v && t.y == s.y && nz_from(t.p, s.p, v)
            &&& op == Op::Sax ==> t.memory == s.memory.update(
                operand_address(s, operand).0 as int,
                s.a & s.x,
            ) && t.a == s.a && t.x == s.x && t.p == s.p
        }),
{
    let (op, operand) = current_instruction(s).spec_parts();
    let f = after_fetch(s);
    lemma_operand_ignores_pc(s, f.pc, operand);
    lemma_nz_from(s.p, operand_value(s, operand).0);
}

/// One cycle when `base + index` lies in another page than `base`.
pub open spec fn page_penalty(base: int, index: int) -> int {
    if (base + index) / 256 != base / 256 {
        1
    } else {
        0
    }
}

/// The cycles of reads and branches: a read takes 2 cycles immediate, 3
/// from the zero page, 4 zero page indexed or absolute, 6 through
/// `(zp,X)`; absolute indexed reads take 4 and `(zp),Y` reads 5, one more
/// when indexing moves the address to another page. A branch takes 2 cycles
/// when not taken, 3 when taken within the page of the next instruction and
/// 4 when taken to another page.
pub proof fn lemma_step_cycles(s: CpuState)
    requires
        step_defined(s),
    ensures
        ({
            let (op, operand) = current_instruction(s).spec_parts();
            let o = step_outcome(s);
            &&& is_read_op(op) ==> o.cycles == match operand {
                Operand::Immediate(_) => 2int,
                Operand::ZeroPage(_) => 3,
                Operand::ZeroPageX(_) | Operand::ZeroPageY(_) | Operand::Absolute(_) => 4,
                Operand::AbsoluteX(a) => 4 + page_penalty(a as int, s.x as int),
                Operand::AbsoluteY(a) => 4 + page_penalty(a as int, s.y as int),
                Operand::IndexedIndirect(_) => 6,
                Operand::IndirectIndexed(z) => 5 + page_penalty(
                    le_word(mem(s, z as int), mem(s, zp_index(z, 1) as int)) as int,
                    s.y as int,
                ),
                _ => o.cycles as int,
            }
            &&& is_branch_op(op) ==> o.cycles == if !branch_taken(op, s.p) {
                2u32
            } else if o.state.pc / 256 == after_fetch(s).pc / 256 {
                3
            } else {
                4
            }
        }),
{
    let (op, operand) = current_instruction(s).spec_parts();
    lemma_operand_ignores_pc(s, after_fetch(s).pc, operand);
}

} // verus!
