//! The 6502 instruction set as the emulator decodes it: one variant per
//! opcode form, the table from opcode bytes to instructions, and the split of
//! each instruction into an operation and an operand.

use vstd::prelude::*;

verus! {

/// A decoded 6502 instruction, with its operand bytes.
#[derive(Debug, Clone, Copy, PartialEq, Eq, Structural)]
pub enum Instruction {
    AdcImmediate(u8),
    AdcZeroPage(u8),
    AdcXZeroPage(u8),
    AdcXIndexedIndirect(u8),
    AdcYIndirectIndexed(u8),
    AdcAbsolute(u16),
    AdcXAbsolute(u16),
    AdcYAbsolute(u16),
    AndImmediate(u8),
    AndZeroPage(u8),
    AndXZeroPage(u8),
    AndXIndexedIndirect(u8),
    AndYIndirectIndexed(u8),
    AndAbsolute(u16),
    AndXAbsolute(u16),
    AndYAbsolute(u16),
    Beq(u8),
    BitAbsolute(u16),
    BitZeroPage(u8),
    Brk,
    Bmi(u8),
    Bne(u8),
    Bpl(u8),
    Bvc(u8),
    Bvs(u8),
    Bcc(u8),
    Bcs(u8),
    Clc,
    Cld,
    Cli,
    Clv,
    CmpImmediate(u8),
    CmpZeroPage(u8),
    CmpXZeroPage(u8),
    CmpXIndexedIndirect(u8),
    CmpYIndirectIndexed(u8),
    CmpAbsolute(u16),
    CmpXAbsolute(u16),
    CmpYAbsolute(u16),
    CpxImmediate(u8),
    CpxZeroPage(u8),
    CpxAbsolute(u16),
    CpyImmediate(u8),
    CpyZeroPage(u8),
    CpyAbsolute(u16),
    DecZeroPage(u8),
    DecXZeroPage(u8),
    DecAbsolute(u16),
    DecXAbsolute(u16),
    Dex,
    Dey,
    EorImmediate(u8),
    EorZeroPage(u8),
    EorXZeroPage(u8),
    EorXIndexedIndirect(u8),
    EorYIndirectIndexed(u8),
    EorAbsolute(u16),
    EorXAbsolute(u16),
    EorYAbsolute(u16),
    LdaImmediate(u8),
    LdaAbsolute(u16),
    LdaXAbsolute(u16),
    LdaYAbsolute(u16),
    LdaZeroPage(u8),
    LdaXZeroPage(u8),
    LdaXIndexedIndirect(u8),
    LdaYIndirectIndexed(u8),
    LdxAbsolute(u16),
    LdxYAbsolute(u16),
    LdxImmediate(u8),
    LdxZeroPage(u8),
    LdxYZeroPage(u8),
    LdyAbsolute(u16),
    LdyXAbsolute(u16),
    LdyImmediate(u8),
    LdyZeroPage(u8),
    LdyXZeroPage(u8),
    IncZeroPage(u8),
    IncXZeroPage(u8),
    IncAbsolute(u16),
    IncXAbsolute(u16),
    Inx,
    Iny,
    JmpAbsolute(u16),
    JmpIndirect(u16),
    JsrAbsolute(u16),
    Nop,
    OraImmediate(u8),
    OraZeroPage(u8),
    OraXZeroPage(u8),
    OraXIndexedIndirect(u8),
    OraYIndirectIndexed(u8),
    OraAbsolute(u16),
    OraXAbsolute(u16),
    OraYAbsolute(u16),
    Pha,
    Php,
    Pla,
    Plp,
    Rti,
    Rts,
    Sec,
    Sed,
    Sei,
    StaAbsolute(u16),
    StaXAbsolute(u16),
    StaYAbsolute(u16),
    StaZeroPage(u8),
    StaXZeroPage(u8),
    StaXIndexedIndirect(u8),
    StaYIndirectIndexed(u8),
    StxAbsolute(u16),
    StxYZeroPage(u8),
    StxZeroPage(u8),
    StyAbsolute(u16),
    StyXZeroPage(u8),
    StyZeroPage(u8),
    Tax,
    Tay,
    Tsx,
    Txa,
    Txs,
    Tya,
    Asl,
    AslZeroPage(u8),
    AslXZeroPage(u8),
    AslAbsolute(u16),
    AslXAbsolute(u16),
    Rol,
    RolZeroPage(u8),
    RolXZeroPage(u8),
    RolAbsolute(u16),
    RolXAbsolute(u16),
    Lsr,
    LsrZeroPage(u8),
    LsrXZeroPage(u8),
    LsrAbsolute(u16),
    LsrXAbsolute(u16),
    Ror,
    RorZeroPage(u8),
    RorXZeroPage(u8),
    RorAbsolute(u16),
    RorXAbsolute(u16),
    SbcImmediate(u8),
    SbcZeroPage(u8),
    SbcXZeroPage(u8),
    SbcXIndexedIndirect(u8),
    SbcYIndirectIndexed(u8),
    SbcAbsolute(u16),
    SbcXAbsolute(u16),
    SbcYAbsolute(u16),
    Nop2,
    NopImmediate(u8),
    NopZeroPage(u8),
    NopXZeroPage(u8),
    NopAbsolute(u16),
    NopXAbsolute(u16),
    SbcImmediateIllegal(u8),
    SloZeroPage(u8),
    SloXZeroPage(u8),
    SloXIndexedIndirect(u8),
    SloYIndirectIndexed(u8),
    SloAbsolute(u16),
    SloXAbsolute(u16),
    SloYAbsolute(u16),
    RlaZeroPage(u8),
    RlaXZeroPage(u8),
    RlaXIndexedIndirect(u8),
    RlaYIndirectIndexed(u8),
    RlaAbsolute(u16),
    RlaXAbsolute(u16),
    RlaYAbsolute(u16),
    SreZeroPage(u8),
    SreXZeroPage(u8),
    SreXIndexedIndirect(u8),
    SreYIndirectIndexed(u8),
    SreAbsolute(u16),
    SreXAbsolute(u16),
    SreYAbsolute(u16),
    RraZeroPage(u8),
    RraXZeroPage(u8),
    RraXIndexedIndirect(u8),
    RraYIndirectIndexed(u8),
    RraAbsolute(u16),
    RraXAbsolute(u16),
    RraYAbsolute(u16),
    SaxZeroPage(u8),
    SaxYZeroPage(u8),
    SaxXIndexedIndirect(u8),
    SaxAbsolute(u16),
    LaxZeroPage(u8),
    LaxYZeroPage(u8),
    LaxXIndexedIndirect(u8),
    LaxYIndirectIndexed(u8),
    LaxAbsolute(u16),
    LaxYAbsolute(u16),
    DcpZeroPage(u8),
    DcpXZeroPage(u8),
    DcpXIndexedIndirect(u8),
    DcpYIndirectIndexed(u8),
    DcpAbsolute(u16),
    DcpXAbsolute(u16),
    DcpYAbsolute(u16),
    IsbZeroPage(u8),
    IsbXZeroPage(u8),
    IsbXIndexedIndirect(u8),
    IsbYIndirectIndexed(u8),
    IsbAbsolute(u16),
    IsbXAbsolute(u16),
    IsbYAbsolute(u16),
}

/// The operation an instruction performs, independent of its addressing mode.
#[derive(Debug, Clone, Copy, PartialEq, Eq, Structural)]
pub enum Op {
    Adc,
    And,
    Asl,
    Bcc,
    Bcs,
    Beq,
    Bit,
    Bmi,
    Bne,
    Bpl,
    Brk,
    Bvc,
    Bvs,
    Clc,
    Cld,
    Cli,
    Clv,
    Cmp,
    Cpx,
    Cpy,
    Dec,
    Dex,
    Dey,
    Eor,
    Inc,
    Inx,
    Iny,
    Jmp,
    Jsr,
    Lda,
    Ldx,
    Ldy,
    Lsr,
    Nop,
    Ora,
    Pha,
    Php,
    Pla,
    Plp,
    Rol,
    Ror,
    Rti,
    Rts,
    Sbc,
    Sec,
    Sed,
    Sei,
    Sta,
    Stx,
    Sty,
    Tax,
    Tay,
    Tsx,
    Txa,
    Txs,
    Tya,
    Slo,
    Rla,
    Sre,
    Rra,
    Sax,
    Lax,
    Dcp,
    Isb,
}

/// How an instruction finds its operand.
#[derive(Debug, Clone, Copy, PartialEq, Eq, Structural)]
pub enum Operand {
    /// No operand, or the accumulator.
    Implied,
    Immediate(u8),
    ZeroPage(u8),
    ZeroPageX(u8),
    ZeroPageY(u8),
    Absolute(u16),
    AbsoluteX(u16),
    AbsoluteY(u16),
    /// `(zp,X)`: the address is read from the zero page at `zp + X`.
    IndexedIndirect(u8),
    /// `(zp),Y`: the address read from the zero page at `zp`, plus `Y`.
    IndirectIndexed(u8),
    /// A signed branch offset.
    Relative(u8),
    /// `JMP (addr)`.
    Indirect(u16),
}

/// The little-endian 16-bit word made of `lo` and `hi`.
pub open spec fn le_word(lo: u8, hi: u8) -> u16 {
    (lo as int + hi as int * 256) as u16
}

/// The byte at `i`, or 0 past the end.
pub open spec fn byte_at(bytes: Seq<u8>, i: int) -> u8 {
    if 0 <= i < bytes.len() {
        bytes[i]
    } else {
        0
    }
}

/// The instruction that the bytes begin with, or the opcode when no
/// instruction has it.
pub open spec fn decode(bytes: Seq<u8>) -> Result<Instruction, u8> {
    let b = byte_at(bytes, 1);
    let w = le_word(byte_at(bytes, 1), byte_at(bytes, 2));
    match byte_at(bytes, 0) {
        0x00u8 => Ok(Instruction::Brk),
        0x01u8 => Ok(Instruction::OraXIndexedIndirect(b)),
        0x03u8 => Ok(Instruction::SloXIndexedIndirect(b)),
        0x04u8 => Ok(Instruction::NopZeroPage(b)),
        0x05u8 => Ok(Instruction::OraZeroPage(b)),
        0x06u8 => Ok(Instruction::AslZeroPage(b)),
        0x07u8 => Ok(Instruction::SloZeroPage(b)),
        0x08u8 => Ok(Instruction::Php),
        0x09u8 => Ok(Instruction::OraImmediate(b)),
        0x0au8 => Ok(Instruction::Asl),
        0x0cu8 => Ok(Instruction::NopAbsolute(w)),
        0x0du8 => Ok(Instruction::OraAbsolute(w)),
        0x0eu8 => Ok(Instruction::AslAbsolute(w)),
        0x0fu8 => Ok(Instruction::SloAbsolute(w)),
        0x10u8 => Ok(Instruction::Bpl(b)),
        0x11u8 => Ok(Instruction::OraYIndirectIndexed(b)),
        0x13u8 => Ok(Instruction::SloYIndirectIndexed(b)),
        0x14u8 => Ok(Instruction::NopXZeroPage(b)),
        0x15u8 => Ok(Instruction::OraXZeroPage(b)),
        0x16u8 => Ok(Instruction::AslXZeroPage(b)),
        0x17u8 => Ok(Instruction::SloXZeroPage(b)),
        0x18u8 => Ok(Instruction::Clc),
        0x19u8 => Ok(Instruction::OraYAbsolute(w)),
        0x1au8 => Ok(Instruction::Nop2),
        0x1bu8 => Ok(Instruction::SloYAbsolute(w)),
        0x1cu8 => Ok(Instruction::NopXAbsolute(w)),
        0x1du8 => Ok(Instruction::OraXAbsolute(w)),
        0x1eu8 => Ok(Instruction::AslXAbsolute(w)),
        0x1fu8 => Ok(Instruction::SloXAbsolute(w)),
        0x20u8 => Ok(Instruction::JsrAbsolute(w)),
        0x21u8 => Ok(Instruction::AndXIndexedIndirect(b)),
        0x23u8 => Ok(Instruction::RlaXIndexedIndirect(b)),
        0x24u8 => Ok(Instruction::BitZeroPage(b)),
        0x25u8 => Ok(Instruction::AndZeroPage(b)),
        0x26u8 => Ok(Instruction::RolZeroPage(b)),
        0x27u8 => Ok(Instruction::RlaZeroPage(b)),
        0x28u8 => Ok(Instruction::Plp),
        0x29u8 => Ok(Instruction::AndImmediate(b)),
        0x2au8 => Ok(Instruction::Rol),
        0x2cu8 => Ok(Instruction::BitAbsolute(w)),
        0x2du8 => Ok(Instruction::AndAbsolute(w)),
        0x2eu8 => Ok(Instruction::RolAbsolute(w)),
        0x2fu8 => Ok(Instruction::RlaAbsolute(w)),
        0x30u8 => Ok(Instruction::Bmi(b)),
        0x31u8 => Ok(Instruction::AndYIndirectIndexed(b)),
        0x33u8 => Ok(Instruction::RlaYIndirectIndexed(b)),
        0x34u8 => Ok(Instruction::NopXZeroPage(b)),
        0x35u8 => Ok(Instruction::AndXZeroPage(b)),
        0x36u8 => Ok(Instruction::RolXZeroPage(b)),
        0x37u8 => Ok(Instruction::RlaXZeroPage(b)),
        0x38u8 => Ok(Instruction::Sec),
        0x39u8 => Ok(Instruction::AndYAbsolute(w)),
        0x3au8 => Ok(Instruction::Nop2),
        0x3bu8 => Ok(Instruction::RlaYAbsolute(w)),
        0x3cu8 => Ok(Instruction::NopXAbsolute(w)),
        0x3du8 => Ok(Instruction::AndXAbsolute(w)),
        0x3eu8 => Ok(Instruction::RolXAbsolute(w)),
        0x3fu8 => Ok(Instruction::RlaXAbsolute(w)),
        0x40u8 => Ok(Instruction::Rti),
        0x41u8 => Ok(Instruction::EorXIndexedIndirect(b)),
        0x43u8 => Ok(Instruction::SreXIndexedIndirect(b)),
        0x44u8 => Ok(Instruction::NopZeroPage(b)),
        0x45u8 => Ok(Instruction::EorZeroPage(b)),
        0x46u8 => Ok(Instruction::LsrZeroPage(b)),
        0x47u8 => Ok(Instruction::SreZeroPage(b)),
        0x48u8 => Ok(Instruction::Pha),
        0x49u8 => Ok(Instruction::EorImmediate(b)),
        0x4au8 => Ok(Instruction::Lsr),
        0x4cu8 => Ok(Instruction::JmpAbsolute(w)),
        0x4du8 => Ok(Instruction::EorAbsolute(w)),
        0x4eu8 => Ok(Instruction::LsrAbsolute(w)),
        0x4fu8 => Ok(Instruction::SreAbsolute(w)),
        0x50u8 => Ok(Instruction::Bvc(b)),
        0x51u8 => Ok(Instruction::EorYIndirectIndexed(b)),
        0x53u8 => Ok(Instruction::SreYIndirectIndexed(b)),
        0x54u8 => Ok(Instruction::NopXZeroPage(b)),
        0x55u8 => Ok(Instruction::EorXZeroPage(b)),
        0x56u8 => Ok(Instruction::LsrXZeroPage(b)),
        0x57u8 => Ok(Instruction::SreXZeroPage(b)),
        0x58u8 => Ok(Instruction::Cli),
        0x59u8 => Ok(Instruction::EorYAbsolute(w)),
        0x5au8 => Ok(Instruction::Nop2),
        0x5bu8 => Ok(Instruction::SreYAbsolute(w)),
        0x5cu8 => Ok(Instruction::NopXAbsolute(w)),
        0x5du8 => Ok(Instruction::EorXAbsolute(w)),
        0x5eu8 => Ok(Instruction::LsrXAbsolute(w)),
        0x5fu8 => Ok(Instruction::SreXAbsolute(w)),
        0x60u8 => Ok(Instruction::Rts),
        0x61u8 => Ok(Instruction::AdcXIndexedIndirect(b)),
        0x63u8 => Ok(Instruction::RraXIndexedIndirect(b)),
        0x64u8 => Ok(Instruction::NopZeroPage(b)),
        0x65u8 => Ok(Instruction::AdcZeroPage(b)),
        0x66u8 => Ok(Instruction::RorZeroPage(b)),
        0x67u8 => Ok(Instruction::RraZeroPage(b)),
        0x68u8 => Ok(Instruction::Pla),
        0x69u8 => Ok(Instruction::AdcImmediate(b)),
        0x6au8 => Ok(Instruction::Ror),
        0x6cu8 => Ok(Instruction::JmpIndirect(w)),
        0x6du8 => Ok(Instruction::AdcAbsolute(w)),
        0x6eu8 => Ok(Instruction::RorAbsolute(w)),
        0x6fu8 => Ok(Instruction::RraAbsolute(w)),
        0x70u8 => Ok(Instruction::Bvs(b)),
        0x71u8 => Ok(Instruction::AdcYIndirectIndexed(b)),
        0x73u8 => Ok(Instruction::RraYIndirectIndexed(b)),
        0x74u8 => Ok(Instruction::NopXZeroPage(b)),
        0x75u8 => Ok(Instruction::AdcXZeroPage(b)),
        0x76u8 => Ok(Instruction::RorXZeroPage(b)),
        0x77u8 => Ok(Instruction::RraXZeroPage(b)),
        0x78u8 => Ok(Instruction::Sei),
        0x79u8 => Ok(Instruction::AdcYAbsolute(w)),
        0x7au8 => Ok(Instruction::Nop2),
        0x7bu8 => Ok(Instruction::RraYAbsolute(w)),
        0x7cu8 => Ok(Instruction::NopXAbsolute(w)),
        0x7du8 => Ok(Instruction::AdcXAbsolute(w)),
        0x7eu8 => Ok(Instruction::RorXAbsolute(w)),
        0x7fu8 => Ok(Instruction::RraXAbsolute(w)),
        0x80u8 => Ok(Instruction::NopImmediate(b)),
        0x81u8 => Ok(Instruction::StaXIndexedIndirect(b)),
        0x82u8 => Ok(Instruction::NopImmediate(b)),
        0x83u8 => Ok(Instruction::SaxXIndexedIndirect(b)),
        0x84u8 => Ok(Instruction::StyZeroPage(b)),
        0x85u8 => Ok(Instruction::StaZeroPage(b)),
        0x86u8 => Ok(Instruction::StxZeroPage(b)),
        0x87u8 => Ok(Instruction::SaxZeroPage(b)),
        0x88u8 => Ok(Instruction::Dey),
        0x89u8 => Ok(Instruction::NopImmediate(b)),
        0x8au8 => Ok(Instruction::Txa),
        0x8cu8 => Ok(Instruction::StyAbsolute(w)),
        0x8du8 => Ok(Instruction::StaAbsolute(w)),
        0x8eu8 => Ok(Instruction::StxAbsolute(w)),
        0x8fu8 => Ok(Instruction::SaxAbsolute(w)),
        0x90u8 => Ok(Instruction::Bcc(b)),
        0x91u8 => Ok(Instruction::StaYIndirectIndexed(b)),
        0x94u8 => Ok(Instruction::StyXZeroPage(b)),
        0x95u8 => Ok(Instruction::StaXZeroPage(b)),
        0x96u8 => Ok(Instruction::StxYZeroPage(b)),
        0x97u8 => Ok(Instruction::SaxYZeroPage(b)),
        0x98u8 => Ok(Instruction::Tya),
        0x99u8 => Ok(Instruction::StaYAbsolute(w)),
        0x9au8 => Ok(Instruction::Txs),
        0x9du8 => Ok(Instruction::StaXAbsolute(w)),
        0xa0u8 => Ok(Instruction::LdyImmediate(b)),
        0xa1u8 => Ok(Instruction::LdaXIndexedIndirect(b)),
        0xa2u8 => Ok(Instruction::LdxImmediate(b)),
        0xa3u8 => Ok(Instruction::LaxXIndexedIndirect(b)),
        0xa4u8 => Ok(Instruction::LdyZeroPage(b)),
        0xa5u8 => Ok(Instruction::LdaZeroPage(b)),
        0xa6u8 => Ok(Instruction::LdxZeroPage(b)),
        0xa7u8 => Ok(Instruction::LaxZeroPage(b)),
        0xa8u8 => Ok(Instruction::Tay),
        0xa9u8 => Ok(Instruction::LdaImmediate(b)),
        0xaau8 => Ok(Instruction::Tax),
        0xacu8 => Ok(Instruction::LdyAbsolute(w)),
        0xadu8 => Ok(Instruction::LdaAbsolute(w)),
        0xaeu8 => Ok(Instruction::LdxAbsolute(w)),
        0xafu8 => Ok(Instruction::LaxAbsolute(w)),
        0xb0u8 => Ok(Instruction::Bcs(b)),
        0xb1u8 => Ok(Instruction::LdaYIndirectIndexed(b)),
        0xb3u8 => Ok(Instruction::LaxYIndirectIndexed(b)),
        0xb4u8 => Ok(Instruction::LdyXZeroPage(b)),
        0xb5u8 => Ok(Instruction::LdaXZeroPage(b)),
        0xb6u8 => Ok(Instruction::LdxYZeroPage(b)),
        0xb7u8 => Ok(Instruction::LaxYZeroPage(b)),
        0xb8u8 => Ok(Instruction::Clv),
        0xb9u8 => Ok(Instruction::LdaYAbsolute(w)),
        0xbau8 => Ok(Instruction::Tsx),
        0xbcu8 => Ok(Instruction::LdyXAbsolute(w)),
        0xbdu8 => Ok(Instruction::LdaXAbsolute(w)),
        0xbeu8 => Ok(Instruction::LdxYAbsolute(w)),
        0xbfu8 => Ok(Instruction::LaxYAbsolute(w)),
        0xc0u8 => Ok(Instruction::CpyImmediate(b)),
        0xc1u8 => Ok(Instruction::CmpXIndexedIndirect(b)),
        0xc2u8 => Ok(Instruction::NopImmediate(b)),
        0xc3u8 => Ok(Instruction::DcpXIndexedIndirect(b)),
        0xc4u8 => Ok(Instruction::CpyZeroPage(b)),
        0xc5u8 => Ok(Instruction::CmpZeroPage(b)),
        0xc6u8 => Ok(Instruction::DecZeroPage(b)),
        0xc7u8 => Ok(Instruction::DcpZeroPage(b)),
        0xc8u8 => Ok(Instruction::Iny),
        0xc9u8 => Ok(Instruction::CmpImmediate(b)),
        0xcau8 => Ok(Instruction::Dex),
        0xccu8 => Ok(Instruction::CpyAbsolute(w)),
        0xcdu8 => Ok(Instruction::CmpAbsolute(w)),
        0xceu8 => Ok(Instruction::DecAbsolute(w)),
        0xcfu8 => Ok(Instruction::DcpAbsolute(w)),
        0xd0u8 => Ok(Instruction::Bne(b)),
        0xd1u8 => Ok(Instruction::CmpYIndirectIndexed(b)),
        0xd3u8 => Ok(Instruction::DcpYIndirectIndexed(b)),
        0xd4u8 => Ok(Instruction::NopXZeroPage(b)),
        0xd5u8 => Ok(Instruction::CmpXZeroPage(b)),
        0xd6u8 => Ok(Instruction::DecXZeroPage(b)),
        0xd7u8 => Ok(Instruction::DcpXZeroPage(b)),
        0xd8u8 => Ok(Instruction::Cld),
        0xd9u8 => Ok(Instruction::CmpYAbsolute(w)),
        0xdau8 => Ok(Instruction::Nop2),
        0xdbu8 => Ok(Instruction::DcpYAbsolute(w)),
        0xdcu8 => Ok(Instruction::NopXAbsolute(w)),
        0xddu8 => Ok(Instruction::CmpXAbsolute(w)),
        0xdeu8 => Ok(Instruction::DecXAbsolute(w)),
        0xdfu8 => Ok(Instruction::DcpXAbsolute(w)),
        0xe0u8 => Ok(Instruction::CpxImmediate(b)),
        0xe1u8 => Ok(Instruction::SbcXIndexedIndirect(b)),
        0xe2u8 => Ok(Instruction::NopImmediate(b)),
        0xe3u8 => Ok(Instruction::IsbXIndexedIndirect(b)),
        0xe4u8 => Ok(Instruction::CpxZeroPage(b)),
        0xe5u8 => Ok(Instruction::SbcZeroPage(b)),
        0xe6u8 => Ok(Instruction::IncZeroPage(b)),
        0xe7u8 => Ok(Instruction::IsbZeroPage(b)),
        0xe8u8 => Ok(Instruction::Inx),
        0xe9u8 => Ok(Instruction::SbcImmediate(b)),
        0xeau8 => Ok(Instruction::Nop),
        0xebu8 => Ok(Instruction::SbcImmediateIllegal(b)),
        0xecu8 => Ok(Instruction::CpxAbsolute(w)),
        0xedu8 => Ok(Instruction::SbcAbsolute(w)),
        0xeeu8 => Ok(Instruction::IncAbsolute(w)),
        0xefu8 => Ok(Instruction::IsbAbsolute(w)),
        0xf0u8 => Ok(Instruction::Beq(b)),
        0xf1u8 => Ok(Instruction::SbcYIndirectIndexed(b)),
        0xf3u8 => Ok(Instruction::IsbYIndirectIndexed(b)),
        0xf4u8 => Ok(Instruction::NopXZeroPage(b)),
        0xf5u8 => Ok(Instruction::SbcXZeroPage(b)),
        0xf6u8 => Ok(Instruction::IncXZeroPage(b)),
        0xf7u8 => Ok(Instruction::IsbXZeroPage(b)),
        0xf8u8 => Ok(Instruction::Sed),
        0xf9u8 => Ok(Instruction::SbcYAbsolute(w)),
        0xfau8 => Ok(Instruction::Nop2),
        0xfbu8 => Ok(Instruction::IsbYAbsolute(w)),
        0xfcu8 => Ok(Instruction::NopXAbsolute(w)),
        0xfdu8 => Ok(Instruction::SbcXAbsolute(w)),
        0xfeu8 => Ok(Instruction::IncXAbsolute(w)),
        0xffu8 => Ok(Instruction::IsbXAbsolute(w)),
        op => Err(op),
    }
}

impl Instruction {
    /// The operation and operand of the instruction.
    pub open spec fn spec_parts(self) -> (Op, Operand) {
        match self {
            Instruction::AdcImmediate(b) => (Op::Adc, Operand::Immediate(b)),
            Instruction::AdcZeroPage(b) => (Op::Adc, Operand::ZeroPage(b)),
            Instruction::AdcXZeroPage(b) => (Op::Adc, Operand::ZeroPageX(b)),
            Instruction::AdcXIndexedIndirect(b) => (Op::Adc, Operand::IndexedIndirect(b)),
            Instruction::AdcYIndirectIndexed(b) => (Op::Adc, Operand::IndirectIndexed(b)),
            Instruction::AdcAbsolute(b) => (Op::Adc, Operand::Absolute(b)),
            Instruction::AdcXAbsolute(b) => (Op::Adc, Operand::AbsoluteX(b)),
            Instruction::AdcYAbsolute(b) => (Op::Adc, Operand::AbsoluteY(b)),
            Instruction::AndImmediate(b) => (Op::And, Operand::Immediate(b)),
            Instruction::AndZeroPage(b) => (Op::And, Operand::ZeroPage(b)),
            Instruction::AndXZeroPage(b) => (Op::And, Operand::ZeroPageX(b)),
            Instruction::AndXIndexedIndirect(b) => (Op::And, Operand::IndexedIndirect(b)),
            Instruction::AndYIndirectIndexed(b) => (Op::And, Operand::IndirectIndexed(b)),
            Instruction::AndAbsolute(b) => (Op::And, Operand::Absolute(b)),
            Instruction::AndXAbsolute(b) => (Op::And, Operand::AbsoluteX(b)),
            Instruction::AndYAbsolute(b) => (Op::And, Operand::AbsoluteY(b)),
            Instruction::Beq(b) => (Op::Beq, Operand::Relative(b)),
            Instruction::BitAbsolute(b) => (Op::Bit, Operand::Absolute(b)),
            Instruction::BitZeroPage(b) => (Op::Bit, Operand::ZeroPage(b)),
            Instruction::Brk => (Op::Brk, Operand::Implied),
            Instruction::Bmi(b) => (Op::Bmi, Operand::Relative(b)),
            Instruction::Bne(b) => (Op::Bne, Operand::Relative(b)),
            Instruction::Bpl(b) => (Op::Bpl, Operand::Relative(b)),
            Instruction::Bvc(b) => (Op::Bvc, Operand::Relative(b)),
            Instruction::Bvs(b) => (Op::Bvs, Operand::Relative(b)),
            Instruction::Bcc(b) => (Op::Bcc, Operand::Relative(b)),
            Instruction::Bcs(b) => (Op::Bcs, Operand::Relative(b)),
            Instruction::Clc => (Op::Clc, Operand::Implied),
            Instruction::Cld => (Op::Cld, Operand::Implied),
            Instruction::Cli => (Op::Cli, Operand::Implied),
            Instruction::Clv => (Op::Clv, Operand::Implied),
            Instruction::CmpImmediate(b) => (Op::Cmp, Operand::Immediate(b)),
            Instruction::CmpZeroPage(b) => (Op::Cmp, Operand::ZeroPage(b)),
            Instruction::CmpXZeroPage(b) => (Op::Cmp, Operand::ZeroPageX(b)),
            Instruction::CmpXIndexedIndirect(b) => (Op::Cmp, Operand::IndexedIndirect(b)),
            Instruction::CmpYIndirectIndexed(b) => (Op::Cmp, Operand::IndirectIndexed(b)),
            Instruction::CmpAbsolute(b) => (Op::Cmp, Operand::Absolute(b)),
            Instruction::CmpXAbsolute(b) => (Op::Cmp, Operand::AbsoluteX(b)),
            Instruction::CmpYAbsolute(b) => (Op::Cmp, Operand::AbsoluteY(b)),
            Instruction::CpxImmediate(b) => (Op::Cpx, Operand::Immediate(b)),
            Instruction::CpxZeroPage(b) => (Op::Cpx, Operand::ZeroPage(b)),
            Instruction::CpxAbsolute(b) => (Op::Cpx, Operand::Absolute(b)),
            Instruction::CpyImmediate(b) => (Op::Cpy, Operand::Immediate(b)),
            Instruction::CpyZeroPage(b) => (Op::Cpy, Operand::ZeroPage(b)),
            Instruction::CpyAbsolute(b) => (Op::Cpy, Operand::Absolute(b)),
            Instruction::DecZeroPage(b) => (Op::Dec, Operand::ZeroPage(b)),
            Instruction::DecXZeroPage(b) => (Op::Dec, Operand::ZeroPageX(b)),
            Instruction::DecAbsolute(b) => (Op::Dec, Operand::Absolute(b)),
            Instruction::DecXAbsolute(b) => (Op::Dec, Operand::AbsoluteX(b)),
            Instruction::Dex => (Op::Dex, Operand::Implied),
            Instruction::Dey => (Op::Dey, Operand::Implied),
            Instruction::EorImmediate(b) => (Op::Eor, Operand::Immediate(b)),
            Instruction::EorZeroPage(b) => (Op::Eor, Operand::ZeroPage(b)),
            Instruction::EorXZeroPage(b) => (Op::Eor, Operand::ZeroPageX(b)),
            Instruction::EorXIndexedIndirect(b) => (Op::Eor, Operand::IndexedIndirect(b)),
            Instruction::EorYIndirectIndexed(b) => (Op::Eor, Operand::IndirectIndexed(b)),
            Instruction::EorAbsolute(b) => (Op::Eor, Operand::Absolute(b)),
            Instruction::EorXAbsolute(b) => (Op::Eor, Operand::AbsoluteX(b)),
            Instruction::EorYAbsolute(b) => (Op::Eor, Operand::AbsoluteY(b)),
            Instruction::LdaImmediate(b) => (Op::Lda, Operand::Immediate(b)),
            Instruction::LdaAbsolute(b) => (Op::Lda, Operand::Absolute(b)),
            Instruction::LdaXAbsolute(b) => (Op::Lda, Operand::AbsoluteX(b)),
            Instruction::LdaYAbsolute(b) => (Op::Lda, Operand::AbsoluteY(b)),
            Instruction::LdaZeroPage(b) => (Op::Lda, Operand::ZeroPage(b)),
            Instruction::LdaXZeroPage(b) => (Op::Lda, Operand::ZeroPageX(b)),
            Instruction::LdaXIndexedIndirect(b) => (Op::Lda, Operand::IndexedIndirect(b)),
            Instruction::LdaYIndirectIndexed(b) => (Op::Lda, Operand::IndirectIndexed(b)),
            Instruction::LdxAbsolute(b) => (Op::Ldx, Operand::Absolute(b)),
            Instruction::LdxYAbsolute(b) => (Op::Ldx, Operand::AbsoluteY(b)),
            Instruction::LdxImmediate(b) => (Op::Ldx, Operand::Immediate(b)),
            Instruction::LdxZeroPage(b) => (Op::Ldx, Operand::ZeroPage(b)),
            Instruction::LdxYZeroPage(b) => (Op::Ldx, Operand::ZeroPageY(b)),
            Instruction::LdyAbsolute(b) => (Op::Ldy, Operand::Absolute(b)),
            Instruction::LdyXAbsolute(b) => (Op::Ldy, Operand::AbsoluteX(b)),
            Instruction::LdyImmediate(b) => (Op::Ldy, Operand::Immediate(b)),
            Instruction::LdyZeroPage(b) => (Op::Ldy, Operand::ZeroPage(b)),
            Instruction::LdyXZeroPage(b) => (Op::Ldy, Operand::ZeroPageX(b)),
            Instruction::IncZeroPage(b) => (Op::Inc, Operand::ZeroPage(b)),
            Instruction::IncXZeroPage(b) => (Op::Inc, Operand::ZeroPageX(b)),
            Instruction::IncAbsolute(b) => (Op::Inc, Operand::Absolute(b)),
            Instruction::IncXAbsolute(b) => (Op::Inc, Operand::AbsoluteX(b)),
            Instruction::Inx => (Op::Inx, Operand::Implied),
            Instruction::Iny => (Op::Iny, Operand::Implied),
            Instruction::JmpAbsolute(b) => (Op::Jmp, Operand::Absolute(b)),
            Instruction::JmpIndirect(b) => (Op::Jmp, Operand::Indirect(b)),
            Instruction::JsrAbsolute(b) => (Op::Jsr, Operand::Absolute(b)),
            Instruction::Nop => (Op::Nop, Operand::Implied),
            Instruction::OraImmediate(b) => (Op::Ora, Operand::Immediate(b)),
            Instruction::OraZeroPage(b) => (Op::Ora, Operand::ZeroPage(b)),
            Instruction::OraXZeroPage(b) => (Op::Ora, Operand::ZeroPageX(b)),
            Instruction::OraXIndexedIndirect(b) => (Op::Ora, Operand::IndexedIndirect(b)),
            Instruction::OraYIndirectIndexed(b) => (Op::Ora, Operand::IndirectIndexed(b)),
            Instruction::OraAbsolute(b) => (Op::Ora, Operand::Absolute(b)),
            Instruction::OraXAbsolute(b) => (Op::Ora, Operand::AbsoluteX(b)),
            Instruction::OraYAbsolute(b) => (Op::Ora, Operand::AbsoluteY(b)),
            Instruction::Pha => (Op::Pha, Operand::Implied),
            Instruction::Php => (Op::Php, Operand::Implied),
            Instruction::Pla => (Op::Pla, Operand::Implied),
            Instruction::Plp => (Op::Plp, Operand::Implied),
            Instruction::Rti => (Op::Rti, Operand::Implied),
            Instruction::Rts => (Op::Rts, Operand::Implied),
            Instruction::Sec => (Op::Sec, Operand::Implied),
            Instruction::Sed => (Op::Sed, Operand::Implied),
            Instruction::Sei => (Op::Sei, Operand::Implied),
            Instruction::StaAbsolute(b) => (Op::Sta, Operand::Absolute(b)),
            Instruction::StaXAbsolute(b) => (Op::Sta, Operand::AbsoluteX(b)),
            Instruction::StaYAbsolute(b) => (Op::Sta, Operand::AbsoluteY(b)),
            Instruction::StaZeroPage(b) => (Op::Sta, Operand::ZeroPage(b)),
            Instruction::StaXZeroPage(b) => (Op::Sta, Operand::ZeroPageX(b)),
            Instruction::StaXIndexedIndirect(b) => (Op::Sta, Operand::IndexedIndirect(b)),
            Instruction::StaYIndirectIndexed(b) => (Op::Sta, Operand::IndirectIndexed(b)),
            Instruction::StxAbsolute(b) => (Op::Stx, Operand::Absolute(b)),
            Instruction::StxYZeroPage(b) => (Op::Stx, Operand::ZeroPageY(b)),
            Instruction::StxZeroPage(b) => (Op::Stx, Operand::ZeroPage(b)),
            Instruction::StyAbsolute(b) => (Op::Sty, Operand::Absolute(b)),
            Instruction::StyXZeroPage(b) => (Op::Sty, Operand::ZeroPageX(b)),
            Instruction::StyZeroPage(b) => (Op::Sty, Operand::ZeroPage(b)),
            Instruction::Tax => (Op::Tax, Operand::Implied),
            Instruction::Tay => (Op::Tay, Operand::Implied),
            Instruction::Tsx => (Op::Tsx, Operand::Implied),
            Instruction::Txa => (Op::Txa, Operand::Implied),
            Instruction::Txs => (Op::Txs, Operand::Implied),
            Instruction::Tya => (Op::Tya, Operand::Implied),
            Instruction::Asl => (Op::Asl, Operand::Implied),
            Instruction::AslZeroPage(b) => (Op::Asl, Operand::ZeroPage(b)),
            Instruction::AslXZeroPage(b) => (Op::Asl, Operand::ZeroPageX(b)),
            Instruction::AslAbsolute(b) => (Op::Asl, Operand::Absolute(b)),
            Instruction::AslXAbsolute(b) => (Op::Asl, Operand::AbsoluteX(b)),
            Instruction::Rol => (Op::Rol, Operand::Implied),
            Instruction::RolZeroPage(b) => (Op::Rol, Operand::ZeroPage(b)),
            Instruction::RolXZeroPage(b) => (Op::Rol, Operand::ZeroPageX(b)),
            Instruction::RolAbsolute(b) => (Op::Rol, Operand::Absolute(b)),
            Instruction::RolXAbsolute(b) => (Op::Rol, Operand::AbsoluteX(b)),
            Instruction::Lsr => (Op::Lsr, Operand::Implied),
            Instruction::LsrZeroPage(b) => (Op::Lsr, Operand::ZeroPage(b)),
            Instruction::LsrXZeroPage(b) => (Op::Lsr, Operand::ZeroPageX(b)),
            Instruction::LsrAbsolute(b) => (Op::Lsr, Operand::Absolute(b)),
            Instruction::LsrXAbsolute(b) => (Op::Lsr, Operand::AbsoluteX(b)),
            Instruction::Ror => (Op::Ror, Operand::Implied),
            Instruction::RorZeroPage(b) => (Op::Ror, Operand::ZeroPage(b)),
            Instruction::RorXZeroPage(b) => (Op::Ror, Operand::ZeroPageX(b)),
            Instruction::RorAbsolute(b) => (Op::Ror, Operand::Absolute(b)),
            Instruction::RorXAbsolute(b) => (Op::Ror, Operand::AbsoluteX(b)),
            Instruction::SbcImmediate(b) => (Op::Sbc, Operand::Immediate(b)),
            Instruction::SbcZeroPage(b) => (Op::Sbc, Operand::ZeroPage(b)),
            Instruction::SbcXZeroPage(b) => (Op::Sbc, Operand::ZeroPageX(b)),
            Instruction::SbcXIndexedIndirect(b) => (Op::Sbc, Operand::IndexedIndirect(b)),
            Instruction::SbcYIndirectIndexed(b) => (Op::Sbc, Operand::IndirectIndexed(b)),
            Instruction::SbcAbsolute(b) => (Op::Sbc, Operand::Absolute(b)),
            Instruction::SbcXAbsolute(b) => (Op::Sbc, Operand::AbsoluteX(b)),
            Instruction::SbcYAbsolute(b) => (Op::Sbc, Operand::AbsoluteY(b)),
            Instruction::Nop2 => (Op::Nop, Operand::Implied),
            Instruction::NopImmediate(b) => (Op::Nop, Operand::Immediate(b)),
            Instruction::NopZeroPage(b) => (Op::Nop, Operand::ZeroPage(b)),
            Instruction::NopXZeroPage(b) => (Op::Nop, Operand::ZeroPageX(b)),
            Instruction::NopAbsolute(b) => (Op::Nop, Operand::Absolute(b)),
            Instruction::NopXAbsolute(b) => (Op::Nop, Operand::AbsoluteX(b)),
            Instruction::SbcImmediateIllegal(b) => (Op::Sbc, Operand::Immediate(b)),
            Instruction::SloZeroPage(b) => (Op::Slo, Operand::ZeroPage(b)),
            Instruction::SloXZeroPage(b) => (Op::Slo, Operand::ZeroPageX(b)),
            Instruction::SloXIndexedIndirect(b) => (Op::Slo, Operand::IndexedIndirect(b)),
            Instruction::SloYIndirectIndexed(b) => (Op::Slo, Operand::IndirectIndexed(b)),
            Instruction::SloAbsolute(b) => (Op::Slo, Operand::Absolute(b)),
            Instruction::SloXAbsolute(b) => (Op::Slo, Operand::AbsoluteX(b)),
            Instruction::SloYAbsolute(b) => (Op::Slo, Operand::AbsoluteY(b)),
            Instruction::RlaZeroPage(b) => (Op::Rla, Operand::ZeroPage(b)),
            Instruction::RlaXZeroPage(b) => (Op::Rla, Operand::ZeroPageX(b)),
            Instruction::RlaXIndexedIndirect(b) => (Op::Rla, Operand::IndexedIndirect(b)),
            Instruction::RlaYIndirectIndexed(b) => (Op::Rla, Operand::IndirectIndexed(b)),
            Instruction::RlaAbsolute(b) => (Op::Rla, Operand::Absolute(b)),
            Instruction::RlaXAbsolute(b) => (Op::Rla, Operand::AbsoluteX(b)),
            Instruction::RlaYAbsolute(b) => (Op::Rla, Operand::AbsoluteY(b)),
            Instruction::SreZeroPage(b) => (Op::Sre, Operand::ZeroPage(b)),
            Instruction::SreXZeroPage(b) => (Op::Sre, Operand::ZeroPageX(b)),
            Instruction::SreXIndexedIndirect(b) => (Op::Sre, Operand::IndexedIndirect(b)),
            Instruction::SreYIndirectIndexed(b) => (Op::Sre, Operand::IndirectIndexed(b)),
            Instruction::SreAbsolute(b) => (Op::Sre, Operand::Absolute(b)),
            Instruction::SreXAbsolute(b) => (Op::Sre, Operand::AbsoluteX(b)),
            Instruction::SreYAbsolute(b) => (Op::Sre, Operand::AbsoluteY(b)),
            Instruction::RraZeroPage(b) => (Op::Rra, Operand::ZeroPage(b)),
            Instruction::RraXZeroPage(b) => (Op::Rra, Operand::ZeroPageX(b)),
            Instruction::RraXIndexedIndirect(b) => (Op::Rra, Operand::IndexedIndirect(b)),
            Instruction::RraYIndirectIndexed(b) => (Op::Rra, Operand::IndirectIndexed(b)),
            Instruction::RraAbsolute(b) => (Op::Rra, Operand::Absolute(b)),
            Instruction::RraXAbsolute(b) => (Op::Rra, Operand::AbsoluteX(b)),
            Instruction::RraYAbsolute(b) => (Op::Rra, Operand::AbsoluteY(b)),
            Instruction::SaxZeroPage(b) => (Op::Sax, Operand::ZeroPage(b)),
            Instruction::SaxYZeroPage(b) => (Op::Sax, Operand::ZeroPageY(b)),
            Instruction::SaxXIndexedIndirect(b) => (Op::Sax, Operand::IndexedIndirect(b)),
            Instruction::SaxAbsolute(b) => (Op::Sax, Operand::Absolute(b)),
            Instruction::LaxZeroPage(b) => (Op::Lax, Operand::ZeroPage(b)),
            Instruction::LaxYZeroPage(b) => (Op::Lax, Operand::ZeroPageY(b)),
            Instruction::LaxXIndexedIndirect(b) => (Op::Lax, Operand::IndexedIndirect(b)),
            Instruction::LaxYIndirectIndexed(b) => (Op::Lax, Operand::IndirectIndexed(b)),
            Instruction::LaxAbsolute(b) => (Op::Lax, Operand::Absolute(b)),
            Instruction::LaxYAbsolute(b) => (Op::Lax, Operand::AbsoluteY(b)),
            Instruction::DcpZeroPage(b) => (Op::Dcp, Operand::ZeroPage(b)),
            Instruction::DcpXZeroPage(b) => (Op::Dcp, Operand::ZeroPageX(b)),
            Instruction::DcpXIndexedIndirect(b) => (Op::Dcp, Operand::IndexedIndirect(b)),
            Instruction::DcpYIndirectIndexed(b) => (Op::Dcp, Operand::IndirectIndexed(b)),
            Instruction::DcpAbsolute(b) => (Op::Dcp, Operand::Absolute(b)),
            Instruction::DcpXAbsolute(b) => (Op::Dcp, Operand::AbsoluteX(b)),
            Instruction::DcpYAbsolute(b) => (Op::Dcp, Operand::AbsoluteY(b)),
            Instruction::IsbZeroPage(b) => (Op::Isb, Operand::ZeroPage(b)),
            Instruction::IsbXZeroPage(b) => (Op::Isb, Operand::ZeroPageX(b)),
            Instruction::IsbXIndexedIndirect(b) => (Op::Isb, Operand::IndexedIndirect(b)),
            Instruction::IsbYIndirectIndexed(b) => (Op::Isb, Operand::IndirectIndexed(b)),
            Instruction::IsbAbsolute(b) => (Op::Isb, Operand::Absolute(b)),
            Instruction::IsbXAbsolute(b) => (Op::Isb, Operand::AbsoluteX(b)),
            Instruction::IsbYAbsolute(b) => (Op::Isb, Operand::AbsoluteY(b)),
        }
    }

    /// The operation and operand of the instruction.
    pub fn parts(&self) -> (r: (Op, Operand))
        ensures
            r == self.spec_parts(),
    {
        match *self {
            Instruction::AdcImmediate(b) => (Op::Adc, Operand::Immediate(b)),
            Instruction::AdcZeroPage(b) => (Op::Adc, Operand::ZeroPage(b)),
            Instruction::AdcXZeroPage(b) => (Op::Adc, Operand::ZeroPageX(b)),
            Instruction::AdcXIndexedIndirect(b) => (Op::Adc, Operand::IndexedIndirect(b)),
            Instruction::AdcYIndirectIndexed(b) => (Op::Adc, Operand::IndirectIndexed(b)),
            Instruction::AdcAbsolute(b) => (Op::Adc, Operand::Absolute(b)),
            Instruction::AdcXAbsolute(b) => (Op::Adc, Operand::AbsoluteX(b)),
            Instruction::AdcYAbsolute(b) => (Op::Adc, Operand::AbsoluteY(b)),
            Instruction::AndImmediate(b) => (Op::And, Operand::Immediate(b)),
            Instruction::AndZeroPage(b) => (Op::And, Operand::ZeroPage(b)),
            Instruction::AndXZeroPage(b) => (Op::And, Operand::ZeroPageX(b)),
            Instruction::AndXIndexedIndirect(b) => (Op::And, Operand::IndexedIndirect(b)),
            Instruction::AndYIndirectIndexed(b) => (Op::And, Operand::IndirectIndexed(b)),
            Instruction::AndAbsolute(b) => (Op::And, Operand::Absolute(b)),
            Instruction::AndXAbsolute(b) => (Op::And, Operand::AbsoluteX(b)),
            Instruction::AndYAbsolute(b) => (Op::And, Operand::AbsoluteY(b)),
            Instruction::Beq(b) => (Op::Beq, Operand::Relative(b)),
            Instruction::BitAbsolute(b) => (Op::Bit, Operand::Absolute(b)),
            Instruction::BitZeroPage(b) => (Op::Bit, Operand::ZeroPage(b)),
            Instruction::Brk => (Op::Brk, Operand::Implied),
            Instruction::Bmi(b) => (Op::Bmi, Operand::Relative(b)),
            Instruction::Bne(b) => (Op::Bne, Operand::Relative(b)),
            Instruction::Bpl(b) => (Op::Bpl, Operand::Relative(b)),
            Instruction::Bvc(b) => (Op::Bvc, Operand::Relative(b)),
            Instruction::Bvs(b) => (Op::Bvs, Operand::Relative(b)),
            Instruction::Bcc(b) => (Op::Bcc, Operand::Relative(b)),
            Instruction::Bcs(b) => (Op::Bcs, Operand::Relative(b)),
            Instruction::Clc => (Op::Clc, Operand::Implied),
            Instruction::Cld => (Op::Cld, Operand::Implied),
            Instruction::Cli => (Op::Cli, Operand::Implied),
            Instruction::Clv => (Op::Clv, Operand::Implied),
            Instruction::CmpImmediate(b) => (Op::Cmp, Operand::Immediate(b)),
            Instruction::CmpZeroPage(b) => (Op::Cmp, Operand::ZeroPage(b)),
            Instruction::CmpXZeroPage(b) => (Op::Cmp, Operand::ZeroPageX(b)),
            Instruction::CmpXIndexedIndirect(b) => (Op::Cmp, Operand::IndexedIndirect(b)),
            Instruction::CmpYIndirectIndexed(b) => (Op::Cmp, Operand::IndirectIndexed(b)),
            Instruction::CmpAbsolute(b) => (Op::Cmp, Operand::Absolute(b)),
            Instruction::CmpXAbsolute(b) => (Op::Cmp, Operand::AbsoluteX(b)),
            Instruction::CmpYAbsolute(b) => (Op::Cmp, Operand::AbsoluteY(b)),
            Instruction::CpxImmediate(b) => (Op::Cpx, Operand::Immediate(b)),
            Instruction::CpxZeroPage(b) => (Op::Cpx, Operand::ZeroPage(b)),
            Instruction::CpxAbsolute(b) => (Op::Cpx, Operand::Absolute(b)),
            Instruction::CpyImmediate(b) => (Op::Cpy, Operand::Immediate(b)),
            Instruction::CpyZeroPage(b) => (Op::Cpy, Operand::ZeroPage(b)),
            Instruction::CpyAbsolute(b) => (Op::Cpy, Operand::Absolute(b)),
            Instruction::DecZeroPage(b) => (Op::Dec, Operand::ZeroPage(b)),
            Instruction::DecXZeroPage(b) => (Op::Dec, Operand::ZeroPageX(b)),
            Instruction::DecAbsolute(b) => (Op::Dec, Operand::Absolute(b)),
            Instruction::DecXAbsolute(b) => (Op::Dec, Operand::AbsoluteX(b)),
            Instruction::Dex => (Op::Dex, Operand::Implied),
            Instruction::Dey => (Op::Dey, Operand::Implied),
            Instruction::EorImmediate(b) => (Op::Eor, Operand::Immediate(b)),
            Instruction::EorZeroPage(b) => (Op::Eor, Operand::ZeroPage(b)),
            Instruction::EorXZeroPage(b) => (Op::Eor, Operand::ZeroPageX(b)),
            Instruction::EorXIndexedIndirect(b) => (Op::Eor, Operand::IndexedIndirect(b)),
            Instruction::EorYIndirectIndexed(b) => (Op::Eor, Operand::IndirectIndexed(b)),
            Instruction::EorAbsolute(b) => (Op::Eor, Operand::Absolute(b)),
            Instruction::EorXAbsolute(b) => (Op::Eor, Operand::AbsoluteX(b)),
            Instruction::EorYAbsolute(b) => (Op::Eor, Operand::AbsoluteY(b)),
            Instruction::LdaImmediate(b) => (Op::Lda, Operand::Immediate(b)),
            Instruction::LdaAbsolute(b) => (Op::Lda, Operand::Absolute(b)),
            Instruction::LdaXAbsolute(b) => (Op::Lda, Operand::AbsoluteX(b)),
            Instruction::LdaYAbsolute(b) => (Op::Lda, Operand::AbsoluteY(b)),
            Instruction::LdaZeroPage(b) => (Op::Lda, Operand::ZeroPage(b)),
            Instruction::LdaXZeroPage(b) => (Op::Lda, Operand::ZeroPageX(b)),
            Instruction::LdaXIndexedIndirect(b) => (Op::Lda, Operand::IndexedIndirect(b)),
            Instruction::LdaYIndirectIndexed(b) => (Op::Lda, Operand::IndirectIndexed(b)),
            Instruction::LdxAbsolute(b) => (Op::Ldx, Operand::Absolute(b)),
            Instruction::LdxYAbsolute(b) => (Op::Ldx, Operand::AbsoluteY(b)),
            Instruction::LdxImmediate(b) => (Op::Ldx, Operand::Immediate(b)),
            Instruction::LdxZeroPage(b) => (Op::Ldx, Operand::ZeroPage(b)),
            Instruction::LdxYZeroPage(b) => (Op::Ldx, Operand::ZeroPageY(b)),
            Instruction::LdyAbsolute(b) => (Op::Ldy, Operand::Absolute(b)),
            Instruction::LdyXAbsolute(b) => (Op::Ldy, Operand::AbsoluteX(b)),
            Instruction::LdyImmediate(b) => (Op::Ldy, Operand::Immediate(b)),
            Instruction::LdyZeroPage(b) => (Op::Ldy, Operand::ZeroPage(b)),
            Instruction::LdyXZeroPage(b) => (Op::Ldy, Operand::ZeroPageX(b)),
            Instruction::IncZeroPage(b) => (Op::Inc, Operand::ZeroPage(b)),
            Instruction::IncXZeroPage(b) => (Op::Inc, Operand::ZeroPageX(b)),
            Instruction::IncAbsolute(b) => (Op::Inc, Operand::Absolute(b)),
            Instruction::IncXAbsolute(b) => (Op::Inc, Operand::AbsoluteX(b)),
            Instruction::Inx => (Op::Inx, Operand::Implied),
            Instruction::Iny => (Op::Iny, Operand::Implied),
            Instruction::JmpAbsolute(b) => (Op::Jmp, Operand::Absolute(b)),
            Instruction::JmpIndirect(b) => (Op::Jmp, Operand::Indirect(b)),
            Instruction::JsrAbsolute(b) => (Op::Jsr, Operand::Absolute(b)),
            Instruction::Nop => (Op::Nop, Operand::Implied),
            Instruction::OraImmediate(b) => (Op::Ora, Operand::Immediate(b)),
            Instruction::OraZeroPage(b) => (Op::Ora, Operand::ZeroPage(b)),
            Instruction::OraXZeroPage(b) => (Op::Ora, Operand::ZeroPageX(b)),
            Instruction::OraXIndexedIndirect(b) => (Op::Ora, Operand::IndexedIndirect(b)),
            Instruction::OraYIndirectIndexed(b) => (Op::Ora, Operand::IndirectIndexed(b)),
            Instruction::OraAbsolute(b) => (Op::Ora, Operand::Absolute(b)),
            Instruction::OraXAbsolute(b) => (Op::Ora, Operand::AbsoluteX(b)),
            Instruction::OraYAbsolute(b) => (Op::Ora, Operand::AbsoluteY(b)),
            Instruction::Pha => (Op::Pha, Operand::Implied),
            Instruction::Php => (Op::Php, Operand::Implied),
            Instruction::Pla => (Op::Pla, Operand::Implied),
            Instruction::Plp => (Op::Plp, Operand::Implied),
            Instruction::Rti => (Op::Rti, Operand::Implied),
            Instruction::Rts => (Op::Rts, Operand::Implied),
            Instruction::Sec => (Op::Sec, Operand::Implied),
            Instruction::Sed => (Op::Sed, Operand::Implied),
            Instruction::Sei => (Op::Sei, Operand::Implied),
            Instruction::StaAbsolute(b) => (Op::Sta, Operand::Absolute(b)),
            Instruction::StaXAbsolute(b) => (Op::Sta, Operand::AbsoluteX(b)),
            Instruction::StaYAbsolute(b) => (Op::Sta, Operand::AbsoluteY(b)),
            Instruction::StaZeroPage(b) => (Op::Sta, Operand::ZeroPage(b)),
            Instruction::StaXZeroPage(b) => (Op::Sta, Operand::ZeroPageX(b)),
            Instruction::StaXIndexedIndirect(b) => (Op::Sta, Operand::IndexedIndirect(b)),
            Instruction::StaYIndirectIndexed(b) => (Op::Sta, Operand::IndirectIndexed(b)),
            Instruction::StxAbsolute(b) => (Op::Stx, Operand::Absolute(b)),
            Instruction::StxYZeroPage(b) => (Op::Stx, Operand::ZeroPageY(b)),
            Instruction::StxZeroPage(b) => (Op::Stx, Operand::ZeroPage(b)),
            Instruction::StyAbsolute(b) => (Op::Sty, Operand::Absolute(b)),
            Instruction::StyXZeroPage(b) => (Op::Sty, Operand::ZeroPageX(b)),
            Instruction::StyZeroPage(b) => (Op::Sty, Operand::ZeroPage(b)),
            Instruction::Tax => (Op::Tax, Operand::Implied),
            Instruction::Tay => (Op::Tay, Operand::Implied),
            Instruction::Tsx => (Op::Tsx, Operand::Implied),
            Instruction::Txa => (Op::Txa, Operand::Implied),
            Instruction::Txs => (Op::Txs, Operand::Implied),
            Instruction::Tya => (Op::Tya, Operand::Implied),
            Instruction::Asl => (Op::Asl, Operand::Implied),
            Instruction::AslZeroPage(b) => (Op::Asl, Operand::ZeroPage(b)),
            Instruction::AslXZeroPage(b) => (Op::Asl, Operand::ZeroPageX(b)),
            Instruction::AslAbsolute(b) => (Op::Asl, Operand::Absolute(b)),
            Instruction::AslXAbsolute(b) => (Op::Asl, Operand::AbsoluteX(b)),
            Instruction::Rol => (Op::Rol, Operand::Implied),
            Instruction::RolZeroPage(b) => (Op::Rol, Operand::ZeroPage(b)),
            Instruction::RolXZeroPage(b) => (Op::Rol, Operand::ZeroPageX(b)),
            Instruction::RolAbsolute(b) => (Op::Rol, Operand::Absolute(b)),
            Instruction::RolXAbsolute(b) => (Op::Rol, Operand::AbsoluteX(b)),
            Instruction::Lsr => (Op::Lsr, Operand::Implied),
            Instruction::LsrZeroPage(b) => (Op::Lsr, Operand::ZeroPage(b)),
            Instruction::LsrXZeroPage(b) => (Op::Lsr, Operand::ZeroPageX(b)),
            Instruction::LsrAbsolute(b) => (Op::Lsr, Operand::Absolute(b)),
            Instruction::LsrXAbsolute(b) => (Op::Lsr, Operand::AbsoluteX(b)),
            Instruction::Ror => (Op::Ror, Operand::Implied),
            Instruction::RorZeroPage(b) => (Op::Ror, Operand::ZeroPage(b)),
            Instruction::RorXZeroPage(b) => (Op::Ror, Operand::ZeroPageX(b)),
            Instruction::RorAbsolute(b) => (Op::Ror, Operand::Absolute(b)),
            Instruction::RorXAbsolute(b) => (Op::Ror, Operand::AbsoluteX(b)),
            Instruction::SbcImmediate(b) => (Op::Sbc, Operand::Immediate(b)),
            Instruction::SbcZeroPage(b) => (Op::Sbc, Operand::ZeroPage(b)),
            Instruction::SbcXZeroPage(b) => (Op::Sbc, Operand::ZeroPageX(b)),
            Instruction::SbcXIndexedIndirect(b) => (Op::Sbc, Operand::IndexedIndirect(b)),
            Instruction::SbcYIndirectIndexed(b) => (Op::Sbc, Operand::IndirectIndexed(b)),
            Instruction::SbcAbsolute(b) => (Op::Sbc, Operand::Absolute(b)),
            Instruction::SbcXAbsolute(b) => (Op::Sbc, Operand::AbsoluteX(b)),
            Instruction::SbcYAbsolute(b) => (Op::Sbc, Operand::AbsoluteY(b)),
            Instruction::Nop2 => (Op::Nop, Operand::Implied),
            Instruction::NopImmediate(b) => (Op::Nop, Operand::Immediate(b)),
            Instruction::NopZeroPage(b) => (Op::Nop, Operand::ZeroPage(b)),
            Instruction::NopXZeroPage(b) => (Op::Nop, Operand::ZeroPageX(b)),
            Instruction::NopAbsolute(b) => (Op::Nop, Operand::Absolute(b)),
            Instruction::NopXAbsolute(b) => (Op::Nop, Operand::AbsoluteX(b)),
            Instruction::SbcImmediateIllegal(b) => (Op::Sbc, Operand::Immediate(b)),
            Instruction::SloZeroPage(b) => (Op::Slo, Operand::ZeroPage(b)),
            Instruction::SloXZeroPage(b) => (Op::Slo, Operand::ZeroPageX(b)),
            Instruction::SloXIndexedIndirect(b) => (Op::Slo, Operand::IndexedIndirect(b)),
            Instruction::SloYIndirectIndexed(b) => (Op::Slo, Operand::IndirectIndexed(b)),
            Instruction::SloAbsolute(b) => (Op::Slo, Operand::Absolute(b)),
            Instruction::SloXAbsolute(b) => (Op::Slo, Operand::AbsoluteX(b)),
            Instruction::SloYAbsolute(b) => (Op::Slo, Operand::AbsoluteY(b)),
            Instruction::RlaZeroPage(b) => (Op::Rla, Operand::ZeroPage(b)),
            Instruction::RlaXZeroPage(b) => (Op::Rla, Operand::ZeroPageX(b)),
            Instruction::RlaXIndexedIndirect(b) => (Op::Rla, Operand::IndexedIndirect(b)),
            Instruction::RlaYIndirectIndexed(b) => (Op::Rla, Operand::IndirectIndexed(b)),
            Instruction::RlaAbsolute(b) => (Op::Rla, Operand::Absolute(b)),
            Instruction::RlaXAbsolute(b) => (Op::Rla, Operand::AbsoluteX(b)),
            Instruction::RlaYAbsolute(b) => (Op::Rla, Operand::AbsoluteY(b)),
            Instruction::SreZeroPage(b) => (Op::Sre, Operand::ZeroPage(b)),
            Instruction::SreXZeroPage(b) => (Op::Sre, Operand::ZeroPageX(b)),
            Instruction::SreXIndexedIndirect(b) => (Op::Sre, Operand::IndexedIndirect(b)),
            Instruction::SreYIndirectIndexed(b) => (Op::Sre, Operand::IndirectIndexed(b)),
            Instruction::SreAbsolute(b) => (Op::Sre, Operand::Absolute(b)),
            Instruction::SreXAbsolute(b) => (Op::Sre, Operand::AbsoluteX(b)),
            Instruction::SreYAbsolute(b) => (Op::Sre, Operand::AbsoluteY(b)),
            Instruction::RraZeroPage(b) => (Op::Rra, Operand::ZeroPage(b)),
            Instruction::RraXZeroPage(b) => (Op::Rra, Operand::ZeroPageX(b)),
            Instruction::RraXIndexedIndirect(b) => (Op::Rra, Operand::IndexedIndirect(b)),
            Instruction::RraYIndirectIndexed(b) => (Op::Rra, Operand::IndirectIndexed(b)),
            Instruction::RraAbsolute(b) => (Op::Rra, Operand::Absolute(b)),
            Instruction::RraXAbsolute(b) => (Op::Rra, Operand::AbsoluteX(b)),
            Instruction::RraYAbsolute(b) => (Op::Rra, Operand::AbsoluteY(b)),
            Instruction::SaxZeroPage(b) => (Op::Sax, Operand::ZeroPage(b)),
            Instruction::SaxYZeroPage(b) => (Op::Sax, Operand::ZeroPageY(b)),
            Instruction::SaxXIndexedIndirect(b) => (Op::Sax, Operand::IndexedIndirect(b)),
            Instruction::SaxAbsolute(b) => (Op::Sax, Operand::Absolute(b)),
            Instruction::LaxZeroPage(b) => (Op::Lax, Operand::ZeroPage(b)),
            Instruction::LaxYZeroPage(b) => (Op::Lax, Operand::ZeroPageY(b)),
            Instruction::LaxXIndexedIndirect(b) => (Op::Lax, Operand::IndexedIndirect(b)),
            Instruction::LaxYIndirectIndexed(b) => (Op::Lax, Operand::IndirectIndexed(b)),
            Instruction::LaxAbsolute(b) => (Op::Lax, Operand::Absolute(b)),
            Instruction::LaxYAbsolute(b) => (Op::Lax, Operand::AbsoluteY(b)),
            Instruction::DcpZeroPage(b) => (Op::Dcp, Operand::ZeroPage(b)),
            Instruction::DcpXZeroPage(b) => (Op::Dcp, Operand::ZeroPageX(b)),
            Instruction::DcpXIndexedIndirect(b) => (Op::Dcp, Operand::IndexedIndirect(b)),
            Instruction::DcpYIndirectIndexed(b) => (Op::Dcp, Operand::IndirectIndexed(b)),
            Instruction::DcpAbsolute(b) => (Op::Dcp, Operand::Absolute(b)),
            Instruction::DcpXAbsolute(b) => (Op::Dcp, Operand::AbsoluteX(b)),
            Instruction::DcpYAbsolute(b) => (Op::Dcp, Operand::AbsoluteY(b)),
            Instruction::IsbZeroPage(b) => (Op::Isb, Operand::ZeroPage(b)),
            Instruction::IsbXZeroPage(b) => (Op::Isb, Operand::ZeroPageX(b)),
            Instruction::IsbXIndexedIndirect(b) => (Op::Isb, Operand::IndexedIndirect(b)),
            Instruction::IsbYIndirectIndexed(b) => (Op::Isb, Operand::IndirectIndexed(b)),
            Instruction::IsbAbsolute(b) => (Op::Isb, Operand::Absolute(b)),
            Instruction::IsbXAbsolute(b) => (Op::Isb, Operand::AbsoluteX(b)),
            Instruction::IsbYAbsolute(b) => (Op::Isb, Operand::AbsoluteY(b)),
        }
    }

    /// The number of bytes the instruction takes in memory.
    pub open spec fn size(self) -> nat {
        operand_size(self.spec_parts().1) + 1
    }

    /// The canonical opcode of the instruction: the lowest opcode that
    /// decodes to it.
    pub open spec fn opcode(self) -> u8 {
        match self {
            Instruction::AdcImmediate(_) => 0x69u8,
            Instruction::AdcZeroPage(_) => 0x65u8,
            Instruction::AdcXZeroPage(_) => 0x75u8,
            Instruction::AdcXIndexedIndirect(_) => 0x61u8,
            Instruction::AdcYIndirectIndexed(_) => 0x71u8,
            Instruction::AdcAbsolute(_) => 0x6du8,
            Instruction::AdcXAbsolute(_) => 0x7du8,
            Instruction::AdcYAbsolute(_) => 0x79u8,
            Instruction::AndImmediate(_) => 0x29u8,
            Instruction::AndZeroPage(_) => 0x25u8,
            Instruction::AndXZeroPage(_) => 0x35u8,
            Instruction::AndXIndexedIndirect(_) => 0x21u8,
            Instruction::AndYIndirectIndexed(_) => 0x31u8,
            Instruction::AndAbsolute(_) => 0x2du8,
            Instruction::AndXAbsolute(_) => 0x3du8,
            Instruction::AndYAbsolute(_) => 0x39u8,
            Instruction::Beq(_) => 0xf0u8,
            Instruction::BitAbsolute(_) => 0x2cu8,
            Instruction::BitZeroPage(_) => 0x24u8,
            Instruction::Brk => 0x00u8,
            Instruction::Bmi(_) => 0x30u8,
            Instruction::Bne(_) => 0xd0u8,
            Instruction::Bpl(_) => 0x10u8,
            Instruction::Bvc(_) => 0x50u8,
            Instruction::Bvs(_) => 0x70u8,
            Instruction::Bcc(_) => 0x90u8,
            Instruction::Bcs(_) => 0xb0u8,
            Instruction::Clc => 0x18u8,
            Instruction::Cld => 0xd8u8,
            Instruction::Cli => 0x58u8,
            Instruction::Clv => 0xb8u8,
            Instruction::CmpImmediate(_) => 0xc9u8,
            Instruction::CmpZeroPage(_) => 0xc5u8,
            Instruction::CmpXZeroPage(_) => 0xd5u8,
            Instruction::CmpXIndexedIndirect(_) => 0xc1u8,
            Instruction::CmpYIndirectIndexed(_) => 0xd1u8,
            Instruction::CmpAbsolute(_) => 0xcdu8,
            Instruction::CmpXAbsolute(_) => 0xddu8,
            Instruction::CmpYAbsolute(_) => 0xd9u8,
            Instruction::CpxImmediate(_) => 0xe0u8,
            Instruction::CpxZeroPage(_) => 0xe4u8,
            Instruction::CpxAbsolute(_) => 0xecu8,
            Instruction::CpyImmediate(_) => 0xc0u8,
            Instruction::CpyZeroPage(_) => 0xc4u8,
            Instruction::CpyAbsolute(_) => 0xccu8,
            Instruction::DecZeroPage(_) => 0xc6u8,
            Instruction::DecXZeroPage(_) => 0xd6u8,
            Instruction::DecAbsolute(_) => 0xceu8,
            Instruction::DecXAbsolute(_) => 0xdeu8,
            Instruction::Dex => 0xcau8,
            Instruction::Dey => 0x88u8,
            Instruction::EorImmediate(_) => 0x49u8,
            Instruction::EorZeroPage(_) => 0x45u8,
            Instruction::EorXZeroPage(_) => 0x55u8,
            Instruction::EorXIndexedIndirect(_) => 0x41u8,
            Instruction::EorYIndirectIndexed(_) => 0x51u8,
            Instruction::EorAbsolute(_) => 0x4du8,
            Instruction::EorXAbsolute(_) => 0x5du8,
            Instruction::EorYAbsolute(_) => 0x59u8,
            Instruction::LdaImmediate(_) => 0xa9u8,
            Instruction::LdaAbsolute(_) => 0xadu8,
            Instruction::LdaXAbsolute(_) => 0xbdu8,
            Instruction::LdaYAbsolute(_) => 0xb9u8,
            Instruction::LdaZeroPage(_) => 0xa5u8,
            Instruction::LdaXZeroPage(_) => 0xb5u8,
            Instruction::LdaXIndexedIndirect(_) => 0xa1u8,
            Instruction::LdaYIndirectIndexed(_) => 0xb1u8,
            Instruction::LdxAbsolute(_) => 0xaeu8,
            Instruction::LdxYAbsolute(_) => 0xbeu8,
            Instruction::LdxImmediate(_) => 0xa2u8,
            Instruction::LdxZeroPage(_) => 0xa6u8,
            Instruction::LdxYZeroPage(_) => 0xb6u8,
            Instruction::LdyAbsolute(_) => 0xacu8,
            Instruction::LdyXAbsolute(_) => 0xbcu8,
            Instruction::LdyImmediate(_) => 0xa0u8,
            Instruction::LdyZeroPage(_) => 0xa4u8,
            Instruction::LdyXZeroPage(_) => 0xb4u8,
            Instruction::IncZeroPage(_) => 0xe6u8,
            Instruction::IncXZeroPage(_) => 0xf6u8,
            Instruction::IncAbsolute(_) => 0xeeu8,
            Instruction::IncXAbsolute(_) => 0xfeu8,
            Instruction::Inx => 0xe8u8,
            Instruction::Iny => 0xc8u8,
            Instruction::JmpAbsolute(_) => 0x4cu8,
            Instruction::JmpIndirect(_) => 0x6cu8,
            Instruction::JsrAbsolute(_) => 0x20u8,
            Instruction::Nop => 0xeau8,
            Instruction::OraImmediate(_) => 0x09u8,
            Instruction::OraZeroPage(_) => 0x05u8,
            Instruction::OraXZeroPage(_) => 0x15u8,
            Instruction::OraXIndexedIndirect(_) => 0x01u8,
            Instruction::OraYIndirectIndexed(_) => 0x11u8,
            Instruction::OraAbsolute(_) => 0x0du8,
            Instruction::OraXAbsolute(_) => 0x1du8,
            Instruction::OraYAbsolute(_) => 0x19u8,
            Instruction::Pha => 0x48u8,
            Instruction::Php => 0x08u8,
            Instruction::Pla => 0x68u8,
            Instruction::Plp => 0x28u8,
            Instruction::Rti => 0x40u8,
            Instruction::Rts => 0x60u8,
            Instruction::Sec => 0x38u8,
            Instruction::Sed => 0xf8u8,
            Instruction::Sei => 0x78u8,
            Instruction::StaAbsolute(_) => 0x8du8,
            Instruction::StaXAbsolute(_) => 0x9du8,
            Instruction::StaYAbsolute(_) => 0x99u8,
            Instruction::StaZeroPage(_) => 0x85u8,
            Instruction::StaXZeroPage(_) => 0x95u8,
            Instruction::StaXIndexedIndirect(_) => 0x81u8,
            Instruction::StaYIndirectIndexed(_) => 0x91u8,
            Instruction::StxAbsolute(_) => 0x8eu8,
            Instruction::StxYZeroPage(_) => 0x96u8,
            Instruction::StxZeroPage(_) => 0x86u8,
            Instruction::StyAbsolute(_) => 0x8cu8,
            Instruction::StyXZeroPage(_) => 0x94u8,
            Instruction::StyZeroPage(_) => 0x84u8,
            Instruction::Tax => 0xaau8,
            Instruction::Tay => 0xa8u8,
            Instruction::Tsx => 0xbau8,
            Instruction::Txa => 0x8au8,
            Instruction::Txs => 0x9au8,
            Instruction::Tya => 0x98u8,
            Instruction::Asl => 0x0au8,
            Instruction::AslZeroPage(_) => 0x06u8,
            Instruction::AslXZeroPage(_) => 0x16u8,
            Instruction::AslAbsolute(_) => 0x0eu8,
            Instruction::AslXAbsolute(_) => 0x1eu8,
            Instruction::Rol => 0x2au8,
            Instruction::RolZeroPage(_) => 0x26u8,
            Instruction::RolXZeroPage(_) => 0x36u8,
            Instruction::RolAbsolute(_) => 0x2eu8,
            Instruction::RolXAbsolute(_) => 0x3eu8,
            Instruction::Lsr => 0x4au8,
            Instruction::LsrZeroPage(_) => 0x46u8,
            Instruction::LsrXZeroPage(_) => 0x56u8,
            Instruction::LsrAbsolute(_) => 0x4eu8,
            Instruction::LsrXAbsolute(_) => 0x5eu8,
            Instruction::Ror => 0x6au8,
            Instruction::RorZeroPage(_) => 0x66u8,
            Instruction::RorXZeroPage(_) => 0x76u8,
            Instruction::RorAbsolute(_) => 0x6eu8,
            Instruction::RorXAbsolute(_) => 0x7eu8,
            Instruction::SbcImmediate(_) => 0xe9u8,
            Instruction::SbcZeroPage(_) => 0xe5u8,
            Instruction::SbcXZeroPage(_) => 0xf5u8,
            Instruction::SbcXIndexedIndirect(_) => 0xe1u8,
            Instruction::SbcYIndirectIndexed(_) => 0xf1u8,
            Instruction::SbcAbsolute(_) => 0xedu8,
            Instruction::SbcXAbsolute(_) => 0xfdu8,
            Instruction::SbcYAbsolute(_) => 0xf9u8,
            Instruction::Nop2 => 0x1au8,
            Instruction::NopImmediate(_) => 0x80u8,
            Instruction::NopZeroPage(_) => 0x04u8,
            Instruction::NopXZeroPage(_) => 0x14u8,
            Instruction::NopAbsolute(_) => 0x0cu8,
            Instruction::NopXAbsolute(_) => 0x1cu8,
            Instruction::SbcImmediateIllegal(_) => 0xebu8,
            Instruction::SloZeroPage(_) => 0x07u8,
            Instruction::SloXZeroPage(_) => 0x17u8,
            Instruction::SloXIndexedIndirect(_) => 0x03u8,
            Instruction::SloYIndirectIndexed(_) => 0x13u8,
            Instruction::SloAbsolute(_) => 0x0fu8,
            Instruction::SloXAbsolute(_) => 0x1fu8,
            Instruction::SloYAbsolute(_) => 0x1bu8,
            Instruction::RlaZeroPage(_) => 0x27u8,
            Instruction::RlaXZeroPage(_) => 0x37u8,
            Instruction::RlaXIndexedIndirect(_) => 0x23u8,
            Instruction::RlaYIndirectIndexed(_) => 0x33u8,
            Instruction::RlaAbsolute(_) => 0x2fu8,
            Instruction::RlaXAbsolute(_) => 0x3fu8,
            Instruction::RlaYAbsolute(_) => 0x3bu8,
            Instruction::SreZeroPage(_) => 0x47u8,
            Instruction::SreXZeroPage(_) => 0x57u8,
            Instruction::SreXIndexedIndirect(_) => 0x43u8,
            Instruction::SreYIndirectIndexed(_) => 0x53u8,
            Instruction::SreAbsolute(_) => 0x4fu8,
            Instruction::SreXAbsolute(_) => 0x5fu8,
            Instruction::SreYAbsolute(_) => 0x5bu8,
            Instruction::RraZeroPage(_) => 0x67u8,
            Instruction::RraXZeroPage(_) => 0x77u8,
            Instruction::RraXIndexedIndirect(_) => 0x63u8,
            Instruction::RraYIndirectIndexed(_) => 0x73u8,
            Instruction::RraAbsolute(_) => 0x6fu8,
            Instruction::RraXAbsolute(_) => 0x7fu8,
            Instruction::RraYAbsolute(_) => 0x7bu8,
            Instruction::SaxZeroPage(_) => 0x87u8,
            Instruction::SaxYZeroPage(_) => 0x97u8,
            Instruction::SaxXIndexedIndirect(_) => 0x83u8,
            Instruction::SaxAbsolute(_) => 0x8fu8,
            Instruction::LaxZeroPage(_) => 0xa7u8,
            Instruction::LaxYZeroPage(_) => 0xb7u8,
            Instruction::LaxXIndexedIndirect(_) => 0xa3u8,
            Instruction::LaxYIndirectIndexed(_) => 0xb3u8,
            Instruction::LaxAbsolute(_) => 0xafu8,
            Instruction::LaxYAbsolute(_) => 0xbfu8,
            Instruction::DcpZeroPage(_) => 0xc7u8,
            Instruction::DcpXZeroPage(_) => 0xd7u8,
            Instruction::DcpXIndexedIndirect(_) => 0xc3u8,
            Instruction::DcpYIndirectIndexed(_) => 0xd3u8,
            Instruction::DcpAbsolute(_) => 0xcfu8,
            Instruction::DcpXAbsolute(_) => 0xdfu8,
            Instruction::DcpYAbsolute(_) => 0xdbu8,
            Instruction::IsbZeroPage(_) => 0xe7u8,
            Instruction::IsbXZeroPage(_) => 0xf7u8,
            Instruction::IsbXIndexedIndirect(_) => 0xe3u8,
            Instruction::IsbYIndirectIndexed(_) => 0xf3u8,
            Instruction::IsbAbsolute(_) => 0xefu8,
            Instruction::IsbXAbsolute(_) => 0xffu8,
            Instruction::IsbYAbsolute(_) => 0xfbu8,
        }
    }

    /// The bytes of the instruction with its canonical opcode.
    pub open spec fn encode(self) -> Seq<u8> {
        match self.spec_parts().1 {
            Operand::Implied => seq![self.opcode()],
            Operand::Absolute(w) | Operand::AbsoluteX(w) | Operand::AbsoluteY(w)
            | Operand::Indirect(w) => seq![self.opcode(), (w % 256) as u8, (w / 256) as u8],
            Operand::Immediate(b) | Operand::ZeroPage(b) | Operand::ZeroPageX(b)
            | Operand::ZeroPageY(b) | Operand::IndexedIndirect(b) | Operand::IndirectIndexed(b)
            | Operand::Relative(b) => seq![self.opcode(), b],
        }
    }

    /// The number of bytes the instruction takes in memory.
    pub fn size_in_bytes(&self) -> (r: u16)
        ensures
            r == self.size(),
    {
        let (_, operand) = self.parts();
        match operand {
            Operand::Implied => 1,
            Operand::Absolute(_) | Operand::AbsoluteX(_) | Operand::AbsoluteY(_)
            | Operand::Indirect(_) => 3,
            _ => 2,
        }
    }

    /// Decodes the instruction at the start of `bytes`; an opcode that no
    /// instruction has is returned as the error.
    pub fn from_bytes(bytes: &[u8]) -> (r: Result<Instruction, u8>)
        requires
            bytes@.len() >= 1,
            decode(bytes@) is Ok ==> bytes@.len() >= decode(bytes@)->Ok_0.size(),
        ensures
            r == decode(bytes@),
    {
        let opcode = bytes[0];
        match opcode {
            0x00 => Ok(Instruction::Brk),
            0x01 => Ok(Instruction::OraXIndexedIndirect(next_byte(bytes))),
            0x03 => Ok(Instruction::SloXIndexedIndirect(next_byte(bytes))),
            0x04 => Ok(Instruction::NopZeroPage(next_byte(bytes))),
            0x05 => Ok(Instruction::OraZeroPage(next_byte(bytes))),
            0x06 => Ok(Instruction::AslZeroPage(next_byte(bytes))),
            0x07 => Ok(Instruction::SloZeroPage(next_byte(bytes))),
            0x08 => Ok(Instruction::Php),
            0x09 => Ok(Instruction::OraImmediate(next_byte(bytes))),
            0x0a => Ok(Instruction::Asl),
            0x0c => Ok(Instruction::NopAbsolute(next_word(bytes))),
            0x0d => Ok(Instruction::OraAbsolute(next_word(bytes))),
            0x0e => Ok(Instruction::AslAbsolute(next_word(bytes))),
            0x0f => Ok(Instruction::SloAbsolute(next_word(bytes))),
            0x10 => Ok(Instruction::Bpl(next_byte(bytes))),
            0x11 => Ok(Instruction::OraYIndirectIndexed(next_byte(bytes))),
            0x13 => Ok(Instruction::SloYIndirectIndexed(next_byte(bytes))),
            0x14 => Ok(Instruction::NopXZeroPage(next_byte(bytes))),
            0x15 => Ok(Instruction::OraXZeroPage(next_byte(bytes))),
            0x16 => Ok(Instruction::AslXZeroPage(next_byte(bytes))),
            0x17 => Ok(Instruction::SloXZeroPage(next_byte(bytes))),
            0x18 => Ok(Instruction::Clc),
            0x19 => Ok(Instruction::OraYAbsolute(next_word(bytes))),
            0x1a => Ok(Instruction::Nop2),
            0x1b => Ok(Instruction::SloYAbsolute(next_word(bytes))),
            0x1c => Ok(Instruction::NopXAbsolute(next_word(bytes))),
            0x1d => Ok(Instruction::OraXAbsolute(next_word(bytes))),
            0x1e => Ok(Instruction::AslXAbsolute(next_word(bytes))),
            0x1f => Ok(Instruction::SloXAbsolute(next_word(bytes))),
            0x20 => Ok(Instruction::JsrAbsolute(next_word(bytes))),
            0x21 => Ok(Instruction::AndXIndexedIndirect(next_byte(bytes))),
            0x23 => Ok(Instruction::RlaXIndexedIndirect(next_byte(bytes))),
            0x24 => Ok(Instruction::BitZeroPage(next_byte(bytes))),
            0x25 => Ok(Instruction::AndZeroPage(next_byte(bytes))),
            0x26 => Ok(Instruction::RolZeroPage(next_byte(bytes))),
            0x27 => Ok(Instruction::RlaZeroPage(next_byte(bytes))),
            0x28 => Ok(Instruction::Plp),
            0x29 => Ok(Instruction::AndImmediate(next_byte(bytes))),
            0x2a => Ok(Instruction::Rol),
            0x2c => Ok(Instruction::BitAbsolute(next_word(bytes))),
            0x2d => Ok(Instruction::AndAbsolute(next_word(bytes))),
            0x2e => Ok(Instruction::RolAbsolute(next_word(bytes))),
            0x2f => Ok(Instruction::RlaAbsolute(next_word(bytes))),
            0x30 => Ok(Instruction::Bmi(next_byte(bytes))),
            0x31 => Ok(Instruction::AndYIndirectIndexed(next_byte(bytes))),
            0x33 => Ok(Instruction::RlaYIndirectIndexed(next_byte(bytes))),
            0x34 => Ok(Instruction::NopXZeroPage(next_byte(bytes))),
            0x35 => Ok(Instruction::AndXZeroPage(next_byte(bytes))),
            0x36 => Ok(Instruction::RolXZeroPage(next_byte(bytes))),
            0x37 => Ok(Instruction::RlaXZeroPage(next_byte(bytes))),
            0x38 => Ok(Instruction::Sec),
            0x39 => Ok(Instruction::AndYAbsolute(next_word(bytes))),
            0x3a => Ok(Instruction::Nop2),
            0x3b => Ok(Instruction::RlaYAbsolute(next_word(bytes))),
            0x3c => Ok(Instruction::NopXAbsolute(next_word(bytes))),
            0x3d => Ok(Instruction::AndXAbsolute(next_word(bytes))),
            0x3e => Ok(Instruction::RolXAbsolute(next_word(bytes))),
            0x3f => Ok(Instruction::RlaXAbsolute(next_word(bytes))),
            0x40 => Ok(Instruction::Rti),
            0x41 => Ok(Instruction::EorXIndexedIndirect(next_byte(bytes))),
            0x43 => Ok(Instruction::SreXIndexedIndirect(next_byte(bytes))),
            0x44 => Ok(Instruction::NopZeroPage(next_byte(bytes))),
            0x45 => Ok(Instruction::EorZeroPage(next_byte(bytes))),
            0x46 => Ok(Instruction::LsrZeroPage(next_byte(bytes))),
            0x47 => Ok(Instruction::SreZeroPage(next_byte(bytes))),
            0x48 => Ok(Instruction::Pha),
            0x49 => Ok(Instruction::EorImmediate(next_byte(bytes))),
            0x4a => Ok(Instruction::Lsr),
            0x4c => Ok(Instruction::JmpAbsolute(next_word(bytes))),
            0x4d => Ok(Instruction::EorAbsolute(next_word(bytes))),
            0x4e => Ok(Instruction::LsrAbsolute(next_word(bytes))),
            0x4f => Ok(Instruction::SreAbsolute(next_word(bytes))),
            0x50 => Ok(Instruction::Bvc(next_byte(bytes))),
            0x51 => Ok(Instruction::EorYIndirectIndexed(next_byte(bytes))),
            0x53 => Ok(Instruction::SreYIndirectIndexed(next_byte(bytes))),
            0x54 => Ok(Instruction::NopXZeroPage(next_byte(bytes))),
            0x55 => Ok(Instruction::EorXZeroPage(next_byte(bytes))),
            0x56 => Ok(Instruction::LsrXZeroPage(next_byte(bytes))),
            0x57 => Ok(Instruction::SreXZeroPage(next_byte(bytes))),
            0x58 => Ok(Instruction::Cli),
            0x59 => Ok(Instruction::EorYAbsolute(next_word(bytes))),
            0x5a => Ok(Instruction::Nop2),
            0x5b => Ok(Instruction::SreYAbsolute(next_word(bytes))),
            0x5c => Ok(Instruction::NopXAbsolute(next_word(bytes))),
            0x5d => Ok(Instruction::EorXAbsolute(next_word(bytes))),
            0x5e => Ok(Instruction::LsrXAbsolute(next_word(bytes))),
            0x5f => Ok(Instruction::SreXAbsolute(next_word(bytes))),
            0x60 => Ok(Instruction::Rts),
            0x61 => Ok(Instruction::AdcXIndexedIndirect(next_byte(bytes))),
            0x63 => Ok(Instruction::RraXIndexedIndirect(next_byte(bytes))),
            0x64 => Ok(Instruction::NopZeroPage(next_byte(bytes))),
            0x65 => Ok(Instruction::AdcZeroPage(next_byte(bytes))),
            0x66 => Ok(Instruction::RorZeroPage(next_byte(bytes))),
            0x67 => Ok(Instruction::RraZeroPage(next_byte(bytes))),
            0x68 => Ok(Instruction::Pla),
            0x69 => Ok(Instruction::AdcImmediate(next_byte(bytes))),
            0x6a => Ok(Instruction::Ror),
            0x6c => Ok(Instruction::JmpIndirect(next_word(bytes))),
            0x6d => Ok(Instruction::AdcAbsolute(next_word(bytes))),
            0x6e => Ok(Instruction::RorAbsolute(next_word(bytes))),
            0x6f => Ok(Instruction::RraAbsolute(next_word(bytes))),
            0x70 => Ok(Instruction::Bvs(next_byte(bytes))),
            0x71 => Ok(Instruction::AdcYIndirectIndexed(next_byte(bytes))),
            0x73 => Ok(Instruction::RraYIndirectIndexed(next_byte(bytes))),
            0x74 => Ok(Instruction::NopXZeroPage(next_byte(bytes))),
            0x75 => Ok(Instruction::AdcXZeroPage(next_byte(bytes))),
            0x76 => Ok(Instruction::RorXZeroPage(next_byte(bytes))),
            0x77 => Ok(Instruction::RraXZeroPage(next_byte(bytes))),
            0x78 => Ok(Instruction::Sei),
            0x79 => Ok(Instruction::AdcYAbsolute(next_word(bytes))),
            0x7a => Ok(Instruction::Nop2),
            0x7b => Ok(Instruction::RraYAbsolute(next_word(bytes))),
            0x7c => Ok(Instruction::NopXAbsolute(next_word(bytes))),
            0x7d => Ok(Instruction::AdcXAbsolute(next_word(bytes))),
            0x7e => Ok(Instruction::RorXAbsolute(next_word(bytes))),
            0x7f => Ok(Instruction::RraXAbsolute(next_word(bytes))),
            0x80 => Ok(Instruction::NopImmediate(next_byte(bytes))),
            0x81 => Ok(Instruction::StaXIndexedIndirect(next_byte(bytes))),
            0x82 => Ok(Instruction::NopImmediate(next_byte(bytes))),
            0x83 => Ok(Instruction::SaxXIndexedIndirect(next_byte(bytes))),
            0x84 => Ok(Instruction::StyZeroPage(next_byte(bytes))),
            0x85 => Ok(Instruction::StaZeroPage(next_byte(bytes))),
            0x86 => Ok(Instruction::StxZeroPage(next_byte(bytes))),
            0x87 => Ok(Instruction::SaxZeroPage(next_byte(bytes))),
            0x88 => Ok(Instruction::Dey),
            0x89 => Ok(Instruction::NopImmediate(next_byte(bytes))),
            0x8a => Ok(Instruction::Txa),
            0x8c => Ok(Instruction::StyAbsolute(next_word(bytes))),
            0x8d => Ok(Instruction::StaAbsolute(next_word(bytes))),
            0x8e => Ok(Instruction::StxAbsolute(next_word(bytes))),
            0x8f => Ok(Instruction::SaxAbsolute(next_word(bytes))),
            0x90 => Ok(Instruction::Bcc(next_byte(bytes))),
            0x91 => Ok(Instruction::StaYIndirectIndexed(next_byte(bytes))),
            0x94 => Ok(Instruction::StyXZeroPage(next_byte(bytes))),
            0x95 => Ok(Instruction::StaXZeroPage(next_byte(bytes))),
            0x96 => Ok(Instruction::StxYZeroPage(next_byte(bytes))),
            0x97 => Ok(Instruction::SaxYZeroPage(next_byte(bytes))),
            0x98 => Ok(Instruction::Tya),
            0x99 => Ok(Instruction::StaYAbsolute(next_word(bytes))),
            0x9a => Ok(Instruction::Txs),
            0x9d => Ok(Instruction::StaXAbsolute(next_word(bytes))),
            0xa0 => Ok(Instruction::LdyImmediate(next_byte(bytes))),
            0xa1 => Ok(Instruction::LdaXIndexedIndirect(next_byte(bytes))),
            0xa2 => Ok(Instruction::LdxImmediate(next_byte(bytes))),
            0xa3 => Ok(Instruction::LaxXIndexedIndirect(next_byte(bytes))),
            0xa4 => Ok(Instruction::LdyZeroPage(next_byte(bytes))),
            0xa5 => Ok(Instruction::LdaZeroPage(next_byte(bytes))),
            0xa6 => Ok(Instruction::LdxZeroPage(next_byte(bytes))),
            0xa7 => Ok(Instruction::LaxZeroPage(next_byte(bytes))),
            0xa8 => Ok(Instruction::Tay),
            0xa9 => Ok(Instruction::LdaImmediate(next_byte(bytes))),
            0xaa => Ok(Instruction::Tax),
            0xac => Ok(Instruction::LdyAbsolute(next_word(bytes))),
            0xad => Ok(Instruction::LdaAbsolute(next_word(bytes))),
            0xae => Ok(Instruction::LdxAbsolute(next_word(bytes))),
            0xaf => Ok(Instruction::LaxAbsolute(next_word(bytes))),
            0xb0 => Ok(Instruction::Bcs(next_byte(bytes))),
            0xb1 => Ok(Instruction::LdaYIndirectIndexed(next_byte(bytes))),
            0xb3 => Ok(Instruction::LaxYIndirectIndexed(next_byte(bytes))),
            0xb4 => Ok(Instruction::LdyXZeroPage(next_byte(bytes))),
            0xb5 => Ok(Instruction::LdaXZeroPage(next_byte(bytes))),
            0xb6 => Ok(Instruction::LdxYZeroPage(next_byte(bytes))),
            0xb7 => Ok(Instruction::LaxYZeroPage(next_byte(bytes))),
            0xb8 => Ok(Instruction::Clv),
            0xb9 => Ok(Instruction::LdaYAbsolute(next_word(bytes))),
            0xba => Ok(Instruction::Tsx),
            0xbc => Ok(Instruction::LdyXAbsolute(next_word(bytes))),
            0xbd => Ok(Instruction::LdaXAbsolute(next_word(bytes))),
            0xbe => Ok(Instruction::LdxYAbsolute(next_word(bytes))),
            0xbf => Ok(Instruction::LaxYAbsolute(next_word(bytes))),
            0xc0 => Ok(Instruction::CpyImmediate(next_byte(bytes))),
            0xc1 => Ok(Instruction::CmpXIndexedIndirect(next_byte(bytes))),
            0xc2 => Ok(Instruction::NopImmediate(next_byte(bytes))),
            0xc3 => Ok(Instruction::DcpXIndexedIndirect(next_byte(bytes))),
            0xc4 => Ok(Instruction::CpyZeroPage(next_byte(bytes))),
            0xc5 => Ok(Instruction::CmpZeroPage(next_byte(bytes))),
            0xc6 => Ok(Instruction::DecZeroPage(next_byte(bytes))),
            0xc7 => Ok(Instruction::DcpZeroPage(next_byte(bytes))),
            0xc8 => Ok(Instruction::Iny),
            0xc9 => Ok(Instruction::CmpImmediate(next_byte(bytes))),
            0xca => Ok(Instruction::Dex),
            0xcc => Ok(Instruction::CpyAbsolute(next_word(bytes))),
            0xcd => Ok(Instruction::CmpAbsolute(next_word(bytes))),
            0xce => Ok(Instruction::DecAbsolute(next_word(bytes))),
            0xcf => Ok(Instruction::DcpAbsolute(next_word(bytes))),
            0xd0 => Ok(Instruction::Bne(next_byte(bytes))),
            0xd1 => Ok(Instruction::CmpYIndirectIndexed(next_byte(bytes))),
            0xd3 => Ok(Instruction::DcpYIndirectIndexed(next_byte(bytes))),
            0xd4 => Ok(Instruction::NopXZeroPage(next_byte(bytes))),
            0xd5 => Ok(Instruction::CmpXZeroPage(next_byte(bytes))),
            0xd6 => Ok(Instruction::DecXZeroPage(next_byte(bytes))),
            0xd7 => Ok(Instruction::DcpXZeroPage(next_byte(bytes))),
            0xd8 => Ok(Instruction::Cld),
            0xd9 => Ok(Instruction::CmpYAbsolute(next_word(bytes))),
            0xda => Ok(Instruction::Nop2),
            0xdb => Ok(Instruction::DcpYAbsolute(next_word(bytes))),
            0xdc => Ok(Instruction::NopXAbsolute(next_word(bytes))),
            0xdd => Ok(Instruction::CmpXAbsolute(next_word(bytes))),
            0xde => Ok(Instruction::DecXAbsolute(next_word(bytes))),
            0xdf => Ok(Instruction::DcpXAbsolute(next_word(bytes))),
            0xe0 => Ok(Instruction::CpxImmediate(next_byte(bytes))),
            0xe1 => Ok(Instruction::SbcXIndexedIndirect(next_byte(bytes))),
            0xe2 => Ok(Instruction::NopImmediate(next_byte(bytes))),
            0xe3 => Ok(Instruction::IsbXIndexedIndirect(next_byte(bytes))),
            0xe4 => Ok(Instruction::CpxZeroPage(next_byte(bytes))),
            0xe5 => Ok(Instruction::SbcZeroPage(next_byte(bytes))),
            0xe6 => Ok(Instruction::IncZeroPage(next_byte(bytes))),
            0xe7 => Ok(Instruction::IsbZeroPage(next_byte(bytes))),
            0xe8 => Ok(Instruction::Inx),
            0xe9 => Ok(Instruction::SbcImmediate(next_byte(bytes))),
            0xea => Ok(Instruction::Nop),
            0xeb => Ok(Instruction::SbcImmediateIllegal(next_byte(bytes))),
            0xec => Ok(Instruction::CpxAbsolute(next_word(bytes))),
            0xed => Ok(Instruction::SbcAbsolute(next_word(bytes))),
            0xee => Ok(Instruction::IncAbsolute(next_word(bytes))),
            0xef => Ok(Instruction::IsbAbsolute(next_word(bytes))),
            0xf0 => Ok(Instruction::Beq(next_byte(bytes))),
            0xf1 => Ok(Instruction::SbcYIndirectIndexed(next_byte(bytes))),
            0xf3 => Ok(Instruction::IsbYIndirectIndexed(next_byte(bytes))),
            0xf4 => Ok(Instruction::NopXZeroPage(next_byte(bytes))),
            0xf5 => Ok(Instruction::SbcXZeroPage(next_byte(bytes))),
            0xf6 => Ok(Instruction::IncXZeroPage(next_byte(bytes))),
            0xf7 => Ok(Instruction::IsbXZeroPage(next_byte(bytes))),
            0xf8 => Ok(Instruction::Sed),
            0xf9 => Ok(Instruction::SbcYAbsolute(next_word(bytes))),
            0xfa => Ok(Instruction::Nop2),
            0xfb => Ok(Instruction::IsbYAbsolute(next_word(bytes))),
            0xfc => Ok(Instruction::NopXAbsolute(next_word(bytes))),
            0xfd => Ok(Instruction::SbcXAbsolute(next_word(bytes))),
            0xfe => Ok(Instruction::IncXAbsolute(next_word(bytes))),
            0xff => Ok(Instruction::IsbXAbsolute(next_word(bytes))),
            _ => Err(opcode),
        }
    }
}

/// The number of operand bytes that follow the opcode.
pub open spec fn operand_size(operand: Operand) -> nat {
    match operand {
        Operand::Implied => 0,
        Operand::Absolute(_) | Operand::AbsoluteX(_) | Operand::AbsoluteY(_) | Operand::Indirect(
            _,
        ) => 2,
        _ => 1,
    }
}

/// The byte after the opcode.
fn next_byte(bytes: &[u8]) -> (r: u8)
    requires
        bytes@.len() >= 2,
    ensures
        r == bytes@[1],
{
    bytes[1]
}

/// The little-endian word after the opcode.
fn next_word(bytes: &[u8]) -> (r: u16)
    requires
        bytes@.len() >= 3,
    ensures
        r == le_word(bytes@[1], bytes@[2]),
{
    let low_byte = bytes[1];
    let high_byte = bytes[2];
    word_from_le_bytes(low_byte, high_byte)
}

/// The 16-bit word whose low byte is `lo` and high byte is `hi`.
pub fn word_from_le_bytes(lo: u8, hi: u8) -> (r: u16)
    ensures
        r == le_word(lo, hi),
        r as int == lo as int + hi as int * 256,
{
    (hi as u16) * 256 + lo as u16
}

/// Decoding the canonical encoding of an instruction gives the instruction
/// back, and the encoding is as long as the instruction.
pub proof fn lemma_decode_encode(i: Instruction)
    ensures
        decode(i.encode()) == Ok::<Instruction, u8>(i),
        i.encode().len() == i.size(),
{
    match i.spec_parts().1 {
        Operand::Absolute(w) | Operand::AbsoluteX(w) | Operand::AbsoluteY(w)
        | Operand::Indirect(w) => {
            assert(le_word((w % 256) as u8, (w / 256) as u8) == w);
        },
        _ => {},
    }
}

/// The operation of the first group of opcodes (those equal to 1 mod 4),
/// by bits 5 to 7 of the opcode.
pub open spec fn group_one_op(aaa: int) -> Op {
    if aaa == 0 {
        Op::Ora
    } else if aaa == 1 {
        Op::And
    } else if aaa == 2 {
        Op::Eor
    } else if aaa == 3 {
        Op::Adc
    } else if aaa == 4 {
        Op::Sta
    } else if aaa == 5 {
        Op::Lda
    } else if aaa == 6 {
        Op::Cmp
    } else {
        Op::Sbc
    }
}

/// The addressing mode of the first group of opcodes, by bits 2 to 4 of
/// the opcode, with the operand byte `b` and word `w` that follow it.
pub open spec fn group_one_operand(bbb: int, b: u8, w: u16) -> Operand {
    if bbb == 0 {
        Operand::IndexedIndirect(b)
    } else if bbb == 1 {
        Operand::ZeroPage(b)
    } else if bbb == 2 {
        Operand::Immediate(b)
    } else if bbb == 3 {
        Operand::Absolute(w)
    } else if bbb == 4 {
        Operand::IndirectIndexed(b)
    } else if bbb == 5 {
        Operand::ZeroPageX(b)
    } else if bbb == 6 {
        Operand::AbsoluteY(w)
    } else {
        Operand::AbsoluteX(w)
    }
}

/// The opcodes equal to 1 mod 4 follow the 6502's regular layout: bits 5
/// to 7 choose ORA, AND, EOR, ADC, STA, LDA, CMP or SBC, and bits 2 to 4
/// the addressing mode; the one gap, 0x89 (STA immediate), reads as a NOP.
#[verifier::rlimit(100)]
#[verifier::spinoff_prover]
pub proof fn lemma_decode_group_one(bytes: Seq<u8>)
    requires
        bytes.len() >= 1,
        bytes[0] % 4 == 1,
        bytes[0] != 0x89,
    ensures
        decode(bytes) is Ok,
        decode(bytes)->Ok_0.spec_parts() == (
            group_one_op((bytes[0] / 32) as int),
            group_one_operand(
                ((bytes[0] / 4) % 8) as int,
                byte_at(bytes, 1),
                le_word(byte_at(bytes, 1), byte_at(bytes, 2)),
            ),
        ),
{
    // One case per opcode, so that each is decoded on its own.
    assert(bytes[0] == byte_at(bytes, 0));
    let op = bytes[0];
    if op == 0x01 {
    } else if op == 0x05 {
    } else if op == 0x09 {
    } else if op == 0x0d {
    } else if op == 0x11 {
    } else if op == 0x15 {
    } else if op == 0x19 {
    } else if op == 0x1d {
    } else if op == 0x21 {
    } else if op == 0x25 {
    } else if op == 0x29 {
    } else if op == 0x2d {
    } else if op == 0x31 {
    } else if op == 0x35 {
    } else if op == 0x39 {
    } else if op == 0x3d {
    } else if op == 0x41 {
    } else if op == 0x45 {
    } else if op == 0x49 {
    } else if op == 0x4d {
    } else if op == 0x51 {
    } else if op == 0x55 {
    } else if op == 0x59 {
    } else if op == 0x5d {
    } else if op == 0x61 {
    } else if op == 0x65 {
    } else if op == 0x69 {
    } else if op == 0x6d {
    } else if op == 0x71 {
    } else if op == 0x75 {
    } else if op == 0x79 {
    } else if op == 0x7d {
    } else if op == 0x81 {
    } else if op == 0x85 {
    } else if op == 0x8d {
    } else if op == 0x91 {
    } else if op == 0x95 {
    } else if op == 0x99 {
    } else if op == 0x9d {
    } else if op == 0xa1 {
    } else if op == 0xa5 {
    } else if op == 0xa9 {
    } else if op == 0xad {
    } else if op == 0xb1 {
    } else if op == 0xb5 {
    } else if op == 0xb9 {
    } else if op == 0xbd {
    } else if op == 0xc1 {
    } else if op == 0xc5 {
    } else if op == 0xc9 {
    } else if op == 0xcd {
    } else if op == 0xd1 {
    } else if op == 0xd5 {
    } else if op == 0xd9 {
    } else if op == 0xdd {
    } else if op == 0xe1 {
    } else if op == 0xe5 {
    } else if op == 0xe9 {
    } else if op == 0xed {
    } else if op == 0xf1 {
    } else if op == 0xf5 {
    } else if op == 0xf9 {
    } else if op == 0xfd {
    }
}

/// The conditional branches are the opcodes equal to 0x10 mod 0x20: bits 6
/// and 7 choose the flag (N, V, C, Z) and bit 5 the value it must have for
/// the branch to be taken; the operand is the signed offset that follows.
#[verifier::rlimit(100)]
#[verifier::spinoff_prover]
pub proof fn lemma_decode_branches(bytes: Seq<u8>)
    requires
        bytes.len() >= 1,
        bytes[0] % 32 == 16,
    ensures
        decode(bytes) is Ok,
        decode(bytes)->Ok_0.spec_parts().1 == Operand::Relative(byte_at(bytes, 1)),
        decode(bytes)->Ok_0.spec_parts().0 == {
            let flag = bytes[0] / 64;
            let set = (bytes[0] / 32) % 2 == 1;
            if flag == 0 {
                if set {
                    Op::Bmi
                } else {
                    Op::Bpl
                }
            } else if flag == 1 {
                if set {
                    Op::Bvs
                } else {
                    Op::Bvc
                }
            } else if flag == 2 {
                if set {
                    Op::Bcs
                } else {
                    Op::Bcc
                }
            } else {
                if set {
                    Op::Beq
                } else {
                    Op::Bne
                }
            }
        },
{
}

} // verus!
