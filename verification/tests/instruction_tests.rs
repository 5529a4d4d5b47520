use mad_nes::instruction::Instruction;

#[test]
fn parse_instructions() {
    let pairs = vec![
        (vec![0xa9u8, 0xb], Instruction::LdaImmediate(0x0b)),
        (vec![0x8d, 0x06, 0x20], Instruction::StaAbsolute(0x2006)),
        (vec![0xa2, 0x10], Instruction::LdxImmediate(0x10)),
        (vec![0xbd, 0x10, 0x20], Instruction::LdaXAbsolute(0x2010)),
        (vec![0xc9, 0xee], Instruction::CmpImmediate(0xee)),
        (vec![0xf0, 0xcc], Instruction::Beq(0xcc)),
        (vec![0xe8], Instruction::Inx),
        (vec![0x4c, 0x33, 0x66], Instruction::JmpAbsolute(0x6633)),
        (vec![0xe0, 0x0a], Instruction::CpxImmediate(0x0a)),
        (vec![0xd0, 0x87], Instruction::Bne(0x87)),
        (vec![0x10, 0xaa], Instruction::Bpl(0xaa)),
        (vec![0x30, 0xdd], Instruction::Bmi(0xdd)),
        (vec![0x50, 0xcc], Instruction::Bvc(0xcc)),
        (vec![0x70, 0x48], Instruction::Bvs(0x48)),
        (vec![0x18], Instruction::Clc),
        (vec![0x38], Instruction::Sec),
        (vec![0xd8], Instruction::Cld),
        (vec![0xf8], Instruction::Sed),
        (vec![0x58], Instruction::Cli),
        (vec![0x78], Instruction::Sei),
        (vec![0xb8], Instruction::Clv),
        (vec![0xea], Instruction::Nop),
        (vec![0x00], Instruction::Brk),
        (vec![0x40], Instruction::Rti),
        (vec![0x60], Instruction::Rts),
        (vec![0x20, 0xbb, 0xdd], Instruction::JsrAbsolute(0xddbb)),
        (vec![0x6c, 0xaa, 0xff], Instruction::JmpIndirect(0xffaa)),
        (vec![0x2c, 0x78, 0x90], Instruction::BitAbsolute(0x9078)),
        (vec![0x24, 0x38], Instruction::BitZeroPage(0x38)),
        (vec![0xaa], Instruction::Tax),
        (vec![0x8a], Instruction::Txa),
        (vec![0xa8], Instruction::Tay),
        (vec![0x98], Instruction::Tya),
        (vec![0xba], Instruction::Tsx),
        (vec![0x9a], Instruction::Txs),
        (vec![0x68], Instruction::Pla),
        (vec![0x48], Instruction::Pha),
        (vec![0x28], Instruction::Plp),
        (vec![0x8], Instruction::Php),
        (vec![0x8c, 0x98, 0x37], Instruction::StyAbsolute(0x3798)),
        (vec![0x84, 0xaa], Instruction::StyZeroPage(0xaa)),
        (vec![0x94, 0xcc], Instruction::StyXZeroPage(0xcc)),
        (vec![0xa0, 0x47], Instruction::LdyImmediate(0x47)),
        (vec![0xa4, 0x18], Instruction::LdyZeroPage(0x18)),
        (vec![0xb4, 0x77], Instruction::LdyXZeroPage(0x77)),
        (vec![0xac, 0x12, 0x34], Instruction::LdyAbsolute(0x3412)),
        (vec![0xbc, 0x78, 0x56], Instruction::LdyXAbsolute(0x5678)),
        (vec![0x86, 0x22], Instruction::StxZeroPage(0x22)),
        (vec![0x96, 0x57], Instruction::StxYZeroPage(0x57)),
        (vec![0x8e, 0x19, 0x88], Instruction::StxAbsolute(0x8819)),
        (vec![0xa6, 0xbb], Instruction::LdxZeroPage(0xbb)),
        (vec![0xb6, 0x33], Instruction::LdxYZeroPage(0x33)),
        (vec![0xae, 0x11, 0x22], Instruction::LdxAbsolute(0x2211)),
        (vec![0xbe, 0x33, 0x44], Instruction::LdxYAbsolute(0x4433)),
        (vec![0x85, 0x89], Instruction::StaZeroPage(0x89)),
        (vec![0x95, 0x74], Instruction::StaXZeroPage(0x74)),
        (vec![0x81, 0x88], Instruction::StaXIndexedIndirect(0x88)),
        (vec![0x91, 0x99], Instruction::StaYIndirectIndexed(0x99)),
        (vec![0x9d, 0xaa, 0xff], Instruction::StaXAbsolute(0xffaa)),
        (vec![0x99, 0xee, 0xcc], Instruction::StaYAbsolute(0xccee)),
        (vec![0xa5, 0x89], Instruction::LdaZeroPage(0x89)),
        (vec![0xb5, 0x88], Instruction::LdaXZeroPage(0x88)),
        (vec![0xa1, 0x47], Instruction::LdaXIndexedIndirect(0x47)),
        (vec![0xb1, 0x48], Instruction::LdaYIndirectIndexed(0x48)),
        (vec![0xad, 0x39, 0x19], Instruction::LdaAbsolute(0x1939)),
        (vec![0xb9, 0x22, 0x44], Instruction::LdaYAbsolute(0x4422)),
        (vec![0x0a], Instruction::Asl),
        (vec![0x06, 0x02], Instruction::AslZeroPage(0x02)),
        (vec![0x16, 0x58], Instruction::AslXZeroPage(0x58)),
        (vec![0x0e, 0x48, 0x02], Instruction::AslAbsolute(0x0248)),
        (vec![0x1e, 0x28, 0x29], Instruction::AslXAbsolute(0x2928)),
        (vec![0x2a, 0xa0], Instruction::Rol),
        (vec![0x26, 0x48], Instruction::RolZeroPage(0x48)),
        (vec![0x36, 0x80], Instruction::RolXZeroPage(0x80)),
        (vec![0x2e, 0x72, 0x46], Instruction::RolAbsolute(0x4672)),
        (vec![0x3e, 0x83, 0x29], Instruction::RolXAbsolute(0x2983)),
        (vec![0x4a], Instruction::Lsr),
        (vec![0x46, 0x32], Instruction::LsrZeroPage(0x32)),
        (vec![0x56, 0x28], Instruction::LsrXZeroPage(0x28)),
        (vec![0x4e, 0x38, 0x93], Instruction::LsrAbsolute(0x9338)),
        (vec![0x5e, 0xab, 0xcd], Instruction::LsrXAbsolute(0xcdab)),
        (vec![0x6a], Instruction::Ror),
        (vec![0x66, 0x33], Instruction::RorZeroPage(0x33)),
        (vec![0x76, 0x28], Instruction::RorXZeroPage(0x28)),
        (vec![0x6e, 0x39, 0x12], Instruction::RorAbsolute(0x1239)),
        (vec![0x7e, 0x38, 0x37], Instruction::RorXAbsolute(0x3738)),
        (vec![0xc8], Instruction::Iny),
        (vec![0xe6, 0xa0], Instruction::IncZeroPage(0xa0)),
        (vec![0xf6, 0x48], Instruction::IncXZeroPage(0x48)),
        (vec![0xee, 0x74, 0x37], Instruction::IncAbsolute(0x3774)),
        (vec![0xfe, 0x22, 0x33], Instruction::IncXAbsolute(0x3322)),
        (vec![0xca], Instruction::Dex),
        (vec![0x88], Instruction::Dey),
        (vec![0xc6, 0xaa], Instruction::DecZeroPage(0xaa)),
        (vec![0xd6, 0xbb], Instruction::DecXZeroPage(0xbb)),
        (vec![0xce, 0xab, 0xcd], Instruction::DecAbsolute(0xcdab)),
        (vec![0xde, 0xcd, 0xab], Instruction::DecXAbsolute(0xabcd)),
        (vec![0xe4, 0xa0], Instruction::CpxZeroPage(0xa0)),
        (vec![0xec, 0x23, 0x34], Instruction::CpxAbsolute(0x3423)),
        (vec![0xc0, 0xbb], Instruction::CpyImmediate(0xbb)),
        (vec![0xc4, 0xee], Instruction::CpyZeroPage(0xee)),
        (vec![0xcc, 0xcd, 0xef], Instruction::CpyAbsolute(0xefcd)),
        (vec![0xc5, 0x28], Instruction::CmpZeroPage(0x28)),
        (vec![0xd5, 0x18], Instruction::CmpXZeroPage(0x18)),
        (vec![0xc1, 0x23], Instruction::CmpXIndexedIndirect(0x23)),
        (vec![0xd1, 0x39], Instruction::CmpYIndirectIndexed(0x39)),
        (vec![0xcd, 0x32, 0x92], Instruction::CmpAbsolute(0x9232)),
        (vec![0xdd, 0x38, 0x11], Instruction::CmpXAbsolute(0x1138)),
        (vec![0xd9, 0x12, 0x34], Instruction::CmpYAbsolute(0x3412)),
        (vec![0xe9, 0x11], Instruction::SbcImmediate(0x11)),
        (vec![0xe5, 0x35], Instruction::SbcZeroPage(0x35)),
        (vec![0xf5, 0x92], Instruction::SbcXZeroPage(0x92)),
        (vec![0xe1, 0xae], Instruction::SbcXIndexedIndirect(0xae)),
        (vec![0xf1, 0xea], Instruction::SbcYIndirectIndexed(0xea)),
        (vec![0xed, 0x44, 0x88], Instruction::SbcAbsolute(0x8844)),
        (vec![0xfd, 0x22, 0x55], Instruction::SbcXAbsolute(0x5522)),
        (vec![0xf9, 0x11, 0x33], Instruction::SbcYAbsolute(0x3311)),
        (vec![0x69, 0xa2], Instruction::AdcImmediate(0xa2)),
        (vec![0x65, 0x39], Instruction::AdcZeroPage(0x39)),
        (vec![0x75, 0x19], Instruction::AdcXZeroPage(0x19)),
        (vec![0x61, 0x82], Instruction::AdcXIndexedIndirect(0x82)),
        (vec![0x71, 0x61], Instruction::AdcYIndirectIndexed(0x61)),
        (vec![0x6d, 0x65, 0xb8], Instruction::AdcAbsolute(0xb865)),
        (vec![0x7d, 0xb7, 0xc0], Instruction::AdcXAbsolute(0xc0b7)),
        (vec![0x79, 0x11, 0x33], Instruction::AdcYAbsolute(0x3311)),
        (vec![0x49, 0x67], Instruction::EorImmediate(0x67)),
        (vec![0x45, 0x55], Instruction::EorZeroPage(0x55)),
        (vec![0x41, 0x33], Instruction::EorXIndexedIndirect(0x33)),
        (vec![0x51, 0x99], Instruction::EorYIndirectIndexed(0x99)),
        (vec![0x4d, 0x01, 0x02], Instruction::EorAbsolute(0x0201)),
        (vec![0x5d, 0x03, 0x50], Instruction::EorXAbsolute(0x5003)),
        (vec![0x59, 0x19, 0x28], Instruction::EorYAbsolute(0x2819)),
        (vec![0x29, 0xaa], Instruction::AndImmediate(0xaa)),
        (vec![0x25, 0xab], Instruction::AndZeroPage(0xab)),
        (vec![0x35, 0x31, 0x32], Instruction::AndXZeroPage(0x31)),
        (
            vec![0x21, 0x22, 0x23],
            Instruction::AndXIndexedIndirect(0x22),
        ),
        (vec![0x31, 0x33], Instruction::AndYIndirectIndexed(0x33)),
        (vec![0x2d, 0xac, 0xca], Instruction::AndAbsolute(0xcaac)),
        (vec![0x3d, 0xbb, 0xcc], Instruction::AndXAbsolute(0xccbb)),
        (vec![0x39, 0xcd, 0x7a], Instruction::AndYAbsolute(0x7acd)),
        (vec![0x09, 0xac], Instruction::OraImmediate(0xac)),
        (vec![0x05, 0xbd], Instruction::OraZeroPage(0xbd)),
        (vec![0x15, 0xc1], Instruction::OraXZeroPage(0xc1)),
        (vec![0x01, 0xd2], Instruction::OraXIndexedIndirect(0xd2)),
        (vec![0x11, 0xe9], Instruction::OraYIndirectIndexed(0xe9)),
        (vec![0x0d, 0xd2, 0xf3], Instruction::OraAbsolute(0xf3d2)),
        (vec![0x1d, 0x82, 0xc3], Instruction::OraXAbsolute(0xc382)),
        (vec![0x19, 0x22, 0x99], Instruction::OraYAbsolute(0x9922)),
        (vec![0xb0, 0x04], Instruction::Bcs(0x04)),
        (vec![0x90, 0xc0], Instruction::Bcc(0xc0)),
        // illegal opcodes
        (vec![0x80, 0xaa], Instruction::NopImmediate(0xaa)),
        (vec![0x82, 0x11], Instruction::NopImmediate(0x11)),
        (vec![0x89, 0x11], Instruction::NopImmediate(0x11)),
        (vec![0xc2, 0xab], Instruction::NopImmediate(0xab)),
        (vec![0xe2, 0x8d], Instruction::NopImmediate(0x8d)),
        (vec![0x04, 0x2b], Instruction::NopZeroPage(0x2b)),
        (vec![0x44, 0x2b], Instruction::NopZeroPage(0x2b)),
        (vec![0x64, 0x2b], Instruction::NopZeroPage(0x2b)),
        (vec![0x14, 0x2b], Instruction::NopXZeroPage(0x2b)),
        (vec![0x34, 0x2b], Instruction::NopXZeroPage(0x2b)),
        (vec![0x54, 0x2b], Instruction::NopXZeroPage(0x2b)),
        (vec![0x74, 0x2b], Instruction::NopXZeroPage(0x2b)),
        (vec![0xd4, 0x2b], Instruction::NopXZeroPage(0x2b)),
        (vec![0xf4, 0x2b], Instruction::NopXZeroPage(0x2b)),
        (vec![0x1a], Instruction::Nop2),
        (vec![0x3a], Instruction::Nop2),
        (vec![0x5a], Instruction::Nop2),
        (vec![0x7a], Instruction::Nop2),
        (vec![0xda], Instruction::Nop2),
        (vec![0xfa], Instruction::Nop2),
        (vec![0x0c, 0xff, 0x23], Instruction::NopAbsolute(0x23ff)),
        (vec![0x1c, 0xff, 0x23], Instruction::NopXAbsolute(0x23ff)),
        (vec![0x3c, 0xff, 0x23], Instruction::NopXAbsolute(0x23ff)),
        (vec![0x5c, 0xff, 0x23], Instruction::NopXAbsolute(0x23ff)),
        (vec![0x7c, 0xff, 0x23], Instruction::NopXAbsolute(0x23ff)),
        (vec![0xdc, 0xff, 0x23], Instruction::NopXAbsolute(0x23ff)),
        (vec![0xfc, 0xff, 0x23], Instruction::NopXAbsolute(0x23ff)),
        (vec![0x07, 0x39], Instruction::SloZeroPage(0x39)),
        (vec![0x17, 0x23], Instruction::SloXZeroPage(0x23)),
        (vec![0x03, 0x0a], Instruction::SloXIndexedIndirect(0x0a)),
        (vec![0x13, 0xb2], Instruction::SloYIndirectIndexed(0xb2)),
        (vec![0x0f, 0xdd, 0x25], Instruction::SloAbsolute(0x25dd)),
        (vec![0x1f, 0x9c, 0x22], Instruction::SloXAbsolute(0x229c)),
        (vec![0x1b, 0x98, 0x78], Instruction::SloYAbsolute(0x7898)),
        (vec![0x27, 0xaa], Instruction::RlaZeroPage(0xaa)),
        (vec![0x37, 0xcc], Instruction::RlaXZeroPage(0xcc)),
        (vec![0x23, 0x8d], Instruction::RlaXIndexedIndirect(0x8d)),
        (vec![0x33, 0x93], Instruction::RlaYIndirectIndexed(0x93)),
        (vec![0x2f, 0xc0, 0x92], Instruction::RlaAbsolute(0x92c0)),
        (vec![0x3f, 0xff, 0xcd], Instruction::RlaXAbsolute(0xcdff)),
        (vec![0x3b, 0x99, 0x22], Instruction::RlaYAbsolute(0x2299)),
        (vec![0x47, 0x12], Instruction::SreZeroPage(0x12)),
        (vec![0x57, 0x99], Instruction::SreXZeroPage(0x99)),
        (vec![0x43, 0x38], Instruction::SreXIndexedIndirect(0x38)),
        (vec![0x53, 0x18], Instruction::SreYIndirectIndexed(0x18)),
        (vec![0x4f, 0xaa, 0xbb], Instruction::SreAbsolute(0xbbaa)),
        (vec![0x5f, 0xdd, 0xcc], Instruction::SreXAbsolute(0xccdd)),
        (vec![0x5b, 0xff, 0xee], Instruction::SreYAbsolute(0xeeff)),
        (vec![0x67, 0x92], Instruction::RraZeroPage(0x92)),
        (vec![0x77, 0x92], Instruction::RraXZeroPage(0x92)),
        (vec![0x63, 0x92], Instruction::RraXIndexedIndirect(0x92)),
        (vec![0x73, 0x19], Instruction::RraYIndirectIndexed(0x19)),
        (vec![0x6f, 0x22, 0x39], Instruction::RraAbsolute(0x3922)),
        (vec![0x7f, 0x3c, 0x93], Instruction::RraXAbsolute(0x933c)),
        (vec![0x7b, 0xab, 0xcd], Instruction::RraYAbsolute(0xcdab)),
        (vec![0x87, 0xcd], Instruction::SaxZeroPage(0xcd)),
        (vec![0x97, 0xff], Instruction::SaxYZeroPage(0xff)),
        (vec![0x83, 0x99], Instruction::SaxXIndexedIndirect(0x99)),
        (vec![0x8f, 0x55, 0x33], Instruction::SaxAbsolute(0x3355)),
        (vec![0xa7, 0x37], Instruction::LaxZeroPage(0x37)),
        (vec![0xb7, 0xc2], Instruction::LaxYZeroPage(0xc2)),
        (vec![0xa3, 0xc4], Instruction::LaxXIndexedIndirect(0xc4)),
        (vec![0xb3, 0xd9], Instruction::LaxYIndirectIndexed(0xd9)),
        (vec![0xaf, 0x2d, 0xff], Instruction::LaxAbsolute(0xff2d)),
        (vec![0xbf, 0xd0, 0xd0], Instruction::LaxYAbsolute(0xd0d0)),
        (vec![0xc7, 0xaa], Instruction::DcpZeroPage(0xaa)),
        (vec![0xd7, 0xbb], Instruction::DcpXZeroPage(0xbb)),
        (vec![0xc3, 0xdd], Instruction::DcpXIndexedIndirect(0xdd)),
        (vec![0xd3, 0xff], Instruction::DcpYIndirectIndexed(0xff)),
        (vec![0xcf, 0xbb, 0xbc], Instruction::DcpAbsolute(0xbcbb)),
        (vec![0xdf, 0xd2, 0xc5], Instruction::DcpXAbsolute(0xc5d2)),
        (vec![0xdb, 0x22, 0x12], Instruction::DcpYAbsolute(0x1222)),
        (vec![0xe7, 0xc0], Instruction::IsbZeroPage(0xc0)),
        (vec![0xf7, 0xca, 0xcb], Instruction::IsbXZeroPage(0xca)),
        (vec![0xe3, 0xcf], Instruction::IsbXIndexedIndirect(0xcf)),
        (vec![0xf3, 0xdf], Instruction::IsbYIndirectIndexed(0xdf)),
        (vec![0xef, 0xab, 0xcd], Instruction::IsbAbsolute(0xcdab)),
        (vec![0xff, 0xdc, 0xcc], Instruction::IsbXAbsolute(0xccdc)),
        (vec![0xfb, 0x29, 0x88], Instruction::IsbYAbsolute(0x8829)),
        (vec![0xeb, 0x22], Instruction::SbcImmediateIllegal(0x22)),
    ];

    for (opcodes, instruction) in pairs {
        let result = Instruction::from_bytes(&opcodes)
            .map_err(|opcode| format!("Parsing opcodes failed: {:02X?}", opcode))
            .unwrap();
        assert_eq!(result, instruction);
    }
}

#[test]
fn endian_conversion() {
    assert_eq!(u16::from_le_bytes([0xbb, 0xaa]), 0xaabb);
    assert_eq!(u16::from_le(0xaabb), 0xaabb);
    assert_eq!(u16::from_be_bytes([0xaa, 0xbb]), 0xaabb);
    assert_eq!(u16::from_be(0xbbaa), 0xaabb);
    assert_eq!(0b1111, 15);

    assert_eq!(255u8.overflowing_add(3), (2, true));
}
