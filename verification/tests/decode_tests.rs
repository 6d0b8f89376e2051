use chip8::instruction::Instruction;

#[test]
fn decode_is_total_over_all_opcodes() {
    // Every 16-bit value decodes without panicking.
    for opcode in 0..=0xFFFFu16 {
        let _ = Instruction::from_opcode(opcode);
    }
}

#[test]
fn disassemble_is_total_over_all_opcodes() {
    for opcode in 0..=0xFFFFu16 {
        let text = Instruction::from_opcode(opcode).disassemble();
        assert!(!text.is_empty());
    }
}

#[test]
fn decode_clear_display_opcode() {
    assert_eq!(Instruction::from_opcode(0x00E0), Instruction::CLS);
}

#[test]
fn decode_return_opcode() {
    assert_eq!(Instruction::from_opcode(0x00EE), Instruction::RET);
}

#[test]
fn decode_load_immediate_opcode() {
    assert_eq!(Instruction::from_opcode(0x6A3C), Instruction::LDVxByte(0xA, 0x3C));
}

#[test]
fn decode_families() {
    assert_eq!(Instruction::from_opcode(0x0123), Instruction::SYS(0x123));
    assert_eq!(Instruction::from_opcode(0x1234), Instruction::JP(0x234));
    assert_eq!(Instruction::from_opcode(0x2ABC), Instruction::CALL(0xABC));
    assert_eq!(Instruction::from_opcode(0x3B7F), Instruction::SEVxByte(0xB, 0x7F));
    assert_eq!(Instruction::from_opcode(0x4B7F), Instruction::SNEVxByte(0xB, 0x7F));
    assert_eq!(Instruction::from_opcode(0x5120), Instruction::SEVxVy(0x1, 0x2));
    assert_eq!(Instruction::from_opcode(0x7C01), Instruction::ADDVxByte(0xC, 0x01));
    assert_eq!(Instruction::from_opcode(0x9340), Instruction::SNEVxVy(0x3, 0x4));
    assert_eq!(Instruction::from_opcode(0xA200), Instruction::LDI(0x200));
    assert_eq!(Instruction::from_opcode(0xB456), Instruction::JP0(0x456));
    assert_eq!(Instruction::from_opcode(0xC50F), Instruction::RNDVxByte(0x5, 0x0F));
    assert_eq!(Instruction::from_opcode(0xD125), Instruction::DRWVxVyNibble(0x1, 0x2, 0x5));
}

#[test]
fn decode_arithmetic_family() {
    assert_eq!(Instruction::from_opcode(0x8AB0), Instruction::LDVxVy(0xA, 0xB));
    assert_eq!(Instruction::from_opcode(0x8AB1), Instruction::ORVxVy(0xA, 0xB));
    assert_eq!(Instruction::from_opcode(0x8AB2), Instruction::ANDVxVy(0xA, 0xB));
    assert_eq!(Instruction::from_opcode(0x8AB3), Instruction::XORVxVy(0xA, 0xB));
    assert_eq!(Instruction::from_opcode(0x8AB4), Instruction::ADDVxVy(0xA, 0xB));
    assert_eq!(Instruction::from_opcode(0x8AB5), Instruction::SUBVxVy(0xA, 0xB));
    assert_eq!(Instruction::from_opcode(0x8AB6), Instruction::SHRVx(0xA));
    assert_eq!(Instruction::from_opcode(0x8AB7), Instruction::SUBNVxVy(0xA, 0xB));
    assert_eq!(Instruction::from_opcode(0x8ABE), Instruction::SHLVx(0xA));
    assert_eq!(Instruction::from_opcode(0x8AB8), Instruction::Unknown);
    assert_eq!(Instruction::from_opcode(0x8ABF), Instruction::Unknown);
}

#[test]
fn decode_key_and_misc_families() {
    assert_eq!(Instruction::from_opcode(0xE19E), Instruction::SKPVx(0x1));
    assert_eq!(Instruction::from_opcode(0xE1A1), Instruction::SKNPVx(0x1));
    assert_eq!(Instruction::from_opcode(0xE100), Instruction::Unknown);
    assert_eq!(Instruction::from_opcode(0xF207), Instruction::LDVxDT(0x2));
    assert_eq!(Instruction::from_opcode(0xF20A), Instruction::LDVxK(0x2));
    assert_eq!(Instruction::from_opcode(0xF215), Instruction::LDDTVx(0x2));
    assert_eq!(Instruction::from_opcode(0xF218), Instruction::LDSTVx(0x2));
    assert_eq!(Instruction::from_opcode(0xF21E), Instruction::ADDIVx(0x2));
    assert_eq!(Instruction::from_opcode(0xF229), Instruction::LDFVx(0x2));
    assert_eq!(Instruction::from_opcode(0xF233), Instruction::LDBVx(0x2));
    assert_eq!(Instruction::from_opcode(0xF255), Instruction::LDIVx(0x2));
    assert_eq!(Instruction::from_opcode(0xF265), Instruction::LDVxMem(0x2));
    assert_eq!(Instruction::from_opcode(0xF2FF), Instruction::Unknown);
}

#[test]
fn disassemble_mnemonics() {
    assert_eq!(Instruction::from_opcode(0x00E0).disassemble(), "CLS");
    assert_eq!(Instruction::from_opcode(0x00EE).disassemble(), "RET");
    assert_eq!(Instruction::from_opcode(0x0123).disassemble(), "SYS 123");
    assert_eq!(Instruction::from_opcode(0x1234).disassemble(), "JP 234");
    assert_eq!(Instruction::from_opcode(0x2ABC).disassemble(), "CALL ABC");
    assert_eq!(Instruction::from_opcode(0x6A3C).disassemble(), "LD VA, 3C");
    assert_eq!(Instruction::from_opcode(0x8AB4).disassemble(), "ADD VA, VB");
    assert_eq!(Instruction::from_opcode(0xA200).disassemble(), "LD I, 200");
    assert_eq!(Instruction::from_opcode(0xB456).disassemble(), "JP V0, 456");
    assert_eq!(Instruction::from_opcode(0xC50F).disassemble(), "RND V5, 0F");
    assert_eq!(Instruction::from_opcode(0xD125).disassemble(), "DRW V1, V2, 5");
    assert_eq!(Instruction::from_opcode(0xE19E).disassemble(), "SKP V1");
    assert_eq!(Instruction::from_opcode(0xE1A1).disassemble(), "SKNP V1");
    assert_eq!(Instruction::from_opcode(0xF207).disassemble(), "LD V2, DT");
    assert_eq!(Instruction::from_opcode(0xF20A).disassemble(), "LD V2, K");
    assert_eq!(Instruction::from_opcode(0xF215).disassemble(), "LD DT, V2");
    assert_eq!(Instruction::from_opcode(0xF218).disassemble(), "LD ST, V2");
    assert_eq!(Instruction::from_opcode(0xF21E).disassemble(), "ADD I, V2");
    assert_eq!(Instruction::from_opcode(0xF229).disassemble(), "LD F, V2");
    assert_eq!(Instruction::from_opcode(0xF233).disassemble(), "LD B, V2");
    assert_eq!(Instruction::from_opcode(0xF255).disassemble(), "LD [I], V2");
    assert_eq!(Instruction::from_opcode(0xF265).disassemble(), "LD V2, [I]");
    assert_eq!(Instruction::from_opcode(0xFFFF).disassemble(), "Unknown");
    assert_eq!(Instruction::from_opcode(0x5120).disassemble(), "SE V1, V2");
    assert_eq!(Instruction::from_opcode(0x4B7F).disassemble(), "SNE VB, 7F");
    assert_eq!(Instruction::from_opcode(0x9340).disassemble(), "SNE V3, V4");
    assert_eq!(Instruction::from_opcode(0x8AB6).disassemble(), "SHR VA");
    assert_eq!(Instruction::from_opcode(0x8ABE).disassemble(), "SHL VA");
    assert_eq!(Instruction::from_opcode(0x8AB7).disassemble(), "SUBN VA, VB");
}
