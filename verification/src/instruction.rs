//! Decoding of raw 16-bit opcodes into typed instruction values.
use vstd::prelude::*;

verus! {

/// A memory address operand; the decoder only ever produces values below 4096.
pub type Address = usize;

/// The decoded, semantically typed representation of a 16-bit opcode.
///
/// Register operands are indices in `[0, 15]`, immediate bytes are `u8`,
/// and addresses are 12-bit values. Encodings that the instruction set does
/// not define decode to `Unknown`.
#[derive(Clone, Copy, Debug, PartialEq, Eq, Structural)]
pub enum Instruction {
    CLS,
    RET,
    SYS(Address),
    JP(Address),
    CALL(Address),
    SEVxByte(usize, u8),
    SNEVxByte(usize, u8),
    SEVxVy(usize, usize),
    LDVxByte(usize, u8),
    ADDVxByte(usize, u8),
    LDVxVy(usize, usize),
    ORVxVy(usize, usize),
    ANDVxVy(usize, usize),
    XORVxVy(usize, usize),
    ADDVxVy(usize, usize),
    SUBVxVy(usize, usize),
    SHRVx(usize),
    SUBNVxVy(usize, usize),
    SHLVx(usize),
    SNEVxVy(usize, usize),
    LDI(Address),
    JP0(Address),
    RNDVxByte(usize, u8),
    DRWVxVyNibble(usize, usize, u8),
    SKPVx(usize),
    SKNPVx(usize),
    LDVxDT(usize),
    LDVxK(usize),
    LDDTVx(usize),
    LDSTVx(usize),
    ADDIVx(usize),
    LDFVx(usize),
    LDBVx(usize),
    LDIVx(usize),
    LDVxMem(usize),
    Unknown,
}

/// Every operand of a decoded instruction lies in the range its position
/// allows: register indices below 16, addresses below 4096, draw heights
/// below 16.
pub open spec fn wf_instruction(i: Instruction) -> bool {
    match i {
        Instruction::CLS => true,
        Instruction::RET => true,
        Instruction::SYS(nnn) => nnn < 4096,
        Instruction::JP(nnn) => nnn < 4096,
        Instruction::CALL(nnn) => nnn < 4096,
        Instruction::SEVxByte(x, _) => x < 16,
        Instruction::SNEVxByte(x, _) => x < 16,
        Instruction::SEVxVy(x, y) => x < 16 && y < 16,
        Instruction::LDVxByte(x, _) => x < 16,
        Instruction::ADDVxByte(x, _) => x < 16,
        Instruction::LDVxVy(x, y) => x < 16 && y < 16,
        Instruction::ORVxVy(x, y) => x < 16 && y < 16,
        Instruction::ANDVxVy(x, y) => x < 16 && y < 16,
        Instruction::XORVxVy(x, y) => x < 16 && y < 16,
        Instruction::ADDVxVy(x, y) => x < 16 && y < 16,
        Instruction::SUBVxVy(x, y) => x < 16 && y < 16,
        Instruction::SHRVx(x) => x < 16,
        Instruction::SUBNVxVy(x, y) => x < 16 && y < 16,
        Instruction::SHLVx(x) => x < 16,
        Instruction::SNEVxVy(x, y) => x < 16 && y < 16,
        Instruction::LDI(nnn) => nnn < 4096,
        Instruction::JP0(nnn) => nnn < 4096,
        Instruction::RNDVxByte(x, _) => x < 16,
        Instruction::DRWVxVyNibble(x, y, n) => x < 16 && y < 16 && n < 16,
        Instruction::SKPVx(x) => x < 16,
        Instruction::SKNPVx(x) => x < 16,
        Instruction::LDVxDT(x) => x < 16,
        Instruction::LDVxK(x) => x < 16,
        Instruction::LDDTVx(x) => x < 16,
        Instruction::LDSTVx(x) => x < 16,
        Instruction::ADDIVx(x) => x < 16,
        Instruction::LDFVx(x) => x < 16,
        Instruction::LDBVx(x) => x < 16,
        Instruction::LDIVx(x) => x < 16,
        Instruction::LDVxMem(x) => x < 16,
        Instruction::Unknown => true,
    }
}

/// The meaning of each 16-bit opcode: the top nibble selects a family, and
/// sub-nibbles or the low byte disambiguate within it. Total: every opcode
/// maps to exactly one variant, undefined encodings to `Unknown`.
pub open spec fn spec_decode(opcode: u16) -> Instruction {
    let first_nibble = (opcode >> 12) & 0xF;
    let x = ((opcode >> 8) & 0xF) as usize;
    let y = ((opcode >> 4) & 0xF) as usize;
    let kk = (opcode & 0xFF) as u8;
    let nnn = (opcode & 0xFFF) as usize;
    let last_nibble = opcode & 0xF;
    if first_nibble == 0x0 {
        if opcode == 0x00E0 {
            Instruction::CLS
        } else if opcode == 0x00EE {
            Instruction::RET
        } else {
            Instruction::SYS(nnn)
        }
    } else if first_nibble == 0x1 {
        Instruction::JP(nnn)
    } else if first_nibble == 0x2 {
        Instruction::CALL(nnn)
    } else if first_nibble == 0x3 {
        Instruction::SEVxByte(x, kk)
    } else if first_nibble == 0x4 {
        Instruction::SNEVxByte(x, kk)
    } else if first_nibble == 0x5 {
        Instruction::SEVxVy(x, y)
    } else if first_nibble == 0x6 {
        Instruction::LDVxByte(x, kk)
    } else if first_nibble == 0x7 {
        Instruction::ADDVxByte(x, kk)
    } else if first_nibble == 0x8 {
        if last_nibble == 0x0 {
            Instruction::LDVxVy(x, y)
        } else if last_nibble == 0x1 {
            Instruction::ORVxVy(x, y)
        } else if last_nibble == 0x2 {
            Instruction::ANDVxVy(x, y)
        } else if last_nibble == 0x3 {
            Instruction::XORVxVy(x, y)
        } else if last_nibble == 0x4 {
            Instruction::ADDVxVy(x, y)
        } else if last_nibble == 0x5 {
            Instruction::SUBVxVy(x, y)
        } else if last_nibble == 0x6 {
            Instruction::SHRVx(x)
        } else if last_nibble == 0x7 {
            Instruction::SUBNVxVy(x, y)
        } else if last_nibble == 0xE {
            Instruction::SHLVx(x)
        } else {
            Instruction::Unknown
        }
    } else if first_nibble == 0x9 {
        Instruction::SNEVxVy(x, y)
    } else if first_nibble == 0xA {
        Instruction::LDI(nnn)
    } else if first_nibble == 0xB {
        Instruction::JP0(nnn)
    } else if first_nibble == 0xC {
        Instruction::RNDVxByte(x, kk)
    } else if first_nibble == 0xD {
        Instruction::DRWVxVyNibble(x, y, last_nibble as u8)
    } else if first_nibble == 0xE {
        if kk == 0x9E {
            Instruction::SKPVx(x)
        } else if kk == 0xA1 {
            Instruction::SKNPVx(x)
        } else {
            Instruction::Unknown
        }
    } else if first_nibble == 0xF {
        if kk == 0x07 {
            Instruction::LDVxDT(x)
        } else if kk == 0x0A {
            Instruction::LDVxK(x)
        } else if kk == 0x15 {
            Instruction::LDDTVx(x)
        } else if kk == 0x18 {
            Instruction::LDSTVx(x)
        } else if kk == 0x1E {
            Instruction::ADDIVx(x)
        } else if kk == 0x29 {
            Instruction::LDFVx(x)
        } else if kk == 0x33 {
            Instruction::LDBVx(x)
        } else if kk == 0x55 {
            Instruction::LDIVx(x)
        } else if kk == 0x65 {
            Instruction::LDVxMem(x)
        } else {
            Instruction::Unknown
        }
    } else {
        Instruction::Unknown
    }
}

impl Instruction {
    /// Decode a raw opcode. Total: every 16-bit value yields exactly the
    /// instruction that `spec_decode` assigns it, and the operands of the
    /// result are in range.
    pub fn from_opcode(opcode: u16) -> (r: Instruction)
        ensures
            r == spec_decode(opcode),
            wf_instruction(r),
    {
        let first_nibble = (opcode >> 12) & 0xF;
        let x = ((opcode >> 8) & 0xF) as usize;
        let y = ((opcode >> 4) & 0xF) as usize;
        let kk = (opcode & 0xFF) as u8;
        let nnn = (opcode & 0xFFF) as usize;
        let last_nibble = opcode & 0xF;
        proof {
            assert(((opcode >> 8) & 0xF) < 16) by (bit_vector);
            assert(((opcode >> 4) & 0xF) < 16) by (bit_vector);
            assert((opcode & 0xFFF) < 4096) by (bit_vector);
            assert((opcode & 0xF) < 16) by (bit_vector);
        }
        if first_nibble == 0x0 {
            if opcode == 0x00E0 {
                Instruction::CLS
            } else if opcode == 0x00EE {
                Instruction::RET
            } else {
                Instruction::SYS(nnn)
            }
        } else if first_nibble == 0x1 {
            Instruction::JP(nnn)
        } else if first_nibble == 0x2 {
            Instruction::CALL(nnn)
        } else if first_nibble == 0x3 {
            Instruction::SEVxByte(x, kk)
        } else if first_nibble == 0x4 {
            Instruction::SNEVxByte(x, kk)
        } else if first_nibble == 0x5 {
            Instruction::SEVxVy(x, y)
        } else if first_nibble == 0x6 {
            Instruction::LDVxByte(x, kk)
        } else if first_nibble == 0x7 {
            Instruction::ADDVxByte(x, kk)
        } else if first_nibble == 0x8 {
            if last_nibble == 0x0 {
                Instruction::LDVxVy(x, y)
            } else if last_nibble == 0x1 {
                Instruction::ORVxVy(x, y)
            } else if last_nibble == 0x2 {
                Instruction::ANDVxVy(x, y)
            } else if last_nibble == 0x3 {
                Instruction::XORVxVy(x, y)
            } else if last_nibble == 0x4 {
                Instruction::ADDVxVy(x, y)
            } else if last_nibble == 0x5 {
                Instruction::SUBVxVy(x, y)
            } else if last_nibble == 0x6 {
                Instruction::SHRVx(x)
            } else if last_nibble == 0x7 {
                Instruction::SUBNVxVy(x, y)
            } else if last_nibble == 0xE {
                Instruction::SHLVx(x)
            } else {
                Instruction::Unknown
            }
        } else if first_nibble == 0x9 {
            Instruction::SNEVxVy(x, y)
        } else if first_nibble == 0xA {
            Instruction::LDI(nnn)
        } else if first_nibble == 0xB {
            Instruction::JP0(nnn)
        } else if first_nibble == 0xC {
            Instruction::RNDVxByte(x, kk)
        } else if first_nibble == 0xD {
            Instruction::DRWVxVyNibble(x, y, last_nibble as u8)
        } else if first_nibble == 0xE {
            if kk == 0x9E {
                Instruction::SKPVx(x)
            } else if kk == 0xA1 {
                Instruction::SKNPVx(x)
            } else {
                Instruction::Unknown
            }
        } else if first_nibble == 0xF {
            if kk == 0x07 {
                Instruction::LDVxDT(x)
            } else if kk == 0x0A {
                Instruction::LDVxK(x)
            } else if kk == 0x15 {
                Instruction::LDDTVx(x)
            } else if kk == 0x18 {
                Instruction::LDSTVx(x)
            } else if kk == 0x1E {
                Instruction::ADDIVx(x)
            } else if kk == 0x29 {
                Instruction::LDFVx(x)
            } else if kk == 0x33 {
                Instruction::LDBVx(x)
            } else if kk == 0x55 {
                Instruction::LDIVx(x)
            } else if kk == 0x65 {
                Instruction::LDVxMem(x)
            } else {
                Instruction::Unknown
            }
        } else {
            Instruction::Unknown
        }
    }
}

/// The uppercase hexadecimal digit character for a value below sixteen.
pub open spec fn hex_char(d: u8) -> char {
    if d == 0 {
        '0'
    } else if d == 1 {
        '1'
    } else if d == 2 {
        '2'
    } else if d == 3 {
        '3'
    } else if d == 4 {
        '4'
    } else if d == 5 {
        '5'
    } else if d == 6 {
        '6'
    } else if d == 7 {
        '7'
    } else if d == 8 {
        '8'
    } else if d == 9 {
        '9'
    } else if d == 10 {
        'A'
    } else if d == 11 {
        'B'
    } else if d == 12 {
        'C'
    } else if d == 13 {
        'D'
    } else if d == 14 {
        'E'
    } else {
        'F'
    }
}

/// One hexadecimal digit: a register index.
pub open spec fn hex1(x: usize) -> Seq<char> {
    seq![hex_char((x % 16) as u8)]
}

/// Two hexadecimal digits: an immediate byte.
pub open spec fn hex2(kk: u8) -> Seq<char> {
    seq![hex_char(((kk as int) / 16) as u8), hex_char(((kk as int) % 16) as u8)]
}

/// Three hexadecimal digits: a 12-bit address.
pub open spec fn hex3(nnn: usize) -> Seq<char> {
    seq![
        hex_char((((nnn as int) / 256) % 16) as u8),
        hex_char((((nnn as int) / 16) % 16) as u8),
        hex_char(((nnn as int) % 16) as u8),
    ]
}

/// The assembly text of each instruction: the mnemonic, then the operands,
/// register indices as one uppercase hexadecimal digit, immediate bytes as
/// two and addresses as three.
pub open spec fn spec_disassemble(i: Instruction) -> Seq<char> {
    match i {
        Instruction::CLS => seq!['C', 'L', 'S'],
        Instruction::RET => seq!['R', 'E', 'T'],
        Instruction::SYS(a) => seq!['S', 'Y', 'S', ' '] + hex3(a),
        Instruction::JP(a) => seq!['J', 'P', ' '] + hex3(a),
        Instruction::CALL(a) => seq!['C', 'A', 'L', 'L', ' '] + hex3(a),
        Instruction::SEVxByte(x, kk) => seq!['S', 'E', ' ', 'V'] + hex1(x) + seq![',', ' ']
            + hex2(kk),
        Instruction::SNEVxByte(x, kk) => seq!['S', 'N', 'E', ' ', 'V'] + hex1(x) + seq![',', ' ']
            + hex2(kk),
        Instruction::SEVxVy(x, y) => seq!['S', 'E', ' ', 'V'] + hex1(x) + seq![',', ' ', 'V']
            + hex1(y),
        Instruction::LDVxByte(x, kk) => seq!['L', 'D', ' ', 'V'] + hex1(x) + seq![',', ' ']
            + hex2(kk),
        Instruction::ADDVxByte(x, kk) => seq!['A', 'D', 'D', ' ', 'V'] + hex1(x) + seq![',', ' ']
            + hex2(kk),
        Instruction::LDVxVy(x, y) => seq!['L', 'D', ' ', 'V'] + hex1(x) + seq![',', ' ', 'V']
            + hex1(y),
        Instruction::ORVxVy(x, y) => seq!['O', 'R', ' ', 'V'] + hex1(x) + seq![',', ' ', 'V']
            + hex1(y),
        Instruction::ANDVxVy(x, y) => seq!['A', 'N', 'D', ' ', 'V'] + hex1(x) + seq![',', ' ', 'V']
            + hex1(y),
        Instruction::XORVxVy(x, y) => seq!['X', 'O', 'R', ' ', 'V'] + hex1(x) + seq![',', ' ', 'V']
            + hex1(y),
        Instruction::ADDVxVy(x, y) => seq!['A', 'D', 'D', ' ', 'V'] + hex1(x) + seq![',', ' ', 'V']
            + hex1(y),
        Instruction::SUBVxVy(x, y) => seq!['S', 'U', 'B', ' ', 'V'] + hex1(x) + seq![',', ' ', 'V']
            + hex1(y),
        Instruction::SHRVx(x) => seq!['S', 'H', 'R', ' ', 'V'] + hex1(x),
        Instruction::SUBNVxVy(x, y) => seq!['S', 'U', 'B', 'N', ' ', 'V'] + hex1(x) + seq![
            ',',
            ' ',
            'V',
        ] + hex1(y),
        Instruction::SHLVx(x) => seq!['S', 'H', 'L', ' ', 'V'] + hex1(x),
        Instruction::SNEVxVy(x, y) => seq!['S', 'N', 'E', ' ', 'V'] + hex1(x) + seq![',', ' ', 'V']
            + hex1(y),
        Instruction::LDI(a) => seq!['L', 'D', ' ', 'I', ',', ' '] + hex3(a),
        Instruction::JP0(a) => seq!['J', 'P', ' ', 'V', '0', ',', ' '] + hex3(a),
        Instruction::RNDVxByte(x, kk) => seq!['R', 'N', 'D', ' ', 'V'] + hex1(x) + seq![',', ' ']
            + hex2(kk),
        Instruction::DRWVxVyNibble(x, y, n) => seq!['D', 'R', 'W', ' ', 'V'] + hex1(x) + seq![
            ',',
            ' ',
            'V',
        ] + hex1(y) + seq![',', ' '] + seq![hex_char(((n as int) % 16) as u8)],
        Instruction::SKPVx(x) => seq!['S', 'K', 'P', ' ', 'V'] + hex1(x),
        Instruction::SKNPVx(x) => seq!['S', 'K', 'N', 'P', ' ', 'V'] + hex1(x),
        Instruction::LDVxDT(x) => seq!['L', 'D', ' ', 'V'] + hex1(x) + seq![',', ' ', 'D', 'T'],
        Instruction::LDVxK(x) => seq!['L', 'D', ' ', 'V'] + hex1(x) + seq![',', ' ', 'K'],
        Instruction::LDDTVx(x) => seq!['L', 'D', ' ', 'D', 'T', ',', ' ', 'V'] + hex1(x),
        Instruction::LDSTVx(x) => seq!['L', 'D', ' ', 'S', 'T', ',', ' ', 'V'] + hex1(x),
        Instruction::ADDIVx(x) => seq!['A', 'D', 'D', ' ', 'I', ',', ' ', 'V'] + hex1(x),
        Instruction::LDFVx(x) => seq!['L', 'D', ' ', 'F', ',', ' ', 'V'] + hex1(x),
        Instruction::LDBVx(x) => seq!['L', 'D', ' ', 'B', ',', ' ', 'V'] + hex1(x),
        Instruction::LDIVx(x) => seq!['L', 'D', ' ', '[', 'I', ']', ',', ' ', 'V'] + hex1(x),
        Instruction::LDVxMem(x) => seq!['L', 'D', ' ', 'V'] + hex1(x) + seq![',', ' ', '[', 'I', ']'],
        Instruction::Unknown => seq!['U', 'n', 'k', 'n', 'o', 'w', 'n'],
    }
}

/// Relies on `String::from_iter` over `char`: collecting characters yields
/// a string whose characters are exactly the collected sequence.
#[verifier::external_body]
fn chars_to_string(chars: &Vec<char>) -> (r: String)
    ensures
        r@ == chars@,
{
    chars.iter().collect()
}

/// The uppercase hexadecimal digit character for a value below sixteen.
fn hex_char_of(d: u8) -> (c: char)
    requires
        d < 16,
    ensures
        c == hex_char(d),
{
    if d == 0 {
        '0'
    } else if d == 1 {
        '1'
    } else if d == 2 {
        '2'
    } else if d == 3 {
        '3'
    } else if d == 4 {
        '4'
    } else if d == 5 {
        '5'
    } else if d == 6 {
        '6'
    } else if d == 7 {
        '7'
    } else if d == 8 {
        '8'
    } else if d == 9 {
        '9'
    } else if d == 10 {
        'A'
    } else if d == 11 {
        'B'
    } else if d == 12 {
        'C'
    } else if d == 13 {
        'D'
    } else if d == 14 {
        'E'
    } else {
        'F'
    }
}

/// Append a register index as one hexadecimal digit (of its low nibble).
fn push_hex1(out: &mut Vec<char>, x: usize)
    ensures
        final(out)@ == old(out)@ + hex1(x),
{
    let c = hex_char_of((x % 16) as u8);
    out.push(c);
    proof {
        assert(out@ =~= old(out)@ + hex1(x));
    }
}

/// Append an immediate byte as two hexadecimal digits.
fn push_hex2(out: &mut Vec<char>, kk: u8)
    ensures
        final(out)@ == old(out)@ + hex2(kk),
{
    let hi = hex_char_of(kk / 16);
    let lo = hex_char_of(kk % 16);
    out.push(hi);
    out.push(lo);
    proof {
        assert(out@ =~= old(out)@ + hex2(kk));
    }
}

/// Append an address as three hexadecimal digits (of its low twelve bits).
fn push_hex3(out: &mut Vec<char>, nnn: usize)
    ensures
        final(out)@ == old(out)@ + hex3(nnn),
{
    let d0 = hex_char_of(((nnn / 256) % 16) as u8);
    let d1 = hex_char_of(((nnn / 16) % 16) as u8);
    let d2 = hex_char_of((nnn % 16) as u8);
    out.push(d0);
    out.push(d1);
    out.push(d2);
    proof {
        assert(out@ =~= old(out)@ + hex3(nnn));
    }
}

impl Instruction {
    /// The assembly text of this instruction, exactly `spec_disassemble`;
    /// total, with out-of-range operands rendered by their low bits.
    #[verifier::rlimit(100)]
    pub fn disassemble(&self) -> (r: String)
        ensures
            r@ == spec_disassemble(*self),
    {
        let mut out: Vec<char> = Vec::new();
        match *self {
            Instruction::CLS => {
                out.push('C');
                out.push('L');
                out.push('S');
                proof {
                    assert(out@ =~= spec_disassemble(*self));
                }
            },
            Instruction::RET => {
                out.push('R');
                out.push('E');
                out.push('T');
                proof {
                    assert(out@ =~= spec_disassemble(*self));
                }
            },
            Instruction::SYS(a) => {
                out.push('S');
                out.push('Y');
                out.push('S');
                out.push(' ');
                push_hex3(&mut out, a);
                proof {
                    assert(out@ =~= spec_disassemble(*self));
                }
            },
            Instruction::JP(a) => {
                out.push('J');
                out.push('P');
                out.push(' ');
                push_hex3(&mut out, a);
                proof {
                    assert(out@ =~= spec_disassemble(*self));
                }
            },
            Instruction::CALL(a) => {
                out.push('C');
                out.push('A');
                out.push('L');
                out.push('L');
                out.push(' ');
                push_hex3(&mut out, a);
                proof {
                    assert(out@ =~= spec_disassemble(*self));
                }
            },
            Instruction::SEVxByte(x, kk) => {
                out.push('S');
                out.push('E');
                out.push(' ');
                out.push('V');
                push_hex1(&mut out, x);
                out.push(',');
                out.push(' ');
                push_hex2(&mut out, kk);
                proof {
                    assert(out@ =~= spec_disassemble(*self));
                }
            },
            Instruction::SNEVxByte(x, kk) => {
                out.push('S');
                out.push('N');
                out.push('E');
                out.push(' ');
                out.push('V');
                push_hex1(&mut out, x);
                out.push(',');
                out.push(' ');
                push_hex2(&mut out, kk);
                proof {
                    assert(out@ =~= spec_disassemble(*self));
                }
            },
            Instruction::SEVxVy(x, y) => {
                out.push('S');
                out.push('E');
                out.push(' ');
                out.push('V');
                push_hex1(&mut out, x);
                out.push(',');
                out.push(' ');
                out.push('V');
                push_hex1(&mut out, y);
                proof {
                    assert(out@ =~= spec_disassemble(*self));
                }
            },
            Instruction::LDVxByte(x, kk) => {
                out.push('L');
                out.push('D');
                out.push(' ');
                out.push('V');
                push_hex1(&mut out, x);
                out.push(',');
                out.push(' ');
                push_hex2(&mut out, kk);
                proof {
                    assert(out@ =~= spec_disassemble(*self));
                }
            },
            Instruction::ADDVxByte(x, kk) => {
                out.push('A');
                out.push('D');
                out.push('D');
                out.push(' ');
                out.push('V');
                push_hex1(&mut out, x);
                out.push(',');
                out.push(' ');
                push_hex2(&mut out, kk);
                proof {
                    assert(out@ =~= spec_disassemble(*self));
                }
            },
            Instruction::LDVxVy(x, y) => {
                out.push('L');
                out.push('D');
                out.push(' ');
                out.push('V');
                push_hex1(&mut out, x);
                out.push(',');
                out.push(' ');
                out.push('V');
                push_hex1(&mut out, y);
                proof {
                    assert(out@ =~= spec_disassemble(*self));
                }
            },
            Instruction::ORVxVy(x, y) => {
                out.push('O');
                out.push('R');
                out.push(' ');
                out.push('V');
                push_hex1(&mut out, x);
                out.push(',');
                out.push(' ');
                out.push('V');
                push_hex1(&mut out, y);
                proof {
                    assert(out@ =~= spec_disassemble(*self));
                }
            },
            Instruction::ANDVxVy(x, y) => {
                out.push('A');
                out.push('N');
                out.push('D');
                out.push(' ');
                out.push('V');
                push_hex1(&mut out, x);
                out.push(',');
                out.push(' ');
                out.push('V');
                push_hex1(&mut out, y);
                proof {
                    assert(out@ =~= spec_disassemble(*self));
                }
            },
            Instruction::XORVxVy(x, y) => {
                out.push('X');
                out.push('O');
                out.push('R');
                out.push(' ');
                out.push('V');
                push_hex1(&mut out, x);
                out.push(',');
                out.push(' ');
                out.push('V');
                push_hex1(&mut out, y);
                proof {
                    assert(out@ =~= spec_disassemble(*self));
                }
            },
            Instruction::ADDVxVy(x, y) => {
                out.push('A');
                out.push('D');
                out.push('D');
                out.push(' ');
                out.push('V');
                push_hex1(&mut out, x);
                out.push(',');
                out.push(' ');
                out.push('V');
                push_hex1(&mut out, y);
                proof {
                    assert(out@ =~= spec_disassemble(*self));
                }
            },
            Instruction::SUBVxVy(x, y) => {
                out.push('S');
                out.push('U');
                out.push('B');
                out.push(' ');
                out.push('V');
                push_hex1(&mut out, x);
                out.push(',');
                out.push(' ');
                out.push('V');
                push_hex1(&mut out, y);
                proof {
                    assert(out@ =~= spec_disassemble(*self));
                }
            },
            Instruction::SHRVx(x) => {
                out.push('S');
                out.push('H');
                out.push('R');
                out.push(' ');
                out.push('V');
                push_hex1(&mut out, x);
                proof {
                    assert(out@ =~= spec_disassemble(*self));
                }
            },
            Instruction::SUBNVxVy(x, y) => {
                out.push('S');
                out.push('U');
                out.push('B');
                out.push('N');
                out.push(' ');
                out.push('V');
                push_hex1(&mut out, x);
                out.push(',');
                out.push(' ');
                out.push('V');
                push_hex1(&mut out, y);
                proof {
                    assert(out@ =~= spec_disassemble(*self));
                }
            },
            Instruction::SHLVx(x) => {
                out.push('S');
                out.push('H');
                out.push('L');
                out.push(' ');
                out.push('V');
                push_hex1(&mut out, x);
                proof {
                    assert(out@ =~= spec_disassemble(*self));
                }
            },
            Instruction::SNEVxVy(x, y) => {
                out.push('S');
                out.push('N');
                out.push('E');
                out.push(' ');
                out.push('V');
                push_hex1(&mut out, x);
                out.push(',');
                out.push(' ');
                out.push('V');
                push_hex1(&mut out, y);
                proof {
                    assert(out@ =~= spec_disassemble(*self));
                }
            },
            Instruction::LDI(a) => {
                out.push('L');
                out.push('D');
                out.push(' ');
                out.push('I');
                out.push(',');
                out.push(' ');
                push_hex3(&mut out, a);
                proof {
                    assert(out@ =~= spec_disassemble(*self));
                }
            },
            Instruction::JP0(a) => {
                out.push('J');
                out.push('P');
                out.push(' ');
                out.push('V');
                out.push('0');
                out.push(',');
                out.push(' ');
                push_hex3(&mut out, a);
                proof {
                    assert(out@ =~= spec_disassemble(*self));
                }
            },
            Instruction::RNDVxByte(x, kk) => {
                out.push('R');
                out.push('N');
                out.push('D');
                out.push(' ');
                out.push('V');
                push_hex1(&mut out, x);
                out.push(',');
                out.push(' ');
                push_hex2(&mut out, kk);
                proof {
                    assert(out@ =~= spec_disassemble(*self));
                }
            },
            Instruction::DRWVxVyNibble(x, y, n) => {
                out.push('D');
                out.push('R');
                out.push('W');
                out.push(' ');
                out.push('V');
                push_hex1(&mut out, x);
                out.push(',');
                out.push(' ');
                out.push('V');
                push_hex1(&mut out, y);
                out.push(',');
                out.push(' ');
                let c = hex_char_of(n % 16);
                out.push(c);
                proof {
                    assert(out@ =~= spec_disassemble(*self));
                }
            },
            Instruction::SKPVx(x) => {
                out.push('S');
                out.push('K');
                out.push('P');
                out.push(' ');
                out.push('V');
                push_hex1(&mut out, x);
                proof {
                    assert(out@ =~= spec_disassemble(*self));
                }
            },
            Instruction::SKNPVx(x) => {
                out.push('S');
                out.push('K');
                out.push('N');
                out.push('P');
                out.push(' ');
                out.push('V');
                push_hex1(&mut out, x);
                proof {
                    assert(out@ =~= spec_disassemble(*self));
                }
            },
            Instruction::LDVxDT(x) => {
                out.push('L');
                out.push('D');
                out.push(' ');
                out.push('V');
                push_hex1(&mut out, x);
                out.push(',');
                out.push(' ');
                out.push('D');
                out.push('T');
                proof {
                    assert(out@ =~= spec_disassemble(*self));
                }
            },
            Instruction::LDVxK(x) => {
                out.push('L');
                out.push('D');
                out.push(' ');
                out.push('V');
                push_hex1(&mut out, x);
                out.push(',');
                out.push(' ');
                out.push('K');
                proof {
                    assert(out@ =~= spec_disassemble(*self));
                }
            },
            Instruction::LDDTVx(x) => {
                out.push('L');
                out.push('D');
                out.push(' ');
                out.push('D');
                out.push('T');
                out.push(',');
                out.push(' ');
                out.push('V');
                push_hex1(&mut out, x);
                proof {
                    assert(out@ =~= spec_disassemble(*self));
                }
            },
            Instruction::LDSTVx(x) => {
                out.push('L');
                out.push('D');
                out.push(' ');
                out.push('S');
                out.push('T');
                out.push(',');
                out.push(' ');
                out.push('V');
                push_hex1(&mut out, x);
                proof {
                    assert(out@ =~= spec_disassemble(*self));
                }
            },
            Instruction::ADDIVx(x) => {
                out.push('A');
                out.push('D');
                out.push('D');
                out.push(' ');
                out.push('I');
                out.push(',');
                out.push(' ');
                out.push('V');
                push_hex1(&mut out, x);
                proof {
                    assert(out@ =~= spec_disassemble(*self));
                }
            },
            Instruction::LDFVx(x) => {
                out.push('L');
                out.push('D');
                out.push(' ');
                out.push('F');
                out.push(',');
                out.push(' ');
                out.push('V');
                push_hex1(&mut out, x);
                proof {
                    assert(out@ =~= spec_disassemble(*self));
                }
            },
            Instruction::LDBVx(x) => {
                out.push('L');
                out.push('D');
                out.push(' ');
                out.push('B');
                out.push(',');
                out.push(' ');
                out.push('V');
                push_hex1(&mut out, x);
                proof {
                    assert(out@ =~= spec_disassemble(*self));
                }
            },
            Instruction::LDIVx(x) => {
                out.push('L');
                out.push('D');
                out.push(' ');
                out.push('[');
                out.push('I');
                out.push(']');
                out.push(',');
                out.push(' ');
                out.push('V');
                push_hex1(&mut out, x);
                proof {
                    assert(out@ =~= spec_disassemble(*self));
                }
            },
            Instruction::LDVxMem(x) => {
                out.push('L');
                out.push('D');
                out.push(' ');
                out.push('V');
                push_hex1(&mut out, x);
                out.push(',');
                out.push(' ');
                out.push('[');
                out.push('I');
                out.push(']');
                proof {
                    assert(out@ =~= spec_disassemble(*self));
                }
            },
            Instruction::Unknown => {
                out.push('U');
                out.push('n');
                out.push('k');
                out.push('n');
                out.push('o');
                out.push('w');
                out.push('n');
                proof {
                    assert(out@ =~= spec_disassemble(*self));
                }
            },
        }
        chars_to_string(&out)
    }
}

} // verus!
