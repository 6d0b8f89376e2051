//! The mathematical model of the virtual machine: an abstract state over
//! sequences, and the exact effect of every instruction on it.
use vstd::prelude::*;

use crate::font::font_seq;
use crate::instruction::Instruction;

verus! {

/// Width of the display in pixels.
pub const SCREEN_WIDTH: usize = 64;

/// Height of the display in pixels.
pub const SCREEN_HEIGHT: usize = 32;

/// Number of pixels in the display buffer.
pub const SCREEN_PIXELS: usize = 2048;

/// Size of the machine's addressable memory in bytes.
pub const MEM_SIZE: usize = 4096;

/// Offset at which a loaded program is placed.
pub const PROGRAM_START: usize = 0x200;

/// Number of data registers.
pub const NUM_REGISTERS: usize = 16;

/// Number of keys on the input pad.
pub const NUM_KEYS: usize = 16;

/// Index of the flag register, overwritten as a side effect by arithmetic,
/// shift and draw operations.
pub const FLAG_REGISTER: usize = 0xF;

/// The abstract state of the virtual machine. The display is a single
/// row-major sequence: the pixel at column `x`, row `y` sits at
/// `y * 64 + x`.
#[verifier::ext_equal]
pub ghost struct VmState {
    pub mem: Seq<u8>,
    pub pc: usize,
    pub index: usize,
    pub stack: Seq<usize>,
    pub dt: u8,
    pub st: u8,
    pub v: Seq<u8>,
    pub keys: Seq<bool>,
    pub screen: Seq<bool>,
    pub paused: bool,
}

/// Errors that halt the cycle loop.
#[derive(Clone, Copy, Debug, PartialEq, Eq, Structural)]
pub enum ExecError {
    /// A return was executed with an empty call stack.
    StackUnderflow,
    /// The instruction is deliberately not implemented (the legacy
    /// machine-code call and the blocking key-wait load).
    Unimplemented,
}

/// Rejection of a program that does not fit into memory.
#[derive(Clone, Copy, Debug, PartialEq, Eq, Structural)]
pub enum LoadError {
    ProgramTooLarge,
}

/// Structural well-formedness of a machine state: every collection has its
/// fixed size and every address-valued field stays inside memory.
pub open spec fn wf_state(s: VmState) -> bool {
    &&& s.mem.len() == MEM_SIZE
    &&& s.v.len() == NUM_REGISTERS
    &&& s.keys.len() == NUM_KEYS
    &&& s.screen.len() == SCREEN_PIXELS
    &&& s.pc < MEM_SIZE
    &&& s.index < MEM_SIZE
    &&& forall|i: int| 0 <= i < s.stack.len() ==> #[trigger] s.stack[i] < MEM_SIZE
}

/// The state at creation: font at the bottom of memory, program counter at
/// the program start, everything else zeroed.
pub open spec fn spec_initial_state() -> VmState {
    VmState {
        mem: Seq::new(MEM_SIZE as nat, |i: int| if i < font_seq().len() { font_seq()[i] } else { 0u8 }),
        pc: PROGRAM_START,
        index: 0,
        stack: Seq::empty(),
        dt: 0,
        st: 0,
        v: Seq::new(NUM_REGISTERS as nat, |i: int| 0u8),
        keys: Seq::new(NUM_KEYS as nat, |i: int| false),
        screen: Seq::new(SCREEN_PIXELS as nat, |i: int| false),
        paused: false,
    }
}

/// Memory after copying `data` over the bytes starting at `at`.
pub open spec fn overwrite_at(mem: Seq<u8>, data: Seq<u8>, at: int) -> Seq<u8> {
    Seq::new(mem.len(), |i: int| if at <= i < at + data.len() { data[i - at] } else { mem[i] })
}

/// The state after a successful program load.
pub open spec fn spec_load(s: VmState, data: Seq<u8>) -> VmState {
    VmState { mem: overwrite_at(s.mem, data, PROGRAM_START as int), ..s }
}

/// The state after the input layer replaces the pad and possibly toggles
/// the paused flag.
pub open spec fn spec_set_controls(s: VmState, keys: Seq<bool>, toggle_pause: bool) -> VmState {
    VmState { keys: keys, paused: if toggle_pause { !s.paused } else { s.paused }, ..s }
}

/// The program counter after an ordinary instruction, masked into memory.
pub open spec fn advance(pc: usize) -> usize {
    (((pc + 2) as int) % (MEM_SIZE as int)) as usize
}

/// The program counter after a conditional skip: two extra bytes when the
/// condition holds.
pub open spec fn advance_skip(pc: usize, cond: bool) -> usize {
    if cond {
        (((pc + 4) as int) % (MEM_SIZE as int)) as usize
    } else {
        advance(pc)
    }
}

/// One for a condition that holds, zero otherwise: the value written to the
/// flag register.
pub open spec fn flag(b: bool) -> u8 {
    if b {
        1u8
    } else {
        0u8
    }
}

/// Whether sprite bit `col` (counted from the most significant bit) of a
/// sprite row byte is set.
pub open spec fn sprite_bit(byte: u8, col: int) -> bool {
    byte & (0x80u8 >> (col as u8)) != 0
}

/// Clamp a coordinate to the visible display rather than wrapping.
pub open spec fn clamp_to(c: int, max: int) -> int {
    if c > max {
        max
    } else {
        c
    }
}

/// Display and collision flag after the first `col` bits of one sprite row
/// have been drawn. `px` and `py` are the register-given origin, `row` the
/// row offset inside the sprite. Each set bit toggles its clamped pixel;
/// the collision flag accumulates the post-toggle state of toggled pixels.
pub open spec fn draw_cols(
    screen: Seq<bool>,
    coll: bool,
    byte: u8,
    px: int,
    py: int,
    row: int,
    col: int,
) -> (Seq<bool>, bool)
    decreases col,
{
    if col <= 0 {
        (screen, coll)
    } else {
        let prev = draw_cols(screen, coll, byte, px, py, row, col - 1);
        let j = col - 1;
        if sprite_bit(byte, j) {
            let sy = clamp_to(py + row, SCREEN_HEIGHT - 1);
            let sx = clamp_to(px + j, SCREEN_WIDTH - 1);
            let idx = sy * (SCREEN_WIDTH as int) + sx;
            let toggled = prev.0.update(idx, !prev.0[idx]);
            (toggled, if toggled[idx] { true } else { prev.1 })
        } else {
            prev
        }
    }
}

/// Display and collision flag after the first `row` rows of a sprite have
/// been drawn. Row `r` is the byte at `index + r`, masked into memory.
pub open spec fn draw_rows(
    screen: Seq<bool>,
    coll: bool,
    mem: Seq<u8>,
    index: usize,
    px: int,
    py: int,
    row: int,
) -> (Seq<bool>, bool)
    decreases row,
{
    if row <= 0 {
        (screen, coll)
    } else {
        let prev = draw_rows(screen, coll, mem, index, px, py, row - 1);
        let byte = mem[(index + (row - 1)) % (MEM_SIZE as int)];
        draw_cols(prev.0, prev.1, byte, px, py, row - 1, 8)
    }
}

/// The full effect of a sprite draw on the display: `n` rows read at the
/// index register, drawn at the coordinates held by registers `x` and `y`.
pub open spec fn spec_draw(s: VmState, x: int, y: int, n: int) -> (Seq<bool>, bool) {
    draw_rows(s.screen, false, s.mem, s.index, s.v[x] as int, s.v[y] as int, n)
}

/// The state after a sprite draw, before the program counter advances: the
/// display takes the drawn buffer and the flag register records whether any
/// toggled pixel ended up turned on.
pub open spec fn spec_draw_applied(s: VmState, x: int, y: int, n: int) -> VmState {
    let drawn = spec_draw(s, x, y, n);
    VmState {
        screen: drawn.0,
        v: s.v.update(FLAG_REGISTER as int, flag(drawn.1)),
        ..s
    }
}

/// Memory after registers `0` through `count - 1` have been copied to the
/// cells at the index register, each address masked into memory.
pub open spec fn store_regs(mem: Seq<u8>, v: Seq<u8>, index: usize, count: int) -> Seq<u8>
    decreases count,
{
    if count <= 0 {
        mem
    } else {
        store_regs(mem, v, index, count - 1).update(
            (index + (count - 1)) % (MEM_SIZE as int),
            v[count - 1],
        )
    }
}

/// Registers after `0` through `count - 1` have been loaded from the cells
/// at the index register, each address masked into memory.
pub open spec fn load_regs(v: Seq<u8>, mem: Seq<u8>, index: usize, count: int) -> Seq<u8>
    decreases count,
{
    if count <= 0 {
        v
    } else {
        load_regs(v, mem, index, count - 1).update(
            count - 1,
            mem[(index + (count - 1)) % (MEM_SIZE as int)],
        )
    }
}

/// One tick of timer decay: each nonzero timer drops by one, clamped at
/// zero.
pub open spec fn spec_tick_timers(s: VmState) -> VmState {
    VmState {
        dt: if s.dt > 0 { (s.dt - 1) as u8 } else { 0u8 },
        st: if s.st > 0 { (s.st - 1) as u8 } else { 0u8 },
        ..s
    }
}

/// The error, if any, that executing `i` in state `s` reports: the two
/// deliberately unimplemented encodings always fail, and a return from an
/// empty stack underflows. Every other instruction succeeds.
pub open spec fn spec_exec_err(s: VmState, i: Instruction) -> Option<ExecError> {
    match i {
        Instruction::SYS(_) => Some(ExecError::Unimplemented),
        Instruction::LDVxK(_) => Some(ExecError::Unimplemented),
        Instruction::RET => if s.stack.len() == 0 {
            Some(ExecError::StackUnderflow)
        } else {
            None
        },
        _ => None,
    }
}

/// The state after successfully executing `i` in state `s`, where `rnd` is
/// the byte the random source produced (it only matters to `RNDVxByte`).
/// The program counter update is included: ordinary instructions advance it
/// by two, skips by two or four, and jumps, calls and returns set it.
pub open spec fn spec_exec_ok(s: VmState, i: Instruction, rnd: u8) -> VmState {
    match i {
        Instruction::CLS => VmState {
            screen: Seq::new(SCREEN_PIXELS as nat, |j: int| false),
            pc: advance(s.pc),
            ..s
        },
        Instruction::RET => VmState {
            pc: (((s.stack.last() + 2) as int) % (MEM_SIZE as int)) as usize,
            stack: s.stack.drop_last(),
            ..s
        },
        Instruction::SYS(_) => s,
        Instruction::JP(nnn) => VmState { pc: nnn, ..s },
        Instruction::CALL(nnn) => VmState { stack: s.stack.push(s.pc), pc: nnn, ..s },
        Instruction::SEVxByte(x, kk) => VmState {
            pc: advance_skip(s.pc, s.v[x as int] == kk),
            ..s
        },
        Instruction::SNEVxByte(x, kk) => VmState {
            pc: advance_skip(s.pc, s.v[x as int] != kk),
            ..s
        },
        Instruction::SEVxVy(x, y) => VmState {
            pc: advance_skip(s.pc, s.v[x as int] == s.v[y as int]),
            ..s
        },
        Instruction::LDVxByte(x, kk) => VmState {
            v: s.v.update(x as int, kk),
            pc: advance(s.pc),
            ..s
        },
        Instruction::ADDVxByte(x, kk) => VmState {
            v: s.v.update(x as int, (((s.v[x as int] + kk) as int) % 256) as u8),
            pc: advance(s.pc),
            ..s
        },
        Instruction::LDVxVy(x, y) => VmState {
            v: s.v.update(x as int, s.v[y as int]),
            pc: advance(s.pc),
            ..s
        },
        Instruction::ORVxVy(x, y) => VmState {
            v: s.v.update(x as int, s.v[x as int] | s.v[y as int]),
            pc: advance(s.pc),
            ..s
        },
        Instruction::ANDVxVy(x, y) => VmState {
            v: s.v.update(x as int, s.v[x as int] & s.v[y as int]),
            pc: advance(s.pc),
            ..s
        },
        Instruction::XORVxVy(x, y) => VmState {
            v: s.v.update(x as int, s.v[x as int] ^ s.v[y as int]),
            pc: advance(s.pc),
            ..s
        },
        Instruction::ADDVxVy(x, y) => {
            let sum = s.v[x as int] + s.v[y as int];
            let v1 = s.v.update(FLAG_REGISTER as int, flag(sum > 255));
            VmState { v: v1.update(x as int, (sum % 256) as u8), pc: advance(s.pc), ..s }
        },
        Instruction::SUBVxVy(x, y) => {
            let v1 = s.v.update(FLAG_REGISTER as int, flag(s.v[x as int] > s.v[y as int]));
            VmState {
                v: v1.update(x as int, (((v1[x as int] - v1[y as int]) as int) % 256) as u8),
                pc: advance(s.pc),
                ..s
            }
        },
        Instruction::SHRVx(x) => {
            let v1 = s.v.update(FLAG_REGISTER as int, s.v[x as int] & 1);
            VmState {
                v: v1.update(x as int, ((v1[x as int] as int) / 2) as u8),
                pc: advance(s.pc),
                ..s
            }
        },
        Instruction::SUBNVxVy(x, y) => {
            let v1 = s.v.update(FLAG_REGISTER as int, flag(s.v[y as int] > s.v[x as int]));
            VmState {
                v: v1.update(x as int, (((v1[y as int] - v1[x as int]) as int) % 256) as u8),
                pc: advance(s.pc),
                ..s
            }
        },
        Instruction::SHLVx(x) => {
            let v1 = s.v.update(FLAG_REGISTER as int, s.v[x as int] >> 7);
            VmState {
                v: v1.update(x as int, (((v1[x as int] * 2) as int) % 256) as u8),
                pc: advance(s.pc),
                ..s
            }
        },
        Instruction::SNEVxVy(x, y) => VmState {
            pc: advance_skip(s.pc, s.v[x as int] != s.v[y as int]),
            ..s
        },
        Instruction::LDI(nnn) => VmState { index: nnn, pc: advance(s.pc), ..s },
        Instruction::JP0(nnn) => VmState {
            pc: (((nnn + s.v[0]) as int) % (MEM_SIZE as int)) as usize,
            ..s
        },
        Instruction::RNDVxByte(x, kk) => VmState {
            v: s.v.update(x as int, rnd & kk),
            pc: advance(s.pc),
            ..s
        },
        Instruction::DRWVxVyNibble(x, y, n) => VmState {
            pc: advance(s.pc),
            ..spec_draw_applied(s, x as int, y as int, n as int)
        },
        Instruction::SKPVx(x) => VmState {
            pc: advance_skip(s.pc, s.keys[(s.v[x as int] & 0xF) as int]),
            ..s
        },
        Instruction::SKNPVx(x) => VmState {
            pc: advance_skip(s.pc, !s.keys[(s.v[x as int] & 0xF) as int]),
            ..s
        },
        Instruction::LDVxDT(x) => VmState {
            v: s.v.update(x as int, s.dt),
            pc: advance(s.pc),
            ..s
        },
        Instruction::LDVxK(_) => s,
        Instruction::LDDTVx(x) => VmState { dt: s.v[x as int], pc: advance(s.pc), ..s },
        Instruction::LDSTVx(x) => VmState { st: s.v[x as int], pc: advance(s.pc), ..s },
        Instruction::ADDIVx(x) => VmState {
            index: (((s.index + s.v[x as int]) as int) % (MEM_SIZE as int)) as usize,
            pc: advance(s.pc),
            ..s
        },
        Instruction::LDFVx(x) => VmState {
            index: (((s.v[x as int] & 0xF) as int) * (crate::font::GLYPH_HEIGHT as int)) as usize,
            pc: advance(s.pc),
            ..s
        },
        Instruction::LDBVx(x) => {
            let val = s.v[x as int] as int;
            let m1 = s.mem.update((s.index + 0) % (MEM_SIZE as int), (val / 100) as u8);
            let m2 = m1.update((s.index + 1) % (MEM_SIZE as int), ((val % 100) / 10) as u8);
            let m3 = m2.update((s.index + 2) % (MEM_SIZE as int), (val % 10) as u8);
            VmState { mem: m3, pc: advance(s.pc), ..s }
        },
        Instruction::LDIVx(x) => VmState {
            mem: store_regs(s.mem, s.v, s.index, x + 1),
            pc: advance(s.pc),
            ..s
        },
        Instruction::LDVxMem(x) => VmState {
            v: load_regs(s.v, s.mem, s.index, x + 1),
            pc: advance(s.pc),
            ..s
        },
        Instruction::Unknown => VmState { pc: advance(s.pc), ..s },
    }
}

/// The four colour bytes a renderer shows for one pixel: a violet
/// foreground for a lit pixel, a near-black background otherwise.
pub open spec fn pixel_rgba(on: bool) -> Seq<u8> {
    if on {
        seq![0x5eu8, 0x48u8, 0xe8u8, 0xffu8]
    } else {
        seq![0x11u8, 0x11u8, 0x11u8, 0xffu8]
    }
}

/// The colour bytes of the first `count` pixels of a display buffer, four
/// bytes per pixel in row-major order.
pub open spec fn frame_seq(screen: Seq<bool>, count: int) -> Seq<u8>
    decreases count,
{
    if count <= 0 {
        Seq::empty()
    } else {
        frame_seq(screen, count - 1) + pixel_rgba(screen[count - 1])
    }
}

/// The opcode fetched at the program counter: two big-endian bytes, the
/// second address masked into memory.
pub open spec fn spec_fetch(s: VmState) -> u16 {
    ((s.mem[s.pc as int] as u16) << 8) | (s.mem[((s.pc + 1) as int) % (MEM_SIZE as int)] as u16)
}

} // verus!
