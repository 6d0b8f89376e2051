//! The virtual machine state and the fetch-decode-execute cycle.
use vstd::prelude::*;

use crate::font::font_table;
use crate::instruction::{spec_decode, wf_instruction, Instruction};
use crate::model::{
    draw_cols, draw_rows, load_regs, overwrite_at, spec_exec_err, spec_exec_ok, spec_fetch,
    spec_initial_state, spec_load, spec_set_controls, spec_tick_timers, store_regs, wf_state,
    ExecError, LoadError, VmState, FLAG_REGISTER, MEM_SIZE, NUM_KEYS, NUM_REGISTERS,
    PROGRAM_START, SCREEN_HEIGHT, SCREEN_PIXELS, SCREEN_WIDTH,
};
use crate::rng::{fresh_rng, random_byte};

verus! {

/// The virtual machine: memory, registers, call stack, timers, display
/// buffer, pad state, random source and paused flag. Its abstract value is
/// a `VmState`; every method keeps `wf_state` of that view.
pub struct Chip8 {
    pub memory: Vec<u8>,
    pub pc: usize,
    pub index: usize,
    pub stack: Vec<usize>,
    pub dt: u8,
    pub st: u8,
    pub v: Vec<u8>,
    pub keys: Vec<bool>,
    pub screen: Vec<bool>,
    pub paused: bool,
    pub rng: rand::rngs::ThreadRng,
}

impl View for Chip8 {
    type V = VmState;

    open spec fn view(&self) -> VmState {
        VmState {
            mem: self.memory@,
            pc: self.pc,
            index: self.index,
            stack: self.stack@,
            dt: self.dt,
            st: self.st,
            v: self.v@,
            keys: self.keys@,
            screen: self.screen@,
            paused: self.paused,
        }
    }
}

impl Chip8 {
    /// A machine ready to load a program: the font at the bottom of memory,
    /// the program counter at the program start, everything else zeroed.
    pub fn new() -> (vm: Chip8)
        ensures
            vm@ == spec_initial_state(),
            wf_state(vm@),
    {
        let font = font_table();
        let mut memory: Vec<u8> = Vec::new();
        let mut i: usize = 0;
        while i < MEM_SIZE
            invariant
                i <= MEM_SIZE,
                memory@.len() == i,
                forall|j: int|
                    0 <= j < i ==> memory@[j] == spec_initial_state().mem[j],
            decreases MEM_SIZE - i,
        {
            if i < font.len() {
                memory.push(font[i]);
            } else {
                memory.push(0);
            }
            i += 1;
        }
        let mut screen: Vec<bool> = Vec::new();
        let mut p: usize = 0;
        while p < SCREEN_PIXELS
            invariant
                p <= SCREEN_PIXELS,
                screen@.len() == p,
                forall|j: int| 0 <= j < p ==> !screen@[j],
            decreases SCREEN_PIXELS - p,
        {
            screen.push(false);
            p += 1;
        }
        let mut v: Vec<u8> = Vec::new();
        let mut r: usize = 0;
        while r < NUM_REGISTERS
            invariant
                r <= NUM_REGISTERS,
                v@.len() == r,
                forall|j: int| 0 <= j < r ==> v@[j] == 0u8,
            decreases NUM_REGISTERS - r,
        {
            v.push(0);
            r += 1;
        }
        let mut keys: Vec<bool> = Vec::new();
        let mut k: usize = 0;
        while k < NUM_KEYS
            invariant
                k <= NUM_KEYS,
                keys@.len() == k,
                forall|j: int| 0 <= j < k ==> !keys@[j],
            decreases NUM_KEYS - k,
        {
            keys.push(false);
            k += 1;
        }
        let vm = Chip8 {
            memory,
            pc: PROGRAM_START,
            index: 0,
            stack: Vec::new(),
            dt: 0,
            st: 0,
            v,
            keys,
            screen,
            paused: false,
            rng: fresh_rng(),
        };
        proof {
            assert(vm@.mem =~= spec_initial_state().mem);
            assert(vm@.v =~= spec_initial_state().v);
            assert(vm@.keys =~= spec_initial_state().keys);
            assert(vm@.screen =~= spec_initial_state().screen);
            assert(vm@.stack =~= spec_initial_state().stack);
            assert(vm@ =~= spec_initial_state());
        }
        vm
    }

    /// Copy a program into memory at the program start. Succeeds exactly
    /// when the program fits into the memory above that offset; a program
    /// one byte larger is rejected and the machine is left unchanged.
    pub fn load_program(&mut self, program: &Vec<u8>) -> (r: Result<(), LoadError>)
        requires
            wf_state(old(self)@),
        ensures
            wf_state(final(self)@),
            r is Ok <==> program@.len() <= MEM_SIZE - PROGRAM_START,
            r is Ok ==> final(self)@ == spec_load(old(self)@, program@),
            r is Err ==> final(self)@ == old(self)@ && r == Err::<(), LoadError>(
                LoadError::ProgramTooLarge,
            ),
    {
        if program.len() > MEM_SIZE - PROGRAM_START {
            return Err(LoadError::ProgramTooLarge);
        }
        let mut i: usize = 0;
        while i < program.len()
            invariant
                i <= program@.len(),
                self.memory@.len() == MEM_SIZE,
                forall|j: int|
                    PROGRAM_START <= j < PROGRAM_START + i ==> self.memory@[j] == program@[j
                        - PROGRAM_START],
                forall|j: int|
                    0 <= j < MEM_SIZE && !(PROGRAM_START <= j < PROGRAM_START + i)
                        ==> self.memory@[j] == old(self)@.mem[j],
                self.pc == old(self).pc,
                self.index == old(self).index,
                self.stack@ == old(self)@.stack,
                self.dt == old(self).dt,
                self.st == old(self).st,
                self.v@ == old(self)@.v,
                self.keys@ == old(self)@.keys,
                self.screen@ == old(self)@.screen,
                self.paused == old(self).paused,
            decreases program@.len() - i,
        {
            self.memory.set(PROGRAM_START + i, program[i]);
            i += 1;
        }
        proof {
            assert(self@.mem =~= overwrite_at(old(self)@.mem, program@, PROGRAM_START as int));
            assert(self@ =~= spec_load(old(self)@, program@));
        }
        Ok(())
    }

    /// Replace the pad state with the sixteen held-key flags the input
    /// layer sampled, and toggle the paused flag when asked to.
    pub fn update_controls(&mut self, keys: &Vec<bool>, toggle_pause: bool)
        requires
            wf_state(old(self)@),
            keys@.len() == NUM_KEYS,
        ensures
            wf_state(final(self)@),
            final(self)@ == spec_set_controls(old(self)@, keys@, toggle_pause),
    {
        let mut i: usize = 0;
        while i < NUM_KEYS
            invariant
                i <= NUM_KEYS,
                self.keys@.len() == NUM_KEYS,
                forall|j: int| 0 <= j < i ==> self.keys@[j] == keys@[j],
                forall|j: int| i <= j < NUM_KEYS ==> self.keys@[j] == old(self)@.keys[j],
                self.memory@ == old(self)@.mem,
                self.pc == old(self).pc,
                self.index == old(self).index,
                self.stack@ == old(self)@.stack,
                self.dt == old(self).dt,
                self.st == old(self).st,
                self.v@ == old(self)@.v,
                self.screen@ == old(self)@.screen,
                self.paused == old(self).paused,
            decreases NUM_KEYS - i,
        {
            let held = keys[i];
            self.keys.set(i, held);
            i += 1;
        }
        if toggle_pause {
            self.paused = !self.paused;
        }
        proof {
            assert(self@.keys =~= keys@);
            assert(self@ =~= spec_set_controls(old(self)@, keys@, toggle_pause));
        }
    }

    /// Whether a tone should be audible now: true exactly while the sound
    /// timer is nonzero.
    pub fn sound_active(&self) -> (r: bool)
        ensures
            r == (self@.st > 0),
    {
        self.st > 0
    }

    /// Read one pixel of the display buffer.
    pub fn pixel(&self, x: usize, y: usize) -> (r: bool)
        requires
            wf_state(self@),
            x < SCREEN_WIDTH,
            y < SCREEN_HEIGHT,
        ensures
            r == self@.screen[y * SCREEN_WIDTH + x],
    {
        self.screen[y * SCREEN_WIDTH + x]
    }

    /// Draw an `n`-row sprite read at the index register, at the
    /// coordinates held by registers `x` and `y`, clamped to the display
    /// bounds. Each set sprite bit toggles its pixel; the flag register is
    /// set to one exactly when some toggled pixel ends up turned on.
    fn draw_sprite(&mut self, x: usize, y: usize, n: u8)
        requires
            wf_state(old(self)@),
            x < NUM_REGISTERS,
            y < NUM_REGISTERS,
            n < 16,
        ensures
            wf_state(final(self)@),
            final(self)@ == crate::model::spec_draw_applied(
                old(self)@,
                x as int,
                y as int,
                n as int,
            ),
    {
        let px = self.v[x];
        let py = self.v[y];
        let mut collision = false;
        let mut row: usize = 0;
        let ghost s0 = self@;
        while row < n as usize
            invariant
                row <= n as usize,
                self.memory@ == s0.mem,
                self.pc == s0.pc,
                self.index == s0.index,
                self.stack@ == s0.stack,
                self.dt == s0.dt,
                self.st == s0.st,
                self.v@ == s0.v,
                self.keys@ == s0.keys,
                self.paused == s0.paused,
                self.screen@.len() == SCREEN_PIXELS,
                (self.screen@, collision) == draw_rows(
                    s0.screen,
                    false,
                    s0.mem,
                    s0.index,
                    px as int,
                    py as int,
                    row as int,
                ),
            decreases n as usize - row,
        {
            let byte = self.memory[(self.index + row) % MEM_SIZE];
            let ghost before = draw_rows(
                s0.screen,
                false,
                s0.mem,
                s0.index,
                px as int,
                py as int,
                row as int,
            );
            let mut col: usize = 0;
            while col < 8
                invariant
                    col <= 8,
                    self.memory@ == s0.mem,
                    self.pc == s0.pc,
                    self.index == s0.index,
                    self.stack@ == s0.stack,
                    self.dt == s0.dt,
                    self.st == s0.st,
                    self.v@ == s0.v,
                    self.keys@ == s0.keys,
                    self.paused == s0.paused,
                    self.screen@.len() == SCREEN_PIXELS,
                    (self.screen@, collision) == draw_cols(
                        before.0,
                        before.1,
                        byte,
                        px as int,
                        py as int,
                        row as int,
                        col as int,
                    ),
                decreases 8 - col,
            {
                if byte & (0x80u8 >> (col as u8)) != 0 {
                    let mut sy = py as usize + row;
                    if sy > SCREEN_HEIGHT - 1 {
                        sy = SCREEN_HEIGHT - 1;
                    }
                    let mut sx = px as usize + col;
                    if sx > SCREEN_WIDTH - 1 {
                        sx = SCREEN_WIDTH - 1;
                    }
                    let idx = sy * SCREEN_WIDTH + sx;
                    let cur = self.screen[idx];
                    self.screen.set(idx, !cur);
                    collision = if !cur {
                        true
                    } else {
                        collision
                    };
                }
                col += 1;
            }
            row += 1;
        }
        let flag_value = if collision {
            1u8
        } else {
            0u8
        };
        self.v.set(FLAG_REGISTER, flag_value);
        proof {
            assert(self@ =~= crate::model::spec_draw_applied(
                old(self)@,
                x as int,
                y as int,
                n as int,
            ));
        }
    }

    /// Clear the display: every pixel becomes false; the program counter
    /// advances by two.
    fn exec_cls(&mut self)
        requires
            wf_state(old(self)@),
        ensures
            wf_state(final(self)@),
            final(self)@ == spec_exec_ok(old(self)@, Instruction::CLS, 0),
    {
        let mut i: usize = 0;
        while i < SCREEN_PIXELS
            invariant
                wf_state(old(self)@),
                i <= SCREEN_PIXELS,
                self.screen@.len() == SCREEN_PIXELS,
                forall|j: int| 0 <= j < i ==> !self.screen@[j],
                self.memory@ == old(self)@.mem,
                self.pc == old(self).pc,
                self.index == old(self).index,
                self.stack@ == old(self)@.stack,
                self.dt == old(self).dt,
                self.st == old(self).st,
                self.v@ == old(self)@.v,
                self.keys@ == old(self)@.keys,
                self.paused == old(self).paused,
            decreases SCREEN_PIXELS - i,
        {
            self.screen.set(i, false);
            i += 1;
        }
        self.pc = (self.pc + 2) % MEM_SIZE;
        proof {
            assert(self@.screen =~= Seq::new(SCREEN_PIXELS as nat, |j: int| false));
            assert(self@ =~= spec_exec_ok(old(self)@, Instruction::CLS, 0));
        }
    }

    /// The conditional skips: the program counter advances by four when the
    /// condition holds, by two otherwise.
    fn exec_skip(&mut self, instruction: Instruction)
        requires
            wf_state(old(self)@),
            wf_instruction(instruction),
            instruction is SEVxByte || instruction is SNEVxByte || instruction is SEVxVy
                || instruction is SNEVxVy || instruction is SKPVx || instruction is SKNPVx,
        ensures
            wf_state(final(self)@),
            final(self)@ == spec_exec_ok(old(self)@, instruction, 0),
    {
        let skip = match instruction {
            Instruction::SEVxByte(x, kk) => self.v[x] == kk,
            Instruction::SNEVxByte(x, kk) => self.v[x] != kk,
            Instruction::SEVxVy(x, y) => self.v[x] == self.v[y],
            Instruction::SNEVxVy(x, y) => self.v[x] != self.v[y],
            Instruction::SKPVx(x) => {
                let vx = self.v[x];
                proof {
                    assert(vx & 0xF < 16) by (bit_vector);
                }
                self.keys[(vx & 0xF) as usize]
            },
            Instruction::SKNPVx(x) => {
                let vx = self.v[x];
                proof {
                    assert(vx & 0xF < 16) by (bit_vector);
                }
                !self.keys[(vx & 0xF) as usize]
            },
            _ => false,
        };
        self.pc = if skip {
            (self.pc + 4) % MEM_SIZE
        } else {
            (self.pc + 2) % MEM_SIZE
        };
        proof {
            assert(self@ =~= spec_exec_ok(old(self)@, instruction, 0));
        }
    }

    /// The plain register transfers: immediate load, wrapping immediate
    /// add, copy, and the three bitwise operations. None touches the flag
    /// register; the program counter advances by two.
    fn exec_transfer(&mut self, instruction: Instruction)
        requires
            wf_state(old(self)@),
            wf_instruction(instruction),
            instruction is LDVxByte || instruction is ADDVxByte || instruction is LDVxVy
                || instruction is ORVxVy || instruction is ANDVxVy || instruction is XORVxVy,
        ensures
            wf_state(final(self)@),
            final(self)@ == spec_exec_ok(old(self)@, instruction, 0),
    {
        match instruction {
            Instruction::LDVxByte(x, kk) => self.v.set(x, kk),
            Instruction::ADDVxByte(x, kk) => {
                let sum = self.v[x] as u16 + kk as u16;
                self.v.set(x, (sum % 256) as u8);
            },
            Instruction::LDVxVy(x, y) => {
                let value = self.v[y];
                self.v.set(x, value);
            },
            Instruction::ORVxVy(x, y) => {
                let value = self.v[x] | self.v[y];
                self.v.set(x, value);
            },
            Instruction::ANDVxVy(x, y) => {
                let value = self.v[x] & self.v[y];
                self.v.set(x, value);
            },
            Instruction::XORVxVy(x, y) => {
                let value = self.v[x] ^ self.v[y];
                self.v.set(x, value);
            },
            _ => {},
        };
        self.pc = (self.pc + 2) % MEM_SIZE;
        proof {
            assert(self@ =~= spec_exec_ok(old(self)@, instruction, 0));
        }
    }

    /// The arithmetic and shift operations that report through the flag
    /// register: it takes the carry, borrow or shifted-out bit first, and
    /// the destination register then takes the eight-bit result.
    #[verifier::rlimit(100)]
    #[verifier::spinoff_prover]
    fn exec_flagged_alu(&mut self, instruction: Instruction)
        requires
            wf_state(old(self)@),
            wf_instruction(instruction),
            instruction is ADDVxVy || instruction is SUBVxVy || instruction is SHRVx
                || instruction is SUBNVxVy || instruction is SHLVx,
        ensures
            wf_state(final(self)@),
            final(self)@ == spec_exec_ok(old(self)@, instruction, 0),
    {
        match instruction {
            Instruction::ADDVxVy(x, y) => {
                let sum = self.v[x] as u16 + self.v[y] as u16;
                let carry = if sum > 255 {
                    1u8
                } else {
                    0u8
                };
                self.v.set(FLAG_REGISTER, carry);
                self.v.set(x, (sum % 256) as u8);
            },
            Instruction::SUBVxVy(x, y) => {
                let no_borrow = if self.v[x] > self.v[y] {
                    1u8
                } else {
                    0u8
                };
                self.v.set(FLAG_REGISTER, no_borrow);
                let a = self.v[x];
                let b = self.v[y];
                self.v.set(x, a.wrapping_sub(b));
            },
            Instruction::SHRVx(x) => {
                let shifted_out = self.v[x] & 1;
                self.v.set(FLAG_REGISTER, shifted_out);
                let a = self.v[x];
                self.v.set(x, a / 2);
            },
            Instruction::SUBNVxVy(x, y) => {
                let no_borrow = if self.v[y] > self.v[x] {
                    1u8
                } else {
                    0u8
                };
                self.v.set(FLAG_REGISTER, no_borrow);
                let a = self.v[y];
                let b = self.v[x];
                self.v.set(x, a.wrapping_sub(b));
            },
            Instruction::SHLVx(x) => {
                let shifted_out = self.v[x] >> 7;
                self.v.set(FLAG_REGISTER, shifted_out);
                let a = self.v[x];
                self.v.set(x, a.wrapping_mul(2));
            },
            _ => {},
        };
        self.pc = (self.pc + 2) % MEM_SIZE;
        proof {
            assert(self@ =~= spec_exec_ok(old(self)@, instruction, 0));
        }
    }

    /// The index-register and timer transfers; each advances the program
    /// counter by two.
    fn exec_index_timer(&mut self, instruction: Instruction)
        requires
            wf_state(old(self)@),
            wf_instruction(instruction),
            instruction is LDI || instruction is LDVxDT || instruction is LDDTVx
                || instruction is LDSTVx || instruction is ADDIVx || instruction is LDFVx,
        ensures
            wf_state(final(self)@),
            final(self)@ == spec_exec_ok(old(self)@, instruction, 0),
    {
        match instruction {
            Instruction::LDI(nnn) => self.index = nnn,
            Instruction::LDVxDT(x) => {
                let value = self.dt;
                self.v.set(x, value);
            },
            Instruction::LDDTVx(x) => self.dt = self.v[x],
            Instruction::LDSTVx(x) => self.st = self.v[x],
            Instruction::ADDIVx(x) => {
                self.index = (self.index + self.v[x] as usize) % MEM_SIZE;
            },
            Instruction::LDFVx(x) => {
                self.index = ((self.v[x] & 0xF) as usize) * crate::font::GLYPH_HEIGHT;
            },
            _ => {},
        };
        self.pc = (self.pc + 2) % MEM_SIZE;
        proof {
            assert(self@ =~= spec_exec_ok(old(self)@, instruction, 0));
        }
    }

    /// The memory block operations: decimal digit decomposition, and the
    /// bulk register store and load at the index register, every address
    /// masked into memory.
    fn exec_memory(&mut self, instruction: Instruction)
        requires
            wf_state(old(self)@),
            wf_instruction(instruction),
            instruction is LDBVx || instruction is LDIVx || instruction is LDVxMem,
        ensures
            wf_state(final(self)@),
            final(self)@ == spec_exec_ok(old(self)@, instruction, 0),
    {
        match instruction {
            Instruction::LDBVx(x) => {
                let value = self.v[x];
                let base = self.index;
                self.memory.set(base % MEM_SIZE, value / 100);
                self.memory.set((base + 1) % MEM_SIZE, (value % 100) / 10);
                self.memory.set((base + 2) % MEM_SIZE, value % 10);
            },
            Instruction::LDIVx(x) => {
                let mut i: usize = 0;
                while i <= x
                    invariant
                        wf_state(old(self)@),
                        i <= x + 1,
                        x < NUM_REGISTERS,
                        self.memory@.len() == MEM_SIZE,
                        self.memory@ == store_regs(
                            old(self)@.mem,
                            old(self)@.v,
                            old(self)@.index,
                            i as int,
                        ),
                        self.pc == old(self).pc,
                        self.index == old(self).index,
                        self.stack@ == old(self)@.stack,
                        self.dt == old(self).dt,
                        self.st == old(self).st,
                        self.v@ == old(self)@.v,
                        self.keys@ == old(self)@.keys,
                        self.screen@ == old(self)@.screen,
                        self.paused == old(self).paused,
                    decreases x + 1 - i,
                {
                    let value = self.v[i];
                    self.memory.set((self.index + i) % MEM_SIZE, value);
                    i += 1;
                }
            },
            Instruction::LDVxMem(x) => {
                let mut i: usize = 0;
                while i <= x
                    invariant
                        wf_state(old(self)@),
                        i <= x + 1,
                        x < NUM_REGISTERS,
                        self.v@.len() == NUM_REGISTERS,
                        self.v@ == load_regs(
                            old(self)@.v,
                            old(self)@.mem,
                            old(self)@.index,
                            i as int,
                        ),
                        self.memory@ == old(self)@.mem,
                        self.pc == old(self).pc,
                        self.index == old(self).index,
                        self.stack@ == old(self)@.stack,
                        self.dt == old(self).dt,
                        self.st == old(self).st,
                        self.keys@ == old(self)@.keys,
                        self.screen@ == old(self)@.screen,
                        self.paused == old(self).paused,
                    decreases x + 1 - i,
                {
                    let value = self.memory[(self.index + i) % MEM_SIZE];
                    self.v.set(i, value);
                    i += 1;
                }
            },
            _ => {},
        };
        self.pc = (self.pc + 2) % MEM_SIZE;
        proof {
            assert(self@ =~= spec_exec_ok(old(self)@, instruction, 0));
        }
    }

    /// Apply one decoded instruction, including its program-counter update:
    /// ordinary instructions advance by two, skips by two or four, and
    /// jumps, calls and returns set it. The deliberately unimplemented
    /// encodings and a return from an empty stack report an error and leave
    /// the machine unchanged; everything else succeeds and takes the state
    /// to exactly what `spec_exec_ok` says, for some byte of the random
    /// source (which only the random instruction consults).
    #[verifier::rlimit(100)]
    #[verifier::spinoff_prover]
    pub fn execute_instruction(&mut self, instruction: Instruction) -> (r: Result<(), ExecError>)
        requires
            wf_state(old(self)@),
            wf_instruction(instruction),
        ensures
            wf_state(final(self)@),
            spec_exec_err(old(self)@, instruction) matches Some(e) ==> r == Err::<(), ExecError>(e)
                && final(self)@ == old(self)@,
            spec_exec_err(old(self)@, instruction) is None ==> r == Ok::<(), ExecError>(()) && (
            exists|b: u8| final(self)@ == spec_exec_ok(old(self)@, instruction, b)),
            spec_exec_err(old(self)@, instruction) is None && !(instruction is RNDVxByte)
                ==> final(self)@ == spec_exec_ok(old(self)@, instruction, 0),
            instruction matches Instruction::RNDVxByte(x, kk) ==> final(self)@.v[x as int] & !kk
                == 0,
    {
        match instruction {
            Instruction::SYS(_) => Err(ExecError::Unimplemented),
            Instruction::LDVxK(_) => Err(ExecError::Unimplemented),
            Instruction::CLS => {
                self.exec_cls();
                Ok(())
            },
            Instruction::RET => {
                match self.stack.pop() {
                    Some(target) => {
                        self.pc = (target + 2) % MEM_SIZE;
                        proof {
                            assert(self@.stack =~= old(self)@.stack.drop_last());
                            assert(self@ =~= spec_exec_ok(old(self)@, instruction, 0));
                        }
                        Ok(())
                    },
                    None => Err(ExecError::StackUnderflow),
                }
            },
            Instruction::JP(nnn) => {
                self.pc = nnn;
                proof {
                    assert(self@ =~= spec_exec_ok(old(self)@, instruction, 0));
                }
                Ok(())
            },
            Instruction::CALL(nnn) => {
                self.stack.push(self.pc);
                self.pc = nnn;
                proof {
                    assert(self@ =~= spec_exec_ok(old(self)@, instruction, 0));
                }
                Ok(())
            },
            Instruction::SEVxByte(..) | Instruction::SNEVxByte(..) | Instruction::SEVxVy(..)
                | Instruction::SNEVxVy(..) | Instruction::SKPVx(..) | Instruction::SKNPVx(..) => {
                self.exec_skip(instruction);
                Ok(())
            },
            Instruction::LDVxByte(..) | Instruction::ADDVxByte(..) | Instruction::LDVxVy(..)
                | Instruction::ORVxVy(..) | Instruction::ANDVxVy(..) | Instruction::XORVxVy(..) => {
                self.exec_transfer(instruction);
                Ok(())
            },
            Instruction::ADDVxVy(..) | Instruction::SUBVxVy(..) | Instruction::SHRVx(..)
                | Instruction::SUBNVxVy(..) | Instruction::SHLVx(..) => {
                self.exec_flagged_alu(instruction);
                Ok(())
            },
            Instruction::LDI(..) | Instruction::LDVxDT(..) | Instruction::LDDTVx(..)
                | Instruction::LDSTVx(..) | Instruction::ADDIVx(..) | Instruction::LDFVx(..) => {
                self.exec_index_timer(instruction);
                Ok(())
            },
            Instruction::LDBVx(..) | Instruction::LDIVx(..) | Instruction::LDVxMem(..) => {
                self.exec_memory(instruction);
                Ok(())
            },
            Instruction::JP0(nnn) => {
                self.pc = (nnn + self.v[0] as usize) % MEM_SIZE;
                proof {
                    assert(self@ =~= spec_exec_ok(old(self)@, instruction, 0));
                }
                Ok(())
            },
            Instruction::RNDVxByte(x, kk) => {
                let drawn_byte = random_byte(&mut self.rng);
                self.v.set(x, drawn_byte & kk);
                self.pc = (self.pc + 2) % MEM_SIZE;
                proof {
                    assert(self@ =~= spec_exec_ok(old(self)@, instruction, drawn_byte));
                    assert((drawn_byte & kk) & !kk == 0) by (bit_vector);
                }
                Ok(())
            },
            Instruction::DRWVxVyNibble(x, y, n) => {
                self.draw_sprite(x, y, n);
                self.pc = (self.pc + 2) % MEM_SIZE;
                proof {
                    assert(self@ =~= spec_exec_ok(old(self)@, instruction, 0));
                }
                Ok(())
            },
            Instruction::Unknown => {
                self.pc = (self.pc + 2) % MEM_SIZE;
                proof {
                    assert(self@ =~= spec_exec_ok(old(self)@, instruction, 0));
                }
                Ok(())
            },
        }
    }

    /// One fetch-decode-execute-timer-decay step, skipped entirely while
    /// the machine is paused. The opcode is the two big-endian bytes at the
    /// program counter; an execution error is reported with the machine
    /// unchanged, and on success the timers decay once.
    pub fn run_cycle(&mut self) -> (r: Result<(), ExecError>)
        requires
            wf_state(old(self)@),
        ensures
            wf_state(final(self)@),
            old(self)@.paused ==> r == Ok::<(), ExecError>(()) && final(self)@ == old(self)@,
            !old(self)@.paused ==> ({
                let instr = spec_decode(spec_fetch(old(self)@));
                match spec_exec_err(old(self)@, instr) {
                    Some(e) => r == Err::<(), ExecError>(e) && final(self)@ == old(self)@,
                    None => r == Ok::<(), ExecError>(()) && (exists|b: u8|
                        final(self)@ == spec_tick_timers(spec_exec_ok(old(self)@, instr, b))),
                }
            }),
    {
        if self.paused {
            return Ok(());
        }
        let hi = self.memory[self.pc];
        let lo = self.memory[(self.pc + 1) % MEM_SIZE];
        let opcode: u16 = ((hi as u16) << 8) | (lo as u16);
        proof {
            assert(opcode == spec_fetch(old(self)@));
        }
        let instruction = Instruction::from_opcode(opcode);
        match self.execute_instruction(instruction) {
            Ok(()) => {
                let ghost mid = self@;
                let ghost b = choose|b: u8| mid == spec_exec_ok(old(self)@, instruction, b);
                self.update_timers();
                proof {
                    assert(self@ == spec_tick_timers(spec_exec_ok(old(self)@, instruction, b)));
                }
                Ok(())
            },
            Err(e) => Err(e),
        }
    }

    /// Render the display buffer as colour bytes: four bytes per pixel in
    /// row-major order, foreground colour for lit pixels, background
    /// otherwise. A renderer blits this directly.
    pub fn frame_bytes(&self) -> (r: Vec<u8>)
        requires
            wf_state(self@),
        ensures
            r@ == crate::model::frame_seq(self@.screen, SCREEN_PIXELS as int),
    {
        let mut r: Vec<u8> = Vec::new();
        let mut i: usize = 0;
        while i < SCREEN_PIXELS
            invariant
                wf_state(self@),
                i <= SCREEN_PIXELS,
                r@ == crate::model::frame_seq(self@.screen, i as int),
            decreases SCREEN_PIXELS - i,
        {
            if self.screen[i] {
                r.push(0x5e);
                r.push(0x48);
                r.push(0xe8);
                r.push(0xff);
            } else {
                r.push(0x11);
                r.push(0x11);
                r.push(0x11);
                r.push(0xff);
            }
            proof {
                assert(r@ =~= crate::model::frame_seq(self@.screen, i + 1));
            }
            i += 1;
        }
        r
    }

    /// One tick of timer decay: each nonzero timer drops by one, never
    /// below zero.
    fn update_timers(&mut self)
        ensures
            final(self)@ == spec_tick_timers(old(self)@),
    {
        if self.dt > 0 {
            self.dt = self.dt - 1;
        }
        if self.st > 0 {
            self.st = self.st - 1;
        }
        proof {
            assert(self@ =~= spec_tick_timers(old(self)@));
        }
    }
}

} // verus!
