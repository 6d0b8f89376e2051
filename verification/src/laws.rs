//! Laws the machine's semantics obey, stated over the abstract model and
//! proved once for all states.
use vstd::prelude::*;

use crate::instruction::Instruction;
use crate::model::{
    spec_exec_err, spec_exec_ok, wf_state, VmState, FLAG_REGISTER, MEM_SIZE, SCREEN_PIXELS,
};

verus! {

/// Register add reports a carry: for all register values `a` and `b`, the
/// flag register becomes one exactly when `a + b` exceeds 255, and the
/// destination register holds `(a + b)` modulo 256 (stated for a
/// destination other than the flag register itself, which the stored
/// result would overwrite).
pub proof fn lemma_add_carry_flag(s: VmState, x: usize, y: usize, rnd: u8)
    requires
        wf_state(s),
        x < 16,
        y < 16,
        x != FLAG_REGISTER,
    ensures
        ({
            let a = s.v[x as int];
            let b = s.v[y as int];
            let post = spec_exec_ok(s, Instruction::ADDVxVy(x, y), rnd);
            &&& post.v[FLAG_REGISTER as int] == (if a + b > 255 {
                1u8
            } else {
                0u8
            })
            &&& post.v[x as int] == ((a + b) % 256) as u8
        }),
{
}

/// The two subtraction directions use one borrow convention: the flag
/// register becomes one exactly when the minuend is strictly greater than
/// the subtrahend, and the destination holds the difference modulo 256.
/// Stated for operand registers other than the flag register, whose value
/// the flag write would change before the difference is taken.
pub proof fn lemma_sub_borrow_convention(s: VmState, x: usize, y: usize, rnd: u8)
    requires
        wf_state(s),
        x < 16,
        y < 16,
        x != FLAG_REGISTER,
        y != FLAG_REGISTER,
    ensures
        ({
            let a = s.v[x as int];
            let b = s.v[y as int];
            let sub = spec_exec_ok(s, Instruction::SUBVxVy(x, y), rnd);
            &&& sub.v[FLAG_REGISTER as int] == (if a > b {
                1u8
            } else {
                0u8
            })
            &&& sub.v[x as int] == (((a - b) as int % 256) as u8)
        }),
        ({
            let a = s.v[x as int];
            let b = s.v[y as int];
            let subn = spec_exec_ok(s, Instruction::SUBNVxVy(x, y), rnd);
            &&& subn.v[FLAG_REGISTER as int] == (if b > a {
                1u8
            } else {
                0u8
            })
            &&& subn.v[x as int] == (((b - a) as int % 256) as u8)
        }),
{
}

/// Clearing the display leaves every pixel false, and clearing it again
/// changes no pixel: clear is idempotent on the display buffer.
pub proof fn lemma_clear_display(s: VmState, rnd1: u8, rnd2: u8)
    requires
        wf_state(s),
    ensures
        forall|i: int|
            0 <= i < SCREEN_PIXELS ==> !spec_exec_ok(s, Instruction::CLS, rnd1).screen[i],
        spec_exec_ok(spec_exec_ok(s, Instruction::CLS, rnd1), Instruction::CLS, rnd2).screen
            == spec_exec_ok(s, Instruction::CLS, rnd1).screen,
{
    let once = spec_exec_ok(s, Instruction::CLS, rnd1);
    let twice = spec_exec_ok(once, Instruction::CLS, rnd2);
    assert(twice.screen =~= once.screen);
}

/// A call followed immediately by a return resumes at the instruction
/// after the call: the program counter lands two bytes past where the call
/// was executed, and the stack is as it was before the call.
pub proof fn lemma_call_then_return(s: VmState, nnn: usize, rnd1: u8, rnd2: u8)
    requires
        wf_state(s),
        nnn < MEM_SIZE,
    ensures
        spec_exec_err(spec_exec_ok(s, Instruction::CALL(nnn), rnd1), Instruction::RET) is None,
        ({
            let called = spec_exec_ok(s, Instruction::CALL(nnn), rnd1);
            let returned = spec_exec_ok(called, Instruction::RET, rnd2);
            &&& returned.pc == ((s.pc + 2) as int) % (MEM_SIZE as int)
            &&& returned.stack == s.stack
        }),
{
    let called = spec_exec_ok(s, Instruction::CALL(nnn), rnd1);
    let returned = spec_exec_ok(called, Instruction::RET, rnd2);
    assert(returned.stack =~= s.stack);
}

} // verus!
