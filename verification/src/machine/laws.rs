use vstd::prelude::*;

use super::{Machine, spec_exec_effect, spec_fetch, spec_step_effect};
use crate::error::Error;
use crate::instruction::Instruction;
use crate::instruction::decoder::{lemma_spec_decode_wf, spec_decode};
use crate::keyboard::spec_key_pressed;

verus! {

/// Structural invariants that hold after every step, whatever it did: the
/// stack pointer stays within 0..=16, the index register stays inside the
/// 4 KiB address space, and the register file and stack keep their sixteen
/// slots. The framebuffer's fixed 256 bytes are part of `inv`, which `step`
/// ensures.
#[verifier::rlimit(30)]
pub proof fn lemma_step_invariants(pre: Machine, post: Machine, r: Result<bool, Error>)
    requires
        pre.inv(),
        spec_step_effect(pre, post, r),
    ensures
        post.sp <= 16,
        post.index < 0x1000,
        post.registers@.len() == 16,
        post.stack@.len() == 16,
{
    if !(pre.pc < 0x200 || pre.pc >= 0xFFE || pre.pc % 2 != 0) {
        lemma_spec_decode_wf(spec_fetch(pre));
        match spec_decode(spec_fetch(pre)) {
            Some(Instruction::Rnd { vx, kk }) => {
                let b = choose|b: u8|
                    post.registers@ == pre.registers@.update(vx as int, b & kk);
                assert(post.registers@ == pre.registers@.update(vx as int, b & kk));
            },
            Some(Instruction::WaitForKey(vx)) => {
                if exists|k: u8| spec_key_pressed(pre.keys.0, k) {
                    let k = choose|k: u8|
                        spec_key_pressed(pre.keys.0, k) && (forall|j: u8|
                            j < k ==> !spec_key_pressed(pre.keys.0, j)) && super::op_effect_regs(
                            pre,
                            (pre.pc + 2) as u16,
                            post,
                            pre.registers@.update(vx as int, k),
                        );
                    assert(post.registers@ == pre.registers@.update(vx as int, k));
                }
            },
            _ => {},
        }
    }
}

/// Memory changes only through the two store opcodes: any step whose
/// decoded instruction is neither StoreBcd nor StoreRegisters leaves all
/// 4096 bytes as they were. In particular the font table at 0x050..0x0A0
/// survives every step until a program explicitly stores over it.
pub proof fn lemma_step_memory_untouched(pre: Machine, post: Machine, r: Result<bool, Error>)
    requires
        pre.inv(),
        spec_step_effect(pre, post, r),
        match spec_decode(spec_fetch(pre)) {
            Some(Instruction::StoreBcd(_)) => false,
            Some(Instruction::StoreRegisters(_)) => false,
            _ => true,
        },
    ensures
        post.memory@ == pre.memory@,
{
}

/// The program counter invariant: a successful step leaves the counter
/// even and within [0, 0x1000], provided that the instruction, when it
/// redirects control, targets an even address (and, for JumpOffset and
/// Return, one inside the address space). A jump to an odd address is the
/// input on which the unrestricted claim fails; the following step then
/// rejects it as unaligned.
pub proof fn lemma_step_pc_aligned(pre: Machine, post: Machine, r: Result<bool, Error>)
    requires
        pre.inv(),
        spec_step_effect(pre, post, r),
        r == Ok::<bool, Error>(true),
        match spec_decode(spec_fetch(pre)) {
            Some(Instruction::Jump(nnn)) => nnn % 2 == 0,
            Some(Instruction::JumpOffset(nnn)) => (nnn + pre.spec_reg(0)) % 2 == 0 && nnn
                + pre.spec_reg(0) <= 0x1000,
            Some(Instruction::Call(nnn)) => nnn % 2 == 0,
            Some(Instruction::Return) => pre.sp > 0 ==> pre.stack@[pre.sp as int - 1] % 2 == 0
                && pre.stack@[pre.sp as int - 1] <= 0x1000,
            _ => true,
        },
    ensures
        post.pc <= 0x1000,
        post.pc % 2 == 0,
{
    lemma_spec_decode_wf(spec_fetch(pre));
}

/// Add computes its numeric result before the carry lands in VF, so VF is
/// well-defined as an operand: with VY = VF, the stored sum uses the old
/// flag value, and the flag then reports that sum's carry.
pub proof fn lemma_add_reads_flag_before_write(
    pre: Machine,
    pc0: u16,
    post: Machine,
    vx: u8,
    vy: u8,
)
    requires
        pre.inv(),
        vx < 15,
        vy == 0xF,
        spec_exec_effect(
            pre,
            pc0,
            post,
            Instruction::Add { vx, vy },
            Ok::<(), Error>(()),
        ),
    ensures
        post.registers@[vx as int] == ((pre.spec_reg(vx) + pre.spec_reg(0xF)) % 256) as u8,
        post.registers@[0xF] == if pre.spec_reg(vx) + pre.spec_reg(0xF) > 255 {
            1u8
        } else {
            0u8
        },
{
}

/// Subtract likewise: with VY = VF, the stored difference uses the old
/// flag value, and the flag then reports that difference's borrow.
pub proof fn lemma_subtract_reads_flag_before_write(
    pre: Machine,
    pc0: u16,
    post: Machine,
    vx: u8,
    vy: u8,
)
    requires
        pre.inv(),
        vx < 15,
        vy == 0xF,
        spec_exec_effect(
            pre,
            pc0,
            post,
            Instruction::Subtract { vx, vy },
            Ok::<(), Error>(()),
        ),
    ensures
        post.registers@[vx as int] == ((pre.spec_reg(vx) - pre.spec_reg(0xF)) % 256) as u8,
        post.registers@[0xF] == if pre.spec_reg(vx) >= pre.spec_reg(0xF) {
            1u8
        } else {
            0u8
        },
{
}

/// With the shift quirk enabled the flag is a function of VX alone: two
/// shifts executed from states holding the same VX report the same VF.
pub proof fn lemma_shift_flag_from_vx(
    m1: Machine,
    m2: Machine,
    p1: Machine,
    p2: Machine,
    pc1: u16,
    pc2: u16,
    vx: u8,
    vy1: u8,
    vy2: u8,
)
    requires
        m1.inv(),
        m2.inv(),
        vx < 15,
        vy1 < 16,
        vy2 < 16,
        m1.config.quircks.shift,
        m2.config.quircks.shift,
        m1.spec_reg(vx) == m2.spec_reg(vx),
        spec_exec_effect(
            m1,
            pc1,
            p1,
            Instruction::ShiftRight { vx, vy: vy1 },
            Ok::<(), Error>(()),
        ),
        spec_exec_effect(
            m2,
            pc2,
            p2,
            Instruction::ShiftRight { vx, vy: vy2 },
            Ok::<(), Error>(()),
        ),
    ensures
        p1.registers@[0xF] == p2.registers@[0xF],
        p1.registers@[vx as int] == p2.registers@[vx as int],
{
}

/// Stack discipline, the successful half: a Call followed by a Return
/// restores the program counter to the instruction after the Call and the
/// stack pointer to its old value, leaving registers, timers, index, memory
/// and display untouched. `pc0` and `pc1` are the advanced fetch counters
/// of the two steps; `pc0` is the return address the Call pushed.
pub proof fn lemma_call_then_return(
    m0: Machine,
    pc0: u16,
    m1: Machine,
    pc1: u16,
    m2: Machine,
    nnn: u16,
    r1: Result<(), Error>,
    r2: Result<(), Error>,
)
    requires
        m0.inv(),
        m0.sp < 16,
        spec_exec_effect(m0, pc0, m1, Instruction::Call(nnn), r1),
        spec_exec_effect(m1, pc1, m2, Instruction::Return, r2),
    ensures
        r1 == Ok::<(), Error>(()),
        r2 == Ok::<(), Error>(()),
        m2.pc == pc0,
        m2.sp == m0.sp,
        m2.registers@ == m0.registers@,
        m2.index == m0.index,
        m2.dt == m0.dt,
        m2.st == m0.st,
        m2.memory@ == m0.memory@,
        m2.display@ == m0.display@,
{
}

/// Stack discipline, the failing half: a Return on an empty stack fails
/// with `StackUnderflow` and changes nothing at all but the already
/// advanced program counter.
pub proof fn lemma_return_underflow(
    pre: Machine,
    pc0: u16,
    post: Machine,
    r: Result<(), Error>,
)
    requires
        pre.inv(),
        pre.sp == 0,
        spec_exec_effect(pre, pc0, post, Instruction::Return, r),
    ensures
        r == Err::<(), Error>(Error::StackUnderflow),
        post.pc == pc0,
        post.sp == 0,
        post.stack@ == pre.stack@,
        post.registers@ == pre.registers@,
        post.index == pre.index,
        post.memory@ == pre.memory@,
        post.display@ == pre.display@,
{
}

} // verus!
