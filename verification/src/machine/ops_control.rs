use vstd::prelude::*;

use super::{Machine, op_effect, op_effect_noop, op_effect_pc};
use crate::error::Error;

verus! {

// The stack convention: Call stores the return address at stack[SP] and
// increments SP; Return decrements SP and restores PC from stack[SP]. After
// one Call, SP is 1 and the return slot is stack[0]. Call fails once SP
// would exceed 16, so the canonical 16 calls can nest.
impl Machine {
    /// Return (00EE): pops the return address, or fails with
    /// `StackUnderflow` on an empty stack.
    pub(super) fn op_return(&mut self) -> (r: Result<(), Error>)
        requires
            old(self).inv(),
        ensures
            final(self).inv(),
            old(self).sp == 0 ==> r == Err::<(), Error>(Error::StackUnderflow) && op_effect_noop(
                *old(self),
                old(self).pc,
                *final(self),
            ),
            old(self).sp > 0 ==> r == Ok::<(), Error>(()) && op_effect(
                *old(self),
                *final(self),
                old(self).registers@,
                old(self).stack@,
                old(self).stack@[old(self).sp as int - 1],
                (old(self).sp - 1) as u8,
                old(self).dt,
                old(self).st,
                old(self).index,
                old(self).memory@,
            ),
    {
        if self.sp == 0 {
            return Err(Error::StackUnderflow);
        }
        self.sp = self.sp - 1;
        self.pc = self.stack[self.sp as usize];
        Ok(())
    }

    /// Call (2NNN): pushes the advanced program counter and jumps, or fails
    /// with `StackOverflow` once the stack pointer would exceed 16.
    pub(super) fn op_call(&mut self, addr: u16) -> (r: Result<(), Error>)
        requires
            old(self).inv(),
        ensures
            final(self).inv(),
            old(self).sp == 16 ==> r == Err::<(), Error>(Error::StackOverflow) && op_effect_noop(
                *old(self),
                old(self).pc,
                *final(self),
            ),
            old(self).sp < 16 ==> r == Ok::<(), Error>(()) && op_effect(
                *old(self),
                *final(self),
                old(self).registers@,
                old(self).stack@.update(old(self).sp as int, old(self).pc),
                addr,
                (old(self).sp + 1) as u8,
                old(self).dt,
                old(self).st,
                old(self).index,
                old(self).memory@,
            ),
    {
        if self.sp == 16 {
            return Err(Error::StackOverflow);
        }
        self.stack.set(self.sp as usize, self.pc);
        self.sp = self.sp + 1;
        self.pc = addr;
        Ok(())
    }

    /// Jump (1NNN): PC = NNN.
    pub(super) fn op_jump(&mut self, addr: u16) -> (r: Result<(), Error>)
        requires
            old(self).inv(),
        ensures
            final(self).inv(),
            r == Ok::<(), Error>(()),
            op_effect_pc(*old(self), *final(self), addr),
    {
        self.pc = addr;
        Ok(())
    }

    /// JumpOffset (BNNN): PC = NNN + V0.
    pub(super) fn op_jump_offset(&mut self, offset: u16) -> (r: Result<(), Error>)
        requires
            old(self).inv(),
            offset < 0x1000,
        ensures
            final(self).inv(),
            r == Ok::<(), Error>(()),
            op_effect_pc(
                *old(self),
                *final(self),
                (offset + old(self).spec_reg(0)) as u16,
            ),
    {
        let target = offset + self.registers[0] as u16;
        self.pc = target;
        Ok(())
    }

    /// SkipIfEqualImm (3XKK): PC advances an extra 2 when VX == KK.
    pub(super) fn op_skip_if_equal_imm(&mut self, vx: u8, kk: u8) -> (r: Result<(), Error>)
        requires
            old(self).inv(),
            vx < 16,
            old(self).pc <= 0xFFE,
        ensures
            final(self).inv(),
            r == Ok::<(), Error>(()),
            op_effect_pc(
                *old(self),
                *final(self),
                if old(self).spec_reg(vx) == kk {
                    (old(self).pc + 2) as u16
                } else {
                    old(self).pc
                },
            ),
    {
        if self.registers[vx as usize] == kk {
            self.pc = self.pc + 2;
        }
        Ok(())
    }

    /// SkipIfNotEqualImm (4XKK): PC advances an extra 2 when VX != KK.
    pub(super) fn op_skip_if_not_equal_imm(&mut self, vx: u8, kk: u8) -> (r: Result<(), Error>)
        requires
            old(self).inv(),
            vx < 16,
            old(self).pc <= 0xFFE,
        ensures
            final(self).inv(),
            r == Ok::<(), Error>(()),
            op_effect_pc(
                *old(self),
                *final(self),
                if old(self).spec_reg(vx) != kk {
                    (old(self).pc + 2) as u16
                } else {
                    old(self).pc
                },
            ),
    {
        if self.registers[vx as usize] != kk {
            self.pc = self.pc + 2;
        }
        Ok(())
    }

    /// SkipIfEqual (5XY0): PC advances an extra 2 when VX == VY.
    pub(super) fn op_skip_if_equal(&mut self, vx: u8, vy: u8) -> (r: Result<(), Error>)
        requires
            old(self).inv(),
            vx < 16,
            vy < 16,
            old(self).pc <= 0xFFE,
        ensures
            final(self).inv(),
            r == Ok::<(), Error>(()),
            op_effect_pc(
                *old(self),
                *final(self),
                if old(self).spec_reg(vx) == old(self).spec_reg(vy) {
                    (old(self).pc + 2) as u16
                } else {
                    old(self).pc
                },
            ),
    {
        if self.registers[vx as usize] == self.registers[vy as usize] {
            self.pc = self.pc + 2;
        }
        Ok(())
    }

    /// SkipIfNotEqual (9XY0): PC advances an extra 2 when VX != VY.
    pub(super) fn op_skip_if_not_equal(&mut self, vx: u8, vy: u8) -> (r: Result<(), Error>)
        requires
            old(self).inv(),
            vx < 16,
            vy < 16,
            old(self).pc <= 0xFFE,
        ensures
            final(self).inv(),
            r == Ok::<(), Error>(()),
            op_effect_pc(
                *old(self),
                *final(self),
                if old(self).spec_reg(vx) != old(self).spec_reg(vy) {
                    (old(self).pc + 2) as u16
                } else {
                    old(self).pc
                },
            ),
    {
        if self.registers[vx as usize] != self.registers[vy as usize] {
            self.pc = self.pc + 2;
        }
        Ok(())
    }
}

} // verus!
