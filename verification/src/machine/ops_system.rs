use vstd::prelude::*;

use super::{Machine, op_effect_timers, op_frame};
use crate::display::spec_blank_framebuffer;
use crate::error::Error;
use crate::rng::rng_next_u32;

verus! {

impl Machine {
    /// Clear (00E0): blanks the framebuffer; everything else is untouched.
    pub(super) fn op_clear(&mut self) -> (r: Result<(), Error>)
        requires
            old(self).inv(),
        ensures
            final(self).inv(),
            r == Ok::<(), Error>(()),
            op_frame(*old(self), *final(self)),
            final(self).rng == old(self).rng,
            final(self).display@ == spec_blank_framebuffer(),
            final(self).memory@ == old(self).memory@,
            final(self).registers@ == old(self).registers@,
            final(self).stack@ == old(self).stack@,
            final(self).pc == old(self).pc,
            final(self).sp == old(self).sp,
            final(self).dt == old(self).dt,
            final(self).st == old(self).st,
            final(self).index == old(self).index,
    {
        self.display.clear();
        Ok(())
    }

    /// Syscall (0NNN): a legacy machine-code call; not supported, a no-op.
    pub(super) fn op_syscall(&self, _addr: u16) -> (r: Result<(), Error>)
        ensures
            r == Ok::<(), Error>(()),
    {
        Ok(())
    }

    /// Rnd (CXKK): VX = random byte & KK, drawn from the machine's own
    /// generator. Every other component is untouched; the generator state
    /// advances arbitrarily.
    pub(super) fn op_rnd(&mut self, vx: u8, kk: u8) -> (r: Result<(), Error>)
        requires
            old(self).inv(),
            vx < 16,
        ensures
            final(self).inv(),
            r == Ok::<(), Error>(()),
            op_frame(*old(self), *final(self)),
            exists|b: u8|
                final(self).registers@ == old(self).registers@.update(vx as int, b & kk),
            final(self).memory@ == old(self).memory@,
            final(self).display@ == old(self).display@,
            final(self).stack@ == old(self).stack@,
            final(self).pc == old(self).pc,
            final(self).sp == old(self).sp,
            final(self).dt == old(self).dt,
            final(self).st == old(self).st,
            final(self).index == old(self).index,
    {
        let value = rng_next_u32(&mut self.rng);
        self.apply_rnd(vx, kk, value);
        Ok(())
    }

    /// Folds one drawn value into VX under the KK mask: VX receives the
    /// value's low byte AND KK, exactly, for every drawn value.
    fn apply_rnd(&mut self, vx: u8, kk: u8, value: u32)
        requires
            old(self).inv(),
            vx < 16,
        ensures
            final(self).inv(),
            super::op_effect_regs(
                *old(self),
                old(self).pc,
                *final(self),
                old(self).registers@.update(vx as int, ((value % 256) as u8) & kk),
            ),
    {
        let b = (value % 256) as u8;
        self.registers.set(vx as usize, b & kk);
    }

    /// SetDelayTimer (FX15): DT = VX.
    pub(super) fn op_set_delay_timer(&mut self, vx: u8) -> (r: Result<(), Error>)
        requires
            old(self).inv(),
            vx < 16,
        ensures
            final(self).inv(),
            r == Ok::<(), Error>(()),
            op_effect_timers(
                *old(self),
                old(self).pc,
                *final(self),
                old(self).spec_reg(vx),
                old(self).st,
            ),
    {
        let value = self.registers[vx as usize];
        self.dt = value;
        Ok(())
    }

    /// SetSoundTimer (FX18): ST = VX.
    pub(super) fn op_set_sound_timer(&mut self, vx: u8) -> (r: Result<(), Error>)
        requires
            old(self).inv(),
            vx < 16,
        ensures
            final(self).inv(),
            r == Ok::<(), Error>(()),
            op_effect_timers(
                *old(self),
                old(self).pc,
                *final(self),
                old(self).dt,
                old(self).spec_reg(vx),
            ),
    {
        let value = self.registers[vx as usize];
        self.st = value;
        Ok(())
    }

    /// LoadDelayTimer (FX07): VX = DT.
    pub(super) fn op_load_delay_timer(&mut self, vx: u8) -> (r: Result<(), Error>)
        requires
            old(self).inv(),
            vx < 16,
        ensures
            final(self).inv(),
            r == Ok::<(), Error>(()),
            super::op_effect_regs(
                *old(self),
                old(self).pc,
                *final(self),
                old(self).registers@.update(vx as int, old(self).dt),
            ),
    {
        let v = self.dt;
        self.registers.set(vx as usize, v);
        Ok(())
    }
}

} // verus!
