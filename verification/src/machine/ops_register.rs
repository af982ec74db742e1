use vstd::prelude::*;

use super::{Machine, op_effect_index, op_effect_regs};
use crate::error::Error;

verus! {

impl Machine {
    /// SetImmediate (6XKK): VX = KK.
    pub(super) fn op_set_immediate(&mut self, vx: u8, kk: u8) -> (r: Result<(), Error>)
        requires
            old(self).inv(),
            vx < 16,
        ensures
            final(self).inv(),
            r == Ok::<(), Error>(()),
            op_effect_regs(
                *old(self),
                old(self).pc,
                *final(self),
                old(self).registers@.update(vx as int, kk),
            ),
    {
        self.registers.set(vx as usize, kk);
        Ok(())
    }

    /// Set (8XY0): VX = VY.
    pub(super) fn op_set(&mut self, vx: u8, vy: u8) -> (r: Result<(), Error>)
        requires
            old(self).inv(),
            vx < 16,
            vy < 16,
        ensures
            final(self).inv(),
            r == Ok::<(), Error>(()),
            op_effect_regs(
                *old(self),
                old(self).pc,
                *final(self),
                old(self).registers@.update(vx as int, old(self).spec_reg(vy)),
            ),
    {
        let v = self.registers[vy as usize];
        self.registers.set(vx as usize, v);
        Ok(())
    }

    /// SetIndex (ANNN): I = NNN; addresses below 0x200 fail with
    /// `InvalidIndexAddress`, addresses past 0xFFF with `IndexOverflow`.
    pub(super) fn op_set_index(&mut self, addr: u16) -> (r: Result<(), Error>)
        requires
            old(self).inv(),
        ensures
            final(self).inv(),
            addr < 0x200 ==> r == Err::<(), Error>(Error::InvalidIndexAddress(addr))
                && op_effect_index(*old(self), old(self).pc, *final(self), old(self).index),
            addr >= 0x1000 ==> r == Err::<(), Error>(Error::IndexOverflow(addr)) && op_effect_index(
                *old(self),
                old(self).pc,
                *final(self),
                old(self).index,
            ),
            0x200 <= addr < 0x1000 ==> r == Ok::<(), Error>(()) && op_effect_index(
                *old(self),
                old(self).pc,
                *final(self),
                addr,
            ),
    {
        if addr < 0x200 {
            return Err(Error::InvalidIndexAddress(addr));
        } else if addr >= 0x1000 {
            return Err(Error::IndexOverflow(addr));
        }
        self.index = addr;
        Ok(())
    }

    /// AddIndex (FX1E): I += VX, validating the post-add target with the
    /// same range checks as SetIndex.
    pub(super) fn op_add_index(&mut self, vx: u8) -> (r: Result<(), Error>)
        requires
            old(self).inv(),
            vx < 16,
        ensures
            final(self).inv(),
            old(self).index + old(self).spec_reg(vx) < 0x200 ==> r == Err::<(), Error>(
                Error::InvalidIndexAddress((old(self).index + old(self).spec_reg(vx)) as u16),
            ) && op_effect_index(*old(self), old(self).pc, *final(self), old(self).index),
            old(self).index + old(self).spec_reg(vx) >= 0x1000 ==> r == Err::<(), Error>(
                Error::IndexOverflow((old(self).index + old(self).spec_reg(vx)) as u16),
            ) && op_effect_index(*old(self), old(self).pc, *final(self), old(self).index),
            0x200 <= old(self).index + old(self).spec_reg(vx) < 0x1000 ==> r == Ok::<(), Error>(())
                && op_effect_index(
                *old(self),
                old(self).pc,
                *final(self),
                (old(self).index + old(self).spec_reg(vx)) as u16,
            ),
    {
        let offset = self.registers[vx as usize] as u16;
        let target = offset + self.index;

        if target < 0x200 {
            return Err(Error::InvalidIndexAddress(target));
        } else if target >= 0x1000 {
            return Err(Error::IndexOverflow(target));
        }

        self.index = target;
        Ok(())
    }
}

} // verus!
