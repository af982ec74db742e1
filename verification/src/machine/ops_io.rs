use vstd::prelude::*;

use super::{Machine, op_effect_pc, op_effect_regs, spec_draw_effect};
use crate::error::Error;
use crate::keyboard::spec_key_pressed;

verus! {

impl Machine {
    /// SkipIfKey (EX9E): PC advances an extra 2 when the key named by the
    /// low nibble of VX is held.
    pub(super) fn op_skip_if_key(&mut self, vx: u8) -> (r: Result<(), Error>)
        requires
            old(self).inv(),
            vx < 16,
            old(self).pc <= 0xFFE,
        ensures
            final(self).inv(),
            r == Ok::<(), Error>(()),
            op_effect_pc(
                *old(self),
                *final(self),
                if spec_key_pressed(old(self).keys.0, old(self).spec_reg(vx) & 0xF) {
                    (old(self).pc + 2) as u16
                } else {
                    old(self).pc
                },
            ),
    {
        let key = self.registers[vx as usize] & 0xF;
        if self.keys.is_key_pressed(key) {
            self.pc = self.pc + 2;
        }
        Ok(())
    }

    /// SkipIfNotKey (EXA1): PC advances an extra 2 when the key named by
    /// the low nibble of VX is not held.
    pub(super) fn op_skip_if_not_key(&mut self, vx: u8) -> (r: Result<(), Error>)
        requires
            old(self).inv(),
            vx < 16,
            old(self).pc <= 0xFFE,
        ensures
            final(self).inv(),
            r == Ok::<(), Error>(()),
            op_effect_pc(
                *old(self),
                *final(self),
                if !spec_key_pressed(old(self).keys.0, old(self).spec_reg(vx) & 0xF) {
                    (old(self).pc + 2) as u16
                } else {
                    old(self).pc
                },
            ),
    {
        let key = self.registers[vx as usize] & 0xF;
        if !self.keys.is_key_pressed(key) {
            self.pc = self.pc + 2;
        }
        Ok(())
    }

    /// WaitForKey (FX0A): if any key is held, VX receives the lowest held
    /// key index; otherwise PC rewinds by 2 so the instruction re-executes
    /// on the next step, busy-waiting until input arrives.
    pub(super) fn op_wait_for_key(&mut self, vx: u8) -> (r: Result<(), Error>)
        requires
            old(self).inv(),
            vx < 16,
            old(self).pc >= 2,
        ensures
            final(self).inv(),
            r == Ok::<(), Error>(()),
            (exists|k: u8| spec_key_pressed(old(self).keys.0, k)) ==> exists|k: u8|
                spec_key_pressed(old(self).keys.0, k) && (forall|j: u8|
                    j < k ==> !spec_key_pressed(old(self).keys.0, j)) && op_effect_regs(
                    *old(self),
                    old(self).pc,
                    *final(self),
                    old(self).registers@.update(vx as int, k),
                ),
            !(exists|k: u8| spec_key_pressed(old(self).keys.0, k)) ==> op_effect_pc(
                *old(self),
                *final(self),
                (old(self).pc - 2) as u16,
            ),
    {
        let first = self.keys.get_first_pressed_key();
        match first {
            Some(key) => {
                self.registers.set(vx as usize, key);
            },
            None => {
                // rewind PC to the current instruction, to repeat it on the
                // next step
                self.pc = self.pc - 2;
            },
        }
        Ok(())
    }

    /// Draw (DXYN): reads N bytes at the index register and XOR-blits them
    /// at (VX, VY); VF = 1 exactly when a set sprite bit cleared a pixel.
    pub(super) fn op_draw(&mut self, vx: u8, vy: u8, n: u8) -> (r: Result<(), Error>)
        requires
            old(self).inv(),
            vx < 16,
            vy < 16,
        ensures
            final(self).inv(),
            r == Ok::<(), Error>(()),
            spec_draw_effect(*old(self), old(self).pc, *final(self), vx, vy, n),
    {
        let sprite = self.memory.read_range(self.index, n as u16);
        let x = self.registers[vx as usize];
        let y = self.registers[vy as usize];

        let collision = self.display.draw_sprite(x, y, sprite.as_slice());
        self.registers.set(0xF, if collision {
            1
        } else {
            0
        });
        Ok(())
    }
}

} // verus!
