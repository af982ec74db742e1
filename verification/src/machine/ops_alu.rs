use vstd::prelude::*;

use super::{Machine, op_effect_regs};
use crate::error::Error;

verus! {

// Arithmetic is 8-bit modulo 256. Add, Subtract and SubtractNegate store
// the numeric result into VX first and the flag into VF second, so the
// flag wins when VX is VF itself; the shifts store the flag first, so the
// shifted value wins there.
impl Machine {
    /// AddImmediate (7XKK): VX += KK mod 256; VF is not touched.
    pub(super) fn op_add_immediate(&mut self, vx: u8, kk: u8) -> (r: Result<(), Error>)
        requires
            old(self).inv(),
            vx < 16,
        ensures
            final(self).inv(),
            r == Ok::<(), Error>(()),
            op_effect_regs(
                *old(self),
                old(self).pc,
                *final(self),
                old(self).registers@.update(
                    vx as int,
                    ((old(self).spec_reg(vx) + kk) % 256) as u8,
                ),
            ),
    {
        let x = self.registers[vx as usize];
        let result = ((x as u16 + kk as u16) % 256) as u8;
        self.registers.set(vx as usize, result);
        Ok(())
    }

    /// Add (8XY4): VX += VY mod 256; VF = 1 on carry, else 0.
    pub(super) fn op_add(&mut self, vx: u8, vy: u8) -> (r: Result<(), Error>)
        requires
            old(self).inv(),
            vx < 16,
            vy < 16,
        ensures
            final(self).inv(),
            r == Ok::<(), Error>(()),
            op_effect_regs(
                *old(self),
                old(self).pc,
                *final(self),
                old(self).registers@.update(
                    vx as int,
                    ((old(self).spec_reg(vx) + old(self).spec_reg(vy)) % 256) as u8,
                ).update(
                    0xF,
                    if old(self).spec_reg(vx) + old(self).spec_reg(vy) > 255 {
                        1u8
                    } else {
                        0u8
                    },
                ),
            ),
    {
        let x = self.registers[vx as usize];
        let y = self.registers[vy as usize];
        let sum = x as u16 + y as u16;
        let result = (sum % 256) as u8;
        let carry: u8 = if sum > 255 {
            1
        } else {
            0
        };
        self.registers.set(vx as usize, result);
        self.registers.set(0xF, carry);
        Ok(())
    }

    /// Subtract (8XY5): VF = 1 if VX >= VY else 0; VX -= VY mod 256.
    pub(super) fn op_subtract(&mut self, vx: u8, vy: u8) -> (r: Result<(), Error>)
        requires
            old(self).inv(),
            vx < 16,
            vy < 16,
        ensures
            final(self).inv(),
            r == Ok::<(), Error>(()),
            op_effect_regs(
                *old(self),
                old(self).pc,
                *final(self),
                old(self).registers@.update(
                    vx as int,
                    ((old(self).spec_reg(vx) - old(self).spec_reg(vy)) % 256) as u8,
                ).update(
                    0xF,
                    if old(self).spec_reg(vx) >= old(self).spec_reg(vy) {
                        1u8
                    } else {
                        0u8
                    },
                ),
            ),
    {
        let x = self.registers[vx as usize];
        let y = self.registers[vy as usize];
        let flag: u8 = if x >= y {
            1
        } else {
            0
        };
        let result = ((x as u16 + 256 - y as u16) % 256) as u8;
        self.registers.set(vx as usize, result);
        self.registers.set(0xF, flag);
        Ok(())
    }

    /// SubtractNegate (8XY7): VF = 1 if VY >= VX else 0; VX = VY - VX mod 256.
    pub(super) fn op_subtract_negate(&mut self, vx: u8, vy: u8) -> (r: Result<(), Error>)
        requires
            old(self).inv(),
            vx < 16,
            vy < 16,
        ensures
            final(self).inv(),
            r == Ok::<(), Error>(()),
            op_effect_regs(
                *old(self),
                old(self).pc,
                *final(self),
                old(self).registers@.update(
                    vx as int,
                    ((old(self).spec_reg(vy) - old(self).spec_reg(vx)) % 256) as u8,
                ).update(
                    0xF,
                    if old(self).spec_reg(vy) >= old(self).spec_reg(vx) {
                        1u8
                    } else {
                        0u8
                    },
                ),
            ),
    {
        let x = self.registers[vx as usize];
        let y = self.registers[vy as usize];
        let flag: u8 = if y >= x {
            1
        } else {
            0
        };
        let result = ((y as u16 + 256 - x as u16) % 256) as u8;
        self.registers.set(vx as usize, result);
        self.registers.set(0xF, flag);
        Ok(())
    }

    /// Or (8XY1): VX |= VY.
    pub(super) fn op_or(&mut self, vx: u8, vy: u8) -> (r: Result<(), Error>)
        requires
            old(self).inv(),
            vx < 16,
            vy < 16,
        ensures
            final(self).inv(),
            r == Ok::<(), Error>(()),
            op_effect_regs(
                *old(self),
                old(self).pc,
                *final(self),
                old(self).registers@.update(
                    vx as int,
                    old(self).spec_reg(vx) | old(self).spec_reg(vy),
                ),
            ),
    {
        let v = self.registers[vx as usize] | self.registers[vy as usize];
        self.registers.set(vx as usize, v);
        Ok(())
    }

    /// And (8XY2): VX &= VY.
    pub(super) fn op_and(&mut self, vx: u8, vy: u8) -> (r: Result<(), Error>)
        requires
            old(self).inv(),
            vx < 16,
            vy < 16,
        ensures
            final(self).inv(),
            r == Ok::<(), Error>(()),
            op_effect_regs(
                *old(self),
                old(self).pc,
                *final(self),
                old(self).registers@.update(
                    vx as int,
                    old(self).spec_reg(vx) & old(self).spec_reg(vy),
                ),
            ),
    {
        let v = self.registers[vx as usize] & self.registers[vy as usize];
        self.registers.set(vx as usize, v);
        Ok(())
    }

    /// Xor (8XY3): VX ^= VY.
    pub(super) fn op_xor(&mut self, vx: u8, vy: u8) -> (r: Result<(), Error>)
        requires
            old(self).inv(),
            vx < 16,
            vy < 16,
        ensures
            final(self).inv(),
            r == Ok::<(), Error>(()),
            op_effect_regs(
                *old(self),
                old(self).pc,
                *final(self),
                old(self).registers@.update(
                    vx as int,
                    old(self).spec_reg(vx) ^ old(self).spec_reg(vy),
                ),
            ),
    {
        let v = self.registers[vx as usize] ^ self.registers[vy as usize];
        self.registers.set(vx as usize, v);
        Ok(())
    }

    /// ShiftRight (8XY6): with the shift quirk, VF = low bit of VX and VX
    /// shifts in place; without it, VF = low bit of VY and VX = VY >> 1.
    /// The flag is stored first, so the shifted value wins when VX is VF.
    pub(super) fn op_shift_right(&mut self, vx: u8, vy: u8) -> (r: Result<(), Error>)
        requires
            old(self).inv(),
            vx < 16,
            vy < 16,
        ensures
            final(self).inv(),
            r == Ok::<(), Error>(()),
            op_effect_regs(
                *old(self),
                old(self).pc,
                *final(self),
                if old(self).config.quircks.shift {
                    old(self).registers@.update(0xF, old(self).spec_reg(vx) & 0x01).update(
                        vx as int,
                        old(self).spec_reg(vx) >> 1u8,
                    )
                } else {
                    old(self).registers@.update(0xF, old(self).spec_reg(vy) & 0x01).update(
                        vx as int,
                        old(self).spec_reg(vy) >> 1u8,
                    )
                },
            ),
    {
        if self.config.quircks.shift {
            let v = self.registers[vx as usize];
            self.registers.set(0xF, v & 0x01);
            self.registers.set(vx as usize, v >> 1u8);
        } else {
            let v = self.registers[vy as usize];
            self.registers.set(0xF, v & 0x01);
            self.registers.set(vx as usize, v >> 1u8);
        }
        Ok(())
    }

    /// ShiftLeft (8XYE): with the shift quirk, VF = high bit of VX and VX
    /// shifts in place; without it, VF = high bit of VY and VX = VY << 1.
    /// The flag is stored first, so the shifted value wins when VX is VF.
    pub(super) fn op_shift_left(&mut self, vx: u8, vy: u8) -> (r: Result<(), Error>)
        requires
            old(self).inv(),
            vx < 16,
            vy < 16,
        ensures
            final(self).inv(),
            r == Ok::<(), Error>(()),
            op_effect_regs(
                *old(self),
                old(self).pc,
                *final(self),
                if old(self).config.quircks.shift {
                    old(self).registers@.update(
                        0xF,
                        (old(self).spec_reg(vx) & 0x80) >> 7u8,
                    ).update(vx as int, old(self).spec_reg(vx) << 1u8)
                } else {
                    old(self).registers@.update(
                        0xF,
                        (old(self).spec_reg(vy) & 0x80) >> 7u8,
                    ).update(vx as int, old(self).spec_reg(vy) << 1u8)
                },
            ),
    {
        if self.config.quircks.shift {
            let v = self.registers[vx as usize];
            self.registers.set(0xF, (v & 0x80) >> 7u8);
            self.registers.set(vx as usize, v << 1u8);
        } else {
            let v = self.registers[vy as usize];
            self.registers.set(0xF, (v & 0x80) >> 7u8);
            self.registers.set(vx as usize, v << 1u8);
        }
        Ok(())
    }
}

} // verus!
