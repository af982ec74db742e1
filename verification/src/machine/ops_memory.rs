use vstd::prelude::*;

use super::{Machine, op_effect_index, op_effect_mem, op_effect_noop, spec_loaded_registers,
    spec_stored_memory};
use crate::error::Error;

verus! {

// A failed instruction executes nothing at all: the three opcodes here
// validate the whole memory range they would touch before the first byte
// moves, so MemoryOutOfBound always leaves the machine as it was.
impl Machine {
    /// LoadFont (FX29): I = 0x050 + 5 * (low nibble of VX), the address of
    /// that hex digit's five-byte glyph.
    pub(super) fn op_load_font(&mut self, vx: u8) -> (r: Result<(), Error>)
        requires
            old(self).inv(),
            vx < 16,
        ensures
            final(self).inv(),
            r == Ok::<(), Error>(()),
            op_effect_index(
                *old(self),
                old(self).pc,
                *final(self),
                (0x50 + 5 * (old(self).spec_reg(vx) % 16)) as u16,
            ),
    {
        let digit = self.registers[vx as usize] % 16;
        self.index = 0x50 + (digit as u16 * 5);
        Ok(())
    }

    /// StoreBcd (FX33): the hundreds, tens and ones of VX land at I, I+1
    /// and I+2. A range that would reach past the end of memory fails with
    /// `MemoryOutOfBound` before anything is written.
    pub(super) fn op_store_bcd(&mut self, vx: u8) -> (r: Result<(), Error>)
        requires
            old(self).inv(),
            vx < 16,
        ensures
            final(self).inv(),
            old(self).index + 2 < 0x1000 ==> r == Ok::<(), Error>(()) && op_effect_mem(
                *old(self),
                old(self).pc,
                *final(self),
                old(self).memory@.update(
                    old(self).index as int,
                    (old(self).spec_reg(vx) / 100) as u8,
                ).update(
                    old(self).index as int + 1,
                    ((old(self).spec_reg(vx) / 10) % 10) as u8,
                ).update(old(self).index as int + 2, (old(self).spec_reg(vx) % 10) as u8),
            ),
            old(self).index + 2 >= 0x1000 ==> r == Err::<(), Error>(Error::MemoryOutOfBound)
                && op_effect_noop(*old(self), old(self).pc, *final(self)),
    {
        if self.index >= 0x1000 - 2 {
            return Err(Error::MemoryOutOfBound);
        }

        let value = self.registers[vx as usize];
        let hundreds = value / 100;
        let tens = value / 10 % 10;
        let ones = value % 10;

        let _ = self.memory.write(self.index, hundreds);
        let _ = self.memory.write(self.index + 1, tens);
        let _ = self.memory.write(self.index + 2, ones);
        Ok(())
    }

    /// StoreRegisters (FX55): copies V0..VX to memory at I..I+X; I itself
    /// is left unchanged. A range that would reach past the end of memory
    /// fails with `MemoryOutOfBound` before anything is written.
    pub(super) fn op_store_registers(&mut self, x: u8) -> (r: Result<(), Error>)
        requires
            old(self).inv(),
            x < 16,
        ensures
            final(self).inv(),
            old(self).index + x < 0x1000 ==> r == Ok::<(), Error>(()) && op_effect_mem(
                *old(self),
                old(self).pc,
                *final(self),
                spec_stored_memory(*old(self), x),
            ),
            old(self).index + x >= 0x1000 ==> r == Err::<(), Error>(Error::MemoryOutOfBound)
                && op_effect_noop(*old(self), old(self).pc, *final(self)),
    {
        if self.index + (x as u16) >= 0x1000 {
            return Err(Error::MemoryOutOfBound);
        }

        let ghost pre = *old(self);
        let mut i: u8 = 0;
        loop
            invariant
                pre == *old(self),
                self.inv(),
                i <= x,
                x < 16,
                pre.inv(),
                pre.index + x < 0x1000,
                self.registers@ == pre.registers@,
                self.stack@ == pre.stack@,
                self.pc == pre.pc,
                self.sp == pre.sp,
                self.dt == pre.dt,
                self.st == pre.st,
                self.index == pre.index,
                self.display@ == pre.display@,
                self.config == pre.config,
                self.last_frame_time == pre.last_frame_time,
                self.timer_period == pre.timer_period,
                self.timer_accumulator == pre.timer_accumulator,
                self.keys == pre.keys,
                self.rng == pre.rng,
                forall|a: int|
                    0 <= a < 4096 ==> self.memory@[a] == if pre.index <= a < pre.index + i {
                        pre.registers@[a - pre.index]
                    } else {
                        pre.memory@[a]
                    },
            decreases x - i,
        {
            let value = self.registers[i as usize];
            let addr = self.index + i as u16;
            let _ = self.memory.write(addr, value);
            if i == x {
                proof {
                    assert(self.memory@ =~= spec_stored_memory(pre, x));
                }
                return Ok(());
            }
            i = i + 1;
        }
    }

    /// LoadRegisters (FX65): copies memory at I..I+X into V0..VX; I itself
    /// is left unchanged. A range that would reach past the end of memory
    /// fails with `MemoryOutOfBound` before any register changes.
    pub(super) fn op_load_registers(&mut self, x: u8) -> (r: Result<(), Error>)
        requires
            old(self).inv(),
            x < 16,
        ensures
            final(self).inv(),
            old(self).index + x < 0x1000 ==> r == Ok::<(), Error>(()) && super::op_effect_regs(
                *old(self),
                old(self).pc,
                *final(self),
                spec_loaded_registers(*old(self), x),
            ),
            old(self).index + x >= 0x1000 ==> r == Err::<(), Error>(Error::MemoryOutOfBound)
                && op_effect_noop(*old(self), old(self).pc, *final(self)),
    {
        if self.index + (x as u16) >= 0x1000 {
            return Err(Error::MemoryOutOfBound);
        }

        let ghost pre = *old(self);
        let mut i: u8 = 0;
        loop
            invariant
                pre == *old(self),
                self.inv(),
                i <= x,
                x < 16,
                pre.inv(),
                pre.index + x < 0x1000,
                self.memory@ == pre.memory@,
                self.stack@ == pre.stack@,
                self.pc == pre.pc,
                self.sp == pre.sp,
                self.dt == pre.dt,
                self.st == pre.st,
                self.index == pre.index,
                self.display@ == pre.display@,
                self.config == pre.config,
                self.last_frame_time == pre.last_frame_time,
                self.timer_period == pre.timer_period,
                self.timer_accumulator == pre.timer_accumulator,
                self.keys == pre.keys,
                self.rng == pre.rng,
                forall|j: int|
                    0 <= j < 16 ==> self.registers@[j] == if j < i {
                        pre.memory@[pre.index + j]
                    } else {
                        pre.registers@[j]
                    },
            decreases x - i,
        {
            let addr = self.index + i as u16;
            let v = self.memory.read(addr);
            match v {
                Err(_) => {
                    proof {
                        assert(false);
                    }
                },
                Ok(value) => {
                    self.registers.set(i as usize, value);
                },
            }
            if i == x {
                proof {
                    assert(self.registers@ =~= spec_loaded_registers(pre, x));
                }
                return Ok(());
            }
            i = i + 1;
        }
    }
}

} // verus!
