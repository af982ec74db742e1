use vstd::prelude::*;

use crate::error::Error;

verus! {

/// The five-byte glyphs for the hex digits 0..F, in the canonical layout:
/// digit `d` occupies bytes `5*d .. 5*d + 5` of this 80-byte table.
pub open spec fn spec_font() -> Seq<u8> {
    seq![
        0xF0u8, 0x90, 0x90, 0x90, 0xF0, // 0
        0x20, 0x60, 0x20, 0x20, 0x70, // 1
        0xF0, 0x10, 0xF0, 0x80, 0xF0, // 2
        0xF0, 0x10, 0xF0, 0x10, 0xF0, // 3
        0x90, 0x90, 0xF0, 0x10, 0x10, // 4
        0xF0, 0x80, 0xF0, 0x10, 0xF0, // 5
        0xF0, 0x80, 0xF0, 0x90, 0xF0, // 6
        0xF0, 0x10, 0x20, 0x40, 0x40, // 7
        0xF0, 0x90, 0xF0, 0x90, 0xF0, // 8
        0xF0, 0x90, 0xF0, 0x10, 0xF0, // 9
        0xF0, 0x90, 0xF0, 0x90, 0x90, // A
        0xE0, 0x90, 0xE0, 0x90, 0xE0, // B
        0xF0, 0x80, 0x80, 0x80, 0xF0, // C
        0xE0, 0x90, 0x90, 0x90, 0xE0, // D
        0xF0, 0x80, 0xF0, 0x80, 0xF0, // E
        0xF0, 0x80, 0xF0, 0x80, 0x80, // F
    ]
}

/// The contents of a fresh 4 KiB memory: all zero, except the font table
/// at 0x050..0x0A0.
pub open spec fn spec_fresh_memory() -> Seq<u8> {
    Seq::new(4096, |a: int| if 0x50 <= a < 0xA0 { spec_font()[a - 0x50] } else { 0u8 })
}

/// The 4 KiB linear address space, addressed by 12-bit values. Every access
/// is bounds-checked against 0x1000.
pub struct Memory {
    data: Vec<u8>,
}

impl View for Memory {
    type V = Seq<u8>;

    closed spec fn view(&self) -> Seq<u8> {
        self.data@
    }
}

impl Memory {
    /// Memory holds exactly 4096 bytes for its whole lifetime.
    pub open spec fn wf(&self) -> bool {
        self@.len() == 4096
    }

    /// A fresh memory: zeroed, with the font table preloaded at 0x050.
    pub fn new() -> (r: Self)
        ensures
            r.wf(),
            r@ == spec_fresh_memory(),
    {
        let mut data: Vec<u8> = Vec::new();
        let mut i: usize = 0;
        while i < 4096
            invariant
                i <= 4096,
                data@.len() == i,
                forall|a: int| 0 <= a < i ==> data@[a] == 0u8,
            decreases 4096 - i,
        {
            data.push(0);
            i = i + 1;
        }
        let mut memory = Self { data };
        memory.load_fonts();
        proof {
            assert(memory@ =~= spec_fresh_memory());
        }
        memory
    }

    /// The byte at `addr`, or `MemoryOutOfBound` for addresses past 0x1000.
    pub fn read(&self, addr: u16) -> (r: Result<u8, Error>)
        requires
            self.wf(),
        ensures
            r == if addr < 0x1000 {
                Ok::<u8, Error>(self@[addr as int])
            } else {
                Err::<u8, Error>(Error::MemoryOutOfBound)
            },
    {
        if addr >= 0x1000 {
            Err(Error::MemoryOutOfBound)
        } else {
            Ok(self.data[addr as usize])
        }
    }

    /// Stores `value` at `addr`; out-of-range addresses fail and leave the
    /// memory unchanged.
    pub fn write(&mut self, addr: u16, value: u8) -> (r: Result<(), Error>)
        requires
            old(self).wf(),
        ensures
            final(self).wf(),
            addr < 0x1000 ==> r == Ok::<(), Error>(()) && final(self)@ == old(self)@.update(
                addr as int,
                value,
            ),
            addr >= 0x1000 ==> r == Err::<(), Error>(Error::MemoryOutOfBound) && final(self)@
                == old(self)@,
    {
        if addr >= 0x1000 {
            Err(Error::MemoryOutOfBound)
        } else {
            self.data.set(addr as usize, value);
            Ok(())
        }
    }

    /// Stores a 16-bit word big-endian: the high byte at `addr`, the low
    /// byte at `addr + 1`. Both bytes must fit below 0x1000.
    pub fn write_word(&mut self, addr: u16, value: u16) -> (r: Result<(), Error>)
        requires
            old(self).wf(),
        ensures
            final(self).wf(),
            addr < 0xFFF ==> r == Ok::<(), Error>(()) && final(self)@ == old(self)@.update(
                addr as int,
                (value / 0x100) as u8,
            ).update(addr as int + 1, (value % 0x100) as u8),
            addr >= 0xFFF ==> r == Err::<(), Error>(Error::MemoryOutOfBound) && final(self)@
                == old(self)@,
    {
        if addr >= 0x1000 - 1 {
            return Err(Error::MemoryOutOfBound);
        }
        let high = (value / 0x100) as u8;
        let low = (value % 0x100) as u8;
        let _ = self.write(addr, high);
        let _ = self.write(addr + 1, low);
        Ok(())
    }

    /// The `length` bytes starting at `start`, or the empty vector when the
    /// range would reach past 0x1000.
    pub fn read_range(&self, start: u16, length: u16) -> (r: Vec<u8>)
        requires
            self.wf(),
        ensures
            start + length <= 0x1000 ==> r@ == self@.subrange(
                start as int,
                start as int + length as int,
            ),
            start + length > 0x1000 ==> r@ == Seq::<u8>::empty(),
    {
        let end: u32 = start as u32 + length as u32;
        if end > 0x1000 {
            Vec::new()
        } else {
            let mut out: Vec<u8> = Vec::new();
            let mut i: u16 = 0;
            while i < length
                invariant
                    self.wf(),
                    i <= length,
                    start + length <= 0x1000,
                    out@ == self@.subrange(start as int, start as int + i as int),
                decreases length - i,
            {
                out.push(self.data[(start + i) as usize]);
                proof {
                    assert(out@ =~= self@.subrange(start as int, start as int + i as int + 1));
                }
                i = i + 1;
            }
            out
        }
    }

    /// The big-endian word whose high byte sits at `addr`.
    pub fn read_word(&self, addr: u16) -> (r: Result<u16, Error>)
        requires
            self.wf(),
        ensures
            r == if addr < 0xFFF {
                Ok::<u16, Error>((self@[addr as int] * 0x100 + self@[addr as int + 1]) as u16)
            } else {
                Err::<u16, Error>(Error::MemoryOutOfBound)
            },
    {
        if addr >= 0x1000 - 1 {
            return Err(Error::MemoryOutOfBound);
        }
        let high = self.data[addr as usize] as u16;
        let low = self.data[addr as usize + 1] as u16;
        Ok(high * 0x100 + low)
    }

    /// Copies the 80-byte font table to 0x050..0x0A0, leaving the rest of
    /// the memory as it was.
    fn load_fonts(&mut self)
        requires
            old(self).wf(),
        ensures
            final(self).wf(),
            final(self)@ == old(self)@.subrange(0, 0x50).add(spec_font()).add(
                old(self)@.subrange(0xA0, 4096),
            ),
    {
        let fonts = font_table();
        let mut i: usize = 0;
        while i < 80
            invariant
                i <= 80,
                self@.len() == 4096,
                fonts@ == spec_font(),
                forall|a: int| 0 <= a < 0x50 ==> self@[a] == old(self)@[a],
                forall|a: int| 0x50 <= a < 0x50 + i ==> self@[a] == spec_font()[a - 0x50],
                forall|a: int| 0x50 + i <= a < 4096 ==> self@[a] == old(self)@[a],
            decreases 80 - i,
        {
            self.data.set(0x50 + i, fonts[i]);
            i = i + 1;
        }
        proof {
            assert(self@ =~= old(self)@.subrange(0, 0x50).add(spec_font()).add(
                old(self)@.subrange(0xA0, 4096),
            ));
        }
    }
}

/// The font table as a runtime vector, matching `spec_font` byte for byte.
fn font_table() -> (r: Vec<u8>)
    ensures
        r@ == spec_font(),
{
    let mut t: Vec<u8> = Vec::new();
    t.push(0xF0); t.push(0x90); t.push(0x90); t.push(0x90); t.push(0xF0);
    t.push(0x20); t.push(0x60); t.push(0x20); t.push(0x20); t.push(0x70);
    t.push(0xF0); t.push(0x10); t.push(0xF0); t.push(0x80); t.push(0xF0);
    t.push(0xF0); t.push(0x10); t.push(0xF0); t.push(0x10); t.push(0xF0);
    t.push(0x90); t.push(0x90); t.push(0xF0); t.push(0x10); t.push(0x10);
    t.push(0xF0); t.push(0x80); t.push(0xF0); t.push(0x10); t.push(0xF0);
    t.push(0xF0); t.push(0x80); t.push(0xF0); t.push(0x90); t.push(0xF0);
    t.push(0xF0); t.push(0x10); t.push(0x20); t.push(0x40); t.push(0x40);
    t.push(0xF0); t.push(0x90); t.push(0xF0); t.push(0x90); t.push(0xF0);
    t.push(0xF0); t.push(0x90); t.push(0xF0); t.push(0x10); t.push(0xF0);
    t.push(0xF0); t.push(0x90); t.push(0xF0); t.push(0x90); t.push(0x90);
    t.push(0xE0); t.push(0x90); t.push(0xE0); t.push(0x90); t.push(0xE0);
    t.push(0xF0); t.push(0x80); t.push(0x80); t.push(0x80); t.push(0xF0);
    t.push(0xE0); t.push(0x90); t.push(0x90); t.push(0x90); t.push(0xE0);
    t.push(0xF0); t.push(0x80); t.push(0xF0); t.push(0x80); t.push(0xF0);
    t.push(0xF0); t.push(0x80); t.push(0xF0); t.push(0x80); t.push(0x80);
    proof {
        assert(t@ =~= spec_font());
    }
    t
}

} // verus!
