use vstd::prelude::*;

use super::Machine;
use crate::display::spec_pixel;
use crate::render::{push_bin, push_dec, push_hex2, push_hex4, spec_bin, spec_dec, spec_hex2,
    spec_hex4, spec_hex_digit};

verus! {

/// The tail every register-dump line shares: tab, the value in hex, in
/// binary and in decimal, separated by pipes, then a newline.
pub open spec fn spec_line_tail(val: u16) -> Seq<char> {
    seq!['\t', '|', ' ', '0', 'x'] + spec_hex4(val) + seq![' ', '|', ' ', '0', 'b'] + spec_bin(
        val as int,
        16,
    ) + seq![' ', '|', ' '] + spec_dec(val as int) + seq!['\n']
}

/// One general-register line: the register's name in hex, then the shared
/// tail for its value.
pub open spec fn spec_reg_line(i: int, val: u16) -> Seq<char> {
    seq!['0', 'x', spec_hex_digit(i)] + spec_line_tail(val)
}

/// The first `k` general-register lines, in order.
pub open spec fn spec_reg_lines(regs: Seq<u8>, k: int) -> Seq<char>
    decreases k,
{
    if k <= 0 {
        Seq::empty()
    } else {
        spec_reg_lines(regs, k - 1) + spec_reg_line(k - 1, regs[k - 1] as u16)
    }
}

/// One entry of the memory hex dump: an address column at the start of
/// each 16-byte line, the byte in hex, and a newline after the sixteenth.
pub open spec fn spec_hexdump_entry(mem: Seq<u8>, start: int, i: int) -> Seq<char> {
    (if i % 16 == 0 {
        seq!['0', 'x'] + spec_hex4((start + i) as u16) + seq![':', ' ']
    } else {
        Seq::empty()
    }) + seq!['0', 'x'] + spec_hex2(mem[start + i]) + seq![' '] + (if i % 16 == 15 {
        seq!['\n']
    } else {
        Seq::empty()
    })
}

/// The first `k` entries of the memory hex dump, in order.
pub open spec fn spec_hexdump(mem: Seq<u8>, start: int, k: int) -> Seq<char>
    decreases k,
{
    if k <= 0 {
        Seq::empty()
    } else {
        spec_hexdump(mem, start, k - 1) + spec_hexdump_entry(mem, start, k - 1)
    }
}

/// One row of the screen dump: a filled block for each lit pixel, a middle
/// dot for each clear one, and a closing newline.
pub open spec fn spec_screen_row(fb: Seq<u8>, y: int) -> Seq<char> {
    Seq::new(
        65,
        |x: int|
            if x == 64 {
                '\n'
            } else if spec_pixel(fb, x, y) {
                '█'
            } else {
                '·'
            },
    )
}

/// The first `k` rows of the screen dump, top to bottom.
pub open spec fn spec_screen(fb: Seq<u8>, k: int) -> Seq<char>
    decreases k,
{
    if k <= 0 {
        Seq::empty()
    } else {
        spec_screen(fb, k - 1) + spec_screen_row(fb, k - 1)
    }
}

/// Appends the shared register-line tail for one value.
fn push_line_tail(out: &mut String, val: u16)
    ensures
        final(out)@ == old(out)@ + spec_line_tail(val),
{
    proof {
        reveal_strlit("\t| 0x");
        reveal_strlit(" | 0b");
        reveal_strlit(" | ");
        reveal_strlit("\n");
    }
    out.append("\t| 0x");
    push_hex4(out, val);
    out.append(" | 0b");
    push_bin(out, val, 16);
    out.append(" | ");
    push_dec(out, val);
    out.append("\n");
    proof {
        assert(out@ =~= old(out)@ + spec_line_tail(val));
    }
}

impl Machine {
    /// A text table of the sixteen general registers, the program counter
    /// and the stack pointer, each in hex, binary and decimal.
    pub fn dump_registers(&self) -> (r: String)
        requires
            self.inv(),
        ensures
            r@ == "REG     | HEX    | BIN                | DEC\n"@
                + "--------|--------|--------------------|----\n"@ + spec_reg_lines(
                self.registers@,
                16,
            ) + "PC"@ + spec_line_tail(self.pc) + "SP"@ + spec_line_tail(self.sp as u16),
    {
        let mut output = String::new();

        // print header
        output.append("REG     | HEX    | BIN                | DEC\n");
        output.append("--------|--------|--------------------|----\n");
        let ghost header = output@;

        // print common registers 0x0..=0xF
        let mut i: u8 = 0;
        while i < 16
            invariant
                self.inv(),
                i <= 16,
                header == "REG     | HEX    | BIN                | DEC\n"@
                    + "--------|--------|--------------------|----\n"@,
                output@ == header + spec_reg_lines(self.registers@, i as int),
            decreases 16 - i,
        {
            let ghost at_top = output@;
            proof {
                reveal_strlit("0x");
            }
            output.append("0x");
            output.append(crate::render::hex_digit_str(i));
            let val = self.registers[i as usize];
            push_line_tail(&mut output, val as u16);
            proof {
                assert(output@ =~= at_top + spec_reg_line(i as int, self.registers@[i as int] as u16));
            }
            i = i + 1;
        }

        // print special registers
        proof {
            reveal_strlit("PC");
            reveal_strlit("SP");
        }
        output.append("PC");
        push_line_tail(&mut output, self.pc);
        output.append("SP");
        push_line_tail(&mut output, self.sp as u16);
        output
    }

    /// A hex dump of `length` bytes of memory from `start`: sixteen bytes
    /// per line behind an address column. A range reaching past the end of
    /// memory dumps nothing.
    pub fn dump_memory_hex(&self, start: u16, length: u16) -> (r: String)
        requires
            self.inv(),
        ensures
            start + length <= 0x1000 ==> r@ == spec_hexdump(
                self.memory@,
                start as int,
                length as int,
            ),
            start + length > 0x1000 ==> r@ == Seq::<char>::empty(),
    {
        let mut output = String::new();
        let data = self.memory.read_range(start, length);
        if data.len() == 0 {
            proof {
                if start + length <= 0x1000 {
                    assert(data@ == self.memory@.subrange(
                        start as int,
                        start as int + length as int,
                    ));
                    assert(length == 0);
                }
            }
            return output;
        }

        let mut i: usize = 0;
        while i < data.len()
            invariant
                self.inv(),
                start + length <= 0x1000,
                data@ == self.memory@.subrange(start as int, start as int + length as int),
                i <= length,
                output@ == spec_hexdump(self.memory@, start as int, i as int),
            decreases data@.len() - i,
        {
            let ghost at_top = output@;
            proof {
                reveal_strlit("0x");
                reveal_strlit(": ");
                reveal_strlit(" ");
                reveal_strlit("\n");
            }
            if i % 16 == 0 {
                output.append("0x");
                push_hex4(&mut output, start + i as u16);
                output.append(": ");
            }
            output.append("0x");
            push_hex2(&mut output, data[i]);
            output.append(" ");
            if i % 16 == 15 {
                output.append("\n");
            }
            proof {
                assert(output@ =~= at_top + spec_hexdump_entry(
                    self.memory@,
                    start as int,
                    i as int,
                ));
            }
            i = i + 1;
        }
        output
    }

    /// A text rendering of the screen: one line per display row, a filled
    /// block for each lit pixel and a middle dot for each clear one.
    pub fn dump_screen(&self) -> (r: String)
        requires
            self.inv(),
        ensures
            r@ == spec_screen(self.display@, 32),
    {
        let mut output = String::new();

        let mut y: u8 = 0;
        while y < self.display.height()
            invariant
                self.inv(),
                y <= 32,
                output@ == spec_screen(self.display@, y as int),
            decreases 32 - y,
        {
            let mut x: u8 = 0;
            while x < self.display.width()
                invariant
                    self.inv(),
                    y < 32,
                    x <= 64,
                    output@ == spec_screen(self.display@, y as int) + spec_screen_row(
                        self.display@,
                        y as int,
                    ).subrange(0, x as int),
                decreases 64 - x,
            {
                proof {
                    reveal_strlit("█");
                    reveal_strlit("·");
                }
                if self.display.get_pixel(x, y) {
                    output.append("█");
                } else {
                    output.append("·");
                }
                proof {
                    assert(output@ =~= spec_screen(self.display@, y as int) + spec_screen_row(
                        self.display@,
                        y as int,
                    ).subrange(0, x as int + 1));
                }
                x = x + 1;
            }
            proof {
                reveal_strlit("\n");
            }
            output.append("\n");
            proof {
                assert(output@ =~= spec_screen(self.display@, y as int) + spec_screen_row(
                    self.display@,
                    y as int,
                ));
                assert(output@ =~= spec_screen(self.display@, y as int + 1));
            }
            y = y + 1;
        }
        output
    }
}

} // verus!
