use vstd::prelude::*;

use crate::instruction::Instruction;
use crate::instruction::encoder::spec_encode;
use crate::render::{push_hex4, push_hex_var, spec_hex4, spec_hex_min4};

verus! {

/// A program as a list of instructions, before assembly into 16-bit words.
pub struct Program(pub Vec<Instruction>);

/// One line of a program listing: the instruction's position and its
/// encoded word, both in hex.
pub open spec fn spec_dump_line(addr: int, inst: Instruction) -> Seq<char> {
    seq!['0', 'x'] + spec_hex_min4(addr) + seq![':', '\t', '0', 'x'] + spec_hex4(spec_encode(inst))
        + seq!['\n']
}

/// A program listing: one line per instruction, in order.
pub open spec fn spec_dump(prog: Seq<Instruction>, upto: int) -> Seq<char>
    decreases upto,
{
    if upto <= 0 {
        Seq::empty()
    } else {
        spec_dump(prog, upto - 1) + spec_dump_line(upto - 1, prog[upto - 1])
    }
}

impl Program {
    /// Assembles the program into its 16-bit words, one per instruction.
    pub fn to_words(&self) -> (r: Vec<u16>)
        ensures
            r@.len() == self.0@.len(),
            forall|i: int| 0 <= i < r@.len() ==> r@[i] == spec_encode(self.0@[i]),
    {
        let mut words: Vec<u16> = Vec::new();
        let mut i: usize = 0;
        while i < self.0.len()
            invariant
                i <= self.0@.len(),
                words@.len() == i,
                forall|j: int| 0 <= j < i ==> words@[j] == spec_encode(self.0@[j]),
            decreases self.0@.len() - i,
        {
            words.push(self.0[i].encode());
            i = i + 1;
        }
        words
    }

    /// A text listing of the program: each instruction's position and its
    /// encoded word, one line per instruction.
    pub fn dump(&self) -> (r: String)
        ensures
            r@ == spec_dump(self.0@, self.0@.len() as int),
    {
        let mut output = String::new();
        let mut i: usize = 0;
        while i < self.0.len()
            invariant
                i <= self.0@.len(),
                output@ == spec_dump(self.0@, i as int),
            decreases self.0@.len() - i,
        {
            let ghost at_top = output@;
            proof {
                reveal_strlit("0x");
                reveal_strlit(":\t0x");
                reveal_strlit("\n");
            }
            output.append("0x");
            proof {
                assert("0x"@ =~= seq!['0', 'x']);
            }
            if i <= 0xFFFF {
                push_hex4(&mut output, i as u16);
            } else {
                push_hex_var(&mut output, i);
            }
            output.append(":\t0x");
            proof {
                assert(":\t0x"@ =~= seq![':', '\t', '0', 'x']);
            }
            let opcode = self.0[i].encode();
            push_hex4(&mut output, opcode);
            output.append("\n");
            proof {
                assert("\n"@ =~= seq!['\n']);
                assert(output@ =~= at_top + spec_dump_line(i as int, self.0@[i as int]));
                assert(output@ =~= spec_dump(self.0@, i + 1));
            }
            i = i + 1;
        }
        output
    }
}

} // verus!
