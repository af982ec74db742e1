use vstd::prelude::*;

use super::Instruction;
use crate::error::Error;

verus! {

/// The most significant nibble of a word.
pub open spec fn nib_q(w: u16) -> u8 {
    ((w & 0xF000) >> 12) as u8
}

/// The second nibble of a word: the X register selector.
pub open spec fn nib_x(w: u16) -> u8 {
    ((w & 0x0F00) >> 8) as u8
}

/// The third nibble of a word: the Y register selector.
pub open spec fn nib_y(w: u16) -> u8 {
    ((w & 0x00F0) >> 4) as u8
}

/// The least significant nibble of a word.
pub open spec fn nib_n(w: u16) -> u8 {
    (w & 0x000F) as u8
}

/// The low byte of a word: the KK immediate.
pub open spec fn low_byte(w: u16) -> u8 {
    (w & 0x00FF) as u8
}

/// The low 12 bits of a word: the NNN address.
pub open spec fn addr_of(w: u16) -> u16 {
    w & 0x0FFF
}

/// The decoding table: the instruction a word denotes, or `None` for the
/// bit patterns outside the documented opcode set.
pub open spec fn spec_decode(w: u16) -> Option<Instruction> {
    let q = nib_q(w);
    let x = nib_x(w);
    let y = nib_y(w);
    let n = nib_n(w);
    let kk = low_byte(w);
    let nnn = addr_of(w);
    if w == 0x00E0 {
        Some(Instruction::Clear)
    } else if w == 0x00EE {
        Some(Instruction::Return)
    } else if q == 0x0 {
        Some(Instruction::Syscall(nnn))
    } else if q == 0x1 {
        Some(Instruction::Jump(nnn))
    } else if q == 0x2 {
        Some(Instruction::Call(nnn))
    } else if q == 0x3 {
        Some(Instruction::SkipIfEqualImm { vx: x, kk })
    } else if q == 0x4 {
        Some(Instruction::SkipIfNotEqualImm { vx: x, kk })
    } else if q == 0x5 && n == 0x0 {
        Some(Instruction::SkipIfEqual { vx: x, vy: y })
    } else if q == 0x6 {
        Some(Instruction::SetImmediate { vx: x, kk })
    } else if q == 0x7 {
        Some(Instruction::AddImmediate { vx: x, kk })
    } else if q == 0x8 && n == 0x0 {
        Some(Instruction::SetRegister { vx: x, vy: y })
    } else if q == 0x8 && n == 0x1 {
        Some(Instruction::Or { vx: x, vy: y })
    } else if q == 0x8 && n == 0x2 {
        Some(Instruction::And { vx: x, vy: y })
    } else if q == 0x8 && n == 0x3 {
        Some(Instruction::Xor { vx: x, vy: y })
    } else if q == 0x8 && n == 0x4 {
        Some(Instruction::Add { vx: x, vy: y })
    } else if q == 0x8 && n == 0x5 {
        Some(Instruction::Subtract { vx: x, vy: y })
    } else if q == 0x8 && n == 0x6 {
        Some(Instruction::ShiftRight { vx: x, vy: y })
    } else if q == 0x8 && n == 0x7 {
        Some(Instruction::SubtractNegate { vx: x, vy: y })
    } else if q == 0x8 && n == 0xE {
        Some(Instruction::ShiftLeft { vx: x, vy: y })
    } else if q == 0x9 && n == 0x0 {
        Some(Instruction::SkipIfNotEqual { vx: x, vy: y })
    } else if q == 0xA {
        Some(Instruction::SetIndex(nnn))
    } else if q == 0xB {
        Some(Instruction::JumpOffset(nnn))
    } else if q == 0xC {
        Some(Instruction::Rnd { vx: x, kk })
    } else if q == 0xD {
        Some(Instruction::Draw { vx: x, vy: y, n })
    } else if q == 0xE && y == 0x9 && n == 0xE {
        Some(Instruction::SkipIfKey(x))
    } else if q == 0xE && y == 0xA && n == 0x1 {
        Some(Instruction::SkipIfNotKey(x))
    } else if q == 0xF && y == 0x0 && n == 0x7 {
        Some(Instruction::LoadDelayTimer(x))
    } else if q == 0xF && y == 0x0 && n == 0xA {
        Some(Instruction::WaitForKey(x))
    } else if q == 0xF && y == 0x1 && n == 0x5 {
        Some(Instruction::SetDelayTimer(x))
    } else if q == 0xF && y == 0x1 && n == 0x8 {
        Some(Instruction::SetSoundTimer(x))
    } else if q == 0xF && y == 0x1 && n == 0xE {
        Some(Instruction::AddIndex(x))
    } else if q == 0xF && y == 0x2 && n == 0x9 {
        Some(Instruction::LoadFont(x))
    } else if q == 0xF && y == 0x3 && n == 0x3 {
        Some(Instruction::StoreBcd(x))
    } else if q == 0xF && y == 0x5 && n == 0x5 {
        Some(Instruction::StoreRegisters(x))
    } else if q == 0xF && y == 0x6 && n == 0x5 {
        Some(Instruction::LoadRegisters(x))
    } else {
        None
    }
}

/// Every nibble of a word is below 16 and every address below 0x1000.
proof fn lemma_nibble_ranges(w: u16)
    by (bit_vector)
    ensures
        nib_q(w) < 16,
        nib_x(w) < 16,
        nib_y(w) < 16,
        nib_n(w) < 16,
        addr_of(w) < 0x1000,
{
}


/// Every instruction the decoding table yields is representable: its
/// operand fields fit their widths.
pub proof fn lemma_spec_decode_wf(w: u16)
    ensures
        match spec_decode(w) {
            Some(i) => i.wf(),
            None => true,
        },
{
    lemma_nibble_ranges(w);
}

/// The four nibbles of a word, most significant first.
pub fn nibbles(word: u16) -> (r: (u8, u8, u8, u8))
    ensures
        r.0 == nib_q(word),
        r.1 == nib_x(word),
        r.2 == nib_y(word),
        r.3 == nib_n(word),
{
    (
        ((word & 0xF000) >> 12) as u8,
        ((word & 0x0F00) >> 8) as u8,
        ((word & 0x00F0) >> 4) as u8,
        (word & 0x000F) as u8,
    )
}

impl Instruction {
    /// Decodes a 16-bit word by its most significant nibble, refined by the
    /// tail nibbles for the 0x0, 0x5, 0x8, 0x9, 0xE and 0xF families.
    /// Returns the instruction the table gives, and `InvalidInstruction`
    /// carrying the word for every other bit pattern.
    pub fn decode(word: u16) -> (r: Result<Instruction, Error>)
        ensures
            r == match spec_decode(word) {
                Some(i) => Ok::<Instruction, Error>(i),
                None => Err::<Instruction, Error>(Error::InvalidInstruction(word)),
            },
            r matches Ok(i) ==> i.wf() && spec_decode(word) == Some(i),
    {
        proof {
            lemma_nibble_ranges(word);
        }
        let (q, x, y, n) = nibbles(word);
        let kk = (word & 0x00FF) as u8;
        let nnn = word & 0x0FFF;

        let inst = if word == 0x00E0 {
            Instruction::Clear
        } else if word == 0x00EE {
            Instruction::Return
        } else if q == 0x0 {
            Instruction::Syscall(nnn)
        } else if q == 0x1 {
            Instruction::Jump(nnn)
        } else if q == 0x2 {
            Instruction::Call(nnn)
        } else if q == 0x3 {
            Instruction::SkipIfEqualImm { vx: x, kk }
        } else if q == 0x4 {
            Instruction::SkipIfNotEqualImm { vx: x, kk }
        } else if q == 0x5 && n == 0x0 {
            Instruction::SkipIfEqual { vx: x, vy: y }
        } else if q == 0x6 {
            Instruction::SetImmediate { vx: x, kk }
        } else if q == 0x7 {
            Instruction::AddImmediate { vx: x, kk }
        } else if q == 0x8 && n == 0x0 {
            Instruction::SetRegister { vx: x, vy: y }
        } else if q == 0x8 && n == 0x1 {
            Instruction::Or { vx: x, vy: y }
        } else if q == 0x8 && n == 0x2 {
            Instruction::And { vx: x, vy: y }
        } else if q == 0x8 && n == 0x3 {
            Instruction::Xor { vx: x, vy: y }
        } else if q == 0x8 && n == 0x4 {
            Instruction::Add { vx: x, vy: y }
        } else if q == 0x8 && n == 0x5 {
            Instruction::Subtract { vx: x, vy: y }
        } else if q == 0x8 && n == 0x6 {
            Instruction::ShiftRight { vx: x, vy: y }
        } else if q == 0x8 && n == 0x7 {
            Instruction::SubtractNegate { vx: x, vy: y }
        } else if q == 0x8 && n == 0xE {
            Instruction::ShiftLeft { vx: x, vy: y }
        } else if q == 0x9 && n == 0x0 {
            Instruction::SkipIfNotEqual { vx: x, vy: y }
        } else if q == 0xA {
            Instruction::SetIndex(nnn)
        } else if q == 0xB {
            Instruction::JumpOffset(nnn)
        } else if q == 0xC {
            Instruction::Rnd { vx: x, kk }
        } else if q == 0xD {
            Instruction::Draw { vx: x, vy: y, n }
        } else if q == 0xE && y == 0x9 && n == 0xE {
            Instruction::SkipIfKey(x)
        } else if q == 0xE && y == 0xA && n == 0x1 {
            Instruction::SkipIfNotKey(x)
        } else if q == 0xF && y == 0x0 && n == 0x7 {
            Instruction::LoadDelayTimer(x)
        } else if q == 0xF && y == 0x0 && n == 0xA {
            Instruction::WaitForKey(x)
        } else if q == 0xF && y == 0x1 && n == 0x5 {
            Instruction::SetDelayTimer(x)
        } else if q == 0xF && y == 0x1 && n == 0x8 {
            Instruction::SetSoundTimer(x)
        } else if q == 0xF && y == 0x1 && n == 0xE {
            Instruction::AddIndex(x)
        } else if q == 0xF && y == 0x2 && n == 0x9 {
            Instruction::LoadFont(x)
        } else if q == 0xF && y == 0x3 && n == 0x3 {
            Instruction::StoreBcd(x)
        } else if q == 0xF && y == 0x5 && n == 0x5 {
            Instruction::StoreRegisters(x)
        } else if q == 0xF && y == 0x6 && n == 0x5 {
            Instruction::LoadRegisters(x)
        } else {
            return Err(Error::InvalidInstruction(word));
        };

        Ok(inst)
    }
}

} // verus!
