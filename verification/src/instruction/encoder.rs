use vstd::prelude::*;

use super::Instruction;

verus! {

/// A word of the shape QNNN: one constant nibble and a 12-bit address.
pub open spec fn enc_nnn(q: u8, nnn: u16) -> u16 {
    ((q as u16) << 12) | (nnn & 0xFFF)
}

/// A word of the shape QXKK: a constant nibble, a register selector and a
/// byte (an immediate or a one-byte constant).
pub open spec fn enc_xkk(q: u8, x: u8, kk: u8) -> u16 {
    ((q as u16) << 12) | ((x as u16) << 8) | (kk as u16)
}

/// A word of the shape QXYW: a constant nibble, two register selectors and
/// a final nibble (an operand or a one-nibble constant).
pub open spec fn enc_xyn(q: u8, x: u8, y: u8, n: u8) -> u16 {
    ((q as u16) << 12) | ((x as u16) << 8) | ((y as u16) << 4) | (n as u16)
}

/// The encoding table: the one 16-bit word each variant maps back to.
/// Encoding is total; there is no error path.
pub open spec fn spec_encode(i: Instruction) -> u16 {
    match i {
        Instruction::Clear => 0x00E0,
        Instruction::Return => 0x00EE,
        Instruction::Syscall(nnn) => enc_nnn(0x0, nnn),
        Instruction::Jump(nnn) => enc_nnn(0x1, nnn),
        Instruction::Call(nnn) => enc_nnn(0x2, nnn),
        Instruction::SkipIfEqualImm { vx, kk } => enc_xkk(0x3, vx, kk),
        Instruction::SkipIfNotEqualImm { vx, kk } => enc_xkk(0x4, vx, kk),
        Instruction::SkipIfEqual { vx, vy } => enc_xyn(0x5, vx, vy, 0x0),
        Instruction::SetImmediate { vx, kk } => enc_xkk(0x6, vx, kk),
        Instruction::AddImmediate { vx, kk } => enc_xkk(0x7, vx, kk),
        Instruction::SetRegister { vx, vy } => enc_xyn(0x8, vx, vy, 0x0),
        Instruction::Or { vx, vy } => enc_xyn(0x8, vx, vy, 0x1),
        Instruction::And { vx, vy } => enc_xyn(0x8, vx, vy, 0x2),
        Instruction::Xor { vx, vy } => enc_xyn(0x8, vx, vy, 0x3),
        Instruction::Add { vx, vy } => enc_xyn(0x8, vx, vy, 0x4),
        Instruction::Subtract { vx, vy } => enc_xyn(0x8, vx, vy, 0x5),
        Instruction::ShiftRight { vx, vy } => enc_xyn(0x8, vx, vy, 0x6),
        Instruction::SubtractNegate { vx, vy } => enc_xyn(0x8, vx, vy, 0x7),
        Instruction::ShiftLeft { vx, vy } => enc_xyn(0x8, vx, vy, 0xE),
        Instruction::SkipIfNotEqual { vx, vy } => enc_xyn(0x9, vx, vy, 0x0),
        Instruction::SetIndex(nnn) => enc_nnn(0xA, nnn),
        Instruction::JumpOffset(nnn) => enc_nnn(0xB, nnn),
        Instruction::Rnd { vx, kk } => enc_xkk(0xC, vx, kk),
        Instruction::Draw { vx, vy, n } => enc_xyn(0xD, vx, vy, n),
        Instruction::SkipIfKey(vx) => enc_xkk(0xE, vx, 0x9E),
        Instruction::SkipIfNotKey(vx) => enc_xkk(0xE, vx, 0xA1),
        Instruction::LoadDelayTimer(vx) => enc_xkk(0xF, vx, 0x07),
        Instruction::WaitForKey(vx) => enc_xkk(0xF, vx, 0x0A),
        Instruction::SetDelayTimer(vx) => enc_xkk(0xF, vx, 0x15),
        Instruction::SetSoundTimer(vx) => enc_xkk(0xF, vx, 0x18),
        Instruction::AddIndex(vx) => enc_xkk(0xF, vx, 0x1E),
        Instruction::LoadFont(vx) => enc_xkk(0xF, vx, 0x29),
        Instruction::StoreBcd(vx) => enc_xkk(0xF, vx, 0x33),
        Instruction::StoreRegisters(vx) => enc_xkk(0xF, vx, 0x55),
        Instruction::LoadRegisters(vx) => enc_xkk(0xF, vx, 0x65),
    }
}

/// The word shapes an instruction can assemble into, before the fields are
/// packed: a full constant, Q plus an address, Q plus X and a byte, or Q
/// plus X, Y and a final nibble.
enum Opcode {
    Qqqq(u16),
    Qnnn(u8, u16),
    Qxkk(u8, u8, u8),
    Qxyw(u8, u8, u8, u8),
}

/// What a shape packs to, bit for bit.
spec fn spec_opcode_word(op: Opcode) -> u16 {
    match op {
        Opcode::Qqqq(w) => w,
        Opcode::Qnnn(q, nnn) => enc_nnn(q, nnn),
        Opcode::Qxkk(q, x, kk) => enc_xkk(q, x, kk),
        Opcode::Qxyw(q, x, y, n) => enc_xyn(q, x, y, n),
    }
}

/// Packs a shape into its word.
fn opcode_word(op: Opcode) -> (r: u16)
    ensures
        r == spec_opcode_word(op),
{
    match op {
        Opcode::Qqqq(w) => w,
        Opcode::Qnnn(q, nnn) => ((q as u16) << 12) | (nnn & 0xFFF),
        Opcode::Qxkk(q, x, kk) => ((q as u16) << 12) | ((x as u16) << 8) | (kk as u16),
        Opcode::Qxyw(q, x, y, n) => ((q as u16) << 12) | ((x as u16) << 8) | ((y as u16) << 4) | (
        n as u16),
    }
}

impl Instruction {
    /// Encodes the instruction into its unique 16-bit word per the opcode
    /// table. Encoding is total.
    pub fn encode(&self) -> (r: u16)
        ensures
            r == spec_encode(*self),
    {
        let op = match *self {
            Instruction::Clear => Opcode::Qqqq(0x00E0),
            Instruction::Return => Opcode::Qqqq(0x00EE),
            Instruction::Syscall(nnn) => Opcode::Qnnn(0x0, nnn),
            Instruction::Jump(nnn) => Opcode::Qnnn(0x1, nnn),
            Instruction::Call(nnn) => Opcode::Qnnn(0x2, nnn),
            Instruction::SkipIfEqualImm { vx, kk } => Opcode::Qxkk(0x3, vx, kk),
            Instruction::SkipIfNotEqualImm { vx, kk } => Opcode::Qxkk(0x4, vx, kk),
            Instruction::SkipIfEqual { vx, vy } => Opcode::Qxyw(0x5, vx, vy, 0x0),
            Instruction::SetImmediate { vx, kk } => Opcode::Qxkk(0x6, vx, kk),
            Instruction::AddImmediate { vx, kk } => Opcode::Qxkk(0x7, vx, kk),
            Instruction::SetRegister { vx, vy } => Opcode::Qxyw(0x8, vx, vy, 0x0),
            Instruction::Or { vx, vy } => Opcode::Qxyw(0x8, vx, vy, 0x1),
            Instruction::And { vx, vy } => Opcode::Qxyw(0x8, vx, vy, 0x2),
            Instruction::Xor { vx, vy } => Opcode::Qxyw(0x8, vx, vy, 0x3),
            Instruction::Add { vx, vy } => Opcode::Qxyw(0x8, vx, vy, 0x4),
            Instruction::Subtract { vx, vy } => Opcode::Qxyw(0x8, vx, vy, 0x5),
            Instruction::ShiftRight { vx, vy } => Opcode::Qxyw(0x8, vx, vy, 0x6),
            Instruction::SubtractNegate { vx, vy } => Opcode::Qxyw(0x8, vx, vy, 0x7),
            Instruction::ShiftLeft { vx, vy } => Opcode::Qxyw(0x8, vx, vy, 0xE),
            Instruction::SkipIfNotEqual { vx, vy } => Opcode::Qxyw(0x9, vx, vy, 0x0),
            Instruction::SetIndex(nnn) => Opcode::Qnnn(0xA, nnn),
            Instruction::JumpOffset(nnn) => Opcode::Qnnn(0xB, nnn),
            Instruction::Rnd { vx, kk } => Opcode::Qxkk(0xC, vx, kk),
            Instruction::Draw { vx, vy, n } => Opcode::Qxyw(0xD, vx, vy, n),
            Instruction::SkipIfKey(vx) => Opcode::Qxkk(0xE, vx, 0x9E),
            Instruction::SkipIfNotKey(vx) => Opcode::Qxkk(0xE, vx, 0xA1),
            Instruction::LoadDelayTimer(vx) => Opcode::Qxkk(0xF, vx, 0x07),
            Instruction::WaitForKey(vx) => Opcode::Qxkk(0xF, vx, 0x0A),
            Instruction::SetDelayTimer(vx) => Opcode::Qxkk(0xF, vx, 0x15),
            Instruction::SetSoundTimer(vx) => Opcode::Qxkk(0xF, vx, 0x18),
            Instruction::AddIndex(vx) => Opcode::Qxkk(0xF, vx, 0x1E),
            Instruction::LoadFont(vx) => Opcode::Qxkk(0xF, vx, 0x29),
            Instruction::StoreBcd(vx) => Opcode::Qxkk(0xF, vx, 0x33),
            Instruction::StoreRegisters(vx) => Opcode::Qxkk(0xF, vx, 0x55),
            Instruction::LoadRegisters(vx) => Opcode::Qxkk(0xF, vx, 0x65),
        };
        opcode_word(op)
    }
}

} // verus!
