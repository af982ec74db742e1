use vstd::prelude::*;

pub mod decoder;
pub mod encoder;
pub mod laws;

verus! {

// Operand field conventions, following the 16-bit word layout:
//   NNN is a 12-bit address, KK an 8-bit immediate,
//   X and Y 4-bit register selectors, N a 4-bit nibble.
// Each letter of an opcode pattern such as 1NNN stands for one hex digit.
/// The closed set of machine instructions, one variant per documented
/// 16-bit opcode pattern.
#[derive(Debug, Copy, Clone, PartialEq, Eq, Structural)]
pub enum Instruction {
    Clear,        // 00E0
    Return,       // 00EE
    Syscall(u16), // 0NNN

    Jump(u16),                            // 1NNN
    Call(u16),                            // 2NNN
    SkipIfEqualImm { vx: u8, kk: u8 },    // 3XKK: skip next if Vx == KK
    SkipIfNotEqualImm { vx: u8, kk: u8 }, // 4XKK: skip next if Vx != KK
    SkipIfEqual { vx: u8, vy: u8 },       // 5XY0: skip next if Vx == Vy

    SetImmediate { vx: u8, kk: u8 }, // 6XKK: Vx = KK
    AddImmediate { vx: u8, kk: u8 }, // 7XKK: Vx += KK

    SetRegister { vx: u8, vy: u8 },    // 8XY0: Vx = Vy
    Or { vx: u8, vy: u8 },             // 8XY1: Vx |= Vy
    And { vx: u8, vy: u8 },            // 8XY2: Vx &= Vy
    Xor { vx: u8, vy: u8 },            // 8XY3: Vx ^= Vy
    Add { vx: u8, vy: u8 },            // 8XY4: Vx += Vy, Vf = carry
    Subtract { vx: u8, vy: u8 },       // 8XY5: Vf = (Vx >= Vy) ? 1 : 0, Vx = Vx - Vy
    ShiftRight { vx: u8, vy: u8 },     // 8XY6: Vf = low bit, shift right by one
    SubtractNegate { vx: u8, vy: u8 }, // 8XY7: Vf = (Vy >= Vx) ? 1 : 0, Vx = Vy - Vx
    ShiftLeft { vx: u8, vy: u8 },      // 8XYE: Vf = high bit, shift left by one

    SkipIfNotEqual { vx: u8, vy: u8 }, // 9XY0: skip next if Vx != Vy

    SetIndex(u16),   // ANNN: I = NNN
    JumpOffset(u16), // BNNN: pc = V0 + NNN

    Rnd { vx: u8, kk: u8 },         // CXKK: Vx = rand(0,255) & KK
    Draw { vx: u8, vy: u8, n: u8 }, // DXYN: draw mem[I..I+N] at (Vx, Vy)
    SkipIfKey(u8),                  // EX9E: skip next if keyPressed(Vx)
    SkipIfNotKey(u8),               // EXA1: skip next if !keyPressed(Vx)
    LoadDelayTimer(u8),             // FX07: Vx = delay_timer
    WaitForKey(u8),                 // FX0A: Vx = first pressed key, else repeat
    SetDelayTimer(u8),              // FX15: delay_timer = Vx
    SetSoundTimer(u8),              // FX18: sound_timer = Vx
    AddIndex(u8),                   // FX1E: I = I + Vx
    LoadFont(u8),                   // FX29: I = font address of digit Vx
    StoreBcd(u8), // FX33: mem[I] = Vx / 100, mem[I+1] = (Vx / 10) % 10, mem[I+2] = Vx % 10
    StoreRegisters(u8), // FX55: mem[I] = V0, mem[I+1] = V1, ..., mem[I+X] = Vx
    LoadRegisters(u8), // FX65: V0 = mem[I], V1 = mem[I+1], ..., Vx = mem[I+X]
}

impl Instruction {
    /// A representable instruction: every operand field fits its width in
    /// the 16-bit word (X, Y and N are nibbles, NNN is 12 bits). Decoding
    /// only ever produces representable instructions.
    pub open spec fn wf(self) -> bool {
        match self {
            Instruction::Clear => true,
            Instruction::Return => true,
            Instruction::Syscall(nnn) => nnn < 0x1000,
            Instruction::Jump(nnn) => nnn < 0x1000,
            Instruction::Call(nnn) => nnn < 0x1000,
            Instruction::SkipIfEqualImm { vx, kk } => vx < 16,
            Instruction::SkipIfNotEqualImm { vx, kk } => vx < 16,
            Instruction::SkipIfEqual { vx, vy } => vx < 16 && vy < 16,
            Instruction::SetImmediate { vx, kk } => vx < 16,
            Instruction::AddImmediate { vx, kk } => vx < 16,
            Instruction::SetRegister { vx, vy } => vx < 16 && vy < 16,
            Instruction::Or { vx, vy } => vx < 16 && vy < 16,
            Instruction::And { vx, vy } => vx < 16 && vy < 16,
            Instruction::Xor { vx, vy } => vx < 16 && vy < 16,
            Instruction::Add { vx, vy } => vx < 16 && vy < 16,
            Instruction::Subtract { vx, vy } => vx < 16 && vy < 16,
            Instruction::ShiftRight { vx, vy } => vx < 16 && vy < 16,
            Instruction::SubtractNegate { vx, vy } => vx < 16 && vy < 16,
            Instruction::ShiftLeft { vx, vy } => vx < 16 && vy < 16,
            Instruction::SkipIfNotEqual { vx, vy } => vx < 16 && vy < 16,
            Instruction::SetIndex(nnn) => nnn < 0x1000,
            Instruction::JumpOffset(nnn) => nnn < 0x1000,
            Instruction::Rnd { vx, kk } => vx < 16,
            Instruction::Draw { vx, vy, n } => vx < 16 && vy < 16 && n < 16,
            Instruction::SkipIfKey(vx) => vx < 16,
            Instruction::SkipIfNotKey(vx) => vx < 16,
            Instruction::LoadDelayTimer(vx) => vx < 16,
            Instruction::WaitForKey(vx) => vx < 16,
            Instruction::SetDelayTimer(vx) => vx < 16,
            Instruction::SetSoundTimer(vx) => vx < 16,
            Instruction::AddIndex(vx) => vx < 16,
            Instruction::LoadFont(vx) => vx < 16,
            Instruction::StoreBcd(vx) => vx < 16,
            Instruction::StoreRegisters(vx) => vx < 16,
            Instruction::LoadRegisters(vx) => vx < 16,
        }
    }
}

} // verus!
