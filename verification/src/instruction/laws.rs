use vstd::prelude::*;

use super::Instruction;
use super::decoder::{addr_of, low_byte, nib_n, nib_q, nib_x, nib_y, spec_decode};
use super::encoder::{enc_nnn, enc_xkk, enc_xyn, spec_encode};

verus! {

/// Any word is recovered bit for bit by repacking its own fields in any of
/// the three dynamic shapes, and its derived fields agree arithmetically
/// with its nibbles.
proof fn lemma_word_recombine(w: u16)
    by (bit_vector)
    ensures
        nib_q(w) < 16,
        nib_x(w) < 16,
        nib_y(w) < 16,
        nib_n(w) < 16,
        addr_of(w) < 0x1000,
        enc_xyn(nib_q(w), nib_x(w), nib_y(w), nib_n(w)) == w,
        enc_xkk(nib_q(w), nib_x(w), low_byte(w)) == w,
        enc_nnn(nib_q(w), addr_of(w)) == w,
        low_byte(w) as u16 == (nib_y(w) as u16) * 16 + (nib_n(w) as u16),
        addr_of(w) == (nib_x(w) as u16) * 256 + (low_byte(w) as u16),
{
}

/// Unpacking a packed QXYW word gives back the packed fields.
proof fn lemma_unpack_xyn(q: u8, x: u8, y: u8, n: u8)
    by (bit_vector)
    requires
        q < 16,
        x < 16,
        y < 16,
        n < 16,
    ensures
        nib_q(enc_xyn(q, x, y, n)) == q,
        nib_x(enc_xyn(q, x, y, n)) == x,
        nib_y(enc_xyn(q, x, y, n)) == y,
        nib_n(enc_xyn(q, x, y, n)) == n,
{
}

/// Unpacking a packed QXKK word gives back the packed fields.
proof fn lemma_unpack_xkk(q: u8, x: u8, kk: u8)
    by (bit_vector)
    requires
        q < 16,
        x < 16,
    ensures
        nib_q(enc_xkk(q, x, kk)) == q,
        nib_x(enc_xkk(q, x, kk)) == x,
        low_byte(enc_xkk(q, x, kk)) == kk,
        nib_y(enc_xkk(q, x, kk)) as u16 == (kk as u16) / 16,
        nib_n(enc_xkk(q, x, kk)) as u16 == (kk as u16) % 16,
{
}

/// Unpacking a packed QNNN word gives back the packed fields.
proof fn lemma_unpack_nnn(q: u8, nnn: u16)
    by (bit_vector)
    requires
        q < 16,
        nnn < 0x1000,
    ensures
        nib_q(enc_nnn(q, nnn)) == q,
        addr_of(enc_nnn(q, nnn)) == nnn,
        nib_x(enc_nnn(q, nnn)) as u16 == nnn / 256,
        nib_y(enc_nnn(q, nnn)) as u16 == (nnn / 16) % 16,
        nib_n(enc_nnn(q, nnn)) as u16 == nnn % 16,
{
}

/// The two special system words hold a zero leading nibble and carry the
/// Clear and Return tails as their address fields.
proof fn lemma_special_words()
    by (bit_vector)
    ensures
        nib_q(0x00E0u16) == 0,
        nib_q(0x00EEu16) == 0,
        addr_of(0x00E0u16) == 0xE0,
        addr_of(0x00EEu16) == 0xEE,
{
}

/// Round trip from instructions: every representable instruction decodes
/// back from its own encoding. The two syscalls whose address collides
/// with the Clear and Return words are the sole exceptions: their
/// encodings decode to Clear and Return instead.
pub proof fn lemma_decode_encode(i: Instruction)
    requires
        i.wf(),
        i != Instruction::Syscall(0x0E0),
        i != Instruction::Syscall(0x0EE),
    ensures
        spec_decode(spec_encode(i)) == Some(i),
{
    let w = spec_encode(i);
    lemma_special_words();
    match i {
        Instruction::Clear => {
        },
        Instruction::Return => {
        },
        Instruction::Syscall(nnn) => {
            lemma_unpack_nnn(0x0, nnn);
        },
        Instruction::Jump(nnn) => {
            lemma_unpack_nnn(0x1, nnn);
        },
        Instruction::Call(nnn) => {
            lemma_unpack_nnn(0x2, nnn);
        },
        Instruction::SkipIfEqualImm { vx, kk } => {
            lemma_unpack_xkk(0x3, vx, kk);
        },
        Instruction::SkipIfNotEqualImm { vx, kk } => {
            lemma_unpack_xkk(0x4, vx, kk);
        },
        Instruction::SkipIfEqual { vx, vy } => {
            lemma_unpack_xyn(0x5, vx, vy, 0x0);
        },
        Instruction::SetImmediate { vx, kk } => {
            lemma_unpack_xkk(0x6, vx, kk);
        },
        Instruction::AddImmediate { vx, kk } => {
            lemma_unpack_xkk(0x7, vx, kk);
        },
        Instruction::SetRegister { vx, vy } => {
            lemma_unpack_xyn(0x8, vx, vy, 0x0);
        },
        Instruction::Or { vx, vy } => {
            lemma_unpack_xyn(0x8, vx, vy, 0x1);
        },
        Instruction::And { vx, vy } => {
            lemma_unpack_xyn(0x8, vx, vy, 0x2);
        },
        Instruction::Xor { vx, vy } => {
            lemma_unpack_xyn(0x8, vx, vy, 0x3);
        },
        Instruction::Add { vx, vy } => {
            lemma_unpack_xyn(0x8, vx, vy, 0x4);
        },
        Instruction::Subtract { vx, vy } => {
            lemma_unpack_xyn(0x8, vx, vy, 0x5);
        },
        Instruction::ShiftRight { vx, vy } => {
            lemma_unpack_xyn(0x8, vx, vy, 0x6);
        },
        Instruction::SubtractNegate { vx, vy } => {
            lemma_unpack_xyn(0x8, vx, vy, 0x7);
        },
        Instruction::ShiftLeft { vx, vy } => {
            lemma_unpack_xyn(0x8, vx, vy, 0xE);
        },
        Instruction::SkipIfNotEqual { vx, vy } => {
            lemma_unpack_xyn(0x9, vx, vy, 0x0);
        },
        Instruction::SetIndex(nnn) => {
            lemma_unpack_nnn(0xA, nnn);
        },
        Instruction::JumpOffset(nnn) => {
            lemma_unpack_nnn(0xB, nnn);
        },
        Instruction::Rnd { vx, kk } => {
            lemma_unpack_xkk(0xC, vx, kk);
        },
        Instruction::Draw { vx, vy, n } => {
            lemma_unpack_xyn(0xD, vx, vy, n);
        },
        Instruction::SkipIfKey(vx) => {
            lemma_unpack_xkk(0xE, vx, 0x9E);
        },
        Instruction::SkipIfNotKey(vx) => {
            lemma_unpack_xkk(0xE, vx, 0xA1);
        },
        Instruction::LoadDelayTimer(vx) => {
            lemma_unpack_xkk(0xF, vx, 0x07);
        },
        Instruction::WaitForKey(vx) => {
            lemma_unpack_xkk(0xF, vx, 0x0A);
        },
        Instruction::SetDelayTimer(vx) => {
            lemma_unpack_xkk(0xF, vx, 0x15);
        },
        Instruction::SetSoundTimer(vx) => {
            lemma_unpack_xkk(0xF, vx, 0x18);
        },
        Instruction::AddIndex(vx) => {
            lemma_unpack_xkk(0xF, vx, 0x1E);
        },
        Instruction::LoadFont(vx) => {
            lemma_unpack_xkk(0xF, vx, 0x29);
        },
        Instruction::StoreBcd(vx) => {
            lemma_unpack_xkk(0xF, vx, 0x33);
        },
        Instruction::StoreRegisters(vx) => {
            lemma_unpack_xkk(0xF, vx, 0x55);
        },
        Instruction::LoadRegisters(vx) => {
            lemma_unpack_xkk(0xF, vx, 0x65);
        },
    }
}

/// Round trip from words: every word that decodes successfully is restored
/// bit for bit by encoding the decoded instruction.
pub proof fn lemma_encode_decode(w: u16)
    ensures
        match spec_decode(w) {
            Some(i) => spec_encode(i) == w,
            None => true,
        },
{
    lemma_word_recombine(w);
}

} // verus!
