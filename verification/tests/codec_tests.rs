use std::collections::HashMap;

use chip8_vm::instruction::Instruction;
use chip8_vm::instruction::decoder::nibbles;

fn opcode_table() -> HashMap<u16, Instruction> {
    HashMap::from([
        (0x00E0, Instruction::Clear),
        (0x00EE, Instruction::Return),
        (0x0ABC, Instruction::Syscall(0xABC)),
        (0x1ABC, Instruction::Jump(0xABC)),
        (0x2ABC, Instruction::Call(0xABC)),
        (0x3ABC, Instruction::SkipIfEqualImm { vx: 0xA, kk: 0xBC }),
        (0x4ABC, Instruction::SkipIfNotEqualImm { vx: 0xA, kk: 0xBC }),
        (0x5AB0, Instruction::SkipIfEqual { vx: 0xA, vy: 0xB }),
        (0x6ABC, Instruction::SetImmediate { vx: 0xA, kk: 0xBC }),
        (0x7ABC, Instruction::AddImmediate { vx: 0xA, kk: 0xBC }),
        (0x8AB0, Instruction::SetRegister { vx: 0xA, vy: 0xB }),
        (0x8AB1, Instruction::Or { vx: 0xA, vy: 0xB }),
        (0x8AB2, Instruction::And { vx: 0xA, vy: 0xB }),
        (0x8AB3, Instruction::Xor { vx: 0xA, vy: 0xB }),
        (0x8AB4, Instruction::Add { vx: 0xA, vy: 0xB }),
        (0x8AB5, Instruction::Subtract { vx: 0xA, vy: 0xB }),
        (0x8AB6, Instruction::ShiftRight { vx: 0xA, vy: 0xB }),
        (0x8AB7, Instruction::SubtractNegate { vx: 0xA, vy: 0xB }),
        (0x8ABE, Instruction::ShiftLeft { vx: 0xA, vy: 0xB }),
        (0x9AB0, Instruction::SkipIfNotEqual { vx: 0xA, vy: 0xB }),
        (0xAABC, Instruction::SetIndex(0xABC)),
        (0xBABC, Instruction::JumpOffset(0xABC)),
        (0xCABC, Instruction::Rnd { vx: 0xA, kk: 0xBC }),
        (
            0xDABC,
            Instruction::Draw {
                vx: 0xA,
                vy: 0xB,
                n: 0xC,
            },
        ),
        (0xEA9E, Instruction::SkipIfKey(0xA)),
        (0xEAA1, Instruction::SkipIfNotKey(0xA)),
        (0xFA07, Instruction::LoadDelayTimer(0xA)),
        (0xFA0A, Instruction::WaitForKey(0xA)),
        (0xFA15, Instruction::SetDelayTimer(0xA)),
        (0xFA18, Instruction::SetSoundTimer(0xA)),
        (0xFA1E, Instruction::AddIndex(0xA)),
        (0xFA29, Instruction::LoadFont(0xA)),
        (0xFA33, Instruction::StoreBcd(0xA)),
        (0xFA55, Instruction::StoreRegisters(0xA)),
        (0xFA65, Instruction::LoadRegisters(0xA)),
    ])
}

#[test]
fn test_nibbles() {
    let word = 0xE79E as u16; // EX9E
    let n = nibbles(word);
    assert_eq!(0xE, n.0);
    assert_eq!(0x7, n.1);
    assert_eq!(0x9, n.2);
    assert_eq!(0xE, n.3);
}

#[test]
fn test_decode() {
    let table = opcode_table();

    for (opcode, want) in table.iter() {
        let got = Instruction::decode(*opcode).unwrap();
        assert_eq!(*want, got, "failed to decode opcode 0x{:04X}", *opcode)
    }
}

#[test]
fn test_encode() {
    let table = opcode_table();

    for (want, inst) in table.iter() {
        let got = inst.encode();
        assert_eq!(
            *want, got,
            "failed to encode: want: 0x{:04X}, got: 0x{:04X}",
            want, got,
        )
    }
}

#[test]
fn test_decode_rejects_unknown_patterns() {
    for word in [0x5AB1u16, 0x8AB8, 0x9AB9, 0xE000, 0xEAFF, 0xF000, 0xFAFF] {
        match Instruction::decode(word) {
            Err(chip8_vm::error::Error::InvalidInstruction(w)) => assert_eq!(w, word),
            other => panic!("0x{:04X} decoded to {:?}", word, other),
        }
    }
}

#[test]
fn test_every_decodable_word_round_trips() {
    for word in 0..=0xFFFFu16 {
        if let Ok(inst) = Instruction::decode(word) {
            assert_eq!(
                inst.encode(),
                word,
                "0x{:04X} did not survive decode/encode",
                word
            );
        }
    }
}

#[test]
fn test_table_instructions_round_trip() {
    for (_, inst) in opcode_table() {
        let back = Instruction::decode(inst.encode()).unwrap();
        assert_eq!(inst, back);
    }
}
