use chip8_vm::error::Error;
use chip8_vm::instruction::Instruction;
use chip8_vm::keyboard::Keyboard;
use chip8_vm::machine::Machine;
use chip8_vm::machine::config::Config;
use chip8_vm::machine::quircks::Quircks;
use chip8_vm::program::Program;

fn load(machine: &mut Machine, instructions: Vec<Instruction>) {
    let program = Program(instructions);
    machine.load_program(program.to_words()).unwrap();
}

#[test]
fn it_works() {
    let program = Program(vec![
        Instruction::SetImmediate { vx: 0, kk: 0x1 },
        Instruction::SetImmediate { vx: 1, kk: 0x1 },
        Instruction::LoadFont(0),
        Instruction::Draw { vx: 0, vy: 1, n: 5 },
    ]);

    let mut machine = Machine::new();
    machine.load_program(program.to_words()).unwrap();

    // run all instructions
    for _ in 0..4 {
        machine.step().unwrap();
    }

    let screen = machine.dump_screen();
    println!("{}", screen);

    let registers = machine.get_registers();
    assert_eq!(
        vec![
            0x1u8, 0x1, 0x0, 0x0, 0x0, 0x0, 0x0, 0x0, 0x0, 0x0, 0x0, 0x0, 0x0, 0x0, 0x0, 0x0
        ],
        *registers
    );
}

#[test]
fn test_font_draw_scenario() {
    // program {6000 01, 6101 01, F029, D015} from 0x200
    let mut machine = Machine::new();
    load(
        &mut machine,
        vec![
            Instruction::SetImmediate { vx: 0, kk: 0x1 },
            Instruction::SetImmediate { vx: 1, kk: 0x1 },
            Instruction::LoadFont(0),
            Instruction::Draw { vx: 0, vy: 1, n: 5 },
        ],
    );
    for _ in 0..4 {
        machine.step().unwrap();
    }

    let registers = machine.get_registers();
    assert_eq!(registers[0], 0x1);
    assert_eq!(registers[1], 0x1);
    // no collision on a blank screen
    assert_eq!(registers[0xF], 0x0);

    // F029 loads the font for the value in V0, which holds 1, so the "1"
    // glyph (20 60 20 20 70) lands with its box anchored at (1, 1)
    let display = machine.get_display();
    let expected_rows: [u8; 5] = [0x20, 0x60, 0x20, 0x20, 0x70];
    for (row, bits) in expected_rows.iter().enumerate() {
        for col in 0..8u8 {
            let expected = (bits >> (7 - col)) & 1 == 1;
            let got = display.get_pixel(1 + col, 1 + row as u8);
            assert_eq!(got, expected, "pixel ({}, {})", 1 + col, 1 + row);
        }
    }
    // nothing lands outside the sprite box
    assert!(!display.get_pixel(0, 0));
    assert!(!display.get_pixel(0, 1));
}

#[test]
fn test_carry_flag_scenario() {
    // V0=0xFF, V1=0x01, 8014: V0=0x00, VF=1
    let mut machine = Machine::new();
    load(
        &mut machine,
        vec![
            Instruction::SetImmediate { vx: 0, kk: 0xFF },
            Instruction::SetImmediate { vx: 1, kk: 0x01 },
            Instruction::Add { vx: 0, vy: 1 },
        ],
    );
    for _ in 0..3 {
        machine.step().unwrap();
    }
    assert_eq!(machine.get_registers()[0], 0x00);
    assert_eq!(machine.get_registers()[0xF], 1);
}

#[test]
fn test_borrow_flag_scenario() {
    // V0=0x05, V1=0x0A, 8015: V0=0xFB, VF=0
    let mut machine = Machine::new();
    load(
        &mut machine,
        vec![
            Instruction::SetImmediate { vx: 0, kk: 0x05 },
            Instruction::SetImmediate { vx: 1, kk: 0x0A },
            Instruction::Subtract { vx: 0, vy: 1 },
        ],
    );
    for _ in 0..3 {
        machine.step().unwrap();
    }
    assert_eq!(machine.get_registers()[0], 0xFB);
    assert_eq!(machine.get_registers()[0xF], 0);

    // then 8017 on V2=0x05, V3=0x0A: V2=0x05, VF=1
    let mut machine = Machine::new();
    load(
        &mut machine,
        vec![
            Instruction::SetImmediate { vx: 2, kk: 0x05 },
            Instruction::SetImmediate { vx: 3, kk: 0x0A },
            Instruction::SubtractNegate { vx: 2, vy: 3 },
        ],
    );
    for _ in 0..3 {
        machine.step().unwrap();
    }
    assert_eq!(machine.get_registers()[2], 0x05);
    assert_eq!(machine.get_registers()[0xF], 1);
}

#[test]
fn test_stack_discipline_scenario() {
    // Call 0x300, then Return from 0x300: PC back to 0x202, SP back to 0.
    let mut machine = Machine::new();
    load(&mut machine, vec![Instruction::Call(0x300)]);

    machine.step().unwrap();
    assert_eq!(machine.get_pc(), 0x300);
    assert_eq!(machine.get_sp(), 1);

    // place a Return at 0x300 and execute it
    let mut machine = Machine::new();
    let mut words = Program(vec![Instruction::Call(0x300)]).to_words();
    let return_word = Instruction::Return.encode();
    // pad up to 0x300 with zero words, then the Return
    while 0x200 + 2 * words.len() < 0x300 {
        words.push(0x0000);
    }
    words.push(return_word);
    machine.load_program(words).unwrap();

    machine.step().unwrap(); // Call
    machine.step().unwrap(); // Return from 0x300
    assert_eq!(machine.get_pc(), 0x202);
    assert_eq!(machine.get_sp(), 0);

    // a second Return underflows
    let mut machine = Machine::new();
    load(&mut machine, vec![Instruction::Return]);
    match machine.step() {
        Err(Error::StackUnderflow) => {}
        other => panic!("expected StackUnderflow, got {:?}", other),
    }
}

#[test]
fn test_skip_arithmetic_scenario() {
    // with V0=0x42, 3042 skips the next instruction (PC += 4 total)
    let mut machine = Machine::new();
    load(
        &mut machine,
        vec![
            Instruction::SetImmediate { vx: 0, kk: 0x42 },
            Instruction::SkipIfEqualImm { vx: 0, kk: 0x42 },
        ],
    );
    machine.step().unwrap();
    let before = machine.get_pc();
    machine.step().unwrap();
    assert_eq!(machine.get_pc(), before + 4);

    // 3043 does not skip
    let mut machine = Machine::new();
    load(
        &mut machine,
        vec![
            Instruction::SetImmediate { vx: 0, kk: 0x42 },
            Instruction::SkipIfEqualImm { vx: 0, kk: 0x43 },
        ],
    );
    machine.step().unwrap();
    let before = machine.get_pc();
    machine.step().unwrap();
    assert_eq!(machine.get_pc(), before + 2);
}

#[test]
fn test_display_collision_scenario() {
    // draw the 5-byte "0" glyph at (0,0) twice: collision, then all-clear
    let mut machine = Machine::new();
    load(
        &mut machine,
        vec![
            Instruction::SetImmediate { vx: 0, kk: 0 },
            Instruction::LoadFont(0),
            Instruction::Draw { vx: 0, vy: 0, n: 5 },
            Instruction::Draw { vx: 0, vy: 0, n: 5 },
        ],
    );
    for _ in 0..3 {
        machine.step().unwrap();
    }
    assert_eq!(machine.get_registers()[0xF], 0);
    machine.step().unwrap();
    assert_eq!(machine.get_registers()[0xF], 1);
    for byte in machine.get_display().framebuffer() {
        assert_eq!(*byte, 0);
    }
}

#[test]
fn test_step_rejects_bad_program_counters() {
    // a fresh machine sits at PC 0, outside the program area
    let mut machine = Machine::new();
    match machine.step() {
        Err(Error::InvalidProgramCounter(pc)) => assert_eq!(pc, 0),
        other => panic!("expected InvalidProgramCounter, got {:?}", other),
    }

    // an odd jump target is rejected on the following step
    let mut machine = Machine::new();
    load(&mut machine, vec![Instruction::Jump(0x251)]);
    machine.step().unwrap();
    match machine.step() {
        Err(Error::UnalignedProgramCounter(pc)) => assert_eq!(pc, 0x251),
        other => panic!("expected UnalignedProgramCounter, got {:?}", other),
    }
}

#[test]
fn test_invalid_instruction_surfaces_word() {
    let mut machine = Machine::new();
    machine.load_program(vec![0x8AB8]).unwrap();
    match machine.step() {
        Err(Error::InvalidInstruction(w)) => assert_eq!(w, 0x8AB8),
        other => panic!("expected InvalidInstruction, got {:?}", other),
    }
}

#[test]
fn test_stack_overflow_after_sixteen_calls() {
    // a call at 0x200 that targets itself nests until the stack fills
    let mut machine = Machine::new();
    load(&mut machine, vec![Instruction::Call(0x200)]);
    for _ in 0..16 {
        machine.step().unwrap();
    }
    assert_eq!(machine.get_sp(), 16);
    match machine.step() {
        Err(Error::StackOverflow) => {}
        other => panic!("expected StackOverflow, got {:?}", other),
    }
}

#[test]
fn test_index_range_errors() {
    let mut machine = Machine::new();
    load(&mut machine, vec![Instruction::SetIndex(0x100)]);
    match machine.step() {
        Err(Error::InvalidIndexAddress(a)) => assert_eq!(a, 0x100),
        other => panic!("expected InvalidIndexAddress, got {:?}", other),
    }

    let mut machine = Machine::new();
    load(
        &mut machine,
        vec![
            Instruction::SetImmediate { vx: 0, kk: 0xFF },
            Instruction::SetIndex(0xF10),
            Instruction::AddIndex(0),
        ],
    );
    for _ in 0..2 {
        machine.step().unwrap();
    }
    match machine.step() {
        Err(Error::IndexOverflow(a)) => assert_eq!(a, 0xF10 + 0xFF),
        other => panic!("expected IndexOverflow, got {:?}", other),
    }
}

#[test]
fn test_load_program_rejects_oversized_roms() {
    let mut machine = Machine::new();
    let words = vec![0x6000u16; 1793];
    match machine.load_program(words) {
        Err(Error::MemoryOutOfBound) => {}
        other => panic!("expected MemoryOutOfBound, got {:?}", other),
    }

    let mut machine = Machine::new();
    let words = vec![0x6000u16; 1792];
    machine.load_program(words).unwrap();
}

#[test]
fn test_store_bcd_writes_digits() {
    let mut machine = Machine::new();
    load(
        &mut machine,
        vec![
            Instruction::SetImmediate { vx: 0, kk: 234 },
            Instruction::SetIndex(0x400),
            Instruction::StoreBcd(0),
        ],
    );
    for _ in 0..3 {
        machine.step().unwrap();
    }
    let mem = machine.get_memory();
    assert_eq!(mem.read(0x400).unwrap(), 2);
    assert_eq!(mem.read(0x401).unwrap(), 3);
    assert_eq!(mem.read(0x402).unwrap(), 4);
}

#[test]
fn test_store_and_load_registers_round_trip() {
    let mut machine = Machine::new();
    load(
        &mut machine,
        vec![
            Instruction::SetImmediate { vx: 0, kk: 0x11 },
            Instruction::SetImmediate { vx: 1, kk: 0x22 },
            Instruction::SetImmediate { vx: 2, kk: 0x33 },
            Instruction::SetIndex(0x500),
            Instruction::StoreRegisters(2),
            Instruction::SetImmediate { vx: 0, kk: 0 },
            Instruction::SetImmediate { vx: 1, kk: 0 },
            Instruction::SetImmediate { vx: 2, kk: 0 },
            Instruction::LoadRegisters(2),
        ],
    );
    for _ in 0..9 {
        machine.step().unwrap();
    }
    // I itself stays unchanged by the copies
    assert_eq!(machine.get_index(), 0x500);
    assert_eq!(machine.get_registers()[0], 0x11);
    assert_eq!(machine.get_registers()[1], 0x22);
    assert_eq!(machine.get_registers()[2], 0x33);
}

#[test]
fn test_shift_quirk_selects_operand() {
    // quirk off: VX takes VY shifted, VF the displaced bit of VY
    let mut machine = Machine::new();
    load(
        &mut machine,
        vec![
            Instruction::SetImmediate { vx: 0, kk: 0xAA },
            Instruction::SetImmediate { vx: 1, kk: 0x03 },
            Instruction::ShiftRight { vx: 0, vy: 1 },
        ],
    );
    for _ in 0..3 {
        machine.step().unwrap();
    }
    assert_eq!(machine.get_registers()[0], 0x01);
    assert_eq!(machine.get_registers()[0xF], 1);

    // quirk on: VX shifts in place, VF its own displaced bit
    let cfg = Config {
        quircks: Quircks { shift: true },
        cpu_frequency: 500,
        timer_frequency: 60,
    };
    let mut machine = Machine::with_config(cfg);
    load(
        &mut machine,
        vec![
            Instruction::SetImmediate { vx: 0, kk: 0xAA },
            Instruction::SetImmediate { vx: 1, kk: 0x03 },
            Instruction::ShiftRight { vx: 0, vy: 1 },
        ],
    );
    for _ in 0..3 {
        machine.step().unwrap();
    }
    assert_eq!(machine.get_registers()[0], 0x55);
    assert_eq!(machine.get_registers()[0xF], 0);
}

#[test]
fn test_wait_for_key_busy_waits() {
    let mut machine = Machine::new();
    load(&mut machine, vec![Instruction::WaitForKey(0)]);

    // no key held: the instruction re-executes in place
    machine.step().unwrap();
    assert_eq!(machine.get_pc(), 0x200);
    machine.step().unwrap();
    assert_eq!(machine.get_pc(), 0x200);

    // key 7 held: V0 receives it and PC moves on
    machine.keys = Keyboard(1 << 7);
    machine.step().unwrap();
    assert_eq!(machine.get_pc(), 0x202);
    assert_eq!(machine.get_registers()[0], 7);
}

#[test]
fn test_rnd_masks_and_is_seed_deterministic() {
    // kk = 0: whatever the generator yields, the register is zeroed
    let mut machine = Machine::with_seed(42);
    load(
        &mut machine,
        vec![
            Instruction::SetImmediate { vx: 3, kk: 0x77 },
            Instruction::Rnd { vx: 3, kk: 0x00 },
        ],
    );
    for _ in 0..2 {
        machine.step().unwrap();
    }
    assert_eq!(machine.get_registers()[3], 0);

    // the same seed yields the same draws
    let rom = vec![
        Instruction::Rnd { vx: 0, kk: 0xFF },
        Instruction::Rnd { vx: 1, kk: 0xFF },
    ];
    let mut m1 = Machine::with_seed(7);
    load(&mut m1, rom.clone());
    let mut m2 = Machine::with_seed(7);
    load(&mut m2, rom);
    for _ in 0..2 {
        m1.step().unwrap();
        m2.step().unwrap();
    }
    assert_eq!(m1.get_registers()[0], m2.get_registers()[0]);
    assert_eq!(m1.get_registers()[1], m2.get_registers()[1]);
}

#[test]
fn test_reset_preserves_rng_stream() {
    // two machines with one seed stay in lockstep even if one resets
    let rom = vec![Instruction::Rnd { vx: 0, kk: 0xFF }];
    let mut m1 = Machine::with_seed(99);
    let mut m2 = Machine::with_seed(99);
    load(&mut m1, rom.clone());
    m1.reset();
    m1.load_program(Program(rom.clone()).to_words()).unwrap();
    load(&mut m2, rom);
    m1.step().unwrap();
    m2.step().unwrap();
    assert_eq!(m1.get_registers()[0], m2.get_registers()[0]);
}

#[test]
fn test_add_reads_flag_before_writing_it() {
    // with VY = VF, the sum uses the old flag value and the flag then
    // reports that sum's carry
    let mut machine = Machine::new();
    load(
        &mut machine,
        vec![
            Instruction::SetImmediate { vx: 0, kk: 5 },
            Instruction::SetImmediate { vx: 0xF, kk: 3 },
            Instruction::Add { vx: 0, vy: 0xF },
        ],
    );
    for _ in 0..3 {
        machine.step().unwrap();
    }
    assert_eq!(machine.get_registers()[0], 8);
    assert_eq!(machine.get_registers()[0xF], 0);
}

#[test]
fn test_skip_if_key_masks_register_to_low_nibble() {
    // with V0 = 0x12 and key 2 held, EX9E consults keys[0x12 & 0xF]
    let mut machine = Machine::new();
    load(
        &mut machine,
        vec![
            Instruction::SetImmediate { vx: 0, kk: 0x12 },
            Instruction::SkipIfKey(0),
        ],
    );
    machine.keys = Keyboard(1 << 2);
    machine.step().unwrap();
    let before = machine.get_pc();
    machine.step().unwrap();
    assert_eq!(machine.get_pc(), before + 4);

    // and EXA1 does not skip for the same state
    let mut machine = Machine::new();
    load(
        &mut machine,
        vec![
            Instruction::SetImmediate { vx: 0, kk: 0x12 },
            Instruction::SkipIfNotKey(0),
        ],
    );
    machine.keys = Keyboard(1 << 2);
    machine.step().unwrap();
    let before = machine.get_pc();
    machine.step().unwrap();
    assert_eq!(machine.get_pc(), before + 2);
}

#[test]
fn test_failed_stores_change_nothing() {
    // a StoreBcd whose range would leave memory fails before writing
    let mut machine = Machine::new();
    load(
        &mut machine,
        vec![
            Instruction::SetImmediate { vx: 0, kk: 123 },
            Instruction::SetIndex(0xFFE),
            Instruction::StoreBcd(0),
        ],
    );
    for _ in 0..2 {
        machine.step().unwrap();
    }
    match machine.step() {
        Err(Error::MemoryOutOfBound) => {}
        other => panic!("expected MemoryOutOfBound, got {:?}", other),
    }
    assert_eq!(machine.get_memory().read(0xFFE).unwrap(), 0);
    assert_eq!(machine.get_memory().read(0xFFF).unwrap(), 0);

    // the same for StoreRegisters and LoadRegisters
    let mut machine = Machine::new();
    load(
        &mut machine,
        vec![
            Instruction::SetImmediate { vx: 0, kk: 0x11 },
            Instruction::SetIndex(0xFFE),
            Instruction::StoreRegisters(2),
        ],
    );
    for _ in 0..2 {
        machine.step().unwrap();
    }
    match machine.step() {
        Err(Error::MemoryOutOfBound) => {}
        other => panic!("expected MemoryOutOfBound, got {:?}", other),
    }
    assert_eq!(machine.get_memory().read(0xFFE).unwrap(), 0);

    let mut machine = Machine::new();
    load(
        &mut machine,
        vec![
            Instruction::SetImmediate { vx: 2, kk: 0x77 },
            Instruction::SetIndex(0xFFE),
            Instruction::LoadRegisters(2),
        ],
    );
    for _ in 0..2 {
        machine.step().unwrap();
    }
    match machine.step() {
        Err(Error::MemoryOutOfBound) => {}
        other => panic!("expected MemoryOutOfBound, got {:?}", other),
    }
    assert_eq!(machine.get_registers()[2], 0x77);
}
