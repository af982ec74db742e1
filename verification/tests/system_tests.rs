use chip8_vm::display::Display;
use chip8_vm::error::Error;
use chip8_vm::instruction::Instruction;
use chip8_vm::keyboard::Keyboard;
use chip8_vm::machine::Machine;
use chip8_vm::memory::Memory;
use chip8_vm::platform::{ExecutionMode, Platform};
use chip8_vm::program::Program;

#[test]
fn test_memory_bounds_and_word_round_trip() {
    let mut mem = Memory::new();

    mem.write(0x300, 0xAB).unwrap();
    assert_eq!(mem.read(0x300).unwrap(), 0xAB);

    match mem.read(0x1000) {
        Err(Error::MemoryOutOfBound) => {}
        other => panic!("expected MemoryOutOfBound, got {:?}", other),
    }
    match mem.write(0x1000, 1) {
        Err(Error::MemoryOutOfBound) => {}
        other => panic!("expected MemoryOutOfBound, got {:?}", other),
    }

    mem.write_word(0x400, 0xBEEF).unwrap();
    assert_eq!(mem.read(0x400).unwrap(), 0xBE);
    assert_eq!(mem.read(0x401).unwrap(), 0xEF);
    assert_eq!(mem.read_word(0x400).unwrap(), 0xBEEF);

    match mem.write_word(0xFFF, 0x1234) {
        Err(Error::MemoryOutOfBound) => {}
        other => panic!("expected MemoryOutOfBound, got {:?}", other),
    }
}

#[test]
fn test_memory_preloads_font() {
    let mem = Memory::new();
    // the glyph for digit 0 sits at 0x050
    assert_eq!(mem.read(0x050).unwrap(), 0xF0);
    assert_eq!(mem.read(0x051).unwrap(), 0x90);
    assert_eq!(mem.read(0x054).unwrap(), 0xF0);
    // digit F begins at 0x050 + 5 * 0xF
    assert_eq!(mem.read(0x050 + 5 * 0xF).unwrap(), 0xF0);
    assert_eq!(mem.read(0x050 + 5 * 0xF + 4).unwrap(), 0x80);
    // outside the font block, fresh memory is zero
    assert_eq!(mem.read(0x04F).unwrap(), 0);
    assert_eq!(mem.read(0x0A0).unwrap(), 0);
}

#[test]
fn test_memory_read_range_clips() {
    let mem = Memory::new();
    let range = mem.read_range(0x050, 5);
    assert_eq!(range, vec![0xF0, 0x90, 0x90, 0x90, 0xF0]);

    let empty = mem.read_range(0xFFE, 3);
    assert!(empty.is_empty());
}

#[test]
fn test_keyboard_bitmap() {
    let mut keys = Keyboard::new();
    assert!(!keys.any_key_pressed());
    assert_eq!(keys.get_first_pressed_key(), None);

    keys.set_key(4, true);
    keys.set_key(0xC, true);
    assert!(keys.any_key_pressed());
    assert!(keys.is_key_pressed(4));
    assert!(keys.is_key_pressed(0xC));
    assert!(!keys.is_key_pressed(5));
    assert_eq!(keys.get_keys(), (1 << 4) | (1 << 0xC));
    assert_eq!(keys.get_first_pressed_key(), Some(4));

    // indices above 0xF are ignored in both directions
    keys.set_key(0x10, true);
    assert_eq!(keys.get_keys(), (1 << 4) | (1 << 0xC));
    assert!(!keys.is_key_pressed(0x10));

    keys.set_key(4, false);
    assert_eq!(keys.get_first_pressed_key(), Some(0xC));
    keys.clear_all_keys();
    assert!(!keys.any_key_pressed());
}

/// A scripted host: a fixed keypad, a clock that advances by a fixed step
/// at each reading, and a fixed execution mode.
struct ScriptedPlatform {
    keys: u16,
    time: std::cell::Cell<u64>,
    time_step: u64,
    mode: u8,
    frames_shown: usize,
    audio_on: bool,
}

impl ScriptedPlatform {
    fn new(keys: u16, time_step: u64, mode: u8) -> Self {
        ScriptedPlatform {
            keys,
            time: std::cell::Cell::new(0),
            time_step,
            mode,
            frames_shown: 0,
            audio_on: false,
        }
    }
}

impl Platform for ScriptedPlatform {
    type Error = Error;

    fn get_keys(&self) -> Keyboard {
        Keyboard(self.keys)
    }

    fn draw_display(&mut self, _display: &Display) -> Result<(), Error> {
        self.frames_shown += 1;
        Ok(())
    }

    fn play_sound(&mut self, enabled: bool) -> Result<(), Error> {
        self.audio_on = enabled;
        Ok(())
    }

    fn get_time(&self) -> u64 {
        self.time.set(self.time.get() + self.time_step);
        self.time.get()
    }

    fn get_execution_mode(&self) -> ExecutionMode {
        match self.mode {
            0 => ExecutionMode::Paused,
            1 => ExecutionMode::Step,
            _ => ExecutionMode::Running,
        }
    }
}

#[test]
fn test_run_frame_paused_executes_nothing() {
    let mut machine = Machine::new();
    let program = Program(vec![Instruction::SetImmediate { vx: 0, kk: 9 }]);
    machine.load_program(program.to_words()).unwrap();

    let mut platform = ScriptedPlatform::new(0b10, 1000, 0);
    platform.audio_on = true;
    let cont = machine.run_frame(&mut platform).unwrap();
    assert!(cont);
    assert_eq!(machine.get_pc(), 0x200);
    assert_eq!(machine.get_registers()[0], 0);
    // the keypad snapshot and the frame presentation still happen
    assert!(machine.keys.is_key_pressed(1));
    assert_eq!(platform.frames_shown, 1);
    assert!(!platform.audio_on);
}

#[test]
fn test_run_frame_step_executes_one_instruction() {
    let mut machine = Machine::new();
    let program = Program(vec![
        Instruction::SetImmediate { vx: 0, kk: 9 },
        Instruction::SetImmediate { vx: 1, kk: 8 },
    ]);
    machine.load_program(program.to_words()).unwrap();

    let mut platform = ScriptedPlatform::new(0, 1000, 1);
    machine.run_frame(&mut platform).unwrap();
    assert_eq!(machine.get_pc(), 0x202);
    assert_eq!(machine.get_registers()[0], 9);
    assert_eq!(machine.get_registers()[1], 0);
}

#[test]
fn test_run_frame_running_paces_batch_and_timers() {
    let mut machine = Machine::new();
    // set V0 = 5, move it into the delay and sound timers, then idle
    let program = Program(vec![
        Instruction::SetImmediate { vx: 0, kk: 5 },
        Instruction::SetDelayTimer(0),
        Instruction::SetSoundTimer(0),
    ]);
    machine.load_program(program.to_words()).unwrap();

    // the clock advances 20 ms at each reading; at 500 Hz the first frame
    // retires round(500 * 0.02) = 10 instructions (the zero padding after
    // the program decodes as the Syscall no-op)
    let mut platform = ScriptedPlatform::new(0, 20_000, 2);
    machine.run_frame(&mut platform).unwrap();
    assert_eq!(machine.get_registers()[0], 5);
    assert_eq!(machine.get_pc(), 0x200 + 2 * 10);
    // 20 ms of frame time crosses one 60 Hz timer period
    assert_eq!(machine.get_delay_timer(), 4);
    assert_eq!(machine.get_sound_timer(), 4);
    // the sound timer is nonzero, so the audio gate is open
    assert!(platform.audio_on);
}

#[test]
fn test_run_frame_surfaces_step_errors() {
    // a fresh machine sits at PC 0; the first step of the batch fails and
    // the frame ends at once, before the framebuffer is presented
    let mut machine = Machine::new();
    let mut platform = ScriptedPlatform::new(0, 1000, 1);
    match machine.run_frame(&mut platform) {
        Err(Error::InvalidProgramCounter(pc)) => assert_eq!(pc, 0),
        other => panic!("expected InvalidProgramCounter, got {:?}", other),
    }
    assert_eq!(platform.frames_shown, 0);
}

#[test]
fn test_dump_screen_format() {
    let mut machine = Machine::new();
    let screen = machine.dump_screen();
    let lines: Vec<&str> = screen.lines().collect();
    assert_eq!(lines.len(), 32);
    for line in &lines {
        assert_eq!(line.chars().count(), 64);
        assert!(line.chars().all(|c| c == '\u{00B7}'));
    }

    // light four pixels and find them at the head of the first row
    let program = Program(vec![
        Instruction::SetImmediate { vx: 0, kk: 0 },
        Instruction::LoadFont(0),
        Instruction::Draw { vx: 0, vy: 0, n: 1 },
    ]);
    machine.load_program(program.to_words()).unwrap();
    for _ in 0..3 {
        machine.step().unwrap();
    }
    let screen = machine.dump_screen();
    let first_line: &str = screen.lines().next().unwrap();
    let blocks: String = first_line.chars().take(4).collect();
    assert_eq!(blocks, "\u{2588}\u{2588}\u{2588}\u{2588}");
}

#[test]
fn test_dump_memory_hex_format() {
    let machine = Machine::new();
    let dump = machine.dump_memory_hex(0x50, 5);
    assert_eq!(dump, "0x0050: 0xF0 0x90 0x90 0x90 0xF0 ");

    let sixteen = machine.dump_memory_hex(0x50, 16);
    assert!(sixteen.starts_with("0x0050: 0xF0"));
    assert!(sixteen.ends_with("\n"));

    // a range reaching past the end of memory dumps nothing
    let empty = machine.dump_memory_hex(0xFFE, 3);
    assert_eq!(empty, "");
}

#[test]
fn test_dump_registers_format() {
    let machine = Machine::new();
    let dump = machine.dump_registers();
    let lines: Vec<&str> = dump.lines().collect();
    assert_eq!(lines.len(), 2 + 16 + 2);
    assert_eq!(lines[0], "REG     | HEX    | BIN                | DEC");
    assert_eq!(lines[1], "--------|--------|--------------------|----");
    assert_eq!(lines[2], "0x0\t| 0x0000 | 0b0000000000000000 | 0");
    assert_eq!(lines[17], "0xF\t| 0x0000 | 0b0000000000000000 | 0");
    assert_eq!(lines[18], "PC\t| 0x0000 | 0b0000000000000000 | 0");
    assert_eq!(lines[19], "SP\t| 0x0000 | 0b0000000000000000 | 0");
}

#[test]
fn test_program_dump_format() {
    let program = Program(vec![
        Instruction::SetImmediate { vx: 0, kk: 0x1 },
        Instruction::Draw { vx: 0, vy: 1, n: 5 },
    ]);
    assert_eq!(program.dump(), "0x0000:\t0x6001\n0x0001:\t0xD015\n");
}
