use vstd::prelude::*;

use crate::display::Display;
use crate::display::{spec_blank_framebuffer, spec_pixel, spec_sprite_bit};
use crate::error::Error;
use crate::instruction::Instruction;
use crate::instruction::decoder::spec_decode;
use crate::keyboard::Keyboard;
use crate::memory::Memory;
use crate::memory::spec_fresh_memory;
use crate::platform::{ExecutionMode, Platform};
use crate::rng::{rng_from_entropy, rng_from_seed};
use rand::rngs::SmallRng;

pub mod config;
pub mod quircks;

mod ops_alu;
mod ops_control;
mod ops_io;
mod ops_memory;
mod ops_register;
mod ops_system;

mod debug;

pub mod laws;

verus! {

/// The machine: the 4 KiB memory, the display, the sixteen registers V0..VF,
/// the 16-slot call stack, the program counter, the stack pointer, the index
/// register, the two countdown timers, the keypad snapshot, the generator
/// behind the Rnd opcode, and the frame-pacing state. Times are in
/// microseconds of the host's monotonic clock.
pub struct Machine {
    pub memory: Memory,
    pub display: Display,
    pub config: config::Config,

    pub registers: Vec<u8>,
    pub stack: Vec<u16>,
    pub pc: u16,
    pub sp: u8,
    pub dt: u8,
    pub st: u8,
    pub index: u16,

    pub keys: Keyboard,
    pub rng: SmallRng,

    pub last_frame_time: u64,
    pub timer_period: u64,
    pub timer_accumulator: u64,
}

/// All sixteen 8-bit slots zero.
pub open spec fn spec_zero_registers() -> Seq<u8> {
    Seq::new(16, |i: int| 0u8)
}

/// All sixteen return slots zero.
pub open spec fn spec_zero_stack() -> Seq<u16> {
    Seq::new(16, |i: int| 0u16)
}

/// What construction, reset and program loading share, memory and program
/// counter aside: a blank display, zeroed registers, stack, timers and
/// pacing accumulators, and no key held.
pub open spec fn spec_reset_core(m: Machine) -> bool {
    &&& m.display@ == spec_blank_framebuffer()
    &&& m.registers@ == spec_zero_registers()
    &&& m.stack@ == spec_zero_stack()
    &&& m.sp == 0
    &&& m.dt == 0
    &&& m.st == 0
    &&& m.index == 0
    &&& m.keys.0 == 0
    &&& m.last_frame_time == 0
    &&& m.timer_accumulator == 0
}

/// The state every construction and reset leaves behind: fresh memory with
/// the font table, the shared reset core, and the program counter at zero.
pub open spec fn spec_reset_state(m: Machine) -> bool {
    &&& m.memory@ == spec_fresh_memory()
    &&& m.pc == 0
    &&& spec_reset_core(m)
}

impl Machine {
    /// The machine's standing invariant: the memory and display keep their
    /// fixed sizes, the register file and stack their sixteen slots, the
    /// stack pointer stays in 0..=16, the index register stays inside the
    /// address space, and a timer period is at least one microsecond.
    pub open spec fn inv(&self) -> bool {
        &&& self.memory.wf()
        &&& self.display.wf()
        &&& self.registers@.len() == 16
        &&& self.stack@.len() == 16
        &&& self.sp <= 16
        &&& self.index < 0x1000
        &&& self.timer_period >= 1
    }

    /// The value of register `i`.
    pub open spec fn spec_reg(&self, i: u8) -> u8 {
        self.registers@[i as int]
    }

    /// A machine with the default configuration, generator state drawn from
    /// the host, and everything else in the reset state.
    pub fn new() -> (r: Self)
        ensures
            r.inv(),
            spec_reset_state(r),
            r.config == config::Config::spec_default(),
            r.timer_period == 1_000_000 as int / r.config.timer_frequency as int,
    {
        let cfg = config::Config::default();
        let registers = zero_bytes_16();
        let stack = zero_words_16();
        let period: u64 = 1_000_000 / (cfg.timer_frequency as u64);
        proof {
            vstd::arithmetic::div_mod::lemma_div_non_zero(1_000_000, cfg.timer_frequency as int);
        }
        let r = Self {
            memory: Memory::new(),
            display: Display::new(),
            config: cfg,
            keys: Keyboard::new(),

            registers,
            stack,
            pc: 0,
            sp: 0,
            dt: 0,
            st: 0,
            index: 0,

            rng: rng_from_entropy(),
            last_frame_time: 0,
            timer_period: period,
            timer_accumulator: 0,
        };
        r
    }

    /// A machine like `new`, but with the generator seeded for predictable,
    /// deterministic runs.
    pub fn with_seed(seed: u64) -> (r: Self)
        ensures
            r.inv(),
            spec_reset_state(r),
            r.config == config::Config::spec_default(),
            r.timer_period == 1_000_000 as int / r.config.timer_frequency as int,
    {
        let mut machine = Self::new();
        machine.rng = rng_from_seed(seed);
        machine
    }

    /// A machine like `new`, but under the given configuration. The timer
    /// frequency must be nonzero for the timer period to be well-defined.
    pub fn with_config(cfg: config::Config) -> (r: Self)
        requires
            cfg.timer_frequency >= 1,
        ensures
            r.inv(),
            spec_reset_state(r),
            r.config == cfg,
            r.timer_period == 1_000_000 as int / cfg.timer_frequency as int,
    {
        let mut machine = Self::new();
        machine.timer_period = 1_000_000 / (cfg.timer_frequency as u64);
        machine.config = cfg;
        proof {
            vstd::arithmetic::div_mod::lemma_div_non_zero(1_000_000, cfg.timer_frequency as int);
        }
        machine
    }

    /// Returns the machine to the reset state: memory (font included),
    /// display, keypad, registers, stack, timers, counters and pacing are
    /// reinitialized. The generator state and the configuration survive.
    pub fn reset(&mut self)
        requires
            old(self).inv(),
        ensures
            final(self).inv(),
            spec_reset_state(*final(self)),
            final(self).rng == old(self).rng,
            final(self).config == old(self).config,
            final(self).timer_period == old(self).timer_period,
    {
        self.memory = Memory::new();
        self.keys.clear_all_keys();
        self.display.clear();
        self.registers = zero_bytes_16();
        self.stack = zero_words_16();
        self.dt = 0;
        self.st = 0;
        self.pc = 0;
        self.sp = 0;
        self.index = 0;
        self.timer_accumulator = 0;
        self.last_frame_time = 0;
    }
}

impl Machine {
    /// The register file V0..VF.
    pub fn get_registers(&self) -> (r: &Vec<u8>)
        ensures
            r@ == self.registers@,
    {
        &self.registers
    }

    /// The program counter.
    pub fn get_pc(&self) -> (r: u16)
        ensures
            r == self.pc,
    {
        self.pc
    }

    /// The stack pointer.
    pub fn get_sp(&self) -> (r: u8)
        ensures
            r == self.sp,
    {
        self.sp
    }

    /// The 4 KiB memory.
    pub fn get_memory(&self) -> (r: &Memory)
        ensures
            r@ == self.memory@,
    {
        &self.memory
    }

    /// The display.
    pub fn get_display(&self) -> (r: &Display)
        ensures
            r@ == self.display@,
    {
        &self.display
    }

    /// The delay timer.
    pub fn get_delay_timer(&self) -> (r: u8)
        ensures
            r == self.dt,
    {
        self.dt
    }

    /// The sound timer.
    pub fn get_sound_timer(&self) -> (r: u8)
        ensures
            r == self.st,
    {
        self.st
    }

    /// The index register I.
    pub fn get_index(&self) -> (r: u16)
        ensures
            r == self.index,
    {
        self.index
    }
}

/// A register file of sixteen zeroed 8-bit slots.
fn zero_bytes_16() -> (r: Vec<u8>)
    ensures
        r@ == spec_zero_registers(),
{
    let mut v: Vec<u8> = Vec::new();
    let mut i: usize = 0;
    while i < 16
        invariant
            i <= 16,
            v@.len() == i,
            forall|j: int| 0 <= j < i ==> v@[j] == 0u8,
        decreases 16 - i,
    {
        v.push(0);
        i = i + 1;
    }
    proof {
        assert(v@ =~= spec_zero_registers());
    }
    v
}

/// A stack of sixteen zeroed 12-bit return slots.
fn zero_words_16() -> (r: Vec<u16>)
    ensures
        r@ == spec_zero_stack(),
{
    let mut v: Vec<u16> = Vec::new();
    let mut i: usize = 0;
    while i < 16
        invariant
            i <= 16,
            v@.len() == i,
            forall|j: int| 0 <= j < i ==> v@[j] == 0u16,
        decreases 16 - i,
    {
        v.push(0);
        i = i + 1;
    }
    proof {
        assert(v@ =~= spec_zero_stack());
    }
    v
}


/// What no opcode ever touches: the configuration, the frame-pacing state
/// and the keypad snapshot (opcodes read keys, never write them).
pub open spec fn op_frame(pre: Machine, post: Machine) -> bool {
    &&& post.config == pre.config
    &&& post.last_frame_time == pre.last_frame_time
    &&& post.timer_period == pre.timer_period
    &&& post.timer_accumulator == pre.timer_accumulator
    &&& post.keys == pre.keys
}

/// The complete effect of an opcode that leaves the display and the
/// generator alone: every remaining machine component is pinned to the
/// given value. `pc` is the program counter after the opcode, starting
/// from its already-advanced fetch value.
pub open spec fn op_effect(
    pre: Machine,
    post: Machine,
    regs: Seq<u8>,
    stack: Seq<u16>,
    pc: u16,
    sp: u8,
    dt: u8,
    st: u8,
    index: u16,
    mem: Seq<u8>,
) -> bool {
    &&& op_frame(pre, post)
    &&& post.rng == pre.rng
    &&& post.registers@ == regs
    &&& post.stack@ == stack
    &&& post.pc == pc
    &&& post.sp == sp
    &&& post.dt == dt
    &&& post.st == st
    &&& post.index == index
    &&& post.memory@ == mem
    &&& post.display@ == pre.display@
}

/// The effect of an opcode that only rewrites the register file.
pub open spec fn op_effect_regs(pre: Machine, pc0: u16, post: Machine, regs: Seq<u8>) -> bool {
    op_effect(pre, post, regs, pre.stack@, pc0, pre.sp, pre.dt, pre.st, pre.index, pre.memory@)
}

/// The effect of an opcode that only moves the program counter.
pub open spec fn op_effect_pc(pre: Machine, post: Machine, pc: u16) -> bool {
    op_effect(pre, post, pre.registers@, pre.stack@, pc, pre.sp, pre.dt, pre.st, pre.index, pre.memory@)
}

/// The effect of an opcode that changes nothing; the program counter stays
/// at its advanced fetch value.
pub open spec fn op_effect_noop(pre: Machine, pc0: u16, post: Machine) -> bool {
    op_effect_pc(pre, post, pc0)
}

/// The effect of an opcode that only sets the index register.
pub open spec fn op_effect_index(pre: Machine, pc0: u16, post: Machine, index: u16) -> bool {
    op_effect(pre, post, pre.registers@, pre.stack@, pc0, pre.sp, pre.dt, pre.st, index, pre.memory@)
}

/// The effect of an opcode that only sets the timers.
pub open spec fn op_effect_timers(pre: Machine, pc0: u16, post: Machine, dt: u8, st: u8) -> bool {
    op_effect(pre, post, pre.registers@, pre.stack@, pc0, pre.sp, dt, st, pre.index, pre.memory@)
}

/// The effect of an opcode that only rewrites memory.
pub open spec fn op_effect_mem(pre: Machine, pc0: u16, post: Machine, mem: Seq<u8>) -> bool {
    op_effect(pre, post, pre.registers@, pre.stack@, pc0, pre.sp, pre.dt, pre.st, pre.index, mem)
}


/// The sprite a Draw opcode reads: the N bytes at the index register, or
/// nothing when the range would reach past the end of memory (the draw is
/// then silently empty).
pub open spec fn spec_sprite_at(pre: Machine, n: u8) -> Seq<u8> {
    if pre.index + n <= 0x1000 {
        pre.memory@.subrange(pre.index as int, pre.index as int + n as int)
    } else {
        Seq::empty()
    }
}

/// The complete effect of a Draw opcode: the sprite read at the index
/// register is XOR-blitted at (VX, VY) with clipping, and VF records
/// whether any set sprite bit fell on a lit pixel.
pub open spec fn spec_draw_effect(pre: Machine, pc0: u16, post: Machine, vx: u8, vy: u8, n: u8) -> bool {
    let sprite = spec_sprite_at(pre, n);
    let x0 = pre.spec_reg(vx) as int;
    let y0 = pre.spec_reg(vy) as int;
    let collision = exists|px: int, py: int|
        spec_pixel(pre.display@, px, py) && spec_sprite_bit(sprite, x0, y0, px, py);
    &&& op_frame(pre, post)
    &&& post.rng == pre.rng
    &&& (forall|px: int, py: int|
        0 <= px < 64 && 0 <= py < 32 ==> #[trigger] spec_pixel(post.display@, px, py) == (
        spec_pixel(pre.display@, px, py) != spec_sprite_bit(sprite, x0, y0, px, py)))
    &&& post.registers@ == pre.registers@.update(
        0xF,
        if collision {
            1u8
        } else {
            0u8
        },
    )
    &&& post.memory@ == pre.memory@
    &&& post.stack@ == pre.stack@
    &&& post.pc == pc0
    &&& post.sp == pre.sp
    &&& post.dt == pre.dt
    &&& post.st == pre.st
    &&& post.index == pre.index
}

/// Memory after a successful StoreRegisters: V0..VX land at I..I+X. The
/// opcode validates the whole range first, so the bound check `a < 4096`
/// is implicit in the sequence's length.
pub open spec fn spec_stored_memory(pre: Machine, x: u8) -> Seq<u8> {
    Seq::new(
        4096,
        |a: int|
            if pre.index <= a <= pre.index + x {
                pre.registers@[a - pre.index]
            } else {
                pre.memory@[a]
            },
    )
}

/// Registers after a successful LoadRegisters: V0..VX are read from
/// I..I+X, the remaining slots keep their values. The opcode validates the
/// whole range first, so the in-memory test here never bites on a
/// successful load.
pub open spec fn spec_loaded_registers(pre: Machine, x: u8) -> Seq<u8> {
    Seq::new(
        16,
        |i: int|
            if i <= x && pre.index + i < 0x1000 {
                pre.memory@[pre.index + i]
            } else {
                pre.registers@[i]
            },
    )
}

/// The complete effect of one executed instruction on the machine, with
/// `pc0` the already-advanced program counter at execution time. Every arm
/// pins every component of the machine; the one source of freedom is the
/// generator state behind Rnd.
pub open spec fn spec_exec_effect(
    pre: Machine,
    pc0: u16,
    post: Machine,
    inst: Instruction,
    r: Result<(), Error>,
) -> bool {
    let regs = pre.registers@;
    match inst {
        Instruction::Clear => {
            &&& r == Ok::<(), Error>(())
            &&& op_frame(pre, post)
            &&& post.rng == pre.rng
            &&& post.display@ == crate::display::spec_blank_framebuffer()
            &&& post.memory@ == pre.memory@
            &&& post.registers@ == regs
            &&& post.stack@ == pre.stack@
            &&& post.pc == pc0
            &&& post.sp == pre.sp
            &&& post.dt == pre.dt
            &&& post.st == pre.st
            &&& post.index == pre.index
        },
        Instruction::Return => {
            if pre.sp == 0 {
                r == Err::<(), Error>(Error::StackUnderflow) && op_effect_noop(pre, pc0, post)
            } else {
                r == Ok::<(), Error>(()) && op_effect(
                    pre,
                    post,
                    regs,
                    pre.stack@,
                    pre.stack@[pre.sp as int - 1],
                    (pre.sp - 1) as u8,
                    pre.dt,
                    pre.st,
                    pre.index,
                    pre.memory@,
                )
            }
        },
        Instruction::Syscall(_) => r == Ok::<(), Error>(()) && op_effect_noop(pre, pc0, post),
        Instruction::Jump(nnn) => r == Ok::<(), Error>(()) && op_effect_pc(pre, post, nnn),
        Instruction::Call(nnn) => {
            if pre.sp == 16 {
                r == Err::<(), Error>(Error::StackOverflow) && op_effect_noop(pre, pc0, post)
            } else {
                r == Ok::<(), Error>(()) && op_effect(
                    pre,
                    post,
                    regs,
                    pre.stack@.update(pre.sp as int, pc0),
                    nnn,
                    (pre.sp + 1) as u8,
                    pre.dt,
                    pre.st,
                    pre.index,
                    pre.memory@,
                )
            }
        },
        Instruction::SkipIfEqualImm { vx, kk } => r == Ok::<(), Error>(()) && op_effect_pc(
            pre,
            post,
            if pre.spec_reg(vx) == kk {
                (pc0 + 2) as u16
            } else {
                pc0
            },
        ),
        Instruction::SkipIfNotEqualImm { vx, kk } => r == Ok::<(), Error>(()) && op_effect_pc(
            pre,
            post,
            if pre.spec_reg(vx) != kk {
                (pc0 + 2) as u16
            } else {
                pc0
            },
        ),
        Instruction::SkipIfEqual { vx, vy } => r == Ok::<(), Error>(()) && op_effect_pc(
            pre,
            post,
            if pre.spec_reg(vx) == pre.spec_reg(vy) {
                (pc0 + 2) as u16
            } else {
                pc0
            },
        ),
        Instruction::SetImmediate { vx, kk } => r == Ok::<(), Error>(()) && op_effect_regs(
            pre,
            pc0,
            post,
            regs.update(vx as int, kk),
        ),
        Instruction::AddImmediate { vx, kk } => r == Ok::<(), Error>(()) && op_effect_regs(
            pre,
            pc0,
            post,
            regs.update(vx as int, ((pre.spec_reg(vx) + kk) % 256) as u8),
        ),
        Instruction::SetRegister { vx, vy } => r == Ok::<(), Error>(()) && op_effect_regs(
            pre,
            pc0,
            post,
            regs.update(vx as int, pre.spec_reg(vy)),
        ),
        Instruction::Or { vx, vy } => r == Ok::<(), Error>(()) && op_effect_regs(
            pre,
            pc0,
            post,
            regs.update(vx as int, pre.spec_reg(vx) | pre.spec_reg(vy)),
        ),
        Instruction::And { vx, vy } => r == Ok::<(), Error>(()) && op_effect_regs(
            pre,
            pc0,
            post,
            regs.update(vx as int, pre.spec_reg(vx) & pre.spec_reg(vy)),
        ),
        Instruction::Xor { vx, vy } => r == Ok::<(), Error>(()) && op_effect_regs(
            pre,
            pc0,
            post,
            regs.update(vx as int, pre.spec_reg(vx) ^ pre.spec_reg(vy)),
        ),
        Instruction::Add { vx, vy } => r == Ok::<(), Error>(()) && op_effect_regs(
            pre,
            pc0,
            post,
            regs.update(vx as int, ((pre.spec_reg(vx) + pre.spec_reg(vy)) % 256) as u8).update(
                0xF,
                if pre.spec_reg(vx) + pre.spec_reg(vy) > 255 {
                    1u8
                } else {
                    0u8
                },
            ),
        ),
        Instruction::Subtract { vx, vy } => r == Ok::<(), Error>(()) && op_effect_regs(
            pre,
            pc0,
            post,
            regs.update(vx as int, ((pre.spec_reg(vx) - pre.spec_reg(vy)) % 256) as u8).update(
                0xF,
                if pre.spec_reg(vx) >= pre.spec_reg(vy) {
                    1u8
                } else {
                    0u8
                },
            ),
        ),
        Instruction::ShiftRight { vx, vy } => r == Ok::<(), Error>(()) && op_effect_regs(
            pre,
            pc0,
            post,
            if pre.config.quircks.shift {
                regs.update(0xF, pre.spec_reg(vx) & 0x01).update(vx as int, pre.spec_reg(vx) >> 1u8)
            } else {
                regs.update(0xF, pre.spec_reg(vy) & 0x01).update(vx as int, pre.spec_reg(vy) >> 1u8)
            },
        ),
        Instruction::SubtractNegate { vx, vy } => r == Ok::<(), Error>(()) && op_effect_regs(
            pre,
            pc0,
            post,
            regs.update(vx as int, ((pre.spec_reg(vy) - pre.spec_reg(vx)) % 256) as u8).update(
                0xF,
                if pre.spec_reg(vy) >= pre.spec_reg(vx) {
                    1u8
                } else {
                    0u8
                },
            ),
        ),
        Instruction::ShiftLeft { vx, vy } => r == Ok::<(), Error>(()) && op_effect_regs(
            pre,
            pc0,
            post,
            if pre.config.quircks.shift {
                regs.update(0xF, (pre.spec_reg(vx) & 0x80) >> 7u8).update(
                    vx as int,
                    pre.spec_reg(vx) << 1u8,
                )
            } else {
                regs.update(0xF, (pre.spec_reg(vy) & 0x80) >> 7u8).update(
                    vx as int,
                    pre.spec_reg(vy) << 1u8,
                )
            },
        ),
        Instruction::SkipIfNotEqual { vx, vy } => r == Ok::<(), Error>(()) && op_effect_pc(
            pre,
            post,
            if pre.spec_reg(vx) != pre.spec_reg(vy) {
                (pc0 + 2) as u16
            } else {
                pc0
            },
        ),
        Instruction::SetIndex(nnn) => {
            if nnn < 0x200 {
                r == Err::<(), Error>(Error::InvalidIndexAddress(nnn)) && op_effect_noop(
                    pre,
                    pc0,
                    post,
                )
            } else if nnn >= 0x1000 {
                r == Err::<(), Error>(Error::IndexOverflow(nnn)) && op_effect_noop(pre, pc0, post)
            } else {
                r == Ok::<(), Error>(()) && op_effect_index(pre, pc0, post, nnn)
            }
        },
        Instruction::JumpOffset(nnn) => r == Ok::<(), Error>(()) && op_effect_pc(
            pre,
            post,
            (nnn + pre.spec_reg(0)) as u16,
        ),
        Instruction::Rnd { vx, kk } => {
            &&& r == Ok::<(), Error>(())
            &&& op_frame(pre, post)
            &&& (exists|b: u8| post.registers@ == regs.update(vx as int, b & kk))
            &&& post.memory@ == pre.memory@
            &&& post.display@ == pre.display@
            &&& post.stack@ == pre.stack@
            &&& post.pc == pc0
            &&& post.sp == pre.sp
            &&& post.dt == pre.dt
            &&& post.st == pre.st
            &&& post.index == pre.index
        },
        Instruction::Draw { vx, vy, n } => r == Ok::<(), Error>(())
            && spec_draw_effect(pre, pc0, post, vx, vy, n),
        Instruction::SkipIfKey(vx) => r == Ok::<(), Error>(()) && op_effect_pc(
            pre,
            post,
            if crate::keyboard::spec_key_pressed(pre.keys.0, pre.spec_reg(vx) & 0xF) {
                (pc0 + 2) as u16
            } else {
                pc0
            },
        ),
        Instruction::SkipIfNotKey(vx) => r == Ok::<(), Error>(()) && op_effect_pc(
            pre,
            post,
            if !crate::keyboard::spec_key_pressed(pre.keys.0, pre.spec_reg(vx) & 0xF) {
                (pc0 + 2) as u16
            } else {
                pc0
            },
        ),
        Instruction::LoadDelayTimer(vx) => r == Ok::<(), Error>(()) && op_effect_regs(
            pre,
            pc0,
            post,
            regs.update(vx as int, pre.dt),
        ),
        Instruction::WaitForKey(vx) => {
            &&& r == Ok::<(), Error>(())
            &&& ((exists|k: u8| crate::keyboard::spec_key_pressed(pre.keys.0, k)) ==> exists|k: u8|
                crate::keyboard::spec_key_pressed(pre.keys.0, k) && (forall|j: u8|
                    j < k ==> !crate::keyboard::spec_key_pressed(pre.keys.0, j)) && op_effect_regs(
                    pre,
                    pc0,
                    post,
                    regs.update(vx as int, k),
                ))
            &&& (!(exists|k: u8| crate::keyboard::spec_key_pressed(pre.keys.0, k))
                ==> op_effect_pc(pre, post, (pc0 - 2) as u16))
        },
        Instruction::SetDelayTimer(vx) => r == Ok::<(), Error>(()) && op_effect_timers(
            pre,
            pc0,
            post,
            pre.spec_reg(vx),
            pre.st,
        ),
        Instruction::SetSoundTimer(vx) => r == Ok::<(), Error>(()) && op_effect_timers(
            pre,
            pc0,
            post,
            pre.dt,
            pre.spec_reg(vx),
        ),
        Instruction::AddIndex(vx) => {
            let target = pre.index + pre.spec_reg(vx);
            if target < 0x200 {
                r == Err::<(), Error>(Error::InvalidIndexAddress(target as u16)) && op_effect_noop(
                    pre,
                    pc0,
                    post,
                )
            } else if target >= 0x1000 {
                r == Err::<(), Error>(Error::IndexOverflow(target as u16)) && op_effect_noop(
                    pre,
                    pc0,
                    post,
                )
            } else {
                r == Ok::<(), Error>(()) && op_effect_index(pre, pc0, post, target as u16)
            }
        },
        Instruction::LoadFont(vx) => r == Ok::<(), Error>(()) && op_effect_index(
            pre,
            pc0,
            post,
            (0x50 + 5 * (pre.spec_reg(vx) % 16)) as u16,
        ),
        Instruction::StoreBcd(vx) => {
            if pre.index + 2 < 0x1000 {
                r == Ok::<(), Error>(()) && op_effect_mem(
                    pre,
                    pc0,
                    post,
                    pre.memory@.update(pre.index as int, (pre.spec_reg(vx) / 100) as u8).update(
                        pre.index as int + 1,
                        ((pre.spec_reg(vx) / 10) % 10) as u8,
                    ).update(pre.index as int + 2, (pre.spec_reg(vx) % 10) as u8),
                )
            } else {
                r == Err::<(), Error>(Error::MemoryOutOfBound) && op_effect_noop(pre, pc0, post)
            }
        },
        Instruction::StoreRegisters(x) => {
            if pre.index + x < 0x1000 {
                r == Ok::<(), Error>(()) && op_effect_mem(
                    pre,
                    pc0,
                    post,
                    spec_stored_memory(pre, x),
                )
            } else {
                r == Err::<(), Error>(Error::MemoryOutOfBound) && op_effect_noop(pre, pc0, post)
            }
        },
        Instruction::LoadRegisters(x) => {
            if pre.index + x < 0x1000 {
                r == Ok::<(), Error>(()) && op_effect_regs(
                    pre,
                    pc0,
                    post,
                    spec_loaded_registers(pre, x),
                )
            } else {
                r == Err::<(), Error>(Error::MemoryOutOfBound) && op_effect_noop(pre, pc0, post)
            }
        },
    }
}


/// The big-endian instruction word under the program counter.
pub open spec fn spec_fetch(m: Machine) -> u16 {
    ((m.memory@[m.pc as int] * 0x100 + m.memory@[m.pc as int + 1]) as u16)
}

/// The complete effect of one fetch-decode-execute step. A program counter
/// outside [0x200, 0xFFC] or odd fails before anything changes; a word that
/// does not decode fails with the counter already advanced past it; a
/// decoded instruction executes from that advanced counter.
pub open spec fn spec_step_effect(pre: Machine, post: Machine, r: Result<bool, Error>) -> bool {
    if pre.pc < 0x200 || pre.pc >= 0xFFE {
        r == Err::<bool, Error>(Error::InvalidProgramCounter(pre.pc)) && op_effect_noop(
            pre,
            pre.pc,
            post,
        )
    } else if pre.pc % 2 != 0 {
        r == Err::<bool, Error>(Error::UnalignedProgramCounter(pre.pc)) && op_effect_noop(
            pre,
            pre.pc,
            post,
        )
    } else {
        let w = spec_fetch(pre);
        let pc2 = (pre.pc + 2) as u16;
        match spec_decode(w) {
            None => r == Err::<bool, Error>(Error::InvalidInstruction(w)) && op_effect_noop(
                pre,
                pc2,
                post,
            ),
            Some(inst) => match r {
                Ok(b) => b == true && spec_exec_effect(pre, pc2, post, inst, Ok::<(), Error>(())),
                Err(e) => spec_exec_effect(pre, pc2, post, inst, Err::<(), Error>(e)),
            },
        }
    }
}

/// The instruction effect reads the fetch-time program counter only through
/// its `pc0` argument, so two pre-states that differ only in the counter
/// satisfy it together.
proof fn lemma_exec_effect_ignores_pc(
    a: Machine,
    b: Machine,
    pc0: u16,
    post: Machine,
    inst: Instruction,
    r: Result<(), Error>,
)
    requires
        spec_exec_effect(a, pc0, post, inst, r),
        b.memory@ == a.memory@,
        b.display@ == a.display@,
        b.registers@ == a.registers@,
        b.stack@ == a.stack@,
        b.sp == a.sp,
        b.dt == a.dt,
        b.st == a.st,
        b.index == a.index,
        b.keys == a.keys,
        b.rng == a.rng,
        b.config == a.config,
        b.last_frame_time == a.last_frame_time,
        b.timer_period == a.timer_period,
        b.timer_accumulator == a.timer_accumulator,
    ensures
        spec_exec_effect(b, pc0, post, inst, r),
{
}

impl Machine {
    /// Dispatches one decoded instruction. The program counter has already
    /// been advanced past the instruction's word.
    fn exec(&mut self, instruction: Instruction) -> (r: Result<(), Error>)
        requires
            old(self).inv(),
            instruction.wf(),
            0x202 <= old(self).pc <= 0xFFE,
        ensures
            final(self).inv(),
            spec_exec_effect(*old(self), old(self).pc, *final(self), instruction, r),
    {
        match instruction {
            // system operations
            Instruction::Clear => self.op_clear(),
            Instruction::Syscall(addr) => self.op_syscall(addr),
            Instruction::Rnd { vx, kk } => self.op_rnd(vx, kk),
            Instruction::SetDelayTimer(vx) => self.op_set_delay_timer(vx),
            Instruction::SetSoundTimer(vx) => self.op_set_sound_timer(vx),
            Instruction::LoadDelayTimer(vx) => self.op_load_delay_timer(vx),
            // flow control operations
            Instruction::Jump(addr) => self.op_jump(addr),
            Instruction::JumpOffset(nnn) => self.op_jump_offset(nnn),
            Instruction::Call(addr) => self.op_call(addr),
            Instruction::Return => self.op_return(),
            // branch operations
            Instruction::SkipIfEqualImm { vx, kk } => self.op_skip_if_equal_imm(vx, kk),
            Instruction::SkipIfNotEqualImm { vx, kk } => self.op_skip_if_not_equal_imm(vx, kk),
            Instruction::SkipIfEqual { vx, vy } => self.op_skip_if_equal(vx, vy),
            Instruction::SkipIfNotEqual { vx, vy } => self.op_skip_if_not_equal(vx, vy),
            // register operations
            Instruction::SetImmediate { vx, kk } => self.op_set_immediate(vx, kk),
            Instruction::SetRegister { vx, vy } => self.op_set(vx, vy),
            Instruction::SetIndex(addr) => self.op_set_index(addr),
            Instruction::AddIndex(x) => self.op_add_index(x),
            // ALU operations
            Instruction::AddImmediate { vx, kk } => self.op_add_immediate(vx, kk),
            Instruction::Or { vx, vy } => self.op_or(vx, vy),
            Instruction::And { vx, vy } => self.op_and(vx, vy),
            Instruction::Xor { vx, vy } => self.op_xor(vx, vy),
            Instruction::Add { vx, vy } => self.op_add(vx, vy),
            Instruction::Subtract { vx, vy } => self.op_subtract(vx, vy),
            Instruction::SubtractNegate { vx, vy } => self.op_subtract_negate(vx, vy),
            Instruction::ShiftRight { vx, vy } => self.op_shift_right(vx, vy),
            Instruction::ShiftLeft { vx, vy } => self.op_shift_left(vx, vy),
            // IO operations
            Instruction::SkipIfKey(vx) => self.op_skip_if_key(vx),
            Instruction::SkipIfNotKey(vx) => self.op_skip_if_not_key(vx),
            Instruction::WaitForKey(vx) => self.op_wait_for_key(vx),
            Instruction::Draw { vx, vy, n } => self.op_draw(vx, vy, n),
            // memory operations
            Instruction::StoreBcd(vx) => self.op_store_bcd(vx),
            Instruction::StoreRegisters(x) => self.op_store_registers(x),
            Instruction::LoadRegisters(x) => self.op_load_registers(x),
            Instruction::LoadFont(vx) => self.op_load_font(vx),
        }
    }

    /// One fetch-decode-execute step. The program counter is validated,
    /// the word at it is fetched and the counter advanced past it before
    /// decoding, so jump, call and skip handlers work from the post-advance
    /// value. Every failure is surfaced; the machine never retries.
    pub fn step(&mut self) -> (r: Result<bool, Error>)
        requires
            old(self).inv(),
        ensures
            final(self).inv(),
            spec_step_effect(*old(self), *final(self), r),
    {
        if self.pc < 0x200 || self.pc >= 0x1000 - 2 {
            return Err(Error::InvalidProgramCounter(self.pc));
        }
        if self.pc % 2 != 0 {
            return Err(Error::UnalignedProgramCounter(self.pc));
        }

        let fetched = self.memory.read_word(self.pc);
        let word = match fetched {
            Ok(w) => w,
            Err(e) => {
                return Err(e);
            },
        };
        self.pc = self.pc + 2;

        let ghost mid = *self;
        let decoded = Instruction::decode(word);
        match decoded {
            Ok(instruction) => {
                let r = self.exec(instruction);
                proof {
                    lemma_exec_effect_ignores_pc(
                        mid,
                        *old(self),
                        mid.pc,
                        *self,
                        instruction,
                        r,
                    );
                }
                match r {
                    Ok(_) => Ok(true),
                    Err(e) => Err(e),
                }
            },
            Err(e) => Err(e),
        }
    }
}


/// Memory after loading the first `upto` program words: big-endian words at
/// 0x200, 0x202, ..., over an otherwise fresh memory.
pub open spec fn spec_loaded_memory(program: Seq<u16>, upto: int) -> Seq<u8> {
    Seq::new(
        4096,
        |a: int|
            if 0x200 <= a < 0x200 + 2 * upto {
                if (a - 0x200) % 2 == 0 {
                    (program[(a - 0x200) / 2] / 0x100) as u8
                } else {
                    (program[(a - 0x200) / 2] % 0x100) as u8
                }
            } else {
                spec_fresh_memory()[a]
            },
    )
}

/// The batch size of a running frame whose clock read `now`: the CPU
/// frequency times the microseconds since the previous running frame,
/// rounded to the nearest instruction and saturated at a 32-bit count.
/// A clock reading before the previous frame counts as no elapsed time.
pub open spec fn spec_batch_size(m: Machine, now: u64) -> int {
    let delta = if now >= m.last_frame_time {
        now - m.last_frame_time
    } else {
        0
    };
    let n = (m.config.cpu_frequency * delta + 500_000) / 1_000_000;
    if n > u32::MAX {
        u32::MAX as int
    } else {
        n
    }
}

/// The timers advanced by `delta` microseconds of frame time: the
/// accumulator gains the elapsed time (saturating at the top of its 64-bit
/// range), both timers tick down once per whole timer period in it
/// (stopping at zero), and the accumulator keeps the remainder, below one
/// period. Nothing else changes.
pub open spec fn spec_timers_advanced(pre: Machine, post: Machine, delta: u64) -> bool {
    let total = if pre.timer_accumulator + delta <= u64::MAX {
        pre.timer_accumulator + delta
    } else {
        u64::MAX as int
    };
    &&& (exists|k: int|
        0 <= k && total == #[trigger] (k * pre.timer_period) + post.timer_accumulator && post.dt
            == (if k >= pre.dt {
            0u8
        } else {
            (pre.dt - k) as u8
        }) && post.st == (if k >= pre.st {
            0u8
        } else {
            (pre.st - k) as u8
        }))
    &&& post.timer_accumulator < pre.timer_period
    &&& post == (Machine {
        dt: post.dt,
        st: post.st,
        timer_accumulator: post.timer_accumulator,
        ..pre
    })
}

/// The machine `post` is `pre` after `n` consecutive successful steps.
pub open spec fn spec_ran_steps(pre: Machine, post: Machine, n: nat) -> bool
    decreases n,
{
    if n == 0 {
        post == pre
    } else {
        exists|mid: Machine|
            spec_step_effect(pre, mid, Ok::<bool, Error>(true)) && spec_ran_steps(
                mid,
                post,
                (n - 1) as nat,
            )
    }
}

/// A successful step appended to a run of steps extends the run by one.
proof fn lemma_ran_steps_snoc(a: Machine, b: Machine, c: Machine, n: nat)
    requires
        spec_ran_steps(a, b, n),
        spec_step_effect(b, c, Ok::<bool, Error>(true)),
    ensures
        spec_ran_steps(a, c, n + 1),
    decreases n,
{
    if n == 0 {
        assert(spec_step_effect(a, c, Ok::<bool, Error>(true)) && spec_ran_steps(c, c, 0));
    } else {
        let mid = choose|mid: Machine|
            spec_step_effect(a, mid, Ok::<bool, Error>(true)) && spec_ran_steps(
                mid,
                b,
                (n - 1) as nat,
            );
        lemma_ran_steps_snoc(mid, b, c, (n - 1) as nat);
        assert(spec_step_effect(a, mid, Ok::<bool, Error>(true)) && spec_ran_steps(
            mid,
            c,
            ((n + 1) - 1) as nat,
        ));
    }
}

/// The machine entering a frame's batch: the keypad snapshot taken, and,
/// when running, the pacing clock latched at the frame's start.
pub open spec fn spec_frame_start(pre: Machine, keys: Keyboard, mode: ExecutionMode, t0: u64) -> Machine {
    if mode is Running {
        Machine { keys: keys, last_frame_time: t0, ..pre }
    } else {
        Machine { keys: keys, ..pre }
    }
}

/// How many instructions the frame's batch holds: none while paused,
/// exactly one while stepping, the time-scaled count while running.
pub open spec fn spec_frame_batch(pre: Machine, mode: ExecutionMode, t0: u64) -> int {
    match mode {
        ExecutionMode::Paused => 0 as int,
        ExecutionMode::Step => 1 as int,
        ExecutionMode::Running => spec_batch_size(pre, t0),
    }
}

/// A completed frame through the batch witness `ran`: the whole batch ran
/// from the snapshot state to `ran`, and the timers then advanced by the
/// frame's elapsed time exactly when the mode was Running.
pub open spec fn spec_frame_completed(
    pre: Machine,
    post: Machine,
    keys: Keyboard,
    mode: ExecutionMode,
    t0: u64,
    t1: u64,
    ran: Machine,
) -> bool {
    &&& spec_ran_steps(spec_frame_start(pre, keys, mode, t0), ran, spec_frame_batch(pre, mode, t0) as nat)
    &&& if mode is Running {
        spec_timers_advanced(
            ran,
            post,
            if t1 >= t0 {
                (t1 - t0) as u64
            } else {
                0u64
            },
        )
    } else {
        post == ran
    }
}

/// A frame stopped at its first failing step: `k` instructions of the
/// batch ran from the snapshot state to `mid`, the next step failed with
/// `e`, and the rest of the batch did not run.
pub open spec fn spec_frame_stopped(
    pre: Machine,
    post: Machine,
    keys: Keyboard,
    mode: ExecutionMode,
    t0: u64,
    k: int,
    mid: Machine,
    e: Error,
) -> bool {
    &&& 0 <= k < spec_frame_batch(pre, mode, t0)
    &&& spec_ran_steps(spec_frame_start(pre, keys, mode, t0), mid, k as nat)
    &&& spec_step_effect(mid, post, Err::<bool, Error>(e))
}

/// One frame's complete effect on the machine, in terms of the answers the
/// host gave: `keys` the keypad snapshot, `mode` the execution mode, `t0`
/// and `t1` the frame's two clock readings, and `ok` whether the frame
/// returned success. A successful frame completed its batch and, when
/// running, its timer advance; a failed frame either stopped at the
/// batch's first failing step — the remaining instructions did not run and
/// the timers did not advance — or holds the completed frame state because
/// a host call failed after the batch.
pub open spec fn spec_frame_effect(
    pre: Machine,
    post: Machine,
    keys: Keyboard,
    mode: ExecutionMode,
    t0: u64,
    t1: u64,
    ok: bool,
) -> bool {
    let completed = exists|ran: Machine|
        #[trigger] spec_frame_completed(pre, post, keys, mode, t0, t1, ran);
    if ok {
        completed
    } else {
        completed || (exists|k: int, mid: Machine, e: Error|
            #[trigger] spec_frame_stopped(pre, post, keys, mode, t0, k, mid, e))
    }
}

/// Introduces the completed-frame case of `spec_frame_effect` from its
/// witness.
proof fn lemma_frame_effect_completed(
    pre: Machine,
    post: Machine,
    keys: Keyboard,
    mode: ExecutionMode,
    t0: u64,
    t1: u64,
    ran: Machine,
    ok: bool,
)
    requires
        spec_frame_completed(pre, post, keys, mode, t0, t1, ran),
    ensures
        spec_frame_effect(pre, post, keys, mode, t0, t1, ok),
{
}

/// Introduces the stopped-frame case of `spec_frame_effect` from its
/// witnesses.
proof fn lemma_frame_effect_stopped(
    pre: Machine,
    post: Machine,
    keys: Keyboard,
    mode: ExecutionMode,
    t0: u64,
    t1: u64,
    k: int,
    mid: Machine,
    e: Error,
)
    requires
        spec_frame_stopped(pre, post, keys, mode, t0, k, mid, e),
    ensures
        spec_frame_effect(pre, post, keys, mode, t0, t1, false),
{
}

impl Machine {
    /// Resets the machine and writes the program's 16-bit words big-endian
    /// from 0x200 on, then points the program counter at 0x200. A ROM that
    /// would extend past the end of memory is rejected with
    /// `MemoryOutOfBound` after its first 1792 words have been written.
    pub fn load_program(&mut self, program: Vec<u16>) -> (r: Result<(), Error>)
        requires
            old(self).inv(),
        ensures
            final(self).inv(),
            spec_reset_core(*final(self)),
            final(self).pc == 0x200,
            final(self).rng == old(self).rng,
            final(self).config == old(self).config,
            final(self).timer_period == old(self).timer_period,
            program@.len() <= 1792 ==> r == Ok::<(), Error>(()) && final(self).memory@
                == spec_loaded_memory(program@, program@.len() as int),
            program@.len() > 1792 ==> r == Err::<(), Error>(Error::MemoryOutOfBound)
                && final(self).memory@ == spec_loaded_memory(program@, 1792),
    {
        self.reset();

        let start_addr: u16 = 0x200;
        self.pc = start_addr;

        let ghost cfg0 = self.config;
        let ghost rng0 = self.rng;
        let ghost period0 = self.timer_period;
        proof {
            assert(self.memory@ =~= spec_loaded_memory(program@, 0));
        }
        let mut i: usize = 0;
        while i < program.len()
            invariant
                cfg0 == old(self).config,
                rng0 == old(self).rng,
                period0 == old(self).timer_period,
                self.inv(),
                spec_reset_core(*self),
                self.pc == 0x200,
                self.config == cfg0,
                self.rng == rng0,
                self.timer_period == period0,
                i <= 1792,
                i <= program@.len(),
                self.memory@ == spec_loaded_memory(program@, i as int),
            decreases program@.len() - i,
        {
            let addr = 0x200 + (i as u16) * 2;
            let word = program[i];
            let w = self.memory.write_word(addr, word);
            if let Err(e) = w {
                proof {
                    assert(i == 1792);
                }
                return Err(e);
            }
            proof {
                assert(self.memory@ =~= spec_loaded_memory(program@, i + 1));
            }
            i = i + 1;
        }
        Ok(())
    }

    /// The number of instructions a running frame at `current_time` should
    /// retire: the CPU frequency times the time since the previous running
    /// frame, rounded to the nearest instruction and saturated at a 32-bit
    /// count. A clock reading before the previous frame counts as no time.
    pub(crate) fn calculate_instructions_for_frame(&mut self, current_time: u64) -> (r: u32)
        ensures
            *final(self) == (Machine { last_frame_time: current_time, ..*old(self) }),
            r as int == spec_batch_size(*old(self), current_time),
    {
        let delta: u64 = if current_time >= self.last_frame_time {
            current_time - self.last_frame_time
        } else {
            0
        };
        proof {
            assert(self.config.cpu_frequency as int * delta as int + 500_000 < 0x100000000000000000000000000000000)
                by (nonlinear_arith)
                requires
                    self.config.cpu_frequency <= 0xFFFF,
                    delta <= 0xFFFF_FFFF_FFFF_FFFF,
            ;
        }
        let expected: u128 = (self.config.cpu_frequency as u128) * (delta as u128) + 500_000;
        let quotient: u128 = expected / 1_000_000;
        self.last_frame_time = current_time;
        if quotient > u32::MAX as u128 {
            u32::MAX
        } else {
            quotient as u32
        }
    }

    /// Feeds elapsed wall time to the timer accumulator; each time it
    /// reaches one timer period, both timers tick down (stopping at zero)
    /// and the accumulator loses one period, catching up across several
    /// periods within one frame if needed. Accumulated time saturates at
    /// the top of its 64-bit range.
    pub(crate) fn update_timers(&mut self, delta: u64)
        requires
            old(self).inv(),
        ensures
            final(self).inv(),
            spec_timers_advanced(*old(self), *final(self), delta),
    {
        let ghost pre = *old(self);
        let ghost total: int = if pre.timer_accumulator + delta <= u64::MAX {
            pre.timer_accumulator + delta
        } else {
            u64::MAX as int
        };
        if delta <= u64::MAX - self.timer_accumulator {
            self.timer_accumulator = self.timer_accumulator + delta;
        } else {
            self.timer_accumulator = u64::MAX;
        }
        let ghost mut k: int = 0;
        while self.timer_accumulator >= self.timer_period
            invariant
                pre == *old(self),
                self.inv(),
                0 <= k,
                total == k * pre.timer_period + self.timer_accumulator,
                self.dt == if k >= pre.dt {
                    0u8
                } else {
                    (pre.dt - k) as u8
                },
                self.st == if k >= pre.st {
                    0u8
                } else {
                    (pre.st - k) as u8
                },
                self.timer_period == pre.timer_period,
                *self == (Machine {
                    dt: self.dt,
                    st: self.st,
                    timer_accumulator: self.timer_accumulator,
                    ..pre
                }),
            decreases self.timer_accumulator,
        {
            if self.dt > 0 {
                self.dt = self.dt - 1;
            }
            if self.st > 0 {
                self.st = self.st - 1;
            }
            self.timer_accumulator = self.timer_accumulator - self.timer_period;
            proof {
                assert((k + 1) * pre.timer_period == k * pre.timer_period + pre.timer_period)
                    by (nonlinear_arith);
                k = k + 1;
            }
        }
        proof {
            assert(0 <= k && total == k * pre.timer_period + self.timer_accumulator && self.dt
                == (if k >= pre.dt {
                0u8
            } else {
                (pre.dt - k) as u8
            }) && self.st == (if k >= pre.st {
                0u8
            } else {
                (pre.st - k) as u8
            }));
            assert(spec_timers_advanced(pre, *self, delta));
        }
    }

    /// Runs one frame against the host: snapshots the keypad, retires the
    /// instruction batch the execution mode calls for (none while paused,
    /// one while stepping, a time-scaled count while running), advances the
    /// timers by the frame's elapsed time when running, then presents the
    /// framebuffer and gates audio on the sound timer. The first failed
    /// step ends the frame at once, surfaced through the host's error
    /// type; `spec_frame_effect` pins the machine's state for some keypad,
    /// mode and clock answers of the host, whatever they were.
    pub fn run_frame<P: Platform>(&mut self, platform: &mut P) -> (r: Result<bool, P::Error>)
        requires
            old(self).inv(),
        ensures
            final(self).inv(),
            final(self).config == old(self).config,
            final(self).timer_period == old(self).timer_period,
            r matches Ok(cont) ==> cont,
            final(self).timer_accumulator < old(self).timer_period || final(self).timer_accumulator
                == old(self).timer_accumulator,
            r matches Ok(_) ==> exists|keys: Keyboard, mode: ExecutionMode, t0: u64, t1: u64|
                #[trigger] spec_frame_effect(*old(self), *final(self), keys, mode, t0, t1, true),
            r matches Err(_) ==> exists|keys: Keyboard, mode: ExecutionMode, t0: u64, t1: u64|
                #[trigger] spec_frame_effect(*old(self), *final(self), keys, mode, t0, t1, false),
    {
        let mode = platform.get_execution_mode();
        let frame_start = platform.get_time();

        self.keys = platform.get_keys();
        let ghost keys_g = self.keys;
        let ghost mode_g = mode;

        let instructions_to_run: u32 = match mode {
            ExecutionMode::Paused => 0,
            ExecutionMode::Step => 1,
            ExecutionMode::Running => self.calculate_instructions_for_frame(frame_start),
        };
        let ghost start = *self;
        proof {
            assert(start == if mode_g is Running {
                (Machine { keys: keys_g, last_frame_time: frame_start, ..*old(self) })
            } else {
                (Machine { keys: keys_g, ..*old(self) })
            });
            assert(instructions_to_run as int == match mode_g {
                ExecutionMode::Paused => 0 as int,
                ExecutionMode::Step => 1 as int,
                ExecutionMode::Running => spec_batch_size(*old(self), frame_start),
            });
        }

        let ghost cfg0 = self.config;
        let ghost period0 = self.timer_period;
        let mut i: u32 = 0;
        while i < instructions_to_run
            invariant
                cfg0 == old(self).config,
                period0 == old(self).timer_period,
                self.inv(),
                self.config == cfg0,
                self.timer_period == period0,
                self.timer_accumulator == old(self).timer_accumulator,
                i <= instructions_to_run,
                start == if mode_g is Running {
                    (Machine { keys: keys_g, last_frame_time: frame_start, ..*old(self) })
                } else {
                    (Machine { keys: keys_g, ..*old(self) })
                },
                instructions_to_run as int == match mode_g {
                    ExecutionMode::Paused => 0 as int,
                    ExecutionMode::Step => 1 as int,
                    ExecutionMode::Running => spec_batch_size(*old(self), frame_start),
                },
                spec_ran_steps(start, *self, i as nat),
            decreases instructions_to_run - i,
        {
            let ghost before = *self;
            let stepped = self.step();
            match stepped {
                Ok(cont) => {
                    proof {
                        assert(spec_step_effect(before, *self, Ok::<bool, Error>(true)));
                        lemma_ran_steps_snoc(start, before, *self, i as nat);
                    }
                    if !cont {
                        return Ok(false);
                    }
                },
                Err(e) => {
                    proof {
                        lemma_frame_effect_stopped(
                            *old(self),
                            *self,
                            keys_g,
                            mode_g,
                            frame_start,
                            frame_start,
                            i as int,
                            before,
                            e,
                        );
                    }
                    return Err(P::Error::from(e));
                },
            }
            i = i + 1;
        }

        let ghost ran = *self;
        let ghost mut t1_g: u64 = frame_start;
        if matches!(mode, ExecutionMode::Running) {
            let now = platform.get_time();
            proof {
                t1_g = now;
            }
            let delta: u64 = if now >= frame_start {
                now - frame_start
            } else {
                0
            };
            self.update_timers(delta);
            proof {
                assert(spec_timers_advanced(ran, *self, if t1_g >= frame_start {
                    (t1_g - frame_start) as u64
                } else {
                    0u64
                }));
            }
        }
        proof {
            lemma_frame_effect_completed(
                *old(self),
                *self,
                keys_g,
                mode_g,
                frame_start,
                t1_g,
                ran,
                true,
            );
        }

        let drawn = platform.draw_display(&self.display);
        if let Err(e) = drawn {
            proof {
                lemma_frame_effect_completed(
                    *old(self),
                    *self,
                    keys_g,
                    mode_g,
                    frame_start,
                    t1_g,
                    ran,
                    false,
                );
            }
            return Err(e);
        }
        let sounded = platform.play_sound(self.st > 0);
        if let Err(e) = sounded {
            proof {
                lemma_frame_effect_completed(
                    *old(self),
                    *self,
                    keys_g,
                    mode_g,
                    frame_start,
                    t1_g,
                    ran,
                    false,
                );
            }
            return Err(e);
        }

        Ok(true)
    }
}

} // verus!




