//! The machine as a mathematical value, and what one host tick does to it.
//!
//! Apart from the machine's dimensions, everything here is specification:
//! the executable machine in [`crate::machine`] is proved to follow it.

use crate::config::Chip8Config;
use crate::error::Chip8Error;
use crate::instruction::{decode, Instruction};
use crate::timer::{timer_after, timer_fires, TimerView};
use vstd::prelude::*;

verus! {

/// Bytes of addressable memory.
pub const MEMORY_SIZE: usize = 4096;

/// Framebuffer width, in pixels.
pub const WIDTH: usize = 64;

/// Framebuffer height, in pixels.
pub const HEIGHT: usize = 32;

/// Pixels of the framebuffer.
pub const PIXELS: usize = WIDTH * HEIGHT;

/// Return addresses the call stack can hold.
pub const STACK_SLOTS: usize = 1024;

/// Bytes of the font: sixteen glyphs of five rows.
pub const FONT_SIZE: usize = 80;

/// The state of a machine.
#[verifier::ext_equal]
pub struct Machine {
    /// `MEMORY_SIZE` bytes.
    pub memory: Seq<u8>,
    /// V0 to VF.
    pub registers: Seq<u8>,
    pub index: u16,
    pub pc: usize,
    /// Return addresses, the most recent call last.
    pub stack: Seq<u16>,
    pub delay_timer: u8,
    pub sound_timer: u8,
    /// `PIXELS` pixels, row by row.
    pub framebuffer: Seq<bool>,
    /// Which of the sixteen keys are held down.
    pub keys: Seq<bool>,
    /// The key pressed last since the previous tick, if any.
    pub key_latch: Option<u8>,
    /// Paces the delay and sound timers, at 60 Hz.
    pub delay_clock: TimerView,
    /// Paces instruction cycles.
    pub cpu_clock: TimerView,
    pub config: Chip8Config,
}

/// Whether the bit of a sprite row `byte` at column `col` is set. Column 0
/// is the leftmost pixel of the row and the top bit of the byte.
pub open spec fn sprite_bit(byte: u8, col: u8) -> bool {
    byte & (0x80u8 >> col) != 0
}

impl Machine {
    /// The shape every machine state has.
    pub open spec fn wf(self) -> bool {
        &&& self.memory.len() == MEMORY_SIZE
        &&& self.registers.len() == 16
        &&& self.stack.len() <= STACK_SLOTS
        &&& self.framebuffer.len() == PIXELS
        &&& self.keys.len() == 16
        &&& self.config.valid()
    }

    /// The state a machine built from `config` starts in: the font copied
    /// to `font_start`, execution about to begin at `program_start`, and
    /// everything else zero, empty or released.
    pub open spec fn initial(config: Chip8Config) -> Machine {
        Machine {
            memory: Seq::new(
                MEMORY_SIZE as nat,
                |a: int|
                    if config.font_start <= a < config.font_start + FONT_SIZE {
                        config.font[a - config.font_start]
                    } else {
                        0u8
                    },
            ),
            registers: Seq::new(16, |k: int| 0u8),
            index: 0,
            pc: config.program_start,
            stack: Seq::empty(),
            delay_timer: 0,
            sound_timer: 0,
            framebuffer: Seq::new(PIXELS as nat, |p: int| false),
            keys: Seq::new(16, |k: int| false),
            key_latch: None,
            delay_clock: TimerView { accumulated: 0, period: 16_666 },
            cpu_clock: TimerView {
                accumulated: 0,
                period: (1_000_000int / config.instructions_per_second as int) as nat,
            },
            config,
        }
    }

    /// The state with `program` copied into memory from `program_start` on.
    pub open spec fn with_program(self, program: Seq<u8>) -> Machine {
        let start = self.config.program_start as int;
        Machine {
            memory: Seq::new(
                MEMORY_SIZE as nat,
                |a: int|
                    if start <= a < start + program.len() {
                        program[a - start]
                    } else {
                        self.memory[a]
                    },
            ),
            ..self
        }
    }

    /// The state with `key` held down and latched as the latest press.
    pub open spec fn with_key_pressed(self, key: u8) -> Machine {
        Machine { keys: self.keys.update(key as int, true), key_latch: Some(key), ..self }
    }

    /// The state with `key` let go.
    pub open spec fn with_key_released(self, key: u8) -> Machine {
        Machine { keys: self.keys.update(key as int, false), ..self }
    }

    /// The state with register `x` set to `value`.
    pub open spec fn with_register(self, x: u8, value: u8) -> Machine {
        Machine { registers: self.registers.update(x as int, value), ..self }
    }

    /// The state with the next instruction skipped if `condition` holds.
    pub open spec fn skip_if(self, condition: bool) -> Machine {
        Machine {
            pc: if condition {
                (self.pc + 2) as usize
            } else {
                self.pc
            },
            ..self
        }
    }

    /// The instruction at the program counter, if the two bytes there
    /// encode one.
    pub open spec fn fetch(self) -> Option<Instruction> {
        decode(self.memory[self.pc as int], self.memory[self.pc + 1])
    }

    /// How many rows of an `n`-row sprite whose top is given by register
    /// `y` lie on the screen. Rows below the bottom edge are dropped.
    pub open spec fn rows_on_screen(self, y: u8, n: u8) -> int {
        let top = self.registers[y as int] % 32;
        if n <= 32 - top {
            n as int
        } else {
            32 - top
        }
    }

    /// Whether the sprite that DXYN draws has a set bit over pixel `p` of
    /// the framebuffer. The sprite's corner is (VX mod 64, VY mod 32); its
    /// rows are the `n` bytes at the index register. A bit that would lie
    /// beyond the right or bottom edge is over no pixel: sprites are
    /// clipped, not wrapped.
    pub open spec fn sprite_hits(self, x: u8, y: u8, n: u8, p: int) -> bool {
        let col = p % 64 - self.registers[x as int] % 64;
        let row = p / 64 - self.registers[y as int] % 32;
        &&& 0 <= col < 8
        &&& 0 <= row < n
        &&& sprite_bit(self.memory[self.index + row], col as u8)
    }

    /// Whether drawing the sprite turns off a pixel that was on.
    pub open spec fn sprite_collides(self, x: u8, y: u8, n: u8) -> bool {
        exists|p: int|
            0 <= p < PIXELS && self.framebuffer[p] && #[trigger] self.sprite_hits(
                x,
                y,
                n,
                p,
            )
    }

    /// DXYN: every pixel under a set sprite bit is flipped, and VF says
    /// whether one of them was turned off.
    pub open spec fn draw(self, x: u8, y: u8, n: u8) -> Machine {
        Machine {
            framebuffer: Seq::new(
                PIXELS as nat,
                |p: int| self.framebuffer[p] != self.sprite_hits(x, y, n, p),
            ),
            registers: self.registers.update(
                0xF,
                if self.sprite_collides(x, y, n) {
                    1u8
                } else {
                    0u8
                },
            ),
            ..self
        }
    }

    /// FX55: V0 to VX are copied to memory at the index register.
    pub open spec fn save(self, x: u8) -> Machine {
        let base = self.index as int;
        Machine {
            memory: Seq::new(
                MEMORY_SIZE as nat,
                |a: int|
                    if base <= a <= base + x {
                        self.registers[a - base]
                    } else {
                        self.memory[a]
                    },
            ),
            index: if self.config.increment_index_during_save_load {
                (base + x + 1) as u16
            } else {
                self.index
            },
            ..self
        }
    }

    /// FX65: V0 to VX are read back from memory at the index register.
    pub open spec fn restore(self, x: u8) -> Machine {
        let base = self.index as int;
        Machine {
            registers: Seq::new(
                16,
                |k: int|
                    if k <= x {
                        self.memory[base + k]
                    } else {
                        self.registers[k]
                    },
            ),
            index: if self.config.increment_index_during_save_load {
                (base + x + 1) as u16
            } else {
                self.index
            },
            ..self
        }
    }

    /// 8XY6 and 8XYE: VF takes the bit about to be shifted out, in place
    /// (1 or 0 for a right shift, 0x80 or 0 for a left shift). Only then is
    /// the operand read, from VY in the legacy mode and from VX otherwise,
    /// shifted by one bit and stored in VX.
    pub open spec fn shift(self, x: u8, y: u8, left: bool) -> Machine {
        let vx = self.registers[x as int];
        let flagged = self.with_register(
            0xF,
            if left {
                vx & 0x80
            } else {
                vx & 1
            },
        );
        let operand = if self.config.copy_vy_while_shifting {
            flagged.registers[y as int]
        } else {
            flagged.registers[x as int]
        };
        flagged.with_register(
            x,
            if left {
                operand << 1
            } else {
                operand >> 1
            },
        )
    }

    /// FX1E: the index register moves on by VX, within sixteen bits. In the
    /// legacy mode VF is set to 1 when it ends beyond the address space.
    pub open spec fn add_index(self, x: u8) -> Machine {
        let sum = ((self.index + self.registers[x as int]) % 0x1_0000) as u16;
        let moved = Machine { index: sum, ..self };
        if self.config.index_overflow_flag && sum > 0x0FFF {
            moved.with_register(0xF, 1)
        } else {
            moved
        }
    }

    /// FX33: the hundreds, tens and units of VX go to the three bytes at
    /// the index register.
    pub open spec fn decimal(self, x: u8) -> Machine {
        let vx = self.registers[x as int];
        let base = self.index as int;
        Machine {
            memory: self.memory.update(base, vx / 100).update(base + 1, (vx / 10) % 10).update(
                base + 2,
                vx % 10,
            ),
            ..self
        }
    }

    /// What `instruction` does to a state whose program counter is already
    /// past it. `key` is the key pressed since the previous tick; `entropy`
    /// is the byte that the random source gave, and only CXNN uses it.
    pub open spec fn execute(
        self,
        instruction: Instruction,
        key: Option<u8>,
        entropy: u8,
    ) -> Machine {
        let v = self.registers;
        match instruction {
            Instruction::ClearScreen => Machine {
                framebuffer: Seq::new(PIXELS as nat, |p: int| false),
                ..self
            },
            Instruction::Return => if self.stack.len() == 0 {
                self
            } else {
                Machine { pc: self.stack.last() as usize, stack: self.stack.drop_last(), ..self }
            },
            Instruction::Jump { nnn } => Machine { pc: nnn as usize, ..self },
            Instruction::Call { nnn } => Machine {
                pc: nnn as usize,
                stack: self.stack.push(self.pc as u16),
                ..self
            },
            Instruction::SkipIfEqual { x, nn } => self.skip_if(v[x as int] == nn),
            Instruction::SkipIfNotEqual { x, nn } => self.skip_if(v[x as int] != nn),
            Instruction::SkipIfRegistersEqual { x, y } => self.skip_if(v[x as int] == v[y as int]),
            Instruction::Load { x, nn } => self.with_register(x, nn),
            Instruction::AddImmediate { x, nn } => self.with_register(
                x,
                ((v[x as int] + nn) % 256) as u8,
            ),
            Instruction::Move { x, y } => self.with_register(x, v[y as int]),
            Instruction::Or { x, y } => self.with_register(x, v[x as int] | v[y as int]),
            Instruction::And { x, y } => self.with_register(x, v[x as int] & v[y as int]),
            Instruction::Xor { x, y } => self.with_register(x, v[x as int] ^ v[y as int]),
            Instruction::Add { x, y } => self.with_register(
                x,
                ((v[x as int] + v[y as int]) % 256) as u8,
            ),
            Instruction::Subtract { x, y } => self.with_register(
                x,
                ((v[x as int] - v[y as int]) % 256) as u8,
            ),
            Instruction::ShiftRight { x, y } => self.shift(x, y, false),
            Instruction::SubtractFrom { x, y } => self.with_register(
                x,
                ((v[y as int] - v[x as int]) % 256) as u8,
            ),
            Instruction::ShiftLeft { x, y } => self.shift(x, y, true),
            Instruction::SkipIfRegistersDiffer { x, y } => self.skip_if(v[x as int] != v[y as int]),
            Instruction::SetIndex { nnn } => Machine { index: nnn, ..self },
            Instruction::JumpOffset { nnn } => Machine { pc: (nnn + v[0]) as usize, ..self },
            Instruction::Random { x, nn } => self.with_register(x, entropy & nn),
            Instruction::Draw { x, y, n } => self.draw(x, y, n),
            Instruction::SkipIfKeyDown { x } => self.skip_if(
                v[x as int] < 16 && self.keys[v[x as int] as int],
            ),
            Instruction::SkipIfKeyUp { x } => self.skip_if(
                v[x as int] < 16 && !self.keys[v[x as int] as int],
            ),
            Instruction::ReadDelay { x } => self.with_register(x, self.delay_timer),
            Instruction::WaitKey { x } => match key {
                Some(k) => self.with_register(x, k),
                None => Machine { pc: (self.pc - 2) as usize, ..self },
            },
            Instruction::SetDelay { x } => Machine { delay_timer: v[x as int], ..self },
            Instruction::SetSound { x } => Machine { sound_timer: v[x as int], ..self },
            Instruction::AddIndex { x } => self.add_index(x),
            Instruction::FontGlyph { x } => Machine {
                index: (self.config.font_start + (v[x as int] & 0xF) * 5) as u16,
                ..self
            },
            Instruction::Decimal { x } => self.decimal(x),
            Instruction::Save { x } => self.save(x),
            Instruction::Restore { x } => self.restore(x),
        }
    }

    /// Whether the machine can carry out `instruction`: a call needs a free
    /// stack slot, and the memory that an instruction reads or writes
    /// through the index register must exist.
    pub open spec fn can_execute(self, instruction: Instruction) -> bool {
        match instruction {
            Instruction::Call { nnn } => self.stack.len() < STACK_SLOTS,
            Instruction::Draw { x, y, n } => self.rows_on_screen(y, n) > 0 ==> self.index
                + self.rows_on_screen(y, n) <= MEMORY_SIZE,
            Instruction::Decimal { x } => self.index + 2 < MEMORY_SIZE,
            Instruction::Save { x } => self.index + x < MEMORY_SIZE,
            Instruction::Restore { x } => self.index + x < MEMORY_SIZE,
            _ => true,
        }
    }

    /// Whether the machine can run an instruction cycle: the program
    /// counter points at two bytes of memory, and if they encode an
    /// instruction, it can be carried out.
    pub open spec fn can_cycle(self) -> bool {
        &&& self.pc + 1 < MEMORY_SIZE
        &&& match self.fetch() {
            Some(instruction) => self.can_execute(instruction),
            None => true,
        }
    }

    /// The fault that an instruction cycle raises, if it raises one: the
    /// bytes at the program counter encode no instruction, or they encode a
    /// return and the call stack is empty.
    pub open spec fn cycle_fault(self) -> Option<Chip8Error> {
        let hi = self.memory[self.pc as int];
        let lo = self.memory[self.pc + 1];
        match self.fetch() {
            None => Some(
                Chip8Error::InvalidInstruction {
                    pc: self.pc,
                    nibble_0: hi / 16,
                    nibble_1: hi % 16,
                    nibble_2: lo / 16,
                    nibble_3: lo % 16,
                },
            ),
            Some(Instruction::Return) => if self.stack.len() == 0 {
                Some(
                    Chip8Error::PopEmptyStack {
                        pc: self.pc,
                        nibble_0: hi / 16,
                        nibble_1: hi % 16,
                        nibble_2: lo / 16,
                        nibble_3: lo % 16,
                    },
                )
            } else {
                None
            },
            Some(_) => None,
        }
    }

    /// The state after one instruction cycle: the program counter moves
    /// past the instruction, then the instruction is carried out. A cycle
    /// that faults only moves the program counter.
    pub open spec fn cycle(self, key: Option<u8>, entropy: u8) -> Machine {
        let advanced = Machine { pc: (self.pc + 2) as usize, ..self };
        match self.fetch() {
            Some(instruction) => advanced.execute(instruction, key, entropy),
            None => advanced,
        }
    }

    /// Whether the instruction cycle of this state asks the random source
    /// for a byte.
    pub open spec fn draws_entropy(self) -> bool {
        self.fetch() matches Some(Instruction::Random { x, nn })
    }

    /// The first part of a host tick of `delta` microseconds: the key latch
    /// is emptied, both clocks move on, and if the 60 Hz clock fired, the
    /// delay and sound timers each count down one step, stopping at zero.
    pub open spec fn tick_clocks(self, delta: u128) -> Machine {
        let fired = timer_fires(self.delay_clock, delta);
        Machine {
            key_latch: None,
            delay_clock: timer_after(self.delay_clock, delta),
            cpu_clock: timer_after(self.cpu_clock, delta),
            delay_timer: if fired && self.delay_timer > 0 {
                (self.delay_timer - 1) as u8
            } else {
                self.delay_timer
            },
            sound_timer: if fired && self.sound_timer > 0 {
                (self.sound_timer - 1) as u8
            } else {
                self.sound_timer
            },
            ..self
        }
    }

    /// Whether a host tick of `delta` microseconds runs an instruction
    /// cycle.
    pub open spec fn cycle_due(self, delta: u128) -> bool {
        timer_fires(self.cpu_clock, delta)
    }

    /// The state after a host tick of `delta` microseconds: the clocks and
    /// timers move first, then at most one instruction cycle runs, which
    /// sees the key that was latched before the tick.
    pub open spec fn tick(self, delta: u128, entropy: u8) -> Machine {
        if self.cycle_due(delta) {
            self.tick_clocks(delta).cycle(self.key_latch, entropy)
        } else {
            self.tick_clocks(delta)
        }
    }

    /// The fault that a host tick of `delta` microseconds raises, if any.
    pub open spec fn tick_fault(self, delta: u128) -> Option<Chip8Error> {
        if self.cycle_due(delta) {
            self.cycle_fault()
        } else {
            None
        }
    }
}

} // verus!
