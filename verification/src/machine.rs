//! The executable machine.

use crate::config::Chip8Config;
use crate::error::Chip8Error;
use crate::instruction::{nibbles, Instruction};
use crate::model::{Machine, FONT_SIZE, MEMORY_SIZE, PIXELS, STACK_SLOTS};
use crate::timer::Timer;
use vstd::prelude::*;

verus! {

/// A CHIP-8 machine. Its state is read through the view, a [`Machine`], and
/// changes only as the functions below say.
pub struct Chip8 {
    framebuffer: [bool; PIXELS],
    keys: [bool; 16],
    pc: usize,
    memory: [u8; MEMORY_SIZE],
    index_reg: u16,
    /// Return addresses; the first `stack_len` slots are in use.
    stack: [u16; STACK_SLOTS],
    stack_len: usize,
    delay_timer: u8,
    sound_timer: u8,
    /// Paces the delay and sound timers.
    ds_timer: Timer,
    /// Paces instruction cycles.
    program_timer: Timer,
    variable_reg: [u8; 16],
    config: Chip8Config,
    /// The key pressed last since the previous update.
    keypress_this_frame: Option<u8>,
}

/// `a + b`, keeping the low eight bits.
fn add_wrapping(a: u8, b: u8) -> (sum: u8)
    ensures
        sum == ((a + b) % 256) as u8,
{
    a.wrapping_add(b)
}

/// `a - b`, keeping the low eight bits.
fn sub_wrapping(a: u8, b: u8) -> (difference: u8)
    ensures
        difference == ((a - b) % 256) as u8,
{
    a.wrapping_sub(b)
}

impl View for Chip8 {
    type V = Machine;

    closed spec fn view(&self) -> Machine {
        Machine {
            memory: self.memory@,
            registers: self.variable_reg@,
            index: self.index_reg,
            pc: self.pc,
            stack: self.stack@.take(self.stack_len as int),
            delay_timer: self.delay_timer,
            sound_timer: self.sound_timer,
            framebuffer: self.framebuffer@,
            keys: self.keys@,
            key_latch: self.keypress_this_frame,
            delay_clock: self.ds_timer@,
            cpu_clock: self.program_timer@,
            config: self.config,
        }
    }
}

impl Chip8 {
    pub const WIDTH: usize = crate::model::WIDTH;

    pub const HEIGHT: usize = crate::model::HEIGHT;

    /// In bytes
    pub const MEMORY_SIZE: usize = MEMORY_SIZE;

    /// In bytes
    pub const STACK_SIZE: usize = 2 * STACK_SLOTS;

    /// The stack never holds more than it has room for, and the
    /// configuration is one that a machine can be built from.
    #[verifier::type_invariant]
    spec fn inv(self) -> bool {
        &&& self.stack_len <= STACK_SLOTS
        &&& self.config.valid()
    }

    /// Builds a machine from `config`, with the font in memory and
    /// execution about to start at `config.program_start`.
    pub fn new(config: Chip8Config) -> (machine: Self)
        requires
            config.valid(),
        ensures
            machine@ == Machine::initial(config),
            machine@.wf(),
    {
        let mut memory = [0u8; MEMORY_SIZE];
        let start = config.font_start;
        let mut i: usize = 0;
        while i < FONT_SIZE
            invariant
                i <= FONT_SIZE,
                start == config.font_start,
                start + FONT_SIZE <= MEMORY_SIZE,
                forall|a: int|
                    0 <= a < MEMORY_SIZE ==> memory[a] == if start <= a < start + i {
                        config.font[a - start]
                    } else {
                        0u8
                    },
            decreases FONT_SIZE - i,
        {
            memory[start + i] = config.font[i];
            i += 1;
        }
        Self {
            framebuffer: [false; PIXELS],
            keys: [false; 16],
            pc: config.program_start,
            memory,
            index_reg: 0,
            stack: [0u16; STACK_SLOTS],
            stack_len: 0,
            delay_timer: 0,
            sound_timer: 0,
            variable_reg: [0u8; 16],
            ds_timer: Timer::new(1_000_000 / 60),
            program_timer: Timer::new(1_000_000 / (config.instructions_per_second as u128)),
            config,
            keypress_this_frame: None,
        }
    }

    /// Sets register `x`.
    fn set_register(&mut self, x: u8, value: u8)
        requires
            x < 16,
        ensures
            final(self)@ == old(self)@.with_register(x, value),
    {
        proof {
            use_type_invariant(&*self);
        }
        self.variable_reg[x as usize] = value;
    }

    /// Moves past the next instruction if `condition` holds.
    fn skip_if(&mut self, condition: bool)
        requires
            old(self)@.pc <= MEMORY_SIZE + 1,
        ensures
            final(self)@ == old(self)@.skip_if(condition),
    {
        proof {
            use_type_invariant(&*self);
        }
        if condition {
            self.pc = self.pc + 2;
        }
    }

    /// Continues execution at `target`.
    fn jump(&mut self, target: usize)
        ensures
            final(self)@ == (Machine { pc: target, ..old(self)@ }),
    {
        proof {
            use_type_invariant(&*self);
        }
        self.pc = target;
    }

    /// ANNN
    fn set_index(&mut self, nnn: u16)
        ensures
            final(self)@ == (Machine { index: nnn, ..old(self)@ }),
    {
        proof {
            use_type_invariant(&*self);
        }
        self.index_reg = nnn;
    }

    /// 00E0
    fn clear_screen(&mut self)
        ensures
            final(self)@ == old(self)@.execute(Instruction::ClearScreen, None, 0),
    {
        proof {
            use_type_invariant(&*self);
        }
        self.framebuffer = [false; PIXELS];
    }

    /// 00EE, with a return address on the stack
    fn pop_return_address(&mut self)
        requires
            old(self)@.stack.len() > 0,
        ensures
            final(self)@ == old(self)@.execute(Instruction::Return, None, 0),
    {
        proof {
            use_type_invariant(&*self);
        }
        self.pc = self.stack[self.stack_len - 1] as usize;
        self.stack_len = self.stack_len - 1;
    }

    /// 2NNN
    fn call(&mut self, nnn: u16)
        requires
            old(self)@.stack.len() < STACK_SLOTS,
        ensures
            final(self)@ == old(self)@.execute(Instruction::Call { nnn }, None, 0),
    {
        proof {
            use_type_invariant(&*self);
        }
        self.stack[self.stack_len] = self.pc as u16;
        self.stack_len = self.stack_len + 1;
        self.pc = nnn as usize;
    }

    /// 8XY6 and 8XYE
    fn shift(&mut self, x: u8, y: u8, left: bool)
        requires
            x < 16,
            y < 16,
        ensures
            final(self)@ == old(self)@.shift(x, y, left),
    {
        proof {
            use_type_invariant(&*self);
        }
        let vx = self.variable_reg[x as usize];
        self.variable_reg[0xF] = if left {
            vx & 0x80
        } else {
            vx & 1
        };
        let operand = if self.config.copy_vy_while_shifting {
            self.variable_reg[y as usize]
        } else {
            self.variable_reg[x as usize]
        };
        self.variable_reg[x as usize] = if left {
            operand << 1
        } else {
            operand >> 1
        };
    }

    /// FX1E
    fn add_index(&mut self, x: u8)
        requires
            x < 16,
        ensures
            final(self)@ == old(self)@.add_index(x),
    {
        proof {
            use_type_invariant(&*self);
        }
        self.index_reg = self.index_reg.wrapping_add(self.variable_reg[x as usize] as u16);
        if self.config.index_overflow_flag && self.index_reg > 0x0FFF {
            self.variable_reg[0xF] = 1;
        }
    }

    /// FX29
    fn font_glyph(&mut self, x: u8)
        requires
            x < 16,
        ensures
            final(self)@ == old(self)@.execute(Instruction::FontGlyph { x }, None, 0),
    {
        proof {
            use_type_invariant(&*self);
        }
        let vx = self.variable_reg[x as usize];
        let digit = (vx & 0xF) as u16;
        assert(vx & 0xF < 16) by (bit_vector);
        self.index_reg = self.config.font_start as u16 + digit * 5;
    }

    /// FX33
    fn decimal(&mut self, x: u8)
        requires
            x < 16,
            old(self)@.index + 2 < MEMORY_SIZE,
        ensures
            final(self)@ == old(self)@.decimal(x),
    {
        proof {
            use_type_invariant(&*self);
        }
        let vx = self.variable_reg[x as usize];
        let base = self.index_reg as usize;
        self.memory[base] = vx / 100;
        self.memory[base + 1] = (vx / 10) % 10;
        self.memory[base + 2] = vx % 10;
    }

    /// FX55
    fn save(&mut self, x: u8)
        requires
            x < 16,
            old(self)@.index + x < MEMORY_SIZE,
        ensures
            final(self)@ == old(self)@.save(x),
    {
        proof {
            use_type_invariant(&*self);
        }
        let ghost before = self@;
        let base = self.index_reg as usize;
        let count = x as usize + 1;
        let mut k: usize = 0;
        while k < count
            invariant
                k <= count <= 16,
                base + count <= MEMORY_SIZE,
                base == before.index,
                before.memory.len() == MEMORY_SIZE,
                before.registers.len() == 16,
                self@ == (Machine { memory: self@.memory, ..before }),
                forall|a: int|
                    0 <= a < MEMORY_SIZE ==> self@.memory[a] == if base <= a < base + k {
                        before.registers[a - base]
                    } else {
                        before.memory[a]
                    },
            decreases count - k,
        {
            proof {
                use_type_invariant(&*self);
            }
            self.memory[base + k] = self.variable_reg[k];
            k += 1;
        }
        proof {
            use_type_invariant(&*self);
        }
        if self.config.increment_index_during_save_load {
            self.index_reg = (base + count) as u16;
        }
    }

    /// FX65
    fn restore(&mut self, x: u8)
        requires
            x < 16,
            old(self)@.index + x < MEMORY_SIZE,
        ensures
            final(self)@ == old(self)@.restore(x),
    {
        proof {
            use_type_invariant(&*self);
        }
        let ghost before = self@;
        let base = self.index_reg as usize;
        let count = x as usize + 1;
        let mut k: usize = 0;
        while k < count
            invariant
                k <= count <= 16,
                base + count <= MEMORY_SIZE,
                base == before.index,
                before.memory.len() == MEMORY_SIZE,
                before.registers.len() == 16,
                self@ == (Machine { registers: self@.registers, ..before }),
                forall|r: int|
                    0 <= r < 16 ==> self@.registers[r] == if r < k {
                        before.memory[base + r]
                    } else {
                        before.registers[r]
                    },
            decreases count - k,
        {
            proof {
                use_type_invariant(&*self);
            }
            self.variable_reg[k] = self.memory[base + k];
            k += 1;
        }
        proof {
            use_type_invariant(&*self);
        }
        if self.config.increment_index_during_save_load {
            self.index_reg = (base + count) as u16;
        }
    }

    /// DXYN
    fn draw(&mut self, x: u8, y: u8, n: u8)
        requires
            x < 16,
            y < 16,
            old(self)@.can_execute(Instruction::Draw { x, y, n }),
        ensures
            final(self)@ == old(self)@.draw(x, y, n),
    {
        proof {
            use_type_invariant(&*self);
        }
        let ghost before = self@;
        let left = (self.variable_reg[x as usize] % 64) as usize;
        let top = (self.variable_reg[y as usize] % 32) as usize;
        let base = self.index_reg as usize;
        let rows = if n as usize <= 32 - top {
            n as usize
        } else {
            32 - top
        };
        self.variable_reg[0xF] = 0;
        // A pixel that the sprite turned off, once there is one.
        let ghost mut witness: int = 0;
        let mut row: usize = 0;
        while row < rows
            invariant
                x < 16,
                y < 16,
                row <= rows <= 32 - top,
                rows == before.rows_on_screen(y, n),
                rows > 0 ==> base + rows <= MEMORY_SIZE,
                left == before.registers[x as int] % 64,
                top == before.registers[y as int] % 32,
                base == before.index,
                before.memory.len() == MEMORY_SIZE,
                before.registers.len() == 16,
                before.framebuffer.len() == PIXELS,
                self@ == (Machine {
                    framebuffer: self@.framebuffer,
                    registers: self@.registers,
                    ..before
                }),
                self@.registers == before.registers.update(0xF, self@.registers[0xF]),
                self@.registers[0xF] == 0 || self@.registers[0xF] == 1,
                forall|p: int|
                    0 <= p < PIXELS ==> self@.framebuffer[p] == (before.framebuffer[p] != (
                    before.sprite_hits(x, y, n, p) && p / 64 - top < row)),
                self@.registers[0xF] == 1 ==> 0 <= witness < PIXELS
                    && before.framebuffer[witness] && before.sprite_hits(x, y, n, witness),
                forall|p: int|
                    0 <= p < PIXELS && before.framebuffer[p] && before.sprite_hits(
                        x,
                        y,
                        n,
                        p,
                    ) && p / 64 - top < row ==> self@.registers[0xF] == 1,
            decreases rows - row,
        {
            let data = self.memory[base + row];
            let mut col: u8 = 0;
            while col < 8 && left + (col as usize) < 64
                invariant
                    x < 16,
                    y < 16,
                    col <= 8,
                    row < rows <= 32 - top,
                    left < 64,
                    left == before.registers[x as int] % 64,
                    top == before.registers[y as int] % 32,
                    base == before.index,
                    base + row < MEMORY_SIZE,
                    data == before.memory[base + row],
                    row < n,
                    before.memory.len() == MEMORY_SIZE,
                    before.registers.len() == 16,
                    before.framebuffer.len() == PIXELS,
                    self@ == (Machine {
                        framebuffer: self@.framebuffer,
                        registers: self@.registers,
                        ..before
                    }),
                    self@.registers == before.registers.update(0xF, self@.registers[0xF]),
                    self@.registers[0xF] == 0 || self@.registers[0xF] == 1,
                    forall|p: int|
                        0 <= p < PIXELS ==> self@.framebuffer[p] == (before.framebuffer[p]
                            != (before.sprite_hits(x, y, n, p) && (p / 64 - top < row || (p / 64
                            - top == row && p % 64 - left < col)))),
                    self@.registers[0xF] == 1 ==> 0 <= witness < PIXELS
                        && before.framebuffer[witness] && before.sprite_hits(x, y, n, witness),
                    forall|p: int|
                        0 <= p < PIXELS && before.framebuffer[p] && before.sprite_hits(
                            x,
                            y,
                            n,
                            p,
                        ) && (p / 64 - top < row || (p / 64 - top == row && p % 64 - left < col))
                            ==> self@.registers[0xF] == 1,
                decreases 8 - col,
            {
                proof {
                    use_type_invariant(&*self);
                }
                let p = (top + row) * 64 + left + (col as usize);
                if data & (0x80u8 >> col) != 0 {
                    if self.framebuffer[p] {
                        self.framebuffer[p] = false;
                        self.variable_reg[0xF] = 1;
                        proof {
                            witness = p as int;
                        }
                    } else {
                        self.framebuffer[p] = true;
                    }
                }
                col += 1;
            }
            row += 1;
        }
    }

    /// Carries out `instruction`, with the program counter already past
    /// it. `key` is the key pressed since the previous tick, which only
    /// FX0A looks at; `entropy` is only looked at by CXNN.
    fn execute(&mut self, instruction: Instruction, key: Option<u8>, entropy: u8)
        requires
            instruction.wf(),
            old(self)@.can_execute(instruction),
            2 <= old(self)@.pc <= MEMORY_SIZE + 1,
            instruction is Return ==> old(self)@.stack.len() > 0,
        ensures
            final(self)@ == old(self)@.execute(instruction, key, entropy),
    {
        match instruction {
            Instruction::ClearScreen => self.clear_screen(),
            Instruction::Return => self.pop_return_address(),
            Instruction::Jump { nnn } => self.jump(nnn as usize),
            Instruction::Call { nnn } => self.call(nnn),
            Instruction::SkipIfEqual { x, nn } => {
                let vx = self.variable_reg[x as usize];
                self.skip_if(vx == nn)
            },
            Instruction::SkipIfNotEqual { x, nn } => {
                let vx = self.variable_reg[x as usize];
                self.skip_if(vx != nn)
            },
            Instruction::SkipIfRegistersEqual { x, y } => {
                let vx = self.variable_reg[x as usize];
                let vy = self.variable_reg[y as usize];
                self.skip_if(vx == vy)
            },
            Instruction::SkipIfRegistersDiffer { x, y } => {
                let vx = self.variable_reg[x as usize];
                let vy = self.variable_reg[y as usize];
                self.skip_if(vx != vy)
            },
            Instruction::JumpOffset { nnn } => {
                let v0 = self.variable_reg[0];
                self.jump((nnn + v0 as u16) as usize)
            },
            Instruction::SkipIfKeyDown { x } => {
                let vx = self.variable_reg[x as usize];
                self.skip_if(vx < 16 && self.keys[vx as usize])
            },
            Instruction::SkipIfKeyUp { x } => {
                let vx = self.variable_reg[x as usize];
                self.skip_if(vx < 16 && !self.keys[vx as usize])
            },
            Instruction::WaitKey { x } => match key {
                Some(k) => self.set_register(x, k),
                None => {
                    let again = self.pc - 2;
                    self.jump(again)
                },
            },
            Instruction::Load { x, nn } => self.set_register(x, nn),
            Instruction::AddImmediate { x, nn } => {
                let vx = self.variable_reg[x as usize];
                self.set_register(x, add_wrapping(vx, nn))
            },
            Instruction::Move { x, y } => {
                let vy = self.variable_reg[y as usize];
                self.set_register(x, vy)
            },
            Instruction::Or { x, y } => {
                let vx = self.variable_reg[x as usize];
                let vy = self.variable_reg[y as usize];
                self.set_register(x, vx | vy)
            },
            Instruction::And { x, y } => {
                let vx = self.variable_reg[x as usize];
                let vy = self.variable_reg[y as usize];
                self.set_register(x, vx & vy)
            },
            Instruction::Xor { x, y } => {
                let vx = self.variable_reg[x as usize];
                let vy = self.variable_reg[y as usize];
                self.set_register(x, vx ^ vy)
            },
            Instruction::Add { x, y } => {
                let vx = self.variable_reg[x as usize];
                let vy = self.variable_reg[y as usize];
                self.set_register(x, add_wrapping(vx, vy))
            },
            Instruction::Subtract { x, y } => {
                let vx = self.variable_reg[x as usize];
                let vy = self.variable_reg[y as usize];
                self.set_register(x, sub_wrapping(vx, vy))
            },
            Instruction::ShiftRight { x, y } => self.shift(x, y, false),
            Instruction::SubtractFrom { x, y } => {
                let vx = self.variable_reg[x as usize];
                let vy = self.variable_reg[y as usize];
                self.set_register(x, sub_wrapping(vy, vx))
            },
            Instruction::ShiftLeft { x, y } => self.shift(x, y, true),
            Instruction::Random { x, nn } => self.set_register(x, entropy & nn),
            Instruction::ReadDelay { x } => {
                let delay = self.delay_timer;
                self.set_register(x, delay)
            },
            Instruction::SetIndex { nnn } => self.set_index(nnn),
            Instruction::Draw { x, y, n } => self.draw(x, y, n),
            Instruction::SetDelay { x } => {
                proof {
                    use_type_invariant(&*self);
                }
                self.delay_timer = self.variable_reg[x as usize];
            },
            Instruction::SetSound { x } => {
                proof {
                    use_type_invariant(&*self);
                }
                self.sound_timer = self.variable_reg[x as usize];
            },
            Instruction::AddIndex { x } => self.add_index(x),
            Instruction::FontGlyph { x } => self.font_glyph(x),
            Instruction::Decimal { x } => self.decimal(x),
            Instruction::Save { x } => self.save(x),
            Instruction::Restore { x } => self.restore(x),
        }
    }

    /// One instruction cycle: fetch, move the program counter on, carry
    /// the instruction out.
    fn cycle(&mut self, key: Option<u8>, random_source: impl FnOnce() -> u8) -> (result: Result<
        (),
        Chip8Error,
    >)
        requires
            old(self)@.can_cycle(),
            old(self)@.draws_entropy() ==> call_requires(random_source, ()),
        ensures
            result == match old(self)@.cycle_fault() {
                Some(fault) => Err::<(), Chip8Error>(fault),
                None => Ok(()),
            },
            exists|entropy: u8|
                {
                    &&& old(self)@.draws_entropy() ==> call_ensures(random_source, (), entropy)
                    &&& final(self)@ == #[trigger] old(self)@.cycle(key, entropy)
                },
    {
        proof {
            use_type_invariant(&*self);
        }
        let at = self.pc;
        let hi = self.memory[at];
        let lo = self.memory[at + 1];
        self.pc = at + 2;
        match Instruction::decode(hi, lo) {
            None => {
                assert(self@ == old(self)@.cycle(key, 0));
                Err(Self::invalid_instruction(at, hi, lo))
            },
            Some(Instruction::Return) if self.stack_len == 0 => {
                assert(self@ == old(self)@.cycle(key, 0));
                Err(Self::pop_empty_stack(at, hi, lo))
            },
            Some(instruction) => {
                let entropy = match instruction {
                    Instruction::Random { .. } => random_source(),
                    _ => 0,
                };
                self.execute(instruction, key, entropy);
                assert(self@ == old(self)@.cycle(key, entropy));
                Ok(())
            },
        }
    }

    /// The fault for bytes `hi lo` at `pc` that encode no instruction.
    fn invalid_instruction(pc: usize, hi: u8, lo: u8) -> (fault: Chip8Error)
        ensures
            fault == (Chip8Error::InvalidInstruction {
                pc,
                nibble_0: hi / 16,
                nibble_1: hi % 16,
                nibble_2: lo / 16,
                nibble_3: lo % 16,
            }),
    {
        let (nibble_0, nibble_1) = nibbles(hi);
        let (nibble_2, nibble_3) = nibbles(lo);
        Chip8Error::InvalidInstruction { pc, nibble_0, nibble_1, nibble_2, nibble_3 }
    }

    /// The fault for a return, encoded by `hi lo` at `pc`, that finds the
    /// call stack empty.
    fn pop_empty_stack(pc: usize, hi: u8, lo: u8) -> (fault: Chip8Error)
        ensures
            fault == (Chip8Error::PopEmptyStack {
                pc,
                nibble_0: hi / 16,
                nibble_1: hi % 16,
                nibble_2: lo / 16,
                nibble_3: lo % 16,
            }),
    {
        let (nibble_0, nibble_1) = nibbles(hi);
        let (nibble_2, nibble_3) = nibbles(lo);
        Chip8Error::PopEmptyStack { pc, nibble_0, nibble_1, nibble_2, nibble_3 }
    }

    /// Lets `delta` microseconds pass: the delay and sound timers count
    /// down at 60 Hz, and when the instruction clock fires, one instruction
    /// cycle runs. `random_source` is asked for a byte only by CXNN.
    ///
    /// The caller sees to it that a cycle that is due can run: see
    /// [`Chip8::can_update`].
    pub fn update(&mut self, delta: u128, random_source: impl FnOnce() -> u8) -> (result: Result<
        (),
        Chip8Error,
    >)
        requires
            old(self)@.cycle_due(delta) ==> old(self)@.can_cycle(),
            old(self)@.cycle_due(delta) && old(self)@.draws_entropy() ==> call_requires(
                random_source,
                (),
            ),
        ensures
            result == match old(self)@.tick_fault(delta) {
                Some(fault) => Err::<(), Chip8Error>(fault),
                None => Ok(()),
            },
            exists|entropy: u8|
                {
                    &&& old(self)@.cycle_due(delta) && old(self)@.draws_entropy() ==> call_ensures(
                        random_source,
                        (),
                        entropy,
                    )
                    &&& final(self)@ == #[trigger] old(self)@.tick(delta, entropy)
                },
            final(self)@.wf(),
    {
        proof {
            use_type_invariant(&*self);
        }
        let key = self.keypress_this_frame;
        self.keypress_this_frame = None;
        if self.ds_timer.check(delta) {
            if self.delay_timer > 0 {
                self.delay_timer = self.delay_timer - 1;
            }
            if self.sound_timer > 0 {
                self.sound_timer = self.sound_timer - 1;
            }
        }
        let due = self.program_timer.check(delta);
        let ghost ticked = self@;
        assert(ticked == old(self)@.tick_clocks(delta));
        let result = if due {
            let result = self.cycle(key, random_source);
            proof {
                let entropy = choose|entropy: u8|
                    {
                        &&& ticked.draws_entropy() ==> call_ensures(random_source, (), entropy)
                        &&& self@ == #[trigger] ticked.cycle(key, entropy)
                    };
                assert(self@ == old(self)@.tick(delta, entropy));
            }
            result
        } else {
            assert(self@ == old(self)@.tick(delta, 0));
            Ok(())
        };
        proof {
            use_type_invariant(&*self);
        }
        result
    }

    /// Copies `program` into memory, from `program_start` on.
    pub fn set_program(&mut self, program: &[u8])
        requires
            old(self)@.config.program_start + program@.len() <= MEMORY_SIZE,
        ensures
            final(self)@ == old(self)@.with_program(program@),
            final(self)@.wf(),
    {
        proof {
            use_type_invariant(&*self);
        }
        let ghost before = self@;
        let start = self.config.program_start;
        let mut i: usize = 0;
        while i < program.len()
            invariant
                i <= program@.len(),
                start == before.config.program_start,
                start + program@.len() <= MEMORY_SIZE,
                before.memory.len() == MEMORY_SIZE,
                self@ == (Machine { memory: self@.memory, ..before }),
                forall|a: int|
                    0 <= a < MEMORY_SIZE ==> self@.memory[a] == if start <= a < start + i {
                        program@[a - start]
                    } else {
                        before.memory[a]
                    },
            decreases program@.len() - i,
        {
            proof {
                use_type_invariant(&*self);
            }
            self.memory[start + i] = program[i];
            i += 1;
        }
        proof {
            use_type_invariant(&*self);
        }
    }

    /// Whether an instruction cycle can run now: see
    /// [`Machine::can_cycle`].
    pub fn can_cycle(&self) -> (ok: bool)
        ensures
            ok == self@.can_cycle(),
    {
        proof {
            use_type_invariant(self);
        }
        if self.pc >= MEMORY_SIZE - 1 {
            return false;
        }
        let index = self.index_reg as usize;
        match Instruction::decode(self.memory[self.pc], self.memory[self.pc + 1]) {
            Some(Instruction::Call { .. }) => self.stack_len < STACK_SLOTS,
            Some(Instruction::Draw { x, y, n }) => {
                let top = (self.variable_reg[y as usize] % 32) as usize;
                let rows = if n as usize <= 32 - top {
                    n as usize
                } else {
                    32 - top
                };
                rows == 0 || index + rows <= MEMORY_SIZE
            },
            Some(Instruction::Decimal { .. }) => index + 2 < MEMORY_SIZE,
            Some(Instruction::Save { x }) => index + (x as usize) < MEMORY_SIZE,
            Some(Instruction::Restore { x }) => index + (x as usize) < MEMORY_SIZE,
            _ => true,
        }
    }

    /// Whether [`Chip8::update`] may be called with `delta`: either no
    /// instruction cycle is due after `delta` microseconds, or the cycle
    /// can run.
    pub fn can_update(&self, delta: u128) -> (ok: bool)
        ensures
            ok == (self@.cycle_due(delta) ==> self@.can_cycle()),
    {
        !self.program_timer.is_due(delta) || self.can_cycle()
    }

    /// The 64 by 32 pixels, row by row.
    pub fn framebuffer(&self) -> (pixels: &[bool; PIXELS])
        ensures
            pixels@ == self@.framebuffer,
    {
        &self.framebuffer
    }

    /// The whole memory.
    pub fn memory(&self) -> (bytes: &[u8; MEMORY_SIZE])
        ensures
            bytes@ == self@.memory,
    {
        &self.memory
    }

    /// V0 to VF.
    pub fn registers(&self) -> (values: &[u8; 16])
        ensures
            values@ == self@.registers,
    {
        &self.variable_reg
    }

    /// Which of the sixteen keys are held down.
    pub fn keys(&self) -> (down: &[bool; 16])
        ensures
            down@ == self@.keys,
    {
        &self.keys
    }

    pub fn index_register(&self) -> (index: u16)
        ensures
            index == self@.index,
    {
        self.index_reg
    }

    pub fn program_counter(&self) -> (pc: usize)
        ensures
            pc == self@.pc,
    {
        self.pc
    }

    /// How many return addresses the call stack holds.
    pub fn stack_depth(&self) -> (depth: usize)
        ensures
            depth == self@.stack.len(),
            depth <= STACK_SLOTS,
    {
        proof {
            use_type_invariant(self);
        }
        self.stack_len
    }

    pub fn delay_timer(&self) -> (value: u8)
        ensures
            value == self@.delay_timer,
    {
        self.delay_timer
    }

    pub fn sound_timer(&self) -> (value: u8)
        ensures
            value == self@.sound_timer,
    {
        self.sound_timer
    }

    /// The configuration the machine was built from.
    pub fn config(&self) -> (config: &Chip8Config)
        ensures
            *config == self@.config,
            config.valid(),
    {
        proof {
            use_type_invariant(self);
        }
        &self.config
    }

    /// Whether the sound timer is running.
    pub fn should_play_sound(&self) -> (playing: bool)
        ensures
            playing == (self@.sound_timer > 0),
    {
        self.sound_timer > 0
    }

    /// Registers that `key` went down.
    pub fn press(&mut self, key: u8)
        requires
            key < 16,
        ensures
            final(self)@ == old(self)@.with_key_pressed(key),
            final(self)@.wf(),
    {
        proof {
            use_type_invariant(&*self);
        }
        self.keys[key as usize] = true;
        self.keypress_this_frame = Some(key);
    }

    /// Registers that `key` came up.
    pub fn release(&mut self, key: u8)
        requires
            key < 16,
        ensures
            final(self)@ == old(self)@.with_key_released(key),
            final(self)@.wf(),
    {
        proof {
            use_type_invariant(&*self);
        }
        self.keys[key as usize] = false;
    }
}

} // verus!
