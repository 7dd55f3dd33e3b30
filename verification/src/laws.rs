//! What follows from the model: laws that hold of every machine state.

use crate::config::Chip8Config;
use crate::error::{hex, hex3, Chip8Error};
use crate::instruction::{decode, Instruction};
use crate::model::{Machine, MEMORY_SIZE, PIXELS, STACK_SLOTS};
use crate::timer::{timer_after, timer_fires, TimerView};
use vstd::prelude::*;

verus! {

/// Whether the two bytes at the program counter of `m` are `hi lo`, and
/// both lie in memory.
pub open spec fn at_pc(m: Machine, hi: int, lo: int) -> bool {
    &&& m.pc + 1 < MEMORY_SIZE
    &&& m.memory[m.pc as int] == hi
    &&& m.memory[m.pc + 1] == lo
}

/// The operands of a decoded instruction are in range: register numbers
/// come from one hex digit and addresses from three, so no instruction can
/// name a register that does not exist.
pub proof fn law_decoded_operands_in_range(hi: u8, lo: u8)
    ensures
        decode(hi, lo) matches Some(instruction) ==> instruction.wf(),
{
}

/// Decoding undoes encoding: every instruction with operands in range is
/// what its own byte pair decodes to.
pub proof fn law_decode_inverts_encode(instruction: Instruction)
    requires
        instruction.wf(),
    ensures
        decode(instruction.encode().0, instruction.encode().1) == Some(instruction),
{
}

/// Encoding undoes decoding: a byte pair that decodes to an instruction
/// is that instruction's own byte pair, so no two byte pairs stand for the
/// same instruction.
pub proof fn law_encode_inverts_decode(hi: u8, lo: u8)
    ensures
        decode(hi, lo) matches Some(instruction) ==> instruction.encode() == (hi, lo),
{
}

/// The byte pairs that encode no instruction, family by family: in family
/// 0 all but 00E0 and 00EE; 5XYN and 9XYN with a last digit other than 0;
/// 8XYN with a last digit of 8 to D or F; in family E all but EX9E and
/// EXA1; in family F all but the nine low bytes that are listed. Every
/// other byte pair encodes an instruction.
pub proof fn law_undefined_byte_pairs(hi: u8, lo: u8)
    ensures
        decode(hi, lo) is None <==> {
            ||| hi / 16 == 0x0 && !(hi == 0x00 && (lo == 0xE0 || lo == 0xEE))
            ||| (hi / 16 == 0x5 || hi / 16 == 0x9) && lo % 16 != 0
            ||| hi / 16 == 0x8 && (0x8 <= lo % 16 <= 0xD || lo % 16 == 0xF)
            ||| hi / 16 == 0xE && lo != 0x9E && lo != 0xA1
            ||| hi / 16 == 0xF && lo != 0x07 && lo != 0x0A && lo != 0x15 && lo != 0x18 && lo
                != 0x1E && lo != 0x29 && lo != 0x33 && lo != 0x55 && lo != 0x65
        },
{
}

/// A timer that fired has started again from nothing, however far the
/// delta went beyond the period: the time after it, if shorter than one
/// period, does not make it fire again.
pub proof fn law_timer_does_not_catch_up(t: TimerView, delta: u128, next: u128)
    requires
        timer_fires(t, delta),
        next < t.period,
    ensures
        timer_after(t, delta).accumulated == 0,
        !timer_fires(timer_after(t, delta), next),
{
}

/// After any check, a timer with a period holds less than that period.
pub proof fn law_timer_stays_below_period(t: TimerView, delta: u128)
    requires
        t.period > 0,
    ensures
        timer_after(t, delta).accumulated < t.period,
        timer_after(t, delta).period == t.period,
{
}

/// A fresh timer fires on the first delta that is as long as its period,
/// and not on a shorter one.
pub proof fn law_fresh_timer_fires_at_period(period: nat, delta: u128)
    ensures
        timer_fires(TimerView { accumulated: 0, period }, delta) <==> delta >= period,
{
}

/// A machine fresh from construction runs its first instruction cycle on
/// the first tick that is as long as one instruction period, which is the
/// whole number of microseconds in 1 / `instructions_per_second` seconds.
pub proof fn law_first_cycle_after_one_period(config: Chip8Config, delta: u128)
    requires
        config.valid(),
    ensures
        Machine::initial(config).cycle_due(delta) <==> delta >= 1_000_000int / (
        config.instructions_per_second as int),
        config.instructions_per_second == 700 ==> (Machine::initial(config).cycle_due(delta)
            <==> delta >= 1428),
{
}

/// A host tick keeps the state well formed, provided the cycle that is due
/// can run.
pub proof fn law_tick_preserves_wf(m: Machine, delta: u128, entropy: u8)
    requires
        m.wf(),
        m.cycle_due(delta) ==> m.can_cycle(),
    ensures
        m.tick(delta, entropy).wf(),
{
    if m.cycle_due(delta) {
        law_cycle_preserves_wf(m.tick_clocks(delta), m.key_latch, entropy);
    }
}

/// A tick that ran an instruction cycle leaves nothing on the instruction
/// clock, however long it was: no cycle is due again before a whole period
/// has passed.
pub proof fn law_tick_does_not_catch_up(m: Machine, delta: u128, entropy: u8, next: u128)
    requires
        m.wf(),
        m.cycle_due(delta),
        next < m.cpu_clock.period,
    ensures
        m.tick(delta, entropy).cpu_clock == (TimerView {
            accumulated: 0,
            period: m.cpu_clock.period,
        }),
        !m.tick(delta, entropy).cycle_due(next),
{
}

/// An instruction cycle keeps the state well formed.
pub proof fn law_cycle_preserves_wf(m: Machine, key: Option<u8>, entropy: u8)
    requires
        m.wf(),
        m.can_cycle(),
    ensures
        m.cycle(key, entropy).wf(),
{
}

/// What an instruction cycle can touch. The screen changes only under 00E0
/// and DXYN, memory only under FX33 and FX55, and the call stack only under
/// 2NNN and 00EE. The keys, the key latch, the clocks and the configuration
/// do not change at all, and the two timers only under FX15 and FX18.
pub proof fn law_cycle_footprint(m: Machine, key: Option<u8>, entropy: u8)
    requires
        m.wf(),
        m.pc + 1 < MEMORY_SIZE,
    ensures
        ({
            let after = m.cycle(key, entropy);
            &&& match m.fetch() {
                Some(Instruction::ClearScreen) => true,
                Some(Instruction::Draw { .. }) => true,
                _ => after.framebuffer == m.framebuffer,
            }
            &&& match m.fetch() {
                Some(Instruction::Decimal { .. }) => true,
                Some(Instruction::Save { .. }) => true,
                _ => after.memory == m.memory,
            }
            &&& match m.fetch() {
                Some(Instruction::Call { .. }) => true,
                Some(Instruction::Return) => true,
                _ => after.stack == m.stack,
            }
            &&& match m.fetch() {
                Some(Instruction::SetDelay { .. }) => true,
                _ => after.delay_timer == m.delay_timer,
            }
            &&& match m.fetch() {
                Some(Instruction::SetSound { .. }) => true,
                _ => after.sound_timer == m.sound_timer,
            }
            &&& after.keys == m.keys
            &&& after.key_latch == m.key_latch
            &&& after.delay_clock == m.delay_clock
            &&& after.cpu_clock == m.cpu_clock
            &&& after.config == m.config
        }),
{
}

/// A cycle that faults has moved the program counter past the faulting
/// instruction and changed nothing else.
pub proof fn law_fault_only_advances(m: Machine, key: Option<u8>, entropy: u8)
    requires
        m.wf(),
        m.pc + 1 < MEMORY_SIZE,
        m.cycle_fault() is Some,
    ensures
        m.cycle(key, entropy) == (Machine { pc: (m.pc + 2) as usize, ..m }),
{
}

/// 6XNN puts NN into VX, all eight bits of it, and touches no other
/// register.
pub proof fn law_load_is_exact(m: Machine, x: u8, nn: u8, key: Option<u8>, entropy: u8)
    requires
        m.wf(),
        x < 16,
        at_pc(m, 0x60 + x, nn as int),
    ensures
        m.cycle_fault() is None,
        m.cycle(key, entropy) == (Machine {
            pc: (m.pc + 2) as usize,
            registers: m.registers.update(x as int, nn),
            ..m
        }),
        m.cycle(key, entropy).registers[x as int] == nn,
{
}

/// A byte loaded into VX comes back unchanged when it is read back by way
/// of the delay timer: after 6XNN, FX15 and FY07, both VX and VY hold NN.
pub proof fn law_load_reads_back(
    m: Machine,
    x: u8,
    y: u8,
    nn: u8,
    keys: (Option<u8>, Option<u8>, Option<u8>),
    entropy: (u8, u8, u8),
)
    requires
        m.wf(),
        x < 16,
        y < 16,
        m.pc + 5 < MEMORY_SIZE,
        m.memory[m.pc as int] == 0x60 + x,
        m.memory[m.pc + 1] == nn,
        m.memory[m.pc + 2] == 0xF0 + x,
        m.memory[m.pc + 3] == 0x15,
        m.memory[m.pc + 4] == 0xF0 + y,
        m.memory[m.pc + 5] == 0x07,
    ensures
        ({
            let after = m.cycle(keys.0, entropy.0).cycle(keys.1, entropy.1).cycle(
                keys.2,
                entropy.2,
            );
            &&& after.registers[x as int] == nn
            &&& after.registers[y as int] == nn
            &&& after.delay_timer == nn
            &&& after.pc == m.pc + 6
        }),
{
    let loaded = m.cycle(keys.0, entropy.0);
    assert(loaded == (Machine {
        pc: (m.pc + 2) as usize,
        registers: m.registers.update(x as int, nn),
        ..m
    }));
    let stored = loaded.cycle(keys.1, entropy.1);
    assert(stored == (Machine { pc: (m.pc + 4) as usize, delay_timer: nn, ..loaded }));
}

/// 7XNN, 8XY4, 8XY5 and 8XY7 compute modulo 256, and write VX only: no
/// carry or borrow goes to VF.
pub proof fn law_arithmetic_wraps(m: Machine, x: u8, y: u8, nn: u8, key: Option<u8>, entropy: u8)
    requires
        m.wf(),
        x < 16,
        y < 16,
    ensures
        at_pc(m, 0x70 + x, nn as int) ==> m.cycle(key, entropy) == (Machine {
            pc: (m.pc + 2) as usize,
            registers: m.registers.update(
                x as int,
                ((m.registers[x as int] + nn) % 256) as u8,
            ),
            ..m
        }),
        at_pc(m, 0x80 + x, 16 * y + 4) ==> m.cycle(key, entropy) == (Machine {
            pc: (m.pc + 2) as usize,
            registers: m.registers.update(
                x as int,
                ((m.registers[x as int] + m.registers[y as int]) % 256) as u8,
            ),
            ..m
        }),
        at_pc(m, 0x80 + x, 16 * y + 5) ==> m.cycle(key, entropy) == (Machine {
            pc: (m.pc + 2) as usize,
            registers: m.registers.update(
                x as int,
                ((m.registers[x as int] - m.registers[y as int]) % 256) as u8,
            ),
            ..m
        }),
        at_pc(m, 0x80 + x, 16 * y + 7) ==> m.cycle(key, entropy) == (Machine {
            pc: (m.pc + 2) as usize,
            registers: m.registers.update(
                x as int,
                ((m.registers[y as int] - m.registers[x as int]) % 256) as u8,
            ),
            ..m
        }),
{
}

/// A call followed at once by a return comes back to the instruction
/// after the call, and leaves everything else as it was: 2NNN with 00EE at
/// address NNN. The call needs a free stack slot, and the return must lie
/// in memory.
pub proof fn law_call_then_return(
    m: Machine,
    nnn: u16,
    key: Option<u8>,
    entropy: u8,
    next_key: Option<u8>,
    next_entropy: u8,
)
    requires
        m.wf(),
        nnn + 1 < MEMORY_SIZE,
        at_pc(m, 0x20 + nnn / 256, (nnn % 256) as int),
        m.memory[nnn as int] == 0x00,
        m.memory[nnn + 1] == 0xEE,
        m.stack.len() < STACK_SLOTS,
    ensures
        m.can_cycle(),
        m.cycle_fault() is None,
        m.cycle(key, entropy).pc == nnn,
        m.cycle(key, entropy).stack == m.stack.push((m.pc + 2) as u16),
        m.cycle(key, entropy).can_cycle(),
        m.cycle(key, entropy).cycle_fault() is None,
        m.cycle(key, entropy).cycle(next_key, next_entropy) == (Machine {
            pc: (m.pc + 2) as usize,
            ..m
        }),
{
    let called = m.cycle(key, entropy);
    assert(called.stack.drop_last() == m.stack);
}

/// A return that finds the call stack empty raises `PopEmptyStack` with
/// the address of that return, and pops nothing.
pub proof fn law_return_on_empty_stack(m: Machine, key: Option<u8>, entropy: u8)
    requires
        m.wf(),
        at_pc(m, 0x00, 0xEE),
        m.stack.len() == 0,
    ensures
        m.can_cycle(),
        m.cycle_fault() == Some(
            Chip8Error::PopEmptyStack {
                pc: m.pc,
                nibble_0: 0x0,
                nibble_1: 0x0,
                nibble_2: 0xE,
                nibble_3: 0xE,
            },
        ),
        m.cycle(key, entropy) == (Machine { pc: (m.pc + 2) as usize, ..m }),
{
}

/// Bytes that encode no instruction raise `InvalidInstruction` with their
/// own address and their four hex digits.
pub proof fn law_invalid_instruction(m: Machine, key: Option<u8>, entropy: u8)
    requires
        m.wf(),
        m.pc + 1 < MEMORY_SIZE,
        m.fetch() is None,
    ensures
        m.can_cycle(),
        m.cycle_fault() == Some(
            Chip8Error::InvalidInstruction {
                pc: m.pc,
                nibble_0: m.memory[m.pc as int] / 16,
                nibble_1: m.memory[m.pc as int] % 16,
                nibble_2: m.memory[m.pc + 1] / 16,
                nibble_3: m.memory[m.pc + 1] % 16,
            },
        ),
        m.cycle(key, entropy) == (Machine { pc: (m.pc + 2) as usize, ..m }),
{
}

/// Drawing never wraps round the screen: a pixel to the left of the
/// sprite's corner, or above it, keeps its value, and so does every pixel
/// that is eight or more columns, or N or more rows, away from the corner.
pub proof fn law_draw_is_clipped(m: Machine, x: u8, y: u8, n: u8, p: int)
    requires
        m.wf(),
        x < 16,
        y < 16,
        0 <= p < PIXELS,
        ({
            let left = m.registers[x as int] % 64;
            let top = m.registers[y as int] % 32;
            ||| p % 64 < left
            ||| p % 64 >= left + 8
            ||| p / 64 < top
            ||| p / 64 >= top + n
        }),
    ensures
        m.draw(x, y, n).framebuffer[p] == m.framebuffer[p],
{
}

/// Drawing the same sprite twice at the same place restores the screen,
/// and the second draw reports a collision exactly if the first one lit a
/// pixel. The two draws are at the same place only if neither coordinate
/// register is VF, which the first draw overwrites.
pub proof fn law_draw_twice_restores(
    m: Machine,
    x: u8,
    y: u8,
    n: u8,
    key: Option<u8>,
    entropy: u8,
    next_key: Option<u8>,
    next_entropy: u8,
)
    requires
        m.wf(),
        x < 0xF,
        y < 0xF,
        n < 16,
        at_pc(m, 0xD0 + x, 16 * y + n),
        m.pc + 3 < MEMORY_SIZE,
        m.memory[m.pc + 2] == 0xD0 + x,
        m.memory[m.pc + 3] == 16 * y + n,
    ensures
        m.cycle(key, entropy).cycle(next_key, next_entropy).framebuffer == m.framebuffer,
        m.cycle(key, entropy).cycle(next_key, next_entropy).registers[0xF] == 1 <==> exists|
            p: int,
        |
            0 <= p < PIXELS && !m.framebuffer[p] && #[trigger] m.sprite_hits(x, y, n, p),
        m.cycle(key, entropy).cycle(next_key, next_entropy).registers[0xF] == 0 || m.cycle(
            key,
            entropy,
        ).cycle(next_key, next_entropy).registers[0xF] == 1,
{
    let once = m.cycle(key, entropy);
    let twice = once.cycle(next_key, next_entropy);
    assert(once == (Machine { pc: (m.pc + 2) as usize, ..m }).draw(x, y, n));
    assert(twice == (Machine { pc: (once.pc + 2) as usize, ..once }).draw(x, y, n));
    assert forall|p: int| 0 <= p < PIXELS implies once.sprite_hits(x, y, n, p)
        == m.sprite_hits(x, y, n, p) by {}
    assert(twice.framebuffer =~= m.framebuffer);
    let lit = exists|p: int|
        0 <= p < PIXELS && !m.framebuffer[p] && #[trigger] m.sprite_hits(x, y, n, p);
    let advanced = Machine { pc: (once.pc + 2) as usize, ..once };
    if lit {
        let p = choose|p: int|
            0 <= p < PIXELS && !m.framebuffer[p] && #[trigger] m.sprite_hits(x, y, n, p);
        assert(advanced.framebuffer[p] && advanced.sprite_hits(x, y, n, p));
        assert(advanced.sprite_collides(x, y, n));
    }
    if advanced.sprite_collides(x, y, n) {
        let p = choose|p: int|
            0 <= p < PIXELS && advanced.framebuffer[p] && #[trigger] advanced.sprite_hits(
                x,
                y,
                n,
                p,
            );
        assert(!m.framebuffer[p] && m.sprite_hits(x, y, n, p));
    }
}

/// FX0A waits by running again: with no key pressed since the previous
/// tick, the tick leaves the program counter on the instruction and the
/// registers alone; with key K pressed, it moves on and VX holds K.
pub proof fn law_wait_key(m: Machine, x: u8, k: u8, delta: u128, entropy: u8)
    requires
        m.wf(),
        x < 16,
        k < 16,
        at_pc(m, 0xF0 + x, 0x0A),
        m.cycle_due(delta),
    ensures
        m.can_cycle(),
        m.with_key_pressed(k).can_cycle(),
        m.with_key_pressed(k).cycle_due(delta),
        m.tick_fault(delta) is None,
        m.key_latch is None ==> m.tick(delta, entropy) == m.tick_clocks(delta),
        m.key_latch is None ==> m.tick(delta, entropy).pc == m.pc,
        m.with_key_pressed(k).tick(delta, entropy).pc == m.pc + 2,
        m.with_key_pressed(k).tick(delta, entropy).registers == m.registers.update(x as int, k),
        m.with_key_pressed(k).tick(delta, entropy).key_latch is None,
{
    let ticked = m.tick_clocks(delta);
    assert(m.key_latch is None ==> ticked.cycle(None, entropy) == ticked);
}

/// FX33 writes the three decimal digits of VX, most significant first.
pub proof fn law_decimal_digits(m: Machine, x: u8, key: Option<u8>, entropy: u8)
    requires
        m.wf(),
        x < 16,
        at_pc(m, 0xF0 + x, 0x33),
        m.index + 2 < MEMORY_SIZE,
    ensures
        m.can_cycle(),
        ({
            let after = m.cycle(key, entropy);
            let i = m.index as int;
            &&& after.memory[i] < 10 && after.memory[i + 1] < 10 && after.memory[i + 2] < 10
            &&& 100 * after.memory[i] + 10 * after.memory[i + 1] + after.memory[i + 2]
                == m.registers[x as int]
            &&& forall|a: int|
                0 <= a < MEMORY_SIZE && !(i <= a <= i + 2) ==> after.memory[a] == m.memory[a]
        }),
{
    let vx = m.registers[x as int];
    let i = m.index as int;
    assert(m.fetch() == Some(Instruction::Decimal { x }));
    let advanced = Machine { pc: (m.pc + 2) as usize, ..m };
    assert(m.cycle(key, entropy) == advanced.decimal(x));
    let after = advanced.decimal(x);
    assert(after.memory[i] == vx / 100);
    assert(after.memory[i + 1] == (vx / 10) % 10);
    assert(after.memory[i + 2] == vx % 10);
    assert(100 * (vx / 100) + 10 * ((vx / 10) % 10) + vx % 10 == vx) by (nonlinear_arith)
        requires
            0 <= vx < 256,
    ;
}

/// Hex numbers have as many digits as they need and no more; the padded
/// form never cuts a digit, and has three digits exactly for every address
/// of the machine.
pub proof fn law_hex_width(n: nat)
    ensures
        hex(n).len() >= 1,
        n < 0x10 <==> hex(n).len() == 1,
        0x10 <= n < 0x100 <==> hex(n).len() == 2,
        hex3(n).len() >= 3,
        n < 0x1000 ==> hex3(n).len() == 3,
    decreases n,
{
    if n >= 16 {
        law_hex_width(n / 16);
    }
}

} // verus!
