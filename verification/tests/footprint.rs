use chip8::{Chip8, Chip8Config};

const CYCLE: u128 = 1_000_000 / 700;

/// A machine with something on the screen, a call on the stack, values in
/// the registers and a key held, about to run the instruction `hi lo` at
/// 0x300.
fn busy_machine(hi: u8, lo: u8) -> Chip8 {
    let mut program = vec![0u8; 0x102];
    // V1 := 7, I := glyph of 0, draw it, I := 0x400, call 0x300
    program[..10].copy_from_slice(&[0x61, 0x07, 0xA0, 0x50, 0xD0, 0x05, 0xA4, 0x00, 0x23, 0x00]);
    program[0x100] = hi;
    program[0x101] = lo;
    let mut machine = Chip8::new(Chip8Config::default());
    machine.set_program(&program);
    machine.press(7);
    for _ in 0..5 {
        assert_eq!(machine.update(CYCLE, || 0), Ok(()));
    }
    assert_eq!(machine.program_counter(), 0x300);
    machine
}

#[test]
fn an_instruction_touches_only_what_is_its_own() {
    for word in (0..=0xFFFFu32).step_by(3) {
        let hi = (word >> 8) as u8;
        let lo = word as u8;
        let mut machine = busy_machine(hi, lo);
        machine.press(7);
        let screen = *machine.framebuffer();
        let memory = *machine.memory();
        let keys = *machine.keys();
        let depth = machine.stack_depth();
        let delay = machine.delay_timer();
        let sound = machine.sound_timer();
        assert!(machine.can_update(CYCLE));
        let _ = machine.update(CYCLE, || 0x5A);
        let family = hi >> 4;
        if !(family == 0xD || (hi, lo) == (0x00, 0xE0)) {
            assert_eq!(machine.framebuffer(), &screen, "{word:04X}");
        }
        if !(family == 0xF && (lo == 0x33 || lo == 0x55)) {
            assert_eq!(machine.memory(), &memory, "{word:04X}");
        }
        if !(family == 0x2 || (hi, lo) == (0x00, 0xEE)) {
            assert_eq!(machine.stack_depth(), depth, "{word:04X}");
        }
        if !(family == 0xF && lo == 0x15) {
            assert_eq!(machine.delay_timer(), delay, "{word:04X}");
        }
        if !(family == 0xF && lo == 0x18) {
            assert_eq!(machine.sound_timer(), sound, "{word:04X}");
        }
        assert_eq!(machine.keys(), &keys, "{word:04X}");
    }
}

#[test]
fn a_call_pushes_and_a_return_pops() {
    let mut machine = busy_machine(0x24, 0x00);
    assert_eq!(machine.stack_depth(), 1);
    assert_eq!(machine.update(CYCLE, || 0), Ok(()));
    assert_eq!(machine.stack_depth(), 2);
    let mut machine = busy_machine(0x00, 0xEE);
    assert_eq!(machine.update(CYCLE, || 0), Ok(()));
    assert_eq!(machine.stack_depth(), 0);
    assert_eq!(machine.program_counter(), 0x20A);
}
