use chip8::{Chip8, Chip8Config};

const CYCLE: u128 = 1_000_000 / 700;

const FRAME: u128 = 1_000_000 / 60;

fn machine(program: &[u8]) -> Chip8 {
    let mut machine = Chip8::new(Chip8Config::default());
    machine.set_program(program);
    machine
}

#[test]
fn the_periods_are_whole_microseconds() {
    assert_eq!(CYCLE, 1428);
    assert_eq!(FRAME, 16_666);
}

#[test]
fn one_period_runs_exactly_one_cycle() {
    let mut m = machine(&[0x70, 0x01, 0x70, 0x01, 0x70, 0x01]);
    assert_eq!(m.update(CYCLE, || 0), Ok(()));
    assert_eq!(m.registers()[0], 1);
    assert_eq!(m.program_counter(), 0x202);
}

#[test]
fn ten_periods_at_once_still_run_one_cycle() {
    let mut m = machine(&[0x70, 0x01, 0x70, 0x01, 0x70, 0x01]);
    assert_eq!(m.update(10 * CYCLE, || 0), Ok(()));
    assert_eq!(m.registers()[0], 1);
    assert_eq!(m.program_counter(), 0x202);
    // nothing was kept for later
    assert_eq!(m.update(CYCLE - 1, || 0), Ok(()));
    assert_eq!(m.registers()[0], 1);
    assert_eq!(m.update(1, || 0), Ok(()));
    assert_eq!(m.registers()[0], 2);
}

#[test]
fn less_than_a_period_runs_no_cycle() {
    let mut m = machine(&[0x70, 0x01, 0x70, 0x01]);
    assert_eq!(m.update(CYCLE - 1, || 0), Ok(()));
    assert_eq!(m.registers()[0], 0);
    assert_eq!(m.program_counter(), 0x200);
    assert_eq!(m.update(0, || 0), Ok(()));
    assert_eq!(m.program_counter(), 0x200);
}

#[test]
fn short_ticks_add_up_to_a_cycle() {
    let mut m = machine(&[0x70, 0x01, 0x70, 0x01]);
    assert_eq!(m.update(714, || 0), Ok(()));
    assert_eq!(m.registers()[0], 0);
    assert_eq!(m.update(714, || 0), Ok(()));
    assert_eq!(m.registers()[0], 1);
    assert_eq!(m.update(714, || 0), Ok(()));
    assert_eq!(m.registers()[0], 1);
    assert_eq!(m.update(714, || 0), Ok(()));
    assert_eq!(m.registers()[0], 2);
}

#[test]
fn the_clock_rate_follows_the_configuration() {
    let config = Chip8Config { instructions_per_second: 1000, ..Chip8Config::default() };
    let mut m = Chip8::new(config);
    m.set_program(&[0x70, 0x01, 0x70, 0x01]);
    assert_eq!(m.update(999, || 0), Ok(()));
    assert_eq!(m.registers()[0], 0);
    assert_eq!(m.update(1, || 0), Ok(()));
    assert_eq!(m.registers()[0], 1);
}

#[test]
fn a_clock_faster_than_a_microsecond_runs_a_cycle_on_every_tick() {
    let config = Chip8Config { instructions_per_second: 2_000_000, ..Chip8Config::default() };
    let mut m = Chip8::new(config);
    m.set_program(&[0x70, 0x01, 0x70, 0x01]);
    assert_eq!(m.update(0, || 0), Ok(()));
    assert_eq!(m.update(0, || 0), Ok(()));
    assert_eq!(m.registers()[0], 2);
}

#[test]
fn a_huge_delta_is_one_tick() {
    let mut m = machine(&[0x60, 0x02, 0xF0, 0x15, 0x12, 0x04]);
    assert_eq!(m.update(CYCLE - 1, || 0), Ok(()));
    assert_eq!(m.update(u128::MAX, || 0), Ok(()));
    assert_eq!(m.registers()[0], 2);
    assert_eq!(m.update(u128::MAX, || 0), Ok(()));
    assert_eq!(m.delay_timer(), 2);
    assert_eq!(m.update(u128::MAX, || 0), Ok(()));
    assert_eq!(m.delay_timer(), 1);
}

#[test]
fn the_delay_timer_counts_down_at_sixty_hertz() {
    // V0 := 3, delay := V0, then jump to self
    let mut m = machine(&[0x60, 0x03, 0xF0, 0x15, 0x12, 0x04]);
    assert_eq!(m.update(CYCLE, || 0), Ok(()));
    assert_eq!(m.update(CYCLE, || 0), Ok(()));
    assert_eq!(m.delay_timer(), 3);
    // 2 * 1428 are on the 60 Hz clock already
    assert_eq!(m.update(FRAME - 2 * CYCLE - 1, || 0), Ok(()));
    assert_eq!(m.delay_timer(), 3);
    assert_eq!(m.update(1, || 0), Ok(()));
    assert_eq!(m.delay_timer(), 2);
    assert_eq!(m.update(FRAME, || 0), Ok(()));
    assert_eq!(m.delay_timer(), 1);
    assert_eq!(m.update(FRAME, || 0), Ok(()));
    assert_eq!(m.delay_timer(), 0);
    assert_eq!(m.update(FRAME, || 0), Ok(()));
    assert_eq!(m.delay_timer(), 0);
}

#[test]
fn the_sound_timer_counts_down_and_stops_the_sound() {
    let mut m = machine(&[0x60, 0x02, 0xF0, 0x18, 0x12, 0x04]);
    assert_eq!(m.update(CYCLE, || 0), Ok(()));
    assert_eq!(m.update(CYCLE, || 0), Ok(()));
    assert!(m.should_play_sound());
    assert_eq!(m.update(FRAME, || 0), Ok(()));
    assert_eq!(m.sound_timer(), 1);
    assert!(m.should_play_sound());
    assert_eq!(m.update(FRAME, || 0), Ok(()));
    assert_eq!(m.sound_timer(), 0);
    assert!(!m.should_play_sound());
    assert_eq!(m.update(FRAME, || 0), Ok(()));
    assert_eq!(m.sound_timer(), 0);
}

#[test]
fn the_two_timers_count_independently() {
    let mut m = machine(&[0x60, 0x01, 0x61, 0x03, 0xF0, 0x15, 0xF1, 0x18, 0x12, 0x08]);
    for _ in 0..4 {
        assert_eq!(m.update(1, || 0), Ok(()));
        assert_eq!(m.update(CYCLE - 1, || 0), Ok(()));
    }
    assert_eq!((m.delay_timer(), m.sound_timer()), (1, 3));
    assert_eq!(m.update(FRAME, || 0), Ok(()));
    assert_eq!((m.delay_timer(), m.sound_timer()), (0, 2));
    assert_eq!(m.update(FRAME, || 0), Ok(()));
    assert_eq!((m.delay_timer(), m.sound_timer()), (0, 1));
}

#[test]
fn the_timers_count_before_the_instruction_runs() {
    // the tick that runs "delay := V0" is also a 60 Hz tick: the new value is not counted down
    let mut m = machine(&[0x60, 0x05, 0xF0, 0x15, 0xF1, 0x07]);
    assert_eq!(m.update(CYCLE, || 0), Ok(()));
    assert_eq!(m.update(FRAME, || 0), Ok(()));
    assert_eq!(m.delay_timer(), 5);
    // and a read in a 60 Hz tick sees the value already counted down
    assert_eq!(m.update(FRAME, || 0), Ok(()));
    assert_eq!(m.delay_timer(), 4);
    assert_eq!(m.registers()[1], 4);
}

#[test]
fn the_sixty_hertz_clock_also_drops_what_went_beyond() {
    let mut m = machine(&[0x60, 0x09, 0xF0, 0x15, 0x12, 0x04]);
    assert_eq!(m.update(CYCLE, || 0), Ok(()));
    assert_eq!(m.update(CYCLE, || 0), Ok(()));
    assert_eq!(m.update(10 * FRAME, || 0), Ok(()));
    assert_eq!(m.delay_timer(), 8);
    assert_eq!(m.update(FRAME - 1, || 0), Ok(()));
    assert_eq!(m.delay_timer(), 8);
    assert_eq!(m.update(1, || 0), Ok(()));
    assert_eq!(m.delay_timer(), 7);
}

#[test]
fn wait_for_key_runs_again_until_a_key_is_pressed() {
    let mut m = machine(&[0xF3, 0x0A, 0x61, 0x01]);
    for _ in 0..5 {
        assert_eq!(m.update(CYCLE, || 0), Ok(()));
        assert_eq!(m.program_counter(), 0x200);
        assert_eq!(m.registers(), &[0u8; 16]);
    }
    m.press(0xB);
    assert_eq!(m.update(CYCLE, || 0), Ok(()));
    assert_eq!(m.program_counter(), 0x202);
    assert_eq!(m.registers()[3], 0xB);
    assert_eq!(m.update(CYCLE, || 0), Ok(()));
    assert_eq!(m.registers()[1], 1);
}

#[test]
fn wait_for_key_takes_the_last_press_of_the_tick() {
    let mut m = machine(&[0xF3, 0x0A]);
    m.press(0x1);
    m.press(0x2);
    m.release(0x2);
    assert_eq!(m.update(CYCLE, || 0), Ok(()));
    assert_eq!(m.registers()[3], 0x2);
    assert_eq!(m.program_counter(), 0x202);
}

#[test]
fn wait_for_key_does_not_see_a_key_that_is_only_held() {
    let mut m = machine(&[0x60, 0x00, 0xF3, 0x0A]);
    m.press(0x4);
    assert_eq!(m.update(CYCLE, || 0), Ok(()));
    assert!(m.keys()[4]);
    assert_eq!(m.update(CYCLE, || 0), Ok(()));
    assert_eq!(m.program_counter(), 0x202);
    assert_eq!(m.registers()[3], 0);
}

#[test]
fn a_press_is_forgotten_by_a_tick_that_runs_no_cycle() {
    let mut m = machine(&[0xF3, 0x0A]);
    m.press(0x4);
    assert_eq!(m.update(1, || 0), Ok(()));
    assert_eq!(m.update(CYCLE, || 0), Ok(()));
    assert_eq!(m.program_counter(), 0x200);
    m.press(0x7);
    assert_eq!(m.update(CYCLE, || 0), Ok(()));
    assert_eq!(m.program_counter(), 0x202);
    assert_eq!(m.registers()[3], 0x7);
}

#[test]
fn wait_for_key_can_take_key_zero() {
    let mut m = machine(&[0x65, 0x09, 0xF5, 0x0A]);
    assert_eq!(m.update(CYCLE, || 0), Ok(()));
    m.press(0);
    assert_eq!(m.update(CYCLE, || 0), Ok(()));
    assert_eq!(m.registers()[5], 0);
    assert_eq!(m.program_counter(), 0x204);
}

#[test]
fn can_cycle_needs_two_bytes_at_the_program_counter() {
    let mut m = machine(&[0x1F, 0xFE]);
    assert!(m.can_cycle());
    assert_eq!(m.update(CYCLE, || 0), Ok(()));
    assert_eq!(m.program_counter(), 0xFFE);
    assert!(m.can_cycle());
    let mut m = machine(&[0x1F, 0xFF]);
    assert_eq!(m.update(CYCLE, || 0), Ok(()));
    assert_eq!(m.program_counter(), 0xFFF);
    assert!(!m.can_cycle());
    assert!(!m.can_update(CYCLE));
    assert!(m.can_update(CYCLE - 1));
    assert_eq!(m.update(CYCLE - 1, || 0), Ok(()));
    assert!(!m.can_update(1));
    assert!(m.can_update(0));
}

#[test]
fn running_off_the_end_of_memory_is_seen_beforehand() {
    let config = Chip8Config { program_start: 0xFFE, ..Chip8Config::default() };
    let mut m = Chip8::new(config);
    m.set_program(&[0x61, 0x01]);
    assert!(m.can_cycle());
    assert_eq!(m.update(CYCLE, || 0), Ok(()));
    assert_eq!(m.program_counter(), 0x1000);
    assert!(!m.can_cycle());
}

#[test]
fn the_same_inputs_give_the_same_run() {
    let program = [
        0x60, 0x05, 0xC1, 0xFF, 0xA0, 0x50, 0xD0, 0x15, 0xF0, 0x15, 0x70, 0x03, 0xF2, 0x0A, 0x12,
        0x02,
    ];
    let mut a = machine(&program);
    let mut b = machine(&program);
    for step in 0..200u128 {
        if step == 50 {
            a.press(9);
            b.press(9);
        }
        let delta = 500 + (step * 37) % 2000;
        let byte = (step * 91 % 256) as u8;
        assert!(a.can_update(delta));
        assert_eq!(a.update(delta, || byte), b.update(delta, || byte));
        assert_eq!(a.program_counter(), b.program_counter());
        assert_eq!(a.registers(), b.registers());
        assert_eq!(a.framebuffer(), b.framebuffer());
        assert_eq!(a.delay_timer(), b.delay_timer());
    }
    assert!(a.program_counter() > 0x200);
}
