use chip8::{Chip8, Chip8Config};

const CYCLE: u128 = 1_000_000 / 700;

fn machine(program: &[u8]) -> Chip8 {
    let mut machine = Chip8::new(Chip8Config::default());
    machine.set_program(program);
    machine
}

fn run(machine: &mut Chip8, count: usize) {
    for _ in 0..count {
        assert!(machine.can_update(CYCLE));
        assert_eq!(machine.update(CYCLE, || 0), Ok(()));
    }
}

/// The lit pixels as (column, row) pairs, row by row.
fn lit(machine: &Chip8) -> Vec<(usize, usize)> {
    let mut pixels = Vec::new();
    for (p, pixel) in machine.framebuffer().iter().enumerate() {
        if *pixel {
            pixels.push((p % 64, p / 64));
        }
    }
    pixels
}

#[test]
fn draw_the_glyph_for_zero() {
    // V0 := 2, V1 := 3, I := 0x50, draw 5 rows at (V0, V1)
    let mut m = machine(&[0x60, 0x02, 0x61, 0x03, 0xA0, 0x50, 0xD0, 0x15]);
    run(&mut m, 4);
    assert_eq!(
        lit(&m),
        vec![
            (2, 3),
            (3, 3),
            (4, 3),
            (5, 3),
            (2, 4),
            (5, 4),
            (2, 5),
            (5, 5),
            (2, 6),
            (5, 6),
            (2, 7),
            (3, 7),
            (4, 7),
            (5, 7),
        ]
    );
    assert_eq!(m.registers()[0xF], 0);
    assert_eq!(m.registers()[0], 2);
    assert_eq!(m.registers()[1], 3);
    assert_eq!(m.index_register(), 0x50);
    assert_eq!(m.program_counter(), 0x208);
}

#[test]
fn draw_is_row_major() {
    let mut m = machine(&[0x60, 0x02, 0x61, 0x03, 0xA0, 0x50, 0xD0, 0x11]);
    run(&mut m, 4);
    assert!(m.framebuffer()[3 * 64 + 2]);
    assert!(m.framebuffer()[3 * 64 + 5]);
    assert!(!m.framebuffer()[3 * 64 + 6]);
    assert!(!m.framebuffer()[2 * 64 + 3]);
}

#[test]
fn drawing_twice_clears_and_reports_the_collision() {
    let mut m = machine(&[0xA0, 0x50, 0xD0, 0x01, 0xD0, 0x01]);
    run(&mut m, 2);
    assert_eq!(lit(&m), vec![(0, 0), (1, 0), (2, 0), (3, 0)]);
    assert_eq!(m.registers()[0xF], 0);
    run(&mut m, 1);
    assert_eq!(lit(&m), vec![]);
    assert_eq!(m.registers()[0xF], 1);
}

#[test]
fn a_draw_without_collision_resets_vf() {
    // draw, draw again (collision), then draw elsewhere
    let mut m = machine(&[0xA0, 0x50, 0xD0, 0x01, 0xD0, 0x01, 0x61, 0x08, 0xD0, 0x11]);
    run(&mut m, 3);
    assert_eq!(m.registers()[0xF], 1);
    run(&mut m, 2);
    assert_eq!(m.registers()[0xF], 0);
    assert_eq!(lit(&m), vec![(0, 8), (1, 8), (2, 8), (3, 8)]);
}

#[test]
fn a_partial_overlap_collides_and_flips() {
    // row 0xF0 at column 0, then the same row at column 2
    let mut m = machine(&[0xA0, 0x50, 0xD0, 0x11, 0x60, 0x02, 0xD0, 0x11]);
    run(&mut m, 4);
    assert_eq!(lit(&m), vec![(0, 0), (1, 0), (4, 0), (5, 0)]);
    assert_eq!(m.registers()[0xF], 1);
}

#[test]
fn sprite_is_clipped_at_the_right_edge() {
    // V0 := 60, V1 := 0, I := 0x20A, draw one row of 0xFF
    let mut m = machine(&[0x60, 0x3C, 0x61, 0x00, 0xA2, 0x0A, 0xD0, 0x11, 0x00, 0x00, 0xFF]);
    run(&mut m, 4);
    assert_eq!(lit(&m), vec![(60, 0), (61, 0), (62, 0), (63, 0)]);
    for column in 0..4 {
        assert!(!m.framebuffer()[column]);
        assert!(!m.framebuffer()[64 + column]);
    }
    assert_eq!(m.registers()[0xF], 0);
}

#[test]
fn sprite_is_clipped_at_the_bottom_edge() {
    // V0 := 0, V1 := 30, I := glyph of 0, draw 5 rows
    let mut m = machine(&[0x61, 0x1E, 0xA0, 0x50, 0xD0, 0x15]);
    run(&mut m, 3);
    assert_eq!(lit(&m), vec![(0, 30), (1, 30), (2, 30), (3, 30), (0, 31), (3, 31)]);
    assert_eq!(m.registers()[0xF], 0);
}

#[test]
fn sprite_in_the_last_corner() {
    let mut m = machine(&[0x60, 0x3F, 0x61, 0x1F, 0xA2, 0x0A, 0xD0, 0x12, 0x00, 0x00, 0xFF, 0xFF]);
    run(&mut m, 4);
    assert_eq!(lit(&m), vec![(63, 31)]);
}

#[test]
fn start_coordinates_wrap() {
    // V0 := 64 + 3, V1 := 32 + 2
    let mut m = machine(&[0x60, 0x43, 0x61, 0x22, 0xA0, 0x50, 0xD0, 0x11]);
    run(&mut m, 4);
    assert_eq!(lit(&m), vec![(3, 2), (4, 2), (5, 2), (6, 2)]);
    let mut m = machine(&[0x60, 0xFF, 0x61, 0xFF, 0xA0, 0x50, 0xD0, 0x11]);
    run(&mut m, 4);
    assert_eq!(lit(&m), vec![(63, 31)]);
}

#[test]
fn a_sprite_of_no_rows_draws_nothing_and_clears_vf() {
    let mut m = machine(&[0x6F, 0x01, 0xAF, 0xFF, 0xD0, 0x00]);
    run(&mut m, 3);
    assert_eq!(lit(&m), vec![]);
    assert_eq!(m.registers()[0xF], 0);
}

#[test]
fn coordinates_are_read_before_vf_is_cleared() {
    // VF := 8, then draw at (VF, V0)
    let mut m = machine(&[0x6F, 0x08, 0xA0, 0x50, 0xDF, 0x01]);
    run(&mut m, 3);
    assert_eq!(lit(&m), vec![(8, 0), (9, 0), (10, 0), (11, 0)]);
    assert_eq!(m.registers()[0xF], 0);
}

#[test]
fn sprite_rows_beyond_memory_are_never_read_when_clipped() {
    // V1 := 31, I := 0xFFF: one row is on the screen, and it is the last byte of memory
    let mut m = machine(&[0x61, 0x1F, 0xAF, 0xFF, 0xD0, 0x1F]);
    run(&mut m, 2);
    assert!(m.can_cycle());
    run(&mut m, 1);
    assert_eq!(lit(&m), vec![]);
    // V1 := 30: two rows are on the screen, the second would lie beyond memory
    let mut m = machine(&[0x61, 0x1E, 0xAF, 0xFF, 0xD0, 0x1F]);
    run(&mut m, 2);
    assert!(!m.can_cycle());
}

#[test]
fn sixteen_row_sprites_do_not_exist_but_fifteen_do() {
    let mut program = vec![0xA2, 0x04, 0xD0, 0x0F];
    program.extend_from_slice(&[0x80; 15]);
    let mut m = machine(&program);
    run(&mut m, 2);
    let expected: Vec<(usize, usize)> = (0..15).map(|row| (0, row)).collect();
    assert_eq!(lit(&m), expected);
}
