use chip8::Timer;

#[test]
fn timer_fires_when_period_is_reached() {
    let mut timer = Timer::new(100);
    assert!(!timer.check(40));
    assert!(!timer.check(59));
    assert!(timer.check(1));
}

#[test]
fn timer_fires_on_a_delta_equal_to_the_period() {
    let mut timer = Timer::new(1428);
    assert!(timer.check(1428));
    assert!(timer.check(1428));
}

#[test]
fn timer_keeps_partial_time() {
    let mut timer = Timer::new(10);
    assert!(!timer.check(9));
    assert!(timer.check(1));
    assert!(!timer.check(9));
    assert!(!timer.check(0));
    assert!(timer.check(1));
}

#[test]
fn timer_drops_what_went_beyond_the_period() {
    let mut timer = Timer::new(100);
    assert!(timer.check(1_000));
    assert!(!timer.check(99));
    assert!(timer.check(1));
}

#[test]
fn timer_with_period_zero_always_fires() {
    let mut timer = Timer::new(0);
    assert!(timer.check(0));
    assert!(timer.check(5));
    assert!(timer.check(0));
}

#[test]
fn timer_takes_the_largest_delta() {
    let mut timer = Timer::new(100);
    assert!(!timer.check(99));
    assert!(timer.check(u128::MAX));
    assert!(!timer.check(99));
    let mut endless = Timer::new(u128::MAX);
    assert!(!endless.check(u128::MAX - 1));
    assert!(endless.check(u128::MAX));
}

#[test]
fn timer_is_due_does_not_let_time_pass() {
    let mut timer = Timer::new(100);
    assert!(!timer.check(60));
    assert!(timer.is_due(40));
    assert!(!timer.is_due(39));
    assert!(timer.is_due(40));
    assert!(!timer.check(39));
    assert!(timer.is_due(1));
    assert!(timer.check(1));
    assert!(!timer.is_due(99));
}
