use arcade_core::timer::Countdown;
use arcade_core::timer::countdown;

#[test]
fn countdown_fires_once_on_the_crossing_step() {
    // Deltas summing to exactly the duration: true only on the step that
    // crosses it, false before and false on every later step.
    let mut t = Countdown::new(2000);
    assert!(!t.tick(500));
    assert!(!t.tick(500));
    assert!(t.tick(1000));
    assert!(!t.tick(0));
    assert!(!t.tick(5000));
    assert!(!t.tick(2000));
}

#[test]
fn countdown_overshoot_still_fires_once() {
    let mut t = Countdown::new(2000);
    assert!(t.tick(9000));
    assert!(!t.tick(9000));
}

#[test]
fn countdown_zero_duration_fires_on_first_tick() {
    let mut t = Countdown::new(0);
    assert!(t.tick(0));
    assert!(!t.tick(0));
}

#[test]
fn countdown_free_function_matches_method() {
    let mut t = Countdown::new(100);
    assert!(!countdown(&mut t, 99));
    assert!(countdown(&mut t, 1));
    assert!(!countdown(&mut t, 100));
}

#[test]
fn countdown_accumulates_elapsed_capped() {
    let mut t = Countdown::new(1000);
    t.tick(400);
    assert_eq!(t.elapsed, 400);
    t.tick(800);
    assert_eq!(t.elapsed, 1000);
    assert!(t.fired);
}
