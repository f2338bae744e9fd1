use jumpy_core::Timer;

#[test]
fn fresh_timer_is_unfinished() {
    let t = Timer::new(500);
    assert_eq!(t.duration, 500);
    assert_eq!(t.elapsed, 0);
    assert!(!t.finished());
}

#[test]
fn tick_accumulates_elapsed_time() {
    let mut t = Timer::new(500);
    t.tick(200);
    assert_eq!(t.elapsed, 200);
    assert!(!t.finished());
    t.tick(200);
    assert_eq!(t.elapsed, 400);
    assert!(!t.finished());
}

#[test]
fn tick_saturates_at_duration() {
    let mut t = Timer::new(500);
    t.tick(499);
    assert!(!t.finished());
    t.tick(5000);
    assert_eq!(t.elapsed, 500);
    assert!(t.finished());
}

#[test]
fn finished_stays_finished() {
    let mut t = Timer::new(300);
    t.tick(300);
    assert!(t.finished());
    t.tick(1);
    assert!(t.finished());
    t.tick(u64::MAX);
    assert!(t.finished());
    assert_eq!(t.elapsed, 300);
}

#[test]
fn zero_duration_timer_is_immediately_finished() {
    let t = Timer::new(0);
    assert!(t.finished());
}
