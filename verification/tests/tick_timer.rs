use arena::clash::TickTimer;

#[test]
fn large_ticks() {
    let mut timer = TickTimer::init();
    assert!(timer.apply_ticks(100));
    assert!(timer.apply_ticks(100));
    assert!(timer.apply_ticks(100));
}

#[test]
fn multiple_small_ticks() {
    let mut timer = TickTimer::init();
    assert_eq!(false, timer.apply_ticks(50));
    assert_eq!(true, timer.apply_ticks(50));
    assert_eq!(false, timer.apply_ticks(30));
    assert_eq!(false, timer.apply_ticks(30));
    assert_eq!(true, timer.apply_ticks(40));
}

#[test]
fn custom_duration() {
    let mut timer = TickTimer::init_with_duration(150);
    assert_eq!(false, timer.apply_ticks(50));
    assert_eq!(false, timer.apply_ticks(50));
    assert_eq!(false, timer.apply_ticks(30));
    assert_eq!(true, timer.apply_ticks(30));
}

#[test]
fn extend_duration() {
    let mut timer = TickTimer::init();
    assert_eq!(100, timer.duration());
    timer.extend_to_duration(50);
    assert_eq!(100, timer.duration());
    timer.extend_to_duration(150);
    assert_eq!(150, timer.duration());
}

#[test]
fn fired_timer_keeps_overshoot() {
    let mut timer = TickTimer::init_with_duration(100);
    assert!(timer.apply_ticks(130));
    // 30 carried over: 70 more fires again
    assert!(timer.apply_ticks(70));
    assert!(!timer.apply_ticks(99));
}
