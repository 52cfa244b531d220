use prettysure::loading::{spawn_loadscreen, update_loadscreen};
use prettysure::timer::{Timer, HALF_SECOND};

#[test]
fn new_timer_has_not_finished() {
    let timer = Timer::new(HALF_SECOND);
    assert_eq!(timer, Timer { elapsed: 0, period: 500_000_000, finished: false });
    assert!(!timer.just_finished());
}

#[test]
fn timer_accumulates_until_the_period() {
    let mut timer = Timer::new(HALF_SECOND);
    timer.tick(200_000_000);
    assert_eq!(timer, Timer { elapsed: 200_000_000, period: 500_000_000, finished: false });
    timer.tick(299_999_999);
    assert_eq!(timer.elapsed, 499_999_999);
    assert!(!timer.just_finished());
}

#[test]
fn timer_finishes_and_keeps_the_rest() {
    let mut timer = Timer::new(HALF_SECOND);
    timer.tick(300_000_000);
    timer.tick(300_000_000);
    assert!(timer.just_finished());
    assert_eq!(timer.elapsed, 100_000_000);
    timer.tick(1);
    assert!(!timer.just_finished());
    assert_eq!(timer.elapsed, 100_000_001);
}

#[test]
fn timer_finishes_exactly_at_the_period() {
    let mut timer = Timer::new(HALF_SECOND);
    timer.tick(500_000_000);
    assert!(timer.just_finished());
    assert_eq!(timer.elapsed, 0);
}

#[test]
fn long_tick_spans_several_periods() {
    let mut timer = Timer::new(HALF_SECOND);
    timer.tick(1_750_000_000);
    assert!(timer.just_finished());
    assert_eq!(timer.elapsed, 250_000_000);
}

#[test]
fn largest_tick_does_not_overflow() {
    let mut timer = Timer { elapsed: 499_999_999, period: 500_000_000, finished: false };
    timer.tick(u64::MAX);
    assert!(timer.just_finished());
    assert_eq!(timer.elapsed as u128, (499_999_999u128 + u64::MAX as u128) % 500_000_000);
}

#[test]
fn timer_without_period_always_finishes() {
    let mut timer = Timer::new(0);
    timer.tick(0);
    assert!(timer.just_finished());
    assert_eq!(timer.elapsed, 0);
    timer.tick(17);
    assert!(timer.just_finished());
    assert_eq!(timer.elapsed, 0);
}

#[test]
fn loading_text_cycles_through_its_frames() {
    let mut load = spawn_loadscreen();
    assert_eq!(load.dots, 3);
    assert_eq!(update_loadscreen(&mut load, 499_999_999), None);
    assert_eq!(load.dots, 3);
    assert_eq!(update_loadscreen(&mut load, 1), Some("Loading     "));
    assert_eq!(load.dots, 0);
    assert_eq!(update_loadscreen(&mut load, 500_000_000), Some("Loading.    "));
    assert_eq!(load.dots, 1);
    assert_eq!(update_loadscreen(&mut load, 500_000_000), Some("Loading. .  "));
    assert_eq!(load.dots, 2);
    assert_eq!(update_loadscreen(&mut load, 500_000_000), Some("Loading. . ."));
    assert_eq!(load.dots, 3);
    assert_eq!(update_loadscreen(&mut load, 500_000_000), Some("Loading     "));
    assert_eq!(load.dots, 0);
}

#[test]
fn loading_text_survives_a_frame_out_of_range() {
    let mut load = spawn_loadscreen();
    load.dots = 255;
    assert_eq!(update_loadscreen(&mut load, 500_000_000), Some("Loading     "));
    assert_eq!(load.dots, 0);
}
