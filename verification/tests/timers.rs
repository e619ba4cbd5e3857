use magic_mania::timer::Cooldown;
use magic_mania::timer::FrameTimer;
use magic_mania::timer::HALF_SECOND_NANOS;

const MS: u64 = 1_000_000;

#[test]
fn half_second_is_five_hundred_million_nanoseconds() {
    assert_eq!(HALF_SECOND_NANOS, 500_000_000);
}

#[test]
fn cooldown_starts_fresh() {
    let cooldown = Cooldown::new(HALF_SECOND_NANOS);
    assert_eq!(cooldown, Cooldown { duration: 500_000_000, elapsed: 0 });
    assert!(cooldown.is_fresh());
}

#[test]
fn cooldown_accumulates_below_its_duration() {
    let mut cooldown = Cooldown::new(HALF_SECOND_NANOS);
    assert!(!cooldown.tick(200 * MS));
    assert_eq!(cooldown.elapsed, 200 * MS);
    assert!(!cooldown.is_fresh());
    assert!(!cooldown.tick(299 * MS));
    assert_eq!(cooldown.elapsed, 499 * MS);
    assert_eq!(cooldown.duration, HALF_SECOND_NANOS);
}

#[test]
fn cooldown_finishes_exactly_at_its_duration() {
    let mut cooldown = Cooldown { duration: HALF_SECOND_NANOS, elapsed: 499 * MS };
    assert!(cooldown.tick(MS));
    assert_eq!(cooldown.elapsed, HALF_SECOND_NANOS);
}

#[test]
fn cooldown_clamps_at_its_duration_when_overshot() {
    let mut cooldown = Cooldown::new(HALF_SECOND_NANOS);
    assert!(cooldown.tick(1_700 * MS));
    assert_eq!(cooldown.elapsed, HALF_SECOND_NANOS);
}

#[test]
fn cooldown_of_zero_length_finishes_on_any_tick() {
    let mut cooldown = Cooldown::new(0);
    assert!(cooldown.tick(0));
    assert_eq!(cooldown.elapsed, 0);
}

#[test]
fn cooldown_takes_the_largest_tick() {
    let mut cooldown = Cooldown { duration: u64::MAX, elapsed: u64::MAX - 1 };
    assert!(cooldown.tick(u64::MAX));
    assert_eq!(cooldown.elapsed, u64::MAX);
}

#[test]
fn cooldown_tick_of_zero_changes_nothing() {
    let mut cooldown = Cooldown { duration: HALF_SECOND_NANOS, elapsed: 120 * MS };
    assert!(!cooldown.tick(0));
    assert_eq!(cooldown.elapsed, 120 * MS);
}

#[test]
fn cooldown_reset_keeps_the_duration() {
    let mut cooldown = Cooldown { duration: 7, elapsed: 5 };
    cooldown.reset();
    assert_eq!(cooldown, Cooldown { duration: 7, elapsed: 0 });
}

#[test]
fn frame_timer_keeps_the_remainder() {
    let mut timer = FrameTimer::new(HALF_SECOND_NANOS);
    assert_eq!(timer, FrameTimer { period: 500_000_000, elapsed: 0 });
    assert!(!timer.tick(300 * MS));
    assert_eq!(timer.elapsed, 300 * MS);
    assert!(timer.tick(300 * MS));
    assert_eq!(timer.elapsed, 100 * MS);
    assert_eq!(timer.period, HALF_SECOND_NANOS);
}

#[test]
fn frame_timer_fires_once_for_several_periods() {
    let mut timer = FrameTimer::new(HALF_SECOND_NANOS);
    assert!(timer.tick(1_600 * MS));
    assert_eq!(timer.elapsed, 100 * MS);
}

#[test]
fn frame_timer_fires_exactly_at_its_period() {
    let mut timer = FrameTimer { period: HALF_SECOND_NANOS, elapsed: 250 * MS };
    assert!(timer.tick(250 * MS));
    assert_eq!(timer.elapsed, 0);
}

#[test]
fn frame_timer_of_zero_period_fires_on_every_tick() {
    let mut timer = FrameTimer::new(0);
    assert!(timer.tick(0));
    assert_eq!(timer.elapsed, 0);
    assert!(timer.tick(12));
    assert_eq!(timer.elapsed, 0);
}

#[test]
fn frame_timer_counts_periods_in_32_bits() {
    // 2^32 whole periods in one tick: the count wraps to zero and the timer
    // does not fire.
    let mut timer = FrameTimer::new(1);
    assert!(!timer.tick(1 << 32));
    assert_eq!(timer.elapsed, 0);
    // One period more and it fires again.
    let mut timer = FrameTimer::new(1);
    assert!(timer.tick((1 << 32) + 1));
    assert_eq!(timer.elapsed, 0);
}

#[test]
fn frame_timer_takes_the_largest_tick() {
    let mut timer = FrameTimer { period: HALF_SECOND_NANOS, elapsed: 499_999_999 };
    assert!(timer.tick(u64::MAX));
    // (499_999_999 + 2^64 - 1) mod 500_000_000
    assert_eq!(timer.elapsed, 209_551_614);
}
