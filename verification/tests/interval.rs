use async_std::stream::interval::{
    instant_add_saturating, interval, saturating_advance_tick, Interval, IntervalStep,
    TimerAction, FALLBACK_SECS,
};
use async_std::time::{Duration, Instant, MAX_INSTANT_NANOS};

const MS: u64 = 1_000_000;

fn at(nanos: u64) -> Instant {
    Instant::from_nanos_u64(nanos)
}

fn at128(nanos: u128) -> Instant {
    Instant::from_nanos(nanos).unwrap()
}

/// Steps the stream once at a clock reading.
fn step(s: &mut Interval, now: Instant) -> IntervalStep {
    s.poll_step(now).0
}

#[test]
fn advance_zero_interval_gives_now() {
    let r = saturating_advance_tick(at(5), Duration::zero(), at(17));
    assert_eq!(r, at(17));
}

#[test]
fn advance_current_ahead_of_now_is_kept() {
    let r = saturating_advance_tick(at(50), Duration::from_nanos(10), at(17));
    assert_eq!(r, at(50));
}

#[test]
fn advance_at_exact_tick_moves_one_interval() {
    let r = saturating_advance_tick(at(600 * MS), Duration::from_millis(100), at(600 * MS));
    assert_eq!(r, at(700 * MS));
}

#[test]
fn advance_skips_missed_ticks_to_next_future_tick() {
    // 400ms elapsed over a 100ms grid: four whole ticks missed, the fifth is next.
    let r = saturating_advance_tick(at(100 * MS), Duration::from_millis(100), at(500 * MS));
    assert_eq!(r, at(600 * MS));
    // 450ms elapsed: the tick at 600ms is still the next one.
    let r = saturating_advance_tick(at(100 * MS), Duration::from_millis(100), at(550 * MS));
    assert_eq!(r, at(600 * MS));
    // Right between: 3 ns grid from 10, now 17: ticks at 13, 16, 19.
    let r = saturating_advance_tick(at(10), Duration::from_nanos(3), at(17));
    assert_eq!(r, at(19));
}

#[test]
fn advance_caps_the_move_at_u64_max_nanos() {
    // interval 10^9 ns; the cap is u64::MAX / 10^9 = 18_446_744_073 ticks.
    let now = at128(30_000_000_000_000_000_000);
    let r = saturating_advance_tick(at(0), Duration::from_secs(1), now);
    assert_eq!(r.as_nanos(), 18_446_744_073u128 * 1_000_000_000);
}

#[test]
fn advance_with_interval_past_u64_nanos_stays_put() {
    let huge = Duration::from_secs(u64::MAX / 1_000_000);
    let r = saturating_advance_tick(at(5), huge, at(10));
    assert_eq!(r, at(5));
}

#[test]
fn add_saturating_adds_where_representable() {
    let r = instant_add_saturating(at(10), Duration::from_nanos(5), at(0));
    assert_eq!(r, at(15));
    let r = instant_add_saturating(at128(MAX_INSTANT_NANOS - 5), Duration::from_nanos(5), at(0));
    assert_eq!(r.as_nanos(), MAX_INSTANT_NANOS);
}

#[test]
fn add_saturating_falls_back_to_a_hundred_years_from_now() {
    let r = instant_add_saturating(at128(MAX_INSTANT_NANOS), Duration::from_nanos(1), at(7));
    assert_eq!(r.as_nanos(), 7 + FALLBACK_SECS as u128 * 1_000_000_000);
}

#[test]
fn add_saturating_keeps_instant_when_nothing_fits() {
    let r = instant_add_saturating(
        at128(MAX_INSTANT_NANOS - 1),
        Duration::from_nanos(2),
        at128(MAX_INSTANT_NANOS),
    );
    assert_eq!(r.as_nanos(), MAX_INSTANT_NANOS - 1);
}

#[test]
fn interval_first_tick_is_one_period_after_start() {
    let s = interval(Duration::from_millis(100), at(3 * MS));
    assert_eq!(s.next_tick(), at(103 * MS));
    assert_eq!(s.start(), at(3 * MS));
    assert_eq!(s.period(), Duration::from_millis(100));
    assert_eq!(s.delay(), None);
    let z = interval(Duration::zero(), at(3 * MS));
    assert_eq!(z.next_tick(), at(3 * MS));
}

#[test]
fn interval_does_not_yield_before_first_tick() {
    let mut s = interval(Duration::from_millis(100), at(0));
    assert_eq!(s.poll_step(at(50 * MS)), (IntervalStep::Wait, TimerAction::Arm));
    assert_eq!(s.delay(), Some(at(100 * MS)));
    assert_eq!(s.poll_step(at(99 * MS)), (IntervalStep::Wait, TimerAction::Keep));
    assert_eq!(s.poll_step(at(100 * MS)), (IntervalStep::Tick, TimerAction::Disarm));
    assert_eq!(s.next_tick(), at(200 * MS));
    assert_eq!(s.delay(), None);
}

#[test]
fn late_first_poll_yields_at_once() {
    // A 100ns interval started at 0: waits at 50, yields on the first reading past 100.
    let mut s = interval(Duration::from_nanos(100), at(0));
    assert_eq!(s.poll_step(at(50)), (IntervalStep::Wait, TimerAction::Arm));
    assert_eq!(s.poll_step(at(101)), (IntervalStep::Tick, TimerAction::Disarm));
    assert_eq!(s.next_tick(), at(200));
    assert_eq!(s.poll_step(at(101)), (IntervalStep::Wait, TimerAction::Arm));
    assert_eq!(s.poll_step(at(201)), (IntervalStep::Tick, TimerAction::Disarm));
    assert_eq!(s.next_tick(), at(300));
}

#[test]
fn delayed_first_poll_yields_then_keeps_the_grid() {
    // A 100ms interval first polled 500ms after its start.
    let mut s = interval(Duration::from_millis(100), at(0));
    assert_eq!(s.poll_step(at(500 * MS)), (IntervalStep::Tick, TimerAction::Disarm));
    assert_eq!(s.next_tick(), at(600 * MS));
    assert_eq!(s.poll_step(at(500 * MS)), (IntervalStep::Wait, TimerAction::Arm));
    assert_eq!(s.delay(), Some(at(600 * MS)));
    // Then one tick per 100ms, not five back to back.
    let mut ticks = vec![];
    let mut now = 600 * MS;
    for _ in 0..5 {
        assert_eq!(step(&mut s, at(now)), IntervalStep::Tick);
        ticks.push(now);
        assert_eq!(step(&mut s, at(now)), IntervalStep::Wait);
        now = s.next_tick().as_nanos() as u64;
    }
    assert_eq!(ticks, vec![600 * MS, 700 * MS, 800 * MS, 900 * MS, 1000 * MS]);
}

#[test]
fn slow_consumer_gets_one_item_per_poll() {
    // A 1ms interval polled every 10s: one tick each time, aligned to the grid.
    let mut s = interval(Duration::from_millis(1), at(0));
    assert_eq!(step(&mut s, at(10_000 * MS)), IntervalStep::Tick);
    assert_eq!(s.next_tick(), at(10_001 * MS));
    assert_eq!(step(&mut s, at(10_000 * MS)), IntervalStep::Wait);
    assert_eq!(step(&mut s, at(20_001 * MS)), IntervalStep::Tick);
    assert_eq!(s.next_tick(), at(20_002 * MS));
    assert_eq!(step(&mut s, at(20_001 * MS)), IntervalStep::Wait);
}

#[test]
fn no_drift_over_many_ticks() {
    // 200 ticks at 50ms, each polled 3ms late: the grid does not drift.
    let mut s = interval(Duration::from_millis(50), at(0));
    let mut last = 0;
    for _ in 0..200 {
        let due = s.next_tick().as_nanos() as u64;
        assert_eq!(step(&mut s, at(due + 3 * MS)), IntervalStep::Tick);
        assert_eq!(s.next_tick().as_nanos() % (50 * MS) as u128, 0);
        last = due;
    }
    assert_eq!(last, 10_000 * MS);
    assert_eq!(s.next_tick(), at(10_050 * MS));
}

#[test]
fn zero_interval_yields_on_every_poll() {
    let mut s = interval(Duration::zero(), at(40));
    assert_eq!(s.poll_step(at(40)), (IntervalStep::Tick, TimerAction::Arm));
    assert_eq!(s.next_tick(), at(41));
    assert_eq!(s.delay(), Some(at(41)));
    assert_eq!(s.poll_step(at(40)), (IntervalStep::Wait, TimerAction::Keep));
    assert_eq!(s.poll_step(at(41)), (IntervalStep::Tick, TimerAction::Arm));
    assert_eq!(s.next_tick(), at(42));
}

#[test]
fn huge_duration_constructs() {
    let huge = Duration::from_secs(u64::MAX / 1_000_000);
    let s = interval(huge, at(0));
    assert_eq!(s.next_tick().as_nanos(), (u64::MAX / 1_000_000) as u128 * 1_000_000_000);
    let bigish = Duration::from_secs(3600 * 24 * 365 * 100);
    let s = interval(bigish, at(0));
    assert_eq!(s.next_tick().as_nanos(), 3_153_600_000u128 * 1_000_000_000);
}

#[test]
fn duration_unrepresentable_from_start_falls_back() {
    // start + dur past the clock's limit: a hundred years from start instead.
    let start = at128(MAX_INSTANT_NANOS - 10);
    let s = interval(Duration::from_nanos(11), start);
    assert_eq!(s.next_tick(), start);
    let start = at(10);
    let s = interval(Duration::from_secs(u64::MAX), start);
    assert_eq!(s.next_tick(), at128(10 + FALLBACK_SECS as u128 * 1_000_000_000));
}
