use vstd::prelude::*;

use crate::time::{instant_add_spec, Duration, Instant, MAX_INSTANT_NANOS, NANOS_PER_SEC};

verus! {

/// One hundred years of 365 days, in seconds: how far past the present a
/// deadline is pushed when the requested one cannot be represented.
pub const FALLBACK_SECS: u64 = 3_153_600_000;

/// `instant + dur`; where the clock cannot represent it, `now` plus a hundred
/// years; where that cannot be represented either, `instant` itself.
pub open spec fn add_saturating_spec(instant: nat, dur: nat, now: nat) -> nat {
    match instant_add_spec(instant, dur) {
        Some(t) => t,
        None => match instant_add_spec(now, (FALLBACK_SECS * NANOS_PER_SEC) as nat) {
            Some(t) => t,
            None => instant,
        },
    }
}

/// The number of whole intervals that the next tick moves forward from
/// `current`, before the cap: one more than the whole intervals elapsed up to `now`.
pub open spec fn ticks_due(current: nat, interval: nat, now: nat) -> nat
    recommends
        interval > 0,
        current <= now,
{
    ((now - current) as nat / interval + 1) as nat
}

/// The cap on the ticks moved at once: as many as fit in `u64::MAX` nanoseconds.
pub open spec fn tick_cap(interval: nat) -> nat
    recommends
        interval > 0,
{
    u64::MAX as nat / interval
}

/// The tick that follows `current` once the clock reads `now`: the first tick of
/// the grid `current + k * interval` strictly after `now`, moving at most
/// `u64::MAX` nanoseconds at once; `now` itself for a zero interval,
/// `current` where it is still ahead of `now`, and one whole interval on
/// where it equals `now`.
pub open spec fn advance_tick_spec(current: nat, interval: nat, now: nat) -> nat {
    if interval == 0 {
        now
    } else if current > now {
        current
    } else if current == now {
        add_saturating_spec(current, interval, now)
    } else {
        let ticks = ticks_due(current, interval, now);
        let cap = tick_cap(interval);
        let actual = if ticks > cap { cap } else { ticks };
        add_saturating_spec(current, actual * interval, now)
    }
}

/// `instant + duration`, falling back as `add_saturating_spec` says; `now` is the
/// clock's reading, consulted only for the fallback.
pub fn instant_add_saturating(instant: Instant, duration: Duration, now: Instant) -> (r: Instant)
    ensures
        r@ == add_saturating_spec(instant@, duration@, now@),
{
    match instant.checked_add(duration) {
        Some(t) => t,
        None => match now.checked_add(Duration::from_secs(FALLBACK_SECS)) {
            Some(t) => t,
            None => instant,
        },
    }
}

proof fn lemma_cap_product(actual: nat, interval: nat)
    requires
        interval > 0,
        actual <= u64::MAX as nat / interval,
    ensures
        actual * interval <= u64::MAX,
{
    assert(actual * interval <= (u64::MAX as nat / interval) * interval) by (nonlinear_arith)
        requires
            actual <= u64::MAX as nat / interval,
            interval > 0,
    ;
    assert((u64::MAX as nat / interval) * interval <= u64::MAX) by (nonlinear_arith)
        requires
            interval > 0,
    ;
}

/// The next tick after `current` once the clock reads `now` (see `advance_tick_spec`).
pub fn saturating_advance_tick(current: Instant, interval: Duration, now: Instant) -> (r: Instant)
    ensures
        r@ == advance_tick_spec(current@, interval@, now@),
{
    if interval.is_zero() {
        return now;
    }
    if now.is_before(current) {
        return current;
    }
    let nanos_per_tick: u128 = interval.as_nanos();
    let nanos_elapsed: u128 = now.saturating_duration_since(current).as_nanos();

    if nanos_per_tick == 0 || nanos_elapsed == 0 {
        return instant_add_saturating(current, interval, now);
    }
    let ticks_to_advance: u128 = (nanos_elapsed / nanos_per_tick).saturating_add(1);
    let max_safe_ticks: u128 = u64::MAX as u128 / nanos_per_tick;

    let actual_ticks: u128 = if ticks_to_advance > max_safe_ticks {
        max_safe_ticks
    } else {
        ticks_to_advance
    };
    proof {
        let ghost actual_spec = if ticks_due(current@, interval@, now@) > tick_cap(
            interval@,
        ) {
            tick_cap(interval@)
        } else {
            ticks_due(current@, interval@, now@)
        };
        assert(actual_ticks == actual_spec);
        lemma_cap_product(actual_ticks as nat, nanos_per_tick as nat);
    }
    let advance = Duration::from_nanos((actual_ticks * nanos_per_tick) as u64);
    instant_add_saturating(current, advance, now)
}

/// The state of an `Interval` as plain values.
pub ghost struct IntervalView {
    /// When the stream was created.
    pub start: nat,
    /// The period.
    pub interval: nat,
    /// When the stream may yield next.
    pub next_tick: nat,
    /// The deadline of the armed timer, if one is armed.
    pub delay: Option<nat>,
    /// Whether the stream has yielded before.
    pub has_yielded: bool,
}

/// What the caller of `Interval::poll_step` does next.
#[derive(Clone, Copy, Debug, PartialEq, Eq, Structural)]
pub enum IntervalStep {
    /// Poll the armed timer: while it has not fired the stream is pending;
    /// once it fires, read the clock and step again.
    Wait,
    /// Yield an item.
    Tick,
}

/// What happens to the timer in a step.
#[derive(Clone, Copy, Debug, PartialEq, Eq, Structural)]
pub enum TimerAction {
    /// The timer stays as it is.
    Keep,
    /// A new timer replaces any armed one, set to the deadline that `delay` returns.
    Arm,
    /// The armed timer, if any, is dropped.
    Disarm,
}

/// A stream that yields at a set interval (see `interval`).
///
/// It holds no timer and reads no clock: its caller reads the clock, hands the
/// reading to `poll_step`, and keeps a timer as the returned `TimerAction` says.
#[derive(Debug)]
pub struct Interval {
    start: Instant,
    interval: Duration,
    next_tick: Instant,
    delay: Option<Instant>,
    has_yielded: bool,
}

/// The armed timer, if any, is set to the next tick.
pub open spec fn timer_at_tick(s: IntervalView) -> bool {
    s.delay matches Some(d) ==> d == s.next_tick
}

/// A new interval of period `dur` created when the clock reads `start`.
pub open spec fn interval_spec(dur: nat, start: nat) -> IntervalView {
    IntervalView {
        start,
        interval: dur,
        next_tick: if dur == 0 { start } else { add_saturating_spec(start, dur, start) },
        delay: None,
        has_yielded: false,
    }
}

/// One step of polling: the new state, what the caller does next, and what
/// happens to the timer, when the clock reads `now`.
pub open spec fn poll_step_spec(s: IntervalView, now: nat) -> (IntervalView, IntervalStep, TimerAction) {
    if now < s.next_tick {
        if s.delay is None {
            (IntervalView { delay: Some(s.next_tick), ..s }, IntervalStep::Wait, TimerAction::Arm)
        } else {
            (s, IntervalStep::Wait, TimerAction::Keep)
        }
    } else if s.interval == 0 {
        let t = add_saturating_spec(now, 1, now);
        (
            IntervalView { next_tick: t, delay: Some(t), has_yielded: true, ..s },
            IntervalStep::Tick,
            TimerAction::Arm,
        )
    } else {
        (
            IntervalView {
                next_tick: advance_tick_spec(s.next_tick, s.interval, now),
                delay: None,
                has_yielded: true,
                ..s
            },
            IntervalStep::Tick,
            TimerAction::Disarm,
        )
    }
}

impl View for Interval {
    type V = IntervalView;

    closed spec fn view(&self) -> IntervalView {
        IntervalView {
            start: self.start@,
            interval: self.interval@,
            next_tick: self.next_tick@,
            delay: match self.delay {
                Some(d) => Some(d@),
                None => None,
            },
            has_yielded: self.has_yielded,
        }
    }
}

impl Interval {
    #[verifier::type_invariant]
    closed spec fn delay_at_next_tick(&self) -> bool {
        self.delay matches Some(d) ==> d == self.next_tick
    }

    /// When the stream was created.
    pub fn start(&self) -> (t: Instant)
        ensures
            t@ == self@.start,
    {
        self.start
    }

    /// The period.
    pub fn period(&self) -> (d: Duration)
        ensures
            d@ == self@.interval,
    {
        self.interval
    }

    /// When the stream may yield next.
    pub fn next_tick(&self) -> (t: Instant)
        ensures
            t@ == self@.next_tick,
    {
        self.next_tick
    }

    /// The deadline of the armed timer, if one is armed.
    pub fn delay(&self) -> (d: Option<Instant>)
        ensures
            d is Some <==> self@.delay is Some,
            d matches Some(t) ==> self@.delay == Some(t@),
    {
        self.delay
    }

    /// Decides one step of polling the stream, the clock reading `now`.
    pub fn poll_step(&mut self, now: Instant) -> (r: (IntervalStep, TimerAction))
        ensures
            (final(self)@, r.0, r.1) == poll_step_spec(old(self)@, now@),
            timer_at_tick(final(self)@),
    {
        proof {
            use_type_invariant(&*self);
        }
        if now.is_before(self.next_tick) {
            if self.delay.is_none() {
                *self = Interval { delay: Some(self.next_tick), ..*self };
                proof {
                    use_type_invariant(&*self);
                }
                return (IntervalStep::Wait, TimerAction::Arm);
            }
            return (IntervalStep::Wait, TimerAction::Keep);
        }
        if self.interval.is_zero() {
            let t = instant_add_saturating(now, Duration::from_nanos(1), now);
            *self = Interval { next_tick: t, delay: Some(t), has_yielded: true, ..*self };
            return (IntervalStep::Tick, TimerAction::Arm);
        }
        let t = saturating_advance_tick(self.next_tick, self.interval, now);
        *self = Interval { next_tick: t, delay: None, has_yielded: true, ..*self };
        (IntervalStep::Tick, TimerAction::Disarm)
    }
}

/// Creates a stream that yields every `dur`, the clock reading `start`.
///
/// The stream first yields once the clock reaches `start + dur`, and then
/// every `dur` after that, never early. Missed ticks are skipped rather than
/// caught up: when several periods pass between polls, one item is yielded and
/// the next tick is the first one of the grid after the present.
pub fn interval(dur: Duration, start: Instant) -> (s: Interval)
    ensures
        s@ == interval_spec(dur@, start@),
        timer_at_tick(s@),
{
    let next_tick = if dur.is_zero() {
        start
    } else {
        instant_add_saturating(start, dur, start)
    };
    Interval { start, interval: dur, next_tick, delay: None, has_yielded: false }
}

/// Where no cap or clock limit intervenes, the next tick is the first tick of
/// the grid `current + k * interval` strictly after `now`: it lies after `now`,
/// at most one interval after it, and a whole number of intervals after `current`.
pub proof fn lemma_advance_skips_to_next_future_tick(current: nat, interval: nat, now: nat)
    requires
        interval > 0,
        current <= now,
        ticks_due(current, interval, now) * interval <= u64::MAX,
        current + ticks_due(current, interval, now) * interval <= MAX_INSTANT_NANOS,
    ensures
        now < advance_tick_spec(current, interval, now) <= now + interval,
        (advance_tick_spec(current, interval, now) - current) % (interval as int) == 0,
{
    let e = (now - current) as nat;
    let k = ticks_due(current, interval, now);
    assert(k * interval <= u64::MAX as nat ==> k <= u64::MAX as nat / interval) by (nonlinear_arith)
        requires
            interval > 0,
    ;
    assert(e < k * interval <= e + interval && (k * interval) as int % (interval as int) == 0)
        by (nonlinear_arith)
        requires
            interval > 0,
            k == e / interval + 1,
    ;
    if current == now {
        assert(k == 1) by (nonlinear_arith)
            requires
                interval > 0,
                e == 0,
                k == e / interval + 1,
        ;
        assert(k * interval == interval) by (nonlinear_arith)
            requires
                k == 1,
        ;
        assert(advance_tick_spec(current, interval, now) == current + interval);
    } else {
        assert(k <= tick_cap(interval));
        assert(instant_add_spec(current, k * interval) == Some(current + k * interval));
        assert(advance_tick_spec(current, interval, now) == current + k * interval);
    }
}

/// A step yields only once the clock has reached the next tick: the stream
/// never ticks early.
pub proof fn lemma_tick_never_early(s: IntervalView, now: nat)
    requires
        poll_step_spec(s, now).1 == IntervalStep::Tick,
    ensures
        now >= s.next_tick,
{
}

/// Missed ticks are skipped rather than caught up: a step at a reading past
/// the next tick yields one item and moves the next tick past the reading, so
/// a further step at the same reading waits for the timer, as long as no cap
/// or clock limit intervenes.
pub proof fn lemma_one_tick_per_reading(s: IntervalView, now: nat)
    requires
        s.interval > 0,
        s.next_tick <= now,
        ticks_due(s.next_tick, s.interval, now) * s.interval <= u64::MAX,
        s.next_tick + ticks_due(s.next_tick, s.interval, now) * s.interval <= MAX_INSTANT_NANOS,
    ensures
        poll_step_spec(s, now).1 == IntervalStep::Tick,
        now < poll_step_spec(s, now).0.next_tick <= now + s.interval,
        poll_step_spec(poll_step_spec(s, now).0, now).1 == IntervalStep::Wait,
{
    lemma_advance_skips_to_next_future_tick(s.next_tick, s.interval, now);
}

/// The stream first yields once the clock has reached `start + dur`: every
/// reading before it waits, and the first reading at or after it yields,
/// whether or not a timer was armed meanwhile.
pub proof fn lemma_first_tick_after_period(dur: nat, start: nat, now: nat)
    requires
        dur > 0,
        start + dur <= MAX_INSTANT_NANOS,
    ensures
        interval_spec(dur, start).next_tick == start + dur,
        now < start + dur ==> poll_step_spec(interval_spec(dur, start), now).1
            == IntervalStep::Wait,
        now >= start + dur ==> poll_step_spec(interval_spec(dur, start), now).1
            == IntervalStep::Tick,
        now >= start + dur ==> poll_step_spec(
            IntervalView { delay: Some(start + dur), ..interval_spec(dur, start) },
            now,
        ).1 == IntervalStep::Tick,
{
}

/// The next tick lies on the grid `start + k * interval`, `k >= 1`.
pub open spec fn on_grid(s: IntervalView) -> bool {
    &&& s.next_tick >= s.start + s.interval
    &&& (s.next_tick - s.start) % (s.interval as int) == 0
}

/// A step of `s` at the reading `now` reaches neither the cap on the ticks
/// moved at once nor the clock's limit.
pub open spec fn step_uncapped(s: IntervalView, now: nat) -> bool {
    s.next_tick <= now ==> {
        &&& ticks_due(s.next_tick, s.interval, now) * s.interval <= u64::MAX
        &&& s.next_tick + ticks_due(s.next_tick, s.interval, now) * s.interval
            <= MAX_INSTANT_NANOS
    }
}

/// The state after steps at the readings `nows`, in order.
pub open spec fn run_spec(s: IntervalView, nows: Seq<nat>) -> IntervalView
    decreases nows.len(),
{
    if nows.len() == 0 {
        s
    } else {
        run_spec(poll_step_spec(s, nows[0]).0, nows.drop_first())
    }
}

proof fn lemma_multiple_sum(a: int, b: int, d: int)
    requires
        d > 0,
        a % d == 0,
        b % d == 0,
    ensures
        (a + b) % d == 0,
{
    vstd::arithmetic::div_mod::lemma_mod_adds(a, b, d);
}

/// One step keeps the next tick on the grid, and never moves it back.
pub proof fn lemma_step_stays_on_grid(s: IntervalView, now: nat)
    requires
        s.interval > 0,
        on_grid(s),
        step_uncapped(s, now),
    ensures
        on_grid(poll_step_spec(s, now).0),
        poll_step_spec(s, now).0.next_tick >= s.next_tick,
        poll_step_spec(s, now).0.start == s.start,
        poll_step_spec(s, now).0.interval == s.interval,
{
    if now >= s.next_tick {
        let c = s.next_tick;
        let i = s.interval;
        lemma_advance_skips_to_next_future_tick(c, i, now);
        let r = advance_tick_spec(c, i, now);
        lemma_multiple_sum(r - c, c - s.start, i as int);
        assert(r - s.start == (r - c) + (c - s.start));
    }
}

/// Ticks stay on the grid `start + k * interval`: over any sequence of
/// readings whose steps reach no cap or clock limit, the next tick stays on
/// the grid and never moves back, so a late poll never shifts later ticks.
pub proof fn lemma_ticks_stay_on_grid(s: IntervalView, nows: Seq<nat>)
    requires
        s.interval > 0,
        on_grid(s),
        forall|j: int|
            0 <= j < nows.len() ==> step_uncapped(run_spec(s, nows.take(j)), #[trigger] nows[j]),
    ensures
        on_grid(run_spec(s, nows)),
        run_spec(s, nows).next_tick >= s.next_tick,
        run_spec(s, nows).start == s.start,
        run_spec(s, nows).interval == s.interval,
    decreases nows.len(),
{
    if nows.len() > 0 {
        let s1 = poll_step_spec(s, nows[0]).0;
        let rest = nows.drop_first();
        assert(step_uncapped(run_spec(s, nows.take(0)), nows[0]));
        assert(run_spec(s, nows.take(0)) == s) by {
            assert(nows.take(0).len() == 0);
        }
        lemma_step_stays_on_grid(s, nows[0]);
        assert forall|j: int| 0 <= j < rest.len() implies step_uncapped(
            run_spec(s1, rest.take(j)),
            #[trigger] rest[j],
        ) by {
            assert(rest[j] == nows[j + 1]);
            let p = nows.take(j + 1);
            assert(p.len() > 0);
            assert(p[0] == nows[0]);
            assert(p.drop_first() =~= rest.take(j));
            assert(run_spec(s, p) == run_spec(s1, rest.take(j)));
            assert(step_uncapped(run_spec(s, nows.take(j + 1)), nows[j + 1]));
        }
        lemma_ticks_stay_on_grid(s1, rest);
    }
}

/// For a fresh interval of period `dur` made at `start`: over any sequence of
/// readings whose steps reach no cap or clock limit, the next tick stays at or
/// after `start + dur` and on the grid `start + k * dur`.
pub proof fn lemma_interval_ticks_on_grid(dur: nat, start: nat, nows: Seq<nat>)
    requires
        dur > 0,
        start + dur <= MAX_INSTANT_NANOS,
        forall|j: int|
            0 <= j < nows.len() ==> step_uncapped(
                run_spec(interval_spec(dur, start), nows.take(j)),
                #[trigger] nows[j],
            ),
    ensures
        on_grid(run_spec(interval_spec(dur, start), nows)),
        run_spec(interval_spec(dur, start), nows).next_tick >= start + dur,
{
    assert((dur as int) % (dur as int) == 0) by (nonlinear_arith)
        requires
            dur > 0,
    ;
    lemma_ticks_stay_on_grid(interval_spec(dur, start), nows);
}

/// Every step keeps the armed timer, if any, set to the next tick.
pub proof fn lemma_step_keeps_timer_at_tick(s: IntervalView, now: nat)
    requires
        timer_at_tick(s),
    ensures
        timer_at_tick(poll_step_spec(s, now).0),
{
}

/// `instant + dur` where the clock can represent it.
pub open spec fn fits(instant: nat, dur: nat) -> bool {
    instant + dur <= MAX_INSTANT_NANOS
}

/// A saturating addition gives `instant + dur` where the clock can represent
/// it; otherwise a hundred years past `now` where that can be represented, and
/// otherwise `instant` unchanged.
pub proof fn lemma_add_saturating_cases(instant: nat, dur: nat, now: nat)
    ensures
        fits(instant, dur) ==> add_saturating_spec(instant, dur, now) == instant + dur,
        !fits(instant, dur) && fits(now, 3_153_600_000_000_000_000) ==> add_saturating_spec(
            instant,
            dur,
            now,
        ) == now + 3_153_600_000_000_000_000,
        !fits(instant, dur) && !fits(now, 3_153_600_000_000_000_000) ==> add_saturating_spec(
            instant,
            dur,
            now,
        ) == instant,
{
}

/// A new interval keeps its start and period, has not yielded, arms no timer,
/// and puts its first tick one period after the start (the start itself for a
/// zero period).
pub proof fn lemma_interval_fields(dur: nat, start: nat)
    ensures
        interval_spec(dur, start).start == start,
        interval_spec(dur, start).interval == dur,
        interval_spec(dur, start).delay is None,
        !interval_spec(dur, start).has_yielded,
        dur == 0 ==> interval_spec(dur, start).next_tick == start,
        dur > 0 && fits(start, dur) ==> interval_spec(dur, start).next_tick == start + dur,
{
}

/// What a step does, field by field: it never changes the start or the
/// period. Before the next tick it waits, keeping the tick, with a timer armed
/// at the tick (a new one only where none was armed). At or after the tick it
/// yields and records that it has: a zero period moves the tick one
/// nanosecond past the reading and arms a timer there; any other period moves
/// the tick forward along its grid and drops the timer.
pub proof fn lemma_poll_step_fields(s: IntervalView, now: nat)
    requires
        timer_at_tick(s),
    ensures
        ({
            let (t, step, action) = poll_step_spec(s, now);
            &&& t.start == s.start
            &&& t.interval == s.interval
            &&& step == IntervalStep::Wait <==> now < s.next_tick
            &&& now < s.next_tick ==> t.next_tick == s.next_tick && t.delay == Some(s.next_tick)
                && t.has_yielded == s.has_yielded && (action == TimerAction::Keep <==> s.delay
                is Some) && (action == TimerAction::Arm <==> s.delay is None)
            &&& now >= s.next_tick ==> step == IntervalStep::Tick && t.has_yielded
            &&& now >= s.next_tick && s.interval == 0 && fits(now, 1) ==> t.next_tick == now + 1
                && t.delay == Some(now + 1) && action == TimerAction::Arm
            &&& now >= s.next_tick && s.interval > 0 ==> t.next_tick >= s.next_tick && t.delay
                is None && action == TimerAction::Disarm
        }),
{
    if now >= s.next_tick && s.interval > 0 {
        lemma_advance_never_back(s.next_tick, s.interval, now);
    }
}

/// The next tick never moves back before `current` once it is due.
pub proof fn lemma_advance_never_back(current: nat, interval: nat, now: nat)
    requires
        interval > 0,
        current <= now,
    ensures
        advance_tick_spec(current, interval, now) >= current,
{
}

} // verus!
