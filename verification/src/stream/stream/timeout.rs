use vstd::prelude::*;

use crate::time::{instant_add_spec, Duration, Instant, MAX_INSTANT_NANOS};

verus! {

/// An error returned when a stream times out.
#[derive(Clone, Copy, Debug, PartialEq, Eq)]
pub struct TimeoutError {
    _private: (),
}

/// The timeout error; all of them are alike.
pub closed spec fn timeout_error() -> TimeoutError {
    TimeoutError { _private: () }
}

impl TimeoutError {
    /// The timeout error.
    pub fn new() -> (e: TimeoutError)
        ensures
            e == timeout_error(),
    {
        TimeoutError { _private: () }
    }

    /// The error's message.
    pub fn message(&self) -> (m: &'static str)
        ensures
            m@ == "stream has timed out"@,
    {
        "stream has timed out"
    }
}

/// What polling the inner stream gave.
#[derive(Clone, Copy, Debug, PartialEq, Eq, Structural)]
pub enum StreamPoll {
    /// The inner stream yielded an item.
    Item,
    /// The inner stream ended.
    End,
    /// The inner stream is not ready.
    Pending,
}

/// What the caller of `Timeout::on_stream` and `Timeout::on_timer` does next.
#[derive(Clone, Copy, Debug, PartialEq, Eq)]
pub enum TimeoutStep {
    /// Replace the timer by one that fires `duration` from now, and yield the item.
    YieldItem,
    /// Drop the timer; the stream ends.
    End,
    /// Poll the timer and report to `Timeout::on_timer`.
    PollTimer,
    /// The stream is pending.
    Pending,
    /// Replace the timer by one that fires `duration` from now, and yield this error.
    TimedOut(TimeoutError),
}

/// The state of a `Timeout` as plain values.
pub ghost struct TimeoutView {
    /// How long the stream may stay silent.
    pub duration: nat,
    /// The armed timer, if one is armed: the reading at which it fires, or
    /// `None` for a timer that never fires because its deadline lies past what
    /// the clock can represent.
    pub delay: Option<Option<nat>>,
}

/// A stream that yields an error whenever the inner stream stays silent for
/// longer than `duration`.
#[derive(Debug)]
pub struct Timeout {
    duration: Duration,
    delay: Option<Option<Instant>>,
}

/// The state with a fresh timer that fires `duration` after the reading `now`.
pub open spec fn restart_spec(s: TimeoutView, now: nat) -> TimeoutView {
    TimeoutView { delay: Some(instant_add_spec(now, s.duration)), ..s }
}

/// The step after polling the inner stream gave `poll`, the clock reading `now`.
pub open spec fn on_stream_spec(s: TimeoutView, poll: StreamPoll, now: nat) -> (TimeoutView, TimeoutStep) {
    match poll {
        StreamPoll::Item => (restart_spec(s, now), TimeoutStep::YieldItem),
        StreamPoll::End => (TimeoutView { delay: None, ..s }, TimeoutStep::End),
        StreamPoll::Pending => if s.delay is Some {
            (s, TimeoutStep::PollTimer)
        } else {
            (s, TimeoutStep::Pending)
        },
    }
}

/// The step after polling the timer, which `fired` or not, the clock reading `now`.
pub open spec fn on_timer_spec(s: TimeoutView, fired: bool, now: nat) -> (TimeoutView, TimeoutStep) {
    if fired {
        (restart_spec(s, now), TimeoutStep::TimedOut(timeout_error()))
    } else {
        (s, TimeoutStep::Pending)
    }
}

/// A fresh timeout of `dur`, the clock reading `now`: its first timer fires
/// `dur` after `now`.
pub open spec fn timeout_new_spec(dur: nat, now: nat) -> TimeoutView {
    TimeoutView { duration: dur, delay: Some(instant_add_spec(now, dur)) }
}

pub open spec fn deadline_view(d: Option<Instant>) -> Option<nat> {
    match d {
        Some(t) => Some(t@),
        None => None,
    }
}

impl View for Timeout {
    type V = TimeoutView;

    closed spec fn view(&self) -> TimeoutView {
        TimeoutView {
            duration: self.duration@,
            delay: match self.delay {
                Some(d) => Some(deadline_view(d)),
                None => None,
            },
        }
    }
}

impl Timeout {
    /// A timeout of `dur` over a fresh stream, the clock reading `now`; the
    /// caller arms a timer at the deadline that `delay` returns.
    pub fn new(dur: Duration, now: Instant) -> (t: Timeout)
        ensures
            t@ == timeout_new_spec(dur@, now@),
    {
        Timeout { duration: dur, delay: Some(now.checked_add(dur)) }
    }

    /// How long the stream may stay silent.
    pub fn duration(&self) -> (d: Duration)
        ensures
            d@ == self@.duration,
    {
        self.duration
    }

    /// The armed timer, if one is armed: the reading at which it fires, or
    /// `None` for a timer that never fires.
    pub fn delay(&self) -> (d: Option<Option<Instant>>)
        ensures
            d is Some <==> self@.delay is Some,
            d matches Some(t) ==> self@.delay == Some(deadline_view(t)),
    {
        self.delay
    }

    /// Whether a timer is armed.
    pub fn is_armed(&self) -> (b: bool)
        ensures
            b == self@.delay is Some,
    {
        self.delay.is_some()
    }

    fn restart(&mut self, now: Instant)
        ensures
            final(self)@ == restart_spec(old(self)@, now@),
    {
        self.delay = Some(now.checked_add(self.duration));
    }

    /// Decides the step after polling the inner stream gave `poll`, the clock
    /// reading `now`.
    pub fn on_stream(&mut self, poll: StreamPoll, now: Instant) -> (r: TimeoutStep)
        ensures
            (final(self)@, r) == on_stream_spec(old(self)@, poll, now@),
    {
        match poll {
            StreamPoll::Item => {
                self.restart(now);
                TimeoutStep::YieldItem
            },
            StreamPoll::End => {
                self.delay = None;
                TimeoutStep::End
            },
            StreamPoll::Pending => if self.delay.is_some() {
                TimeoutStep::PollTimer
            } else {
                TimeoutStep::Pending
            },
        }
    }

    /// Decides the step after polling the timer, which `fired` or not, the
    /// clock reading `now`.
    pub fn on_timer(&mut self, fired: bool, now: Instant) -> (r: TimeoutStep)
        ensures
            (final(self)@, r) == on_timer_spec(old(self)@, fired, now@),
    {
        if fired {
            self.restart(now);
            TimeoutStep::TimedOut(TimeoutError { _private: () })
        } else {
            TimeoutStep::Pending
        }
    }
}

/// A timeout is reported only after the timer fired, never on the inner
/// stream's own outcome, and a fresh timer then fires `duration` after it.
pub proof fn lemma_timeout_only_when_timer_fires(
    s: TimeoutView,
    poll: StreamPoll,
    fired: bool,
    now: nat,
)
    ensures
        !(on_stream_spec(s, poll, now).1 is TimedOut),
        on_timer_spec(s, fired, now).1 is TimedOut <==> fired,
        fired ==> on_timer_spec(s, fired, now).0.delay == Some(instant_add_spec(now, s.duration)),
        on_timer_spec(s, fired, now).0.duration == s.duration,
{
}

/// Every item restarts the timer, to fire `duration` after the reading; the
/// end of the inner stream drops it, after which the stream never times out.
pub proof fn lemma_no_timeout_after_end(s: TimeoutView, now: nat, later: nat)
    ensures
        on_stream_spec(s, StreamPoll::Item, now).0.delay == Some(instant_add_spec(now, s.duration)),
        on_stream_spec(s, StreamPoll::End, now).0.delay is None,
        on_stream_spec(on_stream_spec(s, StreamPoll::End, now).0, StreamPoll::Pending, later).1
            == TimeoutStep::Pending,
        on_stream_spec(s, StreamPoll::End, now).0.duration == s.duration,
{
}

/// No timeout can come before `dur` has passed since construction, nor before
/// `duration` has passed since the last item or timeout: the timer is always
/// set that far ahead of the reading that armed it.
pub proof fn lemma_timer_set_one_duration_ahead(dur: nat, now: nat)
    requires
        now + dur <= MAX_INSTANT_NANOS,
    ensures
        timeout_new_spec(dur, now).delay == Some(Some(now + dur)),
{
}

/// The deadline of a timer armed at the reading `now` for `dur`: `now + dur`,
/// or a timer that never fires where the clock cannot represent that.
pub open spec fn deadline_after(now: nat, dur: nat) -> Option<nat> {
    if now + dur <= MAX_INSTANT_NANOS {
        Some(now + dur)
    } else {
        None
    }
}

/// A new timeout keeps the given duration as its silence limit and arms its
/// first timer that long after the reading.
pub proof fn lemma_new_timeout_fields(dur: nat, now: nat)
    ensures
        timeout_new_spec(dur, now).duration == dur,
        timeout_new_spec(dur, now).delay == Some(deadline_after(now, dur)),
{
}

/// What each step does, field by field: no step changes the duration. An item
/// is passed on and restarts the timer a duration after the reading; the end
/// drops the timer; a pending inner stream leaves the state as it is and has
/// the timer polled exactly when one is armed. A fired timer yields a timeout
/// and restarts the timer a duration after the reading; a timer that has not
/// fired leaves the state as it is.
pub proof fn lemma_timeout_step_fields(s: TimeoutView, poll: StreamPoll, fired: bool, now: nat)
    ensures
        on_stream_spec(s, poll, now).0.duration == s.duration,
        on_timer_spec(s, fired, now).0.duration == s.duration,
        poll == StreamPoll::Item ==> on_stream_spec(s, poll, now).1 == TimeoutStep::YieldItem
            && on_stream_spec(s, poll, now).0.delay == Some(deadline_after(now, s.duration)),
        poll == StreamPoll::End ==> on_stream_spec(s, poll, now).1 == TimeoutStep::End
            && on_stream_spec(s, poll, now).0.delay is None,
        poll == StreamPoll::Pending ==> on_stream_spec(s, poll, now).0 == s && (on_stream_spec(
            s,
            poll,
            now,
        ).1 == TimeoutStep::PollTimer <==> s.delay is Some) && (on_stream_spec(s, poll, now).1
            == TimeoutStep::Pending <==> s.delay is None),
        fired ==> on_timer_spec(s, fired, now).1 is TimedOut && on_timer_spec(
            s,
            fired,
            now,
        ).0.delay == Some(deadline_after(now, s.duration)),
        !fired ==> on_timer_spec(s, fired, now) == (s, TimeoutStep::Pending),
{
}

} // verus!
