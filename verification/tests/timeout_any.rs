use async_std::stream::stream::any::{AnyEvent, AnyFuture, AnyStep};
use async_std::stream::stream::timeout::{StreamPoll, Timeout, TimeoutStep};
use async_std::time::{Duration, Instant, MAX_INSTANT_NANOS};

const MS: u64 = 1_000_000;

fn at(nanos: u64) -> Instant {
    Instant::from_nanos_u64(nanos)
}

#[test]
fn timeout_first_timer_fires_one_duration_after_creation() {
    let t = Timeout::new(Duration::from_millis(10), at(5 * MS));
    assert!(t.is_armed());
    assert_eq!(t.duration(), Duration::from_millis(10));
    assert_eq!(t.delay(), Some(Some(at(15 * MS))));
}

#[test]
fn timeout_unrepresentable_deadline_never_fires() {
    let now = Instant::from_nanos(MAX_INSTANT_NANOS).unwrap();
    let t = Timeout::new(Duration::from_nanos(1), now);
    assert_eq!(t.delay(), Some(None));
}

#[test]
fn timeout_item_restarts_timer() {
    let mut t = Timeout::new(Duration::from_millis(10), at(0));
    assert_eq!(t.on_stream(StreamPoll::Item, at(7 * MS)), TimeoutStep::YieldItem);
    assert_eq!(t.delay(), Some(Some(at(17 * MS))));
}

#[test]
fn timeout_pending_polls_timer_and_reports_timeout() {
    let mut t = Timeout::new(Duration::from_millis(10), at(0));
    assert_eq!(t.on_stream(StreamPoll::Pending, at(3 * MS)), TimeoutStep::PollTimer);
    assert_eq!(t.on_timer(false, at(3 * MS)), TimeoutStep::Pending);
    assert_eq!(t.delay(), Some(Some(at(10 * MS))));
    assert_eq!(t.on_stream(StreamPoll::Pending, at(11 * MS)), TimeoutStep::PollTimer);
    match t.on_timer(true, at(11 * MS)) {
        TimeoutStep::TimedOut(e) => assert_eq!(e.message(), "stream has timed out"),
        other => panic!("expected a timeout, got {:?}", other),
    }
    // Another timeout needs another full duration without an item.
    assert_eq!(t.delay(), Some(Some(at(21 * MS))));
}

#[test]
fn timeout_end_drops_timer_for_good() {
    let mut t = Timeout::new(Duration::from_millis(10), at(0));
    assert_eq!(t.on_stream(StreamPoll::End, at(1)), TimeoutStep::End);
    assert!(!t.is_armed());
    assert_eq!(t.delay(), None);
    assert_eq!(t.on_stream(StreamPoll::Pending, at(50 * MS)), TimeoutStep::Pending);
}

#[test]
fn any_true_at_first_match() {
    let mut f = AnyFuture::new();
    assert_eq!(f.on_poll(AnyEvent::Item(false)), AnyStep::Continue);
    assert_eq!(f.on_poll(AnyEvent::Pending), AnyStep::Pending);
    assert_eq!(f.on_poll(AnyEvent::Item(false)), AnyStep::Continue);
    assert_eq!(f.on_poll(AnyEvent::Item(true)), AnyStep::Ready(true));
}

#[test]
fn any_false_when_stream_ends_first() {
    let mut f = AnyFuture::new();
    assert_eq!(f.on_poll(AnyEvent::Item(false)), AnyStep::Continue);
    assert_eq!(f.on_poll(AnyEvent::Exhausted), AnyStep::Ready(false));
    let mut g = AnyFuture::new();
    assert_eq!(g.on_poll(AnyEvent::Exhausted), AnyStep::Ready(false));
}
