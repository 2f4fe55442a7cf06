use async_std::time::{Duration, Instant, MAX_INSTANT_NANOS};

#[test]
fn duration_constructors() {
    assert_eq!(Duration::from_secs(3).as_nanos(), 3_000_000_000);
    assert_eq!(Duration::from_millis(3).as_nanos(), 3_000_000);
    assert_eq!(Duration::from_nanos(3).as_nanos(), 3);
    assert!(Duration::zero().is_zero());
    assert!(!Duration::from_nanos(1).is_zero());
    assert_eq!(Duration::from_secs(u64::MAX).as_nanos(), u64::MAX as u128 * 1_000_000_000);
}

#[test]
fn instant_arithmetic() {
    let a = Instant::from_nanos_u64(10);
    let b = Instant::from_nanos_u64(25);
    assert!(a.is_before(b));
    assert!(!b.is_before(a));
    assert!(!a.is_before(a));
    assert_eq!(b.saturating_duration_since(a), Duration::from_nanos(15));
    assert_eq!(a.saturating_duration_since(b), Duration::zero());
    assert_eq!(a.checked_add(Duration::from_nanos(15)), Some(b));
    let last = Instant::from_nanos(MAX_INSTANT_NANOS).unwrap();
    assert_eq!(last.checked_add(Duration::from_nanos(1)), None);
    assert_eq!(last.checked_add(Duration::zero()), Some(last));
    assert_eq!(Instant::from_nanos(MAX_INSTANT_NANOS + 1), None);
}
