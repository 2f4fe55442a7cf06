use async_std::stream::interval;
use async_std::time::{Duration, Instant};

#[test]
fn cp07_drop_interval_no_panic() {
    for _ in 0..100 {
        let _i = interval(Duration::from_secs(3600), Instant::from_nanos_u64(0));
    }
}
