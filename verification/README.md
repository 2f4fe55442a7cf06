# async_std (verified core)

The decision logic of a few async streams and of a task handle, written
in Verus with contracts and proved laws. Every type here is a state machine
that reads no clock, arms no timer and polls nothing: its caller reads the
clock, polls timers and inner streams, and hands the outcome in as an event;
the machine answers with its next state and the next thing to do.

- `src/time.rs` — a monotonic clock reading (`Instant`) and a span (`Duration`),
  both counted in nanoseconds, with the clock's representable limit.
- `src/stream/interval.rs` — the tick arithmetic (`saturating_advance_tick`,
  `instant_add_saturating`), `interval`, and the `Interval` stream's steps.
- `src/stream/stream/merge.rs` — the xorshift coin and the `Merge` stream's
  alternating poll order.
- `src/stream/stream/timeout.rs` — the `Timeout` stream's steps and `TimeoutError`.
- `src/stream/stream/any.rs` — the steps of the future behind `any`.
- `src/task/join_handle.rs` — the states of a `JoinHandle` through polling,
  cancelling and dropping.
- `app/` — the same streams and handle on real timers (`async-io`), the
  `futures-core` `Stream` trait and `async-global-executor`.
