use vstd::prelude::*;

verus! {

/// What the next poll of the stream gave, with the predicate applied to the item.
#[derive(Clone, Copy, Debug, PartialEq, Eq, Structural)]
pub enum AnyEvent {
    /// An item, and whether the predicate holds of it.
    Item(bool),
    /// The stream ended.
    Exhausted,
    /// The stream is not ready.
    Pending,
}

/// What the caller of `AnyFuture::on_poll` does next.
#[derive(Clone, Copy, Debug, PartialEq, Eq, Structural)]
pub enum AnyStep {
    /// Poll the stream again.
    Continue,
    /// The future completes with this answer.
    Ready(bool),
    /// The future is pending.
    Pending,
}

/// The future that tells whether any item of a stream satisfies a predicate.
///
/// Its view is what the predicate said of each item taken so far.
pub struct AnyFuture {
    seen: Ghost<Seq<bool>>,
}

impl View for AnyFuture {
    type V = Seq<bool>;

    closed spec fn view(&self) -> Seq<bool> {
        self.seen@
    }
}

/// The step after the stream gave `event`.
pub open spec fn any_step_spec(event: AnyEvent) -> AnyStep {
    match event {
        AnyEvent::Item(true) => AnyStep::Ready(true),
        AnyEvent::Item(false) => AnyStep::Continue,
        AnyEvent::Exhausted => AnyStep::Ready(false),
        AnyEvent::Pending => AnyStep::Pending,
    }
}

/// What the predicate said of the items, once `event` is taken in.
pub open spec fn any_seen_spec(seen: Seq<bool>, event: AnyEvent) -> Seq<bool> {
    match event {
        AnyEvent::Item(b) => seen.push(b),
        _ => seen,
    }
}

impl AnyFuture {
    /// A future over a stream that has given nothing yet.
    pub fn new() -> (f: AnyFuture)
        ensures
            f@ == Seq::<bool>::empty(),
    {
        AnyFuture { seen: Ghost(Seq::empty()) }
    }

    /// Decides the step after the stream gave `event`.
    pub fn on_poll(&mut self, event: AnyEvent) -> (r: AnyStep)
        ensures
            r == any_step_spec(event),
            final(self)@ == any_seen_spec(old(self)@, event),
    {
        proof {
            self.seen = Ghost(any_seen_spec(self.seen@, event));
        }
        match event {
            AnyEvent::Item(b) => if b {
                AnyStep::Ready(true)
            } else {
                AnyStep::Continue
            },
            AnyEvent::Exhausted => AnyStep::Ready(false),
            AnyEvent::Pending => AnyStep::Pending,
        }
    }
}

/// While no item has satisfied the predicate, the future keeps going; it
/// completes with `true` at the first item that does, and with `false` when the
/// stream ends first: its answer is whether any item taken satisfied it.
pub proof fn lemma_any_answers_whether_some_item_matched(seen: Seq<bool>, event: AnyEvent)
    requires
        !seen.contains(true),
    ensures
        any_step_spec(event) matches AnyStep::Ready(b) ==> b == any_seen_spec(
            seen,
            event,
        ).contains(true),
        !(any_step_spec(event) is Ready) ==> !any_seen_spec(seen, event).contains(true),
{
    if let AnyEvent::Item(b) = event {
        let s = seen.push(b);
        assert(s[s.len() - 1] == b);
        if !b {
            assert forall|i: int| 0 <= i < s.len() implies s[i] != true by {
                if i < seen.len() {
                    assert(s[i] == seen[i]);
                }
            }
        }
    }
}

/// What each event does: an item that satisfies the predicate completes the
/// future with `true`, one that does not has the stream polled again, the end
/// of the stream completes it with `false`, and a pending stream leaves it
/// pending; the predicate's answer on each item is recorded, in order, and
/// nothing else is.
pub proof fn lemma_any_step_fields(seen: Seq<bool>, event: AnyEvent)
    ensures
        event == AnyEvent::Item(true) ==> any_step_spec(event) == AnyStep::Ready(true),
        event == AnyEvent::Item(false) ==> any_step_spec(event) == AnyStep::Continue,
        event == AnyEvent::Exhausted ==> any_step_spec(event) == AnyStep::Ready(false),
        event == AnyEvent::Pending ==> any_step_spec(event) == AnyStep::Pending,
        event matches AnyEvent::Item(b) ==> any_seen_spec(seen, event).len() == seen.len() + 1
            && any_seen_spec(seen, event).last() == b && any_seen_spec(seen, event).drop_last()
            == seen,
        !(event is Item) ==> any_seen_spec(seen, event) == seen,
{
    if let AnyEvent::Item(b) = event {
        assert(seen.push(b).drop_last() =~= seen);
    }
}

} // verus!
