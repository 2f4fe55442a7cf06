use vstd::prelude::*;

verus! {

/// The state of the generator that picks which side a merge polls first.
#[derive(Clone, Copy, Debug, PartialEq, Eq, Structural)]
pub struct MergeRng {
    state: u32,
}

impl View for MergeRng {
    type V = u32;

    closed spec fn view(&self) -> u32 {
        self.state
    }
}

/// One xorshift step: `x ^= x << 13; x ^= x >> 17; x ^= x << 5`, on 32 bits.
pub open spec fn xorshift32(x: u32) -> u32 {
    let a = x ^ (x << 13u32);
    let b = a ^ (a >> 17u32);
    b ^ (b << 5u32)
}

impl MergeRng {
    /// A generator started from `seed`.
    pub fn from_seed(seed: u32) -> (r: MergeRng)
        ensures
            r@ == seed,
    {
        MergeRng { state: seed }
    }

    /// The current state.
    pub fn state(&self) -> (s: u32)
        ensures
            s == self@,
    {
        self.state
    }
}

/// Advances the generator one xorshift step and returns whether the new state
/// is even: the coin that decides which side a new merge polls first.
pub fn merge_random(rng: &mut MergeRng) -> (left_first: bool)
    ensures
        final(rng)@ == xorshift32(old(rng)@),
        left_first == (final(rng)@ & 1u32 == 0u32),
{
    let mut x: u32 = rng.state;
    x = x ^ (x << 13u32);
    x = x ^ (x >> 17u32);
    x = x ^ (x << 5u32);
    rng.state = x;
    (x & 1u32) == 0u32
}

/// One of the two merged streams.
#[derive(Clone, Copy, Debug, PartialEq, Eq, Structural)]
pub enum Side {
    Left,
    Right,
}

/// What polling one side gave.
#[derive(Clone, Copy, Debug, PartialEq, Eq, Structural)]
pub enum SidePoll {
    /// The side yielded an item.
    Item,
    /// The side is exhausted.
    Exhausted,
    /// The side is not ready.
    Pending,
}

/// What the caller of `Merge::start_poll` and `Merge::resume` does next.
#[derive(Clone, Copy, Debug, PartialEq, Eq, Structural)]
pub enum MergeAction {
    /// Poll this side and report the outcome to `Merge::resume`.
    Poll(Side),
    /// Yield the item that the side just polled gave.
    Yield,
    /// Both sides are exhausted: the merged stream ends.
    Finished,
    /// Neither side had an item: the merged stream is pending.
    Pending,
}

/// The state of a `Merge` as plain values.
pub ghost struct MergeView {
    /// Whether the next poll starts with the left side.
    pub next_left_first: bool,
    pub left_done: bool,
    pub right_done: bool,
    /// The side being polled, and whether it is the first of the poll.
    pub awaiting: Option<(Side, bool)>,
}

/// A stream that merges two streams, polling them in turns: each poll starts
/// with the side that the previous one polled second.
#[derive(Debug)]
pub struct Merge {
    next_left_first: bool,
    left_done: bool,
    right_done: bool,
    awaiting: Option<(Side, bool)>,
}

pub open spec fn other(side: Side) -> Side {
    match side {
        Side::Left => Side::Right,
        Side::Right => Side::Left,
    }
}

pub open spec fn is_done(s: MergeView, side: Side) -> bool {
    match side {
        Side::Left => s.left_done,
        Side::Right => s.right_done,
    }
}

pub open spec fn mark_done(s: MergeView, side: Side) -> MergeView {
    match side {
        Side::Left => MergeView { left_done: true, ..s },
        Side::Right => MergeView { right_done: true, ..s },
    }
}

/// The end of a poll in which no side yielded.
pub open spec fn finish_spec(s: MergeView) -> (MergeView, MergeAction) {
    (
        MergeView { awaiting: None, ..s },
        if s.left_done && s.right_done {
            MergeAction::Finished
        } else {
            MergeAction::Pending
        },
    )
}

/// Going on past `side`, which the poll took first or second.
pub open spec fn pass_spec(s: MergeView, side: Side, first: bool) -> (MergeView, MergeAction) {
    if first && !is_done(s, other(side)) {
        (MergeView { awaiting: Some((other(side), false)), ..s }, MergeAction::Poll(other(side)))
    } else {
        finish_spec(s)
    }
}

/// The start of a poll of the merged stream.
pub open spec fn start_spec(s: MergeView) -> (MergeView, MergeAction) {
    if s.left_done && s.right_done {
        (MergeView { awaiting: None, ..s }, MergeAction::Finished)
    } else {
        let first = if s.next_left_first {
            Side::Left
        } else {
            Side::Right
        };
        let s1 = MergeView { next_left_first: !s.next_left_first, awaiting: None, ..s };
        if !is_done(s1, first) {
            (MergeView { awaiting: Some((first, true)), ..s1 }, MergeAction::Poll(first))
        } else {
            pass_spec(s1, first, true)
        }
    }
}

/// The step after the side awaited gave `outcome`.
pub open spec fn resume_spec(s: MergeView, outcome: SidePoll) -> (MergeView, MergeAction)
    recommends
        s.awaiting is Some,
{
    let (side, first) = s.awaiting.unwrap();
    let s0 = MergeView { awaiting: None, ..s };
    match outcome {
        SidePoll::Item => (s0, MergeAction::Yield),
        SidePoll::Exhausted => pass_spec(mark_done(s0, side), side, first),
        SidePoll::Pending => pass_spec(s0, side, first),
    }
}

/// A side being polled is never one that is exhausted.
pub open spec fn merge_inv(s: MergeView) -> bool {
    s.awaiting matches Some((side, _)) ==> !is_done(s, side)
}

impl View for Merge {
    type V = MergeView;

    closed spec fn view(&self) -> MergeView {
        MergeView {
            next_left_first: self.next_left_first,
            left_done: self.left_done,
            right_done: self.right_done,
            awaiting: self.awaiting,
        }
    }
}

impl Merge {
    #[verifier::type_invariant]
    closed spec fn awaiting_side_live(&self) -> bool {
        merge_inv(self@)
    }

    /// A merge of two fresh streams; `rng` picks the side polled first.
    pub fn new(rng: &mut MergeRng) -> (m: Merge)
        ensures
            final(rng)@ == xorshift32(old(rng)@),
            m@ == (MergeView {
                next_left_first: final(rng)@ & 1u32 == 0u32,
                left_done: false,
                right_done: false,
                awaiting: None,
            }),
            merge_inv(m@),
    {
        let next_left_first = merge_random(rng);
        Merge { next_left_first, left_done: false, right_done: false, awaiting: None }
    }

    /// Whether `side` is exhausted.
    pub fn side_done(&self, side: Side) -> (b: bool)
        ensures
            b == is_done(self@, side),
    {
        match side {
            Side::Left => self.left_done,
            Side::Right => self.right_done,
        }
    }

    /// Whether the next poll starts with the left side.
    pub fn next_left_first(&self) -> (b: bool)
        ensures
            b == self@.next_left_first,
    {
        self.next_left_first
    }

    fn finish(&mut self) -> (a: MergeAction)
        ensures
            (final(self)@, a) == finish_spec(old(self)@),
    {
        proof {
            use_type_invariant(&*self);
        }
        *self = Merge { awaiting: None, ..*self };
        if self.left_done && self.right_done {
            MergeAction::Finished
        } else {
            MergeAction::Pending
        }
    }

    fn pass(&mut self, side: Side, first: bool) -> (a: MergeAction)
        requires
            old(self)@.awaiting is None,
        ensures
            (final(self)@, a) == pass_spec(old(self)@, side, first),
    {
        let next = match side {
            Side::Left => Side::Right,
            Side::Right => Side::Left,
        };
        if first && !self.side_done(next) {
            *self = Merge { awaiting: Some((next, false)), ..*self };
            MergeAction::Poll(next)
        } else {
            self.finish()
        }
    }

    /// Starts a poll of the merged stream.
    pub fn start_poll(&mut self) -> (a: MergeAction)
        ensures
            (final(self)@, a) == start_spec(old(self)@),
            merge_inv(final(self)@),
    {
        proof {
            use_type_invariant(&*self);
            lemma_never_polls_exhausted_side(self@, SidePoll::Pending);
        }
        if self.left_done && self.right_done {
            *self = Merge { awaiting: None, ..*self };
            return MergeAction::Finished;
        }
        let first = if self.next_left_first {
            Side::Left
        } else {
            Side::Right
        };
        *self = Merge { next_left_first: !self.next_left_first, awaiting: None, ..*self };
        if !self.side_done(first) {
            *self = Merge { awaiting: Some((first, true)), ..*self };
            MergeAction::Poll(first)
        } else {
            self.pass(first, true)
        }
    }

    /// Goes on after the side that the last `MergeAction::Poll` named gave `outcome`.
    pub fn resume(&mut self, outcome: SidePoll) -> (a: MergeAction)
        requires
            old(self)@.awaiting is Some,
        ensures
            (final(self)@, a) == resume_spec(old(self)@, outcome),
            merge_inv(final(self)@),
    {
        proof {
            use_type_invariant(&*self);
            lemma_never_polls_exhausted_side(self@, outcome);
        }
        let (side, first) = match self.awaiting {
            Some(p) => p,
            None => {
                return MergeAction::Pending;
            },
        };
        *self = Merge { awaiting: None, ..*self };
        match outcome {
            SidePoll::Item => MergeAction::Yield,
            SidePoll::Exhausted => {
                match side {
                    Side::Left => {
                        *self = Merge { left_done: true, ..*self };
                    },
                    Side::Right => {
                        *self = Merge { right_done: true, ..*self };
                    },
                }
                self.pass(side, first)
            },
            SidePoll::Pending => self.pass(side, first),
        }
    }
}

/// Each poll that does not find both sides exhausted flips the side that the
/// next poll starts with, and polls first the side that was due.
pub proof fn lemma_start_alternates(s: MergeView)
    requires
        !(s.left_done && s.right_done),
    ensures
        start_spec(s).0.next_left_first == !s.next_left_first,
        !is_done(s, if s.next_left_first { Side::Left } else { Side::Right }) ==>
            start_spec(s).1 == MergeAction::Poll(
                if s.next_left_first { Side::Left } else { Side::Right },
            ),
{
}

/// While both sides always have an item, the side that yields alternates from
/// one poll to the next.
pub proof fn lemma_ready_sides_take_turns(s: MergeView)
    requires
        !s.left_done,
        !s.right_done,
    ensures
        ({
            let (s1, a1) = start_spec(s);
            let (s2, a2) = resume_spec(s1, SidePoll::Item);
            let (s3, a3) = start_spec(s2);
            &&& a1 matches MergeAction::Poll(first)
            &&& a2 == MergeAction::Yield
            &&& a3 == MergeAction::Poll(other(a1->0))
            &&& s3.next_left_first == s.next_left_first
        }),
{
}

/// A side being polled is never an exhausted one: every step keeps the
/// invariant, and every side it asks to poll is live.
pub proof fn lemma_never_polls_exhausted_side(s: MergeView, outcome: SidePoll)
    requires
        merge_inv(s),
    ensures
        merge_inv(start_spec(s).0),
        start_spec(s).1 matches MergeAction::Poll(side) ==> !is_done(start_spec(s).0, side),
        s.awaiting is Some ==> merge_inv(resume_spec(s, outcome).0),
        s.awaiting is Some ==> (resume_spec(s, outcome).1 matches MergeAction::Poll(side) ==>
            !is_done(resume_spec(s, outcome).0, side)),
{
}

/// An exhausted side stays exhausted, and once both are the merged stream ends
/// on every poll.
pub proof fn lemma_exhaustion_is_final(s: MergeView, outcome: SidePoll)
    ensures
        s.left_done ==> start_spec(s).0.left_done,
        s.right_done ==> start_spec(s).0.right_done,
        s.awaiting is Some && s.left_done ==> resume_spec(s, outcome).0.left_done,
        s.awaiting is Some && s.right_done ==> resume_spec(s, outcome).0.right_done,
        s.left_done && s.right_done ==> start_spec(s).1 == MergeAction::Finished,
        s.left_done && s.right_done ==> start_spec(s).0 == (MergeView { awaiting: None, ..s }),
{
}

/// The merged stream ends exactly when both sides are exhausted, and a poll
/// that yields nothing and does not end leaves a side live.
pub proof fn lemma_finished_iff_both_done(s: MergeView, outcome: SidePoll)
    ensures
        start_spec(s).1 == MergeAction::Finished <==> (start_spec(s).0.left_done
            && start_spec(s).0.right_done),
        s.awaiting is Some && outcome != SidePoll::Item ==> (resume_spec(s, outcome).1
            == MergeAction::Finished <==> (resume_spec(s, outcome).0.left_done && resume_spec(
            s,
            outcome,
        ).0.right_done)),
        s.awaiting is Some && outcome == SidePoll::Item ==> resume_spec(s, outcome).1
            == MergeAction::Yield,
{
}

/// The generator never gets stuck: a nonzero state steps to a nonzero state,
/// and distinct states step to distinct states, so the coin keeps varying.
pub proof fn lemma_xorshift_nonzero_and_injective(x: u32, y: u32)
    ensures
        x != 0 ==> xorshift32(x) != 0,
        x != y ==> xorshift32(x) != xorshift32(y),
{
    assert(x != 0 ==> (x ^ (x << 13u32)) != 0) by (bit_vector);
    let a = x ^ (x << 13u32);
    assert(a != 0 ==> (a ^ (a >> 17u32)) != 0) by (bit_vector);
    let b = a ^ (a >> 17u32);
    assert(b != 0 ==> (b ^ (b << 5u32)) != 0) by (bit_vector);
    let c = y ^ (y << 13u32);
    let d = c ^ (c >> 17u32);
    assert(x != y ==> (x ^ (x << 13u32)) != (y ^ (y << 13u32))) by (bit_vector);
    assert(a != c ==> (a ^ (a >> 17u32)) != (c ^ (c >> 17u32))) by (bit_vector);
    assert(b != d ==> (b ^ (b << 5u32)) != (d ^ (d << 5u32))) by (bit_vector);
}

/// What a poll starts with, field by field: once both sides are exhausted it
/// ends the merged stream and changes nothing else; otherwise it flips which
/// side the next poll starts with, keeps both exhaustion flags, and polls the
/// side that was due first, or, where that side is exhausted, the other one as
/// the last of the poll.
pub proof fn lemma_start_poll_fields(s: MergeView)
    ensures
        ({
            let (t, a) = start_spec(s);
            &&& t.left_done == s.left_done
            &&& t.right_done == s.right_done
            &&& s.left_done && s.right_done ==> a == MergeAction::Finished && t.awaiting is None
                && t.next_left_first == s.next_left_first
            &&& !(s.left_done && s.right_done) ==> t.next_left_first == !s.next_left_first
            &&& !(s.left_done && s.right_done) && s.next_left_first && !s.left_done ==> a
                == MergeAction::Poll(Side::Left) && t.awaiting == Some((Side::Left, true))
            &&& !(s.left_done && s.right_done) && s.next_left_first && s.left_done ==> a
                == MergeAction::Poll(Side::Right) && t.awaiting == Some((Side::Right, false))
            &&& !(s.left_done && s.right_done) && !s.next_left_first && !s.right_done ==> a
                == MergeAction::Poll(Side::Right) && t.awaiting == Some((Side::Right, true))
            &&& !(s.left_done && s.right_done) && !s.next_left_first && s.right_done ==> a
                == MergeAction::Poll(Side::Left) && t.awaiting == Some((Side::Left, false))
        }),
{
}

/// What a side's outcome does, field by field. An item is yielded at once and
/// touches no flag. A side is marked exhausted only by its own `Exhausted`
/// outcome; a pending side stays live. After the first side of a poll comes
/// back without an item, the other side is polled unless it is exhausted;
/// after the second, the poll ends, with the merged stream finished exactly
/// when both sides are exhausted and pending otherwise. Which side the next
/// poll starts with never changes here.
pub proof fn lemma_resume_fields(s: MergeView, side: Side, first: bool, outcome: SidePoll)
    requires
        s.awaiting == Some((side, first)),
    ensures
        ({
            let (t, a) = resume_spec(s, outcome);
            let other_done = match side {
                Side::Left => s.right_done,
                Side::Right => s.left_done,
            };
            &&& t.next_left_first == s.next_left_first
            &&& outcome != SidePoll::Exhausted ==> t.left_done == s.left_done && t.right_done
                == s.right_done
            &&& outcome == SidePoll::Exhausted ==> t.left_done == (s.left_done || side
                == Side::Left) && t.right_done == (s.right_done || side == Side::Right)
            &&& outcome == SidePoll::Item ==> a == MergeAction::Yield && t.awaiting is None
            &&& outcome != SidePoll::Item && first && side == Side::Left && !s.right_done ==> a
                == MergeAction::Poll(Side::Right) && t.awaiting == Some((Side::Right, false))
            &&& outcome != SidePoll::Item && first && side == Side::Right && !s.left_done ==> a
                == MergeAction::Poll(Side::Left) && t.awaiting == Some((Side::Left, false))
            &&& outcome != SidePoll::Item && (!first || other_done) ==> t.awaiting is None && (a
                == MergeAction::Finished <==> t.left_done && t.right_done) && (a
                == MergeAction::Pending <==> !(t.left_done && t.right_done))
        }),
{
}

} // verus!
