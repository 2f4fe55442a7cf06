use vstd::prelude::*;

verus! {

/// Where a task that a `JoinHandle` awaits stands: `H` is the executor's own
/// handle to it, `E` the error of a spawn that failed.
#[derive(Debug)]
pub enum HandleState<H, E> {
    /// The task runs; its handle can be polled, cancelled or detached.
    Running(H),
    /// The spawn failed with this error, not yet reported.
    Failed(E),
    /// The outcome has been taken; nothing is left to await.
    Detached,
}

/// What the caller of `JoinHandle::begin_poll` does next.
#[derive(Debug)]
pub enum PollStart<H, E> {
    /// Poll this handle, then hand it back to `JoinHandle::end_poll`.
    Inner(H),
    /// Complete with this error.
    Failed(E),
    /// Stay pending.
    Pending,
}

/// A handle that awaits the result of a task.
///
/// Dropping it detaches the task (see `release`).
#[derive(Debug)]
pub struct JoinHandle<H, E, K> {
    state: Option<HandleState<H, E>>,
    task: K,
}

/// The start of a poll: the state left behind and what to do next.
pub open spec fn begin_poll_spec<H, E>(s: Option<HandleState<H, E>>) -> (Option<HandleState<H, E>>, PollStart<H, E>) {
    match s {
        Some(HandleState::Running(h)) => (None, PollStart::Inner(h)),
        Some(HandleState::Failed(e)) => (Some(HandleState::Detached), PollStart::Failed(e)),
        _ => (Some(HandleState::Detached), PollStart::Pending),
    }
}

/// The state after a poll of the running task's handle.
pub open spec fn end_poll_spec<H, E>(handle: H, ready: bool) -> Option<HandleState<H, E>> {
    if ready {
        Some(HandleState::Detached)
    } else {
        Some(HandleState::Running(handle))
    }
}

impl<H, E, K> JoinHandle<H, E, K> {
    /// Where the task stands; `None` while the handle is out being polled.
    pub closed spec fn state(&self) -> Option<HandleState<H, E>> {
        self.state
    }

    /// The task that the handle stands for.
    pub closed spec fn task_spec(&self) -> K {
        self.task
    }

    /// A handle to a task that runs.
    pub fn new(inner: H, task: K) -> (j: Self)
        ensures
            j.state() == Some(HandleState::<H, E>::Running(inner)),
            j.task_spec() == task,
    {
        JoinHandle { state: Some(HandleState::Running(inner)), task }
    }

    /// A handle to a spawn that failed with `err`.
    pub fn failed(err: E, task: K) -> (j: Self)
        ensures
            j.state() == Some(HandleState::<H, E>::Failed(err)),
            j.task_spec() == task,
    {
        JoinHandle { state: Some(HandleState::Failed(err)), task }
    }

    /// The underlying task.
    pub fn task(&self) -> (t: &K)
        ensures
            *t == self.task_spec(),
    {
        &self.task
    }

    /// Starts a poll: hands out the running task's handle to be polled, or the
    /// error of a failed spawn, which is reported once; a detached handle stays
    /// pending.
    pub fn begin_poll(&mut self) -> (r: PollStart<H, E>)
        ensures
            final(self).task_spec() == old(self).task_spec(),
            (final(self).state(), r) == begin_poll_spec(old(self).state()),
    {
        match self.state.take() {
            Some(HandleState::Running(h)) => PollStart::Inner(h),
            Some(HandleState::Failed(e)) => {
                self.state = Some(HandleState::Detached);
                PollStart::Failed(e)
            },
            _ => {
                self.state = Some(HandleState::Detached);
                PollStart::Pending
            },
        }
    }

    /// Ends a poll of the running task's `handle`: once the task is `ready`
    /// the handle is detached, else it runs on.
    pub fn end_poll(&mut self, handle: H, ready: bool)
        ensures
            final(self).task_spec() == old(self).task_spec(),
            final(self).state() == end_poll_spec::<H, E>(handle, ready),
    {
        if ready {
            self.state = Some(HandleState::Detached);
        } else {
            self.state = Some(HandleState::Running(handle));
        }
    }

    /// Cancels the task: hands out the running task's handle, to be cancelled
    /// and awaited, and leaves the handle detached; a failed spawn is dropped
    /// with nothing to hand out.
    pub fn cancel(&mut self) -> (r: Option<H>)
        ensures
            final(self).task_spec() == old(self).task_spec(),
            match old(self).state() {
                Some(HandleState::Running(h)) => r == Some(h) && final(self).state() == Some(
                    HandleState::<H, E>::Detached,
                ),
                Some(HandleState::Failed(_)) => r is None && final(self).state() == Some(
                    HandleState::<H, E>::Detached,
                ),
                _ => r is None && final(self).state() is None,
            },
    {
        match self.state.take() {
            Some(HandleState::Running(h)) => {
                self.state = Some(HandleState::Detached);
                Some(h)
            },
            Some(HandleState::Failed(_)) => {
                self.state = Some(HandleState::Detached);
                None
            },
            _ => None,
        }
    }

    /// Lets go of the task, as dropping the handle does: hands out the running
    /// task's handle, to be detached, and leaves nothing behind.
    pub fn release(&mut self) -> (r: Option<H>)
        ensures
            final(self).task_spec() == old(self).task_spec(),
            final(self).state() is None,
            match old(self).state() {
                Some(HandleState::Running(h)) => r == Some(h),
                _ => r is None,
            },
    {
        match self.state.take() {
            Some(HandleState::Running(h)) => Some(h),
            _ => None,
        }
    }
}

/// The outcome of a task is reported once: after a poll has reported a failed
/// spawn, or the task has completed, every later poll stays pending.
pub proof fn lemma_outcome_reported_once<H, E>(s: Option<HandleState<H, E>>, handle: H)
    ensures
        begin_poll_spec(s).1 is Failed ==> begin_poll_spec(begin_poll_spec(s).0).1 is Pending,
        begin_poll_spec(end_poll_spec::<H, E>(handle, true)).1 is Pending,
        begin_poll_spec(Some(HandleState::<H, E>::Detached)) == (
        Some(HandleState::<H, E>::Detached), PollStart::<H, E>::Pending),
{
}

/// A poll that finds the task not ready leaves it running, with the same handle.
pub proof fn lemma_pending_poll_keeps_task<H, E>(h: H)
    ensures
        ({
            let (s1, start) = begin_poll_spec(Some(HandleState::<H, E>::Running(h)));
            start == PollStart::<H, E>::Inner(h) && s1 is None && end_poll_spec::<H, E>(h, false)
                == Some(HandleState::<H, E>::Running(h))
        }),
{
}

/// What a poll does, case by case: a running task's handle is handed out to
/// be polled, leaving nothing behind until it comes back; a failed spawn's
/// error is handed out and the handle is left detached; a detached handle, or
/// one with nothing in it, stays pending and is left detached. Once the handle
/// comes back, a ready task leaves the handle detached and a pending one
/// leaves it running with that same handle.
pub proof fn lemma_poll_fields<H, E>(s: Option<HandleState<H, E>>, handle: H, ready: bool)
    ensures
        s matches Some(HandleState::Running(h)) ==> begin_poll_spec(s) == (
        None::<HandleState<H, E>>, PollStart::<H, E>::Inner(h)),
        s matches Some(HandleState::Failed(e)) ==> begin_poll_spec(s) == (
        Some(HandleState::<H, E>::Detached), PollStart::<H, E>::Failed(e)),
        (s is None || s == Some(HandleState::<H, E>::Detached)) ==> begin_poll_spec(s) == (
        Some(HandleState::<H, E>::Detached), PollStart::<H, E>::Pending),
        ready ==> end_poll_spec::<H, E>(handle, ready) == Some(HandleState::<H, E>::Detached),
        !ready ==> end_poll_spec::<H, E>(handle, ready) == Some(HandleState::<H, E>::Running(handle)),
{
}

} // verus!
