use vstd::prelude::*;

verus! {

/// The shared state of a cancelable task: whether it was canceled, and the
/// waker of the task that waits for the cancellation.
pub struct CancelState<W> {
    pub canceled: bool,
    pub waker: Option<W>,
}

/// The state after a cancellation, and the waker that it hands out.
pub open spec fn cancel_spec<W>(s: CancelState<W>) -> (CancelState<W>, Option<W>) {
    (CancelState { canceled: true, waker: None }, s.waker)
}

/// The state after a poll that brings `waker`, and whether the poll is ready.
pub open spec fn poll_spec<W>(s: CancelState<W>, waker: W) -> (CancelState<W>, bool) {
    if s.canceled {
        (s, true)
    } else {
        (CancelState { canceled: false, waker: Some(waker) }, false)
    }
}

impl<W> CancelState<W> {
    /// Not canceled, nobody waiting.
    pub fn new() -> (s: Self)
        ensures
            !s.canceled,
            s.waker is None,
    {
        CancelState { canceled: false, waker: None }
    }

    /// Cancels: marks the state canceled and hands out the waiting waker, if
    /// any, to be woken.
    pub fn cancel(&mut self) -> (w: Option<W>)
        ensures
            (*final(self), w) == cancel_spec(*old(self)),
    {
        self.canceled = true;
        let w = self.waker.take();
        w
    }

    /// One poll of the waiting side: ready once canceled; otherwise the waker
    /// is kept for `cancel` and the poll is pending.
    pub fn poll(&mut self, waker: W) -> (ready: bool)
        ensures
            (*final(self), ready) == poll_spec(*old(self), waker),
    {
        if self.canceled {
            true
        } else {
            self.waker = Some(waker);
            false
        }
    }
}

/// A handle that cancels a spawned delayed or interval task: the state shared
/// with the task, and, for an interval task, its key and a channel to the
/// actors that run it.
#[derive(Clone)]
pub struct FutureHandler<S, T> {
    state: S,
    tx: Option<(usize, T)>,
}

impl<S, T> FutureHandler<S, T> {
    pub closed spec fn spec_state(&self) -> S {
        self.state
    }

    pub closed spec fn spec_tx(&self) -> Option<(usize, T)> {
        self.tx
    }

    /// A handle with no interval attached.
    pub fn new(state: S) -> (h: Self)
        ensures
            h.spec_state() == state,
            h.spec_tx() is None,
    {
        FutureHandler { state, tx: None }
    }

    /// Attaches the key of an interval future and the channel that removes it.
    pub fn attach_tx(&mut self, index: usize, tx: T)
        ensures
            final(self).spec_state() == old(self).spec_state(),
            final(self).spec_tx() == Some((index, tx)),
    {
        self.tx = Some((index, tx));
    }

    /// The state shared with the task.
    pub fn state(&self) -> (s: &S)
        ensures
            *s == self.spec_state(),
    {
        &self.state
    }

    /// The attached interval key and channel, if any.
    pub fn tx(&self) -> (t: &Option<(usize, T)>)
        ensures
            *t == self.spec_tx(),
    {
        &self.tx
    }
}

/// After a cancellation every poll is ready and leaves the state canceled.
pub proof fn law_canceled_stays_ready<W>(s: CancelState<W>, w: W)
    ensures
        poll_spec(cancel_spec(s).0, w).1,
        poll_spec(cancel_spec(s).0, w).0.canceled,
{
}

/// A task that polled before the cancellation is the one that the cancellation
/// wakes: the waker of the last poll is handed out.
pub proof fn law_cancel_wakes_last_poller<W>(s: CancelState<W>, w: W)
    requires
        !s.canceled,
    ensures
        cancel_spec(poll_spec(s, w).0).1 == Some(w),
{
}

} // verus!
