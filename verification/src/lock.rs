use vstd::prelude::*;

verus! {

/// The state word of a lock nobody holds.
pub const FREE: usize = 0;

/// The state bit of a closed lock.
pub const CLOSED: usize = 1;

/// The state word of a held lock.
pub const LOCKED: usize = 2;

/// What a taker of the lock does with the lock word it read.
#[derive(Clone, Copy, PartialEq, Eq, Structural, Debug)]
pub enum LockStep {
    /// The lock is closed: nothing is handed out.
    Refuse,
    /// Swap the word from `expected` to `new`; when the word turns out to be
    /// different, read it again.
    Swap { expected: usize, new: usize },
}

/// What a closer of the lock does with the lock word it read.
#[derive(Clone, Copy, PartialEq, Eq, Structural, Debug)]
pub enum CloseStep {
    /// The lock was closed already.
    AlreadyClosed,
    /// Swap the word from `expected` to `new`; when the word turns out to be
    /// different, read it again.
    Swap { expected: usize, new: usize },
}

/// The step of a taker that read `observed`: a closed word refuses, any other
/// word tries to swap `FREE` for `LOCKED`.
pub open spec fn lock_step_spec(observed: usize) -> LockStep {
    if observed % 2 == 1 {
        LockStep::Refuse
    } else {
        LockStep::Swap { expected: FREE, new: LOCKED }
    }
}

/// The step of a closer that read `observed`: a closed word reports that, any
/// other word tries to swap `FREE` for `CLOSED`.
pub open spec fn close_step_spec(observed: usize) -> CloseStep {
    if observed % 2 == 1 {
        CloseStep::AlreadyClosed
    } else {
        CloseStep::Swap { expected: FREE, new: CLOSED }
    }
}

/// The next step of a taker that read the lock word `observed`.
pub fn lock_step(observed: usize) -> (r: LockStep)
    ensures
        r == lock_step_spec(observed),
{
    assert(observed & CLOSED == observed % 2) by (bit_vector);
    if observed & CLOSED == 1 {
        LockStep::Refuse
    } else {
        LockStep::Swap { expected: FREE, new: LOCKED }
    }
}

/// The next step of a closer that read the lock word `observed`.
pub fn close_step(observed: usize) -> (r: CloseStep)
    ensures
        r == close_step_spec(observed),
{
    assert(observed & CLOSED == observed % 2) by (bit_vector);
    if observed & CLOSED != 0 {
        CloseStep::AlreadyClosed
    } else {
        CloseStep::Swap { expected: FREE, new: CLOSED }
    }
}

/// The words that the lock protocol can reach from `FREE`.
pub open spec fn reachable_word(w: usize) -> bool {
    w == FREE || w == LOCKED || w == CLOSED
}

/// One change of the lock word: a swap that a step proposes and that found the
/// word it expected, or the release of a held lock back to `FREE`.
pub open spec fn word_changes(w: usize, w2: usize) -> bool {
    ||| (lock_step_spec(w) matches LockStep::Swap { expected, new } && w == expected && w2 == new)
    ||| (close_step_spec(w) matches CloseStep::Swap { expected, new } && w == expected && w2 == new)
    ||| (w == LOCKED && w2 == FREE)
}

/// The lock word only moves between `FREE`, `LOCKED` and `CLOSED`; a closed
/// lock is never opened or taken again, and it is closed only while nobody
/// holds it.
pub proof fn law_closed_lock_stays_closed(w: usize, w2: usize)
    requires
        reachable_word(w),
        word_changes(w, w2),
    ensures
        reachable_word(w2),
        w != CLOSED,
        w2 == CLOSED ==> w == FREE,
{
}

/// A lock that can be closed for good, in the form for a single owner:
/// whoever holds `&mut` to it has it to itself, so taking the lock hands out
/// the value directly and gives it back (state `FREE`) when that borrow ends;
/// a closed lock hands out nothing. It takes the same steps on its word as a
/// lock that threads share (`lock_step`, `close_step`).
pub struct SimpleSpinLock<T> {
    state: usize,
    value: T,
}

impl<T> SimpleSpinLock<T> {
    pub closed spec fn spec_state(&self) -> usize {
        self.state
    }

    pub closed spec fn spec_value(&self) -> T {
        self.value
    }

    /// The lock was closed: the `CLOSED` bit is set.
    pub open spec fn is_closed(&self) -> bool {
        self.spec_state() % 2 == 1
    }

    /// Between uses the state is `FREE` or `CLOSED`.
    pub open spec fn wf(&self) -> bool {
        self.spec_state() == FREE || self.spec_state() == CLOSED
    }

    /// The lock after `close`: closed, with the same value.
    pub closed spec fn after_close(&self) -> Self {
        SimpleSpinLock { state: if self.is_closed() { self.state } else { CLOSED }, value: self.value }
    }

    /// An open, free lock around `value`.
    pub fn new(value: T) -> (l: Self)
        ensures
            l.spec_state() == FREE,
            l.spec_value() == value,
            l.wf(),
            !l.is_closed(),
    {
        SimpleSpinLock { state: FREE, value }
    }

    /// Takes the lock: `None` once the lock is closed, else the value.
    pub fn lock(&mut self) -> (g: Option<&mut T>)
        requires
            old(self).wf(),
        ensures
            old(self).is_closed() ==> g is None && *final(self) == *old(self),
            !old(self).is_closed() ==> g is Some && *g->0 == old(self).spec_value()
                && final(self).spec_value() == *final(g->0) && final(self).spec_state()
                == old(self).spec_state(),
    {
        match lock_step(self.state) {
            LockStep::Refuse => None,
            LockStep::Swap { .. } => Some(&mut self.value),
        }
    }

    /// Closes the lock. True when this call closed it, false when it was
    /// closed already.
    pub fn close(&mut self) -> (r: bool)
        requires
            old(self).wf(),
        ensures
            r == !old(self).is_closed(),
            *final(self) == old(self).after_close(),
    {
        match close_step(self.state) {
            CloseStep::AlreadyClosed => false,
            CloseStep::Swap { new, .. } => {
                self.state = new;
                true
            },
        }
    }
}

/// Closing leaves a well-formed, closed lock with the same value; a second
/// close reports that it was closed already and changes nothing.
pub proof fn law_close_is_final<T>(l: SimpleSpinLock<T>)
    requires
        l.wf(),
    ensures
        l.after_close().wf(),
        l.after_close().is_closed(),
        l.after_close().spec_value() == l.spec_value(),
        l.after_close().after_close() == l.after_close(),
{
}

} // verus!
