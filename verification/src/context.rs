use vstd::prelude::*;

verus! {

/// The identity of an actor context: its id in the set, and how many times
/// it was restarted.
#[derive(Clone, Copy, PartialEq, Eq, Structural)]
pub struct ActorContextState {
    id: usize,
    generation: usize,
}

impl ActorContextState {
    pub closed spec fn spec_id(&self) -> usize {
        self.id
    }

    pub closed spec fn spec_generation(&self) -> usize {
        self.generation
    }

    /// The context's id in its set of actors.
    pub fn id(&self) -> (r: usize)
        ensures
            r == self.spec_id(),
    {
        self.id
    }

    /// The times the context was restarted.
    pub fn generation(&self) -> (r: usize)
        ensures
            r == self.spec_generation(),
    {
        self.generation
    }
}

/// How a context's message loop ends.
#[derive(Clone, Copy, PartialEq, Eq, Structural, Debug)]
pub enum ContextExit {
    /// Run the loop again as the next generation.
    Restart,
    /// Call the actor's stop hook and end.
    Stop,
}

/// What a context remembers across restarts: its id, its generation and
/// whether it was shut down by hand.
pub struct ContextLifecycle {
    pub id: usize,
    pub generation: usize,
    pub manual_shutdown: bool,
}

/// The lifecycle after a manual shutdown request whose reply was, or was not,
/// delivered, and whether the loop stops.
pub open spec fn manual_shutdown_spec(c: ContextLifecycle, reply_delivered: bool) -> (
    ContextLifecycle,
    bool,
) {
    (ContextLifecycle { manual_shutdown: c.manual_shutdown || reply_delivered, ..c }, reply_delivered)
}

/// The lifecycle at the end of the message loop, and how the loop ends: a
/// restart, one generation later, exactly when the set still runs, restarts
/// are asked for and nobody shut the context down by hand.
pub open spec fn loop_end_spec(c: ContextLifecycle, still_running: bool, restart_on_err: bool) -> (
    ContextLifecycle,
    ContextExit,
) {
    if still_running && restart_on_err && !c.manual_shutdown {
        (ContextLifecycle { generation: (c.generation + 1) as usize, ..c }, ContextExit::Restart)
    } else {
        (c, ContextExit::Stop)
    }
}

impl ContextLifecycle {
    /// A fresh context with the given id.
    pub fn new(id: usize) -> (c: Self)
        ensures
            c.id == id,
            c.generation == 0,
            !c.manual_shutdown,
    {
        ContextLifecycle { id, generation: 0, manual_shutdown: false }
    }

    /// The state that a manual shutdown reports.
    pub fn state(&self) -> (s: ActorContextState)
        ensures
            s.spec_id() == self.id,
            s.spec_generation() == self.generation,
    {
        ActorContextState { id: self.id, generation: self.generation }
    }

    /// A manual shutdown request: the loop ends, and the context counts as shut
    /// down by hand, exactly when its state reached the one who asked.
    pub fn on_manual_shutdown(&mut self, reply_delivered: bool) -> (stop: bool)
        ensures
            (*final(self), stop) == manual_shutdown_spec(*old(self), reply_delivered),
    {
        if reply_delivered {
            self.manual_shutdown = true;
            return true;
        }
        false
    }

    /// The end of the message loop. `still_running` says whether the actor set
    /// accepted the decrement of its count (it refuses after shutdown). The
    /// context restarts, one generation later, exactly when the set still runs,
    /// restarts are asked for and nobody shut it down by hand.
    pub fn on_loop_end(&mut self, still_running: bool, restart_on_err: bool) -> (exit: ContextExit)
        requires
            still_running && restart_on_err && !old(self).manual_shutdown ==> old(self).generation
                < usize::MAX,
        ensures
            (*final(self), exit) == loop_end_spec(*old(self), still_running, restart_on_err),
    {
        if still_running && restart_on_err && !self.manual_shutdown {
            self.generation = self.generation + 1;
            ContextExit::Restart
        } else {
            ContextExit::Stop
        }
    }
}

/// Whether a delayed message is handled when its timer completes: always when
/// the delay ran out, and on cancellation (the actors shut down) only when the
/// builder asked to handle delayed messages on shutdown.
pub fn deliver_delayed(canceled: bool, handle_delayed_on_shutdown: bool) -> (r: bool)
    ensures
        r == (!canceled || handle_delayed_on_shutdown),
{
    !canceled || handle_delayed_on_shutdown
}

/// A context shut down by hand is never restarted, whatever else holds.
pub proof fn law_manual_shutdown_never_restarts(
    c: ContextLifecycle,
    still_running: bool,
    restart_on_err: bool,
)
    ensures
        loop_end_spec(manual_shutdown_spec(c, true).0, still_running, restart_on_err).1
            == ContextExit::Stop,
{
}

/// Each restart adds one to the generation and keeps the id; a stop changes
/// nothing.
pub proof fn law_generation_counts_restarts(
    c: ContextLifecycle,
    still_running: bool,
    restart_on_err: bool,
)
    requires
        c.generation < usize::MAX,
    ensures
        loop_end_spec(c, still_running, restart_on_err).0.id == c.id,
        loop_end_spec(c, still_running, restart_on_err).0.generation == c.generation + if loop_end_spec(
            c,
            still_running,
            restart_on_err,
        ).1 == ContextExit::Restart {
            1int
        } else {
            0int
        },
{
}

} // verus!
