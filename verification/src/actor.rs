use vstd::prelude::*;

verus! {

/// The low bit of the active word: set once the actors are shut down.
pub const MARKER: usize = 1;

/// One actor in the active word; counts sit above the marker bit.
pub const UNIT: usize = 2;

/// The number of running actors that the active word holds.
pub open spec fn active_count(word: usize) -> nat {
    (word / 2) as nat
}

/// Whether the active word carries the shutdown marker.
pub open spec fn is_shut(word: usize) -> bool {
    word % 2 == 1
}

/// A change of the number of running actors.
#[derive(Clone, Copy, PartialEq, Eq, Structural)]
pub enum ActiveChange {
    Inc,
    Dec,
}

/// The active word after a change, or `None` once the actors are shut down.
pub open spec fn modify_active_spec(word: usize, change: ActiveChange) -> Option<usize> {
    if is_shut(word) {
        None
    } else {
        match change {
            ActiveChange::Inc => Some((word + UNIT) as usize),
            ActiveChange::Dec => Some((word - UNIT) as usize),
        }
    }
}

/// The active word with the shutdown marker written into it.
pub open spec fn shutdown_spec(word: usize) -> usize {
    if is_shut(word) {
        word
    } else {
        (word + MARKER) as usize
    }
}

/// A change may be applied to a word without leaving the range of `usize`.
pub open spec fn change_fits(word: usize, change: ActiveChange) -> bool {
    is_shut(word) || match change {
        ActiveChange::Inc => word + UNIT <= usize::MAX,
        ActiveChange::Dec => active_count(word) >= 1,
    }
}

/// The step of one attempt to change the count: `None` when the marker is set
/// (the change is refused), else the word to write.
pub fn modify_active(active: usize, change: ActiveChange) -> (r: Option<usize>)
    requires
        change_fits(active, change),
    ensures
        r == modify_active_spec(active, change),
{
    assert(active & MARKER == active % 2) by (bit_vector);
    if active & MARKER != 0 {
        return None;
    }
    match change {
        ActiveChange::Inc => Some(active + UNIT),
        ActiveChange::Dec => Some(active - UNIT),
    }
}

/// The number of running actors in the word.
pub fn current_active(active: usize) -> (r: usize)
    ensures
        r == active_count(active),
{
    assert(active >> 1usize == active / 2) by (bit_vector);
    active >> 1
}

/// The word with the shutdown marker set.
pub fn shutdown(active: usize) -> (r: usize)
    ensures
        r == shutdown_spec(active),
{
    assert((active | MARKER) == (if active % 2 == 1 {
        active
    } else {
        (active + 1) as usize
    })) by (bit_vector);
    active | MARKER
}

/// Whether the actors still run: the marker is not set.
pub fn is_running(active: usize) -> (r: bool)
    ensures
        r == !is_shut(active),
{
    assert(active & MARKER == active % 2) by (bit_vector);
    active & MARKER == 0
}

/// Starting an actor and stopping it leaves the word as it was.
pub proof fn law_inc_dec_roundtrip(word: usize)
    requires
        change_fits(word, ActiveChange::Inc),
        !is_shut(word),
    ensures
        modify_active_spec(word, ActiveChange::Inc) matches Some(w) && change_fits(
            w,
            ActiveChange::Dec,
        ) && modify_active_spec(w, ActiveChange::Dec) == Some(word),
{
}

/// A change moves the count by one and keeps the actors running.
pub proof fn law_change_counts(word: usize, change: ActiveChange)
    requires
        change_fits(word, change),
        !is_shut(word),
    ensures
        modify_active_spec(word, change) matches Some(w) && !is_shut(w) && active_count(w)
            == match change {
            ActiveChange::Inc => active_count(word) + 1int,
            ActiveChange::Dec => active_count(word) - 1,
        },
{
}

/// Shutdown keeps the count, stops the actors and refuses every later change,
/// and a second shutdown changes nothing.
pub proof fn law_shutdown_is_final(word: usize, change: ActiveChange)
    ensures
        is_shut(shutdown_spec(word)),
        active_count(shutdown_spec(word)) == active_count(word),
        modify_active_spec(shutdown_spec(word), change) is None,
        shutdown_spec(shutdown_spec(word)) == shutdown_spec(word),
{
}

} // verus!
