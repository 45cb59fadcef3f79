use vstd::prelude::*;

verus! {

/// The screens of the display, in their circular order.
#[derive(Clone, Copy, Debug, PartialEq, Eq, Structural)]
pub enum View {
    Clock,
    Weather,
    Mailbox,
}

/// The screen that follows `v` in the cycle.
pub open spec fn next_of(v: View) -> View {
    match v {
        View::Clock => View::Weather,
        View::Weather => View::Mailbox,
        View::Mailbox => View::Clock,
    }
}

/// The screen that precedes `v` in the cycle.
pub open spec fn previous_of(v: View) -> View {
    match v {
        View::Clock => View::Mailbox,
        View::Weather => View::Clock,
        View::Mailbox => View::Weather,
    }
}

impl View {
    pub fn next(&self) -> (r: View)
        ensures
            r == next_of(*self),
    {
        match self {
            View::Clock => View::Weather,
            View::Weather => View::Mailbox,
            View::Mailbox => View::Clock,
        }
    }

    pub fn previous(&self) -> (r: View)
        ensures
            r == previous_of(*self),
    {
        match self {
            View::Mailbox => View::Weather,
            View::Weather => View::Clock,
            View::Clock => View::Mailbox,
        }
    }
}

/// Stepping back undoes stepping forward (and the other way round), and
/// three steps forward return to the screen one started from.
pub proof fn lemma_view_cycle(v: View)
    ensures
        previous_of(next_of(v)) == v,
        next_of(previous_of(v)) == v,
        next_of(next_of(next_of(v))) == v,
        next_of(v) != v,
        next_of(next_of(v)) != v,
{
}

} // verus!
