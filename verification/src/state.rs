use vstd::prelude::*;

verus! {

/// The operational counters of the interactive session. Owned and
/// mutated by the dispatch loop alone; the event producer never touches
/// it.
#[derive(Clone, Copy, Debug, PartialEq, Eq, Structural)]
pub struct AppState {
    /// How many ticks the session has observed. Monotonically
    /// increasing; a session is never expected to come near the
    /// machine bound.
    pub ticks: u64,
}

impl AppState {
    /// The state a session starts in: no tick observed yet.
    pub fn initialized() -> (r: AppState)
        ensures
            r.ticks == 0,
    {
        AppState { ticks: 0 }
    }

    /// Count one more tick.
    pub fn incr_tick(&mut self)
        requires
            old(self).ticks < u64::MAX,
        ensures
            final(self).ticks == old(self).ticks + 1,
    {
        self.ticks = self.ticks + 1;
    }

    /// How many ticks have been observed.
    pub fn count_tick(&self) -> (r: u64)
        ensures
            r == self.ticks,
    {
        self.ticks
    }
}

} // verus!
