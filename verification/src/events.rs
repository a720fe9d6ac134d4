use vstd::prelude::*;

use crate::key::Key;

verus! {

/// One event of the multiplexed stream: a key that arrived within the
/// polling window, or the tick that closes a polling cycle.
#[derive(Clone, Copy, Debug, PartialEq, Eq, Structural)]
pub enum InputEvent {
    /// A key arrived.
    Input(Key),
    /// A polling cycle elapsed.
    Tick,
}

/// The events one polling cycle emits: the key that arrived, if any,
/// followed unconditionally by exactly one tick. A cycle that saw a key
/// therefore emits two events, the input strictly before the tick.
pub open spec fn cycle_events(input: Option<Key>) -> Seq<InputEvent> {
    match input {
        Some(k) => seq![InputEvent::Input(k), InputEvent::Tick],
        None => seq![InputEvent::Tick],
    }
}

/// The queue contents after `n` further polling cycles in which no key
/// arrived.
pub open spec fn after_idle_cycles(q: Seq<InputEvent>, n: nat) -> Seq<InputEvent>
    decreases n,
{
    if n == 0 {
        q
    } else {
        after_idle_cycles(q, (n - 1) as nat) + cycle_events(None)
    }
}

/// The ordered event stream between the input-polling producer and the
/// single consumer. The producer appends the events of each polling
/// cycle at the back; the consumer takes events from the front, one at a
/// time, in exactly the order produced — no reordering, no coalescing,
/// no loss. Capacity is unbounded, so producing never blocks.
pub struct Events {
    queue: Vec<InputEvent>,
}

impl View for Events {
    type V = Seq<InputEvent>;

    closed spec fn view(&self) -> Seq<InputEvent> {
        self.queue@
    }
}

impl Events {
    /// An empty stream, before the first polling cycle.
    pub fn new() -> (r: Events)
        ensures
            r@ == Seq::<InputEvent>::empty(),
    {
        Events { queue: Vec::new() }
    }

    /// Record one polling cycle: the key that arrived within the window,
    /// if any, then exactly one tick.
    pub fn poll_cycle(&mut self, input: Option<Key>)
        ensures
            final(self)@ == old(self)@ + cycle_events(input),
    {
        if let Some(k) = input {
            self.queue.push(InputEvent::Input(k));
        }
        self.queue.push(InputEvent::Tick);
        proof {
            assert(final(self)@ =~= old(self)@ + cycle_events(input));
        }
    }

    /// Take the next event, in production order; `None` when the stream
    /// is currently empty.
    pub fn next(&mut self) -> (r: Option<InputEvent>)
        ensures
            old(self)@.len() == 0 ==> r is None && final(self)@ == old(self)@,
            old(self)@.len() > 0 ==> r == Some(old(self)@[0]) && final(self)@ == old(
                self,
            )@.drop_first(),
    {
        if self.queue.len() == 0 {
            None
        } else {
            let e = self.queue.remove(0);
            proof {
                assert(final(self)@ =~= old(self)@.drop_first());
            }
            Some(e)
        }
    }

    /// How many events are waiting.
    pub fn len(&self) -> (r: usize)
        ensures
            r == self@.len(),
    {
        self.queue.len()
    }
}

/// Law: in a polling cycle that received key `k`, the stream gains both
/// an input event and a tick, with the input emitted strictly before the
/// tick.
pub proof fn lemma_input_precedes_tick(q: Seq<InputEvent>, k: Key)
    ensures
        (q + cycle_events(Some(k))).len() == q.len() + 2,
        (q + cycle_events(Some(k)))[q.len() as int] == InputEvent::Input(k),
        (q + cycle_events(Some(k)))[q.len() as int + 1] == InputEvent::Tick,
{
}

/// Law: with no key input for `n` polling cycles, the stream gains
/// exactly `n` events, every one of them a tick, and the events already
/// queued are left as they were.
pub proof fn lemma_idle_ticking(q: Seq<InputEvent>, n: nat)
    ensures
        after_idle_cycles(q, n).len() == q.len() + n,
        forall|m: int| 0 <= m < q.len() ==> after_idle_cycles(q, n)[m] == q[m],
        forall|m: int|
            q.len() <= m < q.len() + n ==> after_idle_cycles(q, n)[m] == InputEvent::Tick,
    decreases n,
{
    if n > 0 {
        lemma_idle_ticking(q, (n - 1) as nat);
    }
}

} // verus!
