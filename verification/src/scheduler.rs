//! A queue of timed events, kept in order of their due tick.
//!
//! The queue always ends with an [`EventKind::Unreachable`] event due at
//! tick `u64::MAX`, so a search for the place of a new event always ends
//! inside the queue.
use vstd::prelude::*;

verus! {

/// The kinds of events.
#[derive(Clone, Copy, Debug, PartialEq, Eq, Structural)]
pub enum EventKind {
    /// Reset the processor.
    Reset,
    /// The end of the queue; it is never due.
    Unreachable,
}

/// An event and the tick at which it is due.
#[derive(Clone, Copy, Debug, PartialEq, Eq, Structural)]
pub struct Event {
    /// What happens.
    pub kind: EventKind,
    /// When it happens.
    pub tick: u64,
}

/// The events are in order of their due ticks.
pub open spec fn sorted(events: Seq<Event>) -> bool {
    forall|i: int, j: int| 0 <= i <= j < events.len() ==> events[i].tick <= events[j].tick
}

/// `i` is the place where an event due at `tick` goes: the first event that
/// is due no earlier.
pub open spec fn place(events: Seq<Event>, tick: u64, i: int) -> bool {
    &&& 0 <= i < events.len()
    &&& tick <= events[i].tick
    &&& forall|j: int| 0 <= j < i ==> events[j].tick < tick
}

/// The event that ends every queue.
pub open spec fn sentinel() -> Event {
    Event { kind: EventKind::Unreachable, tick: u64::MAX }
}

/// `n` is `s` with `e` at its place; where `s` has no event due at or after
/// `e`, `n` is `s`.
pub open spec fn inserted(s: Seq<Event>, e: Event, n: Seq<Event>) -> bool {
    &&& forall|i: int| place(s, e.tick, i) ==> n == s.insert(i, e)
    &&& (forall|i: int| 0 <= i < s.len() ==> s[i].tick < e.tick) ==> n == s
}

/// Inserts `e` into `events` at its place.
pub fn insert_event(events: &mut Vec<Event>, e: Event)
    ensures
        inserted(old(events)@, e, final(events)@),
        old(events)@.len() > 0 && sorted(old(events)@) && old(events)@.last() == sentinel() ==> {
            &&& final(events)@.len() > 0
            &&& sorted(final(events)@)
            &&& final(events)@.last() == sentinel()
            &&& final(events)@.len() == old(events)@.len() + 1
        },
{
    let ghost s = events@;
    let mut i: usize = 0;
    while i < events.len()
        invariant
            i <= s.len(),
            s == old(events)@,
            events@ == s,
            forall|j: int| 0 <= j < i ==> s[j].tick < e.tick,
        decreases s.len() - i,
    {
        if e.tick <= events[i].tick {
            events.insert(i, e);
            proof {
                assert forall|k: int| place(s, e.tick, k) implies k == i by {
                    if k < i {
                        assert(s[k].tick < e.tick);
                    } else if k > i {
                        assert(s[i as int].tick < e.tick);
                    }
                }
                if sorted(s) {
                    let n = events@;
                    assert forall|a: int, b: int| 0 <= a <= b < n.len() implies n[a].tick
                        <= n[b].tick by {
                        if a < i && b > i {
                            assert(s[a].tick <= s[b - 1].tick);
                        }
                    }
                }
                if s.len() > 0 && s.last() == sentinel() {
                    assert(events@.last() == s.last());
                }
            }
            return;
        }
        i = i + 1;
    }
    proof {
        assert forall|k: int| place(s, e.tick, k) implies false by {
            assert(s[k].tick < e.tick);
        }
        if s.len() > 0 && s.last() == sentinel() {
            assert(s[s.len() - 1].tick < e.tick);
        }
    }
}

/// The event queue and the clock.
pub struct Scheduler {
    /// The pending events, in order of their due ticks.
    pub events: Vec<Event>,
    /// The current tick.
    pub ticks: u64,
}

impl Scheduler {
    /// The events are sorted and end with the sentinel.
    pub open spec fn wf(&self) -> bool {
        &&& self.events@.len() > 0
        &&& sorted(self.events@)
        &&& self.events@.last() == sentinel()
    }

    /// Creates a scheduler at tick 0 with no pending events.
    pub fn new() -> (s: Scheduler)
        ensures
            s.wf(),
            s.events@ == seq![sentinel()],
            s.ticks == 0,
    {
        let mut events: Vec<Event> = Vec::new();
        events.push(Event { kind: EventKind::Unreachable, tick: u64::MAX });
        Scheduler { events, ticks: 0 }
    }

    /// Advances the clock by one tick.
    pub fn tick(&mut self)
        requires
            old(self).ticks < u64::MAX,
        ensures
            final(self).ticks == old(self).ticks + 1,
            final(self).events == old(self).events,
    {
        self.ticks = self.ticks + 1;
    }

    /// Queues an event of kind `kind`, due `offset` ticks from now. It goes
    /// before every event due no earlier, so among events due at the same
    /// tick the last one queued comes first.
    pub fn queue(&mut self, kind: EventKind, offset: u64)
        requires
            old(self).ticks + offset <= u64::MAX,
        ensures
            final(self).ticks == old(self).ticks,
            inserted(
                old(self).events@,
                Event { kind, tick: (old(self).ticks + offset) as u64 },
                final(self).events@,
            ),
            old(self).wf() ==> final(self).wf(),
            old(self).wf() ==> final(self).events@.len() == old(self).events@.len() + 1,
    {
        let tick = self.ticks + offset;
        insert_event(&mut self.events, Event { kind, tick });
    }
}

} // verus!
