//! An event queue read in place: [`Scheduler::ready`] tells whether the
//! clock has not passed the next event, and [`Scheduler::next`] names that
//! event without taking it off the queue.
use vstd::prelude::*;

pub use crate::scheduler::EventKind;
use crate::scheduler::{insert_event, inserted, sentinel, sorted, Event};

verus! {

/// The event queue and the clock.
pub struct Scheduler {
    /// The pending events, in order of their due times.
    pub events: Vec<Event>,
    /// The current time.
    pub time: u64,
}

impl Scheduler {
    /// The events are sorted and end with the sentinel.
    pub open spec fn wf(&self) -> bool {
        &&& self.events@.len() > 0
        &&& sorted(self.events@)
        &&& self.events@.last() == sentinel()
    }

    /// Creates a scheduler at time 0 with no pending events.
    pub fn new() -> (s: Scheduler)
        ensures
            s.wf(),
            s.events@ == seq![sentinel()],
            s.time == 0,
    {
        let mut events: Vec<Event> = Vec::new();
        events.push(Event { kind: EventKind::Unreachable, tick: u64::MAX });
        Scheduler { events, time: 0 }
    }

    /// Advances the clock by one.
    pub fn tick(&mut self)
        requires
            old(self).time < u64::MAX,
        ensures
            final(self).time == old(self).time + 1,
            final(self).events == old(self).events,
    {
        self.time = self.time + 1;
    }

    /// Queues an event of kind `kind`, due `offset` from now, before every
    /// event due no earlier.
    pub fn queue(&mut self, kind: EventKind, offset: u64)
        requires
            old(self).time + offset <= u64::MAX,
        ensures
            final(self).time == old(self).time,
            inserted(
                old(self).events@,
                Event { kind, tick: (old(self).time + offset) as u64 },
                final(self).events@,
            ),
            old(self).wf() ==> final(self).wf(),
    {
        let time = self.time + offset;
        insert_event(&mut self.events, Event { kind, tick: time });
    }

    /// Whether the clock has not passed the first event.
    pub fn ready(&self) -> (r: bool)
        requires
            self.events@.len() > 0,
        ensures
            r == (self.time <= self.events@[0].tick),
    {
        self.time <= self.events[0].tick
    }

    /// The kind of the first event, which stays queued.
    pub fn next(&self) -> (kind: EventKind)
        requires
            self.events@.len() > 0,
        ensures
            kind == self.events@[0].kind,
    {
        self.events[0].kind
    }
}

} // verus!
