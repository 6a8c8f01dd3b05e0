//! Event queues with read cursors.
//!
//! A queue numbers its events from zero in the order in which they were
//! sent. A consumer keeps a cursor: the number of the next event it has not
//! read. Reading hands out every stored event from the cursor on and moves
//! the cursor past them, so no event is read twice, and an event that waits
//! for a slow consumer is not lost.

use vstd::prelude::*;

verus! {

/// The number of the next event that a consumer has not read.
#[derive(Clone, Copy, Debug, PartialEq, Eq, Structural)]
pub struct EventCursor {
    pub position: usize,
}

impl Default for EventCursor {
    /// The cursor of a consumer that has read nothing.
    fn default() -> (cursor: Self)
        ensures
            cursor.position == 0,
    {
        EventCursor { position: 0 }
    }
}

/// A queue of events.
pub struct EventQueue<E> {
    /// How many events were forgotten from the front.
    forgotten: usize,
    /// The events still stored, oldest first.
    stored: Vec<E>,
}

impl<E> View for EventQueue<E> {
    type V = Seq<E>;

    /// The events still stored, oldest first.
    closed spec fn view(&self) -> Seq<E> {
        self.stored@
    }
}

impl<E: Copy> EventQueue<E> {
    /// Whether the numbers of all events fit the cursor. Every queue that
    /// `new` made and the methods below changed is well formed.
    pub closed spec fn well_formed(self) -> bool {
        self.forgotten + self.stored.len() <= usize::MAX
    }

    /// The number of the oldest event still stored.
    pub closed spec fn first(self) -> nat {
        self.forgotten as nat
    }

    /// The number that the next event will get: how many were ever sent.
    pub open spec fn total(self) -> nat {
        self.first() + self@.len()
    }

    /// The stored events numbered `position` or higher.
    pub open spec fn since(self, position: nat) -> Seq<E> {
        if position <= self.first() {
            self@
        } else if position <= self.total() {
            self@.skip(position - self.first())
        } else {
            Seq::empty()
        }
    }

    /// An empty queue, whose first event will have the number zero.
    pub fn new() -> (queue: EventQueue<E>)
        ensures
            queue.well_formed(),
            queue.first() == 0,
            queue@ == Seq::<E>::empty(),
    {
        EventQueue { forgotten: 0, stored: Vec::new() }
    }

    /// How many events were ever sent.
    pub fn count(&self) -> (n: usize)
        requires
            self.well_formed(),
        ensures
            n == self.total(),
    {
        self.forgotten + self.stored.len()
    }

    /// Appends an event. The queue refuses it, and says so, only when its
    /// numbering is exhausted.
    pub fn send(&mut self, event: E) -> (accepted: bool)
        requires
            old(self).well_formed(),
        ensures
            final(self).well_formed(),
            accepted == (old(self).total() < usize::MAX),
            final(self).first() == old(self).first(),
            accepted ==> final(self)@ == old(self)@.push(event),
            !accepted ==> final(self)@ == old(self)@,
            // Whoever has not read past the end gets the event next.
            accepted ==> forall|position: nat|
                position <= old(self).total() ==> #[trigger] final(self).since(position) == old(
                    self,
                ).since(position).push(event),
    {
        if self.stored.len() < usize::MAX - self.forgotten {
            let ghost before = *self;
            self.stored.push(event);
            proof {
                assert forall|position: nat| position <= before.total() implies #[trigger] self.since(
                    position,
                ) == before.since(position).push(event) by {
                    assert(self.since(position) =~= before.since(position).push(event));
                }
            }
            true
        } else {
            false
        }
    }

    /// Hands out every stored event that the cursor has not passed, oldest
    /// first, and moves the cursor to the end of the queue. A cursor that is
    /// already beyond the end stays.
    pub fn read(&self, cursor: &mut EventCursor) -> (unread: Vec<E>)
        requires
            self.well_formed(),
        ensures
            unread@ == self.since(old(cursor).position as nat),
            final(cursor).position == if old(cursor).position as nat <= self.total() {
                self.total()
            } else {
                old(cursor).position as nat
            },
    {
        let total: usize = self.forgotten + self.stored.len();
        let mut unread: Vec<E> = Vec::new();
        if cursor.position > total {
            return unread;
        }
        let start: usize = if cursor.position <= self.forgotten {
            0
        } else {
            cursor.position - self.forgotten
        };
        let mut i: usize = start;
        while i < self.stored.len()
            invariant
                start <= i <= self.stored.len(),
                unread@ == self.stored@.subrange(start as int, i as int),
            decreases self.stored.len() - i,
        {
            unread.push(self.stored[i]);
            i += 1;
            assert(unread@ =~= self.stored@.subrange(start as int, i as int));
        }
        assert(unread@ =~= self.stored@.skip(start as int));
        cursor.position = total;
        unread
    }

    /// Forgets the stored events numbered below `position`. The events from
    /// `position` on, and their numbers, stay.
    pub fn forget_before(&mut self, position: usize)
        requires
            old(self).well_formed(),
        ensures
            final(self).well_formed(),
            final(self).total() == old(self).total(),
            final(self).first() == if position as nat <= old(self).first() {
                old(self).first()
            } else if position as nat <= old(self).total() {
                position as nat
            } else {
                old(self).total()
            },
            final(self)@ == old(self).since(position as nat),
            // No event numbered `position` or higher is lost.
            forall|later: nat|
                later >= position ==> #[trigger] final(self).since(later) == old(self).since(later),
    {
        let total: usize = self.forgotten + self.stored.len();
        if position <= self.forgotten {
            return;
        }
        let cut: usize = if position <= total {
            position - self.forgotten
        } else {
            self.stored.len()
        };
        let mut kept: Vec<E> = Vec::new();
        let mut i: usize = cut;
        while i < self.stored.len()
            invariant
                cut <= i <= self.stored.len(),
                kept@ == self.stored@.subrange(cut as int, i as int),
            decreases self.stored.len() - i,
        {
            kept.push(self.stored[i]);
            i += 1;
            assert(kept@ =~= self.stored@.subrange(cut as int, i as int));
        }
        assert(kept@ =~= self.stored@.skip(cut as int));
        let ghost before = *self;
        self.forgotten = self.forgotten + cut;
        self.stored = kept;
        proof {
            assert forall|later: nat| later >= position implies #[trigger] self.since(later)
                == before.since(later) by {
                assert(self.since(later) =~= before.since(later));
            }
        }
    }
}

} // verus!
