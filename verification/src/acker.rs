//! Acknowledgment of delivered batches, in the order in which the batches
//! were handed over.

use vstd::prelude::*;

verus! {

/// A batch that was handed over and is not yet released.
#[derive(Clone, Copy, Debug, PartialEq, Eq, Structural)]
pub enum Slot {
    /// In delivery, with this many events.
    InFlight(usize),
    /// Delivered, with this many events still to be acknowledged.
    Delivered(usize),
    /// Given up, with this many events lost.
    Lost(usize),
}

/// How many events a slot stands for.
pub open spec fn slot_events(slot: Slot) -> nat {
    match slot {
        Slot::InFlight(n) => n as nat,
        Slot::Delivered(n) => n as nat,
        Slot::Lost(n) => n as nat,
    }
}

/// How many events the slots stand for together.
pub open spec fn events_in(slots: Seq<Slot>) -> nat
    decreases slots.len(),
{
    if slots.len() == 0 {
        0
    } else {
        events_in(slots.drop_last()) + slot_events(slots.last())
    }
}

/// The acknowledgments that the slots give rise to: the event count of each
/// delivered one, in order.
pub open spec fn acks_of(slots: Seq<Slot>) -> Seq<usize>
    decreases slots.len(),
{
    if slots.len() == 0 {
        Seq::empty()
    } else {
        match slots.last() {
            Slot::Delivered(n) => acks_of(slots.drop_last()).push(n),
            _ => acks_of(slots.drop_last()),
        }
    }
}

/// How many events among the slots were lost.
pub open spec fn lost_in(slots: Seq<Slot>) -> nat
    decreases slots.len(),
{
    if slots.len() == 0 {
        0
    } else {
        match slots.last() {
            Slot::Lost(n) => lost_in(slots.drop_last()) + n as nat,
            _ => lost_in(slots.drop_last()),
        }
    }
}

/// The sum of a list of acknowledgments.
pub open spec fn sum(acks: Seq<usize>) -> nat
    decreases acks.len(),
{
    if acks.len() == 0 {
        0
    } else {
        sum(acks.drop_last()) + acks.last() as nat
    }
}

/// How many slots at the front are settled, delivered or lost.
pub open spec fn settled_prefix(slots: Seq<Slot>) -> nat
    decreases slots.len(),
{
    if slots.len() == 0 || slots[0] is InFlight {
        0
    } else {
        1 + settled_prefix(slots.drop_first())
    }
}

/// The slots after the one at `position` is settled; unchanged when there
/// is no such slot or it is settled already.
pub open spec fn settle(slots: Seq<Slot>, position: int, delivered: bool) -> Seq<Slot> {
    if 0 <= position < slots.len() && slots[position] is InFlight {
        slots.update(
            position,
            if delivered {
                Slot::Delivered(slots[position]->InFlight_0)
            } else {
                Slot::Lost(slots[position]->InFlight_0)
            },
        )
    } else {
        slots
    }
}

/// `k` is the settled prefix when the first `k` slots are settled and the
/// slot after them, if there is one, is in flight.
pub proof fn lemma_settled_prefix(slots: Seq<Slot>, k: int)
    requires
        0 <= k <= slots.len(),
        forall|j: int| 0 <= j < k ==> !(slots[j] is InFlight),
        k < slots.len() ==> slots[k] is InFlight,
    ensures
        settled_prefix(slots) == k,
    decreases k,
{
    if k > 0 {
        let rest = slots.drop_first();
        assert forall|j: int| 0 <= j < k - 1 implies !(rest[j] is InFlight) by {
            assert(rest[j] == slots[j + 1]);
        }
        lemma_settled_prefix(rest, k - 1);
    }
}

/// Release follows the order of submission: every slot within the settled
/// prefix is settled, and the slot after it, if there is one, is still in
/// flight, so no batch is released before one that was handed over earlier.
pub proof fn lemma_release_order(slots: Seq<Slot>)
    ensures
        0 <= settled_prefix(slots) <= slots.len(),
        forall|j: int| 0 <= j < settled_prefix(slots) ==> !(#[trigger] slots[j] is InFlight),
        settled_prefix(slots) < slots.len() ==> slots[settled_prefix(slots) as int] is InFlight,
    decreases slots.len(),
{
    if slots.len() > 0 && !(slots[0] is InFlight) {
        let rest = slots.drop_first();
        lemma_release_order(rest);
        assert forall|j: int| 0 <= j < settled_prefix(slots) implies !(#[trigger] slots[j]
            is InFlight) by {
            if j > 0 {
                assert(slots[j] == rest[j - 1]);
            }
        }
    }
}

/// The events of a list of slots are those of a prefix and those of the rest.
pub proof fn lemma_split(slots: Seq<Slot>, k: int)
    requires
        0 <= k <= slots.len(),
    ensures
        events_in(slots) == events_in(slots.take(k)) + events_in(slots.skip(k)),
    decreases slots.len(),
{
    if k == slots.len() {
        assert(slots.take(k) =~= slots);
        assert(slots.skip(k) =~= Seq::empty());
    } else {
        lemma_split(slots.drop_last(), k);
        assert(slots.drop_last().take(k) =~= slots.take(k));
        assert(slots.drop_last().skip(k) =~= slots.skip(k).drop_last());
        assert(slots.skip(k).last() == slots.last());
    }
}

/// Among settled slots every event is either acknowledged or lost.
pub proof fn lemma_settled_events(slots: Seq<Slot>)
    requires
        forall|j: int| 0 <= j < slots.len() ==> !(slots[j] is InFlight),
    ensures
        events_in(slots) == sum(acks_of(slots)) + lost_in(slots),
    decreases slots.len(),
{
    if slots.len() > 0 {
        lemma_settled_events(slots.drop_last());
        match slots.last() {
            Slot::Delivered(n) => {
                assert(acks_of(slots).drop_last() =~= acks_of(slots.drop_last()));
            },
            _ => {},
        }
    }
}

/// Settling a slot keeps the number of events.
pub proof fn lemma_settle_keeps_events(slots: Seq<Slot>, position: int, delivered: bool)
    ensures
        events_in(settle(slots, position, delivered)) == events_in(slots),
        settle(slots, position, delivered).len() == slots.len(),
    decreases slots.len(),
{
    if slots.len() > 0 {
        let after = settle(slots, position, delivered);
        if position == slots.len() - 1 {
            assert(after.drop_last() =~= slots.drop_last());
        } else {
            lemma_settle_keeps_events(slots.drop_last(), position, delivered);
            assert(after.drop_last() =~= settle(slots.drop_last(), position, delivered));
        }
    }
}

/// Tracks the batches in delivery and releases their acknowledgments in the
/// order of submission: a delivered batch is acknowledged once every batch
/// handed over before it is settled.
pub struct AckTracker {
    head: u64,
    slots: Vec<Slot>,
    submitted: Ghost<nat>,
    acknowledged: Ghost<nat>,
    lost: Ghost<nat>,
}

impl AckTracker {
    /// Whether the tickets of the batches held fit the ticket type.
    pub open spec fn tickets_fit(&self) -> bool {
        self.head() + self.slots().len() <= u64::MAX
    }

    /// The ticket of the oldest batch that is not released.
    pub closed spec fn head(&self) -> u64 {
        self.head
    }

    /// The batches that are not released, oldest first.
    pub closed spec fn slots(&self) -> Seq<Slot> {
        self.slots@
    }

    /// How many events were handed over so far.
    pub closed spec fn submitted(&self) -> nat {
        self.submitted@
    }

    /// How many events were acknowledged so far.
    pub closed spec fn acknowledged(&self) -> nat {
        self.acknowledged@
    }

    /// How many events were released as lost so far.
    pub closed spec fn lost(&self) -> nat {
        self.lost@
    }

    /// Every event handed over is acknowledged, lost, or still held.
    pub open spec fn balanced(&self) -> bool {
        self.submitted() == self.acknowledged() + self.lost() + events_in(self.slots())
    }

    /// A tracker with nothing handed over.
    pub fn new() -> (r: AckTracker)
        ensures
            r.head() == 0,
            r.slots() == Seq::<Slot>::empty(),
            r.submitted() == 0,
            r.acknowledged() == 0,
            r.lost() == 0,
            r.balanced(),
            r.tickets_fit(),
    {
        AckTracker {
            head: 0,
            slots: Vec::new(),
            submitted: Ghost(0),
            acknowledged: Ghost(0),
            lost: Ghost(0),
        }
    }

    /// How many batches are held.
    pub fn outstanding(&self) -> (r: usize)
        ensures
            r == self.slots().len(),
    {
        self.slots.len()
    }

    /// Whether the tickets of the batches held fit the ticket type, as they
    /// do in every tracker that was made by `new` and changed by its methods.
    pub fn in_range(&self) -> (r: bool)
        ensures
            r == self.tickets_fit(),
    {
        self.head.checked_add(self.slots.len() as u64).is_some()
    }

    /// Whether another batch can be handed over: tickets have not run out.
    pub fn has_room(&self) -> (r: bool)
        ensures
            r == (self.head() + self.slots().len() < u64::MAX),
    {
        match self.head.checked_add(self.slots.len() as u64) {
            Some(next) => next < u64::MAX,
            None => false,
        }
    }

    /// Hands over a batch of `events` events and returns its ticket.
    pub fn submit(&mut self, events: usize) -> (ticket: u64)
        requires
            old(self).head() + old(self).slots().len() < u64::MAX,
        ensures
            ticket == old(self).head() + old(self).slots().len(),
            final(self).head() == old(self).head(),
            final(self).slots() == old(self).slots().push(Slot::InFlight(events)),
            final(self).submitted() == old(self).submitted() + events,
            final(self).acknowledged() == old(self).acknowledged(),
            final(self).lost() == old(self).lost(),
            old(self).balanced() ==> final(self).balanced(),
            final(self).tickets_fit(),
    {
        let ticket = self.head + self.slots.len() as u64;
        self.slots.push(Slot::InFlight(events));
        proof {
            self.submitted = Ghost(self.submitted@ + events as nat);
            assert(self.slots@.drop_last() =~= old(self).slots@);
        }
        ticket
    }

    /// Settles the batch with the given ticket, as delivered or as given up,
    /// and releases every settled batch at the front. Returns the
    /// acknowledgments to issue, in order: the event count of each released
    /// batch that was delivered. A ticket that names no batch in flight
    /// settles nothing.
    pub fn complete(&mut self, ticket: u64, delivered: bool) -> (acks: Vec<usize>)
        requires
            old(self).tickets_fit(),
        ensures
            final(self).tickets_fit(),
            ({
                let settled = settle(old(self).slots(), ticket - old(self).head(), delivered);
                let released = settled_prefix(settled) as int;
                &&& acks@ == acks_of(settled.take(released))
                &&& final(self).slots() == settled.skip(released)
                &&& final(self).head() == old(self).head() + released
                &&& final(self).submitted() == old(self).submitted()
                &&& final(self).acknowledged() == old(self).acknowledged() + sum(acks@)
                &&& final(self).lost() == old(self).lost() + lost_in(settled.take(released))
            }),
            final(self).slots().len() > 0 ==> final(self).slots()[0] is InFlight,
            old(self).balanced() ==> final(self).balanced(),
    {
        let ghost settled = settle(self.slots@, ticket - self.head, delivered);
        if ticket >= self.head && ticket - self.head < self.slots.len() as u64 {
            let position = (ticket - self.head) as usize;
            match self.slots[position] {
                Slot::InFlight(n) => {
                    self.slots[position] = if delivered {
                        Slot::Delivered(n)
                    } else {
                        Slot::Lost(n)
                    };
                },
                _ => {},
            }
        }
        assert(self.slots@ =~= settled);
        let mut acks: Vec<usize> = Vec::new();
        let mut k: usize = 0;
        while k < self.slots.len() && !is_in_flight(&self.slots[k])
            invariant
                k <= self.slots.len(),
                self.slots@ == settled,
                self.head == old(self).head,
                forall|j: int| 0 <= j < k ==> !(settled[j] is InFlight),
                acks@ == acks_of(settled.take(k as int)),
            decreases self.slots.len() - k,
        {
            match self.slots[k] {
                Slot::Delivered(n) => {
                    acks.push(n);
                },
                _ => {},
            }
            proof {
                assert(settled.take(k + 1).drop_last() =~= settled.take(k as int));
                assert(settled.take(k + 1).last() == settled[k as int]);
            }
            k = k + 1;
        }
        proof {
            lemma_settled_prefix(settled, k as int);
            lemma_settle_keeps_events(old(self).slots@, ticket - old(self).head, delivered);
            lemma_split(settled, k as int);
            lemma_settled_events(settled.take(k as int));
        }
        let rest = self.slots.split_off(k);
        self.slots = rest;
        self.head = self.head + k as u64;
        proof {
            self.acknowledged = Ghost(self.acknowledged@ + sum(acks@));
            self.lost = Ghost(self.lost@ + lost_in(settled.take(k as int)));
        }
        acks
    }
}

/// Whether a slot is still in delivery.
pub fn is_in_flight(slot: &Slot) -> (r: bool)
    ensures
        r == (*slot is InFlight),
{
    match slot {
        Slot::InFlight(_) => true,
        _ => false,
    }
}

/// Over a full run, when every batch handed over was delivered and
/// released, the acknowledgments add up to the events handed over.
pub proof fn lemma_full_run_acknowledges_all(tracker: AckTracker)
    requires
        tracker.balanced(),
        tracker.slots().len() == 0,
        tracker.lost() == 0,
    ensures
        tracker.acknowledged() == tracker.submitted(),
{
}

} // verus!
