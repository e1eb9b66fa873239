use crate::error::Error;
use crate::event::{AllowOverlap, EventView, NewEventView, Range};
use vstd::prelude::*;

verus! {

/// The mathematical value of an event store: the stored events in the order
/// in which they were inserted, and the identifier that the next insert
/// hands out.
pub struct StoreModel {
    pub events: Seq<EventView>,
    pub next_id: nat,
}

/// The events whose start lies in the range.
pub open spec fn starts_in(range: Range) -> spec_fn(EventView) -> bool {
    |e: EventView| range.holds(e.start_date)
}

/// The events that carry another identifier than `id`.
pub open spec fn other_than(id: u32) -> spec_fn(EventView) -> bool {
    |e: EventView| e.id != id
}

/// Puts `event` in the place of the event that has its identifier and keeps
/// every other event.
pub open spec fn overwritten_by(event: EventView) -> spec_fn(EventView) -> EventView {
    |e: EventView|
        if e.id == event.id {
            event
        } else {
            e
        }
}

impl StoreModel {
    /// The store that holds nothing and will hand out `first_id` first.
    pub open spec fn empty(first_id: u32) -> StoreModel {
        StoreModel { events: Seq::empty(), next_id: first_id as nat }
    }

    /// Every stored identifier was handed out before `next_id`, and no
    /// identifier is stored twice.
    pub open spec fn wf(self) -> bool {
        &&& self.next_id <= u32::MAX + 1
        &&& forall|i: int| 0 <= i < self.events.len() ==> (#[trigger] self.events[i]).id < self.next_id
        &&& forall|i: int, j: int|
            0 <= i < j < self.events.len() ==> (#[trigger] self.events[i]).id != (
            #[trigger] self.events[j]).id
    }

    /// Some stored event carries the identifier.
    pub open spec fn has_id(self, id: u32) -> bool {
        exists|i: int| 0 <= i < self.events.len() && (#[trigger] self.events[i]).id == id
    }

    /// The stored event that carries the identifier, if there is one.
    pub open spec fn lookup(self, id: u32) -> Option<EventView> {
        if self.has_id(id) {
            Some(
                self.events[choose|i: int|
                    0 <= i < self.events.len() && (#[trigger] self.events[i]).id == id],
            )
        } else {
            None
        }
    }

    /// Some stored event meets the range under the closed-interval test.
    pub open spec fn overlaps(self, range: Range) -> bool {
        exists|i: int|
            0 <= i < self.events.len() && (#[trigger] self.events[i]).range().meets(range)
    }

    /// The stored events whose start lies in the range, in store order.
    pub open spec fn starting_within(self, range: Range) -> Seq<EventView> {
        self.events.filter(starts_in(range))
    }

    /// No identifier is left to hand out.
    pub open spec fn exhausted(self) -> bool {
        self.next_id > u32::MAX
    }

    /// The store after an insert, and what the insert reports: the new
    /// identifier, or `StoreError` from a store that has none left.
    pub open spec fn insert(self, event: NewEventView) -> (StoreModel, Result<u32, Error>) {
        if self.exhausted() {
            (self, Err(Error::StoreError))
        } else {
            (
                StoreModel {
                    events: self.events.push(event.with_id(self.next_id as u32)),
                    next_id: self.next_id + 1,
                },
                Ok(self.next_id as u32),
            )
        }
    }

    /// The store after title, start and end of the event with `event.id`
    /// were overwritten, and what the overwrite reports: `NotFound` where no
    /// stored event has that identifier.
    pub open spec fn patch(self, event: EventView) -> (StoreModel, Result<(), Error>) {
        if self.has_id(event.id) {
            (
                StoreModel {
                    events: self.events.map_values(overwritten_by(event)),
                    next_id: self.next_id,
                },
                Ok(()),
            )
        } else {
            (self, Err(Error::NotFound))
        }
    }

    /// The store without the event that carries the identifier. Removing an
    /// identifier that is not stored changes nothing.
    pub open spec fn remove(self, id: u32) -> StoreModel {
        StoreModel { events: self.events.filter(other_than(id)), next_id: self.next_id }
    }

    /// The policy forbids a write of this range into the store.
    pub open spec fn refuses(self, range: Range, policy: AllowOverlap) -> bool {
        policy == AllowOverlap::No && self.overlaps(range)
    }

    /// Guarded creation: under `AllowOverlap::No` a candidate that meets a
    /// stored event is turned away with `Conflict` and nothing is written;
    /// every other candidate is inserted.
    pub open spec fn create(self, event: NewEventView, policy: AllowOverlap) -> (
        StoreModel,
        Result<u32, Error>,
    ) {
        if self.refuses(event.range(), policy) {
            (self, Err(Error::Conflict))
        } else {
            self.insert(event)
        }
    }

    /// Guarded update: an identifier that is not stored gives `NotFound`
    /// before anything else is looked at; under `AllowOverlap::No` new
    /// fields whose range meets a stored event, the event's own current row
    /// included, give `Conflict`; otherwise the row is overwritten.
    pub open spec fn update(self, event: EventView, policy: AllowOverlap) -> (
        StoreModel,
        Result<(), Error>,
    ) {
        if !self.has_id(event.id) {
            (self, Err(Error::NotFound))
        } else if self.refuses(event.range(), policy) {
            (self, Err(Error::Conflict))
        } else {
            self.patch(event)
        }
    }
}

impl StoreModel {
    /// In a well-formed store the event found under an identifier is the one
    /// stored event that carries it.
    pub proof fn lemma_lookup(self, i: int)
        requires
            self.wf(),
            0 <= i < self.events.len(),
        ensures
            self.has_id(self.events[i].id),
            self.lookup(self.events[i].id) == Some(self.events[i]),
    {
        let id = self.events[i].id;
        let k = choose|k: int| 0 <= k < self.events.len() && (#[trigger] self.events[k]).id == id;
        if k < i {
            assert(self.events[k].id != self.events[i].id);
        } else if i < k {
            assert(self.events[i].id != self.events[k].id);
        }
    }

    /// Removing an identifier that is not stored leaves the store as it is.
    pub proof fn lemma_remove_absent(self, id: u32)
        requires
            !self.has_id(id),
        ensures
            self.remove(id) == self,
    {
        lemma_filter_all(self.events, other_than(id));
    }

    /// Removing a stored identifier from a well-formed store takes out the
    /// one event that carries it and keeps the others in their order.
    pub proof fn lemma_remove_present(self, i: int)
        requires
            self.wf(),
            0 <= i < self.events.len(),
        ensures
            self.remove(self.events[i].id).events == self.events.remove(i),
    {
        lemma_filter_one_out(self.events, self.events[i].id, i);
    }
}

/// A filter that every item passes keeps the sequence.
proof fn lemma_filter_all(s: Seq<EventView>, keep: spec_fn(EventView) -> bool)
    requires
        forall|i: int| 0 <= i < s.len() ==> keep(#[trigger] s[i]),
    ensures
        s.filter(keep) == s,
    decreases s.len(),
{
    reveal(Seq::filter);
    if s.len() > 0 {
        lemma_filter_all(s.drop_last(), keep);
        assert(s.drop_last().push(s.last()) =~= s);
    }
}

/// Where exactly one item carries `id`, filtering that identifier out
/// removes that item.
proof fn lemma_filter_one_out(s: Seq<EventView>, id: u32, k: int)
    requires
        0 <= k < s.len(),
        s[k].id == id,
        forall|i: int| 0 <= i < s.len() && i != k ==> (#[trigger] s[i]).id != id,
    ensures
        s.filter(other_than(id)) == s.remove(k),
    decreases s.len(),
{
    reveal(Seq::filter);
    let front = s.drop_last();
    if k == s.len() - 1 {
        lemma_filter_all(front, other_than(id));
        assert(s.remove(k) =~= front);
    } else {
        lemma_filter_one_out(front, id, k);
        assert(front.remove(k).push(s.last()) =~= s.remove(k));
    }
}

} // verus!
