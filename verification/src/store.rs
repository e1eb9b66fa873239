use crate::error::Error;
use crate::event::{views, AllowOverlap, Event, NewEvent, Range};
use crate::model::{overwritten_by, starts_in, StoreModel};
use vstd::prelude::*;

verus! {

/// An event store held in memory.
///
/// Its value is a [`StoreModel`], which every operation keeps well formed.
/// Identifiers are handed out in rising order and never a second time, also
/// after the event that had one is deleted.
#[derive(Debug)]
pub struct Cale {
    events: Vec<Event>,
    next_id: u64,
}

impl View for Cale {
    type V = StoreModel;

    closed spec fn view(&self) -> StoreModel {
        StoreModel { events: views(self.events@), next_id: self.next_id as nat }
    }
}

impl Cale {
    /// An empty store whose first event gets the identifier 1.
    pub fn new() -> (r: Cale)
        ensures
            r@ == StoreModel::empty(1),
            r@.wf(),
    {
        Cale::starting_at(1)
    }

    /// An empty store whose first event gets the identifier `first_id`.
    pub fn starting_at(first_id: u32) -> (r: Cale)
        ensures
            r@ == StoreModel::empty(first_id),
            r@.wf(),
    {
        let r = Cale { events: Vec::new(), next_id: first_id as u64 };
        assert(r@.events =~= Seq::empty());
        r
    }

    /// The number of stored events.
    pub fn len(&self) -> (r: usize)
        ensures
            r == self@.events.len(),
    {
        self.events.len()
    }

    /// The place of the event that carries the identifier.
    fn position(&self, id: u32) -> (r: Option<usize>)
        requires
            self@.wf(),
        ensures
            match r {
                Some(i) => i < self@.events.len() && self@.events[i as int].id == id,
                None => !self@.has_id(id),
            },
    {
        let mut i: usize = 0;
        while i < self.events.len()
            invariant
                i <= self.events.len(),
                forall|j: int| 0 <= j < i ==> (#[trigger] self@.events[j]).id != id,
            decreases self.events.len() - i,
        {
            if self.events[i].id == id {
                return Some(i);
            }
            i += 1;
        }
        None
    }

    /// Whether some stored event meets the range. Events that only touch
    /// the range at one of its ends do meet it.
    pub fn is_overlaping(&self, range: Range) -> (r: bool)
        ensures
            r == self@.overlaps(range),
    {
        let mut i: usize = 0;
        while i < self.events.len()
            invariant
                i <= self.events.len(),
                forall|j: int| 0 <= j < i ==> !(#[trigger] self@.events[j]).range().meets(range),
            decreases self.events.len() - i,
        {
            if self.events[i].range().overlaps(&range) {
                assert(self@.events[i as int].range().meets(range));
                return true;
            }
            i += 1;
        }
        false
    }

    /// Stores the event under a fresh identifier and returns it. Fails with
    /// `StoreError`, and stores nothing, once every identifier is used up.
    pub fn insert(&mut self, event: NewEvent) -> (r: Result<u32, Error>)
        requires
            old(self)@.wf(),
        ensures
            (final(self)@, r) == old(self)@.insert(event@),
            final(self)@.wf(),
    {
        if self.next_id > 0xffff_ffff {
            return Err(Error::StoreError);
        }
        let id: u32 = self.next_id as u32;
        let ghost before = self@;
        self.next_id = self.next_id + 1;
        self.events.push(
            Event {
                id,
                title: event.title,
                start_date: event.start_date,
                end_date: event.end_date,
            },
        );
        assert(self@.events =~= before.events.push(event@.with_id(id)));
        Ok(id)
    }

    /// Overwrites title, start and end of the stored event that has the
    /// identifier of `event`. Fails with `NotFound`, and changes nothing,
    /// where no stored event has it.
    pub fn patch(&mut self, event: Event) -> (r: Result<(), Error>)
        requires
            old(self)@.wf(),
        ensures
            (final(self)@, r) == old(self)@.patch(event@),
            final(self)@.wf(),
    {
        match self.position(event.id) {
            None => Err(Error::NotFound),
            Some(i) => {
                let ghost before = self@;
                let ghost after = event@;
                self.events[i] = event;
                assert(self@.events =~= before.events.map_values(overwritten_by(after)));
                Ok(())
            },
        }
    }

    /// The stored events whose start lies in the range, both ends included,
    /// in the order in which they were inserted.
    pub fn get_events(&self, range: Range) -> (r: Result<Vec<Event>, Error>)
        ensures
            match r {
                Ok(found) => views(found@) == self@.starting_within(range),
                Err(_) => false,
            },
    {
        let mut found: Vec<Event> = Vec::new();
        let mut i: usize = 0;
        assert(self@.events.take(0) =~= Seq::empty());
        proof {
            reveal(Seq::filter);
        }
        assert(views(found@) =~= self@.events.take(0).filter(starts_in(range)));
        while i < self.events.len()
            invariant
                i <= self.events.len(),
                views(found@) == self@.events.take(i as int).filter(starts_in(range)),
            decreases self.events.len() - i,
        {
            let ghost done = self@.events.take(i as int);
            let ghost more = self@.events.take(i + 1);
            proof {
                reveal(Seq::filter);
                assert(more.drop_last() =~= done);
                assert(more.last() == self@.events[i as int]);
            }
            if range.contains(self.events[i].start_date) {
                let ghost old_found = views(found@);
                found.push(self.events[i].clone());
                assert(views(found@) =~= old_found.push(self@.events[i as int]));
            }
            i += 1;
        }
        assert(self@.events.take(i as int) =~= self@.events);
        Ok(found)
    }

    /// The stored event that carries the identifier, or `NotFound`.
    pub fn show(&self, event_id: u32) -> (r: Result<Event, Error>)
        requires
            self@.wf(),
        ensures
            match r {
                Ok(event) => self@.lookup(event_id) == Some(event@),
                Err(e) => e == Error::NotFound && self@.lookup(event_id).is_none(),
            },
    {
        match self.position(event_id) {
            None => Err(Error::NotFound),
            Some(i) => {
                proof {
                    self@.lemma_lookup(i as int);
                }
                Ok(self.events[i].clone())
            },
        }
    }

    /// Removes the event that carries the identifier. Succeeds also where
    /// no stored event has it, and then changes nothing.
    pub fn delete(&mut self, id: u32) -> (r: Result<(), Error>)
        requires
            old(self)@.wf(),
        ensures
            r == Ok::<(), Error>(()),
            final(self)@ == old(self)@.remove(id),
            final(self)@.wf(),
    {
        let ghost before = self@;
        match self.position(id) {
            None => {
                proof {
                    before.lemma_remove_absent(id);
                }
            },
            Some(i) => {
                proof {
                    before.lemma_remove_present(i as int);
                }
                let _ = self.events.remove(i);
                assert(self@.events =~= before.events.remove(i as int));
            },
        }
        Ok(())
    }

    /// Guarded creation. With `AllowOverlap::No` an event whose range meets
    /// a stored event is turned away with `Conflict`; otherwise the event
    /// is inserted and its new identifier returned.
    pub fn create(&mut self, event: NewEvent, allow_overlap: AllowOverlap) -> (r: Result<
        u32,
        Error,
    >)
        requires
            old(self)@.wf(),
        ensures
            (final(self)@, r) == old(self)@.create(event@, allow_overlap),
            final(self)@.wf(),
    {
        match allow_overlap {
            AllowOverlap::No => {
                if self.is_overlaping(event.range()) {
                    return Err(Error::Conflict);
                }
                self.insert(event)
            },
            AllowOverlap::Yes => self.insert(event),
        }
    }

    /// Guarded update of the stored event that has the identifier of
    /// `event`. `NotFound` where there is none; with `AllowOverlap::No`,
    /// `Conflict` where the new range meets a stored event, the event's own
    /// current range included; otherwise title, start and end are
    /// overwritten.
    pub fn update(&mut self, event: Event, allow_overlap: AllowOverlap) -> (r: Result<(), Error>)
        requires
            old(self)@.wf(),
        ensures
            (final(self)@, r) == old(self)@.update(event@, allow_overlap),
            final(self)@.wf(),
    {
        if self.position(event.id).is_none() {
            return Err(Error::NotFound);
        }
        match allow_overlap {
            AllowOverlap::No => {
                if self.is_overlaping(event.range()) {
                    return Err(Error::Conflict);
                }
                self.patch(event)
            },
            AllowOverlap::Yes => self.patch(event),
        }
    }
}

} // verus!
