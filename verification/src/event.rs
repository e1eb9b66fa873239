use vstd::prelude::*;
use vstd::std_specs::convert::FromSpecImpl;

verus! {

/// A closed interval of epoch seconds, both ends included.
///
/// Nothing asks that `start_date <= end_date`: a range whose end lies before
/// its start is accepted and simply meets fewer ranges.
#[derive(Debug, Clone, Copy, PartialEq, Eq, Structural)]
pub struct Range {
    pub start_date: i64,
    pub end_date: i64,
}

/// Whether a write may go ahead although its range meets a stored event.
#[derive(Debug, Clone, Copy, PartialEq, Eq, Structural)]
pub enum AllowOverlap {
    Yes,
    No,
}

/// A stored event: a titled range with the identifier the store gave it.
#[derive(Debug)]
pub struct Event {
    pub id: u32,
    pub title: String,
    pub start_date: i64,
    pub end_date: i64,
}

/// An event that has not been stored yet, and so has no identifier.
#[derive(Debug)]
pub struct NewEvent {
    pub title: String,
    pub start_date: i64,
    pub end_date: i64,
}

/// The mathematical value of an [`Event`].
pub struct EventView {
    pub id: u32,
    pub title: Seq<char>,
    pub start_date: i64,
    pub end_date: i64,
}

/// The mathematical value of a [`NewEvent`].
pub struct NewEventView {
    pub title: Seq<char>,
    pub start_date: i64,
    pub end_date: i64,
}

impl Range {
    /// The closed-interval test: the two ranges share at least one instant.
    /// Ranges that only touch at an end point do meet.
    pub open spec fn meets(self, other: Range) -> bool {
        self.start_date <= other.end_date && self.end_date >= other.start_date
    }

    /// The range is not empty: it ends no earlier than it starts.
    pub open spec fn proper(self) -> bool {
        self.start_date <= self.end_date
    }

    /// The instant lies in the range, ends included.
    pub open spec fn holds(self, instant: i64) -> bool {
        self.start_date <= instant <= self.end_date
    }

    /// Decides [`Range::meets`].
    pub fn overlaps(&self, other: &Range) -> (r: bool)
        ensures
            r == self.meets(*other),
    {
        self.start_date <= other.end_date && self.end_date >= other.start_date
    }

    /// Decides [`Range::holds`].
    pub fn contains(&self, instant: i64) -> (r: bool)
        ensures
            r == self.holds(instant),
    {
        self.start_date <= instant && instant <= self.end_date
    }
}

impl EventView {
    /// The interval the event occupies.
    pub open spec fn range(self) -> Range {
        Range { start_date: self.start_date, end_date: self.end_date }
    }

    /// The event without its identifier.
    pub open spec fn fields(self) -> NewEventView {
        NewEventView { title: self.title, start_date: self.start_date, end_date: self.end_date }
    }
}

impl NewEventView {
    /// The interval the candidate asks for.
    pub open spec fn range(self) -> Range {
        Range { start_date: self.start_date, end_date: self.end_date }
    }

    /// The event that the candidate becomes under the identifier `id`.
    pub open spec fn with_id(self, id: u32) -> EventView {
        EventView { id, title: self.title, start_date: self.start_date, end_date: self.end_date }
    }
}

impl View for Event {
    type V = EventView;

    open spec fn view(&self) -> EventView {
        EventView {
            id: self.id,
            title: self.title@,
            start_date: self.start_date,
            end_date: self.end_date,
        }
    }
}

impl View for NewEvent {
    type V = NewEventView;

    open spec fn view(&self) -> NewEventView {
        NewEventView { title: self.title@, start_date: self.start_date, end_date: self.end_date }
    }
}

/// The mathematical values of a run of events, in the same order.
pub open spec fn views(events: Seq<Event>) -> Seq<EventView> {
    events.map_values(|e: Event| e@)
}

impl Event {
    /// The interval the event occupies.
    pub fn range(&self) -> (r: Range)
        ensures
            r == self@.range(),
    {
        Range { start_date: self.start_date, end_date: self.end_date }
    }
}

impl NewEvent {
    /// The interval the candidate asks for.
    pub fn range(&self) -> (r: Range)
        ensures
            r == self@.range(),
    {
        Range { start_date: self.start_date, end_date: self.end_date }
    }
}

impl Clone for Event {
    fn clone(&self) -> (r: Self)
        ensures
            r == *self,
    {
        Event {
            id: self.id,
            title: self.title.clone(),
            start_date: self.start_date,
            end_date: self.end_date,
        }
    }
}

impl Clone for NewEvent {
    fn clone(&self) -> (r: Self)
        ensures
            r == *self,
    {
        NewEvent {
            title: self.title.clone(),
            start_date: self.start_date,
            end_date: self.end_date,
        }
    }
}

impl From<Event> for NewEvent {
    /// Drops the identifier and keeps title, start and end.
    fn from(event: Event) -> (r: Self) {
        NewEvent { title: event.title, start_date: event.start_date, end_date: event.end_date }
    }
}

impl FromSpecImpl<Event> for NewEvent {
    open spec fn obeys_from_spec() -> bool {
        true
    }

    open spec fn from_spec(event: Event) -> Self {
        NewEvent { title: event.title, start_date: event.start_date, end_date: event.end_date }
    }
}

/// Ranges meet each other or not at all: the closed-interval test gives the
/// same answer whichever of the two ranges is asked, and so whichever of
/// them starts earlier.
pub proof fn lemma_meets_is_symmetric(a: Range, b: Range)
    ensures
        a.meets(b) == b.meets(a),
{
}

/// Two ranges that are not empty meet exactly when some instant lies in
/// both of them.
pub proof fn lemma_meets_iff_common_instant(a: Range, b: Range)
    requires
        a.proper(),
        b.proper(),
    ensures
        a.meets(b) <==> exists|t: i64| a.holds(t) && b.holds(t),
{
    if a.meets(b) {
        let t = if a.start_date >= b.start_date {
            a.start_date
        } else {
            b.start_date
        };
        assert(a.holds(t) && b.holds(t));
    }
}

} // verus!
