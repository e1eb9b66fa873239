use crate::error::Error;
use crate::event::{AllowOverlap, EventView, NewEventView, Range};
use crate::model::{other_than, starts_in, StoreModel};
use vstd::prelude::*;

verus! {

/// Every operation keeps a well-formed store well formed.
pub proof fn lemma_operations_keep_wf(
    s: StoreModel,
    candidate: NewEventView,
    event: EventView,
    id: u32,
    policy: AllowOverlap,
)
    requires
        s.wf(),
    ensures
        s.insert(candidate).0.wf(),
        s.patch(event).0.wf(),
        s.remove(id).wf(),
        s.create(candidate, policy).0.wf(),
        s.update(event, policy).0.wf(),
{
    let patched = s.patch(event).0;
    if s.has_id(event.id) {
        assert forall|i: int, j: int| 0 <= i < j < patched.events.len() implies (
        #[trigger] patched.events[i]).id != (#[trigger] patched.events[j]).id by {
            assert(patched.events[i].id == s.events[i].id);
            assert(patched.events[j].id == s.events[j].id);
        }
        assert forall|i: int| 0 <= i < patched.events.len() implies (
        #[trigger] patched.events[i]).id < patched.next_id by {
            assert(patched.events[i].id == s.events[i].id);
        }
    }
    lemma_remove_keeps_wf(s, id);
}

/// Removing an identifier from a well-formed store leaves a well-formed
/// store.
pub proof fn lemma_remove_keeps_wf(s: StoreModel, id: u32)
    requires
        s.wf(),
    ensures
        s.remove(id).wf(),
{
    if s.has_id(id) {
        let k = choose|k: int| 0 <= k < s.events.len() && (#[trigger] s.events[k]).id == id;
        s.lemma_remove_present(k);
        let after = s.remove(id);
        assert forall|i: int| 0 <= i < after.events.len() implies (#[trigger] after.events[i]).id
            < after.next_id by {
            if i < k {
                assert(after.events[i] == s.events[i]);
            } else {
                assert(after.events[i] == s.events[i + 1]);
            }
        }
        assert forall|i: int, j: int| 0 <= i < j < after.events.len() implies (
        #[trigger] after.events[i]).id != (#[trigger] after.events[j]).id by {
            let a = if i < k {
                i
            } else {
                i + 1
            };
            let b = if j < k {
                j
            } else {
                j + 1
            };
            assert(after.events[i] == s.events[a]);
            assert(after.events[j] == s.events[b]);
        }
    } else {
        s.lemma_remove_absent(id);
    }
}

/// Creation in an empty store succeeds under either policy: the event gets
/// the store's first identifier and is then the only stored event.
pub proof fn lemma_create_in_empty_store(
    first_id: u32,
    candidate: NewEventView,
    policy: AllowOverlap,
)
    ensures
        StoreModel::empty(first_id).create(candidate, policy).1 == Ok::<u32, Error>(first_id),
        StoreModel::empty(first_id).create(candidate, policy).0.events == seq![
            candidate.with_id(first_id),
        ],
{
    let s = StoreModel::empty(first_id);
    assert(!s.overlaps(candidate.range()));
    assert(s.create(candidate, policy).0.events =~= seq![candidate.with_id(first_id)]);
}

/// Where overlap is not allowed, a candidate that meets a stored event is
/// turned away with `Conflict`, and the store stays as it was: it holds the
/// same events, and so as many as before.
pub proof fn lemma_conflict_writes_nothing(s: StoreModel, candidate: NewEventView)
    requires
        s.overlaps(candidate.range()),
    ensures
        s.create(candidate, AllowOverlap::No) == (s, Err::<u32, Error>(Error::Conflict)),
        s.create(candidate, AllowOverlap::No).0.events.len() == s.events.len(),
{
}

/// Where overlap is not allowed and no stored event meets the candidate,
/// creation does what a plain insert does.
pub proof fn lemma_clear_candidate_is_inserted(s: StoreModel, candidate: NewEventView)
    requires
        !s.overlaps(candidate.range()),
    ensures
        s.create(candidate, AllowOverlap::No) == s.insert(candidate),
{
}

/// Where overlap is allowed, creation does what a plain insert does,
/// whatever the store holds: it never reports `Conflict`, and it fails only
/// where the store has no identifier left.
pub proof fn lemma_allowed_overlap_never_conflicts(s: StoreModel, candidate: NewEventView)
    ensures
        s.create(candidate, AllowOverlap::Yes) == s.insert(candidate),
        s.create(candidate, AllowOverlap::Yes).1 != Err::<u32, Error>(Error::Conflict),
        s.create(candidate, AllowOverlap::Yes).1.is_ok() <==> !s.exhausted(),
{
}

/// Where overlap is allowed, an update of a stored event never reports
/// `Conflict`: it does what a plain overwrite does.
pub proof fn lemma_allowed_overlap_update(s: StoreModel, event: EventView)
    ensures
        s.update(event, AllowOverlap::Yes) == s.patch(event),
        s.update(event, AllowOverlap::Yes).1 != Err::<(), Error>(Error::Conflict),
{
}

/// An update that names an identifier that is not stored fails with
/// `NotFound` under either policy, and the store stays as it was.
pub proof fn lemma_update_of_absent_id(s: StoreModel, event: EventView, policy: AllowOverlap)
    requires
        !s.has_id(event.id),
    ensures
        s.update(event, policy) == (s, Err::<(), Error>(Error::NotFound)),
{
}

/// Where overlap is not allowed, the scan of an update does not skip the
/// event's own row: new fields whose range meets the range that the event
/// has now are turned away with `Conflict`.
pub proof fn lemma_update_meets_own_row(s: StoreModel, event: EventView, i: int)
    requires
        0 <= i < s.events.len(),
        s.events[i].id == event.id,
        s.events[i].range().meets(event.range()),
    ensures
        s.update(event, AllowOverlap::No) == (s, Err::<(), Error>(Error::Conflict)),
{
}

/// After a successful update the store shows the new fields under the
/// event's identifier, and holds as many events as before.
pub proof fn lemma_updated_event_is_shown(s: StoreModel, event: EventView, policy: AllowOverlap)
    requires
        s.wf(),
        s.update(event, policy).1.is_ok(),
    ensures
        s.update(event, policy).0.lookup(event.id) == Some(event),
        s.update(event, policy).0.events.len() == s.events.len(),
        s.update(event, policy).0.next_id == s.next_id,
{
    let after = s.update(event, policy).0;
    lemma_operations_keep_wf(s, event.fields(), event, event.id, policy);
    let k = choose|k: int| 0 <= k < s.events.len() && (#[trigger] s.events[k]).id == event.id;
    assert(after.events[k] == event);
    after.lemma_lookup(k);
}

/// After an identifier is removed, no event is found under it.
pub proof fn lemma_deleted_is_not_found(s: StoreModel, id: u32)
    ensures
        !s.remove(id).has_id(id),
        s.remove(id).lookup(id).is_none(),
{
    let after = s.remove(id);
    assert forall|i: int| 0 <= i < after.events.len() implies (#[trigger] after.events[i]).id
        != id by {
        s.events.lemma_filter_pred(other_than(id), i);
    }
}

/// Removal touches no other event: whatever is found under another
/// identifier before is found under it afterwards.
pub proof fn lemma_delete_keeps_others(s: StoreModel, id: u32, other: u32)
    requires
        s.wf(),
        other != id,
    ensures
        s.remove(id).lookup(other) == s.lookup(other),
{
    let after = s.remove(id);
    lemma_remove_keeps_wf(s, id);
    if s.has_id(other) {
        let k = choose|k: int| 0 <= k < s.events.len() && (#[trigger] s.events[k]).id == other;
        s.lemma_lookup(k);
        s.events.lemma_filter_contains(other_than(id), k);
        let j = choose|j: int| 0 <= j < after.events.len() && after.events[j] == s.events[k];
        after.lemma_lookup(j);
    } else if after.has_id(other) {
        let j = choose|j: int| 0 <= j < after.events.len() && (#[trigger] after.events[j]).id
            == other;
        assert(after.events.contains(after.events[j]));
        s.events.lemma_filter_contains_rev(other_than(id), after.events[j]);
        let k = choose|k: int| 0 <= k < s.events.len() && s.events[k] == after.events[j];
        assert(s.events[k].id == other);
    }
}

/// A listing holds exactly the stored events whose start lies in the range,
/// ends included: nothing else, and none of them left out.
pub proof fn lemma_listing_is_exact(s: StoreModel, range: Range, e: EventView)
    ensures
        s.starting_within(range).contains(e) <==> s.events.contains(e) && range.holds(
            e.start_date,
        ),
        s.starting_within(range).len() <= s.events.len(),
{
    let listed = s.starting_within(range);
    s.events.lemma_filter_len(starts_in(range));
    if listed.contains(e) {
        let i = choose|i: int| 0 <= i < listed.len() && listed[i] == e;
        s.events.lemma_filter_pred(starts_in(range), i);
        s.events.lemma_filter_contains_rev(starts_in(range), e);
    }
    if s.events.contains(e) && range.holds(e.start_date) {
        let k = choose|k: int| 0 <= k < s.events.len() && s.events[k] == e;
        s.events.lemma_filter_contains(starts_in(range), k);
    }
}

/// What a successful creation stored is what the store then shows under the
/// returned identifier: the candidate's title, start and end. The
/// identifier is fresh: no event was stored under it before.
pub proof fn lemma_created_event_is_shown(
    s: StoreModel,
    candidate: NewEventView,
    policy: AllowOverlap,
)
    requires
        s.wf(),
        s.create(candidate, policy).1.is_ok(),
    ensures
        ({
            let (after, r) = s.create(candidate, policy);
            let id = r.unwrap();
            &&& !s.has_id(id)
            &&& after.lookup(id) == Some(candidate.with_id(id))
            &&& after.events.len() == s.events.len() + 1
        }),
{
    let (after, r) = s.create(candidate, policy);
    let id = r.unwrap();
    lemma_operations_keep_wf(s, candidate, candidate.with_id(id), id, policy);
    assert(after.events[s.events.len() as int] == candidate.with_id(id));
    after.lemma_lookup(s.events.len() as int);
}

/// An identifier is handed out once: after the event that had it is
/// removed, a later creation gets another one.
pub proof fn lemma_identifier_is_not_reused(
    s: StoreModel,
    id: u32,
    candidate: NewEventView,
    policy: AllowOverlap,
)
    requires
        s.wf(),
        s.has_id(id),
    ensures
        s.remove(id).create(candidate, policy).1 != Ok::<u32, Error>(id),
{
}

} // verus!
