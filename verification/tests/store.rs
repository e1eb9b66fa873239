use cale::{AllowOverlap, Cale, Error, Event, NewEvent, Range};

fn candidate(title: &str, start_date: i64, end_date: i64) -> NewEvent {
    NewEvent { title: title.to_string(), start_date, end_date }
}

fn stored(id: u32, title: &str, start_date: i64, end_date: i64) -> Event {
    Event { id, title: title.to_string(), start_date, end_date }
}

fn range(start_date: i64, end_date: i64) -> Range {
    Range { start_date, end_date }
}

#[test]
fn touching_boundaries_conflict() {
    let mut cale = Cale::new();
    assert_eq!(cale.create(candidate("first", 10, 20), AllowOverlap::No), Ok(1));
    assert!(cale.is_overlaping(range(20, 30)));
    assert!(cale.is_overlaping(range(0, 10)));
    assert_eq!(cale.create(candidate("second", 20, 30), AllowOverlap::No), Err(Error::Conflict));
}

#[test]
fn disjoint_ranges_do_not_conflict() {
    let mut cale = Cale::new();
    assert_eq!(cale.create(candidate("first", 10, 20), AllowOverlap::No), Ok(1));
    assert!(!cale.is_overlaping(range(21, 30)));
    assert!(!cale.is_overlaping(range(0, 9)));
    assert_eq!(cale.create(candidate("second", 21, 30), AllowOverlap::No), Ok(2));
    assert_eq!(cale.len(), 2);
}

#[test]
fn overlap_does_not_depend_on_which_range_starts_first() {
    let mut early = Cale::new();
    early.create(candidate("early", 10, 20), AllowOverlap::Yes).unwrap();
    assert!(early.is_overlaping(range(15, 40)));
    let mut late = Cale::new();
    late.create(candidate("late", 15, 40), AllowOverlap::Yes).unwrap();
    assert!(late.is_overlaping(range(10, 20)));
    assert!(range(10, 20).overlaps(&range(15, 40)));
    assert!(range(15, 40).overlaps(&range(10, 20)));
    assert!(!range(10, 20).overlaps(&range(21, 30)));
    assert!(!range(21, 30).overlaps(&range(10, 20)));
}

#[test]
fn candidate_inside_and_around_a_stored_event_conflicts() {
    let mut cale = Cale::new();
    cale.create(candidate("stored", 10, 20), AllowOverlap::Yes).unwrap();
    assert!(cale.is_overlaping(range(12, 18)));
    assert!(cale.is_overlaping(range(0, 100)));
    assert!(cale.is_overlaping(range(5, 10)));
}

#[test]
fn zero_duration_ranges_are_tested_like_any_other() {
    let mut cale = Cale::new();
    cale.create(candidate("stored", 10, 20), AllowOverlap::Yes).unwrap();
    assert!(cale.is_overlaping(range(10, 10)));
    assert!(cale.is_overlaping(range(15, 15)));
    assert!(cale.is_overlaping(range(20, 20)));
    assert!(!cale.is_overlaping(range(21, 21)));
    assert!(!cale.is_overlaping(range(9, 9)));
    assert_eq!(cale.create(candidate("instant", 30, 30), AllowOverlap::No), Ok(2));
    assert!(cale.is_overlaping(range(30, 30)));
}

#[test]
fn range_contains_its_ends() {
    let r = range(10, 20);
    assert!(r.contains(10));
    assert!(r.contains(20));
    assert!(r.contains(15));
    assert!(!r.contains(9));
    assert!(!r.contains(21));
}

#[test]
fn empty_store_overlaps_nothing() {
    let cale = Cale::new();
    assert!(!cale.is_overlaping(range(i64::MIN, i64::MAX)));
    assert_eq!(cale.len(), 0);
}

#[test]
fn create_without_overlap_in_empty_store_succeeds() {
    let mut cale = Cale::new();
    assert_eq!(cale.create(candidate("only", 5, 6), AllowOverlap::No), Ok(1));
    assert_eq!(cale.len(), 1);
    let mut other = Cale::starting_at(40);
    assert_eq!(other.create(candidate("only", i64::MIN, i64::MAX), AllowOverlap::No), Ok(40));
}

#[test]
fn conflict_leaves_the_event_count_unchanged() {
    let mut cale = Cale::new();
    cale.create(candidate("a", 10, 20), AllowOverlap::No).unwrap();
    cale.create(candidate("b", 30, 40), AllowOverlap::No).unwrap();
    assert_eq!(cale.len(), 2);
    assert_eq!(cale.create(candidate("c", 15, 35), AllowOverlap::No), Err(Error::Conflict));
    assert_eq!(cale.len(), 2);
    assert!(matches!(cale.show(3), Err(Error::NotFound)));
    assert_eq!(cale.create(candidate("d", 50, 60), AllowOverlap::No), Ok(3));
}

#[test]
fn allowed_overlap_never_conflicts() {
    let mut cale = Cale::new();
    assert_eq!(cale.create(candidate("a", 10, 20), AllowOverlap::Yes), Ok(1));
    assert_eq!(cale.create(candidate("b", 10, 20), AllowOverlap::Yes), Ok(2));
    assert_eq!(cale.create(candidate("c", 0, 100), AllowOverlap::Yes), Ok(3));
    assert_eq!(cale.len(), 3);
}

#[test]
fn update_of_unknown_id_is_not_found_and_changes_nothing() {
    let mut cale = Cale::new();
    cale.create(candidate("a", 10, 20), AllowOverlap::No).unwrap();
    assert_eq!(cale.update(stored(9, "z", 100, 200), AllowOverlap::Yes), Err(Error::NotFound));
    assert_eq!(cale.update(stored(9, "z", 10, 20), AllowOverlap::No), Err(Error::NotFound));
    assert_eq!(cale.len(), 1);
    let kept = cale.show(1).unwrap();
    assert_eq!(kept.title, "a");
    assert_eq!(kept.start_date, 10);
    assert_eq!(kept.end_date, 20);
    assert!(!cale.is_overlaping(range(100, 200)));
}

#[test]
fn update_in_empty_store_is_not_found() {
    let mut cale = Cale::new();
    assert_eq!(cale.update(stored(1, "z", 1, 2), AllowOverlap::No), Err(Error::NotFound));
    assert_eq!(cale.len(), 0);
}

#[test]
fn deleted_event_is_not_found() {
    let mut cale = Cale::new();
    let id = cale.create(candidate("a", 10, 20), AllowOverlap::No).unwrap();
    assert!(cale.show(id).is_ok());
    assert_eq!(cale.delete(id), Ok(()));
    assert!(matches!(cale.show(id), Err(Error::NotFound)));
    assert_eq!(cale.len(), 0);
    assert!(!cale.is_overlaping(range(10, 20)));
}

#[test]
fn delete_of_unknown_id_succeeds_and_changes_nothing() {
    let mut cale = Cale::new();
    cale.create(candidate("a", 10, 20), AllowOverlap::No).unwrap();
    assert_eq!(cale.delete(5), Ok(()));
    assert_eq!(cale.delete(5), Ok(()));
    assert_eq!(cale.len(), 1);
    assert_eq!(cale.show(1).unwrap().title, "a");
}

#[test]
fn delete_keeps_the_other_events_in_order() {
    let mut cale = Cale::new();
    cale.create(candidate("a", 1, 2), AllowOverlap::Yes).unwrap();
    cale.create(candidate("b", 3, 4), AllowOverlap::Yes).unwrap();
    cale.create(candidate("c", 5, 6), AllowOverlap::Yes).unwrap();
    assert_eq!(cale.delete(2), Ok(()));
    let left = cale.get_events(range(0, 10)).unwrap();
    assert_eq!(left.len(), 2);
    assert_eq!((left[0].id, left[0].title.as_str()), (1, "a"));
    assert_eq!((left[1].id, left[1].title.as_str()), (3, "c"));
    assert!(matches!(cale.show(2), Err(Error::NotFound)));
    assert_eq!(cale.show(3).unwrap().start_date, 5);
}

#[test]
fn identifiers_are_not_handed_out_twice() {
    let mut cale = Cale::new();
    assert_eq!(cale.create(candidate("a", 1, 2), AllowOverlap::No), Ok(1));
    assert_eq!(cale.create(candidate("b", 3, 4), AllowOverlap::No), Ok(2));
    assert_eq!(cale.delete(2), Ok(()));
    assert_eq!(cale.create(candidate("c", 3, 4), AllowOverlap::No), Ok(3));
    assert_eq!(cale.delete(1), Ok(()));
    assert_eq!(cale.delete(3), Ok(()));
    assert_eq!(cale.create(candidate("d", 3, 4), AllowOverlap::No), Ok(4));
}

#[test]
fn listing_returns_events_that_start_in_the_range() {
    let mut cale = Cale::new();
    cale.create(candidate("five", 5, 6), AllowOverlap::Yes).unwrap();
    cale.create(candidate("fifteen", 15, 16), AllowOverlap::Yes).unwrap();
    cale.create(candidate("twenty-five", 25, 26), AllowOverlap::Yes).unwrap();
    let found = cale.get_events(range(10, 20)).unwrap();
    assert_eq!(found.len(), 1);
    assert_eq!(found[0].id, 2);
    assert_eq!(found[0].title, "fifteen");
    assert_eq!(found[0].start_date, 15);
    assert_eq!(found[0].end_date, 16);
}

#[test]
fn listing_goes_by_start_and_includes_both_ends() {
    let mut cale = Cale::new();
    cale.create(candidate("a", 10, 500), AllowOverlap::Yes).unwrap();
    cale.create(candidate("b", 20, 21), AllowOverlap::Yes).unwrap();
    cale.create(candidate("c", 0, 15), AllowOverlap::Yes).unwrap();
    cale.create(candidate("d", 21, 22), AllowOverlap::Yes).unwrap();
    let found = cale.get_events(range(10, 20)).unwrap();
    assert_eq!(found.len(), 2);
    assert_eq!(found[0].id, 1);
    assert_eq!(found[1].id, 2);
    assert!(cale.get_events(range(22, 30)).unwrap().is_empty());
    assert!(cale.get_events(range(20, 10)).unwrap().is_empty());
    assert_eq!(cale.get_events(range(i64::MIN, i64::MAX)).unwrap().len(), 4);
}

#[test]
fn listing_an_empty_store_is_empty() {
    let cale = Cale::new();
    assert!(cale.get_events(range(0, 100)).unwrap().is_empty());
}

#[test]
fn created_event_is_shown_as_it_was_given() {
    let mut cale = Cale::new();
    let id = cale.create(candidate("T", 100, 200), AllowOverlap::Yes).unwrap();
    assert_eq!(id, 1);
    let shown = cale.show(id).unwrap();
    assert_eq!(shown.id, id);
    assert_eq!(shown.title, "T");
    assert_eq!(shown.start_date, 100);
    assert_eq!(shown.end_date, 200);
    let next = cale.create(candidate("T", 100, 200), AllowOverlap::Yes).unwrap();
    assert_ne!(next, id);
}

#[test]
fn show_in_empty_store_is_not_found() {
    let cale = Cale::new();
    assert!(matches!(cale.show(1), Err(Error::NotFound)));
    assert!(matches!(cale.show(0), Err(Error::NotFound)));
}

#[test]
fn update_with_allowed_overlap_overwrites_the_fields() {
    let mut cale = Cale::new();
    cale.create(candidate("a", 10, 20), AllowOverlap::No).unwrap();
    cale.create(candidate("b", 30, 40), AllowOverlap::No).unwrap();
    assert_eq!(cale.update(stored(2, "moved", 15, 25), AllowOverlap::Yes), Ok(()));
    let shown = cale.show(2).unwrap();
    assert_eq!(shown.id, 2);
    assert_eq!(shown.title, "moved");
    assert_eq!(shown.start_date, 15);
    assert_eq!(shown.end_date, 25);
    let other = cale.show(1).unwrap();
    assert_eq!((other.title.as_str(), other.start_date, other.end_date), ("a", 10, 20));
    assert_eq!(cale.len(), 2);
}

#[test]
fn update_without_overlap_conflicts_with_another_event() {
    let mut cale = Cale::new();
    cale.create(candidate("a", 10, 20), AllowOverlap::No).unwrap();
    cale.create(candidate("b", 30, 40), AllowOverlap::No).unwrap();
    assert_eq!(cale.update(stored(2, "b", 20, 25), AllowOverlap::No), Err(Error::Conflict));
    let kept = cale.show(2).unwrap();
    assert_eq!((kept.title.as_str(), kept.start_date, kept.end_date), ("b", 30, 40));
}

#[test]
fn update_without_overlap_conflicts_with_its_own_row() {
    let mut cale = Cale::new();
    cale.create(candidate("a", 10, 20), AllowOverlap::No).unwrap();
    assert_eq!(cale.update(stored(1, "a", 10, 20), AllowOverlap::No), Err(Error::Conflict));
    assert_eq!(cale.update(stored(1, "a", 15, 30), AllowOverlap::No), Err(Error::Conflict));
    let kept = cale.show(1).unwrap();
    assert_eq!((kept.start_date, kept.end_date), (10, 20));
}

#[test]
fn update_without_overlap_moves_an_event_to_a_free_range() {
    let mut cale = Cale::new();
    cale.create(candidate("a", 10, 20), AllowOverlap::No).unwrap();
    cale.create(candidate("b", 30, 40), AllowOverlap::No).unwrap();
    assert_eq!(cale.update(stored(1, "later", 50, 60), AllowOverlap::No), Ok(()));
    let shown = cale.show(1).unwrap();
    assert_eq!((shown.title.as_str(), shown.start_date, shown.end_date), ("later", 50, 60));
    assert!(!cale.is_overlaping(range(10, 20)));
    assert!(cale.is_overlaping(range(55, 55)));
    let listed = cale.get_events(range(0, 100)).unwrap();
    assert_eq!(listed[0].id, 1);
    assert_eq!(listed[1].id, 2);
}

#[test]
fn patch_overwrites_or_reports_not_found() {
    let mut cale = Cale::new();
    assert_eq!(cale.insert(candidate("a", 10, 20)), Ok(1));
    assert_eq!(cale.patch(stored(1, "b", 11, 21)), Ok(()));
    let shown = cale.show(1).unwrap();
    assert_eq!((shown.title.as_str(), shown.start_date, shown.end_date), ("b", 11, 21));
    assert_eq!(cale.patch(stored(2, "c", 0, 0)), Err(Error::NotFound));
    assert_eq!(cale.len(), 1);
}

#[test]
fn insert_does_not_look_at_overlap() {
    let mut cale = Cale::new();
    assert_eq!(cale.insert(candidate("a", 10, 20)), Ok(1));
    assert_eq!(cale.insert(candidate("b", 10, 20)), Ok(2));
    assert_eq!(cale.len(), 2);
}

#[test]
fn store_without_identifiers_left_fails_with_store_error() {
    let mut cale = Cale::starting_at(u32::MAX);
    assert_eq!(cale.create(candidate("last", 1, 2), AllowOverlap::No), Ok(u32::MAX));
    assert_eq!(cale.create(candidate("none", 5, 6), AllowOverlap::No), Err(Error::StoreError));
    assert_eq!(cale.create(candidate("none", 5, 6), AllowOverlap::Yes), Err(Error::StoreError));
    assert_eq!(cale.insert(candidate("none", 5, 6)), Err(Error::StoreError));
    assert_eq!(cale.len(), 1);
    assert_eq!(cale.create(candidate("clash", 1, 2), AllowOverlap::No), Err(Error::Conflict));
    assert_eq!(cale.show(u32::MAX).unwrap().title, "last");
}

#[test]
fn range_with_end_before_start_is_accepted() {
    let mut cale = Cale::new();
    assert_eq!(cale.create(candidate("backwards", 20, 10), AllowOverlap::No), Ok(1));
    assert!(!cale.is_overlaping(range(12, 18)));
    assert!(cale.is_overlaping(range(5, 25)));
}

#[test]
fn new_event_from_event_drops_the_identifier() {
    let fields = NewEvent::from(stored(7, "kept", 3, 4));
    assert_eq!(fields.title, "kept");
    assert_eq!(fields.start_date, 3);
    assert_eq!(fields.end_date, 4);
}

#[test]
fn event_clone_and_range() {
    let event = stored(7, "kept", 3, 4);
    let copy = event.clone();
    assert_eq!((copy.id, copy.title.as_str(), copy.start_date, copy.end_date), (7, "kept", 3, 4));
    assert_eq!(event.range(), range(3, 4));
    let fields = candidate("kept", 3, 4);
    assert_eq!(fields.clone().title, "kept");
    assert_eq!(fields.range(), range(3, 4));
}
