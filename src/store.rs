use vstd::prelude::*;

use crate::collator::{
    collate_rows, collated, event_of, is_placeholder, is_valid_event, lemma_valid_events_all_valid,
    valid_events,
};
use crate::domain_types::{
    DescriptionLookup, DescriptionView, Event, EventRow, EventsView, NullableEvent, Tracker,
    TrackerError, TrackerEvents, TrackerId, TrackerView, copy_opt_string,
};

verus! {

/// A store of trackers and their events: a trackers table whose `id` and
/// `human_name` columns are unique, and an events table whose `tracker_id`
/// column refers to the trackers table.
pub struct TrackerStore {
    trackers: Vec<Tracker>,
    events: Vec<EventRow>,
}

/// The mathematical value of a store: the rows of its two tables.
pub ghost struct StoreView {
    pub trackers: Seq<TrackerView>,
    pub events: Seq<EventRow>,
}

impl View for TrackerStore {
    type V = StoreView;

    closed spec fn view(&self) -> StoreView {
        StoreView {
            trackers: self.trackers@.map_values(|t: Tracker| t@),
            events: self.events@,
        }
    }
}

pub open spec fn has_tracker(s: StoreView, id: TrackerId) -> bool {
    exists|i: int| 0 <= i < s.trackers.len() && (#[trigger] s.trackers[i]).id == id
}

pub open spec fn name_taken(s: StoreView, name: Seq<char>) -> bool {
    exists|i: int| 0 <= i < s.trackers.len() && (#[trigger] s.trackers[i]).human_name == name
}

/// The store's constraints: unique identifiers, unique names, and every
/// event row refers to a tracker.
pub open spec fn store_wf(s: StoreView) -> bool {
    &&& forall|i: int, j: int|
        0 <= i < s.trackers.len() && 0 <= j < s.trackers.len() && i != j ==> (
        #[trigger] s.trackers[i]).id != (#[trigger] s.trackers[j]).id
    &&& forall|i: int, j: int|
        0 <= i < s.trackers.len() && 0 <= j < s.trackers.len() && i != j ==> (
        #[trigger] s.trackers[i]).human_name != (#[trigger] s.trackers[j]).human_name
    &&& forall|k: int| 0 <= k < s.events.len() ==> has_tracker(s, (#[trigger] s.events[k]).tracker_id)
}

/// The event rows of one tracker, in table order.
pub open spec fn rows_for(events: Seq<EventRow>, id: TrackerId) -> Seq<EventRow>
    decreases events.len(),
{
    if events.len() == 0 {
        Seq::empty()
    } else {
        let rest = rows_for(events.drop_last(), id);
        if events.last().tracker_id == id {
            rest.push(events.last())
        } else {
            rest
        }
    }
}

/// An event row as a row of the outer join.
pub open spec fn nullable_of(e: EventRow) -> NullableEvent {
    NullableEvent {
        tracker_id: Some(e.tracker_id),
        start_time: Some(e.start_time),
        end_time: e.end_time,
        new_value: Some(e.new_value),
    }
}

/// An event row as handed to callers.
pub open spec fn event_of_row(e: EventRow) -> Event {
    Event { start_time: e.start_time, end_time: e.end_time, new_value: e.new_value }
}

pub open spec fn placeholder_row() -> NullableEvent {
    NullableEvent { tracker_id: None, start_time: None, end_time: None, new_value: None }
}

/// The rows of `trackers LEFT OUTER JOIN events ON events.tracker_id =
/// trackers.id WHERE trackers.id = id`.
pub open spec fn joined(s: StoreView, id: TrackerId) -> Seq<NullableEvent> {
    if !has_tracker(s, id) {
        Seq::empty()
    } else if rows_for(s.events, id).len() == 0 {
        seq![placeholder_row()]
    } else {
        rows_for(s.events, id).map_values(|e: EventRow| nullable_of(e))
    }
}

/// What is known of one tracker's events in a store.
pub open spec fn events_of(s: StoreView, id: TrackerId) -> EventsView {
    if !has_tracker(s, id) {
        EventsView::Absent
    } else if rows_for(s.events, id).len() == 0 {
        EventsView::Empty
    } else {
        EventsView::Populated(rows_for(s.events, id).map_values(|e: EventRow| event_of_row(e)))
    }
}

/// What is known of one tracker's description in a store.
pub open spec fn description_of(s: StoreView, id: TrackerId) -> DescriptionView {
    if has_tracker(s, id) {
        let i = choose|i: int| 0 <= i < s.trackers.len() && (#[trigger] s.trackers[i]).id == id;
        DescriptionView::Found(s.trackers[i].description)
    } else {
        DescriptionView::NotFound
    }
}

/// Whether an identifier is a version 4 UUID of the RFC 4122 variant: its
/// version bits (79 to 76) hold 4 and its variant bits (63 and 62) hold 2.
pub open spec fn is_random_uuid(id: TrackerId) -> bool {
    (id >> 76u128) & 0xfu128 == 4 && (id >> 62u128) & 0x3u128 == 2
}

/// Some tracker of the store has an identifier of the kind that
/// `create_tracker` draws.
pub open spec fn holds_random_uuid(s: StoreView) -> bool {
    exists|i: int| 0 <= i < s.trackers.len() && is_random_uuid((#[trigger] s.trackers[i]).id)
}

/// Relies on uuid::Uuid::new_v4 and Uuid::as_u128: a random version 4 UUID,
/// as its 128 bits.
#[verifier::external_body]
fn new_tracker_id() -> (r: TrackerId)
    ensures
        is_random_uuid(r),
{
    uuid::Uuid::new_v4().as_u128()
}

impl TrackerStore {
    pub open spec fn wf(&self) -> bool {
        store_wf(self@)
    }

    /// A store with no trackers and no events.
    pub fn new() -> (r: TrackerStore)
        ensures
            r.wf(),
            r@.trackers.len() == 0,
            r@.events.len() == 0,
    {
        let r = TrackerStore { trackers: Vec::new(), events: Vec::new() };
        proof {
            assert(r@.trackers =~= Seq::<TrackerView>::empty());
        }
        r
    }

    /// The position of the tracker with identifier `id`, if there is one.
    fn find_tracker(&self, id: TrackerId) -> (r: Option<usize>)
        ensures
            r is None <==> !has_tracker(self@, id),
            r is Some ==> r->Some_0 < self@.trackers.len() && self@.trackers[r->Some_0 as int].id
                == id,
    {
        let mut i: usize = 0;
        while i < self.trackers.len()
            invariant
                i <= self.trackers.len(),
                self@.trackers.len() == self.trackers@.len(),
                forall|j: int| 0 <= j < i ==> (#[trigger] self@.trackers[j]).id != id,
            decreases self.trackers.len() - i,
        {
            if self.trackers[i].id == id {
                return Some(i);
            }
            i = i + 1;
        }
        None
    }

    /// Whether some tracker is named `name`.
    fn name_in_use(&self, name: &String) -> (r: bool)
        ensures
            r == name_taken(self@, name@),
    {
        let mut i: usize = 0;
        while i < self.trackers.len()
            invariant
                i <= self.trackers.len(),
                self@.trackers.len() == self.trackers@.len(),
                forall|j: int| 0 <= j < i ==> (#[trigger] self@.trackers[j]).human_name != name@,
            decreases self.trackers.len() - i,
        {
            if self.trackers[i].human_name == *name {
                assert(self@.trackers[i as int].human_name == name@);
                return true;
            }
            i = i + 1;
        }
        false
    }
}


/// Inserts a tracker with identifier `id`, name `human_name` and no
/// description. Fails with `UniquenessViolation` where the name is taken and,
/// where it is not, with `StorageError` where the identifier is taken; a
/// failure leaves the store as it was.
pub fn insert_tracker(store: &mut TrackerStore, id: TrackerId, human_name: String) -> (r: Result<
    Tracker,
    TrackerError,
>)
    requires
        old(store).wf(),
    ensures
        final(store).wf(),
        name_taken(old(store)@, human_name@) ==> r == Err::<Tracker, TrackerError>(
            TrackerError::UniquenessViolation,
        ),
        !name_taken(old(store)@, human_name@) && has_tracker(old(store)@, id) ==> r == Err::<
            Tracker,
            TrackerError,
        >(TrackerError::StorageError),
        r is Err ==> final(store)@ == old(store)@,
        r is Ok <==> !name_taken(old(store)@, human_name@) && !has_tracker(old(store)@, id),
        r is Ok ==> r->Ok_0@ == (TrackerView { id, human_name: human_name@, description: None })
            && final(store)@.trackers == old(store)@.trackers.push(r->Ok_0@) && final(store)@.events
            == old(store)@.events,
{
    if store.name_in_use(&human_name) {
        return Err(TrackerError::UniquenessViolation);
    }
    if store.find_tracker(id).is_some() {
        return Err(TrackerError::StorageError);
    }
    let result = Tracker { id, human_name: human_name.clone(), description: None };
    let row = Tracker { id, human_name, description: None };
    let ghost before = store@;
    store.trackers.push(row);
    proof {
        assert(store@.trackers =~= before.trackers.push(result@));
        assert forall|k: int| 0 <= k < store@.events.len() implies has_tracker(
            store@,
            (#[trigger] store@.events[k]).tracker_id,
        ) by {
            let i = choose|i: int|
                0 <= i < before.trackers.len() && (#[trigger] before.trackers[i]).id
                    == before.events[k].tracker_id;
            assert(store@.trackers[i] == before.trackers[i]);
        }
    }
    Ok(result)
}

/// Creates a tracker named `human_name`, with no description and a freshly
/// drawn version 4 UUID as its identifier. Fails with `UniquenessViolation`
/// exactly where the name is taken, and otherwise only with `StorageError`,
/// which comes only where the drawn identifier is already taken. So where
/// the name is free and no tracker holds a version 4 UUID (an empty store,
/// say), it succeeds. A failure leaves the store as it was.
pub fn create_tracker(store: &mut TrackerStore, human_name: String) -> (r: Result<
    Tracker,
    TrackerError,
>)
    requires
        old(store).wf(),
    ensures
        final(store).wf(),
        name_taken(old(store)@, human_name@) <==> r == Err::<Tracker, TrackerError>(
            TrackerError::UniquenessViolation,
        ),
        r is Err ==> final(store)@ == old(store)@,
        r is Err ==> r == Err::<Tracker, TrackerError>(TrackerError::UniquenessViolation) || r
            == Err::<Tracker, TrackerError>(TrackerError::StorageError),
        r == Err::<Tracker, TrackerError>(TrackerError::StorageError) ==> holds_random_uuid(
            old(store)@,
        ),
        !name_taken(old(store)@, human_name@) && !holds_random_uuid(old(store)@) ==> r is Ok,
        r is Ok ==> is_random_uuid(r->Ok_0.id),
        r is Ok ==> !has_tracker(old(store)@, r->Ok_0.id) && r->Ok_0@.human_name == human_name@
            && r->Ok_0@.description is None && final(store)@.trackers == old(store)@.trackers.push(
            r->Ok_0@,
        ) && final(store)@.events == old(store)@.events,
{
    let id = new_tracker_id();
    insert_tracker(store, id, human_name)
}

/// Inserts an event row. Fails with `StorageError`, leaving the store as it
/// was, exactly where no tracker has the row's `tracker_id`.
pub fn insert_event(store: &mut TrackerStore, row: EventRow) -> (r: Result<(), TrackerError>)
    requires
        old(store).wf(),
    ensures
        final(store).wf(),
        r is Ok <==> has_tracker(old(store)@, row.tracker_id),
        r is Ok ==> final(store)@.trackers == old(store)@.trackers && final(store)@.events == old(
            store,
        )@.events.push(row),
        r is Err ==> r == Err::<(), TrackerError>(TrackerError::StorageError) && final(store)@ == old(
            store,
        )@,
{
    if store.find_tracker(row.tracker_id).is_none() {
        return Err(TrackerError::StorageError);
    }
    let ghost before = store@;
    store.events.push(row);
    proof {
        assert(store@.trackers == before.trackers);
        assert(store@.events =~= before.events.push(row));
        assert forall|k: int| 0 <= k < store@.events.len() implies has_tracker(
            store@,
            (#[trigger] store@.events[k]).tracker_id,
        ) by {
            if k < before.events.len() {
                assert(store@.events[k] == before.events[k]);
            }
        }
    }
    Ok(())
}

/// The rows of the outer join of the tracker `id` with its events.
pub fn join_rows(store: &TrackerStore, id: TrackerId) -> (r: Vec<NullableEvent>)
    ensures
        r@ == joined(store@, id),
{
    if store.find_tracker(id).is_none() {
        return Vec::new();
    }
    let mut out: Vec<NullableEvent> = Vec::new();
    let mut i: usize = 0;
    while i < store.events.len()
        invariant
            i <= store.events.len(),
            store@.events == store.events@,
            out@ =~= rows_for(store@.events.take(i as int), id).map_values(
                |e: EventRow| nullable_of(e),
            ),
        decreases store.events.len() - i,
    {
        let e = store.events[i];
        proof {
            let t = store@.events.take(i + 1);
            assert(t.drop_last() =~= store@.events.take(i as int));
            assert(t.last() == e);
        }
        if e.tracker_id == id {
            out.push(
                NullableEvent {
                    tracker_id: Some(e.tracker_id),
                    start_time: Some(e.start_time),
                    end_time: e.end_time,
                    new_value: Some(e.new_value),
                },
            );
        }
        i = i + 1;
    }
    proof {
        assert(store@.events.take(store@.events.len() as int) =~= store@.events);
    }
    if out.len() == 0 {
        let placeholder = NullableEvent {
            tracker_id: None,
            start_time: None,
            end_time: None,
            new_value: None,
        };
        let r = vec![placeholder];
        proof {
            assert(r@ =~= seq![placeholder_row()]);
        }
        r
    } else {
        out
    }
}

/// The joined rows of a store collate to the tracker's events.
proof fn lemma_joined_collates(s: StoreView, id: TrackerId)
    ensures
        collated(joined(s, id)) == Some(events_of(s, id)),
{
    let rows = joined(s, id);
    if has_tracker(s, id) {
        if rows_for(s.events, id).len() == 0 {
            assert(is_placeholder(rows[0]));
            assert(rows.len() == 1);
            assert(rows.last() == rows[0]);
            assert(!is_valid_event(rows.last()));
            assert(rows.drop_last().len() == 0);
            assert(valid_events(rows.drop_last()).len() == 0);
            assert(valid_events(rows).len() == 0);
        } else {
            let evs = rows_for(s.events, id);
            assert forall|i: int| 0 <= i < rows.len() implies is_valid_event(#[trigger] rows[i])
                && !is_placeholder(rows[i]) by {
                assert(rows[i] == nullable_of(evs[i]));
            }
            lemma_valid_events_all_valid(rows);
            assert(rows.map_values(|r: NullableEvent| event_of(r)) =~= evs.map_values(
                |e: EventRow| event_of_row(e),
            ));
        }
    }
}

/// The events of the tracker `id`: `Absent` where no tracker has that
/// identifier, `Empty` where it has no events, and otherwise `Populated` with
/// its events in the order in which they were inserted.
pub fn tracker_events(store: &TrackerStore, id: TrackerId) -> (r: TrackerEvents)
    requires
        store.wf(),
    ensures
        r@ == events_of(store@, id),
{
    let rows = join_rows(store, id);
    proof {
        lemma_joined_collates(store@, id);
    }
    match collate_rows(&rows) {
        Ok(r) => r,
        Err(_) => {
            proof {
                assert(false);
            }
            TrackerEvents::Absent
        },
    }
}

/// Every tracker of the store, in the order in which they were created.
pub fn all_trackers(store: &TrackerStore) -> (r: Vec<Tracker>)
    ensures
        r@.map_values(|t: Tracker| t@) == store@.trackers,
{
    let mut out: Vec<Tracker> = Vec::new();
    let mut i: usize = 0;
    while i < store.trackers.len()
        invariant
            i <= store.trackers.len(),
            store@.trackers == store.trackers@.map_values(|t: Tracker| t@),
            out@.map_values(|t: Tracker| t@) =~= store@.trackers.take(i as int),
        decreases store.trackers.len() - i,
    {
        let t = store.trackers[i].duplicate();
        let ghost before = out@;
        out.push(t);
        proof {
            assert(out@ =~= before.push(t));
            assert(out@.map_values(|t: Tracker| t@) =~= before.map_values(|t: Tracker| t@).push(
                t@,
            ));
            assert(store@.trackers.take(i + 1) =~= store@.trackers.take(i as int).push(
                store@.trackers[i as int],
            ));
        }
        i = i + 1;
    }
    proof {
        assert(store@.trackers.take(store@.trackers.len() as int) =~= store@.trackers);
    }
    out
}

/// The description of the tracker `id`: `NotFound` where no tracker has
/// that identifier, and otherwise the description, which may be absent.
pub fn tracker_description(store: &TrackerStore, id: TrackerId) -> (r: DescriptionLookup)
    requires
        store.wf(),
    ensures
        r@ == description_of(store@, id),
{
    match store.find_tracker(id) {
        None => DescriptionLookup::NotFound,
        Some(i) => {
            proof {
                let j = choose|j: int|
                    0 <= j < store@.trackers.len() && (#[trigger] store@.trackers[j]).id == id;
                assert(j == i as int);
            }
            DescriptionLookup::Found(copy_opt_string(&store.trackers[i].description))
        },
    }
}

} // verus!
