use vstd::prelude::*;

use crate::domain_types::{DescriptionView, EventRow, EventsView, TrackerId, TrackerView};
use crate::store::{
    StoreView, description_of, event_of_row, events_of, has_tracker, name_taken, rows_for,
    store_wf,
};

verus! {

/// A tracker's rows are empty where no event row names it.
pub proof fn lemma_rows_for_none(events: Seq<EventRow>, id: TrackerId)
    requires
        forall|k: int| 0 <= k < events.len() ==> (#[trigger] events[k]).tracker_id != id,
    ensures
        rows_for(events, id).len() == 0,
    decreases events.len(),
{
    if events.len() > 0 {
        let rest = events.drop_last();
        assert forall|k: int| 0 <= k < rest.len() implies (#[trigger] rest[k]).tracker_id != id by {
            assert(rest[k] == events[k]);
        }
        lemma_rows_for_none(rest, id);
        assert(events.last() == events[events.len() - 1]);
    }
}

/// A tracker's rows among appended rows are the rows before plus the rows
/// appended, where every appended row names it.
pub proof fn lemma_rows_for_append(events: Seq<EventRow>, added: Seq<EventRow>, id: TrackerId)
    requires
        forall|k: int| 0 <= k < added.len() ==> (#[trigger] added[k]).tracker_id == id,
    ensures
        rows_for(events + added, id) == rows_for(events, id) + added,
    decreases added.len(),
{
    if added.len() == 0 {
        assert(events + added =~= events);
        assert(rows_for(events, id) + added =~= rows_for(events, id));
    } else {
        let front = added.drop_last();
        assert forall|k: int| 0 <= k < front.len() implies (#[trigger] front[k]).tracker_id
            == id by {
            assert(front[k] == added[k]);
        }
        lemma_rows_for_append(events, front, id);
        let all = events + added;
        assert(all.drop_last() =~= events + front);
        assert(all.last() == added.last());
        assert(added.last() == added[added.len() - 1]);
        assert(rows_for(events, id) + added =~= (rows_for(events, id) + front).push(added.last()));
    }
}

/// An identifier that no tracker has: its events are `Absent` and its
/// description is `NotFound`.
pub proof fn lemma_unknown_tracker(s: StoreView, id: TrackerId)
    requires
        !has_tracker(s, id),
    ensures
        events_of(s, id) == EventsView::Absent,
        description_of(s, id) == DescriptionView::NotFound,
{
}

/// A tracker that no event row names: its events are `Empty`.
pub proof fn lemma_tracker_without_events(s: StoreView, id: TrackerId)
    requires
        has_tracker(s, id),
        forall|k: int| 0 <= k < s.events.len() ==> (#[trigger] s.events[k]).tracker_id != id,
    ensures
        events_of(s, id) == EventsView::Empty,
{
    lemma_rows_for_none(s.events, id);
}

/// Appending N >= 1 events to a tracker that had none: its events are
/// `Populated` with exactly those N, each with the start, end (absent for an
/// open interval) and value that it was inserted with, in insertion order.
pub proof fn lemma_inserted_events(s: StoreView, id: TrackerId, added: Seq<EventRow>)
    requires
        has_tracker(s, id),
        forall|k: int| 0 <= k < s.events.len() ==> (#[trigger] s.events[k]).tracker_id != id,
        added.len() >= 1,
        forall|k: int| 0 <= k < added.len() ==> (#[trigger] added[k]).tracker_id == id,
    ensures
        ({
            let s2 = StoreView { trackers: s.trackers, events: s.events + added };
            &&& events_of(s2, id) is Populated
            &&& events_of(s2, id)->Populated_0.len() == added.len()
            &&& forall|k: int|
                0 <= k < added.len() ==> {
                    let e = #[trigger] events_of(s2, id)->Populated_0[k];
                    &&& e.start_time == added[k].start_time
                    &&& e.end_time == added[k].end_time
                    &&& e.new_value == added[k].new_value
                }
        }),
{
    let s2 = StoreView { trackers: s.trackers, events: s.events + added };
    lemma_rows_for_none(s.events, id);
    lemma_rows_for_append(s.events, added, id);
    assert(rows_for(s.events, id) + added =~= added);
    assert(has_tracker(s2, id));
    let evs = added.map_values(|e: EventRow| event_of_row(e));
    assert(events_of(s2, id) == EventsView::Populated(evs));
}

/// A tracker just added under a name that was free and an identifier that
/// was free: it is the one tracker with that name, it is found under its
/// identifier, and its events are `Empty`.
pub proof fn lemma_created_tracker(s: StoreView, t: TrackerView)
    requires
        store_wf(s),
        !name_taken(s, t.human_name),
        !has_tracker(s, t.id),
    ensures
        ({
            let s2 = StoreView { trackers: s.trackers.push(t), events: s.events };
            &&& store_wf(s2)
            &&& forall|i: int|
                0 <= i < s2.trackers.len() && (#[trigger] s2.trackers[i]).human_name
                    == t.human_name ==> i == s.trackers.len()
            &&& has_tracker(s2, t.id)
            &&& events_of(s2, t.id) == EventsView::Empty
        }),
{
    let s2 = StoreView { trackers: s.trackers.push(t), events: s.events };
    assert(s2.trackers[s.trackers.len() as int] == t);
    assert forall|i: int|
        0 <= i < s2.trackers.len() && (#[trigger] s2.trackers[i]).human_name
            == t.human_name implies i == s.trackers.len() by {
        if i < s.trackers.len() {
            assert(s2.trackers[i] == s.trackers[i]);
        }
    }
    assert forall|k: int| 0 <= k < s.events.len() implies (#[trigger] s.events[k]).tracker_id
        != t.id by {
        assert(has_tracker(s, s.events[k].tracker_id));
    }
    lemma_rows_for_none(s.events, t.id);
    assert forall|k: int| 0 <= k < s2.events.len() implies has_tracker(
        s2,
        (#[trigger] s2.events[k]).tracker_id,
    ) by {
        let i = choose|i: int|
            0 <= i < s.trackers.len() && (#[trigger] s.trackers[i]).id == s.events[k].tracker_id;
        assert(s2.trackers[i] == s.trackers[i]);
    }
    assert forall|i: int, j: int|
        0 <= i < s2.trackers.len() && 0 <= j < s2.trackers.len() && i != j implies (
        #[trigger] s2.trackers[i]).id != (#[trigger] s2.trackers[j]).id
        && s2.trackers[i].human_name != s2.trackers[j].human_name by {
        if i < s.trackers.len() {
            assert(s2.trackers[i] == s.trackers[i]);
        }
        if j < s.trackers.len() {
            assert(s2.trackers[j] == s.trackers[j]);
        }
    }
}

} // verus!
