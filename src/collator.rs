use vstd::prelude::*;

use crate::domain_types::{Event, EventsView, NullableEvent, TrackerError, TrackerEvents};

verus! {

/// A joined row that carries a whole event: the tracker, a start and a value
/// (an absent end marks an interval that is still open).
pub open spec fn is_valid_event(r: NullableEvent) -> bool {
    r.tracker_id is Some && r.start_time is Some && r.new_value is Some
}

/// The row that the outer join yields for a tracker without events: every
/// event column is null.
pub open spec fn is_placeholder(r: NullableEvent) -> bool {
    r.tracker_id is None && r.start_time is None && r.end_time is None && r.new_value is None
}

/// A row that is neither a whole event nor the placeholder.
pub open spec fn is_inconsistent(r: NullableEvent) -> bool {
    !is_valid_event(r) && !is_placeholder(r)
}

/// The event that a valid row carries.
pub open spec fn event_of(r: NullableEvent) -> Event {
    Event { start_time: r.start_time.unwrap(), end_time: r.end_time, new_value: r.new_value.unwrap() }
}

pub open spec fn has_inconsistent_row(rows: Seq<NullableEvent>) -> bool {
    exists|i: int| 0 <= i < rows.len() && is_inconsistent(#[trigger] rows[i])
}

/// The events of the valid rows, in row order; other rows contribute none.
pub open spec fn valid_events(rows: Seq<NullableEvent>) -> Seq<Event>
    decreases rows.len(),
{
    if rows.len() == 0 {
        Seq::empty()
    } else {
        let rest = valid_events(rows.drop_last());
        if is_valid_event(rows.last()) {
            rest.push(event_of(rows.last()))
        } else {
            rest
        }
    }
}

/// Where every row is valid, the valid rows' events are all the rows' events.
pub proof fn lemma_valid_events_all_valid(rows: Seq<NullableEvent>)
    requires
        forall|i: int| 0 <= i < rows.len() ==> is_valid_event(#[trigger] rows[i]),
    ensures
        valid_events(rows) == rows.map_values(|r: NullableEvent| event_of(r)),
    decreases rows.len(),
{
    if rows.len() > 0 {
        let front = rows.drop_last();
        assert forall|i: int| 0 <= i < front.len() implies is_valid_event(#[trigger] front[i]) by {
            assert(front[i] == rows[i]);
        }
        lemma_valid_events_all_valid(front);
        assert(rows.last() == rows[rows.len() - 1]);
        assert(rows.map_values(|r: NullableEvent| event_of(r)) =~= front.map_values(
            |r: NullableEvent| event_of(r),
        ).push(event_of(rows.last())));
    }
}

/// The answer that the joined rows of one tracker give, or `None` where the
/// rows break the store's rules. Any inconsistent row breaks them. Without
/// one: no rows, the tracker is absent; at least one valid row, the valid
/// rows' events (placeholders contribute none); otherwise every row is a
/// placeholder, and one alone means the tracker has no events, while more
/// than one breaks the rules.
pub open spec fn collated(rows: Seq<NullableEvent>) -> Option<EventsView> {
    if has_inconsistent_row(rows) {
        None
    } else if rows.len() == 0 {
        Some(EventsView::Absent)
    } else if valid_events(rows).len() > 0 {
        Some(EventsView::Populated(valid_events(rows)))
    } else if rows.len() == 1 {
        Some(EventsView::Empty)
    } else {
        None
    }
}

/// Classifies one joined row.
pub fn classify_row(r: &NullableEvent) -> (c: RowClass)
    ensures
        c == RowClass::Valid <==> is_valid_event(*r),
        c == RowClass::Placeholder <==> is_placeholder(*r),
        c == RowClass::Inconsistent <==> is_inconsistent(*r),
{
    if r.tracker_id.is_some() && r.start_time.is_some() && r.new_value.is_some() {
        RowClass::Valid
    } else if r.tracker_id.is_none() && r.start_time.is_none() && r.end_time.is_none()
        && r.new_value.is_none() {
        RowClass::Placeholder
    } else {
        RowClass::Inconsistent
    }
}

/// The three kinds of joined row.
#[derive(PartialEq, Eq, Structural, Clone, Copy, Debug)]
pub enum RowClass {
    Valid,
    Placeholder,
    Inconsistent,
}

/// Turns the rows of the outer join of one tracker with its events into the
/// three-way answer: no rows, the tracker is absent; the placeholder alone,
/// it has no events; at least one whole event, those events in row order,
/// with any placeholder contributing none. A row that is neither a whole
/// event nor the placeholder, or more than one placeholder with no event,
/// is a `SchemaInconsistency`.
pub fn collate_rows(rows: &Vec<NullableEvent>) -> (r: Result<TrackerEvents, TrackerError>)
    ensures
        r is Ok <==> collated(rows@) is Some,
        r is Ok ==> collated(rows@) == Some(r->Ok_0@),
        r is Err ==> r->Err_0 == TrackerError::SchemaInconsistency,
{
    let mut events: Vec<Event> = Vec::new();
    let mut i: usize = 0;
    while i < rows.len()
        invariant
            i <= rows.len(),
            forall|j: int| 0 <= j < i ==> !is_inconsistent(#[trigger] rows@[j]),
            events@ == valid_events(rows@.take(i as int)),
        decreases rows.len() - i,
    {
        let row = &rows[i];
        proof {
            let t = rows@.take(i + 1);
            assert(t.drop_last() =~= rows@.take(i as int));
            assert(t.last() == rows@[i as int]);
        }
        match classify_row(row) {
            RowClass::Valid => {
                let ev = Event {
                    start_time: row.start_time.unwrap(),
                    end_time: row.end_time,
                    new_value: row.new_value.unwrap(),
                };
                events.push(ev);
            },
            RowClass::Placeholder => {},
            RowClass::Inconsistent => {
                assert(is_inconsistent(rows@[i as int]));
                return Err(TrackerError::SchemaInconsistency);
            },
        }
        i = i + 1;
    }
    proof {
        assert(rows@.take(rows@.len() as int) =~= rows@);
    }
    if rows.len() == 0 {
        Ok(TrackerEvents::Absent)
    } else if events.len() > 0 {
        Ok(TrackerEvents::Populated(events))
    } else if rows.len() == 1 {
        Ok(TrackerEvents::Empty)
    } else {
        Err(TrackerError::SchemaInconsistency)
    }
}

} // verus!
