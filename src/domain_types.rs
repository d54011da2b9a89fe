use vstd::prelude::*;

verus! {

/// A tracker's identifier: the 128 bits of its UUID.
pub type TrackerId = u128;

/// A point in time: microseconds since 1970-01-01 00:00:00, with no time zone.
pub type Timestamp = i64;

/// A named counter.
pub struct Tracker {
    pub id: TrackerId,
    pub human_name: String,
    pub description: Option<String>,
}

/// The mathematical value of a tracker.
pub ghost struct TrackerView {
    pub id: TrackerId,
    pub human_name: Seq<char>,
    pub description: Option<Seq<char>>,
}

pub open spec fn opt_string_view(s: Option<String>) -> Option<Seq<char>> {
    match s {
        Some(t) => Some(t@),
        None => None,
    }
}

impl View for Tracker {
    type V = TrackerView;

    open spec fn view(&self) -> TrackerView {
        TrackerView {
            id: self.id,
            human_name: self.human_name@,
            description: opt_string_view(self.description),
        }
    }
}

/// A copy of an optional string, character for character.
pub fn copy_opt_string(s: &Option<String>) -> (r: Option<String>)
    ensures
        opt_string_view(r) == opt_string_view(*s),
{
    match s {
        Some(t) => Some(t.clone()),
        None => None,
    }
}

impl Tracker {
    /// A copy of this tracker.
    pub fn duplicate(&self) -> (r: Tracker)
        ensures
            r@ == self@,
    {
        Tracker {
            id: self.id,
            human_name: self.human_name.clone(),
            description: copy_opt_string(&self.description),
        }
    }
}

/// One interval that changed a tracker's value, as handed to callers.
#[derive(PartialEq, Eq, Structural, Clone, Copy, Debug)]
pub struct Event {
    pub start_time: Timestamp,
    /// `None` while the interval is still open.
    pub end_time: Option<Timestamp>,
    pub new_value: i64,
}

/// One persisted row of the events table.
#[derive(PartialEq, Eq, Structural, Clone, Copy, Debug)]
pub struct EventRow {
    pub tracker_id: TrackerId,
    pub start_time: Timestamp,
    pub end_time: Option<Timestamp>,
    pub new_value: i64,
}

/// One row of the outer join of a tracker with its events: every event
/// column may be null.
#[derive(PartialEq, Eq, Structural, Clone, Copy, Debug)]
pub struct NullableEvent {
    pub tracker_id: Option<TrackerId>,
    pub start_time: Option<Timestamp>,
    pub end_time: Option<Timestamp>,
    pub new_value: Option<i64>,
}

/// What is known of one tracker's events.
pub enum TrackerEvents {
    /// No tracker has the identifier.
    Absent,
    /// The tracker exists and has no events.
    Empty,
    /// The tracker exists and has these events (at least one).
    Populated(Vec<Event>),
}

/// The mathematical value of a [`TrackerEvents`].
pub ghost enum EventsView {
    Absent,
    Empty,
    Populated(Seq<Event>),
}

impl View for TrackerEvents {
    type V = EventsView;

    open spec fn view(&self) -> EventsView {
        match self {
            TrackerEvents::Absent => EventsView::Absent,
            TrackerEvents::Empty => EventsView::Empty,
            TrackerEvents::Populated(v) => EventsView::Populated(v@),
        }
    }
}

impl TrackerEvents {
    /// The HTTP status that the web layer answers with: not found for an
    /// absent tracker, success otherwise.
    pub fn http_status(&self) -> (r: u16)
        ensures
            self@ == EventsView::Absent ==> r == 404,
            self@ != EventsView::Absent ==> r == 200,
    {
        match self {
            TrackerEvents::Absent => 404,
            _ => 200,
        }
    }
}

/// What is known of one tracker's description: the tracker may be missing,
/// and a tracker that is there may have no description.
pub enum DescriptionLookup {
    NotFound,
    Found(Option<String>),
}

/// The mathematical value of a [`DescriptionLookup`].
pub ghost enum DescriptionView {
    NotFound,
    Found(Option<Seq<char>>),
}

impl View for DescriptionLookup {
    type V = DescriptionView;

    open spec fn view(&self) -> DescriptionView {
        match self {
            DescriptionLookup::NotFound => DescriptionView::NotFound,
            DescriptionLookup::Found(d) => DescriptionView::Found(opt_string_view(*d)),
        }
    }
}

/// Why an operation on trackers failed.
#[derive(PartialEq, Eq, Structural, Clone, Copy, Debug)]
pub enum TrackerError {
    /// A tracker with the requested `human_name` already exists.
    UniquenessViolation,
    /// The store refused or failed for another reason.
    StorageError,
    /// The joined rows break the store's not-null and foreign-key rules.
    SchemaInconsistency,
}

impl TrackerError {
    /// The error for a failed write to the store: `UniquenessViolation` where
    /// the store reported a unique-constraint violation, `StorageError`
    /// otherwise.
    pub fn from_store_failure(is_unique_violation: bool) -> (r: TrackerError)
        ensures
            is_unique_violation ==> r == TrackerError::UniquenessViolation,
            !is_unique_violation ==> r == TrackerError::StorageError,
    {
        if is_unique_violation {
            TrackerError::UniquenessViolation
        } else {
            TrackerError::StorageError
        }
    }

    /// The HTTP status that the web layer answers with for this error.
    pub fn http_status(&self) -> (r: u16)
        ensures
            *self == TrackerError::UniquenessViolation ==> r == 422,
            *self != TrackerError::UniquenessViolation ==> r == 500,
    {
        match self {
            TrackerError::UniquenessViolation => 422,
            TrackerError::StorageError => 500,
            TrackerError::SchemaInconsistency => 500,
        }
    }
}

} // verus!
