use trackers::collator::{collate_rows, RowClass, classify_row};
use trackers::domain_types::{
    DescriptionLookup, Event, EventRow, NullableEvent, TrackerError, TrackerEvents,
};
use trackers::store::{
    all_trackers, create_tracker, insert_event, insert_tracker, join_rows, tracker_description,
    tracker_events, TrackerStore,
};

const HOUR: i64 = 3_600_000_000;
const MINUTE: i64 = 60_000_000;
// 2024-01-01 00:00:00 in microseconds since the epoch.
const DAY: i64 = 1_704_067_200_000_000;

fn event_row(tracker_id: u128, start: i64, end: Option<i64>, value: i64) -> EventRow {
    EventRow { tracker_id, start_time: start, end_time: end, new_value: value }
}

fn populated(r: TrackerEvents) -> Vec<Event> {
    match r {
        TrackerEvents::Populated(v) => v,
        TrackerEvents::Empty => panic!("expected events, got Empty"),
        TrackerEvents::Absent => panic!("expected events, got Absent"),
    }
}

#[test]
fn unknown_id_is_absent_and_not_found() {
    let mut store = TrackerStore::new();
    assert!(matches!(tracker_events(&store, 42), TrackerEvents::Absent));
    assert!(matches!(tracker_description(&store, 42), DescriptionLookup::NotFound));
    let t = create_tracker(&mut store, "Coffee".to_string()).unwrap();
    let other = t.id ^ 1;
    assert!(matches!(tracker_events(&store, other), TrackerEvents::Absent));
    assert!(matches!(tracker_description(&store, other), DescriptionLookup::NotFound));
}

#[test]
fn tracker_without_events_is_empty() {
    let mut store = TrackerStore::new();
    let a = insert_tracker(&mut store, 1, "Tea".to_string()).unwrap();
    let b = insert_tracker(&mut store, 2, "Water".to_string()).unwrap();
    insert_event(&mut store, event_row(b.id, DAY, None, 3)).unwrap();
    assert!(matches!(tracker_events(&store, a.id), TrackerEvents::Empty));
    let rows = join_rows(&store, a.id);
    assert_eq!(rows.len(), 1);
    assert_eq!(classify_row(&rows[0]), RowClass::Placeholder);
}

#[test]
fn populated_events_match_inserted_values() {
    let mut store = TrackerStore::new();
    let t = insert_tracker(&mut store, 9, "Steps".to_string()).unwrap();
    let other = insert_tracker(&mut store, 10, "Sleep".to_string()).unwrap();
    let rows = [
        event_row(t.id, DAY, Some(DAY + MINUTE), 1),
        event_row(other.id, DAY, None, 7),
        event_row(t.id, DAY + HOUR, Some(DAY + 2 * HOUR), 2),
        event_row(t.id, DAY + 3 * HOUR, None, 3),
    ];
    for r in rows {
        insert_event(&mut store, r).unwrap();
    }
    let evs = populated(tracker_events(&store, t.id));
    assert_eq!(
        evs,
        vec![
            Event { start_time: DAY, end_time: Some(DAY + MINUTE), new_value: 1 },
            Event { start_time: DAY + HOUR, end_time: Some(DAY + 2 * HOUR), new_value: 2 },
            Event { start_time: DAY + 3 * HOUR, end_time: None, new_value: 3 },
        ]
    );
    assert_eq!(evs[2].end_time, None);
    assert_eq!(populated(tracker_events(&store, other.id)).len(), 1);
}

#[test]
fn duplicate_name_is_uniqueness_violation() {
    let mut store = TrackerStore::new();
    create_tracker(&mut store, "Coffee".to_string()).unwrap();
    let before = all_trackers(&store).len();
    let r = create_tracker(&mut store, "Coffee".to_string());
    assert!(matches!(r, Err(TrackerError::UniquenessViolation)));
    assert_eq!(all_trackers(&store).len(), before);
    assert_eq!(before, 1);
}

#[test]
fn duplicate_id_is_storage_error() {
    let mut store = TrackerStore::new();
    insert_tracker(&mut store, 5, "A".to_string()).unwrap();
    let r = insert_tracker(&mut store, 5, "B".to_string());
    assert!(matches!(r, Err(TrackerError::StorageError)));
    let r = insert_tracker(&mut store, 6, "A".to_string());
    assert!(matches!(r, Err(TrackerError::UniquenessViolation)));
    assert_eq!(all_trackers(&store).len(), 1);
}

#[test]
fn event_for_missing_tracker_is_storage_error() {
    let mut store = TrackerStore::new();
    let r = insert_event(&mut store, event_row(77, DAY, None, 1));
    assert!(matches!(r, Err(TrackerError::StorageError)));
    assert!(matches!(tracker_events(&store, 77), TrackerEvents::Absent));
}

#[test]
fn created_coffee_is_listed_once_and_empty() {
    let mut store = TrackerStore::new();
    insert_tracker(&mut store, 3, "Tea".to_string()).unwrap();
    let t = create_tracker(&mut store, "Coffee".to_string()).unwrap();
    assert_eq!(t.human_name, "Coffee");
    assert_eq!(t.description, None);
    assert_ne!(t.id, 3);
    assert_eq!(uuid::Uuid::from_u128(t.id).get_version_num(), 4);
    let all = all_trackers(&store);
    assert_eq!(all.len(), 2);
    let coffee: Vec<_> = all.iter().filter(|x| x.human_name == "Coffee").collect();
    assert_eq!(coffee.len(), 1);
    assert_eq!(coffee[0].id, t.id);
    assert!(matches!(tracker_events(&store, t.id), TrackerEvents::Empty));
    assert!(matches!(tracker_description(&store, t.id), DescriptionLookup::Found(None)));
}

#[test]
fn fresh_ids_differ() {
    let mut store = TrackerStore::new();
    let a = create_tracker(&mut store, "One".to_string()).unwrap();
    let b = create_tracker(&mut store, "Two".to_string()).unwrap();
    assert_ne!(a.id, b.id);
    assert_eq!(uuid::Uuid::from_u128(b.id).get_version_num(), 4);
    assert_eq!(uuid::Uuid::from_u128(b.id).get_variant(), uuid::Variant::RFC4122);
}

#[test]
fn end_to_end_coffee() {
    let mut store = TrackerStore::new();
    let t1 = create_tracker(&mut store, "Coffee".to_string()).unwrap().id;
    insert_event(&mut store, event_row(t1, DAY + 9 * HOUR, Some(DAY + 9 * HOUR + 10 * MINUTE), 1))
        .unwrap();
    insert_event(&mut store, event_row(t1, DAY + 10 * HOUR, None, 2)).unwrap();
    let first = populated(tracker_events(&store, t1));
    assert_eq!(
        first,
        vec![
            Event {
                start_time: DAY + 9 * HOUR,
                end_time: Some(DAY + 9 * HOUR + 10 * MINUTE),
                new_value: 1,
            },
            Event { start_time: DAY + 10 * HOUR, end_time: None, new_value: 2 },
        ]
    );
    let again = populated(tracker_events(&store, t1));
    assert_eq!(first, again);
    let unused = uuid::Uuid::new_v4().as_u128();
    assert_ne!(unused, t1);
    assert!(matches!(tracker_events(&store, unused), TrackerEvents::Absent));
}

fn nullable(
    tracker_id: Option<u128>,
    start: Option<i64>,
    end: Option<i64>,
    value: Option<i64>,
) -> NullableEvent {
    NullableEvent { tracker_id, start_time: start, end_time: end, new_value: value }
}

#[test]
fn collate_no_rows_is_absent() {
    assert!(matches!(collate_rows(&vec![]), Ok(TrackerEvents::Absent)));
}

#[test]
fn collate_placeholder_is_empty() {
    let rows = vec![nullable(None, None, None, None)];
    assert!(matches!(collate_rows(&rows), Ok(TrackerEvents::Empty)));
}

#[test]
fn collate_valid_rows_keep_order() {
    let rows = vec![
        nullable(Some(1), Some(10), None, Some(5)),
        nullable(Some(1), Some(4), Some(8), Some(-2)),
    ];
    let evs = populated(collate_rows(&rows).unwrap());
    assert_eq!(
        evs,
        vec![
            Event { start_time: 10, end_time: None, new_value: 5 },
            Event { start_time: 4, end_time: Some(8), new_value: -2 },
        ]
    );
}

#[test]
fn collate_missing_start_is_inconsistent() {
    let rows = vec![nullable(Some(1), None, None, Some(5))];
    assert!(matches!(collate_rows(&rows), Err(TrackerError::SchemaInconsistency)));
    let rows = vec![nullable(None, None, Some(3), None)];
    assert_eq!(classify_row(&rows[0]), RowClass::Inconsistent);
    assert!(matches!(collate_rows(&rows), Err(TrackerError::SchemaInconsistency)));
}

#[test]
fn collate_placeholder_beside_events_contributes_nothing() {
    let rows = vec![
        nullable(Some(1), Some(10), None, Some(5)),
        nullable(None, None, None, None),
        nullable(Some(1), Some(20), Some(30), Some(6)),
    ];
    let evs = populated(collate_rows(&rows).unwrap());
    assert_eq!(
        evs,
        vec![
            Event { start_time: 10, end_time: None, new_value: 5 },
            Event { start_time: 20, end_time: Some(30), new_value: 6 },
        ]
    );
}

#[test]
fn collate_two_placeholders_is_inconsistent() {
    let rows = vec![nullable(None, None, None, None), nullable(None, None, None, None)];
    assert!(matches!(collate_rows(&rows), Err(TrackerError::SchemaInconsistency)));
}

#[test]
fn inconsistent_row_after_placeholder_is_still_reported() {
    let rows = vec![nullable(None, None, None, None), nullable(Some(1), None, None, None)];
    assert!(matches!(collate_rows(&rows), Err(TrackerError::SchemaInconsistency)));
}

#[test]
fn status_codes() {
    assert_eq!(TrackerError::UniquenessViolation.http_status(), 422);
    assert_eq!(TrackerError::StorageError.http_status(), 500);
    assert_eq!(TrackerError::SchemaInconsistency.http_status(), 500);
    assert_eq!(TrackerEvents::Absent.http_status(), 404);
    assert_eq!(TrackerEvents::Empty.http_status(), 200);
    assert_eq!(TrackerEvents::Populated(vec![]).http_status(), 200);
}

#[test]
fn description_lookup_keeps_nested_absence() {
    let mut store = TrackerStore::new();
    let t = insert_tracker(&mut store, 11, "Reading".to_string()).unwrap();
    assert!(matches!(tracker_description(&store, t.id), DescriptionLookup::Found(None)));
    assert!(matches!(tracker_description(&store, 12), DescriptionLookup::NotFound));
}

#[test]
fn listing_is_stable_and_in_creation_order() {
    let mut store = TrackerStore::new();
    insert_tracker(&mut store, 1, "A".to_string()).unwrap();
    insert_tracker(&mut store, 2, "B".to_string()).unwrap();
    let first: Vec<(u128, String)> =
        all_trackers(&store).into_iter().map(|t| (t.id, t.human_name)).collect();
    let second: Vec<(u128, String)> =
        all_trackers(&store).into_iter().map(|t| (t.id, t.human_name)).collect();
    assert_eq!(first, vec![(1, "A".to_string()), (2, "B".to_string())]);
    assert_eq!(first, second);
}

#[test]
fn store_failures_map_to_errors() {
    assert_eq!(TrackerError::from_store_failure(true), TrackerError::UniquenessViolation);
    assert_eq!(TrackerError::from_store_failure(false), TrackerError::StorageError);
}
