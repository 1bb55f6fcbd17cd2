use mbta_countdown::daytime::DayTime;
use mbta_countdown::feed::departures_from_json;
use mbta_countdown::feed::FeedError;
use mbta_countdown::reconcile::reconcile;

fn record(id: &str, departure_time: &str) -> String {
    format!(
        "{{\"attributes\":{{\"departure_time\":\"{}\"}},\
         \"relationships\":{{\"trip\":{{\"data\":{{\"id\":\"{}\"}}}}}}}}",
        departure_time, id
    )
}

fn body(records: &[String]) -> String {
    format!("{{\"data\":[{}]}}", records.join(","))
}

fn wf(t: &DayTime) -> bool {
    t.hour < 24 && t.minute < 60 && t.second < 60
}

#[test]
fn payload_parses_into_keyed_departures() {
    let b = body(&[
        record("trip-a", "2021-06-01T10:30:00-04:00"),
        record("trip-b", "2021-06-01T10:31:00-04:00"),
    ]);
    let entries = departures_from_json(&b).unwrap().unwrap();
    assert_eq!(entries.len(), 2);
    assert_eq!(entries[0].0, "trip-a");
    assert_eq!(entries[1].0, "trip-b");
    assert!(entries.iter().all(|(_, t)| wf(t)));
    // The two instants are one minute apart, whatever this machine's time
    // zone maps them to.
    assert_eq!(entries[0].1.seconds_until(&entries[1].1), 60);
}

#[test]
fn later_record_for_a_trip_overrides_the_earlier() {
    let b = body(&[
        record("trip-a", "2021-06-01T10:30:00-04:00"),
        record("trip-a", "2021-06-01T10:45:00-04:00"),
    ]);
    let entries = departures_from_json(&b).unwrap().unwrap();
    assert_eq!(entries.len(), 1);
    assert_eq!(entries[0].0, "trip-a");
    // 15 minutes later than the first record's instant.
    let first_only = departures_from_json(&body(&[record(
        "trip-a",
        "2021-06-01T10:30:00-04:00",
    )]))
    .unwrap()
    .unwrap();
    assert_eq!(first_only[0].1.seconds_until(&entries[0].1), 900);
}

#[test]
fn missing_data_field_is_no_data_not_an_error() {
    assert_eq!(departures_from_json("{\"jsonapi\":{}}"), Ok(None));
}

#[test]
fn non_array_data_is_no_data_not_an_error() {
    assert_eq!(departures_from_json("{\"data\":{\"id\":\"x\"}}"), Ok(None));
}

#[test]
fn invalid_json_is_an_error() {
    assert_eq!(departures_from_json("not json"), Err(FeedError::MalformedJson));
}

#[test]
fn unparseable_departure_time_is_an_error() {
    let b = body(&[record("trip-a", "half past ten")]);
    assert_eq!(departures_from_json(&b), Err(FeedError::BadTimestamp));
}

#[test]
fn record_without_id_or_time_is_skipped() {
    let no_id = "{\"attributes\":{\"departure_time\":\"2021-06-01T10:30:00-04:00\"}}".to_string();
    let no_time = "{\"relationships\":{\"trip\":{\"data\":{\"id\":\"trip-x\"}}}}".to_string();
    let b = body(&[no_id, no_time, record("trip-a", "2021-06-01T10:30:00-04:00")]);
    let entries = departures_from_json(&b).unwrap().unwrap();
    assert_eq!(entries.len(), 1);
    assert_eq!(entries[0].0, "trip-a");
}

#[test]
fn empty_data_array_reconciles_to_none() {
    let entries = departures_from_json("{\"data\":[]}").unwrap().unwrap();
    assert!(entries.is_empty());
    let now = DayTime { day: 0, hour: 0, minute: 0, second: 0 };
    assert!(reconcile(entries, None, &now).is_none());
}

#[test]
fn parsed_schedule_and_predictions_reconcile() {
    let sched = departures_from_json(&body(&[
        record("t1", "2021-06-01T10:30:00-04:00"),
        record("t2", "2021-06-01T11:00:00-04:00"),
    ]))
    .unwrap()
    .unwrap();
    let pred = departures_from_json(&body(&[record("t1", "2021-06-01T10:36:00-04:00")]))
        .unwrap()
        .unwrap();
    // A "now" far in the past of any parsed instant.
    let now = DayTime { day: 0, hour: 0, minute: 0, second: 0 };
    let sched_t1 = sched[0].1;
    let ds = reconcile(sched, Some(pred), &now).unwrap();
    assert_eq!(ds.times.len(), 2);
    // The predicted instant replaced the scheduled one: six minutes later.
    assert_eq!(sched_t1.seconds_until(&ds.times[0]), 360);
    assert_eq!(ds.times[0].seconds_until(&ds.times[1]), 24 * 60);
}
