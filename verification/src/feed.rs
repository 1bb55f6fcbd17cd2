//! Turning the transit API's JSON payload into a keyed departure list. The
//! payload's `data` array holds one record per vehicle; each record carries
//! its trip id under `relationships.trip.data.id` and its departure time
//! under `attributes.departure_time`. A missing `data` field or a non-array
//! `data` is a valid "no data yet" response, not an error; a record missing
//! its id or time is skipped; a departure time that does not parse is an
//! error.

use vstd::prelude::*;
use crate::daytime::DayTime;
use crate::reconcile::unique_keys;
use crate::reconcile::all_times_wf;
use crate::reconcile::find_key;

verus! {

/// serde_json's parsed JSON value, opaque to the verified code: every read
/// from it goes through the trusted accessors below.
#[verifier::external_type_specification]
#[verifier::external_body]
pub struct ExValue(serde_json::Value);

/// Why a payload could not be turned into a departure list.
#[derive(Clone, Copy, PartialEq, Eq, Structural, Debug)]
pub enum FeedError {
    /// The body is not valid JSON.
    MalformedJson,
    /// A record's departure time does not parse as a timestamp.
    BadTimestamp,
}

/// Relies on serde_json::from_str: parses a JSON document, or fails.
#[verifier::external_body]
fn json_from_str(body: &str) -> (r: Option<serde_json::Value>)
{
    serde_json::from_str::<serde_json::Value>(body).ok()
}

/// Relies on serde_json::Value::get: the value of an object's field, `None`
/// when the value is no object or has no such field.
#[verifier::external_body]
fn json_get<'a>(v: &'a serde_json::Value, key: &str) -> (r: Option<&'a serde_json::Value>)
{
    v.get(key)
}

/// Relies on serde_json::Value::as_array: the elements of an array value,
/// `None` when the value is no array.
#[verifier::external_body]
fn json_as_array<'a>(v: &'a serde_json::Value) -> (r: Option<&'a Vec<serde_json::Value>>)
{
    v.as_array()
}

/// Relies on serde_json::Value::as_str: the contents of a string value,
/// `None` when the value is no string.
#[verifier::external_body]
fn json_as_str<'a>(v: &'a serde_json::Value) -> (r: Option<&'a str>)
{
    v.as_str()
}

/// Relies on chrono: DateTime::parse_from_str with the `%+` (ISO 8601 /
/// RFC 3339) format, converted to the machine's local time zone; the day is
/// counted from the common era, and chrono documents the hour as 0..=23 and
/// the minute and second as 0..=59, so a parsed timestamp is a valid
/// wall-clock reading.
#[verifier::external_body]
fn parse_departure_time(s: &str) -> (r: Option<DayTime>)
    ensures
        match r {
            Some(t) => t.wf(),
            None => true,
        },
{
    match chrono::DateTime::parse_from_str(s, "%+") {
        Ok(t) => {
            let local = t.with_timezone(&chrono::Local);
            Some(
                DayTime {
                    day: chrono::Datelike::num_days_from_ce(&local) as u32,
                    hour: chrono::Timelike::hour(&local) as u8,
                    minute: chrono::Timelike::minute(&local) as u8,
                    second: chrono::Timelike::second(&local) as u8,
                },
            )
        },
        Err(_) => None,
    }
}

/// Insert a departure, overriding any earlier entry with the same trip id —
/// the payload's later record for a trip is the fresher one.
fn upsert(out: &mut Vec<(String, DayTime)>, key: String, time: DayTime)
    requires
        unique_keys(old(out)@),
        all_times_wf(old(out)@),
        time.wf(),
    ensures
        unique_keys(final(out)@),
        all_times_wf(final(out)@),
{
    let ghost prev = out@;
    match find_key(out, &key) {
        Some(j) => {
            out.remove(j);
            out.insert(j, (key, time));
            proof {
                assert(forall|x: int|
                    0 <= x < out@.len() && x != j ==> out@[x] == prev[x]);
                assert(forall|x: int|
                    0 <= x < out@.len() && x != j ==> (#[trigger] out@[x]).0@ != out@[j as int].0@);
            }
        },
        None => {
            out.push((key, time));
            proof {
                assert(forall|x: int| 0 <= x < prev.len() ==> out@[x] == prev[x]);
                assert(forall|x: int|
                    0 <= x < prev.len() ==> (#[trigger] out@[x]).0@ != out@[prev.len() as int].0@);
            }
        },
    }
}

/// Parse the transit API's JSON payload into a keyed departure list.
///
/// `Ok(None)` is the valid "no data yet" response (no `data` field, or a
/// non-array one). `Ok(Some(..))` carries one entry per trip id, each
/// timestamp a valid wall-clock reading; records without an id or without a
/// departure time are skipped. The errors: a body that is not JSON, and a
/// departure time that does not parse.
pub fn departures_from_json(body: &str) -> (r: Result<
    Option<Vec<(String, DayTime)>>,
    FeedError,
>)
    ensures
        match r {
            Ok(Some(entries)) => unique_keys(entries@) && all_times_wf(entries@),
            _ => true,
        },
{
    let root = match json_from_str(body) {
        Some(v) => v,
        None => {
            return Err(FeedError::MalformedJson);
        },
    };
    let data = match json_get(&root, "data") {
        Some(d) => d,
        None => {
            return Ok(None);
        },
    };
    let records = match json_as_array(data) {
        Some(a) => a,
        None => {
            return Ok(None);
        },
    };
    let mut out: Vec<(String, DayTime)> = Vec::new();
    let mut i: usize = 0;
    while i < records.len()
        invariant
            unique_keys(out@),
            all_times_wf(out@),
        decreases records@.len() - i,
    {
        let record = &records[i];
        let trip_id = record_trip_id(record);
        let departure = record_departure_time(record);
        match (trip_id, departure) {
            (Some(id), Some(time_str)) => {
                match parse_departure_time(time_str) {
                    Some(t) => {
                        let owned: String = id.to_owned();
                        upsert(&mut out, owned, t);
                    },
                    None => {
                        return Err(FeedError::BadTimestamp);
                    },
                }
            },
            _ => {},
        }
        i = i + 1;
    }
    Ok(Some(out))
}

/// The record's trip id, at `relationships.trip.data.id`.
fn record_trip_id<'a>(record: &'a serde_json::Value) -> (r: Option<&'a str>) {
    match json_get(record, "relationships") {
        Some(relationships) => match json_get(relationships, "trip") {
            Some(trip) => match json_get(trip, "data") {
                Some(data) => match json_get(data, "id") {
                    Some(id) => json_as_str(id),
                    None => None,
                },
                None => None,
            },
            None => None,
        },
        None => None,
    }
}

/// The record's departure time, at `attributes.departure_time`.
fn record_departure_time<'a>(record: &'a serde_json::Value) -> (r: Option<&'a str>) {
    match json_get(record, "attributes") {
        Some(attributes) => match json_get(attributes, "departure_time") {
            Some(t) => json_as_str(t),
            None => None,
        },
        None => None,
    }
}

} // verus!
