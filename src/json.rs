//! Reading one input line as a record.
//!
//! serde_json parses the line and chrono parses the timestamp; what they
//! return is named by the uninterpreted functions below, and the checks
//! that make a record out of it are verified here.

use vstd::prelude::*;
use crate::record::{Record, UtcTimestamp};

verus! {

#[verifier::external_type_specification]
#[verifier::external_body]
pub struct ExJsonValue(serde_json::Value);

/// Whether serde_json reads the text as one JSON value.
pub uninterp spec fn json_parses(line: Seq<char>) -> bool;

/// The string held by member `key` of the JSON text, if it is an object
/// with such a member and that member is a string.
pub uninterp spec fn json_str_member(line: Seq<char>, key: Seq<char>) -> Option<Seq<char>>;

/// The bit pattern of the `f64` that serde_json reads from member `key`,
/// if it is an object with such a member and that member is a number.
pub uninterp spec fn json_f64_bits_member(line: Seq<char>, key: Seq<char>) -> Option<u64>;

/// The integer held by member `key`, if it is an object with such a member
/// and that member is an integer that fits in an `i64`.
pub uninterp spec fn json_i64_member(line: Seq<char>, key: Seq<char>) -> Option<i64>;

/// What chrono reads from an RFC 3339 / ISO 8601 date-time text, converted
/// to UTC.
pub uninterp spec fn utc_of_rfc3339(s: Seq<char>) -> Option<UtcTimestamp>;

/// Relies on serde_json::from_str::<Value>: `Ok` exactly when the text is
/// one JSON value.
#[verifier::external_body]
fn parse_json_value(line: &str) -> (r: Option<serde_json::Value>)
    ensures
        r is Some == json_parses(line@),
{
    serde_json::from_str::<serde_json::Value>(line).ok()
}

/// Relies on Value::get with a string key and Value::as_str.
#[verifier::external_body]
fn member_str(doc: &JsonLine, key: &str) -> (r: Option<String>)
    ensures
        r is Some == json_str_member(doc.text@, key@) is Some,
        r is Some ==> r->0@ == json_str_member(doc.text@, key@)->0,
{
    doc.value.get(key).and_then(|v| v.as_str()).map(|s| s.to_string())
}

/// Relies on Value::get with a string key and Value::as_f64; the float is
/// handed on as its bits.
#[verifier::external_body]
fn member_f64_bits(doc: &JsonLine, key: &str) -> (r: Option<u64>)
    ensures
        r == json_f64_bits_member(doc.text@, key@),
{
    doc.value.get(key).and_then(|v| v.as_f64()).map(|x| x.to_bits())
}

/// Relies on Value::get with a string key and Value::as_i64.
#[verifier::external_body]
fn member_i64(doc: &JsonLine, key: &str) -> (r: Option<i64>)
    ensures
        r == json_i64_member(doc.text@, key@),
{
    doc.value.get(key).and_then(|v| v.as_i64())
}

/// Relies on chrono's `FromStr for DateTime<Utc>` (the parse that chrono's
/// serde support uses), and on its calendar accessors and `to_rfc3339`. The
/// ranges are those that `Datelike` and `Timelike` document: month 1 to 12,
/// day 1 to 31, hour 0 to 23, minute and second 0 to 59, nanosecond below
/// 2,000,000,000.
#[verifier::external_body]
fn parse_utc(s: &str) -> (r: Option<UtcTimestamp>)
    ensures
        r == utc_of_rfc3339(s@),
        r is Some ==> r->0.wf(),
{
    s.parse::<chrono::DateTime<chrono::Utc>>().ok().map(|t| UtcTimestamp {
        year: chrono::Datelike::year(&t),
        month: chrono::Datelike::month(&t),
        day: chrono::Datelike::day(&t),
        hour: chrono::Timelike::hour(&t),
        minute: chrono::Timelike::minute(&t),
        second: chrono::Timelike::second(&t),
        nanosecond: chrono::Timelike::nanosecond(&t),
        rfc3339: t.to_rfc3339(),
    })
}

/// A parsed JSON value together with the text it was parsed from. The
/// fields are private and `JsonLine::parse` is the only constructor, so
/// `value` is always what serde_json read from `text`.
pub struct JsonLine {
    value: serde_json::Value,
    text: Ghost<Seq<char>>,
}

impl JsonLine {
    fn parse(line: &str) -> (r: Option<JsonLine>)
        ensures
            r is Some == json_parses(line@),
            r is Some ==> r->0.text@ == line@,
    {
        match parse_json_value(line) {
            Some(value) => Some(JsonLine { value, text: Ghost(line@) }),
            None => None,
        }
    }
}

/// The timestamp text of a line, when it has one.
pub open spec fn timestamp_of_line(line: Seq<char>) -> Option<UtcTimestamp> {
    match json_str_member(line, "timestamp"@) {
        Some(t) => utc_of_rfc3339(t),
        None => None,
    }
}

/// A line is a record when it is JSON, the three string fields are strings,
/// the four coordinates are numbers, the speed is an integer in `i32` range,
/// and the timestamp is a string that parses as a date-time. serde_json
/// keeps the last of repeated members, so a line that repeats a field is
/// read with that field's last value rather than rejected.
pub open spec fn is_record_line(line: Seq<char>) -> bool {
    &&& json_parses(line)
    &&& json_str_member(line, "version"@) is Some
    &&& json_str_member(line, "name"@) is Some
    &&& json_str_member(line, "uuid"@) is Some
    &&& json_f64_bits_member(line, "latitude"@) is Some
    &&& json_f64_bits_member(line, "longitude"@) is Some
    &&& json_f64_bits_member(line, "altitude"@) is Some
    &&& json_f64_bits_member(line, "course"@) is Some
    &&& json_i64_member(line, "speed"@) is Some
    &&& i32::MIN <= json_i64_member(line, "speed"@)->0 <= i32::MAX
    &&& timestamp_of_line(line) is Some
}

/// The record holds exactly the values of the line's nine fields.
pub open spec fn record_matches_line(r: Record, line: Seq<char>) -> bool {
    &&& r.version@ == json_str_member(line, "version"@)->0
    &&& r.name@ == json_str_member(line, "name"@)->0
    &&& r.uuid@ == json_str_member(line, "uuid"@)->0
    &&& r.latitude_bits == json_f64_bits_member(line, "latitude"@)->0
    &&& r.longitude_bits == json_f64_bits_member(line, "longitude"@)->0
    &&& r.altitude_bits == json_f64_bits_member(line, "altitude"@)->0
    &&& r.course_bits == json_f64_bits_member(line, "course"@)->0
    &&& r.speed as int == json_i64_member(line, "speed"@)->0 as int
    &&& r.timestamp == timestamp_of_line(line)->0
}

impl UtcTimestamp {
    /// Reads an RFC 3339 date-time and converts it to UTC.
    pub fn parse(s: &str) -> (r: Option<UtcTimestamp>)
        ensures
            r == utc_of_rfc3339(s@),
            r is Some ==> r->0.wf(),
    {
        parse_utc(s)
    }
}

impl Record {
    /// Reads one line as a record: `None` when the line is not a JSON
    /// object with all nine fields, each of the right type.
    pub fn parse(line: &str) -> (r: Option<Record>)
        ensures
            r is Some == is_record_line(line@),
            r is Some ==> record_matches_line(r->0, line@),
            r is Some ==> r->0.timestamp.wf(),
    {
        let doc = match JsonLine::parse(line) {
            Some(d) => d,
            None => return None,
        };
        let version = match member_str(&doc, "version") {
            Some(v) => v,
            None => return None,
        };
        let name = match member_str(&doc, "name") {
            Some(v) => v,
            None => return None,
        };
        let uuid = match member_str(&doc, "uuid") {
            Some(v) => v,
            None => return None,
        };
        let latitude_bits = match member_f64_bits(&doc, "latitude") {
            Some(v) => v,
            None => return None,
        };
        let longitude_bits = match member_f64_bits(&doc, "longitude") {
            Some(v) => v,
            None => return None,
        };
        let altitude_bits = match member_f64_bits(&doc, "altitude") {
            Some(v) => v,
            None => return None,
        };
        let course_bits = match member_f64_bits(&doc, "course") {
            Some(v) => v,
            None => return None,
        };
        let speed = match member_i64(&doc, "speed") {
            Some(v) => v,
            None => return None,
        };
        if speed < i32::MIN as i64 || speed > i32::MAX as i64 {
            return None;
        }
        let stamp_text = match member_str(&doc, "timestamp") {
            Some(v) => v,
            None => return None,
        };
        let timestamp = match parse_utc(stamp_text.as_str()) {
            Some(t) => t,
            None => return None,
        };
        Some(
            Record {
                version,
                name,
                uuid,
                latitude_bits,
                longitude_bits,
                altitude_bits,
                course_bits,
                speed: speed as i32,
                timestamp,
            },
        )
    }
}

} // verus!
