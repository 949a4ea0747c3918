use ingest_demo::columns::{schema, ColumnKind};
use ingest_demo::partition::group_records;
use ingest_demo::plan::{ingest_lines, plan_partitions, IngestError};
use ingest_demo::record::{Record, UtcTimestamp};
use ingest_demo::stream::parse_lines;

fn stamp(s: &str) -> UtcTimestamp {
    UtcTimestamp::parse(s).unwrap()
}

fn boat(name: &str, ts: &str) -> String {
    format!(
        "{{\"version\":\"1.0\",\"name\":\"{}\",\"uuid\":\"u1\",\"latitude\":1.0,\"longitude\":2.0,\"altitude\":3.0,\"course\":4.0,\"speed\":5,\"timestamp\":\"{}\"}}",
        name, ts
    )
}

fn lines(v: &[&str]) -> Vec<String> {
    v.iter().map(|s| s.to_string()).collect()
}

fn record_with_year(year: i32) -> Record {
    let mut t = stamp("2022-03-15T07:18:45Z");
    t.year = year;
    Record {
        version: "1.0.0".to_string(),
        name: "Boat 1".to_string(),
        uuid: "u".to_string(),
        latitude_bits: 0,
        longitude_bits: 0,
        altitude_bits: 0,
        course_bits: 0,
        speed: 0,
        timestamp: t,
    }
}

#[test]
fn test_parse_timestamp() {
    let timestamp = stamp("2025-04-16T07:18:45.592502Z");
    assert_eq!(timestamp.rfc3339, "2025-04-16T07:18:45.592502+00:00");
}

#[test]
fn test_record_methods() {
    let record = Record {
        version: "1.0.0".to_string(),
        name: "Boat 1".to_string(),
        uuid: format!("urn:mrn:signalk:uuid:{}", uuid::Uuid::new_v4()),
        latitude_bits: 37.78039400669318f64.to_bits(),
        longitude_bits: (-122.38526611923439f64).to_bits(),
        altitude_bits: 0.0f64.to_bits(),
        course_bits: 24.786300968644476f64.to_bits(),
        speed: 6,
        timestamp: stamp("2022-03-15T07:18:45.592502Z"),
    };
    assert_eq!(record.year(), "2022");
    assert_eq!(record.month(), "03");
    assert_eq!(record.day(), "15");
}

#[test]
fn timestamp_converts_offset_to_utc() {
    let t = stamp("2024-06-01T23:30:00-02:00");
    assert_eq!((t.year, t.month, t.day, t.hour, t.minute), (2024, 6, 2, 1, 30));
    assert_eq!(t.rfc3339, "2024-06-02T01:30:00+00:00");
    assert!(UtcTimestamp::parse("2024-06-01").is_none());
    assert!(UtcTimestamp::parse("yesterday").is_none());
}

#[test]
fn year_text_outside_four_digits() {
    assert_eq!(record_with_year(987).year(), "0987");
    assert_eq!(record_with_year(12345).year(), "+12345");
    assert_eq!(record_with_year(-1).year(), "-0001");
    assert_eq!(record_with_year(0).year(), "0000");
}

#[test]
fn parse_accepts_full_record() {
    let r = Record::parse(&boat("Boat A", "2024-06-01T10:00:00.250Z")).unwrap();
    assert_eq!(r.version, "1.0");
    assert_eq!(r.name, "Boat A");
    assert_eq!(r.uuid, "u1");
    assert_eq!(r.latitude_bits, 1.0f64.to_bits());
    assert_eq!(r.longitude_bits, 2.0f64.to_bits());
    assert_eq!(r.altitude_bits, 3.0f64.to_bits());
    assert_eq!(r.course_bits, 4.0f64.to_bits());
    assert_eq!(r.speed, 5);
    assert_eq!(r.timestamp.nanosecond, 250_000_000);
    assert_eq!(r.timestamp.rfc3339, "2024-06-01T10:00:00.250+00:00");
    assert_eq!(r.partition_path(), "name=Boat A/year=2024/month=06/day=01");
}

#[test]
fn parse_accepts_integer_coordinates() {
    let line = "{\"version\":\"1\",\"name\":\"n\",\"uuid\":\"u\",\"latitude\":1,\"longitude\":-2,\"altitude\":0,\"course\":359,\"speed\":-7,\"timestamp\":\"2024-01-01T00:00:00Z\"}";
    let r = Record::parse(line).unwrap();
    assert_eq!(r.latitude_bits, 1.0f64.to_bits());
    assert_eq!(r.longitude_bits, (-2.0f64).to_bits());
    assert_eq!(r.speed, -7);
}

#[test]
fn parse_rejects_missing_or_mistyped_fields() {
    let good = boat("Boat A", "2024-06-01T10:00:00Z");
    assert!(Record::parse(&good).is_some());
    for key in ["version", "name", "uuid", "latitude", "longitude", "altitude", "course", "speed", "timestamp"] {
        let missing = good.replace(&format!("\"{}\":", key), "\"other\":");
        assert!(Record::parse(&missing).is_none(), "missing {}", key);
    }
    assert!(Record::parse(&good.replace("\"speed\":5", "\"speed\":5.5")).is_none());
    assert!(Record::parse(&good.replace("\"speed\":5", "\"speed\":\"5\"")).is_none());
    assert!(Record::parse(&good.replace("\"speed\":5", "\"speed\":2147483648")).is_none());
    assert!(Record::parse(&good.replace("\"latitude\":1.0", "\"latitude\":\"1.0\"")).is_none());
    assert!(Record::parse(&good.replace("\"name\":\"Boat A\"", "\"name\":7")).is_none());
    assert!(Record::parse(&good.replace("2024-06-01T10:00:00Z", "not a date")).is_none());
    assert!(Record::parse("not json").is_none());
    assert!(Record::parse("[1,2,3]").is_none());
    assert!(Record::parse("").is_none());
}

#[test]
fn speed_limits_are_accepted() {
    let good = boat("Boat A", "2024-06-01T10:00:00Z");
    let hi = Record::parse(&good.replace("\"speed\":5", "\"speed\":2147483647")).unwrap();
    assert_eq!(hi.speed, i32::MAX);
    let lo = Record::parse(&good.replace("\"speed\":5", "\"speed\":-2147483648")).unwrap();
    assert_eq!(lo.speed, i32::MIN);
}

#[test]
fn scenario_one_valid_one_malformed() {
    let input = lines(&[&boat("Boat A", "2024-06-01T10:00:00Z"), "not json"]);
    let plan = ingest_lines(&input).unwrap();
    assert_eq!(plan.records.len(), 1);
    assert_eq!(plan.groups.len(), 1);
    assert_eq!(plan.groups[0].path, "name=Boat A/year=2024/month=06/day=01");
    assert_eq!(plan.groups[0].rows, vec![0]);
    assert_eq!(plan.batches[0].row_count(), 1);
    assert_eq!(
        plan.groups[0].file_path(),
        "name=Boat A/year=2024/month=06/day=01/data.parquet"
    );
}

#[test]
fn scenario_two_partitions_with_counts() {
    let input = lines(&[
        &boat("Boat A", "2024-06-01T10:00:00Z"),
        &boat("Boat B", "2024-06-02T11:00:00Z"),
        &boat("Boat A", "2024-06-01T12:00:00Z"),
    ]);
    let plan = ingest_lines(&input).unwrap();
    assert_eq!(plan.groups.len(), 2);
    let a = plan.groups.iter().position(|g| g.path == "name=Boat A/year=2024/month=06/day=01").unwrap();
    let b = plan.groups.iter().position(|g| g.path == "name=Boat B/year=2024/month=06/day=02").unwrap();
    assert_eq!(plan.groups[a].rows, vec![0, 2]);
    assert_eq!(plan.groups[b].rows, vec![1]);
    assert_eq!(plan.batches[a].row_count(), 2);
    assert_eq!(plan.batches[b].row_count(), 1);
}

#[test]
fn scenario_utc_midnight_splits_days() {
    let input = lines(&[
        &boat("Boat A", "2024-06-01T23:59:59Z"),
        &boat("Boat A", "2024-06-02T00:00:01Z"),
    ]);
    let plan = ingest_lines(&input).unwrap();
    let mut paths: Vec<String> = plan.groups.iter().map(|g| g.path.clone()).collect();
    paths.sort();
    assert_eq!(
        paths,
        vec![
            "name=Boat A/year=2024/month=06/day=01".to_string(),
            "name=Boat A/year=2024/month=06/day=02".to_string(),
        ]
    );
}

#[test]
fn same_day_different_times_share_partition() {
    let a = Record::parse(&boat("Boat A", "2024-06-01T00:00:00Z")).unwrap();
    let b = Record::parse(&boat("Boat A", "2024-06-01T23:59:59.999999999Z")).unwrap();
    let c = Record::parse(&boat("Boat A", "2024-06-02T01:00:00+02:00")).unwrap();
    assert_eq!(a.partition_path(), b.partition_path());
    assert_eq!(a.partition_path(), c.partition_path());
}

#[test]
fn empty_input_fails() {
    assert_eq!(ingest_lines(&Vec::new()).err(), Some(IngestError::EmptyInput));
    let bad = lines(&["not json", "{}", "{\"name\":\"x\"}"]);
    assert_eq!(ingest_lines(&bad).err(), Some(IngestError::EmptyInput));
    assert_eq!(plan_partitions(Vec::new()).err(), Some(IngestError::EmptyInput));
    assert_eq!(IngestError::EmptyInput.message(), "No valid records found in input");
}

#[test]
fn parse_lines_keeps_order_and_drops_bad_lines() {
    let input = lines(&[
        &boat("B1", "2024-06-01T10:00:00Z"),
        "garbage",
        &boat("B2", "2024-06-01T10:00:00Z"),
        "",
        &boat("B3", "2024-06-01T10:00:00Z"),
    ]);
    let recs = parse_lines(&input);
    let names: Vec<&str> = recs.iter().map(|r| r.name.as_str()).collect();
    assert_eq!(names, vec!["B1", "B2", "B3"]);
}

#[test]
fn group_sizes_add_up() {
    let mut input = Vec::new();
    for i in 0..20 {
        input.push(boat(&format!("Boat {}", i % 3), &format!("2024-06-{:02}T10:00:00Z", 1 + i % 4)));
    }
    let recs = parse_lines(&input);
    let groups = group_records(&recs);
    assert_eq!(groups.len(), 12);
    let total: usize = groups.iter().map(|g| g.rows.len()).sum();
    assert_eq!(total, 20);
    let mut seen = vec![0; 20];
    for g in &groups {
        assert!(!g.rows.is_empty());
        for w in g.rows.windows(2) {
            assert!(w[0] < w[1]);
        }
        for &i in &g.rows {
            seen[i] += 1;
            assert_eq!(recs[i].partition_path(), g.path);
        }
    }
    assert!(seen.iter().all(|&c| c == 1));
}

#[test]
fn columns_reproduce_record_values() {
    let line = "{\"version\":\"2\",\"name\":\"Boat Z\",\"uuid\":\"id-9\",\"latitude\":37.78039400669318,\"longitude\":-122.38526611923439,\"altitude\":-0.0,\"course\":24.786300968644476,\"speed\":6,\"timestamp\":\"2025-04-16T07:18:45.592502Z\"}";
    let r = Record::parse(line).unwrap();
    let plan = ingest_lines(&lines(&[line, line])).unwrap();
    let b = &plan.batches[0];
    assert_eq!(b.row_count(), 2);
    for k in 0..2 {
        assert_eq!(b.version[k], "2");
        assert_eq!(b.name[k], "Boat Z");
        assert_eq!(b.uuid[k], "id-9");
        assert_eq!(b.latitude_bits[k], r.latitude_bits);
        assert_eq!(b.longitude_bits[k], r.longitude_bits);
        assert_eq!(b.altitude_bits[k], (-0.0f64).to_bits());
        assert_eq!(b.course_bits[k], r.course_bits);
        assert_eq!(b.speed[k], 6);
        assert_eq!(b.timestamp[k], "2025-04-16T07:18:45.592502+00:00");
    }
}

#[test]
fn schema_is_fixed() {
    let s = schema();
    let names: Vec<&str> = s.iter().map(|c| c.name).collect();
    assert_eq!(
        names,
        vec!["version", "name", "uuid", "latitude", "longitude", "altitude", "course", "speed", "timestamp"]
    );
    assert!(s[0].kind == ColumnKind::Utf8);
    assert!(s[3].kind == ColumnKind::Float64);
    assert!(s[7].kind == ColumnKind::Int32);
    assert!(s[8].kind == ColumnKind::Utf8);
}

#[test]
fn unescaped_name_shapes_path() {
    let r = Record::parse(&boat("a/b", "2024-12-31T10:00:00Z")).unwrap();
    assert_eq!(r.partition_path(), "name=a/b/year=2024/month=12/day=31");
}

#[test]
fn parsed_timestamp_fields_in_range() {
    let t = stamp("2016-12-31T23:59:60.5Z");
    assert_eq!((t.month, t.day, t.hour, t.minute, t.second), (12, 31, 23, 59, 59));
    assert_eq!(t.nanosecond, 1_500_000_000);
    let r = Record::parse(&boat("Boat A", "2024-01-09T00:00:00Z")).unwrap();
    assert_eq!(r.month(), "01");
    assert_eq!(r.day(), "09");
    let k = r.partition_key();
    assert_eq!((k.name.as_str(), k.year.as_str(), k.month.as_str(), k.day.as_str()), ("Boat A", "2024", "01", "09"));
    assert_eq!(k.canonical_path(), "name=Boat A/year=2024/month=01/day=09");
}
