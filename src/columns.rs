//! The nine columns of a partition, projected from its records.

use vstd::prelude::*;
use crate::record::Record;

verus! {

/// The kind of values a column holds.
#[derive(PartialEq, Eq, Structural)]
pub enum ColumnKind {
    Utf8,
    Float64,
    Int32,
}

/// One column of the fixed schema; none of them is nullable.
pub struct ColumnSpec {
    pub name: &'static str,
    pub kind: ColumnKind,
}

/// Column names of the schema, in order.
pub open spec fn schema_names() -> Seq<Seq<char>> {
    seq![
        "version"@,
        "name"@,
        "uuid"@,
        "latitude"@,
        "longitude"@,
        "altitude"@,
        "course"@,
        "speed"@,
        "timestamp"@,
    ]
}

/// Column kinds of the schema, in order.
pub open spec fn schema_kinds() -> Seq<ColumnKind> {
    seq![
        ColumnKind::Utf8,
        ColumnKind::Utf8,
        ColumnKind::Utf8,
        ColumnKind::Float64,
        ColumnKind::Float64,
        ColumnKind::Float64,
        ColumnKind::Float64,
        ColumnKind::Int32,
        ColumnKind::Utf8,
    ]
}

/// The fixed schema of every partition file.
pub fn schema() -> (r: Vec<ColumnSpec>)
    ensures
        r.len() == 9,
        forall|k: int| 0 <= k < 9 ==> (#[trigger] r@[k]).name@ == schema_names()[k],
        forall|k: int| 0 <= k < 9 ==> (#[trigger] r@[k]).kind == schema_kinds()[k],
{
    let r = vec![
        ColumnSpec { name: "version", kind: ColumnKind::Utf8 },
        ColumnSpec { name: "name", kind: ColumnKind::Utf8 },
        ColumnSpec { name: "uuid", kind: ColumnKind::Utf8 },
        ColumnSpec { name: "latitude", kind: ColumnKind::Float64 },
        ColumnSpec { name: "longitude", kind: ColumnKind::Float64 },
        ColumnSpec { name: "altitude", kind: ColumnKind::Float64 },
        ColumnSpec { name: "course", kind: ColumnKind::Float64 },
        ColumnSpec { name: "speed", kind: ColumnKind::Int32 },
        ColumnSpec { name: "timestamp", kind: ColumnKind::Utf8 },
    ];
    r
}

/// Column buffers of one partition, in schema order. Floats are held as
/// their bit patterns; the timestamp column holds RFC 3339 texts.
pub struct ColumnBatch {
    pub version: Vec<String>,
    pub name: Vec<String>,
    pub uuid: Vec<String>,
    pub latitude_bits: Vec<u64>,
    pub longitude_bits: Vec<u64>,
    pub altitude_bits: Vec<u64>,
    pub course_bits: Vec<u64>,
    pub speed: Vec<i32>,
    pub timestamp: Vec<String>,
}

/// Row `k` of the batch holds the fields of `r`.
pub open spec fn row_holds(b: ColumnBatch, k: int, r: Record) -> bool {
    &&& b.version@[k]@ == r.version@
    &&& b.name@[k]@ == r.name@
    &&& b.uuid@[k]@ == r.uuid@
    &&& b.latitude_bits@[k] == r.latitude_bits
    &&& b.longitude_bits@[k] == r.longitude_bits
    &&& b.altitude_bits@[k] == r.altitude_bits
    &&& b.course_bits@[k] == r.course_bits
    &&& b.speed@[k] == r.speed
    &&& b.timestamp@[k]@ == r.timestamp.rfc3339@
}

/// Every column has one entry per row, and row `k` holds the record at
/// position `rows[k]` of `recs`.
pub open spec fn is_projection(b: ColumnBatch, recs: Seq<Record>, rows: Seq<usize>) -> bool {
    &&& b.version.len() == rows.len()
    &&& b.name.len() == rows.len()
    &&& b.uuid.len() == rows.len()
    &&& b.latitude_bits.len() == rows.len()
    &&& b.longitude_bits.len() == rows.len()
    &&& b.altitude_bits.len() == rows.len()
    &&& b.course_bits.len() == rows.len()
    &&& b.speed.len() == rows.len()
    &&& b.timestamp.len() == rows.len()
    &&& forall|k: int| 0 <= k < rows.len() ==> #[trigger] row_holds(b, k, recs[rows[k] as int])
}

impl ColumnBatch {
    /// The number of rows.
    pub fn row_count(&self) -> (r: usize)
        ensures
            r == self.version.len(),
    {
        self.version.len()
    }
}

/// Projects each field across the records at `rows`, in that order.
pub fn build_columns(recs: &Vec<Record>, rows: &Vec<usize>) -> (b: ColumnBatch)
    requires
        forall|k: int| 0 <= k < rows.len() ==> #[trigger] rows@[k] < recs.len(),
    ensures
        is_projection(b, recs@, rows@),
{
    let mut b = ColumnBatch {
        version: Vec::new(),
        name: Vec::new(),
        uuid: Vec::new(),
        latitude_bits: Vec::new(),
        longitude_bits: Vec::new(),
        altitude_bits: Vec::new(),
        course_bits: Vec::new(),
        speed: Vec::new(),
        timestamp: Vec::new(),
    };
    let m = rows.len();
    for k in 0..m
        invariant
            m == rows.len(),
            forall|q: int| 0 <= q < rows.len() ==> #[trigger] rows@[q] < recs.len(),
            b.version.len() == k,
            b.name.len() == k,
            b.uuid.len() == k,
            b.latitude_bits.len() == k,
            b.longitude_bits.len() == k,
            b.altitude_bits.len() == k,
            b.course_bits.len() == k,
            b.speed.len() == k,
            b.timestamp.len() == k,
            forall|q: int| 0 <= q < k ==> #[trigger] row_holds(b, q, recs@[rows@[q] as int]),
    {
        let ghost prev = b;
        let r = &recs[rows[k]];
        b.version.push(r.version.clone());
        b.name.push(r.name.clone());
        b.uuid.push(r.uuid.clone());
        b.latitude_bits.push(r.latitude_bits);
        b.longitude_bits.push(r.longitude_bits);
        b.altitude_bits.push(r.altitude_bits);
        b.course_bits.push(r.course_bits);
        b.speed.push(r.speed);
        b.timestamp.push(r.timestamp.rfc3339.clone());
        assert(row_holds(b, k as int, recs@[rows@[k as int] as int]));
        assert forall|q: int| 0 <= q < k + 1 implies #[trigger] row_holds(
            b,
            q,
            recs@[rows@[q] as int],
        ) by {
            if q < k {
                assert(row_holds(prev, q, recs@[rows@[q] as int]));
            }
        }
    }
    b
}

} // verus!
