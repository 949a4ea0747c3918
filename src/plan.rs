//! From input lines to what is to be written: one partition directory and
//! one column batch per partition.

use vstd::prelude::*;
use vstd::string::StringExecFns;
use crate::record::Record;
use crate::json::record_matches_line;
use crate::stream::{parse_lines, record_lines, line_texts};
use crate::partition::{PartitionGroup, group_records, is_partitioning, total_rows};
use crate::columns::{ColumnBatch, build_columns, is_projection};

verus! {

/// Why an ingestion cannot proceed.
#[derive(PartialEq, Eq, Structural, Debug)]
pub enum IngestError {
    /// Not one line of the input held a valid record.
    EmptyInput,
}

impl IngestError {
    /// A message for the user.
    pub fn message(&self) -> (r: &'static str)
        ensures
            r@ == "No valid records found in input"@,
    {
        "No valid records found in input"
    }
}

/// The work of one ingestion: the records, their groups, and for the group
/// at each position the column batch at the same position.
pub struct PartitionPlan {
    pub records: Vec<Record>,
    pub groups: Vec<PartitionGroup>,
    pub batches: Vec<ColumnBatch>,
}

/// `p` groups its records by partition path and holds, for each group, the
/// projection of that group's records.
pub open spec fn is_plan_of(p: PartitionPlan) -> bool {
    &&& is_partitioning(p.records@, p.groups@)
    &&& total_rows(p.groups@) == p.records.len()
    &&& p.batches.len() == p.groups.len()
    &&& forall|j: int|
        0 <= j < p.groups.len() ==> #[trigger] is_projection(
            p.batches@[j],
            p.records@,
            p.groups@[j].rows@,
        )
}

/// The name of the file within a partition directory.
pub open spec fn data_file_name() -> Seq<char> {
    "data.parquet"@
}

impl PartitionGroup {
    /// The file of this partition, relative to the output root.
    pub fn file_path(&self) -> (r: String)
        ensures
            r@ == self.path@ + "/"@ + data_file_name(),
    {
        let mut s = self.path.clone();
        s.append("/");
        s.append("data.parquet");
        s
    }
}

/// Groups the records and projects each group's columns; fails with
/// `EmptyInput` exactly when there are no records.
pub fn plan_partitions(records: Vec<Record>) -> (r: Result<PartitionPlan, IngestError>)
    ensures
        r is Err <==> records.len() == 0,
        r is Err ==> r->Err_0 == IngestError::EmptyInput,
        r is Ok ==> r->Ok_0.records@ == records@ && is_plan_of(r->Ok_0),
{
    if records.len() == 0 {
        return Err(IngestError::EmptyInput);
    }
    let groups = group_records(&records);
    let mut batches: Vec<ColumnBatch> = Vec::new();
    let n = groups.len();
    for j in 0..n
        invariant
            n == groups.len(),
            is_partitioning(records@, groups@),
            batches.len() == j,
            forall|q: int|
                0 <= q < j ==> #[trigger] is_projection(
                    batches@[q],
                    records@,
                    groups@[q].rows@,
                ),
    {
        proof {
            let g = groups@[j as int];
            assert forall|k: int| 0 <= k < g.rows.len() implies #[trigger] g.rows@[k]
                < records.len() by {
                crate::partition::lemma_rows_with_path_contains(
                    records@,
                    records.len() as int,
                    g.path@,
                    g.rows@[k],
                );
                assert(g.rows@.contains(g.rows@[k]));
            }
        }
        let b = build_columns(&records, &groups[j].rows);
        batches.push(b);
    }
    Ok(PartitionPlan { records, groups, batches })
}

/// Parses the lines, drops those that hold no record, and plans the
/// partitions of the rest; fails with `EmptyInput` exactly when no line
/// holds a record.
pub fn ingest_lines(lines: &Vec<String>) -> (r: Result<PartitionPlan, IngestError>)
    ensures
        r is Err <==> record_lines(line_texts(lines@)).len() == 0,
        r is Err ==> r->Err_0 == IngestError::EmptyInput,
        r is Ok ==> is_plan_of(r->Ok_0) && r->Ok_0.records.len() == record_lines(
            line_texts(lines@),
        ).len() && forall|i: int|
            0 <= i < r->Ok_0.records.len() ==> record_matches_line(
                #[trigger] r->Ok_0.records@[i],
                record_lines(line_texts(lines@))[i],
            ),
{
    let records = parse_lines(lines);
    plan_partitions(records)
}

} // verus!
