//! Turning a sequence of input lines into the records they hold.

use vstd::prelude::*;
use crate::record::Record;
use crate::json::{is_record_line, record_matches_line};

verus! {

/// The texts of the lines.
pub open spec fn line_texts(lines: Seq<String>) -> Seq<Seq<char>> {
    lines.map_values(|s: String| s@)
}

/// The lines that hold a record, in input order.
pub open spec fn record_lines(lines: Seq<Seq<char>>) -> Seq<Seq<char>> {
    lines.filter(|l: Seq<char>| is_record_line(l))
}

/// Parses every line and keeps the records, in input order; a line that is
/// not a record is dropped and the others go on.
pub fn parse_lines(lines: &Vec<String>) -> (r: Vec<Record>)
    ensures
        r.len() == record_lines(line_texts(lines@)).len(),
        forall|i: int|
            0 <= i < r.len() ==> record_matches_line(
                #[trigger] r@[i],
                record_lines(line_texts(lines@))[i],
            ),
{
    let mut out: Vec<Record> = Vec::new();
    let n = lines.len();
    for i in 0..n
        invariant
            n == lines.len(),
            out.len() == record_lines(line_texts(lines@).take(i as int)).len(),
            forall|k: int|
                0 <= k < out.len() ==> record_matches_line(
                    #[trigger] out@[k],
                    record_lines(line_texts(lines@).take(i as int))[k],
                ),
    {
        let ghost before = line_texts(lines@).take(i as int);
        let ghost after = line_texts(lines@).take(i + 1);
        proof {
            assert(after.drop_last() =~= before);
            assert(after.last() == lines@[i as int]@);
            reveal(Seq::filter);
        }
        match Record::parse(lines[i].as_str()) {
            Some(rec) => {
                out.push(rec);
            },
            None => {},
        }
    }
    proof {
        assert(line_texts(lines@).take(n as int) =~= line_texts(lines@));
    }
    out
}

} // verus!
