//! One observation of an entity, as the ingestion reads it.
//!
//! Floating-point fields are held as their IEEE 754 bit patterns, so that a
//! value goes through the library bit for bit.

use vstd::prelude::*;
use vstd::string::StringExecFns;
use crate::text::{padded_decimal, year_text, append_padded, append_year};

verus! {

/// An instant in UTC, split into its calendar fields, together with its
/// RFC 3339 rendering (offset `+00:00`, sub-second digits as parsed).
pub struct UtcTimestamp {
    pub year: i32,
    pub month: u32,
    pub day: u32,
    pub hour: u32,
    pub minute: u32,
    pub second: u32,
    pub nanosecond: u32,
    pub rfc3339: String,
}

impl UtcTimestamp {
    /// The fields lie in the ranges of a calendar date and a time of day; a
    /// nanosecond count from one to two billion marks a leap second.
    pub open spec fn wf(&self) -> bool {
        &&& 1 <= self.month <= 12
        &&& 1 <= self.day <= 31
        &&& self.hour <= 23
        &&& self.minute <= 59
        &&& self.second <= 59
        &&& self.nanosecond < 2_000_000_000
    }
}

/// A number below 100, written with exactly two digits.
pub proof fn lemma_two_digits(n: nat)
    requires
        n < 100,
    ensures
        padded_decimal(n, 2) == seq![crate::text::digit_char(n / 10), crate::text::digit_char(n % 10)],
{
    reveal_with_fuel(padded_decimal, 3);
    assert(padded_decimal(n, 2) =~= seq![crate::text::digit_char(n / 10), crate::text::digit_char(n % 10)]);
}

/// An observation. `latitude_bits` and its neighbours are the bit patterns
/// of 64-bit floats.
pub struct Record {
    pub version: String,
    pub name: String,
    pub uuid: String,
    pub latitude_bits: u64,
    pub longitude_bits: u64,
    pub altitude_bits: u64,
    pub course_bits: u64,
    pub speed: i32,
    pub timestamp: UtcTimestamp,
}

/// The canonical partition path of a record:
/// `name=<name>/year=<yyyy>/month=<mm>/day=<dd>`. The name is not escaped,
/// so a name holding `/` yields extra path levels.
pub open spec fn partition_path(r: Record) -> Seq<char> {
    key_path(
        r.name@,
        year_text(r.timestamp.year as int),
        padded_decimal(r.timestamp.month as nat, 2),
        padded_decimal(r.timestamp.day as nat, 2),
    )
}

impl Record {
    /// The UTC year, as `%Y` writes it.
    pub fn year(&self) -> (r: String)
        ensures
            r@ == year_text(self.timestamp.year as int),
    {
        let mut s = String::new();
        append_year(&mut s, self.timestamp.year);
        assert(s@ =~= year_text(self.timestamp.year as int));
        s
    }

    /// The UTC month, two digits.
    pub fn month(&self) -> (r: String)
        ensures
            r@ == padded_decimal(self.timestamp.month as nat, 2),
            self.timestamp.wf() ==> r@ == seq![
                crate::text::digit_char(self.timestamp.month as nat / 10),
                crate::text::digit_char(self.timestamp.month as nat % 10),
            ],
    {
        let mut s = String::new();
        append_padded(&mut s, self.timestamp.month, 2);
        assert(s@ =~= padded_decimal(self.timestamp.month as nat, 2));
        if self.timestamp.month < 100 {
            proof {
                lemma_two_digits(self.timestamp.month as nat);
            }
        }
        s
    }

    /// The UTC day of the month, two digits.
    pub fn day(&self) -> (r: String)
        ensures
            r@ == padded_decimal(self.timestamp.day as nat, 2),
            self.timestamp.wf() ==> r@ == seq![
                crate::text::digit_char(self.timestamp.day as nat / 10),
                crate::text::digit_char(self.timestamp.day as nat % 10),
            ],
    {
        let mut s = String::new();
        append_padded(&mut s, self.timestamp.day, 2);
        assert(s@ =~= padded_decimal(self.timestamp.day as nat, 2));
        if self.timestamp.day < 100 {
            proof {
                lemma_two_digits(self.timestamp.day as nat);
            }
        }
        s
    }

    /// The partition key: the name and the zero-padded UTC date fields.
    pub fn partition_key(&self) -> (k: PartitionKey)
        ensures
            k.name@ == self.name@,
            k.year@ == year_text(self.timestamp.year as int),
            k.month@ == padded_decimal(self.timestamp.month as nat, 2),
            k.day@ == padded_decimal(self.timestamp.day as nat, 2),
            self.timestamp.wf() ==> k.month@.len() == 2 && k.day@.len() == 2,
    {
        PartitionKey {
            name: self.name.clone(),
            year: self.year(),
            month: self.month(),
            day: self.day(),
        }
    }

    /// The relative directory of this record's partition.
    pub fn partition_path(&self) -> (r: String)
        ensures
            r@ == partition_path(*self),
    {
        self.partition_key().canonical_path()
    }
}

/// The partition of a record: its name and its UTC year, month and day as
/// they appear in the path.
pub struct PartitionKey {
    pub name: String,
    pub year: String,
    pub month: String,
    pub day: String,
}

/// `name=<name>/year=<yyyy>/month=<mm>/day=<dd>` of the key's parts.
pub open spec fn key_path(name: Seq<char>, year: Seq<char>, month: Seq<char>, day: Seq<char>) -> Seq<char> {
    "name="@ + name + "/year="@ + year + "/month="@ + month + "/day="@ + day
}

impl PartitionKey {
    /// The canonical form of the key, used both to group records and as a
    /// relative directory. The name is not escaped.
    pub fn canonical_path(&self) -> (r: String)
        ensures
            r@ == key_path(self.name@, self.year@, self.month@, self.day@),
    {
        let mut s = String::from_str("name=");
        s.append(self.name.as_str());
        s.append("/year=");
        s.append(self.year.as_str());
        s.append("/month=");
        s.append(self.month.as_str());
        s.append("/day=");
        s.append(self.day.as_str());
        s
    }
}

/// Records with the same name and the same UTC calendar date share a
/// partition, whatever their time of day and other fields.
pub proof fn lemma_same_day_same_partition(a: Record, b: Record)
    requires
        a.name@ == b.name@,
        a.timestamp.year == b.timestamp.year,
        a.timestamp.month == b.timestamp.month,
        a.timestamp.day == b.timestamp.day,
    ensures
        partition_path(a) == partition_path(b),
{
}

} // verus!
