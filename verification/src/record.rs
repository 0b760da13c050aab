//! The data model: one `Record` per CSV data row, plus the fixed table of
//! required columns.
//!
//! Every numeric field is stored as the 64-bit pattern of a double-precision
//! value (see `crate::bits`).  The column positions are a deliberate,
//! documented contract with the producing pipeline: columns are found by
//! fixed index, never by header name, so reordered input silently changes
//! meaning — a known fragility of the format, preserved on purpose.

use vstd::prelude::*;

verus! {

/// How many leading columns a data row must have: the highest required
/// column index is 8, so at least 9 columns are needed.
pub const REQUIRED_COLUMNS: usize = 9;

/// How many fields a `Record` holds.
pub const FIELD_COUNT: usize = 6;

/// How many metric panels the chart has (every field except `Time`).
pub const PANEL_COUNT: usize = 5;

/// The six fields read from a data row.
#[derive(Clone, Copy, Debug, PartialEq, Eq, Structural)]
pub enum Field {
    Time,
    Samples,
    Bases,
    MeanQscore,
    TimeToPackageAndSend,
    TimeInBasecaller,
}

/// One measurement sample: the sort key `time` and five metric values, each
/// a double-precision bit pattern.
#[derive(Clone, Copy, Debug, PartialEq, Eq, Structural)]
pub struct Record {
    pub time: u64,
    pub samples: u64,
    pub bases: u64,
    pub mean_qscore: u64,
    pub time_to_package_and_send: u64,
    pub time_in_basecaller: u64,
}

/// The zero-based column each field is read from: 2, 3, 4, 6, 7, 8 in field
/// order (columns 0, 1 and 5 are ignored).
pub open spec fn csv_index_spec(f: Field) -> usize {
    match f {
        Field::Time => 2,
        Field::Samples => 3,
        Field::Bases => 4,
        Field::MeanQscore => 6,
        Field::TimeToPackageAndSend => 7,
        Field::TimeInBasecaller => 8,
    }
}

/// Runtime lookup of a field's column index.
pub fn csv_index(f: Field) -> (i: usize)
    ensures
        i == csv_index_spec(f),
{
    match f {
        Field::Time => 2,
        Field::Samples => 3,
        Field::Bases => 4,
        Field::MeanQscore => 6,
        Field::TimeToPackageAndSend => 7,
        Field::TimeInBasecaller => 8,
    }
}

/// The order fields are read in (the order of the `Record` fields).
pub open spec fn field_of_slot_spec(k: int) -> Field {
    if k == 0 {
        Field::Time
    } else if k == 1 {
        Field::Samples
    } else if k == 2 {
        Field::Bases
    } else if k == 3 {
        Field::MeanQscore
    } else if k == 4 {
        Field::TimeToPackageAndSend
    } else {
        Field::TimeInBasecaller
    }
}

/// Runtime lookup of the field read in position `k`.
pub fn field_of_slot(k: usize) -> (f: Field)
    requires
        k < FIELD_COUNT,
    ensures
        f == field_of_slot_spec(k as int),
{
    if k == 0 {
        Field::Time
    } else if k == 1 {
        Field::Samples
    } else if k == 2 {
        Field::Bases
    } else if k == 3 {
        Field::MeanQscore
    } else if k == 4 {
        Field::TimeToPackageAndSend
    } else {
        Field::TimeInBasecaller
    }
}

/// The metric drawn in panel `k`, top to bottom: every field except `Time`,
/// in field order.
pub open spec fn panel_field_spec(k: int) -> Field {
    field_of_slot_spec(k + 1)
}

/// Runtime lookup of the metric drawn in panel `k`.
pub fn panel_field(k: usize) -> (f: Field)
    requires
        k < PANEL_COUNT,
    ensures
        f == panel_field_spec(k as int),
{
    field_of_slot(k + 1)
}

/// The value a record holds for a field.
pub open spec fn field_value_spec(r: Record, f: Field) -> u64 {
    match f {
        Field::Time => r.time,
        Field::Samples => r.samples,
        Field::Bases => r.bases,
        Field::MeanQscore => r.mean_qscore,
        Field::TimeToPackageAndSend => r.time_to_package_and_send,
        Field::TimeInBasecaller => r.time_in_basecaller,
    }
}

/// Runtime access to the value a record holds for a field.
pub fn field_value(r: &Record, f: Field) -> (v: u64)
    ensures
        v == field_value_spec(*r, f),
{
    match f {
        Field::Time => r.time,
        Field::Samples => r.samples,
        Field::Bases => r.bases,
        Field::MeanQscore => r.mean_qscore,
        Field::TimeToPackageAndSend => r.time_to_package_and_send,
        Field::TimeInBasecaller => r.time_in_basecaller,
    }
}

/// The name a field carries in the input format, used in error messages.
pub open spec fn field_name_spec(f: Field) -> Seq<char> {
    match f {
        Field::Time => "batch_time"@,
        Field::Samples => "samples"@,
        Field::Bases => "bases"@,
        Field::MeanQscore => "mean_qscore"@,
        Field::TimeToPackageAndSend => "time_to_package_and_send"@,
        Field::TimeInBasecaller => "time_in_basecaller"@,
    }
}

/// Runtime copy of a field's input-format name.
pub fn field_name(f: Field) -> (s: String)
    ensures
        s@ == field_name_spec(f),
{
    match f {
        Field::Time => String::from_str("batch_time"),
        Field::Samples => String::from_str("samples"),
        Field::Bases => String::from_str("bases"),
        Field::MeanQscore => String::from_str("mean_qscore"),
        Field::TimeToPackageAndSend => String::from_str("time_to_package_and_send"),
        Field::TimeInBasecaller => String::from_str("time_in_basecaller"),
    }
}

/// The display name a field carries on the chart: the panel caption and
/// y-axis label of its panel, and for `Time` the shared x-axis label.
pub open spec fn field_title_spec(f: Field) -> Seq<char> {
    match f {
        Field::Time => "Batch Time"@,
        Field::Samples => "Samples"@,
        Field::Bases => "Bases"@,
        Field::MeanQscore => "Mean Q-score"@,
        Field::TimeToPackageAndSend => "Time to Package"@,
        Field::TimeInBasecaller => "Time in Basecaller"@,
    }
}

/// Runtime copy of a field's display name.
pub fn field_title(f: Field) -> (s: String)
    ensures
        s@ == field_title_spec(f),
{
    match f {
        Field::Time => String::from_str("Batch Time"),
        Field::Samples => String::from_str("Samples"),
        Field::Bases => String::from_str("Bases"),
        Field::MeanQscore => String::from_str("Mean Q-score"),
        Field::TimeToPackageAndSend => String::from_str("Time to Package"),
        Field::TimeInBasecaller => String::from_str("Time in Basecaller"),
    }
}

} // verus!
