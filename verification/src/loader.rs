//! Turning decoded CSV rows into the sorted sequence of `Record`s.
//!
//! The numeric reading of each required cell happens outside the verified
//! core (double-precision literals cannot be handled here); the caller hands
//! in one `CellOutcome` per required field, in field order, and this module
//! does everything else: it reports the first missing or malformed field of
//! the first bad row, rejects NaN times, and sorts the records
//! chronologically.

use vstd::prelude::*;
use crate::bits::{is_nan_bits, le_bits, nan_bits, bits_lt};
use crate::error::ChartError;
use crate::record::{Record, FIELD_COUNT, field_of_slot, field_of_slot_spec};

verus! {

/// What became of one required cell of a row: the column was absent, its
/// text was not a numeric literal, or it carried this bit pattern.
#[derive(Clone, Copy, Debug, PartialEq, Eq, Structural)]
pub enum CellOutcome {
    Missing,
    NotNumeric,
    Value(u64),
}

/// The pattern a cell carries (meaningful only for `Value` cells).
pub open spec fn cell_value(c: CellOutcome) -> u64 {
    match c {
        CellOutcome::Value(v) => v,
        _ => 0,
    }
}

/// Every required cell of the row carries a value.
pub open spec fn row_ok(cells: Seq<CellOutcome>) -> bool {
    forall|k: int| 0 <= k < cells.len() ==> (#[trigger] cells[k]) is Value
}

/// The record a fully parsed row denotes, fields in reading order.
pub open spec fn record_from_cells(cells: Seq<CellOutcome>) -> Record {
    Record {
        time: cell_value(cells[0]),
        samples: cell_value(cells[1]),
        bases: cell_value(cells[2]),
        mean_qscore: cell_value(cells[3]),
        time_to_package_and_send: cell_value(cells[4]),
        time_in_basecaller: cell_value(cells[5]),
    }
}

/// The error a bad cell in reading position `k` provokes.
pub open spec fn cell_error(k: int, c: CellOutcome) -> ChartError {
    match c {
        CellOutcome::Missing => ChartError::MissingField(field_of_slot_spec(k)),
        CellOutcome::NotNumeric => ChartError::ParseError(field_of_slot_spec(k)),
        CellOutcome::Value(_) => vstd::pervasive::arbitrary(),
    }
}

/// `e` is the error of the first bad cell of the row.
pub open spec fn cells_error(cells: Seq<CellOutcome>, e: ChartError) -> bool {
    exists|k: int|
        #![auto]
        0 <= k < cells.len() && !(cells[k] is Value) && (forall|j: int|
            0 <= j < k ==> (#[trigger] cells[j]) is Value) && e == cell_error(
            k,
            cells[k],
        )
}

/// Reads one row's six cell outcomes, in field order.  Succeeds exactly when
/// every cell carries a value; otherwise reports the first bad cell, a
/// missing column as `MissingField` and a malformed one as `ParseError`.
pub fn record_of_cells(cells: &Vec<CellOutcome>) -> (r: Result<Record, ChartError>)
    requires
        cells@.len() == FIELD_COUNT,
    ensures
        (r is Ok) <==> row_ok(cells@),
        r matches Ok(rec) ==> rec == record_from_cells(cells@),
        r matches Err(e) ==> cells_error(cells@, e),
{
    let mut vals: Vec<u64> = Vec::new();
    for k in 0..FIELD_COUNT
        invariant
            cells@.len() == FIELD_COUNT,
            vals@.len() == k,
            forall|j: int|
                0 <= j < k ==> (#[trigger] cells@[j]) is Value && vals@[j]
                    == cell_value(cells@[j]),
    {
        match cells[k] {
            CellOutcome::Value(v) => vals.push(v),
            CellOutcome::Missing => {
                return Err(ChartError::MissingField(field_of_slot(k)));
            },
            CellOutcome::NotNumeric => {
                return Err(ChartError::ParseError(field_of_slot(k)));
            },
        }
    }
    Ok(
        Record {
            time: vals[0],
            samples: vals[1],
            bases: vals[2],
            mean_qscore: vals[3],
            time_to_package_and_send: vals[4],
            time_in_basecaller: vals[5],
        },
    )
}

/// Chronological order: every record's time at or below every later one's.
pub open spec fn sorted_by_time(s: Seq<Record>) -> bool {
    forall|i: int, j: int|
        #![trigger s[i], s[j]]
        0 <= i <= j < s.len() ==> le_bits(s[i].time, s[j].time)
}

/// Every row of the batch is fully parsed.
pub open spec fn rows_all_ok(rows: Seq<Vec<CellOutcome>>) -> bool {
    forall|i: int| 0 <= i < rows.len() ==> row_ok((#[trigger] rows[i])@)
}

/// The records the batch denotes, in input order.
pub open spec fn records_of(rows: Seq<Vec<CellOutcome>>) -> Seq<Record> {
    rows.map_values(|rv: Vec<CellOutcome>| record_from_cells(rv@))
}

/// No record's time is a NaN pattern.
pub open spec fn no_nan_time(rows: Seq<Vec<CellOutcome>>) -> bool {
    forall|i: int|
        0 <= i < rows.len() ==> !is_nan_bits(record_from_cells((#[trigger] rows[i])@).time)
}

/// Sorts the records chronologically in place: afterwards the sequence is
/// sorted by time and holds exactly the records it held before.
pub fn sort_records(v: &mut Vec<Record>)
    ensures
        sorted_by_time(final(v)@),
        final(v)@.to_multiset() == old(v)@.to_multiset(),
        final(v)@.len() == old(v)@.len(),
{
    broadcast use vstd::seq_lib::group_to_multiset_ensures;

    let n = v.len();
    if n == 0 {
        return ;
    }
    let mut i: usize = 1;
    while i < n
        invariant
            1 <= i <= n,
            n == v@.len(),
            forall|a: int, b: int|
                #![trigger v@[a], v@[b]]
                0 <= a <= b < i ==> le_bits(v@[a].time, v@[b].time),
            v@.to_multiset() == old(v)@.to_multiset(),
        decreases n - i,
    {
        let mut j: usize = i;
        while j > 0 && bits_lt(v[j].time, v[j - 1].time)
            invariant
                0 <= j <= i < n,
                n == v@.len(),
                v@.to_multiset() == old(v)@.to_multiset(),
                forall|a: int, b: int|
                    #![trigger v@[a], v@[b]]
                    0 <= a <= b <= i && b != j ==> le_bits(v@[a].time, v@[b].time),
            decreases j,
        {
            let ghost pre = v@;
            let lower = v[j - 1];
            let upper = v[j];
            v.set(j - 1, upper);
            v.set(j, lower);
            proof {
                broadcast use vstd::seq_lib::group_to_multiset_ensures;

                let ms = pre.to_multiset();
                assert(pre[j - 1] == lower && pre[j as int] == upper);
                assert(pre.contains(lower) && pre.contains(upper));
                assert(ms.count(lower) > 0 && ms.count(upper) > 0);
                assert(v@ == pre.update(j - 1, upper).update(j as int, lower));
                assert(pre.update(j - 1, upper)[j as int] == upper);
                assert(pre.update(j - 1, upper).to_multiset() == ms.insert(upper).remove(lower));
                assert(v@.to_multiset() == ms.insert(upper).remove(lower).insert(lower).remove(
                    upper,
                ));
                assert(v@.to_multiset() =~= ms);
            }
            j = j - 1;
        }
        proof {
            assert(forall|a: int, b: int|
                #![trigger v@[a], v@[b]]
                0 <= a <= b <= i ==> le_bits(v@[a].time, v@[b].time));
        }
        i = i + 1;
    }
}

/// Loads a whole batch: parses every row in order, rejects NaN times, and
/// returns the records sorted chronologically.  The first bad row aborts the
/// load with that row's error and no partial dataset; a NaN time is reported
/// only when every row parsed.
pub fn load_records(rows: &Vec<Vec<CellOutcome>>) -> (r: Result<Vec<Record>, ChartError>)
    requires
        forall|i: int| 0 <= i < rows@.len() ==> (#[trigger] rows@[i])@.len() == FIELD_COUNT,
    ensures
        (r is Ok) <==> (rows_all_ok(rows@) && no_nan_time(rows@)),
        r matches Ok(d) ==> sorted_by_time(d@) && d@.to_multiset() == records_of(
            rows@,
        ).to_multiset() && d@.len() == rows@.len(),
        r matches Err(e) ==> ((e matches ChartError::MissingField(_)) || (e
            matches ChartError::ParseError(_)) || e == ChartError::NanTime),
        r matches Err(e) ==> (e == ChartError::NanTime || exists|i: int|
            #![auto]
            0 <= i < rows@.len() && (forall|i2: int|
                0 <= i2 < i ==> row_ok((#[trigger] rows@[i2])@)) && cells_error(rows@[i]@, e)),
        (r == Err::<Vec<Record>, ChartError>(ChartError::NanTime)) ==> rows_all_ok(rows@) && !no_nan_time(rows@),
{
    let n = rows.len();
    let mut data: Vec<Record> = Vec::new();
    for i in 0..n
        invariant
            n == rows@.len(),
            forall|i2: int| 0 <= i2 < n ==> (#[trigger] rows@[i2])@.len() == FIELD_COUNT,
            data@ == records_of(rows@).take(i as int),
            forall|i2: int| 0 <= i2 < i ==> row_ok((#[trigger] rows@[i2])@),
    {
        match record_of_cells(&rows[i]) {
            Ok(rec) => {
                data.push(rec);
                proof {
                    assert(data@ =~= records_of(rows@).take(i + 1));
                }
            },
            Err(e) => {
                return Err(e);
            },
        }
    }
    proof {
        assert(data@ =~= records_of(rows@));
    }
    let mut i: usize = 0;
    while i < n
        invariant
            n == rows@.len(),
            data@ == records_of(rows@),
            rows_all_ok(rows@),
            forall|i2: int|
                0 <= i2 < i ==> !is_nan_bits(record_from_cells((#[trigger] rows@[i2])@).time),
        decreases n - i,
    {
        if nan_bits(data[i].time) {
            return Err(ChartError::NanTime);
        }
        i = i + 1;
    }
    sort_records(&mut data);
    Ok(data)
}

} // verus!
