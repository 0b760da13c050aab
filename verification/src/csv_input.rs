//! Decoding raw CSV text into rows of cells.
//!
//! The decoding itself is done by the `csv` crate on an in-memory byte
//! slice; its result is named by the uninterpreted function `csv_rows_of`,
//! since the CSV grammar (quoting, escaping) is far too large to restate
//! here.  The reader is configured with a header row (skipped) and flexible
//! record lengths, so short data rows surface later as missing fields
//! rather than as decoder errors.

use vstd::prelude::*;
use crate::error::ChartError;

verus! {

/// The rows of cells that decoding these bytes yields — the first (header)
/// row skipped — or nothing when the bytes cannot be decoded.
pub uninterp spec fn csv_rows_of(bytes: Seq<u8>) -> Option<Seq<Seq<Seq<char>>>>;

/// Relies on `csv::ReaderBuilder` / `csv::Reader`: decoding an in-memory
/// byte slice with a header row and flexible record lengths is a function
/// of the bytes alone; `records()` yields exactly the data rows, and fails
/// only on undecodable input.
#[verifier::external_body]
fn csv_rows(bytes: &[u8]) -> (r: Result<Vec<Vec<String>>, String>)
    ensures
        r matches Ok(rows) ==> csv_rows_of(bytes@) == Some(rows.deep_view()),
        (r is Ok) <==> (csv_rows_of(bytes@) is Some),
{
    let mut rdr = csv::ReaderBuilder::new().flexible(true).from_reader(bytes);
    let mut rows: Vec<Vec<String>> = Vec::new();
    for record in rdr.records() {
        match record {
            Ok(sr) => rows.push(sr.iter().map(|cell| cell.to_string()).collect()),
            Err(e) => {
                return Err(format!("{}", e));
            },
        }
    }
    Ok(rows)
}

/// Decodes raw CSV text into its data rows, reporting an undecodable input
/// as a `Csv` error that carries the decoder's message.
pub fn rows_from_bytes(bytes: &[u8]) -> (r: Result<Vec<Vec<String>>, ChartError>)
    ensures
        r matches Ok(rows) ==> csv_rows_of(bytes@) == Some(rows.deep_view()),
        (r is Ok) <==> (csv_rows_of(bytes@) is Some),
        r matches Err(e) ==> e matches ChartError::Csv(_),
{
    match csv_rows(bytes) {
        Ok(rows) => Ok(rows),
        Err(message) => Err(ChartError::Csv(message)),
    }
}

/// Hands out the cell a field is read from, when the row reaches its
/// column: the cell at the field's fixed index.
pub fn row_cell<'a>(row: &'a Vec<String>, f: crate::record::Field) -> (r: Option<&'a String>)
    ensures
        (r is Some) <==> crate::record::csv_index_spec(f) < row@.len(),
        r matches Some(cell) ==> cell@ == row@[crate::record::csv_index_spec(f) as int]@,
{
    let i = crate::record::csv_index(f);
    if i < row.len() {
        Some(&row[i])
    } else {
        None
    }
}

} // verus!
