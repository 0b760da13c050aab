//! The error kinds of the pipeline, one per failure the loader or the
//! renderer can report.  Opening the input, writing the image and drawing
//! failures of the chart backend happen outside the verified core and are
//! reported by the caller.

use vstd::prelude::*;
use crate::record::Field;

verus! {

/// Why loading or planning failed.
///
/// - `Csv`: the raw CSV text could not be decoded into rows; carries the
///   decoder's message.
/// - `MissingField`: a data row ends before the named field's column.
/// - `ParseError`: the named field's column is not a numeric literal.
/// - `NanTime`: a row's time parsed as NaN, which has no place in the
///   chronological order.
/// - `EmptyDataset`: no data rows, so no axis bounds exist.
#[derive(Clone, Debug, PartialEq)]
pub enum ChartError {
    Csv(String),
    MissingField(Field),
    ParseError(Field),
    NanTime,
    EmptyDataset,
}

} // verus!
