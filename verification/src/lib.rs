//! Verified core of a CSV-to-chart utility.
//!
//! The crate parses rows of time-series basecalling metrics, sorts them
//! chronologically, and computes the complete layout and axis plan for a
//! five-panel line chart.  Numeric values travel as the 64-bit patterns of
//! double-precision values; the unverified shell around the crate turns
//! text into patterns on the way in and patterns into drawn pixels on the
//! way out.

pub mod bits;
pub mod csv_input;
pub mod error;
pub mod loader;
pub mod plan;
pub mod record;
