//! The shape shared by the system monitors' CSV export.

use vstd::prelude::*;

verus! {

/// An object that exports what it monitors as CSV.
pub trait CCsvFormat {
    /// Identifies the host that the rows describe.
    fn system_id() -> String;

    /// The header row.
    fn csv_header(&self) -> String;

    /// One row per monitored item, each ending in a newline.
    fn as_csv(&self) -> String;
}

} // verus!
