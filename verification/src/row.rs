//! The synthetic row driven by a task id: `pk = id`, `v1 = 2*id`,
//! `v2 = 3*id`. The content is computable without I/O, so a read can be
//! verified against the formula with no oracle.

use vstd::prelude::*;

verus! {

/// One row of the bench table; the columns are CQL `bigint`s.
#[derive(Clone, Copy, Debug, PartialEq, Eq, Structural)]
pub struct Row {
    pub pk: i64,
    pub v1: i64,
    pub v2: i64,
}

/// The deterministic content the bench writes for task `id` and expects
/// every read of `pk = id` to return.
pub open spec fn row_for(id: u64) -> Row {
    Row { pk: id as i64, v1: (2 * id) as i64, v2: (3 * id) as i64 }
}

/// A task id small enough that all three columns fit in an `i64`.
pub open spec fn id_in_i64_range(id: u64) -> bool {
    3 * (id as int) <= i64::MAX as int
}

/// Builds the row for task `id`.
pub fn build_row(id: u64) -> (r: Row)
    requires
        id_in_i64_range(id),
    ensures
        r == row_for(id),
        r.pk == id as int,
        r.v1 == 2 * (id as int),
        r.v2 == 3 * (id as int),
{
    Row { pk: id as i64, v1: 2 * (id as i64), v2: 3 * (id as i64) }
}

/// Whether a row read back for task `id` carries exactly the content the
/// formula dictates. Anything else is a verification fault, not a
/// transient error.
pub fn row_matches(row: &Row, id: u64) -> (r: bool)
    requires
        id_in_i64_range(id),
    ensures
        r == (*row == row_for(id)),
{
    row.pk == id as i64 && row.v1 == 2 * (id as i64) && row.v2 == 3 * (id as i64)
}

} // verus!
