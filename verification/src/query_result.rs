//! Assembly of one uniformly typed result set from the rows the driver
//! materialized for a single SQL statement.
//!
//! Column names come from the first row's metadata alone: when the
//! statement produced no rows, both the column list and the row list are
//! empty. Column order and row order mirror the database's result order
//! end to end; nothing is re-sorted.

use vstd::prelude::*;
use crate::JsonValue;
use crate::coerce::{RawCell, coerce, coerce_spec};

verus! {

/// The result of executing one SQL statement: ordered column names,
/// ordered rows of JSON-safe values, the row count, and the elapsed time
/// in whole milliseconds as the boundary layer measured it.
#[derive(Debug, Clone, PartialEq)]
pub struct QueryResult {
    pub columns: Vec<String>,
    pub rows: Vec<Vec<JsonValue>>,
    pub row_count: usize,
    pub execution_time_ms: u128,
}

/// The result-set invariant: the row count equals the number of rows,
/// a result with no rows has no columns, and every row has exactly one
/// value per column.
pub open spec fn result_well_formed(q: QueryResult) -> bool {
    &&& q.row_count == q.rows@.len()
    &&& (q.rows@.len() == 0 ==> q.columns@.len() == 0)
    &&& forall|i: int|
        0 <= i < q.rows@.len() ==> (#[trigger] q.rows@[i])@.len() == q.columns@.len()
}

/// Build the result set for one statement from the first row's column
/// names, the probe outcomes of every cell, and the measured elapsed
/// time. Each cell is coerced under the documented probe order; when no
/// rows came back the column list is empty whatever the driver reported
/// as metadata.
///
/// Rows with heterogeneous widths cannot come out of a single SQL
/// statement and are out of scope: every row must be as wide as the
/// first row's metadata.
pub fn build_query_result(
    column_names: Vec<String>,
    raw_rows: Vec<Vec<RawCell>>,
    elapsed_ms: u128,
) -> (q: QueryResult)
    requires
        forall|i: int|
            0 <= i < raw_rows@.len() ==> (#[trigger] raw_rows@[i])@.len() == column_names@.len(),
    ensures
        q.execution_time_ms == elapsed_ms,
        q.row_count == raw_rows@.len(),
        q.columns@ == (if raw_rows@.len() == 0 {
            Seq::<String>::empty()
        } else {
            column_names@
        }),
        q.rows@.len() == raw_rows@.len(),
        forall|i: int, j: int|
            0 <= i < raw_rows@.len() && 0 <= j < raw_rows@[i]@.len() ==> (#[trigger] q.rows@[i]@[j])
                == coerce_spec(raw_rows@[i]@[j]),
        result_well_formed(q),
{
    let row_count = raw_rows.len();
    let mut out_rows: Vec<Vec<JsonValue>> = Vec::new();
    let mut i: usize = 0;
    while i < raw_rows.len()
        invariant
            i <= raw_rows@.len(),
            out_rows@.len() == i,
            forall|k: int|
                0 <= k < i ==> (#[trigger] out_rows@[k])@.len() == raw_rows@[k]@.len(),
            forall|k: int, l: int|
                0 <= k < i && 0 <= l < raw_rows@[k]@.len() ==> (#[trigger] out_rows@[k]@[l])
                    == coerce_spec(raw_rows@[k]@[l]),
        decreases raw_rows@.len() - i,
    {
        let row = &raw_rows[i];
        let mut out_row: Vec<JsonValue> = Vec::new();
        let mut j: usize = 0;
        while j < row.len()
            invariant
                j <= row@.len(),
                out_row@.len() == j,
                row == raw_rows@[i as int],
                i < raw_rows@.len(),
                forall|l: int|
                    0 <= l < j ==> (#[trigger] out_row@[l]) == coerce_spec(row@[l]),
            decreases row@.len() - j,
        {
            out_row.push(coerce(&row[j]));
            j += 1;
        }
        out_rows.push(out_row);
        i += 1;
    }
    let columns = if row_count == 0 {
        Vec::new()
    } else {
        column_names
    };
    let q = QueryResult { columns, rows: out_rows, row_count, execution_time_ms: elapsed_ms };
    proof {
        if raw_rows@.len() == 0 {
            assert(q.columns@ =~= Seq::<String>::empty());
        }
    }
    q
}

} // verus!
