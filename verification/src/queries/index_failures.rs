//! The ledger of files that could not be indexed.
use vstd::prelude::*;

use crate::meaning::{fills, opens, says, takes};
use crate::queries::texts::index_failures::{
    failure_kind_counts_text, get_bounded_failure_paths_text,
    law_clears_failure_of_stands_for_its_values, record_index_failure_text,
};
use crate::statement::{executes, fetches_all, BindView, Statement, StatementView};

verus! {

pub const RECORD_INDEX_FAILURE_SQL: &'static str = "INSERT INTO index_failures (path, failure_kind, last_error)
         VALUES ($1, $2, $3)
         ON CONFLICT (path) DO UPDATE SET
            failure_count = index_failures.failure_count + 1,
            last_failed_at = NOW(),
            failure_kind = EXCLUDED.failure_kind,
            last_error = EXCLUDED.last_error";

/// Records that a file could not be indexed; repeated failures are counted.
pub fn record_index_failure(path: &str, kind: &str, last_error: &str) -> (st: Statement)
    ensures
        st@ == executes(
            RECORD_INDEX_FAILURE_SQL@,
            seq![
                BindView::Text(path@),
                BindView::Text(kind@),
                BindView::Text(last_error@),
            ],
        ),
        opens(st@.sql, "INSERT INTO index_failures"@),
        fills(st@, "INSERT INTO index_failures"@, "path"@, "VALUES ("@, BindView::Text(path@)),
        fills(
            st@,
            "INSERT INTO index_failures"@,
            "failure_kind"@,
            "VALUES ("@,
            BindView::Text(kind@),
        ),
        fills(
            st@,
            "INSERT INTO index_failures"@,
            "last_error"@,
            "VALUES ("@,
            BindView::Text(last_error@),
        ),
        says(st@.sql, "ON CONFLICT (path) DO UPDATE SET"@),
{
    proof {
        record_index_failure_text();
    }
    let st = Statement::execute(RECORD_INDEX_FAILURE_SQL).text(path).text(kind).text(last_error);
    assert(st@.sql == RECORD_INDEX_FAILURE_SQL@);
    st
}

pub const CLEAR_INDEX_FAILURE_SQL: &'static str = "DELETE FROM index_failures WHERE path = $1";

/// Forgetting that a file could not be indexed.
pub open spec fn clears_failure_of(path: Seq<char>) -> StatementView {
    executes(CLEAR_INDEX_FAILURE_SQL@, seq![BindView::Text(path)])
}

/// Forgets that a file could not be indexed.
pub fn clear_index_failure(path: &str) -> (st: Statement)
    ensures
        st@ == clears_failure_of(path@),
        opens(st@.sql, "DELETE FROM index_failures"@),
        takes(st@, "path = "@, BindView::Text(path@)),
{
    proof {
        law_clears_failure_of_stands_for_its_values(path@);
    }
    Statement::execute(CLEAR_INDEX_FAILURE_SQL).text(path)
}

pub const GET_BOUNDED_FAILURE_PATHS_SQL: &'static str =
    "SELECT path, last_failed_at FROM index_failures WHERE failure_count >= $1";

/// The files that failed at least a number of times, with their last failure.
pub fn get_bounded_failure_paths(min_failures: i32) -> (st: Statement)
    ensures
        st@ == fetches_all(GET_BOUNDED_FAILURE_PATHS_SQL@, seq![BindView::Int(min_failures)]),
        opens(st@.sql, "SELECT"@),
        takes(st@, "failure_count >= "@, BindView::Int(min_failures)),
        says(st@.sql, "FROM index_failures"@),
{
    proof {
        get_bounded_failure_paths_text();
    }
    let st = Statement::all(GET_BOUNDED_FAILURE_PATHS_SQL).int4(min_failures);
    assert(st@.sql == GET_BOUNDED_FAILURE_PATHS_SQL@);
    st
}

pub const FAILURE_KIND_COUNTS_SQL: &'static str = "SELECT failure_kind, COUNT(*)::bigint
         FROM index_failures
         GROUP BY failure_kind
         ORDER BY COUNT(*) DESC, failure_kind";

/// How many files failed in which way, the most frequent first.
pub fn failure_kind_counts() -> (st: Statement)
    ensures
        st@ == fetches_all(FAILURE_KIND_COUNTS_SQL@, seq![]),
        opens(st@.sql, "SELECT"@),
        says(st@.sql, "GROUP BY failure_kind"@),
        says(st@.sql, "ORDER BY COUNT(*) DESC, failure_kind"@),
        says(st@.sql, "FROM index_failures"@),
{
    proof {
        failure_kind_counts_text();
    }
    let st = Statement::all(FAILURE_KIND_COUNTS_SQL);
    assert(st@.sql == FAILURE_KIND_COUNTS_SQL@);
    st
}

} // verus!
