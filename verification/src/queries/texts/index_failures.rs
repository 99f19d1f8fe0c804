//! What the statements of `index_failures` say.
use vstd::prelude::*;

use crate::meaning::{
    item, lined_up_at, lines_up, mentions, opens, part_at, past, past_blanks, says, takes,
};
use crate::queries::index_failures::{
    clears_failure_of, CLEAR_INDEX_FAILURE_SQL, FAILURE_KIND_COUNTS_SQL,
    GET_BOUNDED_FAILURE_PATHS_SQL, RECORD_INDEX_FAILURE_SQL,
};
use crate::statement::BindView;

verus! {

/// What the text of [`RECORD_INDEX_FAILURE_SQL`] says.
pub proof fn record_index_failure_text()
    ensures
        opens(RECORD_INDEX_FAILURE_SQL@, "INSERT INTO index_failures"@),
        lines_up(RECORD_INDEX_FAILURE_SQL@, "INSERT INTO index_failures"@, "path"@, "VALUES ("@, 1),
        lines_up(
            RECORD_INDEX_FAILURE_SQL@,
            "INSERT INTO index_failures"@,
            "failure_kind"@,
            "VALUES ("@,
            2,
        ),
        lines_up(
            RECORD_INDEX_FAILURE_SQL@,
            "INSERT INTO index_failures"@,
            "last_error"@,
            "VALUES ("@,
            3,
        ),
        says(RECORD_INDEX_FAILURE_SQL@, "ON CONFLICT (path) DO UPDATE SET"@),
        says(RECORD_INDEX_FAILURE_SQL@, "failure_kind = EXCLUDED.failure_kind"@),
        says(RECORD_INDEX_FAILURE_SQL@, "last_error = EXCLUDED.last_error"@),
{
    reveal_strlit(
        "INSERT INTO index_failures (path, failure_kind, last_error)
         VALUES ($1, $2, $3)
         ON CONFLICT (path) DO UPDATE SET
            failure_count = index_failures.failure_count + 1,
            last_failed_at = NOW(),
            failure_kind = EXCLUDED.failure_kind,
            last_error = EXCLUDED.last_error",
    );
    reveal_strlit("INSERT INTO index_failures");
    reveal_strlit("ON CONFLICT (path) DO UPDATE SET");
    reveal_strlit("VALUES (");
    reveal_strlit("failure_kind");
    reveal_strlit("failure_kind = EXCLUDED.failure_kind");
    reveal_strlit("last_error");
    reveal_strlit("last_error = EXCLUDED.last_error");
    reveal_strlit("path");
    let t = RECORD_INDEX_FAILURE_SQL@;
    assert(part_at(t, 0, "INSERT INTO index_failures"@));
    reveal_with_fuel(past, 14);
    reveal_with_fuel(past_blanks, 2);
    assert(past(t, 26, '(') == 28);
    assert(item(t, 28, 0) == 28);
    assert(item(t, 28, 1) == 34);
    assert(item(t, 28, 2) == 48);
    assert(item(t, 77, 0) == 77);
    assert(item(t, 77, 1) == 81);
    assert(item(t, 77, 2) == 85);
    assert(lined_up_at(t, "INSERT INTO index_failures"@, "path"@, "VALUES ("@, 1, 0, 69, 0));
    assert(lined_up_at(
        t,
        "INSERT INTO index_failures"@,
        "failure_kind"@,
        "VALUES ("@,
        2,
        0,
        69,
        1,
    ));
    assert(lined_up_at(t, "INSERT INTO index_failures"@, "last_error"@, "VALUES ("@, 3, 0, 69, 2));
    assert(part_at(t, 98, "ON CONFLICT (path) DO UPDATE SET"@));
    assert(part_at(t, 241, "failure_kind = EXCLUDED.failure_kind"@));
    assert(part_at(t, 291, "last_error = EXCLUDED.last_error"@));
}

/// What the text of [`CLEAR_INDEX_FAILURE_SQL`] says.
pub proof fn clear_index_failure_text()
    ensures
        opens(CLEAR_INDEX_FAILURE_SQL@, "DELETE FROM index_failures"@),
        mentions(CLEAR_INDEX_FAILURE_SQL@, "path = "@, 1),
{
    reveal_strlit(
        "DELETE FROM index_failures WHERE path = $1",
    );
    reveal_strlit("DELETE FROM index_failures");
    reveal_strlit("path = ");
    let t = CLEAR_INDEX_FAILURE_SQL@;
    assert(part_at(t, 0, "DELETE FROM index_failures"@));
    assert(part_at(t, 33, "path = "@));
}

/// What the text of [`GET_BOUNDED_FAILURE_PATHS_SQL`] says.
pub proof fn get_bounded_failure_paths_text()
    ensures
        opens(GET_BOUNDED_FAILURE_PATHS_SQL@, "SELECT"@),
        mentions(GET_BOUNDED_FAILURE_PATHS_SQL@, "failure_count >= "@, 1),
        says(GET_BOUNDED_FAILURE_PATHS_SQL@, "FROM index_failures"@),
{
    reveal_strlit(
        "SELECT path, last_failed_at FROM index_failures WHERE failure_count >= $1",
    );
    reveal_strlit("FROM index_failures");
    reveal_strlit("SELECT");
    reveal_strlit("failure_count >= ");
    let t = GET_BOUNDED_FAILURE_PATHS_SQL@;
    assert(part_at(t, 0, "SELECT"@));
    assert(part_at(t, 54, "failure_count >= "@));
    assert(part_at(t, 28, "FROM index_failures"@));
}

/// What the text of [`FAILURE_KIND_COUNTS_SQL`] says.
pub proof fn failure_kind_counts_text()
    ensures
        opens(FAILURE_KIND_COUNTS_SQL@, "SELECT"@),
        says(FAILURE_KIND_COUNTS_SQL@, "GROUP BY failure_kind"@),
        says(FAILURE_KIND_COUNTS_SQL@, "ORDER BY COUNT(*) DESC, failure_kind"@),
        says(FAILURE_KIND_COUNTS_SQL@, "FROM index_failures"@),
{
    reveal_strlit(
        "SELECT failure_kind, COUNT(*)::bigint
         FROM index_failures
         GROUP BY failure_kind
         ORDER BY COUNT(*) DESC, failure_kind",
    );
    reveal_strlit("FROM index_failures");
    reveal_strlit("GROUP BY failure_kind");
    reveal_strlit("ORDER BY COUNT(*) DESC, failure_kind");
    reveal_strlit("SELECT");
    let t = FAILURE_KIND_COUNTS_SQL@;
    assert(part_at(t, 0, "SELECT"@));
    assert(part_at(t, 76, "GROUP BY failure_kind"@));
    assert(part_at(t, 107, "ORDER BY COUNT(*) DESC, failure_kind"@));
    assert(part_at(t, 47, "FROM index_failures"@));
}

/// Each argument of [`clears_failure_of`] is what the text names in its place.
pub proof fn law_clears_failure_of_stands_for_its_values(path: Seq<char>)
    ensures
        opens(clears_failure_of(path).sql, "DELETE FROM index_failures"@),
        takes(clears_failure_of(path), "path = "@, BindView::Text(path)),
{
    clear_index_failure_text();
    assert(clears_failure_of(path).sql == CLEAR_INDEX_FAILURE_SQL@);
}

} // verus!
