//! What the statements of `memory_locks` say.
use vstd::prelude::*;

use crate::meaning::{mentions, opens, part_at, takes};
use crate::queries::memory_locks::{takes_lock, ADVISORY_LOCK_SQL};
use crate::statement::BindView;

verus! {

/// What the text of [`ADVISORY_LOCK_SQL`] says.
pub proof fn advisory_lock_text()
    ensures
        opens(ADVISORY_LOCK_SQL@, "SELECT"@),
        mentions(ADVISORY_LOCK_SQL@, "pg_advisory_xact_lock("@, 1),
        mentions(ADVISORY_LOCK_SQL@, "SELECT pg_advisory_xact_lock($1, "@, 2),
{
    reveal_strlit(
        "SELECT pg_advisory_xact_lock($1, $2)",
    );
    reveal_strlit("SELECT");
    reveal_strlit("SELECT pg_advisory_xact_lock($1, ");
    reveal_strlit("pg_advisory_xact_lock(");
    let t = ADVISORY_LOCK_SQL@;
    assert(part_at(t, 0, "SELECT"@));
    assert(part_at(t, 7, "pg_advisory_xact_lock("@));
    assert(part_at(t, 0, "SELECT pg_advisory_xact_lock($1, "@));
}

/// Each argument of [`takes_lock`] is what the text names in its place.
pub proof fn law_takes_lock_stands_for_its_values(key: (i32, i32))
    ensures
        opens(takes_lock(key).sql, "SELECT"@),
        takes(takes_lock(key), "pg_advisory_xact_lock("@, BindView::Int(key.0)),
        takes(takes_lock(key), "SELECT pg_advisory_xact_lock($1, "@, BindView::Int(key.1)),
{
    advisory_lock_text();
    assert(takes_lock(key).sql == ADVISORY_LOCK_SQL@);
}

} // verus!
