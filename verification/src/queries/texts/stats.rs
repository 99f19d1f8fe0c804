//! What the statements of `stats` say.
use vstd::prelude::*;

use crate::meaning::{opens, part_at, says};
use crate::queries::stats::{
    COUNT_CHUNKS_SQL, COUNT_INDEXED_FILES_SQL, COUNT_PROJECTS_SQL, TOTAL_BYTES_INDEXED_SQL,
};

verus! {

/// What the text of [`COUNT_INDEXED_FILES_SQL`] says.
pub proof fn count_indexed_files_text()
    ensures
        opens(COUNT_INDEXED_FILES_SQL@, "SELECT COUNT(*) FROM indexed_files"@),
{
    reveal_strlit(
        "SELECT COUNT(*) FROM indexed_files",
    );
    reveal_strlit("SELECT COUNT(*) FROM indexed_files");
    let t = COUNT_INDEXED_FILES_SQL@;
    assert(part_at(t, 0, "SELECT COUNT(*) FROM indexed_files"@));
}

/// What the text of [`COUNT_CHUNKS_SQL`] says.
pub proof fn count_chunks_text()
    ensures
        opens(COUNT_CHUNKS_SQL@, "SELECT COUNT(*) FROM file_chunks"@),
{
    reveal_strlit(
        "SELECT COUNT(*) FROM file_chunks",
    );
    reveal_strlit("SELECT COUNT(*) FROM file_chunks");
    let t = COUNT_CHUNKS_SQL@;
    assert(part_at(t, 0, "SELECT COUNT(*) FROM file_chunks"@));
}

/// What the text of [`COUNT_PROJECTS_SQL`] says.
pub proof fn count_projects_text()
    ensures
        opens(COUNT_PROJECTS_SQL@, "SELECT COUNT(*) FROM projects"@),
{
    reveal_strlit(
        "SELECT COUNT(*) FROM projects",
    );
    reveal_strlit("SELECT COUNT(*) FROM projects");
    let t = COUNT_PROJECTS_SQL@;
    assert(part_at(t, 0, "SELECT COUNT(*) FROM projects"@));
}

/// What the text of [`TOTAL_BYTES_INDEXED_SQL`] says.
pub proof fn total_bytes_indexed_text()
    ensures
        opens(TOTAL_BYTES_INDEXED_SQL@, "SELECT"@),
        says(TOTAL_BYTES_INDEXED_SQL@, "FROM indexed_files"@),
{
    reveal_strlit(
        "SELECT SUM(size_bytes)::bigint FROM indexed_files",
    );
    reveal_strlit("FROM indexed_files");
    reveal_strlit("SELECT");
    let t = TOTAL_BYTES_INDEXED_SQL@;
    assert(part_at(t, 0, "SELECT"@));
    assert(part_at(t, 31, "FROM indexed_files"@));
}

} // verus!
