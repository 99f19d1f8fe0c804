//! Totals over the whole index.
use vstd::prelude::*;

use crate::meaning::{opens, says};
use crate::queries::texts::stats::{
    count_chunks_text, count_indexed_files_text, count_projects_text, total_bytes_indexed_text,
};
use crate::statement::{fetches_one, Statement};

verus! {

pub const COUNT_INDEXED_FILES_SQL: &'static str = "SELECT COUNT(*) FROM indexed_files";

/// How many files are indexed.
pub fn count_indexed_files() -> (st: Statement)
    ensures
        st@ == fetches_one(COUNT_INDEXED_FILES_SQL@, seq![]),
        opens(st@.sql, "SELECT COUNT(*) FROM indexed_files"@),
{
    proof {
        count_indexed_files_text();
    }
    let st = Statement::one(COUNT_INDEXED_FILES_SQL);
    assert(st@.sql == COUNT_INDEXED_FILES_SQL@);
    st
}

pub const COUNT_CHUNKS_SQL: &'static str = "SELECT COUNT(*) FROM file_chunks";

/// How many chunks are stored.
pub fn count_chunks() -> (st: Statement)
    ensures
        st@ == fetches_one(COUNT_CHUNKS_SQL@, seq![]),
        opens(st@.sql, "SELECT COUNT(*) FROM file_chunks"@),
{
    proof {
        count_chunks_text();
    }
    let st = Statement::one(COUNT_CHUNKS_SQL);
    assert(st@.sql == COUNT_CHUNKS_SQL@);
    st
}

pub const COUNT_PROJECTS_SQL: &'static str = "SELECT COUNT(*) FROM projects";

/// How many projects there are.
pub fn count_projects() -> (st: Statement)
    ensures
        st@ == fetches_one(COUNT_PROJECTS_SQL@, seq![]),
        opens(st@.sql, "SELECT COUNT(*) FROM projects"@),
{
    proof {
        count_projects_text();
    }
    let st = Statement::one(COUNT_PROJECTS_SQL);
    assert(st@.sql == COUNT_PROJECTS_SQL@);
    st
}

pub const TOTAL_BYTES_INDEXED_SQL: &'static str =
    "SELECT SUM(size_bytes)::bigint FROM indexed_files";

/// How many bytes are indexed. The sum of big integers is cast back to one,
/// since it widens to a decimal number that cannot be read as an integer.
pub fn total_bytes_indexed() -> (st: Statement)
    ensures
        st@ == fetches_one(TOTAL_BYTES_INDEXED_SQL@, seq![]),
        opens(st@.sql, "SELECT"@),
        says(st@.sql, "FROM indexed_files"@),
{
    proof {
        total_bytes_indexed_text();
    }
    let st = Statement::one(TOTAL_BYTES_INDEXED_SQL);
    assert(st@.sql == TOTAL_BYTES_INDEXED_SQL@);
    st
}

} // verus!
