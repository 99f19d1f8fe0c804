//! The table of single values, each under a text key.
use vstd::prelude::*;

use crate::meaning::{fills, opens, takes};
use crate::queries::texts::metadata::{
    law_reads_stands_for_its_values, law_writes_stands_for_its_values,
};
use crate::statement::{executes, fetches_optional, BindView, Statement, StatementView};
use crate::text::{decimal, decimal_text, law_decimal_reads_back};

verus! {

pub const READ_METADATA_SQL: &'static str = "SELECT value FROM pgmcp_metadata WHERE key = $1";

pub const WRITE_METADATA_SQL: &'static str =
    "INSERT INTO pgmcp_metadata (key, value) VALUES ($1, $2)
         ON CONFLICT (key) DO UPDATE SET value = EXCLUDED.value";

/// The key of a value that each project has: a label and the project's id.
pub open spec fn project_key(label: Seq<char>, project_id: i32) -> Seq<char> {
    label + decimal_text(project_id as int)
}

/// Makes the key of a value that each project has.
pub fn key_for_project(label: &str, project_id: i32) -> (r: String)
    ensures
        r@ == project_key(label@, project_id),
{
    let mut m = String::from_str(label);
    m.append(decimal(project_id as i64).as_str());
    m
}

/// Reading the value under a key.
pub open spec fn reads(key: Seq<char>) -> StatementView {
    fetches_optional(READ_METADATA_SQL@, seq![BindView::Text(key)])
}

/// Writing the value under a key, over any that is there.
pub open spec fn writes(key: Seq<char>, value: Seq<char>) -> StatementView {
    executes(WRITE_METADATA_SQL@, seq![BindView::Text(key), BindView::Text(value)])
}

/// Reads the value under a key.
pub fn read_metadata(key: &str) -> (st: Statement)
    ensures
        st@ == reads(key@),
        opens(st@.sql, "SELECT"@),
        takes(st@, "key = "@, BindView::Text(key@)),
{
    proof {
        law_reads_stands_for_its_values(key@);
    }
    Statement::optional(READ_METADATA_SQL).text(key)
}

/// Writes the value under a key, over any that is there.
pub fn write_metadata(key: &str, value: &str) -> (st: Statement)
    ensures
        st@ == writes(key@, value@),
        opens(st@.sql, "INSERT INTO pgmcp_metadata"@),
        fills(st@, "INSERT INTO pgmcp_metadata"@, "key"@, "VALUES ("@, BindView::Text(key@)),
        fills(st@, "INSERT INTO pgmcp_metadata"@, "value"@, "VALUES ("@, BindView::Text(value@)),
{
    proof {
        law_writes_stands_for_its_values(key@, value@);
    }
    Statement::execute(WRITE_METADATA_SQL).text(key).text(value)
}

/// Under one label, two projects never share a key.
pub proof fn law_project_keys_differ(label: Seq<char>, a: i32, b: i32)
    requires
        project_key(label, a) == project_key(label, b),
    ensures
        a == b,
{
    let x = decimal_text(a as int);
    let y = decimal_text(b as int);
    assert(project_key(label, a).skip(label.len() as int) =~= x);
    assert(project_key(label, b).skip(label.len() as int) =~= y);
    law_decimal_reads_back(a as i64);
    law_decimal_reads_back(b as i64);
}

} // verus!
