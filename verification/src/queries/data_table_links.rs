//! Links from data tables to what they belong to.
use vstd::prelude::*;

use crate::meaning::{fills, opens, says, takes};
use crate::queries::texts::data_table_links::{
    link_data_table_text, links_for_table_text, unlink_data_table_text,
};
use crate::statement::{executes, fetches_all, fetches_one, opt_str, opt_text, BindView, Statement};

verus! {

pub const LINK_DATA_TABLE_SQL: &'static str = "INSERT INTO data_table_links (table_id, target_type, target_id, role)
         VALUES ($1, $2, $3, $4)
         ON CONFLICT (table_id, target_type, target_id)
         DO UPDATE SET role = EXCLUDED.role
         RETURNING id";

/// Links a data table to a target, or changes the role of the link.
pub fn link_data_table(
    table_id: i64,
    target_type: &str,
    target_id: i64,
    role: Option<&str>,
) -> (st: Statement)
    ensures
        st@ == fetches_one(
            LINK_DATA_TABLE_SQL@,
            seq![
                BindView::BigInt(table_id),
                BindView::Text(target_type@),
                BindView::BigInt(target_id),
                BindView::OptText(opt_str(role)),
            ],
        ),
        opens(st@.sql, "INSERT INTO data_table_links"@),
        fills(
            st@,
            "INSERT INTO data_table_links"@,
            "table_id"@,
            "VALUES ("@,
            BindView::BigInt(table_id),
        ),
        fills(
            st@,
            "INSERT INTO data_table_links"@,
            "target_type"@,
            "VALUES ("@,
            BindView::Text(target_type@),
        ),
        fills(
            st@,
            "INSERT INTO data_table_links"@,
            "target_id"@,
            "VALUES ("@,
            BindView::BigInt(target_id),
        ),
        fills(
            st@,
            "INSERT INTO data_table_links"@,
            "role"@,
            "VALUES ("@,
            BindView::OptText(opt_str(role)),
        ),
        says(st@.sql, "ON CONFLICT (table_id, target_type, target_id)"@),
{
    proof {
        link_data_table_text();
    }
    let st = Statement::one(LINK_DATA_TABLE_SQL)
        .int8(table_id)
        .text(target_type)
        .int8(target_id)
        .opt_text(role);
    assert(st@.sql == LINK_DATA_TABLE_SQL@);
    st
}

pub const UNLINK_DATA_TABLE_SQL: &'static str = "DELETE FROM data_table_links
          WHERE table_id = $1 AND target_type = $2 AND target_id = $3";

/// Removes a link; a row is touched if there was one.
pub fn unlink_data_table(table_id: i64, target_type: &str, target_id: i64) -> (st: Statement)
    ensures
        st@ == executes(
            UNLINK_DATA_TABLE_SQL@,
            seq![
                BindView::BigInt(table_id),
                BindView::Text(target_type@),
                BindView::BigInt(target_id),
            ],
        ),
        opens(st@.sql, "DELETE FROM data_table_links"@),
        takes(st@, "table_id = "@, BindView::BigInt(table_id)),
        takes(st@, "target_type = "@, BindView::Text(target_type@)),
        takes(st@, "target_id = "@, BindView::BigInt(target_id)),
{
    proof {
        unlink_data_table_text();
    }
    let st = Statement::execute(UNLINK_DATA_TABLE_SQL).int8(table_id).text(target_type).int8(target_id);
    assert(st@.sql == UNLINK_DATA_TABLE_SQL@);
    st
}

pub const LINKS_FOR_TABLE_SQL: &'static str = "SELECT id, table_id, target_type, target_id, role, created_at
           FROM data_table_links
          WHERE table_id = $1
          ORDER BY created_at";

/// The links of a data table, oldest first.
pub fn links_for_table(table_id: i64) -> (st: Statement)
    ensures
        st@ == fetches_all(LINKS_FOR_TABLE_SQL@, seq![BindView::BigInt(table_id)]),
        opens(st@.sql, "SELECT"@),
        takes(st@, "table_id = "@, BindView::BigInt(table_id)),
        says(st@.sql, "ORDER BY created_at"@),
        says(st@.sql, "FROM data_table_links"@),
{
    proof {
        links_for_table_text();
    }
    let st = Statement::all(LINKS_FOR_TABLE_SQL).int8(table_id);
    assert(st@.sql == LINKS_FOR_TABLE_SQL@);
    st
}

} // verus!
