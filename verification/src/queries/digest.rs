//! The ledger of emitted digests, which limits how often one is repeated.
use vstd::prelude::*;

use crate::meaning::{fills, opens, says, takes};
use crate::queries::texts::digest::{
    insert_digest_emission_text, recently_emitted_text, session_emit_count_text,
};
use crate::statement::{executes, fetches_one, fetches_optional, BindView, Statement};

verus! {

/// A waiting time, never negative.
pub open spec fn waiting_time(ttl_secs: i64) -> i64 {
    if ttl_secs < 0 {
        0
    } else {
        ttl_secs
    }
}

pub const RECENTLY_EMITTED_SQL: &'static str = "SELECT 1 FROM digest_emissions
          WHERE session_id = $1 AND content_sha256 = $2
            AND ts > now() - ($3::bigint * interval '1 second')
          LIMIT 1";

/// Whether the same digest went to a session within the last `ttl_secs`
/// seconds: a row comes back if it did.
pub fn recently_emitted(session_id: &str, content_sha256: &str, ttl_secs: i64) -> (st: Statement)
    ensures
        st@ == fetches_optional(
            RECENTLY_EMITTED_SQL@,
            seq![
                BindView::Text(session_id@),
                BindView::Text(content_sha256@),
                BindView::BigInt(waiting_time(ttl_secs)),
            ],
        ),
        opens(st@.sql, "SELECT"@),
        takes(st@, "session_id = "@, BindView::Text(session_id@)),
        takes(st@, "content_sha256 = "@, BindView::Text(content_sha256@)),
        takes(st@, "> now() - ("@, BindView::BigInt(waiting_time(ttl_secs))),
        says(st@.sql, "FROM digest_emissions"@),
{
    proof {
        recently_emitted_text();
    }
    let wait: i64 = if ttl_secs < 0 {
        0
    } else {
        ttl_secs
    };
    let st = Statement::optional(RECENTLY_EMITTED_SQL).text(session_id).text(content_sha256).int8(wait);
    assert(st@.sql == RECENTLY_EMITTED_SQL@);
    st
}

pub const SESSION_EMIT_COUNT_SQL: &'static str =
    "SELECT COUNT(*)::int8 FROM digest_emissions WHERE session_id = $1";

/// How many digests went to a session.
pub fn session_emit_count(session_id: &str) -> (st: Statement)
    ensures
        st@ == fetches_one(SESSION_EMIT_COUNT_SQL@, seq![BindView::Text(session_id@)]),
        opens(st@.sql, "SELECT"@),
        takes(st@, "session_id = "@, BindView::Text(session_id@)),
        says(st@.sql, "FROM digest_emissions"@),
{
    proof {
        session_emit_count_text();
    }
    let st = Statement::one(SESSION_EMIT_COUNT_SQL).text(session_id);
    assert(st@.sql == SESSION_EMIT_COUNT_SQL@);
    st
}

pub const INSERT_DIGEST_EMISSION_SQL: &'static str = "INSERT INTO digest_emissions
            (session_id, channel, project_id, content_sha256, item_count)
         VALUES ($1, $2, $3, $4, $5)";

/// Records that a digest went to a session.
pub fn insert_digest_emission(
    session_id: &str,
    channel: &str,
    project_id: Option<i32>,
    content_sha256: &str,
    item_count: i32,
) -> (st: Statement)
    ensures
        st@ == executes(
            INSERT_DIGEST_EMISSION_SQL@,
            seq![
                BindView::Text(session_id@),
                BindView::Text(channel@),
                BindView::OptInt(project_id),
                BindView::Text(content_sha256@),
                BindView::Int(item_count),
            ],
        ),
        opens(st@.sql, "INSERT INTO digest_emissions"@),
        fills(
            st@,
            "INSERT INTO digest_emissions"@,
            "session_id"@,
            "VALUES ("@,
            BindView::Text(session_id@),
        ),
        fills(
            st@,
            "INSERT INTO digest_emissions"@,
            "channel"@,
            "VALUES ("@,
            BindView::Text(channel@),
        ),
        fills(
            st@,
            "INSERT INTO digest_emissions"@,
            "project_id"@,
            "VALUES ("@,
            BindView::OptInt(project_id),
        ),
        fills(
            st@,
            "INSERT INTO digest_emissions"@,
            "content_sha256"@,
            "VALUES ("@,
            BindView::Text(content_sha256@),
        ),
        fills(
            st@,
            "INSERT INTO digest_emissions"@,
            "item_count"@,
            "VALUES ("@,
            BindView::Int(item_count),
        ),
{
    proof {
        insert_digest_emission_text();
    }
    let st = Statement::execute(INSERT_DIGEST_EMISSION_SQL)
        .text(session_id)
        .text(channel)
        .opt_int4(project_id)
        .text(content_sha256)
        .int4(item_count);
    assert(st@.sql == INSERT_DIGEST_EMISSION_SQL@);
    st
}

} // verus!
