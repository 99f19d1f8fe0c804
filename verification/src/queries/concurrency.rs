//! Findings on concurrency, the order of locks, and snapshots of both.
use vstd::prelude::*;

use crate::meaning::{fills, lemma_within, opens, says, takes};
use crate::protocol::statement_views;
use crate::queries::texts::concurrency::{
    insert_concurrency_health_text, law_opens_edge_stands_for_its_values,
    lock_contention_ranking_text, metric_series_1_text, metric_series_2_text,
    record_concurrency_finding_text, set_finding_promoted_item_text,
};
use crate::statement::{
    executes, fetches_all, fetches_one, opt_as_str, opt_text, BindView, Fetch, Statement,
    StatementView,
};
use crate::text::text_eq;

verus! {

/// A finding to record. How sure it is and its evidence stay with the caller.
#[derive(Debug, Clone)]
pub struct NewConcurrencyFinding {
    pub finding_kind: String,
    pub severity: String,
    pub provenance_key: String,
    pub symbol_id: Option<i64>,
    pub file_id: Option<i64>,
    pub title: String,
}

pub const RECORD_CONCURRENCY_FINDING_SQL: &'static str = "INSERT INTO concurrency_findings
            (project_id, finding_kind, severity, confidence, provenance_key,
             symbol_id, file_id, evidence, title)
         VALUES ($1, $2, $3, $4, $5, $6, $7, $8, $9)
         ON CONFLICT (provenance_key) DO UPDATE SET
            observed_at = now(),
            severity    = EXCLUDED.severity,
            confidence  = EXCLUDED.confidence,
            evidence    = EXCLUDED.evidence,
            title       = EXCLUDED.title
         RETURNING id";

/// Records a finding, or refreshes the one with its provenance. The caller
/// supplies value 0, how sure it is, and value 1, its evidence.
pub fn record_concurrency_finding(project_id: i32, f: &NewConcurrencyFinding) -> (st: Statement)
    ensures
        st@ == fetches_one(
            RECORD_CONCURRENCY_FINDING_SQL@,
            seq![
                BindView::Int(project_id),
                BindView::Text(f.finding_kind@),
                BindView::Text(f.severity@),
                BindView::Supplied(0),
                BindView::Text(f.provenance_key@),
                BindView::OptBigInt(f.symbol_id),
                BindView::OptBigInt(f.file_id),
                BindView::Supplied(1),
                BindView::Text(f.title@),
            ],
        ),
        opens(st@.sql, "INSERT INTO concurrency_findings"@),
        fills(
            st@,
            "INSERT INTO concurrency_findings"@,
            "project_id"@,
            "VALUES ("@,
            BindView::Int(project_id),
        ),
        fills(
            st@,
            "INSERT INTO concurrency_findings"@,
            "finding_kind"@,
            "VALUES ("@,
            BindView::Text(f.finding_kind@),
        ),
        fills(
            st@,
            "INSERT INTO concurrency_findings"@,
            "severity"@,
            "VALUES ("@,
            BindView::Text(f.severity@),
        ),
        fills(
            st@,
            "INSERT INTO concurrency_findings"@,
            "confidence"@,
            "VALUES ("@,
            BindView::Supplied(0),
        ),
        fills(
            st@,
            "INSERT INTO concurrency_findings"@,
            "provenance_key"@,
            "VALUES ("@,
            BindView::Text(f.provenance_key@),
        ),
        fills(
            st@,
            "INSERT INTO concurrency_findings"@,
            "symbol_id"@,
            "VALUES ("@,
            BindView::OptBigInt(f.symbol_id),
        ),
        fills(
            st@,
            "INSERT INTO concurrency_findings"@,
            "file_id"@,
            "VALUES ("@,
            BindView::OptBigInt(f.file_id),
        ),
        fills(
            st@,
            "INSERT INTO concurrency_findings"@,
            "evidence"@,
            "VALUES ("@,
            BindView::Supplied(1),
        ),
        fills(
            st@,
            "INSERT INTO concurrency_findings"@,
            "title"@,
            "VALUES ("@,
            BindView::Text(f.title@),
        ),
        says(st@.sql, "ON CONFLICT (provenance_key) DO UPDATE SET"@),
{
    proof {
        record_concurrency_finding_text();
    }
    let st = Statement::one(RECORD_CONCURRENCY_FINDING_SQL)
        .int4(project_id)
        .text(f.finding_kind.as_str())
        .text(f.severity.as_str())
        .supplied(0)
        .text(f.provenance_key.as_str())
        .opt_int8(f.symbol_id)
        .opt_int8(f.file_id)
        .supplied(1)
        .text(f.title.as_str());
    assert(st@.sql == RECORD_CONCURRENCY_FINDING_SQL@);
    st
}

pub const SET_FINDING_PROMOTED_ITEM_SQL: &'static str =
    "UPDATE concurrency_findings SET promoted_item_id = $2 WHERE id = $1";

/// Links a finding to the work item that it became.
pub fn set_finding_promoted_item(finding_id: i64, item_id: i64) -> (st: Statement)
    ensures
        st@ == executes(
            SET_FINDING_PROMOTED_ITEM_SQL@,
            seq![
                BindView::BigInt(finding_id),
                BindView::BigInt(item_id),
            ],
        ),
        opens(st@.sql, "UPDATE concurrency_findings"@),
        takes(st@, "$2 WHERE id = "@, BindView::BigInt(finding_id)),
        takes(st@, "promoted_item_id = "@, BindView::BigInt(item_id)),
{
    proof {
        set_finding_promoted_item_text();
    }
    let st = Statement::execute(SET_FINDING_PROMOTED_ITEM_SQL).int8(finding_id).int8(item_id);
    assert(st@.sql == SET_FINDING_PROMOTED_ITEM_SQL@);
    st
}

/// An edge of the order of locks. How sure it is stays with the caller.
#[derive(Debug, Clone)]
pub struct NewLockEdge {
    pub from_key: String,
    pub to_key: String,
    pub from_mode: Option<String>,
    pub to_mode: Option<String>,
    pub interprocedural: bool,
}

pub const OPEN_LOCK_EDGE_SQL: &'static str = "INSERT INTO lock_order_edges
                (project_id, from_key, to_key, from_mode, to_mode, min_confidence,
                 interprocedural, valid_from, valid_to, last_seen_at)
             VALUES ($1, $2, $3, $4, $5, $6, $7, now(), NULL, now())
             ON CONFLICT (project_id, from_key, to_key) WHERE valid_to IS NULL
             DO UPDATE SET
                last_seen_at    = now(),
                min_confidence  = EXCLUDED.min_confidence,
                from_mode       = EXCLUDED.from_mode,
                to_mode         = EXCLUDED.to_mode,
                interprocedural = EXCLUDED.interprocedural";

pub const CLOSE_LOCK_EDGES_SQL: &'static str = "UPDATE lock_order_edges SET valid_to = now()
         WHERE project_id = $1 AND valid_to IS NULL AND last_seen_at < now()";

/// Recording that an edge was seen. The caller supplies value 0, how sure it
/// is.
pub open spec fn opens_edge(project_id: i32, e: NewLockEdge) -> StatementView {
    executes(
        OPEN_LOCK_EDGE_SQL@,
        seq![
            BindView::Int(project_id),
            BindView::Text(e.from_key@),
            BindView::Text(e.to_key@),
            BindView::OptText(opt_text(e.from_mode)),
            BindView::OptText(opt_text(e.to_mode)),
            BindView::Supplied(0),
            BindView::Bool(e.interprocedural),
        ],
    )
}

/// Closing the edges that were not seen.
pub open spec fn closes_edges(project_id: i32) -> StatementView {
    executes(CLOSE_LOCK_EDGES_SQL@, seq![BindView::Int(project_id)])
}

/// The statements that bring the order of locks up to date: each edge is
/// opened, then the edges that were not seen are closed.
pub open spec fn refreshes_edges(project_id: i32, edges: Seq<NewLockEdge>) -> Seq<StatementView> {
    edges.map_values(|e: NewLockEdge| opens_edge(project_id, e)).push(closes_edges(project_id))
}

fn open_edge(project_id: i32, e: &NewLockEdge) -> (st: Statement)
    ensures
        st@ == opens_edge(project_id, *e),
        opens(st@.sql, "INSERT INTO lock_order_edges"@),
        fills(
            st@,
            "INSERT INTO lock_order_edges"@,
            "project_id"@,
            "VALUES ("@,
            BindView::Int(project_id),
        ),
        fills(
            st@,
            "INSERT INTO lock_order_edges"@,
            "from_key"@,
            "VALUES ("@,
            BindView::Text(e.from_key@),
        ),
        fills(
            st@,
            "INSERT INTO lock_order_edges"@,
            "to_key"@,
            "VALUES ("@,
            BindView::Text(e.to_key@),
        ),
        fills(
            st@,
            "INSERT INTO lock_order_edges"@,
            "from_mode"@,
            "VALUES ("@,
            BindView::OptText(opt_text(e.from_mode)),
        ),
        fills(
            st@,
            "INSERT INTO lock_order_edges"@,
            "to_mode"@,
            "VALUES ("@,
            BindView::OptText(opt_text(e.to_mode)),
        ),
        fills(
            st@,
            "INSERT INTO lock_order_edges"@,
            "min_confidence"@,
            "VALUES ("@,
            BindView::Supplied(0),
        ),
        fills(
            st@,
            "INSERT INTO lock_order_edges"@,
            "interprocedural"@,
            "VALUES ("@,
            BindView::Bool(e.interprocedural),
        ),
{
    proof {
        law_opens_edge_stands_for_its_values(project_id, *e);
    }
    Statement::execute(OPEN_LOCK_EDGE_SQL)
        .int4(project_id)
        .text(e.from_key.as_str())
        .text(e.to_key.as_str())
        .opt_text(opt_as_str(&e.from_mode))
        .opt_text(opt_as_str(&e.to_mode))
        .supplied(0)
        .flag(e.interprocedural)
}

/// Brings the order of locks of a project up to date; to be run as a batch.
/// The caller supplies for each edge's statement value 0, how sure the edge
/// is.
pub fn refresh_lock_order_edges(project_id: i32, edges: &[NewLockEdge]) -> (r: Vec<Statement>)
    ensures
        statement_views(r@) == refreshes_edges(project_id, edges@),
        forall|i: int| 0 <= i < r.len() ==> (#[trigger] r@[i]).fetch == Fetch::Execute,
{
    let mut out: Vec<Statement> = Vec::new();
    let mut i: usize = 0;
    while i < edges.len()
        invariant
            i <= edges.len(),
            out.len() == i,
            forall|j: int|
                0 <= j < i ==> (#[trigger] out@[j])@ == opens_edge(project_id, edges@[j]),
        decreases edges.len() - i,
    {
        out.push(open_edge(project_id, &edges[i]));
        i = i + 1;
    }
    let close = Statement::execute(CLOSE_LOCK_EDGES_SQL).int4(project_id);
    assert(close@ == closes_edges(project_id));
    out.push(close);
    assert(statement_views(out@) =~= refreshes_edges(project_id, edges@));
    assert forall|k: int| 0 <= k < out.len() implies (#[trigger] out@[k]).fetch
        == Fetch::Execute by {
        assert(out@[k]@.fetch == Fetch::Execute);
    }
    out
}

/// The edges that were not seen are closed after the last one was opened, so
/// that none of those is closed.
pub proof fn law_edges_close_last(project_id: i32, edges: Seq<NewLockEdge>)
    ensures
        refreshes_edges(project_id, edges).len() == edges.len() + 1,
        refreshes_edges(project_id, edges).last() == closes_edges(project_id),
        forall|i: int|
            0 <= i < edges.len() ==> #[trigger] refreshes_edges(project_id, edges)[i]
                == opens_edge(project_id, edges[i]),
{
}

pub const INSERT_CONCURRENCY_HEALTH_SQL: &'static str = "INSERT INTO concurrency_health_history
            (project_id, deadlock_cycle_count, channel_cycle_count, blocked_recv_count,
             max_lock_contention, raw_summary)
         VALUES ($1, $2, $3, $4, $5, $6)";

/// Stores a snapshot of how healthy the concurrency of a project is. The caller
/// supplies value 0, `max_lock_contention`, value 1, `raw_summary`.
pub fn insert_concurrency_health(
    project_id: i32,
    deadlock_cycle_count: i32,
    channel_cycle_count: i32,
    blocked_recv_count: i32,
) -> (st: Statement)
    ensures
        st@ == executes(
            INSERT_CONCURRENCY_HEALTH_SQL@,
            seq![
                BindView::Int(project_id),
                BindView::Int(deadlock_cycle_count),
                BindView::Int(channel_cycle_count),
                BindView::Int(blocked_recv_count),
                BindView::Supplied(0),
                BindView::Supplied(1),
            ],
        ),
        opens(st@.sql, "INSERT INTO concurrency_health_history"@),
        fills(
            st@,
            "INSERT INTO concurrency_health_history"@,
            "project_id"@,
            "VALUES ("@,
            BindView::Int(project_id),
        ),
        fills(
            st@,
            "INSERT INTO concurrency_health_history"@,
            "deadlock_cycle_count"@,
            "VALUES ("@,
            BindView::Int(deadlock_cycle_count),
        ),
        fills(
            st@,
            "INSERT INTO concurrency_health_history"@,
            "channel_cycle_count"@,
            "VALUES ("@,
            BindView::Int(channel_cycle_count),
        ),
        fills(
            st@,
            "INSERT INTO concurrency_health_history"@,
            "blocked_recv_count"@,
            "VALUES ("@,
            BindView::Int(blocked_recv_count),
        ),
        fills(
            st@,
            "INSERT INTO concurrency_health_history"@,
            "max_lock_contention"@,
            "VALUES ("@,
            BindView::Supplied(0),
        ),
        fills(
            st@,
            "INSERT INTO concurrency_health_history"@,
            "raw_summary"@,
            "VALUES ("@,
            BindView::Supplied(1),
        ),
{
    proof {
        insert_concurrency_health_text();
    }
    let st = Statement::execute(INSERT_CONCURRENCY_HEALTH_SQL)
        .int4(project_id)
        .int4(deadlock_cycle_count)
        .int4(channel_cycle_count)
        .int4(blocked_recv_count)
        .supplied(0)
        .supplied(1);
    assert(st@.sql == INSERT_CONCURRENCY_HEALTH_SQL@);
    st
}

pub const LOCK_CONTENTION_RANKING_SQL: &'static str = "SELECT so.resource_key, so.resource_kind,
                COUNT(DISTINCT so.symbol_id) AS distinct_acquirers,
                COUNT(*) AS total_acquires,
                COALESCE(MAX(fm.pagerank), 0.0) AS max_pagerank
         FROM sync_ops so
         JOIN file_symbols fs ON fs.id = so.symbol_id
         JOIN indexed_files f ON f.id = fs.file_id
         LEFT JOIN file_metrics fm ON fm.file_id = f.id
         WHERE f.project_id = $1
           AND so.op_kind IN ('acquire', 'acquire_read', 'acquire_write')
           AND so.resource_key IS NOT NULL
         GROUP BY so.resource_key, so.resource_kind
         ORDER BY COUNT(DISTINCT so.symbol_id) * (1.0 + COALESCE(MAX(fm.pagerank), 0.0)) DESC,
                  distinct_acquirers DESC
         LIMIT $2";

/// The locks of a project that most code competes for. They are ranked by the
/// number of distinct acquirers times one plus the page rank of the hottest
/// file that acquires the lock.
pub fn lock_contention_ranking(project_id: i32, limit: i32) -> (st: Statement)
    ensures
        st@ == fetches_all(
            LOCK_CONTENTION_RANKING_SQL@,
            seq![BindView::Int(project_id), BindView::Int(limit)],
        ),
        opens(st@.sql, "SELECT"@),
        takes(st@, "f.project_id = "@, BindView::Int(project_id)),
        takes(st@, "LIMIT "@, BindView::Int(limit)),
        says(st@.sql, "AND so.op_kind IN ('acquire', 'acquire_read', 'acquire_write')"@),
        says(st@.sql, "AND so.resource_key IS NOT NULL"@),
        says(st@.sql, "GROUP BY so.resource_key, so.resource_kind"@),
        says(
            st@.sql,
            "ORDER BY COUNT(DISTINCT so.symbol_id) * (1.0 + COALESCE(MAX(fm.pagerank), 0.0)) DESC"@,
        ),
        says(st@.sql, "FROM sync_ops"@),
{
    proof {
        lock_contention_ranking_text();
    }
    let st = Statement::all(LOCK_CONTENTION_RANKING_SQL).int4(project_id).int4(limit);
    assert(st@.sql == LOCK_CONTENTION_RANKING_SQL@);
    st
}

pub const METRIC_SERIES_1: &'static str = "SELECT EXTRACT(EPOCH FROM (now() - computed_at)) / 86400.0 AS days_ago,
                ";

pub const METRIC_SERIES_2: &'static str = "::float8 AS value
         FROM concurrency_health_history
         WHERE project_id = $1 AND computed_at >= now() - ($2::int8 * INTERVAL '1 day')
         ORDER BY computed_at ASC";

/// The query for the values of one column over time.
pub open spec fn metric_series_sql(col: Seq<char>) -> Seq<char> {
    METRIC_SERIES_1@ + col + METRIC_SERIES_2@
}

fn write_metric_series_sql(col: &str) -> (r: String)
    ensures
        r@ == metric_series_sql(col@),
{
    let mut m = String::from_str(METRIC_SERIES_1);
    m.append(col);
    m.append(METRIC_SERIES_2);
    m
}

/// Whether a text names a column that can be charted.
pub open spec fn known_metric(column: Seq<char>) -> bool {
    ||| column == "deadlock_cycle_count"@
    ||| column == "channel_cycle_count"@
    ||| column == "blocked_recv_count"@
    ||| column == "max_lock_contention"@
}

/// The values of a metric of a project over some days, the oldest first. An
/// unknown metric has none, and nothing is sent.
pub fn concurrency_metric_series(project_id: i32, column: &str, days: i32) -> (r: Option<
    Statement,
>)
    ensures
        r is Some <==> known_metric(column@),
        r matches Some(st) ==> st@ == fetches_all(
            metric_series_sql(column@),
            seq![BindView::Int(project_id), BindView::Int(days)],
        ),
        r matches Some(st) ==> opens(st@.sql, "SELECT"@),
        r matches Some(st) ==> takes(st@, "project_id = "@, BindView::Int(project_id)),
        r matches Some(st) ==> takes(st@, ">= now() - ("@, BindView::Int(days)),
        r matches Some(st) ==> says(st@.sql, "ORDER BY computed_at ASC"@),
        r matches Some(st) ==> says(st@.sql, "FROM concurrency_health_history"@),
{
    if text_eq(column, "deadlock_cycle_count") || text_eq(column, "channel_cycle_count") || text_eq(
        column,
        "blocked_recv_count",
    ) || text_eq(column, "max_lock_contention") {
        let st = Statement::all(write_metric_series_sql(column).as_str())
            .int4(project_id)
            .int4(days);
        proof {
            metric_series_1_text();
            metric_series_2_text();
            assert(st@.sql =~= METRIC_SERIES_1@ + (column@ + METRIC_SERIES_2@));
            lemma_within(st@.sql, seq![], METRIC_SERIES_1@, column@ + METRIC_SERIES_2@);
            assert(st@.sql =~= (METRIC_SERIES_1@ + column@) + METRIC_SERIES_2@);
            lemma_within(st@.sql, METRIC_SERIES_1@ + column@, METRIC_SERIES_2@, seq![]);
        }
        Some(st)
    } else {
        None
    }
}

} // verus!
