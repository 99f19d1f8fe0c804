//! What the statements of `concurrency` say.
use vstd::prelude::*;

use crate::meaning::{
    ends_plainly, fills, item, lined_up_at, lines_up, mentions, opens, part_at, past, past_blanks,
    says, takes,
};
use crate::queries::concurrency::{
    closes_edges, opens_edge, NewLockEdge, CLOSE_LOCK_EDGES_SQL, INSERT_CONCURRENCY_HEALTH_SQL,
    LOCK_CONTENTION_RANKING_SQL, METRIC_SERIES_1, METRIC_SERIES_2, OPEN_LOCK_EDGE_SQL,
    RECORD_CONCURRENCY_FINDING_SQL, SET_FINDING_PROMOTED_ITEM_SQL,
};
use crate::statement::{opt_text, BindView};

verus! {

/// What the text of [`RECORD_CONCURRENCY_FINDING_SQL`] says.
pub proof fn record_concurrency_finding_text()
    ensures
        opens(RECORD_CONCURRENCY_FINDING_SQL@, "INSERT INTO concurrency_findings"@),
        lines_up(
            RECORD_CONCURRENCY_FINDING_SQL@,
            "INSERT INTO concurrency_findings"@,
            "project_id"@,
            "VALUES ("@,
            1,
        ),
        lines_up(
            RECORD_CONCURRENCY_FINDING_SQL@,
            "INSERT INTO concurrency_findings"@,
            "finding_kind"@,
            "VALUES ("@,
            2,
        ),
        lines_up(
            RECORD_CONCURRENCY_FINDING_SQL@,
            "INSERT INTO concurrency_findings"@,
            "severity"@,
            "VALUES ("@,
            3,
        ),
        lines_up(
            RECORD_CONCURRENCY_FINDING_SQL@,
            "INSERT INTO concurrency_findings"@,
            "confidence"@,
            "VALUES ("@,
            4,
        ),
        lines_up(
            RECORD_CONCURRENCY_FINDING_SQL@,
            "INSERT INTO concurrency_findings"@,
            "provenance_key"@,
            "VALUES ("@,
            5,
        ),
        lines_up(
            RECORD_CONCURRENCY_FINDING_SQL@,
            "INSERT INTO concurrency_findings"@,
            "symbol_id"@,
            "VALUES ("@,
            6,
        ),
        lines_up(
            RECORD_CONCURRENCY_FINDING_SQL@,
            "INSERT INTO concurrency_findings"@,
            "file_id"@,
            "VALUES ("@,
            7,
        ),
        lines_up(
            RECORD_CONCURRENCY_FINDING_SQL@,
            "INSERT INTO concurrency_findings"@,
            "evidence"@,
            "VALUES ("@,
            8,
        ),
        lines_up(
            RECORD_CONCURRENCY_FINDING_SQL@,
            "INSERT INTO concurrency_findings"@,
            "title"@,
            "VALUES ("@,
            9,
        ),
        says(RECORD_CONCURRENCY_FINDING_SQL@, "ON CONFLICT (provenance_key) DO UPDATE SET"@),
{
    reveal_strlit(
        "INSERT INTO concurrency_findings
            (project_id, finding_kind, severity, confidence, provenance_key,
             symbol_id, file_id, evidence, title)
         VALUES ($1, $2, $3, $4, $5, $6, $7, $8, $9)
         ON CONFLICT (provenance_key) DO UPDATE SET
            observed_at = now(),
            severity    = EXCLUDED.severity,
            confidence  = EXCLUDED.confidence,
            evidence    = EXCLUDED.evidence,
            title       = EXCLUDED.title
         RETURNING id",
    );
    reveal_strlit("INSERT INTO concurrency_findings");
    reveal_strlit("ON CONFLICT (provenance_key) DO UPDATE SET");
    reveal_strlit("VALUES (");
    reveal_strlit("confidence");
    reveal_strlit("evidence");
    reveal_strlit("file_id");
    reveal_strlit("finding_kind");
    reveal_strlit("project_id");
    reveal_strlit("provenance_key");
    reveal_strlit("severity");
    reveal_strlit("symbol_id");
    reveal_strlit("title");
    let t = RECORD_CONCURRENCY_FINDING_SQL@;
    assert(part_at(t, 0, "INSERT INTO concurrency_findings"@));
    reveal_with_fuel(past, 16);
    reveal_with_fuel(past_blanks, 15);
    assert(past(t, 32, '(') == 46);
    assert(item(t, 46, 0) == 46);
    assert(item(t, 46, 1) == 58);
    assert(item(t, 46, 2) == 72);
    assert(item(t, 46, 3) == 82);
    assert(item(t, 46, 4) == 94);
    assert(item(t, 46, 5) == 123);
    assert(item(t, 46, 6) == 134);
    assert(item(t, 46, 7) == 143);
    assert(item(t, 46, 8) == 153);
    assert(item(t, 177, 0) == 177);
    assert(item(t, 177, 1) == 181);
    assert(item(t, 177, 2) == 185);
    assert(item(t, 177, 3) == 189);
    assert(item(t, 177, 4) == 193);
    assert(item(t, 177, 5) == 197);
    assert(item(t, 177, 6) == 201);
    assert(item(t, 177, 7) == 205);
    assert(item(t, 177, 8) == 209);
    assert(lined_up_at(
        t,
        "INSERT INTO concurrency_findings"@,
        "project_id"@,
        "VALUES ("@,
        1,
        0,
        169,
        0,
    ));
    assert(lined_up_at(
        t,
        "INSERT INTO concurrency_findings"@,
        "finding_kind"@,
        "VALUES ("@,
        2,
        0,
        169,
        1,
    ));
    assert(lined_up_at(
        t,
        "INSERT INTO concurrency_findings"@,
        "severity"@,
        "VALUES ("@,
        3,
        0,
        169,
        2,
    ));
    assert(lined_up_at(
        t,
        "INSERT INTO concurrency_findings"@,
        "confidence"@,
        "VALUES ("@,
        4,
        0,
        169,
        3,
    ));
    assert(lined_up_at(
        t,
        "INSERT INTO concurrency_findings"@,
        "provenance_key"@,
        "VALUES ("@,
        5,
        0,
        169,
        4,
    ));
    assert(lined_up_at(
        t,
        "INSERT INTO concurrency_findings"@,
        "symbol_id"@,
        "VALUES ("@,
        6,
        0,
        169,
        5,
    ));
    assert(lined_up_at(
        t,
        "INSERT INTO concurrency_findings"@,
        "file_id"@,
        "VALUES ("@,
        7,
        0,
        169,
        6,
    ));
    assert(lined_up_at(
        t,
        "INSERT INTO concurrency_findings"@,
        "evidence"@,
        "VALUES ("@,
        8,
        0,
        169,
        7,
    ));
    assert(lined_up_at(
        t,
        "INSERT INTO concurrency_findings"@,
        "title"@,
        "VALUES ("@,
        9,
        0,
        169,
        8,
    ));
    assert(part_at(t, 222, "ON CONFLICT (provenance_key) DO UPDATE SET"@));
}

/// What the text of [`SET_FINDING_PROMOTED_ITEM_SQL`] says.
pub proof fn set_finding_promoted_item_text()
    ensures
        opens(SET_FINDING_PROMOTED_ITEM_SQL@, "UPDATE concurrency_findings"@),
        mentions(SET_FINDING_PROMOTED_ITEM_SQL@, "$2 WHERE id = "@, 1),
        mentions(SET_FINDING_PROMOTED_ITEM_SQL@, "promoted_item_id = "@, 2),
{
    reveal_strlit(
        "UPDATE concurrency_findings SET promoted_item_id = $2 WHERE id = $1",
    );
    reveal_strlit("$2 WHERE id = ");
    reveal_strlit("UPDATE concurrency_findings");
    reveal_strlit("promoted_item_id = ");
    let t = SET_FINDING_PROMOTED_ITEM_SQL@;
    assert(part_at(t, 0, "UPDATE concurrency_findings"@));
    assert(part_at(t, 51, "$2 WHERE id = "@));
    assert(part_at(t, 32, "promoted_item_id = "@));
}

/// What the text of [`OPEN_LOCK_EDGE_SQL`] says.
#[verifier::rlimit(50)]
pub proof fn open_lock_edge_text()
    ensures
        opens(OPEN_LOCK_EDGE_SQL@, "INSERT INTO lock_order_edges"@),
        lines_up(
            OPEN_LOCK_EDGE_SQL@,
            "INSERT INTO lock_order_edges"@,
            "project_id"@,
            "VALUES ("@,
            1,
        ),
        lines_up(OPEN_LOCK_EDGE_SQL@, "INSERT INTO lock_order_edges"@, "from_key"@, "VALUES ("@, 2),
        lines_up(OPEN_LOCK_EDGE_SQL@, "INSERT INTO lock_order_edges"@, "to_key"@, "VALUES ("@, 3),
        lines_up(
            OPEN_LOCK_EDGE_SQL@,
            "INSERT INTO lock_order_edges"@,
            "from_mode"@,
            "VALUES ("@,
            4,
        ),
        lines_up(OPEN_LOCK_EDGE_SQL@, "INSERT INTO lock_order_edges"@, "to_mode"@, "VALUES ("@, 5),
        lines_up(
            OPEN_LOCK_EDGE_SQL@,
            "INSERT INTO lock_order_edges"@,
            "min_confidence"@,
            "VALUES ("@,
            6,
        ),
        lines_up(
            OPEN_LOCK_EDGE_SQL@,
            "INSERT INTO lock_order_edges"@,
            "interprocedural"@,
            "VALUES ("@,
            7,
        ),
        says(
            OPEN_LOCK_EDGE_SQL@,
            "ON CONFLICT (project_id, from_key, to_key) WHERE valid_to IS NULL"@,
        ),
        says(OPEN_LOCK_EDGE_SQL@, "interprocedural = EXCLUDED.interprocedural"@),
{
    reveal_strlit(
        "INSERT INTO lock_order_edges
                (project_id, from_key, to_key, from_mode, to_mode, min_confidence,
                 interprocedural, valid_from, valid_to, last_seen_at)
             VALUES ($1, $2, $3, $4, $5, $6, $7, now(), NULL, now())
             ON CONFLICT (project_id, from_key, to_key) WHERE valid_to IS NULL
             DO UPDATE SET
                last_seen_at    = now(),
                min_confidence  = EXCLUDED.min_confidence,
                from_mode       = EXCLUDED.from_mode,
                to_mode         = EXCLUDED.to_mode,
                interprocedural = EXCLUDED.interprocedural",
    );
    reveal_strlit("INSERT INTO lock_order_edges");
    reveal_strlit("ON CONFLICT (project_id, from_key, to_key) WHERE valid_to IS NULL");
    reveal_strlit("VALUES (");
    reveal_strlit("from_key");
    reveal_strlit("from_mode");
    reveal_strlit("interprocedural");
    reveal_strlit("interprocedural = EXCLUDED.interprocedural");
    reveal_strlit("min_confidence");
    reveal_strlit("project_id");
    reveal_strlit("to_key");
    reveal_strlit("to_mode");
    let t = OPEN_LOCK_EDGE_SQL@;
    assert(part_at(t, 0, "INSERT INTO lock_order_edges"@));
    reveal_with_fuel(past, 19);
    reveal_with_fuel(past_blanks, 19);
    assert(past(t, 28, '(') == 46);
    assert(item(t, 46, 0) == 46);
    assert(item(t, 46, 1) == 58);
    assert(item(t, 46, 2) == 68);
    assert(item(t, 46, 3) == 76);
    assert(item(t, 46, 4) == 87);
    assert(item(t, 46, 5) == 96);
    assert(item(t, 46, 6) == 129);
    assert(item(t, 203, 0) == 203);
    assert(item(t, 203, 1) == 207);
    assert(item(t, 203, 2) == 211);
    assert(item(t, 203, 3) == 215);
    assert(item(t, 203, 4) == 219);
    assert(item(t, 203, 5) == 223);
    assert(item(t, 203, 6) == 227);
    assert(lined_up_at(
        t,
        "INSERT INTO lock_order_edges"@,
        "project_id"@,
        "VALUES ("@,
        1,
        0,
        195,
        0,
    ));
    assert(lined_up_at(t, "INSERT INTO lock_order_edges"@, "from_key"@, "VALUES ("@, 2, 0, 195, 1));
    assert(lined_up_at(t, "INSERT INTO lock_order_edges"@, "to_key"@, "VALUES ("@, 3, 0, 195, 2));
    assert(lined_up_at(
        t,
        "INSERT INTO lock_order_edges"@,
        "from_mode"@,
        "VALUES ("@,
        4,
        0,
        195,
        3,
    ));
    assert(lined_up_at(t, "INSERT INTO lock_order_edges"@, "to_mode"@, "VALUES ("@, 5, 0, 195, 4));
    assert(lined_up_at(
        t,
        "INSERT INTO lock_order_edges"@,
        "min_confidence"@,
        "VALUES ("@,
        6,
        0,
        195,
        5,
    ));
    assert(lined_up_at(
        t,
        "INSERT INTO lock_order_edges"@,
        "interprocedural"@,
        "VALUES ("@,
        7,
        0,
        195,
        6,
    ));
    assert(part_at(t, 264, "ON CONFLICT (project_id, from_key, to_key) WHERE valid_to IS NULL"@));
    assert(part_at(t, 579, "interprocedural = EXCLUDED.interprocedural"@));
}

/// What the text of [`CLOSE_LOCK_EDGES_SQL`] says.
pub proof fn close_lock_edges_text()
    ensures
        opens(CLOSE_LOCK_EDGES_SQL@, "UPDATE lock_order_edges"@),
        mentions(CLOSE_LOCK_EDGES_SQL@, "project_id = "@, 1),
{
    reveal_strlit(
        "UPDATE lock_order_edges SET valid_to = now()
         WHERE project_id = $1 AND valid_to IS NULL AND last_seen_at < now()",
    );
    reveal_strlit("UPDATE lock_order_edges");
    reveal_strlit("project_id = ");
    let t = CLOSE_LOCK_EDGES_SQL@;
    assert(part_at(t, 0, "UPDATE lock_order_edges"@));
    assert(part_at(t, 60, "project_id = "@));
}

/// What the text of [`INSERT_CONCURRENCY_HEALTH_SQL`] says.
pub proof fn insert_concurrency_health_text()
    ensures
        opens(INSERT_CONCURRENCY_HEALTH_SQL@, "INSERT INTO concurrency_health_history"@),
        lines_up(
            INSERT_CONCURRENCY_HEALTH_SQL@,
            "INSERT INTO concurrency_health_history"@,
            "project_id"@,
            "VALUES ("@,
            1,
        ),
        lines_up(
            INSERT_CONCURRENCY_HEALTH_SQL@,
            "INSERT INTO concurrency_health_history"@,
            "deadlock_cycle_count"@,
            "VALUES ("@,
            2,
        ),
        lines_up(
            INSERT_CONCURRENCY_HEALTH_SQL@,
            "INSERT INTO concurrency_health_history"@,
            "channel_cycle_count"@,
            "VALUES ("@,
            3,
        ),
        lines_up(
            INSERT_CONCURRENCY_HEALTH_SQL@,
            "INSERT INTO concurrency_health_history"@,
            "blocked_recv_count"@,
            "VALUES ("@,
            4,
        ),
        lines_up(
            INSERT_CONCURRENCY_HEALTH_SQL@,
            "INSERT INTO concurrency_health_history"@,
            "max_lock_contention"@,
            "VALUES ("@,
            5,
        ),
        lines_up(
            INSERT_CONCURRENCY_HEALTH_SQL@,
            "INSERT INTO concurrency_health_history"@,
            "raw_summary"@,
            "VALUES ("@,
            6,
        ),
{
    reveal_strlit(
        "INSERT INTO concurrency_health_history
            (project_id, deadlock_cycle_count, channel_cycle_count, blocked_recv_count,
             max_lock_contention, raw_summary)
         VALUES ($1, $2, $3, $4, $5, $6)",
    );
    reveal_strlit("INSERT INTO concurrency_health_history");
    reveal_strlit("VALUES (");
    reveal_strlit("blocked_recv_count");
    reveal_strlit("channel_cycle_count");
    reveal_strlit("deadlock_cycle_count");
    reveal_strlit("max_lock_contention");
    reveal_strlit("project_id");
    reveal_strlit("raw_summary");
    let t = INSERT_CONCURRENCY_HEALTH_SQL@;
    assert(part_at(t, 0, "INSERT INTO concurrency_health_history"@));
    reveal_with_fuel(past, 22);
    reveal_with_fuel(past_blanks, 15);
    assert(past(t, 38, '(') == 52);
    assert(item(t, 52, 0) == 52);
    assert(item(t, 52, 1) == 64);
    assert(item(t, 52, 2) == 86);
    assert(item(t, 52, 3) == 107);
    assert(item(t, 52, 4) == 140);
    assert(item(t, 52, 5) == 161);
    assert(item(t, 191, 0) == 191);
    assert(item(t, 191, 1) == 195);
    assert(item(t, 191, 2) == 199);
    assert(item(t, 191, 3) == 203);
    assert(item(t, 191, 4) == 207);
    assert(item(t, 191, 5) == 211);
    assert(lined_up_at(
        t,
        "INSERT INTO concurrency_health_history"@,
        "project_id"@,
        "VALUES ("@,
        1,
        0,
        183,
        0,
    ));
    assert(lined_up_at(
        t,
        "INSERT INTO concurrency_health_history"@,
        "deadlock_cycle_count"@,
        "VALUES ("@,
        2,
        0,
        183,
        1,
    ));
    assert(lined_up_at(
        t,
        "INSERT INTO concurrency_health_history"@,
        "channel_cycle_count"@,
        "VALUES ("@,
        3,
        0,
        183,
        2,
    ));
    assert(lined_up_at(
        t,
        "INSERT INTO concurrency_health_history"@,
        "blocked_recv_count"@,
        "VALUES ("@,
        4,
        0,
        183,
        3,
    ));
    assert(lined_up_at(
        t,
        "INSERT INTO concurrency_health_history"@,
        "max_lock_contention"@,
        "VALUES ("@,
        5,
        0,
        183,
        4,
    ));
    assert(lined_up_at(
        t,
        "INSERT INTO concurrency_health_history"@,
        "raw_summary"@,
        "VALUES ("@,
        6,
        0,
        183,
        5,
    ));
}

/// What the text of [`LOCK_CONTENTION_RANKING_SQL`] says.
#[verifier::rlimit(50)]
pub proof fn lock_contention_ranking_text()
    ensures
        opens(LOCK_CONTENTION_RANKING_SQL@, "SELECT"@),
        mentions(LOCK_CONTENTION_RANKING_SQL@, "f.project_id = "@, 1),
        mentions(LOCK_CONTENTION_RANKING_SQL@, "LIMIT "@, 2),
        says(
            LOCK_CONTENTION_RANKING_SQL@,
            "AND so.op_kind IN ('acquire', 'acquire_read', 'acquire_write')"@,
        ),
        says(LOCK_CONTENTION_RANKING_SQL@, "AND so.resource_key IS NOT NULL"@),
        says(LOCK_CONTENTION_RANKING_SQL@, "GROUP BY so.resource_key, so.resource_kind"@),
        says(
            LOCK_CONTENTION_RANKING_SQL@,
            "ORDER BY COUNT(DISTINCT so.symbol_id) * (1.0 + COALESCE(MAX(fm.pagerank), 0.0)) DESC"@,
        ),
        says(LOCK_CONTENTION_RANKING_SQL@, "FROM sync_ops"@),
        says(LOCK_CONTENTION_RANKING_SQL@, "JOIN file_symbols fs ON fs.id = so.symbol_id"@),
        says(LOCK_CONTENTION_RANKING_SQL@, "JOIN indexed_files f ON f.id = fs.file_id"@),
        says(LOCK_CONTENTION_RANKING_SQL@, "LEFT JOIN file_metrics fm ON fm.file_id = f.id"@),
{
    reveal_strlit(
        "SELECT so.resource_key, so.resource_kind,
                COUNT(DISTINCT so.symbol_id) AS distinct_acquirers,
                COUNT(*) AS total_acquires,
                COALESCE(MAX(fm.pagerank), 0.0) AS max_pagerank
         FROM sync_ops so
         JOIN file_symbols fs ON fs.id = so.symbol_id
         JOIN indexed_files f ON f.id = fs.file_id
         LEFT JOIN file_metrics fm ON fm.file_id = f.id
         WHERE f.project_id = $1
           AND so.op_kind IN ('acquire', 'acquire_read', 'acquire_write')
           AND so.resource_key IS NOT NULL
         GROUP BY so.resource_key, so.resource_kind
         ORDER BY COUNT(DISTINCT so.symbol_id) * (1.0 + COALESCE(MAX(fm.pagerank), 0.0)) DESC,
                  distinct_acquirers DESC
         LIMIT $2",
    );
    reveal_strlit("AND so.op_kind IN ('acquire', 'acquire_read', 'acquire_write')");
    reveal_strlit("AND so.resource_key IS NOT NULL");
    reveal_strlit("FROM sync_ops");
    reveal_strlit("GROUP BY so.resource_key, so.resource_kind");
    reveal_strlit("JOIN file_symbols fs ON fs.id = so.symbol_id");
    reveal_strlit("JOIN indexed_files f ON f.id = fs.file_id");
    reveal_strlit("LEFT JOIN file_metrics fm ON fm.file_id = f.id");
    reveal_strlit("LIMIT ");
    reveal_strlit("ORDER BY COUNT(DISTINCT so.symbol_id) * (1.0 + COALESCE(MAX(fm.pagerank), 0.0)) DESC");
    reveal_strlit("SELECT");
    reveal_strlit("f.project_id = ");
    let t = LOCK_CONTENTION_RANKING_SQL@;
    assert(part_at(t, 0, "SELECT"@));
    assert(part_at(t, 420, "f.project_id = "@));
    assert(part_at(t, 753, "LIMIT "@));
    assert(part_at(t, 449, "AND so.op_kind IN ('acquire', 'acquire_read', 'acquire_write')"@));
    assert(part_at(t, 523, "AND so.resource_key IS NOT NULL"@));
    assert(part_at(t, 564, "GROUP BY so.resource_key, so.resource_kind"@));
    assert(part_at(
        t,
        616,
        "ORDER BY COUNT(DISTINCT so.symbol_id) * (1.0 + COALESCE(MAX(fm.pagerank), 0.0)) DESC"@,
    ));
    assert(part_at(t, 227, "FROM sync_ops"@));
    assert(part_at(t, 253, "JOIN file_symbols fs ON fs.id = so.symbol_id"@));
    assert(part_at(t, 307, "JOIN indexed_files f ON f.id = fs.file_id"@));
    assert(part_at(t, 358, "LEFT JOIN file_metrics fm ON fm.file_id = f.id"@));
}

/// What the text of [`METRIC_SERIES_1`] says.
pub proof fn metric_series_1_text()
    ensures
        opens(METRIC_SERIES_1@, "SELECT"@),
        ends_plainly(METRIC_SERIES_1@),
{
    reveal_strlit(
        "SELECT EXTRACT(EPOCH FROM (now() - computed_at)) / 86400.0 AS days_ago,
                ",
    );
    reveal_strlit("SELECT");
    let t = METRIC_SERIES_1@;
    assert(part_at(t, 0, "SELECT"@));
}

/// What the text of [`METRIC_SERIES_2`] says.
pub proof fn metric_series_2_text()
    ensures
        mentions(METRIC_SERIES_2@, "project_id = "@, 1),
        mentions(METRIC_SERIES_2@, ">= now() - ("@, 2),
        says(METRIC_SERIES_2@, "ORDER BY computed_at ASC"@),
        says(METRIC_SERIES_2@, "FROM concurrency_health_history"@),
        ends_plainly(METRIC_SERIES_2@),
{
    reveal_strlit(
        "::float8 AS value
         FROM concurrency_health_history
         WHERE project_id = $1 AND computed_at >= now() - ($2::int8 * INTERVAL '1 day')
         ORDER BY computed_at ASC",
    );
    reveal_strlit(">= now() - (");
    reveal_strlit("FROM concurrency_health_history");
    reveal_strlit("ORDER BY computed_at ASC");
    reveal_strlit("project_id = ");
    let t = METRIC_SERIES_2@;
    assert(part_at(t, 74, "project_id = "@));
    assert(part_at(t, 106, ">= now() - ("@));
    assert(part_at(t, 156, "ORDER BY computed_at ASC"@));
    assert(part_at(t, 27, "FROM concurrency_health_history"@));
}

/// Each argument of [`opens_edge`] is what the text names in its place.
pub proof fn law_opens_edge_stands_for_its_values(project_id: i32, e: NewLockEdge)
    ensures
        opens(opens_edge(project_id, e).sql, "INSERT INTO lock_order_edges"@),
        fills(
            opens_edge(project_id, e),
            "INSERT INTO lock_order_edges"@,
            "project_id"@,
            "VALUES ("@,
            BindView::Int(project_id),
        ),
        fills(
            opens_edge(project_id, e),
            "INSERT INTO lock_order_edges"@,
            "from_key"@,
            "VALUES ("@,
            BindView::Text(e.from_key@),
        ),
        fills(
            opens_edge(project_id, e),
            "INSERT INTO lock_order_edges"@,
            "to_key"@,
            "VALUES ("@,
            BindView::Text(e.to_key@),
        ),
        fills(
            opens_edge(project_id, e),
            "INSERT INTO lock_order_edges"@,
            "from_mode"@,
            "VALUES ("@,
            BindView::OptText(opt_text(e.from_mode)),
        ),
        fills(
            opens_edge(project_id, e),
            "INSERT INTO lock_order_edges"@,
            "to_mode"@,
            "VALUES ("@,
            BindView::OptText(opt_text(e.to_mode)),
        ),
        fills(
            opens_edge(project_id, e),
            "INSERT INTO lock_order_edges"@,
            "min_confidence"@,
            "VALUES ("@,
            BindView::Supplied(0),
        ),
        fills(
            opens_edge(project_id, e),
            "INSERT INTO lock_order_edges"@,
            "interprocedural"@,
            "VALUES ("@,
            BindView::Bool(e.interprocedural),
        ),
        says(
            opens_edge(project_id, e).sql,
            "ON CONFLICT (project_id, from_key, to_key) WHERE valid_to IS NULL"@,
        ),
        says(opens_edge(project_id, e).sql, "interprocedural = EXCLUDED.interprocedural"@),
{
    open_lock_edge_text();
    assert(opens_edge(project_id, e).sql == OPEN_LOCK_EDGE_SQL@);
}

/// Each argument of [`closes_edges`] is what the text names in its place.
pub proof fn law_closes_edges_stands_for_its_values(project_id: i32)
    ensures
        opens(closes_edges(project_id).sql, "UPDATE lock_order_edges"@),
        takes(closes_edges(project_id), "project_id = "@, BindView::Int(project_id)),
{
    close_lock_edges_text();
    assert(closes_edges(project_id).sql == CLOSE_LOCK_EDGES_SQL@);
}

} // verus!
