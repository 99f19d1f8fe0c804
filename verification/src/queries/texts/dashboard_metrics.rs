//! What the statements of `dashboard_metrics` say.
use vstd::prelude::*;

use crate::meaning::{mentions, opens, part_at, says};
use crate::queries::dashboard_metrics::{
    CRON_RUN_SERIES_SQL, QUALITY_GPA_SERIES_SQL, TOOL_CALL_SERIES_SQL,
};

verus! {

/// What the text of [`TOOL_CALL_SERIES_SQL`] says.
pub proof fn tool_call_series_text()
    ensures
        opens(TOOL_CALL_SERIES_SQL@, "SELECT"@),
        mentions(TOOL_CALL_SERIES_SQL@, "date_trunc("@, 1),
        mentions(TOOL_CALL_SERIES_SQL@, "mins => "@, 2),
        says(TOOL_CALL_SERIES_SQL@, "GROUP BY 1"@),
        says(TOOL_CALL_SERIES_SQL@, "ORDER BY 1"@),
        says(TOOL_CALL_SERIES_SQL@, "FROM mcp_tool_calls"@),
{
    reveal_strlit(
        "SELECT date_trunc($1, ts)                              AS ts,
                COUNT(*)::BIGINT                                AS calls,
                COUNT(*) FILTER (WHERE outcome <> 'ok')::BIGINT AS errors,
                AVG(duration_ms)::float8                        AS avg_ms
           FROM mcp_tool_calls
          WHERE ts > now() - make_interval(mins => $2)
          GROUP BY 1
          ORDER BY 1",
    );
    reveal_strlit("FROM mcp_tool_calls");
    reveal_strlit("GROUP BY 1");
    reveal_strlit("ORDER BY 1");
    reveal_strlit("SELECT");
    reveal_strlit("date_trunc(");
    reveal_strlit("mins => ");
    let t = TOOL_CALL_SERIES_SQL@;
    assert(part_at(t, 0, "SELECT"@));
    assert(part_at(t, 7, "date_trunc("@));
    assert(part_at(t, 359, "mins => "@));
    assert(part_at(t, 381, "GROUP BY 1"@));
    assert(part_at(t, 402, "ORDER BY 1"@));
    assert(part_at(t, 296, "FROM mcp_tool_calls"@));
}

/// What the text of [`CRON_RUN_SERIES_SQL`] says.
pub proof fn cron_run_series_text()
    ensures
        opens(CRON_RUN_SERIES_SQL@, "SELECT"@),
        mentions(CRON_RUN_SERIES_SQL@, "date_trunc("@, 1),
        mentions(CRON_RUN_SERIES_SQL@, "mins => "@, 2),
        says(CRON_RUN_SERIES_SQL@, "GROUP BY 1"@),
        says(CRON_RUN_SERIES_SQL@, "ORDER BY 1"@),
        says(CRON_RUN_SERIES_SQL@, "FROM cron_run_history"@),
{
    reveal_strlit(
        "SELECT date_trunc($1, started_at)                                       AS ts,
                COUNT(*)::BIGINT                                                 AS runs,
                COUNT(*) FILTER (WHERE outcome IN ('failed','panicked'))::BIGINT AS failures
           FROM cron_run_history
          WHERE started_at > now() - make_interval(mins => $2)
          GROUP BY 1
          ORDER BY 1",
    );
    reveal_strlit("FROM cron_run_history");
    reveal_strlit("GROUP BY 1");
    reveal_strlit("ORDER BY 1");
    reveal_strlit("SELECT");
    reveal_strlit("date_trunc(");
    reveal_strlit("mins => ");
    let t = CRON_RUN_SERIES_SQL@;
    assert(part_at(t, 0, "SELECT"@));
    assert(part_at(t, 7, "date_trunc("@));
    assert(part_at(t, 346, "mins => "@));
    assert(part_at(t, 368, "GROUP BY 1"@));
    assert(part_at(t, 389, "ORDER BY 1"@));
    assert(part_at(t, 273, "FROM cron_run_history"@));
}

/// What the text of [`QUALITY_GPA_SERIES_SQL`] says.
pub proof fn quality_gpa_series_text()
    ensures
        opens(QUALITY_GPA_SERIES_SQL@, "SELECT"@),
        mentions(QUALITY_GPA_SERIES_SQL@, "date_trunc("@, 1),
        mentions(QUALITY_GPA_SERIES_SQL@, "mins => "@, 2),
        says(QUALITY_GPA_SERIES_SQL@, "GROUP BY 1"@),
        says(QUALITY_GPA_SERIES_SQL@, "ORDER BY 1"@),
        says(QUALITY_GPA_SERIES_SQL@, "FROM quality_report_history"@),
{
    reveal_strlit(
        "SELECT date_trunc($1, computed_at)   AS ts,
                AVG(overall_gpa)::float8      AS overall_gpa,
                AVG(engineering_gpa)::float8  AS engineering_gpa,
                AVG(architecture_gpa)::float8 AS architecture_gpa,
                AVG(security_gpa)::float8     AS security_gpa
           FROM quality_report_history
          WHERE computed_at > now() - make_interval(mins => $2)
          GROUP BY 1
          ORDER BY 1",
    );
    reveal_strlit("FROM quality_report_history");
    reveal_strlit("GROUP BY 1");
    reveal_strlit("ORDER BY 1");
    reveal_strlit("SELECT");
    reveal_strlit("date_trunc(");
    reveal_strlit("mins => ");
    let t = QUALITY_GPA_SERIES_SQL@;
    assert(part_at(t, 0, "SELECT"@));
    assert(part_at(t, 7, "date_trunc("@));
    assert(part_at(t, 392, "mins => "@));
    assert(part_at(t, 414, "GROUP BY 1"@));
    assert(part_at(t, 435, "ORDER BY 1"@));
    assert(part_at(t, 312, "FROM quality_report_history"@));
}

} // verus!
