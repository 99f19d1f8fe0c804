//! Time series for the dashboard.
use vstd::prelude::*;

use crate::meaning::{opens, says, takes};
use crate::queries::texts::dashboard_metrics::{
    cron_run_series_text, quality_gpa_series_text, tool_call_series_text,
};
use crate::statement::{fetches_all, BindView, Statement};

verus! {

pub const TOOL_CALL_SERIES_SQL: &'static str = "SELECT date_trunc($1, ts)                              AS ts,
                COUNT(*)::BIGINT                                AS calls,
                COUNT(*) FILTER (WHERE outcome <> 'ok')::BIGINT AS errors,
                AVG(duration_ms)::float8                        AS avg_ms
           FROM mcp_tool_calls
          WHERE ts > now() - make_interval(mins => $2)
          GROUP BY 1
          ORDER BY 1";

/// Tool calls per hour or day, as `bucket` says, over the last minutes, the
/// oldest first.
pub fn tool_call_series(bucket: &str, since_minutes: i64) -> (st: Statement)
    ensures
        st@ == fetches_all(
            TOOL_CALL_SERIES_SQL@,
            seq![
                BindView::Text(bucket@),
                BindView::Int(since_minutes as i32),
            ],
        ),
        opens(st@.sql, "SELECT"@),
        takes(st@, "date_trunc("@, BindView::Text(bucket@)),
        takes(st@, "mins => "@, BindView::Int(since_minutes as i32)),
        says(st@.sql, "GROUP BY 1"@),
        says(st@.sql, "ORDER BY 1"@),
        says(st@.sql, "FROM mcp_tool_calls"@),
{
    proof {
        tool_call_series_text();
    }
    let st = Statement::all(TOOL_CALL_SERIES_SQL).text(bucket).int4(since_minutes as i32);
    assert(st@.sql == TOOL_CALL_SERIES_SQL@);
    st
}

pub const CRON_RUN_SERIES_SQL: &'static str = "SELECT date_trunc($1, started_at)                                       AS ts,
                COUNT(*)::BIGINT                                                 AS runs,
                COUNT(*) FILTER (WHERE outcome IN ('failed','panicked'))::BIGINT AS failures
           FROM cron_run_history
          WHERE started_at > now() - make_interval(mins => $2)
          GROUP BY 1
          ORDER BY 1";

/// Runs of scheduled jobs per hour or day, as `bucket` says, over the last
/// minutes, the oldest first.
pub fn cron_run_series(bucket: &str, since_minutes: i64) -> (st: Statement)
    ensures
        st@ == fetches_all(
            CRON_RUN_SERIES_SQL@,
            seq![
                BindView::Text(bucket@),
                BindView::Int(since_minutes as i32),
            ],
        ),
        opens(st@.sql, "SELECT"@),
        takes(st@, "date_trunc("@, BindView::Text(bucket@)),
        takes(st@, "mins => "@, BindView::Int(since_minutes as i32)),
        says(st@.sql, "GROUP BY 1"@),
        says(st@.sql, "ORDER BY 1"@),
        says(st@.sql, "FROM cron_run_history"@),
{
    proof {
        cron_run_series_text();
    }
    let st = Statement::all(CRON_RUN_SERIES_SQL).text(bucket).int4(since_minutes as i32);
    assert(st@.sql == CRON_RUN_SERIES_SQL@);
    st
}

pub const QUALITY_GPA_SERIES_SQL: &'static str = "SELECT date_trunc($1, computed_at)   AS ts,
                AVG(overall_gpa)::float8      AS overall_gpa,
                AVG(engineering_gpa)::float8  AS engineering_gpa,
                AVG(architecture_gpa)::float8 AS architecture_gpa,
                AVG(security_gpa)::float8     AS security_gpa
           FROM quality_report_history
          WHERE computed_at > now() - make_interval(mins => $2)
          GROUP BY 1
          ORDER BY 1";

/// Mean quality grades per hour or day, as `bucket` says, over the last
/// minutes, the oldest first.
pub fn quality_gpa_series(bucket: &str, since_minutes: i64) -> (st: Statement)
    ensures
        st@ == fetches_all(
            QUALITY_GPA_SERIES_SQL@,
            seq![
                BindView::Text(bucket@),
                BindView::Int(since_minutes as i32),
            ],
        ),
        opens(st@.sql, "SELECT"@),
        takes(st@, "date_trunc("@, BindView::Text(bucket@)),
        takes(st@, "mins => "@, BindView::Int(since_minutes as i32)),
        says(st@.sql, "GROUP BY 1"@),
        says(st@.sql, "ORDER BY 1"@),
        says(st@.sql, "FROM quality_report_history"@),
{
    proof {
        quality_gpa_series_text();
    }
    let st = Statement::all(QUALITY_GPA_SERIES_SQL).text(bucket).int4(since_minutes as i32);
    assert(st@.sql == QUALITY_GPA_SERIES_SQL@);
    st
}

} // verus!
