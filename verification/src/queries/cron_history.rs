//! The ledger of scheduled jobs.
use vstd::prelude::*;

use crate::meaning::{opens, says, takes};
use crate::queries::texts::cron_history::{
    cron_job_rollup_text, delete_cron_runs_older_than_text, last_successful_completions_text,
    recent_cron_runs_text,
};
use crate::statement::{executes, fetches_all, opt_str, opt_text, BindView, Statement};

verus! {

pub const LAST_SUCCESSFUL_COMPLETIONS_SQL: &'static str = "SELECT job_name, MAX(completed_at) AS last_ok
           FROM cron_run_history
          WHERE outcome = 'ok'
          GROUP BY job_name";

/// When each job last succeeded.
pub fn last_successful_completions() -> (st: Statement)
    ensures
        st@ == fetches_all(LAST_SUCCESSFUL_COMPLETIONS_SQL@, seq![]),
        opens(st@.sql, "SELECT"@),
        says(st@.sql, "WHERE outcome = 'ok'"@),
        says(st@.sql, "GROUP BY job_name"@),
        says(st@.sql, "FROM cron_run_history"@),
{
    proof {
        last_successful_completions_text();
    }
    let st = Statement::all(LAST_SUCCESSFUL_COMPLETIONS_SQL);
    assert(st@.sql == LAST_SUCCESSFUL_COMPLETIONS_SQL@);
    st
}

pub const RECENT_CRON_RUNS_SQL: &'static str = "SELECT id, job_name, trigger_source, outcome, skip_reason, error_detail,
                project, started_at, completed_at, duration_ms,
                rss_mb_delta, threads_delta, counters
           FROM cron_run_history
          WHERE ($1::text IS NULL OR job_name = $1)
          ORDER BY completed_at DESC
          LIMIT $2";

/// Recent runs, optionally of one job, the newest first.
pub fn recent_cron_runs(job: Option<&str>, limit: i64) -> (st: Statement)
    ensures
        st@ == fetches_all(
            RECENT_CRON_RUNS_SQL@,
            seq![
                BindView::OptText(opt_str(job)),
                BindView::BigInt(limit),
            ],
        ),
        opens(st@.sql, "SELECT"@),
        takes(st@, "job_name = "@, BindView::OptText(opt_str(job))),
        takes(st@, "LIMIT "@, BindView::BigInt(limit)),
        says(st@.sql, "ORDER BY completed_at DESC"@),
        says(st@.sql, "FROM cron_run_history"@),
{
    proof {
        recent_cron_runs_text();
    }
    let st = Statement::all(RECENT_CRON_RUNS_SQL).opt_text(job).int8(limit);
    assert(st@.sql == RECENT_CRON_RUNS_SQL@);
    st
}

pub const CRON_JOB_ROLLUP_SQL: &'static str = "SELECT job_name,
                (array_agg(outcome ORDER BY completed_at DESC))[1] AS last_outcome,
                MAX(completed_at)                                  AS last_completed_at,
                MAX(completed_at) FILTER (WHERE outcome = 'ok')    AS last_ok,
                COUNT(*)                                           AS run_count,
                COUNT(*) FILTER (WHERE outcome = 'ok')             AS ok_count,
                COUNT(*) FILTER (WHERE outcome IN ('failed','panicked')) AS fail_count,
                COUNT(*) FILTER (WHERE outcome = 'skipped')        AS skip_count,
                AVG(duration_ms)::bigint                           AS avg_ms,
                (array_agg(error_detail ORDER BY completed_at DESC)
                   FILTER (WHERE error_detail IS NOT NULL))[1]     AS last_error,
                (array_agg(skip_reason ORDER BY completed_at DESC)
                   FILTER (WHERE skip_reason IS NOT NULL))[1]      AS last_skip_reason
           FROM cron_run_history
          GROUP BY job_name
          ORDER BY job_name";

/// A summary of the runs of each job.
pub fn cron_job_rollup() -> (st: Statement)
    ensures
        st@ == fetches_all(CRON_JOB_ROLLUP_SQL@, seq![]),
        opens(st@.sql, "SELECT"@),
        says(st@.sql, "ORDER BY completed_at DESC))[1] AS last_outcome"@),
        says(st@.sql, "ORDER BY completed_at DESC)"@),
        says(st@.sql, "GROUP BY job_name"@),
        says(st@.sql, "ORDER BY job_name"@),
        says(st@.sql, "FROM cron_run_history"@),
{
    proof {
        cron_job_rollup_text();
    }
    let st = Statement::all(CRON_JOB_ROLLUP_SQL);
    assert(st@.sql == CRON_JOB_ROLLUP_SQL@);
    st
}

pub const DELETE_CRON_RUNS_OLDER_THAN_SQL: &'static str = "DELETE FROM cron_run_history
          WHERE completed_at < now() - make_interval(days => $1::int)";

/// Deletes the runs that are older than a number of days. No days, or fewer:
/// all are kept, and nothing is sent.
pub fn delete_cron_runs_older_than(days: i64) -> (r: Option<Statement>)
    ensures
        r is None <==> days <= 0,
        r matches Some(st) ==> st@ == executes(
            DELETE_CRON_RUNS_OLDER_THAN_SQL@,
            seq![BindView::Int(days as i32)],
        ),
        r matches Some(st) ==> opens(st@.sql, "DELETE FROM cron_run_history"@),
        r matches Some(st) ==> takes(st@, "days => "@, BindView::Int(days as i32)),
{
    proof {
        delete_cron_runs_older_than_text();
    }
    if days <= 0 {
        return None;
    }
    let n: i32 = #[verifier::truncate]
    (days as i32);
    let st = Statement::execute(DELETE_CRON_RUNS_OLDER_THAN_SQL).int4(n);
    assert(st@.sql == DELETE_CRON_RUNS_OLDER_THAN_SQL@);
    Some(st)
}

} // verus!
