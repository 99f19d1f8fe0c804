//! What the statements of `cron_history` say.
use vstd::prelude::*;

use crate::meaning::{mentions, opens, part_at, says};
use crate::queries::cron_history::{
    CRON_JOB_ROLLUP_SQL, DELETE_CRON_RUNS_OLDER_THAN_SQL, LAST_SUCCESSFUL_COMPLETIONS_SQL,
    RECENT_CRON_RUNS_SQL,
};

verus! {

/// What the text of [`LAST_SUCCESSFUL_COMPLETIONS_SQL`] says.
pub proof fn last_successful_completions_text()
    ensures
        opens(LAST_SUCCESSFUL_COMPLETIONS_SQL@, "SELECT"@),
        says(LAST_SUCCESSFUL_COMPLETIONS_SQL@, "WHERE outcome = 'ok'"@),
        says(LAST_SUCCESSFUL_COMPLETIONS_SQL@, "GROUP BY job_name"@),
        says(LAST_SUCCESSFUL_COMPLETIONS_SQL@, "FROM cron_run_history"@),
{
    reveal_strlit(
        "SELECT job_name, MAX(completed_at) AS last_ok
           FROM cron_run_history
          WHERE outcome = 'ok'
          GROUP BY job_name",
    );
    reveal_strlit("FROM cron_run_history");
    reveal_strlit("GROUP BY job_name");
    reveal_strlit("SELECT");
    reveal_strlit("WHERE outcome = 'ok'");
    let t = LAST_SUCCESSFUL_COMPLETIONS_SQL@;
    assert(part_at(t, 0, "SELECT"@));
    assert(part_at(t, 89, "WHERE outcome = 'ok'"@));
    assert(part_at(t, 120, "GROUP BY job_name"@));
    assert(part_at(t, 57, "FROM cron_run_history"@));
}

/// What the text of [`RECENT_CRON_RUNS_SQL`] says.
pub proof fn recent_cron_runs_text()
    ensures
        opens(RECENT_CRON_RUNS_SQL@, "SELECT"@),
        mentions(RECENT_CRON_RUNS_SQL@, "job_name = "@, 1),
        mentions(RECENT_CRON_RUNS_SQL@, "LIMIT "@, 2),
        says(RECENT_CRON_RUNS_SQL@, "ORDER BY completed_at DESC"@),
        says(RECENT_CRON_RUNS_SQL@, "FROM cron_run_history"@),
{
    reveal_strlit(
        "SELECT id, job_name, trigger_source, outcome, skip_reason, error_detail,
                project, started_at, completed_at, duration_ms,
                rss_mb_delta, threads_delta, counters
           FROM cron_run_history
          WHERE ($1::text IS NULL OR job_name = $1)
          ORDER BY completed_at DESC
          LIMIT $2",
    );
    reveal_strlit("FROM cron_run_history");
    reveal_strlit("LIMIT ");
    reveal_strlit("ORDER BY completed_at DESC");
    reveal_strlit("SELECT");
    reveal_strlit("job_name = ");
    let t = RECENT_CRON_RUNS_SQL@;
    assert(part_at(t, 0, "SELECT"@));
    assert(part_at(t, 261, "job_name = "@));
    assert(part_at(t, 323, "LIMIT "@));
    assert(part_at(t, 286, "ORDER BY completed_at DESC"@));
    assert(part_at(t, 202, "FROM cron_run_history"@));
}

/// What the text of [`CRON_JOB_ROLLUP_SQL`] says.
#[verifier::rlimit(50)]
pub proof fn cron_job_rollup_text()
    ensures
        opens(CRON_JOB_ROLLUP_SQL@, "SELECT"@),
        says(CRON_JOB_ROLLUP_SQL@, "ORDER BY completed_at DESC))[1] AS last_outcome"@),
        says(CRON_JOB_ROLLUP_SQL@, "ORDER BY completed_at DESC)"@),
        says(CRON_JOB_ROLLUP_SQL@, "GROUP BY job_name"@),
        says(CRON_JOB_ROLLUP_SQL@, "ORDER BY job_name"@),
        says(CRON_JOB_ROLLUP_SQL@, "FROM cron_run_history"@),
{
    reveal_strlit(
        "SELECT job_name,
                (array_agg(outcome ORDER BY completed_at DESC))[1] AS last_outcome,
                MAX(completed_at)                                  AS last_completed_at,
                MAX(completed_at) FILTER (WHERE outcome = 'ok')    AS last_ok,
                COUNT(*)                                           AS run_count,
                COUNT(*) FILTER (WHERE outcome = 'ok')             AS ok_count,
                COUNT(*) FILTER (WHERE outcome IN ('failed','panicked')) AS fail_count,
                COUNT(*) FILTER (WHERE outcome = 'skipped')        AS skip_count,
                AVG(duration_ms)::bigint                           AS avg_ms,
                (array_agg(error_detail ORDER BY completed_at DESC)
                   FILTER (WHERE error_detail IS NOT NULL))[1]     AS last_error,
                (array_agg(skip_reason ORDER BY completed_at DESC)
                   FILTER (WHERE skip_reason IS NOT NULL))[1]      AS last_skip_reason
           FROM cron_run_history
          GROUP BY job_name
          ORDER BY job_name",
    );
    reveal_strlit("FROM cron_run_history");
    reveal_strlit("GROUP BY job_name");
    reveal_strlit("ORDER BY completed_at DESC)");
    reveal_strlit("ORDER BY completed_at DESC))[1] AS last_outcome");
    reveal_strlit("ORDER BY job_name");
    reveal_strlit("SELECT");
    let t = CRON_JOB_ROLLUP_SQL@;
    assert(part_at(t, 0, "SELECT"@));
    assert(part_at(t, 52, "ORDER BY completed_at DESC))[1] AS last_outcome"@));
    assert(part_at(t, 718, "ORDER BY completed_at DESC)"@));
    assert(part_at(t, 1025, "GROUP BY job_name"@));
    assert(part_at(t, 1053, "ORDER BY job_name"@));
    assert(part_at(t, 993, "FROM cron_run_history"@));
}

/// What the text of [`DELETE_CRON_RUNS_OLDER_THAN_SQL`] says.
pub proof fn delete_cron_runs_older_than_text()
    ensures
        opens(DELETE_CRON_RUNS_OLDER_THAN_SQL@, "DELETE FROM cron_run_history"@),
        mentions(DELETE_CRON_RUNS_OLDER_THAN_SQL@, "days => "@, 1),
{
    reveal_strlit(
        "DELETE FROM cron_run_history
          WHERE completed_at < now() - make_interval(days => $1::int)",
    );
    reveal_strlit("DELETE FROM cron_run_history");
    reveal_strlit("days => ");
    let t = DELETE_CRON_RUNS_OLDER_THAN_SQL@;
    assert(part_at(t, 0, "DELETE FROM cron_run_history"@));
    assert(part_at(t, 82, "days => "@));
}

} // verus!
