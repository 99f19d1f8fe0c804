//! History of quality reports.
use vstd::prelude::*;

use crate::migrations::change::{changes, run, runs, Change, ChangeView};

verus! {

/// The number of the step.
pub const QUALITY_REPORT_HISTORY_V1: i32 = 9;

/// The name of the step.
pub const QUALITY_REPORT_HISTORY_V1_NAME: &'static str = "quality_report_history_v1";

pub const CREATE_QUALITY_REPORT_HISTORY: &'static str = "CREATE TABLE IF NOT EXISTS quality_report_history (
            id BIGSERIAL PRIMARY KEY,
            project_id INTEGER REFERENCES projects(id) ON DELETE CASCADE,
            computed_at TIMESTAMPTZ NOT NULL DEFAULT now(),
            engineering_gpa REAL,
            architecture_gpa REAL,
            security_gpa REAL,
            overall_gpa REAL,
            raw_summary JSONB NOT NULL
        )";

pub const CREATE_IX_QR_HISTORY_PROJECT_TIME: &'static str = "CREATE INDEX IF NOT EXISTS ix_qr_history_project_time
         ON quality_report_history (project_id, computed_at DESC)";

/// The changes of the step, in their order.
pub open spec fn steps() -> Seq<ChangeView> {
    seq![
        runs(CREATE_QUALITY_REPORT_HISTORY@),
        runs(CREATE_IX_QR_HISTORY_PROJECT_TIME@),
    ]
}

/// Creates the table of quality reports, one row for each run.
pub fn apply() -> (r: Vec<Change>)
    ensures
        changes(r@) == steps(),
{
    let r = vec![
        run(CREATE_QUALITY_REPORT_HISTORY),
        run(CREATE_IX_QR_HISTORY_PROJECT_TIME),
    ];
    assert(changes(r@) =~= steps());
    r
}

} // verus!
