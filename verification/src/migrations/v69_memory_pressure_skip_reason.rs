//! A further reason to skip a scheduled run.
use vstd::prelude::*;

use crate::migrations::change::{changes, check, checks, one_of, write_one_of, Change, ChangeView};

verus! {

/// The number of the step.
pub const MEMORY_PRESSURE_SKIP_REASON: i32 = 69;

/// The name of the step.
pub const MEMORY_PRESSURE_SKIP_REASON_NAME: &'static str = "memory_pressure_skip_reason";

/// The changes of the step, in their order.
pub open spec fn steps(reasons: Seq<char>) -> Seq<ChangeView> {
    seq![checks(
            "cron_run_history"@,
            "cron_run_history_skip_reason_check"@,
            one_of("skip_reason IS NULL OR skip_reason"@, reasons),
        )]
}

/// Widens the constraint on why a scheduled run was skipped.
pub fn apply(reasons: &str) -> (r: Vec<Change>)
    ensures
        changes(r@) == steps(reasons@),
{
    let r = vec![
        check(
            "cron_run_history",
            "cron_run_history_skip_reason_check",
            write_one_of("skip_reason IS NULL OR skip_reason", reasons).as_str(),
        ),
    ];
    assert(changes(r@) =~= steps(reasons@));
    r
}

} // verus!
