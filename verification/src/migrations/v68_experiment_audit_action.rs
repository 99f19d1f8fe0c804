//! A further action of the audit log.
use vstd::prelude::*;

use crate::migrations::change::{changes, check, checks, one_of, write_one_of, Change, ChangeView};

verus! {

/// The number of the step.
pub const EXPERIMENT_AUDIT_ACTION: i32 = 68;

/// The name of the step.
pub const EXPERIMENT_AUDIT_ACTION_NAME: &'static str = "experiment_audit_action";

/// The changes of the step, in their order.
pub open spec fn steps(actions: Seq<char>) -> Seq<ChangeView> {
    seq![checks(
            "webui_audit_log"@,
            "webui_audit_log_action_check"@,
            one_of("action"@, actions),
        )]
}

/// Widens the constraint on the actions of the audit log.
pub fn apply(actions: &str) -> (r: Vec<Change>)
    ensures
        changes(r@) == steps(actions@),
{
    let r = vec![
        check(
            "webui_audit_log",
            "webui_audit_log_action_check",
            write_one_of("action", actions).as_str(),
        ),
    ];
    assert(changes(r@) =~= steps(actions@));
    r
}

} // verus!
