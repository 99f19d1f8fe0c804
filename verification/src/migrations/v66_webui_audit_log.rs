//! The audit log of operator writes.
use vstd::prelude::*;

use crate::migrations::change::{
    changes, check, checks, one_of, run, runs, write_one_of, Change, ChangeView,
};

verus! {

/// The number of the step.
pub const WEBUI_AUDIT_LOG: i32 = 66;

/// The name of the step.
pub const WEBUI_AUDIT_LOG_NAME: &'static str = "webui_audit_log";

pub const CREATE_WEBUI_AUDIT_LOG: &'static str = "CREATE TABLE IF NOT EXISTS webui_audit_log (
            id BIGSERIAL PRIMARY KEY,
            at TIMESTAMPTZ NOT NULL DEFAULT now(),
            actor TEXT NOT NULL,
            action TEXT NOT NULL,
            target_kind TEXT,
            target_id TEXT,
            request_ip TEXT,
            before JSONB,
            after JSONB,
            reason TEXT,
            ok BOOLEAN NOT NULL DEFAULT true,
            error TEXT
        )";

pub const CREATE_WEBUI_AUDIT_LOG_AT_IDX: &'static str =
    "CREATE INDEX IF NOT EXISTS webui_audit_log_at_idx ON webui_audit_log (at DESC)";

pub const CREATE_WEBUI_AUDIT_LOG_ACTION_IDX: &'static str =
    "CREATE INDEX IF NOT EXISTS webui_audit_log_action_idx ON webui_audit_log (action, at DESC)";

pub const CREATE_WEBUI_AUDIT_LOG_TARGET_IDX: &'static str = "CREATE INDEX IF NOT EXISTS webui_audit_log_target_idx \
         ON webui_audit_log (target_kind, target_id)";

/// The changes of the step, in their order.
pub open spec fn steps(actions: Seq<char>) -> Seq<ChangeView> {
    seq![
        runs(CREATE_WEBUI_AUDIT_LOG@),
        runs(CREATE_WEBUI_AUDIT_LOG_AT_IDX@),
        runs(CREATE_WEBUI_AUDIT_LOG_ACTION_IDX@),
        runs(CREATE_WEBUI_AUDIT_LOG_TARGET_IDX@),
        checks(
            "webui_audit_log"@,
            "webui_audit_log_action_check"@,
            one_of("action"@, actions),
        ),
    ]
}

/// Creates the audit log, its indexes and the constraint on its actions.
pub fn apply(actions: &str) -> (r: Vec<Change>)
    ensures
        changes(r@) == steps(actions@),
{
    let r = vec![
        run(CREATE_WEBUI_AUDIT_LOG),
        run(CREATE_WEBUI_AUDIT_LOG_AT_IDX),
        run(CREATE_WEBUI_AUDIT_LOG_ACTION_IDX),
        run(CREATE_WEBUI_AUDIT_LOG_TARGET_IDX),
        check(
            "webui_audit_log",
            "webui_audit_log_action_check",
            write_one_of("action", actions).as_str(),
        ),
    ];
    assert(changes(r@) =~= steps(actions@));
    r
}

} // verus!
