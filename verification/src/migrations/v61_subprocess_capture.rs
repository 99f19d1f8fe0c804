//! Attribution of file events to the process group of a client.
use vstd::prelude::*;

use crate::migrations::change::{
    changes, check, checks, one_of, run, runs, write_one_of, Change, ChangeView,
};

verus! {

/// The number of the step.
pub const SUBPROCESS_CAPTURE_V1: i32 = 61;

/// The name of the step.
pub const SUBPROCESS_CAPTURE_V1_NAME: &'static str = "subprocess_capture_v1";

pub const ADD_CLIENT_FILE_EVENTS_CGROUP_ID: &'static str =
    "ALTER TABLE client_file_events ADD COLUMN IF NOT EXISTS cgroup_id BIGINT";

pub const ADD_CLIENT_FILE_EVENTS_ROOT_PID: &'static str =
    "ALTER TABLE client_file_events ADD COLUMN IF NOT EXISTS root_pid  INTEGER";

pub const ADD_CLIENT_FILE_EVENTS_PPID: &'static str =
    "ALTER TABLE client_file_events ADD COLUMN IF NOT EXISTS ppid      INTEGER";

pub const ADD_CLIENT_FILE_EVENTS_AGENT_ID: &'static str =
    "ALTER TABLE client_file_events ADD COLUMN IF NOT EXISTS agent_id  TEXT";

pub const ADD_MCP_CLIENTS_CGROUP_ID: &'static str =
    "ALTER TABLE mcp_clients ADD COLUMN IF NOT EXISTS cgroup_id BIGINT";

pub const CREATE_IDX_MCP_CLIENTS_CGROUP: &'static str = "CREATE INDEX IF NOT EXISTS idx_mcp_clients_cgroup
            ON mcp_clients(cgroup_id) WHERE alive";

pub const CREATE_IDX_CFE_CGROUP_TS: &'static str = "CREATE INDEX IF NOT EXISTS idx_cfe_cgroup_ts
            ON client_file_events(cgroup_id, ts DESC)";

/// The changes of the step, in their order.
pub open spec fn steps(sources: Seq<char>) -> Seq<ChangeView> {
    seq![
        runs(ADD_CLIENT_FILE_EVENTS_CGROUP_ID@),
        runs(ADD_CLIENT_FILE_EVENTS_ROOT_PID@),
        runs(ADD_CLIENT_FILE_EVENTS_PPID@),
        runs(ADD_CLIENT_FILE_EVENTS_AGENT_ID@),
        runs(ADD_MCP_CLIENTS_CGROUP_ID@),
        runs(CREATE_IDX_MCP_CLIENTS_CGROUP@),
        runs(CREATE_IDX_CFE_CGROUP_TS@),
        checks(
            "client_file_events"@,
            "client_file_events_source_check"@,
            one_of("source"@, sources),
        ),
    ]
}

/// Adds the columns by which a file event is attributed to a client, their
/// indexes, and the constraint on where an event comes from.
pub fn apply(sources: &str) -> (r: Vec<Change>)
    ensures
        changes(r@) == steps(sources@),
{
    let r = vec![
        run(ADD_CLIENT_FILE_EVENTS_CGROUP_ID),
        run(ADD_CLIENT_FILE_EVENTS_ROOT_PID),
        run(ADD_CLIENT_FILE_EVENTS_PPID),
        run(ADD_CLIENT_FILE_EVENTS_AGENT_ID),
        run(ADD_MCP_CLIENTS_CGROUP_ID),
        run(CREATE_IDX_MCP_CLIENTS_CGROUP),
        run(CREATE_IDX_CFE_CGROUP_TS),
        check(
            "client_file_events",
            "client_file_events_source_check",
            write_one_of("source", sources).as_str(),
        ),
    ];
    assert(changes(r@) =~= steps(sources@));
    r
}

} // verus!
