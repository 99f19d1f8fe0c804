//! Protocols of communicating state machines.
use vstd::prelude::*;

use crate::migrations::change::{changes, run, runs, Change, ChangeView};

verus! {

/// The number of the step.
pub const CSM_PROTOCOLS_V1: i32 = 8;

/// The name of the step.
pub const CSM_PROTOCOLS_V1_NAME: &'static str = "csm_protocols_v1";

pub const CREATE_CSM_PROTOCOLS: &'static str = "CREATE TABLE IF NOT EXISTS csm_protocols (
            id BIGSERIAL PRIMARY KEY,
            name TEXT NOT NULL UNIQUE,
            pattern_skill_id TEXT NOT NULL,
            global_type JSONB NOT NULL,
            participants TEXT[] NOT NULL,
            wellformed BOOLEAN NOT NULL,
            updated_at TIMESTAMPTZ NOT NULL DEFAULT NOW()
        )";

pub const CREATE_CSM_PROJECTIONS: &'static str = "CREATE TABLE IF NOT EXISTS csm_projections (
            id BIGSERIAL PRIMARY KEY,
            protocol_id BIGINT NOT NULL REFERENCES csm_protocols(id) ON DELETE CASCADE,
            role TEXT NOT NULL,
            local_type JSONB,
            n_states INTEGER NOT NULL DEFAULT 0,
            projection_error TEXT,
            UNIQUE (protocol_id, role)
        )";

pub const CREATE_CSM_RUN_TRACES: &'static str = "CREATE TABLE IF NOT EXISTS csm_run_traces (
            id BIGSERIAL PRIMARY KEY,
            task_id UUID NOT NULL REFERENCES a2a_tasks(id) ON DELETE CASCADE,
            protocol_name TEXT NOT NULL,
            conformant BOOLEAN NOT NULL,
            conformance_error TEXT,
            events JSONB NOT NULL DEFAULT '[]'::jsonb,
            encoded_series DOUBLE PRECISION[],
            trajectory_id BIGINT,
            created_at TIMESTAMPTZ NOT NULL DEFAULT NOW()
        )";

pub const CREATE_IDX_CSM_RUN_TRACES_TASK: &'static str =
    "CREATE INDEX IF NOT EXISTS idx_csm_run_traces_task ON csm_run_traces(task_id)";

pub const CREATE_IDX_CSM_RUN_TRACES_PROTOCOL: &'static str =
    "CREATE INDEX IF NOT EXISTS idx_csm_run_traces_protocol ON csm_run_traces(protocol_name)";

/// The changes of the step, in their order.
pub open spec fn steps() -> Seq<ChangeView> {
    seq![
        runs(CREATE_CSM_PROTOCOLS@),
        runs(CREATE_CSM_PROJECTIONS@),
        runs(CREATE_CSM_RUN_TRACES@),
        runs(CREATE_IDX_CSM_RUN_TRACES_TASK@),
        runs(CREATE_IDX_CSM_RUN_TRACES_PROTOCOL@),
    ]
}

/// Creates the tables of protocols, of their projections to a role and of the
/// runs that were held against them.
pub fn apply() -> (r: Vec<Change>)
    ensures
        changes(r@) == steps(),
{
    let r = vec![
        run(CREATE_CSM_PROTOCOLS),
        run(CREATE_CSM_PROJECTIONS),
        run(CREATE_CSM_RUN_TRACES),
        run(CREATE_IDX_CSM_RUN_TRACES_TASK),
        run(CREATE_IDX_CSM_RUN_TRACES_PROTOCOL),
    ];
    assert(changes(r@) =~= steps());
    r
}

} // verus!
