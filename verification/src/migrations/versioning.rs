//! The record of the steps that a database has taken.
use vstd::prelude::*;

use crate::migrations::v5_work_items_collab::WORK_ITEMS_COLLAB_V1;
use crate::migrations::v60_crucible_trace::CRUCIBLE_TRACE;
use crate::migrations::v61_subprocess_capture::SUBPROCESS_CAPTURE_V1;
use crate::migrations::v62_preload_source::PRELOAD_SOURCE_V1;
use crate::migrations::v63_toolbox_wolfram::TOOLBOX_WOLFRAM;
use crate::migrations::v64_realtime_events::REALTIME_EVENTS_V1;
use crate::migrations::v65_global_mandates::GLOBAL_MANDATES;
use crate::migrations::v66_webui_audit_log::WEBUI_AUDIT_LOG;
use crate::migrations::v67_durable_mandates_operator::DURABLE_MANDATES_OPERATOR;
use crate::migrations::v68_experiment_audit_action::EXPERIMENT_AUDIT_ACTION;
use crate::migrations::v69_memory_pressure_skip_reason::MEMORY_PRESSURE_SKIP_REASON;
use crate::migrations::v6_unified_graph::UNIFIED_GRAPH_V1;
use crate::migrations::v70_toolbox_discopy::TOOLBOX_DISCOPY;
use crate::migrations::v71_toolbox_wolfram_fv::TOOLBOX_WOLFRAM_FV;
use crate::migrations::v7_cge_orphan_cleanup::CGE_ORPHAN_CLEANUP_V1;
use crate::migrations::v8_csm_protocols::CSM_PROTOCOLS_V1;
use crate::migrations::v9_quality_report_history::QUALITY_REPORT_HISTORY_V1;
use crate::statement::{executes, fetches_one, BindView, Statement};

verus! {

pub const ENSURE_SCHEMA_VERSIONS_TABLE_SQL: &'static str = "CREATE TABLE IF NOT EXISTS pgmcp_schema_versions (
            version INT PRIMARY KEY,
            name TEXT NOT NULL,
            applied_at TIMESTAMPTZ NOT NULL DEFAULT NOW()
        )";

/// Creates the record of steps, where there is none.
pub fn ensure_schema_versions_table() -> (st: Statement)
    ensures
        st@ == executes(ENSURE_SCHEMA_VERSIONS_TABLE_SQL@, seq![]),
{
    Statement::execute(ENSURE_SCHEMA_VERSIONS_TABLE_SQL)
}

pub const VERSION_APPLIED_SQL: &'static str =
    "SELECT COUNT(*) FROM pgmcp_schema_versions WHERE version = $1";

/// Counts the entries of a step in the record. The step was taken where the
/// count found anything.
pub fn version_applied(version: i32) -> (st: Statement)
    ensures
        st@ == fetches_one(VERSION_APPLIED_SQL@, seq![BindView::Int(version)]),
{
    Statement::one(VERSION_APPLIED_SQL).int4(version)
}

pub const RECORD_VERSION_SQL: &'static str = "INSERT INTO pgmcp_schema_versions (version, name) VALUES ($1, $2)
         ON CONFLICT (version) DO NOTHING";

/// Records that a step was taken; a second record of it changes nothing.
pub fn record_version(version: i32, name: &str) -> (st: Statement)
    ensures
        st@ == executes(RECORD_VERSION_SQL@, seq![BindView::Int(version), BindView::Text(name@)]),
{
    Statement::execute(RECORD_VERSION_SQL).int4(version).text(name)
}

/// The numbers of the steps, in ascending order.
pub open spec fn versions() -> Seq<i32> {
    seq![
        WORK_ITEMS_COLLAB_V1,
        UNIFIED_GRAPH_V1,
        CGE_ORPHAN_CLEANUP_V1,
        CSM_PROTOCOLS_V1,
        QUALITY_REPORT_HISTORY_V1,
        CRUCIBLE_TRACE,
        SUBPROCESS_CAPTURE_V1,
        PRELOAD_SOURCE_V1,
        TOOLBOX_WOLFRAM,
        REALTIME_EVENTS_V1,
        GLOBAL_MANDATES,
        WEBUI_AUDIT_LOG,
        DURABLE_MANDATES_OPERATOR,
        EXPERIMENT_AUDIT_ACTION,
        MEMORY_PRESSURE_SKIP_REASON,
        TOOLBOX_DISCOPY,
        TOOLBOX_WOLFRAM_FV,
    ]
}

/// No two steps have the same number.
pub proof fn law_versions_are_unique(i: int, j: int)
    requires
        0 <= i < versions().len(),
        0 <= j < versions().len(),
        i != j,
    ensures
        versions()[i] != versions()[j],
{
}

} // verus!
