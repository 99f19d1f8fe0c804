//! The steps of the schema and the record of them.
use pgmcp_db::migrations::change::Change;
use pgmcp_db::migrations::v5_work_items_collab::{WORK_ITEMS_COLLAB_V1, WORK_ITEMS_COLLAB_V1_NAME};
use pgmcp_db::migrations::v60_crucible_trace::{CRUCIBLE_TRACE, CRUCIBLE_TRACE_NAME};
use pgmcp_db::migrations::v61_subprocess_capture::{SUBPROCESS_CAPTURE_V1, SUBPROCESS_CAPTURE_V1_NAME};
use pgmcp_db::migrations::v62_preload_source::{PRELOAD_SOURCE_V1, PRELOAD_SOURCE_V1_NAME};
use pgmcp_db::migrations::v63_toolbox_wolfram::{TOOLBOX_WOLFRAM, TOOLBOX_WOLFRAM_NAME};
use pgmcp_db::migrations::v64_realtime_events::{REALTIME_EVENTS_V1, REALTIME_EVENTS_V1_NAME};
use pgmcp_db::migrations::v65_global_mandates::{GLOBAL_MANDATES, GLOBAL_MANDATES_NAME};
use pgmcp_db::migrations::v66_webui_audit_log::{WEBUI_AUDIT_LOG, WEBUI_AUDIT_LOG_NAME};
use pgmcp_db::migrations::v67_durable_mandates_operator::{DURABLE_MANDATES_OPERATOR, DURABLE_MANDATES_OPERATOR_NAME};
use pgmcp_db::migrations::v68_experiment_audit_action::{EXPERIMENT_AUDIT_ACTION, EXPERIMENT_AUDIT_ACTION_NAME};
use pgmcp_db::migrations::v69_memory_pressure_skip_reason::{MEMORY_PRESSURE_SKIP_REASON, MEMORY_PRESSURE_SKIP_REASON_NAME};
use pgmcp_db::migrations::v6_unified_graph::{UNIFIED_GRAPH_V1, UNIFIED_GRAPH_V1_NAME};
use pgmcp_db::migrations::v70_toolbox_discopy::{TOOLBOX_DISCOPY, TOOLBOX_DISCOPY_NAME};
use pgmcp_db::migrations::v71_toolbox_wolfram_fv::{TOOLBOX_WOLFRAM_FV, TOOLBOX_WOLFRAM_FV_NAME};
use pgmcp_db::migrations::v7_cge_orphan_cleanup::{CGE_ORPHAN_CLEANUP_V1, CGE_ORPHAN_CLEANUP_V1_NAME};
use pgmcp_db::migrations::v8_csm_protocols::{CSM_PROTOCOLS_V1, CSM_PROTOCOLS_V1_NAME};
use pgmcp_db::migrations::v9_quality_report_history::{QUALITY_REPORT_HISTORY_V1, QUALITY_REPORT_HISTORY_V1_NAME};
use pgmcp_db::migrations::{
    v5_work_items_collab, v60_crucible_trace, v61_subprocess_capture, v62_preload_source,
    v63_toolbox_wolfram, v64_realtime_events, v65_global_mandates, v66_webui_audit_log,
    v67_durable_mandates_operator, v68_experiment_audit_action, v69_memory_pressure_skip_reason,
    v6_unified_graph, v70_toolbox_discopy, v71_toolbox_wolfram_fv, v7_cge_orphan_cleanup,
    v8_csm_protocols, v9_quality_report_history, versioning,
};
use pgmcp_db::results::any_counted;
use pgmcp_db::statement::{Bind, Fetch};

fn sql(c: &Change) -> &str {
    match c {
        Change::Run(st) => {
            assert!(matches!(st.fetch, Fetch::Execute));
            assert!(st.binds.is_empty());
            st.sql.as_str()
        }
        other => panic!("not a statement: {other:?}"),
    }
}

fn check(c: &Change) -> (&str, &str, &str) {
    match c {
        Change::Check { table, constraint, predicate } => {
            (table.as_str(), constraint.as_str(), predicate.as_str())
        }
        other => panic!("not a constraint: {other:?}"),
    }
}

#[test]
fn v5_work_items_collab_step_version_is_stable() {
    assert_eq!(WORK_ITEMS_COLLAB_V1, 5);
    assert_eq!(WORK_ITEMS_COLLAB_V1_NAME, "work_items_collab_v1");
}

#[test]
fn v60_crucible_trace_step_version_is_stable() {
    assert_eq!(CRUCIBLE_TRACE, 60);
    assert_eq!(CRUCIBLE_TRACE_NAME, "crucible_trace");
}

#[test]
fn v61_subprocess_capture_step_version_is_stable() {
    assert_eq!(SUBPROCESS_CAPTURE_V1, 61);
    assert_eq!(SUBPROCESS_CAPTURE_V1_NAME, "subprocess_capture_v1");
}

#[test]
fn v62_preload_source_step_version_is_stable() {
    assert_eq!(PRELOAD_SOURCE_V1, 62);
    assert_eq!(PRELOAD_SOURCE_V1_NAME, "preload_source_v1");
}

#[test]
fn v63_toolbox_wolfram_step_version_is_stable() {
    assert_eq!(TOOLBOX_WOLFRAM, 63);
    assert_eq!(TOOLBOX_WOLFRAM_NAME, "toolbox_wolfram");
}

#[test]
fn v64_realtime_events_step_version_is_stable() {
    assert_eq!(REALTIME_EVENTS_V1, 64);
    assert_eq!(REALTIME_EVENTS_V1_NAME, "pgmcp_realtime_events_v1");
}

#[test]
fn v65_global_mandates_step_version_is_stable() {
    assert_eq!(GLOBAL_MANDATES, 65);
    assert_eq!(GLOBAL_MANDATES_NAME, "durable_mandates_global_scope");
}

#[test]
fn v66_webui_audit_log_step_version_is_stable() {
    assert_eq!(WEBUI_AUDIT_LOG, 66);
    assert_eq!(WEBUI_AUDIT_LOG_NAME, "webui_audit_log");
}

#[test]
fn v67_durable_mandates_operator_step_version_is_stable() {
    assert_eq!(DURABLE_MANDATES_OPERATOR, 67);
    assert_eq!(DURABLE_MANDATES_OPERATOR_NAME, "durable_mandates_operator_columns");
}

#[test]
fn v68_experiment_audit_action_step_version_is_stable() {
    assert_eq!(EXPERIMENT_AUDIT_ACTION, 68);
    assert_eq!(EXPERIMENT_AUDIT_ACTION_NAME, "experiment_audit_action");
}

#[test]
fn v69_memory_pressure_skip_reason_step_version_is_stable() {
    assert_eq!(MEMORY_PRESSURE_SKIP_REASON, 69);
    assert_eq!(MEMORY_PRESSURE_SKIP_REASON_NAME, "memory_pressure_skip_reason");
}

#[test]
fn v6_unified_graph_step_version_is_stable() {
    assert_eq!(UNIFIED_GRAPH_V1, 6);
    assert_eq!(UNIFIED_GRAPH_V1_NAME, "unified_graph_v1");
}

#[test]
fn v70_toolbox_discopy_step_version_is_stable() {
    assert_eq!(TOOLBOX_DISCOPY, 70);
    assert_eq!(TOOLBOX_DISCOPY_NAME, "toolbox_discopy");
}

#[test]
fn v71_toolbox_wolfram_fv_step_version_is_stable() {
    assert_eq!(TOOLBOX_WOLFRAM_FV, 71);
    assert_eq!(TOOLBOX_WOLFRAM_FV_NAME, "toolbox_wolfram_fv");
}

#[test]
fn v7_cge_orphan_cleanup_step_version_is_stable() {
    assert_eq!(CGE_ORPHAN_CLEANUP_V1, 7);
    assert_eq!(CGE_ORPHAN_CLEANUP_V1_NAME, "cge_orphan_cleanup_v1");
}

#[test]
fn v8_csm_protocols_step_version_is_stable() {
    assert_eq!(CSM_PROTOCOLS_V1, 8);
    assert_eq!(CSM_PROTOCOLS_V1_NAME, "csm_protocols_v1");
}

#[test]
fn v9_quality_report_history_step_version_is_stable() {
    assert_eq!(QUALITY_REPORT_HISTORY_V1, 9);
    assert_eq!(QUALITY_REPORT_HISTORY_V1_NAME, "quality_report_history_v1");
}

#[test]
fn step_numbers_are_unique() {
    let all = [
        WORK_ITEMS_COLLAB_V1,
        CRUCIBLE_TRACE,
        SUBPROCESS_CAPTURE_V1,
        PRELOAD_SOURCE_V1,
        TOOLBOX_WOLFRAM,
        REALTIME_EVENTS_V1,
        GLOBAL_MANDATES,
        WEBUI_AUDIT_LOG,
        DURABLE_MANDATES_OPERATOR,
        EXPERIMENT_AUDIT_ACTION,
        MEMORY_PRESSURE_SKIP_REASON,
        UNIFIED_GRAPH_V1,
        TOOLBOX_DISCOPY,
        TOOLBOX_WOLFRAM_FV,
        CGE_ORPHAN_CLEANUP_V1,
        CSM_PROTOCOLS_V1,
        QUALITY_REPORT_HISTORY_V1,
    ];
    for (i, a) in all.iter().enumerate() {
        for (j, b) in all.iter().enumerate() {
            assert_eq!(a == b, i == j);
        }
    }
}

#[test]
fn claims_are_added_in_order() {
    let r = v5_work_items_collab::apply();
    assert_eq!(r.len(), 12);
    assert_eq!(sql(&r[0]), "ALTER TABLE work_items ADD COLUMN IF NOT EXISTS claimed_by TEXT");
    assert!(sql(&r[5]).starts_with("CREATE TABLE IF NOT EXISTS work_item_claims ("));
    assert!(sql(&r[8]).starts_with("CREATE TABLE IF NOT EXISTS agent_presence ("));
    assert!(sql(&r[10]).starts_with("CREATE OR REPLACE VIEW agent_identity AS"));
    assert!(sql(&r[11]).contains("'work_items_collab_version', '1'"));
}

#[test]
fn graph_links_replace_their_constraint() {
    let r = v6_unified_graph::apply("'replicates','refutes'");
    assert_eq!(r.len(), 14);
    assert!(sql(&r[0]).starts_with("ALTER TABLE work_items ADD COLUMN IF NOT EXISTS observation_id"));
    assert_eq!(
        sql(&r[3]),
        "ALTER TABLE experiment_relations DROP CONSTRAINT IF EXISTS experiment_relations_type_check"
    );
    assert_eq!(
        sql(&r[4]),
        "ALTER TABLE experiment_relations ADD CONSTRAINT experiment_relations_type_check \
         CHECK (relation_type IN ('replicates','refutes'))"
    );
    assert!(sql(&r[9]).starts_with("DO $$"));
    assert_eq!(sql(&r[12]), "ALTER TYPE memory_source ADD VALUE IF NOT EXISTS 'auto_index'");
    assert!(sql(&r[13]).contains("'unified_graph_version', '1'"));
}

#[test]
fn orphaned_edges_are_deleted() {
    let r = v7_cge_orphan_cleanup::apply();
    assert_eq!(r.len(), 1);
    assert!(sql(&r[0]).ends_with("WHERE target_file_id IS NULL AND target_raw IS NULL"));
}

#[test]
fn protocol_and_report_tables_are_created() {
    let r = v8_csm_protocols::apply();
    assert_eq!(r.len(), 5);
    assert!(sql(&r[2]).contains("REFERENCES a2a_tasks(id) ON DELETE CASCADE"));
    let q = v9_quality_report_history::apply();
    assert_eq!(q.len(), 2);
    assert!(sql(&q[1]).contains("(project_id, computed_at DESC)"));
}

#[test]
fn trace_tables_admit_the_given_values() {
    let r = v60_crucible_trace::apply(
        "'run'", "'ok'", "'tlc'", "'violated'", "'tla_trace'", "'note'", "'info'", "'halt'",
        "'fleet'",
    );
    assert_eq!(r.len(), 26);
    let spans = sql(&r[0]);
    assert!(spans.contains("CHECK (kind IN ('run'))"));
    assert!(spans.contains("CHECK (status IN ('ok'))"));
    assert!(spans.contains("DEFAULT '{}'::jsonb"));
    let witnesses = sql(&r[12]);
    assert!(witnesses.contains("CHECK (source IN ('tlc'))"));
    assert!(witnesses.contains("CHECK (verdict IN ('violated'))"));
    assert!(witnesses.contains("CHECK (witness_kind IN ('tla_trace'))"));
    let events = sql(&r[15]);
    assert!(events.contains("CHECK (event_kind IN ('note'))"));
    assert!(events.contains("CHECK (severity IN ('info'))"));
    let journal = sql(&r[21]);
    assert!(journal.contains("CHECK (action IN ('halt'))"));
    assert!(journal.contains("CHECK (scope IN ('fleet'))"));
}

#[test]
fn capture_columns_come_before_the_constraint() {
    let r = v61_subprocess_capture::apply("'client_hook','ebpf_cgroup'");
    assert_eq!(r.len(), 8);
    assert_eq!(
        sql(&r[1]),
        "ALTER TABLE client_file_events ADD COLUMN IF NOT EXISTS root_pid  INTEGER"
    );
    assert_eq!(
        check(&r[7]),
        (
            "client_file_events",
            "client_file_events_source_check",
            "source IN ('client_hook','ebpf_cgroup')"
        )
    );
    let again = v62_preload_source::apply("'preload'");
    assert_eq!(again.len(), 1);
    assert_eq!(check(&again[0]).2, "source IN ('preload')");
}

#[test]
fn catalog_writes_categories_before_tools() {
    for r in [
        v63_toolbox_wolfram::apply(2, 3),
        v70_toolbox_discopy::apply(2, 3),
        v71_toolbox_wolfram_fv::apply(2, 3),
    ] {
        assert_eq!(r.len(), 5);
        assert!(matches!(r[0], Change::Category(0)));
        assert!(matches!(r[1], Change::Category(1)));
        assert!(matches!(r[2], Change::Tool(0)));
        assert!(matches!(r[3], Change::Tool(1)));
        assert!(matches!(r[4], Change::Tool(2)));
    }
    assert!(v63_toolbox_wolfram::apply(0, 0).is_empty());
}

#[test]
fn event_log_is_checked_and_announced() {
    let r = v64_realtime_events::apply("'mandates'", "'insert'");
    assert_eq!(r.len(), 9);
    assert_eq!(
        check(&r[4]),
        ("pgmcp_realtime_events", "pgmcp_realtime_events_topic_check", "topic IN ('mandates')")
    );
    assert_eq!(
        check(&r[5]),
        ("pgmcp_realtime_events", "pgmcp_realtime_events_op_check", "op IN ('insert')")
    );
    assert!(sql(&r[7]).starts_with("DROP TRIGGER IF EXISTS"));
    assert!(sql(&r[8]).starts_with("CREATE TRIGGER"));
}

#[test]
fn constraints_are_widened() {
    assert_eq!(
        check(&v65_global_mandates::apply()[0]),
        (
            "durable_mandates",
            "durable_mandates_scope_check",
            "scope IN ('global','project','workspace')"
        )
    );
    let log = v66_webui_audit_log::apply("'halt'");
    assert_eq!(log.len(), 5);
    assert_eq!(
        check(&log[4]),
        ("webui_audit_log", "webui_audit_log_action_check", "action IN ('halt')")
    );
    assert_eq!(v67_durable_mandates_operator::apply().len(), 3);
    assert_eq!(
        check(&v68_experiment_audit_action::apply("'experiment_update'")[0]).2,
        "action IN ('experiment_update')"
    );
    assert_eq!(
        check(&v69_memory_pressure_skip_reason::apply("'memory_pressure'")[0]),
        (
            "cron_run_history",
            "cron_run_history_skip_reason_check",
            "skip_reason IS NULL OR skip_reason IN ('memory_pressure')"
        )
    );
}

#[test]
fn versions_are_counted_and_recorded() {
    assert!(versioning::ensure_schema_versions_table()
        .sql
        .starts_with("CREATE TABLE IF NOT EXISTS pgmcp_schema_versions"));
    let asked = versioning::version_applied(64);
    assert!(matches!(asked.fetch, Fetch::One));
    assert!(matches!(asked.binds[0], Bind::Int(64)));
    assert!(any_counted(1));
    assert!(!any_counted(0));
    let recorded = versioning::record_version(64, "pgmcp_realtime_events_v1");
    assert!(recorded.sql.ends_with("ON CONFLICT (version) DO NOTHING"));
    assert!(matches!(&recorded.binds[1], Bind::Text(s) if s == "pgmcp_realtime_events_v1"));
}

#[test]
fn the_trace_step_only_creates_what_is_missing() {
    let all = v60_crucible_trace::apply("a", "b", "c", "d", "e", "f", "g", "h", "i");
    assert_eq!(all.len(), 26);
    let mut names: Vec<&str> = Vec::new();
    for c in &all {
        let text = sql(c);
        let rest = text
            .strip_prefix("CREATE TABLE IF NOT EXISTS ")
            .or(text.strip_prefix("CREATE INDEX IF NOT EXISTS "))
            .expect("a creation");
        names.push(rest.split(' ').next().expect("a name"));
    }
    assert_eq!(names[0], "crucible_trace_spans");
    assert_eq!(names[25], "idx_ccj_trace");
    names.sort();
    names.dedup();
    assert_eq!(names.len(), 26);
}
