//! Numbered steps that bring the schema up to date.
pub mod catalog;
pub mod change;
pub mod v5_work_items_collab;
pub mod v60_crucible_trace;
pub mod v61_subprocess_capture;
pub mod v62_preload_source;
pub mod v63_toolbox_wolfram;
pub mod v64_realtime_events;
pub mod v65_global_mandates;
pub mod v66_webui_audit_log;
pub mod v67_durable_mandates_operator;
pub mod v68_experiment_audit_action;
pub mod v69_memory_pressure_skip_reason;
pub mod v6_unified_graph;
pub mod v70_toolbox_discopy;
pub mod v71_toolbox_wolfram_fv;
pub mod v7_cge_orphan_cleanup;
pub mod v8_csm_protocols;
pub mod v9_quality_report_history;
pub mod versioning;
