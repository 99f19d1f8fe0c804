//! Texts, digests, moments, orders, limits and vocabularies.
use std::collections::HashSet;

use pgmcp_db::digest::{text_sha256, text_xxh3};
use pgmcp_db::limits::clamp;
use pgmcp_db::metadata::{key_for_project, read_metadata, write_metadata};
use pgmcp_db::moments::{moment_to_store, stored_moment};
use pgmcp_db::order::{sort_ids, sort_tuples};
use pgmcp_db::patterns::{content_hash, content_sha256};
use pgmcp_db::pool::{
    ask_server_version, connection_check, health_check, session_settings, SessionLimits,
};
use pgmcp_db::queries::concurrency::concurrency_metric_series;
use pgmcp_db::queries::mandates_write::DURABLE_MANDATE_COLS;
use pgmcp_db::queries::realtime_events::{
    clamp_realtime_replay_limit, DEFAULT_REPLAY_LIMIT, MAX_REPLAY_LIMIT,
};
use pgmcp_db::queries::similarity::{normalize_similarity_pair, SimilarityNeighborRow};
use pgmcp_db::queries::status::{status_counts, status_snapshot, StatusAnswers};
use pgmcp_db::results::{touched, unsigned_count, unsigned_sum};
use pgmcp_db::text::{comes_before, decimal, parse_i64, text_eq, trim, unsigned_decimal};
use pgmcp_db::vocabulary::{
    edge_types_core, freeform_edge_sources, is_core_edge_type, is_registered_node_type, node_type,
    node_types,
};

#[test]
fn registry_keys_are_unique() {
    let nset: HashSet<&str> = node_types().iter().map(|n| n.key).collect();
    assert_eq!(nset.len(), node_types().len(), "duplicate node-type key");
    let eset: HashSet<&str> = edge_types_core().iter().map(|e| e.key).collect();
    assert_eq!(eset.len(), edge_types_core().len(), "duplicate edge-type key");
}

#[test]
fn registry_lookups_agree_with_the_lists() {
    for n in node_types() {
        assert!(is_registered_node_type(n.key));
        assert_eq!(node_type(n.key).expect("registered").source_table, n.source_table);
    }
    for e in edge_types_core() {
        assert!(is_core_edge_type(e.key));
    }
    assert!(!is_registered_node_type("nothing"));
    assert!(!is_core_edge_type("nothing"));
    assert!(node_type("nothing").is_none());
    assert!(freeform_edge_sources().iter().all(|s| s.contains('.')));
}

#[test]
fn column_list_covers_v65_base_and_v67_operator_columns() {
    for col in [
        "id",
        "scope",
        "project_id",
        "polarity",
        "imperative",
        "target",
        "source_mandate_id",
        "promoted_at",
        "file_path",
        "created_by",
        "updated_at",
        "retired_at",
    ] {
        assert!(DURABLE_MANDATE_COLS.contains(col), "DURABLE_MANDATE_COLS missing '{col}'");
    }
}

#[test]
fn replay_limit_is_clamped() {
    assert_eq!(clamp_realtime_replay_limit(0), DEFAULT_REPLAY_LIMIT);
    assert_eq!(clamp_realtime_replay_limit(-10), DEFAULT_REPLAY_LIMIT);
    assert_eq!(clamp_realtime_replay_limit(42), 42);
    assert_eq!(clamp_realtime_replay_limit(20_000), MAX_REPLAY_LIMIT);
}

fn row(chunk_id_a: i64, chunk_id_b: i64) -> SimilarityNeighborRow {
    SimilarityNeighborRow {
        chunk_id_a,
        file_id_a: 10,
        project_id_a: 100,
        path_a: "src/a.rs".to_string(),
        project_name_a: "project-a".to_string(),
        language: "rust".to_string(),
        chunk_id_b,
        file_id_b: 20,
        project_id_b: 200,
        path_b: "src/b.rs".to_string(),
        project_name_b: "project-b".to_string(),
    }
}

#[test]
fn similarity_pair_bind_order_keeps_paths_and_projects_distinct() {
    let input = row(1, 2);
    let pair = normalize_similarity_pair(&input);

    assert_eq!(pair.chunk_id_a, 1);
    assert_eq!(pair.path_a, "src/a.rs");
    assert_eq!(pair.path_b, "src/b.rs");
    assert_eq!(pair.project_name_a, "project-a");
    assert_eq!(pair.project_name_b, "project-b");
}

#[test]
fn similarity_pair_normalization_swaps_all_metadata_together() {
    let input = row(2, 1);
    let pair = normalize_similarity_pair(&input);

    assert_eq!(pair.chunk_id_a, 1);
    assert_eq!(pair.file_id_a, 20);
    assert_eq!(pair.project_id_a, 200);
    assert_eq!(pair.path_a, "src/b.rs");
    assert_eq!(pair.project_name_a, "project-b");
    assert_eq!(pair.chunk_id_b, 2);
    assert_eq!(pair.file_id_b, 10);
    assert_eq!(pair.project_id_b, 100);
    assert_eq!(pair.path_b, "src/a.rs");
    assert_eq!(pair.project_name_b, "project-a");
}

#[test]
fn digests_are_those_of_their_algorithms() {
    assert_eq!(
        text_sha256("abc"),
        "ba7816bf8f01cfea414140de5dae2223b00361a396177a9cb410ff61f20015ad"
    );
    assert_eq!(content_sha256("abc"), text_sha256("abc"));
    assert_eq!(text_xxh3(""), 0x2d06800538d394c2_u64 as i64);
    assert_eq!(content_hash("abc"), text_xxh3("abc"));
    assert_ne!(content_hash("abc"), content_hash("abd"));
}

#[test]
fn moments_read_back() {
    let text = moment_to_store(1_700_000_000, 123_000_000).expect("a moment");
    assert_eq!(text, "2023-11-14T22:13:20.123+00:00");
    assert_eq!(stored_moment(Some(text.as_str())), Some((1_700_000_000, 123_000_000)));
    assert_eq!(stored_moment(Some("2023-11-14T23:13:20+01:00")), Some((1_700_000_000, 0)));
    assert_eq!(stored_moment(Some("yesterday")), None);
    assert_eq!(stored_moment(None), None);
    assert_eq!(moment_to_store(i64::MAX, 0), None);
    for secs in [-62_167_219_200, -1, 0, 253_402_300_799] {
        let t = moment_to_store(secs, 999_999_999).expect("a moment");
        assert_eq!(stored_moment(Some(t.as_str())), Some((secs, 999_999_999)));
    }
}

#[test]
fn metadata_keys_hold_the_project() {
    assert_eq!(key_for_project("function_metrics_", 12), "function_metrics_12");
    assert_eq!(key_for_project("x", -3), "x-3");
    assert!(read_metadata("k").sql.starts_with("SELECT value"));
    assert!(write_metadata("k", "v").sql.contains("ON CONFLICT (key)"));
}

#[test]
fn numbers_are_written_and_read() {
    for n in [0, 7, -1, i64::MAX, i64::MIN] {
        assert_eq!(decimal(n), n.to_string());
        assert_eq!(parse_i64(decimal(n).as_str()), Some(n));
    }
    assert_eq!(unsigned_decimal(u128::MAX), u128::MAX.to_string());
    assert_eq!(parse_i64("+5"), Some(5));
    for s in ["", "-", "+", "1a", " 1", "9223372036854775808", "-9223372036854775809"] {
        assert_eq!(parse_i64(s), s.parse::<i64>().ok(), "{s}");
    }
}

#[test]
fn texts_are_trimmed_and_ordered() {
    assert_eq!(trim("\u{3000} a b\t\n"), "a b");
    assert_eq!(trim(" \n "), "");
    assert!(text_eq("a", "a") && !text_eq("a", "b") && !text_eq("a", "ab"));
    for (a, b) in [("a", "b"), ("", "a"), ("a", "ab"), ("z", "\u{e9}"), ("a", "a")] {
        assert_eq!(comes_before(a, b), a < b);
        assert_eq!(comes_before(b, a), b < a);
    }
}

#[test]
fn lists_are_sorted_for_locking() {
    assert_eq!(sort_ids(&vec![3, 1, 3, 2]), {
        let mut v: Vec<i64> = vec![3, 1, 3, 2];
        v.sort();
        v.dedup();
        v
    });
    let t = |a: &str, b: &str| vec![a.to_string(), b.to_string()];
    assert_eq!(
        sort_tuples(vec![t("b", "x"), t("a", "y"), t("a", "x"), t("b", "x")]),
        vec![t("a", "x"), t("a", "y"), t("b", "x")]
    );
}

#[test]
fn numbers_stay_in_range() {
    assert_eq!(clamp(0, 1, 5), 1);
    assert_eq!(clamp(9, 1, 5), 5);
    assert_eq!(clamp(3, 1, 5), 3);
    assert!(touched(1) && !touched(0));
    assert_eq!(unsigned_count(7), 7);
    assert_eq!(unsigned_sum(None), 0);
    assert_eq!(unsigned_sum(Some(8)), 8);
}

#[test]
fn sessions_start_with_their_limits() {
    let limits = SessionLimits {
        statement_timeout_ms: 30_000,
        idle_in_transaction_timeout_ms: 60_000,
        lock_timeout_ms: 5_000,
        client_connection_check_interval_ms: 10_000,
    };
    assert_eq!(
        session_settings(limits).sql,
        "SET application_name = 'pgmcp'; SET client_min_messages = warning; \
         SET statement_timeout = 30000; SET idle_in_transaction_session_timeout = 60000; \
         SET lock_timeout = 5000;"
    );
    assert!(ask_server_version(limits).is_some());
    assert!(connection_check(limits, 139_999).is_none());
    assert_eq!(
        connection_check(limits, 140_000).expect("supported").sql,
        "SET client_connection_check_interval = 10000"
    );
    let off = SessionLimits { client_connection_check_interval_ms: 0, ..limits };
    assert!(ask_server_version(off).is_none());
    assert!(connection_check(off, 160_000).is_none());
    assert_eq!(health_check().sql, "SELECT 1");
}

#[test]
fn only_known_columns_are_read_as_series() {
    assert!(concurrency_metric_series(1, "deadlock_cycle_count", 30).is_some());
    assert!(concurrency_metric_series(1, "id; DROP TABLE projects", 30).is_none());
}

#[test]
fn status_needs_its_core_counts() {
    let probes = status_snapshot();
    assert!(probes[0].required);
    assert!(probes.iter().any(|p| !p.required));
    assert!(probes[2].required && !probes[3].required);
    let all = StatusAnswers {
        project_count: Some(1),
        indexed_file_count: Some(2),
        chunk_count: Some(3),
        git_commit_count: None,
        git_commit_chunk_count: Some(4),
        topic_count_global: None,
        topic_count_total: None,
        topic_assignments_total: None,
        topic_noise_chunk_count: None,
        similarity_pair_count: None,
        similarity_distinct_files: None,
        file_metric_count: None,
        graph_edge_count: None,
        blame_coverage_with: Some(2),
    };
    let counts = status_counts(all).expect("the core counts are there");
    assert_eq!((counts.git_commit_count, counts.git_commit_chunk_count), (0, 4));
    assert_eq!((counts.blame_coverage_with, counts.blame_coverage_total), (2, 3));
    assert!(status_counts(StatusAnswers { project_count: None, ..all }).is_none());
}
