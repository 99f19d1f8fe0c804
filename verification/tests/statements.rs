//! Every statement has one argument for each of its placeholders.
use pgmcp_db::embedding::TunedQuery;
use pgmcp_db::statement::Statement;

fn texts() -> [String; 1] {
    ["x".to_string()]
}

/// The highest placeholder of a text.
fn highest_placeholder(sql: &str) -> usize {
    let chars: Vec<char> = sql.chars().collect();
    let mut highest = 0;
    for i in 0..chars.len() {
        if chars[i] == '$' {
            let digits: String =
                chars[i + 1..].iter().take_while(|c| c.is_ascii_digit()).collect();
            if let Ok(n) = digits.parse::<usize>() {
                highest = highest.max(n);
            }
        }
    }
    highest
}

fn one(name: &str, st: Statement) {
    assert_eq!(highest_placeholder(&st.sql), st.binds.len(), "{name}: {}", st.sql);
}

fn opt(name: &str, st: Option<Statement>) {
    one(name, st.expect(name));
}

fn many(name: &str, all: Vec<Statement>) {
    assert!(!all.is_empty(), "{name}");
    for st in all {
        one(name, st);
    }
}

fn pair(name: &str, both: (Statement, Statement)) {
    one(name, both.0);
    one(name, both.1);
}

fn tuned(name: &str, q: TunedQuery) {
    many(name, q.settings);
    one(name, q.query);
}

#[test]
fn embedding_statements_bind_their_placeholders() {
    one("set_ef_search", pgmcp_db::embedding::set_ef_search(1));
}

#[test]
fn metadata_statements_bind_their_placeholders() {
    one("read_metadata", pgmcp_db::metadata::read_metadata("x"));
    one("write_metadata", pgmcp_db::metadata::write_metadata("x", "x"));
}

#[test]
fn patterns_statements_bind_their_placeholders() {
    one("link_pattern_paradigm", pgmcp_db::patterns::link_pattern_paradigm(1, "x"));
    one("find_pattern_id_by_slug", pgmcp_db::patterns::find_pattern_id_by_slug("x"));
    one("find_source_state", pgmcp_db::patterns::find_source_state("x", "x", Some("x")));
    one("update_source_status", pgmcp_db::patterns::update_source_status(1, "x", Some("x")));
    one("link_source_pattern", pgmcp_db::patterns::link_source_pattern(1, 1, "x"));
    one("delete_source_chunks", pgmcp_db::patterns::delete_source_chunks(1));
    one("insert_source_chunk", pgmcp_db::patterns::insert_source_chunk(1, 1, "x", 1, 1, 1024).expect("a statement"));
    one("get_pattern", pgmcp_db::patterns::get_pattern("x"));
    one("get_pattern_sources", pgmcp_db::patterns::get_pattern_sources(1));
    one("get_source_excerpts", pgmcp_db::patterns::get_source_excerpts(1, 1));
    many("catalog_stats", pgmcp_db::patterns::catalog_stats());
    one("start_import_run", pgmcp_db::patterns::start_import_run("x", Some("x")));
    one("finish_import_run", pgmcp_db::patterns::finish_import_run(1, "x", 1, 1, 1, Some("x")));
}

#[test]
fn pool_statements_bind_their_placeholders() {
    one("health_check", pgmcp_db::pool::health_check());
}

#[test]
fn advisories_statements_bind_their_placeholders() {
    one("clear_vuln_advisories", pgmcp_db::queries::advisories::clear_vuln_advisories());
    opt("load_vuln_advisories", pgmcp_db::queries::advisories::load_vuln_advisories("x", &texts()));
}

#[test]
fn chunks_statements_bind_their_placeholders() {
    one("insert_chunk", pgmcp_db::queries::chunks::insert_chunk(1, 1, "x", 1, 1, 1024).expect("a statement"));
    one("get_chunks_needing_context", pgmcp_db::queries::chunks::get_chunks_needing_context(1));
    opt("get_chunk_content_rows", pgmcp_db::queries::chunks::get_chunk_content_rows(&[1]));
    one("get_file_region_by_lines", pgmcp_db::queries::chunks::get_file_region_by_lines("x", 1, 1));
    one("get_chunks_in_index_range", pgmcp_db::queries::chunks::get_chunks_in_index_range("x", 1, 1));
    one("file_chunk_summary", pgmcp_db::queries::chunks::file_chunk_summary("x"));
    opt("get_chunk_topic_summaries", pgmcp_db::queries::chunks::get_chunk_topic_summaries(&[1]));
    one("bulk_extract_embeddings", pgmcp_db::queries::chunks::bulk_extract_embeddings("x", Some("x")));
    one("bulk_extract_project_embeddings", pgmcp_db::queries::chunks::bulk_extract_project_embeddings("x", "x", Some("x")));
    opt("best_chunk_per_file", pgmcp_db::queries::chunks::best_chunk_per_file(1024, &[1]).expect("a statement"));
    opt("chunk_rerank_features", pgmcp_db::queries::chunks::chunk_rerank_features(&[1], 1024).expect("a statement"));
}

#[test]
fn clients_statements_bind_their_placeholders() {
    one("active_clients", pgmcp_db::queries::clients::active_clients(Some("x"), true));
    one("client_project_matrix", pgmcp_db::queries::clients::client_project_matrix(1, Some("x"), "x"));
    one("touch_agent_presence_project", pgmcp_db::queries::clients::touch_agent_presence_project("x", Some(1)));
    one("recent_edited_files", pgmcp_db::queries::clients::recent_edited_files(1, Some("x")));
    one("active_agents_by_project", pgmcp_db::queries::clients::active_agents_by_project(Some("x")));
}

#[test]
fn concurrency_statements_bind_their_placeholders() {
    one("set_finding_promoted_item", pgmcp_db::queries::concurrency::set_finding_promoted_item(1, 1));
    one("insert_concurrency_health", pgmcp_db::queries::concurrency::insert_concurrency_health(1, 1, 1, 1));
    one("lock_contention_ranking", pgmcp_db::queries::concurrency::lock_contention_ranking(1, 1));
    opt("concurrency_metric_series", pgmcp_db::queries::concurrency::concurrency_metric_series(1, "deadlock_cycle_count", 1));
}

#[test]
fn cron_history_statements_bind_their_placeholders() {
    one("last_successful_completions", pgmcp_db::queries::cron_history::last_successful_completions());
    one("recent_cron_runs", pgmcp_db::queries::cron_history::recent_cron_runs(Some("x"), 1));
    one("cron_job_rollup", pgmcp_db::queries::cron_history::cron_job_rollup());
    opt("delete_cron_runs_older_than", pgmcp_db::queries::cron_history::delete_cron_runs_older_than(1));
}

#[test]
fn dashboard_metrics_statements_bind_their_placeholders() {
    one("tool_call_series", pgmcp_db::queries::dashboard_metrics::tool_call_series("x", 1));
    one("cron_run_series", pgmcp_db::queries::dashboard_metrics::cron_run_series("x", 1));
    one("quality_gpa_series", pgmcp_db::queries::dashboard_metrics::quality_gpa_series("x", 1));
}

#[test]
fn data_table_links_statements_bind_their_placeholders() {
    one("link_data_table", pgmcp_db::queries::data_table_links::link_data_table(1, "x", 1, Some("x")));
    one("unlink_data_table", pgmcp_db::queries::data_table_links::unlink_data_table(1, "x", 1));
    one("links_for_table", pgmcp_db::queries::data_table_links::links_for_table(1));
}

#[test]
fn data_tables_statements_bind_their_placeholders() {
    opt("insert_rows", pgmcp_db::queries::data_tables::insert_rows(1, &texts(), Some("x"), Some("x")));
    one("get_table", pgmcp_db::queries::data_tables::get_table(1));
    one("get_table_by_name", pgmcp_db::queries::data_tables::get_table_by_name(Some(1), "x"));
    one("list_columns", pgmcp_db::queries::data_tables::list_columns(1));
    one("search_tables", pgmcp_db::queries::data_tables::search_tables(Some(1), 1));
    one("set_table_embedding", pgmcp_db::queries::data_tables::set_table_embedding(1, "x"));
    one("create_table", pgmcp_db::queries::data_tables::create_table(Some(1), "x", Some("x"), "x", Some("x")));
    one("list_tables", pgmcp_db::queries::data_tables::list_tables(Some(1), 1));
    one("update_table_meta", pgmcp_db::queries::data_tables::update_table_meta(1, Some("x"), Some("x")));
    one("set_schema_mode", pgmcp_db::queries::data_tables::set_schema_mode(1, "x"));
    one("delete_table", pgmcp_db::queries::data_tables::delete_table(1));
    one("add_column", pgmcp_db::queries::data_tables::add_column(1, "x", "x", true, Some("x"), 1, Some("x")));
    one("drop_column", pgmcp_db::queries::data_tables::drop_column(1, "x"));
    one("update_column", pgmcp_db::queries::data_tables::update_column(1, "x", Some(true), true, Some("x")));
    one("rename_column", pgmcp_db::queries::data_tables::rename_column(1, "x", "x"));
    one("rename_row_key", pgmcp_db::queries::data_tables::rename_row_key(1, "x", "x"));
    one("get_row", pgmcp_db::queries::data_tables::get_row(1, 1));
    one("update_row_by_id", pgmcp_db::queries::data_tables::update_row_by_id(1, 1, "x"));
    one("delete_row_by_id", pgmcp_db::queries::data_tables::delete_row_by_id(1, 1));
}

#[test]
fn digest_statements_bind_their_placeholders() {
    one("recently_emitted", pgmcp_db::queries::digest::recently_emitted("x", "x", 1));
    one("session_emit_count", pgmcp_db::queries::digest::session_emit_count("x"));
    one("insert_digest_emission", pgmcp_db::queries::digest::insert_digest_emission("x", "x", Some(1), "x", 1));
}

#[test]
fn experiments_statements_bind_their_placeholders() {
    one("insert_experiment_in_tx", pgmcp_db::queries::experiments::insert_experiment_in_tx("x", "x", "x", Some("x"), "x", Some(1), "x", Some("x"), Some("x"), "x"));
    one("insert_experiment_hypothesis_in_tx", pgmcp_db::queries::experiments::insert_experiment_hypothesis_in_tx(1, "x", "x", Some("x"), "x", "x", Some(1)));
    one("insert_experiment_code_anchor", pgmcp_db::queries::experiments::insert_experiment_code_anchor(1, Some(1), Some(1), Some(1), "x"));
    one("set_experiment_status", pgmcp_db::queries::experiments::set_experiment_status(1, "x"));
    one("get_experiment_hypothesis", pgmcp_db::queries::experiments::get_experiment_hypothesis(1));
    one("load_experiment_samples", pgmcp_db::queries::experiments::load_experiment_samples(1, Some(1), "x", "x"));
    one("earliest_measurement_time", pgmcp_db::queries::experiments::earliest_measurement_time(1));
    one("find_experiment_run_id", pgmcp_db::queries::experiments::find_experiment_run_id(1, Some(1), "x"));
    one("set_hypothesis_verdict", pgmcp_db::queries::experiments::set_hypothesis_verdict(1, "x"));
    one("set_experiment_observation_id", pgmcp_db::queries::experiments::set_experiment_observation_id(1, 1));
    one("set_result_observation_id", pgmcp_db::queries::experiments::set_result_observation_id(1, 1));
    one("experiment_search_vector", pgmcp_db::queries::experiments::experiment_search_vector(Some(1), Some("x"), Some("x"), 1));
    one("experiment_search_fts", pgmcp_db::queries::experiments::experiment_search_fts("x", Some(1), Some("x"), 1));
    one("get_experiment_core", pgmcp_db::queries::experiments::get_experiment_core(Some(1), Some("x")));
    one("list_experiment_results", pgmcp_db::queries::experiments::list_experiment_results(1));
    one("list_experiment_hypotheses", pgmcp_db::queries::experiments::list_experiment_hypotheses(1));
    one("list_experiments", pgmcp_db::queries::experiments::list_experiments(Some(1), Some("x"), Some("x"), 1, 1));
    one("experiment_timeline", pgmcp_db::queries::experiments::experiment_timeline(1));
    one("insert_experiment_artifact", pgmcp_db::queries::experiments::insert_experiment_artifact(Some(1), Some(1), "x", Some("x"), Some("x"), Some("x"), Some("x"), "x", Some(1), Some("x")));
}

#[test]
fn external_scanner_statements_bind_their_placeholders() {
    one("project_languages", pgmcp_db::queries::external_scanner::project_languages(1));
    one("insert_scanner_run", pgmcp_db::queries::external_scanner::insert_scanner_run(1, "x", "x", Some(1), 1, 1, Some("x"), Some("x")));
    one("upsert_scanner_finding", pgmcp_db::queries::external_scanner::upsert_scanner_finding(1, 1, "x", Some("x"), "x", Some("x"), Some(1), "x", Some("x"), "x", "x"));
    one("mark_unseen_resolved", pgmcp_db::queries::external_scanner::mark_unseen_resolved(1, "x", &texts()));
    one("query_scanner_findings", pgmcp_db::queries::external_scanner::query_scanner_findings(Some(1), Some(&texts()), 1, Some("x"), 1));
    one("scanner_finding_counts", pgmcp_db::queries::external_scanner::scanner_finding_counts(Some(1), Some("x")));
    one("upsert_scanner_sbom", pgmcp_db::queries::external_scanner::upsert_scanner_sbom(1, "x", "x"));
}

#[test]
fn feedback_statements_bind_their_placeholders() {
    one("set_feedback_embedding", pgmcp_db::queries::feedback::set_feedback_embedding(1));
    one("get_feedback", pgmcp_db::queries::feedback::get_feedback(1));
    one("list_feedback", pgmcp_db::queries::feedback::list_feedback(Some("x"), Some("x"), Some("x"), Some("x"), Some(1), 1));
    one("search_feedback_fts", pgmcp_db::queries::feedback::search_feedback_fts("x", 1));
    one("search_feedback_semantic", pgmcp_db::queries::feedback::search_feedback_semantic(1));
    one("respond_feedback", pgmcp_db::queries::feedback::respond_feedback(1, "x", "x", Some("x")));
    one("mark_feedback_promoted", pgmcp_db::queries::feedback::mark_feedback_promoted(1, 1));
}

#[test]
fn files_statements_bind_their_placeholders() {
    one("get_all_file_metadata", pgmcp_db::queries::files::get_all_file_metadata());
    one("upsert_file", pgmcp_db::queries::files::upsert_file(1, "x", "x", "x", 1, Some("x"), Some(1), 1, true, true));
    one("get_content_hash", pgmcp_db::queries::files::get_content_hash("x"));
    one("finalize_file_hash", pgmcp_db::queries::files::finalize_file_hash(1, 1));
    one("delete_file_chunks", pgmcp_db::queries::files::delete_file_chunks(1));
    one("delete_file", pgmcp_db::queries::files::delete_file("x"));
    opt("delete_files_batch", pgmcp_db::queries::files::delete_files_batch(&texts()));
    pair("delete_files_by_language", pgmcp_db::queries::files::delete_files_by_language("x"));
    one("read_file", pgmcp_db::queries::files::read_file("x"));
    one("read_file_by_relative_path", pgmcp_db::queries::files::read_file_by_relative_path("x"));
    one("file_info", pgmcp_db::queries::files::file_info("x"));
    one("project_tree", pgmcp_db::queries::files::project_tree("x"));
    one("search_file_paths", pgmcp_db::queries::files::search_file_paths("x", 1));
    one("get_file_id_by_path", pgmcp_db::queries::files::get_file_id_by_path("x"));
    one("resolve_file_reference", pgmcp_db::queries::files::resolve_file_reference("x"));
    one("find_canonical_by_content_hash", pgmcp_db::queries::files::find_canonical_by_content_hash(1, 1));
    pair("update_file_path_in_place", pgmcp_db::queries::files::update_file_path_in_place(1, "x", "x"));
    pair("insert_duplicate_file", pgmcp_db::queries::files::insert_duplicate_file(1, "x", "x", "x", 1, 1, 1));
    one("get_file_line_count", pgmcp_db::queries::files::get_file_line_count(1));
    one("find_files_by_path_pattern", pgmcp_db::queries::files::find_files_by_path_pattern("x", "x"));
    one("list_file_paths", pgmcp_db::queries::files::list_file_paths());
}

#[test]
fn git_statements_bind_their_placeholders() {
    one("upsert_git_commit", pgmcp_db::queries::git::upsert_git_commit(1, "x", "x", "x", Some("x")));
    one("insert_git_commit_chunk", pgmcp_db::queries::git::insert_git_commit_chunk(1, 1, "x", 1024).expect("a statement"));
    one("get_git_last_commit", pgmcp_db::queries::git::get_git_last_commit(1));
    one("set_git_last_commit", pgmcp_db::queries::git::set_git_last_commit(1, "x"));
    one("update_blame_for_file", pgmcp_db::queries::git::update_blame_for_file(1, "x", "x", 1, 1));
    tuned("semantic_search_commits", pgmcp_db::queries::git::semantic_search_commits(1024, 1, Some("x"), 1).expect("a query"));
    one("get_commits_missing_files", pgmcp_db::queries::git::get_commits_missing_files(1));
    one("has_commit_files_for_project", pgmcp_db::queries::git::has_commit_files_for_project("x"));
    one("has_commit_files_for_project_id", pgmcp_db::queries::git::has_commit_files_for_project_id(1));
}

#[test]
fn graph_statements_bind_their_placeholders() {
    one("get_function_metrics_watermark", pgmcp_db::queries::graph::get_function_metrics_watermark(1));
    opt("set_function_metrics_watermark", pgmcp_db::queries::graph::set_function_metrics_watermark(1, 1, 1));
    one("project_missing_function_metrics", pgmcp_db::queries::graph::project_missing_function_metrics(1, &["x"]));
    one("list_function_nodes_for_project", pgmcp_db::queries::graph::list_function_nodes_for_project(1));
    one("list_call_edges_for_project", pgmcp_db::queries::graph::list_call_edges_for_project(1));
    one("delete_call_edges_for_project", pgmcp_db::queries::graph::delete_call_edges_for_project(1));
    one("delete_semantic_edges_for_project", pgmcp_db::queries::graph::delete_semantic_edges_for_project(1));
    tuned("compute_semantic_file_edges", pgmcp_db::queries::graph::compute_semantic_file_edges("x", 1, 1, 1, 1));
    tuned("ppr_seed_files", pgmcp_db::queries::graph::ppr_seed_files(1024, 1, 1, 1).expect("a query"));
    one("code_raptor_search", pgmcp_db::queries::graph::code_raptor_search(1024, Some("x"), 1).expect("a statement"));
    one("ck_class_rows", pgmcp_db::queries::graph::ck_class_rows(1));
    one("ck_inheritance_edges", pgmcp_db::queries::graph::ck_inheritance_edges(1));
    one("get_call_graph_watermark", pgmcp_db::queries::graph::get_call_graph_watermark(1));
    opt("set_call_graph_watermark", pgmcp_db::queries::graph::set_call_graph_watermark(1, 1, 1));
}

#[test]
fn index_failures_statements_bind_their_placeholders() {
    one("record_index_failure", pgmcp_db::queries::index_failures::record_index_failure("x", "x", "x"));
    one("clear_index_failure", pgmcp_db::queries::index_failures::clear_index_failure("x"));
    one("get_bounded_failure_paths", pgmcp_db::queries::index_failures::get_bounded_failure_paths(1));
    one("failure_kind_counts", pgmcp_db::queries::index_failures::failure_kind_counts());
}

#[test]
fn mandates_write_statements_bind_their_placeholders() {
    one("create_durable_mandate_in_tx", pgmcp_db::queries::mandates_write::create_durable_mandate_in_tx("x", Some(1), "x", "x", Some("x"), "x"));
    one("get_durable_mandate_for_update_in_tx", pgmcp_db::queries::mandates_write::get_durable_mandate_for_update_in_tx(1));
    one("update_durable_mandate_in_tx", pgmcp_db::queries::mandates_write::update_durable_mandate_in_tx(1, Some("x"), Some("x"), Some("x")));
    one("retire_durable_mandate_in_tx", pgmcp_db::queries::mandates_write::retire_durable_mandate_in_tx(1));
    one("list_active_durable_mandates", pgmcp_db::queries::mandates_write::list_active_durable_mandates(Some("x"), Some(1)));
}

#[test]
fn memory_crud_statements_bind_their_placeholders() {
    opt("memory_delete_entities", pgmcp_db::queries::memory_crud::memory_delete_entities(&texts()));
    one("concept_seed_topics", pgmcp_db::queries::memory_crud::concept_seed_topics(1, 1));
    many("memory_retention_dry_run", pgmcp_db::queries::memory_crud::memory_retention_dry_run(1));
    many("memory_retention_purge", pgmcp_db::queries::memory_crud::memory_retention_purge(1));
    many("memory_eval_invariants", pgmcp_db::queries::memory_crud::memory_eval_invariants(1));
    one("record_memory_eval_report", pgmcp_db::queries::memory_crud::record_memory_eval_report());
}

#[test]
fn memory_entities_statements_bind_their_placeholders() {
    one("lock_tuple", pgmcp_db::queries::memory_entities::lock_tuple("x", &texts().to_vec()));
}

#[test]
fn memory_locks_statements_bind_their_placeholders() {
    one("lock_memory_entity_identity", pgmcp_db::queries::memory_locks::lock_memory_entity_identity("x", "x"));
    one("lock_memory_entity_observations", pgmcp_db::queries::memory_locks::lock_memory_entity_observations(1));
    one("lock_memory_relation_identity", pgmcp_db::queries::memory_locks::lock_memory_relation_identity("x", "x", "x"));
}

#[test]
fn memory_observations_statements_bind_their_placeholders() {
    one("find_active_observation", pgmcp_db::queries::memory_observations::find_active_observation(1, "x"));
    one("insert_active_observation", pgmcp_db::queries::memory_observations::insert_active_observation(1, "x", "x"));
}

#[test]
fn memory_search_statements_bind_their_placeholders() {
    one("memory_search_nodes", pgmcp_db::queries::memory_search::memory_search_nodes("x", Some(1), 1));
    opt("memory_open_nodes", pgmcp_db::queries::memory_search::memory_open_nodes(&texts()));
    many("open_node_details", pgmcp_db::queries::memory_search::open_node_details(1));
    one("memory_read_graph", pgmcp_db::queries::memory_search::memory_read_graph(Some(1), 1));
    many("read_graph_details", pgmcp_db::queries::memory_search::read_graph_details(&[1]));
    one("memory_facts_at", pgmcp_db::queries::memory_search::memory_facts_at(Some(1), Some("x"), 1));
    many("facts_at_details", pgmcp_db::queries::memory_search::facts_at_details(&[1]));
    tuned("memory_semantic_search", pgmcp_db::queries::memory_search::memory_semantic_search(1024, Some(1), Some("x"), 1, 1).expect("a query"));
    tuned("memory_hybrid_search", pgmcp_db::queries::memory_search::memory_hybrid_search(1024, "x", Some(1), Some("x"), 1, 1).expect("a query"));
    tuned("memory_unified_search", pgmcp_db::queries::memory_search::memory_unified_search(1024, Some(&texts()), 1, 1).expect("a query"));
    tuned("memory_raptor_search", pgmcp_db::queries::memory_search::memory_raptor_search(1024, Some(1), Some(&[1]), 1, 1).expect("a query"));
    opt("memory_relations_traverse", pgmcp_db::queries::memory_search::memory_relations_traverse(&[1], 1, Some("x"), 1));
    opt("traversal_edges", pgmcp_db::queries::memory_search::traversal_edges(&[1], Some("x")));
    one("memory_neighbors", pgmcp_db::queries::memory_search::memory_neighbors("x", 1, Some("x"), 1));
    opt("neighbor_edges", pgmcp_db::queries::memory_search::neighbor_edges(&texts(), Some("x")));
    one("memory_anchor_entity", pgmcp_db::queries::memory_search::memory_anchor_entity(1, Some(1), Some(1), Some(1), Some(1), Some(1), "x").expect("a statement"));
    one("memory_unanchor_entity", pgmcp_db::queries::memory_search::memory_unanchor_entity(1));
    one("memory_find_code_for_entity", pgmcp_db::queries::memory_search::memory_find_code_for_entity(1, Some("x")));
    one("memory_find_entities_for_code", pgmcp_db::queries::memory_search::memory_find_entities_for_code(None, Some(1), None, None, None).expect("a statement"));
    many("refresh_matview_concurrently", pgmcp_db::queries::memory_search::refresh_matview_concurrently("x", "x"));
    many("refresh_memory_unified_nodes", pgmcp_db::queries::memory_search::refresh_memory_unified_nodes());
    many("refresh_memory_unified_edges", pgmcp_db::queries::memory_search::refresh_memory_unified_edges());
    many("memory_path_search", pgmcp_db::queries::memory_search::memory_path_search(&texts(), Some(&texts()), 1));
    tuned("memory_ppr_search", pgmcp_db::queries::memory_search::memory_ppr_search(1024, 1, 1).expect("a query"));
    one("load_unified_edges", pgmcp_db::queries::memory_search::load_unified_edges());
    opt("describe_nodes", pgmcp_db::queries::memory_search::describe_nodes(&texts()));
}

#[test]
fn metrics_statements_bind_their_placeholders() {
    opt("count_call_sites_to_files", pgmcp_db::queries::metrics::count_call_sites_to_files(&[1]));
    opt("get_file_risk_metrics", pgmcp_db::queries::metrics::get_file_risk_metrics(&[1]));
    one("find_zombie_candidates", pgmcp_db::queries::metrics::find_zombie_candidates("x", 1, 1));
    one("get_god_file_chunks_with_topics", pgmcp_db::queries::metrics::get_god_file_chunks_with_topics("x", 1));
    one("find_hot_paths", pgmcp_db::queries::metrics::find_hot_paths("x", 1));
    one("find_hot_paths_by_project_id", pgmcp_db::queries::metrics::find_hot_paths_by_project_id(1, 1));
    one("find_bus_factor_files", pgmcp_db::queries::metrics::find_bus_factor_files("x", 1));
    opt("find_dominant_authors_for_files", pgmcp_db::queries::metrics::find_dominant_authors_for_files("x", &texts(), 1));
    one("find_unresolved_dependencies", pgmcp_db::queries::metrics::find_unresolved_dependencies(Some(1), 1));
    opt("find_merge_conflict_risks", pgmcp_db::queries::metrics::find_merge_conflict_risks("x", &texts(), 1, Some("x")));
    one("get_growth_buckets", pgmcp_db::queries::metrics::get_growth_buckets("x", Some("x"), "x", 1));
    one("get_file_complexity_data", pgmcp_db::queries::metrics::get_file_complexity_data("x"));
    one("get_file_complexity_data_by_project_id", pgmcp_db::queries::metrics::get_file_complexity_data_by_project_id(1));
    one("get_file_function_metric_aggregates", pgmcp_db::queries::metrics::get_file_function_metric_aggregates(1));
    one("get_file_ast_complexity_by_path", pgmcp_db::queries::metrics::get_file_ast_complexity_by_path(1));
}

#[test]
fn ontology_statements_bind_their_placeholders() {
    one("upsert_concept_meta", pgmcp_db::queries::ontology::upsert_concept_meta(1, "x", "x", Some(1)));
    one("get_concept_meta", pgmcp_db::queries::ontology::get_concept_meta(1));
    one("list_concepts_by_facet", pgmcp_db::queries::ontology::list_concepts_by_facet("x", Some(1), 1));
    one("concepts_for_file", pgmcp_db::queries::ontology::concepts_for_file(1));
    one("invariants_for_file", pgmcp_db::queries::ontology::invariants_for_file(1));
    one("upsert_invariant_meta", pgmcp_db::queries::ontology::upsert_invariant_meta(1, "x", "x", "x", Some(1)));
    one("insert_concept_evidence", pgmcp_db::queries::ontology::insert_concept_evidence(1, "x", Some(1), Some(1), Some("x"), Some("x"), "x"));
    one("count_concept_evidence", pgmcp_db::queries::ontology::count_concept_evidence(1));
    opt("insert_ontology_edge", pgmcp_db::queries::ontology::insert_ontology_edge(1, 2, "x"));
    one("list_concept_ids_by_facet", pgmcp_db::queries::ontology::list_concept_ids_by_facet("x"));
    one("concept_concurrency_findings", pgmcp_db::queries::ontology::concept_concurrency_findings());
    one("load_software_patterns", pgmcp_db::queries::ontology::load_software_patterns());
    one("set_concept_attr", pgmcp_db::queries::ontology::set_concept_attr(1, "x", "x"));
    one("detect_is_a_cycles", pgmcp_db::queries::ontology::detect_is_a_cycles());
    one("unanchored_invariants", pgmcp_db::queries::ontology::unanchored_invariants());
    one("concept_ancestors", pgmcp_db::queries::ontology::concept_ancestors(1));
    one("concept_descendants", pgmcp_db::queries::ontology::concept_descendants(1, 1));
    one("export_concepts", pgmcp_db::queries::ontology::export_concepts());
    one("export_edges", pgmcp_db::queries::ontology::export_edges());
    one("load_isa_edge_ids", pgmcp_db::queries::ontology::load_isa_edge_ids("x"));
    one("concept_broader_links", pgmcp_db::queries::ontology::concept_broader_links(1, 1));
    one("concept_hierarchy_edges", pgmcp_db::queries::ontology::concept_hierarchy_edges("x"));
    one("search_concepts_by_name", pgmcp_db::queries::ontology::search_concepts_by_name("x", Some("x"), 1));
    opt("resolve_concepts_by_names", pgmcp_db::queries::ontology::resolve_concepts_by_names(&texts(), Some("x"), 1));
    one("list_concept_evidence", pgmcp_db::queries::ontology::list_concept_evidence(1));
    one("find_similar_concept_pairs", pgmcp_db::queries::ontology::find_similar_concept_pairs("x"));
    one("load_concept_effect_rows", pgmcp_db::queries::ontology::load_concept_effect_rows("x", 1));
}

#[test]
fn projects_statements_bind_their_placeholders() {
    one("upsert_project", pgmcp_db::queries::projects::upsert_project("x", "x", "x", Some("x"), Some("x")));
    one("list_projects", pgmcp_db::queries::projects::list_projects());
    one("find_project_by_cwd", pgmcp_db::queries::projects::find_project_by_cwd("x"));
    one("select_main_worktree_projects", pgmcp_db::queries::projects::select_main_worktree_projects());
    one("language_summary", pgmcp_db::queries::projects::language_summary("x"));
    one("update_project_scanned", pgmcp_db::queries::projects::update_project_scanned(1));
    one("update_projects_scanned_by_workspace", pgmcp_db::queries::projects::update_projects_scanned_by_workspace("x"));
    one("list_project_names", pgmcp_db::queries::projects::list_project_names());
    one("list_languages", pgmcp_db::queries::projects::list_languages());
    one("get_git_enabled_projects", pgmcp_db::queries::projects::get_git_enabled_projects());
    one("delete_projects_by_workspace", pgmcp_db::queries::projects::delete_projects_by_workspace("x"));
    one("cleanup_orphaned_projects", pgmcp_db::queries::projects::cleanup_orphaned_projects().statement);
}

#[test]
fn realtime_events_statements_bind_their_placeholders() {
    one("append_realtime_event", pgmcp_db::queries::realtime_events::append_realtime_event("x", "x", "x", "x"));
    one("append_realtime_event_tx", pgmcp_db::queries::realtime_events::append_realtime_event_tx("x", "x", "x", "x"));
    one("current_realtime_seq", pgmcp_db::queries::realtime_events::current_realtime_seq());
    one("committed_realtime_events_after", pgmcp_db::queries::realtime_events::committed_realtime_events_after(1, 1, &texts()));
}

#[test]
fn search_statements_bind_their_placeholders() {
    tuned("semantic_search", pgmcp_db::queries::search::semantic_search(1024, 1, Some("x"), Some("x"), 1, true).expect("a query"));
    tuned("hybrid_search_chunks", pgmcp_db::queries::search::hybrid_search_chunks("x", 1024, 1, 1, Some("x"), Some("x"), 1, true).expect("a query"));
    one("text_search", pgmcp_db::queries::search::text_search("x", 1, Some("x"), Some("x"), true));
    one("limit_time", pgmcp_db::queries::search::limit_time(1));
    tuned("text_search_bounded", pgmcp_db::queries::search::text_search_bounded("x", 1, Some("x"), Some("x"), true, 1));
    one("grep_search", pgmcp_db::queries::search::grep_search("x", Some("x"), 1, true));
    one("grep_search_chunks", pgmcp_db::queries::search::grep_search_chunks("x", Some("x"), Some("x"), Some("x"), true, 1, true));
    tuned("recall_prompts_semantic", pgmcp_db::queries::search::recall_prompts_semantic(1024, Some("x"), 1, 1).expect("a query"));
    one("search_mandates_fts", pgmcp_db::queries::search::search_mandates_fts("x", Some("x"), Some("x"), Some(1), 1));
    tuned("search_mandates_semantic", pgmcp_db::queries::search::search_mandates_semantic(1024, Some("x"), Some("x"), Some(1), 1, 1).expect("a query"));
}

#[test]
fn similarity_statements_bind_their_placeholders() {
    tuned("compare_two_files", pgmcp_db::queries::similarity::compare_two_files("x", 1, 1, 1));
    tuned("compare_chunks_within_file", pgmcp_db::queries::similarity::compare_chunks_within_file("x", 1, 1));
    tuned("batch_find_cross_project_neighbors", pgmcp_db::queries::similarity::batch_find_cross_project_neighbors("x", 1, 1, 1, 1));
    one("clear_similarity_table", pgmcp_db::queries::similarity::clear_similarity_table());
    one("count_similarity_pairs", pgmcp_db::queries::similarity::count_similarity_pairs());
    one("top_similar_file_pairs", pgmcp_db::queries::similarity::top_similar_file_pairs(1));
    one("max_chunk_id", pgmcp_db::queries::similarity::max_chunk_id());
    one("find_similar_files", pgmcp_db::queries::similarity::find_similar_files(1, 1, Some("x"), true));
    one("find_duplicate_file_pairs", pgmcp_db::queries::similarity::find_duplicate_file_pairs(Some("x"), 1, true));
    one("find_chunk_similarity_pairs", pgmcp_db::queries::similarity::find_chunk_similarity_pairs(Some("x"), &[1], Some("x"), true, 1));
    one("find_pattern_abstraction_pairs", pgmcp_db::queries::similarity::find_pattern_abstraction_pairs(Some("x"), &[1], Some("x"), true, 1));
}

#[test]
fn stats_statements_bind_their_placeholders() {
    one("count_indexed_files", pgmcp_db::queries::stats::count_indexed_files());
    one("count_chunks", pgmcp_db::queries::stats::count_chunks());
    one("count_projects", pgmcp_db::queries::stats::count_projects());
    one("total_bytes_indexed", pgmcp_db::queries::stats::total_bytes_indexed());
}
