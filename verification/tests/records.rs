//! Statements that are built from records and lists, and the lock keys and
//! graphs that go with them.
use pgmcp_db::patterns::{
    catalog_stats, catalog_stats_of, list_patterns, semantic_search_patterns, upsert_paradigm,
    upsert_pattern, ParadigmSeed, PatternListOptions, PatternSearchOptions, PatternSeed,
};
use pgmcp_db::queries::advisories::{bulk_insert_vuln_advisories, VulnAdvisoryRow};
use pgmcp_db::queries::clients::recent_edited_files;
use pgmcp_db::queries::concurrency::{
    lock_contention_ranking, record_concurrency_finding, refresh_lock_order_edges, NewConcurrencyFinding, NewLockEdge,
};
use pgmcp_db::queries::data_tables::{
    count_rows, delete_rows, esc_lit, insert_rows, one_key_json, select_rows,
    update_rows, ColumnCast, Combinator, FieldPredicate, FilterOp, Operand, RowFilter, RowSort,
    SortDir,
};
use pgmcp_db::queries::experiments::{
    experiment_run_advisory_lock_key, insert_experiment_samples, resolve_experiment_file_id,
};
use pgmcp_db::queries::feedback::{insert_feedback, NewFeedback};
use pgmcp_db::queries::files::{
    cleanup_stale_files, insert_duplicate_file, update_file_path_in_place,
};
use pgmcp_db::queries::git::insert_commit_file;
use pgmcp_db::queries::graph::{
    bulk_insert_call_edges, bulk_insert_semantic_edges, known_call_positions,
    set_call_graph_watermark, update_function_fan_io, upsert_function_metrics_batch, FunctionMetricsRow, RawCallEdgeRow,
    SemanticFileEdge,
};
use pgmcp_db::queries::memory_crud::{
    memory_eval_invariants, memory_retention_dry_run, memory_retention_purge, ScopeSpec,
};
use pgmcp_db::queries::memory_graph::{
    diffusion_result_limit, index_graph, node_overlap, prune_paths, NamedEdge,
};
use pgmcp_db::queries::memory_locks::{
    memory_entity_identity_lock_key, memory_relation_identity_lock_key, take_lock,
};
use pgmcp_db::queries::memory_relations::{delete_relation, memory_delete_relations, NewRelationInput};
use pgmcp_db::queries::memory_search::{
    describe_nodes, looked_up_node_id, memory_hybrid_search, memory_path_search, memory_ppr_search,
    memory_raptor_search, path_seed_limit, resolve_graph_node_id, NodeResolution,
};
use pgmcp_db::queries::metrics::find_dominant_authors_for_files;
use pgmcp_db::queries::ontology::{concept_ancestors, invariants_for_file, search_concepts_by_name};
use pgmcp_db::queries::similarity::{insert_similarity_pairs, SimilarityNeighborRow};
use pgmcp_db::search_pattern::like_escape;
use pgmcp_db::statement::{Bind, Statement};

fn strings(v: &[&str]) -> Vec<String> {
    v.iter().map(|s| s.to_string()).collect()
}

fn text(st: &Statement, i: usize) -> &str {
    match &st.binds[i] {
        Bind::Text(s) => s.as_str(),
        other => panic!("{other:?}"),
    }
}

fn predicate(field: &str, op: FilterOp, value: Operand) -> FieldPredicate {
    FieldPredicate { field: field.to_string(), op, value }
}

#[test]
fn fields_stay_inside_their_literal() {
    assert_eq!(esc_lit("o'clock"), "o''clock");
    assert_eq!(like_escape(r"50%_\"), r"50\%\_\\");
    assert_eq!(one_key_json("a\"b", &Operand::Text("x\ny".to_string())), r#"{"a\"b":"x\ny"}"#);
    assert_eq!(one_key_json("n", &Operand::Number("1.5".to_string())), r#"{"n":1.5}"#);
    assert_eq!(one_key_json("n", &Operand::Null), r#"{"n":null}"#);
}

#[test]
fn filters_number_their_arguments() {
    let filter = RowFilter {
        predicates: vec![
            predicate("state", FilterOp::Eq, Operand::Text("open".to_string())),
            predicate("due", FilterOp::Exists, Operand::Null),
            predicate("n", FilterOp::Gt, Operand::Number("3".to_string())),
            predicate("at", FilterOp::Lte, Operand::Text("2024".to_string())),
            predicate("note", FilterOp::Contains, Operand::Text("50%".to_string())),
        ],
        combinator: Combinator::Any,
    };
    let types = [ColumnCast { name: "at".to_string(), cast: Some("timestamptz".to_string()) }];
    let st = count_rows(7, &filter, &types);
    assert!(st.sql.ends_with(
        " AND (data @> $2::jsonb OR (data ? 'due') OR (data ->> 'n')::numeric > $3::numeric \
         OR (data ->> 'at')::timestamptz <= $4::timestamptz \
         OR (data ->> 'note') ILIKE '%' || $5 || '%')"
    ));
    assert_eq!(st.binds.len(), 5);
    assert_eq!(text(&st, 1), r#"{"state":"open"}"#);
    assert_eq!(text(&st, 4), r"50\%");
}

#[test]
fn rows_are_sorted_changed_and_deleted() {
    let none = RowFilter::none();
    assert!(none.is_empty());
    let by_field = RowSort { field: Some("n".to_string()), dir: SortDir::Desc };
    let typed = [ColumnCast { name: "n".to_string(), cast: Some("numeric".to_string()) }];
    let st = select_rows(7, &none, &by_field, 10, 20, &typed);
    assert!(st.sql.contains("(data ->> 'n')::numeric DESC"), "{}", st.sql);
    assert!(matches!(st.binds[0], Bind::BigInt(7)));
    assert_eq!(st.binds.len(), 3);
    let changed = update_rows(7, &none, "{}", &[]);
    assert!(changed.sql.starts_with("UPDATE"));
    let gone = delete_rows(7, &none, &[]);
    assert!(gone.sql.starts_with("DELETE"));
    assert!(insert_rows(7, &[], None, None).is_none());
    assert!(insert_rows(7, &strings(&["{}"]), None, None).is_some());
}

#[test]
fn lock_keys_are_those_of_their_hash() {
    let (high, low) = memory_entity_identity_lock_key("alpha", "concept");
    assert_eq!((high, low), (-424055161, -1809434946));
    assert_ne!(
        memory_relation_identity_lock_key("ab", "c", "d"),
        memory_relation_identity_lock_key("a", "bc", "d")
    );
    let st = take_lock((1, -2));
    assert_eq!(st.sql, "SELECT pg_advisory_xact_lock($1, $2)");
    assert!(matches!(st.binds[1], Bind::Int(-2)));
    assert_eq!(experiment_run_advisory_lock_key(1, None, "control"), (-2, 1386144670));
    assert_eq!(experiment_run_advisory_lock_key(5, Some(7), "control"), (917509, 1386144670));
}

#[test]
fn samples_are_numbered_and_keyed() {
    let st = insert_experiment_samples("control", "ms", 3, &None, false).expect("samples");
    assert!(st.binds.iter().any(|b| matches!(b, Bind::IntArray(v) if *v == vec![0, 1, 2])));
    let keyed = insert_experiment_samples("control", "ms", 2, &Some(strings(&["a", "b"])), false)
        .expect("samples");
    assert!(insert_experiment_samples("control", "ms", 0, &None, false).is_none());
    assert!(keyed.binds.iter().any(
        |b| matches!(b, Bind::OptTextArray(v) if *v == vec![Some("a".to_string()), Some("b".to_string())])
    ));
}

#[test]
fn overlaps_count_distinct_nodes() {
    let o = node_overlap(&strings(&["a", "b", "b"]), &strings(&["b", "c"]));
    assert_eq!((o.common, o.all), (1, 3));
    let none = node_overlap(&Vec::new(), &Vec::new());
    assert_eq!((none.common, none.all), (0, 0));
}

#[test]
fn near_duplicates_are_pruned() {
    let close = vec![vec![], vec![true], vec![false, true], vec![false, false, false]];
    let all = prune_paths(&close, 10);
    assert_eq!(all.kept, vec![0, 2, 3]);
    assert_eq!(all.pruned, 1);
    let two = prune_paths(&close, 2);
    assert_eq!(two.kept, vec![0, 2]);
    let one = prune_paths(&close, -5);
    assert_eq!((one.kept, one.pruned), (vec![0], 0));
}

#[test]
fn graphs_link_both_ends() {
    let edges = vec![
        NamedEdge { from: "a".to_string(), to: "b".to_string() },
        NamedEdge { from: "b".to_string(), to: "c".to_string() },
        NamedEdge { from: "c".to_string(), to: "c".to_string() },
    ];
    let g = index_graph(&edges, &strings(&["c", "z"]));
    assert_eq!(g.nodes, strings(&["a", "b", "c", "z"]));
    assert_eq!(g.links[0], vec![(1, 0)]);
    assert_eq!(g.links[1], vec![(0, 0), (2, 1)]);
    assert_eq!(g.links[2], vec![(1, 1), (2, 2), (2, 2)]);
    assert!(g.links[3].is_empty());
    assert_eq!(g.seeds, vec![2, 3]);
}

#[test]
fn searches_over_the_graph_bound_their_seeds() {
    assert_eq!(path_seed_limit(0), 5);
    assert_eq!(path_seed_limit(70), 70);
    assert_eq!(path_seed_limit(700), 100);
    assert_eq!(diffusion_result_limit(0), 1);
    assert_eq!(diffusion_result_limit(1000), 200);
    let q = memory_ppr_search(1024, 1000, 40).expect("a query");
    assert!(matches!(q.query.binds[2], Bind::Int(100)));
    assert!(memory_ppr_search(3, 10, 40).is_err());
    assert!(memory_path_search(&[], None, 3).is_empty());
    let walks = memory_path_search(&strings(&["entity:1"]), None, 9);
    assert_eq!(walks.len(), 2);
    assert!(matches!(walks[0].binds[1], Bind::Int(5)));
    assert!(describe_nodes(&[]).is_none());
}

#[test]
fn graph_nodes_resolve_by_number_or_key() {
    match resolve_graph_node_id("entity", "12") {
        NodeResolution::Known(id) => assert_eq!(id, "entity:12"),
        other => panic!("{other:?}"),
    }
    assert!(matches!(resolve_graph_node_id("project", "pgmcp"), NodeResolution::Lookup(_)));
    assert!(matches!(resolve_graph_node_id("nothing", "x"), NodeResolution::Unknown));
    assert_eq!(looked_up_node_id("file", Some(4)), Some("file:4".to_string()));
    assert_eq!(looked_up_node_id("file", None), None);
}

fn metrics(id: i64) -> FunctionMetricsRow {
    FunctionMetricsRow {
        function_id: id,
        file_id: 2,
        project_id: 3,
        cyclomatic: 4,
        cognitive: 5,
        halstead_n1: 6,
        halstead_n2: 7,
        halstead_big_n1: 8,
        halstead_big_n2: 9,
        npath: 10,
        npath_overflow: false,
        loc: 11,
        comment_lines: 12,
        panic_paths: 13,
        unsafe_blocks: 14,
    }
}

#[test]
fn columns_line_up_with_their_rows() {
    assert!(upsert_function_metrics_batch(&[]).is_none());
    let st = upsert_function_metrics_batch(&[metrics(1), metrics(2)]).expect("rows");
    assert!(matches!(&st.binds[0], Bind::BigIntArray(v) if *v == vec![1, 2]));
    let edge = |source: Option<i64>| RawCallEdgeRow {
        source_file_id: 1,
        source_symbol_id: source,
        target_file_id: None,
        target_symbol_id: Some(4),
        target_raw: "f".to_string(),
    };
    let calls = bulk_insert_call_edges(9, &[edge(Some(2)), edge(None), edge(Some(3))]);
    let st = calls.expect("edges");
    assert!(st
        .binds
        .iter()
        .any(|b| matches!(b, Bind::IntArray(v) if v.iter().all(|p| *p == 9))));
    assert!(bulk_insert_call_edges(9, &[]).is_none());
    assert!(update_function_fan_io(&[]).is_none());
    assert!(update_function_fan_io(&[(1, 2, 3)]).is_some());
    assert!(bulk_insert_semantic_edges(1, &[]).is_none());
    let semantic = [SemanticFileEdge { source_file_id: 1, target_file_id: 2 }];
    assert!(bulk_insert_semantic_edges(1, &semantic).is_some());
    let mark = set_call_graph_watermark(5, 0, 0).expect("a moment");
    assert_eq!(text(&mark, 1), "1970-01-01T00:00:00+00:00");
}

#[test]
fn lock_edges_are_opened_and_then_closed() {
    let edge = NewLockEdge {
        from_key: "a".to_string(),
        to_key: "b".to_string(),
        from_mode: None,
        to_mode: Some("write".to_string()),
        interprocedural: true,
    };
    let all = refresh_lock_order_edges(3, &[edge]);
    assert_eq!(all.len(), 2);
    assert!(all[0].sql.starts_with("INSERT INTO lock_order_edges"));
    assert!(all[1].sql.starts_with("UPDATE lock_order_edges"));
    let finding = NewConcurrencyFinding {
        finding_kind: "deadlock".to_string(),
        severity: "high".to_string(),
        provenance_key: "k".to_string(),
        symbol_id: None,
        file_id: Some(2),
        title: "t".to_string(),
    };
    assert_eq!(record_concurrency_finding(3, &finding).binds.len(), 9);
}

#[test]
fn vanished_files_are_deleted() {
    let all = cleanup_stale_files(&strings(&["a", "b", "c"]), &vec![true, false, false]);
    assert_eq!(all.len(), 2);
    assert_eq!(text(&all[0], 0), "b");
    assert_eq!(text(&all[1], 0), "c");
}

#[test]
fn moved_and_duplicate_files_lose_their_failures() {
    let (moved, cleared) = update_file_path_in_place(1, "/ws/b.rs", "b.rs");
    assert!(moved.sql.starts_with("UPDATE indexed_files"));
    assert_eq!(text(&cleared, 0), "/ws/b.rs");
    let (stored, cleared) = insert_duplicate_file(1, "/ws/c.rs", "c.rs", "rust", 3, 4, 5);
    assert!(stored.sql.starts_with("INSERT INTO indexed_files"));
    assert_eq!(text(&cleared, 0), "/ws/c.rs");
}

#[test]
fn records_bind_their_fields() {
    let feedback = insert_feedback(NewFeedback {
        agent_id: "pi",
        category: "bug",
        sentiment: "negative",
        subject: None,
        body: "b",
        about_tool: Some("grep"),
        project_id: None,
    });
    assert_eq!(feedback.binds.len(), 7);
    assert_eq!(text(&feedback, 2), "negative");
    assert_eq!(text(&insert_commit_file(1, "a.rs", 'M'), 2), "M");
    assert!(bulk_insert_vuln_advisories(&[]).is_none());
    let advisory = VulnAdvisoryRow {
        advisory_id: "A-1".to_string(),
        ecosystem: "cargo".to_string(),
        package: "p".to_string(),
        introduced: None,
        fixed: Some("1.2".to_string()),
        last_affected: None,
        severity: None,
        summary: None,
    };
    let st = bulk_insert_vuln_advisories(&[advisory]).expect("rows");
    assert!(matches!(&st.binds[0], Bind::TextArray(v) if *v == strings(&["A-1"])));
    let relation =
        || NewRelationInput { from: "a".to_string(), to: "b".to_string(), relation_type: "r".to_string() };
    assert_eq!(text(&delete_relation(&relation()), 1), "b");
    assert_eq!(memory_delete_relations(&[relation(), relation()]).len(), 2);
}

#[test]
fn similar_pairs_are_stored_in_one_order() {
    let row = SimilarityNeighborRow {
        chunk_id_a: 9,
        file_id_a: 1,
        project_id_a: 1,
        path_a: "a".to_string(),
        project_name_a: "pa".to_string(),
        language: "rust".to_string(),
        chunk_id_b: 4,
        file_id_b: 2,
        project_id_b: 2,
        path_b: "b".to_string(),
        project_name_b: "pb".to_string(),
    };
    let all = insert_similarity_pairs(&[row]);
    assert_eq!(all.len(), 1);
    assert!(matches!(all[0].binds[0], Bind::BigInt(4)));
}

#[test]
fn catalogs_of_patterns_are_filtered() {
    let paradigm = upsert_paradigm(&ParadigmSeed {
        slug: "fp",
        name: "Functional",
        description: "d",
        wikipedia_url: None,
    });
    assert_eq!(text(&paradigm, 0), "fp");
    let pattern = upsert_pattern(&PatternSeed {
        slug: "visitor",
        name: "Visitor",
        kind: "design",
        category: "behavioral",
        summary: "s",
        intent: "i",
        problem: "p",
        solution: "s",
        consequences: "c",
        tags: &["oo", "gof"],
        canonical_url: None,
    });
    assert!(pattern
        .binds
        .iter()
        .any(|b| matches!(b, Bind::TextArray(v) if *v == strings(&["oo", "gof"]))));
    let listed = list_patterns(PatternListOptions {
        kind: None,
        paradigm: None,
        category: None,
        source_family: None,
        limit: 10_000,
        offset: -3,
    });
    assert!(!listed.sql.is_empty());
    let found = semantic_search_patterns(
        1024,
        5,
        40,
        PatternSearchOptions {
            kind: None,
            paradigms: None,
            category: None,
            source_family: None,
            source_type: None,
        },
    );
    assert!(found.is_ok());
    assert_eq!(catalog_stats().len(), 9);
    let stats = catalog_stats_of(&vec![1, 2, 3, 4, 5, 6, 7, 8], Vec::new());
    assert_eq!((stats.paradigms, stats.chunks_missing_embeddings), (1, 8));
    assert!(stats.source_families.is_empty());
}

#[test]
fn weights_line_up_with_the_calls_that_are_stored() {
    let edge = |source: Option<i64>| RawCallEdgeRow {
        source_file_id: 1,
        source_symbol_id: source,
        target_file_id: None,
        target_symbol_id: None,
        target_raw: "f".to_string(),
    };
    let edges = [edge(None), edge(Some(2)), edge(None), edge(Some(3))];
    assert_eq!(known_call_positions(&edges), vec![1, 3]);
    let st = bulk_insert_call_edges(9, &edges).expect("calls");
    assert!(matches!(&st.binds[3], Bind::BigIntArray(v) if *v == vec![2, 3]));
    assert!(matches!(st.binds[6], Bind::Supplied(0)));
    assert!(st.sql.contains("COALESCE(u.weight, 1.0)"));
    assert!(known_call_positions(&[]).is_empty());
}

#[test]
fn a_dry_run_counts_what_a_purge_erases() {
    let counted = memory_retention_dry_run(30);
    let purged = memory_retention_purge(30);
    assert_eq!(counted.len(), 3);
    assert_eq!(purged.len(), 3);
    for (c, p) in counted.iter().zip(&purged) {
        assert_eq!(
            c.sql.strip_prefix("SELECT COUNT(*) FROM "),
            p.sql.strip_prefix("DELETE FROM ")
        );
        assert!(c.sql.contains("superseded_by IS NOT NULL"));
        assert!(matches!(c.binds[0], Bind::Int(30)));
        assert!(matches!(p.binds[0], Bind::Int(30)));
    }
    assert!(counted[1].sql.contains("agent_outcomes"));
}

#[test]
fn each_row_of_a_cycle_counts_once() {
    let all = memory_eval_invariants(100);
    for st in &all[3..6] {
        assert!(st.sql.contains("SELECT DISTINCT root FROM walk WHERE next = root LIMIT $1"));
    }
}

#[test]
fn integrity_queries_count_what_they_name() {
    let all = memory_eval_invariants(100);
    assert!(all[7].sql.contains("FROM UNNEST(o.derived_from) AS d(id)"));
    assert!(!all[9].sql.contains("fl.cascade"));
}

#[test]
fn rankings_follow_what_they_promise() {
    let edited = recent_edited_files(60, None).sql;
    assert!(edited.contains("MAX(cfe.ts) FILTER (WHERE cfe.op IN ('write','edit','close')) DESC"));
    let locks = lock_contention_ranking(1, 10).sql;
    assert!(locks.contains("COUNT(DISTINCT so.symbol_id) * (1.0 + COALESCE(MAX(fm.pagerank), 0.0)) DESC"));
    assert!(concept_ancestors(1).sql.contains("ORDER BY MIN(a.depth), e.name"));
    let invariants = invariants_for_file(1).sql;
    assert!(invariants.contains("ORDER BY (m.status = 'canonical') DESC, m.confidence DESC"));
    assert!(!invariants.contains("DISTINCT"));
}

#[test]
fn an_observation_in_both_legs_is_one_hit() {
    let q = memory_hybrid_search(1024, "q", None, None, 5, 40).expect("a query");
    assert!(q.query.sql.contains("MAX(sim) AS sim"));
    assert!(q.query.sql.contains("GROUP BY id, entity_id, content, importance, created_at\n"));
    let raptor = memory_raptor_search(1024, None, None, 3, 40).expect("a query");
    assert!(raptor.query.sql.contains("PARTITION BY level"));
}

#[test]
fn every_requested_file_has_a_row() {
    let st = find_dominant_authors_for_files("p", &strings(&["a.rs"]), 90).expect("files");
    assert!(st.sql.contains("LEFT JOIN per_file"));
    assert!(find_dominant_authors_for_files("p", &[], 90).is_none());
}

#[test]
fn substrings_are_taken_literally_and_suffixes_are_not() {
    let st = search_concepts_by_name("50%_x", None, 5);
    assert_eq!(text(&st, 0), r"50\%\_x");
    let (f, _) = resolve_experiment_file_id(None, "my_app.rs");
    assert_eq!(text(&f.second.expect("a second lookup"), 0), "my_app.rs");
}

#[test]
fn control_characters_are_escaped_in_json() {
    let all = "\u{8}\t\n\u{c}\r\u{1}\u{1f}\"\\\u{7f}\u{e9}";
    assert_eq!(
        one_key_json(all, &Operand::Bool(true)),
        "{\"\\b\\t\\n\\f\\r\\u0001\\u001f\\\"\\\\\u{7f}\u{e9}\":true}"
    );
}

#[test]
fn records_are_copied_whole() {
    let scope = ScopeSpec::default();
    assert!(scope.user_id.is_none() && scope.agent_id.is_none() && scope.project_id.is_none());
    let named = ScopeSpec { user_id: Some("u".to_string()), ..scope.clone() };
    assert_eq!(named.clone().user_id, Some("u".to_string()));
}
