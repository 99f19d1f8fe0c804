//! Search: rewriting of patterns and the queries that are built from parts.
use std::borrow::Cow;

use pgmcp_db::embedding::embedding_column_for_dim;
use pgmcp_db::line_chunks::chunk_text;
use pgmcp_db::queries::dedup::worktree_dedup_clause;
use pgmcp_db::queries::files::{
    known_content_hash, project_tree_paths, resolve_file_reference, search_file_paths,
};
use pgmcp_db::queries::search::{
    grep_search, grep_search_chunks, hybrid_search_chunks, hybrid_search_sql, semantic_search,
    text_search_bounded,
};
use pgmcp_db::search_pattern::{
    anywhere_pattern, glob_to_like, prefix_pattern, substring_pattern, translate_pcre_boundaries,
};
use pgmcp_db::statement::{Bind, Fetch};

const CAST: &str = "))::float8 AS rrf";

#[test]
fn maps_word_boundaries_outside_brackets() {
    assert_eq!(translate_pcre_boundaries(r"\bword\b"), r"\yword\y");
    assert_eq!(translate_pcre_boundaries(r"\Bword"), r"\Yword");
    assert_eq!(translate_pcre_boundaries(r"\<id\>"), r"\mid\M");
}

#[test]
fn leaves_class_shorthands_and_bracket_backspace_untouched() {
    assert_eq!(translate_pcre_boundaries(r"\d+\s\w*"), r"\d+\s\w*");
    assert_eq!(translate_pcre_boundaries(r"[\b]"), r"[\b]");
    assert_eq!(translate_pcre_boundaries(r"foo[a\bc]\bbar"), r"foo[a\bc]\ybar");
}

#[test]
fn no_backslash_is_borrowed_unchanged() {
    let p = "plain_text_pattern";
    assert!(matches!(translate_pcre_boundaries(p), std::borrow::Cow::Borrowed(_)));
    assert_eq!(translate_pcre_boundaries(r"a\.b"), r"a\.b");
}

#[test]
fn handles_trailing_backslash_without_panic() {
    assert_eq!(translate_pcre_boundaries(r"abc\"), "abc\\");
}

#[test]
fn translation_is_stable_and_owned_only_where_it_changes() {
    for p in [r"\bword\b", r"[\]\b]\b", r"\\b\B", "\u{e9}\\b", "", r"\", r"[[\b]\b"] {
        let once = translate_pcre_boundaries(p);
        assert_eq!(translate_pcre_boundaries(&once), once);
        assert_eq!(once.chars().count(), p.chars().count());
        assert_eq!(matches!(once, Cow::Borrowed(_)), once == p);
    }
    assert_eq!(translate_pcre_boundaries(r"[\]\b]\b"), r"[\]\b]\y");
    assert_eq!(translate_pcre_boundaries(r"\\b"), r"\\b");
}

#[test]
fn globs_and_affixes_become_database_patterns() {
    assert_eq!(glob_to_like("src/*.r?"), "src/%.r_");
    assert_eq!(anywhere_pattern("a%b"), "%a%b%");
    assert_eq!(prefix_pattern("src/"), "src/%");
    assert_eq!(glob_to_like(r"my_*\50%?"), r"my_%\50%_");
    assert_eq!(substring_pattern(r"50%_x"), r"%50\%\_x%");
}

#[test]
fn two_leg_branch_casts_fused_rrf_to_float8() {
    let sql = hybrid_search_sql("embedding_v2", false);
    assert!(sql.contains(CAST), "2-leg fused RRF must be wrapped+cast:\n{sql}");
    assert!(sql.contains("fused.rrf AS score"), "missing score projection:\n{sql}");
    assert!(sql.contains("ORDER BY fused.rrf DESC"), "missing ordering:\n{sql}");
    assert!(!sql.contains("sparse_v2"), "2-leg must not pull the sparse leg:\n{sql}");
    assert!(sql.contains("c.embedding_v2 <=> $1"), "dense leg must use col:\n{sql}");
}

#[test]
fn three_leg_branch_casts_fused_rrf_to_float8() {
    let sql = hybrid_search_sql("embedding_v2", true);
    assert!(sql.contains(CAST), "3-leg fused RRF must be wrapped+cast:\n{sql}");
    assert!(sql.contains("fused.rrf AS score"), "missing score projection:\n{sql}");
    assert!(sql.contains("ORDER BY fused.rrf DESC"), "missing ordering:\n{sql}");
    assert!(sql.contains("c.sparse_v2 <#> $7"), "3-leg must include the sparse leg:\n{sql}");
    assert!(sql.contains("60.0 + s.rnk"), "3-leg must add the sparse RRF term:\n{sql}");
}

#[test]
fn fused_search_refuses_another_dimension() {
    let refused = hybrid_search_chunks("q", 384, 5, 50, None, None, 40, false);
    assert_eq!(
        refused.err().expect("a refusal").message,
        "hybrid_search_chunks: expected a 1024-dimension BGE-M3 query embedding, got 384"
    );
    let q = hybrid_search_chunks("q", 1024, 5, 50, Some("rust"), None, 40, true).expect("a query");
    assert_eq!(q.settings.len(), 1);
    assert_eq!(q.settings[0].sql, "SET LOCAL hnsw.ef_search = 40");
    assert_eq!(q.query.binds.len(), 7);
    assert!(matches!(q.query.binds[2], Bind::Int(50)));
    assert!(matches!(&q.query.binds[3], Bind::OptText(Some(s)) if s == "rust"));
    assert!(matches!(q.query.binds[5], Bind::Int(5)));
    assert!(matches!(q.query.binds[6], Bind::Supplied(1)));
}

#[test]
fn embedding_columns_exist_for_one_dimension() {
    assert_eq!(embedding_column_for_dim(1024).expect("a column"), "embedding_v2");
    assert!(embedding_column_for_dim(384).is_err());
    assert!(semantic_search(3, 5, None, None, 40, false).is_err());
}

#[test]
fn bounded_text_search_sets_its_limit() {
    let q = text_search_bounded("a b", 5, None, Some("p"), true, 1500);
    assert_eq!(q.settings[0].sql, "SET LOCAL statement_timeout = 1500");
    assert!(matches!(q.query.fetch, Fetch::All));
    assert!(matches!(&q.query.binds[0], Bind::Text(s) if s == "a b"));
}

#[test]
fn grep_searches_translate_their_pattern() {
    let st = grep_search(r"\bfn\b", Some("*.rs"), 10, false);
    assert!(matches!(&st.binds[0], Bind::Text(s) if s == r"\yfn\y"));
    let chunks = grep_search_chunks(r"\bfn", None, None, Some("src/?.rs"), true, 10, false);
    assert!(chunks
        .binds
        .iter()
        .any(|b| matches!(b, Bind::OptText(Some(s)) if s == "src/_.rs")));
    assert!(chunks.binds.iter().any(|b| matches!(b, Bind::Text(s) if s == r"\yfn")));
}

#[test]
fn deduplication_names_its_flag() {
    for i in 3..=5 {
        let clause = worktree_dedup_clause(i);
        let flag = format!("${i}");
        assert!(clause.starts_with(format!("(NOT {flag} OR NOT EXISTS (").as_str()));
        assert_eq!(clause.matches('$').count(), 1);
        assert_eq!(clause, worktree_dedup_clause(3).replace("$3", flag.as_str()));
    }
}

#[test]
fn references_split_at_the_first_colon() {
    let with_project = resolve_file_reference("core:src/a:b.rs");
    assert!(matches!(&with_project.binds[0], Bind::Text(s) if s == "core"));
    assert!(matches!(&with_project.binds[1], Bind::Text(s) if s == "src/a:b.rs"));
    let plain = resolve_file_reference("src/a.rs");
    assert!(matches!(&plain.binds[0], Bind::Text(s) if s == "src/a.rs"));
}

#[test]
fn trees_keep_paths_up_to_a_depth() {
    let rows = vec![
        (1, Some("a.rs".to_string())),
        (1, Some("src/b.rs".to_string())),
        (1, Some("src/x/c.rs".to_string())),
    ];
    assert_eq!(
        project_tree_paths("core", &rows, 2).expect("one project"),
        vec!["a.rs".to_string(), "src/b.rs".to_string()]
    );
    let two = vec![(2, Some("a.rs".to_string()))];
    assert!(project_tree_paths("core", &two, 2).is_err());
    assert!(project_tree_paths("core", &vec![(0, None)], 2).expect("no project").is_empty());
    assert_eq!(known_content_hash(Some(Some(3))), Some(3));
    assert_eq!(known_content_hash(Some(None)), None);
    assert_eq!(known_content_hash(None), None);
}

#[test]
fn lines_are_cut_into_overlapping_spans() {
    let text = "1\n2\n3\n4\n5\n";
    let chunks = chunk_text(text, 3, 1);
    assert_eq!(
        chunks,
        vec![(1, 3, "1\n2\n3".to_string()), (3, 5, "3\n4\n5".to_string())]
    );
    assert_eq!(chunk_text("a\r\n\n \nb", 1, 0), vec![(1, 1, "a".to_string()), (4, 4, "b".to_string())]);
    assert_eq!(chunk_text("a\nb", 0, 9).len(), 2);
    assert!(chunk_text("", 3, 1).is_empty());
}

#[test]
fn bracket_interiors_are_skipped_to_the_outer_bracket() {
    for p in [
        r"[[:alpha:]\b]",
        r"[[=a=]\b]",
        r"[[.].]\b]",
        r"[]\b]",
        r"[^]\b]",
        r"[^[:digit:]\<\>]",
        r"[a[\b]",
        r"[[:alpha:\b]",
        r"[\]\b",
    ] {
        assert_eq!(translate_pcre_boundaries(p), p);
    }
    assert_eq!(translate_pcre_boundaries(r"[[:alpha:]\b]\b"), r"[[:alpha:]\b]\y");
    assert_eq!(translate_pcre_boundaries(r"[]\b]\b]"), r"[]\b]\y]");
    assert_eq!(translate_pcre_boundaries(r"[^]\b]\B"), r"[^]\b]\Y");
    assert_eq!(translate_pcre_boundaries(r"[a[]\b"), r"[a[]\y");
    assert_eq!(translate_pcre_boundaries(r"]\b"), r"]\y");
}

#[test]
fn prefixes_are_taken_literally() {
    assert_eq!(prefix_pattern(r"my_app\50%"), r"my\_app\\50\%%");
    let st = search_file_paths("a_b", 5);
    assert!(matches!(&st.binds[0], Bind::Text(s) if s == r"a\_b%"));
}

#[test]
fn line_ends_do_not_show_in_chunks() {
    let text = "a\n\nb c\nd";
    let chunks = chunk_text(text, 2, 1);
    assert_eq!(chunks, chunk_text("a\n\nb c\nd\n", 2, 1));
    assert_eq!(chunks, chunk_text("a\r\n\r\nb c\r\nd", 2, 1));
    assert_eq!(chunks.len(), 3);
}

#[test]
fn fused_text_changes_with_its_column_alone() {
    for with_sparse in [false, true] {
        let base = hybrid_search_sql("COLX", with_sparse);
        assert_eq!(hybrid_search_sql("embedding_v2", with_sparse), base.replace("COLX", "embedding_v2"));
        assert_eq!(hybrid_search_sql("", with_sparse), base.replace("COLX", ""));
        for n in 1..=9 {
            let used = base.contains(format!("${n}").as_str());
            assert_eq!(used, n <= 6 || (n == 7 && with_sparse));
        }
    }
}
