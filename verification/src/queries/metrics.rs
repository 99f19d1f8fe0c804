//! Measures of files and projects.
use vstd::prelude::*;

use crate::meaning::{lemma_within, opens, says, takes};
use crate::queries::texts::metrics::{
    count_call_sites_to_files_text, find_bus_factor_files_text,
    find_dominant_authors_for_files_text, find_hot_paths_by_project_id_text, find_hot_paths_text,
    find_merge_conflict_risks_text, find_unresolved_dependencies_text, find_zombie_candidates_text,
    get_file_ast_complexity_by_path_text, get_file_complexity_data_by_project_id_text,
    get_file_complexity_data_text, get_file_function_metric_aggregates_text,
    get_file_risk_metrics_text, get_god_file_chunks_with_topics_text, growth_1_text, growth_2_text,
    growth_3_text,
};
use crate::statement::{fetches_all, opt_str, opt_text, texts, BindView, Statement};

verus! {

/// How many files import a file.
#[derive(Debug, Clone)]
pub struct CallSiteCount {
    pub file_id: i64,
    pub importer_count: i64,
    /// About how many imports that could not be resolved mean the file.
    pub unresolved_count: i64,
}

/// Who wrote most of a file.
#[derive(Debug, Clone)]
pub struct FileAuthorRow {
    pub relative_path: String,
    pub top_author: Option<String>,
    pub last_touch_days: Option<i32>,
}

/// A file that others changed lately.
#[derive(Debug, Clone)]
pub struct MergeRiskRow {
    pub file_path: String,
    pub recent_commits: i64,
    pub distinct_recent_authors: i64,
    pub top_other_authors: Vec<String>,
}

/// The size of a file in several measures.
#[derive(Debug, Clone)]
pub struct FileComplexityRow {
    pub path: String,
    pub language: String,
    pub size_bytes: i64,
    pub chunk_count: i64,
    pub topic_count: i64,
}

pub const COUNT_CALL_SITES_TO_FILES_SQL: &'static str = "WITH targets AS (
            SELECT id, regexp_replace(relative_path, '^.*/', '') AS basename
            FROM indexed_files
            WHERE id = ANY($1)
         ),
         resolved AS (
            SELECT t.id AS file_id,
                   COUNT(DISTINCT cge.source_file_id) AS importer_count
            FROM targets t
            LEFT JOIN code_graph_edges cge
                  ON cge.target_file_id = t.id AND cge.edge_type = 'import'
            GROUP BY t.id
         ),
         unresolved AS (
            SELECT t.id AS file_id,
                   COUNT(DISTINCT cge.source_file_id) AS unresolved_count
            FROM targets t
            LEFT JOIN code_graph_edges cge
                  ON cge.target_file_id IS NULL
                 AND cge.edge_type = 'import'
                 AND cge.target_raw ILIKE '%' || regexp_replace(t.basename, '\\.[^.]+$', '') || '%'
            GROUP BY t.id
         )
         SELECT r.file_id,
                COALESCE(r.importer_count, 0) AS importer_count,
                COALESCE(u.unresolved_count, 0) AS unresolved_count
         FROM resolved r
         LEFT JOIN unresolved u ON u.file_id = r.file_id";

/// How many files import each of some files. No ids: nothing to send.
pub fn count_call_sites_to_files(file_ids: &[i64]) -> (r: Option<Statement>)
    ensures
        r is None <==> file_ids.len() == 0,
        r matches Some(st) ==> st@ == fetches_all(
            COUNT_CALL_SITES_TO_FILES_SQL@,
            seq![
                BindView::BigIntArray(file_ids@),
            ],
        ),
        r matches Some(st) ==> opens(st@.sql, "WITH"@),
        r matches Some(st) ==> takes(st@, "id = ANY("@, BindView::BigIntArray(file_ids@)),
        r matches Some(st) ==> says(st@.sql, "AND cge.edge_type = 'import'"@),
        r matches Some(st) ==> says(st@.sql, "GROUP BY t.id"@),
        r matches Some(st) ==> says(st@.sql, "FROM indexed_files"@),
{
    proof {
        count_call_sites_to_files_text();
    }
    if file_ids.len() == 0 {
        return None;
    }
    let st = Statement::all(COUNT_CALL_SITES_TO_FILES_SQL).int8s(file_ids);
    assert(st@.sql == COUNT_CALL_SITES_TO_FILES_SQL@);
    Some(st)
}

pub const GET_FILE_RISK_METRICS_SQL: &'static str = "SELECT file_id, pagerank, churn_rate, fix_commit_ratio, days_since_last_change
         FROM file_metrics
         WHERE file_id = ANY($1)";

/// Measures of risk of some files. No ids: nothing to send.
pub fn get_file_risk_metrics(file_ids: &[i64]) -> (r: Option<Statement>)
    ensures
        r is None <==> file_ids.len() == 0,
        r matches Some(st) ==> st@ == fetches_all(
            GET_FILE_RISK_METRICS_SQL@,
            seq![
                BindView::BigIntArray(file_ids@),
            ],
        ),
        r matches Some(st) ==> opens(st@.sql, "SELECT"@),
        r matches Some(st) ==> takes(st@, "file_id = ANY("@, BindView::BigIntArray(file_ids@)),
        r matches Some(st) ==> says(st@.sql, "FROM file_metrics"@),
{
    proof {
        get_file_risk_metrics_text();
    }
    if file_ids.len() == 0 {
        return None;
    }
    let st = Statement::all(GET_FILE_RISK_METRICS_SQL).int8s(file_ids);
    assert(st@.sql == GET_FILE_RISK_METRICS_SQL@);
    Some(st)
}

pub const FIND_ZOMBIE_CANDIDATES_SQL: &'static str = "WITH ranked AS (
            SELECT f.id AS file_id,
                   f.relative_path,
                   f.line_count,
                   fm.pagerank,
                   fm.in_degree,
                   fm.author_count,
                   fm.commit_count,
                   fm.days_since_last_change,
                   PERCENT_RANK() OVER (ORDER BY COALESCE(fm.pagerank, 0)) AS pagerank_pct
            FROM indexed_files f
            JOIN projects p ON p.id = f.project_id
            LEFT JOIN file_metrics fm ON fm.file_id = f.id
            WHERE p.name = $1
         )
         SELECT file_id, relative_path, line_count, pagerank, pagerank_pct,
                in_degree, author_count, commit_count, days_since_last_change
         FROM ranked
         WHERE COALESCE(in_degree, 0) <= 1
           AND COALESCE(days_since_last_change, 0) > $2
           AND pagerank_pct <= $3
         ORDER BY pagerank_pct ASC,
                  COALESCE(days_since_last_change, 0) DESC,
                  file_id ASC
         LIMIT $4";

/// Files that nothing uses and nobody changes. The caller supplies value 0,
/// `max_pagerank_pct`.
pub fn find_zombie_candidates(
    project_name: &str,
    min_days_idle: i32,
    limit: i32,
) -> (st: Statement)
    ensures
        st@ == fetches_all(
            FIND_ZOMBIE_CANDIDATES_SQL@,
            seq![
                BindView::Text(project_name@),
                BindView::Int(min_days_idle),
                BindView::Supplied(0),
                BindView::Int(limit),
            ],
        ),
        opens(st@.sql, "WITH"@),
        takes(st@, "p.name = "@, BindView::Text(project_name@)),
        takes(st@, "AND COALESCE(days_since_last_change, 0) > "@, BindView::Int(min_days_idle)),
        takes(st@, "pagerank_pct <= "@, BindView::Supplied(0)),
        takes(st@, "LIMIT "@, BindView::Int(limit)),
        says(st@.sql, "WHERE COALESCE(in_degree, 0) <= 1"@),
        says(st@.sql, "ORDER BY COALESCE(fm.pagerank, 0)) AS pagerank_pct"@),
        says(st@.sql, "ORDER BY pagerank_pct ASC"@),
        says(st@.sql, "FROM indexed_files"@),
{
    proof {
        find_zombie_candidates_text();
    }
    let st = Statement::all(FIND_ZOMBIE_CANDIDATES_SQL)
        .text(project_name)
        .int4(min_days_idle)
        .supplied(0)
        .int4(limit);
    assert(st@.sql == FIND_ZOMBIE_CANDIDATES_SQL@);
    st
}

pub const GET_GOD_FILE_CHUNKS_WITH_TOPICS_SQL: &'static str = "WITH god_files AS (
            SELECT f.id, f.relative_path, f.language, f.line_count
            FROM indexed_files f
            JOIN projects p ON p.id = f.project_id
            WHERE p.name = $1 AND f.line_count >= $2
         ),
         dominant_topic AS (
            SELECT DISTINCT ON (cta.chunk_id)
                   cta.chunk_id,
                   cta.topic_id,
                   cta.membership_score,
                   ct.label,
                   ct.keywords
            FROM chunk_topic_assignments cta
            JOIN code_topics ct ON ct.id = cta.topic_id
            ORDER BY cta.chunk_id, cta.membership_score DESC, cta.topic_id ASC
         )
         SELECT g.id AS file_id,
                g.relative_path,
                g.language,
                g.line_count,
                fc.id AS chunk_id,
                fc.chunk_index,
                fc.start_line,
                fc.end_line,
                dt.topic_id,
                dt.label AS topic_label,
                dt.keywords AS topic_keywords,
                dt.membership_score
         FROM god_files g
         JOIN file_chunks fc ON fc.file_id = g.id
         LEFT JOIN dominant_topic dt ON dt.chunk_id = fc.id
         ORDER BY g.id, fc.chunk_index";

/// The chunks of the large files of a project, with their topics.
pub fn get_god_file_chunks_with_topics(project_name: &str, min_lines: i32) -> (st: Statement)
    ensures
        st@ == fetches_all(
            GET_GOD_FILE_CHUNKS_WITH_TOPICS_SQL@,
            seq![
                BindView::Text(project_name@),
                BindView::Int(min_lines),
            ],
        ),
        opens(st@.sql, "WITH"@),
        takes(st@, "p.name = "@, BindView::Text(project_name@)),
        takes(st@, "f.line_count >= "@, BindView::Int(min_lines)),
        says(st@.sql, "ORDER BY cta.chunk_id, cta.membership_score DESC, cta.topic_id ASC"@),
        says(st@.sql, "ORDER BY g.id, fc.chunk_index"@),
        says(st@.sql, "FROM indexed_files"@),
{
    proof {
        get_god_file_chunks_with_topics_text();
    }
    let st = Statement::all(GET_GOD_FILE_CHUNKS_WITH_TOPICS_SQL).text(project_name).int4(min_lines);
    assert(st@.sql == GET_GOD_FILE_CHUNKS_WITH_TOPICS_SQL@);
    st
}

pub const FIND_HOT_PATHS_SQL: &'static str = "WITH stats AS (
            SELECT f.id AS file_id,
                   f.relative_path,
                   fm.pagerank,
                   fm.churn_rate,
                   fm.fix_commit_ratio,
                   fm.bug_proneness,
                   fm.instability,
                   fm.in_degree,
                   fm.author_count,
                   fm.commit_count,
                   PERCENT_RANK() OVER (ORDER BY COALESCE(fm.pagerank, 0)) AS pagerank_pct,
                   PERCENT_RANK() OVER (ORDER BY COALESCE(fm.churn_rate, 0)) AS churn_pct,
                   PERCENT_RANK() OVER (ORDER BY COALESCE(fm.fix_commit_ratio, 0)) AS fix_ratio_pct
            FROM indexed_files f
            JOIN projects p ON p.id = f.project_id
            LEFT JOIN file_metrics fm ON fm.file_id = f.id
            WHERE p.name = $1
         )
         SELECT file_id, relative_path,
                pagerank, churn_rate, fix_commit_ratio,
                bug_proneness, instability,
                in_degree, author_count, commit_count,
                pagerank_pct, churn_pct, fix_ratio_pct
         FROM stats
         WHERE pagerank_pct >= $2
           AND churn_pct >= $2
           AND fix_ratio_pct >= $2
         ORDER BY (pagerank_pct + churn_pct + fix_ratio_pct) DESC,
                  file_id ASC
         LIMIT $3";

/// The files of a project that are central and change often. The caller
/// supplies value 0, `percentile_threshold`.
pub fn find_hot_paths(project_name: &str, limit: i32) -> (st: Statement)
    ensures
        st@ == fetches_all(
            FIND_HOT_PATHS_SQL@,
            seq![
                BindView::Text(project_name@),
                BindView::Supplied(0),
                BindView::Int(limit),
            ],
        ),
        opens(st@.sql, "WITH"@),
        takes(st@, "p.name = "@, BindView::Text(project_name@)),
        takes(st@, "pagerank_pct >= "@, BindView::Supplied(0)),
        takes(st@, "LIMIT "@, BindView::Int(limit)),
        says(st@.sql, "ORDER BY COALESCE(fm.pagerank, 0)) AS pagerank_pct"@),
        says(st@.sql, "ORDER BY COALESCE(fm.churn_rate, 0)) AS churn_pct"@),
        says(st@.sql, "ORDER BY COALESCE(fm.fix_commit_ratio, 0)) AS fix_ratio_pct"@),
        says(st@.sql, "ORDER BY (pagerank_pct + churn_pct + fix_ratio_pct) DESC"@),
        says(st@.sql, "FROM indexed_files"@),
{
    proof {
        find_hot_paths_text();
    }
    let st = Statement::all(FIND_HOT_PATHS_SQL).text(project_name).supplied(0).int4(limit);
    assert(st@.sql == FIND_HOT_PATHS_SQL@);
    st
}

pub const FIND_HOT_PATHS_BY_PROJECT_ID_SQL: &'static str = "WITH stats AS (
            SELECT f.id AS file_id,
                   f.relative_path,
                   fm.pagerank,
                   fm.churn_rate,
                   fm.fix_commit_ratio,
                   fm.bug_proneness,
                   fm.instability,
                   fm.in_degree,
                   fm.author_count,
                   fm.commit_count,
                   PERCENT_RANK() OVER (ORDER BY COALESCE(fm.pagerank, 0)) AS pagerank_pct,
                   PERCENT_RANK() OVER (ORDER BY COALESCE(fm.churn_rate, 0)) AS churn_pct,
                   PERCENT_RANK() OVER (ORDER BY COALESCE(fm.fix_commit_ratio, 0)) AS fix_ratio_pct
            FROM indexed_files f
            LEFT JOIN file_metrics fm ON fm.file_id = f.id AND fm.project_id = f.project_id
            WHERE f.project_id = $1
         )
         SELECT file_id, relative_path,
                pagerank, churn_rate, fix_commit_ratio,
                bug_proneness, instability,
                in_degree, author_count, commit_count,
                pagerank_pct, churn_pct, fix_ratio_pct
         FROM stats
         WHERE pagerank_pct >= $2
           AND churn_pct >= $2
           AND fix_ratio_pct >= $2
         ORDER BY (pagerank_pct + churn_pct + fix_ratio_pct) DESC,
                  file_id ASC
         LIMIT $3";

/// The files of a project, given by its id, that are central and change often.
/// The caller supplies value 0, `percentile_threshold`.
pub fn find_hot_paths_by_project_id(project_id: i32, limit: i32) -> (st: Statement)
    ensures
        st@ == fetches_all(
            FIND_HOT_PATHS_BY_PROJECT_ID_SQL@,
            seq![
                BindView::Int(project_id),
                BindView::Supplied(0),
                BindView::Int(limit),
            ],
        ),
        opens(st@.sql, "WITH"@),
        takes(st@, "f.project_id = "@, BindView::Int(project_id)),
        takes(st@, "pagerank_pct >= "@, BindView::Supplied(0)),
        takes(st@, "LIMIT "@, BindView::Int(limit)),
        says(st@.sql, "ORDER BY COALESCE(fm.pagerank, 0)) AS pagerank_pct"@),
        says(st@.sql, "ORDER BY COALESCE(fm.churn_rate, 0)) AS churn_pct"@),
        says(st@.sql, "ORDER BY COALESCE(fm.fix_commit_ratio, 0)) AS fix_ratio_pct"@),
        says(st@.sql, "ORDER BY (pagerank_pct + churn_pct + fix_ratio_pct) DESC"@),
        says(st@.sql, "FROM indexed_files"@),
{
    proof {
        find_hot_paths_by_project_id_text();
    }
    let st = Statement::all(FIND_HOT_PATHS_BY_PROJECT_ID_SQL).int4(project_id).supplied(0).int4(limit);
    assert(st@.sql == FIND_HOT_PATHS_BY_PROJECT_ID_SQL@);
    st
}

pub const FIND_BUS_FACTOR_FILES_SQL: &'static str = "WITH per_file AS (
            SELECT f.id,
                   f.relative_path,
                   fc.blame_author,
                   COUNT(*) AS lines_blamed,
                   MAX(fc.blame_date) AS last_touch
            FROM file_chunks fc
            JOIN indexed_files f ON f.id = fc.file_id
            JOIN projects p ON p.id = f.project_id
            WHERE p.name = $1 AND fc.blame_author IS NOT NULL
            GROUP BY f.id, f.relative_path, fc.blame_author
         ),
         top AS (
            SELECT id,
                   relative_path,
                   (array_agg(blame_author ORDER BY lines_blamed DESC))[1] AS top_author,
                   (MAX(lines_blamed)::float8) /
                       NULLIF(SUM(lines_blamed)::float8, 0) AS top_share,
                   COUNT(*)::bigint AS distinct_authors,
                   MAX(last_touch) AS last_touch
            FROM per_file
            GROUP BY id, relative_path
         ),
         ranked AS (
            SELECT t.*,
                   fm.pagerank,
                   PERCENT_RANK() OVER (ORDER BY COALESCE(fm.pagerank, 0)) AS pr_pct
            FROM top t
            LEFT JOIN file_metrics fm ON fm.file_id = t.id
         )
         SELECT id AS file_id,
                relative_path,
                top_author,
                top_share,
                distinct_authors,
                last_touch,
                pagerank,
                (COALESCE(pagerank, 0.0) * top_share /
                    GREATEST(1.0, distinct_authors::float8)) AS risk_score
         FROM ranked
         WHERE pr_pct >= $2
         ORDER BY risk_score DESC NULLS LAST, file_id ASC
         LIMIT $3";

/// The files of a project that depend on few authors. The caller supplies value
/// 0, `min_pagerank_pct`.
pub fn find_bus_factor_files(project_name: &str, limit: i32) -> (st: Statement)
    ensures
        st@ == fetches_all(
            FIND_BUS_FACTOR_FILES_SQL@,
            seq![
                BindView::Text(project_name@),
                BindView::Supplied(0),
                BindView::Int(limit),
            ],
        ),
        opens(st@.sql, "WITH"@),
        takes(st@, "p.name = "@, BindView::Text(project_name@)),
        takes(st@, "pr_pct >= "@, BindView::Supplied(0)),
        takes(st@, "LIMIT "@, BindView::Int(limit)),
        says(st@.sql, "GROUP BY f.id, f.relative_path, fc.blame_author"@),
        says(st@.sql, "ORDER BY lines_blamed DESC))[1] AS top_author"@),
        says(st@.sql, "GROUP BY id, relative_path"@),
        says(st@.sql, "ORDER BY COALESCE(fm.pagerank, 0)) AS pr_pct"@),
        says(st@.sql, "ORDER BY risk_score DESC NULLS LAST, file_id ASC"@),
        says(st@.sql, "FROM file_chunks"@),
{
    proof {
        find_bus_factor_files_text();
    }
    let st = Statement::all(FIND_BUS_FACTOR_FILES_SQL).text(project_name).supplied(0).int4(limit);
    assert(st@.sql == FIND_BUS_FACTOR_FILES_SQL@);
    st
}

pub const FIND_DOMINANT_AUTHORS_FOR_FILES_SQL: &'static str = "WITH per_file AS (
            SELECT f.relative_path,
                   fc.blame_author,
                   COUNT(*) AS lines_blamed,
                   MAX(fc.blame_date) AS last_touch
            FROM file_chunks fc
            JOIN indexed_files f ON f.id = fc.file_id
            JOIN projects p ON p.id = f.project_id
            WHERE p.name = $1
              AND f.relative_path = ANY($2)
              AND fc.blame_author IS NOT NULL
              AND fc.blame_date >= NOW() - ($3 || ' days')::interval
            GROUP BY f.relative_path, fc.blame_author
         )
         SELECT w.relative_path,
                (array_agg(b.blame_author ORDER BY b.lines_blamed DESC))[1] AS top_author,
                EXTRACT(DAY FROM (NOW() - MAX(b.last_touch)))::int AS last_touch_days
         FROM (SELECT DISTINCT UNNEST($2::text[]) AS relative_path) w
         LEFT JOIN per_file b ON b.relative_path = w.relative_path
         GROUP BY w.relative_path";

/// Who wrote most of each of some files: one row per path, without an author
/// where none is known. No paths: nothing to send.
pub fn find_dominant_authors_for_files(
    project_name: &str,
    file_paths: &[String],
    recency_window_days: i32,
) -> (r: Option<Statement>)
    ensures
        r is None <==> file_paths.len() == 0,
        r matches Some(st) ==> st@ == fetches_all(
            FIND_DOMINANT_AUTHORS_FOR_FILES_SQL@,
            seq![
                BindView::Text(project_name@),
                BindView::TextArray(texts(file_paths@)),
                BindView::Int(recency_window_days),
            ],
        ),
        r matches Some(st) ==> opens(st@.sql, "WITH"@),
        r matches Some(st) ==> takes(st@, "p.name = "@, BindView::Text(project_name@)),
        r matches Some(st) ==> takes(
            st@,
            "f.relative_path = ANY("@,
            BindView::TextArray(texts(file_paths@)),
        ),
        r matches Some(st) ==> takes(st@, ">= NOW() - ("@, BindView::Int(recency_window_days)),
        r matches Some(st) ==> says(st@.sql, "AND fc.blame_author IS NOT NULL"@),
        r matches Some(st) ==> says(st@.sql, "GROUP BY f.relative_path, fc.blame_author"@),
        r matches Some(st) ==> says(st@.sql, "ORDER BY b.lines_blamed DESC))[1] AS top_author"@),
        r matches Some(st) ==> says(st@.sql, "GROUP BY w.relative_path"@),
        r matches Some(st) ==> says(st@.sql, "FROM file_chunks"@),
{
    proof {
        find_dominant_authors_for_files_text();
    }
    if file_paths.len() == 0 {
        return None;
    }
    let st = Statement::all(FIND_DOMINANT_AUTHORS_FOR_FILES_SQL)
            .text(project_name)
            .texts(file_paths)
            .int4(recency_window_days);
    assert(st@.sql == FIND_DOMINANT_AUTHORS_FOR_FILES_SQL@);
    Some(st)
}

pub const FIND_UNRESOLVED_DEPENDENCIES_SQL: &'static str = "SELECT cge.target_raw,
                COUNT(DISTINCT cge.source_file_id) AS importer_count,
                COALESCE(SUM(COALESCE(fm.pagerank, 0.0)), 0.0) AS usage_centrality,
                EXTRACT(EPOCH FROM (NOW() - MAX(f.indexed_at)))/86400.0 AS latest_change_days,
                (array_agg(DISTINCT f.relative_path))[1:5] AS sample_importers
         FROM code_graph_edges cge
         JOIN indexed_files f ON f.id = cge.source_file_id
         LEFT JOIN file_metrics fm ON fm.file_id = cge.source_file_id
         WHERE cge.target_file_id IS NULL
           AND cge.target_raw IS NOT NULL
           AND cge.edge_type = 'import'
           AND ($1::int IS NULL OR cge.project_id = $1)
         GROUP BY cge.target_raw
         ORDER BY usage_centrality DESC NULLS LAST, importer_count DESC, target_raw ASC
         LIMIT $2";

/// Imports of a project that could not be resolved.
pub fn find_unresolved_dependencies(project_id: Option<i32>, limit: i32) -> (st: Statement)
    ensures
        st@ == fetches_all(
            FIND_UNRESOLVED_DEPENDENCIES_SQL@,
            seq![
                BindView::OptInt(project_id),
                BindView::Int(limit),
            ],
        ),
        opens(st@.sql, "SELECT"@),
        takes(st@, "cge.project_id = "@, BindView::OptInt(project_id)),
        takes(st@, "LIMIT "@, BindView::Int(limit)),
        says(st@.sql, "WHERE cge.target_file_id IS NULL"@),
        says(st@.sql, "AND cge.target_raw IS NOT NULL"@),
        says(st@.sql, "AND cge.edge_type = 'import'"@),
        says(st@.sql, "GROUP BY cge.target_raw"@),
        says(
            st@.sql,
            "ORDER BY usage_centrality DESC NULLS LAST, importer_count DESC, target_raw ASC"@,
        ),
        says(st@.sql, "FROM code_graph_edges"@),
{
    proof {
        find_unresolved_dependencies_text();
    }
    let st = Statement::all(FIND_UNRESOLVED_DEPENDENCIES_SQL).opt_int4(project_id).int4(limit);
    assert(st@.sql == FIND_UNRESOLVED_DEPENDENCIES_SQL@);
    st
}

pub const FIND_MERGE_CONFLICT_RISKS_SQL: &'static str = "WITH commits_in_window AS (
            SELECT gc.author, gcf.file_path
            FROM git_commits gc
            JOIN git_commit_files gcf ON gcf.commit_id = gc.id
            JOIN projects p ON p.id = gc.project_id
            WHERE p.name = $1
              AND gc.author_date >= NOW() - ($3 || ' days')::interval
              AND gcf.file_path = ANY($2)
              AND ($4::text IS NULL OR gc.author <> $4)
         )
         SELECT file_path,
                COUNT(*)::bigint AS recent_commits,
                COUNT(DISTINCT author)::bigint AS distinct_recent_authors,
                (array_agg(DISTINCT author))[1:5] AS top_other_authors
         FROM commits_in_window
         GROUP BY file_path
         ORDER BY distinct_recent_authors DESC, recent_commits DESC, file_path ASC";

/// Files of a branch that others changed lately. No files: nothing to send.
pub fn find_merge_conflict_risks(
    project_name: &str,
    branch_files: &[String],
    window_days: i32,
    exclude_email: Option<&str>,
) -> (r: Option<Statement>)
    ensures
        r is None <==> branch_files.len() == 0,
        r matches Some(st) ==> st@ == fetches_all(
            FIND_MERGE_CONFLICT_RISKS_SQL@,
            seq![
                BindView::Text(project_name@),
                BindView::TextArray(texts(branch_files@)),
                BindView::Int(window_days),
                BindView::OptText(opt_str(exclude_email)),
            ],
        ),
        r matches Some(st) ==> opens(st@.sql, "WITH"@),
        r matches Some(st) ==> takes(st@, "p.name = "@, BindView::Text(project_name@)),
        r matches Some(st) ==> takes(
            st@,
            "gcf.file_path = ANY("@,
            BindView::TextArray(texts(branch_files@)),
        ),
        r matches Some(st) ==> takes(st@, ">= NOW() - ("@, BindView::Int(window_days)),
        r matches Some(st) ==> takes(
            st@,
            "gc.author <> "@,
            BindView::OptText(opt_str(exclude_email)),
        ),
        r matches Some(st) ==> says(st@.sql, "GROUP BY file_path"@),
        r matches Some(st) ==> says(
            st@.sql,
            "ORDER BY distinct_recent_authors DESC, recent_commits DESC, file_path ASC"@,
        ),
        r matches Some(st) ==> says(st@.sql, "FROM git_commits"@),
{
    proof {
        find_merge_conflict_risks_text();
    }
    if branch_files.len() == 0 {
        return None;
    }
    let st = Statement::all(FIND_MERGE_CONFLICT_RISKS_SQL)
            .text(project_name)
            .texts(branch_files)
            .int4(window_days)
            .opt_text(exclude_email);
    assert(st@.sql == FIND_MERGE_CONFLICT_RISKS_SQL@);
    Some(st)
}

pub const GROWTH_1: &'static str = "WITH per_commit AS (
                SELECT gc.author_date,
                       gc.author,
                       gc.id,
                       date_trunc('";

pub const GROWTH_2: &'static str = "', gc.author_date) AS bucket
                FROM git_commits gc
                JOIN projects p ON p.id = gc.project_id
                LEFT JOIN git_commit_files gcf ON gcf.commit_id = gc.id
                WHERE p.name = $1
                  AND gc.author_date >= NOW() - ($3 * INTERVAL '1 ";

pub const GROWTH_3: &'static str = "')
                  AND ($2::text IS NULL OR gcf.file_path = $2)
                GROUP BY gc.id, gc.author_date, gc.author
             )
             SELECT bucket AS period_start,
                    COUNT(*)::bigint AS commits,
                    COUNT(DISTINCT author)::bigint AS authors,
                    NULL::bigint AS additions,
                    NULL::bigint AS deletions
             FROM per_commit
             GROUP BY bucket
             ORDER BY bucket ASC";

/// The query for the commits of a project per span of time, a unit of the
/// calendar.
pub open spec fn growth_sql(unit: Seq<char>) -> Seq<char> {
    GROWTH_1@ + unit + GROWTH_2@ + unit + GROWTH_3@
}

fn write_growth_sql(unit: &str) -> (r: String)
    ensures
        r@ == growth_sql(unit@),
{
    let mut m = String::from_str(GROWTH_1);
    m.append(unit);
    m.append(GROWTH_2);
    m.append(unit);
    m.append(GROWTH_3);
    m
}

/// The commits of a project, or of one of its files, per week, month or
/// quarter, as `interval_unit` says.
pub fn get_growth_buckets(
    project_name: &str,
    file_path: Option<&str>,
    interval_unit: &str,
    lookback_buckets: i32,
) -> (st: Statement)
    ensures
        st@ == fetches_all(
            growth_sql(interval_unit@),
            seq![
                BindView::Text(project_name@),
                BindView::OptText(opt_str(file_path)),
                BindView::Int(lookback_buckets),
            ],
        ),
        opens(st@.sql, "WITH"@),
        takes(st@, "p.name = "@, BindView::Text(project_name@)),
        takes(st@, ">= NOW() - ("@, BindView::Int(lookback_buckets)),
        says(st@.sql, "FROM git_commits"@),
        takes(st@, "gcf.file_path = "@, BindView::OptText(opt_str(file_path))),
        says(st@.sql, "GROUP BY gc.id, gc.author_date, gc.author"@),
        says(st@.sql, "GROUP BY bucket"@),
        says(st@.sql, "ORDER BY bucket ASC"@),
        says(st@.sql, "FROM per_commit"@),
{
    let st = Statement::all(write_growth_sql(interval_unit).as_str())
        .text(project_name)
        .opt_text(file_path)
        .int4(lookback_buckets);
    proof {
        growth_1_text();
        growth_2_text();
        growth_3_text();
        assert(st@.sql =~= GROWTH_1@ + (interval_unit@ + GROWTH_2@ + interval_unit@ + GROWTH_3@));
        lemma_within(
            st@.sql,
            seq![],
            GROWTH_1@,
            interval_unit@ + GROWTH_2@ + interval_unit@ + GROWTH_3@,
        );
        assert(st@.sql =~= (GROWTH_1@ + interval_unit@) + GROWTH_2@ + (interval_unit@ + GROWTH_3@));
        lemma_within(st@.sql, GROWTH_1@ + interval_unit@, GROWTH_2@, interval_unit@ + GROWTH_3@);
        assert(st@.sql =~= (GROWTH_1@ + interval_unit@ + GROWTH_2@ + interval_unit@) + GROWTH_3@);
        lemma_within(
            st@.sql,
            GROWTH_1@ + interval_unit@ + GROWTH_2@ + interval_unit@,
            GROWTH_3@,
            seq![],
        );
    }
    st
}

pub const GET_FILE_COMPLEXITY_DATA_SQL: &'static str = "SELECT f.path, f.language, f.size_bytes,
                COUNT(DISTINCT c.id) as chunk_count,
                COUNT(DISTINCT cta.topic_id) as topic_count
         FROM indexed_files f
         JOIN projects p ON p.id = f.project_id
         JOIN file_chunks c ON c.file_id = f.id
         LEFT JOIN chunk_topic_assignments cta ON cta.chunk_id = c.id
         WHERE p.name = $1
         GROUP BY f.id, f.path, f.language, f.size_bytes
         ORDER BY chunk_count DESC";

/// The sizes of the files of a project.
pub fn get_file_complexity_data(project: &str) -> (st: Statement)
    ensures
        st@ == fetches_all(GET_FILE_COMPLEXITY_DATA_SQL@, seq![BindView::Text(project@)]),
        opens(st@.sql, "SELECT"@),
        takes(st@, "p.name = "@, BindView::Text(project@)),
        says(st@.sql, "GROUP BY f.id, f.path, f.language, f.size_bytes"@),
        says(st@.sql, "ORDER BY chunk_count DESC"@),
        says(st@.sql, "FROM indexed_files"@),
{
    proof {
        get_file_complexity_data_text();
    }
    let st = Statement::all(GET_FILE_COMPLEXITY_DATA_SQL).text(project);
    assert(st@.sql == GET_FILE_COMPLEXITY_DATA_SQL@);
    st
}

pub const GET_FILE_COMPLEXITY_DATA_BY_PROJECT_ID_SQL: &'static str = "SELECT f.path, f.language, f.size_bytes,
                COUNT(DISTINCT c.id) as chunk_count,
                COUNT(DISTINCT cta.topic_id) as topic_count
         FROM indexed_files f
         JOIN file_chunks c ON c.file_id = f.id
         LEFT JOIN chunk_topic_assignments cta ON cta.chunk_id = c.id
         WHERE f.project_id = $1
         GROUP BY f.id, f.path, f.language, f.size_bytes
         ORDER BY chunk_count DESC";

/// The sizes of the files of a project, given by its id.
pub fn get_file_complexity_data_by_project_id(project_id: i32) -> (st: Statement)
    ensures
        st@ == fetches_all(
            GET_FILE_COMPLEXITY_DATA_BY_PROJECT_ID_SQL@,
            seq![BindView::Int(project_id)],
        ),
        opens(st@.sql, "SELECT"@),
        takes(st@, "f.project_id = "@, BindView::Int(project_id)),
        says(st@.sql, "GROUP BY f.id, f.path, f.language, f.size_bytes"@),
        says(st@.sql, "ORDER BY chunk_count DESC"@),
        says(st@.sql, "FROM indexed_files"@),
{
    proof {
        get_file_complexity_data_by_project_id_text();
    }
    let st = Statement::all(GET_FILE_COMPLEXITY_DATA_BY_PROJECT_ID_SQL).int4(project_id);
    assert(st@.sql == GET_FILE_COMPLEXITY_DATA_BY_PROJECT_ID_SQL@);
    st
}

pub const GET_FILE_FUNCTION_METRIC_AGGREGATES_SQL: &'static str = "SELECT fm.file_id,
                COUNT(*)                                      AS function_count,
                COALESCE(SUM(fm.cyclomatic), 0)               AS sum_cyclomatic,
                COALESCE(MAX(fm.cyclomatic), 0)               AS max_cyclomatic,
                COALESCE(SUM(fm.cognitive), 0)                AS sum_cognitive,
                COALESCE(SUM(fm.halstead_volume), 0.0)        AS sum_halstead_volume,
                COALESCE(AVG(fm.maintainability_index), 100.0) AS avg_maintainability,
                COALESCE(MIN(fm.maintainability_index), 100.0) AS min_maintainability
         FROM function_metrics fm
         WHERE fm.project_id = $1
         GROUP BY fm.file_id";

/// Function metrics of a project, summed up per file.
pub fn get_file_function_metric_aggregates(project_id: i32) -> (st: Statement)
    ensures
        st@ == fetches_all(
            GET_FILE_FUNCTION_METRIC_AGGREGATES_SQL@,
            seq![BindView::Int(project_id)],
        ),
        opens(st@.sql, "SELECT"@),
        takes(st@, "fm.project_id = "@, BindView::Int(project_id)),
        says(st@.sql, "GROUP BY fm.file_id"@),
        says(st@.sql, "FROM function_metrics"@),
{
    proof {
        get_file_function_metric_aggregates_text();
    }
    let st = Statement::all(GET_FILE_FUNCTION_METRIC_AGGREGATES_SQL).int4(project_id);
    assert(st@.sql == GET_FILE_FUNCTION_METRIC_AGGREGATES_SQL@);
    st
}

pub const GET_FILE_AST_COMPLEXITY_BY_PATH_SQL: &'static str = "SELECT f.relative_path,
                COALESCE(MAX(fm.cyclomatic), 0)                AS max_cyclomatic,
                COALESCE(MIN(fm.maintainability_index), 100.0) AS min_maintainability,
                COUNT(*)                                       AS function_count
         FROM function_metrics fm
         JOIN indexed_files f ON f.id = fm.file_id
         WHERE fm.project_id = $1
         GROUP BY f.relative_path";

/// The complexity of the files of a project, by path.
pub fn get_file_ast_complexity_by_path(project_id: i32) -> (st: Statement)
    ensures
        st@ == fetches_all(GET_FILE_AST_COMPLEXITY_BY_PATH_SQL@, seq![BindView::Int(project_id)]),
        opens(st@.sql, "SELECT"@),
        takes(st@, "fm.project_id = "@, BindView::Int(project_id)),
        says(st@.sql, "GROUP BY f.relative_path"@),
        says(st@.sql, "FROM function_metrics"@),
{
    proof {
        get_file_ast_complexity_by_path_text();
    }
    let st = Statement::all(GET_FILE_AST_COMPLEXITY_BY_PATH_SQL).int4(project_id);
    assert(st@.sql == GET_FILE_AST_COMPLEXITY_BY_PATH_SQL@);
    st
}

} // verus!
