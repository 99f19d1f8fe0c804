//! What the statements of `metrics` say.
use vstd::prelude::*;

use crate::meaning::{ends_plainly, mentions, opens, part_at, says};
use crate::queries::metrics::{
    COUNT_CALL_SITES_TO_FILES_SQL, FIND_BUS_FACTOR_FILES_SQL, FIND_DOMINANT_AUTHORS_FOR_FILES_SQL,
    FIND_HOT_PATHS_BY_PROJECT_ID_SQL, FIND_HOT_PATHS_SQL, FIND_MERGE_CONFLICT_RISKS_SQL,
    FIND_UNRESOLVED_DEPENDENCIES_SQL, FIND_ZOMBIE_CANDIDATES_SQL,
    GET_FILE_AST_COMPLEXITY_BY_PATH_SQL, GET_FILE_COMPLEXITY_DATA_BY_PROJECT_ID_SQL,
    GET_FILE_COMPLEXITY_DATA_SQL, GET_FILE_FUNCTION_METRIC_AGGREGATES_SQL,
    GET_FILE_RISK_METRICS_SQL, GET_GOD_FILE_CHUNKS_WITH_TOPICS_SQL, GROWTH_1, GROWTH_2, GROWTH_3,
};

verus! {

/// What the text of [`COUNT_CALL_SITES_TO_FILES_SQL`] says.
#[verifier::rlimit(50)]
pub proof fn count_call_sites_to_files_text()
    ensures
        opens(COUNT_CALL_SITES_TO_FILES_SQL@, "WITH"@),
        mentions(COUNT_CALL_SITES_TO_FILES_SQL@, "id = ANY("@, 1),
        says(COUNT_CALL_SITES_TO_FILES_SQL@, "AND cge.edge_type = 'import'"@),
        says(COUNT_CALL_SITES_TO_FILES_SQL@, "GROUP BY t.id"@),
        says(COUNT_CALL_SITES_TO_FILES_SQL@, "FROM indexed_files"@),
        says(COUNT_CALL_SITES_TO_FILES_SQL@, "LEFT JOIN code_graph_edges cge"@),
{
    reveal_strlit(
        "WITH targets AS (
            SELECT id, regexp_replace(relative_path, '^.*/', '') AS basename
            FROM indexed_files
            WHERE id = ANY($1)
         ),
         resolved AS (
            SELECT t.id AS file_id,
                   COUNT(DISTINCT cge.source_file_id) AS importer_count
            FROM targets t
            LEFT JOIN code_graph_edges cge
                  ON cge.target_file_id = t.id AND cge.edge_type = 'import'
            GROUP BY t.id
         ),
         unresolved AS (
            SELECT t.id AS file_id,
                   COUNT(DISTINCT cge.source_file_id) AS unresolved_count
            FROM targets t
            LEFT JOIN code_graph_edges cge
                  ON cge.target_file_id IS NULL
                 AND cge.edge_type = 'import'
                 AND cge.target_raw ILIKE '%' || regexp_replace(t.basename, '\\.[^.]+$', '') || '%'
            GROUP BY t.id
         )
         SELECT r.file_id,
                COALESCE(r.importer_count, 0) AS importer_count,
                COALESCE(u.unresolved_count, 0) AS unresolved_count
         FROM resolved r
         LEFT JOIN unresolved u ON u.file_id = r.file_id",
    );
    reveal_strlit("AND cge.edge_type = 'import'");
    reveal_strlit("FROM indexed_files");
    reveal_strlit("GROUP BY t.id");
    reveal_strlit("LEFT JOIN code_graph_edges cge");
    reveal_strlit("WITH");
    reveal_strlit("id = ANY(");
    let t = COUNT_CALL_SITES_TO_FILES_SQL@;
    assert(part_at(t, 0, "WITH"@));
    assert(part_at(t, 144, "id = ANY("@));
    assert(part_at(t, 754, "AND cge.edge_type = 'import'"@));
    assert(part_at(t, 458, "GROUP BY t.id"@));
    assert(part_at(t, 107, "FROM indexed_files"@));
    assert(part_at(t, 339, "LEFT JOIN code_graph_edges cge"@));
}

/// What the text of [`GET_FILE_RISK_METRICS_SQL`] says.
pub proof fn get_file_risk_metrics_text()
    ensures
        opens(GET_FILE_RISK_METRICS_SQL@, "SELECT"@),
        mentions(GET_FILE_RISK_METRICS_SQL@, "file_id = ANY("@, 1),
        says(GET_FILE_RISK_METRICS_SQL@, "FROM file_metrics"@),
{
    reveal_strlit(
        "SELECT file_id, pagerank, churn_rate, fix_commit_ratio, days_since_last_change
         FROM file_metrics
         WHERE file_id = ANY($1)",
    );
    reveal_strlit("FROM file_metrics");
    reveal_strlit("SELECT");
    reveal_strlit("file_id = ANY(");
    let t = GET_FILE_RISK_METRICS_SQL@;
    assert(part_at(t, 0, "SELECT"@));
    assert(part_at(t, 121, "file_id = ANY("@));
    assert(part_at(t, 88, "FROM file_metrics"@));
}

/// What the text of [`FIND_ZOMBIE_CANDIDATES_SQL`] says.
#[verifier::rlimit(50)]
pub proof fn find_zombie_candidates_text()
    ensures
        opens(FIND_ZOMBIE_CANDIDATES_SQL@, "WITH"@),
        mentions(FIND_ZOMBIE_CANDIDATES_SQL@, "p.name = "@, 1),
        mentions(FIND_ZOMBIE_CANDIDATES_SQL@, "AND COALESCE(days_since_last_change, 0) > "@, 2),
        mentions(FIND_ZOMBIE_CANDIDATES_SQL@, "pagerank_pct <= "@, 3),
        mentions(FIND_ZOMBIE_CANDIDATES_SQL@, "LIMIT "@, 4),
        says(FIND_ZOMBIE_CANDIDATES_SQL@, "WHERE COALESCE(in_degree, 0) <= 1"@),
        says(FIND_ZOMBIE_CANDIDATES_SQL@, "ORDER BY COALESCE(fm.pagerank, 0)) AS pagerank_pct"@),
        says(FIND_ZOMBIE_CANDIDATES_SQL@, "ORDER BY pagerank_pct ASC"@),
        says(FIND_ZOMBIE_CANDIDATES_SQL@, "FROM indexed_files"@),
        says(FIND_ZOMBIE_CANDIDATES_SQL@, "JOIN projects p ON p.id = f.project_id"@),
        says(FIND_ZOMBIE_CANDIDATES_SQL@, "LEFT JOIN file_metrics fm ON fm.file_id = f.id"@),
{
    reveal_strlit(
        "WITH ranked AS (
            SELECT f.id AS file_id,
                   f.relative_path,
                   f.line_count,
                   fm.pagerank,
                   fm.in_degree,
                   fm.author_count,
                   fm.commit_count,
                   fm.days_since_last_change,
                   PERCENT_RANK() OVER (ORDER BY COALESCE(fm.pagerank, 0)) AS pagerank_pct
            FROM indexed_files f
            JOIN projects p ON p.id = f.project_id
            LEFT JOIN file_metrics fm ON fm.file_id = f.id
            WHERE p.name = $1
         )
         SELECT file_id, relative_path, line_count, pagerank, pagerank_pct,
                in_degree, author_count, commit_count, days_since_last_change
         FROM ranked
         WHERE COALESCE(in_degree, 0) <= 1
           AND COALESCE(days_since_last_change, 0) > $2
           AND pagerank_pct <= $3
         ORDER BY pagerank_pct ASC,
                  COALESCE(days_since_last_change, 0) DESC,
                  file_id ASC
         LIMIT $4",
    );
    reveal_strlit("AND COALESCE(days_since_last_change, 0) > ");
    reveal_strlit("FROM indexed_files");
    reveal_strlit("JOIN projects p ON p.id = f.project_id");
    reveal_strlit("LEFT JOIN file_metrics fm ON fm.file_id = f.id");
    reveal_strlit("LIMIT ");
    reveal_strlit("ORDER BY COALESCE(fm.pagerank, 0)) AS pagerank_pct");
    reveal_strlit("ORDER BY pagerank_pct ASC");
    reveal_strlit("WHERE COALESCE(in_degree, 0) <= 1");
    reveal_strlit("WITH");
    reveal_strlit("p.name = ");
    reveal_strlit("pagerank_pct <= ");
    let t = FIND_ZOMBIE_CANDIDATES_SQL@;
    assert(part_at(t, 0, "WITH"@));
    assert(part_at(t, 557, "p.name = "@));
    assert(part_at(t, 809, "AND COALESCE(days_since_last_change, 0) > "@));
    assert(part_at(t, 869, "pagerank_pct <= "@));
    assert(part_at(t, 1023, "LIMIT "@));
    assert(part_at(t, 764, "WHERE COALESCE(in_degree, 0) <= 1"@));
    assert(part_at(t, 345, "ORDER BY COALESCE(fm.pagerank, 0)) AS pagerank_pct"@));
    assert(part_at(t, 897, "ORDER BY pagerank_pct ASC"@));
    assert(part_at(t, 408, "FROM indexed_files"@));
    assert(part_at(t, 441, "JOIN projects p ON p.id = f.project_id"@));
    assert(part_at(t, 492, "LEFT JOIN file_metrics fm ON fm.file_id = f.id"@));
}

/// What the text of [`GET_GOD_FILE_CHUNKS_WITH_TOPICS_SQL`] says.
#[verifier::rlimit(100)]
pub proof fn get_god_file_chunks_with_topics_text()
    ensures
        opens(GET_GOD_FILE_CHUNKS_WITH_TOPICS_SQL@, "WITH"@),
        mentions(GET_GOD_FILE_CHUNKS_WITH_TOPICS_SQL@, "p.name = "@, 1),
        mentions(GET_GOD_FILE_CHUNKS_WITH_TOPICS_SQL@, "f.line_count >= "@, 2),
        says(
            GET_GOD_FILE_CHUNKS_WITH_TOPICS_SQL@,
            "ORDER BY cta.chunk_id, cta.membership_score DESC, cta.topic_id ASC"@,
        ),
        says(GET_GOD_FILE_CHUNKS_WITH_TOPICS_SQL@, "ORDER BY g.id, fc.chunk_index"@),
        says(GET_GOD_FILE_CHUNKS_WITH_TOPICS_SQL@, "FROM indexed_files"@),
        says(GET_GOD_FILE_CHUNKS_WITH_TOPICS_SQL@, "JOIN projects p ON p.id = f.project_id"@),
        says(GET_GOD_FILE_CHUNKS_WITH_TOPICS_SQL@, "JOIN code_topics ct ON ct.id = cta.topic_id"@),
        says(GET_GOD_FILE_CHUNKS_WITH_TOPICS_SQL@, "JOIN file_chunks fc ON fc.file_id = g.id"@),
        says(
            GET_GOD_FILE_CHUNKS_WITH_TOPICS_SQL@,
            "LEFT JOIN dominant_topic dt ON dt.chunk_id = fc.id"@,
        ),
{
    reveal_strlit(
        "WITH god_files AS (
            SELECT f.id, f.relative_path, f.language, f.line_count
            FROM indexed_files f
            JOIN projects p ON p.id = f.project_id
            WHERE p.name = $1 AND f.line_count >= $2
         ),
         dominant_topic AS (
            SELECT DISTINCT ON (cta.chunk_id)
                   cta.chunk_id,
                   cta.topic_id,
                   cta.membership_score,
                   ct.label,
                   ct.keywords
            FROM chunk_topic_assignments cta
            JOIN code_topics ct ON ct.id = cta.topic_id
            ORDER BY cta.chunk_id, cta.membership_score DESC, cta.topic_id ASC
         )
         SELECT g.id AS file_id,
                g.relative_path,
                g.language,
                g.line_count,
                fc.id AS chunk_id,
                fc.chunk_index,
                fc.start_line,
                fc.end_line,
                dt.topic_id,
                dt.label AS topic_label,
                dt.keywords AS topic_keywords,
                dt.membership_score
         FROM god_files g
         JOIN file_chunks fc ON fc.file_id = g.id
         LEFT JOIN dominant_topic dt ON dt.chunk_id = fc.id
         ORDER BY g.id, fc.chunk_index",
    );
    reveal_strlit("FROM indexed_files");
    reveal_strlit("JOIN code_topics ct ON ct.id = cta.topic_id");
    reveal_strlit("JOIN file_chunks fc ON fc.file_id = g.id");
    reveal_strlit("JOIN projects p ON p.id = f.project_id");
    reveal_strlit("LEFT JOIN dominant_topic dt ON dt.chunk_id = fc.id");
    reveal_strlit("ORDER BY cta.chunk_id, cta.membership_score DESC, cta.topic_id ASC");
    reveal_strlit("ORDER BY g.id, fc.chunk_index");
    reveal_strlit("WITH");
    reveal_strlit("f.line_count >= ");
    reveal_strlit("p.name = ");
    let t = GET_GOD_FILE_CHUNKS_WITH_TOPICS_SQL@;
    assert(part_at(t, 0, "WITH"@));
    assert(part_at(t, 189, "p.name = "@));
    assert(part_at(t, 205, "f.line_count >= "@));
    assert(part_at(t, 591, "ORDER BY cta.chunk_id, cta.membership_score DESC, cta.topic_id ASC"@));
    assert(part_at(t, 1218, "ORDER BY g.id, fc.chunk_index"@));
    assert(part_at(t, 99, "FROM indexed_files"@));
    assert(part_at(t, 132, "JOIN projects p ON p.id = f.project_id"@));
    assert(part_at(t, 535, "JOIN code_topics ct ON ct.id = cta.topic_id"@));
    assert(part_at(t, 1108, "JOIN file_chunks fc ON fc.file_id = g.id"@));
    assert(part_at(t, 1158, "LEFT JOIN dominant_topic dt ON dt.chunk_id = fc.id"@));
}

/// What the text of [`FIND_HOT_PATHS_SQL`] says.
#[verifier::rlimit(100)]
pub proof fn find_hot_paths_text()
    ensures
        opens(FIND_HOT_PATHS_SQL@, "WITH"@),
        mentions(FIND_HOT_PATHS_SQL@, "p.name = "@, 1),
        mentions(FIND_HOT_PATHS_SQL@, "pagerank_pct >= "@, 2),
        mentions(FIND_HOT_PATHS_SQL@, "LIMIT "@, 3),
        says(FIND_HOT_PATHS_SQL@, "ORDER BY COALESCE(fm.pagerank, 0)) AS pagerank_pct"@),
        says(FIND_HOT_PATHS_SQL@, "ORDER BY COALESCE(fm.churn_rate, 0)) AS churn_pct"@),
        says(FIND_HOT_PATHS_SQL@, "ORDER BY COALESCE(fm.fix_commit_ratio, 0)) AS fix_ratio_pct"@),
        says(FIND_HOT_PATHS_SQL@, "ORDER BY (pagerank_pct + churn_pct + fix_ratio_pct) DESC"@),
        says(FIND_HOT_PATHS_SQL@, "FROM indexed_files"@),
        says(FIND_HOT_PATHS_SQL@, "JOIN projects p ON p.id = f.project_id"@),
        says(FIND_HOT_PATHS_SQL@, "LEFT JOIN file_metrics fm ON fm.file_id = f.id"@),
{
    reveal_strlit(
        "WITH stats AS (
            SELECT f.id AS file_id,
                   f.relative_path,
                   fm.pagerank,
                   fm.churn_rate,
                   fm.fix_commit_ratio,
                   fm.bug_proneness,
                   fm.instability,
                   fm.in_degree,
                   fm.author_count,
                   fm.commit_count,
                   PERCENT_RANK() OVER (ORDER BY COALESCE(fm.pagerank, 0)) AS pagerank_pct,
                   PERCENT_RANK() OVER (ORDER BY COALESCE(fm.churn_rate, 0)) AS churn_pct,
                   PERCENT_RANK() OVER (ORDER BY COALESCE(fm.fix_commit_ratio, 0)) AS fix_ratio_pct
            FROM indexed_files f
            JOIN projects p ON p.id = f.project_id
            LEFT JOIN file_metrics fm ON fm.file_id = f.id
            WHERE p.name = $1
         )
         SELECT file_id, relative_path,
                pagerank, churn_rate, fix_commit_ratio,
                bug_proneness, instability,
                in_degree, author_count, commit_count,
                pagerank_pct, churn_pct, fix_ratio_pct
         FROM stats
         WHERE pagerank_pct >= $2
           AND churn_pct >= $2
           AND fix_ratio_pct >= $2
         ORDER BY (pagerank_pct + churn_pct + fix_ratio_pct) DESC,
                  file_id ASC
         LIMIT $3",
    );
    reveal_strlit("FROM indexed_files");
    reveal_strlit("JOIN projects p ON p.id = f.project_id");
    reveal_strlit("LEFT JOIN file_metrics fm ON fm.file_id = f.id");
    reveal_strlit("LIMIT ");
    reveal_strlit("ORDER BY (pagerank_pct + churn_pct + fix_ratio_pct) DESC");
    reveal_strlit("ORDER BY COALESCE(fm.churn_rate, 0)) AS churn_pct");
    reveal_strlit("ORDER BY COALESCE(fm.fix_commit_ratio, 0)) AS fix_ratio_pct");
    reveal_strlit("ORDER BY COALESCE(fm.pagerank, 0)) AS pagerank_pct");
    reveal_strlit("WITH");
    reveal_strlit("p.name = ");
    reveal_strlit("pagerank_pct >= ");
    let t = FIND_HOT_PATHS_SQL@;
    assert(part_at(t, 0, "WITH"@));
    assert(part_at(t, 815, "p.name = "@));
    assert(part_at(t, 1123, "pagerank_pct >= "@));
    assert(part_at(t, 1314, "LIMIT "@));
    assert(part_at(t, 411, "ORDER BY COALESCE(fm.pagerank, 0)) AS pagerank_pct"@));
    assert(part_at(t, 503, "ORDER BY COALESCE(fm.churn_rate, 0)) AS churn_pct"@));
    assert(part_at(t, 594, "ORDER BY COALESCE(fm.fix_commit_ratio, 0)) AS fix_ratio_pct"@));
    assert(part_at(t, 1217, "ORDER BY (pagerank_pct + churn_pct + fix_ratio_pct) DESC"@));
    assert(part_at(t, 666, "FROM indexed_files"@));
    assert(part_at(t, 699, "JOIN projects p ON p.id = f.project_id"@));
    assert(part_at(t, 750, "LEFT JOIN file_metrics fm ON fm.file_id = f.id"@));
}

/// What the text of [`FIND_HOT_PATHS_BY_PROJECT_ID_SQL`] says.
#[verifier::rlimit(100)]
pub proof fn find_hot_paths_by_project_id_text()
    ensures
        opens(FIND_HOT_PATHS_BY_PROJECT_ID_SQL@, "WITH"@),
        mentions(FIND_HOT_PATHS_BY_PROJECT_ID_SQL@, "f.project_id = "@, 1),
        mentions(FIND_HOT_PATHS_BY_PROJECT_ID_SQL@, "pagerank_pct >= "@, 2),
        mentions(FIND_HOT_PATHS_BY_PROJECT_ID_SQL@, "LIMIT "@, 3),
        says(
            FIND_HOT_PATHS_BY_PROJECT_ID_SQL@,
            "ORDER BY COALESCE(fm.pagerank, 0)) AS pagerank_pct"@,
        ),
        says(
            FIND_HOT_PATHS_BY_PROJECT_ID_SQL@,
            "ORDER BY COALESCE(fm.churn_rate, 0)) AS churn_pct"@,
        ),
        says(
            FIND_HOT_PATHS_BY_PROJECT_ID_SQL@,
            "ORDER BY COALESCE(fm.fix_commit_ratio, 0)) AS fix_ratio_pct"@,
        ),
        says(
            FIND_HOT_PATHS_BY_PROJECT_ID_SQL@,
            "ORDER BY (pagerank_pct + churn_pct + fix_ratio_pct) DESC"@,
        ),
        says(FIND_HOT_PATHS_BY_PROJECT_ID_SQL@, "FROM indexed_files"@),
        says(
            FIND_HOT_PATHS_BY_PROJECT_ID_SQL@,
            "LEFT JOIN file_metrics fm ON fm.file_id = f.id AND fm.project_id = f.project_id"@,
        ),
{
    reveal_strlit(
        "WITH stats AS (
            SELECT f.id AS file_id,
                   f.relative_path,
                   fm.pagerank,
                   fm.churn_rate,
                   fm.fix_commit_ratio,
                   fm.bug_proneness,
                   fm.instability,
                   fm.in_degree,
                   fm.author_count,
                   fm.commit_count,
                   PERCENT_RANK() OVER (ORDER BY COALESCE(fm.pagerank, 0)) AS pagerank_pct,
                   PERCENT_RANK() OVER (ORDER BY COALESCE(fm.churn_rate, 0)) AS churn_pct,
                   PERCENT_RANK() OVER (ORDER BY COALESCE(fm.fix_commit_ratio, 0)) AS fix_ratio_pct
            FROM indexed_files f
            LEFT JOIN file_metrics fm ON fm.file_id = f.id AND fm.project_id = f.project_id
            WHERE f.project_id = $1
         )
         SELECT file_id, relative_path,
                pagerank, churn_rate, fix_commit_ratio,
                bug_proneness, instability,
                in_degree, author_count, commit_count,
                pagerank_pct, churn_pct, fix_ratio_pct
         FROM stats
         WHERE pagerank_pct >= $2
           AND churn_pct >= $2
           AND fix_ratio_pct >= $2
         ORDER BY (pagerank_pct + churn_pct + fix_ratio_pct) DESC,
                  file_id ASC
         LIMIT $3",
    );
    reveal_strlit("FROM indexed_files");
    reveal_strlit("LEFT JOIN file_metrics fm ON fm.file_id = f.id AND fm.project_id = f.project_id");
    reveal_strlit("LIMIT ");
    reveal_strlit("ORDER BY (pagerank_pct + churn_pct + fix_ratio_pct) DESC");
    reveal_strlit("ORDER BY COALESCE(fm.churn_rate, 0)) AS churn_pct");
    reveal_strlit("ORDER BY COALESCE(fm.fix_commit_ratio, 0)) AS fix_ratio_pct");
    reveal_strlit("ORDER BY COALESCE(fm.pagerank, 0)) AS pagerank_pct");
    reveal_strlit("WITH");
    reveal_strlit("f.project_id = ");
    reveal_strlit("pagerank_pct >= ");
    let t = FIND_HOT_PATHS_BY_PROJECT_ID_SQL@;
    assert(part_at(t, 0, "WITH"@));
    assert(part_at(t, 797, "f.project_id = "@));
    assert(part_at(t, 1111, "pagerank_pct >= "@));
    assert(part_at(t, 1302, "LIMIT "@));
    assert(part_at(t, 411, "ORDER BY COALESCE(fm.pagerank, 0)) AS pagerank_pct"@));
    assert(part_at(t, 503, "ORDER BY COALESCE(fm.churn_rate, 0)) AS churn_pct"@));
    assert(part_at(t, 594, "ORDER BY COALESCE(fm.fix_commit_ratio, 0)) AS fix_ratio_pct"@));
    assert(part_at(t, 1205, "ORDER BY (pagerank_pct + churn_pct + fix_ratio_pct) DESC"@));
    assert(part_at(t, 666, "FROM indexed_files"@));
    assert(part_at(
        t,
        699,
        "LEFT JOIN file_metrics fm ON fm.file_id = f.id AND fm.project_id = f.project_id"@,
    ));
}

/// What the text of [`FIND_BUS_FACTOR_FILES_SQL`] says.
#[verifier::rlimit(100)]
pub proof fn find_bus_factor_files_text()
    ensures
        opens(FIND_BUS_FACTOR_FILES_SQL@, "WITH"@),
        mentions(FIND_BUS_FACTOR_FILES_SQL@, "p.name = "@, 1),
        mentions(FIND_BUS_FACTOR_FILES_SQL@, "pr_pct >= "@, 2),
        mentions(FIND_BUS_FACTOR_FILES_SQL@, "LIMIT "@, 3),
        says(FIND_BUS_FACTOR_FILES_SQL@, "GROUP BY f.id, f.relative_path, fc.blame_author"@),
        says(FIND_BUS_FACTOR_FILES_SQL@, "ORDER BY lines_blamed DESC))[1] AS top_author"@),
        says(FIND_BUS_FACTOR_FILES_SQL@, "GROUP BY id, relative_path"@),
        says(FIND_BUS_FACTOR_FILES_SQL@, "ORDER BY COALESCE(fm.pagerank, 0)) AS pr_pct"@),
        says(FIND_BUS_FACTOR_FILES_SQL@, "ORDER BY risk_score DESC NULLS LAST, file_id ASC"@),
        says(FIND_BUS_FACTOR_FILES_SQL@, "FROM file_chunks"@),
        says(FIND_BUS_FACTOR_FILES_SQL@, "JOIN indexed_files f ON f.id = fc.file_id"@),
        says(FIND_BUS_FACTOR_FILES_SQL@, "JOIN projects p ON p.id = f.project_id"@),
        says(FIND_BUS_FACTOR_FILES_SQL@, "LEFT JOIN file_metrics fm ON fm.file_id = t.id"@),
{
    reveal_strlit(
        "WITH per_file AS (
            SELECT f.id,
                   f.relative_path,
                   fc.blame_author,
                   COUNT(*) AS lines_blamed,
                   MAX(fc.blame_date) AS last_touch
            FROM file_chunks fc
            JOIN indexed_files f ON f.id = fc.file_id
            JOIN projects p ON p.id = f.project_id
            WHERE p.name = $1 AND fc.blame_author IS NOT NULL
            GROUP BY f.id, f.relative_path, fc.blame_author
         ),
         top AS (
            SELECT id,
                   relative_path,
                   (array_agg(blame_author ORDER BY lines_blamed DESC))[1] AS top_author,
                   (MAX(lines_blamed)::float8) /
                       NULLIF(SUM(lines_blamed)::float8, 0) AS top_share,
                   COUNT(*)::bigint AS distinct_authors,
                   MAX(last_touch) AS last_touch
            FROM per_file
            GROUP BY id, relative_path
         ),
         ranked AS (
            SELECT t.*,
                   fm.pagerank,
                   PERCENT_RANK() OVER (ORDER BY COALESCE(fm.pagerank, 0)) AS pr_pct
            FROM top t
            LEFT JOIN file_metrics fm ON fm.file_id = t.id
         )
         SELECT id AS file_id,
                relative_path,
                top_author,
                top_share,
                distinct_authors,
                last_touch,
                pagerank,
                (COALESCE(pagerank, 0.0) * top_share /
                    GREATEST(1.0, distinct_authors::float8)) AS risk_score
         FROM ranked
         WHERE pr_pct >= $2
         ORDER BY risk_score DESC NULLS LAST, file_id ASC
         LIMIT $3",
    );
    reveal_strlit("FROM file_chunks");
    reveal_strlit("GROUP BY f.id, f.relative_path, fc.blame_author");
    reveal_strlit("GROUP BY id, relative_path");
    reveal_strlit("JOIN indexed_files f ON f.id = fc.file_id");
    reveal_strlit("JOIN projects p ON p.id = f.project_id");
    reveal_strlit("LEFT JOIN file_metrics fm ON fm.file_id = t.id");
    reveal_strlit("LIMIT ");
    reveal_strlit("ORDER BY COALESCE(fm.pagerank, 0)) AS pr_pct");
    reveal_strlit("ORDER BY lines_blamed DESC))[1] AS top_author");
    reveal_strlit("ORDER BY risk_score DESC NULLS LAST, file_id ASC");
    reveal_strlit("WITH");
    reveal_strlit("p.name = ");
    reveal_strlit("pr_pct >= ");
    let t = FIND_BUS_FACTOR_FILES_SQL@;
    assert(part_at(t, 0, "WITH"@));
    assert(part_at(t, 368, "p.name = "@));
    assert(part_at(t, 1581, "pr_pct >= "@));
    assert(part_at(t, 1661, "LIMIT "@));
    assert(part_at(t, 424, "GROUP BY f.id, f.relative_path, fc.blame_author"@));
    assert(part_at(t, 602, "ORDER BY lines_blamed DESC))[1] AS top_author"@));
    assert(part_at(t, 916, "GROUP BY id, relative_path"@));
    assert(part_at(t, 1072, "ORDER BY COALESCE(fm.pagerank, 0)) AS pr_pct"@));
    assert(part_at(t, 1603, "ORDER BY risk_score DESC NULLS LAST, file_id ASC"@));
    assert(part_at(t, 225, "FROM file_chunks"@));
    assert(part_at(t, 257, "JOIN indexed_files f ON f.id = fc.file_id"@));
    assert(part_at(t, 311, "JOIN projects p ON p.id = f.project_id"@));
    assert(part_at(t, 1152, "LEFT JOIN file_metrics fm ON fm.file_id = t.id"@));
}

/// What the text of [`FIND_DOMINANT_AUTHORS_FOR_FILES_SQL`] says.
#[verifier::rlimit(50)]
pub proof fn find_dominant_authors_for_files_text()
    ensures
        opens(FIND_DOMINANT_AUTHORS_FOR_FILES_SQL@, "WITH"@),
        mentions(FIND_DOMINANT_AUTHORS_FOR_FILES_SQL@, "p.name = "@, 1),
        mentions(FIND_DOMINANT_AUTHORS_FOR_FILES_SQL@, "f.relative_path = ANY("@, 2),
        mentions(FIND_DOMINANT_AUTHORS_FOR_FILES_SQL@, ">= NOW() - ("@, 3),
        says(FIND_DOMINANT_AUTHORS_FOR_FILES_SQL@, "AND fc.blame_author IS NOT NULL"@),
        says(FIND_DOMINANT_AUTHORS_FOR_FILES_SQL@, "GROUP BY f.relative_path, fc.blame_author"@),
        says(
            FIND_DOMINANT_AUTHORS_FOR_FILES_SQL@,
            "ORDER BY b.lines_blamed DESC))[1] AS top_author"@,
        ),
        says(FIND_DOMINANT_AUTHORS_FOR_FILES_SQL@, "GROUP BY w.relative_path"@),
        says(FIND_DOMINANT_AUTHORS_FOR_FILES_SQL@, "FROM file_chunks"@),
        says(FIND_DOMINANT_AUTHORS_FOR_FILES_SQL@, "JOIN indexed_files f ON f.id = fc.file_id"@),
        says(FIND_DOMINANT_AUTHORS_FOR_FILES_SQL@, "JOIN projects p ON p.id = f.project_id"@),
        says(
            FIND_DOMINANT_AUTHORS_FOR_FILES_SQL@,
            "LEFT JOIN per_file b ON b.relative_path = w.relative_path"@,
        ),
{
    reveal_strlit(
        "WITH per_file AS (
            SELECT f.relative_path,
                   fc.blame_author,
                   COUNT(*) AS lines_blamed,
                   MAX(fc.blame_date) AS last_touch
            FROM file_chunks fc
            JOIN indexed_files f ON f.id = fc.file_id
            JOIN projects p ON p.id = f.project_id
            WHERE p.name = $1
              AND f.relative_path = ANY($2)
              AND fc.blame_author IS NOT NULL
              AND fc.blame_date >= NOW() - ($3 || ' days')::interval
            GROUP BY f.relative_path, fc.blame_author
         )
         SELECT w.relative_path,
                (array_agg(b.blame_author ORDER BY b.lines_blamed DESC))[1] AS top_author,
                EXTRACT(DAY FROM (NOW() - MAX(b.last_touch)))::int AS last_touch_days
         FROM (SELECT DISTINCT UNNEST($2::text[]) AS relative_path) w
         LEFT JOIN per_file b ON b.relative_path = w.relative_path
         GROUP BY w.relative_path",
    );
    reveal_strlit(">= NOW() - (");
    reveal_strlit("AND fc.blame_author IS NOT NULL");
    reveal_strlit("FROM file_chunks");
    reveal_strlit("GROUP BY f.relative_path, fc.blame_author");
    reveal_strlit("GROUP BY w.relative_path");
    reveal_strlit("JOIN indexed_files f ON f.id = fc.file_id");
    reveal_strlit("JOIN projects p ON p.id = f.project_id");
    reveal_strlit("LEFT JOIN per_file b ON b.relative_path = w.relative_path");
    reveal_strlit("ORDER BY b.lines_blamed DESC))[1] AS top_author");
    reveal_strlit("WITH");
    reveal_strlit("f.relative_path = ANY(");
    reveal_strlit("p.name = ");
    let t = FIND_DOMINANT_AUTHORS_FOR_FILES_SQL@;
    assert(part_at(t, 0, "WITH"@));
    assert(part_at(t, 343, "p.name = "@));
    assert(part_at(t, 373, "f.relative_path = ANY("@));
    assert(part_at(t, 477, ">= NOW() - ("@));
    assert(part_at(t, 413, "AND fc.blame_author IS NOT NULL"@));
    assert(part_at(t, 526, "GROUP BY f.relative_path, fc.blame_author"@));
    assert(part_at(t, 654, "ORDER BY b.lines_blamed DESC))[1] AS top_author"@));
    assert(part_at(t, 935, "GROUP BY w.relative_path"@));
    assert(part_at(t, 200, "FROM file_chunks"@));
    assert(part_at(t, 232, "JOIN indexed_files f ON f.id = fc.file_id"@));
    assert(part_at(t, 286, "JOIN projects p ON p.id = f.project_id"@));
    assert(part_at(t, 868, "LEFT JOIN per_file b ON b.relative_path = w.relative_path"@));
}

/// What the text of [`FIND_UNRESOLVED_DEPENDENCIES_SQL`] says.
#[verifier::rlimit(50)]
pub proof fn find_unresolved_dependencies_text()
    ensures
        opens(FIND_UNRESOLVED_DEPENDENCIES_SQL@, "SELECT"@),
        mentions(FIND_UNRESOLVED_DEPENDENCIES_SQL@, "cge.project_id = "@, 1),
        mentions(FIND_UNRESOLVED_DEPENDENCIES_SQL@, "LIMIT "@, 2),
        says(FIND_UNRESOLVED_DEPENDENCIES_SQL@, "WHERE cge.target_file_id IS NULL"@),
        says(FIND_UNRESOLVED_DEPENDENCIES_SQL@, "AND cge.target_raw IS NOT NULL"@),
        says(FIND_UNRESOLVED_DEPENDENCIES_SQL@, "AND cge.edge_type = 'import'"@),
        says(FIND_UNRESOLVED_DEPENDENCIES_SQL@, "GROUP BY cge.target_raw"@),
        says(
            FIND_UNRESOLVED_DEPENDENCIES_SQL@,
            "ORDER BY usage_centrality DESC NULLS LAST, importer_count DESC, target_raw ASC"@,
        ),
        says(FIND_UNRESOLVED_DEPENDENCIES_SQL@, "FROM code_graph_edges"@),
        says(
            FIND_UNRESOLVED_DEPENDENCIES_SQL@,
            "JOIN indexed_files f ON f.id = cge.source_file_id"@,
        ),
        says(
            FIND_UNRESOLVED_DEPENDENCIES_SQL@,
            "LEFT JOIN file_metrics fm ON fm.file_id = cge.source_file_id"@,
        ),
{
    reveal_strlit(
        "SELECT cge.target_raw,
                COUNT(DISTINCT cge.source_file_id) AS importer_count,
                COALESCE(SUM(COALESCE(fm.pagerank, 0.0)), 0.0) AS usage_centrality,
                EXTRACT(EPOCH FROM (NOW() - MAX(f.indexed_at)))/86400.0 AS latest_change_days,
                (array_agg(DISTINCT f.relative_path))[1:5] AS sample_importers
         FROM code_graph_edges cge
         JOIN indexed_files f ON f.id = cge.source_file_id
         LEFT JOIN file_metrics fm ON fm.file_id = cge.source_file_id
         WHERE cge.target_file_id IS NULL
           AND cge.target_raw IS NOT NULL
           AND cge.edge_type = 'import'
           AND ($1::int IS NULL OR cge.project_id = $1)
         GROUP BY cge.target_raw
         ORDER BY usage_centrality DESC NULLS LAST, importer_count DESC, target_raw ASC
         LIMIT $2",
    );
    reveal_strlit("AND cge.edge_type = 'import'");
    reveal_strlit("AND cge.target_raw IS NOT NULL");
    reveal_strlit("FROM code_graph_edges");
    reveal_strlit("GROUP BY cge.target_raw");
    reveal_strlit("JOIN indexed_files f ON f.id = cge.source_file_id");
    reveal_strlit("LEFT JOIN file_metrics fm ON fm.file_id = cge.source_file_id");
    reveal_strlit("LIMIT ");
    reveal_strlit("ORDER BY usage_centrality DESC NULLS LAST, importer_count DESC, target_raw ASC");
    reveal_strlit("SELECT");
    reveal_strlit("WHERE cge.target_file_id IS NULL");
    reveal_strlit("cge.project_id = ");
    let t = FIND_UNRESOLVED_DEPENDENCIES_SQL@;
    assert(part_at(t, 0, "SELECT"@));
    assert(part_at(t, 674, "cge.project_id = "@));
    assert(part_at(t, 825, "LIMIT "@));
    assert(part_at(t, 524, "WHERE cge.target_file_id IS NULL"@));
    assert(part_at(t, 568, "AND cge.target_raw IS NOT NULL"@));
    assert(part_at(t, 610, "AND cge.edge_type = 'import'"@));
    assert(part_at(t, 704, "GROUP BY cge.target_raw"@));
    assert(part_at(
        t,
        737,
        "ORDER BY usage_centrality DESC NULLS LAST, importer_count DESC, target_raw ASC"@,
    ));
    assert(part_at(t, 360, "FROM code_graph_edges"@));
    assert(part_at(t, 395, "JOIN indexed_files f ON f.id = cge.source_file_id"@));
    assert(part_at(t, 454, "LEFT JOIN file_metrics fm ON fm.file_id = cge.source_file_id"@));
}

/// What the text of [`FIND_MERGE_CONFLICT_RISKS_SQL`] says.
#[verifier::rlimit(50)]
pub proof fn find_merge_conflict_risks_text()
    ensures
        opens(FIND_MERGE_CONFLICT_RISKS_SQL@, "WITH"@),
        mentions(FIND_MERGE_CONFLICT_RISKS_SQL@, "p.name = "@, 1),
        mentions(FIND_MERGE_CONFLICT_RISKS_SQL@, "gcf.file_path = ANY("@, 2),
        mentions(FIND_MERGE_CONFLICT_RISKS_SQL@, ">= NOW() - ("@, 3),
        mentions(FIND_MERGE_CONFLICT_RISKS_SQL@, "gc.author <> "@, 4),
        says(FIND_MERGE_CONFLICT_RISKS_SQL@, "GROUP BY file_path"@),
        says(
            FIND_MERGE_CONFLICT_RISKS_SQL@,
            "ORDER BY distinct_recent_authors DESC, recent_commits DESC, file_path ASC"@,
        ),
        says(FIND_MERGE_CONFLICT_RISKS_SQL@, "FROM git_commits"@),
        says(FIND_MERGE_CONFLICT_RISKS_SQL@, "JOIN git_commit_files gcf ON gcf.commit_id = gc.id"@),
        says(FIND_MERGE_CONFLICT_RISKS_SQL@, "JOIN projects p ON p.id = gc.project_id"@),
{
    reveal_strlit(
        "WITH commits_in_window AS (
            SELECT gc.author, gcf.file_path
            FROM git_commits gc
            JOIN git_commit_files gcf ON gcf.commit_id = gc.id
            JOIN projects p ON p.id = gc.project_id
            WHERE p.name = $1
              AND gc.author_date >= NOW() - ($3 || ' days')::interval
              AND gcf.file_path = ANY($2)
              AND ($4::text IS NULL OR gc.author <> $4)
         )
         SELECT file_path,
                COUNT(*)::bigint AS recent_commits,
                COUNT(DISTINCT author)::bigint AS distinct_recent_authors,
                (array_agg(DISTINCT author))[1:5] AS top_other_authors
         FROM commits_in_window
         GROUP BY file_path
         ORDER BY distinct_recent_authors DESC, recent_commits DESC, file_path ASC",
    );
    reveal_strlit(">= NOW() - (");
    reveal_strlit("FROM git_commits");
    reveal_strlit("GROUP BY file_path");
    reveal_strlit("JOIN git_commit_files gcf ON gcf.commit_id = gc.id");
    reveal_strlit("JOIN projects p ON p.id = gc.project_id");
    reveal_strlit("ORDER BY distinct_recent_authors DESC, recent_commits DESC, file_path ASC");
    reveal_strlit("WITH");
    reveal_strlit("gc.author <> ");
    reveal_strlit("gcf.file_path = ANY(");
    reveal_strlit("p.name = ");
    let t = FIND_MERGE_CONFLICT_RISKS_SQL@;
    assert(part_at(t, 0, "WITH"@));
    assert(part_at(t, 237, "p.name = "@));
    assert(part_at(t, 337, "gcf.file_path = ANY("@));
    assert(part_at(t, 282, ">= NOW() - ("@));
    assert(part_at(t, 400, "gc.author <> "@));
    assert(part_at(t, 694, "GROUP BY file_path"@));
    assert(part_at(
        t,
        722,
        "ORDER BY distinct_recent_authors DESC, recent_commits DESC, file_path ASC"@,
    ));
    assert(part_at(t, 84, "FROM git_commits"@));
    assert(part_at(t, 116, "JOIN git_commit_files gcf ON gcf.commit_id = gc.id"@));
    assert(part_at(t, 179, "JOIN projects p ON p.id = gc.project_id"@));
}

/// What the text of [`GET_FILE_COMPLEXITY_DATA_SQL`] says.
pub proof fn get_file_complexity_data_text()
    ensures
        opens(GET_FILE_COMPLEXITY_DATA_SQL@, "SELECT"@),
        mentions(GET_FILE_COMPLEXITY_DATA_SQL@, "p.name = "@, 1),
        says(GET_FILE_COMPLEXITY_DATA_SQL@, "GROUP BY f.id, f.path, f.language, f.size_bytes"@),
        says(GET_FILE_COMPLEXITY_DATA_SQL@, "ORDER BY chunk_count DESC"@),
        says(GET_FILE_COMPLEXITY_DATA_SQL@, "FROM indexed_files"@),
        says(GET_FILE_COMPLEXITY_DATA_SQL@, "JOIN projects p ON p.id = f.project_id"@),
        says(GET_FILE_COMPLEXITY_DATA_SQL@, "JOIN file_chunks c ON c.file_id = f.id"@),
        says(
            GET_FILE_COMPLEXITY_DATA_SQL@,
            "LEFT JOIN chunk_topic_assignments cta ON cta.chunk_id = c.id"@,
        ),
{
    reveal_strlit(
        "SELECT f.path, f.language, f.size_bytes,
                COUNT(DISTINCT c.id) as chunk_count,
                COUNT(DISTINCT cta.topic_id) as topic_count
         FROM indexed_files f
         JOIN projects p ON p.id = f.project_id
         JOIN file_chunks c ON c.file_id = f.id
         LEFT JOIN chunk_topic_assignments cta ON cta.chunk_id = c.id
         WHERE p.name = $1
         GROUP BY f.id, f.path, f.language, f.size_bytes
         ORDER BY chunk_count DESC",
    );
    reveal_strlit("FROM indexed_files");
    reveal_strlit("GROUP BY f.id, f.path, f.language, f.size_bytes");
    reveal_strlit("JOIN file_chunks c ON c.file_id = f.id");
    reveal_strlit("JOIN projects p ON p.id = f.project_id");
    reveal_strlit("LEFT JOIN chunk_topic_assignments cta ON cta.chunk_id = c.id");
    reveal_strlit("ORDER BY chunk_count DESC");
    reveal_strlit("SELECT");
    reveal_strlit("p.name = ");
    let t = GET_FILE_COMPLEXITY_DATA_SQL@;
    assert(part_at(t, 0, "SELECT"@));
    assert(part_at(t, 365, "p.name = "@));
    assert(part_at(t, 386, "GROUP BY f.id, f.path, f.language, f.size_bytes"@));
    assert(part_at(t, 443, "ORDER BY chunk_count DESC"@));
    assert(part_at(t, 163, "FROM indexed_files"@));
    assert(part_at(t, 193, "JOIN projects p ON p.id = f.project_id"@));
    assert(part_at(t, 241, "JOIN file_chunks c ON c.file_id = f.id"@));
    assert(part_at(t, 289, "LEFT JOIN chunk_topic_assignments cta ON cta.chunk_id = c.id"@));
}

/// What the text of [`GET_FILE_COMPLEXITY_DATA_BY_PROJECT_ID_SQL`] says.
pub proof fn get_file_complexity_data_by_project_id_text()
    ensures
        opens(GET_FILE_COMPLEXITY_DATA_BY_PROJECT_ID_SQL@, "SELECT"@),
        mentions(GET_FILE_COMPLEXITY_DATA_BY_PROJECT_ID_SQL@, "f.project_id = "@, 1),
        says(
            GET_FILE_COMPLEXITY_DATA_BY_PROJECT_ID_SQL@,
            "GROUP BY f.id, f.path, f.language, f.size_bytes"@,
        ),
        says(GET_FILE_COMPLEXITY_DATA_BY_PROJECT_ID_SQL@, "ORDER BY chunk_count DESC"@),
        says(GET_FILE_COMPLEXITY_DATA_BY_PROJECT_ID_SQL@, "FROM indexed_files"@),
        says(
            GET_FILE_COMPLEXITY_DATA_BY_PROJECT_ID_SQL@,
            "JOIN file_chunks c ON c.file_id = f.id"@,
        ),
        says(
            GET_FILE_COMPLEXITY_DATA_BY_PROJECT_ID_SQL@,
            "LEFT JOIN chunk_topic_assignments cta ON cta.chunk_id = c.id"@,
        ),
{
    reveal_strlit(
        "SELECT f.path, f.language, f.size_bytes,
                COUNT(DISTINCT c.id) as chunk_count,
                COUNT(DISTINCT cta.topic_id) as topic_count
         FROM indexed_files f
         JOIN file_chunks c ON c.file_id = f.id
         LEFT JOIN chunk_topic_assignments cta ON cta.chunk_id = c.id
         WHERE f.project_id = $1
         GROUP BY f.id, f.path, f.language, f.size_bytes
         ORDER BY chunk_count DESC",
    );
    reveal_strlit("FROM indexed_files");
    reveal_strlit("GROUP BY f.id, f.path, f.language, f.size_bytes");
    reveal_strlit("JOIN file_chunks c ON c.file_id = f.id");
    reveal_strlit("LEFT JOIN chunk_topic_assignments cta ON cta.chunk_id = c.id");
    reveal_strlit("ORDER BY chunk_count DESC");
    reveal_strlit("SELECT");
    reveal_strlit("f.project_id = ");
    let t = GET_FILE_COMPLEXITY_DATA_BY_PROJECT_ID_SQL@;
    assert(part_at(t, 0, "SELECT"@));
    assert(part_at(t, 317, "f.project_id = "@));
    assert(part_at(t, 344, "GROUP BY f.id, f.path, f.language, f.size_bytes"@));
    assert(part_at(t, 401, "ORDER BY chunk_count DESC"@));
    assert(part_at(t, 163, "FROM indexed_files"@));
    assert(part_at(t, 193, "JOIN file_chunks c ON c.file_id = f.id"@));
    assert(part_at(t, 241, "LEFT JOIN chunk_topic_assignments cta ON cta.chunk_id = c.id"@));
}

/// What the text of [`GET_FILE_FUNCTION_METRIC_AGGREGATES_SQL`] says.
#[verifier::rlimit(50)]
pub proof fn get_file_function_metric_aggregates_text()
    ensures
        opens(GET_FILE_FUNCTION_METRIC_AGGREGATES_SQL@, "SELECT"@),
        mentions(GET_FILE_FUNCTION_METRIC_AGGREGATES_SQL@, "fm.project_id = "@, 1),
        says(GET_FILE_FUNCTION_METRIC_AGGREGATES_SQL@, "GROUP BY fm.file_id"@),
        says(GET_FILE_FUNCTION_METRIC_AGGREGATES_SQL@, "FROM function_metrics"@),
{
    reveal_strlit(
        "SELECT fm.file_id,
                COUNT(*)                                      AS function_count,
                COALESCE(SUM(fm.cyclomatic), 0)               AS sum_cyclomatic,
                COALESCE(MAX(fm.cyclomatic), 0)               AS max_cyclomatic,
                COALESCE(SUM(fm.cognitive), 0)                AS sum_cognitive,
                COALESCE(SUM(fm.halstead_volume), 0.0)        AS sum_halstead_volume,
                COALESCE(AVG(fm.maintainability_index), 100.0) AS avg_maintainability,
                COALESCE(MIN(fm.maintainability_index), 100.0) AS min_maintainability
         FROM function_metrics fm
         WHERE fm.project_id = $1
         GROUP BY fm.file_id",
    );
    reveal_strlit("FROM function_metrics");
    reveal_strlit("GROUP BY fm.file_id");
    reveal_strlit("SELECT");
    reveal_strlit("fm.project_id = ");
    let t = GET_FILE_FUNCTION_METRIC_AGGREGATES_SQL@;
    assert(part_at(t, 0, "SELECT"@));
    assert(part_at(t, 650, "fm.project_id = "@));
    assert(part_at(t, 678, "GROUP BY fm.file_id"@));
    assert(part_at(t, 610, "FROM function_metrics"@));
}

/// What the text of [`GET_FILE_AST_COMPLEXITY_BY_PATH_SQL`] says.
pub proof fn get_file_ast_complexity_by_path_text()
    ensures
        opens(GET_FILE_AST_COMPLEXITY_BY_PATH_SQL@, "SELECT"@),
        mentions(GET_FILE_AST_COMPLEXITY_BY_PATH_SQL@, "fm.project_id = "@, 1),
        says(GET_FILE_AST_COMPLEXITY_BY_PATH_SQL@, "GROUP BY f.relative_path"@),
        says(GET_FILE_AST_COMPLEXITY_BY_PATH_SQL@, "FROM function_metrics"@),
        says(GET_FILE_AST_COMPLEXITY_BY_PATH_SQL@, "JOIN indexed_files f ON f.id = fm.file_id"@),
{
    reveal_strlit(
        "SELECT f.relative_path,
                COALESCE(MAX(fm.cyclomatic), 0)                AS max_cyclomatic,
                COALESCE(MIN(fm.maintainability_index), 100.0) AS min_maintainability,
                COUNT(*)                                       AS function_count
         FROM function_metrics fm
         JOIN indexed_files f ON f.id = fm.file_id
         WHERE fm.project_id = $1
         GROUP BY f.relative_path",
    );
    reveal_strlit("FROM function_metrics");
    reveal_strlit("GROUP BY f.relative_path");
    reveal_strlit("JOIN indexed_files f ON f.id = fm.file_id");
    reveal_strlit("SELECT");
    reveal_strlit("fm.project_id = ");
    let t = GET_FILE_AST_COMPLEXITY_BY_PATH_SQL@;
    assert(part_at(t, 0, "SELECT"@));
    assert(part_at(t, 374, "fm.project_id = "@));
    assert(part_at(t, 402, "GROUP BY f.relative_path"@));
    assert(part_at(t, 283, "FROM function_metrics"@));
    assert(part_at(t, 317, "JOIN indexed_files f ON f.id = fm.file_id"@));
}

/// What the text of [`GROWTH_1`] says.
pub proof fn growth_1_text()
    ensures
        opens(GROWTH_1@, "WITH"@),
        ends_plainly(GROWTH_1@),
{
    reveal_strlit(
        "WITH per_commit AS (
                SELECT gc.author_date,
                       gc.author,
                       gc.id,
                       date_trunc('",
    );
    reveal_strlit("WITH");
    let t = GROWTH_1@;
    assert(part_at(t, 0, "WITH"@));
}

/// What the text of [`GROWTH_2`] says.
pub proof fn growth_2_text()
    ensures
        mentions(GROWTH_2@, "p.name = "@, 1),
        mentions(GROWTH_2@, ">= NOW() - ("@, 3),
        says(GROWTH_2@, "FROM git_commits"@),
        says(GROWTH_2@, "JOIN projects p ON p.id = gc.project_id"@),
        says(GROWTH_2@, "LEFT JOIN git_commit_files gcf ON gcf.commit_id = gc.id"@),
        ends_plainly(GROWTH_2@),
{
    reveal_strlit(
        "', gc.author_date) AS bucket
                FROM git_commits gc
                JOIN projects p ON p.id = gc.project_id
                LEFT JOIN git_commit_files gcf ON gcf.commit_id = gc.id
                WHERE p.name = $1
                  AND gc.author_date >= NOW() - ($3 * INTERVAL '1 ",
    );
    reveal_strlit(">= NOW() - (");
    reveal_strlit("FROM git_commits");
    reveal_strlit("JOIN projects p ON p.id = gc.project_id");
    reveal_strlit("LEFT JOIN git_commit_files gcf ON gcf.commit_id = gc.id");
    reveal_strlit("p.name = ");
    let t = GROWTH_2@;
    assert(part_at(t, 215, "p.name = "@));
    assert(part_at(t, 264, ">= NOW() - ("@));
    assert(part_at(t, 45, "FROM git_commits"@));
    assert(part_at(t, 81, "JOIN projects p ON p.id = gc.project_id"@));
    assert(part_at(t, 137, "LEFT JOIN git_commit_files gcf ON gcf.commit_id = gc.id"@));
}

/// What the text of [`GROWTH_3`] says.
pub proof fn growth_3_text()
    ensures
        mentions(GROWTH_3@, "gcf.file_path = "@, 2),
        says(GROWTH_3@, "GROUP BY gc.id, gc.author_date, gc.author"@),
        says(GROWTH_3@, "GROUP BY bucket"@),
        says(GROWTH_3@, "ORDER BY bucket ASC"@),
        says(GROWTH_3@, "FROM per_commit"@),
        ends_plainly(GROWTH_3@),
{
    reveal_strlit(
        "')
                  AND ($2::text IS NULL OR gcf.file_path = $2)
                GROUP BY gc.id, gc.author_date, gc.author
             )
             SELECT bucket AS period_start,
                    COUNT(*)::bigint AS commits,
                    COUNT(DISTINCT author)::bigint AS authors,
                    NULL::bigint AS additions,
                    NULL::bigint AS deletions
             FROM per_commit
             GROUP BY bucket
             ORDER BY bucket ASC",
    );
    reveal_strlit("FROM per_commit");
    reveal_strlit("GROUP BY bucket");
    reveal_strlit("GROUP BY gc.id, gc.author_date, gc.author");
    reveal_strlit("ORDER BY bucket ASC");
    reveal_strlit("gcf.file_path = ");
    let t = GROWTH_3@;
    assert(part_at(t, 46, "gcf.file_path = "@));
    assert(part_at(t, 82, "GROUP BY gc.id, gc.author_date, gc.author"@));
    assert(part_at(t, 430, "GROUP BY bucket"@));
    assert(part_at(t, 459, "ORDER BY bucket ASC"@));
    assert(part_at(t, 401, "FROM per_commit"@));
}

} // verus!
