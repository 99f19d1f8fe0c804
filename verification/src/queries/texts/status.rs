//! What the statements of `status` say.
use vstd::prelude::*;

use crate::meaning::{opens, part_at, says};
use crate::queries::status::{
    status_probes, STATUS_BLAME_COVERAGE_WITH_SQL, STATUS_CHUNK_COUNT_SQL,
    STATUS_FILE_METRIC_COUNT_SQL, STATUS_GIT_COMMIT_CHUNK_COUNT_SQL, STATUS_GIT_COMMIT_COUNT_SQL,
    STATUS_GIT_PER_PROJECT_SQL, STATUS_GRAPH_EDGE_COUNT_SQL, STATUS_GRAPH_EDGE_LAST_COMPUTED_SQL,
    STATUS_GRAPH_EDGE_SQL, STATUS_GRAPH_METRIC_LAST_COMPUTED_SQL, STATUS_INDEXED_FILE_COUNT_SQL,
    STATUS_LAST_INDEXED_AT_SQL, STATUS_PER_PROJECT_SQL, STATUS_PROJECT_COUNT_SQL,
    STATUS_SIMILARITY_DISTINCT_FILES_SQL, STATUS_SIMILARITY_LAST_COMPUTED_SQL,
    STATUS_SIMILARITY_PAIR_COUNT_SQL, STATUS_TOPIC_ASSIGNMENTS_TOTAL_SQL,
    STATUS_TOPIC_COUNT_GLOBAL_SQL, STATUS_TOPIC_COUNT_TOTAL_SQL, STATUS_TOPIC_LAST_COMPUTED_SQL,
    STATUS_TOPIC_NOISE_CHUNK_COUNT_SQL, STATUS_TOPIC_SCOPE_SQL, STATUS_VECTOR_EXTENSION_VERSION_SQL,
};

verus! {

/// What the text of [`STATUS_PROJECT_COUNT_SQL`] says.
pub proof fn status_project_count_text()
    ensures
        opens(STATUS_PROJECT_COUNT_SQL@, "SELECT COUNT(*) FROM projects"@),
{
    reveal_strlit(
        "SELECT COUNT(*) FROM projects",
    );
    reveal_strlit("SELECT COUNT(*) FROM projects");
    let t = STATUS_PROJECT_COUNT_SQL@;
    assert(part_at(t, 0, "SELECT COUNT(*) FROM projects"@));
}

/// What the text of [`STATUS_INDEXED_FILE_COUNT_SQL`] says.
pub proof fn status_indexed_file_count_text()
    ensures
        opens(STATUS_INDEXED_FILE_COUNT_SQL@, "SELECT COUNT(*) FROM indexed_files"@),
{
    reveal_strlit(
        "SELECT COUNT(*) FROM indexed_files",
    );
    reveal_strlit("SELECT COUNT(*) FROM indexed_files");
    let t = STATUS_INDEXED_FILE_COUNT_SQL@;
    assert(part_at(t, 0, "SELECT COUNT(*) FROM indexed_files"@));
}

/// What the text of [`STATUS_CHUNK_COUNT_SQL`] says.
pub proof fn status_chunk_count_text()
    ensures
        opens(STATUS_CHUNK_COUNT_SQL@, "SELECT COUNT(*) FROM file_chunks"@),
{
    reveal_strlit(
        "SELECT COUNT(*) FROM file_chunks",
    );
    reveal_strlit("SELECT COUNT(*) FROM file_chunks");
    let t = STATUS_CHUNK_COUNT_SQL@;
    assert(part_at(t, 0, "SELECT COUNT(*) FROM file_chunks"@));
}

/// What the text of [`STATUS_GIT_COMMIT_COUNT_SQL`] says.
pub proof fn status_git_commit_count_text()
    ensures
        opens(STATUS_GIT_COMMIT_COUNT_SQL@, "SELECT COUNT(*) FROM git_commits"@),
{
    reveal_strlit(
        "SELECT COUNT(*) FROM git_commits",
    );
    reveal_strlit("SELECT COUNT(*) FROM git_commits");
    let t = STATUS_GIT_COMMIT_COUNT_SQL@;
    assert(part_at(t, 0, "SELECT COUNT(*) FROM git_commits"@));
}

/// What the text of [`STATUS_GIT_COMMIT_CHUNK_COUNT_SQL`] says.
pub proof fn status_git_commit_chunk_count_text()
    ensures
        opens(STATUS_GIT_COMMIT_CHUNK_COUNT_SQL@, "SELECT COUNT(*) FROM git_commit_chunks"@),
{
    reveal_strlit(
        "SELECT COUNT(*) FROM git_commit_chunks",
    );
    reveal_strlit("SELECT COUNT(*) FROM git_commit_chunks");
    let t = STATUS_GIT_COMMIT_CHUNK_COUNT_SQL@;
    assert(part_at(t, 0, "SELECT COUNT(*) FROM git_commit_chunks"@));
}

/// What the text of [`STATUS_TOPIC_COUNT_GLOBAL_SQL`] says.
pub proof fn status_topic_count_global_text()
    ensures
        opens(STATUS_TOPIC_COUNT_GLOBAL_SQL@, "SELECT COUNT(*) FROM code_topics"@),
{
    reveal_strlit(
        "SELECT COUNT(*) FROM code_topics WHERE scope = 'global'",
    );
    reveal_strlit("SELECT COUNT(*) FROM code_topics");
    let t = STATUS_TOPIC_COUNT_GLOBAL_SQL@;
    assert(part_at(t, 0, "SELECT COUNT(*) FROM code_topics"@));
}

/// What the text of [`STATUS_TOPIC_COUNT_TOTAL_SQL`] says.
pub proof fn status_topic_count_total_text()
    ensures
        opens(STATUS_TOPIC_COUNT_TOTAL_SQL@, "SELECT COUNT(*) FROM code_topics"@),
{
    reveal_strlit(
        "SELECT COUNT(*) FROM code_topics",
    );
    reveal_strlit("SELECT COUNT(*) FROM code_topics");
    let t = STATUS_TOPIC_COUNT_TOTAL_SQL@;
    assert(part_at(t, 0, "SELECT COUNT(*) FROM code_topics"@));
}

/// What the text of [`STATUS_TOPIC_ASSIGNMENTS_TOTAL_SQL`] says.
pub proof fn status_topic_assignments_total_text()
    ensures
        opens(STATUS_TOPIC_ASSIGNMENTS_TOTAL_SQL@, "SELECT COUNT(*) FROM chunk_topic_assignments"@),
{
    reveal_strlit(
        "SELECT COUNT(*) FROM chunk_topic_assignments",
    );
    reveal_strlit("SELECT COUNT(*) FROM chunk_topic_assignments");
    let t = STATUS_TOPIC_ASSIGNMENTS_TOTAL_SQL@;
    assert(part_at(t, 0, "SELECT COUNT(*) FROM chunk_topic_assignments"@));
}

/// What the text of [`STATUS_TOPIC_LAST_COMPUTED_SQL`] says.
pub proof fn status_topic_last_computed_text()
    ensures
        opens(STATUS_TOPIC_LAST_COMPUTED_SQL@, "SELECT"@),
        says(STATUS_TOPIC_LAST_COMPUTED_SQL@, "FROM code_topics"@),
{
    reveal_strlit(
        "SELECT MAX(computed_at) FROM code_topics",
    );
    reveal_strlit("FROM code_topics");
    reveal_strlit("SELECT");
    let t = STATUS_TOPIC_LAST_COMPUTED_SQL@;
    assert(part_at(t, 0, "SELECT"@));
    assert(part_at(t, 24, "FROM code_topics"@));
}

/// What the text of [`STATUS_TOPIC_NOISE_CHUNK_COUNT_SQL`] says.
pub proof fn status_topic_noise_chunk_count_text()
    ensures
        opens(STATUS_TOPIC_NOISE_CHUNK_COUNT_SQL@, "SELECT COUNT(*) FROM file_chunks"@),
{
    reveal_strlit(
        "SELECT COUNT(*) FROM file_chunks c \
         WHERE NOT EXISTS (SELECT 1 FROM chunk_topic_assignments a WHERE a.chunk_id = c.id)",
    );
    reveal_strlit("SELECT COUNT(*) FROM file_chunks");
    let t = STATUS_TOPIC_NOISE_CHUNK_COUNT_SQL@;
    assert(part_at(t, 0, "SELECT COUNT(*) FROM file_chunks"@));
}

/// What the text of [`STATUS_TOPIC_SCOPE_SQL`] says.
pub proof fn status_topic_scope_text()
    ensures
        opens(STATUS_TOPIC_SCOPE_SQL@, "SELECT"@),
        says(STATUS_TOPIC_SCOPE_SQL@, "GROUP BY scope ORDER BY scope"@),
        says(STATUS_TOPIC_SCOPE_SQL@, "FROM code_topics"@),
{
    reveal_strlit(
        "SELECT scope, COUNT(*)::BIGINT, MAX(computed_at) \
         FROM code_topics GROUP BY scope ORDER BY scope",
    );
    reveal_strlit("FROM code_topics");
    reveal_strlit("GROUP BY scope ORDER BY scope");
    reveal_strlit("SELECT");
    let t = STATUS_TOPIC_SCOPE_SQL@;
    assert(part_at(t, 0, "SELECT"@));
    assert(part_at(t, 66, "GROUP BY scope ORDER BY scope"@));
    assert(part_at(t, 49, "FROM code_topics"@));
}

/// What the text of [`STATUS_SIMILARITY_PAIR_COUNT_SQL`] says.
pub proof fn status_similarity_pair_count_text()
    ensures
        opens(
            STATUS_SIMILARITY_PAIR_COUNT_SQL@,
            "SELECT COUNT(*) FROM cross_project_similarities"@,
        ),
{
    reveal_strlit(
        "SELECT COUNT(*) FROM cross_project_similarities",
    );
    reveal_strlit("SELECT COUNT(*) FROM cross_project_similarities");
    let t = STATUS_SIMILARITY_PAIR_COUNT_SQL@;
    assert(part_at(t, 0, "SELECT COUNT(*) FROM cross_project_similarities"@));
}

/// What the text of [`STATUS_SIMILARITY_DISTINCT_FILES_SQL`] says.
pub proof fn status_similarity_distinct_files_text()
    ensures
        opens(STATUS_SIMILARITY_DISTINCT_FILES_SQL@, "SELECT"@),
        says(STATUS_SIMILARITY_DISTINCT_FILES_SQL@, "FROM cross_project_similarities"@),
{
    reveal_strlit(
        "SELECT COUNT(*) FROM (
             SELECT file_id_a AS f FROM cross_project_similarities
             UNION
             SELECT file_id_b AS f FROM cross_project_similarities
         ) AS u",
    );
    reveal_strlit("FROM cross_project_similarities");
    reveal_strlit("SELECT");
    let t = STATUS_SIMILARITY_DISTINCT_FILES_SQL@;
    assert(part_at(t, 0, "SELECT"@));
    assert(part_at(t, 58, "FROM cross_project_similarities"@));
}

/// What the text of [`STATUS_SIMILARITY_LAST_COMPUTED_SQL`] says.
pub proof fn status_similarity_last_computed_text()
    ensures
        opens(STATUS_SIMILARITY_LAST_COMPUTED_SQL@, "SELECT"@),
        says(STATUS_SIMILARITY_LAST_COMPUTED_SQL@, "FROM cross_project_similarities"@),
{
    reveal_strlit(
        "SELECT MAX(computed_at) FROM cross_project_similarities",
    );
    reveal_strlit("FROM cross_project_similarities");
    reveal_strlit("SELECT");
    let t = STATUS_SIMILARITY_LAST_COMPUTED_SQL@;
    assert(part_at(t, 0, "SELECT"@));
    assert(part_at(t, 24, "FROM cross_project_similarities"@));
}

/// What the text of [`STATUS_FILE_METRIC_COUNT_SQL`] says.
pub proof fn status_file_metric_count_text()
    ensures
        opens(STATUS_FILE_METRIC_COUNT_SQL@, "SELECT COUNT(*) FROM file_metrics"@),
{
    reveal_strlit(
        "SELECT COUNT(*) FROM file_metrics",
    );
    reveal_strlit("SELECT COUNT(*) FROM file_metrics");
    let t = STATUS_FILE_METRIC_COUNT_SQL@;
    assert(part_at(t, 0, "SELECT COUNT(*) FROM file_metrics"@));
}

/// What the text of [`STATUS_GRAPH_EDGE_COUNT_SQL`] says.
pub proof fn status_graph_edge_count_text()
    ensures
        opens(STATUS_GRAPH_EDGE_COUNT_SQL@, "SELECT COUNT(*) FROM code_graph_edges"@),
{
    reveal_strlit(
        "SELECT COUNT(*) FROM code_graph_edges",
    );
    reveal_strlit("SELECT COUNT(*) FROM code_graph_edges");
    let t = STATUS_GRAPH_EDGE_COUNT_SQL@;
    assert(part_at(t, 0, "SELECT COUNT(*) FROM code_graph_edges"@));
}

/// What the text of [`STATUS_GRAPH_EDGE_SQL`] says.
pub proof fn status_graph_edge_text()
    ensures
        opens(STATUS_GRAPH_EDGE_SQL@, "SELECT"@),
        says(STATUS_GRAPH_EDGE_SQL@, "GROUP BY edge_type ORDER BY edge_type"@),
        says(STATUS_GRAPH_EDGE_SQL@, "FROM code_graph_edges"@),
{
    reveal_strlit(
        "SELECT edge_type, COUNT(*)::BIGINT FROM code_graph_edges \
         GROUP BY edge_type ORDER BY edge_type",
    );
    reveal_strlit("FROM code_graph_edges");
    reveal_strlit("GROUP BY edge_type ORDER BY edge_type");
    reveal_strlit("SELECT");
    let t = STATUS_GRAPH_EDGE_SQL@;
    assert(part_at(t, 0, "SELECT"@));
    assert(part_at(t, 57, "GROUP BY edge_type ORDER BY edge_type"@));
    assert(part_at(t, 35, "FROM code_graph_edges"@));
}

/// What the text of [`STATUS_GRAPH_METRIC_LAST_COMPUTED_SQL`] says.
pub proof fn status_graph_metric_last_computed_text()
    ensures
        opens(STATUS_GRAPH_METRIC_LAST_COMPUTED_SQL@, "SELECT"@),
        says(STATUS_GRAPH_METRIC_LAST_COMPUTED_SQL@, "FROM file_metrics"@),
{
    reveal_strlit(
        "SELECT MAX(computed_at) FROM file_metrics",
    );
    reveal_strlit("FROM file_metrics");
    reveal_strlit("SELECT");
    let t = STATUS_GRAPH_METRIC_LAST_COMPUTED_SQL@;
    assert(part_at(t, 0, "SELECT"@));
    assert(part_at(t, 24, "FROM file_metrics"@));
}

/// What the text of [`STATUS_GRAPH_EDGE_LAST_COMPUTED_SQL`] says.
pub proof fn status_graph_edge_last_computed_text()
    ensures
        opens(STATUS_GRAPH_EDGE_LAST_COMPUTED_SQL@, "SELECT"@),
        says(STATUS_GRAPH_EDGE_LAST_COMPUTED_SQL@, "FROM code_graph_edges"@),
{
    reveal_strlit(
        "SELECT MAX(computed_at) FROM code_graph_edges",
    );
    reveal_strlit("FROM code_graph_edges");
    reveal_strlit("SELECT");
    let t = STATUS_GRAPH_EDGE_LAST_COMPUTED_SQL@;
    assert(part_at(t, 0, "SELECT"@));
    assert(part_at(t, 24, "FROM code_graph_edges"@));
}

/// What the text of [`STATUS_BLAME_COVERAGE_WITH_SQL`] says.
pub proof fn status_blame_coverage_with_text()
    ensures
        opens(STATUS_BLAME_COVERAGE_WITH_SQL@, "SELECT COUNT(*) FROM file_chunks"@),
{
    reveal_strlit(
        "SELECT COUNT(*) FROM file_chunks WHERE blame_commit IS NOT NULL",
    );
    reveal_strlit("SELECT COUNT(*) FROM file_chunks");
    let t = STATUS_BLAME_COVERAGE_WITH_SQL@;
    assert(part_at(t, 0, "SELECT COUNT(*) FROM file_chunks"@));
}

/// What the text of [`STATUS_PER_PROJECT_SQL`] says.
pub proof fn status_per_project_text()
    ensures
        opens(STATUS_PER_PROJECT_SQL@, "SELECT"@),
        says(STATUS_PER_PROJECT_SQL@, "GROUP BY p.id, p.name"@),
        says(STATUS_PER_PROJECT_SQL@, "ORDER BY p.name"@),
        says(STATUS_PER_PROJECT_SQL@, "FROM projects"@),
        says(STATUS_PER_PROJECT_SQL@, "LEFT JOIN indexed_files f ON f.project_id = p.id"@),
        says(STATUS_PER_PROJECT_SQL@, "LEFT JOIN file_chunks c ON c.file_id = f.id"@),
        says(STATUS_PER_PROJECT_SQL@, "LEFT JOIN file_metrics fm ON fm.file_id = f.id"@),
{
    reveal_strlit(
        "SELECT
             p.name,
             COUNT(DISTINCT f.id)::BIGINT,
             COUNT(c.id)::BIGINT,
             COUNT(DISTINCT fm.file_id)::BIGINT,
             MAX(f.modified_at)
         FROM projects p
         LEFT JOIN indexed_files f ON f.project_id = p.id
         LEFT JOIN file_chunks c ON c.file_id = f.id
         LEFT JOIN file_metrics fm ON fm.file_id = f.id
         GROUP BY p.id, p.name
         ORDER BY p.name",
    );
    reveal_strlit("FROM projects");
    reveal_strlit("GROUP BY p.id, p.name");
    reveal_strlit("LEFT JOIN file_chunks c ON c.file_id = f.id");
    reveal_strlit("LEFT JOIN file_metrics fm ON fm.file_id = f.id");
    reveal_strlit("LEFT JOIN indexed_files f ON f.project_id = p.id");
    reveal_strlit("ORDER BY p.name");
    reveal_strlit("SELECT");
    let t = STATUS_PER_PROJECT_SQL@;
    assert(part_at(t, 0, "SELECT"@));
    assert(part_at(t, 387, "GROUP BY p.id, p.name"@));
    assert(part_at(t, 418, "ORDER BY p.name"@));
    assert(part_at(t, 195, "FROM projects"@));
    assert(part_at(t, 220, "LEFT JOIN indexed_files f ON f.project_id = p.id"@));
    assert(part_at(t, 278, "LEFT JOIN file_chunks c ON c.file_id = f.id"@));
    assert(part_at(t, 331, "LEFT JOIN file_metrics fm ON fm.file_id = f.id"@));
}

/// What the text of [`STATUS_GIT_PER_PROJECT_SQL`] says.
pub proof fn status_git_per_project_text()
    ensures
        opens(STATUS_GIT_PER_PROJECT_SQL@, "SELECT"@),
        says(STATUS_GIT_PER_PROJECT_SQL@, "ORDER BY gc.author_date DESC))[1]"@),
        says(STATUS_GIT_PER_PROJECT_SQL@, "GROUP BY p.id, p.name"@),
        says(STATUS_GIT_PER_PROJECT_SQL@, "HAVING COUNT(gc.id) > 0"@),
        says(STATUS_GIT_PER_PROJECT_SQL@, "ORDER BY p.name"@),
        says(STATUS_GIT_PER_PROJECT_SQL@, "FROM projects"@),
        says(STATUS_GIT_PER_PROJECT_SQL@, "LEFT JOIN git_commits gc ON gc.project_id = p.id"@),
{
    reveal_strlit(
        "SELECT p.name,
                    COUNT(gc.id)::BIGINT,
                    (ARRAY_AGG(gc.commit_hash ORDER BY gc.author_date DESC))[1],
                    MAX(gc.author_date)
             FROM projects p
             LEFT JOIN git_commits gc ON gc.project_id = p.id
             GROUP BY p.id, p.name
             HAVING COUNT(gc.id) > 0
             ORDER BY p.name",
    );
    reveal_strlit("FROM projects");
    reveal_strlit("GROUP BY p.id, p.name");
    reveal_strlit("HAVING COUNT(gc.id) > 0");
    reveal_strlit("LEFT JOIN git_commits gc ON gc.project_id = p.id");
    reveal_strlit("ORDER BY gc.author_date DESC))[1]");
    reveal_strlit("ORDER BY p.name");
    reveal_strlit("SELECT");
    let t = STATUS_GIT_PER_PROJECT_SQL@;
    assert(part_at(t, 0, "SELECT"@));
    assert(part_at(t, 103, "ORDER BY gc.author_date DESC))[1]"@));
    assert(part_at(t, 282, "GROUP BY p.id, p.name"@));
    assert(part_at(t, 317, "HAVING COUNT(gc.id) > 0"@));
    assert(part_at(t, 354, "ORDER BY p.name"@));
    assert(part_at(t, 191, "FROM projects"@));
    assert(part_at(t, 220, "LEFT JOIN git_commits gc ON gc.project_id = p.id"@));
}

/// What the text of [`STATUS_LAST_INDEXED_AT_SQL`] says.
pub proof fn status_last_indexed_at_text()
    ensures
        opens(STATUS_LAST_INDEXED_AT_SQL@, "SELECT"@),
        says(STATUS_LAST_INDEXED_AT_SQL@, "FROM indexed_files"@),
{
    reveal_strlit(
        "SELECT MAX(modified_at) FROM indexed_files",
    );
    reveal_strlit("FROM indexed_files");
    reveal_strlit("SELECT");
    let t = STATUS_LAST_INDEXED_AT_SQL@;
    assert(part_at(t, 0, "SELECT"@));
    assert(part_at(t, 24, "FROM indexed_files"@));
}

/// What the text of [`STATUS_VECTOR_EXTENSION_VERSION_SQL`] says.
pub proof fn status_vector_extension_version_text()
    ensures
        opens(STATUS_VECTOR_EXTENSION_VERSION_SQL@, "SELECT"@),
        says(STATUS_VECTOR_EXTENSION_VERSION_SQL@, "FROM pg_extension"@),
{
    reveal_strlit(
        "SELECT extversion FROM pg_extension WHERE extname = 'vector'",
    );
    reveal_strlit("FROM pg_extension");
    reveal_strlit("SELECT");
    let t = STATUS_VECTOR_EXTENSION_VERSION_SQL@;
    assert(part_at(t, 0, "SELECT"@));
    assert(part_at(t, 18, "FROM pg_extension"@));
}

/// The figures of the status are asked for in the order in which they are read.
pub proof fn law_probes_in_order()
    ensures
        opens(status_probes()[0].statement.sql, "SELECT COUNT(*) FROM projects"@),
        opens(status_probes()[1].statement.sql, "SELECT COUNT(*) FROM indexed_files"@),
        opens(status_probes()[2].statement.sql, "SELECT COUNT(*) FROM file_chunks"@),
        opens(status_probes()[3].statement.sql, "SELECT COUNT(*) FROM git_commits"@),
        opens(status_probes()[4].statement.sql, "SELECT COUNT(*) FROM git_commit_chunks"@),
        opens(status_probes()[5].statement.sql, "SELECT COUNT(*) FROM code_topics"@),
        opens(status_probes()[6].statement.sql, "SELECT COUNT(*) FROM code_topics"@),
        opens(status_probes()[7].statement.sql, "SELECT COUNT(*) FROM chunk_topic_assignments"@),
        opens(status_probes()[8].statement.sql, "SELECT"@),
        says(status_probes()[8].statement.sql, "FROM code_topics"@),
        opens(status_probes()[9].statement.sql, "SELECT COUNT(*) FROM file_chunks"@),
        opens(status_probes()[10].statement.sql, "SELECT"@),
        says(status_probes()[10].statement.sql, "GROUP BY scope ORDER BY scope"@),
        says(status_probes()[10].statement.sql, "FROM code_topics"@),
        opens(
            status_probes()[11].statement.sql,
            "SELECT COUNT(*) FROM cross_project_similarities"@,
        ),
        opens(status_probes()[12].statement.sql, "SELECT"@),
        says(status_probes()[12].statement.sql, "FROM cross_project_similarities"@),
        opens(status_probes()[13].statement.sql, "SELECT"@),
        says(status_probes()[13].statement.sql, "FROM cross_project_similarities"@),
        opens(status_probes()[14].statement.sql, "SELECT COUNT(*) FROM file_metrics"@),
        opens(status_probes()[15].statement.sql, "SELECT COUNT(*) FROM code_graph_edges"@),
        opens(status_probes()[16].statement.sql, "SELECT"@),
        says(status_probes()[16].statement.sql, "GROUP BY edge_type ORDER BY edge_type"@),
        says(status_probes()[16].statement.sql, "FROM code_graph_edges"@),
        opens(status_probes()[17].statement.sql, "SELECT"@),
        says(status_probes()[17].statement.sql, "FROM file_metrics"@),
        opens(status_probes()[18].statement.sql, "SELECT"@),
        says(status_probes()[18].statement.sql, "FROM code_graph_edges"@),
        opens(status_probes()[19].statement.sql, "SELECT COUNT(*) FROM file_chunks"@),
        opens(status_probes()[20].statement.sql, "SELECT"@),
        says(status_probes()[20].statement.sql, "GROUP BY p.id, p.name"@),
        says(status_probes()[20].statement.sql, "ORDER BY p.name"@),
        says(status_probes()[20].statement.sql, "FROM projects"@),
        says(
            status_probes()[20].statement.sql,
            "LEFT JOIN indexed_files f ON f.project_id = p.id"@,
        ),
        says(status_probes()[20].statement.sql, "LEFT JOIN file_chunks c ON c.file_id = f.id"@),
        says(status_probes()[20].statement.sql, "LEFT JOIN file_metrics fm ON fm.file_id = f.id"@),
        opens(status_probes()[21].statement.sql, "SELECT"@),
        says(status_probes()[21].statement.sql, "ORDER BY gc.author_date DESC))[1]"@),
        says(status_probes()[21].statement.sql, "GROUP BY p.id, p.name"@),
        says(status_probes()[21].statement.sql, "HAVING COUNT(gc.id) > 0"@),
        says(status_probes()[21].statement.sql, "ORDER BY p.name"@),
        says(status_probes()[21].statement.sql, "FROM projects"@),
        says(
            status_probes()[21].statement.sql,
            "LEFT JOIN git_commits gc ON gc.project_id = p.id"@,
        ),
        opens(status_probes()[22].statement.sql, "SELECT"@),
        says(status_probes()[22].statement.sql, "FROM indexed_files"@),
        opens(status_probes()[24].statement.sql, "SELECT"@),
        says(status_probes()[24].statement.sql, "FROM pg_extension"@),
{
    status_project_count_text();
    assert(status_probes()[0].statement.sql == STATUS_PROJECT_COUNT_SQL@);
    status_indexed_file_count_text();
    assert(status_probes()[1].statement.sql == STATUS_INDEXED_FILE_COUNT_SQL@);
    status_chunk_count_text();
    assert(status_probes()[2].statement.sql == STATUS_CHUNK_COUNT_SQL@);
    status_git_commit_count_text();
    assert(status_probes()[3].statement.sql == STATUS_GIT_COMMIT_COUNT_SQL@);
    status_git_commit_chunk_count_text();
    assert(status_probes()[4].statement.sql == STATUS_GIT_COMMIT_CHUNK_COUNT_SQL@);
    status_topic_count_global_text();
    assert(status_probes()[5].statement.sql == STATUS_TOPIC_COUNT_GLOBAL_SQL@);
    status_topic_count_total_text();
    assert(status_probes()[6].statement.sql == STATUS_TOPIC_COUNT_TOTAL_SQL@);
    status_topic_assignments_total_text();
    assert(status_probes()[7].statement.sql == STATUS_TOPIC_ASSIGNMENTS_TOTAL_SQL@);
    status_topic_last_computed_text();
    assert(status_probes()[8].statement.sql == STATUS_TOPIC_LAST_COMPUTED_SQL@);
    status_topic_noise_chunk_count_text();
    assert(status_probes()[9].statement.sql == STATUS_TOPIC_NOISE_CHUNK_COUNT_SQL@);
    status_topic_scope_text();
    assert(status_probes()[10].statement.sql == STATUS_TOPIC_SCOPE_SQL@);
    status_similarity_pair_count_text();
    assert(status_probes()[11].statement.sql == STATUS_SIMILARITY_PAIR_COUNT_SQL@);
    status_similarity_distinct_files_text();
    assert(status_probes()[12].statement.sql == STATUS_SIMILARITY_DISTINCT_FILES_SQL@);
    status_similarity_last_computed_text();
    assert(status_probes()[13].statement.sql == STATUS_SIMILARITY_LAST_COMPUTED_SQL@);
    status_file_metric_count_text();
    assert(status_probes()[14].statement.sql == STATUS_FILE_METRIC_COUNT_SQL@);
    status_graph_edge_count_text();
    assert(status_probes()[15].statement.sql == STATUS_GRAPH_EDGE_COUNT_SQL@);
    status_graph_edge_text();
    assert(status_probes()[16].statement.sql == STATUS_GRAPH_EDGE_SQL@);
    status_graph_metric_last_computed_text();
    assert(status_probes()[17].statement.sql == STATUS_GRAPH_METRIC_LAST_COMPUTED_SQL@);
    status_graph_edge_last_computed_text();
    assert(status_probes()[18].statement.sql == STATUS_GRAPH_EDGE_LAST_COMPUTED_SQL@);
    status_blame_coverage_with_text();
    assert(status_probes()[19].statement.sql == STATUS_BLAME_COVERAGE_WITH_SQL@);
    status_per_project_text();
    assert(status_probes()[20].statement.sql == STATUS_PER_PROJECT_SQL@);
    status_git_per_project_text();
    assert(status_probes()[21].statement.sql == STATUS_GIT_PER_PROJECT_SQL@);
    status_last_indexed_at_text();
    assert(status_probes()[22].statement.sql == STATUS_LAST_INDEXED_AT_SQL@);
    status_vector_extension_version_text();
    assert(status_probes()[24].statement.sql == STATUS_VECTOR_EXTENSION_VERSION_SQL@);
}

} // verus!
