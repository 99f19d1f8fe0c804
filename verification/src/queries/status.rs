//! The overview of the whole database.
use vstd::prelude::*;

use crate::statement::{fetches_all, fetches_one, Statement, StatementView};

verus! {

/// How many edges of a type there are.
#[derive(Debug, Clone)]
pub struct EdgeTypeCount {
    pub edge_type: String,
    pub count: i64,
}

pub const STATUS_PROJECT_COUNT_SQL: &'static str = "SELECT COUNT(*) FROM projects";

pub const STATUS_INDEXED_FILE_COUNT_SQL: &'static str = "SELECT COUNT(*) FROM indexed_files";

pub const STATUS_CHUNK_COUNT_SQL: &'static str = "SELECT COUNT(*) FROM file_chunks";

pub const STATUS_GIT_COMMIT_COUNT_SQL: &'static str = "SELECT COUNT(*) FROM git_commits";

pub const STATUS_GIT_COMMIT_CHUNK_COUNT_SQL: &'static str =
    "SELECT COUNT(*) FROM git_commit_chunks";

pub const STATUS_TOPIC_COUNT_GLOBAL_SQL: &'static str =
    "SELECT COUNT(*) FROM code_topics WHERE scope = 'global'";

pub const STATUS_TOPIC_COUNT_TOTAL_SQL: &'static str = "SELECT COUNT(*) FROM code_topics";

pub const STATUS_TOPIC_ASSIGNMENTS_TOTAL_SQL: &'static str =
    "SELECT COUNT(*) FROM chunk_topic_assignments";

pub const STATUS_TOPIC_LAST_COMPUTED_SQL: &'static str = "SELECT MAX(computed_at) FROM code_topics";

pub const STATUS_TOPIC_NOISE_CHUNK_COUNT_SQL: &'static str = "SELECT COUNT(*) FROM file_chunks c \
         WHERE NOT EXISTS (SELECT 1 FROM chunk_topic_assignments a WHERE a.chunk_id = c.id)";

pub const STATUS_TOPIC_SCOPE_SQL: &'static str = "SELECT scope, COUNT(*)::BIGINT, MAX(computed_at) \
         FROM code_topics GROUP BY scope ORDER BY scope";

pub const STATUS_SIMILARITY_PAIR_COUNT_SQL: &'static str =
    "SELECT COUNT(*) FROM cross_project_similarities";

pub const STATUS_SIMILARITY_DISTINCT_FILES_SQL: &'static str = "SELECT COUNT(*) FROM (
             SELECT file_id_a AS f FROM cross_project_similarities
             UNION
             SELECT file_id_b AS f FROM cross_project_similarities
         ) AS u";

pub const STATUS_SIMILARITY_LAST_COMPUTED_SQL: &'static str =
    "SELECT MAX(computed_at) FROM cross_project_similarities";

pub const STATUS_FILE_METRIC_COUNT_SQL: &'static str = "SELECT COUNT(*) FROM file_metrics";

pub const STATUS_GRAPH_EDGE_COUNT_SQL: &'static str = "SELECT COUNT(*) FROM code_graph_edges";

pub const STATUS_GRAPH_EDGE_SQL: &'static str = "SELECT edge_type, COUNT(*)::BIGINT FROM code_graph_edges \
         GROUP BY edge_type ORDER BY edge_type";

pub const STATUS_GRAPH_METRIC_LAST_COMPUTED_SQL: &'static str =
    "SELECT MAX(computed_at) FROM file_metrics";

pub const STATUS_GRAPH_EDGE_LAST_COMPUTED_SQL: &'static str =
    "SELECT MAX(computed_at) FROM code_graph_edges";

pub const STATUS_BLAME_COVERAGE_WITH_SQL: &'static str =
    "SELECT COUNT(*) FROM file_chunks WHERE blame_commit IS NOT NULL";

pub const STATUS_PER_PROJECT_SQL: &'static str = "SELECT
             p.name,
             COUNT(DISTINCT f.id)::BIGINT,
             COUNT(c.id)::BIGINT,
             COUNT(DISTINCT fm.file_id)::BIGINT,
             MAX(f.modified_at)
         FROM projects p
         LEFT JOIN indexed_files f ON f.project_id = p.id
         LEFT JOIN file_chunks c ON c.file_id = f.id
         LEFT JOIN file_metrics fm ON fm.file_id = f.id
         GROUP BY p.id, p.name
         ORDER BY p.name";

pub const STATUS_GIT_PER_PROJECT_SQL: &'static str = "SELECT p.name,
                    COUNT(gc.id)::BIGINT,
                    (ARRAY_AGG(gc.commit_hash ORDER BY gc.author_date DESC))[1],
                    MAX(gc.author_date)
             FROM projects p
             LEFT JOIN git_commits gc ON gc.project_id = p.id
             GROUP BY p.id, p.name
             HAVING COUNT(gc.id) > 0
             ORDER BY p.name";

pub const STATUS_LAST_INDEXED_AT_SQL: &'static str = "SELECT MAX(modified_at) FROM indexed_files";

pub const STATUS_SERVER_VERSION_SQL: &'static str = "SHOW server_version";

pub const STATUS_VECTOR_EXTENSION_VERSION_SQL: &'static str =
    "SELECT extversion FROM pg_extension WHERE extname = 'vector'";

/// One query of the overview. If a required one fails the overview fails; any
/// other stands for nothing then: a zero count, no moment, no rows.
#[derive(Debug)]
pub struct Probe {
    pub statement: Statement,
    pub required: bool,
}

/// A query of the overview, as a mathematical value.
#[verifier::ext_equal]
pub struct ProbeView {
    pub statement: StatementView,
    pub required: bool,
}

impl View for Probe {
    type V = ProbeView;

    open spec fn view(&self) -> ProbeView {
        ProbeView { statement: self.statement@, required: self.required }
    }
}

/// Every field of the model stands for the field of the same name.
pub proof fn law_probe_is_modelled_by_its_fields(probe: Probe)
    ensures
        probe@.statement == probe.statement@,
        probe@.required == probe.required,
{
}

/// The queries of a list.
pub open spec fn probe_views(v: Seq<Probe>) -> Seq<ProbeView> {
    v.map_values(|p: Probe| p@)
}

/// A query for one value that must not fail.
pub open spec fn requires_value(sql: Seq<char>) -> ProbeView {
    ProbeView { statement: fetches_one(sql, seq![]), required: true }
}

/// A query for one value that may fail.
pub open spec fn tries_value(sql: Seq<char>) -> ProbeView {
    ProbeView { statement: fetches_one(sql, seq![]), required: false }
}

/// A query for rows that may fail.
pub open spec fn tries_rows(sql: Seq<char>) -> ProbeView {
    ProbeView { statement: fetches_all(sql, seq![]), required: false }
}

fn require_value(sql: &str) -> (p: Probe)
    ensures
        p@ == requires_value(sql@),
{
    Probe { statement: Statement::one(sql), required: true }
}

fn try_value(sql: &str) -> (p: Probe)
    ensures
        p@ == tries_value(sql@),
{
    Probe { statement: Statement::one(sql), required: false }
}

fn try_rows(sql: &str) -> (p: Probe)
    ensures
        p@ == tries_rows(sql@),
{
    Probe { statement: Statement::all(sql), required: false }
}

/// The queries of the overview, in order; all run in one transaction.
pub open spec fn status_probes() -> Seq<ProbeView> {
    seq![
        requires_value(STATUS_PROJECT_COUNT_SQL@),
        requires_value(STATUS_INDEXED_FILE_COUNT_SQL@),
        requires_value(STATUS_CHUNK_COUNT_SQL@),
        tries_value(STATUS_GIT_COMMIT_COUNT_SQL@),
        tries_value(STATUS_GIT_COMMIT_CHUNK_COUNT_SQL@),
        tries_value(STATUS_TOPIC_COUNT_GLOBAL_SQL@),
        tries_value(STATUS_TOPIC_COUNT_TOTAL_SQL@),
        tries_value(STATUS_TOPIC_ASSIGNMENTS_TOTAL_SQL@),
        tries_value(STATUS_TOPIC_LAST_COMPUTED_SQL@),
        tries_value(STATUS_TOPIC_NOISE_CHUNK_COUNT_SQL@),
        tries_rows(STATUS_TOPIC_SCOPE_SQL@),
        tries_value(STATUS_SIMILARITY_PAIR_COUNT_SQL@),
        tries_value(STATUS_SIMILARITY_DISTINCT_FILES_SQL@),
        tries_value(STATUS_SIMILARITY_LAST_COMPUTED_SQL@),
        tries_value(STATUS_FILE_METRIC_COUNT_SQL@),
        tries_value(STATUS_GRAPH_EDGE_COUNT_SQL@),
        tries_rows(STATUS_GRAPH_EDGE_SQL@),
        tries_value(STATUS_GRAPH_METRIC_LAST_COMPUTED_SQL@),
        tries_value(STATUS_GRAPH_EDGE_LAST_COMPUTED_SQL@),
        tries_value(STATUS_BLAME_COVERAGE_WITH_SQL@),
        tries_rows(STATUS_PER_PROJECT_SQL@),
        tries_rows(STATUS_GIT_PER_PROJECT_SQL@),
        tries_value(STATUS_LAST_INDEXED_AT_SQL@),
        tries_value(STATUS_SERVER_VERSION_SQL@),
        tries_value(STATUS_VECTOR_EXTENSION_VERSION_SQL@),
    ]
}

/// The queries of the overview, to be run in order in one transaction.
pub fn status_snapshot() -> (r: Vec<Probe>)
    ensures
        probe_views(r@) == status_probes(),
{
    let r: Vec<Probe> = vec![
        require_value(STATUS_PROJECT_COUNT_SQL),
        require_value(STATUS_INDEXED_FILE_COUNT_SQL),
        require_value(STATUS_CHUNK_COUNT_SQL),
        try_value(STATUS_GIT_COMMIT_COUNT_SQL),
        try_value(STATUS_GIT_COMMIT_CHUNK_COUNT_SQL),
        try_value(STATUS_TOPIC_COUNT_GLOBAL_SQL),
        try_value(STATUS_TOPIC_COUNT_TOTAL_SQL),
        try_value(STATUS_TOPIC_ASSIGNMENTS_TOTAL_SQL),
        try_value(STATUS_TOPIC_LAST_COMPUTED_SQL),
        try_value(STATUS_TOPIC_NOISE_CHUNK_COUNT_SQL),
        try_rows(STATUS_TOPIC_SCOPE_SQL),
        try_value(STATUS_SIMILARITY_PAIR_COUNT_SQL),
        try_value(STATUS_SIMILARITY_DISTINCT_FILES_SQL),
        try_value(STATUS_SIMILARITY_LAST_COMPUTED_SQL),
        try_value(STATUS_FILE_METRIC_COUNT_SQL),
        try_value(STATUS_GRAPH_EDGE_COUNT_SQL),
        try_rows(STATUS_GRAPH_EDGE_SQL),
        try_value(STATUS_GRAPH_METRIC_LAST_COMPUTED_SQL),
        try_value(STATUS_GRAPH_EDGE_LAST_COMPUTED_SQL),
        try_value(STATUS_BLAME_COVERAGE_WITH_SQL),
        try_rows(STATUS_PER_PROJECT_SQL),
        try_rows(STATUS_GIT_PER_PROJECT_SQL),
        try_value(STATUS_LAST_INDEXED_AT_SQL),
        try_value(STATUS_SERVER_VERSION_SQL),
        try_value(STATUS_VECTOR_EXTENSION_VERSION_SQL),
    ];
    assert(probe_views(r@) =~= status_probes());
    r
}

/// The counts of the overview.
#[derive(Debug, Clone, Copy, PartialEq, Eq, Structural)]
pub struct StatusCounts {
    pub project_count: i64,
    pub indexed_file_count: i64,
    pub chunk_count: i64,
    pub git_commit_count: i64,
    pub git_commit_chunk_count: i64,
    pub topic_count_global: i64,
    pub topic_count_total: i64,
    pub topic_assignments_total: i64,
    pub topic_noise_chunk_count: i64,
    pub similarity_pair_count: i64,
    pub similarity_distinct_files: i64,
    pub file_metric_count: i64,
    pub graph_edge_count: i64,
    pub blame_coverage_with: i64,
    pub blame_coverage_total: i64,
}

/// A count that was not obtained is zero.
pub open spec fn or_zero(n: Option<i64>) -> i64 {
    match n {
        Some(c) => c,
        None => 0,
    }
}

fn count_or_zero(n: Option<i64>) -> (r: i64)
    ensures
        r == or_zero(n),
{
    match n {
        Some(c) => c,
        None => 0,
    }
}

/// The counts that were obtained, in the order of their queries; `None` for
/// one whose query failed.
#[derive(Debug, Clone, Copy)]
pub struct StatusAnswers {
    pub project_count: Option<i64>,
    pub indexed_file_count: Option<i64>,
    pub chunk_count: Option<i64>,
    pub git_commit_count: Option<i64>,
    pub git_commit_chunk_count: Option<i64>,
    pub topic_count_global: Option<i64>,
    pub topic_count_total: Option<i64>,
    pub topic_assignments_total: Option<i64>,
    pub topic_noise_chunk_count: Option<i64>,
    pub similarity_pair_count: Option<i64>,
    pub similarity_distinct_files: Option<i64>,
    pub file_metric_count: Option<i64>,
    pub graph_edge_count: Option<i64>,
    pub blame_coverage_with: Option<i64>,
}

/// Puts the counts of the overview together. It fails where one of the first
/// three is missing; blame is measured against all chunks.
pub fn status_counts(a: StatusAnswers) -> (r: Option<StatusCounts>)
    ensures
        r is None <==> a.project_count is None || a.indexed_file_count is None
            || a.chunk_count is None,
        r matches Some(c) ==> c == (StatusCounts {
            project_count: or_zero(a.project_count),
            indexed_file_count: or_zero(a.indexed_file_count),
            chunk_count: or_zero(a.chunk_count),
            git_commit_count: or_zero(a.git_commit_count),
            git_commit_chunk_count: or_zero(a.git_commit_chunk_count),
            topic_count_global: or_zero(a.topic_count_global),
            topic_count_total: or_zero(a.topic_count_total),
            topic_assignments_total: or_zero(a.topic_assignments_total),
            topic_noise_chunk_count: or_zero(a.topic_noise_chunk_count),
            similarity_pair_count: or_zero(a.similarity_pair_count),
            similarity_distinct_files: or_zero(a.similarity_distinct_files),
            file_metric_count: or_zero(a.file_metric_count),
            graph_edge_count: or_zero(a.graph_edge_count),
            blame_coverage_with: or_zero(a.blame_coverage_with),
            blame_coverage_total: or_zero(a.chunk_count),
        }),
{
    if a.project_count.is_none() || a.indexed_file_count.is_none() || a.chunk_count.is_none() {
        return None;
    }
    Some(
        StatusCounts {
            project_count: count_or_zero(a.project_count),
            indexed_file_count: count_or_zero(a.indexed_file_count),
            chunk_count: count_or_zero(a.chunk_count),
            git_commit_count: count_or_zero(a.git_commit_count),
            git_commit_chunk_count: count_or_zero(a.git_commit_chunk_count),
            topic_count_global: count_or_zero(a.topic_count_global),
            topic_count_total: count_or_zero(a.topic_count_total),
            topic_assignments_total: count_or_zero(a.topic_assignments_total),
            topic_noise_chunk_count: count_or_zero(a.topic_noise_chunk_count),
            similarity_pair_count: count_or_zero(a.similarity_pair_count),
            similarity_distinct_files: count_or_zero(a.similarity_distinct_files),
            file_metric_count: count_or_zero(a.file_metric_count),
            graph_edge_count: count_or_zero(a.graph_edge_count),
            blame_coverage_with: count_or_zero(a.blame_coverage_with),
            blame_coverage_total: count_or_zero(a.chunk_count),
        },
    )
}

/// Of the queries of the overview exactly the first three are required.
pub proof fn law_only_core_counts_are_required(i: int)
    requires
        0 <= i < status_probes().len(),
    ensures
        status_probes()[i].required <==> i < 3,
{
}

} // verus!
