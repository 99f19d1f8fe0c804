//! The experiment register: opening experiments, recording measurements,
//! deciding hypotheses, and reading them back.
use vstd::prelude::*;

use crate::meaning::{fills, opens, says, takes};
use crate::protocol::{awaited, fits, Action, ActionView, Fallback, Reply, ReplyView};
use crate::queries::memory_locks::{fnv1a, fnv1a32, take_lock, takes_lock, HIGH_BASIS};
use crate::queries::texts::experiments::{
    earliest_measurement_time_text, exact_file_text, experiment_search_fts_text,
    experiment_search_vector_text, experiment_timeline_text, find_experiment_run_id_text,
    get_experiment_core_text, get_experiment_hypothesis_text, insert_experiment_artifact_text,
    insert_experiment_code_anchor_text, insert_experiment_hypothesis_in_tx_text,
    insert_experiment_in_tx_text, law_inserts_result_stands_for_its_values,
    law_inserts_samples_stands_for_its_values, law_run_is_refreshed_or_created,
    list_experiment_hypotheses_text, list_experiment_results_text, list_experiments_text,
    load_experiment_samples_text, set_experiment_observation_id_text, set_experiment_status_text,
    set_hypothesis_verdict_text, set_result_observation_id_text, suffix_file_text,
};
use crate::statement::{
    executes, fetches_all, fetches_one, fetches_optional, opt_as_str, opt_str, opt_text, opt_texts,
    texts, Bind, BindView, Fetch, Statement, StatementView,
};

use vstd::utf8::encode_utf8;

verus! {

pub const INSERT_EXPERIMENT_IN_TX_SQL: &'static str = "INSERT INTO experiments
            (slug, title, question, context, kind, project_id, hardware, git_ref,
             plan_ref, correction, embedding, embedding_signature)
         VALUES ($1, $2, $3, $4, $5::experiment_kind, $6, $7::jsonb, $8, $9, $10, $11,
                 CASE WHEN $11 IS NULL THEN 'bge-m3-v1' ELSE 'bge-m3-v1' END)
         RETURNING id";

/// Inserts an experiment and returns its id. The caller supplies value 0,
/// `embedding`.
pub fn insert_experiment_in_tx(
    slug: &str,
    title: &str,
    question: &str,
    context: Option<&str>,
    kind: &str,
    project_id: Option<i32>,
    hardware_json: &str,
    git_ref: Option<&str>,
    plan_ref: Option<&str>,
    correction: &str,
) -> (st: Statement)
    ensures
        st@ == fetches_one(
            INSERT_EXPERIMENT_IN_TX_SQL@,
            seq![
                BindView::Text(slug@),
                BindView::Text(title@),
                BindView::Text(question@),
                BindView::OptText(opt_str(context)),
                BindView::Text(kind@),
                BindView::OptInt(project_id),
                BindView::Text(hardware_json@),
                BindView::OptText(opt_str(git_ref)),
                BindView::OptText(opt_str(plan_ref)),
                BindView::Text(correction@),
                BindView::Supplied(0),
            ],
        ),
        opens(st@.sql, "INSERT INTO experiments"@),
        fills(st@, "INSERT INTO experiments"@, "slug"@, "VALUES ("@, BindView::Text(slug@)),
        fills(st@, "INSERT INTO experiments"@, "title"@, "VALUES ("@, BindView::Text(title@)),
        fills(st@, "INSERT INTO experiments"@, "question"@, "VALUES ("@, BindView::Text(question@)),
        fills(
            st@,
            "INSERT INTO experiments"@,
            "context"@,
            "VALUES ("@,
            BindView::OptText(opt_str(context)),
        ),
        fills(st@, "INSERT INTO experiments"@, "kind"@, "VALUES ("@, BindView::Text(kind@)),
        fills(
            st@,
            "INSERT INTO experiments"@,
            "project_id"@,
            "VALUES ("@,
            BindView::OptInt(project_id),
        ),
        fills(
            st@,
            "INSERT INTO experiments"@,
            "hardware"@,
            "VALUES ("@,
            BindView::Text(hardware_json@),
        ),
        fills(
            st@,
            "INSERT INTO experiments"@,
            "git_ref"@,
            "VALUES ("@,
            BindView::OptText(opt_str(git_ref)),
        ),
        fills(
            st@,
            "INSERT INTO experiments"@,
            "plan_ref"@,
            "VALUES ("@,
            BindView::OptText(opt_str(plan_ref)),
        ),
        fills(
            st@,
            "INSERT INTO experiments"@,
            "correction"@,
            "VALUES ("@,
            BindView::Text(correction@),
        ),
        fills(st@, "INSERT INTO experiments"@, "embedding"@, "VALUES ("@, BindView::Supplied(0)),
{
    proof {
        insert_experiment_in_tx_text();
    }
    let st = Statement::one(INSERT_EXPERIMENT_IN_TX_SQL)
        .text(slug)
        .text(title)
        .text(question)
        .opt_text(context)
        .text(kind)
        .opt_int4(project_id)
        .text(hardware_json)
        .opt_text(git_ref)
        .opt_text(plan_ref)
        .text(correction)
        .supplied(0);
    assert(st@.sql == INSERT_EXPERIMENT_IN_TX_SQL@);
    st
}

pub const INSERT_EXPERIMENT_HYPOTHESIS_IN_TX_SQL: &'static str = "INSERT INTO experiment_hypotheses
            (experiment_id, statement, primary_metric, unit, predicted_direction,
             acceptance_criterion, planned_n, embedding)
         VALUES ($1, $2, $3, $4, $5::effect_direction, $6::jsonb, $7, $8)
         RETURNING id";

/// Inserts a hypothesis with its frozen acceptance criterion and returns its
/// id. The caller supplies value 0, `embedding`.
pub fn insert_experiment_hypothesis_in_tx(
    experiment_id: i64,
    statement: &str,
    primary_metric: &str,
    unit: Option<&str>,
    predicted_direction: &str,
    acceptance_criterion_json: &str,
    planned_n: Option<i32>,
) -> (st: Statement)
    ensures
        st@ == fetches_one(
            INSERT_EXPERIMENT_HYPOTHESIS_IN_TX_SQL@,
            seq![
                BindView::BigInt(experiment_id),
                BindView::Text(statement@),
                BindView::Text(primary_metric@),
                BindView::OptText(opt_str(unit)),
                BindView::Text(predicted_direction@),
                BindView::Text(acceptance_criterion_json@),
                BindView::OptInt(planned_n),
                BindView::Supplied(0),
            ],
        ),
        opens(st@.sql, "INSERT INTO experiment_hypotheses"@),
        fills(
            st@,
            "INSERT INTO experiment_hypotheses"@,
            "experiment_id"@,
            "VALUES ("@,
            BindView::BigInt(experiment_id),
        ),
        fills(
            st@,
            "INSERT INTO experiment_hypotheses"@,
            "statement"@,
            "VALUES ("@,
            BindView::Text(statement@),
        ),
        fills(
            st@,
            "INSERT INTO experiment_hypotheses"@,
            "primary_metric"@,
            "VALUES ("@,
            BindView::Text(primary_metric@),
        ),
        fills(
            st@,
            "INSERT INTO experiment_hypotheses"@,
            "unit"@,
            "VALUES ("@,
            BindView::OptText(opt_str(unit)),
        ),
        fills(
            st@,
            "INSERT INTO experiment_hypotheses"@,
            "predicted_direction"@,
            "VALUES ("@,
            BindView::Text(predicted_direction@),
        ),
        fills(
            st@,
            "INSERT INTO experiment_hypotheses"@,
            "acceptance_criterion"@,
            "VALUES ("@,
            BindView::Text(acceptance_criterion_json@),
        ),
        fills(
            st@,
            "INSERT INTO experiment_hypotheses"@,
            "planned_n"@,
            "VALUES ("@,
            BindView::OptInt(planned_n),
        ),
        fills(
            st@,
            "INSERT INTO experiment_hypotheses"@,
            "embedding"@,
            "VALUES ("@,
            BindView::Supplied(0),
        ),
{
    proof {
        insert_experiment_hypothesis_in_tx_text();
    }
    let st = Statement::one(INSERT_EXPERIMENT_HYPOTHESIS_IN_TX_SQL)
        .int8(experiment_id)
        .text(statement)
        .text(primary_metric)
        .opt_text(unit)
        .text(predicted_direction)
        .text(acceptance_criterion_json)
        .opt_int4(planned_n)
        .supplied(0);
    assert(st@.sql == INSERT_EXPERIMENT_HYPOTHESIS_IN_TX_SQL@);
    st
}

pub const INSERT_EXPERIMENT_CODE_ANCHOR_SQL: &'static str = "INSERT INTO experiment_code_anchor
            (experiment_id, file_id, chunk_id, topic_id, anchor_type)
         VALUES ($1, $2, $3, $4, $5)";

/// Anchor an experiment to a code object. At least one of file/chunk/topic must
/// be `Some` (enforced by a table CHECK).
pub fn insert_experiment_code_anchor(
    experiment_id: i64,
    file_id: Option<i64>,
    chunk_id: Option<i64>,
    topic_id: Option<i64>,
    anchor_type: &str,
) -> (st: Statement)
    ensures
        st@ == executes(
            INSERT_EXPERIMENT_CODE_ANCHOR_SQL@,
            seq![
                BindView::BigInt(experiment_id),
                BindView::OptBigInt(file_id),
                BindView::OptBigInt(chunk_id),
                BindView::OptBigInt(topic_id),
                BindView::Text(anchor_type@),
            ],
        ),
        opens(st@.sql, "INSERT INTO experiment_code_anchor"@),
        fills(
            st@,
            "INSERT INTO experiment_code_anchor"@,
            "experiment_id"@,
            "VALUES ("@,
            BindView::BigInt(experiment_id),
        ),
        fills(
            st@,
            "INSERT INTO experiment_code_anchor"@,
            "file_id"@,
            "VALUES ("@,
            BindView::OptBigInt(file_id),
        ),
        fills(
            st@,
            "INSERT INTO experiment_code_anchor"@,
            "chunk_id"@,
            "VALUES ("@,
            BindView::OptBigInt(chunk_id),
        ),
        fills(
            st@,
            "INSERT INTO experiment_code_anchor"@,
            "topic_id"@,
            "VALUES ("@,
            BindView::OptBigInt(topic_id),
        ),
        fills(
            st@,
            "INSERT INTO experiment_code_anchor"@,
            "anchor_type"@,
            "VALUES ("@,
            BindView::Text(anchor_type@),
        ),
{
    proof {
        insert_experiment_code_anchor_text();
    }
    let st = Statement::execute(INSERT_EXPERIMENT_CODE_ANCHOR_SQL)
        .int8(experiment_id)
        .opt_int8(file_id)
        .opt_int8(chunk_id)
        .opt_int8(topic_id)
        .text(anchor_type);
    assert(st@.sql == INSERT_EXPERIMENT_CODE_ANCHOR_SQL@);
    st
}

pub const SET_EXPERIMENT_STATUS_SQL: &'static str =
    "UPDATE experiments SET status = $2::experiment_status, updated_at = NOW() WHERE id = $1";

/// Set an experiment's lifecycle status.
pub fn set_experiment_status(experiment_id: i64, status: &str) -> (st: Statement)
    ensures
        st@ == executes(
            SET_EXPERIMENT_STATUS_SQL@,
            seq![
                BindView::BigInt(experiment_id),
                BindView::Text(status@),
            ],
        ),
        opens(st@.sql, "UPDATE experiments"@),
        takes(st@, "NOW() WHERE id = "@, BindView::BigInt(experiment_id)),
        takes(st@, "status = "@, BindView::Text(status@)),
{
    proof {
        set_experiment_status_text();
    }
    let st = Statement::execute(SET_EXPERIMENT_STATUS_SQL).int8(experiment_id).text(status);
    assert(st@.sql == SET_EXPERIMENT_STATUS_SQL@);
    st
}

pub const GET_EXPERIMENT_HYPOTHESIS_SQL: &'static str = "SELECT id, experiment_id, statement, primary_metric, unit,
                predicted_direction::text, acceptance_criterion::text,
                criterion_locked_at, planned_n, CAST(verdict AS text)
         FROM experiment_hypotheses WHERE id = $1";

/// Load a hypothesis (criterion read via `::text`). `None` if absent.
pub fn get_experiment_hypothesis(hypothesis_id: i64) -> (st: Statement)
    ensures
        st@ == fetches_optional(
            GET_EXPERIMENT_HYPOTHESIS_SQL@,
            seq![BindView::BigInt(hypothesis_id)],
        ),
        opens(st@.sql, "SELECT"@),
        takes(st@, "experiment_hypotheses WHERE id = "@, BindView::BigInt(hypothesis_id)),
        says(st@.sql, "FROM experiment_hypotheses"@),
{
    proof {
        get_experiment_hypothesis_text();
    }
    let st = Statement::optional(GET_EXPERIMENT_HYPOTHESIS_SQL).int8(hypothesis_id);
    assert(st@.sql == GET_EXPERIMENT_HYPOTHESIS_SQL@);
    st
}

pub const LOAD_EXPERIMENT_SAMPLES_SQL: &'static str = "SELECT s.value, s.unit_key
         FROM experiment_samples s
         JOIN experiment_runs r ON r.id = s.run_id
         WHERE r.experiment_id = $1
           AND r.hypothesis_id IS NOT DISTINCT FROM $2
           AND s.arm = $3
           AND s.metric_name = $4
           AND NOT s.is_warmup
         ORDER BY s.unit_key NULLS FIRST, s.replicate_index";

/// Load the non-warm-up samples for one arm/metric of a hypothesis, ordered by
/// `unit_key` then `replicate_index` (so paired tests align across arms).
/// Returns `(value, unit_key)` tuples.
pub fn load_experiment_samples(
    experiment_id: i64,
    hypothesis_id: Option<i64>,
    arm_label: &str,
    metric_name: &str,
) -> (st: Statement)
    ensures
        st@ == fetches_all(
            LOAD_EXPERIMENT_SAMPLES_SQL@,
            seq![
                BindView::BigInt(experiment_id),
                BindView::OptBigInt(hypothesis_id),
                BindView::Text(arm_label@),
                BindView::Text(metric_name@),
            ],
        ),
        opens(st@.sql, "SELECT"@),
        takes(st@, "r.experiment_id = "@, BindView::BigInt(experiment_id)),
        takes(st@, "r.hypothesis_id IS NOT DISTINCT FROM "@, BindView::OptBigInt(hypothesis_id)),
        takes(st@, "s.arm = "@, BindView::Text(arm_label@)),
        takes(st@, "s.metric_name = "@, BindView::Text(metric_name@)),
        says(st@.sql, "AND NOT s.is_warmup"@),
        says(st@.sql, "ORDER BY s.unit_key NULLS FIRST, s.replicate_index"@),
        says(st@.sql, "FROM experiment_samples"@),
{
    proof {
        load_experiment_samples_text();
    }
    let st = Statement::all(LOAD_EXPERIMENT_SAMPLES_SQL)
        .int8(experiment_id)
        .opt_int8(hypothesis_id)
        .text(arm_label)
        .text(metric_name);
    assert(st@.sql == LOAD_EXPERIMENT_SAMPLES_SQL@);
    st
}

pub const EARLIEST_MEASUREMENT_TIME_SQL: &'static str = "SELECT MIN(s.recorded_at)
         FROM experiment_samples s
         JOIN experiment_runs r ON r.id = s.run_id
         WHERE r.hypothesis_id = $1 AND NOT s.is_warmup";

/// The earliest non-warm-up sample time for a hypothesis (anti-p-hacking guard
/// in `experiment_decide`: the criterion must predate the first measurement).
pub fn earliest_measurement_time(hypothesis_id: i64) -> (st: Statement)
    ensures
        st@ == fetches_one(EARLIEST_MEASUREMENT_TIME_SQL@, seq![BindView::BigInt(hypothesis_id)]),
        opens(st@.sql, "SELECT"@),
        takes(st@, "r.hypothesis_id = "@, BindView::BigInt(hypothesis_id)),
        says(st@.sql, "FROM experiment_samples"@),
{
    proof {
        earliest_measurement_time_text();
    }
    let st = Statement::one(EARLIEST_MEASUREMENT_TIME_SQL).int8(hypothesis_id);
    assert(st@.sql == EARLIEST_MEASUREMENT_TIME_SQL@);
    st
}

pub const FIND_EXPERIMENT_RUN_ID_SQL: &'static str = "SELECT id FROM experiment_runs
         WHERE experiment_id = $1 AND hypothesis_id IS NOT DISTINCT FROM $2 AND arm_label = $3
         LIMIT 1";

/// Find a run id by `(experiment_id, hypothesis_id, arm_label)` to record on a
/// decision's control/treatment pointers.
pub fn find_experiment_run_id(
    experiment_id: i64,
    hypothesis_id: Option<i64>,
    arm_label: &str,
) -> (st: Statement)
    ensures
        st@ == fetches_optional(
            FIND_EXPERIMENT_RUN_ID_SQL@,
            seq![
                BindView::BigInt(experiment_id),
                BindView::OptBigInt(hypothesis_id),
                BindView::Text(arm_label@),
            ],
        ),
        opens(st@.sql, "SELECT"@),
        takes(st@, "experiment_id = "@, BindView::BigInt(experiment_id)),
        takes(st@, "hypothesis_id IS NOT DISTINCT FROM "@, BindView::OptBigInt(hypothesis_id)),
        takes(st@, "arm_label = "@, BindView::Text(arm_label@)),
        says(st@.sql, "FROM experiment_runs"@),
{
    proof {
        find_experiment_run_id_text();
    }
    let st = Statement::optional(FIND_EXPERIMENT_RUN_ID_SQL)
        .int8(experiment_id)
        .opt_int8(hypothesis_id)
        .text(arm_label);
    assert(st@.sql == FIND_EXPERIMENT_RUN_ID_SQL@);
    st
}

pub const SET_HYPOTHESIS_VERDICT_SQL: &'static str =
    "UPDATE experiment_hypotheses SET verdict = $2::hypothesis_verdict WHERE id = $1";

/// Set a hypothesis's verdict.
pub fn set_hypothesis_verdict(hypothesis_id: i64, verdict: &str) -> (st: Statement)
    ensures
        st@ == executes(
            SET_HYPOTHESIS_VERDICT_SQL@,
            seq![
                BindView::BigInt(hypothesis_id),
                BindView::Text(verdict@),
            ],
        ),
        opens(st@.sql, "UPDATE experiment_hypotheses"@),
        takes(st@, "$2::hypothesis_verdict WHERE id = "@, BindView::BigInt(hypothesis_id)),
        takes(st@, "verdict = "@, BindView::Text(verdict@)),
{
    proof {
        set_hypothesis_verdict_text();
    }
    let st = Statement::execute(SET_HYPOTHESIS_VERDICT_SQL).int8(hypothesis_id).text(verdict);
    assert(st@.sql == SET_HYPOTHESIS_VERDICT_SQL@);
    st
}

pub const SET_EXPERIMENT_OBSERVATION_ID_SQL: &'static str =
    "UPDATE experiments SET observation_id = $2, updated_at = NOW() WHERE id = $1";

/// Records on an experiment the observation that describes it.
pub fn set_experiment_observation_id(experiment_id: i64, observation_id: i64) -> (st: Statement)
    ensures
        st@ == executes(
            SET_EXPERIMENT_OBSERVATION_ID_SQL@,
            seq![
                BindView::BigInt(experiment_id),
                BindView::BigInt(observation_id),
            ],
        ),
        opens(st@.sql, "UPDATE experiments"@),
        takes(st@, "NOW() WHERE id = "@, BindView::BigInt(experiment_id)),
        takes(st@, "observation_id = "@, BindView::BigInt(observation_id)),
{
    proof {
        set_experiment_observation_id_text();
    }
    let st = Statement::execute(SET_EXPERIMENT_OBSERVATION_ID_SQL)
        .int8(experiment_id)
        .int8(observation_id);
    assert(st@.sql == SET_EXPERIMENT_OBSERVATION_ID_SQL@);
    st
}

pub const SET_RESULT_OBSERVATION_ID_SQL: &'static str =
    "UPDATE experiment_results SET observation_id = $2 WHERE id = $1";

/// Records on a decision the observation that describes it.
pub fn set_result_observation_id(result_id: i64, observation_id: i64) -> (st: Statement)
    ensures
        st@ == executes(
            SET_RESULT_OBSERVATION_ID_SQL@,
            seq![
                BindView::BigInt(result_id),
                BindView::BigInt(observation_id),
            ],
        ),
        opens(st@.sql, "UPDATE experiment_results"@),
        takes(st@, "$2 WHERE id = "@, BindView::BigInt(result_id)),
        takes(st@, "observation_id = "@, BindView::BigInt(observation_id)),
{
    proof {
        set_result_observation_id_text();
    }
    let st = Statement::execute(SET_RESULT_OBSERVATION_ID_SQL).int8(result_id).int8(observation_id);
    assert(st@.sql == SET_RESULT_OBSERVATION_ID_SQL@);
    st
}

pub const EXPERIMENT_SEARCH_VECTOR_SQL: &'static str = "SELECT e.id, e.slug, e.title, e.kind::text AS kind, e.status::text AS status,
                p.name AS project,
                1.0 - (e.embedding <=> $1) AS similarity,
                (SELECT CAST(h.verdict AS text) FROM experiment_hypotheses h
                  WHERE h.experiment_id = e.id AND h.valid_to IS NULL
                  ORDER BY h.id LIMIT 1) AS verdict,
                (SELECT r.p_value FROM experiment_results r
                  WHERE r.experiment_id = e.id ORDER BY r.id DESC LIMIT 1) AS p_value
         FROM experiments e
         LEFT JOIN projects p ON p.id = e.project_id
         WHERE e.valid_to IS NULL AND e.embedding IS NOT NULL
           AND ($2::int IS NULL OR e.project_id = $2)
           AND ($3::text IS NULL OR e.kind::text = $3)
           AND ($4::text IS NULL OR EXISTS (
                 SELECT 1 FROM experiment_hypotheses h2
                 WHERE h2.experiment_id = e.id AND CAST(h2.verdict AS text) = $4))
         ORDER BY e.embedding <=> $1
         LIMIT $5";

/// Vector search over experiment embeddings (the title‖question‖context
/// signal). `project_id = None` ⇒ cross-project. Returns each experiment with
/// its first hypothesis's verdict and latest decision p-value. The caller
/// supplies value 0, `query_embedding`.
pub fn experiment_search_vector(
    project_id: Option<i32>,
    kind: Option<&str>,
    verdict: Option<&str>,
    limit: i64,
) -> (st: Statement)
    ensures
        st@ == fetches_all(
            EXPERIMENT_SEARCH_VECTOR_SQL@,
            seq![
                BindView::Supplied(0),
                BindView::OptInt(project_id),
                BindView::OptText(opt_str(kind)),
                BindView::OptText(opt_str(verdict)),
                BindView::BigInt(limit),
            ],
        ),
        opens(st@.sql, "SELECT"@),
        takes(st@, "e.embedding <=> "@, BindView::Supplied(0)),
        takes(st@, "e.project_id = "@, BindView::OptInt(project_id)),
        takes(st@, "e.kind::text = "@, BindView::OptText(opt_str(kind))),
        takes(st@, "text) = "@, BindView::OptText(opt_str(verdict))),
        takes(st@, "LIMIT "@, BindView::BigInt(limit)),
        says(st@.sql, "WHERE h.experiment_id = e.id AND h.valid_to IS NULL"@),
        says(st@.sql, "WHERE r.experiment_id = e.id ORDER BY r.id DESC LIMIT 1) AS p_value"@),
        says(st@.sql, "WHERE e.valid_to IS NULL AND e.embedding IS NOT NULL"@),
        says(st@.sql, "ORDER BY h.id LIMIT 1) AS verdict"@),
        says(st@.sql, "ORDER BY r.id DESC LIMIT 1) AS p_value"@),
        says(st@.sql, "FROM experiment_hypotheses"@),
{
    proof {
        experiment_search_vector_text();
    }
    let st = Statement::all(EXPERIMENT_SEARCH_VECTOR_SQL)
        .supplied(0)
        .opt_int4(project_id)
        .opt_text(kind)
        .opt_text(verdict)
        .int8(limit);
    assert(st@.sql == EXPERIMENT_SEARCH_VECTOR_SQL@);
    st
}

pub const EXPERIMENT_SEARCH_FTS_SQL: &'static str = "SELECT e.id, e.slug, e.title, e.kind::text AS kind, e.status::text AS status,
                p.name AS project,
                ts_rank(to_tsvector('english', coalesce(e.title,'') || ' ' ||
                        coalesce(e.question,'') || ' ' || coalesce(e.context,'')),
                        plainto_tsquery('english', $1))::float8 AS similarity,
                (SELECT CAST(h.verdict AS text) FROM experiment_hypotheses h
                  WHERE h.experiment_id = e.id AND h.valid_to IS NULL
                  ORDER BY h.id LIMIT 1) AS verdict,
                (SELECT r.p_value FROM experiment_results r
                  WHERE r.experiment_id = e.id ORDER BY r.id DESC LIMIT 1) AS p_value
         FROM experiments e
         LEFT JOIN projects p ON p.id = e.project_id
         WHERE e.valid_to IS NULL
           AND ($2::int IS NULL OR e.project_id = $2)
           AND ($3::text IS NULL OR e.kind::text = $3)
           AND to_tsvector('english', coalesce(e.title,'') || ' ' ||
                 coalesce(e.question,'') || ' ' || coalesce(e.context,''))
               @@ plainto_tsquery('english', $1)
         ORDER BY similarity DESC
         LIMIT $4";

/// Full-text fallback when no query embedding is available (or to fuse).
pub fn experiment_search_fts(
    query: &str,
    project_id: Option<i32>,
    kind: Option<&str>,
    limit: i64,
) -> (st: Statement)
    ensures
        st@ == fetches_all(
            EXPERIMENT_SEARCH_FTS_SQL@,
            seq![
                BindView::Text(query@),
                BindView::OptInt(project_id),
                BindView::OptText(opt_str(kind)),
                BindView::BigInt(limit),
            ],
        ),
        opens(st@.sql, "SELECT"@),
        takes(st@, "plainto_tsquery('english', "@, BindView::Text(query@)),
        takes(st@, "e.project_id = "@, BindView::OptInt(project_id)),
        takes(st@, "e.kind::text = "@, BindView::OptText(opt_str(kind))),
        takes(st@, "LIMIT "@, BindView::BigInt(limit)),
        says(st@.sql, "WHERE h.experiment_id = e.id AND h.valid_to IS NULL"@),
        says(st@.sql, "WHERE r.experiment_id = e.id ORDER BY r.id DESC LIMIT 1) AS p_value"@),
        says(st@.sql, "WHERE e.valid_to IS NULL"@),
        says(st@.sql, "AND to_tsvector('english', coalesce(e.title,'') || ' ' ||"@),
        says(st@.sql, "ORDER BY h.id LIMIT 1) AS verdict"@),
        says(st@.sql, "ORDER BY r.id DESC LIMIT 1) AS p_value"@),
        says(st@.sql, "ORDER BY similarity DESC"@),
        says(st@.sql, "FROM experiment_hypotheses"@),
{
    proof {
        experiment_search_fts_text();
    }
    let st = Statement::all(EXPERIMENT_SEARCH_FTS_SQL)
        .text(query)
        .opt_int4(project_id)
        .opt_text(kind)
        .int8(limit);
    assert(st@.sql == EXPERIMENT_SEARCH_FTS_SQL@);
    st
}

pub const GET_EXPERIMENT_CORE_SQL: &'static str = "SELECT e.id, e.slug, e.title, e.question, e.context, e.kind::text AS kind,
                e.status::text AS status, p.name AS project, e.git_ref, e.plan_ref,
                e.correction, e.created_at, e.updated_at
         FROM experiments e
         LEFT JOIN projects p ON p.id = e.project_id
         WHERE e.valid_to IS NULL
           AND (($1::bigint IS NOT NULL AND e.id = $1) OR ($1::bigint IS NULL AND e.slug = $2))
         ORDER BY e.id DESC
         LIMIT 1";

/// Fetch the core experiment row by id or slug (id wins if both given).
pub fn get_experiment_core(id: Option<i64>, slug: Option<&str>) -> (st: Statement)
    ensures
        st@ == fetches_optional(
            GET_EXPERIMENT_CORE_SQL@,
            seq![
                BindView::OptBigInt(id),
                BindView::OptText(opt_str(slug)),
            ],
        ),
        opens(st@.sql, "SELECT"@),
        takes(st@, "e.id = "@, BindView::OptBigInt(id)),
        takes(st@, "e.slug = "@, BindView::OptText(opt_str(slug))),
        says(st@.sql, "WHERE e.valid_to IS NULL"@),
        says(st@.sql, "ORDER BY e.id DESC"@),
        says(st@.sql, "FROM experiments"@),
{
    proof {
        get_experiment_core_text();
    }
    let st = Statement::optional(GET_EXPERIMENT_CORE_SQL).opt_int8(id).opt_text(slug);
    assert(st@.sql == GET_EXPERIMENT_CORE_SQL@);
    st
}

pub const LIST_EXPERIMENT_RESULTS_SQL: &'static str = "SELECT id, hypothesis_id, test_type, metric_name, statistic, p_value,
                effect_size, ci_low, ci_high, CAST(verdict AS text) AS verdict, accepted,
                rationale, created_at
         FROM experiment_results WHERE experiment_id = $1 ORDER BY id DESC";

/// All decisions for an experiment, newest first.
pub fn list_experiment_results(experiment_id: i64) -> (st: Statement)
    ensures
        st@ == fetches_all(LIST_EXPERIMENT_RESULTS_SQL@, seq![BindView::BigInt(experiment_id)]),
        opens(st@.sql, "SELECT"@),
        takes(st@, "experiment_id = "@, BindView::BigInt(experiment_id)),
        says(st@.sql, "ORDER BY id DESC"@),
        says(st@.sql, "FROM experiment_results"@),
{
    proof {
        list_experiment_results_text();
    }
    let st = Statement::all(LIST_EXPERIMENT_RESULTS_SQL).int8(experiment_id);
    assert(st@.sql == LIST_EXPERIMENT_RESULTS_SQL@);
    st
}

pub const LIST_EXPERIMENT_HYPOTHESES_SQL: &'static str = "SELECT id, experiment_id, statement, primary_metric, unit,
                predicted_direction::text, acceptance_criterion::text,
                criterion_locked_at, planned_n, CAST(verdict AS text)
         FROM experiment_hypotheses
         WHERE experiment_id = $1 AND valid_to IS NULL ORDER BY id";

/// All active hypotheses for an experiment.
pub fn list_experiment_hypotheses(experiment_id: i64) -> (st: Statement)
    ensures
        st@ == fetches_all(LIST_EXPERIMENT_HYPOTHESES_SQL@, seq![BindView::BigInt(experiment_id)]),
        opens(st@.sql, "SELECT"@),
        takes(st@, "experiment_id = "@, BindView::BigInt(experiment_id)),
        says(st@.sql, "ORDER BY id"@),
        says(st@.sql, "FROM experiment_hypotheses"@),
{
    proof {
        list_experiment_hypotheses_text();
    }
    let st = Statement::all(LIST_EXPERIMENT_HYPOTHESES_SQL).int8(experiment_id);
    assert(st@.sql == LIST_EXPERIMENT_HYPOTHESES_SQL@);
    st
}

pub const LIST_EXPERIMENTS_SQL: &'static str = "SELECT e.id, e.slug, e.title, e.kind::text AS kind, e.status::text AS status,
                p.name AS project, e.updated_at
         FROM experiments e
         LEFT JOIN projects p ON p.id = e.project_id
         WHERE e.valid_to IS NULL
           AND ($1::int IS NULL OR e.project_id = $1)
           AND ($2::text IS NULL OR e.kind::text = $2)
           AND ($3::text IS NULL OR e.status::text = $3)
         ORDER BY e.updated_at DESC
         LIMIT $4 OFFSET $5";

/// Paged experiment summaries, filterable by project/kind/status, newest first.
pub fn list_experiments(
    project_id: Option<i32>,
    kind: Option<&str>,
    status: Option<&str>,
    limit: i64,
    offset: i64,
) -> (st: Statement)
    ensures
        st@ == fetches_all(
            LIST_EXPERIMENTS_SQL@,
            seq![
                BindView::OptInt(project_id),
                BindView::OptText(opt_str(kind)),
                BindView::OptText(opt_str(status)),
                BindView::BigInt(limit),
                BindView::BigInt(offset),
            ],
        ),
        opens(st@.sql, "SELECT"@),
        takes(st@, "e.project_id = "@, BindView::OptInt(project_id)),
        takes(st@, "e.kind::text = "@, BindView::OptText(opt_str(kind))),
        takes(st@, "e.status::text = "@, BindView::OptText(opt_str(status))),
        takes(st@, "LIMIT "@, BindView::BigInt(limit)),
        takes(st@, "OFFSET "@, BindView::BigInt(offset)),
        says(st@.sql, "WHERE e.valid_to IS NULL"@),
        says(st@.sql, "ORDER BY e.updated_at DESC"@),
        says(st@.sql, "FROM experiments"@),
{
    proof {
        list_experiments_text();
    }
    let st = Statement::all(LIST_EXPERIMENTS_SQL)
        .opt_int4(project_id)
        .opt_text(kind)
        .opt_text(status)
        .int8(limit)
        .int8(offset);
    assert(st@.sql == LIST_EXPERIMENTS_SQL@);
    st
}

pub const EXPERIMENT_TIMELINE_SQL: &'static str = "SELECT created_at AS at, 'opened' AS event, title AS detail
           FROM experiments WHERE id = $1
         UNION ALL
         SELECT criterion_locked_at, 'criterion_locked', statement
           FROM experiment_hypotheses WHERE experiment_id = $1 AND valid_to IS NULL
         UNION ALL
         SELECT r.created_at, 'run', r.arm_label || ' (' || r.arm_kind::text || ')'
           FROM experiment_runs r WHERE r.experiment_id = $1
         UNION ALL
         SELECT created_at, 'decided',
                CAST(verdict AS text) || ' on ' || metric_name || ' (' || test_type || ')'
           FROM experiment_results WHERE experiment_id = $1
         ORDER BY at";

/// The ordered event stream: open → criterion locks → measurement windows →
/// decisions. Built as a UNION over the subsystem tables' timestamps.
pub fn experiment_timeline(experiment_id: i64) -> (st: Statement)
    ensures
        st@ == fetches_all(EXPERIMENT_TIMELINE_SQL@, seq![BindView::BigInt(experiment_id)]),
        opens(st@.sql, "SELECT"@),
        takes(st@, "experiments WHERE id = "@, BindView::BigInt(experiment_id)),
        says(st@.sql, "ORDER BY at"@),
        says(st@.sql, "FROM experiments"@),
{
    proof {
        experiment_timeline_text();
    }
    let st = Statement::all(EXPERIMENT_TIMELINE_SQL).int8(experiment_id);
    assert(st@.sql == EXPERIMENT_TIMELINE_SQL@);
    st
}

pub const INSERT_EXPERIMENT_ARTIFACT_SQL: &'static str = "INSERT INTO experiment_artifacts
            (experiment_id, project_id, kind, tool, label, content, content_sha256,
             metrics, file_id, embedding, git_ref)
         VALUES ($1, $2, $3, $4, $5, $6, $7, $8::jsonb, $9, $10, $11)
         RETURNING id";

/// Insert an ad-hoc profiling/benchmark/debug artifact. `experiment_id` is
/// `None` for free-standing captures (the "I profiled this, remember it" path).
/// The caller supplies value 0, `embedding`.
pub fn insert_experiment_artifact(
    experiment_id: Option<i64>,
    project_id: Option<i32>,
    kind: &str,
    tool: Option<&str>,
    label: Option<&str>,
    content: Option<&str>,
    content_sha256: Option<&str>,
    metrics_json: &str,
    file_id: Option<i64>,
    git_ref: Option<&str>,
) -> (st: Statement)
    ensures
        st@ == fetches_one(
            INSERT_EXPERIMENT_ARTIFACT_SQL@,
            seq![
                BindView::OptBigInt(experiment_id),
                BindView::OptInt(project_id),
                BindView::Text(kind@),
                BindView::OptText(opt_str(tool)),
                BindView::OptText(opt_str(label)),
                BindView::OptText(opt_str(content)),
                BindView::OptText(opt_str(content_sha256)),
                BindView::Text(metrics_json@),
                BindView::OptBigInt(file_id),
                BindView::Supplied(0),
                BindView::OptText(opt_str(git_ref)),
            ],
        ),
        opens(st@.sql, "INSERT INTO experiment_artifacts"@),
        fills(
            st@,
            "INSERT INTO experiment_artifacts"@,
            "experiment_id"@,
            "VALUES ("@,
            BindView::OptBigInt(experiment_id),
        ),
        fills(
            st@,
            "INSERT INTO experiment_artifacts"@,
            "project_id"@,
            "VALUES ("@,
            BindView::OptInt(project_id),
        ),
        fills(
            st@,
            "INSERT INTO experiment_artifacts"@,
            "kind"@,
            "VALUES ("@,
            BindView::Text(kind@),
        ),
        fills(
            st@,
            "INSERT INTO experiment_artifacts"@,
            "tool"@,
            "VALUES ("@,
            BindView::OptText(opt_str(tool)),
        ),
        fills(
            st@,
            "INSERT INTO experiment_artifacts"@,
            "label"@,
            "VALUES ("@,
            BindView::OptText(opt_str(label)),
        ),
        fills(
            st@,
            "INSERT INTO experiment_artifacts"@,
            "content"@,
            "VALUES ("@,
            BindView::OptText(opt_str(content)),
        ),
        fills(
            st@,
            "INSERT INTO experiment_artifacts"@,
            "content_sha256"@,
            "VALUES ("@,
            BindView::OptText(opt_str(content_sha256)),
        ),
        fills(
            st@,
            "INSERT INTO experiment_artifacts"@,
            "metrics"@,
            "VALUES ("@,
            BindView::Text(metrics_json@),
        ),
        fills(
            st@,
            "INSERT INTO experiment_artifacts"@,
            "file_id"@,
            "VALUES ("@,
            BindView::OptBigInt(file_id),
        ),
        fills(
            st@,
            "INSERT INTO experiment_artifacts"@,
            "embedding"@,
            "VALUES ("@,
            BindView::Supplied(0),
        ),
        fills(
            st@,
            "INSERT INTO experiment_artifacts"@,
            "git_ref"@,
            "VALUES ("@,
            BindView::OptText(opt_str(git_ref)),
        ),
{
    proof {
        insert_experiment_artifact_text();
    }
    let st = Statement::one(INSERT_EXPERIMENT_ARTIFACT_SQL)
        .opt_int8(experiment_id)
        .opt_int4(project_id)
        .text(kind)
        .opt_text(tool)
        .opt_text(label)
        .opt_text(content)
        .opt_text(content_sha256)
        .text(metrics_json)
        .opt_int8(file_id)
        .supplied(0)
        .opt_text(git_ref);
    assert(st@.sql == INSERT_EXPERIMENT_ARTIFACT_SQL@);
    st
}

pub const EXACT_FILE_SQL: &'static str = "SELECT id FROM indexed_files
         WHERE path = $1 AND ($2::int IS NULL OR project_id = $2)
         LIMIT 1";

pub const SUFFIX_FILE_SQL: &'static str = "SELECT id FROM indexed_files
         WHERE path LIKE '%' || $1 AND ($2::int IS NULL OR project_id = $2)
         ORDER BY length(path) ASC
         LIMIT 1";

/// Resolves a path to an indexed file, optionally within a project: first by
/// the exact path, then by the shortest path that ends with it. In the second
/// lookup the wildcards of the database count as such.
pub fn resolve_experiment_file_id(project_id: Option<i32>, path: &str) -> (r: (Fallback, Action))
    ensures
        r.0.wf(),
        !r.0.over,
        r.1@ == ActionView::Run(
            fetches_optional(
                EXACT_FILE_SQL@,
                seq![BindView::Text(path@), BindView::OptInt(project_id)],
            ),
        ),
        r.0.second is Some,
        r.0.second->0@ == fetches_optional(
            SUFFIX_FILE_SQL@,
            seq![BindView::Text(path@), BindView::OptInt(project_id)],
        ),
        opens(r.1@->Run_0.sql, "SELECT"@),
        takes(r.1@->Run_0, "path = "@, BindView::Text(path@)),
        takes(r.1@->Run_0, "project_id = "@, BindView::OptInt(project_id)),
        says(r.1@->Run_0.sql, "FROM indexed_files"@),
        opens(r.0.second->0@.sql, "SELECT"@),
        takes(r.0.second->0@, "path LIKE '%' || "@, BindView::Text(path@)),
        takes(r.0.second->0@, "project_id = "@, BindView::OptInt(project_id)),
        says(r.0.second->0@.sql, "ORDER BY length(path) ASC"@),
        says(r.0.second->0@.sql, "FROM indexed_files"@),
{
    let exact = Statement::optional(EXACT_FILE_SQL).text(path).opt_int4(project_id);
    let suffix = Statement::optional(SUFFIX_FILE_SQL)
        .text(path)
        .opt_int4(project_id);
    assert(exact@ =~= fetches_optional(
        EXACT_FILE_SQL@,
        seq![BindView::Text(path@), BindView::OptInt(project_id)],
    ));
    assert(suffix@ =~= fetches_optional(
        SUFFIX_FILE_SQL@,
        seq![BindView::Text(path@), BindView::OptInt(project_id)],
    ));
    assert(exact@.fetch == Fetch::Optional && suffix@.fetch == Fetch::Optional);
    proof {
        exact_file_text();
        suffix_file_text();
        assert(exact@.sql == EXACT_FILE_SQL@);
        assert(suffix@.sql == SUFFIX_FILE_SQL@);
    }
    Fallback::start(exact, suffix)
}

pub const REFRESH_RUN_SQL: &'static str = "UPDATE experiment_runs
             SET arm_kind = $2::experiment_arm_kind, command_spec = $3::jsonb,
                 run_plan = $4::jsonb, host_meta = $5::jsonb, git_ref = $6,
                 runner = $7, seed = $8, status = 'complete', finished_at = NOW()
             WHERE id = $1";

pub const CREATE_RUN_SQL: &'static str = "INSERT INTO experiment_runs
            (id, experiment_id, hypothesis_id, arm_label, arm_kind, command_spec,
             run_plan, host_meta, git_ref, runner, seed, status, started_at, finished_at)
         VALUES ($1, $2, $3, $4, $5::experiment_arm_kind, $6::jsonb, $7::jsonb,
                 $8::jsonb, $9, $10, $11, 'complete', NOW(), NOW())";

pub const INSERT_SAMPLES_SQL: &'static str = "INSERT INTO experiment_samples
            (run_id, arm, metric_name, replicate_index, value, unit_key, is_warmup)
         SELECT $1, $2, $3, t.idx, t.val, t.uk, $7
         FROM UNNEST($4::int[], $5::double precision[], $6::text[]) AS t(idx, val, uk)";

pub const MARK_MEASURING_SQL: &'static str = "UPDATE experiments SET status = 'measuring'::experiment_status, updated_at = NOW()
             WHERE id = $1";

/// One measurement: the run it belongs to, identified by experiment,
/// hypothesis and arm, and its samples. The values of the samples stay with
/// the caller.
#[derive(Debug)]
pub struct RecordExperimentMeasurement {
    pub experiment_id: i64,
    pub hypothesis_id: Option<i64>,
    pub arm_label: String,
    pub arm_kind: String,
    pub command_spec_json: String,
    pub run_plan_json: String,
    pub host_meta_json: String,
    pub git_ref: Option<String>,
    pub runner: Option<String>,
    pub seed: i64,
    pub metric_name: String,
    /// How many samples the caller holds.
    pub sample_count: usize,
    /// One key per sample, for paired tests.
    pub unit_keys: Option<Vec<String>>,
    pub is_warmup: bool,
}

/// The lock key of a run: the two identifiers mixed, and the FNV-1a hash of
/// the arm's label. No hypothesis counts as number -1.
pub open spec fn run_lock_key(
    experiment_id: i64,
    hypothesis_id: Option<i64>,
    arm_label: Seq<char>,
) -> (i32, i32) {
    let h: i64 = match hypothesis_id {
        Some(x) => x,
        None => NO_HYPOTHESIS,
    };
    let high = (experiment_id as u64) ^ rotated(h as u64);
    ((high as u32) as i32, fnv1a(HIGH_BASIS, encode_utf8(arm_label)) as i32)
}

/// Stands for a missing hypothesis in a lock key.
pub const NO_HYPOTHESIS: i64 = -1;

/// A word rotated left by 17 bits.
pub open spec fn rotated(x: u64) -> u64 {
    (x << 17) | (x >> 47)
}

/// The lock key of a run.
pub fn experiment_run_advisory_lock_key(
    experiment_id: i64,
    hypothesis_id: Option<i64>,
    arm_label: &str,
) -> (r: (i32, i32))
    ensures
        r == run_lock_key(experiment_id, hypothesis_id, arm_label@),
{
    let h: i64 = match hypothesis_id {
        Some(x) => x,
        None => NO_HYPOTHESIS,
    };
    let x: u64 = h as u64;
    let high: u64 = (experiment_id as u64) ^ ((x << 17) | (x >> 47));
    let low: u32 = fnv1a32(HIGH_BASIS, arm_label.as_bytes());
    ((high as u32) as i32, low as i32)
}

/// Rotation loses nothing: rotating back gives the word again.
pub proof fn law_rotation_is_reversible(x: u64)
    ensures
        (rotated(x) >> 17) | (rotated(x) << 47) == x,
{
    assert(((((x << 17) | (x >> 47)) >> 17) | (((x << 17) | (x >> 47)) << 47)) == x) by (
        bit_vector);
}

/// Looking up the run that a measurement belongs to.
pub open spec fn finds_run(r: RecordExperimentMeasurement) -> StatementView {
    fetches_optional(
        FIND_EXPERIMENT_RUN_ID_SQL@,
        seq![
            BindView::BigInt(r.experiment_id),
            BindView::OptBigInt(r.hypothesis_id),
            BindView::Text(r.arm_label@),
        ],
    )
}

/// Writing a run: an existing one is refreshed, a new one inserted. The
/// caller supplies value 0, the run's id.
pub open spec fn writes_run(found: bool, r: RecordExperimentMeasurement) -> StatementView {
    if found {
        executes(
            REFRESH_RUN_SQL@,
            seq![
                BindView::Supplied(0),
                BindView::Text(r.arm_kind@),
                BindView::Text(r.command_spec_json@),
                BindView::Text(r.run_plan_json@),
                BindView::Text(r.host_meta_json@),
                BindView::OptText(opt_text(r.git_ref)),
                BindView::OptText(opt_text(r.runner)),
                BindView::BigInt(r.seed),
            ],
        )
    } else {
        executes(
            CREATE_RUN_SQL@,
            seq![
                BindView::Supplied(0),
                BindView::BigInt(r.experiment_id),
                BindView::OptBigInt(r.hypothesis_id),
                BindView::Text(r.arm_label@),
                BindView::Text(r.arm_kind@),
                BindView::Text(r.command_spec_json@),
                BindView::Text(r.run_plan_json@),
                BindView::Text(r.host_meta_json@),
                BindView::OptText(opt_text(r.git_ref)),
                BindView::OptText(opt_text(r.runner)),
                BindView::BigInt(r.seed),
            ],
        )
    }
}

/// Writes a run: an existing one is refreshed, a new one inserted. The
/// caller supplies value 0, the run's id.
pub fn upsert_experiment_run(found: bool, r: &RecordExperimentMeasurement) -> (st: Statement)
    ensures
        st@ == writes_run(found, *r),
        found ==> opens(st@.sql, "UPDATE experiment_runs"@),
        found ==> takes(st@, "WHERE id = "@, BindView::Supplied(0)),
        found ==> takes(st@, "arm_kind = "@, BindView::Text(r.arm_kind@)),
        found ==> takes(st@, "command_spec = "@, BindView::Text(r.command_spec_json@)),
        found ==> takes(st@, "run_plan = "@, BindView::Text(r.run_plan_json@)),
        found ==> takes(st@, "host_meta = "@, BindView::Text(r.host_meta_json@)),
        found ==> takes(st@, "git_ref = "@, BindView::OptText(opt_text(r.git_ref))),
        found ==> takes(st@, "runner = "@, BindView::OptText(opt_text(r.runner))),
        found ==> takes(st@, "seed = "@, BindView::BigInt(r.seed)),
        !found ==> opens(st@.sql, "INSERT INTO experiment_runs"@),
        !found ==> fills(
            st@,
            "INSERT INTO experiment_runs"@,
            "id"@,
            "VALUES ("@,
            BindView::Supplied(0),
        ),
        !found ==> fills(
            st@,
            "INSERT INTO experiment_runs"@,
            "experiment_id"@,
            "VALUES ("@,
            BindView::BigInt(r.experiment_id),
        ),
        !found ==> fills(
            st@,
            "INSERT INTO experiment_runs"@,
            "hypothesis_id"@,
            "VALUES ("@,
            BindView::OptBigInt(r.hypothesis_id),
        ),
        !found ==> fills(
            st@,
            "INSERT INTO experiment_runs"@,
            "arm_label"@,
            "VALUES ("@,
            BindView::Text(r.arm_label@),
        ),
        !found ==> fills(
            st@,
            "INSERT INTO experiment_runs"@,
            "arm_kind"@,
            "VALUES ("@,
            BindView::Text(r.arm_kind@),
        ),
        !found ==> fills(
            st@,
            "INSERT INTO experiment_runs"@,
            "command_spec"@,
            "VALUES ("@,
            BindView::Text(r.command_spec_json@),
        ),
        !found ==> fills(
            st@,
            "INSERT INTO experiment_runs"@,
            "run_plan"@,
            "VALUES ("@,
            BindView::Text(r.run_plan_json@),
        ),
        !found ==> fills(
            st@,
            "INSERT INTO experiment_runs"@,
            "host_meta"@,
            "VALUES ("@,
            BindView::Text(r.host_meta_json@),
        ),
        !found ==> fills(
            st@,
            "INSERT INTO experiment_runs"@,
            "git_ref"@,
            "VALUES ("@,
            BindView::OptText(opt_text(r.git_ref)),
        ),
        !found ==> fills(
            st@,
            "INSERT INTO experiment_runs"@,
            "runner"@,
            "VALUES ("@,
            BindView::OptText(opt_text(r.runner)),
        ),
        !found ==> fills(
            st@,
            "INSERT INTO experiment_runs"@,
            "seed"@,
            "VALUES ("@,
            BindView::BigInt(r.seed),
        ),
{
    proof {
        law_run_is_refreshed_or_created(found, *r);
    }
    if found {
        Statement::execute(REFRESH_RUN_SQL)
            .supplied(0)
            .text(r.arm_kind.as_str())
            .text(r.command_spec_json.as_str())
            .text(r.run_plan_json.as_str())
            .text(r.host_meta_json.as_str())
            .opt_text(opt_as_str(&r.git_ref))
            .opt_text(opt_as_str(&r.runner))
            .int8(r.seed)
    } else {
        Statement::execute(CREATE_RUN_SQL)
            .supplied(0)
            .int8(r.experiment_id)
            .opt_int8(r.hypothesis_id)
            .text(r.arm_label.as_str())
            .text(r.arm_kind.as_str())
            .text(r.command_spec_json.as_str())
            .text(r.run_plan_json.as_str())
            .text(r.host_meta_json.as_str())
            .opt_text(opt_as_str(&r.git_ref))
            .opt_text(opt_as_str(&r.runner))
            .int8(r.seed)
    }
}

/// The numbers of `n` samples.
pub open spec fn sample_indices(n: usize) -> Seq<i32> {
    let m = n as i32;
    Seq::new(
        if m > 0 {
            m as nat
        } else {
            0
        },
        |i: int| i as i32,
    )
}

/// The keys of `n` samples: those given, or none for each.
pub open spec fn sample_keys(n: usize, keys: Option<Seq<Seq<char>>>) -> Seq<Option<Seq<char>>> {
    match keys {
        Some(k) => k.map_values(|s: Seq<char>| Some(s)),
        None => Seq::new(n as nat, |i: int| None::<Seq<char>>),
    }
}

/// Appending the samples of a run. The caller supplies value 0, the run's
/// id, and value 1, the samples.
pub open spec fn inserts_samples(
    arm: Seq<char>,
    metric_name: Seq<char>,
    n: usize,
    keys: Option<Seq<Seq<char>>>,
    is_warmup: bool,
) -> StatementView {
    executes(
        INSERT_SAMPLES_SQL@,
        seq![
            BindView::Supplied(0),
            BindView::Text(arm),
            BindView::Text(metric_name),
            BindView::IntArray(sample_indices(n)),
            BindView::Supplied(1),
            BindView::OptTextArray(sample_keys(n, keys)),
            BindView::Bool(is_warmup),
        ],
    )
}

/// The texts in an optional list of strings.
pub open spec fn opt_key_texts(k: Option<Vec<String>>) -> Option<Seq<Seq<char>>> {
    match k {
        Some(v) => Some(texts(v@)),
        None => None,
    }
}

fn indices(n: usize) -> (r: Vec<i32>)
    ensures
        r@ == sample_indices(n),
{
    let m: i32 = n as i32;
    let mut out: Vec<i32> = Vec::new();
    let mut i: i32 = 0;
    while i < m
        invariant
            0 <= i,
            i <= m || m <= 0,
            m <= 0 ==> i == 0,
            out@.len() == i,
            forall|j: int| 0 <= j < i ==> out@[j] == j,
        decreases m - i,
    {
        out.push(i);
        i = i + 1;
    }
    assert(out@ =~= sample_indices(n));
    out
}

fn keys_of(n: usize, keys: &Option<Vec<String>>) -> (r: Vec<Option<String>>)
    ensures
        opt_texts(r@) == sample_keys(n, opt_key_texts(*keys)),
{
    let mut out: Vec<Option<String>> = Vec::new();
    match keys {
        Some(k) => {
            let mut i: usize = 0;
            while i < k.len()
                invariant
                    i <= k.len(),
                    out.len() == i,
                    forall|j: int| 0 <= j < i ==> opt_text(#[trigger] out@[j]) == Some(k@[j]@),
                decreases k.len() - i,
            {
                out.push(Some(k[i].clone()));
                i = i + 1;
            }
        },
        None => {
            let mut i: usize = 0;
            while i < n
                invariant
                    i <= n,
                    out.len() == i,
                    forall|j: int| 0 <= j < i ==> (#[trigger] out@[j]) is None,
                decreases n - i,
            {
                out.push(None);
                i = i + 1;
            }
        },
    }
    assert(opt_texts(out@) =~= sample_keys(n, opt_key_texts(*keys)));
    out
}

/// Appends the samples of a run; no samples: nothing to send, and no row is
/// inserted. The caller supplies value 0, the run's id, and value 1, the
/// samples.
pub fn insert_experiment_samples(
    arm: &str,
    metric_name: &str,
    sample_count: usize,
    unit_keys: &Option<Vec<String>>,
    is_warmup: bool,
) -> (r: Option<Statement>)
    ensures
        r is None <==> sample_count == 0,
        r matches Some(st) ==> st@ == inserts_samples(
            arm@,
            metric_name@,
            sample_count,
            opt_key_texts(*unit_keys),
            is_warmup,
        ),
        r matches Some(st) ==> opens(st@.sql, "INSERT INTO experiment_samples"@),
        r matches Some(st) ==> fills(
            st@,
            "INSERT INTO experiment_samples"@,
            "run_id"@,
            "SELECT "@,
            BindView::Supplied(0),
        ),
        r matches Some(st) ==> fills(
            st@,
            "INSERT INTO experiment_samples"@,
            "arm"@,
            "SELECT "@,
            BindView::Text(arm@),
        ),
        r matches Some(st) ==> fills(
            st@,
            "INSERT INTO experiment_samples"@,
            "metric_name"@,
            "SELECT "@,
            BindView::Text(metric_name@),
        ),
        r matches Some(st) ==> fills(
            st@,
            "INSERT INTO experiment_samples"@,
            "is_warmup"@,
            "SELECT "@,
            BindView::Bool(is_warmup),
        ),
        r matches Some(st) ==> fills(
            st@,
            "AS t"@,
            "idx"@,
            "UNNEST("@,
            BindView::IntArray(sample_indices(sample_count)),
        ),
        r matches Some(st) ==> fills(st@, "AS t"@, "val"@, "UNNEST("@, BindView::Supplied(1)),
        r matches Some(st) ==> fills(
            st@,
            "AS t"@,
            "uk"@,
            "UNNEST("@,
            BindView::OptTextArray(sample_keys(sample_count, opt_key_texts(*unit_keys))),
        ),
{
    proof {
        law_inserts_samples_stands_for_its_values(
            arm@,
            metric_name@,
            sample_count,
            opt_key_texts(*unit_keys),
            is_warmup,
        );
    }
    if sample_count == 0 {
        return None;
    }
    let st = Statement::execute(INSERT_SAMPLES_SQL)
        .supplied(0)
        .text(arm)
        .text(metric_name)
        .bind(Bind::IntArray(indices(sample_count)))
        .supplied(1)
        .bind(Bind::OptTextArray(keys_of(sample_count, unit_keys)))
        .flag(is_warmup);
    proof {
        assert(st@ == inserts_samples(
            arm@,
            metric_name@,
            sample_count,
            opt_key_texts(*unit_keys),
            is_warmup,
        ));
    }
    Some(st)
}

/// Marking an experiment as being measured.
pub open spec fn marks_measuring(experiment_id: i64) -> StatementView {
    executes(MARK_MEASURING_SQL@, seq![BindView::BigInt(experiment_id)])
}

/// Where the recording of a measurement stands.
#[derive(Debug, Clone, Copy, PartialEq, Eq, Structural)]
pub enum MeasurementStage {
    Opening,
    Locking,
    Finding,
    Writing,
    Sampling,
    Marking,
    Committing,
    Finished,
}

/// Records a measurement in one transaction: takes the lock of the run,
/// finds or creates the run, appends the samples and marks the experiment as
/// being measured. The caller keeps the run's id (value 0): the one found, or
/// a fresh one; and the samples (value 1).
#[derive(Debug)]
pub struct Measurement {
    pub input: RecordExperimentMeasurement,
    pub stage: MeasurementStage,
    /// Whether the run was there already.
    pub found: bool,
    pub inserted_samples: u64,
}

/// Prepares a measurement; the first request opens the transaction.
pub fn record_experiment_measurement(input: RecordExperimentMeasurement) -> (r: (
    Measurement,
    Action,
))
    ensures
        r.0 == (Measurement {
            input,
            stage: MeasurementStage::Opening,
            found: false,
            inserted_samples: 0,
        }),
        r.0.wf(),
        r.1@ == r.0.request(),
{
    (
        Measurement {
            input,
            stage: MeasurementStage::Opening,
            found: false,
            inserted_samples: 0,
        },
        Action::Begin,
    )
}

impl Measurement {
    /// The request that is made on entering a stage.
    pub open spec fn request(self) -> ActionView {
        let r = self.input;
        match self.stage {
            MeasurementStage::Opening => ActionView::Begin,
            MeasurementStage::Locking => ActionView::Run(
                takes_lock(run_lock_key(r.experiment_id, r.hypothesis_id, r.arm_label@)),
            ),
            MeasurementStage::Finding => ActionView::Hold(finds_run(r)),
            MeasurementStage::Writing => ActionView::Run(writes_run(self.found, r)),
            MeasurementStage::Sampling => ActionView::Run(
                inserts_samples(
                    r.arm_label@,
                    r.metric_name@,
                    r.sample_count,
                    opt_key_texts(r.unit_keys),
                    r.is_warmup,
                ),
            ),
            MeasurementStage::Marking => ActionView::Run(marks_measuring(r.experiment_id)),
            MeasurementStage::Committing => ActionView::Commit,
            MeasurementStage::Finished => ActionView::Done,
        }
    }

    /// The stage after an answer, with what the answer told.
    pub open spec fn next(self, reply: ReplyView) -> Measurement {
        match (self.stage, reply) {
            (MeasurementStage::Opening, _) => Measurement {
                stage: MeasurementStage::Locking,
                ..self
            },
            (MeasurementStage::Locking, _) => Measurement {
                stage: MeasurementStage::Finding,
                ..self
            },
            (MeasurementStage::Finding, ReplyView::Present(b)) => Measurement {
                stage: MeasurementStage::Writing,
                found: b,
                ..self
            },
            (MeasurementStage::Writing, _) => Measurement {
                stage: if self.input.sample_count == 0 {
                    MeasurementStage::Marking
                } else {
                    MeasurementStage::Sampling
                },
                ..self
            },
            (MeasurementStage::Sampling, ReplyView::Affected(n)) => Measurement {
                stage: MeasurementStage::Marking,
                inserted_samples: n,
                ..self
            },
            (MeasurementStage::Marking, _) => Measurement {
                stage: MeasurementStage::Committing,
                ..self
            },
            (MeasurementStage::Committing, _) => Measurement {
                stage: MeasurementStage::Finished,
                ..self
            },
            _ => self,
        }
    }

    /// What every reachable state satisfies.
    pub open spec fn wf(self) -> bool {
        &&& self.stage is Sampling ==> self.input.sample_count > 0
        &&& self.input.sample_count == 0 ==> self.inserted_samples == 0
    }

    /// Takes the answer to the last request and gives the next.
    pub fn step(&mut self, reply: &Reply) -> (r: Action)
        requires
            old(self).wf(),
            fits(awaited(old(self).request()), reply@),
        ensures
            *final(self) == old(self).next(reply@),
            final(self).wf(),
            r@ == final(self).request(),
    {
        match (self.stage, reply) {
            (MeasurementStage::Opening, _) => {
                self.stage = MeasurementStage::Locking;
                Action::Run(
                    take_lock(
                        experiment_run_advisory_lock_key(
                            self.input.experiment_id,
                            self.input.hypothesis_id,
                            self.input.arm_label.as_str(),
                        ),
                    ),
                )
            },
            (MeasurementStage::Locking, _) => {
                self.stage = MeasurementStage::Finding;
                Action::Hold(
                    find_experiment_run_id(
                        self.input.experiment_id,
                        self.input.hypothesis_id,
                        self.input.arm_label.as_str(),
                    ),
                )
            },
            (MeasurementStage::Finding, Reply::Present(b)) => {
                self.stage = MeasurementStage::Writing;
                self.found = *b;
                Action::Run(upsert_experiment_run(*b, &self.input))
            },
            (MeasurementStage::Writing, _) => {
                let st = insert_experiment_samples(
                    self.input.arm_label.as_str(),
                    self.input.metric_name.as_str(),
                    self.input.sample_count,
                    &self.input.unit_keys,
                    self.input.is_warmup,
                );
                match st {
                    Some(s) => {
                        self.stage = MeasurementStage::Sampling;
                        Action::Run(s)
                    },
                    None => {
                        self.stage = MeasurementStage::Marking;
                        Action::Run(
                            Statement::execute(MARK_MEASURING_SQL).int8(self.input.experiment_id),
                        )
                    },
                }
            },
            (MeasurementStage::Sampling, Reply::Affected(n)) => {
                self.stage = MeasurementStage::Marking;
                self.inserted_samples = *n;
                Action::Run(Statement::execute(MARK_MEASURING_SQL).int8(self.input.experiment_id))
            },
            (MeasurementStage::Marking, _) => {
                self.stage = MeasurementStage::Committing;
                Action::Commit
            },
            (MeasurementStage::Committing, _) => {
                self.stage = MeasurementStage::Finished;
                Action::Done
            },
            _ => Action::Done,
        }
    }
}

/// A measurement takes exactly one advisory lock, before anything else in
/// the transaction, and it commits only after the experiment was marked.
pub proof fn law_measurement_locks_first(m: Measurement, reply: ReplyView)
    requires
        m.wf(),
        fits(awaited(m.request()), reply),
    ensures
        m.next(reply).wf(),
        m.next(reply).stage is Locking <==> m.stage is Opening,
        m.next(reply).stage is Committing <==> m.stage is Marking,
        m.next(reply).stage is Writing <==> m.stage is Finding,
{
}

/// A decision on a hypothesis. The caller supplies the two run ids (values
/// 0 and 1), the statistic, its degrees of freedom, the p-value and the
/// effect size (2 to 5), the confidence interval and its level (6 to 8) and
/// the embedding (9).
#[derive(Debug)]
pub struct InsertExperimentResult {
    pub experiment_id: i64,
    pub hypothesis_id: i64,
    pub test_type: String,
    pub metric_name: String,
    pub effect_size_kind: Option<String>,
    pub verdict: String,
    pub accepted: bool,
    pub correction: Option<String>,
    pub criterion_snapshot_json: String,
    pub test_result_json: String,
    pub rationale: Option<String>,
    pub decided_by: Option<String>,
    pub observation_id: Option<i64>,
}

pub const INSERT_EXPERIMENT_RESULT_SQL: &'static str = "INSERT INTO experiment_results
            (experiment_id, hypothesis_id, test_type, metric_name, control_run_id,
             treatment_run_id, statistic, df, p_value, effect_size, effect_size_kind,
             ci_low, ci_high, ci_level, verdict, accepted, correction,
             criterion_snapshot, test_result, rationale, decided_by, embedding,
             observation_id)
         VALUES ($1, $2, $3, $4, $5, $6, $7, $8, $9, $10, $11, $12, $13, $14,
                 $15::hypothesis_verdict, $16, $17, $18::jsonb, $19::jsonb, $20, $21, $22, $23)
         RETURNING id";

/// Inserting a decision.
pub open spec fn inserts_result(r: InsertExperimentResult) -> StatementView {
    fetches_one(
        INSERT_EXPERIMENT_RESULT_SQL@,
        seq![
            BindView::BigInt(r.experiment_id),
            BindView::BigInt(r.hypothesis_id),
            BindView::Text(r.test_type@),
            BindView::Text(r.metric_name@),
            BindView::Supplied(0),
            BindView::Supplied(1),
            BindView::Supplied(2),
            BindView::Supplied(3),
            BindView::Supplied(4),
            BindView::Supplied(5),
            BindView::OptText(opt_text(r.effect_size_kind)),
            BindView::Supplied(6),
            BindView::Supplied(7),
            BindView::Supplied(8),
            BindView::Text(r.verdict@),
            BindView::Bool(r.accepted),
            BindView::OptText(opt_text(r.correction)),
            BindView::Text(r.criterion_snapshot_json@),
            BindView::Text(r.test_result_json@),
            BindView::OptText(opt_text(r.rationale)),
            BindView::OptText(opt_text(r.decided_by)),
            BindView::Supplied(9),
            BindView::OptBigInt(r.observation_id),
        ],
    )
}

fn result_statement(r: &InsertExperimentResult) -> (st: Statement)
    ensures
        st@ == inserts_result(*r),
{
    Statement::one(INSERT_EXPERIMENT_RESULT_SQL)
        .int8(r.experiment_id)
        .int8(r.hypothesis_id)
        .text(r.test_type.as_str())
        .text(r.metric_name.as_str())
        .supplied(0)
        .supplied(1)
        .supplied(2)
        .supplied(3)
        .supplied(4)
        .supplied(5)
        .opt_text(opt_as_str(&r.effect_size_kind))
        .supplied(6)
        .supplied(7)
        .supplied(8)
        .text(r.verdict.as_str())
        .flag(r.accepted)
        .opt_text(opt_as_str(&r.correction))
        .text(r.criterion_snapshot_json.as_str())
        .text(r.test_result_json.as_str())
        .opt_text(opt_as_str(&r.rationale))
        .opt_text(opt_as_str(&r.decided_by))
        .supplied(9)
        .opt_int8(r.observation_id)
}

/// Inserts a decision and returns its id.
pub fn insert_experiment_result(r: &InsertExperimentResult) -> (st: Statement)
    ensures
        st@ == inserts_result(*r),
        opens(st@.sql, "INSERT INTO experiment_results"@),
        fills(
            st@,
            "INSERT INTO experiment_results"@,
            "experiment_id"@,
            "VALUES ("@,
            BindView::BigInt(r.experiment_id),
        ),
        fills(
            st@,
            "INSERT INTO experiment_results"@,
            "hypothesis_id"@,
            "VALUES ("@,
            BindView::BigInt(r.hypothesis_id),
        ),
        fills(
            st@,
            "INSERT INTO experiment_results"@,
            "test_type"@,
            "VALUES ("@,
            BindView::Text(r.test_type@),
        ),
        fills(
            st@,
            "INSERT INTO experiment_results"@,
            "metric_name"@,
            "VALUES ("@,
            BindView::Text(r.metric_name@),
        ),
        fills(
            st@,
            "INSERT INTO experiment_results"@,
            "control_run_id"@,
            "VALUES ("@,
            BindView::Supplied(0),
        ),
        fills(
            st@,
            "INSERT INTO experiment_results"@,
            "treatment_run_id"@,
            "VALUES ("@,
            BindView::Supplied(1),
        ),
        fills(
            st@,
            "INSERT INTO experiment_results"@,
            "statistic"@,
            "VALUES ("@,
            BindView::Supplied(2),
        ),
        fills(st@, "INSERT INTO experiment_results"@, "df"@, "VALUES ("@, BindView::Supplied(3)),
        fills(
            st@,
            "INSERT INTO experiment_results"@,
            "p_value"@,
            "VALUES ("@,
            BindView::Supplied(4),
        ),
        fills(
            st@,
            "INSERT INTO experiment_results"@,
            "effect_size"@,
            "VALUES ("@,
            BindView::Supplied(5),
        ),
        fills(
            st@,
            "INSERT INTO experiment_results"@,
            "effect_size_kind"@,
            "VALUES ("@,
            BindView::OptText(opt_text(r.effect_size_kind)),
        ),
        fills(
            st@,
            "INSERT INTO experiment_results"@,
            "ci_low"@,
            "VALUES ("@,
            BindView::Supplied(6),
        ),
        fills(
            st@,
            "INSERT INTO experiment_results"@,
            "ci_high"@,
            "VALUES ("@,
            BindView::Supplied(7),
        ),
        fills(
            st@,
            "INSERT INTO experiment_results"@,
            "ci_level"@,
            "VALUES ("@,
            BindView::Supplied(8),
        ),
        fills(
            st@,
            "INSERT INTO experiment_results"@,
            "verdict"@,
            "VALUES ("@,
            BindView::Text(r.verdict@),
        ),
        fills(
            st@,
            "INSERT INTO experiment_results"@,
            "accepted"@,
            "VALUES ("@,
            BindView::Bool(r.accepted),
        ),
        fills(
            st@,
            "INSERT INTO experiment_results"@,
            "correction"@,
            "VALUES ("@,
            BindView::OptText(opt_text(r.correction)),
        ),
        fills(
            st@,
            "INSERT INTO experiment_results"@,
            "criterion_snapshot"@,
            "VALUES ("@,
            BindView::Text(r.criterion_snapshot_json@),
        ),
        fills(
            st@,
            "INSERT INTO experiment_results"@,
            "test_result"@,
            "VALUES ("@,
            BindView::Text(r.test_result_json@),
        ),
        fills(
            st@,
            "INSERT INTO experiment_results"@,
            "rationale"@,
            "VALUES ("@,
            BindView::OptText(opt_text(r.rationale)),
        ),
        fills(
            st@,
            "INSERT INTO experiment_results"@,
            "decided_by"@,
            "VALUES ("@,
            BindView::OptText(opt_text(r.decided_by)),
        ),
        fills(
            st@,
            "INSERT INTO experiment_results"@,
            "embedding"@,
            "VALUES ("@,
            BindView::Supplied(9),
        ),
        fills(
            st@,
            "INSERT INTO experiment_results"@,
            "observation_id"@,
            "VALUES ("@,
            BindView::OptBigInt(r.observation_id),
        ),
{
    proof {
        law_inserts_result_stands_for_its_values(*r);
    }
    result_statement(r)
}

/// Where the publication of a decision stands.
#[derive(Debug, Clone, Copy, PartialEq, Eq, Structural)]
pub enum DecisionStage {
    Opening,
    Inserting,
    JudgingHypothesis,
    ClosingExperiment,
    LinkingResult,
    LinkingExperiment,
    Committing,
    Finished,
}

/// Publishes a decision in one transaction: the decision itself, the verdict
/// of the hypothesis, the state of the experiment and, where an observation
/// describes the decision, the links to it.
#[derive(Debug)]
pub struct Decision {
    pub input: InsertExperimentResult,
    pub stage: DecisionStage,
    pub result_id: i64,
}

/// Prepares a decision; the first request opens the transaction.
pub fn insert_experiment_decision(input: InsertExperimentResult) -> (r: (Decision, Action))
    ensures
        r.0 == (Decision { input, stage: DecisionStage::Opening, result_id: 0 }),
        r.0.wf(),
        r.1@ == r.0.request(),
{
    (Decision { input, stage: DecisionStage::Opening, result_id: 0 }, Action::Begin)
}

impl Decision {
    /// The request that is made on entering a stage.
    pub open spec fn request(self) -> ActionView {
        let r = self.input;
        let oid: i64 = match r.observation_id {
            Some(x) => x,
            None => 0,
        };
        match self.stage {
            DecisionStage::Opening => ActionView::Begin,
            DecisionStage::Inserting => ActionView::Run(inserts_result(r)),
            DecisionStage::JudgingHypothesis => ActionView::Run(
                executes(
                    SET_HYPOTHESIS_VERDICT_SQL@,
                    seq![BindView::BigInt(r.hypothesis_id), BindView::Text(r.verdict@)],
                ),
            ),
            DecisionStage::ClosingExperiment => ActionView::Run(
                executes(
                    SET_EXPERIMENT_STATUS_SQL@,
                    seq![BindView::BigInt(r.experiment_id), BindView::Text("decided"@)],
                ),
            ),
            DecisionStage::LinkingResult => ActionView::Run(
                executes(
                    SET_RESULT_OBSERVATION_ID_SQL@,
                    seq![BindView::BigInt(self.result_id), BindView::BigInt(oid)],
                ),
            ),
            DecisionStage::LinkingExperiment => ActionView::Run(
                executes(
                    SET_EXPERIMENT_OBSERVATION_ID_SQL@,
                    seq![BindView::BigInt(r.experiment_id), BindView::BigInt(oid)],
                ),
            ),
            DecisionStage::Committing => ActionView::Commit,
            DecisionStage::Finished => ActionView::Done,
        }
    }

    /// The stage after an answer.
    pub open spec fn next(self, reply: ReplyView) -> Decision {
        match (self.stage, reply) {
            (DecisionStage::Opening, _) => Decision { stage: DecisionStage::Inserting, ..self },
            (DecisionStage::Inserting, ReplyView::Ids(ids)) => Decision {
                stage: DecisionStage::JudgingHypothesis,
                result_id: ids[0],
                ..self
            },
            (DecisionStage::JudgingHypothesis, _) => Decision {
                stage: DecisionStage::ClosingExperiment,
                ..self
            },
            (DecisionStage::ClosingExperiment, _) => Decision {
                stage: if self.input.observation_id is Some {
                    DecisionStage::LinkingResult
                } else {
                    DecisionStage::Committing
                },
                ..self
            },
            (DecisionStage::LinkingResult, _) => Decision {
                stage: DecisionStage::LinkingExperiment,
                ..self
            },
            (DecisionStage::LinkingExperiment, _) => Decision {
                stage: DecisionStage::Committing,
                ..self
            },
            (DecisionStage::Committing, _) => Decision { stage: DecisionStage::Finished, ..self },
            _ => self,
        }
    }

    /// What every reachable state satisfies.
    pub open spec fn wf(self) -> bool {
        self.stage is LinkingResult || self.stage is LinkingExperiment
            ==> self.input.observation_id is Some
    }

    /// Takes the answer to the last request and gives the next.
    pub fn step(&mut self, reply: &Reply) -> (r: Action)
        requires
            old(self).wf(),
            fits(awaited(old(self).request()), reply@),
        ensures
            *final(self) == old(self).next(reply@),
            final(self).wf(),
            r@ == final(self).request(),
    {
        match (self.stage, reply) {
            (DecisionStage::Opening, _) => {
                self.stage = DecisionStage::Inserting;
                Action::Run(insert_experiment_result(&self.input))
            },
            (DecisionStage::Inserting, Reply::Ids(ids)) => {
                self.stage = DecisionStage::JudgingHypothesis;
                self.result_id = ids[0];
                Action::Run(
                    set_hypothesis_verdict(
                        self.input.hypothesis_id,
                        self.input.verdict.as_str(),
                    ),
                )
            },
            (DecisionStage::JudgingHypothesis, _) => {
                self.stage = DecisionStage::ClosingExperiment;
                Action::Run(set_experiment_status(self.input.experiment_id, "decided"))
            },
            (DecisionStage::ClosingExperiment, _) => match self.input.observation_id {
                Some(oid) => {
                    self.stage = DecisionStage::LinkingResult;
                    Action::Run(set_result_observation_id(self.result_id, oid))
                },
                None => {
                    self.stage = DecisionStage::Committing;
                    Action::Commit
                },
            },
            (DecisionStage::LinkingResult, _) => {
                self.stage = DecisionStage::LinkingExperiment;
                let oid: i64 = match self.input.observation_id {
                    Some(x) => x,
                    None => 0,
                };
                Action::Run(set_experiment_observation_id(self.input.experiment_id, oid))
            },
            (DecisionStage::LinkingExperiment, _) => {
                self.stage = DecisionStage::Committing;
                Action::Commit
            },
            (DecisionStage::Committing, _) => {
                self.stage = DecisionStage::Finished;
                Action::Done
            },
            _ => Action::Done,
        }
    }
}

/// A decision is published whole: the commit is asked for only after the
/// experiment was closed and, where there is an observation, linked.
pub proof fn law_decision_commits_last(d: Decision, reply: ReplyView)
    requires
        d.wf(),
        fits(awaited(d.request()), reply),
    ensures
        d.next(reply).wf(),
        d.next(reply).stage is Committing <==> d.stage is LinkingExperiment || (
        d.stage is ClosingExperiment && d.input.observation_id is None),
{
}

} // verus!
