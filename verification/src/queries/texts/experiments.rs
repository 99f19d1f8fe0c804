//! What the statements of `experiments` say.
use vstd::prelude::*;

use crate::meaning::{
    fills, item, lined_up_at, lines_up, mentions, opens, part_at, past, past_blanks, says, takes,
};
use crate::protocol::ActionView;
use crate::queries::experiments::{
    finds_run, inserts_result, inserts_samples, marks_measuring, opt_key_texts, sample_indices,
    sample_keys, writes_run, Decision, InsertExperimentResult, Measurement,
    RecordExperimentMeasurement, CREATE_RUN_SQL, EARLIEST_MEASUREMENT_TIME_SQL, EXACT_FILE_SQL,
    EXPERIMENT_SEARCH_FTS_SQL, EXPERIMENT_SEARCH_VECTOR_SQL, EXPERIMENT_TIMELINE_SQL,
    FIND_EXPERIMENT_RUN_ID_SQL, GET_EXPERIMENT_CORE_SQL, GET_EXPERIMENT_HYPOTHESIS_SQL,
    INSERT_EXPERIMENT_ARTIFACT_SQL, INSERT_EXPERIMENT_CODE_ANCHOR_SQL,
    INSERT_EXPERIMENT_HYPOTHESIS_IN_TX_SQL, INSERT_EXPERIMENT_IN_TX_SQL,
    INSERT_EXPERIMENT_RESULT_SQL, INSERT_SAMPLES_SQL, LIST_EXPERIMENTS_SQL,
    LIST_EXPERIMENT_HYPOTHESES_SQL, LIST_EXPERIMENT_RESULTS_SQL, LOAD_EXPERIMENT_SAMPLES_SQL,
    MARK_MEASURING_SQL, REFRESH_RUN_SQL, SET_EXPERIMENT_OBSERVATION_ID_SQL,
    SET_EXPERIMENT_STATUS_SQL, SET_HYPOTHESIS_VERDICT_SQL, SET_RESULT_OBSERVATION_ID_SQL,
    SUFFIX_FILE_SQL,
};
use crate::statement::{opt_text, BindView};

verus! {

/// What the text of [`INSERT_EXPERIMENT_IN_TX_SQL`] says.
pub proof fn insert_experiment_in_tx_text()
    ensures
        opens(INSERT_EXPERIMENT_IN_TX_SQL@, "INSERT INTO experiments"@),
        lines_up(INSERT_EXPERIMENT_IN_TX_SQL@, "INSERT INTO experiments"@, "slug"@, "VALUES ("@, 1),
        lines_up(
            INSERT_EXPERIMENT_IN_TX_SQL@,
            "INSERT INTO experiments"@,
            "title"@,
            "VALUES ("@,
            2,
        ),
        lines_up(
            INSERT_EXPERIMENT_IN_TX_SQL@,
            "INSERT INTO experiments"@,
            "question"@,
            "VALUES ("@,
            3,
        ),
        lines_up(
            INSERT_EXPERIMENT_IN_TX_SQL@,
            "INSERT INTO experiments"@,
            "context"@,
            "VALUES ("@,
            4,
        ),
        lines_up(INSERT_EXPERIMENT_IN_TX_SQL@, "INSERT INTO experiments"@, "kind"@, "VALUES ("@, 5),
        lines_up(
            INSERT_EXPERIMENT_IN_TX_SQL@,
            "INSERT INTO experiments"@,
            "project_id"@,
            "VALUES ("@,
            6,
        ),
        lines_up(
            INSERT_EXPERIMENT_IN_TX_SQL@,
            "INSERT INTO experiments"@,
            "hardware"@,
            "VALUES ("@,
            7,
        ),
        lines_up(
            INSERT_EXPERIMENT_IN_TX_SQL@,
            "INSERT INTO experiments"@,
            "git_ref"@,
            "VALUES ("@,
            8,
        ),
        lines_up(
            INSERT_EXPERIMENT_IN_TX_SQL@,
            "INSERT INTO experiments"@,
            "plan_ref"@,
            "VALUES ("@,
            9,
        ),
        lines_up(
            INSERT_EXPERIMENT_IN_TX_SQL@,
            "INSERT INTO experiments"@,
            "correction"@,
            "VALUES ("@,
            10,
        ),
        lines_up(
            INSERT_EXPERIMENT_IN_TX_SQL@,
            "INSERT INTO experiments"@,
            "embedding"@,
            "VALUES ("@,
            11,
        ),
{
    reveal_strlit(
        "INSERT INTO experiments
            (slug, title, question, context, kind, project_id, hardware, git_ref,
             plan_ref, correction, embedding, embedding_signature)
         VALUES ($1, $2, $3, $4, $5::experiment_kind, $6, $7::jsonb, $8, $9, $10, $11,
                 CASE WHEN $11 IS NULL THEN 'bge-m3-v1' ELSE 'bge-m3-v1' END)
         RETURNING id",
    );
    reveal_strlit("INSERT INTO experiments");
    reveal_strlit("VALUES (");
    reveal_strlit("context");
    reveal_strlit("correction");
    reveal_strlit("embedding");
    reveal_strlit("git_ref");
    reveal_strlit("hardware");
    reveal_strlit("kind");
    reveal_strlit("plan_ref");
    reveal_strlit("project_id");
    reveal_strlit("question");
    reveal_strlit("slug");
    reveal_strlit("title");
    let t = INSERT_EXPERIMENT_IN_TX_SQL@;
    assert(part_at(t, 0, "INSERT INTO experiments"@));
    reveal_with_fuel(past, 21);
    reveal_with_fuel(past_blanks, 15);
    assert(past(t, 23, '(') == 37);
    assert(item(t, 37, 0) == 37);
    assert(item(t, 37, 1) == 43);
    assert(item(t, 37, 2) == 50);
    assert(item(t, 37, 3) == 60);
    assert(item(t, 37, 4) == 69);
    assert(item(t, 37, 5) == 75);
    assert(item(t, 37, 6) == 87);
    assert(item(t, 37, 7) == 97);
    assert(item(t, 37, 8) == 119);
    assert(item(t, 37, 9) == 129);
    assert(item(t, 37, 10) == 141);
    assert(item(t, 190, 0) == 190);
    assert(item(t, 190, 1) == 194);
    assert(item(t, 190, 2) == 198);
    assert(item(t, 190, 3) == 202);
    assert(item(t, 190, 4) == 206);
    assert(item(t, 190, 5) == 227);
    assert(item(t, 190, 6) == 231);
    assert(item(t, 190, 7) == 242);
    assert(item(t, 190, 8) == 246);
    assert(item(t, 190, 9) == 250);
    assert(item(t, 190, 10) == 255);
    assert(lined_up_at(t, "INSERT INTO experiments"@, "slug"@, "VALUES ("@, 1, 0, 182, 0));
    assert(lined_up_at(t, "INSERT INTO experiments"@, "title"@, "VALUES ("@, 2, 0, 182, 1));
    assert(lined_up_at(t, "INSERT INTO experiments"@, "question"@, "VALUES ("@, 3, 0, 182, 2));
    assert(lined_up_at(t, "INSERT INTO experiments"@, "context"@, "VALUES ("@, 4, 0, 182, 3));
    assert(lined_up_at(t, "INSERT INTO experiments"@, "kind"@, "VALUES ("@, 5, 0, 182, 4));
    assert(lined_up_at(t, "INSERT INTO experiments"@, "project_id"@, "VALUES ("@, 6, 0, 182, 5));
    assert(lined_up_at(t, "INSERT INTO experiments"@, "hardware"@, "VALUES ("@, 7, 0, 182, 6));
    assert(lined_up_at(t, "INSERT INTO experiments"@, "git_ref"@, "VALUES ("@, 8, 0, 182, 7));
    assert(lined_up_at(t, "INSERT INTO experiments"@, "plan_ref"@, "VALUES ("@, 9, 0, 182, 8));
    assert(lined_up_at(t, "INSERT INTO experiments"@, "correction"@, "VALUES ("@, 10, 0, 182, 9));
    assert(lined_up_at(t, "INSERT INTO experiments"@, "embedding"@, "VALUES ("@, 11, 0, 182, 10));
}

/// What the text of [`INSERT_EXPERIMENT_HYPOTHESIS_IN_TX_SQL`] says.
pub proof fn insert_experiment_hypothesis_in_tx_text()
    ensures
        opens(INSERT_EXPERIMENT_HYPOTHESIS_IN_TX_SQL@, "INSERT INTO experiment_hypotheses"@),
        lines_up(
            INSERT_EXPERIMENT_HYPOTHESIS_IN_TX_SQL@,
            "INSERT INTO experiment_hypotheses"@,
            "experiment_id"@,
            "VALUES ("@,
            1,
        ),
        lines_up(
            INSERT_EXPERIMENT_HYPOTHESIS_IN_TX_SQL@,
            "INSERT INTO experiment_hypotheses"@,
            "statement"@,
            "VALUES ("@,
            2,
        ),
        lines_up(
            INSERT_EXPERIMENT_HYPOTHESIS_IN_TX_SQL@,
            "INSERT INTO experiment_hypotheses"@,
            "primary_metric"@,
            "VALUES ("@,
            3,
        ),
        lines_up(
            INSERT_EXPERIMENT_HYPOTHESIS_IN_TX_SQL@,
            "INSERT INTO experiment_hypotheses"@,
            "unit"@,
            "VALUES ("@,
            4,
        ),
        lines_up(
            INSERT_EXPERIMENT_HYPOTHESIS_IN_TX_SQL@,
            "INSERT INTO experiment_hypotheses"@,
            "predicted_direction"@,
            "VALUES ("@,
            5,
        ),
        lines_up(
            INSERT_EXPERIMENT_HYPOTHESIS_IN_TX_SQL@,
            "INSERT INTO experiment_hypotheses"@,
            "acceptance_criterion"@,
            "VALUES ("@,
            6,
        ),
        lines_up(
            INSERT_EXPERIMENT_HYPOTHESIS_IN_TX_SQL@,
            "INSERT INTO experiment_hypotheses"@,
            "planned_n"@,
            "VALUES ("@,
            7,
        ),
        lines_up(
            INSERT_EXPERIMENT_HYPOTHESIS_IN_TX_SQL@,
            "INSERT INTO experiment_hypotheses"@,
            "embedding"@,
            "VALUES ("@,
            8,
        ),
{
    reveal_strlit(
        "INSERT INTO experiment_hypotheses
            (experiment_id, statement, primary_metric, unit, predicted_direction,
             acceptance_criterion, planned_n, embedding)
         VALUES ($1, $2, $3, $4, $5::effect_direction, $6::jsonb, $7, $8)
         RETURNING id",
    );
    reveal_strlit("INSERT INTO experiment_hypotheses");
    reveal_strlit("VALUES (");
    reveal_strlit("acceptance_criterion");
    reveal_strlit("embedding");
    reveal_strlit("experiment_id");
    reveal_strlit("planned_n");
    reveal_strlit("predicted_direction");
    reveal_strlit("primary_metric");
    reveal_strlit("statement");
    reveal_strlit("unit");
    let t = INSERT_EXPERIMENT_HYPOTHESIS_IN_TX_SQL@;
    assert(part_at(t, 0, "INSERT INTO experiment_hypotheses"@));
    reveal_with_fuel(past, 22);
    reveal_with_fuel(past_blanks, 15);
    assert(past(t, 33, '(') == 47);
    assert(item(t, 47, 0) == 47);
    assert(item(t, 47, 1) == 62);
    assert(item(t, 47, 2) == 73);
    assert(item(t, 47, 3) == 89);
    assert(item(t, 47, 4) == 95);
    assert(item(t, 47, 5) == 129);
    assert(item(t, 47, 6) == 151);
    assert(item(t, 47, 7) == 162);
    assert(item(t, 190, 0) == 190);
    assert(item(t, 190, 1) == 194);
    assert(item(t, 190, 2) == 198);
    assert(item(t, 190, 3) == 202);
    assert(item(t, 190, 4) == 206);
    assert(item(t, 190, 5) == 228);
    assert(item(t, 190, 6) == 239);
    assert(item(t, 190, 7) == 243);
    assert(lined_up_at(
        t,
        "INSERT INTO experiment_hypotheses"@,
        "experiment_id"@,
        "VALUES ("@,
        1,
        0,
        182,
        0,
    ));
    assert(lined_up_at(
        t,
        "INSERT INTO experiment_hypotheses"@,
        "statement"@,
        "VALUES ("@,
        2,
        0,
        182,
        1,
    ));
    assert(lined_up_at(
        t,
        "INSERT INTO experiment_hypotheses"@,
        "primary_metric"@,
        "VALUES ("@,
        3,
        0,
        182,
        2,
    ));
    assert(lined_up_at(
        t,
        "INSERT INTO experiment_hypotheses"@,
        "unit"@,
        "VALUES ("@,
        4,
        0,
        182,
        3,
    ));
    assert(lined_up_at(
        t,
        "INSERT INTO experiment_hypotheses"@,
        "predicted_direction"@,
        "VALUES ("@,
        5,
        0,
        182,
        4,
    ));
    assert(lined_up_at(
        t,
        "INSERT INTO experiment_hypotheses"@,
        "acceptance_criterion"@,
        "VALUES ("@,
        6,
        0,
        182,
        5,
    ));
    assert(lined_up_at(
        t,
        "INSERT INTO experiment_hypotheses"@,
        "planned_n"@,
        "VALUES ("@,
        7,
        0,
        182,
        6,
    ));
    assert(lined_up_at(
        t,
        "INSERT INTO experiment_hypotheses"@,
        "embedding"@,
        "VALUES ("@,
        8,
        0,
        182,
        7,
    ));
}

/// What the text of [`INSERT_EXPERIMENT_CODE_ANCHOR_SQL`] says.
pub proof fn insert_experiment_code_anchor_text()
    ensures
        opens(INSERT_EXPERIMENT_CODE_ANCHOR_SQL@, "INSERT INTO experiment_code_anchor"@),
        lines_up(
            INSERT_EXPERIMENT_CODE_ANCHOR_SQL@,
            "INSERT INTO experiment_code_anchor"@,
            "experiment_id"@,
            "VALUES ("@,
            1,
        ),
        lines_up(
            INSERT_EXPERIMENT_CODE_ANCHOR_SQL@,
            "INSERT INTO experiment_code_anchor"@,
            "file_id"@,
            "VALUES ("@,
            2,
        ),
        lines_up(
            INSERT_EXPERIMENT_CODE_ANCHOR_SQL@,
            "INSERT INTO experiment_code_anchor"@,
            "chunk_id"@,
            "VALUES ("@,
            3,
        ),
        lines_up(
            INSERT_EXPERIMENT_CODE_ANCHOR_SQL@,
            "INSERT INTO experiment_code_anchor"@,
            "topic_id"@,
            "VALUES ("@,
            4,
        ),
        lines_up(
            INSERT_EXPERIMENT_CODE_ANCHOR_SQL@,
            "INSERT INTO experiment_code_anchor"@,
            "anchor_type"@,
            "VALUES ("@,
            5,
        ),
{
    reveal_strlit(
        "INSERT INTO experiment_code_anchor
            (experiment_id, file_id, chunk_id, topic_id, anchor_type)
         VALUES ($1, $2, $3, $4, $5)",
    );
    reveal_strlit("INSERT INTO experiment_code_anchor");
    reveal_strlit("VALUES (");
    reveal_strlit("anchor_type");
    reveal_strlit("chunk_id");
    reveal_strlit("experiment_id");
    reveal_strlit("file_id");
    reveal_strlit("topic_id");
    let t = INSERT_EXPERIMENT_CODE_ANCHOR_SQL@;
    assert(part_at(t, 0, "INSERT INTO experiment_code_anchor"@));
    reveal_with_fuel(past, 15);
    reveal_with_fuel(past_blanks, 2);
    assert(past(t, 34, '(') == 48);
    assert(item(t, 48, 0) == 48);
    assert(item(t, 48, 1) == 63);
    assert(item(t, 48, 2) == 72);
    assert(item(t, 48, 3) == 82);
    assert(item(t, 48, 4) == 92);
    assert(item(t, 122, 0) == 122);
    assert(item(t, 122, 1) == 126);
    assert(item(t, 122, 2) == 130);
    assert(item(t, 122, 3) == 134);
    assert(item(t, 122, 4) == 138);
    assert(lined_up_at(
        t,
        "INSERT INTO experiment_code_anchor"@,
        "experiment_id"@,
        "VALUES ("@,
        1,
        0,
        114,
        0,
    ));
    assert(lined_up_at(
        t,
        "INSERT INTO experiment_code_anchor"@,
        "file_id"@,
        "VALUES ("@,
        2,
        0,
        114,
        1,
    ));
    assert(lined_up_at(
        t,
        "INSERT INTO experiment_code_anchor"@,
        "chunk_id"@,
        "VALUES ("@,
        3,
        0,
        114,
        2,
    ));
    assert(lined_up_at(
        t,
        "INSERT INTO experiment_code_anchor"@,
        "topic_id"@,
        "VALUES ("@,
        4,
        0,
        114,
        3,
    ));
    assert(lined_up_at(
        t,
        "INSERT INTO experiment_code_anchor"@,
        "anchor_type"@,
        "VALUES ("@,
        5,
        0,
        114,
        4,
    ));
}

/// What the text of [`SET_EXPERIMENT_STATUS_SQL`] says.
pub proof fn set_experiment_status_text()
    ensures
        opens(SET_EXPERIMENT_STATUS_SQL@, "UPDATE experiments"@),
        mentions(SET_EXPERIMENT_STATUS_SQL@, "NOW() WHERE id = "@, 1),
        mentions(SET_EXPERIMENT_STATUS_SQL@, "status = "@, 2),
{
    reveal_strlit(
        "UPDATE experiments SET status = $2::experiment_status, updated_at = NOW() WHERE id = $1",
    );
    reveal_strlit("NOW() WHERE id = ");
    reveal_strlit("UPDATE experiments");
    reveal_strlit("status = ");
    let t = SET_EXPERIMENT_STATUS_SQL@;
    assert(part_at(t, 0, "UPDATE experiments"@));
    assert(part_at(t, 68, "NOW() WHERE id = "@));
    assert(part_at(t, 23, "status = "@));
}

/// What the text of [`GET_EXPERIMENT_HYPOTHESIS_SQL`] says.
pub proof fn get_experiment_hypothesis_text()
    ensures
        opens(GET_EXPERIMENT_HYPOTHESIS_SQL@, "SELECT"@),
        mentions(GET_EXPERIMENT_HYPOTHESIS_SQL@, "experiment_hypotheses WHERE id = "@, 1),
        says(GET_EXPERIMENT_HYPOTHESIS_SQL@, "FROM experiment_hypotheses"@),
{
    reveal_strlit(
        "SELECT id, experiment_id, statement, primary_metric, unit,
                predicted_direction::text, acceptance_criterion::text,
                criterion_locked_at, planned_n, CAST(verdict AS text)
         FROM experiment_hypotheses WHERE id = $1",
    );
    reveal_strlit("FROM experiment_hypotheses");
    reveal_strlit("SELECT");
    reveal_strlit("experiment_hypotheses WHERE id = ");
    let t = GET_EXPERIMENT_HYPOTHESIS_SQL@;
    assert(part_at(t, 0, "SELECT"@));
    assert(part_at(t, 214, "experiment_hypotheses WHERE id = "@));
    assert(part_at(t, 209, "FROM experiment_hypotheses"@));
}

/// What the text of [`LOAD_EXPERIMENT_SAMPLES_SQL`] says.
pub proof fn load_experiment_samples_text()
    ensures
        opens(LOAD_EXPERIMENT_SAMPLES_SQL@, "SELECT"@),
        mentions(LOAD_EXPERIMENT_SAMPLES_SQL@, "r.experiment_id = "@, 1),
        mentions(LOAD_EXPERIMENT_SAMPLES_SQL@, "r.hypothesis_id IS NOT DISTINCT FROM "@, 2),
        mentions(LOAD_EXPERIMENT_SAMPLES_SQL@, "s.arm = "@, 3),
        mentions(LOAD_EXPERIMENT_SAMPLES_SQL@, "s.metric_name = "@, 4),
        says(LOAD_EXPERIMENT_SAMPLES_SQL@, "AND NOT s.is_warmup"@),
        says(LOAD_EXPERIMENT_SAMPLES_SQL@, "ORDER BY s.unit_key NULLS FIRST, s.replicate_index"@),
        says(LOAD_EXPERIMENT_SAMPLES_SQL@, "FROM experiment_samples"@),
        says(LOAD_EXPERIMENT_SAMPLES_SQL@, "JOIN experiment_runs r ON r.id = s.run_id"@),
{
    reveal_strlit(
        "SELECT s.value, s.unit_key
         FROM experiment_samples s
         JOIN experiment_runs r ON r.id = s.run_id
         WHERE r.experiment_id = $1
           AND r.hypothesis_id IS NOT DISTINCT FROM $2
           AND s.arm = $3
           AND s.metric_name = $4
           AND NOT s.is_warmup
         ORDER BY s.unit_key NULLS FIRST, s.replicate_index",
    );
    reveal_strlit("AND NOT s.is_warmup");
    reveal_strlit("FROM experiment_samples");
    reveal_strlit("JOIN experiment_runs r ON r.id = s.run_id");
    reveal_strlit("ORDER BY s.unit_key NULLS FIRST, s.replicate_index");
    reveal_strlit("SELECT");
    reveal_strlit("r.experiment_id = ");
    reveal_strlit("r.hypothesis_id IS NOT DISTINCT FROM ");
    reveal_strlit("s.arm = ");
    reveal_strlit("s.metric_name = ");
    let t = LOAD_EXPERIMENT_SAMPLES_SQL@;
    assert(part_at(t, 0, "SELECT"@));
    assert(part_at(t, 128, "r.experiment_id = "@));
    assert(part_at(t, 164, "r.hypothesis_id IS NOT DISTINCT FROM "@));
    assert(part_at(t, 219, "s.arm = "@));
    assert(part_at(t, 245, "s.metric_name = "@));
    assert(part_at(t, 275, "AND NOT s.is_warmup"@));
    assert(part_at(t, 304, "ORDER BY s.unit_key NULLS FIRST, s.replicate_index"@));
    assert(part_at(t, 36, "FROM experiment_samples"@));
    assert(part_at(t, 71, "JOIN experiment_runs r ON r.id = s.run_id"@));
}

/// What the text of [`EARLIEST_MEASUREMENT_TIME_SQL`] says.
pub proof fn earliest_measurement_time_text()
    ensures
        opens(EARLIEST_MEASUREMENT_TIME_SQL@, "SELECT"@),
        mentions(EARLIEST_MEASUREMENT_TIME_SQL@, "r.hypothesis_id = "@, 1),
        says(EARLIEST_MEASUREMENT_TIME_SQL@, "FROM experiment_samples"@),
        says(EARLIEST_MEASUREMENT_TIME_SQL@, "JOIN experiment_runs r ON r.id = s.run_id"@),
{
    reveal_strlit(
        "SELECT MIN(s.recorded_at)
         FROM experiment_samples s
         JOIN experiment_runs r ON r.id = s.run_id
         WHERE r.hypothesis_id = $1 AND NOT s.is_warmup",
    );
    reveal_strlit("FROM experiment_samples");
    reveal_strlit("JOIN experiment_runs r ON r.id = s.run_id");
    reveal_strlit("SELECT");
    reveal_strlit("r.hypothesis_id = ");
    let t = EARLIEST_MEASUREMENT_TIME_SQL@;
    assert(part_at(t, 0, "SELECT"@));
    assert(part_at(t, 127, "r.hypothesis_id = "@));
    assert(part_at(t, 35, "FROM experiment_samples"@));
    assert(part_at(t, 70, "JOIN experiment_runs r ON r.id = s.run_id"@));
}

/// What the text of [`FIND_EXPERIMENT_RUN_ID_SQL`] says.
pub proof fn find_experiment_run_id_text()
    ensures
        opens(FIND_EXPERIMENT_RUN_ID_SQL@, "SELECT"@),
        mentions(FIND_EXPERIMENT_RUN_ID_SQL@, "experiment_id = "@, 1),
        mentions(FIND_EXPERIMENT_RUN_ID_SQL@, "hypothesis_id IS NOT DISTINCT FROM "@, 2),
        mentions(FIND_EXPERIMENT_RUN_ID_SQL@, "arm_label = "@, 3),
        says(FIND_EXPERIMENT_RUN_ID_SQL@, "FROM experiment_runs"@),
{
    reveal_strlit(
        "SELECT id FROM experiment_runs
         WHERE experiment_id = $1 AND hypothesis_id IS NOT DISTINCT FROM $2 AND arm_label = $3
         LIMIT 1",
    );
    reveal_strlit("FROM experiment_runs");
    reveal_strlit("SELECT");
    reveal_strlit("arm_label = ");
    reveal_strlit("experiment_id = ");
    reveal_strlit("hypothesis_id IS NOT DISTINCT FROM ");
    let t = FIND_EXPERIMENT_RUN_ID_SQL@;
    assert(part_at(t, 0, "SELECT"@));
    assert(part_at(t, 46, "experiment_id = "@));
    assert(part_at(t, 69, "hypothesis_id IS NOT DISTINCT FROM "@));
    assert(part_at(t, 111, "arm_label = "@));
    assert(part_at(t, 10, "FROM experiment_runs"@));
}

/// What the text of [`SET_HYPOTHESIS_VERDICT_SQL`] says.
pub proof fn set_hypothesis_verdict_text()
    ensures
        opens(SET_HYPOTHESIS_VERDICT_SQL@, "UPDATE experiment_hypotheses"@),
        mentions(SET_HYPOTHESIS_VERDICT_SQL@, "$2::hypothesis_verdict WHERE id = "@, 1),
        mentions(SET_HYPOTHESIS_VERDICT_SQL@, "verdict = "@, 2),
{
    reveal_strlit(
        "UPDATE experiment_hypotheses SET verdict = $2::hypothesis_verdict WHERE id = $1",
    );
    reveal_strlit("$2::hypothesis_verdict WHERE id = ");
    reveal_strlit("UPDATE experiment_hypotheses");
    reveal_strlit("verdict = ");
    let t = SET_HYPOTHESIS_VERDICT_SQL@;
    assert(part_at(t, 0, "UPDATE experiment_hypotheses"@));
    assert(part_at(t, 43, "$2::hypothesis_verdict WHERE id = "@));
    assert(part_at(t, 33, "verdict = "@));
}

/// What the text of [`SET_EXPERIMENT_OBSERVATION_ID_SQL`] says.
pub proof fn set_experiment_observation_id_text()
    ensures
        opens(SET_EXPERIMENT_OBSERVATION_ID_SQL@, "UPDATE experiments"@),
        mentions(SET_EXPERIMENT_OBSERVATION_ID_SQL@, "NOW() WHERE id = "@, 1),
        mentions(SET_EXPERIMENT_OBSERVATION_ID_SQL@, "observation_id = "@, 2),
{
    reveal_strlit(
        "UPDATE experiments SET observation_id = $2, updated_at = NOW() WHERE id = $1",
    );
    reveal_strlit("NOW() WHERE id = ");
    reveal_strlit("UPDATE experiments");
    reveal_strlit("observation_id = ");
    let t = SET_EXPERIMENT_OBSERVATION_ID_SQL@;
    assert(part_at(t, 0, "UPDATE experiments"@));
    assert(part_at(t, 57, "NOW() WHERE id = "@));
    assert(part_at(t, 23, "observation_id = "@));
}

/// What the text of [`SET_RESULT_OBSERVATION_ID_SQL`] says.
pub proof fn set_result_observation_id_text()
    ensures
        opens(SET_RESULT_OBSERVATION_ID_SQL@, "UPDATE experiment_results"@),
        mentions(SET_RESULT_OBSERVATION_ID_SQL@, "$2 WHERE id = "@, 1),
        mentions(SET_RESULT_OBSERVATION_ID_SQL@, "observation_id = "@, 2),
{
    reveal_strlit(
        "UPDATE experiment_results SET observation_id = $2 WHERE id = $1",
    );
    reveal_strlit("$2 WHERE id = ");
    reveal_strlit("UPDATE experiment_results");
    reveal_strlit("observation_id = ");
    let t = SET_RESULT_OBSERVATION_ID_SQL@;
    assert(part_at(t, 0, "UPDATE experiment_results"@));
    assert(part_at(t, 47, "$2 WHERE id = "@));
    assert(part_at(t, 30, "observation_id = "@));
}

/// What the text of [`EXPERIMENT_SEARCH_VECTOR_SQL`] says.
#[verifier::rlimit(50)]
pub proof fn experiment_search_vector_text()
    ensures
        opens(EXPERIMENT_SEARCH_VECTOR_SQL@, "SELECT"@),
        mentions(EXPERIMENT_SEARCH_VECTOR_SQL@, "e.embedding <=> "@, 1),
        mentions(EXPERIMENT_SEARCH_VECTOR_SQL@, "e.project_id = "@, 2),
        mentions(EXPERIMENT_SEARCH_VECTOR_SQL@, "e.kind::text = "@, 3),
        mentions(EXPERIMENT_SEARCH_VECTOR_SQL@, "text) = "@, 4),
        mentions(EXPERIMENT_SEARCH_VECTOR_SQL@, "LIMIT "@, 5),
        says(EXPERIMENT_SEARCH_VECTOR_SQL@, "WHERE h.experiment_id = e.id AND h.valid_to IS NULL"@),
        says(
            EXPERIMENT_SEARCH_VECTOR_SQL@,
            "WHERE r.experiment_id = e.id ORDER BY r.id DESC LIMIT 1) AS p_value"@,
        ),
        says(
            EXPERIMENT_SEARCH_VECTOR_SQL@,
            "WHERE e.valid_to IS NULL AND e.embedding IS NOT NULL"@,
        ),
        says(EXPERIMENT_SEARCH_VECTOR_SQL@, "ORDER BY h.id LIMIT 1) AS verdict"@),
        says(EXPERIMENT_SEARCH_VECTOR_SQL@, "ORDER BY r.id DESC LIMIT 1) AS p_value"@),
        says(EXPERIMENT_SEARCH_VECTOR_SQL@, "FROM experiment_hypotheses"@),
        says(EXPERIMENT_SEARCH_VECTOR_SQL@, "LEFT JOIN projects p ON p.id = e.project_id"@),
{
    reveal_strlit(
        "SELECT e.id, e.slug, e.title, e.kind::text AS kind, e.status::text AS status,
                p.name AS project,
                1.0 - (e.embedding <=> $1) AS similarity,
                (SELECT CAST(h.verdict AS text) FROM experiment_hypotheses h
                  WHERE h.experiment_id = e.id AND h.valid_to IS NULL
                  ORDER BY h.id LIMIT 1) AS verdict,
                (SELECT r.p_value FROM experiment_results r
                  WHERE r.experiment_id = e.id ORDER BY r.id DESC LIMIT 1) AS p_value
         FROM experiments e
         LEFT JOIN projects p ON p.id = e.project_id
         WHERE e.valid_to IS NULL AND e.embedding IS NOT NULL
           AND ($2::int IS NULL OR e.project_id = $2)
           AND ($3::text IS NULL OR e.kind::text = $3)
           AND ($4::text IS NULL OR EXISTS (
                 SELECT 1 FROM experiment_hypotheses h2
                 WHERE h2.experiment_id = e.id AND CAST(h2.verdict AS text) = $4))
         ORDER BY e.embedding <=> $1
         LIMIT $5",
    );
    reveal_strlit("FROM experiment_hypotheses");
    reveal_strlit("LEFT JOIN projects p ON p.id = e.project_id");
    reveal_strlit("LIMIT ");
    reveal_strlit("ORDER BY h.id LIMIT 1) AS verdict");
    reveal_strlit("ORDER BY r.id DESC LIMIT 1) AS p_value");
    reveal_strlit("SELECT");
    reveal_strlit("WHERE e.valid_to IS NULL AND e.embedding IS NOT NULL");
    reveal_strlit("WHERE h.experiment_id = e.id AND h.valid_to IS NULL");
    reveal_strlit("WHERE r.experiment_id = e.id ORDER BY r.id DESC LIMIT 1) AS p_value");
    reveal_strlit("e.embedding <=> ");
    reveal_strlit("e.kind::text = ");
    reveal_strlit("e.project_id = ");
    reveal_strlit("text) = ");
    let t = EXPERIMENT_SEARCH_VECTOR_SQL@;
    assert(part_at(t, 0, "SELECT"@));
    assert(part_at(t, 136, "e.embedding <=> "@));
    assert(part_at(t, 695, "e.project_id = "@));
    assert(part_at(t, 750, "e.kind::text = "@));
    assert(part_at(t, 940, "text) = "@));
    assert(part_at(t, 999, "LIMIT "@));
    assert(part_at(t, 266, "WHERE h.experiment_id = e.id AND h.valid_to IS NULL"@));
    assert(part_at(t, 449, "WHERE r.experiment_id = e.id ORDER BY r.id DESC LIMIT 1) AS p_value"@));
    assert(part_at(t, 607, "WHERE e.valid_to IS NULL AND e.embedding IS NOT NULL"@));
    assert(part_at(t, 336, "ORDER BY h.id LIMIT 1) AS verdict"@));
    assert(part_at(t, 478, "ORDER BY r.id DESC LIMIT 1) AS p_value"@));
    assert(part_at(t, 219, "FROM experiment_hypotheses"@));
    assert(part_at(t, 554, "LEFT JOIN projects p ON p.id = e.project_id"@));
}

/// What the text of [`EXPERIMENT_SEARCH_FTS_SQL`] says.
#[verifier::rlimit(50)]
pub proof fn experiment_search_fts_text()
    ensures
        opens(EXPERIMENT_SEARCH_FTS_SQL@, "SELECT"@),
        mentions(EXPERIMENT_SEARCH_FTS_SQL@, "plainto_tsquery('english', "@, 1),
        mentions(EXPERIMENT_SEARCH_FTS_SQL@, "e.project_id = "@, 2),
        mentions(EXPERIMENT_SEARCH_FTS_SQL@, "e.kind::text = "@, 3),
        mentions(EXPERIMENT_SEARCH_FTS_SQL@, "LIMIT "@, 4),
        says(EXPERIMENT_SEARCH_FTS_SQL@, "WHERE h.experiment_id = e.id AND h.valid_to IS NULL"@),
        says(
            EXPERIMENT_SEARCH_FTS_SQL@,
            "WHERE r.experiment_id = e.id ORDER BY r.id DESC LIMIT 1) AS p_value"@,
        ),
        says(EXPERIMENT_SEARCH_FTS_SQL@, "WHERE e.valid_to IS NULL"@),
        says(
            EXPERIMENT_SEARCH_FTS_SQL@,
            "AND to_tsvector('english', coalesce(e.title,'') || ' ' ||"@,
        ),
        says(EXPERIMENT_SEARCH_FTS_SQL@, "ORDER BY h.id LIMIT 1) AS verdict"@),
        says(EXPERIMENT_SEARCH_FTS_SQL@, "ORDER BY r.id DESC LIMIT 1) AS p_value"@),
        says(EXPERIMENT_SEARCH_FTS_SQL@, "ORDER BY similarity DESC"@),
        says(EXPERIMENT_SEARCH_FTS_SQL@, "FROM experiment_hypotheses"@),
        says(EXPERIMENT_SEARCH_FTS_SQL@, "LEFT JOIN projects p ON p.id = e.project_id"@),
{
    reveal_strlit(
        "SELECT e.id, e.slug, e.title, e.kind::text AS kind, e.status::text AS status,
                p.name AS project,
                ts_rank(to_tsvector('english', coalesce(e.title,'') || ' ' ||
                        coalesce(e.question,'') || ' ' || coalesce(e.context,'')),
                        plainto_tsquery('english', $1))::float8 AS similarity,
                (SELECT CAST(h.verdict AS text) FROM experiment_hypotheses h
                  WHERE h.experiment_id = e.id AND h.valid_to IS NULL
                  ORDER BY h.id LIMIT 1) AS verdict,
                (SELECT r.p_value FROM experiment_results r
                  WHERE r.experiment_id = e.id ORDER BY r.id DESC LIMIT 1) AS p_value
         FROM experiments e
         LEFT JOIN projects p ON p.id = e.project_id
         WHERE e.valid_to IS NULL
           AND ($2::int IS NULL OR e.project_id = $2)
           AND ($3::text IS NULL OR e.kind::text = $3)
           AND to_tsvector('english', coalesce(e.title,'') || ' ' ||
                 coalesce(e.question,'') || ' ' || coalesce(e.context,''))
               @@ plainto_tsquery('english', $1)
         ORDER BY similarity DESC
         LIMIT $4",
    );
    reveal_strlit("AND to_tsvector('english', coalesce(e.title,'') || ' ' ||");
    reveal_strlit("FROM experiment_hypotheses");
    reveal_strlit("LEFT JOIN projects p ON p.id = e.project_id");
    reveal_strlit("LIMIT ");
    reveal_strlit("ORDER BY h.id LIMIT 1) AS verdict");
    reveal_strlit("ORDER BY r.id DESC LIMIT 1) AS p_value");
    reveal_strlit("ORDER BY similarity DESC");
    reveal_strlit("SELECT");
    reveal_strlit("WHERE e.valid_to IS NULL");
    reveal_strlit("WHERE h.experiment_id = e.id AND h.valid_to IS NULL");
    reveal_strlit("WHERE r.experiment_id = e.id ORDER BY r.id DESC LIMIT 1) AS p_value");
    reveal_strlit("e.kind::text = ");
    reveal_strlit("e.project_id = ");
    reveal_strlit("plainto_tsquery('english', ");
    let t = EXPERIMENT_SEARCH_FTS_SQL@;
    assert(part_at(t, 0, "SELECT"@));
    assert(part_at(t, 298, "plainto_tsquery('english', "@));
    assert(part_at(t, 849, "e.project_id = "@));
    assert(part_at(t, 904, "e.kind::text = "@));
    assert(part_at(t, 1159, "LIMIT "@));
    assert(part_at(t, 448, "WHERE h.experiment_id = e.id AND h.valid_to IS NULL"@));
    assert(part_at(t, 631, "WHERE r.experiment_id = e.id ORDER BY r.id DESC LIMIT 1) AS p_value"@));
    assert(part_at(t, 789, "WHERE e.valid_to IS NULL"@));
    assert(part_at(t, 934, "AND to_tsvector('english', coalesce(e.title,'') || ' ' ||"@));
    assert(part_at(t, 518, "ORDER BY h.id LIMIT 1) AS verdict"@));
    assert(part_at(t, 660, "ORDER BY r.id DESC LIMIT 1) AS p_value"@));
    assert(part_at(t, 1125, "ORDER BY similarity DESC"@));
    assert(part_at(t, 401, "FROM experiment_hypotheses"@));
    assert(part_at(t, 736, "LEFT JOIN projects p ON p.id = e.project_id"@));
}

/// What the text of [`GET_EXPERIMENT_CORE_SQL`] says.
pub proof fn get_experiment_core_text()
    ensures
        opens(GET_EXPERIMENT_CORE_SQL@, "SELECT"@),
        mentions(GET_EXPERIMENT_CORE_SQL@, "e.id = "@, 1),
        mentions(GET_EXPERIMENT_CORE_SQL@, "e.slug = "@, 2),
        says(GET_EXPERIMENT_CORE_SQL@, "WHERE e.valid_to IS NULL"@),
        says(GET_EXPERIMENT_CORE_SQL@, "ORDER BY e.id DESC"@),
        says(GET_EXPERIMENT_CORE_SQL@, "FROM experiments"@),
        says(GET_EXPERIMENT_CORE_SQL@, "LEFT JOIN projects p ON p.id = e.project_id"@),
{
    reveal_strlit(
        "SELECT e.id, e.slug, e.title, e.question, e.context, e.kind::text AS kind,
                e.status::text AS status, p.name AS project, e.git_ref, e.plan_ref,
                e.correction, e.created_at, e.updated_at
         FROM experiments e
         LEFT JOIN projects p ON p.id = e.project_id
         WHERE e.valid_to IS NULL
           AND (($1::bigint IS NOT NULL AND e.id = $1) OR ($1::bigint IS NULL AND e.slug = $2))
         ORDER BY e.id DESC
         LIMIT 1",
    );
    reveal_strlit("FROM experiments");
    reveal_strlit("LEFT JOIN projects p ON p.id = e.project_id");
    reveal_strlit("ORDER BY e.id DESC");
    reveal_strlit("SELECT");
    reveal_strlit("WHERE e.valid_to IS NULL");
    reveal_strlit("e.id = ");
    reveal_strlit("e.slug = ");
    let t = GET_EXPERIMENT_CORE_SQL@;
    assert(part_at(t, 0, "SELECT"@));
    assert(part_at(t, 375, "e.id = "@));
    assert(part_at(t, 413, "e.slug = "@));
    assert(part_at(t, 306, "WHERE e.valid_to IS NULL"@));
    assert(part_at(t, 436, "ORDER BY e.id DESC"@));
    assert(part_at(t, 225, "FROM experiments"@));
    assert(part_at(t, 253, "LEFT JOIN projects p ON p.id = e.project_id"@));
}

/// What the text of [`LIST_EXPERIMENT_RESULTS_SQL`] says.
pub proof fn list_experiment_results_text()
    ensures
        opens(LIST_EXPERIMENT_RESULTS_SQL@, "SELECT"@),
        mentions(LIST_EXPERIMENT_RESULTS_SQL@, "experiment_id = "@, 1),
        says(LIST_EXPERIMENT_RESULTS_SQL@, "ORDER BY id DESC"@),
        says(LIST_EXPERIMENT_RESULTS_SQL@, "FROM experiment_results"@),
{
    reveal_strlit(
        "SELECT id, hypothesis_id, test_type, metric_name, statistic, p_value,
                effect_size, ci_low, ci_high, CAST(verdict AS text) AS verdict, accepted,
                rationale, created_at
         FROM experiment_results WHERE experiment_id = $1 ORDER BY id DESC",
    );
    reveal_strlit("FROM experiment_results");
    reveal_strlit("ORDER BY id DESC");
    reveal_strlit("SELECT");
    reveal_strlit("experiment_id = ");
    let t = LIST_EXPERIMENT_RESULTS_SQL@;
    assert(part_at(t, 0, "SELECT"@));
    assert(part_at(t, 237, "experiment_id = "@));
    assert(part_at(t, 256, "ORDER BY id DESC"@));
    assert(part_at(t, 207, "FROM experiment_results"@));
}

/// What the text of [`LIST_EXPERIMENT_HYPOTHESES_SQL`] says.
pub proof fn list_experiment_hypotheses_text()
    ensures
        opens(LIST_EXPERIMENT_HYPOTHESES_SQL@, "SELECT"@),
        mentions(LIST_EXPERIMENT_HYPOTHESES_SQL@, "experiment_id = "@, 1),
        says(LIST_EXPERIMENT_HYPOTHESES_SQL@, "ORDER BY id"@),
        says(LIST_EXPERIMENT_HYPOTHESES_SQL@, "FROM experiment_hypotheses"@),
{
    reveal_strlit(
        "SELECT id, experiment_id, statement, primary_metric, unit,
                predicted_direction::text, acceptance_criterion::text,
                criterion_locked_at, planned_n, CAST(verdict AS text)
         FROM experiment_hypotheses
         WHERE experiment_id = $1 AND valid_to IS NULL ORDER BY id",
    );
    reveal_strlit("FROM experiment_hypotheses");
    reveal_strlit("ORDER BY id");
    reveal_strlit("SELECT");
    reveal_strlit("experiment_id = ");
    let t = LIST_EXPERIMENT_HYPOTHESES_SQL@;
    assert(part_at(t, 0, "SELECT"@));
    assert(part_at(t, 251, "experiment_id = "@));
    assert(part_at(t, 291, "ORDER BY id"@));
    assert(part_at(t, 209, "FROM experiment_hypotheses"@));
}

/// What the text of [`LIST_EXPERIMENTS_SQL`] says.
pub proof fn list_experiments_text()
    ensures
        opens(LIST_EXPERIMENTS_SQL@, "SELECT"@),
        mentions(LIST_EXPERIMENTS_SQL@, "e.project_id = "@, 1),
        mentions(LIST_EXPERIMENTS_SQL@, "e.kind::text = "@, 2),
        mentions(LIST_EXPERIMENTS_SQL@, "e.status::text = "@, 3),
        mentions(LIST_EXPERIMENTS_SQL@, "LIMIT "@, 4),
        mentions(LIST_EXPERIMENTS_SQL@, "OFFSET "@, 5),
        says(LIST_EXPERIMENTS_SQL@, "WHERE e.valid_to IS NULL"@),
        says(LIST_EXPERIMENTS_SQL@, "ORDER BY e.updated_at DESC"@),
        says(LIST_EXPERIMENTS_SQL@, "FROM experiments"@),
        says(LIST_EXPERIMENTS_SQL@, "LEFT JOIN projects p ON p.id = e.project_id"@),
{
    reveal_strlit(
        "SELECT e.id, e.slug, e.title, e.kind::text AS kind, e.status::text AS status,
                p.name AS project, e.updated_at
         FROM experiments e
         LEFT JOIN projects p ON p.id = e.project_id
         WHERE e.valid_to IS NULL
           AND ($1::int IS NULL OR e.project_id = $1)
           AND ($2::text IS NULL OR e.kind::text = $2)
           AND ($3::text IS NULL OR e.status::text = $3)
         ORDER BY e.updated_at DESC
         LIMIT $4 OFFSET $5",
    );
    reveal_strlit("FROM experiments");
    reveal_strlit("LEFT JOIN projects p ON p.id = e.project_id");
    reveal_strlit("LIMIT ");
    reveal_strlit("OFFSET ");
    reveal_strlit("ORDER BY e.updated_at DESC");
    reveal_strlit("SELECT");
    reveal_strlit("WHERE e.valid_to IS NULL");
    reveal_strlit("e.kind::text = ");
    reveal_strlit("e.project_id = ");
    reveal_strlit("e.status::text = ");
    let t = LIST_EXPERIMENTS_SQL@;
    assert(part_at(t, 0, "SELECT"@));
    assert(part_at(t, 276, "e.project_id = "@));
    assert(part_at(t, 331, "e.kind::text = "@));
    assert(part_at(t, 386, "e.status::text = "@));
    assert(part_at(t, 452, "LIMIT "@));
    assert(part_at(t, 461, "OFFSET "@));
    assert(part_at(t, 216, "WHERE e.valid_to IS NULL"@));
    assert(part_at(t, 416, "ORDER BY e.updated_at DESC"@));
    assert(part_at(t, 135, "FROM experiments"@));
    assert(part_at(t, 163, "LEFT JOIN projects p ON p.id = e.project_id"@));
}

/// What the text of [`EXPERIMENT_TIMELINE_SQL`] says.
#[verifier::rlimit(50)]
pub proof fn experiment_timeline_text()
    ensures
        opens(EXPERIMENT_TIMELINE_SQL@, "SELECT"@),
        mentions(EXPERIMENT_TIMELINE_SQL@, "experiments WHERE id = "@, 1),
        says(EXPERIMENT_TIMELINE_SQL@, "ORDER BY at"@),
        says(EXPERIMENT_TIMELINE_SQL@, "FROM experiments"@),
{
    reveal_strlit(
        "SELECT created_at AS at, 'opened' AS event, title AS detail
           FROM experiments WHERE id = $1
         UNION ALL
         SELECT criterion_locked_at, 'criterion_locked', statement
           FROM experiment_hypotheses WHERE experiment_id = $1 AND valid_to IS NULL
         UNION ALL
         SELECT r.created_at, 'run', r.arm_label || ' (' || r.arm_kind::text || ')'
           FROM experiment_runs r WHERE r.experiment_id = $1
         UNION ALL
         SELECT created_at, 'decided',
                CAST(verdict AS text) || ' on ' || metric_name || ' (' || test_type || ')'
           FROM experiment_results WHERE experiment_id = $1
         ORDER BY at",
    );
    reveal_strlit("FROM experiments");
    reveal_strlit("ORDER BY at");
    reveal_strlit("SELECT");
    reveal_strlit("experiments WHERE id = ");
    let t = EXPERIMENT_TIMELINE_SQL@;
    assert(part_at(t, 0, "SELECT"@));
    assert(part_at(t, 76, "experiments WHERE id = "@));
    assert(part_at(t, 654, "ORDER BY at"@));
    assert(part_at(t, 71, "FROM experiments"@));
}

/// What the text of [`INSERT_EXPERIMENT_ARTIFACT_SQL`] says.
pub proof fn insert_experiment_artifact_text()
    ensures
        opens(INSERT_EXPERIMENT_ARTIFACT_SQL@, "INSERT INTO experiment_artifacts"@),
        lines_up(
            INSERT_EXPERIMENT_ARTIFACT_SQL@,
            "INSERT INTO experiment_artifacts"@,
            "experiment_id"@,
            "VALUES ("@,
            1,
        ),
        lines_up(
            INSERT_EXPERIMENT_ARTIFACT_SQL@,
            "INSERT INTO experiment_artifacts"@,
            "project_id"@,
            "VALUES ("@,
            2,
        ),
        lines_up(
            INSERT_EXPERIMENT_ARTIFACT_SQL@,
            "INSERT INTO experiment_artifacts"@,
            "kind"@,
            "VALUES ("@,
            3,
        ),
        lines_up(
            INSERT_EXPERIMENT_ARTIFACT_SQL@,
            "INSERT INTO experiment_artifacts"@,
            "tool"@,
            "VALUES ("@,
            4,
        ),
        lines_up(
            INSERT_EXPERIMENT_ARTIFACT_SQL@,
            "INSERT INTO experiment_artifacts"@,
            "label"@,
            "VALUES ("@,
            5,
        ),
        lines_up(
            INSERT_EXPERIMENT_ARTIFACT_SQL@,
            "INSERT INTO experiment_artifacts"@,
            "content"@,
            "VALUES ("@,
            6,
        ),
        lines_up(
            INSERT_EXPERIMENT_ARTIFACT_SQL@,
            "INSERT INTO experiment_artifacts"@,
            "content_sha256"@,
            "VALUES ("@,
            7,
        ),
        lines_up(
            INSERT_EXPERIMENT_ARTIFACT_SQL@,
            "INSERT INTO experiment_artifacts"@,
            "metrics"@,
            "VALUES ("@,
            8,
        ),
        lines_up(
            INSERT_EXPERIMENT_ARTIFACT_SQL@,
            "INSERT INTO experiment_artifacts"@,
            "file_id"@,
            "VALUES ("@,
            9,
        ),
        lines_up(
            INSERT_EXPERIMENT_ARTIFACT_SQL@,
            "INSERT INTO experiment_artifacts"@,
            "embedding"@,
            "VALUES ("@,
            10,
        ),
        lines_up(
            INSERT_EXPERIMENT_ARTIFACT_SQL@,
            "INSERT INTO experiment_artifacts"@,
            "git_ref"@,
            "VALUES ("@,
            11,
        ),
{
    reveal_strlit(
        "INSERT INTO experiment_artifacts
            (experiment_id, project_id, kind, tool, label, content, content_sha256,
             metrics, file_id, embedding, git_ref)
         VALUES ($1, $2, $3, $4, $5, $6, $7, $8::jsonb, $9, $10, $11)
         RETURNING id",
    );
    reveal_strlit("INSERT INTO experiment_artifacts");
    reveal_strlit("VALUES (");
    reveal_strlit("content");
    reveal_strlit("content_sha256");
    reveal_strlit("embedding");
    reveal_strlit("experiment_id");
    reveal_strlit("file_id");
    reveal_strlit("git_ref");
    reveal_strlit("kind");
    reveal_strlit("label");
    reveal_strlit("metrics");
    reveal_strlit("project_id");
    reveal_strlit("tool");
    let t = INSERT_EXPERIMENT_ARTIFACT_SQL@;
    assert(part_at(t, 0, "INSERT INTO experiment_artifacts"@));
    reveal_with_fuel(past, 16);
    reveal_with_fuel(past_blanks, 15);
    assert(past(t, 32, '(') == 46);
    assert(item(t, 46, 0) == 46);
    assert(item(t, 46, 1) == 61);
    assert(item(t, 46, 2) == 73);
    assert(item(t, 46, 3) == 79);
    assert(item(t, 46, 4) == 85);
    assert(item(t, 46, 5) == 92);
    assert(item(t, 46, 6) == 101);
    assert(item(t, 46, 7) == 130);
    assert(item(t, 46, 8) == 139);
    assert(item(t, 46, 9) == 148);
    assert(item(t, 46, 10) == 159);
    assert(item(t, 185, 0) == 185);
    assert(item(t, 185, 1) == 189);
    assert(item(t, 185, 2) == 193);
    assert(item(t, 185, 3) == 197);
    assert(item(t, 185, 4) == 201);
    assert(item(t, 185, 5) == 205);
    assert(item(t, 185, 6) == 209);
    assert(item(t, 185, 7) == 213);
    assert(item(t, 185, 8) == 224);
    assert(item(t, 185, 9) == 228);
    assert(item(t, 185, 10) == 233);
    assert(lined_up_at(
        t,
        "INSERT INTO experiment_artifacts"@,
        "experiment_id"@,
        "VALUES ("@,
        1,
        0,
        177,
        0,
    ));
    assert(lined_up_at(
        t,
        "INSERT INTO experiment_artifacts"@,
        "project_id"@,
        "VALUES ("@,
        2,
        0,
        177,
        1,
    ));
    assert(lined_up_at(t, "INSERT INTO experiment_artifacts"@, "kind"@, "VALUES ("@, 3, 0, 177, 2));
    assert(lined_up_at(t, "INSERT INTO experiment_artifacts"@, "tool"@, "VALUES ("@, 4, 0, 177, 3));
    assert(lined_up_at(
        t,
        "INSERT INTO experiment_artifacts"@,
        "label"@,
        "VALUES ("@,
        5,
        0,
        177,
        4,
    ));
    assert(lined_up_at(
        t,
        "INSERT INTO experiment_artifacts"@,
        "content"@,
        "VALUES ("@,
        6,
        0,
        177,
        5,
    ));
    assert(lined_up_at(
        t,
        "INSERT INTO experiment_artifacts"@,
        "content_sha256"@,
        "VALUES ("@,
        7,
        0,
        177,
        6,
    ));
    assert(lined_up_at(
        t,
        "INSERT INTO experiment_artifacts"@,
        "metrics"@,
        "VALUES ("@,
        8,
        0,
        177,
        7,
    ));
    assert(lined_up_at(
        t,
        "INSERT INTO experiment_artifacts"@,
        "file_id"@,
        "VALUES ("@,
        9,
        0,
        177,
        8,
    ));
    assert(lined_up_at(
        t,
        "INSERT INTO experiment_artifacts"@,
        "embedding"@,
        "VALUES ("@,
        10,
        0,
        177,
        9,
    ));
    assert(lined_up_at(
        t,
        "INSERT INTO experiment_artifacts"@,
        "git_ref"@,
        "VALUES ("@,
        11,
        0,
        177,
        10,
    ));
}

/// What the text of [`REFRESH_RUN_SQL`] says.
pub proof fn refresh_run_text()
    ensures
        opens(REFRESH_RUN_SQL@, "UPDATE experiment_runs"@),
        mentions(REFRESH_RUN_SQL@, "WHERE id = "@, 1),
        mentions(REFRESH_RUN_SQL@, "arm_kind = "@, 2),
        mentions(REFRESH_RUN_SQL@, "command_spec = "@, 3),
        mentions(REFRESH_RUN_SQL@, "run_plan = "@, 4),
        mentions(REFRESH_RUN_SQL@, "host_meta = "@, 5),
        mentions(REFRESH_RUN_SQL@, "git_ref = "@, 6),
        mentions(REFRESH_RUN_SQL@, "runner = "@, 7),
        mentions(REFRESH_RUN_SQL@, "seed = "@, 8),
{
    reveal_strlit(
        "UPDATE experiment_runs
             SET arm_kind = $2::experiment_arm_kind, command_spec = $3::jsonb,
                 run_plan = $4::jsonb, host_meta = $5::jsonb, git_ref = $6,
                 runner = $7, seed = $8, status = 'complete', finished_at = NOW()
             WHERE id = $1",
    );
    reveal_strlit("UPDATE experiment_runs");
    reveal_strlit("WHERE id = ");
    reveal_strlit("arm_kind = ");
    reveal_strlit("command_spec = ");
    reveal_strlit("git_ref = ");
    reveal_strlit("host_meta = ");
    reveal_strlit("run_plan = ");
    reveal_strlit("runner = ");
    reveal_strlit("seed = ");
    let t = REFRESH_RUN_SQL@;
    assert(part_at(t, 0, "UPDATE experiment_runs"@));
    assert(part_at(t, 273, "WHERE id = "@));
    assert(part_at(t, 40, "arm_kind = "@));
    assert(part_at(t, 76, "command_spec = "@));
    assert(part_at(t, 119, "run_plan = "@));
    assert(part_at(t, 141, "host_meta = "@));
    assert(part_at(t, 164, "git_ref = "@));
    assert(part_at(t, 195, "runner = "@));
    assert(part_at(t, 208, "seed = "@));
}

/// What the text of [`CREATE_RUN_SQL`] says.
pub proof fn create_run_text()
    ensures
        opens(CREATE_RUN_SQL@, "INSERT INTO experiment_runs"@),
        lines_up(CREATE_RUN_SQL@, "INSERT INTO experiment_runs"@, "id"@, "VALUES ("@, 1),
        lines_up(CREATE_RUN_SQL@, "INSERT INTO experiment_runs"@, "experiment_id"@, "VALUES ("@, 2),
        lines_up(CREATE_RUN_SQL@, "INSERT INTO experiment_runs"@, "hypothesis_id"@, "VALUES ("@, 3),
        lines_up(CREATE_RUN_SQL@, "INSERT INTO experiment_runs"@, "arm_label"@, "VALUES ("@, 4),
        lines_up(CREATE_RUN_SQL@, "INSERT INTO experiment_runs"@, "arm_kind"@, "VALUES ("@, 5),
        lines_up(CREATE_RUN_SQL@, "INSERT INTO experiment_runs"@, "command_spec"@, "VALUES ("@, 6),
        lines_up(CREATE_RUN_SQL@, "INSERT INTO experiment_runs"@, "run_plan"@, "VALUES ("@, 7),
        lines_up(CREATE_RUN_SQL@, "INSERT INTO experiment_runs"@, "host_meta"@, "VALUES ("@, 8),
        lines_up(CREATE_RUN_SQL@, "INSERT INTO experiment_runs"@, "git_ref"@, "VALUES ("@, 9),
        lines_up(CREATE_RUN_SQL@, "INSERT INTO experiment_runs"@, "runner"@, "VALUES ("@, 10),
        lines_up(CREATE_RUN_SQL@, "INSERT INTO experiment_runs"@, "seed"@, "VALUES ("@, 11),
{
    reveal_strlit(
        "INSERT INTO experiment_runs
            (id, experiment_id, hypothesis_id, arm_label, arm_kind, command_spec,
             run_plan, host_meta, git_ref, runner, seed, status, started_at, finished_at)
         VALUES ($1, $2, $3, $4, $5::experiment_arm_kind, $6::jsonb, $7::jsonb,
                 $8::jsonb, $9, $10, $11, 'complete', NOW(), NOW())",
    );
    reveal_strlit("INSERT INTO experiment_runs");
    reveal_strlit("VALUES (");
    reveal_strlit("arm_kind");
    reveal_strlit("arm_label");
    reveal_strlit("command_spec");
    reveal_strlit("experiment_id");
    reveal_strlit("git_ref");
    reveal_strlit("host_meta");
    reveal_strlit("hypothesis_id");
    reveal_strlit("id");
    reveal_strlit("run_plan");
    reveal_strlit("runner");
    reveal_strlit("seed");
    let t = CREATE_RUN_SQL@;
    assert(part_at(t, 0, "INSERT INTO experiment_runs"@));
    reveal_with_fuel(past, 25);
    reveal_with_fuel(past_blanks, 19);
    assert(past(t, 27, '(') == 41);
    assert(item(t, 41, 0) == 41);
    assert(item(t, 41, 1) == 45);
    assert(item(t, 41, 2) == 60);
    assert(item(t, 41, 3) == 75);
    assert(item(t, 41, 4) == 86);
    assert(item(t, 41, 5) == 96);
    assert(item(t, 41, 6) == 123);
    assert(item(t, 41, 7) == 133);
    assert(item(t, 41, 8) == 144);
    assert(item(t, 41, 9) == 153);
    assert(item(t, 41, 10) == 161);
    assert(item(t, 217, 0) == 217);
    assert(item(t, 217, 1) == 221);
    assert(item(t, 217, 2) == 225);
    assert(item(t, 217, 3) == 229);
    assert(item(t, 217, 4) == 233);
    assert(item(t, 217, 5) == 258);
    assert(item(t, 217, 6) == 269);
    assert(item(t, 217, 7) == 297);
    assert(item(t, 217, 8) == 308);
    assert(item(t, 217, 9) == 312);
    assert(item(t, 217, 10) == 317);
    assert(lined_up_at(t, "INSERT INTO experiment_runs"@, "id"@, "VALUES ("@, 1, 0, 209, 0));
    assert(lined_up_at(
        t,
        "INSERT INTO experiment_runs"@,
        "experiment_id"@,
        "VALUES ("@,
        2,
        0,
        209,
        1,
    ));
    assert(lined_up_at(
        t,
        "INSERT INTO experiment_runs"@,
        "hypothesis_id"@,
        "VALUES ("@,
        3,
        0,
        209,
        2,
    ));
    assert(lined_up_at(t, "INSERT INTO experiment_runs"@, "arm_label"@, "VALUES ("@, 4, 0, 209, 3));
    assert(lined_up_at(t, "INSERT INTO experiment_runs"@, "arm_kind"@, "VALUES ("@, 5, 0, 209, 4));
    assert(lined_up_at(
        t,
        "INSERT INTO experiment_runs"@,
        "command_spec"@,
        "VALUES ("@,
        6,
        0,
        209,
        5,
    ));
    assert(lined_up_at(t, "INSERT INTO experiment_runs"@, "run_plan"@, "VALUES ("@, 7, 0, 209, 6));
    assert(lined_up_at(t, "INSERT INTO experiment_runs"@, "host_meta"@, "VALUES ("@, 8, 0, 209, 7));
    assert(lined_up_at(t, "INSERT INTO experiment_runs"@, "git_ref"@, "VALUES ("@, 9, 0, 209, 8));
    assert(lined_up_at(t, "INSERT INTO experiment_runs"@, "runner"@, "VALUES ("@, 10, 0, 209, 9));
    assert(lined_up_at(t, "INSERT INTO experiment_runs"@, "seed"@, "VALUES ("@, 11, 0, 209, 10));
}

/// What the text of [`INSERT_SAMPLES_SQL`] says.
pub proof fn insert_samples_text()
    ensures
        opens(INSERT_SAMPLES_SQL@, "INSERT INTO experiment_samples"@),
        lines_up(INSERT_SAMPLES_SQL@, "INSERT INTO experiment_samples"@, "run_id"@, "SELECT "@, 1),
        lines_up(INSERT_SAMPLES_SQL@, "INSERT INTO experiment_samples"@, "arm"@, "SELECT "@, 2),
        lines_up(
            INSERT_SAMPLES_SQL@,
            "INSERT INTO experiment_samples"@,
            "metric_name"@,
            "SELECT "@,
            3,
        ),
        lines_up(
            INSERT_SAMPLES_SQL@,
            "INSERT INTO experiment_samples"@,
            "is_warmup"@,
            "SELECT "@,
            7,
        ),
        lines_up(INSERT_SAMPLES_SQL@, "AS t"@, "idx"@, "UNNEST("@, 4),
        lines_up(INSERT_SAMPLES_SQL@, "AS t"@, "val"@, "UNNEST("@, 5),
        lines_up(INSERT_SAMPLES_SQL@, "AS t"@, "uk"@, "UNNEST("@, 6),
        says(INSERT_SAMPLES_SQL@, "FROM UNNEST"@),
{
    reveal_strlit(
        "INSERT INTO experiment_samples
            (run_id, arm, metric_name, replicate_index, value, unit_key, is_warmup)
         SELECT $1, $2, $3, t.idx, t.val, t.uk, $7
         FROM UNNEST($4::int[], $5::double precision[], $6::text[]) AS t(idx, val, uk)",
    );
    reveal_strlit("AS t");
    reveal_strlit("FROM UNNEST");
    reveal_strlit("INSERT INTO experiment_samples");
    reveal_strlit("SELECT ");
    reveal_strlit("UNNEST(");
    reveal_strlit("arm");
    reveal_strlit("idx");
    reveal_strlit("is_warmup");
    reveal_strlit("metric_name");
    reveal_strlit("run_id");
    reveal_strlit("uk");
    reveal_strlit("val");
    let t = INSERT_SAMPLES_SQL@;
    assert(part_at(t, 0, "INSERT INTO experiment_samples"@));
    reveal_with_fuel(past, 24);
    reveal_with_fuel(past_blanks, 2);
    assert(past(t, 30, '(') == 44);
    assert(item(t, 44, 0) == 44);
    assert(item(t, 44, 1) == 52);
    assert(item(t, 44, 2) == 57);
    assert(item(t, 44, 3) == 70);
    assert(item(t, 44, 4) == 87);
    assert(item(t, 44, 5) == 94);
    assert(item(t, 44, 6) == 104);
    assert(item(t, 131, 0) == 131);
    assert(item(t, 131, 1) == 135);
    assert(item(t, 131, 2) == 139);
    assert(item(t, 131, 3) == 143);
    assert(item(t, 131, 4) == 150);
    assert(item(t, 131, 5) == 157);
    assert(item(t, 131, 6) == 163);
    assert(past(t, 238, '(') == 239);
    assert(item(t, 239, 0) == 239);
    assert(item(t, 239, 1) == 244);
    assert(item(t, 239, 2) == 249);
    assert(item(t, 187, 0) == 187);
    assert(item(t, 187, 1) == 198);
    assert(item(t, 187, 2) == 222);
    assert(lined_up_at(t, "INSERT INTO experiment_samples"@, "run_id"@, "SELECT "@, 1, 0, 124, 0));
    assert(lined_up_at(t, "INSERT INTO experiment_samples"@, "arm"@, "SELECT "@, 2, 0, 124, 1));
    assert(lined_up_at(
        t,
        "INSERT INTO experiment_samples"@,
        "metric_name"@,
        "SELECT "@,
        3,
        0,
        124,
        2,
    ));
    assert(lined_up_at(
        t,
        "INSERT INTO experiment_samples"@,
        "is_warmup"@,
        "SELECT "@,
        7,
        0,
        124,
        6,
    ));
    assert(lined_up_at(t, "AS t"@, "idx"@, "UNNEST("@, 4, 234, 180, 0));
    assert(lined_up_at(t, "AS t"@, "val"@, "UNNEST("@, 5, 234, 180, 1));
    assert(lined_up_at(t, "AS t"@, "uk"@, "UNNEST("@, 6, 234, 180, 2));
    assert(part_at(t, 175, "FROM UNNEST"@));
}

/// What the text of [`MARK_MEASURING_SQL`] says.
pub proof fn mark_measuring_text()
    ensures
        opens(MARK_MEASURING_SQL@, "UPDATE experiments"@),
        mentions(MARK_MEASURING_SQL@, "WHERE id = "@, 1),
{
    reveal_strlit(
        "UPDATE experiments SET status = 'measuring'::experiment_status, updated_at = NOW()
             WHERE id = $1",
    );
    reveal_strlit("UPDATE experiments");
    reveal_strlit("WHERE id = ");
    let t = MARK_MEASURING_SQL@;
    assert(part_at(t, 0, "UPDATE experiments"@));
    assert(part_at(t, 96, "WHERE id = "@));
}

/// What the text of [`INSERT_EXPERIMENT_RESULT_SQL`] says.
#[verifier::rlimit(50)]
pub proof fn insert_experiment_result_text()
    ensures
        opens(INSERT_EXPERIMENT_RESULT_SQL@, "INSERT INTO experiment_results"@),
        lines_up(
            INSERT_EXPERIMENT_RESULT_SQL@,
            "INSERT INTO experiment_results"@,
            "experiment_id"@,
            "VALUES ("@,
            1,
        ),
        lines_up(
            INSERT_EXPERIMENT_RESULT_SQL@,
            "INSERT INTO experiment_results"@,
            "hypothesis_id"@,
            "VALUES ("@,
            2,
        ),
        lines_up(
            INSERT_EXPERIMENT_RESULT_SQL@,
            "INSERT INTO experiment_results"@,
            "test_type"@,
            "VALUES ("@,
            3,
        ),
        lines_up(
            INSERT_EXPERIMENT_RESULT_SQL@,
            "INSERT INTO experiment_results"@,
            "metric_name"@,
            "VALUES ("@,
            4,
        ),
        lines_up(
            INSERT_EXPERIMENT_RESULT_SQL@,
            "INSERT INTO experiment_results"@,
            "control_run_id"@,
            "VALUES ("@,
            5,
        ),
        lines_up(
            INSERT_EXPERIMENT_RESULT_SQL@,
            "INSERT INTO experiment_results"@,
            "treatment_run_id"@,
            "VALUES ("@,
            6,
        ),
        lines_up(
            INSERT_EXPERIMENT_RESULT_SQL@,
            "INSERT INTO experiment_results"@,
            "statistic"@,
            "VALUES ("@,
            7,
        ),
        lines_up(
            INSERT_EXPERIMENT_RESULT_SQL@,
            "INSERT INTO experiment_results"@,
            "df"@,
            "VALUES ("@,
            8,
        ),
        lines_up(
            INSERT_EXPERIMENT_RESULT_SQL@,
            "INSERT INTO experiment_results"@,
            "p_value"@,
            "VALUES ("@,
            9,
        ),
        lines_up(
            INSERT_EXPERIMENT_RESULT_SQL@,
            "INSERT INTO experiment_results"@,
            "effect_size"@,
            "VALUES ("@,
            10,
        ),
        lines_up(
            INSERT_EXPERIMENT_RESULT_SQL@,
            "INSERT INTO experiment_results"@,
            "effect_size_kind"@,
            "VALUES ("@,
            11,
        ),
        lines_up(
            INSERT_EXPERIMENT_RESULT_SQL@,
            "INSERT INTO experiment_results"@,
            "ci_low"@,
            "VALUES ("@,
            12,
        ),
        lines_up(
            INSERT_EXPERIMENT_RESULT_SQL@,
            "INSERT INTO experiment_results"@,
            "ci_high"@,
            "VALUES ("@,
            13,
        ),
        lines_up(
            INSERT_EXPERIMENT_RESULT_SQL@,
            "INSERT INTO experiment_results"@,
            "ci_level"@,
            "VALUES ("@,
            14,
        ),
        lines_up(
            INSERT_EXPERIMENT_RESULT_SQL@,
            "INSERT INTO experiment_results"@,
            "verdict"@,
            "VALUES ("@,
            15,
        ),
        lines_up(
            INSERT_EXPERIMENT_RESULT_SQL@,
            "INSERT INTO experiment_results"@,
            "accepted"@,
            "VALUES ("@,
            16,
        ),
        lines_up(
            INSERT_EXPERIMENT_RESULT_SQL@,
            "INSERT INTO experiment_results"@,
            "correction"@,
            "VALUES ("@,
            17,
        ),
        lines_up(
            INSERT_EXPERIMENT_RESULT_SQL@,
            "INSERT INTO experiment_results"@,
            "criterion_snapshot"@,
            "VALUES ("@,
            18,
        ),
        lines_up(
            INSERT_EXPERIMENT_RESULT_SQL@,
            "INSERT INTO experiment_results"@,
            "test_result"@,
            "VALUES ("@,
            19,
        ),
        lines_up(
            INSERT_EXPERIMENT_RESULT_SQL@,
            "INSERT INTO experiment_results"@,
            "rationale"@,
            "VALUES ("@,
            20,
        ),
        lines_up(
            INSERT_EXPERIMENT_RESULT_SQL@,
            "INSERT INTO experiment_results"@,
            "decided_by"@,
            "VALUES ("@,
            21,
        ),
        lines_up(
            INSERT_EXPERIMENT_RESULT_SQL@,
            "INSERT INTO experiment_results"@,
            "embedding"@,
            "VALUES ("@,
            22,
        ),
        lines_up(
            INSERT_EXPERIMENT_RESULT_SQL@,
            "INSERT INTO experiment_results"@,
            "observation_id"@,
            "VALUES ("@,
            23,
        ),
{
    reveal_strlit(
        "INSERT INTO experiment_results
            (experiment_id, hypothesis_id, test_type, metric_name, control_run_id,
             treatment_run_id, statistic, df, p_value, effect_size, effect_size_kind,
             ci_low, ci_high, ci_level, verdict, accepted, correction,
             criterion_snapshot, test_result, rationale, decided_by, embedding,
             observation_id)
         VALUES ($1, $2, $3, $4, $5, $6, $7, $8, $9, $10, $11, $12, $13, $14,
                 $15::hypothesis_verdict, $16, $17, $18::jsonb, $19::jsonb, $20, $21, $22, $23)
         RETURNING id",
    );
    reveal_strlit("INSERT INTO experiment_results");
    reveal_strlit("VALUES (");
    reveal_strlit("accepted");
    reveal_strlit("ci_high");
    reveal_strlit("ci_level");
    reveal_strlit("ci_low");
    reveal_strlit("control_run_id");
    reveal_strlit("correction");
    reveal_strlit("criterion_snapshot");
    reveal_strlit("decided_by");
    reveal_strlit("df");
    reveal_strlit("effect_size");
    reveal_strlit("effect_size_kind");
    reveal_strlit("embedding");
    reveal_strlit("experiment_id");
    reveal_strlit("hypothesis_id");
    reveal_strlit("metric_name");
    reveal_strlit("observation_id");
    reveal_strlit("p_value");
    reveal_strlit("rationale");
    reveal_strlit("statistic");
    reveal_strlit("test_result");
    reveal_strlit("test_type");
    reveal_strlit("treatment_run_id");
    reveal_strlit("verdict");
    let t = INSERT_EXPERIMENT_RESULT_SQL@;
    assert(part_at(t, 0, "INSERT INTO experiment_results"@));
    reveal_with_fuel(past, 25);
    reveal_with_fuel(past_blanks, 19);
    assert(past(t, 30, '(') == 44);
    assert(item(t, 44, 0) == 44);
    assert(item(t, 44, 1) == 59);
    assert(item(t, 44, 2) == 74);
    assert(item(t, 44, 3) == 85);
    assert(item(t, 44, 4) == 98);
    assert(item(t, 44, 5) == 127);
    assert(item(t, 44, 6) == 145);
    assert(item(t, 44, 7) == 156);
    assert(item(t, 44, 8) == 160);
    assert(item(t, 44, 9) == 169);
    assert(item(t, 44, 10) == 182);
    assert(item(t, 44, 11) == 213);
    assert(item(t, 44, 12) == 221);
    assert(item(t, 44, 13) == 230);
    assert(item(t, 44, 14) == 240);
    assert(item(t, 44, 15) == 249);
    assert(item(t, 44, 16) == 259);
    assert(item(t, 44, 17) == 284);
    assert(item(t, 44, 18) == 304);
    assert(item(t, 44, 19) == 317);
    assert(item(t, 44, 20) == 328);
    assert(item(t, 44, 21) == 340);
    assert(item(t, 44, 22) == 364);
    assert(item(t, 397, 0) == 397);
    assert(item(t, 397, 1) == 401);
    assert(item(t, 397, 2) == 405);
    assert(item(t, 397, 3) == 409);
    assert(item(t, 397, 4) == 413);
    assert(item(t, 397, 5) == 417);
    assert(item(t, 397, 6) == 421);
    assert(item(t, 397, 7) == 425);
    assert(item(t, 397, 8) == 429);
    assert(item(t, 397, 9) == 433);
    assert(item(t, 397, 10) == 438);
    assert(item(t, 397, 11) == 443);
    assert(item(t, 397, 12) == 448);
    assert(item(t, 397, 13) == 453);
    assert(item(t, 397, 14) == 475);
    assert(item(t, 397, 15) == 500);
    assert(item(t, 397, 16) == 505);
    assert(item(t, 397, 17) == 510);
    assert(item(t, 397, 18) == 522);
    assert(item(t, 397, 19) == 534);
    assert(item(t, 397, 20) == 539);
    assert(item(t, 397, 21) == 544);
    assert(item(t, 397, 22) == 549);
    assert(lined_up_at(
        t,
        "INSERT INTO experiment_results"@,
        "experiment_id"@,
        "VALUES ("@,
        1,
        0,
        389,
        0,
    ));
    assert(lined_up_at(
        t,
        "INSERT INTO experiment_results"@,
        "hypothesis_id"@,
        "VALUES ("@,
        2,
        0,
        389,
        1,
    ));
    assert(lined_up_at(
        t,
        "INSERT INTO experiment_results"@,
        "test_type"@,
        "VALUES ("@,
        3,
        0,
        389,
        2,
    ));
    assert(lined_up_at(
        t,
        "INSERT INTO experiment_results"@,
        "metric_name"@,
        "VALUES ("@,
        4,
        0,
        389,
        3,
    ));
    assert(lined_up_at(
        t,
        "INSERT INTO experiment_results"@,
        "control_run_id"@,
        "VALUES ("@,
        5,
        0,
        389,
        4,
    ));
    assert(lined_up_at(
        t,
        "INSERT INTO experiment_results"@,
        "treatment_run_id"@,
        "VALUES ("@,
        6,
        0,
        389,
        5,
    ));
    assert(lined_up_at(
        t,
        "INSERT INTO experiment_results"@,
        "statistic"@,
        "VALUES ("@,
        7,
        0,
        389,
        6,
    ));
    assert(lined_up_at(t, "INSERT INTO experiment_results"@, "df"@, "VALUES ("@, 8, 0, 389, 7));
    assert(lined_up_at(
        t,
        "INSERT INTO experiment_results"@,
        "p_value"@,
        "VALUES ("@,
        9,
        0,
        389,
        8,
    ));
    assert(lined_up_at(
        t,
        "INSERT INTO experiment_results"@,
        "effect_size"@,
        "VALUES ("@,
        10,
        0,
        389,
        9,
    ));
    assert(lined_up_at(
        t,
        "INSERT INTO experiment_results"@,
        "effect_size_kind"@,
        "VALUES ("@,
        11,
        0,
        389,
        10,
    ));
    assert(lined_up_at(
        t,
        "INSERT INTO experiment_results"@,
        "ci_low"@,
        "VALUES ("@,
        12,
        0,
        389,
        11,
    ));
    assert(lined_up_at(
        t,
        "INSERT INTO experiment_results"@,
        "ci_high"@,
        "VALUES ("@,
        13,
        0,
        389,
        12,
    ));
    assert(lined_up_at(
        t,
        "INSERT INTO experiment_results"@,
        "ci_level"@,
        "VALUES ("@,
        14,
        0,
        389,
        13,
    ));
    assert(lined_up_at(
        t,
        "INSERT INTO experiment_results"@,
        "verdict"@,
        "VALUES ("@,
        15,
        0,
        389,
        14,
    ));
    assert(lined_up_at(
        t,
        "INSERT INTO experiment_results"@,
        "accepted"@,
        "VALUES ("@,
        16,
        0,
        389,
        15,
    ));
    assert(lined_up_at(
        t,
        "INSERT INTO experiment_results"@,
        "correction"@,
        "VALUES ("@,
        17,
        0,
        389,
        16,
    ));
    assert(lined_up_at(
        t,
        "INSERT INTO experiment_results"@,
        "criterion_snapshot"@,
        "VALUES ("@,
        18,
        0,
        389,
        17,
    ));
    assert(lined_up_at(
        t,
        "INSERT INTO experiment_results"@,
        "test_result"@,
        "VALUES ("@,
        19,
        0,
        389,
        18,
    ));
    assert(lined_up_at(
        t,
        "INSERT INTO experiment_results"@,
        "rationale"@,
        "VALUES ("@,
        20,
        0,
        389,
        19,
    ));
    assert(lined_up_at(
        t,
        "INSERT INTO experiment_results"@,
        "decided_by"@,
        "VALUES ("@,
        21,
        0,
        389,
        20,
    ));
    assert(lined_up_at(
        t,
        "INSERT INTO experiment_results"@,
        "embedding"@,
        "VALUES ("@,
        22,
        0,
        389,
        21,
    ));
    assert(lined_up_at(
        t,
        "INSERT INTO experiment_results"@,
        "observation_id"@,
        "VALUES ("@,
        23,
        0,
        389,
        22,
    ));
}

/// What the text of [`EXACT_FILE_SQL`] says.
pub proof fn exact_file_text()
    ensures
        opens(EXACT_FILE_SQL@, "SELECT"@),
        mentions(EXACT_FILE_SQL@, "path = "@, 1),
        mentions(EXACT_FILE_SQL@, "project_id = "@, 2),
        says(EXACT_FILE_SQL@, "FROM indexed_files"@),
{
    reveal_strlit(
        "SELECT id FROM indexed_files
         WHERE path = $1 AND ($2::int IS NULL OR project_id = $2)
         LIMIT 1",
    );
    reveal_strlit("FROM indexed_files");
    reveal_strlit("SELECT");
    reveal_strlit("path = ");
    reveal_strlit("project_id = ");
    let t = EXACT_FILE_SQL@;
    assert(part_at(t, 0, "SELECT"@));
    assert(part_at(t, 44, "path = "@));
    assert(part_at(t, 78, "project_id = "@));
    assert(part_at(t, 10, "FROM indexed_files"@));
}

/// What the text of [`SUFFIX_FILE_SQL`] says.
pub proof fn suffix_file_text()
    ensures
        opens(SUFFIX_FILE_SQL@, "SELECT"@),
        mentions(SUFFIX_FILE_SQL@, "path LIKE '%' || "@, 1),
        mentions(SUFFIX_FILE_SQL@, "project_id = "@, 2),
        says(SUFFIX_FILE_SQL@, "ORDER BY length(path) ASC"@),
        says(SUFFIX_FILE_SQL@, "FROM indexed_files"@),
{
    reveal_strlit(
        "SELECT id FROM indexed_files
         WHERE path LIKE '%' || $1 AND ($2::int IS NULL OR project_id = $2)
         ORDER BY length(path) ASC
         LIMIT 1",
    );
    reveal_strlit("FROM indexed_files");
    reveal_strlit("ORDER BY length(path) ASC");
    reveal_strlit("SELECT");
    reveal_strlit("path LIKE '%' || ");
    reveal_strlit("project_id = ");
    let t = SUFFIX_FILE_SQL@;
    assert(part_at(t, 0, "SELECT"@));
    assert(part_at(t, 44, "path LIKE '%' || "@));
    assert(part_at(t, 88, "project_id = "@));
    assert(part_at(t, 114, "ORDER BY length(path) ASC"@));
    assert(part_at(t, 10, "FROM indexed_files"@));
}

/// Each argument of [`finds_run`] is what the text names in its place.
pub proof fn law_finds_run_stands_for_its_values(r: RecordExperimentMeasurement)
    ensures
        opens(finds_run(r).sql, "SELECT"@),
        takes(finds_run(r), "experiment_id = "@, BindView::BigInt(r.experiment_id)),
        takes(
            finds_run(r),
            "hypothesis_id IS NOT DISTINCT FROM "@,
            BindView::OptBigInt(r.hypothesis_id),
        ),
        takes(finds_run(r), "arm_label = "@, BindView::Text(r.arm_label@)),
        says(finds_run(r).sql, "FROM experiment_runs"@),
{
    find_experiment_run_id_text();
    assert(finds_run(r).sql == FIND_EXPERIMENT_RUN_ID_SQL@);
}

/// Each argument of [`inserts_samples`] is what the text names in its place.
pub proof fn law_inserts_samples_stands_for_its_values(
    arm: Seq<char>,
    metric_name: Seq<char>,
    n: usize,
    keys: Option<Seq<Seq<char>>>,
    is_warmup: bool,
)
    ensures
        opens(
            inserts_samples(arm, metric_name, n, keys, is_warmup).sql,
            "INSERT INTO experiment_samples"@,
        ),
        fills(
            inserts_samples(arm, metric_name, n, keys, is_warmup),
            "INSERT INTO experiment_samples"@,
            "run_id"@,
            "SELECT "@,
            BindView::Supplied(0),
        ),
        fills(
            inserts_samples(arm, metric_name, n, keys, is_warmup),
            "INSERT INTO experiment_samples"@,
            "arm"@,
            "SELECT "@,
            BindView::Text(arm),
        ),
        fills(
            inserts_samples(arm, metric_name, n, keys, is_warmup),
            "INSERT INTO experiment_samples"@,
            "metric_name"@,
            "SELECT "@,
            BindView::Text(metric_name),
        ),
        fills(
            inserts_samples(arm, metric_name, n, keys, is_warmup),
            "INSERT INTO experiment_samples"@,
            "is_warmup"@,
            "SELECT "@,
            BindView::Bool(is_warmup),
        ),
        fills(
            inserts_samples(arm, metric_name, n, keys, is_warmup),
            "AS t"@,
            "idx"@,
            "UNNEST("@,
            BindView::IntArray(sample_indices(n)),
        ),
        fills(
            inserts_samples(arm, metric_name, n, keys, is_warmup),
            "AS t"@,
            "val"@,
            "UNNEST("@,
            BindView::Supplied(1),
        ),
        fills(
            inserts_samples(arm, metric_name, n, keys, is_warmup),
            "AS t"@,
            "uk"@,
            "UNNEST("@,
            BindView::OptTextArray(sample_keys(n, keys)),
        ),
        says(inserts_samples(arm, metric_name, n, keys, is_warmup).sql, "FROM UNNEST"@),
{
    insert_samples_text();
    assert(inserts_samples(arm, metric_name, n, keys, is_warmup).sql == INSERT_SAMPLES_SQL@);
}

/// Each argument of [`marks_measuring`] is what the text names in its place.
pub proof fn law_marks_measuring_stands_for_its_values(experiment_id: i64)
    ensures
        opens(marks_measuring(experiment_id).sql, "UPDATE experiments"@),
        takes(marks_measuring(experiment_id), "WHERE id = "@, BindView::BigInt(experiment_id)),
{
    mark_measuring_text();
    assert(marks_measuring(experiment_id).sql == MARK_MEASURING_SQL@);
}

/// Each argument of [`inserts_result`] is what the text names in its place.
pub proof fn law_inserts_result_stands_for_its_values(r: InsertExperimentResult)
    ensures
        opens(inserts_result(r).sql, "INSERT INTO experiment_results"@),
        fills(
            inserts_result(r),
            "INSERT INTO experiment_results"@,
            "experiment_id"@,
            "VALUES ("@,
            BindView::BigInt(r.experiment_id),
        ),
        fills(
            inserts_result(r),
            "INSERT INTO experiment_results"@,
            "hypothesis_id"@,
            "VALUES ("@,
            BindView::BigInt(r.hypothesis_id),
        ),
        fills(
            inserts_result(r),
            "INSERT INTO experiment_results"@,
            "test_type"@,
            "VALUES ("@,
            BindView::Text(r.test_type@),
        ),
        fills(
            inserts_result(r),
            "INSERT INTO experiment_results"@,
            "metric_name"@,
            "VALUES ("@,
            BindView::Text(r.metric_name@),
        ),
        fills(
            inserts_result(r),
            "INSERT INTO experiment_results"@,
            "control_run_id"@,
            "VALUES ("@,
            BindView::Supplied(0),
        ),
        fills(
            inserts_result(r),
            "INSERT INTO experiment_results"@,
            "treatment_run_id"@,
            "VALUES ("@,
            BindView::Supplied(1),
        ),
        fills(
            inserts_result(r),
            "INSERT INTO experiment_results"@,
            "statistic"@,
            "VALUES ("@,
            BindView::Supplied(2),
        ),
        fills(
            inserts_result(r),
            "INSERT INTO experiment_results"@,
            "df"@,
            "VALUES ("@,
            BindView::Supplied(3),
        ),
        fills(
            inserts_result(r),
            "INSERT INTO experiment_results"@,
            "p_value"@,
            "VALUES ("@,
            BindView::Supplied(4),
        ),
        fills(
            inserts_result(r),
            "INSERT INTO experiment_results"@,
            "effect_size"@,
            "VALUES ("@,
            BindView::Supplied(5),
        ),
        fills(
            inserts_result(r),
            "INSERT INTO experiment_results"@,
            "effect_size_kind"@,
            "VALUES ("@,
            BindView::OptText(opt_text(r.effect_size_kind)),
        ),
        fills(
            inserts_result(r),
            "INSERT INTO experiment_results"@,
            "ci_low"@,
            "VALUES ("@,
            BindView::Supplied(6),
        ),
        fills(
            inserts_result(r),
            "INSERT INTO experiment_results"@,
            "ci_high"@,
            "VALUES ("@,
            BindView::Supplied(7),
        ),
        fills(
            inserts_result(r),
            "INSERT INTO experiment_results"@,
            "ci_level"@,
            "VALUES ("@,
            BindView::Supplied(8),
        ),
        fills(
            inserts_result(r),
            "INSERT INTO experiment_results"@,
            "verdict"@,
            "VALUES ("@,
            BindView::Text(r.verdict@),
        ),
        fills(
            inserts_result(r),
            "INSERT INTO experiment_results"@,
            "accepted"@,
            "VALUES ("@,
            BindView::Bool(r.accepted),
        ),
        fills(
            inserts_result(r),
            "INSERT INTO experiment_results"@,
            "correction"@,
            "VALUES ("@,
            BindView::OptText(opt_text(r.correction)),
        ),
        fills(
            inserts_result(r),
            "INSERT INTO experiment_results"@,
            "criterion_snapshot"@,
            "VALUES ("@,
            BindView::Text(r.criterion_snapshot_json@),
        ),
        fills(
            inserts_result(r),
            "INSERT INTO experiment_results"@,
            "test_result"@,
            "VALUES ("@,
            BindView::Text(r.test_result_json@),
        ),
        fills(
            inserts_result(r),
            "INSERT INTO experiment_results"@,
            "rationale"@,
            "VALUES ("@,
            BindView::OptText(opt_text(r.rationale)),
        ),
        fills(
            inserts_result(r),
            "INSERT INTO experiment_results"@,
            "decided_by"@,
            "VALUES ("@,
            BindView::OptText(opt_text(r.decided_by)),
        ),
        fills(
            inserts_result(r),
            "INSERT INTO experiment_results"@,
            "embedding"@,
            "VALUES ("@,
            BindView::Supplied(9),
        ),
        fills(
            inserts_result(r),
            "INSERT INTO experiment_results"@,
            "observation_id"@,
            "VALUES ("@,
            BindView::OptBigInt(r.observation_id),
        ),
{
    insert_experiment_result_text();
    assert(inserts_result(r).sql == INSERT_EXPERIMENT_RESULT_SQL@);
}

/// A run that was found is refreshed and one that was not is created; either way
/// each column gets the field of its name.
pub proof fn law_run_is_refreshed_or_created(found: bool, r: RecordExperimentMeasurement)
    ensures
        found ==> opens(writes_run(found, r).sql, "UPDATE experiment_runs"@),
        found ==> takes(writes_run(found, r), "WHERE id = "@, BindView::Supplied(0)),
        found ==> takes(writes_run(found, r), "arm_kind = "@, BindView::Text(r.arm_kind@)),
        found ==> takes(
            writes_run(found, r),
            "command_spec = "@,
            BindView::Text(r.command_spec_json@),
        ),
        found ==> takes(writes_run(found, r), "run_plan = "@, BindView::Text(r.run_plan_json@)),
        found ==> takes(writes_run(found, r), "host_meta = "@, BindView::Text(r.host_meta_json@)),
        found ==> takes(
            writes_run(found, r),
            "git_ref = "@,
            BindView::OptText(opt_text(r.git_ref)),
        ),
        found ==> takes(writes_run(found, r), "runner = "@, BindView::OptText(opt_text(r.runner))),
        found ==> takes(writes_run(found, r), "seed = "@, BindView::BigInt(r.seed)),
        !found ==> opens(writes_run(found, r).sql, "INSERT INTO experiment_runs"@),
        !found ==> fills(
            writes_run(found, r),
            "INSERT INTO experiment_runs"@,
            "id"@,
            "VALUES ("@,
            BindView::Supplied(0),
        ),
        !found ==> fills(
            writes_run(found, r),
            "INSERT INTO experiment_runs"@,
            "experiment_id"@,
            "VALUES ("@,
            BindView::BigInt(r.experiment_id),
        ),
        !found ==> fills(
            writes_run(found, r),
            "INSERT INTO experiment_runs"@,
            "hypothesis_id"@,
            "VALUES ("@,
            BindView::OptBigInt(r.hypothesis_id),
        ),
        !found ==> fills(
            writes_run(found, r),
            "INSERT INTO experiment_runs"@,
            "arm_label"@,
            "VALUES ("@,
            BindView::Text(r.arm_label@),
        ),
        !found ==> fills(
            writes_run(found, r),
            "INSERT INTO experiment_runs"@,
            "arm_kind"@,
            "VALUES ("@,
            BindView::Text(r.arm_kind@),
        ),
        !found ==> fills(
            writes_run(found, r),
            "INSERT INTO experiment_runs"@,
            "command_spec"@,
            "VALUES ("@,
            BindView::Text(r.command_spec_json@),
        ),
        !found ==> fills(
            writes_run(found, r),
            "INSERT INTO experiment_runs"@,
            "run_plan"@,
            "VALUES ("@,
            BindView::Text(r.run_plan_json@),
        ),
        !found ==> fills(
            writes_run(found, r),
            "INSERT INTO experiment_runs"@,
            "host_meta"@,
            "VALUES ("@,
            BindView::Text(r.host_meta_json@),
        ),
        !found ==> fills(
            writes_run(found, r),
            "INSERT INTO experiment_runs"@,
            "git_ref"@,
            "VALUES ("@,
            BindView::OptText(opt_text(r.git_ref)),
        ),
        !found ==> fills(
            writes_run(found, r),
            "INSERT INTO experiment_runs"@,
            "runner"@,
            "VALUES ("@,
            BindView::OptText(opt_text(r.runner)),
        ),
        !found ==> fills(
            writes_run(found, r),
            "INSERT INTO experiment_runs"@,
            "seed"@,
            "VALUES ("@,
            BindView::BigInt(r.seed),
        ),
{
    if found {
        refresh_run_text();
        assert(writes_run(found, r).sql == REFRESH_RUN_SQL@);
    }
    if !found {
        create_run_text();
        assert(writes_run(found, r).sql == CREATE_RUN_SQL@);
    }
}

/// A decision judges its hypothesis, closes its experiment, and links both to the
/// observation, if there is one.
pub proof fn law_decision_is_published_where_it_belongs(d: Decision)
    ensures
        d.stage is JudgingHypothesis ==> opens(
            d.request()->Run_0.sql,
            "UPDATE experiment_hypotheses"@,
        ),
        d.stage is JudgingHypothesis ==> takes(
            d.request()->Run_0,
            "$2::hypothesis_verdict WHERE id = "@,
            BindView::BigInt(d.input.hypothesis_id),
        ),
        d.stage is JudgingHypothesis ==> takes(
            d.request()->Run_0,
            "verdict = "@,
            BindView::Text(d.input.verdict@),
        ),
        d.stage is ClosingExperiment ==> opens(d.request()->Run_0.sql, "UPDATE experiments"@),
        d.stage is ClosingExperiment ==> takes(
            d.request()->Run_0,
            "NOW() WHERE id = "@,
            BindView::BigInt(d.input.experiment_id),
        ),
        d.stage is ClosingExperiment ==> takes(
            d.request()->Run_0,
            "status = "@,
            BindView::Text("decided"@),
        ),
        d.stage is LinkingResult && d.input.observation_id is Some ==> opens(
            d.request()->Run_0.sql,
            "UPDATE experiment_results"@,
        ),
        d.stage is LinkingResult && d.input.observation_id is Some ==> takes(
            d.request()->Run_0,
            "$2 WHERE id = "@,
            BindView::BigInt(d.result_id),
        ),
        d.stage is LinkingResult && d.input.observation_id is Some ==> takes(
            d.request()->Run_0,
            "observation_id = "@,
            BindView::BigInt(d.input.observation_id->0),
        ),
        d.stage is LinkingExperiment && d.input.observation_id is Some ==> opens(
            d.request()->Run_0.sql,
            "UPDATE experiments"@,
        ),
        d.stage is LinkingExperiment && d.input.observation_id is Some ==> takes(
            d.request()->Run_0,
            "NOW() WHERE id = "@,
            BindView::BigInt(d.input.experiment_id),
        ),
        d.stage is LinkingExperiment && d.input.observation_id is Some ==> takes(
            d.request()->Run_0,
            "observation_id = "@,
            BindView::BigInt(d.input.observation_id->0),
        ),
{
    if d.stage is JudgingHypothesis {
        set_hypothesis_verdict_text();
        assert(d.request()->Run_0.sql == SET_HYPOTHESIS_VERDICT_SQL@);
    }
    if d.stage is ClosingExperiment {
        set_experiment_status_text();
        assert(d.request()->Run_0.sql == SET_EXPERIMENT_STATUS_SQL@);
    }
    if d.stage is LinkingResult && d.input.observation_id is Some {
        set_result_observation_id_text();
        assert(d.request()->Run_0.sql == SET_RESULT_OBSERVATION_ID_SQL@);
    }
    if d.stage is LinkingExperiment && d.input.observation_id is Some {
        set_experiment_observation_id_text();
        assert(d.request()->Run_0.sql == SET_EXPERIMENT_OBSERVATION_ID_SQL@);
    }
}

/// The samples of a measurement are stored under its arm and its metric.
pub proof fn law_samples_are_of_the_measurement(m: Measurement)
    requires
        m.stage is Sampling,
    ensures
        m.request() matches ActionView::Run(st) && fills(
            st,
            "INSERT INTO experiment_samples"@,
            "arm"@,
            "SELECT "@,
            BindView::Text(m.input.arm_label@),
        ) && fills(
            st,
            "INSERT INTO experiment_samples"@,
            "metric_name"@,
            "SELECT "@,
            BindView::Text(m.input.metric_name@),
        ) && fills(
            st,
            "INSERT INTO experiment_samples"@,
            "is_warmup"@,
            "SELECT "@,
            BindView::Bool(m.input.is_warmup),
        ),
{
    let r = m.input;
    law_inserts_samples_stands_for_its_values(
        r.arm_label@,
        r.metric_name@,
        r.sample_count,
        opt_key_texts(r.unit_keys),
        r.is_warmup,
    );
}

} // verus!
