//! What the statements of `memory_crud` say.
use vstd::prelude::*;

use crate::meaning::{
    ends_plainly, fills, item, lemma_within, lined_up_at, lines_up, mentions, opens, part_at, past,
    past_blanks, says, takes,
};
use crate::protocol::{ActionView, ReplyView};
use crate::queries::memory_crud::{
    eval_queries, purgeable, purges_expired, ForgettingView, CONCEPT_SEED_TOPICS_SQL,
    COUNT_ANCHORS_SQL, COUNT_OBSERVATIONS_SQL, COUNT_RELATIONS_SQL, COUNT_SCOPES_SQL,
    COUNT_TIERS_SQL, ERASE_ENTITY_SQL, ERASE_OBSERVATION_SQL, ERASE_RELATION_SQL,
    EVAL_ENTITIES_TEMPORAL_INVALID_SQL, EVAL_ENTITY_SUPERSEDE_CYCLES_SQL,
    EVAL_FORGET_LOG_DANGLING_SQL, EVAL_OBSERVATIONS_TEMPORAL_INVALID_SQL,
    EVAL_OBSERVATION_SUPERSEDE_CYCLES_SQL, EVAL_ORPHAN_OBSERVATIONS_SQL,
    EVAL_REFLECTION_DERIVED_FROM_MISSING_SQL, EVAL_RELATIONS_TEMPORAL_INVALID_SQL,
    EVAL_RELATION_SUPERSEDE_CYCLES_SQL, EVAL_STALE_CODE_ANCHORS_SQL, EXPIRE_ENTITY_SQL,
    EXPIRE_OBSERVATION_SQL, EXPIRE_RELATION_SQL, FIND_AUTO_ENTITY_SQL, FIND_SCOPE_SQL,
    INSERT_AUTO_ENTITY_SQL, INSERT_SCOPE_SQL, LOG_FORGET_SQL, MEMORY_DELETE_ENTITIES_SQL,
    PURGEABLE_ENTITIES, PURGEABLE_OBSERVATIONS, PURGEABLE_RELATIONS, RECORD_MEMORY_EVAL_REPORT_SQL,
};
use crate::statement::BindView;

verus! {

/// What the text of [`LOG_FORGET_SQL`] says.
pub proof fn log_forget_text()
    ensures
        opens(LOG_FORGET_SQL@, "INSERT INTO memory_forget_log"@),
        lines_up(LOG_FORGET_SQL@, "INSERT INTO memory_forget_log"@, "actor"@, "VALUES ("@, 1),
        lines_up(LOG_FORGET_SQL@, "INSERT INTO memory_forget_log"@, "target_type"@, "VALUES ("@, 2),
        lines_up(LOG_FORGET_SQL@, "INSERT INTO memory_forget_log"@, "target_id"@, "VALUES ("@, 3),
        lines_up(LOG_FORGET_SQL@, "INSERT INTO memory_forget_log"@, "cascade"@, "VALUES ("@, 4),
        lines_up(
            LOG_FORGET_SQL@,
            "INSERT INTO memory_forget_log"@,
            "rows_affected"@,
            "VALUES ("@,
            5,
        ),
        lines_up(
            LOG_FORGET_SQL@,
            "INSERT INTO memory_forget_log"@,
            "manifest_json"@,
            "VALUES ("@,
            6,
        ),
{
    reveal_strlit(
        "INSERT INTO memory_forget_log
            (actor, target_type, target_id, cascade, rows_affected, manifest_json)
         VALUES ($1, $2, $3, $4, $5, $6)
         RETURNING id",
    );
    reveal_strlit("INSERT INTO memory_forget_log");
    reveal_strlit("VALUES (");
    reveal_strlit("actor");
    reveal_strlit("cascade");
    reveal_strlit("manifest_json");
    reveal_strlit("rows_affected");
    reveal_strlit("target_id");
    reveal_strlit("target_type");
    let t = LOG_FORGET_SQL@;
    assert(part_at(t, 0, "INSERT INTO memory_forget_log"@));
    reveal_with_fuel(past, 15);
    reveal_with_fuel(past_blanks, 2);
    assert(past(t, 29, '(') == 43);
    assert(item(t, 43, 0) == 43);
    assert(item(t, 43, 1) == 50);
    assert(item(t, 43, 2) == 63);
    assert(item(t, 43, 3) == 74);
    assert(item(t, 43, 4) == 83);
    assert(item(t, 43, 5) == 98);
    assert(item(t, 130, 0) == 130);
    assert(item(t, 130, 1) == 134);
    assert(item(t, 130, 2) == 138);
    assert(item(t, 130, 3) == 142);
    assert(item(t, 130, 4) == 146);
    assert(item(t, 130, 5) == 150);
    assert(lined_up_at(t, "INSERT INTO memory_forget_log"@, "actor"@, "VALUES ("@, 1, 0, 122, 0));
    assert(lined_up_at(
        t,
        "INSERT INTO memory_forget_log"@,
        "target_type"@,
        "VALUES ("@,
        2,
        0,
        122,
        1,
    ));
    assert(lined_up_at(
        t,
        "INSERT INTO memory_forget_log"@,
        "target_id"@,
        "VALUES ("@,
        3,
        0,
        122,
        2,
    ));
    assert(lined_up_at(t, "INSERT INTO memory_forget_log"@, "cascade"@, "VALUES ("@, 4, 0, 122, 3));
    assert(lined_up_at(
        t,
        "INSERT INTO memory_forget_log"@,
        "rows_affected"@,
        "VALUES ("@,
        5,
        0,
        122,
        4,
    ));
    assert(lined_up_at(
        t,
        "INSERT INTO memory_forget_log"@,
        "manifest_json"@,
        "VALUES ("@,
        6,
        0,
        122,
        5,
    ));
}

/// What the text of [`MEMORY_DELETE_ENTITIES_SQL`] says.
pub proof fn memory_delete_entities_text()
    ensures
        opens(MEMORY_DELETE_ENTITIES_SQL@, "UPDATE memory_entities"@),
        mentions(MEMORY_DELETE_ENTITIES_SQL@, "name = ANY("@, 1),
{
    reveal_strlit(
        "UPDATE memory_entities
            SET valid_to = NOW()
          WHERE name = ANY($1) AND valid_to IS NULL",
    );
    reveal_strlit("UPDATE memory_entities");
    reveal_strlit("name = ANY(");
    let t = MEMORY_DELETE_ENTITIES_SQL@;
    assert(part_at(t, 0, "UPDATE memory_entities"@));
    assert(part_at(t, 72, "name = ANY("@));
}

/// What the text of [`CONCEPT_SEED_TOPICS_SQL`] says.
pub proof fn concept_seed_topics_text()
    ensures
        opens(CONCEPT_SEED_TOPICS_SQL@, "SELECT"@),
        mentions(CONCEPT_SEED_TOPICS_SQL@, "chunk_count >= "@, 1),
        mentions(CONCEPT_SEED_TOPICS_SQL@, "LIMIT "@, 2),
        says(CONCEPT_SEED_TOPICS_SQL@, "ORDER BY chunk_count DESC"@),
        says(CONCEPT_SEED_TOPICS_SQL@, "FROM code_topics"@),
{
    reveal_strlit(
        "SELECT id, label FROM code_topics
         WHERE chunk_count >= $1 AND label IS NOT NULL AND btrim(label) <> ''
         ORDER BY chunk_count DESC
         LIMIT $2",
    );
    reveal_strlit("FROM code_topics");
    reveal_strlit("LIMIT ");
    reveal_strlit("ORDER BY chunk_count DESC");
    reveal_strlit("SELECT");
    reveal_strlit("chunk_count >= ");
    let t = CONCEPT_SEED_TOPICS_SQL@;
    assert(part_at(t, 0, "SELECT"@));
    assert(part_at(t, 49, "chunk_count >= "@));
    assert(part_at(t, 156, "LIMIT "@));
    assert(part_at(t, 121, "ORDER BY chunk_count DESC"@));
    assert(part_at(t, 17, "FROM code_topics"@));
}

/// What the text of [`RECORD_MEMORY_EVAL_REPORT_SQL`] says.
pub proof fn record_memory_eval_report_text()
    ensures
        opens(RECORD_MEMORY_EVAL_REPORT_SQL@, "INSERT INTO pgmcp_metadata"@),
        lines_up(
            RECORD_MEMORY_EVAL_REPORT_SQL@,
            "INSERT INTO pgmcp_metadata"@,
            "value"@,
            "VALUES ("@,
            1,
        ),
        says(
            RECORD_MEMORY_EVAL_REPORT_SQL@,
            "ON CONFLICT (key) DO UPDATE SET value = EXCLUDED.value"@,
        ),
        says(RECORD_MEMORY_EVAL_REPORT_SQL@, "value = EXCLUDED.value"@),
{
    reveal_strlit(
        "INSERT INTO pgmcp_metadata (key, value) VALUES ('memory_eval_last_report', $1)
         ON CONFLICT (key) DO UPDATE SET value = EXCLUDED.value",
    );
    reveal_strlit("INSERT INTO pgmcp_metadata");
    reveal_strlit("ON CONFLICT (key) DO UPDATE SET value = EXCLUDED.value");
    reveal_strlit("VALUES (");
    reveal_strlit("value");
    reveal_strlit("value = EXCLUDED.value");
    let t = RECORD_MEMORY_EVAL_REPORT_SQL@;
    assert(part_at(t, 0, "INSERT INTO pgmcp_metadata"@));
    reveal_with_fuel(past, 27);
    reveal_with_fuel(past_blanks, 2);
    assert(past(t, 26, '(') == 28);
    assert(item(t, 28, 0) == 28);
    assert(item(t, 28, 1) == 33);
    assert(item(t, 48, 0) == 48);
    assert(item(t, 48, 1) == 75);
    assert(lined_up_at(t, "INSERT INTO pgmcp_metadata"@, "value"@, "VALUES ("@, 1, 0, 40, 1));
    assert(part_at(t, 88, "ON CONFLICT (key) DO UPDATE SET value = EXCLUDED.value"@));
    assert(part_at(t, 120, "value = EXCLUDED.value"@));
}

/// What the text of [`COUNT_OBSERVATIONS_SQL`] says.
pub proof fn count_observations_text()
    ensures
        opens(COUNT_OBSERVATIONS_SQL@, "SELECT COUNT(*) FROM memory_observations"@),
        mentions(COUNT_OBSERVATIONS_SQL@, "entity_id = "@, 1),
{
    reveal_strlit(
        "SELECT COUNT(*) FROM memory_observations WHERE entity_id = $1",
    );
    reveal_strlit("SELECT COUNT(*) FROM memory_observations");
    reveal_strlit("entity_id = ");
    let t = COUNT_OBSERVATIONS_SQL@;
    assert(part_at(t, 0, "SELECT COUNT(*) FROM memory_observations"@));
    assert(part_at(t, 47, "entity_id = "@));
}

/// What the text of [`COUNT_RELATIONS_SQL`] says.
pub proof fn count_relations_text()
    ensures
        opens(COUNT_RELATIONS_SQL@, "SELECT COUNT(*) FROM memory_relations"@),
        mentions(COUNT_RELATIONS_SQL@, "from_entity_id = "@, 1),
{
    reveal_strlit(
        "SELECT COUNT(*) FROM memory_relations
                     WHERE from_entity_id = $1 OR to_entity_id = $1",
    );
    reveal_strlit("SELECT COUNT(*) FROM memory_relations");
    reveal_strlit("from_entity_id = ");
    let t = COUNT_RELATIONS_SQL@;
    assert(part_at(t, 0, "SELECT COUNT(*) FROM memory_relations"@));
    assert(part_at(t, 65, "from_entity_id = "@));
}

/// What the text of [`COUNT_ANCHORS_SQL`] says.
pub proof fn count_anchors_text()
    ensures
        opens(COUNT_ANCHORS_SQL@, "SELECT COUNT(*) FROM memory_code_anchor"@),
        mentions(COUNT_ANCHORS_SQL@, "entity_id = "@, 1),
{
    reveal_strlit(
        "SELECT COUNT(*) FROM memory_code_anchor WHERE entity_id = $1",
    );
    reveal_strlit("SELECT COUNT(*) FROM memory_code_anchor");
    reveal_strlit("entity_id = ");
    let t = COUNT_ANCHORS_SQL@;
    assert(part_at(t, 0, "SELECT COUNT(*) FROM memory_code_anchor"@));
    assert(part_at(t, 46, "entity_id = "@));
}

/// What the text of [`COUNT_SCOPES_SQL`] says.
pub proof fn count_scopes_text()
    ensures
        opens(COUNT_SCOPES_SQL@, "SELECT COUNT(*) FROM memory_entity_scope"@),
        mentions(COUNT_SCOPES_SQL@, "entity_id = "@, 1),
{
    reveal_strlit(
        "SELECT COUNT(*) FROM memory_entity_scope WHERE entity_id = $1",
    );
    reveal_strlit("SELECT COUNT(*) FROM memory_entity_scope");
    reveal_strlit("entity_id = ");
    let t = COUNT_SCOPES_SQL@;
    assert(part_at(t, 0, "SELECT COUNT(*) FROM memory_entity_scope"@));
    assert(part_at(t, 47, "entity_id = "@));
}

/// What the text of [`COUNT_TIERS_SQL`] says.
pub proof fn count_tiers_text()
    ensures
        opens(COUNT_TIERS_SQL@, "SELECT COUNT(*) FROM memory_entity_tier"@),
        mentions(COUNT_TIERS_SQL@, "entity_id = "@, 1),
{
    reveal_strlit(
        "SELECT COUNT(*) FROM memory_entity_tier WHERE entity_id = $1",
    );
    reveal_strlit("SELECT COUNT(*) FROM memory_entity_tier");
    reveal_strlit("entity_id = ");
    let t = COUNT_TIERS_SQL@;
    assert(part_at(t, 0, "SELECT COUNT(*) FROM memory_entity_tier"@));
    assert(part_at(t, 46, "entity_id = "@));
}

/// What the text of [`ERASE_ENTITY_SQL`] says.
pub proof fn erase_entity_text()
    ensures
        opens(ERASE_ENTITY_SQL@, "DELETE FROM memory_entities"@),
        mentions(ERASE_ENTITY_SQL@, "memory_entities WHERE id = "@, 1),
{
    reveal_strlit(
        "DELETE FROM memory_entities WHERE id = $1",
    );
    reveal_strlit("DELETE FROM memory_entities");
    reveal_strlit("memory_entities WHERE id = ");
    let t = ERASE_ENTITY_SQL@;
    assert(part_at(t, 0, "DELETE FROM memory_entities"@));
    assert(part_at(t, 12, "memory_entities WHERE id = "@));
}

/// What the text of [`EXPIRE_ENTITY_SQL`] says.
pub proof fn expire_entity_text()
    ensures
        opens(EXPIRE_ENTITY_SQL@, "UPDATE memory_entities"@),
        mentions(EXPIRE_ENTITY_SQL@, "WHERE id = "@, 1),
{
    reveal_strlit(
        "UPDATE memory_entities SET valid_to = NOW()
                     WHERE id = $1 AND valid_to IS NULL",
    );
    reveal_strlit("UPDATE memory_entities");
    reveal_strlit("WHERE id = ");
    let t = EXPIRE_ENTITY_SQL@;
    assert(part_at(t, 0, "UPDATE memory_entities"@));
    assert(part_at(t, 65, "WHERE id = "@));
}

/// What the text of [`ERASE_OBSERVATION_SQL`] says.
pub proof fn erase_observation_text()
    ensures
        opens(ERASE_OBSERVATION_SQL@, "DELETE FROM memory_observations"@),
        mentions(ERASE_OBSERVATION_SQL@, "memory_observations WHERE id = "@, 1),
{
    reveal_strlit(
        "DELETE FROM memory_observations WHERE id = $1",
    );
    reveal_strlit("DELETE FROM memory_observations");
    reveal_strlit("memory_observations WHERE id = ");
    let t = ERASE_OBSERVATION_SQL@;
    assert(part_at(t, 0, "DELETE FROM memory_observations"@));
    assert(part_at(t, 12, "memory_observations WHERE id = "@));
}

/// What the text of [`EXPIRE_OBSERVATION_SQL`] says.
pub proof fn expire_observation_text()
    ensures
        opens(EXPIRE_OBSERVATION_SQL@, "UPDATE memory_observations"@),
        mentions(EXPIRE_OBSERVATION_SQL@, "WHERE id = "@, 1),
{
    reveal_strlit(
        "UPDATE memory_observations SET valid_to = NOW()
                     WHERE id = $1 AND valid_to IS NULL",
    );
    reveal_strlit("UPDATE memory_observations");
    reveal_strlit("WHERE id = ");
    let t = EXPIRE_OBSERVATION_SQL@;
    assert(part_at(t, 0, "UPDATE memory_observations"@));
    assert(part_at(t, 69, "WHERE id = "@));
}

/// What the text of [`ERASE_RELATION_SQL`] says.
pub proof fn erase_relation_text()
    ensures
        opens(ERASE_RELATION_SQL@, "DELETE FROM memory_relations"@),
        mentions(ERASE_RELATION_SQL@, "memory_relations WHERE id = "@, 1),
{
    reveal_strlit(
        "DELETE FROM memory_relations WHERE id = $1",
    );
    reveal_strlit("DELETE FROM memory_relations");
    reveal_strlit("memory_relations WHERE id = ");
    let t = ERASE_RELATION_SQL@;
    assert(part_at(t, 0, "DELETE FROM memory_relations"@));
    assert(part_at(t, 12, "memory_relations WHERE id = "@));
}

/// What the text of [`EXPIRE_RELATION_SQL`] says.
pub proof fn expire_relation_text()
    ensures
        opens(EXPIRE_RELATION_SQL@, "UPDATE memory_relations"@),
        mentions(EXPIRE_RELATION_SQL@, "WHERE id = "@, 1),
{
    reveal_strlit(
        "UPDATE memory_relations SET valid_to = NOW()
                     WHERE id = $1 AND valid_to IS NULL",
    );
    reveal_strlit("UPDATE memory_relations");
    reveal_strlit("WHERE id = ");
    let t = EXPIRE_RELATION_SQL@;
    assert(part_at(t, 0, "UPDATE memory_relations"@));
    assert(part_at(t, 66, "WHERE id = "@));
}

/// What the text of [`FIND_SCOPE_SQL`] says.
pub proof fn find_scope_text()
    ensures
        opens(FIND_SCOPE_SQL@, "SELECT"@),
        mentions(FIND_SCOPE_SQL@, "user_id IS NOT DISTINCT FROM "@, 1),
        mentions(FIND_SCOPE_SQL@, "agent_id IS NOT DISTINCT FROM "@, 2),
        mentions(FIND_SCOPE_SQL@, "session_id IS NOT DISTINCT FROM "@, 3),
        mentions(FIND_SCOPE_SQL@, "project_id IS NOT DISTINCT FROM "@, 4),
        says(FIND_SCOPE_SQL@, "FROM memory_scope"@),
{
    reveal_strlit(
        "SELECT id FROM memory_scope
         WHERE user_id IS NOT DISTINCT FROM $1
           AND agent_id IS NOT DISTINCT FROM $2
           AND session_id IS NOT DISTINCT FROM $3
           AND project_id IS NOT DISTINCT FROM $4
         LIMIT 1",
    );
    reveal_strlit("FROM memory_scope");
    reveal_strlit("SELECT");
    reveal_strlit("agent_id IS NOT DISTINCT FROM ");
    reveal_strlit("project_id IS NOT DISTINCT FROM ");
    reveal_strlit("session_id IS NOT DISTINCT FROM ");
    reveal_strlit("user_id IS NOT DISTINCT FROM ");
    let t = FIND_SCOPE_SQL@;
    assert(part_at(t, 0, "SELECT"@));
    assert(part_at(t, 43, "user_id IS NOT DISTINCT FROM "@));
    assert(part_at(t, 90, "agent_id IS NOT DISTINCT FROM "@));
    assert(part_at(t, 138, "session_id IS NOT DISTINCT FROM "@));
    assert(part_at(t, 188, "project_id IS NOT DISTINCT FROM "@));
    assert(part_at(t, 10, "FROM memory_scope"@));
}

/// What the text of [`INSERT_SCOPE_SQL`] says.
pub proof fn insert_scope_text()
    ensures
        opens(INSERT_SCOPE_SQL@, "INSERT INTO memory_scope"@),
        lines_up(INSERT_SCOPE_SQL@, "INSERT INTO memory_scope"@, "user_id"@, "VALUES ("@, 1),
        lines_up(INSERT_SCOPE_SQL@, "INSERT INTO memory_scope"@, "agent_id"@, "VALUES ("@, 2),
        lines_up(INSERT_SCOPE_SQL@, "INSERT INTO memory_scope"@, "session_id"@, "VALUES ("@, 3),
        lines_up(INSERT_SCOPE_SQL@, "INSERT INTO memory_scope"@, "project_id"@, "VALUES ("@, 4),
{
    reveal_strlit(
        "INSERT INTO memory_scope (user_id, agent_id, session_id, project_id)
         VALUES ($1, $2, $3, $4)
         RETURNING id",
    );
    reveal_strlit("INSERT INTO memory_scope");
    reveal_strlit("VALUES (");
    reveal_strlit("agent_id");
    reveal_strlit("project_id");
    reveal_strlit("session_id");
    reveal_strlit("user_id");
    let t = INSERT_SCOPE_SQL@;
    assert(part_at(t, 0, "INSERT INTO memory_scope"@));
    reveal_with_fuel(past, 12);
    reveal_with_fuel(past_blanks, 2);
    assert(past(t, 24, '(') == 26);
    assert(item(t, 26, 0) == 26);
    assert(item(t, 26, 1) == 35);
    assert(item(t, 26, 2) == 45);
    assert(item(t, 26, 3) == 57);
    assert(item(t, 86, 0) == 86);
    assert(item(t, 86, 1) == 90);
    assert(item(t, 86, 2) == 94);
    assert(item(t, 86, 3) == 98);
    assert(lined_up_at(t, "INSERT INTO memory_scope"@, "user_id"@, "VALUES ("@, 1, 0, 78, 0));
    assert(lined_up_at(t, "INSERT INTO memory_scope"@, "agent_id"@, "VALUES ("@, 2, 0, 78, 1));
    assert(lined_up_at(t, "INSERT INTO memory_scope"@, "session_id"@, "VALUES ("@, 3, 0, 78, 2));
    assert(lined_up_at(t, "INSERT INTO memory_scope"@, "project_id"@, "VALUES ("@, 4, 0, 78, 3));
}

/// What the text of [`FIND_AUTO_ENTITY_SQL`] says.
pub proof fn find_auto_entity_text()
    ensures
        opens(FIND_AUTO_ENTITY_SQL@, "SELECT"@),
        mentions(FIND_AUTO_ENTITY_SQL@, "name = "@, 1),
        mentions(FIND_AUTO_ENTITY_SQL@, "entity_type = "@, 2),
        says(FIND_AUTO_ENTITY_SQL@, "FROM memory_entities"@),
{
    reveal_strlit(
        "SELECT id FROM memory_entities
         WHERE name = $1 AND entity_type = $2 AND valid_to IS NULL
         LIMIT 1",
    );
    reveal_strlit("FROM memory_entities");
    reveal_strlit("SELECT");
    reveal_strlit("entity_type = ");
    reveal_strlit("name = ");
    let t = FIND_AUTO_ENTITY_SQL@;
    assert(part_at(t, 0, "SELECT"@));
    assert(part_at(t, 46, "name = "@));
    assert(part_at(t, 60, "entity_type = "@));
    assert(part_at(t, 10, "FROM memory_entities"@));
}

/// What the text of [`INSERT_AUTO_ENTITY_SQL`] says.
pub proof fn insert_auto_entity_text()
    ensures
        opens(INSERT_AUTO_ENTITY_SQL@, "INSERT INTO memory_entities"@),
        lines_up(INSERT_AUTO_ENTITY_SQL@, "INSERT INTO memory_entities"@, "name"@, "VALUES ("@, 1),
        lines_up(
            INSERT_AUTO_ENTITY_SQL@,
            "INSERT INTO memory_entities"@,
            "entity_type"@,
            "VALUES ("@,
            2,
        ),
{
    reveal_strlit(
        "INSERT INTO memory_entities (name, entity_type, importance, source)
         VALUES ($1, $2, 0.5, 'auto_index'::memory_source)
         RETURNING id",
    );
    reveal_strlit("INSERT INTO memory_entities");
    reveal_strlit("VALUES (");
    reveal_strlit("entity_type");
    reveal_strlit("name");
    let t = INSERT_AUTO_ENTITY_SQL@;
    assert(part_at(t, 0, "INSERT INTO memory_entities"@));
    reveal_with_fuel(past, 6);
    reveal_with_fuel(past_blanks, 2);
    assert(past(t, 27, '(') == 29);
    assert(item(t, 29, 0) == 29);
    assert(item(t, 29, 1) == 35);
    assert(item(t, 85, 0) == 85);
    assert(item(t, 85, 1) == 89);
    assert(lined_up_at(t, "INSERT INTO memory_entities"@, "name"@, "VALUES ("@, 1, 0, 77, 0));
    assert(lined_up_at(
        t,
        "INSERT INTO memory_entities"@,
        "entity_type"@,
        "VALUES ("@,
        2,
        0,
        77,
        1,
    ));
}

/// What the text of [`PURGEABLE_ENTITIES`] says.
#[verifier::rlimit(50)]
pub proof fn purgeable_entities_text()
    ensures
        mentions(PURGEABLE_ENTITIES@, "< NOW() - ("@, 1),
        mentions(PURGEABLE_ENTITIES@, "importance < "@, 2),
        says(PURGEABLE_ENTITIES@, "WHERE valid_to IS NOT NULL"@),
        says(PURGEABLE_ENTITIES@, "AND id NOT IN ("@),
        says(PURGEABLE_ENTITIES@, "WHERE superseded_by IS NOT NULL"@),
        says(PURGEABLE_ENTITIES@, "WHERE tier IN ('procedural','reflective')"@),
        says(PURGEABLE_ENTITIES@, "FROM memory_entities"@),
        ends_plainly(PURGEABLE_ENTITIES@),
{
    reveal_strlit(
        "memory_entities
         WHERE valid_to IS NOT NULL
           AND valid_to < NOW() - ($1::int * interval '1 day')
           AND importance < $2
           AND id NOT IN (
               SELECT superseded_by FROM memory_entities
               WHERE superseded_by IS NOT NULL
           )
           -- G2: never purge promoted best practices (procedural/reflective tier).
           AND id NOT IN (
               SELECT entity_id FROM memory_entity_tier
               WHERE tier IN ('procedural','reflective')
           )",
    );
    reveal_strlit("< NOW() - (");
    reveal_strlit("AND id NOT IN (");
    reveal_strlit("FROM memory_entities");
    reveal_strlit("WHERE superseded_by IS NOT NULL");
    reveal_strlit("WHERE tier IN ('procedural','reflective')");
    reveal_strlit("WHERE valid_to IS NOT NULL");
    reveal_strlit("importance < ");
    let t = PURGEABLE_ENTITIES@;
    assert(part_at(t, 76, "< NOW() - ("@));
    assert(part_at(t, 130, "importance < "@));
    assert(part_at(t, 25, "WHERE valid_to IS NOT NULL"@));
    assert(part_at(t, 157, "AND id NOT IN ("@));
    assert(part_at(t, 245, "WHERE superseded_by IS NOT NULL"@));
    assert(part_at(t, 472, "WHERE tier IN ('procedural','reflective')"@));
    assert(part_at(t, 209, "FROM memory_entities"@));
}

/// What the text of [`PURGEABLE_OBSERVATIONS`] says.
#[verifier::rlimit(50)]
pub proof fn purgeable_observations_text()
    ensures
        mentions(PURGEABLE_OBSERVATIONS@, "< NOW() - ("@, 1),
        mentions(PURGEABLE_OBSERVATIONS@, "importance < "@, 2),
        says(PURGEABLE_OBSERVATIONS@, "WHERE valid_to IS NOT NULL"@),
        says(PURGEABLE_OBSERVATIONS@, "AND id NOT IN ("@),
        says(PURGEABLE_OBSERVATIONS@, "WHERE superseded_by IS NOT NULL"@),
        says(PURGEABLE_OBSERVATIONS@, "AND entity_id NOT IN ("@),
        says(PURGEABLE_OBSERVATIONS@, "WHERE tier IN ('procedural','reflective')"@),
        says(PURGEABLE_OBSERVATIONS@, "WHERE observation_id IS NOT NULL"@),
        says(PURGEABLE_OBSERVATIONS@, "FROM memory_observations"@),
        ends_plainly(PURGEABLE_OBSERVATIONS@),
{
    reveal_strlit(
        "memory_observations
         WHERE valid_to IS NOT NULL
           AND valid_to < NOW() - ($1::int * interval '1 day')
           AND importance < $2
           AND id NOT IN (
               SELECT superseded_by FROM memory_observations
               WHERE superseded_by IS NOT NULL
           )
           -- G2: never purge best-practice observations or outcome-linked rows.
           AND entity_id NOT IN (
               SELECT entity_id FROM memory_entity_tier
               WHERE tier IN ('procedural','reflective')
           )
           AND id NOT IN (
               SELECT observation_id FROM agent_outcomes
               WHERE observation_id IS NOT NULL
           )",
    );
    reveal_strlit("< NOW() - (");
    reveal_strlit("AND entity_id NOT IN (");
    reveal_strlit("AND id NOT IN (");
    reveal_strlit("FROM memory_observations");
    reveal_strlit("WHERE observation_id IS NOT NULL");
    reveal_strlit("WHERE superseded_by IS NOT NULL");
    reveal_strlit("WHERE tier IN ('procedural','reflective')");
    reveal_strlit("WHERE valid_to IS NOT NULL");
    reveal_strlit("importance < ");
    let t = PURGEABLE_OBSERVATIONS@;
    assert(part_at(t, 80, "< NOW() - ("@));
    assert(part_at(t, 134, "importance < "@));
    assert(part_at(t, 29, "WHERE valid_to IS NOT NULL"@));
    assert(part_at(t, 161, "AND id NOT IN ("@));
    assert(part_at(t, 253, "WHERE superseded_by IS NOT NULL"@));
    assert(part_at(t, 390, "AND entity_id NOT IN ("@));
    assert(part_at(t, 484, "WHERE tier IN ('procedural','reflective')"@));
    assert(part_at(t, 638, "WHERE observation_id IS NOT NULL"@));
    assert(part_at(t, 213, "FROM memory_observations"@));
}

/// What the text of [`PURGEABLE_RELATIONS`] says.
pub proof fn purgeable_relations_text()
    ensures
        mentions(PURGEABLE_RELATIONS@, "< NOW() - ("@, 1),
        mentions(PURGEABLE_RELATIONS@, "importance < "@, 2),
        says(PURGEABLE_RELATIONS@, "WHERE valid_to IS NOT NULL"@),
        says(PURGEABLE_RELATIONS@, "AND id NOT IN ("@),
        says(PURGEABLE_RELATIONS@, "WHERE superseded_by IS NOT NULL"@),
        says(PURGEABLE_RELATIONS@, "FROM memory_relations"@),
        ends_plainly(PURGEABLE_RELATIONS@),
{
    reveal_strlit(
        "memory_relations
         WHERE valid_to IS NOT NULL
           AND valid_to < NOW() - ($1::int * interval '1 day')
           AND importance < $2
           AND id NOT IN (
               SELECT superseded_by FROM memory_relations
               WHERE superseded_by IS NOT NULL
           )",
    );
    reveal_strlit("< NOW() - (");
    reveal_strlit("AND id NOT IN (");
    reveal_strlit("FROM memory_relations");
    reveal_strlit("WHERE superseded_by IS NOT NULL");
    reveal_strlit("WHERE valid_to IS NOT NULL");
    reveal_strlit("importance < ");
    let t = PURGEABLE_RELATIONS@;
    assert(part_at(t, 77, "< NOW() - ("@));
    assert(part_at(t, 131, "importance < "@));
    assert(part_at(t, 26, "WHERE valid_to IS NOT NULL"@));
    assert(part_at(t, 158, "AND id NOT IN ("@));
    assert(part_at(t, 247, "WHERE superseded_by IS NOT NULL"@));
    assert(part_at(t, 210, "FROM memory_relations"@));
}

/// What the text of [`EVAL_ENTITIES_TEMPORAL_INVALID_SQL`] says.
pub proof fn eval_entities_temporal_invalid_text()
    ensures
        opens(EVAL_ENTITIES_TEMPORAL_INVALID_SQL@, "SELECT"@),
        mentions(EVAL_ENTITIES_TEMPORAL_INVALID_SQL@, "LIMIT "@, 1),
        says(
            EVAL_ENTITIES_TEMPORAL_INVALID_SQL@,
            "WHERE valid_to IS NOT NULL AND valid_to <= valid_from"@,
        ),
        says(EVAL_ENTITIES_TEMPORAL_INVALID_SQL@, "FROM memory_entities"@),
{
    reveal_strlit(
        "SELECT COUNT(*) FROM (
           SELECT 1 FROM memory_entities
            WHERE valid_to IS NOT NULL AND valid_to <= valid_from
            LIMIT $1
         ) sub",
    );
    reveal_strlit("FROM memory_entities");
    reveal_strlit("LIMIT ");
    reveal_strlit("SELECT");
    reveal_strlit("WHERE valid_to IS NOT NULL AND valid_to <= valid_from");
    let t = EVAL_ENTITIES_TEMPORAL_INVALID_SQL@;
    assert(part_at(t, 0, "SELECT"@));
    assert(part_at(t, 142, "LIMIT "@));
    assert(part_at(t, 76, "WHERE valid_to IS NOT NULL AND valid_to <= valid_from"@));
    assert(part_at(t, 43, "FROM memory_entities"@));
}

/// What the text of [`EVAL_OBSERVATIONS_TEMPORAL_INVALID_SQL`] says.
pub proof fn eval_observations_temporal_invalid_text()
    ensures
        opens(EVAL_OBSERVATIONS_TEMPORAL_INVALID_SQL@, "SELECT"@),
        mentions(EVAL_OBSERVATIONS_TEMPORAL_INVALID_SQL@, "LIMIT "@, 1),
        says(
            EVAL_OBSERVATIONS_TEMPORAL_INVALID_SQL@,
            "WHERE valid_to IS NOT NULL AND valid_to <= valid_from"@,
        ),
        says(EVAL_OBSERVATIONS_TEMPORAL_INVALID_SQL@, "FROM memory_observations"@),
{
    reveal_strlit(
        "SELECT COUNT(*) FROM (
           SELECT 1 FROM memory_observations
            WHERE valid_to IS NOT NULL AND valid_to <= valid_from
            LIMIT $1
         ) sub",
    );
    reveal_strlit("FROM memory_observations");
    reveal_strlit("LIMIT ");
    reveal_strlit("SELECT");
    reveal_strlit("WHERE valid_to IS NOT NULL AND valid_to <= valid_from");
    let t = EVAL_OBSERVATIONS_TEMPORAL_INVALID_SQL@;
    assert(part_at(t, 0, "SELECT"@));
    assert(part_at(t, 146, "LIMIT "@));
    assert(part_at(t, 80, "WHERE valid_to IS NOT NULL AND valid_to <= valid_from"@));
    assert(part_at(t, 43, "FROM memory_observations"@));
}

/// What the text of [`EVAL_RELATIONS_TEMPORAL_INVALID_SQL`] says.
pub proof fn eval_relations_temporal_invalid_text()
    ensures
        opens(EVAL_RELATIONS_TEMPORAL_INVALID_SQL@, "SELECT"@),
        mentions(EVAL_RELATIONS_TEMPORAL_INVALID_SQL@, "LIMIT "@, 1),
        says(
            EVAL_RELATIONS_TEMPORAL_INVALID_SQL@,
            "WHERE valid_to IS NOT NULL AND valid_to <= valid_from"@,
        ),
        says(EVAL_RELATIONS_TEMPORAL_INVALID_SQL@, "FROM memory_relations"@),
{
    reveal_strlit(
        "SELECT COUNT(*) FROM (
           SELECT 1 FROM memory_relations
            WHERE valid_to IS NOT NULL AND valid_to <= valid_from
            LIMIT $1
         ) sub",
    );
    reveal_strlit("FROM memory_relations");
    reveal_strlit("LIMIT ");
    reveal_strlit("SELECT");
    reveal_strlit("WHERE valid_to IS NOT NULL AND valid_to <= valid_from");
    let t = EVAL_RELATIONS_TEMPORAL_INVALID_SQL@;
    assert(part_at(t, 0, "SELECT"@));
    assert(part_at(t, 143, "LIMIT "@));
    assert(part_at(t, 77, "WHERE valid_to IS NOT NULL AND valid_to <= valid_from"@));
    assert(part_at(t, 43, "FROM memory_relations"@));
}

/// What the text of [`EVAL_ENTITY_SUPERSEDE_CYCLES_SQL`] says.
#[verifier::rlimit(50)]
pub proof fn eval_entity_supersede_cycles_text()
    ensures
        opens(EVAL_ENTITY_SUPERSEDE_CYCLES_SQL@, "SELECT"@),
        mentions(EVAL_ENTITY_SUPERSEDE_CYCLES_SQL@, "LIMIT "@, 1),
        says(EVAL_ENTITY_SUPERSEDE_CYCLES_SQL@, "WHERE w.next IS NOT NULL AND w.depth < 32"@),
        says(EVAL_ENTITY_SUPERSEDE_CYCLES_SQL@, "FROM memory_entities"@),
        says(EVAL_ENTITY_SUPERSEDE_CYCLES_SQL@, "JOIN memory_entities e ON e.id = w.next"@),
{
    reveal_strlit(
        "SELECT COUNT(*) FROM (
           WITH RECURSIVE walk AS (
             SELECT id AS root, superseded_by AS next, 1 AS depth
               FROM memory_entities WHERE superseded_by IS NOT NULL
             UNION ALL
             SELECT w.root, e.superseded_by, w.depth + 1
               FROM walk w
               JOIN memory_entities e ON e.id = w.next
              WHERE w.next IS NOT NULL AND w.depth < 32
           )
           SELECT DISTINCT root FROM walk WHERE next = root LIMIT $1
         ) sub",
    );
    reveal_strlit("FROM memory_entities");
    reveal_strlit("JOIN memory_entities e ON e.id = w.next");
    reveal_strlit("LIMIT ");
    reveal_strlit("SELECT");
    reveal_strlit("WHERE w.next IS NOT NULL AND w.depth < 32");
    let t = EVAL_ENTITY_SUPERSEDE_CYCLES_SQL@;
    assert(part_at(t, 0, "SELECT"@));
    assert(part_at(t, 484, "LIMIT "@));
    assert(part_at(t, 369, "WHERE w.next IS NOT NULL AND w.depth < 32"@));
    assert(part_at(t, 140, "FROM memory_entities"@));
    assert(part_at(t, 315, "JOIN memory_entities e ON e.id = w.next"@));
}

/// What the text of [`EVAL_OBSERVATION_SUPERSEDE_CYCLES_SQL`] says.
#[verifier::rlimit(50)]
pub proof fn eval_observation_supersede_cycles_text()
    ensures
        opens(EVAL_OBSERVATION_SUPERSEDE_CYCLES_SQL@, "SELECT"@),
        mentions(EVAL_OBSERVATION_SUPERSEDE_CYCLES_SQL@, "LIMIT "@, 1),
        says(EVAL_OBSERVATION_SUPERSEDE_CYCLES_SQL@, "WHERE w.next IS NOT NULL AND w.depth < 32"@),
        says(EVAL_OBSERVATION_SUPERSEDE_CYCLES_SQL@, "FROM memory_observations"@),
        says(
            EVAL_OBSERVATION_SUPERSEDE_CYCLES_SQL@,
            "JOIN memory_observations o ON o.id = w.next"@,
        ),
{
    reveal_strlit(
        "SELECT COUNT(*) FROM (
           WITH RECURSIVE walk AS (
             SELECT id AS root, superseded_by AS next, 1 AS depth
               FROM memory_observations WHERE superseded_by IS NOT NULL
             UNION ALL
             SELECT w.root, o.superseded_by, w.depth + 1
               FROM walk w
               JOIN memory_observations o ON o.id = w.next
              WHERE w.next IS NOT NULL AND w.depth < 32
           )
           SELECT DISTINCT root FROM walk WHERE next = root LIMIT $1
         ) sub",
    );
    reveal_strlit("FROM memory_observations");
    reveal_strlit("JOIN memory_observations o ON o.id = w.next");
    reveal_strlit("LIMIT ");
    reveal_strlit("SELECT");
    reveal_strlit("WHERE w.next IS NOT NULL AND w.depth < 32");
    let t = EVAL_OBSERVATION_SUPERSEDE_CYCLES_SQL@;
    assert(part_at(t, 0, "SELECT"@));
    assert(part_at(t, 492, "LIMIT "@));
    assert(part_at(t, 377, "WHERE w.next IS NOT NULL AND w.depth < 32"@));
    assert(part_at(t, 140, "FROM memory_observations"@));
    assert(part_at(t, 319, "JOIN memory_observations o ON o.id = w.next"@));
}

/// What the text of [`EVAL_RELATION_SUPERSEDE_CYCLES_SQL`] says.
#[verifier::rlimit(50)]
pub proof fn eval_relation_supersede_cycles_text()
    ensures
        opens(EVAL_RELATION_SUPERSEDE_CYCLES_SQL@, "SELECT"@),
        mentions(EVAL_RELATION_SUPERSEDE_CYCLES_SQL@, "LIMIT "@, 1),
        says(EVAL_RELATION_SUPERSEDE_CYCLES_SQL@, "WHERE w.next IS NOT NULL AND w.depth < 32"@),
        says(EVAL_RELATION_SUPERSEDE_CYCLES_SQL@, "FROM memory_relations"@),
        says(EVAL_RELATION_SUPERSEDE_CYCLES_SQL@, "JOIN memory_relations rel ON rel.id = w.next"@),
{
    reveal_strlit(
        "SELECT COUNT(*) FROM (
           WITH RECURSIVE walk AS (
             SELECT id AS root, superseded_by AS next, 1 AS depth
               FROM memory_relations WHERE superseded_by IS NOT NULL
             UNION ALL
             SELECT w.root, rel.superseded_by, w.depth + 1
               FROM walk w
               JOIN memory_relations rel ON rel.id = w.next
              WHERE w.next IS NOT NULL AND w.depth < 32
           )
           SELECT DISTINCT root FROM walk WHERE next = root LIMIT $1
         ) sub",
    );
    reveal_strlit("FROM memory_relations");
    reveal_strlit("JOIN memory_relations rel ON rel.id = w.next");
    reveal_strlit("LIMIT ");
    reveal_strlit("SELECT");
    reveal_strlit("WHERE w.next IS NOT NULL AND w.depth < 32");
    let t = EVAL_RELATION_SUPERSEDE_CYCLES_SQL@;
    assert(part_at(t, 0, "SELECT"@));
    assert(part_at(t, 492, "LIMIT "@));
    assert(part_at(t, 377, "WHERE w.next IS NOT NULL AND w.depth < 32"@));
    assert(part_at(t, 140, "FROM memory_relations"@));
    assert(part_at(t, 318, "JOIN memory_relations rel ON rel.id = w.next"@));
}

/// What the text of [`EVAL_ORPHAN_OBSERVATIONS_SQL`] says.
pub proof fn eval_orphan_observations_text()
    ensures
        opens(EVAL_ORPHAN_OBSERVATIONS_SQL@, "SELECT"@),
        mentions(EVAL_ORPHAN_OBSERVATIONS_SQL@, "LIMIT "@, 1),
        says(EVAL_ORPHAN_OBSERVATIONS_SQL@, "WHERE e.id IS NULL"@),
        says(EVAL_ORPHAN_OBSERVATIONS_SQL@, "FROM memory_observations"@),
        says(EVAL_ORPHAN_OBSERVATIONS_SQL@, "LEFT JOIN memory_entities e ON e.id = o.entity_id"@),
{
    reveal_strlit(
        "SELECT COUNT(*) FROM (
           SELECT 1 FROM memory_observations o
            LEFT JOIN memory_entities e ON e.id = o.entity_id
            WHERE e.id IS NULL
            LIMIT $1
         ) sub",
    );
    reveal_strlit("FROM memory_observations");
    reveal_strlit("LEFT JOIN memory_entities e ON e.id = o.entity_id");
    reveal_strlit("LIMIT ");
    reveal_strlit("SELECT");
    reveal_strlit("WHERE e.id IS NULL");
    let t = EVAL_ORPHAN_OBSERVATIONS_SQL@;
    assert(part_at(t, 0, "SELECT"@));
    assert(part_at(t, 175, "LIMIT "@));
    assert(part_at(t, 144, "WHERE e.id IS NULL"@));
    assert(part_at(t, 43, "FROM memory_observations"@));
    assert(part_at(t, 82, "LEFT JOIN memory_entities e ON e.id = o.entity_id"@));
}

/// What the text of [`EVAL_REFLECTION_DERIVED_FROM_MISSING_SQL`] says.
pub proof fn eval_reflection_derived_from_missing_text()
    ensures
        opens(EVAL_REFLECTION_DERIVED_FROM_MISSING_SQL@, "SELECT"@),
        mentions(EVAL_REFLECTION_DERIVED_FROM_MISSING_SQL@, "LIMIT "@, 1),
        says(EVAL_REFLECTION_DERIVED_FROM_MISSING_SQL@, "WHERE o.source = 'reflection'"@),
        says(EVAL_REFLECTION_DERIVED_FROM_MISSING_SQL@, "AND o.derived_from IS NOT NULL"@),
        says(EVAL_REFLECTION_DERIVED_FROM_MISSING_SQL@, "AND EXISTS ("@),
        says(EVAL_REFLECTION_DERIVED_FROM_MISSING_SQL@, "WHERE NOT EXISTS ("@),
        says(EVAL_REFLECTION_DERIVED_FROM_MISSING_SQL@, "FROM memory_observations"@),
{
    reveal_strlit(
        "SELECT COUNT(*) FROM (
           SELECT o.id FROM memory_observations o
            WHERE o.source = 'reflection'
              AND o.derived_from IS NOT NULL
              AND EXISTS (
                SELECT 1 FROM UNNEST(o.derived_from) AS d(id)
                 WHERE NOT EXISTS (
                   SELECT 1 FROM memory_observations src WHERE src.id = d.id
                 )
              )
            LIMIT $1
         ) sub",
    );
    reveal_strlit("AND EXISTS (");
    reveal_strlit("AND o.derived_from IS NOT NULL");
    reveal_strlit("FROM memory_observations");
    reveal_strlit("LIMIT ");
    reveal_strlit("SELECT");
    reveal_strlit("WHERE NOT EXISTS (");
    reveal_strlit("WHERE o.source = 'reflection'");
    let t = EVAL_REFLECTION_DERIVED_FROM_MISSING_SQL@;
    assert(part_at(t, 0, "SELECT"@));
    assert(part_at(t, 409, "LIMIT "@));
    assert(part_at(t, 85, "WHERE o.source = 'reflection'"@));
    assert(part_at(t, 129, "AND o.derived_from IS NOT NULL"@));
    assert(part_at(t, 174, "AND EXISTS ("@));
    assert(part_at(t, 266, "WHERE NOT EXISTS ("@));
    assert(part_at(t, 46, "FROM memory_observations"@));
}

/// What the text of [`EVAL_STALE_CODE_ANCHORS_SQL`] says.
pub proof fn eval_stale_code_anchors_text()
    ensures
        opens(EVAL_STALE_CODE_ANCHORS_SQL@, "SELECT"@),
        mentions(EVAL_STALE_CODE_ANCHORS_SQL@, "LIMIT "@, 1),
        says(EVAL_STALE_CODE_ANCHORS_SQL@, "WHERE (a.file_id  IS NOT NULL AND f.id IS NULL)"@),
        says(EVAL_STALE_CODE_ANCHORS_SQL@, "OR (a.chunk_id IS NOT NULL AND c.id IS NULL)"@),
        says(EVAL_STALE_CODE_ANCHORS_SQL@, "OR (a.topic_id IS NOT NULL AND t.id IS NULL)"@),
        says(EVAL_STALE_CODE_ANCHORS_SQL@, "FROM memory_code_anchor"@),
        says(EVAL_STALE_CODE_ANCHORS_SQL@, "LEFT JOIN indexed_files f ON f.id = a.file_id"@),
        says(EVAL_STALE_CODE_ANCHORS_SQL@, "LEFT JOIN file_chunks   c ON c.id = a.chunk_id"@),
        says(EVAL_STALE_CODE_ANCHORS_SQL@, "LEFT JOIN code_topics   t ON t.id = a.topic_id"@),
{
    reveal_strlit(
        "SELECT COUNT(*) FROM (
           SELECT a.id
             FROM memory_code_anchor a
             LEFT JOIN indexed_files f ON f.id = a.file_id
             LEFT JOIN file_chunks   c ON c.id = a.chunk_id
             LEFT JOIN code_topics   t ON t.id = a.topic_id
            WHERE (a.file_id  IS NOT NULL AND f.id IS NULL)
               OR (a.chunk_id IS NOT NULL AND c.id IS NULL)
               OR (a.topic_id IS NOT NULL AND t.id IS NULL)
            LIMIT $1
         ) sub",
    );
    reveal_strlit("FROM memory_code_anchor");
    reveal_strlit("LEFT JOIN code_topics   t ON t.id = a.topic_id");
    reveal_strlit("LEFT JOIN file_chunks   c ON c.id = a.chunk_id");
    reveal_strlit("LEFT JOIN indexed_files f ON f.id = a.file_id");
    reveal_strlit("LIMIT ");
    reveal_strlit("OR (a.chunk_id IS NOT NULL AND c.id IS NULL)");
    reveal_strlit("OR (a.topic_id IS NOT NULL AND t.id IS NULL)");
    reveal_strlit("SELECT");
    reveal_strlit("WHERE (a.file_id  IS NOT NULL AND f.id IS NULL)");
    let t = EVAL_STALE_CODE_ANCHORS_SQL@;
    assert(part_at(t, 0, "SELECT"@));
    assert(part_at(t, 456, "LIMIT "@));
    assert(part_at(t, 276, "WHERE (a.file_id  IS NOT NULL AND f.id IS NULL)"@));
    assert(part_at(t, 339, "OR (a.chunk_id IS NOT NULL AND c.id IS NULL)"@));
    assert(part_at(t, 399, "OR (a.topic_id IS NOT NULL AND t.id IS NULL)"@));
    assert(part_at(t, 59, "FROM memory_code_anchor"@));
    assert(part_at(t, 98, "LEFT JOIN indexed_files f ON f.id = a.file_id"@));
    assert(part_at(t, 157, "LEFT JOIN file_chunks   c ON c.id = a.chunk_id"@));
    assert(part_at(t, 217, "LEFT JOIN code_topics   t ON t.id = a.topic_id"@));
}

/// What the text of [`EVAL_FORGET_LOG_DANGLING_SQL`] says.
#[verifier::rlimit(50)]
pub proof fn eval_forget_log_dangling_text()
    ensures
        opens(EVAL_FORGET_LOG_DANGLING_SQL@, "SELECT"@),
        mentions(EVAL_FORGET_LOG_DANGLING_SQL@, "LIMIT "@, 1),
        says(EVAL_FORGET_LOG_DANGLING_SQL@, "WHERE e.id = fl.target_id AND e.valid_to IS NULL"@),
        says(EVAL_FORGET_LOG_DANGLING_SQL@, "OR (fl.target_type = 'observation' AND EXISTS ("@),
        says(EVAL_FORGET_LOG_DANGLING_SQL@, "WHERE o.id = fl.target_id AND o.valid_to IS NULL"@),
        says(EVAL_FORGET_LOG_DANGLING_SQL@, "OR (fl.target_type = 'relation' AND EXISTS ("@),
        says(
            EVAL_FORGET_LOG_DANGLING_SQL@,
            "WHERE rel.id = fl.target_id AND rel.valid_to IS NULL"@,
        ),
        says(EVAL_FORGET_LOG_DANGLING_SQL@, "FROM memory_forget_log"@),
{
    reveal_strlit(
        "SELECT COUNT(*) FROM (
           SELECT fl.id
             FROM memory_forget_log fl
            WHERE (
                   (fl.target_type = 'entity' AND EXISTS (
                       SELECT 1 FROM memory_entities e
                        WHERE e.id = fl.target_id AND e.valid_to IS NULL
                   ))
                OR (fl.target_type = 'observation' AND EXISTS (
                       SELECT 1 FROM memory_observations o
                        WHERE o.id = fl.target_id AND o.valid_to IS NULL
                   ))
                OR (fl.target_type = 'relation' AND EXISTS (
                       SELECT 1 FROM memory_relations rel
                        WHERE rel.id = fl.target_id AND rel.valid_to IS NULL
                   ))
              )
            LIMIT $1
         ) sub",
    );
    reveal_strlit("FROM memory_forget_log");
    reveal_strlit("LIMIT ");
    reveal_strlit("OR (fl.target_type = 'observation' AND EXISTS (");
    reveal_strlit("OR (fl.target_type = 'relation' AND EXISTS (");
    reveal_strlit("SELECT");
    reveal_strlit("WHERE e.id = fl.target_id AND e.valid_to IS NULL");
    reveal_strlit("WHERE o.id = fl.target_id AND o.valid_to IS NULL");
    reveal_strlit("WHERE rel.id = fl.target_id AND rel.valid_to IS NULL");
    let t = EVAL_FORGET_LOG_DANGLING_SQL@;
    assert(part_at(t, 0, "SELECT"@));
    assert(part_at(t, 779, "LIMIT "@));
    assert(part_at(t, 244, "WHERE e.id = fl.target_id AND e.valid_to IS NULL"@));
    assert(part_at(t, 331, "OR (fl.target_type = 'observation' AND EXISTS ("@));
    assert(part_at(t, 462, "WHERE o.id = fl.target_id AND o.valid_to IS NULL"@));
    assert(part_at(t, 549, "OR (fl.target_type = 'relation' AND EXISTS ("@));
    assert(part_at(t, 676, "WHERE rel.id = fl.target_id AND rel.valid_to IS NULL"@));
    assert(part_at(t, 60, "FROM memory_forget_log"@));
}

/// Each argument of [`log_entry`] is what the text names in its place.
pub proof fn law_log_entry_stands_for_its_values(v: ForgettingView)
    ensures
        opens(v.log_entry().sql, "INSERT INTO memory_forget_log"@),
        fills(
            v.log_entry(),
            "INSERT INTO memory_forget_log"@,
            "actor"@,
            "VALUES ("@,
            BindView::Text(v.actor),
        ),
        fills(
            v.log_entry(),
            "INSERT INTO memory_forget_log"@,
            "target_type"@,
            "VALUES ("@,
            BindView::Text(v.target.name()),
        ),
        fills(
            v.log_entry(),
            "INSERT INTO memory_forget_log"@,
            "target_id"@,
            "VALUES ("@,
            BindView::BigInt(v.target_id),
        ),
        fills(
            v.log_entry(),
            "INSERT INTO memory_forget_log"@,
            "cascade"@,
            "VALUES ("@,
            BindView::Bool(v.cascade),
        ),
        fills(
            v.log_entry(),
            "INSERT INTO memory_forget_log"@,
            "rows_affected"@,
            "VALUES ("@,
            BindView::Int((v.rows as i64) as i32),
        ),
        fills(
            v.log_entry(),
            "INSERT INTO memory_forget_log"@,
            "manifest_json"@,
            "VALUES ("@,
            BindView::Supplied(0),
        ),
{
    log_forget_text();
    assert(v.log_entry().sql == LOG_FORGET_SQL@);
}

/// The integrity queries count, in the order of the report's fields, what the
/// fields name.
pub proof fn law_integrity_queries_in_order()
    ensures
        opens(eval_queries()[0], "SELECT"@),
        mentions(eval_queries()[0], "LIMIT "@, 1),
        says(eval_queries()[0], "WHERE valid_to IS NOT NULL AND valid_to <= valid_from"@),
        says(eval_queries()[0], "FROM memory_entities"@),
        opens(eval_queries()[1], "SELECT"@),
        mentions(eval_queries()[1], "LIMIT "@, 1),
        says(eval_queries()[1], "WHERE valid_to IS NOT NULL AND valid_to <= valid_from"@),
        says(eval_queries()[1], "FROM memory_observations"@),
        opens(eval_queries()[2], "SELECT"@),
        mentions(eval_queries()[2], "LIMIT "@, 1),
        says(eval_queries()[2], "WHERE valid_to IS NOT NULL AND valid_to <= valid_from"@),
        says(eval_queries()[2], "FROM memory_relations"@),
        opens(eval_queries()[3], "SELECT"@),
        mentions(eval_queries()[3], "LIMIT "@, 1),
        says(eval_queries()[3], "WHERE w.next IS NOT NULL AND w.depth < 32"@),
        says(eval_queries()[3], "FROM memory_entities"@),
        says(eval_queries()[3], "JOIN memory_entities e ON e.id = w.next"@),
        opens(eval_queries()[4], "SELECT"@),
        mentions(eval_queries()[4], "LIMIT "@, 1),
        says(eval_queries()[4], "WHERE w.next IS NOT NULL AND w.depth < 32"@),
        says(eval_queries()[4], "FROM memory_observations"@),
        says(eval_queries()[4], "JOIN memory_observations o ON o.id = w.next"@),
        opens(eval_queries()[5], "SELECT"@),
        mentions(eval_queries()[5], "LIMIT "@, 1),
        says(eval_queries()[5], "WHERE w.next IS NOT NULL AND w.depth < 32"@),
        says(eval_queries()[5], "FROM memory_relations"@),
        says(eval_queries()[5], "JOIN memory_relations rel ON rel.id = w.next"@),
        opens(eval_queries()[6], "SELECT"@),
        mentions(eval_queries()[6], "LIMIT "@, 1),
        says(eval_queries()[6], "WHERE e.id IS NULL"@),
        says(eval_queries()[6], "FROM memory_observations"@),
        says(eval_queries()[6], "LEFT JOIN memory_entities e ON e.id = o.entity_id"@),
        opens(eval_queries()[7], "SELECT"@),
        mentions(eval_queries()[7], "LIMIT "@, 1),
        says(eval_queries()[7], "WHERE o.source = 'reflection'"@),
        says(eval_queries()[7], "AND o.derived_from IS NOT NULL"@),
        says(eval_queries()[7], "AND EXISTS ("@),
        says(eval_queries()[7], "WHERE NOT EXISTS ("@),
        says(eval_queries()[7], "FROM memory_observations"@),
        opens(eval_queries()[8], "SELECT"@),
        mentions(eval_queries()[8], "LIMIT "@, 1),
        says(eval_queries()[8], "WHERE (a.file_id  IS NOT NULL AND f.id IS NULL)"@),
        says(eval_queries()[8], "OR (a.chunk_id IS NOT NULL AND c.id IS NULL)"@),
        says(eval_queries()[8], "OR (a.topic_id IS NOT NULL AND t.id IS NULL)"@),
        says(eval_queries()[8], "FROM memory_code_anchor"@),
        says(eval_queries()[8], "LEFT JOIN indexed_files f ON f.id = a.file_id"@),
        says(eval_queries()[8], "LEFT JOIN file_chunks   c ON c.id = a.chunk_id"@),
        says(eval_queries()[8], "LEFT JOIN code_topics   t ON t.id = a.topic_id"@),
        opens(eval_queries()[9], "SELECT"@),
        mentions(eval_queries()[9], "LIMIT "@, 1),
        says(eval_queries()[9], "WHERE e.id = fl.target_id AND e.valid_to IS NULL"@),
        says(eval_queries()[9], "OR (fl.target_type = 'observation' AND EXISTS ("@),
        says(eval_queries()[9], "WHERE o.id = fl.target_id AND o.valid_to IS NULL"@),
        says(eval_queries()[9], "OR (fl.target_type = 'relation' AND EXISTS ("@),
        says(eval_queries()[9], "WHERE rel.id = fl.target_id AND rel.valid_to IS NULL"@),
        says(eval_queries()[9], "FROM memory_forget_log"@),
{
    eval_entities_temporal_invalid_text();
    assert(eval_queries()[0] == EVAL_ENTITIES_TEMPORAL_INVALID_SQL@);
    eval_observations_temporal_invalid_text();
    assert(eval_queries()[1] == EVAL_OBSERVATIONS_TEMPORAL_INVALID_SQL@);
    eval_relations_temporal_invalid_text();
    assert(eval_queries()[2] == EVAL_RELATIONS_TEMPORAL_INVALID_SQL@);
    eval_entity_supersede_cycles_text();
    assert(eval_queries()[3] == EVAL_ENTITY_SUPERSEDE_CYCLES_SQL@);
    eval_observation_supersede_cycles_text();
    assert(eval_queries()[4] == EVAL_OBSERVATION_SUPERSEDE_CYCLES_SQL@);
    eval_relation_supersede_cycles_text();
    assert(eval_queries()[5] == EVAL_RELATION_SUPERSEDE_CYCLES_SQL@);
    eval_orphan_observations_text();
    assert(eval_queries()[6] == EVAL_ORPHAN_OBSERVATIONS_SQL@);
    eval_reflection_derived_from_missing_text();
    assert(eval_queries()[7] == EVAL_REFLECTION_DERIVED_FROM_MISSING_SQL@);
    eval_stale_code_anchors_text();
    assert(eval_queries()[8] == EVAL_STALE_CODE_ANCHORS_SQL@);
    eval_forget_log_dangling_text();
    assert(eval_queries()[9] == EVAL_FORGET_LOG_DANGLING_SQL@);
}

/// With `cascade` the row of the kind that is asked for is deleted; else its
/// validity ends.
pub proof fn law_forgetting_removes_as_asked(v: ForgettingView)
    ensures
        v.target is Entity && v.cascade ==> opens(
            v.gathering(5).1->Run_0.sql,
            "DELETE FROM memory_entities"@,
        ),
        v.target is Entity && v.cascade ==> takes(
            v.gathering(5).1->Run_0,
            "memory_entities WHERE id = "@,
            BindView::BigInt(v.target_id),
        ),
        v.target is Entity && !v.cascade ==> opens(
            v.gathering(5).1->Run_0.sql,
            "UPDATE memory_entities"@,
        ),
        v.target is Entity && !v.cascade ==> takes(
            v.gathering(5).1->Run_0,
            "WHERE id = "@,
            BindView::BigInt(v.target_id),
        ),
        v.target is Observation && v.cascade ==> opens(
            v.gathering(5).1->Run_0.sql,
            "DELETE FROM memory_observations"@,
        ),
        v.target is Observation && v.cascade ==> takes(
            v.gathering(5).1->Run_0,
            "memory_observations WHERE id = "@,
            BindView::BigInt(v.target_id),
        ),
        v.target is Observation && !v.cascade ==> opens(
            v.gathering(5).1->Run_0.sql,
            "UPDATE memory_observations"@,
        ),
        v.target is Observation && !v.cascade ==> takes(
            v.gathering(5).1->Run_0,
            "WHERE id = "@,
            BindView::BigInt(v.target_id),
        ),
        v.target is Relation && v.cascade ==> opens(
            v.gathering(5).1->Run_0.sql,
            "DELETE FROM memory_relations"@,
        ),
        v.target is Relation && v.cascade ==> takes(
            v.gathering(5).1->Run_0,
            "memory_relations WHERE id = "@,
            BindView::BigInt(v.target_id),
        ),
        v.target is Relation && !v.cascade ==> opens(
            v.gathering(5).1->Run_0.sql,
            "UPDATE memory_relations"@,
        ),
        v.target is Relation && !v.cascade ==> takes(
            v.gathering(5).1->Run_0,
            "WHERE id = "@,
            BindView::BigInt(v.target_id),
        ),
{
    if v.target is Entity && v.cascade {
        erase_entity_text();
        assert(v.gathering(5).1->Run_0.sql == ERASE_ENTITY_SQL@);
    }
    if v.target is Entity && !v.cascade {
        expire_entity_text();
        assert(v.gathering(5).1->Run_0.sql == EXPIRE_ENTITY_SQL@);
    }
    if v.target is Observation && v.cascade {
        erase_observation_text();
        assert(v.gathering(5).1->Run_0.sql == ERASE_OBSERVATION_SQL@);
    }
    if v.target is Observation && !v.cascade {
        expire_observation_text();
        assert(v.gathering(5).1->Run_0.sql == EXPIRE_OBSERVATION_SQL@);
    }
    if v.target is Relation && v.cascade {
        erase_relation_text();
        assert(v.gathering(5).1->Run_0.sql == ERASE_RELATION_SQL@);
    }
    if v.target is Relation && !v.cascade {
        expire_relation_text();
        assert(v.gathering(5).1->Run_0.sql == EXPIRE_RELATION_SQL@);
    }
}

/// Before an entity is deleted its observations, relations, code anchors, scopes and
/// tiers are counted, in this order.
pub proof fn law_dependents_are_counted_in_order(v: ForgettingView)
    ensures
        v.counting() ==> opens(
            v.gathering(0).1->Run_0.sql,
            "SELECT COUNT(*) FROM memory_observations"@,
        ),
        v.counting() ==> takes(
            v.gathering(0).1->Run_0,
            "entity_id = "@,
            BindView::BigInt(v.target_id),
        ),
        v.counting() ==> opens(
            v.gathering(1).1->Run_0.sql,
            "SELECT COUNT(*) FROM memory_relations"@,
        ),
        v.counting() ==> takes(
            v.gathering(1).1->Run_0,
            "from_entity_id = "@,
            BindView::BigInt(v.target_id),
        ),
        v.counting() ==> opens(
            v.gathering(2).1->Run_0.sql,
            "SELECT COUNT(*) FROM memory_code_anchor"@,
        ),
        v.counting() ==> takes(
            v.gathering(2).1->Run_0,
            "entity_id = "@,
            BindView::BigInt(v.target_id),
        ),
        v.counting() ==> opens(
            v.gathering(3).1->Run_0.sql,
            "SELECT COUNT(*) FROM memory_entity_scope"@,
        ),
        v.counting() ==> takes(
            v.gathering(3).1->Run_0,
            "entity_id = "@,
            BindView::BigInt(v.target_id),
        ),
        v.counting() ==> opens(
            v.gathering(4).1->Run_0.sql,
            "SELECT COUNT(*) FROM memory_entity_tier"@,
        ),
        v.counting() ==> takes(
            v.gathering(4).1->Run_0,
            "entity_id = "@,
            BindView::BigInt(v.target_id),
        ),
{
    if v.counting() {
        count_observations_text();
        assert(v.gathering(0).1->Run_0.sql == COUNT_OBSERVATIONS_SQL@);
    }
    if v.counting() {
        count_relations_text();
        assert(v.gathering(1).1->Run_0.sql == COUNT_RELATIONS_SQL@);
    }
    if v.counting() {
        count_anchors_text();
        assert(v.gathering(2).1->Run_0.sql == COUNT_ANCHORS_SQL@);
    }
    if v.counting() {
        count_scopes_text();
        assert(v.gathering(3).1->Run_0.sql == COUNT_SCOPES_SQL@);
    }
    if v.counting() {
        count_tiers_text();
        assert(v.gathering(4).1->Run_0.sql == COUNT_TIERS_SQL@);
    }
}

proof fn lemma_opens_otherwise(t: Seq<char>, a: Seq<char>, b: Seq<char>)
    requires
        opens(t, a),
        a.len() > 0,
        b.len() > 0,
        a[0] != b[0],
    ensures
        !opens(t, b),
{
    assert(t.subrange(0, a.len() as int)[0] == t[0]);
    if opens(t, b) {
        assert(t.subrange(0, b.len() as int)[0] == t[0]);
    }
}

/// Forgetting without `cascade` deletes nothing: none of its statements is a
/// deletion.
pub proof fn law_soft_forgetting_deletes_nothing(v: ForgettingView, reply: ReplyView)
    requires
        !v.cascade,
    ensures
        v.next(reply).1 matches ActionView::Run(st) ==> !opens(st.sql, "DELETE"@),
{
    reveal_strlit("DELETE");
    reveal_strlit("UPDATE memory_entities");
    reveal_strlit("UPDATE memory_observations");
    reveal_strlit("UPDATE memory_relations");
    reveal_strlit("INSERT INTO memory_forget_log");
    expire_entity_text();
    expire_observation_text();
    expire_relation_text();
    log_forget_text();
    lemma_opens_otherwise(EXPIRE_ENTITY_SQL@, "UPDATE memory_entities"@, "DELETE"@);
    lemma_opens_otherwise(EXPIRE_OBSERVATION_SQL@, "UPDATE memory_observations"@, "DELETE"@);
    lemma_opens_otherwise(EXPIRE_RELATION_SQL@, "UPDATE memory_relations"@, "DELETE"@);
    lemma_opens_otherwise(LOG_FORGET_SQL@, "INSERT INTO memory_forget_log"@, "DELETE"@);
}

/// The purge deletes old rows that nothing needs any more; what is counted
/// beforehand are the same rows.
pub proof fn law_purge_keeps_what_is_needed(window_days: i64)
    ensures
        forall|i: int|
            0 <= i < 3 ==> {
                let purge = #[trigger] purges_expired(purgeable()[i], window_days);
                &&& opens(purge.sql, "DELETE FROM "@)
                &&& says(purge.sql, "WHERE valid_to IS NOT NULL"@)
                &&& takes(purge, "valid_to < NOW() - ("@, BindView::Int(window_days as i32))
                &&& takes(purge, "importance < "@, BindView::Supplied(0))
            },
        says(
            purges_expired(purgeable()[0], window_days).sql,
            "SELECT superseded_by FROM memory_entities"@,
        ),
        says(
            purges_expired(purgeable()[1], window_days).sql,
            "SELECT superseded_by FROM memory_observations"@,
        ),
        says(
            purges_expired(purgeable()[2], window_days).sql,
            "SELECT superseded_by FROM memory_relations"@,
        ),
        says(
            purges_expired(purgeable()[0], window_days).sql,
            "WHERE tier IN ('procedural','reflective')"@,
        ),
        says(
            purges_expired(purgeable()[1], window_days).sql,
            "WHERE tier IN ('procedural','reflective')"@,
        ),
        says(
            purges_expired(purgeable()[1], window_days).sql,
            "SELECT observation_id FROM agent_outcomes"@,
        ),
{
    purgeable_text();
    let d = "DELETE FROM "@;
    assert(d + PURGEABLE_ENTITIES@ =~= d + PURGEABLE_ENTITIES@ + seq![]);
    lemma_within(d + PURGEABLE_ENTITIES@, d, PURGEABLE_ENTITIES@, seq![]);
    assert(d + PURGEABLE_OBSERVATIONS@ =~= d + PURGEABLE_OBSERVATIONS@ + seq![]);
    lemma_within(d + PURGEABLE_OBSERVATIONS@, d, PURGEABLE_OBSERVATIONS@, seq![]);
    assert(d + PURGEABLE_RELATIONS@ =~= d + PURGEABLE_RELATIONS@ + seq![]);
    lemma_within(d + PURGEABLE_RELATIONS@, d, PURGEABLE_RELATIONS@, seq![]);
    assert forall|i: int| 0 <= i < 3 implies {
        let purge = #[trigger] purges_expired(purgeable()[i], window_days);
        &&& opens(purge.sql, "DELETE FROM "@)
        &&& says(purge.sql, "WHERE valid_to IS NOT NULL"@)
        &&& takes(purge, "valid_to < NOW() - ("@, BindView::Int(window_days as i32))
        &&& takes(purge, "importance < "@, BindView::Supplied(0))
    } by {
        let purge = purges_expired(purgeable()[i], window_days);
        assert(part_at(purge.sql, 0, d));
        if i == 0 {
            assert(purge.sql == d + PURGEABLE_ENTITIES@);
        } else if i == 1 {
            assert(purge.sql == d + PURGEABLE_OBSERVATIONS@);
        } else {
            assert(purge.sql == d + PURGEABLE_RELATIONS@);
        }
        assert(mentions(purge.sql, "valid_to < NOW() - ("@, 1));
        assert(mentions(purge.sql, "importance < "@, 2));
    }
    assert(purges_expired(purgeable()[0], window_days).sql == d + PURGEABLE_ENTITIES@);
    assert(purges_expired(purgeable()[1], window_days).sql == d + PURGEABLE_OBSERVATIONS@);
    assert(purges_expired(purgeable()[2], window_days).sql == d + PURGEABLE_RELATIONS@);
}

/// What makes a row of each kind purgeable.
#[verifier::rlimit(50)]
proof fn purgeable_text()
    ensures
        mentions(PURGEABLE_ENTITIES@, "valid_to < NOW() - ("@, 1),
        mentions(PURGEABLE_ENTITIES@, "importance < "@, 2),
        says(PURGEABLE_ENTITIES@, "WHERE valid_to IS NOT NULL"@),
        says(PURGEABLE_ENTITIES@, "SELECT superseded_by FROM memory_entities"@),
        says(PURGEABLE_ENTITIES@, "WHERE tier IN ('procedural','reflective')"@),
        mentions(PURGEABLE_OBSERVATIONS@, "valid_to < NOW() - ("@, 1),
        mentions(PURGEABLE_OBSERVATIONS@, "importance < "@, 2),
        says(PURGEABLE_OBSERVATIONS@, "WHERE valid_to IS NOT NULL"@),
        says(PURGEABLE_OBSERVATIONS@, "SELECT superseded_by FROM memory_observations"@),
        says(PURGEABLE_OBSERVATIONS@, "WHERE tier IN ('procedural','reflective')"@),
        says(PURGEABLE_OBSERVATIONS@, "SELECT observation_id FROM agent_outcomes"@),
        mentions(PURGEABLE_RELATIONS@, "valid_to < NOW() - ("@, 1),
        mentions(PURGEABLE_RELATIONS@, "importance < "@, 2),
        says(PURGEABLE_RELATIONS@, "WHERE valid_to IS NOT NULL"@),
        says(PURGEABLE_RELATIONS@, "SELECT superseded_by FROM memory_relations"@),
{
    reveal_strlit(
        "memory_entities
         WHERE valid_to IS NOT NULL
           AND valid_to < NOW() - ($1::int * interval '1 day')
           AND importance < $2
           AND id NOT IN (
               SELECT superseded_by FROM memory_entities
               WHERE superseded_by IS NOT NULL
           )
           -- G2: never purge promoted best practices (procedural/reflective tier).
           AND id NOT IN (
               SELECT entity_id FROM memory_entity_tier
               WHERE tier IN ('procedural','reflective')
           )",
    );
    reveal_strlit(
        "memory_observations
         WHERE valid_to IS NOT NULL
           AND valid_to < NOW() - ($1::int * interval '1 day')
           AND importance < $2
           AND id NOT IN (
               SELECT superseded_by FROM memory_observations
               WHERE superseded_by IS NOT NULL
           )
           -- G2: never purge best-practice observations or outcome-linked rows.
           AND entity_id NOT IN (
               SELECT entity_id FROM memory_entity_tier
               WHERE tier IN ('procedural','reflective')
           )
           AND id NOT IN (
               SELECT observation_id FROM agent_outcomes
               WHERE observation_id IS NOT NULL
           )",
    );
    reveal_strlit(
        "memory_relations
         WHERE valid_to IS NOT NULL
           AND valid_to < NOW() - ($1::int * interval '1 day')
           AND importance < $2
           AND id NOT IN (
               SELECT superseded_by FROM memory_relations
               WHERE superseded_by IS NOT NULL
           )",
    );
    reveal_strlit("SELECT observation_id FROM agent_outcomes");
    reveal_strlit("SELECT superseded_by FROM memory_entities");
    reveal_strlit("SELECT superseded_by FROM memory_observations");
    reveal_strlit("SELECT superseded_by FROM memory_relations");
    reveal_strlit("WHERE tier IN ('procedural','reflective')");
    reveal_strlit("WHERE valid_to IS NOT NULL");
    reveal_strlit("importance < ");
    reveal_strlit("valid_to < NOW() - (");
    assert(part_at(PURGEABLE_ENTITIES@, 67, "valid_to < NOW() - ("@));
    assert(part_at(PURGEABLE_ENTITIES@, 130, "importance < "@));
    assert(part_at(PURGEABLE_ENTITIES@, 25, "WHERE valid_to IS NOT NULL"@));
    assert(part_at(PURGEABLE_ENTITIES@, 188, "SELECT superseded_by FROM memory_entities"@));
    assert(part_at(PURGEABLE_ENTITIES@, 472, "WHERE tier IN ('procedural','reflective')"@));
    assert(part_at(PURGEABLE_OBSERVATIONS@, 71, "valid_to < NOW() - ("@));
    assert(part_at(PURGEABLE_OBSERVATIONS@, 134, "importance < "@));
    assert(part_at(PURGEABLE_OBSERVATIONS@, 29, "WHERE valid_to IS NOT NULL"@));
    assert(part_at(PURGEABLE_OBSERVATIONS@, 192, "SELECT superseded_by FROM memory_observations"@));
    assert(part_at(PURGEABLE_OBSERVATIONS@, 484, "WHERE tier IN ('procedural','reflective')"@));
    assert(part_at(PURGEABLE_OBSERVATIONS@, 581, "SELECT observation_id FROM agent_outcomes"@));
    assert(part_at(PURGEABLE_RELATIONS@, 68, "valid_to < NOW() - ("@));
    assert(part_at(PURGEABLE_RELATIONS@, 131, "importance < "@));
    assert(part_at(PURGEABLE_RELATIONS@, 26, "WHERE valid_to IS NOT NULL"@));
    assert(part_at(PURGEABLE_RELATIONS@, 189, "SELECT superseded_by FROM memory_relations"@));
}

} // verus!
