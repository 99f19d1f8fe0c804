//! What the statements of `memory_observations` say.
use vstd::prelude::*;

use crate::digest::sha256_hex;
use crate::meaning::{
    fills, item, lined_up_at, lines_up, mentions, opens, part_at, past, past_blanks, says, takes,
};
use crate::queries::memory_observations::{
    deletes_observation, finds_observation, inserts_observation, AdditionView, DeletionView,
    PendingView, ACTIVE_ENTITIES_BY_NAME_SQL, ACTIVE_ENTITY_BY_NAME_SQL, DELETE_OBSERVATION_SQL,
    FIND_ACTIVE_OBSERVATION_SQL, INSERT_ACTIVE_OBSERVATION_SQL,
};
use crate::statement::BindView;

use vstd::utf8::{encode_utf8};

verus! {

/// What the text of [`FIND_ACTIVE_OBSERVATION_SQL`] says.
pub proof fn find_active_observation_text()
    ensures
        opens(FIND_ACTIVE_OBSERVATION_SQL@, "SELECT"@),
        mentions(FIND_ACTIVE_OBSERVATION_SQL@, "entity_id = "@, 1),
        mentions(FIND_ACTIVE_OBSERVATION_SQL@, "content_sha256 = "@, 2),
        says(FIND_ACTIVE_OBSERVATION_SQL@, "AND valid_to IS NULL"@),
        says(FIND_ACTIVE_OBSERVATION_SQL@, "FROM memory_observations"@),
{
    reveal_strlit(
        "SELECT id FROM memory_observations
         WHERE entity_id = $1
           AND content_sha256 = $2
           AND valid_to IS NULL
         LIMIT 1",
    );
    reveal_strlit("AND valid_to IS NULL");
    reveal_strlit("FROM memory_observations");
    reveal_strlit("SELECT");
    reveal_strlit("content_sha256 = ");
    reveal_strlit("entity_id = ");
    let t = FIND_ACTIVE_OBSERVATION_SQL@;
    assert(part_at(t, 0, "SELECT"@));
    assert(part_at(t, 50, "entity_id = "@));
    assert(part_at(t, 80, "content_sha256 = "@));
    assert(part_at(t, 111, "AND valid_to IS NULL"@));
    assert(part_at(t, 10, "FROM memory_observations"@));
}

/// What the text of [`INSERT_ACTIVE_OBSERVATION_SQL`] says.
pub proof fn insert_active_observation_text()
    ensures
        opens(INSERT_ACTIVE_OBSERVATION_SQL@, "INSERT INTO memory_observations"@),
        lines_up(
            INSERT_ACTIVE_OBSERVATION_SQL@,
            "INSERT INTO memory_observations"@,
            "entity_id"@,
            "VALUES ("@,
            1,
        ),
        lines_up(
            INSERT_ACTIVE_OBSERVATION_SQL@,
            "INSERT INTO memory_observations"@,
            "content"@,
            "VALUES ("@,
            2,
        ),
        lines_up(
            INSERT_ACTIVE_OBSERVATION_SQL@,
            "INSERT INTO memory_observations"@,
            "content_sha256"@,
            "VALUES ("@,
            3,
        ),
        lines_up(
            INSERT_ACTIVE_OBSERVATION_SQL@,
            "INSERT INTO memory_observations"@,
            "source"@,
            "VALUES ("@,
            4,
        ),
        says(INSERT_ACTIVE_OBSERVATION_SQL@, "ON CONFLICT DO NOTHING"@),
{
    reveal_strlit(
        "INSERT INTO memory_observations
            (entity_id, content, content_sha256, source)
         VALUES ($1, $2, $3, $4::memory_source)
         ON CONFLICT DO NOTHING
         RETURNING id",
    );
    reveal_strlit("INSERT INTO memory_observations");
    reveal_strlit("ON CONFLICT DO NOTHING");
    reveal_strlit("VALUES (");
    reveal_strlit("content");
    reveal_strlit("content_sha256");
    reveal_strlit("entity_id");
    reveal_strlit("source");
    let t = INSERT_ACTIVE_OBSERVATION_SQL@;
    assert(part_at(t, 0, "INSERT INTO memory_observations"@));
    reveal_with_fuel(past, 16);
    reveal_with_fuel(past_blanks, 2);
    assert(past(t, 31, '(') == 45);
    assert(item(t, 45, 0) == 45);
    assert(item(t, 45, 1) == 56);
    assert(item(t, 45, 2) == 65);
    assert(item(t, 45, 3) == 81);
    assert(item(t, 106, 0) == 106);
    assert(item(t, 106, 1) == 110);
    assert(item(t, 106, 2) == 114);
    assert(item(t, 106, 3) == 118);
    assert(lined_up_at(
        t,
        "INSERT INTO memory_observations"@,
        "entity_id"@,
        "VALUES ("@,
        1,
        0,
        98,
        0,
    ));
    assert(lined_up_at(
        t,
        "INSERT INTO memory_observations"@,
        "content"@,
        "VALUES ("@,
        2,
        0,
        98,
        1,
    ));
    assert(lined_up_at(
        t,
        "INSERT INTO memory_observations"@,
        "content_sha256"@,
        "VALUES ("@,
        3,
        0,
        98,
        2,
    ));
    assert(lined_up_at(t, "INSERT INTO memory_observations"@, "source"@, "VALUES ("@, 4, 0, 98, 3));
    assert(part_at(t, 146, "ON CONFLICT DO NOTHING"@));
}

/// What the text of [`ACTIVE_ENTITIES_BY_NAME_SQL`] says.
pub proof fn active_entities_by_name_text()
    ensures
        opens(ACTIVE_ENTITIES_BY_NAME_SQL@, "SELECT"@),
        mentions(ACTIVE_ENTITIES_BY_NAME_SQL@, "name = "@, 1),
        says(ACTIVE_ENTITIES_BY_NAME_SQL@, "ORDER BY id"@),
        says(ACTIVE_ENTITIES_BY_NAME_SQL@, "FROM memory_entities"@),
{
    reveal_strlit(
        "SELECT id FROM memory_entities
             WHERE name = $1 AND valid_to IS NULL
             ORDER BY id",
    );
    reveal_strlit("FROM memory_entities");
    reveal_strlit("ORDER BY id");
    reveal_strlit("SELECT");
    reveal_strlit("name = ");
    let t = ACTIVE_ENTITIES_BY_NAME_SQL@;
    assert(part_at(t, 0, "SELECT"@));
    assert(part_at(t, 50, "name = "@));
    assert(part_at(t, 94, "ORDER BY id"@));
    assert(part_at(t, 10, "FROM memory_entities"@));
}

/// What the text of [`ACTIVE_ENTITY_BY_NAME_SQL`] says.
pub proof fn active_entity_by_name_text()
    ensures
        opens(ACTIVE_ENTITY_BY_NAME_SQL@, "SELECT"@),
        mentions(ACTIVE_ENTITY_BY_NAME_SQL@, "name = "@, 1),
        says(ACTIVE_ENTITY_BY_NAME_SQL@, "FROM memory_entities"@),
{
    reveal_strlit(
        "SELECT id FROM memory_entities WHERE name = $1 AND valid_to IS NULL LIMIT 1",
    );
    reveal_strlit("FROM memory_entities");
    reveal_strlit("SELECT");
    reveal_strlit("name = ");
    let t = ACTIVE_ENTITY_BY_NAME_SQL@;
    assert(part_at(t, 0, "SELECT"@));
    assert(part_at(t, 37, "name = "@));
    assert(part_at(t, 10, "FROM memory_entities"@));
}

/// What the text of [`DELETE_OBSERVATION_SQL`] says.
pub proof fn delete_observation_text()
    ensures
        opens(DELETE_OBSERVATION_SQL@, "UPDATE memory_observations"@),
        mentions(DELETE_OBSERVATION_SQL@, "entity_id = "@, 1),
        mentions(DELETE_OBSERVATION_SQL@, "content = "@, 2),
{
    reveal_strlit(
        "UPDATE memory_observations
                    SET valid_to = NOW()
                  WHERE entity_id = $1 AND content = $2 AND valid_to IS NULL",
    );
    reveal_strlit("UPDATE memory_observations");
    reveal_strlit("content = ");
    reveal_strlit("entity_id = ");
    let t = DELETE_OBSERVATION_SQL@;
    assert(part_at(t, 0, "UPDATE memory_observations"@));
    assert(part_at(t, 92, "entity_id = "@));
    assert(part_at(t, 111, "content = "@));
}

/// Each argument of [`finds_observation`] is what the text names in its place.
pub proof fn law_finds_observation_stands_for_its_values(p: PendingView)
    ensures
        opens(finds_observation(p).sql, "SELECT"@),
        takes(finds_observation(p), "entity_id = "@, BindView::BigInt(p.entity_id)),
        takes(
            finds_observation(p),
            "content_sha256 = "@,
            BindView::Text(sha256_hex(encode_utf8(p.content))),
        ),
        says(finds_observation(p).sql, "AND valid_to IS NULL"@),
        says(finds_observation(p).sql, "FROM memory_observations"@),
{
    find_active_observation_text();
    assert(finds_observation(p).sql == FIND_ACTIVE_OBSERVATION_SQL@);
}

/// Each argument of [`inserts_observation`] is what the text names in its place.
pub proof fn law_inserts_observation_stands_for_its_values(p: PendingView, source: Seq<char>)
    ensures
        opens(inserts_observation(p, source).sql, "INSERT INTO memory_observations"@),
        fills(
            inserts_observation(p, source),
            "INSERT INTO memory_observations"@,
            "entity_id"@,
            "VALUES ("@,
            BindView::BigInt(p.entity_id),
        ),
        fills(
            inserts_observation(p, source),
            "INSERT INTO memory_observations"@,
            "content"@,
            "VALUES ("@,
            BindView::Text(p.content),
        ),
        fills(
            inserts_observation(p, source),
            "INSERT INTO memory_observations"@,
            "content_sha256"@,
            "VALUES ("@,
            BindView::Text(sha256_hex(encode_utf8(p.content))),
        ),
        fills(
            inserts_observation(p, source),
            "INSERT INTO memory_observations"@,
            "source"@,
            "VALUES ("@,
            BindView::Text(source),
        ),
        says(inserts_observation(p, source).sql, "ON CONFLICT DO NOTHING"@),
{
    insert_active_observation_text();
    assert(inserts_observation(p, source).sql == INSERT_ACTIVE_OBSERVATION_SQL@);
}

/// Each argument of [`deletes_observation`] is what the text names in its place.
pub proof fn law_deletes_observation_stands_for_its_values(entity_id: i64, content: Seq<char>)
    ensures
        opens(deletes_observation(entity_id, content).sql, "UPDATE memory_observations"@),
        takes(
            deletes_observation(entity_id, content),
            "entity_id = "@,
            BindView::BigInt(entity_id),
        ),
        takes(deletes_observation(entity_id, content), "content = "@, BindView::Text(content)),
{
    delete_observation_text();
    assert(deletes_observation(entity_id, content).sql == DELETE_OBSERVATION_SQL@);
}

/// Adding observations looks up the entity by the name that the input gives.
pub proof fn law_additions_look_up_their_entity(v: AdditionView, k: int)
    ensures
        k < v.inputs.len() ==> opens(v.looking(k).1->Run_0.sql, "SELECT"@),
        k < v.inputs.len() ==> takes(
            v.looking(k).1->Run_0,
            "name = "@,
            BindView::Text(v.inputs[k].name),
        ),
        k < v.inputs.len() ==> says(v.looking(k).1->Run_0.sql, "ORDER BY id"@),
        k < v.inputs.len() ==> says(v.looking(k).1->Run_0.sql, "FROM memory_entities"@),
{
    if k < v.inputs.len() {
        active_entities_by_name_text();
        assert(v.looking(k).1->Run_0.sql == ACTIVE_ENTITIES_BY_NAME_SQL@);
    }
}

/// Deleting observations looks up the entity by the name that the input gives.
pub proof fn law_deletions_look_up_their_entity(v: DeletionView, k: int)
    ensures
        k < v.inputs.len() ==> opens(v.looking(k).1->Run_0.sql, "SELECT"@),
        k < v.inputs.len() ==> takes(
            v.looking(k).1->Run_0,
            "name = "@,
            BindView::Text(v.inputs[k].name),
        ),
        k < v.inputs.len() ==> says(v.looking(k).1->Run_0.sql, "FROM memory_entities"@),
{
    if k < v.inputs.len() {
        active_entity_by_name_text();
        assert(v.looking(k).1->Run_0.sql == ACTIVE_ENTITY_BY_NAME_SQL@);
    }
}

} // verus!
