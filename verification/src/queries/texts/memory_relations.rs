//! What the statements of `memory_relations` say.
use vstd::prelude::*;

use crate::meaning::{
    fills, item, lined_up_at, lines_up, mentions, opens, part_at, past, past_blanks, says, takes,
};
use crate::queries::memory_relations::{
    deletes_relation, inserts_relation, looks_up_relation, RelationView, ACTIVE_RELATION_IDS_SQL,
    DELETE_RELATION_SQL, INSERT_RELATION_SQL,
};
use crate::statement::BindView;

verus! {

/// What the text of [`ACTIVE_RELATION_IDS_SQL`] says.
pub proof fn active_relation_ids_text()
    ensures
        opens(ACTIVE_RELATION_IDS_SQL@, "SELECT"@),
        mentions(ACTIVE_RELATION_IDS_SQL@, "from_entity_id = "@, 1),
        mentions(ACTIVE_RELATION_IDS_SQL@, "to_entity_id = "@, 2),
        mentions(ACTIVE_RELATION_IDS_SQL@, "relation_type = "@, 3),
        says(ACTIVE_RELATION_IDS_SQL@, "AND valid_to IS NULL"@),
        says(ACTIVE_RELATION_IDS_SQL@, "ORDER BY id"@),
        says(ACTIVE_RELATION_IDS_SQL@, "FROM memory_relations"@),
{
    reveal_strlit(
        "SELECT id FROM memory_relations
             WHERE from_entity_id = $1 AND to_entity_id = $2 AND relation_type = $3
               AND valid_to IS NULL
             ORDER BY id",
    );
    reveal_strlit("AND valid_to IS NULL");
    reveal_strlit("FROM memory_relations");
    reveal_strlit("ORDER BY id");
    reveal_strlit("SELECT");
    reveal_strlit("from_entity_id = ");
    reveal_strlit("relation_type = ");
    reveal_strlit("to_entity_id = ");
    let t = ACTIVE_RELATION_IDS_SQL@;
    assert(part_at(t, 0, "SELECT"@));
    assert(part_at(t, 51, "from_entity_id = "@));
    assert(part_at(t, 75, "to_entity_id = "@));
    assert(part_at(t, 97, "relation_type = "@));
    assert(part_at(t, 131, "AND valid_to IS NULL"@));
    assert(part_at(t, 165, "ORDER BY id"@));
    assert(part_at(t, 10, "FROM memory_relations"@));
}

/// What the text of [`INSERT_RELATION_SQL`] says.
pub proof fn insert_relation_text()
    ensures
        opens(INSERT_RELATION_SQL@, "INSERT INTO memory_relations"@),
        lines_up(
            INSERT_RELATION_SQL@,
            "INSERT INTO memory_relations"@,
            "from_entity_id"@,
            "VALUES ("@,
            1,
        ),
        lines_up(
            INSERT_RELATION_SQL@,
            "INSERT INTO memory_relations"@,
            "to_entity_id"@,
            "VALUES ("@,
            2,
        ),
        lines_up(
            INSERT_RELATION_SQL@,
            "INSERT INTO memory_relations"@,
            "relation_type"@,
            "VALUES ("@,
            3,
        ),
        lines_up(INSERT_RELATION_SQL@, "INSERT INTO memory_relations"@, "source"@, "VALUES ("@, 4),
{
    reveal_strlit(
        "INSERT INTO memory_relations
                (from_entity_id, to_entity_id, relation_type, source)
             VALUES ($1, $2, $3, $4::memory_source)
             RETURNING id",
    );
    reveal_strlit("INSERT INTO memory_relations");
    reveal_strlit("VALUES (");
    reveal_strlit("from_entity_id");
    reveal_strlit("relation_type");
    reveal_strlit("source");
    reveal_strlit("to_entity_id");
    let t = INSERT_RELATION_SQL@;
    assert(part_at(t, 0, "INSERT INTO memory_relations"@));
    reveal_with_fuel(past, 19);
    reveal_with_fuel(past_blanks, 2);
    assert(past(t, 28, '(') == 46);
    assert(item(t, 46, 0) == 46);
    assert(item(t, 46, 1) == 62);
    assert(item(t, 46, 2) == 76);
    assert(item(t, 46, 3) == 91);
    assert(item(t, 120, 0) == 120);
    assert(item(t, 120, 1) == 124);
    assert(item(t, 120, 2) == 128);
    assert(item(t, 120, 3) == 132);
    assert(lined_up_at(
        t,
        "INSERT INTO memory_relations"@,
        "from_entity_id"@,
        "VALUES ("@,
        1,
        0,
        112,
        0,
    ));
    assert(lined_up_at(
        t,
        "INSERT INTO memory_relations"@,
        "to_entity_id"@,
        "VALUES ("@,
        2,
        0,
        112,
        1,
    ));
    assert(lined_up_at(
        t,
        "INSERT INTO memory_relations"@,
        "relation_type"@,
        "VALUES ("@,
        3,
        0,
        112,
        2,
    ));
    assert(lined_up_at(t, "INSERT INTO memory_relations"@, "source"@, "VALUES ("@, 4, 0, 112, 3));
}

/// What the text of [`DELETE_RELATION_SQL`] says.
pub proof fn delete_relation_text()
    ensures
        opens(DELETE_RELATION_SQL@, "UPDATE memory_relations"@),
        mentions(DELETE_RELATION_SQL@, "a.name = "@, 1),
        mentions(DELETE_RELATION_SQL@, "b.name = "@, 2),
        mentions(DELETE_RELATION_SQL@, "r.relation_type = "@, 3),
        says(DELETE_RELATION_SQL@, "WHERE r.from_entity_id = a.id"@),
        says(DELETE_RELATION_SQL@, "AND r.to_entity_id = b.id"@),
        says(DELETE_RELATION_SQL@, "AND r.valid_to IS NULL"@),
        says(DELETE_RELATION_SQL@, "FROM memory_entities"@),
{
    reveal_strlit(
        "UPDATE memory_relations r
                SET valid_to = NOW()
              FROM memory_entities a, memory_entities b
              WHERE r.from_entity_id = a.id
                AND r.to_entity_id = b.id
                AND a.name = $1 AND a.valid_to IS NULL
                AND b.name = $2 AND b.valid_to IS NULL
                AND r.relation_type = $3
                AND r.valid_to IS NULL",
    );
    reveal_strlit("AND r.to_entity_id = b.id");
    reveal_strlit("AND r.valid_to IS NULL");
    reveal_strlit("FROM memory_entities");
    reveal_strlit("UPDATE memory_relations");
    reveal_strlit("WHERE r.from_entity_id = a.id");
    reveal_strlit("a.name = ");
    reveal_strlit("b.name = ");
    reveal_strlit("r.relation_type = ");
    let t = DELETE_RELATION_SQL@;
    assert(part_at(t, 0, "UPDATE memory_relations"@));
    assert(part_at(t, 225, "a.name = "@));
    assert(part_at(t, 280, "b.name = "@));
    assert(part_at(t, 335, "r.relation_type = "@));
    assert(part_at(t, 133, "WHERE r.from_entity_id = a.id"@));
    assert(part_at(t, 179, "AND r.to_entity_id = b.id"@));
    assert(part_at(t, 372, "AND r.valid_to IS NULL"@));
    assert(part_at(t, 77, "FROM memory_entities"@));
}

/// Each argument of [`looks_up_relation`] is what the text names in its place.
pub proof fn law_looks_up_relation_stands_for_its_values(
    from_id: i64,
    to_id: i64,
    relation_type: Seq<char>,
)
    ensures
        opens(looks_up_relation(from_id, to_id, relation_type).sql, "SELECT"@),
        takes(
            looks_up_relation(from_id, to_id, relation_type),
            "from_entity_id = "@,
            BindView::BigInt(from_id),
        ),
        takes(
            looks_up_relation(from_id, to_id, relation_type),
            "to_entity_id = "@,
            BindView::BigInt(to_id),
        ),
        takes(
            looks_up_relation(from_id, to_id, relation_type),
            "relation_type = "@,
            BindView::Text(relation_type),
        ),
        says(looks_up_relation(from_id, to_id, relation_type).sql, "AND valid_to IS NULL"@),
        says(looks_up_relation(from_id, to_id, relation_type).sql, "ORDER BY id"@),
        says(looks_up_relation(from_id, to_id, relation_type).sql, "FROM memory_relations"@),
{
    active_relation_ids_text();
    assert(looks_up_relation(from_id, to_id, relation_type).sql == ACTIVE_RELATION_IDS_SQL@);
}

/// Each argument of [`inserts_relation`] is what the text names in its place.
pub proof fn law_inserts_relation_stands_for_its_values(
    from_id: i64,
    to_id: i64,
    relation_type: Seq<char>,
    source: Seq<char>,
)
    ensures
        opens(
            inserts_relation(from_id, to_id, relation_type, source).sql,
            "INSERT INTO memory_relations"@,
        ),
        fills(
            inserts_relation(from_id, to_id, relation_type, source),
            "INSERT INTO memory_relations"@,
            "from_entity_id"@,
            "VALUES ("@,
            BindView::BigInt(from_id),
        ),
        fills(
            inserts_relation(from_id, to_id, relation_type, source),
            "INSERT INTO memory_relations"@,
            "to_entity_id"@,
            "VALUES ("@,
            BindView::BigInt(to_id),
        ),
        fills(
            inserts_relation(from_id, to_id, relation_type, source),
            "INSERT INTO memory_relations"@,
            "relation_type"@,
            "VALUES ("@,
            BindView::Text(relation_type),
        ),
        fills(
            inserts_relation(from_id, to_id, relation_type, source),
            "INSERT INTO memory_relations"@,
            "source"@,
            "VALUES ("@,
            BindView::Text(source),
        ),
{
    insert_relation_text();
    assert(inserts_relation(from_id, to_id, relation_type, source).sql == INSERT_RELATION_SQL@);
}

/// Each argument of [`deletes_relation`] is what the text names in its place.
pub proof fn law_deletes_relation_stands_for_its_values(x: RelationView)
    ensures
        opens(deletes_relation(x).sql, "UPDATE memory_relations"@),
        takes(deletes_relation(x), "a.name = "@, BindView::Text(x.from)),
        takes(deletes_relation(x), "b.name = "@, BindView::Text(x.to)),
        takes(deletes_relation(x), "r.relation_type = "@, BindView::Text(x.relation_type)),
        says(deletes_relation(x).sql, "WHERE r.from_entity_id = a.id"@),
        says(deletes_relation(x).sql, "AND r.to_entity_id = b.id"@),
        says(deletes_relation(x).sql, "AND r.valid_to IS NULL"@),
        says(deletes_relation(x).sql, "FROM memory_entities"@),
{
    delete_relation_text();
    assert(deletes_relation(x).sql == DELETE_RELATION_SQL@);
}

} // verus!
