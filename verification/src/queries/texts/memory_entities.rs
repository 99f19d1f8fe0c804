//! What the statements of `memory_entities` say.
use vstd::prelude::*;

use crate::meaning::{
    fills, item, lined_up_at, lines_up, mentions, opens, part_at, past, past_blanks, says, takes,
};
use crate::protocol::{ActionView, ReplyView};
use crate::queries::memory_entities::{
    attaches_scope, inserts_entity, looks_up_entity, EntitiesView, EntityInputView, EntityStage,
    ACTIVE_ENTITY_IDS_SQL, ATTACH_SCOPE_SQL, INSERT_ENTITY_SQL,
};
use crate::statement::BindView;

verus! {

/// What the text of [`ACTIVE_ENTITY_IDS_SQL`] says.
pub proof fn active_entity_ids_text()
    ensures
        opens(ACTIVE_ENTITY_IDS_SQL@, "SELECT"@),
        mentions(ACTIVE_ENTITY_IDS_SQL@, "name = "@, 1),
        mentions(ACTIVE_ENTITY_IDS_SQL@, "entity_type = "@, 2),
        says(ACTIVE_ENTITY_IDS_SQL@, "ORDER BY id"@),
        says(ACTIVE_ENTITY_IDS_SQL@, "FROM memory_entities"@),
{
    reveal_strlit(
        "SELECT id FROM memory_entities
             WHERE name = $1 AND entity_type = $2 AND valid_to IS NULL
             ORDER BY id",
    );
    reveal_strlit("FROM memory_entities");
    reveal_strlit("ORDER BY id");
    reveal_strlit("SELECT");
    reveal_strlit("entity_type = ");
    reveal_strlit("name = ");
    let t = ACTIVE_ENTITY_IDS_SQL@;
    assert(part_at(t, 0, "SELECT"@));
    assert(part_at(t, 50, "name = "@));
    assert(part_at(t, 64, "entity_type = "@));
    assert(part_at(t, 115, "ORDER BY id"@));
    assert(part_at(t, 10, "FROM memory_entities"@));
}

/// What the text of [`INSERT_ENTITY_SQL`] says.
pub proof fn insert_entity_text()
    ensures
        opens(INSERT_ENTITY_SQL@, "INSERT INTO memory_entities"@),
        lines_up(INSERT_ENTITY_SQL@, "INSERT INTO memory_entities"@, "name"@, "VALUES ("@, 1),
        lines_up(
            INSERT_ENTITY_SQL@,
            "INSERT INTO memory_entities"@,
            "entity_type"@,
            "VALUES ("@,
            2,
        ),
        lines_up(INSERT_ENTITY_SQL@, "INSERT INTO memory_entities"@, "source"@, "VALUES ("@, 3),
{
    reveal_strlit(
        "INSERT INTO memory_entities
                        (name, entity_type, importance, source)
                     VALUES ($1, $2, 0.5, $3::memory_source)
                     RETURNING id",
    );
    reveal_strlit("INSERT INTO memory_entities");
    reveal_strlit("VALUES (");
    reveal_strlit("entity_type");
    reveal_strlit("name");
    reveal_strlit("source");
    let t = INSERT_ENTITY_SQL@;
    assert(part_at(t, 0, "INSERT INTO memory_entities"@));
    reveal_with_fuel(past, 27);
    reveal_with_fuel(past_blanks, 2);
    assert(past(t, 27, '(') == 53);
    assert(item(t, 53, 0) == 53);
    assert(item(t, 53, 1) == 59);
    assert(item(t, 53, 2) == 72);
    assert(item(t, 53, 3) == 84);
    assert(item(t, 121, 0) == 121);
    assert(item(t, 121, 1) == 125);
    assert(item(t, 121, 2) == 129);
    assert(item(t, 121, 3) == 134);
    assert(lined_up_at(t, "INSERT INTO memory_entities"@, "name"@, "VALUES ("@, 1, 0, 113, 0));
    assert(lined_up_at(
        t,
        "INSERT INTO memory_entities"@,
        "entity_type"@,
        "VALUES ("@,
        2,
        0,
        113,
        1,
    ));
    assert(lined_up_at(t, "INSERT INTO memory_entities"@, "source"@, "VALUES ("@, 3, 0, 113, 3));
}

/// What the text of [`ATTACH_SCOPE_SQL`] says.
pub proof fn attach_scope_text()
    ensures
        opens(ATTACH_SCOPE_SQL@, "INSERT INTO memory_entity_scope"@),
        lines_up(
            ATTACH_SCOPE_SQL@,
            "INSERT INTO memory_entity_scope"@,
            "entity_id"@,
            "VALUES ("@,
            1,
        ),
        lines_up(
            ATTACH_SCOPE_SQL@,
            "INSERT INTO memory_entity_scope"@,
            "scope_id"@,
            "VALUES ("@,
            2,
        ),
        says(ATTACH_SCOPE_SQL@, "ON CONFLICT DO NOTHING"@),
{
    reveal_strlit(
        "INSERT INTO memory_entity_scope (entity_id, scope_id)
             VALUES ($1, $2)
             ON CONFLICT DO NOTHING",
    );
    reveal_strlit("INSERT INTO memory_entity_scope");
    reveal_strlit("ON CONFLICT DO NOTHING");
    reveal_strlit("VALUES (");
    reveal_strlit("entity_id");
    reveal_strlit("scope_id");
    let t = ATTACH_SCOPE_SQL@;
    assert(part_at(t, 0, "INSERT INTO memory_entity_scope"@));
    reveal_with_fuel(past, 11);
    reveal_with_fuel(past_blanks, 2);
    assert(past(t, 31, '(') == 33);
    assert(item(t, 33, 0) == 33);
    assert(item(t, 33, 1) == 44);
    assert(item(t, 75, 0) == 75);
    assert(item(t, 75, 1) == 79);
    assert(lined_up_at(
        t,
        "INSERT INTO memory_entity_scope"@,
        "entity_id"@,
        "VALUES ("@,
        1,
        0,
        67,
        0,
    ));
    assert(lined_up_at(
        t,
        "INSERT INTO memory_entity_scope"@,
        "scope_id"@,
        "VALUES ("@,
        2,
        0,
        67,
        1,
    ));
    assert(part_at(t, 96, "ON CONFLICT DO NOTHING"@));
}

/// Each argument of [`looks_up_entity`] is what the text names in its place.
pub proof fn law_looks_up_entity_stands_for_its_values(x: EntityInputView)
    ensures
        opens(looks_up_entity(x).sql, "SELECT"@),
        takes(looks_up_entity(x), "name = "@, BindView::Text(x.name)),
        takes(looks_up_entity(x), "entity_type = "@, BindView::Text(x.entity_type)),
        says(looks_up_entity(x).sql, "ORDER BY id"@),
        says(looks_up_entity(x).sql, "FROM memory_entities"@),
{
    active_entity_ids_text();
    assert(looks_up_entity(x).sql == ACTIVE_ENTITY_IDS_SQL@);
}

/// Each argument of [`inserts_entity`] is what the text names in its place.
pub proof fn law_inserts_entity_stands_for_its_values(x: EntityInputView, source: Seq<char>)
    ensures
        opens(inserts_entity(x, source).sql, "INSERT INTO memory_entities"@),
        fills(
            inserts_entity(x, source),
            "INSERT INTO memory_entities"@,
            "name"@,
            "VALUES ("@,
            BindView::Text(x.name),
        ),
        fills(
            inserts_entity(x, source),
            "INSERT INTO memory_entities"@,
            "entity_type"@,
            "VALUES ("@,
            BindView::Text(x.entity_type),
        ),
        fills(
            inserts_entity(x, source),
            "INSERT INTO memory_entities"@,
            "source"@,
            "VALUES ("@,
            BindView::Text(source),
        ),
{
    insert_entity_text();
    assert(inserts_entity(x, source).sql == INSERT_ENTITY_SQL@);
}

/// Each argument of [`attaches_scope`] is what the text names in its place.
pub proof fn law_attaches_scope_stands_for_its_values(entity_id: i64, scope_id: i64)
    ensures
        opens(attaches_scope(entity_id, scope_id).sql, "INSERT INTO memory_entity_scope"@),
        fills(
            attaches_scope(entity_id, scope_id),
            "INSERT INTO memory_entity_scope"@,
            "entity_id"@,
            "VALUES ("@,
            BindView::BigInt(entity_id),
        ),
        fills(
            attaches_scope(entity_id, scope_id),
            "INSERT INTO memory_entity_scope"@,
            "scope_id"@,
            "VALUES ("@,
            BindView::BigInt(scope_id),
        ),
        says(attaches_scope(entity_id, scope_id).sql, "ON CONFLICT DO NOTHING"@),
{
    attach_scope_text();
    assert(attaches_scope(entity_id, scope_id).sql == ATTACH_SCOPE_SQL@);
}

/// The entity that an input resolved to, found or created, joins the scope.
pub proof fn law_resolved_entity_joins_the_scope(v: EntitiesView, ids: Seq<i64>)
    requires
        v.stage == EntityStage::LookingUp && ids.len() == 1 || v.stage == EntityStage::Inserting
            && ids.len() == 1,
    ensures
        v.next(ReplyView::Ids(ids)).1 matches ActionView::Run(st) && fills(
            st,
            "INSERT INTO memory_entity_scope"@,
            "entity_id"@,
            "VALUES ("@,
            BindView::BigInt(ids[0]),
        ) && fills(
            st,
            "INSERT INTO memory_entity_scope"@,
            "scope_id"@,
            "VALUES ("@,
            BindView::BigInt(v.scope_id),
        ),
{
    law_attaches_scope_stands_for_its_values(ids[0], v.scope_id);
}

/// An input that no active entity has is stored as it is, with the source of
/// the call.
pub proof fn law_missing_entity_is_stored(v: EntitiesView)
    requires
        v.stage == EntityStage::LookingUp,
    ensures
        v.next(ReplyView::Ids(seq![])).1 matches ActionView::Run(st) && fills(
            st,
            "INSERT INTO memory_entities"@,
            "name"@,
            "VALUES ("@,
            BindView::Text(v.inputs[v.at].name),
        ) && fills(
            st,
            "INSERT INTO memory_entities"@,
            "entity_type"@,
            "VALUES ("@,
            BindView::Text(v.inputs[v.at].entity_type),
        ) && fills(
            st,
            "INSERT INTO memory_entities"@,
            "source"@,
            "VALUES ("@,
            BindView::Text(v.source),
        ),
{
    law_inserts_entity_stands_for_its_values(v.inputs[v.at], v.source);
}

} // verus!
