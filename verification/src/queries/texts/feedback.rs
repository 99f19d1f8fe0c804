//! What the statements of `feedback` say.
use vstd::prelude::*;

use crate::meaning::{
    ends_plainly, item, lined_up_at, lines_up, mentions, opens, part_at, past, past_blanks, says,
};
use crate::queries::feedback::{
    FEEDBACK_COLS, GET_FEEDBACK_HEAD, GET_FEEDBACK_TAIL, INSERT_FEEDBACK_SQL, LIST_FEEDBACK_HEAD,
    LIST_FEEDBACK_TAIL, MARK_FEEDBACK_PROMOTED_SQL, RESPOND_FEEDBACK_SQL, SEARCH_FEEDBACK_FTS_HEAD,
    SEARCH_FEEDBACK_FTS_TAIL, SEARCH_FEEDBACK_SEMANTIC_HEAD, SEARCH_FEEDBACK_SEMANTIC_TAIL,
    SET_FEEDBACK_EMBEDDING_SQL,
};

verus! {

/// What the text of [`INSERT_FEEDBACK_SQL`] says.
pub proof fn insert_feedback_text()
    ensures
        opens(INSERT_FEEDBACK_SQL@, "INSERT INTO agent_feedback"@),
        lines_up(INSERT_FEEDBACK_SQL@, "INSERT INTO agent_feedback"@, "agent_id"@, "VALUES ("@, 1),
        lines_up(INSERT_FEEDBACK_SQL@, "INSERT INTO agent_feedback"@, "category"@, "VALUES ("@, 2),
        lines_up(INSERT_FEEDBACK_SQL@, "INSERT INTO agent_feedback"@, "sentiment"@, "VALUES ("@, 3),
        lines_up(INSERT_FEEDBACK_SQL@, "INSERT INTO agent_feedback"@, "subject"@, "VALUES ("@, 4),
        lines_up(INSERT_FEEDBACK_SQL@, "INSERT INTO agent_feedback"@, "body"@, "VALUES ("@, 5),
        lines_up(
            INSERT_FEEDBACK_SQL@,
            "INSERT INTO agent_feedback"@,
            "about_tool"@,
            "VALUES ("@,
            6,
        ),
        lines_up(
            INSERT_FEEDBACK_SQL@,
            "INSERT INTO agent_feedback"@,
            "project_id"@,
            "VALUES ("@,
            7,
        ),
{
    reveal_strlit(
        "INSERT INTO agent_feedback
            (agent_id, category, sentiment, subject, body, about_tool, project_id)
         VALUES ($1, $2, $3, $4, $5, $6, $7)
         RETURNING id",
    );
    reveal_strlit("INSERT INTO agent_feedback");
    reveal_strlit("VALUES (");
    reveal_strlit("about_tool");
    reveal_strlit("agent_id");
    reveal_strlit("body");
    reveal_strlit("category");
    reveal_strlit("project_id");
    reveal_strlit("sentiment");
    reveal_strlit("subject");
    let t = INSERT_FEEDBACK_SQL@;
    assert(part_at(t, 0, "INSERT INTO agent_feedback"@));
    reveal_with_fuel(past, 15);
    reveal_with_fuel(past_blanks, 2);
    assert(past(t, 26, '(') == 40);
    assert(item(t, 40, 0) == 40);
    assert(item(t, 40, 1) == 50);
    assert(item(t, 40, 2) == 60);
    assert(item(t, 40, 3) == 71);
    assert(item(t, 40, 4) == 80);
    assert(item(t, 40, 5) == 86);
    assert(item(t, 40, 6) == 98);
    assert(item(t, 127, 0) == 127);
    assert(item(t, 127, 1) == 131);
    assert(item(t, 127, 2) == 135);
    assert(item(t, 127, 3) == 139);
    assert(item(t, 127, 4) == 143);
    assert(item(t, 127, 5) == 147);
    assert(item(t, 127, 6) == 151);
    assert(lined_up_at(t, "INSERT INTO agent_feedback"@, "agent_id"@, "VALUES ("@, 1, 0, 119, 0));
    assert(lined_up_at(t, "INSERT INTO agent_feedback"@, "category"@, "VALUES ("@, 2, 0, 119, 1));
    assert(lined_up_at(t, "INSERT INTO agent_feedback"@, "sentiment"@, "VALUES ("@, 3, 0, 119, 2));
    assert(lined_up_at(t, "INSERT INTO agent_feedback"@, "subject"@, "VALUES ("@, 4, 0, 119, 3));
    assert(lined_up_at(t, "INSERT INTO agent_feedback"@, "body"@, "VALUES ("@, 5, 0, 119, 4));
    assert(lined_up_at(t, "INSERT INTO agent_feedback"@, "about_tool"@, "VALUES ("@, 6, 0, 119, 5));
    assert(lined_up_at(t, "INSERT INTO agent_feedback"@, "project_id"@, "VALUES ("@, 7, 0, 119, 6));
}

/// What the text of [`SET_FEEDBACK_EMBEDDING_SQL`] says.
pub proof fn set_feedback_embedding_text()
    ensures
        opens(SET_FEEDBACK_EMBEDDING_SQL@, "UPDATE agent_feedback"@),
        mentions(SET_FEEDBACK_EMBEDDING_SQL@, "now() WHERE id = "@, 1),
        mentions(SET_FEEDBACK_EMBEDDING_SQL@, "embedding = "@, 2),
{
    reveal_strlit(
        "UPDATE agent_feedback SET embedding = $2, updated_at = now() WHERE id = $1",
    );
    reveal_strlit("UPDATE agent_feedback");
    reveal_strlit("embedding = ");
    reveal_strlit("now() WHERE id = ");
    let t = SET_FEEDBACK_EMBEDDING_SQL@;
    assert(part_at(t, 0, "UPDATE agent_feedback"@));
    assert(part_at(t, 55, "now() WHERE id = "@));
    assert(part_at(t, 26, "embedding = "@));
}

/// What the text of [`RESPOND_FEEDBACK_SQL`] says.
pub proof fn respond_feedback_text()
    ensures
        opens(RESPOND_FEEDBACK_SQL@, "UPDATE agent_feedback"@),
        mentions(RESPOND_FEEDBACK_SQL@, "WHERE id = "@, 1),
        mentions(RESPOND_FEEDBACK_SQL@, "status = "@, 2),
        mentions(RESPOND_FEEDBACK_SQL@, "responded_by = "@, 3),
        mentions(RESPOND_FEEDBACK_SQL@, "COALESCE("@, 4),
{
    reveal_strlit(
        "UPDATE agent_feedback
            SET status = $2, responded_by = $3,
                response = COALESCE($4, response), updated_at = now()
          WHERE id = $1",
    );
    reveal_strlit("COALESCE(");
    reveal_strlit("UPDATE agent_feedback");
    reveal_strlit("WHERE id = ");
    reveal_strlit("responded_by = ");
    reveal_strlit("status = ");
    let t = RESPOND_FEEDBACK_SQL@;
    assert(part_at(t, 0, "UPDATE agent_feedback"@));
    assert(part_at(t, 150, "WHERE id = "@));
    assert(part_at(t, 38, "status = "@));
    assert(part_at(t, 51, "responded_by = "@));
    assert(part_at(t, 97, "COALESCE("@));
}

/// What the text of [`MARK_FEEDBACK_PROMOTED_SQL`] says.
pub proof fn mark_feedback_promoted_text()
    ensures
        opens(MARK_FEEDBACK_PROMOTED_SQL@, "UPDATE agent_feedback"@),
        mentions(MARK_FEEDBACK_PROMOTED_SQL@, "WHERE id = "@, 1),
        mentions(MARK_FEEDBACK_PROMOTED_SQL@, "promoted_work_item_id = "@, 2),
{
    reveal_strlit(
        "UPDATE agent_feedback
            SET promoted_work_item_id = $2, status = 'planned', updated_at = now()
          WHERE id = $1",
    );
    reveal_strlit("UPDATE agent_feedback");
    reveal_strlit("WHERE id = ");
    reveal_strlit("promoted_work_item_id = ");
    let t = MARK_FEEDBACK_PROMOTED_SQL@;
    assert(part_at(t, 0, "UPDATE agent_feedback"@));
    assert(part_at(t, 115, "WHERE id = "@));
    assert(part_at(t, 38, "promoted_work_item_id = "@));
}

/// What the text of [`FEEDBACK_COLS`] says.
pub proof fn feedback_cols_text()
    ensures
        ends_plainly(FEEDBACK_COLS@),
{
    reveal_strlit(
        "id, agent_id, category, sentiment, subject, body, about_tool, \
     project_id, status, responded_by, response, promoted_work_item_id, created_at, updated_at",
    );
    let t = FEEDBACK_COLS@;
}

/// What the text of [`GET_FEEDBACK_HEAD`] says.
pub proof fn get_feedback_head_text()
    ensures
        opens(GET_FEEDBACK_HEAD@, "SELECT"@),
        ends_plainly(GET_FEEDBACK_HEAD@),
{
    reveal_strlit(
        "SELECT ",
    );
    reveal_strlit("SELECT");
    let t = GET_FEEDBACK_HEAD@;
    assert(part_at(t, 0, "SELECT"@));
}

/// What the text of [`GET_FEEDBACK_TAIL`] says.
pub proof fn get_feedback_tail_text()
    ensures
        mentions(GET_FEEDBACK_TAIL@, "agent_feedback WHERE id = "@, 1),
        says(GET_FEEDBACK_TAIL@, "FROM agent_feedback"@),
{
    reveal_strlit(
        " FROM agent_feedback WHERE id = $1",
    );
    reveal_strlit("FROM agent_feedback");
    reveal_strlit("agent_feedback WHERE id = ");
    let t = GET_FEEDBACK_TAIL@;
    assert(part_at(t, 6, "agent_feedback WHERE id = "@));
    assert(part_at(t, 1, "FROM agent_feedback"@));
}

/// What the text of [`LIST_FEEDBACK_HEAD`] says.
pub proof fn list_feedback_head_text()
    ensures
        opens(LIST_FEEDBACK_HEAD@, "SELECT"@),
        ends_plainly(LIST_FEEDBACK_HEAD@),
{
    reveal_strlit(
        "SELECT ",
    );
    reveal_strlit("SELECT");
    let t = LIST_FEEDBACK_HEAD@;
    assert(part_at(t, 0, "SELECT"@));
}

/// What the text of [`LIST_FEEDBACK_TAIL`] says.
pub proof fn list_feedback_tail_text()
    ensures
        mentions(LIST_FEEDBACK_TAIL@, "category = "@, 1),
        mentions(LIST_FEEDBACK_TAIL@, "sentiment = "@, 2),
        mentions(LIST_FEEDBACK_TAIL@, "status = "@, 3),
        mentions(LIST_FEEDBACK_TAIL@, "about_tool = "@, 4),
        mentions(LIST_FEEDBACK_TAIL@, "project_id = "@, 5),
        mentions(LIST_FEEDBACK_TAIL@, "LIMIT "@, 6),
        says(LIST_FEEDBACK_TAIL@, "ORDER BY created_at DESC"@),
        says(LIST_FEEDBACK_TAIL@, "FROM agent_feedback"@),
{
    reveal_strlit(
        " FROM agent_feedback
          WHERE ($1::text IS NULL OR category = $1)
            AND ($2::text IS NULL OR sentiment = $2)
            AND ($3::text IS NULL OR status = $3)
            AND ($4::text IS NULL OR about_tool = $4)
            AND ($5::int IS NULL OR project_id = $5)
          ORDER BY created_at DESC
          LIMIT $6",
    );
    reveal_strlit("FROM agent_feedback");
    reveal_strlit("LIMIT ");
    reveal_strlit("ORDER BY created_at DESC");
    reveal_strlit("about_tool = ");
    reveal_strlit("category = ");
    reveal_strlit("project_id = ");
    reveal_strlit("sentiment = ");
    reveal_strlit("status = ");
    let t = LIST_FEEDBACK_TAIL@;
    assert(part_at(t, 58, "category = "@));
    assert(part_at(t, 110, "sentiment = "@));
    assert(part_at(t, 163, "status = "@));
    assert(part_at(t, 213, "about_tool = "@));
    assert(part_at(t, 266, "project_id = "@));
    assert(part_at(t, 328, "LIMIT "@));
    assert(part_at(t, 293, "ORDER BY created_at DESC"@));
    assert(part_at(t, 1, "FROM agent_feedback"@));
}

/// What the text of [`SEARCH_FEEDBACK_FTS_HEAD`] says.
pub proof fn search_feedback_fts_head_text()
    ensures
        opens(SEARCH_FEEDBACK_FTS_HEAD@, "SELECT"@),
        ends_plainly(SEARCH_FEEDBACK_FTS_HEAD@),
{
    reveal_strlit(
        "SELECT ",
    );
    reveal_strlit("SELECT");
    let t = SEARCH_FEEDBACK_FTS_HEAD@;
    assert(part_at(t, 0, "SELECT"@));
}

/// What the text of [`SEARCH_FEEDBACK_FTS_TAIL`] says.
pub proof fn search_feedback_fts_tail_text()
    ensures
        mentions(SEARCH_FEEDBACK_FTS_TAIL@, "@@ plainto_tsquery('english', "@, 1),
        mentions(SEARCH_FEEDBACK_FTS_TAIL@, "LIMIT "@, 2),
        says(
            SEARCH_FEEDBACK_FTS_TAIL@,
            "WHERE to_tsvector('english', coalesce(subject, '') || ' ' || body)"@,
        ),
        says(SEARCH_FEEDBACK_FTS_TAIL@, "ORDER BY created_at DESC"@),
        says(SEARCH_FEEDBACK_FTS_TAIL@, "FROM agent_feedback"@),
{
    reveal_strlit(
        " FROM agent_feedback
          WHERE to_tsvector('english', coalesce(subject, '') || ' ' || body)
                @@ plainto_tsquery('english', $1)
          ORDER BY created_at DESC
          LIMIT $2",
    );
    reveal_strlit("@@ plainto_tsquery('english', ");
    reveal_strlit("FROM agent_feedback");
    reveal_strlit("LIMIT ");
    reveal_strlit("ORDER BY created_at DESC");
    reveal_strlit("WHERE to_tsvector('english', coalesce(subject, '') || ' ' || body)");
    let t = SEARCH_FEEDBACK_FTS_TAIL@;
    assert(part_at(t, 114, "@@ plainto_tsquery('english', "@));
    assert(part_at(t, 193, "LIMIT "@));
    assert(part_at(t, 31, "WHERE to_tsvector('english', coalesce(subject, '') || ' ' || body)"@));
    assert(part_at(t, 158, "ORDER BY created_at DESC"@));
    assert(part_at(t, 1, "FROM agent_feedback"@));
}

/// What the text of [`SEARCH_FEEDBACK_SEMANTIC_HEAD`] says.
pub proof fn search_feedback_semantic_head_text()
    ensures
        opens(SEARCH_FEEDBACK_SEMANTIC_HEAD@, "SELECT"@),
        ends_plainly(SEARCH_FEEDBACK_SEMANTIC_HEAD@),
{
    reveal_strlit(
        "SELECT ",
    );
    reveal_strlit("SELECT");
    let t = SEARCH_FEEDBACK_SEMANTIC_HEAD@;
    assert(part_at(t, 0, "SELECT"@));
}

/// What the text of [`SEARCH_FEEDBACK_SEMANTIC_TAIL`] says.
pub proof fn search_feedback_semantic_tail_text()
    ensures
        mentions(SEARCH_FEEDBACK_SEMANTIC_TAIL@, "embedding <=> "@, 1),
        mentions(SEARCH_FEEDBACK_SEMANTIC_TAIL@, "LIMIT "@, 2),
        says(SEARCH_FEEDBACK_SEMANTIC_TAIL@, "WHERE embedding IS NOT NULL"@),
        says(SEARCH_FEEDBACK_SEMANTIC_TAIL@, "FROM agent_feedback"@),
{
    reveal_strlit(
        " FROM agent_feedback
          WHERE embedding IS NOT NULL
          ORDER BY embedding <=> $1
          LIMIT $2",
    );
    reveal_strlit("FROM agent_feedback");
    reveal_strlit("LIMIT ");
    reveal_strlit("WHERE embedding IS NOT NULL");
    reveal_strlit("embedding <=> ");
    let t = SEARCH_FEEDBACK_SEMANTIC_TAIL@;
    assert(part_at(t, 78, "embedding <=> "@));
    assert(part_at(t, 105, "LIMIT "@));
    assert(part_at(t, 31, "WHERE embedding IS NOT NULL"@));
    assert(part_at(t, 1, "FROM agent_feedback"@));
}

} // verus!
