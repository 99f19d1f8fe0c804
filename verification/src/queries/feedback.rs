//! Feedback of agents.
use vstd::prelude::*;

use crate::meaning::{fills, lemma_within, opens, says, takes};
use crate::queries::texts::feedback::{
    feedback_cols_text, get_feedback_head_text, get_feedback_tail_text, insert_feedback_text,
    list_feedback_head_text, list_feedback_tail_text, mark_feedback_promoted_text,
    respond_feedback_text, search_feedback_fts_head_text, search_feedback_fts_tail_text,
    search_feedback_semantic_head_text, search_feedback_semantic_tail_text,
    set_feedback_embedding_text,
};
use crate::statement::{
    executes, fetches_all, fetches_one, fetches_optional, opt_str, opt_text, BindView, Statement,
};
use crate::text::{join, joined};

verus! {

/// The columns of a feedback entry that are read; its embedding is not.
pub const FEEDBACK_COLS: &'static str = "id, agent_id, category, sentiment, subject, body, about_tool, \
     project_id, status, responded_by, response, promoted_work_item_id, created_at, updated_at";

/// Feedback of an agent.
#[derive(Debug)]
pub struct NewFeedback<'a> {
    pub agent_id: &'a str,
    pub category: &'a str,
    pub sentiment: &'a str,
    pub subject: Option<&'a str>,
    pub body: &'a str,
    pub about_tool: Option<&'a str>,
    pub project_id: Option<i32>,
}

pub const INSERT_FEEDBACK_SQL: &'static str = "INSERT INTO agent_feedback
            (agent_id, category, sentiment, subject, body, about_tool, project_id)
         VALUES ($1, $2, $3, $4, $5, $6, $7)
         RETURNING id";

/// Stores feedback, without an embedding.
pub fn insert_feedback(f: NewFeedback<'_>) -> (st: Statement)
    ensures
        st@ == fetches_one(
            INSERT_FEEDBACK_SQL@,
            seq![
                BindView::Text(f.agent_id@),
                BindView::Text(f.category@),
                BindView::Text(f.sentiment@),
                BindView::OptText(opt_str(f.subject)),
                BindView::Text(f.body@),
                BindView::OptText(opt_str(f.about_tool)),
                BindView::OptInt(f.project_id),
            ],
        ),
        opens(st@.sql, "INSERT INTO agent_feedback"@),
        fills(
            st@,
            "INSERT INTO agent_feedback"@,
            "agent_id"@,
            "VALUES ("@,
            BindView::Text(f.agent_id@),
        ),
        fills(
            st@,
            "INSERT INTO agent_feedback"@,
            "category"@,
            "VALUES ("@,
            BindView::Text(f.category@),
        ),
        fills(
            st@,
            "INSERT INTO agent_feedback"@,
            "sentiment"@,
            "VALUES ("@,
            BindView::Text(f.sentiment@),
        ),
        fills(
            st@,
            "INSERT INTO agent_feedback"@,
            "subject"@,
            "VALUES ("@,
            BindView::OptText(opt_str(f.subject)),
        ),
        fills(st@, "INSERT INTO agent_feedback"@, "body"@, "VALUES ("@, BindView::Text(f.body@)),
        fills(
            st@,
            "INSERT INTO agent_feedback"@,
            "about_tool"@,
            "VALUES ("@,
            BindView::OptText(opt_str(f.about_tool)),
        ),
        fills(
            st@,
            "INSERT INTO agent_feedback"@,
            "project_id"@,
            "VALUES ("@,
            BindView::OptInt(f.project_id),
        ),
{
    proof {
        insert_feedback_text();
    }
    let st = Statement::one(INSERT_FEEDBACK_SQL)
        .text(f.agent_id)
        .text(f.category)
        .text(f.sentiment)
        .opt_text(f.subject)
        .text(f.body)
        .opt_text(f.about_tool)
        .opt_int4(f.project_id);
    assert(st@.sql == INSERT_FEEDBACK_SQL@);
    st
}

pub const SET_FEEDBACK_EMBEDDING_SQL: &'static str =
    "UPDATE agent_feedback SET embedding = $2, updated_at = now() WHERE id = $1";

/// Sets the embedding of a feedback entry. The caller supplies value 0,
/// `embedding`.
pub fn set_feedback_embedding(id: i64) -> (st: Statement)
    ensures
        st@ == executes(
            SET_FEEDBACK_EMBEDDING_SQL@,
            seq![BindView::BigInt(id), BindView::Supplied(0)],
        ),
        opens(st@.sql, "UPDATE agent_feedback"@),
        takes(st@, "now() WHERE id = "@, BindView::BigInt(id)),
        takes(st@, "embedding = "@, BindView::Supplied(0)),
{
    proof {
        set_feedback_embedding_text();
    }
    let st = Statement::execute(SET_FEEDBACK_EMBEDDING_SQL).int8(id).supplied(0);
    assert(st@.sql == SET_FEEDBACK_EMBEDDING_SQL@);
    st
}

pub const GET_FEEDBACK_HEAD: &'static str = "SELECT ";

pub const GET_FEEDBACK_TAIL: &'static str = " FROM agent_feedback WHERE id = $1";

/// A feedback entry.
pub fn get_feedback(id: i64) -> (st: Statement)
    ensures
        st@ == fetches_optional(
            joined(GET_FEEDBACK_HEAD@, FEEDBACK_COLS@, GET_FEEDBACK_TAIL@),
            seq![
                BindView::BigInt(id),
            ],
        ),
        opens(st@.sql, "SELECT"@),
        takes(st@, "agent_feedback WHERE id = "@, BindView::BigInt(id)),
        says(st@.sql, "FROM agent_feedback"@),
{
    let st = Statement::optional(join(GET_FEEDBACK_HEAD, FEEDBACK_COLS, GET_FEEDBACK_TAIL).as_str())
        .int8(id);
    proof {
        get_feedback_head_text();
        feedback_cols_text();
        get_feedback_tail_text();
        assert(st@.sql =~= GET_FEEDBACK_HEAD@ + (FEEDBACK_COLS@ + GET_FEEDBACK_TAIL@));
        lemma_within(st@.sql, seq![], GET_FEEDBACK_HEAD@, FEEDBACK_COLS@ + GET_FEEDBACK_TAIL@);
        assert(st@.sql =~= (GET_FEEDBACK_HEAD@ + FEEDBACK_COLS@) + GET_FEEDBACK_TAIL@);
        lemma_within(st@.sql, GET_FEEDBACK_HEAD@ + FEEDBACK_COLS@, GET_FEEDBACK_TAIL@, seq![]);
    }
    st
}

pub const LIST_FEEDBACK_HEAD: &'static str = "SELECT ";

pub const LIST_FEEDBACK_TAIL: &'static str = " FROM agent_feedback
          WHERE ($1::text IS NULL OR category = $1)
            AND ($2::text IS NULL OR sentiment = $2)
            AND ($3::text IS NULL OR status = $3)
            AND ($4::text IS NULL OR about_tool = $4)
            AND ($5::int IS NULL OR project_id = $5)
          ORDER BY created_at DESC
          LIMIT $6";

/// Feedback, newest first; a filter that is not given matches all.
pub fn list_feedback(
    category: Option<&str>,
    sentiment: Option<&str>,
    status: Option<&str>,
    about_tool: Option<&str>,
    project_id: Option<i32>,
    limit: i64,
) -> (st: Statement)
    ensures
        st@ == fetches_all(
            joined(LIST_FEEDBACK_HEAD@, FEEDBACK_COLS@, LIST_FEEDBACK_TAIL@),
            seq![
                BindView::OptText(opt_str(category)),
                BindView::OptText(opt_str(sentiment)),
                BindView::OptText(opt_str(status)),
                BindView::OptText(opt_str(about_tool)),
                BindView::OptInt(project_id),
                BindView::BigInt(limit),
            ],
        ),
        opens(st@.sql, "SELECT"@),
        takes(st@, "category = "@, BindView::OptText(opt_str(category))),
        takes(st@, "sentiment = "@, BindView::OptText(opt_str(sentiment))),
        takes(st@, "status = "@, BindView::OptText(opt_str(status))),
        takes(st@, "about_tool = "@, BindView::OptText(opt_str(about_tool))),
        takes(st@, "project_id = "@, BindView::OptInt(project_id)),
        takes(st@, "LIMIT "@, BindView::BigInt(limit)),
        says(st@.sql, "ORDER BY created_at DESC"@),
        says(st@.sql, "FROM agent_feedback"@),
{
    let st = Statement::all(join(LIST_FEEDBACK_HEAD, FEEDBACK_COLS, LIST_FEEDBACK_TAIL).as_str())
        .opt_text(category)
        .opt_text(sentiment)
        .opt_text(status)
        .opt_text(about_tool)
        .opt_int4(project_id)
        .int8(limit);
    proof {
        list_feedback_head_text();
        feedback_cols_text();
        list_feedback_tail_text();
        assert(st@.sql =~= LIST_FEEDBACK_HEAD@ + (FEEDBACK_COLS@ + LIST_FEEDBACK_TAIL@));
        lemma_within(st@.sql, seq![], LIST_FEEDBACK_HEAD@, FEEDBACK_COLS@ + LIST_FEEDBACK_TAIL@);
        assert(st@.sql =~= (LIST_FEEDBACK_HEAD@ + FEEDBACK_COLS@) + LIST_FEEDBACK_TAIL@);
        lemma_within(st@.sql, LIST_FEEDBACK_HEAD@ + FEEDBACK_COLS@, LIST_FEEDBACK_TAIL@, seq![]);
    }
    st
}

pub const SEARCH_FEEDBACK_FTS_HEAD: &'static str = "SELECT ";

pub const SEARCH_FEEDBACK_FTS_TAIL: &'static str = " FROM agent_feedback
          WHERE to_tsvector('english', coalesce(subject, '') || ' ' || body)
                @@ plainto_tsquery('english', $1)
          ORDER BY created_at DESC
          LIMIT $2";

/// Feedback by full text, newest first.
pub fn search_feedback_fts(query: &str, limit: i64) -> (st: Statement)
    ensures
        st@ == fetches_all(
            joined(SEARCH_FEEDBACK_FTS_HEAD@, FEEDBACK_COLS@, SEARCH_FEEDBACK_FTS_TAIL@),
            seq![
                BindView::Text(query@),
                BindView::BigInt(limit),
            ],
        ),
        opens(st@.sql, "SELECT"@),
        takes(st@, "@@ plainto_tsquery('english', "@, BindView::Text(query@)),
        takes(st@, "LIMIT "@, BindView::BigInt(limit)),
        says(st@.sql, "WHERE to_tsvector('english', coalesce(subject, '') || ' ' || body)"@),
        says(st@.sql, "ORDER BY created_at DESC"@),
        says(st@.sql, "FROM agent_feedback"@),
{
    let st = Statement::all(join(SEARCH_FEEDBACK_FTS_HEAD, FEEDBACK_COLS, SEARCH_FEEDBACK_FTS_TAIL).as_str())
        .text(query)
        .int8(limit);
    proof {
        search_feedback_fts_head_text();
        feedback_cols_text();
        search_feedback_fts_tail_text();
        assert(st@.sql =~= SEARCH_FEEDBACK_FTS_HEAD@ + (FEEDBACK_COLS@ + SEARCH_FEEDBACK_FTS_TAIL@));
        lemma_within(
            st@.sql,
            seq![],
            SEARCH_FEEDBACK_FTS_HEAD@,
            FEEDBACK_COLS@ + SEARCH_FEEDBACK_FTS_TAIL@,
        );
        assert(st@.sql =~= (SEARCH_FEEDBACK_FTS_HEAD@ + FEEDBACK_COLS@) + SEARCH_FEEDBACK_FTS_TAIL@);
        lemma_within(
            st@.sql,
            SEARCH_FEEDBACK_FTS_HEAD@ + FEEDBACK_COLS@,
            SEARCH_FEEDBACK_FTS_TAIL@,
            seq![],
        );
    }
    st
}

pub const SEARCH_FEEDBACK_SEMANTIC_HEAD: &'static str = "SELECT ";

pub const SEARCH_FEEDBACK_SEMANTIC_TAIL: &'static str = " FROM agent_feedback
          WHERE embedding IS NOT NULL
          ORDER BY embedding <=> $1
          LIMIT $2";

/// Feedback by similarity. The caller supplies value 0, the embedding.
pub fn search_feedback_semantic(limit: i64) -> (st: Statement)
    ensures
        st@ == fetches_all(
            joined(SEARCH_FEEDBACK_SEMANTIC_HEAD@, FEEDBACK_COLS@, SEARCH_FEEDBACK_SEMANTIC_TAIL@),
            seq![
                BindView::Supplied(0),
                BindView::BigInt(limit),
            ],
        ),
        opens(st@.sql, "SELECT"@),
        takes(st@, "embedding <=> "@, BindView::Supplied(0)),
        takes(st@, "LIMIT "@, BindView::BigInt(limit)),
        says(st@.sql, "WHERE embedding IS NOT NULL"@),
        says(st@.sql, "FROM agent_feedback"@),
{
    let st = Statement::all(
        join(
            SEARCH_FEEDBACK_SEMANTIC_HEAD,
            FEEDBACK_COLS,
            SEARCH_FEEDBACK_SEMANTIC_TAIL,
        ).as_str(),
    )
        .supplied(0)
        .int8(limit);
    proof {
        search_feedback_semantic_head_text();
        feedback_cols_text();
        search_feedback_semantic_tail_text();
        assert(st@.sql =~= SEARCH_FEEDBACK_SEMANTIC_HEAD@ + (FEEDBACK_COLS@ + SEARCH_FEEDBACK_SEMANTIC_TAIL@));
        lemma_within(
            st@.sql,
            seq![],
            SEARCH_FEEDBACK_SEMANTIC_HEAD@,
            FEEDBACK_COLS@ + SEARCH_FEEDBACK_SEMANTIC_TAIL@,
        );
        assert(st@.sql =~= (SEARCH_FEEDBACK_SEMANTIC_HEAD@ + FEEDBACK_COLS@) + SEARCH_FEEDBACK_SEMANTIC_TAIL@);
        lemma_within(
            st@.sql,
            SEARCH_FEEDBACK_SEMANTIC_HEAD@ + FEEDBACK_COLS@,
            SEARCH_FEEDBACK_SEMANTIC_TAIL@,
            seq![],
        );
    }
    st
}

pub const RESPOND_FEEDBACK_SQL: &'static str = "UPDATE agent_feedback
            SET status = $2, responded_by = $3,
                response = COALESCE($4, response), updated_at = now()
          WHERE id = $1";

/// Sets the status of a feedback entry, and its response if one is given; a row
/// is touched if there is the entry.
pub fn respond_feedback(
    id: i64,
    status: &str,
    responded_by: &str,
    response: Option<&str>,
) -> (st: Statement)
    ensures
        st@ == executes(
            RESPOND_FEEDBACK_SQL@,
            seq![
                BindView::BigInt(id),
                BindView::Text(status@),
                BindView::Text(responded_by@),
                BindView::OptText(opt_str(response)),
            ],
        ),
        opens(st@.sql, "UPDATE agent_feedback"@),
        takes(st@, "WHERE id = "@, BindView::BigInt(id)),
        takes(st@, "status = "@, BindView::Text(status@)),
        takes(st@, "responded_by = "@, BindView::Text(responded_by@)),
        takes(st@, "COALESCE("@, BindView::OptText(opt_str(response))),
{
    proof {
        respond_feedback_text();
    }
    let st = Statement::execute(RESPOND_FEEDBACK_SQL)
        .int8(id)
        .text(status)
        .text(responded_by)
        .opt_text(response);
    assert(st@.sql == RESPOND_FEEDBACK_SQL@);
    st
}

pub const MARK_FEEDBACK_PROMOTED_SQL: &'static str = "UPDATE agent_feedback
            SET promoted_work_item_id = $2, status = 'planned', updated_at = now()
          WHERE id = $1";

/// Records that a feedback entry became a work item; a row is touched if there
/// is the entry.
pub fn mark_feedback_promoted(id: i64, work_item_id: i64) -> (st: Statement)
    ensures
        st@ == executes(
            MARK_FEEDBACK_PROMOTED_SQL@,
            seq![
                BindView::BigInt(id),
                BindView::BigInt(work_item_id),
            ],
        ),
        opens(st@.sql, "UPDATE agent_feedback"@),
        takes(st@, "WHERE id = "@, BindView::BigInt(id)),
        takes(st@, "promoted_work_item_id = "@, BindView::BigInt(work_item_id)),
{
    proof {
        mark_feedback_promoted_text();
    }
    let st = Statement::execute(MARK_FEEDBACK_PROMOTED_SQL).int8(id).int8(work_item_id);
    assert(st@.sql == MARK_FEEDBACK_PROMOTED_SQL@);
    st
}

} // verus!
