//! What the statements of `search` say.
use vstd::prelude::*;

use crate::meaning::{
    argument_at, differs, ends_plainly, lemma_absent_joins, lemma_nowhere, lemma_within, mentions,
    nowhere, opens, part_at, says, takes,
};
use crate::queries::dedup::{DEDUP_3, DEDUP_4, DEDUP_5};
use crate::queries::search::{
    grep_query, hybrid_binds, hybrid_legs, hybrid_sql, match_operator, semantic_query, text_query,
    GREP_CHUNKS_HEAD, GREP_CHUNKS_MIDDLE, GREP_CHUNKS_TAIL, GREP_HEAD, GREP_IN_FILES_HEAD,
    GREP_TAIL, HYBRID_FUSE_THREE, HYBRID_FUSE_TWO, HYBRID_LEGS_1, HYBRID_LEGS_2, HYBRID_LEGS_3,
    HYBRID_LEGS_4, HYBRID_RANKING, RECALL_PROMPTS_SQL, SEARCH_MANDATES_FTS_SQL,
    SEARCH_MANDATES_SEMANTIC_SQL, SEMANTIC_BY_LANGUAGE, SEMANTIC_BY_LANGUAGE_AND_PROJECT,
    SEMANTIC_BY_PROJECT, SEMANTIC_OVERALL, SEMANTIC_TAIL, TEXT_SEARCH_HEAD, TEXT_SEARCH_TAIL,
};
use crate::queries::texts::dedup::{dedup_3_text, dedup_4_text, dedup_5_text};
use crate::statement::{fetches_all, BindView, StatementView};

verus! {

/// What the text of [`RECALL_PROMPTS_SQL`] says.
#[verifier::rlimit(50)]
pub proof fn recall_prompts_text()
    ensures
        opens(RECALL_PROMPTS_SQL@, "SELECT"@),
        mentions(RECALL_PROMPTS_SQL@, "sp.embedding_v2 <=> "@, 1),
        mentions(RECALL_PROMPTS_SQL@, "p.name = "@, 2),
        mentions(RECALL_PROMPTS_SQL@, "sp.session_id = "@, 3),
        mentions(RECALL_PROMPTS_SQL@, "LIMIT "@, 4),
        says(RECALL_PROMPTS_SQL@, "WHERE sp.embedding_v2 IS NOT NULL"@),
        says(RECALL_PROMPTS_SQL@, "FROM session_prompts"@),
        says(RECALL_PROMPTS_SQL@, "JOIN sessions s ON s.id = sp.session_id"@),
        says(RECALL_PROMPTS_SQL@, "LEFT JOIN projects p ON p.id = s.project_id"@),
{
    reveal_strlit(
        "SELECT sp.id,
                sp.session_id,
                p.name AS project_name,
                sp.ts,
                sp.prompt_text,
                1 - (sp.embedding_v2 <=> $1) AS similarity
         FROM session_prompts sp
         JOIN sessions s ON s.id = sp.session_id
         LEFT JOIN projects p ON p.id = s.project_id
         WHERE sp.embedding_v2 IS NOT NULL
           AND ($2::text IS NULL OR p.name = $2)
           AND ($3::uuid IS NULL OR sp.session_id = $3)
         ORDER BY sp.embedding_v2 <=> $1
         LIMIT $4",
    );
    reveal_strlit("FROM session_prompts");
    reveal_strlit("JOIN sessions s ON s.id = sp.session_id");
    reveal_strlit("LEFT JOIN projects p ON p.id = s.project_id");
    reveal_strlit("LIMIT ");
    reveal_strlit("SELECT");
    reveal_strlit("WHERE sp.embedding_v2 IS NOT NULL");
    reveal_strlit("p.name = ");
    reveal_strlit("sp.embedding_v2 <=> ");
    reveal_strlit("sp.session_id = ");
    let t = RECALL_PROMPTS_SQL@;
    assert(part_at(t, 0, "SELECT"@));
    assert(part_at(t, 161, "sp.embedding_v2 <=> "@));
    assert(part_at(t, 413, "p.name = "@));
    assert(part_at(t, 462, "sp.session_id = "@));
    assert(part_at(t, 532, "LIMIT "@));
    assert(part_at(t, 343, "WHERE sp.embedding_v2 IS NOT NULL"@));
    assert(part_at(t, 208, "FROM session_prompts"@));
    assert(part_at(t, 241, "JOIN sessions s ON s.id = sp.session_id"@));
    assert(part_at(t, 290, "LEFT JOIN projects p ON p.id = s.project_id"@));
}

/// What the text of [`SEARCH_MANDATES_FTS_SQL`] says.
#[verifier::rlimit(50)]
pub proof fn search_mandates_fts_text()
    ensures
        opens(SEARCH_MANDATES_FTS_SQL@, "SELECT"@),
        mentions(SEARCH_MANDATES_FTS_SQL@, "plainto_tsquery('english', "@, 1),
        mentions(SEARCH_MANDATES_FTS_SQL@, "m.polarity = "@, 2),
        mentions(SEARCH_MANDATES_FTS_SQL@, "m.scope = "@, 3),
        mentions(SEARCH_MANDATES_FTS_SQL@, "m.project_id = "@, 4),
        mentions(SEARCH_MANDATES_FTS_SQL@, "LIMIT "@, 5),
        says(SEARCH_MANDATES_FTS_SQL@, "ORDER BY rank DESC NULLS LAST, m.promoted_at DESC"@),
        says(SEARCH_MANDATES_FTS_SQL@, "FROM durable_mandates"@),
        says(SEARCH_MANDATES_FTS_SQL@, "LEFT JOIN projects p ON p.id = m.project_id"@),
{
    reveal_strlit(
        "SELECT m.id, m.scope, m.project_id, p.name AS project_name,
                m.polarity, m.imperative, m.target, m.promoted_at, m.file_path,
                ts_rank_cd(
                  to_tsvector('english', m.imperative || ' ' || COALESCE(m.target, '')),
                  plainto_tsquery('english', $1)
                ) AS rank
         FROM durable_mandates m
         LEFT JOIN projects p ON p.id = m.project_id
         WHERE to_tsvector('english', m.imperative || ' ' || COALESCE(m.target, ''))
               @@ plainto_tsquery('english', $1)
           AND ($2::text IS NULL OR m.polarity = $2)
           AND ($3::text IS NULL OR m.scope = $3)
           AND ($4::int  IS NULL OR m.project_id = $4 OR m.scope = 'workspace')
         ORDER BY rank DESC NULLS LAST, m.promoted_at DESC
         LIMIT $5",
    );
    reveal_strlit("FROM durable_mandates");
    reveal_strlit("LEFT JOIN projects p ON p.id = m.project_id");
    reveal_strlit("LIMIT ");
    reveal_strlit("ORDER BY rank DESC NULLS LAST, m.promoted_at DESC");
    reveal_strlit("SELECT");
    reveal_strlit("m.polarity = ");
    reveal_strlit("m.project_id = ");
    reveal_strlit("m.scope = ");
    reveal_strlit("plainto_tsquery('english', ");
    let t = SEARCH_MANDATES_FTS_SQL@;
    assert(part_at(t, 0, "SELECT"@));
    assert(part_at(t, 275, "plainto_tsquery('english', "@));
    assert(part_at(t, 588, "m.polarity = "@));
    assert(part_at(t, 641, "m.scope = "@));
    assert(part_at(t, 691, "m.project_id = "@));
    assert(part_at(t, 803, "LIMIT "@));
    assert(part_at(t, 744, "ORDER BY rank DESC NULLS LAST, m.promoted_at DESC"@));
    assert(part_at(t, 341, "FROM durable_mandates"@));
    assert(part_at(t, 374, "LEFT JOIN projects p ON p.id = m.project_id"@));
}

/// What the text of [`SEARCH_MANDATES_SEMANTIC_SQL`] says.
#[verifier::rlimit(50)]
pub proof fn search_mandates_semantic_text()
    ensures
        opens(SEARCH_MANDATES_SEMANTIC_SQL@, "SELECT"@),
        mentions(SEARCH_MANDATES_SEMANTIC_SQL@, "m.embedding <=> "@, 1),
        mentions(SEARCH_MANDATES_SEMANTIC_SQL@, "m.polarity = "@, 2),
        mentions(SEARCH_MANDATES_SEMANTIC_SQL@, "m.scope = "@, 3),
        mentions(SEARCH_MANDATES_SEMANTIC_SQL@, "m.project_id = "@, 4),
        mentions(SEARCH_MANDATES_SEMANTIC_SQL@, "LIMIT "@, 5),
        says(SEARCH_MANDATES_SEMANTIC_SQL@, "WHERE m.embedding IS NOT NULL"@),
        says(SEARCH_MANDATES_SEMANTIC_SQL@, "FROM durable_mandates"@),
        says(SEARCH_MANDATES_SEMANTIC_SQL@, "LEFT JOIN projects p ON p.id = m.project_id"@),
{
    reveal_strlit(
        "SELECT m.id, m.scope, m.project_id, p.name AS project_name,
                m.polarity, m.imperative, m.target, m.promoted_at, m.file_path,
                (1.0 - (m.embedding <=> $1))::float4 AS rank
         FROM durable_mandates m
         LEFT JOIN projects p ON p.id = m.project_id
         WHERE m.embedding IS NOT NULL
           AND ($2::text IS NULL OR m.polarity = $2)
           AND ($3::text IS NULL OR m.scope = $3)
           AND ($4::int  IS NULL OR m.project_id = $4 OR m.scope = 'workspace')
         ORDER BY m.embedding <=> $1
         LIMIT $5",
    );
    reveal_strlit("FROM durable_mandates");
    reveal_strlit("LEFT JOIN projects p ON p.id = m.project_id");
    reveal_strlit("LIMIT ");
    reveal_strlit("SELECT");
    reveal_strlit("WHERE m.embedding IS NOT NULL");
    reveal_strlit("m.embedding <=> ");
    reveal_strlit("m.polarity = ");
    reveal_strlit("m.project_id = ");
    reveal_strlit("m.scope = ");
    let t = SEARCH_MANDATES_SEMANTIC_SQL@;
    assert(part_at(t, 0, "SELECT"@));
    assert(part_at(t, 164, "m.embedding <=> "@));
    assert(part_at(t, 362, "m.polarity = "@));
    assert(part_at(t, 415, "m.scope = "@));
    assert(part_at(t, 465, "m.project_id = "@));
    assert(part_at(t, 555, "LIMIT "@));
    assert(part_at(t, 296, "WHERE m.embedding IS NOT NULL"@));
    assert(part_at(t, 210, "FROM durable_mandates"@));
    assert(part_at(t, 243, "LEFT JOIN projects p ON p.id = m.project_id"@));
}

/// What the text of [`SEMANTIC_BY_LANGUAGE_AND_PROJECT`] says.
#[verifier::rlimit(50)]
pub proof fn semantic_by_language_and_project_text()
    ensures
        opens(SEMANTIC_BY_LANGUAGE_AND_PROJECT@, "SELECT"@),
        mentions(SEMANTIC_BY_LANGUAGE_AND_PROJECT@, "c.embedding_v2 <=> "@, 1),
        mentions(SEMANTIC_BY_LANGUAGE_AND_PROJECT@, "f.language = "@, 3),
        mentions(SEMANTIC_BY_LANGUAGE_AND_PROJECT@, "p.name = "@, 4),
        says(SEMANTIC_BY_LANGUAGE_AND_PROJECT@, "AND c.embedding_v2 IS NOT NULL"@),
        says(SEMANTIC_BY_LANGUAGE_AND_PROJECT@, "FROM file_chunks"@),
        says(SEMANTIC_BY_LANGUAGE_AND_PROJECT@, "JOIN indexed_files f ON f.id = c.file_id"@),
        says(SEMANTIC_BY_LANGUAGE_AND_PROJECT@, "JOIN projects p ON p.id = f.project_id"@),
        ends_plainly(SEMANTIC_BY_LANGUAGE_AND_PROJECT@),
{
    reveal_strlit(
        "SELECT f.path, f.relative_path, f.language,
                        c.content as chunk_content, c.start_line, c.end_line,
                        1 - (c.embedding_v2 <=> $1) as score,
                        p.name as project_name
                 FROM file_chunks c
                 JOIN indexed_files f ON f.id = c.file_id
                 JOIN projects p ON p.id = f.project_id
                 WHERE f.language = $3 AND p.name = $4
                   AND c.embedding_v2 IS NOT NULL
                   AND ",
    );
    reveal_strlit("AND c.embedding_v2 IS NOT NULL");
    reveal_strlit("FROM file_chunks");
    reveal_strlit("JOIN indexed_files f ON f.id = c.file_id");
    reveal_strlit("JOIN projects p ON p.id = f.project_id");
    reveal_strlit("SELECT");
    reveal_strlit("c.embedding_v2 <=> ");
    reveal_strlit("f.language = ");
    reveal_strlit("p.name = ");
    let t = SEMANTIC_BY_LANGUAGE_AND_PROJECT@;
    assert(part_at(t, 0, "SELECT"@));
    assert(part_at(t, 151, "c.embedding_v2 <=> "@));
    assert(part_at(t, 404, "f.language = "@));
    assert(part_at(t, 424, "p.name = "@));
    assert(part_at(t, 455, "AND c.embedding_v2 IS NOT NULL"@));
    assert(part_at(t, 248, "FROM file_chunks"@));
    assert(part_at(t, 284, "JOIN indexed_files f ON f.id = c.file_id"@));
    assert(part_at(t, 342, "JOIN projects p ON p.id = f.project_id"@));
}

/// What the text of [`SEMANTIC_BY_LANGUAGE`] says.
pub proof fn semantic_by_language_text()
    ensures
        opens(SEMANTIC_BY_LANGUAGE@, "SELECT"@),
        mentions(SEMANTIC_BY_LANGUAGE@, "c.embedding_v2 <=> "@, 1),
        mentions(SEMANTIC_BY_LANGUAGE@, "f.language = "@, 3),
        says(SEMANTIC_BY_LANGUAGE@, "AND c.embedding_v2 IS NOT NULL"@),
        says(SEMANTIC_BY_LANGUAGE@, "FROM file_chunks"@),
        says(SEMANTIC_BY_LANGUAGE@, "JOIN indexed_files f ON f.id = c.file_id"@),
        says(SEMANTIC_BY_LANGUAGE@, "JOIN projects p ON p.id = f.project_id"@),
        ends_plainly(SEMANTIC_BY_LANGUAGE@),
{
    reveal_strlit(
        "SELECT f.path, f.relative_path, f.language,
                        c.content as chunk_content, c.start_line, c.end_line,
                        1 - (c.embedding_v2 <=> $1) as score,
                        p.name as project_name
                 FROM file_chunks c
                 JOIN indexed_files f ON f.id = c.file_id
                 JOIN projects p ON p.id = f.project_id
                 WHERE f.language = $3
                   AND c.embedding_v2 IS NOT NULL
                   AND ",
    );
    reveal_strlit("AND c.embedding_v2 IS NOT NULL");
    reveal_strlit("FROM file_chunks");
    reveal_strlit("JOIN indexed_files f ON f.id = c.file_id");
    reveal_strlit("JOIN projects p ON p.id = f.project_id");
    reveal_strlit("SELECT");
    reveal_strlit("c.embedding_v2 <=> ");
    reveal_strlit("f.language = ");
    let t = SEMANTIC_BY_LANGUAGE@;
    assert(part_at(t, 0, "SELECT"@));
    assert(part_at(t, 151, "c.embedding_v2 <=> "@));
    assert(part_at(t, 404, "f.language = "@));
    assert(part_at(t, 439, "AND c.embedding_v2 IS NOT NULL"@));
    assert(part_at(t, 248, "FROM file_chunks"@));
    assert(part_at(t, 284, "JOIN indexed_files f ON f.id = c.file_id"@));
    assert(part_at(t, 342, "JOIN projects p ON p.id = f.project_id"@));
}

/// What the text of [`SEMANTIC_BY_PROJECT`] says.
pub proof fn semantic_by_project_text()
    ensures
        opens(SEMANTIC_BY_PROJECT@, "SELECT"@),
        mentions(SEMANTIC_BY_PROJECT@, "c.embedding_v2 <=> "@, 1),
        mentions(SEMANTIC_BY_PROJECT@, "p.name = "@, 3),
        says(SEMANTIC_BY_PROJECT@, "AND c.embedding_v2 IS NOT NULL"@),
        says(SEMANTIC_BY_PROJECT@, "FROM file_chunks"@),
        says(SEMANTIC_BY_PROJECT@, "JOIN indexed_files f ON f.id = c.file_id"@),
        says(SEMANTIC_BY_PROJECT@, "JOIN projects p ON p.id = f.project_id"@),
        ends_plainly(SEMANTIC_BY_PROJECT@),
{
    reveal_strlit(
        "SELECT f.path, f.relative_path, f.language,
                        c.content as chunk_content, c.start_line, c.end_line,
                        1 - (c.embedding_v2 <=> $1) as score,
                        p.name as project_name
                 FROM file_chunks c
                 JOIN indexed_files f ON f.id = c.file_id
                 JOIN projects p ON p.id = f.project_id
                 WHERE p.name = $3
                   AND c.embedding_v2 IS NOT NULL
                   AND ",
    );
    reveal_strlit("AND c.embedding_v2 IS NOT NULL");
    reveal_strlit("FROM file_chunks");
    reveal_strlit("JOIN indexed_files f ON f.id = c.file_id");
    reveal_strlit("JOIN projects p ON p.id = f.project_id");
    reveal_strlit("SELECT");
    reveal_strlit("c.embedding_v2 <=> ");
    reveal_strlit("p.name = ");
    let t = SEMANTIC_BY_PROJECT@;
    assert(part_at(t, 0, "SELECT"@));
    assert(part_at(t, 151, "c.embedding_v2 <=> "@));
    assert(part_at(t, 404, "p.name = "@));
    assert(part_at(t, 435, "AND c.embedding_v2 IS NOT NULL"@));
    assert(part_at(t, 248, "FROM file_chunks"@));
    assert(part_at(t, 284, "JOIN indexed_files f ON f.id = c.file_id"@));
    assert(part_at(t, 342, "JOIN projects p ON p.id = f.project_id"@));
}

/// What the text of [`SEMANTIC_OVERALL`] says.
pub proof fn semantic_overall_text()
    ensures
        opens(SEMANTIC_OVERALL@, "SELECT"@),
        mentions(SEMANTIC_OVERALL@, "c.embedding_v2 <=> "@, 1),
        says(SEMANTIC_OVERALL@, "WHERE c.embedding_v2 IS NOT NULL"@),
        says(SEMANTIC_OVERALL@, "FROM file_chunks"@),
        says(SEMANTIC_OVERALL@, "JOIN indexed_files f ON f.id = c.file_id"@),
        says(SEMANTIC_OVERALL@, "JOIN projects p ON p.id = f.project_id"@),
        ends_plainly(SEMANTIC_OVERALL@),
{
    reveal_strlit(
        "SELECT f.path, f.relative_path, f.language,
                        c.content as chunk_content, c.start_line, c.end_line,
                        1 - (c.embedding_v2 <=> $1) as score,
                        p.name as project_name
                 FROM file_chunks c
                 JOIN indexed_files f ON f.id = c.file_id
                 JOIN projects p ON p.id = f.project_id
                 WHERE c.embedding_v2 IS NOT NULL
                   AND ",
    );
    reveal_strlit("FROM file_chunks");
    reveal_strlit("JOIN indexed_files f ON f.id = c.file_id");
    reveal_strlit("JOIN projects p ON p.id = f.project_id");
    reveal_strlit("SELECT");
    reveal_strlit("WHERE c.embedding_v2 IS NOT NULL");
    reveal_strlit("c.embedding_v2 <=> ");
    let t = SEMANTIC_OVERALL@;
    assert(part_at(t, 0, "SELECT"@));
    assert(part_at(t, 151, "c.embedding_v2 <=> "@));
    assert(part_at(t, 398, "WHERE c.embedding_v2 IS NOT NULL"@));
    assert(part_at(t, 248, "FROM file_chunks"@));
    assert(part_at(t, 284, "JOIN indexed_files f ON f.id = c.file_id"@));
    assert(part_at(t, 342, "JOIN projects p ON p.id = f.project_id"@));
}

/// What the text of [`SEMANTIC_TAIL`] says.
pub proof fn semantic_tail_text()
    ensures
        mentions(SEMANTIC_TAIL@, "c.embedding_v2 <=> "@, 1),
        mentions(SEMANTIC_TAIL@, "LIMIT "@, 2),
{
    reveal_strlit(
        "
                 ORDER BY c.embedding_v2 <=> $1
                 LIMIT $2",
    );
    reveal_strlit("LIMIT ");
    reveal_strlit("c.embedding_v2 <=> ");
    let t = SEMANTIC_TAIL@;
    assert(part_at(t, 27, "c.embedding_v2 <=> "@));
    assert(part_at(t, 66, "LIMIT "@));
}

/// What the text of [`HYBRID_LEGS_1`] says.
pub proof fn hybrid_legs_1_text()
    ensures
        says(HYBRID_LEGS_1@, "ORDER BY dist) AS rnk FROM ("@),
        ends_plainly(HYBRID_LEGS_1@),
{
    reveal_strlit(
        "dense AS (
            SELECT chunk_id, ROW_NUMBER() OVER (ORDER BY dist) AS rnk FROM (
                SELECT c.id AS chunk_id, (c.",
    );
    reveal_strlit("ORDER BY dist) AS rnk FROM (");
    let t = HYBRID_LEGS_1@;
    assert(part_at(t, 59, "ORDER BY dist) AS rnk FROM ("@));
}

/// What the text of [`HYBRID_LEGS_2`] says.
pub proof fn hybrid_legs_2_text()
    ensures
        mentions(HYBRID_LEGS_2@, "<=> "@, 1),
        says(HYBRID_LEGS_2@, "WHERE c."@),
        says(HYBRID_LEGS_2@, "FROM file_chunks"@),
        says(HYBRID_LEGS_2@, "JOIN indexed_files f ON f.id = c.file_id"@),
        says(HYBRID_LEGS_2@, "JOIN projects p ON p.id = f.project_id"@),
        ends_plainly(HYBRID_LEGS_2@),
{
    reveal_strlit(
        " <=> $1) AS dist
                FROM file_chunks c
                JOIN indexed_files f ON f.id = c.file_id
                JOIN projects p ON p.id = f.project_id
                WHERE c.",
    );
    reveal_strlit("<=> ");
    reveal_strlit("FROM file_chunks");
    reveal_strlit("JOIN indexed_files f ON f.id = c.file_id");
    reveal_strlit("JOIN projects p ON p.id = f.project_id");
    reveal_strlit("WHERE c.");
    let t = HYBRID_LEGS_2@;
    assert(part_at(t, 1, "<=> "@));
    assert(part_at(t, 180, "WHERE c."@));
    assert(part_at(t, 33, "FROM file_chunks"@));
    assert(part_at(t, 68, "JOIN indexed_files f ON f.id = c.file_id"@));
    assert(part_at(t, 125, "JOIN projects p ON p.id = f.project_id"@));
}

/// What the text of [`HYBRID_LEGS_3`] says.
pub proof fn hybrid_legs_3_text()
    ensures
        mentions(HYBRID_LEGS_3@, "f.language = "@, 4),
        mentions(HYBRID_LEGS_3@, "p.name = "@, 5),
        says(HYBRID_LEGS_3@, "ORDER BY c."@),
        ends_plainly(HYBRID_LEGS_3@),
{
    reveal_strlit(
        " IS NOT NULL
                  AND ($4::text IS NULL OR f.language = $4)
                  AND ($5::text IS NULL OR p.name = $5)
                ORDER BY c.",
    );
    reveal_strlit("ORDER BY c.");
    reveal_strlit("f.language = ");
    reveal_strlit("p.name = ");
    let t = HYBRID_LEGS_3@;
    assert(part_at(t, 56, "f.language = "@));
    assert(part_at(t, 116, "p.name = "@));
    assert(part_at(t, 145, "ORDER BY c."@));
}

/// What the text of [`HYBRID_LEGS_4`] says.
#[verifier::rlimit(50)]
pub proof fn hybrid_legs_4_text()
    ensures
        mentions(HYBRID_LEGS_4@, "<=> "@, 1),
        mentions(HYBRID_LEGS_4@, "ts_rank(c.content_tsv, plainto_tsquery('english', "@, 2),
        mentions(HYBRID_LEGS_4@, "LIMIT "@, 3),
        mentions(HYBRID_LEGS_4@, "f.language = "@, 4),
        mentions(HYBRID_LEGS_4@, "p.name = "@, 5),
        says(HYBRID_LEGS_4@, "ORDER BY rank DESC) AS rnk FROM ("@),
        says(HYBRID_LEGS_4@, "ORDER BY rank DESC"@),
        says(HYBRID_LEGS_4@, "FROM file_chunks"@),
        says(HYBRID_LEGS_4@, "JOIN indexed_files f ON f.id = c.file_id"@),
        says(HYBRID_LEGS_4@, "JOIN projects p ON p.id = f.project_id"@),
        ends_plainly(HYBRID_LEGS_4@),
{
    reveal_strlit(
        " <=> $1
                LIMIT $3
            ) dd
        ),
        lexical AS (
            SELECT chunk_id, ROW_NUMBER() OVER (ORDER BY rank DESC) AS rnk FROM (
                SELECT c.id AS chunk_id,
                       ts_rank(c.content_tsv, plainto_tsquery('english', $2)) AS rank
                FROM file_chunks c
                JOIN indexed_files f ON f.id = c.file_id
                JOIN projects p ON p.id = f.project_id
                WHERE c.content_tsv @@ plainto_tsquery('english', $2)
                  AND ($4::text IS NULL OR f.language = $4)
                  AND ($5::text IS NULL OR p.name = $5)
                ORDER BY rank DESC
                LIMIT $3
            ) ll
        )",
    );
    reveal_strlit("<=> ");
    reveal_strlit("FROM file_chunks");
    reveal_strlit("JOIN indexed_files f ON f.id = c.file_id");
    reveal_strlit("JOIN projects p ON p.id = f.project_id");
    reveal_strlit("LIMIT ");
    reveal_strlit("ORDER BY rank DESC");
    reveal_strlit("ORDER BY rank DESC) AS rnk FROM (");
    reveal_strlit("f.language = ");
    reveal_strlit("p.name = ");
    reveal_strlit("ts_rank(c.content_tsv, plainto_tsquery('english', ");
    let t = HYBRID_LEGS_4@;
    assert(part_at(t, 1, "<=> "@));
    assert(part_at(t, 228, "ts_rank(c.content_tsv, plainto_tsquery('english', "@));
    assert(part_at(t, 24, "LIMIT "@));
    assert(part_at(t, 551, "f.language = "@));
    assert(part_at(t, 611, "p.name = "@));
    assert(part_at(t, 130, "ORDER BY rank DESC) AS rnk FROM ("@));
    assert(part_at(t, 640, "ORDER BY rank DESC"@));
    assert(part_at(t, 307, "FROM file_chunks"@));
    assert(part_at(t, 342, "JOIN indexed_files f ON f.id = c.file_id"@));
    assert(part_at(t, 399, "JOIN projects p ON p.id = f.project_id"@));
}

/// What the text of [`HYBRID_FUSE_THREE`] says.
#[verifier::rlimit(50)]
pub proof fn hybrid_fuse_three_text()
    ensures
        mentions(HYBRID_FUSE_THREE@, "LIMIT "@, 3),
        mentions(HYBRID_FUSE_THREE@, "f.language = "@, 4),
        mentions(HYBRID_FUSE_THREE@, "p.name = "@, 5),
        mentions(HYBRID_FUSE_THREE@, "c.sparse_v2 <#> "@, 7),
        says(HYBRID_FUSE_THREE@, "WHERE c.sparse_v2 IS NOT NULL"@),
        says(HYBRID_FUSE_THREE@, "ORDER BY dist) AS rnk FROM ("@),
        says(HYBRID_FUSE_THREE@, "FROM file_chunks"@),
        says(HYBRID_FUSE_THREE@, "JOIN indexed_files f ON f.id = c.file_id"@),
        says(HYBRID_FUSE_THREE@, "JOIN projects p ON p.id = f.project_id"@),
        says(HYBRID_FUSE_THREE@, "FULL OUTER JOIN lexical l ON d.chunk_id = l.chunk_id"@),
        says(
            HYBRID_FUSE_THREE@,
            "FULL OUTER JOIN sparse s ON COALESCE(d.chunk_id, l.chunk_id) = s.chunk_id"@,
        ),
        ends_plainly(HYBRID_FUSE_THREE@),
{
    reveal_strlit(
        ",
            sparse AS (
                SELECT chunk_id, ROW_NUMBER() OVER (ORDER BY dist) AS rnk FROM (
                    SELECT c.id AS chunk_id, (c.sparse_v2 <#> $7) AS dist
                    FROM file_chunks c
                    JOIN indexed_files f ON f.id = c.file_id
                    JOIN projects p ON p.id = f.project_id
                    WHERE c.sparse_v2 IS NOT NULL
                      AND ($4::text IS NULL OR f.language = $4)
                      AND ($5::text IS NULL OR p.name = $5)
                    ORDER BY c.sparse_v2 <#> $7
                    LIMIT $3
                ) ss
            ),
            fused AS (
                SELECT COALESCE(d.chunk_id, l.chunk_id, s.chunk_id) AS chunk_id,
                       (COALESCE(1.0 / (60.0 + d.rnk), 0.0)
                     + COALESCE(1.0 / (60.0 + l.rnk), 0.0)
                     + COALESCE(1.0 / (60.0 + s.rnk), 0.0))::float8 AS rrf
                FROM dense d
                FULL OUTER JOIN lexical l ON d.chunk_id = l.chunk_id
                FULL OUTER JOIN sparse s ON COALESCE(d.chunk_id, l.chunk_id) = s.chunk_id
            )
            ",
    );
    reveal_strlit("FROM file_chunks");
    reveal_strlit("FULL OUTER JOIN lexical l ON d.chunk_id = l.chunk_id");
    reveal_strlit("FULL OUTER JOIN sparse s ON COALESCE(d.chunk_id, l.chunk_id) = s.chunk_id");
    reveal_strlit("JOIN indexed_files f ON f.id = c.file_id");
    reveal_strlit("JOIN projects p ON p.id = f.project_id");
    reveal_strlit("LIMIT ");
    reveal_strlit("ORDER BY dist) AS rnk FROM (");
    reveal_strlit("WHERE c.sparse_v2 IS NOT NULL");
    reveal_strlit("c.sparse_v2 <#> ");
    reveal_strlit("f.language = ");
    reveal_strlit("p.name = ");
    let t = HYBRID_FUSE_THREE@;
    assert(part_at(t, 582, "LIMIT "@));
    assert(part_at(t, 437, "f.language = "@));
    assert(part_at(t, 501, "p.name = "@));
    assert(part_at(t, 153, "c.sparse_v2 <#> "@));
    assert(part_at(t, 360, "WHERE c.sparse_v2 IS NOT NULL"@));
    assert(part_at(t, 78, "ORDER BY dist) AS rnk FROM ("@));
    assert(part_at(t, 201, "FROM file_chunks"@));
    assert(part_at(t, 240, "JOIN indexed_files f ON f.id = c.file_id"@));
    assert(part_at(t, 301, "JOIN projects p ON p.id = f.project_id"@));
    assert(part_at(t, 970, "FULL OUTER JOIN lexical l ON d.chunk_id = l.chunk_id"@));
    assert(part_at(
        t,
        1039,
        "FULL OUTER JOIN sparse s ON COALESCE(d.chunk_id, l.chunk_id) = s.chunk_id"@,
    ));
}

/// What the text of [`HYBRID_FUSE_TWO`] says.
pub proof fn hybrid_fuse_two_text()
    ensures
        says(HYBRID_FUSE_TWO@, "FROM dense"@),
        says(HYBRID_FUSE_TWO@, "FULL OUTER JOIN lexical l ON d.chunk_id = l.chunk_id"@),
        ends_plainly(HYBRID_FUSE_TWO@),
{
    reveal_strlit(
        ",
            fused AS (
                SELECT COALESCE(d.chunk_id, l.chunk_id) AS chunk_id,
                       (COALESCE(1.0 / (60.0 + d.rnk), 0.0)
                     + COALESCE(1.0 / (60.0 + l.rnk), 0.0))::float8 AS rrf
                FROM dense d
                FULL OUTER JOIN lexical l ON d.chunk_id = l.chunk_id
            )
            ",
    );
    reveal_strlit("FROM dense");
    reveal_strlit("FULL OUTER JOIN lexical l ON d.chunk_id = l.chunk_id");
    let t = HYBRID_FUSE_TWO@;
    assert(part_at(t, 245, "FROM dense"@));
    assert(part_at(t, 274, "FULL OUTER JOIN lexical l ON d.chunk_id = l.chunk_id"@));
}

/// What the text of [`HYBRID_RANKING`] says.
pub proof fn hybrid_ranking_text()
    ensures
        opens(HYBRID_RANKING@, "SELECT"@),
        mentions(HYBRID_RANKING@, "LIMIT "@, 6),
        says(HYBRID_RANKING@, "ORDER BY fused.rrf DESC"@),
        says(HYBRID_RANKING@, "FROM fused"@),
        says(HYBRID_RANKING@, "JOIN file_chunks c ON c.id = fused.chunk_id"@),
        says(HYBRID_RANKING@, "JOIN indexed_files f ON f.id = c.file_id"@),
        says(HYBRID_RANKING@, "JOIN projects p ON p.id = f.project_id"@),
{
    reveal_strlit(
        "SELECT f.path, f.relative_path, f.language,
               c.content AS chunk_content, c.start_line, c.end_line,
               fused.rrf AS score,
               p.name AS project_name,
               c.id AS chunk_id
        FROM fused
        JOIN file_chunks c ON c.id = fused.chunk_id
        JOIN indexed_files f ON f.id = c.file_id
        JOIN projects p ON p.id = f.project_id
        ORDER BY fused.rrf DESC
        LIMIT $6",
    );
    reveal_strlit("FROM fused");
    reveal_strlit("JOIN file_chunks c ON c.id = fused.chunk_id");
    reveal_strlit("JOIN indexed_files f ON f.id = c.file_id");
    reveal_strlit("JOIN projects p ON p.id = f.project_id");
    reveal_strlit("LIMIT ");
    reveal_strlit("ORDER BY fused.rrf DESC");
    reveal_strlit("SELECT");
    let t = HYBRID_RANKING@;
    assert(part_at(t, 0, "SELECT"@));
    assert(part_at(t, 426, "LIMIT "@));
    assert(part_at(t, 394, "ORDER BY fused.rrf DESC"@));
    assert(part_at(t, 227, "FROM fused"@));
    assert(part_at(t, 246, "JOIN file_chunks c ON c.id = fused.chunk_id"@));
    assert(part_at(t, 298, "JOIN indexed_files f ON f.id = c.file_id"@));
    assert(part_at(t, 347, "JOIN projects p ON p.id = f.project_id"@));
}

/// What the fused search says by [`HYBRID_LEGS_1`].
pub proof fn fused_first_leg_text(col: Seq<char>, with_sparse: bool)
    ensures
        says(hybrid_sql(col, with_sparse), "ORDER BY dist) AS rnk FROM ("@),
{
    hybrid_legs_1_text();
    let sql = hybrid_sql(col, with_sparse);
    let fuse = if with_sparse {
        HYBRID_FUSE_THREE@
    } else {
        HYBRID_FUSE_TWO@
    };
    let head = "WITH "@;
    let tail = col + HYBRID_LEGS_2@ + col + HYBRID_LEGS_3@ + col + HYBRID_LEGS_4@ + fuse + HYBRID_RANKING@;
    assert(sql =~= head + HYBRID_LEGS_1@ + tail);
    lemma_within(sql, head, HYBRID_LEGS_1@, tail);
}

/// What the fused search says by [`HYBRID_LEGS_2`].
pub proof fn fused_dense_leg_text(col: Seq<char>, with_sparse: bool)
    ensures
        mentions(hybrid_sql(col, with_sparse), "<=> "@, 1),
        says(hybrid_sql(col, with_sparse), "WHERE c."@),
        says(hybrid_sql(col, with_sparse), "FROM file_chunks"@),
{
    hybrid_legs_2_text();
    let sql = hybrid_sql(col, with_sparse);
    let fuse = if with_sparse {
        HYBRID_FUSE_THREE@
    } else {
        HYBRID_FUSE_TWO@
    };
    let head = "WITH "@ + HYBRID_LEGS_1@ + col;
    let tail = col + HYBRID_LEGS_3@ + col + HYBRID_LEGS_4@ + fuse + HYBRID_RANKING@;
    assert(sql =~= head + HYBRID_LEGS_2@ + tail);
    lemma_within(sql, head, HYBRID_LEGS_2@, tail);
}

/// What the fused search says by [`HYBRID_LEGS_3`].
pub proof fn fused_dense_filter_text(col: Seq<char>, with_sparse: bool)
    ensures
        mentions(hybrid_sql(col, with_sparse), "f.language = "@, 4),
        mentions(hybrid_sql(col, with_sparse), "p.name = "@, 5),
        says(hybrid_sql(col, with_sparse), "ORDER BY c."@),
{
    hybrid_legs_3_text();
    let sql = hybrid_sql(col, with_sparse);
    let fuse = if with_sparse {
        HYBRID_FUSE_THREE@
    } else {
        HYBRID_FUSE_TWO@
    };
    let head = "WITH "@ + HYBRID_LEGS_1@ + col + HYBRID_LEGS_2@ + col;
    let tail = col + HYBRID_LEGS_4@ + fuse + HYBRID_RANKING@;
    assert(sql =~= head + HYBRID_LEGS_3@ + tail);
    lemma_within(sql, head, HYBRID_LEGS_3@, tail);
}

/// What the fused search says by [`HYBRID_LEGS_4`].
pub proof fn fused_lexical_leg_text(col: Seq<char>, with_sparse: bool)
    ensures
        mentions(hybrid_sql(col, with_sparse), "ts_rank(c.content_tsv, plainto_tsquery('english', "@, 2),
        mentions(hybrid_sql(col, with_sparse), "LIMIT "@, 3),
        says(hybrid_sql(col, with_sparse), "ORDER BY rank DESC) AS rnk FROM ("@),
        says(hybrid_sql(col, with_sparse), "ORDER BY rank DESC"@),
{
    hybrid_legs_4_text();
    let sql = hybrid_sql(col, with_sparse);
    let fuse = if with_sparse {
        HYBRID_FUSE_THREE@
    } else {
        HYBRID_FUSE_TWO@
    };
    let head = "WITH "@ + HYBRID_LEGS_1@ + col + HYBRID_LEGS_2@ + col + HYBRID_LEGS_3@ + col;
    let tail = fuse + HYBRID_RANKING@;
    assert(sql =~= head + HYBRID_LEGS_4@ + tail);
    lemma_within(sql, head, HYBRID_LEGS_4@, tail);
}

/// What the fused search says by [`HYBRID_RANKING`].
pub proof fn fused_ranking_text(col: Seq<char>, with_sparse: bool)
    ensures
        mentions(hybrid_sql(col, with_sparse), "LIMIT "@, 6),
        says(hybrid_sql(col, with_sparse), "ORDER BY fused.rrf DESC"@),
        says(hybrid_sql(col, with_sparse), "FROM fused"@),
{
    hybrid_ranking_text();
    let sql = hybrid_sql(col, with_sparse);
    let fuse = if with_sparse {
        HYBRID_FUSE_THREE@
    } else {
        HYBRID_FUSE_TWO@
    };
    let head = "WITH "@ + hybrid_legs(col) + fuse;
    let tail = Seq::<char>::empty();
    assert(sql =~= head + HYBRID_RANKING@ + tail);
    lemma_within(sql, head, HYBRID_RANKING@, tail);
}

/// What the fused search says by [`HYBRID_FUSE_THREE`].
pub proof fn fused_sparse_leg_text(col: Seq<char>, with_sparse: bool)
    ensures
        with_sparse ==> mentions(hybrid_sql(col, with_sparse), "c.sparse_v2 <#> "@, 7),
{
    if with_sparse {
        hybrid_fuse_three_text();
        let sql = hybrid_sql(col, with_sparse);
        let head = "WITH "@ + hybrid_legs(col);
        assert(sql =~= head + HYBRID_FUSE_THREE@ + HYBRID_RANKING@);
        lemma_within(sql, head, HYBRID_FUSE_THREE@, HYBRID_RANKING@);
    }
}

/// The fused search compares with the embedding and the text that are
/// asked for, in the language and the project that are asked for, and keeps
/// as many candidates and answers as are asked for.
pub proof fn law_fused_search_keeps_what_is_asked_for(
    col: Seq<char>,
    query_text: Seq<char>,
    limit: i32,
    candidates: i32,
    language: Option<Seq<char>>,
    project: Option<Seq<char>>,
    with_sparse: bool,
    st: StatementView,
)
    requires
        st == fetches_all(
            hybrid_sql(col, with_sparse),
            hybrid_binds(query_text, limit, candidates, language, project, with_sparse),
        ),
    ensures
        takes(st, "<=> "@, BindView::Supplied(0)),
        takes(
            st,
            "ts_rank(c.content_tsv, plainto_tsquery('english', "@,
            BindView::Text(query_text),
        ),
        takes(st, "f.language = "@, BindView::OptText(language)),
        takes(st, "p.name = "@, BindView::OptText(project)),
        takes(st, "LIMIT "@, BindView::Int(candidates)),
        takes(st, "LIMIT "@, BindView::Int(limit)),
        with_sparse ==> takes(st, "c.sparse_v2 <#> "@, BindView::Supplied(1)),
        says(st.sql, "ORDER BY dist) AS rnk FROM ("@),
        says(st.sql, "WHERE c."@),
        says(st.sql, "FROM file_chunks"@),
        says(st.sql, "ORDER BY c."@),
        says(st.sql, "ORDER BY rank DESC) AS rnk FROM ("@),
        says(st.sql, "ORDER BY rank DESC"@),
        says(st.sql, "ORDER BY fused.rrf DESC"@),
        says(st.sql, "FROM fused"@),
{
    fused_first_leg_text(col, with_sparse);
    fused_dense_leg_text(col, with_sparse);
    fused_dense_filter_text(col, with_sparse);
    fused_lexical_leg_text(col, with_sparse);
    fused_ranking_text(col, with_sparse);
    fused_sparse_leg_text(col, with_sparse);
    assert(st.sql == hybrid_sql(col, with_sparse));
    let binds = st.binds;
    assert(binds[0] == BindView::Supplied(0) && binds[1] == BindView::Text(query_text));
    assert(binds[2] == BindView::Int(candidates) && binds[5] == BindView::Int(limit));
    assert(binds[3] == BindView::OptText(language) && binds[4] == BindView::OptText(project));
    assert(with_sparse ==> binds.len() == 7 && binds[6] == BindView::Supplied(1));
}

/// What the text of [`TEXT_SEARCH_HEAD`] says.
#[verifier::rlimit(50)]
pub proof fn text_search_head_text()
    ensures
        opens(TEXT_SEARCH_HEAD@, "SELECT"@),
        mentions(TEXT_SEARCH_HEAD@, "ts_rank(c.content_tsv, plainto_tsquery('english', "@, 1),
        mentions(TEXT_SEARCH_HEAD@, "f.language = "@, 3),
        mentions(TEXT_SEARCH_HEAD@, "p.name = "@, 4),
        says(TEXT_SEARCH_HEAD@, "FROM file_chunks"@),
        says(
            TEXT_SEARCH_HEAD@,
            "JOIN indexed_files f ON c.file_id = COALESCE(f.duplicate_of_file_id, f.id)"@,
        ),
        says(TEXT_SEARCH_HEAD@, "LEFT JOIN projects p ON p.id = f.project_id"@),
        ends_plainly(TEXT_SEARCH_HEAD@),
{
    reveal_strlit(
        "SELECT path, relative_path, language, content, rank FROM (
            SELECT DISTINCT ON (f.id)
                f.path,
                f.relative_path,
                f.language,
                c.content,
                ts_rank(c.content_tsv, plainto_tsquery('english', $1)) AS rank
            FROM file_chunks c
            JOIN indexed_files f ON c.file_id = COALESCE(f.duplicate_of_file_id, f.id)
            LEFT JOIN projects p ON p.id = f.project_id
            WHERE c.content_tsv @@ plainto_tsquery('english', $1)
              AND ($3::text IS NULL OR f.language = $3)
              AND ($4::text IS NULL OR p.name = $4)
              AND ",
    );
    reveal_strlit("FROM file_chunks");
    reveal_strlit("JOIN indexed_files f ON c.file_id = COALESCE(f.duplicate_of_file_id, f.id)");
    reveal_strlit("LEFT JOIN projects p ON p.id = f.project_id");
    reveal_strlit("SELECT");
    reveal_strlit("f.language = ");
    reveal_strlit("p.name = ");
    reveal_strlit("ts_rank(c.content_tsv, plainto_tsquery('english', ");
    let t = TEXT_SEARCH_HEAD@;
    assert(part_at(t, 0, "SELECT"@));
    assert(part_at(t, 225, "ts_rank(c.content_tsv, plainto_tsquery('english', "@));
    assert(part_at(t, 567, "f.language = "@));
    assert(part_at(t, 623, "p.name = "@));
    assert(part_at(t, 300, "FROM file_chunks"@));
    assert(part_at(
        t,
        331,
        "JOIN indexed_files f ON c.file_id = COALESCE(f.duplicate_of_file_id, f.id)"@,
    ));
    assert(part_at(t, 418, "LEFT JOIN projects p ON p.id = f.project_id"@));
}

/// What the text of [`TEXT_SEARCH_TAIL`] says.
pub proof fn text_search_tail_text()
    ensures
        mentions(TEXT_SEARCH_TAIL@, "LIMIT "@, 2),
        says(TEXT_SEARCH_TAIL@, "ORDER BY f.id, rank DESC"@),
        says(TEXT_SEARCH_TAIL@, "ORDER BY rank DESC"@),
{
    reveal_strlit(
        "
            ORDER BY f.id, rank DESC
         ) per_file
         ORDER BY rank DESC
         LIMIT $2",
    );
    reveal_strlit("LIMIT ");
    reveal_strlit("ORDER BY f.id, rank DESC");
    reveal_strlit("ORDER BY rank DESC");
    let t = TEXT_SEARCH_TAIL@;
    assert(part_at(t, 95, "LIMIT "@));
    assert(part_at(t, 13, "ORDER BY f.id, rank DESC"@));
    assert(part_at(t, 67, "ORDER BY rank DESC"@));
}

/// What the text of [`GREP_IN_FILES_HEAD`] says.
pub proof fn grep_in_files_head_text()
    ensures
        opens(GREP_IN_FILES_HEAD@, "SELECT DISTINCT ON"@),
        mentions(GREP_IN_FILES_HEAD@, "c.content ~ "@, 1),
        mentions(GREP_IN_FILES_HEAD@, "f.relative_path LIKE "@, 3),
        says(GREP_IN_FILES_HEAD@, "FROM file_chunks"@),
        says(
            GREP_IN_FILES_HEAD@,
            "JOIN indexed_files f ON c.file_id = COALESCE(f.duplicate_of_file_id, f.id)"@,
        ),
        ends_plainly(GREP_IN_FILES_HEAD@),
{
    reveal_strlit(
        "SELECT DISTINCT ON (f.id)
                f.path,
                f.relative_path,
                f.language,
                c.content
             FROM file_chunks c
             JOIN indexed_files f ON c.file_id = COALESCE(f.duplicate_of_file_id, f.id)
             WHERE c.content ~ $1
               AND f.relative_path LIKE $3
               AND ",
    );
    reveal_strlit("FROM file_chunks");
    reveal_strlit("JOIN indexed_files f ON c.file_id = COALESCE(f.duplicate_of_file_id, f.id)");
    reveal_strlit("SELECT DISTINCT ON");
    reveal_strlit("c.content ~ ");
    reveal_strlit("f.relative_path LIKE ");
    let t = GREP_IN_FILES_HEAD@;
    assert(part_at(t, 0, "SELECT DISTINCT ON"@));
    assert(part_at(t, 276, "c.content ~ "@));
    assert(part_at(t, 310, "f.relative_path LIKE "@));
    assert(part_at(t, 150, "FROM file_chunks"@));
    assert(part_at(
        t,
        182,
        "JOIN indexed_files f ON c.file_id = COALESCE(f.duplicate_of_file_id, f.id)"@,
    ));
}

/// What the text of [`GREP_HEAD`] says.
pub proof fn grep_head_text()
    ensures
        opens(GREP_HEAD@, "SELECT DISTINCT ON"@),
        mentions(GREP_HEAD@, "c.content ~ "@, 1),
        says(GREP_HEAD@, "FROM file_chunks"@),
        says(
            GREP_HEAD@,
            "JOIN indexed_files f ON c.file_id = COALESCE(f.duplicate_of_file_id, f.id)"@,
        ),
        ends_plainly(GREP_HEAD@),
{
    reveal_strlit(
        "SELECT DISTINCT ON (f.id)
                f.path,
                f.relative_path,
                f.language,
                c.content
             FROM file_chunks c
             JOIN indexed_files f ON c.file_id = COALESCE(f.duplicate_of_file_id, f.id)
             WHERE c.content ~ $1
               AND ",
    );
    reveal_strlit("FROM file_chunks");
    reveal_strlit("JOIN indexed_files f ON c.file_id = COALESCE(f.duplicate_of_file_id, f.id)");
    reveal_strlit("SELECT DISTINCT ON");
    reveal_strlit("c.content ~ ");
    let t = GREP_HEAD@;
    assert(part_at(t, 0, "SELECT DISTINCT ON"@));
    assert(part_at(t, 276, "c.content ~ "@));
    assert(part_at(t, 150, "FROM file_chunks"@));
    assert(part_at(
        t,
        182,
        "JOIN indexed_files f ON c.file_id = COALESCE(f.duplicate_of_file_id, f.id)"@,
    ));
}

/// What the text of [`GREP_TAIL`] says.
pub proof fn grep_tail_text()
    ensures
        mentions(GREP_TAIL@, "LIMIT "@, 2),
        says(GREP_TAIL@, "ORDER BY f.id, c.chunk_index"@),
{
    reveal_strlit(
        "
             ORDER BY f.id, c.chunk_index
             LIMIT $2",
    );
    reveal_strlit("LIMIT ");
    reveal_strlit("ORDER BY f.id, c.chunk_index");
    let t = GREP_TAIL@;
    assert(part_at(t, 56, "LIMIT "@));
    assert(part_at(t, 14, "ORDER BY f.id, c.chunk_index"@));
}

/// What the text of [`GREP_CHUNKS_HEAD`] says.
pub proof fn grep_chunks_head_text()
    ensures
        opens(GREP_CHUNKS_HEAD@, "SELECT"@),
        says(GREP_CHUNKS_HEAD@, "WHERE c.content"@),
        says(GREP_CHUNKS_HEAD@, "FROM file_chunks"@),
        says(
            GREP_CHUNKS_HEAD@,
            "JOIN indexed_files f ON c.file_id = COALESCE(f.duplicate_of_file_id, f.id)"@,
        ),
        says(GREP_CHUNKS_HEAD@, "JOIN projects p ON p.id = f.project_id"@),
        ends_plainly(GREP_CHUNKS_HEAD@),
{
    reveal_strlit(
        "SELECT
            p.name AS project_name,
            f.path,
            f.relative_path,
            f.language,
            c.chunk_index,
            c.start_line,
            c.end_line,
            c.content
         FROM file_chunks c
         JOIN indexed_files f ON c.file_id = COALESCE(f.duplicate_of_file_id, f.id)
         JOIN projects p ON p.id = f.project_id
         WHERE c.content ",
    );
    reveal_strlit("FROM file_chunks");
    reveal_strlit("JOIN indexed_files f ON c.file_id = COALESCE(f.duplicate_of_file_id, f.id)");
    reveal_strlit("JOIN projects p ON p.id = f.project_id");
    reveal_strlit("SELECT");
    reveal_strlit("WHERE c.content");
    let t = GREP_CHUNKS_HEAD@;
    assert(part_at(t, 0, "SELECT"@));
    assert(part_at(t, 384, "WHERE c.content"@));
    assert(part_at(t, 224, "FROM file_chunks"@));
    assert(part_at(
        t,
        252,
        "JOIN indexed_files f ON c.file_id = COALESCE(f.duplicate_of_file_id, f.id)"@,
    ));
    assert(part_at(t, 336, "JOIN projects p ON p.id = f.project_id"@));
}

/// What the text of [`GREP_CHUNKS_MIDDLE`] says.
pub proof fn grep_chunks_middle_text()
    ensures
        mentions(GREP_CHUNKS_MIDDLE@, "p.name = "@, 2),
        mentions(GREP_CHUNKS_MIDDLE@, "f.language = "@, 3),
        mentions(GREP_CHUNKS_MIDDLE@, "f.relative_path LIKE "@, 4),
        ends_plainly(GREP_CHUNKS_MIDDLE@),
{
    reveal_strlit(
        " $1
           AND ($2::text IS NULL OR p.name = $2)
           AND ($3::text IS NULL OR f.language = $3)
           AND ($4::text IS NULL OR f.relative_path LIKE $4)
           AND ",
    );
    reveal_strlit("f.language = ");
    reveal_strlit("f.relative_path LIKE ");
    reveal_strlit("p.name = ");
    let t = GREP_CHUNKS_MIDDLE@;
    assert(part_at(t, 40, "p.name = "@));
    assert(part_at(t, 89, "f.language = "@));
    assert(part_at(t, 142, "f.relative_path LIKE "@));
}

/// What the text of [`GREP_CHUNKS_TAIL`] says.
pub proof fn grep_chunks_tail_text()
    ensures
        mentions(GREP_CHUNKS_TAIL@, "LIMIT "@, 6),
        says(GREP_CHUNKS_TAIL@, "ORDER BY f.path, c.chunk_index"@),
{
    reveal_strlit(
        "
         ORDER BY f.path, c.chunk_index
         LIMIT $6",
    );
    reveal_strlit("LIMIT ");
    reveal_strlit("ORDER BY f.path, c.chunk_index");
    let t = GREP_CHUNKS_TAIL@;
    assert(part_at(t, 50, "LIMIT "@));
    assert(part_at(t, 10, "ORDER BY f.path, c.chunk_index"@));
}

/// Where the pattern stands in a search for chunks: behind the operator that is
/// asked for.
#[verifier::rlimit(50)]
pub proof fn grep_operator_text(case_insensitive: bool)
    ensures
        ({
            let t = GREP_CHUNKS_HEAD@ + match_operator(case_insensitive) + GREP_CHUNKS_MIDDLE@;
            &&& ends_plainly(t)
            &&& case_insensitive ==> mentions(t, "c.content ~* "@, 1)
            &&& !case_insensitive ==> mentions(t, "c.content ~ "@, 1)
        }),
{
    reveal_strlit(
        "SELECT
            p.name AS project_name,
            f.path,
            f.relative_path,
            f.language,
            c.chunk_index,
            c.start_line,
            c.end_line,
            c.content
         FROM file_chunks c
         JOIN indexed_files f ON c.file_id = COALESCE(f.duplicate_of_file_id, f.id)
         JOIN projects p ON p.id = f.project_id
         WHERE c.content ",
    );
    reveal_strlit(
        " $1
           AND ($2::text IS NULL OR p.name = $2)
           AND ($3::text IS NULL OR f.language = $3)
           AND ($4::text IS NULL OR f.relative_path LIKE $4)
           AND ",
    );
    reveal_strlit("~*");
    reveal_strlit("~");
    reveal_strlit("c.content ~* ");
    reveal_strlit("c.content ~ ");
    let t = GREP_CHUNKS_HEAD@ + match_operator(case_insensitive) + GREP_CHUNKS_MIDDLE@;
    assert(t.last() == GREP_CHUNKS_MIDDLE@.last());
    if case_insensitive {
        assert(part_at(t, 390, "c.content ~* "@));
        assert(argument_at(t, 403, 1));
    } else {
        assert(part_at(t, 390, "c.content ~ "@));
        assert(argument_at(t, 402, 1));
    }
}

#[verifier::rlimit(100)]
proof fn semantic_by_language_lacks()
    ensures
        !says(SEMANTIC_BY_LANGUAGE@, "p.name = "@),
        SEMANTIC_BY_LANGUAGE@.len() > 0,
        SEMANTIC_BY_LANGUAGE@[0] == 'S',
{
    reveal_strlit(
        "SELECT f.path, f.relative_path, f.language,
                        c.content as chunk_content, c.start_line, c.end_line,
                        1 - (c.embedding_v2 <=> $1) as score,
                        p.name as project_name
                 FROM file_chunks c
                 JOIN indexed_files f ON f.id = c.file_id
                 JOIN projects p ON p.id = f.project_id
                 WHERE f.language = $3
                   AND c.embedding_v2 IS NOT NULL
                   AND ",
    );
    reveal_strlit("p.name = ");
    assert(nowhere(SEMANTIC_BY_LANGUAGE@, "p.name = "@, 0, 493)) by {
        reveal_with_fuel(nowhere, 12);
        reveal_with_fuel(differs, 8);
    }
    lemma_nowhere(SEMANTIC_BY_LANGUAGE@, "p.name = "@);
}

#[verifier::rlimit(100)]
proof fn semantic_by_project_lacks()
    ensures
        !says(SEMANTIC_BY_PROJECT@, "f.language = "@),
        SEMANTIC_BY_PROJECT@.len() > 0,
        SEMANTIC_BY_PROJECT@[0] == 'S',
{
    reveal_strlit(
        "SELECT f.path, f.relative_path, f.language,
                        c.content as chunk_content, c.start_line, c.end_line,
                        1 - (c.embedding_v2 <=> $1) as score,
                        p.name as project_name
                 FROM file_chunks c
                 JOIN indexed_files f ON f.id = c.file_id
                 JOIN projects p ON p.id = f.project_id
                 WHERE p.name = $3
                   AND c.embedding_v2 IS NOT NULL
                   AND ",
    );
    reveal_strlit("f.language = ");
    assert(nowhere(SEMANTIC_BY_PROJECT@, "f.language = "@, 0, 489)) by {
        reveal_with_fuel(nowhere, 12);
        reveal_with_fuel(differs, 11);
    }
    lemma_nowhere(SEMANTIC_BY_PROJECT@, "f.language = "@);
}

#[verifier::rlimit(100)]
proof fn semantic_overall_lacks_language()
    ensures
        !says(SEMANTIC_OVERALL@, "f.language = "@),
        SEMANTIC_OVERALL@.len() > 0,
        SEMANTIC_OVERALL@[0] == 'S',
{
    reveal_strlit(
        "SELECT f.path, f.relative_path, f.language,
                        c.content as chunk_content, c.start_line, c.end_line,
                        1 - (c.embedding_v2 <=> $1) as score,
                        p.name as project_name
                 FROM file_chunks c
                 JOIN indexed_files f ON f.id = c.file_id
                 JOIN projects p ON p.id = f.project_id
                 WHERE c.embedding_v2 IS NOT NULL
                   AND ",
    );
    reveal_strlit("f.language = ");
    assert(nowhere(SEMANTIC_OVERALL@, "f.language = "@, 0, 454)) by {
        reveal_with_fuel(nowhere, 12);
        reveal_with_fuel(differs, 11);
    }
    lemma_nowhere(SEMANTIC_OVERALL@, "f.language = "@);
}

#[verifier::rlimit(100)]
proof fn semantic_overall_lacks_project()
    ensures
        !says(SEMANTIC_OVERALL@, "p.name = "@),
        SEMANTIC_OVERALL@.len() > 0,
        SEMANTIC_OVERALL@[0] == 'S',
{
    reveal_strlit(
        "SELECT f.path, f.relative_path, f.language,
                        c.content as chunk_content, c.start_line, c.end_line,
                        1 - (c.embedding_v2 <=> $1) as score,
                        p.name as project_name
                 FROM file_chunks c
                 JOIN indexed_files f ON f.id = c.file_id
                 JOIN projects p ON p.id = f.project_id
                 WHERE c.embedding_v2 IS NOT NULL
                   AND ",
    );
    reveal_strlit("p.name = ");
    assert(nowhere(SEMANTIC_OVERALL@, "p.name = "@, 0, 454)) by {
        reveal_with_fuel(nowhere, 12);
        reveal_with_fuel(differs, 8);
    }
    lemma_nowhere(SEMANTIC_OVERALL@, "p.name = "@);
}

#[verifier::rlimit(100)]
proof fn semantic_tail_lacks_language()
    ensures
        !says(SEMANTIC_TAIL@, "f.language = "@),
        SEMANTIC_TAIL@.len() > 0,
        SEMANTIC_TAIL@[0] == '\n',
{
    reveal_strlit(
        "
                 ORDER BY c.embedding_v2 <=> $1
                 LIMIT $2",
    );
    reveal_strlit("f.language = ");
    assert(nowhere(SEMANTIC_TAIL@, "f.language = "@, 0, 74)) by {
        reveal_with_fuel(nowhere, 12);
        reveal_with_fuel(differs, 1);
    }
    lemma_nowhere(SEMANTIC_TAIL@, "f.language = "@);
}

#[verifier::rlimit(100)]
proof fn semantic_tail_lacks_project()
    ensures
        !says(SEMANTIC_TAIL@, "p.name = "@),
        SEMANTIC_TAIL@.len() > 0,
        SEMANTIC_TAIL@[0] == '\n',
{
    reveal_strlit(
        "
                 ORDER BY c.embedding_v2 <=> $1
                 LIMIT $2",
    );
    reveal_strlit("p.name = ");
    assert(nowhere(SEMANTIC_TAIL@, "p.name = "@, 0, 74)) by {
        reveal_with_fuel(nowhere, 12);
        reveal_with_fuel(differs, 1);
    }
    lemma_nowhere(SEMANTIC_TAIL@, "p.name = "@);
}

#[verifier::rlimit(100)]
proof fn dedup_3_lacks_language()
    ensures
        !says(DEDUP_3@, "f.language = "@),
        DEDUP_3@.len() > 0,
        DEDUP_3@[0] == '(',
{
    reveal_strlit(
        "(NOT $3 OR NOT EXISTS (
    SELECT 1 FROM projects p_dup
    JOIN indexed_files f_dup ON f_dup.project_id = p_dup.id
    JOIN projects p_self ON p_self.id = f.project_id
    WHERE p_dup.id < p_self.id
      AND f_dup.relative_path = f.relative_path
      AND (
          (p_dup.git_common_dir IS NOT NULL AND p_self.git_common_dir IS NOT NULL
           AND p_dup.git_common_dir = p_self.git_common_dir)
          OR
          (p_dup.git_root_commits IS NOT NULL AND p_self.git_root_commits IS NOT NULL
           AND p_dup.git_root_commits = p_self.git_root_commits)
      )
))",
    );
    reveal_strlit("f.language = ");
    assert(nowhere(DEDUP_3@, "f.language = "@, 0, 578)) by {
        reveal_with_fuel(nowhere, 12);
        reveal_with_fuel(differs, 3);
    }
    lemma_nowhere(DEDUP_3@, "f.language = "@);
}

#[verifier::rlimit(100)]
proof fn dedup_3_lacks_project()
    ensures
        !says(DEDUP_3@, "p.name = "@),
        DEDUP_3@.len() > 0,
        DEDUP_3@[0] == '(',
{
    reveal_strlit(
        "(NOT $3 OR NOT EXISTS (
    SELECT 1 FROM projects p_dup
    JOIN indexed_files f_dup ON f_dup.project_id = p_dup.id
    JOIN projects p_self ON p_self.id = f.project_id
    WHERE p_dup.id < p_self.id
      AND f_dup.relative_path = f.relative_path
      AND (
          (p_dup.git_common_dir IS NOT NULL AND p_self.git_common_dir IS NOT NULL
           AND p_dup.git_common_dir = p_self.git_common_dir)
          OR
          (p_dup.git_root_commits IS NOT NULL AND p_self.git_root_commits IS NOT NULL
           AND p_dup.git_root_commits = p_self.git_root_commits)
      )
))",
    );
    reveal_strlit("p.name = ");
    assert(nowhere(DEDUP_3@, "p.name = "@, 0, 578)) by {
        reveal_with_fuel(nowhere, 12);
        reveal_with_fuel(differs, 3);
    }
    lemma_nowhere(DEDUP_3@, "p.name = "@);
}

#[verifier::rlimit(100)]
proof fn dedup_4_lacks_language()
    ensures
        !says(DEDUP_4@, "f.language = "@),
        DEDUP_4@.len() > 0,
        DEDUP_4@[0] == '(',
{
    reveal_strlit(
        "(NOT $4 OR NOT EXISTS (
    SELECT 1 FROM projects p_dup
    JOIN indexed_files f_dup ON f_dup.project_id = p_dup.id
    JOIN projects p_self ON p_self.id = f.project_id
    WHERE p_dup.id < p_self.id
      AND f_dup.relative_path = f.relative_path
      AND (
          (p_dup.git_common_dir IS NOT NULL AND p_self.git_common_dir IS NOT NULL
           AND p_dup.git_common_dir = p_self.git_common_dir)
          OR
          (p_dup.git_root_commits IS NOT NULL AND p_self.git_root_commits IS NOT NULL
           AND p_dup.git_root_commits = p_self.git_root_commits)
      )
))",
    );
    reveal_strlit("f.language = ");
    assert(nowhere(DEDUP_4@, "f.language = "@, 0, 578)) by {
        reveal_with_fuel(nowhere, 12);
        reveal_with_fuel(differs, 3);
    }
    lemma_nowhere(DEDUP_4@, "f.language = "@);
}

#[verifier::rlimit(100)]
proof fn dedup_4_lacks_project()
    ensures
        !says(DEDUP_4@, "p.name = "@),
        DEDUP_4@.len() > 0,
        DEDUP_4@[0] == '(',
{
    reveal_strlit(
        "(NOT $4 OR NOT EXISTS (
    SELECT 1 FROM projects p_dup
    JOIN indexed_files f_dup ON f_dup.project_id = p_dup.id
    JOIN projects p_self ON p_self.id = f.project_id
    WHERE p_dup.id < p_self.id
      AND f_dup.relative_path = f.relative_path
      AND (
          (p_dup.git_common_dir IS NOT NULL AND p_self.git_common_dir IS NOT NULL
           AND p_dup.git_common_dir = p_self.git_common_dir)
          OR
          (p_dup.git_root_commits IS NOT NULL AND p_self.git_root_commits IS NOT NULL
           AND p_dup.git_root_commits = p_self.git_root_commits)
      )
))",
    );
    reveal_strlit("p.name = ");
    assert(nowhere(DEDUP_4@, "p.name = "@, 0, 578)) by {
        reveal_with_fuel(nowhere, 12);
        reveal_with_fuel(differs, 3);
    }
    lemma_nowhere(DEDUP_4@, "p.name = "@);
}

/// A part that neither the head of a search has, nor the clause for worktrees, nor
/// the tail, the search has not.
proof fn lemma_search_lacks(head: Seq<char>, clause: Seq<char>, tail: Seq<char>, part: Seq<char>)
    requires
        !says(head, part),
        !says(clause, part),
        !says(tail, part),
        clause.len() > 0,
        tail.len() > 0,
        forall|j: int| 0 <= j < part.len() ==> #[trigger] part[j] != clause[0],
        forall|j: int| 0 <= j < part.len() ==> #[trigger] part[j] != tail[0],
    ensures
        !says(head + clause + tail, part),
{
    lemma_absent_joins(head, clause, part);
    lemma_absent_joins(head + clause, tail, part);
}

/// A search by similarity has a condition on the language exactly where a language
/// is given, and one on the project exactly where a project is given; each takes
/// what is given.
#[verifier::rlimit(100)]
pub proof fn law_semantic_search_keeps_what_is_asked_for(
    limit: i32,
    language: Option<Seq<char>>,
    project: Option<Seq<char>>,
    dedupe: bool,
)
    ensures
        language is Some && project is Some ==> opens(
            semantic_query(limit, language, project, dedupe).sql,
            "SELECT"@,
        ),
        language is Some && project is Some ==> takes(
            semantic_query(limit, language, project, dedupe),
            "c.embedding_v2 <=> "@,
            BindView::Supplied(0),
        ),
        language is Some && project is Some ==> takes(
            semantic_query(limit, language, project, dedupe),
            "f.language = "@,
            BindView::Text(language->0),
        ),
        language is Some && project is Some ==> takes(
            semantic_query(limit, language, project, dedupe),
            "p.name = "@,
            BindView::Text(project->0),
        ),
        language is Some && project is Some ==> says(
            semantic_query(limit, language, project, dedupe).sql,
            "AND c.embedding_v2 IS NOT NULL"@,
        ),
        language is Some && project is Some ==> says(
            semantic_query(limit, language, project, dedupe).sql,
            "FROM file_chunks"@,
        ),
        language is Some && project is Some ==> takes(
            semantic_query(limit, language, project, dedupe),
            "(NOT "@,
            BindView::Bool(dedupe),
        ),
        language is Some && project is Some ==> says(
            semantic_query(limit, language, project, dedupe).sql,
            "WHERE p_dup.id < p_self.id"@,
        ),
        language is Some && project is Some ==> says(
            semantic_query(limit, language, project, dedupe).sql,
            "AND f_dup.relative_path = f.relative_path"@,
        ),
        language is Some && project is Some ==> says(
            semantic_query(limit, language, project, dedupe).sql,
            "AND p_dup.git_common_dir = p_self.git_common_dir)"@,
        ),
        language is Some && project is Some ==> says(
            semantic_query(limit, language, project, dedupe).sql,
            "AND p_dup.git_root_commits = p_self.git_root_commits)"@,
        ),
        language is Some && project is Some ==> says(
            semantic_query(limit, language, project, dedupe).sql,
            "FROM projects"@,
        ),
        language is Some && project is Some ==> takes(
            semantic_query(limit, language, project, dedupe),
            "LIMIT "@,
            BindView::Int(limit),
        ),
        language is Some && project is None ==> opens(
            semantic_query(limit, language, project, dedupe).sql,
            "SELECT"@,
        ),
        language is Some && project is None ==> takes(
            semantic_query(limit, language, project, dedupe),
            "c.embedding_v2 <=> "@,
            BindView::Supplied(0),
        ),
        language is Some && project is None ==> takes(
            semantic_query(limit, language, project, dedupe),
            "f.language = "@,
            BindView::Text(language->0),
        ),
        language is Some && project is None ==> says(
            semantic_query(limit, language, project, dedupe).sql,
            "AND c.embedding_v2 IS NOT NULL"@,
        ),
        language is Some && project is None ==> says(
            semantic_query(limit, language, project, dedupe).sql,
            "FROM file_chunks"@,
        ),
        language is Some && project is None ==> takes(
            semantic_query(limit, language, project, dedupe),
            "(NOT "@,
            BindView::Bool(dedupe),
        ),
        language is Some && project is None ==> says(
            semantic_query(limit, language, project, dedupe).sql,
            "WHERE p_dup.id < p_self.id"@,
        ),
        language is Some && project is None ==> says(
            semantic_query(limit, language, project, dedupe).sql,
            "AND f_dup.relative_path = f.relative_path"@,
        ),
        language is Some && project is None ==> says(
            semantic_query(limit, language, project, dedupe).sql,
            "AND p_dup.git_common_dir = p_self.git_common_dir)"@,
        ),
        language is Some && project is None ==> says(
            semantic_query(limit, language, project, dedupe).sql,
            "AND p_dup.git_root_commits = p_self.git_root_commits)"@,
        ),
        language is Some && project is None ==> says(
            semantic_query(limit, language, project, dedupe).sql,
            "FROM projects"@,
        ),
        language is Some && project is None ==> takes(
            semantic_query(limit, language, project, dedupe),
            "LIMIT "@,
            BindView::Int(limit),
        ),
        language is None && project is Some ==> opens(
            semantic_query(limit, language, project, dedupe).sql,
            "SELECT"@,
        ),
        language is None && project is Some ==> takes(
            semantic_query(limit, language, project, dedupe),
            "c.embedding_v2 <=> "@,
            BindView::Supplied(0),
        ),
        language is None && project is Some ==> takes(
            semantic_query(limit, language, project, dedupe),
            "p.name = "@,
            BindView::Text(project->0),
        ),
        language is None && project is Some ==> says(
            semantic_query(limit, language, project, dedupe).sql,
            "AND c.embedding_v2 IS NOT NULL"@,
        ),
        language is None && project is Some ==> says(
            semantic_query(limit, language, project, dedupe).sql,
            "FROM file_chunks"@,
        ),
        language is None && project is Some ==> takes(
            semantic_query(limit, language, project, dedupe),
            "(NOT "@,
            BindView::Bool(dedupe),
        ),
        language is None && project is Some ==> says(
            semantic_query(limit, language, project, dedupe).sql,
            "WHERE p_dup.id < p_self.id"@,
        ),
        language is None && project is Some ==> says(
            semantic_query(limit, language, project, dedupe).sql,
            "AND f_dup.relative_path = f.relative_path"@,
        ),
        language is None && project is Some ==> says(
            semantic_query(limit, language, project, dedupe).sql,
            "AND p_dup.git_common_dir = p_self.git_common_dir)"@,
        ),
        language is None && project is Some ==> says(
            semantic_query(limit, language, project, dedupe).sql,
            "AND p_dup.git_root_commits = p_self.git_root_commits)"@,
        ),
        language is None && project is Some ==> says(
            semantic_query(limit, language, project, dedupe).sql,
            "FROM projects"@,
        ),
        language is None && project is Some ==> takes(
            semantic_query(limit, language, project, dedupe),
            "LIMIT "@,
            BindView::Int(limit),
        ),
        language is None && project is None ==> opens(
            semantic_query(limit, language, project, dedupe).sql,
            "SELECT"@,
        ),
        language is None && project is None ==> takes(
            semantic_query(limit, language, project, dedupe),
            "c.embedding_v2 <=> "@,
            BindView::Supplied(0),
        ),
        language is None && project is None ==> says(
            semantic_query(limit, language, project, dedupe).sql,
            "WHERE c.embedding_v2 IS NOT NULL"@,
        ),
        language is None && project is None ==> says(
            semantic_query(limit, language, project, dedupe).sql,
            "FROM file_chunks"@,
        ),
        language is None && project is None ==> takes(
            semantic_query(limit, language, project, dedupe),
            "(NOT "@,
            BindView::Bool(dedupe),
        ),
        language is None && project is None ==> says(
            semantic_query(limit, language, project, dedupe).sql,
            "WHERE p_dup.id < p_self.id"@,
        ),
        language is None && project is None ==> says(
            semantic_query(limit, language, project, dedupe).sql,
            "AND f_dup.relative_path = f.relative_path"@,
        ),
        language is None && project is None ==> says(
            semantic_query(limit, language, project, dedupe).sql,
            "AND p_dup.git_common_dir = p_self.git_common_dir)"@,
        ),
        language is None && project is None ==> says(
            semantic_query(limit, language, project, dedupe).sql,
            "AND p_dup.git_root_commits = p_self.git_root_commits)"@,
        ),
        language is None && project is None ==> says(
            semantic_query(limit, language, project, dedupe).sql,
            "FROM projects"@,
        ),
        language is None && project is None ==> takes(
            semantic_query(limit, language, project, dedupe),
            "LIMIT "@,
            BindView::Int(limit),
        ),
        language is None ==> !says(semantic_query(limit, language, project, dedupe).sql, "f.language = "@),
        project is None ==> !says(semantic_query(limit, language, project, dedupe).sql, "p.name = "@),
{
    if language is Some && project is Some {
        let st = semantic_query(limit, language, project, dedupe);
        semantic_by_language_and_project_text();
        dedup_5_text();
        semantic_tail_text();
        assert(st.sql =~= SEMANTIC_BY_LANGUAGE_AND_PROJECT@ + (DEDUP_5@ + SEMANTIC_TAIL@));
        lemma_within(st.sql, seq![], SEMANTIC_BY_LANGUAGE_AND_PROJECT@, DEDUP_5@ + SEMANTIC_TAIL@);
        assert(st.sql =~= (SEMANTIC_BY_LANGUAGE_AND_PROJECT@) + DEDUP_5@ + (SEMANTIC_TAIL@));
        lemma_within(st.sql, SEMANTIC_BY_LANGUAGE_AND_PROJECT@, DEDUP_5@, SEMANTIC_TAIL@);
        assert(st.sql =~= (SEMANTIC_BY_LANGUAGE_AND_PROJECT@ + DEDUP_5@) + SEMANTIC_TAIL@);
        lemma_within(st.sql, SEMANTIC_BY_LANGUAGE_AND_PROJECT@ + DEDUP_5@, SEMANTIC_TAIL@, seq![]);
    }
    if language is Some && project is None {
        let st = semantic_query(limit, language, project, dedupe);
        semantic_by_language_text();
        dedup_4_text();
        semantic_tail_text();
        assert(st.sql =~= SEMANTIC_BY_LANGUAGE@ + (DEDUP_4@ + SEMANTIC_TAIL@));
        lemma_within(st.sql, seq![], SEMANTIC_BY_LANGUAGE@, DEDUP_4@ + SEMANTIC_TAIL@);
        assert(st.sql =~= (SEMANTIC_BY_LANGUAGE@) + DEDUP_4@ + (SEMANTIC_TAIL@));
        lemma_within(st.sql, SEMANTIC_BY_LANGUAGE@, DEDUP_4@, SEMANTIC_TAIL@);
        assert(st.sql =~= (SEMANTIC_BY_LANGUAGE@ + DEDUP_4@) + SEMANTIC_TAIL@);
        lemma_within(st.sql, SEMANTIC_BY_LANGUAGE@ + DEDUP_4@, SEMANTIC_TAIL@, seq![]);
    }
    if language is None && project is Some {
        let st = semantic_query(limit, language, project, dedupe);
        semantic_by_project_text();
        dedup_4_text();
        semantic_tail_text();
        assert(st.sql =~= SEMANTIC_BY_PROJECT@ + (DEDUP_4@ + SEMANTIC_TAIL@));
        lemma_within(st.sql, seq![], SEMANTIC_BY_PROJECT@, DEDUP_4@ + SEMANTIC_TAIL@);
        assert(st.sql =~= (SEMANTIC_BY_PROJECT@) + DEDUP_4@ + (SEMANTIC_TAIL@));
        lemma_within(st.sql, SEMANTIC_BY_PROJECT@, DEDUP_4@, SEMANTIC_TAIL@);
        assert(st.sql =~= (SEMANTIC_BY_PROJECT@ + DEDUP_4@) + SEMANTIC_TAIL@);
        lemma_within(st.sql, SEMANTIC_BY_PROJECT@ + DEDUP_4@, SEMANTIC_TAIL@, seq![]);
    }
    if language is None && project is None {
        let st = semantic_query(limit, language, project, dedupe);
        semantic_overall_text();
        dedup_3_text();
        semantic_tail_text();
        assert(st.sql =~= SEMANTIC_OVERALL@ + (DEDUP_3@ + SEMANTIC_TAIL@));
        lemma_within(st.sql, seq![], SEMANTIC_OVERALL@, DEDUP_3@ + SEMANTIC_TAIL@);
        assert(st.sql =~= (SEMANTIC_OVERALL@) + DEDUP_3@ + (SEMANTIC_TAIL@));
        lemma_within(st.sql, SEMANTIC_OVERALL@, DEDUP_3@, SEMANTIC_TAIL@);
        assert(st.sql =~= (SEMANTIC_OVERALL@ + DEDUP_3@) + SEMANTIC_TAIL@);
        lemma_within(st.sql, SEMANTIC_OVERALL@ + DEDUP_3@, SEMANTIC_TAIL@, seq![]);
    }
    reveal_strlit("f.language = ");
    reveal_strlit("p.name = ");
    semantic_tail_lacks_language();
    semantic_tail_lacks_project();
    if language is None && project is None {
        semantic_overall_lacks_language();
        semantic_overall_lacks_project();
        dedup_3_lacks_language();
        dedup_3_lacks_project();
        lemma_search_lacks(SEMANTIC_OVERALL@, DEDUP_3@, SEMANTIC_TAIL@, "f.language = "@);
        lemma_search_lacks(SEMANTIC_OVERALL@, DEDUP_3@, SEMANTIC_TAIL@, "p.name = "@);
    } else if language is None {
        semantic_by_project_lacks();
        dedup_4_lacks_language();
        lemma_search_lacks(SEMANTIC_BY_PROJECT@, DEDUP_4@, SEMANTIC_TAIL@, "f.language = "@);
    } else if project is None {
        semantic_by_language_lacks();
        dedup_4_lacks_project();
        lemma_search_lacks(SEMANTIC_BY_LANGUAGE@, DEDUP_4@, SEMANTIC_TAIL@, "p.name = "@);
    }
}

/// A search by full text takes the query, the language and the project that are
/// given, each where its condition stands.
#[verifier::rlimit(100)]
pub proof fn law_text_search_keeps_what_is_asked_for(
    query: Seq<char>,
    limit: i32,
    language: Option<Seq<char>>,
    project: Option<Seq<char>>,
    dedupe: bool,
)
    ensures
        opens(text_query(query, limit, language, project, dedupe).sql, "SELECT"@),
        takes(
            text_query(query, limit, language, project, dedupe),
            "ts_rank(c.content_tsv, plainto_tsquery('english', "@,
            BindView::Text(query),
        ),
        takes(
            text_query(query, limit, language, project, dedupe),
            "f.language = "@,
            BindView::OptText(language),
        ),
        takes(
            text_query(query, limit, language, project, dedupe),
            "p.name = "@,
            BindView::OptText(project),
        ),
        says(text_query(query, limit, language, project, dedupe).sql, "FROM file_chunks"@),
        takes(
            text_query(query, limit, language, project, dedupe),
            "(NOT "@,
            BindView::Bool(dedupe),
        ),
        says(
            text_query(query, limit, language, project, dedupe).sql,
            "WHERE p_dup.id < p_self.id"@,
        ),
        says(
            text_query(query, limit, language, project, dedupe).sql,
            "AND f_dup.relative_path = f.relative_path"@,
        ),
        says(
            text_query(query, limit, language, project, dedupe).sql,
            "AND p_dup.git_common_dir = p_self.git_common_dir)"@,
        ),
        says(
            text_query(query, limit, language, project, dedupe).sql,
            "AND p_dup.git_root_commits = p_self.git_root_commits)"@,
        ),
        says(text_query(query, limit, language, project, dedupe).sql, "FROM projects"@),
        takes(text_query(query, limit, language, project, dedupe), "LIMIT "@, BindView::Int(limit)),
        says(text_query(query, limit, language, project, dedupe).sql, "ORDER BY f.id, rank DESC"@),
        says(text_query(query, limit, language, project, dedupe).sql, "ORDER BY rank DESC"@),
{
    let st = text_query(query, limit, language, project, dedupe);
    text_search_head_text();
    dedup_5_text();
    text_search_tail_text();
    assert(st.sql =~= TEXT_SEARCH_HEAD@ + (DEDUP_5@ + TEXT_SEARCH_TAIL@));
    lemma_within(st.sql, seq![], TEXT_SEARCH_HEAD@, DEDUP_5@ + TEXT_SEARCH_TAIL@);
    assert(st.sql =~= (TEXT_SEARCH_HEAD@) + DEDUP_5@ + (TEXT_SEARCH_TAIL@));
    lemma_within(st.sql, TEXT_SEARCH_HEAD@, DEDUP_5@, TEXT_SEARCH_TAIL@);
    assert(st.sql =~= (TEXT_SEARCH_HEAD@ + DEDUP_5@) + TEXT_SEARCH_TAIL@);
    lemma_within(st.sql, TEXT_SEARCH_HEAD@ + DEDUP_5@, TEXT_SEARCH_TAIL@, seq![]);
}

/// A search by pattern takes the pattern, and the paths that are given.
#[verifier::rlimit(100)]
pub proof fn law_grep_keeps_what_is_asked_for(
    pattern: Seq<char>,
    like: Option<Seq<char>>,
    limit: i32,
    dedupe: bool,
)
    ensures
        like is Some ==> opens(grep_query(pattern, like, limit, dedupe).sql, "SELECT DISTINCT ON"@),
        like is Some ==> takes(
            grep_query(pattern, like, limit, dedupe),
            "c.content ~ "@,
            BindView::Text(pattern),
        ),
        like is Some ==> takes(
            grep_query(pattern, like, limit, dedupe),
            "f.relative_path LIKE "@,
            BindView::Text(like->0),
        ),
        like is Some ==> says(grep_query(pattern, like, limit, dedupe).sql, "FROM file_chunks"@),
        like is Some ==> takes(
            grep_query(pattern, like, limit, dedupe),
            "(NOT "@,
            BindView::Bool(dedupe),
        ),
        like is Some ==> says(
            grep_query(pattern, like, limit, dedupe).sql,
            "WHERE p_dup.id < p_self.id"@,
        ),
        like is Some ==> says(
            grep_query(pattern, like, limit, dedupe).sql,
            "AND f_dup.relative_path = f.relative_path"@,
        ),
        like is Some ==> says(
            grep_query(pattern, like, limit, dedupe).sql,
            "AND p_dup.git_common_dir = p_self.git_common_dir)"@,
        ),
        like is Some ==> says(
            grep_query(pattern, like, limit, dedupe).sql,
            "AND p_dup.git_root_commits = p_self.git_root_commits)"@,
        ),
        like is Some ==> says(grep_query(pattern, like, limit, dedupe).sql, "FROM projects"@),
        like is Some ==> takes(
            grep_query(pattern, like, limit, dedupe),
            "LIMIT "@,
            BindView::Int(limit),
        ),
        like is Some ==> says(
            grep_query(pattern, like, limit, dedupe).sql,
            "ORDER BY f.id, c.chunk_index"@,
        ),
        like is None ==> opens(grep_query(pattern, like, limit, dedupe).sql, "SELECT DISTINCT ON"@),
        like is None ==> takes(
            grep_query(pattern, like, limit, dedupe),
            "c.content ~ "@,
            BindView::Text(pattern),
        ),
        like is None ==> says(grep_query(pattern, like, limit, dedupe).sql, "FROM file_chunks"@),
        like is None ==> takes(
            grep_query(pattern, like, limit, dedupe),
            "(NOT "@,
            BindView::Bool(dedupe),
        ),
        like is None ==> says(
            grep_query(pattern, like, limit, dedupe).sql,
            "WHERE p_dup.id < p_self.id"@,
        ),
        like is None ==> says(
            grep_query(pattern, like, limit, dedupe).sql,
            "AND f_dup.relative_path = f.relative_path"@,
        ),
        like is None ==> says(
            grep_query(pattern, like, limit, dedupe).sql,
            "AND p_dup.git_common_dir = p_self.git_common_dir)"@,
        ),
        like is None ==> says(
            grep_query(pattern, like, limit, dedupe).sql,
            "AND p_dup.git_root_commits = p_self.git_root_commits)"@,
        ),
        like is None ==> says(grep_query(pattern, like, limit, dedupe).sql, "FROM projects"@),
        like is None ==> takes(
            grep_query(pattern, like, limit, dedupe),
            "LIMIT "@,
            BindView::Int(limit),
        ),
        like is None ==> says(
            grep_query(pattern, like, limit, dedupe).sql,
            "ORDER BY f.id, c.chunk_index"@,
        ),
{
    if like is Some {
        let st = grep_query(pattern, like, limit, dedupe);
        grep_in_files_head_text();
        dedup_4_text();
        grep_tail_text();
        assert(st.sql =~= GREP_IN_FILES_HEAD@ + (DEDUP_4@ + GREP_TAIL@));
        lemma_within(st.sql, seq![], GREP_IN_FILES_HEAD@, DEDUP_4@ + GREP_TAIL@);
        assert(st.sql =~= (GREP_IN_FILES_HEAD@) + DEDUP_4@ + (GREP_TAIL@));
        lemma_within(st.sql, GREP_IN_FILES_HEAD@, DEDUP_4@, GREP_TAIL@);
        assert(st.sql =~= (GREP_IN_FILES_HEAD@ + DEDUP_4@) + GREP_TAIL@);
        lemma_within(st.sql, GREP_IN_FILES_HEAD@ + DEDUP_4@, GREP_TAIL@, seq![]);
    }
    if like is None {
        let st = grep_query(pattern, like, limit, dedupe);
        grep_head_text();
        dedup_3_text();
        grep_tail_text();
        assert(st.sql =~= GREP_HEAD@ + (DEDUP_3@ + GREP_TAIL@));
        lemma_within(st.sql, seq![], GREP_HEAD@, DEDUP_3@ + GREP_TAIL@);
        assert(st.sql =~= (GREP_HEAD@) + DEDUP_3@ + (GREP_TAIL@));
        lemma_within(st.sql, GREP_HEAD@, DEDUP_3@, GREP_TAIL@);
        assert(st.sql =~= (GREP_HEAD@ + DEDUP_3@) + GREP_TAIL@);
        lemma_within(st.sql, GREP_HEAD@ + DEDUP_3@, GREP_TAIL@, seq![]);
    }
}

} // verus!
